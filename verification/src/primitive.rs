//! The one place where the cryptographic primitives are reached: AEAD
//! sealing and opening, HKDF, and the header protection mask.
//!
//! What a primitive computes is not restated here. Each has a name, and the
//! functions of this module say which name, applied to which bytes, their
//! result is, and on which inputs they answer.
//!
//! A primitive answers or refuses by its arguments alone. Setting up an
//! AEAD key takes memory; that memory can be had is taken for granted here,
//! as it is of every allocation.

use vstd::prelude::*;
use aws_lc_rs::aead::quic;
use aws_lc_rs::aead::{Aad, LessSafeKey, Nonce, UnboundKey, AES_128_GCM, AES_256_GCM, CHACHA20_POLY1305};
use aws_lc_rs::constant_time;
use aws_lc_rs::hkdf;
use zeroize::Zeroize;
use crate::cipher_suite::{CipherSuite, HashAlgorithm, MASK_LEN, NONCE_LEN, SAMPLE_LEN, TAG_LEN};
use crate::error::Error;

verus! {

/// The longest pseudorandom key that the key derivation takes.
pub const MAX_PRK_LEN: usize = 64;

/// A length up to which every supported AEAD takes associated data and
/// plaintext. The AEADs' own limits lie far above it.
pub const MAX_AEAD_INPUT_LEN: usize = 0xffff_ffff;


/// The ciphertext followed by its tag that the suite's AEAD gives for
/// `plaintext` under `key`, `nonce` and `aad`; `None` where the AEAD has no
/// sealing for these inputs.
pub uninterp spec fn aead_seal(
    suite: CipherSuite,
    key: Seq<u8>,
    nonce: Seq<u8>,
    aad: Seq<u8>,
    plaintext: Seq<u8>,
) -> Option<Seq<u8>>;

/// The five mask bytes that the suite's header protection gives for
/// `sample` under `key`.
pub uninterp spec fn header_protection_mask(suite: CipherSuite, key: Seq<u8>, sample: Seq<u8>) -> Seq<
    u8,
>;

/// The pseudorandom key that HKDF-Extract gives for `secret` under `salt`.
pub uninterp spec fn hkdf_extract(hash: HashAlgorithm, salt: Seq<u8>, secret: Seq<u8>) -> Seq<u8>;

/// The `len` bytes that HKDF-Expand gives for the pseudorandom key `prk`
/// and `info`.
pub uninterp spec fn hkdf_expand(hash: HashAlgorithm, prk: Seq<u8>, info: Seq<u8>, len: nat) -> Seq<
    u8,
>;

/// Whether `key` and `nonce` have the sizes that the suite's AEAD takes.
pub open spec fn aead_input_ok(suite: CipherSuite, key: Seq<u8>, nonce: Seq<u8>) -> bool {
    key.len() == suite.spec_key_len() && nonce.len() == NONCE_LEN
}

/// Whether associated data and plaintext are short enough for every
/// supported AEAD.
pub open spec fn within_aead_limits(aad: Seq<u8>, plaintext: Seq<u8>) -> bool {
    aad.len() <= MAX_AEAD_INPUT_LEN && plaintext.len() <= MAX_AEAD_INPUT_LEN
}

/// The most bytes that HKDF-Expand gives under `hash`: 255 digests' worth.
pub open spec fn max_expand_len(hash: HashAlgorithm) -> int {
    255 * hash.spec_output_len()
}

/// `sealed` is what sealing `plaintext` gives.
pub open spec fn seals_to(
    suite: CipherSuite,
    key: Seq<u8>,
    nonce: Seq<u8>,
    aad: Seq<u8>,
    plaintext: Seq<u8>,
    sealed: Seq<u8>,
) -> bool {
    aead_seal(suite, key, nonce, aad, plaintext) == Some(sealed)
}

/// `plaintext` is the one and only plaintext whose sealing is `sealed`.
pub open spec fn is_the_opening(
    suite: CipherSuite,
    key: Seq<u8>,
    nonce: Seq<u8>,
    aad: Seq<u8>,
    sealed: Seq<u8>,
    plaintext: Seq<u8>,
) -> bool {
    forall|other: Seq<u8>|
        (#[trigger] aead_seal(suite, key, nonce, aad, other)) == Some(sealed) <==> other
            == plaintext
}

/// No plaintext has `sealed` as its sealing.
pub open spec fn is_forged(
    suite: CipherSuite,
    key: Seq<u8>,
    nonce: Seq<u8>,
    aad: Seq<u8>,
    sealed: Seq<u8>,
) -> bool {
    forall|other: Seq<u8>| (#[trigger] aead_seal(suite, key, nonce, aad, other)) != Some(sealed)
}

/// What came of an attempt to open sealed bytes.
pub enum Opened {
    /// The bytes were authentic; this is their plaintext.
    Plaintext(Vec<u8>),
    /// The AEAD refused the bytes.
    Rejected,
    /// The AEAD could not be set up with the key and nonce.
    Unavailable,
}

/// An output length for HKDF-Expand, in bytes.
pub struct OkmLen(pub usize);

impl hkdf::KeyType for OkmLen {
    /// The length that was asked for: HKDF-Expand produces this many bytes,
    /// and a buffer of any other size is refused when it is filled.
    fn len(&self) -> (len: usize)
        ensures
            len == self.0,
    {
        self.0
    }
}

/// `LessSafeKey::seal_in_place_separate_tag` of aws-lc-rs, on a key made by
/// `UnboundKey::new` and a nonce made by `Nonce::try_assume_unique_for_key`.
/// Trusted: it answers exactly where key and nonce have the sizes of the
/// suite and the AEAD has a sealing for the input, which it has for every
/// input within `MAX_AEAD_INPUT_LEN`: AES-GCM refuses more than 2^36 - 32
/// bytes of plaintext or 2^61 bytes of associated data, ChaCha20-Poly1305
/// 2^38 - 64 bytes of plaintext or more. Where it answers, the ciphertext
/// followed by the tag is that sealing, the ciphertext is as long as the
/// plaintext and the tag has sixteen bytes.
#[verifier::external_body]
fn seal_in_place_separate_tag(
    suite: CipherSuite,
    key: &[u8],
    nonce: &[u8],
    aad: &[u8],
    plaintext: &[u8],
) -> (parts: Option<(Vec<u8>, Vec<u8>)>)
    ensures
        parts is Some <==> (aead_input_ok(suite, key@, nonce@) && aead_seal(
            suite,
            key@,
            nonce@,
            aad@,
            plaintext@,
        ) is Some),
        (aead_input_ok(suite, key@, nonce@) && within_aead_limits(aad@, plaintext@)) ==> parts is Some,
        parts matches Some((ciphertext, tag)) ==> {
            &&& aead_seal(suite, key@, nonce@, aad@, plaintext@) == Some(ciphertext@ + tag@)
            &&& ciphertext@.len() == plaintext@.len()
            &&& tag@.len() == TAG_LEN
        },
{
    let algorithm = match suite {
        CipherSuite::Aes128GcmSha256 => &AES_128_GCM,
        CipherSuite::Aes256GcmSha384 => &AES_256_GCM,
        CipherSuite::Chacha20Poly1305Sha256 => &CHACHA20_POLY1305,
    };
    let key = LessSafeKey::new(UnboundKey::new(algorithm, key).ok()?);
    let nonce = Nonce::try_assume_unique_for_key(nonce).ok()?;
    let mut in_out = plaintext.to_vec();
    let tag = key.seal_in_place_separate_tag(nonce, Aad::from(aad), &mut in_out).ok()?;
    Some((in_out, tag.as_ref().to_vec()))
}

/// `LessSafeKey::open_in_place` of aws-lc-rs, on a key made by
/// `UnboundKey::new` and a nonce made by `Nonce::try_assume_unique_for_key`.
/// Trusted: a plaintext that it returns is the only one whose sealing is the
/// input, and where it refuses the input, no plaintext has that sealing.
/// `Unavailable` stands for a key or nonce that could not be made, which
/// happens exactly where one of them does not have the size of the suite.
#[verifier::external_body]
fn open_in_place(suite: CipherSuite, key: &[u8], nonce: &[u8], aad: &[u8], sealed: &[u8]) -> (outcome:
    Opened)
    ensures
        outcome is Unavailable <==> !aead_input_ok(suite, key@, nonce@),
        outcome matches Opened::Plaintext(plaintext) ==> is_the_opening(
            suite,
            key@,
            nonce@,
            aad@,
            sealed@,
            plaintext@,
        ),
        outcome is Rejected ==> is_forged(suite, key@, nonce@, aad@, sealed@),
{
    let algorithm = match suite {
        CipherSuite::Aes128GcmSha256 => &AES_128_GCM,
        CipherSuite::Aes256GcmSha384 => &AES_256_GCM,
        CipherSuite::Chacha20Poly1305Sha256 => &CHACHA20_POLY1305,
    };
    let Ok(key) = UnboundKey::new(algorithm, key) else { return Opened::Unavailable };
    let Ok(nonce) = Nonce::try_assume_unique_for_key(nonce) else { return Opened::Unavailable };
    let mut in_out = sealed.to_vec();
    match LessSafeKey::new(key).open_in_place(nonce, Aad::from(aad), &mut in_out) {
        Ok(plaintext) => Opened::Plaintext(plaintext.to_vec()),
        Err(_) => Opened::Rejected,
    }
}

/// `quic::HeaderProtectionKey::new_mask` of aws-lc-rs, on a key made by
/// `quic::HeaderProtectionKey::new`. Trusted: it answers exactly where the
/// key has the size of the suite and the sample has sixteen bytes, and the
/// five bytes it answers are the suite's mask for the sample under the key.
#[verifier::external_body]
fn new_mask(suite: CipherSuite, key: &[u8], sample: &[u8]) -> (mask: Option<Vec<u8>>)
    ensures
        mask is Some <==> (key@.len() == suite.spec_key_len() && sample@.len() == SAMPLE_LEN),
        mask matches Some(m) ==> {
            &&& m@ == header_protection_mask(suite, key@, sample@)
            &&& m@.len() == MASK_LEN
        },
{
    let algorithm = match suite {
        CipherSuite::Aes128GcmSha256 => &quic::AES_128,
        CipherSuite::Aes256GcmSha384 => &quic::AES_256,
        CipherSuite::Chacha20Poly1305Sha256 => &quic::CHACHA20,
    };
    let key = quic::HeaderProtectionKey::new(algorithm, key).ok()?;
    Some(key.new_mask(sample).ok()?.to_vec())
}

/// `hkdf::Prk::expand` and `hkdf::Okm::fill` of aws-lc-rs, on a key made by
/// `hkdf::Prk::new_less_safe`, which panics on more than 64 bytes. Expanding
/// refuses more than 255 digests' worth of output and nothing else. Trusted:
/// it answers, and the `len` bytes are HKDF-Expand of the key and `info`.
#[verifier::external_body]
fn expand_fill(hash: HashAlgorithm, prk: &[u8], info: &[u8], len: usize) -> (okm: Option<Vec<u8>>)
    requires
        prk@.len() <= MAX_PRK_LEN,
        len <= max_expand_len(hash),
    ensures
        okm is Some,
        okm matches Some(out) ==> {
            &&& out@ == hkdf_expand(hash, prk@, info@, len as nat)
            &&& out@.len() == len
        },
{
    let algorithm = match hash {
        HashAlgorithm::Sha256 => hkdf::HKDF_SHA256,
        HashAlgorithm::Sha384 => hkdf::HKDF_SHA384,
    };
    let prk = hkdf::Prk::new_less_safe(algorithm, prk);
    let mut out = vec![0u8; len];
    prk.expand(&[info], OkmLen(len)).ok()?.fill(&mut out).ok()?;
    Some(out)
}

/// `hkdf::Salt::extract` of aws-lc-rs, followed by `hkdf::Prk::expand` and
/// `hkdf::Okm::fill` on the key it gives, which cannot be read otherwise.
/// Expanding refuses more than 255 digests' worth of output and nothing
/// else. Trusted: it answers, and the `len` bytes are HKDF-Expand of `info`
/// and of the HKDF-Extract of `secret` under `salt`.
#[verifier::external_body]
fn extract_expand_fill(hash: HashAlgorithm, salt: &[u8], secret: &[u8], info: &[u8], len: usize) -> (okm:
    Option<Vec<u8>>)
    requires
        len <= max_expand_len(hash),
    ensures
        okm is Some,
        okm matches Some(out) ==> {
            &&& out@ == hkdf_expand(hash, hkdf_extract(hash, salt@, secret@), info@, len as nat)
            &&& out@.len() == len
        },
{
    let algorithm = match hash {
        HashAlgorithm::Sha256 => hkdf::HKDF_SHA256,
        HashAlgorithm::Sha384 => hkdf::HKDF_SHA384,
    };
    let prk = hkdf::Salt::new(algorithm, salt).extract(secret);
    let mut out = vec![0u8; len];
    prk.expand(&[info], OkmLen(len)).ok()?.fill(&mut out).ok()?;
    Some(out)
}

/// `constant_time::verify_slices_are_equal` of aws-lc-rs. Trusted: it
/// accepts exactly when the two slices hold the same bytes.
#[verifier::external_body]
pub(crate) fn verify_slices_are_equal(a: &[u8], b: &[u8]) -> (equal: bool)
    ensures
        equal == (a@ == b@),
{
    constant_time::verify_slices_are_equal(a, b).is_ok()
}

/// `Zeroize::zeroize` of the zeroize crate, on the bytes of a buffer as a
/// slice. Trusted: it sets every byte to zero, with writes that are not
/// optimised away, leaves the length as it is, and does not unwind: the one
/// thing it asserts, that the length fits an `isize`, is true of every
/// buffer.
#[verifier::external_body]
pub(crate) fn zeroize_bytes(bytes: &mut Vec<u8>)
    ensures
        final(bytes)@ == Seq::new(old(bytes)@.len(), |i: int| 0u8),
    opens_invariants none
    no_unwind
{
    bytes.as_mut_slice().zeroize();
}

/// Key material as the key derivation handed it out, or the refusal of the
/// primitive as an error.
pub fn key_material(okm: Option<Vec<u8>>) -> (material: Result<Vec<u8>, Error>)
    ensures
        match okm {
            Some(out) => material matches Ok(bytes) && bytes@ == out@,
            None => material == Err::<Vec<u8>, Error>(Error::InvalidKeyMaterial),
        },
{
    match okm {
        Some(out) => Ok(out),
        None => Err(Error::InvalidKeyMaterial),
    }
}

/// The ciphertext and tag of a sealing joined into one buffer, or the
/// refusal of the primitive as an error.
pub fn join_sealed(parts: Option<(Vec<u8>, Vec<u8>)>) -> (sealed: Result<Vec<u8>, Error>)
    ensures
        match parts {
            Some((ciphertext, tag)) => sealed matches Ok(bytes) && bytes@ == ciphertext@ + tag@,
            None => sealed == Err::<Vec<u8>, Error>(Error::InvalidKeyMaterial),
        },
{
    match parts {
        Some((ciphertext, tag)) => {
            let mut bytes = ciphertext;
            let mut tag = tag;
            bytes.append(&mut tag);
            Ok(bytes)
        },
        None => Err(Error::InvalidKeyMaterial),
    }
}

/// What the caller of `open` is told for each outcome of the AEAD.
pub fn opened_payload(outcome: Opened) -> (payload: Result<Vec<u8>, Error>)
    ensures
        match outcome {
            Opened::Plaintext(plaintext) => payload matches Ok(bytes) && bytes@ == plaintext@,
            Opened::Rejected => payload == Err::<Vec<u8>, Error>(Error::AuthenticationFailure),
            Opened::Unavailable => payload == Err::<Vec<u8>, Error>(Error::InvalidKeyMaterial),
        },
{
    match outcome {
        Opened::Plaintext(plaintext) => Ok(plaintext),
        Opened::Rejected => Err(Error::AuthenticationFailure),
        Opened::Unavailable => Err(Error::InvalidKeyMaterial),
    }
}

/// The most bytes that HKDF-Expand gives under `hash`.
pub fn expand_limit(hash: HashAlgorithm) -> (limit: usize)
    ensures
        limit == max_expand_len(hash),
{
    255 * hash.output_len()
}

/// Seals `plaintext` and hands out the ciphertext and the tag apart.
///
/// Succeeds exactly where the key and the nonce have the sizes of the suite
/// and the AEAD has a sealing for the input, which it has for every input
/// within `MAX_AEAD_INPUT_LEN`. Fails with `InvalidKeyMaterial` otherwise.
pub fn seal_detached(suite: CipherSuite, key: &[u8], nonce: &[u8], aad: &[u8], plaintext: &[u8]) -> (parts:
    Result<(Vec<u8>, Vec<u8>), Error>)
    ensures
        parts is Ok <==> aead_input_ok(suite, key@, nonce@) && aead_seal(
            suite,
            key@,
            nonce@,
            aad@,
            plaintext@,
        ) is Some,
        aead_input_ok(suite, key@, nonce@) && within_aead_limits(aad@, plaintext@) ==> parts is Ok,
        parts matches Ok((ciphertext, tag)) ==> {
            &&& seals_to(suite, key@, nonce@, aad@, plaintext@, ciphertext@ + tag@)
            &&& ciphertext@.len() == plaintext@.len()
            &&& tag@.len() == TAG_LEN
        },
        parts matches Err(e) ==> e == Error::InvalidKeyMaterial,
{
    match seal_in_place_separate_tag(suite, key, nonce, aad, plaintext) {
        Some(parts) => Ok(parts),
        None => Err(Error::InvalidKeyMaterial),
    }
}

/// Seals `plaintext`: the ciphertext with the tag behind it.
///
/// Succeeds exactly where the key and the nonce have the sizes of the suite
/// and the AEAD has a sealing for the input, which it has for every input
/// within `MAX_AEAD_INPUT_LEN`. Fails with `InvalidKeyMaterial` otherwise.
pub fn seal(suite: CipherSuite, key: &[u8], nonce: &[u8], aad: &[u8], plaintext: &[u8]) -> (sealed:
    Result<Vec<u8>, Error>)
    ensures
        sealed is Ok <==> aead_input_ok(suite, key@, nonce@) && aead_seal(
            suite,
            key@,
            nonce@,
            aad@,
            plaintext@,
        ) is Some,
        aead_input_ok(suite, key@, nonce@) && within_aead_limits(aad@, plaintext@) ==> sealed is Ok,
        sealed matches Ok(bytes) ==> {
            &&& seals_to(suite, key@, nonce@, aad@, plaintext@, bytes@)
            &&& bytes@.len() == plaintext@.len() + TAG_LEN
        },
        sealed matches Err(e) ==> e == Error::InvalidKeyMaterial,
{
    join_sealed(seal_in_place_separate_tag(suite, key, nonce, aad, plaintext))
}

/// What `open` answers for `sealed`: `InvalidKeyMaterial` exactly where the
/// key or the nonce does not have the size of the suite; else a plaintext,
/// and then the one whose sealing `sealed` is, or `AuthenticationFailure`,
/// and then `sealed` is the sealing of nothing.
pub open spec fn open_answer(
    suite: CipherSuite,
    key: Seq<u8>,
    nonce: Seq<u8>,
    aad: Seq<u8>,
    sealed: Seq<u8>,
    answer: Result<Seq<u8>, Error>,
) -> bool {
    match answer {
        Ok(plaintext) => aead_input_ok(suite, key, nonce) && is_the_opening(
            suite,
            key,
            nonce,
            aad,
            sealed,
            plaintext,
        ),
        Err(Error::AuthenticationFailure) => aead_input_ok(suite, key, nonce) && is_forged(
            suite,
            key,
            nonce,
            aad,
            sealed,
        ),
        Err(Error::InvalidKeyMaterial) => !aead_input_ok(suite, key, nonce),
        Err(Error::UnsupportedCipherSuite) => false,
    }
}

/// The bytes of a result, for use in contracts.
pub open spec fn payload_view(result: Result<Vec<u8>, Error>) -> Result<Seq<u8>, Error> {
    match result {
        Ok(bytes) => Ok(bytes@),
        Err(e) => Err(e),
    }
}

/// Authenticates `sealed`, a ciphertext with its tag behind it, and hands
/// out the plaintext.
///
/// Fails with `InvalidKeyMaterial` exactly where the key or the nonce does
/// not have the size of the suite. Otherwise it succeeds exactly where
/// `sealed` is the sealing of some plaintext, and hands out that plaintext;
/// else it fails with `AuthenticationFailure`.
pub fn open(suite: CipherSuite, key: &[u8], nonce: &[u8], aad: &[u8], sealed: &[u8]) -> (payload: Result<
    Vec<u8>,
    Error,
>)
    ensures
        open_answer(suite, key@, nonce@, aad@, sealed@, payload_view(payload)),
{
    opened_payload(open_in_place(suite, key, nonce, aad, sealed))
}

/// Opening what sealing gave hands out the plaintext that was sealed.
pub proof fn lemma_open_inverts_seal(
    suite: CipherSuite,
    key: Seq<u8>,
    nonce: Seq<u8>,
    aad: Seq<u8>,
    plaintext: Seq<u8>,
    sealed: Seq<u8>,
    answer: Result<Seq<u8>, Error>,
)
    requires
        aead_input_ok(suite, key, nonce),
        seals_to(suite, key, nonce, aad, plaintext, sealed),
        open_answer(suite, key, nonce, aad, sealed, answer),
    ensures
        answer == Ok::<Seq<u8>, Error>(plaintext),
{
}

/// Bytes that were changed after sealing never open to the plaintext that
/// was sealed. They fail authentication, unless they are themselves the
/// sealing of another plaintext, which is then what `open` hands out.
pub proof fn lemma_tampered_never_opens_to_original(
    suite: CipherSuite,
    key: Seq<u8>,
    nonce: Seq<u8>,
    aad: Seq<u8>,
    plaintext: Seq<u8>,
    sealed: Seq<u8>,
    tampered: Seq<u8>,
    answer: Result<Seq<u8>, Error>,
)
    requires
        aead_input_ok(suite, key, nonce),
        seals_to(suite, key, nonce, aad, plaintext, sealed),
        tampered != sealed,
        open_answer(suite, key, nonce, aad, tampered, answer),
    ensures
        answer != Ok::<Seq<u8>, Error>(plaintext),
        answer matches Ok(other) ==> seals_to(suite, key, nonce, aad, other, tampered),
        is_forged(suite, key, nonce, aad, tampered) <==> answer == Err::<Seq<u8>, Error>(
            Error::AuthenticationFailure,
        ),
{
    if let Ok(other) = answer {
        assert(seals_to(suite, key, nonce, aad, other, tampered));
    }
}

/// Derives the header protection mask for a sample of ciphertext.
///
/// Fails with `AuthenticationFailure` exactly where the sample is not
/// sixteen bytes long, and with `InvalidKeyMaterial` exactly where the
/// sample is right and the key does not have the size of the suite.
/// Succeeds otherwise.
pub fn derive_mask(suite: CipherSuite, header_protection_key: &[u8], sample: &[u8]) -> (mask: Result<
    Vec<u8>,
    Error,
>)
    ensures
        sample@.len() != SAMPLE_LEN <==> mask == Err::<Vec<u8>, Error>(Error::AuthenticationFailure),
        sample@.len() == SAMPLE_LEN && header_protection_key@.len() != suite.spec_key_len() <==> mask
            == Err::<Vec<u8>, Error>(Error::InvalidKeyMaterial),
        mask matches Ok(m) ==> {
            &&& m@ == header_protection_mask(suite, header_protection_key@, sample@)
            &&& m@.len() == MASK_LEN
        },
        mask matches Err(e) ==> e != Error::UnsupportedCipherSuite,
{
    if sample.len() != SAMPLE_LEN {
        return Err(Error::AuthenticationFailure);
    }
    key_material(new_mask(suite, header_protection_key, sample))
}

/// HKDF-Expand: `len` bytes of key material from a pseudorandom key.
///
/// Succeeds exactly where the key is no longer than `MAX_PRK_LEN` and `len`
/// is no more than 255 digests' worth. Fails with `InvalidKeyMaterial`
/// otherwise, before any buffer is made.
pub fn expand(hash: HashAlgorithm, prk: &[u8], info: &[u8], len: usize) -> (okm: Result<Vec<u8>, Error>)
    ensures
        okm is Ok <==> prk@.len() <= MAX_PRK_LEN && len <= max_expand_len(hash),
        okm matches Ok(out) ==> {
            &&& out@ == hkdf_expand(hash, prk@, info@, len as nat)
            &&& out@.len() == len
        },
        okm matches Err(e) ==> e == Error::InvalidKeyMaterial,
{
    if prk.len() > MAX_PRK_LEN || len > expand_limit(hash) {
        return Err(Error::InvalidKeyMaterial);
    }
    key_material(expand_fill(hash, prk, info, len))
}

/// HKDF-Extract of `secret` under `salt`, then HKDF-Expand of the key that
/// this gives: `len` bytes of key material.
///
/// Succeeds exactly where `len` is no more than 255 digests' worth. Fails
/// with `InvalidKeyMaterial` otherwise, before any buffer is made.
pub fn extract_and_expand(hash: HashAlgorithm, salt: &[u8], secret: &[u8], info: &[u8], len: usize) -> (okm:
    Result<Vec<u8>, Error>)
    ensures
        okm is Ok <==> len <= max_expand_len(hash),
        okm matches Ok(out) ==> {
            &&& out@ == hkdf_expand(hash, hkdf_extract(hash, salt@, secret@), info@, len as nat)
            &&& out@.len() == len
        },
        okm matches Err(e) ==> e == Error::InvalidKeyMaterial,
{
    if len > expand_limit(hash) {
        return Err(Error::InvalidKeyMaterial);
    }
    key_material(extract_expand_fill(hash, salt, secret, info, len))
}

} // verus!
