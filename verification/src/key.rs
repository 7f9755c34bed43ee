//! Keys that are ready for use: an AEAD key with its IV base for the
//! payload of packets, and a header protection key.

use vstd::prelude::*;
use crate::cipher_suite::{CipherSuite, MASK_LEN, NONCE_LEN, SAMPLE_LEN, TAG_LEN};
use crate::error::Error;
use crate::nonce::{nonce_for, packet_nonce};
use crate::primitive;
use crate::primitive::{
    aead_input_ok, aead_seal, header_protection_mask, is_forged, is_the_opening, seals_to,
    zeroize_bytes, MAX_AEAD_INPUT_LEN,
};

verus! {

/// What an [`AeadKey`] holds.
pub struct AeadKeyView {
    pub suite: CipherSuite,
    pub key: Seq<u8>,
    pub iv: Seq<u8>,
}

impl AeadKeyView {
    /// The key and the IV base have the sizes of the suite.
    pub open spec fn wf(self) -> bool {
        aead_input_ok(self.suite, self.key, self.iv)
    }
}

/// The sealing of `payload` as the packet with this number and header, if
/// the AEAD has one.
pub open spec fn packet_sealing(
    key: AeadKeyView,
    packet_number: u64,
    header: Seq<u8>,
    payload: Seq<u8>,
) -> Option<Seq<u8>> {
    aead_seal(key.suite, key.key, packet_nonce(key.iv, packet_number), header, payload)
}

/// `protected` is the sealing of `payload` as the packet with this number
/// and header.
pub open spec fn packet_seals_to(
    key: AeadKeyView,
    packet_number: u64,
    header: Seq<u8>,
    payload: Seq<u8>,
    protected: Seq<u8>,
) -> bool {
    seals_to(key.suite, key.key, packet_nonce(key.iv, packet_number), header, payload, protected)
}

/// What opening a packet answers under a key of the right sizes: a payload
/// with the packet number it was opened under, and then the one payload
/// whose sealing `protected` is; or `AuthenticationFailure`, and then
/// `protected` is no sealing under this key, number and header at all.
pub open spec fn packet_open_answer(
    key: AeadKeyView,
    packet_number: u64,
    header: Seq<u8>,
    protected: Seq<u8>,
    answer: Result<(Seq<u8>, u64), Error>,
) -> bool {
    match answer {
        Ok((payload, confirmed)) => confirmed == packet_number && is_the_opening(
            key.suite,
            key.key,
            packet_nonce(key.iv, packet_number),
            header,
            protected,
            payload,
        ),
        Err(Error::AuthenticationFailure) => is_forged(
            key.suite,
            key.key,
            packet_nonce(key.iv, packet_number),
            header,
            protected,
        ),
        Err(Error::InvalidKeyMaterial) => false,
        Err(Error::UnsupportedCipherSuite) => false,
    }
}

/// The bytes of an opened packet, for use in contracts.
pub open spec fn opened_view(result: Result<(Vec<u8>, u64), Error>) -> Result<(Seq<u8>, u64), Error> {
    match result {
        Ok((payload, confirmed)) => Ok((payload@, confirmed)),
        Err(e) => Err(e),
    }
}

/// An AEAD key with its IV base, for one direction at one encryption level.
pub struct AeadKey {
    suite: CipherSuite,
    key: Vec<u8>,
    iv: Vec<u8>,
}

impl AeadKey {
    #[verifier::type_invariant]
    spec fn sized(&self) -> bool {
        aead_input_ok(self.suite, self.key@, self.iv@)
    }

    pub closed spec fn view(&self) -> AeadKeyView {
        AeadKeyView { suite: self.suite, key: self.key@, iv: self.iv@ }
    }

    /// Takes ownership of key bytes and an IV base. Fails with
    /// `InvalidKeyMaterial` exactly where one of them does not have the
    /// size of the suite.
    pub fn new(suite: CipherSuite, key: Vec<u8>, iv: Vec<u8>) -> (made: Result<AeadKey, Error>)
        ensures
            match made {
                Ok(k) => k@ == (AeadKeyView { suite, key: key@, iv: iv@ }) && k@.wf(),
                Err(e) => e == Error::InvalidKeyMaterial && !aead_input_ok(suite, key@, iv@),
            },
    {
        if key.len() != suite.key_len() || iv.len() != NONCE_LEN {
            return Err(Error::InvalidKeyMaterial);
        }
        Ok(AeadKey { suite, key, iv })
    }

    /// The suite this key belongs to.
    pub fn suite(&self) -> (suite: CipherSuite)
        ensures
            suite == self@.suite,
            self@.wf(),
    {
        proof {
            use_type_invariant(self);
        }
        self.suite
    }

    /// A second key object with the same bytes.
    pub fn duplicate(&self) -> (copy: AeadKey)
        ensures
            copy@ == self@,
            self@.wf(),
    {
        proof {
            use_type_invariant(self);
        }
        let key = copy_bytes(&self.key);
        let iv = copy_bytes(&self.iv);
        AeadKey { suite: self.suite, key, iv }
    }

    /// Protects the payload of a packet: the ciphertext with the tag behind
    /// it. The nonce is formed from the IV base and the packet number, and
    /// the header is authenticated with the payload.
    ///
    /// Succeeds exactly where the AEAD has a sealing for the packet, which
    /// it has wherever header and payload are within `MAX_AEAD_INPUT_LEN`.
    /// Fails with `InvalidKeyMaterial` otherwise.
    pub fn seal(&self, packet_number: u64, header: &[u8], payload: &[u8]) -> (protected: Result<
        Vec<u8>,
        Error,
    >)
        ensures
            self@.wf(),
            match packet_sealing(self@, packet_number, header@, payload@) {
                Some(sealing) => protected matches Ok(bytes) && bytes@ == sealing && bytes@.len()
                    == payload@.len() + TAG_LEN,
                None => protected == Err::<Vec<u8>, Error>(Error::InvalidKeyMaterial),
            },
            header@.len() <= MAX_AEAD_INPUT_LEN && payload@.len() <= MAX_AEAD_INPUT_LEN
                ==> protected is Ok,
    {
        proof {
            use_type_invariant(self);
        }
        let nonce = nonce_for(self.iv.as_slice(), packet_number);
        primitive::seal(self.suite, self.key.as_slice(), nonce.as_slice(), header, payload)
    }

    /// Authenticates the protected payload of a packet under the packet
    /// number that the caller reconstructed, and hands out the payload with
    /// that number, which the authentication has confirmed.
    ///
    /// Succeeds exactly where `protected` is the sealing of some payload
    /// under this key, number and header. Fails with
    /// `AuthenticationFailure` otherwise.
    pub fn open(&self, packet_number: u64, header: &[u8], protected: &[u8]) -> (opened: Result<
        (Vec<u8>, u64),
        Error,
    >)
        ensures
            self@.wf(),
            packet_open_answer(self@, packet_number, header@, protected@, opened_view(opened)),
    {
        proof {
            use_type_invariant(self);
        }
        let nonce = nonce_for(self.iv.as_slice(), packet_number);
        let payload = primitive::open(
            self.suite,
            self.key.as_slice(),
            nonce.as_slice(),
            header,
            protected,
        );
        confirm(payload, packet_number)
    }

    /// Overwrites the key and the IV base with zeros.
    pub fn zeroize(&mut self)
        ensures
            final(self)@.suite == old(self)@.suite,
            final(self)@.key == Seq::new(old(self)@.key.len(), |i: int| 0u8),
            final(self)@.iv == Seq::new(old(self)@.iv.len(), |i: int| 0u8),
    {
        proof {
            use_type_invariant(&*self);
        }
        zeroize_bytes(&mut self.key);
        zeroize_bytes(&mut self.iv);
    }
}

impl Drop for AeadKey {
    /// Overwrites the key and the IV base with zeros before the memory is
    /// given back.
    fn drop(&mut self)
        opens_invariants none
        no_unwind
    {
        proof {
            use_type_invariant(&*self);
        }
        zeroize_bytes(&mut self.key);
        zeroize_bytes(&mut self.iv);
    }
}

/// Opening a packet that was sealed under the same key, number and header
/// hands out the payload that was sealed, with that packet number.
pub proof fn lemma_packet_open_inverts_seal(
    key: AeadKeyView,
    packet_number: u64,
    header: Seq<u8>,
    payload: Seq<u8>,
    protected: Seq<u8>,
    answer: Result<(Seq<u8>, u64), Error>,
)
    requires
        packet_seals_to(key, packet_number, header, payload, protected),
        packet_open_answer(key, packet_number, header, protected, answer),
    ensures
        answer == Ok::<(Seq<u8>, u64), Error>((payload, packet_number)),
{
}

/// A protected payload that was changed after sealing never opens to the
/// payload that was sealed. It fails authentication, unless it is itself
/// the sealing of another payload, which is then what opening hands out.
pub proof fn lemma_tampered_packet_never_opens_to_original(
    key: AeadKeyView,
    packet_number: u64,
    header: Seq<u8>,
    payload: Seq<u8>,
    protected: Seq<u8>,
    tampered: Seq<u8>,
    answer: Result<(Seq<u8>, u64), Error>,
)
    requires
        packet_seals_to(key, packet_number, header, payload, protected),
        tampered != protected,
        packet_open_answer(key, packet_number, header, tampered, answer),
    ensures
        answer matches Ok((other, _)) ==> other != payload && packet_seals_to(
            key,
            packet_number,
            header,
            other,
            tampered,
        ),
        is_forged(key.suite, key.key, packet_nonce(key.iv, packet_number), header, tampered)
            <==> answer == Err::<(Seq<u8>, u64), Error>(Error::AuthenticationFailure),
{
    if let Ok((other, _)) = answer {
        assert(packet_seals_to(key, packet_number, header, other, tampered));
    }
}

/// Attaches the packet number to an opened payload.
pub fn confirm(payload: Result<Vec<u8>, Error>, packet_number: u64) -> (opened: Result<
    (Vec<u8>, u64),
    Error,
>)
    ensures
        match payload {
            Ok(bytes) => opened matches Ok((same, confirmed)) && same@ == bytes@ && confirmed
                == packet_number,
            Err(e) => opened == Err::<(Vec<u8>, u64), Error>(e),
        },
{
    match payload {
        Ok(bytes) => Ok((bytes, packet_number)),
        Err(e) => Err(e),
    }
}

/// A new buffer with the same bytes.
pub fn copy_bytes(bytes: &Vec<u8>) -> (copy: Vec<u8>)
    ensures
        copy@ == bytes@,
{
    let mut copy: Vec<u8> = Vec::with_capacity(bytes.len());
    let mut i: usize = 0;
    while i < bytes.len()
        invariant
            i <= bytes@.len(),
            copy@ == bytes@.subrange(0, i as int),
        decreases bytes@.len() - i,
    {
        copy.push(bytes[i]);
        i = i + 1;
    }
    assert(bytes@.subrange(0, i as int) == bytes@);
    copy
}

/// What computing a mask answers under a key of the right size: the mask
/// of the sample, where the sample is sixteen bytes long, and else
/// `AuthenticationFailure`.
pub open spec fn mask_answer(
    key: HeaderProtectionKeyView,
    sample: Seq<u8>,
    mask: Result<[u8; 5], Error>,
) -> bool {
    if sample.len() == SAMPLE_LEN {
        mask matches Ok(m) && m@ == header_protection_mask(key.suite, key.key, sample)
    } else {
        mask == Err::<[u8; 5], Error>(Error::AuthenticationFailure)
    }
}

/// What a [`HeaderProtectionKey`] holds.
pub struct HeaderProtectionKeyView {
    pub suite: CipherSuite,
    pub key: Seq<u8>,
}

impl HeaderProtectionKeyView {
    /// The key has the size of the suite.
    pub open spec fn wf(self) -> bool {
        self.key.len() == self.suite.spec_key_len()
    }
}

/// A key for the mask that hides the packet number, for one direction at
/// one encryption level.
pub struct HeaderProtectionKey {
    suite: CipherSuite,
    key: Vec<u8>,
}

impl HeaderProtectionKey {
    #[verifier::type_invariant]
    spec fn sized(&self) -> bool {
        self.key@.len() == self.suite.spec_key_len()
    }

    pub closed spec fn view(&self) -> HeaderProtectionKeyView {
        HeaderProtectionKeyView { suite: self.suite, key: self.key@ }
    }

    /// Takes ownership of key bytes. Fails with `InvalidKeyMaterial`
    /// exactly where they do not have the size of the suite.
    pub fn new(suite: CipherSuite, key: Vec<u8>) -> (made: Result<HeaderProtectionKey, Error>)
        ensures
            match made {
                Ok(k) => k@ == (HeaderProtectionKeyView { suite, key: key@ }) && k@.wf(),
                Err(e) => e == Error::InvalidKeyMaterial && key@.len() != suite.spec_key_len(),
            },
    {
        if key.len() != suite.key_len() {
            return Err(Error::InvalidKeyMaterial);
        }
        Ok(HeaderProtectionKey { suite, key })
    }

    /// The suite this key belongs to.
    pub fn suite(&self) -> (suite: CipherSuite)
        ensures
            suite == self@.suite,
            self@.wf(),
    {
        proof {
            use_type_invariant(self);
        }
        self.suite
    }

    /// How many bytes of ciphertext the mask is computed from.
    pub fn sample_len(&self) -> (len: usize)
        ensures
            len == SAMPLE_LEN,
    {
        SAMPLE_LEN
    }

    /// A second key object with the same bytes.
    pub fn duplicate(&self) -> (copy: HeaderProtectionKey)
        ensures
            copy@ == self@,
            self@.wf(),
    {
        proof {
            use_type_invariant(self);
        }
        let key = copy_bytes(&self.key);
        HeaderProtectionKey { suite: self.suite, key }
    }

    /// Computes the mask for a sample of ciphertext.
    ///
    /// Succeeds exactly where the sample is sixteen bytes long. Fails with
    /// `AuthenticationFailure` otherwise.
    pub fn compute_header_protection_mask(&self, sample: &[u8]) -> (mask: Result<[u8; 5], Error>)
        ensures
            self@.wf(),
            mask_answer(self@, sample@, mask),
    {
        proof {
            use_type_invariant(self);
        }
        match primitive::derive_mask(self.suite, self.key.as_slice(), sample) {
            Ok(m) => Ok(mask_array(&m)),
            Err(e) => Err(e),
        }
    }

    /// Overwrites the key with zeros.
    pub fn zeroize(&mut self)
        ensures
            final(self)@.suite == old(self)@.suite,
            final(self)@.key == Seq::new(old(self)@.key.len(), |i: int| 0u8),
    {
        proof {
            use_type_invariant(&*self);
        }
        zeroize_bytes(&mut self.key);
    }
}

impl Drop for HeaderProtectionKey {
    /// Overwrites the key with zeros before the memory is given back.
    fn drop(&mut self)
        opens_invariants none
        no_unwind
    {
        proof {
            use_type_invariant(&*self);
        }
        zeroize_bytes(&mut self.key);
    }
}

/// Five mask bytes as an array.
pub fn mask_array(bytes: &Vec<u8>) -> (mask: [u8; 5])
    requires
        bytes@.len() == MASK_LEN,
    ensures
        mask@ == bytes@,
{
    let mask: [u8; 5] = [bytes[0], bytes[1], bytes[2], bytes[3], bytes[4]];
    assert(mask@ =~= bytes@);
    mask
}

} // verus!
