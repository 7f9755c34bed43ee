//! The key schedule: from a traffic secret to the keys of its direction,
//! from a connection ID to the Initial secrets, and from a secret to the
//! secret of the next key generation.

use vstd::prelude::*;
use crate::cipher_suite::{CipherSuite, HashAlgorithm, NONCE_LEN};
use crate::error::Error;
use crate::key::{copy_bytes, AeadKey, AeadKeyView, HeaderProtectionKey, HeaderProtectionKeyView};
use crate::label::{encode_label, hkdf_label, Label};
use crate::level::{level_admits, Endpoint, Level, Version};
use crate::primitive;
use crate::primitive::{hkdf_expand, hkdf_extract, zeroize_bytes};
use crate::GoodSecretPair;

verus! {

/// What a [`TrafficSecret`] holds.
pub struct TrafficSecretView {
    pub suite: CipherSuite,
    pub bytes: Seq<u8>,
}

impl TrafficSecretView {
    /// The secret has the size of the suite's hash.
    pub open spec fn wf(self) -> bool {
        self.bytes.len() == self.suite.spec_secret_len()
    }
}

/// The secret of one direction at one encryption level, tagged with the
/// cipher suite it is for.
pub struct TrafficSecret {
    suite: CipherSuite,
    bytes: Vec<u8>,
}

impl TrafficSecret {
    pub closed spec fn view(&self) -> TrafficSecretView {
        TrafficSecretView { suite: self.suite, bytes: self.bytes@ }
    }

    /// Takes ownership of a secret as the TLS layer delivered it. Its size
    /// is checked when keys are derived from it.
    pub fn new(suite: CipherSuite, bytes: Vec<u8>) -> (secret: TrafficSecret)
        ensures
            secret@ == (TrafficSecretView { suite, bytes: bytes@ }),
    {
        TrafficSecret { suite, bytes }
    }

    /// The suite this secret is for.
    pub fn suite(&self) -> (suite: CipherSuite)
        ensures
            suite == self@.suite,
    {
        self.suite
    }

    /// A second secret object with the same bytes.
    pub fn duplicate(&self) -> (copy: TrafficSecret)
        ensures
            copy@ == self@,
    {
        TrafficSecret { suite: self.suite, bytes: copy_bytes(&self.bytes) }
    }

    /// Overwrites the secret with zeros.
    pub fn zeroize(&mut self)
        ensures
            final(self)@.suite == old(self)@.suite,
            final(self)@.bytes == Seq::new(old(self)@.bytes.len(), |i: int| 0u8),
    {
        zeroize_bytes(&mut self.bytes);
    }
}

impl Drop for TrafficSecret {
    /// Overwrites the secret with zeros before the memory is given back.
    fn drop(&mut self)
        opens_invariants none
        no_unwind
    {
        zeroize_bytes(&mut self.bytes);
    }
}

/// HKDF-Expand-Label with an empty context, under the hash of `suite`.
pub open spec fn expand_label(suite: CipherSuite, secret: Seq<u8>, label: Label, len: nat) -> Seq<
    u8,
> {
    hkdf_expand(suite.spec_hash(), secret, hkdf_label(label.text(), len), len)
}

/// The AEAD key and IV base that belong to a secret.
pub open spec fn derived_key(secret: TrafficSecretView) -> AeadKeyView {
    AeadKeyView {
        suite: secret.suite,
        key: expand_label(secret.suite, secret.bytes, Label::Key, secret.suite.spec_key_len() as nat),
        iv: expand_label(secret.suite, secret.bytes, Label::Iv, NONCE_LEN as nat),
    }
}

/// The header protection key that belongs to a secret.
pub open spec fn derived_header_key(secret: TrafficSecretView) -> HeaderProtectionKeyView {
    HeaderProtectionKeyView {
        suite: secret.suite,
        key: expand_label(
            secret.suite,
            secret.bytes,
            Label::HeaderProtection,
            secret.suite.spec_key_len() as nat,
        ),
    }
}

/// The secret of the key generation that follows.
pub open spec fn updated_secret(secret: TrafficSecretView) -> TrafficSecretView {
    TrafficSecretView {
        suite: secret.suite,
        bytes: expand_label(
            secret.suite,
            secret.bytes,
            Label::KeyUpdate,
            secret.suite.spec_secret_len() as nat,
        ),
    }
}

/// The label under which an endpoint's Initial secret is derived.
pub open spec fn initial_label(endpoint: Endpoint) -> Label {
    match endpoint {
        Endpoint::Client => Label::ClientInitial,
        Endpoint::Server => Label::ServerInitial,
    }
}

/// The Initial secret of an endpoint for a connection ID: extracted from
/// the connection ID under the salt of the version, then expanded under the
/// endpoint's label.
pub open spec fn initial_secret(connection_id: Seq<u8>, version: Version, endpoint: Endpoint) -> TrafficSecretView {
    TrafficSecretView {
        suite: CipherSuite::Aes128GcmSha256,
        bytes: hkdf_expand(
            HashAlgorithm::Sha256,
            hkdf_extract(HashAlgorithm::Sha256, version.initial_salt(), connection_id),
            hkdf_label(initial_label(endpoint).text(), 32),
            32,
        ),
    }
}

/// HKDF-Expand-Label of a secret, which succeeds exactly where the secret
/// has the size of the suite's hash.
fn expand_with_label(secret: &TrafficSecret, label: Label, len: usize) -> (okm: Result<Vec<u8>, Error>)
    requires
        len <= 48,
    ensures
        okm is Ok <==> secret@.wf(),
        okm matches Ok(out) ==> {
            &&& out@ == expand_label(secret@.suite, secret@.bytes, label, len as nat)
            &&& out@.len() == len
        },
        okm matches Err(e) ==> e == Error::InvalidKeyMaterial,
{
    if secret.bytes.len() != secret.suite.secret_len() {
        return Err(Error::InvalidKeyMaterial);
    }
    let text = label.text_bytes();
    let info = encode_label(text.as_slice(), len);
    primitive::expand(secret.suite.hash(), secret.bytes.as_slice(), info.as_slice(), len)
}

/// Derives the AEAD key and IV base of a secret.
///
/// Succeeds exactly where the secret has the size of its suite's hash.
/// Fails with `InvalidKeyMaterial` otherwise.
pub fn derive_packet_key(secret: &TrafficSecret) -> (key: Result<AeadKey, Error>)
    ensures
        key is Ok <==> secret@.wf(),
        key matches Ok(k) ==> k@ == derived_key(secret@) && k@.wf(),
        key matches Err(e) ==> e == Error::InvalidKeyMaterial,
{
    let suite = secret.suite;
    let key = match expand_with_label(secret, Label::Key, suite.key_len()) {
        Ok(bytes) => bytes,
        Err(e) => { return Err(e); },
    };
    let iv = match expand_with_label(secret, Label::Iv, NONCE_LEN) {
        Ok(bytes) => bytes,
        Err(e) => { return Err(e); },
    };
    AeadKey::new(suite, key, iv)
}

/// Derives the header protection key of a secret.
///
/// Succeeds exactly where the secret has the size of its suite's hash.
/// Fails with `InvalidKeyMaterial` otherwise.
pub fn derive_header_key(secret: &TrafficSecret) -> (key: Result<HeaderProtectionKey, Error>)
    ensures
        key is Ok <==> secret@.wf(),
        key matches Ok(k) ==> k@ == derived_header_key(secret@) && k@.wf(),
        key matches Err(e) ==> e == Error::InvalidKeyMaterial,
{
    let suite = secret.suite;
    let key = match expand_with_label(secret, Label::HeaderProtection, suite.key_len()) {
        Ok(bytes) => bytes,
        Err(e) => { return Err(e); },
    };
    HeaderProtectionKey::new(suite, key)
}

/// Derives the keys of one direction at `level` from its traffic secret.
///
/// Fails with `UnsupportedCipherSuite` exactly where the level does not
/// admit the secret's suite, and with `InvalidKeyMaterial` exactly where
/// the level admits the suite and the secret does not have the size of the
/// suite's hash. Succeeds otherwise.
pub fn derive_level_secrets(secret: &TrafficSecret, level: Level) -> (keys: Result<
    (AeadKey, HeaderProtectionKey),
    Error,
>)
    ensures
        !level_admits(level, secret@.suite) <==> (keys matches Err(e) && e
            == Error::UnsupportedCipherSuite),
        level_admits(level, secret@.suite) && !secret@.wf() <==> (keys matches Err(e) && e
            == Error::InvalidKeyMaterial),
        level_admits(level, secret@.suite) && secret@.wf() <==> keys is Ok,
        keys matches Ok((key, header_key)) ==> {
            &&& key@ == derived_key(secret@)
            &&& header_key@ == derived_header_key(secret@)
            &&& key@.wf()
            &&& header_key@.wf()
        },
{
    if !level.admits(secret.suite) {
        return Err(Error::UnsupportedCipherSuite);
    }
    let key = match derive_packet_key(secret) {
        Ok(key) => key,
        Err(e) => { return Err(e); },
    };
    let header_key = match derive_header_key(secret) {
        Ok(key) => key,
        Err(e) => { return Err(e); },
    };
    Ok((key, header_key))
}

/// Derives the Initial secret of one endpoint, which always succeeds.
fn derive_initial_secret(connection_id: &[u8], version: Version, endpoint: Endpoint) -> (secret: Result<
    TrafficSecret,
    Error,
>)
    ensures
        secret matches Ok(s) && s@ == initial_secret(connection_id@, version, endpoint) && s@.wf(),
{
    let salt = version.initial_salt_bytes();
    let label = match endpoint {
        Endpoint::Client => Label::ClientInitial,
        Endpoint::Server => Label::ServerInitial,
    };
    let text = label.text_bytes();
    let info = encode_label(text.as_slice(), 32);
    match primitive::extract_and_expand(
        HashAlgorithm::Sha256,
        salt.as_slice(),
        connection_id,
        info.as_slice(),
        32,
    ) {
        Ok(bytes) => Ok(TrafficSecret::new(CipherSuite::Aes128GcmSha256, bytes)),
        Err(e) => Err(e),
    }
}

/// Derives the Initial secrets of both endpoints from the connection ID
/// that the client chose. Either endpoint can do this from what the first
/// packet shows.
///
/// Succeeds for every connection ID.
pub fn derive_initial_secrets(connection_id: &[u8], version: Version) -> (secrets: Result<
    GoodSecretPair,
    Error,
>)
    ensures
        secrets is Ok,
        secrets matches Ok(pair) ==> {
            &&& pair@.server == initial_secret(connection_id@, version, Endpoint::Server)
            &&& pair@.client == initial_secret(connection_id@, version, Endpoint::Client)
            &&& pair@.server.wf()
            &&& pair@.client.wf()
        },
{
    let client = match derive_initial_secret(connection_id, version, Endpoint::Client) {
        Ok(secret) => secret,
        Err(e) => { return Err(e); },
    };
    let server = match derive_initial_secret(connection_id, version, Endpoint::Server) {
        Ok(secret) => secret,
        Err(e) => { return Err(e); },
    };
    Ok(GoodSecretPair::new(server, client))
}

/// Derives the secret of the next key generation from the current secret.
///
/// Succeeds exactly where the secret has the size of its suite's hash.
/// Fails with `InvalidKeyMaterial` otherwise.
pub fn derive_next_secret(secret: &TrafficSecret) -> (next: Result<TrafficSecret, Error>)
    ensures
        next is Ok <==> secret@.wf(),
        next matches Ok(s) ==> s@ == updated_secret(secret@) && s@.wf(),
        next matches Err(e) ==> e == Error::InvalidKeyMaterial,
{
    let suite = secret.suite;
    match expand_with_label(secret, Label::KeyUpdate, suite.secret_len()) {
        Ok(bytes) => Ok(TrafficSecret::new(suite, bytes)),
        Err(e) => Err(e),
    }
}

/// Two parties that derive Initial secrets from the same connection ID and
/// version hold the same secrets.
pub proof fn lemma_initial_secrets_agree(
    connection_id: Seq<u8>,
    version: Version,
    other_connection_id: Seq<u8>,
    other_version: Version,
    endpoint: Endpoint,
)
    requires
        connection_id == other_connection_id,
        version == other_version,
    ensures
        initial_secret(connection_id, version, endpoint) == initial_secret(
            other_connection_id,
            other_version,
            endpoint,
        ),
{
}

/// The Initial secrets of the two endpoints are expanded from the same
/// extracted key under different `info`.
pub proof fn lemma_initial_labels_differ()
    ensures
        hkdf_label(Label::ClientInitial.text(), 32) != hkdf_label(Label::ServerInitial.text(), 32),
{
    let c = hkdf_label(Label::ClientInitial.text(), 32);
    let s = hkdf_label(Label::ServerInitial.text(), 32);
    assert(c[9] == 0x63u8);
    assert(s[9] == 0x73u8);
}

} // verus!
