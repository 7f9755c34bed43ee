//! The keys of both directions at one encryption level, as one endpoint
//! holds them: one key to seal what it sends, one to open what it receives.

use vstd::prelude::*;
use crate::cipher_suite::TAG_LEN;
use crate::error::Error;
use crate::key::{
    mask_answer, opened_view, packet_open_answer, packet_sealing, AeadKey, AeadKeyView,
    HeaderProtectionKey, HeaderProtectionKeyView,
};
use crate::level::{level_admits, Endpoint, Level};
use crate::primitive::MAX_AEAD_INPUT_LEN;
use crate::secret::{derive_level_secrets, derived_header_key, derived_key};
use crate::{GoodSecretPair, GoodSecretPairView};

verus! {

/// What a [`KeyPair`] holds.
pub struct KeyPairView {
    pub sealer: AeadKeyView,
    pub opener: AeadKeyView,
}

/// What a [`HeaderKeyPair`] holds.
pub struct HeaderKeyPairView {
    pub sealer: HeaderProtectionKeyView,
    pub opener: HeaderProtectionKeyView,
}

/// The packet keys of `endpoint` for a pair of secrets: it seals under its
/// own secret and opens under its peer's.
pub open spec fn key_pair_of(endpoint: Endpoint, secrets: GoodSecretPairView) -> KeyPairView {
    KeyPairView {
        sealer: derived_key(secrets.of(endpoint)),
        opener: derived_key(secrets.of(endpoint.spec_peer())),
    }
}

/// The header keys of `endpoint` for a pair of secrets.
pub open spec fn header_pair_of(endpoint: Endpoint, secrets: GoodSecretPairView) -> HeaderKeyPairView {
    HeaderKeyPairView {
        sealer: derived_header_key(secrets.of(endpoint)),
        opener: derived_header_key(secrets.of(endpoint.spec_peer())),
    }
}

/// Whether a pair of secrets can be used at `level`: both are for one and
/// the same suite, and the level admits it.
pub open spec fn pair_admitted(level: Level, secrets: GoodSecretPairView) -> bool {
    secrets.server.suite == secrets.client.suite && level_admits(level, secrets.server.suite)
}

/// Whether both secrets of a pair have the size of their suite's hash.
pub open spec fn pair_wf(secrets: GoodSecretPairView) -> bool {
    secrets.server.wf() && secrets.client.wf()
}

/// The error with which deriving the keys of `level` from `secrets` fails,
/// if it does: `UnsupportedCipherSuite` where the pair is not admitted,
/// `InvalidKeyMaterial` where it is admitted and a secret has the wrong
/// size.
pub open spec fn derive_failure(level: Level, secrets: GoodSecretPairView) -> Option<Error> {
    if !pair_admitted(level, secrets) {
        Some(Error::UnsupportedCipherSuite)
    } else if !pair_wf(secrets) {
        Some(Error::InvalidKeyMaterial)
    } else {
        None
    }
}

/// What every key that protects the payload of packets offers.
pub trait PacketKey {
    /// The key under which this endpoint seals.
    spec fn sealer(&self) -> AeadKeyView;

    /// The key under which this endpoint opens.
    spec fn opener(&self) -> AeadKeyView;

    /// Protects the payload of a packet: the ciphertext with the tag behind
    /// it.
    ///
    /// Succeeds exactly where the AEAD has a sealing for the packet, which
    /// it has wherever header and payload are within `MAX_AEAD_INPUT_LEN`.
    /// Fails with `InvalidKeyMaterial` otherwise.
    fn seal(&self, packet_number: u64, header: &[u8], payload: &[u8]) -> (protected: Result<
        Vec<u8>,
        Error,
    >)
        ensures
            self.sealer().wf(),
            match packet_sealing(self.sealer(), packet_number, header@, payload@) {
                Some(sealing) => protected matches Ok(bytes) && bytes@ == sealing && bytes@.len()
                    == payload@.len() + TAG_LEN,
                None => protected == Err::<Vec<u8>, Error>(Error::InvalidKeyMaterial),
            },
            header@.len() <= MAX_AEAD_INPUT_LEN && payload@.len() <= MAX_AEAD_INPUT_LEN
                ==> protected is Ok,
    ;

    /// Authenticates the protected payload of a packet under the packet
    /// number that the caller reconstructed, and hands out the payload with
    /// that number.
    ///
    /// Succeeds exactly where `protected` is the sealing of some payload
    /// under the opening key, this number and header. Fails with
    /// `AuthenticationFailure` otherwise.
    fn open(&self, packet_number: u64, header: &[u8], protected: &[u8]) -> (opened: Result<
        (Vec<u8>, u64),
        Error,
    >)
        ensures
            self.opener().wf(),
            packet_open_answer(
                self.opener(),
                packet_number,
                header@,
                protected@,
                opened_view(opened),
            ),
    ;
}

/// What every key that protects the header of packets offers.
pub trait HeaderKey {
    /// The key for the headers that this endpoint sends.
    spec fn sealer(&self) -> HeaderProtectionKeyView;

    /// The key for the headers that this endpoint receives.
    spec fn opener(&self) -> HeaderProtectionKeyView;

    /// Computes the mask for the header of a received packet from a sample
    /// of its ciphertext.
    ///
    /// Succeeds exactly where the sample is sixteen bytes long. Fails with
    /// `AuthenticationFailure` otherwise.
    fn compute_header_protection_mask(&self, sample: &[u8]) -> (mask: Result<[u8; 5], Error>)
        ensures
            mask_answer(self.opener(), sample@, mask),
    ;

    /// Computes the mask for the header of a packet that is to be sent from
    /// a sample of its ciphertext. Succeeds and fails as
    /// `compute_header_protection_mask` does.
    fn compute_sealing_mask(&self, sample: &[u8]) -> (mask: Result<[u8; 5], Error>)
        ensures
            mask_answer(self.sealer(), sample@, mask),
    ;
}

/// The packet keys of one endpoint at one encryption level.
pub struct KeyPair {
    sealer: AeadKey,
    opener: AeadKey,
}

/// The header protection keys of one endpoint at one encryption level.
pub struct HeaderKeyPair {
    sealer: HeaderProtectionKey,
    opener: HeaderProtectionKey,
}

impl KeyPair {
    pub closed spec fn view(&self) -> KeyPairView {
        KeyPairView { sealer: self.sealer@, opener: self.opener@ }
    }

    /// Puts a sealing key and an opening key together.
    pub fn new(sealer: AeadKey, opener: AeadKey) -> (pair: KeyPair)
        ensures
            pair@.sealer == sealer@,
            pair@.opener == opener@,
    {
        KeyPair { sealer, opener }
    }

    /// Derives the keys of `endpoint` at `level` from the secrets of the two
    /// directions.
    ///
    /// Fails with `UnsupportedCipherSuite` exactly where the two secrets
    /// are for different suites or the level does not admit their suite,
    /// and with `InvalidKeyMaterial` exactly where that is in order and a
    /// secret does not have the size of its suite's hash. Succeeds
    /// otherwise.
    pub fn derive(endpoint: Endpoint, secrets: &GoodSecretPair, level: Level) -> (keys: Result<
        (KeyPair, HeaderKeyPair),
        Error,
    >)
        ensures
            match derive_failure(level, secrets@) {
                Some(error) => keys matches Err(e) && e == error,
                None => keys is Ok,
            },
            keys matches Ok((pair, header_pair)) ==> {
                &&& pair@ == key_pair_of(endpoint, secrets@)
                &&& header_pair@ == header_pair_of(endpoint, secrets@)
            },
    {
        let own = secrets.secret_of(endpoint);
        let other = secrets.secret_of(endpoint.peer());
        if own.suite() != other.suite() {
            return Err(Error::UnsupportedCipherSuite);
        }
        let (sealer, header_sealer) = match derive_level_secrets(own, level) {
            Ok(keys) => keys,
            Err(e) => { return Err(e); },
        };
        let (opener, header_opener) = match derive_level_secrets(other, level) {
            Ok(keys) => keys,
            Err(e) => { return Err(e); },
        };
        Ok(
            (
                KeyPair { sealer, opener },
                HeaderKeyPair { sealer: header_sealer, opener: header_opener },
            ),
        )
    }

    /// The key under which this endpoint opens.
    pub fn opener(&self) -> (key: &AeadKey)
        ensures
            key@ == self@.opener,
    {
        &self.opener
    }

    /// Overwrites both keys with zeros.
    pub fn zeroize(&mut self)
        ensures
            final(self)@.sealer.suite == old(self)@.sealer.suite,
            final(self)@.opener.suite == old(self)@.opener.suite,
            final(self)@.sealer.key == Seq::new(old(self)@.sealer.key.len(), |i: int| 0u8),
            final(self)@.sealer.iv == Seq::new(old(self)@.sealer.iv.len(), |i: int| 0u8),
            final(self)@.opener.key == Seq::new(old(self)@.opener.key.len(), |i: int| 0u8),
            final(self)@.opener.iv == Seq::new(old(self)@.opener.iv.len(), |i: int| 0u8),
    {
        self.sealer.zeroize();
        self.opener.zeroize();
    }
}

impl PacketKey for KeyPair {
    open spec fn sealer(&self) -> AeadKeyView {
        self@.sealer
    }

    open spec fn opener(&self) -> AeadKeyView {
        self@.opener
    }

    fn seal(&self, packet_number: u64, header: &[u8], payload: &[u8]) -> (protected: Result<
        Vec<u8>,
        Error,
    >) {
        self.sealer.seal(packet_number, header, payload)
    }

    fn open(&self, packet_number: u64, header: &[u8], protected: &[u8]) -> (opened: Result<
        (Vec<u8>, u64),
        Error,
    >) {
        self.opener.open(packet_number, header, protected)
    }
}

impl HeaderKeyPair {
    pub closed spec fn view(&self) -> HeaderKeyPairView {
        HeaderKeyPairView { sealer: self.sealer@, opener: self.opener@ }
    }

    /// Puts a sealing key and an opening key together.
    pub fn new(sealer: HeaderProtectionKey, opener: HeaderProtectionKey) -> (pair: HeaderKeyPair)
        ensures
            pair@.sealer == sealer@,
            pair@.opener == opener@,
    {
        HeaderKeyPair { sealer, opener }
    }

    /// Overwrites both keys with zeros.
    pub fn zeroize(&mut self)
        ensures
            final(self)@.sealer.suite == old(self)@.sealer.suite,
            final(self)@.opener.suite == old(self)@.opener.suite,
            final(self)@.sealer.key == Seq::new(old(self)@.sealer.key.len(), |i: int| 0u8),
            final(self)@.opener.key == Seq::new(old(self)@.opener.key.len(), |i: int| 0u8),
    {
        self.sealer.zeroize();
        self.opener.zeroize();
    }
}

impl HeaderKey for HeaderKeyPair {
    open spec fn sealer(&self) -> HeaderProtectionKeyView {
        self@.sealer
    }

    open spec fn opener(&self) -> HeaderProtectionKeyView {
        self@.opener
    }

    fn compute_header_protection_mask(&self, sample: &[u8]) -> (mask: Result<[u8; 5], Error>) {
        self.opener.compute_header_protection_mask(sample)
    }

    fn compute_sealing_mask(&self, sample: &[u8]) -> (mask: Result<[u8; 5], Error>) {
        self.sealer.compute_header_protection_mask(sample)
    }
}

/// What one endpoint seals, its peer opens, and the other way round: the
/// sealing key of either is the opening key of the other, for packets and
/// for headers.
pub proof fn lemma_peers_hold_matching_keys(endpoint: Endpoint, secrets: GoodSecretPairView)
    ensures
        key_pair_of(endpoint, secrets).sealer == key_pair_of(endpoint.spec_peer(), secrets).opener,
        key_pair_of(endpoint, secrets).opener == key_pair_of(endpoint.spec_peer(), secrets).sealer,
        header_pair_of(endpoint, secrets).sealer == header_pair_of(
            endpoint.spec_peer(),
            secrets,
        ).opener,
        header_pair_of(endpoint, secrets).opener == header_pair_of(
            endpoint.spec_peer(),
            secrets,
        ).sealer,
{
}

} // verus!
