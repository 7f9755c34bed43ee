//! Handshake keys: derived from the handshake traffic secrets once the TLS
//! layer has them.

use vstd::prelude::*;
use crate::error::Error;
use crate::key::{AeadKeyView, HeaderProtectionKeyView};
use crate::level::{Endpoint, Level};
use crate::pair::{
    derive_failure, header_pair_of, key_pair_of, HeaderKey, HeaderKeyPair, HeaderKeyPairView,
    KeyPair, KeyPairView, PacketKey,
};
use crate::GoodSecretPair;

verus! {

/// The packet keys at the Handshake level.
pub struct HandshakeKey {
    keys: KeyPair,
}

/// The header protection keys at the Handshake level.
pub struct HandshakeHeaderKey {
    keys: HeaderKeyPair,
}

impl HandshakeKey {
    pub closed spec fn view(&self) -> KeyPairView {
        self.keys@
    }

    /// Derives the Handshake keys of `endpoint` from the handshake traffic
    /// secrets.
    ///
    /// Fails with `UnsupportedCipherSuite` exactly where the two secrets
    /// are for different suites, and with `InvalidKeyMaterial` exactly where
    /// they are for one suite and one of them does not have the size of its
    /// hash. Succeeds otherwise.
    pub fn new(endpoint: Endpoint, secrets: &GoodSecretPair) -> (keys: Result<
        (HandshakeKey, HandshakeHeaderKey),
        Error,
    >)
        ensures
            match derive_failure(Level::Handshake, secrets@) {
                Some(error) => keys matches Err(e) && e == error,
                None => keys is Ok,
            },
            keys matches Ok((key, header_key)) ==> {
                &&& key@ == key_pair_of(endpoint, secrets@)
                &&& header_key@ == header_pair_of(endpoint, secrets@)
            },
    {
        match KeyPair::derive(endpoint, secrets, Level::Handshake) {
            Ok((keys, header_keys)) => Ok(
                (HandshakeKey { keys }, HandshakeHeaderKey { keys: header_keys }),
            ),
            Err(e) => Err(e),
        }
    }

    /// Derives the Handshake keys of the server. Succeeds and fails as
    /// `new` does.
    pub fn new_server(secrets: &GoodSecretPair) -> (keys: Result<
        (HandshakeKey, HandshakeHeaderKey),
        Error,
    >)
        ensures
            match derive_failure(Level::Handshake, secrets@) {
                Some(error) => keys matches Err(e) && e == error,
                None => keys is Ok,
            },
            keys matches Ok((key, header_key)) ==> {
                &&& key@ == key_pair_of(Endpoint::Server, secrets@)
                &&& header_key@ == header_pair_of(Endpoint::Server, secrets@)
            },
    {
        HandshakeKey::new(Endpoint::Server, secrets)
    }

    /// Derives the Handshake keys of the client. Succeeds and fails as
    /// `new` does.
    pub fn new_client(secrets: &GoodSecretPair) -> (keys: Result<
        (HandshakeKey, HandshakeHeaderKey),
        Error,
    >)
        ensures
            match derive_failure(Level::Handshake, secrets@) {
                Some(error) => keys matches Err(e) && e == error,
                None => keys is Ok,
            },
            keys matches Ok((key, header_key)) ==> {
                &&& key@ == key_pair_of(Endpoint::Client, secrets@)
                &&& header_key@ == header_pair_of(Endpoint::Client, secrets@)
            },
    {
        HandshakeKey::new(Endpoint::Client, secrets)
    }

    /// Overwrites the keys with zeros, once the handshake is confirmed.
    pub fn zeroize(&mut self)
        ensures
            final(self)@.sealer.key == Seq::new(old(self)@.sealer.key.len(), |i: int| 0u8),
            final(self)@.sealer.iv == Seq::new(old(self)@.sealer.iv.len(), |i: int| 0u8),
            final(self)@.opener.key == Seq::new(old(self)@.opener.key.len(), |i: int| 0u8),
            final(self)@.opener.iv == Seq::new(old(self)@.opener.iv.len(), |i: int| 0u8),
    {
        self.keys.zeroize();
    }
}

impl PacketKey for HandshakeKey {
    open spec fn sealer(&self) -> AeadKeyView {
        self@.sealer
    }

    open spec fn opener(&self) -> AeadKeyView {
        self@.opener
    }

    fn seal(&self, packet_number: u64, header: &[u8], payload: &[u8]) -> (protected: Result<
        Vec<u8>,
        Error,
    >) {
        self.keys.seal(packet_number, header, payload)
    }

    fn open(&self, packet_number: u64, header: &[u8], protected: &[u8]) -> (opened: Result<
        (Vec<u8>, u64),
        Error,
    >) {
        self.keys.open(packet_number, header, protected)
    }
}

impl HandshakeHeaderKey {
    pub closed spec fn view(&self) -> HeaderKeyPairView {
        self.keys@
    }

    /// Overwrites the keys with zeros, once the handshake is confirmed.
    pub fn zeroize(&mut self)
        ensures
            final(self)@.sealer.key == Seq::new(old(self)@.sealer.key.len(), |i: int| 0u8),
            final(self)@.opener.key == Seq::new(old(self)@.opener.key.len(), |i: int| 0u8),
    {
        self.keys.zeroize();
    }
}

impl HeaderKey for HandshakeHeaderKey {
    open spec fn sealer(&self) -> HeaderProtectionKeyView {
        self@.sealer
    }

    open spec fn opener(&self) -> HeaderProtectionKeyView {
        self@.opener
    }

    fn compute_header_protection_mask(&self, sample: &[u8]) -> (mask: Result<[u8; 5], Error>) {
        self.keys.compute_header_protection_mask(sample)
    }

    fn compute_sealing_mask(&self, sample: &[u8]) -> (mask: Result<[u8; 5], Error>) {
        self.keys.compute_sealing_mask(sample)
    }
}

} // verus!
