//! Initial keys: derived from the connection ID that the client chose, so
//! that either endpoint has them before any handshake message is read.

use vstd::prelude::*;
use crate::error::Error;
use crate::key::{AeadKeyView, HeaderProtectionKeyView};
use crate::level::{Endpoint, Level, Version};
use crate::pair::{
    header_pair_of, key_pair_of, HeaderKey, HeaderKeyPair, HeaderKeyPairView, KeyPair, KeyPairView,
    PacketKey,
};
use crate::secret::{derive_initial_secrets, initial_secret};
use crate::GoodSecretPairView;

verus! {

/// The Initial secrets of both endpoints for a connection ID.
pub open spec fn initial_secrets(connection_id: Seq<u8>, version: Version) -> GoodSecretPairView {
    GoodSecretPairView {
        server: initial_secret(connection_id, version, Endpoint::Server),
        client: initial_secret(connection_id, version, Endpoint::Client),
    }
}

/// The packet keys at the Initial level.
pub struct InitialKey {
    keys: KeyPair,
}

/// The header protection keys at the Initial level.
pub struct InitialHeaderKey {
    keys: HeaderKeyPair,
}

impl InitialKey {
    pub closed spec fn view(&self) -> KeyPairView {
        self.keys@
    }

    /// Derives the Initial keys of `endpoint`.
    ///
    /// Succeeds for every connection ID.
    pub fn new(endpoint: Endpoint, connection_id: &[u8], version: Version) -> (keys: Result<
        (InitialKey, InitialHeaderKey),
        Error,
    >)
        ensures
            keys is Ok,
            keys matches Ok((key, header_key)) ==> {
                &&& key@ == key_pair_of(endpoint, initial_secrets(connection_id@, version))
                &&& header_key@ == header_pair_of(endpoint, initial_secrets(connection_id@, version))
            },
    {
        let secrets = match derive_initial_secrets(connection_id, version) {
            Ok(secrets) => secrets,
            Err(e) => { return Err(e); },
        };
        match KeyPair::derive(endpoint, &secrets, Level::Initial) {
            Ok((keys, header_keys)) => Ok((InitialKey { keys }, InitialHeaderKey { keys: header_keys })),
            Err(e) => Err(e),
        }
    }

    /// Derives the Initial keys of the server.
    ///
    /// Succeeds for every connection ID.
    pub fn new_server(connection_id: &[u8], version: Version) -> (keys: Result<
        (InitialKey, InitialHeaderKey),
        Error,
    >)
        ensures
            keys is Ok,
            keys matches Ok((key, header_key)) ==> {
                &&& key@ == key_pair_of(Endpoint::Server, initial_secrets(connection_id@, version))
                &&& header_key@ == header_pair_of(
                    Endpoint::Server,
                    initial_secrets(connection_id@, version),
                )
            },
    {
        InitialKey::new(Endpoint::Server, connection_id, version)
    }

    /// Derives the Initial keys of the client.
    ///
    /// Succeeds for every connection ID.
    pub fn new_client(connection_id: &[u8], version: Version) -> (keys: Result<
        (InitialKey, InitialHeaderKey),
        Error,
    >)
        ensures
            keys is Ok,
            keys matches Ok((key, header_key)) ==> {
                &&& key@ == key_pair_of(Endpoint::Client, initial_secrets(connection_id@, version))
                &&& header_key@ == header_pair_of(
                    Endpoint::Client,
                    initial_secrets(connection_id@, version),
                )
            },
    {
        InitialKey::new(Endpoint::Client, connection_id, version)
    }

    /// Overwrites the keys with zeros, once Handshake keys are in use.
    pub fn zeroize(&mut self)
        ensures
            final(self)@.sealer.key == Seq::new(old(self)@.sealer.key.len(), |i: int| 0u8),
            final(self)@.sealer.iv == Seq::new(old(self)@.sealer.iv.len(), |i: int| 0u8),
            final(self)@.opener.key == Seq::new(old(self)@.opener.key.len(), |i: int| 0u8),
            final(self)@.opener.iv == Seq::new(old(self)@.opener.iv.len(), |i: int| 0u8),
    {
        self.keys.zeroize();
    }
}

impl PacketKey for InitialKey {
    open spec fn sealer(&self) -> AeadKeyView {
        self@.sealer
    }

    open spec fn opener(&self) -> AeadKeyView {
        self@.opener
    }

    fn seal(&self, packet_number: u64, header: &[u8], payload: &[u8]) -> (protected: Result<
        Vec<u8>,
        Error,
    >) {
        self.keys.seal(packet_number, header, payload)
    }

    fn open(&self, packet_number: u64, header: &[u8], protected: &[u8]) -> (opened: Result<
        (Vec<u8>, u64),
        Error,
    >) {
        self.keys.open(packet_number, header, protected)
    }
}

impl InitialHeaderKey {
    pub closed spec fn view(&self) -> HeaderKeyPairView {
        self.keys@
    }

    /// Overwrites the keys with zeros, once Handshake keys are in use.
    pub fn zeroize(&mut self)
        ensures
            final(self)@.sealer.key == Seq::new(old(self)@.sealer.key.len(), |i: int| 0u8),
            final(self)@.opener.key == Seq::new(old(self)@.opener.key.len(), |i: int| 0u8),
    {
        self.keys.zeroize();
    }
}

impl HeaderKey for InitialHeaderKey {
    open spec fn sealer(&self) -> HeaderProtectionKeyView {
        self@.sealer
    }

    open spec fn opener(&self) -> HeaderProtectionKeyView {
        self@.opener
    }

    fn compute_header_protection_mask(&self, sample: &[u8]) -> (mask: Result<[u8; 5], Error>) {
        self.keys.compute_header_protection_mask(sample)
    }

    fn compute_sealing_mask(&self, sample: &[u8]) -> (mask: Result<[u8; 5], Error>) {
        self.keys.compute_sealing_mask(sample)
    }
}

} // verus!
