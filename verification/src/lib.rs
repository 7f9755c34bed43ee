//! Key management for QUIC packet protection.
//!
//! The crate derives, holds, rotates and applies the symmetric keys that
//! protect packets at the encryption levels of QUIC. The cryptographic
//! primitives themselves come from aws-lc-rs and are reached in one module
//! only, [`primitive`]. Everything else is verified against contracts that
//! speak of the primitives by name:
//!
//! - [`cipher_suite`]: the negotiated algorithms and what they fix;
//! - [`label`], [`nonce`], [`header`]: the encodings of the key schedule,
//!   the nonce of a packet, and header protection;
//! - [`secret`], [`key`], [`pair`]: traffic secrets, the keys derived from
//!   them, and the keys of both directions as one endpoint holds them;
//! - [`initial`], [`handshake`], [`zero_rtt`], [`one_rtt`], [`retry`]: the
//!   key types of the five contexts.
//!
//! Keys and secrets are overwritten with zeros when they are dropped, and
//! none of them can be copied except by an explicit call.

use vstd::prelude::*;

pub mod cipher_suite;
pub mod error;
pub mod handshake;
pub mod header;
pub mod initial;
pub mod key;
pub mod label;
pub mod level;
pub mod nonce;
pub mod one_rtt;
pub mod pair;
pub mod primitive;
pub mod retry;
pub mod secret;
pub mod zero_rtt;

use crate::level::Endpoint;
use crate::pair::{HeaderKey, PacketKey};
use crate::secret::{TrafficSecret, TrafficSecretView};

verus! {

/// What a [`GoodSecretPair`] holds.
pub struct GoodSecretPairView {
    pub server: TrafficSecretView,
    pub client: TrafficSecretView,
}

impl GoodSecretPairView {
    /// The secret under which `endpoint` sends.
    pub open spec fn of(self, endpoint: Endpoint) -> TrafficSecretView {
        match endpoint {
            Endpoint::Client => self.client,
            Endpoint::Server => self.server,
        }
    }
}

/// The traffic secrets of the two directions at one encryption level.
pub struct GoodSecretPair {
    good_server: TrafficSecret,
    good_client: TrafficSecret,
}

impl GoodSecretPair {
    pub closed spec fn view(&self) -> GoodSecretPairView {
        GoodSecretPairView { server: self.good_server@, client: self.good_client@ }
    }

    /// Groups the secret under which the server sends with the secret under
    /// which the client sends.
    pub fn new(good_server: TrafficSecret, good_client: TrafficSecret) -> (pair: Self)
        ensures
            pair@.server == good_server@,
            pair@.client == good_client@,
    {
        GoodSecretPair { good_server, good_client }
    }

    /// The secret under which `endpoint` sends.
    pub fn secret_of(&self, endpoint: Endpoint) -> (secret: &TrafficSecret)
        ensures
            secret@ == self@.of(endpoint),
    {
        match endpoint {
            Endpoint::Client => &self.good_client,
            Endpoint::Server => &self.good_server,
        }
    }

    /// Overwrites both secrets with zeros.
    pub fn zeroize(&mut self)
        ensures
            final(self)@.server.suite == old(self)@.server.suite,
            final(self)@.client.suite == old(self)@.client.suite,
            final(self)@.server.bytes == Seq::new(old(self)@.server.bytes.len(), |i: int| 0u8),
            final(self)@.client.bytes == Seq::new(old(self)@.client.bytes.len(), |i: int| 0u8),
    {
        self.good_server.zeroize();
        self.good_client.zeroize();
    }
}

/// A complete set of key types: one type for each key role of the
/// protocol, each with the capabilities of its role.
pub trait CryptoSuite {
    type HandshakeKey: PacketKey;

    type HandshakeHeaderKey: HeaderKey;

    type InitialKey: PacketKey;

    type InitialHeaderKey: HeaderKey;

    type OneRttKey: PacketKey;

    type OneRttHeaderKey: HeaderKey;

    type ZeroRttKey: PacketKey;

    type ZeroRttHeaderKey: HeaderKey;

    type RetryKey;
}

/// Names the one set of key types that a transport stack is generic over.
#[derive(Clone, Copy, Debug)]
pub struct Suite;

impl CryptoSuite for Suite {
    type HandshakeKey = handshake::HandshakeKey;

    type HandshakeHeaderKey = handshake::HandshakeHeaderKey;

    type InitialKey = initial::InitialKey;

    type InitialHeaderKey = initial::InitialHeaderKey;

    type OneRttKey = one_rtt::OneRttKey;

    type OneRttHeaderKey = one_rtt::OneRttHeaderKey;

    type ZeroRttKey = zero_rtt::ZeroRttKey;

    type ZeroRttHeaderKey = zero_rtt::ZeroRttHeaderKey;

    type RetryKey = retry::RetryKey;
}

impl Default for Suite {
    fn default() -> (suite: Self)
        ensures
            suite == Suite,
    {
        Suite
    }
}

} // verus!
