//! The contexts in which packets are protected, the two ends of a
//! connection, and the protocol versions with their constants.

use vstd::prelude::*;
use crate::cipher_suite::CipherSuite;

verus! {

/// The five contexts that have keys of their own.
#[derive(Clone, Copy, Debug, PartialEq, Eq, Structural)]
pub enum Level {
    Initial,
    Handshake,
    ZeroRtt,
    OneRtt,
    Retry,
}

/// Whether keys of `suite` are derived from a secret at `level`. Initial
/// keys are always AES-128-GCM with SHA-256, whatever is negotiated later;
/// Retry keys are constants and are never derived.
pub open spec fn level_admits(level: Level, suite: CipherSuite) -> bool {
    match level {
        Level::Initial => suite == CipherSuite::Aes128GcmSha256,
        Level::Handshake => true,
        Level::ZeroRtt => true,
        Level::OneRtt => true,
        Level::Retry => false,
    }
}

impl Level {
    /// Whether keys of `suite` are derived from a secret at this level.
    pub fn admits(self, suite: CipherSuite) -> (admitted: bool)
        ensures
            admitted == level_admits(self, suite),
    {
        match self {
            Level::Initial => suite == CipherSuite::Aes128GcmSha256,
            Level::Handshake => true,
            Level::ZeroRtt => true,
            Level::OneRtt => true,
            Level::Retry => false,
        }
    }
}

/// One end of a connection.
#[derive(Clone, Copy, Debug, PartialEq, Eq, Structural)]
pub enum Endpoint {
    Client,
    Server,
}

impl Endpoint {
    pub open spec fn spec_peer(self) -> Endpoint {
        match self {
            Endpoint::Client => Endpoint::Server,
            Endpoint::Server => Endpoint::Client,
        }
    }

    /// The other end.
    #[verifier::when_used_as_spec(spec_peer)]
    pub fn peer(self) -> (other: Endpoint)
        ensures
            other == self.spec_peer(),
            other != self,
            other.spec_peer() == self,
    {
        match self {
            Endpoint::Client => Endpoint::Server,
            Endpoint::Server => Endpoint::Client,
        }
    }
}

/// The protocol versions whose constants are known here.
#[derive(Clone, Copy, Debug, PartialEq, Eq, Structural)]
pub enum Version {
    /// QUIC version 1.
    V1,
}

impl Version {
    pub open spec fn spec_wire(self) -> u32 {
        match self {
            Version::V1 => 1,
        }
    }

    /// The version as it stands in a long header.
    #[verifier::when_used_as_spec(spec_wire)]
    pub fn wire(self) -> (value: u32)
        ensures
            value == self.spec_wire(),
    {
        match self {
            Version::V1 => 1,
        }
    }

    /// The version that a long header's version field names, if it is a
    /// known one.
    pub fn from_wire(value: u32) -> (version: Option<Version>)
        ensures
            version matches Some(v) ==> v.spec_wire() == value,
            version is None ==> forall|v: Version| v.spec_wire() != value,
    {
        if value == 1 {
            Some(Version::V1)
        } else {
            None
        }
    }

    /// The salt from which Initial secrets are extracted.
    pub open spec fn initial_salt(self) -> Seq<u8> {
        match self {
            Version::V1 => seq![
                0x38u8, 0x76, 0x2c, 0xf7, 0xf5, 0x59, 0x34, 0xb3, 0x4d, 0x17,
                0x9a, 0xe6, 0xa4, 0xc8, 0x0c, 0xad, 0xcc, 0xbb, 0x7f, 0x0a,
            ],
        }
    }

    /// The salt from which Initial secrets are extracted.
    pub fn initial_salt_bytes(self) -> (salt: Vec<u8>)
        ensures
            salt@ == self.initial_salt(),
    {
        match self {
            Version::V1 => vec![
                0x38u8, 0x76, 0x2c, 0xf7, 0xf5, 0x59, 0x34, 0xb3, 0x4d, 0x17,
                0x9a, 0xe6, 0xa4, 0xc8, 0x0c, 0xad, 0xcc, 0xbb, 0x7f, 0x0a,
            ],
        }
    }

    /// The key of the Retry integrity tag.
    pub open spec fn retry_key(self) -> Seq<u8> {
        match self {
            Version::V1 => seq![
                0xbeu8, 0x0c, 0x69, 0x0b, 0x9f, 0x66, 0x57, 0x5a,
                0x1d, 0x76, 0x6b, 0x54, 0xe3, 0x68, 0xc8, 0x4e,
            ],
        }
    }

    /// The key of the Retry integrity tag.
    pub fn retry_key_bytes(self) -> (key: Vec<u8>)
        ensures
            key@ == self.retry_key(),
            key@.len() == 16,
    {
        match self {
            Version::V1 => vec![
                0xbeu8, 0x0c, 0x69, 0x0b, 0x9f, 0x66, 0x57, 0x5a,
                0x1d, 0x76, 0x6b, 0x54, 0xe3, 0x68, 0xc8, 0x4e,
            ],
        }
    }

    /// The nonce of the Retry integrity tag.
    pub open spec fn retry_nonce(self) -> Seq<u8> {
        match self {
            Version::V1 => seq![
                0x46u8, 0x15, 0x99, 0xd3, 0x5d, 0x63, 0x2b, 0xf2, 0x23, 0x98, 0x25, 0xbb,
            ],
        }
    }

    /// The nonce of the Retry integrity tag.
    pub fn retry_nonce_bytes(self) -> (nonce: Vec<u8>)
        ensures
            nonce@ == self.retry_nonce(),
            nonce@.len() == 12,
    {
        match self {
            Version::V1 => vec![
                0x46u8, 0x15, 0x99, 0xd3, 0x5d, 0x63, 0x2b, 0xf2, 0x23, 0x98, 0x25, 0xbb,
            ],
        }
    }
}

} // verus!
