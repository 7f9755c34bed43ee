//! The negotiated algorithms and what each of them fixes for a connection.

use vstd::prelude::*;
use crate::error::Error;

verus! {

/// Bytes in a nonce and in the IV base it is made from, for every suite.
pub const NONCE_LEN: usize = 12;

/// Bytes in an authentication tag, for every suite.
pub const TAG_LEN: usize = 16;

/// Bytes of ciphertext sampled for header protection, for every suite.
pub const SAMPLE_LEN: usize = 16;

/// Bytes in a header protection mask.
pub const MASK_LEN: usize = 5;

/// The hash function under a suite's key schedule.
#[derive(Clone, Copy, Debug, PartialEq, Eq, Structural)]
pub enum HashAlgorithm {
    Sha256,
    Sha384,
}

impl HashAlgorithm {
    pub open spec fn spec_output_len(self) -> usize {
        match self {
            HashAlgorithm::Sha256 => 32,
            HashAlgorithm::Sha384 => 48,
        }
    }

    /// Bytes in a digest, which is also the size of a traffic secret.
    #[verifier::when_used_as_spec(spec_output_len)]
    pub fn output_len(self) -> (len: usize)
        ensures
            len == self.spec_output_len(),
    {
        match self {
            HashAlgorithm::Sha256 => 32,
            HashAlgorithm::Sha384 => 48,
        }
    }
}

/// An AEAD algorithm with its hash, as TLS 1.3 negotiates them.
#[derive(Clone, Copy, Debug, PartialEq, Eq, Structural)]
pub enum CipherSuite {
    Aes128GcmSha256,
    Aes256GcmSha384,
    Chacha20Poly1305Sha256,
}

/// The suite that a TLS cipher suite identifier stands for, if it is one of
/// the supported three.
pub open spec fn resolved(tls_cipher_id: u16) -> Option<CipherSuite> {
    if tls_cipher_id == 0x1301 {
        Some(CipherSuite::Aes128GcmSha256)
    } else if tls_cipher_id == 0x1302 {
        Some(CipherSuite::Aes256GcmSha384)
    } else if tls_cipher_id == 0x1303 {
        Some(CipherSuite::Chacha20Poly1305Sha256)
    } else {
        None
    }
}

/// Maps a negotiated TLS cipher suite identifier to its suite.
pub fn resolve(tls_cipher_id: u16) -> (suite: Result<CipherSuite, Error>)
    ensures
        suite == match resolved(tls_cipher_id) {
            Some(s) => Ok::<CipherSuite, Error>(s),
            None => Err(Error::UnsupportedCipherSuite),
        },
{
    if tls_cipher_id == 0x1301 {
        Ok(CipherSuite::Aes128GcmSha256)
    } else if tls_cipher_id == 0x1302 {
        Ok(CipherSuite::Aes256GcmSha384)
    } else if tls_cipher_id == 0x1303 {
        Ok(CipherSuite::Chacha20Poly1305Sha256)
    } else {
        Err(Error::UnsupportedCipherSuite)
    }
}

impl CipherSuite {
    pub open spec fn spec_tls_id(self) -> u16 {
        match self {
            CipherSuite::Aes128GcmSha256 => 0x1301,
            CipherSuite::Aes256GcmSha384 => 0x1302,
            CipherSuite::Chacha20Poly1305Sha256 => 0x1303,
        }
    }

    /// The identifier that TLS 1.3 gives this suite.
    #[verifier::when_used_as_spec(spec_tls_id)]
    pub fn tls_id(self) -> (id: u16)
        ensures
            id == self.spec_tls_id(),
            resolved(id) == Some(self),
    {
        match self {
            CipherSuite::Aes128GcmSha256 => 0x1301,
            CipherSuite::Aes256GcmSha384 => 0x1302,
            CipherSuite::Chacha20Poly1305Sha256 => 0x1303,
        }
    }

    pub open spec fn spec_key_len(self) -> usize {
        match self {
            CipherSuite::Aes128GcmSha256 => 16,
            CipherSuite::Aes256GcmSha384 => 32,
            CipherSuite::Chacha20Poly1305Sha256 => 32,
        }
    }

    /// Bytes in an AEAD key, and in a header protection key, of this suite.
    #[verifier::when_used_as_spec(spec_key_len)]
    pub fn key_len(self) -> (len: usize)
        ensures
            len == self.spec_key_len(),
    {
        match self {
            CipherSuite::Aes128GcmSha256 => 16,
            CipherSuite::Aes256GcmSha384 => 32,
            CipherSuite::Chacha20Poly1305Sha256 => 32,
        }
    }

    /// Bytes in the IV base.
    pub fn iv_len(self) -> (len: usize)
        ensures
            len == NONCE_LEN,
    {
        NONCE_LEN
    }

    /// Bytes that sealing adds to a payload.
    pub fn tag_len(self) -> (len: usize)
        ensures
            len == TAG_LEN,
    {
        TAG_LEN
    }

    pub open spec fn spec_hash(self) -> HashAlgorithm {
        match self {
            CipherSuite::Aes128GcmSha256 => HashAlgorithm::Sha256,
            CipherSuite::Aes256GcmSha384 => HashAlgorithm::Sha384,
            CipherSuite::Chacha20Poly1305Sha256 => HashAlgorithm::Sha256,
        }
    }

    /// The hash function of this suite's key schedule.
    #[verifier::when_used_as_spec(spec_hash)]
    pub fn hash(self) -> (hash: HashAlgorithm)
        ensures
            hash == self.spec_hash(),
    {
        match self {
            CipherSuite::Aes128GcmSha256 => HashAlgorithm::Sha256,
            CipherSuite::Aes256GcmSha384 => HashAlgorithm::Sha384,
            CipherSuite::Chacha20Poly1305Sha256 => HashAlgorithm::Sha256,
        }
    }

    pub open spec fn spec_secret_len(self) -> usize {
        self.spec_hash().spec_output_len()
    }

    /// Bytes in a traffic secret of this suite.
    #[verifier::when_used_as_spec(spec_secret_len)]
    pub fn secret_len(self) -> (len: usize)
        ensures
            len == self.spec_secret_len(),
    {
        self.hash().output_len()
    }

    pub open spec fn spec_confidentiality_limit(self) -> u64 {
        match self {
            CipherSuite::Aes128GcmSha256 => 0x80_0000,
            CipherSuite::Aes256GcmSha384 => 0x80_0000,
            CipherSuite::Chacha20Poly1305Sha256 => 0x4000_0000_0000_0000,
        }
    }

    /// How many packets one key may seal: 2^23 with AES-GCM, and with
    /// ChaCha20-Poly1305 as many as there are packet numbers, 2^62.
    #[verifier::when_used_as_spec(spec_confidentiality_limit)]
    pub fn confidentiality_limit(self) -> (limit: u64)
        ensures
            limit == self.spec_confidentiality_limit(),
    {
        match self {
            CipherSuite::Aes128GcmSha256 => 0x80_0000,
            CipherSuite::Aes256GcmSha384 => 0x80_0000,
            CipherSuite::Chacha20Poly1305Sha256 => 0x4000_0000_0000_0000,
        }
    }

    pub open spec fn spec_integrity_limit(self) -> u64 {
        match self {
            CipherSuite::Aes128GcmSha256 => 0x10_0000_0000_0000,
            CipherSuite::Aes256GcmSha384 => 0x10_0000_0000_0000,
            CipherSuite::Chacha20Poly1305Sha256 => 0x10_0000_0000,
        }
    }

    /// How many packets may fail authentication under one key: 2^52 with
    /// AES-GCM, 2^36 with ChaCha20-Poly1305.
    #[verifier::when_used_as_spec(spec_integrity_limit)]
    pub fn integrity_limit(self) -> (limit: u64)
        ensures
            limit == self.spec_integrity_limit(),
    {
        match self {
            CipherSuite::Aes128GcmSha256 => 0x10_0000_0000_0000,
            CipherSuite::Aes256GcmSha384 => 0x10_0000_0000_0000,
            CipherSuite::Chacha20Poly1305Sha256 => 0x10_0000_0000,
        }
    }
}

/// Every supported suite is found again from its own identifier, and only
/// from that one.
pub proof fn lemma_resolve_inverts_tls_id(suite: CipherSuite, tls_cipher_id: u16)
    ensures
        resolved(suite.spec_tls_id()) == Some(suite),
        resolved(tls_cipher_id) == Some(suite) ==> tls_cipher_id == suite.spec_tls_id(),
{
}

/// The one cipher suite of a connection. It is settled by the first
/// identifier that resolves and cannot change afterwards.
pub struct Negotiation {
    settled: Option<CipherSuite>,
}

impl Negotiation {
    /// The suite this connection is bound to, once one was negotiated.
    pub closed spec fn view(&self) -> Option<CipherSuite> {
        self.settled
    }

    /// A connection for which nothing was negotiated yet.
    pub fn new() -> (negotiation: Self)
        ensures
            negotiation@ == None::<CipherSuite>,
    {
        Negotiation { settled: None }
    }

    /// The suite this connection is bound to, if any.
    pub fn suite(&self) -> (suite: Option<CipherSuite>)
        ensures
            suite == self@,
    {
        self.settled
    }

    /// Takes the identifier that TLS negotiated. The first supported one
    /// binds the connection. After that the same identifier is confirmed,
    /// and any other is refused without touching the settled suite.
    pub fn negotiate(&mut self, tls_cipher_id: u16) -> (suite: Result<CipherSuite, Error>)
        ensures
            suite == negotiated(old(self)@, tls_cipher_id),
            final(self)@ == match old(self)@ {
                Some(s) => Some(s),
                None => resolved(tls_cipher_id),
            },
    {
        let asked = resolve(tls_cipher_id);
        match self.settled {
            None => {
                match asked {
                    Ok(s) => {
                        self.settled = Some(s);
                        Ok(s)
                    },
                    Err(e) => Err(e),
                }
            },
            Some(s) => {
                match asked {
                    Ok(t) => {
                        if t == s {
                            Ok(s)
                        } else {
                            Err(Error::UnsupportedCipherSuite)
                        }
                    },
                    Err(e) => Err(e),
                }
            },
        }
    }
}

/// What negotiating `tls_cipher_id` answers on a connection whose suite is
/// `settled`: the suite, where the identifier is supported and agrees with
/// what was settled before.
pub open spec fn negotiated(settled: Option<CipherSuite>, tls_cipher_id: u16) -> Result<
    CipherSuite,
    Error,
> {
    match resolved(tls_cipher_id) {
        Some(s) => if settled is None || settled == Some(s) {
            Ok(s)
        } else {
            Err(Error::UnsupportedCipherSuite)
        },
        None => Err(Error::UnsupportedCipherSuite),
    }
}

} // verus!
