//! 0-RTT keys: derived from the early-data traffic secret. There is one
//! direction only: the client seals and the server opens under the same
//! secret.

use vstd::prelude::*;
use crate::error::Error;
use crate::key::{AeadKeyView, HeaderProtectionKeyView};
use crate::level::Level;
use crate::pair::{HeaderKey, HeaderKeyPair, HeaderKeyPairView, KeyPair, KeyPairView, PacketKey};
use crate::secret::{derive_level_secrets, derived_header_key, derived_key, TrafficSecret};

verus! {

/// The packet key at the 0-RTT level.
pub struct ZeroRttKey {
    keys: KeyPair,
}

/// The header protection key at the 0-RTT level.
pub struct ZeroRttHeaderKey {
    keys: HeaderKeyPair,
}

impl ZeroRttKey {
    pub closed spec fn view(&self) -> KeyPairView {
        self.keys@
    }

    /// Derives the 0-RTT keys from the early-data traffic secret.
    ///
    /// Succeeds exactly where the secret has the size of its suite's hash.
    /// Fails with `InvalidKeyMaterial` otherwise.
    pub fn new(secret: &TrafficSecret) -> (keys: Result<(ZeroRttKey, ZeroRttHeaderKey), Error>)
        ensures
            keys is Ok <==> secret@.wf(),
            keys matches Ok((key, header_key)) ==> {
                &&& key@.sealer == derived_key(secret@)
                &&& key@.opener == derived_key(secret@)
                &&& header_key@.sealer == derived_header_key(secret@)
                &&& header_key@.opener == derived_header_key(secret@)
            },
            keys matches Err(e) ==> e == Error::InvalidKeyMaterial,
    {
        let (key, header_key) = match derive_level_secrets(secret, Level::ZeroRtt) {
            Ok(keys) => keys,
            Err(e) => { return Err(e); },
        };
        let opener = key.duplicate();
        let header_opener = header_key.duplicate();
        Ok(
            (
                ZeroRttKey { keys: KeyPair::new(key, opener) },
                ZeroRttHeaderKey { keys: HeaderKeyPair::new(header_key, header_opener) },
            ),
        )
    }

    /// Overwrites the keys with zeros, once 1-RTT keys are in use or early
    /// data was refused.
    pub fn zeroize(&mut self)
        ensures
            final(self)@.sealer.key == Seq::new(old(self)@.sealer.key.len(), |i: int| 0u8),
            final(self)@.sealer.iv == Seq::new(old(self)@.sealer.iv.len(), |i: int| 0u8),
            final(self)@.opener.key == Seq::new(old(self)@.opener.key.len(), |i: int| 0u8),
            final(self)@.opener.iv == Seq::new(old(self)@.opener.iv.len(), |i: int| 0u8),
    {
        self.keys.zeroize();
    }
}

impl PacketKey for ZeroRttKey {
    open spec fn sealer(&self) -> AeadKeyView {
        self@.sealer
    }

    open spec fn opener(&self) -> AeadKeyView {
        self@.opener
    }

    fn seal(&self, packet_number: u64, header: &[u8], payload: &[u8]) -> (protected: Result<
        Vec<u8>,
        Error,
    >) {
        self.keys.seal(packet_number, header, payload)
    }

    fn open(&self, packet_number: u64, header: &[u8], protected: &[u8]) -> (opened: Result<
        (Vec<u8>, u64),
        Error,
    >) {
        self.keys.open(packet_number, header, protected)
    }
}

impl ZeroRttHeaderKey {
    pub closed spec fn view(&self) -> HeaderKeyPairView {
        self.keys@
    }

    /// Overwrites the keys with zeros.
    pub fn zeroize(&mut self)
        ensures
            final(self)@.sealer.key == Seq::new(old(self)@.sealer.key.len(), |i: int| 0u8),
            final(self)@.opener.key == Seq::new(old(self)@.opener.key.len(), |i: int| 0u8),
    {
        self.keys.zeroize();
    }
}

impl HeaderKey for ZeroRttHeaderKey {
    open spec fn sealer(&self) -> HeaderProtectionKeyView {
        self@.sealer
    }

    open spec fn opener(&self) -> HeaderProtectionKeyView {
        self@.opener
    }

    fn compute_header_protection_mask(&self, sample: &[u8]) -> (mask: Result<[u8; 5], Error>) {
        self.keys.compute_header_protection_mask(sample)
    }

    fn compute_sealing_mask(&self, sample: &[u8]) -> (mask: Result<[u8; 5], Error>) {
        self.keys.compute_sealing_mask(sample)
    }
}

} // verus!
