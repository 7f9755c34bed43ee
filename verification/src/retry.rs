//! The Retry integrity tag: an AEAD tag over a pseudo-packet, under a key
//! and a nonce that the protocol version fixes. It shows that a Retry
//! packet answers the Initial packet with a given connection ID, and it
//! protects nothing else.

use vstd::prelude::*;
use crate::cipher_suite::{CipherSuite, TAG_LEN};
use crate::error::Error;
use crate::level::Version;
use crate::primitive;
use crate::primitive::{aead_seal, verify_slices_are_equal, MAX_AEAD_INPUT_LEN};

verus! {

/// The longest connection ID whose length the pseudo-packet can state.
pub const MAX_CONNECTION_ID_LEN: usize = 255;

/// A length up to which a Retry packet, with any connection ID before it,
/// makes a pseudo-packet within `MAX_AEAD_INPUT_LEN`.
pub const MAX_RETRY_PACKET_LEN: usize = 0xffff_feff;

/// The Retry pseudo-packet: the length of the original destination
/// connection ID in one byte, that connection ID, and the Retry packet
/// without its tag.
pub open spec fn pseudo_packet(original_connection_id: Seq<u8>, retry_packet: Seq<u8>) -> Seq<u8> {
    seq![original_connection_id.len() as u8] + original_connection_id + retry_packet
}

/// The integrity tag of `pseudo` under the constants of `version`: the
/// AEAD's sealing of nothing, with the pseudo-packet as associated data;
/// `None` where the AEAD has none.
pub open spec fn retry_tag(version: Version, pseudo: Seq<u8>) -> Option<Seq<u8>> {
    aead_seal(
        CipherSuite::Aes128GcmSha256,
        version.retry_key(),
        version.retry_nonce(),
        pseudo,
        Seq::<u8>::empty(),
    )
}

/// `tag` is the integrity tag of `pseudo` under the constants of `version`.
pub open spec fn is_retry_tag(version: Version, pseudo: Seq<u8>, tag: Seq<u8>) -> bool {
    retry_tag(version, pseudo) == Some(tag)
}

/// The verdict on a tag that came with a Retry packet: accepted where it is
/// the tag of the pseudo-packet, `AuthenticationFailure` where the
/// pseudo-packet has another tag, and `InvalidKeyMaterial` where the AEAD
/// has no tag for the pseudo-packet.
pub open spec fn retry_verdict(version: Version, pseudo: Seq<u8>, tag: Seq<u8>) -> Result<(), Error> {
    match retry_tag(version, pseudo) {
        Some(expected) => if expected == tag {
            Ok(())
        } else {
            Err(Error::AuthenticationFailure)
        },
        None => Err(Error::InvalidKeyMaterial),
    }
}

/// Builds the Retry pseudo-packet.
pub fn retry_pseudo_packet(original_connection_id: &[u8], retry_packet: &[u8]) -> (pseudo: Vec<u8>)
    requires
        original_connection_id@.len() <= MAX_CONNECTION_ID_LEN,
    ensures
        pseudo@ == pseudo_packet(original_connection_id@, retry_packet@),
{
    let mut pseudo: Vec<u8> = Vec::new();
    pseudo.push(original_connection_id.len() as u8);
    let mut i: usize = 0;
    while i < original_connection_id.len()
        invariant
            i <= original_connection_id@.len(),
            pseudo@ == seq![original_connection_id@.len() as u8]
                + original_connection_id@.subrange(0, i as int),
        decreases original_connection_id@.len() - i,
    {
        pseudo.push(original_connection_id[i]);
        i = i + 1;
    }
    assert(original_connection_id@.subrange(0, i as int) == original_connection_id@);
    let mut j: usize = 0;
    while j < retry_packet.len()
        invariant
            j <= retry_packet@.len(),
            pseudo@ == seq![original_connection_id@.len() as u8] + original_connection_id@
                + retry_packet@.subrange(0, j as int),
        decreases retry_packet@.len() - j,
    {
        pseudo.push(retry_packet[j]);
        j = j + 1;
    }
    assert(retry_packet@.subrange(0, j as int) == retry_packet@);
    pseudo
}

/// Sixteen tag bytes as an array.
pub fn tag_array(bytes: &Vec<u8>) -> (tag: [u8; 16])
    requires
        bytes@.len() == TAG_LEN,
    ensures
        tag@ == bytes@,
{
    let tag: [u8; 16] = [
        bytes[0], bytes[1], bytes[2], bytes[3], bytes[4], bytes[5], bytes[6], bytes[7],
        bytes[8], bytes[9], bytes[10], bytes[11], bytes[12], bytes[13], bytes[14], bytes[15],
    ];
    assert(tag@ =~= bytes@);
    tag
}

/// The answer to a tag that was presented, given the tag that was expected.
pub fn tag_verdict(same: bool) -> (verdict: Result<(), Error>)
    ensures
        verdict == if same {
            Ok::<(), Error>(())
        } else {
            Err::<(), Error>(Error::AuthenticationFailure)
        },
{
    if same {
        Ok(())
    } else {
        Err(Error::AuthenticationFailure)
    }
}

/// The key of the Retry integrity tag for one protocol version.
#[derive(Clone, Copy, Debug)]
pub struct RetryKey {
    version: Version,
}

impl RetryKey {
    /// The version whose constants this key uses.
    pub closed spec fn view(&self) -> Version {
        self.version
    }

    /// The Retry key of `version`.
    pub fn new(version: Version) -> (key: RetryKey)
        ensures
            key@ == version,
    {
        RetryKey { version }
    }

    /// Computes the integrity tag of a pseudo-packet.
    ///
    /// Succeeds exactly where the AEAD has a tag for the pseudo-packet,
    /// which it has for every pseudo-packet within `MAX_AEAD_INPUT_LEN`.
    /// Fails with `InvalidKeyMaterial` otherwise.
    pub fn generate_tag(&self, pseudo: &[u8]) -> (tag: Result<[u8; 16], Error>)
        ensures
            match retry_tag(self@, pseudo@) {
                Some(expected) => tag matches Ok(t) && t@ == expected,
                None => tag == Err::<[u8; 16], Error>(Error::InvalidKeyMaterial),
            },
            pseudo@.len() <= MAX_AEAD_INPUT_LEN ==> tag is Ok,
    {
        let key = self.version.retry_key_bytes();
        let nonce = self.version.retry_nonce_bytes();
        let nothing: Vec<u8> = Vec::new();
        match primitive::seal_detached(
            CipherSuite::Aes128GcmSha256,
            key.as_slice(),
            nonce.as_slice(),
            pseudo,
            nothing.as_slice(),
        ) {
            Ok((ciphertext, tag)) => {
                assert(ciphertext@ + tag@ =~= tag@);
                assert(nothing@ =~= Seq::<u8>::empty());
                Ok(tag_array(&tag))
            },
            Err(e) => Err(e),
        }
    }

    /// Checks a tag that came with a Retry packet against the tag of the
    /// pseudo-packet, in time that does not depend on where they differ.
    ///
    /// Accepts exactly the tag of the pseudo-packet. Fails with
    /// `AuthenticationFailure` exactly where the pseudo-packet has another
    /// tag, and with `InvalidKeyMaterial` exactly where the AEAD has no tag
    /// for it, which is never so within `MAX_AEAD_INPUT_LEN`.
    pub fn validate(&self, pseudo: &[u8], tag: &[u8]) -> (verdict: Result<(), Error>)
        ensures
            verdict == retry_verdict(self@, pseudo@, tag@),
            pseudo@.len() <= MAX_AEAD_INPUT_LEN ==> verdict != Err::<(), Error>(
                Error::InvalidKeyMaterial,
            ),
    {
        match self.generate_tag(pseudo) {
            Ok(expected) => tag_verdict(verify_slices_are_equal(expected.as_slice(), tag)),
            Err(e) => Err(e),
        }
    }

    /// Computes the integrity tag of a Retry packet that answers the
    /// Initial packet with `original_connection_id`. `retry_packet` is the
    /// Retry packet up to where the tag goes.
    ///
    /// Succeeds exactly where the AEAD has a tag for the pseudo-packet made
    /// of the two, which it has wherever the Retry packet is within
    /// `MAX_RETRY_PACKET_LEN`. Fails with `InvalidKeyMaterial` otherwise.
    pub fn seal(&self, original_connection_id: &[u8], retry_packet: &[u8]) -> (tag: Result<
        [u8; 16],
        Error,
    >)
        requires
            original_connection_id@.len() <= MAX_CONNECTION_ID_LEN,
        ensures
            match retry_tag(self@, pseudo_packet(original_connection_id@, retry_packet@)) {
                Some(expected) => tag matches Ok(t) && t@ == expected,
                None => tag == Err::<[u8; 16], Error>(Error::InvalidKeyMaterial),
            },
            retry_packet@.len() <= MAX_RETRY_PACKET_LEN ==> tag is Ok,
    {
        let pseudo = retry_pseudo_packet(original_connection_id, retry_packet);
        self.generate_tag(pseudo.as_slice())
    }

    /// Checks the integrity tag of a Retry packet against the connection ID
    /// of the Initial packet that it claims to answer.
    ///
    /// Accepts exactly the tag of the pseudo-packet made of these two.
    /// Fails with `AuthenticationFailure` exactly where that pseudo-packet
    /// has another tag, and with `InvalidKeyMaterial` exactly where the AEAD
    /// has no tag for it, which is never so where the Retry packet is
    /// within `MAX_RETRY_PACKET_LEN`.
    pub fn open(&self, original_connection_id: &[u8], retry_packet: &[u8], tag: &[u8]) -> (verdict:
        Result<(), Error>)
        requires
            original_connection_id@.len() <= MAX_CONNECTION_ID_LEN,
        ensures
            verdict == retry_verdict(
                self@,
                pseudo_packet(original_connection_id@, retry_packet@),
                tag@,
            ),
            retry_packet@.len() <= MAX_RETRY_PACKET_LEN ==> verdict != Err::<(), Error>(
                Error::InvalidKeyMaterial,
            ),
    {
        let pseudo = retry_pseudo_packet(original_connection_id, retry_packet);
        self.validate(pseudo.as_slice(), tag)
    }
}

/// A pseudo-packet has one tag: computing it twice, anywhere, gives the
/// same bytes.
pub proof fn lemma_retry_tag_is_determined(
    version: Version,
    pseudo: Seq<u8>,
    first: Seq<u8>,
    second: Seq<u8>,
)
    requires
        is_retry_tag(version, pseudo, first),
        is_retry_tag(version, pseudo, second),
    ensures
        first == second,
{
}

/// A tag that was made for one connection ID is accepted with it, and
/// fails authentication with any other, unless the two pseudo-packets, which
/// differ, have the same tag.
pub proof fn lemma_altered_connection_id_fails(
    version: Version,
    original_connection_id: Seq<u8>,
    altered_connection_id: Seq<u8>,
    retry_packet: Seq<u8>,
    tag: Seq<u8>,
)
    requires
        original_connection_id.len() <= MAX_CONNECTION_ID_LEN,
        altered_connection_id.len() <= MAX_CONNECTION_ID_LEN,
        altered_connection_id != original_connection_id,
        is_retry_tag(version, pseudo_packet(original_connection_id, retry_packet), tag),
        retry_tag(version, pseudo_packet(altered_connection_id, retry_packet)) is Some,
        !is_retry_tag(version, pseudo_packet(altered_connection_id, retry_packet), tag),
    ensures
        pseudo_packet(altered_connection_id, retry_packet) != pseudo_packet(
            original_connection_id,
            retry_packet,
        ),
        retry_verdict(version, pseudo_packet(original_connection_id, retry_packet), tag) == Ok::<
            (),
            Error,
        >(()),
        retry_verdict(version, pseudo_packet(altered_connection_id, retry_packet), tag) == Err::<
            (),
            Error,
        >(Error::AuthenticationFailure),
{
}

/// A pseudo-packet tells its connection ID and its Retry packet apart: a
/// tag that is checked against another connection ID is checked against
/// another pseudo-packet.
pub proof fn lemma_pseudo_packet_is_injective(
    original_connection_id: Seq<u8>,
    retry_packet: Seq<u8>,
    other_connection_id: Seq<u8>,
    other_retry_packet: Seq<u8>,
)
    requires
        original_connection_id.len() <= MAX_CONNECTION_ID_LEN,
        other_connection_id.len() <= MAX_CONNECTION_ID_LEN,
        pseudo_packet(original_connection_id, retry_packet) == pseudo_packet(
            other_connection_id,
            other_retry_packet,
        ),
    ensures
        original_connection_id == other_connection_id,
        retry_packet == other_retry_packet,
{
    let a = pseudo_packet(original_connection_id, retry_packet);
    let b = pseudo_packet(other_connection_id, other_retry_packet);
    let n = original_connection_id.len() as int;
    assert(a[0] == original_connection_id.len() as u8);
    assert(b[0] == other_connection_id.len() as u8);
    assert(n == other_connection_id.len());
    assert(a.len() == 1 + n + retry_packet.len());
    assert(b.len() == 1 + n + other_retry_packet.len());
    assert forall|i: int| 0 <= i < n implies original_connection_id[i] == other_connection_id[i] by {
        assert(a[1 + i] == original_connection_id[i]);
        assert(b[1 + i] == other_connection_id[i]);
    }
    assert(original_connection_id =~= other_connection_id);
    assert forall|i: int| 0 <= i < retry_packet.len() implies retry_packet[i]
        == other_retry_packet[i] by {
        assert(a[1 + n + i] == retry_packet[i]);
        assert(b[1 + n + i] == other_retry_packet[i]);
    }
    assert(retry_packet =~= other_retry_packet);
}

} // verus!
