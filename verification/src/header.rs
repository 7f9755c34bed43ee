//! Header protection: hiding the packet number, and the bits of the first
//! byte that give its length, under a mask.

use vstd::prelude::*;
use crate::cipher_suite::MASK_LEN;
use crate::error::Error;

verus! {

/// The bits of the first byte that are protected: four in a long header,
/// five in a short one.
pub open spec fn protected_bits(first: u8) -> u8 {
    if first & 0x80 == 0x80 {
        0x0f
    } else {
        0x1f
    }
}

/// Bytes in the packet number field, as the unprotected first byte gives it.
pub open spec fn packet_number_len(first: u8) -> int {
    (first & 0x03) + 1
}

/// `bytes` with the mask laid over the first byte and over the packet
/// number field, which starts at `pn_offset` and has `pn_len` bytes.
pub open spec fn masked(mask: Seq<u8>, bytes: Seq<u8>, pn_offset: int, pn_len: int) -> Seq<u8> {
    Seq::new(
        bytes.len(),
        |i: int|
            if i == 0 {
                bytes[0] ^ (mask[0] & protected_bits(bytes[0]))
            } else if pn_offset <= i < pn_offset + pn_len {
                bytes[i] ^ mask[1 + i - pn_offset]
            } else {
                bytes[i]
            },
    )
}

/// The protected form of an unprotected header that ends with its packet
/// number field; `None` where the header is too short to hold the first
/// byte and the packet number that the first byte announces.
pub open spec fn applied(mask: Seq<u8>, header: Seq<u8>) -> Option<Seq<u8>> {
    if header.len() >= 1 && header.len() >= 1 + packet_number_len(header[0]) {
        let pn_len = packet_number_len(header[0]);
        Some(masked(mask, header, header.len() - pn_len, pn_len))
    } else {
        None
    }
}

/// The unprotected header of a protected packet whose packet number field
/// starts at `pn_offset`: the bytes up to the end of that field; `None`
/// where the packet does not reach that far or the offset is zero.
pub open spec fn removed(mask: Seq<u8>, packet: Seq<u8>, pn_offset: int) -> Option<Seq<u8>> {
    if packet.len() >= 1 && pn_offset >= 1 {
        let first = packet[0] ^ (mask[0] & protected_bits(packet[0]));
        let pn_len = packet_number_len(first);
        if pn_offset + pn_len <= packet.len() {
            Some(masked(mask, packet.subrange(0, pn_offset + pn_len), pn_offset, pn_len))
        } else {
            None
        }
    } else {
        None
    }
}

/// Lays the mask over `bytes[..end]`, where the packet number field runs
/// from `pn_offset` to `end`.
fn lay_mask(mask: &[u8; 5], bytes: &[u8], pn_offset: usize, end: usize) -> (out: Vec<u8>)
    requires
        1 <= pn_offset <= end <= bytes@.len(),
        end - pn_offset <= 4,
    ensures
        out@ == masked(mask@, bytes@.subrange(0, end as int), pn_offset as int, end - pn_offset),
{
    let ghost want = masked(mask@, bytes@.subrange(0, end as int), pn_offset as int, end - pn_offset);
    let mut out: Vec<u8> = Vec::with_capacity(end);
    let bits: u8 = if bytes[0] & 0x80 == 0x80 {
        0x0f
    } else {
        0x1f
    };
    out.push(bytes[0] ^ (mask[0] & bits));
    let mut i: usize = 1;
    while i < end
        invariant
            1 <= i <= end,
            1 <= pn_offset <= end <= bytes@.len(),
            end - pn_offset <= 4,
            mask@.len() == MASK_LEN,
            want == masked(mask@, bytes@.subrange(0, end as int), pn_offset as int, end - pn_offset),
            out@.len() == i,
            forall|j: int| 0 <= j < i ==> out@[j] == want[j],
        decreases end - i,
    {
        if i >= pn_offset {
            out.push(bytes[i] ^ mask[1 + i - pn_offset]);
        } else {
            out.push(bytes[i]);
        }
        i = i + 1;
    }
    assert(out@ =~= want);
    out
}

/// Bytes in the packet number field announced by an unprotected first byte.
fn announced_len(first: u8) -> (len: usize)
    ensures
        len == packet_number_len(first),
        1 <= len <= 4,
{
    let low: u8 = first & 0x03;
    assert(low <= 3) by (bit_vector)
        requires
            low == first & 0x03,
    ;
    low as usize + 1
}

/// Protects a header. `header` is the unprotected header up to the end of
/// its packet number field, whose length the first byte announces.
///
/// Answers `None` exactly where the header is too short for that.
pub fn apply_header_protection(mask: &[u8; 5], header: &[u8]) -> (protected: Option<Vec<u8>>)
    ensures
        match applied(mask@, header@) {
            Some(bytes) => protected matches Some(out) && out@ == bytes,
            None => protected is None,
        },
{
    if header.len() < 1 {
        return None;
    }
    let pn_len = announced_len(header[0]);
    if header.len() < 1 + pn_len {
        return None;
    }
    let out = lay_mask(mask, header, header.len() - pn_len, header.len());
    assert(header@.subrange(0, header@.len() as int) == header@);
    Some(out)
}

/// Removes the protection from the header of a packet whose packet number
/// field starts at `pn_offset`, and hands out the unprotected header up to
/// the end of that field.
///
/// Fails with `AuthenticationFailure`, exactly where `pn_offset` is zero or
/// the packet ends before the packet number field does.
pub fn remove_header_protection(mask: &[u8; 5], packet: &[u8], pn_offset: usize) -> (header: Result<
    Vec<u8>,
    Error,
>)
    ensures
        match removed(mask@, packet@, pn_offset as int) {
            Some(bytes) => header matches Ok(out) && out@ == bytes,
            None => header == Err::<Vec<u8>, Error>(Error::AuthenticationFailure),
        },
{
    if packet.len() < 1 || pn_offset < 1 {
        return Err(Error::AuthenticationFailure);
    }
    let bits: u8 = if packet[0] & 0x80 == 0x80 {
        0x0f
    } else {
        0x1f
    };
    let first: u8 = packet[0] ^ (mask[0] & bits);
    let pn_len = announced_len(first);
    if pn_offset > packet.len() || packet.len() - pn_offset < pn_len {
        return Err(Error::AuthenticationFailure);
    }
    Ok(lay_mask(mask, packet, pn_offset, pn_offset + pn_len))
}

/// Laying a mask over a first byte leaves the form bit, and with it the
/// choice of protected bits, as it was; laying it twice gives the byte back.
proof fn lemma_first_byte(first: u8, m: u8)
    ensures
        protected_bits(first ^ (m & protected_bits(first))) == protected_bits(first),
        (first ^ (m & protected_bits(first))) ^ (m & protected_bits(first)) == first,
{
    assert((first ^ (m & 0x0fu8)) & 0x80 == first & 0x80) by (bit_vector);
    assert((first ^ (m & 0x1fu8)) & 0x80 == first & 0x80) by (bit_vector);
    assert((first ^ (m & 0x0fu8)) ^ (m & 0x0fu8) == first) by (bit_vector);
    assert((first ^ (m & 0x1fu8)) ^ (m & 0x1fu8) == first) by (bit_vector);
}

/// Removing the protection that was applied gives the header back,
/// whatever follows the header in the packet.
pub proof fn lemma_remove_inverts_apply(mask: Seq<u8>, header: Seq<u8>, rest: Seq<u8>)
    requires
        mask.len() == MASK_LEN,
        applied(mask, header) is Some,
    ensures
        removed(
            mask,
            applied(mask, header)->Some_0 + rest,
            header.len() - packet_number_len(header[0]),
        ) == Some(header),
{
    let pn_len = packet_number_len(header[0]);
    let pn_offset = header.len() - pn_len;
    let protected = applied(mask, header)->Some_0;
    let packet = protected + rest;
    let first = header[0];
    let m0 = mask[0];
    assert(first & 0x03 <= 3) by (bit_vector);
    lemma_first_byte(first, m0);
    assert(packet[0] == protected[0]);
    assert(packet.subrange(0, pn_offset + pn_len) =~= protected);
    let back = masked(mask, protected, pn_offset, pn_len);
    assert forall|i: int| 0 <= i < header.len() implies back[i] == header[i] by {
        if i != 0 && pn_offset <= i {
            let a = header[i];
            let m = mask[1 + i - pn_offset];
            assert((a ^ m) ^ m == a) by (bit_vector);
        }
    }
    assert(back =~= header);
}

/// Protection changes nothing but the protected bits of the first byte and
/// the packet number field.
pub proof fn lemma_apply_keeps_the_rest(mask: Seq<u8>, header: Seq<u8>, i: int)
    requires
        applied(mask, header) is Some,
        0 < i < header.len() - packet_number_len(header[0]),
    ensures
        applied(mask, header)->Some_0.len() == header.len(),
        applied(mask, header)->Some_0[i] == header[i],
        applied(mask, header)->Some_0[0] & 0xe0 == header[0] & 0xe0,
{
    let first = header[0];
    let m = mask[0];
    assert((first ^ (m & 0x0fu8)) & 0xe0 == first & 0xe0) by (bit_vector);
    assert((first ^ (m & 0x1fu8)) & 0xe0 == first & 0xe0) by (bit_vector);
}

} // verus!
