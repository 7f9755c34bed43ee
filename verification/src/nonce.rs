//! The nonce of a packet: the IV base with the packet number folded in.

use vstd::prelude::*;
use crate::cipher_suite::NONCE_LEN;

verus! {

/// Byte `i` of the packet number written in eight bytes, most significant
/// first.
pub open spec fn packet_number_byte(packet_number: u64, i: int) -> u8 {
    ((packet_number >> ((8 * (7 - i)) as u64)) & 0xff) as u8
}

/// The nonce for `packet_number` under `iv`: the packet number, written in
/// as many bytes as the IV has with zeros in front, combined with the IV by
/// exclusive or.
pub open spec fn packet_nonce(iv: Seq<u8>, packet_number: u64) -> Seq<u8> {
    Seq::new(
        NONCE_LEN as nat,
        |i: int|
            if i < 4 {
                iv[i]
            } else {
                iv[i] ^ packet_number_byte(packet_number, i - 4)
            },
    )
}

/// Forms the nonce for `packet_number` under `iv`.
pub fn nonce_for(iv: &[u8], packet_number: u64) -> (nonce: Vec<u8>)
    requires
        iv@.len() == NONCE_LEN,
    ensures
        nonce@ == packet_nonce(iv@, packet_number),
        nonce@.len() == NONCE_LEN,
{
    let mut nonce: Vec<u8> = Vec::with_capacity(NONCE_LEN);
    let mut i: usize = 0;
    while i < NONCE_LEN
        invariant
            i <= NONCE_LEN,
            iv@.len() == NONCE_LEN,
            nonce@.len() == i,
            forall|j: int| 0 <= j < i ==> nonce@[j] == packet_nonce(iv@, packet_number)[j],
        decreases NONCE_LEN - i,
    {
        if i < 4 {
            nonce.push(iv[i]);
        } else {
            let shift: u64 = (8 * (11 - i)) as u64;
            let wide: u64 = (packet_number >> shift) & 0xff;
            assert(wide <= 0xff) by (bit_vector)
                requires
                    wide == (packet_number >> shift) & 0xff,
            ;
            nonce.push(iv[i] ^ (wide as u8));
        }
        i = i + 1;
    }
    assert(nonce@ =~= packet_nonce(iv@, packet_number));
    nonce
}

/// A number is known by its eight bytes.
proof fn lemma_bytes_fix_number(a: u64, b: u64)
    requires
        forall|i: int| 0 <= i < 8 ==> packet_number_byte(a, i) == packet_number_byte(b, i),
    ensures
        a == b,
{
    assert(packet_number_byte(a, 0) == packet_number_byte(b, 0));
    assert(packet_number_byte(a, 1) == packet_number_byte(b, 1));
    assert(packet_number_byte(a, 2) == packet_number_byte(b, 2));
    assert(packet_number_byte(a, 3) == packet_number_byte(b, 3));
    assert(packet_number_byte(a, 4) == packet_number_byte(b, 4));
    assert(packet_number_byte(a, 5) == packet_number_byte(b, 5));
    assert(packet_number_byte(a, 6) == packet_number_byte(b, 6));
    assert(packet_number_byte(a, 7) == packet_number_byte(b, 7));
    assert(a == b) by (bit_vector)
        requires
            ((a >> 56u64) & 0xff) as u8 == ((b >> 56u64) & 0xff) as u8,
            ((a >> 48u64) & 0xff) as u8 == ((b >> 48u64) & 0xff) as u8,
            ((a >> 40u64) & 0xff) as u8 == ((b >> 40u64) & 0xff) as u8,
            ((a >> 32u64) & 0xff) as u8 == ((b >> 32u64) & 0xff) as u8,
            ((a >> 24u64) & 0xff) as u8 == ((b >> 24u64) & 0xff) as u8,
            ((a >> 16u64) & 0xff) as u8 == ((b >> 16u64) & 0xff) as u8,
            ((a >> 8u64) & 0xff) as u8 == ((b >> 8u64) & 0xff) as u8,
            ((a >> 0u64) & 0xff) as u8 == ((b >> 0u64) & 0xff) as u8,
    ;
}

/// Under one IV, two different packet numbers never share a nonce.
pub proof fn lemma_nonces_differ(iv: Seq<u8>, first: u64, second: u64)
    requires
        first != second,
    ensures
        packet_nonce(iv, first) != packet_nonce(iv, second),
{
    if packet_nonce(iv, first) == packet_nonce(iv, second) {
        assert forall|i: int| 0 <= i < 8 implies packet_number_byte(first, i)
            == packet_number_byte(second, i) by {
            let x = iv[i + 4];
            let p = packet_number_byte(first, i);
            let q = packet_number_byte(second, i);
            assert(packet_nonce(iv, first)[i + 4] == x ^ p);
            assert(packet_nonce(iv, second)[i + 4] == x ^ q);
            assert(p == q) by (bit_vector)
                requires
                    x ^ p == x ^ q,
            ;
        }
        lemma_bytes_fix_number(first, second);
    }
}

} // verus!
