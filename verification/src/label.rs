//! The labels of the key schedule and their encoding as HKDF `info`.

use vstd::prelude::*;

verus! {

/// The longest label text that the encoding has room for.
pub const MAX_LABEL_LEN: usize = 249;

/// The purposes for which key material is derived from a secret.
#[derive(Clone, Copy, Debug, PartialEq, Eq, Structural)]
pub enum Label {
    /// The AEAD key: "quic key".
    Key,
    /// The IV base: "quic iv".
    Iv,
    /// The header protection key: "quic hp".
    HeaderProtection,
    /// The secret of the next key generation: "quic ku".
    KeyUpdate,
    /// The client's Initial secret: "client in".
    ClientInitial,
    /// The server's Initial secret: "server in".
    ServerInitial,
}

impl Label {
    /// The label's text in ASCII.
    pub open spec fn text(self) -> Seq<u8> {
        match self {
            Label::Key => seq![0x71u8, 0x75, 0x69, 0x63, 0x20, 0x6b, 0x65, 0x79],
            Label::Iv => seq![0x71u8, 0x75, 0x69, 0x63, 0x20, 0x69, 0x76],
            Label::HeaderProtection => seq![0x71u8, 0x75, 0x69, 0x63, 0x20, 0x68, 0x70],
            Label::KeyUpdate => seq![0x71u8, 0x75, 0x69, 0x63, 0x20, 0x6b, 0x75],
            Label::ClientInitial => seq![0x63u8, 0x6c, 0x69, 0x65, 0x6e, 0x74, 0x20, 0x69, 0x6e],
            Label::ServerInitial => seq![0x73u8, 0x65, 0x72, 0x76, 0x65, 0x72, 0x20, 0x69, 0x6e],
        }
    }

    /// The label's text in ASCII.
    pub fn text_bytes(self) -> (text: Vec<u8>)
        ensures
            text@ == self.text(),
            text@.len() <= 9,
    {
        match self {
            Label::Key => vec![0x71u8, 0x75, 0x69, 0x63, 0x20, 0x6b, 0x65, 0x79],
            Label::Iv => vec![0x71u8, 0x75, 0x69, 0x63, 0x20, 0x69, 0x76],
            Label::HeaderProtection => vec![0x71u8, 0x75, 0x69, 0x63, 0x20, 0x68, 0x70],
            Label::KeyUpdate => vec![0x71u8, 0x75, 0x69, 0x63, 0x20, 0x6b, 0x75],
            Label::ClientInitial => vec![0x63u8, 0x6c, 0x69, 0x65, 0x6e, 0x74, 0x20, 0x69, 0x6e],
            Label::ServerInitial => vec![0x73u8, 0x65, 0x72, 0x76, 0x65, 0x72, 0x20, 0x69, 0x6e],
        }
    }
}

/// "tls13 ", which stands before every label text.
pub open spec fn label_prefix() -> Seq<u8> {
    seq![0x74u8, 0x6c, 0x73, 0x31, 0x33, 0x20]
}

/// The `info` of HKDF-Expand-Label with an empty context: the output length
/// in two bytes, most significant first; the length of prefix and text in
/// one byte; the prefix; the text; and a zero for the empty context.
pub open spec fn hkdf_label(text: Seq<u8>, len: nat) -> Seq<u8> {
    seq![(len / 256) as u8, (len % 256) as u8, (6 + text.len()) as u8] + label_prefix() + text
        + seq![0u8]
}

/// Encodes a label text and an output length as HKDF `info`.
pub fn encode_label(text: &[u8], len: usize) -> (info: Vec<u8>)
    requires
        text@.len() <= MAX_LABEL_LEN,
        len <= 0xffff,
    ensures
        info@ == hkdf_label(text@, len as nat),
        info@.len() == text@.len() + 10,
{
    let mut info: Vec<u8> = Vec::with_capacity(text.len() + 10);
    info.push((len / 256) as u8);
    info.push((len % 256) as u8);
    info.push((6 + text.len()) as u8);
    info.push(0x74);
    info.push(0x6c);
    info.push(0x73);
    info.push(0x31);
    info.push(0x33);
    info.push(0x20);
    let mut i: usize = 0;
    while i < text.len()
        invariant
            i <= text@.len(),
            text@.len() <= MAX_LABEL_LEN,
            len <= 0xffff,
            info@ == seq![(len / 256) as u8, (len % 256) as u8, (6 + text@.len()) as u8]
                + label_prefix() + text@.subrange(0, i as int),
        decreases text@.len() - i,
    {
        info.push(text[i]);
        i = i + 1;
    }
    assert(text@.subrange(0, i as int) == text@);
    info.push(0);
    info
}

/// Two labels with the same encoding have the same text and the same
/// output length: no derivation can be mistaken for another.
pub proof fn lemma_label_encoding_is_injective(a: Seq<u8>, a_len: nat, b: Seq<u8>, b_len: nat)
    requires
        a.len() <= MAX_LABEL_LEN,
        b.len() <= MAX_LABEL_LEN,
        a_len <= 0xffff,
        b_len <= 0xffff,
        hkdf_label(a, a_len) == hkdf_label(b, b_len),
    ensures
        a == b,
        a_len == b_len,
{
    let x = hkdf_label(a, a_len);
    let y = hkdf_label(b, b_len);
    assert(x.len() == a.len() + 10);
    assert(y.len() == b.len() + 10);
    assert(x[0] == (a_len / 256) as u8 && y[0] == (b_len / 256) as u8);
    assert(x[1] == (a_len % 256) as u8 && y[1] == (b_len % 256) as u8);
    assert forall|i: int| 0 <= i < a.len() implies a[i] == b[i] by {
        assert(x[i + 9] == a[i]);
        assert(y[i + 9] == b[i]);
    }
    assert(a =~= b);
}

} // verus!
