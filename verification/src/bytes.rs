//! Little-endian encodings of 16- and 32-bit words, and writes of byte strings into memory.
use vstd::prelude::*;

verus! {

/// The two bytes of `v`, low byte first.
pub open spec fn le16(v: u16) -> Seq<u8> {
    seq![(v & 0xff) as u8, ((v >> 8u16) & 0xff) as u8]
}

/// The four bytes of `v`, low byte first.
pub open spec fn le32(v: u32) -> Seq<u8> {
    seq![
        (v & 0xff) as u8,
        ((v >> 8u32) & 0xff) as u8,
        ((v >> 16u32) & 0xff) as u8,
        ((v >> 24u32) & 0xff) as u8,
    ]
}

/// The word whose bytes, low byte first, are `s[i..i + 4]`.
pub open spec fn read_le32(s: Seq<u8>, i: int) -> u32 {
    (s[i] as u32) | ((s[i + 1] as u32) << 8u32) | ((s[i + 2] as u32) << 16u32) | ((s[i + 3]
        as u32) << 24u32)
}

/// `s` with the bytes `b` written over it from index `i` on.
pub open spec fn splice(s: Seq<u8>, i: int, b: Seq<u8>) -> Seq<u8> {
    s.subrange(0, i) + b + s.subrange(i + b.len(), s.len() as int)
}

/// Two writes side by side are one write of both byte strings.
pub proof fn lemma_splice_concat(s: Seq<u8>, i: int, a: Seq<u8>, b: Seq<u8>)
    requires
        0 <= i,
        i + a.len() + b.len() <= s.len(),
    ensures
        splice(splice(s, i, a), i + a.len(), b) == splice(s, i, a + b),
        splice(s, i, a + b).len() == s.len(),
{
    assert(splice(splice(s, i, a), i + a.len(), b) =~= splice(s, i, a + b));
}

/// Writing a byte string leaves its length and everything around it as it was.
pub proof fn lemma_splice_basics(s: Seq<u8>, i: int, b: Seq<u8>)
    requires
        0 <= i,
        i + b.len() <= s.len(),
    ensures
        splice(s, i, b).len() == s.len(),
        splice(s, i, b).subrange(i, i + b.len()) == b,
        splice(s, i, b).subrange(0, i) == s.subrange(0, i),
        forall|k: int| 0 <= k < b.len() ==> #[trigger] splice(s, i, b)[i + k] == b[k],
        forall|k: int|
            0 <= k < s.len() && !(i <= k < i + b.len()) ==> #[trigger] splice(s, i, b)[k] == s[k],
{
    assert(splice(s, i, b).subrange(i, i + b.len()) =~= b);
    assert(splice(s, i, b).subrange(0, i) =~= s.subrange(0, i));
}

/// Reading a word back from its encoding gives the word.
pub proof fn lemma_read_le32(v: u32)
    ensures
        read_le32(le32(v), 0) == v,
{
    let b0 = (v & 0xff) as u8;
    let b1 = ((v >> 8u32) & 0xff) as u8;
    let b2 = ((v >> 16u32) & 0xff) as u8;
    let b3 = ((v >> 24u32) & 0xff) as u8;
    assert((b0 as u32) | ((b1 as u32) << 8u32) | ((b2 as u32) << 16u32) | ((b3 as u32) << 24u32)
        == v) by (bit_vector)
        requires
            b0 == (v & 0xff) as u8,
            b1 == ((v >> 8u32) & 0xff) as u8,
            b2 == ((v >> 16u32) & 0xff) as u8,
            b3 == ((v >> 24u32) & 0xff) as u8,
    ;
}

/// Reads the little-endian word at `s[i..i + 4]`.
pub fn get_le32(s: &[u8], i: usize) -> (r: u32)
    requires
        i + 4 <= s@.len(),
    ensures
        r == read_le32(s@, i as int),
{
    (s[i] as u32) | ((s[i + 1] as u32) << 8u32) | ((s[i + 2] as u32) << 16u32) | ((s[i + 3]
        as u32) << 24u32)
}

/// Writes `b` at `buf[i]`.
pub fn put_u8_at(buf: &mut Vec<u8>, i: usize, b: u8)
    requires
        i + 1 <= old(buf)@.len(),
    ensures
        final(buf)@ == splice(old(buf)@, i as int, seq![b]),
{
    buf.set(i, b);
    assert(buf@ =~= splice(old(buf)@, i as int, seq![b]));
}

/// Writes the little-endian encoding of `v` at `buf[i..i + 2]`.
pub fn put_le16_at(buf: &mut Vec<u8>, i: usize, v: u16)
    requires
        i + 2 <= old(buf)@.len(),
    ensures
        final(buf)@ == splice(old(buf)@, i as int, le16(v)),
{
    proof {
        assert(buf@.len() == buf.len());
    }
    buf.set(i, (v & 0xff) as u8);
    buf.set(i + 1, ((v >> 8u16) & 0xff) as u8);
    assert(buf@ =~= splice(old(buf)@, i as int, le16(v)));
}

/// Writes the little-endian encoding of `v` at `buf[i..i + 4]`.
pub fn put_le32_at(buf: &mut Vec<u8>, i: usize, v: u32)
    requires
        i + 4 <= old(buf)@.len(),
    ensures
        final(buf)@ == splice(old(buf)@, i as int, le32(v)),
{
    proof {
        assert(buf@.len() == buf.len());
    }
    buf.set(i, (v & 0xff) as u8);
    buf.set(i + 1, ((v >> 8u32) & 0xff) as u8);
    buf.set(i + 2, ((v >> 16u32) & 0xff) as u8);
    buf.set(i + 3, ((v >> 24u32) & 0xff) as u8);
    assert(buf@ =~= splice(old(buf)@, i as int, le32(v)));
}

} // verus!
