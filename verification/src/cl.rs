//! A control list under construction: the memory of a buffer object, the address it starts at
//! and the address the next packet byte goes to.
use vstd::prelude::*;
use crate::bytes::{le16, le32, splice, lemma_splice_concat, lemma_splice_basics, put_u8_at, put_le16_at, put_le32_at};

verus! {

/// A control list being written. `mem` holds the bytes of the list's memory, from address
/// `base` on; `next` is the address that the next byte is written to.
pub struct vc4_cl {
    pub base: usize,
    pub next: usize,
    pub reloc_next: usize,
    pub size: u32,
    pub mem: Vec<u8>,
}

impl vc4_cl {
    /// The index into `mem` that the next byte goes to.
    pub open spec fn pos(&self) -> int {
        self.next - self.base
    }

    /// Whether `k` more bytes can be written at `next` without leaving `mem`.
    pub open spec fn has_room(&self, k: nat) -> bool {
        &&& self.base <= self.next
        &&& self.pos() + k <= self.mem@.len()
        &&& self.next + k <= usize::MAX
    }

    /// `new` is `self` after writing `b` at `next` and moving `next` past it.
    pub open spec fn wrote(self, new: vc4_cl, b: Seq<u8>) -> bool {
        &&& new.base == self.base
        &&& new.next == self.next + b.len()
        &&& new.reloc_next == self.reloc_next
        &&& new.size == self.size
        &&& new.mem@ == splice(self.mem@, self.pos(), b)
    }

    /// How many bytes have been written since `base`.
    pub fn cl_offset(&self) -> (r: usize)
        requires
            self.base <= self.next,
        ensures
            r == self.next - self.base,
    {
        self.next - self.base
    }

    /// Appends one byte.
    pub fn cl_u8(&mut self, data: u8)
        requires
            old(self).has_room(1),
        ensures
            old(self).wrote(*final(self), seq![data]),
    {
        let i = self.next - self.base;
        put_u8_at(&mut self.mem, i, data);
        self.next = self.next + 1;
    }

    /// Appends a 16-bit word, low byte first.
    pub fn cl_u16(&mut self, data: u16)
        requires
            old(self).has_room(2),
        ensures
            old(self).wrote(*final(self), le16(data)),
    {
        let i = self.next - self.base;
        put_le16_at(&mut self.mem, i, data);
        self.next = self.next + 2;
    }

    /// Appends a 32-bit word, low byte first.
    pub fn cl_u32(&mut self, data: u32)
        requires
            old(self).has_room(4),
        ensures
            old(self).wrote(*final(self), le32(data)),
    {
        let i = self.next - self.base;
        put_le32_at(&mut self.mem, i, data);
        self.next = self.next + 4;
    }
}

/// Writing two byte strings one after the other writes their concatenation.
pub proof fn lemma_wrote_trans(a: vc4_cl, b: vc4_cl, c: vc4_cl, x: Seq<u8>, y: Seq<u8>)
    requires
        a.has_room(x.len() + y.len()),
        a.wrote(b, x),
        b.wrote(c, y),
    ensures
        a.wrote(c, x + y),
{
    lemma_splice_concat(a.mem@, a.pos(), x, y);
}

/// Writing nothing changes nothing.
pub proof fn lemma_wrote_nothing(a: vc4_cl)
    requires
        a.has_room(0),
    ensures
        a.wrote(a, Seq::empty()),
{
    assert(splice(a.mem@, a.pos(), Seq::empty()) =~= a.mem@);
}

/// After `acc` is written from `a` on, there is room for what is left of `a`'s room.
pub proof fn lemma_room_left(a: vc4_cl, b: vc4_cl, acc: Seq<u8>, k: nat)
    requires
        a.has_room(acc.len() + k),
        a.wrote(b, acc),
    ensures
        b.has_room(k),
{
    lemma_splice_basics(a.mem@, a.pos(), acc);
}

/// Appends `data` to `cl`, on which `acc` was written since `c0`.
pub(crate) fn push_u8(cl: &mut vc4_cl, data: u8, Ghost(c0): Ghost<vc4_cl>, Ghost(acc): Ghost<Seq<u8>>)
    requires
        c0.wrote(*old(cl), acc),
        c0.has_room(acc.len() + 1),
    ensures
        c0.wrote(*final(cl), acc + seq![data]),
{
    proof {
        lemma_room_left(c0, *cl, acc, 1);
    }
    let ghost c1 = *cl;
    cl.cl_u8(data);
    proof {
        lemma_wrote_trans(c0, c1, *cl, acc, seq![data]);
    }
}

/// Appends the 16-bit word `data` to `cl`, on which `acc` was written since `c0`.
pub(crate) fn push_u16(cl: &mut vc4_cl, data: u16, Ghost(c0): Ghost<vc4_cl>, Ghost(acc): Ghost<Seq<u8>>)
    requires
        c0.wrote(*old(cl), acc),
        c0.has_room(acc.len() + 2),
    ensures
        c0.wrote(*final(cl), acc + le16(data)),
{
    proof {
        lemma_room_left(c0, *cl, acc, 2);
    }
    let ghost c1 = *cl;
    cl.cl_u16(data);
    proof {
        lemma_wrote_trans(c0, c1, *cl, acc, le16(data));
    }
}

/// Appends the 32-bit word `data` to `cl`, on which `acc` was written since `c0`.
pub(crate) fn push_u32(cl: &mut vc4_cl, data: u32, Ghost(c0): Ghost<vc4_cl>, Ghost(acc): Ghost<Seq<u8>>)
    requires
        c0.wrote(*old(cl), acc),
        c0.has_room(acc.len() + 4),
    ensures
        c0.wrote(*final(cl), acc + le32(data)),
{
    proof {
        lemma_room_left(c0, *cl, acc, 4);
    }
    let ghost c1 = *cl;
    cl.cl_u32(data);
    proof {
        lemma_wrote_trans(c0, c1, *cl, acc, le32(data));
    }
}

/// Empties the list description: base, next address and size become 0.
pub fn vc4_init_cl(cl: &mut vc4_cl)
    ensures
        final(cl).base == 0,
        final(cl).next == 0,
        final(cl).size == 0,
        final(cl).reloc_next == old(cl).reloc_next,
        final(cl).mem@ == old(cl).mem@,
{
    cl.base = 0;
    cl.next = 0;
    cl.size = 0;
}

/// Rewinds the list to its start.
pub fn vc4_reset_cl(cl: &mut vc4_cl)
    ensures
        final(cl).next == old(cl).base,
        final(cl).base == old(cl).base,
        final(cl).size == old(cl).size,
        final(cl).reloc_next == old(cl).reloc_next,
        final(cl).mem@ == old(cl).mem@,
{
    cl.next = cl.base;
}

/// The low 32 bits of the list's length so far.
pub fn cl_offset(cl: &mut vc4_cl) -> (r: u32)
    requires
        old(cl).next as u32 >= old(cl).base as u32,
    ensures
        r == (old(cl).next as u32) - (old(cl).base as u32),
        *final(cl) == *old(cl),
{
    (cl.next as u32) - (cl.base as u32)
}

/// Moves the next address `n` bytes on without writing.
pub fn cl_advance(cl: &mut vc4_cl, n: u32)
    requires
        old(cl).next + n <= usize::MAX,
    ensures
        final(cl).next == old(cl).next + n,
        final(cl).base == old(cl).base,
        final(cl).size == old(cl).size,
        final(cl).reloc_next == old(cl).reloc_next,
        final(cl).mem@ == old(cl).mem@,
{
    cl.next = cl.next + n as usize;
}

/// Stores a 32-bit word through a reference.
pub fn put_unaligned_32(ptr: &mut u32, val: u32)
    ensures
        *final(ptr) == val,
{
    *ptr = val;
}

/// Stores a 16-bit word through a reference.
pub fn put_unaligned_16(ptr: &mut u16, val: u16)
    ensures
        *final(ptr) == val,
{
    *ptr = val;
}

/// Appends one byte to `cl`.
pub fn cl_u8(cl: &mut vc4_cl, n: u8)
    requires
        old(cl).has_room(1),
    ensures
        old(cl).wrote(*final(cl), seq![n]),
{
    cl.cl_u8(n);
}

/// Appends a 16-bit word to `cl`, low byte first.
pub fn cl_u16(cl: &mut vc4_cl, n: u16)
    requires
        old(cl).has_room(2),
    ensures
        old(cl).wrote(*final(cl), le16(n)),
{
    cl.cl_u16(n);
}

/// Appends a 32-bit word to `cl`, low byte first.
pub fn cl_u32(cl: &mut vc4_cl, n: u32)
    requires
        old(cl).has_room(4),
    ensures
        old(cl).wrote(*final(cl), le32(n)),
{
    cl.cl_u32(n);
}

/// Appends a 32-bit word to `cl` at an address the caller knows to be aligned.
pub fn cl_aligned_u32(cl: &mut vc4_cl, n: u32)
    requires
        old(cl).has_room(4),
    ensures
        old(cl).wrote(*final(cl), le32(n)),
{
    cl.cl_u32(n);
}


/// The rows of a dump of `mem[off..size]`, `cols` bytes each but the last, which may be
/// shorter.
pub open spec fn dump_rows_from(mem: Seq<u8>, off: int, size: int, cols: int) -> Seq<Seq<u8>>
    decreases size - off,
{
    if off >= size || cols <= 0 {
        Seq::empty()
    } else {
        let end = if off + cols < size { off + cols } else { size };
        seq![mem.subrange(off, end)] + dump_rows_from(mem, end, size, cols)
    }
}

/// The rows of a hex dump of the first `size` bytes of `cl`: `cols` bytes to a row, the last
/// row holding what is left. The caller prints each row after its address.
pub fn vc4_dump_cl(cl: &vc4_cl, size: u32, cols: u32) -> (r: Vec<Vec<u8>>)
    requires
        size <= cl.mem@.len(),
        size > 0 ==> cols > 0,
    ensures
        r.deep_view() == dump_rows_from(cl.mem@, 0, size as int, cols as int),
{
    let mut rows: Vec<Vec<u8>> = Vec::new();
    let mut offset: u32 = 0;
    while offset < size
        invariant
            offset <= size,
            size <= cl.mem@.len(),
            size > 0 ==> cols > 0,
            rows.deep_view() + dump_rows_from(cl.mem@, offset as int, size as int, cols as int)
                == dump_rows_from(cl.mem@, 0, size as int, cols as int),
        decreases size - offset,
    {
        let start = offset;
        let mut row: Vec<u8> = Vec::new();
        let mut i: u32 = 0;
        while i < cols && offset < size
            invariant
                start <= offset <= size,
                start < size,
                cols > 0,
                size <= cl.mem@.len(),
                i <= cols,
                offset == start + i,
                row@ == cl.mem@.subrange(start as int, offset as int),
            decreases size - offset,
        {
            row.push(cl.mem[offset as usize]);
            i = i + 1;
            offset = offset + 1;
            assert(row@ =~= cl.mem@.subrange(start as int, offset as int));
        }
        let ghost rest = dump_rows_from(cl.mem@, offset as int, size as int, cols as int);
        let ghost before = rows.deep_view();
        let ghost end: int = if start + cols < size { start + cols } else { size as int };
        assert(offset == end);
        assert(dump_rows_from(cl.mem@, start as int, size as int, cols as int) == seq![
            cl.mem@.subrange(start as int, end),
        ] + dump_rows_from(cl.mem@, end, size as int, cols as int));
        assert(row.deep_view() =~= row@);
        let ghost rowv = row@;
        rows.push(row);
        assert(rows.deep_view() =~= before.push(rowv));
        assert(rows.deep_view() + rest =~= before + (seq![rowv] + rest));
    }
    rows
}

} // verus!
