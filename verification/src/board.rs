//! The Raspberry Pi 3 board: writing little-endian data into GPU memory, and the control lists,
//! shader record, vertices and fragment shader of the self-test that draws one triangle on a
//! 1920x1080 frame.
use vstd::prelude::*;
use crate::bytes::{le16, le32, splice, lemma_splice_concat, lemma_splice_basics, put_u8_at, put_le16_at, put_le32_at};

verus! {

/// Writes `d` at index `*p` of `mem` and moves `*p` past it.
pub fn addbyte(mem: &mut Vec<u8>, p: &mut usize, d: u8)
    requires
        *old(p) + 1 <= old(mem)@.len(),
    ensures
        final(mem)@ == splice(old(mem)@, *old(p) as int, seq![d]),
        *final(p) == *old(p) + 1,
{
    proof {
        assert(mem@.len() == mem.len());
    }
    put_u8_at(mem, *p, d);
    *p = *p + 1;
}

/// Writes the 32-bit word `d`, low byte first, at index `*p` of `mem` and moves `*p` past it.
pub fn addword(mem: &mut Vec<u8>, p: &mut usize, d: u32)
    requires
        *old(p) + 4 <= old(mem)@.len(),
    ensures
        final(mem)@ == splice(old(mem)@, *old(p) as int, le32(d)),
        *final(p) == *old(p) + 4,
{
    proof {
        assert(mem@.len() == mem.len());
    }
    put_le32_at(mem, *p, d);
    *p = *p + 4;
}

/// Writes the 16-bit word `d`, low byte first, at index `*p` of `mem` and moves `*p` past it.
pub fn addshort(mem: &mut Vec<u8>, p: &mut usize, d: u16)
    requires
        *old(p) + 2 <= old(mem)@.len(),
    ensures
        final(mem)@ == splice(old(mem)@, *old(p) as int, le16(d)),
        *final(p) == *old(p) + 2,
{
    proof {
        assert(mem@.len() == mem.len());
    }
    put_le16_at(mem, *p, d);
    *p = *p + 2;
}

/// `acc` has been written into `m0` from index `s` on, giving `mem`, and `p` is just past it.
pub open spec fn written(m0: Seq<u8>, s: int, acc: Seq<u8>, mem: Seq<u8>, p: int) -> bool {
    &&& 0 <= s
    &&& s + acc.len() <= m0.len()
    &&& mem == splice(m0, s, acc)
    &&& p == s + acc.len()
}

/// Appends the byte `d` to what was written into `m0` from `s` on.
fn put8(mem: &mut Vec<u8>, p: &mut usize, d: u8, m0: Ghost<Seq<u8>>, s: Ghost<int>, acc: Ghost<Seq<u8>>) -> (r:
    Ghost<Seq<u8>>)
    requires
        written(m0@, s@, acc@, old(mem)@, *old(p) as int),
        s@ + acc@.len() + 1 <= m0@.len(),
    ensures
        r@ == acc@ + seq![d],
        written(m0@, s@, r@, final(mem)@, *final(p) as int),
{
    proof {
        lemma_splice_concat(m0@, s@, acc@, seq![d]);
    }
    addbyte(mem, p, d);
    Ghost(acc@ + seq![d])
}

/// Appends the 16-bit word `d` to what was written into `m0` from `s` on.
fn put16(mem: &mut Vec<u8>, p: &mut usize, d: u16, m0: Ghost<Seq<u8>>, s: Ghost<int>, acc: Ghost<Seq<u8>>) -> (r:
    Ghost<Seq<u8>>)
    requires
        written(m0@, s@, acc@, old(mem)@, *old(p) as int),
        s@ + acc@.len() + 2 <= m0@.len(),
    ensures
        r@ == acc@ + le16(d),
        written(m0@, s@, r@, final(mem)@, *final(p) as int),
{
    proof {
        lemma_splice_concat(m0@, s@, acc@, le16(d));
    }
    addshort(mem, p, d);
    Ghost(acc@ + le16(d))
}

/// Appends the 32-bit word `d` to what was written into `m0` from `s` on.
fn put32(mem: &mut Vec<u8>, p: &mut usize, d: u32, m0: Ghost<Seq<u8>>, s: Ghost<int>, acc: Ghost<Seq<u8>>) -> (r:
    Ghost<Seq<u8>>)
    requires
        written(m0@, s@, acc@, old(mem)@, *old(p) as int),
        s@ + acc@.len() + 4 <= m0@.len(),
    ensures
        r@ == acc@ + le32(d),
        written(m0@, s@, r@, final(mem)@, *final(p) as int),
{
    proof {
        lemma_splice_concat(m0@, s@, acc@, le32(d));
    }
    addword(mem, p, d);
    Ghost(acc@ + le32(d))
}

/// Size of the GPU memory the triangle self-test allocates.
pub const TRI_MEM_SIZE: u32 = 0x800000;

/// Where the self-test's vertex list (three vertex indices) lies in its memory.
pub const TRI_VERTEX_LIST: usize = 0x70;

/// Where the self-test's shader record lies.
pub const TRI_SHADER_RECORD: usize = 0x80;

/// Where the self-test's vertex data lies.
pub const TRI_VERTEX_DATA: usize = 0xa0;

/// Where the binner keeps its tile state data.
pub const TRI_TILE_STATE: u32 = 0x100;

/// Where the binner's tile allocation memory starts, and its size.
pub const TRI_TILE_ALLOC: u32 = 0x6200;

pub const TRI_TILE_ALLOC_SIZE: u32 = 0x8000;

/// Where the self-test's render control list starts.
pub const TRI_RENDER_LIST: usize = 0xe200;

/// Where the fragment shader's code and uniforms lie.
pub const TRI_FRAGMENT_SHADER: usize = 0xfe00;

pub const TRI_FRAGMENT_UNIFORMS: u32 = 0xff00;

/// Where the frame is rendered to.
pub const TRI_FRAMEBUFFER: u32 = 0x10000;

/// Tiles of 64x64 pixels across and down a 1920x1080 frame.
pub const TRI_TILES_X: u8 = 30;

pub const TRI_TILES_Y: u8 = 17;

/// The bit pattern of the 32-bit float 1.0, as vertex fields hold it.
pub const FLOAT_ONE_BITS: u32 = 0x3f80_0000;

/// `bus + off` as the 32-bit bus address it is when it does not overflow.
pub open spec fn bus_at(bus: u32, off: u32) -> u32 {
    (bus + off) as u32
}

/// The binner control list: configure tile binning (tile allocation memory and its size, tile
/// state, 30x17 tiles, auto-initialised tile state), start binning, 16-bit triangles, the
/// clip window, the state bits, the viewport offset, the shader state, an indexed triangle
/// list of 3 vertices, then flush, nop and halt.
pub open spec fn triangle_bin_list(bus: u32) -> Seq<u8> {
    seq![112u8] + le32(bus_at(bus, TRI_TILE_ALLOC)) + le32(TRI_TILE_ALLOC_SIZE) + le32(
        bus_at(bus, TRI_TILE_STATE),
    ) + seq![30u8, 17u8, 0x04u8] + seq![6u8] + seq![56u8, 0x32u8] + seq![102u8] + le16(0) + le16(0)
        + le16(1920) + le16(1080) + seq![96u8, 0x03u8, 0x00u8, 0x02u8] + seq![103u8] + le16(0) + le16(
        0,
    ) + seq![65u8] + le32(bus_at(bus, TRI_SHADER_RECORD as u32)) + seq![32u8, 0x04u8] + le32(3)
        + le32(bus_at(bus, TRI_VERTEX_LIST as u32)) + le32(2) + seq![5u8, 1u8, 0u8]
}

/// The shader record: flags, a stride of 24 bytes, the (unused) uniform count, 3 varyings, and
/// the addresses of the fragment shader code, its uniforms and the vertex data.
pub open spec fn triangle_shader_record(bus: u32) -> Seq<u8> {
    seq![0x01u8, 24u8, 0xccu8, 3u8] + le32(bus_at(bus, TRI_FRAGMENT_SHADER as u32)) + le32(
        bus_at(bus, TRI_FRAGMENT_UNIFORMS),
    ) + le32(bus_at(bus, TRI_VERTEX_DATA as u32))
}

/// One vertex: X and Y in 12.4 fixed point, then Z, 1/W and the red, green and blue varyings
/// as float bit patterns.
pub open spec fn triangle_vertex(x: u16, y: u16, r: u32, g: u32, b: u32) -> Seq<u8> {
    le16(x) + le16(y) + le32(FLOAT_ONE_BITS) + le32(FLOAT_ONE_BITS) + le32(r) + le32(g) + le32(b)
}

/// The three vertices: the red top at (960, 200), the green bottom left at (560, 800) and the
/// blue bottom right at (1360, 800).
pub open spec fn triangle_vertex_data() -> Seq<u8> {
    triangle_vertex((960 * 16) as u16, (200 * 16) as u16, FLOAT_ONE_BITS, 0, 0) + triangle_vertex(
        (560 * 16) as u16,
        (800 * 16) as u16,
        0,
        FLOAT_ONE_BITS,
        0,
    ) + triangle_vertex((1360 * 16) as u16, (800 * 16) as u16, 0, 0, FLOAT_ONE_BITS)
}

/// The vertex list: top, bottom left, bottom right.
pub open spec fn triangle_vertex_list() -> Seq<u8> {
    seq![0u8, 1u8, 2u8]
}

/// The fragment shader: nine instructions of two words each, which add the varyings to the
/// interpolation constant, pack them into a color, write it to the tile buffer and end the
/// thread.
pub open spec fn triangle_fragment_shader() -> Seq<u8> {
    le32(0x958e0dbf) + le32(0xd1724823) + le32(0x818e7176) + le32(0x40024821) + le32(0x818e7376) + le32(0x10024862) + le32(0x819e7540) + le32(0x114248a3) + le32(0x809e7009) + le32(0x115049e3) + le32(0x809e7012) + le32(0x116049e3) + le32(0x159e76c0) + le32(0x30020ba7) + le32(0x009e7000) + le32(0x100009e7) + le32(0x009e7000) + le32(0x500009e7)
}

/// The start of the render control list: clear to opaque black, configure rendering to the
/// 1920x1080 linear RGBA8888 frame, and store the first tile without writing, which clears the
/// tile buffer.
pub open spec fn triangle_render_header(bus: u32) -> Seq<u8> {
    seq![114u8] + le32(0xff000000) + le32(0xff000000) + le32(0) + seq![0u8] + seq![113u8] + le32(
        bus_at(bus, TRI_FRAMEBUFFER),
    ) + le16(1920) + le16(1080) + seq![0x04u8, 0x00u8] + seq![115u8, 0u8, 0u8] + seq![28u8]
        + le16(0) + le32(0)
}

/// Where the binned list of tile `(x, y)` starts.
pub open spec fn triangle_tile_list(bus: u32, x: int, y: int) -> int {
    bus + TRI_TILE_ALLOC + (y * TRI_TILES_X + x) * 32
}

/// Tile `(x, y)` of the render list: select it, branch to its binned list, and store the
/// resolved color buffer, ending the frame after the last tile.
pub open spec fn triangle_tile(bus: u32, x: int, y: int) -> Seq<u8> {
    seq![115u8, x as u8, y as u8] + seq![17u8] + le32(triangle_tile_list(bus, x, y) as u32) + seq![
        if x == TRI_TILES_X - 1 && y == TRI_TILES_Y - 1 {
            25u8
        } else {
            24u8
        },
    ]
}

/// The tiles `(x, 0..y_end)` of column `x`.
pub open spec fn triangle_column(bus: u32, x: int, y_end: int) -> Seq<u8>
    decreases y_end,
{
    if y_end <= 0 {
        Seq::empty()
    } else {
        triangle_column(bus, x, y_end - 1) + triangle_tile(bus, x, y_end - 1)
    }
}

/// The whole columns `0..x_end`.
pub open spec fn triangle_columns(bus: u32, x_end: int) -> Seq<u8>
    decreases x_end,
{
    if x_end <= 0 {
        Seq::empty()
    } else {
        triangle_columns(bus, x_end - 1) + triangle_column(bus, x_end - 1, TRI_TILES_Y as int)
    }
}

/// The render control list: the header, then every tile column by column.
pub open spec fn triangle_render_list(bus: u32) -> Seq<u8> {
    triangle_render_header(bus) + triangle_columns(bus, TRI_TILES_X as int)
}

/// The memory of the self-test once its lists and data are written into `m`.
pub open spec fn triangle_scene(m: Seq<u8>, bus: u32) -> Seq<u8> {
    splice(
        splice(
            splice(
                splice(
                    splice(splice(m, 0, triangle_bin_list(bus)), TRI_SHADER_RECORD as int, triangle_shader_record(bus)),
                    TRI_VERTEX_DATA as int,
                    triangle_vertex_data(),
                ),
                TRI_VERTEX_LIST as int,
                triangle_vertex_list(),
            ),
            TRI_FRAGMENT_SHADER as int,
            triangle_fragment_shader(),
        ),
        TRI_RENDER_LIST as int,
        triangle_render_list(bus),
    )
}

/// Each column is 9 bytes per tile.
proof fn lemma_column_len(bus: u32, x: int, y_end: int)
    requires
        0 <= y_end,
    ensures
        triangle_column(bus, x, y_end).len() == 9 * y_end,
    decreases y_end,
{
    if y_end > 0 {
        lemma_column_len(bus, x, y_end - 1);
    }
}

/// All columns are 9 bytes per tile.
proof fn lemma_columns_len(bus: u32, x_end: int)
    requires
        0 <= x_end,
    ensures
        triangle_columns(bus, x_end).len() == 9 * 17 * x_end,
    decreases x_end,
{
    if x_end > 0 {
        lemma_columns_len(bus, x_end - 1);
        lemma_column_len(bus, x_end - 1, TRI_TILES_Y as int);
        assert(triangle_columns(bus, x_end) == triangle_columns(bus, x_end - 1) + triangle_column(
            bus,
            x_end - 1,
            TRI_TILES_Y as int,
        ));
        assert(triangle_column(bus, x_end - 1, TRI_TILES_Y as int).len() == 153);
        assert(triangle_columns(bus, x_end - 1).len() == 153 * (x_end - 1));
        assert(triangle_columns(bus, x_end).len() == 153 * x_end);
    } else {
        assert(triangle_columns(bus, x_end).len() == 0);
    }
}

/// The lengths of the self-test's lists: 59 bytes of binner list and 4625 of render list.
pub proof fn lemma_triangle_lengths(bus: u32)
    ensures
        triangle_bin_list(bus).len() == 59,
        triangle_shader_record(bus).len() == 16,
        triangle_vertex_data().len() == 72,
        triangle_fragment_shader().len() == 72,
        triangle_render_list(bus).len() == 4625,
{
    lemma_columns_len(bus, 30);
}

/// The parts of the self-test's memory do not overlap: the binner list ends before the vertex
/// list (well under 0x80 bytes), the vertex list before the shader record, the shader record
/// before the vertex data, the vertex data before the tile state; the render list starts where
/// the tile allocation memory ends and ends before the fragment shader, which ends before its
/// uniforms and the frame.
pub proof fn lemma_triangle_layout(bus: u32)
    ensures
        triangle_bin_list(bus).len() <= TRI_VERTEX_LIST,
        TRI_VERTEX_LIST + triangle_vertex_list().len() <= TRI_SHADER_RECORD,
        TRI_SHADER_RECORD + triangle_shader_record(bus).len() <= TRI_VERTEX_DATA,
        TRI_VERTEX_DATA + triangle_vertex_data().len() <= TRI_TILE_STATE,
        TRI_TILE_ALLOC + TRI_TILE_ALLOC_SIZE == TRI_RENDER_LIST,
        TRI_RENDER_LIST + triangle_render_list(bus).len() <= TRI_FRAGMENT_SHADER,
        TRI_FRAGMENT_SHADER + triangle_fragment_shader().len() <= TRI_FRAGMENT_UNIFORMS,
        TRI_FRAGMENT_UNIFORMS < TRI_FRAMEBUFFER,
{
    lemma_triangle_lengths(bus);
}

/// Every tile's binned list, 32 bytes from where the render list branches to, lies inside the
/// tile allocation memory.
pub proof fn lemma_triangle_tile_lists_inside(bus: u32, x: int, y: int)
    requires
        0 <= x < TRI_TILES_X,
        0 <= y < TRI_TILES_Y,
    ensures
        bus + TRI_TILE_ALLOC <= triangle_tile_list(bus, x, y),
        triangle_tile_list(bus, x, y) + 32 <= bus + TRI_TILE_ALLOC + TRI_TILE_ALLOC_SIZE,
{
    assert(0 <= (y * 30 + x) * 32 && (y * 30 + x) * 32 + 32 <= 0x8000) by (nonlinear_arith)
        requires
            0 <= x < 30,
            0 <= y < 17,
    ;
}


/// Writes the binner control list at the start of `mem`; returns its length.
fn write_triangle_bin_list(mem: &mut Vec<u8>, bus: u32) -> (r: usize)
    requires
        bus + TRI_FRAMEBUFFER <= u32::MAX,
        TRI_VERTEX_LIST <= old(mem)@.len(),
    ensures
        final(mem)@ == splice(old(mem)@, 0, triangle_bin_list(bus)),
        r == triangle_bin_list(bus).len(),
{
    let m0: Ghost<Seq<u8>> = Ghost(mem@);
    let s: Ghost<int> = Ghost(0);
    let g: Ghost<Seq<u8>> = Ghost(Seq::empty());
    let mut p: usize = 0;
    proof {
        assert(splice(m0@, 0, Seq::empty()) =~= m0@);
    }
    let g = put8(mem, &mut p, 112, m0, s, g);
    let g = put32(mem, &mut p, bus + TRI_TILE_ALLOC, m0, s, g);
    let g = put32(mem, &mut p, TRI_TILE_ALLOC_SIZE, m0, s, g);
    let g = put32(mem, &mut p, bus + TRI_TILE_STATE, m0, s, g);
    let g = put8(mem, &mut p, TRI_TILES_X, m0, s, g);
    let g = put8(mem, &mut p, TRI_TILES_Y, m0, s, g);
    let g = put8(mem, &mut p, 0x04, m0, s, g);
    let g = put8(mem, &mut p, 6, m0, s, g);
    let g = put8(mem, &mut p, 56, m0, s, g);
    let g = put8(mem, &mut p, 0x32, m0, s, g);
    let g = put8(mem, &mut p, 102, m0, s, g);
    let g = put16(mem, &mut p, 0, m0, s, g);
    let g = put16(mem, &mut p, 0, m0, s, g);
    let g = put16(mem, &mut p, 1920, m0, s, g);
    let g = put16(mem, &mut p, 1080, m0, s, g);
    let g = put8(mem, &mut p, 96, m0, s, g);
    let g = put8(mem, &mut p, 0x03, m0, s, g);
    let g = put8(mem, &mut p, 0x00, m0, s, g);
    let g = put8(mem, &mut p, 0x02, m0, s, g);
    let g = put8(mem, &mut p, 103, m0, s, g);
    let g = put16(mem, &mut p, 0, m0, s, g);
    let g = put16(mem, &mut p, 0, m0, s, g);
    let g = put8(mem, &mut p, 65, m0, s, g);
    let g = put32(mem, &mut p, bus + TRI_SHADER_RECORD as u32, m0, s, g);
    let g = put8(mem, &mut p, 32, m0, s, g);
    let g = put8(mem, &mut p, 0x04, m0, s, g);
    let g = put32(mem, &mut p, 3, m0, s, g);
    let g = put32(mem, &mut p, bus + TRI_VERTEX_LIST as u32, m0, s, g);
    let g = put32(mem, &mut p, 2, m0, s, g);
    let g = put8(mem, &mut p, 5, m0, s, g);
    let g = put8(mem, &mut p, 1, m0, s, g);
    let g = put8(mem, &mut p, 0, m0, s, g);
    assert(g@ =~= triangle_bin_list(bus));
    p
}

/// Writes the shader record at `TRI_SHADER_RECORD` in `mem`.
fn write_triangle_shader_record(mem: &mut Vec<u8>, bus: u32)
    requires
        bus + TRI_FRAMEBUFFER <= u32::MAX,
        TRI_VERTEX_DATA <= old(mem)@.len(),
    ensures
        final(mem)@ == splice(old(mem)@, TRI_SHADER_RECORD as int, triangle_shader_record(bus)),
{
    let m0: Ghost<Seq<u8>> = Ghost(mem@);
    let s: Ghost<int> = Ghost(TRI_SHADER_RECORD as int);
    let g: Ghost<Seq<u8>> = Ghost(Seq::empty());
    let mut p: usize = TRI_SHADER_RECORD;
    proof {
        assert(splice(m0@, s@, Seq::empty()) =~= m0@);
    }
    let g = put8(mem, &mut p, 0x01, m0, s, g);
    let g = put8(mem, &mut p, 6 * 4, m0, s, g);
    let g = put8(mem, &mut p, 0xcc, m0, s, g);
    let g = put8(mem, &mut p, 3, m0, s, g);
    let g = put32(mem, &mut p, bus + TRI_FRAGMENT_SHADER as u32, m0, s, g);
    let g = put32(mem, &mut p, bus + TRI_FRAGMENT_UNIFORMS, m0, s, g);
    let g = put32(mem, &mut p, bus + TRI_VERTEX_DATA as u32, m0, s, g);
    assert(g@ =~= triangle_shader_record(bus));
}

/// Writes the three vertices at `TRI_VERTEX_DATA` in `mem`.
fn write_triangle_vertex_data(mem: &mut Vec<u8>)
    requires
        TRI_TILE_STATE <= old(mem)@.len(),
    ensures
        final(mem)@ == splice(old(mem)@, TRI_VERTEX_DATA as int, triangle_vertex_data()),
{
    let m0: Ghost<Seq<u8>> = Ghost(mem@);
    let s: Ghost<int> = Ghost(TRI_VERTEX_DATA as int);
    let g: Ghost<Seq<u8>> = Ghost(Seq::empty());
    let mut p: usize = TRI_VERTEX_DATA;
    proof {
        assert(splice(m0@, s@, Seq::empty()) =~= m0@);
        assert(960u16 << 4u16 == 960 * 16 && 200u16 << 4u16 == 200 * 16 && 560u16 << 4u16 == 560 * 16
            && 800u16 << 4u16 == 800 * 16 && 1360u16 << 4u16 == 1360 * 16) by (bit_vector);
    }
    let g = put16(mem, &mut p, (1920 / 2) << 4, m0, s, g);
    let g = put16(mem, &mut p, 200 << 4, m0, s, g);
    let g = put32(mem, &mut p, FLOAT_ONE_BITS, m0, s, g);
    let g = put32(mem, &mut p, FLOAT_ONE_BITS, m0, s, g);
    let g = put32(mem, &mut p, FLOAT_ONE_BITS, m0, s, g);
    let g = put32(mem, &mut p, 0, m0, s, g);
    let g = put32(mem, &mut p, 0, m0, s, g);
    let g = put16(mem, &mut p, 560 << 4, m0, s, g);
    let g = put16(mem, &mut p, 800 << 4, m0, s, g);
    let g = put32(mem, &mut p, FLOAT_ONE_BITS, m0, s, g);
    let g = put32(mem, &mut p, FLOAT_ONE_BITS, m0, s, g);
    let g = put32(mem, &mut p, 0, m0, s, g);
    let g = put32(mem, &mut p, FLOAT_ONE_BITS, m0, s, g);
    let g = put32(mem, &mut p, 0, m0, s, g);
    let g = put16(mem, &mut p, 1360 << 4, m0, s, g);
    let g = put16(mem, &mut p, 800 << 4, m0, s, g);
    let g = put32(mem, &mut p, FLOAT_ONE_BITS, m0, s, g);
    let g = put32(mem, &mut p, FLOAT_ONE_BITS, m0, s, g);
    let g = put32(mem, &mut p, 0, m0, s, g);
    let g = put32(mem, &mut p, 0, m0, s, g);
    let g = put32(mem, &mut p, FLOAT_ONE_BITS, m0, s, g);
    assert(g@ =~= triangle_vertex_data());
}

/// Writes the vertex list at `TRI_VERTEX_LIST` in `mem`.
fn write_triangle_vertex_list(mem: &mut Vec<u8>)
    requires
        TRI_SHADER_RECORD <= old(mem)@.len(),
    ensures
        final(mem)@ == splice(old(mem)@, TRI_VERTEX_LIST as int, triangle_vertex_list()),
{
    let m0: Ghost<Seq<u8>> = Ghost(mem@);
    let s: Ghost<int> = Ghost(TRI_VERTEX_LIST as int);
    let g: Ghost<Seq<u8>> = Ghost(Seq::empty());
    let mut p: usize = TRI_VERTEX_LIST;
    proof {
        assert(splice(m0@, s@, Seq::empty()) =~= m0@);
    }
    let g = put8(mem, &mut p, 0, m0, s, g);
    let g = put8(mem, &mut p, 1, m0, s, g);
    let g = put8(mem, &mut p, 2, m0, s, g);
    assert(g@ =~= triangle_vertex_list());
}


/// Writes the fragment shader at `TRI_FRAGMENT_SHADER` in `mem`.
fn write_triangle_fragment_shader(mem: &mut Vec<u8>)
    requires
        TRI_FRAGMENT_SHADER + triangle_fragment_shader().len() <= old(mem)@.len(),
    ensures
        final(mem)@ == splice(old(mem)@, TRI_FRAGMENT_SHADER as int, triangle_fragment_shader()),
{
    let m0: Ghost<Seq<u8>> = Ghost(mem@);
    let s: Ghost<int> = Ghost(TRI_FRAGMENT_SHADER as int);
    let g: Ghost<Seq<u8>> = Ghost(Seq::empty());
    let mut p: usize = TRI_FRAGMENT_SHADER;
    proof {
        assert(splice(m0@, s@, Seq::empty()) =~= m0@);
    }
    let g = put32(mem, &mut p, 0x958e0dbf, m0, s, g);
    let g = put32(mem, &mut p, 0xd1724823, m0, s, g);
    let g = put32(mem, &mut p, 0x818e7176, m0, s, g);
    let g = put32(mem, &mut p, 0x40024821, m0, s, g);
    let g = put32(mem, &mut p, 0x818e7376, m0, s, g);
    let g = put32(mem, &mut p, 0x10024862, m0, s, g);
    let g = put32(mem, &mut p, 0x819e7540, m0, s, g);
    let g = put32(mem, &mut p, 0x114248a3, m0, s, g);
    let g = put32(mem, &mut p, 0x809e7009, m0, s, g);
    let g = put32(mem, &mut p, 0x115049e3, m0, s, g);
    let g = put32(mem, &mut p, 0x809e7012, m0, s, g);
    let g = put32(mem, &mut p, 0x116049e3, m0, s, g);
    let g = put32(mem, &mut p, 0x159e76c0, m0, s, g);
    let g = put32(mem, &mut p, 0x30020ba7, m0, s, g);
    let g = put32(mem, &mut p, 0x009e7000, m0, s, g);
    let g = put32(mem, &mut p, 0x100009e7, m0, s, g);
    let g = put32(mem, &mut p, 0x009e7000, m0, s, g);
    let g = put32(mem, &mut p, 0x500009e7, m0, s, g);
    assert(g@ =~= triangle_fragment_shader());
}

/// Writes the render control list at `TRI_RENDER_LIST` in `mem`; returns its length.
fn write_triangle_render_list(mem: &mut Vec<u8>, bus: u32) -> (r: usize)
    requires
        bus + TRI_FRAMEBUFFER <= u32::MAX,
        TRI_FRAGMENT_SHADER <= old(mem)@.len(),
    ensures
        final(mem)@ == splice(old(mem)@, TRI_RENDER_LIST as int, triangle_render_list(bus)),
        r == triangle_render_list(bus).len(),
{
    let m0: Ghost<Seq<u8>> = Ghost(mem@);
    let s: Ghost<int> = Ghost(TRI_RENDER_LIST as int);
    let g: Ghost<Seq<u8>> = Ghost(Seq::empty());
    let mut p: usize = TRI_RENDER_LIST;
    proof {
        assert(splice(m0@, s@, Seq::empty()) =~= m0@);
        lemma_triangle_lengths(bus);
    }
    let g = put8(mem, &mut p, 114, m0, s, g);
    let g = put32(mem, &mut p, 0xff000000, m0, s, g);
    let g = put32(mem, &mut p, 0xff000000, m0, s, g);
    let g = put32(mem, &mut p, 0, m0, s, g);
    let g = put8(mem, &mut p, 0, m0, s, g);
    let g = put8(mem, &mut p, 113, m0, s, g);
    let g = put32(mem, &mut p, bus + TRI_FRAMEBUFFER, m0, s, g);
    let g = put16(mem, &mut p, 1920, m0, s, g);
    let g = put16(mem, &mut p, 1080, m0, s, g);
    let g = put8(mem, &mut p, 0x04, m0, s, g);
    let g = put8(mem, &mut p, 0x00, m0, s, g);
    let g = put8(mem, &mut p, 115, m0, s, g);
    let g = put8(mem, &mut p, 0, m0, s, g);
    let g = put8(mem, &mut p, 0, m0, s, g);
    let g = put8(mem, &mut p, 28, m0, s, g);
    let g = put16(mem, &mut p, 0, m0, s, g);
    let g = put32(mem, &mut p, 0, m0, s, g);
    assert(g@ =~= triangle_render_header(bus));
    let ghost header = triangle_render_header(bus);
    let mut x: u8 = 0;
    while x < TRI_TILES_X
        invariant
            0 <= x <= TRI_TILES_X,
            bus + TRI_FRAMEBUFFER <= u32::MAX,
            s@ == TRI_RENDER_LIST,
            s@ + triangle_render_list(bus).len() <= m0@.len(),
            header == triangle_render_header(bus),
            header.len() == 35,
            written(m0@, s@, header + triangle_columns(bus, x as int), mem@, p as int),
        decreases TRI_TILES_X - x,
    {
        let mut y: u8 = 0;
        proof {
            lemma_columns_len(bus, x as int);
            lemma_columns_len(bus, TRI_TILES_X as int);
            assert(header + triangle_columns(bus, x as int) + triangle_column(bus, x as int, 0) =~= header
                + triangle_columns(bus, x as int));
        }
        while y < TRI_TILES_Y
            invariant
                0 <= x < TRI_TILES_X,
                0 <= y <= TRI_TILES_Y,
                bus + TRI_FRAMEBUFFER <= u32::MAX,
                s@ == TRI_RENDER_LIST,
                s@ + triangle_render_list(bus).len() <= m0@.len(),
                header == triangle_render_header(bus),
                header.len() == 35,
                triangle_columns(bus, x as int).len() == 153 * x,
                triangle_render_list(bus).len() == 35 + 153 * 30,
                written(
                    m0@,
                    s@,
                    header + triangle_columns(bus, x as int) + triangle_column(bus, x as int, y as int),
                    mem@,
                    p as int,
                ),
            decreases TRI_TILES_Y - y,
        {
            proof {
                lemma_column_len(bus, x as int, y as int);
            }
            let ghost acc = header + triangle_columns(bus, x as int) + triangle_column(bus, x as int, y as int);
            let g: Ghost<Seq<u8>> = Ghost(acc);
            let g = put8(mem, &mut p, 115, m0, s, g);
            let g = put8(mem, &mut p, x, m0, s, g);
            let g = put8(mem, &mut p, y, m0, s, g);
            let g = put8(mem, &mut p, 17, m0, s, g);
            assert((y as u32) * 30 + (x as u32) <= 16 * 30 + 29) by (nonlinear_arith)
                requires
                    x < 30,
                    y < 17,
            ;
            let g = put32(mem, &mut p, bus + TRI_TILE_ALLOC + ((y as u32) * 30 + (x as u32)) * 32, m0, s, g);
            let code: u8 = if x == 29 && y == 16 {
                25
            } else {
                24
            };
            let g = put8(mem, &mut p, code, m0, s, g);
            proof {
                assert(g@ =~= header + triangle_columns(bus, x as int) + triangle_column(bus, x as int, y + 1));
            }
            y = y + 1;
        }
        proof {
            assert(header + triangle_columns(bus, x as int) + triangle_column(bus, x as int, TRI_TILES_Y as int)
                =~= header + triangle_columns(bus, x + 1));
        }
        x = x + 1;
    }
    p - TRI_RENDER_LIST
}

/// Writes the triangle self-test into `mem`, the test's GPU memory at bus address `bus`: the
/// binner list, shader record, vertex data, vertex list, fragment shader and render list (see
/// `triangle_scene`). Returns the lengths of the binner list and of the render list, which the
/// control list executor threads are then pointed at.
pub fn build_triangle_scene(mem: &mut Vec<u8>, bus: u32) -> (r: (usize, usize))
    requires
        bus + TRI_FRAMEBUFFER <= u32::MAX,
        TRI_FRAGMENT_SHADER + triangle_fragment_shader().len() <= old(mem)@.len(),
    ensures
        final(mem)@ == triangle_scene(old(mem)@, bus),
        r.0 == triangle_bin_list(bus).len(),
        r.1 == triangle_render_list(bus).len(),
{
    proof {
        lemma_triangle_lengths(bus);
    }
    let length = write_triangle_bin_list(mem, bus);
    write_triangle_shader_record(mem, bus);
    write_triangle_vertex_data(mem);
    write_triangle_vertex_list(mem);
    write_triangle_fragment_shader(mem);
    let render_length = write_triangle_render_list(mem, bus);
    (length, render_length)
}

} // verus!
