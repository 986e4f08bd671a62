//! The render control list: checking the surfaces a job renders from and to, and writing the
//! list that loads, renders and stores every tile of the render area.
use vstd::prelude::*;
use crate::bytes::{le16, le32};
use crate::cl::{vc4_cl, lemma_wrote_trans, lemma_wrote_nothing, lemma_room_left, push_u8, push_u16, push_u32};
use crate::bytes::{lemma_splice_basics};
use crate::device::{gpu_bo, GpuDevice, Vc4Error, VC4_BO_TYPE_RCL};
use crate::gem::{vc4_exec_info, drm_vc4_submit_rcl_surface};
use crate::packet::{
    vc4_packet, packet_code, VC4_PACKET_TILE_RENDERING_MODE_CONFIG_SIZE,
    VC4_PACKET_TILE_COORDINATES_SIZE, VC4_PACKET_CLEAR_COLORS_SIZE,
    VC4_PACKET_STORE_TILE_BUFFER_GENERAL_SIZE, VC4_PACKET_LOAD_TILE_BUFFER_GENERAL_SIZE,
    VC4_PACKET_WAIT_ON_SEMAPHORE_SIZE, VC4_PACKET_BRANCH_TO_SUB_LIST_SIZE,
    VC4_PACKET_STORE_MS_TILE_BUFFER_SIZE, VC4_LOADSTORE_TILE_BUFFER_NONE,
    VC4_LOADSTORE_TILE_BUFFER_BUFFER_SHIFT, VC4_LOADSTORE_TILE_BUFFER_BUFFER_MASK,
    VC4_STORE_TILE_BUFFER_DISABLE_COLOR_CLEAR, VC4_STORE_TILE_BUFFER_DISABLE_ZS_CLEAR,
    VC4_STORE_TILE_BUFFER_DISABLE_VG_MASK_CLEAR, VC4_LOADSTORE_TILE_BUFFER_EOF,
    VC4_LOADSTORE_TILE_BUFFER_TILING_SHIFT, VC4_LOADSTORE_TILE_BUFFER_TILING_MASK,
    VC4_LOADSTORE_TILE_BUFFER_FORMAT_SHIFT, VC4_LOADSTORE_TILE_BUFFER_FORMAT_MASK,
    VC4_TILING_FORMAT_LINEAR, VC4_TILING_FORMAT_T, VC4_TILING_FORMAT_LT, VC4_LOADSTORE_TILE_BUFFER_ZS, VC4_LOADSTORE_TILE_BUFFER_COLOR,
    VC4_LOADSTORE_TILE_BUFFER_BGR565, VC4_LOADSTORE_TILE_BUFFER_BGR565_DITHER,
    VC4_LOADSTORE_TILE_BUFFER_RGBA8888, VC4_RENDER_CONFIG_MEMORY_FORMAT_SHIFT,
    VC4_RENDER_CONFIG_MEMORY_FORMAT_MASK, VC4_RENDER_CONFIG_FORMAT_SHIFT,
    VC4_RENDER_CONFIG_FORMAT_MASK, VC4_RENDER_CONFIG_FORMAT_BGR565_DITHERED,
    VC4_RENDER_CONFIG_FORMAT_BGR565, VC4_RENDER_CONFIG_FORMAT_RGBA8888,
};

verus! {

/// Bit 0 of the submit flags: clear the tile buffer to the job's clear values first.
pub const VC4_SUBMIT_CL_USE_CLEAR_COLOR: u32 = 1;

/// `value` placed at bit `shift`, keeping only the bits of `mask`.
pub open spec fn set_field16_spec(value: u16, shift: u16, mask: u16) -> u16 {
    ((value << shift) & mask) as u16
}

/// `(value & mask) >> shift`, cut to a byte.
pub open spec fn get_field16_spec(value: u16, shift: u16, mask: u16) -> u8 {
    ((value & mask) >> shift) as u8
}

/// Places `value` at bit `shift` and keeps only the bits of `mask`.
pub fn vc4_set_field(value: u16, shift: u16, mask: u16) -> (r: u16)
    requires
        shift < 16,
    ensures
        r == set_field16_spec(value, shift, mask),
{
    let fieldvar: u16 = value << shift;
    fieldvar & mask
}

/// Reads the field `mask` of `value`, shifted down to bit 0 and cut to a byte.
pub fn vc4_get_field(value: u16, shift: u16, mask: u16) -> (r: u8)
    requires
        shift < 16,
    ensures
        r == get_field16_spec(value, shift, mask),
{
    let ans = (value & mask) >> shift;
    ans as u8
}

/// The packet that selects tile `(x, y)`.
pub open spec fn tile_coordinates_bytes(x: u8, y: u8) -> Seq<u8> {
    seq![packet_code(vc4_packet::VC4_PACKET_TILE_COORDINATES), x, y]
}

/// The bits of a store in "none" mode that only clears the tile buffer.
pub open spec fn store_before_load_bits() -> u16 {
    (set_field16_spec(
        VC4_LOADSTORE_TILE_BUFFER_NONE,
        VC4_LOADSTORE_TILE_BUFFER_BUFFER_SHIFT,
        VC4_LOADSTORE_TILE_BUFFER_BUFFER_MASK,
    ) | VC4_STORE_TILE_BUFFER_DISABLE_COLOR_CLEAR | VC4_STORE_TILE_BUFFER_DISABLE_ZS_CLEAR
        | VC4_STORE_TILE_BUFFER_DISABLE_VG_MASK_CLEAR) as u16
}

/// A general store that writes nothing and clears nothing, which makes an outstanding load
/// happen.
pub open spec fn store_before_load_bytes() -> Seq<u8> {
    seq![packet_code(vc4_packet::VC4_PACKET_STORE_TILE_BUFFER_GENERAL)] + le16(
        store_before_load_bits(),
    ) + le32(0)
}

impl vc4_cl {
    /// Appends the packet that selects tile `(x, y)`.
    pub fn vc4_tile_coordinates(&mut self, x: u8, y: u8)
        requires
            old(self).has_room(3),
        ensures
            old(self).wrote(*final(self), tile_coordinates_bytes(x, y)),
    {
        let ghost s0 = *self;
        self.cl_u8(vc4_packet::VC4_PACKET_TILE_COORDINATES.code());
        let ghost s1 = *self;
        self.cl_u8(x);
        proof {
            lemma_wrote_trans(s0, s1, *self, seq![packet_code(vc4_packet::VC4_PACKET_TILE_COORDINATES)], seq![x]);
        }
        let ghost s2 = *self;
        self.cl_u8(y);
        proof {
            lemma_wrote_trans(s0, s2, *self, seq![packet_code(vc4_packet::VC4_PACKET_TILE_COORDINATES)] + seq![x], seq![y]);
            assert(seq![packet_code(vc4_packet::VC4_PACKET_TILE_COORDINATES)] + seq![x] + seq![y] =~= tile_coordinates_bytes(x, y));
        }
    }

    /// Appends a store that writes nothing and clears nothing.
    pub fn vc4_store_before_load(&mut self)
        requires
            old(self).has_room(7),
        ensures
            old(self).wrote(*final(self), store_before_load_bytes()),
    {
        let ghost s0 = *self;
        self.cl_u8(vc4_packet::VC4_PACKET_STORE_TILE_BUFFER_GENERAL.code());
        let ghost s1 = *self;
        let bits = vc4_set_field(
            VC4_LOADSTORE_TILE_BUFFER_NONE,
            VC4_LOADSTORE_TILE_BUFFER_BUFFER_SHIFT,
            VC4_LOADSTORE_TILE_BUFFER_BUFFER_MASK,
        ) | VC4_STORE_TILE_BUFFER_DISABLE_COLOR_CLEAR | VC4_STORE_TILE_BUFFER_DISABLE_ZS_CLEAR
            | VC4_STORE_TILE_BUFFER_DISABLE_VG_MASK_CLEAR;
        self.cl_u16(bits);
        proof {
            lemma_wrote_trans(s0, s1, *self, seq![packet_code(vc4_packet::VC4_PACKET_STORE_TILE_BUFFER_GENERAL)], le16(bits));
        }
        let ghost s2 = *self;
        self.cl_u32(0);
        proof {
            lemma_wrote_trans(s0, s2, *self, seq![packet_code(vc4_packet::VC4_PACKET_STORE_TILE_BUFFER_GENERAL)] + le16(bits), le32(0));
        }
    }
}

/// The render setup of a job: the buffer objects of its surfaces and the render list.
pub struct vc4_rcl_setup {
    pub color_read: Option<gpu_bo>,
    pub color_write: Option<gpu_bo>,
    pub zs_read: Option<gpu_bo>,
    pub zs_write: Option<gpu_bo>,
    pub rcl: vc4_cl,
}

/// The four surfaces: color read, color write, Z/stencil read, Z/stencil write.
pub type Surfaces = (Option<gpu_bo>, Option<gpu_bo>, Option<gpu_bo>, Option<gpu_bo>);

impl vc4_rcl_setup {
    /// The buffer objects of the four surfaces.
    pub open spec fn surfaces(&self) -> Surfaces {
        (self.color_read, self.color_write, self.zs_read, self.zs_write)
    }
}

/// `a + b` as the 32-bit result of a sum that does not overflow.
pub open spec fn add32(a: u32, b: u32) -> u32 {
    (a + b) as u32
}

/// Where the binned list of tile `(x, y)` starts in the tile allocation array.
pub open spec fn tile_list_addr(exec: vc4_exec_info, x: u8, y: u8) -> int {
    exec.tile_alloc_offset + (y as int * exec.bin_tiles_x as int + x as int) * 32
}

/// Loading the color buffer that is read, if any.
pub open spec fn color_load_bytes(exec: vc4_exec_info, sf: Surfaces) -> Seq<u8> {
    match sf.0 {
        Some(b) => seq![packet_code(vc4_packet::VC4_PACKET_LOAD_TILE_BUFFER_GENERAL)] + le16(
            exec.args.color_read.bits,
        ) + le32(add32(b.paddr, exec.args.color_read.offset)),
        None => Seq::empty(),
    }
}

/// Loading the Z/stencil buffer that is read, if any, after making an outstanding color load
/// happen.
pub open spec fn zs_load_bytes(exec: vc4_exec_info, sf: Surfaces, x: u8, y: u8) -> Seq<u8> {
    match sf.2 {
        Some(b) => (if sf.0 is Some {
            tile_coordinates_bytes(x, y) + store_before_load_bytes()
        } else {
            Seq::empty()
        }) + seq![packet_code(vc4_packet::VC4_PACKET_LOAD_TILE_BUFFER_GENERAL)] + le16(
            exec.args.zs_read.bits,
        ) + le32(add32(b.paddr, exec.args.zs_read.offset)),
        None => Seq::empty(),
    }
}

/// Waiting for the binner, before the first tile of a job that has a binner list.
pub open spec fn wait_bytes(exec: vc4_exec_info, first: bool) -> Seq<u8> {
    if first && exec.args.bin_cl_size != 0 {
        seq![packet_code(vc4_packet::VC4_PACKET_WAIT_ON_SEMAPHORE)]
    } else {
        Seq::empty()
    }
}

/// Branching to the binned list of tile `(x, y)`, in a job that has a binner list.
pub open spec fn branch_bytes(exec: vc4_exec_info, x: u8, y: u8) -> Seq<u8> {
    if exec.args.bin_cl_size != 0 {
        seq![packet_code(vc4_packet::VC4_PACKET_BRANCH_TO_SUB_LIST)] + le32(
            tile_list_addr(exec, x, y) as u32,
        )
    } else {
        Seq::empty()
    }
}

/// Storing the Z/stencil buffer that is written, if any: when color is written too, the store
/// keeps the caller's bits and carries the end-of-frame flag after the last tile; when color is
/// not written, the store also disables the color clear and never ends the frame.
pub open spec fn zs_store_bytes(exec: vc4_exec_info, sf: Surfaces, last: bool) -> Seq<u8> {
    match sf.3 {
        Some(b) => seq![packet_code(vc4_packet::VC4_PACKET_STORE_TILE_BUFFER_GENERAL)] + le16(
            if sf.1 is Some {
                exec.args.zs_write.bits
            } else {
                (exec.args.zs_write.bits | VC4_STORE_TILE_BUFFER_DISABLE_COLOR_CLEAR) as u16
            },
        ) + le32(
            if last && sf.1 is Some {
                (add32(b.paddr, exec.args.zs_write.offset) | VC4_LOADSTORE_TILE_BUFFER_EOF) as u32
            } else {
                add32(b.paddr, exec.args.zs_write.offset)
            },
        ),
        None => Seq::empty(),
    }
}

/// Storing the multisampled color buffer, if color is written, ending the frame after the
/// last tile; a Z/stencil store before it needs the tile selected again.
pub open spec fn color_store_bytes(sf: Surfaces, x: u8, y: u8, last: bool) -> Seq<u8> {
    if sf.1 is Some {
        (if sf.3 is Some {
            tile_coordinates_bytes(x, y)
        } else {
            Seq::empty()
        }) + seq![
            if last {
                packet_code(vc4_packet::VC4_PACKET_STORE_MS_TILE_BUFFER_AND_EOF)
            } else {
                packet_code(vc4_packet::VC4_PACKET_STORE_MS_TILE_BUFFER)
            },
        ]
    } else {
        Seq::empty()
    }
}

/// The packets of tile `(x, y)`: load the color and Z/stencil buffers that are read, select
/// the tile, wait for the binner before the first tile, branch to the tile's binned list, and
/// store Z/stencil and then color.
pub open spec fn tile_bytes(exec: vc4_exec_info, sf: Surfaces, x: u8, y: u8, first: bool, last: bool) -> Seq<
    u8,
> {
    color_load_bytes(exec, sf) + zs_load_bytes(exec, sf, x, y) + tile_coordinates_bytes(x, y)
        + wait_bytes(exec, first) + branch_bytes(exec, x, y) + zs_store_bytes(exec, sf, last)
        + color_store_bytes(sf, x, y, last)
}

/// The sums that writing tile `(x, y)` makes do not overflow.
pub open spec fn tile_sums_fit(exec: vc4_exec_info, sf: Surfaces, x: u8, y: u8) -> bool {
    &&& (sf.0 matches Some(b) ==> b.paddr + exec.args.color_read.offset <= u32::MAX)
    &&& (sf.2 matches Some(b) ==> b.paddr + exec.args.zs_read.offset <= u32::MAX)
    &&& (sf.3 matches Some(b) ==> b.paddr + exec.args.zs_write.offset <= u32::MAX)
    &&& (exec.args.bin_cl_size != 0 ==> tile_list_addr(exec, x, y) <= u32::MAX)
}

/// The bytes of one tile apart from the wait on the binner.
pub open spec fn loop_body_size_spec(exec: vc4_exec_info, sf: Surfaces) -> int {
    VC4_PACKET_TILE_COORDINATES_SIZE as int
        + (if sf.0 is Some { VC4_PACKET_LOAD_TILE_BUFFER_GENERAL_SIZE as int } else { 0 })
        + (if sf.2 is Some {
            (if sf.0 is Some {
                VC4_PACKET_TILE_COORDINATES_SIZE + VC4_PACKET_STORE_TILE_BUFFER_GENERAL_SIZE
            } else {
                0
            }) + VC4_PACKET_LOAD_TILE_BUFFER_GENERAL_SIZE
        } else {
            0
        })
        + (if exec.args.bin_cl_size != 0 { VC4_PACKET_BRANCH_TO_SUB_LIST_SIZE as int } else { 0 })
        + (if sf.3 is Some { VC4_PACKET_STORE_TILE_BUFFER_GENERAL_SIZE as int } else { 0 })
        + (if sf.1 is Some { VC4_PACKET_STORE_MS_TILE_BUFFER_SIZE as int } else { 0 })
        + (if sf.1 is Some && sf.3 is Some { VC4_PACKET_TILE_COORDINATES_SIZE as int } else { 0 })
}

/// Each tile's packets are as long as the loop body, plus the wait on the binner before the
/// first one.
pub proof fn lemma_tile_bytes_len(exec: vc4_exec_info, sf: Surfaces, x: u8, y: u8, first: bool, last: bool)
    ensures
        tile_bytes(exec, sf, x, y, first, last).len() == loop_body_size_spec(exec, sf) + (if first
            && exec.args.bin_cl_size != 0 {
            1int
        } else {
            0
        }),
{
}

/// Appends the packet that selects tile `(x, y)` to `cl`, on which `acc` was written since
/// `c0`.
fn push_tile_coordinates(
    cl: &mut vc4_cl,
    x: u8,
    y: u8,
    Ghost(c0): Ghost<vc4_cl>,
    Ghost(acc): Ghost<Seq<u8>>,
)
    requires
        c0.wrote(*old(cl), acc),
        c0.has_room(acc.len() + 3),
    ensures
        c0.wrote(*final(cl), acc + tile_coordinates_bytes(x, y)),
{
    proof {
        lemma_room_left(c0, *cl, acc, 3);
    }
    let ghost c1 = *cl;
    cl.vc4_tile_coordinates(x, y);
    proof {
        lemma_wrote_trans(c0, c1, *cl, acc, tile_coordinates_bytes(x, y));
    }
}

/// Appends a store that writes and clears nothing to `cl`, on which `acc` was written since
/// `c0`.
fn push_store_before_load(cl: &mut vc4_cl, Ghost(c0): Ghost<vc4_cl>, Ghost(acc): Ghost<Seq<u8>>)
    requires
        c0.wrote(*old(cl), acc),
        c0.has_room(acc.len() + 7),
    ensures
        c0.wrote(*final(cl), acc + store_before_load_bytes()),
{
    proof {
        lemma_room_left(c0, *cl, acc, 7);
    }
    let ghost c1 = *cl;
    cl.vc4_store_before_load();
    proof {
        lemma_wrote_trans(c0, c1, *cl, acc, store_before_load_bytes());
    }
}

/// Appends the load of the color buffer that is read, if any: see `color_load_bytes`.
fn emit_color_load(
    exec: &vc4_exec_info,
    cl: &mut vc4_cl,
    sf: Ghost<Surfaces>,
    cr: Option<gpu_bo>,
    Ghost(c0): Ghost<vc4_cl>,
    Ghost(acc): Ghost<Seq<u8>>,
)
    requires
        cr == sf@.0,
        cr matches Some(b) ==> b.paddr + exec.args.color_read.offset <= u32::MAX,
        c0.wrote(*old(cl), acc),
        c0.has_room(acc.len() + color_load_bytes(*exec, sf@).len()),
    ensures
        c0.wrote(*final(cl), acc + color_load_bytes(*exec, sf@)),
{
    match cr {
        Some(b) => {
            let code = vc4_packet::VC4_PACKET_LOAD_TILE_BUFFER_GENERAL.code();
            push_u8(cl, code, Ghost(c0), Ghost(acc));
            let ghost acc1 = acc + seq![code];
            push_u16(cl, exec.args.color_read.bits, Ghost(c0), Ghost(acc1));
            let ghost acc2 = acc1 + le16(exec.args.color_read.bits);
            let a = b.paddr + exec.args.color_read.offset;
            push_u32(cl, a, Ghost(c0), Ghost(acc2));
            assert(acc2 + le32(a) =~= acc + color_load_bytes(*exec, sf@));
        },
        None => {
            assert(acc =~= acc + color_load_bytes(*exec, sf@));
        },
    }
}

/// Appends the load of the Z/stencil buffer that is read, if any: see `zs_load_bytes`.
fn emit_zs_load(
    exec: &vc4_exec_info,
    cl: &mut vc4_cl,
    sf: Ghost<Surfaces>,
    color_read: bool,
    zr: Option<gpu_bo>,
    x: u8,
    y: u8,
    Ghost(c0): Ghost<vc4_cl>,
    Ghost(acc): Ghost<Seq<u8>>,
)
    requires
        zr == sf@.2,
        color_read == sf@.0 is Some,
        zr matches Some(b) ==> b.paddr + exec.args.zs_read.offset <= u32::MAX,
        c0.wrote(*old(cl), acc),
        c0.has_room(acc.len() + zs_load_bytes(*exec, sf@, x, y).len()),
    ensures
        c0.wrote(*final(cl), acc + zs_load_bytes(*exec, sf@, x, y)),
{
    match zr {
        Some(b) => {
            let ghost mut acc1 = acc;
            if color_read {
                push_tile_coordinates(cl, x, y, Ghost(c0), Ghost(acc));
                let ghost acc0 = acc + tile_coordinates_bytes(x, y);
                push_store_before_load(cl, Ghost(c0), Ghost(acc0));
                proof {
                    acc1 = acc0 + store_before_load_bytes();
                }
            }
            let code = vc4_packet::VC4_PACKET_LOAD_TILE_BUFFER_GENERAL.code();
            push_u8(cl, code, Ghost(c0), Ghost(acc1));
            let ghost acc2 = acc1 + seq![code];
            push_u16(cl, exec.args.zs_read.bits, Ghost(c0), Ghost(acc2));
            let ghost acc3 = acc2 + le16(exec.args.zs_read.bits);
            let a = b.paddr + exec.args.zs_read.offset;
            push_u32(cl, a, Ghost(c0), Ghost(acc3));
            assert(acc3 + le32(a) =~= acc + zs_load_bytes(*exec, sf@, x, y));
        },
        None => {
            assert(acc =~= acc + zs_load_bytes(*exec, sf@, x, y));
        },
    }
}

/// Appends the wait on the binner before the first tile: see `wait_bytes`.
fn emit_wait(
    exec: &vc4_exec_info,
    cl: &mut vc4_cl,
    first: bool,
    Ghost(c0): Ghost<vc4_cl>,
    Ghost(acc): Ghost<Seq<u8>>,
)
    requires
        c0.wrote(*old(cl), acc),
        c0.has_room(acc.len() + wait_bytes(*exec, first).len()),
    ensures
        c0.wrote(*final(cl), acc + wait_bytes(*exec, first)),
{
    if first && exec.args.bin_cl_size != 0 {
        push_u8(cl, vc4_packet::VC4_PACKET_WAIT_ON_SEMAPHORE.code(), Ghost(c0), Ghost(acc));
    } else {
        assert(acc =~= acc + wait_bytes(*exec, first));
    }
}

/// Appends the branch to the tile's binned list: see `branch_bytes`.
fn emit_branch(
    exec: &vc4_exec_info,
    cl: &mut vc4_cl,
    x: u8,
    y: u8,
    Ghost(c0): Ghost<vc4_cl>,
    Ghost(acc): Ghost<Seq<u8>>,
)
    requires
        exec.args.bin_cl_size != 0 ==> tile_list_addr(*exec, x, y) <= u32::MAX,
        c0.wrote(*old(cl), acc),
        c0.has_room(acc.len() + branch_bytes(*exec, x, y).len()),
    ensures
        c0.wrote(*final(cl), acc + branch_bytes(*exec, x, y)),
{
    if exec.args.bin_cl_size != 0 {
        let code = vc4_packet::VC4_PACKET_BRANCH_TO_SUB_LIST.code();
        push_u8(cl, code, Ghost(c0), Ghost(acc));
        let ghost acc1 = acc + seq![code];
        let yx: u32 = (y as u32) * (exec.bin_tiles_x as u32);
        assert(yx <= 255 * 255) by (nonlinear_arith)
            requires
                yx == (y as u32) * (exec.bin_tiles_x as u32),
        ;
        let a = exec.tile_alloc_offset + (yx + (x as u32)) * 32;
        push_u32(cl, a, Ghost(c0), Ghost(acc1));
        assert(acc1 + le32(a) =~= acc + branch_bytes(*exec, x, y));
    } else {
        assert(acc =~= acc + branch_bytes(*exec, x, y));
    }
}

/// Appends the store of the Z/stencil buffer that is written, if any: see `zs_store_bytes`.
fn emit_zs_store(
    exec: &vc4_exec_info,
    cl: &mut vc4_cl,
    sf: Ghost<Surfaces>,
    color_write: bool,
    zw: Option<gpu_bo>,
    last: bool,
    Ghost(c0): Ghost<vc4_cl>,
    Ghost(acc): Ghost<Seq<u8>>,
)
    requires
        zw == sf@.3,
        color_write == sf@.1 is Some,
        zw matches Some(b) ==> b.paddr + exec.args.zs_write.offset <= u32::MAX,
        c0.wrote(*old(cl), acc),
        c0.has_room(acc.len() + zs_store_bytes(*exec, sf@, last).len()),
    ensures
        c0.wrote(*final(cl), acc + zs_store_bytes(*exec, sf@, last)),
{
    match zw {
        Some(b) => {
            let last_tile_write = color_write;
            let code = vc4_packet::VC4_PACKET_STORE_TILE_BUFFER_GENERAL.code();
            push_u8(cl, code, Ghost(c0), Ghost(acc));
            let ghost acc1 = acc + seq![code];
            let bits: u16;
            if last_tile_write {
                bits = exec.args.zs_write.bits | 0;
            } else {
                bits = exec.args.zs_write.bits | VC4_STORE_TILE_BUFFER_DISABLE_COLOR_CLEAR;
            }
            let ghost zb = exec.args.zs_write.bits;
            assert(zb | 0 == zb) by (bit_vector);
            push_u16(cl, bits, Ghost(c0), Ghost(acc1));
            let ghost acc2 = acc1 + le16(bits);
            let a: u32;
            if last && last_tile_write {
                a = (b.paddr + exec.args.zs_write.offset) | VC4_LOADSTORE_TILE_BUFFER_EOF;
            } else {
                a = (b.paddr + exec.args.zs_write.offset) | 0;
            }
            let ghost sum = (b.paddr + exec.args.zs_write.offset) as u32;
            assert(sum | 0 == sum) by (bit_vector);
            push_u32(cl, a, Ghost(c0), Ghost(acc2));
            assert(acc2 + le32(a) =~= acc + zs_store_bytes(*exec, sf@, last));
        },
        None => {
            assert(acc =~= acc + zs_store_bytes(*exec, sf@, last));
        },
    }
}

/// Appends the store of the color buffer, if it is written: see `color_store_bytes`.
fn emit_color_store(
    cl: &mut vc4_cl,
    sf: Ghost<Surfaces>,
    color_write: bool,
    zs_write: bool,
    x: u8,
    y: u8,
    last: bool,
    Ghost(c0): Ghost<vc4_cl>,
    Ghost(acc): Ghost<Seq<u8>>,
)
    requires
        color_write == sf@.1 is Some,
        zs_write == sf@.3 is Some,
        c0.wrote(*old(cl), acc),
        c0.has_room(acc.len() + color_store_bytes(sf@, x, y, last).len()),
    ensures
        c0.wrote(*final(cl), acc + color_store_bytes(sf@, x, y, last)),
{
    if color_write {
        let ghost mut acc1 = acc;
        if zs_write {
            push_tile_coordinates(cl, x, y, Ghost(c0), Ghost(acc));
            proof {
                acc1 = acc + tile_coordinates_bytes(x, y);
            }
        }
        let code: u8;
        if last {
            code = vc4_packet::VC4_PACKET_STORE_MS_TILE_BUFFER_AND_EOF.code();
        } else {
            code = vc4_packet::VC4_PACKET_STORE_MS_TILE_BUFFER.code();
        }
        push_u8(cl, code, Ghost(c0), Ghost(acc1));
        assert(acc1 + seq![code] =~= acc + color_store_bytes(sf@, x, y, last));
    } else {
        assert(acc =~= acc + color_store_bytes(sf@, x, y, last));
    }
}

/// Appends the packets of tile `(x, y)` to the render list: see `tile_bytes`.
pub fn emit_tile(exec: &vc4_exec_info, setup: &mut vc4_rcl_setup, x: u8, y: u8, first: bool, last: bool)
    requires
        tile_sums_fit(*exec, old(setup).surfaces(), x, y),
        old(setup).rcl.has_room(tile_bytes(*exec, old(setup).surfaces(), x, y, first, last).len()),
    ensures
        final(setup).surfaces() == old(setup).surfaces(),
        old(setup).rcl.wrote(
            final(setup).rcl,
            tile_bytes(*exec, old(setup).surfaces(), x, y, first, last),
        ),
{
    let ghost sf = setup.surfaces();
    let ghost c0 = setup.rcl;
    proof {
        lemma_wrote_nothing(c0);
    }
    let ghost a0: Seq<u8> = Seq::empty();
    emit_color_load(exec, &mut setup.rcl, Ghost(sf), setup.color_read, Ghost(c0), Ghost(a0));
    let ghost a1 = a0 + color_load_bytes(*exec, sf);
    emit_zs_load(
        exec,
        &mut setup.rcl,
        Ghost(sf),
        setup.color_read.is_some(),
        setup.zs_read,
        x,
        y,
        Ghost(c0),
        Ghost(a1),
    );
    let ghost a2 = a1 + zs_load_bytes(*exec, sf, x, y);
    push_tile_coordinates(&mut setup.rcl, x, y, Ghost(c0), Ghost(a2));
    let ghost a3 = a2 + tile_coordinates_bytes(x, y);
    emit_wait(exec, &mut setup.rcl, first, Ghost(c0), Ghost(a3));
    let ghost a4 = a3 + wait_bytes(*exec, first);
    emit_branch(exec, &mut setup.rcl, x, y, Ghost(c0), Ghost(a4));
    let ghost a5 = a4 + branch_bytes(*exec, x, y);
    emit_zs_store(
        exec,
        &mut setup.rcl,
        Ghost(sf),
        setup.color_write.is_some(),
        setup.zs_write,
        last,
        Ghost(c0),
        Ghost(a5),
    );
    let ghost a6 = a5 + zs_store_bytes(*exec, sf, last);
    emit_color_store(
        &mut setup.rcl,
        Ghost(sf),
        setup.color_write.is_some(),
        setup.zs_write.is_some(),
        x,
        y,
        last,
        Ghost(c0),
        Ghost(a6),
    );
    assert(a6 + color_store_bytes(sf, x, y, last) =~= tile_bytes(*exec, sf, x, y, first, last));
}

/// The result of checking the load/store surface `surf`: the buffer object it names (`obj` is
/// kept when it names none or an out-of-range one) and whether it is acceptable. A surface is
/// acceptable when it names no buffer object, or names one and has no unknown bits, a known
/// tiling, either a Z/stencil buffer without color format or a color buffer in RGBA8888,
/// BGR565 or dithered BGR565, and a 16-byte aligned offset.
pub open spec fn rcl_surface_spec(exec: vc4_exec_info, obj: Option<gpu_bo>, surf: drm_vc4_submit_rcl_surface) -> (
    Option<gpu_bo>,
    Result<(), Vc4Error>,
) {
    let tiling = get_field16_spec(
        surf.bits,
        VC4_LOADSTORE_TILE_BUFFER_TILING_SHIFT,
        VC4_LOADSTORE_TILE_BUFFER_TILING_MASK,
    );
    let buffer = get_field16_spec(
        surf.bits,
        VC4_LOADSTORE_TILE_BUFFER_BUFFER_SHIFT,
        VC4_LOADSTORE_TILE_BUFFER_BUFFER_MASK,
    );
    let format = get_field16_spec(
        surf.bits,
        VC4_LOADSTORE_TILE_BUFFER_FORMAT_SHIFT,
        VC4_LOADSTORE_TILE_BUFFER_FORMAT_MASK,
    );
    if surf.hindex == 0xffff_ffffu32 {
        (obj, Ok(()))
    } else if surf.hindex >= exec.bo_count {
        (obj, Err(Vc4Error::InvalidParam))
    } else {
        let o = Some(exec.bo@[surf.hindex as int]);
        if surf.bits & !(VC4_LOADSTORE_TILE_BUFFER_TILING_MASK | VC4_LOADSTORE_TILE_BUFFER_BUFFER_MASK
            | VC4_LOADSTORE_TILE_BUFFER_FORMAT_MASK) != 0 {
            (o, Err(Vc4Error::InvalidParam))
        } else if tiling > VC4_TILING_FORMAT_LT {
            (o, Err(Vc4Error::InvalidParam))
        } else if buffer as u16 == VC4_LOADSTORE_TILE_BUFFER_ZS {
            if format != 0 {
                (o, Err(Vc4Error::InvalidParam))
            } else if surf.offset & 0xf != 0 {
                (o, Err(Vc4Error::InvalidParam))
            } else {
                (o, Ok(()))
            }
        } else if buffer as u16 == VC4_LOADSTORE_TILE_BUFFER_COLOR {
            if !(format as u16 == VC4_LOADSTORE_TILE_BUFFER_BGR565 || format as u16
                == VC4_LOADSTORE_TILE_BUFFER_BGR565_DITHER || format as u16
                == VC4_LOADSTORE_TILE_BUFFER_RGBA8888) {
                (o, Err(Vc4Error::InvalidParam))
            } else if surf.offset & 0xf != 0 {
                (o, Err(Vc4Error::InvalidParam))
            } else {
                (o, Ok(()))
            }
        } else {
            (o, Err(Vc4Error::InvalidParam))
        }
    }
}

/// The result of checking the render-config (color write) surface `surf`: unknown bits are
/// refused before anything else; then, if it names a buffer object, the memory tiling must be
/// known and the format RGBA8888, BGR565 or dithered BGR565.
pub open spec fn rcl_render_config_surface_spec(
    exec: vc4_exec_info,
    obj: Option<gpu_bo>,
    surf: drm_vc4_submit_rcl_surface,
) -> (Option<gpu_bo>, Result<(), Vc4Error>) {
    let tiling = get_field16_spec(
        surf.bits,
        VC4_RENDER_CONFIG_MEMORY_FORMAT_SHIFT,
        VC4_RENDER_CONFIG_MEMORY_FORMAT_MASK,
    );
    let format = get_field16_spec(surf.bits, VC4_RENDER_CONFIG_FORMAT_SHIFT, VC4_RENDER_CONFIG_FORMAT_MASK);
    if surf.bits & !(VC4_RENDER_CONFIG_MEMORY_FORMAT_MASK | VC4_RENDER_CONFIG_FORMAT_MASK) != 0 {
        (obj, Err(Vc4Error::InvalidParam))
    } else if surf.hindex == 0xffff_ffffu32 {
        (obj, Ok(()))
    } else if surf.hindex >= exec.bo_count {
        (obj, Err(Vc4Error::InvalidParam))
    } else {
        let o = Some(exec.bo@[surf.hindex as int]);
        if tiling > VC4_TILING_FORMAT_LT {
            (o, Err(Vc4Error::InvalidParam))
        } else if format as u16 == VC4_RENDER_CONFIG_FORMAT_BGR565_DITHERED || format as u16
            == VC4_RENDER_CONFIG_FORMAT_BGR565 || format as u16 == VC4_RENDER_CONFIG_FORMAT_RGBA8888 {
            (o, Ok(()))
        } else {
            (o, Err(Vc4Error::InvalidParam))
        }
    }
}

/// The buffer object that `surf` names, if its index is below the job's count, is in the job's
/// array.
pub open spec fn surface_backed(exec: vc4_exec_info, surf: drm_vc4_submit_rcl_surface) -> bool {
    surf.hindex != 0xffff_ffffu32 && surf.hindex < exec.bo_count ==> surf.hindex < exec.bo@.len()
}

impl GpuDevice {
    /// Checks a load/store surface of the render setup and points `obj` at its buffer object:
    /// see `rcl_surface_spec`.
    pub fn vc4_rcl_surface_setup(
        &mut self,
        exec: &mut vc4_exec_info,
        obj: &mut Option<gpu_bo>,
        surf: drm_vc4_submit_rcl_surface,
    ) -> (r: Result<(), Vc4Error>)
        requires
            surface_backed(*old(exec), surf),
        ensures
            rcl_surface_spec(*old(exec), *old(obj), surf) == (*final(obj), r),
            *final(exec) == *old(exec),
            *final(self) == *old(self),
    {
        let tiling = vc4_get_field(
            surf.bits,
            VC4_LOADSTORE_TILE_BUFFER_TILING_SHIFT,
            VC4_LOADSTORE_TILE_BUFFER_TILING_MASK,
        );
        let buffer = vc4_get_field(
            surf.bits,
            VC4_LOADSTORE_TILE_BUFFER_BUFFER_SHIFT,
            VC4_LOADSTORE_TILE_BUFFER_BUFFER_MASK,
        );
        let format = vc4_get_field(
            surf.bits,
            VC4_LOADSTORE_TILE_BUFFER_FORMAT_SHIFT,
            VC4_LOADSTORE_TILE_BUFFER_FORMAT_MASK,
        );
        assert(!0u32 == 0xffff_ffffu32) by (bit_vector);
        if surf.hindex == !0u32 {
            return Ok(());
        }
        match crate::validate::vc4_use_bo(exec, surf.hindex) {
            Some(tmp) => {
                *obj = Some(tmp);
                if (surf.bits & !(VC4_LOADSTORE_TILE_BUFFER_TILING_MASK
                    | VC4_LOADSTORE_TILE_BUFFER_BUFFER_MASK | VC4_LOADSTORE_TILE_BUFFER_FORMAT_MASK))
                    != 0 {
                    return Err(Vc4Error::InvalidParam);
                }
                if tiling > VC4_TILING_FORMAT_LT {
                    return Err(Vc4Error::InvalidParam);
                }
                if buffer as u16 == VC4_LOADSTORE_TILE_BUFFER_ZS {
                    if format != 0 {
                        return Err(Vc4Error::InvalidParam);
                    }
                } else if buffer as u16 == VC4_LOADSTORE_TILE_BUFFER_COLOR {
                    let f = format as u16;
                    if !(f == VC4_LOADSTORE_TILE_BUFFER_BGR565 || f
                        == VC4_LOADSTORE_TILE_BUFFER_BGR565_DITHER || f
                        == VC4_LOADSTORE_TILE_BUFFER_RGBA8888) {
                        return Err(Vc4Error::InvalidParam);
                    }
                } else {
                    return Err(Vc4Error::InvalidParam);
                }
                if (surf.offset & 0xf) != 0 {
                    return Err(Vc4Error::InvalidParam);
                }
                Ok(())
            },
            None => Err(Vc4Error::InvalidParam),
        }
    }

    /// Checks the render-config surface of the render setup and points `obj` at its buffer
    /// object: see `rcl_render_config_surface_spec`.
    pub fn vc4_rcl_render_config_surface_setup(
        &mut self,
        exec: &mut vc4_exec_info,
        obj: &mut Option<gpu_bo>,
        surf: drm_vc4_submit_rcl_surface,
    ) -> (r: Result<(), Vc4Error>)
        requires
            surface_backed(*old(exec), surf),
        ensures
            rcl_render_config_surface_spec(*old(exec), *old(obj), surf) == (*final(obj), r),
            *final(exec) == *old(exec),
            *final(self) == *old(self),
    {
        let tiling = vc4_get_field(
            surf.bits,
            VC4_RENDER_CONFIG_MEMORY_FORMAT_SHIFT,
            VC4_RENDER_CONFIG_MEMORY_FORMAT_MASK,
        );
        let format = vc4_get_field(surf.bits, VC4_RENDER_CONFIG_FORMAT_SHIFT, VC4_RENDER_CONFIG_FORMAT_MASK);
        if (surf.bits & !(VC4_RENDER_CONFIG_MEMORY_FORMAT_MASK | VC4_RENDER_CONFIG_FORMAT_MASK)) != 0 {
            return Err(Vc4Error::InvalidParam);
        }
        assert(!0u32 == 0xffff_ffffu32) by (bit_vector);
        if surf.hindex == !0u32 {
            return Ok(());
        }
        match crate::validate::vc4_use_bo(exec, surf.hindex) {
            Some(tmp) => {
                *obj = Some(tmp);
                if tiling > VC4_TILING_FORMAT_LT {
                    return Err(Vc4Error::InvalidParam);
                }
                let f = format as u16;
                if f == VC4_RENDER_CONFIG_FORMAT_BGR565_DITHERED || f == VC4_RENDER_CONFIG_FORMAT_BGR565 {
                    Ok(())
                } else if f == VC4_RENDER_CONFIG_FORMAT_RGBA8888 {
                    Ok(())
                } else {
                    Err(Vc4Error::InvalidParam)
                }
            },
            None => Err(Vc4Error::InvalidParam),
        }
    }
}

/// Whether the job has a binner command list.
pub open spec fn has_bin(exec: vc4_exec_info) -> bool {
    exec.args.bin_cl_size != 0
}

/// The render area spans tiles `min..=max` on both axes, with room to count one past the end.
pub open spec fn tile_range_ok(exec: vc4_exec_info) -> bool {
    &&& exec.args.min_x_tile <= exec.args.max_x_tile < 255
    &&& exec.args.min_y_tile <= exec.args.max_y_tile < 255
}

/// The render list can be laid out: the tile range is well formed and some surface is written.
pub open spec fn rcl_layout_ok(exec: vc4_exec_info, sf: Surfaces) -> bool {
    &&& tile_range_ok(exec)
    &&& (sf.1 is Some || sf.3 is Some)
}

/// The packets before the tiles: if asked for, set the clear colors and make the tile buffer
/// clear with a store that writes nothing; then configure rendering to the color surface (or
/// address 0) with the frame's width, height and color-write bits.
pub open spec fn rcl_header_bytes(exec: vc4_exec_info, sf: Surfaces) -> Seq<u8> {
    let args = exec.args;
    (if args.flags & VC4_SUBMIT_CL_USE_CLEAR_COLOR != 0 {
        seq![packet_code(vc4_packet::VC4_PACKET_CLEAR_COLORS)] + le32(args.clear_color[0]) + le32(
            args.clear_color[1],
        ) + le32(args.clear_z) + seq![args.clear_s] + tile_coordinates_bytes(0, 0) + seq![
            packet_code(vc4_packet::VC4_PACKET_STORE_TILE_BUFFER_GENERAL),
        ] + le16(VC4_LOADSTORE_TILE_BUFFER_NONE) + le32(0)
    } else {
        Seq::empty()
    }) + seq![packet_code(vc4_packet::VC4_PACKET_TILE_RENDERING_MODE_CONFIG)] + le32(
        match sf.1 {
            Some(b) => add32(b.paddr, args.color_write.offset),
            None => 0,
        },
    ) + le16(args.width) + le16(args.height) + le16(args.color_write.bits)
}

/// Whether `(x, y)` is the first tile of the render area.
pub open spec fn tile_is_first(exec: vc4_exec_info, x: int, y: int) -> bool {
    x == exec.args.min_x_tile && y == exec.args.min_y_tile
}

/// Whether `(x, y)` is the last tile of the render area.
pub open spec fn tile_is_last(exec: vc4_exec_info, x: int, y: int) -> bool {
    x == exec.args.max_x_tile && y == exec.args.max_y_tile
}

/// The packets of the tiles `min_x..x_end` of row `y`.
pub open spec fn row_bytes(exec: vc4_exec_info, sf: Surfaces, y: int, x_end: int) -> Seq<u8>
    decreases x_end - exec.args.min_x_tile,
{
    if x_end <= exec.args.min_x_tile {
        Seq::empty()
    } else {
        row_bytes(exec, sf, y, x_end - 1) + tile_bytes(
            exec,
            sf,
            (x_end - 1) as u8,
            y as u8,
            tile_is_first(exec, x_end - 1, y),
            tile_is_last(exec, x_end - 1, y),
        )
    }
}

/// The packets of the whole rows `min_y..y_end`.
pub open spec fn rows_bytes(exec: vc4_exec_info, sf: Surfaces, y_end: int) -> Seq<u8>
    decreases y_end - exec.args.min_y_tile,
{
    if y_end <= exec.args.min_y_tile {
        Seq::empty()
    } else {
        rows_bytes(exec, sf, y_end - 1) + row_bytes(exec, sf, y_end - 1, exec.args.max_x_tile + 1)
    }
}

/// The whole render list: the header, then every tile row by row.
pub open spec fn rcl_bytes(exec: vc4_exec_info, sf: Surfaces) -> Seq<u8> {
    rcl_header_bytes(exec, sf) + rows_bytes(exec, sf, exec.args.max_y_tile + 1)
}

/// The size the render list is given before it is written.
pub open spec fn rcl_size_spec(exec: vc4_exec_info, sf: Surfaces) -> int {
    VC4_PACKET_TILE_RENDERING_MODE_CONFIG_SIZE as int + (if exec.args.flags
        & VC4_SUBMIT_CL_USE_CLEAR_COLOR != 0 {
        (VC4_PACKET_CLEAR_COLORS_SIZE + VC4_PACKET_TILE_COORDINATES_SIZE
            + VC4_PACKET_STORE_TILE_BUFFER_GENERAL_SIZE) as int
    } else {
        0
    }) + (if has_bin(exec) {
        VC4_PACKET_WAIT_ON_SEMAPHORE_SIZE as int
    } else {
        0
    }) + (exec.args.max_x_tile - exec.args.min_x_tile + 1) * (exec.args.max_y_tile
        - exec.args.min_y_tile + 1) * loop_body_size_spec(exec, sf)
}

/// A row of tiles is one loop body per tile, plus the wait on the binner in the very first
/// tile.
proof fn lemma_row_len(exec: vc4_exec_info, sf: Surfaces, y: int, x_end: int)
    requires
        exec.args.min_x_tile <= x_end,
    ensures
        row_bytes(exec, sf, y, x_end).len() == (x_end - exec.args.min_x_tile) * loop_body_size_spec(
            exec,
            sf,
        ) + (if y == exec.args.min_y_tile && x_end > exec.args.min_x_tile && has_bin(exec) {
            1int
        } else {
            0
        }),
    decreases x_end - exec.args.min_x_tile,
{
    let m = exec.args.min_x_tile as int;
    let lb = loop_body_size_spec(exec, sf);
    if x_end > m {
        lemma_row_len(exec, sf, y, x_end - 1);
        let first = tile_is_first(exec, x_end - 1, y);
        let t = tile_bytes(exec, sf, (x_end - 1) as u8, y as u8, first, tile_is_last(exec, x_end - 1, y));
        lemma_tile_bytes_len(exec, sf, (x_end - 1) as u8, y as u8, first, tile_is_last(exec, x_end - 1, y));
        let prev = row_bytes(exec, sf, y, x_end - 1);
        let e1: int = if y == exec.args.min_y_tile && x_end - 1 > m && has_bin(exec) { 1 } else { 0 };
        let e2: int = if first && exec.args.bin_cl_size != 0 { 1 } else { 0 };
        assert(prev.len() == (x_end - 1 - m) * lb + e1);
        assert(t.len() == lb + e2);
        assert((x_end - m) * lb == (x_end - 1 - m) * lb + lb) by (nonlinear_arith);
        assert(row_bytes(exec, sf, y, x_end) == prev + t);
        assert(row_bytes(exec, sf, y, x_end).len() == prev.len() + t.len());
        assert(e1 + e2 == (if y == exec.args.min_y_tile && x_end > m && has_bin(exec) { 1int } else { 0 }));
    } else {
        assert(row_bytes(exec, sf, y, x_end).len() == 0);
        assert((x_end - m) * lb == 0) by (nonlinear_arith)
            requires
                x_end == m,
        ;
    }
}

/// Whole rows are one loop body per tile, plus the wait on the binner once.
proof fn lemma_rows_len(exec: vc4_exec_info, sf: Surfaces, y_end: int)
    requires
        exec.args.min_y_tile <= y_end,
        exec.args.min_x_tile <= exec.args.max_x_tile,
    ensures
        rows_bytes(exec, sf, y_end).len() == (y_end - exec.args.min_y_tile) * ((exec.args.max_x_tile
            - exec.args.min_x_tile + 1) * loop_body_size_spec(exec, sf)) + (if y_end
            > exec.args.min_y_tile && has_bin(exec) {
            1int
        } else {
            0
        }),
    decreases y_end - exec.args.min_y_tile,
{
    let m = exec.args.min_y_tile as int;
    let lb = loop_body_size_spec(exec, sf);
    let a = (exec.args.max_x_tile - exec.args.min_x_tile + 1) * lb;
    if y_end > m {
        lemma_rows_len(exec, sf, y_end - 1);
        lemma_row_len(exec, sf, y_end - 1, exec.args.max_x_tile + 1);
        let prev = rows_bytes(exec, sf, y_end - 1);
        let r = row_bytes(exec, sf, y_end - 1, exec.args.max_x_tile + 1);
        let e1: int = if y_end - 1 > m && has_bin(exec) { 1 } else { 0 };
        let e2: int = if y_end - 1 == m && has_bin(exec) { 1 } else { 0 };
        assert(prev.len() == (y_end - 1 - m) * a + e1);
        assert(r.len() == a + e2);
        assert((y_end - m) * a == (y_end - 1 - m) * a + a) by (nonlinear_arith);
        assert(rows_bytes(exec, sf, y_end) == prev + r);
        assert(rows_bytes(exec, sf, y_end).len() == prev.len() + r.len());
        assert(rows_bytes(exec, sf, y_end).len() == (y_end - m) * a + e1 + e2);
        assert(e1 + e2 == (if y_end > m && has_bin(exec) { 1int } else { 0 }));
    } else {
        assert(rows_bytes(exec, sf, y_end).len() == 0);
        assert((y_end - m) * a == 0) by (nonlinear_arith)
            requires
                y_end == m,
        ;
    }
}

/// The render list is exactly as long as the size computed for it before it is written.
pub proof fn lemma_rcl_len(exec: vc4_exec_info, sf: Surfaces)
    requires
        exec.args.min_x_tile <= exec.args.max_x_tile,
        exec.args.min_y_tile <= exec.args.max_y_tile,
    ensures
        rcl_bytes(exec, sf).len() == rcl_size_spec(exec, sf),
{
    lemma_rows_len(exec, sf, exec.args.max_y_tile + 1);
    let xt = exec.args.max_x_tile - exec.args.min_x_tile + 1;
    let yt = exec.args.max_y_tile - exec.args.min_y_tile + 1;
    let lb = loop_body_size_spec(exec, sf);
    assert(yt * (xt * lb) == xt * yt * lb) by (nonlinear_arith);
}

/// A row grows as tiles are added.
proof fn lemma_row_len_mono(exec: vc4_exec_info, sf: Surfaces, y: int, x1: int, x2: int)
    requires
        exec.args.min_x_tile <= x1 <= x2,
    ensures
        row_bytes(exec, sf, y, x1).len() <= row_bytes(exec, sf, y, x2).len(),
    decreases x2 - x1,
{
    if x1 < x2 {
        lemma_row_len_mono(exec, sf, y, x1, x2 - 1);
    }
}

/// The rows grow as rows are added.
proof fn lemma_rows_len_mono(exec: vc4_exec_info, sf: Surfaces, y1: int, y2: int)
    requires
        exec.args.min_y_tile <= y1 <= y2,
    ensures
        rows_bytes(exec, sf, y1).len() <= rows_bytes(exec, sf, y2).len(),
    decreases y2 - y1,
{
    if y1 < y2 {
        lemma_rows_len_mono(exec, sf, y1, y2 - 1);
    }
}

/// Branch targets grow with the tile coordinates, so the last tile's is the largest.
proof fn lemma_tile_list_addr_mono(exec: vc4_exec_info, x: int, y: int)
    requires
        0 <= x <= exec.args.max_x_tile,
        0 <= y <= exec.args.max_y_tile,
    ensures
        tile_list_addr(exec, x as u8, y as u8) <= tile_list_addr(
            exec,
            exec.args.max_x_tile,
            exec.args.max_y_tile,
        ),
{
    let b = exec.bin_tiles_x as int;
    let my = exec.args.max_y_tile as int;
    assert(y * b <= my * b) by (nonlinear_arith)
        requires
            0 <= y <= my,
            0 <= b,
    ;
}

/// The tiles already in a row stay where they are as the row grows.
proof fn lemma_row_prefix(exec: vc4_exec_info, sf: Surfaces, y: int, x1: int, x2: int, i: int)
    requires
        exec.args.min_x_tile <= x1 <= x2,
        0 <= i < row_bytes(exec, sf, y, x1).len(),
    ensures
        row_bytes(exec, sf, y, x2)[i] == row_bytes(exec, sf, y, x1)[i],
    decreases x2 - x1,
{
    if x1 < x2 {
        lemma_row_prefix(exec, sf, y, x1, x2 - 1, i);
        lemma_row_len_mono(exec, sf, y, x1, x2 - 1);
    }
}

/// The rows already written stay where they are as rows are added.
proof fn lemma_rows_prefix(exec: vc4_exec_info, sf: Surfaces, y1: int, y2: int, i: int)
    requires
        exec.args.min_y_tile <= y1 <= y2,
        0 <= i < rows_bytes(exec, sf, y1).len(),
    ensures
        rows_bytes(exec, sf, y2)[i] == rows_bytes(exec, sf, y1)[i],
    decreases y2 - y1,
{
    if y1 < y2 {
        lemma_rows_prefix(exec, sf, y1, y2 - 1, i);
        lemma_rows_len_mono(exec, sf, y1, y2 - 1);
    }
}

/// A tile that writes color ends with its multisampled color store, with end-of-frame exactly
/// when it is the last tile.
proof fn lemma_tile_last_byte(exec: vc4_exec_info, sf: Surfaces, x: u8, y: u8, first: bool, last: bool)
    requires
        sf.1 is Some,
    ensures
        tile_bytes(exec, sf, x, y, first, last).len() >= 1,
        tile_bytes(exec, sf, x, y, first, last)[tile_bytes(exec, sf, x, y, first, last).len() - 1]
            == if last {
            packet_code(vc4_packet::VC4_PACKET_STORE_MS_TILE_BUFFER_AND_EOF)
        } else {
            packet_code(vc4_packet::VC4_PACKET_STORE_MS_TILE_BUFFER)
        },
{
    let t = tile_bytes(exec, sf, x, y, first, last);
    let cs = color_store_bytes(sf, x, y, last);
    let pre = color_load_bytes(exec, sf) + zs_load_bytes(exec, sf, x, y) + tile_coordinates_bytes(x, y)
        + wait_bytes(exec, first) + branch_bytes(exec, x, y) + zs_store_bytes(exec, sf, last);
    assert(t == pre + cs);
    assert(t[t.len() - 1] == cs[cs.len() - 1]);
}

/// In a render list that writes color, the last byte of row `y` up to tile `x` is the color
/// store of tile `(x, y)`.
proof fn lemma_row_last_byte(exec: vc4_exec_info, sf: Surfaces, y: int, x: int)
    requires
        exec.args.min_x_tile <= x <= exec.args.max_x_tile,
        exec.args.min_y_tile <= y <= exec.args.max_y_tile,
        sf.1 is Some,
    ensures
        row_bytes(exec, sf, y, x + 1).len() >= 1,
        row_bytes(exec, sf, y, x + 1)[row_bytes(exec, sf, y, x + 1).len() - 1] == if x
            == exec.args.max_x_tile && y == exec.args.max_y_tile {
            packet_code(vc4_packet::VC4_PACKET_STORE_MS_TILE_BUFFER_AND_EOF)
        } else {
            packet_code(vc4_packet::VC4_PACKET_STORE_MS_TILE_BUFFER)
        },
{
    let first = tile_is_first(exec, x, y);
    let last = tile_is_last(exec, x, y);
    let t = tile_bytes(exec, sf, x as u8, y as u8, first, last);
    lemma_tile_last_byte(exec, sf, x as u8, y as u8, first, last);
    let row = row_bytes(exec, sf, y, x + 1);
    assert(row == row_bytes(exec, sf, y, x) + t);
    assert(row[row.len() - 1] == t[t.len() - 1]);
}

/// In a render list that writes color, tile `(x, y)` is the `k`-th tile in row-major order,
/// with `k = (y - min_y) * width + (x - min_x)`, and its packets end at byte
/// `header + (k + 1) * body + wait` (the wait on the binner being one byte before the first
/// tile of a job with a binner list). That byte is the multisampled color store, and exactly
/// one tile, the one at `(max_x, max_y)`, stores with end-of-frame: every other tile stores
/// without it.
pub proof fn lemma_rcl_eof_only_on_last_tile(exec: vc4_exec_info, sf: Surfaces, x: int, y: int)
    requires
        exec.args.min_x_tile <= x <= exec.args.max_x_tile,
        exec.args.min_y_tile <= y <= exec.args.max_y_tile,
        sf.1 is Some,
    ensures
        ({
            let w = exec.args.max_x_tile - exec.args.min_x_tile + 1;
            let k = (y - exec.args.min_y_tile) * w + (x - exec.args.min_x_tile);
            let i = rcl_header_bytes(exec, sf).len() + (k + 1) * loop_body_size_spec(exec, sf) + (
            if has_bin(exec) {
                1int
            } else {
                0
            }) - 1;
            &&& 0 <= i < rcl_bytes(exec, sf).len()
            &&& rcl_bytes(exec, sf)[i] == if x == exec.args.max_x_tile && y == exec.args.max_y_tile {
                packet_code(vc4_packet::VC4_PACKET_STORE_MS_TILE_BUFFER_AND_EOF)
            } else {
                packet_code(vc4_packet::VC4_PACKET_STORE_MS_TILE_BUFFER)
            }
        }),
{
    let min_x = exec.args.min_x_tile as int;
    let min_y = exec.args.min_y_tile as int;
    let max_x = exec.args.max_x_tile as int;
    let max_y = exec.args.max_y_tile as int;
    let w = max_x - min_x + 1;
    let lb = loop_body_size_spec(exec, sf);
    let bin: int = if has_bin(exec) { 1 } else { 0 };
    let k = (y - min_y) * w + (x - min_x);
    let header = rcl_header_bytes(exec, sf);
    let row = row_bytes(exec, sf, y, x + 1);
    lemma_row_last_byte(exec, sf, y, x);
    lemma_row_len(exec, sf, y, x + 1);
    lemma_row_len_mono(exec, sf, y, x + 1, max_x + 1);
    let full = row_bytes(exec, sf, y, max_x + 1);
    lemma_row_prefix(exec, sf, y, x + 1, max_x + 1, row.len() - 1);
    let before = rows_bytes(exec, sf, y);
    let upto = rows_bytes(exec, sf, y + 1);
    assert(upto == before + full);
    lemma_rows_len(exec, sf, y);
    lemma_rows_len_mono(exec, sf, y + 1, max_y + 1);
    let j = before.len() + row.len() - 1;
    assert(upto[j] == full[row.len() - 1]);
    lemma_rows_prefix(exec, sf, y + 1, max_y + 1, j);
    let all = rows_bytes(exec, sf, max_y + 1);
    assert(rcl_bytes(exec, sf) == header + all);
    assert(rcl_bytes(exec, sf)[header.len() + j] == all[j]);
    assert((y - min_y) * (w * lb) + (x + 1 - min_x) * lb == (k + 1) * lb) by (nonlinear_arith)
        requires
            k == (y - min_y) * w + (x - min_x),
    ;
    assert(j == (k + 1) * lb + bin - 1);
}

/// Byte `j` of tile `(x, y)` stands in the render list right after the header, the rows
/// before row `y` and the tiles of row `y` before `x`.
proof fn lemma_rcl_tile_at(exec: vc4_exec_info, sf: Surfaces, x: int, y: int, j: int)
    requires
        exec.args.min_x_tile <= x <= exec.args.max_x_tile,
        exec.args.min_y_tile <= y <= exec.args.max_y_tile,
        0 <= j < tile_bytes(
            exec,
            sf,
            x as u8,
            y as u8,
            tile_is_first(exec, x, y),
            tile_is_last(exec, x, y),
        ).len(),
    ensures
        ({
            let start = rcl_header_bytes(exec, sf).len() + rows_bytes(exec, sf, y).len() + row_bytes(
                exec,
                sf,
                y,
                x,
            ).len();
            &&& start + j < rcl_bytes(exec, sf).len()
            &&& rcl_bytes(exec, sf)[start + j] == tile_bytes(
                exec,
                sf,
                x as u8,
                y as u8,
                tile_is_first(exec, x, y),
                tile_is_last(exec, x, y),
            )[j]
        }),
{
    let max_x = exec.args.max_x_tile as int;
    let max_y = exec.args.max_y_tile as int;
    let t = tile_bytes(exec, sf, x as u8, y as u8, tile_is_first(exec, x, y), tile_is_last(exec, x, y));
    let prev = row_bytes(exec, sf, y, x);
    let row = row_bytes(exec, sf, y, x + 1);
    assert(row == prev + t);
    let idx = prev.len() + j;
    assert(row[idx] == t[j]);
    lemma_row_len_mono(exec, sf, y, x + 1, max_x + 1);
    lemma_row_prefix(exec, sf, y, x + 1, max_x + 1, idx);
    let full = row_bytes(exec, sf, y, max_x + 1);
    let before = rows_bytes(exec, sf, y);
    let upto = rows_bytes(exec, sf, y + 1);
    assert(upto == before + full);
    let jj = before.len() + idx;
    assert(upto[jj] == full[idx]);
    lemma_rows_len_mono(exec, sf, y + 1, max_y + 1);
    lemma_rows_prefix(exec, sf, y + 1, max_y + 1, jj);
    let header = rcl_header_bytes(exec, sf);
    let all = rows_bytes(exec, sf, max_y + 1);
    assert(rcl_bytes(exec, sf) == header + all);
    assert(rcl_bytes(exec, sf)[header.len() + jj] == all[jj]);
}

/// Tile `(x, y)` starts at byte `header + k * body` of the render list, plus the one-byte
/// wait on the binner for every tile after the first in a job with a binner list, where `k`
/// is the tile's place in row-major order.
proof fn lemma_tile_start(exec: vc4_exec_info, sf: Surfaces, x: int, y: int)
    requires
        exec.args.min_x_tile <= x <= exec.args.max_x_tile,
        exec.args.min_y_tile <= y <= exec.args.max_y_tile,
    ensures
        ({
            let w = exec.args.max_x_tile - exec.args.min_x_tile + 1;
            let k = (y - exec.args.min_y_tile) * w + (x - exec.args.min_x_tile);
            let t = tile_bytes(
                exec,
                sf,
                x as u8,
                y as u8,
                tile_is_first(exec, x, y),
                tile_is_last(exec, x, y),
            );
            let start = rows_bytes(exec, sf, y).len() + row_bytes(exec, sf, y, x).len();
            &&& start + t.len() == (k + 1) * loop_body_size_spec(exec, sf) + (if has_bin(exec) {
                1int
            } else {
                0
            })
            &&& t.len() >= loop_body_size_spec(exec, sf)
        }),
{
    let min_x = exec.args.min_x_tile as int;
    let min_y = exec.args.min_y_tile as int;
    let w = exec.args.max_x_tile - min_x + 1;
    let k = (y - min_y) * w + (x - min_x);
    let lb = loop_body_size_spec(exec, sf);
    lemma_rows_len(exec, sf, y);
    lemma_row_len(exec, sf, y, x);
    lemma_tile_bytes_len(exec, sf, x as u8, y as u8, tile_is_first(exec, x, y), tile_is_last(exec, x, y));
    assert((y - min_y) * (w * lb) + (x - min_x) * lb + lb == (k + 1) * lb) by (nonlinear_arith)
        requires
            k == (y - min_y) * w + (x - min_x),
    ;
}

/// The address that the Z/stencil store of a tile writes, when color is written too: the
/// end-of-frame flag is set on the last tile only.
spec fn zs_store_addr(exec: vc4_exec_info, sf: Surfaces, last: bool) -> u32 {
    let addr = add32(sf.3->Some_0.paddr, exec.args.zs_write.offset);
    if last {
        (addr | VC4_LOADSTORE_TILE_BUFFER_EOF) as u32
    } else {
        addr
    }
}

/// In a tile that stores both Z/stencil and color, the Z/stencil store's address is in the
/// four bytes that end 4 bytes before the tile's end.
proof fn lemma_tile_zs_addr(exec: vc4_exec_info, sf: Surfaces, x: u8, y: u8, first: bool, last: bool)
    requires
        sf.1 is Some,
        sf.3 is Some,
    ensures
        tile_bytes(exec, sf, x, y, first, last).len() >= 8,
        forall|m: int|
            0 <= m < 4 ==> tile_bytes(exec, sf, x, y, first, last)[tile_bytes(
                exec,
                sf,
                x,
                y,
                first,
                last,
            ).len() - 8 + m] == #[trigger] le32(zs_store_addr(exec, sf, last))[m],
{
    let t = tile_bytes(exec, sf, x, y, first, last);
    let zs = zs_store_bytes(exec, sf, last);
    let cs = color_store_bytes(sf, x, y, last);
    let pre = color_load_bytes(exec, sf) + zs_load_bytes(exec, sf, x, y) + tile_coordinates_bytes(x, y)
        + wait_bytes(exec, first) + branch_bytes(exec, x, y);
    assert(t == pre + zs + cs);
    assert(cs.len() == 4);
    assert(zs.len() == 7);
    let a = le32(zs_store_addr(exec, sf, last));
    assert forall|m: int| 0 <= m < 4 implies t[t.len() - 8 + m] == a[m] by {
        assert(t[t.len() - 8 + m] == zs[3 + m]);
    }
}

/// In a render list that writes both color and Z/stencil, the Z/stencil store of tile
/// `(x, y)` writes the Z/stencil buffer's address in the four bytes that end 4 bytes before
/// the tile's end (the color store after it being a tile selection and the store itself).
/// The address carries the end-of-frame flag exactly on the tile at `(max_x, max_y)`.
pub proof fn lemma_rcl_zs_store_eof_only_on_last_tile(exec: vc4_exec_info, sf: Surfaces, x: int, y: int)
    requires
        exec.args.min_x_tile <= x <= exec.args.max_x_tile,
        exec.args.min_y_tile <= y <= exec.args.max_y_tile,
        sf.1 is Some,
        sf.3 is Some,
    ensures
        ({
            let w = exec.args.max_x_tile - exec.args.min_x_tile + 1;
            let k = (y - exec.args.min_y_tile) * w + (x - exec.args.min_x_tile);
            let end = rcl_header_bytes(exec, sf).len() + (k + 1) * loop_body_size_spec(exec, sf) + (
            if has_bin(exec) {
                1int
            } else {
                0
            });
            let addr = add32(sf.3->Some_0.paddr, exec.args.zs_write.offset);
            &&& 8 <= end <= rcl_bytes(exec, sf).len()
            &&& rcl_bytes(exec, sf).subrange(end - 8, end - 4) == le32(
                if x == exec.args.max_x_tile && y == exec.args.max_y_tile {
                    (addr | VC4_LOADSTORE_TILE_BUFFER_EOF) as u32
                } else {
                    addr
                },
            )
        }),
{
    let first = tile_is_first(exec, x, y);
    let last = tile_is_last(exec, x, y);
    let t = tile_bytes(exec, sf, x as u8, y as u8, first, last);
    lemma_tile_zs_addr(exec, sf, x as u8, y as u8, first, last);
    lemma_tile_start(exec, sf, x, y);
    let a = le32(zs_store_addr(exec, sf, last));
    let header = rcl_header_bytes(exec, sf);
    let start = header.len() + rows_bytes(exec, sf, y).len() + row_bytes(exec, sf, y, x).len();
    let end = start + t.len();
    let r = rcl_bytes(exec, sf);
    lemma_rcl_tile_at(exec, sf, x, y, t.len() - 1);
    assert forall|m: int| 0 <= m < 4 implies r.subrange(end - 8, end - 4)[m] == a[m] by {
        lemma_rcl_tile_at(exec, sf, x, y, t.len() - 8 + m);
        assert(a[m] == t[t.len() - 8 + m]);
    }
    assert(r.subrange(end - 8, end - 4) =~= a);
}

/// The sums that writing the render list into `bo` makes do not overflow, and the list fits
/// in the address spaces.
pub open spec fn rcl_bo_fits(exec: vc4_exec_info, sf: Surfaces, bo: gpu_bo) -> bool {
    &&& (sf.0 matches Some(b) ==> b.paddr + exec.args.color_read.offset <= u32::MAX)
    &&& (sf.1 matches Some(b) ==> b.paddr + exec.args.color_write.offset <= u32::MAX)
    &&& (sf.2 matches Some(b) ==> b.paddr + exec.args.zs_read.offset <= u32::MAX)
    &&& (sf.3 matches Some(b) ==> b.paddr + exec.args.zs_write.offset <= u32::MAX)
    &&& (has_bin(exec) ==> tile_list_addr(exec, exec.args.max_x_tile, exec.args.max_y_tile)
        <= u32::MAX)
    &&& bo.vaddr + rcl_size_spec(exec, sf) <= usize::MAX
    &&& bo.paddr + rcl_size_spec(exec, sf) <= u32::MAX
}

/// The size of the render list of `exec` with the surfaces of `setup`: see `rcl_size_spec`.
pub fn vc4_rcl_size(exec: &vc4_exec_info, setup: &vc4_rcl_setup) -> (r: u32)
    requires
        rcl_layout_ok(*exec, setup.surfaces()),
    ensures
        r == rcl_size_spec(*exec, setup.surfaces()),
{
    let has_bin = exec.args.bin_cl_size != 0;
    let min_x_tile = exec.args.min_x_tile;
    let min_y_tile = exec.args.min_y_tile;
    let max_x_tile = exec.args.max_x_tile;
    let max_y_tile = exec.args.max_y_tile;
    let xtiles = max_x_tile - min_x_tile + 1;
    let ytiles = max_y_tile - min_y_tile + 1;
    let mut size = VC4_PACKET_TILE_RENDERING_MODE_CONFIG_SIZE;
    let mut loop_body_size = VC4_PACKET_TILE_COORDINATES_SIZE;
    if (exec.args.flags & VC4_SUBMIT_CL_USE_CLEAR_COLOR) != 0 {
        size = size + VC4_PACKET_CLEAR_COLORS_SIZE + VC4_PACKET_TILE_COORDINATES_SIZE
            + VC4_PACKET_STORE_TILE_BUFFER_GENERAL_SIZE;
    }
    if setup.color_read.is_some() {
        loop_body_size = loop_body_size + VC4_PACKET_LOAD_TILE_BUFFER_GENERAL_SIZE;
    }
    if setup.zs_read.is_some() {
        if setup.color_read.is_some() {
            loop_body_size = loop_body_size + VC4_PACKET_TILE_COORDINATES_SIZE;
            loop_body_size = loop_body_size + VC4_PACKET_STORE_TILE_BUFFER_GENERAL_SIZE;
        }
        loop_body_size = loop_body_size + VC4_PACKET_LOAD_TILE_BUFFER_GENERAL_SIZE;
    }
    if has_bin {
        size = size + VC4_PACKET_WAIT_ON_SEMAPHORE_SIZE;
        loop_body_size = loop_body_size + VC4_PACKET_BRANCH_TO_SUB_LIST_SIZE;
    }
    if setup.zs_write.is_some() {
        loop_body_size = loop_body_size + VC4_PACKET_STORE_TILE_BUFFER_GENERAL_SIZE;
    }
    if setup.color_write.is_some() {
        loop_body_size = loop_body_size + VC4_PACKET_STORE_MS_TILE_BUFFER_SIZE;
    }
    let temp1: u32;
    let temp2: u32;
    if setup.color_write.is_some() {
        temp1 = 1;
    } else {
        temp1 = 0;
    }
    if setup.zs_write.is_some() {
        temp2 = 1;
    } else {
        temp2 = 0;
    }
    loop_body_size = loop_body_size + VC4_PACKET_TILE_COORDINATES_SIZE * (temp1 + temp2 - 1);
    assert(loop_body_size == loop_body_size_spec(*exec, setup.surfaces()));
    assert((xtiles as u32) * (ytiles as u32) <= 255 * 255) by (nonlinear_arith)
        requires
            xtiles <= 255,
            ytiles <= 255,
    ;
    let xy = (xtiles as u32) * (ytiles as u32);
    assert(xy * loop_body_size <= 255 * 255 * 64) by (nonlinear_arith)
        requires
            xy <= 255 * 255,
            loop_body_size <= 64,
    ;
    size = size + xy * loop_body_size;
    assert((xtiles as int) * (ytiles as int) * (loop_body_size as int) == (xy as int) * (
    loop_body_size as int));
    size
}


/// Appends the packets before the tiles to `cl`, which is `c0` with nothing written yet.
fn emit_rcl_header(exec: &vc4_exec_info, cl: &mut vc4_cl, sf: Ghost<Surfaces>, cw: Option<gpu_bo>, Ghost(c0): Ghost<vc4_cl>)
    requires
        cw == sf@.1,
        cw matches Some(b) ==> b.paddr + exec.args.color_write.offset <= u32::MAX,
        c0 == *old(cl),
        c0.has_room(rcl_header_bytes(*exec, sf@).len()),
    ensures
        c0.wrote(*final(cl), rcl_header_bytes(*exec, sf@)),
{
    proof {
        lemma_wrote_nothing(c0);
    }
    let ghost mut acc: Seq<u8> = Seq::empty();
    if (exec.args.flags & VC4_SUBMIT_CL_USE_CLEAR_COLOR) != 0 {
        let code = vc4_packet::VC4_PACKET_CLEAR_COLORS.code();
        push_u8(cl, code, Ghost(c0), Ghost(acc));
        let ghost a1 = acc + seq![code];
        push_u32(cl, exec.args.clear_color[0], Ghost(c0), Ghost(a1));
        let ghost a2 = a1 + le32(exec.args.clear_color[0]);
        push_u32(cl, exec.args.clear_color[1], Ghost(c0), Ghost(a2));
        let ghost a3 = a2 + le32(exec.args.clear_color[1]);
        push_u32(cl, exec.args.clear_z, Ghost(c0), Ghost(a3));
        let ghost a4 = a3 + le32(exec.args.clear_z);
        push_u8(cl, exec.args.clear_s, Ghost(c0), Ghost(a4));
        let ghost a5 = a4 + seq![exec.args.clear_s];
        push_tile_coordinates(cl, 0, 0, Ghost(c0), Ghost(a5));
        let ghost a6 = a5 + tile_coordinates_bytes(0, 0);
        let store = vc4_packet::VC4_PACKET_STORE_TILE_BUFFER_GENERAL.code();
        push_u8(cl, store, Ghost(c0), Ghost(a6));
        let ghost a7 = a6 + seq![store];
        push_u16(cl, VC4_LOADSTORE_TILE_BUFFER_NONE, Ghost(c0), Ghost(a7));
        let ghost a8 = a7 + le16(VC4_LOADSTORE_TILE_BUFFER_NONE);
        push_u32(cl, 0, Ghost(c0), Ghost(a8));
        proof {
            acc = a8 + le32(0);
        }
    }
    let code = vc4_packet::VC4_PACKET_TILE_RENDERING_MODE_CONFIG.code();
    push_u8(cl, code, Ghost(c0), Ghost(acc));
    let ghost b1 = acc + seq![code];
    let addr: u32 = match cw {
        Some(b) => b.paddr + exec.args.color_write.offset,
        None => 0,
    };
    push_u32(cl, addr, Ghost(c0), Ghost(b1));
    let ghost b2 = b1 + le32(addr);
    push_u16(cl, exec.args.width, Ghost(c0), Ghost(b2));
    let ghost b3 = b2 + le16(exec.args.width);
    push_u16(cl, exec.args.height, Ghost(c0), Ghost(b3));
    let ghost b4 = b3 + le16(exec.args.height);
    push_u16(cl, exec.args.color_write.bits, Ghost(c0), Ghost(b4));
    assert(b4 + le16(exec.args.color_write.bits) =~= rcl_header_bytes(*exec, sf@));
}


/// The job after its render list was written at physical address `paddr` with `size` bytes:
/// the render thread runs from the start of the list to its end.
pub open spec fn with_render_thread(exec: vc4_exec_info, paddr: u32, size: int) -> vc4_exec_info {
    vc4_exec_info { ct1ca: paddr, ct1ea: (paddr + size) as u32, ..exec }
}

impl GpuDevice {
    /// Writes the render list of `exec` into `rcl_bo`, a render-list buffer object of at least
    /// `vc4_rcl_size` bytes created for it, and points the render thread at it. Without a
    /// buffer object nothing is written and the job fails with `InvalidParam`.
    ///
    /// The list is `rcl_bytes`: its length is exactly the size computed beforehand, and it is
    /// written from the buffer object's kernel address on.
    pub fn vc4_create_rcl_bo(
        &mut self,
        exec: &mut vc4_exec_info,
        setup: &mut vc4_rcl_setup,
        rcl_bo: Option<gpu_bo>,
    ) -> (r: Result<(), Vc4Error>)
        requires
            rcl_layout_ok(*old(exec), old(setup).surfaces()),
            rcl_bo matches Some(bo) ==> {
                &&& bo.bo_type == VC4_BO_TYPE_RCL
                &&& rcl_size_spec(*old(exec), old(setup).surfaces()) <= bo.size
                &&& rcl_bo_fits(*old(exec), old(setup).surfaces(), bo)
            },
        ensures
            *final(self) == *old(self),
            match rcl_bo {
                None => {
                    &&& r == Err::<(), Vc4Error>(Vc4Error::InvalidParam)
                    &&& *final(exec) == *old(exec)
                    &&& *final(setup) == *old(setup)
                },
                Some(bo) => {
                    let size = rcl_size_spec(*old(exec), old(setup).surfaces());
                    &&& r is Ok
                    &&& *final(exec) == with_render_thread(*old(exec), bo.paddr, size)
                    &&& final(setup).surfaces() == old(setup).surfaces()
                    &&& final(setup).rcl.base == bo.vaddr
                    &&& final(setup).rcl.next == bo.vaddr + size
                    &&& final(setup).rcl.size == size
                    &&& final(setup).rcl.reloc_next == old(setup).rcl.reloc_next
                    &&& final(setup).rcl.mem@ == rcl_bytes(*old(exec), old(setup).surfaces())
                },
            },
    {
        let bo = match rcl_bo {
            Some(bo) => bo,
            None => {
                return Err(Vc4Error::InvalidParam);
            },
        };
        let ghost sf = setup.surfaces();
        let size = vc4_rcl_size(exec, setup);
        proof {
            lemma_rcl_len(*exec, sf);
        }
        setup.rcl.base = bo.vaddr;
        setup.rcl.next = bo.vaddr;
        setup.rcl.size = size;
        setup.rcl.mem = vec![0u8; size as usize];
        let ghost c0 = setup.rcl;
        let ghost header = rcl_header_bytes(*exec, sf);
        assert(c0.has_room(rcl_bytes(*exec, sf).len()));
        emit_rcl_header(exec, &mut setup.rcl, Ghost(sf), setup.color_write, Ghost(c0));
        let min_x_tile = exec.args.min_x_tile;
        let min_y_tile = exec.args.min_y_tile;
        let max_x_tile = exec.args.max_x_tile;
        let max_y_tile = exec.args.max_y_tile;
        let mut y: u8 = min_y_tile;
        while y < max_y_tile + 1
            invariant
                rcl_layout_ok(*exec, sf),
                rcl_bo_fits(*exec, sf, bo),
                min_x_tile == exec.args.min_x_tile,
                min_y_tile == exec.args.min_y_tile,
                max_x_tile == exec.args.max_x_tile,
                max_y_tile == exec.args.max_y_tile,
                min_y_tile <= y <= max_y_tile + 1,
                setup.surfaces() == sf,
                c0.has_room(rcl_bytes(*exec, sf).len()),
                header == rcl_header_bytes(*exec, sf),
                c0.wrote(setup.rcl, header + rows_bytes(*exec, sf, y as int)),
            decreases max_y_tile + 1 - y,
        {
            let mut x: u8 = min_x_tile;
            while x < max_x_tile + 1
                invariant
                    rcl_layout_ok(*exec, sf),
                    rcl_bo_fits(*exec, sf, bo),
                    min_x_tile == exec.args.min_x_tile,
                    min_y_tile == exec.args.min_y_tile,
                    max_x_tile == exec.args.max_x_tile,
                    max_y_tile == exec.args.max_y_tile,
                    min_y_tile <= y <= max_y_tile,
                    min_x_tile <= x <= max_x_tile + 1,
                    setup.surfaces() == sf,
                    c0.has_room(rcl_bytes(*exec, sf).len()),
                    header == rcl_header_bytes(*exec, sf),
                    c0.wrote(
                        setup.rcl,
                        header + rows_bytes(*exec, sf, y as int) + row_bytes(*exec, sf, y as int, x as int),
                    ),
                decreases max_x_tile + 1 - x,
            {
                let first = x == min_x_tile && y == min_y_tile;
                let last = x == max_x_tile && y == max_y_tile;
                let ghost acc = header + rows_bytes(*exec, sf, y as int) + row_bytes(
                    *exec,
                    sf,
                    y as int,
                    x as int,
                );
                let ghost t = tile_bytes(*exec, sf, x, y, first, last);
                proof {
                    assert(row_bytes(*exec, sf, y as int, x + 1) == row_bytes(*exec, sf, y as int, x as int) + t);
                    lemma_row_len_mono(*exec, sf, y as int, x + 1, max_x_tile + 1);
                    assert(rows_bytes(*exec, sf, y + 1) == rows_bytes(*exec, sf, y as int) + row_bytes(
                        *exec,
                        sf,
                        y as int,
                        max_x_tile + 1,
                    ));
                    lemma_rows_len_mono(*exec, sf, y + 1, max_y_tile + 1);
                    lemma_room_left(c0, setup.rcl, acc, t.len());
                    lemma_tile_list_addr_mono(*exec, x as int, y as int);
                }
                let ghost c1 = setup.rcl;
                emit_tile(exec, setup, x, y, first, last);
                proof {
                    lemma_wrote_trans(c0, c1, setup.rcl, acc, t);
                    assert(acc + t =~= header + rows_bytes(*exec, sf, y as int) + row_bytes(
                        *exec,
                        sf,
                        y as int,
                        x + 1,
                    ));
                }
                x = x + 1;
            }
            proof {
                assert(header + rows_bytes(*exec, sf, y as int) + row_bytes(*exec, sf, y as int, max_x_tile + 1)
                    =~= header + rows_bytes(*exec, sf, y + 1));
            }
            y = y + 1;
        }
        proof {
            lemma_splice_basics(c0.mem@, 0, rcl_bytes(*exec, sf));
            assert(c0.mem@.len() == rcl_bytes(*exec, sf).len());
            assert(setup.rcl.mem@ =~= rcl_bytes(*exec, sf));
        }
        exec.ct1ca = bo.paddr;
        exec.ct1ea = bo.paddr + (setup.rcl.cl_offset() as u32);
        Ok(())
    }
}


/// The result of checking the render setup of `exec`: the tile range must be well formed and,
/// with a binner list, lie within the binned area; the four surfaces must pass their checks
/// (color read, color write, Z/stencil read, Z/stencil write, in that order, the first failure
/// deciding); and some surface must be written. On success, the buffer objects of the surfaces.
pub open spec fn get_rcl_spec(exec: vc4_exec_info) -> Result<Surfaces, Vc4Error> {
    let args = exec.args;
    let cr = rcl_surface_spec(exec, None, args.color_read);
    let cw = rcl_render_config_surface_spec(exec, None, args.color_write);
    let zr = rcl_surface_spec(exec, None, args.zs_read);
    let zw = rcl_surface_spec(exec, None, args.zs_write);
    if args.min_x_tile > args.max_x_tile || args.min_y_tile > args.max_y_tile {
        Err(Vc4Error::InvalidParam)
    } else if has_bin(exec) && (args.max_x_tile > exec.bin_tiles_x || args.max_y_tile
        > exec.bin_tiles_y) {
        Err(Vc4Error::InvalidParam)
    } else if cr.1 is Err {
        Err(cr.1->Err_0)
    } else if cw.1 is Err {
        Err(cw.1->Err_0)
    } else if zr.1 is Err {
        Err(zr.1->Err_0)
    } else if zw.1 is Err {
        Err(zw.1->Err_0)
    } else if cw.0 is None && zw.0 is None {
        Err(Vc4Error::InvalidParam)
    } else {
        Ok((cr.0, cw.0, zr.0, zw.0))
    }
}

impl GpuDevice {
    /// Checks the render setup of `exec` (see `get_rcl_spec`) and hands back the setup the
    /// render list is then written from: the surfaces' buffer objects and an empty list. The
    /// list itself is written by `vc4_create_rcl_bo`, into a buffer object of `vc4_rcl_size`
    /// bytes.
    pub fn vc4_get_rcl(&mut self, exec: &mut vc4_exec_info) -> (r: Result<vc4_rcl_setup, Vc4Error>)
        requires
            surface_backed(*old(exec), old(exec).args.color_read),
            surface_backed(*old(exec), old(exec).args.color_write),
            surface_backed(*old(exec), old(exec).args.zs_read),
            surface_backed(*old(exec), old(exec).args.zs_write),
        ensures
            *final(self) == *old(self),
            *final(exec) == *old(exec),
            match r {
                Ok(setup) => {
                    &&& get_rcl_spec(*old(exec)) == Ok::<Surfaces, Vc4Error>(setup.surfaces())
                    &&& setup.rcl.base == 0
                    &&& setup.rcl.next == 0
                    &&& setup.rcl.reloc_next == 0
                    &&& setup.rcl.size == 0
                    &&& setup.rcl.mem@ == Seq::<u8>::empty()
                },
                Err(e) => get_rcl_spec(*old(exec)) == Err::<Surfaces, Vc4Error>(e),
            },
    {
        let has_bin = exec.args.bin_cl_size != 0;
        if exec.args.min_x_tile > exec.args.max_x_tile || exec.args.min_y_tile > exec.args.max_y_tile {
            return Err(Vc4Error::InvalidParam);
        }
        if has_bin && (exec.args.max_x_tile > exec.bin_tiles_x || exec.args.max_y_tile
            > exec.bin_tiles_y) {
            return Err(Vc4Error::InvalidParam);
        }
        let mut setup = vc4_rcl_setup {
            color_read: None,
            color_write: None,
            zs_read: None,
            zs_write: None,
            rcl: vc4_cl { base: 0, next: 0, reloc_next: 0, size: 0, mem: Vec::new() },
        };
        let color_read = exec.args.color_read;
        let color_write = exec.args.color_write;
        let zs_read = exec.args.zs_read;
        let zs_write = exec.args.zs_write;
        self.vc4_rcl_surface_setup(exec, &mut setup.color_read, color_read)?;
        self.vc4_rcl_render_config_surface_setup(exec, &mut setup.color_write, color_write)?;
        self.vc4_rcl_surface_setup(exec, &mut setup.zs_read, zs_read)?;
        self.vc4_rcl_surface_setup(exec, &mut setup.zs_write, zs_write)?;
        if setup.color_write.is_none() && setup.zs_write.is_none() {
            return Err(Vc4Error::InvalidParam);
        }
        Ok(setup)
    }
}


/// A render setup is refused with `InvalidParam` when, with a binner list, its render area
/// reaches past the binned area in either direction. An accepted setup has a well-formed tile
/// range inside the binned area, writes some surface, and hands back for each surface the
/// buffer object it names (none when its index is `!0`).
pub proof fn lemma_get_rcl_within_binned_area(exec: vc4_exec_info)
    ensures
        has_bin(exec) && (exec.args.max_x_tile > exec.bin_tiles_x || exec.args.max_y_tile
            > exec.bin_tiles_y) ==> get_rcl_spec(exec) == Err::<Surfaces, Vc4Error>(
            Vc4Error::InvalidParam,
        ),
        get_rcl_spec(exec) matches Ok(sf) ==> {
            &&& exec.args.min_x_tile <= exec.args.max_x_tile
            &&& exec.args.min_y_tile <= exec.args.max_y_tile
            &&& has_bin(exec) ==> exec.args.max_x_tile <= exec.bin_tiles_x
                && exec.args.max_y_tile <= exec.bin_tiles_y
            &&& sf.1 is Some || sf.3 is Some
            &&& sf.0 == named_bo(exec, exec.args.color_read)
            &&& sf.1 == named_bo(exec, exec.args.color_write)
            &&& sf.2 == named_bo(exec, exec.args.zs_read)
            &&& sf.3 == named_bo(exec, exec.args.zs_write)
        },
{
}

/// The buffer object that a surface names: none for the index `!0`, else the job's buffer
/// object at that index.
pub open spec fn named_bo(exec: vc4_exec_info, surf: drm_vc4_submit_rcl_surface) -> Option<gpu_bo> {
    if surf.hindex == 0xffff_ffffu32 {
        None
    } else {
        Some(exec.bo@[surf.hindex as int])
    }
}

/// A load/store surface is taken as it is when it names no buffer object, and refused with
/// `InvalidParam` when it names one out of range. When it names one in range, that buffer
/// object is picked, and the surface is accepted exactly when it has no bits outside the
/// tiling, buffer and format fields, its tiling is linear, T or LT, it is either a Z/stencil
/// buffer with format 0 or a color buffer in RGBA8888, BGR565 or dithered BGR565, and its
/// offset is 16-byte aligned; otherwise it is refused with `InvalidParam`.
pub proof fn lemma_surface_check(exec: vc4_exec_info, obj: Option<gpu_bo>, surf: drm_vc4_submit_rcl_surface)
    ensures
        surf.hindex == 0xffff_ffffu32 ==> rcl_surface_spec(exec, obj, surf) == (obj, Ok::<(), Vc4Error>(())),
        surf.hindex != 0xffff_ffffu32 && surf.hindex >= exec.bo_count ==> rcl_surface_spec(exec, obj, surf)
            == (obj, Err::<(), Vc4Error>(Vc4Error::InvalidParam)),
        surf.hindex != 0xffff_ffffu32 && surf.hindex < exec.bo_count ==> {
            let bits = surf.bits;
            let tiling = (bits & 0x30u16) >> 4u16;
            let buffer = bits & 0x7u16;
            let format = (bits & 0x300u16) >> 8u16;
            let r = rcl_surface_spec(exec, obj, surf);
            &&& r.0 == Some(exec.bo@[surf.hindex as int])
            &&& r.1 is Err ==> r.1 == Err::<(), Vc4Error>(Vc4Error::InvalidParam)
            &&& (r.1 is Ok <==> {
                &&& bits & !0x337u16 == 0
                &&& (tiling == VC4_TILING_FORMAT_LINEAR || tiling == VC4_TILING_FORMAT_T || tiling
                    == VC4_TILING_FORMAT_LT)
                &&& ((buffer == VC4_LOADSTORE_TILE_BUFFER_ZS && format == 0) || (buffer
                    == VC4_LOADSTORE_TILE_BUFFER_COLOR && (format == VC4_LOADSTORE_TILE_BUFFER_RGBA8888
                    || format == VC4_LOADSTORE_TILE_BUFFER_BGR565 || format
                    == VC4_LOADSTORE_TILE_BUFFER_BGR565_DITHER)))
                &&& surf.offset & 0xf == 0
            })
        },
{
    let bits = surf.bits;
    assert(((bits & 0x30u16) >> 4u16) <= 3u16 && ((bits & 0x7u16) >> 0u16) == (bits & 0x7u16)
        && (bits & 0x7u16) <= 7u16 && ((bits & 0x300u16) >> 8u16) <= 3u16 && (0x30u16 | 0x7u16
        | 0x300u16) == 0x337u16) by (bit_vector);
}

/// The render-config (color write) surface is refused with `InvalidParam` when it has bits
/// outside the memory-format and format fields. Otherwise it is taken as it is when it names
/// no buffer object, refused when it names one out of range, and when it names one in range,
/// that buffer object is picked and the surface is accepted exactly when its memory tiling is
/// linear, T or LT and its format is RGBA8888, BGR565 or dithered BGR565.
pub proof fn lemma_render_config_surface_check(
    exec: vc4_exec_info,
    obj: Option<gpu_bo>,
    surf: drm_vc4_submit_rcl_surface,
)
    ensures
        ({
            let bits = surf.bits;
            let tiling = (bits & 0xc0u16) >> 6u16;
            let format = (bits & 0xcu16) >> 2u16;
            let r = rcl_render_config_surface_spec(exec, obj, surf);
            &&& bits & !0xccu16 != 0 ==> r == (obj, Err::<(), Vc4Error>(Vc4Error::InvalidParam))
            &&& bits & !0xccu16 == 0 && surf.hindex == 0xffff_ffffu32 ==> r == (obj, Ok::<(), Vc4Error>(()))
            &&& bits & !0xccu16 == 0 && surf.hindex != 0xffff_ffffu32 && surf.hindex >= exec.bo_count
                ==> r == (obj, Err::<(), Vc4Error>(Vc4Error::InvalidParam))
            &&& bits & !0xccu16 == 0 && surf.hindex != 0xffff_ffffu32 && surf.hindex < exec.bo_count
                ==> {
                &&& r.0 == Some(exec.bo@[surf.hindex as int])
                &&& r.1 is Err ==> r.1 == Err::<(), Vc4Error>(Vc4Error::InvalidParam)
                &&& (r.1 is Ok <==> {
                    &&& (tiling == VC4_TILING_FORMAT_LINEAR || tiling == VC4_TILING_FORMAT_T || tiling
                        == VC4_TILING_FORMAT_LT)
                    &&& (format == VC4_RENDER_CONFIG_FORMAT_RGBA8888 || format
                        == VC4_RENDER_CONFIG_FORMAT_BGR565 || format
                        == VC4_RENDER_CONFIG_FORMAT_BGR565_DITHERED)
                })
            }
        }),
{
    let bits = surf.bits;
    assert(((bits & 0xc0u16) >> 6u16) <= 3u16 && ((bits & 0xcu16) >> 2u16) <= 3u16 && (0xc0u16
        | 0xcu16) == 0xccu16) by (bit_vector);
}

/// A render setup that `vc4_get_rcl` accepts can be sized by `vc4_rcl_size` and written by
/// `vc4_create_rcl_bo`, when its tile range stops short of tile 255.
pub proof fn lemma_accepted_setup_can_be_written(exec: vc4_exec_info)
    requires
        get_rcl_spec(exec) is Ok,
        exec.args.max_x_tile < 255,
        exec.args.max_y_tile < 255,
    ensures
        rcl_layout_ok(exec, get_rcl_spec(exec)->Ok_0),
{
}

} // verus!
