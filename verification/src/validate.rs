//! Checking a binner command list that userspace submitted, and copying it into the job's
//! buffer object.
//!
//! The list is a sequence of packets, each an opcode byte and a fixed number of argument bytes.
//! Known packets are copied to the output (except `VC4_PACKET_GEM_HANDLES`, which only selects
//! buffer objects) and some are then checked and patched by a validator. The walk stops at the
//! end of the list or after a `VC4_PACKET_HALT`.
//!
//! `bin_walk` states the whole walk; a result of `None` marks the inputs on which the walk
//! would index out of bounds, overflow, or never end (an unknown opcode is never stepped over).
use vstd::prelude::*;
use crate::bytes::{le32, read_le32, splice, get_le32, put_u8_at, put_le32_at, lemma_splice_basics};
use crate::device::{gpu_bo, GpuDevice, Vc4Error, round_up_spec, roundUp, lemma_round_up, PAGE_SIZE};
use crate::gem::{vc4_exec_info, vc4_shader_state};
use crate::packet::{
    VC4_PACKET_HALT_SIZE, VC4_PACKET_NOP_SIZE, VC4_PACKET_FLUSH_SIZE, VC4_PACKET_FLUSH_ALL_SIZE,
    VC4_PACKET_START_TILE_BINNING_SIZE, VC4_PACKET_INCREMENT_SEMAPHORE_SIZE,
    VC4_PACKET_GL_INDEXED_PRIMITIVE_SIZE, VC4_PACKET_GL_ARRAY_PRIMITIVE_SIZE,
    VC4_PACKET_PRIMITIVE_LIST_FORMAT_SIZE, VC4_PACKET_GL_SHADER_STATE_SIZE,
    VC4_PACKET_NV_SHADER_STATE_SIZE, VC4_PACKET_CONFIGURATION_BITS_SIZE,
    VC4_PACKET_FLAT_SHADE_FLAGS_SIZE, VC4_PACKET_POINT_SIZE_SIZE, VC4_PACKET_LINE_WIDTH_SIZE,
    VC4_PACKET_RHT_X_BOUNDARY_SIZE, VC4_PACKET_DEPTH_OFFSET_SIZE, VC4_PACKET_CLIP_WINDOW_SIZE,
    VC4_PACKET_VIEWPORT_OFFSET_SIZE, VC4_PACKET_CLIPPER_XY_SCALING_SIZE,
    VC4_PACKET_CLIPPER_Z_SCALING_SIZE, VC4_PACKET_TILE_BINNING_MODE_CONFIG_SIZE,
    VC4_PACKET_GEM_HANDLES_SIZE, VC4_BIN_CONFIG_ALLOC_INIT_BLOCK_SIZE_MASK,
    VC4_BIN_CONFIG_ALLOC_BLOCK_SIZE_MASK, VC4_BIN_CONFIG_AUTO_INIT_TSDA,
    VC4_BIN_CONFIG_ALLOC_INIT_BLOCK_SIZE_32, VC4_BIN_CONFIG_ALLOC_INIT_BLOCK_SIZE_SHIFT,
    VC4_BIN_CONFIG_ALLOC_BLOCK_SIZE_128, VC4_BIN_CONFIG_ALLOC_BLOCK_SIZE_SHIFT,
};

verus! {

/// Opcode of `VC4_PACKET_HALT`.
pub const HALT_CODE: u8 = 0;

/// Opcode of `VC4_PACKET_GEM_HANDLES`.
pub const GEM_HANDLES_CODE: u8 = 254;

/// The checks a packet gets after it is copied.
#[derive(Clone, Copy, Debug, PartialEq, Eq, Structural)]
pub enum Vc4Validator {
    IndexedPrimList,
    GlArrayPrimitive,
    NvShaderState,
    TileBinningConfig,
    GemHandles,
}

/// What the validator knows of a packet: its length and the check it gets.
#[derive(Clone, Copy, Debug, PartialEq, Eq, Structural)]
pub struct Cmd_info {
    pub len: u32,
    pub func: Option<Vc4Validator>,
}

/// The packets a binner list may hold.
pub open spec fn cmd_info_spec(cmd: u8) -> Option<Cmd_info> {
    match cmd {
        0u8 => Some(Cmd_info { len: VC4_PACKET_HALT_SIZE, func: None }),
        1u8 => Some(Cmd_info { len: VC4_PACKET_NOP_SIZE, func: None }),
        4u8 => Some(Cmd_info { len: VC4_PACKET_FLUSH_SIZE, func: None }),
        5u8 => Some(Cmd_info { len: VC4_PACKET_FLUSH_ALL_SIZE, func: None }),
        6u8 => Some(Cmd_info { len: VC4_PACKET_START_TILE_BINNING_SIZE, func: None }),
        7u8 => Some(Cmd_info { len: VC4_PACKET_INCREMENT_SEMAPHORE_SIZE, func: None }),
        32u8 => Some(
            Cmd_info {
                len: VC4_PACKET_GL_INDEXED_PRIMITIVE_SIZE,
                func: Some(Vc4Validator::IndexedPrimList),
            },
        ),
        33u8 => Some(
            Cmd_info {
                len: VC4_PACKET_GL_ARRAY_PRIMITIVE_SIZE,
                func: Some(Vc4Validator::GlArrayPrimitive),
            },
        ),
        56u8 => Some(Cmd_info { len: VC4_PACKET_PRIMITIVE_LIST_FORMAT_SIZE, func: None }),
        64u8 => Some(Cmd_info { len: VC4_PACKET_GL_SHADER_STATE_SIZE, func: None }),
        65u8 => Some(
            Cmd_info { len: VC4_PACKET_NV_SHADER_STATE_SIZE, func: Some(Vc4Validator::NvShaderState) },
        ),
        96u8 => Some(Cmd_info { len: VC4_PACKET_CONFIGURATION_BITS_SIZE, func: None }),
        97u8 => Some(Cmd_info { len: VC4_PACKET_FLAT_SHADE_FLAGS_SIZE, func: None }),
        98u8 => Some(Cmd_info { len: VC4_PACKET_POINT_SIZE_SIZE, func: None }),
        99u8 => Some(Cmd_info { len: VC4_PACKET_LINE_WIDTH_SIZE, func: None }),
        100u8 => Some(Cmd_info { len: VC4_PACKET_RHT_X_BOUNDARY_SIZE, func: None }),
        101u8 => Some(Cmd_info { len: VC4_PACKET_DEPTH_OFFSET_SIZE, func: None }),
        102u8 => Some(Cmd_info { len: VC4_PACKET_CLIP_WINDOW_SIZE, func: None }),
        103u8 => Some(Cmd_info { len: VC4_PACKET_VIEWPORT_OFFSET_SIZE, func: None }),
        105u8 => Some(Cmd_info { len: VC4_PACKET_CLIPPER_XY_SCALING_SIZE, func: None }),
        106u8 => Some(Cmd_info { len: VC4_PACKET_CLIPPER_Z_SCALING_SIZE, func: None }),
        112u8 => Some(
            Cmd_info {
                len: VC4_PACKET_TILE_BINNING_MODE_CONFIG_SIZE,
                func: Some(Vc4Validator::TileBinningConfig),
            },
        ),
        254u8 => Some(
            Cmd_info { len: VC4_PACKET_GEM_HANDLES_SIZE, func: Some(Vc4Validator::GemHandles) },
        ),
        _ => None,
    }
}

/// What the validator knows of the packet with opcode `cmd`.
pub fn cmd_info(cmd: u8) -> (r: Option<Cmd_info>)
    ensures
        r == cmd_info_spec(cmd),
{
    match cmd {
        0u8 => Some(Cmd_info { len: VC4_PACKET_HALT_SIZE, func: None }),
        1u8 => Some(Cmd_info { len: VC4_PACKET_NOP_SIZE, func: None }),
        4u8 => Some(Cmd_info { len: VC4_PACKET_FLUSH_SIZE, func: None }),
        5u8 => Some(Cmd_info { len: VC4_PACKET_FLUSH_ALL_SIZE, func: None }),
        6u8 => Some(Cmd_info { len: VC4_PACKET_START_TILE_BINNING_SIZE, func: None }),
        7u8 => Some(Cmd_info { len: VC4_PACKET_INCREMENT_SEMAPHORE_SIZE, func: None }),
        32u8 => Some(
            Cmd_info {
                len: VC4_PACKET_GL_INDEXED_PRIMITIVE_SIZE,
                func: Some(Vc4Validator::IndexedPrimList),
            },
        ),
        33u8 => Some(
            Cmd_info {
                len: VC4_PACKET_GL_ARRAY_PRIMITIVE_SIZE,
                func: Some(Vc4Validator::GlArrayPrimitive),
            },
        ),
        56u8 => Some(Cmd_info { len: VC4_PACKET_PRIMITIVE_LIST_FORMAT_SIZE, func: None }),
        64u8 => Some(Cmd_info { len: VC4_PACKET_GL_SHADER_STATE_SIZE, func: None }),
        65u8 => Some(
            Cmd_info { len: VC4_PACKET_NV_SHADER_STATE_SIZE, func: Some(Vc4Validator::NvShaderState) },
        ),
        96u8 => Some(Cmd_info { len: VC4_PACKET_CONFIGURATION_BITS_SIZE, func: None }),
        97u8 => Some(Cmd_info { len: VC4_PACKET_FLAT_SHADE_FLAGS_SIZE, func: None }),
        98u8 => Some(Cmd_info { len: VC4_PACKET_POINT_SIZE_SIZE, func: None }),
        99u8 => Some(Cmd_info { len: VC4_PACKET_LINE_WIDTH_SIZE, func: None }),
        100u8 => Some(Cmd_info { len: VC4_PACKET_RHT_X_BOUNDARY_SIZE, func: None }),
        101u8 => Some(Cmd_info { len: VC4_PACKET_DEPTH_OFFSET_SIZE, func: None }),
        102u8 => Some(Cmd_info { len: VC4_PACKET_CLIP_WINDOW_SIZE, func: None }),
        103u8 => Some(Cmd_info { len: VC4_PACKET_VIEWPORT_OFFSET_SIZE, func: None }),
        105u8 => Some(Cmd_info { len: VC4_PACKET_CLIPPER_XY_SCALING_SIZE, func: None }),
        106u8 => Some(Cmd_info { len: VC4_PACKET_CLIPPER_Z_SCALING_SIZE, func: None }),
        112u8 => Some(
            Cmd_info {
                len: VC4_PACKET_TILE_BINNING_MODE_CONFIG_SIZE,
                func: Some(Vc4Validator::TileBinningConfig),
            },
        ),
        254u8 => Some(
            Cmd_info { len: VC4_PACKET_GEM_HANDLES_SIZE, func: Some(Vc4Validator::GemHandles) },
        ),
        _ => None,
    }
}

/// The part of a job that checking the binner list changes, with the output memory `dst`.
#[verifier::ext_equal]
pub struct BinState {
    pub bo_index: Seq<u32>,
    pub shader_state: Seq<vc4_shader_state>,
    pub shader_state_count: u32,
    pub bin_tiles_x: u8,
    pub bin_tiles_y: u8,
    pub tile_alloc_offset: u32,
    pub shader_rec_p: u32,
    pub dst: Seq<u8>,
}

/// The part of a job that checking the binner list reads but does not change, and the
/// physical address of the binner's buffer object.
pub struct BinCtx {
    pub bo: Seq<gpu_bo>,
    pub bo_count: u32,
    pub shader_state_size: u32,
    pub bin_paddr: u32,
}

impl vc4_exec_info {
    /// The job's validator state, with output memory `dst`.
    pub open spec fn bin_state(&self, dst: Seq<u8>) -> BinState {
        BinState {
            bo_index: self.bo_index@,
            shader_state: self.shader_state@,
            shader_state_count: self.shader_state_count,
            bin_tiles_x: self.bin_tiles_x,
            bin_tiles_y: self.bin_tiles_y,
            tile_alloc_offset: self.tile_alloc_offset,
            shader_rec_p: self.shader_rec_p,
            dst,
        }
    }

    /// What the validator reads of the job.
    pub open spec fn bin_ctx(&self, bin_paddr: u32) -> BinCtx {
        BinCtx {
            bo: self.bo@,
            bo_count: self.bo_count,
            shader_state_size: self.shader_state_size,
            bin_paddr,
        }
    }

    /// `self` and `other` agree on everything but the validator state and `ct0ea`.
    pub open spec fn same_outside_bin_state(&self, other: vc4_exec_info) -> bool {
        &&& self.args == other.args
        &&& self.bo@ == other.bo@
        &&& self.bo_count == other.bo_count
        &&& self.unref_list@ == other.unref_list@
        &&& self.exec_bo == other.exec_bo
        &&& self.shader_state_size == other.shader_state_size
        &&& self.ct0ca == other.ct0ca
        &&& self.ct1ca == other.ct1ca
        &&& self.ct1ea == other.ct1ea
        &&& self.bin_u == other.bin_u
        &&& self.shader_rec_u == other.shader_rec_u
        &&& self.shader_rec_v == other.shader_rec_v
        &&& self.shader_rec_size == other.shader_rec_size
    }
}

/// The buffer object at index `hindex` of the job, if the index is below `bo_count`.
pub fn vc4_use_bo(exec: &vc4_exec_info, hindex: u32) -> (r: Option<gpu_bo>)
    requires
        hindex < exec.bo_count ==> hindex < exec.bo@.len(),
    ensures
        hindex >= exec.bo_count ==> r is None,
        hindex < exec.bo_count ==> r == Some(exec.bo@[hindex as int]),
{
    if hindex >= exec.bo_count {
        return None;
    }
    Some(exec.bo[hindex as usize])
}

/// `(value << shift) & mask` on a byte.
pub open spec fn set_field8_spec(value: u8, shift: u8, mask: u8) -> u8 {
    ((value << shift) & mask) as u8
}

/// Places `value` at bit `shift` and keeps only the bits of `mask`.
pub fn vc4_set_field(value: u8, shift: u8, mask: u8) -> (r: u8)
    requires
        shift < 8,
    ensures
        r == set_field8_spec(value, shift, mask),
{
    let fieldvar: u8 = value << shift;
    fieldvar & mask
}

/// The buffer object that the GEM-handles slot `gem_handles_packet_index` selects.
pub fn vc4_use_handle(exec: &vc4_exec_info, gem_handles_packet_index: u32) -> (r: Option<gpu_bo>)
    requires
        gem_handles_packet_index < 2,
        exec.bo_index@[gem_handles_packet_index as int] < exec.bo_count ==> exec.bo_index@[
            gem_handles_packet_index as int] < exec.bo@.len(),
    ensures
        ({
            let h = exec.bo_index@[gem_handles_packet_index as int];
            &&& h >= exec.bo_count ==> r is None
            &&& h < exec.bo_count ==> r == Some(exec.bo@[h as int])
        }),
{
    vc4_use_bo(exec, exec.bo_index[gem_handles_packet_index as usize])
}

/// `s` with the largest index of shader state `k` raised to `m` if `m` is larger.
pub open spec fn raise_max_index(s: BinState, k: int, m: u32) -> BinState {
    if m > s.shader_state[k].max_index {
        BinState {
            shader_state: s.shader_state.update(
                k,
                vc4_shader_state { addr: s.shader_state[k].addr, max_index: m },
            ),
            ..s
        }
    } else {
        s
    }
}

/// Bytes per index: 2 when the high nibble of the primitive's first byte is 1, else 1.
pub open spec fn index_size_of(flags: u8) -> u32 {
    if flags >> 4u8 == 1 {
        2
    } else {
        1
    }
}

/// An indexed primitive list with argument bytes `b`, whose output packet starts at `dst[v]`.
/// It raises the current shader state's largest index, checks that the index buffer (the
/// buffer object in GEM slot 0) holds `length` indices from `offset` on, and writes the index
/// buffer's physical address plus `offset` at `dst[v + 14]`.
pub open spec fn indexed_prim_list_spec(ctx: BinCtx, s: BinState, v: int, b: Seq<u8>) -> Option<
    (BinState, Result<(), Vc4Error>),
> {
    if b.len() < 13 {
        Some((s, Err(Vc4Error::InvalidParam)))
    } else {
        let length = read_le32(b, 1);
        let offset = read_le32(b, 5);
        let max_index = read_le32(b, 9);
        let index_size = index_size_of(b[0]);
        if s.shader_state_count == 0 {
            Some((s, Err(Vc4Error::InvalidParam)))
        } else if s.shader_state_count - 1 >= s.shader_state.len() {
            None
        } else {
            let s1 = raise_max_index(s, s.shader_state_count - 1, max_index);
            let hindex = s.bo_index[0];
            if hindex >= ctx.bo_count {
                Some((s1, Err(Vc4Error::InvalidParam)))
            } else if hindex >= ctx.bo.len() {
                None
            } else {
                let ib = ctx.bo[hindex as int];
                if offset > ib.size || (ib.size - offset) / (index_size as int) < length {
                    Some((s1, Err(Vc4Error::InvalidParam)))
                } else if ib.paddr + offset > u32::MAX || v + 18 > s1.dst.len() {
                    None
                } else {
                    Some(
                        (
                            BinState {
                                dst: splice(s1.dst, v + 14, le32((ib.paddr + offset) as u32)),
                                ..s1
                            },
                            Ok(()),
                        ),
                    )
                }
            }
        }
    }
}

/// An array primitive with argument bytes `b`: `length` vertices from `base_index` on. It
/// raises the current shader state's largest index to `length + base_index - 1`; a sum that
/// wraps around 2^32 is refused.
pub open spec fn gl_array_primitive_spec(s: BinState, b: Seq<u8>) -> Option<
    (BinState, Result<(), Vc4Error>),
> {
    if b.len() < 9 {
        None
    } else {
        let length = read_le32(b, 1);
        let base_index = read_le32(b, 5);
        if s.shader_state_count == 0 {
            Some((s, Err(Vc4Error::InvalidParam)))
        } else if length + base_index > u32::MAX {
            Some((s, Err(Vc4Error::InvalidParam)))
        } else if length + base_index == 0 || s.shader_state_count - 1 >= s.shader_state.len() {
            None
        } else {
            Some(
                (
                    raise_max_index(
                        s,
                        s.shader_state_count - 1,
                        (length + base_index - 1) as u32,
                    ),
                    Ok(()),
                ),
            )
        }
    }
}

/// An NV shader state packet with argument bytes `b`, output at `dst[v]`. It counts one more
/// shader state; if that is within the declared number, it records the state's address, writes
/// the shader record pointer plus that address at `dst[v]` and moves the pointer on 16 bytes.
pub open spec fn nv_shader_state_spec(ctx: BinCtx, s: BinState, v: int, b: Seq<u8>) -> Option<
    (BinState, Result<(), Vc4Error>),
> {
    let i = s.shader_state_count;
    if i == u32::MAX {
        None
    } else {
        let s1 = BinState { shader_state_count: (i + 1) as u32, ..s };
        if i >= ctx.shader_state_size {
            Some((s1, Err(Vc4Error::InvalidParam)))
        } else if b.len() < 4 || i >= s.shader_state.len() {
            None
        } else {
            let addr = read_le32(b, 0);
            if s.shader_rec_p + addr > u32::MAX || s.shader_rec_p + 16 > u32::MAX || v + 4
                > s.dst.len() {
                None
            } else {
                Some(
                    (
                        BinState {
                            shader_state: s.shader_state.update(
                                i as int,
                                vc4_shader_state { addr, max_index: 0 },
                            ),
                            dst: splice(s.dst, v, le32((s.shader_rec_p + addr) as u32)),
                            shader_rec_p: (s.shader_rec_p + 16) as u32,
                            ..s1
                        },
                        Ok(()),
                    ),
                )
            }
        }
    }
}

/// The last byte of a checked tile binning configuration: the caller's flags with both
/// allocation block sizes cleared, automatic tile state initialisation on, an initial block
/// size of 32 and a block size of 128.
pub open spec fn tile_config_flags(flags: u8) -> u8 {
    ((flags & !(VC4_BIN_CONFIG_ALLOC_INIT_BLOCK_SIZE_MASK | VC4_BIN_CONFIG_ALLOC_BLOCK_SIZE_MASK))
        | VC4_BIN_CONFIG_AUTO_INIT_TSDA | set_field8_spec(
        VC4_BIN_CONFIG_ALLOC_INIT_BLOCK_SIZE_32,
        VC4_BIN_CONFIG_ALLOC_INIT_BLOCK_SIZE_SHIFT,
        VC4_BIN_CONFIG_ALLOC_INIT_BLOCK_SIZE_MASK,
    ) | set_field8_spec(
        VC4_BIN_CONFIG_ALLOC_BLOCK_SIZE_128,
        VC4_BIN_CONFIG_ALLOC_BLOCK_SIZE_SHIFT,
        VC4_BIN_CONFIG_ALLOC_BLOCK_SIZE_MASK,
    )) as u8
}

/// Where the tile allocation array starts: after 48 bytes of tile state per tile, rounded up
/// to a page, in the binner's buffer object.
pub open spec fn tile_alloc_offset_spec(bin_paddr: u32, x: u8, y: u8) -> int {
    bin_paddr + round_up_spec((48 * (x as int * y as int)) as u32, PAGE_SIZE as u32)
}

/// A tile binning configuration with argument bytes `b`, output at `dst[v]`. It records the
/// tile counts, places the tile allocation array in the binner's buffer object, and rewrites
/// the packet's addresses and flags.
pub open spec fn tile_binning_config_spec(ctx: BinCtx, s: BinState, v: int, b: Seq<u8>) -> Option<
    (BinState, Result<(), Vc4Error>),
> {
    if b.len() < 15 || v + 15 > s.dst.len() {
        None
    } else {
        let x = b[12];
        let y = b[13];
        let tao = tile_alloc_offset_spec(ctx.bin_paddr, x, y);
        if tao > u32::MAX {
            None
        } else {
            Some(
                (
                    BinState {
                        bin_tiles_x: x,
                        bin_tiles_y: y,
                        tile_alloc_offset: tao as u32,
                        dst: splice(
                            splice(splice(s.dst, v + 14, seq![tile_config_flags(b[14])]), v, le32(tao as u32)),
                            v + 4,
                            le32(ctx.bin_paddr),
                        ),
                        ..s
                    },
                    Ok(()),
                ),
            )
        }
    }
}

/// A GEM handles packet with argument bytes `b`: loads the two buffer object indices.
pub open spec fn gem_handles_spec(s: BinState, b: Seq<u8>) -> Option<(BinState, Result<(), Vc4Error>)> {
    if b.len() < 8 {
        None
    } else {
        Some((BinState { bo_index: seq![read_le32(b, 0), read_le32(b, 4)], ..s }, Ok(())))
    }
}

/// The check `f` on a packet with argument bytes `b` and output at `dst[v]`.
pub open spec fn validator_spec(f: Vc4Validator, ctx: BinCtx, s: BinState, v: int, b: Seq<u8>) -> Option<
    (BinState, Result<(), Vc4Error>),
> {
    match f {
        Vc4Validator::IndexedPrimList => indexed_prim_list_spec(ctx, s, v, b),
        Vc4Validator::GlArrayPrimitive => gl_array_primitive_spec(s, b),
        Vc4Validator::NvShaderState => nv_shader_state_spec(ctx, s, v, b),
        Vc4Validator::TileBinningConfig => tile_binning_config_spec(ctx, s, v, b),
        Vc4Validator::GemHandles => gem_handles_spec(s, b),
    }
}

/// The walk over the binner list `src` of length `len` from byte `so` on, with the output at
/// `dst[dof]` on: the final validator state and, on success, the length of the output.
pub open spec fn bin_walk(ctx: BinCtx, s: BinState, src: Seq<u8>, len: u32, so: int, dof: int) -> Option<
    (BinState, Result<int, Vc4Error>),
>
    decreases len - so,
{
    if so >= len {
        Some((s, Ok(dof)))
    } else if so < 0 || so >= src.len() {
        None
    } else {
        let cmd = src[so];
        match cmd_info_spec(cmd) {
            None => None,
            Some(info) => {
                let plen = info.len as int;
                if so + plen > u32::MAX {
                    None
                } else if so + plen > len {
                    Some((s, Err(Vc4Error::InvalidParam)))
                } else if so + plen > src.len() || (cmd != GEM_HANDLES_CODE && dof + plen
                    > s.dst.len()) || dof < 0 {
                    None
                } else {
                    let s1 = if cmd == GEM_HANDLES_CODE {
                        s
                    } else {
                        BinState { dst: splice(s.dst, dof, src.subrange(so, so + plen)), ..s }
                    };
                    let r = match info.func {
                        Some(f) => validator_spec(
                            f,
                            ctx,
                            s1,
                            dof + 1,
                            src.subrange(so + 1, src.len() as int),
                        ),
                        None => Some((s1, Ok(()))),
                    };
                    match r {
                        None => None,
                        Some(r) => {
                            let dof2 = if cmd == GEM_HANDLES_CODE {
                                dof
                            } else {
                                dof + plen
                            };
                            if cmd == HALT_CODE {
                                Some((r.0, Ok(dof2)))
                            } else {
                                bin_walk(ctx, r.0, src, len, so + plen, dof2)
                            }
                        }
                    }
                }
            }
        }
    }
}

/// Checks an indexed primitive list: see `indexed_prim_list_spec`. The packet's output starts
/// at `validated[v]` and its argument bytes at `untrusted[0]`.
pub fn validate_indexed_prim_list(
    exec: &mut vc4_exec_info,
    validated: &mut Vec<u8>,
    v: usize,
    untrusted: &[u8],
    bin_paddr: u32,
) -> (r: Result<(), Vc4Error>)
    requires
        indexed_prim_list_spec(
            old(exec).bin_ctx(bin_paddr),
            old(exec).bin_state(old(validated)@),
            v as int,
            untrusted@,
        ) is Some,
    ensures
        indexed_prim_list_spec(
            old(exec).bin_ctx(bin_paddr),
            old(exec).bin_state(old(validated)@),
            v as int,
            untrusted@,
        ) == Some((final(exec).bin_state(final(validated)@), r)),
        old(exec).same_outside_bin_state(*final(exec)),
        final(exec).ct0ea == old(exec).ct0ea,
{
    proof {
        assert(validated@.len() == validated.len());
    }
    if untrusted.len() < 13 {
        return Err(Vc4Error::InvalidParam);
    }
    let length: u32 = get_le32(untrusted, 1);
    let offset: u32 = get_le32(untrusted, 5);
    let max_index: u32 = get_le32(untrusted, 9);
    let index_size: u32;
    if (untrusted[0] >> 4u8) == 1 {
        index_size = 2;
    } else {
        index_size = 1;
    }
    if exec.shader_state_count == 0 {
        return Err(Vc4Error::InvalidParam);
    }
    let k = (exec.shader_state_count - 1) as usize;
    let shader_state = exec.shader_state[k];
    if max_index > shader_state.max_index {
        exec.shader_state.set(k, vc4_shader_state { addr: shader_state.addr, max_index });
    }
    assert(exec.bin_state(validated@) == raise_max_index(
        old(exec).bin_state(old(validated)@),
        k as int,
        max_index,
    ));
    match vc4_use_handle(exec, 0) {
        Some(ib) => {
            if offset as usize > ib.size || (ib.size - offset as usize) / (index_size as usize)
                < length as usize {
                return Err(Vc4Error::InvalidParam);
            }
            put_le32_at(validated, v + 14, ib.paddr + offset);
            Ok(())
        },
        None => Err(Vc4Error::InvalidParam),
    }
}

/// Checks an array primitive: see `gl_array_primitive_spec`.
pub fn validate_gl_array_primitive(
    exec: &mut vc4_exec_info,
    validated: &mut Vec<u8>,
    v: usize,
    untrusted: &[u8],
    bin_paddr: u32,
) -> (r: Result<(), Vc4Error>)
    requires
        gl_array_primitive_spec(old(exec).bin_state(old(validated)@), untrusted@) is Some,
    ensures
        gl_array_primitive_spec(old(exec).bin_state(old(validated)@), untrusted@) == Some(
            (final(exec).bin_state(final(validated)@), r),
        ),
        old(exec).same_outside_bin_state(*final(exec)),
        final(exec).ct0ea == old(exec).ct0ea,
{
    let length: u32 = get_le32(untrusted, 1);
    let base_index: u32 = get_le32(untrusted, 5);
    if exec.shader_state_count == 0 {
        return Err(Vc4Error::InvalidParam);
    }
    if length.wrapping_add(base_index) < length {
        return Err(Vc4Error::InvalidParam);
    }
    let max_index = length + base_index - 1;
    let k = (exec.shader_state_count - 1) as usize;
    let shader_state = exec.shader_state[k];
    if max_index > shader_state.max_index {
        exec.shader_state.set(k, vc4_shader_state { addr: shader_state.addr, max_index });
    }
    assert(exec.bin_state(validated@) == raise_max_index(
        old(exec).bin_state(old(validated)@),
        k as int,
        max_index,
    ));
    Ok(())
}

/// Checks an NV shader state packet: see `nv_shader_state_spec`.
pub fn validate_nv_shader_state(
    exec: &mut vc4_exec_info,
    validated: &mut Vec<u8>,
    v: usize,
    untrusted: &[u8],
    bin_paddr: u32,
) -> (r: Result<(), Vc4Error>)
    requires
        nv_shader_state_spec(
            old(exec).bin_ctx(bin_paddr),
            old(exec).bin_state(old(validated)@),
            v as int,
            untrusted@,
        ) is Some,
    ensures
        nv_shader_state_spec(
            old(exec).bin_ctx(bin_paddr),
            old(exec).bin_state(old(validated)@),
            v as int,
            untrusted@,
        ) == Some((final(exec).bin_state(final(validated)@), r)),
        old(exec).same_outside_bin_state(*final(exec)),
        final(exec).ct0ea == old(exec).ct0ea,
{
    proof {
        assert(validated@.len() == validated.len());
    }
    let i = exec.shader_state_count;
    exec.shader_state_count = exec.shader_state_count + 1;
    if i >= exec.shader_state_size {
        return Err(Vc4Error::InvalidParam);
    }
    let addr = get_le32(untrusted, 0);
    exec.shader_state.set(i as usize, vc4_shader_state { addr, max_index: 0 });
    put_le32_at(validated, v, exec.shader_rec_p + addr);
    exec.shader_rec_p = exec.shader_rec_p + 16;
    Ok(())
}

/// Checks a tile binning configuration: see `tile_binning_config_spec`.
pub fn validate_tile_binning_config(
    exec: &mut vc4_exec_info,
    validated: &mut Vec<u8>,
    v: usize,
    untrusted: &[u8],
    bin_paddr: u32,
) -> (r: Result<(), Vc4Error>)
    requires
        tile_binning_config_spec(
            old(exec).bin_ctx(bin_paddr),
            old(exec).bin_state(old(validated)@),
            v as int,
            untrusted@,
        ) is Some,
    ensures
        tile_binning_config_spec(
            old(exec).bin_ctx(bin_paddr),
            old(exec).bin_state(old(validated)@),
            v as int,
            untrusted@,
        ) == Some((final(exec).bin_state(final(validated)@), r)),
        old(exec).same_outside_bin_state(*final(exec)),
        final(exec).ct0ea == old(exec).ct0ea,
{
    proof {
        assert(validated@.len() == validated.len());
    }
    exec.bin_tiles_x = untrusted[12];
    exec.bin_tiles_y = untrusted[13];
    let tx = exec.bin_tiles_x as u32;
    let ty = exec.bin_tiles_y as u32;
    assert(tx * ty <= 255 * 255) by (nonlinear_arith)
        requires
            tx <= 255,
            ty <= 255,
    ;
    let tile_count: u32 = tx * ty;
    let flags: u8 = untrusted[14];
    let tile_state_size: u32 = 48 * tile_count;
    let byte: u8 = (flags & !(VC4_BIN_CONFIG_ALLOC_INIT_BLOCK_SIZE_MASK
        | VC4_BIN_CONFIG_ALLOC_BLOCK_SIZE_MASK)) | VC4_BIN_CONFIG_AUTO_INIT_TSDA | vc4_set_field(
        VC4_BIN_CONFIG_ALLOC_INIT_BLOCK_SIZE_32,
        VC4_BIN_CONFIG_ALLOC_INIT_BLOCK_SIZE_SHIFT,
        VC4_BIN_CONFIG_ALLOC_INIT_BLOCK_SIZE_MASK,
    ) | vc4_set_field(
        VC4_BIN_CONFIG_ALLOC_BLOCK_SIZE_128,
        VC4_BIN_CONFIG_ALLOC_BLOCK_SIZE_SHIFT,
        VC4_BIN_CONFIG_ALLOC_BLOCK_SIZE_MASK,
    );
    put_u8_at(validated, v + 14, byte);
    exec.tile_alloc_offset = bin_paddr + roundUp(tile_state_size, PAGE_SIZE as u32);
    put_le32_at(validated, v, exec.tile_alloc_offset);
    put_le32_at(validated, v + 4, bin_paddr);
    Ok(())
}

/// Loads the two buffer object indices of a GEM handles packet.
pub fn validate_gem_handles(
    exec: &mut vc4_exec_info,
    validated: &mut Vec<u8>,
    v: usize,
    untrusted: &[u8],
    bin_paddr: u32,
) -> (r: Result<(), Vc4Error>)
    requires
        gem_handles_spec(old(exec).bin_state(old(validated)@), untrusted@) is Some,
    ensures
        gem_handles_spec(old(exec).bin_state(old(validated)@), untrusted@) == Some(
            (final(exec).bin_state(final(validated)@), r),
        ),
        old(exec).same_outside_bin_state(*final(exec)),
        final(exec).ct0ea == old(exec).ct0ea,
{
    let h0 = get_le32(untrusted, 0);
    let h1 = get_le32(untrusted, 4);
    exec.bo_index = [h0, h1];
    assert(exec.bo_index@ =~= seq![h0, h1]);
    Ok(())
}

/// Runs the check `f`.
fn run_validator(
    f: Vc4Validator,
    exec: &mut vc4_exec_info,
    validated: &mut Vec<u8>,
    v: usize,
    untrusted: &[u8],
    bin_paddr: u32,
) -> (r: Result<(), Vc4Error>)
    requires
        validator_spec(
            f,
            old(exec).bin_ctx(bin_paddr),
            old(exec).bin_state(old(validated)@),
            v as int,
            untrusted@,
        ) is Some,
    ensures
        validator_spec(
            f,
            old(exec).bin_ctx(bin_paddr),
            old(exec).bin_state(old(validated)@),
            v as int,
            untrusted@,
        ) == Some((final(exec).bin_state(final(validated)@), r)),
        old(exec).same_outside_bin_state(*final(exec)),
        final(exec).ct0ea == old(exec).ct0ea,
{
    match f {
        Vc4Validator::IndexedPrimList => validate_indexed_prim_list(
            exec,
            validated,
            v,
            untrusted,
            bin_paddr,
        ),
        Vc4Validator::GlArrayPrimitive => validate_gl_array_primitive(
            exec,
            validated,
            v,
            untrusted,
            bin_paddr,
        ),
        Vc4Validator::NvShaderState => validate_nv_shader_state(
            exec,
            validated,
            v,
            untrusted,
            bin_paddr,
        ),
        Vc4Validator::TileBinningConfig => validate_tile_binning_config(
            exec,
            validated,
            v,
            untrusted,
            bin_paddr,
        ),
        Vc4Validator::GemHandles => validate_gem_handles(exec, validated, v, untrusted, bin_paddr),
    }
}

/// Copies `src[so..so + n]` to `dst[d..d + n]`.
fn copy_packet(dst: &mut Vec<u8>, d: usize, src: &Vec<u8>, so: usize, n: usize)
    requires
        d + n <= old(dst)@.len(),
        so + n <= src@.len(),
    ensures
        final(dst)@ == splice(old(dst)@, d as int, src@.subrange(so as int, (so + n) as int)),
{
    let dl = dst.len();
    let sl = src.len();
    let mut i: usize = 0;
    while i < n
        invariant
            i <= n,
            dl == old(dst)@.len(),
            sl == src@.len(),
            d + n <= old(dst)@.len(),
            so + n <= src@.len(),
            dst@ == splice(old(dst)@, d as int, src@.subrange(so as int, (so + i) as int)),
        decreases n - i,
    {
        dst.set(d + i, src[so + i]);
        i = i + 1;
        assert(dst@ =~= splice(old(dst)@, d as int, src@.subrange(so as int, (so + i) as int)));
    }
}

/// Whether the binner list of `exec`, with output `dst`, can be walked with the binner buffer
/// at `bin_paddr`: the walk neither overflows nor leaves its buffers nor runs forever, and on
/// success the end address `ct0ca + length` fits in 32 bits.
pub open spec fn bin_cl_checkable(exec: vc4_exec_info, dst: Seq<u8>, src: Seq<u8>, bin_paddr: u32) -> bool {
    let w = bin_walk(exec.bin_ctx(bin_paddr), exec.bin_state(dst), src, exec.args.bin_cl_size, 0, 0);
    &&& w is Some
    &&& (w matches Some((_, Ok(d))) ==> exec.ct0ca + d <= u32::MAX)
}

/// What checking the binner list `src` into `d0` does to the job `e0`, with binner buffer
/// object `bin_bo`: `e1`, `d1` and `r` are the job, the output memory and the result after.
/// Without a binner buffer object the check fails with `InvalidParam` and changes nothing;
/// with one, the validator state and output are those of `bin_walk`, and on success the end
/// address of the binner thread is its start address plus the length of the output. Nothing
/// outside the validator state and `ct0ea` changes.
pub open spec fn bin_cl_validated(
    bin_bo: Option<gpu_bo>,
    e0: vc4_exec_info,
    d0: Seq<u8>,
    src: Seq<u8>,
    e1: vc4_exec_info,
    d1: Seq<u8>,
    r: Result<(), Vc4Error>,
) -> bool {
    &&& e0.same_outside_bin_state(e1)
    &&& match bin_bo {
        None => {
            &&& r == Err::<(), Vc4Error>(Vc4Error::InvalidParam)
            &&& e1.bin_state(d1) == e0.bin_state(d0)
            &&& e1.ct0ea == e0.ct0ea
        },
        Some(b) => {
            let w = bin_walk(e0.bin_ctx(b.paddr), e0.bin_state(d0), src, e0.args.bin_cl_size, 0, 0).unwrap();
            &&& e1.bin_state(d1) == w.0
            &&& match w.1 {
                Ok(d) => r is Ok && e1.ct0ea == e0.ct0ca + d,
                Err(e) => r == Err::<(), Vc4Error>(e) && e1.ct0ea == e0.ct0ea,
            }
        },
    }
}

/// Whether the check `f` can be run on a packet with argument bytes `untrusted` and output
/// at `validated[v]`: see `validator_spec`, which is `None` where it cannot.
fn validator_fits(
    f: Vc4Validator,
    exec: &vc4_exec_info,
    validated: &Vec<u8>,
    v: usize,
    untrusted: &[u8],
    bin_paddr: u32,
) -> (r: bool)
    ensures
        r == (validator_spec(
            f,
            exec.bin_ctx(bin_paddr),
            exec.bin_state(validated@),
            v as int,
            untrusted@,
        ) is Some),
{
    let dl = validated.len();
    match f {
        Vc4Validator::IndexedPrimList => {
            if untrusted.len() < 13 {
                return true;
            }
            if exec.shader_state_count == 0 {
                return true;
            }
            if (exec.shader_state_count - 1) as usize >= exec.shader_state.len() {
                return false;
            }
            let hindex = exec.bo_index[0];
            if hindex >= exec.bo_count {
                return true;
            }
            if hindex as usize >= exec.bo.len() {
                return false;
            }
            let ib = exec.bo[hindex as usize];
            let length: u32 = get_le32(untrusted, 1);
            let offset: u32 = get_le32(untrusted, 5);
            let index_size: usize = if (untrusted[0] >> 4u8) == 1 {
                2
            } else {
                1
            };
            if offset as usize > ib.size || (ib.size - offset as usize) / index_size < length as usize {
                return true;
            }
            !(ib.paddr as u64 + offset as u64 > u32::MAX as u64 || v > dl || dl - v < 18)
        },
        Vc4Validator::GlArrayPrimitive => {
            if untrusted.len() < 9 {
                return false;
            }
            let length: u32 = get_le32(untrusted, 1);
            let base_index: u32 = get_le32(untrusted, 5);
            if exec.shader_state_count == 0 {
                return true;
            }
            let sum = length as u64 + base_index as u64;
            if sum > u32::MAX as u64 {
                return true;
            }
            !(sum == 0 || (exec.shader_state_count - 1) as usize >= exec.shader_state.len())
        },
        Vc4Validator::NvShaderState => {
            let i = exec.shader_state_count;
            if i == u32::MAX {
                return false;
            }
            if i >= exec.shader_state_size {
                return true;
            }
            if untrusted.len() < 4 || i as usize >= exec.shader_state.len() {
                return false;
            }
            let addr: u32 = get_le32(untrusted, 0);
            let p = exec.shader_rec_p as u64;
            !(p + addr as u64 > u32::MAX as u64 || p + 16 > u32::MAX as u64 || v > dl || dl - v < 4)
        },
        Vc4Validator::TileBinningConfig => {
            if untrusted.len() < 15 || v > dl || dl - v < 15 {
                return false;
            }
            let tx = untrusted[12] as u32;
            let ty = untrusted[13] as u32;
            assert(tx * ty <= 255 * 255) by (nonlinear_arith)
                requires
                    tx <= 255,
                    ty <= 255,
            ;
            let tile_state_size: u32 = 48 * (tx * ty);
            let rounded = roundUp(tile_state_size, PAGE_SIZE as u32);
            bin_paddr as u64 + rounded as u64 <= u32::MAX as u64
        },
        Vc4Validator::GemHandles => untrusted.len() >= 8,
    }
}

/// Walks the binner list `src` (`exec.args.bin_cl_size` bytes of it), copying packets into
/// `validated` and running their checks: the state and result of `bin_walk`, or `None` exactly
/// where `bin_walk` is `None` (the walk would leave its buffers, overflow, or never end).
fn walk_bin_cl(exec: &mut vc4_exec_info, validated: &mut Vec<u8>, src: &Vec<u8>, bin_paddr: u32) -> (r: Option<
    Result<usize, Vc4Error>,
>)
    ensures
        ({
            let w = bin_walk(
                old(exec).bin_ctx(bin_paddr),
                old(exec).bin_state(old(validated)@),
                src@,
                old(exec).args.bin_cl_size,
                0,
                0,
            );
            match r {
                None => w is None,
                Some(Ok(d)) => w == Some((final(exec).bin_state(final(validated)@), Ok::<int, Vc4Error>(d as int))),
                Some(Err(e)) => w == Some((final(exec).bin_state(final(validated)@), Err::<int, Vc4Error>(e))),
            }
        }),
        old(exec).same_outside_bin_state(*final(exec)),
        final(exec).ct0ea == old(exec).ct0ea,
{
    let len = exec.args.bin_cl_size;
    let mut dst_offset: usize = 0;
    let mut src_offset: u32 = 0;
    let ghost ctx = old(exec).bin_ctx(bin_paddr);
    let ghost total = bin_walk(ctx, old(exec).bin_state(old(validated)@), src@, len, 0, 0);
    let ghost old_exec = *old(exec);
    while src_offset < len
        invariant_except_break
            total == bin_walk(ctx, exec.bin_state(validated@), src@, len, src_offset as int, dst_offset as int),
        invariant
            old_exec == *old(exec),
            total == bin_walk(
                old(exec).bin_ctx(bin_paddr),
                old(exec).bin_state(old(validated)@),
                src@,
                old(exec).args.bin_cl_size,
                0,
                0,
            ),
            ctx == exec.bin_ctx(bin_paddr),
            len == exec.args.bin_cl_size,
            old_exec.same_outside_bin_state(*exec),
            exec.ct0ea == old_exec.ct0ea,
        ensures
            total == Some((exec.bin_state(validated@), Ok::<int, Vc4Error>(dst_offset as int))),
        decreases len - src_offset,
    {
        let so = src_offset as usize;
        if so >= src.len() {
            return None;
        }
        let cmd: u8 = src[so];
        let info = match cmd_info(cmd) {
            Some(info) => info,
            None => {
                return None;
            },
        };
        if src_offset as u64 + info.len as u64 > u32::MAX as u64 {
            return None;
        }
        if src_offset + info.len > len {
            return Some(Err(Vc4Error::InvalidParam));
        }
        let plen = info.len as usize;
        if plen > src.len() - so {
            return None;
        }
        if cmd != GEM_HANDLES_CODE && (dst_offset > validated.len() || validated.len() - dst_offset < plen) {
            return None;
        }
        if cmd != GEM_HANDLES_CODE {
            copy_packet(validated, dst_offset, src, so, plen);
        }
        match info.func {
            Some(f) => {
                let rest = &src.as_slice()[(so + 1)..src.len()];
                // GEM handles produce no output, so their check has no output position.
                let v = if cmd == GEM_HANDLES_CODE {
                    dst_offset
                } else {
                    dst_offset + 1
                };
                if !validator_fits(f, exec, validated, v, rest, bin_paddr) {
                    return None;
                }
                let _ = run_validator(f, exec, validated, v, rest, bin_paddr);
            },
            None => {},
        }
        src_offset = src_offset + info.len;
        if cmd != GEM_HANDLES_CODE {
            dst_offset = dst_offset + plen;
        }
        if cmd == HALT_CODE {
            break;
        }
    }
    Some(Ok(dst_offset))
}

impl GpuDevice {
    /// Checks the binner list `src` (`exec.args.bin_cl_size` bytes of it) and copies it into
    /// `validated`, the memory of the job's buffer object: see `bin_cl_validated` and
    /// `bin_walk`. A failing packet check does not stop the walk.
    pub fn vc4_validate_bin_cl(
        &self,
        exec: &mut vc4_exec_info,
        validated: &mut Vec<u8>,
        src: &Vec<u8>,
    ) -> (r: Result<(), Vc4Error>)
        requires
            self.bin_bo matches Some(b) ==> bin_cl_checkable(*old(exec), old(validated)@, src@, b.paddr),
        ensures
            bin_cl_validated(self.bin_bo, *old(exec), old(validated)@, src@, *final(exec), final(validated)@, r),
    {
        let bin_paddr: u32 = match self.bin_bo {
            Some(b) => b.paddr,
            None => {
                return Err(Vc4Error::InvalidParam);
            },
        };
        match walk_bin_cl(exec, validated, src, bin_paddr) {
            Some(Ok(d)) => {
                exec.ct0ea = exec.ct0ca + d as u32;
                Ok(())
            },
            Some(Err(e)) => Err(e),
            None => {
                proof {
                    assert(false);
                }
                Err(Vc4Error::InvalidParam)
            },
        }
    }
}

/// A copy of `v`.
fn copy_vec<T: Copy>(v: &Vec<T>) -> (r: Vec<T>)
    ensures
        r@ == v@,
{
    let mut r: Vec<T> = Vec::new();
    let mut i: usize = 0;
    while i < v.len()
        invariant
            i <= v@.len(),
            r@ == v@.subrange(0, i as int),
        decreases v@.len() - i,
    {
        r.push(v[i]);
        i = i + 1;
        assert(r@ =~= v@.subrange(0, i as int));
    }
    assert(r@ =~= v@);
    r
}

/// A copy of what walking a binner list reads and changes of `exec`.
pub(crate) fn copy_walk_state(exec: &vc4_exec_info) -> (r: vc4_exec_info)
    ensures
        r.args == exec.args,
        r.bo@ == exec.bo@,
        r.bo_count == exec.bo_count,
        r.bo_index@ == exec.bo_index@,
        r.exec_bo == exec.exec_bo,
        r.shader_state@ == exec.shader_state@,
        r.shader_state_size == exec.shader_state_size,
        r.shader_state_count == exec.shader_state_count,
        r.bin_tiles_x == exec.bin_tiles_x,
        r.bin_tiles_y == exec.bin_tiles_y,
        r.tile_alloc_offset == exec.tile_alloc_offset,
        r.ct0ca == exec.ct0ca,
        r.ct0ea == exec.ct0ea,
        r.ct1ca == exec.ct1ca,
        r.ct1ea == exec.ct1ea,
        r.bin_u == exec.bin_u,
        r.shader_rec_u == exec.shader_rec_u,
        r.shader_rec_v == exec.shader_rec_v,
        r.shader_rec_p == exec.shader_rec_p,
        r.shader_rec_size == exec.shader_rec_size,
{
    let r = vc4_exec_info {
        args: exec.args,
        bo: copy_vec(&exec.bo),
        bo_count: exec.bo_count,
        unref_list: Vec::new(),
        bo_index: exec.bo_index,
        exec_bo: exec.exec_bo,
        shader_state: copy_vec(&exec.shader_state),
        shader_state_size: exec.shader_state_size,
        shader_state_count: exec.shader_state_count,
        bin_tiles_x: exec.bin_tiles_x,
        bin_tiles_y: exec.bin_tiles_y,
        tile_alloc_offset: exec.tile_alloc_offset,
        ct0ca: exec.ct0ca,
        ct0ea: exec.ct0ea,
        ct1ca: exec.ct1ca,
        ct1ea: exec.ct1ea,
        bin_u: exec.bin_u,
        shader_rec_u: exec.shader_rec_u,
        shader_rec_v: exec.shader_rec_v,
        shader_rec_p: exec.shader_rec_p,
        shader_rec_size: exec.shader_rec_size,
    };
    r
}

/// Decides `bin_cl_checkable`: whether the binner list `src` of `exec`, with output `dst` and
/// the binner buffer object at `bin_paddr`, can be checked without leaving its buffers,
/// overflowing or running forever. It walks copies, so nothing changes.
pub fn vc4_bin_cl_checkable(exec: &vc4_exec_info, dst: &Vec<u8>, src: &Vec<u8>, bin_paddr: u32) -> (r: bool)
    ensures
        r == bin_cl_checkable(*exec, dst@, src@, bin_paddr),
{
    let mut e = copy_walk_state(exec);
    let mut d = copy_vec(dst);
    assert(e.bin_ctx(bin_paddr) == exec.bin_ctx(bin_paddr));
    assert(e.bin_state(d@) == exec.bin_state(dst@));
    match walk_bin_cl(&mut e, &mut d, src, bin_paddr) {
        None => false,
        Some(Err(_)) => true,
        Some(Ok(n)) => n as u64 <= u32::MAX as u64 && exec.ct0ca as u64 + n as u64 <= u32::MAX as u64,
    }
}

/// A checked tile binning configuration keeps bits 7, 2, 1 and 0 of the caller's flags, and
/// always asks for automatic tile state initialisation, 32-byte initial blocks and 128-byte
/// blocks.
pub proof fn lemma_tile_config_flags(flags: u8)
    ensures
        tile_config_flags(flags) == (flags & 0x87) | 0x44,
{
    assert(((flags & !(0x18u8 | 0x60u8)) | 0x04u8 | ((0u8 << 3u8) & 0x18u8) | ((2u8 << 5u8)
        & 0x60u8)) == (flags & 0x87) | 0x44) by (bit_vector);
}

/// A `VC4_PACKET_HALT` ends the walk: it is copied, and nothing after it is read.
pub proof fn lemma_halt_ends_walk(ctx: BinCtx, s: BinState, src: Seq<u8>, len: u32, so: int, dof: int)
    requires
        0 <= so < len,
        so < src.len(),
        src[so] == HALT_CODE,
        0 <= dof,
        dof + 1 <= s.dst.len(),
    ensures
        bin_walk(ctx, s, src, len, so, dof) == Some(
            (BinState { dst: splice(s.dst, dof, seq![0u8]), ..s }, Ok::<int, Vc4Error>(dof + 1)),
        ),
{
    assert(src.subrange(so, so + 1) =~= seq![0u8]);
}

/// A `VC4_PACKET_GEM_HANDLES` packet loads the two buffer object indices and adds nothing to
/// the output.
pub proof fn lemma_gem_handles_emit_nothing(
    ctx: BinCtx,
    s: BinState,
    src: Seq<u8>,
    len: u32,
    so: int,
    dof: int,
)
    requires
        0 <= so,
        so + 9 <= len,
        so + 9 <= src.len(),
        src[so] == GEM_HANDLES_CODE,
        0 <= dof,
    ensures
        bin_walk(ctx, s, src, len, so, dof) == bin_walk(
            ctx,
            BinState {
                bo_index: seq![
                    read_le32(src.subrange(so + 1, src.len() as int), 0),
                    read_le32(src.subrange(so + 1, src.len() as int), 4),
                ],
                ..s
            },
            src,
            len,
            so + 9,
            dof,
        ),
{
}

/// The output of a successful walk is never longer than the part of the list it walked.
pub proof fn lemma_output_within_input(ctx: BinCtx, s: BinState, src: Seq<u8>, len: u32, so: int, dof: int)
    requires
        0 <= so,
        0 <= dof,
    ensures
        bin_walk(ctx, s, src, len, so, dof) matches Some((_, Ok(d))) ==> dof <= d && (so <= len
            ==> d <= dof + (len - so)),
    decreases len - so,
{
    if so < len && so < src.len() {
        let cmd = src[so];
        match cmd_info_spec(cmd) {
            None => {},
            Some(info) => {
                let plen = info.len as int;
                if so + plen <= u32::MAX && so + plen <= len && so + plen <= src.len() && (cmd
                    == GEM_HANDLES_CODE || dof + plen <= s.dst.len()) {
                    let s1 = if cmd == GEM_HANDLES_CODE {
                        s
                    } else {
                        BinState { dst: splice(s.dst, dof, src.subrange(so, so + plen)), ..s }
                    };
                    let r = match info.func {
                        Some(f) => validator_spec(
                            f,
                            ctx,
                            s1,
                            dof + 1,
                            src.subrange(so + 1, src.len() as int),
                        ),
                        None => Some((s1, Ok(()))),
                    };
                    if let Some(r) = r {
                        let dof2 = if cmd == GEM_HANDLES_CODE {
                            dof
                        } else {
                            dof + plen
                        };
                        if cmd != HALT_CODE {
                            lemma_output_within_input(ctx, r.0, src, len, so + plen, dof2);
                        }
                    }
                }
            },
        }
    }
}


/// `s` and `s1` hold the same shader states except the one at `k`, which in `s1` has the same
/// address as in `s` and `m` as its largest vertex index.
pub open spec fn only_state_changed(s: BinState, s1: BinState, k: int, m: u32) -> bool {
    &&& s1.shader_state.len() == s.shader_state.len()
    &&& 0 <= k < s.shader_state.len()
    &&& s1.shader_state[k].addr == s.shader_state[k].addr
    &&& s1.shader_state[k].max_index == m
    &&& forall|j: int|
        0 <= j < s.shader_state.len() && j != k ==> #[trigger] s1.shader_state[j] == s.shader_state[j]
}

/// An array primitive is refused exactly when no shader state is declared or
/// `length + base_index` overflows 32 bits, and then changes nothing. One that is accepted
/// raises the largest vertex index of the current shader state, the last one declared
/// (`shader_state_count - 1`), to `length + base_index - 1` if that is larger, and changes no
/// other shader state and nothing else of the validator state.
pub proof fn lemma_array_primitive_raises_current_state(s: BinState, b: Seq<u8>)
    ensures
        gl_array_primitive_spec(s, b) matches Some((s1, r)) ==> {
            let k = s.shader_state_count - 1;
            let m = read_le32(b, 1) + read_le32(b, 5) - 1;
            let old_max = s.shader_state[k].max_index;
            &&& (r is Err <==> s.shader_state_count == 0 || read_le32(b, 1) + read_le32(b, 5) > u32::MAX)
            &&& r is Err ==> s1 == s
            &&& r is Ok ==> {
                &&& only_state_changed(s, s1, k, (if m > old_max { m } else { old_max as int }) as u32)
                &&& s1 == BinState { shader_state: s1.shader_state, ..s }
            }
        },
{
}

/// An indexed primitive list that gets as far as the shader states (it has all its argument
/// bytes and some shader state is declared) raises the largest vertex index of the current
/// shader state, the last one declared, to the list's `max_index` if that is larger, whether
/// the list is then accepted or not; no other shader state changes. A list refused before that
/// changes nothing. It is accepted exactly when it gets that far, the index buffer in GEM slot
/// 0 is in range and holds `length` indices of `index_size` bytes from `offset` on; then the
/// index buffer's address plus `offset` is written 14 bytes into the output packet.
pub proof fn lemma_indexed_primitive_raises_current_state(ctx: BinCtx, s: BinState, v: int, b: Seq<u8>)
    ensures
        indexed_prim_list_spec(ctx, s, v, b) matches Some((s1, r)) ==> {
            let k = s.shader_state_count - 1;
            let m = read_le32(b, 9);
            let old_max = s.shader_state[k].max_index;
            &&& (b.len() < 13 || s.shader_state_count == 0) ==> s1 == s
            &&& !(b.len() < 13 || s.shader_state_count == 0) ==> {
                &&& only_state_changed(s, s1, k, if m > old_max { m } else { old_max })
                &&& s1.bo_index == s.bo_index
                &&& s1.shader_state_count == s.shader_state_count
                &&& s1.shader_rec_p == s.shader_rec_p
            }
            &&& (r is Ok <==> {
                let h = s.bo_index[0];
                let ib = ctx.bo[h as int];
                let offset = read_le32(b, 5);
                &&& b.len() >= 13
                &&& s.shader_state_count > 0
                &&& h < ctx.bo_count
                &&& offset + read_le32(b, 1) * index_size_of(b[0]) <= ib.size
            })
            &&& r is Ok ==> s1.dst == splice(
                s.dst,
                v + 14,
                le32((ctx.bo[s.bo_index[0] as int].paddr + read_le32(b, 5)) as u32),
            )
        },
{
    if indexed_prim_list_spec(ctx, s, v, b) is Some && b.len() >= 13 && s.shader_state_count > 0
        && s.bo_index[0] < ctx.bo_count {
        let ib = ctx.bo[s.bo_index[0] as int];
        let offset = read_le32(b, 5) as int;
        let length = read_le32(b, 1) as int;
        let d = index_size_of(b[0]) as int;
        let size = ib.size as int;
        assert(offset <= size ==> ((size - offset) / d < length <==> offset + length * d > size))
            by (nonlinear_arith)
            requires
                d == 1 || d == 2,
                0 <= length,
        ;
    }
}

/// An NV shader state packet that arrives after `i` shader states is refused exactly when `i`
/// is not below the declared number of states. One that is accepted records
/// `{ addr, max_index: 0 }` in slot `i`, where `addr` is its argument, leaves every other
/// slot as it was, counts `i + 1` states, writes the shader record pointer plus `addr` at the
/// output and moves the pointer on 16 bytes. A refused one only counts the state.
pub proof fn lemma_nv_shader_state_fills_next_slot(ctx: BinCtx, s: BinState, v: int, b: Seq<u8>)
    ensures
        nv_shader_state_spec(ctx, s, v, b) matches Some((s1, r)) ==> {
            let i = s.shader_state_count as int;
            let addr = read_le32(b, 0);
            &&& s1.shader_state_count == i + 1
            &&& (r is Err <==> i >= ctx.shader_state_size)
            &&& r is Err ==> s1 == BinState { shader_state_count: s1.shader_state_count, ..s }
            &&& r is Ok ==> {
                &&& s1.shader_state.len() == s.shader_state.len()
                &&& 0 <= i < s.shader_state.len()
                &&& s1.shader_state[i] == vc4_shader_state { addr, max_index: 0 }
                &&& forall|j: int|
                    0 <= j < s.shader_state.len() && j != i ==> #[trigger] s1.shader_state[j]
                        == s.shader_state[j]
                &&& s1.shader_rec_p == s.shader_rec_p + 16
                &&& s1.dst == splice(s.dst, v, le32((s.shader_rec_p + addr) as u32))
                &&& s1.bo_index == s.bo_index
                &&& s1.tile_alloc_offset == s.tile_alloc_offset
            }
        },
{
}

/// The tile state takes 48 bytes per tile at the start of the binner's buffer object, and the
/// tile allocation array follows it at the next page boundary: its offset into the buffer
/// object is page aligned, leaves room for the tile state, and wastes less than a page.
pub proof fn lemma_tile_alloc_after_tile_state(bin_paddr: u32, x: u8, y: u8)
    ensures
        ({
            let off = tile_alloc_offset_spec(bin_paddr, x, y) - bin_paddr;
            &&& off % (PAGE_SIZE as int) == 0
            &&& 48 * (x as int * y as int) <= off
            &&& off < 48 * (x as int * y as int) + PAGE_SIZE
        }),
{
    let t = x as int * y as int;
    assert(0 <= t <= 255 * 255) by (nonlinear_arith)
        requires
            t == x as int * y as int,
    ;
    lemma_round_up((48 * t) as u32, PAGE_SIZE as u32);
}

} // verus!
