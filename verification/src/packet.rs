//! Opcodes, sizes and bit fields of the VC4 control-list packets.
use vstd::prelude::*;

verus! {

/// The packets that a VC4 control list is made of. `packet_code` gives each one's opcode.
#[derive(Debug, Clone, Copy, PartialEq, Eq, Structural)]
pub enum vc4_packet {
    VC4_PACKET_HALT,
    VC4_PACKET_NOP,
    VC4_PACKET_FLUSH,
    VC4_PACKET_FLUSH_ALL,
    VC4_PACKET_START_TILE_BINNING,
    VC4_PACKET_INCREMENT_SEMAPHORE,
    VC4_PACKET_WAIT_ON_SEMAPHORE,
    VC4_PACKET_BRANCH,
    VC4_PACKET_BRANCH_TO_SUB_LIST,
    VC4_PACKET_STORE_MS_TILE_BUFFER,
    VC4_PACKET_STORE_MS_TILE_BUFFER_AND_EOF,
    VC4_PACKET_STORE_FULL_RES_TILE_BUFFER,
    VC4_PACKET_LOAD_FULL_RES_TILE_BUFFER,
    VC4_PACKET_STORE_TILE_BUFFER_GENERAL,
    VC4_PACKET_LOAD_TILE_BUFFER_GENERAL,
    VC4_PACKET_GL_INDEXED_PRIMITIVE,
    VC4_PACKET_GL_ARRAY_PRIMITIVE,
    VC4_PACKET_COMPRESSED_PRIMITIVE,
    VC4_PACKET_CLIPPED_COMPRESSED_PRIMITIVE,
    VC4_PACKET_PRIMITIVE_LIST_FORMAT,
    VC4_PACKET_GL_SHADER_STATE,
    VC4_PACKET_NV_SHADER_STATE,
    VC4_PACKET_VG_SHADER_STATE,
    VC4_PACKET_CONFIGURATION_BITS,
    VC4_PACKET_FLAT_SHADE_FLAGS,
    VC4_PACKET_POINT_SIZE,
    VC4_PACKET_LINE_WIDTH,
    VC4_PACKET_RHT_X_BOUNDARY,
    VC4_PACKET_DEPTH_OFFSET,
    VC4_PACKET_CLIP_WINDOW,
    VC4_PACKET_VIEWPORT_OFFSET,
    VC4_PACKET_Z_CLIPPING,
    VC4_PACKET_CLIPPER_XY_SCALING,
    VC4_PACKET_CLIPPER_Z_SCALING,
    VC4_PACKET_TILE_BINNING_MODE_CONFIG,
    VC4_PACKET_TILE_RENDERING_MODE_CONFIG,
    VC4_PACKET_CLEAR_COLORS,
    VC4_PACKET_TILE_COORDINATES,
    VC4_PACKET_GEM_HANDLES,
}

/// The opcode byte of each packet.
pub open spec fn packet_code(p: vc4_packet) -> u8 {
    match p {
        vc4_packet::VC4_PACKET_HALT => 0,
        vc4_packet::VC4_PACKET_NOP => 1,
        vc4_packet::VC4_PACKET_FLUSH => 4,
        vc4_packet::VC4_PACKET_FLUSH_ALL => 5,
        vc4_packet::VC4_PACKET_START_TILE_BINNING => 6,
        vc4_packet::VC4_PACKET_INCREMENT_SEMAPHORE => 7,
        vc4_packet::VC4_PACKET_WAIT_ON_SEMAPHORE => 8,
        vc4_packet::VC4_PACKET_BRANCH => 16,
        vc4_packet::VC4_PACKET_BRANCH_TO_SUB_LIST => 17,
        vc4_packet::VC4_PACKET_STORE_MS_TILE_BUFFER => 24,
        vc4_packet::VC4_PACKET_STORE_MS_TILE_BUFFER_AND_EOF => 25,
        vc4_packet::VC4_PACKET_STORE_FULL_RES_TILE_BUFFER => 26,
        vc4_packet::VC4_PACKET_LOAD_FULL_RES_TILE_BUFFER => 27,
        vc4_packet::VC4_PACKET_STORE_TILE_BUFFER_GENERAL => 28,
        vc4_packet::VC4_PACKET_LOAD_TILE_BUFFER_GENERAL => 29,
        vc4_packet::VC4_PACKET_GL_INDEXED_PRIMITIVE => 32,
        vc4_packet::VC4_PACKET_GL_ARRAY_PRIMITIVE => 33,
        vc4_packet::VC4_PACKET_COMPRESSED_PRIMITIVE => 48,
        vc4_packet::VC4_PACKET_CLIPPED_COMPRESSED_PRIMITIVE => 49,
        vc4_packet::VC4_PACKET_PRIMITIVE_LIST_FORMAT => 56,
        vc4_packet::VC4_PACKET_GL_SHADER_STATE => 64,
        vc4_packet::VC4_PACKET_NV_SHADER_STATE => 65,
        vc4_packet::VC4_PACKET_VG_SHADER_STATE => 66,
        vc4_packet::VC4_PACKET_CONFIGURATION_BITS => 96,
        vc4_packet::VC4_PACKET_FLAT_SHADE_FLAGS => 97,
        vc4_packet::VC4_PACKET_POINT_SIZE => 98,
        vc4_packet::VC4_PACKET_LINE_WIDTH => 99,
        vc4_packet::VC4_PACKET_RHT_X_BOUNDARY => 100,
        vc4_packet::VC4_PACKET_DEPTH_OFFSET => 101,
        vc4_packet::VC4_PACKET_CLIP_WINDOW => 102,
        vc4_packet::VC4_PACKET_VIEWPORT_OFFSET => 103,
        vc4_packet::VC4_PACKET_Z_CLIPPING => 104,
        vc4_packet::VC4_PACKET_CLIPPER_XY_SCALING => 105,
        vc4_packet::VC4_PACKET_CLIPPER_Z_SCALING => 106,
        vc4_packet::VC4_PACKET_TILE_BINNING_MODE_CONFIG => 112,
        vc4_packet::VC4_PACKET_TILE_RENDERING_MODE_CONFIG => 113,
        vc4_packet::VC4_PACKET_CLEAR_COLORS => 114,
        vc4_packet::VC4_PACKET_TILE_COORDINATES => 115,
        vc4_packet::VC4_PACKET_GEM_HANDLES => 254,
    }
}

impl vc4_packet {
    /// The opcode byte of this packet.
    pub fn code(self) -> (r: u8)
        ensures
            r == packet_code(self),
    {
        match self {
            vc4_packet::VC4_PACKET_HALT => 0,
            vc4_packet::VC4_PACKET_NOP => 1,
            vc4_packet::VC4_PACKET_FLUSH => 4,
            vc4_packet::VC4_PACKET_FLUSH_ALL => 5,
            vc4_packet::VC4_PACKET_START_TILE_BINNING => 6,
            vc4_packet::VC4_PACKET_INCREMENT_SEMAPHORE => 7,
            vc4_packet::VC4_PACKET_WAIT_ON_SEMAPHORE => 8,
            vc4_packet::VC4_PACKET_BRANCH => 16,
            vc4_packet::VC4_PACKET_BRANCH_TO_SUB_LIST => 17,
            vc4_packet::VC4_PACKET_STORE_MS_TILE_BUFFER => 24,
            vc4_packet::VC4_PACKET_STORE_MS_TILE_BUFFER_AND_EOF => 25,
            vc4_packet::VC4_PACKET_STORE_FULL_RES_TILE_BUFFER => 26,
            vc4_packet::VC4_PACKET_LOAD_FULL_RES_TILE_BUFFER => 27,
            vc4_packet::VC4_PACKET_STORE_TILE_BUFFER_GENERAL => 28,
            vc4_packet::VC4_PACKET_LOAD_TILE_BUFFER_GENERAL => 29,
            vc4_packet::VC4_PACKET_GL_INDEXED_PRIMITIVE => 32,
            vc4_packet::VC4_PACKET_GL_ARRAY_PRIMITIVE => 33,
            vc4_packet::VC4_PACKET_COMPRESSED_PRIMITIVE => 48,
            vc4_packet::VC4_PACKET_CLIPPED_COMPRESSED_PRIMITIVE => 49,
            vc4_packet::VC4_PACKET_PRIMITIVE_LIST_FORMAT => 56,
            vc4_packet::VC4_PACKET_GL_SHADER_STATE => 64,
            vc4_packet::VC4_PACKET_NV_SHADER_STATE => 65,
            vc4_packet::VC4_PACKET_VG_SHADER_STATE => 66,
            vc4_packet::VC4_PACKET_CONFIGURATION_BITS => 96,
            vc4_packet::VC4_PACKET_FLAT_SHADE_FLAGS => 97,
            vc4_packet::VC4_PACKET_POINT_SIZE => 98,
            vc4_packet::VC4_PACKET_LINE_WIDTH => 99,
            vc4_packet::VC4_PACKET_RHT_X_BOUNDARY => 100,
            vc4_packet::VC4_PACKET_DEPTH_OFFSET => 101,
            vc4_packet::VC4_PACKET_CLIP_WINDOW => 102,
            vc4_packet::VC4_PACKET_VIEWPORT_OFFSET => 103,
            vc4_packet::VC4_PACKET_Z_CLIPPING => 104,
            vc4_packet::VC4_PACKET_CLIPPER_XY_SCALING => 105,
            vc4_packet::VC4_PACKET_CLIPPER_Z_SCALING => 106,
            vc4_packet::VC4_PACKET_TILE_BINNING_MODE_CONFIG => 112,
            vc4_packet::VC4_PACKET_TILE_RENDERING_MODE_CONFIG => 113,
            vc4_packet::VC4_PACKET_CLEAR_COLORS => 114,
            vc4_packet::VC4_PACKET_TILE_COORDINATES => 115,
            vc4_packet::VC4_PACKET_GEM_HANDLES => 254,
        }
    }

    /// The packet whose opcode is `code`, if there is one.
    pub fn from_code(code: u8) -> (r: Option<vc4_packet>)
        ensures
            match r {
                Some(p) => packet_code(p) == code,
                None => forall|p: vc4_packet| packet_code(p) != code,
            },
    {
        match code {
            0 => Some(vc4_packet::VC4_PACKET_HALT),
            1 => Some(vc4_packet::VC4_PACKET_NOP),
            4 => Some(vc4_packet::VC4_PACKET_FLUSH),
            5 => Some(vc4_packet::VC4_PACKET_FLUSH_ALL),
            6 => Some(vc4_packet::VC4_PACKET_START_TILE_BINNING),
            7 => Some(vc4_packet::VC4_PACKET_INCREMENT_SEMAPHORE),
            8 => Some(vc4_packet::VC4_PACKET_WAIT_ON_SEMAPHORE),
            16 => Some(vc4_packet::VC4_PACKET_BRANCH),
            17 => Some(vc4_packet::VC4_PACKET_BRANCH_TO_SUB_LIST),
            24 => Some(vc4_packet::VC4_PACKET_STORE_MS_TILE_BUFFER),
            25 => Some(vc4_packet::VC4_PACKET_STORE_MS_TILE_BUFFER_AND_EOF),
            26 => Some(vc4_packet::VC4_PACKET_STORE_FULL_RES_TILE_BUFFER),
            27 => Some(vc4_packet::VC4_PACKET_LOAD_FULL_RES_TILE_BUFFER),
            28 => Some(vc4_packet::VC4_PACKET_STORE_TILE_BUFFER_GENERAL),
            29 => Some(vc4_packet::VC4_PACKET_LOAD_TILE_BUFFER_GENERAL),
            32 => Some(vc4_packet::VC4_PACKET_GL_INDEXED_PRIMITIVE),
            33 => Some(vc4_packet::VC4_PACKET_GL_ARRAY_PRIMITIVE),
            48 => Some(vc4_packet::VC4_PACKET_COMPRESSED_PRIMITIVE),
            49 => Some(vc4_packet::VC4_PACKET_CLIPPED_COMPRESSED_PRIMITIVE),
            56 => Some(vc4_packet::VC4_PACKET_PRIMITIVE_LIST_FORMAT),
            64 => Some(vc4_packet::VC4_PACKET_GL_SHADER_STATE),
            65 => Some(vc4_packet::VC4_PACKET_NV_SHADER_STATE),
            66 => Some(vc4_packet::VC4_PACKET_VG_SHADER_STATE),
            96 => Some(vc4_packet::VC4_PACKET_CONFIGURATION_BITS),
            97 => Some(vc4_packet::VC4_PACKET_FLAT_SHADE_FLAGS),
            98 => Some(vc4_packet::VC4_PACKET_POINT_SIZE),
            99 => Some(vc4_packet::VC4_PACKET_LINE_WIDTH),
            100 => Some(vc4_packet::VC4_PACKET_RHT_X_BOUNDARY),
            101 => Some(vc4_packet::VC4_PACKET_DEPTH_OFFSET),
            102 => Some(vc4_packet::VC4_PACKET_CLIP_WINDOW),
            103 => Some(vc4_packet::VC4_PACKET_VIEWPORT_OFFSET),
            104 => Some(vc4_packet::VC4_PACKET_Z_CLIPPING),
            105 => Some(vc4_packet::VC4_PACKET_CLIPPER_XY_SCALING),
            106 => Some(vc4_packet::VC4_PACKET_CLIPPER_Z_SCALING),
            112 => Some(vc4_packet::VC4_PACKET_TILE_BINNING_MODE_CONFIG),
            113 => Some(vc4_packet::VC4_PACKET_TILE_RENDERING_MODE_CONFIG),
            114 => Some(vc4_packet::VC4_PACKET_CLEAR_COLORS),
            115 => Some(vc4_packet::VC4_PACKET_TILE_COORDINATES),
            254 => Some(vc4_packet::VC4_PACKET_GEM_HANDLES),
            _ => None,
        }
    }
}

pub const VC4_PACKET_HALT_SIZE: u32 = 1;

pub const VC4_PACKET_NOP_SIZE: u32 = 1;

pub const VC4_PACKET_FLUSH_SIZE: u32 = 1;

pub const VC4_PACKET_FLUSH_ALL_SIZE: u32 = 1;

pub const VC4_PACKET_START_TILE_BINNING_SIZE: u32 = 1;

pub const VC4_PACKET_INCREMENT_SEMAPHORE_SIZE: u32 = 1;

pub const VC4_PACKET_WAIT_ON_SEMAPHORE_SIZE: u32 = 1;

pub const VC4_PACKET_BRANCH_SIZE: u32 = 5;

pub const VC4_PACKET_BRANCH_TO_SUB_LIST_SIZE: u32 = 5;

pub const VC4_PACKET_STORE_MS_TILE_BUFFER_SIZE: u32 = 1;

pub const VC4_PACKET_STORE_MS_TILE_BUFFER_AND_EOF_SIZE: u32 = 1;

pub const VC4_PACKET_STORE_FULL_RES_TILE_BUFFER_SIZE: u32 = 5;

pub const VC4_PACKET_LOAD_FULL_RES_TILE_BUFFER_SIZE: u32 = 5;

pub const VC4_PACKET_STORE_TILE_BUFFER_GENERAL_SIZE: u32 = 7;

pub const VC4_PACKET_LOAD_TILE_BUFFER_GENERAL_SIZE: u32 = 7;

pub const VC4_PACKET_GL_INDEXED_PRIMITIVE_SIZE: u32 = 14;

pub const VC4_PACKET_GL_ARRAY_PRIMITIVE_SIZE: u32 = 10;

pub const VC4_PACKET_COMPRESSED_PRIMITIVE_SIZE: u32 = 1;

pub const VC4_PACKET_CLIPPED_COMPRESSED_PRIMITIVE_SIZE: u32 = 1;

pub const VC4_PACKET_PRIMITIVE_LIST_FORMAT_SIZE: u32 = 2;

pub const VC4_PACKET_GL_SHADER_STATE_SIZE: u32 = 5;

pub const VC4_PACKET_NV_SHADER_STATE_SIZE: u32 = 5;

pub const VC4_PACKET_VG_SHADER_STATE_SIZE: u32 = 5;

pub const VC4_PACKET_CONFIGURATION_BITS_SIZE: u32 = 4;

pub const VC4_PACKET_FLAT_SHADE_FLAGS_SIZE: u32 = 5;

pub const VC4_PACKET_POINT_SIZE_SIZE: u32 = 5;

pub const VC4_PACKET_LINE_WIDTH_SIZE: u32 = 5;

pub const VC4_PACKET_RHT_X_BOUNDARY_SIZE: u32 = 3;

pub const VC4_PACKET_DEPTH_OFFSET_SIZE: u32 = 5;

pub const VC4_PACKET_CLIP_WINDOW_SIZE: u32 = 9;

pub const VC4_PACKET_VIEWPORT_OFFSET_SIZE: u32 = 5;

pub const VC4_PACKET_Z_CLIPPING_SIZE: u32 = 9;

pub const VC4_PACKET_CLIPPER_XY_SCALING_SIZE: u32 = 9;

pub const VC4_PACKET_CLIPPER_Z_SCALING_SIZE: u32 = 9;

pub const VC4_PACKET_TILE_BINNING_MODE_CONFIG_SIZE: u32 = 16;

pub const VC4_PACKET_TILE_RENDERING_MODE_CONFIG_SIZE: u32 = 11;

pub const VC4_PACKET_CLEAR_COLORS_SIZE: u32 = 14;

pub const VC4_PACKET_TILE_COORDINATES_SIZE: u32 = 3;

pub const VC4_PACKET_GEM_HANDLES_SIZE: u32 = 9;

/// `1 << nr` on a byte.
pub fn Bit_8(nr: u8) -> (r: u8)
    requires
        nr < 8,
    ensures
        r == 1u8 << nr,
{
    1u8 << nr
}

/// The byte `(1 << (high - low)) << low`, which is the single bit `high`.
pub fn Mask_8(low: u8, high: u8) -> (r: u8)
    requires
        low <= high,
        high < 8,
    ensures
        r == (1u8 << ((high - low) as u8)) << low,
        r == 1u8 << high,
{
    let d: u8 = high - low;
    let r = (1u8 << d) << low;
    assert(r == 1u8 << high) by (bit_vector)
        requires
            low <= high,
            high < 8,
            d == high - low,
            r == (1u8 << d) << low,
    ;
    r
}

/// Bits 6..5 of the last byte of `VC4_PACKET_TILE_BINNING_MODE_CONFIG`.
pub const VC4_BIN_CONFIG_ALLOC_BLOCK_SIZE_MASK: u8 = 0x60;

pub const VC4_BIN_CONFIG_ALLOC_BLOCK_SIZE_SHIFT: u8 = 5;

pub const VC4_BIN_CONFIG_ALLOC_BLOCK_SIZE_32: u8 = 0;

pub const VC4_BIN_CONFIG_ALLOC_BLOCK_SIZE_64: u8 = 1;

pub const VC4_BIN_CONFIG_ALLOC_BLOCK_SIZE_128: u8 = 2;

pub const VC4_BIN_CONFIG_ALLOC_BLOCK_SIZE_256: u8 = 3;

/// Bits 4..3 of the last byte of `VC4_PACKET_TILE_BINNING_MODE_CONFIG`.
pub const VC4_BIN_CONFIG_ALLOC_INIT_BLOCK_SIZE_MASK: u8 = 0x18;

pub const VC4_BIN_CONFIG_ALLOC_INIT_BLOCK_SIZE_SHIFT: u8 = 3;

pub const VC4_BIN_CONFIG_ALLOC_INIT_BLOCK_SIZE_32: u8 = 0;

pub const VC4_BIN_CONFIG_ALLOC_INIT_BLOCK_SIZE_64: u8 = 1;

pub const VC4_BIN_CONFIG_ALLOC_INIT_BLOCK_SIZE_128: u8 = 2;

pub const VC4_BIN_CONFIG_ALLOC_INIT_BLOCK_SIZE_256: u8 = 3;

/// Bit 2.
pub const VC4_BIN_CONFIG_AUTO_INIT_TSDA: u8 = 0x04;

/// Bit 1.
pub const VC4_BIN_CONFIG_TILE_BUFFER_64BIT: u8 = 0x02;

/// Bit 0.
pub const VC4_BIN_CONFIG_MS_MODE_4X: u8 = 0x01;

pub const VC4_TILING_FORMAT_LINEAR: u8 = 0;

pub const VC4_TILING_FORMAT_T: u8 = 1;

pub const VC4_TILING_FORMAT_LT: u8 = 2;

/// Bit 3 of the address word of a general load/store packet.
pub const VC4_LOADSTORE_TILE_BUFFER_EOF: u32 = 0x8;

/// Bit 15.
pub const VC4_STORE_TILE_BUFFER_DISABLE_VG_MASK_CLEAR: u16 = 0x8000;

/// Bit 14.
pub const VC4_STORE_TILE_BUFFER_DISABLE_ZS_CLEAR: u16 = 0x4000;

/// Bit 13.
pub const VC4_STORE_TILE_BUFFER_DISABLE_COLOR_CLEAR: u16 = 0x2000;

/// Bit 12.
pub const VC4_STORE_TILE_BUFFER_DISABLE_SWAP: u16 = 0x1000;

/// Bits 9..8.
pub const VC4_LOADSTORE_TILE_BUFFER_FORMAT_MASK: u16 = 0x0300;

pub const VC4_LOADSTORE_TILE_BUFFER_FORMAT_SHIFT: u16 = 8;

pub const VC4_LOADSTORE_TILE_BUFFER_RGBA8888: u16 = 0;

pub const VC4_LOADSTORE_TILE_BUFFER_BGR565_DITHER: u16 = 1;

pub const VC4_LOADSTORE_TILE_BUFFER_BGR565: u16 = 2;

/// Bits 5..4.
pub const VC4_LOADSTORE_TILE_BUFFER_TILING_MASK: u16 = 0x0030;

pub const VC4_LOADSTORE_TILE_BUFFER_TILING_SHIFT: u16 = 4;

/// Bits 2..0.
pub const VC4_LOADSTORE_TILE_BUFFER_BUFFER_MASK: u16 = 0x0007;

pub const VC4_LOADSTORE_TILE_BUFFER_BUFFER_SHIFT: u16 = 0;

pub const VC4_LOADSTORE_TILE_BUFFER_NONE: u16 = 0;

pub const VC4_LOADSTORE_TILE_BUFFER_COLOR: u16 = 1;

pub const VC4_LOADSTORE_TILE_BUFFER_ZS: u16 = 2;

pub const VC4_LOADSTORE_TILE_BUFFER_Z: u16 = 3;

pub const VC4_LOADSTORE_TILE_BUFFER_VG_MASK: u16 = 4;

pub const VC4_LOADSTORE_TILE_BUFFER_FULL: u16 = 5;

/// Bits 7..6 of the last half-word of `VC4_PACKET_TILE_RENDERING_MODE_CONFIG`.
pub const VC4_RENDER_CONFIG_MEMORY_FORMAT_MASK: u16 = 0x00c0;

pub const VC4_RENDER_CONFIG_MEMORY_FORMAT_SHIFT: u16 = 6;

/// Bits 3..2.
pub const VC4_RENDER_CONFIG_FORMAT_MASK: u16 = 0x000c;

pub const VC4_RENDER_CONFIG_FORMAT_SHIFT: u16 = 2;

pub const VC4_RENDER_CONFIG_FORMAT_BGR565_DITHERED: u16 = 0;

pub const VC4_RENDER_CONFIG_FORMAT_RGBA8888: u16 = 1;

pub const VC4_RENDER_CONFIG_FORMAT_BGR565: u16 = 2;

/// Opcodes are pairwise distinct, so an opcode names at most one packet.
pub proof fn lemma_packet_code_injective(p: vc4_packet, q: vc4_packet)
    requires
        packet_code(p) == packet_code(q),
    ensures
        p == q,
{
}

} // verus!
