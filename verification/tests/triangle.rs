use vc4::board::{
    addbyte, addword, addshort, build_triangle_scene, TRI_VERTEX_LIST, TRI_SHADER_RECORD,
    TRI_VERTEX_DATA, TRI_RENDER_LIST, TRI_FRAGMENT_SHADER, TRI_FRAGMENT_UNIFORMS, TRI_TILE_ALLOC,
    TRI_TILE_ALLOC_SIZE, TRI_TILE_STATE, FLOAT_ONE_BITS,
};

fn word(m: &[u8], i: usize) -> u32 {
    u32::from_le_bytes([m[i], m[i + 1], m[i + 2], m[i + 3]])
}

fn short(m: &[u8], i: usize) -> u16 {
    u16::from_le_bytes([m[i], m[i + 1]])
}

#[test]
fn add_functions_write_little_endian_and_advance() {
    let mut mem = vec![0u8; 8];
    let mut p = 1;
    addbyte(&mut mem, &mut p, 0xaa);
    addshort(&mut mem, &mut p, 0x1122);
    addword(&mut mem, &mut p, 0x3344_5566);
    assert_eq!(p, 8);
    assert_eq!(mem, vec![0, 0xaa, 0x22, 0x11, 0x66, 0x55, 0x44, 0x33]);
}

#[test]
fn float_one_bits_are_those_of_one() {
    assert_eq!(FLOAT_ONE_BITS, 1.0f32.to_bits());
    assert_eq!(0u32, 0.0f32.to_bits());
}

#[test]
fn triangle_scene_lengths_and_layout() {
    let bus = 0xc000_0000u32;
    let mut mem = vec![0xeeu8; 0x10000];
    let (length, render_length) = build_triangle_scene(&mut mem, bus);
    assert_eq!(length, 59);
    assert!(length < 0x80);
    assert!(length <= TRI_VERTEX_LIST);
    assert_eq!(render_length, 4625);
    assert!(TRI_RENDER_LIST + render_length <= TRI_FRAGMENT_SHADER);
    assert_eq!((TRI_TILE_ALLOC + TRI_TILE_ALLOC_SIZE) as usize, TRI_RENDER_LIST);
    // untouched gaps keep their bytes
    assert!(mem[length..TRI_VERTEX_LIST].iter().all(|b| *b == 0xee));
    assert!(mem[TRI_RENDER_LIST + render_length..TRI_FRAGMENT_SHADER].iter().all(|b| *b == 0xee));
    assert!(mem[TRI_FRAGMENT_SHADER + 72..].iter().all(|b| *b == 0xee));
}

#[test]
fn triangle_bin_list_bytes() {
    let bus = 0x1000_0000u32;
    let mut mem = vec![0u8; 0x10000];
    build_triangle_scene(&mut mem, bus);
    assert_eq!(mem[0], 112);
    assert_eq!(word(&mem, 1), bus + TRI_TILE_ALLOC);
    assert_eq!(word(&mem, 5), 0x8000);
    assert_eq!(word(&mem, 9), bus + TRI_TILE_STATE);
    assert_eq!(&mem[13..17], &[30, 17, 0x04, 6]);
    assert_eq!(&mem[17..20], &[56, 0x32, 102]);
    assert_eq!((short(&mem, 24), short(&mem, 26)), (1920, 1080));
    assert_eq!(&mem[28..33], &[96, 3, 0, 2, 103]);
    assert_eq!(mem[37], 65);
    assert_eq!(word(&mem, 38), bus + TRI_SHADER_RECORD as u32);
    assert_eq!(&mem[42..44], &[32, 0x04]);
    assert_eq!(word(&mem, 44), 3);
    assert_eq!(word(&mem, 48), bus + TRI_VERTEX_LIST as u32);
    assert_eq!(word(&mem, 52), 2);
    assert_eq!(&mem[56..59], &[5, 1, 0]);
}

#[test]
fn triangle_record_vertices_and_shader() {
    let bus = 0x1000_0000u32;
    let mut mem = vec![0u8; 0x10000];
    build_triangle_scene(&mut mem, bus);
    let r = TRI_SHADER_RECORD;
    assert_eq!(&mem[r..r + 4], &[0x01, 24, 0xcc, 3]);
    assert_eq!(word(&mem, r + 4), bus + TRI_FRAGMENT_SHADER as u32);
    assert_eq!(word(&mem, r + 8), bus + TRI_FRAGMENT_UNIFORMS);
    assert_eq!(word(&mem, r + 12), bus + TRI_VERTEX_DATA as u32);
    assert_eq!(&mem[TRI_VERTEX_LIST..TRI_VERTEX_LIST + 3], &[0, 1, 2]);
    let v = TRI_VERTEX_DATA;
    // top vertex, red
    assert_eq!((short(&mem, v), short(&mem, v + 2)), (960 << 4, 200 << 4));
    assert_eq!(f32::from_bits(word(&mem, v + 4)), 1.0);
    assert_eq!(f32::from_bits(word(&mem, v + 8)), 1.0);
    assert_eq!(f32::from_bits(word(&mem, v + 12)), 1.0);
    assert_eq!(f32::from_bits(word(&mem, v + 16)), 0.0);
    // bottom right vertex, blue
    assert_eq!((short(&mem, v + 48), short(&mem, v + 50)), (1360 << 4, 800 << 4));
    assert_eq!(f32::from_bits(word(&mem, v + 68)), 1.0);
    assert_eq!(word(&mem, TRI_FRAGMENT_SHADER), 0x958e0dbf);
    assert_eq!(word(&mem, TRI_FRAGMENT_SHADER + 68), 0x500009e7);
}

#[test]
fn triangle_render_list_bytes() {
    let bus = 0x1000_0000u32;
    let mut mem = vec![0u8; 0x10000];
    let (_, render_length) = build_triangle_scene(&mut mem, bus);
    let r = TRI_RENDER_LIST;
    assert_eq!(mem[r], 114);
    assert_eq!(word(&mem, r + 1), 0xff00_0000);
    assert_eq!(word(&mem, r + 5), 0xff00_0000);
    assert_eq!(mem[r + 14], 113);
    assert_eq!(word(&mem, r + 15), bus + 0x10000);
    assert_eq!(&mem[r + 23..r + 25], &[0x04, 0x00]);
    assert_eq!(&mem[r + 25..r + 29], &[115, 0, 0, 28]);
    // first tile: (0, 0)
    let t = r + 35;
    assert_eq!(&mem[t..t + 4], &[115, 0, 0, 17]);
    assert_eq!(word(&mem, t + 4), bus + TRI_TILE_ALLOC);
    assert_eq!(mem[t + 8], 24);
    // second tile: (0, 1), columns first
    assert_eq!(&mem[t + 9..t + 13], &[115, 0, 1, 17]);
    assert_eq!(word(&mem, t + 13), bus + TRI_TILE_ALLOC + 30 * 32);
    // last tile: (29, 16) ends the frame
    let l = r + render_length - 9;
    assert_eq!(&mem[l..l + 4], &[115, 29, 16, 17]);
    assert_eq!(word(&mem, l + 4), bus + TRI_TILE_ALLOC + (16 * 30 + 29) * 32);
    assert_eq!(mem[l + 8], 25);
    // every tile list lies in the tile allocation memory
    for k in 0..510 {
        let a = word(&mem, t + 9 * k + 4);
        assert!(a >= bus + TRI_TILE_ALLOC && a + 32 <= bus + TRI_TILE_ALLOC + TRI_TILE_ALLOC_SIZE);
    }
}
