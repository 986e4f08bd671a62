use vc4::device::{gpu_bo, GpuDevice, Vc4Error};
use vc4::gem::{drm_vc4_submit_cl, drm_vc4_submit_rcl_surface, vc4_exec_info, vc4_shader_state};
use vc4::validate::{
    cmd_info, vc4_use_bo, vc4_use_handle, vc4_set_field, validate_gem_handles,
    validate_gl_array_primitive, validate_indexed_prim_list, validate_nv_shader_state,
    validate_tile_binning_config, Vc4Validator,
};

fn no_surface() -> drm_vc4_submit_rcl_surface {
    drm_vc4_submit_rcl_surface { hindex: u32::MAX, offset: 0, bits: 0, flags: 0 }
}

fn args(bin_cl_size: u32) -> drm_vc4_submit_cl {
    drm_vc4_submit_cl {
        bin_cl: 0,
        shader_rec: 0,
        uniforms: 0,
        bo_handles: 0,
        bin_cl_size,
        shader_rec_size: 0,
        shader_rec_count: 0,
        uniforms_size: 0,
        bo_handle_count: 0,
        width: 0,
        height: 0,
        min_x_tile: 0,
        min_y_tile: 0,
        max_x_tile: 0,
        max_y_tile: 0,
        color_read: no_surface(),
        color_write: no_surface(),
        zs_read: no_surface(),
        zs_write: no_surface(),
        msaa_color_write: no_surface(),
        msaa_zs_write: no_surface(),
        clear_color: [0, 0],
        clear_z: 0,
        clear_s: 0,
        flags: 0,
        seqno: 0,
    }
}

fn bo(handle: u32, paddr: u32, size: usize) -> gpu_bo {
    gpu_bo { size, handle, paddr, vaddr: 0, bo_type: 1 }
}

fn le32(v: u32) -> Vec<u8> {
    v.to_le_bytes().to_vec()
}

fn device(bin_paddr: u32) -> GpuDevice {
    let mut d = GpuDevice::empty();
    d.bin_bo = Some(bo(1, bin_paddr, 512 * 1024));
    d
}

#[test]
fn packet_table() {
    let halt = cmd_info(0).unwrap();
    assert_eq!((halt.len, halt.func), (1, None));
    let prim = cmd_info(32).unwrap();
    assert_eq!((prim.len, prim.func), (14, Some(Vc4Validator::IndexedPrimList)));
    let arr = cmd_info(33).unwrap();
    assert_eq!((arr.len, arr.func), (10, Some(Vc4Validator::GlArrayPrimitive)));
    let nv = cmd_info(65).unwrap();
    assert_eq!((nv.len, nv.func), (5, Some(Vc4Validator::NvShaderState)));
    let cfg = cmd_info(112).unwrap();
    assert_eq!((cfg.len, cfg.func), (16, Some(Vc4Validator::TileBinningConfig)));
    let gem = cmd_info(254).unwrap();
    assert_eq!((gem.len, gem.func), (9, Some(Vc4Validator::GemHandles)));
    assert_eq!(cmd_info(102).unwrap().len, 9);
    assert!(cmd_info(2).is_none());
    assert!(cmd_info(113).is_none());
    assert!(cmd_info(255).is_none());
}

#[test]
fn buffer_objects_by_index() {
    let mut exec = vc4_exec_info::new(args(0));
    exec.bo = vec![bo(1, 0x1000, 64), bo(2, 0x2000, 64)];
    exec.bo_count = 2;
    assert_eq!(vc4_use_bo(&exec, 1), Some(bo(2, 0x2000, 64)));
    assert_eq!(vc4_use_bo(&exec, 2), None);
    exec.bo_index = [1, 5];
    assert_eq!(vc4_use_handle(&exec, 0), Some(bo(2, 0x2000, 64)));
    assert_eq!(vc4_use_handle(&exec, 1), None);
}

#[test]
fn byte_fields() {
    assert_eq!(vc4_set_field(2, 5, 0x60), 0x40);
    assert_eq!(vc4_set_field(3, 5, 0x40), 0x40);
    assert_eq!(vc4_set_field(0, 3, 0x18), 0);
}

#[test]
fn gem_handles_load_the_indices() {
    let mut exec = vc4_exec_info::new(args(0));
    let mut out = vec![0u8; 4];
    let mut b = le32(5);
    b.extend(le32(9));
    assert_eq!(validate_gem_handles(&mut exec, &mut out, 0, &b, 0), Ok(()));
    assert_eq!(exec.bo_index, [5, 9]);
    assert_eq!(out, vec![0, 0, 0, 0]);
}

fn one_shader_state(exec: &mut vc4_exec_info) {
    exec.shader_state = vec![vc4_shader_state { addr: 0, max_index: 0 }];
    exec.shader_state_size = 1;
    exec.shader_state_count = 1;
}

#[test]
fn array_primitive_raises_the_largest_index() {
    let mut exec = vc4_exec_info::new(args(0));
    let mut out = vec![0u8; 4];
    let mut b = vec![4u8];
    b.extend(le32(3));
    b.extend(le32(2));
    assert_eq!(validate_gl_array_primitive(&mut exec, &mut out, 0, &b, 0), Err(Vc4Error::InvalidParam));
    one_shader_state(&mut exec);
    assert_eq!(validate_gl_array_primitive(&mut exec, &mut out, 0, &b, 0), Ok(()));
    assert_eq!(exec.shader_state[0].max_index, 4);
    let mut small = vec![4u8];
    small.extend(le32(1));
    small.extend(le32(1));
    assert_eq!(validate_gl_array_primitive(&mut exec, &mut out, 0, &small, 0), Ok(()));
    assert_eq!(exec.shader_state[0].max_index, 4);
    let mut wraps = vec![4u8];
    wraps.extend(le32(u32::MAX));
    wraps.extend(le32(1));
    assert_eq!(validate_gl_array_primitive(&mut exec, &mut out, 0, &wraps, 0), Err(Vc4Error::InvalidParam));
    assert_eq!(exec.shader_state[0].max_index, 4);
}

fn prim(flags: u8, length: u32, offset: u32, max_index: u32) -> Vec<u8> {
    let mut b = vec![flags];
    b.extend(le32(length));
    b.extend(le32(offset));
    b.extend(le32(max_index));
    b
}

#[test]
fn indexed_primitive_patches_the_index_buffer_address() {
    let mut exec = vc4_exec_info::new(args(0));
    one_shader_state(&mut exec);
    exec.bo = vec![bo(1, 0x1000, 100)];
    exec.bo_count = 1;
    let mut out = vec![0u8; 24];
    assert_eq!(validate_indexed_prim_list(&mut exec, &mut out, 1, &prim(0x14, 10, 4, 9), 0), Ok(()));
    assert_eq!(exec.shader_state[0].max_index, 9);
    assert_eq!(&out[15..19], &le32(0x1004)[..]);
    assert!(out[..15].iter().all(|b| *b == 0));
    // 16-bit indices: 48 fit after offset 4, 49 do not
    let mut out2 = vec![0u8; 24];
    assert_eq!(validate_indexed_prim_list(&mut exec, &mut out2, 1, &prim(0x14, 49, 4, 0), 0), Err(Vc4Error::InvalidParam));
    assert_eq!(validate_indexed_prim_list(&mut exec, &mut out2, 1, &prim(0x14, 48, 4, 0), 0), Ok(()));
    // 8-bit indices: 96 fit
    assert_eq!(validate_indexed_prim_list(&mut exec, &mut out2, 1, &prim(0x04, 96, 4, 0), 0), Ok(()));
    assert_eq!(validate_indexed_prim_list(&mut exec, &mut out2, 1, &prim(0x04, 0, 101, 0), 0), Err(Vc4Error::InvalidParam));
    assert_eq!(validate_indexed_prim_list(&mut exec, &mut out2, 1, &prim(0x04, 1, 0, 0)[..12], 0), Err(Vc4Error::InvalidParam));
    exec.bo_index = [1, 0];
    assert_eq!(validate_indexed_prim_list(&mut exec, &mut out2, 1, &prim(0x04, 1, 0, 20), 0), Err(Vc4Error::InvalidParam));
    assert_eq!(exec.shader_state[0].max_index, 20);
    exec.shader_state_count = 0;
    assert_eq!(validate_indexed_prim_list(&mut exec, &mut out2, 1, &prim(0x04, 1, 0, 30), 0), Err(Vc4Error::InvalidParam));
    assert_eq!(exec.shader_state[0].max_index, 20);
}

#[test]
fn nv_shader_state_records_and_relocates() {
    let mut exec = vc4_exec_info::new(args(0));
    exec.shader_state = vec![vc4_shader_state { addr: 0, max_index: 7 }];
    exec.shader_state_size = 1;
    exec.shader_rec_p = 0x2000;
    let mut out = vec![0u8; 8];
    assert_eq!(validate_nv_shader_state(&mut exec, &mut out, 2, &le32(0x40), 0), Ok(()));
    assert_eq!(exec.shader_state_count, 1);
    assert_eq!(exec.shader_state[0], vc4_shader_state { addr: 0x40, max_index: 0 });
    assert_eq!(exec.shader_rec_p, 0x2010);
    assert_eq!(&out[2..6], &le32(0x2040)[..]);
    assert_eq!(validate_nv_shader_state(&mut exec, &mut out, 2, &le32(0x80), 0), Err(Vc4Error::InvalidParam));
    assert_eq!(exec.shader_state_count, 2);
    assert_eq!(exec.shader_rec_p, 0x2010);
}

#[test]
fn tile_binning_config_places_the_tile_memory() {
    let mut exec = vc4_exec_info::new(args(0));
    let mut out = vec![0xaau8; 20];
    let mut b = vec![0u8; 12];
    b.extend([30u8, 17, 0xff]);
    assert_eq!(validate_tile_binning_config(&mut exec, &mut out, 1, &b, 0x10000), Ok(()));
    assert_eq!((exec.bin_tiles_x, exec.bin_tiles_y), (30, 17));
    // 48 bytes of tile state for each of 510 tiles, rounded up to a page
    assert_eq!(exec.tile_alloc_offset, 0x10000 + 0x6000);
    assert_eq!(&out[1..5], &le32(0x16000)[..]);
    assert_eq!(&out[5..9], &le32(0x10000)[..]);
    assert_eq!(out[15], 0xc7);
    assert_eq!(out[0], 0xaa);
    let mut plain = vec![0u8; 12];
    plain.extend([1u8, 1, 0x00]);
    let mut out2 = vec![0u8; 16];
    assert_eq!(validate_tile_binning_config(&mut exec, &mut out2, 0, &plain, 0), Ok(()));
    assert_eq!(out2[14], 0x44);
    assert_eq!(exec.tile_alloc_offset, 0x1000);
}

fn config_packet(x: u8, y: u8, flags: u8) -> Vec<u8> {
    let mut p = vec![112u8];
    p.extend(vec![0u8; 12]);
    p.extend([x, y, flags]);
    p
}

#[test]
fn bin_list_is_copied_and_checked() {
    let dev = device(0x10000);
    let mut src = config_packet(2, 2, 0);
    src.extend([6u8, 5, 0]);
    let mut exec = vc4_exec_info::new(args(src.len() as u32));
    exec.ct0ca = 0x5000;
    let mut out = vec![0u8; 32];
    assert_eq!(dev.vc4_validate_bin_cl(&mut exec, &mut out, &src), Ok(()));
    assert_eq!(exec.ct0ea, 0x5000 + 19);
    assert_eq!(out[0], 112);
    assert_eq!(&out[1..5], &le32(0x11000)[..]);
    assert_eq!(&out[5..9], &le32(0x10000)[..]);
    assert_eq!(out[15], 0x44);
    assert_eq!(&out[16..19], &[6, 5, 0]);
    assert!(out[19..].iter().all(|b| *b == 0));
    assert_eq!(exec.tile_alloc_offset, 0x11000);
}

#[test]
fn no_binner_bo_refuses_the_list() {
    let dev = GpuDevice::empty();
    let src = vec![0u8];
    let mut exec = vc4_exec_info::new(args(1));
    let mut out = vec![0u8; 4];
    assert_eq!(dev.vc4_validate_bin_cl(&mut exec, &mut out, &src), Err(Vc4Error::InvalidParam));
    assert_eq!(out, vec![0, 0, 0, 0]);
    assert_eq!(exec.ct0ea, 0);
}

#[test]
fn truncated_packet_is_refused() {
    let dev = device(0x10000);
    let src = vec![1u8, 102, 0, 0];
    let mut exec = vc4_exec_info::new(args(4));
    exec.ct0ea = 77;
    let mut out = vec![0u8; 16];
    assert_eq!(dev.vc4_validate_bin_cl(&mut exec, &mut out, &src), Err(Vc4Error::InvalidParam));
    assert_eq!(exec.ct0ea, 77);
    assert_eq!(out[0], 1);
}

#[test]
fn halt_ends_the_walk() {
    let dev = device(0x10000);
    let src = vec![1u8, 0, 1, 1];
    let mut exec = vc4_exec_info::new(args(4));
    exec.ct0ca = 0x100;
    let mut out = vec![9u8; 8];
    assert_eq!(dev.vc4_validate_bin_cl(&mut exec, &mut out, &src), Ok(()));
    assert_eq!(exec.ct0ea, 0x102);
    assert_eq!(out, vec![1, 0, 9, 9, 9, 9, 9, 9]);
}

#[test]
fn gem_handles_emit_nothing() {
    let dev = device(0x10000);
    let mut src = vec![254u8];
    src.extend(le32(3));
    src.extend(le32(4));
    src.push(0);
    let mut exec = vc4_exec_info::new(args(src.len() as u32));
    let mut out = vec![9u8; 4];
    assert_eq!(dev.vc4_validate_bin_cl(&mut exec, &mut out, &src), Ok(()));
    assert_eq!(exec.ct0ea, 1);
    assert_eq!(exec.bo_index, [3, 4]);
    assert_eq!(out, vec![0, 9, 9, 9]);
}

#[test]
fn a_failing_check_does_not_stop_the_walk() {
    let dev = device(0x10000);
    // an array primitive without shader state fails its check; the flush after it is copied
    let mut src = vec![33u8, 4];
    src.extend(le32(3));
    src.extend(le32(0));
    src.push(5);
    let mut exec = vc4_exec_info::new(args(src.len() as u32));
    let mut out = vec![0u8; 16];
    assert_eq!(dev.vc4_validate_bin_cl(&mut exec, &mut out, &src), Ok(()));
    assert_eq!(exec.ct0ea, 11);
    assert_eq!(&out[..11], &src[..]);
}

#[test]
fn output_is_never_longer_than_the_input() {
    let dev = device(0x10000);
    let mut src = vec![254u8];
    src.extend(le32(0));
    src.extend(le32(0));
    src.extend([1u8, 4, 5]);
    let mut exec = vc4_exec_info::new(args(src.len() as u32));
    let mut out = vec![0u8; 16];
    assert_eq!(dev.vc4_validate_bin_cl(&mut exec, &mut out, &src), Ok(()));
    assert!(exec.ct0ea as usize <= src.len());
    assert_eq!(exec.ct0ea, 3);
}

#[test]
fn checkability_is_decided() {
    let exec = vc4_exec_info::new(args(3));
    let out = vec![0u8; 8];
    assert!(vc4::validate::vc4_bin_cl_checkable(&exec, &out, &vec![1, 5, 0], 0x10000));
    // an unknown opcode is never stepped over
    assert!(!vc4::validate::vc4_bin_cl_checkable(&exec, &out, &vec![1, 2, 0], 0x10000));
    // a list longer than the bytes given
    assert!(!vc4::validate::vc4_bin_cl_checkable(&exec, &out, &vec![1, 1], 0x10000));
    // output too short
    assert!(!vc4::validate::vc4_bin_cl_checkable(&exec, &vec![0u8; 2], &vec![1, 5, 0], 0x10000));
    // a truncated packet is refused, which is no failure to walk
    assert!(vc4::validate::vc4_bin_cl_checkable(&exec, &out, &vec![1, 102, 0], 0x10000));
    // an array primitive with shader state but no state record would index past the records
    let mut src = vec![65u8];
    src.extend(le32(0));
    let mut prim = vec![33u8, 4];
    prim.extend(le32(3));
    prim.extend(le32(0));
    src.extend(prim);
    let mut e = vc4_exec_info::new(args(src.len() as u32));
    e.shader_state_size = 0;
    assert!(!vc4::validate::vc4_bin_cl_checkable(&e, &vec![0u8; 32], &src, 0x10000));
    e.shader_state = vec![vc4_shader_state { addr: 0, max_index: 0 }];
    assert!(vc4::validate::vc4_bin_cl_checkable(&e, &vec![0u8; 32], &src, 0x10000));
    // the end address must fit
    let mut e = vc4_exec_info::new(args(3));
    e.ct0ca = u32::MAX - 1;
    assert!(!vc4::validate::vc4_bin_cl_checkable(&e, &out, &vec![1, 5, 0], 0x10000));
}
