use vc4::cl::vc4_cl;
use vc4::device::{gpu_bo, GpuDevice, Vc4Error};
use vc4::gem::{drm_vc4_submit_cl, drm_vc4_submit_rcl_surface, vc4_exec_info};
use vc4::render::{emit_tile, vc4_get_field, vc4_rcl_setup, vc4_rcl_size, vc4_set_field};

fn surface(hindex: u32, offset: u32, bits: u16) -> drm_vc4_submit_rcl_surface {
    drm_vc4_submit_rcl_surface { hindex, offset, bits, flags: 0 }
}

fn no_surface() -> drm_vc4_submit_rcl_surface {
    surface(u32::MAX, 0, 0)
}

fn args() -> drm_vc4_submit_cl {
    drm_vc4_submit_cl {
        bin_cl: 0,
        shader_rec: 0,
        uniforms: 0,
        bo_handles: 0,
        bin_cl_size: 0,
        shader_rec_size: 0,
        shader_rec_count: 0,
        uniforms_size: 0,
        bo_handle_count: 0,
        width: 64,
        height: 32,
        min_x_tile: 0,
        min_y_tile: 0,
        max_x_tile: 1,
        max_y_tile: 0,
        color_read: no_surface(),
        color_write: no_surface(),
        zs_read: no_surface(),
        zs_write: no_surface(),
        msaa_color_write: no_surface(),
        msaa_zs_write: no_surface(),
        clear_color: [0x1111_1111, 0x2222_2222],
        clear_z: 0x3333_3333,
        clear_s: 0x44,
        flags: 0,
        seqno: 0,
    }
}

fn bo(handle: u32, paddr: u32) -> gpu_bo {
    gpu_bo { size: 0x10000, handle, paddr, vaddr: 0x8000_0000 + paddr as usize, bo_type: 1 }
}

fn le32(v: u32) -> Vec<u8> {
    v.to_le_bytes().to_vec()
}

fn le16(v: u16) -> Vec<u8> {
    v.to_le_bytes().to_vec()
}

fn exec_with_bos(a: drm_vc4_submit_cl) -> vc4_exec_info {
    let mut exec = vc4_exec_info::new(a);
    exec.bo = vec![bo(10, 0x10_0000), bo(11, 0x20_0000), bo(12, 0x30_0000)];
    exec.bo_count = 3;
    exec
}

fn empty_cl() -> vc4_cl {
    vc4_cl { base: 0, next: 0, reloc_next: 0, size: 0, mem: Vec::new() }
}

fn setup(cr: Option<gpu_bo>, cw: Option<gpu_bo>, zr: Option<gpu_bo>, zw: Option<gpu_bo>) -> vc4_rcl_setup {
    vc4_rcl_setup { color_read: cr, color_write: cw, zs_read: zr, zs_write: zw, rcl: empty_cl() }
}

#[test]
fn short_fields() {
    assert_eq!(vc4_set_field(1, 8, 0x300), 0x100);
    assert_eq!(vc4_set_field(7, 8, 0x300), 0x300);
    assert_eq!(vc4_get_field(0x0231, 4, 0x30), 3);
    assert_eq!(vc4_get_field(0x0231, 0, 0x7), 1);
}

#[test]
fn tile_with_color_write_only() {
    let exec = exec_with_bos(args());
    let mut s = setup(None, Some(bo(11, 0x20_0000)), None, None);
    s.rcl = vc4_cl { base: 0, next: 0, reloc_next: 0, size: 16, mem: vec![0u8; 16] };
    emit_tile(&exec, &mut s, 1, 0, false, false);
    emit_tile(&exec, &mut s, 2, 3, false, true);
    assert_eq!(s.rcl.next, 8);
    assert_eq!(&s.rcl.mem[..8], &[115, 1, 0, 24, 115, 2, 3, 25]);
}

#[test]
fn tile_with_every_surface_and_a_binner_list() {
    let mut a = args();
    a.bin_cl_size = 4;
    a.color_read = surface(0, 0x40, 0);
    a.zs_read = surface(1, 0x80, 0);
    a.zs_write = surface(2, 0x10, 0x0102);
    let mut exec = exec_with_bos(a);
    exec.bin_tiles_x = 4;
    exec.tile_alloc_offset = 0x9000;
    let mut s = setup(Some(bo(10, 0x10_0000)), Some(bo(11, 0x20_0000)), Some(bo(11, 0x20_0000)), Some(bo(12, 0x30_0000)));
    s.rcl = vc4_cl { base: 0, next: 0, reloc_next: 0, size: 64, mem: vec![0u8; 64] };
    emit_tile(&exec, &mut s, 1, 2, true, true);
    let mut want = vec![29u8];
    want.extend(le16(0));
    want.extend(le32(0x10_0040));
    want.extend([115u8, 1, 2]);
    want.extend([28u8, 0x00, 0xe0, 0, 0, 0, 0]);
    want.push(29);
    want.extend(le16(0));
    want.extend(le32(0x20_0080));
    want.extend([115u8, 1, 2]);
    want.push(8);
    want.push(17);
    want.extend(le32(0x9000 + (2 * 4 + 1) * 32));
    want.push(28);
    want.extend(le16(0x0102));
    want.extend(le32(0x30_0010 | 0x8));
    want.extend([115u8, 1, 2]);
    want.push(25);
    assert_eq!(s.rcl.next, want.len());
    assert_eq!(&s.rcl.mem[..want.len()], &want[..]);
}

#[test]
fn zs_store_alone_clears_no_color_and_does_not_end_the_frame() {
    let mut a = args();
    a.zs_write = surface(2, 0x10, 0x0002);
    let exec = exec_with_bos(a);
    let mut s = setup(None, None, None, Some(bo(12, 0x30_0000)));
    s.rcl = vc4_cl { base: 0, next: 0, reloc_next: 0, size: 16, mem: vec![0u8; 16] };
    emit_tile(&exec, &mut s, 0, 0, true, true);
    let mut want = vec![115u8, 0, 0, 28];
    want.extend(le16(0x2002));
    want.extend(le32(0x30_0010));
    assert_eq!(&s.rcl.mem[..want.len()], &want[..]);
    assert_eq!(s.rcl.next, want.len());
}

#[test]
fn load_store_surface_checks() {
    let mut dev = GpuDevice::empty();
    let mut exec = exec_with_bos(args());
    let mut obj = None;
    assert_eq!(dev.vc4_rcl_surface_setup(&mut exec, &mut obj, no_surface()), Ok(()));
    assert_eq!(obj, None);
    assert_eq!(dev.vc4_rcl_surface_setup(&mut exec, &mut obj, surface(3, 0, 1)), Err(Vc4Error::InvalidParam));
    assert_eq!(obj, None);
    // color, linear, RGBA8888
    assert_eq!(dev.vc4_rcl_surface_setup(&mut exec, &mut obj, surface(1, 0x20, 0x0001)), Ok(()));
    assert_eq!(obj, Some(bo(11, 0x20_0000)));
    // color, T tiling, BGR565
    let mut obj = None;
    assert_eq!(dev.vc4_rcl_surface_setup(&mut exec, &mut obj, surface(0, 0, 0x0211)), Ok(()));
    assert_eq!(obj, Some(bo(10, 0x10_0000)));
    // unknown bits: the buffer object is still taken
    let mut obj = None;
    assert_eq!(dev.vc4_rcl_surface_setup(&mut exec, &mut obj, surface(0, 0, 0x0801)), Err(Vc4Error::InvalidParam));
    assert_eq!(obj, Some(bo(10, 0x10_0000)));
    // bad tiling, bad color format, Z/S with a format, no buffer, unaligned offset
    let mut obj = None;
    assert_eq!(dev.vc4_rcl_surface_setup(&mut exec, &mut obj, surface(0, 0, 0x0031)), Err(Vc4Error::InvalidParam));
    assert_eq!(dev.vc4_rcl_surface_setup(&mut exec, &mut obj, surface(0, 0, 0x0301)), Err(Vc4Error::InvalidParam));
    assert_eq!(dev.vc4_rcl_surface_setup(&mut exec, &mut obj, surface(0, 0, 0x0102)), Err(Vc4Error::InvalidParam));
    assert_eq!(dev.vc4_rcl_surface_setup(&mut exec, &mut obj, surface(0, 0, 0x0002)), Ok(()));
    assert_eq!(dev.vc4_rcl_surface_setup(&mut exec, &mut obj, surface(0, 0, 0x0000)), Err(Vc4Error::InvalidParam));
    assert_eq!(dev.vc4_rcl_surface_setup(&mut exec, &mut obj, surface(0, 0x18, 0x0001)), Err(Vc4Error::InvalidParam));
}

#[test]
fn render_config_surface_checks() {
    let mut dev = GpuDevice::empty();
    let mut exec = exec_with_bos(args());
    let mut obj = None;
    // unknown bits are refused even without a buffer object
    assert_eq!(dev.vc4_rcl_render_config_surface_setup(&mut exec, &mut obj, surface(u32::MAX, 0, 0x0100)), Err(Vc4Error::InvalidParam));
    assert_eq!(dev.vc4_rcl_render_config_surface_setup(&mut exec, &mut obj, no_surface()), Ok(()));
    assert_eq!(obj, None);
    // linear RGBA8888
    assert_eq!(dev.vc4_rcl_render_config_surface_setup(&mut exec, &mut obj, surface(2, 3, 0x0004)), Ok(()));
    assert_eq!(obj, Some(bo(12, 0x30_0000)));
    // BGR565 and dithered BGR565
    assert_eq!(dev.vc4_rcl_render_config_surface_setup(&mut exec, &mut obj, surface(2, 0, 0x0008)), Ok(()));
    assert_eq!(dev.vc4_rcl_render_config_surface_setup(&mut exec, &mut obj, surface(2, 0, 0x0000)), Ok(()));
    // format 3 and tiling 3 are refused
    assert_eq!(dev.vc4_rcl_render_config_surface_setup(&mut exec, &mut obj, surface(2, 0, 0x000c)), Err(Vc4Error::InvalidParam));
    assert_eq!(dev.vc4_rcl_render_config_surface_setup(&mut exec, &mut obj, surface(2, 0, 0x00c4)), Err(Vc4Error::InvalidParam));
    assert_eq!(dev.vc4_rcl_render_config_surface_setup(&mut exec, &mut obj, surface(7, 0, 0x0004)), Err(Vc4Error::InvalidParam));
}

#[test]
fn render_setup_checks() {
    let mut dev = GpuDevice::empty();
    let mut a = args();
    a.min_x_tile = 2;
    a.max_x_tile = 1;
    let mut exec = exec_with_bos(a);
    assert_eq!(dev.vc4_get_rcl(&mut exec).err(), Some(Vc4Error::InvalidParam));
    let mut a = args();
    a.bin_cl_size = 8;
    a.max_x_tile = 5;
    a.color_write = surface(0, 0, 0x0004);
    let mut exec = exec_with_bos(a);
    exec.bin_tiles_x = 4;
    exec.bin_tiles_y = 4;
    assert_eq!(dev.vc4_get_rcl(&mut exec).err(), Some(Vc4Error::InvalidParam));
    exec.bin_tiles_x = 5;
    assert!(dev.vc4_get_rcl(&mut exec).is_ok());
    // nothing written
    let mut exec = exec_with_bos(args());
    assert_eq!(dev.vc4_get_rcl(&mut exec).err(), Some(Vc4Error::InvalidParam));
    // a failing surface decides
    let mut a = args();
    a.color_write = surface(0, 0, 0x0004);
    a.zs_read = surface(9, 0, 0x0002);
    let mut exec = exec_with_bos(a);
    assert_eq!(dev.vc4_get_rcl(&mut exec).err(), Some(Vc4Error::InvalidParam));
    let mut a = args();
    a.color_write = surface(0, 0, 0x0004);
    a.zs_write = surface(2, 0, 0x0002);
    let mut exec = exec_with_bos(a);
    let s = dev.vc4_get_rcl(&mut exec).unwrap();
    assert_eq!(s.color_read, None);
    assert_eq!(s.color_write, Some(bo(10, 0x10_0000)));
    assert_eq!(s.zs_read, None);
    assert_eq!(s.zs_write, Some(bo(12, 0x30_0000)));
    assert_eq!((s.rcl.base, s.rcl.next, s.rcl.size, s.rcl.mem.len()), (0, 0, 0, 0));
}

#[test]
fn render_list_size() {
    let exec = exec_with_bos(args());
    let s = setup(None, Some(bo(10, 0)), None, None);
    // 11 for the configuration, then 2 tiles of coordinates and a store
    assert_eq!(vc4_rcl_size(&exec, &s), 11 + 2 * 4);
    let mut a = args();
    a.flags = 1;
    a.bin_cl_size = 4;
    a.max_y_tile = 2;
    let exec = exec_with_bos(a);
    let s = setup(Some(bo(10, 0)), Some(bo(10, 0)), Some(bo(11, 0)), Some(bo(12, 0)));
    // 11 + clear (14 + 3 + 7) + wait 1; each of 6 tiles: 3 + 7 + (3 + 7 + 7) + 5 + 7 + 1 + 3
    assert_eq!(vc4_rcl_size(&exec, &s), 11 + 24 + 1 + 6 * 43);
}

#[test]
fn render_list_written_into_its_bo() {
    let mut dev = GpuDevice::empty();
    let mut a = args();
    a.color_write = surface(0, 0x100, 0x0004);
    let mut exec = exec_with_bos(a);
    let mut s = dev.vc4_get_rcl(&mut exec).unwrap();
    let size = vc4_rcl_size(&exec, &s);
    let rbo = gpu_bo { size: 4096, handle: 20, paddr: 0x50_0000, vaddr: 0x9000, bo_type: 3 };
    assert_eq!(dev.vc4_create_rcl_bo(&mut exec, &mut s, Some(rbo)), Ok(()));
    let mut want = vec![113u8];
    want.extend(le32(0x10_0100));
    want.extend(le16(64));
    want.extend(le16(32));
    want.extend(le16(0x0004));
    want.extend([115u8, 0, 0, 24, 115, 1, 0, 25]);
    assert_eq!(s.rcl.mem, want);
    assert_eq!(size as usize, want.len());
    assert_eq!((s.rcl.base, s.rcl.next, s.rcl.size), (0x9000, 0x9000 + want.len(), size));
    assert_eq!((exec.ct1ca, exec.ct1ea), (0x50_0000, 0x50_0000 + size));
}

#[test]
fn render_list_with_clear_and_binner_is_as_long_as_its_size() {
    let mut dev = GpuDevice::empty();
    let mut a = args();
    a.flags = 1;
    a.bin_cl_size = 4;
    a.min_x_tile = 1;
    a.max_x_tile = 3;
    a.max_y_tile = 1;
    a.color_read = surface(1, 0, 0x0001);
    a.color_write = surface(0, 0, 0x0004);
    a.zs_write = surface(2, 0, 0x0002);
    let mut exec = exec_with_bos(a);
    exec.bin_tiles_x = 4;
    exec.bin_tiles_y = 2;
    exec.tile_alloc_offset = 0x7000;
    let mut s = dev.vc4_get_rcl(&mut exec).unwrap();
    let size = vc4_rcl_size(&exec, &s);
    let rbo = gpu_bo { size: 4096, handle: 20, paddr: 0x50_0000, vaddr: 0x9000, bo_type: 3 };
    assert_eq!(dev.vc4_create_rcl_bo(&mut exec, &mut s, Some(rbo)), Ok(()));
    assert_eq!(s.rcl.mem.len(), size as usize);
    assert_eq!(s.rcl.next - s.rcl.base, size as usize);
    let mut head = vec![114u8];
    head.extend(le32(0x1111_1111));
    head.extend(le32(0x2222_2222));
    head.extend(le32(0x3333_3333));
    head.push(0x44);
    head.extend([115u8, 0, 0, 28, 0, 0, 0, 0, 0, 0, 113]);
    assert_eq!(&s.rcl.mem[..head.len()], &head[..]);
    // the first tile waits for the binner after selecting itself
    let t = head.len() + 10;
    assert_eq!(&s.rcl.mem[t..t + 7], &[29, 0x01, 0x00, 0, 0, 0x20, 0]);
    assert_eq!(&s.rcl.mem[t + 7..t + 11], &[115, 1, 0, 8]);
    assert_eq!(s.rcl.mem[t + 11], 17);
    assert_eq!(&s.rcl.mem[t + 12..t + 16], &le32(0x7000 + 32)[..]);
    assert_eq!(*s.rcl.mem.last().unwrap(), 25);
    assert_eq!(exec.ct1ea - exec.ct1ca, size);
}

#[test]
fn render_list_needs_a_bo() {
    let mut dev = GpuDevice::empty();
    let mut a = args();
    a.color_write = surface(0, 0, 0x0004);
    let mut exec = exec_with_bos(a);
    let mut s = dev.vc4_get_rcl(&mut exec).unwrap();
    assert_eq!(dev.vc4_create_rcl_bo(&mut exec, &mut s, None), Err(Vc4Error::InvalidParam));
    assert!(s.rcl.mem.is_empty());
    assert_eq!((exec.ct1ca, exec.ct1ea), (0, 0));
}
