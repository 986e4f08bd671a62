use vc4::device::{gpu_bo, GpuDevice, Vc4Error};
use vc4::gem::{
    drm_vc4_submit_cl, drm_vc4_submit_rcl_surface, vc4_bcl_layout, vc4_exec_info, SubmitEvent,
    SubmitStep,
};

fn no_surface() -> drm_vc4_submit_rcl_surface {
    drm_vc4_submit_rcl_surface { hindex: u32::MAX, offset: 0, bits: 0, flags: 0 }
}

fn args() -> drm_vc4_submit_cl {
    drm_vc4_submit_cl {
        bin_cl: 0x4000,
        shader_rec: 0,
        uniforms: 0,
        bo_handles: 0x6000,
        bin_cl_size: 0,
        shader_rec_size: 0,
        shader_rec_count: 0,
        uniforms_size: 0,
        bo_handle_count: 0,
        width: 0,
        height: 0,
        min_x_tile: 0,
        min_y_tile: 0,
        max_x_tile: 0,
        max_y_tile: 0,
        color_read: no_surface(),
        color_write: no_surface(),
        zs_read: no_surface(),
        zs_write: no_surface(),
        msaa_color_write: no_surface(),
        msaa_zs_write: no_surface(),
        clear_color: [0, 0],
        clear_z: 0,
        clear_s: 0,
        flags: 0,
        seqno: 0,
    }
}

fn device() -> GpuDevice {
    let mut d = GpuDevice::empty();
    d.bin_bo = Some(gpu_bo { size: 512 * 1024, handle: 1, paddr: 0x10_0000, vaddr: 0, bo_type: 2 });
    d
}

fn exec_bo() -> gpu_bo {
    gpu_bo { size: 4096, handle: 5, paddr: 0x20_0000, vaddr: 0x7000, bo_type: 4 }
}

#[test]
fn new_job_is_empty() {
    let exec = vc4_exec_info::new(args());
    assert!(exec.bo.is_empty() && exec.unref_list.is_empty() && exec.shader_state.is_empty());
    assert_eq!((exec.bo_count, exec.bo_index, exec.exec_bo), (0, [0, 0], None));
    assert_eq!((exec.ct0ca, exec.ct0ea, exec.ct1ca, exec.ct1ea), (0, 0, 0, 0));
    assert_eq!(exec.args.bin_cl, 0x4000);
}

#[test]
fn layout_of_the_job_bo() {
    let mut a = args();
    a.bin_cl_size = 10;
    a.shader_rec_size = 32;
    a.uniforms_size = 8;
    a.shader_rec_count = 2;
    let l = vc4_bcl_layout(&a).unwrap();
    assert_eq!((l.shader_rec_offset, l.uniforms_offset, l.exec_size, l.temp_size), (16, 48, 56, 72));
    a.bin_cl_size = 32;
    let l = vc4_bcl_layout(&a).unwrap();
    assert_eq!(l.shader_rec_offset, 32);
}

#[test]
fn layout_that_wraps_is_refused() {
    let mut a = args();
    a.bin_cl_size = 0xffff_fff8;
    assert_eq!(vc4_bcl_layout(&a), Err(Vc4Error::InvalidParam));
    let mut a = args();
    a.bin_cl_size = 16;
    a.shader_rec_size = 0xffff_fff8;
    assert_eq!(vc4_bcl_layout(&a), Err(Vc4Error::InvalidParam));
    let mut a = args();
    a.uniforms_size = 0xffff_ffff;
    a.shader_rec_size = 1;
    assert_eq!(vc4_bcl_layout(&a), Err(Vc4Error::InvalidParam));
    let mut a = args();
    a.uniforms_size = 0xffff_fff0;
    a.shader_rec_count = 4;
    assert_eq!(vc4_bcl_layout(&a), Err(Vc4Error::InvalidParam));
}

#[test]
fn accepted_layout_is_exact() {
    for (b, r, u) in [(0u32, 0u32, 0u32), (1, 2, 3), (17, 100, 7), (0xffff_0000, 0x100, 0x10)] {
        let mut a = args();
        a.bin_cl_size = b;
        a.shader_rec_size = r;
        a.uniforms_size = u;
        let l = vc4_bcl_layout(&a).unwrap();
        assert_eq!(l.shader_rec_offset % 16, 0);
        assert!(b <= l.shader_rec_offset && (l.shader_rec_offset as u64) < b as u64 + 16);
        assert_eq!(l.uniforms_offset as u64, l.shader_rec_offset as u64 + r as u64);
        assert_eq!(l.exec_size as u64, l.uniforms_offset as u64 + u as u64);
    }
}

fn live(handle: u32) -> gpu_bo {
    gpu_bo { size: 4096, handle, paddr: 0x1000 * handle, vaddr: 0, bo_type: 1 }
}

#[test]
fn lookup_of_job_bos() {
    let mut dev = device();
    dev.handle_bo_map.insert(4, live(4));
    dev.handle_bo_map.insert(5, live(5));
    let mut exec = vc4_exec_info::new(args());
    exec.bo_count = 9;
    assert_eq!(dev.vc4_cl_lookup_bos(&mut exec, None), Ok(()));
    assert_eq!(exec.bo_count, 0);
    assert!(exec.bo.is_empty());
    let mut a = args();
    a.bo_handle_count = 3;
    let mut exec = vc4_exec_info::new(a);
    assert_eq!(dev.vc4_cl_lookup_bos(&mut exec, Some(vec![5, 4, 5])), Ok(()));
    assert_eq!(exec.bo_count, 3);
    assert_eq!(exec.bo, vec![live(5), live(4), live(5)]);
    // found in handle order up to the first handle that is not found
    let mut exec = vc4_exec_info::new(a);
    assert_eq!(dev.vc4_cl_lookup_bos(&mut exec, Some(vec![4, 6, 5])), Err(Vc4Error::InvalidParam));
    assert_eq!(exec.bo_count, 3);
    assert_eq!(exec.bo, vec![live(4)]);
    let mut exec = vc4_exec_info::new(a);
    assert_eq!(dev.vc4_cl_lookup_bos(&mut exec, None), Err(Vc4Error::InvalidParam));
    assert!(exec.bo.is_empty());
}

#[test]
fn job_bo_set_up_and_list_checked() {
    let mut dev = device();
    let mut a = args();
    a.bin_cl_size = 3;
    a.shader_rec_size = 16;
    let mut exec = vc4_exec_info::new(a);
    let mut validated = vec![0u8; 32];
    assert_eq!(dev.vc4_get_bcl(&mut exec, Some(exec_bo()), Some(vec![1, 5, 0]), &mut validated), Ok(()));
    assert_eq!(exec.exec_bo, Some(exec_bo()));
    assert_eq!(exec.ct0ca, 0x20_0000);
    assert_eq!(exec.ct0ea, 0x20_0003);
    assert_eq!(exec.shader_rec_p, 0x20_0010);
    assert_eq!(exec.shader_rec_v, 0x7010);
    assert_eq!(exec.shader_rec_size, 16);
    assert_eq!(&validated[..4], &[1, 5, 0, 0]);
}

#[test]
fn job_bo_failures() {
    let mut dev = device();
    let mut a = args();
    a.bin_cl_size = 0xffff_fff8;
    let mut exec = vc4_exec_info::new(a);
    let mut validated = vec![0u8; 16];
    assert_eq!(dev.vc4_get_bcl(&mut exec, Some(exec_bo()), Some(vec![0]), &mut validated), Err(Vc4Error::InvalidParam));
    assert_eq!(exec.exec_bo, None);
    let mut a = args();
    a.bin_cl_size = 1;
    let mut exec = vc4_exec_info::new(a);
    assert_eq!(dev.vc4_get_bcl(&mut exec, None, Some(vec![0]), &mut validated), Err(Vc4Error::InvalidParam));
    assert_eq!((exec.exec_bo, exec.ct0ca), (None, 0));
    // the bo is recorded before the list is read
    assert_eq!(dev.vc4_get_bcl(&mut exec, Some(exec_bo()), None, &mut validated), Err(Vc4Error::InvalidParam));
    assert_eq!((exec.exec_bo, exec.ct0ca, exec.ct0ea), (Some(exec_bo()), 0x20_0000, 0));
    assert_eq!(validated, vec![0u8; 16]);
}

#[test]
fn submit_without_handles_or_binner_list() {
    let mut dev = device();
    let mut exec = vc4_exec_info::new(args());
    exec.ct0ca = 5;
    exec.ct0ea = 6;
    let mut validated = Vec::new();
    let s = dev.vc4_submit_cl_ioctl(&mut exec, SubmitEvent::Start, &mut validated);
    assert!(matches!(s, SubmitStep::Done { result: Ok(()) }));
    assert_eq!((exec.ct0ca, exec.ct0ea), (0, 0));
}

#[test]
fn submit_reads_and_looks_up_handles() {
    let mut dev = device();
    dev.handle_bo_map.insert(4, live(4));
    dev.handle_bo_map.insert(5, live(5));
    let mut a = args();
    a.bo_handle_count = 2;
    let mut exec = vc4_exec_info::new(a);
    let mut validated = Vec::new();
    let s = dev.vc4_submit_cl_ioctl(&mut exec, SubmitEvent::Start, &mut validated);
    assert!(matches!(s, SubmitStep::ReadHandles { addr: 0x6000, count: 2 }));
    let s = dev.vc4_submit_cl_ioctl(&mut exec, SubmitEvent::Handles { handles: Some(vec![4, 5]) }, &mut validated);
    assert!(matches!(s, SubmitStep::Done { result: Ok(()) }));
    assert_eq!(exec.bo, vec![live(4), live(5)]);
    let mut exec = vc4_exec_info::new(a);
    let s = dev.vc4_submit_cl_ioctl(&mut exec, SubmitEvent::Handles { handles: Some(vec![4, 6]) }, &mut validated);
    assert!(matches!(s, SubmitStep::Done { result: Err(Vc4Error::InvalidParam) }));
    assert_eq!(exec.bo_count, 2);
    assert_eq!(exec.bo, vec![live(4)]);
}

#[test]
fn readiness_of_a_job_bo_and_list() {
    let dev = device();
    let mut a = args();
    a.bin_cl_size = 2;
    let exec = vc4_exec_info::new(a);
    let validated = vec![0u8; 16];
    assert!(dev.vc4_get_bcl_ready(&exec, Some(exec_bo()), &Some(vec![1, 0]), &validated));
    assert!(dev.vc4_get_bcl_ready(&exec, None, &Some(vec![2, 0]), &validated));
    assert!(dev.vc4_get_bcl_ready(&exec, Some(exec_bo()), &None, &validated));
    // an unknown opcode would never be stepped over
    assert!(!dev.vc4_get_bcl_ready(&exec, Some(exec_bo()), &Some(vec![2, 0]), &validated));
    // the output must be the job's buffer object, of the layout's size
    assert!(!dev.vc4_get_bcl_ready(&exec, Some(exec_bo()), &Some(vec![1, 0]), &vec![0u8; 1]));
    let small = gpu_bo { size: 8, handle: 5, paddr: 0x20_0000, vaddr: 0x7000, bo_type: 4 };
    assert!(!dev.vc4_get_bcl_ready(&exec, Some(small), &Some(vec![1, 0]), &validated));
    let v3d = gpu_bo { size: 4096, handle: 5, paddr: 0x20_0000, vaddr: 0x7000, bo_type: 1 };
    assert!(!dev.vc4_get_bcl_ready(&exec, Some(v3d), &Some(vec![1, 0]), &validated));
    // the shader records' address must not overflow
    let far = gpu_bo { size: 4096, handle: 5, paddr: 0xffff_fff8, vaddr: 0, bo_type: 4 };
    assert!(!dev.vc4_get_bcl_ready(&exec, Some(far), &Some(vec![1, 0]), &validated));
}

#[test]
fn submit_with_a_binner_list() {
    let mut dev = device();
    let mut a = args();
    a.bin_cl_size = 2;
    let mut exec = vc4_exec_info::new(a);
    let mut validated = vec![0u8; 16];
    let s = dev.vc4_submit_cl_ioctl(&mut exec, SubmitEvent::Start, &mut validated);
    assert!(matches!(s, SubmitStep::CreateExecBo { size: 16 }));
    let s = dev.vc4_submit_cl_ioctl(&mut exec, SubmitEvent::ExecBo { bo: Some(exec_bo()) }, &mut validated);
    match s {
        SubmitStep::ReadBinCl { addr, len, bo } => {
            assert_eq!((addr, len, bo), (0x4000, 2, exec_bo()));
        }
        _ => panic!("unexpected step {:?}", s),
    }
    let s = dev.vc4_submit_cl_ioctl(&mut exec, SubmitEvent::BinCl { exec_bo: exec_bo(), bytes: Some(vec![1, 0]) }, &mut validated);
    assert!(matches!(s, SubmitStep::Done { result: Ok(()) }));
    assert_eq!((exec.ct0ca, exec.ct0ea), (0x20_0000, 0x20_0002));
    assert_eq!(&validated[..2], &[1, 0]);
}

#[test]
fn submit_without_a_job_bo_fails() {
    let mut dev = device();
    let mut a = args();
    a.bin_cl_size = 2;
    let mut exec = vc4_exec_info::new(a);
    let mut validated = vec![0u8; 4];
    let s = dev.vc4_submit_cl_ioctl(&mut exec, SubmitEvent::ExecBo { bo: None }, &mut validated);
    assert!(matches!(s, SubmitStep::Done { result: Err(Vc4Error::InvalidParam) }));
    let mut a = args();
    a.bin_cl_size = 0xffff_fff8;
    let mut exec = vc4_exec_info::new(a);
    let s = dev.vc4_submit_cl_ioctl(&mut exec, SubmitEvent::Start, &mut validated);
    assert!(matches!(s, SubmitStep::Done { result: Err(Vc4Error::InvalidParam) }));
}
