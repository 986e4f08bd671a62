use vc4::device::{
    gpu_bo, GpuDevice, Vc4Error, Vc4Ioctl, BoCreateStep, BoCreateEvent, BoDestroyStep,
    BoDestroyEvent, GpuInitStep, GpuInitEvent,
    roundUp, roundDown, v3d_powered_up, PAGE_SIZE, VC4_BO_TYPE_FB, VC4_BO_TYPE_V3D,
    VC4_BO_TYPE_BIN, BIN_BO_SIZE, V3D_IDENT0_POWERED,
};
use vc4::drm::{drm_vc4_create_bo, drm_vc4_free_bo, drm_vc4_mmap_bo};

fn create(dev: &mut GpuDevice, size: u32, bo_type: u32, handle: u32, bus: u32) -> Option<gpu_bo> {
    let mut step = dev.vc4_bo_create(size, bo_type);
    loop {
        let ev = match step {
            BoCreateStep::Alloc { .. } => BoCreateEvent::Allocated { handle: Some(handle) },
            BoCreateStep::Lock { .. } => BoCreateEvent::Locked { bus_addr: Some(bus) },
            BoCreateStep::Free { .. } => BoCreateEvent::Freed,
            BoCreateStep::MapMemory { .. } => BoCreateEvent::Mapped { vaddr: 0xffff_0000_0000_0000 },
            BoCreateStep::Done { bo } => return bo,
        };
        step = dev.vc4_bo_create_step(step, ev, bo_type);
    }
}

#[test]
fn rounding_to_multiples() {
    assert_eq!(roundDown(4097, 4096), 4096);
    assert_eq!(roundDown(4095, 4096), 0);
    assert_eq!(roundUp(1, 4096), 4096);
    assert_eq!(roundUp(4096, 4096), 4096);
    assert_eq!(roundUp(4097, 4096), 8192);
    assert_eq!(roundUp(10, 16), 16);
    // the sum wraps around 2^32
    assert_eq!(roundUp(0xffff_ffff, 16), 0);
}

#[test]
fn bo_create_first_step() {
    let mut dev = GpuDevice::empty();
    assert_eq!(dev.vc4_bo_create(0, VC4_BO_TYPE_V3D), BoCreateStep::Done { bo: None });
    assert_eq!(dev.vc4_bo_create(5000, VC4_BO_TYPE_V3D), BoCreateStep::Alloc { size: 8192 });
    assert_eq!(dev.vc4_bo_create(PAGE_SIZE as u32, VC4_BO_TYPE_BIN), BoCreateStep::Alloc { size: 4096 });
    // a framebuffer request allocates nothing: it gets the device's framebuffer, if any
    assert_eq!(dev.vc4_bo_create(5000, VC4_BO_TYPE_FB), BoCreateStep::Done { bo: None });
    let fb = gpu_bo { size: 8294400, handle: 0, paddr: 0x3e00_0000, vaddr: 0x1000, bo_type: VC4_BO_TYPE_FB };
    dev.fb_bo = Some(fb);
    assert_eq!(dev.vc4_bo_create(5000, VC4_BO_TYPE_FB), BoCreateStep::Done { bo: Some(fb) });
    assert_eq!(dev.vc4_bo_create(0, VC4_BO_TYPE_FB), BoCreateStep::Done { bo: Some(fb) });
}

#[test]
fn bo_create_steps_record_the_bo() {
    let mut dev = GpuDevice::empty();
    let bo = create(&mut dev, 5000, VC4_BO_TYPE_V3D, 7, 0xc000_1000).unwrap();
    assert_eq!(bo, gpu_bo { size: 8192, handle: 7, paddr: 0x1000, vaddr: 0xffff_0000_0000_0000, bo_type: VC4_BO_TYPE_V3D });
    assert_eq!(dev.handle_bo_map.get(&7), Some(&bo));
    assert_eq!(dev.vc4_lookup_bo(7), Some(bo));
    assert_eq!(dev.vc4_bo_destroy(7), BoDestroyStep::Unmap { handle: 7, vaddr: 0xffff_0000_0000_0000, size: 8192 });
    assert_eq!(dev.vc4_bo_destroy(8), BoDestroyStep::Done { released: false });
}

#[test]
fn mapping_uses_the_physical_address_of_the_locked_bus_address() {
    let mut dev = GpuDevice::empty();
    let s = BoCreateStep::Lock { handle: 3, size: 4096 };
    let s = dev.vc4_bo_create_step(s, BoCreateEvent::Locked { bus_addr: Some(0xc012_3000) }, 1);
    assert_eq!(s, BoCreateStep::MapMemory { handle: 3, paddr: 0x0012_3000, size: 4096 });
    let s = dev.vc4_bo_create_step(s, BoCreateEvent::Mapped { vaddr: 0x9000 }, 1);
    let bo = gpu_bo { size: 4096, handle: 3, paddr: 0x0012_3000, vaddr: 0x9000, bo_type: 1 };
    assert_eq!(s, BoCreateStep::Done { bo: Some(bo) });
}

#[test]
fn bo_create_failures() {
    let mut dev = GpuDevice::empty();
    let s = BoCreateStep::Alloc { size: 4096 };
    assert_eq!(dev.vc4_bo_create_step(s, BoCreateEvent::Allocated { handle: None }, 1), BoCreateStep::Done { bo: None });
    let s = BoCreateStep::Lock { handle: 3, size: 4096 };
    assert_eq!(dev.vc4_bo_create_step(s, BoCreateEvent::Locked { bus_addr: None }, 1), BoCreateStep::Free { handle: 3 });
    let s = BoCreateStep::Free { handle: 3 };
    assert_eq!(dev.vc4_bo_create_step(s, BoCreateEvent::Freed, 1), BoCreateStep::Done { bo: None });
    assert!(dev.handle_bo_map.is_empty());
}

#[test]
fn lookup_finds_live_bos() {
    let mut dev = GpuDevice::empty();
    let bo = create(&mut dev, 4096, VC4_BO_TYPE_V3D, 1, 0x4000).unwrap();
    assert_eq!(dev.vc4_lookup_bo(1), Some(bo));
    assert_eq!(dev.vc4_lookup_bo(2), None);
    // an entry under another handle, or with no buffer, is not live
    dev.handle_bo_map.insert(5, gpu_bo { size: 4096, handle: 6, paddr: 0, vaddr: 0, bo_type: 1 });
    dev.handle_bo_map.insert(8, gpu_bo { size: 0, handle: 8, paddr: 0, vaddr: 0, bo_type: 1 });
    assert_eq!(dev.vc4_lookup_bo(5), None);
    assert_eq!(dev.vc4_lookup_bo(8), None);
    assert_eq!(dev.vc4_free_bo_ioctl(&drm_vc4_free_bo { handle: 1 }), Ok(1));
    assert_eq!(dev.vc4_free_bo_ioctl(&drm_vc4_free_bo { handle: 2 }), Err(Vc4Error::InvalidParam));
    assert_eq!(dev.vc4_mmap_bo_ioctl(&drm_vc4_mmap_bo { handle: 1, offset: 0 }), Ok(bo));
    assert_eq!(dev.vc4_mmap_bo_ioctl(&drm_vc4_mmap_bo { handle: 8, offset: 0 }), Err(Vc4Error::InvalidParam));
}

fn destroy(dev: &mut GpuDevice, handle: u32, unlock_ok: bool, free_ok: bool) -> (bool, Vec<&'static str>) {
    let mut done = Vec::new();
    let mut step = dev.vc4_bo_destroy(handle);
    loop {
        let ev = match step {
            BoDestroyStep::Unmap { .. } => {
                done.push("unmap");
                BoDestroyEvent::Unmapped
            }
            BoDestroyStep::Unlock { .. } => {
                done.push("unlock");
                BoDestroyEvent::Unlocked { ok: unlock_ok }
            }
            BoDestroyStep::Free { .. } => {
                done.push("free");
                BoDestroyEvent::Freed { ok: free_ok }
            }
            BoDestroyStep::Done { released } => return (released, done),
        };
        step = dev.vc4_bo_destroy_step(step, ev);
    }
}

#[test]
fn destroy_keeps_framebuffers_and_forgets_released_bos() {
    let mut dev = GpuDevice::empty();
    create(&mut dev, 4096, VC4_BO_TYPE_V3D, 1, 0x4000);
    create(&mut dev, 4096, VC4_BO_TYPE_V3D, 2, 0x8000);
    dev.handle_bo_map.insert(3, gpu_bo { size: 4096, handle: 3, paddr: 0, vaddr: 0, bo_type: VC4_BO_TYPE_FB });
    assert_eq!(destroy(&mut dev, 3, true, true), (false, vec![]));
    assert_eq!(destroy(&mut dev, 9, true, true), (false, vec![]));
    // a failed unlock frees nothing and keeps the bo
    assert_eq!(destroy(&mut dev, 2, false, true), (false, vec!["unmap", "unlock"]));
    assert!(dev.handle_bo_map.contains_key(&2));
    // a failed free keeps the bo
    assert_eq!(destroy(&mut dev, 2, true, false), (false, vec!["unmap", "unlock", "free"]));
    assert!(dev.handle_bo_map.contains_key(&2));
    assert_eq!(destroy(&mut dev, 2, true, true), (true, vec!["unmap", "unlock", "free"]));
    assert!(!dev.handle_bo_map.contains_key(&2));
    assert_eq!(dev.vc4_lookup_bo(2), None);
    assert!(dev.handle_bo_map.contains_key(&1) && dev.handle_bo_map.contains_key(&3));
}

#[test]
fn create_bo_ioctl() {
    let fb = drm_vc4_create_bo { size: 100, handle: 0, flags: 1 };
    assert_eq!(GpuDevice::vc4_create_bo_type(&fb), VC4_BO_TYPE_FB);
    let mut args = drm_vc4_create_bo { size: 100, handle: 0, flags: 0 };
    assert_eq!(GpuDevice::vc4_create_bo_type(&args), VC4_BO_TYPE_V3D);
    let bo = gpu_bo { size: 4096, handle: 9, paddr: 0, vaddr: 0, bo_type: VC4_BO_TYPE_V3D };
    assert_eq!(GpuDevice::vc4_create_bo_ioctl(&mut args, Some(bo)), Ok(()));
    assert_eq!((args.size, args.handle, args.flags), (4096, 9, 0));
    let mut args2 = drm_vc4_create_bo { size: 100, handle: 0, flags: 0 };
    assert_eq!(GpuDevice::vc4_create_bo_ioctl(&mut args2, None), Err(Vc4Error::IOCTLError));
    assert_eq!((args2.size, args2.handle), (100, 0));
}

#[test]
fn ioctl_dispatch() {
    let dev = GpuDevice::empty();
    assert_eq!(dev.io_control(0x00), Ok(Vc4Ioctl::SubmitCl));
    assert_eq!(dev.io_control(0x03), Ok(Vc4Ioctl::CreateBo));
    assert_eq!(dev.io_control(0x04), Ok(Vc4Ioctl::MmapBo));
    assert_eq!(dev.io_control(0x0b), Ok(Vc4Ioctl::FreeBo));
    assert_eq!(dev.io_control(0x01), Err(Vc4Error::NotSupported));
    assert_eq!(dev.io_control(0x100), Err(Vc4Error::NotSupported));
}

#[test]
fn gpu_bring_up_steps() {
    assert!(v3d_powered_up(0x02443356));
    assert!(!v3d_powered_up(0));
    assert_eq!(V3D_IDENT0_POWERED, 0x02443356);
    let s = GpuDevice::init_first_step();
    assert_eq!(s, GpuInitStep::Enable);
    assert_eq!(GpuDevice::init_next_step(s, GpuInitEvent::Enabled { ok: false }), GpuInitStep::Failed);
    let s = GpuDevice::init_next_step(s, GpuInitEvent::Enabled { ok: true });
    assert_eq!(s, GpuInitStep::ReadIdent);
    assert_eq!(GpuDevice::init_next_step(s, GpuInitEvent::Ident { ident0: 1 }), GpuInitStep::Failed);
    let s = GpuDevice::init_next_step(s, GpuInitEvent::Ident { ident0: 0x02443356 });
    assert_eq!(s, GpuInitStep::CheckFramebuffer);
    assert_eq!(GpuDevice::init_next_step(s, GpuInitEvent::Framebuffer { bound: false }), GpuInitStep::Failed);
    let s = GpuDevice::init_next_step(s, GpuInitEvent::Framebuffer { bound: true });
    assert_eq!(s, GpuInitStep::CreateBinBo { size: 512 * 1024, bo_type: VC4_BO_TYPE_BIN });
    assert_eq!(BIN_BO_SIZE, 512 * 1024);
    // an event that does not answer the step changes nothing
    assert_eq!(GpuDevice::init_next_step(GpuInitStep::Enable, GpuInitEvent::Ident { ident0: 0x02443356 }), GpuInitStep::Enable);
}

#[test]
fn device_needs_its_binner_bo() {
    let mut dev = GpuDevice::empty();
    let bin = create(&mut dev, BIN_BO_SIZE, VC4_BO_TYPE_BIN, 1, 0x10_0000);
    let d = dev.with_bin_bo(bin).unwrap();
    assert_eq!(d.bin_bo, bin);
    assert_eq!(d.handle_bo_map.len(), 1);
    assert!(GpuDevice::empty().with_bin_bo(None).is_none());
}
