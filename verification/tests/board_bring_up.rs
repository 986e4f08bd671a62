use vc4::boot::{
    bus_to_phys, color_depth, probe_fb_info, probe_fb_next, probe_memory, init_driver, Atag,
    ColorDepth, ColorFormat, DriverInit, FbAllocInfo, FbError, FbProbeEvent, FbProbeStep,
    FramebufferInfo,
};

fn report(xres: u32, depth: u32, pitch: u32) -> FbAllocInfo {
    FbAllocInfo {
        xres,
        yres: 1080,
        xres_virtual: xres,
        yres_virtual: 1080,
        pitch,
        depth,
        xoffset: 0,
        yoffset: 0,
        bus_addr: 0xfe00_0000,
        screen_size: pitch * 1080,
    }
}

#[test]
fn bus_addresses_lose_their_alias_bits() {
    assert_eq!(bus_to_phys(0xc000_1000), 0x1000);
    assert_eq!(bus_to_phys(0x3e00_0000), 0x3e00_0000);
    assert_eq!(bus_to_phys(0xfe00_0000), 0x3e00_0000);
}

#[test]
fn color_depths() {
    assert_eq!(color_depth(8), Some(ColorDepth::ColorDepth8));
    assert_eq!(color_depth(24), Some(ColorDepth::ColorDepth24));
    assert_eq!(color_depth(12), None);
}

#[test]
fn first_step_asks_for_what_is_missing() {
    assert!(matches!(probe_fb_info(0, 0, 0), FbProbeStep::GetPhysicalSize { depth: 0 }));
    assert!(matches!(probe_fb_info(1920, 0, 32), FbProbeStep::GetPhysicalSize { depth: 32 }));
    assert!(matches!(probe_fb_info(1920, 1080, 0), FbProbeStep::GetDepth { width: 1920, height: 1080 }));
    assert!(matches!(probe_fb_info(1920, 1080, 32), FbProbeStep::Alloc { width: 1920, height: 1080, depth: 32 }));
}

#[test]
fn size_and_depth_steps() {
    let s = probe_fb_next(FbProbeStep::GetPhysicalSize { depth: 0 }, FbProbeEvent::PhysicalSize { size: Some((1920, 1080)) });
    assert!(matches!(s, FbProbeStep::GetDepth { width: 1920, height: 1080 }));
    let s = probe_fb_next(FbProbeStep::GetPhysicalSize { depth: 16 }, FbProbeEvent::PhysicalSize { size: Some((640, 480)) });
    assert!(matches!(s, FbProbeStep::Alloc { width: 640, height: 480, depth: 16 }));
    let s = probe_fb_next(FbProbeStep::GetPhysicalSize { depth: 0 }, FbProbeEvent::PhysicalSize { size: None });
    assert!(matches!(s, FbProbeStep::Done { result: Err(FbError::Mailbox) }));
    let s = probe_fb_next(FbProbeStep::GetDepth { width: 1, height: 2 }, FbProbeEvent::Depth { depth: Some(32) });
    assert!(matches!(s, FbProbeStep::Alloc { width: 1, height: 2, depth: 32 }));
}

#[test]
fn allocation_report_is_checked() {
    let alloc = FbProbeStep::Alloc { width: 1920, height: 1080, depth: 32 };
    let mut bad = report(1920, 32, 7680);
    bad.bus_addr = 0;
    assert!(matches!(probe_fb_next(alloc, FbProbeEvent::Allocated { info: Some(bad) }), FbProbeStep::Done { result: Err(FbError::InvalidAddressSize) }));
    let mut empty = report(1920, 32, 7680);
    empty.screen_size = 0;
    assert!(matches!(probe_fb_next(alloc, FbProbeEvent::Allocated { info: Some(empty) }), FbProbeStep::Done { result: Err(FbError::InvalidAddressSize) }));
    let wrong = report(1920, 32, 7000);
    assert!(matches!(probe_fb_next(alloc, FbProbeEvent::Allocated { info: Some(wrong) }), FbProbeStep::Done { result: Err(FbError::InvalidPitch { pitch: 7000 }) }));
    let mut zero = report(1920, 32, 0);
    zero.screen_size = 8294400;
    assert!(matches!(probe_fb_next(alloc, FbProbeEvent::Allocated { info: Some(zero) }), FbProbeStep::Done { result: Err(FbError::InvalidPitch { pitch: 0 }) }));
    let good = report(1920, 32, 7680);
    match probe_fb_next(alloc, FbProbeEvent::Allocated { info: Some(good) }) {
        FbProbeStep::Remap { info, paddr } => {
            assert_eq!(info, good);
            assert_eq!(paddr, 0x3e00_0000);
        }
        s => panic!("unexpected step {:?}", s),
    }
    assert!(matches!(probe_fb_next(alloc, FbProbeEvent::Allocated { info: None }), FbProbeStep::Done { result: Err(FbError::Mailbox) }));
}

#[test]
fn remapped_framebuffer() {
    let good = report(1920, 32, 7680);
    let s = probe_fb_next(FbProbeStep::Remap { info: good, paddr: 0x3e00_0000 }, FbProbeEvent::Remapped { vaddr: 0 });
    assert!(matches!(s, FbProbeStep::Done { result: Err(FbError::RemapFailed { paddr: 0x3e00_0000, screen_size: 8294400 }) }));
    match probe_fb_next(FbProbeStep::Remap { info: good, paddr: 0x3e00_0000 }, FbProbeEvent::Remapped { vaddr: 0xffff_0000_3e00_0000 }) {
        FbProbeStep::Done { result: Ok(info) } => {
            assert_eq!(info, FramebufferInfo {
                xres: 1920,
                yres: 1080,
                xres_virtual: 1920,
                yres_virtual: 1080,
                xoffset: 0,
                yoffset: 0,
                depth: ColorDepth::ColorDepth32,
                format: ColorFormat::BGRA8888,
                paddr: 0x3e00_0000,
                vaddr: 0xffff_0000_3e00_0000,
                screen_size: 8294400,
            });
        }
        s => panic!("unexpected step {:?}", s),
    }
    let rgb = report(1920, 16, 3840);
    match probe_fb_next(FbProbeStep::Remap { info: rgb, paddr: 1 }, FbProbeEvent::Remapped { vaddr: 2 }) {
        FbProbeStep::Done { result: Ok(info) } => {
            assert_eq!(info.depth, ColorDepth::ColorDepth16);
            assert_eq!(info.format, ColorFormat::RGB565);
        }
        s => panic!("unexpected step {:?}", s),
    }
    let deep = report(1920, 24, 5760);
    assert!(matches!(probe_fb_next(FbProbeStep::Remap { info: deep, paddr: 1 }, FbProbeEvent::Remapped { vaddr: 2 }), FbProbeStep::Done { result: Err(FbError::UnsupportedDepth { depth: 24 }) }));
    let odd = report(1920, 12, 2880);
    assert!(matches!(probe_fb_next(FbProbeStep::Remap { info: odd, paddr: 1 }, FbProbeEvent::Remapped { vaddr: 2 }), FbProbeStep::Done { result: Err(FbError::UnsupportedDepth { depth: 12 }) }));
}

#[test]
fn event_not_answering_the_step_changes_nothing() {
    let s = probe_fb_next(FbProbeStep::GetDepth { width: 1, height: 2 }, FbProbeEvent::Remapped { vaddr: 5 });
    assert!(matches!(s, FbProbeStep::GetDepth { width: 1, height: 2 }));
}

#[test]
fn memory_comes_from_the_first_memory_tag() {
    let tags = vec![Atag::Other, Atag::Mem { size: 0x3b00_0000, start: 0 }, Atag::Mem { size: 5, start: 7 }];
    assert_eq!(probe_memory(&tags), Some((0, 0x3b00_0000)));
    let tags = vec![Atag::Mem { size: 0x100, start: 0x1000 }];
    assert_eq!(probe_memory(&tags), Some((0x1000, 0x1100)));
    assert_eq!(probe_memory(&vec![Atag::Other]), None);
    assert_eq!(probe_memory(&vec![]), None);
}

#[test]
fn drivers_start_in_order() {
    let info = FramebufferInfo {
        xres: 1, yres: 1, xres_virtual: 1, yres_virtual: 1, xoffset: 0, yoffset: 0,
        depth: ColorDepth::ColorDepth32, format: ColorFormat::BGRA8888, paddr: 1, vaddr: 2, screen_size: 4,
    };
    assert_eq!(init_driver(Ok(info)), vec![DriverInit::Framebuffer { info }, DriverInit::Videocore, DriverInit::Emmc]);
    assert_eq!(init_driver(Err(FbError::Mailbox)), vec![DriverInit::Videocore, DriverInit::Emmc]);
}

#[test]
fn serial_port_starts_first() {
    assert_eq!(vc4::boot::init_serial_early(), vec![DriverInit::Serial]);
}
