//! Bringing up the board: which drivers start and in what order, finding the board's memory,
//! and setting up the framebuffer, whose checks on what the firmware reports are steps between
//! which the caller talks to the firmware and the memory manager.
use vstd::prelude::*;

verus! {

/// Bits of a bus address that select the VideoCore's view of memory; the ARM's physical
/// address is the rest.
pub const BUS_ALIAS_BITS: u32 = 0xc000_0000;

/// The ARM physical address of bus address `bus_addr`.
pub open spec fn bus_to_phys_spec(bus_addr: u32) -> u32 {
    bus_addr & !BUS_ALIAS_BITS
}

/// Turns a VideoCore bus address into an ARM physical address by clearing its alias bits.
pub fn bus_to_phys(bus_addr: u32) -> (r: u32)
    ensures
        r == bus_to_phys_spec(bus_addr),
{
    bus_addr & !BUS_ALIAS_BITS
}

/// Bits per pixel of a framebuffer.
#[derive(Clone, Copy, Debug, PartialEq, Eq, Structural)]
pub enum ColorDepth {
    ColorDepth8,
    ColorDepth16,
    ColorDepth24,
    ColorDepth32,
}

/// How a pixel's bits hold its color.
#[derive(Clone, Copy, Debug, PartialEq, Eq, Structural)]
pub enum ColorFormat {
    RGB565,
    BGRA8888,
}

/// The color depth of `bits` bits per pixel, if it is one.
pub open spec fn color_depth_spec(bits: u32) -> Option<ColorDepth> {
    if bits == 8 {
        Some(ColorDepth::ColorDepth8)
    } else if bits == 16 {
        Some(ColorDepth::ColorDepth16)
    } else if bits == 24 {
        Some(ColorDepth::ColorDepth24)
    } else if bits == 32 {
        Some(ColorDepth::ColorDepth32)
    } else {
        None
    }
}

/// The color depth of `bits` bits per pixel: 8, 16, 24 or 32.
pub fn color_depth(bits: u32) -> (r: Option<ColorDepth>)
    ensures
        r == color_depth_spec(bits),
{
    if bits == 8 {
        Some(ColorDepth::ColorDepth8)
    } else if bits == 16 {
        Some(ColorDepth::ColorDepth16)
    } else if bits == 24 {
        Some(ColorDepth::ColorDepth24)
    } else if bits == 32 {
        Some(ColorDepth::ColorDepth32)
    } else {
        None
    }
}

/// What the firmware reports of the framebuffer it allocated.
#[derive(Clone, Copy, Debug, PartialEq, Eq, Structural)]
pub struct FbAllocInfo {
    pub xres: u32,
    pub yres: u32,
    pub xres_virtual: u32,
    pub yres_virtual: u32,
    pub pitch: u32,
    pub depth: u32,
    pub xoffset: u32,
    pub yoffset: u32,
    pub bus_addr: u32,
    pub screen_size: u32,
}

/// A framebuffer ready for use: its geometry, pixel layout, physical and kernel addresses and
/// size in bytes.
#[derive(Clone, Copy, Debug, PartialEq, Eq, Structural)]
pub struct FramebufferInfo {
    pub xres: u32,
    pub yres: u32,
    pub xres_virtual: u32,
    pub yres_virtual: u32,
    pub xoffset: u32,
    pub yoffset: u32,
    pub depth: ColorDepth,
    pub format: ColorFormat,
    pub paddr: usize,
    pub vaddr: usize,
    pub screen_size: usize,
}

/// Why setting up the framebuffer failed.
#[derive(Clone, Copy, Debug, PartialEq, Eq, Structural)]
pub enum FbError {
    /// A firmware mailbox call failed.
    Mailbox,
    /// The firmware reported address 0 or size 0.
    InvalidAddressSize,
    /// The firmware reported this pitch, which is 0 or not a row's bytes.
    InvalidPitch { pitch: u32 },
    /// The framebuffer could not be mapped.
    RemapFailed { paddr: u32, screen_size: u32 },
    /// The firmware reported this color depth, which has no pixel format here.
    UnsupportedDepth { depth: u32 },
}

/// The steps of setting up the framebuffer. Each names the firmware call or mapping to be done
/// next, with what it needs; `Done` ends the setup with its result.
#[derive(Clone, Copy, Debug)]
pub enum FbProbeStep {
    /// Ask the firmware for the physical width and height.
    GetPhysicalSize { depth: u32 },
    /// Ask the firmware for the color depth.
    GetDepth { width: u32, height: u32 },
    /// Ask the firmware for a framebuffer of this size and depth.
    Alloc { width: u32, height: u32, depth: u32 },
    /// Map `info.screen_size` bytes from physical address `paddr` into the kernel.
    Remap { info: FbAllocInfo, paddr: u32 },
    /// Setup is over.
    Done { result: Result<FramebufferInfo, FbError> },
}

/// What came back from the step that was asked for; `None` where the firmware call failed.
#[derive(Clone, Copy, Debug)]
pub enum FbProbeEvent {
    PhysicalSize { size: Option<(u32, u32)> },
    Depth { depth: Option<u32> },
    Allocated { info: Option<FbAllocInfo> },
    Remapped { vaddr: usize },
}

/// The step that asks for a depth of `depth` bits once the size is known.
pub open spec fn after_size(width: u32, height: u32, depth: u32) -> FbProbeStep {
    if depth == 0 {
        FbProbeStep::GetDepth { width, height }
    } else {
        FbProbeStep::Alloc { width, height, depth }
    }
}

/// The first step of setting up a `width` x `height` framebuffer of `depth` bits per pixel; a
/// 0 asks the firmware for the value.
pub open spec fn fb_probe_first(width: u32, height: u32, depth: u32) -> FbProbeStep {
    if width == 0 || height == 0 {
        FbProbeStep::GetPhysicalSize { depth }
    } else {
        after_size(width, height, depth)
    }
}

/// Whether the firmware's report is to be refused, and why.
pub open spec fn fb_alloc_check(info: FbAllocInfo) -> Option<FbError> {
    if info.bus_addr == 0 || info.screen_size == 0 {
        Some(FbError::InvalidAddressSize)
    } else if info.pitch == 0 || info.pitch != info.xres * info.depth / 8 {
        Some(FbError::InvalidPitch { pitch: info.pitch })
    } else {
        None
    }
}

/// The pixel format of `bits` bits per pixel: RGB565 for 16, BGRA8888 for 32.
pub open spec fn color_format_spec(bits: u32) -> Option<ColorFormat> {
    if bits == 16 {
        Some(ColorFormat::RGB565)
    } else if bits == 32 {
        Some(ColorFormat::BGRA8888)
    } else {
        None
    }
}

/// The framebuffer the firmware's report `info` describes, once it is mapped at `vaddr`.
pub open spec fn fb_remapped(info: FbAllocInfo, paddr: u32, vaddr: usize) -> Result<FramebufferInfo, FbError> {
    if vaddr == 0 {
        Err(FbError::RemapFailed { paddr, screen_size: info.screen_size })
    } else {
        match (color_depth_spec(info.depth), color_format_spec(info.depth)) {
            (Some(d), Some(f)) => Ok(
                FramebufferInfo {
                    xres: info.xres,
                    yres: info.yres,
                    xres_virtual: info.xres_virtual,
                    yres_virtual: info.yres_virtual,
                    xoffset: info.xoffset,
                    yoffset: info.yoffset,
                    depth: d,
                    format: f,
                    paddr: paddr as usize,
                    vaddr,
                    screen_size: info.screen_size as usize,
                },
            ),
            _ => Err(FbError::UnsupportedDepth { depth: info.depth }),
        }
    }
}

/// The step after `step`, once `ev` came back.
pub open spec fn fb_probe_next_spec(step: FbProbeStep, ev: FbProbeEvent) -> FbProbeStep {
    match (step, ev) {
        (FbProbeStep::GetPhysicalSize { depth }, FbProbeEvent::PhysicalSize { size }) => match size {
            Some((w, h)) => after_size(w, h, depth),
            None => FbProbeStep::Done { result: Err(FbError::Mailbox) },
        },
        (FbProbeStep::GetDepth { width, height }, FbProbeEvent::Depth { depth }) => match depth {
            Some(d) => FbProbeStep::Alloc { width, height, depth: d },
            None => FbProbeStep::Done { result: Err(FbError::Mailbox) },
        },
        (FbProbeStep::Alloc { .. }, FbProbeEvent::Allocated { info }) => match info {
            Some(i) => match fb_alloc_check(i) {
                Some(e) => FbProbeStep::Done { result: Err(e) },
                None => FbProbeStep::Remap { info: i, paddr: bus_to_phys_spec(i.bus_addr) },
            },
            None => FbProbeStep::Done { result: Err(FbError::Mailbox) },
        },
        (FbProbeStep::Remap { info, paddr }, FbProbeEvent::Remapped { vaddr }) => FbProbeStep::Done {
            result: fb_remapped(info, paddr, vaddr),
        },
        _ => step,
    }
}

/// The computation of the pitch check does not overflow: it is only made on a report with an
/// address, a size and a pitch.
pub open spec fn fb_event_fits(ev: FbProbeEvent) -> bool {
    match ev {
        FbProbeEvent::Allocated { info: Some(i) } => !(i.bus_addr == 0 || i.screen_size == 0)
            && i.pitch != 0 ==> i.xres * i.depth <= u32::MAX,
        _ => true,
    }
}

/// The first step of setting up the framebuffer: see `fb_probe_first`.
pub fn probe_fb_info(width: u32, height: u32, depth: u32) -> (r: FbProbeStep)
    ensures
        r == fb_probe_first(width, height, depth),
{
    if width == 0 || height == 0 {
        FbProbeStep::GetPhysicalSize { depth }
    } else if depth == 0 {
        FbProbeStep::GetDepth { width, height }
    } else {
        FbProbeStep::Alloc { width, height, depth }
    }
}

/// The step after `step`, once `ev` came back: see `fb_probe_next_spec`. An event that does not
/// answer `step` leaves it as it is.
pub fn probe_fb_next(step: FbProbeStep, ev: FbProbeEvent) -> (r: FbProbeStep)
    requires
        fb_event_fits(ev),
    ensures
        r == fb_probe_next_spec(step, ev),
{
    match (step, ev) {
        (FbProbeStep::GetPhysicalSize { depth }, FbProbeEvent::PhysicalSize { size }) => match size {
            Some((w, h)) => {
                if depth == 0 {
                    FbProbeStep::GetDepth { width: w, height: h }
                } else {
                    FbProbeStep::Alloc { width: w, height: h, depth }
                }
            },
            None => FbProbeStep::Done { result: Err(FbError::Mailbox) },
        },
        (FbProbeStep::GetDepth { width, height }, FbProbeEvent::Depth { depth }) => match depth {
            Some(d) => FbProbeStep::Alloc { width, height, depth: d },
            None => FbProbeStep::Done { result: Err(FbError::Mailbox) },
        },
        (FbProbeStep::Alloc { .. }, FbProbeEvent::Allocated { info }) => match info {
            Some(i) => {
                if i.bus_addr == 0 || i.screen_size == 0 {
                    FbProbeStep::Done { result: Err(FbError::InvalidAddressSize) }
                } else if i.pitch == 0 || i.pitch != i.xres * i.depth / 8 {
                    FbProbeStep::Done { result: Err(FbError::InvalidPitch { pitch: i.pitch }) }
                } else {
                    FbProbeStep::Remap { info: i, paddr: bus_to_phys(i.bus_addr) }
                }
            },
            None => FbProbeStep::Done { result: Err(FbError::Mailbox) },
        },
        (FbProbeStep::Remap { info, paddr }, FbProbeEvent::Remapped { vaddr }) => {
            if vaddr == 0 {
                return FbProbeStep::Done {
                    result: Err(FbError::RemapFailed { paddr, screen_size: info.screen_size }),
                };
            }
            let depth = match color_depth(info.depth) {
                Some(d) => d,
                None => {
                    return FbProbeStep::Done {
                        result: Err(FbError::UnsupportedDepth { depth: info.depth }),
                    };
                },
            };
            let format = if info.depth == 16 {
                ColorFormat::RGB565
            } else if info.depth == 32 {
                ColorFormat::BGRA8888
            } else {
                return FbProbeStep::Done {
                    result: Err(FbError::UnsupportedDepth { depth: info.depth }),
                };
            };
            FbProbeStep::Done {
                result: Ok(
                    FramebufferInfo {
                        xres: info.xres,
                        yres: info.yres,
                        xres_virtual: info.xres_virtual,
                        yres_virtual: info.yres_virtual,
                        xoffset: info.xoffset,
                        yoffset: info.yoffset,
                        depth,
                        format,
                        paddr: paddr as usize,
                        vaddr,
                        screen_size: info.screen_size as usize,
                    },
                ),
            }
        },
        _ => step,
    }
}

/// A tag of the boot information the firmware hands the kernel: a memory region, or anything
/// else.
#[derive(Clone, Copy, Debug, PartialEq, Eq, Structural)]
pub enum Atag {
    Mem { size: u32, start: u32 },
    Other,
}

/// The first memory tag among `atags[i..]`, as its start and size.
pub open spec fn first_mem_from(atags: Seq<Atag>, i: int) -> Option<(u32, u32)>
    decreases atags.len() - i,
{
    if i >= atags.len() || i < 0 {
        None
    } else {
        match atags[i] {
            Atag::Mem { size, start } => Some((start, size)),
            Atag::Other => first_mem_from(atags, i + 1),
        }
    }
}

/// The physical memory of the board, from the first memory tag: its start and end address;
/// `None` when there is no memory tag.
pub fn probe_memory(atags: &Vec<Atag>) -> (r: Option<(usize, usize)>)
    requires
        first_mem_from(atags@, 0) matches Some((start, size)) ==> start + size <= u32::MAX,
    ensures
        match first_mem_from(atags@, 0) {
            Some((start, size)) => r == Some((start as usize, (start + size) as usize)),
            None => r is None,
        },
{
    let mut i: usize = 0;
    while i < atags.len()
        invariant
            i <= atags@.len(),
            first_mem_from(atags@, 0) == first_mem_from(atags@, i as int),
            first_mem_from(atags@, 0) matches Some((start, size)) ==> start + size <= u32::MAX,
        decreases atags@.len() - i,
    {
        match atags[i] {
            Atag::Mem { size, start } => {
                return Some((start as usize, (start + size) as usize));
            },
            Atag::Other => {},
        }
        i = i + 1;
    }
    None
}

/// What starting the board's drivers does, in order.
#[derive(Clone, Copy, Debug, PartialEq, Eq, Structural)]
pub enum DriverInit {
    /// Start the serial port.
    Serial,
    /// Start the framebuffer with this setup.
    Framebuffer { info: FramebufferInfo },
    /// Start the VideoCore GPU.
    Videocore,
    /// Start the SD card controller.
    Emmc,
}

/// The driver to start before all others: the serial port.
pub fn init_serial_early() -> (r: Vec<DriverInit>)
    ensures
        r@ == seq![DriverInit::Serial],
{
    let mut r: Vec<DriverInit> = Vec::new();
    r.push(DriverInit::Serial);
    assert(r@ =~= seq![DriverInit::Serial]);
    r
}

/// The drivers to start once setting up the framebuffer gave `fb`: the framebuffer if its
/// setup succeeded, then the GPU and the SD card controller.
pub fn init_driver(fb: Result<FramebufferInfo, FbError>) -> (r: Vec<DriverInit>)
    ensures
        r@ == (match fb {
            Ok(info) => seq![DriverInit::Framebuffer { info }, DriverInit::Videocore, DriverInit::Emmc],
            Err(_) => seq![DriverInit::Videocore, DriverInit::Emmc],
        }),
{
    let mut r: Vec<DriverInit> = Vec::new();
    match fb {
        Ok(info) => {
            r.push(DriverInit::Framebuffer { info });
        },
        Err(_) => {},
    }
    r.push(DriverInit::Videocore);
    r.push(DriverInit::Emmc);
    proof {
        match fb {
            Ok(info) => {
                assert(r@ =~= seq![DriverInit::Framebuffer { info }, DriverInit::Videocore, DriverInit::Emmc]);
            },
            Err(_) => {
                assert(r@ =~= seq![DriverInit::Videocore, DriverInit::Emmc]);
            },
        }
    }
    r
}

} // verus!
