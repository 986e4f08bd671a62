//! The GPU device: its buffer objects, kept by handle, and the ioctls that create, free and map
//! them.
//!
//! Creating or destroying a buffer object talks to the firmware mailbox and the kernel's memory
//! manager. The device decides each step; the caller performs it and reports what came back.
use vstd::prelude::*;
use std::collections::BTreeMap;
use crate::boot::{bus_to_phys, bus_to_phys_spec};
use crate::drm::{
    drm_vc4_create_bo, drm_vc4_free_bo, drm_vc4_mmap_bo, DRM_IOCTL_VC4_SUBMIT_CL,
    DRM_IOCTL_VC4_CREATE_BO, DRM_IOCTL_VC4_MMAP_BO, DRM_IOCTL_VC4_FREE_BO,
    VC4_CREATE_BO_IS_FRAMEBUFFER,
};

verus! {

/// The page size of the kernel's memory manager.
pub const PAGE_SIZE: usize = 4096;

pub const VC4_BO_TYPE_FB: u32 = 0;

pub const VC4_BO_TYPE_V3D: u32 = 1;

pub const VC4_BO_TYPE_BIN: u32 = 2;

pub const VC4_BO_TYPE_RCL: u32 = 3;

pub const VC4_BO_TYPE_BCL: u32 = 4;

/// The errors that the driver's operations report.
#[derive(Clone, Copy, Debug, PartialEq, Eq, Structural)]
pub enum Vc4Error {
    NotSupported,
    InvalidParam,
    IOCTLError,
    EntryNotFound,
}

/// A buffer object of GPU memory: its size, its handle, its physical (bus-visible) address,
/// the kernel address it is mapped at and its type.
#[derive(Clone, Copy, Debug, PartialEq, Eq, Structural)]
pub struct gpu_bo {
    pub size: usize,
    pub handle: u32,
    pub paddr: u32,
    pub vaddr: usize,
    pub bo_type: u32,
}

/// The GPU: the framebuffer's buffer object, the buffer object the binner allocates tile
/// memory from, the size of those allocations, and every buffer object by handle.
pub struct GpuDevice {
    /// The buffer object of the framebuffer, handed out to every framebuffer request.
    pub fb_bo: Option<gpu_bo>,
    pub bin_bo: Option<gpu_bo>,
    /// Size of blocks allocated within `bin_bo`.
    pub bin_alloc_size: u32,
    pub handle_bo_map: BTreeMap<u32, gpu_bo>,
}

/// `x` reduced modulo 2^32, as 32-bit unsigned arithmetic wraps.
pub open spec fn wrap32(x: int) -> u32 {
    (x % 0x1_0000_0000) as u32
}

/// `a` rounded down to a multiple of `n`.
pub open spec fn round_down_spec(a: u32, n: u32) -> u32 {
    (a - a % n) as u32
}

/// `a` rounded up to a multiple of `n`, where `a + n - 1` is taken modulo 2^32.
pub open spec fn round_up_spec(a: u32, n: u32) -> u32 {
    round_down_spec(wrap32(a + n - 1), n)
}

/// Rounds `a` down to a multiple of `n`.
pub fn roundDown(a: u32, n: u32) -> (r: u32)
    requires
        n > 0,
    ensures
        r == round_down_spec(a, n),
{
    assert(a % n <= a) by (nonlinear_arith)
        requires
            n > 0,
    ;
    a - a % n
}

/// Rounds `a` up to a multiple of `n`; the sum `a + n - 1` wraps around at 2^32.
pub fn roundUp(a: u32, n: u32) -> (r: u32)
    requires
        n > 0,
    ensures
        r == round_up_spec(a, n),
{
    let t = a.wrapping_add(n - 1);
    assert(t == wrap32(a + n - 1));
    roundDown(t, n)
}

/// Rounding up gives the least multiple of `n` that is at least `a`, when `a + n - 1` fits.
pub proof fn lemma_round_up(a: u32, n: u32)
    requires
        n > 0,
        a + n - 1 <= u32::MAX,
    ensures
        round_up_spec(a, n) % n == 0,
        a <= round_up_spec(a, n),
        round_up_spec(a, n) < a + n,
{
    let t = (a + n - 1) as int;
    assert(wrap32(a + n - 1) == t);
    assert(t % (n as int) < n);
    vstd::arithmetic::div_mod::lemma_fundamental_div_mod(t, n as int);
    vstd::arithmetic::div_mod::lemma_mod_multiples_basic(t / (n as int), n as int);
    assert((t - t % (n as int)) == (n as int) * (t / (n as int)));
    assert((n as int) * (t / (n as int)) == (t / (n as int)) * (n as int)) by (nonlinear_arith);
}

/// The steps of creating a buffer object. Each names what is to be done next, with what it
/// needs; `Done` ends the creation with its result.
#[derive(Clone, Copy, Debug, PartialEq, Eq, Structural)]
pub enum BoCreateStep {
    /// Allocate `size` bytes of coherent, zeroed GPU memory, aligned to `PAGE_SIZE`, through
    /// the firmware mailbox.
    Alloc { size: u32 },
    /// Lock the allocation `handle` through the mailbox to learn its bus address.
    Lock { handle: u32, size: u32 },
    /// Free the allocation `handle` through the mailbox: it could not be locked.
    Free { handle: u32 },
    /// Map `size` bytes from physical address `paddr` (that of the locked bus address) into
    /// the kernel's address space.
    MapMemory { handle: u32, paddr: u32, size: u32 },
    /// Creation is over.
    Done { bo: Option<gpu_bo> },
}

/// What came back from the step that was asked for.
#[derive(Clone, Copy, Debug, PartialEq, Eq, Structural)]
pub enum BoCreateEvent {
    /// The allocation's handle, or `None` if the mailbox refused.
    Allocated { handle: Option<u32> },
    /// The bus address, or `None` if the mailbox could not lock the allocation.
    Locked { bus_addr: Option<u32> },
    /// The allocation was given back (whether the mailbox succeeded does not matter).
    Freed,
    /// The kernel address of the mapping.
    Mapped { vaddr: usize },
}

/// The step after `step`, once `ev` came back, for a buffer object of type `bo_type`.
pub open spec fn bo_create_next(step: BoCreateStep, ev: BoCreateEvent, bo_type: u32) -> BoCreateStep {
    match (step, ev) {
        (BoCreateStep::Alloc { size }, BoCreateEvent::Allocated { handle }) => match handle {
            Some(h) => BoCreateStep::Lock { handle: h, size },
            None => BoCreateStep::Done { bo: None },
        },
        (BoCreateStep::Lock { handle, size }, BoCreateEvent::Locked { bus_addr }) => match bus_addr {
            Some(b) => BoCreateStep::MapMemory { handle, paddr: bus_to_phys_spec(b), size },
            None => BoCreateStep::Free { handle },
        },
        (BoCreateStep::MapMemory { handle, paddr, size }, BoCreateEvent::Mapped { vaddr }) =>
            BoCreateStep::Done {
            bo: Some(
                gpu_bo { size: size as usize, handle, paddr, vaddr, bo_type },
            ),
        },
        _ => BoCreateStep::Done { bo: None },
    }
}

/// The buffer object that destroying `handle` releases from the map `m`: none for an unknown
/// handle or a framebuffer.
pub open spec fn bo_to_release(m: Map<u32, gpu_bo>, handle: u32) -> Option<gpu_bo> {
    if !m.contains_key(handle) {
        None
    } else if m[handle].bo_type == VC4_BO_TYPE_FB {
        None
    } else {
        Some(m[handle])
    }
}

/// A buffer object that creation recorded under its handle is the one destroying that handle
/// unmaps and releases, unless it is a framebuffer; once it is released and forgotten,
/// destroying the handle again does nothing. A recorded non-empty buffer object is also the one
/// lookup finds under its handle.
pub proof fn lemma_create_then_destroy(m: Map<u32, gpu_bo>, b: gpu_bo)
    ensures
        bo_destroy_first(m.insert(b.handle, b), b.handle) == (if b.bo_type == VC4_BO_TYPE_FB {
            BoDestroyStep::Done { released: false }
        } else {
            BoDestroyStep::Unmap { handle: b.handle, vaddr: b.vaddr, size: b.size }
        }),
        bo_destroy_first(m.insert(b.handle, b).remove(b.handle), b.handle) == (BoDestroyStep::Done {
            released: false,
        }),
        b.size != 0 ==> lookup_spec(m.insert(b.handle, b), b.handle) == Some(b),
        lookup_spec(m.insert(b.handle, b).remove(b.handle), b.handle) is None,
{
}

/// The live buffer object under `handle` in the map `m`: the entry, when it records that
/// handle and a non-empty buffer.
pub open spec fn lookup_spec(m: Map<u32, gpu_bo>, handle: u32) -> Option<gpu_bo> {
    if m.contains_key(handle) && m[handle].handle == handle && m[handle].size != 0 {
        Some(m[handle])
    } else {
        None
    }
}

/// The steps of destroying a buffer object; each names what is to be done next.
#[derive(Clone, Copy, Debug, PartialEq, Eq, Structural)]
pub enum BoDestroyStep {
    /// Unmap the `size` bytes mapped at `vaddr` from the kernel's address space.
    Unmap { handle: u32, vaddr: usize, size: usize },
    /// Unlock the allocation `handle` through the firmware mailbox.
    Unlock { handle: u32 },
    /// Free the allocation `handle` through the firmware mailbox.
    Free { handle: u32 },
    /// Destroying is over; `released` tells whether the buffer object was forgotten.
    Done { released: bool },
}

/// What came back from the step that was asked for.
#[derive(Clone, Copy, Debug, PartialEq, Eq, Structural)]
pub enum BoDestroyEvent {
    Unmapped,
    Unlocked { ok: bool },
    Freed { ok: bool },
}

/// The first step of destroying `handle` in the map `m`: unmap the buffer object to release, or
/// nothing to do.
pub open spec fn bo_destroy_first(m: Map<u32, gpu_bo>, handle: u32) -> BoDestroyStep {
    match bo_to_release(m, handle) {
        Some(b) => BoDestroyStep::Unmap { handle, vaddr: b.vaddr, size: b.size },
        None => BoDestroyStep::Done { released: false },
    }
}

/// The step of destroying after `step`, once `ev` came back: unmap, then unlock, then free
/// only after the unlock succeeded; released exactly when both succeeded. An event that does
/// not answer `step` leaves it as it is.
pub open spec fn bo_destroy_next(step: BoDestroyStep, ev: BoDestroyEvent) -> BoDestroyStep {
    match (step, ev) {
        (BoDestroyStep::Unmap { handle, .. }, BoDestroyEvent::Unmapped) => BoDestroyStep::Unlock { handle },
        (BoDestroyStep::Unlock { handle }, BoDestroyEvent::Unlocked { ok }) => if ok {
            BoDestroyStep::Free { handle }
        } else {
            BoDestroyStep::Done { released: false }
        },
        (BoDestroyStep::Free { handle }, BoDestroyEvent::Freed { ok }) => BoDestroyStep::Done {
            released: ok,
        },
        _ => step,
    }
}

/// The ioctls that the device serves.
#[derive(Clone, Copy, Debug, PartialEq, Eq, Structural)]
pub enum Vc4Ioctl {
    SubmitCl,
    CreateBo,
    MmapBo,
    FreeBo,
}

/// The ioctl with number `cmd`, if the device serves it.
pub open spec fn ioctl_of(cmd: u32) -> Option<Vc4Ioctl> {
    if cmd as usize == DRM_IOCTL_VC4_SUBMIT_CL {
        Some(Vc4Ioctl::SubmitCl)
    } else if cmd as usize == DRM_IOCTL_VC4_CREATE_BO {
        Some(Vc4Ioctl::CreateBo)
    } else if cmd as usize == DRM_IOCTL_VC4_MMAP_BO {
        Some(Vc4Ioctl::MmapBo)
    } else if cmd as usize == DRM_IOCTL_VC4_FREE_BO {
        Some(Vc4Ioctl::FreeBo)
    } else {
        None
    }
}

impl GpuDevice {
    /// A device with no buffer objects, no framebuffer and no binner memory.
    pub fn empty() -> (r: GpuDevice)
        ensures
            r.fb_bo is None,
            r.bin_bo is None,
            r.bin_alloc_size == 0,
            r.handle_bo_map@ == Map::<u32, gpu_bo>::empty(),
    {
        GpuDevice { fb_bo: None, bin_bo: None, bin_alloc_size: 0, handle_bo_map: BTreeMap::new() }
    }

    /// Completes the device once its binner buffer object is created: with one it becomes the
    /// device's `bin_bo`; without one there is no device.
    pub fn with_bin_bo(self, bin_bo: Option<gpu_bo>) -> (r: Option<GpuDevice>)
        ensures
            match bin_bo {
                Some(b) => r matches Some(d) && d.bin_bo == Some(b) && d.fb_bo == self.fb_bo && d.bin_alloc_size
                    == self.bin_alloc_size && d.handle_bo_map@ == self.handle_bo_map@,
                None => r is None,
            },
    {
        match bin_bo {
            Some(b) => {
                let mut d = self;
                d.bin_bo = Some(b);
                Some(d)
            },
            None => None,
        }
    }

    /// The live buffer object under `handle`: see `lookup_spec`.
    pub fn vc4_lookup_bo(&self, handle: u32) -> (r: Option<gpu_bo>)
        ensures
            r == lookup_spec(self.handle_bo_map@, handle),
    {
        broadcast use vstd::std_specs::btree::group_btree_axioms;
        match self.handle_bo_map.get(&handle) {
            Some(bo) => {
                if bo.handle != handle || bo.size == 0 {
                    return None;
                } else {
                    return Some(*bo);
                }
            },
            None => {},
        }
        None
    }

    /// The first step of creating a buffer object of `size` bytes and type `bo_type`: a
    /// framebuffer request is answered with the device's framebuffer object (or nothing) and
    /// allocates nothing; otherwise nothing for an empty one, else an allocation of `size`
    /// rounded up to whole pages.
    pub fn vc4_bo_create(&self, size: u32, bo_type: u32) -> (r: BoCreateStep)
        ensures
            bo_type == VC4_BO_TYPE_FB ==> r == (BoCreateStep::Done { bo: self.fb_bo }),
            bo_type != VC4_BO_TYPE_FB && size == 0 ==> r == (BoCreateStep::Done { bo: None }),
            bo_type != VC4_BO_TYPE_FB && size != 0 ==> r == (BoCreateStep::Alloc {
                size: round_up_spec(size, PAGE_SIZE as u32),
            }),
    {
        if bo_type == VC4_BO_TYPE_FB {
            return BoCreateStep::Done { bo: self.fb_bo };
        }
        if size == 0 {
            return BoCreateStep::Done { bo: None };
        }
        let size = roundUp(size, PAGE_SIZE as u32);
        BoCreateStep::Alloc { size }
    }

    /// The next step of creating a buffer object of type `bo_type`, once `ev` came back from
    /// `step`. When the memory is mapped, the new buffer object is recorded under its handle,
    /// replacing any entry the handle had.
    pub fn vc4_bo_create_step(&mut self, step: BoCreateStep, ev: BoCreateEvent, bo_type: u32) -> (r:
        BoCreateStep)
        ensures
            r == bo_create_next(step, ev, bo_type),
            final(self).fb_bo == old(self).fb_bo,
            final(self).bin_bo == old(self).bin_bo,
            final(self).bin_alloc_size == old(self).bin_alloc_size,
            match r {
                BoCreateStep::Done { bo: Some(b) } => final(self).handle_bo_map@ == old(
                    self,
                ).handle_bo_map@.insert(b.handle, b),
                _ => final(self).handle_bo_map@ == old(self).handle_bo_map@,
            },
    {
        broadcast use vstd::std_specs::btree::group_btree_axioms;
        match (step, ev) {
            (BoCreateStep::Alloc { size }, BoCreateEvent::Allocated { handle }) => match handle {
                Some(h) => BoCreateStep::Lock { handle: h, size },
                None => BoCreateStep::Done { bo: None },
            },
            (BoCreateStep::Lock { handle, size }, BoCreateEvent::Locked { bus_addr }) => match bus_addr {
                Some(b) => BoCreateStep::MapMemory { handle, paddr: bus_to_phys(b), size },
                None => BoCreateStep::Free { handle },
            },
            (BoCreateStep::MapMemory { handle, paddr, size }, BoCreateEvent::Mapped { vaddr }) => {
                let bo = gpu_bo { size: size as usize, handle, paddr, vaddr, bo_type };
                self.handle_bo_map.insert(handle, bo);
                match self.handle_bo_map.get(&handle) {
                    Some(b) => BoCreateStep::Done { bo: Some(*b) },
                    None => BoCreateStep::Done { bo: None },
                }
            },
            _ => BoCreateStep::Done { bo: None },
        }
    }

    /// The first step of destroying the buffer object `handle`: unmapping it, if there is one
    /// to release (see `bo_to_release`); otherwise destroying is over and nothing changes.
    pub fn vc4_bo_destroy(&self, handle: u32) -> (r: BoDestroyStep)
        ensures
            r == bo_destroy_first(self.handle_bo_map@, handle),
    {
        broadcast use vstd::std_specs::btree::group_btree_axioms;
        match self.handle_bo_map.get(&handle) {
            Some(bo) => {
                if bo.bo_type == VC4_BO_TYPE_FB {
                    BoDestroyStep::Done { released: false }
                } else {
                    BoDestroyStep::Unmap { handle, vaddr: bo.vaddr, size: bo.size }
                }
            },
            None => BoDestroyStep::Done { released: false },
        }
    }

    /// The next step of destroying a buffer object, once `ev` came back from `step`: see
    /// `bo_destroy_next`. The buffer object is forgotten exactly when both unlocking and freeing
    /// its memory succeeded; nothing else changes.
    pub fn vc4_bo_destroy_step(&mut self, step: BoDestroyStep, ev: BoDestroyEvent) -> (r: BoDestroyStep)
        ensures
            r == bo_destroy_next(step, ev),
            final(self).fb_bo == old(self).fb_bo,
            final(self).bin_bo == old(self).bin_bo,
            final(self).bin_alloc_size == old(self).bin_alloc_size,
            match (step, ev) {
                (BoDestroyStep::Free { handle }, BoDestroyEvent::Freed { ok }) => if ok {
                    final(self).handle_bo_map@ == old(self).handle_bo_map@.remove(handle)
                } else {
                    final(self).handle_bo_map@ == old(self).handle_bo_map@
                },
                _ => final(self).handle_bo_map@ == old(self).handle_bo_map@,
            },
    {
        broadcast use vstd::std_specs::btree::group_btree_axioms;
        match (step, ev) {
            (BoDestroyStep::Unmap { handle, .. }, BoDestroyEvent::Unmapped) => BoDestroyStep::Unlock { handle },
            (BoDestroyStep::Unlock { handle }, BoDestroyEvent::Unlocked { ok }) => {
                if ok {
                    BoDestroyStep::Free { handle }
                } else {
                    BoDestroyStep::Done { released: false }
                }
            },
            (BoDestroyStep::Free { handle }, BoDestroyEvent::Freed { ok }) => {
                if ok {
                    self.handle_bo_map.remove(&handle);
                    BoDestroyStep::Done { released: true }
                } else {
                    BoDestroyStep::Done { released: false }
                }
            },
            _ => step,
        }
    }

    /// The type of buffer object that the create-BO ioctl asks for.
    pub fn vc4_create_bo_type(args: &drm_vc4_create_bo) -> (r: u32)
        ensures
            r == (if args.flags & VC4_CREATE_BO_IS_FRAMEBUFFER != 0 {
                VC4_BO_TYPE_FB
            } else {
                VC4_BO_TYPE_V3D
            }),
    {
        if (args.flags & VC4_CREATE_BO_IS_FRAMEBUFFER) != 0 {
            VC4_BO_TYPE_FB
        } else {
            VC4_BO_TYPE_V3D
        }
    }

    /// Ends the create-BO ioctl with the buffer object that was created for it: its size and
    /// handle are handed back in `args`; without one the ioctl fails.
    pub fn vc4_create_bo_ioctl(args: &mut drm_vc4_create_bo, bo: Option<gpu_bo>) -> (r: Result<
        (),
        Vc4Error,
    >)
        ensures
            match bo {
                Some(b) => r is Ok && *final(args) == (drm_vc4_create_bo {
                    size: b.size as u32,
                    handle: b.handle,
                    flags: old(args).flags,
                }),
                None => r == Err::<(), Vc4Error>(Vc4Error::IOCTLError) && *final(args) == *old(args),
            },
    {
        match bo {
            Some(b) => {
                args.size = b.size as u32;
                args.handle = b.handle;
                Ok(())
            },
            None => Err(Vc4Error::IOCTLError),
        }
    }

    /// The free-BO ioctl: the handle whose buffer object is then to be destroyed (see
    /// `vc4_bo_destroy`). A handle is accepted when `vc4_lookup_bo` finds a live buffer object
    /// under it; otherwise the ioctl fails with `InvalidParam`.
    pub fn vc4_free_bo_ioctl(&self, args: &drm_vc4_free_bo) -> (r: Result<u32, Vc4Error>)
        ensures
            r == (if lookup_spec(self.handle_bo_map@, args.handle) is Some {
                Ok::<u32, Vc4Error>(args.handle)
            } else {
                Err::<u32, Vc4Error>(Vc4Error::InvalidParam)
            }),
    {
        match self.vc4_lookup_bo(args.handle) {
            Some(_) => Ok(args.handle),
            None => Err(Vc4Error::InvalidParam),
        }
    }

    /// The mmap-BO ioctl: the buffer object that is then to be mapped into the calling
    /// process, the live one `vc4_lookup_bo` finds under the handle; without one the ioctl
    /// fails with `InvalidParam`.
    pub fn vc4_mmap_bo_ioctl(&self, args: &drm_vc4_mmap_bo) -> (r: Result<gpu_bo, Vc4Error>)
        ensures
            r == (match lookup_spec(self.handle_bo_map@, args.handle) {
                Some(b) => Ok::<gpu_bo, Vc4Error>(b),
                None => Err::<gpu_bo, Vc4Error>(Vc4Error::InvalidParam),
            }),
    {
        match self.vc4_lookup_bo(args.handle) {
            Some(bo) => Ok(bo),
            None => Err(Vc4Error::InvalidParam),
        }
    }

    /// Which ioctl the command number `cmd` asks for; the others are not supported.
    pub fn io_control(&self, cmd: u32) -> (r: Result<Vc4Ioctl, Vc4Error>)
        ensures
            match ioctl_of(cmd) {
                Some(i) => r == Ok::<Vc4Ioctl, Vc4Error>(i),
                None => r == Err::<Vc4Ioctl, Vc4Error>(Vc4Error::NotSupported),
            },
    {
        let c = cmd as usize;
        if c == DRM_IOCTL_VC4_SUBMIT_CL {
            Ok(Vc4Ioctl::SubmitCl)
        } else if c == DRM_IOCTL_VC4_CREATE_BO {
            Ok(Vc4Ioctl::CreateBo)
        } else if c == DRM_IOCTL_VC4_MMAP_BO {
            Ok(Vc4Ioctl::MmapBo)
        } else if c == DRM_IOCTL_VC4_FREE_BO {
            Ok(Vc4Ioctl::FreeBo)
        } else {
            Err(Vc4Error::NotSupported)
        }
    }
}


/// What `V3D_IDENT0` reads once the V3D pipeline is powered up: "V3D" and version 2.
pub const V3D_IDENT0_POWERED: u32 = 0x02443356;

/// Size of the buffer object the binner allocates tile memory from.
pub const BIN_BO_SIZE: u32 = 512 * 1024;

/// Whether `ident0`, read from `V3D_IDENT0`, shows a powered-up V3D pipeline.
pub fn v3d_powered_up(ident0: u32) -> (r: bool)
    ensures
        r == (ident0 == V3D_IDENT0_POWERED),
{
    ident0 == V3D_IDENT0_POWERED
}

/// The steps of bringing up the GPU; each names what is to be done next.
#[derive(Clone, Copy, Debug, PartialEq, Eq, Structural)]
pub enum GpuInitStep {
    /// Enable the GPU through the firmware mailbox.
    Enable,
    /// Read `V3D_IDENT0`.
    ReadIdent,
    /// Check that a framebuffer is set up.
    CheckFramebuffer,
    /// Create the binner's buffer object (see `vc4_bo_create`) and make it the device's
    /// `bin_bo` (see `with_bin_bo`).
    CreateBinBo { size: u32, bo_type: u32 },
    /// There is no GPU device.
    Failed,
}

/// What came back from the step that was asked for.
#[derive(Clone, Copy, Debug, PartialEq, Eq, Structural)]
pub enum GpuInitEvent {
    Enabled { ok: bool },
    Ident { ident0: u32 },
    Framebuffer { bound: bool },
}

/// The step after `step`, once `ev` came back: each check that fails ends the bring-up.
pub open spec fn gpu_init_next_spec(step: GpuInitStep, ev: GpuInitEvent) -> GpuInitStep {
    match (step, ev) {
        (GpuInitStep::Enable, GpuInitEvent::Enabled { ok }) => if ok {
            GpuInitStep::ReadIdent
        } else {
            GpuInitStep::Failed
        },
        (GpuInitStep::ReadIdent, GpuInitEvent::Ident { ident0 }) => if ident0 == V3D_IDENT0_POWERED {
            GpuInitStep::CheckFramebuffer
        } else {
            GpuInitStep::Failed
        },
        (GpuInitStep::CheckFramebuffer, GpuInitEvent::Framebuffer { bound }) => if bound {
            GpuInitStep::CreateBinBo { size: BIN_BO_SIZE, bo_type: VC4_BO_TYPE_BIN }
        } else {
            GpuInitStep::Failed
        },
        _ => step,
    }
}

impl GpuDevice {
    /// The first step of bringing up the GPU: enabling it.
    pub fn init_first_step() -> (r: GpuInitStep)
        ensures
            r == GpuInitStep::Enable,
    {
        GpuInitStep::Enable
    }

    /// The step of bringing up the GPU after `step`, once `ev` came back: see
    /// `gpu_init_next_spec`. An event that does not answer `step` leaves it as it is.
    pub fn init_next_step(step: GpuInitStep, ev: GpuInitEvent) -> (r: GpuInitStep)
        ensures
            r == gpu_init_next_spec(step, ev),
    {
        match (step, ev) {
            (GpuInitStep::Enable, GpuInitEvent::Enabled { ok }) => {
                if ok {
                    GpuInitStep::ReadIdent
                } else {
                    GpuInitStep::Failed
                }
            },
            (GpuInitStep::ReadIdent, GpuInitEvent::Ident { ident0 }) => {
                if v3d_powered_up(ident0) {
                    GpuInitStep::CheckFramebuffer
                } else {
                    GpuInitStep::Failed
                }
            },
            (GpuInitStep::CheckFramebuffer, GpuInitEvent::Framebuffer { bound }) => {
                if bound {
                    GpuInitStep::CreateBinBo { size: BIN_BO_SIZE, bo_type: VC4_BO_TYPE_BIN }
                } else {
                    GpuInitStep::Failed
                }
            },
            _ => step,
        }
    }
}

} // verus!
