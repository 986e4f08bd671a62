//! The userspace interface of the VC4 driver: ioctl numbers and argument structures, and the
//! kernel-side description of a buffer object.
use vstd::prelude::*;

verus! {

pub const DRM_IOCTL_VC4_SUBMIT_CL: usize = 0x00;

pub const DRM_IOCTL_VC4_WAIT_SEQNO: usize = 0x01;

pub const DRM_IOCTL_VC4_WAIT_BO: usize = 0x02;

pub const DRM_IOCTL_VC4_CREATE_BO: usize = 0x03;

pub const DRM_IOCTL_VC4_MMAP_BO: usize = 0x04;

pub const DRM_IOCTL_VC4_CREATE_SHADER_BO: usize = 0x05;

pub const DRM_IOCTL_VC4_GET_HANG_STATE: usize = 0x06;

pub const DRM_IOCTL_VC4_GET_PARAM: usize = 0x07;

pub const DRM_IOCTL_VC4_SET_TILING: usize = 0x08;

pub const DRM_IOCTL_VC4_GET_TILING: usize = 0x09;

pub const DRM_IOCTL_VC4_LABEL_BO: usize = 0x0a;

pub const DRM_IOCTL_VC4_FREE_BO: usize = 0x0b;

/// Bit 0 of `drm_vc4_create_bo::flags`: the buffer is a framebuffer.
pub const VC4_CREATE_BO_IS_FRAMEBUFFER: u32 = 1;

/// Arguments of the free-BO ioctl.
#[derive(Clone, Copy, Debug, PartialEq, Eq, Structural)]
pub struct drm_vc4_free_bo {
    /// Handle of the object to free.
    pub handle: u32,
}

/// Arguments of the create-BO ioctl.
#[derive(Clone, Copy, Debug, PartialEq, Eq, Structural)]
pub struct drm_vc4_create_bo {
    pub size: u32,
    /// Returned handle of the new BO.
    pub handle: u32,
    pub flags: u32,
}

/// Arguments of the mmap-BO ioctl.
#[derive(Clone, Copy, Debug, PartialEq, Eq, Structural)]
pub struct drm_vc4_mmap_bo {
    /// Handle of the object being mapped.
    pub handle: u32,
    /// Offset into the drm node to use for the subsequent mmap call.
    pub offset: u64,
}

/// What a buffer object is used for.
#[derive(Clone, Copy, Debug, PartialEq, Eq, Structural)]
pub enum vc4_kernel_bo_type {
    VC4_BO_TYPE_FB,
    VC4_BO_TYPE_V3D,
    VC4_BO_TYPE_BIN,
    VC4_BO_TYPE_RCL,
    VC4_BO_TYPE_BCL,
}

/// A buffer object as the kernel driver describes it.
pub struct vc4_bo {
    size: usize,
    handle: u32,
    paddr: u32,
    vaddr: usize,
    bo_type: vc4_kernel_bo_type,
}

} // verus!
