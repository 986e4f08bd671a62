//! The GPU device file: reads and writes are refused, polling reports it readable, its
//! metadata is fixed, and its ioctls go to the GPU device when there is one.
use vstd::prelude::*;
use crate::device::{GpuDevice, Vc4Error, Vc4Ioctl, ioctl_of};

verus! {

/// Whether a file can be read or written, or is in error.
#[derive(Clone, Copy, Debug, PartialEq, Eq, Structural)]
pub struct PollStatus {
    pub read: bool,
    pub write: bool,
    pub error: bool,
}

/// A point in time: seconds and nanoseconds.
#[derive(Clone, Copy, Debug, PartialEq, Eq, Structural)]
pub struct Timespec {
    pub sec: i64,
    pub nsec: i32,
}

/// The kinds of file.
#[derive(Clone, Copy, Debug, PartialEq, Eq, Structural)]
pub enum FileType {
    File,
    Dir,
    SymLink,
    CharDevice,
    BlockDevice,
    NamedPipe,
    Socket,
}

/// What a file reports of itself.
#[derive(Clone, Copy, Debug, PartialEq, Eq, Structural)]
pub struct Metadata {
    pub dev: usize,
    pub inode: usize,
    pub size: usize,
    pub blk_size: usize,
    pub blocks: usize,
    pub atime: Timespec,
    pub mtime: Timespec,
    pub ctime: Timespec,
    pub type_: FileType,
    pub mode: u16,
    pub nlinks: usize,
    pub uid: usize,
    pub gid: usize,
    pub rdev: usize,
}

/// Size the GPU file reports.
pub const GPU_FILE_SIZE: usize = 0x24000;

/// The GPU device file.
#[derive(Clone, Copy, Debug, PartialEq, Eq, Structural)]
pub struct Gpu;

/// The metadata the GPU file reports: a symbolic link of `GPU_FILE_SIZE` bytes with every
/// other field 0.
pub open spec fn gpu_metadata() -> Metadata {
    Metadata {
        dev: 0,
        inode: 0,
        size: GPU_FILE_SIZE,
        blk_size: 0,
        blocks: 0,
        atime: Timespec { sec: 0, nsec: 0 },
        mtime: Timespec { sec: 0, nsec: 0 },
        ctime: Timespec { sec: 0, nsec: 0 },
        type_: FileType::SymLink,
        mode: 0,
        nlinks: 0,
        uid: 0,
        gid: 0,
        rdev: 0,
    }
}

impl Gpu {
    /// Reading the GPU file is refused with `EntryNotFound`.
    pub fn read_at(&self, offset: usize, buf: &mut [u8]) -> (r: Result<usize, Vc4Error>)
        ensures
            r == Err::<usize, Vc4Error>(Vc4Error::EntryNotFound),
            final(buf)@ == old(buf)@,
    {
        Err(Vc4Error::EntryNotFound)
    }

    /// Writing the GPU file is refused with `EntryNotFound`; its first byte is read (for the
    /// log), so the buffer may not be empty.
    pub fn write_at(&self, offset: usize, buf: &[u8]) -> (r: Result<usize, Vc4Error>)
        requires
            buf@.len() > 0,
        ensures
            r == Err::<usize, Vc4Error>(Vc4Error::EntryNotFound),
    {
        let _first = buf[0];
        Err(Vc4Error::EntryNotFound)
    }

    /// The GPU file is always readable, never writable and never in error.
    pub fn poll(&self) -> (r: Result<PollStatus, Vc4Error>)
        ensures
            r == Ok::<PollStatus, Vc4Error>(PollStatus { read: true, write: false, error: false }),
    {
        Ok(PollStatus { read: true, write: false, error: false })
    }

    /// The GPU file's metadata: see `gpu_metadata`.
    pub fn metadata(&self) -> (r: Result<Metadata, Vc4Error>)
        ensures
            r == Ok::<Metadata, Vc4Error>(gpu_metadata()),
    {
        Ok(
            Metadata {
                dev: 0,
                inode: 0,
                size: GPU_FILE_SIZE,
                blk_size: 0,
                blocks: 0,
                atime: Timespec { sec: 0, nsec: 0 },
                mtime: Timespec { sec: 0, nsec: 0 },
                ctime: Timespec { sec: 0, nsec: 0 },
                type_: FileType::SymLink,
                mode: 0,
                nlinks: 0,
                uid: 0,
                gid: 0,
                rdev: 0,
            },
        )
    }

    /// The ioctl `cmd` on the GPU file: handed to the GPU device `device` (see
    /// `GpuDevice::io_control`), or refused with `NotSupported` when there is no device.
    pub fn io_control(&self, device: Option<&GpuDevice>, cmd: u32) -> (r: Result<Vc4Ioctl, Vc4Error>)
        ensures
            match device {
                None => r == Err::<Vc4Ioctl, Vc4Error>(Vc4Error::NotSupported),
                Some(_) => match ioctl_of(cmd) {
                    Some(i) => r == Ok::<Vc4Ioctl, Vc4Error>(i),
                    None => r == Err::<Vc4Ioctl, Vc4Error>(Vc4Error::NotSupported),
                },
            },
    {
        match device {
            Some(gd) => gd.io_control(cmd),
            None => Err(Vc4Error::NotSupported),
        }
    }
}

} // verus!
