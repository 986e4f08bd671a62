use vc4::device::{GpuDevice, Vc4Error, Vc4Ioctl};
use vc4::gpu_file::{FileType, Gpu, PollStatus, Timespec, GPU_FILE_SIZE};

#[test]
fn reads_and_writes_are_refused() {
    let g = Gpu;
    let mut buf = [1u8, 2, 3];
    assert_eq!(g.read_at(0, &mut buf), Err(Vc4Error::EntryNotFound));
    assert_eq!(buf, [1, 2, 3]);
    assert_eq!(g.write_at(4, &[9]), Err(Vc4Error::EntryNotFound));
}

#[test]
fn poll_and_metadata() {
    let g = Gpu;
    assert_eq!(g.poll(), Ok(PollStatus { read: true, write: false, error: false }));
    let m = g.metadata().unwrap();
    assert_eq!(m.size, 0x24000);
    assert_eq!(m.size, GPU_FILE_SIZE);
    assert_eq!(m.type_, FileType::SymLink);
    assert_eq!(m.atime, Timespec { sec: 0, nsec: 0 });
    assert_eq!((m.dev, m.inode, m.blk_size, m.blocks, m.mode, m.nlinks, m.uid, m.gid, m.rdev), (0, 0, 0, 0, 0, 0, 0, 0, 0));
}

#[test]
fn ioctls_go_to_the_device() {
    let g = Gpu;
    assert_eq!(g.io_control(None, 3), Err(Vc4Error::NotSupported));
    let dev = GpuDevice::empty();
    assert_eq!(g.io_control(Some(&dev), 3), Ok(Vc4Ioctl::CreateBo));
    assert_eq!(g.io_control(Some(&dev), 2), Err(Vc4Error::NotSupported));
}
