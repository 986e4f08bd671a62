use vc4::bytes::{get_le32, put_le16_at, put_le32_at, put_u8_at};
use vc4::cl::{
    vc4_cl, vc4_init_cl, vc4_reset_cl, cl_offset, cl_advance, put_unaligned_32, put_unaligned_16,
    cl_u8, cl_u16, cl_u32, cl_aligned_u32, vc4_dump_cl,
};

fn list(base: usize, len: usize) -> vc4_cl {
    vc4_cl { base, next: base, reloc_next: 0, size: len as u32, mem: vec![0u8; len] }
}

#[test]
fn methods_append_little_endian() {
    let mut cl = list(100, 16);
    cl.cl_u8(7);
    cl.cl_u16(0x1234);
    cl.cl_u32(0xdead_beef);
    assert_eq!(cl.cl_offset(), 7);
    assert_eq!(cl.next, 107);
    assert_eq!(&cl.mem[0..7], &[7, 0x34, 0x12, 0xef, 0xbe, 0xad, 0xde]);
    assert!(cl.mem[7..].iter().all(|b| *b == 0));
}

#[test]
fn free_functions_append_little_endian() {
    let mut cl = list(0, 12);
    cl_u8(&mut cl, 1);
    cl_u16(&mut cl, 0xabcd);
    cl_u32(&mut cl, 0x0102_0304);
    cl_aligned_u32(&mut cl, 0xffff_0000);
    assert_eq!(cl.mem, vec![1, 0xcd, 0xab, 4, 3, 2, 1, 0, 0, 0xff, 0xff, 0]);
    assert_eq!(cl_offset(&mut cl), 11);
}

#[test]
fn tile_coordinates_packet() {
    let mut cl = list(0, 8);
    cl.vc4_tile_coordinates(3, 4);
    assert_eq!(&cl.mem[0..3], &[115, 3, 4]);
    assert_eq!(cl.cl_offset(), 3);
}

#[test]
fn store_before_load_packet_clears_nothing_and_writes_nothing() {
    let mut cl = list(0, 8);
    cl.vc4_store_before_load();
    assert_eq!(&cl.mem[0..7], &[28, 0x00, 0xe0, 0, 0, 0, 0]);
    assert_eq!(cl.cl_offset(), 7);
}

#[test]
fn init_reset_and_advance() {
    let mut cl = list(40, 4);
    cl.next = 44;
    cl.reloc_next = 9;
    vc4_reset_cl(&mut cl);
    assert_eq!(cl.next, 40);
    cl_advance(&mut cl, 3);
    assert_eq!(cl.next, 43);
    assert_eq!(cl_offset(&mut cl), 3);
    vc4_init_cl(&mut cl);
    assert_eq!((cl.base, cl.next, cl.size, cl.reloc_next), (0, 0, 0, 9));
}

#[test]
fn unaligned_stores() {
    let mut a: u32 = 0;
    let mut b: u16 = 0;
    put_unaligned_32(&mut a, 0x1234_5678);
    put_unaligned_16(&mut b, 0xbeef);
    assert_eq!((a, b), (0x1234_5678, 0xbeef));
}

#[test]
fn dump_rows_have_cols_bytes_but_the_last() {
    let mut cl = list(0, 12);
    for i in 0..12 {
        cl.mem[i] = i as u8;
    }
    let rows = vc4_dump_cl(&cl, 10, 4);
    assert_eq!(rows, vec![vec![0, 1, 2, 3], vec![4, 5, 6, 7], vec![8, 9]]);
    let rows = vc4_dump_cl(&cl, 8, 4);
    assert_eq!(rows, vec![vec![0, 1, 2, 3], vec![4, 5, 6, 7]]);
    assert!(vc4_dump_cl(&cl, 0, 0).is_empty());
    assert_eq!(vc4_dump_cl(&cl, 3, 16), vec![vec![0, 1, 2]]);
}

#[test]
fn a_word_reads_back_as_written() {
    let mut buf = vec![0u8; 10];
    put_le32_at(&mut buf, 3, 0x8765_4321);
    assert_eq!(get_le32(&buf, 3), 0x8765_4321);
    assert_eq!(&buf[3..7], &[0x21, 0x43, 0x65, 0x87]);
    put_le16_at(&mut buf, 0, 0xbeef);
    put_u8_at(&mut buf, 9, 7);
    assert_eq!(buf, vec![0xef, 0xbe, 0, 0x21, 0x43, 0x65, 0x87, 0, 0, 7]);
}
