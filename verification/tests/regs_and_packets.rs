use vc4::packet::{vc4_packet, Bit_8, Mask_8};
use vc4::regs::{
    BIT, VC4_MASK, VC4_SET_FIELD, VC4_GET_FIELD, V3D_CTNCS, V3D_CTNEA, V3D_CTNCA, V3D_CTNRA0,
    V3D_CTNLC, V3D_CTNPC, SCALER_DISPLISTX, SCALER_DISPLACTX, SCALER_DISPBKGNDX,
    SCALER_DISPSTATX, SCALER_DISPBASEX, SCALER_DISPCTRLX, VC4_HDMI_GCP, VC4_HDMI_RAM_PACKET,
    V3D_CT0CS, V3D_CT1CS, V3D_CT1EA, V3D_CT1CA, V3D_CT01RA0, V3D_CT1LC, V3D_CT1PC,
    SCALER_DISPLIST2, SCALER_DISPLACT2, SCALER_DISPCTRL2, SCALER_DISPBKGND2, SCALER_DISPSTAT2,
    SCALER_DISPBASE2, SCALER_DISPLIST0,
};

#[test]
fn bit_sets_one_bit() {
    assert_eq!(BIT(0), 1);
    assert_eq!(BIT(5), 32);
    assert_eq!(BIT(31), 0x8000_0000);
}

#[test]
fn mask_covers_the_inclusive_range() {
    assert_eq!(VC4_MASK(7, 4), 0xf0);
    assert_eq!(VC4_MASK(0, 0), 1);
    assert_eq!(VC4_MASK(31, 0), 0xffff_ffff);
    assert_eq!(VC4_MASK(15, 8), 0xff00);
}

#[test]
fn set_then_get_field_round_trips() {
    let m = VC4_MASK(7, 4);
    let w = VC4_SET_FIELD(3, 4, m);
    assert_eq!(w, 0x30);
    assert_eq!(VC4_GET_FIELD(w, 4, m), 3);
    assert_eq!(VC4_GET_FIELD(0x35, 4, 0xf0), 3);
}

#[test]
fn disjoint_fields_read_back_independently() {
    let lo = VC4_MASK(3, 0);
    let hi = VC4_MASK(11, 4);
    let w = VC4_SET_FIELD(5, 0, lo) | VC4_SET_FIELD(0x9a, 4, hi);
    assert_eq!(w, 0x9a5);
    assert_eq!(VC4_GET_FIELD(w, 0, lo), 5);
    assert_eq!(VC4_GET_FIELD(w, 4, hi), 0x9a);
}

#[test]
fn thread_registers_of_thread_one() {
    assert_eq!(V3D_CTNCS(0), V3D_CT0CS);
    assert_eq!(V3D_CTNCS(1), V3D_CT1CS);
    assert_eq!(V3D_CTNEA(1), V3D_CT1EA);
    assert_eq!(V3D_CTNCA(1), V3D_CT1CA);
    assert_eq!(V3D_CTNRA0(1), V3D_CT01RA0);
    assert_eq!(V3D_CTNLC(1), V3D_CT1LC);
    assert_eq!(V3D_CTNPC(1), V3D_CT1PC);
    assert_eq!(V3D_CTNCA(1), 0x114);
}

#[test]
fn scaler_channel_two_registers() {
    assert_eq!(SCALER_DISPLISTX(0), SCALER_DISPLIST0);
    assert_eq!(SCALER_DISPLISTX(2), SCALER_DISPLIST2);
    assert_eq!(SCALER_DISPLACTX(2), SCALER_DISPLACT2);
    assert_eq!(SCALER_DISPCTRLX(2), SCALER_DISPCTRL2);
    assert_eq!(SCALER_DISPBKGNDX(2), SCALER_DISPBKGND2);
    assert_eq!(SCALER_DISPSTATX(2), SCALER_DISPSTAT2);
    assert_eq!(SCALER_DISPBASEX(2), SCALER_DISPBASE2);
    assert_eq!(SCALER_DISPCTRLX(1), 0x50);
}

#[test]
fn hdmi_packet_registers() {
    assert_eq!(VC4_HDMI_GCP(0), 0x400);
    assert_eq!(VC4_HDMI_GCP(3), 0x40c);
    assert_eq!(VC4_HDMI_RAM_PACKET(0), 0x400);
    assert_eq!(VC4_HDMI_RAM_PACKET(2), 0x448);
}

#[test]
fn byte_bits_and_masks() {
    assert_eq!(Bit_8(0), 1);
    assert_eq!(Bit_8(3), 8);
    assert_eq!(Bit_8(7), 0x80);
    assert_eq!(Mask_8(2, 5), 0x20);
    assert_eq!(Mask_8(6, 6), 0x40);
}

#[test]
fn packet_codes_round_trip() {
    assert_eq!(vc4_packet::VC4_PACKET_HALT.code(), 0);
    assert_eq!(vc4_packet::VC4_PACKET_TILE_COORDINATES.code(), 115);
    assert_eq!(vc4_packet::VC4_PACKET_GEM_HANDLES.code(), 254);
    for c in 0u16..256 {
        let c = c as u8;
        if let Some(p) = vc4_packet::from_code(c) {
            assert_eq!(p.code(), c);
        }
    }
    assert_eq!(vc4_packet::from_code(2), None);
    assert_eq!(vc4_packet::from_code(113), Some(vc4_packet::VC4_PACKET_TILE_RENDERING_MODE_CONFIG));
}
