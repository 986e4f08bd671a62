//! Register offsets and bit-field helpers of the VideoCore IV (V3D, HVS and HDMI blocks).
use vstd::prelude::*;

verus! {

pub const V3D_BASE: usize = 0x20c00000;

pub const V3D_IDENT0: usize = 0x00000;

pub const V3D_IDENT1: usize = 0x00004;

pub const V3D_IDENT2: usize = 0x00008;

pub const V3D_SCRATCH: usize = 0x00010;

pub const V3D_CT0CS: usize = 0x00100;

pub const V3D_CT1CS: usize = 0x00104;

pub const V3D_CT0EA: usize = 0x00108;

pub const V3D_CT1EA: usize = 0x0010c;

pub const V3D_CT0CA: usize = 0x00110;

pub const V3D_CT1CA: usize = 0x00114;

pub const V3D_CT00RA0: usize = 0x00118;

pub const V3D_CT01RA0: usize = 0x0011c;

pub const V3D_CT0LC: usize = 0x00120;

pub const V3D_CT1LC: usize = 0x00124;

pub const V3D_CT0PC: usize = 0x00128;

pub const V3D_CT1PC: usize = 0x0012c;

pub const V3D_IDENT1_VPM_SIZE_SHIFT: usize = 28;

pub const V3D_IDENT1_NSEM_SHIFT: usize = 16;

pub const V3D_IDENT1_TUPS_SHIFT: usize = 12;

pub const V3D_IDENT1_QUPS_SHIFT: usize = 8;

pub const V3D_IDENT1_NSLC_SHIFT: usize = 4;

pub const V3D_IDENT1_REV_SHIFT: usize = 0;

pub const SCALER_DISPLIST0: usize = 0x00000020;

pub const SCALER_DISPLIST1: usize = 0x00000024;

pub const SCALER_DISPLIST2: usize = 0x00000028;

pub const SCALER_DISPLACT0: usize = 0x00000030;

pub const SCALER_DISPLACT1: usize = 0x00000034;

pub const SCALER_DISPLACT2: usize = 0x00000038;

pub const SCALER_DISPCTRL0: usize = 0x00000040;

pub const SCALER_DISPBKGND0: usize = 0x00000044;

pub const SCALER_DISPSTAT0: usize = 0x00000048;

pub const SCALER_DISPBASE0: usize = 0x0000004c;

pub const SCALER_DISPCTRL1: usize = 0x00000050;

pub const SCALER_DISPBKGND1: usize = 0x00000054;

pub const SCALER_DISPSTAT1: usize = 0x00000058;

pub const SCALER_DISPBASE1: usize = 0x0000005c;

pub const SCALER_DISPCTRL2: usize = 0x00000060;

pub const SCALER_DISPBKGND2: usize = 0x00000064;

pub const SCALER_DISPSTAT2: usize = 0x00000068;

pub const SCALER_DISPBASE2: usize = 0x0000006c;

pub const VC4_HDMI_PACKET_STRIDE: usize = 0x24;

/// The contiguous mask of bits `low..=high`.
pub open spec fn vc4_mask_spec(high: usize, low: usize) -> usize {
    (((1usize << ((high - low + 1) as usize)) - 1) as usize) << low
}

/// Whether `vc4_mask_spec(high, low)` can be computed without an over-wide shift.
pub open spec fn mask_bounds(high: usize, low: usize) -> bool {
    low <= high && high < usize::BITS && high - low + 1 < usize::BITS
}

/// `1 << nr`, the word with only bit `nr` set.
pub fn BIT(nr: usize) -> (r: usize)
    requires
        nr < usize::BITS,
    ensures
        r == 1usize << nr,
        (r >> nr) & 1 == 1,
        forall|i: usize| i < usize::BITS && i != nr ==> #[trigger] ((r >> i) & 1) == 0,
{
    let r = 1usize << nr;
    assert((r >> nr) & 1 == 1) by (bit_vector)
        requires
            nr < usize::BITS,
            r == 1usize << nr,
    ;
    assert(forall|i: usize| i < usize::BITS && i != nr ==> #[trigger] ((r >> i) & 1) == 0)
        by (bit_vector)
        requires
            nr < usize::BITS,
            r == 1usize << nr,
    ;
    r
}

/// The mask of bits `low..=high` (both inclusive).
pub fn VC4_MASK(high: usize, low: usize) -> (r: usize)
    requires
        mask_bounds(high, low),
    ensures
        r == vc4_mask_spec(high, low),
        forall|i: usize|
            i < usize::BITS ==> (#[trigger] ((r >> i) & 1) == 1 <==> (low <= i && i <= high)),
{
    let w = high - low + 1;
    assert(1usize << w >= 1) by (bit_vector)
        requires
            w < usize::BITS,
    ;
    let r = ((1usize << w) - 1) << low;
    proof {
        lemma_mask_bits(high, low);
    }
    r
}

/// Which bits `vc4_mask_spec` sets.
pub proof fn lemma_mask_bits(high: usize, low: usize)
    requires
        mask_bounds(high, low),
    ensures
        forall|i: usize|
            i < usize::BITS ==> (#[trigger] ((vc4_mask_spec(high, low) >> i) & 1) == 1 <==> (low
                <= i && i <= high)),
{
    let m = vc4_mask_spec(high, low);
    assert(forall|i: usize|
        i < usize::BITS ==> (#[trigger] ((m >> i) & 1) == 1 <==> (low <= i && i <= high)))
        by (bit_vector)
        requires
            low <= high,
            high < usize::BITS,
            high - low + 1 < usize::BITS,
            m == (((1usize << ((high - low + 1) as usize)) - 1) as usize) << low,
    ;
}

/// Places `value` in the field that starts at bit `field_shift`; the value must fit the mask.
pub fn VC4_SET_FIELD(value: usize, field_shift: usize, field_mask: usize) -> (r: usize)
    requires
        field_shift < usize::BITS,
        (value << field_shift) & !field_mask == 0,
    ensures
        r == value << field_shift,
        r == (value << field_shift) & field_mask,
{
    let fieldval: usize = value << field_shift;
    assert(fieldval & field_mask == fieldval) by (bit_vector)
        requires
            fieldval & !field_mask == 0,
    ;
    fieldval & field_mask
}

/// Reads the field `field_mask` of `word`, shifted down to bit 0.
pub fn VC4_GET_FIELD(word: usize, field_shift: usize, field_mask: usize) -> (r: usize)
    requires
        field_shift < usize::BITS,
    ensures
        r == (word & field_mask) >> field_shift,
{
    (word & field_mask) >> field_shift
}

/// Reading back a field gives what was written to it, for every value that fits the field.
pub proof fn lemma_get_set_field(value: usize, high: usize, low: usize)
    requires
        mask_bounds(high, low),
        value < 1usize << ((high - low + 1) as usize),
    ensures
        (value << low) & !vc4_mask_spec(high, low) == 0,
        ((value << low) & vc4_mask_spec(high, low) & vc4_mask_spec(high, low)) >> low == value,
{
    let m = vc4_mask_spec(high, low);
    let w = (high - low + 1) as usize;
    assert((value << low) & !m == 0 && ((value << low) & m & m) >> low == value) by (bit_vector)
        requires
            low <= high,
            high < usize::BITS,
            w == high - low + 1,
            w < usize::BITS,
            value < 1usize << w,
            m == (((1usize << w) - 1) as usize) << low,
    ;
}

/// Writing back a field that was read gives the word's bits of that field, for every word: the
/// value read fits the field, and placing it gives `w & mask`.
pub proof fn lemma_set_get_field(w: usize, high: usize, low: usize)
    requires
        mask_bounds(high, low),
    ensures
        (((w & vc4_mask_spec(high, low)) >> low) << low) & !vc4_mask_spec(high, low) == 0,
        (((w & vc4_mask_spec(high, low)) >> low) << low) & vc4_mask_spec(high, low) == w & vc4_mask_spec(
            high,
            low,
        ),
{
    let m = vc4_mask_spec(high, low);
    let wd = (high - low + 1) as usize;
    assert((((w & m) >> low) << low) & !m == 0 && (((w & m) >> low) << low) & m == w & m) by (bit_vector)
        requires
            low <= high,
            high < usize::BITS,
            wd == high - low + 1,
            wd < usize::BITS,
            m == (((1usize << wd) - 1) as usize) << low,
    ;
}

/// Writing one field leaves every bit outside that field of a word untouched, so fields
/// written into disjoint masks are read back independently.
pub proof fn lemma_disjoint_fields(v1: usize, h1: usize, l1: usize, v2: usize, h2: usize, l2: usize)
    requires
        mask_bounds(h1, l1),
        mask_bounds(h2, l2),
        h1 < l2,
        v1 < 1usize << ((h1 - l1 + 1) as usize),
        v2 < 1usize << ((h2 - l2 + 1) as usize),
    ensures
        (((v1 << l1) | (v2 << l2)) & vc4_mask_spec(h1, l1)) >> l1 == v1,
        (((v1 << l1) | (v2 << l2)) & vc4_mask_spec(h2, l2)) >> l2 == v2,
{
    let m1 = vc4_mask_spec(h1, l1);
    let m2 = vc4_mask_spec(h2, l2);
    let w1 = (h1 - l1 + 1) as usize;
    let w2 = (h2 - l2 + 1) as usize;
    assert((((v1 << l1) | (v2 << l2)) & m1) >> l1 == v1 && (((v1 << l1) | (v2 << l2)) & m2) >> l2
        == v2) by (bit_vector)
        requires
            l1 <= h1,
            h1 < l2,
            l2 <= h2,
            h2 < usize::BITS,
            w1 == h1 - l1 + 1,
            w2 == h2 - l2 + 1,
            w1 < usize::BITS,
            w2 < usize::BITS,
            v1 < 1usize << w1,
            v2 < 1usize << w2,
            m1 == (((1usize << w1) - 1) as usize) << l1,
            m2 == (((1usize << w2) - 1) as usize) << l2,
    ;
}

/// Control and status register of control-list thread `n`.
pub fn V3D_CTNCS(n: usize) -> (r: usize)
    requires
        V3D_CT0CS + 4 * n <= usize::MAX,
    ensures
        r == V3D_CT0CS + 4 * n,
{
    V3D_CT0CS + 4 * n
}

/// End-address register of control-list thread `n`.
pub fn V3D_CTNEA(n: usize) -> (r: usize)
    requires
        V3D_CT0EA + 4 * n <= usize::MAX,
    ensures
        r == V3D_CT0EA + 4 * n,
{
    V3D_CT0EA + 4 * n
}

/// Current-address register of control-list thread `n`.
pub fn V3D_CTNCA(n: usize) -> (r: usize)
    requires
        V3D_CT0CA + 4 * n <= usize::MAX,
    ensures
        r == V3D_CT0CA + 4 * n,
{
    V3D_CT0CA + 4 * n
}

/// Return-address register of control-list thread `n`.
pub fn V3D_CTNRA0(n: usize) -> (r: usize)
    requires
        V3D_CT00RA0 + 4 * n <= usize::MAX,
    ensures
        r == V3D_CT00RA0 + 4 * n,
{
    V3D_CT00RA0 + 4 * n
}

/// List-counter register of control-list thread `n`.
pub fn V3D_CTNLC(n: usize) -> (r: usize)
    requires
        V3D_CT0LC + 4 * n <= usize::MAX,
    ensures
        r == V3D_CT0LC + 4 * n,
{
    V3D_CT0LC + 4 * n
}

/// Primitive-list-counter register of control-list thread `n`.
pub fn V3D_CTNPC(n: usize) -> (r: usize)
    requires
        V3D_CT0PC + 4 * n <= usize::MAX,
    ensures
        r == V3D_CT0PC + 4 * n,
{
    V3D_CT0PC + 4 * n
}

/// Display-list register of HVS channel `x`.
pub fn SCALER_DISPLISTX(x: usize) -> (r: usize)
    requires
        SCALER_DISPLIST0 + x * (SCALER_DISPLIST1 - SCALER_DISPLIST0) <= usize::MAX,
    ensures
        r == SCALER_DISPLIST0 + x * (SCALER_DISPLIST1 - SCALER_DISPLIST0),
{
    SCALER_DISPLIST0 + x * (SCALER_DISPLIST1 - SCALER_DISPLIST0)
}

/// Active-display-list register of HVS channel `x`.
pub fn SCALER_DISPLACTX(x: usize) -> (r: usize)
    requires
        SCALER_DISPLACT0 + x * (SCALER_DISPLACT1 - SCALER_DISPLACT0) <= usize::MAX,
    ensures
        r == SCALER_DISPLACT0 + x * (SCALER_DISPLACT1 - SCALER_DISPLACT0),
{
    SCALER_DISPLACT0 + x * (SCALER_DISPLACT1 - SCALER_DISPLACT0)
}

/// Background register of HVS channel `x`.
pub fn SCALER_DISPBKGNDX(x: usize) -> (r: usize)
    requires
        SCALER_DISPBKGND0 + x * (SCALER_DISPBKGND1 - SCALER_DISPBKGND0) <= usize::MAX,
    ensures
        r == SCALER_DISPBKGND0 + x * (SCALER_DISPBKGND1 - SCALER_DISPBKGND0),
{
    SCALER_DISPBKGND0 + x * (SCALER_DISPBKGND1 - SCALER_DISPBKGND0)
}

/// Status register of HVS channel `x`.
pub fn SCALER_DISPSTATX(x: usize) -> (r: usize)
    requires
        SCALER_DISPSTAT0 + x * (SCALER_DISPSTAT1 - SCALER_DISPSTAT0) <= usize::MAX,
    ensures
        r == SCALER_DISPSTAT0 + x * (SCALER_DISPSTAT1 - SCALER_DISPSTAT0),
{
    SCALER_DISPSTAT0 + x * (SCALER_DISPSTAT1 - SCALER_DISPSTAT0)
}

/// FIFO-base register of HVS channel `x`.
pub fn SCALER_DISPBASEX(x: usize) -> (r: usize)
    requires
        SCALER_DISPBASE0 + x * (SCALER_DISPBASE1 - SCALER_DISPBASE0) <= usize::MAX,
    ensures
        r == SCALER_DISPBASE0 + x * (SCALER_DISPBASE1 - SCALER_DISPBASE0),
{
    SCALER_DISPBASE0 + x * (SCALER_DISPBASE1 - SCALER_DISPBASE0)
}

/// Control register of HVS channel `x`.
pub fn SCALER_DISPCTRLX(x: usize) -> (r: usize)
    requires
        SCALER_DISPCTRL0 + x * (SCALER_DISPCTRL1 - SCALER_DISPCTRL0) <= usize::MAX,
    ensures
        r == SCALER_DISPCTRL0 + x * (SCALER_DISPCTRL1 - SCALER_DISPCTRL0),
{
    SCALER_DISPCTRL0 + x * (SCALER_DISPCTRL1 - SCALER_DISPCTRL0)
}

/// General-control-packet register `x` of the HDMI block.
pub fn VC4_HDMI_GCP(x: usize) -> (r: usize)
    requires
        0x400 + x * 0x4 <= usize::MAX,
    ensures
        r == 0x400 + x * 0x4,
{
    0x400 + x * 0x4
}

/// Start of RAM packet `x` of the HDMI block.
pub fn VC4_HDMI_RAM_PACKET(x: usize) -> (r: usize)
    requires
        0x400 + x * VC4_HDMI_PACKET_STRIDE <= usize::MAX,
    ensures
        r == 0x400 + x * VC4_HDMI_PACKET_STRIDE,
{
    0x400 + x * 0x24
}

/// The per-thread control-list registers of thread 0 and thread 1 are the named ones.
pub proof fn lemma_thread_registers()
    ensures
        V3D_CT0CS + 4 * 1 == V3D_CT1CS,
        V3D_CT0EA + 4 * 1 == V3D_CT1EA,
        V3D_CT0CA + 4 * 1 == V3D_CT1CA,
        V3D_CT00RA0 + 4 * 1 == V3D_CT01RA0,
        V3D_CT0LC + 4 * 1 == V3D_CT1LC,
        V3D_CT0PC + 4 * 1 == V3D_CT1PC,
{
}

/// The per-channel HVS registers of channel 2 are the named ones: the register banks are
/// evenly spaced.
pub proof fn lemma_scaler_channel_registers()
    ensures
        SCALER_DISPLIST0 + 2 * (SCALER_DISPLIST1 - SCALER_DISPLIST0) == SCALER_DISPLIST2,
        SCALER_DISPLACT0 + 2 * (SCALER_DISPLACT1 - SCALER_DISPLACT0) == SCALER_DISPLACT2,
        SCALER_DISPCTRL0 + 2 * (SCALER_DISPCTRL1 - SCALER_DISPCTRL0) == SCALER_DISPCTRL2,
        SCALER_DISPBKGND0 + 2 * (SCALER_DISPBKGND1 - SCALER_DISPBKGND0) == SCALER_DISPBKGND2,
        SCALER_DISPSTAT0 + 2 * (SCALER_DISPSTAT1 - SCALER_DISPSTAT0) == SCALER_DISPSTAT2,
        SCALER_DISPBASE0 + 2 * (SCALER_DISPBASE1 - SCALER_DISPBASE0) == SCALER_DISPBASE2,
{
}

} // verus!
