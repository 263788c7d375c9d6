use isc16::bits::{sign_extend, wrapping_add16};

#[test]
fn sign_extend_negative_imm5() {
    assert_eq!(sign_extend(0x1F, 5), 0xFFFF);
    assert_eq!(sign_extend(0x10, 5), 0xFFF0);
}

#[test]
fn sign_extend_positive_unchanged() {
    assert_eq!(sign_extend(0x0F, 5), 0x000F);
    assert_eq!(sign_extend(0x0FF, 9), 0x00FF);
    assert_eq!(sign_extend(0x2A, 6), 0xFFEA);
    assert_eq!(sign_extend(0x1FF, 9), 0xFFFF);
    assert_eq!(sign_extend(0x7FF, 11), 0xFFFF);
    assert_eq!(sign_extend(0x3FF, 11), 0x03FF);
}

#[test]
fn sign_extend_full_width_is_identity() {
    assert_eq!(sign_extend(0x8000, 16), 0x8000);
    assert_eq!(sign_extend(0x0001, 16), 0x0001);
    assert_eq!(sign_extend(0xFFFF, 16), 0xFFFF);
}

#[test]
fn sign_extend_one_bit() {
    assert_eq!(sign_extend(1, 1), 0xFFFF);
    assert_eq!(sign_extend(0, 1), 0x0000);
}

#[test]
fn sign_extend_bits_reproduced() {
    // every bit below the field width is unchanged; every bit above it
    // copies the field's sign bit
    for bit_count in 1..=16u8 {
        for &x in &[0u16, 1, 0x15, (1 << (bit_count - 1)) as u16, ((1u32 << bit_count) - 1) as u16]
        {
            if (x as u32) < (1u32 << bit_count) {
                let r = sign_extend(x, bit_count);
                let sign = (x >> (bit_count - 1)) & 1;
                for i in 0..16u16 {
                    let expected = if i < bit_count as u16 { (x >> i) & 1 } else { sign };
                    assert_eq!((r >> i) & 1, expected, "x={x:#x} n={bit_count} i={i}");
                }
            }
        }
    }
}

#[test]
fn wrapping_add_wraps() {
    assert_eq!(wrapping_add16(0xFFFF, 1), 0);
    assert_eq!(wrapping_add16(0x8000, 0x8000), 0);
    assert_eq!(wrapping_add16(0x1234, 0x0001), 0x1235);
}
