use libheic_rs::checksum::{decoded_image_checksum, small_checksum, small_checksum_u16};
use libheic_rs::{DecodedRgbaImage, DecodedRgbaPixels};

#[test]
fn checksums_mix_first_middle_last_and_count() {
    assert_eq!(small_checksum(&[]), 0);
    assert_eq!(small_checksum(&[1, 2, 3]), (1 << 16) ^ (2 << 8) ^ 3 ^ 3);
    assert_eq!(small_checksum(&[5]), 328_964);
    assert_eq!(small_checksum_u16(&[]), 0);
    assert_eq!(small_checksum_u16(&[1, 2]), 4_295_098_368);
}

#[test]
fn image_checksum_puts_width_high_and_height_low() {
    let image = DecodedRgbaImage {
        width: 2,
        height: 1,
        source_bit_depth: 8,
        pixels: DecodedRgbaPixels::U8(vec![1, 2, 3]),
        icc_profile: None,
    };
    assert_eq!(decoded_image_checksum(&image), 8_590_000_641);
    let image16 = DecodedRgbaImage {
        width: 1,
        height: 3,
        source_bit_depth: 12,
        pixels: DecodedRgbaPixels::U16(vec![1, 2]),
        icc_profile: None,
    };
    assert_eq!(decoded_image_checksum(&image16), (1_u64 << 32) ^ 3 ^ 4_295_098_368);
}
