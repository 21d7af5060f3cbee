use libheic_rs::image_integration::{
    byte_order_is_little, expected_rgba_byte_count, expected_rgba_sample_count,
    native_order_is_little, write_rgba16_bytes_in_order, write_rgba16_native_endian_bytes,
    HeifImageDecoder, ImageConversionError, ImageHookRegistration, ImageReadError,
};
use libheic_rs::{decode_file_to_png, DecodeError, DecodedRgbaImage, DecodedRgbaPixels};

#[test]
fn image_hook_registration_helpers_report_status_bits() {
    let status = ImageHookRegistration {
        heic_decoder_hook_registered: true,
        heif_decoder_hook_registered: false,
        avif_decoder_hook_registered: false,
    };
    assert!(status.any_decoder_hook_registered());
    assert!(!status.all_decoder_hooks_registered());
}

#[test]
fn hook_registration_reports_all_and_none() {
    let all = ImageHookRegistration {
        heic_decoder_hook_registered: true,
        heif_decoder_hook_registered: true,
        avif_decoder_hook_registered: true,
    };
    assert!(all.any_decoder_hook_registered());
    assert!(all.all_decoder_hooks_registered());
    let none = ImageHookRegistration {
        heic_decoder_hook_registered: false,
        heif_decoder_hook_registered: false,
        avif_decoder_hook_registered: false,
    };
    assert!(!none.any_decoder_hook_registered());
    assert!(!none.all_decoder_hooks_registered());
}

#[test]
fn rgba_counts_are_four_samples_per_pixel() {
    assert_eq!(expected_rgba_sample_count(3, 2), Some(24));
    assert_eq!(expected_rgba_sample_count(0, 7), Some(0));
    assert_eq!(expected_rgba_byte_count(3, 2, 8), Some(24));
    assert_eq!(expected_rgba_byte_count(3, 2, 16), Some(48));
    assert_eq!(expected_rgba_byte_count(3, 2, 12), None);
    assert_eq!(expected_rgba_sample_count(u32::MAX, u32::MAX), None);
    if usize::BITS == 32 {
        assert_eq!(expected_rgba_sample_count(65536, 65536), None);
    } else {
        assert_eq!(expected_rgba_sample_count(65536, 65536), Some(1_usize << 34));
    }
}

fn rgba8(width: u32, height: u32, samples: usize) -> DecodedRgbaImage {
    DecodedRgbaImage {
        width,
        height,
        source_bit_depth: 8,
        pixels: DecodedRgbaPixels::U8(vec![7; samples]),
        icc_profile: None,
    }
}

#[test]
fn decoder_adapter_accepts_exact_sample_counts_and_hands_the_image_back() {
    let image = rgba8(2, 1, 8);
    let decoder = HeifImageDecoder::from_decoded(image.clone()).expect("exact sample count is valid");
    assert_eq!(decoder.into_decoded_rgba(), image);
}

#[test]
fn decoder_adapter_rejects_sample_count_mismatch() {
    let err = HeifImageDecoder::from_decoded(rgba8(2, 1, 7)).expect_err("short buffer should fail");
    assert_eq!(
        err,
        ImageConversionError::SampleCountMismatch {
            storage_bit_depth: 8,
            width: 2,
            height: 1,
            expected_samples: 8,
            actual_samples: 7,
        }
    );
    let image16 = DecodedRgbaImage {
        width: 1,
        height: 1,
        source_bit_depth: 10,
        pixels: DecodedRgbaPixels::U16(vec![1, 2, 3]),
        icc_profile: Some(vec![1, 2]),
    };
    assert_eq!(image16.storage_bit_depth(), 16);
    let err16 = HeifImageDecoder::from_decoded(image16).expect_err("three samples are too few");
    assert_eq!(
        err16,
        ImageConversionError::SampleCountMismatch {
            storage_bit_depth: 16,
            width: 1,
            height: 1,
            expected_samples: 4,
            actual_samples: 3,
        }
    );
}

#[test]
fn rgba16_samples_are_written_as_byte_pairs() {
    let samples = [0x1234_u16, 0xabcd];
    let mut out = [0_u8; 5];
    write_rgba16_native_endian_bytes(&samples, &mut out);
    assert_eq!(&out[0..2], &0x1234_u16.to_ne_bytes());
    assert_eq!(&out[2..4], &0xabcd_u16.to_ne_bytes());
    assert_eq!(out[4], 0);

    let mut short = [9_u8; 3];
    write_rgba16_native_endian_bytes(&samples, &mut short);
    assert_eq!(&short[0..2], &0x1234_u16.to_ne_bytes());
    assert_eq!(short[2], 9);
}

#[test]
fn decode_file_to_png_reports_missing_input_and_unimplemented_decoding() {
    match decode_file_to_png("missing.heic", false) {
        Err(DecodeError::Unsupported(message)) => {
            assert_eq!(message, "Input file does not exist: missing.heic");
        }
        other => panic!("expected Unsupported error, got {other:?}"),
    }
    match decode_file_to_png("present.heic", true) {
        Err(DecodeError::Unsupported(message)) => {
            assert_eq!(message, "Decoder not implemented yet.");
        }
        other => panic!("expected Unsupported error, got {other:?}"),
    }
}

#[test]
fn io_errors_convert_into_decode_errors() {
    let err = DecodeError::from(std::io::Error::new(std::io::ErrorKind::NotFound, "gone"));
    match err {
        DecodeError::Io(inner) => assert_eq!(inner.kind(), std::io::ErrorKind::NotFound),
        other => panic!("expected Io error, got {other:?}"),
    }
}

#[test]
fn image_decoder_reads_rgba16_in_native_endian() {
    let decoder = HeifImageDecoder::from_decoded(DecodedRgbaImage {
        width: 1,
        height: 1,
        source_bit_depth: 12,
        pixels: DecodedRgbaPixels::U16(vec![0x0102, 0x0304, 0x0506, 0x0708]),
        icc_profile: None,
    })
    .expect("decoded RGBA16 image should build the adapter");
    let mut buf = [0_u8; 8];
    decoder.read_image(&mut buf).expect("read_image should copy RGBA16 bytes");
    let expected = [
        0x0102_u16.to_ne_bytes(),
        0x0304_u16.to_ne_bytes(),
        0x0506_u16.to_ne_bytes(),
        0x0708_u16.to_ne_bytes(),
    ]
    .concat();
    assert_eq!(buf.to_vec(), expected);
}

#[test]
fn image_decoder_reads_rgba8_and_rejects_wrong_buffer_sizes() {
    let image = DecodedRgbaImage {
        width: 1,
        height: 1,
        source_bit_depth: 8,
        pixels: DecodedRgbaPixels::U8(vec![10, 20, 30, 40]),
        icc_profile: None,
    };
    let decoder = HeifImageDecoder::from_decoded(image).expect("valid image");
    let mut buf = [0_u8; 4];
    decoder.clone().read_image(&mut buf).expect("exact buffer reads");
    assert_eq!(buf, [10, 20, 30, 40]);
    let mut short = [7_u8; 3];
    assert_eq!(
        decoder.read_image(&mut short),
        Err(ImageReadError::BufferSizeMismatch { expected: 4, actual: 3 })
    );
    assert_eq!(short, [7, 7, 7]);
}

#[test]
fn byte_order_probe_and_ordered_writes() {
    assert!(byte_order_is_little([0x00, 0x01]));
    assert!(!byte_order_is_little([0x01, 0x00]));
    assert_eq!(native_order_is_little(), 1_u16.to_ne_bytes()[0] == 1);

    let samples = [0x0102_u16, 0x0304];
    let mut little = [9_u8; 5];
    write_rgba16_bytes_in_order(&samples, &mut little, true);
    assert_eq!(little, [0x02, 0x01, 0x04, 0x03, 9]);
    let mut big = [9_u8; 5];
    write_rgba16_bytes_in_order(&samples, &mut big, false);
    assert_eq!(big, [0x01, 0x02, 0x03, 0x04, 9]);
}

#[test]
fn image_reads_in_a_given_byte_order() {
    let image = DecodedRgbaImage {
        width: 1,
        height: 1,
        source_bit_depth: 16,
        pixels: DecodedRgbaPixels::U16(vec![0x0102, 0x0304, 0x0506, 0x0708]),
        icc_profile: None,
    };
    let decoder = HeifImageDecoder::from_decoded(image).expect("valid image");
    let mut big = [0_u8; 8];
    decoder.clone().read_image_in_order(&mut big, false).expect("exact buffer reads");
    assert_eq!(big, [1, 2, 3, 4, 5, 6, 7, 8]);
    let mut little = [0_u8; 8];
    decoder.read_image_in_order(&mut little, true).expect("exact buffer reads");
    assert_eq!(little, [2, 1, 4, 3, 6, 5, 8, 7]);
}
