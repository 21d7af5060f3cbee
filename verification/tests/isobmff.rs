use libheic_rs::isobmff::{
    extract_primary_avif_item_data, extract_primary_heic_item_data,
    extract_primary_heic_item_data_with_grid, parse_boxes, parse_primary_avif_item_properties,
    parse_primary_heic_item_preflight_properties, parse_primary_heic_item_properties,
    parse_primary_item_transform_properties, BoxIter, ColorInformation,
    ExtractAvifItemDataError, ExtractHeicItemDataError, FourCc, HeicPrimaryItemDataWithGrid,
    IccColorProfile, ImageCleanApertureProperty, ImageMirrorDirection, ImageMirrorProperty,
    ImageRotationProperty, ItemLocationField, NclxColorProfile,
    ParseAv1CodecConfigurationBoxError, ParseBoxError, ParseColorInformationPropertyError,
    ParseFileTypeBoxError, ParseFullBoxError, ParseHevcDecoderConfigurationBoxError,
    ParseImageCleanAperturePropertyError, ParseImageMirrorPropertyError,
    ParseImageRotationPropertyError, ParseImageSpatialExtentsPropertyError,
    ParseItemInfoBoxError, ParseItemInfoEntryBoxError, ParseItemLocationBoxError,
    ParseItemPropertiesBoxError, ParseItemPropertyAssociationBoxError,
    ParseItemPropertyContainerBoxError, ParseItemReferenceBoxError, ParseMetaBoxError,
    ParsePixelInformationPropertyError, ParsePrimaryAvifPropertiesError,
    ParsePrimaryHeicPropertiesError, ParsePrimaryItemBoxError, PrimaryItemColorProperties,
    PrimaryItemTransformProperty, ResolvePrimaryItemGraphError, BASIC_HEADER_SIZE,
    FULL_BOX_HEADER_SIZE, LARGE_SIZE_FIELD_SIZE, UUID_EXTENDED_TYPE_SIZE,
};

#[test]
fn parses_single_basic_box() {
    let bytes = make_basic_box(*b"ftyp", &[0x6d, 0x69, 0x66, 0x31]);
    let parsed = parse_boxes(&bytes).expect("basic box should parse");
    assert_eq!(parsed.len(), 1);
    assert_eq!(parsed[0].header.box_type.as_bytes(), *b"ftyp");
    assert_eq!(parsed[0].header.box_size, 12);
    assert_eq!(parsed[0].header.header_size, 8);
    assert_eq!(parsed[0].header.payload_size(), 4);
    assert_eq!(parsed[0].payload, &[0x6d, 0x69, 0x66, 0x31]);
    assert_eq!(parsed[0].offset, 0);
}

#[test]
fn parses_large_size_box() {
    let payload = [0xde, 0xad, 0xbe, 0xef];
    let bytes = make_large_box(*b"meta", &payload);
    let parsed = parse_boxes(&bytes).expect("large-size box should parse");
    assert_eq!(parsed[0].header.box_type.as_bytes(), *b"meta");
    assert_eq!(parsed[0].header.box_size, 20);
    assert_eq!(parsed[0].header.header_size, 16);
    assert_eq!(parsed[0].payload, &payload);
}

#[test]
fn parses_uuid_box_with_extended_type() {
    let uuid: [u8; 16] = [
        0x22, 0xcc, 0x04, 0xc7, 0xd6, 0xd9, 0x4e, 0x07, 0x9d, 0x90, 0x4e, 0xb6, 0xec, 0xba,
        0xf3, 0xa3,
    ];
    let payload = [0x01, 0x02, 0x03];
    let bytes = make_uuid_box(uuid, &payload);
    let parsed = parse_boxes(&bytes).expect("uuid box should parse");
    assert_eq!(parsed[0].header.box_type.as_bytes(), *b"uuid");
    assert_eq!(parsed[0].header.header_size, 24);
    assert_eq!(parsed[0].header.uuid, Some(uuid));
    assert_eq!(parsed[0].payload, &payload);
}

#[test]
fn parses_size_zero_box_to_end_of_parent_range() {
    let mut bytes = Vec::new();
    bytes.extend_from_slice(&0_u32.to_be_bytes());
    bytes.extend_from_slice(b"mdat");
    bytes.extend_from_slice(&[0x10, 0x11, 0x12]);

    let mut iter = BoxIter::new(&bytes);
    let parsed = iter
        .next()
        .expect("first box result should exist")
        .expect("size=0 box should parse");
    assert_eq!(parsed.header.box_size, bytes.len() as u64);
    assert_eq!(parsed.payload, &[0x10, 0x11, 0x12]);
    assert!(iter.next().is_none());
}

#[test]
fn rejects_box_smaller_than_header() {
    let mut bytes = Vec::new();
    bytes.extend_from_slice(&4_u32.to_be_bytes());
    bytes.extend_from_slice(b"free");

    let err = parse_boxes(&bytes).expect_err("size < header must fail");
    assert_eq!(
        err,
        ParseBoxError::InvalidBoxSize {
            offset: 0,
            box_size: 4,
            header_size: 8
        }
    );
}

#[test]
fn rejects_box_past_available_range() {
    let mut bytes = Vec::new();
    bytes.extend_from_slice(&16_u32.to_be_bytes());
    bytes.extend_from_slice(b"free");
    bytes.extend_from_slice(&[0xaa, 0xbb, 0xcc, 0xdd]);

    let err = parse_boxes(&bytes).expect_err("out-of-range box must fail");
    assert_eq!(
        err,
        ParseBoxError::BoxOutOfBounds {
            offset: 0,
            box_size: 16,
            available: 12
        }
    );
}

#[test]
fn rejects_truncated_large_size_field() {
    let mut bytes = Vec::new();
    bytes.extend_from_slice(&1_u32.to_be_bytes());
    bytes.extend_from_slice(b"meta");
    bytes.extend_from_slice(&[0_u8; 3]);

    let err = parse_boxes(&bytes).expect_err("truncated large-size field must fail");
    assert_eq!(
        err,
        ParseBoxError::TruncatedLargeSize {
            offset: 0,
            available: 11
        }
    );
}

#[test]
fn payload_slice_is_zero_copy() {
    let bytes = make_basic_box(*b"free", &[0x03, 0x04, 0x05]);
    let parsed = parse_boxes(&bytes).expect("box should parse");
    let payload_ptr = parsed[0].payload.as_ptr();
    let expected_ptr = bytes[8..].as_ptr();
    assert_eq!(payload_ptr, expected_ptr);
}

#[test]
fn parses_nested_child_boxes_inside_parent_payload() {
    let child_a = make_basic_box(*b"hdlr", &[0x00, 0x00, 0x00, 0x00]);
    let child_b = make_basic_box(*b"pitm", &[0x01, 0x02]);
    let mut meta_payload = Vec::new();
    meta_payload.extend_from_slice(&child_a);
    meta_payload.extend_from_slice(&child_b);
    let bytes = make_basic_box(*b"meta", &meta_payload);

    let top_level = parse_boxes(&bytes).expect("top-level box should parse");
    let children = top_level[0]
        .parse_children()
        .expect("child boxes should parse");
    assert_eq!(children.len(), 2);
    assert_eq!(children[0].header.box_type.as_bytes(), *b"hdlr");
    assert_eq!(children[1].header.box_type.as_bytes(), *b"pitm");
    assert_eq!(children[0].offset, 8);
    assert_eq!(children[1].offset, 8 + child_a.len() as u64);
}

#[test]
fn rejects_child_box_past_parent_payload_range() {
    let mut invalid_child = Vec::new();
    invalid_child.extend_from_slice(&16_u32.to_be_bytes());
    invalid_child.extend_from_slice(b"hdlr");
    invalid_child.extend_from_slice(&[0xaa, 0xbb, 0xcc, 0xdd]);
    let bytes = make_basic_box(*b"meta", &invalid_child);

    let top_level = parse_boxes(&bytes).expect("parent box should parse");
    let err = top_level[0]
        .parse_children()
        .expect_err("out-of-range child must fail");
    assert_eq!(
        err,
        ParseBoxError::BoxOutOfBounds {
            offset: 8,
            box_size: 16,
            available: 12,
        }
    );
}

#[test]
fn size_zero_child_box_consumes_remaining_parent_payload() {
    let mut meta_payload = Vec::new();
    meta_payload.extend_from_slice(&0_u32.to_be_bytes());
    meta_payload.extend_from_slice(b"free");
    meta_payload.extend_from_slice(&[0x10, 0x11, 0x12]);
    meta_payload.extend_from_slice(&12_u32.to_be_bytes());
    meta_payload.extend_from_slice(b"skip");
    meta_payload.extend_from_slice(&[0x20, 0x21, 0x22, 0x23]);
    let bytes = make_basic_box(*b"meta", &meta_payload);

    let top_level = parse_boxes(&bytes).expect("parent box should parse");
    let mut children = top_level[0].children();
    let first = children
        .next()
        .expect("first child result should exist")
        .expect("size=0 child should parse");
    assert_eq!(first.header.box_type.as_bytes(), *b"free");
    assert_eq!(first.header.box_size, meta_payload.len() as u64);
    assert_eq!(first.offset, 8);
    assert_eq!(first.payload, &meta_payload[8..]);
    assert!(children.next().is_none());
}

#[test]
fn parses_ftyp_payload_fields() {
    let mut payload = Vec::new();
    payload.extend_from_slice(b"mif1");
    payload.extend_from_slice(&0_u32.to_be_bytes());
    payload.extend_from_slice(b"miaf");
    payload.extend_from_slice(b"avif");
    let bytes = make_basic_box(*b"ftyp", &payload);

    let top_level = parse_boxes(&bytes).expect("ftyp box should parse");
    let ftyp = top_level[0]
        .parse_ftyp()
        .expect("ftyp payload should parse");
    assert_eq!(ftyp.major_brand.as_bytes(), *b"mif1");
    assert_eq!(ftyp.minor_version, 0);
    assert_eq!(
        ftyp.compatible_brands,
        vec![FourCc::new(*b"miaf"), FourCc::new(*b"avif")]
    );
}

#[test]
fn rejects_ftyp_payload_smaller_than_fixed_fields() {
    let bytes = make_basic_box(*b"ftyp", &[0, 1, 2, 3, 4, 5, 6]);
    let top_level = parse_boxes(&bytes).expect("ftyp box should parse");

    let err = top_level[0]
        .parse_ftyp()
        .expect_err("short ftyp payload must fail");
    assert_eq!(
        err,
        ParseFileTypeBoxError::PayloadTooSmall {
            offset: 8,
            available: 7
        }
    );
}

#[test]
fn rejects_ftyp_payload_with_incomplete_compatible_brand() {
    let mut payload = Vec::new();
    payload.extend_from_slice(b"mif1");
    payload.extend_from_slice(&0_u32.to_be_bytes());
    payload.extend_from_slice(&[0xaa, 0xbb, 0xcc]);
    let bytes = make_basic_box(*b"ftyp", &payload);
    let top_level = parse_boxes(&bytes).expect("ftyp box should parse");

    let err = top_level[0]
        .parse_ftyp()
        .expect_err("incomplete compatible brand must fail");
    assert_eq!(
        err,
        ParseFileTypeBoxError::IncompleteCompatibleBrand {
            offset: 16,
            bytes: 3
        }
    );
}

#[test]
fn rejects_ftyp_parse_for_non_ftyp_box() {
    let bytes = make_basic_box(*b"free", &[0x01, 0x02, 0x03, 0x04]);
    let top_level = parse_boxes(&bytes).expect("free box should parse");

    let err = top_level[0]
        .parse_ftyp()
        .expect_err("parsing non-ftyp as ftyp must fail");
    assert_eq!(
        err,
        ParseFileTypeBoxError::UnexpectedBoxType {
            offset: 0,
            actual: FourCc::new(*b"free")
        }
    );
}

#[test]
fn parses_full_box_header_fields() {
    let payload = [0x01, 0x02, 0x03, 0x04, 0xaa];
    let bytes = make_basic_box(*b"meta", &payload);
    let top_level = parse_boxes(&bytes).expect("meta box should parse");

    let full_box = top_level[0]
        .parse_full_box_header()
        .expect("full box header should parse");
    assert_eq!(full_box.version, 1);
    assert_eq!(full_box.flags, 0x0002_0304);
}

#[test]
fn rejects_full_box_header_when_payload_too_small() {
    let bytes = make_basic_box(*b"meta", &[0x01, 0x02, 0x03]);
    let top_level = parse_boxes(&bytes).expect("meta box should parse");

    let err = top_level[0]
        .parse_full_box_header()
        .expect_err("short full box payload must fail");
    assert_eq!(
        err,
        ParseFullBoxError::PayloadTooSmall {
            offset: BASIC_HEADER_SIZE as u64,
            available: 3
        }
    );
}

#[test]
fn parses_meta_full_box_and_children() {
    let child = make_basic_box(*b"hdlr", &[0x00, 0x00, 0x00, 0x00]);
    let mut payload = Vec::new();
    payload.extend_from_slice(&[0x00, 0x00, 0x00, 0x00]); // version=0, flags=0
    payload.extend_from_slice(&child);
    let bytes = make_basic_box(*b"meta", &payload);

    let top_level = parse_boxes(&bytes).expect("meta box should parse");
    let meta = top_level[0]
        .parse_meta()
        .expect("meta payload should parse");
    assert_eq!(meta.full_box.version, 0);
    assert_eq!(meta.full_box.flags, 0);
    assert_eq!(
        meta.payload_offset,
        (BASIC_HEADER_SIZE + FULL_BOX_HEADER_SIZE) as u64
    );

    let children = meta.parse_children().expect("meta children should parse");
    assert_eq!(children.len(), 1);
    assert_eq!(children[0].header.box_type.as_bytes(), *b"hdlr");
    assert_eq!(
        children[0].offset,
        (BASIC_HEADER_SIZE + FULL_BOX_HEADER_SIZE) as u64
    );
}

#[test]
fn rejects_meta_parse_for_non_meta_box() {
    let bytes = make_basic_box(*b"free", &[0x00, 0x00, 0x00, 0x00]);
    let top_level = parse_boxes(&bytes).expect("free box should parse");

    let err = top_level[0]
        .parse_meta()
        .expect_err("parsing non-meta as meta must fail");
    assert_eq!(
        err,
        ParseMetaBoxError::UnexpectedBoxType {
            offset: 0,
            actual: FourCc::new(*b"free")
        }
    );
}

#[test]
fn rejects_meta_parse_for_unsupported_full_box_version() {
    let mut payload = Vec::new();
    payload.extend_from_slice(&[0x01, 0x00, 0x00, 0x00]); // version=1, flags=0
    payload.extend_from_slice(&make_basic_box(*b"hdlr", &[0x00, 0x00, 0x00, 0x00]));
    let bytes = make_basic_box(*b"meta", &payload);
    let top_level = parse_boxes(&bytes).expect("meta box should parse");

    let err = top_level[0]
        .parse_meta()
        .expect_err("unsupported meta version must fail");
    assert_eq!(
        err,
        ParseMetaBoxError::UnsupportedVersion {
            offset: BASIC_HEADER_SIZE as u64,
            version: 1
        }
    );
}

#[test]
fn rejects_meta_parse_when_full_box_header_is_truncated() {
    let bytes = make_basic_box(*b"meta", &[0x01, 0x02, 0x03]);
    let top_level = parse_boxes(&bytes).expect("meta box should parse");

    let err = top_level[0]
        .parse_meta()
        .expect_err("meta with short full box header must fail");
    assert_eq!(
        err,
        ParseMetaBoxError::FullBox(ParseFullBoxError::PayloadTooSmall {
            offset: BASIC_HEADER_SIZE as u64,
            available: 3
        })
    );
}

#[test]
fn parses_pitm_version_zero_item_id() {
    let mut payload = Vec::new();
    payload.extend_from_slice(&[0x00, 0x00, 0x00, 0x00]); // version=0, flags=0
    payload.extend_from_slice(&0x1234_u16.to_be_bytes());
    let bytes = make_basic_box(*b"pitm", &payload);
    let top_level = parse_boxes(&bytes).expect("pitm box should parse");

    let pitm = top_level[0]
        .parse_pitm()
        .expect("pitm v0 payload should parse");
    assert_eq!(pitm.full_box.version, 0);
    assert_eq!(pitm.full_box.flags, 0);
    assert_eq!(pitm.item_id, 0x1234);
}

#[test]
fn parses_pitm_version_one_item_id() {
    let mut payload = Vec::new();
    payload.extend_from_slice(&[0x01, 0x00, 0x00, 0x01]); // version=1, flags=1
    payload.extend_from_slice(&0x1234_5678_u32.to_be_bytes());
    let bytes = make_basic_box(*b"pitm", &payload);
    let top_level = parse_boxes(&bytes).expect("pitm box should parse");

    let pitm = top_level[0]
        .parse_pitm()
        .expect("pitm v1 payload should parse");
    assert_eq!(pitm.full_box.version, 1);
    assert_eq!(pitm.full_box.flags, 1);
    assert_eq!(pitm.item_id, 0x1234_5678);
}

#[test]
fn rejects_pitm_parse_for_non_pitm_box() {
    let bytes = make_basic_box(*b"free", &[0x00, 0x00, 0x00, 0x00]);
    let top_level = parse_boxes(&bytes).expect("free box should parse");

    let err = top_level[0]
        .parse_pitm()
        .expect_err("parsing non-pitm as pitm must fail");
    assert_eq!(
        err,
        ParsePrimaryItemBoxError::UnexpectedBoxType {
            offset: 0,
            actual: FourCc::new(*b"free")
        }
    );
}

#[test]
fn rejects_pitm_parse_for_unsupported_full_box_version() {
    let mut payload = Vec::new();
    payload.extend_from_slice(&[0x02, 0x00, 0x00, 0x00]); // version=2, flags=0
    payload.extend_from_slice(&0x1234_5678_u32.to_be_bytes());
    let bytes = make_basic_box(*b"pitm", &payload);
    let top_level = parse_boxes(&bytes).expect("pitm box should parse");

    let err = top_level[0]
        .parse_pitm()
        .expect_err("unsupported pitm version must fail");
    assert_eq!(
        err,
        ParsePrimaryItemBoxError::UnsupportedVersion {
            offset: BASIC_HEADER_SIZE as u64,
            version: 2
        }
    );
}

#[test]
fn rejects_pitm_parse_when_item_id_field_is_truncated() {
    let mut payload = Vec::new();
    payload.extend_from_slice(&[0x01, 0x00, 0x00, 0x00]); // version=1, flags=0
    payload.extend_from_slice(&[0xaa, 0xbb, 0xcc]); // one byte short
    let bytes = make_basic_box(*b"pitm", &payload);
    let top_level = parse_boxes(&bytes).expect("pitm box should parse");

    let err = top_level[0]
        .parse_pitm()
        .expect_err("truncated pitm item_ID must fail");
    assert_eq!(
        err,
        ParsePrimaryItemBoxError::PayloadTooSmallForItemId {
            offset: (BASIC_HEADER_SIZE + FULL_BOX_HEADER_SIZE) as u64,
            version: 1,
            available: 3,
            required: 4,
        }
    );
}

#[test]
fn rejects_pitm_parse_when_full_box_header_is_truncated() {
    let bytes = make_basic_box(*b"pitm", &[0x01, 0x02, 0x03]);
    let top_level = parse_boxes(&bytes).expect("pitm box should parse");

    let err = top_level[0]
        .parse_pitm()
        .expect_err("pitm with short full box header must fail");
    assert_eq!(
        err,
        ParsePrimaryItemBoxError::FullBox(ParseFullBoxError::PayloadTooSmall {
            offset: BASIC_HEADER_SIZE as u64,
            available: 3
        })
    );
}

#[test]
fn parses_iloc_version_zero_item_and_extent() {
    let mut payload = Vec::new();
    payload.extend_from_slice(&[0x00, 0x00, 0x00, 0x00]); // version=0, flags=0
    payload.extend_from_slice(&0x4440_u16.to_be_bytes()); // offset/length/base_offset=4
    payload.extend_from_slice(&1_u16.to_be_bytes()); // item_count
    payload.extend_from_slice(&0x1234_u16.to_be_bytes()); // item_ID
    payload.extend_from_slice(&0_u16.to_be_bytes()); // data_reference_index
    payload.extend_from_slice(&0x0102_0304_u32.to_be_bytes()); // base_offset
    payload.extend_from_slice(&1_u16.to_be_bytes()); // extent_count
    payload.extend_from_slice(&0x10_u32.to_be_bytes()); // extent_offset
    payload.extend_from_slice(&0x20_u32.to_be_bytes()); // extent_length
    let bytes = make_basic_box(*b"iloc", &payload);
    let top_level = parse_boxes(&bytes).expect("iloc box should parse");

    let iloc = top_level[0]
        .parse_iloc()
        .expect("iloc v0 payload should parse");
    assert_eq!(iloc.full_box.version, 0);
    assert_eq!(iloc.full_box.flags, 0);
    assert_eq!(iloc.offset_size, 4);
    assert_eq!(iloc.length_size, 4);
    assert_eq!(iloc.base_offset_size, 4);
    assert_eq!(iloc.index_size, 0);
    assert_eq!(iloc.items.len(), 1);
    assert_eq!(iloc.items[0].item_id, 0x1234);
    assert_eq!(iloc.items[0].construction_method, 0);
    assert_eq!(iloc.items[0].data_reference_index, 0);
    assert_eq!(iloc.items[0].base_offset, 0x0102_0304);
    assert_eq!(iloc.items[0].extents.len(), 1);
    assert_eq!(iloc.items[0].extents[0].index, 0);
    assert_eq!(iloc.items[0].extents[0].offset, 0x10);
    assert_eq!(iloc.items[0].extents[0].length, 0x20);
}

#[test]
fn parses_iloc_version_two_with_index_and_u64_fields() {
    let mut payload = Vec::new();
    payload.extend_from_slice(&[0x02, 0x00, 0x00, 0x00]); // version=2, flags=0
    payload.extend_from_slice(&0x8884_u16.to_be_bytes()); // offset/length/base_offset=8, index=4
    payload.extend_from_slice(&1_u32.to_be_bytes()); // item_count
    payload.extend_from_slice(&0x1122_3344_u32.to_be_bytes()); // item_ID
    payload.extend_from_slice(&0x0002_u16.to_be_bytes()); // construction_method=2
    payload.extend_from_slice(&1_u16.to_be_bytes()); // data_reference_index
    payload.extend_from_slice(&0x0102_0304_0506_0708_u64.to_be_bytes()); // base_offset
    payload.extend_from_slice(&1_u16.to_be_bytes()); // extent_count
    payload.extend_from_slice(&5_u32.to_be_bytes()); // extent_index
    payload.extend_from_slice(&0x10_u64.to_be_bytes()); // extent_offset
    payload.extend_from_slice(&0x20_u64.to_be_bytes()); // extent_length
    let bytes = make_basic_box(*b"iloc", &payload);
    let top_level = parse_boxes(&bytes).expect("iloc box should parse");

    let iloc = top_level[0]
        .parse_iloc()
        .expect("iloc v2 payload should parse");
    assert_eq!(iloc.full_box.version, 2);
    assert_eq!(iloc.offset_size, 8);
    assert_eq!(iloc.length_size, 8);
    assert_eq!(iloc.base_offset_size, 8);
    assert_eq!(iloc.index_size, 4);
    assert_eq!(iloc.items.len(), 1);
    assert_eq!(iloc.items[0].item_id, 0x1122_3344);
    assert_eq!(iloc.items[0].construction_method, 2);
    assert_eq!(iloc.items[0].data_reference_index, 1);
    assert_eq!(iloc.items[0].base_offset, 0x0102_0304_0506_0708);
    assert_eq!(iloc.items[0].extents.len(), 1);
    assert_eq!(iloc.items[0].extents[0].index, 5);
    assert_eq!(iloc.items[0].extents[0].offset, 0x10);
    assert_eq!(iloc.items[0].extents[0].length, 0x20);
}

#[test]
fn rejects_iloc_parse_for_non_iloc_box() {
    let bytes = make_basic_box(*b"free", &[0x00, 0x00, 0x00, 0x00]);
    let top_level = parse_boxes(&bytes).expect("free box should parse");

    let err = top_level[0]
        .parse_iloc()
        .expect_err("parsing non-iloc as iloc must fail");
    assert_eq!(
        err,
        ParseItemLocationBoxError::UnexpectedBoxType {
            offset: 0,
            actual: FourCc::new(*b"free")
        }
    );
}

#[test]
fn rejects_iloc_parse_for_unsupported_full_box_version() {
    let bytes = make_basic_box(*b"iloc", &[0x03, 0x00, 0x00, 0x00]);
    let top_level = parse_boxes(&bytes).expect("iloc box should parse");

    let err = top_level[0]
        .parse_iloc()
        .expect_err("unsupported iloc version must fail");
    assert_eq!(
        err,
        ParseItemLocationBoxError::UnsupportedVersion {
            offset: BASIC_HEADER_SIZE as u64,
            version: 3
        }
    );
}

#[test]
fn rejects_iloc_parse_for_invalid_base_offset_size() {
    let mut payload = Vec::new();
    payload.extend_from_slice(&[0x00, 0x00, 0x00, 0x00]); // version=0, flags=0
    payload.extend_from_slice(&0x4420_u16.to_be_bytes()); // base_offset_size=2 (invalid)
    let bytes = make_basic_box(*b"iloc", &payload);
    let top_level = parse_boxes(&bytes).expect("iloc box should parse");

    let err = top_level[0]
        .parse_iloc()
        .expect_err("invalid iloc base_offset_size must fail");
    assert_eq!(
        err,
        ParseItemLocationBoxError::UnsupportedFieldSize {
            offset: (BASIC_HEADER_SIZE + FULL_BOX_HEADER_SIZE) as u64,
            field: ItemLocationField::BaseOffset,
            size: 2,
        }
    );
}

#[test]
fn rejects_iloc_parse_for_invalid_index_size_on_version_one() {
    let mut payload = Vec::new();
    payload.extend_from_slice(&[0x01, 0x00, 0x00, 0x00]); // version=1, flags=0
    payload.extend_from_slice(&0x4442_u16.to_be_bytes()); // index_size=2 (invalid)
    let bytes = make_basic_box(*b"iloc", &payload);
    let top_level = parse_boxes(&bytes).expect("iloc box should parse");

    let err = top_level[0]
        .parse_iloc()
        .expect_err("invalid iloc index_size must fail");
    assert_eq!(
        err,
        ParseItemLocationBoxError::UnsupportedFieldSize {
            offset: (BASIC_HEADER_SIZE + FULL_BOX_HEADER_SIZE) as u64,
            field: ItemLocationField::Index,
            size: 2,
        }
    );
}

#[test]
fn rejects_iloc_parse_when_base_offset_is_truncated() {
    let mut payload = Vec::new();
    payload.extend_from_slice(&[0x00, 0x00, 0x00, 0x00]); // version=0, flags=0
    payload.extend_from_slice(&0x4440_u16.to_be_bytes()); // offset/length/base_offset=4
    payload.extend_from_slice(&1_u16.to_be_bytes()); // item_count
    payload.extend_from_slice(&1_u16.to_be_bytes()); // item_ID
    payload.extend_from_slice(&0_u16.to_be_bytes()); // data_reference_index
    payload.extend_from_slice(&[0xaa, 0xbb]); // truncated base_offset (needs 4 bytes)
    let bytes = make_basic_box(*b"iloc", &payload);
    let top_level = parse_boxes(&bytes).expect("iloc box should parse");

    let err = top_level[0]
        .parse_iloc()
        .expect_err("truncated base_offset must fail");
    assert_eq!(
        err,
        ParseItemLocationBoxError::PayloadTooSmall {
            offset: 20,
            context: "base_offset",
            available: 2,
            required: 4,
        }
    );
}

#[test]
fn parses_infe_version_two_entry_with_item_type() {
    let mut payload = Vec::new();
    payload.extend_from_slice(&[0x02, 0x00, 0x00, 0x01]); // version=2, flags=1 (hidden)
    payload.extend_from_slice(&0x0042_u16.to_be_bytes()); // item_ID
    payload.extend_from_slice(&0_u16.to_be_bytes()); // item_protection_index
    payload.extend_from_slice(b"av01"); // item_type
    payload.extend_from_slice(b"primary\0"); // item_name
    let bytes = make_basic_box(*b"infe", &payload);
    let top_level = parse_boxes(&bytes).expect("infe box should parse");

    let infe = top_level[0]
        .parse_infe()
        .expect("infe v2 payload should parse");
    assert_eq!(infe.full_box.version, 2);
    assert_eq!(infe.full_box.flags, 1);
    assert_eq!(infe.item_id, 0x42);
    assert_eq!(infe.item_protection_index, 0);
    assert_eq!(infe.item_type, Some(FourCc::new(*b"av01")));
    assert_eq!(infe.item_name, b"primary".to_vec());
    assert_eq!(infe.content_type, None);
    assert_eq!(infe.content_encoding, None);
    assert_eq!(infe.item_uri_type, None);
    assert!(infe.hidden_item);
}

#[test]
fn parses_infe_version_three_mime_entry_fields() {
    let mut payload = Vec::new();
    payload.extend_from_slice(&[0x03, 0x00, 0x00, 0x00]); // version=3, flags=0
    payload.extend_from_slice(&0x1234_5678_u32.to_be_bytes()); // item_ID
    payload.extend_from_slice(&2_u16.to_be_bytes()); // item_protection_index
    payload.extend_from_slice(b"mime"); // item_type
    payload.extend_from_slice(b"Exif\0"); // item_name
    payload.extend_from_slice(b"application/rdf+xml\0"); // content_type
    payload.extend_from_slice(b"compress_zlib\0"); // content_encoding
    let bytes = make_basic_box(*b"infe", &payload);
    let top_level = parse_boxes(&bytes).expect("infe box should parse");

    let infe = top_level[0]
        .parse_infe()
        .expect("infe v3 MIME payload should parse");
    assert_eq!(infe.full_box.version, 3);
    assert_eq!(infe.item_id, 0x1234_5678);
    assert_eq!(infe.item_protection_index, 2);
    assert_eq!(infe.item_type, Some(FourCc::new(*b"mime")));
    assert_eq!(infe.item_name, b"Exif".to_vec());
    assert_eq!(infe.content_type, Some(b"application/rdf+xml".to_vec()));
    assert_eq!(infe.content_encoding, Some(b"compress_zlib".to_vec()));
    assert_eq!(infe.item_uri_type, None);
    assert!(!infe.hidden_item);
}

#[test]
fn parses_infe_version_zero_legacy_fields() {
    let mut payload = Vec::new();
    payload.extend_from_slice(&[0x00, 0x00, 0x00, 0x00]); // version=0, flags=0
    payload.extend_from_slice(&0x0203_u16.to_be_bytes()); // item_ID
    payload.extend_from_slice(&0x0001_u16.to_be_bytes()); // item_protection_index
    payload.extend_from_slice(b"legacy\0"); // item_name
    payload.extend_from_slice(b"image/jpeg\0"); // content_type
    payload.extend_from_slice(b"gzip\0"); // content_encoding
    let bytes = make_basic_box(*b"infe", &payload);
    let top_level = parse_boxes(&bytes).expect("infe box should parse");

    let infe = top_level[0]
        .parse_infe()
        .expect("infe v0 payload should parse");
    assert_eq!(infe.full_box.version, 0);
    assert_eq!(infe.item_id, 0x0203);
    assert_eq!(infe.item_protection_index, 1);
    assert_eq!(infe.item_type, None);
    assert_eq!(infe.item_name, b"legacy".to_vec());
    assert_eq!(infe.content_type, Some(b"image/jpeg".to_vec()));
    assert_eq!(infe.content_encoding, Some(b"gzip".to_vec()));
    assert_eq!(infe.item_uri_type, None);
    assert!(!infe.hidden_item);
}

#[test]
fn rejects_infe_parse_for_non_infe_box() {
    let bytes = make_basic_box(*b"free", &[0x00, 0x00, 0x00, 0x00]);
    let top_level = parse_boxes(&bytes).expect("free box should parse");

    let err = top_level[0]
        .parse_infe()
        .expect_err("parsing non-infe as infe must fail");
    assert_eq!(
        err,
        ParseItemInfoEntryBoxError::UnexpectedBoxType {
            offset: 0,
            actual: FourCc::new(*b"free"),
        }
    );
}

#[test]
fn rejects_infe_parse_for_unsupported_version() {
    let bytes = make_basic_box(*b"infe", &[0x04, 0x00, 0x00, 0x00]);
    let top_level = parse_boxes(&bytes).expect("infe box should parse");

    let err = top_level[0]
        .parse_infe()
        .expect_err("unsupported infe version must fail");
    assert_eq!(
        err,
        ParseItemInfoEntryBoxError::UnsupportedVersion {
            offset: BASIC_HEADER_SIZE as u64,
            version: 4,
        }
    );
}

#[test]
fn rejects_infe_parse_when_item_id_is_truncated() {
    let mut payload = Vec::new();
    payload.extend_from_slice(&[0x03, 0x00, 0x00, 0x00]); // version=3, flags=0
    payload.extend_from_slice(&[0xaa, 0xbb, 0xcc]); // truncated item_ID
    let bytes = make_basic_box(*b"infe", &payload);
    let top_level = parse_boxes(&bytes).expect("infe box should parse");

    let err = top_level[0]
        .parse_infe()
        .expect_err("truncated infe item_ID must fail");
    assert_eq!(
        err,
        ParseItemInfoEntryBoxError::PayloadTooSmall {
            offset: (BASIC_HEADER_SIZE + FULL_BOX_HEADER_SIZE) as u64,
            context: "item_ID",
            available: 3,
            required: 4,
        }
    );
}

#[test]
fn parses_iinf_version_zero_with_infe_entries() {
    let mut infe_payload = Vec::new();
    infe_payload.extend_from_slice(&[0x02, 0x00, 0x00, 0x01]); // version=2, flags=1
    infe_payload.extend_from_slice(&0x0001_u16.to_be_bytes()); // item_ID
    infe_payload.extend_from_slice(&0_u16.to_be_bytes()); // item_protection_index
    infe_payload.extend_from_slice(b"av01"); // item_type
    infe_payload.extend_from_slice(b"primary\0"); // item_name
    let infe = make_basic_box(*b"infe", &infe_payload);

    let mut iinf_payload = Vec::new();
    iinf_payload.extend_from_slice(&[0x00, 0x00, 0x00, 0x00]); // version=0, flags=0
    iinf_payload.extend_from_slice(&1_u16.to_be_bytes()); // item_count
    iinf_payload.extend_from_slice(&infe);
    let bytes = make_basic_box(*b"iinf", &iinf_payload);
    let top_level = parse_boxes(&bytes).expect("iinf box should parse");

    let iinf = top_level[0]
        .parse_iinf()
        .expect("iinf payload should parse");
    assert_eq!(iinf.full_box.version, 0);
    assert_eq!(iinf.item_count, 1);
    assert_eq!(iinf.entries.len(), 1);
    assert_eq!(iinf.entries[0].item_id, 1);
    assert_eq!(iinf.entries[0].item_type, Some(FourCc::new(*b"av01")));
    assert!(iinf.entries[0].hidden_item);
}

#[test]
fn parses_iinf_version_one_with_u32_count() {
    let mut infe_payload = Vec::new();
    infe_payload.extend_from_slice(&[0x02, 0x00, 0x00, 0x00]); // version=2, flags=0
    infe_payload.extend_from_slice(&0x0020_u16.to_be_bytes()); // item_ID
    infe_payload.extend_from_slice(&0_u16.to_be_bytes()); // item_protection_index
    infe_payload.extend_from_slice(b"hvc1"); // item_type
    infe_payload.extend_from_slice(b"image\0"); // item_name
    let infe = make_basic_box(*b"infe", &infe_payload);

    let mut iinf_payload = Vec::new();
    iinf_payload.extend_from_slice(&[0x01, 0x00, 0x00, 0x00]); // version=1, flags=0
    iinf_payload.extend_from_slice(&1_u32.to_be_bytes()); // item_count
    iinf_payload.extend_from_slice(&infe);
    let bytes = make_basic_box(*b"iinf", &iinf_payload);
    let top_level = parse_boxes(&bytes).expect("iinf box should parse");

    let iinf = top_level[0]
        .parse_iinf()
        .expect("iinf v1 payload should parse");
    assert_eq!(iinf.full_box.version, 1);
    assert_eq!(iinf.item_count, 1);
    assert_eq!(iinf.entries.len(), 1);
    assert_eq!(iinf.entries[0].item_id, 0x20);
    assert_eq!(iinf.entries[0].item_type, Some(FourCc::new(*b"hvc1")));
}

#[test]
fn rejects_iinf_parse_for_non_iinf_box() {
    let bytes = make_basic_box(*b"free", &[0x00, 0x00, 0x00, 0x00]);
    let top_level = parse_boxes(&bytes).expect("free box should parse");

    let err = top_level[0]
        .parse_iinf()
        .expect_err("parsing non-iinf as iinf must fail");
    assert_eq!(
        err,
        ParseItemInfoBoxError::UnexpectedBoxType {
            offset: 0,
            actual: FourCc::new(*b"free"),
        }
    );
}

#[test]
fn rejects_iinf_when_declared_entry_count_mismatches_payload() {
    let mut infe_payload = Vec::new();
    infe_payload.extend_from_slice(&[0x02, 0x00, 0x00, 0x00]); // version=2, flags=0
    infe_payload.extend_from_slice(&0x0001_u16.to_be_bytes()); // item_ID
    infe_payload.extend_from_slice(&0_u16.to_be_bytes()); // item_protection_index
    infe_payload.extend_from_slice(b"av01");
    infe_payload.extend_from_slice(b"a\0");
    let infe = make_basic_box(*b"infe", &infe_payload);

    let mut iinf_payload = Vec::new();
    iinf_payload.extend_from_slice(&[0x00, 0x00, 0x00, 0x00]); // version=0, flags=0
    iinf_payload.extend_from_slice(&2_u16.to_be_bytes()); // item_count (mismatch)
    iinf_payload.extend_from_slice(&infe); // only one entry present
    let bytes = make_basic_box(*b"iinf", &iinf_payload);
    let top_level = parse_boxes(&bytes).expect("iinf box should parse");

    let err = top_level[0]
        .parse_iinf()
        .expect_err("mismatched iinf item_count must fail");
    assert_eq!(
        err,
        ParseItemInfoBoxError::DeclaredEntryCountMismatch {
            offset: (BASIC_HEADER_SIZE + FULL_BOX_HEADER_SIZE + 2) as u64,
            declared: 2,
            parsed: 1,
        }
    );
}

#[test]
fn rejects_iinf_when_child_box_type_is_not_infe() {
    let child = make_basic_box(*b"free", &[0x01, 0x02, 0x03, 0x04]);
    let mut payload = Vec::new();
    payload.extend_from_slice(&[0x00, 0x00, 0x00, 0x00]); // version=0, flags=0
    payload.extend_from_slice(&1_u16.to_be_bytes()); // item_count
    payload.extend_from_slice(&child);
    let bytes = make_basic_box(*b"iinf", &payload);
    let top_level = parse_boxes(&bytes).expect("iinf box should parse");

    let err = top_level[0]
        .parse_iinf()
        .expect_err("unexpected iinf child type must fail");
    assert_eq!(
        err,
        ParseItemInfoBoxError::UnexpectedEntryBoxType {
            offset: (BASIC_HEADER_SIZE + FULL_BOX_HEADER_SIZE + 2) as u64,
            actual: FourCc::new(*b"free"),
        }
    );
}

#[test]
fn rejects_iinf_when_item_count_field_is_truncated() {
    let mut payload = Vec::new();
    payload.extend_from_slice(&[0x01, 0x00, 0x00, 0x00]); // version=1, flags=0
    payload.extend_from_slice(&[0xaa, 0xbb]); // truncated 32-bit item_count
    let bytes = make_basic_box(*b"iinf", &payload);
    let top_level = parse_boxes(&bytes).expect("iinf box should parse");

    let err = top_level[0]
        .parse_iinf()
        .expect_err("truncated iinf item_count must fail");
    assert_eq!(
        err,
        ParseItemInfoBoxError::PayloadTooSmall {
            offset: (BASIC_HEADER_SIZE + FULL_BOX_HEADER_SIZE) as u64,
            context: "item_count",
            available: 2,
            required: 4,
        }
    );
}

#[test]
fn parses_iref_version_zero_typed_references() {
    let mut dimg_payload = Vec::new();
    dimg_payload.extend_from_slice(&0x0002_u16.to_be_bytes()); // from_item_ID
    dimg_payload.extend_from_slice(&2_u16.to_be_bytes()); // reference_count
    dimg_payload.extend_from_slice(&0x0010_u16.to_be_bytes()); // to_item_ID[0]
    dimg_payload.extend_from_slice(&0x0011_u16.to_be_bytes()); // to_item_ID[1]
    let dimg = make_basic_box(*b"dimg", &dimg_payload);

    let mut thmb_payload = Vec::new();
    thmb_payload.extend_from_slice(&0x0002_u16.to_be_bytes()); // from_item_ID
    thmb_payload.extend_from_slice(&1_u16.to_be_bytes()); // reference_count
    thmb_payload.extend_from_slice(&0x0005_u16.to_be_bytes()); // to_item_ID[0]
    let thmb = make_basic_box(*b"thmb", &thmb_payload);

    let mut iref_payload = Vec::new();
    iref_payload.extend_from_slice(&[0x00, 0x00, 0x00, 0x00]); // version=0, flags=0
    iref_payload.extend_from_slice(&dimg);
    iref_payload.extend_from_slice(&thmb);
    let bytes = make_basic_box(*b"iref", &iref_payload);
    let top_level = parse_boxes(&bytes).expect("iref box should parse");

    let iref = top_level[0]
        .parse_iref()
        .expect("iref v0 payload should parse");
    assert_eq!(iref.full_box.version, 0);
    assert_eq!(iref.references.len(), 2);
    assert_eq!(iref.references[0].reference_type, FourCc::new(*b"dimg"));
    assert_eq!(iref.references[0].from_item_id, 2);
    assert_eq!(iref.references[0].to_item_ids, vec![16, 17]);
    assert_eq!(iref.references[1].reference_type, FourCc::new(*b"thmb"));
    assert_eq!(iref.references[1].from_item_id, 2);
    assert_eq!(iref.references[1].to_item_ids, vec![5]);
}

#[test]
fn parses_iref_version_one_with_u32_item_ids() {
    let mut auxl_payload = Vec::new();
    auxl_payload.extend_from_slice(&0x1122_3344_u32.to_be_bytes()); // from_item_ID
    auxl_payload.extend_from_slice(&1_u16.to_be_bytes()); // reference_count
    auxl_payload.extend_from_slice(&0x5566_7788_u32.to_be_bytes()); // to_item_ID[0]
    let auxl = make_basic_box(*b"auxl", &auxl_payload);

    let mut iref_payload = Vec::new();
    iref_payload.extend_from_slice(&[0x01, 0x00, 0x00, 0x00]); // version=1, flags=0
    iref_payload.extend_from_slice(&auxl);
    let bytes = make_basic_box(*b"iref", &iref_payload);
    let top_level = parse_boxes(&bytes).expect("iref box should parse");

    let iref = top_level[0]
        .parse_iref()
        .expect("iref v1 payload should parse");
    assert_eq!(iref.full_box.version, 1);
    assert_eq!(iref.references.len(), 1);
    assert_eq!(iref.references[0].reference_type, FourCc::new(*b"auxl"));
    assert_eq!(iref.references[0].from_item_id, 0x1122_3344);
    assert_eq!(iref.references[0].to_item_ids, vec![0x5566_7788]);
}

#[test]
fn rejects_iref_parse_for_non_iref_box() {
    let bytes = make_basic_box(*b"free", &[0x00, 0x00, 0x00, 0x00]);
    let top_level = parse_boxes(&bytes).expect("free box should parse");

    let err = top_level[0]
        .parse_iref()
        .expect_err("parsing non-iref as iref must fail");
    assert_eq!(
        err,
        ParseItemReferenceBoxError::UnexpectedBoxType {
            offset: 0,
            actual: FourCc::new(*b"free"),
        }
    );
}

#[test]
fn rejects_iref_parse_for_unsupported_version() {
    let bytes = make_basic_box(*b"iref", &[0x02, 0x00, 0x00, 0x00]);
    let top_level = parse_boxes(&bytes).expect("iref box should parse");

    let err = top_level[0]
        .parse_iref()
        .expect_err("unsupported iref version must fail");
    assert_eq!(
        err,
        ParseItemReferenceBoxError::UnsupportedVersion {
            offset: BASIC_HEADER_SIZE as u64,
            version: 2,
        }
    );
}

#[test]
fn rejects_iref_parse_when_reference_target_id_is_truncated() {
    let mut dimg_payload = Vec::new();
    dimg_payload.extend_from_slice(&0x0002_u16.to_be_bytes()); // from_item_ID
    dimg_payload.extend_from_slice(&1_u16.to_be_bytes()); // reference_count
    let dimg = make_basic_box(*b"dimg", &dimg_payload);

    let mut iref_payload = Vec::new();
    iref_payload.extend_from_slice(&[0x00, 0x00, 0x00, 0x00]); // version=0, flags=0
    iref_payload.extend_from_slice(&dimg);
    let bytes = make_basic_box(*b"iref", &iref_payload);
    let top_level = parse_boxes(&bytes).expect("iref box should parse");

    let err = top_level[0]
        .parse_iref()
        .expect_err("truncated to_item_ID must fail");
    assert_eq!(
        err,
        ParseItemReferenceBoxError::PayloadTooSmall {
            offset: 24,
            context: "to_item_ID",
            available: 0,
            required: 2,
        }
    );
}

#[test]
fn rejects_iref_parse_when_reference_count_is_zero() {
    let mut dimg_payload = Vec::new();
    dimg_payload.extend_from_slice(&0x0002_u16.to_be_bytes()); // from_item_ID
    dimg_payload.extend_from_slice(&0_u16.to_be_bytes()); // reference_count (invalid)
    let dimg = make_basic_box(*b"dimg", &dimg_payload);

    let mut iref_payload = Vec::new();
    iref_payload.extend_from_slice(&[0x00, 0x00, 0x00, 0x00]); // version=0, flags=0
    iref_payload.extend_from_slice(&dimg);
    let bytes = make_basic_box(*b"iref", &iref_payload);
    let top_level = parse_boxes(&bytes).expect("iref box should parse");

    let err = top_level[0]
        .parse_iref()
        .expect_err("zero reference_count must fail");
    assert_eq!(
        err,
        ParseItemReferenceBoxError::EmptyReferenceList {
            offset: 22,
            reference_type: FourCc::new(*b"dimg"),
        }
    );
}

#[test]
fn parses_ipco_child_property_boxes() {
    let prop_a = make_basic_box(*b"ispe", &[0x01, 0x02, 0x03, 0x04]);
    let prop_b = make_basic_box(*b"pixi", &[0x08, 0x08, 0x08]);
    let mut payload = Vec::new();
    payload.extend_from_slice(&prop_a);
    payload.extend_from_slice(&prop_b);
    let bytes = make_basic_box(*b"ipco", &payload);
    let top_level = parse_boxes(&bytes).expect("ipco box should parse");

    let ipco = top_level[0]
        .parse_ipco()
        .expect("ipco payload should parse");
    assert_eq!(ipco.properties.len(), 2);
    assert_eq!(ipco.properties[0].header.box_type.as_bytes(), *b"ispe");
    assert_eq!(ipco.properties[1].header.box_type.as_bytes(), *b"pixi");
    assert_eq!(ipco.properties[0].offset, BASIC_HEADER_SIZE as u64);
    assert_eq!(
        ipco.properties[1].offset,
        BASIC_HEADER_SIZE as u64 + prop_a.len() as u64
    );
}

#[test]
fn rejects_ipco_parse_for_non_ipco_box() {
    let bytes = make_basic_box(*b"free", &[0x00, 0x00, 0x00, 0x00]);
    let top_level = parse_boxes(&bytes).expect("free box should parse");

    let err = top_level[0]
        .parse_ipco()
        .expect_err("parsing non-ipco as ipco must fail");
    assert_eq!(
        err,
        ParseItemPropertyContainerBoxError::UnexpectedBoxType {
            offset: 0,
            actual: FourCc::new(*b"free"),
        }
    );
}

#[test]
fn parses_ipma_version_zero_with_compact_associations() {
    let mut payload = Vec::new();
    payload.extend_from_slice(&[0x00, 0x00, 0x00, 0x00]); // version=0, flags=0
    payload.extend_from_slice(&1_u32.to_be_bytes()); // entry_count
    payload.extend_from_slice(&0x1234_u16.to_be_bytes()); // item_ID
    payload.push(2); // association_count
    payload.push(0x81); // essential=true, property_index=1
    payload.push(0x05); // essential=false, property_index=5
    let bytes = make_basic_box(*b"ipma", &payload);
    let top_level = parse_boxes(&bytes).expect("ipma box should parse");

    let ipma = top_level[0]
        .parse_ipma()
        .expect("ipma v0 payload should parse");
    assert_eq!(ipma.full_box.version, 0);
    assert_eq!(ipma.full_box.flags, 0);
    assert_eq!(ipma.entry_count, 1);
    assert_eq!(ipma.entries.len(), 1);
    assert_eq!(ipma.entries[0].item_id, 0x1234);
    assert_eq!(ipma.entries[0].associations.len(), 2);
    assert_eq!(ipma.entries[0].associations[0].property_index, 1);
    assert!(ipma.entries[0].associations[0].essential);
    assert_eq!(ipma.entries[0].associations[1].property_index, 5);
    assert!(!ipma.entries[0].associations[1].essential);
}

#[test]
fn parses_ipma_version_one_with_extended_associations() {
    let mut payload = Vec::new();
    payload.extend_from_slice(&[0x01, 0x00, 0x00, 0x01]); // version=1, flags=1
    payload.extend_from_slice(&1_u32.to_be_bytes()); // entry_count
    payload.extend_from_slice(&0x1122_3344_u32.to_be_bytes()); // item_ID
    payload.push(2); // association_count
    payload.extend_from_slice(&0x8002_u16.to_be_bytes()); // essential=true, property_index=2
    payload.extend_from_slice(&0x00ff_u16.to_be_bytes()); // essential=false, property_index=255
    let bytes = make_basic_box(*b"ipma", &payload);
    let top_level = parse_boxes(&bytes).expect("ipma box should parse");

    let ipma = top_level[0]
        .parse_ipma()
        .expect("ipma v1 payload should parse");
    assert_eq!(ipma.full_box.version, 1);
    assert_eq!(ipma.full_box.flags, 1);
    assert_eq!(ipma.entry_count, 1);
    assert_eq!(ipma.entries.len(), 1);
    assert_eq!(ipma.entries[0].item_id, 0x1122_3344);
    assert_eq!(ipma.entries[0].associations.len(), 2);
    assert_eq!(ipma.entries[0].associations[0].property_index, 2);
    assert!(ipma.entries[0].associations[0].essential);
    assert_eq!(ipma.entries[0].associations[1].property_index, 255);
    assert!(!ipma.entries[0].associations[1].essential);
}

#[test]
fn rejects_ipma_parse_for_non_ipma_box() {
    let bytes = make_basic_box(*b"free", &[0x00, 0x00, 0x00, 0x00]);
    let top_level = parse_boxes(&bytes).expect("free box should parse");

    let err = top_level[0]
        .parse_ipma()
        .expect_err("parsing non-ipma as ipma must fail");
    assert_eq!(
        err,
        ParseItemPropertyAssociationBoxError::UnexpectedBoxType {
            offset: 0,
            actual: FourCc::new(*b"free"),
        }
    );
}

#[test]
fn rejects_ipma_parse_for_unsupported_version() {
    let bytes = make_basic_box(*b"ipma", &[0x02, 0x00, 0x00, 0x00]);
    let top_level = parse_boxes(&bytes).expect("ipma box should parse");

    let err = top_level[0]
        .parse_ipma()
        .expect_err("unsupported ipma version must fail");
    assert_eq!(
        err,
        ParseItemPropertyAssociationBoxError::UnsupportedVersion {
            offset: BASIC_HEADER_SIZE as u64,
            version: 2,
        }
    );
}

#[test]
fn rejects_ipma_parse_when_entry_count_field_is_truncated() {
    let mut payload = Vec::new();
    payload.extend_from_slice(&[0x00, 0x00, 0x00, 0x00]); // version=0, flags=0
    payload.extend_from_slice(&[0xaa, 0xbb]); // truncated entry_count
    let bytes = make_basic_box(*b"ipma", &payload);
    let top_level = parse_boxes(&bytes).expect("ipma box should parse");

    let err = top_level[0]
        .parse_ipma()
        .expect_err("truncated ipma entry_count must fail");
    assert_eq!(
        err,
        ParseItemPropertyAssociationBoxError::PayloadTooSmall {
            offset: (BASIC_HEADER_SIZE + FULL_BOX_HEADER_SIZE) as u64,
            context: "entry_count",
            available: 2,
            required: 4,
        }
    );
}

#[test]
fn rejects_ipma_parse_when_association_field_is_truncated() {
    let mut payload = Vec::new();
    payload.extend_from_slice(&[0x01, 0x00, 0x00, 0x01]); // version=1, flags=1
    payload.extend_from_slice(&1_u32.to_be_bytes()); // entry_count
    payload.extend_from_slice(&0x1122_3344_u32.to_be_bytes()); // item_ID
    payload.push(1); // association_count
    payload.push(0x80); // truncated 16-bit association
    let bytes = make_basic_box(*b"ipma", &payload);
    let top_level = parse_boxes(&bytes).expect("ipma box should parse");

    let err = top_level[0]
        .parse_ipma()
        .expect_err("truncated ipma association must fail");
    assert_eq!(
        err,
        ParseItemPropertyAssociationBoxError::PayloadTooSmall {
            offset: 21,
            context: "association",
            available: 1,
            required: 2,
        }
    );
}

#[test]
fn parses_iprp_with_ipco_and_ipma_children() {
    let property = make_basic_box(*b"ispe", &[0x00, 0x00, 0x00, 0x00]);
    let ipco = make_basic_box(*b"ipco", &property);

    let mut ipma_payload = Vec::new();
    ipma_payload.extend_from_slice(&[0x00, 0x00, 0x00, 0x00]); // version=0, flags=0
    ipma_payload.extend_from_slice(&1_u32.to_be_bytes()); // entry_count
    ipma_payload.extend_from_slice(&0x0001_u16.to_be_bytes()); // item_ID
    ipma_payload.push(1); // association_count
    ipma_payload.push(0x01); // property_index=1
    let ipma = make_basic_box(*b"ipma", &ipma_payload);

    let unknown = make_basic_box(*b"free", &[0x01, 0x02, 0x03, 0x04]);

    let mut iprp_payload = Vec::new();
    iprp_payload.extend_from_slice(&ipco);
    iprp_payload.extend_from_slice(&unknown);
    iprp_payload.extend_from_slice(&ipma);
    let bytes = make_basic_box(*b"iprp", &iprp_payload);
    let top_level = parse_boxes(&bytes).expect("iprp box should parse");

    let iprp = top_level[0]
        .parse_iprp()
        .expect("iprp payload should parse");
    assert_eq!(iprp.property_containers.len(), 1);
    assert_eq!(iprp.associations.len(), 1);
    assert_eq!(iprp.property_containers[0].properties.len(), 1);
    assert_eq!(
        iprp.property_containers[0].properties[0]
            .header
            .box_type
            .as_bytes(),
        *b"ispe"
    );
    assert_eq!(iprp.associations[0].entries.len(), 1);
    assert_eq!(iprp.associations[0].entries[0].item_id, 1);
    assert_eq!(
        iprp.associations[0].entries[0].associations[0].property_index,
        1
    );
}

#[test]
fn rejects_iprp_parse_for_non_iprp_box() {
    let bytes = make_basic_box(*b"free", &[0x00, 0x00, 0x00, 0x00]);
    let top_level = parse_boxes(&bytes).expect("free box should parse");

    let err = top_level[0]
        .parse_iprp()
        .expect_err("parsing non-iprp as iprp must fail");
    assert_eq!(
        err,
        ParseItemPropertiesBoxError::UnexpectedBoxType {
            offset: 0,
            actual: FourCc::new(*b"free"),
        }
    );
}

#[test]
fn rejects_iprp_parse_when_child_box_is_out_of_bounds() {
    let mut invalid_child = Vec::new();
    invalid_child.extend_from_slice(&16_u32.to_be_bytes());
    invalid_child.extend_from_slice(b"ipco");
    invalid_child.extend_from_slice(&[0xaa, 0xbb, 0xcc, 0xdd]);
    let bytes = make_basic_box(*b"iprp", &invalid_child);
    let top_level = parse_boxes(&bytes).expect("iprp box should parse");

    let err = top_level[0]
        .parse_iprp()
        .expect_err("invalid iprp child bounds must fail");
    assert_eq!(
        err,
        ParseItemPropertiesBoxError::ChildBox(ParseBoxError::BoxOutOfBounds {
            offset: BASIC_HEADER_SIZE as u64,
            box_size: 16,
            available: 12,
        })
    );
}

#[test]
fn resolves_meta_primary_item_graph() {
    let pitm = make_basic_box(*b"pitm", &[0x00, 0x00, 0x00, 0x00, 0x00, 0x01]);

    let mut iloc_payload = Vec::new();
    iloc_payload.extend_from_slice(&[0x00, 0x00, 0x00, 0x00]); // version=0, flags=0
    iloc_payload.extend_from_slice(&0x0000_u16.to_be_bytes()); // all size fields are zero
    iloc_payload.extend_from_slice(&1_u16.to_be_bytes()); // item_count
    iloc_payload.extend_from_slice(&1_u16.to_be_bytes()); // item_ID
    iloc_payload.extend_from_slice(&0_u16.to_be_bytes()); // data_reference_index
    iloc_payload.extend_from_slice(&0_u16.to_be_bytes()); // extent_count
    let iloc = make_basic_box(*b"iloc", &iloc_payload);

    let mut infe_payload = Vec::new();
    infe_payload.extend_from_slice(&[0x02, 0x00, 0x00, 0x00]); // version=2, flags=0
    infe_payload.extend_from_slice(&1_u16.to_be_bytes()); // item_ID
    infe_payload.extend_from_slice(&0_u16.to_be_bytes()); // item_protection_index
    infe_payload.extend_from_slice(b"av01"); // item_type
    infe_payload.extend_from_slice(b"primary\0"); // item_name
    let infe = make_basic_box(*b"infe", &infe_payload);

    let mut iinf_payload = Vec::new();
    iinf_payload.extend_from_slice(&[0x00, 0x00, 0x00, 0x00]); // version=0, flags=0
    iinf_payload.extend_from_slice(&1_u16.to_be_bytes()); // item_count
    iinf_payload.extend_from_slice(&infe);
    let iinf = make_basic_box(*b"iinf", &iinf_payload);

    let ispe = make_basic_box(*b"ispe", &[0x00, 0x00, 0x00, 0x00]);
    let pixi = make_basic_box(*b"pixi", &[0x08, 0x08, 0x08]);
    let mut ipco_payload = Vec::new();
    ipco_payload.extend_from_slice(&ispe);
    ipco_payload.extend_from_slice(&pixi);
    let ipco = make_basic_box(*b"ipco", &ipco_payload);

    let mut ipma_payload = Vec::new();
    ipma_payload.extend_from_slice(&[0x00, 0x00, 0x00, 0x00]); // version=0, flags=0
    ipma_payload.extend_from_slice(&1_u32.to_be_bytes()); // entry_count
    ipma_payload.extend_from_slice(&1_u16.to_be_bytes()); // item_ID
    ipma_payload.push(2); // association_count
    ipma_payload.push(0x81); // essential=true, property_index=1
    ipma_payload.push(0x02); // essential=false, property_index=2
    let ipma = make_basic_box(*b"ipma", &ipma_payload);

    let mut iprp_payload = Vec::new();
    iprp_payload.extend_from_slice(&ipco);
    iprp_payload.extend_from_slice(&ipma);
    let iprp = make_basic_box(*b"iprp", &iprp_payload);

    let mut dimg_payload = Vec::new();
    dimg_payload.extend_from_slice(&1_u16.to_be_bytes()); // from_item_ID
    dimg_payload.extend_from_slice(&1_u16.to_be_bytes()); // reference_count
    dimg_payload.extend_from_slice(&2_u16.to_be_bytes()); // to_item_ID[0]
    let dimg = make_basic_box(*b"dimg", &dimg_payload);

    let mut iref_payload = Vec::new();
    iref_payload.extend_from_slice(&[0x00, 0x00, 0x00, 0x00]); // version=0, flags=0
    iref_payload.extend_from_slice(&dimg);
    let iref = make_basic_box(*b"iref", &iref_payload);

    let meta = make_meta_box(&[pitm, iloc, iinf, iprp, iref]);
    let top_level = parse_boxes(&meta).expect("meta box should parse");

    let parsed_meta = top_level[0].parse_meta().expect("meta should parse");
    let resolved = parsed_meta
        .resolve_primary_item()
        .expect("meta primary resolver should succeed");
    assert_eq!(resolved.pitm.item_id, 1);
    assert_eq!(resolved.primary_item.item_id, 1);
    assert_eq!(
        resolved.primary_item.item_info.item_type,
        Some(FourCc::new(*b"av01"))
    );
    assert_eq!(resolved.primary_item.location.item_id, 1);
    assert_eq!(resolved.primary_item.properties.len(), 2);
    assert!(resolved.primary_item.properties[0].essential);
    assert_eq!(resolved.primary_item.properties[0].property_index, 1);
    assert_eq!(
        resolved.primary_item.properties[0]
            .property
            .header
            .box_type
            .as_bytes(),
        *b"ispe"
    );
    assert!(!resolved.primary_item.properties[1].essential);
    assert_eq!(resolved.primary_item.properties[1].property_index, 2);
    assert_eq!(
        resolved.primary_item.properties[1]
            .property
            .header
            .box_type
            .as_bytes(),
        *b"pixi"
    );
    assert_eq!(resolved.primary_item.references.len(), 1);
    assert_eq!(
        resolved.primary_item.references[0].reference_type,
        FourCc::new(*b"dimg")
    );
    assert_eq!(resolved.primary_item.references[0].to_item_ids, vec![2]);
}

#[test]
fn rejects_meta_primary_resolution_when_required_box_is_missing() {
    let pitm = make_basic_box(*b"pitm", &[0x00, 0x00, 0x00, 0x00, 0x00, 0x01]);
    let meta = make_meta_box(&[pitm]);
    let top_level = parse_boxes(&meta).expect("meta box should parse");
    let parsed_meta = top_level[0].parse_meta().expect("meta should parse");

    let err = parsed_meta
        .resolve_primary_item()
        .expect_err("missing iloc must fail");
    assert_eq!(
        err,
        ResolvePrimaryItemGraphError::MissingRequiredBox {
            offset: (BASIC_HEADER_SIZE + FULL_BOX_HEADER_SIZE) as u64,
            box_type: FourCc::new(*b"iloc"),
        }
    );
}

#[test]
fn rejects_meta_primary_resolution_when_pitm_item_is_missing_from_iinf() {
    let pitm = make_basic_box(*b"pitm", &[0x00, 0x00, 0x00, 0x00, 0x00, 0x02]);

    let mut iloc_payload = Vec::new();
    iloc_payload.extend_from_slice(&[0x00, 0x00, 0x00, 0x00]); // version=0, flags=0
    iloc_payload.extend_from_slice(&0x0000_u16.to_be_bytes()); // all size fields are zero
    iloc_payload.extend_from_slice(&1_u16.to_be_bytes()); // item_count
    iloc_payload.extend_from_slice(&2_u16.to_be_bytes()); // item_ID
    iloc_payload.extend_from_slice(&0_u16.to_be_bytes()); // data_reference_index
    iloc_payload.extend_from_slice(&0_u16.to_be_bytes()); // extent_count
    let iloc = make_basic_box(*b"iloc", &iloc_payload);

    let mut infe_payload = Vec::new();
    infe_payload.extend_from_slice(&[0x02, 0x00, 0x00, 0x00]); // version=2, flags=0
    infe_payload.extend_from_slice(&1_u16.to_be_bytes()); // item_ID (different from pitm)
    infe_payload.extend_from_slice(&0_u16.to_be_bytes()); // item_protection_index
    infe_payload.extend_from_slice(b"av01"); // item_type
    infe_payload.extend_from_slice(b"other\0"); // item_name
    let infe = make_basic_box(*b"infe", &infe_payload);

    let mut iinf_payload = Vec::new();
    iinf_payload.extend_from_slice(&[0x00, 0x00, 0x00, 0x00]); // version=0, flags=0
    iinf_payload.extend_from_slice(&1_u16.to_be_bytes()); // item_count
    iinf_payload.extend_from_slice(&infe);
    let iinf = make_basic_box(*b"iinf", &iinf_payload);

    let property = make_basic_box(*b"ispe", &[0x00, 0x00, 0x00, 0x00]);
    let ipco = make_basic_box(*b"ipco", &property);
    let mut ipma_payload = Vec::new();
    ipma_payload.extend_from_slice(&[0x00, 0x00, 0x00, 0x00]); // version=0, flags=0
    ipma_payload.extend_from_slice(&1_u32.to_be_bytes()); // entry_count
    ipma_payload.extend_from_slice(&2_u16.to_be_bytes()); // item_ID
    ipma_payload.push(1); // association_count
    ipma_payload.push(0x01); // property_index=1
    let ipma = make_basic_box(*b"ipma", &ipma_payload);
    let mut iprp_payload = Vec::new();
    iprp_payload.extend_from_slice(&ipco);
    iprp_payload.extend_from_slice(&ipma);
    let iprp = make_basic_box(*b"iprp", &iprp_payload);

    let meta = make_meta_box(&[pitm, iloc, iinf, iprp]);
    let top_level = parse_boxes(&meta).expect("meta box should parse");
    let parsed_meta = top_level[0].parse_meta().expect("meta should parse");

    let err = parsed_meta
        .resolve_primary_item()
        .expect_err("pitm item_ID missing from iinf must fail");
    assert!(matches!(
        err,
        ResolvePrimaryItemGraphError::PrimaryItemMissingFromItemInfo { item_id: 2, .. }
    ));
}

#[test]
fn rejects_meta_primary_resolution_when_property_index_is_out_of_range() {
    let pitm = make_basic_box(*b"pitm", &[0x00, 0x00, 0x00, 0x00, 0x00, 0x01]);

    let mut iloc_payload = Vec::new();
    iloc_payload.extend_from_slice(&[0x00, 0x00, 0x00, 0x00]); // version=0, flags=0
    iloc_payload.extend_from_slice(&0x0000_u16.to_be_bytes()); // all size fields are zero
    iloc_payload.extend_from_slice(&1_u16.to_be_bytes()); // item_count
    iloc_payload.extend_from_slice(&1_u16.to_be_bytes()); // item_ID
    iloc_payload.extend_from_slice(&0_u16.to_be_bytes()); // data_reference_index
    iloc_payload.extend_from_slice(&0_u16.to_be_bytes()); // extent_count
    let iloc = make_basic_box(*b"iloc", &iloc_payload);

    let mut infe_payload = Vec::new();
    infe_payload.extend_from_slice(&[0x02, 0x00, 0x00, 0x00]); // version=2, flags=0
    infe_payload.extend_from_slice(&1_u16.to_be_bytes()); // item_ID
    infe_payload.extend_from_slice(&0_u16.to_be_bytes()); // item_protection_index
    infe_payload.extend_from_slice(b"av01"); // item_type
    infe_payload.extend_from_slice(b"primary\0"); // item_name
    let infe = make_basic_box(*b"infe", &infe_payload);

    let mut iinf_payload = Vec::new();
    iinf_payload.extend_from_slice(&[0x00, 0x00, 0x00, 0x00]); // version=0, flags=0
    iinf_payload.extend_from_slice(&1_u16.to_be_bytes()); // item_count
    iinf_payload.extend_from_slice(&infe);
    let iinf = make_basic_box(*b"iinf", &iinf_payload);

    let property = make_basic_box(*b"ispe", &[0x00, 0x00, 0x00, 0x00]);
    let ipco = make_basic_box(*b"ipco", &property);
    let mut ipma_payload = Vec::new();
    ipma_payload.extend_from_slice(&[0x00, 0x00, 0x00, 0x00]); // version=0, flags=0
    ipma_payload.extend_from_slice(&1_u32.to_be_bytes()); // entry_count
    ipma_payload.extend_from_slice(&1_u16.to_be_bytes()); // item_ID
    ipma_payload.push(1); // association_count
    ipma_payload.push(0x02); // property_index=2 (out of range)
    let ipma = make_basic_box(*b"ipma", &ipma_payload);
    let mut iprp_payload = Vec::new();
    iprp_payload.extend_from_slice(&ipco);
    iprp_payload.extend_from_slice(&ipma);
    let iprp = make_basic_box(*b"iprp", &iprp_payload);

    let meta = make_meta_box(&[pitm, iloc, iinf, iprp]);
    let top_level = parse_boxes(&meta).expect("meta box should parse");
    let parsed_meta = top_level[0].parse_meta().expect("meta should parse");

    let err = parsed_meta
        .resolve_primary_item()
        .expect_err("invalid property index must fail");
    assert!(matches!(
        err,
        ResolvePrimaryItemGraphError::PropertyIndexOutOfRange {
            item_id: 1,
            property_index: 2,
            available: 1,
            ..
        }
    ));
}

#[test]
fn extracts_primary_avif_payload_from_mdat_backed_iloc_extents() {
    let mdat = make_basic_box(*b"mdat", &[0xaa, 0xbb, 0xcc, 0xdd, 0xee, 0xff]);

    let mut iloc_payload = Vec::new();
    iloc_payload.extend_from_slice(&[0x00, 0x00, 0x00, 0x00]); // version=0, flags=0
    iloc_payload.extend_from_slice(&0x4440_u16.to_be_bytes()); // offset/length/base_offset=4
    iloc_payload.extend_from_slice(&1_u16.to_be_bytes()); // item_count
    iloc_payload.extend_from_slice(&1_u16.to_be_bytes()); // item_ID
    iloc_payload.extend_from_slice(&0_u16.to_be_bytes()); // data_reference_index
    iloc_payload.extend_from_slice(&(BASIC_HEADER_SIZE as u32).to_be_bytes()); // base_offset
    iloc_payload.extend_from_slice(&2_u16.to_be_bytes()); // extent_count
    iloc_payload.extend_from_slice(&0_u32.to_be_bytes()); // extent_offset[0]
    iloc_payload.extend_from_slice(&2_u32.to_be_bytes()); // extent_length[0]
    iloc_payload.extend_from_slice(&4_u32.to_be_bytes()); // extent_offset[1]
    iloc_payload.extend_from_slice(&2_u32.to_be_bytes()); // extent_length[1]
    let iloc = make_basic_box(*b"iloc", &iloc_payload);

    let meta = make_primary_avif_meta(iloc, &[]);
    let mut file = Vec::new();
    file.extend_from_slice(&mdat);
    file.extend_from_slice(&meta);

    let extracted =
        extract_primary_avif_item_data(&file).expect("AVIF mdat-backed payload must extract");
    assert_eq!(extracted.item_id, 1);
    assert_eq!(extracted.construction_method, 0);
    assert_eq!(extracted.payload, vec![0xaa, 0xbb, 0xee, 0xff]);
}

#[test]
fn extracts_primary_avif_payload_from_idat_backed_iloc_extents() {
    let mut iloc_payload = Vec::new();
    iloc_payload.extend_from_slice(&[0x01, 0x00, 0x00, 0x00]); // version=1, flags=0
    iloc_payload.extend_from_slice(&0x4440_u16.to_be_bytes()); // offset/length/base_offset=4, index=0
    iloc_payload.extend_from_slice(&1_u16.to_be_bytes()); // item_count
    iloc_payload.extend_from_slice(&1_u16.to_be_bytes()); // item_ID
    iloc_payload.extend_from_slice(&0x0001_u16.to_be_bytes()); // construction_method=1
    iloc_payload.extend_from_slice(&0_u16.to_be_bytes()); // data_reference_index
    iloc_payload.extend_from_slice(&0_u32.to_be_bytes()); // base_offset
    iloc_payload.extend_from_slice(&1_u16.to_be_bytes()); // extent_count
    iloc_payload.extend_from_slice(&1_u32.to_be_bytes()); // extent_offset
    iloc_payload.extend_from_slice(&3_u32.to_be_bytes()); // extent_length
    let iloc = make_basic_box(*b"iloc", &iloc_payload);

    let idat = make_basic_box(*b"idat", &[0x10, 0x11, 0x12, 0x13, 0x14]);
    let meta = make_primary_avif_meta(iloc, &[idat]);

    let extracted =
        extract_primary_avif_item_data(&meta).expect("AVIF idat-backed payload must extract");
    assert_eq!(extracted.item_id, 1);
    assert_eq!(extracted.construction_method, 1);
    assert_eq!(extracted.payload, vec![0x11, 0x12, 0x13]);
}

#[test]
fn rejects_primary_avif_extraction_when_idat_is_missing() {
    let mut iloc_payload = Vec::new();
    iloc_payload.extend_from_slice(&[0x01, 0x00, 0x00, 0x00]); // version=1, flags=0
    iloc_payload.extend_from_slice(&0x4440_u16.to_be_bytes()); // offset/length/base_offset=4, index=0
    iloc_payload.extend_from_slice(&1_u16.to_be_bytes()); // item_count
    iloc_payload.extend_from_slice(&1_u16.to_be_bytes()); // item_ID
    iloc_payload.extend_from_slice(&0x0001_u16.to_be_bytes()); // construction_method=1
    iloc_payload.extend_from_slice(&0_u16.to_be_bytes()); // data_reference_index
    iloc_payload.extend_from_slice(&0_u32.to_be_bytes()); // base_offset
    iloc_payload.extend_from_slice(&0_u16.to_be_bytes()); // extent_count
    let iloc = make_basic_box(*b"iloc", &iloc_payload);

    let meta = make_primary_avif_meta(iloc, &[]);
    let err = extract_primary_avif_item_data(&meta).expect_err("missing idat must fail");
    assert_eq!(err, ExtractAvifItemDataError::MissingIdatBox { item_id: 1 });
}

#[test]
fn rejects_primary_avif_extraction_for_external_data_reference_index() {
    let mut iloc_payload = Vec::new();
    iloc_payload.extend_from_slice(&[0x00, 0x00, 0x00, 0x00]); // version=0, flags=0
    iloc_payload.extend_from_slice(&0x0000_u16.to_be_bytes()); // size fields all zero
    iloc_payload.extend_from_slice(&1_u16.to_be_bytes()); // item_count
    iloc_payload.extend_from_slice(&1_u16.to_be_bytes()); // item_ID
    iloc_payload.extend_from_slice(&1_u16.to_be_bytes()); // data_reference_index
    iloc_payload.extend_from_slice(&0_u16.to_be_bytes()); // extent_count
    let iloc = make_basic_box(*b"iloc", &iloc_payload);

    let meta = make_primary_avif_meta(iloc, &[]);
    let err =
        extract_primary_avif_item_data(&meta).expect_err("external data reference must fail");
    assert_eq!(
        err,
        ExtractAvifItemDataError::UnsupportedDataReferenceIndex {
            item_id: 1,
            data_reference_index: 1,
        }
    );
}

#[test]
fn extracts_primary_heic_payload_from_mdat_backed_iloc_extents() {
    let mdat = make_basic_box(*b"mdat", &[0xaa, 0xbb, 0xcc, 0xdd, 0xee, 0xff]);

    let mut iloc_payload = Vec::new();
    iloc_payload.extend_from_slice(&[0x00, 0x00, 0x00, 0x00]); // version=0, flags=0
    iloc_payload.extend_from_slice(&0x4440_u16.to_be_bytes()); // offset/length/base_offset=4
    iloc_payload.extend_from_slice(&1_u16.to_be_bytes()); // item_count
    iloc_payload.extend_from_slice(&1_u16.to_be_bytes()); // item_ID
    iloc_payload.extend_from_slice(&0_u16.to_be_bytes()); // data_reference_index
    iloc_payload.extend_from_slice(&(BASIC_HEADER_SIZE as u32).to_be_bytes()); // base_offset
    iloc_payload.extend_from_slice(&2_u16.to_be_bytes()); // extent_count
    iloc_payload.extend_from_slice(&0_u32.to_be_bytes()); // extent_offset[0]
    iloc_payload.extend_from_slice(&2_u32.to_be_bytes()); // extent_length[0]
    iloc_payload.extend_from_slice(&4_u32.to_be_bytes()); // extent_offset[1]
    iloc_payload.extend_from_slice(&2_u32.to_be_bytes()); // extent_length[1]
    let iloc = make_basic_box(*b"iloc", &iloc_payload);

    let meta = make_primary_heic_meta(iloc, &[]);
    let mut file = Vec::new();
    file.extend_from_slice(&mdat);
    file.extend_from_slice(&meta);

    let extracted =
        extract_primary_heic_item_data(&file).expect("HEIC mdat-backed payload must extract");
    assert_eq!(extracted.item_id, 1);
    assert_eq!(extracted.construction_method, 0);
    assert_eq!(extracted.payload, vec![0xaa, 0xbb, 0xee, 0xff]);
}

#[test]
fn extracts_primary_heic_payload_from_idat_backed_iloc_extents() {
    let mut iloc_payload = Vec::new();
    iloc_payload.extend_from_slice(&[0x01, 0x00, 0x00, 0x00]); // version=1, flags=0
    iloc_payload.extend_from_slice(&0x4440_u16.to_be_bytes()); // offset/length/base_offset=4, index=0
    iloc_payload.extend_from_slice(&1_u16.to_be_bytes()); // item_count
    iloc_payload.extend_from_slice(&1_u16.to_be_bytes()); // item_ID
    iloc_payload.extend_from_slice(&0x0001_u16.to_be_bytes()); // construction_method=1
    iloc_payload.extend_from_slice(&0_u16.to_be_bytes()); // data_reference_index
    iloc_payload.extend_from_slice(&0_u32.to_be_bytes()); // base_offset
    iloc_payload.extend_from_slice(&1_u16.to_be_bytes()); // extent_count
    iloc_payload.extend_from_slice(&1_u32.to_be_bytes()); // extent_offset
    iloc_payload.extend_from_slice(&3_u32.to_be_bytes()); // extent_length
    let iloc = make_basic_box(*b"iloc", &iloc_payload);

    let idat = make_basic_box(*b"idat", &[0x10, 0x11, 0x12, 0x13, 0x14]);
    let meta = make_primary_heic_meta(iloc, &[idat]);

    let extracted =
        extract_primary_heic_item_data(&meta).expect("HEIC idat-backed payload must extract");
    assert_eq!(extracted.item_id, 1);
    assert_eq!(extracted.construction_method, 1);
    assert_eq!(extracted.payload, vec![0x11, 0x12, 0x13]);
}

#[test]
fn accepts_primary_heic_extraction_for_hev1_item_type() {
    let mut iloc_payload = Vec::new();
    iloc_payload.extend_from_slice(&[0x00, 0x00, 0x00, 0x00]); // version=0, flags=0
    iloc_payload.extend_from_slice(&0x4440_u16.to_be_bytes()); // offset/length/base_offset=4
    iloc_payload.extend_from_slice(&1_u16.to_be_bytes()); // item_count
    iloc_payload.extend_from_slice(&1_u16.to_be_bytes()); // item_ID
    iloc_payload.extend_from_slice(&0_u16.to_be_bytes()); // data_reference_index
    iloc_payload.extend_from_slice(&(BASIC_HEADER_SIZE as u32).to_be_bytes()); // base_offset
    iloc_payload.extend_from_slice(&1_u16.to_be_bytes()); // extent_count
    iloc_payload.extend_from_slice(&0_u32.to_be_bytes()); // extent_offset
    iloc_payload.extend_from_slice(&2_u32.to_be_bytes()); // extent_length
    let iloc = make_basic_box(*b"iloc", &iloc_payload);

    let mdat = make_basic_box(*b"mdat", &[0xaa, 0xbb, 0xcc, 0xdd]);
    let meta = make_primary_heic_meta_with_item_type(*b"hev1", iloc, &[]);
    let mut file = Vec::new();
    file.extend_from_slice(&mdat);
    file.extend_from_slice(&meta);

    let extracted =
        extract_primary_heic_item_data(&file).expect("HEIC hev1 payload should extract");
    assert_eq!(extracted.payload, vec![0xaa, 0xbb]);
}

#[test]
fn rejects_primary_heic_extraction_for_unexpected_primary_item_type() {
    let mut iloc_payload = Vec::new();
    iloc_payload.extend_from_slice(&[0x00, 0x00, 0x00, 0x00]); // version=0, flags=0
    iloc_payload.extend_from_slice(&0x0000_u16.to_be_bytes()); // size fields all zero
    iloc_payload.extend_from_slice(&1_u16.to_be_bytes()); // item_count
    iloc_payload.extend_from_slice(&1_u16.to_be_bytes()); // item_ID
    iloc_payload.extend_from_slice(&0_u16.to_be_bytes()); // data_reference_index
    iloc_payload.extend_from_slice(&0_u16.to_be_bytes()); // extent_count
    let iloc = make_basic_box(*b"iloc", &iloc_payload);

    let meta = make_primary_avif_meta(iloc, &[]);
    let err = extract_primary_heic_item_data(&meta)
        .expect_err("non-HEIC primary item type must fail");
    assert_eq!(
        err,
        ExtractHeicItemDataError::UnexpectedPrimaryItemType {
            item_id: 1,
            actual: FourCc::new(*b"av01"),
        }
    );
}

#[test]
fn extracts_primary_heic_grid_descriptor_and_tile_payloads() {
    let grid_descriptor = vec![0x00, 0x00, 0x00, 0x01, 0x00, 0x04, 0x00, 0x02];
    let tile_a = vec![0xaa, 0xbb];
    let tile_b = vec![0xcc, 0xdd, 0xee];
    let mut mdat_payload = Vec::new();
    mdat_payload.extend_from_slice(&grid_descriptor);
    mdat_payload.extend_from_slice(&tile_a);
    mdat_payload.extend_from_slice(&tile_b);
    let mdat = make_basic_box(*b"mdat", &mdat_payload);

    let base_offset = BASIC_HEADER_SIZE as u32;
    let iloc = make_iloc_v0_single_extent_items(&[
        (1_u16, base_offset, 0_u32, grid_descriptor.len() as u32),
        (
            2_u16,
            base_offset,
            grid_descriptor.len() as u32,
            tile_a.len() as u32,
        ),
        (
            3_u16,
            base_offset,
            (grid_descriptor.len() + tile_a.len()) as u32,
            tile_b.len() as u32,
        ),
    ]);
    let iinf = make_iinf_with_entries(&[
        (1_u16, *b"grid", b"primary-grid"),
        (2_u16, *b"hvc1", b"tile-0"),
        (3_u16, *b"hev1", b"tile-1"),
    ]);
    let iref = make_iref_dimg_v0(1_u16, &[2_u16, 3_u16]);

    let hvcc_property = make_hvcc_property();
    let expected_hvcc = parse_boxes(&hvcc_property).expect("hvcC property should parse")[0]
        .parse_hvcc()
        .expect("hvcC property payload should parse");
    let ipco = make_basic_box(*b"ipco", &hvcc_property);
    let mut ipma_payload = Vec::new();
    ipma_payload.extend_from_slice(&[0x00, 0x00, 0x00, 0x00]); // version=0, flags=0
    ipma_payload.extend_from_slice(&2_u32.to_be_bytes()); // entry_count
    for tile_item_id in [2_u16, 3_u16] {
        ipma_payload.extend_from_slice(&tile_item_id.to_be_bytes());
        ipma_payload.push(1); // association_count
        ipma_payload.push(0x01); // property_index=1
    }
    let ipma = make_basic_box(*b"ipma", &ipma_payload);
    let mut iprp_payload = Vec::new();
    iprp_payload.extend_from_slice(&ipco);
    iprp_payload.extend_from_slice(&ipma);
    let iprp = make_basic_box(*b"iprp", &iprp_payload);
    let pitm = make_basic_box(*b"pitm", &[0x00, 0x00, 0x00, 0x00, 0x00, 0x01]);
    let meta = make_meta_box(&[pitm, iloc, iinf, iprp, iref]);

    let mut file = Vec::new();
    file.extend_from_slice(&mdat);
    file.extend_from_slice(&meta);

    let extracted = extract_primary_heic_item_data_with_grid(&file)
        .expect("grid primary extraction should succeed");
    assert_eq!(
        extracted,
        HeicPrimaryItemDataWithGrid::Grid(libheic_rs::isobmff::HeicGridPrimaryItemData {
            item_id: 1,
            construction_method: 0,
            descriptor: libheic_rs::isobmff::HeicGridDescriptor {
                version: 0,
                rows: 1,
                columns: 2,
                output_width: 4,
                output_height: 2,
            },
            tile_item_ids: vec![2, 3],
            tiles: vec![
                libheic_rs::isobmff::HeicGridTileItemData {
                    item_id: 2,
                    construction_method: 0,
                    hvcc: expected_hvcc.clone(),
                    payload: tile_a,
                },
                libheic_rs::isobmff::HeicGridTileItemData {
                    item_id: 3,
                    construction_method: 0,
                    hvcc: expected_hvcc,
                    payload: tile_b,
                },
            ],
        })
    );
}

#[test]
fn rejects_primary_heic_grid_extraction_when_dimg_references_are_missing() {
    let grid_descriptor = vec![0x00, 0x00, 0x00, 0x00, 0x00, 0x04, 0x00, 0x02];
    let mdat = make_basic_box(*b"mdat", &grid_descriptor);
    let base_offset = BASIC_HEADER_SIZE as u32;
    let iloc = make_iloc_v0_single_extent_items(&[(
        1_u16,
        base_offset,
        0_u32,
        grid_descriptor.len() as u32,
    )]);
    let iinf = make_iinf_with_entries(&[(1_u16, *b"grid", b"primary-grid")]);
    let meta = make_primary_grid_heic_meta(iloc, iinf, None, &[]);

    let mut file = Vec::new();
    file.extend_from_slice(&mdat);
    file.extend_from_slice(&meta);

    let err = extract_primary_heic_item_data_with_grid(&file)
        .expect_err("missing dimg references must fail");
    assert_eq!(
        err,
        ExtractHeicItemDataError::MissingGridTileReferences { item_id: 1 }
    );
}

#[test]
fn rejects_primary_heic_grid_extraction_when_tile_count_mismatches_descriptor() {
    let grid_descriptor = vec![0x00, 0x00, 0x00, 0x01, 0x00, 0x04, 0x00, 0x02];
    let tile_a = vec![0xaa, 0xbb];
    let mut mdat_payload = Vec::new();
    mdat_payload.extend_from_slice(&grid_descriptor);
    mdat_payload.extend_from_slice(&tile_a);
    let mdat = make_basic_box(*b"mdat", &mdat_payload);

    let base_offset = BASIC_HEADER_SIZE as u32;
    let iloc = make_iloc_v0_single_extent_items(&[
        (1_u16, base_offset, 0_u32, grid_descriptor.len() as u32),
        (
            2_u16,
            base_offset,
            grid_descriptor.len() as u32,
            tile_a.len() as u32,
        ),
    ]);
    let iinf = make_iinf_with_entries(&[
        (1_u16, *b"grid", b"primary-grid"),
        (2_u16, *b"hvc1", b"tile-0"),
    ]);
    let iref = make_iref_dimg_v0(1_u16, &[2_u16]);
    let meta = make_primary_grid_heic_meta(iloc, iinf, Some(iref), &[]);

    let mut file = Vec::new();
    file.extend_from_slice(&mdat);
    file.extend_from_slice(&meta);

    let err = extract_primary_heic_item_data_with_grid(&file)
        .expect_err("grid tile count mismatch must fail");
    assert_eq!(
        err,
        ExtractHeicItemDataError::GridTileCountMismatch {
            item_id: 1,
            rows: 1,
            columns: 2,
            expected: 2,
            actual: 1,
        }
    );
}

#[test]
fn rejects_primary_heic_grid_extraction_when_tile_hvcc_property_is_missing() {
    let grid_descriptor = vec![0x00, 0x00, 0x00, 0x01, 0x00, 0x04, 0x00, 0x02];
    let tile_a = vec![0xaa, 0xbb];
    let tile_b = vec![0xcc, 0xdd, 0xee];
    let mut mdat_payload = Vec::new();
    mdat_payload.extend_from_slice(&grid_descriptor);
    mdat_payload.extend_from_slice(&tile_a);
    mdat_payload.extend_from_slice(&tile_b);
    let mdat = make_basic_box(*b"mdat", &mdat_payload);

    let base_offset = BASIC_HEADER_SIZE as u32;
    let iloc = make_iloc_v0_single_extent_items(&[
        (1_u16, base_offset, 0_u32, grid_descriptor.len() as u32),
        (
            2_u16,
            base_offset,
            grid_descriptor.len() as u32,
            tile_a.len() as u32,
        ),
        (
            3_u16,
            base_offset,
            (grid_descriptor.len() + tile_a.len()) as u32,
            tile_b.len() as u32,
        ),
    ]);
    let iinf = make_iinf_with_entries(&[
        (1_u16, *b"grid", b"primary-grid"),
        (2_u16, *b"hvc1", b"tile-0"),
        (3_u16, *b"hev1", b"tile-1"),
    ]);
    let iref = make_iref_dimg_v0(1_u16, &[2_u16, 3_u16]);
    let meta = make_primary_grid_heic_meta(iloc, iinf, Some(iref), &[]);

    let mut file = Vec::new();
    file.extend_from_slice(&mdat);
    file.extend_from_slice(&meta);

    let err = extract_primary_heic_item_data_with_grid(&file)
        .expect_err("grid tile without hvcC must fail");
    assert_eq!(
        err,
        ExtractHeicItemDataError::MissingGridTileCodecConfiguration {
            item_id: 1,
            tile_item_id: 2,
        }
    );
}

#[test]
fn parses_primary_avif_properties_from_item_graph() {
    let mut iloc_payload = Vec::new();
    iloc_payload.extend_from_slice(&[0x00, 0x00, 0x00, 0x00]); // version=0, flags=0
    iloc_payload.extend_from_slice(&0x0000_u16.to_be_bytes()); // all size fields are zero
    iloc_payload.extend_from_slice(&1_u16.to_be_bytes()); // item_count
    iloc_payload.extend_from_slice(&1_u16.to_be_bytes()); // item_ID
    iloc_payload.extend_from_slice(&0_u16.to_be_bytes()); // data_reference_index
    iloc_payload.extend_from_slice(&0_u16.to_be_bytes()); // extent_count
    let iloc = make_basic_box(*b"iloc", &iloc_payload);

    let meta = make_primary_avif_meta(iloc, &[]);
    let properties = parse_primary_avif_item_properties(&meta)
        .expect("primary AVIF property parse should succeed");

    assert_eq!(properties.item_id, 1);
    assert!(properties.av1c.marker);
    assert_eq!(properties.av1c.version, 1);
    assert_eq!(properties.av1c.seq_profile, 2);
    assert_eq!(properties.av1c.seq_level_idx_0, 21);
    assert!(properties.av1c.seq_tier_0);
    assert!(properties.av1c.high_bitdepth);
    assert!(!properties.av1c.twelve_bit);
    assert!(properties.av1c.monochrome);
    assert!(properties.av1c.chroma_subsampling_x);
    assert!(!properties.av1c.chroma_subsampling_y);
    assert_eq!(properties.av1c.chroma_sample_position, 2);
    assert_eq!(
        properties.av1c.initial_presentation_delay_minus_one,
        Some(5)
    );
    assert_eq!(properties.av1c.config_obus, vec![0xaa, 0xbb]);

    assert_eq!(properties.ispe.width, 640);
    assert_eq!(properties.ispe.height, 480);
    assert_eq!(properties.pixi.bits_per_channel, vec![8, 8, 8]);
    assert_eq!(properties.colr, PrimaryItemColorProperties::default());
}

#[test]
fn rejects_primary_avif_property_parse_when_required_property_is_missing() {
    let mut iloc_payload = Vec::new();
    iloc_payload.extend_from_slice(&[0x00, 0x00, 0x00, 0x00]); // version=0, flags=0
    iloc_payload.extend_from_slice(&0x0000_u16.to_be_bytes()); // all size fields are zero
    iloc_payload.extend_from_slice(&1_u16.to_be_bytes()); // item_count
    iloc_payload.extend_from_slice(&1_u16.to_be_bytes()); // item_ID
    iloc_payload.extend_from_slice(&0_u16.to_be_bytes()); // data_reference_index
    iloc_payload.extend_from_slice(&0_u16.to_be_bytes()); // extent_count
    let iloc = make_basic_box(*b"iloc", &iloc_payload);

    let properties = vec![make_av1c_property(), make_ispe_property(640, 480)];
    let meta = make_primary_avif_meta_with_properties(iloc, &properties, &[]);
    let err =
        parse_primary_avif_item_properties(&meta).expect_err("missing pixi property must fail");
    assert_eq!(
        err,
        ParsePrimaryAvifPropertiesError::MissingRequiredProperty {
            item_id: 1,
            property_type: FourCc::new(*b"pixi"),
        }
    );
}

#[test]
fn rejects_primary_avif_property_parse_when_property_is_duplicated() {
    let mut iloc_payload = Vec::new();
    iloc_payload.extend_from_slice(&[0x00, 0x00, 0x00, 0x00]); // version=0, flags=0
    iloc_payload.extend_from_slice(&0x0000_u16.to_be_bytes()); // all size fields are zero
    iloc_payload.extend_from_slice(&1_u16.to_be_bytes()); // item_count
    iloc_payload.extend_from_slice(&1_u16.to_be_bytes()); // item_ID
    iloc_payload.extend_from_slice(&0_u16.to_be_bytes()); // data_reference_index
    iloc_payload.extend_from_slice(&0_u16.to_be_bytes()); // extent_count
    let iloc = make_basic_box(*b"iloc", &iloc_payload);

    let properties = vec![
        make_av1c_property(),
        make_av1c_property(),
        make_ispe_property(640, 480),
        make_pixi_property(0, &[8, 8, 8]),
    ];
    let meta = make_primary_avif_meta_with_properties(iloc, &properties, &[]);
    let err = parse_primary_avif_item_properties(&meta)
        .expect_err("duplicate av1C property must fail");
    assert_eq!(
        err,
        ParsePrimaryAvifPropertiesError::DuplicateProperty {
            item_id: 1,
            property_type: FourCc::new(*b"av1C"),
        }
    );
}

#[test]
fn parses_primary_heic_properties_from_item_graph() {
    let mut iloc_payload = Vec::new();
    iloc_payload.extend_from_slice(&[0x00, 0x00, 0x00, 0x00]); // version=0, flags=0
    iloc_payload.extend_from_slice(&0x0000_u16.to_be_bytes()); // all size fields are zero
    iloc_payload.extend_from_slice(&1_u16.to_be_bytes()); // item_count
    iloc_payload.extend_from_slice(&1_u16.to_be_bytes()); // item_ID
    iloc_payload.extend_from_slice(&0_u16.to_be_bytes()); // data_reference_index
    iloc_payload.extend_from_slice(&0_u16.to_be_bytes()); // extent_count
    let iloc = make_basic_box(*b"iloc", &iloc_payload);

    let meta = make_primary_heic_meta(iloc, &[]);
    let properties = parse_primary_heic_item_properties(&meta)
        .expect("primary HEIC property parse should succeed");

    assert_eq!(properties.item_id, 1);
    assert_eq!(properties.hvcc.configuration_version, 1);
    assert_eq!(properties.hvcc.general_profile_space, 0);
    assert!(!properties.hvcc.general_tier_flag);
    assert_eq!(properties.hvcc.general_profile_idc, 1);
    assert_eq!(properties.hvcc.bit_depth_luma, 8);
    assert_eq!(properties.hvcc.bit_depth_chroma, 8);
    assert_eq!(properties.hvcc.nal_length_size, 4);
    assert_eq!(properties.hvcc.nal_arrays.len(), 1);
    assert_eq!(properties.hvcc.nal_arrays[0].nal_unit_type, 33);
    assert_eq!(
        properties.hvcc.nal_arrays[0].nal_units,
        vec![vec![0x42, 0x01]]
    );
    assert_eq!(properties.ispe.width, 640);
    assert_eq!(properties.ispe.height, 480);
    assert_eq!(properties.pixi.bits_per_channel, vec![8, 8, 8]);
    assert_eq!(properties.colr, PrimaryItemColorProperties::default());
}

#[test]
fn parses_primary_heic_preflight_properties_without_pixi() {
    let mut iloc_payload = Vec::new();
    iloc_payload.extend_from_slice(&[0x00, 0x00, 0x00, 0x00]); // version=0, flags=0
    iloc_payload.extend_from_slice(&0x0000_u16.to_be_bytes()); // all size fields are zero
    iloc_payload.extend_from_slice(&1_u16.to_be_bytes()); // item_count
    iloc_payload.extend_from_slice(&1_u16.to_be_bytes()); // item_ID
    iloc_payload.extend_from_slice(&0_u16.to_be_bytes()); // data_reference_index
    iloc_payload.extend_from_slice(&0_u16.to_be_bytes()); // extent_count
    let iloc = make_basic_box(*b"iloc", &iloc_payload);

    let properties = vec![make_hvcc_property(), make_ispe_property(640, 480)];
    let meta = make_primary_item_meta_with_properties(*b"hvc1", iloc, &properties, &[]);
    let preflight = parse_primary_heic_item_preflight_properties(&meta)
        .expect("missing pixi should still parse for HEIC decoder preflight");

    assert_eq!(preflight.item_id, 1);
    assert_eq!(preflight.hvcc.nal_length_size, 4);
    assert_eq!(preflight.ispe.width, 640);
    assert_eq!(preflight.ispe.height, 480);
    assert!(preflight.pixi.is_none());
    assert_eq!(preflight.colr, PrimaryItemColorProperties::default());
}

#[test]
fn parses_primary_item_colr_profiles_for_avif_and_heic() {
    let mut iloc_payload = Vec::new();
    iloc_payload.extend_from_slice(&[0x00, 0x00, 0x00, 0x00]); // version=0, flags=0
    iloc_payload.extend_from_slice(&0x0000_u16.to_be_bytes()); // all size fields are zero
    iloc_payload.extend_from_slice(&1_u16.to_be_bytes()); // item_count
    iloc_payload.extend_from_slice(&1_u16.to_be_bytes()); // item_ID
    iloc_payload.extend_from_slice(&0_u16.to_be_bytes()); // data_reference_index
    iloc_payload.extend_from_slice(&0_u16.to_be_bytes()); // extent_count
    let iloc = make_basic_box(*b"iloc", &iloc_payload);

    let nclx = make_colr_nclx_property(1, 13, 6, false);
    let ricc = make_colr_icc_property(*b"rICC", &[0x10, 0x20, 0x30]);

    let avif_properties = vec![
        make_av1c_property(),
        make_ispe_property(640, 480),
        make_pixi_property(0, &[8, 8, 8]),
        nclx.clone(),
        ricc.clone(),
    ];
    let avif_meta = make_primary_avif_meta_with_properties(iloc.clone(), &avif_properties, &[]);
    let avif = parse_primary_avif_item_properties(&avif_meta)
        .expect("AVIF primary property parse should include colr profiles");
    assert_eq!(
        avif.colr.nclx,
        Some(NclxColorProfile {
            colour_primaries: 1,
            transfer_characteristics: 13,
            matrix_coefficients: 6,
            full_range_flag: false,
        })
    );
    assert_eq!(
        avif.colr.icc,
        Some(IccColorProfile {
            profile_type: FourCc::new(*b"rICC"),
            profile: vec![0x10, 0x20, 0x30],
        })
    );

    let heic_properties = vec![
        make_hvcc_property(),
        make_ispe_property(640, 480),
        make_pixi_property(0, &[8, 8, 8]),
        nclx,
        ricc,
    ];
    let heic_meta =
        make_primary_item_meta_with_properties(*b"hvc1", iloc, &heic_properties, &[]);
    let heic = parse_primary_heic_item_preflight_properties(&heic_meta)
        .expect("HEIC primary preflight parse should include colr profiles");
    assert_eq!(
        heic.colr.nclx,
        Some(NclxColorProfile {
            colour_primaries: 1,
            transfer_characteristics: 13,
            matrix_coefficients: 6,
            full_range_flag: false,
        })
    );
    assert_eq!(
        heic.colr.icc,
        Some(IccColorProfile {
            profile_type: FourCc::new(*b"rICC"),
            profile: vec![0x10, 0x20, 0x30],
        })
    );
}

#[test]
fn rejects_primary_heic_property_parse_when_required_property_is_missing() {
    let mut iloc_payload = Vec::new();
    iloc_payload.extend_from_slice(&[0x00, 0x00, 0x00, 0x00]); // version=0, flags=0
    iloc_payload.extend_from_slice(&0x0000_u16.to_be_bytes()); // all size fields are zero
    iloc_payload.extend_from_slice(&1_u16.to_be_bytes()); // item_count
    iloc_payload.extend_from_slice(&1_u16.to_be_bytes()); // item_ID
    iloc_payload.extend_from_slice(&0_u16.to_be_bytes()); // data_reference_index
    iloc_payload.extend_from_slice(&0_u16.to_be_bytes()); // extent_count
    let iloc = make_basic_box(*b"iloc", &iloc_payload);

    let properties = vec![
        make_ispe_property(640, 480),
        make_pixi_property(0, &[8, 8, 8]),
    ];
    let meta = make_primary_item_meta_with_properties(*b"hvc1", iloc, &properties, &[]);
    let err =
        parse_primary_heic_item_properties(&meta).expect_err("missing hvcC property must fail");
    assert_eq!(
        err,
        ParsePrimaryHeicPropertiesError::MissingRequiredProperty {
            item_id: 1,
            property_type: FourCc::new(*b"hvcC"),
        }
    );
}

#[test]
fn rejects_primary_heic_property_parse_when_property_is_duplicated() {
    let mut iloc_payload = Vec::new();
    iloc_payload.extend_from_slice(&[0x00, 0x00, 0x00, 0x00]); // version=0, flags=0
    iloc_payload.extend_from_slice(&0x0000_u16.to_be_bytes()); // all size fields are zero
    iloc_payload.extend_from_slice(&1_u16.to_be_bytes()); // item_count
    iloc_payload.extend_from_slice(&1_u16.to_be_bytes()); // item_ID
    iloc_payload.extend_from_slice(&0_u16.to_be_bytes()); // data_reference_index
    iloc_payload.extend_from_slice(&0_u16.to_be_bytes()); // extent_count
    let iloc = make_basic_box(*b"iloc", &iloc_payload);

    let properties = vec![
        make_hvcc_property(),
        make_hvcc_property(),
        make_ispe_property(640, 480),
        make_pixi_property(0, &[8, 8, 8]),
    ];
    let meta = make_primary_item_meta_with_properties(*b"hvc1", iloc, &properties, &[]);
    let err = parse_primary_heic_item_properties(&meta)
        .expect_err("duplicate hvcC property must fail");
    assert_eq!(
        err,
        ParsePrimaryHeicPropertiesError::DuplicateProperty {
            item_id: 1,
            property_type: FourCc::new(*b"hvcC"),
        }
    );
}

#[test]
fn rejects_av1c_parse_when_marker_bit_is_unset() {
    let av1c = make_basic_box(*b"av1C", &[0x01, 0x00, 0x00, 0x00]);
    let parsed = parse_boxes(&av1c).expect("av1C box should parse");

    let err = parsed[0]
        .parse_av1c()
        .expect_err("av1C marker-bit violation must fail");
    assert_eq!(
        err,
        ParseAv1CodecConfigurationBoxError::InvalidMarkerBit {
            offset: BASIC_HEADER_SIZE as u64,
            value: 0x01,
        }
    );
}

#[test]
fn rejects_hvcc_parse_for_unsupported_configuration_version() {
    let hvcc = make_hvcc_property_with_configuration_version(2);
    let parsed = parse_boxes(&hvcc).expect("hvcC box should parse");

    let err = parsed[0]
        .parse_hvcc()
        .expect_err("unsupported hvcC configuration version must fail");
    assert_eq!(
        err,
        ParseHevcDecoderConfigurationBoxError::UnsupportedConfigurationVersion {
            offset: BASIC_HEADER_SIZE as u64,
            version: 2,
        }
    );
}

#[test]
fn rejects_ispe_parse_for_unsupported_version() {
    let ispe = make_ispe_property_with_version(1, 640, 480);
    let parsed = parse_boxes(&ispe).expect("ispe box should parse");

    let err = parsed[0]
        .parse_ispe()
        .expect_err("unsupported ispe version must fail");
    assert_eq!(
        err,
        ParseImageSpatialExtentsPropertyError::UnsupportedVersion {
            offset: BASIC_HEADER_SIZE as u64,
            version: 1,
        }
    );
}

#[test]
fn rejects_pixi_parse_when_channel_data_is_truncated() {
    let pixi = make_basic_box(*b"pixi", &[0x00, 0x00, 0x00, 0x00, 0x03, 0x08, 0x08]);
    let parsed = parse_boxes(&pixi).expect("pixi box should parse");

    let err = parsed[0]
        .parse_pixi()
        .expect_err("truncated pixi channel list must fail");
    assert_eq!(
        err,
        ParsePixelInformationPropertyError::PayloadTooSmall {
            offset: (BASIC_HEADER_SIZE + FULL_BOX_HEADER_SIZE + 1) as u64,
            context: "bits_per_channel",
            available: 2,
            required: 3,
        }
    );
}

#[test]
fn parses_colr_nclx_and_nclc_profiles() {
    let nclx = make_colr_nclx_property(1, 13, 6, true);
    let parsed = parse_boxes(&nclx).expect("colr box should parse");
    let nclx_property = parsed[0]
        .parse_colr()
        .expect("nclx colr property should parse");
    assert_eq!(nclx_property.colour_type, FourCc::new(*b"nclx"));
    assert_eq!(
        nclx_property.information,
        ColorInformation::Nclx(NclxColorProfile {
            colour_primaries: 1,
            transfer_characteristics: 13,
            matrix_coefficients: 6,
            full_range_flag: true,
        })
    );

    let nclc = make_colr_nclc_property(1, 13, 0);
    let parsed = parse_boxes(&nclc).expect("colr box should parse");
    let nclc_property = parsed[0]
        .parse_colr()
        .expect("nclc colr property should parse");
    assert_eq!(nclc_property.colour_type, FourCc::new(*b"nclc"));
    assert_eq!(
        nclc_property.information,
        ColorInformation::Nclx(NclxColorProfile {
            colour_primaries: 1,
            transfer_characteristics: 13,
            matrix_coefficients: 0,
            full_range_flag: true,
        })
    );
}

#[test]
fn parses_colr_icc_payload_types() {
    let prof = make_colr_icc_property(*b"prof", &[0xAA, 0xBB]);
    let parsed = parse_boxes(&prof).expect("colr box should parse");
    let property = parsed[0]
        .parse_colr()
        .expect("ICC colr property should parse");
    assert_eq!(property.colour_type, FourCc::new(*b"prof"));
    assert_eq!(
        property.information,
        ColorInformation::Icc(IccColorProfile {
            profile_type: FourCc::new(*b"prof"),
            profile: vec![0xAA, 0xBB],
        })
    );
}

#[test]
fn rejects_colr_parse_for_unknown_colour_type() {
    let colr = make_basic_box(*b"colr", b"zzzz");
    let parsed = parse_boxes(&colr).expect("colr box should parse");
    let err = parsed[0]
        .parse_colr()
        .expect_err("unknown colour_type must fail");
    assert_eq!(
        err,
        ParseColorInformationPropertyError::UnknownColourType {
            offset: BASIC_HEADER_SIZE as u64,
            colour_type: FourCc::new(*b"zzzz"),
        }
    );
}

#[test]
fn parses_irot_property_rotation_steps() {
    let irot = make_irot_property(3);
    let parsed = parse_boxes(&irot).expect("irot box should parse");
    let property = parsed[0]
        .parse_irot()
        .expect("irot property should parse rotation");
    assert_eq!(property.rotation_ccw_degrees, 270);
}

#[test]
fn rejects_irot_parse_when_payload_is_truncated() {
    let irot = make_basic_box(*b"irot", &[]);
    let parsed = parse_boxes(&irot).expect("irot box should parse");
    let err = parsed[0]
        .parse_irot()
        .expect_err("truncated irot payload must fail");
    assert_eq!(
        err,
        ParseImageRotationPropertyError::PayloadTooSmall {
            offset: BASIC_HEADER_SIZE as u64,
            available: 0,
            required: 1,
        }
    );
}

#[test]
fn parses_imir_property_direction_bit() {
    let horizontal = make_imir_property(true);
    let parsed = parse_boxes(&horizontal).expect("imir box should parse");
    let property = parsed[0]
        .parse_imir()
        .expect("imir property should parse direction");
    assert_eq!(property.direction, ImageMirrorDirection::Horizontal);

    let vertical = make_imir_property(false);
    let parsed = parse_boxes(&vertical).expect("imir box should parse");
    let property = parsed[0]
        .parse_imir()
        .expect("imir property should parse direction");
    assert_eq!(property.direction, ImageMirrorDirection::Vertical);
}

#[test]
fn rejects_imir_parse_when_payload_is_truncated() {
    let imir = make_basic_box(*b"imir", &[]);
    let parsed = parse_boxes(&imir).expect("imir box should parse");
    let err = parsed[0]
        .parse_imir()
        .expect_err("truncated imir payload must fail");
    assert_eq!(
        err,
        ParseImageMirrorPropertyError::PayloadTooSmall {
            offset: BASIC_HEADER_SIZE as u64,
            available: 0,
            required: 1,
        }
    );
}

#[test]
fn parses_clap_property_fields() {
    let clap = make_clap_property(ImageCleanApertureProperty {
        clean_aperture_width_num: 640,
        clean_aperture_width_den: 1,
        clean_aperture_height_num: 480,
        clean_aperture_height_den: 1,
        horizontal_offset_num: -10,
        horizontal_offset_den: 2,
        vertical_offset_num: 6,
        vertical_offset_den: 2,
    });
    let parsed = parse_boxes(&clap).expect("clap box should parse");
    let property = parsed[0]
        .parse_clap()
        .expect("clap property should parse fields");
    assert_eq!(
        property,
        ImageCleanApertureProperty {
            clean_aperture_width_num: 640,
            clean_aperture_width_den: 1,
            clean_aperture_height_num: 480,
            clean_aperture_height_den: 1,
            horizontal_offset_num: -10,
            horizontal_offset_den: 2,
            vertical_offset_num: 6,
            vertical_offset_den: 2,
        }
    );
}

#[test]
fn rejects_clap_parse_when_payload_is_truncated() {
    let clap = make_basic_box(*b"clap", &[0; 12]);
    let parsed = parse_boxes(&clap).expect("clap box should parse");
    let err = parsed[0]
        .parse_clap()
        .expect_err("truncated clap payload must fail");
    assert_eq!(
        err,
        ParseImageCleanAperturePropertyError::PayloadTooSmall {
            offset: BASIC_HEADER_SIZE as u64,
            available: 12,
            required: 32,
        }
    );
}

#[test]
fn rejects_clap_parse_when_denominator_is_zero() {
    let clap = make_clap_property(ImageCleanApertureProperty {
        clean_aperture_width_num: 640,
        clean_aperture_width_den: 0,
        clean_aperture_height_num: 480,
        clean_aperture_height_den: 1,
        horizontal_offset_num: 0,
        horizontal_offset_den: 1,
        vertical_offset_num: 0,
        vertical_offset_den: 1,
    });
    let parsed = parse_boxes(&clap).expect("clap box should parse");
    let err = parsed[0]
        .parse_clap()
        .expect_err("clap denominator zero must fail");
    assert_eq!(
        err,
        ParseImageCleanAperturePropertyError::ZeroDenominator {
            offset: BASIC_HEADER_SIZE as u64 + 4,
            field: "clean_aperture_width_den",
        }
    );
}

#[test]
fn parses_primary_item_transform_properties_in_association_order() {
    let mut iloc_payload = Vec::new();
    iloc_payload.extend_from_slice(&[0x00, 0x00, 0x00, 0x00]); // version=0, flags=0
    iloc_payload.extend_from_slice(&0x0000_u16.to_be_bytes()); // all size fields are zero
    iloc_payload.extend_from_slice(&1_u16.to_be_bytes()); // item_count
    iloc_payload.extend_from_slice(&1_u16.to_be_bytes()); // item_ID
    iloc_payload.extend_from_slice(&0_u16.to_be_bytes()); // data_reference_index
    iloc_payload.extend_from_slice(&0_u16.to_be_bytes()); // extent_count
    let iloc = make_basic_box(*b"iloc", &iloc_payload);

    let properties = vec![
        make_av1c_property(),
        make_ispe_property(640, 480),
        make_pixi_property(0, &[8, 8, 8]),
        make_clap_property(ImageCleanApertureProperty {
            clean_aperture_width_num: 638,
            clean_aperture_width_den: 1,
            clean_aperture_height_num: 478,
            clean_aperture_height_den: 1,
            horizontal_offset_num: -1,
            horizontal_offset_den: 2,
            vertical_offset_num: -1,
            vertical_offset_den: 2,
        }),
        make_imir_property(true),
        make_irot_property(1),
    ];
    let meta = make_primary_avif_meta_with_properties(iloc, &properties, &[]);
    let transforms = parse_primary_item_transform_properties(&meta)
        .expect("primary transform parse should preserve association order");

    assert_eq!(transforms.item_id, 1);
    assert_eq!(
        transforms.transforms,
        vec![
            PrimaryItemTransformProperty::CleanAperture(ImageCleanApertureProperty {
                clean_aperture_width_num: 638,
                clean_aperture_width_den: 1,
                clean_aperture_height_num: 478,
                clean_aperture_height_den: 1,
                horizontal_offset_num: -1,
                horizontal_offset_den: 2,
                vertical_offset_num: -1,
                vertical_offset_den: 2,
            }),
            PrimaryItemTransformProperty::Mirror(ImageMirrorProperty {
                direction: ImageMirrorDirection::Horizontal,
            }),
            PrimaryItemTransformProperty::Rotation(ImageRotationProperty {
                rotation_ccw_degrees: 90,
            }),
        ]
    );
}

fn make_primary_avif_meta(iloc: Vec<u8>, additional_children: &[Vec<u8>]) -> Vec<u8> {
    let properties = vec![
        make_av1c_property(),
        make_ispe_property(640, 480),
        make_pixi_property(0, &[8, 8, 8]),
    ];
    make_primary_item_meta_with_properties(*b"av01", iloc, &properties, additional_children)
}

fn make_primary_avif_meta_with_properties(
    iloc: Vec<u8>,
    properties: &[Vec<u8>],
    additional_children: &[Vec<u8>],
) -> Vec<u8> {
    make_primary_item_meta_with_properties(*b"av01", iloc, properties, additional_children)
}

fn make_primary_heic_meta(iloc: Vec<u8>, additional_children: &[Vec<u8>]) -> Vec<u8> {
    make_primary_heic_meta_with_item_type(*b"hvc1", iloc, additional_children)
}

fn make_primary_heic_meta_with_item_type(
    item_type: [u8; 4],
    iloc: Vec<u8>,
    additional_children: &[Vec<u8>],
) -> Vec<u8> {
    let properties = vec![
        make_hvcc_property(),
        make_ispe_property(640, 480),
        make_pixi_property(0, &[8, 8, 8]),
    ];
    make_primary_item_meta_with_properties(item_type, iloc, &properties, additional_children)
}

fn make_primary_grid_heic_meta(
    iloc: Vec<u8>,
    iinf: Vec<u8>,
    iref: Option<Vec<u8>>,
    additional_children: &[Vec<u8>],
) -> Vec<u8> {
    let pitm = make_basic_box(*b"pitm", &[0x00, 0x00, 0x00, 0x00, 0x00, 0x01]);
    let iprp = make_iprp_without_associations();

    let mut children = vec![pitm, iloc, iinf, iprp];
    if let Some(iref) = iref {
        children.push(iref);
    }
    children.extend_from_slice(additional_children);
    make_meta_box(&children)
}

fn make_iinf_with_entries(entries: &[(u16, [u8; 4], &[u8])]) -> Vec<u8> {
    assert!(
        entries.len() <= u16::MAX as usize,
        "too many entries for test iinf"
    );

    let mut iinf_payload = Vec::new();
    iinf_payload.extend_from_slice(&[0x00, 0x00, 0x00, 0x00]); // version=0, flags=0
    iinf_payload.extend_from_slice(&(entries.len() as u16).to_be_bytes()); // item_count
    for (item_id, item_type, item_name) in entries {
        let mut infe_payload = Vec::new();
        infe_payload.extend_from_slice(&[0x02, 0x00, 0x00, 0x00]); // version=2, flags=0
        infe_payload.extend_from_slice(&item_id.to_be_bytes());
        infe_payload.extend_from_slice(&0_u16.to_be_bytes()); // item_protection_index
        infe_payload.extend_from_slice(item_type);
        infe_payload.extend_from_slice(item_name);
        infe_payload.push(0); // C-string terminator
        iinf_payload.extend_from_slice(&make_basic_box(*b"infe", &infe_payload));
    }

    make_basic_box(*b"iinf", &iinf_payload)
}

fn make_iloc_v0_single_extent_items(items: &[(u16, u32, u32, u32)]) -> Vec<u8> {
    assert!(
        items.len() <= u16::MAX as usize,
        "too many entries for test iloc"
    );

    let mut iloc_payload = Vec::new();
    iloc_payload.extend_from_slice(&[0x00, 0x00, 0x00, 0x00]); // version=0, flags=0
    iloc_payload.extend_from_slice(&0x4440_u16.to_be_bytes()); // offset/length/base_offset=4
    iloc_payload.extend_from_slice(&(items.len() as u16).to_be_bytes()); // item_count
    for (item_id, base_offset, extent_offset, extent_length) in items {
        iloc_payload.extend_from_slice(&item_id.to_be_bytes());
        iloc_payload.extend_from_slice(&0_u16.to_be_bytes()); // data_reference_index
        iloc_payload.extend_from_slice(&base_offset.to_be_bytes());
        iloc_payload.extend_from_slice(&1_u16.to_be_bytes()); // extent_count
        iloc_payload.extend_from_slice(&extent_offset.to_be_bytes());
        iloc_payload.extend_from_slice(&extent_length.to_be_bytes());
    }

    make_basic_box(*b"iloc", &iloc_payload)
}

fn make_iref_dimg_v0(from_item_id: u16, to_item_ids: &[u16]) -> Vec<u8> {
    assert!(
        to_item_ids.len() <= u16::MAX as usize,
        "too many test dimg references"
    );

    let mut dimg_payload = Vec::new();
    dimg_payload.extend_from_slice(&from_item_id.to_be_bytes());
    dimg_payload.extend_from_slice(&(to_item_ids.len() as u16).to_be_bytes());
    for to_item_id in to_item_ids {
        dimg_payload.extend_from_slice(&to_item_id.to_be_bytes());
    }

    let dimg = make_basic_box(*b"dimg", &dimg_payload);
    let mut iref_payload = Vec::new();
    iref_payload.extend_from_slice(&[0x00, 0x00, 0x00, 0x00]); // version=0, flags=0
    iref_payload.extend_from_slice(&dimg);
    make_basic_box(*b"iref", &iref_payload)
}

fn make_iprp_without_associations() -> Vec<u8> {
    let ipco = make_basic_box(*b"ipco", &[]);
    let mut ipma_payload = Vec::new();
    ipma_payload.extend_from_slice(&[0x00, 0x00, 0x00, 0x00]); // version=0, flags=0
    ipma_payload.extend_from_slice(&0_u32.to_be_bytes()); // entry_count
    let ipma = make_basic_box(*b"ipma", &ipma_payload);

    let mut iprp_payload = Vec::new();
    iprp_payload.extend_from_slice(&ipco);
    iprp_payload.extend_from_slice(&ipma);
    make_basic_box(*b"iprp", &iprp_payload)
}

fn make_primary_item_meta_with_properties(
    item_type: [u8; 4],
    iloc: Vec<u8>,
    properties: &[Vec<u8>],
    additional_children: &[Vec<u8>],
) -> Vec<u8> {
    let pitm = make_basic_box(*b"pitm", &[0x00, 0x00, 0x00, 0x00, 0x00, 0x01]);

    let mut infe_payload = Vec::new();
    infe_payload.extend_from_slice(&[0x02, 0x00, 0x00, 0x00]); // version=2, flags=0
    infe_payload.extend_from_slice(&1_u16.to_be_bytes()); // item_ID
    infe_payload.extend_from_slice(&0_u16.to_be_bytes()); // item_protection_index
    infe_payload.extend_from_slice(&item_type); // item_type
    infe_payload.extend_from_slice(b"primary\0"); // item_name
    let infe = make_basic_box(*b"infe", &infe_payload);

    let mut iinf_payload = Vec::new();
    iinf_payload.extend_from_slice(&[0x00, 0x00, 0x00, 0x00]); // version=0, flags=0
    iinf_payload.extend_from_slice(&1_u16.to_be_bytes()); // item_count
    iinf_payload.extend_from_slice(&infe);
    let iinf = make_basic_box(*b"iinf", &iinf_payload);

    assert!(
        properties.len() <= 0x7F,
        "too many properties for test ipma"
    );
    let mut ipco_payload = Vec::new();
    for property in properties {
        ipco_payload.extend_from_slice(property);
    }
    let ipco = make_basic_box(*b"ipco", &ipco_payload);

    let mut ipma_payload = Vec::new();
    ipma_payload.extend_from_slice(&[0x00, 0x00, 0x00, 0x00]); // version=0, flags=0
    ipma_payload.extend_from_slice(&1_u32.to_be_bytes()); // entry_count
    ipma_payload.extend_from_slice(&1_u16.to_be_bytes()); // item_ID
    ipma_payload.push(properties.len() as u8); // association_count
    for property_index in 1..=properties.len() {
        ipma_payload.push(property_index as u8); // property_index
    }
    let ipma = make_basic_box(*b"ipma", &ipma_payload);

    let mut iprp_payload = Vec::new();
    iprp_payload.extend_from_slice(&ipco);
    iprp_payload.extend_from_slice(&ipma);
    let iprp = make_basic_box(*b"iprp", &iprp_payload);

    let mut children = vec![pitm, iloc, iinf, iprp];
    children.extend_from_slice(additional_children);
    make_meta_box(&children)
}

fn make_hvcc_property() -> Vec<u8> {
    make_hvcc_property_with_configuration_version(1)
}

fn make_hvcc_property_with_configuration_version(configuration_version: u8) -> Vec<u8> {
    let mut payload = Vec::new();
    payload.push(configuration_version); // configurationVersion
    payload.push(0x01); // profile_space=0, tier=0, profile_idc=1
    payload.extend_from_slice(&0x6000_0000_u32.to_be_bytes()); // profile compatibility flags
    payload.extend_from_slice(&[0x00; 6]); // constraint indicator flags
    payload.push(120); // level_idc
    payload.extend_from_slice(&0xF000_u16.to_be_bytes()); // min_spatial_segmentation_idc
    payload.push(0xFC); // parallelism_type (masked to 0)
    payload.push(0xFC); // chroma_format (masked to 0)
    payload.push(0xF8); // bit_depth_luma_minus8 = 0
    payload.push(0xF8); // bit_depth_chroma_minus8 = 0
    payload.extend_from_slice(&0_u16.to_be_bytes()); // avg_frame_rate
    payload.push(0x03); // length_size_minus_one = 3 => 4-byte NAL lengths
    payload.push(1); // numOfArrays
    payload.push(33); // array_completeness=0, nal_unit_type=33 (SPS)
    payload.extend_from_slice(&1_u16.to_be_bytes()); // numNalus
    payload.extend_from_slice(&2_u16.to_be_bytes()); // nalUnitLength
    payload.extend_from_slice(&[0x42, 0x01]); // nalUnit bytes
    make_basic_box(*b"hvcC", &payload)
}

fn make_av1c_property() -> Vec<u8> {
    make_basic_box(*b"av1C", &[0x81, 0x55, 0xDA, 0x15, 0xAA, 0xBB])
}

fn make_ispe_property(width: u32, height: u32) -> Vec<u8> {
    make_ispe_property_with_version(0, width, height)
}

fn make_ispe_property_with_version(version: u8, width: u32, height: u32) -> Vec<u8> {
    let mut payload = Vec::new();
    payload.push(version);
    payload.extend_from_slice(&[0x00, 0x00, 0x00]);
    payload.extend_from_slice(&width.to_be_bytes());
    payload.extend_from_slice(&height.to_be_bytes());
    make_basic_box(*b"ispe", &payload)
}

fn make_pixi_property(version: u8, bits_per_channel: &[u8]) -> Vec<u8> {
    assert!(
        bits_per_channel.len() <= u8::MAX as usize,
        "too many channels for test pixi property"
    );

    let mut payload = Vec::new();
    payload.push(version);
    payload.extend_from_slice(&[0x00, 0x00, 0x00]);
    payload.push(bits_per_channel.len() as u8);
    payload.extend_from_slice(bits_per_channel);
    make_basic_box(*b"pixi", &payload)
}

fn make_colr_nclx_property(
    colour_primaries: u16,
    transfer_characteristics: u16,
    matrix_coefficients: u16,
    full_range_flag: bool,
) -> Vec<u8> {
    let mut payload = Vec::new();
    payload.extend_from_slice(b"nclx");
    payload.extend_from_slice(&colour_primaries.to_be_bytes());
    payload.extend_from_slice(&transfer_characteristics.to_be_bytes());
    payload.extend_from_slice(&matrix_coefficients.to_be_bytes());
    payload.push(if full_range_flag { 0x80 } else { 0x00 });
    make_basic_box(*b"colr", &payload)
}

fn make_colr_nclc_property(
    colour_primaries: u16,
    transfer_characteristics: u16,
    matrix_coefficients: u16,
) -> Vec<u8> {
    let mut payload = Vec::new();
    payload.extend_from_slice(b"nclc");
    payload.extend_from_slice(&colour_primaries.to_be_bytes());
    payload.extend_from_slice(&transfer_characteristics.to_be_bytes());
    payload.extend_from_slice(&matrix_coefficients.to_be_bytes());
    make_basic_box(*b"colr", &payload)
}

fn make_colr_icc_property(profile_type: [u8; 4], profile: &[u8]) -> Vec<u8> {
    let mut payload = Vec::new();
    payload.extend_from_slice(&profile_type);
    payload.extend_from_slice(profile);
    make_basic_box(*b"colr", &payload)
}

fn make_irot_property(rotation_steps_ccw: u8) -> Vec<u8> {
    make_basic_box(*b"irot", &[rotation_steps_ccw & 0x03])
}

fn make_imir_property(horizontal: bool) -> Vec<u8> {
    let axis = if horizontal { 1 } else { 0 };
    make_basic_box(*b"imir", &[axis])
}

fn make_clap_property(property: ImageCleanApertureProperty) -> Vec<u8> {
    let mut payload = Vec::new();
    payload.extend_from_slice(&property.clean_aperture_width_num.to_be_bytes());
    payload.extend_from_slice(&property.clean_aperture_width_den.to_be_bytes());
    payload.extend_from_slice(&property.clean_aperture_height_num.to_be_bytes());
    payload.extend_from_slice(&property.clean_aperture_height_den.to_be_bytes());
    payload.extend_from_slice(&property.horizontal_offset_num.to_be_bytes());
    payload.extend_from_slice(&property.horizontal_offset_den.to_be_bytes());
    payload.extend_from_slice(&property.vertical_offset_num.to_be_bytes());
    payload.extend_from_slice(&property.vertical_offset_den.to_be_bytes());
    make_basic_box(*b"clap", &payload)
}

fn make_meta_box(children: &[Vec<u8>]) -> Vec<u8> {
    let mut payload = Vec::new();
    payload.extend_from_slice(&[0x00, 0x00, 0x00, 0x00]); // version=0, flags=0
    for child in children {
        payload.extend_from_slice(child);
    }
    make_basic_box(*b"meta", &payload)
}

fn make_basic_box(box_type: [u8; 4], payload: &[u8]) -> Vec<u8> {
    let size = (BASIC_HEADER_SIZE + payload.len()) as u32;
    let mut out = Vec::with_capacity(size as usize);
    out.extend_from_slice(&size.to_be_bytes());
    out.extend_from_slice(&box_type);
    out.extend_from_slice(payload);
    out
}

fn make_large_box(box_type: [u8; 4], payload: &[u8]) -> Vec<u8> {
    let size = (BASIC_HEADER_SIZE + LARGE_SIZE_FIELD_SIZE + payload.len()) as u64;
    let mut out = Vec::with_capacity(size as usize);
    out.extend_from_slice(&1_u32.to_be_bytes());
    out.extend_from_slice(&box_type);
    out.extend_from_slice(&size.to_be_bytes());
    out.extend_from_slice(payload);
    out
}

fn make_uuid_box(uuid: [u8; 16], payload: &[u8]) -> Vec<u8> {
    let size = (BASIC_HEADER_SIZE + UUID_EXTENDED_TYPE_SIZE + payload.len()) as u32;
    let mut out = Vec::with_capacity(size as usize);
    out.extend_from_slice(&size.to_be_bytes());
    out.extend_from_slice(b"uuid");
    out.extend_from_slice(&uuid);
    out.extend_from_slice(payload);
    out
}

fn make_iloc_v0_wide_item(base_offset: u64, extents: &[(u64, u64)]) -> Vec<u8> {
    let mut iloc_payload = Vec::new();
    iloc_payload.extend_from_slice(&[0x00, 0x00, 0x00, 0x00]); // version=0, flags=0
    iloc_payload.extend_from_slice(&0x8880_u16.to_be_bytes()); // offset/length/base_offset=8
    iloc_payload.extend_from_slice(&1_u16.to_be_bytes()); // item_count
    iloc_payload.extend_from_slice(&1_u16.to_be_bytes()); // item_ID
    iloc_payload.extend_from_slice(&0_u16.to_be_bytes()); // data_reference_index
    iloc_payload.extend_from_slice(&base_offset.to_be_bytes());
    iloc_payload.extend_from_slice(&(extents.len() as u16).to_be_bytes());
    for (offset, length) in extents {
        iloc_payload.extend_from_slice(&offset.to_be_bytes());
        iloc_payload.extend_from_slice(&length.to_be_bytes());
    }
    make_basic_box(*b"iloc", &iloc_payload)
}

#[test]
fn boxes_lie_back_to_back_and_payloads_are_input_bytes() {
    let mut bytes = make_basic_box(*b"ftyp", &[1, 2, 3, 4]);
    bytes.extend_from_slice(&make_basic_box(*b"free", &[]));
    bytes.extend_from_slice(&make_large_box(*b"mdat", &[9, 8, 7]));
    let parsed = parse_boxes(&bytes).expect("three boxes should parse");
    assert_eq!(parsed.len(), 3);
    let mut expected_offset = 0_u64;
    for b in &parsed {
        assert_eq!(b.offset, expected_offset);
        let start = (b.offset + b.header.header_size as u64) as usize;
        let end = (b.offset + b.header.box_size) as usize;
        assert_eq!(b.payload, &bytes[start..end]);
        expected_offset += b.header.box_size;
    }
    assert_eq!(expected_offset, bytes.len() as u64);
}

#[test]
fn box_iter_yields_what_parse_boxes_collects() {
    let mut bytes = make_basic_box(*b"ftyp", &[1, 2, 3, 4]);
    bytes.extend_from_slice(&make_basic_box(*b"free", &[5]));
    let parsed = parse_boxes(&bytes).expect("boxes should parse");
    let mut iter = BoxIter::new(&bytes);
    for expected in &parsed {
        let next = iter.next().expect("iterator yields each box").expect("box parses");
        assert_eq!(&next, expected);
    }
    assert!(iter.next().is_none());
}

#[test]
fn heic_full_properties_are_the_preflight_properties_with_pixi_required() {
    let with_pixi = make_primary_heic_meta(make_iloc_v0_single_extent_items(&[(1, 0, 0, 0)]), &[]);
    let preflight = parse_primary_heic_item_preflight_properties(&with_pixi)
        .expect("preflight should parse");
    let full = parse_primary_heic_item_properties(&with_pixi).expect("full properties should parse");
    assert_eq!(full.item_id, preflight.item_id);
    assert_eq!(full.hvcc, preflight.hvcc);
    assert_eq!(full.ispe, preflight.ispe);
    assert_eq!(Some(full.pixi), preflight.pixi);
    assert_eq!(full.colr, preflight.colr);

    let without_pixi = make_primary_item_meta_with_properties(
        *b"hev1",
        make_iloc_v0_single_extent_items(&[(1, 0, 0, 0)]),
        &[make_hvcc_property(), make_ispe_property(16, 8)],
        &[],
    );
    let preflight = parse_primary_heic_item_preflight_properties(&without_pixi)
        .expect("preflight accepts a missing pixi");
    assert!(preflight.pixi.is_none());
    let err = parse_primary_heic_item_properties(&without_pixi).expect_err("pixi is required");
    assert_eq!(
        err,
        ParsePrimaryHeicPropertiesError::MissingRequiredProperty {
            item_id: 1,
            property_type: FourCc::new(*b"pixi"),
        }
    );
}

#[test]
fn heic_preflight_rejects_zero_extent_and_zero_depth_channels() {
    let zero_extent = make_primary_item_meta_with_properties(
        *b"hvc1",
        make_iloc_v0_single_extent_items(&[(1, 0, 0, 0)]),
        &[make_hvcc_property(), make_ispe_property(0, 8)],
        &[],
    );
    assert_eq!(
        parse_primary_heic_item_preflight_properties(&zero_extent).expect_err("zero width fails"),
        ParsePrimaryHeicPropertiesError::InvalidImageExtent { item_id: 1, width: 0, height: 8 }
    );
    let zero_depth = make_primary_item_meta_with_properties(
        *b"hvc1",
        make_iloc_v0_single_extent_items(&[(1, 0, 0, 0)]),
        &[make_hvcc_property(), make_ispe_property(4, 4), make_pixi_property(0, &[8, 0, 8])],
        &[],
    );
    assert_eq!(
        parse_primary_heic_item_preflight_properties(&zero_depth).expect_err("zero depth fails"),
        ParsePrimaryHeicPropertiesError::InvalidPixiBitsPerChannel { item_id: 1, channel_index: 1 }
    );
    let no_channels = make_primary_item_meta_with_properties(
        *b"hvc1",
        make_iloc_v0_single_extent_items(&[(1, 0, 0, 0)]),
        &[make_hvcc_property(), make_ispe_property(4, 4), make_pixi_property(0, &[])],
        &[],
    );
    assert_eq!(
        parse_primary_heic_item_preflight_properties(&no_channels).expect_err("no channels fails"),
        ParsePrimaryHeicPropertiesError::InvalidPixiChannelCount { item_id: 1, channel_count: 0 }
    );
}

#[test]
fn avif_properties_reject_zero_depth_channel() {
    let meta = make_primary_avif_meta_with_properties(
        make_iloc_v0_single_extent_items(&[(1, 0, 0, 0)]),
        &[make_av1c_property(), make_ispe_property(4, 4), make_pixi_property(0, &[8, 8, 0])],
        &[],
    );
    assert_eq!(
        parse_primary_avif_item_properties(&meta).expect_err("zero depth fails"),
        ParsePrimaryAvifPropertiesError::InvalidPixiBitsPerChannel { item_id: 1, channel_index: 2 }
    );
}

#[test]
fn grid_extraction_agrees_with_plain_extraction_on_coded_items() {
    let mdat = make_basic_box(*b"mdat", &[0xaa, 0xbb, 0xcc, 0xdd]);
    let iloc = make_iloc_v0_single_extent_items(&[(1, BASIC_HEADER_SIZE as u32, 1, 2)]);
    let meta = make_primary_heic_meta(iloc, &[]);
    let mut file = Vec::new();
    file.extend_from_slice(&mdat);
    file.extend_from_slice(&meta);
    let plain = extract_primary_heic_item_data(&file).expect("coded item extracts");
    assert_eq!(plain.payload, vec![0xbb, 0xcc]);
    let with_grid = extract_primary_heic_item_data_with_grid(&file).expect("coded item extracts");
    assert_eq!(with_grid, HeicPrimaryItemDataWithGrid::Coded(plain));
}

#[test]
fn item_payload_is_the_concatenation_of_its_extents() {
    let mdat = make_basic_box(*b"mdat", &[0, 1, 2, 3, 4, 5, 6, 7, 8, 9]);
    let iloc = make_iloc_v0_wide_item(BASIC_HEADER_SIZE as u64, &[(7, 3), (0, 2), (4, 0), (2, 1)]);
    let meta = make_primary_avif_meta(iloc, &[]);
    let mut file = Vec::new();
    file.extend_from_slice(&mdat);
    file.extend_from_slice(&meta);
    let extracted = extract_primary_avif_item_data(&file).expect("extents lie within the file");
    assert_eq!(extracted.payload, vec![7, 8, 9, 0, 1, 2]);
    assert_eq!(extracted.payload.len(), 3 + 2 + 0 + 1);
}

#[test]
fn extent_past_the_end_of_the_file_is_out_of_bounds() {
    let iloc = make_iloc_v0_wide_item(5, &[(0, 3), (10_000, 4)]);
    let meta = make_primary_avif_meta(iloc, &[]);
    let err = extract_primary_avif_item_data(&meta).expect_err("second extent is out of bounds");
    assert_eq!(
        err,
        ExtractAvifItemDataError::ExtentOutOfBounds {
            item_id: 1,
            construction_method: 0,
            start: 10_005,
            length: 4,
            available: meta.len() as u64,
        }
    );
}

#[test]
fn extent_offsets_that_overflow_are_reported() {
    let iloc = make_iloc_v0_wide_item(u64::MAX - 1, &[(2, 1)]);
    let meta = make_primary_heic_meta(iloc, &[]);
    let err = extract_primary_heic_item_data(&meta).expect_err("start overflows");
    assert_eq!(
        err,
        ExtractHeicItemDataError::ExtentOffsetOverflow {
            item_id: 1,
            base_offset: u64::MAX - 1,
            extent_offset: 2,
            extent_length: 1,
        }
    );
    let iloc = make_iloc_v0_wide_item(u64::MAX - 4, &[(2, 3)]);
    let meta = make_primary_heic_meta(iloc, &[]);
    let err = extract_primary_heic_item_data(&meta).expect_err("end overflows");
    assert_eq!(
        err,
        ExtractHeicItemDataError::ExtentOffsetOverflow {
            item_id: 1,
            base_offset: u64::MAX - 4,
            extent_offset: 2,
            extent_length: 3,
        }
    );
}

#[test]
fn extent_lengths_that_overflow_make_the_payload_too_large() {
    let iloc = make_iloc_v0_wide_item(0, &[(0, u64::MAX / 2 + 1), (0, u64::MAX / 2 + 1)]);
    let meta = make_primary_avif_meta(iloc, &[]);
    let err = extract_primary_avif_item_data(&meta).expect_err("total length overflows");
    assert_eq!(err, ExtractAvifItemDataError::PayloadTooLarge { item_id: 1, length: u64::MAX });
}

#[test]
fn unsupported_construction_method_is_reported() {
    let mut iloc_payload = Vec::new();
    iloc_payload.extend_from_slice(&[0x01, 0x00, 0x00, 0x00]); // version=1, flags=0
    iloc_payload.extend_from_slice(&0x4440_u16.to_be_bytes());
    iloc_payload.extend_from_slice(&1_u16.to_be_bytes()); // item_count
    iloc_payload.extend_from_slice(&1_u16.to_be_bytes()); // item_ID
    iloc_payload.extend_from_slice(&0x0002_u16.to_be_bytes()); // construction_method=2
    iloc_payload.extend_from_slice(&0_u16.to_be_bytes()); // data_reference_index
    iloc_payload.extend_from_slice(&0_u32.to_be_bytes()); // base_offset
    iloc_payload.extend_from_slice(&0_u16.to_be_bytes()); // extent_count
    let iloc = make_basic_box(*b"iloc", &iloc_payload);
    let meta = make_primary_heic_meta(iloc, &[]);
    let err = extract_primary_heic_item_data(&meta).expect_err("method 2 is unsupported");
    assert_eq!(
        err,
        ExtractHeicItemDataError::UnsupportedConstructionMethod { item_id: 1, construction_method: 2 }
    );
}

#[test]
fn grid_descriptor_with_wide_fields_and_too_short_descriptors() {
    let descriptor = vec![0x00, 0x01, 0x01, 0x00, 0x00, 0x01, 0x00, 0x00, 0x00, 0x00, 0x02, 0x00];
    let mdat = make_basic_box(*b"mdat", &descriptor);
    let iloc = make_iloc_v0_single_extent_items(&[(1, BASIC_HEADER_SIZE as u32, 0, 8)]);
    let iinf = make_iinf_with_entries(&[(1, *b"grid", b"grid")]);
    let meta = make_primary_grid_heic_meta(iloc, iinf, None, &[]);
    let mut file = Vec::new();
    file.extend_from_slice(&mdat);
    file.extend_from_slice(&meta);
    let err = extract_primary_heic_item_data_with_grid(&file).expect_err("8 bytes are too few");
    assert_eq!(
        err,
        ExtractHeicItemDataError::GridDescriptorTooSmall { item_id: 1, available: 8, required: 12 }
    );

    let iloc = make_iloc_v0_single_extent_items(&[(1, BASIC_HEADER_SIZE as u32, 0, 12)]);
    let iinf = make_iinf_with_entries(&[(1, *b"grid", b"grid")]);
    let meta = make_primary_grid_heic_meta(iloc, iinf, None, &[]);
    let mut file = Vec::new();
    file.extend_from_slice(&mdat);
    file.extend_from_slice(&meta);
    let err = extract_primary_heic_item_data_with_grid(&file).expect_err("no dimg references");
    assert_eq!(err, ExtractHeicItemDataError::MissingGridTileReferences { item_id: 1 });

    let iloc = make_iloc_v0_single_extent_items(&[(1, BASIC_HEADER_SIZE as u32, 0, 12)]);
    let iinf = make_iinf_with_entries(&[(1, *b"grid", b"grid")]);
    let iref = make_iref_dimg_v0(1, &[2, 3, 4]);
    let meta = make_primary_grid_heic_meta(iloc, iinf, Some(iref), &[]);
    let mut file = Vec::new();
    file.extend_from_slice(&mdat);
    file.extend_from_slice(&meta);
    let err = extract_primary_heic_item_data_with_grid(&file).expect_err("2x1 grid needs 2 tiles");
    assert_eq!(
        err,
        ExtractHeicItemDataError::GridTileCountMismatch {
            item_id: 1,
            rows: 2,
            columns: 1,
            expected: 2,
            actual: 3,
        }
    );

    let mut bad_version = descriptor.clone();
    bad_version[0] = 1;
    let mdat = make_basic_box(*b"mdat", &bad_version);
    let iloc = make_iloc_v0_single_extent_items(&[(1, BASIC_HEADER_SIZE as u32, 0, 12)]);
    let iinf = make_iinf_with_entries(&[(1, *b"grid", b"grid")]);
    let meta = make_primary_grid_heic_meta(iloc, iinf, None, &[]);
    let mut file = Vec::new();
    file.extend_from_slice(&mdat);
    file.extend_from_slice(&meta);
    let err = extract_primary_heic_item_data_with_grid(&file).expect_err("version 1 fails");
    assert_eq!(
        err,
        ExtractHeicItemDataError::UnsupportedGridDescriptorVersion { item_id: 1, version: 1 }
    );
}

#[test]
fn grid_tiles_without_item_info_or_with_wrong_type_are_rejected() {
    let descriptor = vec![0x00, 0x00, 0x00, 0x01, 0x00, 0x04, 0x00, 0x02];
    let mdat = make_basic_box(*b"mdat", &descriptor);
    let iloc = make_iloc_v0_single_extent_items(&[(1, BASIC_HEADER_SIZE as u32, 0, 8)]);
    let iinf = make_iinf_with_entries(&[(1, *b"grid", b"grid"), (2, *b"hvc1", b"tile")]);
    let iref = make_iref_dimg_v0(1, &[2, 3]);
    let meta = make_primary_grid_heic_meta(iloc, iinf, Some(iref), &[]);
    let mut file = Vec::new();
    file.extend_from_slice(&mdat);
    file.extend_from_slice(&meta);
    let err = extract_primary_heic_item_data_with_grid(&file).expect_err("tile 2 lacks hvcC");
    assert_eq!(
        err,
        ExtractHeicItemDataError::MissingGridTileCodecConfiguration { item_id: 1, tile_item_id: 2 }
    );

    let iloc = make_iloc_v0_single_extent_items(&[(1, BASIC_HEADER_SIZE as u32, 0, 8)]);
    let iinf = make_iinf_with_entries(&[(1, *b"grid", b"grid"), (3, *b"av01", b"tile")]);
    let iref = make_iref_dimg_v0(1, &[5, 3]);
    let meta = make_primary_grid_heic_meta(iloc, iinf, Some(iref), &[]);
    let mut file = Vec::new();
    file.extend_from_slice(&mdat);
    file.extend_from_slice(&meta);
    let err = extract_primary_heic_item_data_with_grid(&file).expect_err("tile 5 has no infe");
    assert_eq!(
        err,
        ExtractHeicItemDataError::MissingGridTileItemInfo { item_id: 1, tile_item_id: 5 }
    );

    let iloc = make_iloc_v0_single_extent_items(&[(1, BASIC_HEADER_SIZE as u32, 0, 8)]);
    let iinf = make_iinf_with_entries(&[(1, *b"grid", b"grid"), (3, *b"av01", b"tile")]);
    let iref = make_iref_dimg_v0(1, &[3, 3]);
    let meta = make_primary_grid_heic_meta(iloc, iinf, Some(iref), &[]);
    let mut file = Vec::new();
    file.extend_from_slice(&mdat);
    file.extend_from_slice(&meta);
    let err = extract_primary_heic_item_data_with_grid(&file).expect_err("tile 3 is AV1");
    assert_eq!(
        err,
        ExtractHeicItemDataError::UnexpectedGridTileItemType {
            item_id: 1,
            tile_item_id: 3,
            actual: FourCc::new(*b"av01"),
        }
    );
}

#[test]
fn primary_item_of_another_kind_is_rejected_by_each_entry_point() {
    let meta = make_primary_heic_meta_with_item_type(*b"jpeg", make_iloc_v0_single_extent_items(&[(1, 0, 0, 0)]), &[]);
    assert_eq!(
        extract_primary_heic_item_data_with_grid(&meta).expect_err("jpeg is not HEIC"),
        ExtractHeicItemDataError::UnexpectedPrimaryItemType { item_id: 1, actual: FourCc::new(*b"jpeg") }
    );
    assert_eq!(
        extract_primary_avif_item_data(&meta).expect_err("jpeg is not AVIF"),
        ExtractAvifItemDataError::UnexpectedPrimaryItemType { item_id: 1, actual: FourCc::new(*b"jpeg") }
    );
    assert_eq!(
        parse_primary_heic_item_properties(&meta).expect_err("jpeg is not HEIC"),
        ParsePrimaryHeicPropertiesError::UnexpectedPrimaryItemType { item_id: 1, actual: FourCc::new(*b"jpeg") }
    );
}

#[test]
fn files_without_meta_are_rejected() {
    let file = make_basic_box(*b"ftyp", &[0x68, 0x65, 0x69, 0x63, 0, 0, 0, 0]);
    assert_eq!(
        extract_primary_heic_item_data(&file).expect_err("no meta box"),
        ExtractHeicItemDataError::MissingMetaBox
    );
    assert_eq!(
        parse_primary_avif_item_properties(&file).expect_err("no meta box"),
        ParsePrimaryAvifPropertiesError::MissingMetaBox
    );
}

#[test]
fn nested_errors_convert_into_their_enclosing_errors() {
    let full = ParseFullBoxError::PayloadTooSmall { offset: 3, available: 1 };
    assert_eq!(ParseMetaBoxError::from(full.clone()), ParseMetaBoxError::FullBox(full.clone()));
    assert_eq!(ParseItemInfoBoxError::from(full.clone()), ParseItemInfoBoxError::FullBox(full));
    let boxed = ParseBoxError::TruncatedHeader { offset: 0, available: 2 };
    assert_eq!(
        ResolvePrimaryItemGraphError::from(boxed.clone()),
        ResolvePrimaryItemGraphError::ChildBox(boxed.clone())
    );
    assert_eq!(
        ParseItemPropertiesBoxError::from(ParseItemPropertyContainerBoxError::from(boxed.clone())),
        ParseItemPropertiesBoxError::PropertyContainer(ParseItemPropertyContainerBoxError::ChildBox(boxed))
    );
}

/// A grid file: descriptor of a 1x2 grid in `mdat`, tiles 2 and 3 located after it
/// (tile 3 only where `locate_tile_3`), the given properties in `ipco`, and for each
/// tile the given one-byte property indices.
fn make_grid_file_with_tile_properties(
    properties: &[Vec<u8>],
    tile_2_indices: &[u8],
    tile_3_indices: &[u8],
    locate_tile_3: bool,
) -> Vec<u8> {
    let grid_descriptor = [0x00, 0x00, 0x00, 0x01, 0x00, 0x04, 0x00, 0x02];
    let mut mdat_payload = grid_descriptor.to_vec();
    mdat_payload.extend_from_slice(&[0xaa, 0xbb, 0xcc]);
    let mdat = make_basic_box(*b"mdat", &mdat_payload);
    let base = BASIC_HEADER_SIZE as u32;
    let mut items = vec![(1_u16, base, 0_u32, 8_u32), (2_u16, base, 8, 1)];
    if locate_tile_3 {
        items.push((3_u16, base, 9, 2));
    }
    let iloc = make_iloc_v0_single_extent_items(&items);
    let iinf = make_iinf_with_entries(&[
        (1_u16, *b"grid", b"grid"),
        (2_u16, *b"hvc1", b"tile"),
        (3_u16, *b"hvc1", b"tile"),
    ]);
    let iref = make_iref_dimg_v0(1, &[2, 3]);
    let mut ipco_payload = Vec::new();
    for property in properties {
        ipco_payload.extend_from_slice(property);
    }
    let ipco = make_basic_box(*b"ipco", &ipco_payload);
    let mut ipma_payload = Vec::new();
    ipma_payload.extend_from_slice(&[0x00, 0x00, 0x00, 0x00]);
    ipma_payload.extend_from_slice(&2_u32.to_be_bytes());
    for (tile, indices) in [(2_u16, tile_2_indices), (3_u16, tile_3_indices)] {
        ipma_payload.extend_from_slice(&tile.to_be_bytes());
        ipma_payload.push(indices.len() as u8);
        ipma_payload.extend_from_slice(indices);
    }
    let ipma = make_basic_box(*b"ipma", &ipma_payload);
    let mut iprp_payload = ipco;
    iprp_payload.extend_from_slice(&ipma);
    let iprp = make_basic_box(*b"iprp", &iprp_payload);
    let pitm = make_basic_box(*b"pitm", &[0x00, 0x00, 0x00, 0x00, 0x00, 0x01]);
    let meta = make_meta_box(&[pitm, iloc, iinf, iprp, iref]);
    let mut file = mdat;
    file.extend_from_slice(&meta);
    file
}

#[test]
fn grid_tiles_skip_index_zero_and_other_properties() {
    let properties = vec![make_ispe_property(4, 2), make_hvcc_property()];
    let file = make_grid_file_with_tile_properties(&properties, &[0, 1, 2], &[2], true);
    match extract_primary_heic_item_data_with_grid(&file).expect("both tiles resolve") {
        HeicPrimaryItemDataWithGrid::Grid(grid) => {
            assert_eq!(grid.tile_item_ids, vec![2, 3]);
            let ids: Vec<u32> = grid.tiles.iter().map(|t| t.item_id).collect();
            assert_eq!(ids, vec![2, 3]);
            assert_eq!(grid.tiles[0].payload, vec![0xaa]);
            assert_eq!(grid.tiles[1].payload, vec![0xbb, 0xcc]);
        }
        other => panic!("expected grid data, got {other:?}"),
    }
}

#[test]
fn grid_tile_property_errors_are_reported_per_tile() {
    let properties = vec![make_hvcc_property()];
    let file = make_grid_file_with_tile_properties(&properties, &[1], &[5], true);
    assert_eq!(
        extract_primary_heic_item_data_with_grid(&file).expect_err("index 5 is out of range"),
        ExtractHeicItemDataError::GridTilePropertyIndexOutOfRange {
            item_id: 1,
            tile_item_id: 3,
            property_index: 5,
            available: 1,
        }
    );

    let properties = vec![make_hvcc_property(), make_hvcc_property()];
    let file = make_grid_file_with_tile_properties(&properties, &[1, 2], &[1], true);
    assert_eq!(
        extract_primary_heic_item_data_with_grid(&file).expect_err("two hvcC properties"),
        ExtractHeicItemDataError::DuplicateGridTileCodecConfiguration { item_id: 1, tile_item_id: 2 }
    );

    let properties = vec![make_hvcc_property_with_configuration_version(2)];
    let file = make_grid_file_with_tile_properties(&properties, &[1], &[1], true);
    match extract_primary_heic_item_data_with_grid(&file).expect_err("bad hvcC version") {
        ExtractHeicItemDataError::GridTileCodecConfiguration { item_id, tile_item_id, .. } => {
            assert_eq!((item_id, tile_item_id), (1, 2));
        }
        other => panic!("expected codec configuration error, got {other:?}"),
    }

    let properties = vec![make_hvcc_property()];
    let file = make_grid_file_with_tile_properties(&properties, &[1], &[1], false);
    assert_eq!(
        extract_primary_heic_item_data_with_grid(&file).expect_err("tile 3 has no location"),
        ExtractHeicItemDataError::MissingGridTileLocation { item_id: 1, tile_item_id: 3 }
    );
}

#[test]
fn iteration_at_a_base_offset_shifts_offsets_only() {
    let mut bytes = make_basic_box(*b"ftyp", &[1, 2, 3, 4]);
    bytes.extend_from_slice(&make_basic_box(*b"free", &[5]));
    bytes.extend_from_slice(&[0, 0, 0]);
    let mut at_zero = BoxIter::new(&bytes);
    let mut at_base = BoxIter::with_offset(&bytes, 1000);
    for _ in 0..2 {
        let a = at_zero.next().expect("box").expect("box parses");
        let b = at_base.next().expect("box").expect("box parses");
        assert_eq!(b.offset, a.offset + 1000);
        assert_eq!(b.header, a.header);
        assert_eq!(b.payload, a.payload);
    }
    match (at_zero.next(), at_base.next()) {
        (
            Some(Err(ParseBoxError::TruncatedHeader { offset: o0, available: a0 })),
            Some(Err(ParseBoxError::TruncatedHeader { offset: o1, available: a1 })),
        ) => {
            assert_eq!(o1, o0 + 1000);
            assert_eq!(a1, a0);
        }
        other => panic!("expected truncated headers, got {other:?}"),
    }
    assert!(at_zero.next().is_none());
    assert!(at_base.next().is_none());
}
