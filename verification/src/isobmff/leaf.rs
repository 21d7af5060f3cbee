use vstd::prelude::*;
use super::types::{
    Av1CodecConfigurationBox, Av1cModel, BoxModel, ColorInformation, ColorInformationModel,
    ColorInformationProperty, ColrModel, FileTypeBox, FileTypeModel, FourCc, FullBoxHeader,
    IccColorProfile, IccModel, ImageCleanApertureProperty, ImageMirrorDirection,
    ImageMirrorProperty, ImageRotationProperty, ImageSpatialExtentsProperty, MetaBox, MetaModel,
    NclxColorProfile, ParsedBox, PixelInformationProperty, PixiModel, PrimaryItemBox, res_view,
    AV1C_BOX_TYPE, BRAND_FIELD_SIZE, CLAP_BOX_TYPE, COLR_BOX_TYPE, FTYP_BOX_TYPE,
    FTYP_FIXED_FIELDS_SIZE, FULL_BOX_HEADER_SIZE, IMIR_BOX_TYPE, IROT_BOX_TYPE, ISPE_BOX_TYPE,
    META_BOX_TYPE, NCLC_COLOR_TYPE, NCLX_COLOR_TYPE, PITM_BOX_TYPE, PIXI_BOX_TYPE,
    PROF_COLOR_TYPE, RICC_COLOR_TYPE,
};
use super::errors::{
    ParseAv1CodecConfigurationBoxError, ParseColorInformationPropertyError, ParseFileTypeBoxError,
    ParseFullBoxError, ParseImageCleanAperturePropertyError, ParseImageMirrorPropertyError,
    ParseImageRotationPropertyError, ParseImageSpatialExtentsPropertyError, ParseMetaBoxError,
    ParsePixelInformationPropertyError, ParsePrimaryItemBoxError,
};
use super::bytes::{
    be16, be32, fourcc_at, i32_value_at, lemma_byte_fields, read_fourcc, read_i32_be, read_u16_be,
    read_u32_be, u32_value_at,
};

verus! {

/// Absolute offset of the payload of box `b`.
pub open spec fn box_payload_offset(b: BoxModel) -> u64 {
    (b.offset + b.header.header_size) as u64
}

/// Payload offsets stay within `u64` for a payload `p` at `off`.
pub open spec fn payload_fits(p: Seq<u8>, off: u64) -> bool {
    off + p.len() <= u64::MAX
}

// ---- ftyp ----

/// `ftyp`: major brand, minor version, then whole compatible brands.
pub open spec fn spec_ftyp_payload(p: Seq<u8>, off: u64) -> Result<FileTypeModel, ParseFileTypeBoxError> {
    if p.len() < 8 {
        Err(ParseFileTypeBoxError::PayloadTooSmall { offset: off, available: p.len() as usize })
    } else if (p.len() - 8) % 4 != 0 {
        Err(ParseFileTypeBoxError::IncompleteCompatibleBrand {
            offset: (off + 8) as u64,
            bytes: (p.len() - 8) as usize,
        })
    } else {
        Ok(FileTypeModel {
            major_brand: fourcc_at(p, 0),
            minor_version: be32(p, 4),
            compatible_brands: Seq::new(((p.len() - 8) / 4) as nat, |i: int| fourcc_at(p, 8 + 4 * i)),
        })
    }
}

pub fn parse_ftyp_payload(payload: &[u8], payload_offset: u64) -> (r: Result<FileTypeBox, ParseFileTypeBoxError>)
    requires
        payload_fits(payload@, payload_offset),
    ensures
        res_view(r) == spec_ftyp_payload(payload@, payload_offset),
{
    if payload.len() < FTYP_FIXED_FIELDS_SIZE {
        return Err(ParseFileTypeBoxError::PayloadTooSmall { offset: payload_offset, available: payload.len() });
    }
    let major_brand = read_fourcc(&payload[0..4]);
    let minor_version = read_u32_be(&payload[4..8]);
    let compatible_len = payload.len() - FTYP_FIXED_FIELDS_SIZE;
    let remainder = compatible_len % BRAND_FIELD_SIZE;
    if remainder != 0 {
        return Err(ParseFileTypeBoxError::IncompleteCompatibleBrand {
            offset: payload_offset + FTYP_FIXED_FIELDS_SIZE as u64,
            bytes: compatible_len,
        });
    }
    let count = compatible_len / BRAND_FIELD_SIZE;
    assert(payload@.len() == 8 + 4 * count);
    let mut compatible_brands: Vec<FourCc> = Vec::new();
    let mut i: usize = 0;
    while i < count
        invariant
            count == (payload@.len() - 8) / 4,
            payload@.len() == 8 + 4 * count,
            payload@.len() == payload.len(),
            (payload@.len() - 8) % 4 == 0,
            i <= count,
            compatible_brands@.len() == i,
            forall|j: int| 0 <= j < i ==> compatible_brands@[j] == fourcc_at(payload@, 8 + 4 * j),
        decreases count - i,
    {
        let start = FTYP_FIXED_FIELDS_SIZE + i * BRAND_FIELD_SIZE;
        compatible_brands.push(read_fourcc(&payload[start..start + 4]));
        i = i + 1;
    }
    let r = FileTypeBox { major_brand, minor_version, compatible_brands };
    assert(r@.compatible_brands =~= Seq::new(((payload@.len() - 8) / 4) as nat, |i: int| fourcc_at(payload@, 8 + 4 * i)));
    Ok(r)
}

// ---- FullBox header ----

/// FullBox header: one version byte and 24 flag bits, then the rest of the payload.
pub open spec fn spec_full_box(p: Seq<u8>, off: u64) -> Result<(FullBoxHeader, Seq<u8>, u64), ParseFullBoxError> {
    if p.len() < 4 {
        Err(ParseFullBoxError::PayloadTooSmall { offset: off, available: p.len() as usize })
    } else {
        Ok((
            FullBoxHeader {
                version: p[0],
                flags: (p[1] as int * 65536 + p[2] as int * 256 + p[3] as int) as u32,
            },
            p.subrange(4, p.len() as int),
            (off + 4) as u64,
        ))
    }
}

pub fn parse_full_box_payload(payload: &[u8], payload_offset: u64) -> (r: Result<(FullBoxHeader, &[u8], u64), ParseFullBoxError>)
    requires
        payload_fits(payload@, payload_offset),
    ensures
        match r {
            Ok((h, rest, rest_off)) => spec_full_box(payload@, payload_offset) == Ok::<(FullBoxHeader, Seq<u8>, u64), ParseFullBoxError>((h, rest@, rest_off)),
            Err(e) => spec_full_box(payload@, payload_offset) == Err::<(FullBoxHeader, Seq<u8>, u64), ParseFullBoxError>(e),
        },
{
    if payload.len() < FULL_BOX_HEADER_SIZE {
        return Err(ParseFullBoxError::PayloadTooSmall { offset: payload_offset, available: payload.len() });
    }
    let full_box = FullBoxHeader {
        version: payload[0],
        flags: (payload[1] as u32) * 65536 + (payload[2] as u32) * 256 + (payload[3] as u32),
    };
    Ok((full_box, &payload[FULL_BOX_HEADER_SIZE..payload.len()], payload_offset + FULL_BOX_HEADER_SIZE as u64))
}

// ---- pitm ----

/// `pitm`: a 16-bit item id in version 0, a 32-bit one in version 1.
pub open spec fn spec_pitm_payload(p: Seq<u8>, off: u64) -> Result<PrimaryItemBox, ParsePrimaryItemBoxError> {
    match spec_full_box(p, off) {
        Err(e) => Err(ParsePrimaryItemBoxError::FullBox(e)),
        Ok((full_box, rest, rest_off)) => if full_box.version == 0 {
            if rest.len() < 2 {
                Err(ParsePrimaryItemBoxError::PayloadTooSmallForItemId {
                    offset: rest_off,
                    version: 0,
                    available: rest.len() as usize,
                    required: 2,
                })
            } else {
                Ok(PrimaryItemBox { full_box, item_id: be16(rest, 0) as u32 })
            }
        } else if full_box.version == 1 {
            if rest.len() < 4 {
                Err(ParsePrimaryItemBoxError::PayloadTooSmallForItemId {
                    offset: rest_off,
                    version: 1,
                    available: rest.len() as usize,
                    required: 4,
                })
            } else {
                Ok(PrimaryItemBox { full_box, item_id: be32(rest, 0) })
            }
        } else {
            Err(ParsePrimaryItemBoxError::UnsupportedVersion { offset: off, version: full_box.version })
        },
    }
}

pub fn parse_pitm_payload(payload: &[u8], payload_offset: u64) -> (r: Result<PrimaryItemBox, ParsePrimaryItemBoxError>)
    requires
        payload_fits(payload@, payload_offset),
    ensures
        r == spec_pitm_payload(payload@, payload_offset),
{
    let (full_box, pitm_payload, pitm_payload_offset) = match parse_full_box_payload(payload, payload_offset) {
        Ok(v) => v,
        Err(e) => return Err(ParsePrimaryItemBoxError::FullBox(e)),
    };
    let item_id = if full_box.version == 0 {
        let required: usize = 2;
        if pitm_payload.len() < required {
            return Err(ParsePrimaryItemBoxError::PayloadTooSmallForItemId {
                offset: pitm_payload_offset,
                version: full_box.version,
                available: pitm_payload.len(),
                required,
            });
        }
        read_u16_be(&pitm_payload[0..required]) as u32
    } else if full_box.version == 1 {
        let required: usize = 4;
        if pitm_payload.len() < required {
            return Err(ParsePrimaryItemBoxError::PayloadTooSmallForItemId {
                offset: pitm_payload_offset,
                version: full_box.version,
                available: pitm_payload.len(),
                required,
            });
        }
        read_u32_be(&pitm_payload[0..required])
    } else {
        return Err(ParsePrimaryItemBoxError::UnsupportedVersion { offset: payload_offset, version: full_box.version });
    };
    Ok(PrimaryItemBox { full_box, item_id })
}

// ---- av1C ----

/// `av1C`: marker bit and version, profile and level, then the colour flags byte,
/// the presentation delay byte and the configuration OBUs.
pub open spec fn spec_av1c_payload(p: Seq<u8>, off: u64) -> Result<Av1cModel, ParseAv1CodecConfigurationBoxError> {
    if p.len() < 4 {
        Err(ParseAv1CodecConfigurationBoxError::PayloadTooSmall { offset: off, available: p.len() as usize, required: 4 })
    } else if p[0] & 0x80 == 0 {
        Err(ParseAv1CodecConfigurationBoxError::InvalidMarkerBit { offset: off, value: p[0] })
    } else {
        let present = p[3] & 0x10 != 0;
        Ok(Av1cModel {
            marker: true,
            version: p[0] & 0x7F,
            seq_profile: (p[1] >> 5) & 0x07,
            seq_level_idx_0: p[1] & 0x1F,
            seq_tier_0: p[2] & 0x80 != 0,
            high_bitdepth: p[2] & 0x40 != 0,
            twelve_bit: p[2] & 0x20 != 0,
            monochrome: p[2] & 0x10 != 0,
            chroma_subsampling_x: p[2] & 0x08 != 0,
            chroma_subsampling_y: p[2] & 0x04 != 0,
            chroma_sample_position: p[2] & 0x03,
            initial_presentation_delay_present: present,
            initial_presentation_delay_minus_one: if present { Some(p[3] & 0x0F) } else { None },
            config_obus: p.subrange(4, p.len() as int),
        })
    }
}

pub fn parse_av1c_payload(payload: &[u8], payload_offset: u64) -> (r: Result<Av1CodecConfigurationBox, ParseAv1CodecConfigurationBoxError>)
    ensures
        res_view(r) == spec_av1c_payload(payload@, payload_offset),
{
    if payload.len() < 4 {
        return Err(ParseAv1CodecConfigurationBoxError::PayloadTooSmall {
            offset: payload_offset,
            available: payload.len(),
            required: 4,
        });
    }
    let byte0 = payload[0];
    if (byte0 & 0x80) == 0 {
        return Err(ParseAv1CodecConfigurationBoxError::InvalidMarkerBit { offset: payload_offset, value: byte0 });
    }
    let byte1 = payload[1];
    let byte2 = payload[2];
    let byte3 = payload[3];
    let initial_presentation_delay_present = (byte3 & 0x10) != 0;
    let initial_presentation_delay_minus_one = if initial_presentation_delay_present {
        Some(byte3 & 0x0F)
    } else {
        None
    };
    Ok(Av1CodecConfigurationBox {
        marker: true,
        version: byte0 & 0x7F,
        seq_profile: (byte1 >> 5) & 0x07,
        seq_level_idx_0: byte1 & 0x1F,
        seq_tier_0: (byte2 & 0x80) != 0,
        high_bitdepth: (byte2 & 0x40) != 0,
        twelve_bit: (byte2 & 0x20) != 0,
        monochrome: (byte2 & 0x10) != 0,
        chroma_subsampling_x: (byte2 & 0x08) != 0,
        chroma_subsampling_y: (byte2 & 0x04) != 0,
        chroma_sample_position: byte2 & 0x03,
        initial_presentation_delay_present,
        initial_presentation_delay_minus_one,
        config_obus: vstd::slice::slice_to_vec(&payload[4..payload.len()]),
    })
}

// ---- ispe ----

/// `ispe`: version 0 FullBox, then 32-bit width and height.
pub open spec fn spec_ispe_payload(p: Seq<u8>, off: u64) -> Result<ImageSpatialExtentsProperty, ParseImageSpatialExtentsPropertyError> {
    match spec_full_box(p, off) {
        Err(e) => Err(ParseImageSpatialExtentsPropertyError::FullBox(e)),
        Ok((full_box, rest, rest_off)) => if full_box.version != 0 {
            Err(ParseImageSpatialExtentsPropertyError::UnsupportedVersion { offset: off, version: full_box.version })
        } else if rest.len() < 8 {
            Err(ParseImageSpatialExtentsPropertyError::PayloadTooSmall { offset: rest_off, available: rest.len() as usize, required: 8 })
        } else {
            Ok(ImageSpatialExtentsProperty { full_box, width: be32(rest, 0), height: be32(rest, 4) })
        },
    }
}

pub fn parse_ispe_payload(payload: &[u8], payload_offset: u64) -> (r: Result<ImageSpatialExtentsProperty, ParseImageSpatialExtentsPropertyError>)
    requires
        payload_fits(payload@, payload_offset),
    ensures
        r == spec_ispe_payload(payload@, payload_offset),
{
    let (full_box, ispe_payload, ispe_payload_offset) = match parse_full_box_payload(payload, payload_offset) {
        Ok(v) => v,
        Err(e) => return Err(ParseImageSpatialExtentsPropertyError::FullBox(e)),
    };
    if full_box.version != 0 {
        return Err(ParseImageSpatialExtentsPropertyError::UnsupportedVersion { offset: payload_offset, version: full_box.version });
    }
    let required: usize = 8;
    if ispe_payload.len() < required {
        return Err(ParseImageSpatialExtentsPropertyError::PayloadTooSmall {
            offset: ispe_payload_offset,
            available: ispe_payload.len(),
            required,
        });
    }
    Ok(ImageSpatialExtentsProperty {
        full_box,
        width: read_u32_be(&ispe_payload[0..4]),
        height: read_u32_be(&ispe_payload[4..8]),
    })
}

// ---- pixi ----

/// `pixi`: version 0 FullBox, a channel count, then one bit depth per channel.
pub open spec fn spec_pixi_payload(p: Seq<u8>, off: u64) -> Result<PixiModel, ParsePixelInformationPropertyError> {
    match spec_full_box(p, off) {
        Err(e) => Err(ParsePixelInformationPropertyError::FullBox(e)),
        Ok((full_box, rest, rest_off)) => if full_box.version != 0 {
            Err(ParsePixelInformationPropertyError::UnsupportedVersion { offset: off, version: full_box.version })
        } else if rest.len() == 0 {
            Err(ParsePixelInformationPropertyError::PayloadTooSmall {
                offset: rest_off,
                context: "num_channels",
                available: 0,
                required: 1,
            })
        } else if rest.len() - 1 < rest[0] {
            Err(ParsePixelInformationPropertyError::PayloadTooSmall {
                offset: (rest_off + 1) as u64,
                context: "bits_per_channel",
                available: (rest.len() - 1) as usize,
                required: rest[0] as usize,
            })
        } else {
            Ok(PixiModel { full_box, bits_per_channel: rest.subrange(1, 1 + rest[0]) })
        },
    }
}

pub fn parse_pixi_payload(payload: &[u8], payload_offset: u64) -> (r: Result<PixelInformationProperty, ParsePixelInformationPropertyError>)
    requires
        payload_fits(payload@, payload_offset),
    ensures
        res_view(r) == spec_pixi_payload(payload@, payload_offset),
{
    let (full_box, pixi_payload, pixi_payload_offset) = match parse_full_box_payload(payload, payload_offset) {
        Ok(v) => v,
        Err(e) => return Err(ParsePixelInformationPropertyError::FullBox(e)),
    };
    if full_box.version != 0 {
        return Err(ParsePixelInformationPropertyError::UnsupportedVersion { offset: payload_offset, version: full_box.version });
    }
    if pixi_payload.len() == 0 {
        return Err(ParsePixelInformationPropertyError::PayloadTooSmall {
            offset: pixi_payload_offset,
            context: "num_channels",
            available: 0,
            required: 1,
        });
    }
    let num_channels = pixi_payload[0] as usize;
    let available_channels = pixi_payload.len().saturating_sub(1);
    if available_channels < num_channels {
        return Err(ParsePixelInformationPropertyError::PayloadTooSmall {
            offset: pixi_payload_offset + 1,
            context: "bits_per_channel",
            available: available_channels,
            required: num_channels,
        });
    }
    Ok(PixelInformationProperty {
        full_box,
        bits_per_channel: vstd::slice::slice_to_vec(&pixi_payload[1..1 + num_channels]),
    })
}

// ---- colr ----

/// `colr`: a colour type, then an NCLX profile (with full-range bit), an NCLC
/// profile (full range when the matrix is 0), or an ICC profile.
pub open spec fn spec_colr_payload(p: Seq<u8>, off: u64) -> Result<ColrModel, ParseColorInformationPropertyError> {
    if p.len() < 4 {
        Err(ParseColorInformationPropertyError::PayloadTooSmall {
            offset: off,
            context: "colour_type",
            available: p.len() as usize,
            required: 4,
        })
    } else {
        let colour_type = fourcc_at(p, 0);
        let prof = p.subrange(4, p.len() as int);
        let prof_off = (off + 4) as u64;
        if colour_type.0 == NCLX_COLOR_TYPE {
            if prof.len() < 7 {
                Err(ParseColorInformationPropertyError::PayloadTooSmall {
                    offset: prof_off,
                    context: "nclx_profile",
                    available: prof.len() as usize,
                    required: 7,
                })
            } else {
                Ok(ColrModel {
                    colour_type,
                    information: ColorInformationModel::Nclx(NclxColorProfile {
                        colour_primaries: be16(prof, 0),
                        transfer_characteristics: be16(prof, 2),
                        matrix_coefficients: be16(prof, 4),
                        full_range_flag: prof[6] & 0x80 != 0,
                    }),
                })
            }
        } else if colour_type.0 == NCLC_COLOR_TYPE {
            if prof.len() < 6 {
                Err(ParseColorInformationPropertyError::PayloadTooSmall {
                    offset: prof_off,
                    context: "nclc_profile",
                    available: prof.len() as usize,
                    required: 6,
                })
            } else {
                Ok(ColrModel {
                    colour_type,
                    information: ColorInformationModel::Nclx(NclxColorProfile {
                        colour_primaries: be16(prof, 0),
                        transfer_characteristics: be16(prof, 2),
                        matrix_coefficients: be16(prof, 4),
                        full_range_flag: be16(prof, 4) == 0,
                    }),
                })
            }
        } else if colour_type.0 == PROF_COLOR_TYPE || colour_type.0 == RICC_COLOR_TYPE {
            Ok(ColrModel {
                colour_type,
                information: ColorInformationModel::Icc(IccModel { profile_type: colour_type, profile: prof }),
            })
        } else {
            Err(ParseColorInformationPropertyError::UnknownColourType { offset: off, colour_type })
        }
    }
}

pub fn parse_colr_payload(payload: &[u8], payload_offset: u64) -> (r: Result<ColorInformationProperty, ParseColorInformationPropertyError>)
    requires
        payload_fits(payload@, payload_offset),
    ensures
        res_view(r) == spec_colr_payload(payload@, payload_offset),
{
    if payload.len() < BRAND_FIELD_SIZE {
        return Err(ParseColorInformationPropertyError::PayloadTooSmall {
            offset: payload_offset,
            context: "colour_type",
            available: payload.len(),
            required: BRAND_FIELD_SIZE,
        });
    }
    let colour_type = read_fourcc(&payload[0..4]);
    let profile_payload = &payload[4..payload.len()];
    let profile_payload_offset = payload_offset + 4;
    if colour_type.is(NCLX_COLOR_TYPE) {
        let required: usize = 7;
        if profile_payload.len() < required {
            return Err(ParseColorInformationPropertyError::PayloadTooSmall {
                offset: profile_payload_offset,
                context: "nclx_profile",
                available: profile_payload.len(),
                required,
            });
        }
        return Ok(ColorInformationProperty {
            colour_type,
            information: ColorInformation::Nclx(NclxColorProfile {
                colour_primaries: read_u16_be(&profile_payload[0..2]),
                transfer_characteristics: read_u16_be(&profile_payload[2..4]),
                matrix_coefficients: read_u16_be(&profile_payload[4..6]),
                full_range_flag: (profile_payload[6] & 0x80) != 0,
            }),
        });
    }
    if colour_type.is(NCLC_COLOR_TYPE) {
        let required: usize = 6;
        if profile_payload.len() < required {
            return Err(ParseColorInformationPropertyError::PayloadTooSmall {
                offset: profile_payload_offset,
                context: "nclc_profile",
                available: profile_payload.len(),
                required,
            });
        }
        let matrix_coefficients = read_u16_be(&profile_payload[4..6]);
        return Ok(ColorInformationProperty {
            colour_type,
            information: ColorInformation::Nclx(NclxColorProfile {
                colour_primaries: read_u16_be(&profile_payload[0..2]),
                transfer_characteristics: read_u16_be(&profile_payload[2..4]),
                matrix_coefficients,
                full_range_flag: matrix_coefficients == 0,
            }),
        });
    }
    if colour_type.is(PROF_COLOR_TYPE) || colour_type.is(RICC_COLOR_TYPE) {
        return Ok(ColorInformationProperty {
            colour_type,
            information: ColorInformation::Icc(IccColorProfile {
                profile_type: colour_type,
                profile: vstd::slice::slice_to_vec(profile_payload),
            }),
        });
    }
    Err(ParseColorInformationPropertyError::UnknownColourType { offset: payload_offset, colour_type })
}

// ---- irot / imir / clap ----

/// `irot`: the low two bits count quarter turns counter-clockwise.
pub open spec fn spec_irot_payload(p: Seq<u8>, off: u64) -> Result<ImageRotationProperty, ParseImageRotationPropertyError> {
    if p.len() < 1 {
        Err(ParseImageRotationPropertyError::PayloadTooSmall { offset: off, available: p.len() as usize, required: 1 })
    } else {
        Ok(ImageRotationProperty { rotation_ccw_degrees: ((p[0] & 0x03) as int * 90) as u16 })
    }
}

pub fn parse_irot_payload(payload: &[u8], payload_offset: u64) -> (r: Result<ImageRotationProperty, ParseImageRotationPropertyError>)
    ensures
        r == spec_irot_payload(payload@, payload_offset),
        r matches Ok(rot) ==> rot.rotation_ccw_degrees == 0 || rot.rotation_ccw_degrees == 90
            || rot.rotation_ccw_degrees == 180 || rot.rotation_ccw_degrees == 270,
{
    let required: usize = 1;
    if payload.len() < required {
        return Err(ParseImageRotationPropertyError::PayloadTooSmall {
            offset: payload_offset,
            available: payload.len(),
            required,
        });
    }
    let first = payload[0];
    let steps = first & 0x03;
    assert(first & 0x03 <= 3) by (bit_vector);
    let rotation_ccw_degrees = (steps as u16) * 90;
    Ok(ImageRotationProperty { rotation_ccw_degrees })
}

/// `imir`: bit 0 set mirrors horizontally, clear mirrors vertically.
pub open spec fn spec_imir_payload(p: Seq<u8>, off: u64) -> Result<ImageMirrorProperty, ParseImageMirrorPropertyError> {
    if p.len() < 1 {
        Err(ParseImageMirrorPropertyError::PayloadTooSmall { offset: off, available: p.len() as usize, required: 1 })
    } else if p[0] & 0x01 != 0 {
        Ok(ImageMirrorProperty { direction: ImageMirrorDirection::Horizontal })
    } else {
        Ok(ImageMirrorProperty { direction: ImageMirrorDirection::Vertical })
    }
}

pub fn parse_imir_payload(payload: &[u8], payload_offset: u64) -> (r: Result<ImageMirrorProperty, ParseImageMirrorPropertyError>)
    ensures
        r == spec_imir_payload(payload@, payload_offset),
{
    let required: usize = 1;
    if payload.len() < required {
        return Err(ParseImageMirrorPropertyError::PayloadTooSmall {
            offset: payload_offset,
            available: payload.len(),
            required,
        });
    }
    let direction = if (payload[0] & 0x01) != 0 {
        ImageMirrorDirection::Horizontal
    } else {
        ImageMirrorDirection::Vertical
    };
    Ok(ImageMirrorProperty { direction })
}

/// `clap`: eight 32-bit fields (offsets signed); no denominator may be zero, the
/// first zero one in field order being reported.
pub open spec fn spec_clap_payload(p: Seq<u8>, off: u64) -> Result<ImageCleanApertureProperty, ParseImageCleanAperturePropertyError> {
    if p.len() < 32 {
        Err(ParseImageCleanAperturePropertyError::PayloadTooSmall { offset: off, available: p.len() as usize, required: 32 })
    } else if be32(p, 4) == 0 {
        Err(ParseImageCleanAperturePropertyError::ZeroDenominator { offset: (off + 4) as u64, field: "clean_aperture_width_den" })
    } else if be32(p, 12) == 0 {
        Err(ParseImageCleanAperturePropertyError::ZeroDenominator { offset: (off + 12) as u64, field: "clean_aperture_height_den" })
    } else if be32(p, 20) == 0 {
        Err(ParseImageCleanAperturePropertyError::ZeroDenominator { offset: (off + 20) as u64, field: "horizontal_offset_den" })
    } else if be32(p, 28) == 0 {
        Err(ParseImageCleanAperturePropertyError::ZeroDenominator { offset: (off + 28) as u64, field: "vertical_offset_den" })
    } else {
        Ok(ImageCleanApertureProperty {
            clean_aperture_width_num: be32(p, 0),
            clean_aperture_width_den: be32(p, 4),
            clean_aperture_height_num: be32(p, 8),
            clean_aperture_height_den: be32(p, 12),
            horizontal_offset_num: be32(p, 16) as i32,
            horizontal_offset_den: be32(p, 20),
            vertical_offset_num: be32(p, 24) as i32,
            vertical_offset_den: be32(p, 28),
        })
    }
}

pub fn parse_clap_payload(payload: &[u8], payload_offset: u64) -> (r: Result<ImageCleanApertureProperty, ParseImageCleanAperturePropertyError>)
    requires
        payload_fits(payload@, payload_offset),
    ensures
        r == spec_clap_payload(payload@, payload_offset),
{
    let required: usize = 32;
    if payload.len() < required {
        return Err(ParseImageCleanAperturePropertyError::PayloadTooSmall {
            offset: payload_offset,
            available: payload.len(),
            required,
        });
    }
    let clean_aperture_width_num = read_u32_be(&payload[0..4]);
    let clean_aperture_width_den = read_u32_be(&payload[4..8]);
    let clean_aperture_height_num = read_u32_be(&payload[8..12]);
    let clean_aperture_height_den = read_u32_be(&payload[12..16]);
    let horizontal_offset_num = read_i32_be(&payload[16..20]);
    let horizontal_offset_den = read_u32_be(&payload[20..24]);
    let vertical_offset_num = read_i32_be(&payload[24..28]);
    let vertical_offset_den = read_u32_be(&payload[28..32]);
    if clean_aperture_width_den == 0 {
        return Err(ParseImageCleanAperturePropertyError::ZeroDenominator {
            offset: payload_offset + 4,
            field: "clean_aperture_width_den",
        });
    }
    if clean_aperture_height_den == 0 {
        return Err(ParseImageCleanAperturePropertyError::ZeroDenominator {
            offset: payload_offset + 12,
            field: "clean_aperture_height_den",
        });
    }
    if horizontal_offset_den == 0 {
        return Err(ParseImageCleanAperturePropertyError::ZeroDenominator {
            offset: payload_offset + 20,
            field: "horizontal_offset_den",
        });
    }
    if vertical_offset_den == 0 {
        return Err(ParseImageCleanAperturePropertyError::ZeroDenominator {
            offset: payload_offset + 28,
            field: "vertical_offset_den",
        });
    }
    Ok(ImageCleanApertureProperty {
        clean_aperture_width_num,
        clean_aperture_width_den,
        clean_aperture_height_num,
        clean_aperture_height_den,
        horizontal_offset_num,
        horizontal_offset_den,
        vertical_offset_num,
        vertical_offset_den,
    })
}

} // verus!

verus! {

pub open spec fn spec_ftyp_box(b: BoxModel) -> Result<FileTypeModel, ParseFileTypeBoxError> {
    if b.header.box_type.0 != FTYP_BOX_TYPE {
        Err(ParseFileTypeBoxError::UnexpectedBoxType { offset: b.offset, actual: b.header.box_type })
    } else {
        spec_ftyp_payload(b.payload, box_payload_offset(b))
    }
}

pub open spec fn spec_full_box_header(b: BoxModel) -> Result<FullBoxHeader, ParseFullBoxError> {
    match spec_full_box(b.payload, box_payload_offset(b)) {
        Ok((h, _, _)) => Ok(h),
        Err(e) => Err(e),
    }
}

/// `meta`: a version 0 FullBox whose remaining payload holds the child boxes.
pub open spec fn spec_meta_box(b: BoxModel) -> Result<MetaModel, ParseMetaBoxError> {
    if b.header.box_type.0 != META_BOX_TYPE {
        Err(ParseMetaBoxError::UnexpectedBoxType { offset: b.offset, actual: b.header.box_type })
    } else {
        match spec_full_box(b.payload, box_payload_offset(b)) {
            Err(e) => Err(ParseMetaBoxError::FullBox(e)),
            Ok((full_box, rest, rest_off)) => if full_box.version != 0 {
                Err(ParseMetaBoxError::UnsupportedVersion { offset: box_payload_offset(b), version: full_box.version })
            } else {
                Ok(MetaModel { full_box, payload: rest, payload_offset: rest_off })
            },
        }
    }
}

pub open spec fn spec_pitm_box(b: BoxModel) -> Result<PrimaryItemBox, ParsePrimaryItemBoxError> {
    if b.header.box_type.0 != PITM_BOX_TYPE {
        Err(ParsePrimaryItemBoxError::UnexpectedBoxType { offset: b.offset, actual: b.header.box_type })
    } else {
        spec_pitm_payload(b.payload, box_payload_offset(b))
    }
}

pub open spec fn spec_av1c_box(b: BoxModel) -> Result<Av1cModel, ParseAv1CodecConfigurationBoxError> {
    if b.header.box_type.0 != AV1C_BOX_TYPE {
        Err(ParseAv1CodecConfigurationBoxError::UnexpectedBoxType { offset: b.offset, actual: b.header.box_type })
    } else {
        spec_av1c_payload(b.payload, box_payload_offset(b))
    }
}

pub open spec fn spec_ispe_box(b: BoxModel) -> Result<ImageSpatialExtentsProperty, ParseImageSpatialExtentsPropertyError> {
    if b.header.box_type.0 != ISPE_BOX_TYPE {
        Err(ParseImageSpatialExtentsPropertyError::UnexpectedBoxType { offset: b.offset, actual: b.header.box_type })
    } else {
        spec_ispe_payload(b.payload, box_payload_offset(b))
    }
}

pub open spec fn spec_pixi_box(b: BoxModel) -> Result<PixiModel, ParsePixelInformationPropertyError> {
    if b.header.box_type.0 != PIXI_BOX_TYPE {
        Err(ParsePixelInformationPropertyError::UnexpectedBoxType { offset: b.offset, actual: b.header.box_type })
    } else {
        spec_pixi_payload(b.payload, box_payload_offset(b))
    }
}

pub open spec fn spec_colr_box(b: BoxModel) -> Result<ColrModel, ParseColorInformationPropertyError> {
    if b.header.box_type.0 != COLR_BOX_TYPE {
        Err(ParseColorInformationPropertyError::UnexpectedBoxType { offset: b.offset, actual: b.header.box_type })
    } else {
        spec_colr_payload(b.payload, box_payload_offset(b))
    }
}

pub open spec fn spec_irot_box(b: BoxModel) -> Result<ImageRotationProperty, ParseImageRotationPropertyError> {
    if b.header.box_type.0 != IROT_BOX_TYPE {
        Err(ParseImageRotationPropertyError::UnexpectedBoxType { offset: b.offset, actual: b.header.box_type })
    } else {
        spec_irot_payload(b.payload, box_payload_offset(b))
    }
}

pub open spec fn spec_imir_box(b: BoxModel) -> Result<ImageMirrorProperty, ParseImageMirrorPropertyError> {
    if b.header.box_type.0 != IMIR_BOX_TYPE {
        Err(ParseImageMirrorPropertyError::UnexpectedBoxType { offset: b.offset, actual: b.header.box_type })
    } else {
        spec_imir_payload(b.payload, box_payload_offset(b))
    }
}

pub open spec fn spec_clap_box(b: BoxModel) -> Result<ImageCleanApertureProperty, ParseImageCleanAperturePropertyError> {
    if b.header.box_type.0 != CLAP_BOX_TYPE {
        Err(ParseImageCleanAperturePropertyError::UnexpectedBoxType { offset: b.offset, actual: b.header.box_type })
    } else {
        spec_clap_payload(b.payload, box_payload_offset(b))
    }
}

impl<'a> ParsedBox<'a> {
    /// Parse this box payload as an `ftyp` box.
    pub fn parse_ftyp(&self) -> (r: Result<FileTypeBox, ParseFileTypeBoxError>)
        requires
            self.offsets_fit(),
        ensures
            res_view(r) == spec_ftyp_box(self@),
    {
        if !self.header.box_type.is(FTYP_BOX_TYPE) {
            return Err(ParseFileTypeBoxError::UnexpectedBoxType { offset: self.offset, actual: self.header.box_type });
        }
        parse_ftyp_payload(self.payload, self.payload_offset())
    }

    /// Parse this box payload as a FullBox header.
    pub fn parse_full_box_header(&self) -> (r: Result<FullBoxHeader, ParseFullBoxError>)
        requires
            self.offsets_fit(),
        ensures
            r == spec_full_box_header(self@),
    {
        match parse_full_box_payload(self.payload, self.payload_offset()) {
            Ok((full_box, _, _)) => Ok(full_box),
            Err(e) => Err(e),
        }
    }

    /// Parse this box payload as a `meta` box.
    pub fn parse_meta(&self) -> (r: Result<MetaBox<'a>, ParseMetaBoxError>)
        requires
            self.offsets_fit(),
        ensures
            res_view(r) == spec_meta_box(self@),
            r matches Ok(m) ==> m.payload_offset + m.payload@.len() <= u64::MAX,
    {
        if !self.header.box_type.is(META_BOX_TYPE) {
            return Err(ParseMetaBoxError::UnexpectedBoxType { offset: self.offset, actual: self.header.box_type });
        }
        let (full_box, meta_payload, meta_payload_offset) = match parse_full_box_payload(self.payload, self.payload_offset()) {
            Ok(v) => v,
            Err(e) => return Err(ParseMetaBoxError::FullBox(e)),
        };
        if full_box.version != 0 {
            return Err(ParseMetaBoxError::UnsupportedVersion { offset: self.payload_offset(), version: full_box.version });
        }
        Ok(MetaBox { full_box, payload: meta_payload, payload_offset: meta_payload_offset })
    }

    /// Parse this box payload as a `pitm` box.
    pub fn parse_pitm(&self) -> (r: Result<PrimaryItemBox, ParsePrimaryItemBoxError>)
        requires
            self.offsets_fit(),
        ensures
            r == spec_pitm_box(self@),
    {
        if !self.header.box_type.is(PITM_BOX_TYPE) {
            return Err(ParsePrimaryItemBoxError::UnexpectedBoxType { offset: self.offset, actual: self.header.box_type });
        }
        parse_pitm_payload(self.payload, self.payload_offset())
    }

    /// Parse this box payload as an `av1C` box.
    pub fn parse_av1c(&self) -> (r: Result<Av1CodecConfigurationBox, ParseAv1CodecConfigurationBoxError>)
        requires
            self.offsets_fit(),
        ensures
            res_view(r) == spec_av1c_box(self@),
    {
        if !self.header.box_type.is(AV1C_BOX_TYPE) {
            return Err(ParseAv1CodecConfigurationBoxError::UnexpectedBoxType { offset: self.offset, actual: self.header.box_type });
        }
        parse_av1c_payload(self.payload, self.payload_offset())
    }

    /// Parse this box payload as an `ispe` property.
    pub fn parse_ispe(&self) -> (r: Result<ImageSpatialExtentsProperty, ParseImageSpatialExtentsPropertyError>)
        requires
            self.offsets_fit(),
        ensures
            r == spec_ispe_box(self@),
    {
        if !self.header.box_type.is(ISPE_BOX_TYPE) {
            return Err(ParseImageSpatialExtentsPropertyError::UnexpectedBoxType { offset: self.offset, actual: self.header.box_type });
        }
        parse_ispe_payload(self.payload, self.payload_offset())
    }

    /// Parse this box payload as a `pixi` property.
    pub fn parse_pixi(&self) -> (r: Result<PixelInformationProperty, ParsePixelInformationPropertyError>)
        requires
            self.offsets_fit(),
        ensures
            res_view(r) == spec_pixi_box(self@),
    {
        if !self.header.box_type.is(PIXI_BOX_TYPE) {
            return Err(ParsePixelInformationPropertyError::UnexpectedBoxType { offset: self.offset, actual: self.header.box_type });
        }
        parse_pixi_payload(self.payload, self.payload_offset())
    }

    /// Parse this box payload as a `colr` property.
    pub fn parse_colr(&self) -> (r: Result<ColorInformationProperty, ParseColorInformationPropertyError>)
        requires
            self.offsets_fit(),
        ensures
            res_view(r) == spec_colr_box(self@),
    {
        if !self.header.box_type.is(COLR_BOX_TYPE) {
            return Err(ParseColorInformationPropertyError::UnexpectedBoxType { offset: self.offset, actual: self.header.box_type });
        }
        parse_colr_payload(self.payload, self.payload_offset())
    }

    /// Parse this box payload as an `irot` property.
    pub fn parse_irot(&self) -> (r: Result<ImageRotationProperty, ParseImageRotationPropertyError>)
        requires
            self.offsets_fit(),
        ensures
            r == spec_irot_box(self@),
    {
        if !self.header.box_type.is(IROT_BOX_TYPE) {
            return Err(ParseImageRotationPropertyError::UnexpectedBoxType { offset: self.offset, actual: self.header.box_type });
        }
        parse_irot_payload(self.payload, self.payload_offset())
    }

    /// Parse this box payload as an `imir` property.
    pub fn parse_imir(&self) -> (r: Result<ImageMirrorProperty, ParseImageMirrorPropertyError>)
        requires
            self.offsets_fit(),
        ensures
            r == spec_imir_box(self@),
    {
        if !self.header.box_type.is(IMIR_BOX_TYPE) {
            return Err(ParseImageMirrorPropertyError::UnexpectedBoxType { offset: self.offset, actual: self.header.box_type });
        }
        parse_imir_payload(self.payload, self.payload_offset())
    }

    /// Parse this box payload as a `clap` property.
    pub fn parse_clap(&self) -> (r: Result<ImageCleanApertureProperty, ParseImageCleanAperturePropertyError>)
        requires
            self.offsets_fit(),
        ensures
            r == spec_clap_box(self@),
    {
        if !self.header.box_type.is(CLAP_BOX_TYPE) {
            return Err(ParseImageCleanAperturePropertyError::UnexpectedBoxType { offset: self.offset, actual: self.header.box_type });
        }
        parse_clap_payload(self.payload, self.payload_offset())
    }
}


// ---- laws on the codec and transform property fields ----

/// Where each field of a parsed `av1C` record sits in its payload `p`: the marker
/// and seven version bits of byte 0, the three profile and five level bits of
/// byte 1, the seven flags and the two-bit sample position of byte 2 from the
/// highest bit down, and in byte 3 the delay-present bit (value 16) above the four
/// delay bits; the configuration OBUs are the rest.
pub open spec fn av1c_fields_of(a: Av1cModel, p: Seq<u8>) -> bool {
    &&& a.marker
    &&& a.version == p[0] % 128
    &&& a.seq_profile == p[1] / 32
    &&& a.seq_level_idx_0 == p[1] % 32
    &&& a.seq_tier_0 == (p[2] >= 128)
    &&& a.high_bitdepth == ((p[2] / 64) % 2 == 1)
    &&& a.twelve_bit == ((p[2] / 32) % 2 == 1)
    &&& a.monochrome == ((p[2] / 16) % 2 == 1)
    &&& a.chroma_subsampling_x == ((p[2] / 8) % 2 == 1)
    &&& a.chroma_subsampling_y == ((p[2] / 4) % 2 == 1)
    &&& a.chroma_sample_position == p[2] % 4
    &&& a.initial_presentation_delay_present == ((p[3] / 16) % 2 == 1)
    &&& a.initial_presentation_delay_minus_one == (if (p[3] / 16) % 2 == 1 { Some(p[3] % 16) } else { None })
    &&& a.config_obus == p.subrange(4, p.len() as int)
}

/// An `av1C` payload parses exactly when it has its four fixed bytes and the
/// marker bit (the top bit of byte 0) is set, and every field is then read from
/// its own bits.
pub proof fn law_av1c_fields(p: Seq<u8>, off: u64)
    ensures
        (spec_av1c_payload(p, off) is Ok) == (p.len() >= 4 && p[0] >= 128),
        spec_av1c_payload(p, off) matches Ok(a) ==> av1c_fields_of(a, p),
{
    if p.len() >= 4 {
        lemma_byte_fields(p[0]);
        lemma_byte_fields(p[1]);
        lemma_byte_fields(p[2]);
        lemma_byte_fields(p[3]);
    }
}

/// The same for an `av1C` box: it parses exactly when its type is `av1C` and its
/// payload parses, and the fields come from the bits of its payload.
pub proof fn law_av1c_box_fields(b: BoxModel)
    ensures
        (spec_av1c_box(b) is Ok) == (b.header.box_type.0 == AV1C_BOX_TYPE && b.payload.len() >= 4 && b.payload[0] >= 128),
        spec_av1c_box(b) matches Ok(a) ==> av1c_fields_of(a, b.payload),
{
    law_av1c_fields(b.payload, box_payload_offset(b));
}

/// An `irot` payload parses exactly when it holds a byte, and the rotation is 90
/// degrees times the value of that byte's two low bits.
pub proof fn law_irot_rotation(p: Seq<u8>, off: u64)
    ensures
        (spec_irot_payload(p, off) is Ok) == (p.len() >= 1),
        spec_irot_payload(p, off) matches Ok(r) ==> r.rotation_ccw_degrees == 90 * (p[0] % 4),
{
    if p.len() >= 1 {
        lemma_byte_fields(p[0]);
    }
}

/// The same for an `irot` box, which must also have the type `irot`.
pub proof fn law_irot_box_rotation(b: BoxModel)
    ensures
        (spec_irot_box(b) is Ok) == (b.header.box_type.0 == IROT_BOX_TYPE && b.payload.len() >= 1),
        spec_irot_box(b) matches Ok(r) ==> r.rotation_ccw_degrees == 90 * (b.payload[0] % 4),
{
    law_irot_rotation(b.payload, box_payload_offset(b));
}

/// A FullBox header is the first four bytes of a payload of at least four: the
/// version byte and the 24 flag bits of bytes 1 to 3, big-endian; the rest of the
/// payload follows it, four bytes further on.
pub proof fn law_full_box_fields(p: Seq<u8>, off: u64)
    ensures
        (spec_full_box(p, off) is Ok) == (p.len() >= 4),
        spec_full_box(p, off) matches Ok((h, rest, rest_off)) ==> {
            &&& h.version == p[0]
            &&& h.flags == p[1] * 65536 + p[2] * 256 + p[3]
            &&& rest == p.subrange(4, p.len() as int)
            &&& off + 4 <= u64::MAX ==> rest_off == off + 4
        },
{
}

/// A `pitm` payload holds a 16-bit item id after a version 0 header and a 32-bit
/// one after a version 1 header, big-endian; any other version is refused.
pub proof fn law_pitm_item_id(p: Seq<u8>, off: u64)
    ensures
        (spec_pitm_payload(p, off) is Ok) == ((p.len() >= 6 && p[0] == 0) || (p.len() >= 8 && p[0] == 1)),
        spec_pitm_payload(p, off) matches Ok(b) ==> {
            &&& b.full_box.version == p[0]
            &&& p[0] == 0 ==> b.item_id == p[4] * 256 + p[5]
            &&& p[0] == 1 ==> b.item_id == p[4] * 16777216 + p[5] * 65536 + p[6] * 256 + p[7]
        },
{
}

/// An `ftyp` payload is accepted exactly when it holds the major brand and minor
/// version and then whole four-byte brands: the major brand is bytes 0 to 3, the
/// minor version bytes 4 to 7 big-endian, and brand `i` bytes `8 + 4i` on.
pub proof fn law_ftyp_fields(p: Seq<u8>, off: u64)
    ensures
        (spec_ftyp_payload(p, off) is Ok) == (p.len() >= 8 && (p.len() - 8) % 4 == 0),
        spec_ftyp_payload(p, off) matches Ok(f) ==> {
            &&& f.major_brand.0 == [p[0], p[1], p[2], p[3]]
            &&& f.minor_version == p[4] * 16777216 + p[5] * 65536 + p[6] * 256 + p[7]
            &&& f.compatible_brands.len() * 4 + 8 == p.len()
            &&& forall|i: int| 0 <= i < f.compatible_brands.len() ==> #[trigger] f.compatible_brands[i].0
                == [p[8 + 4 * i], p[9 + 4 * i], p[10 + 4 * i], p[11 + 4 * i]]
        },
{
    if let Ok(f) = spec_ftyp_payload(p, off) {
        assert forall|i: int| 0 <= i < f.compatible_brands.len() implies #[trigger] f.compatible_brands[i].0
            == [p[8 + 4 * i], p[9 + 4 * i], p[10 + 4 * i], p[11 + 4 * i]] by {
            assert(f.compatible_brands[i] == fourcc_at(p, 8 + 4 * i));
        }
    }
}

/// An `ispe` payload is a version 0 header and then the big-endian 32-bit width
/// and height in bytes 4 to 7 and 8 to 11.
pub proof fn law_ispe_fields(p: Seq<u8>, off: u64)
    ensures
        (spec_ispe_payload(p, off) is Ok) == (p.len() >= 12 && p[0] == 0),
        spec_ispe_payload(p, off) matches Ok(e) ==> {
            &&& e.full_box.version == 0
            &&& e.width == p[4] * 16777216 + p[5] * 65536 + p[6] * 256 + p[7]
            &&& e.height == p[8] * 16777216 + p[9] * 65536 + p[10] * 256 + p[11]
        },
{
}

/// A `pixi` payload is a version 0 header, a channel count in byte 4, and that
/// many bit depths after it; it is accepted exactly when they are all there.
pub proof fn law_pixi_fields(p: Seq<u8>, off: u64)
    ensures
        (spec_pixi_payload(p, off) is Ok) == (p.len() >= 5 && p[0] == 0 && p.len() >= 5 + p[4]),
        spec_pixi_payload(p, off) matches Ok(x) ==> x.full_box.version == 0
            && x.bits_per_channel == p.subrange(5, 5 + p[4]),
{
    if p.len() >= 5 && p.len() >= 5 + p[4] {
        assert(p.subrange(4, p.len() as int).subrange(1, 1 + p[4]) =~= p.subrange(5, 5 + p[4]));
    }
}

/// A `colr` payload names its colour type in bytes 0 to 3. An `nclx` profile is
/// three big-endian 16-bit codes in bytes 4 to 9 and the full-range bit at the top
/// of byte 10; an `nclc` profile is the three codes alone, full range exactly when
/// the matrix code is 0; `prof` and `rICC` carry the rest of the payload as the
/// ICC profile; any other type is refused.
pub proof fn law_colr_fields(p: Seq<u8>, off: u64)
    ensures
        (spec_colr_payload(p, off) is Ok) == (p.len() >= 4 && {
            let t = [p[0], p[1], p[2], p[3]];
            ||| t == NCLX_COLOR_TYPE && p.len() >= 11
            ||| t == NCLC_COLOR_TYPE && p.len() >= 10
            ||| t == PROF_COLOR_TYPE
            ||| t == RICC_COLOR_TYPE
        }),
        spec_colr_payload(p, off) matches Ok(c) ==> {
            let t = [p[0], p[1], p[2], p[3]];
            &&& c.colour_type.0 == t
            &&& (t == NCLX_COLOR_TYPE || t == NCLC_COLOR_TYPE) ==> (c.information matches ColorInformationModel::Nclx(n)
                && n.colour_primaries == p[4] * 256 + p[5]
                && n.transfer_characteristics == p[6] * 256 + p[7]
                && n.matrix_coefficients == p[8] * 256 + p[9]
                && n.full_range_flag == (if t == NCLX_COLOR_TYPE { p[10] >= 128 } else { p[8] == 0 && p[9] == 0 }))
            &&& (t == PROF_COLOR_TYPE || t == RICC_COLOR_TYPE) ==> (c.information matches ColorInformationModel::Icc(icc)
                && icc.profile_type.0 == t && icc.profile == p.subrange(4, p.len() as int))
        },
{
    if p.len() >= 11 {
        lemma_byte_fields(p[10]);
    }
    if p.len() >= 4 {
        assert(fourcc_at(p, 0).0 =~= [p[0], p[1], p[2], p[3]]);
    }
}

/// An `imir` payload of at least one byte mirrors horizontally exactly when the
/// lowest bit of its first byte is set, and vertically otherwise.
pub proof fn law_imir_direction(p: Seq<u8>, off: u64)
    ensures
        (spec_imir_payload(p, off) is Ok) == (p.len() >= 1),
        spec_imir_payload(p, off) matches Ok(m) ==> m.direction == (if p[0] % 2 == 1 {
            ImageMirrorDirection::Horizontal
        } else {
            ImageMirrorDirection::Vertical
        }),
{
    if p.len() >= 1 {
        lemma_byte_fields(p[0]);
    }
}

/// Reading a 32-bit pattern as a signed value.
proof fn lemma_u32_as_i32(x: u32)
    by (bit_vector)
    ensures
        x < 0x8000_0000 ==> x as i32 == x,
        x >= 0x8000_0000 ==> (x as i32) + 0x1_0000_0000 == x,
{
}

/// A `clap` payload is eight big-endian 32-bit fields, numerator then denominator
/// for the width, the height and the two offsets, the offset numerators signed; it
/// is accepted exactly when all 32 bytes are there and no denominator is zero.
pub proof fn law_clap_fields(p: Seq<u8>, off: u64)
    ensures
        (spec_clap_payload(p, off) is Ok) == (p.len() >= 32 && u32_value_at(p, 4) != 0 && u32_value_at(p, 12) != 0
            && u32_value_at(p, 20) != 0 && u32_value_at(p, 28) != 0),
        spec_clap_payload(p, off) matches Ok(c) ==> {
            &&& c.clean_aperture_width_num == u32_value_at(p, 0)
            &&& c.clean_aperture_width_den == u32_value_at(p, 4)
            &&& c.clean_aperture_height_num == u32_value_at(p, 8)
            &&& c.clean_aperture_height_den == u32_value_at(p, 12)
            &&& c.horizontal_offset_num == i32_value_at(p, 16)
            &&& c.horizontal_offset_den == u32_value_at(p, 20)
            &&& c.vertical_offset_num == i32_value_at(p, 24)
            &&& c.vertical_offset_den == u32_value_at(p, 28)
        },
{
    if p.len() >= 32 {
        lemma_u32_as_i32(be32(p, 16));
        lemma_u32_as_i32(be32(p, 24));
    }
}

/// Law (`meta`): a box is read as a `meta` box exactly when its type is `meta` and
/// its payload starts with a version 0 FullBox header; its child boxes are then the
/// rest of the payload, four bytes after the payload's start.
pub proof fn law_meta_fields(b: BoxModel)
    ensures
        (spec_meta_box(b) is Ok) == (b.header.box_type.0 == META_BOX_TYPE && b.payload.len() >= 4 && b.payload[0] == 0),
        spec_meta_box(b) matches Ok(m) ==> {
            &&& m.full_box.version == 0
            &&& m.full_box.flags == b.payload[1] * 65536 + b.payload[2] * 256 + b.payload[3]
            &&& m.payload == b.payload.subrange(4, b.payload.len() as int)
            &&& box_payload_offset(b) + 4 <= u64::MAX ==> m.payload_offset == box_payload_offset(b) + 4
        },
{
}

} // verus!
