use vstd::prelude::*;
use super::types::{
    byte_vec_views, nal_array_views, res_view, BoxModel, HevcDecoderConfigurationBox,
    HevcNalArray, HvccModel, NalArrayModel, ParsedBox, HVCC_BOX_TYPE,
};
use super::errors::ParseHevcDecoderConfigurationBoxError;
use super::bytes::{be16, be32, lemma_byte_fields, lemma_low_twelve_bits};
use super::cursor::{
    fits, hvcc_short, opt16, opt8, read_u16_cursor_hvcc, read_u32_cursor_hvcc,
    read_u8_cursor_hvcc, take_cursor_bytes_hvcc,
};
use super::leaf::{box_payload_offset, payload_fits};
use super::repeat::{lemma_repeat_fails_at, lemma_repeat_len, repeat};

verus! {

/// The first `n` NAL units of an array starting at `c`: each is a 16-bit length and
/// that many bytes; zero-length units are skipped.
pub open spec fn spec_nal_units(p: Seq<u8>, off: u64, c: int, n: nat) -> Result<(Seq<Seq<u8>>, int), ParseHevcDecoderConfigurationBoxError>
    decreases n,
{
    if n == 0 {
        Ok((Seq::empty(), c))
    } else {
        match spec_nal_units(p, off, c, (n - 1) as nat) {
            Err(e) => Err(e),
            Ok((units, c1)) => match opt16(p, c1) {
                None => Err(hvcc_short(p, c1, off, "nal_unit_length", 2)),
                Some((len, c2)) => if len == 0 {
                    Ok((units, c2))
                } else if fits(p.len() as int, c2, len as int) {
                    Ok((units.push(p.subrange(c2, c2 + len)), c2 + len))
                } else {
                    Err(hvcc_short(p, c2, off, "nal_unit_data", len as int))
                },
            },
        }
    }
}

proof fn lemma_nal_units_err_persists(p: Seq<u8>, off: u64, c: int, i: nat, n: nat)
    requires
        i <= n,
        spec_nal_units(p, off, c, i) is Err,
    ensures
        spec_nal_units(p, off, c, n) == spec_nal_units(p, off, c, i),
    decreases n - i,
{
    if i < n {
        lemma_nal_units_err_persists(p, off, c, i, (n - 1) as nat);
    }
}

/// One NAL array: completeness bit and unit type, a 16-bit unit count, the units.
pub open spec fn hvcc_array_step(p: Seq<u8>, off: u64) -> spec_fn(int) -> Result<(NalArrayModel, int), ParseHevcDecoderConfigurationBoxError> {
    |c: int| match opt8(p, c) {
        None => Err(hvcc_short(p, c, off, "nal_array_header", 1)),
        Some((header, c1)) => match opt16(p, c1) {
            None => Err(hvcc_short(p, c1, off, "nal_unit_count", 2)),
            Some((count, c2)) => match spec_nal_units(p, off, c2, count as nat) {
                Err(e) => Err(e),
                Ok((nal_units, c3)) => Ok((
                    NalArrayModel {
                        array_completeness: header & 0x40 != 0,
                        nal_unit_type: header & 0x3F,
                        nal_units,
                    },
                    c3,
                )),
            },
        },
    }
}

/// `hvcC`: a fixed 23-byte record (configuration version 1) followed by the NAL
/// arrays; the first field that does not fit is reported.
pub open spec fn spec_hvcc_payload(p: Seq<u8>, off: u64) -> Result<HvccModel, ParseHevcDecoderConfigurationBoxError> {
    if p.len() < 1 {
        Err(hvcc_short(p, 0, off, "configurationVersion", 1))
    } else if p[0] != 1 {
        Err(ParseHevcDecoderConfigurationBoxError::UnsupportedConfigurationVersion { offset: off, version: p[0] })
    } else if p.len() < 2 {
        Err(hvcc_short(p, 1, off, "general_profile", 1))
    } else if p.len() < 6 {
        Err(hvcc_short(p, 2, off, "general_profile_compatibility_flags", 4))
    } else if p.len() < 12 {
        Err(hvcc_short(p, 6, off, "general_constraint_indicator_flags", 6))
    } else if p.len() < 13 {
        Err(hvcc_short(p, 12, off, "general_level_idc", 1))
    } else if p.len() < 15 {
        Err(hvcc_short(p, 13, off, "min_spatial_segmentation_idc", 2))
    } else if p.len() < 16 {
        Err(hvcc_short(p, 15, off, "parallelism_type", 1))
    } else if p.len() < 17 {
        Err(hvcc_short(p, 16, off, "chroma_format", 1))
    } else if p.len() < 18 {
        Err(hvcc_short(p, 17, off, "bit_depth_luma", 1))
    } else if p.len() < 19 {
        Err(hvcc_short(p, 18, off, "bit_depth_chroma", 1))
    } else if p.len() < 21 {
        Err(hvcc_short(p, 19, off, "avg_frame_rate", 2))
    } else if p.len() < 22 {
        Err(hvcc_short(p, 21, off, "temporal_layer_flags", 1))
    } else if p.len() < 23 {
        Err(hvcc_short(p, 22, off, "num_of_arrays", 1))
    } else {
        match repeat(hvcc_array_step(p, off), 23, p[22] as nat) {
            Err(e) => Err(e),
            Ok((nal_arrays, _)) => Ok(HvccModel {
                configuration_version: p[0],
                general_profile_space: (p[1] >> 6) & 0x03,
                general_tier_flag: p[1] & 0x20 != 0,
                general_profile_idc: p[1] & 0x1F,
                general_profile_compatibility_flags: be32(p, 2),
                general_constraint_indicator_flags: [p[6], p[7], p[8], p[9], p[10], p[11]],
                general_level_idc: p[12],
                min_spatial_segmentation_idc: be16(p, 13) & 0x0FFF,
                parallelism_type: p[15] & 0x03,
                chroma_format: p[16] & 0x03,
                bit_depth_luma: ((p[17] & 0x07) + 8) as u8,
                bit_depth_chroma: ((p[18] & 0x07) + 8) as u8,
                avg_frame_rate: be16(p, 19),
                constant_frame_rate: (p[21] >> 6) & 0x03,
                num_temporal_layers: (p[21] >> 3) & 0x07,
                temporal_id_nested: p[21] & 0x04 != 0,
                nal_length_size: ((p[21] & 0x03) + 1) as u8,
                nal_arrays,
            }),
        }
    }
}

#[verifier::loop_isolation(false)]
fn parse_hvcc_nal_array(payload: &[u8], cursor: &mut usize, payload_offset: u64) -> (r: Result<HevcNalArray, ParseHevcDecoderConfigurationBoxError>)
    requires
        *old(cursor) <= payload@.len(),
        payload_fits(payload@, payload_offset),
    ensures
        *final(cursor) <= payload@.len(),
        match (hvcc_array_step(payload@, payload_offset))(*old(cursor) as int) {
            Ok((m, c)) => r matches Ok(x) && x@ == m && *final(cursor) == c,
            Err(e) => r == Err::<HevcNalArray, ParseHevcDecoderConfigurationBoxError>(e),
        },
{
    let array_header = read_u8_cursor_hvcc(payload, cursor, payload_offset, "nal_array_header")?;
    let array_completeness = (array_header & 0x40) != 0;
    let nal_unit_type = array_header & 0x3F;
    let nal_unit_count = read_u16_cursor_hvcc(payload, cursor, payload_offset, "nal_unit_count")?;
    let ghost c2 = *cursor as int;
    let mut nal_units: Vec<Vec<u8>> = Vec::new();
    let mut i: u16 = 0;
    assert(byte_vec_views(nal_units@) =~= Seq::<Seq<u8>>::empty());
    while i < nal_unit_count
        invariant
            *cursor <= payload@.len(),
            i <= nal_unit_count,
            spec_nal_units(payload@, payload_offset, c2, i as nat) == Ok::<(Seq<Seq<u8>>, int), ParseHevcDecoderConfigurationBoxError>((byte_vec_views(nal_units@), *cursor as int)),
        decreases nal_unit_count - i,
    {
        let nal_unit_length = match read_u16_cursor_hvcc(payload, cursor, payload_offset, "nal_unit_length") {
            Ok(v) => v,
            Err(e) => {
                proof {
                    lemma_nal_units_err_persists(payload@, payload_offset, c2, (i + 1) as nat, nal_unit_count as nat);
                }
                return Err(e);
            },
        };
        if nal_unit_length != 0 {
            let unit = match take_cursor_bytes_hvcc(payload, cursor, nal_unit_length as usize, payload_offset, "nal_unit_data") {
                Ok(bytes) => bytes,
                Err(e) => {
                    proof {
                        lemma_nal_units_err_persists(payload@, payload_offset, c2, (i + 1) as nat, nal_unit_count as nat);
                    }
                    return Err(e);
                },
            };
            let ghost before = nal_units@;
            let unit_vec = vstd::slice::slice_to_vec(unit);
            nal_units.push(unit_vec);
            proof {
                assert(byte_vec_views(nal_units@) =~= byte_vec_views(before).push(unit@));
            }
        }
        i = i + 1;
    }
    Ok(HevcNalArray { array_completeness, nal_unit_type, nal_units })
}

#[verifier::loop_isolation(false)]
#[verifier::rlimit(60)]
pub fn parse_hvcc_payload(payload: &[u8], payload_offset: u64) -> (r: Result<HevcDecoderConfigurationBox, ParseHevcDecoderConfigurationBoxError>)
    requires
        payload_fits(payload@, payload_offset),
    ensures
        res_view(r) == spec_hvcc_payload(payload@, payload_offset),
{
    let mut cursor: usize = 0;
    let configuration_version = read_u8_cursor_hvcc(payload, &mut cursor, payload_offset, "configurationVersion")?;
    if configuration_version != 1 {
        return Err(ParseHevcDecoderConfigurationBoxError::UnsupportedConfigurationVersion {
            offset: payload_offset,
            version: configuration_version,
        });
    }
    let profile_byte = read_u8_cursor_hvcc(payload, &mut cursor, payload_offset, "general_profile")?;
    let general_profile_space = (profile_byte >> 6) & 0x03;
    let general_tier_flag = (profile_byte & 0x20) != 0;
    let general_profile_idc = profile_byte & 0x1F;
    let general_profile_compatibility_flags = read_u32_cursor_hvcc(payload, &mut cursor, payload_offset, "general_profile_compatibility_flags")?;
    let constraint_bytes = take_cursor_bytes_hvcc(payload, &mut cursor, 6, payload_offset, "general_constraint_indicator_flags")?;
    let general_constraint_indicator_flags: [u8; 6] = [
        constraint_bytes[0], constraint_bytes[1], constraint_bytes[2],
        constraint_bytes[3], constraint_bytes[4], constraint_bytes[5],
    ];
    let general_level_idc = read_u8_cursor_hvcc(payload, &mut cursor, payload_offset, "general_level_idc")?;
    let min_spatial_segmentation_idc = read_u16_cursor_hvcc(payload, &mut cursor, payload_offset, "min_spatial_segmentation_idc")? & 0x0FFF;
    let parallelism_type = read_u8_cursor_hvcc(payload, &mut cursor, payload_offset, "parallelism_type")? & 0x03;
    let chroma_format = read_u8_cursor_hvcc(payload, &mut cursor, payload_offset, "chroma_format")? & 0x03;
    let luma_byte = read_u8_cursor_hvcc(payload, &mut cursor, payload_offset, "bit_depth_luma")?;
    assert(luma_byte & 0x07 <= 7) by (bit_vector);
    let bit_depth_luma = (luma_byte & 0x07) + 8;
    let chroma_byte = read_u8_cursor_hvcc(payload, &mut cursor, payload_offset, "bit_depth_chroma")?;
    assert(chroma_byte & 0x07 <= 7) by (bit_vector);
    let bit_depth_chroma = (chroma_byte & 0x07) + 8;
    let avg_frame_rate = read_u16_cursor_hvcc(payload, &mut cursor, payload_offset, "avg_frame_rate")?;
    let temporal_byte = read_u8_cursor_hvcc(payload, &mut cursor, payload_offset, "temporal_layer_flags")?;
    let constant_frame_rate = (temporal_byte >> 6) & 0x03;
    let num_temporal_layers = (temporal_byte >> 3) & 0x07;
    let temporal_id_nested = (temporal_byte & 0x04) != 0;
    assert(temporal_byte & 0x03 <= 3) by (bit_vector);
    let nal_length_size = (temporal_byte & 0x03) + 1;
    let nal_array_count = read_u8_cursor_hvcc(payload, &mut cursor, payload_offset, "num_of_arrays")?;
    let ghost step = hvcc_array_step(payload@, payload_offset);
    let mut nal_arrays: Vec<HevcNalArray> = Vec::new();
    let mut i: u8 = 0;
    assert(nal_array_views(nal_arrays@) =~= Seq::<NalArrayModel>::empty());
    while i < nal_array_count
        invariant
            cursor <= payload@.len(),
            i <= nal_array_count,
            step == hvcc_array_step(payload@, payload_offset),
            repeat(step, 23, i as nat) == Ok::<(Seq<NalArrayModel>, int), ParseHevcDecoderConfigurationBoxError>((nal_array_views(nal_arrays@), cursor as int)),
        decreases nal_array_count - i,
    {
        let ghost before = cursor as int;
        match parse_hvcc_nal_array(payload, &mut cursor, payload_offset) {
            Ok(array) => {
                let ghost before_arrays = nal_arrays@;
                nal_arrays.push(array);
                proof {
                    assert(nal_array_views(nal_arrays@) =~= nal_array_views(before_arrays).push(array@));
                }
            },
            Err(e) => {
                proof {
                    lemma_repeat_fails_at(step, 23, i as nat, nal_array_count as nat, before, e);
                }
                return Err(e);
            },
        }
        i = i + 1;
    }
    let r = HevcDecoderConfigurationBox {
        configuration_version,
        general_profile_space,
        general_tier_flag,
        general_profile_idc,
        general_profile_compatibility_flags,
        general_constraint_indicator_flags,
        general_level_idc,
        min_spatial_segmentation_idc,
        parallelism_type,
        chroma_format,
        bit_depth_luma,
        bit_depth_chroma,
        avg_frame_rate,
        constant_frame_rate,
        num_temporal_layers,
        temporal_id_nested,
        nal_length_size,
        nal_arrays,
    };
    proof {
        assert(general_constraint_indicator_flags =~= [
            payload@[6], payload@[7], payload@[8], payload@[9], payload@[10], payload@[11],
        ]);
    }
    Ok(r)
}

pub open spec fn spec_hvcc_box(b: BoxModel) -> Result<HvccModel, ParseHevcDecoderConfigurationBoxError> {
    if b.header.box_type.0 != HVCC_BOX_TYPE {
        Err(ParseHevcDecoderConfigurationBoxError::UnexpectedBoxType { offset: b.offset, actual: b.header.box_type })
    } else {
        spec_hvcc_payload(b.payload, box_payload_offset(b))
    }
}

impl<'a> ParsedBox<'a> {
    /// Parse this box payload as an `hvcC` box.
    pub fn parse_hvcc(&self) -> (r: Result<HevcDecoderConfigurationBox, ParseHevcDecoderConfigurationBoxError>)
        requires
            self.offsets_fit(),
        ensures
            res_view(r) == spec_hvcc_box(self@),
    {
        if !self.header.box_type.is(HVCC_BOX_TYPE) {
            return Err(ParseHevcDecoderConfigurationBoxError::UnexpectedBoxType { offset: self.offset, actual: self.header.box_type });
        }
        parse_hvcc_payload(self.payload, self.payload_offset())
    }
}

/// Where each field of a parsed `hvcC` record sits in its payload `p`: byte 0 is
/// the configuration version; byte 1 holds the two profile-space bits, the tier
/// bit and the five profile bits from the highest down; bytes 2 to 5 are the
/// big-endian compatibility flags, bytes 6 to 11 the constraint flags and byte 12
/// the level; the segmentation value is the low twelve bits of bytes 13 and 14;
/// bytes 15 to 18 keep their low two, two, three and three bits (the bit depths
/// stored minus eight); bytes 19 and 20 are the big-endian average frame rate;
/// byte 21 holds two bits of constant frame rate, three of temporal layers, the
/// nesting bit and the length size minus one; byte 22 counts the NAL arrays.
pub open spec fn hvcc_fields_of(h: HvccModel, p: Seq<u8>) -> bool {
    &&& h.configuration_version == 1
    &&& h.general_profile_space == p[1] / 64
    &&& h.general_tier_flag == ((p[1] / 32) % 2 == 1)
    &&& h.general_profile_idc == p[1] % 32
    &&& h.general_profile_compatibility_flags == p[2] * 16777216 + p[3] * 65536 + p[4] * 256 + p[5]
    &&& h.general_constraint_indicator_flags == [p[6], p[7], p[8], p[9], p[10], p[11]]
    &&& h.general_level_idc == p[12]
    &&& h.min_spatial_segmentation_idc == (p[13] % 16) * 256 + p[14]
    &&& h.parallelism_type == p[15] % 4
    &&& h.chroma_format == p[16] % 4
    &&& h.bit_depth_luma == p[17] % 8 + 8
    &&& h.bit_depth_chroma == p[18] % 8 + 8
    &&& h.avg_frame_rate == p[19] * 256 + p[20]
    &&& h.constant_frame_rate == p[21] / 64
    &&& h.num_temporal_layers == (p[21] / 8) % 8
    &&& h.temporal_id_nested == ((p[21] / 4) % 2 == 1)
    &&& h.nal_length_size == p[21] % 4 + 1
    &&& h.nal_arrays.len() == p[22]
}

/// An `hvcC` payload parses only when it holds the 23-byte fixed record with
/// configuration version 1, is refused when it does not, and every field of the
/// record is then read from its own bits.
pub proof fn law_hvcc_fields(p: Seq<u8>, off: u64)
    ensures
        spec_hvcc_payload(p, off) is Ok ==> p.len() >= 23 && p[0] == 1,
        spec_hvcc_payload(p, off) matches Ok(h) ==> hvcc_fields_of(h, p),
{
    if p.len() >= 23 && p[0] == 1 {
        lemma_byte_fields(p[1]);
        lemma_byte_fields(p[15]);
        lemma_byte_fields(p[16]);
        lemma_byte_fields(p[17]);
        lemma_byte_fields(p[18]);
        lemma_byte_fields(p[21]);
        lemma_low_twelve_bits(be16(p, 13));
        lemma_repeat_len(hvcc_array_step(p, off), 23, p[22] as nat);
        assert(be16(p, 13) == p[13] * 256 + p[14]);
        assert((p[13] * 256 + p[14]) % 4096 == (p[13] % 16) * 256 + p[14]) by (nonlinear_arith)
            requires
                p[13] < 256,
                p[14] < 256,
        ;
    }
}

/// The same for an `hvcC` box: it parses only when its type is `hvcC`, and the
/// fields come from the bits of its payload.
pub proof fn law_hvcc_box_fields(b: BoxModel)
    ensures
        spec_hvcc_box(b) is Ok ==> b.header.box_type.0 == HVCC_BOX_TYPE && b.payload.len() >= 23 && b.payload[0] == 1,
        spec_hvcc_box(b) matches Ok(h) ==> hvcc_fields_of(h, b.payload),
{
    law_hvcc_fields(b.payload, box_payload_offset(b));
}

} // verus!
