//! Cheap fingerprints of decoded images, used to compare decode paths.

use vstd::prelude::*;
use crate::{DecodedRgbaImage, DecodedRgbaPixels};

verus! {

/// Fingerprint of 8-bit samples: the first, middle and last samples shifted into
/// distinct bytes, mixed with the sample count; zero for no samples.
pub open spec fn spec_small_checksum(s: Seq<u8>) -> u64 {
    if s.len() == 0 {
        0
    } else {
        ((s[0] as u64) << 16u64) ^ ((s[(s.len() / 2) as int] as u64) << 8u64) ^ (s[s.len() - 1] as u64) ^ (s.len() as u64)
    }
}

/// Fingerprint of 16-bit samples: the first, middle and last samples shifted into
/// distinct 16-bit lanes, mixed with the sample count; zero for no samples.
pub open spec fn spec_small_checksum_u16(s: Seq<u16>) -> u64 {
    if s.len() == 0 {
        0
    } else {
        ((s[0] as u64) << 32u64) ^ ((s[(s.len() / 2) as int] as u64) << 16u64) ^ (s[s.len() - 1] as u64) ^ (s.len() as u64)
    }
}

pub fn small_checksum(bytes: &[u8]) -> (r: u64)
    ensures
        r == spec_small_checksum(bytes@),
{
    if bytes.len() == 0 {
        return 0;
    }
    let first = bytes[0] as u64;
    let middle = bytes[bytes.len() / 2] as u64;
    let last = bytes[bytes.len() - 1] as u64;
    (first << 16u64) ^ (middle << 8u64) ^ last ^ bytes.len() as u64
}

pub fn small_checksum_u16(samples: &[u16]) -> (r: u64)
    ensures
        r == spec_small_checksum_u16(samples@),
{
    if samples.len() == 0 {
        return 0;
    }
    let first = samples[0] as u64;
    let middle = samples[samples.len() / 2] as u64;
    let last = samples[samples.len() - 1] as u64;
    (first << 32u64) ^ (middle << 16u64) ^ last ^ samples.len() as u64
}

/// Fingerprint of a decoded image: its width in the high half and its height
/// mixed with the fingerprint of its samples.
pub fn decoded_image_checksum(image: &DecodedRgbaImage) -> (r: u64)
    ensures
        r == ((image.width as u64) << 32u64) ^ (image.height as u64) ^ match image.pixels {
            DecodedRgbaPixels::U8(p) => spec_small_checksum(p@),
            DecodedRgbaPixels::U16(p) => spec_small_checksum_u16(p@),
        },
{
    let checksum = match &image.pixels {
        DecodedRgbaPixels::U8(samples) => small_checksum(samples.as_slice()),
        DecodedRgbaPixels::U16(samples) => small_checksum_u16(samples.as_slice()),
    };
    ((image.width as u64) << 32u64) ^ (image.height as u64) ^ checksum
}

} // verus!
