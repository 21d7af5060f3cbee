//! HEIF, HEIC and AVIF container parsing: ISO BMFF boxes, the item graph of the
//! primary image, its properties and its coded payload, with random-access byte
//! sources and the decoded-image types handed to image libraries.

pub mod isobmff;
pub mod source;
pub mod logged_reader;
pub mod image_integration;
pub mod checksum;

use vstd::prelude::*;
use vstd::string::StringExecFns;

verus! {

/// Errors returned by the decoder entry points.
#[derive(Debug)]
pub enum DecodeError {
    Io(std::io::Error),
    Unsupported(String),
}

impl From<std::io::Error> for DecodeError {
    fn from(value: std::io::Error) -> (r: Self) {
        Self::Io(value)
    }
}

impl vstd::std_specs::convert::FromSpecImpl<std::io::Error> for DecodeError {
    open spec fn obeys_from_spec() -> bool {
        true
    }

    open spec fn from_spec(value: std::io::Error) -> Self {
        DecodeError::Io(value)
    }
}

/// The message for a missing input: `path` after a fixed prefix.
fn missing_input_message(path: &str) -> (r: String)
    ensures
        r@ == "Input file does not exist: "@ + path@,
{
    String::from_str("Input file does not exist: ").concat(path)
}

/// Decide the outcome of decoding the file at `input_path` (shown as given, with
/// `input_exists` telling whether a file is there) into a PNG: a missing input is
/// reported with its path, and otherwise decoding is not implemented yet.
pub fn decode_file_to_png(input_path: &str, input_exists: bool) -> (r: Result<(), DecodeError>)
    ensures
        !input_exists ==> (r matches Err(DecodeError::Unsupported(m)) && m@ == "Input file does not exist: "@ + input_path@),
        input_exists ==> (r matches Err(DecodeError::Unsupported(m)) && m@ == "Decoder not implemented yet."@),
{
    broadcast use vstd::string::to_string_from_display_ensures_for_str;
    if !input_exists {
        return Err(DecodeError::Unsupported(missing_input_message(input_path)));
    }
    Err(DecodeError::Unsupported("Decoder not implemented yet.".to_string()))
}

/// Decoded RGBA samples, one `u8` or one `u16` per channel.
#[derive(Clone, Debug, Eq, PartialEq)]
pub enum DecodedRgbaPixels {
    U8(Vec<u8>),
    U16(Vec<u16>),
}

impl DecodedRgbaPixels {
    /// Number of samples held.
    pub fn sample_count(&self) -> (r: usize)
        ensures
            r == match self {
                DecodedRgbaPixels::U8(p) => p@.len(),
                DecodedRgbaPixels::U16(p) => p@.len(),
            },
    {
        match self {
            DecodedRgbaPixels::U8(p) => p.len(),
            DecodedRgbaPixels::U16(p) => p.len(),
        }
    }
}

/// A decoded image as interleaved RGBA samples with its metadata.
#[derive(Clone, Debug, Eq, PartialEq)]
pub struct DecodedRgbaImage {
    pub width: u32,
    pub height: u32,
    pub source_bit_depth: u8,
    pub pixels: DecodedRgbaPixels,
    pub icc_profile: Option<Vec<u8>>,
}

/// Bits per stored sample of pixels of the given kind.
pub open spec fn spec_storage_bit_depth(p: DecodedRgbaPixels) -> u8 {
    match p {
        DecodedRgbaPixels::U8(_) => 8,
        DecodedRgbaPixels::U16(_) => 16,
    }
}

impl DecodedRgbaImage {
    /// Bits per stored sample: 8 for `u8` samples, 16 for `u16` samples.
    pub fn storage_bit_depth(&self) -> (r: u8)
        ensures
            r == spec_storage_bit_depth(self.pixels),
    {
        match self.pixels {
            DecodedRgbaPixels::U8(_) => 8,
            DecodedRgbaPixels::U16(_) => 16,
        }
    }
}

} // verus!
