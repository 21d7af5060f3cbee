//! The parts of handing decoded RGBA images to image libraries that are
//! independent of any one library: sample and byte counts, validation of a
//! decoded buffer, the 16-bit sample layout, and hook registration status.

use vstd::prelude::*;
use crate::{spec_storage_bit_depth, DecodedRgbaImage, DecodedRgbaPixels};

verus! {

/// Result of attempting to install image-library decoder hooks for this crate.
#[derive(Clone, Copy, Debug, Eq, PartialEq)]
pub struct ImageHookRegistration {
    pub heic_decoder_hook_registered: bool,
    pub heif_decoder_hook_registered: bool,
    pub avif_decoder_hook_registered: bool,
}

impl ImageHookRegistration {
    /// Whether at least one of the three hooks was installed.
    pub fn any_decoder_hook_registered(self) -> (r: bool)
        ensures
            r == (self.heic_decoder_hook_registered || self.heif_decoder_hook_registered
                || self.avif_decoder_hook_registered),
    {
        self.heic_decoder_hook_registered || self.heif_decoder_hook_registered
            || self.avif_decoder_hook_registered
    }

    /// Whether all three hooks were installed.
    pub fn all_decoder_hooks_registered(self) -> (r: bool)
        ensures
            r == (self.heic_decoder_hook_registered && self.heif_decoder_hook_registered
                && self.avif_decoder_hook_registered),
    {
        self.heic_decoder_hook_registered && self.heif_decoder_hook_registered
            && self.avif_decoder_hook_registered
    }
}

/// Conversion failures while handing off decoded RGBA buffers to an image library.
#[derive(Clone, Debug, Eq, PartialEq)]
pub enum ImageConversionError {
    SampleCountOverflow {
        width: u32,
        height: u32,
    },
    SampleCountMismatch {
        storage_bit_depth: u8,
        width: u32,
        height: u32,
        expected_samples: usize,
        actual_samples: usize,
    },
}

/// Samples of an RGBA image of the given size: four per pixel.
pub open spec fn rgba_samples(width: u32, height: u32) -> int {
    width * height * 4
}

/// Number of RGBA samples of a `width` by `height` image, where it fits in `usize`.
pub fn expected_rgba_sample_count(width: u32, height: u32) -> (r: Option<usize>)
    ensures
        match r {
            Some(n) => n == rgba_samples(width, height),
            None => rgba_samples(width, height) > usize::MAX,
        },
{
    let w = width as usize;
    let h = height as usize;
    let pixels = match w.checked_mul(h) {
        Some(p) => p,
        None => {
            assert(w * h * 4 >= w * h) by (nonlinear_arith);
            return None;
        },
    };
    assert(pixels * 4 == rgba_samples(width, height)) by (nonlinear_arith)
        requires
            pixels == w * h,
            w == width,
            h == height,
    ;
    pixels.checked_mul(4)
}

/// Number of bytes of an RGBA image of the given size stored with 8 or 16 bits per
/// sample, where it fits in `usize`; other depths have no byte count.
pub fn expected_rgba_byte_count(width: u32, height: u32, storage_bit_depth: u8) -> (r: Option<usize>)
    ensures
        match r {
            Some(n) => (storage_bit_depth == 8 && n == rgba_samples(width, height))
                || (storage_bit_depth == 16 && n == rgba_samples(width, height) * 2),
            None => !(storage_bit_depth == 8 || storage_bit_depth == 16)
                || (storage_bit_depth == 8 && rgba_samples(width, height) > usize::MAX)
                || (storage_bit_depth == 16 && rgba_samples(width, height) * 2 > usize::MAX),
        },
{
    let bytes_per_sample: usize = if storage_bit_depth == 8 {
        1
    } else if storage_bit_depth == 16 {
        2
    } else {
        return None;
    };
    match expected_rgba_sample_count(width, height) {
        Some(samples) => samples.checked_mul(bytes_per_sample),
        None => None,
    }
}

/// Check that a decoded image holds exactly four samples per pixel.
pub open spec fn spec_validate_decoded_rgba_image(d: DecodedRgbaImage) -> Result<(), ImageConversionError> {
    let actual = match d.pixels {
        DecodedRgbaPixels::U8(p) => p@.len(),
        DecodedRgbaPixels::U16(p) => p@.len(),
    };
    if rgba_samples(d.width, d.height) > usize::MAX {
        Err(ImageConversionError::SampleCountOverflow { width: d.width, height: d.height })
    } else if actual != rgba_samples(d.width, d.height) {
        Err(ImageConversionError::SampleCountMismatch {
            storage_bit_depth: spec_storage_bit_depth(d.pixels),
            width: d.width,
            height: d.height,
            expected_samples: rgba_samples(d.width, d.height) as usize,
            actual_samples: actual as usize,
        })
    } else {
        Ok(())
    }
}

fn validate_decoded_rgba_image(decoded: &DecodedRgbaImage) -> (r: Result<(), ImageConversionError>)
    ensures
        r == spec_validate_decoded_rgba_image(*decoded),
{
    let expected_samples = match expected_rgba_sample_count(decoded.width, decoded.height) {
        Some(n) => n,
        None => return Err(ImageConversionError::SampleCountOverflow { width: decoded.width, height: decoded.height }),
    };
    let actual_samples = decoded.pixels.sample_count();
    if actual_samples != expected_samples {
        return Err(ImageConversionError::SampleCountMismatch {
            storage_bit_depth: decoded.storage_bit_depth(),
            width: decoded.width,
            height: decoded.height,
            expected_samples,
            actual_samples,
        });
    }
    Ok(())
}

/// A decoded RGBA image checked to hold exactly four samples per pixel, ready to
/// be read by an image library.
#[derive(Debug, Eq, PartialEq)]
pub struct HeifImageDecoder {
    decoded: DecodedRgbaImage,
}

impl View for HeifImageDecoder {
    type V = DecodedRgbaImage;

    closed spec fn view(&self) -> DecodedRgbaImage {
        self.decoded
    }
}

/// Whether two decoded images hold the same size, depths, samples and profile.
pub open spec fn same_image(a: DecodedRgbaImage, b: DecodedRgbaImage) -> bool {
    &&& a.width == b.width
    &&& a.height == b.height
    &&& a.source_bit_depth == b.source_bit_depth
    &&& match (a.pixels, b.pixels) {
        (DecodedRgbaPixels::U8(p), DecodedRgbaPixels::U8(q)) => p@ == q@,
        (DecodedRgbaPixels::U16(p), DecodedRgbaPixels::U16(q)) => p@ == q@,
        _ => false,
    }
    &&& match (a.icc_profile, b.icc_profile) {
        (Some(p), Some(q)) => p@ == q@,
        (None, None) => true,
        _ => false,
    }
}

impl Clone for HeifImageDecoder {
    fn clone(&self) -> (r: Self)
        ensures
            same_image(r@, self@),
    {
        proof {
            use_type_invariant(self);
        }
        let d = &self.decoded;
        let pixels = match &d.pixels {
            DecodedRgbaPixels::U8(p) => DecodedRgbaPixels::U8(vstd::slice::slice_to_vec(p.as_slice())),
            DecodedRgbaPixels::U16(p) => DecodedRgbaPixels::U16(vstd::slice::slice_to_vec(p.as_slice())),
        };
        let icc_profile = match &d.icc_profile {
            Some(p) => Some(vstd::slice::slice_to_vec(p.as_slice())),
            None => None,
        };
        let decoded = DecodedRgbaImage { width: d.width, height: d.height, source_bit_depth: d.source_bit_depth, pixels, icc_profile };
        HeifImageDecoder { decoded }
    }
}

/// Why a checked image could not be read into a byte buffer.
#[derive(Clone, Debug, Eq, PartialEq)]
pub enum ImageReadError {
    BufferSizeOverflow {
        width: u32,
        height: u32,
    },
    BufferSizeMismatch {
        expected: usize,
        actual: usize,
    },
}

/// Bytes of the stored samples of a decoded image: one per sample for `u8`
/// samples, two for `u16` samples.
pub open spec fn rgba_bytes(d: DecodedRgbaImage) -> int {
    match d.pixels {
        DecodedRgbaPixels::U8(_) => rgba_samples(d.width, d.height),
        DecodedRgbaPixels::U16(_) => rgba_samples(d.width, d.height) * 2,
    }
}

impl HeifImageDecoder {
    #[verifier::type_invariant]
    spec fn checked(self) -> bool {
        spec_validate_decoded_rgba_image(self.decoded) is Ok
    }

    /// Build an adapter from an already decoded RGBA image.
    pub fn from_decoded(decoded: DecodedRgbaImage) -> (r: Result<Self, ImageConversionError>)
        ensures
            match spec_validate_decoded_rgba_image(decoded) {
                Ok(()) => r matches Ok(d) && d@ == decoded,
                Err(e) => r == Err::<Self, ImageConversionError>(e),
            },
    {
        match validate_decoded_rgba_image(&decoded) {
            Ok(()) => Ok(Self { decoded }),
            Err(e) => Err(e),
        }
    }

    /// Write the image's samples into `buf`, which must hold exactly the image's
    /// bytes: `u8` samples are copied, `u16` samples are written two bytes each,
    /// least significant first where `little`. `buf` is left as it was when its
    /// size is wrong.
    pub fn read_image_in_order(self, buf: &mut [u8], little: bool) -> (r: Result<(), ImageReadError>)
        ensures
            rgba_bytes(self@) > usize::MAX ==> r == Err::<(), ImageReadError>(
                ImageReadError::BufferSizeOverflow { width: self@.width, height: self@.height })
                && final(buf)@ == old(buf)@,
            rgba_bytes(self@) <= usize::MAX && rgba_bytes(self@) != old(buf)@.len() ==> r == Err::<(), ImageReadError>(
                ImageReadError::BufferSizeMismatch { expected: rgba_bytes(self@) as usize, actual: old(buf)@.len() as usize })
                && final(buf)@ == old(buf)@,
            rgba_bytes(self@) == old(buf)@.len() ==> r is Ok && match self@.pixels {
                DecodedRgbaPixels::U8(p) => final(buf)@ == p@,
                DecodedRgbaPixels::U16(p) => final(buf)@.len() == 2 * p@.len()
                    && samples_written_in_order(p@, final(buf)@, little),
            },
    {
        proof {
            use_type_invariant(&self);
        }
        let actual: usize = buf.len();
        let expected = match expected_rgba_byte_count(self.decoded.width, self.decoded.height, self.decoded.storage_bit_depth()) {
            Some(n) => n,
            None => return Err(ImageReadError::BufferSizeOverflow { width: self.decoded.width, height: self.decoded.height }),
        };
        if buf.len() != expected {
            return Err(ImageReadError::BufferSizeMismatch { expected, actual: buf.len() });
        }
        match &self.decoded.pixels {
            DecodedRgbaPixels::U8(pixels) => {
                let n = buf.len();
                let mut i: usize = 0;
                while i < n
                    invariant
                        n == buf@.len(),
                        n == pixels@.len(),
                        i <= n,
                        forall|k: int| 0 <= k < i ==> buf@[k] == pixels@[k],
                    decreases n - i,
                {
                    buf[i] = pixels[i];
                    i = i + 1;
                }
                assert(buf@ =~= pixels@);
            },
            DecodedRgbaPixels::U16(pixels) => {
                write_rgba16_bytes_in_order(pixels.as_slice(), buf, little);
            },
        }
        Ok(())
    }

    /// Write the image's samples into `buf`, which must hold exactly the image's
    /// bytes: `u8` samples are copied, `u16` samples are written two bytes each in
    /// the machine's byte order, as `native_order_is_little` reports it. `buf` is
    /// left as it was when its size is wrong.
    pub fn read_image(self, buf: &mut [u8]) -> (r: Result<(), ImageReadError>)
        ensures
            rgba_bytes(self@) > usize::MAX ==> r == Err::<(), ImageReadError>(
                ImageReadError::BufferSizeOverflow { width: self@.width, height: self@.height })
                && final(buf)@ == old(buf)@,
            rgba_bytes(self@) <= usize::MAX && rgba_bytes(self@) != old(buf)@.len() ==> r == Err::<(), ImageReadError>(
                ImageReadError::BufferSizeMismatch { expected: rgba_bytes(self@) as usize, actual: old(buf)@.len() as usize })
                && final(buf)@ == old(buf)@,
            rgba_bytes(self@) == old(buf)@.len() ==> r is Ok && match self@.pixels {
                DecodedRgbaPixels::U8(p) => final(buf)@ == p@,
                DecodedRgbaPixels::U16(p) => final(buf)@.len() == 2 * p@.len()
                    && exists|little: bool| #[trigger] samples_written_in_order(p@, final(buf)@, little),
            },
    {
        let little = native_order_is_little();
        self.read_image_in_order(buf, little)
    }

    /// Consume the adapter and return the owned decoded RGBA buffer.
    pub fn into_decoded_rgba(self) -> (r: DecodedRgbaImage)
        ensures
            r == self@,
    {
        self.decoded
    }
}

/// `u16::to_ne_bytes`: the two bytes of `x` in the machine's byte order, which is
/// one of the two orders; which one is not stated, as it is the machine's.
#[verifier::external_body]
fn sample_ne_bytes(x: u16) -> (r: [u8; 2])
    ensures
        (r[0] == x % 256 && r[1] == x / 256) || (r[0] == x / 256 && r[1] == x % 256),
{
    x.to_ne_bytes()
}

/// Whether `b0, b1` are the two bytes of `x`, least significant first where
/// `little`, most significant first otherwise.
pub open spec fn sample_bytes_in_order(x: u16, b0: u8, b1: u8, little: bool) -> bool {
    if little {
        b0 == x % 256 && b1 == x / 256
    } else {
        b0 == x / 256 && b1 == x % 256
    }
}

/// Whether every sample that has a whole byte pair in `out` is written there in
/// the one byte order `little`.
pub open spec fn samples_written_in_order(samples: Seq<u16>, out: Seq<u8>, little: bool) -> bool {
    forall|i: int| 0 <= i < samples.len() && 2 * i + 1 < out.len()
        ==> #[trigger] sample_bytes_in_order(samples[i], out[2 * i], out[2 * i + 1], little)
}

/// Law (byte order round trip): a sample written as two bytes in one byte order is
/// read back from them in that order: high byte times 256 plus low byte, the low
/// byte coming first exactly where the order is little-endian.
pub proof fn law_samples_read_back(samples: Seq<u16>, out: Seq<u8>, little: bool)
    requires
        samples_written_in_order(samples, out, little),
    ensures
        forall|i: int| 0 <= i < samples.len() && 2 * i + 1 < out.len() ==> #[trigger] samples[i] == (if little {
            out[2 * i + 1] * 256 + out[2 * i]
        } else {
            out[2 * i] * 256 + out[2 * i + 1]
        }),
{
    assert forall|i: int| 0 <= i < samples.len() && 2 * i + 1 < out.len() implies #[trigger] samples[i] == (if little {
        out[2 * i + 1] * 256 + out[2 * i]
    } else {
        out[2 * i] * 256 + out[2 * i + 1]
    }) by {
        assert(sample_bytes_in_order(samples[i], out[2 * i], out[2 * i + 1], little));
    }
}

/// Whether the two bytes that the machine gives for the sample `0x0100` put the
/// least significant byte first: they do exactly where the first of them is zero.
pub fn byte_order_is_little(probe: [u8; 2]) -> (r: bool)
    ensures
        r == (probe[0] == 0),
{
    probe[0] == 0
}

/// Whether the machine stores the least significant byte of a sample first: the
/// byte order of the sample `0x0100` as the machine gives it, read by
/// `byte_order_is_little`. The answer is the machine's, so nothing is claimed of it.
pub fn native_order_is_little() -> bool {
    let probe = sample_ne_bytes(0x0100);
    byte_order_is_little(probe)
}

/// Write each 16-bit sample as two bytes, least significant first where `little`
/// and most significant first otherwise, into consecutive byte pairs of `out`, as
/// far as both the samples and whole pairs of `out` last; bytes past that are left
/// as they were.
pub fn write_rgba16_bytes_in_order(samples: &[u16], out: &mut [u8], little: bool)
    ensures
        final(out)@.len() == old(out)@.len(),
        samples_written_in_order(samples@, final(out)@, little),
        forall|k: int| 0 <= k < old(out)@.len() && (k >= 2 * samples@.len() || k >= old(out)@.len() / 2 * 2)
            ==> final(out)@[k] == old(out)@[k],
{
    let olen: usize = out.len();
    let pairs = if samples.len() < olen / 2 { samples.len() } else { olen / 2 };
    let mut i: usize = 0;
    while i < pairs
        invariant
            olen == out@.len(),
            pairs <= samples@.len(),
            pairs <= old(out)@.len() / 2,
            pairs == samples@.len() || pairs == old(out)@.len() / 2,
            out@.len() == old(out)@.len(),
            i <= pairs,
            forall|j: int| 0 <= j < i ==> #[trigger] sample_bytes_in_order(samples@[j], out@[2 * j], out@[2 * j + 1], little),
            forall|k: int| 2 * i <= k < out@.len() ==> out@[k] == old(out)@[k],
        decreases pairs - i,
    {
        let x = samples[i];
        let low = (x % 256) as u8;
        let high = (x / 256) as u8;
        if little {
            out[2 * i] = low;
            out[2 * i + 1] = high;
        } else {
            out[2 * i] = high;
            out[2 * i + 1] = low;
        }
        assert(sample_bytes_in_order(samples@[i as int], out@[2 * i as int], out@[2 * i + 1], little));
        i = i + 1;
    }
    assert forall|j: int| 0 <= j < samples@.len() && 2 * j + 1 < out@.len()
        implies #[trigger] sample_bytes_in_order(samples@[j], out@[2 * j], out@[2 * j + 1], little) by {
        assert(j < pairs);
    }
    assert(samples_written_in_order(samples@, out@, little));
}

/// Write each 16-bit sample as two bytes, in the machine's byte order (one order
/// for all samples), into consecutive byte pairs of `out`, as far as both the
/// samples and whole pairs of `out` last; bytes past that are left as they were.
pub fn write_rgba16_native_endian_bytes(samples: &[u16], out: &mut [u8])
    ensures
        final(out)@.len() == old(out)@.len(),
        exists|little: bool| #[trigger] samples_written_in_order(samples@, final(out)@, little),
        forall|k: int| 0 <= k < old(out)@.len() && (k >= 2 * samples@.len() || k >= old(out)@.len() / 2 * 2)
            ==> final(out)@[k] == old(out)@[k],
{
    let little = native_order_is_little();
    write_rgba16_bytes_in_order(samples, out, little);
}

} // verus!
