use vstd::prelude::*;
use super::types::FourCc;

verus! {

/// Big-endian 16-bit value of the two bytes of `s` at `i`.
pub open spec fn be16(s: Seq<u8>, i: int) -> u16 {
    (s[i] as int * 256 + s[i + 1] as int) as u16
}

/// Big-endian 32-bit value of the four bytes of `s` at `i`.
pub open spec fn be32(s: Seq<u8>, i: int) -> u32 {
    (s[i] as int * 16777216 + s[i + 1] as int * 65536 + s[i + 2] as int * 256
        + s[i + 3] as int) as u32
}

/// Big-endian 64-bit value of the eight bytes of `s` at `i`.
pub open spec fn be64(s: Seq<u8>, i: int) -> u64 {
    (be32(s, i) as int * 4294967296 + be32(s, i + 4) as int) as u64
}

/// The four-character code stored in the four bytes of `s` at `i`.
pub open spec fn fourcc_at(s: Seq<u8>, i: int) -> FourCc {
    FourCc([s[i], s[i + 1], s[i + 2], s[i + 3]])
}

/// The big-endian 32-bit value at `i`, as an integer.
pub open spec fn u32_value_at(p: Seq<u8>, i: int) -> int {
    p[i] * 16777216 + p[i + 1] * 65536 + p[i + 2] * 256 + p[i + 3]
}

/// The same bits read as a two's-complement signed value.
pub open spec fn i32_value_at(p: Seq<u8>, i: int) -> int {
    if u32_value_at(p, i) < 0x8000_0000 { u32_value_at(p, i) } else { u32_value_at(p, i) - 0x1_0000_0000 }
}

/// Each bit field of a byte, read by a mask or a shift, as division and remainder
/// by powers of two.
pub proof fn lemma_byte_fields(x: u8)
    by (bit_vector)
    ensures
        x & 0x01 == x % 2,
        x & 0x03 == x % 4,
        x & 0x07 == x % 8,
        x & 0x0F == x % 16,
        x & 0x1F == x % 32,
        x & 0x3F == x % 64,
        x & 0x7F == x % 128,
        (x >> 6) & 0x03 == x / 64,
        (x >> 5) & 0x07 == x / 32,
        (x >> 3) & 0x07 == (x / 8) % 8,
        (x & 0x80 != 0) == (x >= 128),
        (x & 0x40 != 0) == ((x / 64) % 2 == 1),
        (x & 0x20 != 0) == ((x / 32) % 2 == 1),
        (x & 0x10 != 0) == ((x / 16) % 2 == 1),
        (x & 0x08 != 0) == ((x / 8) % 2 == 1),
        (x & 0x04 != 0) == ((x / 4) % 2 == 1),
        (x & 0x02 != 0) == ((x / 2) % 2 == 1),
{
}

/// The low twelve bits of a 16-bit value as a remainder.
pub proof fn lemma_low_twelve_bits(x: u16)
    by (bit_vector)
    ensures
        x & 0x0FFF == x % 4096,
{
}

/// The four nibbles of a 16-bit value as division and remainder.
pub proof fn lemma_u16_nibbles(x: u16)
    by (bit_vector)
    ensures
        (x >> 12u16) & 0xFu16 == x / 4096,
        (x >> 8u16) & 0xFu16 == (x / 256) % 16,
        (x >> 4u16) & 0xFu16 == (x / 16) % 16,
        x & 0xFu16 == x % 16,
{
}

/// The nibbles of the 16-bit value with high byte `a` and low byte `b`.
pub proof fn lemma_two_byte_nibbles(a: u8, b: u8)
    by (nonlinear_arith)
    ensures
        (a * 256 + b) / 4096 == a / 16,
        ((a * 256 + b) / 256) % 16 == a % 16,
        ((a * 256 + b) / 16) % 16 == b / 16,
        (a * 256 + b) % 16 == b % 16,
{
}

/// The top bit of a 16-bit value and the fifteen bits below it.
pub proof fn lemma_u16_top_bit(x: u16)
    by (bit_vector)
    ensures
        (x & 0x8000u16 != 0) == (x >= 0x8000),
        x & 0x7FFFu16 == x % 0x8000,
{
}

/// The same split for the 16-bit value with high byte `a` and low byte `b`.
pub proof fn lemma_two_byte_top_bit(a: u8, b: u8)
    by (nonlinear_arith)
    ensures
        (a * 256 + b >= 0x8000) == (a >= 128),
        (a * 256 + b) % 0x8000 == (a % 128) * 256 + b,
{
}

/// The lowest bit of a 32-bit value.
pub proof fn lemma_u32_low_bit(x: u32)
    by (bit_vector)
    ensures
        (x & 1u32 != 0) == (x % 2 == 1),
{
}

pub fn read_u16_be(input: &[u8]) -> (r: u16)
    requires
        input@.len() >= 2,
    ensures
        r == be16(input@, 0),
{
    (input[0] as u16) * 256 + (input[1] as u16)
}

pub fn read_u32_be(input: &[u8]) -> (r: u32)
    requires
        input@.len() >= 4,
    ensures
        r == be32(input@, 0),
{
    (input[0] as u32) * 16777216 + (input[1] as u32) * 65536 + (input[2] as u32) * 256
        + (input[3] as u32)
}

pub fn read_i32_be(input: &[u8]) -> (r: i32)
    requires
        input@.len() >= 4,
    ensures
        r == be32(input@, 0) as i32,
{
    read_u32_be(input) as i32
}

pub fn read_u64_be(input: &[u8]) -> (r: u64)
    requires
        input@.len() >= 8,
    ensures
        r == be64(input@, 0),
{
    let high = read_u32_be(&input[0..4]);
    let low = read_u32_be(&input[4..8]);
    (high as u64) * 4294967296 + (low as u64)
}

pub fn read_fourcc(input: &[u8]) -> (r: FourCc)
    requires
        input@.len() >= 4,
    ensures
        r == fourcc_at(input@, 0),
{
    FourCc::new([input[0], input[1], input[2], input[3]])
}

} // verus!
