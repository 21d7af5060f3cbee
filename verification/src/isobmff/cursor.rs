use vstd::prelude::*;
use super::types::FourCc;
use super::errors::{
    ParseHevcDecoderConfigurationBoxError, ParseItemInfoBoxError, ParseItemInfoEntryBoxError,
    ParseItemLocationBoxError, ParseItemPropertyAssociationBoxError, ParseItemReferenceBoxError,
};
use super::bytes::{be16, be32, be64, fourcc_at, read_fourcc, read_u16_be, read_u32_be, read_u64_be};

verus! {

/// Whether `n` bytes can be taken from a payload of length `len` at position `c`.
pub open spec fn fits(len: int, c: int, n: int) -> bool {
    0 <= c && c + n <= len
}

/// The byte at `c`, with the position after it.
pub open spec fn opt8(p: Seq<u8>, c: int) -> Option<(u8, int)> {
    if fits(p.len() as int, c, 1) { Some((p[c], c + 1)) } else { None }
}

/// The big-endian 16-bit value at `c`, with the position after it.
pub open spec fn opt16(p: Seq<u8>, c: int) -> Option<(u16, int)> {
    if fits(p.len() as int, c, 2) { Some((be16(p, c), c + 2)) } else { None }
}

/// The big-endian 32-bit value at `c`, with the position after it.
pub open spec fn opt32(p: Seq<u8>, c: int) -> Option<(u32, int)> {
    if fits(p.len() as int, c, 4) { Some((be32(p, c), c + 4)) } else { None }
}

/// The big-endian 64-bit value at `c`, with the position after it.
pub open spec fn opt64(p: Seq<u8>, c: int) -> Option<(u64, int)> {
    if fits(p.len() as int, c, 8) { Some((be64(p, c), c + 8)) } else { None }
}

/// The four-character code at `c`, with the position after it.
pub open spec fn opt_fourcc(p: Seq<u8>, c: int) -> Option<(FourCc, int)> {
    if fits(p.len() as int, c, 4) { Some((fourcc_at(p, c), c + 4)) } else { None }
}

/// The absolute offset of position `c` of a payload at `off`.
pub open spec fn at(off: u64, c: int) -> u64 {
    (off + c) as u64
}

/// Bytes left after position `c` of `p`.
pub open spec fn left(p: Seq<u8>, c: int) -> usize {
    (p.len() - c) as usize
}

pub open spec fn iloc_short(p: Seq<u8>, c: int, off: u64, context: &'static str, n: int) -> ParseItemLocationBoxError {
    ParseItemLocationBoxError::PayloadTooSmall { offset: at(off, c), context, available: left(p, c), required: n as usize }
}

pub open spec fn infe_short(p: Seq<u8>, c: int, off: u64, context: &'static str, n: int) -> ParseItemInfoEntryBoxError {
    ParseItemInfoEntryBoxError::PayloadTooSmall { offset: at(off, c), context, available: left(p, c), required: n as usize }
}

pub open spec fn iinf_short(p: Seq<u8>, c: int, off: u64, context: &'static str, n: int) -> ParseItemInfoBoxError {
    ParseItemInfoBoxError::PayloadTooSmall { offset: at(off, c), context, available: left(p, c), required: n as usize }
}

pub open spec fn iref_short(p: Seq<u8>, c: int, off: u64, context: &'static str, n: int) -> ParseItemReferenceBoxError {
    ParseItemReferenceBoxError::PayloadTooSmall { offset: at(off, c), context, available: left(p, c), required: n as usize }
}

pub open spec fn ipma_short(p: Seq<u8>, c: int, off: u64, context: &'static str, n: int) -> ParseItemPropertyAssociationBoxError {
    ParseItemPropertyAssociationBoxError::PayloadTooSmall { offset: at(off, c), context, available: left(p, c), required: n as usize }
}

pub open spec fn hvcc_short(p: Seq<u8>, c: int, off: u64, context: &'static str, n: int) -> ParseHevcDecoderConfigurationBoxError {
    ParseHevcDecoderConfigurationBoxError::PayloadTooSmall { offset: at(off, c), context, available: left(p, c), required: n as usize }
}

// ---- iloc ----

pub fn take_cursor_bytes<'a>(payload: &'a [u8], cursor: &mut usize, size: usize, payload_offset: u64, context: &'static str) -> (r: Result<&'a [u8], ParseItemLocationBoxError>)
    requires
        *old(cursor) <= payload@.len(),
        payload_offset + payload@.len() <= u64::MAX,
    ensures
        match r {
            Ok(s) => fits(payload@.len() as int, *old(cursor) as int, size as int)
                && s@ == payload@.subrange(*old(cursor) as int, *old(cursor) + size)
                && *final(cursor) == *old(cursor) + size,
            Err(e) => !fits(payload@.len() as int, *old(cursor) as int, size as int)
                && e == iloc_short(payload@, *old(cursor) as int, payload_offset, context, size as int)
                && *final(cursor) == *old(cursor),
        },
{
    let start = *cursor;
    let available = payload.len().saturating_sub(start);
    if available < size {
        return Err(ParseItemLocationBoxError::PayloadTooSmall {
            offset: payload_offset + start as u64,
            context,
            available,
            required: size,
        });
    }
    let end = start + size;
    *cursor = end;
    Ok(&payload[start..end])
}

pub fn read_u16_cursor(payload: &[u8], cursor: &mut usize, payload_offset: u64, context: &'static str) -> (r: Result<u16, ParseItemLocationBoxError>)
    requires
        *old(cursor) <= payload@.len(),
        payload_offset + payload@.len() <= u64::MAX,
    ensures
        match opt16(payload@, *old(cursor) as int) {
            Some((v, c)) => r == Ok::<u16, ParseItemLocationBoxError>(v) && *final(cursor) == c,
            None => r == Err::<u16, ParseItemLocationBoxError>(iloc_short(payload@, *old(cursor) as int, payload_offset, context, 2)) && *final(cursor) == *old(cursor),
        },
{
    let bytes = take_cursor_bytes(payload, cursor, 2, payload_offset, context)?;
    Ok(read_u16_be(bytes))
}

pub fn read_u32_cursor(payload: &[u8], cursor: &mut usize, payload_offset: u64, context: &'static str) -> (r: Result<u32, ParseItemLocationBoxError>)
    requires
        *old(cursor) <= payload@.len(),
        payload_offset + payload@.len() <= u64::MAX,
    ensures
        match opt32(payload@, *old(cursor) as int) {
            Some((v, c)) => r == Ok::<u32, ParseItemLocationBoxError>(v) && *final(cursor) == c,
            None => r == Err::<u32, ParseItemLocationBoxError>(iloc_short(payload@, *old(cursor) as int, payload_offset, context, 4)) && *final(cursor) == *old(cursor),
        },
{
    let bytes = take_cursor_bytes(payload, cursor, 4, payload_offset, context)?;
    Ok(read_u32_be(bytes))
}

pub fn read_u64_cursor(payload: &[u8], cursor: &mut usize, payload_offset: u64, context: &'static str) -> (r: Result<u64, ParseItemLocationBoxError>)
    requires
        *old(cursor) <= payload@.len(),
        payload_offset + payload@.len() <= u64::MAX,
    ensures
        match opt64(payload@, *old(cursor) as int) {
            Some((v, c)) => r == Ok::<u64, ParseItemLocationBoxError>(v) && *final(cursor) == c,
            None => r == Err::<u64, ParseItemLocationBoxError>(iloc_short(payload@, *old(cursor) as int, payload_offset, context, 8)) && *final(cursor) == *old(cursor),
        },
{
    let bytes = take_cursor_bytes(payload, cursor, 8, payload_offset, context)?;
    Ok(read_u64_be(bytes))
}

// ---- infe ----

pub fn take_cursor_bytes_infe<'a>(payload: &'a [u8], cursor: &mut usize, size: usize, payload_offset: u64, context: &'static str) -> (r: Result<&'a [u8], ParseItemInfoEntryBoxError>)
    requires
        *old(cursor) <= payload@.len(),
        payload_offset + payload@.len() <= u64::MAX,
    ensures
        match r {
            Ok(s) => fits(payload@.len() as int, *old(cursor) as int, size as int)
                && s@ == payload@.subrange(*old(cursor) as int, *old(cursor) + size)
                && *final(cursor) == *old(cursor) + size,
            Err(e) => !fits(payload@.len() as int, *old(cursor) as int, size as int)
                && e == infe_short(payload@, *old(cursor) as int, payload_offset, context, size as int)
                && *final(cursor) == *old(cursor),
        },
{
    let start = *cursor;
    let available = payload.len().saturating_sub(start);
    if available < size {
        return Err(ParseItemInfoEntryBoxError::PayloadTooSmall {
            offset: payload_offset + start as u64,
            context,
            available,
            required: size,
        });
    }
    let end = start + size;
    *cursor = end;
    Ok(&payload[start..end])
}

pub fn read_u16_cursor_infe(payload: &[u8], cursor: &mut usize, payload_offset: u64, context: &'static str) -> (r: Result<u16, ParseItemInfoEntryBoxError>)
    requires
        *old(cursor) <= payload@.len(),
        payload_offset + payload@.len() <= u64::MAX,
    ensures
        match opt16(payload@, *old(cursor) as int) {
            Some((v, c)) => r == Ok::<u16, ParseItemInfoEntryBoxError>(v) && *final(cursor) == c,
            None => r == Err::<u16, ParseItemInfoEntryBoxError>(infe_short(payload@, *old(cursor) as int, payload_offset, context, 2)) && *final(cursor) == *old(cursor),
        },
{
    let bytes = take_cursor_bytes_infe(payload, cursor, 2, payload_offset, context)?;
    Ok(read_u16_be(bytes))
}

pub fn read_u32_cursor_infe(payload: &[u8], cursor: &mut usize, payload_offset: u64, context: &'static str) -> (r: Result<u32, ParseItemInfoEntryBoxError>)
    requires
        *old(cursor) <= payload@.len(),
        payload_offset + payload@.len() <= u64::MAX,
    ensures
        match opt32(payload@, *old(cursor) as int) {
            Some((v, c)) => r == Ok::<u32, ParseItemInfoEntryBoxError>(v) && *final(cursor) == c,
            None => r == Err::<u32, ParseItemInfoEntryBoxError>(infe_short(payload@, *old(cursor) as int, payload_offset, context, 4)) && *final(cursor) == *old(cursor),
        },
{
    let bytes = take_cursor_bytes_infe(payload, cursor, 4, payload_offset, context)?;
    Ok(read_u32_be(bytes))
}

pub fn read_fourcc_cursor_infe(payload: &[u8], cursor: &mut usize, payload_offset: u64, context: &'static str) -> (r: Result<FourCc, ParseItemInfoEntryBoxError>)
    requires
        *old(cursor) <= payload@.len(),
        payload_offset + payload@.len() <= u64::MAX,
    ensures
        match opt_fourcc(payload@, *old(cursor) as int) {
            Some((v, c)) => r == Ok::<FourCc, ParseItemInfoEntryBoxError>(v) && *final(cursor) == c,
            None => r == Err::<FourCc, ParseItemInfoEntryBoxError>(infe_short(payload@, *old(cursor) as int, payload_offset, context, 4)) && *final(cursor) == *old(cursor),
        },
{
    let bytes = take_cursor_bytes_infe(payload, cursor, 4, payload_offset, context)?;
    Ok(read_fourcc(bytes))
}

// ---- iinf ----

pub fn take_cursor_bytes_iinf<'a>(payload: &'a [u8], cursor: &mut usize, size: usize, payload_offset: u64, context: &'static str) -> (r: Result<&'a [u8], ParseItemInfoBoxError>)
    requires
        *old(cursor) <= payload@.len(),
        payload_offset + payload@.len() <= u64::MAX,
    ensures
        match r {
            Ok(s) => fits(payload@.len() as int, *old(cursor) as int, size as int)
                && s@ == payload@.subrange(*old(cursor) as int, *old(cursor) + size)
                && *final(cursor) == *old(cursor) + size,
            Err(e) => !fits(payload@.len() as int, *old(cursor) as int, size as int)
                && e == iinf_short(payload@, *old(cursor) as int, payload_offset, context, size as int)
                && *final(cursor) == *old(cursor),
        },
{
    let start = *cursor;
    let available = payload.len().saturating_sub(start);
    if available < size {
        return Err(ParseItemInfoBoxError::PayloadTooSmall {
            offset: payload_offset + start as u64,
            context,
            available,
            required: size,
        });
    }
    let end = start + size;
    *cursor = end;
    Ok(&payload[start..end])
}

pub fn read_u16_cursor_iinf(payload: &[u8], cursor: &mut usize, payload_offset: u64, context: &'static str) -> (r: Result<u16, ParseItemInfoBoxError>)
    requires
        *old(cursor) <= payload@.len(),
        payload_offset + payload@.len() <= u64::MAX,
    ensures
        match opt16(payload@, *old(cursor) as int) {
            Some((v, c)) => r == Ok::<u16, ParseItemInfoBoxError>(v) && *final(cursor) == c,
            None => r == Err::<u16, ParseItemInfoBoxError>(iinf_short(payload@, *old(cursor) as int, payload_offset, context, 2)) && *final(cursor) == *old(cursor),
        },
{
    let bytes = take_cursor_bytes_iinf(payload, cursor, 2, payload_offset, context)?;
    Ok(read_u16_be(bytes))
}

pub fn read_u32_cursor_iinf(payload: &[u8], cursor: &mut usize, payload_offset: u64, context: &'static str) -> (r: Result<u32, ParseItemInfoBoxError>)
    requires
        *old(cursor) <= payload@.len(),
        payload_offset + payload@.len() <= u64::MAX,
    ensures
        match opt32(payload@, *old(cursor) as int) {
            Some((v, c)) => r == Ok::<u32, ParseItemInfoBoxError>(v) && *final(cursor) == c,
            None => r == Err::<u32, ParseItemInfoBoxError>(iinf_short(payload@, *old(cursor) as int, payload_offset, context, 4)) && *final(cursor) == *old(cursor),
        },
{
    let bytes = take_cursor_bytes_iinf(payload, cursor, 4, payload_offset, context)?;
    Ok(read_u32_be(bytes))
}

// ---- iref ----

pub fn take_cursor_bytes_iref<'a>(payload: &'a [u8], cursor: &mut usize, size: usize, payload_offset: u64, context: &'static str) -> (r: Result<&'a [u8], ParseItemReferenceBoxError>)
    requires
        *old(cursor) <= payload@.len(),
        payload_offset + payload@.len() <= u64::MAX,
    ensures
        match r {
            Ok(s) => fits(payload@.len() as int, *old(cursor) as int, size as int)
                && s@ == payload@.subrange(*old(cursor) as int, *old(cursor) + size)
                && *final(cursor) == *old(cursor) + size,
            Err(e) => !fits(payload@.len() as int, *old(cursor) as int, size as int)
                && e == iref_short(payload@, *old(cursor) as int, payload_offset, context, size as int)
                && *final(cursor) == *old(cursor),
        },
{
    let start = *cursor;
    let available = payload.len().saturating_sub(start);
    if available < size {
        return Err(ParseItemReferenceBoxError::PayloadTooSmall {
            offset: payload_offset + start as u64,
            context,
            available,
            required: size,
        });
    }
    let end = start + size;
    *cursor = end;
    Ok(&payload[start..end])
}

pub fn read_u16_cursor_iref(payload: &[u8], cursor: &mut usize, payload_offset: u64, context: &'static str) -> (r: Result<u16, ParseItemReferenceBoxError>)
    requires
        *old(cursor) <= payload@.len(),
        payload_offset + payload@.len() <= u64::MAX,
    ensures
        match opt16(payload@, *old(cursor) as int) {
            Some((v, c)) => r == Ok::<u16, ParseItemReferenceBoxError>(v) && *final(cursor) == c,
            None => r == Err::<u16, ParseItemReferenceBoxError>(iref_short(payload@, *old(cursor) as int, payload_offset, context, 2)) && *final(cursor) == *old(cursor),
        },
{
    let bytes = take_cursor_bytes_iref(payload, cursor, 2, payload_offset, context)?;
    Ok(read_u16_be(bytes))
}

pub fn read_u32_cursor_iref(payload: &[u8], cursor: &mut usize, payload_offset: u64, context: &'static str) -> (r: Result<u32, ParseItemReferenceBoxError>)
    requires
        *old(cursor) <= payload@.len(),
        payload_offset + payload@.len() <= u64::MAX,
    ensures
        match opt32(payload@, *old(cursor) as int) {
            Some((v, c)) => r == Ok::<u32, ParseItemReferenceBoxError>(v) && *final(cursor) == c,
            None => r == Err::<u32, ParseItemReferenceBoxError>(iref_short(payload@, *old(cursor) as int, payload_offset, context, 4)) && *final(cursor) == *old(cursor),
        },
{
    let bytes = take_cursor_bytes_iref(payload, cursor, 4, payload_offset, context)?;
    Ok(read_u32_be(bytes))
}

/// The item id at `c` of an `iref` child payload: 16 bits in version 0, else 32 bits.
pub open spec fn opt_iref_id(p: Seq<u8>, c: int, version: u8) -> Option<(u32, int)> {
    if version == 0 {
        match opt16(p, c) {
            Some((v, n)) => Some((v as u32, n)),
            None => None,
        }
    } else {
        opt32(p, c)
    }
}

pub open spec fn iref_id_width(version: u8) -> int {
    if version == 0 { 2 } else { 4 }
}

pub fn read_item_id_cursor_iref(payload: &[u8], cursor: &mut usize, payload_offset: u64, version: u8, context: &'static str) -> (r: Result<u32, ParseItemReferenceBoxError>)
    requires
        *old(cursor) <= payload@.len(),
        payload_offset + payload@.len() <= u64::MAX,
    ensures
        match opt_iref_id(payload@, *old(cursor) as int, version) {
            Some((v, c)) => r == Ok::<u32, ParseItemReferenceBoxError>(v) && *final(cursor) == c,
            None => r == Err::<u32, ParseItemReferenceBoxError>(iref_short(payload@, *old(cursor) as int, payload_offset, context, iref_id_width(version))) && *final(cursor) == *old(cursor),
        },
{
    if version == 0 {
        let v = read_u16_cursor_iref(payload, cursor, payload_offset, context)?;
        Ok(v as u32)
    } else {
        read_u32_cursor_iref(payload, cursor, payload_offset, context)
    }
}

// ---- ipma ----

pub fn take_cursor_bytes_ipma<'a>(payload: &'a [u8], cursor: &mut usize, size: usize, payload_offset: u64, context: &'static str) -> (r: Result<&'a [u8], ParseItemPropertyAssociationBoxError>)
    requires
        *old(cursor) <= payload@.len(),
        payload_offset + payload@.len() <= u64::MAX,
    ensures
        match r {
            Ok(s) => fits(payload@.len() as int, *old(cursor) as int, size as int)
                && s@ == payload@.subrange(*old(cursor) as int, *old(cursor) + size)
                && *final(cursor) == *old(cursor) + size,
            Err(e) => !fits(payload@.len() as int, *old(cursor) as int, size as int)
                && e == ipma_short(payload@, *old(cursor) as int, payload_offset, context, size as int)
                && *final(cursor) == *old(cursor),
        },
{
    let start = *cursor;
    let available = payload.len().saturating_sub(start);
    if available < size {
        return Err(ParseItemPropertyAssociationBoxError::PayloadTooSmall {
            offset: payload_offset + start as u64,
            context,
            available,
            required: size,
        });
    }
    let end = start + size;
    *cursor = end;
    Ok(&payload[start..end])
}

pub fn read_u8_cursor_ipma(payload: &[u8], cursor: &mut usize, payload_offset: u64, context: &'static str) -> (r: Result<u8, ParseItemPropertyAssociationBoxError>)
    requires
        *old(cursor) <= payload@.len(),
        payload_offset + payload@.len() <= u64::MAX,
    ensures
        match opt8(payload@, *old(cursor) as int) {
            Some((v, c)) => r == Ok::<u8, ParseItemPropertyAssociationBoxError>(v) && *final(cursor) == c,
            None => r == Err::<u8, ParseItemPropertyAssociationBoxError>(ipma_short(payload@, *old(cursor) as int, payload_offset, context, 1)) && *final(cursor) == *old(cursor),
        },
{
    let bytes = take_cursor_bytes_ipma(payload, cursor, 1, payload_offset, context)?;
    Ok(bytes[0])
}

pub fn read_u16_cursor_ipma(payload: &[u8], cursor: &mut usize, payload_offset: u64, context: &'static str) -> (r: Result<u16, ParseItemPropertyAssociationBoxError>)
    requires
        *old(cursor) <= payload@.len(),
        payload_offset + payload@.len() <= u64::MAX,
    ensures
        match opt16(payload@, *old(cursor) as int) {
            Some((v, c)) => r == Ok::<u16, ParseItemPropertyAssociationBoxError>(v) && *final(cursor) == c,
            None => r == Err::<u16, ParseItemPropertyAssociationBoxError>(ipma_short(payload@, *old(cursor) as int, payload_offset, context, 2)) && *final(cursor) == *old(cursor),
        },
{
    let bytes = take_cursor_bytes_ipma(payload, cursor, 2, payload_offset, context)?;
    Ok(read_u16_be(bytes))
}

pub fn read_u32_cursor_ipma(payload: &[u8], cursor: &mut usize, payload_offset: u64, context: &'static str) -> (r: Result<u32, ParseItemPropertyAssociationBoxError>)
    requires
        *old(cursor) <= payload@.len(),
        payload_offset + payload@.len() <= u64::MAX,
    ensures
        match opt32(payload@, *old(cursor) as int) {
            Some((v, c)) => r == Ok::<u32, ParseItemPropertyAssociationBoxError>(v) && *final(cursor) == c,
            None => r == Err::<u32, ParseItemPropertyAssociationBoxError>(ipma_short(payload@, *old(cursor) as int, payload_offset, context, 4)) && *final(cursor) == *old(cursor),
        },
{
    let bytes = take_cursor_bytes_ipma(payload, cursor, 4, payload_offset, context)?;
    Ok(read_u32_be(bytes))
}

// ---- hvcC ----

pub fn take_cursor_bytes_hvcc<'a>(payload: &'a [u8], cursor: &mut usize, size: usize, payload_offset: u64, context: &'static str) -> (r: Result<&'a [u8], ParseHevcDecoderConfigurationBoxError>)
    requires
        *old(cursor) <= payload@.len(),
        payload_offset + payload@.len() <= u64::MAX,
    ensures
        match r {
            Ok(s) => fits(payload@.len() as int, *old(cursor) as int, size as int)
                && s@ == payload@.subrange(*old(cursor) as int, *old(cursor) + size)
                && *final(cursor) == *old(cursor) + size,
            Err(e) => !fits(payload@.len() as int, *old(cursor) as int, size as int)
                && e == hvcc_short(payload@, *old(cursor) as int, payload_offset, context, size as int)
                && *final(cursor) == *old(cursor),
        },
{
    let start = *cursor;
    let available = payload.len().saturating_sub(start);
    if available < size {
        return Err(ParseHevcDecoderConfigurationBoxError::PayloadTooSmall {
            offset: payload_offset + start as u64,
            context,
            available,
            required: size,
        });
    }
    let end = start + size;
    *cursor = end;
    Ok(&payload[start..end])
}

pub fn read_u8_cursor_hvcc(payload: &[u8], cursor: &mut usize, payload_offset: u64, context: &'static str) -> (r: Result<u8, ParseHevcDecoderConfigurationBoxError>)
    requires
        *old(cursor) <= payload@.len(),
        payload_offset + payload@.len() <= u64::MAX,
    ensures
        match opt8(payload@, *old(cursor) as int) {
            Some((v, c)) => r == Ok::<u8, ParseHevcDecoderConfigurationBoxError>(v) && *final(cursor) == c,
            None => r == Err::<u8, ParseHevcDecoderConfigurationBoxError>(hvcc_short(payload@, *old(cursor) as int, payload_offset, context, 1)) && *final(cursor) == *old(cursor),
        },
{
    let bytes = take_cursor_bytes_hvcc(payload, cursor, 1, payload_offset, context)?;
    Ok(bytes[0])
}

pub fn read_u16_cursor_hvcc(payload: &[u8], cursor: &mut usize, payload_offset: u64, context: &'static str) -> (r: Result<u16, ParseHevcDecoderConfigurationBoxError>)
    requires
        *old(cursor) <= payload@.len(),
        payload_offset + payload@.len() <= u64::MAX,
    ensures
        match opt16(payload@, *old(cursor) as int) {
            Some((v, c)) => r == Ok::<u16, ParseHevcDecoderConfigurationBoxError>(v) && *final(cursor) == c,
            None => r == Err::<u16, ParseHevcDecoderConfigurationBoxError>(hvcc_short(payload@, *old(cursor) as int, payload_offset, context, 2)) && *final(cursor) == *old(cursor),
        },
{
    let bytes = take_cursor_bytes_hvcc(payload, cursor, 2, payload_offset, context)?;
    Ok(read_u16_be(bytes))
}

pub fn read_u32_cursor_hvcc(payload: &[u8], cursor: &mut usize, payload_offset: u64, context: &'static str) -> (r: Result<u32, ParseHevcDecoderConfigurationBoxError>)
    requires
        *old(cursor) <= payload@.len(),
        payload_offset + payload@.len() <= u64::MAX,
    ensures
        match opt32(payload@, *old(cursor) as int) {
            Some((v, c)) => r == Ok::<u32, ParseHevcDecoderConfigurationBoxError>(v) && *final(cursor) == c,
            None => r == Err::<u32, ParseHevcDecoderConfigurationBoxError>(hvcc_short(payload@, *old(cursor) as int, payload_offset, context, 4)) && *final(cursor) == *old(cursor),
        },
{
    let bytes = take_cursor_bytes_hvcc(payload, cursor, 4, payload_offset, context)?;
    Ok(read_u32_be(bytes))
}

// ---- NUL-terminated strings ----

/// Position of the first zero byte of `p` at or after `c`, if any.
pub open spec fn first_nul(p: Seq<u8>, c: int) -> Option<int>
    decreases p.len() - c,
{
    if c < 0 || c >= p.len() {
        None
    } else if p[c] == 0 {
        Some(c)
    } else {
        first_nul(p, c + 1)
    }
}

/// The NUL-terminated string starting at `c` (without its terminator, or running to
/// the end when unterminated), and the position after it.
pub open spec fn spec_c_string(p: Seq<u8>, c: int) -> (Seq<u8>, int) {
    if c >= p.len() {
        (Seq::empty(), c)
    } else {
        match first_nul(p, c) {
            Some(end) => (p.subrange(c, end), end + 1),
            None => (p.subrange(c, p.len() as int), p.len() as int),
        }
    }
}

proof fn lemma_first_nul(p: Seq<u8>, c: int, i: int)
    requires
        0 <= c <= i <= p.len(),
        forall|j: int| c <= j < i ==> p[j] != 0,
    ensures
        first_nul(p, c) == first_nul(p, i),
    decreases i - c,
{
    if c < i {
        lemma_first_nul(p, c + 1, i);
    }
}

pub fn read_c_string_cursor(payload: &[u8], cursor: &mut usize) -> (r: Vec<u8>)
    requires
        *old(cursor) <= payload@.len(),
    ensures
        r@ == spec_c_string(payload@, *old(cursor) as int).0,
        *final(cursor) == spec_c_string(payload@, *old(cursor) as int).1,
        *final(cursor) <= payload@.len(),
{
    if *cursor >= payload.len() {
        return Vec::new();
    }
    let start = *cursor;
    let mut i = start;
    while i < payload.len()
        invariant
            start <= i <= payload@.len(),
            start < payload@.len(),
            start == *old(cursor),
            forall|j: int| start <= j < i ==> payload@[j] != 0,
        decreases payload@.len() - i,
    {
        if payload[i] == 0 {
            proof {
                lemma_first_nul(payload@, start as int, i as int);
                assert(first_nul(payload@, i as int) == Some(i as int));
            }
            *cursor = i + 1;
            return vstd::slice::slice_to_vec(&payload[start..i]);
        }
        i = i + 1;
    }
    proof {
        lemma_first_nul(payload@, start as int, i as int);
    }
    *cursor = payload.len();
    vstd::slice::slice_to_vec(&payload[start..payload.len()])
}

proof fn lemma_first_nul_found(p: Seq<u8>, c: int)
    requires
        0 <= c,
    ensures
        first_nul(p, c) matches Some(e) ==> c <= e < p.len() && p[e] == 0
            && forall|j: int| c <= j < e ==> p[j] != 0,
        first_nul(p, c) is None ==> forall|j: int| c <= j < p.len() ==> p[j] != 0,
    decreases p.len() - c,
{
    if c < p.len() && p[c] != 0 {
        lemma_first_nul_found(p, c + 1);
        assert forall|j: int| c <= j < p.len() && first_nul(p, c) is None implies p[j] != 0 by {
            if j > c {
            }
        }
    }
}

/// A NUL-terminated string read at `c` is the bytes from `c` up to the first zero
/// byte, which it does not contain; reading moves past that zero byte, or to the end
/// of `p` when there is none. Nothing is read at or after the end.
pub proof fn law_c_string(p: Seq<u8>, c: int)
    requires
        0 <= c,
    ensures
        ({
            let (s, n) = spec_c_string(p, c);
            &&& c >= p.len() ==> s.len() == 0 && n == c
            &&& c < p.len() ==> {
                &&& c + s.len() <= p.len()
                &&& s == p.subrange(c, c + s.len())
                &&& forall|j: int| 0 <= j < s.len() ==> s[j] != 0
                &&& c + s.len() < p.len() ==> p[c + s.len()] == 0 && n == c + s.len() + 1
                &&& c + s.len() == p.len() ==> n == p.len()
            }
        }),
{
    lemma_first_nul_found(p, c);
    let (s, n) = spec_c_string(p, c);
    if c < p.len() {
        assert forall|j: int| 0 <= j < s.len() implies s[j] != 0 by {
            assert(s[j] == p[c + j]);
        }
    }
}

} // verus!
