use vstd::prelude::*;
use super::types::{
    loc_item_views, res_view, BoxModel, ItemLocationBox, ItemLocationExtent, ItemLocationItem,
    LocationBoxModel, LocationItemModel, ParsedBox, ILOC_BOX_TYPE,
};
use super::errors::{ItemLocationField, ParseItemLocationBoxError};
use super::cursor::{at, iloc_short, opt16, opt32, opt64, read_u16_cursor, read_u32_cursor, read_u64_cursor};
use super::leaf::{box_payload_offset, parse_full_box_payload, payload_fits, spec_full_box};
use super::repeat::{lemma_repeat_fails_at, lemma_repeat_len, repeat};
use super::bytes::{be16, be32, lemma_two_byte_nibbles, lemma_u16_nibbles, u32_value_at};

verus! {

pub open spec fn spec_iloc_field_context(field: ItemLocationField) -> &'static str {
    match field {
        ItemLocationField::Offset => "extent_offset",
        ItemLocationField::Length => "extent_length",
        ItemLocationField::BaseOffset => "base_offset",
        ItemLocationField::Index => "extent_index",
    }
}

pub fn iloc_field_context(field: ItemLocationField) -> (r: &'static str)
    ensures
        r == spec_iloc_field_context(field),
{
    match field {
        ItemLocationField::Offset => "extent_offset",
        ItemLocationField::Length => "extent_length",
        ItemLocationField::BaseOffset => "base_offset",
        ItemLocationField::Index => "extent_index",
    }
}

/// Field sizes in `iloc` are 0, 4 or 8 bytes.
pub open spec fn valid_iloc_size(size: u8) -> bool {
    size == 0 || size == 4 || size == 8
}

pub fn validate_iloc_size_field(offset: u64, field: ItemLocationField, size: u8) -> (r: Result<(), ParseItemLocationBoxError>)
    ensures
        valid_iloc_size(size) ==> r is Ok,
        !valid_iloc_size(size) ==> r == Err::<(), ParseItemLocationBoxError>(
            ParseItemLocationBoxError::UnsupportedFieldSize { offset, field, size },
        ),
{
    if size == 0 || size == 4 || size == 8 {
        return Ok(());
    }
    Err(ParseItemLocationBoxError::UnsupportedFieldSize { offset, field, size })
}

/// An `iloc` value field of `size` bytes at `c` (absent fields read as 0).
pub open spec fn spec_iloc_sized(p: Seq<u8>, c: int, off: u64, size: u8, field: ItemLocationField) -> Result<(u64, int), ParseItemLocationBoxError> {
    if size == 0 {
        Ok((0, c))
    } else if size == 4 {
        match opt32(p, c) {
            Some((v, n)) => Ok((v as u64, n)),
            None => Err(iloc_short(p, c, off, spec_iloc_field_context(field), 4)),
        }
    } else if size == 8 {
        match opt64(p, c) {
            Some((v, n)) => Ok((v, n)),
            None => Err(iloc_short(p, c, off, spec_iloc_field_context(field), 8)),
        }
    } else {
        Err(ParseItemLocationBoxError::UnsupportedFieldSize { offset: at(off, c), field, size })
    }
}

pub fn read_iloc_sized_u64(payload: &[u8], cursor: &mut usize, payload_offset: u64, size: u8, field: ItemLocationField) -> (r: Result<u64, ParseItemLocationBoxError>)
    requires
        *old(cursor) <= payload@.len(),
        payload_fits(payload@, payload_offset),
    ensures
        *final(cursor) <= payload@.len(),
        match spec_iloc_sized(payload@, *old(cursor) as int, payload_offset, size, field) {
            Ok((v, c)) => r == Ok::<u64, ParseItemLocationBoxError>(v) && *final(cursor) == c,
            Err(e) => r == Err::<u64, ParseItemLocationBoxError>(e),
        },
{
    if size == 0 {
        Ok(0)
    } else if size == 4 {
        let v = read_u32_cursor(payload, cursor, payload_offset, iloc_field_context(field))?;
        Ok(v as u64)
    } else if size == 8 {
        read_u64_cursor(payload, cursor, payload_offset, iloc_field_context(field))
    } else {
        Err(ParseItemLocationBoxError::UnsupportedFieldSize { offset: payload_offset + *cursor as u64, field, size })
    }
}

/// One extent: index (version 1+ with a nonzero index size), offset, length.
pub open spec fn iloc_extent_step(p: Seq<u8>, off: u64, version: u8, index_size: u8, offset_size: u8, length_size: u8) -> spec_fn(int) -> Result<(ItemLocationExtent, int), ParseItemLocationBoxError> {
    |c: int| {
        let index = if version >= 1 && index_size > 0 {
            spec_iloc_sized(p, c, off, index_size, ItemLocationField::Index)
        } else {
            Ok((0u64, c))
        };
        match index {
            Err(e) => Err(e),
            Ok((index, c1)) => match spec_iloc_sized(p, c1, off, offset_size, ItemLocationField::Offset) {
                Err(e) => Err(e),
                Ok((offset, c2)) => match spec_iloc_sized(p, c2, off, length_size, ItemLocationField::Length) {
                    Err(e) => Err(e),
                    Ok((length, c3)) => Ok((ItemLocationExtent { index, offset, length }, c3)),
                },
            },
        }
    }
}

/// One item: id (16 bits before version 2), construction method (version 1+, low
/// four bits of a 16-bit field), data reference index, base offset, extents.
pub open spec fn iloc_item_step(p: Seq<u8>, off: u64, version: u8, offset_size: u8, length_size: u8, base_offset_size: u8, index_size: u8) -> spec_fn(int) -> Result<(LocationItemModel, int), ParseItemLocationBoxError> {
    |c: int| {
        let id = if version < 2 {
            match opt16(p, c) {
                Some((v, n)) => Ok((v as u32, n)),
                None => Err(iloc_short(p, c, off, "item_ID", 2)),
            }
        } else {
            match opt32(p, c) {
                Some((v, n)) => Ok((v, n)),
                None => Err(iloc_short(p, c, off, "item_ID", 4)),
            }
        };
        match id {
            Err(e) => Err(e),
            Ok((item_id, c1)) => {
                let method = if version >= 1 {
                    match opt16(p, c1) {
                        Some((v, n)) => Ok(((v & 0xF) as u8, n)),
                        None => Err(iloc_short(p, c1, off, "construction_method", 2)),
                    }
                } else {
                    Ok((0u8, c1))
                };
                match method {
                    Err(e) => Err(e),
                    Ok((construction_method, c2)) => match opt16(p, c2) {
                        None => Err(iloc_short(p, c2, off, "data_reference_index", 2)),
                        Some((data_reference_index, c3)) => match spec_iloc_sized(p, c3, off, base_offset_size, ItemLocationField::BaseOffset) {
                            Err(e) => Err(e),
                            Ok((base_offset, c4)) => match opt16(p, c4) {
                                None => Err(iloc_short(p, c4, off, "extent_count", 2)),
                                Some((extent_count, c5)) => match repeat(
                                    iloc_extent_step(p, off, version, index_size, offset_size, length_size),
                                    c5,
                                    extent_count as nat,
                                ) {
                                    Err(e) => Err(e),
                                    Ok((extents, c6)) => Ok((
                                        LocationItemModel { item_id, construction_method, data_reference_index, base_offset, extents },
                                        c6,
                                    )),
                                },
                            },
                        },
                    },
                }
            },
        }
    }
}

/// `iloc` (versions 0 to 2): field sizes, item count, then the items.
pub open spec fn spec_iloc_payload(p: Seq<u8>, off: u64) -> Result<LocationBoxModel, ParseItemLocationBoxError> {
    match spec_full_box(p, off) {
        Err(e) => Err(ParseItemLocationBoxError::FullBox(e)),
        Ok((full_box, ip, ioff)) => if full_box.version > 2 {
            Err(ParseItemLocationBoxError::UnsupportedVersion { offset: off, version: full_box.version })
        } else {
            match opt16(ip, 0) {
                None => Err(iloc_short(ip, 0, ioff, "size descriptor", 2)),
                Some((sf, c1)) => {
                    let offset_size = ((sf >> 12u16) & 0xFu16) as u8;
                    let length_size = ((sf >> 8u16) & 0xFu16) as u8;
                    let base_offset_size = ((sf >> 4u16) & 0xFu16) as u8;
                    let index_size = if full_box.version >= 1 { (sf & 0xFu16) as u8 } else { 0u8 };
                    if !valid_iloc_size(offset_size) {
                        Err(ParseItemLocationBoxError::UnsupportedFieldSize { offset: ioff, field: ItemLocationField::Offset, size: offset_size })
                    } else if !valid_iloc_size(length_size) {
                        Err(ParseItemLocationBoxError::UnsupportedFieldSize { offset: ioff, field: ItemLocationField::Length, size: length_size })
                    } else if !valid_iloc_size(base_offset_size) {
                        Err(ParseItemLocationBoxError::UnsupportedFieldSize { offset: ioff, field: ItemLocationField::BaseOffset, size: base_offset_size })
                    } else if full_box.version >= 1 && !valid_iloc_size(index_size) {
                        Err(ParseItemLocationBoxError::UnsupportedFieldSize { offset: ioff, field: ItemLocationField::Index, size: index_size })
                    } else {
                        let count = if full_box.version < 2 {
                            match opt16(ip, c1) {
                                Some((v, n)) => Ok((v as u32, n)),
                                None => Err(iloc_short(ip, c1, ioff, "item_count", 2)),
                            }
                        } else {
                            match opt32(ip, c1) {
                                Some((v, n)) => Ok((v, n)),
                                None => Err(iloc_short(ip, c1, ioff, "item_count", 4)),
                            }
                        };
                        match count {
                            Err(e) => Err(e),
                            Ok((item_count, c2)) => match repeat(
                                iloc_item_step(ip, ioff, full_box.version, offset_size, length_size, base_offset_size, index_size),
                                c2,
                                item_count as nat,
                            ) {
                                Err(e) => Err(e),
                                Ok((items, _)) => Ok(LocationBoxModel {
                                    full_box,
                                    offset_size,
                                    length_size,
                                    base_offset_size,
                                    index_size,
                                    items,
                                }),
                            },
                        }
                    }
                },
            }
        },
    }
}

fn parse_iloc_extent(payload: &[u8], cursor: &mut usize, payload_offset: u64, version: u8, index_size: u8, offset_size: u8, length_size: u8) -> (r: Result<ItemLocationExtent, ParseItemLocationBoxError>)
    requires
        *old(cursor) <= payload@.len(),
        payload_fits(payload@, payload_offset),
    ensures
        *final(cursor) <= payload@.len(),
        match (iloc_extent_step(payload@, payload_offset, version, index_size, offset_size, length_size))(*old(cursor) as int) {
            Ok((x, c)) => r == Ok::<ItemLocationExtent, ParseItemLocationBoxError>(x) && *final(cursor) == c,
            Err(e) => r == Err::<ItemLocationExtent, ParseItemLocationBoxError>(e),
        },
{
    let index = if version >= 1 && index_size > 0 {
        read_iloc_sized_u64(payload, cursor, payload_offset, index_size, ItemLocationField::Index)?
    } else {
        0
    };
    let offset = read_iloc_sized_u64(payload, cursor, payload_offset, offset_size, ItemLocationField::Offset)?;
    let length = read_iloc_sized_u64(payload, cursor, payload_offset, length_size, ItemLocationField::Length)?;
    Ok(ItemLocationExtent { index, offset, length })
}

#[verifier::loop_isolation(false)]
fn parse_iloc_item(payload: &[u8], cursor: &mut usize, payload_offset: u64, version: u8, offset_size: u8, length_size: u8, base_offset_size: u8, index_size: u8) -> (r: Result<ItemLocationItem, ParseItemLocationBoxError>)
    requires
        *old(cursor) <= payload@.len(),
        payload_fits(payload@, payload_offset),
    ensures
        *final(cursor) <= payload@.len(),
        match (iloc_item_step(payload@, payload_offset, version, offset_size, length_size, base_offset_size, index_size))(*old(cursor) as int) {
            Ok((x, c)) => r matches Ok(it) && it@ == x && *final(cursor) == c,
            Err(e) => r == Err::<ItemLocationItem, ParseItemLocationBoxError>(e),
        },
{
    let item_id = if version < 2 {
        read_u16_cursor(payload, cursor, payload_offset, "item_ID")? as u32
    } else {
        read_u32_cursor(payload, cursor, payload_offset, "item_ID")?
    };
    let construction_method = if version >= 1 {
        (read_u16_cursor(payload, cursor, payload_offset, "construction_method")? & 0xF) as u8
    } else {
        0
    };
    let data_reference_index = read_u16_cursor(payload, cursor, payload_offset, "data_reference_index")?;
    let base_offset = read_iloc_sized_u64(payload, cursor, payload_offset, base_offset_size, ItemLocationField::BaseOffset)?;
    let extent_count = read_u16_cursor(payload, cursor, payload_offset, "extent_count")?;
    let ghost step = iloc_extent_step(payload@, payload_offset, version, index_size, offset_size, length_size);
    let ghost c5 = *cursor as int;
    let mut extents: Vec<ItemLocationExtent> = Vec::new();
    let mut i: u16 = 0;
    while i < extent_count
        invariant
            *cursor <= payload@.len(),
            payload_fits(payload@, payload_offset),
            i <= extent_count,
            step == iloc_extent_step(payload@, payload_offset, version, index_size, offset_size, length_size),
            repeat(step, c5, i as nat) == Ok::<(Seq<ItemLocationExtent>, int), ParseItemLocationBoxError>((extents@, *cursor as int)),
        decreases extent_count - i,
    {
        let ghost before = *cursor as int;
        match parse_iloc_extent(payload, cursor, payload_offset, version, index_size, offset_size, length_size) {
            Ok(extent) => {
                extents.push(extent);
            },
            Err(e) => {
                proof {
                    lemma_repeat_fails_at(step, c5, i as nat, extent_count as nat, before, e);
                }
                return Err(e);
            },
        }
        i = i + 1;
    }
    Ok(ItemLocationItem { item_id, construction_method, data_reference_index, base_offset, extents })
}

#[verifier::loop_isolation(false)]
#[verifier::rlimit(60)]
pub fn parse_iloc_payload(payload: &[u8], payload_offset: u64) -> (r: Result<ItemLocationBox, ParseItemLocationBoxError>)
    requires
        payload_fits(payload@, payload_offset),
    ensures
        res_view(r) == spec_iloc_payload(payload@, payload_offset),
{
    let (full_box, iloc_payload, iloc_payload_offset) = match parse_full_box_payload(payload, payload_offset) {
        Ok(v) => v,
        Err(e) => return Err(ParseItemLocationBoxError::FullBox(e)),
    };
    if full_box.version > 2 {
        return Err(ParseItemLocationBoxError::UnsupportedVersion { offset: payload_offset, version: full_box.version });
    }
    let mut cursor: usize = 0;
    let size_fields = read_u16_cursor(iloc_payload, &mut cursor, iloc_payload_offset, "size descriptor")?;
    let offset_size = ((size_fields >> 12) & 0xF) as u8;
    let length_size = ((size_fields >> 8) & 0xF) as u8;
    let base_offset_size = ((size_fields >> 4) & 0xF) as u8;
    let index_size = if full_box.version >= 1 { (size_fields & 0xF) as u8 } else { 0 };
    validate_iloc_size_field(iloc_payload_offset, ItemLocationField::Offset, offset_size)?;
    validate_iloc_size_field(iloc_payload_offset, ItemLocationField::Length, length_size)?;
    validate_iloc_size_field(iloc_payload_offset, ItemLocationField::BaseOffset, base_offset_size)?;
    if full_box.version >= 1 {
        validate_iloc_size_field(iloc_payload_offset, ItemLocationField::Index, index_size)?;
    }
    let item_count = if full_box.version < 2 {
        read_u16_cursor(iloc_payload, &mut cursor, iloc_payload_offset, "item_count")? as u32
    } else {
        read_u32_cursor(iloc_payload, &mut cursor, iloc_payload_offset, "item_count")?
    };
    let ghost step = iloc_item_step(iloc_payload@, iloc_payload_offset, full_box.version, offset_size, length_size, base_offset_size, index_size);
    let ghost c2 = cursor as int;
    let mut items: Vec<ItemLocationItem> = Vec::new();
    let mut i: u32 = 0;
    assert(loc_item_views(items@) =~= Seq::<LocationItemModel>::empty());
    while i < item_count
        invariant
            cursor <= iloc_payload@.len(),
            payload_fits(iloc_payload@, iloc_payload_offset),
            i <= item_count,
            step == iloc_item_step(iloc_payload@, iloc_payload_offset, full_box.version, offset_size, length_size, base_offset_size, index_size),
            repeat(step, c2, i as nat) == Ok::<(Seq<LocationItemModel>, int), ParseItemLocationBoxError>((loc_item_views(items@), cursor as int)),
        decreases item_count - i,
    {
        let ghost before = cursor as int;
        let ghost before_items = items@;
        match parse_iloc_item(iloc_payload, &mut cursor, iloc_payload_offset, full_box.version, offset_size, length_size, base_offset_size, index_size) {
            Ok(item) => {
                items.push(item);
                proof {
                    assert(loc_item_views(items@) =~= loc_item_views(before_items).push(item@));
                }
            },
            Err(e) => {
                proof {
                    lemma_repeat_fails_at(step, c2, i as nat, item_count as nat, before, e);
                }
                return Err(e);
            },
        }
        i = i + 1;
    }
    Ok(ItemLocationBox { full_box, offset_size, length_size, base_offset_size, index_size, items })
}

pub open spec fn spec_iloc_box(b: BoxModel) -> Result<LocationBoxModel, ParseItemLocationBoxError> {
    if b.header.box_type.0 != ILOC_BOX_TYPE {
        Err(ParseItemLocationBoxError::UnexpectedBoxType { offset: b.offset, actual: b.header.box_type })
    } else {
        spec_iloc_payload(b.payload, box_payload_offset(b))
    }
}

impl<'a> ParsedBox<'a> {
    /// Parse this box payload as an `iloc` box.
    pub fn parse_iloc(&self) -> (r: Result<ItemLocationBox, ParseItemLocationBoxError>)
        requires
            self.offsets_fit(),
        ensures
            res_view(r) == spec_iloc_box(self@),
    {
        if !self.header.box_type.is(ILOC_BOX_TYPE) {
            return Err(ParseItemLocationBoxError::UnexpectedBoxType { offset: self.offset, actual: self.header.box_type });
        }
        parse_iloc_payload(self.payload, self.payload_offset())
    }
}

/// The unsigned big-endian value of a field of `size` bytes (0, 4 or 8) at `c`; an
/// absent field is 0.
pub open spec fn sized_value_at(p: Seq<u8>, c: int, size: u8) -> int {
    if size == 0 {
        0
    } else if size == 4 {
        u32_value_at(p, c)
    } else {
        u32_value_at(p, c) * 0x1_0000_0000 + u32_value_at(p, c + 4)
    }
}

/// An `iloc` value field of 0, 4 or 8 bytes at `c` is read when it fits, as the
/// big-endian value of those bytes, and the position moves past it; a field that
/// does not fit is refused as too short, and any other size as unsupported.
pub proof fn law_iloc_sized_field(p: Seq<u8>, c: int, off: u64, size: u8, field: ItemLocationField)
    requires
        0 <= c,
    ensures
        valid_iloc_size(size) && c + size <= p.len() ==> (spec_iloc_sized(p, c, off, size, field) matches Ok((v, n))
            && v == sized_value_at(p, c, size) && n == c + size),
        (size == 4 || size == 8) && c + size > p.len() ==> (spec_iloc_sized(p, c, off, size, field) matches Err(
            ParseItemLocationBoxError::PayloadTooSmall { required, .. }) && required == size),
        !valid_iloc_size(size) ==> (spec_iloc_sized(p, c, off, size, field) matches Err(
            ParseItemLocationBoxError::UnsupportedFieldSize { size: s, field: f, .. }) && s == size && f == field),
{
}

/// The header of an `iloc` payload `p`: a version of at most 2, then the offset
/// and length sizes in the high and low nibbles of byte 4, the base offset size in
/// the high nibble of byte 5 and, from version 1, the index size in its low nibble,
/// each 0, 4 or 8; then the item count, 16 bits before version 2 and 32 bits from
/// it, which is the number of items returned. A version above 2 is refused.
pub proof fn law_iloc_header_fields(p: Seq<u8>, off: u64)
    ensures
        p.len() >= 4 && p[0] > 2 ==> (spec_iloc_payload(p, off) matches Err(
            ParseItemLocationBoxError::UnsupportedVersion { version, .. }) && version == p[0]),
        spec_iloc_payload(p, off) matches Ok(b) ==> {
            &&& b.full_box.version == p[0] && p[0] <= 2
            &&& b.offset_size == p[4] / 16 && b.length_size == p[4] % 16
            &&& b.base_offset_size == p[5] / 16
            &&& b.index_size == (if p[0] >= 1 { p[5] % 16 } else { 0 })
            &&& valid_iloc_size(b.offset_size) && valid_iloc_size(b.length_size)
            &&& valid_iloc_size(b.base_offset_size) && valid_iloc_size(b.index_size)
            &&& b.items.len() == (if p[0] < 2 { p[6] * 256 + p[7] } else { u32_value_at(p, 6) })
        },
{
    if p.len() >= 6 {
        let ip = p.subrange(4, p.len() as int);
        let sf = be16(ip, 0);
        lemma_u16_nibbles(sf);
        lemma_two_byte_nibbles(p[4], p[5]);
        if let Ok(b) = spec_iloc_payload(p, off) {
            let c2: int = if p[0] < 2 { 4 } else { 6 };
            let count: u32 = if p[0] < 2 { be16(ip, 2) as u32 } else { be32(ip, 2) };
            lemma_repeat_len(
                iloc_item_step(ip, (off + 4) as u64, p[0], b.offset_size, b.length_size, b.base_offset_size, b.index_size),
                c2,
                count as nat,
            );
        }
    }
}

/// One `iloc` item of version `version` at `c`: the item id (16 bits before version
/// 2, 32 bits from it), from version 1 the construction method in the low nibble of
/// a 16-bit field, the 16-bit data reference index, the base offset of
/// `base_offset_size` bytes and the 16-bit extent count, which is the number of
/// extents returned; all big-endian.
pub proof fn law_iloc_item_fields(p: Seq<u8>, off: u64, version: u8, offset_size: u8, length_size: u8, base_offset_size: u8, index_size: u8, c: int)
    requires
        0 <= c,
        valid_iloc_size(base_offset_size),
    ensures
        (iloc_item_step(p, off, version, offset_size, length_size, base_offset_size, index_size))(c) matches Ok((it, _)) ==> {
            let c1 = if version < 2 { c + 2 } else { c + 4 };
            let c2 = if version >= 1 { c1 + 2 } else { c1 };
            let c3 = c2 + 2 + base_offset_size;
            &&& it.item_id == (if version < 2 { p[c] * 256 + p[c + 1] } else { u32_value_at(p, c) })
            &&& it.construction_method == (if version >= 1 { p[c1 + 1] % 16 } else { 0 })
            &&& it.data_reference_index == p[c2] * 256 + p[c2 + 1]
            &&& it.base_offset == sized_value_at(p, c2 + 2, base_offset_size)
            &&& it.extents.len() == p[c3] * 256 + p[c3 + 1]
        },
{
    let step = iloc_item_step(p, off, version, offset_size, length_size, base_offset_size, index_size);
    if let Ok((it, _)) = step(c) {
        let c1 = if version < 2 { c + 2 } else { c + 4 };
        let c2 = if version >= 1 { c1 + 2 } else { c1 };
        if version >= 1 {
            lemma_u16_nibbles(be16(p, c1));
            lemma_two_byte_nibbles(p[c1], p[c1 + 1]);
        }
        law_iloc_sized_field(p, c2 + 2, off, base_offset_size, ItemLocationField::BaseOffset);
        let c3 = c2 + 2 + base_offset_size;
        lemma_repeat_len(
            iloc_extent_step(p, off, version, index_size, offset_size, length_size),
            c3 + 2,
            be16(p, c3) as nat,
        );
    }
}

/// One `iloc` extent at `c`: from version 1 with a nonzero index size the index
/// field, then the offset and the length fields, each of its size and big-endian;
/// an index that is not read is 0.
pub proof fn law_iloc_extent_fields(p: Seq<u8>, off: u64, version: u8, index_size: u8, offset_size: u8, length_size: u8, c: int)
    requires
        0 <= c,
        valid_iloc_size(index_size),
        valid_iloc_size(offset_size),
        valid_iloc_size(length_size),
    ensures
        (iloc_extent_step(p, off, version, index_size, offset_size, length_size))(c) matches Ok((e, n)) ==> {
            let isz: u8 = if version >= 1 { index_size } else { 0 };
            &&& e.index == sized_value_at(p, c, isz)
            &&& e.offset == sized_value_at(p, c + isz, offset_size)
            &&& e.length == sized_value_at(p, c + isz + offset_size, length_size)
            &&& n == c + isz + offset_size + length_size
        },
{
    let isz: u8 = if version >= 1 { index_size } else { 0 };
    law_iloc_sized_field(p, c, off, isz, ItemLocationField::Index);
    law_iloc_sized_field(p, c + isz, off, offset_size, ItemLocationField::Offset);
    law_iloc_sized_field(p, c + isz + offset_size, off, length_size, ItemLocationField::Length);
}

} // verus!
