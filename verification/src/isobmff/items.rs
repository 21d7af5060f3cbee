use vstd::prelude::*;
use super::types::{
    assoc_box_views, assoc_entry_views, box_views, container_views, info_entry_views,
    ref_entry_views, res_view, AssociationBoxModel, AssociationEntryModel, BoxModel, FourCc,
    InfoBoxModel, InfoEntryModel, ItemInfoBox, ItemInfoEntryBox, ItemPropertiesBox,
    ItemPropertyAssociation, ItemPropertyAssociationBox, ItemPropertyAssociationEntry,
    ItemPropertyContainerBox, ItemReferenceBox, ItemReferenceEntry, ParsedBox,
    PropertiesBoxModel, PropertyContainerModel, ReferenceBoxModel, ReferenceEntryModel,
    IINF_BOX_TYPE, INFE_BOX_TYPE, INFE_ITEM_TYPE_MIME, INFE_ITEM_TYPE_URI, IPCO_BOX_TYPE,
    IPMA_BOX_TYPE, IPRP_BOX_TYPE, IREF_BOX_TYPE,
};
use super::errors::{
    ParseBoxError, ParseItemInfoBoxError, ParseItemInfoEntryBoxError,
    ParseItemPropertiesBoxError, ParseItemPropertyAssociationBoxError,
    ParseItemPropertyContainerBoxError, ParseItemReferenceBoxError,
};
use super::cursor::{
    iinf_short, infe_short, ipma_short, iref_id_width, iref_short, opt16, opt32, opt8,
    opt_fourcc, opt_iref_id, read_c_string_cursor, read_fourcc_cursor_infe,
    read_item_id_cursor_iref, read_u16_cursor_iinf, read_u16_cursor_infe,
    read_u16_cursor_iref, read_u16_cursor_ipma, read_u32_cursor_iinf, read_u32_cursor_infe,
    read_u32_cursor_ipma, read_u8_cursor_ipma, spec_c_string,
};
use super::boxes::{all_offsets_fit, collect_boxes, spec_boxes, BoxIter};
use super::leaf::{box_payload_offset, parse_full_box_payload, payload_fits, spec_full_box};
use super::repeat::{lemma_repeat_fails_at, lemma_repeat_len, repeat};
use super::bytes::{
    be16, fourcc_at, lemma_byte_fields, lemma_two_byte_top_bit, lemma_u16_top_bit, lemma_u32_low_bit, u32_value_at,
};

verus! {

// ---- infe ----

/// `infe` (versions 0 to 3). Versions 0 and 1 carry a 16-bit id, a protection index
/// and name, content type and content encoding strings; versions 2 and 3 carry the
/// hidden flag (flags bit 0), an id (16 bits in version 2, else 32), a protection
/// index, an item type and a name, then MIME strings for `mime` items or a URI
/// type for `uri ` items.
pub open spec fn spec_infe_payload(p: Seq<u8>, off: u64) -> Result<InfoEntryModel, ParseItemInfoEntryBoxError> {
    match spec_full_box(p, off) {
        Err(e) => Err(ParseItemInfoEntryBoxError::FullBox(e)),
        Ok((full_box, ip, ioff)) => if full_box.version > 3 {
            Err(ParseItemInfoEntryBoxError::UnsupportedVersion { offset: off, version: full_box.version })
        } else if full_box.version <= 1 {
            match opt16(ip, 0) {
                None => Err(infe_short(ip, 0, ioff, "item_ID", 2)),
                Some((item_id, c1)) => match opt16(ip, c1) {
                    None => Err(infe_short(ip, c1, ioff, "item_protection_index", 2)),
                    Some((item_protection_index, c2)) => {
                        let (item_name, c3) = spec_c_string(ip, c2);
                        let (content_type, c4) = spec_c_string(ip, c3);
                        let (content_encoding, _) = spec_c_string(ip, c4);
                        Ok(InfoEntryModel {
                            full_box,
                            item_id: item_id as u32,
                            item_protection_index,
                            item_type: None,
                            item_name,
                            content_type: Some(content_type),
                            content_encoding: Some(content_encoding),
                            item_uri_type: None,
                            hidden_item: false,
                        })
                    },
                },
            }
        } else {
            let id = if full_box.version == 2 {
                match opt16(ip, 0) {
                    Some((v, n)) => Ok((v as u32, n)),
                    None => Err(infe_short(ip, 0, ioff, "item_ID", 2)),
                }
            } else {
                match opt32(ip, 0) {
                    Some((v, n)) => Ok((v, n)),
                    None => Err(infe_short(ip, 0, ioff, "item_ID", 4)),
                }
            };
            match id {
                Err(e) => Err(e),
                Ok((item_id, c1)) => match opt16(ip, c1) {
                    None => Err(infe_short(ip, c1, ioff, "item_protection_index", 2)),
                    Some((item_protection_index, c2)) => match opt_fourcc(ip, c2) {
                        None => Err(infe_short(ip, c2, ioff, "item_type", 4)),
                        Some((item_type, c3)) => {
                            let (item_name, c4) = spec_c_string(ip, c3);
                            let is_mime = item_type.0 == INFE_ITEM_TYPE_MIME;
                            let is_uri = item_type.0 == INFE_ITEM_TYPE_URI;
                            let (first, c5) = spec_c_string(ip, c4);
                            let (second, _) = spec_c_string(ip, c5);
                            Ok(InfoEntryModel {
                                full_box,
                                item_id,
                                item_protection_index,
                                item_type: Some(item_type),
                                item_name,
                                content_type: if is_mime { Some(first) } else { None },
                                content_encoding: if is_mime { Some(second) } else { None },
                                item_uri_type: if !is_mime && is_uri { Some(first) } else { None },
                                hidden_item: full_box.flags & 1 != 0,
                            })
                        },
                    },
                },
            }
        },
    }
}

pub fn parse_infe_payload(payload: &[u8], payload_offset: u64) -> (r: Result<ItemInfoEntryBox, ParseItemInfoEntryBoxError>)
    requires
        payload_fits(payload@, payload_offset),
    ensures
        res_view(r) == spec_infe_payload(payload@, payload_offset),
{
    let (full_box, infe_payload, infe_payload_offset) = match parse_full_box_payload(payload, payload_offset) {
        Ok(v) => v,
        Err(e) => return Err(ParseItemInfoEntryBoxError::FullBox(e)),
    };
    if full_box.version > 3 {
        return Err(ParseItemInfoEntryBoxError::UnsupportedVersion { offset: payload_offset, version: full_box.version });
    }
    let mut cursor: usize = 0;
    if full_box.version <= 1 {
        let item_id = read_u16_cursor_infe(infe_payload, &mut cursor, infe_payload_offset, "item_ID")? as u32;
        let item_protection_index = read_u16_cursor_infe(infe_payload, &mut cursor, infe_payload_offset, "item_protection_index")?;
        let item_name = read_c_string_cursor(infe_payload, &mut cursor);
        let content_type = read_c_string_cursor(infe_payload, &mut cursor);
        let content_encoding = read_c_string_cursor(infe_payload, &mut cursor);
        Ok(ItemInfoEntryBox {
            full_box,
            item_id,
            item_protection_index,
            item_type: None,
            item_name,
            content_type: Some(content_type),
            content_encoding: Some(content_encoding),
            item_uri_type: None,
            hidden_item: false,
        })
    } else {
        let hidden_item = (full_box.flags & 0x1) != 0;
        let item_id = if full_box.version == 2 {
            read_u16_cursor_infe(infe_payload, &mut cursor, infe_payload_offset, "item_ID")? as u32
        } else {
            read_u32_cursor_infe(infe_payload, &mut cursor, infe_payload_offset, "item_ID")?
        };
        let item_protection_index = read_u16_cursor_infe(infe_payload, &mut cursor, infe_payload_offset, "item_protection_index")?;
        let item_type = read_fourcc_cursor_infe(infe_payload, &mut cursor, infe_payload_offset, "item_type")?;
        let item_name = read_c_string_cursor(infe_payload, &mut cursor);
        let mut content_type = None;
        let mut content_encoding = None;
        let mut item_uri_type = None;
        if item_type.is(INFE_ITEM_TYPE_MIME) {
            content_type = Some(read_c_string_cursor(infe_payload, &mut cursor));
            content_encoding = Some(read_c_string_cursor(infe_payload, &mut cursor));
        } else if item_type.is(INFE_ITEM_TYPE_URI) {
            item_uri_type = Some(read_c_string_cursor(infe_payload, &mut cursor));
        }
        Ok(ItemInfoEntryBox {
            full_box,
            item_id,
            item_protection_index,
            item_type: Some(item_type),
            item_name,
            content_type,
            content_encoding,
            item_uri_type,
            hidden_item,
        })
    }
}

// ---- iinf ----

/// One `iinf` entry: the child must be an `infe` box.
pub open spec fn spec_iinf_entry(ch: BoxModel) -> Result<InfoEntryModel, ParseItemInfoBoxError> {
    if ch.header.box_type.0 != INFE_BOX_TYPE {
        Err(ParseItemInfoBoxError::UnexpectedEntryBoxType { offset: ch.offset, actual: ch.header.box_type })
    } else {
        match spec_infe_payload(ch.payload, box_payload_offset(ch)) {
            Err(e) => Err(ParseItemInfoBoxError::Entry(e)),
            Ok(m) => Ok(m),
        }
    }
}

/// The entry held by child `i`.
pub open spec fn iinf_entry_step(children: Seq<BoxModel>) -> spec_fn(int) -> Result<(InfoEntryModel, int), ParseItemInfoBoxError> {
    |i: int| match spec_iinf_entry(children[i]) {
        Ok(m) => Ok((m, i + 1)),
        Err(e) => Err(e),
    }
}

fn parse_iinf_entry(child: &ParsedBox) -> (r: Result<ItemInfoEntryBox, ParseItemInfoBoxError>)
    requires
        child.offsets_fit(),
    ensures
        res_view(r) == spec_iinf_entry(child@),
{
    if !child.header.box_type.is(INFE_BOX_TYPE) {
        return Err(ParseItemInfoBoxError::UnexpectedEntryBoxType { offset: child.offset, actual: child.header.box_type });
    }
    match parse_infe_payload(child.payload, child.payload_offset()) {
        Ok(entry) => Ok(entry),
        Err(e) => Err(ParseItemInfoBoxError::Entry(e)),
    }
}

/// `iinf`: an entry count (16 bits in version 0, else 32) followed by exactly that
/// many `infe` child boxes.
pub open spec fn spec_iinf_payload(p: Seq<u8>, off: u64) -> Result<InfoBoxModel, ParseItemInfoBoxError> {
    match spec_full_box(p, off) {
        Err(e) => Err(ParseItemInfoBoxError::FullBox(e)),
        Ok((full_box, ip, ioff)) => {
            let count = if full_box.version == 0 {
                match opt16(ip, 0) {
                    Some((v, n)) => Ok((v as u32, n)),
                    None => Err(iinf_short(ip, 0, ioff, "item_count", 2)),
                }
            } else {
                match opt32(ip, 0) {
                    Some((v, n)) => Ok((v, n)),
                    None => Err(iinf_short(ip, 0, ioff, "item_count", 4)),
                }
            };
            match count {
                Err(e) => Err(e),
                Ok((item_count, c)) => {
                    let eoff = (ioff + c) as u64;
                    match spec_boxes(ip.subrange(c, ip.len() as int), eoff as int) {
                        Err(e) => Err(ParseItemInfoBoxError::ChildBox(e)),
                        Ok(children) => if children.len() != item_count {
                            Err(ParseItemInfoBoxError::DeclaredEntryCountMismatch {
                                offset: eoff,
                                declared: item_count,
                                parsed: children.len() as usize,
                            })
                        } else {
                            match repeat(iinf_entry_step(children), 0, children.len()) {
                                Err(e) => Err(e),
                                Ok((entries, _)) => Ok(InfoBoxModel { full_box, item_count, entries }),
                            }
                        },
                    }
                },
            }
        },
    }
}

pub fn parse_iinf_payload(payload: &[u8], payload_offset: u64) -> (r: Result<ItemInfoBox, ParseItemInfoBoxError>)
    requires
        payload_fits(payload@, payload_offset),
    ensures
        res_view(r) == spec_iinf_payload(payload@, payload_offset),
{
    let (full_box, iinf_payload, iinf_payload_offset) = match parse_full_box_payload(payload, payload_offset) {
        Ok(v) => v,
        Err(e) => return Err(ParseItemInfoBoxError::FullBox(e)),
    };
    let mut cursor: usize = 0;
    let item_count = if full_box.version == 0 {
        read_u16_cursor_iinf(iinf_payload, &mut cursor, iinf_payload_offset, "item_count")? as u32
    } else {
        read_u32_cursor_iinf(iinf_payload, &mut cursor, iinf_payload_offset, "item_count")?
    };
    let entries_payload = &iinf_payload[cursor..iinf_payload.len()];
    let entries_payload_offset = iinf_payload_offset + cursor as u64;
    let child_boxes = match collect_boxes(BoxIter::with_offset(entries_payload, entries_payload_offset)) {
        Ok(v) => v,
        Err(e) => return Err(ParseItemInfoBoxError::ChildBox(e)),
    };
    if child_boxes.len() as u64 != item_count as u64 {
        return Err(ParseItemInfoBoxError::DeclaredEntryCountMismatch {
            offset: entries_payload_offset,
            declared: item_count,
            parsed: child_boxes.len(),
        });
    }
    let ghost children = box_views(child_boxes@);
    let ghost step = iinf_entry_step(children);
    let mut entries: Vec<ItemInfoEntryBox> = Vec::new();
    let mut i: usize = 0;
    assert(info_entry_views(entries@) =~= Seq::<InfoEntryModel>::empty());
    assert(spec_iinf_payload(payload@, payload_offset) == match repeat(step, 0, children.len()) {
        Err(e) => Err(e),
        Ok((es, _)) => Ok(InfoBoxModel { full_box, item_count, entries: es }),
    });
    while i < child_boxes.len()
        invariant
            spec_iinf_payload(payload@, payload_offset) == match repeat(step, 0, children.len()) {
                Err(e) => Err(e),
                Ok((es, _)) => Ok(InfoBoxModel { full_box, item_count, entries: es }),
            },
            children.len() == child_boxes@.len(),
            i <= child_boxes@.len(),
            all_offsets_fit(child_boxes@),
            children == box_views(child_boxes@),
            step == iinf_entry_step(children),
            repeat(step, 0, i as nat) == Ok::<(Seq<InfoEntryModel>, int), ParseItemInfoBoxError>((info_entry_views(entries@), i as int)),
        decreases child_boxes@.len() - i,
    {
        let child = &child_boxes[i];
        assert(children[i as int] == child@);
        match parse_iinf_entry(child) {
            Ok(entry) => {
                let ghost before = entries@;
                entries.push(entry);
                proof {
                    assert(info_entry_views(entries@) =~= info_entry_views(before).push(entry@));
                }
            },
            Err(e) => {
                proof {
                    lemma_repeat_fails_at(step, 0, i as nat, children.len(), i as int, e);
                }
                return Err(e);
            },
        }
        i = i + 1;
    }
    Ok(ItemInfoBox { full_box, item_count, entries })
}

// ---- iref ----

/// One referenced item id of an `iref` child.
pub open spec fn iref_id_step(cp: Seq<u8>, coff: u64, version: u8) -> spec_fn(int) -> Result<(u32, int), ParseItemReferenceBoxError> {
    |c: int| match opt_iref_id(cp, c, version) {
        Some((id, n)) => Ok((id, n)),
        None => Err(iref_short(cp, c, coff, "to_item_ID", iref_id_width(version))),
    }
}

/// One typed reference box: a source id, a nonzero count and that many target ids.
pub open spec fn spec_iref_entry(ch: BoxModel, version: u8) -> Result<ReferenceEntryModel, ParseItemReferenceBoxError> {
    let cp = ch.payload;
    let coff = box_payload_offset(ch);
    match opt_iref_id(cp, 0, version) {
        None => Err(iref_short(cp, 0, coff, "from_item_ID", iref_id_width(version))),
        Some((from_item_id, c1)) => match opt16(cp, c1) {
            None => Err(iref_short(cp, c1, coff, "reference_count", 2)),
            Some((count, c2)) => if count == 0 {
                Err(ParseItemReferenceBoxError::EmptyReferenceList {
                    offset: (coff + c2 - 2) as u64,
                    reference_type: ch.header.box_type,
                })
            } else {
                match repeat(iref_id_step(cp, coff, version), c2, count as nat) {
                    Err(e) => Err(e),
                    Ok((to_item_ids, _)) => Ok(
                        ReferenceEntryModel { reference_type: ch.header.box_type, from_item_id, to_item_ids },
                    ),
                }
            },
        },
    }
}

/// The reference held by child `i`.
pub open spec fn iref_entry_step(children: Seq<BoxModel>, version: u8) -> spec_fn(int) -> Result<(ReferenceEntryModel, int), ParseItemReferenceBoxError> {
    |i: int| match spec_iref_entry(children[i], version) {
        Ok(m) => Ok((m, i + 1)),
        Err(e) => Err(e),
    }
}

/// `iref` (versions 0 and 1): one child box per reference type and source item.
pub open spec fn spec_iref_payload(p: Seq<u8>, off: u64) -> Result<ReferenceBoxModel, ParseItemReferenceBoxError> {
    match spec_full_box(p, off) {
        Err(e) => Err(ParseItemReferenceBoxError::FullBox(e)),
        Ok((full_box, ip, ioff)) => if full_box.version > 1 {
            Err(ParseItemReferenceBoxError::UnsupportedVersion { offset: off, version: full_box.version })
        } else {
            match spec_boxes(ip, ioff as int) {
                Err(e) => Err(ParseItemReferenceBoxError::ChildBox(e)),
                Ok(children) => match repeat(iref_entry_step(children, full_box.version), 0, children.len()) {
                    Err(e) => Err(e),
                    Ok((references, _)) => Ok(ReferenceBoxModel { full_box, references }),
                },
            }
        },
    }
}

#[verifier::loop_isolation(false)]
fn parse_iref_entry(child: &ParsedBox, version: u8) -> (r: Result<ItemReferenceEntry, ParseItemReferenceBoxError>)
    requires
        child.offsets_fit(),
    ensures
        res_view(r) == spec_iref_entry(child@, version),
{
    let mut cursor: usize = 0;
    let payload_offset = child.payload_offset();
    let from_item_id = read_item_id_cursor_iref(child.payload, &mut cursor, payload_offset, version, "from_item_ID")?;
    let reference_count = read_u16_cursor_iref(child.payload, &mut cursor, payload_offset, "reference_count")?;
    if reference_count == 0 {
        return Err(ParseItemReferenceBoxError::EmptyReferenceList {
            offset: payload_offset + cursor as u64 - 2,
            reference_type: child.header.box_type,
        });
    }
    let ghost step = iref_id_step(child.payload@, payload_offset, version);
    let ghost c2 = cursor as int;
    let mut to_item_ids: Vec<u32> = Vec::new();
    let mut i: u16 = 0;
    while i < reference_count
        invariant
            cursor <= child.payload@.len(),
            i <= reference_count,
            step == iref_id_step(child.payload@, payload_offset, version),
            repeat(step, c2, i as nat) == Ok::<(Seq<u32>, int), ParseItemReferenceBoxError>((to_item_ids@, cursor as int)),
        decreases reference_count - i,
    {
        let ghost before = cursor as int;
        match read_item_id_cursor_iref(child.payload, &mut cursor, payload_offset, version, "to_item_ID") {
            Ok(id) => {
                to_item_ids.push(id);
            },
            Err(e) => {
                proof {
                    lemma_repeat_fails_at(step, c2, i as nat, reference_count as nat, before, e);
                }
                return Err(e);
            },
        }
        i = i + 1;
    }
    Ok(ItemReferenceEntry { reference_type: child.header.box_type, from_item_id, to_item_ids })
}

#[verifier::loop_isolation(false)]
#[verifier::rlimit(50)]
pub fn parse_iref_payload(payload: &[u8], payload_offset: u64) -> (r: Result<ItemReferenceBox, ParseItemReferenceBoxError>)
    requires
        payload_fits(payload@, payload_offset),
    ensures
        res_view(r) == spec_iref_payload(payload@, payload_offset),
{
    let (full_box, iref_payload, iref_payload_offset) = match parse_full_box_payload(payload, payload_offset) {
        Ok(v) => v,
        Err(e) => return Err(ParseItemReferenceBoxError::FullBox(e)),
    };
    if full_box.version > 1 {
        return Err(ParseItemReferenceBoxError::UnsupportedVersion { offset: payload_offset, version: full_box.version });
    }
    let children = match collect_boxes(BoxIter::with_offset(iref_payload, iref_payload_offset)) {
        Ok(v) => v,
        Err(e) => return Err(ParseItemReferenceBoxError::ChildBox(e)),
    };
    let ghost cv = box_views(children@);
    let ghost step = iref_entry_step(cv, full_box.version);
    let mut references: Vec<ItemReferenceEntry> = Vec::new();
    let mut i: usize = 0;
    assert(ref_entry_views(references@) =~= Seq::<ReferenceEntryModel>::empty());
    while i < children.len()
        invariant
            i <= children@.len(),
            all_offsets_fit(children@),
            cv == box_views(children@),
            step == iref_entry_step(cv, full_box.version),
            repeat(step, 0, i as nat) == Ok::<(Seq<ReferenceEntryModel>, int), ParseItemReferenceBoxError>((ref_entry_views(references@), i as int)),
        decreases children@.len() - i,
    {
        let child = &children[i];
        proof {
            assert(cv[i as int] == child@);
        }
        match parse_iref_entry(child, full_box.version) {
            Ok(entry) => {
                let ghost before = references@;
                references.push(entry);
                proof {
                    assert(ref_entry_views(references@) =~= ref_entry_views(before).push(entry@));
                }
            },
            Err(e) => {
                proof {
                    lemma_repeat_fails_at(step, 0, i as nat, cv.len(), i as int, e);
                }
                return Err(e);
            },
        }
        i = i + 1;
    }
    Ok(ItemReferenceBox { full_box, references })
}

// ---- ipco ----

/// `ipco`: every child box is a property.
pub open spec fn spec_ipco_payload(p: Seq<u8>, off: u64) -> Result<PropertyContainerModel, ParseItemPropertyContainerBoxError> {
    match spec_boxes(p, off as int) {
        Err(e) => Err(ParseItemPropertyContainerBoxError::ChildBox(e)),
        Ok(properties) => Ok(PropertyContainerModel { properties }),
    }
}

pub fn parse_ipco_payload<'a>(payload: &'a [u8], payload_offset: u64) -> (r: Result<ItemPropertyContainerBox<'a>, ParseItemPropertyContainerBoxError>)
    requires
        payload_fits(payload@, payload_offset),
    ensures
        res_view(r) == spec_ipco_payload(payload@, payload_offset),
        r matches Ok(c) ==> all_offsets_fit(c.properties@),
{
    match collect_boxes(BoxIter::with_offset(payload, payload_offset)) {
        Ok(properties) => Ok(ItemPropertyContainerBox { properties }),
        Err(e) => Err(ParseItemPropertyContainerBoxError::ChildBox(e)),
    }
}

// ---- ipma ----

/// One association: 16 bits (essential bit and 15-bit index) when flags bit 0 is
/// set, else 8 bits (essential bit and 7-bit index).
pub open spec fn ipma_assoc_step(p: Seq<u8>, off: u64, flags: u32) -> spec_fn(int) -> Result<(ItemPropertyAssociation, int), ParseItemPropertyAssociationBoxError> {
    |c: int| if flags & 1 != 0 {
        match opt16(p, c) {
            None => Err(ipma_short(p, c, off, "association", 2)),
            Some((v, n)) => Ok((ItemPropertyAssociation { essential: v & 0x8000 != 0, property_index: v & 0x7FFF }, n)),
        }
    } else {
        match opt8(p, c) {
            None => Err(ipma_short(p, c, off, "association", 1)),
            Some((v, n)) => Ok((ItemPropertyAssociation { essential: v & 0x80 != 0, property_index: (v & 0x7F) as u16 }, n)),
        }
    }
}

/// One item entry: id (16 bits in version 0, else 32), association count, associations.
pub open spec fn ipma_entry_step(p: Seq<u8>, off: u64, version: u8, flags: u32) -> spec_fn(int) -> Result<(AssociationEntryModel, int), ParseItemPropertyAssociationBoxError> {
    |c: int| {
        let id = if version == 0 {
            match opt16(p, c) {
                Some((v, n)) => Ok((v as u32, n)),
                None => Err(ipma_short(p, c, off, "item_ID", 2)),
            }
        } else {
            match opt32(p, c) {
                Some((v, n)) => Ok((v, n)),
                None => Err(ipma_short(p, c, off, "item_ID", 4)),
            }
        };
        match id {
            Err(e) => Err(e),
            Ok((item_id, c1)) => match opt8(p, c1) {
                None => Err(ipma_short(p, c1, off, "association_count", 1)),
                Some((count, c2)) => match repeat(ipma_assoc_step(p, off, flags), c2, count as nat) {
                    Err(e) => Err(e),
                    Ok((associations, c3)) => Ok((AssociationEntryModel { item_id, associations }, c3)),
                },
            },
        }
    }
}

/// `ipma` (versions 0 and 1): a 32-bit entry count, then the entries.
pub open spec fn spec_ipma_payload(p: Seq<u8>, off: u64) -> Result<AssociationBoxModel, ParseItemPropertyAssociationBoxError> {
    match spec_full_box(p, off) {
        Err(e) => Err(ParseItemPropertyAssociationBoxError::FullBox(e)),
        Ok((full_box, ip, ioff)) => if full_box.version > 1 {
            Err(ParseItemPropertyAssociationBoxError::UnsupportedVersion { offset: off, version: full_box.version })
        } else {
            match opt32(ip, 0) {
                None => Err(ipma_short(ip, 0, ioff, "entry_count", 4)),
                Some((entry_count, c1)) => match repeat(ipma_entry_step(ip, ioff, full_box.version, full_box.flags), c1, entry_count as nat) {
                    Err(e) => Err(e),
                    Ok((entries, _)) => Ok(AssociationBoxModel { full_box, entry_count, entries }),
                },
            }
        },
    }
}

#[verifier::loop_isolation(false)]
fn parse_ipma_entry(payload: &[u8], cursor: &mut usize, payload_offset: u64, version: u8, flags: u32) -> (r: Result<ItemPropertyAssociationEntry, ParseItemPropertyAssociationBoxError>)
    requires
        *old(cursor) <= payload@.len(),
        payload_fits(payload@, payload_offset),
    ensures
        *final(cursor) <= payload@.len(),
        match (ipma_entry_step(payload@, payload_offset, version, flags))(*old(cursor) as int) {
            Ok((m, c)) => r matches Ok(x) && x@ == m && *final(cursor) == c,
            Err(e) => r == Err::<ItemPropertyAssociationEntry, ParseItemPropertyAssociationBoxError>(e),
        },
{
    let item_id = if version == 0 {
        read_u16_cursor_ipma(payload, cursor, payload_offset, "item_ID")? as u32
    } else {
        read_u32_cursor_ipma(payload, cursor, payload_offset, "item_ID")?
    };
    let association_count = read_u8_cursor_ipma(payload, cursor, payload_offset, "association_count")?;
    let ghost step = ipma_assoc_step(payload@, payload_offset, flags);
    let ghost c2 = *cursor as int;
    let mut associations: Vec<ItemPropertyAssociation> = Vec::new();
    let mut i: u8 = 0;
    while i < association_count
        invariant
            *cursor <= payload@.len(),
            i <= association_count,
            step == ipma_assoc_step(payload@, payload_offset, flags),
            repeat(step, c2, i as nat) == Ok::<(Seq<ItemPropertyAssociation>, int), ParseItemPropertyAssociationBoxError>((associations@, *cursor as int)),
        decreases association_count - i,
    {
        let ghost before = *cursor as int;
        let association = if (flags & 0x1) != 0 {
            match read_u16_cursor_ipma(payload, cursor, payload_offset, "association") {
                Ok(value) => ItemPropertyAssociation { essential: (value & 0x8000) != 0, property_index: value & 0x7FFF },
                Err(e) => {
                    proof {
                        lemma_repeat_fails_at(step, c2, i as nat, association_count as nat, before, e);
                    }
                    return Err(e);
                },
            }
        } else {
            match read_u8_cursor_ipma(payload, cursor, payload_offset, "association") {
                Ok(value) => ItemPropertyAssociation { essential: (value & 0x80) != 0, property_index: (value & 0x7F) as u16 },
                Err(e) => {
                    proof {
                        lemma_repeat_fails_at(step, c2, i as nat, association_count as nat, before, e);
                    }
                    return Err(e);
                },
            }
        };
        associations.push(association);
        i = i + 1;
    }
    Ok(ItemPropertyAssociationEntry { item_id, associations })
}

#[verifier::loop_isolation(false)]
pub fn parse_ipma_payload(payload: &[u8], payload_offset: u64) -> (r: Result<ItemPropertyAssociationBox, ParseItemPropertyAssociationBoxError>)
    requires
        payload_fits(payload@, payload_offset),
    ensures
        res_view(r) == spec_ipma_payload(payload@, payload_offset),
{
    let (full_box, ipma_payload, ipma_payload_offset) = match parse_full_box_payload(payload, payload_offset) {
        Ok(v) => v,
        Err(e) => return Err(ParseItemPropertyAssociationBoxError::FullBox(e)),
    };
    if full_box.version > 1 {
        return Err(ParseItemPropertyAssociationBoxError::UnsupportedVersion { offset: payload_offset, version: full_box.version });
    }
    let mut cursor: usize = 0;
    let entry_count = read_u32_cursor_ipma(ipma_payload, &mut cursor, ipma_payload_offset, "entry_count")?;
    let ghost step = ipma_entry_step(ipma_payload@, ipma_payload_offset, full_box.version, full_box.flags);
    let ghost c1 = cursor as int;
    let mut entries: Vec<ItemPropertyAssociationEntry> = Vec::new();
    let mut i: u32 = 0;
    assert(assoc_entry_views(entries@) =~= Seq::<AssociationEntryModel>::empty());
    while i < entry_count
        invariant
            cursor <= ipma_payload@.len(),
            i <= entry_count,
            step == ipma_entry_step(ipma_payload@, ipma_payload_offset, full_box.version, full_box.flags),
            repeat(step, c1, i as nat) == Ok::<(Seq<AssociationEntryModel>, int), ParseItemPropertyAssociationBoxError>((assoc_entry_views(entries@), cursor as int)),
        decreases entry_count - i,
    {
        let ghost before = cursor as int;
        match parse_ipma_entry(ipma_payload, &mut cursor, ipma_payload_offset, full_box.version, full_box.flags) {
            Ok(entry) => {
                let ghost before_entries = entries@;
                entries.push(entry);
                proof {
                    assert(assoc_entry_views(entries@) =~= assoc_entry_views(before_entries).push(entry@));
                }
            },
            Err(e) => {
                proof {
                    lemma_repeat_fails_at(step, c1, i as nat, entry_count as nat, before, e);
                }
                return Err(e);
            },
        }
        i = i + 1;
    }
    Ok(ItemPropertyAssociationBox { full_box, entry_count, entries })
}

// ---- iprp ----

/// The first `n` children of an `iprp`: `ipco` children give property containers,
/// `ipma` children give association boxes, others are skipped.
pub open spec fn spec_iprp_children(children: Seq<BoxModel>, n: nat) -> Result<(Seq<PropertyContainerModel>, Seq<AssociationBoxModel>), ParseItemPropertiesBoxError>
    decreases n,
{
    if n == 0 {
        Ok((Seq::empty(), Seq::empty()))
    } else {
        match spec_iprp_children(children, (n - 1) as nat) {
            Err(e) => Err(e),
            Ok((cs, assocs)) => {
                let ch = children[n - 1];
                if ch.header.box_type.0 == IPCO_BOX_TYPE {
                    match spec_ipco_payload(ch.payload, box_payload_offset(ch)) {
                        Err(e) => Err(ParseItemPropertiesBoxError::PropertyContainer(e)),
                        Ok(c) => Ok((cs.push(c), assocs)),
                    }
                } else if ch.header.box_type.0 == IPMA_BOX_TYPE {
                    match spec_ipma_payload(ch.payload, box_payload_offset(ch)) {
                        Err(e) => Err(ParseItemPropertiesBoxError::PropertyAssociation(e)),
                        Ok(a) => Ok((cs, assocs.push(a))),
                    }
                } else {
                    Ok((cs, assocs))
                }
            },
        }
    }
}

proof fn lemma_iprp_err_persists(children: Seq<BoxModel>, i: nat, n: nat)
    requires
        i <= n,
        spec_iprp_children(children, i) is Err,
    ensures
        spec_iprp_children(children, n) == spec_iprp_children(children, i),
    decreases n - i,
{
    if i < n {
        lemma_iprp_err_persists(children, i, (n - 1) as nat);
    }
}

/// `iprp`: its `ipco` and `ipma` children, in order.
pub open spec fn spec_iprp_payload(p: Seq<u8>, off: u64) -> Result<PropertiesBoxModel, ParseItemPropertiesBoxError> {
    match spec_boxes(p, off as int) {
        Err(e) => Err(ParseItemPropertiesBoxError::ChildBox(e)),
        Ok(children) => match spec_iprp_children(children, children.len()) {
            Err(e) => Err(e),
            Ok((property_containers, associations)) => Ok(PropertiesBoxModel { property_containers, associations }),
        },
    }
}

/// Every property box of every container keeps its absolute offsets within `u64`.
pub open spec fn containers_fit<'a>(cs: Seq<ItemPropertyContainerBox<'a>>) -> bool {
    forall|i: int| 0 <= i < cs.len() ==> all_offsets_fit((#[trigger] cs[i]).properties@)
}

pub fn parse_iprp_payload<'a>(payload: &'a [u8], payload_offset: u64) -> (r: Result<ItemPropertiesBox<'a>, ParseItemPropertiesBoxError>)
    requires
        payload_fits(payload@, payload_offset),
    ensures
        res_view(r) == spec_iprp_payload(payload@, payload_offset),
        r matches Ok(b) ==> containers_fit(b.property_containers@),
{
    let children = match collect_boxes(BoxIter::with_offset(payload, payload_offset)) {
        Ok(v) => v,
        Err(e) => return Err(ParseItemPropertiesBoxError::ChildBox(e)),
    };
    let ghost cv = box_views(children@);
    let mut property_containers: Vec<ItemPropertyContainerBox<'a>> = Vec::new();
    let mut associations: Vec<ItemPropertyAssociationBox> = Vec::new();
    let mut i: usize = 0;
    assert(container_views(property_containers@) =~= Seq::<PropertyContainerModel>::empty());
    assert(assoc_box_views(associations@) =~= Seq::<AssociationBoxModel>::empty());
    while i < children.len()
        invariant
            spec_iprp_payload(payload@, payload_offset) == match spec_iprp_children(cv, cv.len()) {
                Err(e) => Err(e),
                Ok((pc, assocs)) => Ok(PropertiesBoxModel { property_containers: pc, associations: assocs }),
            },
            cv.len() == children@.len(),
            i <= children@.len(),
            all_offsets_fit(children@),
            cv == box_views(children@),
            containers_fit(property_containers@),
            spec_iprp_children(cv, i as nat) == Ok::<(Seq<PropertyContainerModel>, Seq<AssociationBoxModel>), ParseItemPropertiesBoxError>((
                container_views(property_containers@),
                assoc_box_views(associations@),
            )),
        decreases children@.len() - i,
    {
        let child = &children[i];
        assert(cv[i as int] == child@);
        if child.header.box_type.is(IPCO_BOX_TYPE) {
            match parse_ipco_payload(child.payload, child.payload_offset()) {
                Ok(c) => {
                    let ghost before = property_containers@;
                    property_containers.push(c);
                    proof {
                        assert(container_views(property_containers@) =~= container_views(before).push(c@));
                        assert forall|j: int| 0 <= j < property_containers@.len() implies all_offsets_fit((#[trigger] property_containers@[j]).properties@) by {
                            if j < before.len() {
                                assert(property_containers@[j] == before[j]);
                            }
                        }
                    }
                },
                Err(e) => {
                    proof {
                        lemma_iprp_err_persists(cv, (i + 1) as nat, cv.len());
                    }
                    return Err(ParseItemPropertiesBoxError::PropertyContainer(e));
                },
            }
        } else if child.header.box_type.is(IPMA_BOX_TYPE) {
            match parse_ipma_payload(child.payload, child.payload_offset()) {
                Ok(a) => {
                    let ghost before = associations@;
                    associations.push(a);
                    proof {
                        assert(assoc_box_views(associations@) =~= assoc_box_views(before).push(a@));
                    }
                },
                Err(e) => {
                    proof {
                        lemma_iprp_err_persists(cv, (i + 1) as nat, cv.len());
                    }
                    return Err(ParseItemPropertiesBoxError::PropertyAssociation(e));
                },
            }
        }
        i = i + 1;
    }
    Ok(ItemPropertiesBox { property_containers, associations })
}

// ---- box-typed entry points ----

pub open spec fn spec_infe_box(b: BoxModel) -> Result<InfoEntryModel, ParseItemInfoEntryBoxError> {
    if b.header.box_type.0 != INFE_BOX_TYPE {
        Err(ParseItemInfoEntryBoxError::UnexpectedBoxType { offset: b.offset, actual: b.header.box_type })
    } else {
        spec_infe_payload(b.payload, box_payload_offset(b))
    }
}

pub open spec fn spec_iinf_box(b: BoxModel) -> Result<InfoBoxModel, ParseItemInfoBoxError> {
    if b.header.box_type.0 != IINF_BOX_TYPE {
        Err(ParseItemInfoBoxError::UnexpectedBoxType { offset: b.offset, actual: b.header.box_type })
    } else {
        spec_iinf_payload(b.payload, box_payload_offset(b))
    }
}

pub open spec fn spec_iref_box(b: BoxModel) -> Result<ReferenceBoxModel, ParseItemReferenceBoxError> {
    if b.header.box_type.0 != IREF_BOX_TYPE {
        Err(ParseItemReferenceBoxError::UnexpectedBoxType { offset: b.offset, actual: b.header.box_type })
    } else {
        spec_iref_payload(b.payload, box_payload_offset(b))
    }
}

pub open spec fn spec_ipco_box(b: BoxModel) -> Result<PropertyContainerModel, ParseItemPropertyContainerBoxError> {
    if b.header.box_type.0 != IPCO_BOX_TYPE {
        Err(ParseItemPropertyContainerBoxError::UnexpectedBoxType { offset: b.offset, actual: b.header.box_type })
    } else {
        spec_ipco_payload(b.payload, box_payload_offset(b))
    }
}

pub open spec fn spec_ipma_box(b: BoxModel) -> Result<AssociationBoxModel, ParseItemPropertyAssociationBoxError> {
    if b.header.box_type.0 != IPMA_BOX_TYPE {
        Err(ParseItemPropertyAssociationBoxError::UnexpectedBoxType { offset: b.offset, actual: b.header.box_type })
    } else {
        spec_ipma_payload(b.payload, box_payload_offset(b))
    }
}

pub open spec fn spec_iprp_box(b: BoxModel) -> Result<PropertiesBoxModel, ParseItemPropertiesBoxError> {
    if b.header.box_type.0 != IPRP_BOX_TYPE {
        Err(ParseItemPropertiesBoxError::UnexpectedBoxType { offset: b.offset, actual: b.header.box_type })
    } else {
        spec_iprp_payload(b.payload, box_payload_offset(b))
    }
}

impl<'a> ParsedBox<'a> {
    /// Parse this box payload as an `infe` box.
    pub fn parse_infe(&self) -> (r: Result<ItemInfoEntryBox, ParseItemInfoEntryBoxError>)
        requires
            self.offsets_fit(),
        ensures
            res_view(r) == spec_infe_box(self@),
    {
        if !self.header.box_type.is(INFE_BOX_TYPE) {
            return Err(ParseItemInfoEntryBoxError::UnexpectedBoxType { offset: self.offset, actual: self.header.box_type });
        }
        parse_infe_payload(self.payload, self.payload_offset())
    }

    /// Parse this box payload as an `iinf` box.
    pub fn parse_iinf(&self) -> (r: Result<ItemInfoBox, ParseItemInfoBoxError>)
        requires
            self.offsets_fit(),
        ensures
            res_view(r) == spec_iinf_box(self@),
    {
        if !self.header.box_type.is(IINF_BOX_TYPE) {
            return Err(ParseItemInfoBoxError::UnexpectedBoxType { offset: self.offset, actual: self.header.box_type });
        }
        parse_iinf_payload(self.payload, self.payload_offset())
    }

    /// Parse this box payload as an `iref` box.
    pub fn parse_iref(&self) -> (r: Result<ItemReferenceBox, ParseItemReferenceBoxError>)
        requires
            self.offsets_fit(),
        ensures
            res_view(r) == spec_iref_box(self@),
    {
        if !self.header.box_type.is(IREF_BOX_TYPE) {
            return Err(ParseItemReferenceBoxError::UnexpectedBoxType { offset: self.offset, actual: self.header.box_type });
        }
        parse_iref_payload(self.payload, self.payload_offset())
    }

    /// Parse this box payload as an `ipco` box.
    pub fn parse_ipco(&self) -> (r: Result<ItemPropertyContainerBox<'a>, ParseItemPropertyContainerBoxError>)
        requires
            self.offsets_fit(),
        ensures
            res_view(r) == spec_ipco_box(self@),
            r matches Ok(c) ==> all_offsets_fit(c.properties@),
    {
        if !self.header.box_type.is(IPCO_BOX_TYPE) {
            return Err(ParseItemPropertyContainerBoxError::UnexpectedBoxType { offset: self.offset, actual: self.header.box_type });
        }
        parse_ipco_payload(self.payload, self.payload_offset())
    }

    /// Parse this box payload as an `ipma` box.
    pub fn parse_ipma(&self) -> (r: Result<ItemPropertyAssociationBox, ParseItemPropertyAssociationBoxError>)
        requires
            self.offsets_fit(),
        ensures
            res_view(r) == spec_ipma_box(self@),
    {
        if !self.header.box_type.is(IPMA_BOX_TYPE) {
            return Err(ParseItemPropertyAssociationBoxError::UnexpectedBoxType { offset: self.offset, actual: self.header.box_type });
        }
        parse_ipma_payload(self.payload, self.payload_offset())
    }

    /// Parse this box payload as an `iprp` box.
    pub fn parse_iprp(&self) -> (r: Result<ItemPropertiesBox<'a>, ParseItemPropertiesBoxError>)
        requires
            self.offsets_fit(),
        ensures
            res_view(r) == spec_iprp_box(self@),
            r matches Ok(b) ==> containers_fit(b.property_containers@),
    {
        if !self.header.box_type.is(IPRP_BOX_TYPE) {
            return Err(ParseItemPropertiesBoxError::UnexpectedBoxType { offset: self.offset, actual: self.header.box_type });
        }
        parse_iprp_payload(self.payload, self.payload_offset())
    }
}

// ---- laws on the item boxes ----

/// One `ipma` association at `c`: with flags bit 0 set it is two bytes, the
/// essential bit at the top and a 15-bit property index below it; otherwise one
/// byte, the essential bit and a 7-bit index.
pub proof fn law_ipma_association_fields(p: Seq<u8>, off: u64, flags: u32, c: int)
    requires
        0 <= c,
    ensures
        (ipma_assoc_step(p, off, flags))(c) matches Ok((a, n)) ==> {
            &&& a.essential == (p[c] >= 128)
            &&& flags % 2 == 1 ==> a.property_index == (p[c] % 128) * 256 + p[c + 1] && n == c + 2
            &&& flags % 2 == 0 ==> a.property_index == p[c] % 128 && n == c + 1
        },
        (ipma_assoc_step(p, off, flags))(c) is Ok == (c + (if flags % 2 == 1 { 2int } else { 1int }) <= p.len()),
{
    lemma_u32_low_bit(flags);
    if c + 2 <= p.len() {
        lemma_u16_top_bit(be16(p, c));
        lemma_two_byte_top_bit(p[c], p[c + 1]);
    }
    if c + 1 <= p.len() {
        lemma_byte_fields(p[c]);
    }
}

/// One `ipma` entry at `c`: the item id, 16 bits in version 0 and 32 bits
/// otherwise, then a one-byte association count, which is the number of
/// associations returned.
pub proof fn law_ipma_entry_fields(p: Seq<u8>, off: u64, version: u8, flags: u32, c: int)
    requires
        0 <= c,
    ensures
        (ipma_entry_step(p, off, version, flags))(c) matches Ok((e, _)) ==> {
            let w: int = if version == 0 { 2 } else { 4 };
            &&& e.item_id == (if version == 0 { p[c] * 256 + p[c + 1] } else { u32_value_at(p, c) })
            &&& e.associations.len() == p[c + w]
        },
{
    let w: int = if version == 0 { 2 } else { 4 };
    if c + w + 1 <= p.len() {
        lemma_repeat_len(ipma_assoc_step(p, off, flags), c + w + 1, p[c + w] as nat);
    }
}

/// An `ipma` payload has version 0 or 1, and after its header a 32-bit entry count,
/// which is the number of entries returned; a later version is refused.
pub proof fn law_ipma_header_fields(p: Seq<u8>, off: u64)
    ensures
        p.len() >= 4 && p[0] > 1 ==> (spec_ipma_payload(p, off) matches Err(
            ParseItemPropertyAssociationBoxError::UnsupportedVersion { version, .. }) && version == p[0]),
        spec_ipma_payload(p, off) matches Ok(b) ==> {
            &&& b.full_box.version == p[0] && p[0] <= 1
            &&& b.full_box.flags == p[1] * 65536 + p[2] * 256 + p[3]
            &&& b.entry_count == u32_value_at(p, 4)
            &&& b.entries.len() == b.entry_count
        },
{
    if let Ok(b) = spec_ipma_payload(p, off) {
        let ip = p.subrange(4, p.len() as int);
        lemma_repeat_len(ipma_entry_step(ip, (off + 4) as u64, p[0], b.full_box.flags), 4, b.entry_count as nat);
    }
}

/// An `iref` item id at `c`: 16 bits in version 0, 32 bits otherwise, big-endian.
pub open spec fn iref_id_value_at(p: Seq<u8>, c: int, version: u8) -> int {
    if version == 0 { p[c] * 256 + p[c + 1] } else { u32_value_at(p, c) }
}

proof fn lemma_iref_ids(cp: Seq<u8>, coff: u64, version: u8, c: int, n: nat)
    requires
        0 <= c,
    ensures
        repeat(iref_id_step(cp, coff, version), c, n) matches Ok((ids, e)) ==> {
            &&& ids.len() == n
            &&& e == c + n * iref_id_width(version)
            &&& forall|i: int| 0 <= i < n ==> #[trigger] ids[i] == iref_id_value_at(cp, c + i * iref_id_width(version), version)
        },
    decreases n,
{
    if n > 0 {
        lemma_iref_ids(cp, coff, version, c, (n - 1) as nat);
        let w = iref_id_width(version);
        assert((n - 1) * w + w == n * w) by (nonlinear_arith);
    }
}

/// One typed reference box `ch` of an `iref` of version `version`: its box type is
/// the reference type; its payload holds the source item id, a 16-bit count that
/// may not be zero, and that many target item ids, one after another; ids are 16
/// bits in version 0 and 32 bits otherwise, all big-endian.
pub proof fn law_iref_entry_fields(ch: BoxModel, version: u8)
    ensures
        spec_iref_entry(ch, version) matches Ok(r) ==> {
            let p = ch.payload;
            let w = iref_id_width(version);
            &&& r.reference_type == ch.header.box_type
            &&& r.from_item_id == iref_id_value_at(p, 0, version)
            &&& r.to_item_ids.len() == p[w] * 256 + p[w + 1]
            &&& r.to_item_ids.len() > 0
            &&& forall|i: int| 0 <= i < r.to_item_ids.len() ==> #[trigger] r.to_item_ids[i]
                == iref_id_value_at(p, w + 2 + i * w, version)
        },
{
    let w = iref_id_width(version);
    if ch.payload.len() >= w + 2 {
        lemma_iref_ids(ch.payload, box_payload_offset(ch), version, w + 2, be16(ch.payload, w) as nat);
    }
}

/// An `infe` payload has a version of at most 3; a later one is refused. Versions 0
/// and 1 hold a 16-bit item id and a 16-bit protection index and always give a
/// content type and encoding, but no item type, URI type or hidden flag. Versions 2
/// and 3 hold the item id (16 bits in version 2, 32 in version 3), the protection
/// index and the item type; the item is hidden exactly when flags bit 0 is set, a
/// content type and encoding come exactly with a `mime` item and a URI type
/// exactly with a `uri ` item.
pub proof fn law_infe_fields(p: Seq<u8>, off: u64)
    ensures
        p.len() >= 4 && p[0] > 3 ==> (spec_infe_payload(p, off) matches Err(
            ParseItemInfoEntryBoxError::UnsupportedVersion { version, .. }) && version == p[0]),
        spec_infe_payload(p, off) matches Ok(e) ==> {
            &&& e.full_box.version == p[0] && p[0] <= 3
            &&& p[0] <= 1 ==> {
                &&& e.item_id == p[4] * 256 + p[5]
                &&& e.item_protection_index == p[6] * 256 + p[7]
                &&& e.item_type is None && e.item_uri_type is None && !e.hidden_item
                &&& e.content_type is Some && e.content_encoding is Some
            }
            &&& p[0] >= 2 ==> {
                let w: int = if p[0] == 2 { 2 } else { 4 };
                let t = [p[6 + w], p[7 + w], p[8 + w], p[9 + w]];
                &&& e.item_id == (if p[0] == 2 { p[4] * 256 + p[5] } else { u32_value_at(p, 4) })
                &&& e.item_protection_index == p[4 + w] * 256 + p[5 + w]
                &&& (e.item_type matches Some(ty) && ty.0 == t)
                &&& e.hidden_item == (p[3] % 2 == 1)
                &&& e.content_type is Some == (t == INFE_ITEM_TYPE_MIME)
                &&& e.content_encoding is Some == (t == INFE_ITEM_TYPE_MIME)
                &&& e.item_uri_type is Some == (t == INFE_ITEM_TYPE_URI)
            }
        },
{
    if p.len() >= 4 {
        let flags: u32 = (p[1] as int * 65536 + p[2] as int * 256 + p[3] as int) as u32;
        lemma_u32_low_bit(flags);
        assert(flags % 2 == p[3] % 2) by (nonlinear_arith)
            requires
                flags == p[1] * 65536 + p[2] * 256 + p[3],
        ;
    }
    if let Ok(e) = spec_infe_payload(p, off) {
        if p[0] >= 2 {
            let w: int = if p[0] == 2 { 2 } else { 4 };
            let ip = p.subrange(4, p.len() as int);
            assert(fourcc_at(ip, w + 2).0 =~= [p[6 + w], p[7 + w], p[8 + w], p[9 + w]]);
        }
    }
}

/// An `iinf` payload declares its entry count after the header, 16 bits in version
/// 0 and 32 bits otherwise; when it parses, that count is the number of entries.
pub proof fn law_iinf_entry_count(p: Seq<u8>, off: u64)
    ensures
        spec_iinf_payload(p, off) matches Ok(b) ==> {
            &&& b.full_box.version == p[0]
            &&& b.item_count == (if p[0] == 0 { p[4] * 256 + p[5] } else { u32_value_at(p, 4) })
            &&& b.entries.len() == b.item_count
        },
{
    if let Ok(b) = spec_iinf_payload(p, off) {
        let ip = p.subrange(4, p.len() as int);
        let c: int = if p[0] == 0 { 2 } else { 4 };
        let ioff = (off + 4) as u64;
        let children = spec_boxes(ip.subrange(c, ip.len() as int), ((ioff + c) as u64) as int)->Ok_0;
        lemma_repeat_len(iinf_entry_step(children), 0, children.len());
    }
}

/// The container that an `ipco` child box holds.
pub open spec fn ipco_of(ch: BoxModel) -> PropertyContainerModel {
    spec_ipco_payload(ch.payload, box_payload_offset(ch))->Ok_0
}

/// The association box that an `ipma` child box holds.
pub open spec fn ipma_of(ch: BoxModel) -> AssociationBoxModel {
    spec_ipma_payload(ch.payload, box_payload_offset(ch))->Ok_0
}

proof fn lemma_iprp_children_filter(children: Seq<BoxModel>, n: nat)
    requires
        n <= children.len(),
    ensures
        spec_iprp_children(children, n) matches Ok((cs, assocs)) ==> {
            &&& cs == children.take(n as int).filter(|ch: BoxModel| ch.header.box_type.0 == IPCO_BOX_TYPE).map_values(|ch: BoxModel| ipco_of(ch))
            &&& assocs == children.take(n as int).filter(|ch: BoxModel| ch.header.box_type.0 == IPMA_BOX_TYPE).map_values(|ch: BoxModel| ipma_of(ch))
        },
    decreases n,
{
    reveal_with_fuel(Seq::filter, 1);
    let is_ipco = |ch: BoxModel| ch.header.box_type.0 == IPCO_BOX_TYPE;
    let is_ipma = |ch: BoxModel| ch.header.box_type.0 == IPMA_BOX_TYPE;
    let fc = |ch: BoxModel| ipco_of(ch);
    let fa = |ch: BoxModel| ipma_of(ch);
    if n == 0 {
        assert(children.take(0).filter(is_ipco).map_values(fc) =~= Seq::<PropertyContainerModel>::empty());
        assert(children.take(0).filter(is_ipma).map_values(fa) =~= Seq::<AssociationBoxModel>::empty());
    } else {
        lemma_iprp_children_filter(children, (n - 1) as nat);
        let t = children.take(n as int);
        let t0 = children.take(n - 1);
        assert(t.drop_last() =~= t0);
        assert(t.last() == children[n - 1]);
        if let Ok((cs, assocs)) = spec_iprp_children(children, n) {
            let ch = children[n - 1];
            if is_ipco(ch) {
                assert(t.filter(is_ipco).map_values(fc) =~= t0.filter(is_ipco).map_values(fc).push(ipco_of(ch)));
            } else if is_ipma(ch) {
                assert(t.filter(is_ipma).map_values(fa) =~= t0.filter(is_ipma).map_values(fa).push(ipma_of(ch)));
            }
        }
    }
}

/// Law (`iprp`): the property containers of an `iprp` payload are its `ipco` child
/// boxes and its association boxes its `ipma` child boxes, each in child order;
/// children of other types are skipped.
pub proof fn law_iprp_children_in_order(p: Seq<u8>, off: u64)
    ensures
        spec_iprp_payload(p, off) matches Ok(b) ==> {
            let children = spec_boxes(p, off as int)->Ok_0;
            &&& b.property_containers == children.filter(|ch: BoxModel| ch.header.box_type.0 == IPCO_BOX_TYPE).map_values(|ch: BoxModel| ipco_of(ch))
            &&& b.associations == children.filter(|ch: BoxModel| ch.header.box_type.0 == IPMA_BOX_TYPE).map_values(|ch: BoxModel| ipma_of(ch))
        },
{
    if let Ok(children) = spec_boxes(p, off as int) {
        lemma_iprp_children_filter(children, children.len());
        assert(children.take(children.len() as int) =~= children);
    }
}

} // verus!
