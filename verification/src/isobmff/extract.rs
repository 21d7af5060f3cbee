use vstd::prelude::*;
use super::types::{
    box_views, AvifPrimaryItemData, ItemGraphModel, ResolvedPrimaryItemGraph, BoxModel, FourCc, HeicPrimaryItemData, ItemDataModel,
    ItemLocationExtent, ItemLocationItem, LocationItemModel, MetaBox, MetaModel, AV01_ITEM_TYPE,
    HEV1_ITEM_TYPE, HVC1_ITEM_TYPE, IDAT_BOX_TYPE,
};
use super::errors::{ExtractAvifItemDataError, ExtractHeicItemDataError, ParseBoxError};
use super::boxes::spec_boxes;
use super::find::{find_first_child_box, spec_find_box};
use super::primary::{primary_graph, spec_primary_graph, GraphStageError};
use super::resolve::graph_fits;

verus! {

/// Why the bytes of an item could not be gathered from its location.
pub enum PayloadError {
    UnsupportedDataReferenceIndex { data_reference_index: u16 },
    UnsupportedConstructionMethod { construction_method: u8 },
    MissingIdatBox,
    MetaChildBoxes(ParseBoxError),
    ExtentOffsetOverflow { base_offset: u64, extent_offset: u64, extent_length: u64 },
    ExtentOutOfBounds { construction_method: u8, start: u64, length: u64, available: u64 },
    PayloadTooLarge { length: u64 },
}

/// The bytes of `source` that one extent names: `length` bytes starting at
/// `base + offset`; both ends must be representable in `u64` and the end must lie
/// within `source`.
pub open spec fn spec_extent_bytes(source: Seq<u8>, base: u64, e: ItemLocationExtent, cm: u8) -> Result<Seq<u8>, PayloadError> {
    let start = base + e.offset;
    let end = start + e.length;
    if start > u64::MAX || end > u64::MAX {
        Err(PayloadError::ExtentOffsetOverflow { base_offset: base, extent_offset: e.offset, extent_length: e.length })
    } else if end > source.len() {
        Err(PayloadError::ExtentOutOfBounds { construction_method: cm, start: start as u64, length: e.length, available: source.len() as u64 })
    } else {
        Ok(source.subrange(start, end))
    }
}

/// The bytes of the first `n` extents, concatenated in order; the first extent
/// that cannot be read decides the error.
pub open spec fn spec_extents_bytes(source: Seq<u8>, base: u64, extents: Seq<ItemLocationExtent>, cm: u8, n: nat) -> Result<Seq<u8>, PayloadError>
    decreases n,
{
    if n == 0 {
        Ok(Seq::empty())
    } else {
        match spec_extents_bytes(source, base, extents, cm, (n - 1) as nat) {
            Err(e) => Err(e),
            Ok(acc) => match spec_extent_bytes(source, base, extents[n - 1], cm) {
                Err(e) => Err(e),
                Ok(b) => Ok(acc + b),
            },
        }
    }
}

/// Sum of the lengths of the first `n` extents.
pub open spec fn extents_total(extents: Seq<ItemLocationExtent>, n: nat) -> int
    decreases n,
{
    if n == 0 {
        0
    } else {
        extents_total(extents, (n - 1) as nat) + extents[n - 1].length
    }
}

proof fn lemma_extents_total_monotone(extents: Seq<ItemLocationExtent>, i: nat, n: nat)
    requires
        i <= n,
    ensures
        extents_total(extents, i) <= extents_total(extents, n),
    decreases n - i,
{
    if i < n {
        lemma_extents_total_monotone(extents, i, (n - 1) as nat);
    }
}

proof fn lemma_extents_err_persists(source: Seq<u8>, base: u64, extents: Seq<ItemLocationExtent>, cm: u8, i: nat, n: nat)
    requires
        i <= n,
        spec_extents_bytes(source, base, extents, cm, i) is Err,
    ensures
        spec_extents_bytes(source, base, extents, cm, n) == spec_extents_bytes(source, base, extents, cm, i),
    decreases n - i,
{
    if i < n {
        lemma_extents_err_persists(source, base, extents, cm, i, (n - 1) as nat);
    }
}

/// The bytes that an item's location names: extents of the file itself
/// (construction method 0) or of the first `idat` box of `meta` (method 1).
pub open spec fn spec_item_payload(input: Seq<u8>, meta: MetaModel, loc: LocationItemModel) -> Result<(u8, Seq<u8>), PayloadError> {
    let total = extents_total(loc.extents, loc.extents.len());
    if loc.data_reference_index != 0 {
        Err(PayloadError::UnsupportedDataReferenceIndex { data_reference_index: loc.data_reference_index })
    } else if total > u64::MAX {
        Err(PayloadError::PayloadTooLarge { length: u64::MAX })
    } else if total > usize::MAX {
        Err(PayloadError::PayloadTooLarge { length: total as u64 })
    } else if loc.construction_method == 0 {
        match spec_extents_bytes(input, loc.base_offset, loc.extents, 0, loc.extents.len()) {
            Err(e) => Err(e),
            Ok(b) => Ok((0u8, b)),
        }
    } else if loc.construction_method == 1 {
        match spec_boxes(meta.payload, meta.payload_offset as int) {
            Err(e) => Err(PayloadError::MetaChildBoxes(e)),
            Ok(children) => match spec_find_box(children, IDAT_BOX_TYPE) {
                None => Err(PayloadError::MissingIdatBox),
                Some(idat) => match spec_extents_bytes(idat.payload, loc.base_offset, loc.extents, 1, loc.extents.len()) {
                    Err(e) => Err(e),
                    Ok(b) => Ok((1u8, b)),
                },
            },
        }
    } else {
        Err(PayloadError::UnsupportedConstructionMethod { construction_method: loc.construction_method })
    }
}

proof fn lemma_extents_bytes_length(source: Seq<u8>, base: u64, extents: Seq<ItemLocationExtent>, cm: u8, n: nat)
    ensures
        spec_extents_bytes(source, base, extents, cm, n) matches Ok(b) ==> b.len() == extents_total(extents, n),
    decreases n,
{
    if n > 0 {
        lemma_extents_bytes_length(source, base, extents, cm, (n - 1) as nat);
    }
}

proof fn lemma_extent_chunk(acc: Seq<u8>, chunk: Seq<u8>, lo: int, hi: int)
    requires
        0 <= lo <= hi <= acc.len(),
    ensures
        (acc + chunk).subrange(lo, hi) == acc.subrange(lo, hi),
        (acc + chunk).subrange(acc.len() as int, (acc.len() + chunk.len()) as int) == chunk,
{
    assert((acc + chunk).subrange(lo, hi) =~= acc.subrange(lo, hi));
    assert((acc + chunk).subrange(acc.len() as int, (acc.len() + chunk.len()) as int) =~= chunk);
}

#[verifier::rlimit(40)]
proof fn lemma_extents_bytes_placed(source: Seq<u8>, base: u64, extents: Seq<ItemLocationExtent>, cm: u8, n: nat)
    requires
        n <= extents.len(),
    ensures
        spec_extents_bytes(source, base, extents, cm, n) matches Ok(b) ==> forall|k: int| 0 <= k < n ==>
            b.subrange(extents_total(extents, k as nat), extents_total(extents, (k + 1) as nat))
                == source.subrange(base + (#[trigger] extents[k]).offset, base + extents[k].offset + extents[k].length),
    decreases n,
{
    if n > 0 {
        lemma_extents_bytes_placed(source, base, extents, cm, (n - 1) as nat);
        lemma_extents_bytes_length(source, base, extents, cm, (n - 1) as nat);
        if let Ok(b) = spec_extents_bytes(source, base, extents, cm, n) {
            let acc = spec_extents_bytes(source, base, extents, cm, (n - 1) as nat)->Ok_0;
            let e = extents[n - 1];
            let chunk = spec_extent_bytes(source, base, e, cm)->Ok_0;
            assert(b == acc + chunk);
            assert(chunk == source.subrange(base + e.offset, base + e.offset + e.length));
            let t0 = extents_total(extents, (n - 1) as nat);
            let t1 = extents_total(extents, n);
            assert(t1 == t0 + e.length);
            assert(acc.len() == t0);
            lemma_extent_chunk(acc, chunk, 0, 0);
            assert(b.subrange(t0, t1) == chunk);
            assert forall|k: int| 0 <= k < n - 1 implies
                b.subrange(extents_total(extents, k as nat), extents_total(extents, (k + 1) as nat))
                    == source.subrange(base + (#[trigger] extents[k]).offset, base + extents[k].offset + extents[k].length) by {
                lemma_extents_total_monotone(extents, 0, k as nat);
                lemma_extents_total_monotone(extents, k as nat, (k + 1) as nat);
                lemma_extents_total_monotone(extents, (k + 1) as nat, (n - 1) as nat);
                lemma_extent_chunk(acc, chunk, extents_total(extents, k as nat), extents_total(extents, (k + 1) as nat));
            }
        }
    }
}

/// Law (extents): an item's payload, where it can be gathered, is its extents'
/// bytes in extent order: the bytes of extent `k` follow those of the extents before
/// it and are the `length` bytes at `base_offset + offset` of the file (construction
/// method 0) or of the payload of the first `idat` box in `meta` (method 1).
pub proof fn law_item_payload_extents(input: Seq<u8>, meta: MetaModel, loc: LocationItemModel)
    ensures
        spec_item_payload(input, meta, loc) matches Ok((cm, b)) ==> {
            let source = if cm == 0 {
                input
            } else {
                spec_find_box(spec_boxes(meta.payload, meta.payload_offset as int)->Ok_0, IDAT_BOX_TYPE)->Some_0.payload
            };
            &&& cm == 0 || cm == 1
            &&& forall|k: int| 0 <= k < loc.extents.len() ==>
                b.subrange(extents_total(loc.extents, k as nat), extents_total(loc.extents, (k + 1) as nat))
                    == source.subrange(loc.base_offset + (#[trigger] loc.extents[k]).offset,
                        loc.base_offset + loc.extents[k].offset + loc.extents[k].length)
        },
{
    lemma_extents_bytes_placed(input, loc.base_offset, loc.extents, 0, loc.extents.len());
    match spec_boxes(meta.payload, meta.payload_offset as int) {
        Ok(children) => match spec_find_box(children, IDAT_BOX_TYPE) {
            Some(idat) => lemma_extents_bytes_placed(idat.payload, loc.base_offset, loc.extents, 1, loc.extents.len()),
            None => {},
        },
        Err(_) => {},
    }
}

/// An item's payload, where it can be gathered, is as long as its extents
/// together, and comes with the construction method of its location.
pub proof fn law_item_payload_length(input: Seq<u8>, meta: MetaModel, loc: LocationItemModel)
    ensures
        spec_item_payload(input, meta, loc) matches Ok((cm, b)) ==>
            b.len() == extents_total(loc.extents, loc.extents.len()) && cm == loc.construction_method,
{
    lemma_extents_bytes_length(input, loc.base_offset, loc.extents, 0, loc.extents.len());
    match spec_boxes(meta.payload, meta.payload_offset as int) {
        Ok(children) => match spec_find_box(children, IDAT_BOX_TYPE) {
            Some(idat) => lemma_extents_bytes_length(idat.payload, loc.base_offset, loc.extents, 1, loc.extents.len()),
            None => {},
        },
        Err(_) => {},
    }
}

/// Sum of the extent lengths, or `None` where it exceeds `u64`.
fn checked_extents_total(extents: &Vec<ItemLocationExtent>) -> (r: Option<u64>)
    ensures
        match r {
            Some(t) => t == extents_total(extents@, extents@.len()),
            None => extents_total(extents@, extents@.len()) > u64::MAX,
        },
{
    let mut total: u64 = 0;
    let mut i: usize = 0;
    while i < extents.len()
        invariant
            i <= extents@.len(),
            total == extents_total(extents@, i as nat),
        decreases extents@.len() - i,
    {
        match total.checked_add(extents[i].length) {
            Some(t) => total = t,
            None => {
                proof { lemma_extents_total_monotone(extents@, (i + 1) as nat, extents@.len()); }
                return None;
            },
        }
        i = i + 1;
    }
    Some(total)
}

/// Append the bytes of each extent of `location`, read from `source`, to `output`;
/// `construction_method` is reported with an extent that lies out of bounds.
fn append_iloc_extents_to_payload(source: &[u8], location: &ItemLocationItem, construction_method: u8, output: &mut Vec<u8>) -> (r: Result<(), PayloadError>)
    ensures
        match spec_extents_bytes(source@, location.base_offset, location.extents@, construction_method, location.extents@.len()) {
            Ok(b) => r is Ok && final(output)@ == old(output)@ + b,
            Err(e) => r == Err::<(), PayloadError>(e),
        },
{
    let ghost start_out = output@;
    let len: usize = source.len();
    let available = len as u64;
    let mut i: usize = 0;
    while i < location.extents.len()
        invariant
            i <= location.extents@.len(),
            len == source@.len(),
            available == len,
            old(output)@ == start_out,
            spec_extents_bytes(source@, location.base_offset, location.extents@, construction_method, i as nat) matches Ok(b)
                && output@ == start_out + b,
        decreases location.extents@.len() - i,
    {
        let extent = location.extents[i];
        let ghost prev = output@;
        let start = match location.base_offset.checked_add(extent.offset) {
            Some(s) => s,
            None => {
                proof { lemma_extents_err_persists(source@, location.base_offset, location.extents@, construction_method, (i + 1) as nat, location.extents@.len()); }
                return Err(PayloadError::ExtentOffsetOverflow {
                    base_offset: location.base_offset,
                    extent_offset: extent.offset,
                    extent_length: extent.length,
                });
            },
        };
        let end = match start.checked_add(extent.length) {
            Some(e) => e,
            None => {
                proof { lemma_extents_err_persists(source@, location.base_offset, location.extents@, construction_method, (i + 1) as nat, location.extents@.len()); }
                return Err(PayloadError::ExtentOffsetOverflow {
                    base_offset: location.base_offset,
                    extent_offset: extent.offset,
                    extent_length: extent.length,
                });
            },
        };
        if end > available {
            proof { lemma_extents_err_persists(source@, location.base_offset, location.extents@, construction_method, (i + 1) as nat, location.extents@.len()); }
            return Err(PayloadError::ExtentOutOfBounds { construction_method, start, length: extent.length, available });
        }
        assert(start <= end && end <= len);
        let s = start as usize;
        let e = end as usize;
        let piece = &source[s..e];
        assert(piece@ =~= source@.subrange(s as int, e as int));
        output.extend_from_slice(piece);
        assert(output@ =~= prev + piece@) by {
            assert forall|k: int| 0 <= k < output@.len() implies output@[k] == (prev + piece@)[k] by {
                if k >= prev.len() {
                    assert(cloned::<u8>(piece@[k - prev.len()], output@[k]));
                }
            }
        }
        assert(spec_extent_bytes(source@, location.base_offset, extent, construction_method) == Ok::<Seq<u8>, PayloadError>(piece@));
        assert(output@ =~= start_out + spec_extents_bytes(source@, location.base_offset, location.extents@, construction_method, (i + 1) as nat)->Ok_0);
        i = i + 1;
    }
    Ok(())
}

/// Gather the bytes that an item's location names.
fn extract_item_payload(input: &[u8], meta: &MetaBox, location: &ItemLocationItem) -> (r: Result<(u8, Vec<u8>), PayloadError>)
    requires
        meta.payload_offset + meta.payload@.len() <= u64::MAX,
    ensures
        match r {
            Ok((cm, b)) => spec_item_payload(input@, meta@, location@) == Ok::<(u8, Seq<u8>), PayloadError>((cm, b@)),
            Err(e) => spec_item_payload(input@, meta@, location@) == Err::<(u8, Seq<u8>), PayloadError>(e),
        },
{
    if location.data_reference_index != 0 {
        return Err(PayloadError::UnsupportedDataReferenceIndex { data_reference_index: location.data_reference_index });
    }
    let total_length = match checked_extents_total(&location.extents) {
        Some(t) => t,
        None => return Err(PayloadError::PayloadTooLarge { length: u64::MAX }),
    };
    if total_length > usize::MAX as u64 {
        return Err(PayloadError::PayloadTooLarge { length: total_length });
    }
    let mut payload: Vec<u8> = Vec::new();
    if location.construction_method == 0 {
        match append_iloc_extents_to_payload(input, location, 0, &mut payload) {
            Ok(()) => {},
            Err(e) => return Err(e),
        }
        assert(payload@ =~= Seq::<u8>::empty() + payload@);
    } else if location.construction_method == 1 {
        let children = match meta.parse_children() {
            Ok(c) => c,
            Err(e) => return Err(PayloadError::MetaChildBoxes(e)),
        };
        let idat_box = match find_first_child_box(children.as_slice(), IDAT_BOX_TYPE) {
            Some(b) => b,
            None => return Err(PayloadError::MissingIdatBox),
        };
        match append_iloc_extents_to_payload(idat_box.payload, location, 1, &mut payload) {
            Ok(()) => {},
            Err(e) => return Err(e),
        }
        assert(payload@ =~= Seq::<u8>::empty() + payload@);
    } else {
        return Err(PayloadError::UnsupportedConstructionMethod { construction_method: location.construction_method });
    }
    Ok((location.construction_method, payload))
}

/// The AVIF extraction error for a payload error of item `item_id`.
pub open spec fn avif_payload_error(item_id: u32, e: PayloadError) -> ExtractAvifItemDataError {
    match e {
        PayloadError::UnsupportedDataReferenceIndex { data_reference_index } =>
            ExtractAvifItemDataError::UnsupportedDataReferenceIndex { item_id, data_reference_index },
        PayloadError::UnsupportedConstructionMethod { construction_method } =>
            ExtractAvifItemDataError::UnsupportedConstructionMethod { item_id, construction_method },
        PayloadError::MissingIdatBox => ExtractAvifItemDataError::MissingIdatBox { item_id },
        PayloadError::MetaChildBoxes(b) => ExtractAvifItemDataError::MetaChildBoxes(b),
        PayloadError::ExtentOffsetOverflow { base_offset, extent_offset, extent_length } =>
            ExtractAvifItemDataError::ExtentOffsetOverflow { item_id, base_offset, extent_offset, extent_length },
        PayloadError::ExtentOutOfBounds { construction_method, start, length, available } =>
            ExtractAvifItemDataError::ExtentOutOfBounds { item_id, construction_method, start, length, available },
        PayloadError::PayloadTooLarge { length } => ExtractAvifItemDataError::PayloadTooLarge { item_id, length },
    }
}

/// The HEIC extraction error for a payload error of item `item_id`.
pub open spec fn heic_payload_error(item_id: u32, e: PayloadError) -> ExtractHeicItemDataError {
    match e {
        PayloadError::UnsupportedDataReferenceIndex { data_reference_index } =>
            ExtractHeicItemDataError::UnsupportedDataReferenceIndex { item_id, data_reference_index },
        PayloadError::UnsupportedConstructionMethod { construction_method } =>
            ExtractHeicItemDataError::UnsupportedConstructionMethod { item_id, construction_method },
        PayloadError::MissingIdatBox => ExtractHeicItemDataError::MissingIdatBox { item_id },
        PayloadError::MetaChildBoxes(b) => ExtractHeicItemDataError::MetaChildBoxes(b),
        PayloadError::ExtentOffsetOverflow { base_offset, extent_offset, extent_length } =>
            ExtractHeicItemDataError::ExtentOffsetOverflow { item_id, base_offset, extent_offset, extent_length },
        PayloadError::ExtentOutOfBounds { construction_method, start, length, available } =>
            ExtractHeicItemDataError::ExtentOutOfBounds { item_id, construction_method, start, length, available },
        PayloadError::PayloadTooLarge { length } => ExtractHeicItemDataError::PayloadTooLarge { item_id, length },
    }
}

fn avif_error(item_id: u32, e: PayloadError) -> (r: ExtractAvifItemDataError)
    ensures
        r == avif_payload_error(item_id, e),
{
    match e {
        PayloadError::UnsupportedDataReferenceIndex { data_reference_index } =>
            ExtractAvifItemDataError::UnsupportedDataReferenceIndex { item_id, data_reference_index },
        PayloadError::UnsupportedConstructionMethod { construction_method } =>
            ExtractAvifItemDataError::UnsupportedConstructionMethod { item_id, construction_method },
        PayloadError::MissingIdatBox => ExtractAvifItemDataError::MissingIdatBox { item_id },
        PayloadError::MetaChildBoxes(b) => ExtractAvifItemDataError::MetaChildBoxes(b),
        PayloadError::ExtentOffsetOverflow { base_offset, extent_offset, extent_length } =>
            ExtractAvifItemDataError::ExtentOffsetOverflow { item_id, base_offset, extent_offset, extent_length },
        PayloadError::ExtentOutOfBounds { construction_method, start, length, available } =>
            ExtractAvifItemDataError::ExtentOutOfBounds { item_id, construction_method, start, length, available },
        PayloadError::PayloadTooLarge { length } => ExtractAvifItemDataError::PayloadTooLarge { item_id, length },
    }
}

/// Gather the bytes that an item's location names, reporting errors against
/// item `item_id`.
pub(crate) fn extract_heic_item_payload_from_location(input: &[u8], meta: &MetaBox, location: &ItemLocationItem, item_id: u32) -> (r: Result<(u8, Vec<u8>), ExtractHeicItemDataError>)
    requires
        meta.payload_offset + meta.payload@.len() <= u64::MAX,
    ensures
        match r {
            Ok((cm, b)) => spec_item_payload(input@, meta@, location@) == Ok::<(u8, Seq<u8>), PayloadError>((cm, b@)),
            Err(e) => spec_item_payload(input@, meta@, location@) matches Err(pe) && e == heic_payload_error(item_id, pe),
        },
{
    match extract_item_payload(input, meta, location) {
        Ok(v) => Ok(v),
        Err(e) => Err(match e {
            PayloadError::UnsupportedDataReferenceIndex { data_reference_index } =>
                ExtractHeicItemDataError::UnsupportedDataReferenceIndex { item_id, data_reference_index },
            PayloadError::UnsupportedConstructionMethod { construction_method } =>
                ExtractHeicItemDataError::UnsupportedConstructionMethod { item_id, construction_method },
            PayloadError::MissingIdatBox => ExtractHeicItemDataError::MissingIdatBox { item_id },
            PayloadError::MetaChildBoxes(b) => ExtractHeicItemDataError::MetaChildBoxes(b),
            PayloadError::ExtentOffsetOverflow { base_offset, extent_offset, extent_length } =>
                ExtractHeicItemDataError::ExtentOffsetOverflow { item_id, base_offset, extent_offset, extent_length },
            PayloadError::ExtentOutOfBounds { construction_method, start, length, available } =>
                ExtractHeicItemDataError::ExtentOutOfBounds { item_id, construction_method, start, length, available },
            PayloadError::PayloadTooLarge { length } => ExtractHeicItemDataError::PayloadTooLarge { item_id, length },
        }),
    }
}

// ---- AVIF ----

/// The primary AVIF item's coded payload: the primary item must be an `av01` item,
/// and its payload is the concatenation of the bytes its extents name.
pub open spec fn spec_extract_primary_avif_item_data(input: Seq<u8>) -> Result<ItemDataModel, ExtractAvifItemDataError> {
    match spec_primary_graph(input) {
        Err(GraphStageError::TopLevelBoxes(e)) => Err(ExtractAvifItemDataError::TopLevelBoxes(e)),
        Err(GraphStageError::MissingMetaBox) => Err(ExtractAvifItemDataError::MissingMetaBox),
        Err(GraphStageError::Meta(e)) => Err(ExtractAvifItemDataError::Meta(e)),
        Err(GraphStageError::ResolvePrimaryItem(e)) => Err(ExtractAvifItemDataError::ResolvePrimaryItem(e)),
        Ok((meta, g)) => {
            let item_id = g.primary_item.item_id;
            match g.primary_item.item_info.item_type {
                None => Err(ExtractAvifItemDataError::MissingPrimaryItemType { item_id }),
                Some(item_type) => if item_type.0 != AV01_ITEM_TYPE {
                    Err(ExtractAvifItemDataError::UnexpectedPrimaryItemType { item_id, actual: item_type })
                } else {
                    match spec_item_payload(input, meta, g.primary_item.location) {
                        Err(e) => Err(avif_payload_error(item_id, e)),
                        Ok((cm, b)) => Ok(ItemDataModel { item_id, construction_method: cm, payload: b }),
                    }
                },
            }
        },
    }
}

/// Extract the primary AVIF (`av01`) coded payload from `iloc` extents.
pub fn extract_primary_avif_item_data(input: &[u8]) -> (r: Result<AvifPrimaryItemData, ExtractAvifItemDataError>)
    ensures
        match r {
            Ok(d) => spec_extract_primary_avif_item_data(input@) == Ok::<ItemDataModel, ExtractAvifItemDataError>(d@),
            Err(e) => spec_extract_primary_avif_item_data(input@) == Err::<ItemDataModel, ExtractAvifItemDataError>(e),
        },
{
    let (meta, resolved) = match primary_graph(input) {
        Ok(v) => v,
        Err(GraphStageError::TopLevelBoxes(e)) => return Err(ExtractAvifItemDataError::TopLevelBoxes(e)),
        Err(GraphStageError::MissingMetaBox) => return Err(ExtractAvifItemDataError::MissingMetaBox),
        Err(GraphStageError::Meta(e)) => return Err(ExtractAvifItemDataError::Meta(e)),
        Err(GraphStageError::ResolvePrimaryItem(e)) => return Err(ExtractAvifItemDataError::ResolvePrimaryItem(e)),
    };
    let item_id = resolved.primary_item.item_id;
    let item_type = match resolved.primary_item.item_info.item_type {
        Some(t) => t,
        None => return Err(ExtractAvifItemDataError::MissingPrimaryItemType { item_id }),
    };
    if !item_type.is(AV01_ITEM_TYPE) {
        return Err(ExtractAvifItemDataError::UnexpectedPrimaryItemType { item_id, actual: item_type });
    }
    match extract_item_payload(input, &meta, &resolved.primary_item.location) {
        Ok((construction_method, payload)) => Ok(AvifPrimaryItemData { item_id, construction_method, payload }),
        Err(e) => Err(avif_error(item_id, e)),
    }
}

// ---- HEIC ----

/// The primary HEIC item's coded payload: the primary item must be an `hvc1` or
/// `hev1` item.
pub open spec fn spec_extract_primary_heic_item_data(input: Seq<u8>) -> Result<ItemDataModel, ExtractHeicItemDataError> {
    match spec_primary_graph(input) {
        Err(GraphStageError::TopLevelBoxes(e)) => Err(ExtractHeicItemDataError::TopLevelBoxes(e)),
        Err(GraphStageError::MissingMetaBox) => Err(ExtractHeicItemDataError::MissingMetaBox),
        Err(GraphStageError::Meta(e)) => Err(ExtractHeicItemDataError::Meta(e)),
        Err(GraphStageError::ResolvePrimaryItem(e)) => Err(ExtractHeicItemDataError::ResolvePrimaryItem(e)),
        Ok((meta, g)) => {
            let item_id = g.primary_item.item_id;
            match g.primary_item.item_info.item_type {
                None => Err(ExtractHeicItemDataError::MissingPrimaryItemType { item_id }),
                Some(item_type) => if item_type.0 != HVC1_ITEM_TYPE && item_type.0 != HEV1_ITEM_TYPE {
                    Err(ExtractHeicItemDataError::UnexpectedPrimaryItemType { item_id, actual: item_type })
                } else {
                    match spec_item_payload(input, meta, g.primary_item.location) {
                        Err(e) => Err(heic_payload_error(item_id, e)),
                        Ok((cm, b)) => Ok(ItemDataModel { item_id, construction_method: cm, payload: b }),
                    }
                },
            }
        },
    }
}

/// Parse the top-level boxes, the first `meta` box and its primary item graph,
/// reporting errors as HEIC extraction errors.
pub(crate) fn resolve_primary_heic_item_graph<'a>(input: &'a [u8]) -> (r: Result<(MetaBox<'a>, ResolvedPrimaryItemGraph<'a>), ExtractHeicItemDataError>)
    ensures
        match r {
            Ok((m, g)) => spec_primary_graph(input@) == Ok::<(MetaModel, ItemGraphModel), GraphStageError>((m@, g@))
                && graph_fits(g) && m.payload_offset + m.payload@.len() <= u64::MAX,
            Err(e) => spec_primary_graph(input@) matches Err(ge) && e == heic_graph_error(ge),
        },
{
    match primary_graph(input) {
        Ok(v) => Ok(v),
        Err(GraphStageError::TopLevelBoxes(e)) => Err(ExtractHeicItemDataError::TopLevelBoxes(e)),
        Err(GraphStageError::MissingMetaBox) => Err(ExtractHeicItemDataError::MissingMetaBox),
        Err(GraphStageError::Meta(e)) => Err(ExtractHeicItemDataError::Meta(e)),
        Err(GraphStageError::ResolvePrimaryItem(e)) => Err(ExtractHeicItemDataError::ResolvePrimaryItem(e)),
    }
}

/// The HEIC extraction error for a failure to reach the primary item graph.
pub open spec fn heic_graph_error(e: GraphStageError) -> ExtractHeicItemDataError {
    match e {
        GraphStageError::TopLevelBoxes(e) => ExtractHeicItemDataError::TopLevelBoxes(e),
        GraphStageError::MissingMetaBox => ExtractHeicItemDataError::MissingMetaBox,
        GraphStageError::Meta(e) => ExtractHeicItemDataError::Meta(e),
        GraphStageError::ResolvePrimaryItem(e) => ExtractHeicItemDataError::ResolvePrimaryItem(e),
    }
}

/// Extract the primary HEIC (`hvc1`/`hev1`) coded payload from `iloc` extents.
pub fn extract_primary_heic_item_data(input: &[u8]) -> (r: Result<HeicPrimaryItemData, ExtractHeicItemDataError>)
    ensures
        match r {
            Ok(d) => spec_extract_primary_heic_item_data(input@) == Ok::<ItemDataModel, ExtractHeicItemDataError>(d@),
            Err(e) => spec_extract_primary_heic_item_data(input@) == Err::<ItemDataModel, ExtractHeicItemDataError>(e),
        },
{
    let (meta, resolved) = match resolve_primary_heic_item_graph(input) {
        Ok(v) => v,
        Err(e) => return Err(e),
    };
    let item_id = resolved.primary_item.item_id;
    let item_type = match resolved.primary_item.item_info.item_type {
        Some(t) => t,
        None => return Err(ExtractHeicItemDataError::MissingPrimaryItemType { item_id }),
    };
    if !item_type.is(HVC1_ITEM_TYPE) && !item_type.is(HEV1_ITEM_TYPE) {
        return Err(ExtractHeicItemDataError::UnexpectedPrimaryItemType { item_id, actual: item_type });
    }
    let (construction_method, payload) = match extract_heic_item_payload_from_location(input, &meta, &resolved.primary_item.location, item_id) {
        Ok(v) => v,
        Err(e) => return Err(e),
    };
    Ok(HeicPrimaryItemData { item_id, construction_method, payload })
}

/// Law (what is extracted): the data extracted for an AVIF or HEIC file is that of
/// the primary item, whose info entry has the expected coding type (`av01`, or
/// `hvc1`/`hev1`): its id, and the bytes and construction method that its location
/// names.
pub proof fn law_extracted_data_is_the_primary_items(input: Seq<u8>)
    ensures
        spec_extract_primary_avif_item_data(input) matches Ok(d) ==> {
            let (meta, g) = spec_primary_graph(input)->Ok_0;
            &&& d.item_id == g.primary_item.item_id
            &&& g.primary_item.item_info.item_type matches Some(t) && t.0 == AV01_ITEM_TYPE
            &&& spec_item_payload(input, meta, g.primary_item.location) == Ok::<(u8, Seq<u8>), PayloadError>((d.construction_method, d.payload))
        },
        spec_extract_primary_heic_item_data(input) matches Ok(d) ==> {
            let (meta, g) = spec_primary_graph(input)->Ok_0;
            &&& d.item_id == g.primary_item.item_id
            &&& g.primary_item.item_info.item_type matches Some(t) && (t.0 == HVC1_ITEM_TYPE || t.0 == HEV1_ITEM_TYPE)
            &&& spec_item_payload(input, meta, g.primary_item.location) == Ok::<(u8, Seq<u8>), PayloadError>((d.construction_method, d.payload))
        },
{
}

} // verus!
