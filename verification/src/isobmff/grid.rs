use vstd::prelude::*;
use super::types::{
    box_views, grid_tile_views, info_entry_views, loc_item_views, ref_entry_views, BoxModel,
    GridDataModel, GridTileModel, HeicGridDescriptor, HeicGridPrimaryItemData,
    HeicGridTileItemData, HeicPrimaryItemData, HeicPrimaryItemDataWithGrid, HevcDecoderConfigurationBox,
    HvccModel, ItemDataModel, ItemGraphModel, ItemPropertyAssociation, ItemPropertyAssociationBox,
    ItemReferenceEntry, MetaBox, MetaModel, ParsedBox, ReferenceEntryModel, ResolvedPrimaryItemGraph,
    WithGridModel, AssociationBoxModel, DIMG_REFERENCE_TYPE, GRID_ITEM_TYPE, HEV1_ITEM_TYPE,
    HVC1_ITEM_TYPE, HVCC_BOX_TYPE,
};
use super::errors::{ExtractHeicItemDataError, ParseHevcDecoderConfigurationBoxError};
use super::bytes::{be16, be32, read_u16_be, read_u32_be};
use super::boxes::all_offsets_fit;
use super::hvcc::spec_hvcc_box;
use super::find::{entry_has_id, find_first, find_info_entry, find_location_item, location_has_id};
use super::resolve::{all_flat_props, all_item_assocs, flatten_properties, graph_fits, item_property_associations};
use super::primary::{spec_primary_graph, GraphStageError};
use super::extract::{
    extract_heic_item_payload_from_location, heic_graph_error, heic_payload_error,
    resolve_primary_heic_item_graph, spec_extract_primary_heic_item_data, spec_item_payload,
    PayloadError,
};

verus! {

// ---- grid descriptor ----

/// The `grid` item descriptor: version 0, a flags byte whose lowest bit selects
/// 32-bit output dimensions, then rows and columns each stored minus one.
pub open spec fn spec_grid_descriptor(item_id: u32, p: Seq<u8>) -> Result<HeicGridDescriptor, ExtractHeicItemDataError> {
    if p.len() < 8 {
        Err(ExtractHeicItemDataError::GridDescriptorTooSmall { item_id, available: p.len() as usize, required: 8 })
    } else if p[0] != 0 {
        Err(ExtractHeicItemDataError::UnsupportedGridDescriptorVersion { item_id, version: p[0] })
    } else if p[1] % 2 == 1 {
        if p.len() < 12 {
            Err(ExtractHeicItemDataError::GridDescriptorTooSmall { item_id, available: p.len() as usize, required: 12 })
        } else {
            Ok(HeicGridDescriptor {
                version: 0,
                rows: (p[2] + 1) as u16,
                columns: (p[3] + 1) as u16,
                output_width: be32(p, 4),
                output_height: be32(p, 8),
            })
        }
    } else {
        Ok(HeicGridDescriptor {
            version: 0,
            rows: (p[2] + 1) as u16,
            columns: (p[3] + 1) as u16,
            output_width: be16(p, 4) as u32,
            output_height: be16(p, 6) as u32,
        })
    }
}

/// Parse the descriptor payload of a `grid` item.
fn parse_heic_grid_descriptor(item_id: u32, payload: &[u8]) -> (r: Result<HeicGridDescriptor, ExtractHeicItemDataError>)
    ensures
        r == spec_grid_descriptor(item_id, payload@),
        r matches Ok(d) ==> 1 <= d.rows <= 256 && 1 <= d.columns <= 256,
{
    if payload.len() < 8 {
        return Err(ExtractHeicItemDataError::GridDescriptorTooSmall { item_id, available: payload.len(), required: 8 });
    }
    let version = payload[0];
    if version != 0 {
        return Err(ExtractHeicItemDataError::UnsupportedGridDescriptorVersion { item_id, version });
    }
    let flags = payload[1];
    let rows = payload[2] as u16 + 1;
    let columns = payload[3] as u16 + 1;
    if flags % 2 == 1 {
        if payload.len() < 12 {
            return Err(ExtractHeicItemDataError::GridDescriptorTooSmall { item_id, available: payload.len(), required: 12 });
        }
        let output_width = read_u32_be(&payload[4..8]);
        let output_height = read_u32_be(&payload[8..12]);
        proof {
            assert(be32(payload@.subrange(4, 8), 0) == be32(payload@, 4));
            assert(be32(payload@.subrange(8, 12), 0) == be32(payload@, 8));
        }
        Ok(HeicGridDescriptor { version, rows, columns, output_width, output_height })
    } else {
        let output_width = read_u16_be(&payload[4..6]) as u32;
        let output_height = read_u16_be(&payload[6..8]) as u32;
        proof {
            assert(be16(payload@.subrange(4, 6), 0) == be16(payload@, 4));
            assert(be16(payload@.subrange(6, 8), 0) == be16(payload@, 6));
        }
        Ok(HeicGridDescriptor { version, rows, columns, output_width, output_height })
    }
}

/// A `grid` descriptor `p` of at least eight bytes with version 0 is accepted
/// exactly when its flags byte has the lowest bit clear or it holds twelve bytes.
/// Rows and columns are bytes 2 and 3 plus one; with the bit clear the output
/// width and height are the big-endian 16-bit values of bytes 4..6 and 6..8, with
/// it set the big-endian 32-bit values of bytes 4..8 and 8..12.
pub proof fn law_grid_descriptor_fields(item_id: u32, p: Seq<u8>)
    ensures
        (spec_grid_descriptor(item_id, p) is Ok) == (p.len() >= 8 && p[0] == 0 && (p[1] % 2 == 0 || p.len() >= 12)),
        spec_grid_descriptor(item_id, p) matches Ok(d) ==> {
            &&& d.version == 0
            &&& d.rows == p[2] + 1
            &&& d.columns == p[3] + 1
            &&& p[1] % 2 == 0 ==> d.output_width == p[4] * 256 + p[5] && d.output_height == p[6] * 256 + p[7]
            &&& p[1] % 2 == 1 ==> d.output_width == p[4] * 16777216 + p[5] * 65536 + p[6] * 256 + p[7]
                && d.output_height == p[8] * 16777216 + p[9] * 65536 + p[10] * 256 + p[11]
        },
{
}

// ---- tile references ----

/// Target items of the `dimg` references among the first `n` reference entries,
/// in order.
pub open spec fn spec_dimg_ids(refs: Seq<ReferenceEntryModel>, n: nat) -> Seq<u32>
    decreases n,
{
    if n == 0 {
        Seq::empty()
    } else {
        spec_dimg_ids(refs, (n - 1) as nat) + if refs[n - 1].reference_type.0 == DIMG_REFERENCE_TYPE {
            refs[n - 1].to_item_ids
        } else {
            Seq::empty()
        }
    }
}

/// Tile items of a grid: the targets of its `dimg` references, in order.
fn grid_tile_item_ids(references: &Vec<ItemReferenceEntry>) -> (r: Vec<u32>)
    ensures
        r@ == spec_dimg_ids(ref_entry_views(references@), references@.len()),
{
    let ghost refs = ref_entry_views(references@);
    let mut ids: Vec<u32> = Vec::new();
    let mut i: usize = 0;
    while i < references.len()
        invariant
            i <= references@.len(),
            refs == ref_entry_views(references@),
            ids@ == spec_dimg_ids(refs, i as nat),
        decreases references@.len() - i,
    {
        let reference = &references[i];
        assert(refs[i as int] == reference@);
        let ghost prev = ids@;
        if reference.reference_type.is(DIMG_REFERENCE_TYPE) {
            let targets = reference.to_item_ids.as_slice();
            ids.extend_from_slice(targets);
            assert(ids@ =~= prev + targets@) by {
                assert forall|k: int| 0 <= k < ids@.len() implies ids@[k] == (prev + targets@)[k] by {
                    if k >= prev.len() {
                        assert(cloned::<u32>(targets@[k - prev.len()], ids@[k]));
                    }
                }
            }
        } else {
            assert(ids@ =~= prev + Seq::<u32>::empty());
        }
        i = i + 1;
    }
    ids
}

// ---- tile codec configuration ----

/// Scan the first `n` property associations of a tile for its `hvcC` property:
/// index 0 means no property, other indices count from 1 into the flattened
/// properties, non-`hvcC` properties are skipped, and a second `hvcC` is refused.
pub open spec fn spec_tile_hvcc_scan(assocs: Seq<ItemPropertyAssociation>, flat: Seq<BoxModel>, item_id: u32, tile: u32, n: nat) -> Result<Option<HvccModel>, ExtractHeicItemDataError>
    decreases n,
{
    if n == 0 {
        Ok(None)
    } else {
        match spec_tile_hvcc_scan(assocs, flat, item_id, tile, (n - 1) as nat) {
            Err(e) => Err(e),
            Ok(found) => {
                let a = assocs[n - 1];
                if a.property_index == 0 {
                    Ok(found)
                } else if a.property_index - 1 >= flat.len() {
                    Err(ExtractHeicItemDataError::GridTilePropertyIndexOutOfRange {
                        item_id,
                        tile_item_id: tile,
                        property_index: a.property_index,
                        available: flat.len() as usize,
                    })
                } else if flat[a.property_index - 1].header.box_type.0 != HVCC_BOX_TYPE {
                    Ok(found)
                } else if found is Some {
                    Err(ExtractHeicItemDataError::DuplicateGridTileCodecConfiguration { item_id, tile_item_id: tile })
                } else {
                    match spec_hvcc_box(flat[a.property_index - 1]) {
                        Err(source) => Err(ExtractHeicItemDataError::GridTileCodecConfiguration { item_id, tile_item_id: tile, source }),
                        Ok(h) => Ok(Some(h)),
                    }
                }
            },
        }
    }
}

proof fn lemma_tile_hvcc_err_persists(assocs: Seq<ItemPropertyAssociation>, flat: Seq<BoxModel>, item_id: u32, tile: u32, i: nat, n: nat)
    requires
        i <= n,
        spec_tile_hvcc_scan(assocs, flat, item_id, tile, i) is Err,
    ensures
        spec_tile_hvcc_scan(assocs, flat, item_id, tile, n) == spec_tile_hvcc_scan(assocs, flat, item_id, tile, i),
    decreases n - i,
{
    if i < n {
        lemma_tile_hvcc_err_persists(assocs, flat, item_id, tile, i, (n - 1) as nat);
    }
}

/// The `hvcC` configuration of a grid tile: exactly one must be associated.
pub open spec fn spec_tile_hvcc(item_id: u32, tile: u32, assoc_boxes: Seq<AssociationBoxModel>, flat: Seq<BoxModel>) -> Result<HvccModel, ExtractHeicItemDataError> {
    let assocs = all_item_assocs(assoc_boxes, tile);
    match spec_tile_hvcc_scan(assocs, flat, item_id, tile, assocs.len()) {
        Err(e) => Err(e),
        Ok(None) => Err(ExtractHeicItemDataError::MissingGridTileCodecConfiguration { item_id, tile_item_id: tile }),
        Ok(Some(h)) => Ok(h),
    }
}

/// Find and parse the one `hvcC` property associated with a grid tile.
fn resolve_grid_tile_hvcc(
    item_id: u32,
    tile_item_id: u32,
    associations: &Vec<ItemPropertyAssociationBox>,
    flattened_properties: &Vec<ParsedBox>,
) -> (r: Result<HevcDecoderConfigurationBox, ExtractHeicItemDataError>)
    requires
        all_offsets_fit(flattened_properties@),
    ensures
        match r {
            Ok(h) => spec_tile_hvcc(item_id, tile_item_id, super::types::assoc_box_views(associations@), box_views(flattened_properties@))
                == Ok::<HvccModel, ExtractHeicItemDataError>(h@),
            Err(e) => spec_tile_hvcc(item_id, tile_item_id, super::types::assoc_box_views(associations@), box_views(flattened_properties@))
                == Err::<HvccModel, ExtractHeicItemDataError>(e),
        },
{
    let ghost flat = box_views(flattened_properties@);
    let assocs = item_property_associations(associations, tile_item_id);
    let mut hvcc: Option<HevcDecoderConfigurationBox> = None;
    let mut i: usize = 0;
    while i < assocs.len()
        invariant
            i <= assocs@.len(),
            assocs@ == all_item_assocs(super::types::assoc_box_views(associations@), tile_item_id),
            flat == box_views(flattened_properties@),
            all_offsets_fit(flattened_properties@),
            spec_tile_hvcc_scan(assocs@, flat, item_id, tile_item_id, i as nat) == Ok::<Option<HvccModel>, ExtractHeicItemDataError>(
                match hvcc { Some(h) => Some(h@), None => None }),
        decreases assocs@.len() - i,
    {
        let association = assocs[i];
        if association.property_index != 0 {
            let property_index = (association.property_index - 1) as usize;
            if property_index >= flattened_properties.len() {
                proof { lemma_tile_hvcc_err_persists(assocs@, flat, item_id, tile_item_id, (i + 1) as nat, assocs@.len()); }
                return Err(ExtractHeicItemDataError::GridTilePropertyIndexOutOfRange {
                    item_id,
                    tile_item_id,
                    property_index: association.property_index,
                    available: flattened_properties.len(),
                });
            }
            let property = &flattened_properties[property_index];
            assert(flat[property_index as int] == property@);
            if property.header.box_type.is(HVCC_BOX_TYPE) {
                if hvcc.is_some() {
                    proof { lemma_tile_hvcc_err_persists(assocs@, flat, item_id, tile_item_id, (i + 1) as nat, assocs@.len()); }
                    return Err(ExtractHeicItemDataError::DuplicateGridTileCodecConfiguration { item_id, tile_item_id });
                }
                match property.parse_hvcc() {
                    Ok(h) => hvcc = Some(h),
                    Err(source) => {
                        proof { lemma_tile_hvcc_err_persists(assocs@, flat, item_id, tile_item_id, (i + 1) as nat, assocs@.len()); }
                        return Err(ExtractHeicItemDataError::GridTileCodecConfiguration { item_id, tile_item_id, source });
                    },
                }
            }
        }
        i = i + 1;
    }
    match hvcc {
        Some(h) => Ok(h),
        None => Err(ExtractHeicItemDataError::MissingGridTileCodecConfiguration { item_id, tile_item_id }),
    }
}

// ---- tiles ----

/// One tile of a grid: it must have an item info entry of type `hvc1` or `hev1`,
/// exactly one `hvcC` property and a location, whose bytes are its payload.
pub open spec fn spec_grid_tile(input: Seq<u8>, meta: MetaModel, g: ItemGraphModel, item_id: u32, flat: Seq<BoxModel>, tile: u32) -> Result<GridTileModel, ExtractHeicItemDataError> {
    match find_first(g.iinf.entries, entry_has_id(tile)) {
        None => Err(ExtractHeicItemDataError::MissingGridTileItemInfo { item_id, tile_item_id: tile }),
        Some(info) => match info.item_type {
            None => Err(ExtractHeicItemDataError::MissingGridTileItemType { item_id, tile_item_id: tile }),
            Some(t) => if t.0 != HVC1_ITEM_TYPE && t.0 != HEV1_ITEM_TYPE {
                Err(ExtractHeicItemDataError::UnexpectedGridTileItemType { item_id, tile_item_id: tile, actual: t })
            } else {
                match spec_tile_hvcc(item_id, tile, g.iprp.associations, flat) {
                    Err(e) => Err(e),
                    Ok(hvcc) => match find_first(g.iloc.items, location_has_id(tile)) {
                        None => Err(ExtractHeicItemDataError::MissingGridTileLocation { item_id, tile_item_id: tile }),
                        Some(loc) => match spec_item_payload(input, meta, loc) {
                            Err(e) => Err(heic_payload_error(tile, e)),
                            Ok((cm, payload)) => Ok(GridTileModel { item_id: tile, construction_method: cm, hvcc, payload }),
                        },
                    },
                }
            },
        },
    }
}

/// The first `n` tiles of a grid, in reference order; the first tile that cannot
/// be resolved decides the error.
pub open spec fn spec_grid_tiles(input: Seq<u8>, meta: MetaModel, g: ItemGraphModel, item_id: u32, flat: Seq<BoxModel>, ids: Seq<u32>, n: nat) -> Result<Seq<GridTileModel>, ExtractHeicItemDataError>
    decreases n,
{
    if n == 0 {
        Ok(Seq::empty())
    } else {
        match spec_grid_tiles(input, meta, g, item_id, flat, ids, (n - 1) as nat) {
            Err(e) => Err(e),
            Ok(tiles) => match spec_grid_tile(input, meta, g, item_id, flat, ids[n - 1]) {
                Err(e) => Err(e),
                Ok(t) => Ok(tiles.push(t)),
            },
        }
    }
}

proof fn lemma_grid_tiles_err_persists(input: Seq<u8>, meta: MetaModel, g: ItemGraphModel, item_id: u32, flat: Seq<BoxModel>, ids: Seq<u32>, i: nat, n: nat)
    requires
        i <= n,
        spec_grid_tiles(input, meta, g, item_id, flat, ids, i) is Err,
    ensures
        spec_grid_tiles(input, meta, g, item_id, flat, ids, n) == spec_grid_tiles(input, meta, g, item_id, flat, ids, i),
    decreases n - i,
{
    if i < n {
        lemma_grid_tiles_err_persists(input, meta, g, item_id, flat, ids, i, (n - 1) as nat);
    }
}

/// Resolve one tile of a grid.
fn extract_grid_tile<'a>(
    input: &[u8],
    meta: &MetaBox<'a>,
    resolved: &ResolvedPrimaryItemGraph<'a>,
    item_id: u32,
    flattened_properties: &Vec<ParsedBox<'a>>,
    tile_item_id: u32,
) -> (r: Result<HeicGridTileItemData, ExtractHeicItemDataError>)
    requires
        meta.payload_offset + meta.payload@.len() <= u64::MAX,
        all_offsets_fit(flattened_properties@),
    ensures
        match r {
            Ok(t) => spec_grid_tile(input@, meta@, resolved@, item_id, box_views(flattened_properties@), tile_item_id)
                == Ok::<GridTileModel, ExtractHeicItemDataError>(t@),
            Err(e) => spec_grid_tile(input@, meta@, resolved@, item_id, box_views(flattened_properties@), tile_item_id)
                == Err::<GridTileModel, ExtractHeicItemDataError>(e),
        },
{
    let tile_item_info = match find_info_entry(&resolved.iinf.entries, tile_item_id) {
        Some(e) => e,
        None => return Err(ExtractHeicItemDataError::MissingGridTileItemInfo { item_id, tile_item_id }),
    };
    let tile_item_type = match tile_item_info.item_type {
        Some(t) => t,
        None => return Err(ExtractHeicItemDataError::MissingGridTileItemType { item_id, tile_item_id }),
    };
    if !tile_item_type.is(HVC1_ITEM_TYPE) && !tile_item_type.is(HEV1_ITEM_TYPE) {
        return Err(ExtractHeicItemDataError::UnexpectedGridTileItemType { item_id, tile_item_id, actual: tile_item_type });
    }
    let hvcc = match resolve_grid_tile_hvcc(item_id, tile_item_id, &resolved.iprp.associations, flattened_properties) {
        Ok(h) => h,
        Err(e) => return Err(e),
    };
    let tile_location = match find_location_item(&resolved.iloc.items, tile_item_id) {
        Some(l) => l,
        None => return Err(ExtractHeicItemDataError::MissingGridTileLocation { item_id, tile_item_id }),
    };
    let (construction_method, payload) = match extract_heic_item_payload_from_location(input, meta, &tile_location, tile_item_id) {
        Ok(v) => v,
        Err(e) => return Err(e),
    };
    Ok(HeicGridTileItemData { item_id: tile_item_id, construction_method, hvcc, payload })
}

// ---- primary item with grid ----

/// The data of a `grid` primary item: its descriptor, read from the item's own
/// payload, and its tiles.
pub open spec fn spec_grid_item_data(input: Seq<u8>, meta: MetaModel, g: ItemGraphModel, item_id: u32) -> Result<GridDataModel, ExtractHeicItemDataError> {
    match spec_item_payload(input, meta, g.primary_item.location) {
        Err(e) => Err(heic_payload_error(item_id, e)),
        Ok((cm, grid_payload)) => match spec_grid_descriptor(item_id, grid_payload) {
            Err(e) => Err(e),
            Ok(d) => {
                let refs = g.primary_item.references;
                let ids = spec_dimg_ids(refs, refs.len());
                let expected = d.rows * d.columns;
                if ids.len() == 0 {
                    Err(ExtractHeicItemDataError::MissingGridTileReferences { item_id })
                } else if ids.len() != expected {
                    Err(ExtractHeicItemDataError::GridTileCountMismatch {
                        item_id,
                        rows: d.rows,
                        columns: d.columns,
                        expected: expected as usize,
                        actual: ids.len() as usize,
                    })
                } else {
                    let flat = all_flat_props(g.iprp.property_containers);
                    match spec_grid_tiles(input, meta, g, item_id, flat, ids, ids.len()) {
                        Err(e) => Err(e),
                        Ok(tiles) => Ok(GridDataModel { item_id, construction_method: cm, descriptor: d, tile_item_ids: ids, tiles }),
                    }
                }
            },
        },
    }
}


/// The primary HEIC item's data: the coded payload of an `hvc1`/`hev1` item, or the
/// descriptor and tiles of a `grid` item, whose `dimg` references must name
/// exactly rows times columns tiles.
pub open spec fn spec_extract_primary_heic_item_data_with_grid(input: Seq<u8>) -> Result<WithGridModel, ExtractHeicItemDataError> {
    match spec_primary_graph(input) {
        Err(ge) => Err(heic_graph_error(ge)),
        Ok((meta, g)) => {
            let item_id = g.primary_item.item_id;
            match g.primary_item.item_info.item_type {
                None => Err(ExtractHeicItemDataError::MissingPrimaryItemType { item_id }),
                Some(item_type) => if item_type.0 == HVC1_ITEM_TYPE || item_type.0 == HEV1_ITEM_TYPE {
                    match spec_item_payload(input, meta, g.primary_item.location) {
                        Err(e) => Err(heic_payload_error(item_id, e)),
                        Ok((cm, b)) => Ok(WithGridModel::Coded(ItemDataModel { item_id, construction_method: cm, payload: b })),
                    }
                } else if item_type.0 != GRID_ITEM_TYPE {
                    Err(ExtractHeicItemDataError::UnexpectedPrimaryItemType { item_id, actual: item_type })
                } else {
                    match spec_grid_item_data(input, meta, g, item_id) {
                        Err(e) => Err(e),
                        Ok(d) => Ok(WithGridModel::Grid(d)),
                    }
                },
            }
        },
    }
}

/// Read the descriptor and tiles of a `grid` primary item.
#[verifier::loop_isolation(false)]
fn extract_grid_item_data<'a>(
    input: &[u8],
    meta: &MetaBox<'a>,
    resolved: &ResolvedPrimaryItemGraph<'a>,
    item_id: u32,
) -> (r: Result<HeicGridPrimaryItemData, ExtractHeicItemDataError>)
    requires
        meta.payload_offset + meta.payload@.len() <= u64::MAX,
        graph_fits(*resolved),
    ensures
        match r {
            Ok(d) => spec_grid_item_data(input@, meta@, resolved@, item_id) == Ok::<GridDataModel, ExtractHeicItemDataError>(d@),
            Err(e) => spec_grid_item_data(input@, meta@, resolved@, item_id) == Err::<GridDataModel, ExtractHeicItemDataError>(e),
        },
{
    let (construction_method, grid_payload) = match extract_heic_item_payload_from_location(input, meta, &resolved.primary_item.location, item_id) {
        Ok(v) => v,
        Err(e) => return Err(e),
    };
    let descriptor = match parse_heic_grid_descriptor(item_id, grid_payload.as_slice()) {
        Ok(d) => d,
        Err(e) => return Err(e),
    };
    let tile_item_ids = grid_tile_item_ids(&resolved.primary_item.references);
    if tile_item_ids.len() == 0 {
        return Err(ExtractHeicItemDataError::MissingGridTileReferences { item_id });
    }
    let rows = descriptor.rows as usize;
    let columns = descriptor.columns as usize;
    assert(rows * columns <= 65536) by (nonlinear_arith)
        requires
            rows <= 256,
            columns <= 256,
    ;
    let expected_tiles = rows * columns;
    if tile_item_ids.len() != expected_tiles {
        return Err(ExtractHeicItemDataError::GridTileCountMismatch {
            item_id,
            rows: descriptor.rows,
            columns: descriptor.columns,
            expected: expected_tiles,
            actual: tile_item_ids.len(),
        });
    }
    let flattened_properties = flatten_properties(&resolved.iprp.property_containers);
    let ghost flat = box_views(flattened_properties@);
    let ghost ids = tile_item_ids@;
    let mut tiles: Vec<HeicGridTileItemData> = Vec::new();
    assert(grid_tile_views(tiles@) =~= Seq::<GridTileModel>::empty());
    let mut i: usize = 0;
    while i < tile_item_ids.len()
        invariant
            i <= tile_item_ids@.len(),
            ids == tile_item_ids@,
            flat == box_views(flattened_properties@),
            all_offsets_fit(flattened_properties@),
            meta.payload_offset + meta.payload@.len() <= u64::MAX,
            spec_grid_tiles(input@, meta@, resolved@, item_id, flat, ids, i as nat)
                == Ok::<Seq<GridTileModel>, ExtractHeicItemDataError>(grid_tile_views(tiles@)),
        decreases tile_item_ids@.len() - i,
    {
        let tile_item_id = tile_item_ids[i];
        let tile = match extract_grid_tile(input, meta, resolved, item_id, &flattened_properties, tile_item_id) {
            Ok(t) => t,
            Err(e) => {
                proof { lemma_grid_tiles_err_persists(input@, meta@, resolved@, item_id, flat, ids, (i + 1) as nat, ids.len()); }
                return Err(e);
            },
        };
        tiles.push(tile);
        assert(grid_tile_views(tiles@) =~= spec_grid_tiles(input@, meta@, resolved@, item_id, flat, ids, (i + 1) as nat)->Ok_0);
        i = i + 1;
    }
    Ok(HeicGridPrimaryItemData { item_id, construction_method, descriptor, tile_item_ids, tiles })
}

/// Extract primary HEIC item data, including `grid` item descriptor + tiles.
pub fn extract_primary_heic_item_data_with_grid(input: &[u8]) -> (r: Result<HeicPrimaryItemDataWithGrid, ExtractHeicItemDataError>)
    ensures
        match r {
            Ok(d) => spec_extract_primary_heic_item_data_with_grid(input@) == Ok::<WithGridModel, ExtractHeicItemDataError>(d@),
            Err(e) => spec_extract_primary_heic_item_data_with_grid(input@) == Err::<WithGridModel, ExtractHeicItemDataError>(e),
        },
{
    let (meta, resolved) = match resolve_primary_heic_item_graph(input) {
        Ok(v) => v,
        Err(e) => return Err(e),
    };
    let item_id = resolved.primary_item.item_id;
    let item_type = match resolved.primary_item.item_info.item_type {
        Some(t) => t,
        None => return Err(ExtractHeicItemDataError::MissingPrimaryItemType { item_id }),
    };
    if item_type.is(HVC1_ITEM_TYPE) || item_type.is(HEV1_ITEM_TYPE) {
        let (construction_method, payload) = match extract_heic_item_payload_from_location(input, &meta, &resolved.primary_item.location, item_id) {
            Ok(v) => v,
            Err(e) => return Err(e),
        };
        return Ok(HeicPrimaryItemDataWithGrid::Coded(HeicPrimaryItemData { item_id, construction_method, payload }));
    }
    if !item_type.is(GRID_ITEM_TYPE) {
        return Err(ExtractHeicItemDataError::UnexpectedPrimaryItemType { item_id, actual: item_type });
    }
    match extract_grid_item_data(input, &meta, &resolved, item_id) {
        Ok(g) => Ok(HeicPrimaryItemDataWithGrid::Grid(g)),
        Err(e) => Err(e),
    }
}

/// For a coded (`hvc1`/`hev1`) primary item, extraction with grid support gives
/// exactly what plain HEIC extraction gives; plain extraction fails only where the
/// extraction with grid support fails with the same error, or where the primary
/// item is a `grid` item.
pub proof fn law_with_grid_agrees_on_coded_items(input: Seq<u8>)
    ensures
        match spec_extract_primary_heic_item_data(input) {
            Ok(d) => spec_extract_primary_heic_item_data_with_grid(input) == Ok::<WithGridModel, ExtractHeicItemDataError>(WithGridModel::Coded(d)),
            Err(e) => spec_extract_primary_heic_item_data_with_grid(input) == Err::<WithGridModel, ExtractHeicItemDataError>(e)
                || (e matches ExtractHeicItemDataError::UnexpectedPrimaryItemType { actual, .. } && actual.0 == GRID_ITEM_TYPE),
        },
        spec_extract_primary_heic_item_data_with_grid(input) matches Ok(WithGridModel::Coded(d))
            ==> spec_extract_primary_heic_item_data(input) == Ok::<ItemDataModel, ExtractHeicItemDataError>(d),
{
}

proof fn lemma_grid_tiles_follow_ids(input: Seq<u8>, meta: MetaModel, g: ItemGraphModel, item_id: u32, flat: Seq<BoxModel>, ids: Seq<u32>, n: nat)
    requires
        n <= ids.len(),
    ensures
        spec_grid_tiles(input, meta, g, item_id, flat, ids, n) matches Ok(tiles) ==> tiles.len() == n
            && forall|i: int| 0 <= i < n ==> #[trigger] tiles[i].item_id == ids[i],
    decreases n,
{
    if n > 0 {
        lemma_grid_tiles_follow_ids(input, meta, g, item_id, flat, ids, (n - 1) as nat);
    }
}

/// A grid that is returned has one tile per `dimg` reference target, in reference
/// order, and exactly rows times columns of them, each dimension between 1 and 256.
pub proof fn law_grid_tiles_follow_references(input: Seq<u8>)
    ensures
        spec_extract_primary_heic_item_data_with_grid(input) matches Ok(WithGridModel::Grid(d)) ==> {
            &&& 1 <= d.descriptor.rows <= 256 && 1 <= d.descriptor.columns <= 256
            &&& d.tiles.len() == d.tile_item_ids.len()
            &&& d.tile_item_ids.len() == d.descriptor.rows * d.descriptor.columns
            &&& forall|i: int| 0 <= i < d.tiles.len() ==> #[trigger] d.tiles[i].item_id == d.tile_item_ids[i]
        },
{
    match spec_primary_graph(input) {
        Ok((meta, g)) => {
            let item_id = g.primary_item.item_id;
            match spec_item_payload(input, meta, g.primary_item.location) {
                Ok((cm, p)) => {
                    let refs = g.primary_item.references;
                    let ids = spec_dimg_ids(refs, refs.len());
                    let flat = all_flat_props(g.iprp.property_containers);
                    lemma_grid_tiles_follow_ids(input, meta, g, item_id, flat, ids, ids.len());
                },
                Err(_) => {},
            }
        },
        Err(_) => {},
    }
}

proof fn lemma_dimg_ids_flatten(refs: Seq<ReferenceEntryModel>, n: nat)
    requires
        n <= refs.len(),
    ensures
        spec_dimg_ids(refs, n) == refs.take(n as int).filter(|r: ReferenceEntryModel| r.reference_type.0 == DIMG_REFERENCE_TYPE)
            .map_values(|r: ReferenceEntryModel| r.to_item_ids).flatten(),
    decreases n,
{
    reveal_with_fuel(Seq::filter, 1);
    let pred = |r: ReferenceEntryModel| r.reference_type.0 == DIMG_REFERENCE_TYPE;
    let f = |r: ReferenceEntryModel| r.to_item_ids;
    if n == 0 {
        assert(refs.take(0).filter(pred).map_values(f) =~= Seq::<Seq<u32>>::empty());
    } else {
        lemma_dimg_ids_flatten(refs, (n - 1) as nat);
        let t = refs.take(n as int);
        assert(t.drop_last() =~= refs.take(n - 1));
        assert(t.last() == refs[n - 1]);
        let prev = refs.take(n - 1).filter(pred);
        if pred(refs[n - 1]) {
            assert(t.filter(pred).map_values(f) =~= prev.map_values(f).push(refs[n - 1].to_item_ids));
            prev.map_values(f).lemma_flatten_push(refs[n - 1].to_item_ids);
        } else {
            assert(spec_dimg_ids(refs, n) =~= spec_dimg_ids(refs, (n - 1) as nat));
        }
    }
}

/// Law (tile order): the tiles of a grid item are the targets of its `dimg`
/// references, reference after reference, each reference's targets in their own
/// order; references of other types name no tiles.
pub proof fn law_dimg_tiles_concatenate(refs: Seq<ReferenceEntryModel>)
    ensures
        spec_dimg_ids(refs, refs.len()) == refs.filter(|r: ReferenceEntryModel| r.reference_type.0 == DIMG_REFERENCE_TYPE)
            .map_values(|r: ReferenceEntryModel| r.to_item_ids).flatten(),
{
    lemma_dimg_ids_flatten(refs, refs.len());
    assert(refs.take(refs.len() as int) =~= refs);
}

/// Association `j` names an `hvcC` property of the flattened list.
pub open spec fn names_hvcc(assocs: Seq<ItemPropertyAssociation>, flat: Seq<BoxModel>, j: int) -> bool {
    &&& assocs[j].property_index != 0
    &&& assocs[j].property_index <= flat.len()
    &&& flat[assocs[j].property_index - 1].header.box_type.0 == HVCC_BOX_TYPE
}

proof fn lemma_tile_hvcc_scan_picks(assocs: Seq<ItemPropertyAssociation>, flat: Seq<BoxModel>, item_id: u32, tile: u32, n: nat)
    requires
        n <= assocs.len(),
    ensures
        spec_tile_hvcc_scan(assocs, flat, item_id, tile, n) matches Ok(found) ==> {
            &&& forall|j: int| 0 <= j < n ==> (#[trigger] assocs[j]).property_index <= flat.len()
            &&& match found {
                Some(h) => exists|k: int| 0 <= k < n && #[trigger] names_hvcc(assocs, flat, k)
                    && spec_hvcc_box(flat[assocs[k].property_index - 1]) == Ok::<HvccModel, ParseHevcDecoderConfigurationBoxError>(h)
                    && forall|j: int| 0 <= j < n && j != k ==> !names_hvcc(assocs, flat, j),
                None => forall|j: int| 0 <= j < n ==> !names_hvcc(assocs, flat, j),
            }
        },
    decreases n,
{
    if n > 0 {
        lemma_tile_hvcc_scan_picks(assocs, flat, item_id, tile, (n - 1) as nat);
        if let Ok(found) = spec_tile_hvcc_scan(assocs, flat, item_id, tile, n) {
            let prev = spec_tile_hvcc_scan(assocs, flat, item_id, tile, (n - 1) as nat)->Ok_0;
            if names_hvcc(assocs, flat, n - 1) {
                assert(prev is None);
                assert(names_hvcc(assocs, flat, n - 1));
            } else {
                assert(found == prev);
                if let Some(h) = prev {
                    let k = choose|k: int| 0 <= k < n - 1 && #[trigger] names_hvcc(assocs, flat, k)
                        && spec_hvcc_box(flat[assocs[k].property_index - 1]) == Ok::<HvccModel, ParseHevcDecoderConfigurationBoxError>(h)
                        && forall|j: int| 0 <= j < n - 1 && j != k ==> !names_hvcc(assocs, flat, j);
                    assert(names_hvcc(assocs, flat, k));
                }
            }
        }
    }
}

/// Law (tile codec configuration): the `hvcC` of a grid tile is the parse of the
/// one `hvcC` property that the tile's associations name; every nonzero index of
/// those associations names an entry of the flattened property list.
pub proof fn law_tile_hvcc_is_its_own(item_id: u32, tile: u32, assoc_boxes: Seq<AssociationBoxModel>, flat: Seq<BoxModel>)
    ensures
        spec_tile_hvcc(item_id, tile, assoc_boxes, flat) matches Ok(h) ==> {
            let assocs = all_item_assocs(assoc_boxes, tile);
            &&& forall|j: int| 0 <= j < assocs.len() ==> (#[trigger] assocs[j]).property_index <= flat.len()
            &&& exists|k: int| 0 <= k < assocs.len() && #[trigger] names_hvcc(assocs, flat, k)
                && spec_hvcc_box(flat[assocs[k].property_index - 1]) == Ok::<HvccModel, ParseHevcDecoderConfigurationBoxError>(h)
                && forall|j: int| 0 <= j < assocs.len() && j != k ==> !names_hvcc(assocs, flat, j)
        },
{
    let assocs = all_item_assocs(assoc_boxes, tile);
    lemma_tile_hvcc_scan_picks(assocs, flat, item_id, tile, assocs.len());
}

} // verus!
