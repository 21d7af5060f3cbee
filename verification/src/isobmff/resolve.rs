use vstd::prelude::*;
use super::types::{
    assoc_box_views, box_views, container_views, opt_iref_view, ref_entry_views, res_view,
    resolved_prop_views, AssociationBoxModel, AssociationEntryModel, BoxModel, FourCc,
    InfoBoxModel, ItemGraphModel, ItemPropertyAssociation, ItemPropertyAssociationBox,
    ItemPropertyContainerBox, ItemReferenceBox, ItemReferenceEntry, LocationBoxModel, MetaBox,
    MetaModel, ParsedBox, PrimaryItemBox, PropertiesBoxModel, PropertyContainerModel,
    ReferenceBoxModel, ReferenceEntryModel, ResolvedItemModel, ResolvedPrimaryItem,
    ResolvedPrimaryItemGraph, ResolvedPrimaryItemProperty, ResolvedPropertyModel, IINF_BOX_TYPE,
    ILOC_BOX_TYPE, IPRP_BOX_TYPE, IREF_BOX_TYPE, PITM_BOX_TYPE,
};
use super::errors::ResolvePrimaryItemGraphError;
use super::boxes::{all_offsets_fit, spec_boxes};
use super::leaf::spec_pitm_box;
use super::iloc::spec_iloc_box;
use super::items::{containers_fit, spec_iinf_box, spec_iprp_box, spec_iref_box};
use super::find::{
    copy_reference_entry, entry_has_id, find_first, find_first_child_box, find_info_entry,
    find_location_item, law_find_first, location_has_id, spec_find_box,
};

verus! {

// ---- the associations of one item ----

/// Associations listed for item `id` in the first `n` entries, in order.
pub open spec fn entry_assocs(es: Seq<AssociationEntryModel>, id: u32, n: nat) -> Seq<ItemPropertyAssociation>
    decreases n,
{
    if n == 0 {
        Seq::empty()
    } else {
        entry_assocs(es, id, (n - 1) as nat) + if es[n - 1].item_id == id {
            es[n - 1].associations
        } else {
            Seq::empty()
        }
    }
}

/// Associations listed for item `id` in the first `n` `ipma` boxes, in order.
pub open spec fn item_assocs(bs: Seq<AssociationBoxModel>, id: u32, n: nat) -> Seq<ItemPropertyAssociation>
    decreases n,
{
    if n == 0 {
        Seq::empty()
    } else {
        item_assocs(bs, id, (n - 1) as nat) + entry_assocs(bs[n - 1].entries, id, bs[n - 1].entries.len())
    }
}

/// Every association listed for item `id`, in box, entry and association order.
pub open spec fn all_item_assocs(bs: Seq<AssociationBoxModel>, id: u32) -> Seq<ItemPropertyAssociation> {
    item_assocs(bs, id, bs.len())
}

pub fn item_property_associations(associations: &Vec<ItemPropertyAssociationBox>, item_id: u32) -> (r: Vec<ItemPropertyAssociation>)
    ensures
        r@ == all_item_assocs(assoc_box_views(associations@), item_id),
{
    let ghost bs = assoc_box_views(associations@);
    let mut out: Vec<ItemPropertyAssociation> = Vec::new();
    let mut bi: usize = 0;
    while bi < associations.len()
        invariant
            bi <= associations@.len(),
            bs == assoc_box_views(associations@),
            out@ == item_assocs(bs, item_id, bi as nat),
        decreases associations@.len() - bi,
    {
        let association_box = &associations[bi];
        let ghost es = bs[bi as int].entries;
        assert(es == super::types::assoc_entry_views(association_box.entries@));
        let ghost base = out@;
        let mut ei: usize = 0;
        assert(base + entry_assocs(es, item_id, 0) =~= base);
        while ei < association_box.entries.len()
            invariant
                ei <= association_box.entries@.len(),
                es == super::types::assoc_entry_views(association_box.entries@),
                out@ == base + entry_assocs(es, item_id, ei as nat),
            decreases association_box.entries@.len() - ei,
        {
            let entry = &association_box.entries[ei];
            assert(es[ei as int] == entry@);
            let ghost before = out@;
            if entry.item_id == item_id {
                let mut ai: usize = 0;
                while ai < entry.associations.len()
                    invariant
                        ai <= entry.associations@.len(),
                        out@ == before + entry.associations@.take(ai as int),
                    decreases entry.associations@.len() - ai,
                {
                    out.push(entry.associations[ai]);
                    assert(entry.associations@.take(ai + 1) =~= entry.associations@.take(ai as int).push(entry.associations@[ai as int]));
                    ai = ai + 1;
                }
                assert(entry.associations@.take(ai as int) =~= entry.associations@);
            }
            assert(out@ =~= base + entry_assocs(es, item_id, (ei + 1) as nat));
            ei = ei + 1;
        }
        bi = bi + 1;
        assert(out@ =~= item_assocs(bs, item_id, bi as nat));
    }
    out
}

// ---- the flattened property list ----

/// The properties of the first `n` containers, one after another.
pub open spec fn flat_props(cs: Seq<PropertyContainerModel>, n: nat) -> Seq<BoxModel>
    decreases n,
{
    if n == 0 {
        Seq::empty()
    } else {
        flat_props(cs, (n - 1) as nat) + cs[n - 1].properties
    }
}

/// The properties of all containers, in order; property index `k` names entry `k - 1`.
pub open spec fn all_flat_props(cs: Seq<PropertyContainerModel>) -> Seq<BoxModel> {
    flat_props(cs, cs.len())
}

pub fn flatten_properties<'a>(containers: &Vec<ItemPropertyContainerBox<'a>>) -> (r: Vec<ParsedBox<'a>>)
    ensures
        box_views(r@) == all_flat_props(container_views(containers@)),
        containers_fit(containers@) ==> all_offsets_fit(r@),
{
    let ghost cs = container_views(containers@);
    let mut out: Vec<ParsedBox<'a>> = Vec::new();
    let mut ci: usize = 0;
    assert(box_views(out@) =~= Seq::<BoxModel>::empty());
    while ci < containers.len()
        invariant
            ci <= containers@.len(),
            cs == container_views(containers@),
            box_views(out@) == flat_props(cs, ci as nat),
            containers_fit(containers@) ==> all_offsets_fit(out@),
        decreases containers@.len() - ci,
    {
        let container = &containers[ci];
        assert(cs[ci as int].properties == box_views(container.properties@));
        let ghost base = out@;
        let ghost fit_before = containers_fit(containers@) ==> all_offsets_fit(base);
        assert(fit_before);
        let mut pi: usize = 0;
        while pi < container.properties.len()
            invariant
                pi <= container.properties@.len(),
                box_views(out@) == box_views(base) + box_views(container.properties@).take(pi as int),
                out@.len() == base.len() + pi,
                forall|j: int| 0 <= j < base.len() ==> out@[j] == base[j],
                forall|j: int| 0 <= j < pi ==> out@[base.len() + j] == container.properties@[j],
                fit_before,
                fit_before == (containers_fit(containers@) ==> all_offsets_fit(base)),
            decreases container.properties@.len() - pi,
        {
            let ghost before = out@;
            out.push(container.properties[pi]);
            assert(box_views(out@) =~= box_views(before).push(container.properties@[pi as int]@));
            assert(box_views(container.properties@).take(pi + 1) =~= box_views(container.properties@).take(pi as int).push(container.properties@[pi as int]@));
            pi = pi + 1;
        }
        assert(box_views(container.properties@).take(pi as int) =~= box_views(container.properties@));
        proof {
            if containers_fit(containers@) {
                assert(all_offsets_fit(container.properties@));
                assert forall|j: int| 0 <= j < out@.len() implies (#[trigger] out@[j]).offsets_fit() by {
                    if j >= base.len() {
                        assert(out@[base.len() + (j - base.len())] == container.properties@[j - base.len()]);
                    } else {
                        assert(out@[j] == base[j]);
                        assert(base[j].offsets_fit());
                    }
                }
            }
        }
        ci = ci + 1;
    }
    out
}

// ---- resolving property indices ----

/// Resolve associations in order: index 0 means "no property" and is skipped, an
/// index past the flattened list is an error, any other index `k` picks entry `k - 1`.
pub open spec fn spec_resolve_props(assocs: Seq<ItemPropertyAssociation>, flat: Seq<BoxModel>, item_id: u32, off: u64) -> Result<Seq<ResolvedPropertyModel>, ResolvePrimaryItemGraphError>
    decreases assocs.len(),
{
    if assocs.len() == 0 {
        Ok(Seq::empty())
    } else {
        match spec_resolve_props(assocs.drop_last(), flat, item_id, off) {
            Err(e) => Err(e),
            Ok(ps) => {
                let a = assocs.last();
                if a.property_index == 0 {
                    Ok(ps)
                } else if a.property_index - 1 >= flat.len() {
                    Err(ResolvePrimaryItemGraphError::PropertyIndexOutOfRange {
                        offset: off,
                        item_id,
                        property_index: a.property_index,
                        available: flat.len() as usize,
                    })
                } else {
                    Ok(ps.push(ResolvedPropertyModel {
                        essential: a.essential,
                        property_index: a.property_index,
                        property: flat[a.property_index - 1],
                    }))
                }
            },
        }
    }
}

proof fn lemma_resolve_props_take_err(assocs: Seq<ItemPropertyAssociation>, flat: Seq<BoxModel>, item_id: u32, off: u64, k: int)
    requires
        0 <= k <= assocs.len(),
        spec_resolve_props(assocs.take(k), flat, item_id, off) is Err,
    ensures
        spec_resolve_props(assocs, flat, item_id, off) == spec_resolve_props(assocs.take(k), flat, item_id, off),
    decreases assocs.len() - k,
{
    if k == assocs.len() {
        assert(assocs.take(k) =~= assocs);
    } else {
        assert(assocs.drop_last().take(k) =~= assocs.take(k));
        lemma_resolve_props_take_err(assocs.drop_last(), flat, item_id, off, k);
    }
}

pub open spec fn props_res_view<'a>(r: Result<Vec<ResolvedPrimaryItemProperty<'a>>, ResolvePrimaryItemGraphError>) -> Result<Seq<ResolvedPropertyModel>, ResolvePrimaryItemGraphError> {
    match r {
        Ok(v) => Ok(resolved_prop_views(v@)),
        Err(e) => Err(e),
    }
}

/// Every resolved property box keeps its absolute offsets within `u64`.
pub open spec fn props_fit<'a>(ps: Seq<ResolvedPrimaryItemProperty<'a>>) -> bool {
    forall|i: int| 0 <= i < ps.len() ==> (#[trigger] ps[i]).property.offsets_fit()
}

pub fn resolve_item_properties<'a>(assocs: &Vec<ItemPropertyAssociation>, flat: &Vec<ParsedBox<'a>>, item_id: u32, offset: u64) -> (r: Result<Vec<ResolvedPrimaryItemProperty<'a>>, ResolvePrimaryItemGraphError>)
    ensures
        props_res_view(r) == spec_resolve_props(assocs@, box_views(flat@), item_id, offset),
        r matches Ok(ps) ==> (all_offsets_fit(flat@) ==> props_fit(ps@)),
{
    let ghost fv = box_views(flat@);
    let mut properties: Vec<ResolvedPrimaryItemProperty<'a>> = Vec::new();
    let mut i: usize = 0;
    assert(assocs@.take(0) =~= Seq::<ItemPropertyAssociation>::empty());
    assert(resolved_prop_views(properties@) =~= Seq::<ResolvedPropertyModel>::empty());
    while i < assocs.len()
        invariant
            i <= assocs@.len(),
            fv == box_views(flat@),
            spec_resolve_props(assocs@.take(i as int), fv, item_id, offset) == Ok::<Seq<ResolvedPropertyModel>, ResolvePrimaryItemGraphError>(resolved_prop_views(properties@)),
            all_offsets_fit(flat@) ==> props_fit(properties@),
        decreases assocs@.len() - i,
    {
        let association = assocs[i];
        proof {
            assert(assocs@.take(i + 1).drop_last() =~= assocs@.take(i as int));
            assert(assocs@.take(i + 1).last() == association);
        }
        if association.property_index != 0 {
            let property_index = (association.property_index - 1) as usize;
            if property_index >= flat.len() {
                let err = ResolvePrimaryItemGraphError::PropertyIndexOutOfRange {
                    offset,
                    item_id,
                    property_index: association.property_index,
                    available: flat.len(),
                };
                proof {
                    lemma_resolve_props_take_err(assocs@, fv, item_id, offset, i + 1);
                }
                return Err(err);
            }
            let ghost before = properties@;
            properties.push(ResolvedPrimaryItemProperty {
                essential: association.essential,
                property_index: association.property_index,
                property: flat[property_index],
            });
            proof {
                assert(fv[property_index as int] == flat@[property_index as int]@);
                assert(resolved_prop_views(properties@) =~= resolved_prop_views(before).push(properties@.last()@));
                if all_offsets_fit(flat@) {
                    assert forall|j: int| 0 <= j < properties@.len() implies (#[trigger] properties@[j]).property.offsets_fit() by {
                        if j < before.len() {
                            assert(properties@[j] == before[j]);
                        }
                    }
                }
            }
        }
        i = i + 1;
    }
    assert(assocs@.take(i as int) =~= assocs@);
    Ok(properties)
}

// ---- references ----

/// The first `n` references whose source is item `id`, in order.
pub open spec fn refs_from(rs: Seq<ReferenceEntryModel>, id: u32, n: nat) -> Seq<ReferenceEntryModel>
    decreases n,
{
    if n == 0 {
        Seq::empty()
    } else if rs[n - 1].from_item_id == id {
        refs_from(rs, id, (n - 1) as nat).push(rs[n - 1])
    } else {
        refs_from(rs, id, (n - 1) as nat)
    }
}

/// References of item `id` in an optional `iref`.
pub open spec fn item_refs(iref: Option<ReferenceBoxModel>, id: u32) -> Seq<ReferenceEntryModel> {
    match iref {
        Some(b) => refs_from(b.references, id, b.references.len()),
        None => Seq::empty(),
    }
}

pub fn references_from(iref: &Option<ItemReferenceBox>, item_id: u32) -> (r: Vec<ItemReferenceEntry>)
    ensures
        ref_entry_views(r@) == item_refs(opt_iref_view(*iref), item_id),
{
    let mut out: Vec<ItemReferenceEntry> = Vec::new();
    assert(ref_entry_views(out@) =~= Seq::<ReferenceEntryModel>::empty());
    match iref {
        None => out,
        Some(b) => {
            let ghost rs = ref_entry_views(b.references@);
            let mut i: usize = 0;
            while i < b.references.len()
                invariant
                    i <= b.references@.len(),
                    rs == ref_entry_views(b.references@),
                    ref_entry_views(out@) == refs_from(rs, item_id, i as nat),
                decreases b.references@.len() - i,
            {
                let reference = &b.references[i];
                assert(rs[i as int] == reference@);
                if reference.from_item_id == item_id {
                    let ghost before = out@;
                    let copied = copy_reference_entry(reference);
                    out.push(copied);
                    assert(ref_entry_views(out@) =~= ref_entry_views(before).push(copied@));
                }
                i = i + 1;
            }
            out
        },
    }
}

// ---- resolving the primary item ----

/// The primary item graph from the parsed `pitm`, `iloc`, `iinf`, `iprp` and optional
/// `iref`: the item's info entry and location (the first with its id), its
/// references, and its associated properties resolved against the flattened list.
pub open spec fn spec_resolve_graph(
    pitm: PrimaryItemBox,
    iloc_off: u64,
    iloc: LocationBoxModel,
    iinf_off: u64,
    iinf: InfoBoxModel,
    iprp_off: u64,
    iprp: PropertiesBoxModel,
    iref: Option<ReferenceBoxModel>,
) -> Result<ItemGraphModel, ResolvePrimaryItemGraphError> {
    let id = pitm.item_id;
    match find_first(iinf.entries, entry_has_id(id)) {
        None => Err(ResolvePrimaryItemGraphError::PrimaryItemMissingFromItemInfo { offset: iinf_off, item_id: id }),
        Some(item_info) => match find_first(iloc.items, location_has_id(id)) {
            None => Err(ResolvePrimaryItemGraphError::PrimaryItemMissingFromLocations { offset: iloc_off, item_id: id }),
            Some(location) => match spec_resolve_props(
                all_item_assocs(iprp.associations, id),
                all_flat_props(iprp.property_containers),
                id,
                iprp_off,
            ) {
                Err(e) => Err(e),
                Ok(properties) => Ok(ItemGraphModel {
                    pitm,
                    iloc,
                    iinf,
                    iprp,
                    iref,
                    primary_item: ResolvedItemModel {
                        item_id: id,
                        item_info,
                        location,
                        properties,
                        references: item_refs(iref, id),
                    },
                }),
            },
        },
    }
}

/// The primary item graph of the child boxes of a `meta` payload at `off`: the
/// first `pitm`, `iloc`, `iinf` and `iprp` children are required, an `iref` child
/// is optional.
pub open spec fn spec_resolve_children(children: Seq<BoxModel>, off: u64) -> Result<ItemGraphModel, ResolvePrimaryItemGraphError> {
    match spec_find_box(children, PITM_BOX_TYPE) {
        None => Err(ResolvePrimaryItemGraphError::MissingRequiredBox { offset: off, box_type: FourCc(PITM_BOX_TYPE) }),
        Some(pitm_box) => match spec_pitm_box(pitm_box) {
            Err(e) => Err(ResolvePrimaryItemGraphError::PrimaryItem(e)),
            Ok(pitm) => match spec_find_box(children, ILOC_BOX_TYPE) {
                None => Err(ResolvePrimaryItemGraphError::MissingRequiredBox { offset: off, box_type: FourCc(ILOC_BOX_TYPE) }),
                Some(iloc_box) => match spec_iloc_box(iloc_box) {
                    Err(e) => Err(ResolvePrimaryItemGraphError::ItemLocation(e)),
                    Ok(iloc) => match spec_find_box(children, IINF_BOX_TYPE) {
                        None => Err(ResolvePrimaryItemGraphError::MissingRequiredBox { offset: off, box_type: FourCc(IINF_BOX_TYPE) }),
                        Some(iinf_box) => match spec_iinf_box(iinf_box) {
                            Err(e) => Err(ResolvePrimaryItemGraphError::ItemInfo(e)),
                            Ok(iinf) => match spec_find_box(children, IPRP_BOX_TYPE) {
                                None => Err(ResolvePrimaryItemGraphError::MissingRequiredBox { offset: off, box_type: FourCc(IPRP_BOX_TYPE) }),
                                Some(iprp_box) => match spec_iprp_box(iprp_box) {
                                    Err(e) => Err(ResolvePrimaryItemGraphError::ItemProperties(e)),
                                    Ok(iprp) => {
                                        let iref = match spec_find_box(children, IREF_BOX_TYPE) {
                                            None => Ok(None),
                                            Some(iref_box) => match spec_iref_box(iref_box) {
                                                Err(e) => Err(e),
                                                Ok(x) => Ok(Some(x)),
                                            },
                                        };
                                        match iref {
                                            Err(e) => Err(ResolvePrimaryItemGraphError::ItemReference(e)),
                                            Ok(iref) => spec_resolve_graph(
                                                pitm,
                                                iloc_box.offset,
                                                iloc,
                                                iinf_box.offset,
                                                iinf,
                                                iprp_box.offset,
                                                iprp,
                                                iref,
                                            ),
                                        }
                                    },
                                },
                            },
                        },
                    },
                },
            },
        },
    }
}

/// The primary item graph of a `meta` box.
pub open spec fn spec_resolve_primary_item(m: MetaModel) -> Result<ItemGraphModel, ResolvePrimaryItemGraphError> {
    match spec_boxes(m.payload, m.payload_offset as int) {
        Err(e) => Err(ResolvePrimaryItemGraphError::ChildBox(e)),
        Ok(children) => spec_resolve_children(children, m.payload_offset),
    }
}

/// Well-formedness of a resolved graph: every property box it holds keeps its
/// absolute offsets within `u64`.
pub open spec fn graph_fits<'a>(g: ResolvedPrimaryItemGraph<'a>) -> bool {
    &&& containers_fit(g.iprp.property_containers@)
    &&& props_fit(g.primary_item.properties@)
}

impl<'a> MetaBox<'a> {
    /// Resolve the primary image item graph from this `meta` payload.
    pub fn resolve_primary_item(&self) -> (r: Result<ResolvedPrimaryItemGraph<'a>, ResolvePrimaryItemGraphError>)
        requires
            self.payload_offset + self.payload@.len() <= u64::MAX,
        ensures
            res_view(r) == spec_resolve_primary_item(self@),
            r matches Ok(g) ==> graph_fits(g),
    {
        let children = match self.parse_children() {
            Ok(v) => v,
            Err(e) => return Err(ResolvePrimaryItemGraphError::ChildBox(e)),
        };
        let pitm_box = match find_first_child_box(children.as_slice(), PITM_BOX_TYPE) {
            Some(b) => *b,
            None => return Err(ResolvePrimaryItemGraphError::MissingRequiredBox {
                offset: self.payload_offset,
                box_type: FourCc::new(PITM_BOX_TYPE),
            }),
        };
        let pitm = match pitm_box.parse_pitm() {
            Ok(v) => v,
            Err(e) => return Err(ResolvePrimaryItemGraphError::PrimaryItem(e)),
        };
        let iloc_box = match find_first_child_box(children.as_slice(), ILOC_BOX_TYPE) {
            Some(b) => *b,
            None => return Err(ResolvePrimaryItemGraphError::MissingRequiredBox {
                offset: self.payload_offset,
                box_type: FourCc::new(ILOC_BOX_TYPE),
            }),
        };
        let iloc = match iloc_box.parse_iloc() {
            Ok(v) => v,
            Err(e) => return Err(ResolvePrimaryItemGraphError::ItemLocation(e)),
        };
        let iinf_box = match find_first_child_box(children.as_slice(), IINF_BOX_TYPE) {
            Some(b) => *b,
            None => return Err(ResolvePrimaryItemGraphError::MissingRequiredBox {
                offset: self.payload_offset,
                box_type: FourCc::new(IINF_BOX_TYPE),
            }),
        };
        let iinf = match iinf_box.parse_iinf() {
            Ok(v) => v,
            Err(e) => return Err(ResolvePrimaryItemGraphError::ItemInfo(e)),
        };
        let iprp_box = match find_first_child_box(children.as_slice(), IPRP_BOX_TYPE) {
            Some(b) => *b,
            None => return Err(ResolvePrimaryItemGraphError::MissingRequiredBox {
                offset: self.payload_offset,
                box_type: FourCc::new(IPRP_BOX_TYPE),
            }),
        };
        let iprp = match iprp_box.parse_iprp() {
            Ok(v) => v,
            Err(e) => return Err(ResolvePrimaryItemGraphError::ItemProperties(e)),
        };
        let iref = match find_first_child_box(children.as_slice(), IREF_BOX_TYPE) {
            None => None,
            Some(b) => match b.parse_iref() {
                Ok(x) => Some(x),
                Err(e) => return Err(ResolvePrimaryItemGraphError::ItemReference(e)),
            },
        };
        let item_id = pitm.item_id;
        let item_info = match find_info_entry(&iinf.entries, item_id) {
            Some(e) => e,
            None => return Err(ResolvePrimaryItemGraphError::PrimaryItemMissingFromItemInfo {
                offset: iinf_box.offset,
                item_id,
            }),
        };
        let location = match find_location_item(&iloc.items, item_id) {
            Some(l) => l,
            None => return Err(ResolvePrimaryItemGraphError::PrimaryItemMissingFromLocations {
                offset: iloc_box.offset,
                item_id,
            }),
        };
        let references = references_from(&iref, item_id);
        let flattened_properties = flatten_properties(&iprp.property_containers);
        let assocs = item_property_associations(&iprp.associations, item_id);
        let properties = resolve_item_properties(&assocs, &flattened_properties, item_id, iprp_box.offset)?;
        Ok(ResolvedPrimaryItemGraph {
            pitm,
            iloc,
            iinf,
            iprp,
            iref,
            primary_item: ResolvedPrimaryItem { item_id, item_info, location, properties, references },
        })
    }
}

/// The first `n` references whose source is item `id` are those of the first `n`
/// entries that have `id` as their source, kept in their order.
proof fn lemma_refs_from_filters(rs: Seq<ReferenceEntryModel>, id: u32, n: nat)
    requires
        n <= rs.len(),
    ensures
        refs_from(rs, id, n) == rs.take(n as int).filter(|e: ReferenceEntryModel| e.from_item_id == id),
    decreases n,
{
    reveal_with_fuel(Seq::filter, 1);
    let pred = |e: ReferenceEntryModel| e.from_item_id == id;
    if n > 0 {
        lemma_refs_from_filters(rs, id, (n - 1) as nat);
        assert(rs.take(n as int).drop_last() =~= rs.take(n - 1));
        assert(rs.take(n as int).last() == rs[n - 1]);
    } else {
        assert(rs.take(0) =~= Seq::<ReferenceEntryModel>::empty());
    }
}

/// The references of a resolved primary item are exactly the `iref` entries whose
/// source is the primary item, in `iref` order: every one of them has the primary
/// item as its source, and none with that source is left out. Without an `iref`
/// there are none.
pub proof fn law_primary_references_are_its_own(m: MetaModel)
    ensures
        spec_resolve_primary_item(m) matches Ok(g) ==> {
            let id = g.primary_item.item_id;
            let refs = g.primary_item.references;
            &&& id == g.pitm.item_id
            &&& forall|i: int| 0 <= i < refs.len() ==> #[trigger] refs[i].from_item_id == id
            &&& refs == match g.iref {
                Some(b) => b.references.filter(|e: ReferenceEntryModel| e.from_item_id == id),
                None => Seq::<ReferenceEntryModel>::empty(),
            }
        },
{
    broadcast use vstd::seq_lib::group_filter_ensures;
    if let Ok(g) = spec_resolve_primary_item(m) {
        let id = g.primary_item.item_id;
        assert(g.primary_item.references == item_refs(g.iref, id) && id == g.pitm.item_id);
        if let Some(b) = g.iref {
            lemma_refs_from_filters(b.references, id, b.references.len());
            assert(b.references.take(b.references.len() as int) =~= b.references);
        }
    }
}

proof fn lemma_flat_props_flatten(cs: Seq<PropertyContainerModel>, n: nat)
    requires
        n <= cs.len(),
    ensures
        flat_props(cs, n) == cs.take(n as int).map_values(|c: PropertyContainerModel| c.properties).flatten(),
    decreases n,
{
    let f = |c: PropertyContainerModel| c.properties;
    if n == 0 {
        assert(cs.take(0).map_values(f) =~= Seq::<Seq<BoxModel>>::empty());
    } else {
        lemma_flat_props_flatten(cs, (n - 1) as nat);
        assert(cs.take(n as int).map_values(f) =~= cs.take(n - 1).map_values(f).push(cs[n - 1].properties));
        cs.take(n - 1).map_values(f).lemma_flatten_push(cs[n - 1].properties);
    }
}

/// Law (flattened properties): the flattened property list is the properties of
/// every container, container after container, each in its own order.
pub proof fn law_flat_props_concatenate(cs: Seq<PropertyContainerModel>)
    ensures
        all_flat_props(cs) == cs.map_values(|c: PropertyContainerModel| c.properties).flatten(),
{
    lemma_flat_props_flatten(cs, cs.len());
    assert(cs.take(cs.len() as int) =~= cs);
}

proof fn lemma_entry_assocs_flatten(es: Seq<AssociationEntryModel>, id: u32, n: nat)
    requires
        n <= es.len(),
    ensures
        entry_assocs(es, id, n) == es.take(n as int).filter(|e: AssociationEntryModel| e.item_id == id)
            .map_values(|e: AssociationEntryModel| e.associations).flatten(),
    decreases n,
{
    reveal_with_fuel(Seq::filter, 1);
    let pred = |e: AssociationEntryModel| e.item_id == id;
    let f = |e: AssociationEntryModel| e.associations;
    if n == 0 {
        assert(es.take(0).filter(pred).map_values(f) =~= Seq::<Seq<ItemPropertyAssociation>>::empty());
    } else {
        lemma_entry_assocs_flatten(es, id, (n - 1) as nat);
        let t = es.take(n as int);
        assert(t.drop_last() =~= es.take(n - 1));
        assert(t.last() == es[n - 1]);
        let prev = es.take(n - 1).filter(pred);
        if es[n - 1].item_id == id {
            assert(t.filter(pred).map_values(f) =~= prev.map_values(f).push(es[n - 1].associations));
            prev.map_values(f).lemma_flatten_push(es[n - 1].associations);
        } else {
            assert(entry_assocs(es, id, n) =~= entry_assocs(es, id, (n - 1) as nat));
        }
    }
}

/// The associations listed for item `id` in one `ipma` box: those of its entries
/// for that item, entry after entry.
pub open spec fn box_assocs_for(b: AssociationBoxModel, id: u32) -> Seq<ItemPropertyAssociation> {
    b.entries.filter(|e: AssociationEntryModel| e.item_id == id).map_values(|e: AssociationEntryModel| e.associations).flatten()
}

proof fn lemma_item_assocs_flatten(bs: Seq<AssociationBoxModel>, id: u32, n: nat)
    requires
        n <= bs.len(),
    ensures
        item_assocs(bs, id, n) == bs.take(n as int).map_values(|b: AssociationBoxModel| box_assocs_for(b, id)).flatten(),
    decreases n,
{
    let f = |b: AssociationBoxModel| box_assocs_for(b, id);
    if n == 0 {
        assert(bs.take(0).map_values(f) =~= Seq::<Seq<ItemPropertyAssociation>>::empty());
    } else {
        lemma_item_assocs_flatten(bs, id, (n - 1) as nat);
        let es = bs[n - 1].entries;
        lemma_entry_assocs_flatten(es, id, es.len());
        assert(es.take(es.len() as int) =~= es);
        assert(bs.take(n as int).map_values(f) =~= bs.take(n - 1).map_values(f).push(box_assocs_for(bs[n - 1], id)));
        bs.take(n - 1).map_values(f).lemma_flatten_push(box_assocs_for(bs[n - 1], id));
    }
}

/// Law (associations of an item): the associations of item `id` are those of every
/// `ipma` entry for `id`, box after box and entry after entry, each entry's in its
/// own order; entries for other items contribute none.
pub proof fn law_item_assocs_concatenate(bs: Seq<AssociationBoxModel>, id: u32)
    ensures
        all_item_assocs(bs, id) == bs.map_values(|b: AssociationBoxModel| box_assocs_for(b, id)).flatten(),
{
    lemma_item_assocs_flatten(bs, id, bs.len());
    assert(bs.take(bs.len() as int) =~= bs);
}

/// What an association with a nonzero index resolves to: entry `index - 1` of the
/// flattened properties, with the association's essential bit and index.
pub open spec fn resolved_from(flat: Seq<BoxModel>) -> spec_fn(ItemPropertyAssociation) -> ResolvedPropertyModel {
    |a: ItemPropertyAssociation| ResolvedPropertyModel {
        essential: a.essential,
        property_index: a.property_index,
        property: flat[a.property_index - 1],
    }
}

/// Law (property indices): resolving associations succeeds exactly when every
/// nonzero index names an entry of the flattened list (index `k` naming entry
/// `k - 1`); the result then holds one property per association with a nonzero
/// index, in order, and none for index 0.
pub proof fn law_resolve_props_by_index(assocs: Seq<ItemPropertyAssociation>, flat: Seq<BoxModel>, item_id: u32, off: u64)
    ensures
        (spec_resolve_props(assocs, flat, item_id, off) is Ok) == (forall|k: int| 0 <= k < assocs.len()
            ==> (#[trigger] assocs[k]).property_index == 0 || assocs[k].property_index <= flat.len()),
        spec_resolve_props(assocs, flat, item_id, off) matches Ok(ps) ==> ps == assocs.filter(
            |a: ItemPropertyAssociation| a.property_index != 0).map_values(resolved_from(flat)),
    decreases assocs.len(),
{
    reveal_with_fuel(Seq::filter, 1);
    let pred = |a: ItemPropertyAssociation| a.property_index != 0;
    if assocs.len() == 0 {
        assert(assocs.filter(pred).map_values(resolved_from(flat)) =~= Seq::<ResolvedPropertyModel>::empty());
    } else {
        let d = assocs.drop_last();
        law_resolve_props_by_index(d, flat, item_id, off);
        let a = assocs.last();
        if spec_resolve_props(d, flat, item_id, off) is Ok {
            if a.property_index != 0 && a.property_index - 1 < flat.len() {
                assert(assocs.filter(pred).map_values(resolved_from(flat)) =~= d.filter(pred).map_values(resolved_from(flat)).push((resolved_from(flat))(a)));
            }
        } else {
            let k = choose|k: int| 0 <= k < d.len() && !((#[trigger] d[k]).property_index == 0 || d[k].property_index <= flat.len());
            assert(assocs[k] == d[k]);
        }
        assert forall|k: int| 0 <= k < d.len() implies #[trigger] assocs[k] == d[k] by {}
        assert(assocs[assocs.len() - 1] == a);
    }
}

/// Law (the primary item's entries): the resolved primary item is the item named
/// by `pitm`; its info entry and its location are the first of their boxes with
/// that item id, and no earlier entry or location has it.
pub proof fn law_primary_item_entries_are_first(m: MetaModel)
    ensures
        spec_resolve_primary_item(m) matches Ok(g) ==> {
            let id = g.pitm.item_id;
            &&& g.primary_item.item_id == id
            &&& exists|i: int| 0 <= i < g.iinf.entries.len() && #[trigger] g.iinf.entries[i] == g.primary_item.item_info
                && g.primary_item.item_info.item_id == id
                && forall|j: int| 0 <= j < i ==> (#[trigger] g.iinf.entries[j]).item_id != id
            &&& exists|i: int| 0 <= i < g.iloc.items.len() && #[trigger] g.iloc.items[i] == g.primary_item.location
                && g.primary_item.location.item_id == id
                && forall|j: int| 0 <= j < i ==> (#[trigger] g.iloc.items[j]).item_id != id
        },
{
    if let Ok(g) = spec_resolve_primary_item(m) {
        let id = g.pitm.item_id;
        assert(find_first(g.iinf.entries, entry_has_id(id)) == Some(g.primary_item.item_info));
        assert(find_first(g.iloc.items, location_has_id(id)) == Some(g.primary_item.location));
        law_find_first(g.iinf.entries, entry_has_id(id));
        law_find_first(g.iloc.items, location_has_id(id));
        let i = choose|i: int| 0 <= i < g.iinf.entries.len() && g.iinf.entries[i] == g.primary_item.item_info
            && (entry_has_id(id))(g.primary_item.item_info)
            && forall|j: int| 0 <= j < i ==> !(entry_has_id(id))(#[trigger] g.iinf.entries[j]);
        assert(g.iinf.entries[i] == g.primary_item.item_info);
        let k = choose|k: int| 0 <= k < g.iloc.items.len() && g.iloc.items[k] == g.primary_item.location
            && (location_has_id(id))(g.primary_item.location)
            && forall|j: int| 0 <= j < k ==> !(location_has_id(id))(#[trigger] g.iloc.items[j]);
        assert(g.iloc.items[k] == g.primary_item.location);
    }
}

} // verus!
