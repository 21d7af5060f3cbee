use vstd::prelude::*;
use super::types::{
    box_views, opt_icc_view, opt_pixi_view, res_view, resolved_prop_views, Av1CodecConfigurationBox,
    Av1cModel, AvifPrimaryItemProperties, AvifPropertiesModel, BoxModel, ColorInformation,
    ColorInformationModel, ColorPropertiesModel, FourCc, HeicPreflightModel,
    HeicPrimaryItemPreflightProperties, HeicPrimaryItemProperties, HeicPropertiesModel,
    HevcDecoderConfigurationBox, HvccModel, IccModel, ImageSpatialExtentsProperty, ItemGraphModel,
    NclxColorProfile,
    MetaBox, MetaModel, PixelInformationProperty, PixiModel, PrimaryItemColorProperties,
    PrimaryItemTransformProperties, PrimaryItemTransformProperty, ResolvedPrimaryItemGraph,
    ResolvedPropertyModel, TransformsModel, AV01_ITEM_TYPE, AV1C_BOX_TYPE, CLAP_BOX_TYPE,
    COLR_BOX_TYPE, HEV1_ITEM_TYPE, HVC1_ITEM_TYPE, HVCC_BOX_TYPE, IMIR_BOX_TYPE, IROT_BOX_TYPE,
    ISPE_BOX_TYPE, META_BOX_TYPE, PIXI_BOX_TYPE,
};
use super::errors::{
    ParseBoxError, ParseMetaBoxError, ParsePrimaryAvifPropertiesError,
    ParsePrimaryHeicPropertiesError, ParsePrimaryItemTransformPropertiesError,
    ResolvePrimaryItemGraphError,
};
use super::boxes::{parse_boxes, spec_boxes};
use super::leaf::{
    spec_av1c_box, spec_clap_box, spec_colr_box, spec_imir_box, spec_irot_box, spec_ispe_box,
    spec_meta_box, spec_pixi_box,
};
use super::hvcc::spec_hvcc_box;
use super::find::{find_first_child_box, has_type, law_find_first, spec_find_box};
use super::resolve::{graph_fits, props_fit, spec_resolve_primary_item};

verus! {

/// Why the primary item graph of a file could not be reached.
pub enum GraphStageError {
    TopLevelBoxes(ParseBoxError),
    MissingMetaBox,
    Meta(ParseMetaBoxError),
    ResolvePrimaryItem(ResolvePrimaryItemGraphError),
}

/// The first top-level `meta` box of a file and its primary item graph.
pub open spec fn spec_primary_graph(input: Seq<u8>) -> Result<(MetaModel, ItemGraphModel), GraphStageError> {
    match spec_boxes(input, 0) {
        Err(e) => Err(GraphStageError::TopLevelBoxes(e)),
        Ok(top) => match spec_find_box(top, META_BOX_TYPE) {
            None => Err(GraphStageError::MissingMetaBox),
            Some(meta_box) => match spec_meta_box(meta_box) {
                Err(e) => Err(GraphStageError::Meta(e)),
                Ok(meta) => match spec_resolve_primary_item(meta) {
                    Err(e) => Err(GraphStageError::ResolvePrimaryItem(e)),
                    Ok(g) => Ok((meta, g)),
                },
            },
        },
    }
}

/// Parse the top-level boxes, the first `meta` box and its primary item graph.
pub fn primary_graph<'a>(input: &'a [u8]) -> (r: Result<(MetaBox<'a>, ResolvedPrimaryItemGraph<'a>), GraphStageError>)
    ensures
        match r {
            Ok((m, g)) => spec_primary_graph(input@) == Ok::<(MetaModel, ItemGraphModel), GraphStageError>((m@, g@))
                && graph_fits(g) && m.payload_offset + m.payload@.len() <= u64::MAX,
            Err(e) => spec_primary_graph(input@) == Err::<(MetaModel, ItemGraphModel), GraphStageError>(e),
        },
{
    let top_level = match parse_boxes(input) {
        Ok(v) => v,
        Err(e) => return Err(GraphStageError::TopLevelBoxes(e)),
    };
    let meta_box = match find_first_child_box(top_level.as_slice(), META_BOX_TYPE) {
        Some(b) => b,
        None => return Err(GraphStageError::MissingMetaBox),
    };
    let meta = match meta_box.parse_meta() {
        Ok(m) => m,
        Err(e) => return Err(GraphStageError::Meta(e)),
    };
    let resolved = match meta.resolve_primary_item() {
        Ok(g) => g,
        Err(e) => return Err(GraphStageError::ResolvePrimaryItem(e)),
    };
    Ok((meta, resolved))
}

// ---- transforms ----

/// The `clap`, `irot` and `imir` properties among the first `n` resolved
/// properties, parsed, in association order; other properties are skipped.
pub open spec fn spec_transforms(props: Seq<ResolvedPropertyModel>, n: nat) -> Result<Seq<PrimaryItemTransformProperty>, ParsePrimaryItemTransformPropertiesError>
    decreases n,
{
    if n == 0 {
        Ok(Seq::empty())
    } else {
        match spec_transforms(props, (n - 1) as nat) {
            Err(e) => Err(e),
            Ok(ts) => {
                let b = props[n - 1].property;
                let ty = b.header.box_type.0;
                if ty == CLAP_BOX_TYPE {
                    match spec_clap_box(b) {
                        Err(e) => Err(ParsePrimaryItemTransformPropertiesError::ImageCleanAperture(e)),
                        Ok(c) => Ok(ts.push(PrimaryItemTransformProperty::CleanAperture(c))),
                    }
                } else if ty == IROT_BOX_TYPE {
                    match spec_irot_box(b) {
                        Err(e) => Err(ParsePrimaryItemTransformPropertiesError::ImageRotation(e)),
                        Ok(r) => Ok(ts.push(PrimaryItemTransformProperty::Rotation(r))),
                    }
                } else if ty == IMIR_BOX_TYPE {
                    match spec_imir_box(b) {
                        Err(e) => Err(ParsePrimaryItemTransformPropertiesError::ImageMirror(e)),
                        Ok(m) => Ok(ts.push(PrimaryItemTransformProperty::Mirror(m))),
                    }
                } else {
                    Ok(ts)
                }
            },
        }
    }
}

proof fn lemma_transforms_err_persists(props: Seq<ResolvedPropertyModel>, i: nat, n: nat)
    requires
        i <= n,
        spec_transforms(props, i) is Err,
    ensures
        spec_transforms(props, n) == spec_transforms(props, i),
    decreases n - i,
{
    if i < n {
        lemma_transforms_err_persists(props, i, (n - 1) as nat);
    }
}

/// Transforms of the primary item of a file, in associated-property order.
pub open spec fn spec_parse_primary_item_transform_properties(input: Seq<u8>) -> Result<TransformsModel, ParsePrimaryItemTransformPropertiesError> {
    match spec_primary_graph(input) {
        Err(GraphStageError::TopLevelBoxes(e)) => Err(ParsePrimaryItemTransformPropertiesError::TopLevelBoxes(e)),
        Err(GraphStageError::MissingMetaBox) => Err(ParsePrimaryItemTransformPropertiesError::MissingMetaBox),
        Err(GraphStageError::Meta(e)) => Err(ParsePrimaryItemTransformPropertiesError::Meta(e)),
        Err(GraphStageError::ResolvePrimaryItem(e)) => Err(ParsePrimaryItemTransformPropertiesError::ResolvePrimaryItem(e)),
        Ok((_, g)) => {
            let props = g.primary_item.properties;
            match spec_transforms(props, props.len()) {
                Err(e) => Err(e),
                Ok(transforms) => Ok(TransformsModel { item_id: g.primary_item.item_id, transforms }),
            }
        },
    }
}

/// Parse primary-item transforms (`clap`/`irot`/`imir`) in property order.
pub fn parse_primary_item_transform_properties(input: &[u8]) -> (r: Result<PrimaryItemTransformProperties, ParsePrimaryItemTransformPropertiesError>)
    ensures
        res_view(r) == spec_parse_primary_item_transform_properties(input@),
{
    let (_meta, resolved) = match primary_graph(input) {
        Ok(v) => v,
        Err(GraphStageError::TopLevelBoxes(e)) => return Err(ParsePrimaryItemTransformPropertiesError::TopLevelBoxes(e)),
        Err(GraphStageError::MissingMetaBox) => return Err(ParsePrimaryItemTransformPropertiesError::MissingMetaBox),
        Err(GraphStageError::Meta(e)) => return Err(ParsePrimaryItemTransformPropertiesError::Meta(e)),
        Err(GraphStageError::ResolvePrimaryItem(e)) => return Err(ParsePrimaryItemTransformPropertiesError::ResolvePrimaryItem(e)),
    };
    let properties = &resolved.primary_item.properties;
    let ghost props = resolved_prop_views(properties@);
    let mut transforms: Vec<PrimaryItemTransformProperty> = Vec::new();
    let mut i: usize = 0;
    while i < properties.len()
        invariant
            i <= properties@.len(),
            props == resolved_prop_views(properties@),
            props_fit(properties@),
            spec_transforms(props, i as nat) == Ok::<Seq<PrimaryItemTransformProperty>, ParsePrimaryItemTransformPropertiesError>(transforms@),
            spec_parse_primary_item_transform_properties(input@) == match spec_transforms(props, props.len()) {
                Err(e) => Err(e),
                Ok(ts) => Ok(TransformsModel { item_id: resolved.primary_item.item_id, transforms: ts }),
            },
        decreases properties@.len() - i,
    {
        let property = &properties[i].property;
        assert(props[i as int].property == property@);
        let property_type = property.header.box_type;
        if property_type.is(CLAP_BOX_TYPE) {
            match property.parse_clap() {
                Ok(c) => transforms.push(PrimaryItemTransformProperty::CleanAperture(c)),
                Err(e) => {
                    proof { lemma_transforms_err_persists(props, (i + 1) as nat, props.len()); }
                    return Err(ParsePrimaryItemTransformPropertiesError::ImageCleanAperture(e));
                },
            }
        } else if property_type.is(IROT_BOX_TYPE) {
            match property.parse_irot() {
                Ok(rot) => transforms.push(PrimaryItemTransformProperty::Rotation(rot)),
                Err(e) => {
                    proof { lemma_transforms_err_persists(props, (i + 1) as nat, props.len()); }
                    return Err(ParsePrimaryItemTransformPropertiesError::ImageRotation(e));
                },
            }
        } else if property_type.is(IMIR_BOX_TYPE) {
            match property.parse_imir() {
                Ok(m) => transforms.push(PrimaryItemTransformProperty::Mirror(m)),
                Err(e) => {
                    proof { lemma_transforms_err_persists(props, (i + 1) as nat, props.len()); }
                    return Err(ParsePrimaryItemTransformPropertiesError::ImageMirror(e));
                },
            }
        }
        i = i + 1;
    }
    Ok(PrimaryItemTransformProperties { item_id: resolved.primary_item.item_id, transforms })
}

// ---- colour properties shared by AVIF and HEIC ----

/// Record a parsed `colr` property: NCLX/NCLC profiles and ICC profiles are kept
/// separately, a later one of a kind replacing an earlier one.
pub open spec fn add_colr(c: ColorPropertiesModel, info: ColorInformationModel) -> ColorPropertiesModel {
    match info {
        ColorInformationModel::Nclx(p) => ColorPropertiesModel { nclx: Some(p), ..c },
        ColorInformationModel::Icc(p) => ColorPropertiesModel { icc: Some(p), ..c },
    }
}

pub open spec fn empty_colr() -> ColorPropertiesModel {
    ColorPropertiesModel { nclx: None, icc: None }
}

/// Index of the first zero among `s[i..]`.
pub open spec fn first_zero_from(s: Seq<u8>, i: int) -> Option<int>
    decreases s.len() - i,
{
    if i < 0 || i >= s.len() {
        None
    } else if s[i] == 0 {
        Some(i)
    } else {
        first_zero_from(s, i + 1)
    }
}

/// With no zero found from `i` on, every byte from `i` on is nonzero.
pub proof fn lemma_first_zero_none(s: Seq<u8>, i: int)
    requires
        0 <= i,
        first_zero_from(s, i) is None,
    ensures
        forall|k: int| i <= k < s.len() ==> s[k] != 0,
    decreases s.len() - i,
{
    if i < s.len() {
        lemma_first_zero_none(s, i + 1);
    }
}

pub(crate) fn find_zero_bits(bits: &Vec<u8>) -> (r: Option<usize>)
    ensures
        match r {
            Some(i) => first_zero_from(bits@, 0) == Some(i as int),
            None => first_zero_from(bits@, 0) is None,
        },
{
    let mut i: usize = 0;
    while i < bits.len()
        invariant
            i <= bits@.len(),
            first_zero_from(bits@, 0) == first_zero_from(bits@, i as int),
        decreases bits@.len() - i,
    {
        if bits[i] == 0 {
            return Some(i);
        }
        i = i + 1;
    }
    None
}

// ---- which property supplies each result ----

/// The type of property `i`.
pub open spec fn prop_type(props: Seq<ResolvedPropertyModel>, i: int) -> [u8; 4] {
    props[i].property.header.box_type.0
}

/// Property `i` is the only one of type `ty` among the first `n`.
pub open spec fn only_of_type(props: Seq<ResolvedPropertyModel>, n: nat, ty: [u8; 4], i: int) -> bool {
    &&& 0 <= i < n
    &&& prop_type(props, i) == ty
    &&& forall|j: int| 0 <= j < n && j != i ==> #[trigger] prop_type(props, j) != ty
}

/// None of the first `n` properties has type `ty`.
pub open spec fn none_of_type(props: Seq<ResolvedPropertyModel>, n: nat, ty: [u8; 4]) -> bool {
    forall|j: int| 0 <= j < n ==> #[trigger] prop_type(props, j) != ty
}

/// `o` holds a value exactly when one of the first `n` properties has type `ty`,
/// and the value is what `parse` gives for that property.
pub open spec fn picked_once<T, E>(props: Seq<ResolvedPropertyModel>, n: nat, ty: [u8; 4], o: Option<T>, parse: spec_fn(BoxModel) -> Result<T, E>) -> bool {
    match o {
        Some(v) => exists|i: int| #[trigger] only_of_type(props, n, ty, i) && parse(props[i].property) == Ok::<T, E>(v),
        None => none_of_type(props, n, ty),
    }
}

/// The colour information of property `i`, where it is a `colr` property that
/// parses.
pub open spec fn colr_info_at(props: Seq<ResolvedPropertyModel>, i: int) -> Option<ColorInformationModel> {
    if prop_type(props, i) == COLR_BOX_TYPE {
        match spec_colr_box(props[i].property) {
            Ok(c) => Some(c.information),
            Err(_) => None,
        }
    } else {
        None
    }
}

/// The NCLX profile of the last of the first `n` properties that gives one.
pub open spec fn latest_nclx(props: Seq<ResolvedPropertyModel>, n: nat) -> Option<NclxColorProfile>
    decreases n,
{
    if n == 0 {
        None
    } else {
        match colr_info_at(props, n - 1) {
            Some(ColorInformationModel::Nclx(x)) => Some(x),
            _ => latest_nclx(props, (n - 1) as nat),
        }
    }
}

/// The ICC profile of the last of the first `n` properties that gives one.
pub open spec fn latest_icc(props: Seq<ResolvedPropertyModel>, n: nat) -> Option<IccModel>
    decreases n,
{
    if n == 0 {
        None
    } else {
        match colr_info_at(props, n - 1) {
            Some(ColorInformationModel::Icc(x)) => Some(x),
            _ => latest_icc(props, (n - 1) as nat),
        }
    }
}

pub proof fn lemma_picked_step<T, E>(props: Seq<ResolvedPropertyModel>, n: nat, ty: [u8; 4], prev: Option<T>, next: Option<T>, parse: spec_fn(BoxModel) -> Result<T, E>)
    requires
        0 < n <= props.len(),
        picked_once(props, (n - 1) as nat, ty, prev, parse),
        prop_type(props, n - 1) == ty ==> prev is None && (parse(props[n - 1].property) matches Ok(v) && next == Some(v)),
        prop_type(props, n - 1) != ty ==> next == prev,
    ensures
        picked_once(props, n, ty, next, parse),
{
    if prop_type(props, n - 1) == ty {
        assert(only_of_type(props, n, ty, n - 1));
    } else {
        match prev {
            Some(v) => {
                let i = choose|i: int| #[trigger] only_of_type(props, (n - 1) as nat, ty, i) && parse(props[i].property) == Ok::<T, E>(v);
                assert(only_of_type(props, n, ty, i));
            },
            None => {},
        }
    }
}

pub proof fn lemma_colr_step(c0: ColorPropertiesModel, c1: ColorPropertiesModel, props: Seq<ResolvedPropertyModel>, n: nat)
    requires
        0 < n <= props.len(),
        c0.nclx == latest_nclx(props, (n - 1) as nat),
        c0.icc == latest_icc(props, (n - 1) as nat),
        match colr_info_at(props, n - 1) {
            Some(info) => c1 == add_colr(c0, info),
            None => c1 == c0,
        },
    ensures
        c1.nclx == latest_nclx(props, n),
        c1.icc == latest_icc(props, n),
{
}

// ---- AVIF ----

/// Properties gathered while scanning the primary AVIF item's properties.
pub struct AvifScan {
    pub av1c: Option<Av1cModel>,
    pub ispe: Option<ImageSpatialExtentsProperty>,
    pub pixi: Option<PixiModel>,
    pub colr: ColorPropertiesModel,
}

pub open spec fn opt_av1c_view(o: Option<Av1CodecConfigurationBox>) -> Option<Av1cModel> {
    match o {
        Some(v) => Some(v@),
        None => None,
    }
}

/// Scan the first `n` resolved properties: `av1C`, `ispe` and `pixi` are parsed and
/// may occur once each, `colr` properties are parsed and recorded, others skipped.
pub open spec fn spec_avif_scan(props: Seq<ResolvedPropertyModel>, item_id: u32, n: nat) -> Result<AvifScan, ParsePrimaryAvifPropertiesError>
    decreases n,
{
    if n == 0 {
        Ok(AvifScan { av1c: None, ispe: None, pixi: None, colr: empty_colr() })
    } else {
        match spec_avif_scan(props, item_id, (n - 1) as nat) {
            Err(e) => Err(e),
            Ok(st) => {
                let b = props[n - 1].property;
                let ty = b.header.box_type;
                if ty.0 == AV1C_BOX_TYPE {
                    if st.av1c is Some {
                        Err(ParsePrimaryAvifPropertiesError::DuplicateProperty { item_id, property_type: ty })
                    } else {
                        match spec_av1c_box(b) {
                            Err(e) => Err(ParsePrimaryAvifPropertiesError::Av1Codec(e)),
                            Ok(v) => Ok(AvifScan { av1c: Some(v), ..st }),
                        }
                    }
                } else if ty.0 == ISPE_BOX_TYPE {
                    if st.ispe is Some {
                        Err(ParsePrimaryAvifPropertiesError::DuplicateProperty { item_id, property_type: ty })
                    } else {
                        match spec_ispe_box(b) {
                            Err(e) => Err(ParsePrimaryAvifPropertiesError::ImageSpatialExtents(e)),
                            Ok(v) => Ok(AvifScan { ispe: Some(v), ..st }),
                        }
                    }
                } else if ty.0 == PIXI_BOX_TYPE {
                    if st.pixi is Some {
                        Err(ParsePrimaryAvifPropertiesError::DuplicateProperty { item_id, property_type: ty })
                    } else {
                        match spec_pixi_box(b) {
                            Err(e) => Err(ParsePrimaryAvifPropertiesError::PixelInformation(e)),
                            Ok(v) => Ok(AvifScan { pixi: Some(v), ..st }),
                        }
                    }
                } else if ty.0 == COLR_BOX_TYPE {
                    match spec_colr_box(b) {
                        Err(e) => Err(ParsePrimaryAvifPropertiesError::ColorInformation(e)),
                        Ok(c) => Ok(AvifScan { colr: add_colr(st.colr, c.information), ..st }),
                    }
                } else {
                    Ok(st)
                }
            },
        }
    }
}

proof fn lemma_avif_scan_err_persists(props: Seq<ResolvedPropertyModel>, item_id: u32, i: nat, n: nat)
    requires
        i <= n,
        spec_avif_scan(props, item_id, i) is Err,
    ensures
        spec_avif_scan(props, item_id, n) == spec_avif_scan(props, item_id, i),
    decreases n - i,
{
    if i < n {
        lemma_avif_scan_err_persists(props, item_id, i, (n - 1) as nat);
    }
}

/// The checks after the scan: `av1C`, `ispe` and `pixi` are required, the extent
/// must be nonzero, and `pixi` must list at least one channel, none of zero depth.
pub open spec fn spec_avif_finish(st: AvifScan, item_id: u32) -> Result<AvifPropertiesModel, ParsePrimaryAvifPropertiesError> {
    match st.av1c {
        None => Err(ParsePrimaryAvifPropertiesError::MissingRequiredProperty { item_id, property_type: FourCc(AV1C_BOX_TYPE) }),
        Some(av1c) => match st.ispe {
            None => Err(ParsePrimaryAvifPropertiesError::MissingRequiredProperty { item_id, property_type: FourCc(ISPE_BOX_TYPE) }),
            Some(ispe) => match st.pixi {
                None => Err(ParsePrimaryAvifPropertiesError::MissingRequiredProperty { item_id, property_type: FourCc(PIXI_BOX_TYPE) }),
                Some(pixi) => if ispe.width == 0 || ispe.height == 0 {
                    Err(ParsePrimaryAvifPropertiesError::InvalidImageExtent { item_id, width: ispe.width, height: ispe.height })
                } else if pixi.bits_per_channel.len() == 0 {
                    Err(ParsePrimaryAvifPropertiesError::InvalidPixiChannelCount { item_id, channel_count: 0 })
                } else {
                    match first_zero_from(pixi.bits_per_channel, 0) {
                        Some(i) => Err(ParsePrimaryAvifPropertiesError::InvalidPixiBitsPerChannel { item_id, channel_index: i as usize }),
                        None => Ok(AvifPropertiesModel { item_id, av1c, ispe, pixi, colr: st.colr }),
                    }
                },
            },
        },
    }
}

/// Primary AVIF properties of a file: the primary item must be an `av01` item.
pub open spec fn spec_parse_primary_avif_item_properties(input: Seq<u8>) -> Result<AvifPropertiesModel, ParsePrimaryAvifPropertiesError> {
    match spec_primary_graph(input) {
        Err(GraphStageError::TopLevelBoxes(e)) => Err(ParsePrimaryAvifPropertiesError::TopLevelBoxes(e)),
        Err(GraphStageError::MissingMetaBox) => Err(ParsePrimaryAvifPropertiesError::MissingMetaBox),
        Err(GraphStageError::Meta(e)) => Err(ParsePrimaryAvifPropertiesError::Meta(e)),
        Err(GraphStageError::ResolvePrimaryItem(e)) => Err(ParsePrimaryAvifPropertiesError::ResolvePrimaryItem(e)),
        Ok((_, g)) => {
            let item_id = g.primary_item.item_id;
            match g.primary_item.item_info.item_type {
                None => Err(ParsePrimaryAvifPropertiesError::MissingPrimaryItemType { item_id }),
                Some(item_type) => if item_type.0 != AV01_ITEM_TYPE {
                    Err(ParsePrimaryAvifPropertiesError::UnexpectedPrimaryItemType { item_id, actual: item_type })
                } else {
                    let props = g.primary_item.properties;
                    match spec_avif_scan(props, item_id, props.len()) {
                        Err(e) => Err(e),
                        Ok(st) => spec_avif_finish(st, item_id),
                    }
                },
            }
        },
    }
}

/// Record a parsed `colr` property into the colour properties.
pub(crate) fn add_colr_exec(colr: &mut PrimaryItemColorProperties, information: ColorInformation)
    ensures
        final(colr)@ == add_colr(old(colr)@, information@),
{
    match information {
        ColorInformation::Nclx(profile) => {
            colr.nclx = Some(profile);
        },
        ColorInformation::Icc(profile) => {
            colr.icc = Some(profile);
        },
    }
}

/// Parse and validate primary AVIF properties needed before decode.
#[verifier::rlimit(80)]
pub fn parse_primary_avif_item_properties(input: &[u8]) -> (r: Result<AvifPrimaryItemProperties, ParsePrimaryAvifPropertiesError>)
    ensures
        res_view(r) == spec_parse_primary_avif_item_properties(input@),
{
    let (_meta, resolved) = match primary_graph(input) {
        Ok(v) => v,
        Err(GraphStageError::TopLevelBoxes(e)) => return Err(ParsePrimaryAvifPropertiesError::TopLevelBoxes(e)),
        Err(GraphStageError::MissingMetaBox) => return Err(ParsePrimaryAvifPropertiesError::MissingMetaBox),
        Err(GraphStageError::Meta(e)) => return Err(ParsePrimaryAvifPropertiesError::Meta(e)),
        Err(GraphStageError::ResolvePrimaryItem(e)) => return Err(ParsePrimaryAvifPropertiesError::ResolvePrimaryItem(e)),
    };
    let item_id = resolved.primary_item.item_id;
    let item_type = match resolved.primary_item.item_info.item_type {
        Some(t) => t,
        None => return Err(ParsePrimaryAvifPropertiesError::MissingPrimaryItemType { item_id }),
    };
    if !item_type.is(AV01_ITEM_TYPE) {
        return Err(ParsePrimaryAvifPropertiesError::UnexpectedPrimaryItemType { item_id, actual: item_type });
    }
    let properties = &resolved.primary_item.properties;
    let ghost props = resolved_prop_views(properties@);
    let mut av1c: Option<Av1CodecConfigurationBox> = None;
    let mut ispe: Option<ImageSpatialExtentsProperty> = None;
    let mut pixi: Option<PixelInformationProperty> = None;
    let mut colr = PrimaryItemColorProperties::default();
    let mut i: usize = 0;
    while i < properties.len()
        invariant
            i <= properties@.len(),
            props == resolved_prop_views(properties@),
            props_fit(properties@),
            spec_avif_scan(props, item_id, i as nat) == Ok::<AvifScan, ParsePrimaryAvifPropertiesError>(AvifScan {
                av1c: opt_av1c_view(av1c),
                ispe,
                pixi: opt_pixi_view(pixi),
                colr: colr@,
            }),
            spec_parse_primary_avif_item_properties(input@) == match spec_avif_scan(props, item_id, props.len()) {
                Err(e) => Err(e),
                Ok(st) => spec_avif_finish(st, item_id),
            },
        decreases properties@.len() - i,
    {
        let property = &properties[i].property;
        assert(props[i as int].property == property@);
        let property_type = property.header.box_type;
        if property_type.is(AV1C_BOX_TYPE) {
            if av1c.is_some() {
                proof { lemma_avif_scan_err_persists(props, item_id, (i + 1) as nat, props.len()); }
                return Err(ParsePrimaryAvifPropertiesError::DuplicateProperty { item_id, property_type });
            }
            match property.parse_av1c() {
                Ok(v) => av1c = Some(v),
                Err(e) => {
                    proof { lemma_avif_scan_err_persists(props, item_id, (i + 1) as nat, props.len()); }
                    return Err(ParsePrimaryAvifPropertiesError::Av1Codec(e));
                },
            }
        } else if property_type.is(ISPE_BOX_TYPE) {
            if ispe.is_some() {
                proof { lemma_avif_scan_err_persists(props, item_id, (i + 1) as nat, props.len()); }
                return Err(ParsePrimaryAvifPropertiesError::DuplicateProperty { item_id, property_type });
            }
            match property.parse_ispe() {
                Ok(v) => ispe = Some(v),
                Err(e) => {
                    proof { lemma_avif_scan_err_persists(props, item_id, (i + 1) as nat, props.len()); }
                    return Err(ParsePrimaryAvifPropertiesError::ImageSpatialExtents(e));
                },
            }
        } else if property_type.is(PIXI_BOX_TYPE) {
            if pixi.is_some() {
                proof { lemma_avif_scan_err_persists(props, item_id, (i + 1) as nat, props.len()); }
                return Err(ParsePrimaryAvifPropertiesError::DuplicateProperty { item_id, property_type });
            }
            match property.parse_pixi() {
                Ok(v) => pixi = Some(v),
                Err(e) => {
                    proof { lemma_avif_scan_err_persists(props, item_id, (i + 1) as nat, props.len()); }
                    return Err(ParsePrimaryAvifPropertiesError::PixelInformation(e));
                },
            }
        } else if property_type.is(COLR_BOX_TYPE) {
            match property.parse_colr() {
                Ok(parsed) => add_colr_exec(&mut colr, parsed.information),
                Err(e) => {
                    proof { lemma_avif_scan_err_persists(props, item_id, (i + 1) as nat, props.len()); }
                    return Err(ParsePrimaryAvifPropertiesError::ColorInformation(e));
                },
            }
        }
        i = i + 1;
    }
    let av1c = match av1c {
        Some(v) => v,
        None => return Err(ParsePrimaryAvifPropertiesError::MissingRequiredProperty { item_id, property_type: FourCc::new(AV1C_BOX_TYPE) }),
    };
    let ispe = match ispe {
        Some(v) => v,
        None => return Err(ParsePrimaryAvifPropertiesError::MissingRequiredProperty { item_id, property_type: FourCc::new(ISPE_BOX_TYPE) }),
    };
    let pixi = match pixi {
        Some(v) => v,
        None => return Err(ParsePrimaryAvifPropertiesError::MissingRequiredProperty { item_id, property_type: FourCc::new(PIXI_BOX_TYPE) }),
    };
    if ispe.width == 0 || ispe.height == 0 {
        return Err(ParsePrimaryAvifPropertiesError::InvalidImageExtent { item_id, width: ispe.width, height: ispe.height });
    }
    if pixi.bits_per_channel.len() == 0 {
        return Err(ParsePrimaryAvifPropertiesError::InvalidPixiChannelCount { item_id, channel_count: 0 });
    }
    if let Some(channel_index) = find_zero_bits(&pixi.bits_per_channel) {
        return Err(ParsePrimaryAvifPropertiesError::InvalidPixiBitsPerChannel { item_id, channel_index });
    }
    Ok(AvifPrimaryItemProperties { item_id, av1c, ispe, pixi, colr })
}

/// AVIF properties that are returned describe a nonempty image whose `pixi`
/// property lists at least one channel and no channel of zero bits.
pub proof fn law_avif_properties_are_validated(input: Seq<u8>)
    ensures
        spec_parse_primary_avif_item_properties(input) matches Ok(p) ==> {
            &&& p.ispe.width > 0 && p.ispe.height > 0
            &&& p.pixi.bits_per_channel.len() > 0
            &&& forall|i: int| 0 <= i < p.pixi.bits_per_channel.len() ==> p.pixi.bits_per_channel[i] != 0
        },
{
    match spec_primary_graph(input) {
        Ok((_, g)) => {
            let props = g.primary_item.properties;
            match spec_avif_scan(props, g.primary_item.item_id, props.len()) {
                Ok(st) => match st.pixi {
                    Some(px) => if first_zero_from(px.bits_per_channel, 0) is None {
                        lemma_first_zero_none(px.bits_per_channel, 0);
                    },
                    None => {},
                },
                Err(_) => {},
            }
        },
        Err(_) => {},
    }
}

proof fn lemma_avif_scan_picks(props: Seq<ResolvedPropertyModel>, item_id: u32, n: nat)
    requires
        n <= props.len(),
    ensures
        spec_avif_scan(props, item_id, n) matches Ok(st) ==> {
            &&& picked_once(props, n, AV1C_BOX_TYPE, st.av1c, |b: BoxModel| spec_av1c_box(b))
            &&& picked_once(props, n, ISPE_BOX_TYPE, st.ispe, |b: BoxModel| spec_ispe_box(b))
            &&& picked_once(props, n, PIXI_BOX_TYPE, st.pixi, |b: BoxModel| spec_pixi_box(b))
            &&& st.colr.nclx == latest_nclx(props, n)
            &&& st.colr.icc == latest_icc(props, n)
        },
    decreases n,
{
    if n > 0 {
        lemma_avif_scan_picks(props, item_id, (n - 1) as nat);
        if let Ok(st) = spec_avif_scan(props, item_id, n) {
            let st0 = spec_avif_scan(props, item_id, (n - 1) as nat)->Ok_0;
            lemma_picked_step(props, n, AV1C_BOX_TYPE, st0.av1c, st.av1c, |b: BoxModel| spec_av1c_box(b));
            lemma_picked_step(props, n, ISPE_BOX_TYPE, st0.ispe, st.ispe, |b: BoxModel| spec_ispe_box(b));
            lemma_picked_step(props, n, PIXI_BOX_TYPE, st0.pixi, st.pixi, |b: BoxModel| spec_pixi_box(b));
            lemma_colr_step(st0.colr, st.colr, props, n);
        }
    }
}

/// Law (AVIF property choice): returned AVIF properties come from the primary
/// item's own properties: its `av1C`, `ispe` and `pixi` are the parses of the one
/// property of each of those types associated with it, and its colour profiles are
/// those of the last associated `colr` property of each kind (NCLX or ICC).
pub proof fn law_avif_properties_come_from_the_item(input: Seq<u8>)
    ensures
        spec_parse_primary_avif_item_properties(input) matches Ok(p) ==> {
            let g = spec_primary_graph(input)->Ok_0.1;
            let props = g.primary_item.properties;
            &&& p.item_id == g.primary_item.item_id
            &&& picked_once(props, props.len(), AV1C_BOX_TYPE, Some(p.av1c), |b: BoxModel| spec_av1c_box(b))
            &&& picked_once(props, props.len(), ISPE_BOX_TYPE, Some(p.ispe), |b: BoxModel| spec_ispe_box(b))
            &&& picked_once(props, props.len(), PIXI_BOX_TYPE, Some(p.pixi), |b: BoxModel| spec_pixi_box(b))
            &&& p.colr.nclx == latest_nclx(props, props.len())
            &&& p.colr.icc == latest_icc(props, props.len())
        },
{
    if let Ok((_, g)) = spec_primary_graph(input) {
        let props = g.primary_item.properties;
        lemma_avif_scan_picks(props, g.primary_item.item_id, props.len());
    }
}

/// Positions, in order, of the `clap`, `irot` and `imir` properties among the
/// first `n`.
pub open spec fn transform_positions(props: Seq<ResolvedPropertyModel>, n: nat) -> Seq<int> {
    Seq::new(n, |i: int| i).filter(|i: int| {
        let ty = prop_type(props, i);
        ty == CLAP_BOX_TYPE || ty == IROT_BOX_TYPE || ty == IMIR_BOX_TYPE
    })
}

/// The transform that a `clap`, `irot` or `imir` box parses to.
pub open spec fn parsed_transform(b: BoxModel) -> Option<PrimaryItemTransformProperty> {
    let ty = b.header.box_type.0;
    if ty == CLAP_BOX_TYPE {
        match spec_clap_box(b) {
            Ok(c) => Some(PrimaryItemTransformProperty::CleanAperture(c)),
            Err(_) => None,
        }
    } else if ty == IROT_BOX_TYPE {
        match spec_irot_box(b) {
            Ok(r) => Some(PrimaryItemTransformProperty::Rotation(r)),
            Err(_) => None,
        }
    } else if ty == IMIR_BOX_TYPE {
        match spec_imir_box(b) {
            Ok(m) => Some(PrimaryItemTransformProperty::Mirror(m)),
            Err(_) => None,
        }
    } else {
        None
    }
}

proof fn lemma_transforms_follow_positions(props: Seq<ResolvedPropertyModel>, n: nat)
    requires
        n <= props.len(),
    ensures
        spec_transforms(props, n) matches Ok(ts) ==> {
            let pos = transform_positions(props, n);
            &&& ts.len() == pos.len()
            &&& forall|k: int| 0 <= k < ts.len() ==> Some(#[trigger] ts[k]) == parsed_transform(props[pos[k]].property)
        },
    decreases n,
{
    reveal_with_fuel(Seq::filter, 1);
    if n > 0 {
        lemma_transforms_follow_positions(props, (n - 1) as nat);
        let all = Seq::new(n, |i: int| i);
        assert(all.drop_last() =~= Seq::new((n - 1) as nat, |i: int| i));
        assert(all.last() == n - 1);
        if let Ok(ts) = spec_transforms(props, n) {
            let ts0 = spec_transforms(props, (n - 1) as nat)->Ok_0;
            let pos0 = transform_positions(props, (n - 1) as nat);
            let pos = transform_positions(props, n);
            let ty = prop_type(props, n - 1);
            if ty == CLAP_BOX_TYPE || ty == IROT_BOX_TYPE || ty == IMIR_BOX_TYPE {
                assert(pos == pos0.push(n - 1));
                assert forall|k: int| 0 <= k < ts.len() implies Some(#[trigger] ts[k]) == parsed_transform(props[pos[k]].property) by {
                    if k < ts0.len() {
                        assert(ts[k] == ts0[k]);
                        assert(pos[k] == pos0[k]);
                    }
                }
            } else {
                assert(pos == pos0);
                assert(ts == ts0);
            }
        }
    }
}

/// Law (transform order): the transforms returned for the primary item are its
/// associated `clap`, `irot` and `imir` properties, every one of them, each parsed
/// and in association order; other properties give none.
pub proof fn law_transforms_follow_association_order(input: Seq<u8>)
    ensures
        spec_parse_primary_item_transform_properties(input) matches Ok(t) ==> {
            let g = spec_primary_graph(input)->Ok_0.1;
            let props = g.primary_item.properties;
            let pos = transform_positions(props, props.len());
            &&& t.item_id == g.primary_item.item_id
            &&& t.transforms.len() == pos.len()
            &&& forall|k: int| 0 <= k < t.transforms.len() ==> Some(#[trigger] t.transforms[k])
                == parsed_transform(props[pos[k]].property)
        },
{
    if let Ok((_, g)) = spec_primary_graph(input) {
        let props = g.primary_item.properties;
        lemma_transforms_follow_positions(props, props.len());
    }
}

/// Law (the `meta` box used): the primary item graph of a file is read from its
/// first top-level `meta` box: that box is one of the top-level boxes, no box before
/// it is a `meta` box, and the graph is the one resolved from its contents. A file
/// whose top-level boxes parse but hold no `meta` box has no graph.
pub proof fn law_primary_graph_uses_first_meta(input: Seq<u8>)
    ensures
        spec_primary_graph(input) matches Ok((meta, g)) ==> {
            let top = spec_boxes(input, 0)->Ok_0;
            exists|i: int| 0 <= i < top.len() && (#[trigger] top[i]).header.box_type.0 == META_BOX_TYPE
                && (forall|j: int| 0 <= j < i ==> (#[trigger] top[j]).header.box_type.0 != META_BOX_TYPE)
                && spec_meta_box(top[i]) == Ok::<MetaModel, ParseMetaBoxError>(meta)
                && spec_resolve_primary_item(meta) == Ok::<ItemGraphModel, ResolvePrimaryItemGraphError>(g)
        },
        spec_boxes(input, 0) matches Ok(top) && (forall|j: int| 0 <= j < top.len() ==> (#[trigger] top[j]).header.box_type.0 != META_BOX_TYPE)
            ==> spec_primary_graph(input) == Err::<(MetaModel, ItemGraphModel), GraphStageError>(GraphStageError::MissingMetaBox),
{
    if let Ok(top) = spec_boxes(input, 0) {
        law_find_first(top, has_type(META_BOX_TYPE));
        if let Some(x) = spec_find_box(top, META_BOX_TYPE) {
            let i = choose|i: int| 0 <= i < top.len() && top[i] == x && (has_type(META_BOX_TYPE))(x)
                && forall|j: int| 0 <= j < i ==> !(has_type(META_BOX_TYPE))(#[trigger] top[j]);
            assert(top[i].header.box_type.0 == META_BOX_TYPE);
        } else {
            if exists|j: int| 0 <= j < top.len() && (#[trigger] top[j]).header.box_type.0 == META_BOX_TYPE {
                let j = choose|j: int| 0 <= j < top.len() && (#[trigger] top[j]).header.box_type.0 == META_BOX_TYPE;
                assert(!(has_type(META_BOX_TYPE))(top[j]));
            }
        }
    }
}

} // verus!
