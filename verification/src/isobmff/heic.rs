use vstd::prelude::*;
use super::types::{
    opt_pixi_view, res_view, resolved_prop_views, FourCc, HeicPreflightModel,
    HeicPrimaryItemPreflightProperties, HeicPrimaryItemProperties, HeicPropertiesModel,
    HevcDecoderConfigurationBox, HvccModel, ImageSpatialExtentsProperty, PixelInformationProperty,
    PixiModel, BoxModel, ColorPropertiesModel, PrimaryItemColorProperties, ResolvedPropertyModel,
    COLR_BOX_TYPE, HEV1_ITEM_TYPE, HVC1_ITEM_TYPE, HVCC_BOX_TYPE, ISPE_BOX_TYPE, PIXI_BOX_TYPE,
};
use super::errors::ParsePrimaryHeicPropertiesError;
use super::leaf::{spec_colr_box, spec_ispe_box, spec_pixi_box};
use super::hvcc::spec_hvcc_box;
use super::resolve::props_fit;
use super::primary::{
    add_colr, add_colr_exec, empty_colr, find_zero_bits, first_zero_from, latest_icc, latest_nclx,
    lemma_colr_step, lemma_first_zero_none, lemma_picked_step, picked_once, primary_graph,
    spec_primary_graph, GraphStageError,
};

verus! {

/// Properties gathered while scanning the primary HEIC item's properties.
pub struct HeicScan {
    pub hvcc: Option<HvccModel>,
    pub ispe: Option<ImageSpatialExtentsProperty>,
    pub pixi: Option<PixiModel>,
    pub colr: ColorPropertiesModel,
}

pub open spec fn opt_hvcc_view(o: Option<HevcDecoderConfigurationBox>) -> Option<HvccModel> {
    match o {
        Some(v) => Some(v@),
        None => None,
    }
}

/// Scan the first `n` resolved properties: `hvcC`, `ispe` and `pixi` are parsed and
/// may occur once each, `colr` properties are parsed and recorded, others skipped.
pub open spec fn spec_heic_scan(props: Seq<ResolvedPropertyModel>, item_id: u32, n: nat) -> Result<HeicScan, ParsePrimaryHeicPropertiesError>
    decreases n,
{
    if n == 0 {
        Ok(HeicScan { hvcc: None, ispe: None, pixi: None, colr: empty_colr() })
    } else {
        match spec_heic_scan(props, item_id, (n - 1) as nat) {
            Err(e) => Err(e),
            Ok(st) => {
                let b = props[n - 1].property;
                let ty = b.header.box_type;
                if ty.0 == HVCC_BOX_TYPE {
                    if st.hvcc is Some {
                        Err(ParsePrimaryHeicPropertiesError::DuplicateProperty { item_id, property_type: ty })
                    } else {
                        match spec_hvcc_box(b) {
                            Err(e) => Err(ParsePrimaryHeicPropertiesError::HevcCodec(e)),
                            Ok(v) => Ok(HeicScan { hvcc: Some(v), ..st }),
                        }
                    }
                } else if ty.0 == ISPE_BOX_TYPE {
                    if st.ispe is Some {
                        Err(ParsePrimaryHeicPropertiesError::DuplicateProperty { item_id, property_type: ty })
                    } else {
                        match spec_ispe_box(b) {
                            Err(e) => Err(ParsePrimaryHeicPropertiesError::ImageSpatialExtents(e)),
                            Ok(v) => Ok(HeicScan { ispe: Some(v), ..st }),
                        }
                    }
                } else if ty.0 == PIXI_BOX_TYPE {
                    if st.pixi is Some {
                        Err(ParsePrimaryHeicPropertiesError::DuplicateProperty { item_id, property_type: ty })
                    } else {
                        match spec_pixi_box(b) {
                            Err(e) => Err(ParsePrimaryHeicPropertiesError::PixelInformation(e)),
                            Ok(v) => Ok(HeicScan { pixi: Some(v), ..st }),
                        }
                    }
                } else if ty.0 == COLR_BOX_TYPE {
                    match spec_colr_box(b) {
                        Err(e) => Err(ParsePrimaryHeicPropertiesError::ColorInformation(e)),
                        Ok(c) => Ok(HeicScan { colr: add_colr(st.colr, c.information), ..st }),
                    }
                } else {
                    Ok(st)
                }
            },
        }
    }
}

proof fn lemma_heic_scan_err_persists(props: Seq<ResolvedPropertyModel>, item_id: u32, i: nat, n: nat)
    requires
        i <= n,
        spec_heic_scan(props, item_id, i) is Err,
    ensures
        spec_heic_scan(props, item_id, n) == spec_heic_scan(props, item_id, i),
    decreases n - i,
{
    if i < n {
        lemma_heic_scan_err_persists(props, item_id, i, (n - 1) as nat);
    }
}

/// The checks after the scan: `hvcC` and `ispe` are required, the extent must be
/// nonzero, and a `pixi`, where present, must list at least one channel, none of
/// zero depth.
pub open spec fn spec_heic_finish(st: HeicScan, item_id: u32) -> Result<HeicPreflightModel, ParsePrimaryHeicPropertiesError> {
    match st.hvcc {
        None => Err(ParsePrimaryHeicPropertiesError::MissingRequiredProperty { item_id, property_type: FourCc(HVCC_BOX_TYPE) }),
        Some(hvcc) => match st.ispe {
            None => Err(ParsePrimaryHeicPropertiesError::MissingRequiredProperty { item_id, property_type: FourCc(ISPE_BOX_TYPE) }),
            Some(ispe) => if ispe.width == 0 || ispe.height == 0 {
                Err(ParsePrimaryHeicPropertiesError::InvalidImageExtent { item_id, width: ispe.width, height: ispe.height })
            } else {
                match st.pixi {
                    Some(pixi) => if pixi.bits_per_channel.len() == 0 {
                        Err(ParsePrimaryHeicPropertiesError::InvalidPixiChannelCount { item_id, channel_count: 0 })
                    } else {
                        match first_zero_from(pixi.bits_per_channel, 0) {
                            Some(i) => Err(ParsePrimaryHeicPropertiesError::InvalidPixiBitsPerChannel { item_id, channel_index: i as usize }),
                            None => Ok(HeicPreflightModel { item_id, hvcc, ispe, pixi: st.pixi, colr: st.colr }),
                        }
                    },
                    None => Ok(HeicPreflightModel { item_id, hvcc, ispe, pixi: None, colr: st.colr }),
                }
            },
        },
    }
}

/// Preflight properties of the primary HEIC item of a file: the primary item must
/// be an `hvc1` or `hev1` item.
pub open spec fn spec_parse_primary_heic_item_preflight_properties(input: Seq<u8>) -> Result<HeicPreflightModel, ParsePrimaryHeicPropertiesError> {
    match spec_primary_graph(input) {
        Err(GraphStageError::TopLevelBoxes(e)) => Err(ParsePrimaryHeicPropertiesError::TopLevelBoxes(e)),
        Err(GraphStageError::MissingMetaBox) => Err(ParsePrimaryHeicPropertiesError::MissingMetaBox),
        Err(GraphStageError::Meta(e)) => Err(ParsePrimaryHeicPropertiesError::Meta(e)),
        Err(GraphStageError::ResolvePrimaryItem(e)) => Err(ParsePrimaryHeicPropertiesError::ResolvePrimaryItem(e)),
        Ok((_, g)) => {
            let item_id = g.primary_item.item_id;
            match g.primary_item.item_info.item_type {
                None => Err(ParsePrimaryHeicPropertiesError::MissingPrimaryItemType { item_id }),
                Some(item_type) => if item_type.0 != HVC1_ITEM_TYPE && item_type.0 != HEV1_ITEM_TYPE {
                    Err(ParsePrimaryHeicPropertiesError::UnexpectedPrimaryItemType { item_id, actual: item_type })
                } else {
                    let props = g.primary_item.properties;
                    match spec_heic_scan(props, item_id, props.len()) {
                        Err(e) => Err(e),
                        Ok(st) => spec_heic_finish(st, item_id),
                    }
                },
            }
        },
    }
}

/// Full primary HEIC properties: the preflight properties with `pixi` required.
pub open spec fn spec_parse_primary_heic_item_properties(input: Seq<u8>) -> Result<HeicPropertiesModel, ParsePrimaryHeicPropertiesError> {
    match spec_parse_primary_heic_item_preflight_properties(input) {
        Err(e) => Err(e),
        Ok(p) => match p.pixi {
            None => Err(ParsePrimaryHeicPropertiesError::MissingRequiredProperty { item_id: p.item_id, property_type: FourCc(PIXI_BOX_TYPE) }),
            Some(pixi) => Ok(HeicPropertiesModel { item_id: p.item_id, hvcc: p.hvcc, ispe: p.ispe, pixi, colr: p.colr }),
        },
    }
}

/// Parse and validate primary HEIC properties used by decode preflight.
#[verifier::rlimit(80)]
pub fn parse_primary_heic_item_preflight_properties(input: &[u8]) -> (r: Result<HeicPrimaryItemPreflightProperties, ParsePrimaryHeicPropertiesError>)
    ensures
        res_view(r) == spec_parse_primary_heic_item_preflight_properties(input@),
{
    let (_meta, resolved) = match primary_graph(input) {
        Ok(v) => v,
        Err(GraphStageError::TopLevelBoxes(e)) => return Err(ParsePrimaryHeicPropertiesError::TopLevelBoxes(e)),
        Err(GraphStageError::MissingMetaBox) => return Err(ParsePrimaryHeicPropertiesError::MissingMetaBox),
        Err(GraphStageError::Meta(e)) => return Err(ParsePrimaryHeicPropertiesError::Meta(e)),
        Err(GraphStageError::ResolvePrimaryItem(e)) => return Err(ParsePrimaryHeicPropertiesError::ResolvePrimaryItem(e)),
    };
    let item_id = resolved.primary_item.item_id;
    let item_type = match resolved.primary_item.item_info.item_type {
        Some(t) => t,
        None => return Err(ParsePrimaryHeicPropertiesError::MissingPrimaryItemType { item_id }),
    };
    if !item_type.is(HVC1_ITEM_TYPE) && !item_type.is(HEV1_ITEM_TYPE) {
        return Err(ParsePrimaryHeicPropertiesError::UnexpectedPrimaryItemType { item_id, actual: item_type });
    }
    let properties = &resolved.primary_item.properties;
    let ghost props = resolved_prop_views(properties@);
    let mut hvcc: Option<HevcDecoderConfigurationBox> = None;
    let mut ispe: Option<ImageSpatialExtentsProperty> = None;
    let mut pixi: Option<PixelInformationProperty> = None;
    let mut colr = PrimaryItemColorProperties::default();
    let mut i: usize = 0;
    while i < properties.len()
        invariant
            i <= properties@.len(),
            props == resolved_prop_views(properties@),
            props_fit(properties@),
            spec_heic_scan(props, item_id, i as nat) == Ok::<HeicScan, ParsePrimaryHeicPropertiesError>(HeicScan {
                hvcc: opt_hvcc_view(hvcc),
                ispe,
                pixi: opt_pixi_view(pixi),
                colr: colr@,
            }),
            spec_parse_primary_heic_item_preflight_properties(input@) == match spec_heic_scan(props, item_id, props.len()) {
                Err(e) => Err(e),
                Ok(st) => spec_heic_finish(st, item_id),
            },
        decreases properties@.len() - i,
    {
        let property = &properties[i].property;
        assert(props[i as int].property == property@);
        let property_type = property.header.box_type;
        if property_type.is(HVCC_BOX_TYPE) {
            if hvcc.is_some() {
                proof { lemma_heic_scan_err_persists(props, item_id, (i + 1) as nat, props.len()); }
                return Err(ParsePrimaryHeicPropertiesError::DuplicateProperty { item_id, property_type });
            }
            match property.parse_hvcc() {
                Ok(v) => hvcc = Some(v),
                Err(e) => {
                    proof { lemma_heic_scan_err_persists(props, item_id, (i + 1) as nat, props.len()); }
                    return Err(ParsePrimaryHeicPropertiesError::HevcCodec(e));
                },
            }
        } else if property_type.is(ISPE_BOX_TYPE) {
            if ispe.is_some() {
                proof { lemma_heic_scan_err_persists(props, item_id, (i + 1) as nat, props.len()); }
                return Err(ParsePrimaryHeicPropertiesError::DuplicateProperty { item_id, property_type });
            }
            match property.parse_ispe() {
                Ok(v) => ispe = Some(v),
                Err(e) => {
                    proof { lemma_heic_scan_err_persists(props, item_id, (i + 1) as nat, props.len()); }
                    return Err(ParsePrimaryHeicPropertiesError::ImageSpatialExtents(e));
                },
            }
        } else if property_type.is(PIXI_BOX_TYPE) {
            if pixi.is_some() {
                proof { lemma_heic_scan_err_persists(props, item_id, (i + 1) as nat, props.len()); }
                return Err(ParsePrimaryHeicPropertiesError::DuplicateProperty { item_id, property_type });
            }
            match property.parse_pixi() {
                Ok(v) => pixi = Some(v),
                Err(e) => {
                    proof { lemma_heic_scan_err_persists(props, item_id, (i + 1) as nat, props.len()); }
                    return Err(ParsePrimaryHeicPropertiesError::PixelInformation(e));
                },
            }
        } else if property_type.is(COLR_BOX_TYPE) {
            match property.parse_colr() {
                Ok(parsed) => add_colr_exec(&mut colr, parsed.information),
                Err(e) => {
                    proof { lemma_heic_scan_err_persists(props, item_id, (i + 1) as nat, props.len()); }
                    return Err(ParsePrimaryHeicPropertiesError::ColorInformation(e));
                },
            }
        }
        i = i + 1;
    }
    let hvcc = match hvcc {
        Some(v) => v,
        None => return Err(ParsePrimaryHeicPropertiesError::MissingRequiredProperty { item_id, property_type: FourCc::new(HVCC_BOX_TYPE) }),
    };
    let ispe = match ispe {
        Some(v) => v,
        None => return Err(ParsePrimaryHeicPropertiesError::MissingRequiredProperty { item_id, property_type: FourCc::new(ISPE_BOX_TYPE) }),
    };
    if ispe.width == 0 || ispe.height == 0 {
        return Err(ParsePrimaryHeicPropertiesError::InvalidImageExtent { item_id, width: ispe.width, height: ispe.height });
    }
    if let Some(p) = &pixi {
        if p.bits_per_channel.len() == 0 {
            return Err(ParsePrimaryHeicPropertiesError::InvalidPixiChannelCount { item_id, channel_count: 0 });
        }
        if let Some(channel_index) = find_zero_bits(&p.bits_per_channel) {
            return Err(ParsePrimaryHeicPropertiesError::InvalidPixiBitsPerChannel { item_id, channel_index });
        }
    }
    Ok(HeicPrimaryItemPreflightProperties { item_id, hvcc, ispe, pixi, colr })
}

/// Parse and validate primary HEIC properties needed before decode; unlike the
/// preflight properties, a `pixi` property is required.
pub fn parse_primary_heic_item_properties(input: &[u8]) -> (r: Result<HeicPrimaryItemProperties, ParsePrimaryHeicPropertiesError>)
    ensures
        res_view(r) == spec_parse_primary_heic_item_properties(input@),
{
    let preflight = match parse_primary_heic_item_preflight_properties(input) {
        Ok(p) => p,
        Err(e) => return Err(e),
    };
    let pixi = match preflight.pixi {
        Some(p) => p,
        None => return Err(ParsePrimaryHeicPropertiesError::MissingRequiredProperty {
            item_id: preflight.item_id,
            property_type: FourCc::new(PIXI_BOX_TYPE),
        }),
    };
    Ok(HeicPrimaryItemProperties {
        item_id: preflight.item_id,
        hvcc: preflight.hvcc,
        ispe: preflight.ispe,
        pixi,
        colr: preflight.colr,
    })
}

/// The full HEIC properties of a file are its preflight properties whenever the
/// preflight properties carry a `pixi` property; and the full properties fail,
/// with the missing `pixi` reported, exactly when the preflight ones succeed
/// without it.
pub proof fn law_heic_properties_refine_preflight(input: Seq<u8>)
    ensures
        match spec_parse_primary_heic_item_preflight_properties(input) {
            Ok(p) => match p.pixi {
                Some(pixi) => spec_parse_primary_heic_item_properties(input) == Ok::<HeicPropertiesModel, ParsePrimaryHeicPropertiesError>(
                    HeicPropertiesModel { item_id: p.item_id, hvcc: p.hvcc, ispe: p.ispe, pixi, colr: p.colr }),
                None => spec_parse_primary_heic_item_properties(input) == Err::<HeicPropertiesModel, ParsePrimaryHeicPropertiesError>(
                    ParsePrimaryHeicPropertiesError::MissingRequiredProperty { item_id: p.item_id, property_type: FourCc(PIXI_BOX_TYPE) }),
            },
            Err(e) => spec_parse_primary_heic_item_properties(input) == Err::<HeicPropertiesModel, ParsePrimaryHeicPropertiesError>(e),
        },
{
}

/// Preflight properties that are returned describe a nonempty image, and a `pixi`
/// property among them lists at least one channel and no channel of zero bits.
pub proof fn law_heic_preflight_is_validated(input: Seq<u8>)
    ensures
        spec_parse_primary_heic_item_preflight_properties(input) matches Ok(p) ==> {
            &&& p.ispe.width > 0 && p.ispe.height > 0
            &&& p.pixi matches Some(px) ==> px.bits_per_channel.len() > 0
                && forall|i: int| 0 <= i < px.bits_per_channel.len() ==> px.bits_per_channel[i] != 0
        },
{
    match spec_primary_graph(input) {
        Ok((_, g)) => {
            let props = g.primary_item.properties;
            match spec_heic_scan(props, g.primary_item.item_id, props.len()) {
                Ok(st) => match st.pixi {
                    Some(px) => if first_zero_from(px.bits_per_channel, 0) is None {
                        lemma_first_zero_none(px.bits_per_channel, 0);
                    },
                    None => {},
                },
                Err(_) => {},
            }
        },
        Err(_) => {},
    }
}

proof fn lemma_heic_scan_picks(props: Seq<ResolvedPropertyModel>, item_id: u32, n: nat)
    requires
        n <= props.len(),
    ensures
        spec_heic_scan(props, item_id, n) matches Ok(st) ==> {
            &&& picked_once(props, n, HVCC_BOX_TYPE, st.hvcc, |b: BoxModel| spec_hvcc_box(b))
            &&& picked_once(props, n, ISPE_BOX_TYPE, st.ispe, |b: BoxModel| spec_ispe_box(b))
            &&& picked_once(props, n, PIXI_BOX_TYPE, st.pixi, |b: BoxModel| spec_pixi_box(b))
            &&& st.colr.nclx == latest_nclx(props, n)
            &&& st.colr.icc == latest_icc(props, n)
        },
    decreases n,
{
    if n > 0 {
        lemma_heic_scan_picks(props, item_id, (n - 1) as nat);
        if let Ok(st) = spec_heic_scan(props, item_id, n) {
            let st0 = spec_heic_scan(props, item_id, (n - 1) as nat)->Ok_0;
            lemma_picked_step(props, n, HVCC_BOX_TYPE, st0.hvcc, st.hvcc, |b: BoxModel| spec_hvcc_box(b));
            lemma_picked_step(props, n, ISPE_BOX_TYPE, st0.ispe, st.ispe, |b: BoxModel| spec_ispe_box(b));
            lemma_picked_step(props, n, PIXI_BOX_TYPE, st0.pixi, st.pixi, |b: BoxModel| spec_pixi_box(b));
            lemma_colr_step(st0.colr, st.colr, props, n);
        }
    }
}

/// Law (HEIC property choice): returned preflight properties come from the primary
/// item's own properties: its `hvcC` and `ispe`, and its `pixi` where there is one,
/// are the parses of the one property of each of those types associated with it
/// (no `pixi` is returned exactly when none is associated), and its colour profiles
/// are those of the last associated `colr` property of each kind.
pub proof fn law_heic_preflight_comes_from_the_item(input: Seq<u8>)
    ensures
        spec_parse_primary_heic_item_preflight_properties(input) matches Ok(p) ==> {
            let g = spec_primary_graph(input)->Ok_0.1;
            let props = g.primary_item.properties;
            &&& p.item_id == g.primary_item.item_id
            &&& picked_once(props, props.len(), HVCC_BOX_TYPE, Some(p.hvcc), |b: BoxModel| spec_hvcc_box(b))
            &&& picked_once(props, props.len(), ISPE_BOX_TYPE, Some(p.ispe), |b: BoxModel| spec_ispe_box(b))
            &&& picked_once(props, props.len(), PIXI_BOX_TYPE, p.pixi, |b: BoxModel| spec_pixi_box(b))
            &&& p.colr.nclx == latest_nclx(props, props.len())
            &&& p.colr.icc == latest_icc(props, props.len())
        },
{
    if let Ok((_, g)) = spec_primary_graph(input) {
        let props = g.primary_item.properties;
        lemma_heic_scan_picks(props, g.primary_item.item_id, props.len());
    }
}

} // verus!
