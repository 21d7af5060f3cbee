use vstd::prelude::*;

verus! {

pub const BASIC_HEADER_SIZE: usize = 8;
pub const LARGE_SIZE_FIELD_SIZE: usize = 8;
pub const UUID_EXTENDED_TYPE_SIZE: usize = 16;
pub const FTYP_FIXED_FIELDS_SIZE: usize = 8;
pub const BRAND_FIELD_SIZE: usize = 4;
pub const FULL_BOX_HEADER_SIZE: usize = 4;

pub const UUID_BOX_TYPE: [u8; 4] = [0x75, 0x75, 0x69, 0x64];
pub const FTYP_BOX_TYPE: [u8; 4] = [0x66, 0x74, 0x79, 0x70];
pub const META_BOX_TYPE: [u8; 4] = [0x6d, 0x65, 0x74, 0x61];
pub const PITM_BOX_TYPE: [u8; 4] = [0x70, 0x69, 0x74, 0x6d];
pub const ILOC_BOX_TYPE: [u8; 4] = [0x69, 0x6c, 0x6f, 0x63];
pub const IINF_BOX_TYPE: [u8; 4] = [0x69, 0x69, 0x6e, 0x66];
pub const INFE_BOX_TYPE: [u8; 4] = [0x69, 0x6e, 0x66, 0x65];
pub const IREF_BOX_TYPE: [u8; 4] = [0x69, 0x72, 0x65, 0x66];
pub const IPRP_BOX_TYPE: [u8; 4] = [0x69, 0x70, 0x72, 0x70];
pub const IPCO_BOX_TYPE: [u8; 4] = [0x69, 0x70, 0x63, 0x6f];
pub const IPMA_BOX_TYPE: [u8; 4] = [0x69, 0x70, 0x6d, 0x61];
pub const IDAT_BOX_TYPE: [u8; 4] = [0x69, 0x64, 0x61, 0x74];
pub const AV1C_BOX_TYPE: [u8; 4] = [0x61, 0x76, 0x31, 0x43];
pub const HVCC_BOX_TYPE: [u8; 4] = [0x68, 0x76, 0x63, 0x43];
pub const ISPE_BOX_TYPE: [u8; 4] = [0x69, 0x73, 0x70, 0x65];
pub const PIXI_BOX_TYPE: [u8; 4] = [0x70, 0x69, 0x78, 0x69];
pub const COLR_BOX_TYPE: [u8; 4] = [0x63, 0x6f, 0x6c, 0x72];
pub const IROT_BOX_TYPE: [u8; 4] = [0x69, 0x72, 0x6f, 0x74];
pub const IMIR_BOX_TYPE: [u8; 4] = [0x69, 0x6d, 0x69, 0x72];
pub const CLAP_BOX_TYPE: [u8; 4] = [0x63, 0x6c, 0x61, 0x70];
pub const NCLX_COLOR_TYPE: [u8; 4] = [0x6e, 0x63, 0x6c, 0x78];
pub const NCLC_COLOR_TYPE: [u8; 4] = [0x6e, 0x63, 0x6c, 0x63];
pub const PROF_COLOR_TYPE: [u8; 4] = [0x70, 0x72, 0x6f, 0x66];
pub const RICC_COLOR_TYPE: [u8; 4] = [0x72, 0x49, 0x43, 0x43];
pub const INFE_ITEM_TYPE_MIME: [u8; 4] = [0x6d, 0x69, 0x6d, 0x65];
pub const INFE_ITEM_TYPE_URI: [u8; 4] = [0x75, 0x72, 0x69, 0x20];
pub const AV01_ITEM_TYPE: [u8; 4] = [0x61, 0x76, 0x30, 0x31];
pub const HVC1_ITEM_TYPE: [u8; 4] = [0x68, 0x76, 0x63, 0x31];
pub const HEV1_ITEM_TYPE: [u8; 4] = [0x68, 0x65, 0x76, 0x31];
pub const GRID_ITEM_TYPE: [u8; 4] = [0x67, 0x72, 0x69, 0x64];
pub const DIMG_REFERENCE_TYPE: [u8; 4] = [0x64, 0x69, 0x6d, 0x67];

/// Four-character box type code.
#[derive(Clone, Copy, Debug, Eq, PartialEq, Hash)]
pub struct FourCc(pub [u8; 4]);

impl FourCc {
    pub fn new(bytes: [u8; 4]) -> (r: Self)
        ensures
            r.0 == bytes,
    {
        FourCc(bytes)
    }

    pub fn as_bytes(self) -> (r: [u8; 4])
        ensures
            r == self.0,
    {
        self.0
    }

    /// Whether this code is the given four bytes.
    pub fn is(self, code: [u8; 4]) -> (r: bool)
        ensures
            r == (self.0 == code),
    {
        let a = self.0;
        if a[0] == code[0] && a[1] == code[1] && a[2] == code[2] && a[3] == code[3] {
            assert(a =~= code);
            true
        } else {
            false
        }
    }
}

/// Parsed ISO BMFF box header.
#[derive(Clone, Copy, Debug, Eq, PartialEq)]
pub struct BoxHeader {
    pub box_type: FourCc,
    pub box_size: u64,
    pub header_size: u8,
    pub uuid: Option<[u8; 16]>,
}

/// Zero-copy parsed box view into an input slice.
#[derive(Clone, Copy, Debug, Eq, PartialEq)]
pub struct ParsedBox<'a> {
    pub header: BoxHeader,
    pub payload: &'a [u8],
    pub offset: u64,
}

/// Mathematical model of a parsed box: its header, payload bytes and offset.
pub struct BoxModel {
    pub header: BoxHeader,
    pub payload: Seq<u8>,
    pub offset: u64,
}

impl<'a> View for ParsedBox<'a> {
    type V = BoxModel;

    open spec fn view(&self) -> BoxModel {
        BoxModel { header: self.header, payload: self.payload@, offset: self.offset }
    }
}

/// Parsed `ftyp` box payload fields.
#[derive(Clone, Debug, Eq, PartialEq)]
pub struct FileTypeBox {
    pub major_brand: FourCc,
    pub minor_version: u32,
    pub compatible_brands: Vec<FourCc>,
}

pub struct FileTypeModel {
    pub major_brand: FourCc,
    pub minor_version: u32,
    pub compatible_brands: Seq<FourCc>,
}

impl View for FileTypeBox {
    type V = FileTypeModel;

    open spec fn view(&self) -> FileTypeModel {
        FileTypeModel {
            major_brand: self.major_brand,
            minor_version: self.minor_version,
            compatible_brands: self.compatible_brands@,
        }
    }
}

/// Parsed FullBox header fields.
#[derive(Clone, Copy, Debug, Eq, PartialEq)]
pub struct FullBoxHeader {
    pub version: u8,
    pub flags: u32,
}

/// Parsed `pitm` (primary item) payload fields.
#[derive(Clone, Copy, Debug, Eq, PartialEq)]
pub struct PrimaryItemBox {
    pub full_box: FullBoxHeader,
    pub item_id: u32,
}

/// Parsed `iloc` extent entry fields.
#[derive(Clone, Copy, Debug, Eq, PartialEq)]
pub struct ItemLocationExtent {
    pub index: u64,
    pub offset: u64,
    pub length: u64,
}

/// Parsed `iloc` item entry fields.
#[derive(Clone, Debug, Eq, PartialEq)]
pub struct ItemLocationItem {
    pub item_id: u32,
    pub construction_method: u8,
    pub data_reference_index: u16,
    pub base_offset: u64,
    pub extents: Vec<ItemLocationExtent>,
}

pub struct LocationItemModel {
    pub item_id: u32,
    pub construction_method: u8,
    pub data_reference_index: u16,
    pub base_offset: u64,
    pub extents: Seq<ItemLocationExtent>,
}

impl View for ItemLocationItem {
    type V = LocationItemModel;

    open spec fn view(&self) -> LocationItemModel {
        LocationItemModel {
            item_id: self.item_id,
            construction_method: self.construction_method,
            data_reference_index: self.data_reference_index,
            base_offset: self.base_offset,
            extents: self.extents@,
        }
    }
}

/// Parsed `iloc` payload fields.
#[derive(Clone, Debug, Eq, PartialEq)]
pub struct ItemLocationBox {
    pub full_box: FullBoxHeader,
    pub offset_size: u8,
    pub length_size: u8,
    pub base_offset_size: u8,
    pub index_size: u8,
    pub items: Vec<ItemLocationItem>,
}

pub struct LocationBoxModel {
    pub full_box: FullBoxHeader,
    pub offset_size: u8,
    pub length_size: u8,
    pub base_offset_size: u8,
    pub index_size: u8,
    pub items: Seq<LocationItemModel>,
}

impl View for ItemLocationBox {
    type V = LocationBoxModel;

    open spec fn view(&self) -> LocationBoxModel {
        LocationBoxModel {
            full_box: self.full_box,
            offset_size: self.offset_size,
            length_size: self.length_size,
            base_offset_size: self.base_offset_size,
            index_size: self.index_size,
            items: loc_item_views(self.items@),
        }
    }
}

/// Parsed `infe` (item info entry) payload fields.
#[derive(Clone, Debug, Eq, PartialEq)]
pub struct ItemInfoEntryBox {
    pub full_box: FullBoxHeader,
    pub item_id: u32,
    pub item_protection_index: u16,
    pub item_type: Option<FourCc>,
    pub item_name: Vec<u8>,
    pub content_type: Option<Vec<u8>>,
    pub content_encoding: Option<Vec<u8>>,
    pub item_uri_type: Option<Vec<u8>>,
    pub hidden_item: bool,
}

pub struct InfoEntryModel {
    pub full_box: FullBoxHeader,
    pub item_id: u32,
    pub item_protection_index: u16,
    pub item_type: Option<FourCc>,
    pub item_name: Seq<u8>,
    pub content_type: Option<Seq<u8>>,
    pub content_encoding: Option<Seq<u8>>,
    pub item_uri_type: Option<Seq<u8>>,
    pub hidden_item: bool,
}

pub open spec fn opt_bytes_view(o: Option<Vec<u8>>) -> Option<Seq<u8>> {
    match o {
        Some(v) => Some(v@),
        None => None,
    }
}

impl View for ItemInfoEntryBox {
    type V = InfoEntryModel;

    open spec fn view(&self) -> InfoEntryModel {
        InfoEntryModel {
            full_box: self.full_box,
            item_id: self.item_id,
            item_protection_index: self.item_protection_index,
            item_type: self.item_type,
            item_name: self.item_name@,
            content_type: opt_bytes_view(self.content_type),
            content_encoding: opt_bytes_view(self.content_encoding),
            item_uri_type: opt_bytes_view(self.item_uri_type),
            hidden_item: self.hidden_item,
        }
    }
}

/// Parsed `iinf` (item info) payload fields.
#[derive(Clone, Debug, Eq, PartialEq)]
pub struct ItemInfoBox {
    pub full_box: FullBoxHeader,
    pub item_count: u32,
    pub entries: Vec<ItemInfoEntryBox>,
}

pub struct InfoBoxModel {
    pub full_box: FullBoxHeader,
    pub item_count: u32,
    pub entries: Seq<InfoEntryModel>,
}

impl View for ItemInfoBox {
    type V = InfoBoxModel;

    open spec fn view(&self) -> InfoBoxModel {
        InfoBoxModel {
            full_box: self.full_box,
            item_count: self.item_count,
            entries: info_entry_views(self.entries@),
        }
    }
}

/// Parsed single `iref` typed edge fields.
#[derive(Clone, Debug, Eq, PartialEq)]
pub struct ItemReferenceEntry {
    pub reference_type: FourCc,
    pub from_item_id: u32,
    pub to_item_ids: Vec<u32>,
}

pub struct ReferenceEntryModel {
    pub reference_type: FourCc,
    pub from_item_id: u32,
    pub to_item_ids: Seq<u32>,
}

impl View for ItemReferenceEntry {
    type V = ReferenceEntryModel;

    open spec fn view(&self) -> ReferenceEntryModel {
        ReferenceEntryModel {
            reference_type: self.reference_type,
            from_item_id: self.from_item_id,
            to_item_ids: self.to_item_ids@,
        }
    }
}

/// Parsed `iref` (item reference) payload fields.
#[derive(Clone, Debug, Eq, PartialEq)]
pub struct ItemReferenceBox {
    pub full_box: FullBoxHeader,
    pub references: Vec<ItemReferenceEntry>,
}

pub struct ReferenceBoxModel {
    pub full_box: FullBoxHeader,
    pub references: Seq<ReferenceEntryModel>,
}

impl View for ItemReferenceBox {
    type V = ReferenceBoxModel;

    open spec fn view(&self) -> ReferenceBoxModel {
        ReferenceBoxModel {
            full_box: self.full_box,
            references: ref_entry_views(self.references@),
        }
    }
}

/// Parsed `ipma` property association entry fields.
#[derive(Clone, Copy, Debug, Eq, PartialEq)]
pub struct ItemPropertyAssociation {
    pub essential: bool,
    pub property_index: u16,
}

/// Parsed `ipma` item association entry fields.
#[derive(Clone, Debug, Eq, PartialEq)]
pub struct ItemPropertyAssociationEntry {
    pub item_id: u32,
    pub associations: Vec<ItemPropertyAssociation>,
}

pub struct AssociationEntryModel {
    pub item_id: u32,
    pub associations: Seq<ItemPropertyAssociation>,
}

impl View for ItemPropertyAssociationEntry {
    type V = AssociationEntryModel;

    open spec fn view(&self) -> AssociationEntryModel {
        AssociationEntryModel { item_id: self.item_id, associations: self.associations@ }
    }
}

/// Parsed `ipma` (item property association) payload fields.
#[derive(Clone, Debug, Eq, PartialEq)]
pub struct ItemPropertyAssociationBox {
    pub full_box: FullBoxHeader,
    pub entry_count: u32,
    pub entries: Vec<ItemPropertyAssociationEntry>,
}

pub struct AssociationBoxModel {
    pub full_box: FullBoxHeader,
    pub entry_count: u32,
    pub entries: Seq<AssociationEntryModel>,
}

impl View for ItemPropertyAssociationBox {
    type V = AssociationBoxModel;

    open spec fn view(&self) -> AssociationBoxModel {
        AssociationBoxModel {
            full_box: self.full_box,
            entry_count: self.entry_count,
            entries: assoc_entry_views(self.entries@),
        }
    }
}

/// Parsed `ipco` (item property container) payload fields.
#[derive(Clone, Debug, Eq, PartialEq)]
pub struct ItemPropertyContainerBox<'a> {
    pub properties: Vec<ParsedBox<'a>>,
}

pub struct PropertyContainerModel {
    pub properties: Seq<BoxModel>,
}

impl<'a> View for ItemPropertyContainerBox<'a> {
    type V = PropertyContainerModel;

    open spec fn view(&self) -> PropertyContainerModel {
        PropertyContainerModel { properties: box_views(self.properties@) }
    }
}

/// Parsed `iprp` (item properties) payload fields.
#[derive(Clone, Debug, Eq, PartialEq)]
pub struct ItemPropertiesBox<'a> {
    pub property_containers: Vec<ItemPropertyContainerBox<'a>>,
    pub associations: Vec<ItemPropertyAssociationBox>,
}

pub struct PropertiesBoxModel {
    pub property_containers: Seq<PropertyContainerModel>,
    pub associations: Seq<AssociationBoxModel>,
}

impl<'a> View for ItemPropertiesBox<'a> {
    type V = PropertiesBoxModel;

    open spec fn view(&self) -> PropertiesBoxModel {
        PropertiesBoxModel {
            property_containers: container_views(self.property_containers@),
            associations: assoc_box_views(self.associations@),
        }
    }
}

/// Parsed `meta` payload fields.
#[derive(Clone, Copy, Debug, Eq, PartialEq)]
pub struct MetaBox<'a> {
    pub full_box: FullBoxHeader,
    pub payload: &'a [u8],
    pub payload_offset: u64,
}

pub struct MetaModel {
    pub full_box: FullBoxHeader,
    pub payload: Seq<u8>,
    pub payload_offset: u64,
}

impl<'a> View for MetaBox<'a> {
    type V = MetaModel;

    open spec fn view(&self) -> MetaModel {
        MetaModel {
            full_box: self.full_box,
            payload: self.payload@,
            payload_offset: self.payload_offset,
        }
    }
}

/// Resolved primary-item property from the `meta` item-property graph.
#[derive(Clone, Copy, Debug, Eq, PartialEq)]
pub struct ResolvedPrimaryItemProperty<'a> {
    pub essential: bool,
    pub property_index: u16,
    pub property: ParsedBox<'a>,
}

pub struct ResolvedPropertyModel {
    pub essential: bool,
    pub property_index: u16,
    pub property: BoxModel,
}

impl<'a> View for ResolvedPrimaryItemProperty<'a> {
    type V = ResolvedPropertyModel;

    open spec fn view(&self) -> ResolvedPropertyModel {
        ResolvedPropertyModel {
            essential: self.essential,
            property_index: self.property_index,
            property: self.property@,
        }
    }
}

/// Resolved primary image item from `meta`.
#[derive(Clone, Debug, Eq, PartialEq)]
pub struct ResolvedPrimaryItem<'a> {
    pub item_id: u32,
    pub item_info: ItemInfoEntryBox,
    pub location: ItemLocationItem,
    pub properties: Vec<ResolvedPrimaryItemProperty<'a>>,
    pub references: Vec<ItemReferenceEntry>,
}

pub struct ResolvedItemModel {
    pub item_id: u32,
    pub item_info: InfoEntryModel,
    pub location: LocationItemModel,
    pub properties: Seq<ResolvedPropertyModel>,
    pub references: Seq<ReferenceEntryModel>,
}

impl<'a> View for ResolvedPrimaryItem<'a> {
    type V = ResolvedItemModel;

    open spec fn view(&self) -> ResolvedItemModel {
        ResolvedItemModel {
            item_id: self.item_id,
            item_info: self.item_info@,
            location: self.location@,
            properties: resolved_prop_views(self.properties@),
            references: ref_entry_views(self.references@),
        }
    }
}

/// Resolved `meta` item/property/reference graph centered on the primary item.
#[derive(Clone, Debug, Eq, PartialEq)]
pub struct ResolvedPrimaryItemGraph<'a> {
    pub pitm: PrimaryItemBox,
    pub iloc: ItemLocationBox,
    pub iinf: ItemInfoBox,
    pub iprp: ItemPropertiesBox<'a>,
    pub iref: Option<ItemReferenceBox>,
    pub primary_item: ResolvedPrimaryItem<'a>,
}

pub struct ItemGraphModel {
    pub pitm: PrimaryItemBox,
    pub iloc: LocationBoxModel,
    pub iinf: InfoBoxModel,
    pub iprp: PropertiesBoxModel,
    pub iref: Option<ReferenceBoxModel>,
    pub primary_item: ResolvedItemModel,
}

pub open spec fn opt_iref_view(o: Option<ItemReferenceBox>) -> Option<ReferenceBoxModel> {
    match o {
        Some(r) => Some(r@),
        None => None,
    }
}

impl<'a> View for ResolvedPrimaryItemGraph<'a> {
    type V = ItemGraphModel;

    open spec fn view(&self) -> ItemGraphModel {
        ItemGraphModel {
            pitm: self.pitm,
            iloc: self.iloc@,
            iinf: self.iinf@,
            iprp: self.iprp@,
            iref: opt_iref_view(self.iref),
            primary_item: self.primary_item@,
        }
    }
}

/// Extracted item payload with the item it belongs to.
pub struct ItemDataModel {
    pub item_id: u32,
    pub construction_method: u8,
    pub payload: Seq<u8>,
}

/// Extracted primary AVIF item payload ready for AV1 decode.
#[derive(Clone, Debug, Eq, PartialEq)]
pub struct AvifPrimaryItemData {
    pub item_id: u32,
    pub construction_method: u8,
    pub payload: Vec<u8>,
}

impl View for AvifPrimaryItemData {
    type V = ItemDataModel;

    open spec fn view(&self) -> ItemDataModel {
        ItemDataModel {
            item_id: self.item_id,
            construction_method: self.construction_method,
            payload: self.payload@,
        }
    }
}

/// Extracted primary HEIC item payload ready for HEVC decode.
#[derive(Clone, Debug, Eq, PartialEq)]
pub struct HeicPrimaryItemData {
    pub item_id: u32,
    pub construction_method: u8,
    pub payload: Vec<u8>,
}

impl View for HeicPrimaryItemData {
    type V = ItemDataModel;

    open spec fn view(&self) -> ItemDataModel {
        ItemDataModel {
            item_id: self.item_id,
            construction_method: self.construction_method,
            payload: self.payload@,
        }
    }
}

/// Parsed HEIC `grid` primary item descriptor payload.
#[derive(Clone, Copy, Debug, Eq, PartialEq)]
pub struct HeicGridDescriptor {
    pub version: u8,
    pub rows: u16,
    pub columns: u16,
    pub output_width: u32,
    pub output_height: u32,
}

/// One resolved `dimg` tile item payload used by a HEIC `grid` primary item.
#[derive(Clone, Debug, Eq, PartialEq)]
pub struct HeicGridTileItemData {
    pub item_id: u32,
    pub construction_method: u8,
    pub hvcc: HevcDecoderConfigurationBox,
    pub payload: Vec<u8>,
}

pub struct GridTileModel {
    pub item_id: u32,
    pub construction_method: u8,
    pub hvcc: HvccModel,
    pub payload: Seq<u8>,
}

impl View for HeicGridTileItemData {
    type V = GridTileModel;

    open spec fn view(&self) -> GridTileModel {
        GridTileModel {
            item_id: self.item_id,
            construction_method: self.construction_method,
            hvcc: self.hvcc@,
            payload: self.payload@,
        }
    }
}

/// Extracted HEIC `grid` primary item descriptor and resolved tile payloads.
#[derive(Clone, Debug, Eq, PartialEq)]
pub struct HeicGridPrimaryItemData {
    pub item_id: u32,
    pub construction_method: u8,
    pub descriptor: HeicGridDescriptor,
    pub tile_item_ids: Vec<u32>,
    pub tiles: Vec<HeicGridTileItemData>,
}

pub struct GridDataModel {
    pub item_id: u32,
    pub construction_method: u8,
    pub descriptor: HeicGridDescriptor,
    pub tile_item_ids: Seq<u32>,
    pub tiles: Seq<GridTileModel>,
}

impl View for HeicGridPrimaryItemData {
    type V = GridDataModel;

    open spec fn view(&self) -> GridDataModel {
        GridDataModel {
            item_id: self.item_id,
            construction_method: self.construction_method,
            descriptor: self.descriptor,
            tile_item_ids: self.tile_item_ids@,
            tiles: grid_tile_views(self.tiles@),
        }
    }
}

/// Extracted HEIC primary item data, either direct coded payload or `grid`.
#[derive(Clone, Debug, Eq, PartialEq)]
pub enum HeicPrimaryItemDataWithGrid {
    Coded(HeicPrimaryItemData),
    Grid(HeicGridPrimaryItemData),
}

pub enum WithGridModel {
    Coded(ItemDataModel),
    Grid(GridDataModel),
}

impl View for HeicPrimaryItemDataWithGrid {
    type V = WithGridModel;

    open spec fn view(&self) -> WithGridModel {
        match self {
            HeicPrimaryItemDataWithGrid::Coded(d) => WithGridModel::Coded(d@),
            HeicPrimaryItemDataWithGrid::Grid(g) => WithGridModel::Grid(g@),
        }
    }
}

/// Parsed `av1C` codec configuration fields.
#[derive(Clone, Debug, Eq, PartialEq)]
pub struct Av1CodecConfigurationBox {
    pub marker: bool,
    pub version: u8,
    pub seq_profile: u8,
    pub seq_level_idx_0: u8,
    pub seq_tier_0: bool,
    pub high_bitdepth: bool,
    pub twelve_bit: bool,
    pub monochrome: bool,
    pub chroma_subsampling_x: bool,
    pub chroma_subsampling_y: bool,
    pub chroma_sample_position: u8,
    pub initial_presentation_delay_present: bool,
    pub initial_presentation_delay_minus_one: Option<u8>,
    pub config_obus: Vec<u8>,
}

pub struct Av1cModel {
    pub marker: bool,
    pub version: u8,
    pub seq_profile: u8,
    pub seq_level_idx_0: u8,
    pub seq_tier_0: bool,
    pub high_bitdepth: bool,
    pub twelve_bit: bool,
    pub monochrome: bool,
    pub chroma_subsampling_x: bool,
    pub chroma_subsampling_y: bool,
    pub chroma_sample_position: u8,
    pub initial_presentation_delay_present: bool,
    pub initial_presentation_delay_minus_one: Option<u8>,
    pub config_obus: Seq<u8>,
}

impl View for Av1CodecConfigurationBox {
    type V = Av1cModel;

    open spec fn view(&self) -> Av1cModel {
        Av1cModel {
            marker: self.marker,
            version: self.version,
            seq_profile: self.seq_profile,
            seq_level_idx_0: self.seq_level_idx_0,
            seq_tier_0: self.seq_tier_0,
            high_bitdepth: self.high_bitdepth,
            twelve_bit: self.twelve_bit,
            monochrome: self.monochrome,
            chroma_subsampling_x: self.chroma_subsampling_x,
            chroma_subsampling_y: self.chroma_subsampling_y,
            chroma_sample_position: self.chroma_sample_position,
            initial_presentation_delay_present: self.initial_presentation_delay_present,
            initial_presentation_delay_minus_one: self.initial_presentation_delay_minus_one,
            config_obus: self.config_obus@,
        }
    }
}

/// Parsed `hvcC` NAL array fields.
#[derive(Clone, Debug, Eq, PartialEq)]
pub struct HevcNalArray {
    pub array_completeness: bool,
    pub nal_unit_type: u8,
    pub nal_units: Vec<Vec<u8>>,
}

pub struct NalArrayModel {
    pub array_completeness: bool,
    pub nal_unit_type: u8,
    pub nal_units: Seq<Seq<u8>>,
}

impl View for HevcNalArray {
    type V = NalArrayModel;

    open spec fn view(&self) -> NalArrayModel {
        NalArrayModel {
            array_completeness: self.array_completeness,
            nal_unit_type: self.nal_unit_type,
            nal_units: byte_vec_views(self.nal_units@),
        }
    }
}

/// Parsed `hvcC` decoder configuration fields.
#[derive(Clone, Debug, Eq, PartialEq)]
pub struct HevcDecoderConfigurationBox {
    pub configuration_version: u8,
    pub general_profile_space: u8,
    pub general_tier_flag: bool,
    pub general_profile_idc: u8,
    pub general_profile_compatibility_flags: u32,
    pub general_constraint_indicator_flags: [u8; 6],
    pub general_level_idc: u8,
    pub min_spatial_segmentation_idc: u16,
    pub parallelism_type: u8,
    pub chroma_format: u8,
    pub bit_depth_luma: u8,
    pub bit_depth_chroma: u8,
    pub avg_frame_rate: u16,
    pub constant_frame_rate: u8,
    pub num_temporal_layers: u8,
    pub temporal_id_nested: bool,
    pub nal_length_size: u8,
    pub nal_arrays: Vec<HevcNalArray>,
}

pub struct HvccModel {
    pub configuration_version: u8,
    pub general_profile_space: u8,
    pub general_tier_flag: bool,
    pub general_profile_idc: u8,
    pub general_profile_compatibility_flags: u32,
    pub general_constraint_indicator_flags: [u8; 6],
    pub general_level_idc: u8,
    pub min_spatial_segmentation_idc: u16,
    pub parallelism_type: u8,
    pub chroma_format: u8,
    pub bit_depth_luma: u8,
    pub bit_depth_chroma: u8,
    pub avg_frame_rate: u16,
    pub constant_frame_rate: u8,
    pub num_temporal_layers: u8,
    pub temporal_id_nested: bool,
    pub nal_length_size: u8,
    pub nal_arrays: Seq<NalArrayModel>,
}

impl View for HevcDecoderConfigurationBox {
    type V = HvccModel;

    open spec fn view(&self) -> HvccModel {
        HvccModel {
            configuration_version: self.configuration_version,
            general_profile_space: self.general_profile_space,
            general_tier_flag: self.general_tier_flag,
            general_profile_idc: self.general_profile_idc,
            general_profile_compatibility_flags: self.general_profile_compatibility_flags,
            general_constraint_indicator_flags: self.general_constraint_indicator_flags,
            general_level_idc: self.general_level_idc,
            min_spatial_segmentation_idc: self.min_spatial_segmentation_idc,
            parallelism_type: self.parallelism_type,
            chroma_format: self.chroma_format,
            bit_depth_luma: self.bit_depth_luma,
            bit_depth_chroma: self.bit_depth_chroma,
            avg_frame_rate: self.avg_frame_rate,
            constant_frame_rate: self.constant_frame_rate,
            num_temporal_layers: self.num_temporal_layers,
            temporal_id_nested: self.temporal_id_nested,
            nal_length_size: self.nal_length_size,
            nal_arrays: nal_array_views(self.nal_arrays@),
        }
    }
}

/// Parsed `ispe` property fields.
#[derive(Clone, Copy, Debug, Eq, PartialEq)]
pub struct ImageSpatialExtentsProperty {
    pub full_box: FullBoxHeader,
    pub width: u32,
    pub height: u32,
}

/// Parsed `pixi` property fields.
#[derive(Clone, Debug, Eq, PartialEq)]
pub struct PixelInformationProperty {
    pub full_box: FullBoxHeader,
    pub bits_per_channel: Vec<u8>,
}

pub struct PixiModel {
    pub full_box: FullBoxHeader,
    pub bits_per_channel: Seq<u8>,
}

impl View for PixelInformationProperty {
    type V = PixiModel;

    open spec fn view(&self) -> PixiModel {
        PixiModel { full_box: self.full_box, bits_per_channel: self.bits_per_channel@ }
    }
}

/// Parsed `colr` NCLX/NCLC color profile fields.
#[derive(Clone, Copy, Debug, Eq, PartialEq)]
pub struct NclxColorProfile {
    pub colour_primaries: u16,
    pub transfer_characteristics: u16,
    pub matrix_coefficients: u16,
    pub full_range_flag: bool,
}

/// Parsed `colr` ICC profile payload fields.
#[derive(Clone, Debug, Eq, PartialEq)]
pub struct IccColorProfile {
    pub profile_type: FourCc,
    pub profile: Vec<u8>,
}

pub struct IccModel {
    pub profile_type: FourCc,
    pub profile: Seq<u8>,
}

impl View for IccColorProfile {
    type V = IccModel;

    open spec fn view(&self) -> IccModel {
        IccModel { profile_type: self.profile_type, profile: self.profile@ }
    }
}

/// Parsed `colr` payload variants.
#[derive(Clone, Debug, Eq, PartialEq)]
pub enum ColorInformation {
    Nclx(NclxColorProfile),
    Icc(IccColorProfile),
}

pub enum ColorInformationModel {
    Nclx(NclxColorProfile),
    Icc(IccModel),
}

impl View for ColorInformation {
    type V = ColorInformationModel;

    open spec fn view(&self) -> ColorInformationModel {
        match self {
            ColorInformation::Nclx(p) => ColorInformationModel::Nclx(*p),
            ColorInformation::Icc(p) => ColorInformationModel::Icc(p@),
        }
    }
}

/// Parsed `colr` property fields.
#[derive(Clone, Debug, Eq, PartialEq)]
pub struct ColorInformationProperty {
    pub colour_type: FourCc,
    pub information: ColorInformation,
}

pub struct ColrModel {
    pub colour_type: FourCc,
    pub information: ColorInformationModel,
}

impl View for ColorInformationProperty {
    type V = ColrModel;

    open spec fn view(&self) -> ColrModel {
        ColrModel { colour_type: self.colour_type, information: self.information@ }
    }
}

/// Parsed `irot` property fields.
#[derive(Clone, Copy, Debug, Eq, PartialEq)]
pub struct ImageRotationProperty {
    pub rotation_ccw_degrees: u16,
}

/// Mirror direction parsed from an `imir` property.
#[derive(Clone, Copy, Debug, Eq, PartialEq)]
pub enum ImageMirrorDirection {
    Horizontal,
    Vertical,
}

/// Parsed `imir` property fields.
#[derive(Clone, Copy, Debug, Eq, PartialEq)]
pub struct ImageMirrorProperty {
    pub direction: ImageMirrorDirection,
}

/// Parsed `clap` property fields.
#[derive(Clone, Copy, Debug, Eq, PartialEq)]
pub struct ImageCleanApertureProperty {
    pub clean_aperture_width_num: u32,
    pub clean_aperture_width_den: u32,
    pub clean_aperture_height_num: u32,
    pub clean_aperture_height_den: u32,
    pub horizontal_offset_num: i32,
    pub horizontal_offset_den: u32,
    pub vertical_offset_num: i32,
    pub vertical_offset_den: u32,
}

/// Parsed primary-item transform property in associated-property order.
#[derive(Clone, Copy, Debug, Eq, PartialEq)]
pub enum PrimaryItemTransformProperty {
    CleanAperture(ImageCleanApertureProperty),
    Rotation(ImageRotationProperty),
    Mirror(ImageMirrorProperty),
}

/// Aggregated primary-item transform properties in associated-property order.
#[derive(Clone, Debug, Eq, PartialEq)]
pub struct PrimaryItemTransformProperties {
    pub item_id: u32,
    pub transforms: Vec<PrimaryItemTransformProperty>,
}

pub struct TransformsModel {
    pub item_id: u32,
    pub transforms: Seq<PrimaryItemTransformProperty>,
}

impl View for PrimaryItemTransformProperties {
    type V = TransformsModel;

    open spec fn view(&self) -> TransformsModel {
        TransformsModel { item_id: self.item_id, transforms: self.transforms@ }
    }
}

/// Aggregated primary-item color profiles from associated `colr` properties.
#[derive(Clone, Debug, Eq, PartialEq)]
pub struct PrimaryItemColorProperties {
    pub nclx: Option<NclxColorProfile>,
    pub icc: Option<IccColorProfile>,
}

pub struct ColorPropertiesModel {
    pub nclx: Option<NclxColorProfile>,
    pub icc: Option<IccModel>,
}

pub open spec fn opt_icc_view(o: Option<IccColorProfile>) -> Option<IccModel> {
    match o {
        Some(p) => Some(p@),
        None => None,
    }
}

impl View for PrimaryItemColorProperties {
    type V = ColorPropertiesModel;

    open spec fn view(&self) -> ColorPropertiesModel {
        ColorPropertiesModel { nclx: self.nclx, icc: opt_icc_view(self.icc) }
    }
}

impl Default for PrimaryItemColorProperties {
    fn default() -> (r: Self)
        ensures
            r.nclx is None,
            r.icc is None,
    {
        PrimaryItemColorProperties { nclx: None, icc: None }
    }
}

/// Parsed primary AVIF properties needed before decode.
#[derive(Clone, Debug, Eq, PartialEq)]
pub struct AvifPrimaryItemProperties {
    pub item_id: u32,
    pub av1c: Av1CodecConfigurationBox,
    pub ispe: ImageSpatialExtentsProperty,
    pub pixi: PixelInformationProperty,
    pub colr: PrimaryItemColorProperties,
}

pub struct AvifPropertiesModel {
    pub item_id: u32,
    pub av1c: Av1cModel,
    pub ispe: ImageSpatialExtentsProperty,
    pub pixi: PixiModel,
    pub colr: ColorPropertiesModel,
}

impl View for AvifPrimaryItemProperties {
    type V = AvifPropertiesModel;

    open spec fn view(&self) -> AvifPropertiesModel {
        AvifPropertiesModel {
            item_id: self.item_id,
            av1c: self.av1c@,
            ispe: self.ispe,
            pixi: self.pixi@,
            colr: self.colr@,
        }
    }
}

/// Parsed primary HEIC properties needed before decode.
#[derive(Clone, Debug, Eq, PartialEq)]
pub struct HeicPrimaryItemProperties {
    pub item_id: u32,
    pub hvcc: HevcDecoderConfigurationBox,
    pub ispe: ImageSpatialExtentsProperty,
    pub pixi: PixelInformationProperty,
    pub colr: PrimaryItemColorProperties,
}

pub struct HeicPropertiesModel {
    pub item_id: u32,
    pub hvcc: HvccModel,
    pub ispe: ImageSpatialExtentsProperty,
    pub pixi: PixiModel,
    pub colr: ColorPropertiesModel,
}

impl View for HeicPrimaryItemProperties {
    type V = HeicPropertiesModel;

    open spec fn view(&self) -> HeicPropertiesModel {
        HeicPropertiesModel {
            item_id: self.item_id,
            hvcc: self.hvcc@,
            ispe: self.ispe,
            pixi: self.pixi@,
            colr: self.colr@,
        }
    }
}

/// Parsed primary HEIC properties needed for decoder preflight.
#[derive(Clone, Debug, Eq, PartialEq)]
pub struct HeicPrimaryItemPreflightProperties {
    pub item_id: u32,
    pub hvcc: HevcDecoderConfigurationBox,
    pub ispe: ImageSpatialExtentsProperty,
    pub pixi: Option<PixelInformationProperty>,
    pub colr: PrimaryItemColorProperties,
}

pub struct HeicPreflightModel {
    pub item_id: u32,
    pub hvcc: HvccModel,
    pub ispe: ImageSpatialExtentsProperty,
    pub pixi: Option<PixiModel>,
    pub colr: ColorPropertiesModel,
}

pub open spec fn opt_pixi_view(o: Option<PixelInformationProperty>) -> Option<PixiModel> {
    match o {
        Some(p) => Some(p@),
        None => None,
    }
}

impl View for HeicPrimaryItemPreflightProperties {
    type V = HeicPreflightModel;

    open spec fn view(&self) -> HeicPreflightModel {
        HeicPreflightModel {
            item_id: self.item_id,
            hvcc: self.hvcc@,
            ispe: self.ispe,
            pixi: opt_pixi_view(self.pixi),
            colr: self.colr@,
        }
    }
}

pub open spec fn box_views<'a>(s: Seq<ParsedBox<'a>>) -> Seq<BoxModel> {
    s.map_values(|b: ParsedBox<'a>| b@)
}

pub open spec fn loc_item_views(s: Seq<ItemLocationItem>) -> Seq<LocationItemModel> {
    s.map_values(|i: ItemLocationItem| i@)
}

pub open spec fn info_entry_views(s: Seq<ItemInfoEntryBox>) -> Seq<InfoEntryModel> {
    s.map_values(|e: ItemInfoEntryBox| e@)
}

pub open spec fn ref_entry_views(s: Seq<ItemReferenceEntry>) -> Seq<ReferenceEntryModel> {
    s.map_values(|r: ItemReferenceEntry| r@)
}

pub open spec fn assoc_entry_views(s: Seq<ItemPropertyAssociationEntry>) -> Seq<AssociationEntryModel> {
    s.map_values(|e: ItemPropertyAssociationEntry| e@)
}

pub open spec fn assoc_box_views(s: Seq<ItemPropertyAssociationBox>) -> Seq<AssociationBoxModel> {
    s.map_values(|a: ItemPropertyAssociationBox| a@)
}

pub open spec fn container_views<'a>(s: Seq<ItemPropertyContainerBox<'a>>) -> Seq<PropertyContainerModel> {
    s.map_values(|c: ItemPropertyContainerBox<'a>| c@)
}

pub open spec fn resolved_prop_views<'a>(s: Seq<ResolvedPrimaryItemProperty<'a>>) -> Seq<ResolvedPropertyModel> {
    s.map_values(|p: ResolvedPrimaryItemProperty<'a>| p@)
}

pub open spec fn grid_tile_views(s: Seq<HeicGridTileItemData>) -> Seq<GridTileModel> {
    s.map_values(|t: HeicGridTileItemData| t@)
}

pub open spec fn byte_vec_views(s: Seq<Vec<u8>>) -> Seq<Seq<u8>> {
    s.map_values(|u: Vec<u8>| u@)
}

pub open spec fn nal_array_views(s: Seq<HevcNalArray>) -> Seq<NalArrayModel> {
    s.map_values(|a: HevcNalArray| a@)
}

/// A `Result` seen through the view of its success value.
pub open spec fn res_view<T: View, E>(r: Result<T, E>) -> Result<T::V, E> {
    match r {
        Ok(v) => Ok(v@),
        Err(e) => Err(e),
    }
}

} // verus!
