//! ISO base media file format (ISO/IEC 14496-12) box parsing for HEIF, HEIC and
//! AVIF files: the box tree, the item graph of the `meta` box, primary-item
//! properties and coded payload extraction.

pub mod types;
pub mod errors;
pub mod bytes;
pub mod boxes;
pub mod cursor;
pub mod leaf;
pub mod repeat;
pub mod iloc;
pub mod items;
pub mod hvcc;
pub mod find;
pub mod resolve;
pub mod primary;
pub mod heic;
pub mod extract;
pub mod grid;

pub use types::{
    Av1CodecConfigurationBox, AvifPrimaryItemData, AvifPrimaryItemProperties, BoxHeader,
    ColorInformation, ColorInformationProperty, FileTypeBox, FourCc, FullBoxHeader,
    HeicGridDescriptor, HeicGridPrimaryItemData, HeicGridTileItemData, HeicPrimaryItemData,
    HeicPrimaryItemDataWithGrid, HeicPrimaryItemPreflightProperties, HeicPrimaryItemProperties,
    HevcDecoderConfigurationBox, HevcNalArray, IccColorProfile, ImageCleanApertureProperty,
    ImageMirrorDirection, ImageMirrorProperty, ImageRotationProperty, ImageSpatialExtentsProperty,
    ItemInfoBox, ItemInfoEntryBox, ItemLocationBox, ItemLocationExtent, ItemLocationItem,
    ItemPropertiesBox, ItemPropertyAssociation, ItemPropertyAssociationBox,
    ItemPropertyAssociationEntry, ItemPropertyContainerBox, ItemReferenceBox, ItemReferenceEntry,
    MetaBox, NclxColorProfile, ParsedBox, PixelInformationProperty, PrimaryItemBox,
    PrimaryItemColorProperties, PrimaryItemTransformProperties, PrimaryItemTransformProperty,
    ResolvedPrimaryItem, ResolvedPrimaryItemGraph, ResolvedPrimaryItemProperty,
};
pub use types::{
    AV01_ITEM_TYPE, AV1C_BOX_TYPE, BASIC_HEADER_SIZE, BRAND_FIELD_SIZE, CLAP_BOX_TYPE,
    COLR_BOX_TYPE, DIMG_REFERENCE_TYPE, FTYP_BOX_TYPE, FTYP_FIXED_FIELDS_SIZE,
    FULL_BOX_HEADER_SIZE, GRID_ITEM_TYPE, HEV1_ITEM_TYPE, HVC1_ITEM_TYPE, HVCC_BOX_TYPE,
    IDAT_BOX_TYPE, IINF_BOX_TYPE, ILOC_BOX_TYPE, IMIR_BOX_TYPE, INFE_BOX_TYPE,
    INFE_ITEM_TYPE_MIME, INFE_ITEM_TYPE_URI, IPCO_BOX_TYPE, IPMA_BOX_TYPE, IPRP_BOX_TYPE,
    IREF_BOX_TYPE, IROT_BOX_TYPE, ISPE_BOX_TYPE, LARGE_SIZE_FIELD_SIZE, META_BOX_TYPE,
    NCLC_COLOR_TYPE, NCLX_COLOR_TYPE, PITM_BOX_TYPE, PIXI_BOX_TYPE, PROF_COLOR_TYPE,
    RICC_COLOR_TYPE, UUID_BOX_TYPE, UUID_EXTENDED_TYPE_SIZE,
};
pub use errors::{
    ExtractAvifItemDataError, ExtractHeicItemDataError, ItemLocationField,
    ParseAv1CodecConfigurationBoxError, ParseBoxError, ParseColorInformationPropertyError,
    ParseFileTypeBoxError, ParseFullBoxError, ParseHevcDecoderConfigurationBoxError,
    ParseImageCleanAperturePropertyError, ParseImageMirrorPropertyError,
    ParseImageRotationPropertyError, ParseImageSpatialExtentsPropertyError,
    ParseItemInfoBoxError, ParseItemInfoEntryBoxError, ParseItemLocationBoxError,
    ParseItemPropertiesBoxError, ParseItemPropertyAssociationBoxError,
    ParseItemPropertyContainerBoxError, ParseItemReferenceBoxError, ParseMetaBoxError,
    ParsePixelInformationPropertyError, ParsePrimaryAvifPropertiesError,
    ParsePrimaryHeicPropertiesError, ParsePrimaryItemBoxError,
    ParsePrimaryItemTransformPropertiesError, ResolvePrimaryItemGraphError,
};
pub use boxes::{parse_boxes, BoxIter};
pub use primary::{parse_primary_avif_item_properties, parse_primary_item_transform_properties};
pub use heic::{parse_primary_heic_item_preflight_properties, parse_primary_heic_item_properties};
pub use extract::{extract_primary_avif_item_data, extract_primary_heic_item_data};
pub use grid::extract_primary_heic_item_data_with_grid;
