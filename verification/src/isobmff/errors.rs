use vstd::prelude::*;
use super::types::FourCc;

verus! {

/// Errors returned when parsing an `ftyp` payload.
#[derive(Clone, Debug, Eq, PartialEq)]
pub enum ParseFileTypeBoxError {
    UnexpectedBoxType { offset: u64, actual: FourCc },
    PayloadTooSmall { offset: u64, available: usize },
    IncompleteCompatibleBrand { offset: u64, bytes: usize },
}

/// Errors returned when parsing a FullBox header.
#[derive(Clone, Debug, Eq, PartialEq)]
pub enum ParseFullBoxError {
    PayloadTooSmall { offset: u64, available: usize },
}

/// Errors returned when parsing a `meta` payload.
#[derive(Clone, Debug, Eq, PartialEq)]
pub enum ParseMetaBoxError {
    UnexpectedBoxType { offset: u64, actual: FourCc },
    FullBox(ParseFullBoxError),
    UnsupportedVersion { offset: u64, version: u8 },
}

/// Errors returned when parsing a `pitm` payload.
#[derive(Clone, Debug, Eq, PartialEq)]
pub enum ParsePrimaryItemBoxError {
    UnexpectedBoxType {
        offset: u64,
        actual: FourCc,
    },
    FullBox(ParseFullBoxError),
    UnsupportedVersion {
        offset: u64,
        version: u8,
    },
    PayloadTooSmallForItemId {
        offset: u64,
        version: u8,
        available: usize,
        required: usize,
    },
}

/// Size descriptor fields in an `iloc` box header.
#[derive(Clone, Copy, Debug, Eq, PartialEq)]
pub enum ItemLocationField {
    Offset,
    Length,
    BaseOffset,
    Index,
}

/// Errors returned when parsing an `iloc` payload.
#[derive(Clone, Debug, Eq, PartialEq)]
pub enum ParseItemLocationBoxError {
    UnexpectedBoxType {
        offset: u64,
        actual: FourCc,
    },
    FullBox(ParseFullBoxError),
    UnsupportedVersion {
        offset: u64,
        version: u8,
    },
    UnsupportedFieldSize {
        offset: u64,
        field: ItemLocationField,
        size: u8,
    },
    PayloadTooSmall {
        offset: u64,
        context: &'static str,
        available: usize,
        required: usize,
    },
}

/// Errors returned when parsing an `infe` payload.
#[derive(Clone, Debug, Eq, PartialEq)]
pub enum ParseItemInfoEntryBoxError {
    UnexpectedBoxType {
        offset: u64,
        actual: FourCc,
    },
    FullBox(ParseFullBoxError),
    UnsupportedVersion {
        offset: u64,
        version: u8,
    },
    PayloadTooSmall {
        offset: u64,
        context: &'static str,
        available: usize,
        required: usize,
    },
}

/// Errors returned when parsing an `iinf` payload.
#[derive(Clone, Debug, Eq, PartialEq)]
pub enum ParseItemInfoBoxError {
    UnexpectedBoxType {
        offset: u64,
        actual: FourCc,
    },
    FullBox(ParseFullBoxError),
    PayloadTooSmall {
        offset: u64,
        context: &'static str,
        available: usize,
        required: usize,
    },
    EntryCountTooLarge {
        offset: u64,
        item_count: u32,
    },
    ChildBox(ParseBoxError),
    DeclaredEntryCountMismatch {
        offset: u64,
        declared: u32,
        parsed: usize,
    },
    UnexpectedEntryBoxType {
        offset: u64,
        actual: FourCc,
    },
    Entry(ParseItemInfoEntryBoxError),
}

/// Errors returned when parsing an `iref` payload.
#[derive(Clone, Debug, Eq, PartialEq)]
pub enum ParseItemReferenceBoxError {
    UnexpectedBoxType {
        offset: u64,
        actual: FourCc,
    },
    FullBox(ParseFullBoxError),
    UnsupportedVersion {
        offset: u64,
        version: u8,
    },
    ChildBox(ParseBoxError),
    PayloadTooSmall {
        offset: u64,
        context: &'static str,
        available: usize,
        required: usize,
    },
    EmptyReferenceList {
        offset: u64,
        reference_type: FourCc,
    },
}

/// Errors returned when parsing an `ipco` payload.
#[derive(Clone, Debug, Eq, PartialEq)]
pub enum ParseItemPropertyContainerBoxError {
    UnexpectedBoxType { offset: u64, actual: FourCc },
    ChildBox(ParseBoxError),
}

/// Errors returned when parsing an `ipma` payload.
#[derive(Clone, Debug, Eq, PartialEq)]
pub enum ParseItemPropertyAssociationBoxError {
    UnexpectedBoxType {
        offset: u64,
        actual: FourCc,
    },
    FullBox(ParseFullBoxError),
    UnsupportedVersion {
        offset: u64,
        version: u8,
    },
    PayloadTooSmall {
        offset: u64,
        context: &'static str,
        available: usize,
        required: usize,
    },
    EntryCountTooLarge {
        offset: u64,
        entry_count: u32,
    },
}

/// Errors returned when parsing an `iprp` payload.
#[derive(Clone, Debug, Eq, PartialEq)]
pub enum ParseItemPropertiesBoxError {
    UnexpectedBoxType { offset: u64, actual: FourCc },
    ChildBox(ParseBoxError),
    PropertyContainer(ParseItemPropertyContainerBoxError),
    PropertyAssociation(ParseItemPropertyAssociationBoxError),
}

/// Errors returned when resolving the primary item from a parsed `meta` graph.
#[derive(Clone, Debug, Eq, PartialEq)]
pub enum ResolvePrimaryItemGraphError {
    ChildBox(ParseBoxError),
    MissingRequiredBox {
        offset: u64,
        box_type: FourCc,
    },
    PrimaryItem(ParsePrimaryItemBoxError),
    ItemLocation(ParseItemLocationBoxError),
    ItemInfo(ParseItemInfoBoxError),
    ItemProperties(ParseItemPropertiesBoxError),
    ItemReference(ParseItemReferenceBoxError),
    PrimaryItemMissingFromItemInfo {
        offset: u64,
        item_id: u32,
    },
    PrimaryItemMissingFromLocations {
        offset: u64,
        item_id: u32,
    },
    PropertyIndexOutOfRange {
        offset: u64,
        item_id: u32,
        property_index: u16,
        available: usize,
    },
}

/// Errors returned when parsing an `av1C` payload.
#[derive(Clone, Debug, Eq, PartialEq)]
pub enum ParseAv1CodecConfigurationBoxError {
    UnexpectedBoxType {
        offset: u64,
        actual: FourCc,
    },
    PayloadTooSmall {
        offset: u64,
        available: usize,
        required: usize,
    },
    InvalidMarkerBit {
        offset: u64,
        value: u8,
    },
}

/// Errors returned when parsing an `hvcC` payload.
#[derive(Clone, Debug, Eq, PartialEq)]
pub enum ParseHevcDecoderConfigurationBoxError {
    UnexpectedBoxType {
        offset: u64,
        actual: FourCc,
    },
    PayloadTooSmall {
        offset: u64,
        context: &'static str,
        available: usize,
        required: usize,
    },
    UnsupportedConfigurationVersion {
        offset: u64,
        version: u8,
    },
}

/// Errors returned when parsing an `ispe` payload.
#[derive(Clone, Debug, Eq, PartialEq)]
pub enum ParseImageSpatialExtentsPropertyError {
    UnexpectedBoxType {
        offset: u64,
        actual: FourCc,
    },
    FullBox(ParseFullBoxError),
    UnsupportedVersion {
        offset: u64,
        version: u8,
    },
    PayloadTooSmall {
        offset: u64,
        available: usize,
        required: usize,
    },
}

/// Errors returned when parsing a `pixi` payload.
#[derive(Clone, Debug, Eq, PartialEq)]
pub enum ParsePixelInformationPropertyError {
    UnexpectedBoxType {
        offset: u64,
        actual: FourCc,
    },
    FullBox(ParseFullBoxError),
    UnsupportedVersion {
        offset: u64,
        version: u8,
    },
    PayloadTooSmall {
        offset: u64,
        context: &'static str,
        available: usize,
        required: usize,
    },
}

/// Errors returned when parsing a `colr` payload.
#[derive(Clone, Debug, Eq, PartialEq)]
pub enum ParseColorInformationPropertyError {
    UnexpectedBoxType {
        offset: u64,
        actual: FourCc,
    },
    PayloadTooSmall {
        offset: u64,
        context: &'static str,
        available: usize,
        required: usize,
    },
    UnknownColourType {
        offset: u64,
        colour_type: FourCc,
    },
}

/// Errors returned when parsing an `irot` payload.
#[derive(Clone, Debug, Eq, PartialEq)]
pub enum ParseImageRotationPropertyError {
    UnexpectedBoxType {
        offset: u64,
        actual: FourCc,
    },
    PayloadTooSmall {
        offset: u64,
        available: usize,
        required: usize,
    },
}

/// Errors returned when parsing an `imir` payload.
#[derive(Clone, Debug, Eq, PartialEq)]
pub enum ParseImageMirrorPropertyError {
    UnexpectedBoxType {
        offset: u64,
        actual: FourCc,
    },
    PayloadTooSmall {
        offset: u64,
        available: usize,
        required: usize,
    },
}

/// Errors returned when parsing a `clap` payload.
#[derive(Clone, Debug, Eq, PartialEq)]
pub enum ParseImageCleanAperturePropertyError {
    UnexpectedBoxType {
        offset: u64,
        actual: FourCc,
    },
    PayloadTooSmall {
        offset: u64,
        available: usize,
        required: usize,
    },
    ZeroDenominator {
        offset: u64,
        field: &'static str,
    },
}

/// Errors returned when parsing primary-item transform properties.
#[derive(Clone, Debug, Eq, PartialEq)]
pub enum ParsePrimaryItemTransformPropertiesError {
    TopLevelBoxes(ParseBoxError),
    MissingMetaBox,
    Meta(ParseMetaBoxError),
    ResolvePrimaryItem(ResolvePrimaryItemGraphError),
    ImageCleanAperture(ParseImageCleanAperturePropertyError),
    ImageRotation(ParseImageRotationPropertyError),
    ImageMirror(ParseImageMirrorPropertyError),
}

/// Errors returned when parsing/validating primary AVIF properties.
#[derive(Clone, Debug, Eq, PartialEq)]
pub enum ParsePrimaryAvifPropertiesError {
    TopLevelBoxes(ParseBoxError),
    MissingMetaBox,
    Meta(ParseMetaBoxError),
    ResolvePrimaryItem(ResolvePrimaryItemGraphError),
    MissingPrimaryItemType {
        item_id: u32,
    },
    UnexpectedPrimaryItemType {
        item_id: u32,
        actual: FourCc,
    },
    MissingRequiredProperty {
        item_id: u32,
        property_type: FourCc,
    },
    DuplicateProperty {
        item_id: u32,
        property_type: FourCc,
    },
    Av1Codec(ParseAv1CodecConfigurationBoxError),
    ImageSpatialExtents(ParseImageSpatialExtentsPropertyError),
    PixelInformation(ParsePixelInformationPropertyError),
    ColorInformation(ParseColorInformationPropertyError),
    InvalidImageExtent {
        item_id: u32,
        width: u32,
        height: u32,
    },
    InvalidPixiChannelCount {
        item_id: u32,
        channel_count: usize,
    },
    InvalidPixiBitsPerChannel {
        item_id: u32,
        channel_index: usize,
    },
}

/// Errors returned when parsing/validating primary HEIC properties.
#[derive(Clone, Debug, Eq, PartialEq)]
pub enum ParsePrimaryHeicPropertiesError {
    TopLevelBoxes(ParseBoxError),
    MissingMetaBox,
    Meta(ParseMetaBoxError),
    ResolvePrimaryItem(ResolvePrimaryItemGraphError),
    MissingPrimaryItemType {
        item_id: u32,
    },
    UnexpectedPrimaryItemType {
        item_id: u32,
        actual: FourCc,
    },
    MissingRequiredProperty {
        item_id: u32,
        property_type: FourCc,
    },
    DuplicateProperty {
        item_id: u32,
        property_type: FourCc,
    },
    HevcCodec(ParseHevcDecoderConfigurationBoxError),
    ImageSpatialExtents(ParseImageSpatialExtentsPropertyError),
    PixelInformation(ParsePixelInformationPropertyError),
    ColorInformation(ParseColorInformationPropertyError),
    InvalidImageExtent {
        item_id: u32,
        width: u32,
        height: u32,
    },
    InvalidPixiChannelCount {
        item_id: u32,
        channel_count: usize,
    },
    InvalidPixiBitsPerChannel {
        item_id: u32,
        channel_index: usize,
    },
}

/// Errors returned when extracting the primary AVIF payload from BMFF boxes.
#[derive(Clone, Debug, Eq, PartialEq)]
pub enum ExtractAvifItemDataError {
    TopLevelBoxes(ParseBoxError),
    MissingMetaBox,
    Meta(ParseMetaBoxError),
    ResolvePrimaryItem(ResolvePrimaryItemGraphError),
    MissingPrimaryItemType {
        item_id: u32,
    },
    UnexpectedPrimaryItemType {
        item_id: u32,
        actual: FourCc,
    },
    UnsupportedDataReferenceIndex {
        item_id: u32,
        data_reference_index: u16,
    },
    UnsupportedConstructionMethod {
        item_id: u32,
        construction_method: u8,
    },
    MissingIdatBox {
        item_id: u32,
    },
    MetaChildBoxes(ParseBoxError),
    ExtentOffsetOverflow {
        item_id: u32,
        base_offset: u64,
        extent_offset: u64,
        extent_length: u64,
    },
    ExtentOutOfBounds {
        item_id: u32,
        construction_method: u8,
        start: u64,
        length: u64,
        available: u64,
    },
    PayloadTooLarge {
        item_id: u32,
        length: u64,
    },
}

/// Errors returned when extracting the primary HEIC payload from BMFF boxes.
#[derive(Clone, Debug, Eq, PartialEq)]
pub enum ExtractHeicItemDataError {
    TopLevelBoxes(ParseBoxError),
    MissingMetaBox,
    Meta(ParseMetaBoxError),
    ResolvePrimaryItem(ResolvePrimaryItemGraphError),
    MissingPrimaryItemType {
        item_id: u32,
    },
    UnexpectedPrimaryItemType {
        item_id: u32,
        actual: FourCc,
    },
    GridDescriptorTooSmall {
        item_id: u32,
        available: usize,
        required: usize,
    },
    UnsupportedGridDescriptorVersion {
        item_id: u32,
        version: u8,
    },
    MissingGridTileReferences {
        item_id: u32,
    },
    GridTileCountMismatch {
        item_id: u32,
        rows: u16,
        columns: u16,
        expected: usize,
        actual: usize,
    },
    MissingGridTileItemInfo {
        item_id: u32,
        tile_item_id: u32,
    },
    MissingGridTileItemType {
        item_id: u32,
        tile_item_id: u32,
    },
    UnexpectedGridTileItemType {
        item_id: u32,
        tile_item_id: u32,
        actual: FourCc,
    },
    MissingGridTileLocation {
        item_id: u32,
        tile_item_id: u32,
    },
    GridTilePropertyIndexOutOfRange {
        item_id: u32,
        tile_item_id: u32,
        property_index: u16,
        available: usize,
    },
    MissingGridTileCodecConfiguration {
        item_id: u32,
        tile_item_id: u32,
    },
    DuplicateGridTileCodecConfiguration {
        item_id: u32,
        tile_item_id: u32,
    },
    GridTileCodecConfiguration {
        item_id: u32,
        tile_item_id: u32,
        source: ParseHevcDecoderConfigurationBoxError,
    },
    UnsupportedDataReferenceIndex {
        item_id: u32,
        data_reference_index: u16,
    },
    UnsupportedConstructionMethod {
        item_id: u32,
        construction_method: u8,
    },
    MissingIdatBox {
        item_id: u32,
    },
    MetaChildBoxes(ParseBoxError),
    ExtentOffsetOverflow {
        item_id: u32,
        base_offset: u64,
        extent_offset: u64,
        extent_length: u64,
    },
    ExtentOutOfBounds {
        item_id: u32,
        construction_method: u8,
        start: u64,
        length: u64,
        available: u64,
    },
    PayloadTooLarge {
        item_id: u32,
        length: u64,
    },
}

/// Errors returned by strict BMFF box parsing.
#[derive(Clone, Debug, Eq, PartialEq)]
pub enum ParseBoxError {
    TruncatedHeader {
        offset: u64,
        available: usize,
    },
    TruncatedLargeSize {
        offset: u64,
        available: usize,
    },
    TruncatedUuid {
        offset: u64,
        available: usize,
    },
    InvalidBoxSize {
        offset: u64,
        box_size: u64,
        header_size: u8,
    },
    BoxOutOfBounds {
        offset: u64,
        box_size: u64,
        available: u64,
    },
}

// ---- conversions from the errors of nested parses ----

impl From<ParseFullBoxError> for ParseMetaBoxError {
    fn from(value: ParseFullBoxError) -> (r: Self) {
        Self::FullBox(value)
    }
}

impl vstd::std_specs::convert::FromSpecImpl<ParseFullBoxError> for ParseMetaBoxError {
    open spec fn obeys_from_spec() -> bool {
        true
    }

    open spec fn from_spec(value: ParseFullBoxError) -> Self {
        ParseMetaBoxError::FullBox(value)
    }
}

impl From<ParseFullBoxError> for ParsePrimaryItemBoxError {
    fn from(value: ParseFullBoxError) -> (r: Self) {
        Self::FullBox(value)
    }
}

impl vstd::std_specs::convert::FromSpecImpl<ParseFullBoxError> for ParsePrimaryItemBoxError {
    open spec fn obeys_from_spec() -> bool {
        true
    }

    open spec fn from_spec(value: ParseFullBoxError) -> Self {
        ParsePrimaryItemBoxError::FullBox(value)
    }
}

impl From<ParseFullBoxError> for ParseItemLocationBoxError {
    fn from(value: ParseFullBoxError) -> (r: Self) {
        Self::FullBox(value)
    }
}

impl vstd::std_specs::convert::FromSpecImpl<ParseFullBoxError> for ParseItemLocationBoxError {
    open spec fn obeys_from_spec() -> bool {
        true
    }

    open spec fn from_spec(value: ParseFullBoxError) -> Self {
        ParseItemLocationBoxError::FullBox(value)
    }
}

impl From<ParseFullBoxError> for ParseItemInfoEntryBoxError {
    fn from(value: ParseFullBoxError) -> (r: Self) {
        Self::FullBox(value)
    }
}

impl vstd::std_specs::convert::FromSpecImpl<ParseFullBoxError> for ParseItemInfoEntryBoxError {
    open spec fn obeys_from_spec() -> bool {
        true
    }

    open spec fn from_spec(value: ParseFullBoxError) -> Self {
        ParseItemInfoEntryBoxError::FullBox(value)
    }
}

impl From<ParseFullBoxError> for ParseItemInfoBoxError {
    fn from(value: ParseFullBoxError) -> (r: Self) {
        Self::FullBox(value)
    }
}

impl vstd::std_specs::convert::FromSpecImpl<ParseFullBoxError> for ParseItemInfoBoxError {
    open spec fn obeys_from_spec() -> bool {
        true
    }

    open spec fn from_spec(value: ParseFullBoxError) -> Self {
        ParseItemInfoBoxError::FullBox(value)
    }
}

impl From<ParseBoxError> for ParseItemInfoBoxError {
    fn from(value: ParseBoxError) -> (r: Self) {
        Self::ChildBox(value)
    }
}

impl vstd::std_specs::convert::FromSpecImpl<ParseBoxError> for ParseItemInfoBoxError {
    open spec fn obeys_from_spec() -> bool {
        true
    }

    open spec fn from_spec(value: ParseBoxError) -> Self {
        ParseItemInfoBoxError::ChildBox(value)
    }
}

impl From<ParseItemInfoEntryBoxError> for ParseItemInfoBoxError {
    fn from(value: ParseItemInfoEntryBoxError) -> (r: Self) {
        Self::Entry(value)
    }
}

impl vstd::std_specs::convert::FromSpecImpl<ParseItemInfoEntryBoxError> for ParseItemInfoBoxError {
    open spec fn obeys_from_spec() -> bool {
        true
    }

    open spec fn from_spec(value: ParseItemInfoEntryBoxError) -> Self {
        ParseItemInfoBoxError::Entry(value)
    }
}

impl From<ParseFullBoxError> for ParseItemReferenceBoxError {
    fn from(value: ParseFullBoxError) -> (r: Self) {
        Self::FullBox(value)
    }
}

impl vstd::std_specs::convert::FromSpecImpl<ParseFullBoxError> for ParseItemReferenceBoxError {
    open spec fn obeys_from_spec() -> bool {
        true
    }

    open spec fn from_spec(value: ParseFullBoxError) -> Self {
        ParseItemReferenceBoxError::FullBox(value)
    }
}

impl From<ParseBoxError> for ParseItemReferenceBoxError {
    fn from(value: ParseBoxError) -> (r: Self) {
        Self::ChildBox(value)
    }
}

impl vstd::std_specs::convert::FromSpecImpl<ParseBoxError> for ParseItemReferenceBoxError {
    open spec fn obeys_from_spec() -> bool {
        true
    }

    open spec fn from_spec(value: ParseBoxError) -> Self {
        ParseItemReferenceBoxError::ChildBox(value)
    }
}

impl From<ParseBoxError> for ParseItemPropertyContainerBoxError {
    fn from(value: ParseBoxError) -> (r: Self) {
        Self::ChildBox(value)
    }
}

impl vstd::std_specs::convert::FromSpecImpl<ParseBoxError> for ParseItemPropertyContainerBoxError {
    open spec fn obeys_from_spec() -> bool {
        true
    }

    open spec fn from_spec(value: ParseBoxError) -> Self {
        ParseItemPropertyContainerBoxError::ChildBox(value)
    }
}

impl From<ParseFullBoxError> for ParseItemPropertyAssociationBoxError {
    fn from(value: ParseFullBoxError) -> (r: Self) {
        Self::FullBox(value)
    }
}

impl vstd::std_specs::convert::FromSpecImpl<ParseFullBoxError> for ParseItemPropertyAssociationBoxError {
    open spec fn obeys_from_spec() -> bool {
        true
    }

    open spec fn from_spec(value: ParseFullBoxError) -> Self {
        ParseItemPropertyAssociationBoxError::FullBox(value)
    }
}

impl From<ParseBoxError> for ParseItemPropertiesBoxError {
    fn from(value: ParseBoxError) -> (r: Self) {
        Self::ChildBox(value)
    }
}

impl vstd::std_specs::convert::FromSpecImpl<ParseBoxError> for ParseItemPropertiesBoxError {
    open spec fn obeys_from_spec() -> bool {
        true
    }

    open spec fn from_spec(value: ParseBoxError) -> Self {
        ParseItemPropertiesBoxError::ChildBox(value)
    }
}

impl From<ParseItemPropertyContainerBoxError> for ParseItemPropertiesBoxError {
    fn from(value: ParseItemPropertyContainerBoxError) -> (r: Self) {
        Self::PropertyContainer(value)
    }
}

impl vstd::std_specs::convert::FromSpecImpl<ParseItemPropertyContainerBoxError> for ParseItemPropertiesBoxError {
    open spec fn obeys_from_spec() -> bool {
        true
    }

    open spec fn from_spec(value: ParseItemPropertyContainerBoxError) -> Self {
        ParseItemPropertiesBoxError::PropertyContainer(value)
    }
}

impl From<ParseItemPropertyAssociationBoxError> for ParseItemPropertiesBoxError {
    fn from(value: ParseItemPropertyAssociationBoxError) -> (r: Self) {
        Self::PropertyAssociation(value)
    }
}

impl vstd::std_specs::convert::FromSpecImpl<ParseItemPropertyAssociationBoxError> for ParseItemPropertiesBoxError {
    open spec fn obeys_from_spec() -> bool {
        true
    }

    open spec fn from_spec(value: ParseItemPropertyAssociationBoxError) -> Self {
        ParseItemPropertiesBoxError::PropertyAssociation(value)
    }
}

impl From<ParseBoxError> for ResolvePrimaryItemGraphError {
    fn from(value: ParseBoxError) -> (r: Self) {
        Self::ChildBox(value)
    }
}

impl vstd::std_specs::convert::FromSpecImpl<ParseBoxError> for ResolvePrimaryItemGraphError {
    open spec fn obeys_from_spec() -> bool {
        true
    }

    open spec fn from_spec(value: ParseBoxError) -> Self {
        ResolvePrimaryItemGraphError::ChildBox(value)
    }
}

impl From<ParsePrimaryItemBoxError> for ResolvePrimaryItemGraphError {
    fn from(value: ParsePrimaryItemBoxError) -> (r: Self) {
        Self::PrimaryItem(value)
    }
}

impl vstd::std_specs::convert::FromSpecImpl<ParsePrimaryItemBoxError> for ResolvePrimaryItemGraphError {
    open spec fn obeys_from_spec() -> bool {
        true
    }

    open spec fn from_spec(value: ParsePrimaryItemBoxError) -> Self {
        ResolvePrimaryItemGraphError::PrimaryItem(value)
    }
}

impl From<ParseItemLocationBoxError> for ResolvePrimaryItemGraphError {
    fn from(value: ParseItemLocationBoxError) -> (r: Self) {
        Self::ItemLocation(value)
    }
}

impl vstd::std_specs::convert::FromSpecImpl<ParseItemLocationBoxError> for ResolvePrimaryItemGraphError {
    open spec fn obeys_from_spec() -> bool {
        true
    }

    open spec fn from_spec(value: ParseItemLocationBoxError) -> Self {
        ResolvePrimaryItemGraphError::ItemLocation(value)
    }
}

impl From<ParseItemInfoBoxError> for ResolvePrimaryItemGraphError {
    fn from(value: ParseItemInfoBoxError) -> (r: Self) {
        Self::ItemInfo(value)
    }
}

impl vstd::std_specs::convert::FromSpecImpl<ParseItemInfoBoxError> for ResolvePrimaryItemGraphError {
    open spec fn obeys_from_spec() -> bool {
        true
    }

    open spec fn from_spec(value: ParseItemInfoBoxError) -> Self {
        ResolvePrimaryItemGraphError::ItemInfo(value)
    }
}

impl From<ParseItemPropertiesBoxError> for ResolvePrimaryItemGraphError {
    fn from(value: ParseItemPropertiesBoxError) -> (r: Self) {
        Self::ItemProperties(value)
    }
}

impl vstd::std_specs::convert::FromSpecImpl<ParseItemPropertiesBoxError> for ResolvePrimaryItemGraphError {
    open spec fn obeys_from_spec() -> bool {
        true
    }

    open spec fn from_spec(value: ParseItemPropertiesBoxError) -> Self {
        ResolvePrimaryItemGraphError::ItemProperties(value)
    }
}

impl From<ParseItemReferenceBoxError> for ResolvePrimaryItemGraphError {
    fn from(value: ParseItemReferenceBoxError) -> (r: Self) {
        Self::ItemReference(value)
    }
}

impl vstd::std_specs::convert::FromSpecImpl<ParseItemReferenceBoxError> for ResolvePrimaryItemGraphError {
    open spec fn obeys_from_spec() -> bool {
        true
    }

    open spec fn from_spec(value: ParseItemReferenceBoxError) -> Self {
        ResolvePrimaryItemGraphError::ItemReference(value)
    }
}

impl From<ParseFullBoxError> for ParseImageSpatialExtentsPropertyError {
    fn from(value: ParseFullBoxError) -> (r: Self) {
        Self::FullBox(value)
    }
}

impl vstd::std_specs::convert::FromSpecImpl<ParseFullBoxError> for ParseImageSpatialExtentsPropertyError {
    open spec fn obeys_from_spec() -> bool {
        true
    }

    open spec fn from_spec(value: ParseFullBoxError) -> Self {
        ParseImageSpatialExtentsPropertyError::FullBox(value)
    }
}

impl From<ParseFullBoxError> for ParsePixelInformationPropertyError {
    fn from(value: ParseFullBoxError) -> (r: Self) {
        Self::FullBox(value)
    }
}

impl vstd::std_specs::convert::FromSpecImpl<ParseFullBoxError> for ParsePixelInformationPropertyError {
    open spec fn obeys_from_spec() -> bool {
        true
    }

    open spec fn from_spec(value: ParseFullBoxError) -> Self {
        ParsePixelInformationPropertyError::FullBox(value)
    }
}

} // verus!
