//! Spatial-referencing metadata of a GeoTIFF image.
//!
//! Two independent decoders work on tag payloads that a TIFF reader has
//! already extracted:
//!
//! * [`geo_key_directory`] turns the GeoKey directory and its two parameter
//!   blocks into a typed record;
//! * [`coordinate_transform`] validates the pixel-scale, tie-point and
//!   transformation-matrix tags and selects the raster-to-model transform
//!   that they describe.
//!
//! The functions are verified against contracts stated over sequences and
//! maps, and none of them panics. One function is trusted instead of
//! verified: the one in [`entry`] that asks the `tiff` crate which tag an id
//! names.

pub mod coordinate_transform;
pub mod entry;
pub mod error;
pub mod geo_key_directory;
pub mod keys;

pub use coordinate_transform::{
    AffineTransform, CoordinateTransform, Point, TiePointAndPixelScale, TransformView,
};
pub use entry::{DirectoryEntry, KeyValue, ParamsTag, TagLocation};
pub use error::FormatError;
pub use geo_key_directory::{DirectoryView, GeoKeyDirectory};
pub use keys::{GeoKeyDirectoryTag, RasterType, ValueType};
