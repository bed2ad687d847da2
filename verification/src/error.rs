//! The error that both decoders report.

use vstd::prelude::*;

use crate::keys::GeoKeyDirectoryTag;

verus! {

/// A structural defect in the tag data.
///
/// Each variant stands for one rule that the data broke and carries the key
/// and the values that broke it.
#[derive(Debug, Clone, Copy, PartialEq, Eq, Structural)]
pub enum FormatError {
    /// The pixel-scale tag does not hold exactly 3 values.
    PixelScaleLength { len: usize },
    /// The tie-point tag holds no value.
    TiePointsEmpty,
    /// The number of values in the tie-point tag is not divisible by 6.
    TiePointsNotDivisibleBySix { len: usize },
    /// The transformation tag does not hold exactly 16 values.
    TransformationLength { len: usize },
    /// The pixel-scale tag is present beside the transformation tag.
    PixelScaleWithTransformation,
    /// The tie-point tag is present beside the transformation tag.
    TiePointsWithTransformation,
    /// Neither the transformation tag nor the tie-point tag is present.
    TiePointsMissing,
    /// A single tie point is given without the pixel-scale tag.
    PixelScaleMissing,
    /// More than one tie point is given; such transforms are not supported.
    TiePointsNotSupported,
    /// The directory holds fewer than the 4 header values.
    DirectoryTooShort { len: usize },
    /// The directory does not hold 4 values for each key that its header
    /// announces.
    KeyCountMismatch { number_of_keys: u16, len: usize },
    /// The id of an entry is no known GeoKey.
    UnknownKey { id: u16 },
    /// The value of the raster-type key is no known raster type.
    UnknownRasterType { value: u16 },
    /// A key of SHORT type has a location tag other than 0.
    NotShort { key: GeoKeyDirectoryTag },
    /// A key of DOUBLE type does not point into the double parameters.
    NotDouble { key: GeoKeyDirectoryTag },
    /// A key of ASCII type does not point into the ASCII parameters.
    NotAscii { key: GeoKeyDirectoryTag },
    /// A key of SHORT or DOUBLE type has a count other than 1.
    UnexpectedCount { key: GeoKeyDirectoryTag, count: u16 },
    /// The offset of a DOUBLE key lies outside the double parameters.
    OffsetOutOfBounds { key: GeoKeyDirectoryTag, len: usize, offset: u16 },
    /// The offset of an ASCII key lies outside the ASCII parameters.
    StartOffsetOutOfBounds { key: GeoKeyDirectoryTag, len: usize, offset: u16 },
    /// The end of an ASCII key's text lies before its start or outside the
    /// ASCII parameters.
    EndOffsetOutOfBounds { key: GeoKeyDirectoryTag, len: usize, offset: u16, count: u16 },
}

} // verus!
