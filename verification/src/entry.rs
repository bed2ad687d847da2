//! One entry of a GeoKey directory and the three typed ways to read it.

use tiff::tags::Tag;
use vstd::prelude::*;
use vstd::string::*;

use crate::error::FormatError;
use crate::keys::{GeoKeyDirectoryTag, RasterType, ValueType};

verus! {

/// One of the two TIFF tags whose payload holds GeoKey values.
#[derive(Debug, Clone, Copy, PartialEq, Eq, Structural)]
pub enum ParamsTag {
    /// The tag of the double parameters.
    GeoDoubleParams,
    /// The tag of the ASCII parameters.
    GeoAsciiParams,
}

/// Where a directory entry says its value is held.
#[derive(Debug, Clone, Copy, PartialEq, Eq, Structural)]
pub enum TagLocation {
    /// Location tag 0: the value stands in the entry itself.
    Inline,
    /// The value stands in the double parameters.
    DoubleParams,
    /// The value stands in the ASCII parameters.
    AsciiParams,
    /// Any other location tag.
    Other,
}

/// The id of the TIFF tag that holds the double parameters.
pub const GEO_DOUBLE_PARAMS_TAG: u16 = 34736;

/// The id of the TIFF tag that holds the ASCII parameters.
pub const GEO_ASCII_PARAMS_TAG: u16 = 34737;

/// The parameter block that the TIFF tag with id `tag` holds, if it holds one.
pub open spec fn params_tag_of(tag: u16) -> Option<ParamsTag> {
    if tag == GEO_DOUBLE_PARAMS_TAG {
        Some(ParamsTag::GeoDoubleParams)
    } else if tag == GEO_ASCII_PARAMS_TAG {
        Some(ParamsTag::GeoAsciiParams)
    } else {
        None
    }
}

/// Asks `tiff::tags::Tag::from_u16` which tag has the id `tag`.
///
/// Trusted: `Tag::from_u16` yields `GeoDoubleParamsTag` for 34736 and for no
/// other id, `GeoAsciiParamsTag` for 34737 and for no other id. Every other
/// answer, a different tag or none, is reported as `None`.
#[verifier::external_body]
fn params_tag(tag: u16) -> (block: Option<ParamsTag>)
    ensures
        block == params_tag_of(tag),
{
    match Tag::from_u16(tag) {
        Some(Tag::GeoDoubleParamsTag) => Some(ParamsTag::GeoDoubleParams),
        Some(Tag::GeoAsciiParamsTag) => Some(ParamsTag::GeoAsciiParams),
        _ => None,
    }
}

impl TagLocation {
    /// The location that the location tag `tag` of an entry names.
    pub open spec fn of_tag(tag: u16) -> TagLocation {
        if tag == 0 {
            TagLocation::Inline
        } else {
            match params_tag_of(tag) {
                Some(ParamsTag::GeoDoubleParams) => TagLocation::DoubleParams,
                Some(ParamsTag::GeoAsciiParams) => TagLocation::AsciiParams,
                None => TagLocation::Other,
            }
        }
    }

    /// Reads the location tag of an entry.
    pub fn from_u16(tag: u16) -> (location: TagLocation)
        ensures
            location == Self::of_tag(tag),
    {
        if tag == 0 {
            TagLocation::Inline
        } else {
            match params_tag(tag) {
                Some(ParamsTag::GeoDoubleParams) => TagLocation::DoubleParams,
                Some(ParamsTag::GeoAsciiParams) => TagLocation::AsciiParams,
                None => TagLocation::Other,
            }
        }
    }
}

/// The value that a directory holds under one key.
pub enum KeyValue<D> {
    /// The value of a SHORT key.
    Short(u16),
    /// The value of the raster-type key.
    RasterType(RasterType),
    /// The value of a DOUBLE key.
    Double(D),
    /// The text of an ASCII key.
    Ascii(Seq<char>),
}

/// One entry of the directory: a key, the place of its value, a count and
/// the value itself or its offset.
#[derive(Debug, Clone, Copy, PartialEq, Eq, Structural)]
pub struct DirectoryEntry {
    pub key_tag: GeoKeyDirectoryTag,
    pub location_tag: TagLocation,
    pub count: u16,
    pub value_or_offset: u16,
}

impl DirectoryEntry {
    /// The entry that the four values `key_id`, `location_tag`, `count` and
    /// `value_or_offset` form.
    pub open spec fn of_values(key_id: u16, location_tag: u16, count: u16, value_or_offset: u16)
        -> Result<DirectoryEntry, FormatError> {
        match GeoKeyDirectoryTag::of_code(key_id) {
            None => Err(FormatError::UnknownKey { id: key_id }),
            Some(key_tag) => Ok(
                DirectoryEntry {
                    key_tag,
                    location_tag: TagLocation::of_tag(location_tag),
                    count,
                    value_or_offset,
                },
            ),
        }
    }

    /// What reading the entry as a SHORT gives.
    pub open spec fn short_value(self) -> Result<u16, FormatError> {
        if self.location_tag != TagLocation::Inline {
            Err(FormatError::NotShort { key: self.key_tag })
        } else if self.count != 1 {
            Err(FormatError::UnexpectedCount { key: self.key_tag, count: self.count })
        } else {
            Ok(self.value_or_offset)
        }
    }

    /// What reading the entry as a raster type gives.
    pub open spec fn raster_type_value(self) -> Result<RasterType, FormatError> {
        match self.short_value() {
            Err(e) => Err(e),
            Ok(value) => match RasterType::of_code(value) {
                None => Err(FormatError::UnknownRasterType { value }),
                Some(raster_type) => Ok(raster_type),
            },
        }
    }

    /// What reading the entry as a DOUBLE out of `data` gives.
    pub open spec fn double_value<D>(self, data: Seq<D>) -> Result<D, FormatError> {
        if self.location_tag != TagLocation::DoubleParams {
            Err(FormatError::NotDouble { key: self.key_tag })
        } else if self.count != 1 {
            Err(FormatError::UnexpectedCount { key: self.key_tag, count: self.count })
        } else if self.value_or_offset >= data.len() {
            Err(
                FormatError::OffsetOutOfBounds {
                    key: self.key_tag,
                    len: data.len() as usize,
                    offset: self.value_or_offset,
                },
            )
        } else {
            Ok(data[self.value_or_offset as int])
        }
    }

    /// The position just behind the text of an ASCII entry: the last of its
    /// `count` characters is a delimiter and no part of the text.
    pub open spec fn text_end(self) -> int {
        self.value_or_offset + self.count - 1
    }

    /// What reading the entry as text out of `data` gives.
    pub open spec fn string_value(self, data: Seq<char>) -> Result<Seq<char>, FormatError> {
        if self.location_tag != TagLocation::AsciiParams {
            Err(FormatError::NotAscii { key: self.key_tag })
        } else if self.value_or_offset >= data.len() {
            Err(
                FormatError::StartOffsetOutOfBounds {
                    key: self.key_tag,
                    len: data.len() as usize,
                    offset: self.value_or_offset,
                },
            )
        } else if self.text_end() < self.value_or_offset || self.text_end() >= data.len() {
            Err(
                FormatError::EndOffsetOutOfBounds {
                    key: self.key_tag,
                    len: data.len() as usize,
                    offset: self.value_or_offset,
                    count: self.count,
                },
            )
        } else {
            Ok(data.subrange(self.value_or_offset as int, self.text_end()))
        }
    }

    /// The value that the entry stands for, read by the type that the key
    /// table declares for its key.
    pub open spec fn value<D>(self, double_params: Seq<D>, ascii_params: Seq<char>) -> Result<
        KeyValue<D>,
        FormatError,
    > {
        match self.key_tag.value_type() {
            ValueType::Short => if self.key_tag == GeoKeyDirectoryTag::RasterType {
                match self.raster_type_value() {
                    Err(e) => Err(e),
                    Ok(raster_type) => Ok(KeyValue::RasterType(raster_type)),
                }
            } else {
                match self.short_value() {
                    Err(e) => Err(e),
                    Ok(value) => Ok(KeyValue::Short(value)),
                }
            },
            ValueType::Double => match self.double_value(double_params) {
                Err(e) => Err(e),
                Ok(value) => Ok(KeyValue::Double(value)),
            },
            ValueType::Ascii => match self.string_value(ascii_params) {
                Err(e) => Err(e),
                Ok(text) => Ok(KeyValue::Ascii(text)),
            },
        }
    }

    /// A key of SHORT type whose location tag is not 0, or whose count is not
    /// 1, cannot be read, and the error names the key.
    pub proof fn lemma_short_defect_names_key<D>(
        self,
        double_params: Seq<D>,
        ascii_params: Seq<char>,
    )
        requires
            self.key_tag.value_type() == ValueType::Short,
            self.location_tag != TagLocation::Inline || self.count != 1,
        ensures
            self.value(double_params, ascii_params) == Err::<KeyValue<D>, FormatError>(
                if self.location_tag != TagLocation::Inline {
                    FormatError::NotShort { key: self.key_tag }
                } else {
                    FormatError::UnexpectedCount { key: self.key_tag, count: self.count }
                },
            ),
    {
    }

    /// A key of DOUBLE type whose offset is not below the number of double
    /// parameters cannot be read; if its location tag and count are in order,
    /// the error says that the offset is out of bounds.
    pub proof fn lemma_double_offset_out_of_bounds<D>(
        self,
        double_params: Seq<D>,
        ascii_params: Seq<char>,
    )
        requires
            self.key_tag.value_type() == ValueType::Double,
            self.value_or_offset >= double_params.len(),
        ensures
            self.value(double_params, ascii_params) is Err,
            self.location_tag == TagLocation::DoubleParams && self.count == 1 ==> self.value(
                double_params,
                ascii_params,
            ) == Err::<KeyValue<D>, FormatError>(
                FormatError::OffsetOutOfBounds {
                    key: self.key_tag,
                    len: double_params.len() as usize,
                    offset: self.value_or_offset,
                },
            ),
    {
    }

    /// The text of an ASCII key is one character shorter than its count: the
    /// last character, by convention a NUL, is left out.
    pub proof fn lemma_text_drops_last_character(self, ascii_params: Seq<char>)
        requires
            self.string_value(ascii_params) is Ok,
        ensures
            self.count >= 1,
            self.string_value(ascii_params).unwrap().len() == self.count - 1,
            forall|i: int|
                0 <= i < self.count - 1 ==> self.string_value(ascii_params).unwrap()[i]
                    == ascii_params[self.value_or_offset + i],
    {
    }

    /// A location tag other than 0 never reads as inline.
    pub proof fn lemma_inline_is_tag_zero(tag: u16)
        ensures
            TagLocation::of_tag(tag) == TagLocation::Inline <==> tag == 0,
            TagLocation::of_tag(tag) == TagLocation::DoubleParams <==> tag == GEO_DOUBLE_PARAMS_TAG,
            TagLocation::of_tag(tag) == TagLocation::AsciiParams <==> tag == GEO_ASCII_PARAMS_TAG,
    {
    }

    /// Forms an entry from its four values; fails exactly on an unknown key id.
    pub fn from_values(key_id: u16, location_tag: u16, count: u16, value_or_offset: u16) -> (entry:
        Result<DirectoryEntry, FormatError>)
        ensures
            entry == Self::of_values(key_id, location_tag, count, value_or_offset),
    {
        match GeoKeyDirectoryTag::from_u16(key_id) {
            None => Err(FormatError::UnknownKey { id: key_id }),
            Some(key_tag) => Ok(
                DirectoryEntry {
                    key_tag,
                    location_tag: TagLocation::from_u16(location_tag),
                    count,
                    value_or_offset,
                },
            ),
        }
    }

    /// Reads the entry as a SHORT: the value stands in the entry itself.
    pub fn short(&self) -> (value: Result<u16, FormatError>)
        ensures
            value == self.short_value(),
    {
        if self.location_tag != TagLocation::Inline {
            return Err(FormatError::NotShort { key: self.key_tag });
        }
        if self.count != 1 {
            return Err(FormatError::UnexpectedCount { key: self.key_tag, count: self.count });
        }
        Ok(self.value_or_offset)
    }

    /// Reads the entry as a raster type.
    pub fn raster_type(&self) -> (value: Result<RasterType, FormatError>)
        ensures
            value == self.raster_type_value(),
    {
        match self.short() {
            Err(e) => Err(e),
            Ok(value) => match RasterType::from_u16(value) {
                None => Err(FormatError::UnknownRasterType { value }),
                Some(raster_type) => Ok(raster_type),
            },
        }
    }

    /// Reads the entry as a DOUBLE: the value at its offset in `data`.
    pub fn double<D: Copy>(&self, data: &[D]) -> (value: Result<D, FormatError>)
        ensures
            value == self.double_value(data@),
    {
        if self.location_tag != TagLocation::DoubleParams {
            return Err(FormatError::NotDouble { key: self.key_tag });
        }
        if self.count != 1 {
            return Err(FormatError::UnexpectedCount { key: self.key_tag, count: self.count });
        }
        let offset: usize = self.value_or_offset as usize;
        if offset >= data.len() {
            return Err(
                FormatError::OffsetOutOfBounds {
                    key: self.key_tag,
                    len: data.len(),
                    offset: self.value_or_offset,
                },
            );
        }
        Ok(data[offset])
    }

    /// Reads the entry as text: the characters of `data` from its offset on,
    /// one fewer than its count.
    ///
    /// Offsets count characters, which in the ASCII parameters are bytes.
    pub fn string(&self, data: &str) -> (value: Result<String, FormatError>)
        ensures
            match value {
                Ok(text) => self.string_value(data@) == Ok::<Seq<char>, FormatError>(text@),
                Err(e) => self.string_value(data@) == Err::<Seq<char>, FormatError>(e),
            },
    {
        if self.location_tag != TagLocation::AsciiParams {
            return Err(FormatError::NotAscii { key: self.key_tag });
        }
        let len: usize = data.unicode_len();
        let start: usize = self.value_or_offset as usize;
        if start >= len {
            return Err(
                FormatError::StartOffsetOutOfBounds {
                    key: self.key_tag,
                    len,
                    offset: self.value_or_offset,
                },
            );
        }
        if self.count == 0 || (self.count - 1) as usize >= len - start {
            return Err(
                FormatError::EndOffsetOutOfBounds {
                    key: self.key_tag,
                    len,
                    offset: self.value_or_offset,
                    count: self.count,
                },
            );
        }
        let end: usize = start + (self.count - 1) as usize;
        Ok(String::from_str(data.substring_char(start, end)))
    }
}

} // verus!
