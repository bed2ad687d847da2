//! The GeoKey directory: a typed record of the keys that an image carries.

use vstd::prelude::*;

use crate::entry::{DirectoryEntry, KeyValue, GEO_DOUBLE_PARAMS_TAG};
use crate::error::FormatError;
use crate::keys::{GeoKeyDirectoryTag, RasterType, ValueType};

verus! {

/// The GeoKey directory of an image.
///
/// The three header fields are always there; each other field is there
/// exactly if its key stood in the directory. `D` is the type of a double
/// parameter: the decoder copies such values and never looks into them.
#[derive(Debug, PartialEq)]
pub struct GeoKeyDirectory<D> {
    pub key_directory_version: u16,
    pub key_revision: u16,
    pub minor_revision: u16,
    pub model_type: Option<u16>,
    pub raster_type: Option<RasterType>,
    pub citation: Option<String>,
    pub geographic_type: Option<u16>,
    pub geog_citation: Option<String>,
    pub geog_geodetic_datum: Option<u16>,
    pub geog_prime_meridian: Option<u16>,
    pub geog_linear_units: Option<u16>,
    pub geog_linear_unit_size: Option<D>,
    pub geog_angular_units: Option<u16>,
    pub geog_angular_unit_size: Option<D>,
    pub geog_ellipsoid: Option<u16>,
    pub geog_semi_major_axis: Option<D>,
    pub geog_semi_minor_axis: Option<D>,
    pub geog_inv_flattening: Option<D>,
    pub geog_azimuth_units: Option<u16>,
    pub geog_prime_meridian_long: Option<D>,
    pub projected_type: Option<u16>,
    pub proj_citation: Option<String>,
    pub projection: Option<u16>,
    pub proj_coord_trans: Option<u16>,
    pub proj_linear_units: Option<u16>,
    pub proj_linear_unit_size: Option<D>,
    pub proj_std_parallel1: Option<D>,
    pub proj_std_parallel2: Option<D>,
    pub proj_nat_origin_long: Option<D>,
    pub proj_nat_origin_lat: Option<D>,
    pub proj_false_easting: Option<D>,
    pub proj_false_northing: Option<D>,
    pub proj_false_origin_long: Option<D>,
    pub proj_false_origin_lat: Option<D>,
    pub proj_false_origin_easting: Option<D>,
    pub proj_false_origin_northing: Option<D>,
    pub proj_center_long: Option<D>,
    pub proj_center_lat: Option<D>,
    pub proj_center_easting: Option<D>,
    pub proj_center_northing: Option<D>,
    pub proj_scale_at_nat_origin: Option<D>,
    pub proj_scale_at_center: Option<D>,
    pub proj_azimuth_angle: Option<D>,
    pub proj_straight_vert_pole_long: Option<D>,
    pub vertical: Option<u16>,
    pub vertical_citation: Option<String>,
    pub vertical_datum: Option<u16>,
    pub vertical_units: Option<u16>,
}

/// What a directory says: its header and the value of each key that it holds.
pub struct DirectoryView<D> {
    pub key_directory_version: u16,
    pub key_revision: u16,
    pub minor_revision: u16,
    pub keys: Map<GeoKeyDirectoryTag, KeyValue<D>>,
}

/// The value of a SHORT field, if the field is there.
pub open spec fn held_short<D>(field: Option<u16>) -> Option<KeyValue<D>> {
    match field {
        None => None,
        Some(value) => Some(KeyValue::Short(value)),
    }
}

/// The value of the raster-type field, if the field is there.
pub open spec fn held_raster_type<D>(field: Option<RasterType>) -> Option<KeyValue<D>> {
    match field {
        None => None,
        Some(raster_type) => Some(KeyValue::RasterType(raster_type)),
    }
}

/// The value of a DOUBLE field, if the field is there.
pub open spec fn held_double<D>(field: Option<D>) -> Option<KeyValue<D>> {
    match field {
        None => None,
        Some(value) => Some(KeyValue::Double(value)),
    }
}

/// The value of an ASCII field, if the field is there.
pub open spec fn held_text<D>(field: Option<String>) -> Option<KeyValue<D>> {
    match field {
        None => None,
        Some(text) => Some(KeyValue::Ascii(text@)),
    }
}

/// The entry that stands at position `i` among the entries of `directory`,
/// which follow its 4 header values.
pub open spec fn entry_at(directory: Seq<u16>, i: int) -> Result<DirectoryEntry, FormatError> {
    DirectoryEntry::of_values(
        directory[4 + 4 * i],
        directory[4 + 4 * i + 1],
        directory[4 + 4 * i + 2],
        directory[4 + 4 * i + 3],
    )
}

/// The keys that the first `n` entries of `directory` give, read in their
/// order: a later entry replaces an earlier one of the same key, and the
/// first entry that cannot be read gives the error.
pub open spec fn decode_keys<D>(
    directory: Seq<u16>,
    double_params: Seq<D>,
    ascii_params: Seq<char>,
    n: nat,
) -> Result<Map<GeoKeyDirectoryTag, KeyValue<D>>, FormatError>
    decreases n,
{
    if n == 0 {
        Ok(Map::empty())
    } else {
        match decode_keys(directory, double_params, ascii_params, (n - 1) as nat) {
            Err(e) => Err(e),
            Ok(keys) => match entry_at(directory, n - 1) {
                Err(e) => Err(e),
                Ok(entry) => match entry.value(double_params, ascii_params) {
                    Err(e) => Err(e),
                    Ok(value) => Ok(keys.insert(entry.key_tag, value)),
                },
            },
        }
    }
}

/// What decoding `directory` with its two parameter blocks gives.
pub open spec fn decode<D>(directory: Seq<u16>, double_params: Seq<D>, ascii_params: Seq<char>)
    -> Result<DirectoryView<D>, FormatError> {
    if directory.len() < 4 {
        Err(FormatError::DirectoryTooShort { len: directory.len() as usize })
    } else if directory.len() - 4 != 4 * directory[3] {
        Err(
            FormatError::KeyCountMismatch {
                number_of_keys: directory[3],
                len: directory.len() as usize,
            },
        )
    } else {
        match decode_keys(directory, double_params, ascii_params, directory[3] as nat) {
            Err(e) => Err(e),
            Ok(keys) => Ok(
                DirectoryView {
                    key_directory_version: directory[0],
                    key_revision: directory[1],
                    minor_revision: directory[2],
                    keys,
                },
            ),
        }
    }
}

/// Once an entry cannot be read, no further entry changes the error.
pub proof fn lemma_first_error_stays<D>(
    directory: Seq<u16>,
    double_params: Seq<D>,
    ascii_params: Seq<char>,
    i: nat,
    n: nat,
)
    requires
        i <= n,
        decode_keys(directory, double_params, ascii_params, i) is Err,
    ensures
        decode_keys(directory, double_params, ascii_params, n) == decode_keys(
            directory,
            double_params,
            ascii_params,
            i,
        ),
    decreases n,
{
    if i < n {
        lemma_first_error_stays(directory, double_params, ascii_params, i, (n - 1) as nat);
    }
}

/// A directory of fewer than 4 values is rejected.
pub proof fn lemma_short_directory_rejected<D>(
    directory: Seq<u16>,
    double_params: Seq<D>,
    ascii_params: Seq<char>,
)
    requires
        directory.len() < 4,
    ensures
        decode(directory, double_params, ascii_params) == Err::<DirectoryView<D>, FormatError>(
            FormatError::DirectoryTooShort { len: directory.len() as usize },
        ),
{
}

/// A directory that does not hold exactly 4 values for each key that its
/// header announces is rejected.
pub proof fn lemma_key_count_mismatch_rejected<D>(
    directory: Seq<u16>,
    double_params: Seq<D>,
    ascii_params: Seq<char>,
)
    requires
        directory.len() >= 4,
        directory.len() - 4 != 4 * directory[3],
    ensures
        decode(directory, double_params, ascii_params) == Err::<DirectoryView<D>, FormatError>(
            FormatError::KeyCountMismatch {
                number_of_keys: directory[3],
                len: directory.len() as usize,
            },
        ),
{
}

/// Where the first `n` entries give their keys, each of them can be read.
pub proof fn lemma_decoded_entries_are_readable<D>(
    directory: Seq<u16>,
    double_params: Seq<D>,
    ascii_params: Seq<char>,
    n: nat,
    i: int,
)
    requires
        0 <= i < n,
        decode_keys(directory, double_params, ascii_params, n) is Ok,
    ensures
        entry_at(directory, i) is Ok,
        entry_at(directory, i).unwrap().value(double_params, ascii_params) is Ok,
    decreases n,
{
    if i < n - 1 {
        lemma_decoded_entries_are_readable(
            directory,
            double_params,
            ascii_params,
            (n - 1) as nat,
            i,
        );
    }
}

/// The error of an entry that cannot be read.
pub open spec fn entry_error<D>(
    directory: Seq<u16>,
    double_params: Seq<D>,
    ascii_params: Seq<char>,
    i: int,
) -> Option<FormatError> {
    match entry_at(directory, i) {
        Err(e) => Some(e),
        Ok(entry) => match entry.value(double_params, ascii_params) {
            Err(e) => Some(e),
            Ok(_) => None,
        },
    }
}

/// A directory with an entry that cannot be read is rejected, and if every
/// entry before it can be read, with the error of that entry.
pub proof fn lemma_unreadable_entry_rejected<D>(
    directory: Seq<u16>,
    double_params: Seq<D>,
    ascii_params: Seq<char>,
    i: int,
)
    requires
        directory.len() >= 4,
        0 <= i < directory[3],
        entry_error(directory, double_params, ascii_params, i) is Some,
    ensures
        decode(directory, double_params, ascii_params) is Err,
        (directory.len() - 4 == 4 * directory[3] && forall|j: int|
            0 <= j < i ==> entry_error(directory, double_params, ascii_params, j) is None)
            ==> decode(directory, double_params, ascii_params) == Err::<
            DirectoryView<D>,
            FormatError,
        >(entry_error(directory, double_params, ascii_params, i).unwrap()),
{
    let n = directory[3] as nat;
    if decode_keys(directory, double_params, ascii_params, n) is Ok {
        lemma_decoded_entries_are_readable(directory, double_params, ascii_params, n, i);
    }
    if forall|j: int| 0 <= j < i ==> entry_error(directory, double_params, ascii_params, j) is None {
        lemma_readable_entries_decode(directory, double_params, ascii_params, i as nat);
        lemma_first_error_stays(directory, double_params, ascii_params, (i + 1) as nat, n);
    }
}

/// Where each of the first `n` entries can be read, they give their keys.
pub proof fn lemma_readable_entries_decode<D>(
    directory: Seq<u16>,
    double_params: Seq<D>,
    ascii_params: Seq<char>,
    n: nat,
)
    requires
        forall|j: int| 0 <= j < n ==> entry_error(directory, double_params, ascii_params, j) is None,
    ensures
        decode_keys(directory, double_params, ascii_params, n) is Ok,
    decreases n,
{
    if n > 0 {
        lemma_readable_entries_decode(directory, double_params, ascii_params, (n - 1) as nat);
        assert(entry_error(directory, double_params, ascii_params, n - 1) is None);
    }
}

/// A directory is rejected if one of its entries has a key of SHORT type
/// with a location tag other than 0 or a count other than 1. If every entry
/// before it can be read, the error names that key.
pub proof fn lemma_short_key_defect_rejected<D>(
    directory: Seq<u16>,
    double_params: Seq<D>,
    ascii_params: Seq<char>,
    i: int,
)
    requires
        directory.len() >= 4,
        0 <= i < directory[3],
        entry_at(directory, i) is Ok,
        entry_at(directory, i).unwrap().key_tag.value_type() == ValueType::Short,
        directory[4 + 4 * i + 1] != 0 || directory[4 + 4 * i + 2] != 1,
    ensures
        decode(directory, double_params, ascii_params) is Err,
        (directory.len() - 4 == 4 * directory[3] && forall|j: int|
            0 <= j < i ==> entry_error(directory, double_params, ascii_params, j) is None)
            ==> decode(directory, double_params, ascii_params) == Err::<
            DirectoryView<D>,
            FormatError,
        >(
            if directory[4 + 4 * i + 1] != 0 {
                FormatError::NotShort { key: entry_at(directory, i).unwrap().key_tag }
            } else {
                FormatError::UnexpectedCount {
                    key: entry_at(directory, i).unwrap().key_tag,
                    count: directory[4 + 4 * i + 2],
                }
            },
        ),
{
    let entry = entry_at(directory, i).unwrap();
    DirectoryEntry::lemma_inline_is_tag_zero(directory[4 + 4 * i + 1]);
    entry.lemma_short_defect_names_key(double_params, ascii_params);
    lemma_unreadable_entry_rejected(directory, double_params, ascii_params, i);
}

/// A directory is rejected if one of its entries has a key of DOUBLE type
/// whose offset is not below the number of double parameters. If every entry
/// before it can be read and the entry points into the double parameters
/// with count 1, the error says that the offset is out of bounds.
pub proof fn lemma_double_offset_rejected<D>(
    directory: Seq<u16>,
    double_params: Seq<D>,
    ascii_params: Seq<char>,
    i: int,
)
    requires
        directory.len() >= 4,
        0 <= i < directory[3],
        entry_at(directory, i) is Ok,
        entry_at(directory, i).unwrap().key_tag.value_type() == ValueType::Double,
        directory[4 + 4 * i + 3] >= double_params.len(),
    ensures
        decode(directory, double_params, ascii_params) is Err,
        (directory.len() - 4 == 4 * directory[3] && directory[4 + 4 * i + 1]
            == GEO_DOUBLE_PARAMS_TAG && directory[4 + 4 * i + 2] == 1 && forall|j: int|
            0 <= j < i ==> entry_error(directory, double_params, ascii_params, j) is None)
            ==> decode(directory, double_params, ascii_params) == Err::<
            DirectoryView<D>,
            FormatError,
        >(
            FormatError::OffsetOutOfBounds {
                key: entry_at(directory, i).unwrap().key_tag,
                len: double_params.len() as usize,
                offset: directory[4 + 4 * i + 3],
            },
        ),
{
    let entry = entry_at(directory, i).unwrap();
    DirectoryEntry::lemma_inline_is_tag_zero(directory[4 + 4 * i + 1]);
    entry.lemma_double_offset_out_of_bounds(double_params, ascii_params);
    lemma_unreadable_entry_rejected(directory, double_params, ascii_params, i);
}

impl<D> GeoKeyDirectory<D> {
    /// The value that the record holds under `key`, if it holds one.
    pub open spec fn value_of(self, key: GeoKeyDirectoryTag) -> Option<KeyValue<D>> {
        match key {
            GeoKeyDirectoryTag::ModelType => held_short(self.model_type),
            GeoKeyDirectoryTag::RasterType => held_raster_type(self.raster_type),
            GeoKeyDirectoryTag::Citation => held_text(self.citation),
            GeoKeyDirectoryTag::GeographicType => held_short(self.geographic_type),
            GeoKeyDirectoryTag::GeogCitation => held_text(self.geog_citation),
            GeoKeyDirectoryTag::GeogGeodeticDatum => held_short(self.geog_geodetic_datum),
            GeoKeyDirectoryTag::GeogPrimeMeridian => held_short(self.geog_prime_meridian),
            GeoKeyDirectoryTag::GeogLinearUnits => held_short(self.geog_linear_units),
            GeoKeyDirectoryTag::GeogLinearUnitSize => held_double(self.geog_linear_unit_size),
            GeoKeyDirectoryTag::GeogAngularUnits => held_short(self.geog_angular_units),
            GeoKeyDirectoryTag::GeogAngularUnitSize => held_double(self.geog_angular_unit_size),
            GeoKeyDirectoryTag::GeogEllipsoid => held_short(self.geog_ellipsoid),
            GeoKeyDirectoryTag::GeogSemiMajorAxis => held_double(self.geog_semi_major_axis),
            GeoKeyDirectoryTag::GeogSemiMinorAxis => held_double(self.geog_semi_minor_axis),
            GeoKeyDirectoryTag::GeogInvFlattening => held_double(self.geog_inv_flattening),
            GeoKeyDirectoryTag::GeogAzimuthUnits => held_short(self.geog_azimuth_units),
            GeoKeyDirectoryTag::GeogPrimeMeridianLong => held_double(self.geog_prime_meridian_long),
            GeoKeyDirectoryTag::ProjectedType => held_short(self.projected_type),
            GeoKeyDirectoryTag::ProjCitation => held_text(self.proj_citation),
            GeoKeyDirectoryTag::Projection => held_short(self.projection),
            GeoKeyDirectoryTag::ProjCoordTrans => held_short(self.proj_coord_trans),
            GeoKeyDirectoryTag::ProjLinearUnits => held_short(self.proj_linear_units),
            GeoKeyDirectoryTag::ProjLinearUnitSize => held_double(self.proj_linear_unit_size),
            GeoKeyDirectoryTag::ProjStdParallel1 => held_double(self.proj_std_parallel1),
            GeoKeyDirectoryTag::ProjStdParallel2 => held_double(self.proj_std_parallel2),
            GeoKeyDirectoryTag::ProjNatOriginLong => held_double(self.proj_nat_origin_long),
            GeoKeyDirectoryTag::ProjNatOriginLat => held_double(self.proj_nat_origin_lat),
            GeoKeyDirectoryTag::ProjFalseEasting => held_double(self.proj_false_easting),
            GeoKeyDirectoryTag::ProjFalseNorthing => held_double(self.proj_false_northing),
            GeoKeyDirectoryTag::ProjFalseOriginLong => held_double(self.proj_false_origin_long),
            GeoKeyDirectoryTag::ProjFalseOriginLat => held_double(self.proj_false_origin_lat),
            GeoKeyDirectoryTag::ProjFalseOriginEasting => held_double(self.proj_false_origin_easting),
            GeoKeyDirectoryTag::ProjFalseOriginNorthing => held_double(self.proj_false_origin_northing),
            GeoKeyDirectoryTag::ProjCenterLong => held_double(self.proj_center_long),
            GeoKeyDirectoryTag::ProjCenterLat => held_double(self.proj_center_lat),
            GeoKeyDirectoryTag::ProjCenterEasting => held_double(self.proj_center_easting),
            GeoKeyDirectoryTag::ProjCenterNorthing => held_double(self.proj_center_northing),
            GeoKeyDirectoryTag::ProjScaleAtNatOrigin => held_double(self.proj_scale_at_nat_origin),
            GeoKeyDirectoryTag::ProjScaleAtCenter => held_double(self.proj_scale_at_center),
            GeoKeyDirectoryTag::ProjAzimuthAngle => held_double(self.proj_azimuth_angle),
            GeoKeyDirectoryTag::ProjStraightVertPoleLong => held_double(self.proj_straight_vert_pole_long),
            GeoKeyDirectoryTag::Vertical => held_short(self.vertical),
            GeoKeyDirectoryTag::VerticalCitation => held_text(self.vertical_citation),
            GeoKeyDirectoryTag::VerticalDatum => held_short(self.vertical_datum),
            GeoKeyDirectoryTag::VerticalUnits => held_short(self.vertical_units),
        }
    }
}

impl<D> View for GeoKeyDirectory<D> {
    type V = DirectoryView<D>;

    open spec fn view(&self) -> DirectoryView<D> {
        DirectoryView {
            key_directory_version: self.key_directory_version,
            key_revision: self.key_revision,
            minor_revision: self.minor_revision,
            keys: Map::new(
                |key: GeoKeyDirectoryTag| self.value_of(key) is Some,
                |key: GeoKeyDirectoryTag| self.value_of(key).unwrap(),
            ),
        }
    }
}

impl<D> Default for GeoKeyDirectory<D> {
    /// The directory that a writer starts from: version 1, revision 1.1, no
    /// key.
    fn default() -> (directory: Self)
        ensures
            directory@ == (DirectoryView::<D> {
                key_directory_version: 1,
                key_revision: 1,
                minor_revision: 1,
                keys: Map::empty(),
            }),
    {
        let directory = GeoKeyDirectory {
            key_directory_version: 1,
            key_revision: 1,
            minor_revision: 1,
            model_type: None,
            raster_type: None,
            citation: None,
            geographic_type: None,
            geog_citation: None,
            geog_geodetic_datum: None,
            geog_prime_meridian: None,
            geog_linear_units: None,
            geog_linear_unit_size: None,
            geog_angular_units: None,
            geog_angular_unit_size: None,
            geog_ellipsoid: None,
            geog_semi_major_axis: None,
            geog_semi_minor_axis: None,
            geog_inv_flattening: None,
            geog_azimuth_units: None,
            geog_prime_meridian_long: None,
            projected_type: None,
            proj_citation: None,
            projection: None,
            proj_coord_trans: None,
            proj_linear_units: None,
            proj_linear_unit_size: None,
            proj_std_parallel1: None,
            proj_std_parallel2: None,
            proj_nat_origin_long: None,
            proj_nat_origin_lat: None,
            proj_false_easting: None,
            proj_false_northing: None,
            proj_false_origin_long: None,
            proj_false_origin_lat: None,
            proj_false_origin_easting: None,
            proj_false_origin_northing: None,
            proj_center_long: None,
            proj_center_lat: None,
            proj_center_easting: None,
            proj_center_northing: None,
            proj_scale_at_nat_origin: None,
            proj_scale_at_center: None,
            proj_azimuth_angle: None,
            proj_straight_vert_pole_long: None,
            vertical: None,
            vertical_citation: None,
            vertical_datum: None,
            vertical_units: None,
        };
        assert(directory@.keys =~= Map::empty());
        directory
    }
}

impl<D> GeoKeyDirectory<D> {
    /// The view holds under each key exactly what the record holds in the
    /// field of that key.
    pub proof fn lemma_view_holds_fields(self, key: GeoKeyDirectoryTag)
        ensures
            self@.keys.dom().contains(key) <==> self.value_of(key) is Some,
            self.value_of(key) is Some ==> self@.keys[key] == self.value_of(key).unwrap(),
    {
    }
}

impl<D> DirectoryView<D> {
    /// The same directory with `value` under `key`, in place of what stood
    /// there.
    pub open spec fn with(self, key: GeoKeyDirectoryTag, value: KeyValue<D>) -> DirectoryView<D> {
        DirectoryView { keys: self.keys.insert(key, value), ..self }
    }
}

impl<D: Copy> GeoKeyDirectory<D> {
    /// Writes the field of the SHORT key `key`.
    fn store_short(&mut self, key: GeoKeyDirectoryTag, value: u16)
        requires
            key.value_type() == ValueType::Short,
            key != GeoKeyDirectoryTag::RasterType,
        ensures
            final(self)@ == old(self)@.with(key, KeyValue::Short(value)),
    {
        match key {
            GeoKeyDirectoryTag::ModelType => self.model_type = Some(value),
            GeoKeyDirectoryTag::GeographicType => self.geographic_type = Some(value),
            GeoKeyDirectoryTag::GeogGeodeticDatum => self.geog_geodetic_datum = Some(value),
            GeoKeyDirectoryTag::GeogPrimeMeridian => self.geog_prime_meridian = Some(value),
            GeoKeyDirectoryTag::GeogLinearUnits => self.geog_linear_units = Some(value),
            GeoKeyDirectoryTag::GeogAngularUnits => self.geog_angular_units = Some(value),
            GeoKeyDirectoryTag::GeogEllipsoid => self.geog_ellipsoid = Some(value),
            GeoKeyDirectoryTag::GeogAzimuthUnits => self.geog_azimuth_units = Some(value),
            GeoKeyDirectoryTag::ProjectedType => self.projected_type = Some(value),
            GeoKeyDirectoryTag::Projection => self.projection = Some(value),
            GeoKeyDirectoryTag::ProjCoordTrans => self.proj_coord_trans = Some(value),
            GeoKeyDirectoryTag::ProjLinearUnits => self.proj_linear_units = Some(value),
            GeoKeyDirectoryTag::Vertical => self.vertical = Some(value),
            GeoKeyDirectoryTag::VerticalDatum => self.vertical_datum = Some(value),
            GeoKeyDirectoryTag::VerticalUnits => self.vertical_units = Some(value),
            _ => {},
        }
        assert(self@.keys =~= old(self)@.keys.insert(key, KeyValue::Short(value)));
    }

    /// Writes the field of the raster-type key.
    fn store_raster_type(&mut self, raster_type: RasterType)
        ensures
            final(self)@ == old(self)@.with(
                GeoKeyDirectoryTag::RasterType,
                KeyValue::RasterType(raster_type),
            ),
    {
        self.raster_type = Some(raster_type);
        assert(self@.keys =~= old(self)@.keys.insert(
            GeoKeyDirectoryTag::RasterType,
            KeyValue::RasterType(raster_type),
        ));
    }

    /// Writes the field of the DOUBLE key `key`.
    fn store_double(&mut self, key: GeoKeyDirectoryTag, value: D)
        requires
            key.value_type() == ValueType::Double,
        ensures
            final(self)@ == old(self)@.with(key, KeyValue::Double(value)),
    {
        match key {
            GeoKeyDirectoryTag::GeogLinearUnitSize => self.geog_linear_unit_size = Some(value),
            GeoKeyDirectoryTag::GeogAngularUnitSize => self.geog_angular_unit_size = Some(value),
            GeoKeyDirectoryTag::GeogSemiMajorAxis => self.geog_semi_major_axis = Some(value),
            GeoKeyDirectoryTag::GeogSemiMinorAxis => self.geog_semi_minor_axis = Some(value),
            GeoKeyDirectoryTag::GeogInvFlattening => self.geog_inv_flattening = Some(value),
            GeoKeyDirectoryTag::GeogPrimeMeridianLong => self.geog_prime_meridian_long = Some(value),
            GeoKeyDirectoryTag::ProjLinearUnitSize => self.proj_linear_unit_size = Some(value),
            GeoKeyDirectoryTag::ProjStdParallel1 => self.proj_std_parallel1 = Some(value),
            GeoKeyDirectoryTag::ProjStdParallel2 => self.proj_std_parallel2 = Some(value),
            GeoKeyDirectoryTag::ProjNatOriginLong => self.proj_nat_origin_long = Some(value),
            GeoKeyDirectoryTag::ProjNatOriginLat => self.proj_nat_origin_lat = Some(value),
            GeoKeyDirectoryTag::ProjFalseEasting => self.proj_false_easting = Some(value),
            GeoKeyDirectoryTag::ProjFalseNorthing => self.proj_false_northing = Some(value),
            GeoKeyDirectoryTag::ProjFalseOriginLong => self.proj_false_origin_long = Some(value),
            GeoKeyDirectoryTag::ProjFalseOriginLat => self.proj_false_origin_lat = Some(value),
            GeoKeyDirectoryTag::ProjFalseOriginEasting => self.proj_false_origin_easting = Some(value),
            GeoKeyDirectoryTag::ProjFalseOriginNorthing => self.proj_false_origin_northing = Some(value),
            GeoKeyDirectoryTag::ProjCenterLong => self.proj_center_long = Some(value),
            GeoKeyDirectoryTag::ProjCenterLat => self.proj_center_lat = Some(value),
            GeoKeyDirectoryTag::ProjCenterEasting => self.proj_center_easting = Some(value),
            GeoKeyDirectoryTag::ProjCenterNorthing => self.proj_center_northing = Some(value),
            GeoKeyDirectoryTag::ProjScaleAtNatOrigin => self.proj_scale_at_nat_origin = Some(value),
            GeoKeyDirectoryTag::ProjScaleAtCenter => self.proj_scale_at_center = Some(value),
            GeoKeyDirectoryTag::ProjAzimuthAngle => self.proj_azimuth_angle = Some(value),
            GeoKeyDirectoryTag::ProjStraightVertPoleLong => self.proj_straight_vert_pole_long = Some(value),
            _ => {},
        }
        assert(self@.keys =~= old(self)@.keys.insert(key, KeyValue::Double(value)));
    }

    /// Writes the field of the ASCII key `key`.
    fn store_text(&mut self, key: GeoKeyDirectoryTag, text: String)
        requires
            key.value_type() == ValueType::Ascii,
        ensures
            final(self)@ == old(self)@.with(key, KeyValue::Ascii(text@)),
    {
        let ghost held = text@;
        match key {
            GeoKeyDirectoryTag::Citation => self.citation = Some(text),
            GeoKeyDirectoryTag::GeogCitation => self.geog_citation = Some(text),
            GeoKeyDirectoryTag::ProjCitation => self.proj_citation = Some(text),
            GeoKeyDirectoryTag::VerticalCitation => self.vertical_citation = Some(text),
            _ => {},
        }
        assert(self@.keys =~= old(self)@.keys.insert(key, KeyValue::Ascii(held)));
    }

    /// Reads `entry` by the type of its key and writes the field of that key.
    ///
    /// Fails exactly if the entry cannot be read; the record is then as it
    /// was.
    fn store_entry(&mut self, entry: &DirectoryEntry, double_params: &[D], ascii_params: &str) -> (result:
        Result<(), FormatError>)
        ensures
            match result {
                Ok(()) => entry.value(double_params@, ascii_params@) is Ok && final(self)@ == old(
                    self,
                )@.with(entry.key_tag, entry.value(double_params@, ascii_params@).unwrap()),
                Err(e) => entry.value(double_params@, ascii_params@) == Err::<KeyValue<D>, FormatError>(
                    e,
                ) && *final(self) == *old(self),
            },
    {
        match entry.key_tag.declared_type() {
            ValueType::Short => {
                if entry.key_tag == GeoKeyDirectoryTag::RasterType {
                    let raster_type = entry.raster_type()?;
                    self.store_raster_type(raster_type);
                } else {
                    let value: u16 = entry.short()?;
                    self.store_short(entry.key_tag, value);
                }
            },
            ValueType::Double => {
                let value = entry.double(double_params)?;
                self.store_double(entry.key_tag, value);
            },
            ValueType::Ascii => {
                let text = entry.string(ascii_params)?;
                self.store_text(entry.key_tag, text);
            },
        }
        Ok(())
    }

    /// Decodes the directory held in `directory_data`, whose DOUBLE and ASCII
    /// keys point into `double_params` and `ascii_params`.
    ///
    /// Succeeds exactly if the data has its 4 header values and 4 values for
    /// each key that the header announces, and every entry can be read by the
    /// type of its key; the error is that of the first defect.
    pub fn from_tag_data(directory_data: &[u16], double_params: &[D], ascii_params: &str) -> (result:
        Result<Self, FormatError>)
        ensures
            match result {
                Ok(directory) => decode(directory_data@, double_params@, ascii_params@) == Ok::<
                    DirectoryView<D>,
                    FormatError,
                >(directory@),
                Err(e) => decode(directory_data@, double_params@, ascii_params@) == Err::<
                    DirectoryView<D>,
                    FormatError,
                >(e),
            },
    {
        let mut directory = Self::default();
        if directory_data.len() < 4 {
            return Err(FormatError::DirectoryTooShort { len: directory_data.len() });
        }
        directory.key_directory_version = directory_data[0];
        directory.key_revision = directory_data[1];
        directory.minor_revision = directory_data[2];
        let number_of_keys: usize = directory_data[3] as usize;

        if directory_data.len() - 4 != 4 * number_of_keys {
            return Err(
                FormatError::KeyCountMismatch {
                    number_of_keys: directory_data[3],
                    len: directory_data.len(),
                },
            );
        }
        assert(directory@.keys =~= Map::empty());

        let mut i: usize = 0;
        while i < number_of_keys
            invariant
                i <= number_of_keys,
                number_of_keys == directory_data@[3],
                directory_data@.len() == 4 + 4 * number_of_keys,
                directory@.key_directory_version == directory_data@[0],
                directory@.key_revision == directory_data@[1],
                directory@.minor_revision == directory_data@[2],
                decode_keys(directory_data@, double_params@, ascii_params@, i as nat) == Ok::<
                    Map<GeoKeyDirectoryTag, KeyValue<D>>,
                    FormatError,
                >(directory@.keys),
            decreases number_of_keys - i,
        {
            proof {
                if decode_keys(directory_data@, double_params@, ascii_params@, (i + 1) as nat) is Err {
                    lemma_first_error_stays(
                        directory_data@,
                        double_params@,
                        ascii_params@,
                        (i + 1) as nat,
                        number_of_keys as nat,
                    );
                }
            }
            let at: usize = 4 + 4 * i;
            let entry = DirectoryEntry::from_values(
                directory_data[at],
                directory_data[at + 1],
                directory_data[at + 2],
                directory_data[at + 3],
            )?;
            directory.store_entry(&entry, double_params, ascii_params)?;
            i += 1;
        }
        Ok(directory)
    }
}

} // verus!
