use geotiff::{
    DirectoryEntry, FormatError, GeoKeyDirectory, GeoKeyDirectoryTag, RasterType, TagLocation,
    ValueType,
};

const DOUBLE: u16 = 34736;
const ASCII: u16 = 34737;

fn decode(
    directory: &[u16],
    doubles: &[f64],
    ascii: &str,
) -> Result<GeoKeyDirectory<f64>, FormatError> {
    GeoKeyDirectory::from_tag_data(directory, doubles, ascii)
}

#[test]
fn default_is_version_one_without_keys() {
    let d: GeoKeyDirectory<f64> = GeoKeyDirectory::default();
    assert_eq!(d.key_directory_version, 1);
    assert_eq!(d.key_revision, 1);
    assert_eq!(d.minor_revision, 1);
    assert_eq!(d.model_type, None);
    assert_eq!(d.raster_type, None);
    assert_eq!(d.citation, None);
    assert_eq!(d.geog_semi_major_axis, None);
    assert_eq!(d.proj_straight_vert_pole_long, None);
    assert_eq!(d.vertical_units, None);
}

#[test]
fn header_only_directory() {
    let d = decode(&[1, 1, 0, 0], &[], "").unwrap();
    let expected: GeoKeyDirectory<f64> = GeoKeyDirectory {
        minor_revision: 0,
        ..GeoKeyDirectory::default()
    };
    assert_eq!(d, expected);
}

#[test]
fn single_model_type_key() {
    let d = decode(&[1, 1, 0, 1, 1024, 0, 1, 2], &[], "").unwrap();
    let expected: GeoKeyDirectory<f64> = GeoKeyDirectory {
        key_directory_version: 1,
        key_revision: 1,
        minor_revision: 0,
        model_type: Some(2),
        ..GeoKeyDirectory::default()
    };
    assert_eq!(d, expected);
    assert_eq!(d.model_type, Some(2));
    assert_eq!(d.raster_type, None);
    assert_eq!(d.citation, None);
}

#[test]
fn header_values_are_taken_from_the_data() {
    let d = decode(&[7, 8, 9, 0], &[], "").unwrap();
    assert_eq!(d.key_directory_version, 7);
    assert_eq!(d.key_revision, 8);
    assert_eq!(d.minor_revision, 9);
}

#[test]
fn citation_drops_trailing_delimiter() {
    let d = decode(&[1, 1, 0, 1, 1026, ASCII, 7, 0], &[], "WGS 84\0").unwrap();
    assert_eq!(d.citation, Some(String::from("WGS 84")));
    assert_eq!(d.model_type, None);
}

#[test]
fn citation_without_delimiter_loses_last_character() {
    let d = decode(&[1, 1, 0, 1, 1026, ASCII, 6, 0], &[], "WGS 84").unwrap();
    assert_eq!(d.citation, Some(String::from("WGS 8")));
}

#[test]
fn text_at_an_offset() {
    let ascii = "WGS 84|NAD83|";
    let d = decode(
        &[1, 1, 0, 2, 2049, ASCII, 7, 0, 3073, ASCII, 6, 7],
        &[],
        ascii,
    )
    .unwrap();
    assert_eq!(d.geog_citation, Some(String::from("WGS 84")));
    assert_eq!(d.proj_citation, Some(String::from("NAD83")));
    assert_eq!(d.citation, None);
    assert_eq!(d.vertical_citation, None);
}

#[test]
fn single_character_text_is_empty() {
    let d = decode(&[1, 1, 0, 1, 4097, ASCII, 1, 2], &[], "abc").unwrap();
    assert_eq!(d.vertical_citation, Some(String::new()));
}

#[test]
fn text_of_count_zero_is_rejected() {
    let r = decode(&[1, 1, 0, 1, 1026, ASCII, 0, 1], &[], "abc");
    assert_eq!(
        r,
        Err(FormatError::EndOffsetOutOfBounds {
            key: GeoKeyDirectoryTag::Citation,
            len: 3,
            offset: 1,
            count: 0,
        })
    );
    let r = decode(&[1, 1, 0, 1, 1026, ASCII, 0, 0], &[], "abc");
    assert_eq!(
        r,
        Err(FormatError::EndOffsetOutOfBounds {
            key: GeoKeyDirectoryTag::Citation,
            len: 3,
            offset: 0,
            count: 0,
        })
    );
}

#[test]
fn text_start_out_of_bounds() {
    let r = decode(&[1, 1, 0, 1, 1026, ASCII, 1, 3], &[], "abc");
    assert_eq!(
        r,
        Err(FormatError::StartOffsetOutOfBounds {
            key: GeoKeyDirectoryTag::Citation,
            len: 3,
            offset: 3,
        })
    );
    let r = decode(&[1, 1, 0, 1, 1026, ASCII, 1, 0], &[], "");
    assert_eq!(
        r,
        Err(FormatError::StartOffsetOutOfBounds {
            key: GeoKeyDirectoryTag::Citation,
            len: 0,
            offset: 0,
        })
    );
}

#[test]
fn text_end_out_of_bounds() {
    // end = 0 + 4 - 1 = 3, which is not below the length 3
    let r = decode(&[1, 1, 0, 1, 1026, ASCII, 4, 0], &[], "abc");
    assert_eq!(
        r,
        Err(FormatError::EndOffsetOutOfBounds {
            key: GeoKeyDirectoryTag::Citation,
            len: 3,
            offset: 0,
            count: 4,
        })
    );
    // end = 2, the last position, is accepted
    let d = decode(&[1, 1, 0, 1, 1026, ASCII, 3, 0], &[], "abc").unwrap();
    assert_eq!(d.citation, Some(String::from("ab")));
}

#[test]
fn text_end_beyond_sixteen_bits() {
    // 65535 + 65535 - 1 does not fit 16 bits and lies outside the text
    let ascii = "x".repeat(65536);
    let r = decode(&[1, 1, 0, 1, 1026, ASCII, 65535, 65535], &[], &ascii);
    assert_eq!(
        r,
        Err(FormatError::EndOffsetOutOfBounds {
            key: GeoKeyDirectoryTag::Citation,
            len: 65536,
            offset: 65535,
            count: 65535,
        })
    );
}

#[test]
fn text_key_must_point_into_ascii_params() {
    let r = decode(&[1, 1, 0, 1, 1026, 0, 7, 0], &[], "WGS 84\0");
    assert_eq!(r, Err(FormatError::NotAscii { key: GeoKeyDirectoryTag::Citation }));
    let r = decode(&[1, 1, 0, 1, 2049, DOUBLE, 7, 0], &[1.0], "WGS 84\0");
    assert_eq!(r, Err(FormatError::NotAscii { key: GeoKeyDirectoryTag::GeogCitation }));
}

#[test]
fn double_key_reads_the_value_at_its_offset() {
    let doubles = [6378137.0, 298.257223563, 0.5];
    let d = decode(
        &[1, 1, 0, 2, 2057, DOUBLE, 1, 0, 2059, DOUBLE, 1, 1],
        &doubles,
        "",
    )
    .unwrap();
    assert_eq!(d.geog_semi_major_axis, Some(6378137.0));
    assert_eq!(d.geog_inv_flattening, Some(298.257223563));
    assert_eq!(d.geog_semi_minor_axis, None);
    let d = decode(&[1, 1, 0, 1, 3092, DOUBLE, 1, 2], &doubles, "").unwrap();
    assert_eq!(d.proj_scale_at_nat_origin, Some(0.5));
}

#[test]
fn double_offset_out_of_bounds() {
    let r = decode(&[1, 1, 0, 1, 2057, DOUBLE, 1, 2], &[1.0, 2.0], "");
    assert_eq!(
        r,
        Err(FormatError::OffsetOutOfBounds {
            key: GeoKeyDirectoryTag::GeogSemiMajorAxis,
            len: 2,
            offset: 2,
        })
    );
    let r = decode(&[1, 1, 0, 1, 3095, DOUBLE, 1, 0], &[], "");
    assert_eq!(
        r,
        Err(FormatError::OffsetOutOfBounds {
            key: GeoKeyDirectoryTag::ProjStraightVertPoleLong,
            len: 0,
            offset: 0,
        })
    );
}

#[test]
fn double_key_must_point_into_double_params() {
    let r = decode(&[1, 1, 0, 1, 2057, 0, 1, 0], &[1.0], "");
    assert_eq!(r, Err(FormatError::NotDouble { key: GeoKeyDirectoryTag::GeogSemiMajorAxis }));
    let r = decode(&[1, 1, 0, 1, 2057, ASCII, 1, 0], &[1.0], "a");
    assert_eq!(r, Err(FormatError::NotDouble { key: GeoKeyDirectoryTag::GeogSemiMajorAxis }));
}

#[test]
fn double_key_needs_count_one() {
    let r = decode(&[1, 1, 0, 1, 2057, DOUBLE, 2, 0], &[1.0, 2.0], "");
    assert_eq!(
        r,
        Err(FormatError::UnexpectedCount { key: GeoKeyDirectoryTag::GeogSemiMajorAxis, count: 2 })
    );
}

#[test]
fn short_key_needs_count_one() {
    let r = decode(&[1, 1, 0, 1, 1024, 0, 2, 2], &[], "");
    assert_eq!(
        r,
        Err(FormatError::UnexpectedCount { key: GeoKeyDirectoryTag::ModelType, count: 2 })
    );
    let r = decode(&[1, 1, 0, 1, 3072, 0, 0, 2], &[], "");
    assert_eq!(
        r,
        Err(FormatError::UnexpectedCount { key: GeoKeyDirectoryTag::ProjectedType, count: 0 })
    );
}

#[test]
fn short_key_needs_location_zero() {
    // the tag of the double parameters
    let r = decode(&[1, 1, 0, 1, 1024, DOUBLE, 1, 0], &[1.0], "");
    assert_eq!(r, Err(FormatError::NotShort { key: GeoKeyDirectoryTag::ModelType }));
    // the tag of the ASCII parameters
    let r = decode(&[1, 1, 0, 1, 2048, ASCII, 1, 0], &[], "a");
    assert_eq!(r, Err(FormatError::NotShort { key: GeoKeyDirectoryTag::GeographicType }));
    // another TIFF tag
    let r = decode(&[1, 1, 0, 1, 4096, 256, 1, 0], &[], "");
    assert_eq!(r, Err(FormatError::NotShort { key: GeoKeyDirectoryTag::Vertical }));
    // a value that is no TIFF tag and not 0
    let r = decode(&[1, 1, 0, 1, 1024, 5, 1, 2], &[], "");
    assert_eq!(r, Err(FormatError::NotShort { key: GeoKeyDirectoryTag::ModelType }));
}

#[test]
fn location_is_checked_before_count() {
    let r = decode(&[1, 1, 0, 1, 1024, 5, 3, 2], &[], "");
    assert_eq!(r, Err(FormatError::NotShort { key: GeoKeyDirectoryTag::ModelType }));
}

#[test]
fn directory_shorter_than_header() {
    assert_eq!(decode(&[], &[], ""), Err(FormatError::DirectoryTooShort { len: 0 }));
    assert_eq!(decode(&[1, 1, 0], &[], ""), Err(FormatError::DirectoryTooShort { len: 3 }));
}

#[test]
fn key_count_does_not_match_length() {
    assert_eq!(
        decode(&[1, 1, 0, 1], &[], ""),
        Err(FormatError::KeyCountMismatch { number_of_keys: 1, len: 4 })
    );
    assert_eq!(
        decode(&[1, 1, 0, 0, 1024, 0, 1, 2], &[], ""),
        Err(FormatError::KeyCountMismatch { number_of_keys: 0, len: 8 })
    );
    assert_eq!(
        decode(&[1, 1, 0, 1, 1024, 0, 1], &[], ""),
        Err(FormatError::KeyCountMismatch { number_of_keys: 1, len: 7 })
    );
    assert_eq!(
        decode(&[1, 1, 0, 2, 1024, 0, 1, 2], &[], ""),
        Err(FormatError::KeyCountMismatch { number_of_keys: 2, len: 8 })
    );
}

#[test]
fn unknown_key_is_rejected() {
    assert_eq!(
        decode(&[1, 1, 0, 1, 1027, 0, 1, 2], &[], ""),
        Err(FormatError::UnknownKey { id: 1027 })
    );
    assert_eq!(
        decode(&[1, 1, 0, 1, 0, 0, 1, 2], &[], ""),
        Err(FormatError::UnknownKey { id: 0 })
    );
    assert_eq!(
        decode(&[1, 1, 0, 1, 5120, 0, 1, 2], &[], ""),
        Err(FormatError::UnknownKey { id: 5120 })
    );
}

#[test]
fn raster_type_key() {
    let d = decode(&[1, 1, 0, 1, 1025, 0, 1, 1], &[], "").unwrap();
    assert_eq!(d.raster_type, Some(RasterType::RasterPixelIsArea));
    let d = decode(&[1, 1, 0, 1, 1025, 0, 1, 2], &[], "").unwrap();
    assert_eq!(d.raster_type, Some(RasterType::RasterPixelIsPoint));
    let d = decode(&[1, 1, 0, 1, 1025, 0, 1, 0], &[], "").unwrap();
    assert_eq!(d.raster_type, Some(RasterType::Undefined));
    let d = decode(&[1, 1, 0, 1, 1025, 0, 1, 32767], &[], "").unwrap();
    assert_eq!(d.raster_type, Some(RasterType::UserDefined));
}

#[test]
fn unknown_raster_type_is_rejected() {
    assert_eq!(
        decode(&[1, 1, 0, 1, 1025, 0, 1, 3], &[], ""),
        Err(FormatError::UnknownRasterType { value: 3 })
    );
    // the defects of a SHORT come first
    assert_eq!(
        decode(&[1, 1, 0, 1, 1025, 0, 2, 3], &[], ""),
        Err(FormatError::UnexpectedCount { key: GeoKeyDirectoryTag::RasterType, count: 2 })
    );
    assert_eq!(
        decode(&[1, 1, 0, 1, 1025, ASCII, 1, 3], &[], ""),
        Err(FormatError::NotShort { key: GeoKeyDirectoryTag::RasterType })
    );
}

#[test]
fn later_entry_of_a_key_replaces_earlier() {
    let d = decode(&[1, 1, 0, 2, 1024, 0, 1, 2, 1024, 0, 1, 1], &[], "").unwrap();
    assert_eq!(d.model_type, Some(1));
    let d = decode(
        &[1, 1, 0, 3, 1026, ASCII, 3, 0, 1024, 0, 1, 2, 1026, ASCII, 3, 3],
        &[],
        "ab|cd|",
    )
    .unwrap();
    assert_eq!(d.citation, Some(String::from("cd")));
    assert_eq!(d.model_type, Some(2));
}

#[test]
fn first_defect_gives_the_error() {
    let r = decode(&[1, 1, 0, 2, 1024, 0, 2, 2, 9999, 0, 1, 1], &[], "");
    assert_eq!(
        r,
        Err(FormatError::UnexpectedCount { key: GeoKeyDirectoryTag::ModelType, count: 2 })
    );
    let r = decode(&[1, 1, 0, 2, 9999, 0, 1, 1, 1024, 0, 2, 2], &[], "");
    assert_eq!(r, Err(FormatError::UnknownKey { id: 9999 }));
    // a good entry before the defect does not help
    let r = decode(&[1, 1, 0, 2, 1024, 0, 1, 2, 2057, DOUBLE, 1, 1], &[1.0], "");
    assert_eq!(
        r,
        Err(FormatError::OffsetOutOfBounds {
            key: GeoKeyDirectoryTag::GeogSemiMajorAxis,
            len: 1,
            offset: 1,
        })
    );
}

#[test]
fn keys_of_all_groups() {
    let doubles = [6378137.0, 6356752.314245, 500000.0, 0.9996];
    let ascii = "WGS 84 / UTM zone 33N|WGS 84|";
    let directory: Vec<u16> = vec![
        1, 1, 0, 11, //
        1024, 0, 1, 1, //
        1025, 0, 1, 1, //
        1026, ASCII, 22, 0, //
        2048, 0, 1, 4326, //
        2049, ASCII, 7, 22, //
        2054, 0, 1, 9102, //
        2057, DOUBLE, 1, 0, //
        2058, DOUBLE, 1, 1, //
        3072, 0, 1, 32633, //
        3082, DOUBLE, 1, 2, //
        4099, 0, 1, 9001,
    ];
    let d = decode(&directory, &doubles, ascii).unwrap();
    let expected: GeoKeyDirectory<f64> = GeoKeyDirectory {
        key_directory_version: 1,
        key_revision: 1,
        minor_revision: 0,
        model_type: Some(1),
        raster_type: Some(RasterType::RasterPixelIsArea),
        citation: Some(String::from("WGS 84 / UTM zone 33N")),
        geographic_type: Some(4326),
        geog_citation: Some(String::from("WGS 84")),
        geog_angular_units: Some(9102),
        geog_semi_major_axis: Some(6378137.0),
        geog_semi_minor_axis: Some(6356752.314245),
        projected_type: Some(32633),
        proj_false_easting: Some(500000.0),
        vertical_units: Some(9001),
        ..GeoKeyDirectory::default()
    };
    assert_eq!(d, expected);
}

#[test]
fn every_short_key_fills_its_own_field() {
    let ids: [u16; 18] = [
        1024, 2048, 2050, 2051, 2052, 2054, 2056, 2060, 3072, 3074, 3075, 3076, 4096, 4098, 4099,
        1024, 2048, 2050,
    ];
    let mut directory: Vec<u16> = vec![1, 1, 0, 15];
    let mut n: u16 = 0;
    while n < 15 {
        directory.extend_from_slice(&[ids[n as usize], 0, 1, 100 + n]);
        n += 1;
    }
    let d = decode(&directory, &[], "").unwrap();
    let expected: GeoKeyDirectory<f64> = GeoKeyDirectory {
        minor_revision: 0,
        model_type: Some(100),
        geographic_type: Some(101),
        geog_geodetic_datum: Some(102),
        geog_prime_meridian: Some(103),
        geog_linear_units: Some(104),
        geog_angular_units: Some(105),
        geog_ellipsoid: Some(106),
        geog_azimuth_units: Some(107),
        projected_type: Some(108),
        projection: Some(109),
        proj_coord_trans: Some(110),
        proj_linear_units: Some(111),
        vertical: Some(112),
        vertical_datum: Some(113),
        vertical_units: Some(114),
        ..GeoKeyDirectory::default()
    };
    assert_eq!(d, expected);
}

#[test]
fn every_double_key_fills_its_own_field() {
    let ids: [u16; 26] = [
        2053, 2055, 2057, 2058, 2059, 2061, 3077, 3078, 3079, 3080, 3081, 3082, 3083, 3084, 3085,
        3086, 3087, 3088, 3089, 3090, 3091, 3092, 3093, 3094, 3095, 0,
    ];
    let mut directory: Vec<u16> = vec![1, 1, 0, 25];
    let mut doubles: Vec<f64> = Vec::new();
    let mut n: u16 = 0;
    while n < 25 {
        directory.extend_from_slice(&[ids[n as usize], DOUBLE, 1, n]);
        doubles.push(0.5 + f64::from(n));
        n += 1;
    }
    let d = decode(&directory, &doubles, "").unwrap();
    let expected: GeoKeyDirectory<f64> = GeoKeyDirectory {
        minor_revision: 0,
        geog_linear_unit_size: Some(0.5),
        geog_angular_unit_size: Some(1.5),
        geog_semi_major_axis: Some(2.5),
        geog_semi_minor_axis: Some(3.5),
        geog_inv_flattening: Some(4.5),
        geog_prime_meridian_long: Some(5.5),
        proj_linear_unit_size: Some(6.5),
        proj_std_parallel1: Some(7.5),
        proj_std_parallel2: Some(8.5),
        proj_nat_origin_long: Some(9.5),
        proj_nat_origin_lat: Some(10.5),
        proj_false_easting: Some(11.5),
        proj_false_northing: Some(12.5),
        proj_false_origin_long: Some(13.5),
        proj_false_origin_lat: Some(14.5),
        proj_false_origin_easting: Some(15.5),
        proj_false_origin_northing: Some(16.5),
        proj_center_long: Some(17.5),
        proj_center_lat: Some(18.5),
        proj_center_easting: Some(19.5),
        proj_center_northing: Some(20.5),
        proj_scale_at_nat_origin: Some(21.5),
        proj_scale_at_center: Some(22.5),
        proj_azimuth_angle: Some(23.5),
        proj_straight_vert_pole_long: Some(24.5),
        ..GeoKeyDirectory::default()
    };
    assert_eq!(d, expected);
}

#[test]
fn every_text_key_fills_its_own_field() {
    let d = decode(
        &[
            1, 1, 0, 4, 1026, ASCII, 2, 0, 2049, ASCII, 2, 2, 3073, ASCII, 2, 4, 4097, ASCII, 2,
            6,
        ],
        &[],
        "a|b|c|d|",
    )
    .unwrap();
    let expected: GeoKeyDirectory<f64> = GeoKeyDirectory {
        minor_revision: 0,
        citation: Some(String::from("a")),
        geog_citation: Some(String::from("b")),
        proj_citation: Some(String::from("c")),
        vertical_citation: Some(String::from("d")),
        ..GeoKeyDirectory::default()
    };
    assert_eq!(d, expected);
}

#[test]
fn key_ids_round_trip() {
    let mut known: u32 = 0;
    let mut id: u32 = 0;
    while id <= 65535 {
        let raw: u16 = id as u16;
        if let Some(key) = GeoKeyDirectoryTag::from_u16(raw) {
            assert_eq!(key.to_u16(), raw);
            known += 1;
            let in_a_group = (1024..=1026).contains(&raw)
                || (2048..=2061).contains(&raw)
                || (3072..=3095).contains(&raw)
                || (4096..=4099).contains(&raw);
            assert!(in_a_group);
        }
        id += 1;
    }
    assert_eq!(known, 45);
    assert_eq!(GeoKeyDirectoryTag::from_u16(1024), Some(GeoKeyDirectoryTag::ModelType));
    assert_eq!(GeoKeyDirectoryTag::from_u16(2061), Some(GeoKeyDirectoryTag::GeogPrimeMeridianLong));
    assert_eq!(
        GeoKeyDirectoryTag::from_u16(3095),
        Some(GeoKeyDirectoryTag::ProjStraightVertPoleLong)
    );
    assert_eq!(GeoKeyDirectoryTag::from_u16(4099), Some(GeoKeyDirectoryTag::VerticalUnits));
    assert_eq!(GeoKeyDirectoryTag::from_u16(2062), None);
    assert_eq!(GeoKeyDirectoryTag::VerticalCitation.to_u16(), 4097);
}

#[test]
fn declared_types_of_keys() {
    assert_eq!(GeoKeyDirectoryTag::ModelType.declared_type(), ValueType::Short);
    assert_eq!(GeoKeyDirectoryTag::RasterType.declared_type(), ValueType::Short);
    assert_eq!(GeoKeyDirectoryTag::Citation.declared_type(), ValueType::Ascii);
    assert_eq!(GeoKeyDirectoryTag::GeogLinearUnitSize.declared_type(), ValueType::Double);
    assert_eq!(GeoKeyDirectoryTag::ProjAzimuthAngle.declared_type(), ValueType::Double);
    assert_eq!(GeoKeyDirectoryTag::VerticalCitation.declared_type(), ValueType::Ascii);
    assert_eq!(GeoKeyDirectoryTag::VerticalDatum.declared_type(), ValueType::Short);
}

#[test]
fn raster_type_values_round_trip() {
    assert_eq!(RasterType::from_u16(0), Some(RasterType::Undefined));
    assert_eq!(RasterType::from_u16(1), Some(RasterType::RasterPixelIsArea));
    assert_eq!(RasterType::from_u16(2), Some(RasterType::RasterPixelIsPoint));
    assert_eq!(RasterType::from_u16(32767), Some(RasterType::UserDefined));
    assert_eq!(RasterType::from_u16(3), None);
    assert_eq!(RasterType::from_u16(32768), None);
    assert_eq!(RasterType::Undefined.to_u16(), 0);
    assert_eq!(RasterType::RasterPixelIsArea.to_u16(), 1);
    assert_eq!(RasterType::RasterPixelIsPoint.to_u16(), 2);
    assert_eq!(RasterType::UserDefined.to_u16(), 32767);
}

#[test]
fn location_tags_are_told_apart() {
    assert_eq!(TagLocation::from_u16(0), TagLocation::Inline);
    assert_eq!(TagLocation::from_u16(34736), TagLocation::DoubleParams);
    assert_eq!(TagLocation::from_u16(34737), TagLocation::AsciiParams);
    // the directory's own tag and its neighbours
    assert_eq!(TagLocation::from_u16(34735), TagLocation::Other);
    assert_eq!(TagLocation::from_u16(34738), TagLocation::Other);
    // other TIFF tags and values that are no tag
    assert_eq!(TagLocation::from_u16(256), TagLocation::Other);
    assert_eq!(TagLocation::from_u16(33550), TagLocation::Other);
    assert_eq!(TagLocation::from_u16(1), TagLocation::Other);
    assert_eq!(TagLocation::from_u16(65535), TagLocation::Other);
}

#[test]
fn entry_is_formed_from_four_values() {
    let entry = DirectoryEntry::from_values(2057, 34736, 1, 3).unwrap();
    assert_eq!(
        entry,
        DirectoryEntry {
            key_tag: GeoKeyDirectoryTag::GeogSemiMajorAxis,
            location_tag: TagLocation::DoubleParams,
            count: 1,
            value_or_offset: 3,
        }
    );
    assert_eq!(
        DirectoryEntry::from_values(1, 0, 1, 3),
        Err(FormatError::UnknownKey { id: 1 })
    );
}

#[test]
fn entry_accessors() {
    let short = DirectoryEntry::from_values(1024, 0, 1, 7).unwrap();
    assert_eq!(short.short(), Ok(7));
    assert_eq!(
        short.double(&[1.5]),
        Err(FormatError::NotDouble { key: GeoKeyDirectoryTag::ModelType })
    );
    assert_eq!(short.string("abc"), Err(FormatError::NotAscii { key: GeoKeyDirectoryTag::ModelType }));

    let double = DirectoryEntry::from_values(2057, 34736, 1, 1).unwrap();
    assert_eq!(double.double(&[1.5, 2.5]), Ok(2.5));
    assert_eq!(
        double.short(),
        Err(FormatError::NotShort { key: GeoKeyDirectoryTag::GeogSemiMajorAxis })
    );

    let text = DirectoryEntry::from_values(1026, 34737, 3, 1).unwrap();
    assert_eq!(text.string("abcd"), Ok(String::from("bc")));

    let raster = DirectoryEntry::from_values(1025, 0, 1, 2).unwrap();
    assert_eq!(raster.raster_type(), Ok(RasterType::RasterPixelIsPoint));
    assert_eq!(raster.short(), Ok(2));
}
