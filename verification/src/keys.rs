//! The closed sets of GeoKey ids and raster types.

use vstd::prelude::*;

verus! {

/// The type of value that the key table declares for a key.
#[derive(Debug, Clone, Copy, PartialEq, Eq, Structural)]
pub enum ValueType {
    /// One 16-bit value, held in the directory entry itself.
    Short,
    /// One value of the double parameters.
    Double,
    /// A piece of the ASCII parameters.
    Ascii,
}

/// The GeoKeys that a directory may hold.
#[derive(Debug, Clone, Copy, PartialEq, Eq, Structural)]
pub enum GeoKeyDirectoryTag {
    // Configuration keys
    ModelType,
    RasterType,
    Citation,
    // Geodetic CRS parameter keys
    GeographicType,
    GeogCitation,
    GeogGeodeticDatum,
    GeogPrimeMeridian,
    GeogLinearUnits,
    GeogLinearUnitSize,
    GeogAngularUnits,
    GeogAngularUnitSize,
    GeogEllipsoid,
    GeogSemiMajorAxis,
    GeogSemiMinorAxis,
    GeogInvFlattening,
    GeogAzimuthUnits,
    GeogPrimeMeridianLong,
    // Projected CRS parameter keys
    ProjectedType,
    ProjCitation,
    Projection,
    ProjCoordTrans,
    ProjLinearUnits,
    ProjLinearUnitSize,
    ProjStdParallel1,
    ProjStdParallel2,
    ProjNatOriginLong,
    ProjNatOriginLat,
    ProjFalseEasting,
    ProjFalseNorthing,
    ProjFalseOriginLong,
    ProjFalseOriginLat,
    ProjFalseOriginEasting,
    ProjFalseOriginNorthing,
    ProjCenterLong,
    ProjCenterLat,
    ProjCenterEasting,
    ProjCenterNorthing,
    ProjScaleAtNatOrigin,
    ProjScaleAtCenter,
    ProjAzimuthAngle,
    ProjStraightVertPoleLong,
    // Vertical CRS parameter keys
    Vertical,
    VerticalCitation,
    VerticalDatum,
    VerticalUnits,
}

impl GeoKeyDirectoryTag {
    /// The id under which the key stands in a directory.
    pub open spec fn code(self) -> u16 {
        match self {
            GeoKeyDirectoryTag::ModelType => 1024,
            GeoKeyDirectoryTag::RasterType => 1025,
            GeoKeyDirectoryTag::Citation => 1026,
            GeoKeyDirectoryTag::GeographicType => 2048,
            GeoKeyDirectoryTag::GeogCitation => 2049,
            GeoKeyDirectoryTag::GeogGeodeticDatum => 2050,
            GeoKeyDirectoryTag::GeogPrimeMeridian => 2051,
            GeoKeyDirectoryTag::GeogLinearUnits => 2052,
            GeoKeyDirectoryTag::GeogLinearUnitSize => 2053,
            GeoKeyDirectoryTag::GeogAngularUnits => 2054,
            GeoKeyDirectoryTag::GeogAngularUnitSize => 2055,
            GeoKeyDirectoryTag::GeogEllipsoid => 2056,
            GeoKeyDirectoryTag::GeogSemiMajorAxis => 2057,
            GeoKeyDirectoryTag::GeogSemiMinorAxis => 2058,
            GeoKeyDirectoryTag::GeogInvFlattening => 2059,
            GeoKeyDirectoryTag::GeogAzimuthUnits => 2060,
            GeoKeyDirectoryTag::GeogPrimeMeridianLong => 2061,
            GeoKeyDirectoryTag::ProjectedType => 3072,
            GeoKeyDirectoryTag::ProjCitation => 3073,
            GeoKeyDirectoryTag::Projection => 3074,
            GeoKeyDirectoryTag::ProjCoordTrans => 3075,
            GeoKeyDirectoryTag::ProjLinearUnits => 3076,
            GeoKeyDirectoryTag::ProjLinearUnitSize => 3077,
            GeoKeyDirectoryTag::ProjStdParallel1 => 3078,
            GeoKeyDirectoryTag::ProjStdParallel2 => 3079,
            GeoKeyDirectoryTag::ProjNatOriginLong => 3080,
            GeoKeyDirectoryTag::ProjNatOriginLat => 3081,
            GeoKeyDirectoryTag::ProjFalseEasting => 3082,
            GeoKeyDirectoryTag::ProjFalseNorthing => 3083,
            GeoKeyDirectoryTag::ProjFalseOriginLong => 3084,
            GeoKeyDirectoryTag::ProjFalseOriginLat => 3085,
            GeoKeyDirectoryTag::ProjFalseOriginEasting => 3086,
            GeoKeyDirectoryTag::ProjFalseOriginNorthing => 3087,
            GeoKeyDirectoryTag::ProjCenterLong => 3088,
            GeoKeyDirectoryTag::ProjCenterLat => 3089,
            GeoKeyDirectoryTag::ProjCenterEasting => 3090,
            GeoKeyDirectoryTag::ProjCenterNorthing => 3091,
            GeoKeyDirectoryTag::ProjScaleAtNatOrigin => 3092,
            GeoKeyDirectoryTag::ProjScaleAtCenter => 3093,
            GeoKeyDirectoryTag::ProjAzimuthAngle => 3094,
            GeoKeyDirectoryTag::ProjStraightVertPoleLong => 3095,
            GeoKeyDirectoryTag::Vertical => 4096,
            GeoKeyDirectoryTag::VerticalCitation => 4097,
            GeoKeyDirectoryTag::VerticalDatum => 4098,
            GeoKeyDirectoryTag::VerticalUnits => 4099,
        }
    }

    /// The key that stands under `id`, if there is one.
    pub open spec fn of_code(id: u16) -> Option<GeoKeyDirectoryTag> {
        match id {
            1024u16 => Some(GeoKeyDirectoryTag::ModelType),
            1025u16 => Some(GeoKeyDirectoryTag::RasterType),
            1026u16 => Some(GeoKeyDirectoryTag::Citation),
            2048u16 => Some(GeoKeyDirectoryTag::GeographicType),
            2049u16 => Some(GeoKeyDirectoryTag::GeogCitation),
            2050u16 => Some(GeoKeyDirectoryTag::GeogGeodeticDatum),
            2051u16 => Some(GeoKeyDirectoryTag::GeogPrimeMeridian),
            2052u16 => Some(GeoKeyDirectoryTag::GeogLinearUnits),
            2053u16 => Some(GeoKeyDirectoryTag::GeogLinearUnitSize),
            2054u16 => Some(GeoKeyDirectoryTag::GeogAngularUnits),
            2055u16 => Some(GeoKeyDirectoryTag::GeogAngularUnitSize),
            2056u16 => Some(GeoKeyDirectoryTag::GeogEllipsoid),
            2057u16 => Some(GeoKeyDirectoryTag::GeogSemiMajorAxis),
            2058u16 => Some(GeoKeyDirectoryTag::GeogSemiMinorAxis),
            2059u16 => Some(GeoKeyDirectoryTag::GeogInvFlattening),
            2060u16 => Some(GeoKeyDirectoryTag::GeogAzimuthUnits),
            2061u16 => Some(GeoKeyDirectoryTag::GeogPrimeMeridianLong),
            3072u16 => Some(GeoKeyDirectoryTag::ProjectedType),
            3073u16 => Some(GeoKeyDirectoryTag::ProjCitation),
            3074u16 => Some(GeoKeyDirectoryTag::Projection),
            3075u16 => Some(GeoKeyDirectoryTag::ProjCoordTrans),
            3076u16 => Some(GeoKeyDirectoryTag::ProjLinearUnits),
            3077u16 => Some(GeoKeyDirectoryTag::ProjLinearUnitSize),
            3078u16 => Some(GeoKeyDirectoryTag::ProjStdParallel1),
            3079u16 => Some(GeoKeyDirectoryTag::ProjStdParallel2),
            3080u16 => Some(GeoKeyDirectoryTag::ProjNatOriginLong),
            3081u16 => Some(GeoKeyDirectoryTag::ProjNatOriginLat),
            3082u16 => Some(GeoKeyDirectoryTag::ProjFalseEasting),
            3083u16 => Some(GeoKeyDirectoryTag::ProjFalseNorthing),
            3084u16 => Some(GeoKeyDirectoryTag::ProjFalseOriginLong),
            3085u16 => Some(GeoKeyDirectoryTag::ProjFalseOriginLat),
            3086u16 => Some(GeoKeyDirectoryTag::ProjFalseOriginEasting),
            3087u16 => Some(GeoKeyDirectoryTag::ProjFalseOriginNorthing),
            3088u16 => Some(GeoKeyDirectoryTag::ProjCenterLong),
            3089u16 => Some(GeoKeyDirectoryTag::ProjCenterLat),
            3090u16 => Some(GeoKeyDirectoryTag::ProjCenterEasting),
            3091u16 => Some(GeoKeyDirectoryTag::ProjCenterNorthing),
            3092u16 => Some(GeoKeyDirectoryTag::ProjScaleAtNatOrigin),
            3093u16 => Some(GeoKeyDirectoryTag::ProjScaleAtCenter),
            3094u16 => Some(GeoKeyDirectoryTag::ProjAzimuthAngle),
            3095u16 => Some(GeoKeyDirectoryTag::ProjStraightVertPoleLong),
            4096u16 => Some(GeoKeyDirectoryTag::Vertical),
            4097u16 => Some(GeoKeyDirectoryTag::VerticalCitation),
            4098u16 => Some(GeoKeyDirectoryTag::VerticalDatum),
            4099u16 => Some(GeoKeyDirectoryTag::VerticalUnits),
            _ => None,
        }
    }

    /// The type of value that the key table declares for the key.
    pub open spec fn value_type(self) -> ValueType {
        match self {
            GeoKeyDirectoryTag::Citation
            | GeoKeyDirectoryTag::GeogCitation
            | GeoKeyDirectoryTag::ProjCitation
            | GeoKeyDirectoryTag::VerticalCitation => ValueType::Ascii,
            GeoKeyDirectoryTag::GeogLinearUnitSize
            | GeoKeyDirectoryTag::GeogAngularUnitSize
            | GeoKeyDirectoryTag::GeogSemiMajorAxis
            | GeoKeyDirectoryTag::GeogSemiMinorAxis
            | GeoKeyDirectoryTag::GeogInvFlattening
            | GeoKeyDirectoryTag::GeogPrimeMeridianLong
            | GeoKeyDirectoryTag::ProjLinearUnitSize
            | GeoKeyDirectoryTag::ProjStdParallel1
            | GeoKeyDirectoryTag::ProjStdParallel2
            | GeoKeyDirectoryTag::ProjNatOriginLong
            | GeoKeyDirectoryTag::ProjNatOriginLat
            | GeoKeyDirectoryTag::ProjFalseEasting
            | GeoKeyDirectoryTag::ProjFalseNorthing
            | GeoKeyDirectoryTag::ProjFalseOriginLong
            | GeoKeyDirectoryTag::ProjFalseOriginLat
            | GeoKeyDirectoryTag::ProjFalseOriginEasting
            | GeoKeyDirectoryTag::ProjFalseOriginNorthing
            | GeoKeyDirectoryTag::ProjCenterLong
            | GeoKeyDirectoryTag::ProjCenterLat
            | GeoKeyDirectoryTag::ProjCenterEasting
            | GeoKeyDirectoryTag::ProjCenterNorthing
            | GeoKeyDirectoryTag::ProjScaleAtNatOrigin
            | GeoKeyDirectoryTag::ProjScaleAtCenter
            | GeoKeyDirectoryTag::ProjAzimuthAngle
            | GeoKeyDirectoryTag::ProjStraightVertPoleLong => ValueType::Double,
            _ => ValueType::Short,
        }
    }

    /// Looks a key up by its id.
    pub fn from_u16(id: u16) -> (key: Option<GeoKeyDirectoryTag>)
        ensures
            key == Self::of_code(id),
    {
        match id {
            1024 => Some(GeoKeyDirectoryTag::ModelType),
            1025 => Some(GeoKeyDirectoryTag::RasterType),
            1026 => Some(GeoKeyDirectoryTag::Citation),
            2048 => Some(GeoKeyDirectoryTag::GeographicType),
            2049 => Some(GeoKeyDirectoryTag::GeogCitation),
            2050 => Some(GeoKeyDirectoryTag::GeogGeodeticDatum),
            2051 => Some(GeoKeyDirectoryTag::GeogPrimeMeridian),
            2052 => Some(GeoKeyDirectoryTag::GeogLinearUnits),
            2053 => Some(GeoKeyDirectoryTag::GeogLinearUnitSize),
            2054 => Some(GeoKeyDirectoryTag::GeogAngularUnits),
            2055 => Some(GeoKeyDirectoryTag::GeogAngularUnitSize),
            2056 => Some(GeoKeyDirectoryTag::GeogEllipsoid),
            2057 => Some(GeoKeyDirectoryTag::GeogSemiMajorAxis),
            2058 => Some(GeoKeyDirectoryTag::GeogSemiMinorAxis),
            2059 => Some(GeoKeyDirectoryTag::GeogInvFlattening),
            2060 => Some(GeoKeyDirectoryTag::GeogAzimuthUnits),
            2061 => Some(GeoKeyDirectoryTag::GeogPrimeMeridianLong),
            3072 => Some(GeoKeyDirectoryTag::ProjectedType),
            3073 => Some(GeoKeyDirectoryTag::ProjCitation),
            3074 => Some(GeoKeyDirectoryTag::Projection),
            3075 => Some(GeoKeyDirectoryTag::ProjCoordTrans),
            3076 => Some(GeoKeyDirectoryTag::ProjLinearUnits),
            3077 => Some(GeoKeyDirectoryTag::ProjLinearUnitSize),
            3078 => Some(GeoKeyDirectoryTag::ProjStdParallel1),
            3079 => Some(GeoKeyDirectoryTag::ProjStdParallel2),
            3080 => Some(GeoKeyDirectoryTag::ProjNatOriginLong),
            3081 => Some(GeoKeyDirectoryTag::ProjNatOriginLat),
            3082 => Some(GeoKeyDirectoryTag::ProjFalseEasting),
            3083 => Some(GeoKeyDirectoryTag::ProjFalseNorthing),
            3084 => Some(GeoKeyDirectoryTag::ProjFalseOriginLong),
            3085 => Some(GeoKeyDirectoryTag::ProjFalseOriginLat),
            3086 => Some(GeoKeyDirectoryTag::ProjFalseOriginEasting),
            3087 => Some(GeoKeyDirectoryTag::ProjFalseOriginNorthing),
            3088 => Some(GeoKeyDirectoryTag::ProjCenterLong),
            3089 => Some(GeoKeyDirectoryTag::ProjCenterLat),
            3090 => Some(GeoKeyDirectoryTag::ProjCenterEasting),
            3091 => Some(GeoKeyDirectoryTag::ProjCenterNorthing),
            3092 => Some(GeoKeyDirectoryTag::ProjScaleAtNatOrigin),
            3093 => Some(GeoKeyDirectoryTag::ProjScaleAtCenter),
            3094 => Some(GeoKeyDirectoryTag::ProjAzimuthAngle),
            3095 => Some(GeoKeyDirectoryTag::ProjStraightVertPoleLong),
            4096 => Some(GeoKeyDirectoryTag::Vertical),
            4097 => Some(GeoKeyDirectoryTag::VerticalCitation),
            4098 => Some(GeoKeyDirectoryTag::VerticalDatum),
            4099 => Some(GeoKeyDirectoryTag::VerticalUnits),
            _ => None,
        }
    }

    /// The id of the key.
    pub fn to_u16(self) -> (id: u16)
        ensures
            id == self.code(),
    {
        match self {
            GeoKeyDirectoryTag::ModelType => 1024,
            GeoKeyDirectoryTag::RasterType => 1025,
            GeoKeyDirectoryTag::Citation => 1026,
            GeoKeyDirectoryTag::GeographicType => 2048,
            GeoKeyDirectoryTag::GeogCitation => 2049,
            GeoKeyDirectoryTag::GeogGeodeticDatum => 2050,
            GeoKeyDirectoryTag::GeogPrimeMeridian => 2051,
            GeoKeyDirectoryTag::GeogLinearUnits => 2052,
            GeoKeyDirectoryTag::GeogLinearUnitSize => 2053,
            GeoKeyDirectoryTag::GeogAngularUnits => 2054,
            GeoKeyDirectoryTag::GeogAngularUnitSize => 2055,
            GeoKeyDirectoryTag::GeogEllipsoid => 2056,
            GeoKeyDirectoryTag::GeogSemiMajorAxis => 2057,
            GeoKeyDirectoryTag::GeogSemiMinorAxis => 2058,
            GeoKeyDirectoryTag::GeogInvFlattening => 2059,
            GeoKeyDirectoryTag::GeogAzimuthUnits => 2060,
            GeoKeyDirectoryTag::GeogPrimeMeridianLong => 2061,
            GeoKeyDirectoryTag::ProjectedType => 3072,
            GeoKeyDirectoryTag::ProjCitation => 3073,
            GeoKeyDirectoryTag::Projection => 3074,
            GeoKeyDirectoryTag::ProjCoordTrans => 3075,
            GeoKeyDirectoryTag::ProjLinearUnits => 3076,
            GeoKeyDirectoryTag::ProjLinearUnitSize => 3077,
            GeoKeyDirectoryTag::ProjStdParallel1 => 3078,
            GeoKeyDirectoryTag::ProjStdParallel2 => 3079,
            GeoKeyDirectoryTag::ProjNatOriginLong => 3080,
            GeoKeyDirectoryTag::ProjNatOriginLat => 3081,
            GeoKeyDirectoryTag::ProjFalseEasting => 3082,
            GeoKeyDirectoryTag::ProjFalseNorthing => 3083,
            GeoKeyDirectoryTag::ProjFalseOriginLong => 3084,
            GeoKeyDirectoryTag::ProjFalseOriginLat => 3085,
            GeoKeyDirectoryTag::ProjFalseOriginEasting => 3086,
            GeoKeyDirectoryTag::ProjFalseOriginNorthing => 3087,
            GeoKeyDirectoryTag::ProjCenterLong => 3088,
            GeoKeyDirectoryTag::ProjCenterLat => 3089,
            GeoKeyDirectoryTag::ProjCenterEasting => 3090,
            GeoKeyDirectoryTag::ProjCenterNorthing => 3091,
            GeoKeyDirectoryTag::ProjScaleAtNatOrigin => 3092,
            GeoKeyDirectoryTag::ProjScaleAtCenter => 3093,
            GeoKeyDirectoryTag::ProjAzimuthAngle => 3094,
            GeoKeyDirectoryTag::ProjStraightVertPoleLong => 3095,
            GeoKeyDirectoryTag::Vertical => 4096,
            GeoKeyDirectoryTag::VerticalCitation => 4097,
            GeoKeyDirectoryTag::VerticalDatum => 4098,
            GeoKeyDirectoryTag::VerticalUnits => 4099,
        }
    }

    /// The type of value that the key table declares for the key.
    pub fn declared_type(self) -> (t: ValueType)
        ensures
            t == self.value_type(),
    {
        match self {
            GeoKeyDirectoryTag::Citation
            | GeoKeyDirectoryTag::GeogCitation
            | GeoKeyDirectoryTag::ProjCitation
            | GeoKeyDirectoryTag::VerticalCitation => ValueType::Ascii,
            GeoKeyDirectoryTag::GeogLinearUnitSize
            | GeoKeyDirectoryTag::GeogAngularUnitSize
            | GeoKeyDirectoryTag::GeogSemiMajorAxis
            | GeoKeyDirectoryTag::GeogSemiMinorAxis
            | GeoKeyDirectoryTag::GeogInvFlattening
            | GeoKeyDirectoryTag::GeogPrimeMeridianLong
            | GeoKeyDirectoryTag::ProjLinearUnitSize
            | GeoKeyDirectoryTag::ProjStdParallel1
            | GeoKeyDirectoryTag::ProjStdParallel2
            | GeoKeyDirectoryTag::ProjNatOriginLong
            | GeoKeyDirectoryTag::ProjNatOriginLat
            | GeoKeyDirectoryTag::ProjFalseEasting
            | GeoKeyDirectoryTag::ProjFalseNorthing
            | GeoKeyDirectoryTag::ProjFalseOriginLong
            | GeoKeyDirectoryTag::ProjFalseOriginLat
            | GeoKeyDirectoryTag::ProjFalseOriginEasting
            | GeoKeyDirectoryTag::ProjFalseOriginNorthing
            | GeoKeyDirectoryTag::ProjCenterLong
            | GeoKeyDirectoryTag::ProjCenterLat
            | GeoKeyDirectoryTag::ProjCenterEasting
            | GeoKeyDirectoryTag::ProjCenterNorthing
            | GeoKeyDirectoryTag::ProjScaleAtNatOrigin
            | GeoKeyDirectoryTag::ProjScaleAtCenter
            | GeoKeyDirectoryTag::ProjAzimuthAngle
            | GeoKeyDirectoryTag::ProjStraightVertPoleLong => ValueType::Double,
            _ => ValueType::Short,
        }
    }

    /// Every key is found again under its own id.
    pub proof fn lemma_code_round_trip(key: GeoKeyDirectoryTag)
        ensures
            Self::of_code(key.code()) == Some(key),
    {
    }

    /// An id names at most one key: the key found under an id has that id.
    pub proof fn lemma_of_code_is_inverse(id: u16, key: GeoKeyDirectoryTag)
        requires
            Self::of_code(id) == Some(key),
        ensures
            key.code() == id,
    {
    }

    /// The known ids lie in four ranges, one for each group of keys.
    pub proof fn lemma_code_ranges(key: GeoKeyDirectoryTag)
        ensures
            1024 <= key.code() <= 1026 || 2048 <= key.code() <= 2061 || 3072 <= key.code() <= 3095
                || 4096 <= key.code() <= 4099,
    {
    }
}

/// The raster space that the image uses.
#[derive(Debug, Clone, Copy, PartialEq, Eq, Structural)]
pub enum RasterType {
    Undefined,
    RasterPixelIsArea,
    RasterPixelIsPoint,
    UserDefined,
}

impl RasterType {
    /// The value under which the raster type stands in a directory.
    pub open spec fn code(self) -> u16 {
        match self {
            RasterType::Undefined => 0,
            RasterType::RasterPixelIsArea => 1,
            RasterType::RasterPixelIsPoint => 2,
            RasterType::UserDefined => 32767,
        }
    }

    /// The raster type that stands under `value`, if there is one.
    pub open spec fn of_code(value: u16) -> Option<RasterType> {
        if value == 0 {
            Some(RasterType::Undefined)
        } else if value == 1 {
            Some(RasterType::RasterPixelIsArea)
        } else if value == 2 {
            Some(RasterType::RasterPixelIsPoint)
        } else if value == 32767 {
            Some(RasterType::UserDefined)
        } else {
            None
        }
    }

    /// Looks a raster type up by its value.
    pub fn from_u16(value: u16) -> (raster_type: Option<RasterType>)
        ensures
            raster_type == Self::of_code(value),
    {
        match value {
            0 => Some(RasterType::Undefined),
            1 => Some(RasterType::RasterPixelIsArea),
            2 => Some(RasterType::RasterPixelIsPoint),
            32767 => Some(RasterType::UserDefined),
            _ => None,
        }
    }

    /// The value of the raster type.
    pub fn to_u16(self) -> (value: u16)
        ensures
            value == self.code(),
    {
        match self {
            RasterType::Undefined => 0,
            RasterType::RasterPixelIsArea => 1,
            RasterType::RasterPixelIsPoint => 2,
            RasterType::UserDefined => 32767,
        }
    }

    /// Every raster type is found again under its own value, and a value
    /// names at most one raster type.
    pub proof fn lemma_code_round_trip(raster_type: RasterType, value: u16)
        ensures
            Self::of_code(raster_type.code()) == Some(raster_type),
            Self::of_code(value) == Some(raster_type) ==> raster_type.code() == value,
    {
    }
}

} // verus!
