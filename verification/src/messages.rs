//! The request and response records of the CRS operations, with their
//! mathematical views (text fields as character sequences).
use vstd::prelude::*;

verus! {

/// A CRS identifier: an EPSG code (`EPSG:4326`, `4326`), a PROJ4 string, or
/// an EPSG-tagged WKT text.
#[derive(Clone, Debug)]
pub struct CrsQuery {
    pub crs: String,
}

/// A CRS's authority-defined axes next to this package's fixed `x,y` order.
#[derive(Clone, Debug)]
pub struct CrsAxisInfo {
    pub axis_names: Vec<String>,
    pub axis_directions: Vec<String>,
    pub transform_io_order: String,
    pub note: String,
    pub error: String,
}

pub struct CrsAxisInfoView {
    pub axis_names: Seq<Seq<char>>,
    pub axis_directions: Seq<Seq<char>>,
    pub transform_io_order: Seq<char>,
    pub note: Seq<char>,
    pub error: Seq<char>,
}

impl View for CrsAxisInfo {
    type V = CrsAxisInfoView;

    open spec fn view(&self) -> CrsAxisInfoView {
        CrsAxisInfoView {
            axis_names: self.axis_names@.map_values(|s: String| s@),
            axis_directions: self.axis_directions@.map_values(|s: String| s@),
            transform_io_order: self.transform_io_order@,
            note: self.note@,
            error: self.error@,
        }
    }
}

/// The WKT and PROJ4 definitions of a CRS.
#[derive(Clone, Debug)]
pub struct CrsRepresentation {
    pub wkt: String,
    pub proj4: String,
    pub error: String,
}

pub struct CrsRepresentationView {
    pub wkt: Seq<char>,
    pub proj4: Seq<char>,
    pub error: Seq<char>,
}

impl View for CrsRepresentation {
    type V = CrsRepresentationView;

    open spec fn view(&self) -> CrsRepresentationView {
        CrsRepresentationView { wkt: self.wkt@, proj4: self.proj4@, error: self.error@ }
    }
}

/// The canonical registry form of a CRS identifier.
#[derive(Clone, Debug)]
pub struct CrsCanonical {
    pub epsg_code: String,
    pub authority: String,
    pub code: String,
    pub proj4: String,
    pub wkt: String,
    pub name: String,
    pub error: String,
}

pub struct CrsCanonicalView {
    pub epsg_code: Seq<char>,
    pub authority: Seq<char>,
    pub code: Seq<char>,
    pub proj4: Seq<char>,
    pub wkt: Seq<char>,
    pub name: Seq<char>,
    pub error: Seq<char>,
}

impl View for CrsCanonical {
    type V = CrsCanonicalView;

    open spec fn view(&self) -> CrsCanonicalView {
        CrsCanonicalView {
            epsg_code: self.epsg_code@,
            authority: self.authority@,
            code: self.code@,
            proj4: self.proj4@,
            wkt: self.wkt@,
            name: self.name@,
            error: self.error@,
        }
    }
}

/// Whether a CRS identifier is recognized, and why not.
#[derive(Clone, Debug)]
pub struct CrsValidation {
    pub valid: bool,
    pub epsg_code: String,
    pub name: String,
    pub reason: String,
}

pub struct CrsValidationView {
    pub valid: bool,
    pub epsg_code: Seq<char>,
    pub name: Seq<char>,
    pub reason: Seq<char>,
}

impl View for CrsValidation {
    type V = CrsValidationView;

    open spec fn view(&self) -> CrsValidationView {
        CrsValidationView {
            valid: self.valid,
            epsg_code: self.epsg_code@,
            name: self.name@,
            reason: self.reason@,
        }
    }
}

/// Structured metadata of a CRS. The numeric fields hold the decimal text
/// that the registry's WKT gives for them, or are empty when it gives none.
#[derive(Clone, Debug)]
pub struct CrsInfo {
    pub epsg_code: String,
    pub name: String,
    pub crs_type: String,
    pub datum: String,
    pub ellipsoid_name: String,
    pub ellipsoid_semi_major_m: String,
    pub ellipsoid_inverse_flattening: String,
    pub unit: String,
    pub unit_to_meter: String,
    pub area_description: String,
    pub area_south_lat: String,
    pub area_west_lon: String,
    pub area_north_lat: String,
    pub area_east_lon: String,
    pub error: String,
}

pub struct CrsInfoView {
    pub epsg_code: Seq<char>,
    pub name: Seq<char>,
    pub crs_type: Seq<char>,
    pub datum: Seq<char>,
    pub ellipsoid_name: Seq<char>,
    pub ellipsoid_semi_major_m: Seq<char>,
    pub ellipsoid_inverse_flattening: Seq<char>,
    pub unit: Seq<char>,
    pub unit_to_meter: Seq<char>,
    pub area_description: Seq<char>,
    pub area_south_lat: Seq<char>,
    pub area_west_lon: Seq<char>,
    pub area_north_lat: Seq<char>,
    pub area_east_lon: Seq<char>,
    pub error: Seq<char>,
}

impl View for CrsInfo {
    type V = CrsInfoView;

    open spec fn view(&self) -> CrsInfoView {
        CrsInfoView {
            epsg_code: self.epsg_code@,
            name: self.name@,
            crs_type: self.crs_type@,
            datum: self.datum@,
            ellipsoid_name: self.ellipsoid_name@,
            ellipsoid_semi_major_m: self.ellipsoid_semi_major_m@,
            ellipsoid_inverse_flattening: self.ellipsoid_inverse_flattening@,
            unit: self.unit@,
            unit_to_meter: self.unit_to_meter@,
            area_description: self.area_description@,
            area_south_lat: self.area_south_lat@,
            area_west_lon: self.area_west_lon@,
            area_north_lat: self.area_north_lat@,
            area_east_lon: self.area_east_lon@,
            error: self.error@,
        }
    }
}

/// The UTM zone, hemisphere and WGS-84/UTM EPSG code covering a point.
#[derive(Clone, Debug)]
pub struct UtmZoneInfo {
    pub zone_number: i32,
    pub hemisphere: String,
    pub epsg_code: String,
    pub crs_name: String,
    pub error: String,
}

pub struct UtmZoneInfoView {
    pub zone_number: int,
    pub hemisphere: Seq<char>,
    pub epsg_code: Seq<char>,
    pub crs_name: Seq<char>,
    pub error: Seq<char>,
}

impl View for UtmZoneInfo {
    type V = UtmZoneInfoView;

    open spec fn view(&self) -> UtmZoneInfoView {
        UtmZoneInfoView {
            zone_number: self.zone_number as int,
            hemisphere: self.hemisphere@,
            epsg_code: self.epsg_code@,
            crs_name: self.crs_name@,
            error: self.error@,
        }
    }
}

} // verus!
