use crs_tools::epsg::{parse_epsg_code, resolve_def, CrsError};
use crs_tools::messages::CrsQuery;
use crs_tools::nodes::{get_crs_info, get_crs_representation, utm_zone_info, validate_crs};

fn q(crs: &str) -> CrsQuery {
    CrsQuery { crs: crs.to_string() }
}

#[test]
fn representation_carries_registry_definitions() {
    let out = get_crs_representation(q("EPSG:4326"));
    assert_eq!(out.error, "");
    assert_eq!(out.proj4, "+proj=longlat +datum=WGS84 +no_defs +type=crs");
    assert!(out.wkt.starts_with("GEOGCRS[\"WGS 84\""));
    assert!(out.wkt.ends_with("ID[\"EPSG\",4326]]"));
    let bad = get_crs_representation(q("EPSG:1"));
    assert_eq!(bad.error, "UNKNOWN_EPSG_CODE");
    assert_eq!(bad.wkt, "");
    assert_eq!(bad.proj4, "");
}

#[test]
fn validate_registry_codes_and_proj_strings() {
    let ok = validate_crs(q(" EPSG:32633 "));
    assert!(ok.valid);
    assert_eq!(ok.epsg_code, "EPSG:32633");
    assert_eq!(ok.name, "WGS 84 / UTM zone 33N");
    assert_eq!(ok.reason, "");
    let p = validate_crs(q("+proj=longlat +datum=WGS84 +no_defs"));
    assert!(p.valid);
    assert_eq!(p.epsg_code, "");
    let bad = validate_crs(q("+proj=nosuchprojection"));
    assert!(!bad.valid);
    assert_eq!(bad.reason, "INVALID_CRS");
    let unknown = validate_crs(q("EPSG:1"));
    assert!(!unknown.valid);
    assert_eq!(unknown.reason, "UNKNOWN_EPSG_CODE");
    let garbage = validate_crs(q("nope"));
    assert!(!garbage.valid);
    assert_eq!(garbage.reason, "UNPARSEABLE");
}

#[test]
fn crs_info_of_a_geographic_entry() {
    let out = get_crs_info(q("4326"));
    assert_eq!(out.error, "");
    assert_eq!(out.epsg_code, "EPSG:4326");
    assert_eq!(out.name, "WGS 84");
    assert_eq!(out.crs_type, "geographic");
    assert_eq!(out.datum, "World Geodetic System 1984 ensemble");
    assert_eq!(out.ellipsoid_name, "WGS 84");
    assert_eq!(out.ellipsoid_semi_major_m, "6378137");
    assert_eq!(out.ellipsoid_inverse_flattening, "298.257223563");
    // The unit of the first (latitude) axis.
    assert_eq!(out.unit, "degree");
    assert_eq!(out.unit_to_meter, "0.0174532925199433");
    assert_eq!(out.area_description, "World.");
    assert_eq!(out.area_south_lat, "-90");
    assert_eq!(out.area_west_lon, "-180");
    assert_eq!(out.area_north_lat, "90");
    assert_eq!(out.area_east_lon, "180");
}

#[test]
fn crs_info_of_a_three_dimensional_entry_reports_the_first_axis_unit() {
    let out = get_crs_info(q("EPSG:4979"));
    assert_eq!(out.error, "");
    assert_eq!(out.crs_type, "geographic");
    assert_eq!(out.unit, "degree");
    assert_eq!(out.unit_to_meter, "0.0174532925199433");
}

#[test]
fn crs_info_of_a_projected_entry_with_a_classic_datum() {
    let out = get_crs_info(q("EPSG:27700"));
    assert_eq!(out.error, "");
    assert_eq!(out.name, "OSGB36 / British National Grid");
    assert_eq!(out.crs_type, "projected");
    assert_eq!(out.datum, "Ordnance Survey of Great Britain 1936");
    assert_eq!(out.ellipsoid_name, "Airy 1830");
    assert_eq!(out.ellipsoid_semi_major_m, "6377563.396");
    assert_eq!(out.ellipsoid_inverse_flattening, "299.3249646");
    assert_eq!(out.unit, "metre");
    assert_eq!(out.unit_to_meter, "1");
    assert_eq!(out.area_south_lat, "49.75");
    assert_eq!(out.area_west_lon, "-9.01");
    assert_eq!(out.area_north_lat, "61.01");
    assert_eq!(out.area_east_lon, "2.01");
}

#[test]
fn crs_info_error_is_reported_alone() {
    let out = get_crs_info(q("EPSG:1"));
    assert_eq!(out.error, "UNKNOWN_EPSG_CODE");
    assert_eq!(out.epsg_code, "");
    assert_eq!(out.name, "");
}

#[test]
fn utm_zone_for_band_and_hemisphere() {
    // Zurich, lon 8.54: band floor(188.54 / 6) = 31.
    let z = utm_zone_info(31, true);
    assert_eq!(z.error, "");
    assert_eq!(z.zone_number, 32);
    assert_eq!(z.hemisphere, "N");
    assert_eq!(z.epsg_code, "EPSG:32632");
    assert!(z.crs_name.contains("32N"), "name={}", z.crs_name);
    // New York, lon -73.99: band 17.
    let n = utm_zone_info(17, true);
    assert_eq!(n.zone_number, 18);
    assert_eq!(n.epsg_code, "EPSG:32618");
    // Sydney, lon 151.2: band 55, south.
    let s = utm_zone_info(55, false);
    assert_eq!(s.zone_number, 56);
    assert_eq!(s.hemisphere, "S");
    assert_eq!(s.epsg_code, "EPSG:32756");
    assert!(s.crs_name.contains("56S"), "name={}", s.crs_name);
    // lon = 180 falls in band 60 and is clamped to zone 60.
    assert_eq!(utm_zone_info(60, true).zone_number, 60);
    assert_eq!(utm_zone_info(-1, true).zone_number, 1);
    assert_eq!(utm_zone_info(i32::MAX, false).epsg_code, "EPSG:32760");
}

#[test]
fn epsg_code_parsing_forms() {
    assert_eq!(parse_epsg_code("4326"), Ok(4326));
    assert_eq!(parse_epsg_code("EPSG:4326"), Ok(4326));
    assert_eq!(parse_epsg_code("epsg:\t4326 "), Ok(4326));
    assert_eq!(parse_epsg_code("ID[\"EPSG\",\n 2056]"), Ok(2056));
    assert_eq!(parse_epsg_code("AUTHORITY[\"EPSG\",\"27700\"]"), Ok(27700));
    assert_eq!(parse_epsg_code("ID[\"EPSG\",]"), Err(CrsError::Unparseable));
    assert_eq!(parse_epsg_code("+4326"), Err(CrsError::Unparseable));
    assert_eq!(parse_epsg_code(""), Err(CrsError::EmptyInput));
    assert_eq!(resolve_def("EPSG:1").err(), Some(CrsError::UnknownEpsgCode));
    assert_eq!(resolve_def("3857").map(|(c, _)| c), Ok(3857));
}
