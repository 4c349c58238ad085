use crs_tools::messages::CrsQuery;
use crs_tools::nodes::get_crs_axis_info;

fn q(crs: &str) -> CrsQuery {
    CrsQuery { crs: crs.to_string() }
}

// EPSG:4326's authority-defined axis order is latitude-before-longitude.
#[test]
fn test_wgs84_authority_order_is_lat_then_lon() {
    let out = get_crs_axis_info(q("EPSG:4326"));
    assert_eq!(out.error, "");
    assert_eq!(out.axis_names.len(), 2);
    assert_eq!(out.axis_directions, vec!["north".to_string(), "east".to_string()]);
    assert!(out.axis_names[0].to_lowercase().contains("lat"), "{:?}", out.axis_names);
    assert!(out.axis_names[1].to_lowercase().contains("lon"), "{:?}", out.axis_names);
    assert_eq!(out.transform_io_order, "x,y = longitude/easting, latitude/northing");
}

// A projected CRS's authority order is easting-before-northing.
#[test]
fn test_projected_crs_authority_order_is_east_then_north() {
    let out = get_crs_axis_info(q("EPSG:32633"));
    assert_eq!(out.error, "");
    assert_eq!(out.axis_directions, vec!["east".to_string(), "north".to_string()]);
}

#[test]
fn get_crs_axis_info_test_test_unknown_epsg_code_is_structured_error() {
    let out = get_crs_axis_info(q("EPSG:1"));
    assert_eq!(out.error, "UNKNOWN_EPSG_CODE");
    assert!(out.axis_names.is_empty());
}

#[test]
fn axis_names_and_directions_pair_up_for_a_registry_wkt() {
    let out = get_crs_axis_info(q("EPSG:32633"));
    assert_eq!(out.error, "");
    assert_eq!(out.axis_names, vec!["(E)".to_string(), "(N)".to_string()]);
    assert_eq!(out.axis_directions.len(), out.axis_names.len());
    assert_eq!(
        out.note,
        "axis_names/axis_directions are this CRS's own authority-defined order; every crs-tools transform node always takes/returns transform_io_order regardless."
    );
}

#[test]
fn axis_info_error_leaves_every_other_field_empty() {
    let out = get_crs_axis_info(q("   "));
    assert_eq!(out.error, "EMPTY_INPUT");
    assert!(out.axis_directions.is_empty());
    assert_eq!(out.transform_io_order, "");
    assert_eq!(out.note, "");
}
