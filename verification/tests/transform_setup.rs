use crs_tools::epsg::CrsError;
use crs_tools::proj::{build_batch_projs, build_proj, build_proj_pair, ProjSource};

// The transform operations themselves are floating point and live outside
// the library; the tests below that keep their names check the part the
// library does for them: reading the identifiers and building the projections.

#[test]
fn test_unknown_crs_is_structured_error_not_crash() {
    let out = build_proj_pair("EPSG:99999999", "EPSG:3857");
    assert_eq!(out.err().map(|e| e.as_str()), Some("UNPARSEABLE"));
    let out2 = build_proj_pair("not a crs", "EPSG:3857");
    assert_eq!(out2.err().map(|e| e.as_str()), Some("UNPARSEABLE"));
}

#[test]
fn test_empty_batch_is_structured_error() {
    let out = build_batch_projs(0, "EPSG:4326", "EPSG:3857");
    assert_eq!(out.err().map(|e| e.as_str()), Some("EMPTY_INPUT"));
}

#[test]
fn test_bad_crs_is_a_call_level_error() {
    let out = build_batch_projs(1, "nope", "EPSG:3857");
    assert_eq!(out.err().map(|e| e.as_str()), Some("UNPARSEABLE"));
}

#[test]
fn test_bad_crs_is_structured_error() {
    let out = build_proj_pair("nope", "EPSG:3857");
    assert_eq!(out.err().map(|e| e.as_str()), Some("UNPARSEABLE"));
}

#[test]
fn projections_build_from_codes_and_proj_strings() {
    assert!(build_proj("EPSG:4326").is_ok());
    assert!(build_proj("3857").is_ok());
    assert!(build_proj("  +proj=longlat +datum=WGS84 +no_defs  ").is_ok());
    assert!(build_proj_pair("4326", "EPSG:32633").is_ok());
    assert!(build_batch_projs(3, "EPSG:4326", "EPSG:3857").is_ok());
}

#[test]
fn projection_errors_are_classified() {
    assert_eq!(build_proj("").err(), Some(CrsError::EmptyInput));
    assert_eq!(build_proj("EPSG:1").err(), Some(CrsError::InvalidCrs));
    assert_eq!(build_proj("+proj=nosuchprojection").err(), Some(CrsError::InvalidCrs));
    assert_eq!(build_proj(&format!("+{}", "x".repeat(9000))).err(), Some(CrsError::InputTooLarge));
    // The source is checked before the target.
    assert_eq!(build_proj_pair("", "nope").err(), Some(CrsError::EmptyInput));
    assert_eq!(build_proj_pair("EPSG:4326", "nope").err(), Some(CrsError::Unparseable));
}

#[test]
fn batch_size_is_limited() {
    assert!(build_batch_projs(5000, "EPSG:4326", "EPSG:3857").is_ok());
    assert_eq!(
        build_batch_projs(5001, "EPSG:4326", "EPSG:3857").err(),
        Some(CrsError::InputTooLarge)
    );
    // The size is checked before the identifiers.
    assert_eq!(build_batch_projs(5001, "nope", "nope").err(), Some(CrsError::InputTooLarge));
    assert_eq!(build_batch_projs(0, "nope", "nope").err(), Some(CrsError::EmptyInput));
}

#[test]
fn each_projection_is_built_from_its_own_identifier() {
    let (from, to) = match build_proj_pair("4326", "EPSG:3857") {
        Ok(p) => p,
        Err(e) => panic!("{}", e.as_str()),
    };
    assert!(matches!(from.source, ProjSource::EpsgCode(4326)));
    assert!(matches!(to.source, ProjSource::EpsgCode(3857)));
    let (from, to) = match build_batch_projs(2, "EPSG:3857", "  +proj=longlat +datum=WGS84  ") {
        Ok(p) => p,
        Err(e) => panic!("{}", e.as_str()),
    };
    assert!(matches!(from.source, ProjSource::EpsgCode(3857)));
    assert!(matches!(to.source, ProjSource::ProjString(ref s) if s == "+proj=longlat +datum=WGS84"));
    let wkt_built = match build_proj(r#"PROJCRS["x",BASEGEOGCRS["y",ID["EPSG",4326]],ID["EPSG",32633]]"#) {
        Ok(p) => p,
        Err(e) => panic!("{}", e.as_str()),
    };
    assert!(matches!(wkt_built.source, ProjSource::EpsgCode(32633)));
}
