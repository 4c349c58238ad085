use crs_tools::wkt::{
    is_f64_literal, wkt_area_of_use_text, wkt_axes, wkt_crs_type, wkt_datum, wkt_ellipsoid_text,
    wkt_name, wkt_unit_text,
};

const WKT2: &str = r#"PROJCRS["WGS 84 / UTM zone 33N",BASEGEOGCRS["WGS 84",ENSEMBLE["World Geodetic System 1984 ensemble",MEMBER["WGS 84 (G730)"],ELLIPSOID["WGS 84",6378137,298.257223563,LENGTHUNIT["metre",1]]],PRIMEM["Greenwich",0,ANGLEUNIT["degree",0.0174532925199433]]],CS[Cartesian,2],AXIS["(E)",east,ORDER[1],LENGTHUNIT["metre",1]],AXIS["(N)",north,ORDER[2],LENGTHUNIT["metre",1]],USAGE[SCOPE["Engineering survey"],AREA["Between 12°E and 18°E"],BBOX[0,12,84,18]],ID["EPSG",32633]]"#;

#[test]
fn crs_type_by_outer_keyword() {
    assert_eq!(wkt_crs_type(" GEOGCRS[\"x\"]"), "geographic");
    assert_eq!(wkt_crs_type("GEOGCS[\"x\"]"), "geographic");
    assert_eq!(wkt_crs_type(WKT2), "projected");
    assert_eq!(wkt_crs_type("PROJCS[\"x\"]"), "projected");
    assert_eq!(wkt_crs_type("GEOCCS[\"x\"]"), "unknown");
    assert_eq!(wkt_crs_type(""), "unknown");
}

#[test]
fn name_datum_ellipsoid_unit() {
    assert_eq!(wkt_name(WKT2), "WGS 84 / UTM zone 33N");
    assert_eq!(wkt_name("  GEOGCS[\"WGS 84\",DATUM[\"D\"]]"), "WGS 84");
    assert_eq!(wkt_name("[\"no keyword\"]"), "");
    assert_eq!(wkt_datum(WKT2), "World Geodetic System 1984 ensemble");
    assert_eq!(wkt_datum("GEOGCS[\"x\",DATUM[\"WGS_1984\"]]"), "WGS_1984");
    assert_eq!(wkt_datum("nothing"), "");
    assert_eq!(
        wkt_ellipsoid_text(WKT2),
        Some(("WGS 84".to_string(), "6378137".to_string(), "298.257223563".to_string()))
    );
    assert_eq!(wkt_ellipsoid_text("ELLIPSOID[\"x\",1]"), None);
    // The unit closing the first AXIS clause is the one reported.
    assert_eq!(wkt_unit_text(WKT2), Some(("metre".to_string(), "1".to_string())));
    // A unit outside every AXIS clause is not the coordinate system's unit.
    assert_eq!(wkt_unit_text("ANGLEUNIT[\"degree\", 0.0174532925199433]"), None);
    assert_eq!(wkt_unit_text("UNIT[\"m\",1]"), None);
}

#[test]
fn axes_in_order() {
    assert_eq!(
        wkt_axes(WKT2),
        vec![("(E)".to_string(), "east".to_string()), ("(N)".to_string(), "north".to_string())]
    );
    assert!(wkt_axes("GEOGCS[\"x\"]").is_empty());
}

#[test]
fn area_of_use_needs_four_numbers() {
    let (desc, nums) = wkt_area_of_use_text(WKT2).unwrap();
    assert_eq!(desc, "Between 12°E and 18°E");
    assert_eq!(nums, vec!["0", "12", "84", "18"]);
    assert_eq!(
        wkt_area_of_use_text("AREA[\"a\"],BBOX[ 1.5 , -2e3,x, 3,4]").map(|t| t.1),
        Some(vec!["1.5".to_string(), "-2e3".to_string(), "3".to_string(), "4".to_string()])
    );
    assert_eq!(wkt_area_of_use_text("AREA[\"a\"],BBOX[1,2,3]"), None);
    assert_eq!(wkt_area_of_use_text("BBOX[1,2,3,4]"), None);
}

#[test]
fn float_literals_as_str_parse_accepts_them() {
    for text in ["1", "-1.5", "+.5", "5.", "1e10", "1E-3", "inf", "-Infinity", "NaN", "007"] {
        let v: Vec<char> = text.chars().collect();
        assert!(is_f64_literal(&v, 0, v.len()), "{}", text);
        assert!(text.parse::<f64>().is_ok());
    }
    for text in ["", ".", "+", "e5", "1e", "1e+", "--1", "1.2.3", "infin", "x", " 1"] {
        let v: Vec<char> = text.chars().collect();
        assert!(!is_f64_literal(&v, 0, v.len()), "{}", text);
        assert!(text.parse::<f64>().is_err());
    }
}

#[test]
fn unit_is_read_off_the_first_axis_clause() {
    let three_d = r#"CS[ellipsoidal,3],AXIS["geodetic latitude (Lat)",north,ORDER[1],ANGLEUNIT["degree",0.0174532925199433]],AXIS["ellipsoidal height (h)",up,ORDER[3],LENGTHUNIT["metre",1]]"#;
    assert_eq!(
        wkt_unit_text(three_d),
        Some(("degree".to_string(), "0.0174532925199433".to_string()))
    );
    // A unit nested in a MERIDIAN sub-clause does not close the axis.
    let polar = r#"CS[Cartesian,2],AXIS["easting (X)",south,MERIDIAN[90,ANGLEUNIT["degree",0.0174532925199433]],ORDER[1],LENGTHUNIT["metre",1]],AXIS["northing (Y)",south,MERIDIAN[180,ANGLEUNIT["degree",0.0174532925199433]],ORDER[2],LENGTHUNIT["metre",1]]"#;
    assert_eq!(wkt_unit_text(polar), Some(("metre".to_string(), "1".to_string())));
    // Brackets inside a quoted name do not close the clause.
    let quoted = r#"AXIS["a ] b",east,ANGLEUNIT["grad",0.015707963267949]],LENGTHUNIT["metre",1]"#;
    assert_eq!(
        wkt_unit_text(quoted),
        Some(("grad".to_string(), "0.015707963267949".to_string()))
    );
    // An axis without a unit of its own has none.
    assert_eq!(wkt_unit_text(r#"AXIS["x",east],LENGTHUNIT["metre",1]"#), None);
}
