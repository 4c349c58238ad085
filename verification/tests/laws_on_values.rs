use crs_tools::messages::CrsQuery;
use crs_tools::nodes::{
    get_crs_axis_info, get_crs_info, get_crs_representation, parse_crs, proj_string_validation,
    validate_crs,
};
use crs_tools::proj::build_proj;

fn q(crs: &str) -> CrsQuery {
    CrsQuery { crs: crs.to_string() }
}

#[test]
fn canonical_label_round_trips() {
    for input in ["4326", " epsg:32633", "0003857", r#"X["a",AUTHORITY["EPSG","27700"]]"#] {
        let first = parse_crs(q(input));
        assert_eq!(first.error, "", "{}", input);
        let second = parse_crs(q(&first.epsg_code));
        assert_eq!(second.epsg_code, first.epsg_code);
        assert_eq!(second.code, first.code);
        assert_eq!(second.name, first.name);
        assert_eq!(second.wkt, first.wkt);
        assert_eq!(second.proj4, first.proj4);
    }
}

#[test]
fn bare_and_prefixed_codes_resolve_identically() {
    for code in ["4326", "3857", "32756", "2056"] {
        let a = parse_crs(q(code));
        let b = parse_crs(q(&format!("EPSG:{}", code)));
        assert_eq!(a.error, "");
        assert_eq!(a.epsg_code, b.epsg_code);
        assert_eq!(a.wkt, b.wkt);
    }
}

#[test]
fn operations_resolve_alike() {
    for input in ["4326", "EPSG:32633", "EPSG:1", "nope", "", "epsg:4329"] {
        let c = parse_crs(q(input));
        let r = get_crs_representation(q(input));
        let i = get_crs_info(q(input));
        let a = get_crs_axis_info(q(input));
        let v = validate_crs(q(input));
        assert_eq!(r.wkt, c.wkt);
        assert_eq!(r.proj4, c.proj4);
        assert_eq!(r.error, c.error);
        assert_eq!(i.epsg_code, c.epsg_code);
        assert_eq!(i.name, c.name);
        assert_eq!(i.error, c.error);
        assert_eq!(a.error, c.error);
        assert_eq!(v.valid, c.error.is_empty());
        assert_eq!(v.reason, c.error);
        assert_eq!(v.epsg_code, c.epsg_code);
        assert_eq!(v.name, c.name);
        assert_eq!(a.axis_names.len(), a.axis_directions.len());
    }
}

#[test]
fn valid_exactly_when_no_reason() {
    for input in ["4326", "+proj=longlat +datum=WGS84", "+proj=bogus", "EPSG:1", "  "] {
        let v = validate_crs(q(input));
        assert_eq!(v.valid, v.reason.is_empty(), "{}", input);
    }
}

#[test]
fn proj_string_validation_follows_the_build_outcome() {
    let ok = proj_string_validation(build_proj("+proj=longlat +datum=WGS84"));
    assert!(ok.valid);
    assert_eq!(ok.reason, "");
    let bad = proj_string_validation(build_proj("+proj=bogus"));
    assert!(!bad.valid);
    assert_eq!(bad.reason, "INVALID_CRS");
}

#[test]
fn prefix_in_any_case_with_spacing_reads_back() {
    for c in [0u16, 7, 4326, 3857, 32633, 65535] {
        for text in [
            format!("EPSG:{}", c),
            format!("  epsg:{} ", c),
            format!("Epsg: {}", c),
            format!("\tePsG:\u{3000}{}\n", c),
        ] {
            assert_eq!(crs_tools::epsg::parse_epsg_code(&text), Ok(c), "{:?}", text);
            assert_eq!(
                crs_tools::epsg::resolve_def(&text).map(|(k, e)| (k, e.wkt)),
                crs_tools::epsg::resolve_def(&c.to_string()).map(|(k, e)| (k, e.wkt)),
            );
        }
    }
}
