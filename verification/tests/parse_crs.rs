use crs_tools::messages::CrsQuery;
use crs_tools::nodes::parse_crs;

fn q(crs: &str) -> CrsQuery {
    CrsQuery { crs: crs.to_string() }
}

#[test]
fn test_bare_epsg_code_normalizes() {
    let out = parse_crs(q("4326"));
    assert_eq!(out.error, "");
    assert_eq!(out.epsg_code, "EPSG:4326");
    assert_eq!(out.authority, "EPSG");
    assert_eq!(out.code, "4326");
    assert_eq!(out.name, "WGS 84");
    assert!(out.proj4.contains("+proj=longlat"));
    assert!(out.wkt.starts_with("GEOGCRS["));
}

// Feeding EPSG:3857's own WKT back into parse_crs resolves to the same code.
#[test]
fn test_wkt_input_round_trips_through_its_own_authority_tag() {
    let first = parse_crs(q("EPSG:3857"));
    assert_eq!(first.error, "");
    let second = parse_crs(q(&first.wkt));
    assert_eq!(second.error, "");
    assert_eq!(second.epsg_code, "EPSG:3857");
    assert_eq!(second.name, first.name);
}

#[test]
fn parse_crs_test_test_unknown_epsg_code_is_structured_error() {
    let out = parse_crs(q("EPSG:1"));
    assert_eq!(out.error, "UNKNOWN_EPSG_CODE");
}

#[test]
fn test_non_epsg_proj4_string_is_rejected_not_a_crash() {
    let out = parse_crs(q("+proj=longlat +datum=WGS84 +no_defs"));
    assert_eq!(out.error, "UNPARSEABLE");
}

#[test]
fn prefix_is_case_insensitive_and_padding_is_ignored() {
    let a = parse_crs(q("  epsg: 3857 \n"));
    assert_eq!(a.error, "");
    assert_eq!(a.epsg_code, "EPSG:3857");
    assert_eq!(a.code, "3857");
    assert_eq!(a.name, "WGS 84 / Pseudo-Mercator");
    let b = parse_crs(q("EpSg:+3857"));
    assert_eq!(b.epsg_code, "EPSG:3857");
}

#[test]
fn leading_zeros_are_accepted_and_canonical_form_drops_them() {
    let out = parse_crs(q("0004326"));
    assert_eq!(out.error, "");
    assert_eq!(out.epsg_code, "EPSG:4326");
    assert_eq!(out.code, "4326");
}

#[test]
fn code_beyond_sixteen_bits_is_unparseable() {
    assert_eq!(parse_crs(q("65536")).error, "UNPARSEABLE");
    assert_eq!(parse_crs(q("EPSG:99999999")).error, "UNPARSEABLE");
    assert_eq!(parse_crs(q("EPSG:")).error, "UNPARSEABLE");
    assert_eq!(parse_crs(q("EPSG:-4326")).error, "UNPARSEABLE");
}

#[test]
fn empty_and_oversized_inputs_are_structured_errors() {
    assert_eq!(parse_crs(q("")).error, "EMPTY_INPUT");
    assert_eq!(parse_crs(q(" \t\u{3000}")).error, "EMPTY_INPUT");
    let big = "9".repeat(8193);
    assert_eq!(parse_crs(q(&big)).error, "INPUT_TOO_LARGE");
    // 8192 bytes is still accepted in size (and is then unparseable as a u16).
    let edge = "9".repeat(8192);
    assert_eq!(parse_crs(q(&edge)).error, "UNPARSEABLE");
    // Multi-byte characters count by their UTF-8 length.
    let wide = format!("x{}", "\u{e9}".repeat(4096));
    assert_eq!(parse_crs(q(&wide)).error, "INPUT_TOO_LARGE");
}

#[test]
fn last_id_tag_wins_over_earlier_ones() {
    let wkt = r#"PROJCRS["x",BASEGEOGCRS["y",ID["EPSG",4326]],ID["EPSG",3857]]"#;
    let out = parse_crs(q(wkt));
    assert_eq!(out.epsg_code, "EPSG:3857");
}

#[test]
fn authority_tag_is_used_when_no_id_tag() {
    let wkt = r#"PROJCS["x",GEOGCS["y",AUTHORITY["EPSG","4326"]],AUTHORITY["EPSG", "32633"]]"#;
    let out = parse_crs(q(wkt));
    assert_eq!(out.epsg_code, "EPSG:32633");
    assert_eq!(out.name, "WGS 84 / UTM zone 33N");
}

#[test]
fn id_tag_with_oversized_code_is_unparseable_even_with_authority_tag() {
    let wkt = r#"X["a",AUTHORITY["EPSG","4326"],ID["EPSG", 70000]]"#;
    assert_eq!(parse_crs(q(wkt)).error, "UNPARSEABLE");
}
