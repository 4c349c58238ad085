//! Properties that hold across the operations of this library.
use vstd::prelude::*;
use vstd::utf8::{encode_utf8, is_ascii_chars, is_ascii_chars_encode_utf8};
use crate::text::{
    lemma_trim_ws_idempotent,
    decimal, digit_char, digit_value, digits_value, all_ascii_digits, ascii_digit, parse_u16, trim_ws,
    trim_ws_start, trim_ws_end, is_white_space,
};
use crate::epsg::{
    CrsError, MAX_CRS_LEN, spec_parse_epsg_code, has_epsg_prefix, spec_resolve_def, error_code,
};
use crate::scan::{Pattern, all_matches, last_match, capture, first_match, match_at};
use crate::wkt::{spec_wkt_axes, spec_wkt_crs_type};
use crate::registry::registry_entry;
use crate::proj::{spec_proj_source, ProjSourceView};
use crate::messages::CrsValidationView;
use crate::nodes::{
    epsg_label, spec_parse_crs, spec_get_crs_representation, spec_get_crs_info,
    spec_get_crs_axis_info, spec_validate_registry, is_proj_string, validation_ok,
    spec_utm_zone_info, utm_epsg_code,
};

verus! {

proof fn lemma_digit_char(d: nat)
    requires
        d < 10,
    ensures
        ascii_digit(digit_char(d)),
        digits_value(seq![digit_char(d)]) == d,
{
    let e = Seq::<char>::empty();
    assert(seq![digit_char(d)].drop_last() =~= e);
    assert(digits_value(seq![digit_char(d)]) == digits_value(e) * 10 + digit_value(digit_char(d)));
    vstd::utf8::char_u32_cast('0', 48);
    if d == 0 { assert(digit_char(d) == '0'); assert(digit_value('0') == 0); }
    else if d == 1 { assert(digit_char(d) == '1'); assert(digit_value('1') == 1); }
    else if d == 2 { assert(digit_char(d) == '2'); assert(digit_value('2') == 2); }
    else if d == 3 { assert(digit_char(d) == '3'); assert(digit_value('3') == 3); }
    else if d == 4 { assert(digit_char(d) == '4'); assert(digit_value('4') == 4); }
    else if d == 5 { assert(digit_char(d) == '5'); assert(digit_value('5') == 5); }
    else if d == 6 { assert(digit_char(d) == '6'); assert(digit_value('6') == 6); }
    else if d == 7 { assert(digit_char(d) == '7'); assert(digit_value('7') == 7); }
    else if d == 8 { assert(digit_char(d) == '8'); assert(digit_value('8') == 8); }
    else { assert(digit_char(d) == '9'); assert(digit_value('9') == 9); }
}

proof fn lemma_decimal(n: nat)
    ensures
        1 <= decimal(n).len(),
        n < 10 ==> decimal(n).len() == 1,
        n < 100 ==> decimal(n).len() <= 2,
        n < 1000 ==> decimal(n).len() <= 3,
        n < 10000 ==> decimal(n).len() <= 4,
        n < 100000 ==> decimal(n).len() <= 5,
        all_ascii_digits(decimal(n)),
        digits_value(decimal(n)) == n,
    decreases n,
{
    lemma_digit_char(n % 10);
    if n >= 10 {
        lemma_decimal(n / 10);
        let d = decimal(n / 10);
        let s = decimal(n);
        assert(s == d.push(digit_char(n % 10)));
        assert(s.drop_last() =~= d);
        assert forall|i: int| 0 <= i < s.len() implies #[trigger] ascii_digit(s[i]) by {
            if i < d.len() {
                assert(s[i] == d[i]);
            }
        }
    } else {
        let s = decimal(n);
        assert(s == seq![digit_char(n)]);
    }
}

/// A text that neither starts nor ends with white space is its own trim.
proof fn lemma_trim_ws_no_padding(s: Seq<char>)
    requires
        s.len() > 0,
        !is_white_space(s[0]),
        !is_white_space(s.last()),
    ensures
        trim_ws(s) == s,
{
    assert(trim_ws_start(s) == s);
    assert(trim_ws_end(s) == s);
}

proof fn lemma_digits_not_white(s: Seq<char>)
    requires
        s.len() > 0,
        all_ascii_digits(s),
    ensures
        !is_white_space(s[0]),
        !is_white_space(s.last()),
        is_ascii_chars(s),
{
    assert(ascii_digit(s[0]));
    assert(ascii_digit(s[s.len() - 1]));
    assert forall|i: int| 0 <= i < s.len() implies '\0' <= #[trigger] s[i] <= '\u{7f}' by {
        assert(ascii_digit(s[i]));
    }
}

/// Every code reads back from its decimal form, bare or behind `EPSG:`: the
/// two forms resolve identically, and the canonical `EPSG:<code>` label
/// names the code it was made from.
pub proof fn law_code_forms_read_back(code: u16)
    ensures
        spec_parse_epsg_code(decimal(code as nat)) == Ok::<u16, CrsError>(code),
        spec_parse_epsg_code("EPSG:"@ + decimal(code as nat)) == Ok::<u16, CrsError>(code),
{
    let d = decimal(code as nat);
    lemma_decimal(code as nat);
    lemma_digits_not_white(d);
    lemma_trim_ws_no_padding(d);
    is_ascii_chars_encode_utf8(d);
    assert(!(d.len() > 0 && d[0] == '+')) by {
        assert(ascii_digit(d[0]));
    }
    assert(parse_u16(d) == Some(code));
    reveal_strlit("EPSG:");
    let l = "EPSG:"@ + d;
    assert(l[0] == 'E');
    assert(l.last() == d.last());
    lemma_trim_ws_no_padding(l);
    assert(is_ascii_chars(l)) by {
        assert forall|i: int| 0 <= i < l.len() implies '\0' <= #[trigger] l[i] <= '\u{7f}' by {
            if i >= 5 {
                assert(l[i] == d[i - 5]);
            }
        }
    }
    is_ascii_chars_encode_utf8(l);
    assert(!ascii_digit(l[0]));
    assert(has_epsg_prefix(l));
    assert(l.skip(5) =~= d);
}


/// Every character of `s` is white space.
pub open spec fn all_white_space(s: Seq<char>) -> bool {
    forall|i: int| 0 <= i < s.len() ==> #[trigger] is_white_space(s[i])
}

proof fn lemma_trim_start_white_prefix(p: Seq<char>, x: Seq<char>)
    requires
        all_white_space(p),
    ensures
        trim_ws_start(p + x) == trim_ws_start(x),
    decreases p.len(),
{
    if p.len() > 0 {
        assert(is_white_space(p[0]));
        assert((p + x)[0] == p[0]);
        assert((p + x).drop_first() =~= p.drop_first() + x);
        assert(all_white_space(p.drop_first())) by {
            assert forall|i: int| 0 <= i < p.drop_first().len() implies #[trigger] is_white_space(
                p.drop_first()[i],
            ) by {
                assert(p.drop_first()[i] == p[i + 1]);
            }
        }
        lemma_trim_start_white_prefix(p.drop_first(), x);
    } else {
        assert(p + x =~= x);
    }
}

proof fn lemma_trim_end_white_suffix(x: Seq<char>, s: Seq<char>)
    requires
        all_white_space(s),
    ensures
        trim_ws_end(x + s) == trim_ws_end(x),
    decreases s.len(),
{
    if s.len() > 0 {
        assert(is_white_space(s[s.len() - 1]));
        assert((x + s).last() == s.last());
        assert((x + s).drop_last() =~= x + s.drop_last());
        assert(all_white_space(s.drop_last())) by {
            assert forall|i: int| 0 <= i < s.drop_last().len() implies #[trigger] is_white_space(
                s.drop_last()[i],
            ) by {
                assert(s.drop_last()[i] == s[i]);
            }
        }
        lemma_trim_end_white_suffix(x, s.drop_last());
    } else {
        assert(x + s =~= x);
    }
}

proof fn lemma_trim_start_all_white(s: Seq<char>)
    requires
        all_white_space(s),
    ensures
        trim_ws_start(s).len() == 0,
{
    let e = Seq::<char>::empty();
    lemma_trim_start_white_prefix(s, e);
    assert(s + e =~= s);
}

proof fn lemma_trim_white_suffix(x: Seq<char>, s: Seq<char>)
    requires
        all_white_space(s),
    ensures
        trim_ws_end(trim_ws_start(x + s)) == trim_ws_end(trim_ws_start(x)),
    decreases x.len(),
{
    if x.len() == 0 {
        assert(x + s =~= s);
        lemma_trim_start_all_white(s);
    } else if is_white_space(x[0]) {
        assert((x + s)[0] == x[0]);
        assert((x + s).drop_first() =~= x.drop_first() + s);
        lemma_trim_white_suffix(x.drop_first(), s);
    } else {
        assert((x + s)[0] == x[0]);
        lemma_trim_end_white_suffix(x, s);
    }
}

/// White space around a text does not change its trim.
pub proof fn lemma_trim_ignores_padding(p: Seq<char>, q: Seq<char>, s: Seq<char>)
    requires
        all_white_space(p),
        all_white_space(s),
    ensures
        trim_ws(p + q + s) == trim_ws(q),
{
    assert(p + q + s =~= p + (q + s));
    lemma_trim_start_white_prefix(p, q + s);
    lemma_trim_white_suffix(q, s);
}

/// White space around a CRS identifier is ignored: the padded identifier
/// reads as the bare one, with the same code or the same error.
pub proof fn law_padding_is_ignored(p: Seq<char>, q: Seq<char>, s: Seq<char>)
    requires
        all_white_space(p),
        all_white_space(s),
    ensures
        spec_parse_epsg_code(p + q + s) == spec_parse_epsg_code(q),
{
    lemma_trim_ignores_padding(p, q, s);
}


/// The `EPSG:` prefix may be written in any ASCII case, and white space may
/// stand around the identifier and between the colon and the code:
/// `  epsg: 4326 ` reads as `4326` and resolves as the bare code does.
pub proof fn law_prefix_in_any_case_with_spacing(
    p: Seq<char>,
    prefix: Seq<char>,
    a: Seq<char>,
    code: u16,
    b: Seq<char>,
)
    requires
        prefix.len() == 5,
        has_epsg_prefix(prefix),
        all_white_space(p),
        all_white_space(a),
        all_white_space(b),
        encode_utf8(prefix + a + decimal(code as nat)).len() <= MAX_CRS_LEN,
    ensures
        spec_parse_epsg_code(p + (prefix + a + decimal(code as nat)) + b) == Ok::<u16, CrsError>(code),
        spec_resolve_def(p + (prefix + a + decimal(code as nat)) + b) == spec_resolve_def(
            decimal(code as nat),
        ),
{
    let d = decimal(code as nat);
    lemma_decimal(code as nat);
    lemma_digits_not_white(d);
    lemma_trim_ws_no_padding(d);
    law_code_forms_read_back(code);
    assert(parse_u16(d) == Some(code));
    let q = prefix + a + d;
    lemma_trim_ignores_padding(p, q, b);
    assert(q[0] == prefix[0]);
    assert(q.last() == d.last());
    assert(!is_white_space(q[0]));
    lemma_trim_ws_no_padding(q);
    assert(trim_ws(p + q + b) == q);
    assert(!ascii_digit(q[0]));
    assert(!all_ascii_digits(q));
    assert(q.subrange(0, 5) =~= prefix);
    assert(has_epsg_prefix(q));
    let e = Seq::<char>::empty();
    assert(q.skip(5) =~= a + d + e);
    lemma_trim_ignores_padding(a, d, e);
    assert(trim_ws(q.skip(5)) == d);
}


/// Every error code is a non-empty text.
pub proof fn lemma_error_codes_non_empty(e: CrsError)
    ensures
        error_code(e).len() > 0,
{
    reveal_strlit("EMPTY_INPUT");
    reveal_strlit("INPUT_TOO_LARGE");
    reveal_strlit("UNPARSEABLE");
    reveal_strlit("UNKNOWN_EPSG_CODE");
    reveal_strlit("INVALID_CRS");
}

/// The canonical form is a fixed point: feeding a resolved identifier's
/// `EPSG:<code>` label back in gives the same canonical form.
pub proof fn law_canonical_form_round_trips(crs: Seq<char>)
    requires
        spec_resolve_def(crs) is Ok,
    ensures
        spec_parse_crs(spec_parse_crs(crs).epsg_code) == spec_parse_crs(crs),
{
    let code = spec_resolve_def(crs)->Ok_0.0;
    law_code_forms_read_back(code);
}

/// All operations resolve an identifier the same way: the representation,
/// the metadata and the axis information report the code, definitions and
/// error that the canonical form reports; an error is reported alone, and
/// an empty error means the identifier resolved.
pub proof fn law_operations_agree(crs: Seq<char>)
    ensures
        spec_get_crs_representation(crs).wkt == spec_parse_crs(crs).wkt,
        spec_get_crs_representation(crs).proj4 == spec_parse_crs(crs).proj4,
        spec_get_crs_representation(crs).error == spec_parse_crs(crs).error,
        spec_get_crs_info(crs).epsg_code == spec_parse_crs(crs).epsg_code,
        spec_get_crs_info(crs).name == spec_parse_crs(crs).name,
        spec_get_crs_info(crs).error == spec_parse_crs(crs).error,
        spec_get_crs_axis_info(crs).error == spec_parse_crs(crs).error,
        (spec_parse_crs(crs).error.len() == 0) == (spec_resolve_def(crs) is Ok),
        spec_parse_crs(crs).error.len() > 0 ==> spec_parse_crs(crs).epsg_code.len() == 0
            && spec_parse_crs(crs).wkt.len() == 0 && spec_parse_crs(crs).name.len() == 0,
{
    if let Err(e) = spec_resolve_def(crs) {
        lemma_error_codes_non_empty(e);
    }
}

/// Validation agrees with the canonical form for every identifier that is
/// not a raw PROJ4 string: it is valid exactly when the identifier resolves,
/// with the same label and name, and otherwise gives the same error.
pub proof fn law_validation_agrees_with_canonical_form(crs: Seq<char>)
    requires
        !is_proj_string(crs),
    ensures
        spec_validate_registry(crs).valid == (spec_parse_crs(crs).error.len() == 0),
        spec_validate_registry(crs).epsg_code == spec_parse_crs(crs).epsg_code,
        spec_validate_registry(crs).name == spec_parse_crs(crs).name,
        spec_validate_registry(crs).reason == spec_parse_crs(crs).error,
{
    lemma_trim_ws_idempotent(crs);
    assert(spec_parse_epsg_code(trim_ws(crs)) == spec_parse_epsg_code(crs));
    if let Err(e) = spec_resolve_def(crs) {
        lemma_error_codes_non_empty(e);
    }
}

/// A validation answer is valid exactly when it gives no reason.
pub proof fn law_valid_iff_no_reason(crs: Seq<char>, v: CrsValidationView)
    requires
        validation_ok(crs, v),
    ensures
        v.valid == (v.reason.len() == 0),
{
    lemma_error_codes_non_empty(CrsError::InputTooLarge);
    lemma_error_codes_non_empty(CrsError::InvalidCrs);
    if !is_proj_string(crs) {
        if let Err(e) = spec_resolve_def(trim_ws(crs)) {
            lemma_error_codes_non_empty(e);
        }
    }
}

/// An identifier longer than the limit once trimmed is refused as too large
/// by every operation, before anything else is looked at.
pub proof fn law_oversized_identifier_is_refused(crs: Seq<char>)
    requires
        trim_ws(crs).len() > 0,
        encode_utf8(trim_ws(crs)).len() > MAX_CRS_LEN,
    ensures
        spec_parse_epsg_code(crs) == Err::<u16, CrsError>(CrsError::InputTooLarge),
        spec_proj_source(crs) == Err::<ProjSourceView, CrsError>(CrsError::InputTooLarge),
        spec_parse_crs(crs).error == error_code(CrsError::InputTooLarge),
{
}

/// A raw PROJ4 string that carries no EPSG tag has no canonical registry
/// form: it is refused as unparseable.
pub proof fn law_raw_proj4_string_has_no_canonical_form(crs: Seq<char>)
    requires
        is_proj_string(crs),
        encode_utf8(trim_ws(crs)).len() <= MAX_CRS_LEN,
        all_matches(Pattern::EpsgId, trim_ws(crs), 0).len() == 0,
        all_matches(Pattern::EpsgAuthority, trim_ws(crs), 0).len() == 0,
    ensures
        spec_parse_crs(crs).error == error_code(CrsError::Unparseable),
{
    let q = trim_ws(crs);
    assert(!ascii_digit(q[0]));
    assert(!all_ascii_digits(q));
}

/// A WKT text (that is neither bare digits nor `EPSG:`-prefixed) resolves
/// exactly like `EPSG:<code>` when its last `ID["EPSG",...]` tag names
/// `code`: feeding a registry WKT back in gives the CRS it describes.
pub proof fn law_wkt_resolves_by_its_last_id_tag(wkt: Seq<char>, code: u16)
    requires
        trim_ws(wkt).len() > 0,
        encode_utf8(trim_ws(wkt)).len() <= MAX_CRS_LEN,
        !all_ascii_digits(trim_ws(wkt)),
        !has_epsg_prefix(trim_ws(wkt)),
        last_match(Pattern::EpsgId, trim_ws(wkt)) matches Some(m) && capture(trim_ws(wkt), m.g1)
            == decimal(code as nat),
    ensures
        spec_parse_epsg_code(wkt) == Ok::<u16, CrsError>(code),
        spec_parse_crs(wkt) == spec_parse_crs(epsg_label(code)),
{
    let d = decimal(code as nat);
    lemma_decimal(code as nat);
    assert(!(d.len() > 0 && d[0] == '+')) by {
        assert(ascii_digit(d[0]));
    }
    assert(parse_u16(d) == Some(code));
    law_code_forms_read_back(code);
}

/// `UNKNOWN_EPSG_CODE` means that the identifier held a well-formed code
/// that the registry does not bundle.
pub proof fn law_unknown_code_is_a_registry_miss(crs: Seq<char>)
    ensures
        (spec_resolve_def(crs) == Err::<(u16, Seq<char>, Seq<char>), CrsError>(
            CrsError::UnknownEpsgCode,
        )) == (spec_parse_epsg_code(crs) matches Ok(code) && registry_entry(code) is None),
{
}

/// Axis names and directions come in pairs.
pub proof fn law_axis_names_and_directions_pair_up(crs: Seq<char>)
    ensures
        spec_get_crs_axis_info(crs).axis_names.len() == spec_get_crs_axis_info(
            crs,
        ).axis_directions.len(),
{
}

/// The UTM zone is always one of the 60 zones, the hemisphere letter follows
/// the side of the equator, and a reported code is the WGS-84 / UTM code of
/// that zone and hemisphere.
pub proof fn law_utm_zone_is_well_formed(band: int, north: bool)
    ensures
        1 <= spec_utm_zone_info(band, north).zone_number <= 60,
        spec_utm_zone_info(band, north).hemisphere == (if north {
            "N"@
        } else {
            "S"@
        }),
        utm_epsg_code(spec_utm_zone_info(band, north).zone_number, north) as int == (if north {
            32600int
        } else {
            32700int
        }) + spec_utm_zone_info(band, north).zone_number,
        spec_utm_zone_info(band, north).error.len() == 0 ==> spec_utm_zone_info(
            band,
            north,
        ).epsg_code == epsg_label(utm_epsg_code(spec_utm_zone_info(band, north).zone_number, north)),
{
    lemma_error_codes_non_empty(CrsError::UnknownEpsgCode);
}

/// `t` begins with `k`.
pub open spec fn starts_with(t: Seq<char>, k: Seq<char>) -> bool {
    k.len() <= t.len() && t.take(k.len() as int) == k
}

/// The CRS type is read off the outermost keyword of the WKT (after leading
/// white space) alone: `GEOGCRS` or `GEOGCS` is geographic, `PROJCRS` or
/// `PROJCS` projected, and every other keyword, such as `GEODCRS` or
/// `GEOCCS`, unknown.
pub proof fn law_crs_type_by_outermost_keyword(wkt: Seq<char>)
    ensures
        ({
            let t = trim_ws_start(wkt);
            let geographic = starts_with(t, "GEOGCRS"@) || starts_with(t, "GEOGCS"@);
            let projected = starts_with(t, "PROJCRS"@) || starts_with(t, "PROJCS"@);
            &&& (spec_wkt_crs_type(wkt) == "geographic"@) == geographic
            &&& (spec_wkt_crs_type(wkt) == "projected"@) == projected
            &&& (spec_wkt_crs_type(wkt) == "unknown"@) == (!geographic && !projected)
            &&& starts_with(t, "GEODCRS"@) ==> spec_wkt_crs_type(wkt) == "unknown"@
            &&& starts_with(t, "GEOCCS"@) ==> spec_wkt_crs_type(wkt) == "unknown"@
        }),
{
    reveal_strlit("GEOGCRS");
    reveal_strlit("GEOGCS");
    reveal_strlit("PROJCRS");
    reveal_strlit("PROJCS");
    reveal_strlit("GEODCRS");
    reveal_strlit("GEOCCS");
    reveal_strlit("geographic");
    reveal_strlit("projected");
    reveal_strlit("unknown");
    let t = trim_ws_start(wkt);
    assert forall|k: Seq<char>| #[trigger] crate::scan::lit_at(t, 0, k) == starts_with(t, k) by {
        if k.len() <= t.len() {
            assert(t.subrange(0, k.len() as int) =~= t.take(k.len() as int));
        }
    }
    assert("geographic"@ != "projected"@) by {
        assert("geographic"@[0] != "projected"@[0]);
    }
    assert("geographic"@ != "unknown"@) by {
        assert("geographic"@[0] != "unknown"@[0]);
    }
    assert("projected"@ != "unknown"@) by {
        assert("projected"@[0] != "unknown"@[0]);
    }
    if starts_with(t, "GEOGCRS"@) || starts_with(t, "GEOGCS"@) {
        assert(t[0] == 'G') by {
            if starts_with(t, "GEOGCRS"@) {
                assert(t.take(7)[0] == t[0]);
            } else {
                assert(t.take(6)[0] == t[0]);
            }
        }
        assert(!starts_with(t, "PROJCRS"@)) by {
            if starts_with(t, "PROJCRS"@) {
                assert(t.take(7)[0] == t[0]);
            }
        }
        assert(!starts_with(t, "PROJCS"@)) by {
            if starts_with(t, "PROJCS"@) {
                assert(t.take(6)[0] == t[0]);
            }
        }
    }
    if starts_with(t, "GEODCRS"@) {
        assert(t.take(7)[3] == t[3]);
        assert(t[3] == 'D');
        assert(!starts_with(t, "GEOGCRS"@)) by {
            if starts_with(t, "GEOGCRS"@) {
                assert(t.take(7)[3] == t[3]);
            }
        }
        assert(!starts_with(t, "GEOGCS"@)) by {
            if starts_with(t, "GEOGCS"@) {
                assert(t.take(6)[3] == t[3]);
            }
        }
        assert(!starts_with(t, "PROJCRS"@)) by {
            if starts_with(t, "PROJCRS"@) {
                assert(t.take(7)[0] == t[0]);
                assert(t.take(7)[0] == 'G');
            }
        }
        assert(!starts_with(t, "PROJCS"@)) by {
            if starts_with(t, "PROJCS"@) {
                assert(t.take(6)[0] == t[0]);
                assert(t.take(7)[0] == 'G');
            }
        }
    }
    if starts_with(t, "GEOCCS"@) {
        assert(t.take(6)[3] == t[3]);
        assert(t[3] == 'C');
        assert(t.take(6)[0] == 'G');
        assert(!starts_with(t, "GEOGCRS"@)) by {
            if starts_with(t, "GEOGCRS"@) {
                assert(t.take(7)[3] == t[3]);
            }
        }
        assert(!starts_with(t, "GEOGCS"@)) by {
            if starts_with(t, "GEOGCS"@) {
                assert(t.take(6)[3] == t[3]);
            }
        }
        assert(!starts_with(t, "PROJCRS"@)) by {
            if starts_with(t, "PROJCRS"@) {
                assert(t.take(7)[0] == t[0]);
            }
        }
        assert(!starts_with(t, "PROJCS"@)) by {
            if starts_with(t, "PROJCS"@) {
                assert(t.take(6)[0] == t[0]);
            }
        }
    }
}

/// A match found from position `p` starts at or after `p`.
proof fn lemma_first_match_start(pat: Pattern, s: Seq<char>, p: int)
    ensures
        first_match(pat, s, p) matches Some(m) ==> p <= m.start,
    decreases s.len() + 1 - p,
{
    if 0 <= p <= s.len() {
        if match_at(pat, s, p) is None {
            lemma_first_match_start(pat, s, p + 1);
        }
    }
}

/// The matches of a pattern are the successive leftmost ones: the first is
/// the leftmost match from where the search starts, each next one is the
/// leftmost match from where the one before it ends, there are none exactly
/// when no match is found at all, and when the last one ends inside the
/// text no further match follows it.
pub proof fn law_matches_are_successive_leftmost(pat: Pattern, s: Seq<char>, p: int)
    requires
        0 <= p <= s.len(),
    ensures
        ({
            let ms = all_matches(pat, s, p);
            &&& (ms.len() == 0) == (first_match(pat, s, p) is None)
            &&& ms.len() > 0 ==> first_match(pat, s, p) == Some(ms[0])
            &&& forall|i: int|
                0 <= i < ms.len() - 1 ==> first_match(pat, s, #[trigger] ms[i].end) == Some(
                    ms[i + 1],
                )
            &&& ms.len() > 0 && ms.last().start < ms.last().end <= s.len() ==> first_match(
                pat,
                s,
                ms.last().end,
            ) is None
        }),
    decreases s.len() + 1 - p,
{
    lemma_first_match_start(pat, s, p);
    let ms = all_matches(pat, s, p);
    match first_match(pat, s, p) {
        None => {},
        Some(m) => {
            if p < m.end <= s.len() {
                law_matches_are_successive_leftmost(pat, s, m.end);
                let rest = all_matches(pat, s, m.end);
                assert(ms == seq![m] + rest);
                assert forall|i: int| 0 <= i < ms.len() - 1 implies first_match(
                    pat,
                    s,
                    #[trigger] ms[i].end,
                ) == Some(ms[i + 1]) by {
                    if i == 0 {
                        assert(ms[0] == m);
                        assert(ms[1] == rest[0]);
                    } else {
                        assert(ms[i] == rest[i - 1]);
                        assert(ms[i + 1] == rest[i]);
                    }
                }
                if rest.len() > 0 {
                    assert(ms.last() == rest.last());
                } else {
                    assert(ms.last() == m);
                }
            } else {
                assert(ms == seq![m]);
                assert(ms.last() == m);
            }
        },
    }
}

/// Every `AXIS` clause is reported, in order: the axes of a WKT are as many
/// as the successive matches of the `AXIS` pattern, and the entry at each
/// position holds that match's name and direction.
pub proof fn law_axes_are_the_axis_matches(wkt: Seq<char>)
    ensures
        ({
            let ms = all_matches(Pattern::Axis, wkt, 0);
            &&& spec_wkt_axes(wkt).len() == ms.len()
            &&& forall|i: int|
                0 <= i < ms.len() ==> spec_wkt_axes(wkt)[i] == (
                    capture(wkt, (#[trigger] ms[i]).g1),
                    capture(wkt, ms[i].g2),
                )
        }),
{
}

/// The axis information of a CRS lists every `AXIS` clause of its registry
/// WKT, in order: the name and direction lists are as long as the successive
/// matches of the `AXIS` pattern, and position `i` of each holds the name
/// and the direction of match `i`.
pub proof fn law_every_axis_clause_is_reported(crs: Seq<char>)
    requires
        spec_resolve_def(crs) is Ok,
    ensures
        ({
            let wkt = spec_resolve_def(crs)->Ok_0.2;
            let ms = all_matches(Pattern::Axis, wkt, 0);
            let out = spec_get_crs_axis_info(crs);
            &&& out.axis_names.len() == ms.len()
            &&& out.axis_directions.len() == ms.len()
            &&& forall|i: int|
                0 <= i < ms.len() ==> out.axis_names[i] == capture(wkt, (#[trigger] ms[i]).g1)
                    && out.axis_directions[i] == capture(wkt, ms[i].g2)
        }),
{
    let wkt = spec_resolve_def(crs)->Ok_0.2;
    law_axes_are_the_axis_matches(wkt);
}

} // verus!
