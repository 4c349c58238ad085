//! Field extraction from the registry's WKT text: CRS type, name, datum,
//! ellipsoid, unit, axes and area of use.
use vstd::prelude::*;
use crate::charclass::CharClass;
use crate::text::{
    trim_ws, trim_ws_start, chars_of, string_of, trim_bounds, ascii_lower, ascii_lower_char,
};
use crate::scan::{
    Pattern, SpecMatch, lit_at, char_is, run_end, capture, first_match, all_matches,
    last_match, match_ok, lit_at_exec, char_is_exec, run_end_exec, find_first, find_all,
    find_all_from,
};

verus! {

/// `t` equals `lit` when ASCII letters of `t` are lowered.
pub open spec fn eq_ignore_ascii_case(t: Seq<char>, lit: Seq<char>) -> bool {
    t.len() == lit.len() && forall|i: int| 0 <= i < t.len() ==> #[trigger] ascii_lower(t[i]) == lit[i]
}


/// Digits, optionally a `.` and more digits (at least one digit in all),
/// optionally an exponent `e`/`E`, an optional sign and at least one digit;
/// nothing else.
pub open spec fn is_decimal_number(t: Seq<char>) -> bool {
    let i = run_end(t, 0, CharClass::AsciiDigit);
    let j = if char_is(t, i, '.') {
        run_end(t, i + 1, CharClass::AsciiDigit)
    } else {
        i
    };
    let digits = if char_is(t, i, '.') {
        j - 1
    } else {
        j
    };
    let k = if char_is(t, j + 1, '+') || char_is(t, j + 1, '-') {
        j + 2
    } else {
        j + 1
    };
    let l = run_end(t, k, CharClass::AsciiDigit);
    &&& digits > 0
    &&& (j == t.len() || ((char_is(t, j, 'e') || char_is(t, j, 'E')) && l > k && l == t.len()))
}

/// What `str::parse::<f64>` accepts: an optional sign, then a decimal number,
/// or `inf`, `infinity` or `nan` in any ASCII case.
pub open spec fn f64_literal(s: Seq<char>) -> bool {
    let t = if s.len() > 0 && (s[0] == '+' || s[0] == '-') {
        s.drop_first()
    } else {
        s
    };
    &&& t.len() > 0
    &&& (is_decimal_number(t) || eq_ignore_ascii_case(t, "inf"@) || eq_ignore_ascii_case(
        t,
        "infinity"@,
    ) || eq_ignore_ascii_case(t, "nan"@))
}

fn eq_ignore_ascii_case_in(s: &Vec<char>, from: usize, to: usize, lit: &str) -> (b: bool)
    requires
        from <= to <= s.len(),
    ensures
        b == eq_ignore_ascii_case(s@.subrange(from as int, to as int), lit@),
{
    let l = chars_of(lit);
    if to - from != l.len() {
        return false;
    }
    let mut i: usize = 0;
    while i < l.len()
        invariant
            from + l.len() == to <= s.len(),
            l@ == lit@,
            i <= l.len(),
            forall|k: int| 0 <= k < i ==> ascii_lower(s@[from + k]) == l@[k],
        decreases l.len() - i,
    {
        let lc = ascii_lower_char(s[from + i]);
        if lc != l[i] {
            assert(s@.subrange(from as int, to as int)[i as int] == s@[from + i]);
            assert(ascii_lower(s@.subrange(from as int, to as int)[i as int]) != l@[i as int]);
            return false;
        }
        i = i + 1;
    }
    assert forall|k: int| 0 <= k < to - from implies #[trigger] ascii_lower(
        s@.subrange(from as int, to as int)[k],
    ) == l@[k] by {
        assert(s@.subrange(from as int, to as int)[k] == s@[from + k]);
    }
    true
}

/// Whether `str::parse::<f64>` accepts `s[from..to]` (see [`f64_literal`]).
pub fn is_f64_literal(s: &Vec<char>, from: usize, to: usize) -> (b: bool)
    requires
        from <= to <= s.len(),
    ensures
        b == f64_literal(s@.subrange(from as int, to as int)),
{
    let ghost whole = s@.subrange(from as int, to as int);
    let mut a = from;
    if a < to && (s[a] == '+' || s[a] == '-') {
        a = a + 1;
    }
    let ghost t = s@.subrange(a as int, to as int);
    assert(t == if whole.len() > 0 && (whole[0] == '+' || whole[0] == '-') {
        whole.drop_first()
    } else {
        whole
    });
    if a == to {
        return false;
    }
    if eq_ignore_ascii_case_in(s, a, to, "inf") || eq_ignore_ascii_case_in(s, a, to, "infinity")
        || eq_ignore_ascii_case_in(s, a, to, "nan") {
        return true;
    }
    // The decimal number, scanned over the copy `t` so that positions start at 0.
    let tv = string_chars(s, a, to);
    let i = run_end_exec(&tv, 0, CharClass::AsciiDigit);
    let dot = char_is_exec(&tv, i, '.');
    let j = if dot {
        run_end_exec(&tv, i + 1, CharClass::AsciiDigit)
    } else {
        i
    };
    let digits_ok = if dot {
        j > 1
    } else {
        j > 0
    };
    if !digits_ok {
        return false;
    }
    if j == tv.len() {
        return true;
    }
    if !(char_is_exec(&tv, j, 'e') || char_is_exec(&tv, j, 'E')) {
        return false;
    }
    let k = if char_is_exec(&tv, j + 1, '+') || char_is_exec(&tv, j + 1, '-') {
        j + 2
    } else {
        j + 1
    };
    if k > tv.len() {
        return false;
    }
    let l = run_end_exec(&tv, k, CharClass::AsciiDigit);
    l > k && l == tv.len()
}

/// A copy of `s[from..to]`.
fn string_chars(s: &Vec<char>, from: usize, to: usize) -> (v: Vec<char>)
    requires
        from <= to <= s.len(),
    ensures
        v@ == s@.subrange(from as int, to as int),
{
    let mut v: Vec<char> = Vec::new();
    let mut i = from;
    while i < to
        invariant
            from <= i <= to <= s.len(),
            v@ == s@.subrange(from as int, i as int),
        decreases to - i,
    {
        v.push(s[i]);
        assert(s@.subrange(from as int, i + 1) =~= s@.subrange(from as int, i as int).push(
            s@[i as int],
        ));
        i = i + 1;
    }
    v
}


/// "geographic", "projected" or "unknown", by the WKT's outermost keyword.
pub open spec fn spec_wkt_crs_type(wkt: Seq<char>) -> Seq<char> {
    let t = trim_ws_start(wkt);
    if lit_at(t, 0, "GEOGCRS"@) || lit_at(t, 0, "GEOGCS"@) {
        "geographic"@
    } else if lit_at(t, 0, "PROJCRS"@) || lit_at(t, 0, "PROJCS"@) {
        "projected"@
    } else {
        "unknown"@
    }
}

/// "geographic" | "projected" | "unknown", from the WKT's outermost keyword.
pub fn wkt_crs_type(wkt: &str) -> (r: &'static str)
    ensures
        r@ == spec_wkt_crs_type(wkt@),
{
    let t = chars_of(wkt.trim_start());
    if lit_at_exec(&t, 0, &chars_of("GEOGCRS")) || lit_at_exec(&t, 0, &chars_of("GEOGCS")) {
        "geographic"
    } else if lit_at_exec(&t, 0, &chars_of("PROJCRS")) || lit_at_exec(&t, 0, &chars_of("PROJCS")) {
        "projected"
    } else {
        "unknown"
    }
}

/// The span of the name in `^\w+\["([^"]*)"`: a keyword of word characters at
/// the very start, `["`, the name, `"`.
pub open spec fn name_span(t: Seq<char>) -> Option<(int, int)> {
    let w = run_end(t, 0, CharClass::Word);
    let q = run_end(t, w + 2, CharClass::NotQuote);
    if w > 0 && char_is(t, w, '[') && char_is(t, w + 1, '"') && char_is(t, q, '"') {
        Some((w + 2, q))
    } else {
        None
    }
}

/// The CRS's own name: the quoted string right after the outermost keyword,
/// or empty when the text does not open that way.
pub open spec fn spec_wkt_name(wkt: Seq<char>) -> Seq<char> {
    let t = trim_ws_start(wkt);
    match name_span(t) {
        Some(g) => capture(t, g),
        None => seq![],
    }
}

/// The CRS's own name (see [`spec_wkt_name`]).
pub fn wkt_name(wkt: &str) -> (r: String)
    ensures
        r@ == spec_wkt_name(wkt@),
{
    let t = chars_of(wkt.trim_start());
    let w = run_end_exec(&t, 0, CharClass::Word);
    if !(w > 0 && char_is_exec(&t, w, '[') && char_is_exec(&t, w + 1, '"')) {
        return String::new();
    }
    let q = run_end_exec(&t, w + 2, CharClass::NotQuote);
    if !char_is_exec(&t, q, '"') {
        return String::new();
    }
    string_of(&t, w + 2, q)
}

/// The first capture of the first match of `pat`, if there is one.
pub open spec fn first_capture(pat: Pattern, s: Seq<char>) -> Option<Seq<char>> {
    match first_match(pat, s, 0) {
        Some(m) => Some(capture(s, m.g1)),
        None => None,
    }
}

/// The datum name: that of an `ENSEMBLE`, else that of a `DATUM`, else empty.
pub open spec fn spec_wkt_datum(wkt: Seq<char>) -> Seq<char> {
    match first_capture(Pattern::Ensemble, wkt) {
        Some(n) => n,
        None => match first_capture(Pattern::Datum, wkt) {
            Some(n) => n,
            None => seq![],
        },
    }
}

/// The datum name (see [`spec_wkt_datum`]).
pub fn wkt_datum(wkt: &str) -> (r: String)
    ensures
        r@ == spec_wkt_datum(wkt@),
{
    let s = chars_of(wkt);
    if let Some(m) = find_first(Pattern::Ensemble, &s, 0) {
        return string_of(&s, m.g1.0, m.g1.1);
    }
    if let Some(m) = find_first(Pattern::Datum, &s, 0) {
        return string_of(&s, m.g1.0, m.g1.1);
    }
    String::new()
}

/// The `(name, direction)` pairs of all `AXIS` clauses, in order.
pub open spec fn spec_wkt_axes(wkt: Seq<char>) -> Seq<(Seq<char>, Seq<char>)> {
    all_matches(Pattern::Axis, wkt, 0).map_values(
        |m: SpecMatch| (capture(wkt, m.g1), capture(wkt, m.g2)),
    )
}

/// All `(name, direction)` AXIS entries the CRS's coordinate system declares,
/// in authority order (for EPSG:4326, latitude before longitude).
pub fn wkt_axes(wkt: &str) -> (r: Vec<(String, String)>)
    ensures
        r.len() == spec_wkt_axes(wkt@).len(),
        forall|i: int|
            0 <= i < r.len() ==> (#[trigger] r@[i]).0@ == spec_wkt_axes(wkt@)[i].0 && r@[i].1@
                == spec_wkt_axes(wkt@)[i].1,
{
    let s = chars_of(wkt);
    let ms = find_all(Pattern::Axis, &s);
    let ghost axes = spec_wkt_axes(wkt@);
    let mut r: Vec<(String, String)> = Vec::new();
    let mut i: usize = 0;
    while i < ms.len()
        invariant
            s@ == wkt@,
            axes == spec_wkt_axes(wkt@),
            ms.len() == axes.len(),
            forall|k: int|
                0 <= k < ms.len() ==> #[trigger] ms@[k]@ == all_matches(Pattern::Axis, s@, 0)[k]
                    && match_ok(ms@[k]@, s@.len() as int),
            i <= ms.len(),
            r.len() == i,
            forall|k: int|
                0 <= k < i ==> (#[trigger] r@[k]).0@ == axes[k].0 && r@[k].1@ == axes[k].1,
        decreases ms.len() - i,
    {
        let m = ms[i];
        assert(ms@[i as int]@ == all_matches(Pattern::Axis, s@, 0)[i as int]);
        let name = string_of(&s, m.g1.0, m.g1.1);
        let dir = string_of(&s, m.g2.0, m.g2.1);
        r.push((name, dir));
        i = i + 1;
    }
    r
}

/// `(name, semi-major axis, inverse flattening)` of the first `ELLIPSOID`
/// clause, the two numbers as their decimal text.
pub open spec fn spec_wkt_ellipsoid_text(wkt: Seq<char>) -> Option<
    (Seq<char>, Seq<char>, Seq<char>),
> {
    match first_match(Pattern::Ellipsoid, wkt, 0) {
        Some(m) => Some((capture(wkt, m.g1), capture(wkt, m.g2), capture(wkt, m.g3))),
        None => None,
    }
}

/// The ellipsoid clause's fields as text (see [`spec_wkt_ellipsoid_text`]).
pub fn wkt_ellipsoid_text(wkt: &str) -> (r: Option<(String, String, String)>)
    ensures
        r matches Some(t) ==> spec_wkt_ellipsoid_text(wkt@) == Some((t.0@, t.1@, t.2@)),
        r is None ==> spec_wkt_ellipsoid_text(wkt@) is None,
{
    let s = chars_of(wkt);
    match find_first(Pattern::Ellipsoid, &s, 0) {
        Some(m) => Some(
            (
                string_of(&s, m.g1.0, m.g1.1),
                string_of(&s, m.g2.0, m.g2.1),
                string_of(&s, m.g3.0, m.g3.1),
            ),
        ),
        None => None,
    }
}

/// Where the bracketed clause whose body starts at `i` closes: the index of
/// the `]` that brings the bracket depth `depth` down to zero, with quoted
/// text skipped; the length of `s` when the clause never closes.
pub open spec fn clause_end(s: Seq<char>, i: int, depth: nat, quoted: bool) -> int
    decreases s.len() - i,
{
    if i < 0 || i >= s.len() {
        s.len() as int
    } else if quoted {
        clause_end(s, i + 1, depth, s[i] != '"')
    } else if s[i] == '"' {
        clause_end(s, i + 1, depth, true)
    } else if s[i] == '[' {
        clause_end(s, i + 1, depth + 1, false)
    } else if s[i] == ']' {
        if depth <= 1 {
            i
        } else {
            clause_end(s, i + 1, (depth - 1) as nat, false)
        }
    } else {
        clause_end(s, i + 1, depth, false)
    }
}

/// Where the clause whose body starts at `from` closes (see [`clause_end`]).
fn clause_end_exec(s: &Vec<char>, from: usize) -> (e: usize)
    requires
        1 <= from <= s.len(),
    ensures
        e == clause_end(s@, from as int, 1, false),
        e <= s.len(),
{
    let mut i: usize = from;
    let mut depth: usize = 1;
    let mut quoted = false;
    while i < s.len()
        invariant
            1 <= from <= i <= s.len(),
            1 <= depth <= i - from + 1,
            clause_end(s@, from as int, 1, false) == clause_end(s@, i as int, depth as nat, quoted),
        decreases s.len() - i,
    {
        let c = s[i];
        if quoted {
            quoted = c != '"';
        } else if c == '"' {
            quoted = true;
        } else if c == '[' {
            depth = depth + 1;
        } else if c == ']' {
            if depth <= 1 {
                return i;
            }
            depth = depth - 1;
        }
        i = i + 1;
    }
    i
}

/// The text of the first `AXIS` clause's start up to its closing bracket
/// (`AXIS["` is six characters, so its body starts five past the match).
pub open spec fn first_axis_prefix(wkt: Seq<char>, a: SpecMatch) -> Seq<char> {
    wkt.subrange(0, clause_end(wkt, a.start + 5, 1, false))
}

/// `(unit name, conversion factor)` of the coordinate system's unit, read
/// off the first `AXIS` clause: the last `ANGLEUNIT`/`LENGTHUNIT` inside that
/// clause (the one that closes it), the factor as its decimal text. `None`
/// when there is no `AXIS` clause or it carries no unit.
pub open spec fn spec_wkt_unit_text(wkt: Seq<char>) -> Option<(Seq<char>, Seq<char>)> {
    match first_match(Pattern::Axis, wkt, 0) {
        None => None,
        Some(a) => {
            let pre = first_axis_prefix(wkt, a);
            let ms = all_matches(Pattern::Unit, pre, a.start);
            if ms.len() > 0 {
                Some((capture(pre, ms.last().g1), capture(pre, ms.last().g2)))
            } else {
                None
            }
        },
    }
}

/// The first `to` characters of `v`.
fn prefix_of(v: &Vec<char>, to: usize) -> (r: Vec<char>)
    requires
        to <= v.len(),
    ensures
        r@ == v@.subrange(0, to as int),
{
    let mut r: Vec<char> = Vec::new();
    let mut i: usize = 0;
    while i < to
        invariant
            i <= to <= v.len(),
            r@ == v@.subrange(0, i as int),
        decreases to - i,
    {
        r.push(v[i]);
        i = i + 1;
        assert(r@ =~= v@.subrange(0, i as int));
    }
    r
}

/// The unit of the coordinate system as text (see [`spec_wkt_unit_text`]).
pub fn wkt_unit_text(wkt: &str) -> (r: Option<(String, String)>)
    ensures
        r matches Some(t) ==> spec_wkt_unit_text(wkt@) == Some((t.0@, t.1@)),
        r is None ==> spec_wkt_unit_text(wkt@) is None,
{
    let s = chars_of(wkt);
    let a = match find_first(Pattern::Axis, &s, 0) {
        Some(a) => a,
        None => {
            return None;
        },
    };
    let from = if s.len() >= 5 && a.start <= s.len() - 5 {
        a.start + 5
    } else {
        s.len()
    };
    let e = clause_end_exec(&s, from);
    assert(e == clause_end(s@, a.start + 5, 1, false));
    if a.start > e {
        return None;
    }
    let pre = prefix_of(&s, e);
    let ms = find_all_from(Pattern::Unit, &pre, a.start);
    if ms.len() == 0 {
        return None;
    }
    let m = ms[ms.len() - 1];
    assert(ms@[ms.len() - 1]@ == all_matches(Pattern::Unit, pre@, a.start as int)[ms.len() - 1]);
    Some((string_of(&pre, m.g1.0, m.g1.1), string_of(&pre, m.g2.0, m.g2.1)))
}

/// The pieces of `s` between commas, as `str::split(',')` gives them (an
/// empty text is one empty piece).
pub open spec fn split_commas(s: Seq<char>) -> Seq<Seq<char>>
    decreases s.len(),
{
    if s.len() == 0 {
        seq![seq![]]
    } else {
        let r = split_commas(s.drop_last());
        if s.last() == ',' {
            r.push(seq![])
        } else {
            r.drop_last().push(r.last().push(s.last()))
        }
    }
}

/// The trimmed pieces that parse as `f64`, in order.
pub open spec fn numeric_pieces(ps: Seq<Seq<char>>) -> Seq<Seq<char>>
    decreases ps.len(),
{
    if ps.len() == 0 {
        seq![]
    } else {
        let r = numeric_pieces(ps.drop_last());
        let t = trim_ws(ps.last());
        if f64_literal(t) {
            r.push(t)
        } else {
            r
        }
    }
}

/// `(description, [south, west, north, east])` from the first `AREA["..."]`
/// clause and the first `BBOX[...]` clause, the bounds as their decimal text;
/// none unless both clauses are there and exactly four comma-separated
/// pieces of the box parse as numbers.
pub open spec fn spec_wkt_area_of_use_text(wkt: Seq<char>) -> Option<(Seq<char>, Seq<Seq<char>>)> {
    match first_capture(Pattern::Area, wkt) {
        None => None,
        Some(desc) => match first_capture(Pattern::Bbox, wkt) {
            None => None,
            Some(bbox) => {
                let nums = numeric_pieces(split_commas(bbox));
                if nums.len() == 4 {
                    Some((desc, nums))
                } else {
                    None
                }
            },
        },
    }
}

/// The area-of-use fields as text (see [`spec_wkt_area_of_use_text`]).
pub fn wkt_area_of_use_text(wkt: &str) -> (r: Option<(String, Vec<String>)>)
    ensures
        r matches Some(t) ==> spec_wkt_area_of_use_text(wkt@) matches Some((d, nums)) && t.0@
            == d && t.1.len() == 4 && forall|i: int| 0 <= i < 4 ==> (#[trigger] t.1@[i])@ == nums[i],
        r is None ==> spec_wkt_area_of_use_text(wkt@) is None,
{
    let s = chars_of(wkt);
    let am = match find_first(Pattern::Area, &s, 0) {
        Some(m) => m,
        None => {
            return None;
        },
    };
    let bm = match find_first(Pattern::Bbox, &s, 0) {
        Some(m) => m,
        None => {
            return None;
        },
    };
    let (b0, b1) = bm.g1;
    let ghost bbox = s@.subrange(b0 as int, b1 as int);
    // Pieces completed so far, and the spans of the numeric ones among them.
    let ghost mut done: Seq<Seq<char>> = seq![];
    let mut spans: Vec<(usize, usize)> = Vec::new();
    let mut start = b0;
    let mut i = b0;
    let ghost e: Seq<char> = seq![];
    assert(s@.subrange(b0 as int, b0 as int) =~= e);
    assert(split_commas(e) == seq![e]);
    assert(done.push(e) =~= seq![e]);
    while i < b1
        invariant
            b0 <= start <= i <= b1 <= s.len(),
            bbox == s@.subrange(b0 as int, b1 as int),
            split_commas(s@.subrange(b0 as int, i as int)) == done.push(
                s@.subrange(start as int, i as int),
            ),
            spans.len() == numeric_pieces(done).len(),
            forall|k: int|
                0 <= k < spans.len() ==> (#[trigger] spans@[k]).0 <= spans@[k].1 <= s.len()
                    && s@.subrange(spans@[k].0 as int, spans@[k].1 as int) == numeric_pieces(
                    done,
                )[k],
        decreases b1 - i,
    {
        let ghost pre = s@.subrange(b0 as int, i as int);
        assert(s@.subrange(b0 as int, i + 1).drop_last() =~= pre);
        if s[i] == ',' {
            let (a, b) = trim_bounds(&s, start, i);
            let ghost piece = s@.subrange(start as int, i as int);
            assert(done.push(piece).drop_last() =~= done);
            if is_f64_literal(&s, a, b) {
                spans.push((a, b));
            }
            proof {
                done = done.push(piece);
            }
            start = i + 1;
            assert(s@.subrange(start as int, i + 1) =~= Seq::<char>::empty());
        } else {
            assert(s@.subrange(start as int, i + 1) =~= s@.subrange(start as int, i as int).push(
                s@[i as int],
            ));
            assert(done.push(s@.subrange(start as int, i as int)).drop_last() =~= done);
        }
        i = i + 1;
    }
    // The last piece.
    let (a, b) = trim_bounds(&s, start, b1);
    let ghost last_piece = s@.subrange(start as int, b1 as int);
    let ghost all = done.push(last_piece);
    assert(all.drop_last() =~= done);
    if is_f64_literal(&s, a, b) {
        spans.push((a, b));
    }
    assert(spans.len() == numeric_pieces(all).len());
    if spans.len() != 4 {
        return None;
    }
    let mut nums: Vec<String> = Vec::new();
    let mut k: usize = 0;
    while k < 4
        invariant
            spans.len() == 4,
            k <= 4,
            nums.len() == k,
            forall|j: int|
                0 <= j < spans.len() ==> (#[trigger] spans@[j]).0 <= spans@[j].1 <= s.len()
                    && s@.subrange(spans@[j].0 as int, spans@[j].1 as int) == numeric_pieces(
                    all,
                )[j],
            forall|j: int| 0 <= j < k ==> (#[trigger] nums@[j])@ == numeric_pieces(all)[j],
        decreases 4 - k,
    {
        let sp = spans[k];
        assert(spans@[k as int] == sp);
        nums.push(string_of(&s, sp.0, sp.1));
        k = k + 1;
    }
    Some((string_of(&s, am.g1.0, am.g1.1), nums))
}

} // verus!
