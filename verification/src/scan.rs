//! Leftmost-first scanning for the fixed tag patterns that the WKT field
//! extractors and the EPSG-code parser look for. Each pattern matches at a
//! given position in at most one way (its repeated classes are greedy and
//! are followed by a character outside the class), so a match is determined
//! by its start.
use vstd::prelude::*;
use crate::charclass::{CharClass, in_class, class_contains};
use crate::text::chars_of;

verus! {

/// A match of a pattern in a character sequence: `[start, end)`, and up to
/// three capture groups as `[from, to)` spans. Unused groups are `(0, 0)`.
pub struct SpecMatch {
    pub start: int,
    pub end: int,
    pub g1: (int, int),
    pub g2: (int, int),
    pub g3: (int, int),
}

/// The executable form of [`SpecMatch`].
#[derive(Clone, Copy, Debug)]
pub struct Match {
    pub start: usize,
    pub end: usize,
    pub g1: (usize, usize),
    pub g2: (usize, usize),
    pub g3: (usize, usize),
}

impl View for Match {
    type V = SpecMatch;

    open spec fn view(&self) -> SpecMatch {
        SpecMatch {
            start: self.start as int,
            end: self.end as int,
            g1: (self.g1.0 as int, self.g1.1 as int),
            g2: (self.g2.0 as int, self.g2.1 as int),
            g3: (self.g3.0 as int, self.g3.1 as int),
        }
    }
}

pub open spec fn span_ok(g: (int, int), len: int) -> bool {
    0 <= g.0 <= g.1 <= len
}

/// A match that lies inside a sequence of length `len`.
pub open spec fn match_ok(m: SpecMatch, len: int) -> bool {
    &&& 0 <= m.start < m.end <= len
    &&& span_ok(m.g1, len)
    &&& span_ok(m.g2, len)
    &&& span_ok(m.g3, len)
}

/// The text of a capture group.
pub open spec fn capture(s: Seq<char>, g: (int, int)) -> Seq<char> {
    s.subrange(g.0, g.1)
}

/// The tag patterns.
#[derive(Clone, Copy, Debug, PartialEq, Eq, Structural)]
pub enum Pattern {
    /// `ID\["EPSG",\s*(\d+)\]`
    EpsgId,
    /// `AUTHORITY\["EPSG",\s*"(\d+)"\]`
    EpsgAuthority,
    /// `ELLIPSOID\["([^"]*)",\s*([0-9.eE+-]+),\s*([0-9.eE+-]+)`
    Ellipsoid,
    /// `ENSEMBLE\["([^"]*)"`
    Ensemble,
    /// `DATUM\["([^"]*)"`
    Datum,
    /// `(?:ANGLEUNIT|LENGTHUNIT)\["([^"]*)",\s*([0-9.eE+-]+)`
    Unit,
    /// `AXIS\["([^"]*)",\s*(\w+)`
    Axis,
    /// `AREA\["([^"]*)"\]`
    Area,
    /// `BBOX\[([^\]]*)\]`
    Bbox,
}

/// The literal text that a pattern starts with (the first alternative for
/// [`Pattern::Unit`]).
pub open spec fn head(pat: Pattern) -> Seq<char> {
    match pat {
        Pattern::EpsgId => "ID[\"EPSG\","@,
        Pattern::EpsgAuthority => "AUTHORITY[\"EPSG\","@,
        Pattern::Ellipsoid => "ELLIPSOID[\""@,
        Pattern::Ensemble => "ENSEMBLE[\""@,
        Pattern::Datum => "DATUM[\""@,
        Pattern::Unit => "ANGLEUNIT[\""@,
        Pattern::Axis => "AXIS[\""@,
        Pattern::Area => "AREA[\""@,
        Pattern::Bbox => "BBOX["@,
    }
}

/// The second alternative of [`Pattern::Unit`].
pub open spec fn length_unit_head() -> Seq<char> {
    "LENGTHUNIT[\""@
}

/// `lit` occurs in `s` at `p`.
pub open spec fn lit_at(s: Seq<char>, p: int, lit: Seq<char>) -> bool {
    0 <= p && p + lit.len() <= s.len() && s.subrange(p, p + lit.len()) == lit
}

/// `s[p] == c`.
pub open spec fn char_is(s: Seq<char>, p: int, c: char) -> bool {
    0 <= p < s.len() && s[p] == c
}

/// The end of the longest run of `cls` characters starting at `p`.
pub open spec fn run_end(s: Seq<char>, p: int, cls: CharClass) -> int
    decreases s.len() - p,
{
    if 0 <= p < s.len() && in_class(cls, s[p]) {
        run_end(s, p + 1, cls)
    } else {
        p
    }
}

/// Where the text after a pattern's literal head starts, if the head occurs at `p`.
pub open spec fn body_start(pat: Pattern, s: Seq<char>, p: int) -> Option<int> {
    if lit_at(s, p, head(pat)) {
        Some(p + head(pat).len())
    } else if pat == Pattern::Unit && lit_at(s, p, length_unit_head()) {
        Some(p + length_unit_head().len())
    } else {
        None
    }
}

pub open spec fn one_group(p: int, end: int, g: (int, int)) -> SpecMatch {
    SpecMatch { start: p, end, g1: g, g2: (0, 0), g3: (0, 0) }
}

/// The match of `pat` that starts at `p`, if there is one.
pub open spec fn match_at(pat: Pattern, s: Seq<char>, p: int) -> Option<SpecMatch> {
    match body_start(pat, s, p) {
        None => None,
        Some(a) => match pat {
            Pattern::EpsgId => {
                let b = run_end(s, a, CharClass::WhiteSpace);
                let c = run_end(s, b, CharClass::Digit);
                if c > b && char_is(s, c, ']') {
                    Some(one_group(p, c + 1, (b, c)))
                } else {
                    None
                }
            },
            Pattern::EpsgAuthority => {
                let b = run_end(s, a, CharClass::WhiteSpace);
                let c = run_end(s, b + 1, CharClass::Digit);
                if char_is(s, b, '"') && c > b + 1 && char_is(s, c, '"') && char_is(s, c + 1, ']') {
                    Some(one_group(p, c + 2, (b + 1, c)))
                } else {
                    None
                }
            },
            Pattern::Ensemble | Pattern::Datum => {
                let q = run_end(s, a, CharClass::NotQuote);
                if char_is(s, q, '"') {
                    Some(one_group(p, q + 1, (a, q)))
                } else {
                    None
                }
            },
            Pattern::Area => {
                let q = run_end(s, a, CharClass::NotQuote);
                if char_is(s, q, '"') && char_is(s, q + 1, ']') {
                    Some(one_group(p, q + 2, (a, q)))
                } else {
                    None
                }
            },
            Pattern::Bbox => {
                let q = run_end(s, a, CharClass::NotCloseBracket);
                if char_is(s, q, ']') {
                    Some(one_group(p, q + 1, (a, q)))
                } else {
                    None
                }
            },
            Pattern::Unit | Pattern::Axis => {
                let q = run_end(s, a, CharClass::NotQuote);
                let b = run_end(s, q + 2, CharClass::WhiteSpace);
                let cls = if pat == Pattern::Unit {
                    CharClass::Numeric
                } else {
                    CharClass::Word
                };
                let c = run_end(s, b, cls);
                if char_is(s, q, '"') && char_is(s, q + 1, ',') && c > b {
                    Some(SpecMatch { start: p, end: c, g1: (a, q), g2: (b, c), g3: (0, 0) })
                } else {
                    None
                }
            },
            Pattern::Ellipsoid => {
                let q = run_end(s, a, CharClass::NotQuote);
                let b = run_end(s, q + 2, CharClass::WhiteSpace);
                let c = run_end(s, b, CharClass::Numeric);
                let d = run_end(s, c + 1, CharClass::WhiteSpace);
                let e = run_end(s, d, CharClass::Numeric);
                if char_is(s, q, '"') && char_is(s, q + 1, ',') && c > b && char_is(s, c, ',')
                    && e > d {
                    Some(SpecMatch { start: p, end: e, g1: (a, q), g2: (b, c), g3: (d, e) })
                } else {
                    None
                }
            },
        },
    }
}

/// The leftmost match of `pat` that starts at or after `p`.
pub open spec fn first_match(pat: Pattern, s: Seq<char>, p: int) -> Option<SpecMatch>
    decreases s.len() + 1 - p,
{
    if p < 0 || p > s.len() {
        None
    } else {
        match match_at(pat, s, p) {
            Some(m) => Some(m),
            None => first_match(pat, s, p + 1),
        }
    }
}

/// The successive non-overlapping matches of `pat` from `p` on: each search
/// resumes where the previous match ended.
pub open spec fn all_matches(pat: Pattern, s: Seq<char>, p: int) -> Seq<SpecMatch>
    decreases s.len() + 1 - p,
{
    if p < 0 || p > s.len() {
        seq![]
    } else {
        match first_match(pat, s, p) {
            None => seq![],
            Some(m) => if p < m.end <= s.len() {
                seq![m] + all_matches(pat, s, m.end)
            } else {
                seq![m]
            },
        }
    }
}

/// The last of the successive matches of `pat` in `s`.
pub open spec fn last_match(pat: Pattern, s: Seq<char>) -> Option<SpecMatch> {
    let ms = all_matches(pat, s, 0);
    if ms.len() > 0 {
        Some(ms.last())
    } else {
        None
    }
}

/// Whether `lit` occurs in `s` at `p`.
pub fn lit_at_exec(s: &Vec<char>, p: usize, lit: &Vec<char>) -> (b: bool)
    requires
        p <= s.len(),
    ensures
        b == lit_at(s@, p as int, lit@),
{
    if lit.len() > s.len() - p {
        return false;
    }
    let mut i: usize = 0;
    while i < lit.len()
        invariant
            p + lit.len() <= s.len(),
            i <= lit.len(),
            forall|k: int| 0 <= k < i ==> s@[p + k] == lit@[k],
        decreases lit.len() - i,
    {
        if s[p + i] != lit[i] {
            assert(s@.subrange(p as int, p + lit.len())[i as int] != lit@[i as int]);
            return false;
        }
        i = i + 1;
    }
    assert(s@.subrange(p as int, p + lit.len()) =~= lit@);
    true
}

/// Whether `s[p] == c`.
pub fn char_is_exec(s: &Vec<char>, p: usize, c: char) -> (b: bool)
    ensures
        b == char_is(s@, p as int, c),
{
    p < s.len() && s[p] == c
}

/// The end of the longest run of `cls` characters starting at `p`.
pub fn run_end_exec(s: &Vec<char>, p: usize, cls: CharClass) -> (e: usize)
    requires
        p <= s.len(),
    ensures
        p <= e <= s.len(),
        e == run_end(s@, p as int, cls),
{
    let mut i = p;
    while i < s.len() && class_contains(cls, s[i])
        invariant
            p <= i <= s.len(),
            run_end(s@, p as int, cls) == run_end(s@, i as int, cls),
        decreases s.len() - i,
    {
        i = i + 1;
    }
    i
}

/// The literal head of `pat`.
fn head_exec(pat: Pattern) -> (v: Vec<char>)
    ensures
        v@ == head(pat),
{
    match pat {
        Pattern::EpsgId => chars_of("ID[\"EPSG\","),
        Pattern::EpsgAuthority => chars_of("AUTHORITY[\"EPSG\","),
        Pattern::Ellipsoid => chars_of("ELLIPSOID[\""),
        Pattern::Ensemble => chars_of("ENSEMBLE[\""),
        Pattern::Datum => chars_of("DATUM[\""),
        Pattern::Unit => chars_of("ANGLEUNIT[\""),
        Pattern::Axis => chars_of("AXIS[\""),
        Pattern::Area => chars_of("AREA[\""),
        Pattern::Bbox => chars_of("BBOX["),
    }
}

fn body_start_exec(pat: Pattern, s: &Vec<char>, p: usize) -> (r: Option<usize>)
    requires
        p <= s.len(),
    ensures
        r matches Some(a) ==> body_start(pat, s@, p as int) == Some(a as int) && p < a <= s.len(),
        r is None ==> body_start(pat, s@, p as int) is None,
{
    let h = head_exec(pat);
    if lit_at_exec(s, p, &h) {
        proof {
            reveal_strlit("ID[\"EPSG\",");
            reveal_strlit("AUTHORITY[\"EPSG\",");
            reveal_strlit("ELLIPSOID[\"");
            reveal_strlit("ENSEMBLE[\"");
            reveal_strlit("DATUM[\"");
            reveal_strlit("ANGLEUNIT[\"");
            reveal_strlit("AXIS[\"");
            reveal_strlit("AREA[\"");
            reveal_strlit("BBOX[");
        }
        return Some(p + h.len());
    }
    if pat == Pattern::Unit {
        let l = chars_of("LENGTHUNIT[\"");
        if lit_at_exec(s, p, &l) {
            proof {
                reveal_strlit("LENGTHUNIT[\"");
            }
            return Some(p + l.len());
        }
    }
    None
}

/// The match of `pat` that starts at `p`, if there is one.
pub fn match_at_exec(pat: Pattern, s: &Vec<char>, p: usize) -> (r: Option<Match>)
    requires
        p <= s.len(),
    ensures
        r matches Some(m) ==> match_at(pat, s@, p as int) == Some(m@) && match_ok(m@, s@.len() as int),
        r is None ==> match_at(pat, s@, p as int) is None,
{
    let a = match body_start_exec(pat, s, p) {
        None => {
            return None;
        },
        Some(a) => a,
    };
    match pat {
        Pattern::EpsgId => {
            let b = run_end_exec(s, a, CharClass::WhiteSpace);
            let c = run_end_exec(s, b, CharClass::Digit);
            if c > b && char_is_exec(s, c, ']') {
                Some(Match { start: p, end: c + 1, g1: (b, c), g2: (0, 0), g3: (0, 0) })
            } else {
                None
            }
        },
        Pattern::EpsgAuthority => {
            let b = run_end_exec(s, a, CharClass::WhiteSpace);
            if !char_is_exec(s, b, '"') {
                return None;
            }
            let c = run_end_exec(s, b + 1, CharClass::Digit);
            if c > b + 1 && char_is_exec(s, c, '"') && char_is_exec(s, c + 1, ']') {
                Some(Match { start: p, end: c + 2, g1: (b + 1, c), g2: (0, 0), g3: (0, 0) })
            } else {
                None
            }
        },
        Pattern::Ensemble | Pattern::Datum => {
            let q = run_end_exec(s, a, CharClass::NotQuote);
            if char_is_exec(s, q, '"') {
                Some(Match { start: p, end: q + 1, g1: (a, q), g2: (0, 0), g3: (0, 0) })
            } else {
                None
            }
        },
        Pattern::Area => {
            let q = run_end_exec(s, a, CharClass::NotQuote);
            if char_is_exec(s, q, '"') && char_is_exec(s, q + 1, ']') {
                Some(Match { start: p, end: q + 2, g1: (a, q), g2: (0, 0), g3: (0, 0) })
            } else {
                None
            }
        },
        Pattern::Bbox => {
            let q = run_end_exec(s, a, CharClass::NotCloseBracket);
            if char_is_exec(s, q, ']') {
                Some(Match { start: p, end: q + 1, g1: (a, q), g2: (0, 0), g3: (0, 0) })
            } else {
                None
            }
        },
        Pattern::Unit | Pattern::Axis => {
            let q = run_end_exec(s, a, CharClass::NotQuote);
            if !(char_is_exec(s, q, '"') && char_is_exec(s, q + 1, ',')) {
                return None;
            }
            let b = run_end_exec(s, q + 2, CharClass::WhiteSpace);
            let cls = if pat == Pattern::Unit {
                CharClass::Numeric
            } else {
                CharClass::Word
            };
            let c = run_end_exec(s, b, cls);
            if c > b {
                Some(Match { start: p, end: c, g1: (a, q), g2: (b, c), g3: (0, 0) })
            } else {
                None
            }
        },
        Pattern::Ellipsoid => {
            let q = run_end_exec(s, a, CharClass::NotQuote);
            if !(char_is_exec(s, q, '"') && char_is_exec(s, q + 1, ',')) {
                return None;
            }
            let b = run_end_exec(s, q + 2, CharClass::WhiteSpace);
            let c = run_end_exec(s, b, CharClass::Numeric);
            if !(c > b && char_is_exec(s, c, ',')) {
                return None;
            }
            let d = run_end_exec(s, c + 1, CharClass::WhiteSpace);
            let e = run_end_exec(s, d, CharClass::Numeric);
            if e > d {
                Some(Match { start: p, end: e, g1: (a, q), g2: (b, c), g3: (d, e) })
            } else {
                None
            }
        },
    }
}

/// The leftmost match of `pat` that starts at or after `from`.
pub fn find_first(pat: Pattern, s: &Vec<char>, from: usize) -> (r: Option<Match>)
    requires
        from <= s.len(),
    ensures
        r matches Some(m) ==> first_match(pat, s@, from as int) == Some(m@) && match_ok(
            m@,
            s@.len() as int,
        ) && from <= m.start,
        r is None ==> first_match(pat, s@, from as int) is None,
{
    let mut p = from;
    loop
        invariant
            from <= p <= s.len(),
            first_match(pat, s@, from as int) == first_match(pat, s@, p as int),
        decreases s.len() - p,
    {
        match match_at_exec(pat, s, p) {
            Some(m) => {
                return Some(m);
            },
            None => {
                if p == s.len() {
                    assert(first_match(pat, s@, p + 1) is None);
                    return None;
                }
                p = p + 1;
            },
        }
    }
}

/// The successive matches of `pat` in `s` from position `from` on.
pub fn find_all_from(pat: Pattern, s: &Vec<char>, from: usize) -> (r: Vec<Match>)
    requires
        from <= s.len(),
    ensures
        r.len() == all_matches(pat, s@, from as int).len(),
        forall|i: int|
            0 <= i < r.len() ==> #[trigger] r@[i]@ == all_matches(pat, s@, from as int)[i]
                && match_ok(r@[i]@, s@.len() as int),
{
    let mut r: Vec<Match> = Vec::new();
    let mut p: usize = from;
    let ghost all = all_matches(pat, s@, from as int);
    loop
        invariant
            p <= s.len(),
            all == all_matches(pat, s@, from as int),
            r.len() <= all.len(),
            all_matches(pat, s@, p as int) =~= all.skip(r.len() as int),
            forall|i: int|
                0 <= i < r.len() ==> #[trigger] r@[i]@ == all[i] && match_ok(
                    r@[i]@,
                    s@.len() as int,
                ),
        decreases s.len() - p,
    {
        match find_first(pat, s, p) {
            None => {
                assert(all_matches(pat, s@, p as int) =~= Seq::<SpecMatch>::empty());
                return r;
            },
            Some(m) => {
                let ghost rest = all_matches(pat, s@, m.end as int);
                assert(all_matches(pat, s@, p as int) == seq![m@] + rest);
                assert(all.skip(r.len() as int)[0] == m@);
                assert(all.skip(r.len() + 1) =~= all.skip(r.len() as int).drop_first());
                assert((seq![m@] + rest).drop_first() =~= rest);
                r.push(m);
                p = m.end;
            },
        }
    }
}

/// All successive matches of `pat` in `s`.
pub fn find_all(pat: Pattern, s: &Vec<char>) -> (r: Vec<Match>)
    ensures
        r.len() == all_matches(pat, s@, 0).len(),
        forall|i: int|
            0 <= i < r.len() ==> #[trigger] r@[i]@ == all_matches(pat, s@, 0)[i] && match_ok(
                r@[i]@,
                s@.len() as int,
            ),
{
    find_all_from(pat, s, 0)
}

} // verus!
