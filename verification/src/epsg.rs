//! Reading an EPSG code out of a CRS identifier, and resolving it in the
//! registry.
use vstd::prelude::*;
use vstd::utf8::encode_utf8;
use crate::text::{
    trim_ws, chars_of, all_ascii_digits, all_ascii_digits_in, parse_u16, parse_u16_in, trim_bounds, utf8_len_exceeds,
};
use crate::scan::{Pattern, last_match, capture, find_all};
use crate::registry::{RegistryEntry, registry_entry, registry_lookup};

verus! {

/// Max accepted length, in UTF-8 bytes, of a trimmed CRS identifier.
pub const MAX_CRS_LEN: usize = 8192;

/// Max points a batch transform is meant to carry.
pub const MAX_BATCH_POINTS: usize = 5000;

/// Sample points per edge when a bounding box is densified before it is reprojected.
pub const BBOX_DENSIFY_POINTS: usize = 21;

/// Why a CRS identifier could not be resolved.
#[derive(Clone, Copy, Debug, PartialEq, Eq, Structural)]
pub enum CrsError {
    /// Nothing but white space.
    EmptyInput,
    /// Longer than [`MAX_CRS_LEN`] bytes once trimmed.
    InputTooLarge,
    /// No EPSG code can be read from it.
    Unparseable,
    /// A well-formed EPSG code that the registry does not hold.
    UnknownEpsgCode,
    /// The projection library rejected the definition.
    InvalidCrs,
}

/// The error code reported for `e`.
pub open spec fn error_code(e: CrsError) -> Seq<char> {
    match e {
        CrsError::EmptyInput => "EMPTY_INPUT"@,
        CrsError::InputTooLarge => "INPUT_TOO_LARGE"@,
        CrsError::Unparseable => "UNPARSEABLE"@,
        CrsError::UnknownEpsgCode => "UNKNOWN_EPSG_CODE"@,
        CrsError::InvalidCrs => "INVALID_CRS"@,
    }
}

impl CrsError {
    /// The error code reported for this error.
    pub fn as_str(&self) -> (s: &'static str)
        ensures
            s@ == error_code(*self),
    {
        match self {
            CrsError::EmptyInput => "EMPTY_INPUT",
            CrsError::InputTooLarge => "INPUT_TOO_LARGE",
            CrsError::Unparseable => "UNPARSEABLE",
            CrsError::UnknownEpsgCode => "UNKNOWN_EPSG_CODE",
            CrsError::InvalidCrs => "INVALID_CRS",
        }
    }
}

/// `q` starts with `EPSG:`, compared without regard to ASCII case.
pub open spec fn has_epsg_prefix(q: Seq<char>) -> bool {
    &&& q.len() >= 5
    &&& (q[0] == 'E' || q[0] == 'e')
    &&& (q[1] == 'P' || q[1] == 'p')
    &&& (q[2] == 'S' || q[2] == 's')
    &&& (q[3] == 'G' || q[3] == 'g')
    &&& q[4] == ':'
}

pub open spec fn code_or_unparseable(c: Option<u16>) -> Result<u16, CrsError> {
    match c {
        Some(n) => Ok(n),
        None => Err(CrsError::Unparseable),
    }
}

/// The code in the last tag of `pat` in `q`, if `q` has one.
pub open spec fn tag_code(pat: Pattern, q: Seq<char>) -> Option<Result<u16, CrsError>> {
    match last_match(pat, q) {
        Some(m) => Some(code_or_unparseable(parse_u16(capture(q, m.g1)))),
        None => None,
    }
}

/// The EPSG code of a CRS identifier. Once trimmed it is: bare digits
/// (`4326`); an `EPSG:` prefix in any ASCII case, then the code with
/// optional white space around it; or a WKT text, whose last
/// `ID["EPSG",n]` tag gives the code, or else its last
/// `AUTHORITY["EPSG","n"]` tag.
pub open spec fn spec_parse_epsg_code(query: Seq<char>) -> Result<u16, CrsError> {
    let q = trim_ws(query);
    if q.len() == 0 {
        Err(CrsError::EmptyInput)
    } else if encode_utf8(q).len() > MAX_CRS_LEN {
        Err(CrsError::InputTooLarge)
    } else if all_ascii_digits(q) {
        code_or_unparseable(parse_u16(q))
    } else if has_epsg_prefix(q) {
        code_or_unparseable(parse_u16(trim_ws(q.skip(5))))
    } else {
        match tag_code(Pattern::EpsgId, q) {
            Some(r) => r,
            None => match tag_code(Pattern::EpsgAuthority, q) {
                Some(r) => r,
                None => Err(CrsError::Unparseable),
            },
        }
    }
}

fn code_or_unparseable_exec(c: Option<u16>) -> (r: Result<u16, CrsError>)
    ensures
        r == code_or_unparseable(c),
{
    match c {
        Some(n) => Ok(n),
        None => Err(CrsError::Unparseable),
    }
}

fn has_epsg_prefix_exec(q: &Vec<char>) -> (b: bool)
    ensures
        b == has_epsg_prefix(q@),
{
    q.len() >= 5 && (q[0] == 'E' || q[0] == 'e') && (q[1] == 'P' || q[1] == 'p') && (q[2] == 'S'
        || q[2] == 's') && (q[3] == 'G' || q[3] == 'g') && q[4] == ':'
}

fn tag_code_exec(pat: Pattern, q: &Vec<char>) -> (r: Option<Result<u16, CrsError>>)
    ensures
        r == tag_code(pat, q@),
{
    let ms = find_all(pat, q);
    if ms.len() == 0 {
        return None;
    }
    let m = ms[ms.len() - 1];
    assert(ms@[ms.len() - 1]@ == crate::scan::all_matches(pat, q@, 0)[ms.len() - 1]);
    Some(code_or_unparseable_exec(parse_u16_in(q, m.g1.0, m.g1.1)))
}

/// Extract the EPSG code from a CRS identifier (see [`spec_parse_epsg_code`]).
pub fn parse_epsg_code(query: &str) -> (r: Result<u16, CrsError>)
    ensures
        r == spec_parse_epsg_code(query@),
{
    let q = query.trim();
    if q.is_empty() {
        return Err(CrsError::EmptyInput);
    }
    let v = chars_of(q);
    if utf8_len_exceeds(&v, MAX_CRS_LEN) {
        return Err(CrsError::InputTooLarge);
    }
    assert(v@.subrange(0, v@.len() as int) =~= v@);
    if all_ascii_digits_in(&v, 0, v.len()) {
        return code_or_unparseable_exec(parse_u16_in(&v, 0, v.len()));
    }
    if has_epsg_prefix_exec(&v) {
        let (a, b) = trim_bounds(&v, 5, v.len());
        assert(v@.subrange(5, v@.len() as int) =~= v@.skip(5));
        return code_or_unparseable_exec(parse_u16_in(&v, a, b));
    }
    match tag_code_exec(Pattern::EpsgId, &v) {
        Some(r) => r,
        None => match tag_code_exec(Pattern::EpsgAuthority, &v) {
            Some(r) => r,
            None => Err(CrsError::Unparseable),
        },
    }
}

/// The EPSG code of a CRS identifier with its registry entry `(code, proj4, wkt)`.
pub open spec fn spec_resolve_def(query: Seq<char>) -> Result<(u16, Seq<char>, Seq<char>), CrsError> {
    match spec_parse_epsg_code(query) {
        Err(e) => Err(e),
        Ok(code) => match registry_entry(code) {
            Some((proj4, wkt)) => Ok((code, proj4, wkt)),
            None => Err(CrsError::UnknownEpsgCode),
        },
    }
}

/// Resolve a CRS identifier to its EPSG code and registry entry.
pub fn resolve_def(query: &str) -> (r: Result<(u16, RegistryEntry), CrsError>)
    ensures
        r matches Ok((code, e)) ==> spec_resolve_def(query@) == Ok::<(u16, Seq<char>, Seq<char>), CrsError>((code, e.proj4@, e.wkt@)),
        r matches Err(err) ==> spec_resolve_def(query@) == Err::<(u16, Seq<char>, Seq<char>), CrsError>(err),
{
    let code = match parse_epsg_code(query) {
        Ok(c) => c,
        Err(e) => {
            return Err(e);
        },
    };
    match registry_lookup(code) {
        Some(def) => Ok((code, def)),
        None => Err(CrsError::UnknownEpsgCode),
    }
}

} // verus!
