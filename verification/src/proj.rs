//! Building `proj4rs` projections from CRS identifiers.
use vstd::prelude::*;
use vstd::utf8::encode_utf8;
use proj4rs::proj::Proj;
use crate::text::{trim_ws, chars_of, utf8_len_exceeds};
use crate::epsg::{CrsError, MAX_CRS_LEN, MAX_BATCH_POINTS, spec_parse_epsg_code, parse_epsg_code};

verus! {

/// `proj4rs::proj::Proj`, a projection, carried through opaquely.
#[verifier::external_type_specification]
#[verifier::external_body]
pub struct ExProj(proj4rs::proj::Proj);

/// `proj4rs::errors::Error`, the projection library's error, carried through
/// opaquely and mapped to [`CrsError::InvalidCrs`].
#[verifier::external_type_specification]
#[verifier::external_body]
pub struct ExProjError(proj4rs::errors::Error);

/// Where a projection comes from.
pub enum ProjSource {
    /// A raw PROJ4 definition string (the trimmed identifier, starting with `+`).
    ProjString(String),
    /// An EPSG code looked up in the registry.
    EpsgCode(u16),
}

/// The mathematical form of [`ProjSource`].
pub enum ProjSourceView {
    ProjString(Seq<char>),
    EpsgCode(u16),
}

impl View for ProjSource {
    type V = ProjSourceView;

    open spec fn view(&self) -> ProjSourceView {
        match self {
            ProjSource::ProjString(s) => ProjSourceView::ProjString(s@),
            ProjSource::EpsgCode(c) => ProjSourceView::EpsgCode(*c),
        }
    }
}

/// A projection built by the projection library, with the definition it
/// was built from.
pub struct Projection {
    pub proj: Proj,
    pub source: ProjSource,
}

/// Calls `proj4rs::proj::Proj::from_proj_string` on `s`, and keeps `s` as
/// the source of the projection it builds. Nothing is stated of whether the
/// call succeeds: a definition that names grid files succeeds or fails by
/// the state of the process-global grid catalogue.
#[verifier::external_body]
fn proj_from_proj_string(s: String) -> (r: Result<Projection, proj4rs::errors::Error>)
    ensures
        r matches Ok(p) ==> p.source@ == ProjSourceView::ProjString(s@),
{
    match Proj::from_proj_string(&s) {
        Ok(proj) => Ok(Projection { proj, source: ProjSource::ProjString(s) }),
        Err(e) => Err(e),
    }
}

/// Calls `proj4rs::proj::Proj::from_epsg_code` on `code`, and keeps `code`
/// as the source of the projection it builds. Nothing is stated of whether
/// the call succeeds: it looks `code` up in the registry copy that `proj4rs`
/// itself bundles, and goes on through `from_proj_string`.
#[verifier::external_body]
fn proj_from_epsg_code(code: u16) -> (r: Result<Projection, proj4rs::errors::Error>)
    ensures
        r matches Ok(p) ==> p.source@ == ProjSourceView::EpsgCode(code),
{
    match Proj::from_epsg_code(code) {
        Ok(proj) => Ok(Projection { proj, source: ProjSource::EpsgCode(code) }),
        Err(e) => Err(e),
    }
}

/// How a CRS identifier is read before a projection is built from it: the
/// trimmed identifier itself when it starts with `+`, else its EPSG code.
pub open spec fn spec_proj_source(query: Seq<char>) -> Result<ProjSourceView, CrsError> {
    let q = trim_ws(query);
    if q.len() == 0 {
        Err(CrsError::EmptyInput)
    } else if encode_utf8(q).len() > MAX_CRS_LEN {
        Err(CrsError::InputTooLarge)
    } else if q[0] == '+' {
        Ok(ProjSourceView::ProjString(q))
    } else {
        match spec_parse_epsg_code(q) {
            Ok(code) => Ok(ProjSourceView::EpsgCode(code)),
            Err(e) => Err(e),
        }
    }
}

/// What holds of a projection built for `query`, whatever the projection
/// library answered: an identifier that cannot be read gives its error; one
/// that can gives a projection built from what it reads as, or `InvalidCrs`.
pub open spec fn proj_outcome_ok(query: Seq<char>, r: Result<Projection, CrsError>) -> bool {
    match spec_proj_source(query) {
        Err(e) => r == Err::<Projection, CrsError>(e),
        Ok(src) => match r {
            Ok(p) => p.source@ == src,
            Err(e) => e == CrsError::InvalidCrs,
        },
    }
}

/// What holds of the source and target projections built for a transform,
/// whatever the projection library answered: the source is read and built
/// first, and the first failure is reported; on success each projection is
/// built from what its own identifier reads as.
pub open spec fn pair_outcome_ok(
    source_crs: Seq<char>,
    target_crs: Seq<char>,
    r: Result<(Projection, Projection), CrsError>,
) -> bool {
    match spec_proj_source(source_crs) {
        Err(e) => r == Err::<(Projection, Projection), CrsError>(e),
        Ok(src) => match r {
            Ok((from, to)) => from.source@ == src && Ok::<ProjSourceView, CrsError>(to.source@)
                == spec_proj_source(target_crs),
            Err(e) => e == CrsError::InvalidCrs || spec_proj_source(target_crs) == Err::<
                ProjSourceView,
                CrsError,
            >(e),
        },
    }
}

/// Build a projection from a CRS identifier: a raw PROJ4 string (starting
/// with `+`), or an EPSG code resolved through the registry (bare digits,
/// `EPSG:nnnn`, or an EPSG-tagged WKT).
pub fn build_proj(query: &str) -> (r: Result<Projection, CrsError>)
    ensures
        proj_outcome_ok(query@, r),
{
    let q = query.trim();
    if q.is_empty() {
        return Err(CrsError::EmptyInput);
    }
    let v = chars_of(q);
    if utf8_len_exceeds(&v, MAX_CRS_LEN) {
        return Err(CrsError::InputTooLarge);
    }
    if v[0] == '+' {
        return match proj_from_proj_string(q.to_owned()) {
            Ok(p) => Ok(p),
            Err(_) => Err(CrsError::InvalidCrs),
        };
    }
    let code = match parse_epsg_code(q) {
        Ok(c) => c,
        Err(e) => {
            return Err(e);
        },
    };
    match proj_from_epsg_code(code) {
        Ok(p) => Ok(p),
        Err(_) => Err(CrsError::InvalidCrs),
    }
}

/// The projections of a transform, from the built source projection and the
/// outcome of building the target one: both, in that order, when the target
/// was built; else the target's error. A built pair is never refused.
pub fn pair_with_target(from: Projection, to: Result<Projection, CrsError>) -> (r: Result<
    (Projection, Projection),
    CrsError,
>)
    ensures
        to matches Ok(t) ==> r == Ok::<(Projection, Projection), CrsError>((from, t)),
        to matches Err(e) ==> r == Err::<(Projection, Projection), CrsError>(e),
{
    match to {
        Ok(t) => Ok((from, t)),
        Err(e) => Err(e),
    }
}

/// Build the source projection, then the target one, stopping at the first
/// failure.
pub fn build_proj_pair(source_crs: &str, target_crs: &str) -> (r: Result<
    (Projection, Projection),
    CrsError,
>)
    ensures
        pair_outcome_ok(source_crs@, target_crs@, r),
{
    let from = match build_proj(source_crs) {
        Ok(p) => p,
        Err(e) => {
            return Err(e);
        },
    };
    pair_with_target(from, build_proj(target_crs))
}

/// The checks of a batch transform made before any point is touched: an
/// empty batch is refused, so is one of more than [`MAX_BATCH_POINTS`]
/// points, then both projections are built.
pub fn build_batch_projs(point_count: usize, source_crs: &str, target_crs: &str) -> (r: Result<
    (Projection, Projection),
    CrsError,
>)
    ensures
        point_count == 0 ==> r == Err::<(Projection, Projection), CrsError>(CrsError::EmptyInput),
        point_count > MAX_BATCH_POINTS ==> r == Err::<(Projection, Projection), CrsError>(
            CrsError::InputTooLarge,
        ),
        0 < point_count <= MAX_BATCH_POINTS ==> pair_outcome_ok(source_crs@, target_crs@, r),
{
    if point_count == 0 {
        return Err(CrsError::EmptyInput);
    }
    if point_count > MAX_BATCH_POINTS {
        return Err(CrsError::InputTooLarge);
    }
    build_proj_pair(source_crs, target_crs)
}

} // verus!
