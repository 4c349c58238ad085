//! The bundled EPSG registry of the `crs-definitions` crate.
use vstd::prelude::*;

verus! {

/// A registry entry: the PROJ4 definition string and the WKT text of one EPSG code.
#[derive(Clone, Copy, Debug)]
pub struct RegistryEntry {
    pub proj4: &'static str,
    pub wkt: &'static str,
}

/// What the registry holds for `code`: `(proj4, wkt)`, or nothing when the
/// code is not bundled.
pub uninterp spec fn registry_entry(code: u16) -> Option<(Seq<char>, Seq<char>)>;

/// Calls `crs_definitions::from_code`, a lookup in a table compiled into the
/// crate, and keeps the `proj4` and `wkt` fields of the definition it finds.
/// The contract claims that the outcome is a fixed function of `code`.
#[verifier::external_body]
pub(crate) fn registry_lookup(code: u16) -> (r: Option<RegistryEntry>)
    ensures
        r matches Some(e) ==> registry_entry(code) == Some((e.proj4@, e.wkt@)),
        r is None ==> registry_entry(code) is None,
{
    match crs_definitions::from_code(code) {
        Some(def) => Some(RegistryEntry { proj4: def.proj4, wkt: def.wkt }),
        None => None,
    }
}

} // verus!
