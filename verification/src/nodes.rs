//! The CRS operations: canonical form, representation, axis order,
//! metadata, validation, and the registry side of the UTM zone lookup.
use vstd::prelude::*;
use vstd::utf8::encode_utf8;
use crate::text::{decimal, push_decimal, trim_ws, lemma_trim_ws_idempotent, chars_of};
use crate::epsg::{CrsError, MAX_CRS_LEN, error_code, spec_resolve_def, resolve_def};
use crate::registry::{registry_entry, registry_lookup};
use crate::proj::{build_proj, Projection};
use crate::wkt::{
    spec_wkt_name, spec_wkt_crs_type, spec_wkt_datum, spec_wkt_axes, spec_wkt_ellipsoid_text,
    spec_wkt_unit_text, spec_wkt_area_of_use_text, wkt_name, wkt_crs_type, wkt_datum, wkt_axes,
    wkt_ellipsoid_text, wkt_unit_text, wkt_area_of_use_text,
};
use crate::messages::{
    CrsQuery, CrsAxisInfo, CrsAxisInfoView, CrsRepresentation, CrsRepresentationView, CrsCanonical,
    CrsCanonicalView, CrsValidation, CrsValidationView, CrsInfo, CrsInfoView, UtmZoneInfo,
    UtmZoneInfoView,
};

verus! {

/// `EPSG:` followed by the decimal code.
pub open spec fn epsg_label(code: u16) -> Seq<char> {
    "EPSG:"@ + decimal(code as nat)
}

/// `EPSG:` followed by the decimal code.
pub fn epsg_label_exec(code: u16) -> (s: String)
    ensures
        s@ == epsg_label(code),
{
    let mut s = "EPSG:".to_owned();
    push_decimal(code as u32, &mut s);
    s
}

fn error_string(e: CrsError) -> (s: String)
    ensures
        s@ == error_code(e),
{
    e.as_str().to_owned()
}

// ---------------------------------------------------------------------
// ParseCRS
// ---------------------------------------------------------------------

/// The canonical form of a CRS identifier.
pub open spec fn spec_parse_crs(crs: Seq<char>) -> CrsCanonicalView {
    match spec_resolve_def(crs) {
        Err(e) => CrsCanonicalView {
            epsg_code: seq![],
            authority: seq![],
            code: seq![],
            proj4: seq![],
            wkt: seq![],
            name: seq![],
            error: error_code(e),
        },
        Ok((code, proj4, wkt)) => CrsCanonicalView {
            epsg_code: epsg_label(code),
            authority: "EPSG"@,
            code: decimal(code as nat),
            proj4,
            wkt,
            name: spec_wkt_name(wkt),
            error: seq![],
        },
    }
}

/// Normalize a CRS identifier (an EPSG code or an EPSG-tagged WKT) into its
/// canonical registry form: authority, code, name, and the registry's WKT
/// and PROJ4 definitions. A failure is reported in `error` alone.
pub fn parse_crs(input: CrsQuery) -> (out: CrsCanonical)
    ensures
        out@ == spec_parse_crs(input.crs@),
{
    match resolve_def(input.crs.as_str()) {
        Err(e) => CrsCanonical {
            epsg_code: String::new(),
            authority: String::new(),
            code: String::new(),
            proj4: String::new(),
            wkt: String::new(),
            name: String::new(),
            error: error_string(e),
        },
        Ok((code, def)) => {
            let mut digits = String::new();
            push_decimal(code as u32, &mut digits);
            CrsCanonical {
                epsg_code: epsg_label_exec(code),
                authority: "EPSG".to_owned(),
                code: digits,
                proj4: def.proj4.to_owned(),
                wkt: def.wkt.to_owned(),
                name: wkt_name(def.wkt),
                error: String::new(),
            }
        },
    }
}

// ---------------------------------------------------------------------
// GetCRSRepresentation
// ---------------------------------------------------------------------

pub open spec fn spec_get_crs_representation(crs: Seq<char>) -> CrsRepresentationView {
    match spec_resolve_def(crs) {
        Err(e) => CrsRepresentationView { wkt: seq![], proj4: seq![], error: error_code(e) },
        Ok((_, proj4, wkt)) => CrsRepresentationView { wkt, proj4, error: seq![] },
    }
}

/// The registry's WKT and PROJ4 definitions of a CRS.
pub fn get_crs_representation(input: CrsQuery) -> (out: CrsRepresentation)
    ensures
        out@ == spec_get_crs_representation(input.crs@),
{
    match resolve_def(input.crs.as_str()) {
        Err(e) => CrsRepresentation {
            wkt: String::new(),
            proj4: String::new(),
            error: error_string(e),
        },
        Ok((_, def)) => CrsRepresentation {
            wkt: def.wkt.to_owned(),
            proj4: def.proj4.to_owned(),
            error: String::new(),
        },
    }
}

// ---------------------------------------------------------------------
// GetCRSAxisInfo
// ---------------------------------------------------------------------

/// The coordinate order that every transform of this package takes and returns.
pub open spec fn transform_io_order() -> Seq<char> {
    "x,y = longitude/easting, latitude/northing"@
}

/// The note for a registry entry without an `AXIS` clause.
pub open spec fn note_no_axes() -> Seq<char> {
    "This CRS's registry entry states no explicit AXIS clause."@
}

/// The note for a registry entry with `AXIS` clauses.
pub open spec fn note_axes() -> Seq<char> {
    "axis_names/axis_directions are this CRS's own authority-defined order; every crs-tools transform node always takes/returns transform_io_order regardless."@
}

pub open spec fn spec_get_crs_axis_info(crs: Seq<char>) -> CrsAxisInfoView {
    match spec_resolve_def(crs) {
        Err(e) => CrsAxisInfoView {
            axis_names: seq![],
            axis_directions: seq![],
            transform_io_order: seq![],
            note: seq![],
            error: error_code(e),
        },
        Ok((_, _, wkt)) => {
            let axes = spec_wkt_axes(wkt);
            CrsAxisInfoView {
                axis_names: axes.map_values(|a: (Seq<char>, Seq<char>)| a.0),
                axis_directions: axes.map_values(|a: (Seq<char>, Seq<char>)| a.1),
                transform_io_order: transform_io_order(),
                note: if axes.len() == 0 {
                    note_no_axes()
                } else {
                    note_axes()
                },
                error: seq![],
            }
        },
    }
}

/// The axis names and directions a CRS's registry entry declares, in its
/// authority-defined order, beside this package's fixed `x,y` convention.
pub fn get_crs_axis_info(input: CrsQuery) -> (out: CrsAxisInfo)
    ensures
        out@ == spec_get_crs_axis_info(input.crs@),
{
    let (_, def) = match resolve_def(input.crs.as_str()) {
        Ok(v) => v,
        Err(e) => {
            let out = CrsAxisInfo {
                axis_names: Vec::new(),
                axis_directions: Vec::new(),
                transform_io_order: String::new(),
                note: String::new(),
                error: error_string(e),
            };
            assert(out@.axis_names =~= Seq::<Seq<char>>::empty());
            assert(out@.axis_directions =~= Seq::<Seq<char>>::empty());
            return out;
        },
    };
    let axes = wkt_axes(def.wkt);
    let ghost spec_axes = spec_wkt_axes(def.wkt@);
    let mut names: Vec<String> = Vec::new();
    let mut dirs: Vec<String> = Vec::new();
    let mut i: usize = 0;
    while i < axes.len()
        invariant
            axes.len() == spec_axes.len(),
            forall|k: int|
                0 <= k < axes.len() ==> (#[trigger] axes@[k]).0@ == spec_axes[k].0 && axes@[k].1@
                    == spec_axes[k].1,
            i <= axes.len(),
            names.len() == i,
            dirs.len() == i,
            forall|k: int| 0 <= k < i ==> (#[trigger] names@[k])@ == spec_axes[k].0,
            forall|k: int| 0 <= k < i ==> (#[trigger] dirs@[k])@ == spec_axes[k].1,
        decreases axes.len() - i,
    {
        assert(axes@[i as int].0@ == spec_axes[i as int].0);
        names.push(axes[i].0.clone());
        dirs.push(axes[i].1.clone());
        i = i + 1;
    }
    let note = if axes.len() == 0 {
        "This CRS's registry entry states no explicit AXIS clause.".to_owned()
    } else {
        "axis_names/axis_directions are this CRS's own authority-defined order; every crs-tools transform node always takes/returns transform_io_order regardless.".to_owned()
    };
    let out = CrsAxisInfo {
        axis_names: names,
        axis_directions: dirs,
        transform_io_order: "x,y = longitude/easting, latitude/northing".to_owned(),
        note,
        error: String::new(),
    };
    assert(out@.axis_names =~= spec_axes.map_values(|a: (Seq<char>, Seq<char>)| a.0));
    assert(out@.axis_directions =~= spec_axes.map_values(|a: (Seq<char>, Seq<char>)| a.1));
    out
}


// ---------------------------------------------------------------------
// ValidateCRS
// ---------------------------------------------------------------------

pub open spec fn invalid_view(e: CrsError) -> CrsValidationView {
    CrsValidationView { valid: false, epsg_code: seq![], name: seq![], reason: error_code(e) }
}

pub open spec fn valid_proj_string_view() -> CrsValidationView {
    CrsValidationView { valid: true, epsg_code: seq![], name: seq![], reason: seq![] }
}

/// The trimmed identifier is a raw PROJ4 string.
pub open spec fn is_proj_string(crs: Seq<char>) -> bool {
    trim_ws(crs).len() > 0 && trim_ws(crs)[0] == '+'
}

/// The validation of an identifier that is not a raw PROJ4 string.
pub open spec fn spec_validate_registry(crs: Seq<char>) -> CrsValidationView {
    match spec_resolve_def(trim_ws(crs)) {
        Ok((code, _, wkt)) => CrsValidationView {
            valid: true,
            epsg_code: epsg_label(code),
            name: spec_wkt_name(wkt),
            reason: seq![],
        },
        Err(e) => invalid_view(e),
    }
}

/// What a validation of `crs` may answer. A raw PROJ4 string too long to
/// accept is invalid with `INPUT_TOO_LARGE`; any other is valid exactly when
/// the projection library builds a projection from it (else `INVALID_CRS`).
/// Every other identifier is valid exactly when it resolves in the registry.
pub open spec fn validation_ok(crs: Seq<char>, v: CrsValidationView) -> bool {
    if is_proj_string(crs) {
        if encode_utf8(trim_ws(crs)).len() > MAX_CRS_LEN {
            v == invalid_view(CrsError::InputTooLarge)
        } else {
            v == valid_proj_string_view() || v == invalid_view(CrsError::InvalidCrs)
        }
    } else {
        v == spec_validate_registry(crs)
    }
}

/// The validation of a raw PROJ4 string, from the outcome of building a
/// projection for it.
pub fn proj_string_validation(built: Result<Projection, CrsError>) -> (out: CrsValidation)
    ensures
        out@ == match built {
            Ok(_) => valid_proj_string_view(),
            Err(e) => invalid_view(e),
        },
{
    match built {
        Ok(_) => CrsValidation {
            valid: true,
            epsg_code: String::new(),
            name: String::new(),
            reason: String::new(),
        },
        Err(e) => CrsValidation {
            valid: false,
            epsg_code: String::new(),
            name: String::new(),
            reason: error_string(e),
        },
    }
}

/// Whether a CRS identifier (EPSG code, PROJ4 string, or EPSG-tagged WKT) is
/// recognized; an unrecognized one gets `valid: false` and a `reason`.
pub fn validate_crs(input: CrsQuery) -> (out: CrsValidation)
    ensures
        validation_ok(input.crs@, out@),
{
    let q = input.crs.as_str().trim();
    proof {
        lemma_trim_ws_idempotent(input.crs@);
    }
    let v = chars_of(q);
    if v.len() > 0 && v[0] == '+' {
        return proj_string_validation(build_proj(q));
    }
    match resolve_def(q) {
        Ok((code, def)) => CrsValidation {
            valid: true,
            epsg_code: epsg_label_exec(code),
            name: wkt_name(def.wkt),
            reason: String::new(),
        },
        Err(e) => CrsValidation {
            valid: false,
            epsg_code: String::new(),
            name: String::new(),
            reason: error_string(e),
        },
    }
}


// ---------------------------------------------------------------------
// GetCRSInfo
// ---------------------------------------------------------------------

pub open spec fn empty_info(error: Seq<char>) -> CrsInfoView {
    CrsInfoView {
        epsg_code: seq![],
        name: seq![],
        crs_type: seq![],
        datum: seq![],
        ellipsoid_name: seq![],
        ellipsoid_semi_major_m: seq![],
        ellipsoid_inverse_flattening: seq![],
        unit: seq![],
        unit_to_meter: seq![],
        area_description: seq![],
        area_south_lat: seq![],
        area_west_lon: seq![],
        area_north_lat: seq![],
        area_east_lon: seq![],
        error,
    }
}

/// Metadata read off a registry WKT: every field from its clause, empty
/// where the clause is missing.
pub open spec fn info_of_wkt(code: u16, wkt: Seq<char>) -> CrsInfoView {
    let e = spec_wkt_ellipsoid_text(wkt);
    let u = spec_wkt_unit_text(wkt);
    let a = spec_wkt_area_of_use_text(wkt);
    CrsInfoView {
        epsg_code: epsg_label(code),
        name: spec_wkt_name(wkt),
        crs_type: spec_wkt_crs_type(wkt),
        datum: spec_wkt_datum(wkt),
        ellipsoid_name: match e { Some(t) => t.0, None => seq![] },
        ellipsoid_semi_major_m: match e { Some(t) => t.1, None => seq![] },
        ellipsoid_inverse_flattening: match e { Some(t) => t.2, None => seq![] },
        unit: match u { Some(t) => t.0, None => seq![] },
        unit_to_meter: match u { Some(t) => t.1, None => seq![] },
        area_description: match a { Some(t) => t.0, None => seq![] },
        area_south_lat: match a { Some(t) => t.1[0], None => seq![] },
        area_west_lon: match a { Some(t) => t.1[1], None => seq![] },
        area_north_lat: match a { Some(t) => t.1[2], None => seq![] },
        area_east_lon: match a { Some(t) => t.1[3], None => seq![] },
        error: seq![],
    }
}

pub open spec fn spec_get_crs_info(crs: Seq<char>) -> CrsInfoView {
    match spec_resolve_def(crs) {
        Err(e) => empty_info(error_code(e)),
        Ok((code, _, wkt)) => info_of_wkt(code, wkt),
    }
}

/// Structured metadata of a CRS from its registry WKT: name, type
/// (geographic/projected), datum, ellipsoid, unit, and area of use.
pub fn get_crs_info(input: CrsQuery) -> (out: CrsInfo)
    ensures
        out@ == spec_get_crs_info(input.crs@),
{
    let (code, def) = match resolve_def(input.crs.as_str()) {
        Ok(v) => v,
        Err(e) => {
            return CrsInfo {
                epsg_code: String::new(),
                name: String::new(),
                crs_type: String::new(),
                datum: String::new(),
                ellipsoid_name: String::new(),
                ellipsoid_semi_major_m: String::new(),
                ellipsoid_inverse_flattening: String::new(),
                unit: String::new(),
                unit_to_meter: String::new(),
                area_description: String::new(),
                area_south_lat: String::new(),
                area_west_lon: String::new(),
                area_north_lat: String::new(),
                area_east_lon: String::new(),
                error: error_string(e),
            };
        },
    };
    let wkt = def.wkt;
    let (ellipsoid_name, ellipsoid_semi_major_m, ellipsoid_inverse_flattening) = match
        wkt_ellipsoid_text(wkt) {
        Some(t) => t,
        None => (String::new(), String::new(), String::new()),
    };
    let (unit, unit_to_meter) = match wkt_unit_text(wkt) {
        Some(t) => t,
        None => (String::new(), String::new()),
    };
    let (area_description, area_south_lat, area_west_lon, area_north_lat, area_east_lon) =
        match wkt_area_of_use_text(wkt) {
        Some((d, nums)) => {
            let ghost area = spec_wkt_area_of_use_text(wkt@).unwrap();
            let ghost bounds = area.1;
            assert(nums@[0]@ == bounds[0]);
            assert(nums@[1]@ == bounds[1]);
            assert(nums@[2]@ == bounds[2]);
            assert(nums@[3]@ == bounds[3]);
            (d, nums[0].clone(), nums[1].clone(), nums[2].clone(), nums[3].clone())
        },
        None => (String::new(), String::new(), String::new(), String::new(), String::new()),
    };
    CrsInfo {
        epsg_code: epsg_label_exec(code),
        name: wkt_name(wkt),
        crs_type: wkt_crs_type(wkt).to_owned(),
        datum: wkt_datum(wkt),
        ellipsoid_name,
        ellipsoid_semi_major_m,
        ellipsoid_inverse_flattening,
        unit,
        unit_to_meter,
        area_description,
        area_south_lat,
        area_west_lon,
        area_north_lat,
        area_east_lon,
        error: String::new(),
    }
}

// ---------------------------------------------------------------------
// GetUTMZone (the part after the zone band is known)
// ---------------------------------------------------------------------

/// The UTM zone of a point in the 6-degree longitude band `band`
/// (`floor((lon + 180) / 6)`), clamped to `1..=60`.
pub open spec fn utm_zone_number(band: int) -> int {
    if band + 1 < 1 {
        1
    } else if band + 1 > 60 {
        60
    } else {
        band + 1
    }
}

/// The WGS-84 / UTM EPSG code: `326zz` north of the equator, `327zz` south.
pub open spec fn utm_epsg_code(zone: int, north: bool) -> u16 {
    if north {
        (32600 + zone) as u16
    } else {
        (32700 + zone) as u16
    }
}

pub open spec fn spec_utm_zone_info(band: int, north: bool) -> UtmZoneInfoView {
    let zone = utm_zone_number(band);
    let code = utm_epsg_code(zone, north);
    let hemisphere = if north {
        "N"@
    } else {
        "S"@
    };
    match registry_entry(code) {
        Some((_, wkt)) => UtmZoneInfoView {
            zone_number: zone,
            hemisphere,
            epsg_code: epsg_label(code),
            crs_name: spec_wkt_name(wkt),
            error: seq![],
        },
        None => UtmZoneInfoView {
            zone_number: zone,
            hemisphere,
            epsg_code: seq![],
            crs_name: seq![],
            error: error_code(CrsError::UnknownEpsgCode),
        },
    }
}

/// The UTM zone, hemisphere and EPSG code for a point in longitude band
/// `band` and on the side of the equator that `north` gives, cross-checked
/// against the registry.
pub fn utm_zone_info(band: i32, north: bool) -> (out: UtmZoneInfo)
    ensures
        out@ == spec_utm_zone_info(band as int, north),
{
    let zone: i32 = if band < 0 {
        1
    } else if band >= 60 {
        60
    } else {
        band + 1
    };
    let hemisphere = if north {
        "N"
    } else {
        "S"
    };
    let code: u16 = if north {
        32600 + zone as u16
    } else {
        32700 + zone as u16
    };
    match registry_lookup(code) {
        Some(def) => UtmZoneInfo {
            zone_number: zone,
            hemisphere: hemisphere.to_owned(),
            epsg_code: epsg_label_exec(code),
            crs_name: wkt_name(def.wkt),
            error: String::new(),
        },
        None => UtmZoneInfo {
            zone_number: zone,
            hemisphere: hemisphere.to_owned(),
            epsg_code: String::new(),
            crs_name: String::new(),
            error: error_string(CrsError::UnknownEpsgCode),
        },
    }
}

} // verus!
