# crs_tools

Resolution of coordinate-reference-system identifiers and registry metadata,
verified with Verus, around the `crs-definitions` EPSG registry and the
`proj4rs` projection library.

`src/` is the verified library:

- `text` — Unicode white space and trimming, `u16` parsing as `str::parse`
  does it, decimal rendering, UTF-8 lengths.
- `charclass`, `scan` — the character classes and the leftmost-first scanner
  for the WKT tag patterns (`ID["EPSG",n]`, `AUTHORITY["EPSG","n"]`,
  `ELLIPSOID`, `ENSEMBLE`, `DATUM`, `ANGLEUNIT`/`LENGTHUNIT`, `AXIS`, `AREA`,
  `BBOX`).
- `registry` — the lookup in the bundled EPSG registry.
- `epsg` — reading an EPSG code out of an identifier (bare digits,
  `EPSG:nnnn`, or the last EPSG tag of a WKT text) and resolving it.
- `proj` — building projections from identifiers, singly, in pairs and for
  a batch.
- `wkt` — the WKT field extractors (type, name, datum, axes, ellipsoid,
  unit, area of use), numbers kept as their decimal text.
- `messages`, `nodes` — the CRS operations: canonical form, representation,
  axis order, metadata, validation, and the registry side of the UTM zone
  lookup.
- `laws` — properties across the operations, proved.

`app/` holds what computes with `f64` coordinates: the point, batch and
bounding-box transforms, the Web Mercator conversions, the UTM longitude
band, and the float form of the CRS metadata.
