//! Coordinate-reference-system identifier resolution and registry metadata:
//! reading EPSG codes out of identifiers, resolving them in the bundled
//! registry, building projections, and extracting WKT fields.

pub mod text;
pub mod charclass;
pub mod scan;
pub mod registry;
pub mod epsg;
pub mod proj;
pub mod wkt;
pub mod messages;
pub mod nodes;
pub mod laws;
