//! Typed model of a tile metadata manifest: the endpoints of a tile source,
//! its coordinate bounds, default center, zoom range and vector layer schema.
//!
//! Coordinates are held as the IEEE 754 binary64 encoding of their value
//! (see [`Coord`]), so that the arithmetic on bounds is stated and proved
//! exactly over those encodings.

mod bounds;
mod center;
mod coord;
mod text;
mod tilejson;
mod vector_layer;

pub use crate::bounds::{Bounds, ParseBoundsError};
pub use crate::center::{delimited_center, Center, ParseCenterError};
pub use crate::coord::Coord;
pub use crate::text::delimited_fields;
pub use crate::tilejson::TileJSON;
pub use crate::vector_layer::VectorLayer;
