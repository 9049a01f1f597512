//! MapLibre style definitions, as far as vector-tile styling reads them.
pub mod layer;
