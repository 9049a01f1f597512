//! Map layers built from a MapLibre style.
pub mod fonts;
pub mod vector_tile;
