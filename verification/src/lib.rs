//! Vector-tile styling from MapLibre style layers: which layers become style
//! rules and how, which layer gives the tile background, and which URL serves a tile.
pub mod layer;
pub mod style;
pub mod text;
