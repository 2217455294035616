//! The navigational core of an interactive map: where the map is centred, how
//! far it is zoomed in, how gestures change both, and how positions relate to
//! pixels on the screen.
//!
//! All coordinates are fixed-point integers; see `units` for positions and
//! pixels and `zoom` for zoom levels and scales.

pub mod center;
pub mod fixed;
pub mod gestures;
pub mod map_memory;
pub mod maps;
pub mod projector;
pub mod sources;
pub mod tiles;
pub mod units;
pub mod zoom;

pub use center::Center;
pub use gestures::{GestureInput, GestureSettings};
pub use map_memory::MapMemory;
pub use maps::{GlobalMap, LocalMap, Maps};
pub use projector::{Projector, ProjectorType, Rect};
pub use tiles::TileId;
pub use units::{AdjustedPosition, Pixel, Position};
pub use zoom::{total_pixels, InvalidZoom, Scale, Zoom, TILE_SIZE};
