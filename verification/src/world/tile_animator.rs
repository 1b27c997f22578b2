//! World tiles animate exactly as map tiles do.

pub use crate::tilemap::tile_animator::animate_tiles;
