//! Fast in-memory transposition, rotation and mirroring of 2D pixel
//! buffers with 1 to 4 interleaved channels, with every operation proved
//! against an explicit index model.
//!
//! A buffer is a flat slice of elements together with a `stride` (elements
//! per row), a `width` and a `height` in pixels.  The transposing entry
//! points rotate the image a quarter turn clockwise by default; their
//! `FlipMode` and `FlopMode` flags select the other quarter-turn
//! orientations.  The mirroring entry points reverse rows (`flip_*`),
//! columns (`flop_*`) or both (`rotate180_*`) while keeping dimensions.

pub mod geometry;
pub mod laws;

mod block;
mod common;
mod driver;
mod engine;
mod flip;
mod flop;
mod rotate180;
mod tile;
mod unsigned_16;
mod unsigned_8;
mod utils;

pub use driver::transpose_chunked_dims_ok;
pub use engine::transpose_arbitrary;
pub use engine::transpose_arbitrary_dims_ok;
pub use engine::transpose_arbitrary_grouped;
pub use engine::transpose_grouped_dims_ok;
pub use flip::flip_arbitrary;
pub use flip::flip_dims_ok;
pub use flip::flip_plane;
pub use flip::flip_plane16;
pub use flip::flip_plane16_with_alpha;
pub use flip::flip_plane_with_alpha;
pub use flip::flip_rgb;
pub use flip::flip_rgb16;
pub use flip::flip_rgba;
pub use flip::flip_rgba16;
pub use flop::flop_arbitrary;
pub use flop::flop_dims_ok;
pub use flop::flop_plane;
pub use flop::flop_plane16;
pub use flop::flop_plane16_with_alpha;
pub use flop::flop_plane_with_alpha;
pub use flop::flop_rgb;
pub use flop::flop_rgb16;
pub use flop::flop_rgba;
pub use flop::flop_rgba16;
pub use rotate180::rotate180_arbitrary;
pub use rotate180::rotate180_dims_ok;
pub use rotate180::rotate180_plane;
pub use rotate180::rotate180_plane16;
pub use rotate180::rotate180_plane16_with_alpha;
pub use rotate180::rotate180_plane_with_alpha;
pub use rotate180::rotate180_rgb;
pub use rotate180::rotate180_rgb16;
pub use rotate180::rotate180_rgba;
pub use rotate180::rotate180_rgba16;
pub use tile::transpose_tile;
pub use unsigned_16::transpose_plane16;
pub use unsigned_16::transpose_plane16_with_alpha;
pub use unsigned_16::transpose_rgb16;
pub use unsigned_16::transpose_rgba16;
pub use unsigned_8::transpose_plane;
pub use unsigned_8::transpose_plane_with_alpha;
pub use unsigned_8::transpose_rgb;
pub use unsigned_8::transpose_rgba;
pub use utils::FlipMode;
pub use utils::FlopMode;
pub use utils::TransposeError;
