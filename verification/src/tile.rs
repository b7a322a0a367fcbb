//! The fixed-size tile kernel: transposes a `size` x `size` square of
//! `cn`-element pixels held at the start of each buffer.
//!
//! This is the scalar reference for register-blocked tile kernels: without
//! the flags destination row `r` is source column `r`; `FlipMode::Flip`
//! reverses the placement of the destination rows and `FlopMode::Flop`
//! reverses the pixel order within each destination row.  Like a register
//! kernel it does not validate: the caller supplies buffers that hold
//! `size` rows at each stride.

use crate::block::transpose_block;
use crate::geometry::tile_map;
use crate::utils::FlipMode;
use crate::utils::FlopMode;
use vstd::prelude::*;

verus! {

/// Transposes one `size` x `size` tile of `cn`-element pixels from the
/// start of `src` to the start of `dst`; destination elements outside the
/// tile keep their values.
pub fn transpose_tile<V: Copy>(
    src: &[V],
    src_stride: usize,
    dst: &mut [V],
    dst_stride: usize,
    size: usize,
    cn: usize,
    flip_mode: FlipMode,
    flop_mode: FlopMode,
)
    requires
        tile_map(
            src_stride as int,
            dst_stride as int,
            size as int,
            cn as int,
            flip_mode is Flip,
            flop_mode is Flop,
        ).valid(),
        tile_map(
            src_stride as int,
            dst_stride as int,
            size as int,
            cn as int,
            flip_mode is Flip,
            flop_mode is Flop,
        ).buffers_cover(src@.len() as int, old(dst)@.len() as int),
    ensures
        tile_map(
            src_stride as int,
            dst_stride as int,
            size as int,
            cn as int,
            flip_mode is Flip,
            flop_mode is Flop,
        ).image_mapped(src@, final(dst)@),
        tile_map(
            src_stride as int,
            dst_stride as int,
            size as int,
            cn as int,
            flip_mode is Flip,
            flop_mode is Flop,
        ).unchanged_outside(old(dst)@, final(dst)@, 0, size as int, 0, size as int),
{
    let flip = matches!(flip_mode, FlipMode::Flip);
    let flop = matches!(flop_mode, FlopMode::Flop);
    transpose_block(src, src_stride, dst, dst_stride, size, size, cn, true, flip, flop, 0, 0, size, size);
}

} // verus!
