//! Transposition entry points for 8-bit samples.

use crate::driver::transpose_cbcr8_chunked;
use crate::driver::transpose_chunked_dims_ok;
use crate::driver::transpose_plane8_chunked;
use crate::driver::transpose_quad_chunked;
use crate::engine::transpose_arbitrary_grouped;
use crate::engine::transpose_grouped_dims_ok;
use crate::geometry::op_contract;
use crate::geometry::transpose_map;
use crate::utils::FlipMode;
use crate::utils::FlopMode;
use crate::utils::TransposeError;
use vstd::prelude::*;

verus! {

/// Transposes a single-channel (grayscale) image.
///
/// Rejects with [`TransposeError::MismatchDimensions`] exactly when the
/// buffer lengths and strides disagree with the dimensions; on success
/// the image is rotated a quarter turn clockwise, reoriented by the two
/// mode flags, and destination elements outside the written image keep
/// their values.
#[allow(clippy::too_many_arguments)]
pub fn transpose_plane(
    input: &[u8],
    input_stride: usize,
    output: &mut [u8],
    output_stride: usize,
    width: usize,
    height: usize,
    flip_mode: FlipMode,
    flop_mode: FlopMode,
) -> (r: Result<(), TransposeError>)
    ensures
        op_contract(
            r,
            input@,
            old(output)@,
            final(output)@,
            transpose_map(
                input_stride as int,
                output_stride as int,
                width as int,
                height as int,
                1,
                flip_mode is Flip,
                flop_mode is Flop,
            ),
            transpose_chunked_dims_ok(
                input@.len() as int,
                old(output)@.len() as int,
                input_stride as int,
                output_stride as int,
                width as int,
                height as int,
                1,
            ),
        ),
{
    transpose_plane8_chunked(
        input,
        input_stride,
        output,
        output_stride,
        width,
        height,
        flip_mode,
        flop_mode,
    )
}

/// Transposes a two-channel image (grayscale with alpha).
///
/// Rejects with [`TransposeError::MismatchDimensions`] exactly when the
/// buffer lengths and strides disagree with the dimensions; on success
/// the image is rotated a quarter turn clockwise, reoriented by the two
/// mode flags, and destination elements outside the written image keep
/// their values.
#[allow(clippy::too_many_arguments)]
pub fn transpose_plane_with_alpha(
    input: &[u8],
    input_stride: usize,
    output: &mut [u8],
    output_stride: usize,
    width: usize,
    height: usize,
    flip_mode: FlipMode,
    flop_mode: FlopMode,
) -> (r: Result<(), TransposeError>)
    ensures
        op_contract(
            r,
            input@,
            old(output)@,
            final(output)@,
            transpose_map(
                input_stride as int,
                output_stride as int,
                width as int,
                height as int,
                2,
                flip_mode is Flip,
                flop_mode is Flop,
            ),
            transpose_chunked_dims_ok(
                input@.len() as int,
                old(output)@.len() as int,
                input_stride as int,
                output_stride as int,
                width as int,
                height as int,
                2,
            ),
        ),
{
    transpose_cbcr8_chunked(
        input,
        input_stride,
        output,
        output_stride,
        width,
        height,
        flip_mode,
        flop_mode,
    )
}

/// Transposes an RGB image.
///
/// Rejects with [`TransposeError::MismatchDimensions`] exactly when the
/// buffer lengths and strides disagree with the dimensions; on success
/// the image is rotated a quarter turn clockwise, reoriented by the two
/// mode flags, and destination elements outside the written image keep
/// their values.
#[allow(clippy::too_many_arguments)]
pub fn transpose_rgb(
    input: &[u8],
    input_stride: usize,
    output: &mut [u8],
    output_stride: usize,
    width: usize,
    height: usize,
    flip_mode: FlipMode,
    flop_mode: FlopMode,
) -> (r: Result<(), TransposeError>)
    ensures
        op_contract(
            r,
            input@,
            old(output)@,
            final(output)@,
            transpose_map(
                input_stride as int,
                output_stride as int,
                width as int,
                height as int,
                3,
                flip_mode is Flip,
                flop_mode is Flop,
            ),
            transpose_grouped_dims_ok(
                input@.len() as int,
                old(output)@.len() as int,
                input_stride as int,
                output_stride as int,
                width as int,
                height as int,
                3,
            ),
        ),
{
    transpose_arbitrary_grouped::<u8, 3>(
        input,
        input_stride,
        output,
        output_stride,
        width,
        height,
        flip_mode,
        flop_mode,
    )
}

/// Transposes an RGBA image.
///
/// Rejects with [`TransposeError::MismatchDimensions`] exactly when the
/// buffer lengths and strides disagree with the dimensions; on success
/// the image is rotated a quarter turn clockwise, reoriented by the two
/// mode flags, and destination elements outside the written image keep
/// their values.
#[allow(clippy::too_many_arguments)]
pub fn transpose_rgba(
    input: &[u8],
    input_stride: usize,
    output: &mut [u8],
    output_stride: usize,
    width: usize,
    height: usize,
    flip_mode: FlipMode,
    flop_mode: FlopMode,
) -> (r: Result<(), TransposeError>)
    ensures
        op_contract(
            r,
            input@,
            old(output)@,
            final(output)@,
            transpose_map(
                input_stride as int,
                output_stride as int,
                width as int,
                height as int,
                4,
                flip_mode is Flip,
                flop_mode is Flop,
            ),
            transpose_chunked_dims_ok(
                input@.len() as int,
                old(output)@.len() as int,
                input_stride as int,
                output_stride as int,
                width as int,
                height as int,
                4,
            ),
        ),
{
    transpose_quad_chunked::<u8>(
        input,
        input_stride,
        output,
        output_stride,
        width,
        height,
        flip_mode,
        flop_mode,
    )
}

} // verus!
