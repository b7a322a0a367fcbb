//! Transposition entry points for 16-bit samples.

use crate::engine::transpose_arbitrary_grouped;
use crate::engine::transpose_grouped_dims_ok;
use crate::geometry::op_contract;
use crate::geometry::transpose_map;
use crate::utils::FlipMode;
use crate::utils::FlopMode;
use crate::utils::TransposeError;
use vstd::prelude::*;

verus! {

/// Transposes a single-channel (grayscale) 16-bit image.
///
/// Rejects with [`TransposeError::MismatchDimensions`] exactly when the
/// buffer lengths and strides disagree with the dimensions; on success
/// the image is rotated a quarter turn clockwise, reoriented by the two
/// mode flags, and destination elements outside the written image keep
/// their values.
#[allow(clippy::too_many_arguments)]
pub fn transpose_plane16(
    input: &[u16],
    input_stride: usize,
    output: &mut [u16],
    output_stride: usize,
    width: usize,
    height: usize,
    flip_mode: FlipMode,
    flop_mode: FlopMode,
) -> (r: Result<(), TransposeError>)
    ensures
        op_contract(
            r,
            input@,
            old(output)@,
            final(output)@,
            transpose_map(
                input_stride as int,
                output_stride as int,
                width as int,
                height as int,
                1,
                flip_mode is Flip,
                flop_mode is Flop,
            ),
            transpose_grouped_dims_ok(
                input@.len() as int,
                old(output)@.len() as int,
                input_stride as int,
                output_stride as int,
                width as int,
                height as int,
                1,
            ),
        ),
{
    transpose_arbitrary_grouped::<u16, 1>(
        input,
        input_stride,
        output,
        output_stride,
        width,
        height,
        flip_mode,
        flop_mode,
    )
}

/// Transposes a two-channel 16-bit image (grayscale with alpha).
///
/// Rejects with [`TransposeError::MismatchDimensions`] exactly when the
/// buffer lengths and strides disagree with the dimensions; on success
/// the image is rotated a quarter turn clockwise, reoriented by the two
/// mode flags, and destination elements outside the written image keep
/// their values.
#[allow(clippy::too_many_arguments)]
pub fn transpose_plane16_with_alpha(
    input: &[u16],
    input_stride: usize,
    output: &mut [u16],
    output_stride: usize,
    width: usize,
    height: usize,
    flip_mode: FlipMode,
    flop_mode: FlopMode,
) -> (r: Result<(), TransposeError>)
    ensures
        op_contract(
            r,
            input@,
            old(output)@,
            final(output)@,
            transpose_map(
                input_stride as int,
                output_stride as int,
                width as int,
                height as int,
                2,
                flip_mode is Flip,
                flop_mode is Flop,
            ),
            transpose_grouped_dims_ok(
                input@.len() as int,
                old(output)@.len() as int,
                input_stride as int,
                output_stride as int,
                width as int,
                height as int,
                2,
            ),
        ),
{
    transpose_arbitrary_grouped::<u16, 2>(
        input,
        input_stride,
        output,
        output_stride,
        width,
        height,
        flip_mode,
        flop_mode,
    )
}

/// Transposes a 16-bit RGB image.
///
/// Rejects with [`TransposeError::MismatchDimensions`] exactly when the
/// buffer lengths and strides disagree with the dimensions; on success
/// the image is rotated a quarter turn clockwise, reoriented by the two
/// mode flags, and destination elements outside the written image keep
/// their values.
#[allow(clippy::too_many_arguments)]
pub fn transpose_rgb16(
    input: &[u16],
    input_stride: usize,
    output: &mut [u16],
    output_stride: usize,
    width: usize,
    height: usize,
    flip_mode: FlipMode,
    flop_mode: FlopMode,
) -> (r: Result<(), TransposeError>)
    ensures
        op_contract(
            r,
            input@,
            old(output)@,
            final(output)@,
            transpose_map(
                input_stride as int,
                output_stride as int,
                width as int,
                height as int,
                3,
                flip_mode is Flip,
                flop_mode is Flop,
            ),
            transpose_grouped_dims_ok(
                input@.len() as int,
                old(output)@.len() as int,
                input_stride as int,
                output_stride as int,
                width as int,
                height as int,
                3,
            ),
        ),
{
    transpose_arbitrary_grouped::<u16, 3>(
        input,
        input_stride,
        output,
        output_stride,
        width,
        height,
        flip_mode,
        flop_mode,
    )
}

/// Transposes a 16-bit RGBA image.
///
/// Rejects with [`TransposeError::MismatchDimensions`] exactly when the
/// buffer lengths and strides disagree with the dimensions; on success
/// the image is rotated a quarter turn clockwise, reoriented by the two
/// mode flags, and destination elements outside the written image keep
/// their values.
#[allow(clippy::too_many_arguments)]
pub fn transpose_rgba16(
    input: &[u16],
    input_stride: usize,
    output: &mut [u16],
    output_stride: usize,
    width: usize,
    height: usize,
    flip_mode: FlipMode,
    flop_mode: FlopMode,
) -> (r: Result<(), TransposeError>)
    ensures
        op_contract(
            r,
            input@,
            old(output)@,
            final(output)@,
            transpose_map(
                input_stride as int,
                output_stride as int,
                width as int,
                height as int,
                4,
                flip_mode is Flip,
                flop_mode is Flop,
            ),
            transpose_grouped_dims_ok(
                input@.len() as int,
                old(output)@.len() as int,
                input_stride as int,
                output_stride as int,
                width as int,
                height as int,
                4,
            ),
        ),
{
    transpose_arbitrary_grouped::<u16, 4>(
        input,
        input_stride,
        output,
        output_stride,
        width,
        height,
        flip_mode,
        flop_mode,
    )
}

} // verus!
