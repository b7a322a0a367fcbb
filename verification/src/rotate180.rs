//! Half-turn rotation: destination row `height - 1 - y`, column
//! `width - 1 - x` receives source pixel `(x, y)`; dimensions are kept.

use crate::block::transpose_block;
use crate::geometry::rotate180_map;
use crate::geometry::op_contract;
use crate::utils::len_is_product;
use crate::utils::stride_covers;
use crate::utils::TransposeError;
use vstd::prelude::*;

verus! {

/// What the validation of these entry points accepts: equally long
/// buffers whose lengths agree with the strides and whose strides hold a
/// whole row of `cn`-element pixels.
pub open spec fn rotate180_dims_ok(
    in_len: int,
    out_len: int,
    input_stride: int,
    output_stride: int,
    width: int,
    height: int,
    cn: int,
) -> bool {
    &&& in_len == out_len
    &&& in_len == input_stride * height
    &&& out_len == output_stride * height
    &&& input_stride >= width * cn
    &&& output_stride >= width * cn
}

/// Performs an arbitrary half-turn rotation of single-element pixels.
///
/// Rejects with [`TransposeError::MismatchDimensions`] exactly when the
/// buffer lengths and strides disagree with the dimensions; on success
/// both the rows and the pixels within each row are written in reverse
/// order and destination
/// elements outside the written image keep their values.
pub fn rotate180_arbitrary<V: Copy>(
    input: &[V],
    input_stride: usize,
    output: &mut [V],
    output_stride: usize,
    width: usize,
    height: usize,
) -> (r: Result<(), TransposeError>)
    ensures
        op_contract(
            r,
            input@,
            old(output)@,
            final(output)@,
            rotate180_map(
                input_stride as int,
                output_stride as int,
                width as int,
                height as int,
                1,
            ),
            rotate180_dims_ok(
                input@.len() as int,
                old(output)@.len() as int,
                input_stride as int,
                output_stride as int,
                width as int,
                height as int,
                1,
            ),
        ),
{
    rotate180_arbitrary_grouped::<V, 1>(input, input_stride, output, output_stride, width, height)
}

/// Performs a half-turn rotation of `N`-element pixels; the shared body of
/// every half-turn entry point.
fn rotate180_arbitrary_grouped<V: Copy, const N: usize>(
    input: &[V],
    input_stride: usize,
    output: &mut [V],
    output_stride: usize,
    width: usize,
    height: usize,
) -> (r: Result<(), TransposeError>)
    requires
        N >= 1,
    ensures
        op_contract(
            r,
            input@,
            old(output)@,
            final(output)@,
            rotate180_map(
                input_stride as int,
                output_stride as int,
                width as int,
                height as int,
                N as int,
            ),
            rotate180_dims_ok(
                input@.len() as int,
                old(output)@.len() as int,
                input_stride as int,
                output_stride as int,
                width as int,
                height as int,
                N as int,
            ),
        ),
{
    if input.len() != output.len() {
        return Err(TransposeError::MismatchDimensions);
    }
    if !len_is_product(input.len(), input_stride, height) {
        return Err(TransposeError::MismatchDimensions);
    }
    if !len_is_product(output.len(), output_stride, height) {
        return Err(TransposeError::MismatchDimensions);
    }
    if !stride_covers(input_stride, width, N) {
        return Err(TransposeError::MismatchDimensions);
    }
    if !stride_covers(output_stride, width, N) {
        return Err(TransposeError::MismatchDimensions);
    }

    transpose_block(
        input,
        input_stride,
        output,
        output_stride,
        width,
        height,
        N,
        false,
        true,
        true,
        0,
        0,
        width,
        height,
    );
    Ok(())
}

/// Performs plane image half-turn rotation.
pub fn rotate180_plane(
    input: &[u8],
    input_stride: usize,
    output: &mut [u8],
    output_stride: usize,
    width: usize,
    height: usize,
) -> (r: Result<(), TransposeError>)
    ensures
        op_contract(
            r,
            input@,
            old(output)@,
            final(output)@,
            rotate180_map(
                input_stride as int,
                output_stride as int,
                width as int,
                height as int,
                1,
            ),
            rotate180_dims_ok(
                input@.len() as int,
                old(output)@.len() as int,
                input_stride as int,
                output_stride as int,
                width as int,
                height as int,
                1,
            ),
        ),
{
    rotate180_arbitrary(input, input_stride, output, output_stride, width, height)
}

/// Performs plane with alpha image half-turn rotation.
pub fn rotate180_plane_with_alpha(
    input: &[u8],
    input_stride: usize,
    output: &mut [u8],
    output_stride: usize,
    width: usize,
    height: usize,
) -> (r: Result<(), TransposeError>)
    ensures
        op_contract(
            r,
            input@,
            old(output)@,
            final(output)@,
            rotate180_map(
                input_stride as int,
                output_stride as int,
                width as int,
                height as int,
                2,
            ),
            rotate180_dims_ok(
                input@.len() as int,
                old(output)@.len() as int,
                input_stride as int,
                output_stride as int,
                width as int,
                height as int,
                2,
            ),
        ),
{
    rotate180_arbitrary_grouped::<u8, 2>(input, input_stride, output, output_stride, width, height)
}

/// Performs RGB image half-turn rotation.
pub fn rotate180_rgb(
    input: &[u8],
    input_stride: usize,
    output: &mut [u8],
    output_stride: usize,
    width: usize,
    height: usize,
) -> (r: Result<(), TransposeError>)
    ensures
        op_contract(
            r,
            input@,
            old(output)@,
            final(output)@,
            rotate180_map(
                input_stride as int,
                output_stride as int,
                width as int,
                height as int,
                3,
            ),
            rotate180_dims_ok(
                input@.len() as int,
                old(output)@.len() as int,
                input_stride as int,
                output_stride as int,
                width as int,
                height as int,
                3,
            ),
        ),
{
    rotate180_arbitrary_grouped::<u8, 3>(input, input_stride, output, output_stride, width, height)
}

/// Performs RGBA image half-turn rotation.
pub fn rotate180_rgba(
    input: &[u8],
    input_stride: usize,
    output: &mut [u8],
    output_stride: usize,
    width: usize,
    height: usize,
) -> (r: Result<(), TransposeError>)
    ensures
        op_contract(
            r,
            input@,
            old(output)@,
            final(output)@,
            rotate180_map(
                input_stride as int,
                output_stride as int,
                width as int,
                height as int,
                4,
            ),
            rotate180_dims_ok(
                input@.len() as int,
                old(output)@.len() as int,
                input_stride as int,
                output_stride as int,
                width as int,
                height as int,
                4,
            ),
        ),
{
    rotate180_arbitrary_grouped::<u8, 4>(input, input_stride, output, output_stride, width, height)
}

/// Performs plane image half-turn rotation on 16-bit samples.
pub fn rotate180_plane16(
    input: &[u16],
    input_stride: usize,
    output: &mut [u16],
    output_stride: usize,
    width: usize,
    height: usize,
) -> (r: Result<(), TransposeError>)
    ensures
        op_contract(
            r,
            input@,
            old(output)@,
            final(output)@,
            rotate180_map(
                input_stride as int,
                output_stride as int,
                width as int,
                height as int,
                1,
            ),
            rotate180_dims_ok(
                input@.len() as int,
                old(output)@.len() as int,
                input_stride as int,
                output_stride as int,
                width as int,
                height as int,
                1,
            ),
        ),
{
    rotate180_arbitrary(input, input_stride, output, output_stride, width, height)
}

/// Performs plane with alpha image half-turn rotation on 16-bit samples.
pub fn rotate180_plane16_with_alpha(
    input: &[u16],
    input_stride: usize,
    output: &mut [u16],
    output_stride: usize,
    width: usize,
    height: usize,
) -> (r: Result<(), TransposeError>)
    ensures
        op_contract(
            r,
            input@,
            old(output)@,
            final(output)@,
            rotate180_map(
                input_stride as int,
                output_stride as int,
                width as int,
                height as int,
                2,
            ),
            rotate180_dims_ok(
                input@.len() as int,
                old(output)@.len() as int,
                input_stride as int,
                output_stride as int,
                width as int,
                height as int,
                2,
            ),
        ),
{
    rotate180_arbitrary_grouped::<u16, 2>(input, input_stride, output, output_stride, width, height)
}

/// Performs RGB image half-turn rotation on 16-bit samples.
pub fn rotate180_rgb16(
    input: &[u16],
    input_stride: usize,
    output: &mut [u16],
    output_stride: usize,
    width: usize,
    height: usize,
) -> (r: Result<(), TransposeError>)
    ensures
        op_contract(
            r,
            input@,
            old(output)@,
            final(output)@,
            rotate180_map(
                input_stride as int,
                output_stride as int,
                width as int,
                height as int,
                3,
            ),
            rotate180_dims_ok(
                input@.len() as int,
                old(output)@.len() as int,
                input_stride as int,
                output_stride as int,
                width as int,
                height as int,
                3,
            ),
        ),
{
    rotate180_arbitrary_grouped::<u16, 3>(input, input_stride, output, output_stride, width, height)
}

/// Performs RGBA image half-turn rotation on 16-bit samples.
pub fn rotate180_rgba16(
    input: &[u16],
    input_stride: usize,
    output: &mut [u16],
    output_stride: usize,
    width: usize,
    height: usize,
) -> (r: Result<(), TransposeError>)
    ensures
        op_contract(
            r,
            input@,
            old(output)@,
            final(output)@,
            rotate180_map(
                input_stride as int,
                output_stride as int,
                width as int,
                height as int,
                4,
            ),
            rotate180_dims_ok(
                input@.len() as int,
                old(output)@.len() as int,
                input_stride as int,
                output_stride as int,
                width as int,
                height as int,
                4,
            ),
        ),
{
    rotate180_arbitrary_grouped::<u16, 4>(input, input_stride, output, output_stride, width, height)
}

} // verus!
