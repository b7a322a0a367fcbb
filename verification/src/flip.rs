//! Vertical mirroring: destination row `height - 1 - y` receives source
//! row `y`, columns are unchanged and dimensions are kept.

use crate::block::transpose_block;
use crate::geometry::flip_map;
use crate::geometry::op_contract;
use crate::utils::len_is_product;
use crate::utils::stride_covers;
use crate::utils::TransposeError;
use vstd::prelude::*;

verus! {

/// What the validation of the flipping entry points accepts: buffer
/// lengths that agree with the strides and strides that hold a whole row
/// of `cn`-element pixels.
pub open spec fn flip_dims_ok(
    in_len: int,
    out_len: int,
    input_stride: int,
    output_stride: int,
    width: int,
    height: int,
    cn: int,
) -> bool {
    &&& in_len == input_stride * height
    &&& out_len == output_stride * height
    &&& input_stride >= width * cn
    &&& output_stride >= width * cn
}

/// Performs arbitrary flipping of single-element pixels.
///
/// Rejects with [`TransposeError::MismatchDimensions`] exactly when the
/// buffer lengths and strides disagree with the dimensions; on success
/// the rows of the image are written in reverse order and destination
/// elements outside the written image keep their values.
pub fn flip_arbitrary<V: Copy>(
    input: &[V],
    input_stride: usize,
    output: &mut [V],
    output_stride: usize,
    width: usize,
    height: usize,
) -> (r: Result<(), TransposeError>)
    ensures
        op_contract(
            r,
            input@,
            old(output)@,
            final(output)@,
            flip_map(
                input_stride as int,
                output_stride as int,
                width as int,
                height as int,
                1,
            ),
            flip_dims_ok(
                input@.len() as int,
                old(output)@.len() as int,
                input_stride as int,
                output_stride as int,
                width as int,
                height as int,
                1,
            ),
        ),
{
    flip_arbitrary_image::<V, 1>(input, input_stride, output, output_stride, width, height)
}

/// Performs arbitrary flipping of `N`-element pixels; the shared body of
/// every flipping entry point.
fn flip_arbitrary_image<V: Copy, const N: usize>(
    input: &[V],
    input_stride: usize,
    output: &mut [V],
    output_stride: usize,
    width: usize,
    height: usize,
) -> (r: Result<(), TransposeError>)
    requires
        N >= 1,
    ensures
        op_contract(
            r,
            input@,
            old(output)@,
            final(output)@,
            flip_map(
                input_stride as int,
                output_stride as int,
                width as int,
                height as int,
                N as int,
            ),
            flip_dims_ok(
                input@.len() as int,
                old(output)@.len() as int,
                input_stride as int,
                output_stride as int,
                width as int,
                height as int,
                N as int,
            ),
        ),
{
    if !len_is_product(input.len(), input_stride, height) {
        return Err(TransposeError::MismatchDimensions);
    }
    if !len_is_product(output.len(), output_stride, height) {
        return Err(TransposeError::MismatchDimensions);
    }
    if !stride_covers(input_stride, width, N) {
        return Err(TransposeError::MismatchDimensions);
    }
    if !stride_covers(output_stride, width, N) {
        return Err(TransposeError::MismatchDimensions);
    }

    transpose_block(
        input,
        input_stride,
        output,
        output_stride,
        width,
        height,
        N,
        false,
        false,
        true,
        0,
        0,
        width,
        height,
    );
    Ok(())
}

/// Performs plane image flipping.
pub fn flip_plane(
    input: &[u8],
    input_stride: usize,
    output: &mut [u8],
    output_stride: usize,
    width: usize,
    height: usize,
) -> (r: Result<(), TransposeError>)
    ensures
        op_contract(
            r,
            input@,
            old(output)@,
            final(output)@,
            flip_map(
                input_stride as int,
                output_stride as int,
                width as int,
                height as int,
                1,
            ),
            flip_dims_ok(
                input@.len() as int,
                old(output)@.len() as int,
                input_stride as int,
                output_stride as int,
                width as int,
                height as int,
                1,
            ),
        ),
{
    flip_arbitrary(input, input_stride, output, output_stride, width, height)
}

/// Performs plane with alpha image flipping.
pub fn flip_plane_with_alpha(
    input: &[u8],
    input_stride: usize,
    output: &mut [u8],
    output_stride: usize,
    width: usize,
    height: usize,
) -> (r: Result<(), TransposeError>)
    ensures
        op_contract(
            r,
            input@,
            old(output)@,
            final(output)@,
            flip_map(
                input_stride as int,
                output_stride as int,
                width as int,
                height as int,
                2,
            ),
            flip_dims_ok(
                input@.len() as int,
                old(output)@.len() as int,
                input_stride as int,
                output_stride as int,
                width as int,
                height as int,
                2,
            ),
        ),
{
    flip_arbitrary_image::<u8, 2>(input, input_stride, output, output_stride, width, height)
}

/// Performs RGB image flipping.
pub fn flip_rgb(
    input: &[u8],
    input_stride: usize,
    output: &mut [u8],
    output_stride: usize,
    width: usize,
    height: usize,
) -> (r: Result<(), TransposeError>)
    ensures
        op_contract(
            r,
            input@,
            old(output)@,
            final(output)@,
            flip_map(
                input_stride as int,
                output_stride as int,
                width as int,
                height as int,
                3,
            ),
            flip_dims_ok(
                input@.len() as int,
                old(output)@.len() as int,
                input_stride as int,
                output_stride as int,
                width as int,
                height as int,
                3,
            ),
        ),
{
    flip_arbitrary_image::<u8, 3>(input, input_stride, output, output_stride, width, height)
}

/// Performs RGBA image flipping.
pub fn flip_rgba(
    input: &[u8],
    input_stride: usize,
    output: &mut [u8],
    output_stride: usize,
    width: usize,
    height: usize,
) -> (r: Result<(), TransposeError>)
    ensures
        op_contract(
            r,
            input@,
            old(output)@,
            final(output)@,
            flip_map(
                input_stride as int,
                output_stride as int,
                width as int,
                height as int,
                4,
            ),
            flip_dims_ok(
                input@.len() as int,
                old(output)@.len() as int,
                input_stride as int,
                output_stride as int,
                width as int,
                height as int,
                4,
            ),
        ),
{
    flip_arbitrary_image::<u8, 4>(input, input_stride, output, output_stride, width, height)
}

/// Performs plane image flipping on 16-bit samples.
pub fn flip_plane16(
    input: &[u16],
    input_stride: usize,
    output: &mut [u16],
    output_stride: usize,
    width: usize,
    height: usize,
) -> (r: Result<(), TransposeError>)
    ensures
        op_contract(
            r,
            input@,
            old(output)@,
            final(output)@,
            flip_map(
                input_stride as int,
                output_stride as int,
                width as int,
                height as int,
                1,
            ),
            flip_dims_ok(
                input@.len() as int,
                old(output)@.len() as int,
                input_stride as int,
                output_stride as int,
                width as int,
                height as int,
                1,
            ),
        ),
{
    flip_arbitrary(input, input_stride, output, output_stride, width, height)
}

/// Performs plane with alpha image flipping on 16-bit samples.
pub fn flip_plane16_with_alpha(
    input: &[u16],
    input_stride: usize,
    output: &mut [u16],
    output_stride: usize,
    width: usize,
    height: usize,
) -> (r: Result<(), TransposeError>)
    ensures
        op_contract(
            r,
            input@,
            old(output)@,
            final(output)@,
            flip_map(
                input_stride as int,
                output_stride as int,
                width as int,
                height as int,
                2,
            ),
            flip_dims_ok(
                input@.len() as int,
                old(output)@.len() as int,
                input_stride as int,
                output_stride as int,
                width as int,
                height as int,
                2,
            ),
        ),
{
    flip_arbitrary_image::<u16, 2>(input, input_stride, output, output_stride, width, height)
}

/// Performs RGB image flipping on 16-bit samples.
pub fn flip_rgb16(
    input: &[u16],
    input_stride: usize,
    output: &mut [u16],
    output_stride: usize,
    width: usize,
    height: usize,
) -> (r: Result<(), TransposeError>)
    ensures
        op_contract(
            r,
            input@,
            old(output)@,
            final(output)@,
            flip_map(
                input_stride as int,
                output_stride as int,
                width as int,
                height as int,
                3,
            ),
            flip_dims_ok(
                input@.len() as int,
                old(output)@.len() as int,
                input_stride as int,
                output_stride as int,
                width as int,
                height as int,
                3,
            ),
        ),
{
    flip_arbitrary_image::<u16, 3>(input, input_stride, output, output_stride, width, height)
}

/// Performs RGBA image flipping on 16-bit samples.
pub fn flip_rgba16(
    input: &[u16],
    input_stride: usize,
    output: &mut [u16],
    output_stride: usize,
    width: usize,
    height: usize,
) -> (r: Result<(), TransposeError>)
    ensures
        op_contract(
            r,
            input@,
            old(output)@,
            final(output)@,
            flip_map(
                input_stride as int,
                output_stride as int,
                width as int,
                height as int,
                4,
            ),
            flip_dims_ok(
                input@.len() as int,
                old(output)@.len() as int,
                input_stride as int,
                output_stride as int,
                width as int,
                height as int,
                4,
            ),
        ),
{
    flip_arbitrary_image::<u16, 4>(input, input_stride, output, output_stride, width, height)
}

} // verus!
