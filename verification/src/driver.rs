//! The block-scheduling drivers behind the 8- and 16-bit entry points:
//! walk the image top to bottom in bands of the largest block size that
//! still fits, fall back to smaller blocks, and hand the ragged remainder
//! rows to a per-pixel section pass.

use crate::common::common_process;
use crate::engine::transpose_strip;
use crate::geometry::lemma_region_join_rows;
use crate::geometry::lemma_step_preserves;
use crate::geometry::lemma_unchanged_outside_widen;
use crate::geometry::op_contract;
use crate::geometry::transpose_map;
use crate::utils::len_is_product;
use crate::utils::stride_covers;
use crate::utils::FlipMode;
use crate::utils::FlopMode;
use crate::utils::TransposeError;
use vstd::arithmetic::div_mod::lemma_mod_add_multiples_vanish;
use vstd::arithmetic::div_mod::lemma_small_mod;
use vstd::prelude::*;

verus! {

/// Images with fewer pixels than this are walked in flat four-row bands
/// instead of square blocks; a tuning constant, not a correctness one.
const BASE_SQUARE_CUTOFF: usize = 1920 * 1080;

/// What the validation of the chunked drivers accepts: buffer lengths
/// that agree with the strides, and strides that hold a whole source
/// row (`width * cn` elements) and a whole destination row
/// (`height * cn` elements) respectively.
pub open spec fn transpose_chunked_dims_ok(
    in_len: int,
    out_len: int,
    input_stride: int,
    output_stride: int,
    width: int,
    height: int,
    cn: int,
) -> bool {
    &&& in_len == input_stride * height
    &&& out_len == output_stride * width
    &&& input_stride >= width * cn
    &&& output_stride >= height * cn
}

/// Validates the chunked-driver geometry, deciding every conjunct of
/// [`transpose_chunked_dims_ok`] without overflow.
fn chunked_dims_check<V>(
    input: &[V],
    input_stride: usize,
    output: &[V],
    output_stride: usize,
    width: usize,
    height: usize,
    cn: usize,
) -> (r: bool)
    ensures
        r <==> transpose_chunked_dims_ok(
            input@.len() as int,
            output@.len() as int,
            input_stride as int,
            output_stride as int,
            width as int,
            height as int,
            cn as int,
        ),
{
    len_is_product(input.len(), input_stride, height) && len_is_product(
        output.len(),
        output_stride,
        width,
    ) && stride_covers(input_stride, width, cn) && stride_covers(output_stride, height, cn)
}

/// Moves every remaining row from `start_y` down to the bottom of the
/// image, one pixel at a time.
#[allow(clippy::too_many_arguments)]
pub(crate) fn transpose_section<V: Copy>(
    input: &[V],
    input_stride: usize,
    output: &mut [V],
    output_stride: usize,
    width: usize,
    height: usize,
    cn: usize,
    flip: bool,
    flop: bool,
    start_y: usize,
)
    requires
        transpose_map(
            input_stride as int,
            output_stride as int,
            width as int,
            height as int,
            cn as int,
            flip,
            flop,
        ).valid(),
        transpose_map(
            input_stride as int,
            output_stride as int,
            width as int,
            height as int,
            cn as int,
            flip,
            flop,
        ).buffers_cover(input@.len() as int, old(output)@.len() as int),
        start_y <= height,
    ensures
        transpose_map(
            input_stride as int,
            output_stride as int,
            width as int,
            height as int,
            cn as int,
            flip,
            flop,
        ).region_mapped(input@, final(output)@, 0, width as int, start_y as int, height as int),
        transpose_map(
            input_stride as int,
            output_stride as int,
            width as int,
            height as int,
            cn as int,
            flip,
            flop,
        ).unchanged_outside(
            old(output)@,
            final(output)@,
            0,
            width as int,
            start_y as int,
            height as int,
        ),
{
    crate::block::transpose_block(
        input,
        input_stride,
        output,
        output_stride,
        width,
        height,
        cn,
        true,
        flop,
        !flip,
        0,
        start_y,
        width,
        height - start_y,
    );
}

/// Processes full bands of `block_size` rows from `start_y` downwards,
/// each band as a run of `block_size`-wide blocks with a ragged column
/// remainder, and returns the first row it did not take.
#[verifier::loop_isolation(false)]
#[allow(clippy::too_many_arguments)]
pub(crate) fn transpose_executor<V: Copy>(
    input: &[V],
    input_stride: usize,
    output: &mut [V],
    output_stride: usize,
    width: usize,
    height: usize,
    cn: usize,
    flip: bool,
    flop: bool,
    block_size: usize,
    start_y: usize,
) -> (taken_y: usize)
    requires
        transpose_map(
            input_stride as int,
            output_stride as int,
            width as int,
            height as int,
            cn as int,
            flip,
            flop,
        ).valid(),
        transpose_map(
            input_stride as int,
            output_stride as int,
            width as int,
            height as int,
            cn as int,
            flip,
            flop,
        ).buffers_cover(input@.len() as int, old(output)@.len() as int),
        start_y <= height,
        block_size >= 1,
    ensures
        start_y <= taken_y <= height,
        height - taken_y < block_size,
        (taken_y - start_y) % (block_size as int) == 0,
        transpose_map(
            input_stride as int,
            output_stride as int,
            width as int,
            height as int,
            cn as int,
            flip,
            flop,
        ).region_mapped(
            input@,
            final(output)@,
            0,
            width as int,
            start_y as int,
            taken_y as int,
        ),
        transpose_map(
            input_stride as int,
            output_stride as int,
            width as int,
            height as int,
            cn as int,
            flip,
            flop,
        ).unchanged_outside(
            old(output)@,
            final(output)@,
            0,
            width as int,
            start_y as int,
            taken_y as int,
        ),
{
    let ghost g = transpose_map(
        input_stride as int,
        output_stride as int,
        width as int,
        height as int,
        cn as int,
        flip,
        flop,
    );
    let ghost sy = start_y as int;

    let mut y = start_y;
    proof {
        lemma_small_mod(0nat, block_size as nat);
    }
    while height - y >= block_size
        invariant
            start_y <= y <= height,
            (y - start_y) % (block_size as int) == 0,
            g.region_mapped(input@, output@, 0, width as int, sy, y as int),
            g.unchanged_outside(old(output)@, output@, 0, width as int, sy, y as int),
        decreases height - y,
    {
        proof {
            lemma_mod_add_multiples_vanish(y - start_y, block_size as int);
        }
        let ghost prev = output@;
        transpose_strip(
            input,
            input_stride,
            output,
            output_stride,
            width,
            height,
            cn,
            flip,
            flop,
            0,
            width,
            y,
            block_size,
            block_size,
        );
        proof {
            lemma_unchanged_outside_widen(
                g,
                old(output)@,
                prev,
                0,
                width as int,
                sy,
                y as int,
                0,
                width as int,
                sy,
                y + block_size,
            );
            lemma_step_preserves(
                g,
                input@,
                old(output)@,
                prev,
                output@,
                0,
                width as int,
                sy,
                y as int,
                0,
                width as int,
                y as int,
                y + block_size,
                0,
                width as int,
                sy,
                y + block_size,
            );
            lemma_region_join_rows(g, input@, output@, 0, width as int, sy, y as int, y + block_size);
        }
        y += block_size;
    }
    y
}

/// The chunked driver for single-channel 8-bit planes: 16-row bands, then
/// 8-row bands, then the per-pixel section pass.
pub(crate) fn transpose_plane8_chunked(
    input: &[u8],
    input_stride: usize,
    output: &mut [u8],
    output_stride: usize,
    width: usize,
    height: usize,
    flip_mode: FlipMode,
    flop_mode: FlopMode,
) -> (r: Result<(), TransposeError>)
    ensures
        op_contract(
            r,
            input@,
            old(output)@,
            final(output)@,
            transpose_map(
                input_stride as int,
                output_stride as int,
                width as int,
                height as int,
                1,
                flip_mode is Flip,
                flop_mode is Flop,
            ),
            transpose_chunked_dims_ok(
                input@.len() as int,
                old(output)@.len() as int,
                input_stride as int,
                output_stride as int,
                width as int,
                height as int,
                1,
            ),
        ),
{
    if !chunked_dims_check(input, input_stride, output, output_stride, width, height, 1) {
        return Err(TransposeError::MismatchDimensions);
    }
    let ghost g = transpose_map(
        input_stride as int,
        output_stride as int,
        width as int,
        height as int,
        1,
        flip_mode is Flip,
        flop_mode is Flop,
    );
    let flip = matches!(flip_mode, FlipMode::Flip);
    let flop = matches!(flop_mode, FlopMode::Flop);

    let y16 = transpose_executor(
        input,
        input_stride,
        output,
        output_stride,
        width,
        height,
        1,
        flip,
        flop,
        16,
        0,
    );
    let ghost mid16 = output@;
    let y8 = transpose_executor(
        input,
        input_stride,
        output,
        output_stride,
        width,
        height,
        1,
        flip,
        flop,
        8,
        y16,
    );
    let ghost mid8 = output@;
    proof {
        lemma_unchanged_outside_widen(
            g,
            old(output)@,
            mid16,
            0,
            width as int,
            0,
            y16 as int,
            0,
            width as int,
            0,
            height as int,
        );
        lemma_step_preserves(
            g,
            input@,
            old(output)@,
            mid16,
            mid8,
            0,
            width as int,
            0,
            y16 as int,
            0,
            width as int,
            y16 as int,
            y8 as int,
            0,
            width as int,
            0,
            height as int,
        );
        lemma_region_join_rows(g, input@, mid8, 0, width as int, 0, y16 as int, y8 as int);
    }
    transpose_section(
        input,
        input_stride,
        output,
        output_stride,
        width,
        height,
        1,
        flip,
        flop,
        y8,
    );
    proof {
        lemma_step_preserves(
            g,
            input@,
            old(output)@,
            mid8,
            output@,
            0,
            width as int,
            0,
            y8 as int,
            0,
            width as int,
            y8 as int,
            height as int,
            0,
            width as int,
            0,
            height as int,
        );
        lemma_region_join_rows(g, input@, output@, 0, width as int, 0, y8 as int, height as int);
    }
    Ok(())
}

/// The chunked driver for two-channel 8-bit planes: the whole image goes
/// through the portable band executor.
pub(crate) fn transpose_cbcr8_chunked(
    input: &[u8],
    input_stride: usize,
    output: &mut [u8],
    output_stride: usize,
    width: usize,
    height: usize,
    flip_mode: FlipMode,
    flop_mode: FlopMode,
) -> (r: Result<(), TransposeError>)
    ensures
        op_contract(
            r,
            input@,
            old(output)@,
            final(output)@,
            transpose_map(
                input_stride as int,
                output_stride as int,
                width as int,
                height as int,
                2,
                flip_mode is Flip,
                flop_mode is Flop,
            ),
            transpose_chunked_dims_ok(
                input@.len() as int,
                old(output)@.len() as int,
                input_stride as int,
                output_stride as int,
                width as int,
                height as int,
                2,
            ),
        ),
{
    if !chunked_dims_check(input, input_stride, output, output_stride, width, height, 2) {
        return Err(TransposeError::MismatchDimensions);
    }
    let flip = matches!(flip_mode, FlipMode::Flip);
    let flop = matches!(flop_mode, FlopMode::Flop);
    common_process(
        input,
        input_stride,
        output,
        output_stride,
        width,
        height,
        2,
        flip,
        flop,
        0,
        height,
    );
    Ok(())
}

/// The chunked driver for interleaved four-channel buffers: small images
/// go straight to four-row bands of narrow blocks, large ones through
/// 8-row bands first, and the section pass takes the remainder rows.
pub(crate) fn transpose_quad_chunked<V: Copy>(
    input: &[V],
    input_stride: usize,
    output: &mut [V],
    output_stride: usize,
    width: usize,
    height: usize,
    flip_mode: FlipMode,
    flop_mode: FlopMode,
) -> (r: Result<(), TransposeError>)
    ensures
        op_contract(
            r,
            input@,
            old(output)@,
            final(output)@,
            transpose_map(
                input_stride as int,
                output_stride as int,
                width as int,
                height as int,
                4,
                flip_mode is Flip,
                flop_mode is Flop,
            ),
            transpose_chunked_dims_ok(
                input@.len() as int,
                old(output)@.len() as int,
                input_stride as int,
                output_stride as int,
                width as int,
                height as int,
                4,
            ),
        ),
{
    if !chunked_dims_check(input, input_stride, output, output_stride, width, height, 4) {
        return Err(TransposeError::MismatchDimensions);
    }
    let ghost g = transpose_map(
        input_stride as int,
        output_stride as int,
        width as int,
        height as int,
        4,
        flip_mode is Flip,
        flop_mode is Flop,
    );
    let flip = matches!(flip_mode, FlipMode::Flip);
    let flop = matches!(flop_mode, FlopMode::Flop);

    let small = match width.checked_mul(height) {
        Some(pixels) => pixels < BASE_SQUARE_CUTOFF,
        None => false,
    };
    let first = if small {
        transpose_executor(
            input,
            input_stride,
            output,
            output_stride,
            width,
            height,
            4,
            flip,
            flop,
            4,
            0,
        )
    } else {
        let y8 = transpose_executor(
            input,
            input_stride,
            output,
            output_stride,
            width,
            height,
            4,
            flip,
            flop,
            8,
            0,
        );
        let ghost mid8 = output@;
        let y4 = transpose_executor(
            input,
            input_stride,
            output,
            output_stride,
            width,
            height,
            4,
            flip,
            flop,
            4,
            y8,
        );
        proof {
            lemma_unchanged_outside_widen(
                g,
                old(output)@,
                mid8,
                0,
                width as int,
                0,
                y8 as int,
                0,
                width as int,
                0,
                y4 as int,
            );
            lemma_step_preserves(
                g,
                input@,
                old(output)@,
                mid8,
                output@,
                0,
                width as int,
                0,
                y8 as int,
                0,
                width as int,
                y8 as int,
                y4 as int,
                0,
                width as int,
                0,
                y4 as int,
            );
            lemma_region_join_rows(g, input@, output@, 0, width as int, 0, y8 as int, y4 as int);
        }
        y4
    };
    let ghost midq = output@;
    transpose_section(
        input,
        input_stride,
        output,
        output_stride,
        width,
        height,
        4,
        flip,
        flop,
        first,
    );
    proof {
        lemma_unchanged_outside_widen(
            g,
            old(output)@,
            midq,
            0,
            width as int,
            0,
            first as int,
            0,
            width as int,
            0,
            height as int,
        );
        lemma_step_preserves(
            g,
            input@,
            old(output)@,
            midq,
            output@,
            0,
            width as int,
            0,
            first as int,
            0,
            width as int,
            first as int,
            height as int,
            0,
            width as int,
            0,
            height as int,
        );
        lemma_region_join_rows(
            g,
            input@,
            output@,
            0,
            width as int,
            0,
            first as int,
            height as int,
        );
    }
    Ok(())
}

} // verus!
