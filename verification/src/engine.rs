//! The portable transposition engine: recursive cache-oblivious bisection
//! on top of direct tiled iteration.
//!
//! A region whose two spans are small (or degenerate) is walked in bands
//! of [`BLOCK_SIZE`] rows, each band in [`BLOCK_SIZE`]-wide blocks with a
//! ragged remainder; a larger region has its longer span halved and the
//! two halves are handled independently.

use crate::block::transpose_block;
use crate::block::transpose_block_segmented;
use crate::geometry::lemma_region_join_cols;
use crate::geometry::lemma_region_join_rows;
use crate::geometry::lemma_step_preserves;
use crate::geometry::lemma_unchanged_outside_widen;
use crate::geometry::transpose_map;
use crate::utils::len_is_product;
use crate::utils::stride_covers;
use crate::utils::FlipMode;
use crate::utils::FlopMode;
use crate::utils::TransposeError;
use vstd::prelude::*;

verus! {

/// Spans at most this long are walked directly instead of being split.
const LIMIT: usize = 128;

/// Row-band height and block width of the direct walk.
const BLOCK_SIZE: usize = 16;

/// What the validation of the grouped transposition entry points accepts:
/// equally long buffers whose lengths agree with the strides and whose
/// strides hold a whole row of `cn`-element pixels.
pub open spec fn transpose_grouped_dims_ok(
    in_len: int,
    out_len: int,
    input_stride: int,
    output_stride: int,
    width: int,
    height: int,
    cn: int,
) -> bool {
    &&& in_len == out_len
    &&& in_len == input_stride * height
    &&& out_len == output_stride * width
    &&& input_stride >= width * cn
    &&& output_stride >= height * cn
}

/// What the validation of [`transpose_arbitrary`] accepts: equally long
/// buffers holding exactly `width * height` elements.
pub open spec fn transpose_arbitrary_dims_ok(
    in_len: int,
    out_len: int,
    width: int,
    height: int,
) -> bool {
    &&& in_len == out_len
    &&& in_len == width * height
}

/// Moves one band of rows `[band_y, band_y + band_height)` of the region
/// `[start_x, end_x)`, walking it in [`BLOCK_SIZE`]-wide blocks with a
/// ragged remainder.
#[verifier::loop_isolation(false)]
#[allow(clippy::too_many_arguments)]
pub(crate) fn transpose_strip<V: Copy>(
    input: &[V],
    input_stride: usize,
    output: &mut [V],
    output_stride: usize,
    width: usize,
    height: usize,
    cn: usize,
    flip: bool,
    flop: bool,
    start_x: usize,
    end_x: usize,
    band_y: usize,
    band_height: usize,
    block_width: usize,
)
    requires
        transpose_map(
            input_stride as int,
            output_stride as int,
            width as int,
            height as int,
            cn as int,
            flip,
            flop,
        ).valid(),
        transpose_map(
            input_stride as int,
            output_stride as int,
            width as int,
            height as int,
            cn as int,
            flip,
            flop,
        ).buffers_cover(input@.len() as int, old(output)@.len() as int),
        start_x <= end_x <= width,
        band_y + band_height <= height,
        block_width >= 1,
    ensures
        transpose_map(
            input_stride as int,
            output_stride as int,
            width as int,
            height as int,
            cn as int,
            flip,
            flop,
        ).region_mapped(
            input@,
            final(output)@,
            start_x as int,
            end_x as int,
            band_y as int,
            band_y + band_height,
        ),
        transpose_map(
            input_stride as int,
            output_stride as int,
            width as int,
            height as int,
            cn as int,
            flip,
            flop,
        ).unchanged_outside(
            old(output)@,
            final(output)@,
            start_x as int,
            end_x as int,
            band_y as int,
            band_y + band_height,
        ),
{
    let ghost g = transpose_map(
        input_stride as int,
        output_stride as int,
        width as int,
        height as int,
        cn as int,
        flip,
        flop,
    );
    let ghost sx = start_x as int;
    let ghost ex = end_x as int;
    let ghost by = band_y as int;
    let ghost bh = band_height as int;

    let mut x = start_x;
    while end_x - x >= block_width
        invariant
            start_x <= x <= end_x,
            g.region_mapped(input@, output@, sx, x as int, by, by + bh),
            g.unchanged_outside(old(output)@, output@, sx, ex, by, by + bh),
        decreases end_x - x,
    {
        let ghost prev = output@;
        if band_height % 4 == 0 {
            transpose_block_segmented(
                input,
                input_stride,
                output,
                output_stride,
                width,
                height,
                cn,
                true,
                flop,
                !flip,
                x,
                band_y,
                block_width,
                band_height,
            );
        } else {
            transpose_block(
                input,
                input_stride,
                output,
                output_stride,
                width,
                height,
                cn,
                true,
                flop,
                !flip,
                x,
                band_y,
                block_width,
                band_height,
            );
        }
        proof {
            lemma_step_preserves(
                g,
                input@,
                old(output)@,
                prev,
                output@,
                sx,
                x as int,
                by,
                by + bh,
                x as int,
                x + block_width,
                by,
                by + bh,
                sx,
                ex,
                by,
                by + bh,
            );
            lemma_region_join_cols(g, input@, output@, sx, x as int, x + block_width, by, by + bh);
        }
        x += block_width;
    }
    if x < end_x {
        let ghost prev = output@;
        transpose_block(
            input,
            input_stride,
            output,
            output_stride,
            width,
            height,
            cn,
            true,
            flop,
            !flip,
            x,
            band_y,
            end_x - x,
            band_height,
        );
        proof {
            lemma_step_preserves(
                g,
                input@,
                old(output)@,
                prev,
                output@,
                sx,
                x as int,
                by,
                by + bh,
                x as int,
                ex,
                by,
                by + bh,
                sx,
                ex,
                by,
                by + bh,
            );
            lemma_region_join_cols(g, input@, output@, sx, x as int, ex, by, by + bh);
        }
    }
}

/// Moves the region `[start_x, end_x) x [start_y, end_y)` of the source
/// image.  A region with small or degenerate spans is walked directly in
/// row bands; otherwise its longer span is halved and the halves are
/// handled one after the other.
#[verifier::loop_isolation(false)]
#[allow(clippy::too_many_arguments)]
pub(crate) fn trs_arb_grouped<V: Copy>(
    input: &[V],
    input_stride: usize,
    output: &mut [V],
    output_stride: usize,
    start_y: usize,
    end_y: usize,
    start_x: usize,
    end_x: usize,
    width: usize,
    height: usize,
    cn: usize,
    flip: bool,
    flop: bool,
)
    requires
        transpose_map(
            input_stride as int,
            output_stride as int,
            width as int,
            height as int,
            cn as int,
            flip,
            flop,
        ).valid(),
        transpose_map(
            input_stride as int,
            output_stride as int,
            width as int,
            height as int,
            cn as int,
            flip,
            flop,
        ).buffers_cover(input@.len() as int, old(output)@.len() as int),
        start_x <= end_x <= width,
        start_y <= end_y <= height,
    ensures
        transpose_map(
            input_stride as int,
            output_stride as int,
            width as int,
            height as int,
            cn as int,
            flip,
            flop,
        ).region_mapped(
            input@,
            final(output)@,
            start_x as int,
            end_x as int,
            start_y as int,
            end_y as int,
        ),
        transpose_map(
            input_stride as int,
            output_stride as int,
            width as int,
            height as int,
            cn as int,
            flip,
            flop,
        ).unchanged_outside(
            old(output)@,
            final(output)@,
            start_x as int,
            end_x as int,
            start_y as int,
            end_y as int,
        ),
    decreases (end_y - start_y) + (end_x - start_x),
{
    let ghost g = transpose_map(
        input_stride as int,
        output_stride as int,
        width as int,
        height as int,
        cn as int,
        flip,
        flop,
    );
    let ghost sx = start_x as int;
    let ghost ex = end_x as int;
    let ghost sy = start_y as int;
    let ghost ey = end_y as int;

    let length_y = end_y - start_y;
    let length_x = end_x - start_x;
    if (length_y <= LIMIT && length_x <= LIMIT) || length_y <= 2 || length_x <= 2 {
        let mut y = start_y;
        while end_y - y >= BLOCK_SIZE
            invariant
                start_y <= y <= end_y,
                g.region_mapped(input@, output@, sx, ex, sy, y as int),
                g.unchanged_outside(old(output)@, output@, sx, ex, sy, ey),
            decreases end_y - y,
        {
            let ghost prev = output@;
            transpose_strip(
                input,
                input_stride,
                output,
                output_stride,
                width,
                height,
                cn,
                flip,
                flop,
                start_x,
                end_x,
                y,
                BLOCK_SIZE,
                BLOCK_SIZE,
            );
            proof {
                lemma_step_preserves(
                    g,
                    input@,
                    old(output)@,
                    prev,
                    output@,
                    sx,
                    ex,
                    sy,
                    y as int,
                    sx,
                    ex,
                    y as int,
                    y + BLOCK_SIZE,
                    sx,
                    ex,
                    sy,
                    ey,
                );
                lemma_region_join_rows(g, input@, output@, sx, ex, sy, y as int, y + BLOCK_SIZE);
            }
            y += BLOCK_SIZE;
        }
        if y < end_y {
            let ghost prev = output@;
            transpose_strip(
                input,
                input_stride,
                output,
                output_stride,
                width,
                height,
                cn,
                flip,
                flop,
                start_x,
                end_x,
                y,
                end_y - y,
                BLOCK_SIZE,
            );
            proof {
                lemma_step_preserves(
                    g,
                    input@,
                    old(output)@,
                    prev,
                    output@,
                    sx,
                    ex,
                    sy,
                    y as int,
                    sx,
                    ex,
                    y as int,
                    ey,
                    sx,
                    ex,
                    sy,
                    ey,
                );
                lemma_region_join_rows(g, input@, output@, sx, ex, sy, y as int, ey);
            }
        }
    } else if length_y >= length_x {
        let half = length_y / 2;
        trs_arb_grouped(
            input,
            input_stride,
            output,
            output_stride,
            start_y,
            start_y + half,
            start_x,
            end_x,
            width,
            height,
            cn,
            flip,
            flop,
        );
        let ghost mid = output@;
        proof {
            lemma_unchanged_outside_widen(
                g,
                old(output)@,
                mid,
                sx,
                ex,
                sy,
                sy + half,
                sx,
                ex,
                sy,
                ey,
            );
        }
        trs_arb_grouped(
            input,
            input_stride,
            output,
            output_stride,
            start_y + half,
            end_y,
            start_x,
            end_x,
            width,
            height,
            cn,
            flip,
            flop,
        );
        proof {
            lemma_step_preserves(
                g,
                input@,
                old(output)@,
                mid,
                output@,
                sx,
                ex,
                sy,
                sy + half,
                sx,
                ex,
                sy + half,
                ey,
                sx,
                ex,
                sy,
                ey,
            );
            lemma_region_join_rows(g, input@, output@, sx, ex, sy, sy + half, ey);
        }
    } else {
        let half = length_x / 2;
        trs_arb_grouped(
            input,
            input_stride,
            output,
            output_stride,
            start_y,
            end_y,
            start_x,
            start_x + half,
            width,
            height,
            cn,
            flip,
            flop,
        );
        let ghost mid = output@;
        proof {
            lemma_unchanged_outside_widen(
                g,
                old(output)@,
                mid,
                sx,
                sx + half,
                sy,
                ey,
                sx,
                ex,
                sy,
                ey,
            );
        }
        trs_arb_grouped(
            input,
            input_stride,
            output,
            output_stride,
            start_y,
            end_y,
            start_x + half,
            end_x,
            width,
            height,
            cn,
            flip,
            flop,
        );
        proof {
            lemma_step_preserves(
                g,
                input@,
                old(output)@,
                mid,
                output@,
                sx,
                sx + half,
                sy,
                ey,
                sx + half,
                ex,
                sy,
                ey,
                sx,
                ex,
                sy,
                ey,
            );
            lemma_region_join_cols(g, input@, output@, sx, sx + half, ex, sy, ey);
        }
    }
}

/// Performs grouped transposition of `cn`-element pixels between buffers
/// with explicit strides.
///
/// Rejects with [`TransposeError::MismatchDimensions`] exactly when the
/// buffer lengths and strides disagree with the dimensions; on success
/// the image is rotated a quarter turn clockwise, reoriented by the two
/// mode flags, and destination elements outside the written image keep
/// their values.
#[allow(clippy::too_many_arguments)]
pub fn transpose_arbitrary_grouped<V: Copy, const N: usize>(
    input: &[V],
    input_stride: usize,
    output: &mut [V],
    output_stride: usize,
    width: usize,
    height: usize,
    flip_mode: FlipMode,
    flop_mode: FlopMode,
) -> (r: Result<(), TransposeError>)
    requires
        N >= 1,
    ensures
        crate::geometry::op_contract(
            r,
            input@,
            old(output)@,
            final(output)@,
            transpose_map(
                input_stride as int,
                output_stride as int,
                width as int,
                height as int,
                N as int,
                flip_mode is Flip,
                flop_mode is Flop,
            ),
            transpose_grouped_dims_ok(
                input@.len() as int,
                old(output)@.len() as int,
                input_stride as int,
                output_stride as int,
                width as int,
                height as int,
                N as int,
            ),
        ),
{
    if input.len() != output.len() {
        return Err(TransposeError::MismatchDimensions);
    }
    if !len_is_product(input.len(), input_stride, height) {
        return Err(TransposeError::MismatchDimensions);
    }
    if !len_is_product(output.len(), output_stride, width) {
        return Err(TransposeError::MismatchDimensions);
    }
    if !stride_covers(input_stride, width, N) {
        return Err(TransposeError::MismatchDimensions);
    }
    if !stride_covers(output_stride, height, N) {
        return Err(TransposeError::MismatchDimensions);
    }

    let flip = matches!(flip_mode, FlipMode::Flip);
    let flop = matches!(flop_mode, FlopMode::Flop);
    trs_arb_grouped(
        input,
        input_stride,
        output,
        output_stride,
        0,
        height,
        0,
        width,
        width,
        height,
        N,
        flip,
        flop,
    );
    Ok(())
}

/// Performs arbitrary transposition of densely packed single-element
/// pixels.
///
/// Rejects with [`TransposeError::MismatchDimensions`] exactly when the
/// two buffers differ in length or do not hold `width * height` elements;
/// on success the image is rotated a quarter turn clockwise, reoriented
/// by the two mode flags.
pub fn transpose_arbitrary<V: Copy>(
    input: &[V],
    output: &mut [V],
    width: usize,
    height: usize,
    flip_mode: FlipMode,
    flop_mode: FlopMode,
) -> (r: Result<(), TransposeError>)
    ensures
        crate::geometry::op_contract(
            r,
            input@,
            old(output)@,
            final(output)@,
            transpose_map(
                width as int,
                height as int,
                width as int,
                height as int,
                1,
                flip_mode is Flip,
                flop_mode is Flop,
            ),
            transpose_arbitrary_dims_ok(
                input@.len() as int,
                old(output)@.len() as int,
                width as int,
                height as int,
            ),
        ),
{
    if input.len() != output.len() {
        return Err(TransposeError::MismatchDimensions);
    }
    if !len_is_product(input.len(), width, height) {
        return Err(TransposeError::MismatchDimensions);
    }

    let flip = matches!(flip_mode, FlipMode::Flip);
    let flop = matches!(flop_mode, FlopMode::Flop);
    proof {
        assert(width as int * height as int == height as int * width as int && width as int * 1
            == width as int && height as int * 1 == height as int) by (nonlinear_arith);
    }
    trs_arb_grouped(
        input,
        width,
        output,
        height,
        0,
        height,
        0,
        width,
        width,
        height,
        1,
        flip,
        flop,
    );
    Ok(())
}

} // verus!
