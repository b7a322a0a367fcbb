//! The portable band executor: walks a band of rows in 16-row chunks and
//! each chunk in 16-, 8-, 4- and finally 1-pixel-wide column groups, a
//! purely scalar locality scheme usable for any element type.

use crate::block::transpose_block;
use crate::geometry::lemma_region_join_cols;
use crate::geometry::lemma_region_join_rows;
use crate::geometry::lemma_step_preserves;
use crate::geometry::transpose_map;
use vstd::prelude::*;

verus! {

/// A band below this many rows, or an image narrower than this many
/// pixels, is not worth chunking.
const SMALL_BAND: usize = 32;

/// Moves the rows `[band_y, band_y + band_height)` in column groups of
/// decreasing width.
#[verifier::loop_isolation(false)]
#[allow(clippy::too_many_arguments)]
fn common_process_block<V: Copy>(
    input: &[V],
    input_stride: usize,
    output: &mut [V],
    output_stride: usize,
    width: usize,
    height: usize,
    cn: usize,
    flip: bool,
    flop: bool,
    band_y: usize,
    band_height: usize,
)
    requires
        transpose_map(
            input_stride as int,
            output_stride as int,
            width as int,
            height as int,
            cn as int,
            flip,
            flop,
        ).valid(),
        transpose_map(
            input_stride as int,
            output_stride as int,
            width as int,
            height as int,
            cn as int,
            flip,
            flop,
        ).buffers_cover(input@.len() as int, old(output)@.len() as int),
        band_y + band_height <= height,
    ensures
        transpose_map(
            input_stride as int,
            output_stride as int,
            width as int,
            height as int,
            cn as int,
            flip,
            flop,
        ).region_mapped(
            input@,
            final(output)@,
            0,
            width as int,
            band_y as int,
            band_y + band_height,
        ),
        transpose_map(
            input_stride as int,
            output_stride as int,
            width as int,
            height as int,
            cn as int,
            flip,
            flop,
        ).unchanged_outside(
            old(output)@,
            final(output)@,
            0,
            width as int,
            band_y as int,
            band_y + band_height,
        ),
{
    let ghost g = transpose_map(
        input_stride as int,
        output_stride as int,
        width as int,
        height as int,
        cn as int,
        flip,
        flop,
    );
    let ghost by = band_y as int;
    let ghost bh = band_height as int;

    let mut x: usize = 0;
        while width - x >= 16
            invariant
                x <= width,
                g.region_mapped(input@, output@, 0, x as int, by, by + bh),
                g.unchanged_outside(old(output)@, output@, 0, width as int, by, by + bh),
            decreases width - x,
        {
            let ghost prev = output@;
            transpose_block(
                input,
                input_stride,
                output,
                output_stride,
                width,
                height,
                cn,
                true,
                flop,
                !flip,
                x,
                band_y,
                16,
                band_height,
            );
            proof {
                lemma_step_preserves(
                    g,
                    input@,
                    old(output)@,
                    prev,
                    output@,
                    0,
                    x as int,
                    by,
                    by + bh,
                    x as int,
                    x + 16,
                    by,
                    by + bh,
                    0,
                    width as int,
                    by,
                    by + bh,
                );
                lemma_region_join_cols(g, input@, output@, 0, x as int, x + 16, by, by + bh);
            }
            x += 16;
        }
        while width - x >= 8
            invariant
                x <= width,
                g.region_mapped(input@, output@, 0, x as int, by, by + bh),
                g.unchanged_outside(old(output)@, output@, 0, width as int, by, by + bh),
            decreases width - x,
        {
            let ghost prev = output@;
            transpose_block(
                input,
                input_stride,
                output,
                output_stride,
                width,
                height,
                cn,
                true,
                flop,
                !flip,
                x,
                band_y,
                8,
                band_height,
            );
            proof {
                lemma_step_preserves(
                    g,
                    input@,
                    old(output)@,
                    prev,
                    output@,
                    0,
                    x as int,
                    by,
                    by + bh,
                    x as int,
                    x + 8,
                    by,
                    by + bh,
                    0,
                    width as int,
                    by,
                    by + bh,
                );
                lemma_region_join_cols(g, input@, output@, 0, x as int, x + 8, by, by + bh);
            }
            x += 8;
        }
        while width - x >= 4
            invariant
                x <= width,
                g.region_mapped(input@, output@, 0, x as int, by, by + bh),
                g.unchanged_outside(old(output)@, output@, 0, width as int, by, by + bh),
            decreases width - x,
        {
            let ghost prev = output@;
            transpose_block(
                input,
                input_stride,
                output,
                output_stride,
                width,
                height,
                cn,
                true,
                flop,
                !flip,
                x,
                band_y,
                4,
                band_height,
            );
            proof {
                lemma_step_preserves(
                    g,
                    input@,
                    old(output)@,
                    prev,
                    output@,
                    0,
                    x as int,
                    by,
                    by + bh,
                    x as int,
                    x + 4,
                    by,
                    by + bh,
                    0,
                    width as int,
                    by,
                    by + bh,
                );
                lemma_region_join_cols(g, input@, output@, 0, x as int, x + 4, by, by + bh);
            }
            x += 4;
        }
        while width - x >= 1
            invariant
                x <= width,
                g.region_mapped(input@, output@, 0, x as int, by, by + bh),
                g.unchanged_outside(old(output)@, output@, 0, width as int, by, by + bh),
            decreases width - x,
        {
            let ghost prev = output@;
            transpose_block(
                input,
                input_stride,
                output,
                output_stride,
                width,
                height,
                cn,
                true,
                flop,
                !flip,
                x,
                band_y,
                1,
                band_height,
            );
            proof {
                lemma_step_preserves(
                    g,
                    input@,
                    old(output)@,
                    prev,
                    output@,
                    0,
                    x as int,
                    by,
                    by + bh,
                    x as int,
                    x + 1,
                    by,
                    by + bh,
                    0,
                    width as int,
                    by,
                    by + bh,
                );
                lemma_region_join_cols(g, input@, output@, 0, x as int, x + 1, by, by + bh);
            }
            x += 1;
        }
}

/// Moves the rows `[start_y, start_y + take_rows)` one source row at a
/// time, for bands too small to chunk.
#[allow(clippy::too_many_arguments)]
fn common_process_small_blocks<V: Copy>(
    input: &[V],
    input_stride: usize,
    output: &mut [V],
    output_stride: usize,
    width: usize,
    height: usize,
    cn: usize,
    flip: bool,
    flop: bool,
    start_y: usize,
    take_rows: usize,
)
    requires
        transpose_map(
            input_stride as int,
            output_stride as int,
            width as int,
            height as int,
            cn as int,
            flip,
            flop,
        ).valid(),
        transpose_map(
            input_stride as int,
            output_stride as int,
            width as int,
            height as int,
            cn as int,
            flip,
            flop,
        ).buffers_cover(input@.len() as int, old(output)@.len() as int),
        start_y + take_rows <= height,
    ensures
        transpose_map(
            input_stride as int,
            output_stride as int,
            width as int,
            height as int,
            cn as int,
            flip,
            flop,
        ).region_mapped(
            input@,
            final(output)@,
            0,
            width as int,
            start_y as int,
            start_y + take_rows,
        ),
        transpose_map(
            input_stride as int,
            output_stride as int,
            width as int,
            height as int,
            cn as int,
            flip,
            flop,
        ).unchanged_outside(
            old(output)@,
            final(output)@,
            0,
            width as int,
            start_y as int,
            start_y + take_rows,
        ),
{
    transpose_block(
        input,
        input_stride,
        output,
        output_stride,
        width,
        height,
        cn,
        true,
        flop,
        !flip,
        0,
        start_y,
        width,
        take_rows,
    );
}

/// Moves the band of rows `[start_y, start_y + take_rows)`, chunking it
/// into 16-, 8- and 4-row pieces where the band and the image are large
/// enough to profit from it.
#[verifier::loop_isolation(false)]
#[allow(clippy::too_many_arguments)]
pub(crate) fn common_process<V: Copy>(
    input: &[V],
    input_stride: usize,
    output: &mut [V],
    output_stride: usize,
    width: usize,
    height: usize,
    cn: usize,
    flip: bool,
    flop: bool,
    start_y: usize,
    take_rows: usize,
)
    requires
        transpose_map(
            input_stride as int,
            output_stride as int,
            width as int,
            height as int,
            cn as int,
            flip,
            flop,
        ).valid(),
        transpose_map(
            input_stride as int,
            output_stride as int,
            width as int,
            height as int,
            cn as int,
            flip,
            flop,
        ).buffers_cover(input@.len() as int, old(output)@.len() as int),
        start_y + take_rows <= height,
    ensures
        transpose_map(
            input_stride as int,
            output_stride as int,
            width as int,
            height as int,
            cn as int,
            flip,
            flop,
        ).region_mapped(
            input@,
            final(output)@,
            0,
            width as int,
            start_y as int,
            start_y + take_rows,
        ),
        transpose_map(
            input_stride as int,
            output_stride as int,
            width as int,
            height as int,
            cn as int,
            flip,
            flop,
        ).unchanged_outside(
            old(output)@,
            final(output)@,
            0,
            width as int,
            start_y as int,
            start_y + take_rows,
        ),
{
    let ghost g = transpose_map(
        input_stride as int,
        output_stride as int,
        width as int,
        height as int,
        cn as int,
        flip,
        flop,
    );
    let ghost sy = start_y as int;
    let ghost cap = start_y + take_rows;

    if take_rows <= SMALL_BAND || width < SMALL_BAND {
        common_process_small_blocks(
            input,
            input_stride,
            output,
            output_stride,
            width,
            height,
            cn,
            flip,
            flop,
            start_y,
            take_rows,
        );
        return ;
    }

    let cap_y = start_y + take_rows;
    let mut y = start_y;
    let mut chunk: usize = 16;
    while chunk >= 4
        invariant
            chunk == 16 || chunk == 8 || chunk == 4 || chunk == 2,
            start_y <= y <= cap_y,
            g.region_mapped(input@, output@, 0, width as int, sy, y as int),
            g.unchanged_outside(old(output)@, output@, 0, width as int, sy, cap),
        decreases chunk,
    {
        while cap_y - y >= chunk
            invariant
                start_y <= y <= cap_y,
                g.region_mapped(input@, output@, 0, width as int, sy, y as int),
                g.unchanged_outside(old(output)@, output@, 0, width as int, sy, cap),
            decreases cap_y - y,
        {
            let ghost prev = output@;
            common_process_block(
                input,
                input_stride,
                output,
                output_stride,
                width,
                height,
                cn,
                flip,
                flop,
                y,
                chunk,
            );
            proof {
                lemma_step_preserves(
                    g,
                    input@,
                    old(output)@,
                    prev,
                    output@,
                    0,
                    width as int,
                    sy,
                    y as int,
                    0,
                    width as int,
                    y as int,
                    y + chunk,
                    0,
                    width as int,
                    sy,
                    cap,
                );
                lemma_region_join_rows(g, input@, output@, 0, width as int, sy, y as int, y + chunk);
            }
            y += chunk;
        }
        chunk /= 2;
    }
    if y < cap_y {
        let ghost prev = output@;
        common_process_small_blocks(
            input,
            input_stride,
            output,
            output_stride,
            width,
            height,
            cn,
            flip,
            flop,
            y,
            cap_y - y,
        );
        proof {
            lemma_step_preserves(
                g,
                input@,
                old(output)@,
                prev,
                output@,
                0,
                width as int,
                sy,
                y as int,
                0,
                width as int,
                y as int,
                cap,
                0,
                width as int,
                sy,
                cap,
            );
            lemma_region_join_rows(g, input@, output@, 0, width as int, sy, y as int, cap);
        }
    }
}

} // verus!
