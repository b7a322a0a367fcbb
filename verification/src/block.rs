//! The scalar block primitive: every operation of the crate bottoms out in
//! this per-pixel copy of a rectangle of the source image.

use crate::geometry::general_map;
use crate::geometry::lemma_dst_pos_in_range;
use crate::geometry::lemma_dst_pos_injective;
use crate::geometry::lemma_region_join_rows;
use crate::geometry::lemma_region_mapped_preserved;
use crate::geometry::lemma_src_pos_in_range;
use crate::geometry::lemma_step_preserves;
use crate::geometry::lemma_unchanged_outside_trans;
use crate::geometry::lemma_unchanged_outside_widen;
use vstd::prelude::*;

verus! {

/// Copies the source rectangle `[start_x, start_x + block_width) x
/// [start_y, start_y + block_height)` to its destination, one element at a
/// time, following the placement that `swap`, `rev_x` and `rev_y` select
/// (see [`crate::geometry::PixelMap`]).  Destination offsets that receive
/// nothing from the rectangle keep their values.
#[verifier::loop_isolation(false)]
#[allow(clippy::too_many_arguments)]
pub(crate) fn transpose_block<V: Copy>(
    input: &[V],
    input_stride: usize,
    output: &mut [V],
    output_stride: usize,
    width: usize,
    height: usize,
    cn: usize,
    swap: bool,
    rev_x: bool,
    rev_y: bool,
    start_x: usize,
    start_y: usize,
    block_width: usize,
    block_height: usize,
)
    requires
        general_map(
            input_stride as int,
            output_stride as int,
            width as int,
            height as int,
            cn as int,
            swap,
            rev_x,
            rev_y,
        ).valid(),
        general_map(
            input_stride as int,
            output_stride as int,
            width as int,
            height as int,
            cn as int,
            swap,
            rev_x,
            rev_y,
        ).buffers_cover(input@.len() as int, old(output)@.len() as int),
        start_x + block_width <= width,
        start_y + block_height <= height,
    ensures
        general_map(
            input_stride as int,
            output_stride as int,
            width as int,
            height as int,
            cn as int,
            swap,
            rev_x,
            rev_y,
        ).region_mapped(
            input@,
            final(output)@,
            start_x as int,
            start_x + block_width,
            start_y as int,
            start_y + block_height,
        ),
        general_map(
            input_stride as int,
            output_stride as int,
            width as int,
            height as int,
            cn as int,
            swap,
            rev_x,
            rev_y,
        ).unchanged_outside(
            old(output)@,
            final(output)@,
            start_x as int,
            start_x + block_width,
            start_y as int,
            start_y + block_height,
        ),
{
    let ghost g = general_map(
        input_stride as int,
        output_stride as int,
        width as int,
        height as int,
        cn as int,
        swap,
        rev_x,
        rev_y,
    );
    let ghost sx = start_x as int;
    let ghost sy = start_y as int;
    let ghost bw = block_width as int;
    let ghost bh = block_height as int;

    let mut inner_x: usize = 0;
    while inner_x < block_width
        invariant
            inner_x <= block_width,
            g.region_mapped(input@, output@, sx, sx + inner_x, sy, sy + bh),
            g.unchanged_outside(old(output)@, output@, sx, sx + bw, sy, sy + bh),
        decreases block_width - inner_x,
    {
        let x = start_x + inner_x;
        let mut inner_y: usize = 0;
        while inner_y < block_height
            invariant
                inner_x < block_width,
                inner_y <= block_height,
                x == start_x + inner_x,
                g.region_mapped(input@, output@, sx, sx + inner_x, sy, sy + bh),
                g.region_mapped(input@, output@, x as int, x + 1, sy, sy + inner_y),
                g.unchanged_outside(old(output)@, output@, sx, sx + bw, sy, sy + bh),
            decreases block_height - inner_y,
        {
            let y = start_y + inner_y;
            let x_img = if rev_x {
                width - 1 - x
            } else {
                x
            };
            let y_img = if rev_y {
                height - 1 - y
            } else {
                y
            };
            let dst_r = if swap {
                x_img
            } else {
                y_img
            };
            let dst_c = if swap {
                y_img
            } else {
                x_img
            };
            proof {
                assert(dst_r as int == g.dst_row(x as int, y as int));
                assert(dst_c as int == g.dst_col(x as int, y as int));
            }
            let mut k: usize = 0;
            while k < cn
                invariant
                    inner_x < block_width,
                    inner_y < block_height,
                    k <= cn,
                    x == start_x + inner_x,
                    y == start_y + inner_y,
                    dst_r as int == g.dst_row(x as int, y as int),
                    dst_c as int == g.dst_col(x as int, y as int),
                    g.region_mapped(input@, output@, sx, sx + inner_x, sy, sy + bh),
                    g.region_mapped(input@, output@, x as int, x + 1, sy, sy + inner_y),
                    forall|k2: int|
                        0 <= k2 < k ==> output@[#[trigger] g.dst_pos(x as int, y as int, k2)]
                            == input@[g.src_pos(x as int, y as int, k2)],
                    g.unchanged_outside(old(output)@, output@, sx, sx + bw, sy, sy + bh),
                decreases cn - k,
            {
                proof {
                    lemma_src_pos_in_range(g, x as int, y as int, k as int);
                    lemma_dst_pos_in_range(g, x as int, y as int, k as int);
                    assert(input@.len() >= input_stride * height);
                    assert(output@.len() >= output_stride * g.out_rows());
                    assert(g.src_pos(x as int, y as int, k as int) < input@.len());
                    assert(g.dst_pos(x as int, y as int, k as int) < output@.len());
                    assert(input@.len() <= usize::MAX) by {
                        assert(input@.len() == input.len());
                    }
                    assert(output@.len() <= usize::MAX) by {
                        assert(output@.len() == output.len());
                    }
                }
                let src_index = y * input_stride + x * cn + k;
                let dst_index = dst_r * output_stride + dst_c * cn + k;
                proof {
                    assert(src_index as int == g.src_pos(x as int, y as int, k as int));
                    assert(dst_index as int == g.dst_pos(x as int, y as int, k as int));
                }
                let v = input[src_index];
                let ghost prev = output@;
                output[dst_index] = v;
                proof {
                    let xi = x as int;
                    let yi = y as int;
                    let ki = k as int;
                    let di = dst_index as int;
                    assert(g.in_dst_region(di, xi, xi + 1, yi, yi + 1)) by {
                        assert(xi <= xi < xi + 1 && yi <= yi < yi + 1 && 0 <= ki < g.cn && di
                            == g.dst_pos(xi, yi, ki));
                    }
                    assert(g.unchanged_outside(prev, output@, xi, xi + 1, yi, yi + 1));
                    lemma_region_mapped_preserved(
                        g,
                        input@,
                        prev,
                        output@,
                        sx,
                        sx + inner_x,
                        sy,
                        sy + bh,
                        xi,
                        xi + 1,
                        yi,
                        yi + 1,
                    );
                    lemma_region_mapped_preserved(
                        g,
                        input@,
                        prev,
                        output@,
                        xi,
                        xi + 1,
                        sy,
                        sy + inner_y,
                        xi,
                        xi + 1,
                        yi,
                        yi + 1,
                    );
                    assert forall|k2: int| 0 <= k2 < ki implies output@[#[trigger] g.dst_pos(
                        xi,
                        yi,
                        k2,
                    )] == input@[g.src_pos(xi, yi, k2)] by {
                        lemma_dst_pos_in_range(g, xi, yi, k2);
                        if g.dst_pos(xi, yi, k2) == di {
                            lemma_dst_pos_injective(g, xi, yi, k2, xi, yi, ki);
                        }
                    }
                    lemma_unchanged_outside_widen(
                        g,
                        prev,
                        output@,
                        xi,
                        xi + 1,
                        yi,
                        yi + 1,
                        sx,
                        sx + bw,
                        sy,
                        sy + bh,
                    );
                    lemma_unchanged_outside_trans(
                        g,
                        old(output)@,
                        prev,
                        output@,
                        sx,
                        sx + bw,
                        sy,
                        sy + bh,
                    );
                }
                k += 1;
            }
            proof {
                let xi = x as int;
                let yi = y as int;
                assert(g.pixel_mapped(input@, output@, xi, yi));
                assert forall|x2: int, y2: int|
                    xi <= x2 < xi + 1 && sy <= y2 < sy + inner_y + 1 implies #[trigger] g
                    .pixel_mapped(input@, output@, x2, y2) by {
                    if y2 < sy + inner_y {
                        assert(g.region_mapped(input@, output@, xi, xi + 1, sy, sy + inner_y));
                    }
                }
            }
            inner_y += 1;
        }
        proof {
            let xi = x as int;
            assert forall|x2: int, y2: int|
                sx <= x2 < sx + inner_x + 1 && sy <= y2 < sy + bh implies #[trigger] g.pixel_mapped(
                input@,
                output@,
                x2,
                y2,
            ) by {
                if x2 < sx + inner_x {
                    assert(g.region_mapped(input@, output@, sx, sx + inner_x, sy, sy + bh));
                } else {
                    assert(g.region_mapped(input@, output@, xi, xi + 1, sy, sy + bh));
                }
            }
        }
        inner_x += 1;
    }
}

/// Copies a block whose height is a multiple of four as four stacked
/// strips, improving locality of the writes without changing what is
/// written: the contract is that of [`transpose_block`].
#[verifier::loop_isolation(false)]
#[allow(clippy::too_many_arguments)]
pub(crate) fn transpose_block_segmented<V: Copy>(
    input: &[V],
    input_stride: usize,
    output: &mut [V],
    output_stride: usize,
    width: usize,
    height: usize,
    cn: usize,
    swap: bool,
    rev_x: bool,
    rev_y: bool,
    start_x: usize,
    start_y: usize,
    block_width: usize,
    block_height: usize,
)
    requires
        general_map(
            input_stride as int,
            output_stride as int,
            width as int,
            height as int,
            cn as int,
            swap,
            rev_x,
            rev_y,
        ).valid(),
        general_map(
            input_stride as int,
            output_stride as int,
            width as int,
            height as int,
            cn as int,
            swap,
            rev_x,
            rev_y,
        ).buffers_cover(input@.len() as int, old(output)@.len() as int),
        start_x + block_width <= width,
        start_y + block_height <= height,
        block_height % 4 == 0,
    ensures
        general_map(
            input_stride as int,
            output_stride as int,
            width as int,
            height as int,
            cn as int,
            swap,
            rev_x,
            rev_y,
        ).region_mapped(
            input@,
            final(output)@,
            start_x as int,
            start_x + block_width,
            start_y as int,
            start_y + block_height,
        ),
        general_map(
            input_stride as int,
            output_stride as int,
            width as int,
            height as int,
            cn as int,
            swap,
            rev_x,
            rev_y,
        ).unchanged_outside(
            old(output)@,
            final(output)@,
            start_x as int,
            start_x + block_width,
            start_y as int,
            start_y + block_height,
        ),
{
    let ghost g = general_map(
        input_stride as int,
        output_stride as int,
        width as int,
        height as int,
        cn as int,
        swap,
        rev_x,
        rev_y,
    );
    let ghost sx = start_x as int;
    let ghost sy = start_y as int;
    let ghost bw = block_width as int;
    let ghost bh = block_height as int;

    let height_per_div = block_height / 4;
    proof {
        assert(block_height == 4 * height_per_div);
    }
    let mut subblock: usize = 0;
    while subblock < 4
        invariant
            subblock <= 4,
            g.region_mapped(input@, output@, sx, sx + bw, sy, sy + subblock * height_per_div),
            g.unchanged_outside(old(output)@, output@, sx, sx + bw, sy, sy + bh),
        decreases 4 - subblock,
    {
        proof {
            assert(subblock * height_per_div + height_per_div == (subblock + 1) * height_per_div
                && (subblock + 1) * height_per_div <= 4 * height_per_div) by (nonlinear_arith)
                requires
                    subblock < 4,
                    height_per_div >= 0,
            ;
        }
        let row = start_y + subblock * height_per_div;
        let ghost prev = output@;
        transpose_block(
            input,
            input_stride,
            output,
            output_stride,
            width,
            height,
            cn,
            swap,
            rev_x,
            rev_y,
            start_x,
            row,
            block_width,
            height_per_div,
        );
        proof {
            lemma_step_preserves(
                g,
                input@,
                old(output)@,
                prev,
                output@,
                sx,
                sx + bw,
                sy,
                sy + subblock * height_per_div,
                sx,
                sx + bw,
                row as int,
                row + height_per_div,
                sx,
                sx + bw,
                sy,
                sy + bh,
            );
            lemma_region_join_rows(
                g,
                input@,
                output@,
                sx,
                sx + bw,
                sy,
                sy + subblock * height_per_div,
                row + height_per_div,
            );
        }
        subblock += 1;
    }
}

} // verus!
