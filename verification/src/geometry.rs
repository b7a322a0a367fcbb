//! Index model for the transposition and mirroring operations.
//!
//! Every operation of this crate moves whole pixels: a pixel is `cn`
//! consecutive elements, a row holds `width` pixels and begins every
//! `stride` elements.  A [`PixelMap`] records the geometry of one such
//! operation and says, for each source pixel `(x, y)`, at which linear
//! offset of the destination buffer it lands:
//!
//! * with `swap` set the destination row index is derived from `x` and the
//!   destination column from `y` (a transposition; the destination has
//!   `width` rows of `height` pixels);
//! * without `swap` the row is derived from `y` and the column from `x`
//!   (a mirror; the destination keeps the source dimensions);
//! * `rev_x` reverses the coordinate derived from `x`, `rev_y` the one
//!   derived from `y`.

use crate::utils::TransposeError;
use vstd::prelude::*;

verus! {

/// What every validated entry point promises: with `ok` the call succeeds,
/// moves the whole image as `g` describes and touches nothing else of the
/// destination; without it the call reports the dimension mismatch and
/// leaves the destination as it was.
pub open spec fn op_contract<V>(
    r: Result<(), TransposeError>,
    inp: Seq<V>,
    out0: Seq<V>,
    out1: Seq<V>,
    g: PixelMap,
    ok: bool,
) -> bool {
    &&& (r is Ok <==> ok)
    &&& (r is Ok ==> g.image_mapped(inp, out1) && g.unchanged_outside(
        out0,
        out1,
        0,
        g.width,
        0,
        g.height,
    ))
    &&& (r is Err ==> r == Err::<(), TransposeError>(TransposeError::MismatchDimensions) && out1
        == out0)
}

/// Geometry of one pixel-moving operation.
pub ghost struct PixelMap {
    /// Elements between consecutive source rows.
    pub input_stride: int,
    /// Elements between consecutive destination rows.
    pub output_stride: int,
    /// Source width in pixels.
    pub width: int,
    /// Source height in pixels.
    pub height: int,
    /// Elements per pixel.
    pub cn: int,
    /// Destination dimensions are the source dimensions swapped.
    pub swap: bool,
    /// Reverse the destination coordinate derived from `x`.
    pub rev_x: bool,
    /// Reverse the destination coordinate derived from `y`.
    pub rev_y: bool,
}

impl PixelMap {
    /// Number of rows of the destination image.
    pub open spec fn out_rows(self) -> int {
        if self.swap {
            self.width
        } else {
            self.height
        }
    }

    /// Number of pixels in one destination row.
    pub open spec fn out_cols(self) -> int {
        if self.swap {
            self.height
        } else {
            self.width
        }
    }

    /// The strides hold a whole row each and pixels are not empty.
    pub open spec fn valid(self) -> bool {
        &&& self.cn >= 1
        &&& self.width >= 0
        &&& self.height >= 0
        &&& self.input_stride >= self.width * self.cn
        &&& self.output_stride >= self.out_cols() * self.cn
    }

    /// The buffers hold at least the rows that the strides describe.
    pub open spec fn buffers_cover(self, in_len: int, out_len: int) -> bool {
        &&& in_len >= self.input_stride * self.height
        &&& out_len >= self.output_stride * self.out_rows()
    }

    /// Linear offset of element `k` of source pixel `(x, y)`.
    pub open spec fn src_pos(self, x: int, y: int, k: int) -> int {
        y * self.input_stride + x * self.cn + k
    }

    /// Destination coordinate derived from `x`.
    pub open spec fn x_image(self, x: int) -> int {
        if self.rev_x {
            self.width - 1 - x
        } else {
            x
        }
    }

    /// Destination coordinate derived from `y`.
    pub open spec fn y_image(self, y: int) -> int {
        if self.rev_y {
            self.height - 1 - y
        } else {
            y
        }
    }

    /// Destination row that receives source pixel `(x, y)`.
    pub open spec fn dst_row(self, x: int, y: int) -> int {
        if self.swap {
            self.x_image(x)
        } else {
            self.y_image(y)
        }
    }

    /// Destination column that receives source pixel `(x, y)`.
    pub open spec fn dst_col(self, x: int, y: int) -> int {
        if self.swap {
            self.y_image(y)
        } else {
            self.x_image(x)
        }
    }

    /// Linear offset of element `k` of source pixel `(x, y)` in the destination.
    pub open spec fn dst_pos(self, x: int, y: int, k: int) -> int {
        self.dst_row(x, y) * self.output_stride + self.dst_col(x, y) * self.cn + k
    }

    /// All `cn` elements of source pixel `(x, y)` have been moved to their
    /// destination offsets.
    pub open spec fn pixel_mapped<V>(self, inp: Seq<V>, out: Seq<V>, x: int, y: int) -> bool {
        forall|k: int|
            0 <= k < self.cn ==> out[#[trigger] self.dst_pos(x, y, k)] == inp[self.src_pos(x, y, k)]
    }

    /// Every source pixel of the rectangle `[x0, x1) x [y0, y1)` has been moved.
    pub open spec fn region_mapped<V>(
        self,
        inp: Seq<V>,
        out: Seq<V>,
        x0: int,
        x1: int,
        y0: int,
        y1: int,
    ) -> bool {
        forall|x: int, y: int|
            x0 <= x < x1 && y0 <= y < y1 ==> #[trigger] self.pixel_mapped(inp, out, x, y)
    }

    /// Every source pixel of the whole image has been moved.
    pub open spec fn image_mapped<V>(self, inp: Seq<V>, out: Seq<V>) -> bool {
        self.region_mapped(inp, out, 0, self.width, 0, self.height)
    }

    /// Offset `i` receives some element of the source rectangle
    /// `[x0, x1) x [y0, y1)`.
    pub open spec fn in_dst_region(self, i: int, x0: int, x1: int, y0: int, y1: int) -> bool {
        exists|x: int, y: int, k: int|
            x0 <= x < x1 && y0 <= y < y1 && 0 <= k < self.cn && i == #[trigger] self.dst_pos(
                x,
                y,
                k,
            )
    }

    /// Destination offsets that receive nothing from the rectangle
    /// `[x0, x1) x [y0, y1)` still hold their previous values.
    pub open spec fn unchanged_outside<V>(
        self,
        old_out: Seq<V>,
        out: Seq<V>,
        x0: int,
        x1: int,
        y0: int,
        y1: int,
    ) -> bool {
        &&& out.len() == old_out.len()
        &&& forall|i: int|
            0 <= i < out.len() && !self.in_dst_region(i, x0, x1, y0, y1) ==> #[trigger] out[i]
                == old_out[i]
    }
}

/// The geometry with the given strides, dimensions and placement flags.
pub open spec fn general_map(
    input_stride: int,
    output_stride: int,
    width: int,
    height: int,
    cn: int,
    swap: bool,
    rev_x: bool,
    rev_y: bool,
) -> PixelMap {
    PixelMap { input_stride, output_stride, width, height, cn, swap, rev_x, rev_y }
}

/// Geometry of a transposition with the given orientation flags.  Without
/// the flags source pixel `(x, y)` lands at destination row `x`, column
/// `height - 1 - y`: a rotation by a quarter turn clockwise.  `flip` keeps
/// the destination column at `y` instead and `flop` reverses the
/// destination row to `width - 1 - x`.
pub open spec fn transpose_map(
    input_stride: int,
    output_stride: int,
    width: int,
    height: int,
    cn: int,
    flip: bool,
    flop: bool,
) -> PixelMap {
    PixelMap {
        input_stride,
        output_stride,
        width,
        height,
        cn,
        swap: true,
        rev_x: flop,
        rev_y: !flip,
    }
}

/// Geometry of the copy that moves every pixel to its own place: under it
/// `image_mapped` says that the destination holds the same image as the
/// source, row by row and pixel by pixel.
pub open spec fn identity_map(
    input_stride: int,
    output_stride: int,
    width: int,
    height: int,
    cn: int,
) -> PixelMap {
    PixelMap {
        input_stride,
        output_stride,
        width,
        height,
        cn,
        swap: false,
        rev_x: false,
        rev_y: false,
    }
}

/// Geometry of the vertical mirror: row `y` lands on row `height - 1 - y`,
/// columns are unchanged.
pub open spec fn flip_map(
    input_stride: int,
    output_stride: int,
    width: int,
    height: int,
    cn: int,
) -> PixelMap {
    PixelMap {
        input_stride,
        output_stride,
        width,
        height,
        cn,
        swap: false,
        rev_x: false,
        rev_y: true,
    }
}

/// Geometry of the horizontal mirror: column `x` lands on column
/// `width - 1 - x`, rows are unchanged.
pub open spec fn flop_map(
    input_stride: int,
    output_stride: int,
    width: int,
    height: int,
    cn: int,
) -> PixelMap {
    PixelMap {
        input_stride,
        output_stride,
        width,
        height,
        cn,
        swap: false,
        rev_x: true,
        rev_y: false,
    }
}

/// Geometry of the half-turn rotation: both coordinates are reversed.
pub open spec fn rotate180_map(
    input_stride: int,
    output_stride: int,
    width: int,
    height: int,
    cn: int,
) -> PixelMap {
    PixelMap {
        input_stride,
        output_stride,
        width,
        height,
        cn,
        swap: false,
        rev_x: true,
        rev_y: true,
    }
}

/// Geometry of a square register-style tile transposition.  Without the
/// flags destination row `r` is source column `r` (the plain transpose);
/// `flip` reverses the placement of the destination rows and `flop`
/// reverses the element order within each destination row.
pub open spec fn tile_map(
    src_stride: int,
    dst_stride: int,
    size: int,
    cn: int,
    flip: bool,
    flop: bool,
) -> PixelMap {
    PixelMap {
        input_stride: src_stride,
        output_stride: dst_stride,
        width: size,
        height: size,
        cn,
        swap: true,
        rev_x: flip,
        rev_y: flop,
    }
}

/// Two decompositions `a * s + b` with remainders below `s` describe the
/// same number only when both parts agree.
pub proof fn lemma_div_parts_unique(a1: int, b1: int, a2: int, b2: int, s: int)
    requires
        0 <= b1 < s,
        0 <= b2 < s,
        a1 * s + b1 == a2 * s + b2,
    ensures
        a1 == a2,
        b1 == b2,
{
    assert(a1 == a2) by (nonlinear_arith)
        requires
            0 <= b1 < s,
            0 <= b2 < s,
            a1 * s + b1 == a2 * s + b2,
    ;
}

/// Source offsets of image pixels lie inside a buffer sized by
/// `buffers_sized`.
pub proof fn lemma_src_pos_in_range(g: PixelMap, x: int, y: int, k: int)
    requires
        g.valid(),
        0 <= x < g.width,
        0 <= y < g.height,
        0 <= k < g.cn,
    ensures
        0 <= x * g.cn + k < g.input_stride,
        0 <= g.src_pos(x, y, k) < g.input_stride * g.height,
{
    assert(x * g.cn + k < g.width * g.cn) by (nonlinear_arith)
        requires
            0 <= x < g.width,
            0 <= k < g.cn,
    ;
    assert(0 <= y * g.input_stride + (x * g.cn + k) < g.input_stride * g.height)
        by (nonlinear_arith)
        requires
            0 <= y < g.height,
            0 <= x * g.cn + k < g.input_stride,
    ;
}

/// Destination offsets of image pixels lie inside a buffer sized by
/// `buffers_sized`, and their row and column parts are in range.
pub proof fn lemma_dst_pos_in_range(g: PixelMap, x: int, y: int, k: int)
    requires
        g.valid(),
        0 <= x < g.width,
        0 <= y < g.height,
        0 <= k < g.cn,
    ensures
        0 <= g.dst_row(x, y) < g.out_rows(),
        0 <= g.dst_col(x, y) < g.out_cols(),
        0 <= g.dst_col(x, y) * g.cn + k < g.output_stride,
        0 <= g.dst_pos(x, y, k) < g.output_stride * g.out_rows(),
{
    let r = g.dst_row(x, y);
    let c = g.dst_col(x, y);
    assert(c * g.cn + k < g.out_cols() * g.cn) by (nonlinear_arith)
        requires
            0 <= c < g.out_cols(),
            0 <= k < g.cn,
    ;
    assert(0 <= r * g.output_stride + (c * g.cn + k) < g.output_stride * g.out_rows())
        by (nonlinear_arith)
        requires
            0 <= r < g.out_rows(),
            0 <= c * g.cn + k < g.output_stride,
    ;
}

/// Distinct elements of the image land at distinct destination offsets.
pub proof fn lemma_dst_pos_injective(
    g: PixelMap,
    x1: int,
    y1: int,
    k1: int,
    x2: int,
    y2: int,
    k2: int,
)
    requires
        g.valid(),
        0 <= x1 < g.width,
        0 <= y1 < g.height,
        0 <= k1 < g.cn,
        0 <= x2 < g.width,
        0 <= y2 < g.height,
        0 <= k2 < g.cn,
        g.dst_pos(x1, y1, k1) == g.dst_pos(x2, y2, k2),
    ensures
        x1 == x2,
        y1 == y2,
        k1 == k2,
{
    lemma_dst_pos_in_range(g, x1, y1, k1);
    lemma_dst_pos_in_range(g, x2, y2, k2);
    lemma_div_parts_unique(
        g.dst_row(x1, y1),
        g.dst_col(x1, y1) * g.cn + k1,
        g.dst_row(x2, y2),
        g.dst_col(x2, y2) * g.cn + k2,
        g.output_stride,
    );
    lemma_div_parts_unique(g.dst_col(x1, y1), k1, g.dst_col(x2, y2), k2, g.cn);
}

/// A rectangle that was already moved stays moved across a later step that
/// only writes destination offsets of a disjoint rectangle.
pub proof fn lemma_region_mapped_preserved<V>(
    g: PixelMap,
    inp: Seq<V>,
    mid: Seq<V>,
    out: Seq<V>,
    ax0: int,
    ax1: int,
    ay0: int,
    ay1: int,
    bx0: int,
    bx1: int,
    by0: int,
    by1: int,
)
    requires
        g.valid(),
        mid.len() >= g.output_stride * g.out_rows(),
        0 <= ax0 && ax1 <= g.width && 0 <= ay0 && ay1 <= g.height,
        0 <= bx0 && bx1 <= g.width && 0 <= by0 && by1 <= g.height,
        ax1 <= bx0 || bx1 <= ax0 || ay1 <= by0 || by1 <= ay0,
        g.region_mapped(inp, mid, ax0, ax1, ay0, ay1),
        g.unchanged_outside(mid, out, bx0, bx1, by0, by1),
    ensures
        g.region_mapped(inp, out, ax0, ax1, ay0, ay1),
{
    assert forall|x: int, y: int| ax0 <= x < ax1 && ay0 <= y < ay1 implies #[trigger] g
        .pixel_mapped(inp, out, x, y) by {
        assert(g.pixel_mapped(inp, mid, x, y));
        assert forall|k: int| 0 <= k < g.cn implies out[#[trigger] g.dst_pos(x, y, k)] == inp[g
            .src_pos(x, y, k)] by {
            let i = g.dst_pos(x, y, k);
            lemma_dst_pos_in_range(g, x, y, k);
            if g.in_dst_region(i, bx0, bx1, by0, by1) {
                let (x2, y2, k2) = choose|x2: int, y2: int, k2: int|
                    bx0 <= x2 < bx1 && by0 <= y2 < by1 && 0 <= k2 < g.cn && i == #[trigger] g
                        .dst_pos(x2, y2, k2);
                lemma_dst_pos_injective(g, x, y, k, x2, y2, k2);
            }
            assert(out[i] == mid[i]);
        }
    }
}

/// Writing only inside a small rectangle writes only inside any rectangle
/// that contains it.
pub proof fn lemma_unchanged_outside_widen<V>(
    g: PixelMap,
    old_out: Seq<V>,
    out: Seq<V>,
    sx0: int,
    sx1: int,
    sy0: int,
    sy1: int,
    bx0: int,
    bx1: int,
    by0: int,
    by1: int,
)
    requires
        g.unchanged_outside(old_out, out, sx0, sx1, sy0, sy1),
        (sx0 >= sx1 || sy0 >= sy1) || (bx0 <= sx0 && sx1 <= bx1 && by0 <= sy0 && sy1 <= by1),
    ensures
        g.unchanged_outside(old_out, out, bx0, bx1, by0, by1),
{
    assert forall|i: int|
        0 <= i < out.len() && !g.in_dst_region(i, bx0, bx1, by0, by1) implies #[trigger] out[i]
        == old_out[i] by {
        if g.in_dst_region(i, sx0, sx1, sy0, sy1) {
            let (x, y, k) = choose|x: int, y: int, k: int|
                sx0 <= x < sx1 && sy0 <= y < sy1 && 0 <= k < g.cn && i == #[trigger] g.dst_pos(
                    x,
                    y,
                    k,
                );
            assert(bx0 <= x < bx1 && by0 <= y < by1);
            assert(g.in_dst_region(i, bx0, bx1, by0, by1));
        }
    }
}

/// Two moved rectangles stacked in the `y` direction form one moved
/// rectangle.
pub proof fn lemma_region_join_rows<V>(
    g: PixelMap,
    inp: Seq<V>,
    out: Seq<V>,
    x0: int,
    x1: int,
    y0: int,
    ym: int,
    y1: int,
)
    requires
        y0 <= ym <= y1,
        g.region_mapped(inp, out, x0, x1, y0, ym),
        g.region_mapped(inp, out, x0, x1, ym, y1),
    ensures
        g.region_mapped(inp, out, x0, x1, y0, y1),
{
    assert forall|x: int, y: int| x0 <= x < x1 && y0 <= y < y1 implies #[trigger] g.pixel_mapped(
        inp,
        out,
        x,
        y,
    ) by {
        if y < ym {
            assert(g.region_mapped(inp, out, x0, x1, y0, ym));
        } else {
            assert(g.region_mapped(inp, out, x0, x1, ym, y1));
        }
    }
}

/// Two moved rectangles side by side in the `x` direction form one moved
/// rectangle.
pub proof fn lemma_region_join_cols<V>(
    g: PixelMap,
    inp: Seq<V>,
    out: Seq<V>,
    x0: int,
    xm: int,
    x1: int,
    y0: int,
    y1: int,
)
    requires
        x0 <= xm <= x1,
        g.region_mapped(inp, out, x0, xm, y0, y1),
        g.region_mapped(inp, out, xm, x1, y0, y1),
    ensures
        g.region_mapped(inp, out, x0, x1, y0, y1),
{
    assert forall|x: int, y: int| x0 <= x < x1 && y0 <= y < y1 implies #[trigger] g.pixel_mapped(
        inp,
        out,
        x,
        y,
    ) by {
        if x < xm {
            assert(g.region_mapped(inp, out, x0, xm, y0, y1));
        } else {
            assert(g.region_mapped(inp, out, xm, x1, y0, y1));
        }
    }
}

/// Bookkeeping for one step of a larger traversal.  A step that moved the
/// rectangle `B` and wrote nothing else keeps a disjoint rectangle `A`
/// moved, and keeps all writes since the buffer state `base` confined to
/// the surrounding rectangle `F` as long as `B` lies inside `F`.
#[allow(clippy::too_many_arguments)]
pub proof fn lemma_step_preserves<V>(
    g: PixelMap,
    inp: Seq<V>,
    base: Seq<V>,
    before: Seq<V>,
    after: Seq<V>,
    ax0: int,
    ax1: int,
    ay0: int,
    ay1: int,
    bx0: int,
    bx1: int,
    by0: int,
    by1: int,
    fx0: int,
    fx1: int,
    fy0: int,
    fy1: int,
)
    requires
        g.valid(),
        before.len() >= g.output_stride * g.out_rows(),
        0 <= ax0 && ax1 <= g.width && 0 <= ay0 && ay1 <= g.height,
        0 <= bx0 && bx1 <= g.width && 0 <= by0 && by1 <= g.height,
        ax1 <= bx0 || bx1 <= ax0 || ay1 <= by0 || by1 <= ay0,
        (bx0 >= bx1 || by0 >= by1) || (fx0 <= bx0 && bx1 <= fx1 && fy0 <= by0 && by1 <= fy1),
        g.region_mapped(inp, before, ax0, ax1, ay0, ay1),
        g.unchanged_outside(before, after, bx0, bx1, by0, by1),
        g.unchanged_outside(base, before, fx0, fx1, fy0, fy1),
    ensures
        g.region_mapped(inp, after, ax0, ax1, ay0, ay1),
        g.unchanged_outside(base, after, fx0, fx1, fy0, fy1),
{
    lemma_region_mapped_preserved(
        g,
        inp,
        before,
        after,
        ax0,
        ax1,
        ay0,
        ay1,
        bx0,
        bx1,
        by0,
        by1,
    );
    lemma_unchanged_outside_widen(g, before, after, bx0, bx1, by0, by1, fx0, fx1, fy0, fy1);
    lemma_unchanged_outside_trans(g, base, before, after, fx0, fx1, fy0, fy1);
}

/// Two consecutive steps that write only inside the same rectangle write
/// only inside that rectangle.
pub proof fn lemma_unchanged_outside_trans<V>(
    g: PixelMap,
    first: Seq<V>,
    mid: Seq<V>,
    out: Seq<V>,
    x0: int,
    x1: int,
    y0: int,
    y1: int,
)
    requires
        g.unchanged_outside(first, mid, x0, x1, y0, y1),
        g.unchanged_outside(mid, out, x0, x1, y0, y1),
    ensures
        g.unchanged_outside(first, out, x0, x1, y0, y1),
{
}

} // verus!
