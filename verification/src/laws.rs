//! Algebra of the operations: mirrors are involutions, four quarter turns
//! are the identity, the half turn is the two mirrors composed, and the
//! contracts leave one possible output.
//!
//! Each law is stated over the `image_mapped` relations that the entry
//! points establish, for arbitrary strides, and concludes with
//! [`identity_map`] or another operation's map, so that it applies to any
//! pair or chain of calls whose results it relates.

use crate::geometry::flip_map;
use crate::geometry::flop_map;
use crate::geometry::identity_map;
use crate::geometry::op_contract;
use crate::geometry::rotate180_map;
use crate::geometry::transpose_map;
use crate::geometry::PixelMap;
use crate::utils::TransposeError;
use vstd::prelude::*;

verus! {

/// Flipping is an involution: flipping a buffer and flipping the result
/// hands the original image back, whatever the three strides are.
pub proof fn lemma_flip_involution<V>(
    a: Seq<V>,
    b: Seq<V>,
    c: Seq<V>,
    s1: int,
    s2: int,
    s3: int,
    width: int,
    height: int,
    cn: int,
)
    requires
        flip_map(s1, s2, width, height, cn).image_mapped(a, b),
        flip_map(s2, s3, width, height, cn).image_mapped(b, c),
    ensures
        identity_map(s1, s3, width, height, cn).image_mapped(a, c),
{
    let g1 = flip_map(s1, s2, width, height, cn);
    let g2 = flip_map(s2, s3, width, height, cn);
    let id = identity_map(s1, s3, width, height, cn);
    assert forall|x: int, y: int| 0 <= x < width && 0 <= y < height implies #[trigger] id
        .pixel_mapped(a, c, x, y) by {
        assert(g1.pixel_mapped(a, b, x, y));
        assert(g2.pixel_mapped(b, c, x, height - 1 - y));
        assert forall|k: int| 0 <= k < cn implies c[#[trigger] id.dst_pos(x, y, k)] == a[id.src_pos(
            x,
            y,
            k,
        )] by {
            assert(id.dst_pos(x, y, k) == g2.dst_pos(x, height - 1 - y, k));
            assert(g2.src_pos(x, height - 1 - y, k) == g1.dst_pos(x, y, k));
        }
    }
}

/// Flopping is an involution: flopping a buffer and flopping the result
/// hands the original image back, whatever the three strides are.
pub proof fn lemma_flop_involution<V>(
    a: Seq<V>,
    b: Seq<V>,
    c: Seq<V>,
    s1: int,
    s2: int,
    s3: int,
    width: int,
    height: int,
    cn: int,
)
    requires
        flop_map(s1, s2, width, height, cn).image_mapped(a, b),
        flop_map(s2, s3, width, height, cn).image_mapped(b, c),
    ensures
        identity_map(s1, s3, width, height, cn).image_mapped(a, c),
{
    let g1 = flop_map(s1, s2, width, height, cn);
    let g2 = flop_map(s2, s3, width, height, cn);
    let id = identity_map(s1, s3, width, height, cn);
    assert forall|x: int, y: int| 0 <= x < width && 0 <= y < height implies #[trigger] id
        .pixel_mapped(a, c, x, y) by {
        assert(g1.pixel_mapped(a, b, x, y));
        assert(g2.pixel_mapped(b, c, width - 1 - x, y));
        assert forall|k: int| 0 <= k < cn implies c[#[trigger] id.dst_pos(x, y, k)] == a[id.src_pos(
            x,
            y,
            k,
        )] by {
            assert(id.dst_pos(x, y, k) == g2.dst_pos(width - 1 - x, y, k));
            assert(g2.src_pos(width - 1 - x, y, k) == g1.dst_pos(x, y, k));
        }
    }
}

/// The half turn is flipping followed by flopping.
pub proof fn lemma_rotate180_is_flip_then_flop<V>(
    a: Seq<V>,
    b: Seq<V>,
    c: Seq<V>,
    s1: int,
    s2: int,
    s3: int,
    width: int,
    height: int,
    cn: int,
)
    requires
        flip_map(s1, s2, width, height, cn).image_mapped(a, b),
        flop_map(s2, s3, width, height, cn).image_mapped(b, c),
    ensures
        rotate180_map(s1, s3, width, height, cn).image_mapped(a, c),
{
    let g1 = flip_map(s1, s2, width, height, cn);
    let g2 = flop_map(s2, s3, width, height, cn);
    let rot = rotate180_map(s1, s3, width, height, cn);
    assert forall|x: int, y: int| 0 <= x < width && 0 <= y < height implies #[trigger] rot
        .pixel_mapped(a, c, x, y) by {
        assert(g1.pixel_mapped(a, b, x, y));
        assert(g2.pixel_mapped(b, c, x, height - 1 - y));
        assert forall|k: int| 0 <= k < cn implies c[#[trigger] rot.dst_pos(x, y, k)] == a[rot
            .src_pos(x, y, k)] by {
            assert(rot.dst_pos(x, y, k) == g2.dst_pos(x, height - 1 - y, k));
            assert(g2.src_pos(x, height - 1 - y, k) == g1.dst_pos(x, y, k));
        }
    }
}

/// The half turn is flopping followed by flipping: together with
/// [`lemma_rotate180_is_flip_then_flop`] this says that the two mirrors
/// commute.
pub proof fn lemma_rotate180_is_flop_then_flip<V>(
    a: Seq<V>,
    b: Seq<V>,
    c: Seq<V>,
    s1: int,
    s2: int,
    s3: int,
    width: int,
    height: int,
    cn: int,
)
    requires
        flop_map(s1, s2, width, height, cn).image_mapped(a, b),
        flip_map(s2, s3, width, height, cn).image_mapped(b, c),
    ensures
        rotate180_map(s1, s3, width, height, cn).image_mapped(a, c),
{
    let g1 = flop_map(s1, s2, width, height, cn);
    let g2 = flip_map(s2, s3, width, height, cn);
    let rot = rotate180_map(s1, s3, width, height, cn);
    assert forall|x: int, y: int| 0 <= x < width && 0 <= y < height implies #[trigger] rot
        .pixel_mapped(a, c, x, y) by {
        assert(g1.pixel_mapped(a, b, x, y));
        assert(g2.pixel_mapped(b, c, width - 1 - x, y));
        assert forall|k: int| 0 <= k < cn implies c[#[trigger] rot.dst_pos(x, y, k)] == a[rot
            .src_pos(x, y, k)] by {
            assert(rot.dst_pos(x, y, k) == g2.dst_pos(width - 1 - x, y, k));
            assert(g2.src_pos(width - 1 - x, y, k) == g1.dst_pos(x, y, k));
        }
    }
}

/// Four quarter turns clockwise hand the original image back: dimensions
/// swap twice and return, and every pixel comes home, whatever the five
/// strides are.
#[allow(clippy::too_many_arguments)]
pub proof fn lemma_rotation_cycle<V>(
    a: Seq<V>,
    b: Seq<V>,
    c: Seq<V>,
    d: Seq<V>,
    e: Seq<V>,
    s1: int,
    s2: int,
    s3: int,
    s4: int,
    s5: int,
    width: int,
    height: int,
    cn: int,
)
    requires
        transpose_map(s1, s2, width, height, cn, false, false).image_mapped(a, b),
        transpose_map(s2, s3, height, width, cn, false, false).image_mapped(b, c),
        transpose_map(s3, s4, width, height, cn, false, false).image_mapped(c, d),
        transpose_map(s4, s5, height, width, cn, false, false).image_mapped(d, e),
    ensures
        identity_map(s1, s5, width, height, cn).image_mapped(a, e),
{
    let g1 = transpose_map(s1, s2, width, height, cn, false, false);
    let g2 = transpose_map(s2, s3, height, width, cn, false, false);
    let g3 = transpose_map(s3, s4, width, height, cn, false, false);
    let g4 = transpose_map(s4, s5, height, width, cn, false, false);
    let id = identity_map(s1, s5, width, height, cn);
    assert forall|x: int, y: int| 0 <= x < width && 0 <= y < height implies #[trigger] id
        .pixel_mapped(a, e, x, y) by {
        assert(g1.pixel_mapped(a, b, x, y));
        assert(g2.pixel_mapped(b, c, height - 1 - y, x));
        assert(g3.pixel_mapped(c, d, width - 1 - x, height - 1 - y));
        assert(g4.pixel_mapped(d, e, y, width - 1 - x));
        assert forall|k: int| 0 <= k < cn implies e[#[trigger] id.dst_pos(x, y, k)] == a[id.src_pos(
            x,
            y,
            k,
        )] by {
            assert(id.dst_pos(x, y, k) == g4.dst_pos(y, width - 1 - x, k));
            assert(g4.src_pos(y, width - 1 - x, k) == g3.dst_pos(width - 1 - x, height - 1 - y, k));
            assert(g3.src_pos(width - 1 - x, height - 1 - y, k) == g2.dst_pos(height - 1 - y, x, k));
            assert(g2.src_pos(height - 1 - y, x, k) == g1.dst_pos(x, y, k));
        }
    }
}

/// Transposing with both flags set is the quarter turn counter-clockwise:
/// a quarter turn clockwise followed by a half turn.
pub proof fn lemma_both_flags_reverse_the_turn<V>(
    a: Seq<V>,
    b: Seq<V>,
    c: Seq<V>,
    s1: int,
    s2: int,
    s3: int,
    width: int,
    height: int,
    cn: int,
)
    requires
        transpose_map(s1, s2, width, height, cn, false, false).image_mapped(a, b),
        rotate180_map(s2, s3, height, width, cn).image_mapped(b, c),
    ensures
        transpose_map(s1, s3, width, height, cn, true, true).image_mapped(a, c),
{
    let g1 = transpose_map(s1, s2, width, height, cn, false, false);
    let g2 = rotate180_map(s2, s3, height, width, cn);
    let ccw = transpose_map(s1, s3, width, height, cn, true, true);
    assert forall|x: int, y: int| 0 <= x < width && 0 <= y < height implies #[trigger] ccw
        .pixel_mapped(a, c, x, y) by {
        assert(g1.pixel_mapped(a, b, x, y));
        assert(g2.pixel_mapped(b, c, height - 1 - y, x));
        assert forall|k: int| 0 <= k < cn implies c[#[trigger] ccw.dst_pos(x, y, k)] == a[ccw
            .src_pos(x, y, k)] by {
            assert(ccw.dst_pos(x, y, k) == g2.dst_pos(height - 1 - y, x, k));
            assert(g2.src_pos(height - 1 - y, x, k) == g1.dst_pos(x, y, k));
        }
    }
}

/// The contract of an operation leaves one possible output: two buffers
/// that both satisfy it, starting from the same destination contents,
/// are equal.  This is what makes the per-pixel engine an oracle for any
/// other implementation of the same map, blocked or vectorized.
pub proof fn lemma_contract_determines_output<V>(
    g: PixelMap,
    inp: Seq<V>,
    base: Seq<V>,
    out1: Seq<V>,
    out2: Seq<V>,
)
    requires
        g.valid(),
        g.image_mapped(inp, out1),
        g.unchanged_outside(base, out1, 0, g.width, 0, g.height),
        g.image_mapped(inp, out2),
        g.unchanged_outside(base, out2, 0, g.width, 0, g.height),
    ensures
        out1 == out2,
{
    assert forall|i: int| 0 <= i < out1.len() implies out1[i] == out2[i] by {
        if g.in_dst_region(i, 0, g.width, 0, g.height) {
            let (x, y, k) = choose|x: int, y: int, k: int|
                0 <= x < g.width && 0 <= y < g.height && 0 <= k < g.cn && i == #[trigger] g.dst_pos(
                    x,
                    y,
                    k,
                );
            assert(g.pixel_mapped(inp, out1, x, y));
            assert(g.pixel_mapped(inp, out2, x, y));
        }
    }
    assert(out1 =~= out2);
}

/// Any two implementations of one operation agree: two calls that meet
/// the same contract for the same geometry, succeed, and start from equal
/// destination buffers leave equal buffers.  Blocked, recursive and
/// vectorized drivers of one map are therefore interchangeable.
pub proof fn lemma_implementations_agree<V>(
    r1: Result<(), TransposeError>,
    r2: Result<(), TransposeError>,
    inp: Seq<V>,
    base: Seq<V>,
    out1: Seq<V>,
    out2: Seq<V>,
    g: PixelMap,
    ok: bool,
)
    requires
        g.valid(),
        op_contract(r1, inp, base, out1, g, ok),
        op_contract(r2, inp, base, out2, g, ok),
        r1 is Ok,
    ensures
        r2 is Ok,
        out1 == out2,
{
    lemma_contract_determines_output(g, inp, base, out1, out2);
}

} // verus!
