//! Scenarios for the transposing entry points: concrete rotations, all
//! four orientations, agreement of the different drivers, strided
//! buffers, and large images that cross the blocking thresholds.

use fast_transpose::transpose_arbitrary;
use fast_transpose::transpose_arbitrary_grouped;
use fast_transpose::transpose_plane;
use fast_transpose::transpose_plane16;
use fast_transpose::transpose_plane16_with_alpha;
use fast_transpose::transpose_plane_with_alpha;
use fast_transpose::transpose_rgb;
use fast_transpose::transpose_rgb16;
use fast_transpose::transpose_rgba;
use fast_transpose::transpose_rgba16;
use fast_transpose::FlipMode;
use fast_transpose::FlopMode;

/// Reference for the transposing map: destination row `x` (or
/// `width - 1 - x` under flop), destination column `height - 1 - y` (or
/// `y` under flip).
fn reference_transpose<V: Copy>(
    input: &[V],
    input_stride: usize,
    output: &mut [V],
    output_stride: usize,
    width: usize,
    height: usize,
    cn: usize,
    flip: bool,
    flop: bool,
) {
    for y in 0..height {
        for x in 0..width {
            for k in 0..cn {
                let dst_row = if flop { width - 1 - x } else { x };
                let dst_col = if flip { y } else { height - 1 - y };
                output[dst_row * output_stride + dst_col * cn + k] =
                    input[y * input_stride + x * cn + k];
            }
        }
    }
}

#[test]
fn test_transpose_plane_4x2_rotate90() {
    let input: Vec<u8> = vec![0, 1, 2, 3, 4, 5, 6, 7];
    let mut output = vec![0u8; 8];
    transpose_plane(&input, 4, &mut output, 2, 4, 2, FlipMode::NoFlip, FlopMode::NoFlop).unwrap();
    assert_eq!(output, vec![4, 0, 5, 1, 6, 2, 7, 3]);
}

#[test]
fn test_transpose_arbitrary_4x2_rotate90() {
    let input: Vec<u8> = vec![0, 1, 2, 3, 4, 5, 6, 7];
    let mut output = vec![0u8; 8];
    transpose_arbitrary(&input, &mut output, 4, 2, FlipMode::NoFlip, FlopMode::NoFlop).unwrap();
    assert_eq!(output, vec![4, 0, 5, 1, 6, 2, 7, 3]);
}

#[test]
fn test_transpose_plane_orientations() {
    let width = 5usize;
    let height = 3usize;
    let input: Vec<u8> = (0..(width * height) as u8).collect();
    for &flip in &[false, true] {
        for &flop in &[false, true] {
            let flip_mode = if flip { FlipMode::Flip } else { FlipMode::NoFlip };
            let flop_mode = if flop { FlopMode::Flop } else { FlopMode::NoFlop };
            let mut output = vec![0u8; width * height];
            let mut expected = vec![0u8; width * height];
            transpose_plane(
                &input, width, &mut output, height, width, height, flip_mode, flop_mode,
            )
            .unwrap();
            reference_transpose(&input, width, &mut expected, height, width, height, 1, flip, flop);
            assert_eq!(output, expected, "orientation flip={} flop={}", flip, flop);
        }
    }
}

#[test]
fn test_transpose_rgba_2x2_rotate90() {
    // Pixels [[A, B], [C, D]] become [[C, A], [D, B]].
    let a = [1u8, 2, 3, 4];
    let b = [5u8, 6, 7, 8];
    let c = [9u8, 10, 11, 12];
    let d = [13u8, 14, 15, 16];
    let mut input = Vec::new();
    input.extend_from_slice(&a);
    input.extend_from_slice(&b);
    input.extend_from_slice(&c);
    input.extend_from_slice(&d);
    let mut output = vec![0u8; 16];
    transpose_rgba(&input, 8, &mut output, 8, 2, 2, FlipMode::NoFlip, FlopMode::NoFlop).unwrap();
    let mut expected = Vec::new();
    expected.extend_from_slice(&c);
    expected.extend_from_slice(&a);
    expected.extend_from_slice(&d);
    expected.extend_from_slice(&b);
    assert_eq!(output, expected);
}

#[test]
fn test_transpose_rgb_3x2_exact() {
    let width = 3usize;
    let height = 2usize;
    let input: Vec<u8> = (0..(width * height * 3) as u8).collect();
    let mut output = vec![0u8; width * height * 3];
    let mut expected = vec![0u8; width * height * 3];
    transpose_rgb(
        &input,
        width * 3,
        &mut output,
        height * 3,
        width,
        height,
        FlipMode::NoFlip,
        FlopMode::NoFlop,
    )
    .unwrap();
    reference_transpose(
        &input,
        width * 3,
        &mut expected,
        height * 3,
        width,
        height,
        3,
        false,
        false,
    );
    assert_eq!(output, expected);
}

#[test]
fn test_transpose_plane_with_alpha_40x40() {
    let width = 40usize;
    let height = 40usize;
    let input: Vec<u8> = (0..width * height * 2).map(|v| (v % 251) as u8).collect();
    let mut output = vec![0u8; width * height * 2];
    let mut expected = vec![0u8; width * height * 2];
    transpose_plane_with_alpha(
        &input,
        width * 2,
        &mut output,
        height * 2,
        width,
        height,
        FlipMode::Flip,
        FlopMode::NoFlop,
    )
    .unwrap();
    reference_transpose(
        &input,
        width * 2,
        &mut expected,
        height * 2,
        width,
        height,
        2,
        true,
        false,
    );
    assert_eq!(output, expected);
}

#[test]
fn test_transpose_plane16_values_above_byte() {
    let input: Vec<u16> = vec![1000, 2000, 3000, 4000, 5000, 6000];
    let mut output = vec![0u16; 6];
    transpose_plane16(&input, 3, &mut output, 2, 3, 2, FlipMode::NoFlip, FlopMode::NoFlop)
        .unwrap();
    assert_eq!(output, vec![4000, 1000, 5000, 2000, 6000, 3000]);
}

#[test]
fn test_transpose_plane16_with_alpha_exact() {
    let width = 2usize;
    let height = 2usize;
    let input: Vec<u16> = vec![10, 11, 20, 21, 30, 31, 40, 41];
    let mut output = vec![0u16; 8];
    transpose_plane16_with_alpha(
        &input,
        width * 2,
        &mut output,
        height * 2,
        width,
        height,
        FlipMode::NoFlip,
        FlopMode::NoFlop,
    )
    .unwrap();
    // Pixels [[a, b], [c, d]] become [[c, a], [d, b]].
    assert_eq!(output, vec![30, 31, 10, 11, 40, 41, 20, 21]);
}

#[test]
fn test_transpose_rgb16_matches_reference() {
    let width = 7usize;
    let height = 5usize;
    let input: Vec<u16> = (0..width * height * 3).map(|v| (v * 17) as u16).collect();
    let mut output = vec![0u16; width * height * 3];
    let mut expected = vec![0u16; width * height * 3];
    transpose_rgb16(
        &input,
        width * 3,
        &mut output,
        height * 3,
        width,
        height,
        FlipMode::Flip,
        FlopMode::Flop,
    )
    .unwrap();
    reference_transpose(
        &input,
        width * 3,
        &mut expected,
        height * 3,
        width,
        height,
        3,
        true,
        true,
    );
    assert_eq!(output, expected);
}

#[test]
fn test_transpose_rgba16_matches_reference() {
    let width = 9usize;
    let height = 11usize;
    let input: Vec<u16> = (0..width * height * 4).map(|v| (v * 13) as u16).collect();
    let mut output = vec![0u16; width * height * 4];
    let mut expected = vec![0u16; width * height * 4];
    transpose_rgba16(
        &input,
        width * 4,
        &mut output,
        height * 4,
        width,
        height,
        FlipMode::NoFlip,
        FlopMode::Flop,
    )
    .unwrap();
    reference_transpose(
        &input,
        width * 4,
        &mut expected,
        height * 4,
        width,
        height,
        4,
        false,
        true,
    );
    assert_eq!(output, expected);
}

#[test]
fn test_rotation_cycle() {
    // Four quarter turns clockwise return the original image.
    let width = 5usize;
    let height = 3usize;
    let input: Vec<u8> = (0..(width * height) as u8).collect();
    let mut first = vec![0u8; width * height];
    let mut second = vec![0u8; width * height];
    let mut third = vec![0u8; width * height];
    let mut fourth = vec![0u8; width * height];
    transpose_plane(&input, width, &mut first, height, width, height, FlipMode::NoFlip, FlopMode::NoFlop)
        .unwrap();
    transpose_plane(&first, height, &mut second, width, height, width, FlipMode::NoFlip, FlopMode::NoFlop)
        .unwrap();
    transpose_plane(&second, width, &mut third, height, width, height, FlipMode::NoFlip, FlopMode::NoFlop)
        .unwrap();
    transpose_plane(&third, height, &mut fourth, width, height, width, FlipMode::NoFlip, FlopMode::NoFlop)
        .unwrap();
    assert_eq!(fourth, input);
}

#[test]
fn test_quarter_turns_compose_to_half_turn() {
    // Two quarter turns clockwise equal the half-turn rotation.
    let width = 6usize;
    let height = 4usize;
    let input: Vec<u8> = (0..(width * height) as u8).collect();
    let mut quarter = vec![0u8; width * height];
    let mut half = vec![0u8; width * height];
    transpose_plane(&input, width, &mut quarter, height, width, height, FlipMode::NoFlip, FlopMode::NoFlop)
        .unwrap();
    transpose_plane(&quarter, height, &mut half, width, height, width, FlipMode::NoFlip, FlopMode::NoFlop)
        .unwrap();
    let mut rotated = vec![0u8; width * height];
    fast_transpose::rotate180_plane(&input, width, &mut rotated, width, width, height).unwrap();
    assert_eq!(half, rotated);
}

#[test]
fn test_both_flags_reverse_the_turn() {
    // transpose with flip and flop both set == half turn of the plain
    // quarter turn clockwise.
    let width = 5usize;
    let height = 4usize;
    let input: Vec<u8> = (0..(width * height) as u8).collect();
    let mut both = vec![0u8; width * height];
    transpose_plane(&input, width, &mut both, height, width, height, FlipMode::Flip, FlopMode::Flop)
        .unwrap();
    let mut cw = vec![0u8; width * height];
    transpose_plane(&input, width, &mut cw, height, width, height, FlipMode::NoFlip, FlopMode::NoFlop)
        .unwrap();
    let mut turned = vec![0u8; width * height];
    fast_transpose::rotate180_plane(&cw, height, &mut turned, height, height, width).unwrap();
    assert_eq!(both, turned);
}

#[test]
fn test_paths_agree() {
    // The chunked driver, the recursive grouped engine and the dense
    // engine must produce identical output for the same image.
    let width = 37usize;
    let height = 23usize;
    let input: Vec<u8> = (0..width * height).map(|v| (v % 239) as u8).collect();
    for &flip in &[FlipMode::NoFlip, FlipMode::Flip] {
        for &flop in &[FlopMode::NoFlop, FlopMode::Flop] {
            let mut chunked = vec![0u8; width * height];
            let mut grouped = vec![0u8; width * height];
            let mut dense = vec![0u8; width * height];
            transpose_plane(&input, width, &mut chunked, height, width, height, flip, flop)
                .unwrap();
            transpose_arbitrary_grouped::<u8, 1>(
                &input, width, &mut grouped, height, width, height, flip, flop,
            )
            .unwrap();
            transpose_arbitrary(&input, &mut dense, width, height, flip, flop).unwrap();
            assert_eq!(chunked, grouped);
            assert_eq!(grouped, dense);
        }
    }
}

#[test]
fn test_transpose_strided_padding_kept() {
    // Strides wider than a row: the padding elements must keep their
    // previous values while the image lands transposed.
    let width = 3usize;
    let height = 2usize;
    let input_stride = 6usize;
    let output_stride = 4usize;
    let mut input = vec![0u8; input_stride * height];
    for y in 0..height {
        for x in 0..width {
            input[y * input_stride + x] = (10 * y + x) as u8;
        }
    }
    let mut output = vec![99u8; output_stride * width];
    let mut expected = vec![99u8; output_stride * width];
    transpose_plane16_like(&input, input_stride, &mut output, output_stride, width, height);
    reference_transpose(
        &input,
        input_stride,
        &mut expected,
        output_stride,
        width,
        height,
        1,
        false,
        false,
    );
    assert_eq!(output, expected);
    // The padding column of every destination row is untouched.
    for r in 0..width {
        for c in (height * 1)..output_stride {
            assert_eq!(output[r * output_stride + c], 99u8);
        }
    }
}

/// Calls the strided grouped entry point for a single-channel byte plane.
fn transpose_plane16_like(
    input: &[u8],
    input_stride: usize,
    output: &mut [u8],
    output_stride: usize,
    width: usize,
    height: usize,
) {
    transpose_arbitrary_grouped::<u8, 1>(
        input,
        input_stride,
        output,
        output_stride,
        width,
        height,
        FlipMode::NoFlip,
        FlopMode::NoFlop,
    )
    .unwrap();
}

#[test]
fn test_transpose_large_recursive() {
    // Spans beyond the bisection limit exercise the recursive split.
    let width = 200usize;
    let height = 150usize;
    let input: Vec<u16> = (0..width * height).map(|v| (v % 60013) as u16).collect();
    let mut output = vec![0u16; width * height];
    let mut expected = vec![0u16; width * height];
    transpose_plane16(
        &input,
        width,
        &mut output,
        height,
        width,
        height,
        FlipMode::NoFlip,
        FlopMode::NoFlop,
    )
    .unwrap();
    reference_transpose(&input, width, &mut expected, height, width, height, 1, false, false);
    assert_eq!(output, expected);
}

#[test]
fn test_transpose_rgba_beyond_cutoff() {
    // Enough pixels to leave the small-image path of the quad driver.
    let width = 2100usize;
    let height = 1000usize;
    let input: Vec<u8> = (0..width * height * 4).map(|v| (v % 253) as u8).collect();
    let mut output = vec![0u8; width * height * 4];
    let mut expected = vec![0u8; width * height * 4];
    transpose_rgba(
        &input,
        width * 4,
        &mut output,
        height * 4,
        width,
        height,
        FlipMode::NoFlip,
        FlopMode::NoFlop,
    )
    .unwrap();
    reference_transpose(
        &input,
        width * 4,
        &mut expected,
        height * 4,
        width,
        height,
        4,
        false,
        false,
    );
    assert_eq!(output, expected);
}
