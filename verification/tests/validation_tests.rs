//! Degenerate sizes and dimension validation: zero-sized images succeed
//! with empty output, and mismatched lengths or strides are reported,
//! never a panic.

use fast_transpose::flip_plane;
use fast_transpose::flip_plane16;
use fast_transpose::flip_rgb;
use fast_transpose::flop_plane;
use fast_transpose::flop_rgba;
use fast_transpose::rotate180_plane;
use fast_transpose::rotate180_rgb16;
use fast_transpose::transpose_arbitrary;
use fast_transpose::transpose_arbitrary_grouped;
use fast_transpose::transpose_plane;
use fast_transpose::transpose_plane16;
use fast_transpose::transpose_plane_with_alpha;
use fast_transpose::transpose_rgb;
use fast_transpose::transpose_rgba;
use fast_transpose::transpose_rgba16;
use fast_transpose::FlipMode;
use fast_transpose::FlopMode;
use fast_transpose::TransposeError;

#[test]
fn test_degenerate_zero_width() {
    let input: Vec<u8> = Vec::new();
    let mut output: Vec<u8> = Vec::new();
    assert_eq!(
        transpose_plane(&input, 0, &mut output, 7, 0, 7, FlipMode::NoFlip, FlopMode::NoFlop),
        Ok(())
    );
    assert!(output.is_empty());
    assert_eq!(flip_plane(&input, 0, &mut output, 0, 0, 7), Ok(()));
    assert_eq!(flop_plane(&input, 0, &mut output, 0, 0, 7), Ok(()));
    assert_eq!(rotate180_plane(&input, 0, &mut output, 0, 0, 7), Ok(()));
    assert!(output.is_empty());
}

#[test]
fn test_degenerate_zero_height() {
    let input: Vec<u8> = Vec::new();
    let mut output: Vec<u8> = Vec::new();
    assert_eq!(
        transpose_rgba(&input, 20, &mut output, 0, 5, 0, FlipMode::Flip, FlopMode::Flop),
        Ok(())
    );
    assert_eq!(
        transpose_arbitrary(&input, &mut output, 5, 0, FlipMode::NoFlip, FlopMode::NoFlop),
        Ok(())
    );
    assert!(output.is_empty());
    assert_eq!(flip_rgb(&input, 15, &mut output, 15, 5, 0), Ok(()));
    assert_eq!(flop_rgba(&input, 20, &mut output, 20, 5, 0), Ok(()));
    assert!(output.is_empty());
}

#[test]
fn test_degenerate_zero_by_zero_16bit() {
    let input: Vec<u16> = Vec::new();
    let mut output: Vec<u16> = Vec::new();
    assert_eq!(
        transpose_plane16(&input, 0, &mut output, 0, 0, 0, FlipMode::NoFlip, FlopMode::NoFlop),
        Ok(())
    );
    assert_eq!(flip_plane16(&input, 0, &mut output, 0, 0, 0), Ok(()));
    assert_eq!(rotate180_rgb16(&input, 0, &mut output, 0, 0, 0), Ok(()));
    assert!(output.is_empty());
}

#[test]
fn test_transpose_output_length_mismatch() {
    let input: Vec<u8> = vec![0; 8];
    let mut short = vec![0u8; 7];
    assert_eq!(
        transpose_plane(&input, 4, &mut short, 2, 4, 2, FlipMode::NoFlip, FlopMode::NoFlop),
        Err(TransposeError::MismatchDimensions)
    );
    assert_eq!(short, vec![0u8; 7]);
    assert_eq!(
        transpose_arbitrary(&input, &mut short, 4, 2, FlipMode::NoFlip, FlopMode::NoFlop),
        Err(TransposeError::MismatchDimensions)
    );
    let mut okay_len = vec![0u8; 8];
    assert_eq!(
        transpose_rgb(&input, 4, &mut okay_len, 2, 4, 2, FlipMode::NoFlip, FlopMode::NoFlop),
        Err(TransposeError::MismatchDimensions),
        "a stride below width * 3 must be rejected"
    );
}

#[test]
fn test_transpose_input_length_mismatch() {
    let input: Vec<u8> = vec![0; 9];
    let mut output = vec![0u8; 8];
    assert_eq!(
        transpose_plane(&input, 4, &mut output, 2, 4, 2, FlipMode::NoFlip, FlopMode::NoFlop),
        Err(TransposeError::MismatchDimensions)
    );
    let input16: Vec<u16> = vec![0; 9];
    let mut output16 = vec![0u16; 9];
    assert_eq!(
        transpose_plane16(&input16, 4, &mut output16, 2, 4, 2, FlipMode::NoFlip, FlopMode::NoFlop),
        Err(TransposeError::MismatchDimensions)
    );
}

#[test]
fn test_transpose_stride_too_small() {
    let input: Vec<u8> = vec![0; 12];
    let mut output = vec![0u8; 12];
    // Input stride 3 cannot hold a row of 2 two-channel pixels...
    assert_eq!(
        transpose_plane_with_alpha(&input, 3, &mut output, 4, 2, 4, FlipMode::NoFlip, FlopMode::NoFlop),
        Err(TransposeError::MismatchDimensions)
    );
    // ...and an output stride 3 cannot hold a column of 2 such pixels.
    assert_eq!(
        transpose_rgba16(
            &vec![0u16; 16],
            8,
            &mut vec![0u16; 16],
            7,
            2,
            2,
            FlipMode::NoFlip,
            FlopMode::NoFlop
        ),
        Err(TransposeError::MismatchDimensions)
    );
}

#[test]
fn test_mirror_length_mismatch() {
    let input: Vec<u8> = vec![0; 6];
    let mut short = vec![0u8; 5];
    assert_eq!(
        flip_plane(&input, 3, &mut short, 3, 3, 2),
        Err(TransposeError::MismatchDimensions)
    );
    assert_eq!(
        flop_plane(&input, 3, &mut short, 3, 3, 2),
        Err(TransposeError::MismatchDimensions)
    );
    assert_eq!(
        rotate180_plane(&input, 3, &mut short, 3, 3, 2),
        Err(TransposeError::MismatchDimensions)
    );
    assert_eq!(short, vec![0u8; 5]);
    let mut bad_stride = vec![0u8; 6];
    assert_eq!(
        flip_rgb(&input, 2, &mut bad_stride, 2, 1, 3),
        Err(TransposeError::MismatchDimensions)
    );
}

#[test]
fn test_grouped_length_equality_required() {
    // The grouped engine additionally requires equally long buffers.
    let input: Vec<u8> = vec![0; 8];
    let mut output = vec![0u8; 12];
    assert_eq!(
        transpose_arbitrary_grouped::<u8, 1>(
            &input,
            4,
            &mut output,
            3,
            4,
            2,
            FlipMode::NoFlip,
            FlopMode::NoFlop
        ),
        Err(TransposeError::MismatchDimensions)
    );
}

#[test]
fn test_rgba16_rejects_unequal_lengths() {
    // Each length agrees with its own stride, but the buffers differ in
    // length: the 16-bit RGBA entry point rejects the call.
    let input: Vec<u16> = vec![0; 4];
    let mut output = vec![0u16; 5];
    assert_eq!(
        transpose_rgba16(&input, 4, &mut output, 5, 1, 1, FlipMode::NoFlip, FlopMode::NoFlop),
        Err(TransposeError::MismatchDimensions)
    );
    assert_eq!(output, vec![0u16; 5]);
}

#[test]
fn test_errors_leave_output_untouched() {
    let input: Vec<u8> = vec![1, 2, 3, 4, 5, 6, 7, 8];
    let mut output = vec![42u8; 9];
    let r = transpose_plane(&input, 4, &mut output, 2, 4, 2, FlipMode::Flip, FlopMode::Flop);
    assert_eq!(r, Err(TransposeError::MismatchDimensions));
    assert_eq!(output, vec![42u8; 9]);
}
