//! Tile-kernel scenarios: the scalar tile transpose must reproduce the
//! classic register-kernel results for every element width.

use fast_transpose::transpose_tile;
use fast_transpose::FlipMode;
use fast_transpose::FlopMode;

#[test]
fn test_avx_transpose_8x8() {
    let mut src: Vec<f32> = vec![0f32; 64];
    for c in src.iter_mut().enumerate() {
        *c.1 = c.0 as f32;
    }

    let mut expected = vec![0f32; 64];
    for (y, chunk) in expected.chunks_exact_mut(8).enumerate() {
        for (x, dst) in chunk.iter_mut().enumerate() {
            *dst = (x * 8 + y) as f32;
        }
    }

    let mut dst = vec![0f32; 64];

    transpose_tile::<f32>(&src, 8, &mut dst, 8, 8, 1, FlipMode::NoFlip, FlopMode::NoFlop);

    assert_eq!(
        expected, dst,
        "The transposed matrix does not match the expected result"
    );
}

#[test]
fn test_avx_transpose_8x8_flip() {
    let mut src: Vec<f32> = vec![0f32; 64];
    for c in src.iter_mut().enumerate() {
        *c.1 = c.0 as f32;
    }

    // Expected output: transpose of the 8x8 matrix
    let mut expected = vec![0f32; 64];
    for (y, chunk) in expected.chunks_exact_mut(8).enumerate() {
        for (x, dst) in chunk.iter_mut().enumerate() {
            *dst = (x * 8 + (7 - y)) as f32;
        }
    }

    let mut dst = vec![0f32; 64];

    transpose_tile::<f32>(&src, 8, &mut dst, 8, 8, 1, FlipMode::Flip, FlopMode::NoFlop);

    assert_eq!(
        expected, dst,
        "The transposed matrix does not match the expected result"
    );
}

#[test]
fn test_neon_transpose_16x16() {
    // Define a 16x16 source matrix
    let mut src: Vec<u8> = vec![0u8; 256];
    for c in src.iter_mut().enumerate() {
        *c.1 = c.0 as u8;
    }

    // Expected output: transpose of the 16x16 matrix
    let mut expected = vec![0u8; 256];
    for (y, chunk) in expected.chunks_exact_mut(16).enumerate() {
        for (x, dst) in chunk.iter_mut().enumerate() {
            *dst = (x * 16 + y) as u8;
        }
    }

    // Create the destination matrix
    let mut dst = vec![0u8; 256];

    transpose_tile::<u8>(&src, 16, &mut dst, 16, 16, 1, FlipMode::NoFlip, FlopMode::NoFlop);

    // Compare the result with the expected matrix
    assert_eq!(
        expected, dst,
        "The transposed matrix does not match the expected result"
    );
}

#[test]
fn test_neon_transpose_4x4_f32() {
    let mut src: Vec<f32> = vec![0f32; 16];
    for c in src.iter_mut().enumerate() {
        *c.1 = c.0 as f32;
    }

    // Expected output: transpose of the 4x4 matrix
    let mut expected = vec![0f32; 16];
    for (y, chunk) in expected.chunks_exact_mut(4).enumerate() {
        for (x, dst) in chunk.iter_mut().enumerate() {
            *dst = (x * 4 + y) as f32;
        }
    }

    // Create the destination matrix
    let mut dst = vec![0f32; 16];

    transpose_tile::<f32>(&src, 4, &mut dst, 4, 4, 1, FlipMode::NoFlip, FlopMode::NoFlop);

    println!("Expected");
    for lane in expected.chunks_exact(4) {
        println!("{:?}", lane);
    }

    println!("Received");
    for lane in dst.chunks_exact(4) {
        println!("{:?}", lane);
    }

    // Compare the result with the expected matrix
    assert_eq!(
        expected, dst,
        "The transposed matrix does not match the expected result"
    );
}

#[test]
fn test_neon_transpose_16x16_f32() {
    let mut src: Vec<f32> = vec![0f32; 64];
    for c in src.iter_mut().enumerate() {
        *c.1 = c.0 as f32;
    }

    // Expected output: transpose of the 8x8 matrix
    let mut expected = vec![0f32; 64];
    for (y, chunk) in expected.chunks_exact_mut(8).enumerate() {
        for (x, dst) in chunk.iter_mut().enumerate() {
            *dst = (x * 8 + y) as f32;
        }
    }

    // Create the destination matrix
    let mut dst = vec![0f32; 64];

    transpose_tile::<f32>(&src, 8, &mut dst, 8, 8, 1, FlipMode::NoFlip, FlopMode::NoFlop);

    println!("Expected");
    for lane in expected.chunks_exact(8) {
        println!("{:?}", lane);
    }

    println!("Received");
    for lane in dst.chunks_exact(8) {
        println!("{:?}", lane);
    }

    // Compare the result with the expected matrix
    assert_eq!(
        expected, dst,
        "The transposed matrix does not match the expected result"
    );
}

#[test]
fn transpose_8x8_u16_test_neon_transpose_8x8() {
    let mut src: Vec<u16> = vec![0u16; 64];
    for c in src.iter_mut().enumerate() {
        *c.1 = c.0 as u16;
    }

    let mut expected = vec![0u16; 64];
    for (y, chunk) in expected.chunks_exact_mut(8).enumerate() {
        for (x, dst) in chunk.iter_mut().enumerate() {
            *dst = (x * 8 + y) as u16;
        }
    }

    let mut dst = vec![0u16; 64];

    transpose_tile::<u16>(&src, 8, &mut dst, 8, 8, 1, FlipMode::NoFlip, FlopMode::NoFlop);

    assert_eq!(
        expected, dst,
        "The transposed matrix does not match the expected result"
    );
}

#[test]
fn transpose_8x8_u16_test_neon_transpose_8x8_flip() {
    let mut src: Vec<u16> = vec![0u16; 64];
    for c in src.iter_mut().enumerate() {
        *c.1 = c.0 as u16;
    }

    let mut expected = vec![0u16; 64];
    for (y, chunk) in expected.chunks_exact_mut(8).enumerate() {
        for (x, dst) in chunk.iter_mut().enumerate() {
            *dst = (x * 8 + (7 - y)) as u16;
        }
    }

    let mut dst = vec![0u16; 64];

    transpose_tile::<u16>(&src, 8, &mut dst, 8, 8, 1, FlipMode::Flip, FlopMode::NoFlop);

    assert_eq!(
        expected, dst,
        "The transposed matrix does not match the expected result"
    );
}

#[test]
fn transpose_8x8_u8_test_neon_transpose_8x8() {
    let mut src: Vec<u8> = vec![0u8; 64];
    for c in src.iter_mut().enumerate() {
        *c.1 = c.0 as u8;
    }

    let mut expected = vec![0u8; 64];
    for (y, chunk) in expected.chunks_exact_mut(8).enumerate() {
        for (x, dst) in chunk.iter_mut().enumerate() {
            *dst = (x * 8 + y) as u8;
        }
    }

    let mut dst = vec![0u8; 64];

    transpose_tile::<u8>(&src, 8, &mut dst, 8, 8, 1, FlipMode::NoFlip, FlopMode::NoFlop);

    assert_eq!(
        expected, dst,
        "The transposed matrix does not match the expected result"
    );
}

#[test]
fn transpose_8x8_u8_test_neon_transpose_8x8_flip() {
    let mut src: Vec<u8> = vec![0u8; 64];
    for c in src.iter_mut().enumerate() {
        *c.1 = c.0 as u8;
    }

    let mut expected = vec![0u8; 64];
    for (y, chunk) in expected.chunks_exact_mut(8).enumerate() {
        for (x, dst) in chunk.iter_mut().enumerate() {
            *dst = (x * 8 + (7 - y)) as u8;
        }
    }

    let mut dst = vec![0u8; 64];

    transpose_tile::<u8>(&src, 8, &mut dst, 8, 8, 1, FlipMode::Flip, FlopMode::NoFlop);

    assert_eq!(
        expected, dst,
        "The transposed matrix does not match the expected result"
    );
}

#[test]
fn test_sse_transpose_4x4_f32() {
    let mut src: Vec<f32> = vec![0f32; 16];
    for c in src.iter_mut().enumerate() {
        *c.1 = c.0 as f32;
    }

    // Expected output: transpose of the 4x4 matrix
    let mut expected = vec![0f32; 16];
    for (y, chunk) in expected.chunks_exact_mut(4).enumerate() {
        for (x, dst) in chunk.iter_mut().enumerate() {
            *dst = (x * 4 + y) as f32;
        }
    }

    // Create the destination matrix
    let mut dst = vec![0f32; 16];

    transpose_tile::<f32>(&src, 4, &mut dst, 4, 4, 1, FlipMode::NoFlip, FlopMode::NoFlop);

    println!("Expected");
    for lane in expected.chunks_exact(4) {
        println!("{:?}", lane);
    }

    println!("Received");
    for lane in dst.chunks_exact(4) {
        println!("{:?}", lane);
    }

    // Compare the result with the expected matrix
    assert_eq!(
        expected, dst,
        "The transposed matrix does not match the expected result"
    );
}

#[test]
fn test_sse_transpose_8x8() {
    let mut src: Vec<u16> = vec![0u16; 64];
    for c in src.iter_mut().enumerate() {
        *c.1 = c.0 as u16;
    }

    let mut expected = vec![0u16; 64];
    for (y, chunk) in expected.chunks_exact_mut(8).enumerate() {
        for (x, dst) in chunk.iter_mut().enumerate() {
            *dst = (x * 8 + y) as u16;
        }
    }

    let mut dst = vec![0u16; 64];

    transpose_tile::<u16>(&src, 8, &mut dst, 8, 8, 1, FlipMode::NoFlip, FlopMode::NoFlop);

    assert_eq!(
        expected, dst,
        "The transposed matrix does not match the expected result"
    );
}

#[test]
fn test_sse_transpose_8x8_flip() {
    let mut src: Vec<u16> = vec![0u16; 64];
    for c in src.iter_mut().enumerate() {
        *c.1 = c.0 as u16;
    }

    // Expected output: transpose of the 8x8 matrix
    let mut expected = vec![0u16; 64];
    for (y, chunk) in expected.chunks_exact_mut(8).enumerate() {
        for (x, dst) in chunk.iter_mut().enumerate() {
            *dst = (x * 8 + (7 - y)) as u16;
        }
    }

    let mut dst = vec![0u16; 64];

    transpose_tile::<u16>(&src, 8, &mut dst, 8, 8, 1, FlipMode::Flip, FlopMode::NoFlop);

    assert_eq!(
        expected, dst,
        "The transposed matrix does not match the expected result"
    );
}
