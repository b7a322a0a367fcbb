//! Error and orientation types shared by every operation.

use vstd::prelude::*;

verus! {

/// Failure of a buffer-geometry check made at the start of a call.
#[derive(Copy, Clone, Ord, PartialOrd, Eq, PartialEq, Debug, Structural)]
pub enum TransposeError {
    /// Buffer length, stride, width or height disagree with each other.
    MismatchDimensions,
    /// A fixed-size view does not have the expected element count.
    InvalidArraySize,
}

impl TransposeError {
    /// A short description of the error.
    pub fn message(&self) -> &'static str {
        match self {
            TransposeError::MismatchDimensions => "Source and target dimensions must match",
            TransposeError::InvalidArraySize => "Vector size must match provided width and height",
        }
    }
}

/// Decides `len == a * b` without overflowing the product.
pub(crate) fn len_is_product(len: usize, a: usize, b: usize) -> (r: bool)
    ensures
        r <==> len == a * b,
{
    match a.checked_mul(b) {
        Some(p) => len == p,
        None => false,
    }
}

/// Decides `stride >= pixels * cn` without overflowing the product.
pub(crate) fn stride_covers(stride: usize, pixels: usize, cn: usize) -> (r: bool)
    ensures
        r <==> stride >= pixels * cn,
{
    match pixels.checked_mul(cn) {
        Some(p) => stride >= p,
        None => false,
    }
}

/// Declares mirror mode along the Y axis.
#[derive(Copy, Clone, Ord, PartialOrd, Eq, PartialEq, Debug, Structural)]
pub enum FlipMode {
    /// Keep the row order of the source.
    NoFlip,
    /// Reverse the row order of the source.
    Flip,
}

/// Declares mirror mode along the X axis.
#[derive(Copy, Clone, Ord, PartialOrd, Eq, PartialEq, Debug, Structural)]
pub enum FlopMode {
    /// Keep the column order of the source.
    NoFlop,
    /// Reverse the column order of the source.
    Flop,
}

} // verus!
