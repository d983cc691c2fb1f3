//! Logical coordinates of the surface.
//!
//! A coordinate is a single-precision binary floating-point number, held by
//! its 32-bit pattern: one sign bit, eight exponent bits, twenty-three
//! fraction bits. The controller never computes with coordinates; it only
//! classifies them, and the classification is exact on the bit pattern.

use vstd::prelude::*;

verus! {

/// A single-precision number, by its bit pattern.
#[derive(Clone, Copy, Debug, PartialEq, Eq, Structural)]
pub struct Scalar {
    pub bits: u32,
}

/// Width and height of the surface, in logical pixels.
#[derive(Clone, Copy, Debug, PartialEq, Eq, Structural)]
pub struct LogicalSize {
    pub width: Scalar,
    pub height: Scalar,
}

/// Top-left corner of the surface, in logical pixels.
#[derive(Clone, Copy, Debug, PartialEq, Eq, Structural)]
pub struct LogicalPosition {
    pub x: Scalar,
    pub y: Scalar,
}

impl Scalar {
    /// The sign bit: 1 for a pattern with the sign set, else 0.
    pub open spec fn sign(self) -> int {
        self.bits as int / 0x8000_0000
    }

    /// The eight exponent bits, as a number in `0..=255`.
    pub open spec fn exponent(self) -> int {
        (self.bits as int / 0x80_0000) % 0x100
    }

    /// The twenty-three fraction bits, as a number.
    pub open spec fn fraction(self) -> int {
        self.bits as int % 0x80_0000
    }

    /// Neither an infinity nor a NaN: the exponent is not all ones.
    pub open spec fn is_finite(self) -> bool {
        self.exponent() != 0xff
    }

    /// Not a number: exponent all ones and a non-zero fraction.
    pub open spec fn is_nan(self) -> bool {
        self.exponent() == 0xff && self.fraction() != 0
    }

    /// Positive or negative zero.
    pub open spec fn is_zero(self) -> bool {
        self.exponent() == 0 && self.fraction() == 0
    }

    /// The number compares below zero: the sign is set and the pattern is
    /// neither a zero nor a NaN.
    pub open spec fn is_negative(self) -> bool {
        self.sign() == 1 && !self.is_zero() && !self.is_nan()
    }

    /// A value that can be a width or a height: finite and not below zero.
    /// Negative zero compares equal to zero, so it is an extent too.
    pub open spec fn is_extent(self) -> bool {
        self.is_finite() && !self.is_negative()
    }

    /// The scalar with the given bit pattern.
    pub fn from_bits(bits: u32) -> (s: Scalar)
        ensures
            s.bits == bits,
    {
        Scalar { bits }
    }

    /// The bit pattern of this scalar.
    pub fn to_bits(self) -> (bits: u32)
        ensures
            bits == self.bits,
    {
        self.bits
    }

    /// Whether this value can be a width or a height.
    pub fn check_extent(self) -> (ok: bool)
        ensures
            ok == self.is_extent(),
    {
        self.bits < 0x7f80_0000 || self.bits == 0x8000_0000
    }
}

impl LogicalSize {
    /// Both extents are finite and not below zero.
    pub open spec fn is_valid(self) -> bool {
        self.width.is_extent() && self.height.is_extent()
    }

    /// The size with the given width and height.
    pub fn new(width: Scalar, height: Scalar) -> (size: LogicalSize)
        ensures
            size.width == width,
            size.height == height,
    {
        LogicalSize { width, height }
    }

    /// Whether both extents are finite and not below zero.
    pub fn check_valid(self) -> (ok: bool)
        ensures
            ok == self.is_valid(),
    {
        self.width.check_extent() && self.height.check_extent()
    }
}

impl LogicalPosition {
    /// The position with the given coordinates.
    pub fn new(x: Scalar, y: Scalar) -> (position: LogicalPosition)
        ensures
            position.x == x,
            position.y == y,
    {
        LogicalPosition { x, y }
    }
}

} // verus!
