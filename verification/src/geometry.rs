use vstd::prelude::*;

verus! {

/// A real quantity (a coordinate, a length, an angle in degrees), held as the
/// bit pattern of an IEEE 754 double.
///
/// The entity graph stores such quantities and hands them back unchanged; it
/// never does arithmetic on them. Two scalars are equal when their bit
/// patterns are.
#[derive(Debug, Clone, Copy, PartialEq, Eq, Structural)]
pub struct Scalar {
    pub bits: u64,
}

impl Scalar {
    /// Wraps a bit pattern.
    pub fn from_bits(bits: u64) -> (r: Scalar)
        ensures
            r.bits == bits,
    {
        Scalar { bits }
    }

    /// The bit pattern.
    pub fn to_bits(&self) -> (r: u64)
        ensures
            r == self.bits,
    {
        self.bits
    }
}

/// A position in the drawing's logical coordinate space.
#[derive(Debug, Clone, Copy, PartialEq, Eq, Structural)]
pub struct Point2D {
    pub x: Scalar,
    pub y: Scalar,
}

impl Point2D {
    /// The position `(x, y)`.
    pub fn new(x: Scalar, y: Scalar) -> (r: Point2D)
        ensures
            r.x == x,
            r.y == y,
    {
        Point2D { x, y }
    }
}

} // verus!
