//! Points, sizes and affine transforms over fixed-point lengths.

use vstd::prelude::*;
use crate::scalar::Scalar;

verus! {

/// A position relative to the origin of the enclosing frame.
#[derive(Clone, Copy, Debug, PartialEq, Eq, Structural)]
pub struct Point {
    pub x: Scalar,
    pub y: Scalar,
}

/// A width (`x`) and a height (`y`).
#[derive(Clone, Copy, Debug, PartialEq, Eq, Structural)]
pub struct Size {
    pub x: Scalar,
    pub y: Scalar,
}

/// A two-by-three affine matrix: scale `sx`, `sy`, skew `kx`, `ky`, translation `tx`, `ty`.
#[derive(Clone, Copy, Debug, PartialEq, Eq, Structural)]
pub struct Transform {
    pub sx: Scalar,
    pub ky: Scalar,
    pub kx: Scalar,
    pub sy: Scalar,
    pub tx: Scalar,
    pub ty: Scalar,
}

impl Point {
    /// The origin.
    pub fn zero() -> (r: Point)
        ensures
            r.x.micros == 0,
            r.y.micros == 0,
    {
        Point { x: Scalar::zero(), y: Scalar::zero() }
    }
}

impl Transform {
    /// The transform that scales by `sx` and `sy` and then moves by `tx` and `ty`.
    pub fn scale_then_translate(sx: Scalar, sy: Scalar, tx: Scalar, ty: Scalar) -> (r: Transform)
        ensures
            r == (Transform { sx, ky: Scalar { micros: 0 }, kx: Scalar { micros: 0 }, sy, tx, ty }),
    {
        Transform { sx, ky: Scalar::zero(), kx: Scalar::zero(), sy, tx, ty }
    }
}

} // verus!
