//! Column-major four-by-four matrices.

use vstd::prelude::*;

use crate::math::vectors::Vec4;

verus! {

/// A four-by-four matrix of four column vectors.
#[derive(Debug, Copy, Clone, PartialEq, Eq, Hash)]
pub struct Mat4<T> {
    pub x: Vec4<T>,
    pub y: Vec4<T>,
    pub z: Vec4<T>,
    pub w: Vec4<T>,
}

impl<T> Mat4<T> {
    /// Builds a matrix from its sixteen entries, column by column.
    pub fn new(
        c0r0: T,
        c0r1: T,
        c0r2: T,
        c0r3: T,
        c1r0: T,
        c1r1: T,
        c1r2: T,
        c1r3: T,
        c2r0: T,
        c2r1: T,
        c2r2: T,
        c2r3: T,
        c3r0: T,
        c3r1: T,
        c3r2: T,
        c3r3: T,
    ) -> (matrix: Mat4<T>)
        ensures
            matrix == (Mat4 {
                x: Vec4 { x: c0r0, y: c0r1, z: c0r2, w: c0r3 },
                y: Vec4 { x: c1r0, y: c1r1, z: c1r2, w: c1r3 },
                z: Vec4 { x: c2r0, y: c2r1, z: c2r2, w: c2r3 },
                w: Vec4 { x: c3r0, y: c3r1, z: c3r2, w: c3r3 },
            }),
    {
        Mat4 {
            x: Vec4 { x: c0r0, y: c0r1, z: c0r2, w: c0r3 },
            y: Vec4 { x: c1r0, y: c1r1, z: c1r2, w: c1r3 },
            z: Vec4 { x: c2r0, y: c2r1, z: c2r2, w: c2r3 },
            w: Vec4 { x: c3r0, y: c3r1, z: c3r2, w: c3r3 },
        }
    }
}

} // verus!
