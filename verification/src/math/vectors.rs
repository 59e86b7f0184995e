//! Small fixed-size vectors, as the binding layer's signatures use them for
//! sizes, offsets and uniform values.

use vstd::prelude::*;

verus! {

/// A two-component vector.
#[derive(Debug, Copy, Clone, PartialEq, Eq, Hash)]
pub struct Vec2<T> {
    pub x: T,
    pub y: T,
}

/// A three-component vector.
#[derive(Debug, Copy, Clone, PartialEq, Eq, Hash)]
pub struct Vec3<T> {
    pub x: T,
    pub y: T,
    pub z: T,
}

/// A four-component vector.
#[derive(Debug, Copy, Clone, PartialEq, Eq, Hash)]
pub struct Vec4<T> {
    pub x: T,
    pub y: T,
    pub z: T,
    pub w: T,
}

/// Builds a [`Vec2`] from its components.
pub fn vec2<T>(x: T, y: T) -> (v: Vec2<T>)
    ensures
        v == (Vec2 { x, y }),
{
    Vec2 { x, y }
}

/// Builds a [`Vec2`] with both components equal to `n`.
pub fn vec2n<T: Copy>(n: T) -> (v: Vec2<T>)
    ensures
        v == (Vec2 { x: n, y: n }),
{
    Vec2 { x: n, y: n }
}

/// Builds a [`Vec3`] from its components.
pub fn vec3<T>(x: T, y: T, z: T) -> (v: Vec3<T>)
    ensures
        v == (Vec3 { x, y, z }),
{
    Vec3 { x, y, z }
}

/// Builds a [`Vec4`] from its components.
pub fn vec4<T>(x: T, y: T, z: T, w: T) -> (v: Vec4<T>)
    ensures
        v == (Vec4 { x, y, z, w }),
{
    Vec4 { x, y, z, w }
}

impl<T> Vec2<T> {
    /// Applies `op` to both components.
    pub fn map<U, F: Fn(T) -> U>(self, op: F) -> (v: Vec2<U>) where T: Copy
        requires
            forall|t: T| call_requires(op, (t,)),
        ensures
            call_ensures(op, (self.x,), v.x),
            call_ensures(op, (self.y,), v.y),
    {
        Vec2 { x: op(self.x), y: op(self.y) }
    }
}

/// The product of two values in `i32` range fits comfortably in `i64`.
proof fn lemma_i32_product_fits_i64(a: int, b: int)
    requires
        i32::MIN <= a <= i32::MAX,
        i32::MIN <= b <= i32::MAX,
    ensures
        i64::MIN <= a * b <= i64::MAX,
{
    assert(i64::MIN <= a * b <= i64::MAX) by (nonlinear_arith)
        requires
            -0x80000000 <= a <= 0x7fffffff,
            -0x80000000 <= b <= 0x7fffffff,
    ;
}

impl Vec2<i32> {
    /// The dot product `x * rhs.x + y * rhs.y`, exact over the integers.
    pub fn dot(self, rhs: Self) -> (r: i32)
        requires
            i32::MIN <= self.x * rhs.x + self.y * rhs.y <= i32::MAX,
        ensures
            r == self.x * rhs.x + self.y * rhs.y,
    {
        proof {
            lemma_i32_product_fits_i64(self.x as int, rhs.x as int);
            lemma_i32_product_fits_i64(self.y as int, rhs.y as int);
        }
        let px: i64 = (self.x as i64) * (rhs.x as i64);
        let py: i64 = (self.y as i64) * (rhs.y as i64);
        (px + py) as i32
    }

    /// The squared length of the vector, exact over the integers.
    pub fn sqr_length(self) -> (r: i32)
        requires
            self.x * self.x + self.y * self.y <= i32::MAX,
        ensures
            r == self.x * self.x + self.y * self.y,
    {
        proof {
            assert((self.x as int) * (self.x as int) >= 0) by (nonlinear_arith);
            assert((self.y as int) * (self.y as int) >= 0) by (nonlinear_arith);
        }
        self.dot(self)
    }

    /// The squared distance between `self` and `rhs`, exact over the
    /// integers.
    pub fn sqr_distance(self, rhs: Self) -> (r: i32)
        requires
            i32::MIN <= rhs.x - self.x <= i32::MAX,
            i32::MIN <= rhs.y - self.y <= i32::MAX,
            (rhs.x - self.x) * (rhs.x - self.x) + (rhs.y - self.y) * (rhs.y - self.y) <= i32::MAX,
        ensures
            r == (rhs.x - self.x) * (rhs.x - self.x) + (rhs.y - self.y) * (rhs.y - self.y),
    {
        let dx: i32 = rhs.x - self.x;
        let dy: i32 = rhs.y - self.y;
        Vec2 { x: dx, y: dy }.sqr_length()
    }
}

} // verus!
