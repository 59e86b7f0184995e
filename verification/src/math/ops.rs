//! Small numeric helper traits: clamping, linear interpolation, range
//! remapping and lossless numeric casts.

use vstd::prelude::*;

verus! {

/// Clamping of a value into `[min, max]`, where `max` wins when the bounds
/// are inverted.
pub trait Clamp2: Sized {
    /// What `clamp2` returns: `self` raised to at least `min`, then lowered
    /// to at most `max`.
    spec fn spec_clamp2(self, min: Self, max: Self) -> Self;

    /// Clamps `self` into `[min, max]`.
    fn clamp2(self, min: Self, max: Self) -> (r: Self)
        ensures
            r == self.spec_clamp2(min, max),
    ;
}

/// Clamping of a value into `[-max, max]`.
pub trait Clamp2Abs: Sized {
    /// The inputs `clamp2_abs` accepts.
    spec fn clamp2_abs_req(self, max: Self) -> bool;

    /// What `clamp2_abs` returns.
    spec fn spec_clamp2_abs(self, max: Self) -> Self;

    /// Clamps `self` into `[-max, max]`.
    fn clamp2_abs(self, max: Self) -> (r: Self)
        requires
            self.clamp2_abs_req(max),
        ensures
            r == self.spec_clamp2_abs(max),
    ;
}

/// Linear interpolation: `(rhs - self) * t + self`.
pub trait Lerp: Sized {
    /// The inputs on which `(rhs - self) * t + self` stays in range.
    spec fn lerp_req(self, rhs: Self, t: Self) -> bool;

    /// What `lerp` returns.
    spec fn spec_lerp(self, rhs: Self, t: Self) -> Self;

    /// Interpolates from `self` (at `t == 0`) towards `rhs` (at `t == 1`).
    fn lerp(self, rhs: Self, t: Self) -> (r: Self)
        requires
            self.lerp_req(rhs, t),
        ensures
            r == self.spec_lerp(rhs, t),
    ;
}

/// Affine remapping of a value from one range onto another:
/// `(self - from.0) * (to.1 - to.0) / (from.1 - from.0) + to.0`.
pub trait RangeMap: Sized {
    /// The inputs on which the remapping formula stays in range.
    spec fn range_map_req(self, from_range: (Self, Self), to_range: (Self, Self)) -> bool;

    /// What `range_map` returns.
    spec fn spec_range_map(self, from_range: (Self, Self), to_range: (Self, Self)) -> Self;

    /// Remaps `self` from `from_range` onto `to_range`.
    fn range_map(self, from_range: (Self, Self), to_range: (Self, Self)) -> (r: Self)
        requires
            self.range_map_req(from_range, to_range),
        ensures
            r == self.spec_range_map(from_range, to_range),
    ;
}

/// A value-preserving numeric conversion from `T`.
pub trait NumCastFrom<T>: Sized {
    /// What `cast_from` returns.
    spec fn spec_cast_from(n: T) -> Self;

    /// Converts `n` into `Self` without changing its value.
    fn cast_from(n: T) -> (r: Self)
        ensures
            r == Self::spec_cast_from(n),
    ;
}

/// A value-preserving numeric conversion into `U`; implemented for every pair
/// with a [`NumCastFrom`] in the other direction.
pub trait NumCastInto<U>: Sized {
    /// What `cast_into` returns.
    spec fn spec_cast_into(self) -> U;

    /// Converts `self` into `U` without changing its value.
    fn cast_into(self) -> (r: U)
        ensures
            r == self.spec_cast_into(),
    ;
}

impl<T, U: NumCastFrom<T>> NumCastInto<U> for T {
    open spec fn spec_cast_into(self) -> U {
        U::spec_cast_from(self)
    }

    fn cast_into(self) -> (r: U) {
        U::cast_from(self)
    }
}

impl Clamp2 for u8 {
    open spec fn spec_clamp2(self, min: Self, max: Self) -> Self {
        let raised = if self < min { min } else { self };
        if raised > max { max } else { raised }
    }

    fn clamp2(self, min: Self, max: Self) -> (r: Self) {
        let raised: u8 = if self < min { min } else { self };
        if raised > max { max } else { raised }
    }
}

impl Clamp2 for i8 {
    open spec fn spec_clamp2(self, min: Self, max: Self) -> Self {
        let raised = if self < min { min } else { self };
        if raised > max { max } else { raised }
    }

    fn clamp2(self, min: Self, max: Self) -> (r: Self) {
        let raised: i8 = if self < min { min } else { self };
        if raised > max { max } else { raised }
    }
}

impl Clamp2 for u16 {
    open spec fn spec_clamp2(self, min: Self, max: Self) -> Self {
        let raised = if self < min { min } else { self };
        if raised > max { max } else { raised }
    }

    fn clamp2(self, min: Self, max: Self) -> (r: Self) {
        let raised: u16 = if self < min { min } else { self };
        if raised > max { max } else { raised }
    }
}

impl Clamp2 for i16 {
    open spec fn spec_clamp2(self, min: Self, max: Self) -> Self {
        let raised = if self < min { min } else { self };
        if raised > max { max } else { raised }
    }

    fn clamp2(self, min: Self, max: Self) -> (r: Self) {
        let raised: i16 = if self < min { min } else { self };
        if raised > max { max } else { raised }
    }
}

impl Clamp2 for u32 {
    open spec fn spec_clamp2(self, min: Self, max: Self) -> Self {
        let raised = if self < min { min } else { self };
        if raised > max { max } else { raised }
    }

    fn clamp2(self, min: Self, max: Self) -> (r: Self) {
        let raised: u32 = if self < min { min } else { self };
        if raised > max { max } else { raised }
    }
}

impl Clamp2 for i32 {
    open spec fn spec_clamp2(self, min: Self, max: Self) -> Self {
        let raised = if self < min { min } else { self };
        if raised > max { max } else { raised }
    }

    fn clamp2(self, min: Self, max: Self) -> (r: Self) {
        let raised: i32 = if self < min { min } else { self };
        if raised > max { max } else { raised }
    }
}

impl Clamp2 for u64 {
    open spec fn spec_clamp2(self, min: Self, max: Self) -> Self {
        let raised = if self < min { min } else { self };
        if raised > max { max } else { raised }
    }

    fn clamp2(self, min: Self, max: Self) -> (r: Self) {
        let raised: u64 = if self < min { min } else { self };
        if raised > max { max } else { raised }
    }
}

impl Clamp2 for i64 {
    open spec fn spec_clamp2(self, min: Self, max: Self) -> Self {
        let raised = if self < min { min } else { self };
        if raised > max { max } else { raised }
    }

    fn clamp2(self, min: Self, max: Self) -> (r: Self) {
        let raised: i64 = if self < min { min } else { self };
        if raised > max { max } else { raised }
    }
}

impl Clamp2 for usize {
    open spec fn spec_clamp2(self, min: Self, max: Self) -> Self {
        let raised = if self < min { min } else { self };
        if raised > max { max } else { raised }
    }

    fn clamp2(self, min: Self, max: Self) -> (r: Self) {
        let raised: usize = if self < min { min } else { self };
        if raised > max { max } else { raised }
    }
}

impl Clamp2 for isize {
    open spec fn spec_clamp2(self, min: Self, max: Self) -> Self {
        let raised = if self < min { min } else { self };
        if raised > max { max } else { raised }
    }

    fn clamp2(self, min: Self, max: Self) -> (r: Self) {
        let raised: isize = if self < min { min } else { self };
        if raised > max { max } else { raised }
    }
}

impl Lerp for i32 {
    open spec fn lerp_req(self, rhs: Self, t: Self) -> bool {
        &&& i32::MIN <= rhs - self <= i32::MAX
        &&& i32::MIN <= (rhs - self) * t <= i32::MAX
        &&& i32::MIN <= (rhs - self) * t + self <= i32::MAX
    }

    open spec fn spec_lerp(self, rhs: Self, t: Self) -> Self {
        ((rhs - self) * t + self) as i32
    }

    fn lerp(self, rhs: Self, t: Self) -> (r: Self) {
        let diff: i64 = rhs as i64 - self as i64;
        let scaled: i64 = diff * t as i64;
        (scaled + self as i64) as i32
    }
}

impl Lerp for i64 {
    open spec fn lerp_req(self, rhs: Self, t: Self) -> bool {
        &&& i64::MIN <= rhs - self <= i64::MAX
        &&& i64::MIN <= (rhs - self) * t <= i64::MAX
        &&& i64::MIN <= (rhs - self) * t + self <= i64::MAX
    }

    open spec fn spec_lerp(self, rhs: Self, t: Self) -> Self {
        ((rhs - self) * t + self) as i64
    }

    fn lerp(self, rhs: Self, t: Self) -> (r: Self) {
        let diff: i128 = rhs as i128 - self as i128;
        let scaled: i128 = diff * t as i128;
        (scaled + self as i128) as i64
    }
}

impl Clamp2Abs for i32 {
    open spec fn clamp2_abs_req(self, max: Self) -> bool {
        max >= 0
    }

    open spec fn spec_clamp2_abs(self, max: Self) -> Self {
        self.spec_clamp2((0 - max as int) as i32, max)
    }

    fn clamp2_abs(self, max: Self) -> (r: Self) {
        let low: i32 = -max;
        self.clamp2(low, max)
    }
}

impl Clamp2Abs for i64 {
    open spec fn clamp2_abs_req(self, max: Self) -> bool {
        max >= 0
    }

    open spec fn spec_clamp2_abs(self, max: Self) -> Self {
        self.spec_clamp2((0 - max as int) as i64, max)
    }

    fn clamp2_abs(self, max: Self) -> (r: Self) {
        let low: i64 = -max;
        self.clamp2(low, max)
    }
}

impl RangeMap for u32 {
    open spec fn range_map_req(self, from_range: (Self, Self), to_range: (Self, Self)) -> bool {
        &&& from_range.0 <= self
        &&& from_range.0 < from_range.1
        &&& to_range.0 <= to_range.1
        &&& (self - from_range.0) * (to_range.1 - to_range.0) / (from_range.1 - from_range.0)
            + to_range.0 <= u32::MAX
    }

    open spec fn spec_range_map(self, from_range: (Self, Self), to_range: (Self, Self)) -> Self {
        ((self - from_range.0) * (to_range.1 - to_range.0) / (from_range.1 - from_range.0)
            + to_range.0) as u32
    }

    fn range_map(self, from_range: (Self, Self), to_range: (Self, Self)) -> (r: Self) {
        let offset: u64 = (self - from_range.0) as u64;
        let to_span: u64 = (to_range.1 - to_range.0) as u64;
        proof {
            vstd::arithmetic::mul::lemma_mul_upper_bound(
                offset as int,
                u32::MAX as int,
                to_span as int,
                u32::MAX as int,
            );
        }
        let scaled: u64 = offset * to_span;
        let from_span: u64 = (from_range.1 - from_range.0) as u64;
        let shifted: u64 = scaled / from_span + to_range.0 as u64;
        shifted as u32
    }
}

impl RangeMap for u64 {
    open spec fn range_map_req(self, from_range: (Self, Self), to_range: (Self, Self)) -> bool {
        &&& from_range.0 <= self
        &&& from_range.0 < from_range.1
        &&& to_range.0 <= to_range.1
        &&& (self - from_range.0) * (to_range.1 - to_range.0) / (from_range.1 - from_range.0)
            + to_range.0 <= u64::MAX
    }

    open spec fn spec_range_map(self, from_range: (Self, Self), to_range: (Self, Self)) -> Self {
        ((self - from_range.0) * (to_range.1 - to_range.0) / (from_range.1 - from_range.0)
            + to_range.0) as u64
    }

    fn range_map(self, from_range: (Self, Self), to_range: (Self, Self)) -> (r: Self) {
        let offset: u128 = (self - from_range.0) as u128;
        let to_span: u128 = (to_range.1 - to_range.0) as u128;
        proof {
            vstd::arithmetic::mul::lemma_mul_upper_bound(
                offset as int,
                u64::MAX as int,
                to_span as int,
                u64::MAX as int,
            );
        }
        let scaled: u128 = offset * to_span;
        let from_span: u128 = (from_range.1 - from_range.0) as u128;
        let shifted: u128 = scaled / from_span + to_range.0 as u128;
        shifted as u64
    }
}

impl NumCastFrom<u8> for u16 {
    open spec fn spec_cast_from(n: u8) -> Self {
        n as u16
    }

    fn cast_from(n: u8) -> (r: Self) {
        n as u16
    }
}

impl NumCastFrom<u8> for u32 {
    open spec fn spec_cast_from(n: u8) -> Self {
        n as u32
    }

    fn cast_from(n: u8) -> (r: Self) {
        n as u32
    }
}

impl NumCastFrom<u16> for u32 {
    open spec fn spec_cast_from(n: u16) -> Self {
        n as u32
    }

    fn cast_from(n: u16) -> (r: Self) {
        n as u32
    }
}

impl NumCastFrom<u8> for u64 {
    open spec fn spec_cast_from(n: u8) -> Self {
        n as u64
    }

    fn cast_from(n: u8) -> (r: Self) {
        n as u64
    }
}

impl NumCastFrom<u16> for u64 {
    open spec fn spec_cast_from(n: u16) -> Self {
        n as u64
    }

    fn cast_from(n: u16) -> (r: Self) {
        n as u64
    }
}

impl NumCastFrom<u32> for u64 {
    open spec fn spec_cast_from(n: u32) -> Self {
        n as u64
    }

    fn cast_from(n: u32) -> (r: Self) {
        n as u64
    }
}

impl NumCastFrom<i8> for i16 {
    open spec fn spec_cast_from(n: i8) -> Self {
        n as i16
    }

    fn cast_from(n: i8) -> (r: Self) {
        n as i16
    }
}

impl NumCastFrom<i8> for i32 {
    open spec fn spec_cast_from(n: i8) -> Self {
        n as i32
    }

    fn cast_from(n: i8) -> (r: Self) {
        n as i32
    }
}

impl NumCastFrom<i16> for i32 {
    open spec fn spec_cast_from(n: i16) -> Self {
        n as i32
    }

    fn cast_from(n: i16) -> (r: Self) {
        n as i32
    }
}

impl NumCastFrom<u16> for i32 {
    open spec fn spec_cast_from(n: u16) -> Self {
        n as i32
    }

    fn cast_from(n: u16) -> (r: Self) {
        n as i32
    }
}

impl NumCastFrom<i32> for i64 {
    open spec fn spec_cast_from(n: i32) -> Self {
        n as i64
    }

    fn cast_from(n: i32) -> (r: Self) {
        n as i64
    }
}

impl NumCastFrom<u32> for i64 {
    open spec fn spec_cast_from(n: u32) -> Self {
        n as i64
    }

    fn cast_from(n: u32) -> (r: Self) {
        n as i64
    }
}

impl NumCastFrom<u8> for usize {
    open spec fn spec_cast_from(n: u8) -> Self {
        n as usize
    }

    fn cast_from(n: u8) -> (r: Self) {
        n as usize
    }
}

impl NumCastFrom<u16> for usize {
    open spec fn spec_cast_from(n: u16) -> Self {
        n as usize
    }

    fn cast_from(n: u16) -> (r: Self) {
        n as usize
    }
}

impl NumCastFrom<u32> for usize {
    open spec fn spec_cast_from(n: u32) -> Self {
        n as usize
    }

    fn cast_from(n: u32) -> (r: Self) {
        n as usize
    }
}

impl NumCastFrom<usize> for u64 {
    open spec fn spec_cast_from(n: usize) -> Self {
        n as u64
    }

    fn cast_from(n: usize) -> (r: Self) {
        n as u64
    }
}

} // verus!
