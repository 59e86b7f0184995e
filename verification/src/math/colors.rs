//! RGBA color quadruples.

use vstd::prelude::*;

verus! {

/// An RGBA color.
#[derive(Debug, Copy, Clone, PartialEq, Eq, Hash)]
pub struct Color<T> {
    pub r: T,
    pub g: T,
    pub b: T,
    pub a: T,
}

/// Builds a [`Color`] from its components.
pub fn color<T>(r: T, g: T, b: T, a: T) -> (c: Color<T>)
    ensures
        c == (Color { r, g, b, a }),
{
    Color { r, g, b, a }
}

/// Builds a gray [`Color`]: all color components equal to `n`, alpha `a`.
pub fn colorn<T: Copy>(n: T, a: T) -> (c: Color<T>)
    ensures
        c == (Color { r: n, g: n, b: n, a }),
{
    Color { r: n, g: n, b: n, a }
}

impl<T> Color<T> {
    /// The same color with the alpha component replaced.
    pub fn with_alpha(self, a: T) -> (c: Self)
        ensures
            c == (Color { a, ..self }),
    {
        Color { r: self.r, g: self.g, b: self.b, a }
    }
}

} // verus!
