//! Plain value types that carry data between a plotted function, the
//! sampler and whatever finally draws the curve. None of them knows about
//! a graphics backend.

use vstd::prelude::*;
use vstd::std_specs::convert::FromSpecImpl;

verus! {

/// A 2-vector.
#[derive(Clone, Copy, Debug, PartialEq)]
pub struct Vec2<T> {
    pub x: T,
    pub y: T,
}

impl<T> Vec2<T> {
    /// Create a new Vec2 from a tuple
    /// containing the `(x, y)` components.
    pub fn new(tuple: (T, T)) -> (v: Self)
        ensures
            v.x == tuple.0,
            v.y == tuple.1,
    {
        Vec2 { x: tuple.0, y: tuple.1 }
    }
}

impl<T> From<(T, T)> for Vec2<T> {
    fn from(tuple: (T, T)) -> (v: Self) {
        Self::new(tuple)
    }
}

impl<T> FromSpecImpl<(T, T)> for Vec2<T> {
    open spec fn obeys_from_spec() -> bool {
        true
    }

    open spec fn from_spec(tuple: (T, T)) -> Self {
        Vec2 { x: tuple.0, y: tuple.1 }
    }
}

/// Alpha of a color that hides everything behind it.
pub const OPAQUE: u8 = 255;

/// A 24 bit RGB color.
#[derive(Clone, Copy, Debug, PartialEq, Eq, Structural)]
pub struct ColorRgb {
    pub r: u8,
    pub g: u8,
    pub b: u8,
}

impl ColorRgb {
    /// Create a new color from a tuple
    /// containing the `(r, g, b)` components.
    pub fn new(tuple: (u8, u8, u8)) -> (color: ColorRgb)
        ensures
            color.r == tuple.0,
            color.g == tuple.1,
            color.b == tuple.2,
    {
        ColorRgb { r: tuple.0, g: tuple.1, b: tuple.2 }
    }

    /// The `(r, g, b, a)` components of the color as a display shows it.
    /// A `ColorRgb` has no transparency, so the alpha is always [`OPAQUE`].
    pub fn to_rgba(self) -> (rgba: (u8, u8, u8, u8))
        ensures
            rgba == (self.r, self.g, self.b, OPAQUE),
    {
        (self.r, self.g, self.b, OPAQUE)
    }
}

impl From<(u8, u8, u8)> for ColorRgb {
    fn from(tuple: (u8, u8, u8)) -> (color: Self) {
        Self::new(tuple)
    }
}

impl FromSpecImpl<(u8, u8, u8)> for ColorRgb {
    open spec fn obeys_from_spec() -> bool {
        true
    }

    open spec fn from_spec(tuple: (u8, u8, u8)) -> Self {
        ColorRgb { r: tuple.0, g: tuple.1, b: tuple.2 }
    }
}

} // verus!
