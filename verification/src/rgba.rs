use vstd::prelude::*;

use crate::rgb::{C3, RGB};

verus! {

/// The mathematical value of a color with opacity: red, green, blue and
/// alpha numerators over the common positive denominator `d`.
pub ghost struct C4 {
    pub r: int,
    pub g: int,
    pub b: int,
    pub a: int,
    pub d: int,
}

/// A color with exact rational red, green, blue and alpha components held
/// as integer numerators over the positive denominator `den`; intended
/// range `[0, 1]`.
#[derive(Clone, Copy, Debug, PartialEq, Eq, Structural)]
pub struct RGBA {
    /// Numerator of the red component.
    pub r: i128,
    /// Numerator of the green component.
    pub g: i128,
    /// Numerator of the blue component.
    pub b: i128,
    /// Numerator of the alpha component.
    pub a: i128,
    /// Common denominator of the four components; always positive.
    pub den: i128,
}

impl View for RGBA {
    type V = C4;

    open spec fn view(&self) -> C4 {
        C4 {
            r: self.r as int,
            g: self.g as int,
            b: self.b as int,
            a: self.a as int,
            d: self.den as int,
        }
    }
}

impl RGBA {
    pub open spec fn wf(self) -> bool {
        self@.d > 0
    }

    /// The color of four whole components.
    pub fn new(r: i128, g: i128, b: i128, a: i128) -> (c: RGBA)
        ensures
            c@ == (C4 { r: r as int, g: g as int, b: b as int, a: a as int, d: 1 }),
    {
        RGBA { r, g, b, a, den: 1 }
    }

    /// The color `(r, g, b, a) / den`.
    pub fn new_scaled(r: i128, g: i128, b: i128, a: i128, den: i128) -> (c: RGBA)
        requires
            den > 0,
        ensures
            c@ == (C4 { r: r as int, g: g as int, b: b as int, a: a as int, d: den as int }),
    {
        RGBA { r, g, b, a, den }
    }

    /// The same color with the alpha dropped.
    pub fn to_rgb(&self) -> (c: RGB)
        ensures
            c@ == (C3 { r: self@.r, g: self@.g, b: self@.b, d: self@.d }),
    {
        RGB { r: self.r, g: self.g, b: self.b, den: self.den }
    }

    /// The color `c` made fully opaque.
    pub fn from_rgb(c: &RGB) -> (r: RGBA)
        ensures
            r@ == (C4 { r: c@.r, g: c@.g, b: c@.b, a: c@.d, d: c@.d }),
    {
        RGBA { r: c.r, g: c.g, b: c.b, a: c.den, den: c.den }
    }
}

} // verus!
