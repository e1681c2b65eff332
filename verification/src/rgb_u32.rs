use vstd::prelude::*;

use crate::rgb::{C3, RGB};

verus! {

/// A color of unsigned 32-bit red, green and blue channels.
#[derive(Clone, Copy, Debug, PartialEq, Eq, Structural)]
pub struct RGBu32 {
    /// The red channel.
    pub r: u32,
    /// The green channel.
    pub g: u32,
    /// The blue channel.
    pub b: u32,
}

impl RGBu32 {
    /// The color of the three channels given.
    pub fn new(r: u32, g: u32, b: u32) -> (c: RGBu32)
        ensures
            c.r == r,
            c.g == g,
            c.b == b,
    {
        RGBu32 { r, g, b }
    }

    /// The whole-number color nearest below the rational color `c`: each
    /// channel is rounded toward zero and clamped below at zero.
    pub fn from_rgb(c: &RGB) -> (u: RGBu32)
        requires
            c.bounded(),
        ensures
            u.r == C3::chan_whole(c@.r, c@.d),
            u.g == C3::chan_whole(c@.g, c@.d),
            u.b == C3::chan_whole(c@.b, c@.d),
    {
        RGBu32 { r: Self::chan(c.r, c.den), g: Self::chan(c.g, c.den), b: Self::chan(c.b, c.den) }
    }

    /// One channel of `from_rgb`; a bounded component over a positive
    /// denominator always fits in 32 bits.
    fn chan(n: i128, d: i128) -> (v: u32)
        requires
            -crate::scalar::LIM <= n <= crate::scalar::LIM,
            0 < d <= crate::scalar::LIM,
        ensures
            v == C3::chan_whole(n as int, d as int),
    {
        if n <= 0 {
            0
        } else {
            proof {
                assert(0 <= n as int / (d as int) <= n as int) by (nonlinear_arith)
                    requires
                        n as int > 0,
                        d as int > 0,
                ;
            }
            let q = n / d;
            q as u32
        }
    }
}

} // verus!
