use vstd::prelude::*;

use crate::rgb::{C3, RGB};
use crate::scalar::{lemma_mul_bound, LIM};

verus! {

/// A color of unsigned byte red, green and blue channels.
#[derive(Clone, Copy, Debug, PartialEq, Eq, Structural)]
pub struct RGBu8 {
    /// The red channel.
    pub r: u8,
    /// The green channel.
    pub g: u8,
    /// The blue channel.
    pub b: u8,
}

impl RGBu8 {
    /// The color of the three channels given.
    pub fn new(r: u8, g: u8, b: u8) -> (c: RGBu8)
        ensures
            c.r == r,
            c.g == g,
            c.b == b,
    {
        RGBu8 { r, g, b }
    }

    /// The byte color nearest below the rational color `c`: each channel
    /// is scaled by 255, rounded toward zero and clamped to the byte
    /// range.
    pub fn from_rgb(c: &RGB) -> (u: RGBu8)
        requires
            c.bounded(),
        ensures
            u.r == C3::chan8(c@.r, c@.d),
            u.g == C3::chan8(c@.g, c@.d),
            u.b == C3::chan8(c@.b, c@.d),
    {
        RGBu8 {
            r: Self::chan(c.r, c.den),
            g: Self::chan(c.g, c.den),
            b: Self::chan(c.b, c.den),
        }
    }

    /// One channel of `from_rgb`.
    fn chan(n: i128, d: i128) -> (v: u8)
        requires
            -LIM <= n <= LIM,
            0 < d <= LIM,
        ensures
            v == C3::chan8(n as int, d as int),
    {
        if n <= 0 {
            0
        } else {
            proof {
                lemma_mul_bound(n as int, 255, LIM as int, 255);
                assert(n as int * 255 / (d as int) >= 0) by (nonlinear_arith)
                    requires
                        n as int > 0,
                        d as int > 0,
                ;
            }
            let q = n * 255 / d;
            if q >= 255 {
                255
            } else {
                q as u8
            }
        }
    }
}

} // verus!
