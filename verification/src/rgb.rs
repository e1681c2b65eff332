use vstd::prelude::*;

use crate::scalar::{lemma_mul_bound, lemma_mul_pos, Rat, Scalar, LIM};

verus! {

/// The mathematical value of a color: red, green and blue numerators over
/// the common positive denominator `d`; `1` is full intensity.
pub ghost struct C3 {
    pub r: int,
    pub g: int,
    pub b: int,
    pub d: int,
}

impl C3 {
    pub open spec fn wf(self) -> bool {
        self.d > 0
    }

    pub open spec fn bounded(self) -> bool {
        &&& -LIM <= self.r <= LIM
        &&& -LIM <= self.g <= LIM
        &&& -LIM <= self.b <= LIM
        &&& 0 < self.d <= LIM
    }

    pub open spec fn eq_rat(self, o: C3) -> bool {
        &&& self.r * o.d == o.r * self.d
        &&& self.g * o.d == o.g * self.d
        &&& self.b * o.d == o.b * self.d
    }

    pub open spec fn add(self, o: C3) -> C3 {
        C3 {
            r: self.r * o.d + o.r * self.d,
            g: self.g * o.d + o.g * self.d,
            b: self.b * o.d + o.b * self.d,
            d: self.d * o.d,
        }
    }

    pub open spec fn sub(self, o: C3) -> C3 {
        C3 {
            r: self.r * o.d - o.r * self.d,
            g: self.g * o.d - o.g * self.d,
            b: self.b * o.d - o.b * self.d,
            d: self.d * o.d,
        }
    }

    /// Component-wise modulation of one color by another.
    pub open spec fn mul(self, o: C3) -> C3 {
        C3 { r: self.r * o.r, g: self.g * o.g, b: self.b * o.b, d: self.d * o.d }
    }

    pub open spec fn scale(self, s: Rat) -> C3 {
        C3 { r: self.r * s.n, g: self.g * s.n, b: self.b * s.n, d: self.d * s.d }
    }

    /// One eight-bit channel: the component scaled by 255, rounded toward
    /// zero and clamped to the byte range.
    pub open spec fn chan8(n: int, d: int) -> int {
        if n <= 0 {
            0
        } else if n * 255 / d >= 255 {
            255
        } else {
            n * 255 / d
        }
    }

    /// One whole-number channel, rounded toward zero and clamped below at
    /// zero.
    pub open spec fn chan_whole(n: int, d: int) -> int {
        if n <= 0 {
            0
        } else {
            n / d
        }
    }
}

/// A color with exact rational red, green and blue components held as
/// integer numerators over the positive denominator `den`; intended range
/// `[0, 1]`, with an implicit alpha of one.
#[derive(Clone, Copy, Debug, PartialEq, Eq, Structural)]
pub struct RGB {
    /// Numerator of the red component.
    pub r: i128,
    /// Numerator of the green component.
    pub g: i128,
    /// Numerator of the blue component.
    pub b: i128,
    /// Common denominator of the three components; always positive.
    pub den: i128,
}

impl View for RGB {
    type V = C3;

    open spec fn view(&self) -> C3 {
        C3 { r: self.r as int, g: self.g as int, b: self.b as int, d: self.den as int }
    }
}

impl RGB {
    pub open spec fn wf(self) -> bool {
        self@.wf()
    }

    pub open spec fn bounded(self) -> bool {
        self@.bounded()
    }

    /// The color of three whole components.
    pub fn new(r: i128, g: i128, b: i128) -> (c: RGB)
        ensures
            c@ == (C3 { r: r as int, g: g as int, b: b as int, d: 1 }),
    {
        RGB { r, g, b, den: 1 }
    }

    /// The color `(r, g, b) / den`.
    pub fn new_scaled(r: i128, g: i128, b: i128, den: i128) -> (c: RGB)
        requires
            den > 0,
        ensures
            c@ == (C3 { r: r as int, g: g as int, b: b as int, d: den as int }),
    {
        RGB { r, g, b, den }
    }

    /// Full intensity in all three channels.
    #[allow(non_snake_case)]
    pub fn White() -> (c: RGB)
        ensures
            c@ == (C3 { r: 1, g: 1, b: 1, d: 1 }),
    {
        RGB { r: 1, g: 1, b: 1, den: 1 }
    }

    /// Whether this and `o` denote the same color.
    pub fn eq_rat(&self, o: &RGB) -> (res: bool)
        requires
            self.bounded(),
            o.bounded(),
        ensures
            res == self@.eq_rat(o@),
    {
        proof {
            lemma_mul_bound(self.r as int, o.den as int, LIM as int, LIM as int);
            lemma_mul_bound(self.g as int, o.den as int, LIM as int, LIM as int);
            lemma_mul_bound(self.b as int, o.den as int, LIM as int, LIM as int);
            lemma_mul_bound(o.r as int, self.den as int, LIM as int, LIM as int);
            lemma_mul_bound(o.g as int, self.den as int, LIM as int, LIM as int);
            lemma_mul_bound(o.b as int, self.den as int, LIM as int, LIM as int);
        }
        self.r * o.den == o.r * self.den && self.g * o.den == o.g * self.den && self.b * o.den
            == o.b * self.den
    }

    pub fn add(&self, o: &RGB) -> (c: RGB)
        requires
            self.bounded(),
            o.bounded(),
        ensures
            c@ == self@.add(o@),
            c.wf(),
    {
        proof {
            lemma_mul_bound(self.r as int, o.den as int, LIM as int, LIM as int);
            lemma_mul_bound(self.g as int, o.den as int, LIM as int, LIM as int);
            lemma_mul_bound(self.b as int, o.den as int, LIM as int, LIM as int);
            lemma_mul_bound(o.r as int, self.den as int, LIM as int, LIM as int);
            lemma_mul_bound(o.g as int, self.den as int, LIM as int, LIM as int);
            lemma_mul_bound(o.b as int, self.den as int, LIM as int, LIM as int);
            lemma_mul_bound(self.den as int, o.den as int, LIM as int, LIM as int);
            lemma_mul_pos(self.den as int, o.den as int);
        }
        RGB {
            r: self.r * o.den + o.r * self.den,
            g: self.g * o.den + o.g * self.den,
            b: self.b * o.den + o.b * self.den,
            den: self.den * o.den,
        }
    }

    pub fn sub(&self, o: &RGB) -> (c: RGB)
        requires
            self.bounded(),
            o.bounded(),
        ensures
            c@ == self@.sub(o@),
            c.wf(),
    {
        proof {
            lemma_mul_bound(self.r as int, o.den as int, LIM as int, LIM as int);
            lemma_mul_bound(self.g as int, o.den as int, LIM as int, LIM as int);
            lemma_mul_bound(self.b as int, o.den as int, LIM as int, LIM as int);
            lemma_mul_bound(o.r as int, self.den as int, LIM as int, LIM as int);
            lemma_mul_bound(o.g as int, self.den as int, LIM as int, LIM as int);
            lemma_mul_bound(o.b as int, self.den as int, LIM as int, LIM as int);
            lemma_mul_bound(self.den as int, o.den as int, LIM as int, LIM as int);
            lemma_mul_pos(self.den as int, o.den as int);
        }
        RGB {
            r: self.r * o.den - o.r * self.den,
            g: self.g * o.den - o.g * self.den,
            b: self.b * o.den - o.b * self.den,
            den: self.den * o.den,
        }
    }

    /// Component-wise modulation of this color by `o`.
    pub fn mul(&self, o: &RGB) -> (c: RGB)
        requires
            self.bounded(),
            o.bounded(),
        ensures
            c@ == self@.mul(o@),
            c.wf(),
    {
        proof {
            lemma_mul_bound(self.r as int, o.r as int, LIM as int, LIM as int);
            lemma_mul_bound(self.g as int, o.g as int, LIM as int, LIM as int);
            lemma_mul_bound(self.b as int, o.b as int, LIM as int, LIM as int);
            lemma_mul_bound(self.den as int, o.den as int, LIM as int, LIM as int);
            lemma_mul_pos(self.den as int, o.den as int);
        }
        RGB { r: self.r * o.r, g: self.g * o.g, b: self.b * o.b, den: self.den * o.den }
    }

    pub fn mul_scalar(&self, s: &Scalar) -> (c: RGB)
        requires
            self.bounded(),
            s.bounded(),
        ensures
            c@ == self@.scale(s@),
            c.wf(),
    {
        proof {
            lemma_mul_bound(self.r as int, s.n as int, LIM as int, LIM as int);
            lemma_mul_bound(self.g as int, s.n as int, LIM as int, LIM as int);
            lemma_mul_bound(self.b as int, s.n as int, LIM as int, LIM as int);
            lemma_mul_bound(self.den as int, s.d as int, LIM as int, LIM as int);
            lemma_mul_pos(self.den as int, s.d as int);
        }
        RGB { r: self.r * s.n, g: self.g * s.n, b: self.b * s.n, den: self.den * s.d }
    }

    pub fn div(&self, s: &Scalar) -> (c: RGB)
        requires
            self.bounded(),
            s.bounded(),
            s@.n != 0,
        ensures
            c@ == self@.scale(s@.recip()),
            c.wf(),
    {
        let rec = if s.n >= 0 {
            Scalar { n: s.d, d: s.n }
        } else {
            Scalar { n: -s.d, d: -s.n }
        };
        self.mul_scalar(&rec)
    }

    pub fn add_assign(&mut self, o: &RGB)
        requires
            old(self).bounded(),
            o.bounded(),
        ensures
            final(self)@ == old(self)@.add(o@),
            final(self).wf(),
    {
        *self = self.add(o);
    }

    pub fn sub_assign(&mut self, o: &RGB)
        requires
            old(self).bounded(),
            o.bounded(),
        ensures
            final(self)@ == old(self)@.sub(o@),
            final(self).wf(),
    {
        *self = self.sub(o);
    }

    pub fn mul_assign(&mut self, o: &RGB)
        requires
            old(self).bounded(),
            o.bounded(),
        ensures
            final(self)@ == old(self)@.mul(o@),
            final(self).wf(),
    {
        *self = self.mul(o);
    }

    pub fn div_assign(&mut self, s: &Scalar)
        requires
            old(self).bounded(),
            s.bounded(),
            s@.n != 0,
        ensures
            final(self)@ == old(self)@.scale(s@.recip()),
            final(self).wf(),
    {
        *self = self.div(s);
    }
}

} // verus!
