use vstd::prelude::*;

use crate::point2::Point2;
use crate::scalar::{lemma_mul_bound, lemma_mul_pos, isqrt, Rat, Scalar, LIM};

verus! {

/// The mathematical value of a two component vector: integer numerators
/// `x`, `y` over the common positive denominator `d`.
pub ghost struct V2 {
    pub x: int,
    pub y: int,
    pub d: int,
}

impl V2 {
    pub open spec fn wf(self) -> bool {
        self.d > 0
    }

    pub open spec fn bounded(self) -> bool {
        &&& -LIM <= self.x <= LIM
        &&& -LIM <= self.y <= LIM
        &&& 0 < self.d <= LIM
    }

    pub open spec fn eq_rat(self, o: V2) -> bool {
        &&& self.x * o.d == o.x * self.d
        &&& self.y * o.d == o.y * self.d
    }

    pub open spec fn from_ints(x: int, y: int) -> V2 {
        V2 { x: x, y: y, d: 1 }
    }

    /// Component `i` of the numerators: 0 is x, anything else y.
    pub open spec fn idx(self, i: int) -> int {
        if i == 0 {
            self.x
        } else {
            self.y
        }
    }

    pub open spec fn add(self, o: V2) -> V2 {
        V2 { x: self.x * o.d + o.x * self.d, y: self.y * o.d + o.y * self.d, d: self.d * o.d }
    }

    pub open spec fn sub(self, o: V2) -> V2 {
        V2 { x: self.x * o.d - o.x * self.d, y: self.y * o.d - o.y * self.d, d: self.d * o.d }
    }

    pub open spec fn scale(self, s: Rat) -> V2 {
        V2 { x: self.x * s.n, y: self.y * s.n, d: self.d * s.d }
    }

    pub open spec fn neg(self) -> V2 {
        V2 { x: -self.x, y: -self.y, d: self.d }
    }

    pub open spec fn dot(self, o: V2) -> Rat {
        Rat { n: self.x * o.x + self.y * o.y, d: self.d * o.d }
    }
}

/// A two dimensional direction vector: exact rational components held as
/// integer numerators over the positive denominator `den`.
#[derive(Clone, Copy, Debug, PartialEq, Eq, Structural)]
pub struct Vector2 {
    /// Numerator of the x component.
    pub x: i128,
    /// Numerator of the y component.
    pub y: i128,
    /// Common denominator of the two components; always positive.
    pub den: i128,
}

impl View for Vector2 {
    type V = V2;

    open spec fn view(&self) -> V2 {
        V2 { x: self.x as int, y: self.y as int, d: self.den as int }
    }
}

impl Vector2 {
    pub open spec fn wf(self) -> bool {
        self@.wf()
    }

    pub open spec fn bounded(self) -> bool {
        self@.bounded()
    }

    /// The vector of two whole components.
    pub fn new(x: i128, y: i128) -> (r: Vector2)
        ensures
            r@ == V2::from_ints(x as int, y as int),
    {
        Vector2 { x, y, den: 1 }
    }

    /// The vector `(x, y) / den`.
    pub fn new_scaled(x: i128, y: i128, den: i128) -> (r: Vector2)
        requires
            den > 0,
        ensures
            r@ == (V2 { x: x as int, y: y as int, d: den as int }),
    {
        Vector2 { x, y, den }
    }

    /// Whether this and `o` denote the same vector.
    pub fn eq_rat(&self, o: &Vector2) -> (r: bool)
        requires
            self.bounded(),
            o.bounded(),
        ensures
            r == self@.eq_rat(o@),
    {
        proof {
            lemma_mul_bound(self.x as int, o.den as int, LIM as int, LIM as int);
            lemma_mul_bound(self.y as int, o.den as int, LIM as int, LIM as int);
            lemma_mul_bound(o.x as int, self.den as int, LIM as int, LIM as int);
            lemma_mul_bound(o.y as int, self.den as int, LIM as int, LIM as int);
        }
        self.x * o.den == o.x * self.den && self.y * o.den == o.y * self.den
    }

    pub fn add(&self, o: &Vector2) -> (r: Vector2)
        requires
            self.bounded(),
            o.bounded(),
        ensures
            r@ == self@.add(o@),
            r.wf(),
    {
        proof {
            lemma_mul_bound(self.x as int, o.den as int, LIM as int, LIM as int);
            lemma_mul_bound(self.y as int, o.den as int, LIM as int, LIM as int);
            lemma_mul_bound(o.x as int, self.den as int, LIM as int, LIM as int);
            lemma_mul_bound(o.y as int, self.den as int, LIM as int, LIM as int);
            lemma_mul_bound(self.den as int, o.den as int, LIM as int, LIM as int);
            lemma_mul_pos(self.den as int, o.den as int);
        }
        Vector2 {
            x: self.x * o.den + o.x * self.den,
            y: self.y * o.den + o.y * self.den,
            den: self.den * o.den,
        }
    }

    pub fn sub(&self, o: &Vector2) -> (r: Vector2)
        requires
            self.bounded(),
            o.bounded(),
        ensures
            r@ == self@.sub(o@),
            r.wf(),
    {
        proof {
            lemma_mul_bound(self.x as int, o.den as int, LIM as int, LIM as int);
            lemma_mul_bound(self.y as int, o.den as int, LIM as int, LIM as int);
            lemma_mul_bound(o.x as int, self.den as int, LIM as int, LIM as int);
            lemma_mul_bound(o.y as int, self.den as int, LIM as int, LIM as int);
            lemma_mul_bound(self.den as int, o.den as int, LIM as int, LIM as int);
            lemma_mul_pos(self.den as int, o.den as int);
        }
        Vector2 {
            x: self.x * o.den - o.x * self.den,
            y: self.y * o.den - o.y * self.den,
            den: self.den * o.den,
        }
    }

    pub fn mul_scalar(&self, s: &Scalar) -> (r: Vector2)
        requires
            self.bounded(),
            s.bounded(),
        ensures
            r@ == self@.scale(s@),
            r.wf(),
    {
        proof {
            lemma_mul_bound(self.x as int, s.n as int, LIM as int, LIM as int);
            lemma_mul_bound(self.y as int, s.n as int, LIM as int, LIM as int);
            lemma_mul_bound(self.den as int, s.d as int, LIM as int, LIM as int);
            lemma_mul_pos(self.den as int, s.d as int);
        }
        Vector2 { x: self.x * s.n, y: self.y * s.n, den: self.den * s.d }
    }

    pub fn div(&self, s: &Scalar) -> (r: Vector2)
        requires
            self.bounded(),
            s.bounded(),
            s@.n != 0,
        ensures
            r@ == self@.scale(s@.recip()),
            r.wf(),
    {
        let rec = if s.n >= 0 {
            Scalar { n: s.d, d: s.n }
        } else {
            Scalar { n: -s.d, d: -s.n }
        };
        self.mul_scalar(&rec)
    }

    /// The dot product of this vector and `other`.
    pub fn dot(&self, other: &Vector2) -> (r: Scalar)
        requires
            self.bounded(),
            other.bounded(),
        ensures
            r@ == self@.dot(other@),
            r.wf(),
    {
        proof {
            lemma_mul_bound(self.x as int, other.x as int, LIM as int, LIM as int);
            lemma_mul_bound(self.y as int, other.y as int, LIM as int, LIM as int);
            lemma_mul_bound(self.den as int, other.den as int, LIM as int, LIM as int);
            lemma_mul_pos(self.den as int, other.den as int);
        }
        Scalar { n: self.x * other.x + self.y * other.y, d: self.den * other.den }
    }

    /// The projection of this vector onto `other`, under the assumption
    /// that `other` has unit length.
    pub fn project(&self, other: &Vector2) -> (r: Vector2)
        requires
            self.bounded(),
            other.bounded(),
        ensures
            r@ == other@.scale(self@.dot(other@)),
            r.wf(),
    {
        proof {
            lemma_mul_bound(self.x as int, other.x as int, LIM as int, LIM as int);
            lemma_mul_bound(self.y as int, other.y as int, LIM as int, LIM as int);
            lemma_mul_bound(self.den as int, other.den as int, LIM as int, LIM as int);
            lemma_mul_pos(self.den as int, other.den as int);
        }
        let dn = self.x * other.x + self.y * other.y;
        let dd = self.den * other.den;
        proof {
            lemma_mul_bound(other.x as int, dn as int, LIM as int, 2 * (LIM as int) * (LIM as int));
            lemma_mul_bound(other.y as int, dn as int, LIM as int, 2 * (LIM as int) * (LIM as int));
            lemma_mul_bound(other.den as int, dd as int, LIM as int, (LIM as int) * (LIM as int));
            lemma_mul_pos(other.den as int, dd as int);
        }
        Vector2 { x: other.x * dn, y: other.y * dn, den: other.den * dd }
    }

    /// The rejection of this vector from `other` (what projection leaves),
    /// under the assumption that `other` has unit length.
    pub fn reject(&self, other: &Vector2) -> (r: Vector2)
        requires
            self.bounded(),
            other.bounded(),
        ensures
            r@ == self@.sub(other@.scale(self@.dot(other@))),
            r.wf(),
    {
        let p = self.project(other);
        proof {
            let dn = self@.x * other@.x + self@.y * other@.y;
            lemma_mul_bound(self@.x, other@.x, LIM as int, LIM as int);
            lemma_mul_bound(self@.y, other@.y, LIM as int, LIM as int);
            lemma_mul_bound(other@.x, dn, LIM as int, 2 * (LIM as int) * (LIM as int));
            lemma_mul_bound(other@.y, dn, LIM as int, 2 * (LIM as int) * (LIM as int));
            lemma_mul_bound(self@.d, other@.d, LIM as int, LIM as int);
            lemma_mul_bound(other@.d, self@.d * other@.d, LIM as int, (LIM as int) * (LIM as int));
            let l3: int = 2 * (LIM as int) * (LIM as int) * (LIM as int);
            lemma_mul_bound(self.x as int, p.den as int, LIM as int, l3);
            lemma_mul_bound(self.y as int, p.den as int, LIM as int, l3);
            lemma_mul_bound(p.x as int, self.den as int, l3, LIM as int);
            lemma_mul_bound(p.y as int, self.den as int, l3, LIM as int);
            lemma_mul_bound(self.den as int, p.den as int, LIM as int, l3);
            lemma_mul_pos(self.den as int, p.den as int);
        }
        Vector2 {
            x: self.x * p.den - p.x * self.den,
            y: self.y * p.den - p.y * self.den,
            den: self.den * p.den,
        }
    }

    /// The reflection of this vector through the line perpendicular to the
    /// unit vector `other`: the projection is removed twice.
    pub fn reflect(&self, other: &Vector2) -> (r: Vector2)
        requires
            self.bounded(),
            other.bounded(),
        ensures
            r@ == self@.sub(other@.scale(self@.dot(other@)).scale(Rat::from_int(2))),
            r.wf(),
    {
        let p = self.project(other);
        proof {
            let dn = self@.x * other@.x + self@.y * other@.y;
            lemma_mul_bound(self@.x, other@.x, LIM as int, LIM as int);
            lemma_mul_bound(self@.y, other@.y, LIM as int, LIM as int);
            lemma_mul_bound(other@.x, dn, LIM as int, 2 * (LIM as int) * (LIM as int));
            lemma_mul_bound(other@.y, dn, LIM as int, 2 * (LIM as int) * (LIM as int));
            lemma_mul_bound(self@.d, other@.d, LIM as int, LIM as int);
            lemma_mul_bound(other@.d, self@.d * other@.d, LIM as int, (LIM as int) * (LIM as int));
            let l3: int = 2 * (LIM as int) * (LIM as int) * (LIM as int);
            let l32: int = 4 * (LIM as int) * (LIM as int) * (LIM as int);
            lemma_mul_bound(p.x as int, 2, l3, 2);
            lemma_mul_bound(p.y as int, 2, l3, 2);
            lemma_mul_bound(self.x as int, p.den as int, LIM as int, l3);
            lemma_mul_bound(self.y as int, p.den as int, LIM as int, l3);
            lemma_mul_bound(p.x as int * 2, self.den as int, l32, LIM as int);
            lemma_mul_bound(p.y as int * 2, self.den as int, l32, LIM as int);
            lemma_mul_bound(self.den as int, p.den as int, LIM as int, l3);
            lemma_mul_pos(self.den as int, p.den as int);
        }
        Vector2 {
            x: self.x * p.den - (p.x * 2) * self.den,
            y: self.y * p.den - (p.y * 2) * self.den,
            den: self.den * p.den,
        }
    }

    /// The length of this vector, when that length is itself a rational
    /// number; `None` exactly when the squared numerator length has no
    /// integer square root.
    pub fn magnitude(&self) -> (r: Option<Scalar>)
        requires
            self.bounded(),
        ensures
            match r {
                Some(s) => {
                    &&& s@.n >= 0
                    &&& s@.n * s@.n == self@.x * self@.x + self@.y * self@.y
                    &&& s@.d == self@.d
                },
                None => forall|k: int| #[trigger] (k * k) != self@.x * self@.x + self@.y * self@.y,
            },
    {
        proof {
            lemma_mul_bound(self.x as int, self.x as int, LIM as int, LIM as int);
            lemma_mul_bound(self.y as int, self.y as int, LIM as int, LIM as int);
        }
        let s2 = self.x * self.x + self.y * self.y;
        proof {
            assert(self.x as int * self.x >= 0 && self.y as int * self.y >= 0)
                by (nonlinear_arith);
        }
        let root = isqrt(s2);
        if root * root == s2 {
            Some(Scalar { n: root, d: self.den })
        } else {
            proof {
                assert forall|k: int| #[trigger] (k * k) != s2 as int by {
                    if k * k == s2 as int {
                        if k >= 0 {
                            crate::scalar::lemma_sqrt_unique_below(k, root as int, s2 as int);
                        } else {
                            assert(k * k == (-k) * (-k)) by (nonlinear_arith);
                            crate::scalar::lemma_sqrt_unique_below(-k, root as int, s2 as int);
                        }
                    }
                }
            }
            None
        }
    }

    /// This vector scaled to unit length, when its length is rational;
    /// `None` when the vector is zero or its squared length has no exact
    /// root.
    pub fn normalize(&self) -> (r: Option<Vector2>)
        requires
            self.bounded(),
        ensures
            match r {
                Some(u) => {
                    &&& u@.x == self@.x
                    &&& u@.y == self@.y
                    &&& u@.d > 0
                    &&& u@.d * u@.d == self@.x * self@.x + self@.y * self@.y
                },
                None => (self@.x == 0 && self@.y == 0) || forall|k: int| #[trigger] (k * k)
                    != self@.x * self@.x + self@.y * self@.y,
            },
    {
        let m = self.magnitude();
        match m {
            Some(s) => {
                if s.n > 0 {
                    Some(Vector2 { x: self.x, y: self.y, den: s.n })
                } else {
                    proof {
                        assert(s@.n == 0 ==> s@.n * s@.n == 0) by (nonlinear_arith);
                        assert(self.x as int * self.x >= 0 && self.y as int * self.y >= 0)
                            by (nonlinear_arith);
                        assert(self.x as int * self.x == 0 ==> self.x as int == 0)
                            by (nonlinear_arith);
                        assert(self.y as int * self.y == 0 ==> self.y as int == 0)
                            by (nonlinear_arith);
                    }
                    None
                }
            },
            None => None,
        }
    }

    /// Scales this vector in place to unit length when its length is
    /// rational, reporting whether it did; on `false` the vector is left
    /// unchanged.
    pub fn normalize_mut(&mut self) -> (ok: bool)
        requires
            old(self).bounded(),
        ensures
            ok <==> ((old(self)@.x != 0 || old(self)@.y != 0) && exists|k: int|
                #[trigger] (k * k) == old(self)@.x * old(self)@.x + old(self)@.y * old(self)@.y),
            ok ==> {
                &&& final(self)@.x == old(self)@.x
                &&& final(self)@.y == old(self)@.y
                &&& final(self)@.d > 0
                &&& final(self)@.d * final(self)@.d == old(self)@.x * old(self)@.x + old(
                    self,
                )@.y * old(self)@.y
            },
            !ok ==> *final(self) == *old(self),
    {
        let u = self.normalize();
        match u {
            Some(v) => {
                proof {
                    let ox = old(self)@.x;
                    let oy = old(self)@.y;
                    assert(v@.d >= 1 ==> v@.d * v@.d >= 1) by (nonlinear_arith);
                    assert(ox == 0 ==> ox * ox == 0) by (nonlinear_arith);
                    assert(oy == 0 ==> oy * oy == 0) by (nonlinear_arith);
                }
                *self = v;
                true
            },
            None => false,
        }
    }

    /// The position with the same coordinates.
    pub fn to_point(&self) -> (r: Point2)
        ensures
            r@ == self@,
    {
        Point2 { x: self.x, y: self.y, den: self.den }
    }
}

} // verus!
