use vstd::prelude::*;

use crate::scalar::{lemma_mul_bound, lemma_mul_pos, isqrt, Rat, Scalar, LIM};

verus! {

/// The mathematical value of a four component vector: integer numerators
/// over the common positive denominator `d`.
pub ghost struct V4 {
    pub x: int,
    pub y: int,
    pub z: int,
    pub w: int,
    pub d: int,
}

impl V4 {
    pub open spec fn wf(self) -> bool {
        self.d > 0
    }

    pub open spec fn bounded(self) -> bool {
        &&& -LIM <= self.x <= LIM
        &&& -LIM <= self.y <= LIM
        &&& -LIM <= self.z <= LIM
        &&& -LIM <= self.w <= LIM
        &&& 0 < self.d <= LIM
    }

    pub open spec fn eq_rat(self, o: V4) -> bool {
        &&& self.x * o.d == o.x * self.d
        &&& self.y * o.d == o.y * self.d
        &&& self.z * o.d == o.z * self.d
        &&& self.w * o.d == o.w * self.d
    }

    /// Component `i` of the numerators, in x, y, z, w order.
    pub open spec fn idx(self, i: int) -> int {
        if i == 0 {
            self.x
        } else if i == 1 {
            self.y
        } else if i == 2 {
            self.z
        } else {
            self.w
        }
    }

    pub open spec fn add(self, o: V4) -> V4 {
        V4 {
            x: self.x * o.d + o.x * self.d,
            y: self.y * o.d + o.y * self.d,
            z: self.z * o.d + o.z * self.d,
            w: self.w * o.d + o.w * self.d,
            d: self.d * o.d,
        }
    }

    pub open spec fn sub(self, o: V4) -> V4 {
        V4 {
            x: self.x * o.d - o.x * self.d,
            y: self.y * o.d - o.y * self.d,
            z: self.z * o.d - o.z * self.d,
            w: self.w * o.d - o.w * self.d,
            d: self.d * o.d,
        }
    }

    pub open spec fn scale(self, s: Rat) -> V4 {
        V4 { x: self.x * s.n, y: self.y * s.n, z: self.z * s.n, w: self.w * s.n, d: self.d * s.d }
    }

    pub open spec fn dot(self, o: V4) -> Rat {
        Rat {
            n: self.x * o.x + self.y * o.y + self.z * o.z + self.w * o.w,
            d: self.d * o.d,
        }
    }
}

/// A four dimensional vector: exact rational components held as integer
/// numerators over the positive denominator `den`.
#[derive(Clone, Copy, Debug, PartialEq, Eq, Structural)]
pub struct Vector4 {
    /// Numerator of the x component.
    pub x: i128,
    /// Numerator of the y component.
    pub y: i128,
    /// Numerator of the z component.
    pub z: i128,
    /// Numerator of the w component.
    pub w: i128,
    /// Common denominator of the four components; always positive.
    pub den: i128,
}

impl View for Vector4 {
    type V = V4;

    open spec fn view(&self) -> V4 {
        V4 {
            x: self.x as int,
            y: self.y as int,
            z: self.z as int,
            w: self.w as int,
            d: self.den as int,
        }
    }
}

impl Vector4 {
    pub open spec fn wf(self) -> bool {
        self@.wf()
    }

    pub open spec fn bounded(self) -> bool {
        self@.bounded()
    }

    /// The vector of four whole components.
    pub fn new(x: i128, y: i128, z: i128, w: i128) -> (r: Vector4)
        ensures
            r@ == (V4 { x: x as int, y: y as int, z: z as int, w: w as int, d: 1 }),
    {
        Vector4 { x, y, z, w, den: 1 }
    }

    /// The vector `(x, y, z, w) / den`.
    pub fn new_scaled(x: i128, y: i128, z: i128, w: i128, den: i128) -> (r: Vector4)
        requires
            den > 0,
        ensures
            r@ == (V4 { x: x as int, y: y as int, z: z as int, w: w as int, d: den as int }),
    {
        Vector4 { x, y, z, w, den }
    }

    pub fn add(&self, o: &Vector4) -> (r: Vector4)
        requires
            self.bounded(),
            o.bounded(),
        ensures
            r@ == self@.add(o@),
            r.wf(),
    {
        proof {
            lemma_mul_bound(self.x as int, o.den as int, LIM as int, LIM as int);
            lemma_mul_bound(self.y as int, o.den as int, LIM as int, LIM as int);
            lemma_mul_bound(self.z as int, o.den as int, LIM as int, LIM as int);
            lemma_mul_bound(self.w as int, o.den as int, LIM as int, LIM as int);
            lemma_mul_bound(o.x as int, self.den as int, LIM as int, LIM as int);
            lemma_mul_bound(o.y as int, self.den as int, LIM as int, LIM as int);
            lemma_mul_bound(o.z as int, self.den as int, LIM as int, LIM as int);
            lemma_mul_bound(o.w as int, self.den as int, LIM as int, LIM as int);
            lemma_mul_bound(self.den as int, o.den as int, LIM as int, LIM as int);
            lemma_mul_pos(self.den as int, o.den as int);
        }
        Vector4 {
            x: self.x * o.den + o.x * self.den,
            y: self.y * o.den + o.y * self.den,
            z: self.z * o.den + o.z * self.den,
            w: self.w * o.den + o.w * self.den,
            den: self.den * o.den,
        }
    }

    pub fn sub(&self, o: &Vector4) -> (r: Vector4)
        requires
            self.bounded(),
            o.bounded(),
        ensures
            r@ == self@.sub(o@),
            r.wf(),
    {
        proof {
            lemma_mul_bound(self.x as int, o.den as int, LIM as int, LIM as int);
            lemma_mul_bound(self.y as int, o.den as int, LIM as int, LIM as int);
            lemma_mul_bound(self.z as int, o.den as int, LIM as int, LIM as int);
            lemma_mul_bound(self.w as int, o.den as int, LIM as int, LIM as int);
            lemma_mul_bound(o.x as int, self.den as int, LIM as int, LIM as int);
            lemma_mul_bound(o.y as int, self.den as int, LIM as int, LIM as int);
            lemma_mul_bound(o.z as int, self.den as int, LIM as int, LIM as int);
            lemma_mul_bound(o.w as int, self.den as int, LIM as int, LIM as int);
            lemma_mul_bound(self.den as int, o.den as int, LIM as int, LIM as int);
            lemma_mul_pos(self.den as int, o.den as int);
        }
        Vector4 {
            x: self.x * o.den - o.x * self.den,
            y: self.y * o.den - o.y * self.den,
            z: self.z * o.den - o.z * self.den,
            w: self.w * o.den - o.w * self.den,
            den: self.den * o.den,
        }
    }

    pub fn mul_scalar(&self, s: &Scalar) -> (r: Vector4)
        requires
            self.bounded(),
            s.bounded(),
        ensures
            r@ == self@.scale(s@),
            r.wf(),
    {
        proof {
            lemma_mul_bound(self.x as int, s.n as int, LIM as int, LIM as int);
            lemma_mul_bound(self.y as int, s.n as int, LIM as int, LIM as int);
            lemma_mul_bound(self.z as int, s.n as int, LIM as int, LIM as int);
            lemma_mul_bound(self.w as int, s.n as int, LIM as int, LIM as int);
            lemma_mul_bound(self.den as int, s.d as int, LIM as int, LIM as int);
            lemma_mul_pos(self.den as int, s.d as int);
        }
        Vector4 {
            x: self.x * s.n,
            y: self.y * s.n,
            z: self.z * s.n,
            w: self.w * s.n,
            den: self.den * s.d,
        }
    }

    pub fn div(&self, s: &Scalar) -> (r: Vector4)
        requires
            self.bounded(),
            s.bounded(),
            s@.n != 0,
        ensures
            r@ == self@.scale(s@.recip()),
            r.wf(),
    {
        let rec = if s.n >= 0 {
            Scalar { n: s.d, d: s.n }
        } else {
            Scalar { n: -s.d, d: -s.n }
        };
        self.mul_scalar(&rec)
    }

    /// The projection of this vector onto `other`, under the assumption
    /// that `other` has unit length.
    pub fn project(&self, other: &Vector4) -> (r: Vector4)
        requires
            self.bounded(),
            other.bounded(),
        ensures
            r@ == other@.scale(self@.dot(other@)),
            r.wf(),
    {
        proof {
            lemma_mul_bound(self.x as int, other.x as int, LIM as int, LIM as int);
            lemma_mul_bound(self.y as int, other.y as int, LIM as int, LIM as int);
            lemma_mul_bound(self.z as int, other.z as int, LIM as int, LIM as int);
            lemma_mul_bound(self.w as int, other.w as int, LIM as int, LIM as int);
            lemma_mul_bound(self.den as int, other.den as int, LIM as int, LIM as int);
            lemma_mul_pos(self.den as int, other.den as int);
        }
        let dn = self.x * other.x + self.y * other.y + self.z * other.z + self.w * other.w;
        let dd = self.den * other.den;
        proof {
            lemma_mul_bound(other.x as int, dn as int, LIM as int, 4 * (LIM as int) * (LIM as int));
            lemma_mul_bound(other.y as int, dn as int, LIM as int, 4 * (LIM as int) * (LIM as int));
            lemma_mul_bound(other.z as int, dn as int, LIM as int, 4 * (LIM as int) * (LIM as int));
            lemma_mul_bound(other.w as int, dn as int, LIM as int, 4 * (LIM as int) * (LIM as int));
            lemma_mul_bound(other.den as int, dd as int, LIM as int, (LIM as int) * (LIM as int));
            lemma_mul_pos(other.den as int, dd as int);
        }
        Vector4 {
            x: other.x * dn,
            y: other.y * dn,
            z: other.z * dn,
            w: other.w * dn,
            den: other.den * dd,
        }
    }

    /// The rejection of this vector from `other` (what projection leaves),
    /// under the assumption that `other` has unit length.
    pub fn reject(&self, other: &Vector4) -> (r: Vector4)
        requires
            self.bounded(),
            other.bounded(),
        ensures
            r@ == self@.sub(other@.scale(self@.dot(other@))),
            r.wf(),
    {
        let p = self.project(other);
        proof {
            let dn = self@.x * other@.x + self@.y * other@.y + self@.z * other@.z + self@.w
                * other@.w;
            lemma_mul_bound(self@.x, other@.x, LIM as int, LIM as int);
            lemma_mul_bound(self@.y, other@.y, LIM as int, LIM as int);
            lemma_mul_bound(self@.z, other@.z, LIM as int, LIM as int);
            lemma_mul_bound(self@.w, other@.w, LIM as int, LIM as int);
            lemma_mul_bound(other@.x, dn, LIM as int, 4 * (LIM as int) * (LIM as int));
            lemma_mul_bound(other@.y, dn, LIM as int, 4 * (LIM as int) * (LIM as int));
            lemma_mul_bound(other@.z, dn, LIM as int, 4 * (LIM as int) * (LIM as int));
            lemma_mul_bound(other@.w, dn, LIM as int, 4 * (LIM as int) * (LIM as int));
            lemma_mul_bound(self@.d, other@.d, LIM as int, LIM as int);
            lemma_mul_bound(other@.d, self@.d * other@.d, LIM as int, (LIM as int) * (LIM as int));
            let l3: int = 4 * (LIM as int) * (LIM as int) * (LIM as int);
            lemma_mul_bound(self.x as int, p.den as int, LIM as int, l3);
            lemma_mul_bound(self.y as int, p.den as int, LIM as int, l3);
            lemma_mul_bound(self.z as int, p.den as int, LIM as int, l3);
            lemma_mul_bound(self.w as int, p.den as int, LIM as int, l3);
            lemma_mul_bound(p.x as int, self.den as int, l3, LIM as int);
            lemma_mul_bound(p.y as int, self.den as int, l3, LIM as int);
            lemma_mul_bound(p.z as int, self.den as int, l3, LIM as int);
            lemma_mul_bound(p.w as int, self.den as int, l3, LIM as int);
            lemma_mul_bound(self.den as int, p.den as int, LIM as int, l3);
            lemma_mul_pos(self.den as int, p.den as int);
        }
        Vector4 {
            x: self.x * p.den - p.x * self.den,
            y: self.y * p.den - p.y * self.den,
            z: self.z * p.den - p.z * self.den,
            w: self.w * p.den - p.w * self.den,
            den: self.den * p.den,
        }
    }

    /// The dot product of this vector and `other`.
    pub fn dot(&self, other: &Vector4) -> (r: Scalar)
        requires
            self.bounded(),
            other.bounded(),
        ensures
            r@ == self@.dot(other@),
            r.wf(),
    {
        proof {
            lemma_mul_bound(self.x as int, other.x as int, LIM as int, LIM as int);
            lemma_mul_bound(self.y as int, other.y as int, LIM as int, LIM as int);
            lemma_mul_bound(self.z as int, other.z as int, LIM as int, LIM as int);
            lemma_mul_bound(self.w as int, other.w as int, LIM as int, LIM as int);
            lemma_mul_bound(self.den as int, other.den as int, LIM as int, LIM as int);
            lemma_mul_pos(self.den as int, other.den as int);
        }
        Scalar {
            n: self.x * other.x + self.y * other.y + self.z * other.z + self.w * other.w,
            d: self.den * other.den,
        }
    }

    /// The length of this vector, when that length is itself a rational
    /// number; `None` exactly when the squared numerator length has no
    /// integer square root.
    pub fn magnitude(&self) -> (r: Option<Scalar>)
        requires
            self.bounded(),
        ensures
            match r {
                Some(s) => {
                    &&& s@.n >= 0
                    &&& s@.n * s@.n == self@.x * self@.x + self@.y * self@.y + self@.z * self@.z
                        + self@.w * self@.w
                    &&& s@.d == self@.d
                },
                None => forall|k: int| #[trigger] (k * k) != self@.x * self@.x + self@.y * self@.y
                    + self@.z * self@.z + self@.w * self@.w,
            },
    {
        proof {
            lemma_mul_bound(self.x as int, self.x as int, LIM as int, LIM as int);
            lemma_mul_bound(self.y as int, self.y as int, LIM as int, LIM as int);
            lemma_mul_bound(self.z as int, self.z as int, LIM as int, LIM as int);
            lemma_mul_bound(self.w as int, self.w as int, LIM as int, LIM as int);
        }
        let s2 = self.x * self.x + self.y * self.y + self.z * self.z + self.w * self.w;
        proof {
            assert(self.x as int * self.x >= 0 && self.y as int * self.y >= 0 && self.z as int
                * self.z >= 0 && self.w as int * self.w >= 0) by (nonlinear_arith);
        }
        let root = isqrt(s2);
        if root * root == s2 {
            Some(Scalar { n: root, d: self.den })
        } else {
            proof {
                assert forall|k: int| #[trigger] (k * k) != s2 as int by {
                    if k * k == s2 as int {
                        if k >= 0 {
                            crate::scalar::lemma_sqrt_unique_below(k, root as int, s2 as int);
                        } else {
                            assert(k * k == (-k) * (-k)) by (nonlinear_arith);
                            crate::scalar::lemma_sqrt_unique_below(-k, root as int, s2 as int);
                        }
                    }
                }
            }
            None
        }
    }

    /// This vector scaled to unit length, when its length is rational;
    /// `None` when the vector is zero or its squared length has no exact
    /// root.
    pub fn normalize(&self) -> (r: Option<Vector4>)
        requires
            self.bounded(),
        ensures
            match r {
                Some(u) => {
                    &&& u@.x == self@.x
                    &&& u@.y == self@.y
                    &&& u@.z == self@.z
                    &&& u@.w == self@.w
                    &&& u@.d > 0
                    &&& u@.d * u@.d == self@.x * self@.x + self@.y * self@.y + self@.z * self@.z
                        + self@.w * self@.w
                },
                None => (self@.x == 0 && self@.y == 0 && self@.z == 0 && self@.w == 0) || forall|
                    k: int,
                |
                    #[trigger] (k * k) != self@.x * self@.x + self@.y * self@.y + self@.z * self@.z
                        + self@.w * self@.w,
            },
    {
        let m = self.magnitude();
        match m {
            Some(s) => {
                if s.n > 0 {
                    Some(Vector4 { x: self.x, y: self.y, z: self.z, w: self.w, den: s.n })
                } else {
                    proof {
                        assert(s@.n == 0 ==> s@.n * s@.n == 0) by (nonlinear_arith);
                        assert(self.x as int * self.x >= 0 && self.y as int * self.y >= 0
                            && self.z as int * self.z >= 0 && self.w as int * self.w >= 0)
                            by (nonlinear_arith);
                        assert(self.x as int * self.x == 0 ==> self.x as int == 0)
                            by (nonlinear_arith);
                        assert(self.y as int * self.y == 0 ==> self.y as int == 0)
                            by (nonlinear_arith);
                        assert(self.z as int * self.z == 0 ==> self.z as int == 0)
                            by (nonlinear_arith);
                        assert(self.w as int * self.w == 0 ==> self.w as int == 0)
                            by (nonlinear_arith);
                    }
                    None
                }
            },
            None => None,
        }
    }

    /// Scales this vector in place to unit length when its length is
    /// rational, reporting whether it did; on `false` the vector is left
    /// unchanged.
    pub fn normalize_mut(&mut self) -> (ok: bool)
        requires
            old(self).bounded(),
        ensures
            ok <==> ((old(self)@.x != 0 || old(self)@.y != 0 || old(self)@.z != 0 || old(
                self,
            )@.w != 0) && exists|k: int|
                #[trigger] (k * k) == old(self)@.x * old(self)@.x + old(self)@.y * old(self)@.y
                    + old(self)@.z * old(self)@.z + old(self)@.w * old(self)@.w),
            ok ==> {
                &&& final(self)@.x == old(self)@.x
                &&& final(self)@.y == old(self)@.y
                &&& final(self)@.z == old(self)@.z
                &&& final(self)@.w == old(self)@.w
                &&& final(self)@.d > 0
                &&& final(self)@.d * final(self)@.d == old(self)@.x * old(self)@.x + old(
                    self,
                )@.y * old(self)@.y + old(self)@.z * old(self)@.z + old(self)@.w * old(self)@.w
            },
            !ok ==> *final(self) == *old(self),
    {
        let u = self.normalize();
        match u {
            Some(v) => {
                proof {
                    let ox = old(self)@.x;
                    let oy = old(self)@.y;
                    let oz = old(self)@.z;
                    let ow = old(self)@.w;
                    assert(v@.d >= 1 ==> v@.d * v@.d >= 1) by (nonlinear_arith);
                    assert(ox == 0 ==> ox * ox == 0) by (nonlinear_arith);
                    assert(oy == 0 ==> oy * oy == 0) by (nonlinear_arith);
                    assert(oz == 0 ==> oz * oz == 0) by (nonlinear_arith);
                    assert(ow == 0 ==> ow * ow == 0) by (nonlinear_arith);
                }
                *self = v;
                true
            },
            None => false,
        }
    }
}

} // verus!
