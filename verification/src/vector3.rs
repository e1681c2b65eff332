use vstd::prelude::*;

use crate::point3::Point3;
use crate::scalar::{lemma_mul_bound, lemma_mul_pos, isqrt, Rat, Scalar, LIM};

verus! {

/// The mathematical value of a three component vector: integer numerators
/// `x`, `y`, `z` over the common positive denominator `d`.
pub ghost struct V3 {
    pub x: int,
    pub y: int,
    pub z: int,
    pub d: int,
}

impl V3 {
    pub open spec fn wf(self) -> bool {
        self.d > 0
    }

    pub open spec fn bounded(self) -> bool {
        &&& -LIM <= self.x <= LIM
        &&& -LIM <= self.y <= LIM
        &&& -LIM <= self.z <= LIM
        &&& 0 < self.d <= LIM
    }

    /// Equality of the represented vectors, component by component,
    /// independent of the representative pairs.
    pub open spec fn eq_rat(self, o: V3) -> bool {
        &&& self.x * o.d == o.x * self.d
        &&& self.y * o.d == o.y * self.d
        &&& self.z * o.d == o.z * self.d
    }

    pub open spec fn from_ints(x: int, y: int, z: int) -> V3 {
        V3 { x: x, y: y, z: z, d: 1 }
    }

    /// Component `i` of the numerators: 0 is x, 1 is y, anything else z.
    pub open spec fn idx(self, i: int) -> int {
        if i == 0 {
            self.x
        } else if i == 1 {
            self.y
        } else {
            self.z
        }
    }

    pub open spec fn add(self, o: V3) -> V3 {
        V3 {
            x: self.x * o.d + o.x * self.d,
            y: self.y * o.d + o.y * self.d,
            z: self.z * o.d + o.z * self.d,
            d: self.d * o.d,
        }
    }

    pub open spec fn sub(self, o: V3) -> V3 {
        V3 {
            x: self.x * o.d - o.x * self.d,
            y: self.y * o.d - o.y * self.d,
            z: self.z * o.d - o.z * self.d,
            d: self.d * o.d,
        }
    }

    /// Component-wise product.
    pub open spec fn cmul(self, o: V3) -> V3 {
        V3 { x: self.x * o.x, y: self.y * o.y, z: self.z * o.z, d: self.d * o.d }
    }

    pub open spec fn scale(self, s: Rat) -> V3 {
        V3 { x: self.x * s.n, y: self.y * s.n, z: self.z * s.n, d: self.d * s.d }
    }

    /// Division by a rational scalar; the divisor's sign moves into the
    /// numerators so the denominator stays positive.
    pub open spec fn div(self, s: Rat) -> V3 {
        if s.n >= 0 {
            V3 { x: self.x * s.d, y: self.y * s.d, z: self.z * s.d, d: self.d * s.n }
        } else {
            V3 {
                x: -(self.x * s.d),
                y: -(self.y * s.d),
                z: -(self.z * s.d),
                d: self.d * -s.n,
            }
        }
    }

    pub open spec fn neg(self) -> V3 {
        V3 { x: -self.x, y: -self.y, z: -self.z, d: self.d }
    }

    pub open spec fn dot(self, o: V3) -> Rat {
        Rat { n: self.x * o.x + self.y * o.y + self.z * o.z, d: self.d * o.d }
    }

    /// Bounds by the limit `l`; operations whose closed forms are of
    /// higher degree than the kernel's take inputs tighter than `bounded`.
    pub open spec fn bounded_by(self, l: int) -> bool {
        &&& -l <= self.x <= l
        &&& -l <= self.y <= l
        &&& -l <= self.z <= l
        &&& 0 < self.d <= l
    }

    pub open spec fn cross(self, o: V3) -> V3 {
        V3 {
            x: self.y * o.z - self.z * o.y,
            y: self.z * o.x - self.x * o.z,
            z: self.x * o.y - self.y * o.x,
            d: self.d * o.d,
        }
    }

}

/// A three dimensional direction vector: exact rational components held as
/// the integer numerators `x`, `y`, `z` over the positive denominator `den`.
#[derive(Clone, Copy, Debug, PartialEq, Eq, Structural)]
pub struct Vector3 {
    /// Numerator of the x component.
    pub x: i128,
    /// Numerator of the y component.
    pub y: i128,
    /// Numerator of the z component.
    pub z: i128,
    /// Common denominator of the three components; always positive.
    pub den: i128,
}

impl View for Vector3 {
    type V = V3;

    open spec fn view(&self) -> V3 {
        V3 { x: self.x as int, y: self.y as int, z: self.z as int, d: self.den as int }
    }
}

impl Vector3 {
    pub open spec fn wf(self) -> bool {
        self@.wf()
    }

    pub open spec fn bounded(self) -> bool {
        self@.bounded()
    }

    /// The vector of three whole components.
    pub fn new(x: i128, y: i128, z: i128) -> (r: Vector3)
        ensures
            r@ == V3::from_ints(x as int, y as int, z as int),
    {
        Vector3 { x, y, z, den: 1 }
    }

    /// The vector `(x, y, z) / den`.
    pub fn new_scaled(x: i128, y: i128, z: i128, den: i128) -> (r: Vector3)
        requires
            den > 0,
        ensures
            r@ == (V3 { x: x as int, y: y as int, z: z as int, d: den as int }),
    {
        Vector3 { x, y, z, den }
    }

    /// Whether this and `o` denote the same vector, whatever representative
    /// pairs the two hold.
    pub fn eq_rat(&self, o: &Vector3) -> (r: bool)
        requires
            self.bounded(),
            o.bounded(),
        ensures
            r == self@.eq_rat(o@),
    {
        proof {
            lemma_mul_bound(self.x as int, o.den as int, LIM as int, LIM as int);
            lemma_mul_bound(self.y as int, o.den as int, LIM as int, LIM as int);
            lemma_mul_bound(self.z as int, o.den as int, LIM as int, LIM as int);
            lemma_mul_bound(o.x as int, self.den as int, LIM as int, LIM as int);
            lemma_mul_bound(o.y as int, self.den as int, LIM as int, LIM as int);
            lemma_mul_bound(o.z as int, self.den as int, LIM as int, LIM as int);
        }
        self.x * o.den == o.x * self.den && self.y * o.den == o.y * self.den && self.z * o.den
            == o.z * self.den
    }

    pub fn add(&self, o: &Vector3) -> (r: Vector3)
        requires
            self.bounded(),
            o.bounded(),
        ensures
            r@ == self@.add(o@),
            r.wf(),
    {
        proof {
            lemma_mul_bound(self.x as int, o.den as int, LIM as int, LIM as int);
            lemma_mul_bound(self.y as int, o.den as int, LIM as int, LIM as int);
            lemma_mul_bound(self.z as int, o.den as int, LIM as int, LIM as int);
            lemma_mul_bound(o.x as int, self.den as int, LIM as int, LIM as int);
            lemma_mul_bound(o.y as int, self.den as int, LIM as int, LIM as int);
            lemma_mul_bound(o.z as int, self.den as int, LIM as int, LIM as int);
            lemma_mul_bound(self.den as int, o.den as int, LIM as int, LIM as int);
            lemma_mul_pos(self.den as int, o.den as int);
        }
        Vector3 {
            x: self.x * o.den + o.x * self.den,
            y: self.y * o.den + o.y * self.den,
            z: self.z * o.den + o.z * self.den,
            den: self.den * o.den,
        }
    }

    pub fn sub(&self, o: &Vector3) -> (r: Vector3)
        requires
            self.bounded(),
            o.bounded(),
        ensures
            r@ == self@.sub(o@),
            r.wf(),
    {
        proof {
            lemma_mul_bound(self.x as int, o.den as int, LIM as int, LIM as int);
            lemma_mul_bound(self.y as int, o.den as int, LIM as int, LIM as int);
            lemma_mul_bound(self.z as int, o.den as int, LIM as int, LIM as int);
            lemma_mul_bound(o.x as int, self.den as int, LIM as int, LIM as int);
            lemma_mul_bound(o.y as int, self.den as int, LIM as int, LIM as int);
            lemma_mul_bound(o.z as int, self.den as int, LIM as int, LIM as int);
            lemma_mul_bound(self.den as int, o.den as int, LIM as int, LIM as int);
            lemma_mul_pos(self.den as int, o.den as int);
        }
        Vector3 {
            x: self.x * o.den - o.x * self.den,
            y: self.y * o.den - o.y * self.den,
            z: self.z * o.den - o.z * self.den,
            den: self.den * o.den,
        }
    }

    /// Component-wise product.
    pub fn mul(&self, o: &Vector3) -> (r: Vector3)
        requires
            self.bounded(),
            o.bounded(),
        ensures
            r@ == self@.cmul(o@),
            r.wf(),
    {
        proof {
            lemma_mul_bound(self.x as int, o.x as int, LIM as int, LIM as int);
            lemma_mul_bound(self.y as int, o.y as int, LIM as int, LIM as int);
            lemma_mul_bound(self.z as int, o.z as int, LIM as int, LIM as int);
            lemma_mul_bound(self.den as int, o.den as int, LIM as int, LIM as int);
            lemma_mul_pos(self.den as int, o.den as int);
        }
        Vector3 { x: self.x * o.x, y: self.y * o.y, z: self.z * o.z, den: self.den * o.den }
    }

    pub fn mul_scalar(&self, s: &Scalar) -> (r: Vector3)
        requires
            self.bounded(),
            s.bounded(),
        ensures
            r@ == self@.scale(s@),
            r.wf(),
    {
        proof {
            lemma_mul_bound(self.x as int, s.n as int, LIM as int, LIM as int);
            lemma_mul_bound(self.y as int, s.n as int, LIM as int, LIM as int);
            lemma_mul_bound(self.z as int, s.n as int, LIM as int, LIM as int);
            lemma_mul_bound(self.den as int, s.d as int, LIM as int, LIM as int);
            lemma_mul_pos(self.den as int, s.d as int);
        }
        Vector3 { x: self.x * s.n, y: self.y * s.n, z: self.z * s.n, den: self.den * s.d }
    }

    pub fn div(&self, s: &Scalar) -> (r: Vector3)
        requires
            self.bounded(),
            s.bounded(),
            s@.n != 0,
        ensures
            r@ == self@.div(s@),
            r.wf(),
    {
        proof {
            lemma_mul_bound(self.x as int, s.d as int, LIM as int, LIM as int);
            lemma_mul_bound(self.y as int, s.d as int, LIM as int, LIM as int);
            lemma_mul_bound(self.z as int, s.d as int, LIM as int, LIM as int);
            lemma_mul_bound(self.den as int, s.n as int, LIM as int, LIM as int);
            lemma_mul_bound(self.den as int, -s.n as int, LIM as int, LIM as int);
            if s.n > 0 {
                lemma_mul_pos(self.den as int, s.n as int);
            } else {
                lemma_mul_pos(self.den as int, -s.n as int);
            }
        }
        if s.n >= 0 {
            Vector3 {
                x: self.x * s.d,
                y: self.y * s.d,
                z: self.z * s.d,
                den: self.den * s.n,
            }
        } else {
            Vector3 {
                x: -(self.x * s.d),
                y: -(self.y * s.d),
                z: -(self.z * s.d),
                den: self.den * -s.n,
            }
        }
    }

    pub fn neg(&self) -> (r: Vector3)
        requires
            self.bounded(),
        ensures
            r@ == self@.neg(),
            r.wf(),
    {
        Vector3 { x: -self.x, y: -self.y, z: -self.z, den: self.den }
    }

    /// The dot product of this vector and `other`.
    pub fn dot(&self, other: &Vector3) -> (r: Scalar)
        requires
            self.bounded(),
            other.bounded(),
        ensures
            r@ == self@.dot(other@),
            r.wf(),
    {
        proof {
            lemma_mul_bound(self.x as int, other.x as int, LIM as int, LIM as int);
            lemma_mul_bound(self.y as int, other.y as int, LIM as int, LIM as int);
            lemma_mul_bound(self.z as int, other.z as int, LIM as int, LIM as int);
            lemma_mul_bound(self.den as int, other.den as int, LIM as int, LIM as int);
            lemma_mul_pos(self.den as int, other.den as int);
        }
        Scalar {
            n: self.x * other.x + self.y * other.y + self.z * other.z,
            d: self.den * other.den,
        }
    }

    /// The cross product of this vector and `other`.
    pub fn cross(&self, other: &Vector3) -> (r: Vector3)
        requires
            self.bounded(),
            other.bounded(),
        ensures
            r@ == self@.cross(other@),
            r.wf(),
    {
        proof {
            lemma_mul_bound(self.y as int, other.z as int, LIM as int, LIM as int);
            lemma_mul_bound(self.z as int, other.y as int, LIM as int, LIM as int);
            lemma_mul_bound(self.z as int, other.x as int, LIM as int, LIM as int);
            lemma_mul_bound(self.x as int, other.z as int, LIM as int, LIM as int);
            lemma_mul_bound(self.x as int, other.y as int, LIM as int, LIM as int);
            lemma_mul_bound(self.y as int, other.x as int, LIM as int, LIM as int);
            lemma_mul_bound(self.den as int, other.den as int, LIM as int, LIM as int);
            lemma_mul_pos(self.den as int, other.den as int);
        }
        Vector3 {
            x: self.y * other.z - self.z * other.y,
            y: self.z * other.x - self.x * other.z,
            z: self.x * other.y - self.y * other.x,
            den: self.den * other.den,
        }
    }

    /// The projection of this vector onto `other`, under the assumption
    /// that `other` has unit length.
    pub fn project(&self, other: &Vector3) -> (r: Vector3)
        requires
            self.bounded(),
            other.bounded(),
        ensures
            r@ == other@.scale(self@.dot(other@)),
            r.wf(),
    {
        proof {
            lemma_mul_bound(self.x as int, other.x as int, LIM as int, LIM as int);
            lemma_mul_bound(self.y as int, other.y as int, LIM as int, LIM as int);
            lemma_mul_bound(self.z as int, other.z as int, LIM as int, LIM as int);
            lemma_mul_bound(self.den as int, other.den as int, LIM as int, LIM as int);
            lemma_mul_pos(self.den as int, other.den as int);
        }
        let dn = self.x * other.x + self.y * other.y + self.z * other.z;
        let dd = self.den * other.den;
        proof {
            lemma_mul_bound(other.x as int, dn as int, LIM as int, 3 * LIM * LIM);
            lemma_mul_bound(other.y as int, dn as int, LIM as int, 3 * LIM * LIM);
            lemma_mul_bound(other.z as int, dn as int, LIM as int, 3 * LIM * LIM);
            lemma_mul_bound(other.den as int, dd as int, LIM as int, LIM * LIM);
            lemma_mul_pos(other.den as int, dd as int);
        }
        Vector3 { x: other.x * dn, y: other.y * dn, z: other.z * dn, den: other.den * dd }
    }

    /// The rejection of this vector from `other` (what projection leaves),
    /// under the assumption that `other` has unit length.
    pub fn reject(&self, other: &Vector3) -> (r: Vector3)
        requires
            self.bounded(),
            other.bounded(),
        ensures
            r@ == self@.sub(other@.scale(self@.dot(other@))),
            r.wf(),
    {
        let p = self.project(other);
        proof {
            let l2: int = 3 * (LIM as int) * (LIM as int);
            let l3: int = 3 * (LIM as int) * (LIM as int) * (LIM as int);
            let dn = self@.x * other@.x + self@.y * other@.y + self@.z * other@.z;
            lemma_mul_bound(self@.x, other@.x, LIM as int, LIM as int);
            lemma_mul_bound(self@.y, other@.y, LIM as int, LIM as int);
            lemma_mul_bound(self@.z, other@.z, LIM as int, LIM as int);
            lemma_mul_bound(other@.x, dn, LIM as int, l2);
            lemma_mul_bound(other@.y, dn, LIM as int, l2);
            lemma_mul_bound(other@.z, dn, LIM as int, l2);
            lemma_mul_bound(self@.d, other@.d, LIM as int, LIM as int);
            lemma_mul_bound(other@.d, self@.d * other@.d, LIM as int, (LIM as int) * (LIM as int));
            lemma_mul_bound(self.x as int, p.den as int, LIM as int, l3);
            lemma_mul_bound(self.y as int, p.den as int, LIM as int, l3);
            lemma_mul_bound(self.z as int, p.den as int, LIM as int, l3);
            lemma_mul_bound(p.x as int, self.den as int, l3, LIM as int);
            lemma_mul_bound(p.y as int, self.den as int, l3, LIM as int);
            lemma_mul_bound(p.z as int, self.den as int, l3, LIM as int);
            lemma_mul_bound(self.den as int, p.den as int, LIM as int, l3);
            lemma_mul_pos(self.den as int, p.den as int);
        }
        Vector3 {
            x: self.x * p.den - p.x * self.den,
            y: self.y * p.den - p.y * self.den,
            z: self.z * p.den - p.z * self.den,
            den: self.den * p.den,
        }
    }

    /// The reflection of this vector through the plane perpendicular to the
    /// unit vector `other`: the projection is removed twice.
    pub fn reflect(&self, other: &Vector3) -> (r: Vector3)
        requires
            self.bounded(),
            other.bounded(),
        ensures
            r@ == self@.sub(other@.scale(self@.dot(other@)).scale(Rat::from_int(2))),
            r.wf(),
    {
        let p = self.project(other);
        proof {
            let l2: int = 3 * (LIM as int) * (LIM as int);
            let l3: int = 3 * (LIM as int) * (LIM as int) * (LIM as int);
            let l32: int = 6 * (LIM as int) * (LIM as int) * (LIM as int);
            let dn = self@.x * other@.x + self@.y * other@.y + self@.z * other@.z;
            lemma_mul_bound(self@.x, other@.x, LIM as int, LIM as int);
            lemma_mul_bound(self@.y, other@.y, LIM as int, LIM as int);
            lemma_mul_bound(self@.z, other@.z, LIM as int, LIM as int);
            lemma_mul_bound(other@.x, dn, LIM as int, l2);
            lemma_mul_bound(other@.y, dn, LIM as int, l2);
            lemma_mul_bound(other@.z, dn, LIM as int, l2);
            lemma_mul_bound(self@.d, other@.d, LIM as int, LIM as int);
            lemma_mul_bound(other@.d, self@.d * other@.d, LIM as int, (LIM as int) * (LIM as int));
            lemma_mul_bound(p.x as int, 2, l3, 2);
            lemma_mul_bound(p.y as int, 2, l3, 2);
            lemma_mul_bound(p.z as int, 2, l3, 2);
            lemma_mul_bound(self.x as int, p.den as int, LIM as int, l3);
            lemma_mul_bound(self.y as int, p.den as int, LIM as int, l3);
            lemma_mul_bound(self.z as int, p.den as int, LIM as int, l3);
            lemma_mul_bound(p.x as int * 2, self.den as int, l32, LIM as int);
            lemma_mul_bound(p.y as int * 2, self.den as int, l32, LIM as int);
            lemma_mul_bound(p.z as int * 2, self.den as int, l32, LIM as int);
            lemma_mul_bound(self.den as int, p.den as int, LIM as int, l3);
            lemma_mul_pos(self.den as int, p.den as int);
        }
        Vector3 {
            x: self.x * p.den - (p.x * 2) * self.den,
            y: self.y * p.den - (p.y * 2) * self.den,
            z: self.z * p.den - (p.z * 2) * self.den,
            den: self.den * p.den,
        }
    }

    /// The length of this vector, when that length is itself a rational
    /// number; `None` exactly when the squared numerator length has no
    /// integer square root.
    pub fn magnitude(&self) -> (r: Option<Scalar>)
        requires
            self.bounded(),
        ensures
            match r {
                Some(s) => {
                    &&& s@.n >= 0
                    &&& s@.n * s@.n == self@.x * self@.x + self@.y * self@.y + self@.z * self@.z
                    &&& s@.d == self@.d
                },
                None => forall|k: int| #[trigger] (k * k) != self@.x * self@.x + self@.y * self@.y
                    + self@.z * self@.z,
            },
    {
        proof {
            lemma_mul_bound(self.x as int, self.x as int, LIM as int, LIM as int);
            lemma_mul_bound(self.y as int, self.y as int, LIM as int, LIM as int);
            lemma_mul_bound(self.z as int, self.z as int, LIM as int, LIM as int);
            lemma_mul_bound(self.x as int, self.x as int, LIM as int, LIM as int);
        }
        let s2 = self.x * self.x + self.y * self.y + self.z * self.z;
        proof {
            assert(self.x as int * self.x >= 0 && self.y as int * self.y >= 0 && self.z as int
                * self.z >= 0) by (nonlinear_arith);
        }
        let root = isqrt(s2);
        if root * root == s2 {
            Some(Scalar { n: root, d: self.den })
        } else {
            proof {
                assert forall|k: int| #[trigger] (k * k) != s2 as int by {
                    if k * k == s2 as int {
                        if k >= 0 {
                            crate::scalar::lemma_sqrt_unique_below(k, root as int, s2 as int);
                        } else {
                            assert(k * k == (-k) * (-k)) by (nonlinear_arith);
                            crate::scalar::lemma_sqrt_unique_below(-k, root as int, s2 as int);
                        }
                    }
                }
            }
            None
        }
    }

    /// This vector scaled to unit length, when its length is rational;
    /// `None` exactly when the squared numerator length has no integer
    /// square root or the vector is zero.
    pub fn normalize(&self) -> (r: Option<Vector3>)
        requires
            self.bounded(),
        ensures
            match r {
                Some(u) => {
                    &&& u@.x == self@.x
                    &&& u@.y == self@.y
                    &&& u@.z == self@.z
                    &&& u@.d > 0
                    &&& u@.d * u@.d == self@.x * self@.x + self@.y * self@.y + self@.z * self@.z
                },
                None => (self@.x == 0 && self@.y == 0 && self@.z == 0) || forall|k: int|
                    #[trigger] (k * k) != self@.x * self@.x + self@.y * self@.y + self@.z
                    * self@.z,
            },
    {
        let m = self.magnitude();
        match m {
            Some(s) => {
                if s.n > 0 {
                    let u = Vector3 { x: self.x, y: self.y, z: self.z, den: s.n };
                    proof {
                        assert((s.n as int) * (s.n as int) == self@.x * self@.x + self@.y * self@.y
                            + self@.z * self@.z);
                    }
                    Some(u)
                } else {
                    proof {
                        assert(s@.n == 0 ==> s@.n * s@.n == 0) by (nonlinear_arith);
                        assert(self.x as int * self.x >= 0 && self.y as int * self.y >= 0
                            && self.z as int * self.z >= 0) by (nonlinear_arith);
                        assert(self.x as int * self.x == 0 ==> self.x as int == 0)
                            by (nonlinear_arith);
                        assert(self.y as int * self.y == 0 ==> self.y as int == 0)
                            by (nonlinear_arith);
                        assert(self.z as int * self.z == 0 ==> self.z as int == 0)
                            by (nonlinear_arith);
                        assert(self@.x == 0 && self@.y == 0 && self@.z == 0);
                    }
                    None
                }
            },
            None => None,
        }
    }

    /// Scales this vector in place to unit length when its length is
    /// rational, reporting whether it did; on `false` the vector is left
    /// unchanged.
    pub fn normalize_mut(&mut self) -> (ok: bool)
        requires
            old(self).bounded(),
        ensures
            ok <==> ((old(self)@.x != 0 || old(self)@.y != 0 || old(self)@.z != 0) && exists|
                k: int,
            |
                #[trigger] (k * k) == old(self)@.x * old(self)@.x + old(self)@.y * old(self)@.y
                    + old(self)@.z * old(self)@.z),
            ok ==> {
                &&& final(self)@.x == old(self)@.x
                &&& final(self)@.y == old(self)@.y
                &&& final(self)@.z == old(self)@.z
                &&& final(self)@.d > 0
                &&& final(self)@.d * final(self)@.d == old(self)@.x * old(self)@.x + old(
                    self,
                )@.y * old(self)@.y + old(self)@.z * old(self)@.z
            },
            !ok ==> *final(self) == *old(self),
    {
        let u = self.normalize();
        match u {
            Some(v) => {
                proof {
                    let ox = old(self)@.x;
                    let oy = old(self)@.y;
                    let oz = old(self)@.z;
                    assert(v@.d >= 1 ==> v@.d * v@.d >= 1) by (nonlinear_arith);
                    assert(ox == 0 ==> ox * ox == 0) by (nonlinear_arith);
                    assert(oy == 0 ==> oy * oy == 0) by (nonlinear_arith);
                    assert(oz == 0 ==> oz * oz == 0) by (nonlinear_arith);
                }
                *self = v;
                true
            },
            None => false,
        }
    }

    /// The position with the same coordinates.
    pub fn to_point(&self) -> (r: Point3)
        ensures
            r@ == self@,
    {
        Point3 { x: self.x, y: self.y, z: self.z, den: self.den }
    }

    pub fn add_assign(&mut self, o: &Vector3)
        requires
            old(self).bounded(),
            o.bounded(),
        ensures
            final(self)@ == old(self)@.add(o@),
            final(self).wf(),
    {
        *self = self.add(o);
    }

    pub fn sub_assign(&mut self, o: &Vector3)
        requires
            old(self).bounded(),
            o.bounded(),
        ensures
            final(self)@ == old(self)@.sub(o@),
            final(self).wf(),
    {
        *self = self.sub(o);
    }

    /// Component-wise product, in place.
    pub fn mul_assign(&mut self, o: &Vector3)
        requires
            old(self).bounded(),
            o.bounded(),
        ensures
            final(self)@ == old(self)@.cmul(o@),
            final(self).wf(),
    {
        *self = self.mul(o);
    }

    pub fn mul_assign_scalar(&mut self, s: &Scalar)
        requires
            old(self).bounded(),
            s.bounded(),
        ensures
            final(self)@ == old(self)@.scale(s@),
            final(self).wf(),
    {
        *self = self.mul_scalar(s);
    }

    pub fn div_assign(&mut self, s: &Scalar)
        requires
            old(self).bounded(),
            s.bounded(),
            s@.n != 0,
        ensures
            final(self)@ == old(self)@.div(s@),
            final(self).wf(),
    {
        *self = self.div(s);
    }
}

} // verus!
