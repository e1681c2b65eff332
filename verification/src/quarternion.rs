use vstd::prelude::*;

use crate::matrix3::{Matrix3, M3};
use crate::scalar::{lemma_mul_bound, lemma_mul_pos, isqrt, Scalar, LIM};
use crate::vector3::{Vector3, V3};

verus! {

/// The mathematical value of a quaternion `x i + y j + z k + w`: integer
/// numerators over the common positive denominator `d`.
pub ghost struct Q4 {
    pub x: int,
    pub y: int,
    pub z: int,
    pub w: int,
    pub d: int,
}

impl Q4 {
    pub open spec fn wf(self) -> bool {
        self.d > 0
    }

    pub open spec fn bounded(self) -> bool {
        &&& -LIM <= self.x <= LIM
        &&& -LIM <= self.y <= LIM
        &&& -LIM <= self.z <= LIM
        &&& -LIM <= self.w <= LIM
        &&& 0 < self.d <= LIM
    }

    /// Unit norm: the represented quaternion has length one.
    pub open spec fn unit(self) -> bool {
        self.x * self.x + self.y * self.y + self.z * self.z + self.w * self.w == self.d * self.d
    }

    pub open spec fn eq_rat(self, o: Q4) -> bool {
        &&& self.x * o.d == o.x * self.d
        &&& self.y * o.d == o.y * self.d
        &&& self.z * o.d == o.z * self.d
        &&& self.w * o.d == o.w * self.d
    }

    pub open spec fn neg(self) -> Q4 {
        Q4 { x: -self.x, y: -self.y, z: -self.z, w: -self.w, d: self.d }
    }

    /// The Hamilton product; not commutative. Composition order matches
    /// matrix composition order.
    pub open spec fn mul(self, o: Q4) -> Q4 {
        Q4 {
            x: self.w * o.x + self.x * o.w + self.y * o.z - self.z * o.y,
            y: self.w * o.y - self.x * o.z + self.y * o.w + self.z * o.x,
            z: self.w * o.z + self.x * o.y - self.y * o.x + self.z * o.w,
            w: self.w * o.w - self.x * o.x - self.y * o.y - self.z * o.z,
            d: self.d * o.d,
        }
    }

    /// The rotation matrix of a unit quaternion, in the standard quadratic
    /// form.
    pub open spec fn rot(self) -> M3 {
        let x2 = self.x * self.x;
        let y2 = self.y * self.y;
        let z2 = self.z * self.z;
        let xy = self.x * self.y;
        let xz = self.x * self.z;
        let yz = self.y * self.z;
        let wx = self.w * self.x;
        let wy = self.w * self.y;
        let wz = self.w * self.z;
        let dd = self.d * self.d;
        M3 {
            e00: dd - 2 * (y2 + z2),
            e01: 2 * (xy - wz),
            e02: 2 * (xz + wy),
            e10: 2 * (xy + wz),
            e11: dd - 2 * (x2 + z2),
            e12: 2 * (yz - wx),
            e20: 2 * (xz - wy),
            e21: 2 * (yz + wx),
            e22: dd - 2 * (x2 + y2),
            d: dd,
        }
    }

    /// The image of the direction `v` under this quaternion's rotation,
    /// computed without building the matrix.
    pub open spec fn transform(self, v: V3) -> V3 {
        let b2 = self.x * self.x + self.y * self.y + self.z * self.z;
        let dotn = v.x * self.x + v.y * self.y + v.z * self.z;
        V3 {
            x: v.x * (self.w * self.w - b2) + self.x * (2 * dotn) + (self.y * v.z - self.z * v.y)
                * (2 * self.w),
            y: v.y * (self.w * self.w - b2) + self.y * (2 * dotn) + (self.z * v.x - self.x * v.z)
                * (2 * self.w),
            z: v.z * (self.w * self.w - b2) + self.z * (2 * dotn) + (self.x * v.y - self.y * v.x)
                * (2 * self.w),
            d: (self.d * self.d) * v.d,
        }
    }

    /// The quantity whose square root Shepperd's method takes, picked by
    /// the branch on the diagonal of `m`.
    pub open spec fn shepperd_s(m: M3) -> int {
        if m.e00 + m.e11 + m.e22 > 0 {
            (m.e00 + m.e11 + m.e22 + m.d) * m.d
        } else if m.e00 > m.e11 && m.e00 > m.e22 {
            (m.e00 - m.e11 - m.e22 + m.d) * m.d
        } else if m.e11 > m.e22 {
            (m.e11 - m.e00 - m.e22 + m.d) * m.d
        } else {
            (m.e22 - m.e00 - m.e11 + m.d) * m.d
        }
    }

    /// The quaternion Shepperd's method builds from `m` once the square
    /// root `s` of `shepperd_s(m)` is known.
    pub open spec fn shepperd_q(m: M3, s: int) -> Q4 {
        if m.e00 + m.e11 + m.e22 > 0 {
            Q4 {
                x: (m.e21 - m.e12) * m.d,
                y: (m.e02 - m.e20) * m.d,
                z: (m.e10 - m.e01) * m.d,
                w: (m.e00 + m.e11 + m.e22 + m.d) * m.d,
                d: 2 * (s * m.d),
            }
        } else if m.e00 > m.e11 && m.e00 > m.e22 {
            Q4 {
                x: (m.e00 - m.e11 - m.e22 + m.d) * m.d,
                y: (m.e10 + m.e01) * m.d,
                z: (m.e02 + m.e20) * m.d,
                w: (m.e21 - m.e12) * m.d,
                d: 2 * (s * m.d),
            }
        } else if m.e11 > m.e22 {
            Q4 {
                x: (m.e10 + m.e01) * m.d,
                y: (m.e11 - m.e00 - m.e22 + m.d) * m.d,
                z: (m.e21 + m.e12) * m.d,
                w: (m.e02 - m.e20) * m.d,
                d: 2 * (s * m.d),
            }
        } else {
            Q4 {
                x: (m.e02 + m.e20) * m.d,
                y: (m.e21 + m.e12) * m.d,
                z: (m.e22 - m.e00 - m.e11 + m.d) * m.d,
                w: (m.e10 - m.e01) * m.d,
                d: 2 * (s * m.d),
            }
        }
    }
}

/// A Hamilton quaternion `x i + y j + z k + w`: exact rational components
/// held as integer numerators over the positive denominator `den`. For
/// rotation use the represented value should have unit norm; the type does
/// not enforce it.
#[derive(Clone, Copy, Debug, PartialEq, Eq, Structural)]
pub struct Quarternion {
    /// Numerator of the x coordinate of the vector part.
    pub x: i128,
    /// Numerator of the y coordinate of the vector part.
    pub y: i128,
    /// Numerator of the z coordinate of the vector part.
    pub z: i128,
    /// Numerator of the scalar part.
    pub w: i128,
    /// Common denominator of the four components; always positive.
    pub den: i128,
}

impl View for Quarternion {
    type V = Q4;

    open spec fn view(&self) -> Q4 {
        Q4 {
            x: self.x as int,
            y: self.y as int,
            z: self.z as int,
            w: self.w as int,
            d: self.den as int,
        }
    }
}

impl Quarternion {
    pub open spec fn wf(self) -> bool {
        self@.wf()
    }

    pub open spec fn bounded(self) -> bool {
        self@.bounded()
    }

    /// The quaternion of four whole components.
    pub fn new(x: i128, y: i128, z: i128, w: i128) -> (r: Quarternion)
        ensures
            r@ == (Q4 { x: x as int, y: y as int, z: z as int, w: w as int, d: 1 }),
    {
        Quarternion { x, y, z, w, den: 1 }
    }

    /// The quaternion `(x, y, z, w) / den`.
    pub fn new_scaled(x: i128, y: i128, z: i128, w: i128, den: i128) -> (r: Quarternion)
        requires
            den > 0,
        ensures
            r@ == (Q4 { x: x as int, y: y as int, z: z as int, w: w as int, d: den as int }),
    {
        Quarternion { x, y, z, w, den }
    }

    /// The quaternion whose vector part is `a` and whose scalar part is
    /// `s`, brought to a common denominator.
    pub fn new_with_vec_and_scalar(a: &Vector3, s: &Scalar) -> (r: Quarternion)
        requires
            a.bounded(),
            s.bounded(),
        ensures
            r@ == (Q4 {
                x: a@.x * s@.d,
                y: a@.y * s@.d,
                z: a@.z * s@.d,
                w: s@.n * a@.d,
                d: a@.d * s@.d,
            }),
            r.wf(),
    {
        proof {
            lemma_mul_bound(a@.x, s@.d, LIM as int, LIM as int);
            lemma_mul_bound(a@.y, s@.d, LIM as int, LIM as int);
            lemma_mul_bound(a@.z, s@.d, LIM as int, LIM as int);
            lemma_mul_bound(s@.n, a@.d, LIM as int, LIM as int);
            lemma_mul_bound(a@.d, s@.d, LIM as int, LIM as int);
            lemma_mul_pos(a@.d, s@.d);
        }
        Quarternion {
            x: a.x * s.d,
            y: a.y * s.d,
            z: a.z * s.d,
            w: s.n * a.den,
            den: a.den * s.d,
        }
    }

    /// The pure-vector quaternion with vector part `a` and scalar part
    /// zero.
    pub fn new_with_vec(a: &Vector3) -> (r: Quarternion)
        ensures
            r@ == (Q4 { x: a@.x, y: a@.y, z: a@.z, w: 0, d: a@.d }),
    {
        Quarternion { x: a.x, y: a.y, z: a.z, w: 0, den: a.den }
    }

    /// The scalar quaternion with vector part zero.
    pub fn new_with_scalar(s: &Scalar) -> (r: Quarternion)
        ensures
            r@ == (Q4 { x: 0, y: 0, z: 0, w: s@.n, d: s@.d }),
    {
        Quarternion { x: 0, y: 0, z: 0, w: s.n, den: s.d }
    }

    /// The vector part of the quaternion.
    pub fn get_vector_part(&self) -> (r: Vector3)
        ensures
            r@ == (V3 { x: self@.x, y: self@.y, z: self@.z, d: self@.d }),
    {
        Vector3 { x: self.x, y: self.y, z: self.z, den: self.den }
    }

    /// The Hamilton product of this quaternion and `rhs`, in this order;
    /// not commutative.
    pub fn mul(&self, rhs: &Quarternion) -> (r: Quarternion)
        requires
            self.bounded(),
            rhs.bounded(),
        ensures
            r@ == self@.mul(rhs@),
            r.wf(),
    {
        proof {
            lemma_mul_bound(self@.w, rhs@.x, LIM as int, LIM as int);
            lemma_mul_bound(self@.x, rhs@.w, LIM as int, LIM as int);
            lemma_mul_bound(self@.y, rhs@.z, LIM as int, LIM as int);
            lemma_mul_bound(self@.z, rhs@.y, LIM as int, LIM as int);
            lemma_mul_bound(self@.w, rhs@.y, LIM as int, LIM as int);
            lemma_mul_bound(self@.x, rhs@.z, LIM as int, LIM as int);
            lemma_mul_bound(self@.y, rhs@.w, LIM as int, LIM as int);
            lemma_mul_bound(self@.z, rhs@.x, LIM as int, LIM as int);
            lemma_mul_bound(self@.w, rhs@.z, LIM as int, LIM as int);
            lemma_mul_bound(self@.x, rhs@.y, LIM as int, LIM as int);
            lemma_mul_bound(self@.y, rhs@.x, LIM as int, LIM as int);
            lemma_mul_bound(self@.z, rhs@.w, LIM as int, LIM as int);
            lemma_mul_bound(self@.w, rhs@.w, LIM as int, LIM as int);
            lemma_mul_bound(self@.x, rhs@.x, LIM as int, LIM as int);
            lemma_mul_bound(self@.y, rhs@.y, LIM as int, LIM as int);
            lemma_mul_bound(self@.z, rhs@.z, LIM as int, LIM as int);
            lemma_mul_bound(self@.d, rhs@.d, LIM as int, LIM as int);
            lemma_mul_pos(self@.d, rhs@.d);
        }
        Quarternion {
            x: self.w * rhs.x + self.x * rhs.w + self.y * rhs.z - self.z * rhs.y,
            y: self.w * rhs.y - self.x * rhs.z + self.y * rhs.w + self.z * rhs.x,
            z: self.w * rhs.z + self.x * rhs.y - self.y * rhs.x + self.z * rhs.w,
            w: self.w * rhs.w - self.x * rhs.x - self.y * rhs.y - self.z * rhs.z,
            den: self.den * rhs.den,
        }
    }

    /// Replaces this quaternion with the Hamilton product of it and `rhs`,
    /// in this order.
    pub fn mul_assign(&mut self, rhs: &Quarternion)
        requires
            old(self).bounded(),
            rhs.bounded(),
        ensures
            final(self)@ == old(self)@.mul(rhs@),
            final(self).wf(),
    {
        *self = self.mul(rhs);
    }

    /// The rotation matrix of this quaternion, assumed to have unit norm.
    pub fn get_rotation_matrix(&self) -> (r: Matrix3)
        requires
            self.bounded(),
        ensures
            r@ == self@.rot(),
            r.wf(),
    {
        proof {
            lemma_mul_bound(self@.x, self@.x, LIM as int, LIM as int);
            lemma_mul_bound(self@.y, self@.y, LIM as int, LIM as int);
            lemma_mul_bound(self@.z, self@.z, LIM as int, LIM as int);
            lemma_mul_bound(self@.x, self@.y, LIM as int, LIM as int);
            lemma_mul_bound(self@.x, self@.z, LIM as int, LIM as int);
            lemma_mul_bound(self@.y, self@.z, LIM as int, LIM as int);
            lemma_mul_bound(self@.w, self@.x, LIM as int, LIM as int);
            lemma_mul_bound(self@.w, self@.y, LIM as int, LIM as int);
            lemma_mul_bound(self@.w, self@.z, LIM as int, LIM as int);
            lemma_mul_bound(self@.d, self@.d, LIM as int, LIM as int);
            lemma_mul_pos(self@.d, self@.d);
        }
        let x2 = self.x * self.x;
        let y2 = self.y * self.y;
        let z2 = self.z * self.z;
        let xy = self.x * self.y;
        let xz = self.x * self.z;
        let yz = self.y * self.z;
        let wx = self.w * self.x;
        let wy = self.w * self.y;
        let wz = self.w * self.z;
        let dd = self.den * self.den;
        Matrix3 {
            n00: dd - 2 * (y2 + z2),
            n01: 2 * (xy - wz),
            n02: 2 * (xz + wy),
            n10: 2 * (xy + wz),
            n11: dd - 2 * (x2 + z2),
            n12: 2 * (yz - wx),
            n20: 2 * (xz - wy),
            n21: 2 * (yz + wx),
            n22: dd - 2 * (x2 + y2),
            den: dd,
        }
    }

    /// Sets this quaternion to represent the same rotation as the matrix
    /// `m`, by Shepperd's method: the branch follows the largest diagonal
    /// quantity, so the quantity under the square root is positive for
    /// every input and the conversion never fails. The root is the integer
    /// square root, taken exactly when the quantity is a perfect square --
    /// which holds for every matrix built from a rational unit quaternion,
    /// as `shepperd_q` then reproduces that quaternion -- and rounded down
    /// otherwise, giving the stated-precision approximation of the unit
    /// quaternion.
    pub fn set_rotation_matrix(&mut self, m: &Matrix3)
        requires
            m.bounded(),
        ensures
            Q4::shepperd_s(m@) > 0,
            exists|k: int|
                {
                    &&& k >= 1
                    &&& #[trigger] (k * k) <= Q4::shepperd_s(m@)
                    &&& Q4::shepperd_s(m@) < (k + 1) * (k + 1)
                    &&& final(self)@ == Q4::shepperd_q(m@, k)
                },
            final(self).wf(),
    {
        proof {
            lemma_mul_bound(m@.e00 + m@.e11 + m@.e22 + m@.d, m@.d, 4 * (LIM as int), LIM as int);
            lemma_mul_bound(m@.e00 - m@.e11 - m@.e22 + m@.d, m@.d, 4 * (LIM as int), LIM as int);
            lemma_mul_bound(m@.e11 - m@.e00 - m@.e22 + m@.d, m@.d, 4 * (LIM as int), LIM as int);
            lemma_mul_bound(m@.e22 - m@.e00 - m@.e11 + m@.d, m@.d, 4 * (LIM as int), LIM as int);
            lemma_mul_bound(m@.e21 - m@.e12, m@.d, 2 * (LIM as int), LIM as int);
            lemma_mul_bound(m@.e02 - m@.e20, m@.d, 2 * (LIM as int), LIM as int);
            lemma_mul_bound(m@.e10 - m@.e01, m@.d, 2 * (LIM as int), LIM as int);
            lemma_mul_bound(m@.e10 + m@.e01, m@.d, 2 * (LIM as int), LIM as int);
            lemma_mul_bound(m@.e02 + m@.e20, m@.d, 2 * (LIM as int), LIM as int);
            lemma_mul_bound(m@.e21 + m@.e12, m@.d, 2 * (LIM as int), LIM as int);
        }
        let tr = m.n00 + m.n11 + m.n22;
        // whichever branch fires, its quantity is positive: were it not,
        // the branch guards and the trace sign would contradict each other
        let big: i128;
        if tr > 0 {
            proof {
                lemma_mul_pos(m@.e00 + m@.e11 + m@.e22 + m@.d, m@.d);
            }
            big = (tr + m.den) * m.den;
        } else if m.n00 > m.n11 && m.n00 > m.n22 {
            proof {
                lemma_mul_pos(m@.e00 - m@.e11 - m@.e22 + m@.d, m@.d);
            }
            big = (m.n00 - m.n11 - m.n22 + m.den) * m.den;
        } else if m.n11 > m.n22 {
            proof {
                lemma_mul_pos(m@.e11 - m@.e00 - m@.e22 + m@.d, m@.d);
            }
            big = (m.n11 - m.n00 - m.n22 + m.den) * m.den;
        } else {
            proof {
                lemma_mul_pos(m@.e22 - m@.e00 - m@.e11 + m@.d, m@.d);
            }
            big = (m.n22 - m.n00 - m.n11 + m.den) * m.den;
        }
        proof {
            assert((4 * (LIM as int)) * (LIM as int) <= crate::scalar::SQRT_LIM)
                by (nonlinear_arith);
        }
        let s = isqrt(big);
        proof {
            assert(s as int >= 1) by {
                if s as int == 0 {
                    assert((s as int + 1) * (s as int + 1) == 1) by (nonlinear_arith)
                        requires
                            s as int == 0,
                    ;
                }
            }
            assert(s as int <= 0x80000000) by (nonlinear_arith)
                requires
                    s as int >= 0,
                    (s as int) * (s as int) <= 0x4000000000000000,
            ;
            lemma_mul_bound(s as int, m@.d, 0x80000000, LIM as int);
            lemma_mul_pos(s as int, m@.d);
        }
        let nd = 2 * (s * m.den);
        if tr > 0 {
            *self = Quarternion {
                x: (m.n21 - m.n12) * m.den,
                y: (m.n02 - m.n20) * m.den,
                z: (m.n10 - m.n01) * m.den,
                w: (m.n00 + m.n11 + m.n22 + m.den) * m.den,
                den: nd,
            };
        } else if m.n00 > m.n11 && m.n00 > m.n22 {
            *self = Quarternion {
                x: (m.n00 - m.n11 - m.n22 + m.den) * m.den,
                y: (m.n10 + m.n01) * m.den,
                z: (m.n02 + m.n20) * m.den,
                w: (m.n21 - m.n12) * m.den,
                den: nd,
            };
        } else if m.n11 > m.n22 {
            *self = Quarternion {
                x: (m.n10 + m.n01) * m.den,
                y: (m.n11 - m.n00 - m.n22 + m.den) * m.den,
                z: (m.n21 + m.n12) * m.den,
                w: (m.n02 - m.n20) * m.den,
                den: nd,
            };
        } else {
            *self = Quarternion {
                x: (m.n02 + m.n20) * m.den,
                y: (m.n21 + m.n12) * m.den,
                z: (m.n22 - m.n00 - m.n11 + m.den) * m.den,
                w: (m.n10 - m.n01) * m.den,
                den: nd,
            };
        }
        proof {
            assert((s as int) * (s as int) <= Q4::shepperd_s(m@));
            assert(Q4::shepperd_s(m@) < (s as int + 1) * (s as int + 1));
        }
    }

    /// The image of the direction `v` under this quaternion's rotation,
    /// computed directly from the components without building the matrix.
    pub fn transform(&self, v: &Vector3) -> (r: Vector3)
        requires
            self.bounded(),
            v.bounded(),
        ensures
            r@ == self@.transform(v@),
            r.wf(),
    {
        proof {
            let l1: int = LIM as int;
            let l2: int = (LIM as int) * (LIM as int);
            let l3: int = (LIM as int) * (LIM as int) * (LIM as int);
            lemma_mul_bound(self@.x, self@.x, l1, l1);
            lemma_mul_bound(self@.y, self@.y, l1, l1);
            lemma_mul_bound(self@.z, self@.z, l1, l1);
            lemma_mul_bound(self@.w, self@.w, l1, l1);
            lemma_mul_bound(v@.x, self@.x, l1, l1);
            lemma_mul_bound(v@.y, self@.y, l1, l1);
            lemma_mul_bound(v@.z, self@.z, l1, l1);
            lemma_mul_bound(v@.x, self@.w * self@.w - (self@.x * self@.x + self@.y * self@.y
                + self@.z * self@.z), l1, 4 * l2);
            lemma_mul_bound(v@.y, self@.w * self@.w - (self@.x * self@.x + self@.y * self@.y
                + self@.z * self@.z), l1, 4 * l2);
            lemma_mul_bound(v@.z, self@.w * self@.w - (self@.x * self@.x + self@.y * self@.y
                + self@.z * self@.z), l1, 4 * l2);
            lemma_mul_bound(self@.x, 2 * (v@.x * self@.x + v@.y * self@.y + v@.z * self@.z), l1, 6
                * l2);
            lemma_mul_bound(self@.y, 2 * (v@.x * self@.x + v@.y * self@.y + v@.z * self@.z), l1, 6
                * l2);
            lemma_mul_bound(self@.z, 2 * (v@.x * self@.x + v@.y * self@.y + v@.z * self@.z), l1, 6
                * l2);
            lemma_mul_bound(self@.y, v@.z, l1, l1);
            lemma_mul_bound(self@.z, v@.y, l1, l1);
            lemma_mul_bound(self@.z, v@.x, l1, l1);
            lemma_mul_bound(self@.x, v@.z, l1, l1);
            lemma_mul_bound(self@.x, v@.y, l1, l1);
            lemma_mul_bound(self@.y, v@.x, l1, l1);
            lemma_mul_bound(self@.y * v@.z - self@.z * v@.y, 2 * self@.w, 2 * l2, 2 * l1);
            lemma_mul_bound(self@.z * v@.x - self@.x * v@.z, 2 * self@.w, 2 * l2, 2 * l1);
            lemma_mul_bound(self@.x * v@.y - self@.y * v@.x, 2 * self@.w, 2 * l2, 2 * l1);
            lemma_mul_bound(self@.d, self@.d, l1, l1);
            lemma_mul_bound(self@.d * self@.d, v@.d, l2, l1);
            lemma_mul_pos(self@.d, self@.d);
            lemma_mul_pos(self@.d * self@.d, v@.d);
        }
        let b2 = self.x * self.x + self.y * self.y + self.z * self.z;
        let dotn = v.x * self.x + v.y * self.y + v.z * self.z;
        Vector3 {
            x: v.x * (self.w * self.w - b2) + self.x * (2 * dotn) + (self.y * v.z - self.z * v.y)
                * (2 * self.w),
            y: v.y * (self.w * self.w - b2) + self.y * (2 * dotn) + (self.z * v.x - self.x * v.z)
                * (2 * self.w),
            z: v.z * (self.w * self.w - b2) + self.z * (2 * dotn) + (self.x * v.y - self.y * v.x)
                * (2 * self.w),
            den: (self.den * self.den) * v.den,
        }
    }
}

/// One component of the agreement between the direct quaternion transform
/// and the rotation matrix applied to the same vector; a plain ring
/// identity, with the squared norm written out.
proof fn lemma_transform_comp(x: int, y: int, z: int, w: int, vx: int, vy: int, vz: int)
    ensures
        vx * (w * w - (x * x + y * y + z * z)) + x * (2 * (vx * x + vy * y + vz * z)) + (y * vz - z
            * vy) * (2 * w) == ((x * x + y * y + z * z + w * w) - 2 * (y * y + z * z)) * vx + 2 * (
        x * y - w * z) * vy + 2 * (x * z + w * y) * vz,
{
    broadcast use vstd::arithmetic::mul::group_mul_is_commutative_and_distributive;
    broadcast use vstd::arithmetic::mul::lemma_mul_is_associative;
}

/// The second component of the same agreement.
proof fn lemma_transform_comp_y(x: int, y: int, z: int, w: int, vx: int, vy: int, vz: int)
    ensures
        vy * (w * w - (x * x + y * y + z * z)) + y * (2 * (vx * x + vy * y + vz * z)) + (z * vx - x
            * vz) * (2 * w) == 2 * (x * y + w * z) * vx + ((x * x + y * y + z * z + w * w) - 2 * (
        x * x + z * z)) * vy + 2 * (y * z - w * x) * vz,
{
    broadcast use vstd::arithmetic::mul::group_mul_is_commutative_and_distributive;
    broadcast use vstd::arithmetic::mul::lemma_mul_is_associative;
}

/// The third component of the same agreement.
proof fn lemma_transform_comp_z(x: int, y: int, z: int, w: int, vx: int, vy: int, vz: int)
    ensures
        vz * (w * w - (x * x + y * y + z * z)) + z * (2 * (vx * x + vy * y + vz * z)) + (x * vy - y
            * vx) * (2 * w) == 2 * (x * z - w * y) * vx + 2 * (y * z + w * x) * vy + ((x * x + y
            * y + z * z + w * w) - 2 * (x * x + y * y)) * vz,
{
    broadcast use vstd::arithmetic::mul::group_mul_is_commutative_and_distributive;
    broadcast use vstd::arithmetic::mul::lemma_mul_is_associative;
}

/// A unit quaternion applied through `transform` agrees, component for
/// component, with its rotation matrix applied to the same vector.
pub proof fn lemma_transform_matches_matrix(q: Q4, v: V3)
    requires
        q.unit(),
    ensures
        q.transform(v) == q.rot().mul_vec(v),
{
    lemma_transform_comp(q.x, q.y, q.z, q.w, v.x, v.y, v.z);
    lemma_transform_comp_y(q.x, q.y, q.z, q.w, v.x, v.y, v.z);
    lemma_transform_comp_z(q.x, q.y, q.z, q.w, v.x, v.y, v.z);
}

/// A quaternion and its negation represent the same rotation: every entry
/// of the rotation matrix is quadratic in the components.
pub proof fn lemma_rot_negation(q: Q4)
    ensures
        q.neg().rot() == q.rot(),
{
    broadcast use vstd::arithmetic::mul::group_mul_is_commutative_and_distributive;

}

/// One vector component of the trace-branch round trip: the matrix entry
/// difference, scaled by Shepperd's factors, reproduces the component.
proof fn lemma_round_trip_comp(c: int, o: int, w: int, d: int)
    by (nonlinear_arith)
    ensures
        ((2 * (o + w * c) - 2 * (o - w * c)) * (d * d)) * d == c * (2 * ((2 * (w * d)) * (d
            * d))),
{
}

/// The scalar component of the trace-branch round trip.
proof fn lemma_round_trip_scalar(w: int, d: int)
    by (nonlinear_arith)
    ensures
        ((4 * (w * w)) * (d * d)) * d == w * (2 * ((2 * (w * d)) * (d * d))),
{
}

/// The branch quantity of the trace branch is a perfect square.
proof fn lemma_round_trip_square(w: int, d: int)
    by (nonlinear_arith)
    ensures
        (4 * (w * w)) * (d * d) == (2 * (w * d)) * (2 * (w * d)),
{
}

/// The exact round trip on the scalar-dominant branch: for a unit
/// quaternion whose scalar part is positive and dominant (the rotation
/// angle is under a half turn), the rotation matrix has positive trace,
/// Shepperd's quantity is the perfect square of twice the scalar part
/// times the denominator, and the quaternion Shepperd's method rebuilds
/// from the matrix is the original one. Together with `lemma_rot_negation`
/// this covers both signs of the scalar part on this branch.
pub proof fn lemma_round_trip_trace_branch(q: Q4)
    requires
        q.wf(),
        q.unit(),
        4 * (q.w * q.w) > q.d * q.d,
        q.w > 0,
    ensures
        q.rot().e00 + q.rot().e11 + q.rot().e22 > 0,
        Q4::shepperd_s(q.rot()) == (2 * (q.w * q.d)) * (2 * (q.w * q.d)),
        Q4::shepperd_q(q.rot(), 2 * (q.w * q.d)).eq_rat(q),
{
    let m = q.rot();
    assert((m.e00 + m.e11 + m.e22) + m.d == 4 * (q.w * q.w));
    lemma_round_trip_square(q.w, q.d);
    lemma_mul_pos(q.w, q.d);
    lemma_mul_pos(q.d, q.d);
    lemma_mul_pos(2 * (q.w * q.d), q.d * q.d);
    lemma_round_trip_comp(q.x, q.y * q.z, q.w, q.d);
    lemma_round_trip_comp(q.y, q.x * q.z, q.w, q.d);
    lemma_round_trip_comp(q.z, q.x * q.y, q.w, q.d);
    lemma_round_trip_scalar(q.w, q.d);
}

/// One paired-sum component of the vector-dominant round trips.
proof fn lemma_round_trip_sum(a: int, b: int, p: int, d: int)
    by (nonlinear_arith)
    ensures
        ((2 * (a * b + p) + 2 * (a * b - p)) * (d * d)) * d == b * (2 * ((2 * (a * d)) * (d
            * d))),
{
}

/// The scalar component of the vector-dominant round trips.
proof fn lemma_round_trip_wcomp(a: int, o: int, w: int, d: int)
    by (nonlinear_arith)
    ensures
        ((2 * (o + w * a) - 2 * (o - w * a)) * (d * d)) * d == w * (2 * ((2 * (a * d)) * (d
            * d))),
{
}

/// The exact round trip on the x-dominant branch: for a unit quaternion
/// with nonpositive trace and a positive dominant x component, Shepperd's
/// quantity is the perfect square of twice that component times the
/// denominator, and the rebuilt quaternion is the original one.
pub proof fn lemma_round_trip_x_branch(q: Q4)
    requires
        q.wf(),
        q.unit(),
        4 * (q.w * q.w) <= q.d * q.d,
        q.x * q.x > q.y * q.y,
        q.x * q.x > q.z * q.z,
        q.x > 0,
    ensures
        Q4::shepperd_s(q.rot()) == (2 * (q.x * q.d)) * (2 * (q.x * q.d)),
        Q4::shepperd_q(q.rot(), 2 * (q.x * q.d)).eq_rat(q),
{
    let m = q.rot();
    assert((m.e00 - m.e11 - m.e22) + m.d == 4 * (q.x * q.x));
    lemma_round_trip_square(q.x, q.d);
    lemma_mul_pos(q.x, q.d);
    lemma_mul_pos(q.d, q.d);
    lemma_mul_pos(2 * (q.x * q.d), q.d * q.d);
    lemma_round_trip_scalar(q.x, q.d);
    lemma_round_trip_sum(q.x, q.y, q.w * q.z, q.d);
    lemma_round_trip_sum(q.x, q.z, q.w * q.y, q.d);
    lemma_round_trip_wcomp(q.x, q.y * q.z, q.w, q.d);
}

/// The exact round trip on the y-dominant branch.
#[verifier::rlimit(50)]
pub proof fn lemma_round_trip_y_branch(q: Q4)
    requires
        q.wf(),
        q.unit(),
        4 * (q.w * q.w) <= q.d * q.d,
        q.y * q.y >= q.x * q.x,
        q.y * q.y > q.z * q.z,
        q.y > 0,
    ensures
        Q4::shepperd_s(q.rot()) == (2 * (q.y * q.d)) * (2 * (q.y * q.d)),
        Q4::shepperd_q(q.rot(), 2 * (q.y * q.d)).eq_rat(q),
{
    let m = q.rot();
    assert((m.e11 - m.e00 - m.e22) + m.d == 4 * (q.y * q.y));
    lemma_round_trip_square(q.y, q.d);
    lemma_mul_pos(q.y, q.d);
    lemma_mul_pos(q.d, q.d);
    lemma_mul_pos(2 * (q.y * q.d), q.d * q.d);
    lemma_round_trip_scalar(q.y, q.d);
    lemma_round_trip_sum(q.y, q.x, q.w * q.z, q.d);
    lemma_round_trip_sum(q.y, q.z, q.w * q.x, q.d);
    lemma_round_trip_wcomp(q.y, q.x * q.z, q.w, q.d);
}

/// The exact round trip on the z-dominant branch.
#[verifier::rlimit(50)]
pub proof fn lemma_round_trip_z_branch(q: Q4)
    requires
        q.wf(),
        q.unit(),
        4 * (q.w * q.w) <= q.d * q.d,
        q.z * q.z >= q.x * q.x,
        q.z * q.z >= q.y * q.y,
        q.z > 0,
    ensures
        Q4::shepperd_s(q.rot()) == (2 * (q.z * q.d)) * (2 * (q.z * q.d)),
        Q4::shepperd_q(q.rot(), 2 * (q.z * q.d)).eq_rat(q),
{
    let m = q.rot();
    assert((m.e22 - m.e00 - m.e11) + m.d == 4 * (q.z * q.z));
    lemma_round_trip_square(q.z, q.d);
    lemma_mul_pos(q.z, q.d);
    lemma_mul_pos(q.d, q.d);
    lemma_mul_pos(2 * (q.z * q.d), q.d * q.d);
    lemma_round_trip_scalar(q.z, q.d);
    lemma_round_trip_sum(q.z, q.x, q.w * q.y, q.d);
    lemma_round_trip_sum(q.z, q.y, q.w * q.x, q.d);
    lemma_round_trip_wcomp(q.z, q.x * q.y, q.w, q.d);
}

} // verus!
