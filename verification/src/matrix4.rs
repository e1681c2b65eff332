use vstd::prelude::*;

use crate::point3::Point3;
use crate::scalar::{lemma_mul_bound, lemma_mul_pos, Rat, Scalar, LIM};
use crate::vector3::{Vector3, V3};
use crate::vector4::{Vector4, V4};

verus! {

/// The mathematical value of a 4x4 matrix: integer numerators `eij` (the
/// entry in row `i` and column `j`) over the common positive denominator
/// `d`.
pub ghost struct M4 {
    pub e00: int,
    pub e01: int,
    pub e02: int,
    pub e03: int,
    pub e10: int,
    pub e11: int,
    pub e12: int,
    pub e13: int,
    pub e20: int,
    pub e21: int,
    pub e22: int,
    pub e23: int,
    pub e30: int,
    pub e31: int,
    pub e32: int,
    pub e33: int,
    pub d: int,
}

impl M4 {
    pub open spec fn wf(self) -> bool {
        self.d > 0
    }

    pub open spec fn bounded(self) -> bool {
        &&& -LIM <= self.e00 <= LIM
        &&& -LIM <= self.e01 <= LIM
        &&& -LIM <= self.e02 <= LIM
        &&& -LIM <= self.e03 <= LIM
        &&& -LIM <= self.e10 <= LIM
        &&& -LIM <= self.e11 <= LIM
        &&& -LIM <= self.e12 <= LIM
        &&& -LIM <= self.e13 <= LIM
        &&& -LIM <= self.e20 <= LIM
        &&& -LIM <= self.e21 <= LIM
        &&& -LIM <= self.e22 <= LIM
        &&& -LIM <= self.e23 <= LIM
        &&& -LIM <= self.e30 <= LIM
        &&& -LIM <= self.e31 <= LIM
        &&& -LIM <= self.e32 <= LIM
        &&& -LIM <= self.e33 <= LIM
        &&& 0 < self.d <= LIM
    }

    /// Equality of the represented matrices, entry by entry.
    pub open spec fn eq_rat(self, o: M4) -> bool {
        &&& self.e00 * o.d == o.e00 * self.d
        &&& self.e01 * o.d == o.e01 * self.d
        &&& self.e02 * o.d == o.e02 * self.d
        &&& self.e03 * o.d == o.e03 * self.d
        &&& self.e10 * o.d == o.e10 * self.d
        &&& self.e11 * o.d == o.e11 * self.d
        &&& self.e12 * o.d == o.e12 * self.d
        &&& self.e13 * o.d == o.e13 * self.d
        &&& self.e20 * o.d == o.e20 * self.d
        &&& self.e21 * o.d == o.e21 * self.d
        &&& self.e22 * o.d == o.e22 * self.d
        &&& self.e23 * o.d == o.e23 * self.d
        &&& self.e30 * o.d == o.e30 * self.d
        &&& self.e31 * o.d == o.e31 * self.d
        &&& self.e32 * o.d == o.e32 * self.d
        &&& self.e33 * o.d == o.e33 * self.d
    }

    pub open spec fn identity() -> M4 {
        M4 {
            e00: 1,
            e01: 0,
            e02: 0,
            e03: 0,
            e10: 0,
            e11: 1,
            e12: 0,
            e13: 0,
            e20: 0,
            e21: 0,
            e22: 1,
            e23: 0,
            e30: 0,
            e31: 0,
            e32: 0,
            e33: 1,
            d: 1,
        }
    }

    /// Column `j` as a four component vector.
    pub open spec fn col(self, j: int) -> V4 {
        V4 {
            x: if j == 0 { self.e00 } else if j == 1 { self.e01 } else if j == 2 { self.e02 } else { self.e03 },
            y: if j == 0 { self.e10 } else if j == 1 { self.e11 } else if j == 2 { self.e12 } else { self.e13 },
            z: if j == 0 { self.e20 } else if j == 1 { self.e21 } else if j == 2 { self.e22 } else { self.e23 },
            w: if j == 0 { self.e30 } else if j == 1 { self.e31 } else if j == 2 { self.e32 } else { self.e33 },
            d: self.d,
        }
    }

    pub open spec fn transpose(self) -> M4 {
        M4 {
            e00: self.e00,
            e01: self.e10,
            e02: self.e20,
            e03: self.e30,
            e10: self.e01,
            e11: self.e11,
            e12: self.e21,
            e13: self.e31,
            e20: self.e02,
            e21: self.e12,
            e22: self.e22,
            e23: self.e32,
            e30: self.e03,
            e31: self.e13,
            e32: self.e23,
            e33: self.e33,
            d: self.d,
        }
    }

    /// Matrix product; rows of `self` against columns of `o`.
    pub open spec fn mul(self, o: M4) -> M4 {
        M4 {
            e00: self.e00 * o.e00 + self.e01 * o.e10 + self.e02 * o.e20 + self.e03 * o.e30,
            e01: self.e00 * o.e01 + self.e01 * o.e11 + self.e02 * o.e21 + self.e03 * o.e31,
            e02: self.e00 * o.e02 + self.e01 * o.e12 + self.e02 * o.e22 + self.e03 * o.e32,
            e03: self.e00 * o.e03 + self.e01 * o.e13 + self.e02 * o.e23 + self.e03 * o.e33,
            e10: self.e10 * o.e00 + self.e11 * o.e10 + self.e12 * o.e20 + self.e13 * o.e30,
            e11: self.e10 * o.e01 + self.e11 * o.e11 + self.e12 * o.e21 + self.e13 * o.e31,
            e12: self.e10 * o.e02 + self.e11 * o.e12 + self.e12 * o.e22 + self.e13 * o.e32,
            e13: self.e10 * o.e03 + self.e11 * o.e13 + self.e12 * o.e23 + self.e13 * o.e33,
            e20: self.e20 * o.e00 + self.e21 * o.e10 + self.e22 * o.e20 + self.e23 * o.e30,
            e21: self.e20 * o.e01 + self.e21 * o.e11 + self.e22 * o.e21 + self.e23 * o.e31,
            e22: self.e20 * o.e02 + self.e21 * o.e12 + self.e22 * o.e22 + self.e23 * o.e32,
            e23: self.e20 * o.e03 + self.e21 * o.e13 + self.e22 * o.e23 + self.e23 * o.e33,
            e30: self.e30 * o.e00 + self.e31 * o.e10 + self.e32 * o.e20 + self.e33 * o.e30,
            e31: self.e30 * o.e01 + self.e31 * o.e11 + self.e32 * o.e21 + self.e33 * o.e31,
            e32: self.e30 * o.e02 + self.e31 * o.e12 + self.e32 * o.e22 + self.e33 * o.e32,
            e33: self.e30 * o.e03 + self.e31 * o.e13 + self.e32 * o.e23 + self.e33 * o.e33,
            d: self.d * o.d,
        }
    }

    pub open spec fn scale(self, s: Rat) -> M4 {
        M4 {
            e00: self.e00 * s.n,
            e01: self.e01 * s.n,
            e02: self.e02 * s.n,
            e03: self.e03 * s.n,
            e10: self.e10 * s.n,
            e11: self.e11 * s.n,
            e12: self.e12 * s.n,
            e13: self.e13 * s.n,
            e20: self.e20 * s.n,
            e21: self.e21 * s.n,
            e22: self.e22 * s.n,
            e23: self.e23 * s.n,
            e30: self.e30 * s.n,
            e31: self.e31 * s.n,
            e32: self.e32 * s.n,
            e33: self.e33 * s.n,
            d: self.d * s.d,
        }
    }

    /// The integer determinant of the numerators, by the two-by-two block
    /// decomposition: the cross products `s` and `t` of the upper column
    /// pairs against the mixed blocks `u` and `v` of the bottom row.
    pub open spec fn det_num(self) -> int {
        let sx = self.e10 * self.e21 - self.e20 * self.e11;
        let sy = self.e20 * self.e01 - self.e00 * self.e21;
        let sz = self.e00 * self.e11 - self.e10 * self.e01;
        let tx = self.e12 * self.e23 - self.e22 * self.e13;
        let ty = self.e22 * self.e03 - self.e02 * self.e23;
        let tz = self.e02 * self.e13 - self.e12 * self.e03;
        let ux = self.e00 * self.e31 - self.e01 * self.e30;
        let uy = self.e10 * self.e31 - self.e11 * self.e30;
        let uz = self.e20 * self.e31 - self.e21 * self.e30;
        let vx = self.e02 * self.e33 - self.e03 * self.e32;
        let vy = self.e12 * self.e33 - self.e13 * self.e32;
        let vz = self.e22 * self.e33 - self.e23 * self.e32;
        let det = (sx * vx + sy * vy + sz * vz) + (tx * ux + ty * uy + tz * uz);
        (sx * vx + sy * vy + sz * vz) + (tx * ux + ty * uy + tz * uz)
    }

    /// The determinant of the represented matrix.
    pub open spec fn det_rat(self) -> Rat {
        Rat { n: self.det_num(), d: ((self.d * self.d) * self.d) * self.d }
    }

    /// The inverse of the represented matrix, by the two-by-two block
    /// decomposition with cross products; the sign is arranged so the
    /// resulting denominator is positive. Meaningful only when the
    /// determinant is not zero.
    pub open spec fn inverse(self) -> M4 {
        let sx = self.e10 * self.e21 - self.e20 * self.e11;
        let sy = self.e20 * self.e01 - self.e00 * self.e21;
        let sz = self.e00 * self.e11 - self.e10 * self.e01;
        let tx = self.e12 * self.e23 - self.e22 * self.e13;
        let ty = self.e22 * self.e03 - self.e02 * self.e23;
        let tz = self.e02 * self.e13 - self.e12 * self.e03;
        let ux = self.e00 * self.e31 - self.e01 * self.e30;
        let uy = self.e10 * self.e31 - self.e11 * self.e30;
        let uz = self.e20 * self.e31 - self.e21 * self.e30;
        let vx = self.e02 * self.e33 - self.e03 * self.e32;
        let vy = self.e12 * self.e33 - self.e13 * self.e32;
        let vz = self.e22 * self.e33 - self.e23 * self.e32;
        let det = (sx * vx + sy * vy + sz * vz) + (tx * ux + ty * uy + tz * uz);
        let r0x = (self.e11 * vz - self.e21 * vy) + tx * self.e31;
        let r0y = (self.e21 * vx - self.e01 * vz) + ty * self.e31;
        let r0z = (self.e01 * vy - self.e11 * vx) + tz * self.e31;
        let r1x = (vy * self.e20 - vz * self.e10) - tx * self.e30;
        let r1y = (vz * self.e00 - vx * self.e20) - ty * self.e30;
        let r1z = (vx * self.e10 - vy * self.e00) - tz * self.e30;
        let r2x = (self.e13 * uz - self.e23 * uy) + sx * self.e33;
        let r2y = (self.e23 * ux - self.e03 * uz) + sy * self.e33;
        let r2z = (self.e03 * uy - self.e13 * ux) + sz * self.e33;
        let r3x = (uy * self.e22 - uz * self.e12) - sx * self.e32;
        let r3y = (uz * self.e02 - ux * self.e22) - sy * self.e32;
        let r3z = (ux * self.e12 - uy * self.e02) - sz * self.e32;
        let c0 = -(self.e01 * tx + self.e11 * ty + self.e21 * tz);
        let c1 = self.e00 * tx + self.e10 * ty + self.e20 * tz;
        let c2 = -(self.e03 * sx + self.e13 * sy + self.e23 * sz);
        let c3 = self.e02 * sx + self.e12 * sy + self.e22 * sz;
        if det >= 0 {
            M4 {
                e00: self.d * r0x,
                e01: self.d * r0y,
                e02: self.d * r0z,
                e03: self.d * c0,
                e10: self.d * r1x,
                e11: self.d * r1y,
                e12: self.d * r1z,
                e13: self.d * c1,
                e20: self.d * r2x,
                e21: self.d * r2y,
                e22: self.d * r2z,
                e23: self.d * c2,
                e30: self.d * r3x,
                e31: self.d * r3y,
                e32: self.d * r3z,
                e33: self.d * c3,
                d: det,
            }
        } else {
            M4 {
                e00: -(self.d * r0x),
                e01: -(self.d * r0y),
                e02: -(self.d * r0z),
                e03: -(self.d * c0),
                e10: -(self.d * r1x),
                e11: -(self.d * r1y),
                e12: -(self.d * r1z),
                e13: -(self.d * c1),
                e20: -(self.d * r2x),
                e21: -(self.d * r2y),
                e22: -(self.d * r2z),
                e23: -(self.d * c2),
                e30: -(self.d * r3x),
                e31: -(self.d * r3y),
                e32: -(self.d * r3z),
                e33: -(self.d * c3),
                d: -det,
            }
        }
    }
}

/// A 4x4 matrix: exact rational entries held as integer numerators over
/// the positive denominator `den`. The field `nij` is the numerator of the
/// entry in row `i` and column `j`.
#[derive(Clone, Copy, Debug, PartialEq, Eq, Structural)]
pub struct Matrix4 {
    pub n00: i128,
    pub n01: i128,
    pub n02: i128,
    pub n03: i128,
    pub n10: i128,
    pub n11: i128,
    pub n12: i128,
    pub n13: i128,
    pub n20: i128,
    pub n21: i128,
    pub n22: i128,
    pub n23: i128,
    pub n30: i128,
    pub n31: i128,
    pub n32: i128,
    pub n33: i128,
    /// Common denominator of the sixteen entries; always positive.
    pub den: i128,
}

impl View for Matrix4 {
    type V = M4;

    open spec fn view(&self) -> M4 {
        M4 {
            e00: self.n00 as int,
            e01: self.n01 as int,
            e02: self.n02 as int,
            e03: self.n03 as int,
            e10: self.n10 as int,
            e11: self.n11 as int,
            e12: self.n12 as int,
            e13: self.n13 as int,
            e20: self.n20 as int,
            e21: self.n21 as int,
            e22: self.n22 as int,
            e23: self.n23 as int,
            e30: self.n30 as int,
            e31: self.n31 as int,
            e32: self.n32 as int,
            e33: self.n33 as int,
            d: self.den as int,
        }
    }
}

impl Matrix4 {
    pub open spec fn wf(self) -> bool {
        self@.wf()
    }

    pub open spec fn bounded(self) -> bool {
        self@.bounded()
    }

    /// The matrix of sixteen whole entries, given row by row.
    pub fn new(
        a: i128, b: i128, c: i128, d: i128,
        e: i128, f: i128, g: i128, h: i128,
        i: i128, j: i128, k: i128, l: i128,
        m: i128, n: i128, o: i128, p: i128,
    ) -> (r: Matrix4)
        ensures
            r@ == (M4 {
                e00: a as int, e01: b as int, e02: c as int, e03: d as int,
                e10: e as int, e11: f as int, e12: g as int, e13: h as int,
                e20: i as int, e21: j as int, e22: k as int, e23: l as int,
                e30: m as int, e31: n as int, e32: o as int, e33: p as int,
                d: 1,
            }),
    {
        Matrix4 {
            n00: a, n01: b, n02: c, n03: d,
            n10: e, n11: f, n12: g, n13: h,
            n20: i, n21: j, n22: k, n23: l,
            n30: m, n31: n, n32: o, n33: p,
            den: 1,
        }
    }

    /// The matrix of sixteen numerators, row by row, over the common
    /// denominator `den`.
    pub fn new_scaled(
        a: i128, b: i128, c: i128, d: i128,
        e: i128, f: i128, g: i128, h: i128,
        i: i128, j: i128, k: i128, l: i128,
        m: i128, n: i128, o: i128, p: i128,
        den: i128,
    ) -> (r: Matrix4)
        requires
            den > 0,
        ensures
            r@ == (M4 {
                e00: a as int, e01: b as int, e02: c as int, e03: d as int,
                e10: e as int, e11: f as int, e12: g as int, e13: h as int,
                e20: i as int, e21: j as int, e22: k as int, e23: l as int,
                e30: m as int, e31: n as int, e32: o as int, e33: p as int,
                d: den as int,
            }),
    {
        Matrix4 {
            n00: a, n01: b, n02: c, n03: d,
            n10: e, n11: f, n12: g, n13: h,
            n20: i, n21: j, n22: k, n23: l,
            n30: m, n31: n, n32: o, n33: p,
            den,
        }
    }

    /// Column `i` of the matrix.
    pub fn vec_at(&self, i: usize) -> (r: Vector4)
        requires
            i < 4,
        ensures
            r@ == self@.col(i as int),
    {
        if i == 0 {
            Vector4 { x: self.n00, y: self.n10, z: self.n20, w: self.n30, den: self.den }
        } else if i == 1 {
            Vector4 { x: self.n01, y: self.n11, z: self.n21, w: self.n31, den: self.den }
        } else if i == 2 {
            Vector4 { x: self.n02, y: self.n12, z: self.n22, w: self.n32, den: self.den }
        } else {
            Vector4 { x: self.n03, y: self.n13, z: self.n23, w: self.n33, den: self.den }
        }
    }

    /// The first three components of column `i`.
    pub fn vec3_at(&self, i: usize) -> (r: Vector3)
        requires
            i < 4,
        ensures
            r@ == (V3 {
                x: self@.col(i as int).x,
                y: self@.col(i as int).y,
                z: self@.col(i as int).z,
                d: self@.d,
            }),
    {
        let c = self.vec_at(i);
        Vector3 { x: c.x, y: c.y, z: c.z, den: c.den }
    }

    /// The entry in row `i` and column `j`.
    pub fn at(&self, i: usize, j: usize) -> (r: Scalar)
        requires
            i < 4,
            j < 4,
        ensures
            r@ == (Rat { n: self@.col(j as int).idx(i as int), d: self@.d }),
    {
        let c = self.vec_at(j);
        if i == 0 {
            Scalar { n: c.x, d: self.den }
        } else if i == 1 {
            Scalar { n: c.y, d: self.den }
        } else if i == 2 {
            Scalar { n: c.z, d: self.den }
        } else {
            Scalar { n: c.w, d: self.den }
        }
    }

    /// The identity matrix.
    pub fn identity() -> (r: Matrix4)
        ensures
            r@ == M4::identity(),
    {
        Matrix4 {
            n00: 1,
            n01: 0,
            n02: 0,
            n03: 0,
            n10: 0,
            n11: 1,
            n12: 0,
            n13: 0,
            n20: 0,
            n21: 0,
            n22: 1,
            n23: 0,
            n30: 0,
            n31: 0,
            n32: 0,
            n33: 1,
            den: 1,
        }
    }

    /// The transpose.
    pub fn transpose(&self) -> (r: Matrix4)
        ensures
            r@ == self@.transpose(),
    {
        Matrix4 {
            n00: self.n00,
            n01: self.n10,
            n02: self.n20,
            n03: self.n30,
            n10: self.n01,
            n11: self.n11,
            n12: self.n21,
            n13: self.n31,
            n20: self.n02,
            n21: self.n12,
            n22: self.n22,
            n23: self.n32,
            n30: self.n03,
            n31: self.n13,
            n32: self.n23,
            n33: self.n33,
            den: self.den,
        }
    }

    /// The matrix product of this matrix and `o`, in this order.
    pub fn mul(&self, o: &Matrix4) -> (r: Matrix4)
        requires
            self.bounded(),
            o.bounded(),
        ensures
            r@ == self@.mul(o@),
            r.wf(),
    {
        proof {
            lemma_mul_bound(self@.e00, o@.e00, LIM as int, LIM as int);
            lemma_mul_bound(self@.e01, o@.e10, LIM as int, LIM as int);
            lemma_mul_bound(self@.e02, o@.e20, LIM as int, LIM as int);
            lemma_mul_bound(self@.e03, o@.e30, LIM as int, LIM as int);
            lemma_mul_bound(self@.e00, o@.e01, LIM as int, LIM as int);
            lemma_mul_bound(self@.e01, o@.e11, LIM as int, LIM as int);
            lemma_mul_bound(self@.e02, o@.e21, LIM as int, LIM as int);
            lemma_mul_bound(self@.e03, o@.e31, LIM as int, LIM as int);
            lemma_mul_bound(self@.e00, o@.e02, LIM as int, LIM as int);
            lemma_mul_bound(self@.e01, o@.e12, LIM as int, LIM as int);
            lemma_mul_bound(self@.e02, o@.e22, LIM as int, LIM as int);
            lemma_mul_bound(self@.e03, o@.e32, LIM as int, LIM as int);
            lemma_mul_bound(self@.e00, o@.e03, LIM as int, LIM as int);
            lemma_mul_bound(self@.e01, o@.e13, LIM as int, LIM as int);
            lemma_mul_bound(self@.e02, o@.e23, LIM as int, LIM as int);
            lemma_mul_bound(self@.e03, o@.e33, LIM as int, LIM as int);
            lemma_mul_bound(self@.e10, o@.e00, LIM as int, LIM as int);
            lemma_mul_bound(self@.e11, o@.e10, LIM as int, LIM as int);
            lemma_mul_bound(self@.e12, o@.e20, LIM as int, LIM as int);
            lemma_mul_bound(self@.e13, o@.e30, LIM as int, LIM as int);
            lemma_mul_bound(self@.e10, o@.e01, LIM as int, LIM as int);
            lemma_mul_bound(self@.e11, o@.e11, LIM as int, LIM as int);
            lemma_mul_bound(self@.e12, o@.e21, LIM as int, LIM as int);
            lemma_mul_bound(self@.e13, o@.e31, LIM as int, LIM as int);
            lemma_mul_bound(self@.e10, o@.e02, LIM as int, LIM as int);
            lemma_mul_bound(self@.e11, o@.e12, LIM as int, LIM as int);
            lemma_mul_bound(self@.e12, o@.e22, LIM as int, LIM as int);
            lemma_mul_bound(self@.e13, o@.e32, LIM as int, LIM as int);
            lemma_mul_bound(self@.e10, o@.e03, LIM as int, LIM as int);
            lemma_mul_bound(self@.e11, o@.e13, LIM as int, LIM as int);
            lemma_mul_bound(self@.e12, o@.e23, LIM as int, LIM as int);
            lemma_mul_bound(self@.e13, o@.e33, LIM as int, LIM as int);
            lemma_mul_bound(self@.e20, o@.e00, LIM as int, LIM as int);
            lemma_mul_bound(self@.e21, o@.e10, LIM as int, LIM as int);
            lemma_mul_bound(self@.e22, o@.e20, LIM as int, LIM as int);
            lemma_mul_bound(self@.e23, o@.e30, LIM as int, LIM as int);
            lemma_mul_bound(self@.e20, o@.e01, LIM as int, LIM as int);
            lemma_mul_bound(self@.e21, o@.e11, LIM as int, LIM as int);
            lemma_mul_bound(self@.e22, o@.e21, LIM as int, LIM as int);
            lemma_mul_bound(self@.e23, o@.e31, LIM as int, LIM as int);
            lemma_mul_bound(self@.e20, o@.e02, LIM as int, LIM as int);
            lemma_mul_bound(self@.e21, o@.e12, LIM as int, LIM as int);
            lemma_mul_bound(self@.e22, o@.e22, LIM as int, LIM as int);
            lemma_mul_bound(self@.e23, o@.e32, LIM as int, LIM as int);
            lemma_mul_bound(self@.e20, o@.e03, LIM as int, LIM as int);
            lemma_mul_bound(self@.e21, o@.e13, LIM as int, LIM as int);
            lemma_mul_bound(self@.e22, o@.e23, LIM as int, LIM as int);
            lemma_mul_bound(self@.e23, o@.e33, LIM as int, LIM as int);
            lemma_mul_bound(self@.e30, o@.e00, LIM as int, LIM as int);
            lemma_mul_bound(self@.e31, o@.e10, LIM as int, LIM as int);
            lemma_mul_bound(self@.e32, o@.e20, LIM as int, LIM as int);
            lemma_mul_bound(self@.e33, o@.e30, LIM as int, LIM as int);
            lemma_mul_bound(self@.e30, o@.e01, LIM as int, LIM as int);
            lemma_mul_bound(self@.e31, o@.e11, LIM as int, LIM as int);
            lemma_mul_bound(self@.e32, o@.e21, LIM as int, LIM as int);
            lemma_mul_bound(self@.e33, o@.e31, LIM as int, LIM as int);
            lemma_mul_bound(self@.e30, o@.e02, LIM as int, LIM as int);
            lemma_mul_bound(self@.e31, o@.e12, LIM as int, LIM as int);
            lemma_mul_bound(self@.e32, o@.e22, LIM as int, LIM as int);
            lemma_mul_bound(self@.e33, o@.e32, LIM as int, LIM as int);
            lemma_mul_bound(self@.e30, o@.e03, LIM as int, LIM as int);
            lemma_mul_bound(self@.e31, o@.e13, LIM as int, LIM as int);
            lemma_mul_bound(self@.e32, o@.e23, LIM as int, LIM as int);
            lemma_mul_bound(self@.e33, o@.e33, LIM as int, LIM as int);
            lemma_mul_bound(self@.d, o@.d, LIM as int, LIM as int);
            lemma_mul_pos(self@.d, o@.d);
        }
        Matrix4 {
            n00: self.n00 * o.n00 + self.n01 * o.n10 + self.n02 * o.n20 + self.n03 * o.n30,
            n01: self.n00 * o.n01 + self.n01 * o.n11 + self.n02 * o.n21 + self.n03 * o.n31,
            n02: self.n00 * o.n02 + self.n01 * o.n12 + self.n02 * o.n22 + self.n03 * o.n32,
            n03: self.n00 * o.n03 + self.n01 * o.n13 + self.n02 * o.n23 + self.n03 * o.n33,
            n10: self.n10 * o.n00 + self.n11 * o.n10 + self.n12 * o.n20 + self.n13 * o.n30,
            n11: self.n10 * o.n01 + self.n11 * o.n11 + self.n12 * o.n21 + self.n13 * o.n31,
            n12: self.n10 * o.n02 + self.n11 * o.n12 + self.n12 * o.n22 + self.n13 * o.n32,
            n13: self.n10 * o.n03 + self.n11 * o.n13 + self.n12 * o.n23 + self.n13 * o.n33,
            n20: self.n20 * o.n00 + self.n21 * o.n10 + self.n22 * o.n20 + self.n23 * o.n30,
            n21: self.n20 * o.n01 + self.n21 * o.n11 + self.n22 * o.n21 + self.n23 * o.n31,
            n22: self.n20 * o.n02 + self.n21 * o.n12 + self.n22 * o.n22 + self.n23 * o.n32,
            n23: self.n20 * o.n03 + self.n21 * o.n13 + self.n22 * o.n23 + self.n23 * o.n33,
            n30: self.n30 * o.n00 + self.n31 * o.n10 + self.n32 * o.n20 + self.n33 * o.n30,
            n31: self.n30 * o.n01 + self.n31 * o.n11 + self.n32 * o.n21 + self.n33 * o.n31,
            n32: self.n30 * o.n02 + self.n31 * o.n12 + self.n32 * o.n22 + self.n33 * o.n32,
            n33: self.n30 * o.n03 + self.n31 * o.n13 + self.n32 * o.n23 + self.n33 * o.n33,
            den: self.den * o.den,
        }
    }

    /// Replaces this matrix with the product of it and `o`, in this order.
    pub fn mul_assign(&mut self, o: &Matrix4)
        requires
            old(self).bounded(),
            o.bounded(),
        ensures
            final(self)@ == old(self)@.mul(o@),
            final(self).wf(),
    {
        *self = self.mul(o);
    }

    /// Every entry multiplied by the scalar `s`.
    pub fn mul_scalar(&self, s: &Scalar) -> (r: Matrix4)
        requires
            self.bounded(),
            s.bounded(),
        ensures
            r@ == self@.scale(s@),
            r.wf(),
    {
        proof {
            lemma_mul_bound(self@.e00, s@.n, LIM as int, LIM as int);
            lemma_mul_bound(self@.e01, s@.n, LIM as int, LIM as int);
            lemma_mul_bound(self@.e02, s@.n, LIM as int, LIM as int);
            lemma_mul_bound(self@.e03, s@.n, LIM as int, LIM as int);
            lemma_mul_bound(self@.e10, s@.n, LIM as int, LIM as int);
            lemma_mul_bound(self@.e11, s@.n, LIM as int, LIM as int);
            lemma_mul_bound(self@.e12, s@.n, LIM as int, LIM as int);
            lemma_mul_bound(self@.e13, s@.n, LIM as int, LIM as int);
            lemma_mul_bound(self@.e20, s@.n, LIM as int, LIM as int);
            lemma_mul_bound(self@.e21, s@.n, LIM as int, LIM as int);
            lemma_mul_bound(self@.e22, s@.n, LIM as int, LIM as int);
            lemma_mul_bound(self@.e23, s@.n, LIM as int, LIM as int);
            lemma_mul_bound(self@.e30, s@.n, LIM as int, LIM as int);
            lemma_mul_bound(self@.e31, s@.n, LIM as int, LIM as int);
            lemma_mul_bound(self@.e32, s@.n, LIM as int, LIM as int);
            lemma_mul_bound(self@.e33, s@.n, LIM as int, LIM as int);
            lemma_mul_bound(self@.d, s@.d, LIM as int, LIM as int);
            lemma_mul_pos(self@.d, s@.d);
        }
        Matrix4 {
            n00: self.n00 * s.n,
            n01: self.n01 * s.n,
            n02: self.n02 * s.n,
            n03: self.n03 * s.n,
            n10: self.n10 * s.n,
            n11: self.n11 * s.n,
            n12: self.n12 * s.n,
            n13: self.n13 * s.n,
            n20: self.n20 * s.n,
            n21: self.n21 * s.n,
            n22: self.n22 * s.n,
            n23: self.n23 * s.n,
            n30: self.n30 * s.n,
            n31: self.n31 * s.n,
            n32: self.n32 * s.n,
            n33: self.n33 * s.n,
            den: self.den * s.d,
        }
    }

    /// Every entry divided by the scalar `s`.
    pub fn div(&self, s: &Scalar) -> (r: Matrix4)
        requires
            self.bounded(),
            s.bounded(),
            s@.n != 0,
        ensures
            r@ == self@.scale(s@.recip()),
            r.wf(),
    {
        let rec = if s.n >= 0 {
            Scalar { n: s.d, d: s.n }
        } else {
            Scalar { n: -s.d, d: -s.n }
        };
        self.mul_scalar(&rec)
    }

    /// Replaces this matrix with it divided by `s`.
    pub fn div_assign(&mut self, s: &Scalar)
        requires
            old(self).bounded(),
            s.bounded(),
            s@.n != 0,
        ensures
            final(self)@ == old(self)@.scale(s@.recip()),
            final(self).wf(),
    {
        *self = self.div(s);
    }

    /// This matrix applied to a direction with an implicit fourth
    /// coordinate of zero.
    pub fn mul_vector3(&self, v: &Vector3) -> (r: Vector4)
        requires
            self.bounded(),
            v.bounded(),
        ensures
            r@ == (V4 {
                x: self@.e00 * v@.x + self@.e01 * v@.y + self@.e02 * v@.z,
                y: self@.e10 * v@.x + self@.e11 * v@.y + self@.e12 * v@.z,
                z: self@.e20 * v@.x + self@.e21 * v@.y + self@.e22 * v@.z,
                w: self@.e30 * v@.x + self@.e31 * v@.y + self@.e32 * v@.z,
                d: self@.d * v@.d,
            }),
            r.wf(),
    {
        proof {
            lemma_mul_bound(self@.e00, v@.x, LIM as int, LIM as int);
            lemma_mul_bound(self@.e01, v@.y, LIM as int, LIM as int);
            lemma_mul_bound(self@.e02, v@.z, LIM as int, LIM as int);
            lemma_mul_bound(self@.e10, v@.x, LIM as int, LIM as int);
            lemma_mul_bound(self@.e11, v@.y, LIM as int, LIM as int);
            lemma_mul_bound(self@.e12, v@.z, LIM as int, LIM as int);
            lemma_mul_bound(self@.e20, v@.x, LIM as int, LIM as int);
            lemma_mul_bound(self@.e21, v@.y, LIM as int, LIM as int);
            lemma_mul_bound(self@.e22, v@.z, LIM as int, LIM as int);
            lemma_mul_bound(self@.e30, v@.x, LIM as int, LIM as int);
            lemma_mul_bound(self@.e31, v@.y, LIM as int, LIM as int);
            lemma_mul_bound(self@.e32, v@.z, LIM as int, LIM as int);
            lemma_mul_bound(self@.d, v@.d, LIM as int, LIM as int);
            lemma_mul_pos(self@.d, v@.d);
        }
        Vector4 {
            x: self.n00 * v.x + self.n01 * v.y + self.n02 * v.z,
            y: self.n10 * v.x + self.n11 * v.y + self.n12 * v.z,
            z: self.n20 * v.x + self.n21 * v.y + self.n22 * v.z,
            w: self.n30 * v.x + self.n31 * v.y + self.n32 * v.z,
            den: self.den * v.den,
        }
    }

    /// This matrix applied to a position with an implicit fourth
    /// coordinate of one.
    pub fn mul_point3(&self, p: &Point3) -> (r: Vector4)
        requires
            self.bounded(),
            p.bounded(),
        ensures
            r@ == (V4 {
                x: self@.e00 * p@.x + self@.e01 * p@.y + self@.e02 * p@.z + self@.e03 * p@.d,
                y: self@.e10 * p@.x + self@.e11 * p@.y + self@.e12 * p@.z + self@.e13 * p@.d,
                z: self@.e20 * p@.x + self@.e21 * p@.y + self@.e22 * p@.z + self@.e23 * p@.d,
                w: self@.e30 * p@.x + self@.e31 * p@.y + self@.e32 * p@.z + self@.e33 * p@.d,
                d: self@.d * p@.d,
            }),
            r.wf(),
    {
        proof {
            lemma_mul_bound(self@.e00, p@.x, LIM as int, LIM as int);
            lemma_mul_bound(self@.e01, p@.y, LIM as int, LIM as int);
            lemma_mul_bound(self@.e02, p@.z, LIM as int, LIM as int);
            lemma_mul_bound(self@.e03, p@.d, LIM as int, LIM as int);
            lemma_mul_bound(self@.e10, p@.x, LIM as int, LIM as int);
            lemma_mul_bound(self@.e11, p@.y, LIM as int, LIM as int);
            lemma_mul_bound(self@.e12, p@.z, LIM as int, LIM as int);
            lemma_mul_bound(self@.e13, p@.d, LIM as int, LIM as int);
            lemma_mul_bound(self@.e20, p@.x, LIM as int, LIM as int);
            lemma_mul_bound(self@.e21, p@.y, LIM as int, LIM as int);
            lemma_mul_bound(self@.e22, p@.z, LIM as int, LIM as int);
            lemma_mul_bound(self@.e23, p@.d, LIM as int, LIM as int);
            lemma_mul_bound(self@.e30, p@.x, LIM as int, LIM as int);
            lemma_mul_bound(self@.e31, p@.y, LIM as int, LIM as int);
            lemma_mul_bound(self@.e32, p@.z, LIM as int, LIM as int);
            lemma_mul_bound(self@.e33, p@.d, LIM as int, LIM as int);
            lemma_mul_bound(self@.d, p@.d, LIM as int, LIM as int);
            lemma_mul_pos(self@.d, p@.d);
        }
        Vector4 {
            x: self.n00 * p.x + self.n01 * p.y + self.n02 * p.z + self.n03 * p.den,
            y: self.n10 * p.x + self.n11 * p.y + self.n12 * p.z + self.n13 * p.den,
            z: self.n20 * p.x + self.n21 * p.y + self.n22 * p.z + self.n23 * p.den,
            w: self.n30 * p.x + self.n31 * p.y + self.n32 * p.z + self.n33 * p.den,
            den: self.den * p.den,
        }
    }

    /// The determinant, by the same two-by-two block decomposition the
    /// inverse uses.
    pub fn determinant(&self) -> (r: Scalar)
        requires
            self.bounded(),
        ensures
            r@ == self@.det_rat(),
            r.wf(),
    {
        proof {
            lemma_mul_bound(self@.e10, self@.e21, LIM as int, LIM as int);
            lemma_mul_bound(self@.e20, self@.e11, LIM as int, LIM as int);
            lemma_mul_bound(self@.e20, self@.e01, LIM as int, LIM as int);
            lemma_mul_bound(self@.e00, self@.e21, LIM as int, LIM as int);
            lemma_mul_bound(self@.e00, self@.e11, LIM as int, LIM as int);
            lemma_mul_bound(self@.e10, self@.e01, LIM as int, LIM as int);
            lemma_mul_bound(self@.e12, self@.e23, LIM as int, LIM as int);
            lemma_mul_bound(self@.e22, self@.e13, LIM as int, LIM as int);
            lemma_mul_bound(self@.e22, self@.e03, LIM as int, LIM as int);
            lemma_mul_bound(self@.e02, self@.e23, LIM as int, LIM as int);
            lemma_mul_bound(self@.e02, self@.e13, LIM as int, LIM as int);
            lemma_mul_bound(self@.e12, self@.e03, LIM as int, LIM as int);
            lemma_mul_bound(self@.e00, self@.e31, LIM as int, LIM as int);
            lemma_mul_bound(self@.e01, self@.e30, LIM as int, LIM as int);
            lemma_mul_bound(self@.e10, self@.e31, LIM as int, LIM as int);
            lemma_mul_bound(self@.e11, self@.e30, LIM as int, LIM as int);
            lemma_mul_bound(self@.e20, self@.e31, LIM as int, LIM as int);
            lemma_mul_bound(self@.e21, self@.e30, LIM as int, LIM as int);
            lemma_mul_bound(self@.e02, self@.e33, LIM as int, LIM as int);
            lemma_mul_bound(self@.e03, self@.e32, LIM as int, LIM as int);
            lemma_mul_bound(self@.e12, self@.e33, LIM as int, LIM as int);
            lemma_mul_bound(self@.e13, self@.e32, LIM as int, LIM as int);
            lemma_mul_bound(self@.e22, self@.e33, LIM as int, LIM as int);
            lemma_mul_bound(self@.e23, self@.e32, LIM as int, LIM as int);
        }
        let sx = self.n10 * self.n21 - self.n20 * self.n11;
        let sy = self.n20 * self.n01 - self.n00 * self.n21;
        let sz = self.n00 * self.n11 - self.n10 * self.n01;
        let tx = self.n12 * self.n23 - self.n22 * self.n13;
        let ty = self.n22 * self.n03 - self.n02 * self.n23;
        let tz = self.n02 * self.n13 - self.n12 * self.n03;
        let ux = self.n00 * self.n31 - self.n01 * self.n30;
        let uy = self.n10 * self.n31 - self.n11 * self.n30;
        let uz = self.n20 * self.n31 - self.n21 * self.n30;
        let vx = self.n02 * self.n33 - self.n03 * self.n32;
        let vy = self.n12 * self.n33 - self.n13 * self.n32;
        let vz = self.n22 * self.n33 - self.n23 * self.n32;
        proof {
            lemma_mul_bound(sx as int, vx as int, 144115188075855872, 144115188075855872);
            lemma_mul_bound(sy as int, vy as int, 144115188075855872, 144115188075855872);
            lemma_mul_bound(sz as int, vz as int, 144115188075855872, 144115188075855872);
            lemma_mul_bound(tx as int, ux as int, 144115188075855872, 144115188075855872);
            lemma_mul_bound(ty as int, uy as int, 144115188075855872, 144115188075855872);
            lemma_mul_bound(tz as int, uz as int, 144115188075855872, 144115188075855872);
            lemma_mul_bound(self@.d, self@.d, LIM as int, LIM as int);
            lemma_mul_bound(self@.d * self@.d, self@.d, 72057594037927936, LIM as int);
            lemma_mul_bound((self@.d * self@.d) * self@.d, self@.d, 19342813113834066795298816, LIM as int);
            lemma_mul_pos(self@.d, self@.d);
            lemma_mul_pos(self@.d * self@.d, self@.d);
            lemma_mul_pos((self@.d * self@.d) * self@.d, self@.d);
        }
        Scalar {
            n: (sx * vx + sy * vy + sz * vz) + (tx * ux + ty * uy + tz * uz),
            d: ((self.den * self.den) * self.den) * self.den,
        }
    }

    /// The inverse of this matrix, by the two-by-two block decomposition
    /// with cross products. The determinant must not be zero; callers
    /// check `determinant` first.
    pub fn inverse(&self) -> (r: Matrix4)
        requires
            self.bounded(),
            self@.det_num() != 0,
        ensures
            r@ == self@.inverse(),
            r.wf(),
    {
        proof {
            lemma_mul_bound(self@.e10, self@.e21, LIM as int, LIM as int);
            lemma_mul_bound(self@.e20, self@.e11, LIM as int, LIM as int);
            lemma_mul_bound(self@.e20, self@.e01, LIM as int, LIM as int);
            lemma_mul_bound(self@.e00, self@.e21, LIM as int, LIM as int);
            lemma_mul_bound(self@.e00, self@.e11, LIM as int, LIM as int);
            lemma_mul_bound(self@.e10, self@.e01, LIM as int, LIM as int);
            lemma_mul_bound(self@.e12, self@.e23, LIM as int, LIM as int);
            lemma_mul_bound(self@.e22, self@.e13, LIM as int, LIM as int);
            lemma_mul_bound(self@.e22, self@.e03, LIM as int, LIM as int);
            lemma_mul_bound(self@.e02, self@.e23, LIM as int, LIM as int);
            lemma_mul_bound(self@.e02, self@.e13, LIM as int, LIM as int);
            lemma_mul_bound(self@.e12, self@.e03, LIM as int, LIM as int);
            lemma_mul_bound(self@.e00, self@.e31, LIM as int, LIM as int);
            lemma_mul_bound(self@.e01, self@.e30, LIM as int, LIM as int);
            lemma_mul_bound(self@.e10, self@.e31, LIM as int, LIM as int);
            lemma_mul_bound(self@.e11, self@.e30, LIM as int, LIM as int);
            lemma_mul_bound(self@.e20, self@.e31, LIM as int, LIM as int);
            lemma_mul_bound(self@.e21, self@.e30, LIM as int, LIM as int);
            lemma_mul_bound(self@.e02, self@.e33, LIM as int, LIM as int);
            lemma_mul_bound(self@.e03, self@.e32, LIM as int, LIM as int);
            lemma_mul_bound(self@.e12, self@.e33, LIM as int, LIM as int);
            lemma_mul_bound(self@.e13, self@.e32, LIM as int, LIM as int);
            lemma_mul_bound(self@.e22, self@.e33, LIM as int, LIM as int);
            lemma_mul_bound(self@.e23, self@.e32, LIM as int, LIM as int);
        }
        let sx = self.n10 * self.n21 - self.n20 * self.n11;
        let sy = self.n20 * self.n01 - self.n00 * self.n21;
        let sz = self.n00 * self.n11 - self.n10 * self.n01;
        let tx = self.n12 * self.n23 - self.n22 * self.n13;
        let ty = self.n22 * self.n03 - self.n02 * self.n23;
        let tz = self.n02 * self.n13 - self.n12 * self.n03;
        let ux = self.n00 * self.n31 - self.n01 * self.n30;
        let uy = self.n10 * self.n31 - self.n11 * self.n30;
        let uz = self.n20 * self.n31 - self.n21 * self.n30;
        let vx = self.n02 * self.n33 - self.n03 * self.n32;
        let vy = self.n12 * self.n33 - self.n13 * self.n32;
        let vz = self.n22 * self.n33 - self.n23 * self.n32;
        proof {
            lemma_mul_bound(sx as int, vx as int, 144115188075855872, 144115188075855872);
            lemma_mul_bound(sy as int, vy as int, 144115188075855872, 144115188075855872);
            lemma_mul_bound(sz as int, vz as int, 144115188075855872, 144115188075855872);
            lemma_mul_bound(tx as int, ux as int, 144115188075855872, 144115188075855872);
            lemma_mul_bound(ty as int, uy as int, 144115188075855872, 144115188075855872);
            lemma_mul_bound(tz as int, uz as int, 144115188075855872, 144115188075855872);
            lemma_mul_bound(self@.e11, vz as int, (LIM as int), 144115188075855872);
            lemma_mul_bound(self@.e21, vy as int, (LIM as int), 144115188075855872);
            lemma_mul_bound(tx as int, self@.e31, 144115188075855872, (LIM as int));
            lemma_mul_bound(self@.e21, vx as int, (LIM as int), 144115188075855872);
            lemma_mul_bound(self@.e01, vz as int, (LIM as int), 144115188075855872);
            lemma_mul_bound(ty as int, self@.e31, 144115188075855872, (LIM as int));
            lemma_mul_bound(self@.e01, vy as int, (LIM as int), 144115188075855872);
            lemma_mul_bound(self@.e11, vx as int, (LIM as int), 144115188075855872);
            lemma_mul_bound(tz as int, self@.e31, 144115188075855872, (LIM as int));
            lemma_mul_bound(vy as int, self@.e20, 144115188075855872, (LIM as int));
            lemma_mul_bound(vz as int, self@.e10, 144115188075855872, (LIM as int));
            lemma_mul_bound(tx as int, self@.e30, 144115188075855872, (LIM as int));
            lemma_mul_bound(vz as int, self@.e00, 144115188075855872, (LIM as int));
            lemma_mul_bound(vx as int, self@.e20, 144115188075855872, (LIM as int));
            lemma_mul_bound(ty as int, self@.e30, 144115188075855872, (LIM as int));
            lemma_mul_bound(vx as int, self@.e10, 144115188075855872, (LIM as int));
            lemma_mul_bound(vy as int, self@.e00, 144115188075855872, (LIM as int));
            lemma_mul_bound(tz as int, self@.e30, 144115188075855872, (LIM as int));
            lemma_mul_bound(self@.e13, uz as int, (LIM as int), 144115188075855872);
            lemma_mul_bound(self@.e23, uy as int, (LIM as int), 144115188075855872);
            lemma_mul_bound(sx as int, self@.e33, 144115188075855872, (LIM as int));
            lemma_mul_bound(self@.e23, ux as int, (LIM as int), 144115188075855872);
            lemma_mul_bound(self@.e03, uz as int, (LIM as int), 144115188075855872);
            lemma_mul_bound(sy as int, self@.e33, 144115188075855872, (LIM as int));
            lemma_mul_bound(self@.e03, uy as int, (LIM as int), 144115188075855872);
            lemma_mul_bound(self@.e13, ux as int, (LIM as int), 144115188075855872);
            lemma_mul_bound(sz as int, self@.e33, 144115188075855872, (LIM as int));
            lemma_mul_bound(uy as int, self@.e22, 144115188075855872, (LIM as int));
            lemma_mul_bound(uz as int, self@.e12, 144115188075855872, (LIM as int));
            lemma_mul_bound(sx as int, self@.e32, 144115188075855872, (LIM as int));
            lemma_mul_bound(uz as int, self@.e02, 144115188075855872, (LIM as int));
            lemma_mul_bound(ux as int, self@.e22, 144115188075855872, (LIM as int));
            lemma_mul_bound(sy as int, self@.e32, 144115188075855872, (LIM as int));
            lemma_mul_bound(ux as int, self@.e12, 144115188075855872, (LIM as int));
            lemma_mul_bound(uy as int, self@.e02, 144115188075855872, (LIM as int));
            lemma_mul_bound(sz as int, self@.e32, 144115188075855872, (LIM as int));
            lemma_mul_bound(self@.e01, tx as int, (LIM as int), 144115188075855872);
            lemma_mul_bound(self@.e11, ty as int, (LIM as int), 144115188075855872);
            lemma_mul_bound(self@.e21, tz as int, (LIM as int), 144115188075855872);
            lemma_mul_bound(self@.e00, tx as int, (LIM as int), 144115188075855872);
            lemma_mul_bound(self@.e10, ty as int, (LIM as int), 144115188075855872);
            lemma_mul_bound(self@.e20, tz as int, (LIM as int), 144115188075855872);
            lemma_mul_bound(self@.e03, sx as int, (LIM as int), 144115188075855872);
            lemma_mul_bound(self@.e13, sy as int, (LIM as int), 144115188075855872);
            lemma_mul_bound(self@.e23, sz as int, (LIM as int), 144115188075855872);
            lemma_mul_bound(self@.e02, sx as int, (LIM as int), 144115188075855872);
            lemma_mul_bound(self@.e12, sy as int, (LIM as int), 144115188075855872);
            lemma_mul_bound(self@.e22, sz as int, (LIM as int), 144115188075855872);
        }
        let det = (sx * vx + sy * vy + sz * vz) + (tx * ux + ty * uy + tz * uz);
        let r0x = (self.n11 * vz - self.n21 * vy) + tx * self.n31;
        let r0y = (self.n21 * vx - self.n01 * vz) + ty * self.n31;
        let r0z = (self.n01 * vy - self.n11 * vx) + tz * self.n31;
        let r1x = (vy * self.n20 - vz * self.n10) - tx * self.n30;
        let r1y = (vz * self.n00 - vx * self.n20) - ty * self.n30;
        let r1z = (vx * self.n10 - vy * self.n00) - tz * self.n30;
        let r2x = (self.n13 * uz - self.n23 * uy) + sx * self.n33;
        let r2y = (self.n23 * ux - self.n03 * uz) + sy * self.n33;
        let r2z = (self.n03 * uy - self.n13 * ux) + sz * self.n33;
        let r3x = (uy * self.n22 - uz * self.n12) - sx * self.n32;
        let r3y = (uz * self.n02 - ux * self.n22) - sy * self.n32;
        let r3z = (ux * self.n12 - uy * self.n02) - sz * self.n32;
        let c0 = -(self.n01 * tx + self.n11 * ty + self.n21 * tz);
        let c1 = self.n00 * tx + self.n10 * ty + self.n20 * tz;
        let c2 = -(self.n03 * sx + self.n13 * sy + self.n23 * sz);
        let c3 = self.n02 * sx + self.n12 * sy + self.n22 * sz;
        proof {
            lemma_mul_bound(self@.d, r0x as int, (LIM as int), 116056878683004400771792896);
            lemma_mul_bound(self@.d, r0y as int, (LIM as int), 116056878683004400771792896);
            lemma_mul_bound(self@.d, r0z as int, (LIM as int), 116056878683004400771792896);
            lemma_mul_bound(self@.d, r1x as int, (LIM as int), 116056878683004400771792896);
            lemma_mul_bound(self@.d, r1y as int, (LIM as int), 116056878683004400771792896);
            lemma_mul_bound(self@.d, r1z as int, (LIM as int), 116056878683004400771792896);
            lemma_mul_bound(self@.d, r2x as int, (LIM as int), 116056878683004400771792896);
            lemma_mul_bound(self@.d, r2y as int, (LIM as int), 116056878683004400771792896);
            lemma_mul_bound(self@.d, r2z as int, (LIM as int), 116056878683004400771792896);
            lemma_mul_bound(self@.d, r3x as int, (LIM as int), 116056878683004400771792896);
            lemma_mul_bound(self@.d, r3y as int, (LIM as int), 116056878683004400771792896);
            lemma_mul_bound(self@.d, r3z as int, (LIM as int), 116056878683004400771792896);
            lemma_mul_bound(self@.d, c0 as int, (LIM as int), 116056878683004400771792896);
            lemma_mul_bound(self@.d, c1 as int, (LIM as int), 116056878683004400771792896);
            lemma_mul_bound(self@.d, c2 as int, (LIM as int), 116056878683004400771792896);
            lemma_mul_bound(self@.d, c3 as int, (LIM as int), 116056878683004400771792896);

        }
        if det >= 0 {
            Matrix4 {
                n00: self.den * r0x,
                n01: self.den * r0y,
                n02: self.den * r0z,
                n03: self.den * c0,
                n10: self.den * r1x,
                n11: self.den * r1y,
                n12: self.den * r1z,
                n13: self.den * c1,
                n20: self.den * r2x,
                n21: self.den * r2y,
                n22: self.den * r2z,
                n23: self.den * c2,
                n30: self.den * r3x,
                n31: self.den * r3y,
                n32: self.den * r3z,
                n33: self.den * c3,
                den: det,
            }
        } else {
            Matrix4 {
                n00: -(self.den * r0x),
                n01: -(self.den * r0y),
                n02: -(self.den * r0z),
                n03: -(self.den * c0),
                n10: -(self.den * r1x),
                n11: -(self.den * r1y),
                n12: -(self.den * r1z),
                n13: -(self.den * c1),
                n20: -(self.den * r2x),
                n21: -(self.den * r2y),
                n22: -(self.den * r2z),
                n23: -(self.den * c2),
                n30: -(self.den * r3x),
                n31: -(self.den * r3y),
                n32: -(self.den * r3z),
                n33: -(self.den * c3),
                den: -det,
            }
        }
    }
}

} // verus!
