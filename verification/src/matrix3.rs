use vstd::prelude::*;

use crate::scalar::{lemma_mul_bound, lemma_mul_pos, Rat, Scalar, LIM};
use crate::vector3::{Vector3, V3};

verus! {

/// The mathematical value of a 3x3 matrix: integer numerators `eij` (the
/// entry in row `i` and column `j`) over the common positive denominator
/// `d`.
pub ghost struct M3 {
    pub e00: int,
    pub e01: int,
    pub e02: int,
    pub e10: int,
    pub e11: int,
    pub e12: int,
    pub e20: int,
    pub e21: int,
    pub e22: int,
    pub d: int,
}

impl M3 {
    pub open spec fn wf(self) -> bool {
        self.d > 0
    }

    pub open spec fn bounded(self) -> bool {
        &&& -LIM <= self.e00 <= LIM
        &&& -LIM <= self.e01 <= LIM
        &&& -LIM <= self.e02 <= LIM
        &&& -LIM <= self.e10 <= LIM
        &&& -LIM <= self.e11 <= LIM
        &&& -LIM <= self.e12 <= LIM
        &&& -LIM <= self.e20 <= LIM
        &&& -LIM <= self.e21 <= LIM
        &&& -LIM <= self.e22 <= LIM
        &&& 0 < self.d <= LIM
    }

    /// Equality of the represented matrices, entry by entry.
    pub open spec fn eq_rat(self, o: M3) -> bool {
        &&& self.e00 * o.d == o.e00 * self.d
        &&& self.e01 * o.d == o.e01 * self.d
        &&& self.e02 * o.d == o.e02 * self.d
        &&& self.e10 * o.d == o.e10 * self.d
        &&& self.e11 * o.d == o.e11 * self.d
        &&& self.e12 * o.d == o.e12 * self.d
        &&& self.e20 * o.d == o.e20 * self.d
        &&& self.e21 * o.d == o.e21 * self.d
        &&& self.e22 * o.d == o.e22 * self.d
    }

    pub open spec fn identity() -> M3 {
        M3 { e00: 1, e01: 0, e02: 0, e10: 0, e11: 1, e12: 0, e20: 0, e21: 0, e22: 1, d: 1 }
    }

    /// Column `j` as a vector.
    pub open spec fn col(self, j: int) -> V3 {
        if j == 0 {
            V3 { x: self.e00, y: self.e10, z: self.e20, d: self.d }
        } else if j == 1 {
            V3 { x: self.e01, y: self.e11, z: self.e21, d: self.d }
        } else {
            V3 { x: self.e02, y: self.e12, z: self.e22, d: self.d }
        }
    }

    /// The entry in row `i` and column `j`, as a rational.
    pub open spec fn at(self, i: int, j: int) -> Rat {
        Rat { n: self.col(j).idx(i), d: self.d }
    }

    pub open spec fn transpose(self) -> M3 {
        M3 {
            e00: self.e00,
            e01: self.e10,
            e02: self.e20,
            e10: self.e01,
            e11: self.e11,
            e12: self.e21,
            e20: self.e02,
            e21: self.e12,
            e22: self.e22,
            d: self.d,
        }
    }

    /// Matrix product; rows of `self` against columns of `o`.
    pub open spec fn mul(self, o: M3) -> M3 {
        M3 {
            e00: self.e00 * o.e00 + self.e01 * o.e10 + self.e02 * o.e20,
            e01: self.e00 * o.e01 + self.e01 * o.e11 + self.e02 * o.e21,
            e02: self.e00 * o.e02 + self.e01 * o.e12 + self.e02 * o.e22,
            e10: self.e10 * o.e00 + self.e11 * o.e10 + self.e12 * o.e20,
            e11: self.e10 * o.e01 + self.e11 * o.e11 + self.e12 * o.e21,
            e12: self.e10 * o.e02 + self.e11 * o.e12 + self.e12 * o.e22,
            e20: self.e20 * o.e00 + self.e21 * o.e10 + self.e22 * o.e20,
            e21: self.e20 * o.e01 + self.e21 * o.e11 + self.e22 * o.e21,
            e22: self.e20 * o.e02 + self.e21 * o.e12 + self.e22 * o.e22,
            d: self.d * o.d,
        }
    }

    /// Matrix applied to a vector; row `i` of `self` against `v`.
    pub open spec fn mul_vec(self, v: V3) -> V3 {
        V3 {
            x: self.e00 * v.x + self.e01 * v.y + self.e02 * v.z,
            y: self.e10 * v.x + self.e11 * v.y + self.e12 * v.z,
            z: self.e20 * v.x + self.e21 * v.y + self.e22 * v.z,
            d: self.d * v.d,
        }
    }

    pub open spec fn scale(self, s: Rat) -> M3 {
        M3 {
            e00: self.e00 * s.n,
            e01: self.e01 * s.n,
            e02: self.e02 * s.n,
            e10: self.e10 * s.n,
            e11: self.e11 * s.n,
            e12: self.e12 * s.n,
            e20: self.e20 * s.n,
            e21: self.e21 * s.n,
            e22: self.e22 * s.n,
            d: self.d * s.d,
        }
    }

    /// The integer determinant of the numerators: the scalar triple
    /// product of the third column with the cross product of the first
    /// two.
    pub open spec fn det_num(self) -> int {
        (self.e10 * self.e21 - self.e20 * self.e11) * self.e02 + (self.e20 * self.e01 - self.e00
            * self.e21) * self.e12 + (self.e00 * self.e11 - self.e10 * self.e01) * self.e22
    }

    /// The determinant of the represented matrix.
    pub open spec fn det_rat(self) -> Rat {
        Rat { n: self.det_num(), d: self.d * self.d * self.d }
    }

    /// The inverse of the represented matrix: the rows are the cross
    /// products of the columns (the cofactor rows), scaled by the
    /// denominator, all over the determinant; the sign is arranged so the
    /// resulting denominator is positive. Meaningful only when the
    /// determinant is not zero.
    pub open spec fn inverse(self) -> M3 {
        let r00 = self.e11 * self.e22 - self.e21 * self.e12;
        let r01 = self.e21 * self.e02 - self.e01 * self.e22;
        let r02 = self.e01 * self.e12 - self.e11 * self.e02;
        let r10 = self.e12 * self.e20 - self.e22 * self.e10;
        let r11 = self.e22 * self.e00 - self.e02 * self.e20;
        let r12 = self.e02 * self.e10 - self.e12 * self.e00;
        let r20 = self.e10 * self.e21 - self.e20 * self.e11;
        let r21 = self.e20 * self.e01 - self.e00 * self.e21;
        let r22 = self.e00 * self.e11 - self.e10 * self.e01;
        let det = self.det_num();
        if det >= 0 {
            M3 {
                e00: self.d * r00,
                e01: self.d * r01,
                e02: self.d * r02,
                e10: self.d * r10,
                e11: self.d * r11,
                e12: self.d * r12,
                e20: self.d * r20,
                e21: self.d * r21,
                e22: self.d * r22,
                d: det,
            }
        } else {
            M3 {
                e00: -(self.d * r00),
                e01: -(self.d * r01),
                e02: -(self.d * r02),
                e10: -(self.d * r10),
                e11: -(self.d * r11),
                e12: -(self.d * r12),
                e20: -(self.d * r20),
                e21: -(self.d * r21),
                e22: -(self.d * r22),
                d: -det,
            }
        }
    }

    /// Rodrigues' rotation about the unit axis `a`, from the cosine `c`
    /// and sine `s` of the angle.
    pub open spec fn rotation(c: Rat, s: Rat, a: V3) -> M3 {
        let f = c.d - c.n;
        let x = a.x * f;
        let y = a.y * f;
        let z = a.z * f;
        M3 {
            e00: c.n * (s.d * (a.d * a.d)) + (x * a.x) * s.d,
            e01: (x * a.y) * s.d - (s.n * a.z) * (c.d * a.d),
            e02: (x * a.z) * s.d + (s.n * a.y) * (c.d * a.d),
            e10: (x * a.y) * s.d + (s.n * a.z) * (c.d * a.d),
            e11: c.n * (s.d * (a.d * a.d)) + (y * a.y) * s.d,
            e12: (y * a.z) * s.d - (s.n * a.x) * (c.d * a.d),
            e20: (x * a.z) * s.d - (s.n * a.y) * (c.d * a.d),
            e21: (y * a.z) * s.d + (s.n * a.x) * (c.d * a.d),
            e22: c.n * (s.d * (a.d * a.d)) + (z * a.z) * s.d,
            d: c.d * (s.d * (a.d * a.d)),
        }
    }

    /// Rotation about the x axis from the cosine `c` and sine `s`.
    pub open spec fn rotation_x(c: Rat, s: Rat) -> M3 {
        M3 {
            e00: c.d * s.d,
            e01: 0,
            e02: 0,
            e10: 0,
            e11: c.n * s.d,
            e12: -(s.n * c.d),
            e20: 0,
            e21: s.n * c.d,
            e22: c.n * s.d,
            d: c.d * s.d,
        }
    }

    /// Rotation about the y axis from the cosine `c` and sine `s`.
    pub open spec fn rotation_y(c: Rat, s: Rat) -> M3 {
        M3 {
            e00: c.n * s.d,
            e01: 0,
            e02: s.n * c.d,
            e10: 0,
            e11: c.d * s.d,
            e12: 0,
            e20: -(s.n * c.d),
            e21: 0,
            e22: c.n * s.d,
            d: c.d * s.d,
        }
    }

    /// Rotation about the z axis from the cosine `c` and sine `s`.
    pub open spec fn rotation_z(c: Rat, s: Rat) -> M3 {
        M3 {
            e00: c.n * s.d,
            e01: -(s.n * c.d),
            e02: 0,
            e10: s.n * c.d,
            e11: c.n * s.d,
            e12: 0,
            e20: 0,
            e21: 0,
            e22: c.d * s.d,
            d: c.d * s.d,
        }
    }

    /// Skew by the tangent `t` along the unit direction `a`, varying with
    /// the projection onto the unit direction `b`.
    pub open spec fn skew(t: Rat, a: V3, b: V3) -> M3 {
        let dd = t.d * (a.d * b.d);
        M3 {
            e00: dd + t.n * (a.x * b.x),
            e01: t.n * (a.x * b.y),
            e02: t.n * (a.x * b.z),
            e10: t.n * (a.y * b.x),
            e11: dd + t.n * (a.y * b.y),
            e12: t.n * (a.y * b.z),
            e20: t.n * (a.z * b.x),
            e21: t.n * (a.z * b.y),
            e22: dd + t.n * (a.z * b.z),
            d: dd,
        }
    }

    /// Scale by the factor `s` along the unit direction `a`.
    pub open spec fn scale_along(s: Rat, a: V3) -> M3 {
        let f = s.n - s.d;
        let dd = s.d * (a.d * a.d);
        M3 {
            e00: dd + (f * (a.x * a.x)),
            e01: f * (a.x * a.y),
            e02: f * (a.x * a.z),
            e10: f * (a.x * a.y),
            e11: dd + (f * (a.y * a.y)),
            e12: f * (a.y * a.z),
            e20: f * (a.x * a.z),
            e21: f * (a.y * a.z),
            e22: dd + (f * (a.z * a.z)),
            d: dd,
        }
    }

    /// The involution through the unit direction `a`: fixes `a`, negates
    /// its orthogonal complement.
    pub open spec fn involution(a: V3) -> M3 {
        let dd = a.d * a.d;
        M3 {
            e00: 2 * (a.x * a.x) - dd,
            e01: 2 * (a.x * a.y),
            e02: 2 * (a.x * a.z),
            e10: 2 * (a.x * a.y),
            e11: 2 * (a.y * a.y) - dd,
            e12: 2 * (a.y * a.z),
            e20: 2 * (a.x * a.z),
            e21: 2 * (a.y * a.z),
            e22: 2 * (a.z * a.z) - dd,
            d: dd,
        }
    }

    /// The reflection through the plane perpendicular to the unit
    /// direction `a`.
    pub open spec fn reflection(a: V3) -> M3 {
        let dd = a.d * a.d;
        M3 {
            e00: dd - 2 * (a.x * a.x),
            e01: -(2 * (a.x * a.y)),
            e02: -(2 * (a.x * a.z)),
            e10: -(2 * (a.x * a.y)),
            e11: dd - 2 * (a.y * a.y),
            e12: -(2 * (a.y * a.z)),
            e20: -(2 * (a.x * a.z)),
            e21: -(2 * (a.y * a.z)),
            e22: dd - 2 * (a.z * a.z),
            d: dd,
        }
    }

    /// The diagonal scale by `sx`, `sy` and `sz` along the three axes.
    pub open spec fn scale_diag(sx: Rat, sy: Rat, sz: Rat) -> M3 {
        M3 {
            e00: sx.n * (sy.d * sz.d),
            e01: 0,
            e02: 0,
            e10: 0,
            e11: sy.n * (sx.d * sz.d),
            e12: 0,
            e20: 0,
            e21: 0,
            e22: sz.n * (sx.d * sy.d),
            d: sx.d * (sy.d * sz.d),
        }
    }

    /// The matrix with the three given columns, brought to the common
    /// denominator of the three.
    pub open spec fn from_cols(a: V3, b: V3, c: V3) -> M3 {
        M3 {
            e00: a.x * (b.d * c.d),
            e10: a.y * (b.d * c.d),
            e20: a.z * (b.d * c.d),
            e01: b.x * (a.d * c.d),
            e11: b.y * (a.d * c.d),
            e21: b.z * (a.d * c.d),
            e02: c.x * (a.d * b.d),
            e12: c.y * (a.d * b.d),
            e22: c.z * (a.d * b.d),
            d: a.d * (b.d * c.d),
        }
    }
}

/// A 3x3 matrix: exact rational entries held as integer numerators over the
/// positive denominator `den`. The field `nij` is the numerator of the
/// entry in row `i` and column `j`.
#[derive(Clone, Copy, Debug, PartialEq, Eq, Structural)]
pub struct Matrix3 {
    pub n00: i128,
    pub n01: i128,
    pub n02: i128,
    pub n10: i128,
    pub n11: i128,
    pub n12: i128,
    pub n20: i128,
    pub n21: i128,
    pub n22: i128,
    /// Common denominator of the nine entries; always positive.
    pub den: i128,
}

impl View for Matrix3 {
    type V = M3;

    open spec fn view(&self) -> M3 {
        M3 {
            e00: self.n00 as int,
            e01: self.n01 as int,
            e02: self.n02 as int,
            e10: self.n10 as int,
            e11: self.n11 as int,
            e12: self.n12 as int,
            e20: self.n20 as int,
            e21: self.n21 as int,
            e22: self.n22 as int,
            d: self.den as int,
        }
    }
}

impl Matrix3 {
    pub open spec fn wf(self) -> bool {
        self@.wf()
    }

    pub open spec fn bounded(self) -> bool {
        self@.bounded()
    }

    /// The matrix of nine whole entries, given row by row: `nij` is the
    /// entry in row `i` and column `j`.
    pub fn new(
        n00: i128,
        n01: i128,
        n02: i128,
        n10: i128,
        n11: i128,
        n12: i128,
        n20: i128,
        n21: i128,
        n22: i128,
    ) -> (r: Matrix3)
        ensures
            r@ == (M3 {
                e00: n00 as int,
                e01: n01 as int,
                e02: n02 as int,
                e10: n10 as int,
                e11: n11 as int,
                e12: n12 as int,
                e20: n20 as int,
                e21: n21 as int,
                e22: n22 as int,
                d: 1,
            }),
    {
        Matrix3 { n00, n01, n02, n10, n11, n12, n20, n21, n22, den: 1 }
    }

    /// The matrix of nine numerators, given row by row, over the common
    /// denominator `den`.
    pub fn new_scaled(
        n00: i128,
        n01: i128,
        n02: i128,
        n10: i128,
        n11: i128,
        n12: i128,
        n20: i128,
        n21: i128,
        n22: i128,
        den: i128,
    ) -> (r: Matrix3)
        requires
            den > 0,
        ensures
            r@ == (M3 {
                e00: n00 as int,
                e01: n01 as int,
                e02: n02 as int,
                e10: n10 as int,
                e11: n11 as int,
                e12: n12 as int,
                e20: n20 as int,
                e21: n21 as int,
                e22: n22 as int,
                d: den as int,
            }),
    {
        Matrix3 { n00, n01, n02, n10, n11, n12, n20, n21, n22, den }
    }

    /// The matrix whose columns are the three given vectors.
    pub fn new_with_vecs(a: &Vector3, b: &Vector3, c: &Vector3) -> (r: Matrix3)
        requires
            a.bounded(),
            b.bounded(),
            c.bounded(),
        ensures
            r@ == M3::from_cols(a@, b@, c@),
            r.wf(),
    {
        proof {
            lemma_mul_bound(b@.d, c@.d, LIM as int, LIM as int);
            lemma_mul_bound(a@.d, c@.d, LIM as int, LIM as int);
            lemma_mul_bound(a@.d, b@.d, LIM as int, LIM as int);
            lemma_mul_bound(a@.x, b@.d * c@.d, LIM as int, (LIM as int * LIM as int));
            lemma_mul_bound(a@.y, b@.d * c@.d, LIM as int, (LIM as int * LIM as int));
            lemma_mul_bound(a@.z, b@.d * c@.d, LIM as int, (LIM as int * LIM as int));
            lemma_mul_bound(b@.x, a@.d * c@.d, LIM as int, (LIM as int * LIM as int));
            lemma_mul_bound(b@.y, a@.d * c@.d, LIM as int, (LIM as int * LIM as int));
            lemma_mul_bound(b@.z, a@.d * c@.d, LIM as int, (LIM as int * LIM as int));
            lemma_mul_bound(c@.x, a@.d * b@.d, LIM as int, (LIM as int * LIM as int));
            lemma_mul_bound(c@.y, a@.d * b@.d, LIM as int, (LIM as int * LIM as int));
            lemma_mul_bound(c@.z, a@.d * b@.d, LIM as int, (LIM as int * LIM as int));
            lemma_mul_bound(a@.d, b@.d * c@.d, LIM as int, (LIM as int * LIM as int));
            lemma_mul_pos(b@.d, c@.d);
            lemma_mul_pos(a@.d, b@.d * c@.d);
        }
        Matrix3 {
            n00: a.x * (b.den * c.den),
            n10: a.y * (b.den * c.den),
            n20: a.z * (b.den * c.den),
            n01: b.x * (a.den * c.den),
            n11: b.y * (a.den * c.den),
            n21: b.z * (a.den * c.den),
            n02: c.x * (a.den * b.den),
            n12: c.y * (a.den * b.den),
            n22: c.z * (a.den * b.den),
            den: a.den * (b.den * c.den),
        }
    }

    /// Column `i` of the matrix.
    pub fn vec_at(&self, i: usize) -> (r: Vector3)
        requires
            i < 3,
        ensures
            r@ == self@.col(i as int),
    {
        if i == 0 {
            Vector3 { x: self.n00, y: self.n10, z: self.n20, den: self.den }
        } else if i == 1 {
            Vector3 { x: self.n01, y: self.n11, z: self.n21, den: self.den }
        } else {
            Vector3 { x: self.n02, y: self.n12, z: self.n22, den: self.den }
        }
    }

    /// The entry in row `i` and column `j`.
    pub fn at(&self, i: usize, j: usize) -> (r: Scalar)
        requires
            i < 3,
            j < 3,
        ensures
            r@ == self@.at(i as int, j as int),
    {
        let c = self.vec_at(j);
        if i == 0 {
            Scalar { n: c.x, d: self.den }
        } else if i == 1 {
            Scalar { n: c.y, d: self.den }
        } else {
            Scalar { n: c.z, d: self.den }
        }
    }

    /// Replaces all nine entries with the given whole values, row by row.
    pub fn set(
        &mut self,
        n00: i128,
        n01: i128,
        n02: i128,
        n10: i128,
        n11: i128,
        n12: i128,
        n20: i128,
        n21: i128,
        n22: i128,
    )
        ensures
            final(self)@ == (M3 {
                e00: n00 as int,
                e01: n01 as int,
                e02: n02 as int,
                e10: n10 as int,
                e11: n11 as int,
                e12: n12 as int,
                e20: n20 as int,
                e21: n21 as int,
                e22: n22 as int,
                d: 1,
            }),
    {
        *self = Matrix3::new(n00, n01, n02, n10, n11, n12, n20, n21, n22);
    }

    /// Replaces the columns with the three given vectors.
    pub fn set_vecs(&mut self, a: &Vector3, b: &Vector3, c: &Vector3)
        requires
            a.bounded(),
            b.bounded(),
            c.bounded(),
        ensures
            final(self)@ == M3::from_cols(a@, b@, c@),
            final(self).wf(),
    {
        *self = Matrix3::new_with_vecs(a, b, c);
    }

    /// Makes this the identity matrix.
    pub fn set_identity(&mut self)
        ensures
            final(self)@ == M3::identity(),
    {
        *self = Matrix3::identity();
    }

    /// The identity matrix.
    pub fn identity() -> (r: Matrix3)
        ensures
            r@ == M3::identity(),
    {
        Matrix3 {
            n00: 1,
            n01: 0,
            n02: 0,
            n10: 0,
            n11: 1,
            n12: 0,
            n20: 0,
            n21: 0,
            n22: 1,
            den: 1,
        }
    }

    /// The determinant, computed as the scalar triple product of the third
    /// column with the cross product of the first two.
    pub fn determinant(&self) -> (r: Scalar)
        requires
            self.bounded(),
        ensures
            r@ == self@.det_rat(),
            r.wf(),
    {
        proof {
            lemma_mul_bound(self@.e10, self@.e21, LIM as int, LIM as int);
            lemma_mul_bound(self@.e20, self@.e11, LIM as int, LIM as int);
            lemma_mul_bound(self@.e20, self@.e01, LIM as int, LIM as int);
            lemma_mul_bound(self@.e00, self@.e21, LIM as int, LIM as int);
            lemma_mul_bound(self@.e00, self@.e11, LIM as int, LIM as int);
            lemma_mul_bound(self@.e10, self@.e01, LIM as int, LIM as int);
            lemma_mul_bound(self@.e10 * self@.e21 - self@.e20 * self@.e11, self@.e02, 2 * (LIM as int * LIM as int), LIM as int);
            lemma_mul_bound(self@.e20 * self@.e01 - self@.e00 * self@.e21, self@.e12, 2 * (LIM as int * LIM as int), LIM as int);
            lemma_mul_bound(self@.e00 * self@.e11 - self@.e10 * self@.e01, self@.e22, 2 * (LIM as int * LIM as int), LIM as int);
            lemma_mul_bound(self@.d, self@.d, LIM as int, LIM as int);
            lemma_mul_bound(self@.d * self@.d, self@.d, (LIM as int * LIM as int), LIM as int);
            lemma_mul_pos(self@.d, self@.d);
            lemma_mul_pos(self@.d * self@.d, self@.d);
        }
        Scalar {
            n: (self.n10 * self.n21 - self.n20 * self.n11) * self.n02 + (self.n20 * self.n01
                - self.n00 * self.n21) * self.n12 + (self.n00 * self.n11 - self.n10 * self.n01)
                * self.n22,
            d: self.den * self.den * self.den,
        }
    }

    /// The transpose.
    pub fn transpose(&self) -> (r: Matrix3)
        ensures
            r@ == self@.transpose(),
    {
        Matrix3 {
            n00: self.n00,
            n01: self.n10,
            n02: self.n20,
            n10: self.n01,
            n11: self.n11,
            n12: self.n21,
            n20: self.n02,
            n21: self.n12,
            n22: self.n22,
            den: self.den,
        }
    }

    /// The matrix product of this matrix and `o`, in this order.
    pub fn mul(&self, o: &Matrix3) -> (r: Matrix3)
        requires
            self.bounded(),
            o.bounded(),
        ensures
            r@ == self@.mul(o@),
            r.wf(),
    {
        proof {
            lemma_mul_bound(self@.e00, o@.e00, LIM as int, LIM as int);
            lemma_mul_bound(self@.e01, o@.e10, LIM as int, LIM as int);
            lemma_mul_bound(self@.e02, o@.e20, LIM as int, LIM as int);
            lemma_mul_bound(self@.e00, o@.e01, LIM as int, LIM as int);
            lemma_mul_bound(self@.e01, o@.e11, LIM as int, LIM as int);
            lemma_mul_bound(self@.e02, o@.e21, LIM as int, LIM as int);
            lemma_mul_bound(self@.e00, o@.e02, LIM as int, LIM as int);
            lemma_mul_bound(self@.e01, o@.e12, LIM as int, LIM as int);
            lemma_mul_bound(self@.e02, o@.e22, LIM as int, LIM as int);
            lemma_mul_bound(self@.e10, o@.e00, LIM as int, LIM as int);
            lemma_mul_bound(self@.e11, o@.e10, LIM as int, LIM as int);
            lemma_mul_bound(self@.e12, o@.e20, LIM as int, LIM as int);
            lemma_mul_bound(self@.e10, o@.e01, LIM as int, LIM as int);
            lemma_mul_bound(self@.e11, o@.e11, LIM as int, LIM as int);
            lemma_mul_bound(self@.e12, o@.e21, LIM as int, LIM as int);
            lemma_mul_bound(self@.e10, o@.e02, LIM as int, LIM as int);
            lemma_mul_bound(self@.e11, o@.e12, LIM as int, LIM as int);
            lemma_mul_bound(self@.e12, o@.e22, LIM as int, LIM as int);
            lemma_mul_bound(self@.e20, o@.e00, LIM as int, LIM as int);
            lemma_mul_bound(self@.e21, o@.e10, LIM as int, LIM as int);
            lemma_mul_bound(self@.e22, o@.e20, LIM as int, LIM as int);
            lemma_mul_bound(self@.e20, o@.e01, LIM as int, LIM as int);
            lemma_mul_bound(self@.e21, o@.e11, LIM as int, LIM as int);
            lemma_mul_bound(self@.e22, o@.e21, LIM as int, LIM as int);
            lemma_mul_bound(self@.e20, o@.e02, LIM as int, LIM as int);
            lemma_mul_bound(self@.e21, o@.e12, LIM as int, LIM as int);
            lemma_mul_bound(self@.e22, o@.e22, LIM as int, LIM as int);
            lemma_mul_bound(self@.d, o@.d, LIM as int, LIM as int);
            lemma_mul_pos(self@.d, o@.d);
        }
        Matrix3 {
            n00: self.n00 * o.n00 + self.n01 * o.n10 + self.n02 * o.n20,
            n01: self.n00 * o.n01 + self.n01 * o.n11 + self.n02 * o.n21,
            n02: self.n00 * o.n02 + self.n01 * o.n12 + self.n02 * o.n22,
            n10: self.n10 * o.n00 + self.n11 * o.n10 + self.n12 * o.n20,
            n11: self.n10 * o.n01 + self.n11 * o.n11 + self.n12 * o.n21,
            n12: self.n10 * o.n02 + self.n11 * o.n12 + self.n12 * o.n22,
            n20: self.n20 * o.n00 + self.n21 * o.n10 + self.n22 * o.n20,
            n21: self.n20 * o.n01 + self.n21 * o.n11 + self.n22 * o.n21,
            n22: self.n20 * o.n02 + self.n21 * o.n12 + self.n22 * o.n22,
            den: self.den * o.den,
        }
    }

    /// Replaces this matrix with the product of it and `o`, in this order.
    pub fn mul_assign(&mut self, o: &Matrix3)
        requires
            old(self).bounded(),
            o.bounded(),
        ensures
            final(self)@ == old(self)@.mul(o@),
            final(self).wf(),
    {
        *self = self.mul(o);
    }

    /// This matrix applied to the vector `v`.
    pub fn mul_vector(&self, v: &Vector3) -> (r: Vector3)
        requires
            self.bounded(),
            v.bounded(),
        ensures
            r@ == self@.mul_vec(v@),
            r.wf(),
    {
        proof {
            lemma_mul_bound(self@.e00, v@.x, LIM as int, LIM as int);
            lemma_mul_bound(self@.e01, v@.y, LIM as int, LIM as int);
            lemma_mul_bound(self@.e02, v@.z, LIM as int, LIM as int);
            lemma_mul_bound(self@.e10, v@.x, LIM as int, LIM as int);
            lemma_mul_bound(self@.e11, v@.y, LIM as int, LIM as int);
            lemma_mul_bound(self@.e12, v@.z, LIM as int, LIM as int);
            lemma_mul_bound(self@.e20, v@.x, LIM as int, LIM as int);
            lemma_mul_bound(self@.e21, v@.y, LIM as int, LIM as int);
            lemma_mul_bound(self@.e22, v@.z, LIM as int, LIM as int);
            lemma_mul_bound(self@.d, v@.d, LIM as int, LIM as int);
            lemma_mul_pos(self@.d, v@.d);
        }
        Vector3 {
            x: self.n00 * v.x + self.n01 * v.y + self.n02 * v.z,
            y: self.n10 * v.x + self.n11 * v.y + self.n12 * v.z,
            z: self.n20 * v.x + self.n21 * v.y + self.n22 * v.z,
            den: self.den * v.den,
        }
    }

    /// Every entry multiplied by the scalar `s`.
    pub fn mul_scalar(&self, s: &Scalar) -> (r: Matrix3)
        requires
            self.bounded(),
            s.bounded(),
        ensures
            r@ == self@.scale(s@),
            r.wf(),
    {
        proof {
            lemma_mul_bound(self@.e00, s@.n, LIM as int, LIM as int);
            lemma_mul_bound(self@.e01, s@.n, LIM as int, LIM as int);
            lemma_mul_bound(self@.e02, s@.n, LIM as int, LIM as int);
            lemma_mul_bound(self@.e10, s@.n, LIM as int, LIM as int);
            lemma_mul_bound(self@.e11, s@.n, LIM as int, LIM as int);
            lemma_mul_bound(self@.e12, s@.n, LIM as int, LIM as int);
            lemma_mul_bound(self@.e20, s@.n, LIM as int, LIM as int);
            lemma_mul_bound(self@.e21, s@.n, LIM as int, LIM as int);
            lemma_mul_bound(self@.e22, s@.n, LIM as int, LIM as int);
            lemma_mul_bound(self@.d, s@.d, LIM as int, LIM as int);
            lemma_mul_pos(self@.d, s@.d);
        }
        Matrix3 {
            n00: self.n00 * s.n,
            n01: self.n01 * s.n,
            n02: self.n02 * s.n,
            n10: self.n10 * s.n,
            n11: self.n11 * s.n,
            n12: self.n12 * s.n,
            n20: self.n20 * s.n,
            n21: self.n21 * s.n,
            n22: self.n22 * s.n,
            den: self.den * s.d,
        }
    }

    /// Replaces this matrix with it scaled by `s`.
    pub fn mul_assign_scalar(&mut self, s: &Scalar)
        requires
            old(self).bounded(),
            s.bounded(),
        ensures
            final(self)@ == old(self)@.scale(s@),
            final(self).wf(),
    {
        *self = self.mul_scalar(s);
    }

    /// Every entry divided by the scalar `s`.
    pub fn div(&self, s: &Scalar) -> (r: Matrix3)
        requires
            self.bounded(),
            s.bounded(),
            s@.n != 0,
        ensures
            r@ == self@.scale(s@.recip()),
            r.wf(),
    {
        let rec = if s.n >= 0 {
            Scalar { n: s.d, d: s.n }
        } else {
            Scalar { n: -s.d, d: -s.n }
        };
        self.mul_scalar(&rec)
    }

    /// The inverse of this matrix: its rows are the cross products of this
    /// matrix's columns (the cofactor rows) over the determinant. The
    /// determinant must not be zero; callers check `determinant` first.
    pub fn inverse(&self) -> (r: Matrix3)
        requires
            self.bounded(),
            self@.det_num() != 0,
        ensures
            r@ == self@.inverse(),
            r.wf(),
    {
        proof {
            lemma_mul_bound(self@.e11, self@.e22, LIM as int, LIM as int);
            lemma_mul_bound(self@.e21, self@.e12, LIM as int, LIM as int);
            lemma_mul_bound(self@.e21, self@.e02, LIM as int, LIM as int);
            lemma_mul_bound(self@.e01, self@.e22, LIM as int, LIM as int);
            lemma_mul_bound(self@.e01, self@.e12, LIM as int, LIM as int);
            lemma_mul_bound(self@.e11, self@.e02, LIM as int, LIM as int);
            lemma_mul_bound(self@.e12, self@.e20, LIM as int, LIM as int);
            lemma_mul_bound(self@.e22, self@.e10, LIM as int, LIM as int);
            lemma_mul_bound(self@.e22, self@.e00, LIM as int, LIM as int);
            lemma_mul_bound(self@.e02, self@.e20, LIM as int, LIM as int);
            lemma_mul_bound(self@.e02, self@.e10, LIM as int, LIM as int);
            lemma_mul_bound(self@.e12, self@.e00, LIM as int, LIM as int);
            lemma_mul_bound(self@.e10, self@.e21, LIM as int, LIM as int);
            lemma_mul_bound(self@.e20, self@.e11, LIM as int, LIM as int);
            lemma_mul_bound(self@.e20, self@.e01, LIM as int, LIM as int);
            lemma_mul_bound(self@.e00, self@.e21, LIM as int, LIM as int);
            lemma_mul_bound(self@.e00, self@.e11, LIM as int, LIM as int);
            lemma_mul_bound(self@.e10, self@.e01, LIM as int, LIM as int);
            lemma_mul_bound(self@.e11 * self@.e22 - self@.e21 * self@.e12, self@.d, 2 * (LIM as int * LIM as int), LIM as int);
            lemma_mul_bound(self@.e21 * self@.e02 - self@.e01 * self@.e22, self@.d, 2 * (LIM as int * LIM as int), LIM as int);
            lemma_mul_bound(self@.e01 * self@.e12 - self@.e11 * self@.e02, self@.d, 2 * (LIM as int * LIM as int), LIM as int);
            lemma_mul_bound(self@.e12 * self@.e20 - self@.e22 * self@.e10, self@.d, 2 * (LIM as int * LIM as int), LIM as int);
            lemma_mul_bound(self@.e22 * self@.e00 - self@.e02 * self@.e20, self@.d, 2 * (LIM as int * LIM as int), LIM as int);
            lemma_mul_bound(self@.e02 * self@.e10 - self@.e12 * self@.e00, self@.d, 2 * (LIM as int * LIM as int), LIM as int);
            lemma_mul_bound(self@.e10 * self@.e21 - self@.e20 * self@.e11, self@.d, 2 * (LIM as int * LIM as int), LIM as int);
            lemma_mul_bound(self@.e20 * self@.e01 - self@.e00 * self@.e21, self@.d, 2 * (LIM as int * LIM as int), LIM as int);
            lemma_mul_bound(self@.e00 * self@.e11 - self@.e10 * self@.e01, self@.d, 2 * (LIM as int * LIM as int), LIM as int);
            lemma_mul_bound(self@.e10 * self@.e21 - self@.e20 * self@.e11, self@.e02, 2 * (LIM as int * LIM as int), LIM as int);
            lemma_mul_bound(self@.e20 * self@.e01 - self@.e00 * self@.e21, self@.e12, 2 * (LIM as int * LIM as int), LIM as int);
            lemma_mul_bound(self@.e00 * self@.e11 - self@.e10 * self@.e01, self@.e22, 2 * (LIM as int * LIM as int), LIM as int);
        }
        let r00 = self.n11 * self.n22 - self.n21 * self.n12;
        let r01 = self.n21 * self.n02 - self.n01 * self.n22;
        let r02 = self.n01 * self.n12 - self.n11 * self.n02;
        let r10 = self.n12 * self.n20 - self.n22 * self.n10;
        let r11 = self.n22 * self.n00 - self.n02 * self.n20;
        let r12 = self.n02 * self.n10 - self.n12 * self.n00;
        let r20 = self.n10 * self.n21 - self.n20 * self.n11;
        let r21 = self.n20 * self.n01 - self.n00 * self.n21;
        let r22 = self.n00 * self.n11 - self.n10 * self.n01;
        let det = r20 * self.n02 + r21 * self.n12 + r22 * self.n22;
        if det >= 0 {
            Matrix3 {
                n00: self.den * r00,
                n01: self.den * r01,
                n02: self.den * r02,
                n10: self.den * r10,
                n11: self.den * r11,
                n12: self.den * r12,
                n20: self.den * r20,
                n21: self.den * r21,
                n22: self.den * r22,
                den: det,
            }
        } else {
            Matrix3 {
                n00: -(self.den * r00),
                n01: -(self.den * r01),
                n02: -(self.den * r02),
                n10: -(self.den * r10),
                n11: -(self.den * r11),
                n12: -(self.den * r12),
                n20: -(self.den * r20),
                n21: -(self.den * r21),
                n22: -(self.den * r22),
                den: -det,
            }
        }
    }

    /// Replaces this matrix with it divided by `s`.
    pub fn div_assign(&mut self, s: &Scalar)
        requires
            old(self).bounded(),
            s.bounded(),
            s@.n != 0,
        ensures
            final(self)@ == old(self)@.scale(s@.recip()),
            final(self).wf(),
    {
        *self = self.div(s);
    }

    /// The rotation matrix about the unit axis `a`, given the cosine `c`
    /// and sine `s` of the angle (Rodrigues' formula).
    pub fn make_rotation(c: &Scalar, s: &Scalar, a: &Vector3) -> (r: Matrix3)
        requires
            c.bounded(),
            s.bounded(),
            a.bounded(),
        ensures
            r@ == M3::rotation(c@, s@, a@),
            r.wf(),
    {
        proof {
            lemma_mul_bound(a@.x, c@.d - c@.n, LIM as int, 2 * LIM as int);
            lemma_mul_bound(a@.y, c@.d - c@.n, LIM as int, 2 * LIM as int);
            lemma_mul_bound(a@.z, c@.d - c@.n, LIM as int, 2 * LIM as int);
            lemma_mul_bound(a@.d, a@.d, LIM as int, LIM as int);
            lemma_mul_bound(s@.d, a@.d * a@.d, LIM as int, (LIM as int * LIM as int));
            lemma_mul_bound(c@.n, s@.d * (a@.d * a@.d), LIM as int, (LIM as int * LIM as int * LIM as int));
            lemma_mul_bound(c@.d, s@.d * (a@.d * a@.d), LIM as int, (LIM as int * LIM as int * LIM as int));
            lemma_mul_bound(c@.d, a@.d, LIM as int, LIM as int);
            lemma_mul_bound(s@.n, a@.x, LIM as int, LIM as int);
            lemma_mul_bound(s@.n, a@.y, LIM as int, LIM as int);
            lemma_mul_bound(s@.n, a@.z, LIM as int, LIM as int);
            lemma_mul_bound(a@.x * (c@.d - c@.n), a@.x, 2 * (LIM as int * LIM as int), LIM as int);
            lemma_mul_bound(a@.x * (c@.d - c@.n), a@.y, 2 * (LIM as int * LIM as int), LIM as int);
            lemma_mul_bound(a@.x * (c@.d - c@.n), a@.z, 2 * (LIM as int * LIM as int), LIM as int);
            lemma_mul_bound(a@.y * (c@.d - c@.n), a@.y, 2 * (LIM as int * LIM as int), LIM as int);
            lemma_mul_bound(a@.y * (c@.d - c@.n), a@.z, 2 * (LIM as int * LIM as int), LIM as int);
            lemma_mul_bound(a@.z * (c@.d - c@.n), a@.z, 2 * (LIM as int * LIM as int), LIM as int);
            lemma_mul_bound((a@.x * (c@.d - c@.n)) * a@.x, s@.d, 2 * (LIM as int * LIM as int * LIM as int), LIM as int);
            lemma_mul_bound((a@.x * (c@.d - c@.n)) * a@.y, s@.d, 2 * (LIM as int * LIM as int * LIM as int), LIM as int);
            lemma_mul_bound((a@.x * (c@.d - c@.n)) * a@.z, s@.d, 2 * (LIM as int * LIM as int * LIM as int), LIM as int);
            lemma_mul_bound((a@.y * (c@.d - c@.n)) * a@.y, s@.d, 2 * (LIM as int * LIM as int * LIM as int), LIM as int);
            lemma_mul_bound((a@.y * (c@.d - c@.n)) * a@.z, s@.d, 2 * (LIM as int * LIM as int * LIM as int), LIM as int);
            lemma_mul_bound((a@.z * (c@.d - c@.n)) * a@.z, s@.d, 2 * (LIM as int * LIM as int * LIM as int), LIM as int);
            lemma_mul_bound(s@.n * a@.x, c@.d * a@.d, (LIM as int * LIM as int), (LIM as int * LIM as int));
            lemma_mul_bound(s@.n * a@.y, c@.d * a@.d, (LIM as int * LIM as int), (LIM as int * LIM as int));
            lemma_mul_bound(s@.n * a@.z, c@.d * a@.d, (LIM as int * LIM as int), (LIM as int * LIM as int));
            lemma_mul_pos(a@.d, a@.d);
            lemma_mul_pos(s@.d, a@.d * a@.d);
            lemma_mul_pos(c@.d, s@.d * (a@.d * a@.d));
        }
        let f = c.d - c.n;
        let x = a.x * f;
        let y = a.y * f;
        let z = a.z * f;
        let dia = c.n * (s.d * (a.den * a.den));
        let cda = c.d * a.den;
        Matrix3 {
            n00: dia + (x * a.x) * s.d,
            n01: (x * a.y) * s.d - (s.n * a.z) * cda,
            n02: (x * a.z) * s.d + (s.n * a.y) * cda,
            n10: (x * a.y) * s.d + (s.n * a.z) * cda,
            n11: dia + (y * a.y) * s.d,
            n12: (y * a.z) * s.d - (s.n * a.x) * cda,
            n20: (x * a.z) * s.d - (s.n * a.y) * cda,
            n21: (y * a.z) * s.d + (s.n * a.x) * cda,
            n22: dia + (z * a.z) * s.d,
            den: c.d * (s.d * (a.den * a.den)),
        }
    }

    /// The rotation matrix about the x axis, given the cosine `c` and sine
    /// `s` of the angle.
    pub fn make_rotation_x(c: &Scalar, s: &Scalar) -> (r: Matrix3)
        requires
            c.bounded(),
            s.bounded(),
        ensures
            r@ == M3::rotation_x(c@, s@),
            r.wf(),
    {
        proof {
            lemma_mul_bound(c@.d, s@.d, LIM as int, LIM as int);
            lemma_mul_bound(c@.n, s@.d, LIM as int, LIM as int);
            lemma_mul_bound(s@.n, c@.d, LIM as int, LIM as int);
            lemma_mul_pos(c@.d, s@.d);
        }
        Matrix3 {
            n00: c.d * s.d,
            n01: 0,
            n02: 0,
            n10: 0,
            n11: c.n * s.d,
            n12: -(s.n * c.d),
            n20: 0,
            n21: s.n * c.d,
            n22: c.n * s.d,
            den: c.d * s.d,
        }
    }

    /// The rotation matrix about the y axis, given the cosine `c` and sine
    /// `s` of the angle.
    pub fn make_rotation_y(c: &Scalar, s: &Scalar) -> (r: Matrix3)
        requires
            c.bounded(),
            s.bounded(),
        ensures
            r@ == M3::rotation_y(c@, s@),
            r.wf(),
    {
        proof {
            lemma_mul_bound(c@.d, s@.d, LIM as int, LIM as int);
            lemma_mul_bound(c@.n, s@.d, LIM as int, LIM as int);
            lemma_mul_bound(s@.n, c@.d, LIM as int, LIM as int);
            lemma_mul_pos(c@.d, s@.d);
        }
        Matrix3 {
            n00: c.n * s.d,
            n01: 0,
            n02: s.n * c.d,
            n10: 0,
            n11: c.d * s.d,
            n12: 0,
            n20: -(s.n * c.d),
            n21: 0,
            n22: c.n * s.d,
            den: c.d * s.d,
        }
    }

    /// The rotation matrix about the z axis, given the cosine `c` and sine
    /// `s` of the angle.
    pub fn make_rotation_z(c: &Scalar, s: &Scalar) -> (r: Matrix3)
        requires
            c.bounded(),
            s.bounded(),
        ensures
            r@ == M3::rotation_z(c@, s@),
            r.wf(),
    {
        proof {
            lemma_mul_bound(c@.d, s@.d, LIM as int, LIM as int);
            lemma_mul_bound(c@.n, s@.d, LIM as int, LIM as int);
            lemma_mul_bound(s@.n, c@.d, LIM as int, LIM as int);
            lemma_mul_pos(c@.d, s@.d);
        }
        Matrix3 {
            n00: c.n * s.d,
            n01: -(s.n * c.d),
            n02: 0,
            n10: s.n * c.d,
            n11: c.n * s.d,
            n12: 0,
            n20: 0,
            n21: 0,
            n22: c.d * s.d,
            den: c.d * s.d,
        }
    }

    /// The skew matrix with tangent `t` along the unit direction `a`,
    /// varying with the projection onto the unit direction `b`.
    pub fn make_skew(t: &Scalar, a: &Vector3, b: &Vector3) -> (r: Matrix3)
        requires
            t.bounded(),
            a.bounded(),
            b.bounded(),
        ensures
            r@ == M3::skew(t@, a@, b@),
            r.wf(),
    {
        proof {
            lemma_mul_bound(a@.d, b@.d, LIM as int, LIM as int);
            lemma_mul_bound(t@.d, a@.d * b@.d, LIM as int, (LIM as int * LIM as int));
            lemma_mul_bound(a@.x, b@.x, LIM as int, LIM as int);
            lemma_mul_bound(a@.x, b@.y, LIM as int, LIM as int);
            lemma_mul_bound(a@.x, b@.z, LIM as int, LIM as int);
            lemma_mul_bound(a@.y, b@.x, LIM as int, LIM as int);
            lemma_mul_bound(a@.y, b@.y, LIM as int, LIM as int);
            lemma_mul_bound(a@.y, b@.z, LIM as int, LIM as int);
            lemma_mul_bound(a@.z, b@.x, LIM as int, LIM as int);
            lemma_mul_bound(a@.z, b@.y, LIM as int, LIM as int);
            lemma_mul_bound(a@.z, b@.z, LIM as int, LIM as int);
            lemma_mul_bound(t@.n, a@.x * b@.x, LIM as int, (LIM as int * LIM as int));
            lemma_mul_bound(t@.n, a@.x * b@.y, LIM as int, (LIM as int * LIM as int));
            lemma_mul_bound(t@.n, a@.x * b@.z, LIM as int, (LIM as int * LIM as int));
            lemma_mul_bound(t@.n, a@.y * b@.x, LIM as int, (LIM as int * LIM as int));
            lemma_mul_bound(t@.n, a@.y * b@.y, LIM as int, (LIM as int * LIM as int));
            lemma_mul_bound(t@.n, a@.y * b@.z, LIM as int, (LIM as int * LIM as int));
            lemma_mul_bound(t@.n, a@.z * b@.x, LIM as int, (LIM as int * LIM as int));
            lemma_mul_bound(t@.n, a@.z * b@.y, LIM as int, (LIM as int * LIM as int));
            lemma_mul_bound(t@.n, a@.z * b@.z, LIM as int, (LIM as int * LIM as int));
            lemma_mul_pos(a@.d, b@.d);
            lemma_mul_pos(t@.d, a@.d * b@.d);
        }
        let dd = t.d * (a.den * b.den);
        Matrix3 {
            n00: dd + t.n * (a.x * b.x),
            n01: t.n * (a.x * b.y),
            n02: t.n * (a.x * b.z),
            n10: t.n * (a.y * b.x),
            n11: dd + t.n * (a.y * b.y),
            n12: t.n * (a.y * b.z),
            n20: t.n * (a.z * b.x),
            n21: t.n * (a.z * b.y),
            n22: dd + t.n * (a.z * b.z),
            den: dd,
        }
    }

    /// The matrix that scales by the factor `s` along the unit direction
    /// `a`.
    pub fn make_scale_vec(s: &Scalar, a: &Vector3) -> (r: Matrix3)
        requires
            s.bounded(),
            a.bounded(),
        ensures
            r@ == M3::scale_along(s@, a@),
            r.wf(),
    {
        proof {
            lemma_mul_bound(a@.d, a@.d, LIM as int, LIM as int);
            lemma_mul_bound(s@.d, a@.d * a@.d, LIM as int, (LIM as int * LIM as int));
            lemma_mul_bound(a@.x, a@.x, LIM as int, LIM as int);
            lemma_mul_bound(a@.x, a@.y, LIM as int, LIM as int);
            lemma_mul_bound(a@.x, a@.z, LIM as int, LIM as int);
            lemma_mul_bound(a@.y, a@.y, LIM as int, LIM as int);
            lemma_mul_bound(a@.y, a@.z, LIM as int, LIM as int);
            lemma_mul_bound(a@.z, a@.z, LIM as int, LIM as int);
            lemma_mul_bound(s@.n - s@.d, a@.x * a@.x, 2 * LIM as int, (LIM as int * LIM as int));
            lemma_mul_bound(s@.n - s@.d, a@.x * a@.y, 2 * LIM as int, (LIM as int * LIM as int));
            lemma_mul_bound(s@.n - s@.d, a@.x * a@.z, 2 * LIM as int, (LIM as int * LIM as int));
            lemma_mul_bound(s@.n - s@.d, a@.y * a@.y, 2 * LIM as int, (LIM as int * LIM as int));
            lemma_mul_bound(s@.n - s@.d, a@.y * a@.z, 2 * LIM as int, (LIM as int * LIM as int));
            lemma_mul_bound(s@.n - s@.d, a@.z * a@.z, 2 * LIM as int, (LIM as int * LIM as int));
            lemma_mul_pos(a@.d, a@.d);
            lemma_mul_pos(s@.d, a@.d * a@.d);
        }
        let f = s.n - s.d;
        let dd = s.d * (a.den * a.den);
        Matrix3 {
            n00: dd + (f * (a.x * a.x)),
            n01: f * (a.x * a.y),
            n02: f * (a.x * a.z),
            n10: f * (a.x * a.y),
            n11: dd + (f * (a.y * a.y)),
            n12: f * (a.y * a.z),
            n20: f * (a.x * a.z),
            n21: f * (a.y * a.z),
            n22: dd + (f * (a.z * a.z)),
            den: dd,
        }
    }

    /// The involution through the unit direction `a`.
    pub fn make_involution(a: &Vector3) -> (r: Matrix3)
        requires
            a.bounded(),
        ensures
            r@ == M3::involution(a@),
            r.wf(),
    {
        proof {
            lemma_mul_bound(a@.d, a@.d, LIM as int, LIM as int);
            lemma_mul_bound(a@.x, a@.x, LIM as int, LIM as int);
            lemma_mul_bound(a@.x, a@.y, LIM as int, LIM as int);
            lemma_mul_bound(a@.x, a@.z, LIM as int, LIM as int);
            lemma_mul_bound(a@.y, a@.y, LIM as int, LIM as int);
            lemma_mul_bound(a@.y, a@.z, LIM as int, LIM as int);
            lemma_mul_bound(a@.z, a@.z, LIM as int, LIM as int);
            lemma_mul_pos(a@.d, a@.d);
        }
        let dd = a.den * a.den;
        Matrix3 {
            n00: 2 * (a.x * a.x) - dd,
            n01: 2 * (a.x * a.y),
            n02: 2 * (a.x * a.z),
            n10: 2 * (a.x * a.y),
            n11: 2 * (a.y * a.y) - dd,
            n12: 2 * (a.y * a.z),
            n20: 2 * (a.x * a.z),
            n21: 2 * (a.y * a.z),
            n22: 2 * (a.z * a.z) - dd,
            den: dd,
        }
    }

    /// The reflection through the plane perpendicular to the unit
    /// direction `a`.
    pub fn make_reflection(a: &Vector3) -> (r: Matrix3)
        requires
            a.bounded(),
        ensures
            r@ == M3::reflection(a@),
            r.wf(),
    {
        proof {
            lemma_mul_bound(a@.d, a@.d, LIM as int, LIM as int);
            lemma_mul_bound(a@.x, a@.x, LIM as int, LIM as int);
            lemma_mul_bound(a@.x, a@.y, LIM as int, LIM as int);
            lemma_mul_bound(a@.x, a@.z, LIM as int, LIM as int);
            lemma_mul_bound(a@.y, a@.y, LIM as int, LIM as int);
            lemma_mul_bound(a@.y, a@.z, LIM as int, LIM as int);
            lemma_mul_bound(a@.z, a@.z, LIM as int, LIM as int);
            lemma_mul_pos(a@.d, a@.d);
        }
        let dd = a.den * a.den;
        Matrix3 {
            n00: dd - 2 * (a.x * a.x),
            n01: -(2 * (a.x * a.y)),
            n02: -(2 * (a.x * a.z)),
            n10: -(2 * (a.x * a.y)),
            n11: dd - 2 * (a.y * a.y),
            n12: -(2 * (a.y * a.z)),
            n20: -(2 * (a.x * a.z)),
            n21: -(2 * (a.y * a.z)),
            n22: dd - 2 * (a.z * a.z),
            den: dd,
        }
    }

    /// The diagonal scale by `sx`, `sy` and `sz` along the three axes.
    pub fn make_scale(sx: &Scalar, sy: &Scalar, sz: &Scalar) -> (r: Matrix3)
        requires
            sx.bounded(),
            sy.bounded(),
            sz.bounded(),
        ensures
            r@ == M3::scale_diag(sx@, sy@, sz@),
            r.wf(),
    {
        proof {
            lemma_mul_bound(sy@.d, sz@.d, LIM as int, LIM as int);
            lemma_mul_bound(sx@.d, sz@.d, LIM as int, LIM as int);
            lemma_mul_bound(sx@.d, sy@.d, LIM as int, LIM as int);
            lemma_mul_bound(sx@.n, sy@.d * sz@.d, LIM as int, (LIM as int * LIM as int));
            lemma_mul_bound(sy@.n, sx@.d * sz@.d, LIM as int, (LIM as int * LIM as int));
            lemma_mul_bound(sz@.n, sx@.d * sy@.d, LIM as int, (LIM as int * LIM as int));
            lemma_mul_bound(sx@.d, sy@.d * sz@.d, LIM as int, (LIM as int * LIM as int));
            lemma_mul_pos(sy@.d, sz@.d);
            lemma_mul_pos(sx@.d, sy@.d * sz@.d);
        }
        Matrix3 {
            n00: sx.n * (sy.d * sz.d),
            n01: 0,
            n02: 0,
            n10: 0,
            n11: sy.n * (sx.d * sz.d),
            n12: 0,
            n20: 0,
            n21: 0,
            n22: sz.n * (sx.d * sy.d),
            den: sx.d * (sy.d * sz.d),
        }
    }

    /// Scale along the x axis only.
    pub fn make_scale_x(s: &Scalar) -> (r: Matrix3)
        requires
            s.bounded(),
        ensures
            r@ == (M3 {
                e00: s@.n,
                e01: 0,
                e02: 0,
                e10: 0,
                e11: s@.d,
                e12: 0,
                e20: 0,
                e21: 0,
                e22: s@.d,
                d: s@.d,
            }),
            r.wf(),
    {
        Matrix3 {
            n00: s.n,
            n01: 0,
            n02: 0,
            n10: 0,
            n11: s.d,
            n12: 0,
            n20: 0,
            n21: 0,
            n22: s.d,
            den: s.d,
        }
    }

    /// Scale along the y axis only.
    pub fn make_scale_y(s: &Scalar) -> (r: Matrix3)
        requires
            s.bounded(),
        ensures
            r@ == (M3 {
                e00: s@.d,
                e01: 0,
                e02: 0,
                e10: 0,
                e11: s@.n,
                e12: 0,
                e20: 0,
                e21: 0,
                e22: s@.d,
                d: s@.d,
            }),
            r.wf(),
    {
        Matrix3 {
            n00: s.d,
            n01: 0,
            n02: 0,
            n10: 0,
            n11: s.n,
            n12: 0,
            n20: 0,
            n21: 0,
            n22: s.d,
            den: s.d,
        }
    }

    /// Scale along the z axis only.
    pub fn make_scale_z(s: &Scalar) -> (r: Matrix3)
        requires
            s.bounded(),
        ensures
            r@ == (M3 {
                e00: s@.d,
                e01: 0,
                e02: 0,
                e10: 0,
                e11: s@.d,
                e12: 0,
                e20: 0,
                e21: 0,
                e22: s@.n,
                d: s@.d,
            }),
            r.wf(),
    {
        Matrix3 {
            n00: s.d,
            n01: 0,
            n02: 0,
            n10: 0,
            n11: s.d,
            n12: 0,
            n20: 0,
            n21: 0,
            n22: s.n,
            den: s.d,
        }
    }
}

/// A product with a negated factor is the negated product.
pub(crate) proof fn lemma_neg_mul(a: int, b: int)
    by (nonlinear_arith)
    ensures
        a * (-b) == -(a * b),
{
}

/// Distributes a common positive factor out of a three-term sum of
/// products, in both sign arrangements.
pub(crate) proof fn lemma_factor3(p: int, q: int, r: int, u: int, v: int, w: int, dd: int)
    ensures
        p * (dd * u) + q * (dd * v) + r * (dd * w) == dd * (p * u + q * v + r * w),
        p * (-(dd * u)) + q * (-(dd * v)) + r * (-(dd * w)) == -(dd * (p * u + q * v + r * w)),
{
    vstd::arithmetic::mul::lemma_mul_is_associative(p, dd, u);
    vstd::arithmetic::mul::lemma_mul_is_commutative(p, dd);
    vstd::arithmetic::mul::lemma_mul_is_associative(dd, p, u);
    vstd::arithmetic::mul::lemma_mul_is_associative(q, dd, v);
    vstd::arithmetic::mul::lemma_mul_is_commutative(q, dd);
    vstd::arithmetic::mul::lemma_mul_is_associative(dd, q, v);
    vstd::arithmetic::mul::lemma_mul_is_associative(r, dd, w);
    vstd::arithmetic::mul::lemma_mul_is_commutative(r, dd);
    vstd::arithmetic::mul::lemma_mul_is_associative(dd, r, w);
    vstd::arithmetic::mul::lemma_mul_is_distributive_add(dd, p * u, q * v);
    vstd::arithmetic::mul::lemma_mul_is_distributive_add(dd, p * u + q * v, r * w);
    lemma_neg_mul(p, dd * u);
    lemma_neg_mul(q, dd * v);
    lemma_neg_mul(r, dd * w);
}

/// One row of the adjugate identity: the cofactor rows carry each matrix
/// row back to the determinant on the diagonal and to zero off it.
pub(crate) proof fn lemma_adjugate3_row0(
    a00: int,
    a01: int,
    a02: int,
    a10: int,
    a11: int,
    a12: int,
    a20: int,
    a21: int,
    a22: int,
)
    ensures
        a00 * (a11 * a22 - a21 * a12) + a01 * (a12 * a20 - a22 * a10) + a02 * (a10 * a21 - a20 * a11) == ((a10 * a21 - a20 * a11) * a02 + (a20 * a01 - a00 * a21) * a12 + (a00 * a11 - a10 * a01) * a22),
        a00 * (a21 * a02 - a01 * a22) + a01 * (a22 * a00 - a02 * a20) + a02 * (a20 * a01 - a00 * a21) == 0,
        a00 * (a01 * a12 - a11 * a02) + a01 * (a02 * a10 - a12 * a00) + a02 * (a00 * a11 - a10 * a01) == 0,
{
    broadcast use vstd::arithmetic::mul::group_mul_is_commutative_and_distributive;
    broadcast use vstd::arithmetic::mul::lemma_mul_is_associative;
}

pub(crate) proof fn lemma_adjugate3_row1(
    a00: int,
    a01: int,
    a02: int,
    a10: int,
    a11: int,
    a12: int,
    a20: int,
    a21: int,
    a22: int,
)
    ensures
        a10 * (a11 * a22 - a21 * a12) + a11 * (a12 * a20 - a22 * a10) + a12 * (a10 * a21 - a20 * a11) == 0,
        a10 * (a21 * a02 - a01 * a22) + a11 * (a22 * a00 - a02 * a20) + a12 * (a20 * a01 - a00 * a21) == ((a10 * a21 - a20 * a11) * a02 + (a20 * a01 - a00 * a21) * a12 + (a00 * a11 - a10 * a01) * a22),
        a10 * (a01 * a12 - a11 * a02) + a11 * (a02 * a10 - a12 * a00) + a12 * (a00 * a11 - a10 * a01) == 0,
{
    broadcast use vstd::arithmetic::mul::group_mul_is_commutative_and_distributive;
    broadcast use vstd::arithmetic::mul::lemma_mul_is_associative;
}

pub(crate) proof fn lemma_adjugate3_row2(
    a00: int,
    a01: int,
    a02: int,
    a10: int,
    a11: int,
    a12: int,
    a20: int,
    a21: int,
    a22: int,
)
    ensures
        a20 * (a11 * a22 - a21 * a12) + a21 * (a12 * a20 - a22 * a10) + a22 * (a10 * a21 - a20 * a11) == 0,
        a20 * (a21 * a02 - a01 * a22) + a21 * (a22 * a00 - a02 * a20) + a22 * (a20 * a01 - a00 * a21) == 0,
        a20 * (a01 * a12 - a11 * a02) + a21 * (a02 * a10 - a12 * a00) + a22 * (a00 * a11 - a10 * a01) == ((a10 * a21 - a20 * a11) * a02 + (a20 * a01 - a00 * a21) * a12 + (a00 * a11 - a10 * a01) * a22),
{
    broadcast use vstd::arithmetic::mul::group_mul_is_commutative_and_distributive;
    broadcast use vstd::arithmetic::mul::lemma_mul_is_associative;
}


/// A matrix with nonzero determinant, multiplied by its `inverse`, is the
/// identity.
pub proof fn lemma_mul_inverse(m: M3)
    requires
        m.wf(),
        m.det_num() != 0,
    ensures
        m.mul(m.inverse()).eq_rat(M3::identity()),
{
    let r00 = m.e11 * m.e22 - m.e21 * m.e12;
    let r01 = m.e21 * m.e02 - m.e01 * m.e22;
    let r02 = m.e01 * m.e12 - m.e11 * m.e02;
    let r10 = m.e12 * m.e20 - m.e22 * m.e10;
    let r11 = m.e22 * m.e00 - m.e02 * m.e20;
    let r12 = m.e02 * m.e10 - m.e12 * m.e00;
    let r20 = m.e10 * m.e21 - m.e20 * m.e11;
    let r21 = m.e20 * m.e01 - m.e00 * m.e21;
    let r22 = m.e00 * m.e11 - m.e10 * m.e01;
    lemma_adjugate3_row0(m.e00, m.e01, m.e02, m.e10, m.e11, m.e12, m.e20, m.e21, m.e22);
    lemma_adjugate3_row1(m.e00, m.e01, m.e02, m.e10, m.e11, m.e12, m.e20, m.e21, m.e22);
    lemma_adjugate3_row2(m.e00, m.e01, m.e02, m.e10, m.e11, m.e12, m.e20, m.e21, m.e22);
    lemma_factor3(m.e00, m.e01, m.e02, r00, r10, r20, m.d);
    lemma_factor3(m.e00, m.e01, m.e02, r01, r11, r21, m.d);
    lemma_factor3(m.e00, m.e01, m.e02, r02, r12, r22, m.d);
    lemma_factor3(m.e10, m.e11, m.e12, r00, r10, r20, m.d);
    lemma_factor3(m.e10, m.e11, m.e12, r01, r11, r21, m.d);
    lemma_factor3(m.e10, m.e11, m.e12, r02, r12, r22, m.d);
    lemma_factor3(m.e20, m.e21, m.e22, r00, r10, r20, m.d);
    lemma_factor3(m.e20, m.e21, m.e22, r01, r11, r21, m.d);
    lemma_factor3(m.e20, m.e21, m.e22, r02, r12, r22, m.d);
    lemma_neg_mul(m.d, m.det_num());
}

/// Transposing twice gives the matrix back, exactly.
pub proof fn lemma_transpose_involution(m: M3)
    ensures
        m.transpose().transpose() == m,
{
}

/// The identity matrix leaves every vector unchanged.
pub proof fn lemma_identity_mul_vec(v: V3)
    requires
        v.wf(),
    ensures
        M3::identity().mul_vec(v).eq_rat(v),
{
}

/// One component of the associativity of application: multiplying the
/// matrices first and applying them gives the same numerators as applying
/// them one after the other.
pub(crate) proof fn lemma_assoc_comp(
    a0: int,
    a1: int,
    a2: int,
    b00: int,
    b01: int,
    b02: int,
    b10: int,
    b11: int,
    b12: int,
    b20: int,
    b21: int,
    b22: int,
    vx: int,
    vy: int,
    vz: int,
)
    ensures
        (a0 * b00 + a1 * b10 + a2 * b20) * vx + (a0 * b01 + a1 * b11 + a2 * b21) * vy + (a0 * b02
            + a1 * b12 + a2 * b22) * vz == a0 * (b00 * vx + b01 * vy + b02 * vz) + a1 * (b10 * vx
            + b11 * vy + b12 * vz) + a2 * (b20 * vx + b21 * vy + b22 * vz),
{
    broadcast use vstd::arithmetic::mul::group_mul_is_commutative_and_distributive;
    broadcast use vstd::arithmetic::mul::lemma_mul_is_associative;
}

/// Composing two matrices and applying the composite to a vector is the
/// application of the first to the image under the second, exactly: the
/// two sides agree numerator for numerator.
pub proof fn lemma_mul_vec_assoc(m1: M3, m2: M3, v: V3)
    ensures
        m1.mul(m2).mul_vec(v) == m1.mul_vec(m2.mul_vec(v)),
{
    lemma_assoc_comp(
        m1.e00, m1.e01, m1.e02,
        m2.e00, m2.e01, m2.e02, m2.e10, m2.e11, m2.e12, m2.e20, m2.e21, m2.e22,
        v.x, v.y, v.z,
    );
    lemma_assoc_comp(
        m1.e10, m1.e11, m1.e12,
        m2.e00, m2.e01, m2.e02, m2.e10, m2.e11, m2.e12, m2.e20, m2.e21, m2.e22,
        v.x, v.y, v.z,
    );
    lemma_assoc_comp(
        m1.e20, m1.e21, m1.e22,
        m2.e00, m2.e01, m2.e02, m2.e10, m2.e11, m2.e12, m2.e20, m2.e21, m2.e22,
        v.x, v.y, v.z,
    );
    vstd::arithmetic::mul::lemma_mul_is_associative(m1.d, m2.d, v.d);
}

/// Component 0 of the cross product of two images: the cross product
/// of the images of `u` and `v` under the matrix is the adjugate rows
/// applied to the cross product of `u` and `v`, over plain integers.
#[verifier::spinoff_prover]
#[verifier::rlimit(100)]
proof fn lemma_cross_images_0(
    a00: int,
    a01: int,
    a02: int,
    a10: int,
    a11: int,
    a12: int,
    a20: int,
    a21: int,
    a22: int,
    u0: int,
    u1: int,
    u2: int,
    v0: int,
    v1: int,
    v2: int,
)
    ensures
        (a10 * u0 + a11 * u1 + a12 * u2) * (a20 * v0 + a21 * v1 + a22 * v2) - (a20 * u0 + a21 * u1 + a22 * u2) * (a10 * v0 + a11 * v1 + a12 * v2) == (u1 * v2 - u2 * v1) * (a11 * a22 - a21 * a12) + (u2 * v0 - u0 * v2) * (a12 * a20 - a22 * a10) + (u0 * v1 - u1 * v0) * (a10 * a21 - a20 * a11),
{
    broadcast use vstd::arithmetic::mul::group_mul_is_commutative_and_distributive;
    broadcast use vstd::arithmetic::mul::lemma_mul_is_associative;
}

/// Component 1 of the cross product of two images: the cross product
/// of the images of `u` and `v` under the matrix is the adjugate rows
/// applied to the cross product of `u` and `v`, over plain integers.
#[verifier::spinoff_prover]
#[verifier::rlimit(100)]
proof fn lemma_cross_images_1(
    a00: int,
    a01: int,
    a02: int,
    a10: int,
    a11: int,
    a12: int,
    a20: int,
    a21: int,
    a22: int,
    u0: int,
    u1: int,
    u2: int,
    v0: int,
    v1: int,
    v2: int,
)
    ensures
        (a20 * u0 + a21 * u1 + a22 * u2) * (a00 * v0 + a01 * v1 + a02 * v2) - (a00 * u0 + a01 * u1 + a02 * u2) * (a20 * v0 + a21 * v1 + a22 * v2) == (u1 * v2 - u2 * v1) * (a21 * a02 - a01 * a22) + (u2 * v0 - u0 * v2) * (a22 * a00 - a02 * a20) + (u0 * v1 - u1 * v0) * (a20 * a01 - a00 * a21),
{
    broadcast use vstd::arithmetic::mul::group_mul_is_commutative_and_distributive;
    broadcast use vstd::arithmetic::mul::lemma_mul_is_associative;
}

/// Component 2 of the cross product of two images: the cross product
/// of the images of `u` and `v` under the matrix is the adjugate rows
/// applied to the cross product of `u` and `v`, over plain integers.
#[verifier::spinoff_prover]
#[verifier::rlimit(100)]
proof fn lemma_cross_images_2(
    a00: int,
    a01: int,
    a02: int,
    a10: int,
    a11: int,
    a12: int,
    a20: int,
    a21: int,
    a22: int,
    u0: int,
    u1: int,
    u2: int,
    v0: int,
    v1: int,
    v2: int,
)
    ensures
        (a00 * u0 + a01 * u1 + a02 * u2) * (a10 * v0 + a11 * v1 + a12 * v2) - (a10 * u0 + a11 * u1 + a12 * u2) * (a00 * v0 + a01 * v1 + a02 * v2) == (u1 * v2 - u2 * v1) * (a01 * a12 - a11 * a02) + (u2 * v0 - u0 * v2) * (a02 * a10 - a12 * a00) + (u0 * v1 - u1 * v0) * (a00 * a11 - a10 * a01),
{
    broadcast use vstd::arithmetic::mul::group_mul_is_commutative_and_distributive;
    broadcast use vstd::arithmetic::mul::lemma_mul_is_associative;
}

/// Row 0 of the left adjugate identity: the adjugate rows applied to
/// the matrix columns give the determinant on the diagonal and zero off
/// it, over plain integers.
proof fn lemma_left_adjugate3_row0(
    a00: int,
    a01: int,
    a02: int,
    a10: int,
    a11: int,
    a12: int,
    a20: int,
    a21: int,
    a22: int,
)
    ensures
        (a11 * a22 - a21 * a12) * a00 + (a21 * a02 - a01 * a22) * a10 + (a01 * a12 - a11 * a02) * a20 == ((a10 * a21 - a20 * a11) * a02 + (a20 * a01 - a00 * a21) * a12 + (a00 * a11 - a10 * a01) * a22),
        (a11 * a22 - a21 * a12) * a01 + (a21 * a02 - a01 * a22) * a11 + (a01 * a12 - a11 * a02) * a21 == 0,
        (a11 * a22 - a21 * a12) * a02 + (a21 * a02 - a01 * a22) * a12 + (a01 * a12 - a11 * a02) * a22 == 0,
{
    broadcast use vstd::arithmetic::mul::group_mul_is_commutative_and_distributive;
    broadcast use vstd::arithmetic::mul::lemma_mul_is_associative;
}

/// Row 1 of the left adjugate identity: the adjugate rows applied to
/// the matrix columns give the determinant on the diagonal and zero off
/// it, over plain integers.
proof fn lemma_left_adjugate3_row1(
    a00: int,
    a01: int,
    a02: int,
    a10: int,
    a11: int,
    a12: int,
    a20: int,
    a21: int,
    a22: int,
)
    ensures
        (a12 * a20 - a22 * a10) * a00 + (a22 * a00 - a02 * a20) * a10 + (a02 * a10 - a12 * a00) * a20 == 0,
        (a12 * a20 - a22 * a10) * a01 + (a22 * a00 - a02 * a20) * a11 + (a02 * a10 - a12 * a00) * a21 == ((a10 * a21 - a20 * a11) * a02 + (a20 * a01 - a00 * a21) * a12 + (a00 * a11 - a10 * a01) * a22),
        (a12 * a20 - a22 * a10) * a02 + (a22 * a00 - a02 * a20) * a12 + (a02 * a10 - a12 * a00) * a22 == 0,
{
    broadcast use vstd::arithmetic::mul::group_mul_is_commutative_and_distributive;
    broadcast use vstd::arithmetic::mul::lemma_mul_is_associative;
}

/// Row 2 of the left adjugate identity: the adjugate rows applied to
/// the matrix columns give the determinant on the diagonal and zero off
/// it, over plain integers.
proof fn lemma_left_adjugate3_row2(
    a00: int,
    a01: int,
    a02: int,
    a10: int,
    a11: int,
    a12: int,
    a20: int,
    a21: int,
    a22: int,
)
    ensures
        (a10 * a21 - a20 * a11) * a00 + (a20 * a01 - a00 * a21) * a10 + (a00 * a11 - a10 * a01) * a20 == 0,
        (a10 * a21 - a20 * a11) * a01 + (a20 * a01 - a00 * a21) * a11 + (a00 * a11 - a10 * a01) * a21 == 0,
        (a10 * a21 - a20 * a11) * a02 + (a20 * a01 - a00 * a21) * a12 + (a00 * a11 - a10 * a01) * a22 == ((a10 * a21 - a20 * a11) * a02 + (a20 * a01 - a00 * a21) * a12 + (a00 * a11 - a10 * a01) * a22),
{
    broadcast use vstd::arithmetic::mul::group_mul_is_commutative_and_distributive;
    broadcast use vstd::arithmetic::mul::lemma_mul_is_associative;
}

/// Cubing a product is the product of the cubes.
proof fn lemma_cube_swap(a: int, b: int)
    by (nonlinear_arith)
    ensures
        ((a * b) * (a * b)) * (a * b) == ((a * a) * a) * ((b * b) * b),
{
}

/// The determinant numerator of a product of matrices is the product of
/// the determinant numerators: the cross product of the image columns is
/// the adjugate rows applied to the cross product of the columns, and the
/// adjugate collapses against the matrix to the determinant.
proof fn lemma_det_mul_num(m1: M3, m2: M3)
    ensures
        m1.mul(m2).det_num() == m1.det_num() * m2.det_num(),
{
    let c0 = m2.e10 * m2.e21 - m2.e20 * m2.e11;
    let c1 = m2.e20 * m2.e01 - m2.e00 * m2.e21;
    let c2 = m2.e00 * m2.e11 - m2.e10 * m2.e01;
    let r00 = m1.e11 * m1.e22 - m1.e21 * m1.e12;
    let r01 = m1.e21 * m1.e02 - m1.e01 * m1.e22;
    let r02 = m1.e01 * m1.e12 - m1.e11 * m1.e02;
    let r10 = m1.e12 * m1.e20 - m1.e22 * m1.e10;
    let r11 = m1.e22 * m1.e00 - m1.e02 * m1.e20;
    let r12 = m1.e02 * m1.e10 - m1.e12 * m1.e00;
    let r20 = m1.e10 * m1.e21 - m1.e20 * m1.e11;
    let r21 = m1.e20 * m1.e01 - m1.e00 * m1.e21;
    let r22 = m1.e00 * m1.e11 - m1.e10 * m1.e01;
    lemma_cross_images_0(
        m1.e00, m1.e01, m1.e02, m1.e10, m1.e11, m1.e12, m1.e20, m1.e21, m1.e22,
        m2.e00, m2.e10, m2.e20, m2.e01, m2.e11, m2.e21,
    );
    lemma_cross_images_1(
        m1.e00, m1.e01, m1.e02, m1.e10, m1.e11, m1.e12, m1.e20, m1.e21, m1.e22,
        m2.e00, m2.e10, m2.e20, m2.e01, m2.e11, m2.e21,
    );
    lemma_cross_images_2(
        m1.e00, m1.e01, m1.e02, m1.e10, m1.e11, m1.e12, m1.e20, m1.e21, m1.e22,
        m2.e00, m2.e10, m2.e20, m2.e01, m2.e11, m2.e21,
    );
    lemma_assoc_comp(
        c0, c1, c2,
        r00, r01, r02, r10, r11, r12, r20, r21, r22,
        m1.e00 * m2.e02 + m1.e01 * m2.e12 + m1.e02 * m2.e22,
        m1.e10 * m2.e02 + m1.e11 * m2.e12 + m1.e12 * m2.e22,
        m1.e20 * m2.e02 + m1.e21 * m2.e12 + m1.e22 * m2.e22,
    );
    lemma_assoc_comp(
        r00, r01, r02,
        m1.e00, m1.e01, m1.e02, m1.e10, m1.e11, m1.e12, m1.e20, m1.e21, m1.e22,
        m2.e02, m2.e12, m2.e22,
    );
    lemma_assoc_comp(
        r10, r11, r12,
        m1.e00, m1.e01, m1.e02, m1.e10, m1.e11, m1.e12, m1.e20, m1.e21, m1.e22,
        m2.e02, m2.e12, m2.e22,
    );
    lemma_assoc_comp(
        r20, r21, r22,
        m1.e00, m1.e01, m1.e02, m1.e10, m1.e11, m1.e12, m1.e20, m1.e21, m1.e22,
        m2.e02, m2.e12, m2.e22,
    );
    lemma_left_adjugate3_row0(
        m1.e00, m1.e01, m1.e02, m1.e10, m1.e11, m1.e12, m1.e20, m1.e21, m1.e22,
    );
    lemma_left_adjugate3_row1(
        m1.e00, m1.e01, m1.e02, m1.e10, m1.e11, m1.e12, m1.e20, m1.e21, m1.e22,
    );
    lemma_left_adjugate3_row2(
        m1.e00, m1.e01, m1.e02, m1.e10, m1.e11, m1.e12, m1.e20, m1.e21, m1.e22,
    );
    lemma_factor3(c0, c1, c2, m2.e02, m2.e12, m2.e22, m1.det_num());
}

/// The determinant of a product of matrices is the product of their
/// determinants.
pub proof fn lemma_det_mul(m1: M3, m2: M3)
    ensures
        m1.mul(m2).det_rat().eq_rat(m1.det_rat().mul(m2.det_rat())),
{
    lemma_det_mul_num(m1, m2);
    lemma_cube_swap(m1.d, m2.d);
}

} // verus!
