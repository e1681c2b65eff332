use vstd::prelude::*;

use crate::matrix3::{Matrix3, M3};
use crate::plane::{Plane, P4};
use crate::point3::Point3;
use crate::scalar::{lemma_mul_bound, lemma_mul_pos, Rat, Scalar, LIM};
use crate::vector3::{Vector3, V3};

verus! {

/// The mathematical value of an affine 4x3 transform: three rows of four
/// integer numerators over the common positive denominator `d`. Columns 0
/// to 2 are the linear part; column 3 is the translation. The bottom row
/// `(0, 0, 0, 1)` is never stored.
pub ghost struct T4 {
    pub e00: int,
    pub e01: int,
    pub e02: int,
    pub e03: int,
    pub e10: int,
    pub e11: int,
    pub e12: int,
    pub e13: int,
    pub e20: int,
    pub e21: int,
    pub e22: int,
    pub e23: int,
    pub d: int,
}

impl T4 {
    pub open spec fn wf(self) -> bool {
        self.d > 0
    }

    pub open spec fn bounded(self) -> bool {
        &&& -LIM <= self.e00 <= LIM
        &&& -LIM <= self.e01 <= LIM
        &&& -LIM <= self.e02 <= LIM
        &&& -LIM <= self.e03 <= LIM
        &&& -LIM <= self.e10 <= LIM
        &&& -LIM <= self.e11 <= LIM
        &&& -LIM <= self.e12 <= LIM
        &&& -LIM <= self.e13 <= LIM
        &&& -LIM <= self.e20 <= LIM
        &&& -LIM <= self.e21 <= LIM
        &&& -LIM <= self.e22 <= LIM
        &&& -LIM <= self.e23 <= LIM
        &&& 0 < self.d <= LIM
    }

    /// Equality of the represented transforms, entry by entry.
    pub open spec fn eq_rat(self, o: T4) -> bool {
        &&& self.e00 * o.d == o.e00 * self.d
        &&& self.e01 * o.d == o.e01 * self.d
        &&& self.e02 * o.d == o.e02 * self.d
        &&& self.e03 * o.d == o.e03 * self.d
        &&& self.e10 * o.d == o.e10 * self.d
        &&& self.e11 * o.d == o.e11 * self.d
        &&& self.e12 * o.d == o.e12 * self.d
        &&& self.e13 * o.d == o.e13 * self.d
        &&& self.e20 * o.d == o.e20 * self.d
        &&& self.e21 * o.d == o.e21 * self.d
        &&& self.e22 * o.d == o.e22 * self.d
        &&& self.e23 * o.d == o.e23 * self.d
    }

    pub open spec fn identity() -> T4 {
        T4 {
            e00: 1,
            e01: 0,
            e02: 0,
            e03: 0,
            e10: 0,
            e11: 1,
            e12: 0,
            e13: 0,
            e20: 0,
            e21: 0,
            e22: 1,
            e23: 0,
            d: 1,
        }
    }

    /// The linear part, as a 3x3 matrix over the same denominator.
    pub open spec fn linear(self) -> M3 {
        M3 {
            e00: self.e00,
            e01: self.e01,
            e02: self.e02,
            e10: self.e10,
            e11: self.e11,
            e12: self.e12,
            e20: self.e20,
            e21: self.e21,
            e22: self.e22,
            d: self.d,
        }
    }

    /// The transform with the given linear part and no translation.
    pub open spec fn from_linear(m: M3) -> T4 {
        T4 {
            e00: m.e00,
            e01: m.e01,
            e02: m.e02,
            e03: 0,
            e10: m.e10,
            e11: m.e11,
            e12: m.e12,
            e13: 0,
            e20: m.e20,
            e21: m.e21,
            e22: m.e22,
            e23: 0,
            d: m.d,
        }
    }

    /// Column `j` as a vector (column 3 is the translation).
    pub open spec fn col(self, j: int) -> V3 {
        if j == 0 {
            V3 { x: self.e00, y: self.e10, z: self.e20, d: self.d }
        } else if j == 1 {
            V3 { x: self.e01, y: self.e11, z: self.e21, d: self.d }
        } else if j == 2 {
            V3 { x: self.e02, y: self.e12, z: self.e22, d: self.d }
        } else {
            V3 { x: self.e03, y: self.e13, z: self.e23, d: self.d }
        }
    }

    /// Composition: the linear parts multiply, and the translation is this
    /// transform's linear part applied to `o`'s translation plus this
    /// transform's own.
    pub open spec fn mul(self, o: T4) -> T4 {
        T4 {
            e00: self.e00 * o.e00 + self.e01 * o.e10 + self.e02 * o.e20,
            e01: self.e00 * o.e01 + self.e01 * o.e11 + self.e02 * o.e21,
            e02: self.e00 * o.e02 + self.e01 * o.e12 + self.e02 * o.e22,
            e03: self.e00 * o.e03 + self.e01 * o.e13 + self.e02 * o.e23 + self.e03 * o.d,
            e10: self.e10 * o.e00 + self.e11 * o.e10 + self.e12 * o.e20,
            e11: self.e10 * o.e01 + self.e11 * o.e11 + self.e12 * o.e21,
            e12: self.e10 * o.e02 + self.e11 * o.e12 + self.e12 * o.e22,
            e13: self.e10 * o.e03 + self.e11 * o.e13 + self.e12 * o.e23 + self.e13 * o.d,
            e20: self.e20 * o.e00 + self.e21 * o.e10 + self.e22 * o.e20,
            e21: self.e20 * o.e01 + self.e21 * o.e11 + self.e22 * o.e21,
            e22: self.e20 * o.e02 + self.e21 * o.e12 + self.e22 * o.e22,
            e23: self.e20 * o.e03 + self.e21 * o.e13 + self.e22 * o.e23 + self.e23 * o.d,
            d: self.d * o.d,
        }
    }

    /// A direction transformed: only the linear part acts.
    pub open spec fn mul_vec(self, v: V3) -> V3 {
        V3 {
            x: self.e00 * v.x + self.e01 * v.y + self.e02 * v.z,
            y: self.e10 * v.x + self.e11 * v.y + self.e12 * v.z,
            z: self.e20 * v.x + self.e21 * v.y + self.e22 * v.z,
            d: self.d * v.d,
        }
    }

    /// A position transformed: the linear part acts and the translation is
    /// added.
    pub open spec fn mul_point(self, p: V3) -> V3 {
        V3 {
            x: self.e00 * p.x + self.e01 * p.y + self.e02 * p.z + self.e03 * p.d,
            y: self.e10 * p.x + self.e11 * p.y + self.e12 * p.z + self.e13 * p.d,
            z: self.e20 * p.x + self.e21 * p.y + self.e22 * p.z + self.e23 * p.d,
            d: self.d * p.d,
        }
    }

    /// The determinant numerator of the linear part.
    pub open spec fn det_num(self) -> int {
        self.linear().det_num()
    }

    /// The determinant of the represented transform: the determinant of
    /// the linear part alone, since translation does not change volume.
    pub open spec fn det_rat(self) -> Rat {
        self.linear().det_rat()
    }

    /// The inverse of the represented transform, by the cross products of
    /// the linear columns: the rows of the resulting linear part are the
    /// cofactor rows scaled by the denominator, the translation column is
    /// minus those rows applied to the old translation, all over the
    /// determinant. The sign is arranged so the denominator is positive.
    /// Meaningful only when the determinant is not zero.
    pub open spec fn inverse(self) -> T4 {
        let r00 = self.e11 * self.e22 - self.e21 * self.e12;
        let r01 = self.e21 * self.e02 - self.e01 * self.e22;
        let r02 = self.e01 * self.e12 - self.e11 * self.e02;
        let r10 = self.e12 * self.e20 - self.e22 * self.e10;
        let r11 = self.e22 * self.e00 - self.e02 * self.e20;
        let r12 = self.e02 * self.e10 - self.e12 * self.e00;
        let r20 = self.e10 * self.e21 - self.e20 * self.e11;
        let r21 = self.e20 * self.e01 - self.e00 * self.e21;
        let r22 = self.e00 * self.e11 - self.e10 * self.e01;
        let det = self.det_num();
        if det >= 0 {
            T4 {
                e00: self.d * r00,
                e01: self.d * r01,
                e02: self.d * r02,
                e03: -(r00 * self.e03 + r01 * self.e13 + r02 * self.e23),
                e10: self.d * r10,
                e11: self.d * r11,
                e12: self.d * r12,
                e13: -(r10 * self.e03 + r11 * self.e13 + r12 * self.e23),
                e20: self.d * r20,
                e21: self.d * r21,
                e22: self.d * r22,
                e23: -(r20 * self.e03 + r21 * self.e13 + r22 * self.e23),
                d: det,
            }
        } else {
            T4 {
                e00: -(self.d * r00),
                e01: -(self.d * r01),
                e02: -(self.d * r02),
                e03: r00 * self.e03 + r01 * self.e13 + r02 * self.e23,
                e10: -(self.d * r10),
                e11: -(self.d * r11),
                e12: -(self.d * r12),
                e13: r10 * self.e03 + r11 * self.e13 + r12 * self.e23,
                e20: -(self.d * r20),
                e21: -(self.d * r21),
                e22: -(self.d * r22),
                e23: r20 * self.e03 + r21 * self.e13 + r22 * self.e23,
                d: -det,
            }
        }
    }

    /// The pure translation by `v`.
    pub open spec fn translation(v: V3) -> T4 {
        T4 {
            e00: v.d,
            e01: 0,
            e02: 0,
            e03: v.x,
            e10: 0,
            e11: v.d,
            e12: 0,
            e13: v.y,
            e20: 0,
            e21: 0,
            e22: v.d,
            e23: v.z,
            d: v.d,
        }
    }

    /// The reflection through the plane `p`, whose normal is assumed to be
    /// a unit vector: the linear part reflects through the normal and the
    /// translation moves by twice the offset along it.
    pub open spec fn plane_reflection(p: P4) -> T4 {
        let dd = p.d * p.d;
        T4 {
            e00: dd - 2 * (p.x * p.x),
            e01: -(2 * (p.x * p.y)),
            e02: -(2 * (p.x * p.z)),
            e03: -(2 * (p.x * p.w)),
            e10: -(2 * (p.x * p.y)),
            e11: dd - 2 * (p.y * p.y),
            e12: -(2 * (p.y * p.z)),
            e13: -(2 * (p.y * p.w)),
            e20: -(2 * (p.x * p.z)),
            e21: -(2 * (p.y * p.z)),
            e22: dd - 2 * (p.z * p.z),
            e23: -(2 * (p.z * p.w)),
            d: dd,
        }
    }
}

/// An affine transform held as three rows of four columns: exact rational
/// entries as integer numerators over the positive denominator `den`. The
/// field `nij` is the numerator of the entry in row `i` and column `j`;
/// column 3 is the translation, and the implicit bottom row is
/// `(0, 0, 0, 1)`.
#[derive(Clone, Copy, Debug, PartialEq, Eq, Structural)]
pub struct Transform4 {
    pub n00: i128,
    pub n01: i128,
    pub n02: i128,
    pub n03: i128,
    pub n10: i128,
    pub n11: i128,
    pub n12: i128,
    pub n13: i128,
    pub n20: i128,
    pub n21: i128,
    pub n22: i128,
    pub n23: i128,
    /// Common denominator of the twelve entries; always positive.
    pub den: i128,
}

impl View for Transform4 {
    type V = T4;

    open spec fn view(&self) -> T4 {
        T4 {
            e00: self.n00 as int,
            e01: self.n01 as int,
            e02: self.n02 as int,
            e03: self.n03 as int,
            e10: self.n10 as int,
            e11: self.n11 as int,
            e12: self.n12 as int,
            e13: self.n13 as int,
            e20: self.n20 as int,
            e21: self.n21 as int,
            e22: self.n22 as int,
            e23: self.n23 as int,
            d: self.den as int,
        }
    }
}

impl Transform4 {
    pub open spec fn wf(self) -> bool {
        self@.wf()
    }

    pub open spec fn bounded(self) -> bool {
        self@.bounded()
    }

    /// The transform of twelve whole entries, given row by row.
    pub fn new(
        a: i128,
        b: i128,
        c: i128,
        d: i128,
        e: i128,
        f: i128,
        g: i128,
        h: i128,
        i: i128,
        j: i128,
        k: i128,
        l: i128,
    ) -> (r: Transform4)
        ensures
            r@ == (T4 {
                e00: a as int,
                e01: b as int,
                e02: c as int,
                e03: d as int,
                e10: e as int,
                e11: f as int,
                e12: g as int,
                e13: h as int,
                e20: i as int,
                e21: j as int,
                e22: k as int,
                e23: l as int,
                d: 1,
            }),
    {
        Transform4 {
            n00: a,
            n01: b,
            n02: c,
            n03: d,
            n10: e,
            n11: f,
            n12: g,
            n13: h,
            n20: i,
            n21: j,
            n22: k,
            n23: l,
            den: 1,
        }
    }

    /// The transform of twelve numerators, row by row, over the common
    /// denominator `den`.
    pub fn new_scaled(
        a: i128,
        b: i128,
        c: i128,
        d: i128,
        e: i128,
        f: i128,
        g: i128,
        h: i128,
        i: i128,
        j: i128,
        k: i128,
        l: i128,
        den: i128,
    ) -> (r: Transform4)
        requires
            den > 0,
        ensures
            r@ == (T4 {
                e00: a as int,
                e01: b as int,
                e02: c as int,
                e03: d as int,
                e10: e as int,
                e11: f as int,
                e12: g as int,
                e13: h as int,
                e20: i as int,
                e21: j as int,
                e22: k as int,
                e23: l as int,
                d: den as int,
            }),
    {
        Transform4 {
            n00: a,
            n01: b,
            n02: c,
            n03: d,
            n10: e,
            n11: f,
            n12: g,
            n13: h,
            n20: i,
            n21: j,
            n22: k,
            n23: l,
            den,
        }
    }

    /// The transform whose linear columns are the three given vectors and
    /// whose translation is the position `p`, brought to the common
    /// denominator of the four.
    pub fn new_with_vecs(a: &Vector3, b: &Vector3, c: &Vector3, p: &Point3) -> (r: Transform4)
        requires
            a.bounded(),
            b.bounded(),
            c.bounded(),
            p.bounded(),
        ensures
            r@ == (T4 {
                e00: a@.x * (b@.d * (c@.d * p@.d)),
                e10: a@.y * (b@.d * (c@.d * p@.d)),
                e20: a@.z * (b@.d * (c@.d * p@.d)),
                e01: b@.x * (a@.d * (c@.d * p@.d)),
                e11: b@.y * (a@.d * (c@.d * p@.d)),
                e21: b@.z * (a@.d * (c@.d * p@.d)),
                e02: c@.x * (a@.d * (b@.d * p@.d)),
                e12: c@.y * (a@.d * (b@.d * p@.d)),
                e22: c@.z * (a@.d * (b@.d * p@.d)),
                e03: p@.x * (a@.d * (b@.d * c@.d)),
                e13: p@.y * (a@.d * (b@.d * c@.d)),
                e23: p@.z * (a@.d * (b@.d * c@.d)),
                d: a@.d * (b@.d * (c@.d * p@.d)),
            }),
            r.wf(),
    {
        proof {
            let l2: int = (LIM as int) * (LIM as int);
            let l3: int = (LIM as int) * (LIM as int) * (LIM as int);
            lemma_mul_bound(c@.d, p@.d, LIM as int, LIM as int);
            lemma_mul_bound(b@.d, p@.d, LIM as int, LIM as int);
            lemma_mul_bound(b@.d, c@.d, LIM as int, LIM as int);
            lemma_mul_bound(b@.d, c@.d * p@.d, LIM as int, l2);
            lemma_mul_bound(a@.d, c@.d * p@.d, LIM as int, l2);
            lemma_mul_bound(a@.d, b@.d * p@.d, LIM as int, l2);
            lemma_mul_bound(a@.d, b@.d * c@.d, LIM as int, l2);
            lemma_mul_bound(a@.x, b@.d * (c@.d * p@.d), LIM as int, l3);
            lemma_mul_bound(a@.y, b@.d * (c@.d * p@.d), LIM as int, l3);
            lemma_mul_bound(a@.z, b@.d * (c@.d * p@.d), LIM as int, l3);
            lemma_mul_bound(b@.x, a@.d * (c@.d * p@.d), LIM as int, l3);
            lemma_mul_bound(b@.y, a@.d * (c@.d * p@.d), LIM as int, l3);
            lemma_mul_bound(b@.z, a@.d * (c@.d * p@.d), LIM as int, l3);
            lemma_mul_bound(c@.x, a@.d * (b@.d * p@.d), LIM as int, l3);
            lemma_mul_bound(c@.y, a@.d * (b@.d * p@.d), LIM as int, l3);
            lemma_mul_bound(c@.z, a@.d * (b@.d * p@.d), LIM as int, l3);
            lemma_mul_bound(p@.x, a@.d * (b@.d * c@.d), LIM as int, l3);
            lemma_mul_bound(p@.y, a@.d * (b@.d * c@.d), LIM as int, l3);
            lemma_mul_bound(p@.z, a@.d * (b@.d * c@.d), LIM as int, l3);
            lemma_mul_bound(a@.d, b@.d * (c@.d * p@.d), LIM as int, l3);
            lemma_mul_pos(c@.d, p@.d);
            lemma_mul_pos(b@.d, c@.d * p@.d);
            lemma_mul_pos(a@.d, b@.d * (c@.d * p@.d));
        }
        Transform4 {
            n00: a.x * (b.den * (c.den * p.den)),
            n10: a.y * (b.den * (c.den * p.den)),
            n20: a.z * (b.den * (c.den * p.den)),
            n01: b.x * (a.den * (c.den * p.den)),
            n11: b.y * (a.den * (c.den * p.den)),
            n21: b.z * (a.den * (c.den * p.den)),
            n02: c.x * (a.den * (b.den * p.den)),
            n12: c.y * (a.den * (b.den * p.den)),
            n22: c.z * (a.den * (b.den * p.den)),
            n03: p.x * (a.den * (b.den * c.den)),
            n13: p.y * (a.den * (b.den * c.den)),
            n23: p.z * (a.den * (b.den * c.den)),
            den: a.den * (b.den * (c.den * p.den)),
        }
    }

    /// Column `i` of the transform (column 3 is the translation).
    pub fn vec_at(&self, i: usize) -> (r: Vector3)
        requires
            i < 4,
        ensures
            r@ == self@.col(i as int),
    {
        if i == 0 {
            Vector3 { x: self.n00, y: self.n10, z: self.n20, den: self.den }
        } else if i == 1 {
            Vector3 { x: self.n01, y: self.n11, z: self.n21, den: self.den }
        } else if i == 2 {
            Vector3 { x: self.n02, y: self.n12, z: self.n22, den: self.den }
        } else {
            Vector3 { x: self.n03, y: self.n13, z: self.n23, den: self.den }
        }
    }

    /// The entry in row `i` and column `j`.
    pub fn at(&self, i: usize, j: usize) -> (r: Scalar)
        requires
            i < 3,
            j < 4,
        ensures
            r@ == (Rat { n: self@.col(j as int).idx(i as int), d: self@.d }),
    {
        let c = self.vec_at(j);
        if i == 0 {
            Scalar { n: c.x, d: self.den }
        } else if i == 1 {
            Scalar { n: c.y, d: self.den }
        } else {
            Scalar { n: c.z, d: self.den }
        }
    }

    /// The translation column, as a position.
    pub fn get_translation(&self) -> (r: Point3)
        ensures
            r@ == self@.col(3),
    {
        Point3 { x: self.n03, y: self.n13, z: self.n23, den: self.den }
    }

    /// Replaces the translation column with `p`, rescaling the entries to
    /// the common denominator of the transform and the point.
    pub fn set_translation(&mut self, p: &Point3)
        requires
            old(self).bounded(),
            p.bounded(),
        ensures
            final(self)@ == (T4 {
                e00: old(self)@.e00 * p@.d,
                e01: old(self)@.e01 * p@.d,
                e02: old(self)@.e02 * p@.d,
                e03: p@.x * old(self)@.d,
                e10: old(self)@.e10 * p@.d,
                e11: old(self)@.e11 * p@.d,
                e12: old(self)@.e12 * p@.d,
                e13: p@.y * old(self)@.d,
                e20: old(self)@.e20 * p@.d,
                e21: old(self)@.e21 * p@.d,
                e22: old(self)@.e22 * p@.d,
                e23: p@.z * old(self)@.d,
                d: old(self)@.d * p@.d,
            }),
            final(self).wf(),
    {
        proof {
            lemma_mul_bound(self@.e00, p@.d, LIM as int, LIM as int);
            lemma_mul_bound(self@.e01, p@.d, LIM as int, LIM as int);
            lemma_mul_bound(self@.e02, p@.d, LIM as int, LIM as int);
            lemma_mul_bound(self@.e10, p@.d, LIM as int, LIM as int);
            lemma_mul_bound(self@.e11, p@.d, LIM as int, LIM as int);
            lemma_mul_bound(self@.e12, p@.d, LIM as int, LIM as int);
            lemma_mul_bound(self@.e20, p@.d, LIM as int, LIM as int);
            lemma_mul_bound(self@.e21, p@.d, LIM as int, LIM as int);
            lemma_mul_bound(self@.e22, p@.d, LIM as int, LIM as int);
            lemma_mul_bound(p@.x, self@.d, LIM as int, LIM as int);
            lemma_mul_bound(p@.y, self@.d, LIM as int, LIM as int);
            lemma_mul_bound(p@.z, self@.d, LIM as int, LIM as int);
            lemma_mul_bound(self@.d, p@.d, LIM as int, LIM as int);
            lemma_mul_pos(self@.d, p@.d);
        }
        *self = Transform4 {
            n00: self.n00 * p.den,
            n01: self.n01 * p.den,
            n02: self.n02 * p.den,
            n03: p.x * self.den,
            n10: self.n10 * p.den,
            n11: self.n11 * p.den,
            n12: self.n12 * p.den,
            n13: p.y * self.den,
            n20: self.n20 * p.den,
            n21: self.n21 * p.den,
            n22: self.n22 * p.den,
            n23: p.z * self.den,
            den: self.den * p.den,
        };
    }

    /// The identity transform.
    pub fn identity() -> (r: Transform4)
        ensures
            r@ == T4::identity(),
    {
        Transform4 {
            n00: 1,
            n01: 0,
            n02: 0,
            n03: 0,
            n10: 0,
            n11: 1,
            n12: 0,
            n13: 0,
            n20: 0,
            n21: 0,
            n22: 1,
            n23: 0,
            den: 1,
        }
    }

    /// The linear part, as a 3x3 matrix.
    pub fn linear_part(&self) -> (r: Matrix3)
        ensures
            r@ == self@.linear(),
    {
        Matrix3 {
            n00: self.n00,
            n01: self.n01,
            n02: self.n02,
            n10: self.n10,
            n11: self.n11,
            n12: self.n12,
            n20: self.n20,
            n21: self.n21,
            n22: self.n22,
            den: self.den,
        }
    }

    /// The determinant of the linear part; the translation does not affect
    /// volume scaling.
    pub fn determinant(&self) -> (r: Scalar)
        requires
            self.bounded(),
        ensures
            r@ == self@.det_rat(),
            r.wf(),
    {
        let m = self.linear_part();
        m.determinant()
    }

    /// The composition of this transform and `o`, in this order: applying
    /// the result is applying `o` first, then this transform.
    pub fn mul(&self, o: &Transform4) -> (r: Transform4)
        requires
            self.bounded(),
            o.bounded(),
        ensures
            r@ == self@.mul(o@),
            r.wf(),
    {
        proof {
            lemma_mul_bound(self@.e00, o@.e00, LIM as int, LIM as int);
            lemma_mul_bound(self@.e01, o@.e10, LIM as int, LIM as int);
            lemma_mul_bound(self@.e02, o@.e20, LIM as int, LIM as int);
            lemma_mul_bound(self@.e00, o@.e01, LIM as int, LIM as int);
            lemma_mul_bound(self@.e01, o@.e11, LIM as int, LIM as int);
            lemma_mul_bound(self@.e02, o@.e21, LIM as int, LIM as int);
            lemma_mul_bound(self@.e00, o@.e02, LIM as int, LIM as int);
            lemma_mul_bound(self@.e01, o@.e12, LIM as int, LIM as int);
            lemma_mul_bound(self@.e02, o@.e22, LIM as int, LIM as int);
            lemma_mul_bound(self@.e00, o@.e03, LIM as int, LIM as int);
            lemma_mul_bound(self@.e01, o@.e13, LIM as int, LIM as int);
            lemma_mul_bound(self@.e02, o@.e23, LIM as int, LIM as int);
            lemma_mul_bound(self@.e03, o@.d, LIM as int, LIM as int);
            lemma_mul_bound(self@.e10, o@.e00, LIM as int, LIM as int);
            lemma_mul_bound(self@.e11, o@.e10, LIM as int, LIM as int);
            lemma_mul_bound(self@.e12, o@.e20, LIM as int, LIM as int);
            lemma_mul_bound(self@.e10, o@.e01, LIM as int, LIM as int);
            lemma_mul_bound(self@.e11, o@.e11, LIM as int, LIM as int);
            lemma_mul_bound(self@.e12, o@.e21, LIM as int, LIM as int);
            lemma_mul_bound(self@.e10, o@.e02, LIM as int, LIM as int);
            lemma_mul_bound(self@.e11, o@.e12, LIM as int, LIM as int);
            lemma_mul_bound(self@.e12, o@.e22, LIM as int, LIM as int);
            lemma_mul_bound(self@.e10, o@.e03, LIM as int, LIM as int);
            lemma_mul_bound(self@.e11, o@.e13, LIM as int, LIM as int);
            lemma_mul_bound(self@.e12, o@.e23, LIM as int, LIM as int);
            lemma_mul_bound(self@.e13, o@.d, LIM as int, LIM as int);
            lemma_mul_bound(self@.e20, o@.e00, LIM as int, LIM as int);
            lemma_mul_bound(self@.e21, o@.e10, LIM as int, LIM as int);
            lemma_mul_bound(self@.e22, o@.e20, LIM as int, LIM as int);
            lemma_mul_bound(self@.e20, o@.e01, LIM as int, LIM as int);
            lemma_mul_bound(self@.e21, o@.e11, LIM as int, LIM as int);
            lemma_mul_bound(self@.e22, o@.e21, LIM as int, LIM as int);
            lemma_mul_bound(self@.e20, o@.e02, LIM as int, LIM as int);
            lemma_mul_bound(self@.e21, o@.e12, LIM as int, LIM as int);
            lemma_mul_bound(self@.e22, o@.e22, LIM as int, LIM as int);
            lemma_mul_bound(self@.e20, o@.e03, LIM as int, LIM as int);
            lemma_mul_bound(self@.e21, o@.e13, LIM as int, LIM as int);
            lemma_mul_bound(self@.e22, o@.e23, LIM as int, LIM as int);
            lemma_mul_bound(self@.e23, o@.d, LIM as int, LIM as int);
            lemma_mul_bound(self@.d, o@.d, LIM as int, LIM as int);
            lemma_mul_pos(self@.d, o@.d);
        }
        Transform4 {
            n00: self.n00 * o.n00 + self.n01 * o.n10 + self.n02 * o.n20,
            n01: self.n00 * o.n01 + self.n01 * o.n11 + self.n02 * o.n21,
            n02: self.n00 * o.n02 + self.n01 * o.n12 + self.n02 * o.n22,
            n03: self.n00 * o.n03 + self.n01 * o.n13 + self.n02 * o.n23 + self.n03 * o.den,
            n10: self.n10 * o.n00 + self.n11 * o.n10 + self.n12 * o.n20,
            n11: self.n10 * o.n01 + self.n11 * o.n11 + self.n12 * o.n21,
            n12: self.n10 * o.n02 + self.n11 * o.n12 + self.n12 * o.n22,
            n13: self.n10 * o.n03 + self.n11 * o.n13 + self.n12 * o.n23 + self.n13 * o.den,
            n20: self.n20 * o.n00 + self.n21 * o.n10 + self.n22 * o.n20,
            n21: self.n20 * o.n01 + self.n21 * o.n11 + self.n22 * o.n21,
            n22: self.n20 * o.n02 + self.n21 * o.n12 + self.n22 * o.n22,
            n23: self.n20 * o.n03 + self.n21 * o.n13 + self.n22 * o.n23 + self.n23 * o.den,
            den: self.den * o.den,
        }
    }

    /// Replaces this transform with the composition of it and `o`, in this
    /// order.
    pub fn mul_assign(&mut self, o: &Transform4)
        requires
            old(self).bounded(),
            o.bounded(),
        ensures
            final(self)@ == old(self)@.mul(o@),
            final(self).wf(),
    {
        *self = self.mul(o);
    }

    /// A direction transformed: only the linear part acts, since
    /// directions are translation-invariant.
    pub fn mul_vector(&self, v: &Vector3) -> (r: Vector3)
        requires
            self.bounded(),
            v.bounded(),
        ensures
            r@ == self@.mul_vec(v@),
            r.wf(),
    {
        proof {
            lemma_mul_bound(self@.e00, v@.x, LIM as int, LIM as int);
            lemma_mul_bound(self@.e01, v@.y, LIM as int, LIM as int);
            lemma_mul_bound(self@.e02, v@.z, LIM as int, LIM as int);
            lemma_mul_bound(self@.e10, v@.x, LIM as int, LIM as int);
            lemma_mul_bound(self@.e11, v@.y, LIM as int, LIM as int);
            lemma_mul_bound(self@.e12, v@.z, LIM as int, LIM as int);
            lemma_mul_bound(self@.e20, v@.x, LIM as int, LIM as int);
            lemma_mul_bound(self@.e21, v@.y, LIM as int, LIM as int);
            lemma_mul_bound(self@.e22, v@.z, LIM as int, LIM as int);
            lemma_mul_bound(self@.d, v@.d, LIM as int, LIM as int);
            lemma_mul_pos(self@.d, v@.d);
        }
        Vector3 {
            x: self.n00 * v.x + self.n01 * v.y + self.n02 * v.z,
            y: self.n10 * v.x + self.n11 * v.y + self.n12 * v.z,
            z: self.n20 * v.x + self.n21 * v.y + self.n22 * v.z,
            den: self.den * v.den,
        }
    }

    /// A position transformed: the linear part acts and the translation is
    /// added.
    pub fn mul_point(&self, p: &Point3) -> (r: Point3)
        requires
            self.bounded(),
            p.bounded(),
        ensures
            r@ == self@.mul_point(p@),
            r.wf(),
    {
        proof {
            lemma_mul_bound(self@.e00, p@.x, LIM as int, LIM as int);
            lemma_mul_bound(self@.e01, p@.y, LIM as int, LIM as int);
            lemma_mul_bound(self@.e02, p@.z, LIM as int, LIM as int);
            lemma_mul_bound(self@.e03, p@.d, LIM as int, LIM as int);
            lemma_mul_bound(self@.e10, p@.x, LIM as int, LIM as int);
            lemma_mul_bound(self@.e11, p@.y, LIM as int, LIM as int);
            lemma_mul_bound(self@.e12, p@.z, LIM as int, LIM as int);
            lemma_mul_bound(self@.e13, p@.d, LIM as int, LIM as int);
            lemma_mul_bound(self@.e20, p@.x, LIM as int, LIM as int);
            lemma_mul_bound(self@.e21, p@.y, LIM as int, LIM as int);
            lemma_mul_bound(self@.e22, p@.z, LIM as int, LIM as int);
            lemma_mul_bound(self@.e23, p@.d, LIM as int, LIM as int);
            lemma_mul_bound(self@.d, p@.d, LIM as int, LIM as int);
            lemma_mul_pos(self@.d, p@.d);
        }
        Point3 {
            x: self.n00 * p.x + self.n01 * p.y + self.n02 * p.z + self.n03 * p.den,
            y: self.n10 * p.x + self.n11 * p.y + self.n12 * p.z + self.n13 * p.den,
            z: self.n20 * p.x + self.n21 * p.y + self.n22 * p.z + self.n23 * p.den,
            den: self.den * p.den,
        }
    }

    /// The linear part of this transform composed with the matrix `m`.
    pub fn mul_matrix3(&self, m: &Matrix3) -> (r: Matrix3)
        requires
            self.bounded(),
            m.bounded(),
        ensures
            r@ == self@.linear().mul(m@),
            r.wf(),
    {
        let lin = self.linear_part();
        lin.mul(m)
    }

    /// The inverse of this transform, by the cross products of the linear
    /// columns; the new translation is minus the inverted linear part
    /// applied to the old translation. The determinant must not be zero;
    /// callers check `determinant` first.
    pub fn inverse(&self) -> (r: Transform4)
        requires
            self.bounded(),
            self@.det_num() != 0,
        ensures
            r@ == self@.inverse(),
            r.wf(),
    {
        proof {
            let l2: int = 2 * (LIM as int) * (LIM as int);
            lemma_mul_bound(self@.e11, self@.e22, LIM as int, LIM as int);
            lemma_mul_bound(self@.e21, self@.e12, LIM as int, LIM as int);
            lemma_mul_bound(self@.e21, self@.e02, LIM as int, LIM as int);
            lemma_mul_bound(self@.e01, self@.e22, LIM as int, LIM as int);
            lemma_mul_bound(self@.e01, self@.e12, LIM as int, LIM as int);
            lemma_mul_bound(self@.e11, self@.e02, LIM as int, LIM as int);
            lemma_mul_bound(self@.e12, self@.e20, LIM as int, LIM as int);
            lemma_mul_bound(self@.e22, self@.e10, LIM as int, LIM as int);
            lemma_mul_bound(self@.e22, self@.e00, LIM as int, LIM as int);
            lemma_mul_bound(self@.e02, self@.e20, LIM as int, LIM as int);
            lemma_mul_bound(self@.e02, self@.e10, LIM as int, LIM as int);
            lemma_mul_bound(self@.e12, self@.e00, LIM as int, LIM as int);
            lemma_mul_bound(self@.e10, self@.e21, LIM as int, LIM as int);
            lemma_mul_bound(self@.e20, self@.e11, LIM as int, LIM as int);
            lemma_mul_bound(self@.e20, self@.e01, LIM as int, LIM as int);
            lemma_mul_bound(self@.e00, self@.e21, LIM as int, LIM as int);
            lemma_mul_bound(self@.e00, self@.e11, LIM as int, LIM as int);
            lemma_mul_bound(self@.e10, self@.e01, LIM as int, LIM as int);
            lemma_mul_bound(self@.e11 * self@.e22 - self@.e21 * self@.e12, self@.d, l2, LIM as int);
            lemma_mul_bound(self@.e21 * self@.e02 - self@.e01 * self@.e22, self@.d, l2, LIM as int);
            lemma_mul_bound(self@.e01 * self@.e12 - self@.e11 * self@.e02, self@.d, l2, LIM as int);
            lemma_mul_bound(self@.e12 * self@.e20 - self@.e22 * self@.e10, self@.d, l2, LIM as int);
            lemma_mul_bound(self@.e22 * self@.e00 - self@.e02 * self@.e20, self@.d, l2, LIM as int);
            lemma_mul_bound(self@.e02 * self@.e10 - self@.e12 * self@.e00, self@.d, l2, LIM as int);
            lemma_mul_bound(self@.e10 * self@.e21 - self@.e20 * self@.e11, self@.d, l2, LIM as int);
            lemma_mul_bound(self@.e20 * self@.e01 - self@.e00 * self@.e21, self@.d, l2, LIM as int);
            lemma_mul_bound(self@.e00 * self@.e11 - self@.e10 * self@.e01, self@.d, l2, LIM as int);
            lemma_mul_bound(self@.e11 * self@.e22 - self@.e21 * self@.e12, self@.e03, l2, LIM as int);
            lemma_mul_bound(self@.e21 * self@.e02 - self@.e01 * self@.e22, self@.e13, l2, LIM as int);
            lemma_mul_bound(self@.e01 * self@.e12 - self@.e11 * self@.e02, self@.e23, l2, LIM as int);
            lemma_mul_bound(self@.e12 * self@.e20 - self@.e22 * self@.e10, self@.e03, l2, LIM as int);
            lemma_mul_bound(self@.e22 * self@.e00 - self@.e02 * self@.e20, self@.e13, l2, LIM as int);
            lemma_mul_bound(self@.e02 * self@.e10 - self@.e12 * self@.e00, self@.e23, l2, LIM as int);
            lemma_mul_bound(self@.e10 * self@.e21 - self@.e20 * self@.e11, self@.e03, l2, LIM as int);
            lemma_mul_bound(self@.e20 * self@.e01 - self@.e00 * self@.e21, self@.e13, l2, LIM as int);
            lemma_mul_bound(self@.e00 * self@.e11 - self@.e10 * self@.e01, self@.e23, l2, LIM as int);
            lemma_mul_bound(self@.e10 * self@.e21 - self@.e20 * self@.e11, self@.e02, l2, LIM as int);
            lemma_mul_bound(self@.e20 * self@.e01 - self@.e00 * self@.e21, self@.e12, l2, LIM as int);
            lemma_mul_bound(self@.e00 * self@.e11 - self@.e10 * self@.e01, self@.e22, l2, LIM as int);
        }
        let r00 = self.n11 * self.n22 - self.n21 * self.n12;
        let r01 = self.n21 * self.n02 - self.n01 * self.n22;
        let r02 = self.n01 * self.n12 - self.n11 * self.n02;
        let r10 = self.n12 * self.n20 - self.n22 * self.n10;
        let r11 = self.n22 * self.n00 - self.n02 * self.n20;
        let r12 = self.n02 * self.n10 - self.n12 * self.n00;
        let r20 = self.n10 * self.n21 - self.n20 * self.n11;
        let r21 = self.n20 * self.n01 - self.n00 * self.n21;
        let r22 = self.n00 * self.n11 - self.n10 * self.n01;
        let det = r20 * self.n02 + r21 * self.n12 + r22 * self.n22;
        if det >= 0 {
            Transform4 {
                n00: self.den * r00,
                n01: self.den * r01,
                n02: self.den * r02,
                n03: -(r00 * self.n03 + r01 * self.n13 + r02 * self.n23),
                n10: self.den * r10,
                n11: self.den * r11,
                n12: self.den * r12,
                n13: -(r10 * self.n03 + r11 * self.n13 + r12 * self.n23),
                n20: self.den * r20,
                n21: self.den * r21,
                n22: self.den * r22,
                n23: -(r20 * self.n03 + r21 * self.n13 + r22 * self.n23),
                den: det,
            }
        } else {
            Transform4 {
                n00: -(self.den * r00),
                n01: -(self.den * r01),
                n02: -(self.den * r02),
                n03: r00 * self.n03 + r01 * self.n13 + r02 * self.n23,
                n10: -(self.den * r10),
                n11: -(self.den * r11),
                n12: -(self.den * r12),
                n13: r10 * self.n03 + r11 * self.n13 + r12 * self.n23,
                n20: -(self.den * r20),
                n21: -(self.den * r21),
                n22: -(self.den * r22),
                n23: r20 * self.n03 + r21 * self.n13 + r22 * self.n23,
                den: -det,
            }
        }
    }

    /// The pure translation by `v`.
    pub fn make_translation(v: &Vector3) -> (r: Transform4)
        requires
            v.bounded(),
        ensures
            r@ == T4::translation(v@),
            r.wf(),
    {
        Transform4 {
            n00: v.den,
            n01: 0,
            n02: 0,
            n03: v.x,
            n10: 0,
            n11: v.den,
            n12: 0,
            n13: v.y,
            n20: 0,
            n21: 0,
            n22: v.den,
            n23: v.z,
            den: v.den,
        }
    }

    /// The reflection through the plane `f`, whose normal is assumed to be
    /// a unit vector.
    pub fn make_plane_reflection(f: &Plane) -> (r: Transform4)
        requires
            f.bounded(),
        ensures
            r@ == T4::plane_reflection(f@),
            r.wf(),
    {
        proof {
            lemma_mul_bound(f@.d, f@.d, LIM as int, LIM as int);
            lemma_mul_bound(f@.x, f@.x, LIM as int, LIM as int);
            lemma_mul_bound(f@.x, f@.y, LIM as int, LIM as int);
            lemma_mul_bound(f@.x, f@.z, LIM as int, LIM as int);
            lemma_mul_bound(f@.x, f@.w, LIM as int, LIM as int);
            lemma_mul_bound(f@.y, f@.y, LIM as int, LIM as int);
            lemma_mul_bound(f@.y, f@.z, LIM as int, LIM as int);
            lemma_mul_bound(f@.y, f@.w, LIM as int, LIM as int);
            lemma_mul_bound(f@.z, f@.z, LIM as int, LIM as int);
            lemma_mul_bound(f@.z, f@.w, LIM as int, LIM as int);
            lemma_mul_pos(f@.d, f@.d);
        }
        let dd = f.den * f.den;
        Transform4 {
            n00: dd - 2 * (f.x * f.x),
            n01: -(2 * (f.x * f.y)),
            n02: -(2 * (f.x * f.z)),
            n03: -(2 * (f.x * f.w)),
            n10: -(2 * (f.x * f.y)),
            n11: dd - 2 * (f.y * f.y),
            n12: -(2 * (f.y * f.z)),
            n13: -(2 * (f.y * f.w)),
            n20: -(2 * (f.x * f.z)),
            n21: -(2 * (f.y * f.z)),
            n22: dd - 2 * (f.z * f.z),
            n23: -(2 * (f.z * f.w)),
            den: dd,
        }
    }

    /// The reflection through the plane perpendicular to the unit
    /// direction `v`, with no translation.
    pub fn make_vec_reflection(v: &Vector3) -> (r: Transform4)
        requires
            v.bounded(),
        ensures
            r@ == T4::from_linear(M3::reflection(v@)),
            r.wf(),
    {
        let m = Matrix3::make_reflection(v);
        Transform4::from_linear_part(&m)
    }

    /// The transform with the given linear part and no translation.
    pub fn from_linear_part(m: &Matrix3) -> (r: Transform4)
        ensures
            r@ == T4::from_linear(m@),
    {
        Transform4 {
            n00: m.n00,
            n01: m.n01,
            n02: m.n02,
            n03: 0,
            n10: m.n10,
            n11: m.n11,
            n12: m.n12,
            n13: 0,
            n20: m.n20,
            n21: m.n21,
            n22: m.n22,
            n23: 0,
            den: m.den,
        }
    }

    /// Scale along the x axis only.
    pub fn make_scale_x(s: &Scalar) -> (r: Transform4)
        requires
            s.bounded(),
        ensures
            r@ == T4::from_linear(
                M3 {
                    e00: s@.n,
                    e01: 0,
                    e02: 0,
                    e10: 0,
                    e11: s@.d,
                    e12: 0,
                    e20: 0,
                    e21: 0,
                    e22: s@.d,
                    d: s@.d,
                },
            ),
            r.wf(),
    {
        let m = Matrix3::make_scale_x(s);
        Transform4::from_linear_part(&m)
    }

    /// Scale along the y axis only.
    pub fn make_scale_y(s: &Scalar) -> (r: Transform4)
        requires
            s.bounded(),
        ensures
            r@ == T4::from_linear(
                M3 {
                    e00: s@.d,
                    e01: 0,
                    e02: 0,
                    e10: 0,
                    e11: s@.n,
                    e12: 0,
                    e20: 0,
                    e21: 0,
                    e22: s@.d,
                    d: s@.d,
                },
            ),
            r.wf(),
    {
        let m = Matrix3::make_scale_y(s);
        Transform4::from_linear_part(&m)
    }

    /// Scale along the z axis only.
    pub fn make_scale_z(s: &Scalar) -> (r: Transform4)
        requires
            s.bounded(),
        ensures
            r@ == T4::from_linear(
                M3 {
                    e00: s@.d,
                    e01: 0,
                    e02: 0,
                    e10: 0,
                    e11: s@.d,
                    e12: 0,
                    e20: 0,
                    e21: 0,
                    e22: s@.n,
                    d: s@.d,
                },
            ),
            r.wf(),
    {
        let m = Matrix3::make_scale_z(s);
        Transform4::from_linear_part(&m)
    }

    /// The diagonal scale by `sx`, `sy` and `sz` along the three axes.
    pub fn make_scale_xyz(sx: &Scalar, sy: &Scalar, sz: &Scalar) -> (r: Transform4)
        requires
            sx.bounded(),
            sy.bounded(),
            sz.bounded(),
        ensures
            r@ == T4::from_linear(M3::scale_diag(sx@, sy@, sz@)),
            r.wf(),
    {
        let m = Matrix3::make_scale(sx, sy, sz);
        Transform4::from_linear_part(&m)
    }

    /// The scale by the factor `s` along the unit direction `v`.
    pub fn make_scale_vec(s: &Scalar, v: &Vector3) -> (r: Transform4)
        requires
            s.bounded(),
            v.bounded(),
        ensures
            r@ == T4::from_linear(M3::scale_along(s@, v@)),
            r.wf(),
    {
        let m = Matrix3::make_scale_vec(s, v);
        Transform4::from_linear_part(&m)
    }

    /// The involution through the unit direction `v`.
    pub fn make_involution(v: &Vector3) -> (r: Transform4)
        requires
            v.bounded(),
        ensures
            r@ == T4::from_linear(M3::involution(v@)),
            r.wf(),
    {
        let m = Matrix3::make_involution(v);
        Transform4::from_linear_part(&m)
    }

    /// The skew by the tangent `t` along the unit direction `a`, varying
    /// with the projection onto the unit direction `b`.
    pub fn make_skew(t: &Scalar, a: &Vector3, b: &Vector3) -> (r: Transform4)
        requires
            t.bounded(),
            a.bounded(),
            b.bounded(),
        ensures
            r@ == T4::from_linear(M3::skew(t@, a@, b@)),
            r.wf(),
    {
        let m = Matrix3::make_skew(t, a, b);
        Transform4::from_linear_part(&m)
    }

    /// The rotation about the x axis, from the cosine `c` and sine `s` of
    /// the angle.
    pub fn make_rotation_x(c: &Scalar, s: &Scalar) -> (r: Transform4)
        requires
            c.bounded(),
            s.bounded(),
        ensures
            r@ == T4::from_linear(M3::rotation_x(c@, s@)),
            r.wf(),
    {
        let m = Matrix3::make_rotation_x(c, s);
        Transform4::from_linear_part(&m)
    }

    /// The rotation about the y axis, from the cosine `c` and sine `s` of
    /// the angle.
    pub fn make_rotation_y(c: &Scalar, s: &Scalar) -> (r: Transform4)
        requires
            c.bounded(),
            s.bounded(),
        ensures
            r@ == T4::from_linear(M3::rotation_y(c@, s@)),
            r.wf(),
    {
        let m = Matrix3::make_rotation_y(c, s);
        Transform4::from_linear_part(&m)
    }

    /// The rotation about the z axis, from the cosine `c` and sine `s` of
    /// the angle.
    pub fn make_rotation_z(c: &Scalar, s: &Scalar) -> (r: Transform4)
        requires
            c.bounded(),
            s.bounded(),
        ensures
            r@ == T4::from_linear(M3::rotation_z(c@, s@)),
            r.wf(),
    {
        let m = Matrix3::make_rotation_z(c, s);
        Transform4::from_linear_part(&m)
    }

    /// The rotation about the unit axis `v`, from the cosine `c` and sine
    /// `s` of the angle.
    pub fn make_rotation(c: &Scalar, s: &Scalar, v: &Vector3) -> (r: Transform4)
        requires
            c.bounded(),
            s.bounded(),
            v.bounded(),
        ensures
            r@ == T4::from_linear(M3::rotation(c@, s@, v@)),
            r.wf(),
    {
        let m = Matrix3::make_rotation(c, s, v);
        Transform4::from_linear_part(&m)
    }
}

/// An affine transform with nonzero determinant, composed with its
/// `inverse`, is the identity transform: the linear part collapses by the
/// adjugate identity, and the translation cancels exactly.
pub proof fn lemma_mul_inverse(t: T4)
    requires
        t.wf(),
        t.det_num() != 0,
    ensures
        t.mul(t.inverse()).eq_rat(T4::identity()),
{
    let r00 = t.e11 * t.e22 - t.e21 * t.e12;
    let r01 = t.e21 * t.e02 - t.e01 * t.e22;
    let r02 = t.e01 * t.e12 - t.e11 * t.e02;
    let r10 = t.e12 * t.e20 - t.e22 * t.e10;
    let r11 = t.e22 * t.e00 - t.e02 * t.e20;
    let r12 = t.e02 * t.e10 - t.e12 * t.e00;
    let r20 = t.e10 * t.e21 - t.e20 * t.e11;
    let r21 = t.e20 * t.e01 - t.e00 * t.e21;
    let r22 = t.e00 * t.e11 - t.e10 * t.e01;
    crate::matrix3::lemma_adjugate3_row0(
        t.e00, t.e01, t.e02, t.e10, t.e11, t.e12, t.e20, t.e21, t.e22,
    );
    crate::matrix3::lemma_adjugate3_row1(
        t.e00, t.e01, t.e02, t.e10, t.e11, t.e12, t.e20, t.e21, t.e22,
    );
    crate::matrix3::lemma_adjugate3_row2(
        t.e00, t.e01, t.e02, t.e10, t.e11, t.e12, t.e20, t.e21, t.e22,
    );
    crate::matrix3::lemma_factor3(t.e00, t.e01, t.e02, r00, r10, r20, t.d);
    crate::matrix3::lemma_factor3(t.e00, t.e01, t.e02, r01, r11, r21, t.d);
    crate::matrix3::lemma_factor3(t.e00, t.e01, t.e02, r02, r12, r22, t.d);
    crate::matrix3::lemma_factor3(t.e10, t.e11, t.e12, r00, r10, r20, t.d);
    crate::matrix3::lemma_factor3(t.e10, t.e11, t.e12, r01, r11, r21, t.d);
    crate::matrix3::lemma_factor3(t.e10, t.e11, t.e12, r02, r12, r22, t.d);
    crate::matrix3::lemma_factor3(t.e20, t.e21, t.e22, r00, r10, r20, t.d);
    crate::matrix3::lemma_factor3(t.e20, t.e21, t.e22, r01, r11, r21, t.d);
    crate::matrix3::lemma_factor3(t.e20, t.e21, t.e22, r02, r12, r22, t.d);
    crate::matrix3::lemma_neg_mul(t.d, t.det_num());
    // the translation column: swap the summation order, collapse the
    // row sums by the adjugate identity, and cancel against the scaled
    // old translation
    crate::matrix3::lemma_assoc_comp(
        t.e00, t.e01, t.e02, r00, r01, r02, r10, r11, r12, r20, r21, r22, t.e03, t.e13, t.e23,
    );
    crate::matrix3::lemma_assoc_comp(
        t.e10, t.e11, t.e12, r00, r01, r02, r10, r11, r12, r20, r21, r22, t.e03, t.e13, t.e23,
    );
    crate::matrix3::lemma_assoc_comp(
        t.e20, t.e21, t.e22, r00, r01, r02, r10, r11, r12, r20, r21, r22, t.e03, t.e13, t.e23,
    );
    crate::matrix3::lemma_neg_mul(t.e00, r00 * t.e03 + r01 * t.e13 + r02 * t.e23);
    crate::matrix3::lemma_neg_mul(t.e01, r10 * t.e03 + r11 * t.e13 + r12 * t.e23);
    crate::matrix3::lemma_neg_mul(t.e02, r20 * t.e03 + r21 * t.e13 + r22 * t.e23);
    crate::matrix3::lemma_neg_mul(t.e10, r00 * t.e03 + r01 * t.e13 + r02 * t.e23);
    crate::matrix3::lemma_neg_mul(t.e11, r10 * t.e03 + r11 * t.e13 + r12 * t.e23);
    crate::matrix3::lemma_neg_mul(t.e12, r20 * t.e03 + r21 * t.e13 + r22 * t.e23);
    crate::matrix3::lemma_neg_mul(t.e20, r00 * t.e03 + r01 * t.e13 + r02 * t.e23);
    crate::matrix3::lemma_neg_mul(t.e21, r10 * t.e03 + r11 * t.e13 + r12 * t.e23);
    crate::matrix3::lemma_neg_mul(t.e22, r20 * t.e03 + r21 * t.e13 + r22 * t.e23);
    vstd::arithmetic::mul::lemma_mul_is_commutative(t.e03, t.det_num());
    vstd::arithmetic::mul::lemma_mul_is_commutative(t.e13, t.det_num());
    vstd::arithmetic::mul::lemma_mul_is_commutative(t.e23, t.det_num());
    crate::matrix3::lemma_neg_mul(t.e03, t.det_num());
    crate::matrix3::lemma_neg_mul(t.e13, t.det_num());
    crate::matrix3::lemma_neg_mul(t.e23, t.det_num());
}

/// Composing two transforms and applying the composite to a direction is
/// the application of the first to the image under the second, exactly.
pub proof fn lemma_mul_vec_assoc(t1: T4, t2: T4, v: V3)
    ensures
        t1.mul(t2).mul_vec(v) == t1.mul_vec(t2.mul_vec(v)),
{
    crate::matrix3::lemma_assoc_comp(
        t1.e00, t1.e01, t1.e02,
        t2.e00, t2.e01, t2.e02, t2.e10, t2.e11, t2.e12, t2.e20, t2.e21, t2.e22,
        v.x, v.y, v.z,
    );
    crate::matrix3::lemma_assoc_comp(
        t1.e10, t1.e11, t1.e12,
        t2.e00, t2.e01, t2.e02, t2.e10, t2.e11, t2.e12, t2.e20, t2.e21, t2.e22,
        v.x, v.y, v.z,
    );
    crate::matrix3::lemma_assoc_comp(
        t1.e20, t1.e21, t1.e22,
        t2.e00, t2.e01, t2.e02, t2.e10, t2.e11, t2.e12, t2.e20, t2.e21, t2.e22,
        v.x, v.y, v.z,
    );
    vstd::arithmetic::mul::lemma_mul_is_associative(t1.d, t2.d, v.d);
}

} // verus!
