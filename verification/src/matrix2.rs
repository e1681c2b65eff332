use vstd::prelude::*;

use crate::scalar::{lemma_mul_bound, lemma_mul_pos, Rat, Scalar, LIM};
use crate::vector2::{Vector2, V2};

verus! {

/// The mathematical value of a 2x2 matrix: integer numerators `eij` (the
/// entry in row `i` and column `j`) over the common positive denominator
/// `d`.
pub ghost struct M2 {
    pub e00: int,
    pub e01: int,
    pub e10: int,
    pub e11: int,
    pub d: int,
}

impl M2 {
    pub open spec fn wf(self) -> bool {
        self.d > 0
    }

    pub open spec fn bounded(self) -> bool {
        &&& -LIM <= self.e00 <= LIM
        &&& -LIM <= self.e01 <= LIM
        &&& -LIM <= self.e10 <= LIM
        &&& -LIM <= self.e11 <= LIM
        &&& 0 < self.d <= LIM
    }

    /// Equality of the represented matrices, entry by entry.
    pub open spec fn eq_rat(self, o: M2) -> bool {
        &&& self.e00 * o.d == o.e00 * self.d
        &&& self.e01 * o.d == o.e01 * self.d
        &&& self.e10 * o.d == o.e10 * self.d
        &&& self.e11 * o.d == o.e11 * self.d
    }

    pub open spec fn identity() -> M2 {
        M2 { e00: 1, e01: 0, e10: 0, e11: 1, d: 1 }
    }

    /// Column `j` as a vector.
    pub open spec fn col(self, j: int) -> V2 {
        if j == 0 {
            V2 { x: self.e00, y: self.e10, d: self.d }
        } else {
            V2 { x: self.e01, y: self.e11, d: self.d }
        }
    }

    pub open spec fn transpose(self) -> M2 {
        M2 { e00: self.e00, e01: self.e10, e10: self.e01, e11: self.e11, d: self.d }
    }

    /// Matrix product; rows of `self` against columns of `o`.
    pub open spec fn mul(self, o: M2) -> M2 {
        M2 {
            e00: self.e00 * o.e00 + self.e01 * o.e10,
            e01: self.e00 * o.e01 + self.e01 * o.e11,
            e10: self.e10 * o.e00 + self.e11 * o.e10,
            e11: self.e10 * o.e01 + self.e11 * o.e11,
            d: self.d * o.d,
        }
    }

    /// Matrix applied to a vector.
    pub open spec fn mul_vec(self, v: V2) -> V2 {
        V2 {
            x: self.e00 * v.x + self.e01 * v.y,
            y: self.e10 * v.x + self.e11 * v.y,
            d: self.d * v.d,
        }
    }

    pub open spec fn scale(self, s: Rat) -> M2 {
        M2 {
            e00: self.e00 * s.n,
            e01: self.e01 * s.n,
            e10: self.e10 * s.n,
            e11: self.e11 * s.n,
            d: self.d * s.d,
        }
    }

    /// The integer determinant of the numerators.
    pub open spec fn det_num(self) -> int {
        self.e00 * self.e11 - self.e10 * self.e01
    }

    /// The determinant of the represented matrix.
    pub open spec fn det_rat(self) -> Rat {
        Rat { n: self.det_num(), d: self.d * self.d }
    }

    /// The inverse of the represented matrix: the classic adjugate over
    /// the determinant, the sign arranged so the denominator is positive.
    /// Meaningful only when the determinant is not zero.
    pub open spec fn inverse(self) -> M2 {
        let det = self.det_num();
        if det >= 0 {
            M2 {
                e00: self.d * self.e11,
                e01: -(self.d * self.e01),
                e10: -(self.d * self.e10),
                e11: self.d * self.e00,
                d: det,
            }
        } else {
            M2 {
                e00: -(self.d * self.e11),
                e01: self.d * self.e01,
                e10: self.d * self.e10,
                e11: -(self.d * self.e00),
                d: -det,
            }
        }
    }

    /// Rotation by the angle whose cosine is `c` and sine is `s`.
    pub open spec fn rotation(c: Rat, s: Rat) -> M2 {
        M2 {
            e00: c.n * s.d,
            e01: -(s.n * c.d),
            e10: s.n * c.d,
            e11: c.n * s.d,
            d: c.d * s.d,
        }
    }

    /// The diagonal scale by `sx` and `sy` along the two axes.
    pub open spec fn scale_diag(sx: Rat, sy: Rat) -> M2 {
        M2 { e00: sx.n * sy.d, e01: 0, e10: 0, e11: sy.n * sx.d, d: sx.d * sy.d }
    }
}

/// A 2x2 matrix: exact rational entries held as integer numerators over
/// the positive denominator `den`. The field `nij` is the numerator of the
/// entry in row `i` and column `j`.
#[derive(Clone, Copy, Debug, PartialEq, Eq, Structural)]
pub struct Matrix2 {
    pub n00: i128,
    pub n01: i128,
    pub n10: i128,
    pub n11: i128,
    /// Common denominator of the four entries; always positive.
    pub den: i128,
}

impl View for Matrix2 {
    type V = M2;

    open spec fn view(&self) -> M2 {
        M2 {
            e00: self.n00 as int,
            e01: self.n01 as int,
            e10: self.n10 as int,
            e11: self.n11 as int,
            d: self.den as int,
        }
    }
}

impl Matrix2 {
    pub open spec fn wf(self) -> bool {
        self@.wf()
    }

    pub open spec fn bounded(self) -> bool {
        self@.bounded()
    }

    /// The matrix of four whole entries, given row by row: `nij` is the
    /// entry in row `i` and column `j`.
    pub fn new(n00: i128, n01: i128, n10: i128, n11: i128) -> (r: Matrix2)
        ensures
            r@ == (M2 {
                e00: n00 as int,
                e01: n01 as int,
                e10: n10 as int,
                e11: n11 as int,
                d: 1,
            }),
    {
        Matrix2 { n00, n01, n10, n11, den: 1 }
    }

    /// The matrix of four numerators over the common denominator `den`.
    pub fn new_scaled(n00: i128, n01: i128, n10: i128, n11: i128, den: i128) -> (r: Matrix2)
        requires
            den > 0,
        ensures
            r@ == (M2 {
                e00: n00 as int,
                e01: n01 as int,
                e10: n10 as int,
                e11: n11 as int,
                d: den as int,
            }),
    {
        Matrix2 { n00, n01, n10, n11, den }
    }

    /// The matrix whose columns are the two given vectors.
    pub fn new_with_vecs(a: &Vector2, b: &Vector2) -> (r: Matrix2)
        requires
            a.bounded(),
            b.bounded(),
        ensures
            r@ == (M2 {
                e00: a@.x * b@.d,
                e10: a@.y * b@.d,
                e01: b@.x * a@.d,
                e11: b@.y * a@.d,
                d: a@.d * b@.d,
            }),
            r.wf(),
    {
        proof {
            lemma_mul_bound(a@.x, b@.d, LIM as int, LIM as int);
            lemma_mul_bound(a@.y, b@.d, LIM as int, LIM as int);
            lemma_mul_bound(b@.x, a@.d, LIM as int, LIM as int);
            lemma_mul_bound(b@.y, a@.d, LIM as int, LIM as int);
            lemma_mul_bound(a@.d, b@.d, LIM as int, LIM as int);
            lemma_mul_pos(a@.d, b@.d);
        }
        Matrix2 {
            n00: a.x * b.den,
            n10: a.y * b.den,
            n01: b.x * a.den,
            n11: b.y * a.den,
            den: a.den * b.den,
        }
    }

    /// Column `i` of the matrix.
    pub fn vec_at(&self, i: usize) -> (r: Vector2)
        requires
            i < 2,
        ensures
            r@ == self@.col(i as int),
    {
        if i == 0 {
            Vector2 { x: self.n00, y: self.n10, den: self.den }
        } else {
            Vector2 { x: self.n01, y: self.n11, den: self.den }
        }
    }

    /// The entry in row `i` and column `j`.
    pub fn at(&self, i: usize, j: usize) -> (r: Scalar)
        requires
            i < 2,
            j < 2,
        ensures
            r@ == (Rat { n: self@.col(j as int).idx(i as int), d: self@.d }),
    {
        let c = self.vec_at(j);
        if i == 0 {
            Scalar { n: c.x, d: self.den }
        } else {
            Scalar { n: c.y, d: self.den }
        }
    }

    /// Replaces all four entries with the given whole values, row by row.
    pub fn set(&mut self, n00: i128, n01: i128, n10: i128, n11: i128)
        ensures
            final(self)@ == (M2 {
                e00: n00 as int,
                e01: n01 as int,
                e10: n10 as int,
                e11: n11 as int,
                d: 1,
            }),
    {
        *self = Matrix2::new(n00, n01, n10, n11);
    }

    /// Replaces the columns with the two given vectors.
    pub fn set_vecs(&mut self, a: &Vector2, b: &Vector2)
        requires
            a.bounded(),
            b.bounded(),
        ensures
            final(self)@ == (M2 {
                e00: a@.x * b@.d,
                e10: a@.y * b@.d,
                e01: b@.x * a@.d,
                e11: b@.y * a@.d,
                d: a@.d * b@.d,
            }),
            final(self).wf(),
    {
        *self = Matrix2::new_with_vecs(a, b);
    }

    /// Makes this the identity matrix.
    pub fn set_identity(&mut self)
        ensures
            final(self)@ == M2::identity(),
    {
        *self = Matrix2::identity();
    }

    /// The identity matrix.
    pub fn identity() -> (r: Matrix2)
        ensures
            r@ == M2::identity(),
    {
        Matrix2 { n00: 1, n01: 0, n10: 0, n11: 1, den: 1 }
    }

    /// The determinant.
    pub fn determinant(&self) -> (r: Scalar)
        requires
            self.bounded(),
        ensures
            r@ == self@.det_rat(),
            r.wf(),
    {
        proof {
            lemma_mul_bound(self@.e00, self@.e11, LIM as int, LIM as int);
            lemma_mul_bound(self@.e10, self@.e01, LIM as int, LIM as int);
            lemma_mul_bound(self@.d, self@.d, LIM as int, LIM as int);
            lemma_mul_pos(self@.d, self@.d);
        }
        Scalar { n: self.n00 * self.n11 - self.n10 * self.n01, d: self.den * self.den }
    }

    /// The inverse of this matrix, by the adjugate over the determinant.
    /// The determinant must not be zero; callers check `determinant`
    /// first.
    pub fn inverse(&self) -> (r: Matrix2)
        requires
            self.bounded(),
            self@.det_num() != 0,
        ensures
            r@ == self@.inverse(),
            r.wf(),
    {
        proof {
            lemma_mul_bound(self@.e00, self@.e11, LIM as int, LIM as int);
            lemma_mul_bound(self@.e10, self@.e01, LIM as int, LIM as int);
            lemma_mul_bound(self@.d, self@.e11, LIM as int, LIM as int);
            lemma_mul_bound(self@.d, self@.e01, LIM as int, LIM as int);
            lemma_mul_bound(self@.d, self@.e10, LIM as int, LIM as int);
            lemma_mul_bound(self@.d, self@.e00, LIM as int, LIM as int);
        }
        let det = self.n00 * self.n11 - self.n10 * self.n01;
        if det >= 0 {
            Matrix2 {
                n00: self.den * self.n11,
                n01: -(self.den * self.n01),
                n10: -(self.den * self.n10),
                n11: self.den * self.n00,
                den: det,
            }
        } else {
            Matrix2 {
                n00: -(self.den * self.n11),
                n01: self.den * self.n01,
                n10: self.den * self.n10,
                n11: -(self.den * self.n00),
                den: -det,
            }
        }
    }

    /// The transpose.
    pub fn transpose(&self) -> (r: Matrix2)
        ensures
            r@ == self@.transpose(),
    {
        Matrix2 { n00: self.n00, n01: self.n10, n10: self.n01, n11: self.n11, den: self.den }
    }

    /// The matrix product of this matrix and `o`, in this order.
    pub fn mul(&self, o: &Matrix2) -> (r: Matrix2)
        requires
            self.bounded(),
            o.bounded(),
        ensures
            r@ == self@.mul(o@),
            r.wf(),
    {
        proof {
            lemma_mul_bound(self@.e00, o@.e00, LIM as int, LIM as int);
            lemma_mul_bound(self@.e01, o@.e10, LIM as int, LIM as int);
            lemma_mul_bound(self@.e00, o@.e01, LIM as int, LIM as int);
            lemma_mul_bound(self@.e01, o@.e11, LIM as int, LIM as int);
            lemma_mul_bound(self@.e10, o@.e00, LIM as int, LIM as int);
            lemma_mul_bound(self@.e11, o@.e10, LIM as int, LIM as int);
            lemma_mul_bound(self@.e10, o@.e01, LIM as int, LIM as int);
            lemma_mul_bound(self@.e11, o@.e11, LIM as int, LIM as int);
            lemma_mul_bound(self@.d, o@.d, LIM as int, LIM as int);
            lemma_mul_pos(self@.d, o@.d);
        }
        Matrix2 {
            n00: self.n00 * o.n00 + self.n01 * o.n10,
            n01: self.n00 * o.n01 + self.n01 * o.n11,
            n10: self.n10 * o.n00 + self.n11 * o.n10,
            n11: self.n10 * o.n01 + self.n11 * o.n11,
            den: self.den * o.den,
        }
    }

    /// Replaces this matrix with the product of it and `o`, in this order.
    pub fn mul_assign(&mut self, o: &Matrix2)
        requires
            old(self).bounded(),
            o.bounded(),
        ensures
            final(self)@ == old(self)@.mul(o@),
            final(self).wf(),
    {
        *self = self.mul(o);
    }

    /// This matrix applied to the vector `v`.
    pub fn mul_vector(&self, v: &Vector2) -> (r: Vector2)
        requires
            self.bounded(),
            v.bounded(),
        ensures
            r@ == self@.mul_vec(v@),
            r.wf(),
    {
        proof {
            lemma_mul_bound(self@.e00, v@.x, LIM as int, LIM as int);
            lemma_mul_bound(self@.e01, v@.y, LIM as int, LIM as int);
            lemma_mul_bound(self@.e10, v@.x, LIM as int, LIM as int);
            lemma_mul_bound(self@.e11, v@.y, LIM as int, LIM as int);
            lemma_mul_bound(self@.d, v@.d, LIM as int, LIM as int);
            lemma_mul_pos(self@.d, v@.d);
        }
        Vector2 {
            x: self.n00 * v.x + self.n01 * v.y,
            y: self.n10 * v.x + self.n11 * v.y,
            den: self.den * v.den,
        }
    }

    /// Every entry multiplied by the scalar `s`.
    pub fn mul_scalar(&self, s: &Scalar) -> (r: Matrix2)
        requires
            self.bounded(),
            s.bounded(),
        ensures
            r@ == self@.scale(s@),
            r.wf(),
    {
        proof {
            lemma_mul_bound(self@.e00, s@.n, LIM as int, LIM as int);
            lemma_mul_bound(self@.e01, s@.n, LIM as int, LIM as int);
            lemma_mul_bound(self@.e10, s@.n, LIM as int, LIM as int);
            lemma_mul_bound(self@.e11, s@.n, LIM as int, LIM as int);
            lemma_mul_bound(self@.d, s@.d, LIM as int, LIM as int);
            lemma_mul_pos(self@.d, s@.d);
        }
        Matrix2 {
            n00: self.n00 * s.n,
            n01: self.n01 * s.n,
            n10: self.n10 * s.n,
            n11: self.n11 * s.n,
            den: self.den * s.d,
        }
    }

    /// Every entry divided by the scalar `s`.
    pub fn div(&self, s: &Scalar) -> (r: Matrix2)
        requires
            self.bounded(),
            s.bounded(),
            s@.n != 0,
        ensures
            r@ == self@.scale(s@.recip()),
            r.wf(),
    {
        let rec = if s.n >= 0 {
            Scalar { n: s.d, d: s.n }
        } else {
            Scalar { n: -s.d, d: -s.n }
        };
        self.mul_scalar(&rec)
    }

    /// Replaces this matrix with it divided by `s`.
    pub fn div_assign(&mut self, s: &Scalar)
        requires
            old(self).bounded(),
            s.bounded(),
            s@.n != 0,
        ensures
            final(self)@ == old(self)@.scale(s@.recip()),
            final(self).wf(),
    {
        *self = self.div(s);
    }

    /// The rotation by the angle whose cosine is `c` and sine is `s`.
    pub fn make_rotation(c: &Scalar, s: &Scalar) -> (r: Matrix2)
        requires
            c.bounded(),
            s.bounded(),
        ensures
            r@ == M2::rotation(c@, s@),
            r.wf(),
    {
        proof {
            lemma_mul_bound(c@.n, s@.d, LIM as int, LIM as int);
            lemma_mul_bound(s@.n, c@.d, LIM as int, LIM as int);
            lemma_mul_bound(c@.d, s@.d, LIM as int, LIM as int);
            lemma_mul_pos(c@.d, s@.d);
        }
        Matrix2 {
            n00: c.n * s.d,
            n01: -(s.n * c.d),
            n10: s.n * c.d,
            n11: c.n * s.d,
            den: c.d * s.d,
        }
    }

    /// Scale along the x axis only.
    pub fn make_scale_x(s: &Scalar) -> (r: Matrix2)
        requires
            s.bounded(),
        ensures
            r@ == (M2 { e00: s@.n, e01: 0, e10: 0, e11: s@.d, d: s@.d }),
            r.wf(),
    {
        Matrix2 { n00: s.n, n01: 0, n10: 0, n11: s.d, den: s.d }
    }

    /// Scale along the y axis only.
    pub fn make_scale_y(s: &Scalar) -> (r: Matrix2)
        requires
            s.bounded(),
        ensures
            r@ == (M2 { e00: s@.d, e01: 0, e10: 0, e11: s@.n, d: s@.d }),
            r.wf(),
    {
        Matrix2 { n00: s.d, n01: 0, n10: 0, n11: s.n, den: s.d }
    }

    /// The uniform scale by `s` in both axes.
    pub fn make_scale(s: &Scalar) -> (r: Matrix2)
        requires
            s.bounded(),
        ensures
            r@ == (M2 { e00: s@.n, e01: 0, e10: 0, e11: s@.n, d: s@.d }),
            r.wf(),
    {
        Matrix2 { n00: s.n, n01: 0, n10: 0, n11: s.n, den: s.d }
    }

    /// The diagonal scale by `sx` and `sy` along the two axes.
    pub fn make_scale_xy(sx: &Scalar, sy: &Scalar) -> (r: Matrix2)
        requires
            sx.bounded(),
            sy.bounded(),
        ensures
            r@ == M2::scale_diag(sx@, sy@),
            r.wf(),
    {
        proof {
            lemma_mul_bound(sx@.n, sy@.d, LIM as int, LIM as int);
            lemma_mul_bound(sy@.n, sx@.d, LIM as int, LIM as int);
            lemma_mul_bound(sx@.d, sy@.d, LIM as int, LIM as int);
            lemma_mul_pos(sx@.d, sy@.d);
        }
        Matrix2 { n00: sx.n * sy.d, n01: 0, n10: 0, n11: sy.n * sx.d, den: sx.d * sy.d }
    }
}

/// A product with a negated factor is the negated product.
proof fn lemma_neg_mul2(a: int, b: int)
    by (nonlinear_arith)
    ensures
        a * (-b) == -(a * b),
{
}

/// Distributes a common factor out of a two-term sum of products, in both
/// sign arrangements.
proof fn lemma_factor2(p: int, q: int, u: int, v: int, dd: int)
    ensures
        p * (dd * u) + q * (-(dd * v)) == dd * (p * u - q * v),
        p * (-(dd * u)) + q * (dd * v) == dd * (-(p * u - q * v)),
{
    vstd::arithmetic::mul::lemma_mul_is_associative(p, dd, u);
    vstd::arithmetic::mul::lemma_mul_is_commutative(p, dd);
    vstd::arithmetic::mul::lemma_mul_is_associative(dd, p, u);
    vstd::arithmetic::mul::lemma_mul_is_associative(q, dd, v);
    vstd::arithmetic::mul::lemma_mul_is_commutative(q, dd);
    vstd::arithmetic::mul::lemma_mul_is_associative(dd, q, v);
    vstd::arithmetic::mul::lemma_mul_is_distributive_sub(dd, p * u, q * v);
    lemma_neg_mul2(q, dd * v);
    lemma_neg_mul2(p, dd * u);
    lemma_neg_mul2(dd, p * u - q * v);
}

/// A matrix with nonzero determinant, multiplied by its `inverse`, is the
/// identity.
pub proof fn lemma_mul_inverse(m: M2)
    requires
        m.wf(),
        m.det_num() != 0,
    ensures
        m.mul(m.inverse()).eq_rat(M2::identity()),
{
    lemma_factor2(m.e00, m.e01, m.e11, m.e10, m.d);
    lemma_factor2(m.e00, m.e01, m.e01, m.e00, m.d);
    lemma_factor2(m.e10, m.e11, m.e11, m.e10, m.d);
    lemma_factor2(m.e10, m.e11, m.e01, m.e00, m.d);
    vstd::arithmetic::mul::lemma_mul_is_commutative(m.e01, m.e10);
    vstd::arithmetic::mul::lemma_mul_is_commutative(m.e11, m.e00);
    vstd::arithmetic::mul::lemma_mul_is_commutative(m.e00, m.e01);
    vstd::arithmetic::mul::lemma_mul_is_commutative(m.e10, m.e11);
}

/// Transposing twice gives the matrix back, exactly.
pub proof fn lemma_transpose_involution(m: M2)
    ensures
        m.transpose().transpose() == m,
{
}

/// Four factors regrouped: the product of two products swaps its middle
/// factors.
proof fn lemma_shuffle4(a: int, b: int, c: int, d: int)
    by (nonlinear_arith)
    ensures
        (a * b) * (c * d) == (a * c) * (b * d),
{
}

/// The determinant numerators multiply across a product: both sides are
/// expanded to the same four monomials.
proof fn lemma_det_mul_num2(
    a00: int,
    a01: int,
    a10: int,
    a11: int,
    b00: int,
    b01: int,
    b10: int,
    b11: int,
)
    ensures
        (a00 * b00 + a01 * b10) * (a10 * b01 + a11 * b11) - (a10 * b00 + a11 * b10) * (a00 * b01
            + a01 * b11) == (a00 * a11 - a10 * a01) * (b00 * b11 - b10 * b01),
{
    let p = a00 * b00;
    let q = a01 * b10;
    let r = a10 * b01;
    let s = a11 * b11;
    let e = a10 * b00;
    let f = a11 * b10;
    let g = a00 * b01;
    let h = a01 * b11;
    vstd::arithmetic::mul::lemma_mul_is_distributive_add(p + q, r, s);
    vstd::arithmetic::mul::lemma_mul_is_distributive_add_other_way(r, p, q);
    vstd::arithmetic::mul::lemma_mul_is_distributive_add_other_way(s, p, q);
    vstd::arithmetic::mul::lemma_mul_is_distributive_add(e + f, g, h);
    vstd::arithmetic::mul::lemma_mul_is_distributive_add_other_way(g, e, f);
    vstd::arithmetic::mul::lemma_mul_is_distributive_add_other_way(h, e, f);
    lemma_shuffle4(a00, b00, a10, b01);
    lemma_shuffle4(a00, b00, a11, b11);
    lemma_shuffle4(a01, b10, a10, b01);
    lemma_shuffle4(a01, b10, a11, b11);
    lemma_shuffle4(a10, b00, a00, b01);
    lemma_shuffle4(a10, b00, a01, b11);
    lemma_shuffle4(a11, b10, a00, b01);
    lemma_shuffle4(a11, b10, a01, b11);
    vstd::arithmetic::mul::lemma_mul_is_distributive_sub(a00 * a11 - a10 * a01, b00 * b11, b10 * b01);
    vstd::arithmetic::mul::lemma_mul_is_distributive_sub_other_way(b00 * b11, a00 * a11, a10 * a01);
    vstd::arithmetic::mul::lemma_mul_is_distributive_sub_other_way(b10 * b01, a00 * a11, a10 * a01);
    lemma_shuffle4(a00, a11, b00, b11);
    lemma_shuffle4(a00, a11, b10, b01);
    lemma_shuffle4(a10, a01, b00, b11);
    lemma_shuffle4(a10, a01, b10, b01);
    lemma_shuffle4(a00, b00, a11, b11);
    lemma_shuffle4(a10, a01, b01, b10);
    lemma_shuffle4(a01, a10, b10, b01);
    vstd::arithmetic::mul::lemma_mul_is_commutative(b01, b10);
    vstd::arithmetic::mul::lemma_mul_is_commutative(a01, a10);
    vstd::arithmetic::mul::lemma_mul_is_commutative(b10, b01);
    lemma_shuffle4(a01, a10, b01, b10);
    lemma_shuffle4(a10, b01, a01, b10);
    lemma_shuffle4(a11, b11, a00, b00);
}

/// Squaring a product is the product of the squares.
proof fn lemma_square_swap(a: int, b: int)
    by (nonlinear_arith)
    ensures
        (a * a) * (b * b) == (a * b) * (a * b),
{
}

/// The determinant of a product of matrices is the product of their
/// determinants.
pub proof fn lemma_det_mul(m1: M2, m2: M2)
    ensures
        m1.mul(m2).det_rat().eq_rat(m1.det_rat().mul(m2.det_rat())),
{
    lemma_det_mul_num2(m1.e00, m1.e01, m1.e10, m1.e11, m2.e00, m2.e01, m2.e10, m2.e11);
    lemma_square_swap(m1.d, m2.d);
}

} // verus!
