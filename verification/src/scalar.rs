use vstd::prelude::*;

verus! {

/// Largest magnitude accepted for the stored numerators and denominators of
/// the values an operation consumes. Every arithmetic routine in this crate
/// works on 128-bit integers; the bound leaves enough headroom that even the
/// degree-four polynomials of the 4x4 inverse stay inside `i128`.
pub const LIM: i128 = 268435456;

/// Largest argument accepted by `isqrt`; its square root then fits well
/// inside the binary-search window.
pub const SQRT_LIM: i128 = 0x4000000000000000;

/// The mathematical value of a stored number: the rational `n / d`.
/// Denominators are kept strictly positive, so the sign lives in `n`.
pub ghost struct Rat {
    pub n: int,
    pub d: int,
}

impl Rat {
    /// A well-formed rational keeps its denominator positive.
    pub open spec fn wf(self) -> bool {
        self.d > 0
    }

    /// Equality of the represented rationals (cross multiplication),
    /// independent of the chosen representative pair.
    pub open spec fn eq_rat(self, o: Rat) -> bool {
        self.n * o.d == o.n * self.d
    }

    pub open spec fn from_int(n: int) -> Rat {
        Rat { n: n, d: 1 }
    }

    pub open spec fn add(self, o: Rat) -> Rat {
        Rat { n: self.n * o.d + o.n * self.d, d: self.d * o.d }
    }

    pub open spec fn sub(self, o: Rat) -> Rat {
        Rat { n: self.n * o.d - o.n * self.d, d: self.d * o.d }
    }

    pub open spec fn mul(self, o: Rat) -> Rat {
        Rat { n: self.n * o.n, d: self.d * o.d }
    }

    /// Division, with the sign moved into the numerator so that the
    /// denominator stays positive.
    pub open spec fn div(self, o: Rat) -> Rat {
        if o.n >= 0 {
            Rat { n: self.n * o.d, d: self.d * o.n }
        } else {
            Rat { n: -(self.n * o.d), d: self.d * -o.n }
        }
    }

    pub open spec fn neg(self) -> Rat {
        Rat { n: -self.n, d: self.d }
    }

    /// The reciprocal, with the sign moved into the numerator so that the
    /// denominator stays positive. Meaningful only when `n` is not zero.
    pub open spec fn recip(self) -> Rat {
        if self.n >= 0 {
            Rat { n: self.d, d: self.n }
        } else {
            Rat { n: -self.d, d: -self.n }
        }
    }

    /// Bounds under which exec code may combine two stored numbers.
    pub open spec fn bounded(self) -> bool {
        &&& -LIM <= self.n <= LIM
        &&& 0 < self.d <= LIM
    }
}

/// Product bound: factors bounded in magnitude give a bounded product.
pub proof fn lemma_mul_bound(a: int, b: int, la: int, lb: int)
    by (nonlinear_arith)
    requires
        -la <= a <= la,
        -lb <= b <= lb,
    ensures
        -(la * lb) <= a * b <= la * lb,
{
}

/// The product of two positive numbers is positive.
pub proof fn lemma_mul_pos(a: int, b: int)
    by (nonlinear_arith)
    requires
        a > 0,
        b > 0,
    ensures
        a * b > 0,
{
}

/// A nonnegative number whose square equals `x` is the rounded-down
/// integer square root of `x`.
pub proof fn lemma_sqrt_unique_below(k: int, r: int, x: int)
    by (nonlinear_arith)
    requires
        k >= 0,
        r >= 0,
        k * k == x,
        r * r <= x,
        x < (r + 1) * (r + 1),
    ensures
        k == r,
{
}

/// An exact rational number: the value `n / d` with `d > 0`.
#[derive(Clone, Copy, Debug, PartialEq, Eq, Structural)]
pub struct Scalar {
    /// Numerator; carries the sign.
    pub n: i128,
    /// Denominator; always positive.
    pub d: i128,
}

impl View for Scalar {
    type V = Rat;

    open spec fn view(&self) -> Rat {
        Rat { n: self.n as int, d: self.d as int }
    }
}

impl Scalar {
    pub open spec fn wf(self) -> bool {
        self@.wf()
    }

    pub open spec fn bounded(self) -> bool {
        self@.bounded()
    }

    /// The rational `n / d`.
    pub fn new(n: i128, d: i128) -> (r: Scalar)
        requires
            d > 0,
        ensures
            r@ == (Rat { n: n as int, d: d as int }),
    {
        Scalar { n, d }
    }

    /// The whole number `n`.
    pub fn from_int(n: i128) -> (r: Scalar)
        ensures
            r@ == Rat::from_int(n as int),
    {
        Scalar { n, d: 1 }
    }

    /// Whether this and `o` denote the same rational number, whatever
    /// representative pairs the two hold.
    pub fn eq_rat(&self, o: &Scalar) -> (r: bool)
        requires
            self.bounded(),
            o.bounded(),
        ensures
            r == self@.eq_rat(o@),
    {
        proof {
            lemma_mul_bound(self.n as int, o.d as int, LIM as int, LIM as int);
            lemma_mul_bound(o.n as int, self.d as int, LIM as int, LIM as int);
        }
        self.n * o.d == o.n * self.d
    }

    pub fn add(&self, o: &Scalar) -> (r: Scalar)
        requires
            self.bounded(),
            o.bounded(),
        ensures
            r@ == self@.add(o@),
            r.wf(),
    {
        proof {
            lemma_mul_bound(self.n as int, o.d as int, LIM as int, LIM as int);
            lemma_mul_bound(o.n as int, self.d as int, LIM as int, LIM as int);
            lemma_mul_bound(self.d as int, o.d as int, LIM as int, LIM as int);
            lemma_mul_pos(self.d as int, o.d as int);
        }
        Scalar { n: self.n * o.d + o.n * self.d, d: self.d * o.d }
    }

    pub fn sub(&self, o: &Scalar) -> (r: Scalar)
        requires
            self.bounded(),
            o.bounded(),
        ensures
            r@ == self@.sub(o@),
            r.wf(),
    {
        proof {
            lemma_mul_bound(self.n as int, o.d as int, LIM as int, LIM as int);
            lemma_mul_bound(o.n as int, self.d as int, LIM as int, LIM as int);
            lemma_mul_bound(self.d as int, o.d as int, LIM as int, LIM as int);
            lemma_mul_pos(self.d as int, o.d as int);
        }
        Scalar { n: self.n * o.d - o.n * self.d, d: self.d * o.d }
    }

    pub fn mul(&self, o: &Scalar) -> (r: Scalar)
        requires
            self.bounded(),
            o.bounded(),
        ensures
            r@ == self@.mul(o@),
            r.wf(),
    {
        proof {
            lemma_mul_bound(self.n as int, o.n as int, LIM as int, LIM as int);
            lemma_mul_bound(self.d as int, o.d as int, LIM as int, LIM as int);
            lemma_mul_pos(self.d as int, o.d as int);
        }
        Scalar { n: self.n * o.n, d: self.d * o.d }
    }

    pub fn div(&self, o: &Scalar) -> (r: Scalar)
        requires
            self.bounded(),
            o.bounded(),
            o@.n != 0,
        ensures
            r@ == self@.div(o@),
            r.wf(),
    {
        proof {
            lemma_mul_bound(self.n as int, o.d as int, LIM as int, LIM as int);
            lemma_mul_bound(self.d as int, o.n as int, LIM as int, LIM as int);
            lemma_mul_bound(self.d as int, -o.n as int, LIM as int, LIM as int);
            if o.n > 0 {
                lemma_mul_pos(self.d as int, o.n as int);
            } else {
                lemma_mul_pos(self.d as int, -o.n as int);
            }
        }
        if o.n >= 0 {
            Scalar { n: self.n * o.d, d: self.d * o.n }
        } else {
            Scalar { n: -(self.n * o.d), d: self.d * -o.n }
        }
    }

    pub fn neg(&self) -> (r: Scalar)
        requires
            self.bounded(),
        ensures
            r@ == self@.neg(),
            r.wf(),
    {
        Scalar { n: -self.n, d: self.d }
    }
}

/// The integer square root of `x`, rounded down: the unique `r >= 0` with
/// `r * r <= x < (r + 1) * (r + 1)`.
pub fn isqrt(x: i128) -> (r: i128)
    requires
        0 <= x <= SQRT_LIM,
    ensures
        0 <= r,
        r * r <= x,
        x < (r + 1) * (r + 1),
{
    let mut lo: i128 = 0;
    let mut hi: i128 = 0x100000000;
    while lo + 1 < hi
        invariant
            0 <= lo < hi <= 0x100000000,
            lo * lo <= x,
            x < hi * hi,
        decreases hi - lo,
    {
        let mid = lo + (hi - lo) / 2;
        proof {
            lemma_mul_bound(mid as int, mid as int, 0x100000000, 0x100000000);
        }
        if mid * mid <= x {
            lo = mid;
        } else {
            hi = mid;
        }
    }
    lo
}

} // verus!
