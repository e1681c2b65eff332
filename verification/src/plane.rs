use vstd::prelude::*;

use crate::point3::Point3;
use crate::scalar::{lemma_mul_bound, lemma_mul_pos, Rat, Scalar, LIM};
use crate::vector3::{Vector3, V3};

verus! {

/// The mathematical value of a plane: the implicit surface
/// `x*px + y*py + z*pz + w = 0`, held as integer numerators over the
/// common positive denominator `d`.
pub ghost struct P4 {
    pub x: int,
    pub y: int,
    pub z: int,
    pub w: int,
    pub d: int,
}

impl P4 {
    pub open spec fn wf(self) -> bool {
        self.d > 0
    }

    pub open spec fn bounded(self) -> bool {
        &&& -LIM <= self.x <= LIM
        &&& -LIM <= self.y <= LIM
        &&& -LIM <= self.z <= LIM
        &&& -LIM <= self.w <= LIM
        &&& 0 < self.d <= LIM
    }

    /// The normal direction of the plane.
    pub open spec fn normal(self) -> V3 {
        V3 { x: self.x, y: self.y, z: self.z, d: self.d }
    }

    /// The plane evaluated on a direction: the dot product with the
    /// normal, ignoring the offset.
    pub open spec fn vec_dot(self, v: V3) -> Rat {
        Rat { n: self.x * v.x + self.y * v.y + self.z * v.z, d: self.d * v.d }
    }

    /// The plane evaluated at a position: the signed-distance-like
    /// quantity including the offset `w`.
    pub open spec fn point_dot(self, p: V3) -> Rat {
        Rat { n: self.x * p.x + self.y * p.y + self.z * p.z + self.w * p.d, d: self.d * p.d }
    }
}

/// A plane in implicit form: the points where `x*px + y*py + z*pz + w`
/// vanishes. Exact rational coefficients held as integer numerators over
/// the positive denominator `den`; `(x, y, z)` should be a unit normal for
/// distance-style queries to be meaningful (not enforced).
#[derive(Clone, Copy, Debug, PartialEq, Eq, Structural)]
pub struct Plane {
    /// Numerator of the x coefficient of the normal.
    pub x: i128,
    /// Numerator of the y coefficient of the normal.
    pub y: i128,
    /// Numerator of the z coefficient of the normal.
    pub z: i128,
    /// Numerator of the constant offset.
    pub w: i128,
    /// Common denominator of the four coefficients; always positive.
    pub den: i128,
}

impl View for Plane {
    type V = P4;

    open spec fn view(&self) -> P4 {
        P4 {
            x: self.x as int,
            y: self.y as int,
            z: self.z as int,
            w: self.w as int,
            d: self.den as int,
        }
    }
}

impl Plane {
    pub open spec fn wf(self) -> bool {
        self@.wf()
    }

    pub open spec fn bounded(self) -> bool {
        self@.bounded()
    }

    /// The plane with four whole coefficients.
    pub fn new(x: i128, y: i128, z: i128, w: i128) -> (r: Plane)
        ensures
            r@ == (P4 { x: x as int, y: y as int, z: z as int, w: w as int, d: 1 }),
    {
        Plane { x, y, z, w, den: 1 }
    }

    /// The plane `(x, y, z, w) / den`.
    pub fn new_scaled(x: i128, y: i128, z: i128, w: i128, den: i128) -> (r: Plane)
        requires
            den > 0,
        ensures
            r@ == (P4 { x: x as int, y: y as int, z: z as int, w: w as int, d: den as int }),
    {
        Plane { x, y, z, w, den }
    }

    /// The plane with the normal direction `v` and the offset `d`,
    /// brought to a common denominator.
    pub fn new_with_vec(v: &Vector3, d: &Scalar) -> (r: Plane)
        requires
            v.bounded(),
            d.bounded(),
        ensures
            r@ == (P4 {
                x: v@.x * d@.d,
                y: v@.y * d@.d,
                z: v@.z * d@.d,
                w: d@.n * v@.d,
                d: v@.d * d@.d,
            }),
            r.wf(),
    {
        proof {
            lemma_mul_bound(v@.x, d@.d, LIM as int, LIM as int);
            lemma_mul_bound(v@.y, d@.d, LIM as int, LIM as int);
            lemma_mul_bound(v@.z, d@.d, LIM as int, LIM as int);
            lemma_mul_bound(d@.n, v@.d, LIM as int, LIM as int);
            lemma_mul_bound(v@.d, d@.d, LIM as int, LIM as int);
            lemma_mul_pos(v@.d, d@.d);
        }
        Plane {
            x: v.x * d.d,
            y: v.y * d.d,
            z: v.z * d.d,
            w: d.n * v.den,
            den: v.den * d.d,
        }
    }

    /// The normal direction of the plane.
    pub fn get_normal(&self) -> (r: Vector3)
        ensures
            r@ == self@.normal(),
    {
        Vector3 { x: self.x, y: self.y, z: self.z, den: self.den }
    }

    /// The plane evaluated on the direction `v`.
    pub fn vec_dot(&self, v: &Vector3) -> (r: Scalar)
        requires
            self.bounded(),
            v.bounded(),
        ensures
            r@ == self@.vec_dot(v@),
            r.wf(),
    {
        proof {
            lemma_mul_bound(self@.x, v@.x, LIM as int, LIM as int);
            lemma_mul_bound(self@.y, v@.y, LIM as int, LIM as int);
            lemma_mul_bound(self@.z, v@.z, LIM as int, LIM as int);
            lemma_mul_bound(self@.d, v@.d, LIM as int, LIM as int);
            lemma_mul_pos(self@.d, v@.d);
        }
        Scalar {
            n: self.x * v.x + self.y * v.y + self.z * v.z,
            d: self.den * v.den,
        }
    }

    /// The plane evaluated at the position `p`.
    pub fn point_dot(&self, p: &Point3) -> (r: Scalar)
        requires
            self.bounded(),
            p.bounded(),
        ensures
            r@ == self@.point_dot(p@),
            r.wf(),
    {
        proof {
            lemma_mul_bound(self@.x, p@.x, LIM as int, LIM as int);
            lemma_mul_bound(self@.y, p@.y, LIM as int, LIM as int);
            lemma_mul_bound(self@.z, p@.z, LIM as int, LIM as int);
            lemma_mul_bound(self@.w, p@.d, LIM as int, LIM as int);
            lemma_mul_bound(self@.d, p@.d, LIM as int, LIM as int);
            lemma_mul_pos(self@.d, p@.d);
        }
        Scalar {
            n: self.x * p.x + self.y * p.y + self.z * p.z + self.w * p.den,
            d: self.den * p.den,
        }
    }
}

/// The plane `self` carried through the transform `h`: the coefficient row
/// is multiplied by the columns of `h`, so the new plane contains exactly
/// the images of the old plane's points under `h`'s inverse convention of
/// the source.
impl Plane {
    pub fn mul_transform(&self, h: &crate::transform4::Transform4) -> (r: Plane)
        requires
            self.bounded(),
            h.bounded(),
        ensures
            r@ == (P4 {
                x: self@.x * h@.e00 + self@.y * h@.e10 + self@.z * h@.e20,
                y: self@.x * h@.e01 + self@.y * h@.e11 + self@.z * h@.e21,
                z: self@.x * h@.e02 + self@.y * h@.e12 + self@.z * h@.e22,
                w: self@.x * h@.e03 + self@.y * h@.e13 + self@.z * h@.e23 + self@.w * h@.d,
                d: self@.d * h@.d,
            }),
            r.wf(),
    {
        proof {
            lemma_mul_bound(self@.x, h@.e00, LIM as int, LIM as int);
            lemma_mul_bound(self@.y, h@.e10, LIM as int, LIM as int);
            lemma_mul_bound(self@.z, h@.e20, LIM as int, LIM as int);
            lemma_mul_bound(self@.x, h@.e01, LIM as int, LIM as int);
            lemma_mul_bound(self@.y, h@.e11, LIM as int, LIM as int);
            lemma_mul_bound(self@.z, h@.e21, LIM as int, LIM as int);
            lemma_mul_bound(self@.x, h@.e02, LIM as int, LIM as int);
            lemma_mul_bound(self@.y, h@.e12, LIM as int, LIM as int);
            lemma_mul_bound(self@.z, h@.e22, LIM as int, LIM as int);
            lemma_mul_bound(self@.x, h@.e03, LIM as int, LIM as int);
            lemma_mul_bound(self@.y, h@.e13, LIM as int, LIM as int);
            lemma_mul_bound(self@.z, h@.e23, LIM as int, LIM as int);
            lemma_mul_bound(self@.w, h@.d, LIM as int, LIM as int);
            lemma_mul_bound(self@.d, h@.d, LIM as int, LIM as int);
            lemma_mul_pos(self@.d, h@.d);
        }
        Plane {
            x: self.x * h.n00 + self.y * h.n10 + self.z * h.n20,
            y: self.x * h.n01 + self.y * h.n11 + self.z * h.n21,
            z: self.x * h.n02 + self.y * h.n12 + self.z * h.n22,
            w: self.x * h.n03 + self.y * h.n13 + self.z * h.n23 + self.w * h.den,
            den: self.den * h.den,
        }
    }
}

/// The numerator of the determinant of the three plane normals: the scalar
/// triple product of the numerator normals.
pub open spec fn planes_det(f1: P4, f2: P4, f3: P4) -> int {
    (f1.y * f2.z - f1.z * f2.y) * f3.x + (f1.z * f2.x - f1.x * f2.z) * f3.y + (f1.x * f2.y - f1.y
        * f2.x) * f3.z
}

/// The numerators of the point where three planes meet, by Cramer's rule
/// over cross products; over the denominator `planes_det`.
pub open spec fn planes_point(f1: P4, f2: P4, f3: P4) -> V3 {
    let det = planes_det(f1, f2, f3);
    let tx = (f3.y * f2.z - f3.z * f2.y) * f1.w + (f1.y * f3.z - f1.z * f3.y) * f2.w - (f1.y * f2.z
        - f1.z * f2.y) * f3.w;
    let ty = (f3.z * f2.x - f3.x * f2.z) * f1.w + (f1.z * f3.x - f1.x * f3.z) * f2.w - (f1.z * f2.x
        - f1.x * f2.z) * f3.w;
    let tz = (f3.x * f2.y - f3.y * f2.x) * f1.w + (f1.x * f3.y - f1.y * f3.x) * f2.w - (f1.x * f2.y
        - f1.y * f2.x) * f3.w;
    if det >= 0 {
        V3 { x: tx, y: ty, z: tz, d: det }
    } else {
        V3 { x: -tx, y: -ty, z: -tz, d: -det }
    }
}

/// The point at which three planes intersect: `None` exactly when the
/// normals are not linearly independent (the determinant of the normals is
/// zero), the common degenerate configuration.
pub fn three_planes_intersect(f1: &Plane, f2: &Plane, f3: &Plane) -> (r: Option<Point3>)
    requires
        f1.bounded(),
        f2.bounded(),
        f3.bounded(),
    ensures
        r is Some <==> planes_det(f1@, f2@, f3@) != 0,
        match r {
            Some(p) => p@ == planes_point(f1@, f2@, f3@) && p.wf(),
            None => true,
        },
{
    proof {
        lemma_mul_bound(f1@.y, f2@.z, LIM as int, LIM as int);
        lemma_mul_bound(f1@.z, f2@.y, LIM as int, LIM as int);
        lemma_mul_bound(f1@.z, f2@.x, LIM as int, LIM as int);
        lemma_mul_bound(f1@.x, f2@.z, LIM as int, LIM as int);
        lemma_mul_bound(f1@.x, f2@.y, LIM as int, LIM as int);
        lemma_mul_bound(f1@.y, f2@.x, LIM as int, LIM as int);
        lemma_mul_bound(f3@.y, f2@.z, LIM as int, LIM as int);
        lemma_mul_bound(f3@.z, f2@.y, LIM as int, LIM as int);
        lemma_mul_bound(f3@.z, f2@.x, LIM as int, LIM as int);
        lemma_mul_bound(f3@.x, f2@.z, LIM as int, LIM as int);
        lemma_mul_bound(f3@.x, f2@.y, LIM as int, LIM as int);
        lemma_mul_bound(f3@.y, f2@.x, LIM as int, LIM as int);
        lemma_mul_bound(f1@.y, f3@.z, LIM as int, LIM as int);
        lemma_mul_bound(f1@.z, f3@.y, LIM as int, LIM as int);
        lemma_mul_bound(f1@.z, f3@.x, LIM as int, LIM as int);
        lemma_mul_bound(f1@.x, f3@.z, LIM as int, LIM as int);
        lemma_mul_bound(f1@.x, f3@.y, LIM as int, LIM as int);
        lemma_mul_bound(f1@.y, f3@.x, LIM as int, LIM as int);
        lemma_mul_bound(f1@.y * f2@.z - f1@.z * f2@.y, f3@.x, 144115188075855872, LIM as int);
        lemma_mul_bound(f1@.z * f2@.x - f1@.x * f2@.z, f3@.y, 144115188075855872, LIM as int);
        lemma_mul_bound(f1@.x * f2@.y - f1@.y * f2@.x, f3@.z, 144115188075855872, LIM as int);
        lemma_mul_bound(f3@.y * f2@.z - f3@.z * f2@.y, f1@.w, 144115188075855872, LIM as int);
        lemma_mul_bound(f1@.y * f3@.z - f1@.z * f3@.y, f2@.w, 144115188075855872, LIM as int);
        lemma_mul_bound(f1@.y * f2@.z - f1@.z * f2@.y, f3@.w, 144115188075855872, LIM as int);
        lemma_mul_bound(f3@.z * f2@.x - f3@.x * f2@.z, f1@.w, 144115188075855872, LIM as int);
        lemma_mul_bound(f1@.z * f3@.x - f1@.x * f3@.z, f2@.w, 144115188075855872, LIM as int);
        lemma_mul_bound(f1@.z * f2@.x - f1@.x * f2@.z, f3@.w, 144115188075855872, LIM as int);
        lemma_mul_bound(f3@.x * f2@.y - f3@.y * f2@.x, f1@.w, 144115188075855872, LIM as int);
        lemma_mul_bound(f1@.x * f3@.y - f1@.y * f3@.x, f2@.w, 144115188075855872, LIM as int);
        lemma_mul_bound(f1@.x * f2@.y - f1@.y * f2@.x, f3@.w, 144115188075855872, LIM as int);
    }
    let det = (f1.y * f2.z - f1.z * f2.y) * f3.x + (f1.z * f2.x - f1.x * f2.z) * f3.y + (f1.x
        * f2.y - f1.y * f2.x) * f3.z;
    if det == 0 {
        return None;
    }
    let tx = (f3.y * f2.z - f3.z * f2.y) * f1.w + (f1.y * f3.z - f1.z * f3.y) * f2.w - (f1.y * f2.z
        - f1.z * f2.y) * f3.w;
    let ty = (f3.z * f2.x - f3.x * f2.z) * f1.w + (f1.z * f3.x - f1.x * f3.z) * f2.w - (f1.z * f2.x
        - f1.x * f2.z) * f3.w;
    let tz = (f3.x * f2.y - f3.y * f2.x) * f1.w + (f1.x * f3.y - f1.y * f3.x) * f2.w - (f1.x * f2.y
        - f1.y * f2.x) * f3.w;
    if det >= 0 {
        Some(Point3 { x: tx, y: ty, z: tz, den: det })
    } else {
        Some(Point3 { x: -tx, y: -ty, z: -tz, den: -det })
    }
}

/// The squared numerator length of the cross product of two plane normals;
/// zero exactly when the planes are parallel.
pub open spec fn planes_cross_norm2(f1: P4, f2: P4) -> int {
    let vx = f1.y * f2.z - f1.z * f2.y;
    let vy = f1.z * f2.x - f1.x * f2.z;
    let vz = f1.x * f2.y - f1.y * f2.x;
    vx * vx + vy * vy + vz * vz
}

/// The line at which two planes intersect, as a point on the line and its
/// direction: `None` exactly when the normals are parallel (their cross
/// product is zero), the common degenerate configuration.
pub fn two_planes_intersect(f1: &Plane, f2: &Plane) -> (r: Option<(Point3, Vector3)>)
    requires
        f1.bounded(),
        f2.bounded(),
    ensures
        r is Some <==> planes_cross_norm2(f1@, f2@) != 0,
        match r {
            Some(pv) => {
                &&& pv.1@ == (V3 {
                    x: f1@.y * f2@.z - f1@.z * f2@.y,
                    y: f1@.z * f2@.x - f1@.x * f2@.z,
                    z: f1@.x * f2@.y - f1@.y * f2@.x,
                    d: f1@.d * f2@.d,
                })
                &&& pv.0@ == (V3 {
                    x: ((f1@.z * f2@.x - f1@.x * f2@.z) * f2@.z - (f1@.x * f2@.y - f1@.y * f2@.x)
                        * f2@.y) * f1@.w + (f1@.y * (f1@.x * f2@.y - f1@.y * f2@.x) - f1@.z * (
                    f1@.z * f2@.x - f1@.x * f2@.z)) * f2@.w,
                    y: ((f1@.x * f2@.y - f1@.y * f2@.x) * f2@.x - (f1@.y * f2@.z - f1@.z * f2@.y)
                        * f2@.z) * f1@.w + (f1@.z * (f1@.y * f2@.z - f1@.z * f2@.y) - f1@.x * (
                    f1@.x * f2@.y - f1@.y * f2@.x)) * f2@.w,
                    z: ((f1@.y * f2@.z - f1@.z * f2@.y) * f2@.y - (f1@.z * f2@.x - f1@.x * f2@.z)
                        * f2@.x) * f1@.w + (f1@.x * (f1@.z * f2@.x - f1@.x * f2@.z) - f1@.y * (
                    f1@.y * f2@.z - f1@.z * f2@.y)) * f2@.w,
                    d: planes_cross_norm2(f1@, f2@),
                })
                &&& pv.0.wf()
                &&& pv.1.wf()
            },
            None => true,
        },
{
    proof {
        lemma_mul_bound(f1@.y, f2@.z, LIM as int, LIM as int);
        lemma_mul_bound(f1@.z, f2@.y, LIM as int, LIM as int);
        lemma_mul_bound(f1@.z, f2@.x, LIM as int, LIM as int);
        lemma_mul_bound(f1@.x, f2@.z, LIM as int, LIM as int);
        lemma_mul_bound(f1@.x, f2@.y, LIM as int, LIM as int);
        lemma_mul_bound(f1@.y, f2@.x, LIM as int, LIM as int);
        lemma_mul_bound(f1@.d, f2@.d, LIM as int, LIM as int);
        lemma_mul_pos(f1@.d, f2@.d);
    }
    let vx = f1.y * f2.z - f1.z * f2.y;
    let vy = f1.z * f2.x - f1.x * f2.z;
    let vz = f1.x * f2.y - f1.y * f2.x;
    proof {
        lemma_mul_bound(vx as int, vx as int, 144115188075855872, 144115188075855872);
        lemma_mul_bound(vy as int, vy as int, 144115188075855872, 144115188075855872);
        lemma_mul_bound(vz as int, vz as int, 144115188075855872, 144115188075855872);
        assert(vx as int * vx >= 0 && vy as int * vy >= 0 && vz as int * vz >= 0)
            by (nonlinear_arith);
        assert(vx as int * vx == 0 ==> vx as int == 0) by (nonlinear_arith);
        assert(vy as int * vy == 0 ==> vy as int == 0) by (nonlinear_arith);
        assert(vz as int * vz == 0 ==> vz as int == 0) by (nonlinear_arith);
        assert(vx as int == 0 ==> vx as int * vx == 0) by (nonlinear_arith);
        assert(vy as int == 0 ==> vy as int * vy == 0) by (nonlinear_arith);
        assert(vz as int == 0 ==> vz as int * vz == 0) by (nonlinear_arith);
    }
    let det = vx * vx + vy * vy + vz * vz;
    if det == 0 {
        return None;
    }
    proof {
        lemma_mul_bound(vy as int, f2@.z, 144115188075855872, LIM as int);
        lemma_mul_bound(vz as int, f2@.y, 144115188075855872, LIM as int);
        lemma_mul_bound(vz as int, f2@.x, 144115188075855872, LIM as int);
        lemma_mul_bound(vx as int, f2@.z, 144115188075855872, LIM as int);
        lemma_mul_bound(vx as int, f2@.y, 144115188075855872, LIM as int);
        lemma_mul_bound(vy as int, f2@.x, 144115188075855872, LIM as int);
        lemma_mul_bound(f1@.y, vz as int, LIM as int, 144115188075855872);
        lemma_mul_bound(f1@.z, vy as int, LIM as int, 144115188075855872);
        lemma_mul_bound(f1@.z, vx as int, LIM as int, 144115188075855872);
        lemma_mul_bound(f1@.x, vz as int, LIM as int, 144115188075855872);
        lemma_mul_bound(f1@.x, vy as int, LIM as int, 144115188075855872);
        lemma_mul_bound(f1@.y, vx as int, LIM as int, 144115188075855872);
        lemma_mul_bound(vy as int * f2@.z - vz as int * f2@.y, f1@.w, 77371252455336267181195264, LIM as int);
        lemma_mul_bound(vz as int * f2@.x - vx as int * f2@.z, f1@.w, 77371252455336267181195264, LIM as int);
        lemma_mul_bound(vx as int * f2@.y - vy as int * f2@.x, f1@.w, 77371252455336267181195264, LIM as int);
        lemma_mul_bound(f1@.y * vz as int - f1@.z * vy as int, f2@.w, 77371252455336267181195264, LIM as int);
        lemma_mul_bound(f1@.z * vx as int - f1@.x * vz as int, f2@.w, 77371252455336267181195264, LIM as int);
        lemma_mul_bound(f1@.x * vy as int - f1@.y * vx as int, f2@.w, 77371252455336267181195264, LIM as int);
    }
    let px = (vy * f2.z - vz * f2.y) * f1.w + (f1.y * vz - f1.z * vy) * f2.w;
    let py = (vz * f2.x - vx * f2.z) * f1.w + (f1.z * vx - f1.x * vz) * f2.w;
    let pz = (vx * f2.y - vy * f2.x) * f1.w + (f1.x * vy - f1.y * vx) * f2.w;
    let p = Point3 { x: px, y: py, z: pz, den: det };
    let dir = Vector3 { x: vx, y: vy, z: vz, den: f1.den * f2.den };
    Some((p, dir))
}

} // verus!
