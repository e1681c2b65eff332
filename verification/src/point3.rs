use vstd::prelude::*;

use crate::scalar::{lemma_mul_bound, lemma_mul_pos, Scalar, LIM};
use crate::vector3::{Vector3, V3};

verus! {

/// A three dimensional position: exact rational coordinates held as the
/// integer numerators `x`, `y`, `z` over the positive denominator `den`.
/// A point differs from a vector only in how operations treat it: it takes
/// part in affine combinations, never in linear ones.
#[derive(Clone, Copy, Debug, PartialEq, Eq, Structural)]
pub struct Point3 {
    /// Numerator of the x coordinate.
    pub x: i128,
    /// Numerator of the y coordinate.
    pub y: i128,
    /// Numerator of the z coordinate.
    pub z: i128,
    /// Common denominator of the three coordinates; always positive.
    pub den: i128,
}

impl View for Point3 {
    type V = V3;

    open spec fn view(&self) -> V3 {
        V3 { x: self.x as int, y: self.y as int, z: self.z as int, d: self.den as int }
    }
}

impl Point3 {
    pub open spec fn wf(self) -> bool {
        self@.wf()
    }

    pub open spec fn bounded(self) -> bool {
        self@.bounded()
    }

    /// The position with three whole coordinates.
    pub fn new(x: i128, y: i128, z: i128) -> (r: Point3)
        ensures
            r@ == V3::from_ints(x as int, y as int, z as int),
    {
        Point3 { x, y, z, den: 1 }
    }

    /// The position `(x, y, z) / den`.
    pub fn new_scaled(x: i128, y: i128, z: i128, den: i128) -> (r: Point3)
        requires
            den > 0,
        ensures
            r@ == (V3 { x: x as int, y: y as int, z: z as int, d: den as int }),
    {
        Point3 { x, y, z, den }
    }

    /// Whether this and `o` denote the same position.
    pub fn eq_rat(&self, o: &Point3) -> (r: bool)
        requires
            self.bounded(),
            o.bounded(),
        ensures
            r == self@.eq_rat(o@),
    {
        proof {
            lemma_mul_bound(self.x as int, o.den as int, LIM as int, LIM as int);
            lemma_mul_bound(self.y as int, o.den as int, LIM as int, LIM as int);
            lemma_mul_bound(self.z as int, o.den as int, LIM as int, LIM as int);
            lemma_mul_bound(o.x as int, self.den as int, LIM as int, LIM as int);
            lemma_mul_bound(o.y as int, self.den as int, LIM as int, LIM as int);
            lemma_mul_bound(o.z as int, self.den as int, LIM as int, LIM as int);
        }
        self.x * o.den == o.x * self.den && self.y * o.den == o.y * self.den && self.z * o.den
            == o.z * self.den
    }

    /// Moves this position by the direction `o`.
    pub fn add(&self, o: &Vector3) -> (r: Point3)
        requires
            self.bounded(),
            o.bounded(),
        ensures
            r@ == self@.add(o@),
            r.wf(),
    {
        let v = self.to_vector().add(o);
        Point3 { x: v.x, y: v.y, z: v.z, den: v.den }
    }

    /// Moves this position against the direction `o`.
    pub fn sub(&self, o: &Vector3) -> (r: Point3)
        requires
            self.bounded(),
            o.bounded(),
        ensures
            r@ == self@.sub(o@),
            r.wf(),
    {
        let v = self.to_vector().sub(o);
        Point3 { x: v.x, y: v.y, z: v.z, den: v.den }
    }

    /// The direction from `o` to this position.
    pub fn sub_point(&self, o: &Point3) -> (r: Vector3)
        requires
            self.bounded(),
            o.bounded(),
        ensures
            r@ == self@.sub(o@),
            r.wf(),
    {
        self.to_vector().sub(&o.to_vector())
    }

    /// The direction with the same coordinates.
    pub fn to_vector(&self) -> (r: Vector3)
        ensures
            r@ == self@,
    {
        Vector3 { x: self.x, y: self.y, z: self.z, den: self.den }
    }
}

/// The point at which the line through `p` with direction `v` meets the
/// plane `f`: `None` exactly when the direction is parallel to the plane
/// (the dot of the direction with the normal is zero).
pub fn plane_line_intersect(p: &Point3, v: &Vector3, f: &crate::plane::Plane) -> (r: Option<
    Point3,
>)
    requires
        p.bounded(),
        v.bounded(),
        f.bounded(),
    ensures
        r is Some <==> f@.x * v@.x + f@.y * v@.y + f@.z * v@.z != 0,
        match r {
            Some(q) => {
                &&& q.wf()
                &&& {
                    let fv = f@.x * v@.x + f@.y * v@.y + f@.z * v@.z;
                    let fp = f@.x * p@.x + f@.y * p@.y + f@.z * p@.z + f@.w * p@.d;
                    if fv >= 0 {
                        q@ == (V3 {
                            x: p@.x * fv - v@.x * fp,
                            y: p@.y * fv - v@.y * fp,
                            z: p@.z * fv - v@.z * fp,
                            d: p@.d * fv,
                        })
                    } else {
                        q@ == (V3 {
                            x: -(p@.x * fv - v@.x * fp),
                            y: -(p@.y * fv - v@.y * fp),
                            z: -(p@.z * fv - v@.z * fp),
                            d: p@.d * -fv,
                        })
                    }
                }
            },
            None => true,
        },
{
    proof {
        lemma_mul_bound(f@.x, v@.x, LIM as int, LIM as int);
        lemma_mul_bound(f@.y, v@.y, LIM as int, LIM as int);
        lemma_mul_bound(f@.z, v@.z, LIM as int, LIM as int);
        lemma_mul_bound(f@.x, p@.x, LIM as int, LIM as int);
        lemma_mul_bound(f@.y, p@.y, LIM as int, LIM as int);
        lemma_mul_bound(f@.z, p@.z, LIM as int, LIM as int);
        lemma_mul_bound(f@.w, p@.d, LIM as int, LIM as int);
    }
    let fv = f.x * v.x + f.y * v.y + f.z * v.z;
    if fv == 0 {
        return None;
    }
    let fp = f.x * p.x + f.y * p.y + f.z * p.z + f.w * p.den;
    proof {
        lemma_mul_bound(p@.x, fv as int, LIM as int, 216172782113783808);
        lemma_mul_bound(p@.y, fv as int, LIM as int, 216172782113783808);
        lemma_mul_bound(p@.z, fv as int, LIM as int, 216172782113783808);
        lemma_mul_bound(v@.x, fp as int, LIM as int, 288230376151711744);
        lemma_mul_bound(v@.y, fp as int, LIM as int, 288230376151711744);
        lemma_mul_bound(v@.z, fp as int, LIM as int, 288230376151711744);
        lemma_mul_bound(p@.d, fv as int, LIM as int, 216172782113783808);
        lemma_mul_bound(p@.d, -(fv as int), LIM as int, 216172782113783808);
        if fv > 0 {
            lemma_mul_pos(p@.d, fv as int);
        } else {
            lemma_mul_pos(p@.d, -(fv as int));
        }
    }
    if fv >= 0 {
        Some(
            Point3 {
                x: p.x * fv - v.x * fp,
                y: p.y * fv - v.y * fp,
                z: p.z * fv - v.z * fp,
                den: p.den * fv,
            },
        )
    } else {
        Some(
            Point3 {
                x: -(p.x * fv - v.x * fp),
                y: -(p.y * fv - v.y * fp),
                z: -(p.z * fv - v.z * fp),
                den: p.den * -fv,
            },
        )
    }
}

/// The squared distance from the point `q` to the line through `p` with
/// direction `v`: the squared cross product of the offset with the
/// direction, over the squared length of the direction. The closed form is
/// of degree eight in the inputs, so the inputs are bounded more tightly
/// than the kernel's operations ask.
pub fn point_line_distance_squared(q: &Point3, p: &Point3, v: &Vector3) -> (r: Scalar)
    requires
        q@.bounded_by(16384),
        p@.bounded_by(16384),
        v@.bounded_by(16384),
        v@.dot(v@).n != 0,
    ensures
        r@ == q@.sub(p@).cross(v@).dot(q@.sub(p@).cross(v@)).div(v@.dot(v@)),
        r.wf(),
{
    proof {
        lemma_mul_bound(q@.x, p@.d, 16384, 16384);
        lemma_mul_bound(q@.y, p@.d, 16384, 16384);
        lemma_mul_bound(q@.z, p@.d, 16384, 16384);
        lemma_mul_bound(p@.x, q@.d, 16384, 16384);
        lemma_mul_bound(p@.y, q@.d, 16384, 16384);
        lemma_mul_bound(p@.z, q@.d, 16384, 16384);
        lemma_mul_bound(q@.d, p@.d, 16384, 16384);
        lemma_mul_pos(q@.d, p@.d);
    }
    let dx = q.x * p.den - p.x * q.den;
    let dy = q.y * p.den - p.y * q.den;
    let dz = q.z * p.den - p.z * q.den;
    let dden = q.den * p.den;
    proof {
        lemma_mul_bound(dy as int, v@.z, 536870912, 16384);
        lemma_mul_bound(dz as int, v@.y, 536870912, 16384);
        lemma_mul_bound(dz as int, v@.x, 536870912, 16384);
        lemma_mul_bound(dx as int, v@.z, 536870912, 16384);
        lemma_mul_bound(dx as int, v@.y, 536870912, 16384);
        lemma_mul_bound(dy as int, v@.x, 536870912, 16384);
        lemma_mul_bound(dden as int, v@.d, 268435456, 16384);
        lemma_mul_pos(dden as int, v@.d);
    }
    let ax = dy * v.z - dz * v.y;
    let ay = dz * v.x - dx * v.z;
    let az = dx * v.y - dy * v.x;
    let aden = dden * v.den;
    proof {
        lemma_mul_bound(ax as int, ax as int, 17592186044416, 17592186044416);
        lemma_mul_bound(ay as int, ay as int, 17592186044416, 17592186044416);
        lemma_mul_bound(az as int, az as int, 17592186044416, 17592186044416);
        lemma_mul_bound(aden as int, aden as int, 4398046511104, 4398046511104);
        lemma_mul_bound(v@.x, v@.x, 16384, 16384);
        lemma_mul_bound(v@.y, v@.y, 16384, 16384);
        lemma_mul_bound(v@.z, v@.z, 16384, 16384);
        lemma_mul_bound(v@.d, v@.d, 16384, 16384);
        lemma_mul_pos(aden as int, aden as int);
        assert(v@.x * v@.x >= 0 && v@.y * v@.y >= 0 && v@.z * v@.z >= 0) by (nonlinear_arith);
        lemma_mul_bound(
            ax as int * ax + ay as int * ay + az as int * az,
            v@.d * v@.d,
            928455029464035206174343168,
            268435456,
        );
        lemma_mul_bound(aden as int * aden, v@.x * v@.x + v@.y * v@.y + v@.z * v@.z, 19342813113834066795298816, 805306368);
        lemma_mul_pos(aden as int * aden, v@.x * v@.x + v@.y * v@.y + v@.z * v@.z);
    }
    Scalar {
        n: (ax * ax + ay * ay + az * az) * (v.den * v.den),
        d: (aden * aden) * (v.x * v.x + v.y * v.y + v.z * v.z),
    }
}

/// The squared distance between the line through `p1` with direction `v1`
/// and the line through `p2` with direction `v2`. For skew or crossing
/// lines it is the squared offset-triple-product over the squared cross
/// product of the directions (the closed cross-product form of the
/// two-by-two closest-approach solve); when the directions are parallel --
/// exactly when their cross product vanishes, where the two-by-two system
/// is degenerate -- it falls back to the point-to-line form against the
/// first line. The closed form is of degree twelve in the inputs, so the
/// inputs are bounded very tightly.
pub fn line_line_distance_squared(p1: &Point3, v1: &Vector3, p2: &Point3, v2: &Vector3) -> (r:
    Scalar)
    requires
        p1@.bounded_by(512),
        v1@.bounded_by(512),
        p2@.bounded_by(512),
        v2@.bounded_by(512),
        v1@.dot(v1@).n != 0,
    ensures
        v1@.cross(v2@).dot(v1@.cross(v2@)).n != 0 ==> r@ == p2@.sub(p1@).dot(v1@.cross(v2@)).mul(
            p2@.sub(p1@).dot(v1@.cross(v2@)),
        ).div(v1@.cross(v2@).dot(v1@.cross(v2@))),
        v1@.cross(v2@).dot(v1@.cross(v2@)).n == 0 ==> r@ == p2@.sub(p1@).cross(v1@).dot(
            p2@.sub(p1@).cross(v1@),
        ).div(v1@.dot(v1@)),
        r.wf(),
{
    proof {
        lemma_mul_bound(v1@.y, v2@.z, 512, 512);
        lemma_mul_bound(v1@.z, v2@.y, 512, 512);
        lemma_mul_bound(v1@.z, v2@.x, 512, 512);
        lemma_mul_bound(v1@.x, v2@.z, 512, 512);
        lemma_mul_bound(v1@.x, v2@.y, 512, 512);
        lemma_mul_bound(v1@.y, v2@.x, 512, 512);
        lemma_mul_bound(v1@.d, v2@.d, 512, 512);
        lemma_mul_pos(v1@.d, v2@.d);
        lemma_mul_bound(p2@.x, p1@.d, 512, 512);
        lemma_mul_bound(p2@.y, p1@.d, 512, 512);
        lemma_mul_bound(p2@.z, p1@.d, 512, 512);
        lemma_mul_bound(p1@.x, p2@.d, 512, 512);
        lemma_mul_bound(p1@.y, p2@.d, 512, 512);
        lemma_mul_bound(p1@.z, p2@.d, 512, 512);
        lemma_mul_bound(p2@.d, p1@.d, 512, 512);
        lemma_mul_pos(p2@.d, p1@.d);
    }
    let cx = v1.y * v2.z - v1.z * v2.y;
    let cy = v1.z * v2.x - v1.x * v2.z;
    let cz = v1.x * v2.y - v1.y * v2.x;
    let cden = v1.den * v2.den;
    let dx = p2.x * p1.den - p1.x * p2.den;
    let dy = p2.y * p1.den - p1.y * p2.den;
    let dz = p2.z * p1.den - p1.z * p2.den;
    let dden = p2.den * p1.den;
    proof {
        lemma_mul_bound(cx as int, cx as int, 524288, 524288);
        lemma_mul_bound(cy as int, cy as int, 524288, 524288);
        lemma_mul_bound(cz as int, cz as int, 524288, 524288);
    }
    let ccn = cx * cx + cy * cy + cz * cz;
    if ccn != 0 {
        proof {
            lemma_mul_bound(dx as int, cx as int, 524288, 524288);
            lemma_mul_bound(dy as int, cy as int, 524288, 524288);
            lemma_mul_bound(dz as int, cz as int, 524288, 524288);
            lemma_mul_bound(dden as int, cden as int, 262144, 262144);
            lemma_mul_pos(dden as int, cden as int);
        }
        let tn = dx * cx + dy * cy + dz * cz;
        let td = dden * cden;
        proof {
            lemma_mul_bound(tn as int, tn as int, 824633720832, 824633720832);
            lemma_mul_bound(td as int, td as int, 68719476736, 68719476736);
            lemma_mul_bound(cden as int, cden as int, 262144, 262144);
            assert(cx as int * cx >= 0 && cy as int * cy >= 0 && cz as int * cz >= 0)
                by (nonlinear_arith);
            lemma_mul_bound(tn as int * tn, cden as int * cden, 680020773533228910772224, 68719476736);
            lemma_mul_bound(td as int * td, ccn as int, 4722366482869645213696, 824633720832);
            lemma_mul_pos(td as int, td as int);
            lemma_mul_pos(td as int * td, ccn as int);
        }
        Scalar { n: (tn * tn) * (cden * cden), d: (td * td) * ccn }
    } else {
        proof {
            assert(cx as int * cx >= 0 && cy as int * cy >= 0 && cz as int * cz >= 0)
                by (nonlinear_arith);
            assert(cx as int * cx == 0 ==> cx as int == 0) by (nonlinear_arith);
            assert(cy as int * cy == 0 ==> cy as int == 0) by (nonlinear_arith);
            assert(cz as int * cz == 0 ==> cz as int == 0) by (nonlinear_arith);
            lemma_mul_bound(dy as int, v1@.z, 524288, 512);
            lemma_mul_bound(dz as int, v1@.y, 524288, 512);
            lemma_mul_bound(dz as int, v1@.x, 524288, 512);
            lemma_mul_bound(dx as int, v1@.z, 524288, 512);
            lemma_mul_bound(dx as int, v1@.y, 524288, 512);
            lemma_mul_bound(dy as int, v1@.x, 524288, 512);
            lemma_mul_bound(dden as int, v1@.d, 262144, 512);
            lemma_mul_pos(dden as int, v1@.d);
        }
        let bx = dy * v1.z - dz * v1.y;
        let by = dz * v1.x - dx * v1.z;
        let bz = dx * v1.y - dy * v1.x;
        let bden = dden * v1.den;
        proof {
            lemma_mul_bound(bx as int, bx as int, 536870912, 536870912);
            lemma_mul_bound(by as int, by as int, 536870912, 536870912);
            lemma_mul_bound(bz as int, bz as int, 536870912, 536870912);
            lemma_mul_bound(bden as int, bden as int, 134217728, 134217728);
            lemma_mul_bound(v1@.x, v1@.x, 512, 512);
            lemma_mul_bound(v1@.y, v1@.y, 512, 512);
            lemma_mul_bound(v1@.z, v1@.z, 512, 512);
            lemma_mul_bound(v1@.d, v1@.d, 512, 512);
            assert(v1@.x * v1@.x >= 0 && v1@.y * v1@.y >= 0 && v1@.z * v1@.z >= 0)
                by (nonlinear_arith);
            lemma_mul_bound(
                bx as int * bx + by as int * by + bz as int * bz,
                v1@.d * v1@.d,
                864691128455135232,
                262144,
            );
            lemma_mul_bound(
                bden as int * bden,
                v1@.x * v1@.x + v1@.y * v1@.y + v1@.z * v1@.z,
                18014398509481984,
                786432,
            );
            lemma_mul_pos(bden as int, bden as int);
            lemma_mul_pos(bden as int * bden, v1@.x * v1@.x + v1@.y * v1@.y + v1@.z * v1@.z);
        }
        Scalar {
            n: (bx * bx + by * by + bz * bz) * (v1.den * v1.den),
            d: (bden * bden) * (v1.x * v1.x + v1.y * v1.y + v1.z * v1.z),
        }
    }
}

} // verus!
