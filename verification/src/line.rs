use vstd::prelude::*;

use crate::scalar::{lemma_mul_bound, lemma_mul_pos, LIM};
use crate::transform4::{Transform4, T4};
use crate::vector3::{Vector3, V3};

verus! {

/// The mathematical value of a line in Pluecker form: its direction and
/// its moment (a point on the line crossed with the direction).
pub ghost struct LN {
    pub dir: V3,
    pub mom: V3,
}

/// The Pluecker line transformation rule: the direction moves by the
/// linear block; the moment moves by the transpose-adjugate of the linear
/// block, corrected by the translation crossed with the new direction.
pub open spec fn line_transform(l: LN, h: T4) -> LN {
    let r00 = h.e11 * h.e22 - h.e21 * h.e12;
    let r01 = h.e21 * h.e02 - h.e01 * h.e22;
    let r02 = h.e01 * h.e12 - h.e11 * h.e02;
    let r10 = h.e12 * h.e20 - h.e22 * h.e10;
    let r11 = h.e22 * h.e00 - h.e02 * h.e20;
    let r12 = h.e02 * h.e10 - h.e12 * h.e00;
    let r20 = h.e10 * h.e21 - h.e20 * h.e11;
    let r21 = h.e20 * h.e01 - h.e00 * h.e21;
    let r22 = h.e00 * h.e11 - h.e10 * h.e01;
    let nx = h.e00 * l.dir.x + h.e01 * l.dir.y + h.e02 * l.dir.z;
    let ny = h.e10 * l.dir.x + h.e11 * l.dir.y + h.e12 * l.dir.z;
    let nz = h.e20 * l.dir.x + h.e21 * l.dir.y + h.e22 * l.dir.z;
    LN {
        dir: V3 { x: nx, y: ny, z: nz, d: h.d * l.dir.d },
        mom: V3 {
            x: (r00 * l.mom.x + r10 * l.mom.y + r20 * l.mom.z) * l.dir.d + (h.e13 * nz - h.e23
                * ny) * l.mom.d,
            y: (r01 * l.mom.x + r11 * l.mom.y + r21 * l.mom.z) * l.dir.d + (h.e23 * nx - h.e03
                * nz) * l.mom.d,
            z: (r02 * l.mom.x + r12 * l.mom.y + r22 * l.mom.z) * l.dir.d + (h.e03 * ny - h.e13
                * nx) * l.mom.d,
            d: ((h.d * h.d) * l.mom.d) * l.dir.d,
        },
    }
}

/// A line in Pluecker form: a direction vector and a moment vector (a
/// point on the line crossed with the direction). The pair transforms
/// rigidly without reconstructing two points.
#[derive(Clone, Copy, Debug, PartialEq, Eq, Structural)]
pub struct Line {
    /// The direction of the line.
    pub direction: Vector3,
    /// The moment of the line.
    pub moment: Vector3,
}

impl View for Line {
    type V = LN;

    open spec fn view(&self) -> LN {
        LN { dir: self.direction@, mom: self.moment@ }
    }
}

impl Line {
    pub open spec fn wf(self) -> bool {
        self.direction.wf() && self.moment.wf()
    }

    pub open spec fn bounded(self) -> bool {
        self.direction.bounded() && self.moment.bounded()
    }

    /// The line with the whole direction components `(vx, vy, vz)` and
    /// moment components `(mx, my, mz)`.
    pub fn new(vx: i128, vy: i128, vz: i128, mx: i128, my: i128, mz: i128) -> (r: Line)
        ensures
            r@.dir == V3::from_ints(vx as int, vy as int, vz as int),
            r@.mom == V3::from_ints(mx as int, my as int, mz as int),
    {
        Line { direction: Vector3::new(vx, vy, vz), moment: Vector3::new(mx, my, mz) }
    }

    /// The line with the given direction and moment.
    pub fn new_with_vecs(direction: Vector3, moment: Vector3) -> (r: Line)
        ensures
            r@.dir == direction@,
            r@.mom == moment@,
    {
        Line { direction, moment }
    }

    /// This line carried through the transform `h`, by the Pluecker rule.
    pub fn transform(&self, h: &Transform4) -> (r: Line)
        requires
            self.bounded(),
            h.bounded(),
        ensures
            r@ == line_transform(self@, h@),
            r.wf(),
    {
        proof {
            lemma_mul_bound(h@.e11, h@.e22, LIM as int, LIM as int);
            lemma_mul_bound(h@.e21, h@.e12, LIM as int, LIM as int);
            lemma_mul_bound(h@.e21, h@.e02, LIM as int, LIM as int);
            lemma_mul_bound(h@.e01, h@.e22, LIM as int, LIM as int);
            lemma_mul_bound(h@.e01, h@.e12, LIM as int, LIM as int);
            lemma_mul_bound(h@.e11, h@.e02, LIM as int, LIM as int);
            lemma_mul_bound(h@.e12, h@.e20, LIM as int, LIM as int);
            lemma_mul_bound(h@.e22, h@.e10, LIM as int, LIM as int);
            lemma_mul_bound(h@.e22, h@.e00, LIM as int, LIM as int);
            lemma_mul_bound(h@.e02, h@.e20, LIM as int, LIM as int);
            lemma_mul_bound(h@.e02, h@.e10, LIM as int, LIM as int);
            lemma_mul_bound(h@.e12, h@.e00, LIM as int, LIM as int);
            lemma_mul_bound(h@.e10, h@.e21, LIM as int, LIM as int);
            lemma_mul_bound(h@.e20, h@.e11, LIM as int, LIM as int);
            lemma_mul_bound(h@.e20, h@.e01, LIM as int, LIM as int);
            lemma_mul_bound(h@.e00, h@.e21, LIM as int, LIM as int);
            lemma_mul_bound(h@.e00, h@.e11, LIM as int, LIM as int);
            lemma_mul_bound(h@.e10, h@.e01, LIM as int, LIM as int);
            lemma_mul_bound(h@.e00, self.direction@.x, LIM as int, LIM as int);
            lemma_mul_bound(h@.e01, self.direction@.y, LIM as int, LIM as int);
            lemma_mul_bound(h@.e02, self.direction@.z, LIM as int, LIM as int);
            lemma_mul_bound(h@.e10, self.direction@.x, LIM as int, LIM as int);
            lemma_mul_bound(h@.e11, self.direction@.y, LIM as int, LIM as int);
            lemma_mul_bound(h@.e12, self.direction@.z, LIM as int, LIM as int);
            lemma_mul_bound(h@.e20, self.direction@.x, LIM as int, LIM as int);
            lemma_mul_bound(h@.e21, self.direction@.y, LIM as int, LIM as int);
            lemma_mul_bound(h@.e22, self.direction@.z, LIM as int, LIM as int);
            lemma_mul_bound(h@.d, self.direction@.d, LIM as int, LIM as int);
            lemma_mul_pos(h@.d, self.direction@.d);
        }
        let r00 = h.n11 * h.n22 - h.n21 * h.n12;
        let r01 = h.n21 * h.n02 - h.n01 * h.n22;
        let r02 = h.n01 * h.n12 - h.n11 * h.n02;
        let r10 = h.n12 * h.n20 - h.n22 * h.n10;
        let r11 = h.n22 * h.n00 - h.n02 * h.n20;
        let r12 = h.n02 * h.n10 - h.n12 * h.n00;
        let r20 = h.n10 * h.n21 - h.n20 * h.n11;
        let r21 = h.n20 * h.n01 - h.n00 * h.n21;
        let r22 = h.n00 * h.n11 - h.n10 * h.n01;
        let nx = h.n00 * self.direction.x + h.n01 * self.direction.y + h.n02 * self.direction.z;
        let ny = h.n10 * self.direction.x + h.n11 * self.direction.y + h.n12 * self.direction.z;
        let nz = h.n20 * self.direction.x + h.n21 * self.direction.y + h.n22 * self.direction.z;
        proof {
            lemma_mul_bound(r00 as int, self.moment@.x, 144115188075855872, LIM as int);
            lemma_mul_bound(r10 as int, self.moment@.y, 144115188075855872, LIM as int);
            lemma_mul_bound(r20 as int, self.moment@.z, 144115188075855872, LIM as int);
            lemma_mul_bound(r01 as int, self.moment@.x, 144115188075855872, LIM as int);
            lemma_mul_bound(r11 as int, self.moment@.y, 144115188075855872, LIM as int);
            lemma_mul_bound(r21 as int, self.moment@.z, 144115188075855872, LIM as int);
            lemma_mul_bound(r02 as int, self.moment@.x, 144115188075855872, LIM as int);
            lemma_mul_bound(r12 as int, self.moment@.y, 144115188075855872, LIM as int);
            lemma_mul_bound(r22 as int, self.moment@.z, 144115188075855872, LIM as int);
            lemma_mul_bound(
                r00 as int * self.moment@.x + r10 as int * self.moment@.y + r20 as int
                    * self.moment@.z,
                self.direction@.d,
                116056878683004400771792896,
                LIM as int,
            );
            lemma_mul_bound(
                r01 as int * self.moment@.x + r11 as int * self.moment@.y + r21 as int
                    * self.moment@.z,
                self.direction@.d,
                116056878683004400771792896,
                LIM as int,
            );
            lemma_mul_bound(
                r02 as int * self.moment@.x + r12 as int * self.moment@.y + r22 as int
                    * self.moment@.z,
                self.direction@.d,
                116056878683004400771792896,
                LIM as int,
            );
            lemma_mul_bound(h@.e13, nz as int, LIM as int, 216172782113783808);
            lemma_mul_bound(h@.e23, ny as int, LIM as int, 216172782113783808);
            lemma_mul_bound(h@.e23, nx as int, LIM as int, 216172782113783808);
            lemma_mul_bound(h@.e03, nz as int, LIM as int, 216172782113783808);
            lemma_mul_bound(h@.e03, ny as int, LIM as int, 216172782113783808);
            lemma_mul_bound(h@.e13, nx as int, LIM as int, 216172782113783808);
            lemma_mul_bound(
                h@.e13 * nz as int - h@.e23 * ny as int,
                self.moment@.d,
                116056878683004400771792896,
                LIM as int,
            );
            lemma_mul_bound(
                h@.e23 * nx as int - h@.e03 * nz as int,
                self.moment@.d,
                116056878683004400771792896,
                LIM as int,
            );
            lemma_mul_bound(
                h@.e03 * ny as int - h@.e13 * nx as int,
                self.moment@.d,
                116056878683004400771792896,
                LIM as int,
            );
            lemma_mul_bound(h@.d, h@.d, LIM as int, LIM as int);
            lemma_mul_bound(h@.d * h@.d, self.moment@.d, 72057594037927936, LIM as int);
            lemma_mul_bound(
                (h@.d * h@.d) * self.moment@.d,
                self.direction@.d,
                19342813113834066795298816,
                LIM as int,
            );
            lemma_mul_pos(h@.d, h@.d);
            lemma_mul_pos(h@.d * h@.d, self.moment@.d);
            lemma_mul_pos((h@.d * h@.d) * self.moment@.d, self.direction@.d);
        }
        let direction = Vector3 { x: nx, y: ny, z: nz, den: h.den * self.direction.den };
        let moment = Vector3 {
            x: (r00 * self.moment.x + r10 * self.moment.y + r20 * self.moment.z)
                * self.direction.den + (h.n13 * nz - h.n23 * ny) * self.moment.den,
            y: (r01 * self.moment.x + r11 * self.moment.y + r21 * self.moment.z)
                * self.direction.den + (h.n23 * nx - h.n03 * nz) * self.moment.den,
            z: (r02 * self.moment.x + r12 * self.moment.y + r22 * self.moment.z)
                * self.direction.den + (h.n03 * ny - h.n13 * nx) * self.moment.den,
            den: ((h.den * h.den) * self.moment.den) * self.direction.den,
        };
        Line { direction, moment }
    }

    /// Replaces this line with it carried through the transform `h`.
    pub fn transform_mut(&mut self, h: &Transform4)
        requires
            old(self).bounded(),
            h.bounded(),
        ensures
            final(self)@ == line_transform(old(self)@, h@),
            final(self).wf(),
    {
        *self = self.transform(h);
    }
}

impl Default for Line {
    /// The degenerate line with zero direction and moment.
    fn default() -> (r: Line)
        ensures
            r@.dir == V3::from_ints(0, 0, 0),
            r@.mom == V3::from_ints(0, 0, 0),
    {
        Line { direction: Vector3::new(0, 0, 0), moment: Vector3::new(0, 0, 0) }
    }
}

} // verus!
