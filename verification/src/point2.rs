use vstd::prelude::*;

use crate::vector2::{Vector2, V2};

verus! {

/// A two dimensional position: exact rational coordinates held as integer
/// numerators over the positive denominator `den`.
#[derive(Clone, Copy, Debug, PartialEq, Eq, Structural)]
pub struct Point2 {
    /// Numerator of the x coordinate.
    pub x: i128,
    /// Numerator of the y coordinate.
    pub y: i128,
    /// Common denominator of the two coordinates; always positive.
    pub den: i128,
}

impl View for Point2 {
    type V = V2;

    open spec fn view(&self) -> V2 {
        V2 { x: self.x as int, y: self.y as int, d: self.den as int }
    }
}

impl Point2 {
    pub open spec fn wf(self) -> bool {
        self@.wf()
    }

    pub open spec fn bounded(self) -> bool {
        self@.bounded()
    }

    /// The position with two whole coordinates.
    pub fn new(x: i128, y: i128) -> (r: Point2)
        ensures
            r@ == V2::from_ints(x as int, y as int),
    {
        Point2 { x, y, den: 1 }
    }

    /// The position `(x, y) / den`.
    pub fn new_scaled(x: i128, y: i128, den: i128) -> (r: Point2)
        requires
            den > 0,
        ensures
            r@ == (V2 { x: x as int, y: y as int, d: den as int }),
    {
        Point2 { x, y, den }
    }

    /// Moves this position by the direction `o`.
    pub fn add(&self, o: &Vector2) -> (r: Point2)
        requires
            self.bounded(),
            o.bounded(),
        ensures
            r@ == self@.add(o@),
            r.wf(),
    {
        let v = self.to_vector().add(o);
        Point2 { x: v.x, y: v.y, den: v.den }
    }

    /// Moves this position against the direction `o`.
    pub fn sub(&self, o: &Vector2) -> (r: Point2)
        requires
            self.bounded(),
            o.bounded(),
        ensures
            r@ == self@.sub(o@),
            r.wf(),
    {
        let v = self.to_vector().sub(o);
        Point2 { x: v.x, y: v.y, den: v.den }
    }

    /// The direction from `o` to this position.
    pub fn sub_point(&self, o: &Point2) -> (r: Vector2)
        requires
            self.bounded(),
            o.bounded(),
        ensures
            r@ == self@.sub(o@),
            r.wf(),
    {
        self.to_vector().sub(&o.to_vector())
    }

    /// The direction with the same coordinates.
    pub fn to_vector(&self) -> (r: Vector2)
        ensures
            r@ == self@,
    {
        Vector2 { x: self.x, y: self.y, den: self.den }
    }
}

} // verus!
