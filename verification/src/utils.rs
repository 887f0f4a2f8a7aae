//! Planar positions, collision circles, and plain range types used by the
//! battle data model.

use vstd::prelude::*;

use crate::fixed::{add_raw, mul_raw, Fixed32};
use crate::unit::Collision;

verus! {

/// A point in the battle plane.
#[derive(Clone, Copy, Debug)]
pub struct Pos {
    pub x: Fixed32,
    pub y: Fixed32,
}

/// Raw bits of the squared distance between two points, computed in
/// fixed-point arithmetic.
pub open spec fn dist_squared_raw(ax: int, ay: int, bx: int, by: int) -> int {
    let dx = crate::fixed::sub_raw(bx, ax);
    let dy = crate::fixed::sub_raw(by, ay);
    add_raw(mul_raw(dx, dx), mul_raw(dy, dy))
}

impl Pos {
    /// The origin.
    pub fn origin() -> (r: Pos)
        ensures
            r.x@ == 0,
            r.y@ == 0,
    {
        Pos { x: Fixed32::zero(), y: Fixed32::zero() }
    }

    /// The squared distance to another point (cheap: no square root).
    pub fn dist_squared(&self, other: Pos) -> (r: Fixed32)
        ensures
            r@ == dist_squared_raw(self.x@, self.y@, other.x@, other.y@),
    {
        let x = other.x.const_sub(self.x);
        let y = other.y.const_sub(self.y);
        x.const_mul(x).const_add(y.const_mul(y))
    }

    /// The distance to another point, through the fixed square root.
    pub fn dist(self, other: Pos) -> (r: Fixed32)
        requires
            dist_squared_raw(self.x@, self.y@, other.x@, other.y@) >= 0,
        ensures
            r@ >= 0,
            r@ * r@ <= dist_squared_raw(self.x@, self.y@, other.x@, other.y@) * 4096,
    {
        self.dist_squared(other).sqrt()
    }
}

/// A circle in the battle plane together with its collision plane.
#[derive(Clone, Copy, Debug)]
pub struct CollCircle {
    pub pos: Pos,
    pub r: Fixed32,
    pub plane: Collision,
}

impl CollCircle {
    /// Builds a circle from its parts.
    pub fn new(pos: Pos, radius: Fixed32, plane: Collision) -> (c: CollCircle)
        ensures
            c.pos == pos,
            c.r == radius,
            c.plane == plane,
    {
        CollCircle { pos, r: radius, plane }
    }

    /// The squared radius.
    pub fn r_squared(&self) -> (r: Fixed32)
        ensures
            r@ == mul_raw(self.r@, self.r@),
    {
        self.r.const_mul(self.r)
    }

    /// True when the circles overlap: the squared distance between the
    /// centres does not exceed the square of the summed radii.
    pub fn overlaps(&self, other: CollCircle) -> (r: bool)
        ensures
            r == (dist_squared_raw(self.pos.x@, self.pos.y@, other.pos.x@, other.pos.y@)
                <= mul_raw(add_raw(self.r@, other.r@), add_raw(self.r@, other.r@))),
    {
        let d = self.pos.dist_squared(other.pos);
        let sum = self.r.const_add(other.r);
        d.const_lte(sum.const_mul(sum))
    }

    /// True when the point lies strictly inside the circle.
    pub fn overlaps_pos(&self, pos: Pos) -> (r: bool)
        ensures
            r == (dist_squared_raw(self.pos.x@, self.pos.y@, pos.x@, pos.y@) < mul_raw(
                self.r@,
                self.r@,
            )),
    {
        let d = self.pos.dist_squared(pos);
        d.const_lt(self.r_squared())
    }

    /// Whether the circles touch: their planes can interact and the squared
    /// centre distance does not exceed the square of the summed radii.
    pub open spec fn spec_collides_with(self, other: CollCircle) -> bool {
        &&& self.plane.spec_can_interact(other.plane)
        &&& dist_squared_raw(self.pos.x@, self.pos.y@, other.pos.x@, other.pos.y@) <= mul_raw(
            add_raw(self.r@, other.r@),
            add_raw(self.r@, other.r@),
        )
    }

    /// True when the circles overlap and their planes can interact.
    pub fn collides_with(&self, other: CollCircle) -> (r: bool)
        ensures
            r == self.spec_collides_with(other),
    {
        self.plane.can_interact(other.plane) && self.overlaps(other)
    }
}

/// A closed interval, stored as its two endpoints. Unlike the standard range
/// it is a plain pair and never an iterator.
#[derive(Clone, Copy, Debug)]
pub struct RangeInclusive<T> {
    start: T,
    end: T,
}

impl<T: Copy> RangeInclusive<T> {
    /// Builds the interval from its endpoints.
    pub fn new(start: T, end: T) -> (r: RangeInclusive<T>)
        ensures
            r.spec_start() == start,
            r.spec_end() == end,
    {
        RangeInclusive { start, end }
    }

    /// The lower endpoint.
    pub closed spec fn spec_start(&self) -> T {
        self.start
    }

    /// The upper endpoint.
    pub closed spec fn spec_end(&self) -> T {
        self.end
    }

    /// The lower endpoint.
    pub fn start(&self) -> (r: T)
        ensures
            r == self.spec_start(),
    {
        self.start
    }

    /// The upper endpoint.
    pub fn end(&self) -> (r: T)
        ensures
            r == self.spec_end(),
    {
        self.end
    }
}

impl RangeInclusive<Fixed32> {
    /// True when the value lies in the closed interval.
    pub fn contains(&self, val: Fixed32) -> (r: bool)
        ensures
            r == (self.spec_start()@ <= val@ <= self.spec_end()@),
    {
        self.start.const_lte(val) && val.const_lte(self.end)
    }
}

/// A half-open interval, stored as its two endpoints.
#[derive(Clone, Copy, Debug)]
pub struct Range<T> {
    start: T,
    end: T,
}

impl<T: Copy> Range<T> {
    /// Builds the interval from its endpoints.
    pub fn new(start: T, end: T) -> (r: Range<T>)
        ensures
            r.spec_start() == start,
            r.spec_end() == end,
    {
        Range { start, end }
    }

    /// The lower endpoint.
    pub closed spec fn spec_start(&self) -> T {
        self.start
    }

    /// The upper endpoint (excluded).
    pub closed spec fn spec_end(&self) -> T {
        self.end
    }

    /// The lower endpoint.
    pub fn start(&self) -> (r: T)
        ensures
            r == self.spec_start(),
    {
        self.start
    }

    /// The upper endpoint (excluded).
    pub fn end(&self) -> (r: T)
        ensures
            r == self.spec_end(),
    {
        self.end
    }
}

impl Range<Fixed32> {
    /// True when the value lies in the half-open interval.
    pub fn contains(&self, val: Fixed32) -> (r: bool)
        ensures
            r == (self.spec_start()@ <= val@ < self.spec_end()@),
    {
        self.start.const_lte(val) && val.const_lt(self.end)
    }
}

} // verus!
