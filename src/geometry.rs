//! Points and axis-aligned boxes on the game's integer grid.
use vstd::prelude::*;

verus! {

/// A point on the grid: `x`, then `y`.
#[derive(Clone, Copy, Debug, PartialEq, Eq, Structural)]
pub struct Point(pub u32, pub u32);

/// An axis-aligned box given by its lower-left and upper-right corners.
#[derive(Clone, Copy, Debug, PartialEq, Eq, Structural)]
pub struct BoundingBox(pub Point, pub Point);

/// A region of the grid.
pub trait Polygon<T> {
    /// Whether `point` lies strictly inside the region.
    spec fn spec_contains(&self, point: Point) -> bool;

    /// Whether the area can be computed without leaving `T`.
    spec fn has_area(&self) -> bool;

    /// The area of the region.
    spec fn spec_area(&self) -> T;

    fn area(&self) -> (r: T)
        requires
            self.has_area(),
        ensures
            r == self.spec_area(),
    ;

    fn contains(&self, point: Point) -> (r: bool)
        ensures
            r == self.spec_contains(point),
    ;
}

/// Something that stands at a point of the grid.
pub trait Location {
    spec fn spec_center_point(&self) -> Point;

    fn get_center_point(&self) -> (r: Point)
        ensures
            r == self.spec_center_point(),
    ;
}

impl Point {
    pub fn new(x: u32, y: u32) -> (r: Point)
        ensures
            r == Point(x, y),
    {
        Point(x, y)
    }

    pub fn x(&self) -> (r: &u32)
        ensures
            *r == self.0,
    {
        &self.0
    }

    pub fn y(&self) -> (r: &u32)
        ensures
            *r == self.1,
    {
        &self.1
    }

    /// Whether this point lies strictly inside `poly`.
    pub fn inside<P: Polygon<u32>>(self, poly: P) -> (r: bool)
        ensures
            r == poly.spec_contains(self),
    {
        poly.contains(self)
    }

    pub fn above(self, point: Point) -> (r: bool)
        ensures
            r == (self.1 > point.1),
    {
        *self.y() > *point.y()
    }

    pub fn below(self, point: Point) -> (r: bool)
        ensures
            r == (self.1 < point.1),
    {
        *self.y() < *point.y()
    }

    pub fn right_of(self, point: Point) -> (r: bool)
        ensures
            r == (self.0 > point.0),
    {
        *self.x() > *point.x()
    }

    pub fn left_of(self, point: Point) -> (r: bool)
        ensures
            r == (self.0 < point.0),
    {
        *self.x() < *point.x()
    }
}

impl BoundingBox {
    pub fn new(ll: Point, ur: Point) -> (r: BoundingBox)
        ensures
            r == BoundingBox(ll, ur),
    {
        BoundingBox(ll, ur)
    }

    pub fn lower_left(&self) -> (r: Point)
        ensures
            r == self.0,
    {
        self.0
    }

    pub fn upper_right(&self) -> (r: Point)
        ensures
            r == self.1,
    {
        self.1
    }
}

impl Polygon<u32> for BoundingBox {
    /// Strictly right of and above the lower-left corner, and strictly left of
    /// and below the upper-right one: a point on an edge is outside.
    open spec fn spec_contains(&self, point: Point) -> bool {
        &&& point.1 > self.0.1
        &&& point.0 > self.0.0
        &&& point.1 < self.1.1
        &&& point.0 < self.1.0
    }

    /// The corners are ordered and the area fits in a `u32`.
    open spec fn has_area(&self) -> bool {
        &&& self.0.0 <= self.1.0
        &&& self.0.1 <= self.1.1
        &&& (self.1.0 - self.0.0) * (self.1.1 - self.0.1) <= u32::MAX
    }

    open spec fn spec_area(&self) -> u32 {
        ((self.1.0 - self.0.0) * (self.1.1 - self.0.1)) as u32
    }

    fn area(&self) -> (r: u32) {
        let w = *self.upper_right().x() - *self.lower_left().x();
        let h = *self.upper_right().y() - *self.lower_left().y();
        w * h
    }

    fn contains(&self, point: Point) -> (r: bool) {
        point.above(self.lower_left()) && point.right_of(self.lower_left()) && point.below(self.upper_right())
            && point.left_of(self.upper_right())
    }
}

} // verus!
