//! Plain integer geometry for screen positions and clickable regions.
//!
//! Coordinates are whole pixels held in `i32`, the unit in which the
//! platform reports pointer positions.  A `Rectangle` never has a negative
//! size: a negative size is rejected at construction, and `set_size` clamps
//! each negative component to zero.

use vstd::prelude::*;

verus! {

#[derive(Clone, Copy, Debug, PartialEq, Eq, Structural)]
pub struct Vector2 {
    pub x: i32,
    pub y: i32,
}

impl Vector2 {
    pub fn new(x: i32, y: i32) -> (v: Vector2)
        ensures
            v.x == x,
            v.y == y,
    {
        Vector2 { x, y }
    }

    pub fn zero() -> (v: Vector2)
        ensures
            v.x == 0,
            v.y == 0,
    {
        Vector2 { x: 0, y: 0 }
    }
}

/// An axis-aligned screen region: `position` is its top-left corner and
/// `size` its extent, kept non-negative.
#[derive(Clone, Copy, Debug, PartialEq, Eq, Structural)]
pub struct Rectangle {
    pub position: Vector2,
    size: Vector2,
}

impl Rectangle {
    /// The rectangle with exactly this position and size.
    pub closed spec fn spec_new(position: Vector2, size: Vector2) -> Rectangle {
        Rectangle { position, size }
    }

    pub closed spec fn spec_position(self) -> Vector2 {
        self.position
    }

    pub closed spec fn spec_size(self) -> Vector2 {
        self.size
    }

    /// The size never goes negative.
    pub open spec fn wf(self) -> bool {
        self.spec_size().x >= 0 && self.spec_size().y >= 0
    }

    /// A point lies inside the region when it is within the half-open pixel
    /// span of both axes.
    pub open spec fn spec_contains(self, point: Vector2) -> bool {
        &&& self.spec_position().x <= point.x < self.spec_position().x + self.spec_size().x
        &&& self.spec_position().y <= point.y < self.spec_position().y + self.spec_size().y
    }

    /// Malformed geometry is rejected at construction: a requested region
    /// with a negative size yields `None`.
    pub fn new(position: Vector2, size: Vector2) -> (r: Option<Rectangle>)
        ensures
            r is Some <==> size.x >= 0 && size.y >= 0,
            r matches Some(rect) ==> rect == Rectangle::spec_new(position, size)
                && rect.spec_position() == position && rect.spec_size() == size && rect.wf(),
    {
        if size.x < 0 || size.y < 0 {
            None
        } else {
            Some(Rectangle { position, size })
        }
    }

    pub fn get_size(&self) -> (s: Vector2)
        ensures
            s == self.spec_size(),
    {
        self.size
    }

    /// Replaces the size, clamping each negative component to zero.
    pub fn set_size(&mut self, size: Vector2)
        ensures
            final(self).spec_position() == old(self).spec_position(),
            final(self).spec_size().x == if size.x < 0 { 0 } else { size.x as int },
            final(self).spec_size().y == if size.y < 0 { 0 } else { size.y as int },
            final(self).wf(),
    {
        self.size = Vector2::new(
            if size.x < 0 { 0 } else { size.x },
            if size.y < 0 { 0 } else { size.y },
        );
    }

    pub fn contains(&self, point: Vector2) -> (b: bool)
        ensures
            b == self.spec_contains(point),
    {
        let x_in = self.position.x <= point.x
            && (point.x as i64) < self.position.x as i64 + self.size.x as i64;
        let y_in = self.position.y <= point.y
            && (point.y as i64) < self.position.y as i64 + self.size.y as i64;
        x_in && y_in
    }
}

} // verus!
