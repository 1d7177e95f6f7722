use vstd::prelude::*;

verus! {

/// A signed 2D coordinate; also used for per-axis velocities.
#[derive(Clone, Copy, Debug, PartialEq, Eq, Structural)]
pub struct Point {
    pub x: i16,
    pub y: i16,
}

/// An axis-aligned box whose top-left corner is `position`.
#[derive(Clone, Copy, Debug, PartialEq, Eq, Structural)]
pub struct Rect {
    pub position: Point,
    pub width: i16,
    pub height: i16,
}

/// Largest magnitude of a coordinate at which things are placed in the world.
pub const COORD_LIMIT: i16 = 16000;

/// Largest magnitude of a corner coordinate of a well-formed box.
pub const BOX_LIMIT: i16 = 24000;

/// Largest magnitude of an extent of a well-formed box.
pub const EXTENT_LIMIT: i16 = 8000;

/// A coordinate at which things may be placed in the world.
pub open spec fn coord_ok(v: int) -> bool {
    -COORD_LIMIT <= v <= COORD_LIMIT
}

/// A corner coordinate that a well-formed box may have.
pub open spec fn box_coord_ok(v: int) -> bool {
    -BOX_LIMIT <= v <= BOX_LIMIT
}

/// An extent (width or height) that a well-formed box may have; a box cut
/// down by insets may come out negative.
pub open spec fn extent_ok(v: int) -> bool {
    -EXTENT_LIMIT <= v <= EXTENT_LIMIT
}

impl Rect {
    /// Coordinates and extents are bounded, so that its edges fit an `i16`.
    pub open spec fn wf(self) -> bool {
        &&& box_coord_ok(self.position.x as int)
        &&& box_coord_ok(self.position.y as int)
        &&& extent_ok(self.width as int)
        &&& extent_ok(self.height as int)
    }

    pub open spec fn left_spec(self) -> int {
        self.position.x as int
    }

    pub open spec fn top_spec(self) -> int {
        self.position.y as int
    }

    pub open spec fn right_spec(self) -> int {
        self.position.x + self.width
    }

    pub open spec fn bottom_spec(self) -> int {
        self.position.y + self.height
    }

    /// Closed-interval overlap on both axes.
    pub open spec fn intersects_spec(self, other: Rect) -> bool {
        &&& self.left_spec() <= other.right_spec()
        &&& self.right_spec() >= other.left_spec()
        &&& self.top_spec() <= other.bottom_spec()
        &&& self.bottom_spec() >= other.top_spec()
    }

    pub fn new(position: Point, width: i16, height: i16) -> (r: Rect)
        ensures
            r.position == position,
            r.width == width,
            r.height == height,
    {
        Rect { position, width, height }
    }

    pub fn new_from_x_y(x: i16, y: i16, width: i16, height: i16) -> (r: Rect)
        ensures
            r.position == (Point { x, y }),
            r.width == width,
            r.height == height,
    {
        Rect { position: Point { x, y }, width, height }
    }

    pub fn x(&self) -> (r: i16)
        ensures
            r == self.position.x,
    {
        self.position.x
    }

    pub fn y(&self) -> (r: i16)
        ensures
            r == self.position.y,
    {
        self.position.y
    }

    pub fn right(&self) -> (r: i16)
        requires
            i16::MIN <= self.right_spec() <= i16::MAX,
        ensures
            r == self.right_spec(),
    {
        self.position.x + self.width
    }

    pub fn bottom(&self) -> (r: i16)
        requires
            i16::MIN <= self.bottom_spec() <= i16::MAX,
        ensures
            r == self.bottom_spec(),
    {
        self.position.y + self.height
    }

    pub fn set_x(&mut self, x: i16)
        ensures
            final(self).position == (Point { x, y: old(self).position.y }),
            final(self).width == old(self).width,
            final(self).height == old(self).height,
    {
        self.position.x = x;
    }

    pub fn intersects(&self, other: &Rect) -> (r: bool)
        requires
            self.wf(),
            other.wf(),
        ensures
            r == self.intersects_spec(*other),
    {
        self.x() <= other.right() && self.right() >= other.x() && self.y() <= other.bottom()
            && self.bottom() >= other.y()
    }
}

} // verus!
