use vstd::prelude::*;

verus! {

/// Coordinates of every body stay within `[-COORD_LIMIT, COORD_LIMIT]`, and sizes
/// within `[0, COORD_LIMIT]`, so that sums of a coordinate and a size never overflow.
pub const COORD_LIMIT: i64 = 1_099_511_627_776;

/// Size of the playing field, in pixels.
pub const WINDOW_WIDTH: i64 = 800;
pub const WINDOW_HEIGHT: i64 = 600;

/// A point, or a position of a body's top-left corner, in pixels.
#[derive(Clone, Copy, Debug, PartialEq, Eq, Structural)]
pub struct Pos {
    pub x: i64,
    pub y: i64,
}

/// An axis-aligned rectangle: top-left corner plus width and height, in pixels.
#[derive(Clone, Copy, Debug, PartialEq, Eq, Structural)]
pub struct Rect {
    pub x: i64,
    pub y: i64,
    pub w: i64,
    pub h: i64,
}

pub open spec fn coord_ok(v: int) -> bool {
    -COORD_LIMIT <= v <= COORD_LIMIT
}

pub open spec fn size_ok(v: int) -> bool {
    0 <= v <= COORD_LIMIT
}

impl Pos {
    pub open spec fn wf(self) -> bool {
        coord_ok(self.x as int) && coord_ok(self.y as int)
    }
}

impl Rect {
    /// The rectangle lies within the coordinate limits.
    pub open spec fn wf(self) -> bool {
        coord_ok(self.x as int) && coord_ok(self.y as int) && size_ok(self.w as int)
            && size_ok(self.h as int)
    }

    /// Closed-interval overlap: the projections on both axes intersect, touching
    /// edges included.
    pub open spec fn overlaps_spec(self, o: Rect) -> bool {
        &&& self.x <= o.x + o.w
        &&& self.x + self.w >= o.x
        &&& self.y <= o.y + o.h
        &&& self.y + self.h >= o.y
    }

    /// The same rectangle with its corner moved to `(x, y)`.
    pub open spec fn at(self, x: int, y: int) -> Rect {
        Rect { x: x as i64, y: y as i64, w: self.w, h: self.h }
    }

    pub fn new(x: i64, y: i64, w: i64, h: i64) -> (r: Rect)
        ensures
            r == (Rect { x, y, w, h }),
    {
        Rect { x, y, w, h }
    }

    pub fn pos(&self) -> (p: Pos)
        ensures
            p == (Pos { x: self.x, y: self.y }),
    {
        Pos { x: self.x, y: self.y }
    }

    /// Whether the two rectangles overlap, edges included.
    pub fn overlaps(&self, o: &Rect) -> (r: bool)
        requires
            self.wf(),
            o.wf(),
        ensures
            r == self.overlaps_spec(*o),
    {
        self.x <= o.x + o.w && self.x + self.w >= o.x && self.y <= o.y + o.h && self.y
            + self.h >= o.y
    }
}

} // verus!
