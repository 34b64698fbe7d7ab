use vstd::prelude::*;

verus! {

/// An axis-aligned rectangle with its top-left corner at `(x, y)`, width `w`
/// and height `h`. The y axis points down, so `top <= bottom` for a
/// rectangle of non-negative height.
#[derive(Clone, Copy, Debug, PartialEq, Eq, Structural)]
pub struct Rectangle {
    pub x: i64,
    pub y: i64,
    pub w: i64,
    pub h: i64,
}

/// `v` brought into `[lo, hi]`; `lo` wins when the interval is empty.
pub open spec fn clamp(v: int, lo: int, hi: int) -> int {
    if v < lo {
        lo
    } else if v > hi {
        hi
    } else {
        v
    }
}

impl Rectangle {
    pub open spec fn left_spec(self) -> int {
        self.x as int
    }

    pub open spec fn top_spec(self) -> int {
        self.y as int
    }

    pub open spec fn right_spec(self) -> int {
        self.x + self.w
    }

    pub open spec fn bottom_spec(self) -> int {
        self.y + self.h
    }

    /// Both projections overlap on an interval of positive length: rectangles
    /// that only touch along an edge do not intersect.
    pub open spec fn intersects_spec(self, other: Rectangle) -> bool {
        &&& self.left_spec() < other.right_spec()
        &&& other.left_spec() < self.right_spec()
        &&& self.top_spec() < other.bottom_spec()
        &&& other.top_spec() < self.bottom_spec()
    }

    /// Every corner of `inner` lies within `self`, borders included.
    pub open spec fn contains_spec(self, inner: Rectangle) -> bool {
        &&& self.left_spec() <= inner.left_spec()
        &&& inner.right_spec() <= self.right_spec()
        &&& self.top_spec() <= inner.top_spec()
        &&& inner.bottom_spec() <= self.bottom_spec()
    }

    /// `self` shifted, keeping its size, to the nearest place inside `bounds`;
    /// nothing when it is wider or taller than `bounds`.
    pub open spec fn move_inside_spec(self, bounds: Rectangle) -> Option<Rectangle> {
        if self.w > bounds.w || self.h > bounds.h {
            None
        } else {
            Some(
                Rectangle {
                    x: clamp(self.x as int, bounds.left_spec(), bounds.right_spec() - self.w) as i64,
                    y: clamp(self.y as int, bounds.top_spec(), bounds.bottom_spec() - self.h) as i64,
                    w: self.w,
                    h: self.h,
                },
            )
        }
    }

    pub fn left(&self) -> (r: i64)
        ensures
            r == self.left_spec(),
    {
        self.x
    }

    pub fn top(&self) -> (r: i64)
        ensures
            r == self.top_spec(),
    {
        self.y
    }

    /// The x coordinate of the right edge; wider than `i64` so that it always
    /// exists.
    pub fn right(&self) -> (r: i128)
        ensures
            r == self.right_spec(),
    {
        self.x as i128 + self.w as i128
    }

    /// The y coordinate of the bottom edge; wider than `i64` so that it always
    /// exists.
    pub fn bottom(&self) -> (r: i128)
        ensures
            r == self.bottom_spec(),
    {
        self.y as i128 + self.h as i128
    }

    pub fn intersects(&self, other: &Rectangle) -> (r: bool)
        ensures
            r == self.intersects_spec(*other),
    {
        (self.left() as i128) < other.right() && (other.left() as i128) < self.right()
            && (self.top() as i128) < other.bottom() && (other.top() as i128) < self.bottom()
    }

    pub fn contains(&self, inner: &Rectangle) -> (r: bool)
        ensures
            r == self.contains_spec(*inner),
    {
        self.left() <= inner.left() && inner.right() <= self.right() && self.top() <= inner.top()
            && inner.bottom() <= self.bottom()
    }

    /// Moves the rectangle, keeping its size, to the nearest position inside
    /// `bounds`. Fails when it is wider or taller than `bounds`: that is a
    /// configuration error, not something to clamp silently.
    pub fn move_inside(&self, bounds: Rectangle) -> (r: Option<Rectangle>)
        ensures
            r == self.move_inside_spec(bounds),
    {
        if self.w > bounds.w || self.h > bounds.h {
            return None;
        }
        let x_hi: i128 = bounds.right() - self.w as i128;
        let y_hi: i128 = bounds.bottom() - self.h as i128;
        let x: i64 = if self.x < bounds.x {
            bounds.x
        } else if self.x as i128 > x_hi {
            x_hi as i64
        } else {
            self.x
        };
        let y: i64 = if self.y < bounds.y {
            bounds.y
        } else if self.y as i128 > y_hi {
            y_hi as i64
        } else {
            self.y
        };
        Some(Rectangle { x, y, w: self.w, h: self.h })
    }
}

/// A rectangle that fits in `bounds` can always be moved inside it; the
/// result lies within `bounds` and keeps the size, and a rectangle that was
/// inside already does not move.
pub proof fn lemma_move_inside_fits(r: Rectangle, bounds: Rectangle)
    requires
        r.w <= bounds.w,
        r.h <= bounds.h,
    ensures
        r.move_inside_spec(bounds) is Some,
        bounds.contains_spec(r.move_inside_spec(bounds)->0),
        r.move_inside_spec(bounds)->0.w == r.w,
        r.move_inside_spec(bounds)->0.h == r.h,
        bounds.contains_spec(r) ==> r.move_inside_spec(bounds) == Some(r),
{
}

/// A rectangle wider or taller than `bounds` cannot be moved inside it.
pub proof fn lemma_move_inside_too_large(r: Rectangle, bounds: Rectangle)
    requires
        r.w > bounds.w || r.h > bounds.h,
    ensures
        r.move_inside_spec(bounds) is None,
{
}

} // verus!
