//! Rectangles in pixel coordinates.
//!
//! The same rectangle type describes a window on the screen and a region of
//! the back buffer. Left and top edges are inclusive, right and bottom edges
//! are exclusive, so a rectangle covers `[left, right) x [top, bottom)`.

use vstd::prelude::*;

verus! {

/// A rectangle given by its four edges.
#[derive(Clone, Copy, Debug, PartialEq, Eq, Structural)]
pub struct Rect {
    pub left: i32,
    pub top: i32,
    pub right: i32,
    pub bottom: i32,
}

impl Rect {
    /// Distance from the left edge to the right edge; negative when the
    /// edges are swapped.
    pub open spec fn spec_width(self) -> int {
        self.right - self.left
    }

    /// Distance from the top edge to the bottom edge; negative when the
    /// edges are swapped.
    pub open spec fn spec_height(self) -> int {
        self.bottom - self.top
    }

    /// A rectangle is sound when a window can have it: the edges are not
    /// swapped and both extents fit a signed 32-bit length.
    pub open spec fn sound(self) -> bool {
        &&& 0 <= self.spec_width() <= i32::MAX
        &&& 0 <= self.spec_height() <= i32::MAX
    }

    /// Whether the pixel in column `x` and row `y` lies inside.
    pub open spec fn contains(self, x: int, y: int) -> bool {
        &&& self.left <= x < self.right
        &&& self.top <= y < self.bottom
    }

    /// Whether both far edges of the rectangle that starts at `(x, y)` and
    /// extends `w` to the right and `h` downwards are coordinates: `x + w`
    /// and `y + h` lie in the range of `i32`.
    pub open spec fn fits(x: i32, y: i32, w: i32, h: i32) -> bool {
        &&& i32::MIN <= x + w <= i32::MAX
        &&& i32::MIN <= y + h <= i32::MAX
    }

    /// The rectangle with every edge at zero.
    pub fn zero() -> (r: Rect)
        ensures
            r == (Rect { left: 0, top: 0, right: 0, bottom: 0 }),
            r.sound(),
    {
        Rect { left: 0, top: 0, right: 0, bottom: 0 }
    }

    /// Width in pixels, computed without overflow.
    pub fn width(&self) -> (w: i64)
        ensures
            w == self.spec_width(),
    {
        self.right as i64 - self.left as i64
    }

    /// Height in pixels, computed without overflow.
    pub fn height(&self) -> (h: i64)
        ensures
            h == self.spec_height(),
    {
        self.bottom as i64 - self.top as i64
    }

    /// Tells whether the rectangle is sound.
    pub fn is_sound(&self) -> (ok: bool)
        ensures
            ok == self.sound(),
    {
        let w: i64 = self.width();
        let h: i64 = self.height();
        0 <= w && w <= i32::MAX as i64 && 0 <= h && h <= i32::MAX as i64
    }

    /// Builds the rectangle `[x, x + w) x [y, y + h)`.
    ///
    /// Returns `None` exactly when `x + w` or `y + h` leaves the range of
    /// `i32`. A negative `w` or `h` is accepted and gives a rectangle that
    /// contains no pixel.
    pub fn from_size(x: i32, y: i32, w: i32, h: i32) -> (r: Option<Rect>)
        ensures
            r == (if Rect::fits(x, y, w, h) {
                Some(Rect { left: x, top: y, right: (x + w) as i32, bottom: (y + h) as i32 })
            } else {
                None
            }),
    {
        match (x.checked_add(w), y.checked_add(h)) {
            (Some(right), Some(bottom)) => Some(Rect { left: x, top: y, right, bottom }),
            _ => None,
        }
    }

    /// Tells whether the pixel in column `x` and row `y` lies inside.
    pub fn covers(&self, x: i64, y: i64) -> (inside: bool)
        ensures
            inside == self.contains(x as int, y as int),
    {
        self.left as i64 <= x && x < self.right as i64 && self.top as i64 <= y && y
            < self.bottom as i64
    }
}

} // verus!
