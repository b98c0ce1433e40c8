//! A back buffer in main memory.
//!
//! `BackBuffer` gives the drawing actions a meaning that can be stated pixel
//! by pixel, and a host without a graphics device something to draw into.
//! Its view is the sequence of its rows, top to bottom, each row the
//! sequence of its pixels, left to right: `buffer@[y][x]` is the color of
//! the pixel in column `x` of row `y`. A buffer is never wider or higher
//! than coordinates reach, so every pixel of it can be named by a rectangle.

use vstd::prelude::*;
use crate::color::TRANSPARENT;
use crate::geometry::Rect;
use crate::protocol::Action;

verus! {

/// Whether a clear with clip rectangle `region` reaches the pixel in column
/// `x` of row `y`. Without a clip rectangle it reaches every pixel.
pub open spec fn reaches(region: Option<Rect>, x: int, y: int) -> bool {
    match region {
        Some(r) => r.contains(x, y),
        None => true,
    }
}

/// Row `y` after a clear: `color` where the clear reaches, the old pixel
/// everywhere else.
pub open spec fn painted_row(row: Seq<u32>, region: Option<Rect>, color: u32, y: int) -> Seq<u32> {
    Seq::new(
        row.len(),
        |x: int|
            if reaches(region, x, y) {
                color
            } else {
                row[x]
            },
    )
}

/// The pixels after a clear.
pub open spec fn painted(before: Seq<Seq<u32>>, region: Option<Rect>, color: u32) -> Seq<Seq<u32>> {
    Seq::new(before.len(), |y: int| painted_row(before[y], region, color, y))
}

/// The pixels after the host has carried out `action`. Only a clear changes
/// pixels.
pub open spec fn rendered(before: Seq<Seq<u32>>, action: Action) -> Seq<Seq<u32>> {
    match action {
        Action::Clear { region, color, .. } => painted(before, region, color),
        _ => before,
    }
}

/// The pixels after the host has carried out `actions` from first to last.
pub open spec fn rendered_all(before: Seq<Seq<u32>>, actions: Seq<Action>) -> Seq<Seq<u32>>
    decreases actions.len(),
{
    if actions.len() == 0 {
        before
    } else {
        rendered(rendered_all(before, actions.drop_last()), actions.last())
    }
}

/// Whether `pixels` are the rows of a buffer of the given size: `height`
/// rows of `width` pixels each, and neither more than a coordinate can
/// count.
pub open spec fn shaped(pixels: Seq<Seq<u32>>, width: nat, height: nat) -> bool {
    &&& width <= i32::MAX
    &&& height <= i32::MAX
    &&& pixels.len() == height
    &&& forall|y: int| 0 <= y < height ==> (#[trigger] pixels[y]).len() == width
}

/// A buffer of `height` rows of `width` transparent pixels.
pub open spec fn blank(width: nat, height: nat) -> Seq<Seq<u32>> {
    Seq::new(height, |y: int| Seq::new(width, |x: int| TRANSPARENT))
}

/// A rectangular grid of packed colors.
pub struct BackBuffer {
    rows: Vec<Vec<u32>>,
    width: u32,
}

impl View for BackBuffer {
    type V = Seq<Seq<u32>>;

    closed spec fn view(&self) -> Seq<Seq<u32>> {
        Seq::new(self.rows@.len(), |y: int| self.rows@[y]@)
    }
}

impl BackBuffer {
    #[verifier::type_invariant]
    spec fn rectangular(self) -> bool {
        &&& self.rows@.len() <= i32::MAX
        &&& self.width <= i32::MAX
        &&& forall|y: int| 0 <= y < self.rows@.len() ==> (#[trigger] self.rows@[y])@.len() == self.width
    }

    /// The number of pixels in each row.
    pub closed spec fn spec_width(&self) -> nat {
        self.width as nat
    }

    /// The number of rows.
    pub open spec fn spec_height(&self) -> nat {
        self@.len()
    }

    /// Creates a buffer of the given size with every pixel transparent.
    ///
    /// Returns `None` exactly when `width` or `height` is more than
    /// coordinates reach, that is, more than `i32::MAX`.
    pub fn new(width: u32, height: u32) -> (buffer: Option<BackBuffer>)
        ensures
            buffer is Some == (width <= i32::MAX && height <= i32::MAX),
            buffer matches Some(b) ==> {
                &&& b@ == blank(width as nat, height as nat)
                &&& b.spec_width() == width
                &&& b.spec_height() == height
                &&& shaped(b@, width as nat, height as nat)
            },
    {
        if width > i32::MAX as u32 || height > i32::MAX as u32 {
            return None;
        }
        let mut rows: Vec<Vec<u32>> = Vec::new();
        let mut y: u32 = 0;
        while y < height
            invariant
                y <= height,
                rows@.len() == y,
                forall|k: int| 0 <= k < y ==> (#[trigger] rows@[k])@ == Seq::new(
                    width as nat,
                    |x: int| TRANSPARENT,
                ),
            decreases height - y,
        {
            let mut row: Vec<u32> = Vec::new();
            let mut x: u32 = 0;
            while x < width
                invariant
                    x <= width,
                    row@.len() == x,
                    forall|k: int| 0 <= k < x ==> row@[k] == TRANSPARENT,
                decreases width - x,
            {
                row.push(TRANSPARENT);
                x += 1;
            }
            assert(row@ =~= Seq::new(width as nat, |x: int| TRANSPARENT));
            rows.push(row);
            y += 1;
        }
        let buffer = BackBuffer { rows, width };
        assert(buffer@ =~= blank(width as nat, height as nat));
        Some(buffer)
    }

    /// The number of pixels in each row.
    pub fn width(&self) -> (w: u32)
        ensures
            w == self.spec_width(),
            shaped(self@, self.spec_width(), self.spec_height()),
    {
        proof {
            use_type_invariant(self);
        }
        self.width
    }

    /// The number of rows.
    pub fn height(&self) -> (h: u32)
        ensures
            h == self.spec_height(),
            shaped(self@, self.spec_width(), self.spec_height()),
    {
        proof {
            use_type_invariant(self);
        }
        self.rows.len() as u32
    }

    /// Reads the pixel in column `x` of row `y`, or `None` if the buffer has
    /// no such pixel.
    pub fn pixel(&self, x: i32, y: i32) -> (color: Option<u32>)
        ensures
            color == (if 0 <= y < self.spec_height() && 0 <= x < self.spec_width() {
                Some(self@[y as int][x as int])
            } else {
                None
            }),
    {
        proof {
            use_type_invariant(self);
        }
        if y < 0 || x < 0 {
            return None;
        }
        let row: usize = y as usize;
        let column: usize = x as usize;
        if row < self.rows.len() && column < self.rows[row].len() {
            Some(self.rows[row][column])
        } else {
            None
        }
    }

    /// Sets every pixel that the clip rectangle `region` reaches to `color`
    /// and leaves all others as they are. The new color replaces the old
    /// one; nothing is blended.
    pub fn clear(&mut self, region: Option<Rect>, color: u32)
        ensures
            final(self)@ == painted(old(self)@, region, color),
            final(self).spec_width() == old(self).spec_width(),
            final(self).spec_height() == old(self).spec_height(),
    {
        proof {
            use_type_invariant(&*self);
        }
        let height: usize = self.rows.len();
        let mut rows: Vec<Vec<u32>> = Vec::new();
        let mut y: usize = 0;
        while y < height
            invariant
                y <= height,
                height == self.rows@.len(),
                height <= i32::MAX,
                self.width <= i32::MAX,
                forall|k: int|
                    0 <= k < self.rows@.len() ==> (#[trigger] self.rows@[k])@.len() == self.width,
                rows@.len() == y,
                forall|k: int|
                    0 <= k < y ==> (#[trigger] rows@[k])@ == painted_row(
                        self.rows@[k]@,
                        region,
                        color,
                        k,
                    ),
            decreases height - y,
        {
            let row: Vec<u32> = paint_row(&self.rows[y], region, color, y);
            rows.push(row);
            y += 1;
        }
        proof {
            let before = self@;
            let after = Seq::new(rows@.len(), |k: int| rows@[k]@);
            assert(after =~= painted(before, region, color));
        }
        self.rows = rows;
    }

    /// Does to the buffer what the device does to its render target when
    /// the host carries out `action`: a clear paints, every other action
    /// leaves the pixels alone.
    pub fn apply(&mut self, action: Action)
        ensures
            final(self)@ == rendered(old(self)@, action),
            final(self).spec_width() == old(self).spec_width(),
            final(self).spec_height() == old(self).spec_height(),
    {
        match action {
            Action::Clear { device: _, region, color } => {
                self.clear(region, color);
            },
            _ => {},
        }
    }
}

/// Paints one row: the pixels of row `y` that `region` reaches become
/// `color`.
fn paint_row(row: &Vec<u32>, region: Option<Rect>, color: u32, y: usize) -> (out: Vec<u32>)
    requires
        row@.len() <= i32::MAX,
        y <= i32::MAX,
    ensures
        out@ == painted_row(row@, region, color, y as int),
{
    let mut out: Vec<u32> = Vec::new();
    let mut x: usize = 0;
    while x < row.len()
        invariant
            x <= row@.len(),
            row@.len() <= i32::MAX,
            y <= i32::MAX,
            out@.len() == x,
            forall|k: int|
                0 <= k < x ==> out@[k] == (if reaches(region, k, y as int) {
                    color
                } else {
                    row@[k]
                }),
        decreases row@.len() - x,
    {
        let hit: bool = match region {
            Some(r) => r.covers(x as i64, y as i64),
            None => true,
        };
        if hit {
            out.push(color);
        } else {
            out.push(row[x]);
        }
        x += 1;
    }
    assert(out@ =~= painted_row(row@, region, color, y as int));
    out
}

} // verus!
