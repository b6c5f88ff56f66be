//! Frame geometry: the rectangles a frame is composed of.
//!
//! Every function here is a pure computation on [`Rect`] values; the drawing
//! that later fills those rectangles is elsewhere. A rectangle is
//! well-formed ([`Rect::wf`]) when it does not run past the coordinate space,
//! so that positions inside it always fit in a `u16`.

use vstd::prelude::*;

verus! {

/// A rectangular region of the terminal screen, in cell coordinates.
#[derive(Clone, Copy, Debug, PartialEq, Eq, Structural)]
pub struct Rect {
    pub x: u16,
    pub y: u16,
    pub width: u16,
    pub height: u16,
}

impl Rect {
    /// The rectangle stays inside the `u16` coordinate space on both axes.
    pub open spec fn wf(self) -> bool {
        self.x + self.width <= 65535 && self.y + self.height <= 65535
    }
}

/// [`centered`], as a spec-level value.
pub open spec fn spec_centered(area: Rect, cap: u16) -> Rect {
    let width = if area.width <= cap { area.width } else { cap };
    Rect {
        x: (area.x + (area.width - width) / 2) as u16,
        y: area.y,
        width,
        height: area.height,
    }
}

/// Centers a region horizontally inside `area`, capping its width at `cap`:
/// an area narrower than the cap keeps its full width, a wider one yields a
/// `cap`-wide region with the leftover width split evenly on both sides.
pub fn centered(area: Rect, cap: u16) -> (r: Rect)
    requires
        area.wf(),
    ensures
        r == spec_centered(area, cap),
        r.width == (if area.width <= cap { area.width } else { cap }),
        r.x == area.x + (area.width - r.width) / 2,
        r.y == area.y,
        r.height == area.height,
        r.wf(),
{
    let width = if area.width <= cap {
        area.width
    } else {
        cap
    };
    let margin = (area.width - width) / 2;
    Rect { x: area.x + margin, y: area.y, width, height: area.height }
}

/// [`split_top`], as a spec-level value.
pub open spec fn spec_split_top(area: Rect, rows: u16) -> (Rect, Rect) {
    let top_h = if rows <= area.height { rows } else { area.height };
    (
        Rect { x: area.x, y: area.y, width: area.width, height: top_h },
        Rect {
            x: area.x,
            y: (area.y + top_h) as u16,
            width: area.width,
            height: (area.height - top_h) as u16,
        },
    )
}

/// Splits `area` into a top strip of at most `rows` rows and the remainder
/// below it. A shorter area gives its whole height to the strip.
pub fn split_top(area: Rect, rows: u16) -> (r: (Rect, Rect))
    requires
        area.wf(),
    ensures
        r == spec_split_top(area, rows),
        r.0.x == area.x && r.0.y == area.y && r.0.width == area.width,
        r.0.height == (if rows <= area.height { rows } else { area.height }),
        r.1.x == area.x && r.1.width == area.width,
        r.1.y == area.y + r.0.height,
        r.1.height == area.height - r.0.height,
        r.0.wf() && r.1.wf(),
{
    let top_h = if rows <= area.height {
        rows
    } else {
        area.height
    };
    let top = Rect { x: area.x, y: area.y, width: area.width, height: top_h };
    let rest = Rect {
        x: area.x,
        y: area.y + top_h,
        width: area.width,
        height: area.height - top_h,
    };
    (top, rest)
}

/// [`split_left`], as a spec-level value.
pub open spec fn spec_split_left(area: Rect) -> (Rect, Rect) {
    let left_w = (area.width / 2) as u16;
    (
        Rect { x: area.x, y: area.y, width: left_w, height: area.height },
        Rect {
            x: (area.x + left_w) as u16,
            y: area.y,
            width: (area.width - left_w) as u16,
            height: area.height,
        },
    )
}

/// Splits `area` into two side-by-side columns: a left one of half the width
/// (rounded down) and a right one holding the rest.
pub fn split_left(area: Rect) -> (r: (Rect, Rect))
    requires
        area.wf(),
    ensures
        r == spec_split_left(area),
        r.0.x == area.x && r.0.y == area.y && r.0.height == area.height,
        r.0.width == area.width / 2,
        r.1.x == area.x + r.0.width && r.1.y == area.y && r.1.height == area.height,
        r.1.width == area.width - r.0.width,
        r.0.wf() && r.1.wf(),
{
    let left_w = area.width / 2;
    let left = Rect { x: area.x, y: area.y, width: left_w, height: area.height };
    let right = Rect {
        x: area.x + left_w,
        y: area.y,
        width: area.width - left_w,
        height: area.height,
    };
    (left, right)
}

/// [`block_inner`], as a spec-level value.
pub open spec fn spec_block_inner(area: Rect) -> Rect {
    Rect {
        x: if area.width >= 4 { (area.x + 2) as u16 } else { area.x },
        y: if area.height >= 2 { (area.y + 1) as u16 } else { area.y },
        width: if area.width >= 4 { (area.width - 4) as u16 } else { 0 },
        height: if area.height >= 2 { (area.height - 2) as u16 } else { 0 },
    }
}

/// The interior of a bordered box drawn over `area`: one cell of border on
/// every side plus one more cell of horizontal padding inside it. An area too
/// small for border and padding leaves a zero-width or zero-height interior.
pub fn block_inner(area: Rect) -> (r: Rect)
    requires
        area.wf(),
    ensures
        r == spec_block_inner(area),
        r.width == (if area.width >= 4 { area.width - 4 } else { 0 }),
        r.height == (if area.height >= 2 { area.height - 2 } else { 0 }),
        r.x == (if area.width >= 4 { area.x + 2 } else { area.x as int }),
        r.y == (if area.height >= 2 { area.y + 1 } else { area.y as int }),
        r.wf(),
{
    let (x, width) = if area.width >= 4 {
        (area.x + 2, area.width - 4)
    } else {
        (area.x, 0)
    };
    let (y, height) = if area.height >= 2 {
        (area.y + 1, area.height - 2)
    } else {
        (area.y, 0)
    };
    Rect { x, y, width, height }
}

} // verus!
