//! Placement of a centered sub-rectangle inside a terminal viewport.

use ratatui::layout::{Constraint, Direction, Layout, Rect};
use vstd::prelude::*;

verus! {

/// A region of the terminal, in character cells.
#[derive(Clone, Copy, Debug, PartialEq, Eq, Structural)]
pub struct ViewportRect {
    pub x: u16,
    pub y: u16,
    pub width: u16,
    pub height: u16,
}

/// The direction along which an area is cut into bands.
#[derive(Clone, Copy, Debug, PartialEq, Eq, Structural)]
pub enum Axis {
    Horizontal,
    Vertical,
}

/// The start of the span `[start, ..)` once it is moved into `[lo, lo + len]`.
pub open spec fn clipped_start(lo: u16, len: u16, start: u16) -> int {
    if start < lo {
        lo as int
    } else if start > lo + len {
        lo + len
    } else {
        start as int
    }
}

/// The end of the span `[start, start + size)` once it is cut to `[lo, lo + len]`.
pub open spec fn clipped_end(lo: u16, len: u16, start: u16, size: u16) -> int {
    let from = clipped_start(lo, len, start);
    if start + size < from {
        from
    } else if start + size > lo + len {
        lo + len
    } else {
        start + size
    }
}

/// Cuts the span `[start, start + size)` to `[lo, lo + len]`; returns the new
/// start and size.
pub fn clip_span(lo: u16, len: u16, start: u16, size: u16) -> (span: (u16, u16))
    ensures
        span.0 == clipped_start(lo, len, start),
        span.0 + span.1 == clipped_end(lo, len, start, size),
        lo <= span.0,
        span.0 + span.1 <= lo + len,
        lo <= start && start + size <= lo + len ==> span == (start, size),
{
    let hi: u32 = lo as u32 + len as u32;
    let from: u32 = if start < lo {
        lo as u32
    } else if start as u32 > hi {
        hi
    } else {
        start as u32
    };
    let end: u32 = start as u32 + size as u32;
    let to: u32 = if end < from {
        from
    } else if end > hi {
        hi
    } else {
        end
    };
    ((from as u16), ((to - from) as u16))
}

impl ViewportRect {
    /// The column just past the right edge.
    pub open spec fn right(self) -> int {
        self.x + self.width
    }

    /// The row just past the bottom edge.
    pub open spec fn bottom(self) -> int {
        self.y + self.height
    }

    /// Every cell of `inner` is a cell of `self`; an empty `inner` lies on or
    /// inside the border of `self`.
    pub open spec fn contains(self, inner: ViewportRect) -> bool {
        &&& self.x <= inner.x
        &&& inner.right() <= self.right()
        &&& self.y <= inner.y
        &&& inner.bottom() <= self.bottom()
    }

    /// What is left of `other` inside `self`.
    pub open spec fn clip_spec(self, other: ViewportRect) -> ViewportRect {
        let x = clipped_start(self.x, self.width, other.x);
        let y = clipped_start(self.y, self.height, other.y);
        ViewportRect {
            x: x as u16,
            y: y as u16,
            width: (clipped_end(self.x, self.width, other.x, other.width) - x) as u16,
            height: (clipped_end(self.y, self.height, other.y, other.height) - y) as u16,
        }
    }

    /// `other` keeps the extent of `area` across `axis`: a band cut along
    /// `axis` spans the whole area the other way.
    pub open spec fn spans_across(self, axis: Axis, area: ViewportRect) -> bool {
        match axis {
            Axis::Horizontal => self.y == area.y && self.height == area.height,
            Axis::Vertical => self.x == area.x && self.width == area.width,
        }
    }

    pub fn new(x: u16, y: u16, width: u16, height: u16) -> (rect: ViewportRect)
        ensures
            rect == (ViewportRect { x, y, width, height }),
    {
        ViewportRect { x, y, width, height }
    }

    /// Cuts `other` to the part of it that lies inside `self`. A rectangle
    /// that already lies inside comes back unchanged.
    pub fn clip(&self, other: ViewportRect) -> (clipped: ViewportRect)
        ensures
            clipped == self.clip_spec(other),
            self.contains(clipped),
            self.contains(other) ==> clipped == other,
    {
        let (x, width) = clip_span(self.x, self.width, other.x, other.width);
        let (y, height) = clip_span(self.y, self.height, other.y, other.height);
        ViewportRect { x, y, width, height }
    }
}

/// The three percentages that put a band of `percent` percent between two
/// equal margins.
pub open spec fn band_shares(percent: u16) -> (u16, u16, u16) {
    (((100 - percent) / 2) as u16, percent, ((100 - percent) / 2) as u16)
}

/// The three percentages that put a band of `percent` percent between two
/// equal margins.
pub fn band_percentages(percent: u16) -> (shares: (u16, u16, u16))
    requires
        percent <= 100,
    ensures
        shares == band_shares(percent),
        shares.0 + shares.1 + shares.2 <= 100,
{
    let margin: u16 = (100 - percent) / 2;
    (margin, percent, margin)
}

/// The three rectangles that `ratatui::layout::Layout::split` returns for
/// `area`, cut along `axis` by three `Constraint::Percentage` constraints of
/// `shares`, with the default margin, spacing and flex. Nothing here says what
/// they are.
///
/// Why the result is a function of these three values, for shares that sum
/// to at most 100. `split` answers from a cache that is keyed by the area and
/// the layout, and on a miss builds a new solver, so nothing is carried from
/// one call to the next. The solver walks seeded hash maps when it picks its
/// pivots; that decides the way to the optimum, not the optimum, as long as
/// there is only one. There is only one. The required constraints fix the
/// two ends of the area and the order of the edges. With weight
/// 1 001 000 999 each of the first three spacers is asked to be empty, and
/// with weight 1 000 000 each segment is asked to have its share of the
/// length. Since the shares fit into the area, these wishes can all be met
/// at once, and at one point only. The wishes that pull elsewhere (two
/// neighbouring segments of equal length, weight 1 each; a last spacer as
/// long as the area, weight 100) can give back at most 102 for each unit
/// that an edge is moved away from that point, against a cost of at least
/// 1 000 000. At that point every edge is a whole number of hundredths of a
/// cell, so the first rounding in `changes_to_rects` removes what floating
/// point added, and the second is a function of that whole number. For
/// shares over 100 in sum two equal wishes compete and the answer may differ
/// from run to run: the wrapper leaves such shares out.
pub uninterp spec fn solved_bands(axis: Axis, area: ViewportRect, shares: (u16, u16, u16)) -> Seq<ViewportRect>;

/// The middle one of the solver's three bands for `percent`, cut to `area`.
pub open spec fn middle_band_spec(axis: Axis, area: ViewportRect, percent: u16) -> ViewportRect {
    area.clip_spec(solved_bands(axis, area, band_shares(percent))[1])
}

/// The middle one of three rows, and in that row the middle one of three
/// columns.
pub open spec fn centered_rect_spec(r: ViewportRect, percent_x: u16, percent_y: u16) -> ViewportRect {
    middle_band_spec(Axis::Horizontal, middle_band_spec(Axis::Vertical, r, percent_y), percent_x)
}

/// Calls `ratatui::layout::Layout::split` on `area` with three
/// `Constraint::Percentage` constraints along `axis`, and hands back the
/// three rectangles it returns, one per constraint. Claimed: the result is
/// `solved_bands` of the three arguments, that is, the same arguments give
/// the same rectangles (the reasons stand above `solved_bands`); and each
/// rectangle has the position and extent of `area` across `axis`, which
/// `changes_to_rects` copies from the area. Where along `axis` the
/// rectangles lie is the solver's answer, and nothing is claimed of it.
#[verifier::external_body]
fn split_in_three(axis: Axis, area: ViewportRect, shares: (u16, u16, u16)) -> (bands: [ViewportRect; 3])
    requires
        shares.0 + shares.1 + shares.2 <= 100,
    ensures
        bands@ == solved_bands(axis, area, shares),
        forall|i: int| 0 <= i < 3 ==> (#[trigger] bands@[i]).spans_across(axis, area),
{
    let direction = match axis {
        Axis::Horizontal => Direction::Horizontal,
        Axis::Vertical => Direction::Vertical,
    };
    let constraints = [
        Constraint::Percentage(shares.0),
        Constraint::Percentage(shares.1),
        Constraint::Percentage(shares.2),
    ];
    let whole = Rect { x: area.x, y: area.y, width: area.width, height: area.height };
    let rects = Layout::default().direction(direction).constraints(constraints).split(whole);
    [rects[0], rects[1], rects[2]].map(|r| ViewportRect { x: r.x, y: r.y, width: r.width, height: r.height })
}

/// The middle one of the three bands that `area` was cut into, itself cut to
/// `area`: the result lies inside `area` whatever the bands are, and is the
/// middle band itself where that lies inside.
pub fn middle_of(area: ViewportRect, bands: [ViewportRect; 3]) -> (band: ViewportRect)
    ensures
        band == area.clip_spec(bands@[1]),
        area.contains(band),
        area.contains(bands@[1]) ==> band == bands@[1],
{
    area.clip(bands[1])
}

/// The band of `percent` percent of `area` along `axis`, between two equal
/// margins: the solver is handed the shares `band_shares(percent)`, and the
/// middle one of its three bands is cut to `area`. Across `axis` the band
/// spans `area`. How long the band is and where it starts is the solver's
/// answer: it rounds each edge to the nearest cell, so the length may be one
/// cell more than the floored share.
pub fn middle_band(axis: Axis, area: ViewportRect, percent: u16) -> (band: ViewportRect)
    requires
        percent <= 100,
    ensures
        band == middle_band_spec(axis, area, percent),
        area.contains(band),
        band.spans_across(axis, area),
{
    let bands = split_in_three(axis, area, band_percentages(percent));
    middle_of(area, bands)
}

/// The rectangle of `percent_x` percent of the width and `percent_y` percent
/// of the height of `r`, centered in `r`: the middle one of three rows of
/// `(100 - percent_y) / 2`, `percent_y` and `(100 - percent_y) / 2` percent,
/// and in that row the middle one of three columns, cut likewise.
///
/// Promised: the result is that band of that band, the same for the same
/// arguments, and it lies inside `r`. Not promised, because the solver
/// decides them: the exact width, height and position. The solver rounds
/// each edge to the nearest cell (30 percent of 24 rows come out as 8, not
/// 7), and where `100 - percent` is odd the two margins take one percent
/// less than the rest, which is left at the far side, so that in a large
/// container the center is off by up to half a percent of its size.
pub fn centered_rect(r: ViewportRect, percent_x: u16, percent_y: u16) -> (rect: ViewportRect)
    requires
        percent_x <= 100,
        percent_y <= 100,
    ensures
        rect == centered_rect_spec(r, percent_x, percent_y),
        r.contains(rect),
{
    let row = middle_band(Axis::Vertical, r, percent_y);
    middle_band(Axis::Horizontal, row, percent_x)
}

} // verus!
