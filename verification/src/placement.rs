//! The placement table: from an action, the usable area of the active screen
//! and the focused window's frame to where the window goes.
//!
//! The usable area of a display measures whole points on both axes, and a
//! point is as many units of the grid as every denominator of the table
//! divides: a tile is exactly its fraction of the usable area. Only what
//! goes by the window's own extents (centering, the height that keeps the
//! aspect ratio) is rounded down to the grid.

use crate::actions::{needs, Action};
use crate::error::Error;
use crate::geometry::{Point, PointView, Rect, RectView, Size, COORD_LIMIT, UNITS_PER_POINT};
use vstd::arithmetic::div_mod::{lemma_fundamental_div_mod, lemma_fundamental_div_mod_converse};
use vstd::prelude::*;

pub mod laws;

verus! {

/// Width that `MakeLarger` adds and `MakeSmaller` takes away: twenty
/// points.
pub const RESIZE_STEP: i64 = 2400;

/// Distance that a directional move covers: ten points.
pub const MOVE_STEP: i64 = 1200;

/// A non-negative rational number.
#[derive(Debug, Clone, Copy, PartialEq, Eq, Hash, Structural)]
pub struct Fraction {
    pub num: i64,
    pub den: i64,
}

/// A stretch of one axis of the usable area: where it starts and how far it
/// reaches, both as fractions of the length of the axis.
#[derive(Debug, Clone, Copy, PartialEq, Eq, Hash, Structural)]
pub struct Slice {
    pub offset: Fraction,
    pub extent: Fraction,
}

/// The share of the usable area that a tiling action gives the window.
#[derive(Debug, Clone, Copy, PartialEq, Eq, Hash, Structural)]
pub struct Tile {
    pub column: Slice,
    pub row: Slice,
}

/// A change of a frame: how far the origin moves and how much the extent
/// grows.
#[derive(Debug, Clone, Copy, PartialEq, Eq, Hash, Structural)]
pub struct Delta {
    pub dx: i64,
    pub dy: i64,
    pub dwidth: i64,
    pub dheight: i64,
}

/// Where the window goes.
#[derive(Debug, Clone, Copy, PartialEq, Eq, Hash, Structural)]
pub enum PlacementResult {
    /// The window takes this frame.
    Frame(Rect),
    /// The window's origin moves here; its size stays.
    OriginOnly(Point),
    /// The window's frame changes by this much.
    RelativeDelta(Delta),
}

/// A change of a frame over the integers.
pub struct DeltaView {
    pub dx: int,
    pub dy: int,
    pub dwidth: int,
    pub dheight: int,
}

/// A placement with its geometry over the integers.
pub enum PlacementView {
    Frame(RectView),
    OriginOnly(PointView),
    RelativeDelta(DeltaView),
}

impl View for Delta {
    type V = DeltaView;

    open spec fn view(&self) -> DeltaView {
        DeltaView {
            dx: self.dx as int,
            dy: self.dy as int,
            dwidth: self.dwidth as int,
            dheight: self.dheight as int,
        }
    }
}

impl View for PlacementResult {
    type V = PlacementView;

    open spec fn view(&self) -> PlacementView {
        match *self {
            PlacementResult::Frame(r) => PlacementView::Frame(r@),
            PlacementResult::OriginOnly(p) => PlacementView::OriginOnly(p@),
            PlacementResult::RelativeDelta(d) => PlacementView::RelativeDelta(d@),
        }
    }
}

impl DeltaView {
    /// The change that turns `from` into `to`.
    pub open spec fn between(from: RectView, to: RectView) -> DeltaView {
        DeltaView {
            dx: to.x - from.x,
            dy: to.y - from.y,
            dwidth: to.width - from.width,
            dheight: to.height - from.height,
        }
    }

    pub open spec fn applied_to(self, r: RectView) -> RectView {
        RectView {
            x: r.x + self.dx,
            y: r.y + self.dy,
            width: r.width + self.dwidth,
            height: r.height + self.dheight,
        }
    }
}

/// Every coordinate of the rectangle fits in an `i64`.
pub open spec fn representable(r: RectView) -> bool {
    &&& i64::MIN <= r.x <= i64::MAX
    &&& i64::MIN <= r.y <= i64::MAX
    &&& i64::MIN <= r.width <= i64::MAX
    &&& i64::MIN <= r.height <= i64::MAX
}

impl PlacementResult {
    /// The frame that a window at `window` ends up with.
    pub fn target(&self, window: &Rect) -> (frame: Rect)
        requires
            representable(self@.target(window@)),
        ensures
            frame@ == self@.target(window@),
    {
        match *self {
            PlacementResult::Frame(r) => r,
            PlacementResult::OriginOnly(p) => Rect { origin: p, size: window.size },
            PlacementResult::RelativeDelta(d) => Rect {
                origin: Point { x: window.origin.x + d.dx, y: window.origin.y + d.dy },
                size: Size {
                    width: window.size.width + d.dwidth,
                    height: window.size.height + d.dheight,
                },
            },
        }
    }
}

impl PlacementView {
    /// The frame that a window at `window` ends up with.
    pub open spec fn target(self, window: RectView) -> RectView {
        match self {
            PlacementView::Frame(r) => r,
            PlacementView::OriginOnly(p) => RectView {
                x: p.x,
                y: p.y,
                width: window.width,
                height: window.height,
            },
            PlacementView::RelativeDelta(d) => d.applied_to(window),
        }
    }
}

pub open spec fn spec_part(offset_num: i64, offset_den: i64, extent_num: i64, extent_den: i64) -> Slice {
    Slice {
        offset: Fraction { num: offset_num, den: offset_den },
        extent: Fraction { num: extent_num, den: extent_den },
    }
}

/// The stretch that starts at `offset_num / offset_den` of the axis and is
/// `extent_num / extent_den` of it long.
#[verifier::when_used_as_spec(spec_part)]
pub fn part(offset_num: i64, offset_den: i64, extent_num: i64, extent_den: i64) -> (s: Slice)
    ensures
        s == spec_part(offset_num, offset_den, extent_num, extent_den),
{
    Slice {
        offset: Fraction { num: offset_num, den: offset_den },
        extent: Fraction { num: extent_num, den: extent_den },
    }
}

pub open spec fn spec_full() -> Slice {
    spec_part(0, 1, 1, 1)
}

/// The whole axis.
#[verifier::when_used_as_spec(spec_full)]
pub fn full() -> (s: Slice)
    ensures
        s == spec_full(),
{
    part(0, 1, 1, 1)
}

/// The table of the tiling actions. An action that goes by anything but the
/// usable area has no entry.
pub open spec fn tile_of(action: Action) -> Option<Tile> {
    match action {
        Action::TopHalf => Some(Tile { column: full(), row: part(0, 1, 1, 2) }),
        Action::BottomHalf => Some(Tile { column: full(), row: part(1, 2, 1, 2) }),
        Action::LeftHalf => Some(Tile { column: part(0, 1, 1, 2), row: full() }),
        Action::RightHalf => Some(Tile { column: part(1, 2, 1, 2), row: full() }),
        Action::CenterHalf => Some(Tile { column: part(1, 4, 1, 2), row: full() }),
        Action::TopLeftQuarter => Some(Tile { column: part(0, 1, 1, 2), row: part(0, 1, 1, 2) }),
        Action::TopRightQuarter => Some(Tile { column: part(1, 2, 1, 2), row: part(0, 1, 1, 2) }),
        Action::BottomLeftQuarter => Some(
            Tile { column: part(0, 1, 1, 2), row: part(1, 2, 1, 2) },
        ),
        Action::BottomRightQuarter => Some(
            Tile { column: part(1, 2, 1, 2), row: part(1, 2, 1, 2) },
        ),
        Action::TopLeftSixth => Some(Tile { column: part(0, 1, 1, 3), row: part(0, 1, 1, 2) }),
        Action::TopCenterSixth => Some(Tile { column: part(1, 3, 1, 3), row: part(0, 1, 1, 2) }),
        Action::TopRightSixth => Some(Tile { column: part(2, 3, 1, 3), row: part(0, 1, 1, 2) }),
        Action::BottomLeftSixth => Some(Tile { column: part(0, 1, 1, 3), row: part(1, 2, 1, 2) }),
        Action::BottomCenterSixth => Some(
            Tile { column: part(1, 3, 1, 3), row: part(1, 2, 1, 2) },
        ),
        Action::BottomRightSixth => Some(Tile { column: part(2, 3, 1, 3), row: part(1, 2, 1, 2) }),
        Action::TopThird => Some(Tile { column: full(), row: part(0, 1, 1, 3) }),
        Action::MiddleThird => Some(Tile { column: full(), row: part(1, 3, 1, 3) }),
        Action::BottomThird => Some(Tile { column: full(), row: part(2, 3, 1, 3) }),
        Action::FirstFourth => Some(Tile { column: part(0, 1, 1, 4), row: full() }),
        Action::SecondFourth => Some(Tile { column: part(1, 4, 1, 4), row: full() }),
        Action::ThirdFourth => Some(Tile { column: part(2, 4, 1, 4), row: full() }),
        Action::LastFourth => Some(Tile { column: part(3, 4, 1, 4), row: full() }),
        Action::FirstThird => Some(Tile { column: part(0, 1, 1, 3), row: full() }),
        Action::CenterThird => Some(Tile { column: part(1, 3, 1, 3), row: full() }),
        Action::LastThird => Some(Tile { column: part(2, 3, 1, 3), row: full() }),
        Action::FirstTwoThirds => Some(Tile { column: part(0, 1, 2, 3), row: full() }),
        Action::CenterTwoThirds => Some(Tile { column: part(1, 6, 2, 3), row: full() }),
        Action::LastTwoThirds => Some(Tile { column: part(1, 3, 2, 3), row: full() }),
        Action::FirstThreeFourths => Some(Tile { column: part(0, 1, 3, 4), row: full() }),
        Action::CenterThreeFourths => Some(Tile { column: part(1, 8, 3, 4), row: full() }),
        Action::LastThreeFourths => Some(Tile { column: part(1, 4, 3, 4), row: full() }),
        Action::TopThreeFourths => Some(Tile { column: full(), row: part(0, 1, 3, 4) }),
        Action::BottomThreeFourths => Some(Tile { column: full(), row: part(1, 4, 3, 4) }),
        Action::TopTwoThirds => Some(Tile { column: full(), row: part(0, 1, 2, 3) }),
        Action::BottomTwoThirds => Some(Tile { column: full(), row: part(1, 3, 2, 3) }),
        Action::TopCenterTwoThirds => Some(
            Tile { column: part(1, 6, 2, 3), row: part(0, 1, 2, 3) },
        ),
        Action::TopFirstFourth => Some(Tile { column: full(), row: part(0, 1, 1, 4) }),
        Action::TopSecondFourth => Some(Tile { column: full(), row: part(1, 4, 1, 4) }),
        Action::TopThirdFourth => Some(Tile { column: full(), row: part(2, 4, 1, 4) }),
        Action::TopLastFourth => Some(Tile { column: full(), row: part(3, 4, 1, 4) }),
        Action::AlmostMaximize => Some(Tile { column: part(1, 10, 4, 5), row: part(1, 10, 4, 5) }),
        Action::Maximize => Some(Tile { column: full(), row: full() }),
        _ => None,
    }
}

/// The table entry of `action`.
pub fn tile(action: Action) -> (t: Option<Tile>)
    ensures
        t == tile_of(action),
{
    match action {
        Action::TopHalf => Some(Tile { column: full(), row: part(0, 1, 1, 2) }),
        Action::BottomHalf => Some(Tile { column: full(), row: part(1, 2, 1, 2) }),
        Action::LeftHalf => Some(Tile { column: part(0, 1, 1, 2), row: full() }),
        Action::RightHalf => Some(Tile { column: part(1, 2, 1, 2), row: full() }),
        Action::CenterHalf => Some(Tile { column: part(1, 4, 1, 2), row: full() }),
        Action::TopLeftQuarter => Some(Tile { column: part(0, 1, 1, 2), row: part(0, 1, 1, 2) }),
        Action::TopRightQuarter => Some(Tile { column: part(1, 2, 1, 2), row: part(0, 1, 1, 2) }),
        Action::BottomLeftQuarter => Some(
            Tile { column: part(0, 1, 1, 2), row: part(1, 2, 1, 2) },
        ),
        Action::BottomRightQuarter => Some(
            Tile { column: part(1, 2, 1, 2), row: part(1, 2, 1, 2) },
        ),
        Action::TopLeftSixth => Some(Tile { column: part(0, 1, 1, 3), row: part(0, 1, 1, 2) }),
        Action::TopCenterSixth => Some(Tile { column: part(1, 3, 1, 3), row: part(0, 1, 1, 2) }),
        Action::TopRightSixth => Some(Tile { column: part(2, 3, 1, 3), row: part(0, 1, 1, 2) }),
        Action::BottomLeftSixth => Some(Tile { column: part(0, 1, 1, 3), row: part(1, 2, 1, 2) }),
        Action::BottomCenterSixth => Some(
            Tile { column: part(1, 3, 1, 3), row: part(1, 2, 1, 2) },
        ),
        Action::BottomRightSixth => Some(Tile { column: part(2, 3, 1, 3), row: part(1, 2, 1, 2) }),
        Action::TopThird => Some(Tile { column: full(), row: part(0, 1, 1, 3) }),
        Action::MiddleThird => Some(Tile { column: full(), row: part(1, 3, 1, 3) }),
        Action::BottomThird => Some(Tile { column: full(), row: part(2, 3, 1, 3) }),
        Action::FirstFourth => Some(Tile { column: part(0, 1, 1, 4), row: full() }),
        Action::SecondFourth => Some(Tile { column: part(1, 4, 1, 4), row: full() }),
        Action::ThirdFourth => Some(Tile { column: part(2, 4, 1, 4), row: full() }),
        Action::LastFourth => Some(Tile { column: part(3, 4, 1, 4), row: full() }),
        Action::FirstThird => Some(Tile { column: part(0, 1, 1, 3), row: full() }),
        Action::CenterThird => Some(Tile { column: part(1, 3, 1, 3), row: full() }),
        Action::LastThird => Some(Tile { column: part(2, 3, 1, 3), row: full() }),
        Action::FirstTwoThirds => Some(Tile { column: part(0, 1, 2, 3), row: full() }),
        Action::CenterTwoThirds => Some(Tile { column: part(1, 6, 2, 3), row: full() }),
        Action::LastTwoThirds => Some(Tile { column: part(1, 3, 2, 3), row: full() }),
        Action::FirstThreeFourths => Some(Tile { column: part(0, 1, 3, 4), row: full() }),
        Action::CenterThreeFourths => Some(Tile { column: part(1, 8, 3, 4), row: full() }),
        Action::LastThreeFourths => Some(Tile { column: part(1, 4, 3, 4), row: full() }),
        Action::TopThreeFourths => Some(Tile { column: full(), row: part(0, 1, 3, 4) }),
        Action::BottomThreeFourths => Some(Tile { column: full(), row: part(1, 4, 3, 4) }),
        Action::TopTwoThirds => Some(Tile { column: full(), row: part(0, 1, 2, 3) }),
        Action::BottomTwoThirds => Some(Tile { column: full(), row: part(1, 3, 2, 3) }),
        Action::TopCenterTwoThirds => Some(
            Tile { column: part(1, 6, 2, 3), row: part(0, 1, 2, 3) },
        ),
        Action::TopFirstFourth => Some(Tile { column: full(), row: part(0, 1, 1, 4) }),
        Action::TopSecondFourth => Some(Tile { column: full(), row: part(1, 4, 1, 4) }),
        Action::TopThirdFourth => Some(Tile { column: full(), row: part(2, 4, 1, 4) }),
        Action::TopLastFourth => Some(Tile { column: full(), row: part(3, 4, 1, 4) }),
        Action::AlmostMaximize => Some(Tile { column: part(1, 10, 4, 5), row: part(1, 10, 4, 5) }),
        Action::Maximize => Some(Tile { column: full(), row: full() }),
        _ => None,
    }
}

/// `f` of `length`: exactly so where the denominator divides `length`, as
/// it does for every entry of the table and every length of whole points.
pub open spec fn scaled(length: int, f: Fraction) -> int {
    length * f.num / (f.den as int)
}

/// The frame that `tile` cuts out of `usable`.
pub open spec fn tile_frame(tile: Tile, usable: RectView) -> RectView {
    RectView {
        x: usable.x + scaled(usable.width, tile.column.offset),
        y: usable.y + scaled(usable.height, tile.row.offset),
        width: scaled(usable.width, tile.column.extent),
        height: scaled(usable.height, tile.row.extent),
    }
}

/// `part` is exactly `f` of `length`.
pub open spec fn is_share(part: int, f: Fraction, length: int) -> bool {
    part * f.den == length * f.num
}

/// `frame` is exactly the tile of `usable`: each offset and each extent is
/// the fraction of the usable area's extent on its axis.
pub open spec fn is_tile(frame: RectView, tile: Tile, usable: RectView) -> bool {
    &&& is_share(frame.x - usable.x, tile.column.offset, usable.width)
    &&& is_share(frame.width, tile.column.extent, usable.width)
    &&& is_share(frame.y - usable.y, tile.row.offset, usable.height)
    &&& is_share(frame.height, tile.row.extent, usable.height)
}

/// An entry of the table: every fraction has a denominator from 1 to 10
/// that divides the units of a point and is at most one, and no slice
/// reaches beyond the end of its axis.
pub open spec fn slice_wf(s: Slice) -> bool {
    &&& 1 <= s.offset.den <= 10
    &&& 1 <= s.extent.den <= 10
    &&& UNITS_PER_POINT % s.offset.den == 0
    &&& UNITS_PER_POINT % s.extent.den == 0
    &&& 0 <= s.offset.num <= s.offset.den
    &&& 0 <= s.extent.num <= s.extent.den
    &&& s.offset.num * s.extent.den + s.extent.num * s.offset.den <= s.offset.den * s.extent.den
}

/// Every entry of the table is well-formed.
pub proof fn lemma_tiles_wf(action: Action)
    by (nonlinear_arith)
    ensures
        tile_of(action) matches Some(t) ==> slice_wf(t.column) && slice_wf(t.row),
{
}

/// How much taller `MakeLarger` makes the window and `MakeSmaller` less
/// tall: what keeps the aspect ratio when the width changes by
/// [`RESIZE_STEP`], rounded down to the grid.
pub open spec fn height_step(window: RectView) -> int {
    window.height * RESIZE_STEP / window.width
}

pub open spec fn max(a: int, b: int) -> int {
    if a >= b {
        a
    } else {
        b
    }
}

pub open spec fn min(a: int, b: int) -> int {
    if a <= b {
        a
    } else {
        b
    }
}

/// No edge of `inner` lies beyond the edges of `outer`.
pub open spec fn lies_within(inner: RectView, outer: RectView) -> bool {
    &&& outer.x <= inner.x
    &&& outer.y <= inner.y
    &&& inner.x + inner.width <= outer.x + outer.width
    &&& inner.y + inner.height <= outer.y + outer.height
}

/// `v`, held within `low ..= high`.
pub open spec fn clamp(v: int, low: int, high: int) -> int {
    min(max(v, low), high)
}

/// The window grown about its center: each of its four edges moves outward
/// by its half of the step and is held back, by itself, at the edges of the
/// usable area. Where the height step is odd, the bottom edge takes the
/// larger half.
pub open spec fn enlarged(usable: RectView, window: RectView) -> RectView {
    let grow = height_step(window);
    let left = clamp(window.x - RESIZE_STEP / 2, usable.x, usable.x + usable.width);
    let right = clamp(
        window.x + window.width + RESIZE_STEP / 2,
        usable.x,
        usable.x + usable.width,
    );
    let top = clamp(window.y - grow / 2, usable.y, usable.y + usable.height);
    let bottom = clamp(
        window.y + window.height + (grow - grow / 2),
        usable.y,
        usable.y + usable.height,
    );
    RectView { x: left, y: top, width: right - left, height: bottom - top }
}

/// The window shrunk about its center. An extent that is smaller than its
/// step becomes zero: no extent becomes negative.
pub open spec fn shrunk(window: RectView) -> RectView {
    let width = max(window.width - RESIZE_STEP, 0);
    let height = max(window.height - height_step(window), 0);
    RectView {
        x: window.x + (window.width - width) / 2,
        y: window.y + (window.height - height) / 2,
        width,
        height,
    }
}

/// The origin that centers the window in the usable area, rounded down to
/// the grid.
pub open spec fn centered(usable: RectView, window: RectView) -> PointView {
    PointView {
        x: usable.x + (usable.width - window.width) / 2,
        y: usable.y + (usable.height - window.height) / 2,
    }
}

/// The window moved one step in the direction of `action`, held back at the
/// edge of the usable area that lies in that direction.
pub open spec fn nudged(action: Action, usable: RectView, window: RectView) -> RectView {
    RectView {
        x: match action {
            Action::MoveLeft => max(window.x - MOVE_STEP, usable.x),
            Action::MoveRight => min(
                window.x + MOVE_STEP,
                usable.x + usable.width - window.width,
            ),
            _ => window.x,
        },
        y: match action {
            Action::MoveUp => max(window.y - MOVE_STEP, usable.y),
            Action::MoveDown => min(
                window.y + MOVE_STEP,
                usable.y + usable.height - window.height,
            ),
            _ => window.y,
        },
        width: window.width,
        height: window.height,
    }
}

/// The actions that the placement table answers: the tiling actions, those
/// that go by the window's frame, and `Restore`.
pub open spec fn has_placement(action: Action) -> bool {
    needs(action) is Window || needs(action) is Nothing
}

/// The placement table.
///
/// `Restore` is not implemented. A tiling action gives its tile of the
/// usable area whatever the window. Every other action goes by the window's
/// frame and fails without one.
pub open spec fn placement_of(action: Action, usable: RectView, window: Option<RectView>) -> Result<
    PlacementView,
    Error,
> {
    if action is Restore {
        Err(Error::NotImplemented)
    } else if let Some(tile) = tile_of(action) {
        Ok(PlacementView::Frame(tile_frame(tile, usable)))
    } else if let Some(w) = window {
        Ok(
            match action {
                Action::Center => PlacementView::OriginOnly(centered(usable, w)),
                Action::MakeLarger => PlacementView::RelativeDelta(
                    DeltaView::between(w, enlarged(usable, w)),
                ),
                Action::MakeSmaller => PlacementView::RelativeDelta(
                    DeltaView::between(w, shrunk(w)),
                ),
                Action::MaximizeWidth => PlacementView::Frame(
                    RectView { x: usable.x, y: w.y, width: usable.width, height: w.height },
                ),
                Action::MaximizeHeight => PlacementView::Frame(
                    RectView { x: w.x, y: usable.y, width: w.width, height: usable.height },
                ),
                _ => PlacementView::RelativeDelta(DeltaView::between(w, nudged(action, usable, w))),
            },
        )
    } else {
        Err(Error::NoFocusedWindow)
    }
}

pub open spec fn option_view(window: Option<Rect>) -> Option<RectView> {
    match window {
        Some(w) => Some(w@),
        None => None,
    }
}

pub open spec fn result_view(result: Result<PlacementResult, Error>) -> Result<PlacementView, Error> {
    match result {
        Ok(p) => Ok(p@),
        Err(e) => Err(e),
    }
}

/// Where `length` divides by the denominator, nothing is lost to rounding.
pub proof fn lemma_scaled_exact(length: int, f: Fraction)
    requires
        f.den > 0,
        length % (f.den as int) == 0,
    ensures
        is_share(scaled(length, f), f, length),
{
    let d = f.den as int;
    let n = f.num as int;
    lemma_fundamental_div_mod(length, d);
    let k = length / d;
    assert(length == d * k);
    assert(length * n == d * (k * n)) by (nonlinear_arith)
        requires
            length == d * k,
    ;
    lemma_fundamental_div_mod_converse(length * n, d, k * n, 0);
    assert((k * n) * d == d * (k * n)) by (nonlinear_arith);
}

/// A length of whole points divides by every denominator that divides the
/// units of a point.
pub proof fn lemma_whole_points_divide(length: int, den: int)
    requires
        length % (UNITS_PER_POINT as int) == 0,
        den > 0,
        (UNITS_PER_POINT as int) % den == 0,
    ensures
        length % den == 0,
{
    let u = UNITS_PER_POINT as int;
    lemma_fundamental_div_mod(length, u);
    lemma_fundamental_div_mod(u, den);
    let k = length / u;
    let m = u / den;
    assert(length == den * (m * k)) by (nonlinear_arith)
        requires
            length == u * k,
            u == den * m,
    ;
    lemma_fundamental_div_mod_converse(length, den, m * k, 0);
}

/// A well-formed tile of a usable area of whole points is exactly its
/// fraction of it, on both axes.
pub proof fn lemma_tile_exact(tile: Tile, usable: RectView)
    requires
        slice_wf(tile.column),
        slice_wf(tile.row),
        usable.whole_points(),
    ensures
        is_tile(tile_frame(tile, usable), tile, usable),
{
    lemma_whole_points_divide(usable.width, tile.column.offset.den as int);
    lemma_whole_points_divide(usable.width, tile.column.extent.den as int);
    lemma_whole_points_divide(usable.height, tile.row.offset.den as int);
    lemma_whole_points_divide(usable.height, tile.row.extent.den as int);
    lemma_scaled_exact(usable.width, tile.column.offset);
    lemma_scaled_exact(usable.width, tile.column.extent);
    lemma_scaled_exact(usable.height, tile.row.offset);
    lemma_scaled_exact(usable.height, tile.row.extent);
}

/// `f` of `length`.
fn scale(length: i64, f: Fraction) -> (part: i64)
    requires
        0 <= length <= 2 * COORD_LIMIT,
        0 <= f.num <= f.den,
        1 <= f.den <= 10,
    ensures
        part == scaled(length as int, f),
        0 <= part <= length,
{
    proof {
        lemma_scaled_bounds(length as int, f);
    }
    length * f.num / f.den
}

proof fn lemma_scaled_bounds(length: int, f: Fraction)
    requires
        0 <= length,
        0 <= f.num <= f.den,
        1 <= f.den,
    ensures
        0 <= length * f.num <= length * f.den,
        f.den <= 10 ==> length * f.num <= 10 * length,
        0 <= scaled(length, f) <= length,
{
    let n = f.num as int;
    let d = f.den as int;
    assert(0 <= length * n <= length * d) by (nonlinear_arith)
        requires
            0 <= length,
            0 <= n <= d,
    ;
    assert(d <= 10 ==> length * d <= 10 * length) by (nonlinear_arith)
        requires
            0 <= length,
    ;
    assert(0 <= (length * n) / d <= length) by (nonlinear_arith)
        requires
            0 <= length * n <= length * d,
            1 <= d,
    ;
}

/// `v / 2`, rounded down also where `v` is negative.
fn half(v: i64) -> (h: i64)
    requires
        -0x4000_0000_0000_0000 <= v <= 0x4000_0000_0000_0000,
    ensures
        h == v / 2,
{
    if v >= 0 {
        v / 2
    } else {
        -((1 - v) / 2)
    }
}

fn larger(a: i64, b: i64) -> (m: i64)
    ensures
        m == max(a as int, b as int),
{
    if a >= b {
        a
    } else {
        b
    }
}

fn smaller(a: i64, b: i64) -> (m: i64)
    ensures
        m == min(a as int, b as int),
{
    if a <= b {
        a
    } else {
        b
    }
}

fn delta_between(from: &Rect, to: &Rect) -> (d: Delta)
    requires
        from@.within(0x1000_0000_0000_0000),
        from@.valid(),
        -0x1000_0000_0000_0000 <= to.origin.x <= 0x1000_0000_0000_0000,
        -0x1000_0000_0000_0000 <= to.origin.y <= 0x1000_0000_0000_0000,
        -0x1000_0000_0000_0000 <= to.size.width <= 0x1000_0000_0000_0000,
        -0x1000_0000_0000_0000 <= to.size.height <= 0x1000_0000_0000_0000,
    ensures
        d@ == DeltaView::between(from@, to@),
{
    Delta {
        dx: to.origin.x - from.origin.x,
        dy: to.origin.y - from.origin.y,
        dwidth: to.size.width - from.size.width,
        dheight: to.size.height - from.size.height,
    }
}

/// Where `action` puts the focused window, given the usable area of the
/// screen that the window is on and, for the actions that go by it, the
/// window's frame.
///
/// Fails with `NotImplemented` for `Restore`, and with `NoFocusedWindow`
/// where the action goes by the window's frame and none is given.
///
/// A tile is exactly its fraction of the usable area. What `MakeLarger`
/// gives lies within the usable area, and neither it nor what `MakeSmaller`
/// gives has a negative extent.
pub fn place(action: Action, usable: Rect, current_window: Option<Rect>) -> (result: Result<
    PlacementResult,
    Error,
>)
    requires
        has_placement(action),
        usable.usable_wf(),
        current_window matches Some(w) ==> w.wf(),
        current_window matches Some(w) ==> (action is MakeLarger || action is MakeSmaller)
            ==> w.size.width > 0,
    ensures
        result_view(result) == placement_of(action, usable@, option_view(current_window)),
        tile_of(action) matches Some(t) ==> result matches Ok(PlacementResult::Frame(frame))
            && is_tile(frame@, t, usable@),
        current_window matches Some(w) ==> (action is MakeLarger || action is MakeSmaller)
            ==> result is Ok && result->Ok_0@.target(w@).valid(),
        current_window matches Some(w) ==> action is MakeLarger ==> result is Ok && lies_within(
            result->Ok_0@.target(w@),
            usable@,
        ),
        result matches Ok(p) ==> current_window matches Some(w) ==> representable(
            p@.target(w@),
        ),
{
    if let Action::Restore = action {
        return Err(Error::NotImplemented);
    }
    if let Some(t) = tile(action) {
        proof {
            lemma_tiles_wf(action);
            lemma_tile_exact(t, usable@);
        }
        let frame = Rect {
            origin: Point {
                x: usable.origin.x + scale(usable.size.width, t.column.offset),
                y: usable.origin.y + scale(usable.size.height, t.row.offset),
            },
            size: Size {
                width: scale(usable.size.width, t.column.extent),
                height: scale(usable.size.height, t.row.extent),
            },
        };
        return Ok(PlacementResult::Frame(frame));
    }
    let window = match current_window {
        Some(w) => w,
        None => {
            return Err(Error::NoFocusedWindow);
        },
    };
    let placement = match action {
        Action::Center => PlacementResult::OriginOnly(
            Point {
                x: usable.origin.x + half(usable.size.width - window.size.width),
                y: usable.origin.y + half(usable.size.height - window.size.height),
            },
        ),
        Action::MakeLarger => {
            let to = enlarge(&usable, &window);
            PlacementResult::RelativeDelta(delta_between(&window, &to))
        },
        Action::MakeSmaller => {
            let to = shrink(&window);
            PlacementResult::RelativeDelta(delta_between(&window, &to))
        },
        Action::MaximizeWidth => PlacementResult::Frame(
            Rect {
                origin: Point { x: usable.origin.x, y: window.origin.y },
                size: Size { width: usable.size.width, height: window.size.height },
            },
        ),
        Action::MaximizeHeight => PlacementResult::Frame(
            Rect {
                origin: Point { x: window.origin.x, y: usable.origin.y },
                size: Size { width: window.size.width, height: usable.size.height },
            },
        ),
        _ => {
            let to = nudge(action, &usable, &window);
            PlacementResult::RelativeDelta(delta_between(&window, &to))
        },
    };
    Ok(placement)
}

fn resize_height_step(window: &Rect) -> (step: i64)
    requires
        window.wf(),
        window.size.width > 0,
    ensures
        step == height_step(window@),
        0 <= step <= 2400 * window.size.height,
{
    let h = window.size.height;
    let w = window.size.width;
    assert(0 <= (h * 2400) / (w as int) <= h * 2400) by (nonlinear_arith)
        requires
            0 <= h,
            1 <= w,
    ;
    h * RESIZE_STEP / w
}

fn clamped(v: i64, low: i64, high: i64) -> (c: i64)
    ensures
        c == clamp(v as int, low as int, high as int),
{
    smaller(larger(v, low), high)
}

fn enlarge(usable: &Rect, window: &Rect) -> (to: Rect)
    requires
        usable.wf(),
        window.wf(),
        window.size.width > 0,
    ensures
        to@ == enlarged(usable@, window@),
        to@.valid(),
        lies_within(to@, usable@),
{
    let grow = resize_height_step(window);
    let far_x = usable.origin.x + usable.size.width;
    let far_y = usable.origin.y + usable.size.height;
    let left = clamped(window.origin.x - RESIZE_STEP / 2, usable.origin.x, far_x);
    let right = clamped(
        window.origin.x + window.size.width + RESIZE_STEP / 2,
        usable.origin.x,
        far_x,
    );
    let top = clamped(window.origin.y - grow / 2, usable.origin.y, far_y);
    let bottom = clamped(
        window.origin.y + window.size.height + (grow - grow / 2),
        usable.origin.y,
        far_y,
    );
    Rect { origin: Point { x: left, y: top }, size: Size { width: right - left, height: bottom - top } }
}

fn shrink(window: &Rect) -> (to: Rect)
    requires
        window.wf(),
        window.size.width > 0,
    ensures
        to@ == shrunk(window@),
        to@.valid(),
        to@.within(2 * COORD_LIMIT),
{
    let step = resize_height_step(window);
    let width = larger(window.size.width - RESIZE_STEP, 0);
    let height = larger(window.size.height - step, 0);
    Rect {
        origin: Point {
            x: window.origin.x + (window.size.width - width) / 2,
            y: window.origin.y + (window.size.height - height) / 2,
        },
        size: Size { width, height },
    }
}

fn nudge(action: Action, usable: &Rect, window: &Rect) -> (to: Rect)
    requires
        usable.wf(),
        window.wf(),
    ensures
        to@ == nudged(action, usable@, window@),
        -4 * COORD_LIMIT <= to.origin.x <= 4 * COORD_LIMIT,
        -4 * COORD_LIMIT <= to.origin.y <= 4 * COORD_LIMIT,
        to.size == window.size,
{
    let x = match action {
        Action::MoveLeft => larger(window.origin.x - MOVE_STEP, usable.origin.x),
        Action::MoveRight => smaller(
            window.origin.x + MOVE_STEP,
            usable.origin.x + usable.size.width - window.size.width,
        ),
        _ => window.origin.x,
    };
    let y = match action {
        Action::MoveUp => larger(window.origin.y - MOVE_STEP, usable.origin.y),
        Action::MoveDown => smaller(
            window.origin.y + MOVE_STEP,
            usable.origin.y + usable.size.height - window.size.height,
        ),
        _ => window.origin.y,
    };
    Rect { origin: Point { x, y }, size: window.size }
}

} // verus!
