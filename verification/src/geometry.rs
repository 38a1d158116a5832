//! Points, sizes and rectangles on the integer grid, the two coordinate
//! conventions, and half-open point containment.
//!
//! The unit of the grid is the 120th part of a point. Every fraction that
//! the placement table takes of a whole number of points is then a whole
//! number of units, so that tiling loses nothing to rounding.

use vstd::prelude::*;

verus! {

/// How many units of the grid make one point: a number that every
/// denominator of the placement table divides.
pub const UNITS_PER_POINT: i64 = 120;

/// Largest magnitude of a coordinate that the engine accepts. Every
/// intermediate value of the engine's arithmetic on accepted rectangles fits
/// in an `i64`.
pub const COORD_LIMIT: i64 = 0x1_0000_0000;

/// Largest magnitude of a coordinate of a display as the platform enumerates
/// it. Flipping such a rectangle yields one within [`COORD_LIMIT`].
pub const SCREEN_LIMIT: i64 = 0x4000_0000;

/// Mathematical point.
pub struct PointView {
    pub x: int,
    pub y: int,
}

/// Mathematical rectangle: origin and extent over the integers.
pub struct RectView {
    pub x: int,
    pub y: int,
    pub width: int,
    pub height: int,
}

#[derive(Debug, Clone, Copy, PartialEq, Eq, Hash, Structural)]
pub struct Point {
    pub x: i64,
    pub y: i64,
}

#[derive(Debug, Clone, Copy, PartialEq, Eq, Hash, Structural)]
pub struct Size {
    pub width: i64,
    pub height: i64,
}

/// A display's area or a window's frame.
#[derive(Debug, Clone, Copy, PartialEq, Eq, Hash, Structural)]
pub struct Rect {
    pub origin: Point,
    pub size: Size,
}

impl View for Point {
    type V = PointView;

    open spec fn view(&self) -> PointView {
        PointView { x: self.x as int, y: self.y as int }
    }
}

impl View for Rect {
    type V = RectView;

    open spec fn view(&self) -> RectView {
        RectView {
            x: self.origin.x as int,
            y: self.origin.y as int,
            width: self.size.width as int,
            height: self.size.height as int,
        }
    }
}

impl RectView {
    /// Neither extent is negative.
    pub open spec fn valid(self) -> bool {
        self.width >= 0 && self.height >= 0
    }

    /// Both extents are whole points.
    pub open spec fn whole_points(self) -> bool {
        self.width % (UNITS_PER_POINT as int) == 0 && self.height % (UNITS_PER_POINT as int) == 0
    }

    /// No edge lies further than `limit` from the origin of the grid.
    pub open spec fn within(self, limit: int) -> bool {
        &&& -limit <= self.x
        &&& self.x + self.width <= limit
        &&& -limit <= self.y
        &&& self.y + self.height <= limit
    }

    /// Half-open containment: the left and top edges belong to the
    /// rectangle, the right and bottom edges do not.
    pub open spec fn contains(self, p: PointView) -> bool {
        &&& self.x <= p.x < self.x + self.width
        &&& self.y <= p.y < self.y + self.height
    }

    pub open spec fn area(self) -> int {
        self.width * self.height
    }

    /// The same rectangle in the other convention, against a reference area
    /// of height `reference_height`.
    pub open spec fn flipped(self, reference_height: int) -> RectView {
        RectView {
            x: self.x,
            y: flip_y(reference_height, self.height, self.y),
            width: self.width,
            height: self.height,
        }
    }
}

/// `y` of a rectangle's origin in the other convention: the rectangle
/// spans `unflipped_y .. unflipped_y + rect_height` measured from one
/// horizontal edge of a reference area of height `reference_height`, and the
/// result is its near edge measured from the opposite one.
pub open spec fn flip_y(reference_height: int, rect_height: int, unflipped_y: int) -> int {
    reference_height - (unflipped_y + rect_height)
}

impl Rect {
    /// What the engine accepts: no negative extent, all edges within
    /// [`COORD_LIMIT`].
    pub open spec fn wf(&self) -> bool {
        self@.valid() && self@.within(COORD_LIMIT as int)
    }

    /// What a display reading must satisfy: no negative extent, all edges
    /// within [`SCREEN_LIMIT`].
    pub open spec fn screen_wf(&self) -> bool {
        self@.valid() && self@.within(SCREEN_LIMIT as int)
    }

    /// What the engine accepts as the usable area of a display: a
    /// well-formed rectangle whose extents are whole points.
    pub open spec fn usable_wf(&self) -> bool {
        self.wf() && self@.whole_points()
    }

    /// The rectangle with the given origin and extent, if the engine accepts
    /// it.
    pub fn new(x: i64, y: i64, width: i64, height: i64) -> (rect: Option<Rect>)
        ensures
            ({
                let r = Rect { origin: Point { x, y }, size: Size { width, height } };
                rect == if r.wf() {
                    Some(r)
                } else {
                    None
                }
            }),
    {
        let r = Rect { origin: Point { x, y }, size: Size { width, height } };
        if r.is_wf() {
            Some(r)
        } else {
            None
        }
    }

    /// Run-time test of [`Rect::wf`].
    pub fn is_wf(&self) -> (ok: bool)
        ensures
            ok == self.wf(),
    {
        self.fits(COORD_LIMIT)
    }

    /// Run-time test of [`Rect::usable_wf`].
    pub fn is_usable_wf(&self) -> (ok: bool)
        ensures
            ok == self.usable_wf(),
    {
        self.fits(COORD_LIMIT) && self.size.width % UNITS_PER_POINT == 0 && self.size.height
            % UNITS_PER_POINT == 0
    }

    /// Run-time test of [`Rect::screen_wf`].
    pub fn is_screen_wf(&self) -> (ok: bool)
        ensures
            ok == self.screen_wf(),
    {
        self.fits(SCREEN_LIMIT)
    }

    fn fits(&self, limit: i64) -> (ok: bool)
        requires
            0 <= limit <= COORD_LIMIT,
        ensures
            ok == (self@.valid() && self@.within(limit as int)),
    {
        self.size.width >= 0 && self.size.height >= 0 && -limit <= self.origin.x
            && self.origin.x <= limit && self.size.width <= limit - self.origin.x && -limit
            <= self.origin.y && self.origin.y <= limit && self.size.height <= limit
            - self.origin.y
    }

    /// Converts a display reading to the flipped convention, against the
    /// primary display's full height.
    pub fn flipped(&self, reference_height: i64) -> (rect: Rect)
        requires
            self.screen_wf(),
            0 <= reference_height <= 2 * SCREEN_LIMIT,
        ensures
            rect@ == self@.flipped(reference_height as int),
            rect.wf(),
            rect.size == self.size,
    {
        Rect {
            origin: Point {
                x: self.origin.x,
                y: flip_frame_y(reference_height, self.size.height, self.origin.y),
            },
            size: self.size,
        }
    }
}

/// Whether `point` lies in `frame`, the right and bottom edges excluded.
pub fn frame_contains_point(frame: &Rect, point: &Point) -> (inside: bool)
    ensures
        inside == frame@.contains(point@),
{
    let x_in_range = point.x >= frame.origin.x && (point.x as i128) < frame.origin.x as i128
        + frame.size.width as i128;
    let y_in_range = point.y >= frame.origin.y && (point.y as i128) < frame.origin.y as i128
        + frame.size.height as i128;
    x_in_range && y_in_range
}

/// Converts the `y` of a rectangle between the two conventions.
pub fn flip_frame_y(main_screen_height: i64, frame_height: i64, frame_unflipped_y: i64) -> (y: i64)
    requires
        -COORD_LIMIT <= main_screen_height <= COORD_LIMIT,
        -COORD_LIMIT <= frame_height <= COORD_LIMIT,
        -COORD_LIMIT <= frame_unflipped_y <= COORD_LIMIT,
    ensures
        y == flip_y(main_screen_height as int, frame_height as int, frame_unflipped_y as int),
{
    main_screen_height - (frame_unflipped_y + frame_height)
}

/// Flipping twice against the same reference, with the height unchanged,
/// gives the coordinate that one started from.
pub proof fn lemma_flip_y_involution(reference_height: int, rect_height: int, y: int)
    ensures
        flip_y(reference_height, rect_height, flip_y(reference_height, rect_height, y)) == y,
{
}

/// Flipping a rectangle twice against the same reference gives the
/// rectangle back.
pub proof fn lemma_flipped_involution(r: RectView, reference_height: int)
    ensures
        r.flipped(reference_height).flipped(reference_height) == r,
{
}

/// Containment is half-open: no point on the right or bottom edge is
/// inside, and the top-left corner of a rectangle that is not empty is.
pub proof fn lemma_containment_half_open(r: RectView, p: PointView)
    ensures
        p.x == r.x + r.width ==> !r.contains(p),
        p.y == r.y + r.height ==> !r.contains(p),
        r.width > 0 && r.height > 0 && p.x == r.x && p.y == r.y ==> r.contains(p),
{
}

/// A point on the boundary between two rectangles side by side belongs to
/// the one that starts there and to no other: they share no point.
pub proof fn lemma_side_by_side_share_no_point(left: RectView, right: RectView, p: PointView)
    requires
        right.x == left.x + left.width,
    ensures
        !(left.contains(p) && right.contains(p)),
        p.x == right.x ==> !left.contains(p),
        p.x == right.x && right.width > 0 && right.y <= p.y < right.y + right.height
            ==> right.contains(p),
{
}

/// The same for two rectangles one above the other.
pub proof fn lemma_stacked_share_no_point(upper: RectView, lower: RectView, p: PointView)
    requires
        lower.y == upper.y + upper.height,
    ensures
        !(upper.contains(p) && lower.contains(p)),
        p.y == lower.y ==> !upper.contains(p),
        p.y == lower.y && lower.height > 0 && lower.x <= p.x < lower.x + lower.width
            ==> lower.contains(p),
{
}

} // verus!
