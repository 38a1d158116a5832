//! What holds of the placement table.

use crate::actions::{is_nudge, Action};
use crate::geometry::{PointView, RectView, UNITS_PER_POINT};
use crate::placement::{
    centered, enlarged, height_step, lies_within, is_tile, lemma_scaled_exact, lemma_tile_exact, lemma_tiles_wf,
    lemma_whole_points_divide, nudged, placement_of, scaled, shrunk, slice_wf, tile_frame,
    tile_of, Fraction, Slice, RESIZE_STEP,
};
use vstd::arithmetic::div_mod::{lemma_fundamental_div_mod, lemma_fundamental_div_mod_converse};
use vstd::prelude::*;

verus! {

/// The share of the usable area that the name of a tiling action promises.
pub open spec fn claimed_share(action: Action) -> Option<Fraction> {
    match action {
        Action::TopHalf
        | Action::BottomHalf
        | Action::LeftHalf
        | Action::RightHalf
        | Action::CenterHalf => Some(Fraction { num: 1, den: 2 }),
        Action::TopLeftQuarter
        | Action::TopRightQuarter
        | Action::BottomLeftQuarter
        | Action::BottomRightQuarter => Some(Fraction { num: 1, den: 4 }),
        Action::TopLeftSixth
        | Action::TopCenterSixth
        | Action::TopRightSixth
        | Action::BottomLeftSixth
        | Action::BottomCenterSixth
        | Action::BottomRightSixth => Some(Fraction { num: 1, den: 6 }),
        Action::TopThird
        | Action::MiddleThird
        | Action::BottomThird
        | Action::FirstThird
        | Action::CenterThird
        | Action::LastThird => Some(Fraction { num: 1, den: 3 }),
        Action::FirstFourth
        | Action::SecondFourth
        | Action::ThirdFourth
        | Action::LastFourth
        | Action::TopFirstFourth
        | Action::TopSecondFourth
        | Action::TopThirdFourth
        | Action::TopLastFourth => Some(Fraction { num: 1, den: 4 }),
        Action::FirstTwoThirds
        | Action::CenterTwoThirds
        | Action::LastTwoThirds
        | Action::TopTwoThirds
        | Action::BottomTwoThirds => Some(Fraction { num: 2, den: 3 }),
        Action::FirstThreeFourths
        | Action::CenterThreeFourths
        | Action::LastThreeFourths
        | Action::TopThreeFourths
        | Action::BottomThreeFourths => Some(Fraction { num: 3, den: 4 }),
        _ => None,
    }
}

/// The frame that a tiling action cuts out of `usable`.
pub open spec fn frame_of(action: Action, usable: RectView) -> RectView {
    tile_frame(tile_of(action)->Some_0, usable)
}

/// The extents of a tile multiply to the share that the action's name
/// promises.
pub proof fn lemma_tile_share(action: Action)
    by (nonlinear_arith)
    requires
        claimed_share(action) is Some,
    ensures
        tile_of(action) is Some,
        ({
            let t = tile_of(action)->Some_0;
            let c = claimed_share(action)->Some_0;
            t.column.extent.num * t.row.extent.num * c.den == c.num * (t.column.extent.den
                * t.row.extent.den)
        }),
{
}

/// The frame of a tiling action is exactly its tile of a usable area of
/// whole points: each offset and each extent is the table's fraction of the
/// usable area's extent, with nothing lost.
pub proof fn lemma_frame_is_tile(action: Action, usable: RectView)
    requires
        tile_of(action) is Some,
        usable.whole_points(),
    ensures
        is_tile(frame_of(action, usable), tile_of(action)->Some_0, usable),
{
    lemma_tiles_wf(action);
    lemma_tile_exact(tile_of(action)->Some_0, usable);
}

/// The area of the frame is exactly the share of the usable area's that the
/// action's name promises.
pub proof fn lemma_tile_area(action: Action, usable: RectView)
    requires
        claimed_share(action) is Some,
        usable.whole_points(),
    ensures
        frame_of(action, usable).area() * claimed_share(action)->Some_0.den == usable.area()
            * claimed_share(action)->Some_0.num,
{
    lemma_tile_share(action);
    lemma_frame_is_tile(action, usable);
    let t = tile_of(action)->Some_0;
    let c = claimed_share(action)->Some_0;
    let f = frame_of(action, usable);
    lemma_share_of_product(
        f.width,
        f.height,
        usable.width,
        usable.height,
        t.column.extent.num as int,
        t.column.extent.den as int,
        t.row.extent.num as int,
        t.row.extent.den as int,
        c.num as int,
        c.den as int,
    );
}

/// If `fw` is `wn / wd` of `uw`, `fh` is `hn / hd` of `uh`, and the two
/// fractions multiply to `cn / cd`, then `fw * fh` is `cn / cd` of `uw * uh`.
proof fn lemma_share_of_product(
    fw: int,
    fh: int,
    uw: int,
    uh: int,
    wn: int,
    wd: int,
    hn: int,
    hd: int,
    cn: int,
    cd: int,
)
    requires
        fw * wd == uw * wn,
        fh * hd == uh * hn,
        wn * hn * cd == cn * (wd * hd),
        wd > 0,
        hd > 0,
    ensures
        (fw * fh) * cd == (uw * uh) * cn,
{
    let k = wd * hd;
    assert(k > 0) by (nonlinear_arith)
        requires
            k == wd * hd,
            wd > 0,
            hd > 0,
    ;
    assert(((fw * fh) * cd) * k == (fw * wd) * (fh * hd) * cd) by (nonlinear_arith)
        requires
            k == wd * hd,
    ;
    assert((uw * wn) * (uh * hn) * cd == (uw * uh) * (wn * hn * cd)) by (nonlinear_arith);
    assert((uw * uh) * (cn * k) == ((uw * uh) * cn) * k) by (nonlinear_arith);
    let lhs = (fw * fh) * cd;
    let rhs = (uw * uh) * cn;
    assert(lhs * k == rhs * k);
    assert(lhs == rhs) by (nonlinear_arith)
        requires
            lhs * k == rhs * k,
            k > 0,
    ;
}

/// Families of tiling actions whose tiles together make up the whole usable
/// area.
pub open spec fn complementary(actions: Seq<Action>) -> bool {
    ||| actions == seq![Action::LeftHalf, Action::RightHalf]
    ||| actions == seq![Action::TopHalf, Action::BottomHalf]
    ||| actions == seq![
        Action::TopLeftQuarter,
        Action::TopRightQuarter,
        Action::BottomLeftQuarter,
        Action::BottomRightQuarter,
    ]
    ||| actions == seq![
        Action::TopLeftSixth,
        Action::TopCenterSixth,
        Action::TopRightSixth,
        Action::BottomLeftSixth,
        Action::BottomCenterSixth,
        Action::BottomRightSixth,
    ]
    ||| actions == seq![Action::TopThird, Action::MiddleThird, Action::BottomThird]
    ||| actions == seq![Action::FirstThird, Action::CenterThird, Action::LastThird]
    ||| actions == seq![
        Action::FirstFourth,
        Action::SecondFourth,
        Action::ThirdFourth,
        Action::LastFourth,
    ]
    ||| actions == seq![
        Action::TopFirstFourth,
        Action::TopSecondFourth,
        Action::TopThirdFourth,
        Action::TopLastFourth,
    ]
    ||| actions == seq![Action::FirstTwoThirds, Action::LastThird]
    ||| actions == seq![Action::FirstThird, Action::LastTwoThirds]
    ||| actions == seq![Action::TopTwoThirds, Action::BottomThird]
    ||| actions == seq![Action::TopThird, Action::BottomTwoThirds]
    ||| actions == seq![Action::FirstThreeFourths, Action::LastFourth]
    ||| actions == seq![Action::FirstFourth, Action::LastThreeFourths]
    ||| actions == seq![Action::TopThreeFourths, Action::TopLastFourth]
    ||| actions == seq![Action::TopFirstFourth, Action::BottomThreeFourths]
}

/// The frames of `actions` partition `usable` at `p`: the point lies in the
/// usable area if and only if it lies in one of the frames, and it lies in
/// no two of them.
pub open spec fn frames_partition_at(actions: Seq<Action>, usable: RectView, p: PointView) -> bool {
    &&& usable.contains(p) <==> exists|i: int|
        0 <= i < actions.len() && frame_of(#[trigger] actions[i], usable).contains(p)
    &&& forall|i: int, j: int|
        0 <= i < j < actions.len() ==> !(frame_of(#[trigger] actions[i], usable).contains(p)
            && frame_of(#[trigger] actions[j], usable).contains(p))
}

/// A cell of a grid: `col_span` columns from column `col` on and `row_span`
/// rows from row `row` on, of `cols` columns and `rows` rows of equal size.
pub struct Cell {
    pub cols: int,
    pub col: int,
    pub col_span: int,
    pub rows: int,
    pub row: int,
    pub row_span: int,
}

pub open spec fn cell(cols: int, col: int, col_span: int, rows: int, row: int, row_span: int) -> Cell {
    Cell { cols, col, col_span, rows, row, row_span }
}

/// The grid cell that an action of a complementary family stands for; none
/// for any other action.
pub open spec fn cell_of(action: Action) -> Option<Cell> {
    match action {
        Action::LeftHalf => Some(cell(2, 0, 1, 1, 0, 1)),
        Action::RightHalf => Some(cell(2, 1, 1, 1, 0, 1)),
        Action::TopHalf => Some(cell(1, 0, 1, 2, 0, 1)),
        Action::BottomHalf => Some(cell(1, 0, 1, 2, 1, 1)),
        Action::TopLeftQuarter => Some(cell(2, 0, 1, 2, 0, 1)),
        Action::TopRightQuarter => Some(cell(2, 1, 1, 2, 0, 1)),
        Action::BottomLeftQuarter => Some(cell(2, 0, 1, 2, 1, 1)),
        Action::BottomRightQuarter => Some(cell(2, 1, 1, 2, 1, 1)),
        Action::TopLeftSixth => Some(cell(3, 0, 1, 2, 0, 1)),
        Action::TopCenterSixth => Some(cell(3, 1, 1, 2, 0, 1)),
        Action::TopRightSixth => Some(cell(3, 2, 1, 2, 0, 1)),
        Action::BottomLeftSixth => Some(cell(3, 0, 1, 2, 1, 1)),
        Action::BottomCenterSixth => Some(cell(3, 1, 1, 2, 1, 1)),
        Action::BottomRightSixth => Some(cell(3, 2, 1, 2, 1, 1)),
        Action::TopThird => Some(cell(1, 0, 1, 3, 0, 1)),
        Action::MiddleThird => Some(cell(1, 0, 1, 3, 1, 1)),
        Action::BottomThird => Some(cell(1, 0, 1, 3, 2, 1)),
        Action::FirstThird => Some(cell(3, 0, 1, 1, 0, 1)),
        Action::CenterThird => Some(cell(3, 1, 1, 1, 0, 1)),
        Action::LastThird => Some(cell(3, 2, 1, 1, 0, 1)),
        Action::FirstFourth => Some(cell(4, 0, 1, 1, 0, 1)),
        Action::SecondFourth => Some(cell(4, 1, 1, 1, 0, 1)),
        Action::ThirdFourth => Some(cell(4, 2, 1, 1, 0, 1)),
        Action::LastFourth => Some(cell(4, 3, 1, 1, 0, 1)),
        Action::TopFirstFourth => Some(cell(1, 0, 1, 4, 0, 1)),
        Action::TopSecondFourth => Some(cell(1, 0, 1, 4, 1, 1)),
        Action::TopThirdFourth => Some(cell(1, 0, 1, 4, 2, 1)),
        Action::TopLastFourth => Some(cell(1, 0, 1, 4, 3, 1)),
        Action::FirstTwoThirds => Some(cell(3, 0, 2, 1, 0, 1)),
        Action::LastTwoThirds => Some(cell(3, 1, 2, 1, 0, 1)),
        Action::TopTwoThirds => Some(cell(1, 0, 1, 3, 0, 2)),
        Action::BottomTwoThirds => Some(cell(1, 0, 1, 3, 1, 2)),
        Action::FirstThreeFourths => Some(cell(4, 0, 3, 1, 0, 1)),
        Action::LastThreeFourths => Some(cell(4, 1, 3, 1, 0, 1)),
        Action::TopThreeFourths => Some(cell(1, 0, 1, 4, 0, 3)),
        Action::BottomThreeFourths => Some(cell(1, 0, 1, 4, 1, 3)),
        _ => None,
    }
}

/// The rectangle that a cell takes of `usable`.
pub open spec fn cell_rect(c: Cell, usable: RectView) -> RectView {
    RectView {
        x: usable.x + c.col * (usable.width / c.cols),
        y: usable.y + c.row * (usable.height / c.rows),
        width: c.col_span * (usable.width / c.cols),
        height: c.row_span * (usable.height / c.rows),
    }
}

/// The cell lies on its grid.
pub open spec fn cell_wf(c: Cell) -> bool {
    &&& 1 <= c.cols <= 4
    &&& 1 <= c.rows <= 4
    &&& 0 <= c.col
    &&& 1 <= c.col_span
    &&& c.col + c.col_span <= c.cols
    &&& 0 <= c.row
    &&& 1 <= c.row_span
    &&& c.row + c.row_span <= c.rows
}

/// The column and the row of the grid that the point `p` lies in.
pub open spec fn grid_place(c: Cell, usable: RectView, p: PointView) -> (int, int) {
    ((p.x - usable.x) / (usable.width / c.cols), (p.y - usable.y) / (usable.height / c.rows))
}

/// The cell holds the column and the row.
pub open spec fn cell_holds(c: Cell, place: (int, int)) -> bool {
    c.col <= place.0 < c.col + c.col_span && c.row <= place.1 < c.row + c.row_span
}

/// The fractions of the table and the cell of an action of a complementary
/// family say the same: the offset is `col / cols`, the extent is
/// `col_span / cols`, and so for the rows.
proof fn lemma_cell_fractions(action: Action)
    by (nonlinear_arith)
    requires
        cell_of(action) is Some,
    ensures
        tile_of(action) is Some,
        cell_wf(cell_of(action)->Some_0),
        ({
            let t = tile_of(action)->Some_0;
            let c = cell_of(action)->Some_0;
            &&& t.column.offset.num * c.cols == c.col * t.column.offset.den
            &&& t.column.extent.num * c.cols == c.col_span * t.column.extent.den
            &&& t.row.offset.num * c.rows == c.row * t.row.offset.den
            &&& t.row.extent.num * c.rows == c.row_span * t.row.extent.den
        }),
{
}

/// `f` of a length is `count` of the parts that cut the length into
/// `parts`, where `f` is `count / parts` and nothing is lost to rounding.
proof fn lemma_scaled_parts(length: int, f: Fraction, parts: int, count: int)
    requires
        f.den > 0,
        parts > 0,
        length % (f.den as int) == 0,
        length % parts == 0,
        f.num * parts == count * f.den,
    ensures
        scaled(length, f) == count * (length / parts),
{
    let (n, d) = (f.num as int, f.den as int);
    let q = scaled(length, f);
    let u = length / parts;
    lemma_scaled_exact(length, f);
    lemma_fundamental_div_mod(length, parts);
    assert(length == parts * u);
    assert(q * d == (count * u) * d) by (nonlinear_arith)
        requires
            q * d == length * n,
            length == parts * u,
            n * parts == count * d,
    {
        assert(length * n == u * (n * parts));
        assert(u * (count * d) == (count * u) * d);
    }
    assert(q == count * u) by (nonlinear_arith)
        requires
            q * d == (count * u) * d,
            d > 0,
    ;
}

/// The frame of an action of a complementary family is its grid cell.
pub proof fn lemma_frame_is_cell(action: Action, usable: RectView)
    requires
        cell_of(action) is Some,
        usable.whole_points(),
    ensures
        tile_of(action) is Some,
        cell_wf(cell_of(action)->Some_0),
        frame_of(action, usable) == cell_rect(cell_of(action)->Some_0, usable),
{
    lemma_cell_fractions(action);
    let t = tile_of(action)->Some_0;
    let c = cell_of(action)->Some_0;
    lemma_tiles_wf(action);
    lemma_grid_divides(c.cols);
    lemma_grid_divides(c.rows);
    lemma_whole_points_divide(usable.width, t.column.offset.den as int);
    lemma_whole_points_divide(usable.width, t.column.extent.den as int);
    lemma_whole_points_divide(usable.width, c.cols);
    lemma_whole_points_divide(usable.height, t.row.offset.den as int);
    lemma_whole_points_divide(usable.height, t.row.extent.den as int);
    lemma_whole_points_divide(usable.height, c.rows);
    lemma_scaled_parts(usable.width, t.column.offset, c.cols, c.col);
    lemma_scaled_parts(usable.width, t.column.extent, c.cols, c.col_span);
    lemma_scaled_parts(usable.height, t.row.offset, c.rows, c.row);
    lemma_scaled_parts(usable.height, t.row.extent, c.rows, c.row_span);
}

/// A point lies in the rectangle of a cell exactly if the cell holds the
/// column and the row of the grid that the point lies in.
pub proof fn lemma_cell_contains(c: Cell, usable: RectView, p: PointView)
    requires
        cell_wf(c),
        usable.valid(),
        usable.whole_points(),
    ensures
        usable.width == c.cols * (usable.width / c.cols),
        usable.height == c.rows * (usable.height / c.rows),
        cell_rect(c, usable).contains(p) <==> usable.width > 0 && usable.height > 0
            && cell_holds(c, grid_place(c, usable, p)),
{
    lemma_grid_divides(c.cols);
    lemma_grid_divides(c.rows);
    lemma_whole_points_divide(usable.width, c.cols);
    lemma_whole_points_divide(usable.height, c.rows);
    lemma_fundamental_div_mod(usable.width, c.cols);
    lemma_fundamental_div_mod(usable.height, c.rows);
    lemma_span_contains(usable.width / c.cols, c.col, c.col_span, p.x - usable.x);
    lemma_span_contains(usable.height / c.rows, c.row, c.row_span, p.y - usable.y);
}

/// One, two, three and four divide the units of a point.
proof fn lemma_grid_divides(n: int)
    requires
        1 <= n <= 4,
    ensures
        (UNITS_PER_POINT as int) % n == 0,
{
    if n == 1 {
    } else if n == 2 {
    } else if n == 3 {
    } else {
    }
}

/// `v` lies among `span` stretches of length `unit` from the `from`-th on
/// exactly if the stretch that it lies in is one of them.
proof fn lemma_span_contains(unit: int, from: int, span: int, v: int)
    requires
        unit >= 0,
        from >= 0,
        span >= 1,
    ensures
        from * unit <= v < from * unit + span * unit <==> unit > 0 && from <= v / unit < from
            + span,
{
    if unit > 0 {
        lemma_fundamental_div_mod(v, unit);
        let i = v / unit;
        assert(from <= i ==> from * unit <= i * unit) by (nonlinear_arith)
            requires
                unit > 0,
        ;
        assert(i < from ==> (i + 1) * unit <= from * unit) by (nonlinear_arith)
            requires
                unit > 0,
        ;
        assert(i < from + span ==> (i + 1) * unit <= (from + span) * unit) by (nonlinear_arith)
            requires
                unit > 0,
        ;
        assert(from + span <= i ==> (from + span) * unit <= i * unit) by (nonlinear_arith)
            requires
                unit > 0,
        ;
        assert((from + span) * unit == from * unit + span * unit) by (nonlinear_arith);
        assert((i + 1) * unit == i * unit + unit) by (nonlinear_arith);
        assert(unit * i == i * unit) by (nonlinear_arith);
    } else {
        assert(span * unit == 0) by (nonlinear_arith)
            requires
                unit == 0,
        ;
    }
}

/// The cell of the `k`-th action of a family.
pub open spec fn cell_at(actions: Seq<Action>, k: int) -> Cell {
    cell_of(actions[k])->Some_0
}

/// The cells of a complementary family share one grid, and each column and
/// row of the grid is held by exactly one of them.
proof fn lemma_cells_tile(actions: Seq<Action>, place: (int, int))
    requires
        complementary(actions),
    ensures
        2 <= actions.len() <= 6,
        forall|k: int|
            0 <= k < actions.len() ==> cell_of(#[trigger] actions[k]) is Some && cell_at(
                actions,
                k,
            ).cols == cell_at(actions, 0).cols && cell_at(actions, k).rows == cell_at(
                actions,
                0,
            ).rows,
        0 <= place.0 < cell_at(actions, 0).cols && 0 <= place.1 < cell_at(actions, 0).rows
            <==> exists|k: int|
            0 <= k < actions.len() && cell_holds(#[trigger] cell_at(actions, k), place),
        forall|k: int, l: int|
            0 <= k < l < actions.len() ==> !(cell_holds(#[trigger] cell_at(actions, k), place)
                && cell_holds(#[trigger] cell_at(actions, l), place)),
{
    let n = actions.len();
    if 0 <= place.0 < cell_at(actions, 0).cols && 0 <= place.1 < cell_at(actions, 0).rows {
        assert(cell_holds(cell_at(actions, 0), place) || cell_holds(cell_at(actions, 1), place)
            || (n > 2 && cell_holds(cell_at(actions, 2), place)) || (n > 3 && cell_holds(
            cell_at(actions, 3),
            place,
        )) || (n > 4 && cell_holds(cell_at(actions, 4), place)) || (n > 5 && cell_holds(
            cell_at(actions, 5),
            place,
        )));
    }
}

/// The frames of complementary actions partition a usable area of whole
/// points, with no gap and no overlap.
pub proof fn lemma_complementary_frames_partition(
    actions: Seq<Action>,
    usable: RectView,
    p: PointView,
)
    requires
        complementary(actions),
        usable.valid(),
        usable.whole_points(),
    ensures
        frames_partition_at(actions, usable, p),
{
    let grid = cell_at(actions, 0);
    let place = grid_place(grid, usable, p);
    lemma_cells_tile(actions, place);
    lemma_frame_is_cell(actions[0], usable);
    let whole = cell(grid.cols, 0, grid.cols, grid.rows, 0, grid.rows);
    lemma_cell_contains(whole, usable, p);
    assert(cell_rect(whole, usable) == usable);
    assert forall|k: int| 0 <= k < actions.len() implies (#[trigger] frame_of(
        actions[k],
        usable,
    )).contains(p) == (usable.width > 0 && usable.height > 0 && cell_holds(
        cell_at(actions, k),
        place,
    )) by {
        lemma_frame_is_cell(actions[k], usable);
        lemma_cell_contains(cell_at(actions, k), usable, p);
    }
    if usable.contains(p) {
        let k = choose|k: int|
            0 <= k < actions.len() && cell_holds(#[trigger] cell_at(actions, k), place);
        assert(frame_of(actions[k], usable).contains(p));
    }
}

/// The frame of every tiling action lies within the usable area.
pub proof fn lemma_tile_within_usable(action: Action, usable: RectView)
    requires
        tile_of(action) is Some,
        usable.valid(),
    ensures
        frame_of(action, usable).valid(),
        usable.x <= frame_of(action, usable).x,
        usable.y <= frame_of(action, usable).y,
        frame_of(action, usable).x + frame_of(action, usable).width <= usable.x + usable.width,
        frame_of(action, usable).y + frame_of(action, usable).height <= usable.y + usable.height,
{
    let t = tile_of(action)->Some_0;
    lemma_tiles_wf(action);
    lemma_slice_within(usable.width, t.column);
    lemma_slice_within(usable.height, t.row);
}

/// A slice of an axis starts and ends on the axis.
pub proof fn lemma_slice_within(length: int, s: Slice)
    requires
        0 <= length,
        slice_wf(s),
    ensures
        0 <= scaled(length, s.offset),
        0 <= scaled(length, s.extent),
        scaled(length, s.offset) + scaled(length, s.extent) <= length,
{
    let (on, od) = (s.offset.num as int, s.offset.den as int);
    let (en, ed) = (s.extent.num as int, s.extent.den as int);
    let a = scaled(length, s.offset);
    let b = scaled(length, s.extent);
    lemma_fundamental_div_mod(length * on, od);
    lemma_fundamental_div_mod(length * en, ed);
    assert(0 <= length * on && 0 <= length * en) by (nonlinear_arith)
        requires
            0 <= length,
            0 <= on,
            0 <= en,
    ;
    assert(0 <= a && 0 <= b && a + b <= length) by (nonlinear_arith)
        requires
            0 <= length,
            1 <= od,
            1 <= ed,
            0 <= on,
            0 <= en,
            on * ed + en * od <= od * ed,
            length * on == od * a + (length * on) % od,
            length * en == ed * b + (length * en) % ed,
            0 <= (length * on) % od < od,
            0 <= (length * en) % ed < ed,
    {
        assert(od * a <= length * on);
        assert(ed * b <= length * en);
        assert((od * ed) * (a + b) == ed * (od * a) + od * (ed * b));
        assert(ed * (od * a) <= ed * (length * on));
        assert(od * (ed * b) <= od * (length * en));
        assert(ed * (length * on) + od * (length * en) == length * (on * ed + en * od));
        assert(length * (on * ed + en * od) <= length * (od * ed));
        assert((od * ed) * (a + b) <= (od * ed) * length);
        assert(od * ed >= 1);
    }
}

/// What `MakeLarger` gives is a rectangle within the usable area: no edge
/// of it lies beyond the usable area's.
pub proof fn lemma_enlarged_respects_usable(usable: RectView, window: RectView)
    requires
        usable.valid(),
        window.valid(),
        window.width > 0,
    ensures
        enlarged(usable, window).valid(),
        lies_within(enlarged(usable, window), usable),
{
    lemma_height_step_bounds(window);
}

/// The height step is not negative.
pub proof fn lemma_height_step_bounds(window: RectView)
    requires
        window.valid(),
        window.width > 0,
    ensures
        0 <= height_step(window),
        window.width >= RESIZE_STEP ==> height_step(window) <= window.height,
{
    let h = window.height;
    let w = window.width;
    assert(0 <= (h * 2400) / w) by (nonlinear_arith)
        requires
            0 <= h,
            0 < w,
    ;
    assert(w >= 2400 ==> (h * 2400) / w <= h) by (nonlinear_arith)
        requires
            0 <= h,
            0 < w,
    ;
}

/// A window within the usable area does not lose by `MakeLarger`: each of
/// its edges stays or moves outward, and an edge that is not held back moves
/// by its full half of the step.
pub proof fn lemma_enlarged_grows(usable: RectView, window: RectView)
    requires
        usable.valid(),
        window.valid(),
        window.width > 0,
        lies_within(window, usable),
    ensures
        lies_within(window, enlarged(usable, window)),
        window.x - RESIZE_STEP / 2 >= usable.x ==> enlarged(usable, window).x == window.x
            - RESIZE_STEP / 2,
        window.x + window.width + RESIZE_STEP / 2 <= usable.x + usable.width ==> enlarged(
            usable,
            window,
        ).x + enlarged(usable, window).width == window.x + window.width + RESIZE_STEP / 2,
{
    lemma_height_step_bounds(window);
}

/// Centering rounds down to the grid, by less than one unit: twice the
/// distance from the usable area's origin is the room that the window
/// leaves, or one less.
pub proof fn lemma_centered_rounding(usable: RectView, window: RectView)
    ensures
        0 <= (usable.width - window.width) - 2 * (centered(usable, window).x - usable.x) <= 1,
        0 <= (usable.height - window.height) - 2 * (centered(usable, window).y - usable.y) <= 1,
{
}

/// The height step rounds down to the grid, by less than one unit: it
/// keeps the aspect ratio to within one unit of height.
pub proof fn lemma_height_step_rounding(window: RectView)
    requires
        window.width > 0,
    ensures
        height_step(window) * window.width <= window.height * RESIZE_STEP < (height_step(window)
            + 1) * window.width,
{
    let q = height_step(window);
    let w = window.width;
    lemma_fundamental_div_mod(window.height * 2400, w);
    assert(q * w == w * q && (q + 1) * w == w * q + w) by (nonlinear_arith);
}

/// `MakeLarger` is held back at no edge of the usable area.
pub open spec fn grows_freely(usable: RectView, window: RectView) -> bool {
    &&& window.x - RESIZE_STEP / 2 >= usable.x
    &&& window.y - height_step(window) / 2 >= usable.y
    &&& window.x + window.width + RESIZE_STEP / 2 <= usable.x + usable.width
    &&& window.y + window.height + (height_step(window) - height_step(window) / 2) <= usable.y
        + usable.height
}

/// What `MakeSmaller` gives is a rectangle: no extent of it is negative.
/// Where the window is at least a step wide, it is the window with the step
/// taken off its width, the height step off its height, and half of each
/// added to its origin.
pub proof fn lemma_shrunk_valid(window: RectView)
    requires
        window.valid(),
        window.width > 0,
    ensures
        shrunk(window).valid(),
        window.width >= RESIZE_STEP ==> shrunk(window) == (RectView {
            x: window.x + RESIZE_STEP / 2,
            y: window.y + height_step(window) / 2,
            width: window.width - RESIZE_STEP,
            height: window.height - height_step(window),
        }),
{
    lemma_height_step_bounds(window);
}

/// Shrinking what was enlarged gives the window back, where the enlarging
/// was held back nowhere.
pub proof fn lemma_enlarged_then_shrunk(usable: RectView, window: RectView)
    requires
        window.valid(),
        window.width > 0,
        grows_freely(usable, window),
    ensures
        shrunk(enlarged(usable, window)) == window,
{
    let w = window.width;
    let h = window.height;
    let q = height_step(window);
    let grown = enlarged(usable, window);
    lemma_height_step_bounds(window);
    lemma_fundamental_div_mod(h * 2400, w);
    let r = (h * 2400) % w;
    assert((h + q) * 2400 == (w + 2400) * q + r) by (nonlinear_arith)
        requires
            h * 2400 == w * q + r,
    ;
    lemma_fundamental_div_mod_converse((h + q) * 2400, w + 2400, q, r);
    assert(grown.width == w + 2400);
    assert(grown.height == h + q);
    assert(height_step(grown) == q);
}

/// `MakeLarger` followed at once by `MakeSmaller` leaves the window where it
/// was, where the first was held back nowhere.
pub proof fn lemma_make_larger_then_smaller(usable: RectView, window: RectView)
    requires
        window.valid(),
        window.width > 0,
        grows_freely(usable, window),
    ensures
        placement_of(Action::MakeLarger, usable, Some(window)) is Ok,
        ({
            let grown = placement_of(Action::MakeLarger, usable, Some(window))->Ok_0.target(
                window,
            );
            &&& placement_of(Action::MakeSmaller, usable, Some(grown)) is Ok
            &&& placement_of(Action::MakeSmaller, usable, Some(grown))->Ok_0.target(grown)
                == window
        }),
{
    lemma_enlarged_then_shrunk(usable, window);
}

/// A window that lies within the usable area still does after a move.
pub proof fn lemma_nudged_stays_inside(action: Action, usable: RectView, window: RectView)
    requires
        is_nudge(action),
        window.valid(),
        usable.x <= window.x,
        usable.y <= window.y,
        window.x + window.width <= usable.x + usable.width,
        window.y + window.height <= usable.y + usable.height,
    ensures
        usable.x <= nudged(action, usable, window).x,
        usable.y <= nudged(action, usable, window).y,
        nudged(action, usable, window).x + window.width <= usable.x + usable.width,
        nudged(action, usable, window).y + window.height <= usable.y + usable.height,
{
}


} // verus!
