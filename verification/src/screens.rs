//! Which display the focused window is on, the displays' usable areas in the
//! flipped convention, and cycling through the displays.

use crate::error::Error;
use crate::geometry::{
    frame_contains_point, Point, PointView, Rect, RectView, SCREEN_LIMIT, UNITS_PER_POINT,
};
use vstd::arithmetic::div_mod::{
    lemma_mod_add_multiples_vanish, lemma_mod_self_0, lemma_small_mod,
};
use vstd::prelude::*;

verus! {

/// One attached display as the platform enumerates it: its full frame and
/// the part of it that is free for windows, both in the unflipped convention.
/// The extents of the free part are whole points.
#[derive(Debug, Clone, Copy, PartialEq, Eq, Hash, Structural)]
pub struct Screen {
    pub frame: Rect,
    pub visible_frame: Rect,
}

impl Screen {
    pub open spec fn wf(&self) -> bool {
        self.frame.screen_wf() && self.visible_frame.screen_wf()
            && self.visible_frame@.whole_points()
    }

    /// Run-time test of [`Screen::wf`].
    pub fn is_wf(&self) -> (ok: bool)
        ensures
            ok == self.wf(),
    {
        self.frame.is_screen_wf() && self.visible_frame.is_screen_wf()
            && self.visible_frame.size.width % UNITS_PER_POINT == 0
            && self.visible_frame.size.height % UNITS_PER_POINT == 0
    }
}

pub open spec fn screens_wf(screens: Seq<Screen>) -> bool {
    forall|i: int| 0 <= i < screens.len() ==> #[trigger] screens[i].wf()
}

/// The height against which every rectangle is flipped: the full height of
/// the primary display, which is listed first.
pub open spec fn reference_height(screens: Seq<Screen>) -> int {
    screens[0].frame@.height
}

/// Full frame of display `i`, flipped.
pub open spec fn full_frame(screens: Seq<Screen>, i: int) -> RectView {
    screens[i].frame@.flipped(reference_height(screens))
}

/// Usable area of display `i`, flipped.
pub open spec fn usable_area(screens: Seq<Screen>, i: int) -> RectView {
    screens[i].visible_frame@.flipped(reference_height(screens))
}

/// The usable areas of all displays, flipped, in the order of enumeration.
pub open spec fn list_usable_areas(screens: Seq<Screen>) -> Seq<RectView> {
    Seq::new(screens.len(), |i: int| usable_area(screens, i))
}

/// Display `i` is the first whose full frame holds `origin`.
pub open spec fn is_active_screen(screens: Seq<Screen>, origin: PointView, i: int) -> bool {
    &&& 0 <= i < screens.len()
    &&& full_frame(screens, i).contains(origin)
    &&& forall|j: int| 0 <= j < i ==> !(#[trigger] full_frame(screens, j)).contains(origin)
}

/// The usable area of the display that the point `origin` is on.
pub open spec fn active_screen_usable_area(screens: Seq<Screen>, origin: PointView) -> Result<
    RectView,
    Error,
> {
    if screens.len() == 0 {
        Err(Error::NoDisplay)
    } else if exists|i: int| is_active_screen(screens, origin, i) {
        Ok(usable_area(screens, choose|i: int| is_active_screen(screens, origin, i)))
    } else {
        Err(Error::NotImplemented)
    }
}

/// The full height of the primary display, against which every rectangle
/// is flipped. Fails with `NoDisplay` where no display is attached.
pub fn main_screen_height(screens: &Vec<Screen>) -> (height: Result<i64, Error>)
    requires
        screens_wf(screens@),
    ensures
        match height {
            Ok(h) => screens.len() > 0 && h == reference_height(screens@) && 0 <= h <= 2
                * SCREEN_LIMIT,
            Err(e) => screens.len() == 0 && e == Error::NoDisplay,
        },
{
    if screens.len() == 0 {
        return Err(Error::NoDisplay);
    }
    assert(screens[0].wf());
    Ok(screens[0].frame.size.height)
}

/// Flipped usable area of every display, in the order given. No display
/// gives an empty list.
pub fn list_visible_frame_of_all_screens(screens: &Vec<Screen>) -> (frames: Vec<Rect>)
    requires
        screens_wf(screens@),
    ensures
        frames@.map_values(|r: Rect| r@) == list_usable_areas(screens@),
        forall|i: int| 0 <= i < frames.len() ==> (#[trigger] frames[i]).usable_wf(),
{
    let mut frames: Vec<Rect> = Vec::new();
    let main_screen_height = match main_screen_height(screens) {
        Ok(height) => height,
        Err(_) => {
            assert(frames@.map_values(|r: Rect| r@) =~= list_usable_areas(screens@));
            return frames;
        },
    };
    let mut i: usize = 0;
    while i < screens.len()
        invariant
            i <= screens.len(),
            screens_wf(screens@),
            main_screen_height == reference_height(screens@),
            0 <= main_screen_height <= 2 * SCREEN_LIMIT,
            frames.len() == i,
            forall|k: int| 0 <= k < i ==> (#[trigger] frames[k])@ == usable_area(screens@, k),
            forall|k: int| 0 <= k < i ==> (#[trigger] frames[k]).usable_wf(),
        decreases screens.len() - i,
    {
        assert(screens[i as int].wf());
        frames.push(screens[i].visible_frame.flipped(main_screen_height));
        i += 1;
    }
    assert(frames@.map_values(|r: Rect| r@) =~= list_usable_areas(screens@));
    frames
}

/// Flipped usable area of the display whose flipped full frame holds the
/// focused window's origin.
///
/// Fails with `NoDisplay` when no display is attached, and with
/// `NotImplemented` when the origin lies on none of them.
pub fn get_active_screen_visible_frame(screens: &Vec<Screen>, window_origin: Point) -> (frame:
    Result<Rect, Error>)
    requires
        screens_wf(screens@),
    ensures
        match frame {
            Ok(r) => Ok::<RectView, Error>(r@) == active_screen_usable_area(
                screens@,
                window_origin@,
            ) && r.usable_wf(),
            Err(e) => Err::<RectView, Error>(e) == active_screen_usable_area(
                screens@,
                window_origin@,
            ),
        },
{
    let main_screen_height = main_screen_height(screens)?;
    let mut i: usize = 0;
    while i < screens.len()
        invariant
            i <= screens.len(),
            screens_wf(screens@),
            main_screen_height == reference_height(screens@),
            0 <= main_screen_height <= 2 * SCREEN_LIMIT,
            forall|j: int| 0 <= j < i ==> !(#[trigger] full_frame(screens@, j)).contains(
                window_origin@,
            ),
        decreases screens.len() - i,
    {
        assert(screens[i as int].wf());
        let frame = screens[i].frame.flipped(main_screen_height);
        if frame_contains_point(&frame, &window_origin) {
            let visible_frame = screens[i].visible_frame.flipped(main_screen_height);
            proof {
                assert(is_active_screen(screens@, window_origin@, i as int));
                let c = choose|c: int| is_active_screen(screens@, window_origin@, c);
                assert(c == i) by {
                    if c < i {
                        assert(full_frame(screens@, c).contains(window_origin@));
                    } else if i < c {
                        assert(!full_frame(screens@, i as int).contains(window_origin@));
                    }
                }
            }
            return Ok(visible_frame);
        }
        i += 1;
    }
    proof {
        assert forall|c: int| !is_active_screen(screens@, window_origin@, c) by {
            if is_active_screen(screens@, window_origin@, c) {
                assert(!full_frame(screens@, c).contains(window_origin@));
            }
        }
    }
    Err(Error::NotImplemented)
}

/// The index that lies `step` places after `index` on a ring of `count`
/// places.
pub open spec fn cycled(index: int, step: int, count: int) -> int {
    (index + step) % count
}

/// The place of `current` in `all`: that of its first occurrence.
pub open spec fn display_index(current: Rect, all: Seq<Rect>) -> int {
    all.index_of_first(current)->Some_0
}

/// The display `step` places after `current` in `all`, going round at
/// either end. Without a display there is none; a single display is its own
/// neighbour.
pub open spec fn display_at_step(current: Rect, all: Seq<Rect>, step: int) -> Option<Rect> {
    if all.len() == 0 {
        None
    } else if all.len() == 1 {
        Some(current)
    } else {
        Some(all[cycled(display_index(current, all), step, all.len() as int)])
    }
}

/// The display that follows `current`.
pub open spec fn display_after(current: Rect, all: Seq<Rect>) -> Option<Rect> {
    display_at_step(current, all, 1)
}

/// The display that precedes `current`.
pub open spec fn display_before(current: Rect, all: Seq<Rect>) -> Option<Rect> {
    display_at_step(current, all, -1)
}

/// Where `current` first occurs in `all`.
fn position(current: Rect, all: &Vec<Rect>) -> (index: usize)
    requires
        all@.contains(current),
    ensures
        index < all.len(),
        index == display_index(current, all@),
{
    let mut i: usize = 0;
    while i < all.len()
        invariant
            i <= all.len(),
            all@.contains(current),
            forall|j: int| 0 <= j < i ==> all@[j] != current,
        decreases all.len() - i,
    {
        if all[i] == current {
            proof {
                all@.index_of_first_ensures(current);
            }
            return i;
        }
        i += 1;
    }
    proof {
        let k = choose|k: int| 0 <= k < all@.len() && all@[k] == current;
        assert(all@[k] != current);
    }
    0
}

/// The usable area of the display after that of `current`, the first
/// following the last.
///
/// `current` is one of `all`. `None` says that there is no display at all.
pub fn next_display(current: Rect, all: &Vec<Rect>) -> (next: Option<Rect>)
    requires
        all.len() >= 2 ==> all@.contains(current),
    ensures
        next == display_after(current, all@),
{
    let n = all.len();
    if n == 0 {
        return None;
    }
    if n == 1 {
        return Some(current);
    }
    let index = position(current, all);
    let new_index = if index + 1 == n {
        0
    } else {
        index + 1
    };
    proof {
        lemma_cycled_forth(index as int, n as int);
    }
    Some(all[new_index])
}

/// The usable area of the display before that of `current`, the last
/// preceding the first.
///
/// `current` is one of `all`. `None` says that there is no display at all.
pub fn previous_display(current: Rect, all: &Vec<Rect>) -> (previous: Option<Rect>)
    requires
        all.len() >= 2 ==> all@.contains(current),
    ensures
        previous == display_before(current, all@),
{
    let n = all.len();
    if n == 0 {
        return None;
    }
    if n == 1 {
        return Some(current);
    }
    let index = position(current, all);
    let new_index = if index == 0 {
        n - 1
    } else {
        index - 1
    };
    proof {
        lemma_cycled_back(index as int, n as int);
    }
    Some(all[new_index])
}

proof fn lemma_cycled_back(index: int, count: int)
    requires
        0 <= index < count,
    ensures
        cycled(index, -1, count) == if index == 0 {
            count - 1
        } else {
            index - 1
        },
{
    if index == 0 {
        lemma_mod_add_multiples_vanish(-1, count);
        lemma_small_mod((count - 1) as nat, count as nat);
    } else {
        lemma_small_mod((index - 1) as nat, count as nat);
    }
}

proof fn lemma_cycled_forth(index: int, count: int)
    requires
        0 <= index < count,
    ensures
        cycled(index, 1, count) == if index == count - 1 {
            0
        } else {
            index + 1
        },
{
    if index == count - 1 {
        lemma_mod_self_0(count);
    } else {
        lemma_small_mod((index + 1) as nat, count as nat);
    }
}

/// In a list that names no display twice, an entry's place is its index.
proof fn lemma_display_index(all: Seq<Rect>, i: int)
    requires
        0 <= i < all.len(),
        all.no_duplicates(),
    ensures
        all.contains(all[i]),
        display_index(all[i], all) == i,
{
    all.index_of_first_ensures(all[i]);
}

/// Going to the next display and then to the previous one leads back to
/// where one started, as long as no two displays have the same usable area.
/// With a single display, going to the next one stays on it.
pub proof fn lemma_next_then_previous(current: Rect, all: Seq<Rect>)
    requires
        all.len() >= 1,
        all.len() >= 2 ==> all.contains(current) && all.no_duplicates(),
    ensures
        all.len() == 1 ==> display_after(current, all) == Some(current),
        display_after(current, all) matches Some(next) && display_before(next, all) == Some(
            current,
        ),
{
    if all.len() >= 2 {
        let n = all.len() as int;
        all.index_of_first_ensures(current);
        let i = display_index(current, all);
        lemma_cycled_forth(i, n);
        let j = cycled(i, 1, n);
        lemma_display_index(all, j);
        lemma_cycled_back(j, n);
    }
}

/// The same the other way round: the previous display, then the next.
pub proof fn lemma_previous_then_next(current: Rect, all: Seq<Rect>)
    requires
        all.len() >= 1,
        all.len() >= 2 ==> all.contains(current) && all.no_duplicates(),
    ensures
        all.len() == 1 ==> display_before(current, all) == Some(current),
        display_before(current, all) matches Some(previous) && display_after(previous, all)
            == Some(current),
{
    if all.len() >= 2 {
        let n = all.len() as int;
        all.index_of_first_ensures(current);
        let i = display_index(current, all);
        lemma_cycled_back(i, n);
        let j = cycled(i, -1, n);
        lemma_display_index(all, j);
        lemma_cycled_forth(j, n);
    }
}

/// Cycling never leaves the list and never stops at an end: after the last
/// display comes the first, before the first the last.
pub proof fn lemma_cycling_wraps(all: Seq<Rect>)
    requires
        all.len() >= 2,
        all.no_duplicates(),
    ensures
        display_after(all.last(), all) == Some(all.first()),
        display_before(all.first(), all) == Some(all.last()),
{
    let n = all.len() as int;
    lemma_display_index(all, n - 1);
    lemma_display_index(all, 0);
    lemma_cycled_forth(n - 1, n);
    lemma_cycled_back(0, n);
}

} // verus!
