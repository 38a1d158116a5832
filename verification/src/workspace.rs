//! Logical workspace numbers: the position of a workspace in the layout of
//! virtual desktops, counted from one across the displays in their order and
//! on each display in its own order.

use vstd::prelude::*;
use vstd::seq_lib::lemma_flatten_concat;

verus! {

/// The platform's name for a workspace.
pub type WorkspaceId = i32;

/// The layout as the sequence of displays, each the sequence of its
/// workspaces.
pub open spec fn layout_of(displays: Seq<Vec<WorkspaceId>>) -> Seq<Seq<WorkspaceId>> {
    Seq::new(displays.len(), |d: int| displays[d]@)
}

/// How many workspaces the displays before display `d` hold.
pub open spec fn count_before(groups: Seq<Seq<WorkspaceId>>, d: int) -> int {
    groups.take(d).flatten().len() as int
}

/// The workspace `id` is known to the layout.
pub open spec fn has_workspace(groups: Seq<Seq<WorkspaceId>>, id: WorkspaceId) -> bool {
    groups.flatten().contains(id)
}

/// Place `i` of display `d` is where `id` is met first.
pub open spec fn is_location(groups: Seq<Seq<WorkspaceId>>, id: WorkspaceId, d: int, i: int) -> bool {
    &&& 0 <= d < groups.len()
    &&& 0 <= i < groups[d].len()
    &&& groups[d][i] == id
    &&& forall|e: int| 0 <= e < d ==> !(#[trigger] groups[e]).contains(id)
    &&& forall|j: int| 0 <= j < i ==> groups[d][j] != id
}

/// Where `active_id` is met first: the display, and the place on it.
pub open spec fn location_of(active_id: WorkspaceId, groups: Seq<Seq<WorkspaceId>>) -> (int, int) {
    choose|d: int, i: int| is_location(groups, active_id, d, i)
}

/// The display that `active_id` is on.
pub open spec fn display_of(active_id: WorkspaceId, groups: Seq<Seq<WorkspaceId>>) -> int {
    location_of(active_id, groups).0
}

/// The place of `active_id` on its display.
pub open spec fn place_on_display(active_id: WorkspaceId, groups: Seq<Seq<WorkspaceId>>) -> int {
    location_of(active_id, groups).1
}

/// The logical number of `active_id`: its position, counted from one, in
/// the layout flattened display by display.
pub open spec fn logical_id_of(active_id: WorkspaceId, groups: Seq<Seq<WorkspaceId>>) -> int {
    groups.flatten().index_of_first(active_id)->Some_0 + 1
}

/// The logical number of the workspace after `active_id` on the same
/// display; none after the last one of a display.
pub open spec fn next_logical_id(active_id: WorkspaceId, groups: Seq<Seq<WorkspaceId>>) -> Option<
    int,
> {
    if place_on_display(active_id, groups) == groups[display_of(active_id, groups)].len() - 1 {
        None
    } else {
        Some(logical_id_of(active_id, groups) + 1)
    }
}

/// The logical number of the workspace before `active_id` on the same
/// display; none before the first one of a display.
pub open spec fn previous_logical_id(
    active_id: WorkspaceId,
    groups: Seq<Seq<WorkspaceId>>,
) -> Option<int> {
    if place_on_display(active_id, groups) == 0 {
        None
    } else {
        Some(logical_id_of(active_id, groups) - 1)
    }
}

/// The layout falls into the displays before `d`, display `d`, and those
/// after it.
pub proof fn lemma_flatten_split(groups: Seq<Seq<WorkspaceId>>, d: int)
    requires
        0 <= d < groups.len(),
    ensures
        groups.flatten() =~= groups.take(d).flatten() + groups[d] + groups.skip(d + 1).flatten(),
        count_before(groups, d + 1) == count_before(groups, d) + groups[d].len(),
        count_before(groups, d + 1) <= groups.flatten().len(),
{
    let before = groups.take(d);
    let here = seq![groups[d]];
    let after = groups.skip(d + 1);
    assert(groups =~= before + here + after);
    lemma_flatten_concat(before + here, after);
    lemma_flatten_concat(before, here);
    here.lemma_flatten_one_element();
    assert(groups.take(d + 1) =~= before + here);
}

/// A workspace is known to the layout exactly if some display holds it.
pub proof fn lemma_has_workspace(groups: Seq<Seq<WorkspaceId>>, id: WorkspaceId)
    ensures
        has_workspace(groups, id) <==> exists|d: int|
            0 <= d < groups.len() && (#[trigger] groups[d]).contains(id),
    decreases groups.len(),
{
    if groups.len() == 0 {
        assert(groups.flatten() =~= Seq::empty());
    } else {
        let rest = groups.drop_first();
        lemma_has_workspace(rest, id);
        let flat = groups.flatten();
        assert(flat =~= groups.first() + rest.flatten());
        if has_workspace(groups, id) {
            let k = choose|k: int| 0 <= k < flat.len() && flat[k] == id;
            if k < groups.first().len() {
                assert(groups.first()[k] == id);
                assert(groups[0].contains(id));
            } else {
                assert(rest.flatten()[k - groups.first().len()] == id);
                let d = choose|d: int| 0 <= d < rest.len() && (#[trigger] rest[d]).contains(id);
                assert(groups[d + 1] == rest[d]);
            }
        }
        if exists|d: int| 0 <= d < groups.len() && (#[trigger] groups[d]).contains(id) {
            let d = choose|d: int| 0 <= d < groups.len() && (#[trigger] groups[d]).contains(id);
            if d == 0 {
                let j = choose|j: int| 0 <= j < groups[0].len() && groups[0][j] == id;
                assert(flat[j] == id);
            } else {
                assert(rest[d - 1] == groups[d]);
                assert(has_workspace(rest, id));
                let k = choose|k: int| 0 <= k < rest.flatten().len() && rest.flatten()[k] == id;
                assert(flat[groups.first().len() + k] == id);
            }
        }
    }
}

/// A known workspace is met first at exactly one place.
pub proof fn lemma_location_exists(groups: Seq<Seq<WorkspaceId>>, id: WorkspaceId)
    requires
        has_workspace(groups, id),
    ensures
        is_location(groups, id, display_of(id, groups), place_on_display(id, groups)),
{
    lemma_has_workspace(groups, id);
    let d0 = choose|d: int| 0 <= d < groups.len() && (#[trigger] groups[d]).contains(id);
    let d = first_display_with(groups, id, d0);
    groups[d].index_of_first_ensures(id);
    let i = groups[d].index_of_first(id)->Some_0;
    assert(is_location(groups, id, d, i));
}

/// The first display up to `bound` that holds `id`.
proof fn first_display_with(groups: Seq<Seq<WorkspaceId>>, id: WorkspaceId, bound: int) -> (d: int)
    requires
        0 <= bound < groups.len(),
        groups[bound].contains(id),
    ensures
        0 <= d <= bound,
        groups[d].contains(id),
        forall|e: int| 0 <= e < d ==> !(#[trigger] groups[e]).contains(id),
    decreases bound,
{
    if exists|e: int| 0 <= e < bound && (#[trigger] groups[e]).contains(id) {
        let e = choose|e: int| 0 <= e < bound && (#[trigger] groups[e]).contains(id);
        first_display_with(groups, id, e)
    } else {
        bound
    }
}

/// The place where a workspace is met first is the only such place.
pub proof fn lemma_location_unique(
    groups: Seq<Seq<WorkspaceId>>,
    id: WorkspaceId,
    d: int,
    i: int,
)
    requires
        is_location(groups, id, d, i),
    ensures
        has_workspace(groups, id),
        display_of(id, groups) == d,
        place_on_display(id, groups) == i,
{
    lemma_has_workspace(groups, id);
    assert(groups[d].contains(id));
    lemma_location_exists(groups, id);
    let d2 = display_of(id, groups);
    let i2 = place_on_display(id, groups);
    assert(groups[d2].contains(id));
    assert(d2 == d);
    assert(i2 == i);
}

/// The logical number of the workspace met first at place `i` of display
/// `d` is one more than the number of workspaces before that place.
pub proof fn lemma_logical_id_at(groups: Seq<Seq<WorkspaceId>>, id: WorkspaceId, d: int, i: int)
    requires
        is_location(groups, id, d, i),
    ensures
        logical_id_of(id, groups) == count_before(groups, d) + i + 1,
        logical_id_of(id, groups) <= groups.flatten().len(),
        i + 1 < groups[d].len() ==> logical_id_of(id, groups) + 1 <= groups.flatten().len(),
{
    let flat = groups.flatten();
    let before = groups.take(d).flatten();
    lemma_flatten_split(groups, d);
    let k = before.len() + i;
    assert(flat[k] == id);
    lemma_has_workspace(groups.take(d), id);
    assert forall|j: int| 0 <= j < k implies flat[j] != id by {
        if j < before.len() {
            if before[j] == id {
                assert(has_workspace(groups.take(d), id));
                let e = choose|e: int|
                    0 <= e < groups.take(d).len() && (#[trigger] groups.take(d)[e]).contains(id);
                assert(groups[e].contains(id));
            }
        } else {
            assert(flat[j] == groups[d][j - before.len()]);
        }
    }
    flat.index_of_first_ensures(id);
}

/// The neighbours of the workspace met first at place `i` of display `d`:
/// the numbers just after and just before its own, but none beyond either
/// end of the display.
pub proof fn lemma_neighbours_at(groups: Seq<Seq<WorkspaceId>>, id: WorkspaceId, d: int, i: int)
    requires
        is_location(groups, id, d, i),
    ensures
        next_logical_id(id, groups) == if i == groups[d].len() - 1 {
            None
        } else {
            Some(count_before(groups, d) + i + 2)
        },
        previous_logical_id(id, groups) == if i == 0 {
            None
        } else {
            Some(count_before(groups, d) + i)
        },
{
    lemma_location_unique(groups, id, d, i);
    lemma_logical_id_at(groups, id, d, i);
}

/// At the last workspace of a display there is no next one, whatever
/// displays follow.
pub proof fn lemma_no_next_after_last(groups: Seq<Seq<WorkspaceId>>, id: WorkspaceId, d: int)
    requires
        is_location(groups, id, d, groups[d].len() - 1),
    ensures
        next_logical_id(id, groups) is None,
{
    lemma_neighbours_at(groups, id, d, groups[d].len() - 1);
}

/// At the first workspace of a display there is no previous one, whatever
/// displays precede.
pub proof fn lemma_no_previous_before_first(
    groups: Seq<Seq<WorkspaceId>>,
    id: WorkspaceId,
    d: int,
)
    requires
        is_location(groups, id, d, 0),
    ensures
        previous_logical_id(id, groups) is None,
{
    lemma_neighbours_at(groups, id, d, 0);
}

/// The first workspace of a display is numbered one only if no display
/// before it holds a workspace: with `n > 0` workspaces before it, its number
/// is `n + 1`. The workspace is taken to be on no earlier display.
pub proof fn lemma_first_workspace_of_later_display(groups: Seq<Seq<WorkspaceId>>, d: int)
    requires
        0 <= d < groups.len(),
        groups[d].len() > 0,
        forall|e: int| 0 <= e < d ==> !(#[trigger] groups[e]).contains(groups[d][0]),
    ensures
        logical_id_of(groups[d][0], groups) == count_before(groups, d) + 1,
        count_before(groups, d) > 0 ==> logical_id_of(groups[d][0], groups) != 1,
        d == 0 ==> logical_id_of(groups[d][0], groups) == 1,
{
    assert(is_location(groups, groups[d][0], d, 0));
    lemma_logical_id_at(groups, groups[d][0], d, 0);
    if d == 0 {
        assert(groups.take(0) =~= Seq::empty());
    }
}

/// The layout of the virtual desktops: for each display, in the order of
/// the displays, its workspaces in their order. It holds no more workspaces
/// than can be counted.
pub struct WorkspaceGroup {
    displays: Vec<Vec<WorkspaceId>>,
}

impl View for WorkspaceGroup {
    type V = Seq<Seq<WorkspaceId>>;

    closed spec fn view(&self) -> Seq<Seq<WorkspaceId>> {
        layout_of(self.displays@)
    }
}

impl WorkspaceGroup {
    #[verifier::type_invariant]
    spec fn countable(&self) -> bool {
        layout_of(self.displays@).flatten().len() <= usize::MAX
    }

    /// The layout with the given displays, unless they hold more workspaces
    /// than can be counted.
    pub fn new(displays: Vec<Vec<WorkspaceId>>) -> (groups: Option<WorkspaceGroup>)
        ensures
            groups is Some <==> layout_of(displays@).flatten().len() <= usize::MAX,
            groups matches Some(g) ==> g@ == layout_of(displays@),
    {
        let ghost layout = layout_of(displays@);
        let mut total: usize = 0;
        let mut d: usize = 0;
        while d < displays.len()
            invariant
                d <= displays.len(),
                layout == layout_of(displays@),
                total == count_before(layout, d as int),
            decreases displays.len() - d,
        {
            proof {
                lemma_flatten_split(layout, d as int);
            }
            total = match total.checked_add(displays[d].len()) {
                Some(sum) => sum,
                None => {
                    return None;
                },
            };
            d += 1;
        }
        assert(layout.take(d as int) =~= layout);
        Some(WorkspaceGroup { displays })
    }

    /// How many workspaces display `d` holds.
    fn display_len(&self, d: usize) -> (len: usize)
        requires
            d < self@.len(),
        ensures
            len == self@[d as int].len(),
    {
        self.displays[d].len()
    }

    /// Whether the layout knows the workspace `id`.
    pub fn contains(&self, id: WorkspaceId) -> (known: bool)
        ensures
            known == has_workspace(self@, id),
    {
        self.locate(id).is_some()
    }

    /// The display and the place on it where `id` is met first, and the
    /// number of workspaces before that place.
    fn locate(&self, id: WorkspaceId) -> (found: Option<(usize, usize, usize)>)
        ensures
            found is Some <==> has_workspace(self@, id),
            found matches Some((d, i, before)) ==> is_location(self@, id, d as int, i as int)
                && before == count_before(self@, d as int) + i && before < usize::MAX && (i + 1
                < self@[d as int].len() ==> before + 1 < usize::MAX),
    {
        proof {
            use_type_invariant(self);
        }
        let ghost layout = self@;
        let mut before: usize = 0;
        let mut d: usize = 0;
        while d < self.displays.len()
            invariant
                d <= self.displays.len(),
                layout == layout_of(self.displays@),
                layout.flatten().len() <= usize::MAX,
                before == count_before(layout, d as int),
                forall|e: int| 0 <= e < d ==> !(#[trigger] layout[e]).contains(id),
            decreases self.displays.len() - d,
        {
            let display = &self.displays[d];
            proof {
                lemma_flatten_split(layout, d as int);
            }
            let ghost start = before;
            let mut i: usize = 0;
            while i < display.len()
                invariant
                    i <= display.len(),
                    d < self.displays.len(),
                    display@ == layout[d as int],
                    layout == layout_of(self.displays@),
                    layout.flatten().len() <= usize::MAX,
                    start == count_before(layout, d as int),
                    start + display.len() <= layout.flatten().len(),
                    before == start + i,
                    forall|e: int| 0 <= e < d ==> !(#[trigger] layout[e]).contains(id),
                    forall|j: int| 0 <= j < i ==> display@[j] != id,
                decreases display.len() - i,
            {
                if display[i] == id {
                    proof {
                        assert(is_location(layout, id, d as int, i as int));
                        lemma_location_unique(layout, id, d as int, i as int);
                    }
                    return Some((d, i, before));
                }
                before += 1;
                i += 1;
            }
            d += 1;
        }
        proof {
            lemma_has_workspace(layout, id);
        }
        None
    }
}

/// The logical number of the workspace `current`.
pub fn get_workspace_logical_id(current: WorkspaceId, groups: &WorkspaceGroup) -> (id: usize)
    requires
        has_workspace(groups@, current),
    ensures
        id == logical_id_of(current, groups@),
        id >= 1,
{
    match groups.locate(current) {
        Some((d, i, before)) => {
            proof {
                lemma_logical_id_at(groups@, current, d as int, i as int);
            }
            before + 1
        },
        None => 0,
    }
}

/// The logical number of the workspace that follows `current` on its
/// display. `None` says that `current` is the last workspace of its display:
/// the next display's first workspace does not follow it.
pub fn get_next_workspace_logical_id(current: WorkspaceId, groups: &WorkspaceGroup) -> (next:
    Option<usize>)
    requires
        has_workspace(groups@, current),
    ensures
        match next {
            Some(id) => next_logical_id(current, groups@) == Some(id as int) && id >= 2,
            None => next_logical_id(current, groups@) is None,
        },
{
    match groups.locate(current) {
        Some((d, i, before)) => {
            proof {
                lemma_logical_id_at(groups@, current, d as int, i as int);
                lemma_location_unique(groups@, current, d as int, i as int);
            }
            if i == groups.display_len(d) - 1 {
                None
            } else {
                Some(before + 2)
            }
        },
        None => None,
    }
}

/// The logical number of the workspace that precedes `current` on its
/// display. `None` says that `current` is the first workspace of its
/// display.
pub fn get_previous_workspace_logical_id(current: WorkspaceId, groups: &WorkspaceGroup) -> (previous:
    Option<usize>)
    requires
        has_workspace(groups@, current),
    ensures
        match previous {
            Some(id) => previous_logical_id(current, groups@) == Some(id as int) && id >= 1,
            None => previous_logical_id(current, groups@) is None,
        },
{
    match groups.locate(current) {
        Some((d, i, before)) => {
            proof {
                lemma_logical_id_at(groups@, current, d as int, i as int);
                lemma_location_unique(groups@, current, d as int, i as int);
            }
            if i == 0 {
                None
            } else {
                Some(before)
            }
        },
        None => None,
    }
}

} // verus!
