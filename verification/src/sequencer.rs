//! Moving the focused window to another workspace: the window is taken hold
//! of near its close button, as if with the pointer, and the hot key of the
//! destination workspace is pressed while it is held.
//!
//! The sequence is a list of steps for the caller to carry out one after
//! the other; no step may be left out or moved.

use crate::error::Error;
use crate::geometry::{Point, PointView, Rect, RectView};
use vstd::prelude::*;

verus! {

/// Workspaces one to sixteen have a hot key.
pub const MAX_WORKSPACES: usize = 16;

/// The hot-key slot of workspace one; those of the others follow it.
pub const FIRST_HOT_KEY_SLOT: u16 = 118;

#[derive(Debug, Clone, Copy, PartialEq, Eq, Hash, Structural)]
pub enum PointerKind {
    Move,
    ButtonDown,
    Drag,
    ButtonUp,
}

/// One step of the sequence.
#[derive(Debug, Clone, Copy, PartialEq, Eq, Hash, Structural)]
pub enum SwitchStep {
    /// Read the frames of the window and of its close button; the pointer
    /// events that follow go to their [`drag_anchor`].
    LocateAnchor,
    /// Post the [`pointer_event`] of this kind.
    Pointer(PointerKind),
    /// Look up the hot key in this slot, enable the slot if it is disabled,
    /// and post the [`hot_key_events`].
    HotKey(u16),
}

/// A hot key as the platform has it configured.
#[derive(Debug, Clone, Copy, PartialEq, Eq, Hash, Structural)]
pub struct HotKey {
    pub key_code: u16,
    pub modifiers: u32,
    /// Whether its slot is switched on.
    pub enabled: bool,
}

/// A synthetic input event.
#[derive(Debug, Clone, Copy, PartialEq, Eq, Hash, Structural)]
pub enum InputEvent {
    Pointer { kind: PointerKind, at: Point },
    KeyDown { key_code: u16, modifiers: u32 },
    KeyUp { key_code: u16 },
}

/// What a step asks of the platform.
#[derive(Debug, Clone, Copy, PartialEq, Eq, Hash, Structural)]
pub enum InputCommand {
    /// Switch the hot-key slot on.
    EnableHotKey(u16),
    /// Put the event into the input queue.
    Post(InputEvent),
}

/// The hot-key slot of workspace `space`.
pub open spec fn hot_key_slot(space: int) -> int {
    FIRST_HOT_KEY_SLOT + space - 1
}

/// The steps that move the window to workspace `space`.
pub open spec fn switch_steps(space: int) -> Seq<SwitchStep> {
    seq![
        SwitchStep::LocateAnchor,
        SwitchStep::Pointer(PointerKind::Move),
        SwitchStep::Pointer(PointerKind::ButtonDown),
        SwitchStep::Pointer(PointerKind::Drag),
        SwitchStep::HotKey(hot_key_slot(space) as u16),
        SwitchStep::Pointer(PointerKind::ButtonUp),
    ]
}

/// Where the window is taken hold of: below the middle of the close
/// button's top edge, half as far from the window's top edge as the close
/// button is. Both halves are rounded down to the grid.
pub open spec fn anchor_of(window: RectView, close_button: RectView) -> PointView {
    PointView {
        x: close_button.x + close_button.width / 2,
        y: window.y + distance(window.y, close_button.y) / 2,
    }
}

pub open spec fn distance(a: int, b: int) -> int {
    if a >= b {
        a - b
    } else {
        b - a
    }
}

/// The press and the release of a hot key, after its slot was switched on
/// if it was not.
pub open spec fn hot_key_press(slot: u16, hot_key: HotKey) -> Seq<InputCommand> {
    let press = seq![
        InputCommand::Post(
            InputEvent::KeyDown { key_code: hot_key.key_code, modifiers: hot_key.modifiers },
        ),
        InputCommand::Post(InputEvent::KeyUp { key_code: hot_key.key_code }),
    ];
    if hot_key.enabled {
        press
    } else {
        seq![InputCommand::EnableHotKey(slot)] + press
    }
}

/// What a step asks of the platform, given where the window is held and
/// how the hot key of the destination is configured.
pub open spec fn step_commands(step: SwitchStep, anchor: Point, hot_key: HotKey) -> Seq<
    InputCommand,
> {
    match step {
        SwitchStep::LocateAnchor => seq![],
        SwitchStep::Pointer(kind) => seq![
            InputCommand::Post(InputEvent::Pointer { kind, at: anchor }),
        ],
        SwitchStep::HotKey(slot) => hot_key_press(slot, hot_key),
    }
}

/// The commands of all steps, in order.
pub open spec fn all_commands(steps: Seq<SwitchStep>, anchor: Point, hot_key: HotKey) -> Seq<
    InputCommand,
>
    decreases steps.len(),
{
    if steps.len() == 0 {
        seq![]
    } else {
        all_commands(steps.drop_last(), anchor, hot_key) + step_commands(
            steps.last(),
            anchor,
            hot_key,
        )
    }
}

/// The modifier flags that an event is posted with. The drag event keeps
/// those it was created with; every other pointer event and the release of
/// the key carry none; the press of the key carries the hot key's.
pub open spec fn event_flags(event: InputEvent) -> Option<u64> {
    match event {
        InputEvent::Pointer { kind: PointerKind::Drag, .. } => None,
        InputEvent::Pointer { .. } => Some(0),
        InputEvent::KeyDown { modifiers, .. } => Some(modifiers as u64),
        InputEvent::KeyUp { .. } => Some(0),
    }
}

/// The anchor is rounded down to the grid, by less than one unit on each
/// axis.
pub proof fn lemma_anchor_rounding(window: RectView, close_button: RectView)
    ensures
        0 <= close_button.width - 2 * (anchor_of(window, close_button).x - close_button.x) <= 1,
        0 <= distance(window.y, close_button.y) - 2 * (anchor_of(window, close_button).y
            - window.y) <= 1,
{
}

/// The steps that move the focused window to the workspace with the logical
/// number `space`, which is at least one.
///
/// Fails with `TooManyWorkspaces`, and gives no step at all, where `space`
/// is beyond the sixteen workspaces that have a hot key.
pub fn move_frontmost_window_to_workspace(space: usize) -> (steps: Result<Vec<SwitchStep>, Error>)
    requires
        space >= 1,
    ensures
        space > MAX_WORKSPACES <==> steps == Err::<Vec<SwitchStep>, Error>(
            Error::TooManyWorkspaces,
        ),
        space <= MAX_WORKSPACES <==> steps is Ok,
        steps matches Ok(s) ==> s@ == switch_steps(space as int),
{
    if space > MAX_WORKSPACES {
        return Err(Error::TooManyWorkspaces);
    }
    let hot_key: u16 = FIRST_HOT_KEY_SLOT + (space as u16) - 1;
    let mut steps: Vec<SwitchStep> = Vec::new();
    steps.push(SwitchStep::LocateAnchor);
    steps.push(SwitchStep::Pointer(PointerKind::Move));
    steps.push(SwitchStep::Pointer(PointerKind::ButtonDown));
    steps.push(SwitchStep::Pointer(PointerKind::Drag));
    steps.push(SwitchStep::HotKey(hot_key));
    steps.push(SwitchStep::Pointer(PointerKind::ButtonUp));
    assert(steps@ =~= switch_steps(space as int));
    Ok(steps)
}

/// The point at which the window is taken hold of.
pub fn drag_anchor(window_frame: &Rect, close_button_frame: &Rect) -> (anchor: Point)
    requires
        window_frame.wf(),
        close_button_frame.wf(),
    ensures
        anchor@ == anchor_of(window_frame@, close_button_frame@),
{
    let top = window_frame.origin.y;
    let button_top = close_button_frame.origin.y;
    let gap = if top >= button_top {
        top - button_top
    } else {
        button_top - top
    };
    Point { x: close_button_frame.origin.x + close_button_frame.size.width / 2, y: top + gap / 2 }
}

/// The pointer event of the given kind at the anchor.
pub fn pointer_event(kind: PointerKind, anchor: Point) -> (event: InputEvent)
    ensures
        event == (InputEvent::Pointer { kind, at: anchor }),
{
    InputEvent::Pointer { kind, at: anchor }
}

/// What pressing the hot key in `slot` asks of the platform: to switch the
/// slot on if it is off, then to post the press and the release of the key.
pub fn hot_key_commands(slot: u16, hot_key: HotKey) -> (commands: Vec<InputCommand>)
    ensures
        commands@ == hot_key_press(slot, hot_key),
{
    let mut commands: Vec<InputCommand> = Vec::new();
    if !hot_key.enabled {
        commands.push(InputCommand::EnableHotKey(slot));
    }
    commands.push(
        InputCommand::Post(
            InputEvent::KeyDown { key_code: hot_key.key_code, modifiers: hot_key.modifiers },
        ),
    );
    commands.push(InputCommand::Post(InputEvent::KeyUp { key_code: hot_key.key_code }));
    assert(commands@ =~= hot_key_press(slot, hot_key));
    commands
}

impl InputEvent {
    /// The modifier flags to post the event with; `None` leaves the event's
    /// own.
    pub fn flags(&self) -> (flags: Option<u64>)
        ensures
            flags == event_flags(*self),
    {
        match self {
            InputEvent::Pointer { kind: PointerKind::Drag, .. } => None,
            InputEvent::Pointer { .. } => Some(0),
            InputEvent::KeyDown { modifiers, .. } => Some(*modifiers as u64),
            InputEvent::KeyUp { .. } => Some(0),
        }
    }
}

/// Everything that carrying out `steps` asks of the platform, in order.
pub fn collect_commands(steps: &Vec<SwitchStep>, anchor: Point, hot_key: HotKey) -> (commands: Vec<
    InputCommand,
>)
    ensures
        commands@ == all_commands(steps@, anchor, hot_key),
{
    let mut commands: Vec<InputCommand> = Vec::new();
    let mut i: usize = 0;
    while i < steps.len()
        invariant
            i <= steps.len(),
            commands@ == all_commands(steps@.take(i as int), anchor, hot_key),
        decreases steps.len() - i,
    {
        proof {
            assert(steps@.take(i + 1).drop_last() =~= steps@.take(i as int));
            assert(steps@.take(i + 1).last() == steps@[i as int]);
        }
        match steps[i] {
            SwitchStep::LocateAnchor => {},
            SwitchStep::Pointer(kind) => {
                commands.push(InputCommand::Post(pointer_event(kind, anchor)));
            },
            SwitchStep::HotKey(slot) => {
                let mut press = hot_key_commands(slot, hot_key);
                commands.append(&mut press);
            },
        }
        assert(commands@ =~= all_commands(steps@.take(i + 1), anchor, hot_key));
        i += 1;
    }
    assert(steps@.take(i as int) =~= steps@);
    commands
}

/// Carried out, the steps post six events and no other: the pointer goes to
/// the anchor, the button goes down, a drag keeps hold of the window, the hot
/// key is pressed and released, and the button goes up, all pointer events
/// at the anchor. Before the key is pressed its slot is switched on, if it
/// is off.
pub proof fn lemma_switch_commands(space: int, anchor: Point, hot_key: HotKey)
    ensures
        all_commands(switch_steps(space), anchor, hot_key) == seq![
            InputCommand::Post(InputEvent::Pointer { kind: PointerKind::Move, at: anchor }),
            InputCommand::Post(InputEvent::Pointer { kind: PointerKind::ButtonDown, at: anchor }),
            InputCommand::Post(InputEvent::Pointer { kind: PointerKind::Drag, at: anchor }),
        ] + hot_key_press(hot_key_slot(space) as u16, hot_key) + seq![
            InputCommand::Post(InputEvent::Pointer { kind: PointerKind::ButtonUp, at: anchor }),
        ],
{
    let s = switch_steps(space);
    let s5 = s.drop_last();
    let s4 = s5.drop_last();
    let s3 = s4.drop_last();
    let s2 = s3.drop_last();
    let s1 = s2.drop_last();
    let s0 = s1.drop_last();
    let grab = seq![
        InputCommand::Post(InputEvent::Pointer { kind: PointerKind::Move, at: anchor }),
        InputCommand::Post(InputEvent::Pointer { kind: PointerKind::ButtonDown, at: anchor }),
        InputCommand::Post(InputEvent::Pointer { kind: PointerKind::Drag, at: anchor }),
    ];
    assert(s0.len() == 0);
    assert(all_commands(s0, anchor, hot_key) =~= seq![]);
    assert(all_commands(s1, anchor, hot_key) =~= seq![]);
    assert(all_commands(s2, anchor, hot_key) =~= grab.take(1));
    assert(all_commands(s3, anchor, hot_key) =~= grab.take(2));
    assert(all_commands(s4, anchor, hot_key) =~= grab);
    assert(all_commands(s5, anchor, hot_key) =~= grab + hot_key_press(
        hot_key_slot(space) as u16,
        hot_key,
    ));
}

} // verus!
