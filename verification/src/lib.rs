//! Window placement and multi-display / workspace navigation engine.
//!
//! The library is pure: it turns a symbolic [`actions::Action`] and a
//! description of the desktop (display rectangles, the focused window's frame,
//! the workspace layout) into the frame, move or input sequence that carries
//! the action out. Reading the desktop and applying the outcome is left to the
//! caller.
//!
//! All geometry is on an integer grid whose unit is the 120th part of a
//! point, in the flipped convention (origin at the top-left corner, `y`
//! growing downward) unless a type says otherwise. The usable area of a
//! display measures whole points, of which every fraction of the placement
//! table is a whole number of units.

pub mod actions;
pub mod commands;
pub mod error;
pub mod geometry;
pub mod placement;
pub mod screens;
pub mod sequencer;
pub mod workspace;

use crate::actions::{is_nudge, needs, Action, Needs};
use crate::error::Error;
use crate::geometry::{Point, PointView, Rect, RectView};
use crate::placement::{
    is_tile, place, placement_of, representable, tile_of, PlacementResult, PlacementView,
};
use crate::screens::{display_at_step, next_display, previous_display};
use crate::sequencer::{move_frontmost_window_to_workspace, switch_steps, SwitchStep, MAX_WORKSPACES};
use crate::workspace::{
    get_next_workspace_logical_id, get_previous_workspace_logical_id, has_workspace,
    next_logical_id, previous_logical_id, WorkspaceGroup, WorkspaceId,
};
use vstd::prelude::*;

verus! {

/// What the caller has read of the desktop for an action, as
/// [`Action::needs`] asks.
pub enum Reading {
    /// The action needs nothing more.
    Nothing,
    /// The focused window's frame.
    Window(Rect),
    /// The usable areas of all displays, flipped, in the order of
    /// enumeration.
    Screens(Vec<Rect>),
    /// The layout of the workspaces and the workspace that is active.
    Workspaces { active: WorkspaceId, groups: WorkspaceGroup },
    /// Whether the focused window is in fullscreen mode.
    Fullscreen(bool),
}

/// What the caller has to do to the focused window.
#[derive(Debug, PartialEq, Eq)]
pub enum Effect {
    /// Give it this frame.
    SetFrame(Rect),
    /// Move its origin here.
    MoveTo(Point),
    /// Carry out these steps, which take it to another workspace.
    SwitchWorkspace(Vec<SwitchStep>),
    /// Put it into fullscreen mode, or take it out of it.
    SetFullscreen(bool),
    /// Leave it as it is.
    Nothing,
}

/// An effect with its geometry over the integers.
pub enum EffectView {
    SetFrame(RectView),
    MoveTo(PointView),
    SwitchWorkspace(Seq<SwitchStep>),
    SetFullscreen(bool),
    Nothing,
}

impl View for Effect {
    type V = EffectView;

    open spec fn view(&self) -> EffectView {
        match *self {
            Effect::SetFrame(r) => EffectView::SetFrame(r@),
            Effect::MoveTo(p) => EffectView::MoveTo(p@),
            Effect::SwitchWorkspace(steps) => EffectView::SwitchWorkspace(steps@),
            Effect::SetFullscreen(on) => EffectView::SetFullscreen(on),
            Effect::Nothing => EffectView::Nothing,
        }
    }
}

impl Reading {
    /// The reading is the one that `action` needs, and the engine accepts
    /// it: the window's frame is well-formed and, for the two actions that
    /// keep its aspect ratio, not of width zero; the active screen is among
    /// the displays where there are several; the active workspace is in the
    /// layout.
    pub open spec fn answers(&self, action: Action, usable: Rect) -> bool {
        match needs(action) {
            Needs::Nothing => *self is Nothing,
            Needs::Window => *self matches Reading::Window(w) && w.wf() && ((action is MakeLarger
                || action is MakeSmaller) ==> w.size.width > 0),
            Needs::Screens => *self matches Reading::Screens(all) && (all.len() >= 2
                ==> all@.contains(usable)),
            Needs::Workspaces => *self matches Reading::Workspaces { active, groups }
                && has_workspace(groups@, active),
            Needs::Fullscreen => *self is Fullscreen,
        }
    }
}

/// What a placement asks to be done to a window at `window`: a directional
/// move and a centering move the origin, everything else sets the frame.
pub open spec fn effect_of_placement(
    action: Action,
    placement: PlacementView,
    window: RectView,
) -> EffectView {
    match placement {
        PlacementView::Frame(r) => EffectView::SetFrame(r),
        PlacementView::OriginOnly(p) => EffectView::MoveTo(p),
        PlacementView::RelativeDelta(d) => {
            let target = d.applied_to(window);
            if is_nudge(action) {
                EffectView::MoveTo(PointView { x: target.x, y: target.y })
            } else {
                EffectView::SetFrame(target)
            }
        },
    }
}

/// What moving to the workspace with the logical number `space` asks to be
/// done; `None` for the number says that there is no such workspace, and
/// nothing is done.
pub open spec fn effect_of_switch(space: Option<int>) -> Result<EffectView, Error> {
    match space {
        None => Ok(EffectView::Nothing),
        Some(k) => if k > MAX_WORKSPACES {
            Err(Error::TooManyWorkspaces)
        } else {
            Ok(EffectView::SwitchWorkspace(switch_steps(k)))
        },
    }
}

/// What moving to the display `step` places further asks to be done.
/// Without a display it fails; with one display nothing is done.
pub open spec fn effect_of_cycling(usable: Rect, all: Seq<Rect>, step: int) -> Result<
    EffectView,
    Error,
> {
    match display_at_step(usable, all, step) {
        None => Err(Error::NoDisplay),
        Some(frame) => if all.len() == 1 {
            Ok(EffectView::Nothing)
        } else {
            Ok(EffectView::SetFrame(frame@))
        },
    }
}

/// What `action` asks to be done to the focused window, on the screen with
/// the usable area `usable`.
pub open spec fn effect_of(action: Action, usable: Rect, reading: Reading) -> Result<
    EffectView,
    Error,
> {
    match reading {
        Reading::Workspaces { active, groups } => effect_of_switch(
            if action is NextDesktop {
                next_logical_id(active, groups@)
            } else {
                previous_logical_id(active, groups@)
            },
        ),
        Reading::Screens(all) => effect_of_cycling(
            usable,
            all@,
            if action is NextDisplay {
                1
            } else {
                -1
            },
        ),
        Reading::Window(w) => match placement_of(action, usable@, Some(w@)) {
            Ok(p) => Ok(effect_of_placement(action, p, w@)),
            Err(e) => Err(e),
        },
        Reading::Nothing => match placement_of(action, usable@, None) {
            Ok(p) => Ok(effect_of_placement(action, p, usable@)),
            Err(e) => Err(e),
        },
        Reading::Fullscreen(on) => Ok(EffectView::SetFullscreen(!on)),
    }
}

pub open spec fn effect_view(result: Result<Effect, Error>) -> Result<EffectView, Error> {
    match result {
        Ok(effect) => Ok(effect@),
        Err(e) => Err(e),
    }
}

/// What a placement asks to be done to a window at `window`.
fn effect_for(action: Action, placement: PlacementResult, window: &Rect) -> (effect: Effect)
    requires
        representable(placement@.target(window@)),
    ensures
        effect@ == effect_of_placement(action, placement@, window@),
{
    match placement {
        PlacementResult::Frame(r) => Effect::SetFrame(r),
        PlacementResult::OriginOnly(p) => Effect::MoveTo(p),
        PlacementResult::RelativeDelta(_) => {
            let target = placement.target(window);
            match action {
                Action::MoveUp | Action::MoveDown | Action::MoveLeft | Action::MoveRight => {
                    Effect::MoveTo(target.origin)
                },
                _ => Effect::SetFrame(target),
            }
        },
    }
}

/// Decides what `action` does to the focused window.
///
/// `usable` is the usable area of the screen that the window is on, as
/// [`screens::get_active_screen_visible_frame`] gives it, and `reading` is
/// what [`Action::needs`] asks for. A tiling action sets exactly its
/// fraction of the usable area, as [`placement::place`] states.
///
/// Fails with `NotImplemented` for `Restore`, with `NoDisplay` where a move
/// between displays finds no display, and with `TooManyWorkspaces` where a
/// move between desktops leads beyond the sixteenth. `ToggleFullscreen`
/// sets the opposite of the mode that was read.
pub fn apply_to_focused_window(action: Action, usable: Rect, reading: &Reading) -> (result: Result<
    Effect,
    Error,
>)
    requires
        usable.usable_wf(),
        reading.answers(action, usable),
    ensures
        effect_view(result) == effect_of(action, usable, *reading),
        tile_of(action) matches Some(t) ==> result matches Ok(Effect::SetFrame(frame)) && is_tile(
            frame@,
            t,
            usable@,
        ),
{
    match reading {
        Reading::Workspaces { active, groups } => {
            let space = if let Action::NextDesktop = action {
                get_next_workspace_logical_id(*active, groups)
            } else {
                get_previous_workspace_logical_id(*active, groups)
            };
            match space {
                None => Ok(Effect::Nothing),
                Some(k) => match move_frontmost_window_to_workspace(k) {
                    Ok(steps) => Ok(Effect::SwitchWorkspace(steps)),
                    Err(e) => Err(e),
                },
            }
        },
        Reading::Screens(all) => {
            let frame = if let Action::NextDisplay = action {
                next_display(usable, all)
            } else {
                previous_display(usable, all)
            };
            match frame {
                None => Err(Error::NoDisplay),
                Some(frame) => if all.len() == 1 {
                    Ok(Effect::Nothing)
                } else {
                    Ok(Effect::SetFrame(frame))
                },
            }
        },
        Reading::Window(w) => {
            let placement = place(action, usable, Some(*w))?;
            Ok(effect_for(action, placement, w))
        },
        Reading::Nothing => {
            let placement = place(action, usable, None)?;
            Ok(effect_for(action, placement, &usable))
        },
        Reading::Fullscreen(on) => Ok(Effect::SetFullscreen(!*on)),
    }
}

} // verus!
