//! The symbolic commands, and what each of them has to know about the
//! desktop.

use vstd::prelude::*;

verus! {

#[derive(Debug, Clone, Copy, PartialEq, Eq, Hash, Structural)]
pub enum Action {
    /// Move the window to fill the top half of the screen.
    TopHalf,
    /// Move the window to fill the bottom half of the screen.
    BottomHalf,
    /// Move the window to fill the left half of the screen.
    LeftHalf,
    /// Move the window to fill the right half of the screen.
    RightHalf,
    /// Move the window to fill the center half of the screen.
    CenterHalf,
    /// Resize the window to the top left quarter of the screen.
    TopLeftQuarter,
    /// Resize the window to the top right quarter of the screen.
    TopRightQuarter,
    /// Resize the window to the bottom left quarter of the screen.
    BottomLeftQuarter,
    /// Resize the window to the bottom right quarter of the screen.
    BottomRightQuarter,
    /// Resize the window to the top left sixth of the screen.
    TopLeftSixth,
    /// Resize the window to the top center sixth of the screen.
    TopCenterSixth,
    /// Resize the window to the top right sixth of the screen.
    TopRightSixth,
    /// Resize the window to the bottom left sixth of the screen.
    BottomLeftSixth,
    /// Resize the window to the bottom center sixth of the screen.
    BottomCenterSixth,
    /// Resize the window to the bottom right sixth of the screen.
    BottomRightSixth,
    /// Resize the window to the top third of the screen.
    TopThird,
    /// Resize the window to the middle third of the screen.
    MiddleThird,
    /// Resize the window to the bottom third of the screen.
    BottomThird,
    /// Center the window in the screen.
    Center,
    /// Resize the window to the first fourth of the screen.
    FirstFourth,
    /// Resize the window to the second fourth of the screen.
    SecondFourth,
    /// Resize the window to the third fourth of the screen.
    ThirdFourth,
    /// Resize the window to the last fourth of the screen.
    LastFourth,
    /// Resize the window to the first third of the screen.
    FirstThird,
    /// Resize the window to the center third of the screen.
    CenterThird,
    /// Resize the window to the last third of the screen.
    LastThird,
    /// Resize the window to the first two thirds of the screen.
    FirstTwoThirds,
    /// Resize the window to the center two thirds of the screen.
    CenterTwoThirds,
    /// Resize the window to the last two thirds of the screen.
    LastTwoThirds,
    /// Resize the window to the first three fourths of the screen.
    FirstThreeFourths,
    /// Resize the window to the center three fourths of the screen.
    CenterThreeFourths,
    /// Resize the window to the last three fourths of the screen.
    LastThreeFourths,
    /// Resize the window to the top three fourths of the screen.
    TopThreeFourths,
    /// Resize the window to the bottom three fourths of the screen.
    BottomThreeFourths,
    /// Resize the window to the top two thirds of the screen.
    TopTwoThirds,
    /// Resize the window to the bottom two thirds of the screen.
    BottomTwoThirds,
    /// Resize the window to the top center two thirds of the screen.
    TopCenterTwoThirds,
    /// Resize the window to the top first fourth of the screen.
    TopFirstFourth,
    /// Resize the window to the top second fourth of the screen.
    TopSecondFourth,
    /// Resize the window to the top third fourth of the screen.
    TopThirdFourth,
    /// Resize the window to the top last fourth of the screen.
    TopLastFourth,
    /// Enlarge the window until it reaches the screen size.
    MakeLarger,
    /// Shrink the window until it reaches its minimal size.
    MakeSmaller,
    /// Maximize the window to almost fit the screen.
    AlmostMaximize,
    /// Maximize the window to fit the screen.
    Maximize,
    /// Maximize the width of the window to fit the screen.
    MaximizeWidth,
    /// Maximize the height of the window to fit the screen.
    MaximizeHeight,
    /// Move the window towards the top edge of the screen.
    MoveUp,
    /// Move the window towards the bottom edge of the screen.
    MoveDown,
    /// Move the window towards the left edge of the screen.
    MoveLeft,
    /// Move the window towards the right edge of the screen.
    MoveRight,
    /// Move the window to the next desktop.
    NextDesktop,
    /// Move the window to the previous desktop.
    PreviousDesktop,
    /// Move the window to the next display.
    NextDisplay,
    /// Move the window to the previous display.
    PreviousDisplay,
    /// Restore the window to its last position.
    Restore,
    /// Toggle fullscreen mode.
    ToggleFullscreen,
}

/// What an action has to be told besides the usable area of the active
/// screen.
#[derive(Debug, Clone, Copy, PartialEq, Eq, Hash, Structural)]
pub enum Needs {
    /// Nothing more.
    Nothing,
    /// The focused window's frame.
    Window,
    /// The usable areas of all displays.
    Screens,
    /// The workspace layout and the active workspace.
    Workspaces,
    /// Whether the focused window is in fullscreen mode.
    Fullscreen,
}

/// The actions that move the window by a fixed step.
pub open spec fn is_nudge(action: Action) -> bool {
    action is MoveUp || action is MoveDown || action is MoveLeft || action is MoveRight
}

/// The actions that go by the focused window's current frame.
pub open spec fn uses_window(action: Action) -> bool {
    ||| is_nudge(action)
    ||| action is Center
    ||| action is MakeLarger
    ||| action is MakeSmaller
    ||| action is MaximizeWidth
    ||| action is MaximizeHeight
}

pub open spec fn needs(action: Action) -> Needs {
    if uses_window(action) {
        Needs::Window
    } else if action is NextDisplay || action is PreviousDisplay {
        Needs::Screens
    } else if action is NextDesktop || action is PreviousDesktop {
        Needs::Workspaces
    } else if action is ToggleFullscreen {
        Needs::Fullscreen
    } else {
        Needs::Nothing
    }
}

impl Action {
    /// What the caller has to read before the action can be carried out.
    pub fn needs(self) -> (n: Needs)
        ensures
            n == needs(self),
    {
        match self {
            Action::Center
            | Action::MakeLarger
            | Action::MakeSmaller
            | Action::MaximizeWidth
            | Action::MaximizeHeight
            | Action::MoveUp
            | Action::MoveDown
            | Action::MoveLeft
            | Action::MoveRight => Needs::Window,
            Action::NextDisplay | Action::PreviousDisplay => Needs::Screens,
            Action::NextDesktop | Action::PreviousDesktop => Needs::Workspaces,
            Action::ToggleFullscreen => Needs::Fullscreen,
            _ => Needs::Nothing,
        }
    }
}

} // verus!
