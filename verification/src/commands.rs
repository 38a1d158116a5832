//! The commands of the command line, one for each action.

use crate::actions::Action;
use vstd::prelude::*;
use vstd::std_specs::convert::FromSpec;

verus! {

#[derive(Debug, Clone, Copy, PartialEq, Eq, Hash, Structural)]
pub enum Command {
    TopHalf,
    BottomHalf,
    LeftHalf,
    RightHalf,
    CenterHalf,
    TopLeftQuarter,
    TopRightQuarter,
    BottomLeftQuarter,
    BottomRightQuarter,
    TopLeftSixth,
    TopCenterSixth,
    TopRightSixth,
    BottomLeftSixth,
    BottomCenterSixth,
    BottomRightSixth,
    TopThird,
    MiddleThird,
    BottomThird,
    Center,
    FirstFourth,
    SecondFourth,
    ThirdFourth,
    LastFourth,
    FirstThird,
    CenterThird,
    LastThird,
    FirstTwoThirds,
    CenterTwoThirds,
    LastTwoThirds,
    FirstThreeFourths,
    CenterThreeFourths,
    LastThreeFourths,
    TopThreeFourths,
    BottomThreeFourths,
    TopTwoThirds,
    BottomTwoThirds,
    TopCenterTwoThirds,
    TopFirstFourth,
    TopSecondFourth,
    TopThirdFourth,
    TopLastFourth,
    MakeLarger,
    MakeSmaller,
    AlmostMaximize,
    Maximize,
    MaximizeWidth,
    MaximizeHeight,
    MoveUp,
    MoveDown,
    MoveLeft,
    MoveRight,
    NextDesktop,
    PreviousDesktop,
    NextDisplay,
    PreviousDisplay,
    Restore,
    ToggleFullscreen,
}

impl From<Command> for Action {
    /// The action that carries the command's name.
    fn from(command: Command) -> (action: Action) {
        match command {
            Command::TopHalf => Action::TopHalf,
            Command::BottomHalf => Action::BottomHalf,
            Command::LeftHalf => Action::LeftHalf,
            Command::RightHalf => Action::RightHalf,
            Command::CenterHalf => Action::CenterHalf,
            Command::TopLeftQuarter => Action::TopLeftQuarter,
            Command::TopRightQuarter => Action::TopRightQuarter,
            Command::BottomLeftQuarter => Action::BottomLeftQuarter,
            Command::BottomRightQuarter => Action::BottomRightQuarter,
            Command::TopLeftSixth => Action::TopLeftSixth,
            Command::TopCenterSixth => Action::TopCenterSixth,
            Command::TopRightSixth => Action::TopRightSixth,
            Command::BottomLeftSixth => Action::BottomLeftSixth,
            Command::BottomCenterSixth => Action::BottomCenterSixth,
            Command::BottomRightSixth => Action::BottomRightSixth,
            Command::TopThird => Action::TopThird,
            Command::MiddleThird => Action::MiddleThird,
            Command::BottomThird => Action::BottomThird,
            Command::Center => Action::Center,
            Command::FirstFourth => Action::FirstFourth,
            Command::SecondFourth => Action::SecondFourth,
            Command::ThirdFourth => Action::ThirdFourth,
            Command::LastFourth => Action::LastFourth,
            Command::FirstThird => Action::FirstThird,
            Command::CenterThird => Action::CenterThird,
            Command::LastThird => Action::LastThird,
            Command::FirstTwoThirds => Action::FirstTwoThirds,
            Command::CenterTwoThirds => Action::CenterTwoThirds,
            Command::LastTwoThirds => Action::LastTwoThirds,
            Command::FirstThreeFourths => Action::FirstThreeFourths,
            Command::CenterThreeFourths => Action::CenterThreeFourths,
            Command::LastThreeFourths => Action::LastThreeFourths,
            Command::TopThreeFourths => Action::TopThreeFourths,
            Command::BottomThreeFourths => Action::BottomThreeFourths,
            Command::TopTwoThirds => Action::TopTwoThirds,
            Command::BottomTwoThirds => Action::BottomTwoThirds,
            Command::TopCenterTwoThirds => Action::TopCenterTwoThirds,
            Command::TopFirstFourth => Action::TopFirstFourth,
            Command::TopSecondFourth => Action::TopSecondFourth,
            Command::TopThirdFourth => Action::TopThirdFourth,
            Command::TopLastFourth => Action::TopLastFourth,
            Command::MakeLarger => Action::MakeLarger,
            Command::MakeSmaller => Action::MakeSmaller,
            Command::AlmostMaximize => Action::AlmostMaximize,
            Command::Maximize => Action::Maximize,
            Command::MaximizeWidth => Action::MaximizeWidth,
            Command::MaximizeHeight => Action::MaximizeHeight,
            Command::MoveUp => Action::MoveUp,
            Command::MoveDown => Action::MoveDown,
            Command::MoveLeft => Action::MoveLeft,
            Command::MoveRight => Action::MoveRight,
            Command::NextDesktop => Action::NextDesktop,
            Command::PreviousDesktop => Action::PreviousDesktop,
            Command::NextDisplay => Action::NextDisplay,
            Command::PreviousDisplay => Action::PreviousDisplay,
            Command::Restore => Action::Restore,
            Command::ToggleFullscreen => Action::ToggleFullscreen,
        }
    }
}

impl vstd::std_specs::convert::FromSpecImpl<Command> for Action {
    open spec fn obeys_from_spec() -> bool {
        true
    }

    open spec fn from_spec(command: Command) -> Action {
        match command {
            Command::TopHalf => Action::TopHalf,
            Command::BottomHalf => Action::BottomHalf,
            Command::LeftHalf => Action::LeftHalf,
            Command::RightHalf => Action::RightHalf,
            Command::CenterHalf => Action::CenterHalf,
            Command::TopLeftQuarter => Action::TopLeftQuarter,
            Command::TopRightQuarter => Action::TopRightQuarter,
            Command::BottomLeftQuarter => Action::BottomLeftQuarter,
            Command::BottomRightQuarter => Action::BottomRightQuarter,
            Command::TopLeftSixth => Action::TopLeftSixth,
            Command::TopCenterSixth => Action::TopCenterSixth,
            Command::TopRightSixth => Action::TopRightSixth,
            Command::BottomLeftSixth => Action::BottomLeftSixth,
            Command::BottomCenterSixth => Action::BottomCenterSixth,
            Command::BottomRightSixth => Action::BottomRightSixth,
            Command::TopThird => Action::TopThird,
            Command::MiddleThird => Action::MiddleThird,
            Command::BottomThird => Action::BottomThird,
            Command::Center => Action::Center,
            Command::FirstFourth => Action::FirstFourth,
            Command::SecondFourth => Action::SecondFourth,
            Command::ThirdFourth => Action::ThirdFourth,
            Command::LastFourth => Action::LastFourth,
            Command::FirstThird => Action::FirstThird,
            Command::CenterThird => Action::CenterThird,
            Command::LastThird => Action::LastThird,
            Command::FirstTwoThirds => Action::FirstTwoThirds,
            Command::CenterTwoThirds => Action::CenterTwoThirds,
            Command::LastTwoThirds => Action::LastTwoThirds,
            Command::FirstThreeFourths => Action::FirstThreeFourths,
            Command::CenterThreeFourths => Action::CenterThreeFourths,
            Command::LastThreeFourths => Action::LastThreeFourths,
            Command::TopThreeFourths => Action::TopThreeFourths,
            Command::BottomThreeFourths => Action::BottomThreeFourths,
            Command::TopTwoThirds => Action::TopTwoThirds,
            Command::BottomTwoThirds => Action::BottomTwoThirds,
            Command::TopCenterTwoThirds => Action::TopCenterTwoThirds,
            Command::TopFirstFourth => Action::TopFirstFourth,
            Command::TopSecondFourth => Action::TopSecondFourth,
            Command::TopThirdFourth => Action::TopThirdFourth,
            Command::TopLastFourth => Action::TopLastFourth,
            Command::MakeLarger => Action::MakeLarger,
            Command::MakeSmaller => Action::MakeSmaller,
            Command::AlmostMaximize => Action::AlmostMaximize,
            Command::Maximize => Action::Maximize,
            Command::MaximizeWidth => Action::MaximizeWidth,
            Command::MaximizeHeight => Action::MaximizeHeight,
            Command::MoveUp => Action::MoveUp,
            Command::MoveDown => Action::MoveDown,
            Command::MoveLeft => Action::MoveLeft,
            Command::MoveRight => Action::MoveRight,
            Command::NextDesktop => Action::NextDesktop,
            Command::PreviousDesktop => Action::PreviousDesktop,
            Command::NextDisplay => Action::NextDisplay,
            Command::PreviousDisplay => Action::PreviousDisplay,
            Command::Restore => Action::Restore,
            Command::ToggleFullscreen => Action::ToggleFullscreen,
        }
    }
}

/// No two commands ask for the same action.
pub proof fn lemma_commands_are_distinct(a: Command, b: Command)
    requires
        Action::from_spec(a) == Action::from_spec(b),
    ensures
        a == b,
{
}

} // verus!
