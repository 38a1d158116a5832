use libwmgr::actions::{Action, Needs};
use libwmgr::apply_to_focused_window;
use libwmgr::commands::Command;
use libwmgr::error::Error;
use libwmgr::geometry::{Point, Rect, Size, UNITS_PER_POINT};
use libwmgr::sequencer::{PointerKind, SwitchStep};
use libwmgr::workspace::WorkspaceGroup;
use libwmgr::{Effect, Reading};

/// A rectangle given in units of the grid.
fn units(x: i64, y: i64, width: i64, height: i64) -> Rect {
    Rect { origin: Point { x, y }, size: Size { width, height } }
}

/// A rectangle given in points.
fn rect(x: i64, y: i64, width: i64, height: i64) -> Rect {
    let u = UNITS_PER_POINT;
    units(x * u, y * u, width * u, height * u)
}

/// A point given in points.
fn point(x: i64, y: i64) -> Point {
    Point { x: x * UNITS_PER_POINT, y: y * UNITS_PER_POINT }
}

fn usable() -> Rect {
    rect(0, 0, 1000, 800)
}

fn workspaces(active: i32) -> Reading {
    Reading::Workspaces {
        active,
        groups: WorkspaceGroup::new(vec![vec![8, 11, 12, 13, 24], vec![519, 77, 15, 249, 414]])
            .unwrap(),
    }
}

fn steps(slot: u16) -> Vec<SwitchStep> {
    vec![
        SwitchStep::LocateAnchor,
        SwitchStep::Pointer(PointerKind::Move),
        SwitchStep::Pointer(PointerKind::ButtonDown),
        SwitchStep::Pointer(PointerKind::Drag),
        SwitchStep::HotKey(slot),
        SwitchStep::Pointer(PointerKind::ButtonUp),
    ]
}

#[test]
fn what_each_action_needs() {
    assert_eq!(Action::LeftHalf.needs(), Needs::Nothing);
    assert_eq!(Action::Maximize.needs(), Needs::Nothing);
    assert_eq!(Action::Restore.needs(), Needs::Nothing);
    assert_eq!(Action::ToggleFullscreen.needs(), Needs::Fullscreen);
    for a in [
        Action::Center,
        Action::MakeLarger,
        Action::MakeSmaller,
        Action::MaximizeWidth,
        Action::MaximizeHeight,
        Action::MoveUp,
        Action::MoveDown,
        Action::MoveLeft,
        Action::MoveRight,
    ] {
        assert_eq!(a.needs(), Needs::Window);
    }
    assert_eq!(Action::NextDisplay.needs(), Needs::Screens);
    assert_eq!(Action::PreviousDisplay.needs(), Needs::Screens);
    assert_eq!(Action::NextDesktop.needs(), Needs::Workspaces);
    assert_eq!(Action::PreviousDesktop.needs(), Needs::Workspaces);
}

#[test]
fn a_tile_sets_the_frame() {
    assert_eq!(
        apply_to_focused_window(Action::TopLeftQuarter, usable(), &Reading::Nothing),
        Ok(Effect::SetFrame(rect(0, 0, 500, 400)))
    );
    assert_eq!(
        apply_to_focused_window(Action::BottomRightSixth, usable(), &Reading::Nothing),
        Ok(Effect::SetFrame(units(80_000, 48_000, 40_000, 48_000)))
    );
}

#[test]
fn centering_moves_the_window() {
    assert_eq!(
        apply_to_focused_window(Action::Center, usable(), &Reading::Window(rect(5, 5, 300, 200))),
        Ok(Effect::MoveTo(point(350, 300)))
    );
}

#[test]
fn a_directional_move_moves_the_window() {
    let window = Reading::Window(rect(990, 0, 50, 50));
    assert_eq!(
        apply_to_focused_window(Action::MoveRight, usable(), &window),
        Ok(Effect::MoveTo(point(950, 0)))
    );
    assert_eq!(
        apply_to_focused_window(Action::MoveDown, usable(), &window),
        Ok(Effect::MoveTo(point(990, 10)))
    );
    assert_eq!(
        apply_to_focused_window(Action::MoveUp, usable(), &window),
        Ok(Effect::MoveTo(point(990, 0)))
    );
    assert_eq!(
        apply_to_focused_window(Action::MoveLeft, usable(), &window),
        Ok(Effect::MoveTo(point(980, 0)))
    );
}

#[test]
fn resizing_sets_the_frame() {
    let window = Reading::Window(rect(400, 300, 200, 100));
    assert_eq!(
        apply_to_focused_window(Action::MakeLarger, usable(), &window),
        Ok(Effect::SetFrame(rect(390, 295, 220, 110)))
    );
    assert_eq!(
        apply_to_focused_window(Action::MakeSmaller, usable(), &window),
        Ok(Effect::SetFrame(rect(410, 305, 180, 90)))
    );
    assert_eq!(
        apply_to_focused_window(Action::MaximizeWidth, usable(), &window),
        Ok(Effect::SetFrame(rect(0, 300, 1000, 100)))
    );
    assert_eq!(
        apply_to_focused_window(Action::MaximizeHeight, usable(), &window),
        Ok(Effect::SetFrame(rect(400, 0, 200, 800)))
    );
}

#[test]
fn a_window_as_large_as_the_screen_is_still_set() {
    let window = Reading::Window(usable());
    assert_eq!(
        apply_to_focused_window(Action::MakeLarger, usable(), &window),
        Ok(Effect::SetFrame(usable()))
    );
}

#[test]
fn center_third_sets_exact_thirds() {
    match apply_to_focused_window(Action::CenterThird, usable(), &Reading::Nothing) {
        Ok(Effect::SetFrame(f)) => {
            assert_eq!(f.origin.x * 3, 1000 * UNITS_PER_POINT);
            assert_eq!(f.size.width * 3, 1000 * UNITS_PER_POINT);
            assert_eq!(f.origin.y, 0);
            assert_eq!(f.size.height, 800 * UNITS_PER_POINT);
            assert_eq!(f.origin.x as f64 / UNITS_PER_POINT as f64, 1000.0 / 3.0);
        }
        other => panic!("{:?}", other),
    }
}

#[test]
fn make_larger_stays_within_the_usable_area() {
    assert_eq!(
        apply_to_focused_window(
            Action::MakeLarger,
            usable(),
            &Reading::Window(rect(900, 0, 100, 100))
        ),
        Ok(Effect::SetFrame(rect(890, 0, 110, 110)))
    );
}

#[test]
fn make_smaller_of_a_small_window_gives_no_negative_extent() {
    assert_eq!(
        apply_to_focused_window(
            Action::MakeSmaller,
            usable(),
            &Reading::Window(rect(100, 100, 10, 10))
        ),
        Ok(Effect::SetFrame(rect(105, 105, 0, 0)))
    );
}

#[test]
fn restore_fails() {
    assert_eq!(
        apply_to_focused_window(Action::Restore, usable(), &Reading::Nothing),
        Err(Error::NotImplemented)
    );
}

#[test]
fn fullscreen_is_toggled() {
    assert_eq!(
        apply_to_focused_window(Action::ToggleFullscreen, usable(), &Reading::Fullscreen(false)),
        Ok(Effect::SetFullscreen(true))
    );
    assert_eq!(
        apply_to_focused_window(Action::ToggleFullscreen, usable(), &Reading::Fullscreen(true)),
        Ok(Effect::SetFullscreen(false))
    );
}

#[test]
fn next_display_without_displays_fails() {
    assert_eq!(
        apply_to_focused_window(Action::NextDisplay, usable(), &Reading::Screens(vec![])),
        Err(Error::NoDisplay)
    );
    assert_eq!(
        apply_to_focused_window(Action::PreviousDisplay, usable(), &Reading::Screens(vec![])),
        Err(Error::NoDisplay)
    );
}

#[test]
fn next_display_with_one_display_does_nothing() {
    let all = Reading::Screens(vec![usable()]);
    assert_eq!(apply_to_focused_window(Action::NextDisplay, usable(), &all), Ok(Effect::Nothing));
    assert_eq!(apply_to_focused_window(Action::PreviousDisplay, usable(), &all), Ok(Effect::Nothing));
}

#[test]
fn next_display_takes_the_usable_area_of_the_neighbour() {
    let b = rect(1000, -100, 1280, 999);
    let c = rect(-800, 0, 800, 600);
    let all = Reading::Screens(vec![usable(), b, c]);
    assert_eq!(apply_to_focused_window(Action::NextDisplay, usable(), &all), Ok(Effect::SetFrame(b)));
    assert_eq!(apply_to_focused_window(Action::PreviousDisplay, usable(), &all), Ok(Effect::SetFrame(c)));
    assert_eq!(apply_to_focused_window(Action::NextDisplay, c, &all), Ok(Effect::SetFrame(usable())));
    assert_eq!(apply_to_focused_window(Action::PreviousDisplay, b, &all), Ok(Effect::SetFrame(usable())));
}

#[test]
fn next_desktop_switches_within_the_display() {
    assert_eq!(
        apply_to_focused_window(Action::NextDesktop, usable(), &workspaces(11)),
        Ok(Effect::SwitchWorkspace(steps(120)))
    );
    assert_eq!(
        apply_to_focused_window(Action::PreviousDesktop, usable(), &workspaces(11)),
        Ok(Effect::SwitchWorkspace(steps(118)))
    );
    assert_eq!(
        apply_to_focused_window(Action::NextDesktop, usable(), &workspaces(519)),
        Ok(Effect::SwitchWorkspace(steps(124)))
    );
}

#[test]
fn next_desktop_at_the_end_of_a_display_does_nothing() {
    assert_eq!(
        apply_to_focused_window(Action::NextDesktop, usable(), &workspaces(24)),
        Ok(Effect::Nothing)
    );
    assert_eq!(
        apply_to_focused_window(Action::NextDesktop, usable(), &workspaces(414)),
        Ok(Effect::Nothing)
    );
    assert_eq!(
        apply_to_focused_window(Action::PreviousDesktop, usable(), &workspaces(8)),
        Ok(Effect::Nothing)
    );
    assert_eq!(
        apply_to_focused_window(Action::PreviousDesktop, usable(), &workspaces(519)),
        Ok(Effect::Nothing)
    );
}

#[test]
fn next_desktop_beyond_the_sixteenth_fails() {
    let many: Vec<i32> = (100..120).collect();
    let reading = |active: i32| Reading::Workspaces {
        active,
        groups: WorkspaceGroup::new(vec![many.clone()]).unwrap(),
    };
    assert_eq!(
        apply_to_focused_window(Action::NextDesktop, usable(), &reading(114)),
        Ok(Effect::SwitchWorkspace(steps(133)))
    );
    assert_eq!(
        apply_to_focused_window(Action::NextDesktop, usable(), &reading(115)),
        Err(Error::TooManyWorkspaces)
    );
    assert_eq!(
        apply_to_focused_window(Action::PreviousDesktop, usable(), &reading(117)),
        Err(Error::TooManyWorkspaces)
    );
    assert_eq!(
        apply_to_focused_window(Action::PreviousDesktop, usable(), &reading(116)),
        Ok(Effect::SwitchWorkspace(steps(133)))
    );
}

#[test]
fn commands_name_the_actions() {
    assert_eq!(Action::from(Command::TopHalf), Action::TopHalf);
    assert_eq!(Action::from(Command::BottomRightSixth), Action::BottomRightSixth);
    assert_eq!(Action::from(Command::CenterThreeFourths), Action::CenterThreeFourths);
    assert_eq!(Action::from(Command::MakeSmaller), Action::MakeSmaller);
    assert_eq!(Action::from(Command::PreviousDisplay), Action::PreviousDisplay);
    assert_eq!(Action::from(Command::Restore), Action::Restore);
    assert_eq!(Action::from(Command::ToggleFullscreen), Action::ToggleFullscreen);
    let action: Action = Command::NextDesktop.into();
    assert_eq!(action, Action::NextDesktop);
}
