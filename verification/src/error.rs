//! What can go wrong while carrying out an action.

use vstd::prelude::*;

verus! {

#[derive(Debug, Clone, Copy, PartialEq, Eq, Hash, Structural)]
pub enum Error {
    /// No frontmost window was found, or an action that depends on the
    /// window's geometry was given none.
    NoFocusedWindow,
    /// A platform call returned a status other than success; the status is
    /// carried along.
    PlatformCallFailed(i32),
    /// Called off the thread that the platform's geometry calls demand.
    WrongExecutionContext,
    /// No display is attached where one is needed.
    NoDisplay,
    /// A workspace beyond the sixteen hot-key slots was asked for.
    TooManyWorkspaces,
    /// `Restore`, and a focused window whose origin lies on no known display.
    NotImplemented,
}

} // verus!
