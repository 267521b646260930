//! The description of a screen's user interface: what is shown and what a
//! press of each button asks for. Drawing it is left to the host.

use vstd::prelude::*;
use crate::screens::Screen;

verus! {

/// What a press of a button asks for.
#[derive(Clone, Copy, PartialEq, Eq, Structural, Debug)]
pub enum ButtonAction {
    EnterTitle,
    EnterGameplay,
    EnterCredits,
    ExitApp,
}

/// One element of a screen's user interface.
#[derive(Clone, Copy, PartialEq, Eq, Debug)]
pub enum Widget {
    Header(&'static str),
    Label(&'static str),
    Button(&'static str, ButtonAction),
}

/// A user interface that lives as long as the screen `scope` is active.
#[derive(Clone, PartialEq, Eq, Debug)]
pub struct UiRoot {
    pub scope: Screen,
    pub children: Vec<Widget>,
}

/// The request to end the process, with its status.
#[derive(Clone, Copy, PartialEq, Eq, Structural, Debug)]
pub enum AppExit {
    Success,
    Error,
}

} // verus!
