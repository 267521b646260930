//! The title screen that appears when the application starts.

use vstd::prelude::*;
use crate::hooks::{Hook, HookTable};
use crate::screens::{Screen, ScreenState};
use crate::theme::{AppExit, ButtonAction, UiRoot, Widget};

verus! {

/// Registers the title screen's hooks: its user interface when it is entered.
pub fn plugin(hooks: &mut HookTable)
    ensures
        final(hooks).entered() == old(hooks).entered().push(
            (Screen::Title, Hook::SpawnTitleScreen),
        ),
        final(hooks).exited() == old(hooks).exited(),
{
    hooks.on_enter(Screen::Title, Hook::SpawnTitleScreen);
}

/// The title screen's elements. The exit button is shown only where the
/// process can be ended from within.
pub open spec fn title_widgets(exit_available: bool) -> Seq<Widget> {
    let always = seq![
        Widget::Button("Play", ButtonAction::EnterGameplay),
        Widget::Button("Credits", ButtonAction::EnterCredits),
    ];
    if exit_available {
        always.push(Widget::Button("Exit", ButtonAction::ExitApp))
    } else {
        always
    }
}

/// The title screen's user interface, bound to the title screen.
pub fn spawn_title_screen(exit_available: bool) -> (root: UiRoot)
    ensures
        root.scope == Screen::Title,
        root.children@ == title_widgets(exit_available),
{
    let mut children: Vec<Widget> = Vec::new();
    children.push(Widget::Button("Play", ButtonAction::EnterGameplay));
    children.push(Widget::Button("Credits", ButtonAction::EnterCredits));
    if exit_available {
        children.push(Widget::Button("Exit", ButtonAction::ExitApp));
    }
    proof {
        assert(children@ =~= title_widgets(exit_available));
    }
    UiRoot { scope: Screen::Title, children }
}

/// The press of "Play": asks for the gameplay screen.
pub fn enter_gameplay_screen(next_screen: &mut ScreenState)
    ensures
        final(next_screen).pending() == Some(Screen::Gameplay),
        final(next_screen).current() == old(next_screen).current(),
        final(next_screen).started() == old(next_screen).started(),
{
    next_screen.request_transition(Screen::Gameplay);
}

/// The press of "Credits": asks for the credits screen.
pub fn enter_credits_screen(next_screen: &mut ScreenState)
    ensures
        final(next_screen).pending() == Some(Screen::Credits),
        final(next_screen).current() == old(next_screen).current(),
        final(next_screen).started() == old(next_screen).started(),
{
    next_screen.request_transition(Screen::Credits);
}

/// The press of "Exit": asks to end the process with success.
pub fn exit_app() -> (signal: AppExit)
    ensures
        signal == AppExit::Success,
{
    AppExit::Success
}

} // verus!
