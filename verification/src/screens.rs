//! The screen state machine: one current screen, one pending request, and the
//! transition that is applied once per tick.

pub mod credits;
pub mod title;

use vstd::prelude::*;
use crate::hooks::{Hook, HookTable};

verus! {

/// A mutually exclusive mode of the application.
#[derive(Clone, Copy, PartialEq, Eq, Structural, Debug, Hash)]
pub enum Screen {
    Title,
    Credits,
    Gameplay,
}

/// What applying the pending request did to the current screen.
#[derive(Clone, Copy, PartialEq, Eq, Structural, Debug)]
pub enum Transition {
    /// Nothing changed and no hook is owed.
    Stay,
    /// The first tick: the initial screen is entered, nothing is exited.
    Start { entered: Screen },
    /// The current screen changed from `exited` to `entered`.
    Switch { exited: Screen, entered: Screen },
}

/// The transition that a transition point performs on the screen `current`
/// with the request `pending`. Before the machine has started it enters the
/// initial screen. Afterwards a request for another screen switches to it,
/// and a request for the current screen, like no request, changes nothing.
pub open spec fn transition_due(current: Screen, pending: Option<Screen>, started: bool) -> Transition {
    if !started {
        Transition::Start { entered: current }
    } else if pending is Some && pending->0 != current {
        Transition::Switch { exited: current, entered: pending->0 }
    } else {
        Transition::Stay
    }
}

/// The screen that is active after the transition `t` was applied to `current`.
pub open spec fn screen_after(current: Screen, t: Transition) -> Screen {
    match t {
        Transition::Switch { exited, entered } => entered,
        _ => current,
    }
}

/// The request that is left after a transition point: the first one keeps it,
/// every later one consumes it.
pub open spec fn pending_after(pending: Option<Screen>, started: bool) -> Option<Screen> {
    if started {
        None
    } else {
        pending
    }
}

/// The active screen together with the request for the next one.
#[derive(Clone, Copy, Debug, PartialEq, Eq)]
pub struct ScreenState {
    current: Screen,
    pending: Option<Screen>,
    started: bool,
}

impl ScreenState {
    /// The screen that is active.
    pub closed spec fn current(&self) -> Screen {
        self.current
    }

    /// The request that the next transition point will look at.
    pub closed spec fn pending(&self) -> Option<Screen> {
        self.pending
    }

    /// Whether the initial screen has been entered.
    pub closed spec fn started(&self) -> bool {
        self.started
    }

    /// The transition that the next transition point performs.
    pub open spec fn due(&self) -> Transition {
        transition_due(self.current(), self.pending(), self.started())
    }

    /// The screen that is active after the transition `t`.
    pub open spec fn screen_after(&self, t: Transition) -> Screen {
        screen_after(self.current(), t)
    }

    /// The machine before its first tick: the title screen, nothing requested.
    pub fn new() -> (s: Self)
        ensures
            s.current() == Screen::Title,
            s.pending() is None,
            !s.started(),
    {
        ScreenState { current: Screen::Title, pending: None, started: false }
    }

    pub fn current_screen(&self) -> (s: Screen)
        ensures
            s == self.current(),
    {
        self.current
    }

    pub fn pending_request(&self) -> (p: Option<Screen>)
        ensures
            p == self.pending(),
    {
        self.pending
    }

    pub fn has_started(&self) -> (b: bool)
        ensures
            b == self.started(),
    {
        self.started
    }

    /// Records `target` as the pending request; an earlier request of the same
    /// tick is overwritten. The current screen does not change here.
    pub fn request_transition(&mut self, target: Screen)
        ensures
            final(self).pending() == Some(target),
            final(self).current() == old(self).current(),
            final(self).started() == old(self).started(),
    {
        self.pending = Some(target);
    }

    /// The transition point of a tick. The first call enters the initial screen
    /// and keeps a request for the next call. Later calls consume the request:
    /// one for another screen switches to it, one for the current screen is
    /// dropped without effect.
    pub fn apply_transition(&mut self) -> (t: Transition)
        ensures
            t == old(self).due(),
            final(self).current() == old(self).screen_after(t),
            final(self).started(),
            final(self).pending() == pending_after(old(self).pending(), old(self).started()),
    {
        if !self.started {
            self.started = true;
            return Transition::Start { entered: self.current };
        }
        let request = self.pending;
        self.pending = None;
        match request {
            Some(target) => {
                if target != self.current {
                    let exited = self.current;
                    self.current = target;
                    Transition::Switch { exited, entered: target }
                } else {
                    Transition::Stay
                }
            },
            None => Transition::Stay,
        }
    }
}

/// Registers the hooks of every screen: the title screen's, then the credits
/// screen's. The gameplay screen has none.
pub fn plugin(hooks: &mut HookTable)
    ensures
        final(hooks).entered() == old(hooks).entered().push(
            (Screen::Title, Hook::SpawnTitleScreen),
        ).push((Screen::Credits, Hook::SpawnCreditsScreen)).push(
            (Screen::Credits, Hook::PlayCreditsMusic),
        ),
        final(hooks).exited() == old(hooks).exited().push((Screen::Credits, Hook::StopMusic)),
{
    title::plugin(hooks);
    credits::plugin(hooks);
}

} // verus!
