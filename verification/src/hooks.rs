//! The hooks that run when a screen is entered or left. They are registered per
//! screen at setup and run in the order of their registration.

use vstd::prelude::*;
use crate::screens::{Screen, Transition};

verus! {

/// A step that a screen runs when it is entered or left.
#[derive(Clone, Copy, PartialEq, Eq, Structural, Debug)]
pub enum Hook {
    SpawnTitleScreen,
    SpawnCreditsScreen,
    PlayCreditsMusic,
    StopMusic,
}

/// The hooks registered for entering and for leaving each screen.
#[derive(Clone, Debug, PartialEq, Eq)]
pub struct HookTable {
    enter: Vec<(Screen, Hook)>,
    exit: Vec<(Screen, Hook)>,
}

/// The hooks that `registered` holds for `screen`, in the order of their
/// registration.
pub open spec fn hooks_for(registered: Seq<(Screen, Hook)>, screen: Screen) -> Seq<Hook>
    decreases registered.len(),
{
    if registered.len() == 0 {
        Seq::empty()
    } else {
        let earlier = hooks_for(registered.drop_last(), screen);
        if registered.last().0 == screen {
            earlier.push(registered.last().1)
        } else {
            earlier
        }
    }
}

/// The hooks that the transition `t` owes: none where nothing changes, the
/// entered screen's enter hooks at the start, and on a switch the exit hooks of
/// the screen that is left followed by the enter hooks of the new one.
pub open spec fn hooks_due(
    entered: Seq<(Screen, Hook)>,
    exited: Seq<(Screen, Hook)>,
    t: Transition,
) -> Seq<Hook> {
    match t {
        Transition::Stay => Seq::empty(),
        Transition::Start { entered: to } => hooks_for(entered, to),
        Transition::Switch { exited: from, entered: to } => hooks_for(exited, from) + hooks_for(
            entered,
            to,
        ),
    }
}

fn select(registered: &Vec<(Screen, Hook)>, screen: Screen, found: &mut Vec<Hook>)
    ensures
        final(found)@ == old(found)@ + hooks_for(registered@, screen),
{
    let mut i: usize = 0;
    while i < registered.len()
        invariant
            i <= registered@.len(),
            found@ == old(found)@ + hooks_for(registered@.take(i as int), screen),
        decreases registered@.len() - i,
    {
        let entry = registered[i];
        proof {
            let next = registered@.take(i + 1);
            assert(next.drop_last() =~= registered@.take(i as int));
            assert(next.last() == registered@[i as int]);
        }
        if entry.0 == screen {
            found.push(entry.1);
            proof {
                assert(found@ =~= old(found)@ + hooks_for(registered@.take(i + 1), screen));
            }
        }
        i = i + 1;
    }
    proof {
        assert(registered@.take(registered@.len() as int) =~= registered@);
    }
}

impl HookTable {
    /// The enter hooks, each with its screen, in the order of registration.
    pub closed spec fn entered(&self) -> Seq<(Screen, Hook)> {
        self.enter@
    }

    /// The exit hooks, each with its screen, in the order of registration.
    pub closed spec fn exited(&self) -> Seq<(Screen, Hook)> {
        self.exit@
    }

    /// A table without hooks.
    pub fn new() -> (table: Self)
        ensures
            table.entered() == Seq::<(Screen, Hook)>::empty(),
            table.exited() == Seq::<(Screen, Hook)>::empty(),
    {
        HookTable { enter: Vec::new(), exit: Vec::new() }
    }

    /// Registers `hook` to run when `screen` is entered, after those already
    /// registered.
    pub fn on_enter(&mut self, screen: Screen, hook: Hook)
        ensures
            final(self).entered() == old(self).entered().push((screen, hook)),
            final(self).exited() == old(self).exited(),
    {
        self.enter.push((screen, hook));
    }

    /// Registers `hook` to run when `screen` is left, after those already
    /// registered.
    pub fn on_exit(&mut self, screen: Screen, hook: Hook)
        ensures
            final(self).exited() == old(self).exited().push((screen, hook)),
            final(self).entered() == old(self).entered(),
    {
        self.exit.push((screen, hook));
    }

    /// The hooks to run when `screen` is entered.
    pub fn enter_hooks(&self, screen: Screen) -> (found: Vec<Hook>)
        ensures
            found@ == hooks_for(self.entered(), screen),
    {
        let mut found: Vec<Hook> = Vec::new();
        select(&self.enter, screen, &mut found);
        found
    }

    /// The hooks to run when `screen` is left.
    pub fn exit_hooks(&self, screen: Screen) -> (found: Vec<Hook>)
        ensures
            found@ == hooks_for(self.exited(), screen),
    {
        let mut found: Vec<Hook> = Vec::new();
        select(&self.exit, screen, &mut found);
        found
    }

    /// The hooks that the transition `t` owes, in the order in which they run.
    pub fn hooks_for_transition(&self, t: Transition) -> (found: Vec<Hook>)
        ensures
            found@ == hooks_due(self.entered(), self.exited(), t),
    {
        let mut found: Vec<Hook> = Vec::new();
        match t {
            Transition::Stay => {},
            Transition::Start { entered } => {
                select(&self.enter, entered, &mut found);
            },
            Transition::Switch { exited, entered } => {
                select(&self.exit, exited, &mut found);
                select(&self.enter, entered, &mut found);
            },
        }
        found
    }
}

} // verus!
