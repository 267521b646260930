//! What holds of the application in every state that it can reach.

use vstd::prelude::*;
use crate::app::{without, Command, Resources, Snapshot, Step};
use crate::camera::{displacement, DisplacementEvent, CAMERA_STEP};
use crate::hooks::{hooks_for, Hook};
use crate::lifecycle::Entity;
use crate::screens::{Screen, Transition};

verus! {

/// The enter hooks that the screens register, in order.
pub open spec fn screen_enter_hooks() -> Seq<(Screen, Hook)> {
    seq![
        (Screen::Title, Hook::SpawnTitleScreen),
        (Screen::Credits, Hook::SpawnCreditsScreen),
        (Screen::Credits, Hook::PlayCreditsMusic),
    ]
}

/// The exit hooks that the screens register, in order.
pub open spec fn screen_exit_hooks() -> Seq<(Screen, Hook)> {
    seq![(Screen::Credits, Hook::StopMusic)]
}

/// One hook leaves the music binding consistent with the live playbacks.
pub proof fn lemma_hook_keeps_binding(r: Resources, hook: Hook, reserved: Entity)
    requires
        r.wf(),
    ensures
        r.run_hook(hook, reserved).0.wf(),
{
    match hook {
        Hook::PlayCreditsMusic => {
            if r.entity is None && r.music.resolved() {
                assert(r.live.push(reserved) =~= seq![reserved]);
            }
        },
        Hook::StopMusic => {
            if let Some(e) = r.entity {
                let one = seq![e];
                assert(one.drop_last() =~= Seq::<Entity>::empty());
                assert(without(one.drop_last(), e) =~= Seq::<Entity>::empty());
                assert(without(one, e) =~= Seq::<Entity>::empty());
            }
        },
        _ => {},
    }
}

/// Any hooks, run in order, leave the music binding consistent with the live
/// playbacks.
pub proof fn lemma_hooks_keep_binding(r: Resources, hooks: Seq<Hook>, reserved: Entity)
    requires
        r.wf(),
    ensures
        r.run_hooks(hooks, reserved).0.wf(),
    decreases hooks.len(),
{
    if hooks.len() > 0 {
        lemma_hooks_keep_binding(r, hooks.drop_last(), reserved);
        lemma_hook_keeps_binding(
            r.run_hooks(hooks.drop_last(), reserved).0,
            hooks.last(),
            reserved,
        );
    }
}

/// Whatever hooks are registered, one step leaves the music binding consistent
/// with the live playbacks.
pub proof fn lemma_step_keeps_binding(s: Snapshot, step: Step)
    requires
        s.wf(),
    ensures
        s.step(step).wf(),
{
    match step {
        Step::Tick(reserved) => {
            match s.due() {
                Transition::Stay => {},
                Transition::Start { entered } => {
                    lemma_hooks_keep_binding(s.resources, hooks_for(s.entered, entered), reserved);
                },
                Transition::Switch { exited, entered } => {
                    let left = hooks_for(s.exited, exited);
                    lemma_hooks_keep_binding(s.resources, left, reserved);
                    lemma_hooks_keep_binding(
                        s.resources.run_hooks(left, reserved).0,
                        hooks_for(s.entered, entered),
                        reserved,
                    );
                },
            }
        },
        _ => {},
    }
}

/// After any sequence of requests, ticks and other steps, at most one playback
/// of the music is live, and the binding refers to a playback exactly when one
/// is live.
pub proof fn lemma_at_most_one_live_instance(s: Snapshot, steps: Seq<Step>)
    requires
        s.wf(),
    ensures
        s.run(steps).wf(),
        s.run(steps).resources.live.len() <= 1,
        s.run(steps).resources.entity is Some <==> s.run(steps).resources.live.len() == 1,
    decreases steps.len(),
{
    if steps.len() > 0 {
        lemma_at_most_one_live_instance(s, steps.drop_last());
        lemma_step_keeps_binding(s.run(steps.drop_last()), steps.last());
    }
}

/// A request for the screen that is already active has no effect at the next
/// tick: no hook runs, no command is issued, and the screen, the music binding
/// and the live playbacks are what they were.
pub proof fn lemma_request_for_current_screen(s: Snapshot, reserved: Entity)
    requires
        s.started,
    ensures
        s.request(s.current).hooks_run() == Seq::<Hook>::empty(),
        s.request(s.current).commands(reserved) == Seq::<Command>::empty(),
        s.request(s.current).tick(reserved) == (Snapshot { pending: None, ..s }),
{
}

/// Once the camera is in motion it stays in motion through every step but the
/// one that stops it, and a tick then reports the same nonzero horizontal step
/// and no rotation.
pub proof fn lemma_motion_lasts(s: Snapshot, steps: Seq<Step>, camera: Entity)
    requires
        forall|i: int| 0 <= i < steps.len() ==> !(#[trigger] steps[i] is DisableMotion),
    ensures
        s.step(Step::EnableMotion).run(steps).moving,
        displacement(s.step(Step::EnableMotion).run(steps).moving, camera) == (DisplacementEvent {
            translation_x: CAMERA_STEP,
            translation_y: 0,
            rotation: 0,
            camera,
        }),
        CAMERA_STEP != 0,
    decreases steps.len(),
{
    if steps.len() > 0 {
        lemma_motion_lasts(s, steps.drop_last(), camera);
    }
}

/// Once the camera is stopped it stays stopped through every step but the one
/// that sets it in motion, and a tick then still reports an event, with no
/// translation and no rotation.
pub proof fn lemma_rest_lasts(s: Snapshot, steps: Seq<Step>, camera: Entity)
    requires
        forall|i: int| 0 <= i < steps.len() ==> !(#[trigger] steps[i] is EnableMotion),
    ensures
        !s.step(Step::DisableMotion).run(steps).moving,
        displacement(s.step(Step::DisableMotion).run(steps).moving, camera) == (DisplacementEvent {
            translation_x: 0,
            translation_y: 0,
            rotation: 0,
            camera,
        }),
    decreases steps.len(),
{
    if steps.len() > 0 {
        lemma_rest_lasts(s, steps.drop_last(), camera);
    }
}

/// Setting the camera in motion twice is the same as once, and so is stopping
/// it.
pub proof fn lemma_motion_switch_idempotent(s: Snapshot)
    ensures
        s.step(Step::EnableMotion).step(Step::EnableMotion) == s.step(Step::EnableMotion),
        s.step(Step::DisableMotion).step(Step::DisableMotion) == s.step(Step::DisableMotion),
{
}

/// Of several requests before one tick the last one counts.
pub proof fn lemma_last_request_wins(s: Snapshot, first: Screen, second: Screen)
    ensures
        s.request(first).request(second) == s.request(second),
{
}

/// The hooks that the screens register, screen by screen.
pub proof fn lemma_screen_hooks()
    ensures
        hooks_for(screen_enter_hooks(), Screen::Title) == seq![Hook::SpawnTitleScreen],
        hooks_for(screen_enter_hooks(), Screen::Credits) == seq![
            Hook::SpawnCreditsScreen,
            Hook::PlayCreditsMusic,
        ],
        hooks_for(screen_enter_hooks(), Screen::Gameplay) == Seq::<Hook>::empty(),
        hooks_for(screen_exit_hooks(), Screen::Title) == Seq::<Hook>::empty(),
        hooks_for(screen_exit_hooks(), Screen::Credits) == seq![Hook::StopMusic],
        hooks_for(screen_exit_hooks(), Screen::Gameplay) == Seq::<Hook>::empty(),
{
    let e3 = screen_enter_hooks();
    let e2 = seq![
        (Screen::Title, Hook::SpawnTitleScreen),
        (Screen::Credits, Hook::SpawnCreditsScreen),
    ];
    let e1 = seq![(Screen::Title, Hook::SpawnTitleScreen)];
    let e0 = Seq::<(Screen, Hook)>::empty();
    assert(e3.drop_last() =~= e2);
    assert(e2.drop_last() =~= e1);
    assert(e1.drop_last() =~= e0);
    let x1 = screen_exit_hooks();
    assert(x1.drop_last() =~= e0);
    assert(e3.last() == (Screen::Credits, Hook::PlayCreditsMusic));
    assert(e2.last() == (Screen::Credits, Hook::SpawnCreditsScreen));
    assert(e1.last() == (Screen::Title, Hook::SpawnTitleScreen));
    assert(x1.last() == (Screen::Credits, Hook::StopMusic));
    assert(hooks_for(e0, Screen::Title) =~= Seq::<Hook>::empty());
    assert(hooks_for(e0, Screen::Credits) =~= Seq::<Hook>::empty());
    assert(hooks_for(e0, Screen::Gameplay) =~= Seq::<Hook>::empty());
    assert(hooks_for(e1, Screen::Title) =~= seq![Hook::SpawnTitleScreen]);
    assert(hooks_for(e1, Screen::Credits) =~= Seq::<Hook>::empty());
    assert(hooks_for(e1, Screen::Gameplay) =~= Seq::<Hook>::empty());
    assert(hooks_for(e2, Screen::Title) =~= seq![Hook::SpawnTitleScreen]);
    assert(hooks_for(e2, Screen::Credits) =~= seq![Hook::SpawnCreditsScreen]);
    assert(hooks_for(e2, Screen::Gameplay) =~= Seq::<Hook>::empty());
    assert(hooks_for(e3, Screen::Title) =~= seq![Hook::SpawnTitleScreen]);
    assert(hooks_for(e3, Screen::Credits) =~= seq![
        Hook::SpawnCreditsScreen,
        Hook::PlayCreditsMusic,
    ]);
    assert(hooks_for(e3, Screen::Gameplay) =~= Seq::<Hook>::empty());
    assert(hooks_for(x1, Screen::Title) =~= Seq::<Hook>::empty());
    assert(hooks_for(x1, Screen::Credits) =~= seq![Hook::StopMusic]);
    assert(hooks_for(x1, Screen::Gameplay) =~= Seq::<Hook>::empty());
}

/// A single hook, run as a sequence, does what the hook does.
pub proof fn lemma_single_hook(r: Resources, hook: Hook, reserved: Entity)
    ensures
        r.run_hooks(seq![hook], reserved).0 == r.run_hook(hook, reserved).0,
        r.run_hooks(seq![hook], reserved).1 == r.run_hook(hook, reserved).1,
{
    let one = seq![hook];
    assert(one.drop_last() =~= Seq::<Hook>::empty());
    assert(one.last() == hook);
    assert(r.run_hooks(one.drop_last(), reserved) == (r, Seq::<Command>::empty()));
    assert(Seq::<Command>::empty() + r.run_hook(hook, reserved).1 =~= r.run_hook(
        hook,
        reserved,
    ).1);
}

/// The music plays only while the credits screen is active.
pub open spec fn music_scoped(s: Snapshot) -> bool {
    s.resources.entity is Some ==> s.started && s.current == Screen::Credits
}

/// Under the hooks that the screens register, a playback never outlives the
/// credits screen: whatever steps are taken, the binding refers to a playback
/// only while that screen is active.
pub proof fn lemma_music_ends_with_screen(s: Snapshot, steps: Seq<Step>)
    requires
        s.entered == screen_enter_hooks(),
        s.exited == screen_exit_hooks(),
        music_scoped(s),
    ensures
        music_scoped(s.run(steps)),
        s.run(steps).entered == s.entered,
        s.run(steps).exited == s.exited,
    decreases steps.len(),
{
    if steps.len() > 0 {
        lemma_music_ends_with_screen(s, steps.drop_last());
        let before = s.run(steps.drop_last());
        match steps.last() {
            Step::Tick(reserved) => {
                lemma_screen_hooks();
                let r = before.resources;
                assert(r.run_hooks(Seq::<Hook>::empty(), reserved).0 == r);
                lemma_single_hook(r, Hook::SpawnTitleScreen, reserved);
                lemma_single_hook(r, Hook::StopMusic, reserved);
                let stopped = r.run_hook(Hook::StopMusic, reserved).0;
                assert(stopped.run_hooks(Seq::<Hook>::empty(), reserved).0 == stopped);
                lemma_single_hook(stopped, Hook::SpawnTitleScreen, reserved);
            },
            _ => {},
        }
    }
}

} // verus!
