//! The application's state as one value, and the tick that advances it: the
//! transition point with its hooks, then the camera's displacement.

use vstd::prelude::*;
use crate::camera::{displacement, move_camera, move_camera_system, stop_camera, CameraMovement, DisplacementEvent};
use crate::hooks::{hooks_due, hooks_for, Hook, HookTable};
use crate::lifecycle::{AssetHandle, Entity, LoadState, PlayMusic};
use crate::screens::credits::{enter_title_screen, play_credits_music, stop_music, CreditsMusic};
use crate::screens::title::{enter_credits_screen, enter_gameplay_screen, exit_app};
use crate::screens::{pending_after, plugin, screen_after, transition_due, Screen, ScreenState, Transition};
use crate::theme::{AppExit, ButtonAction};

verus! {

/// The phases of a tick, in the order in which they run.
#[derive(Clone, Copy, PartialEq, Eq, Structural, Debug, Hash)]
pub enum AppSet {
    /// Tick timers.
    TickTimers,
    /// Record player input.
    RecordInput,
    /// Do everything else.
    Update,
}

impl AppSet {
    /// The place of a phase within the tick.
    pub open spec fn rank(&self) -> nat {
        match self {
            AppSet::TickTimers => 0,
            AppSet::RecordInput => 1,
            AppSet::Update => 2,
        }
    }

    /// The phases in the order in which a tick runs them.
    pub fn chain() -> (sets: Vec<AppSet>)
        ensures
            sets@ == seq![AppSet::TickTimers, AppSet::RecordInput, AppSet::Update],
            forall|i: int, j: int|
                0 <= i < j < sets@.len() ==> (#[trigger] sets@[i]).rank() < (#[trigger] sets@[j]).rank(),
    {
        let mut sets: Vec<AppSet> = Vec::new();
        sets.push(AppSet::TickTimers);
        sets.push(AppSet::RecordInput);
        sets.push(AppSet::Update);
        proof {
            assert(sets@ =~= seq![AppSet::TickTimers, AppSet::RecordInput, AppSet::Update]);
        }
        sets
    }
}

/// What a hook asks the scene to do.
#[derive(Clone, Copy, PartialEq, Eq, Structural, Debug)]
pub enum Command {
    /// Create the user interface of a screen, bound to that screen.
    SpawnUi(Screen),
    /// Destroy everything that is bound to a screen.
    DespawnScoped(Screen),
    /// Create a looping playback.
    PlayMusic(PlayMusic),
    /// Destroy an instance and everything it owns.
    DespawnRecursive(Entity),
}

/// The music binding and the playbacks that are live.
pub struct Resources {
    pub music: AssetHandle,
    pub entity: Option<Entity>,
    pub live: Seq<Entity>,
}

/// `live` without every occurrence of `gone`.
pub open spec fn without(live: Seq<Entity>, gone: Entity) -> Seq<Entity>
    decreases live.len(),
{
    if live.len() == 0 {
        live
    } else if live.last() == gone {
        without(live.drop_last(), gone)
    } else {
        without(live.drop_last(), gone).push(live.last())
    }
}

impl Resources {
    /// The binding refers to a playback exactly when one is live, and then to
    /// that one, which is the only one.
    pub open spec fn wf(&self) -> bool {
        match self.entity {
            Some(e) => self.live == seq![e],
            None => self.live == Seq::<Entity>::empty(),
        }
    }

    /// The effect of one hook, and the commands it issues. `reserved` is the
    /// identity that a new playback gets.
    pub open spec fn run_hook(self, hook: Hook, reserved: Entity) -> (Resources, Seq<Command>) {
        match hook {
            Hook::SpawnTitleScreen => (self, seq![Command::SpawnUi(Screen::Title)]),
            Hook::SpawnCreditsScreen => (self, seq![Command::SpawnUi(Screen::Credits)]),
            Hook::PlayCreditsMusic => if self.entity is None && self.music.resolved() {
                (
                    Resources {
                        music: self.music,
                        entity: Some(reserved),
                        live: self.live.push(reserved),
                    },
                    seq![Command::PlayMusic(PlayMusic { entity: reserved, source: self.music })],
                )
            } else {
                (self, Seq::empty())
            },
            Hook::StopMusic => match self.entity {
                Some(e) => (
                    Resources { music: self.music, entity: None, live: without(self.live, e) },
                    seq![Command::DespawnRecursive(e)],
                ),
                None => (self, Seq::empty()),
            },
        }
    }

    /// The effect of `hooks`, run first to last, and their commands in that
    /// order.
    pub open spec fn run_hooks(self, hooks: Seq<Hook>, reserved: Entity) -> (Resources, Seq<Command>)
        decreases hooks.len(),
    {
        if hooks.len() == 0 {
            (self, Seq::empty())
        } else {
            let earlier = self.run_hooks(hooks.drop_last(), reserved);
            let last = earlier.0.run_hook(hooks.last(), reserved);
            (last.0, earlier.1 + last.1)
        }
    }

    /// The effect of the transition `t` under the registered hooks. A switch
    /// runs the exit hooks of the screen that is left, destroys what is bound
    /// to that screen, and runs the enter hooks of the new one.
    pub open spec fn run_transition(
        self,
        entered: Seq<(Screen, Hook)>,
        exited: Seq<(Screen, Hook)>,
        t: Transition,
        reserved: Entity,
    ) -> (Resources, Seq<Command>) {
        match t {
            Transition::Stay => (self, Seq::empty()),
            Transition::Start { entered: to } => self.run_hooks(hooks_for(entered, to), reserved),
            Transition::Switch { exited: from, entered: to } => {
                let left = self.run_hooks(hooks_for(exited, from), reserved);
                let arrived = left.0.run_hooks(hooks_for(entered, to), reserved);
                (arrived.0, left.1.push(Command::DespawnScoped(from)) + arrived.1)
            },
        }
    }
}

/// The state of the application as plain values.
pub struct Snapshot {
    pub entered: Seq<(Screen, Hook)>,
    pub exited: Seq<(Screen, Hook)>,
    pub current: Screen,
    pub pending: Option<Screen>,
    pub started: bool,
    pub resources: Resources,
    pub moving: bool,
}

/// Something that happens to the application.
pub enum Step {
    /// A transition to a screen is requested.
    Request(Screen),
    /// A tick runs; a playback created in it gets the given identity.
    Tick(Entity),
    /// The camera is set in motion.
    EnableMotion,
    /// The camera is stopped.
    DisableMotion,
    /// The loader reports on the music asset.
    Loaded(LoadState),
}

impl Snapshot {
    /// The music binding is consistent with the live playbacks.
    pub open spec fn wf(&self) -> bool {
        self.resources.wf()
    }

    /// The transition that the next tick performs.
    pub open spec fn due(self) -> Transition {
        transition_due(self.current, self.pending, self.started)
    }

    /// The hooks that the next tick runs, in order.
    pub open spec fn hooks_run(self) -> Seq<Hook> {
        hooks_due(self.entered, self.exited, self.due())
    }

    /// The commands that the next tick issues, in order.
    pub open spec fn commands(self, reserved: Entity) -> Seq<Command> {
        self.resources.run_transition(self.entered, self.exited, self.due(), reserved).1
    }

    /// The state after a request for `target`.
    pub open spec fn request(self, target: Screen) -> Snapshot {
        Snapshot { pending: Some(target), ..self }
    }

    /// The state after a tick.
    pub open spec fn tick(self, reserved: Entity) -> Snapshot {
        Snapshot {
            current: screen_after(self.current, self.due()),
            pending: pending_after(self.pending, self.started),
            started: true,
            resources: self.resources.run_transition(
                self.entered,
                self.exited,
                self.due(),
                reserved,
            ).0,
            ..self
        }
    }

    /// The state after the loader's report `state` on the music asset.
    pub open spec fn loaded(self, state: LoadState) -> Snapshot {
        Snapshot {
            resources: Resources {
                music: AssetHandle { id: self.resources.music.id, state },
                ..self.resources
            },
            ..self
        }
    }

    /// The state after `step`.
    pub open spec fn step(self, step: Step) -> Snapshot {
        match step {
            Step::Request(target) => self.request(target),
            Step::Tick(reserved) => self.tick(reserved),
            Step::EnableMotion => Snapshot { moving: true, ..self },
            Step::DisableMotion => Snapshot { moving: false, ..self },
            Step::Loaded(state) => self.loaded(state),
        }
    }

    /// The state after `steps`, taken first to last.
    pub open spec fn run(self, steps: Seq<Step>) -> Snapshot
        decreases steps.len(),
    {
        if steps.len() == 0 {
            self
        } else {
            self.run(steps.drop_last()).step(steps.last())
        }
    }
}

/// The state bound to the music, as plain values.
pub open spec fn resources_of(music: CreditsMusic, playing: Seq<Entity>) -> Resources {
    Resources { music: music.music(), entity: music.entity(), live: playing }
}

/// Taking the only live playback away leaves none.
proof fn lemma_without_only(e: Entity)
    ensures
        without(seq![e], e) == Seq::<Entity>::empty(),
{
    let one = seq![e];
    assert(one.last() == e);
    assert(one.drop_last() =~= Seq::<Entity>::empty());
    assert(without(one.drop_last(), e) == Seq::<Entity>::empty());
}

fn run_hook(
    music: &mut CreditsMusic,
    playing: &mut Vec<Entity>,
    hook: Hook,
    reserved: Entity,
    commands: &mut Vec<Command>,
)
    requires
        resources_of(*old(music), old(playing)@).wf(),
    ensures
        resources_of(*final(music), final(playing)@) == resources_of(
            *old(music),
            old(playing)@,
        ).run_hook(hook, reserved).0,
        final(commands)@ == old(commands)@ + resources_of(*old(music), old(playing)@).run_hook(
            hook,
            reserved,
        ).1,
        resources_of(*final(music), final(playing)@).wf(),
{
    match hook {
        Hook::SpawnTitleScreen => {
            commands.push(Command::SpawnUi(Screen::Title));
        },
        Hook::SpawnCreditsScreen => {
            commands.push(Command::SpawnUi(Screen::Credits));
        },
        Hook::PlayCreditsMusic => {
            match play_credits_music(music, reserved) {
                Some(request) => {
                    playing.push(reserved);
                    commands.push(Command::PlayMusic(request));
                },
                None => {},
            }
        },
        Hook::StopMusic => {
            match stop_music(music) {
                Some(entity) => {
                    proof {
                        lemma_without_only(entity);
                    }
                    playing.pop();
                    commands.push(Command::DespawnRecursive(entity));
                },
                None => {},
            }
        },
    }
    proof {
        let before = resources_of(*old(music), old(playing)@);
        let after = resources_of(*final(music), final(playing)@);
        assert(after.live =~= before.run_hook(hook, reserved).0.live);
        assert(commands@ =~= old(commands)@ + before.run_hook(hook, reserved).1);
    }
}

fn run_hooks(
    music: &mut CreditsMusic,
    playing: &mut Vec<Entity>,
    hooks: &Vec<Hook>,
    reserved: Entity,
    commands: &mut Vec<Command>,
)
    requires
        resources_of(*old(music), old(playing)@).wf(),
    ensures
        resources_of(*final(music), final(playing)@) == resources_of(
            *old(music),
            old(playing)@,
        ).run_hooks(hooks@, reserved).0,
        final(commands)@ == old(commands)@ + resources_of(*old(music), old(playing)@).run_hooks(
            hooks@,
            reserved,
        ).1,
        resources_of(*final(music), final(playing)@).wf(),
{
    let ghost before = resources_of(*music, playing@);
    let mut i: usize = 0;
    proof {
        assert(hooks@.take(0) =~= Seq::<Hook>::empty());
        assert(commands@ =~= old(commands)@ + Seq::<Command>::empty());
    }
    while i < hooks.len()
        invariant
            i <= hooks@.len(),
            resources_of(*music, playing@).wf(),
            resources_of(*music, playing@) == before.run_hooks(hooks@.take(i as int), reserved).0,
            commands@ == old(commands)@ + before.run_hooks(hooks@.take(i as int), reserved).1,
        decreases hooks@.len() - i,
    {
        proof {
            let next = hooks@.take(i + 1);
            assert(next.drop_last() =~= hooks@.take(i as int));
            assert(next.last() == hooks@[i as int]);
        }
        let ghost done = commands@;
        run_hook(music, playing, hooks[i], reserved, commands);
        proof {
            let earlier = before.run_hooks(hooks@.take(i as int), reserved);
            let last = earlier.0.run_hook(hooks@[i as int], reserved);
            assert(commands@ =~= old(commands)@ + (earlier.1 + last.1));
        }
        i = i + 1;
    }
    proof {
        assert(hooks@.take(hooks@.len() as int) =~= hooks@);
    }
}

/// The application: the registered hooks, the screen machine, the music of the
/// credits screen with its live playbacks, and the movement flag.
pub struct App {
    hooks: HookTable,
    screen: ScreenState,
    music: CreditsMusic,
    movement: CameraMovement,
    playing: Vec<Entity>,
}

/// What one tick did.
#[derive(Clone, Debug, PartialEq, Eq)]
pub struct TickOutput {
    /// The transition that was applied.
    pub transition: Transition,
    /// The hooks that ran, in order.
    pub hooks_run: Vec<Hook>,
    /// The commands that the hooks issued, in order.
    pub commands: Vec<Command>,
    /// The camera's displacement of this tick.
    pub displacement: DisplacementEvent,
}

impl View for App {
    type V = Snapshot;

    closed spec fn view(&self) -> Snapshot {
        Snapshot {
            entered: self.hooks.entered(),
            exited: self.hooks.exited(),
            current: self.screen.current(),
            pending: self.screen.pending(),
            started: self.screen.started(),
            resources: resources_of(self.music, self.playing@),
            moving: self.movement.moving(),
        }
    }
}

impl App {
    /// The screen that is active.
    pub fn current_screen(&self) -> (screen: Screen)
        ensures
            screen == self@.current,
    {
        self.screen.current_screen()
    }

    /// The request that the next tick will look at.
    pub fn pending_request(&self) -> (pending: Option<Screen>)
        ensures
            pending == self@.pending,
    {
        self.screen.pending_request()
    }

    /// The playback that the music binding refers to.
    pub fn music_entity(&self) -> (entity: Option<Entity>)
        ensures
            entity == self@.resources.entity,
    {
        self.music.live_entity()
    }

    /// The number of playbacks that are live.
    pub fn live_instances(&self) -> (n: usize)
        ensures
            n == self@.resources.live.len(),
    {
        self.playing.len()
    }

    /// Whether the camera is moving.
    pub fn is_moving(&self) -> (moving: bool)
        ensures
            moving == self@.moving,
    {
        self.movement.is_moving()
    }

    /// Records a request for `target`. It takes effect at the next tick, and
    /// the last request before a tick is the one that counts.
    pub fn request_transition(&mut self, target: Screen)
        ensures
            final(self)@ == old(self)@.request(target),
    {
        self.screen.request_transition(target);
    }

    /// The press of a button. A press that asks for a screen records the
    /// request; the exit button changes nothing and hands out the signal to
    /// end the process.
    pub fn press(&mut self, action: ButtonAction) -> (exit: Option<AppExit>)
        ensures
            action == ButtonAction::EnterTitle ==> final(self)@ == old(self)@.request(Screen::Title)
                && exit is None,
            action == ButtonAction::EnterGameplay ==> final(self)@ == old(self)@.request(
                Screen::Gameplay,
            ) && exit is None,
            action == ButtonAction::EnterCredits ==> final(self)@ == old(self)@.request(
                Screen::Credits,
            ) && exit is None,
            action == ButtonAction::ExitApp ==> final(self)@ == old(self)@ && exit == Some(
                AppExit::Success,
            ),
    {
        match action {
            ButtonAction::EnterTitle => {
                enter_title_screen(&mut self.screen);
                None
            },
            ButtonAction::EnterGameplay => {
                enter_gameplay_screen(&mut self.screen);
                None
            },
            ButtonAction::EnterCredits => {
                enter_credits_screen(&mut self.screen);
                None
            },
            ButtonAction::ExitApp => Some(exit_app()),
        }
    }

    /// Sets the camera in motion. Doing so twice is the same as doing so once.
    pub fn enable_motion(&mut self)
        ensures
            final(self)@ == old(self)@.step(Step::EnableMotion),
    {
        move_camera(&mut self.movement);
    }

    /// Stops the camera. Doing so twice is the same as doing so once.
    pub fn disable_motion(&mut self)
        ensures
            final(self)@ == old(self)@.step(Step::DisableMotion),
    {
        stop_camera(&mut self.movement);
    }

    /// Takes over the loader's report on the music asset.
    pub fn record_load_state(&mut self, state: LoadState)
        ensures
            final(self)@ == old(self)@.loaded(state),
    {
        self.music.record_load_state(state);
    }

    /// One tick. At the transition point the pending request is applied and
    /// the hooks it owes run in order; then the camera's displacement is
    /// reported, whether or not the camera moves. `cameras` holds the cameras
    /// of the scene, of which there must be exactly one; `reserved` is the
    /// identity that a playback created in this tick gets.
    pub fn tick(&mut self, cameras: &Vec<Entity>, reserved: Entity) -> (out: TickOutput)
        requires
            old(self)@.wf(),
            cameras@.len() == 1,
        ensures
            final(self)@ == old(self)@.tick(reserved),
            final(self)@.wf(),
            out.transition == old(self)@.due(),
            out.hooks_run@ == old(self)@.hooks_run(),
            out.commands@ == old(self)@.commands(reserved),
            out.displacement == displacement(old(self)@.moving, cameras@[0]),
    {
        let transition = self.screen.apply_transition();
        let hooks_run = self.hooks.hooks_for_transition(transition);
        let mut commands: Vec<Command> = Vec::new();
        match transition {
            Transition::Stay => {},
            Transition::Start { entered } => {
                let enter = self.hooks.enter_hooks(entered);
                run_hooks(&mut self.music, &mut self.playing, &enter, reserved, &mut commands);
            },
            Transition::Switch { exited, entered } => {
                let exit = self.hooks.exit_hooks(exited);
                run_hooks(&mut self.music, &mut self.playing, &exit, reserved, &mut commands);
                commands.push(Command::DespawnScoped(exited));
                let enter = self.hooks.enter_hooks(entered);
                run_hooks(&mut self.music, &mut self.playing, &enter, reserved, &mut commands);
            },
        }
        proof {
            assert(commands@ =~= old(self)@.commands(reserved));
        }
        let displacement = move_camera_system(cameras, &self.movement);
        TickOutput { transition, hooks_run, commands, displacement }
    }
}

/// Sets the application up.
#[derive(Clone, Copy, Debug)]
pub struct AppPlugin;

impl AppPlugin {
    /// The application before its first tick: the hooks of every screen
    /// registered, the title screen current and not yet entered, nothing
    /// requested, the binding to `music` without a playback, and the camera
    /// moving.
    pub fn build(&self, music: AssetHandle) -> (app: App)
        ensures
            app@.wf(),
            app@.entered == seq![
                (Screen::Title, Hook::SpawnTitleScreen),
                (Screen::Credits, Hook::SpawnCreditsScreen),
                (Screen::Credits, Hook::PlayCreditsMusic),
            ],
            app@.exited == seq![(Screen::Credits, Hook::StopMusic)],
            app@.current == Screen::Title,
            app@.pending is None,
            !app@.started,
            app@.resources == (Resources { music, entity: None, live: Seq::empty() }),
            app@.moving,
    {
        let mut hooks = HookTable::new();
        plugin(&mut hooks);
        let app = App {
            hooks,
            screen: ScreenState::new(),
            music: CreditsMusic::from_world(music),
            movement: CameraMovement::new(true),
            playing: Vec::new(),
        };
        proof {
            assert(app@.entered =~= seq![
                (Screen::Title, Hook::SpawnTitleScreen),
                (Screen::Credits, Hook::SpawnCreditsScreen),
                (Screen::Credits, Hook::PlayCreditsMusic),
            ]);
            assert(app@.exited =~= seq![(Screen::Credits, Hook::StopMusic)]);
        }
        app
    }
}

} // verus!
