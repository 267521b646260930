use screen_runtime::app::{App, AppPlugin, Command};
use screen_runtime::hooks::{Hook, HookTable};
use screen_runtime::lifecycle::{AssetHandle, Entity, LoadState, PlayMusic};
use screen_runtime::screens::credits::{
    credits_music_path, enter_title_screen, play_credits_music, spawn_credits_screen, stop_music,
    CreditsMusic,
};
use screen_runtime::screens::title::{
    enter_credits_screen, enter_gameplay_screen, exit_app, spawn_title_screen,
};
use screen_runtime::screens::{Screen, ScreenState, Transition};
use screen_runtime::theme::{AppExit, ButtonAction, Widget};

fn loaded_music() -> AssetHandle {
    AssetHandle { id: 42, state: LoadState::Loaded }
}

fn one_camera() -> Vec<Entity> {
    vec![Entity { bits: 1 }]
}

fn started_app() -> App {
    let mut app = AppPlugin.build(loaded_music());
    let out = app.tick(&one_camera(), Entity { bits: 100 });
    assert_eq!(out.transition, Transition::Start { entered: Screen::Title });
    app
}

fn app_on_credits() -> App {
    let mut app = started_app();
    app.request_transition(Screen::Credits);
    app.tick(&one_camera(), Entity { bits: 101 });
    app
}

#[test]
fn start_enters_title_without_resources() {
    let mut app = AppPlugin.build(loaded_music());
    assert_eq!(app.current_screen(), Screen::Title);
    assert_eq!(app.pending_request(), None);
    assert_eq!(app.music_entity(), None);
    assert_eq!(app.live_instances(), 0);
    let out = app.tick(&one_camera(), Entity { bits: 100 });
    assert_eq!(out.transition, Transition::Start { entered: Screen::Title });
    assert_eq!(out.hooks_run, vec![Hook::SpawnTitleScreen]);
    assert_eq!(out.commands, vec![Command::SpawnUi(Screen::Title)]);
    assert_eq!(app.current_screen(), Screen::Title);
    assert_eq!(app.live_instances(), 0);
}

#[test]
fn scenario_request_credits_starts_music() {
    let mut app = started_app();
    app.request_transition(Screen::Credits);
    assert_eq!(app.current_screen(), Screen::Title);
    let out = app.tick(&one_camera(), Entity { bits: 101 });
    assert_eq!(
        out.transition,
        Transition::Switch { exited: Screen::Title, entered: Screen::Credits }
    );
    assert_eq!(out.hooks_run, vec![Hook::SpawnCreditsScreen, Hook::PlayCreditsMusic]);
    assert_eq!(
        out.commands,
        vec![
            Command::DespawnScoped(Screen::Title),
            Command::SpawnUi(Screen::Credits),
            Command::PlayMusic(PlayMusic { entity: Entity { bits: 101 }, source: loaded_music() }),
        ]
    );
    assert_eq!(app.current_screen(), Screen::Credits);
    assert_eq!(app.live_instances(), 1);
    assert_eq!(app.music_entity(), Some(Entity { bits: 101 }));
    assert_eq!(app.pending_request(), None);
}

#[test]
fn scenario_back_to_title_stops_music() {
    let mut app = app_on_credits();
    app.request_transition(Screen::Title);
    let out = app.tick(&one_camera(), Entity { bits: 102 });
    assert_eq!(
        out.transition,
        Transition::Switch { exited: Screen::Credits, entered: Screen::Title }
    );
    assert_eq!(out.hooks_run, vec![Hook::StopMusic, Hook::SpawnTitleScreen]);
    assert_eq!(
        out.commands,
        vec![
            Command::DespawnRecursive(Entity { bits: 101 }),
            Command::DespawnScoped(Screen::Credits),
            Command::SpawnUi(Screen::Title),
        ]
    );
    assert_eq!(app.current_screen(), Screen::Title);
    assert_eq!(app.music_entity(), None);
    assert_eq!(app.live_instances(), 0);
}

#[test]
fn scenario_same_screen_request_is_ignored() {
    let mut app = app_on_credits();
    app.request_transition(Screen::Credits);
    let out = app.tick(&one_camera(), Entity { bits: 102 });
    assert_eq!(out.transition, Transition::Stay);
    assert_eq!(out.hooks_run, Vec::<Hook>::new());
    assert_eq!(out.commands, Vec::<Command>::new());
    assert_eq!(app.current_screen(), Screen::Credits);
    assert_eq!(app.live_instances(), 1);
    assert_eq!(app.music_entity(), Some(Entity { bits: 101 }));
    assert_eq!(app.pending_request(), None);
}

#[test]
fn tick_without_request_runs_no_hooks() {
    let mut app = started_app();
    let out = app.tick(&one_camera(), Entity { bits: 101 });
    assert_eq!(out.transition, Transition::Stay);
    assert!(out.hooks_run.is_empty());
    assert!(out.commands.is_empty());
    assert_eq!(app.current_screen(), Screen::Title);
}

#[test]
fn last_request_of_a_tick_wins() {
    let mut app = started_app();
    app.request_transition(Screen::Credits);
    app.request_transition(Screen::Gameplay);
    assert_eq!(app.pending_request(), Some(Screen::Gameplay));
    let out = app.tick(&one_camera(), Entity { bits: 101 });
    assert_eq!(
        out.transition,
        Transition::Switch { exited: Screen::Title, entered: Screen::Gameplay }
    );
    assert_eq!(out.commands, vec![Command::DespawnScoped(Screen::Title)]);
    assert_eq!(app.current_screen(), Screen::Gameplay);
    assert_eq!(app.live_instances(), 0);
}

#[test]
fn request_before_first_tick_waits_for_second() {
    let mut app = AppPlugin.build(loaded_music());
    app.request_transition(Screen::Credits);
    let first = app.tick(&one_camera(), Entity { bits: 100 });
    assert_eq!(first.transition, Transition::Start { entered: Screen::Title });
    assert_eq!(first.hooks_run, vec![Hook::SpawnTitleScreen]);
    assert_eq!(app.pending_request(), Some(Screen::Credits));
    let second = app.tick(&one_camera(), Entity { bits: 101 });
    assert_eq!(
        second.transition,
        Transition::Switch { exited: Screen::Title, entered: Screen::Credits }
    );
    assert_eq!(app.current_screen(), Screen::Credits);
}

#[test]
fn never_more_than_one_live_instance() {
    let mut app = AppPlugin.build(loaded_music());
    let requests = [
        Some(Screen::Credits),
        Some(Screen::Credits),
        None,
        Some(Screen::Gameplay),
        Some(Screen::Credits),
        Some(Screen::Title),
        Some(Screen::Title),
        Some(Screen::Credits),
        Some(Screen::Credits),
        Some(Screen::Gameplay),
    ];
    let mut next: u64 = 100;
    for request in requests.iter() {
        if let Some(target) = request {
            app.request_transition(*target);
        }
        app.tick(&one_camera(), Entity { bits: next });
        next += 1;
        assert!(app.live_instances() <= 1);
        assert_eq!(app.music_entity().is_some(), app.live_instances() == 1);
        assert_eq!(app.music_entity().is_some(), app.current_screen() == Screen::Credits);
    }
}

#[test]
fn unresolved_asset_is_never_played() {
    for state in [LoadState::Loading, LoadState::Failed] {
        let mut app = AppPlugin.build(AssetHandle { id: 42, state });
        app.tick(&one_camera(), Entity { bits: 100 });
        app.request_transition(Screen::Credits);
        let out = app.tick(&one_camera(), Entity { bits: 101 });
        assert_eq!(
            out.commands,
            vec![Command::DespawnScoped(Screen::Title), Command::SpawnUi(Screen::Credits)]
        );
        assert_eq!(app.current_screen(), Screen::Credits);
        assert_eq!(app.music_entity(), None);
        assert_eq!(app.live_instances(), 0);
        app.request_transition(Screen::Title);
        let back = app.tick(&one_camera(), Entity { bits: 102 });
        assert_eq!(
            back.commands,
            vec![Command::DespawnScoped(Screen::Credits), Command::SpawnUi(Screen::Title)]
        );
    }
}

#[test]
fn load_report_is_taken_over() {
    let mut app = AppPlugin.build(AssetHandle { id: 42, state: LoadState::Loading });
    app.record_load_state(LoadState::Loaded);
    app.tick(&one_camera(), Entity { bits: 100 });
    app.request_transition(Screen::Credits);
    app.tick(&one_camera(), Entity { bits: 101 });
    assert_eq!(app.music_entity(), Some(Entity { bits: 101 }));
}

#[test]
fn play_binds_only_when_nothing_is_live() {
    let mut music = CreditsMusic::from_world(loaded_music());
    assert_eq!(music.handle(), loaded_music());
    assert_eq!(music.live_entity(), None);
    let first = play_credits_music(&mut music, Entity { bits: 5 });
    assert_eq!(first, Some(PlayMusic { entity: Entity { bits: 5 }, source: loaded_music() }));
    assert_eq!(music.live_entity(), Some(Entity { bits: 5 }));
    let second = play_credits_music(&mut music, Entity { bits: 6 });
    assert_eq!(second, None);
    assert_eq!(music.live_entity(), Some(Entity { bits: 5 }));
}

#[test]
fn play_skips_unresolved_handle() {
    let mut music = CreditsMusic::from_world(AssetHandle { id: 9, state: LoadState::Failed });
    assert_eq!(play_credits_music(&mut music, Entity { bits: 5 }), None);
    assert_eq!(music.live_entity(), None);
    music.record_load_state(LoadState::Loaded);
    assert_eq!(music.handle(), AssetHandle { id: 9, state: LoadState::Loaded });
    assert!(play_credits_music(&mut music, Entity { bits: 5 }).is_some());
}

#[test]
fn stop_is_idempotent() {
    let mut music = CreditsMusic::from_world(loaded_music());
    assert_eq!(stop_music(&mut music), None);
    play_credits_music(&mut music, Entity { bits: 5 });
    assert_eq!(stop_music(&mut music), Some(Entity { bits: 5 }));
    assert_eq!(music.live_entity(), None);
    assert_eq!(stop_music(&mut music), None);
    assert_eq!(music.live_entity(), None);
    assert_eq!(music.handle(), loaded_music());
}

#[test]
fn credits_music_asset_path() {
    assert_eq!(credits_music_path(), "audio/music/Monkeys Spinning Monkeys.ogg");
}

#[test]
fn screen_state_starts_on_title() {
    let state = ScreenState::new();
    assert_eq!(state.current_screen(), Screen::Title);
    assert_eq!(state.pending_request(), None);
    assert!(!state.has_started());
}

#[test]
fn screen_state_applies_request_once() {
    let mut state = ScreenState::new();
    assert_eq!(state.apply_transition(), Transition::Start { entered: Screen::Title });
    assert!(state.has_started());
    state.request_transition(Screen::Gameplay);
    assert_eq!(state.current_screen(), Screen::Title);
    assert_eq!(
        state.apply_transition(),
        Transition::Switch { exited: Screen::Title, entered: Screen::Gameplay }
    );
    assert_eq!(state.current_screen(), Screen::Gameplay);
    assert_eq!(state.pending_request(), None);
    assert_eq!(state.apply_transition(), Transition::Stay);
    state.request_transition(Screen::Gameplay);
    assert_eq!(state.apply_transition(), Transition::Stay);
    assert_eq!(state.current_screen(), Screen::Gameplay);
    assert_eq!(state.pending_request(), None);
}

#[test]
fn buttons_request_their_screens() {
    let mut state = ScreenState::new();
    enter_gameplay_screen(&mut state);
    assert_eq!(state.pending_request(), Some(Screen::Gameplay));
    enter_credits_screen(&mut state);
    assert_eq!(state.pending_request(), Some(Screen::Credits));
    enter_title_screen(&mut state);
    assert_eq!(state.pending_request(), Some(Screen::Title));
    assert_eq!(state.current_screen(), Screen::Title);
    assert_eq!(exit_app(), AppExit::Success);
}

#[test]
fn press_routes_actions() {
    let mut app = started_app();
    assert_eq!(app.press(ButtonAction::EnterCredits), None);
    assert_eq!(app.pending_request(), Some(Screen::Credits));
    assert_eq!(app.press(ButtonAction::EnterGameplay), None);
    assert_eq!(app.pending_request(), Some(Screen::Gameplay));
    assert_eq!(app.press(ButtonAction::EnterTitle), None);
    assert_eq!(app.pending_request(), Some(Screen::Title));
    assert_eq!(app.press(ButtonAction::ExitApp), Some(AppExit::Success));
    assert_eq!(app.pending_request(), Some(Screen::Title));
    assert_eq!(app.current_screen(), Screen::Title);
}

#[test]
fn title_screen_widgets() {
    let with_exit = spawn_title_screen(true);
    assert_eq!(with_exit.scope, Screen::Title);
    assert_eq!(
        with_exit.children,
        vec![
            Widget::Button("Play", ButtonAction::EnterGameplay),
            Widget::Button("Credits", ButtonAction::EnterCredits),
            Widget::Button("Exit", ButtonAction::ExitApp),
        ]
    );
    let without_exit = spawn_title_screen(false);
    assert_eq!(
        without_exit.children,
        vec![
            Widget::Button("Play", ButtonAction::EnterGameplay),
            Widget::Button("Credits", ButtonAction::EnterCredits),
        ]
    );
}

#[test]
fn credits_screen_widgets() {
    let root = spawn_credits_screen();
    assert_eq!(root.scope, Screen::Credits);
    assert_eq!(root.children.len(), 9);
    assert_eq!(root.children[0], Widget::Header("Made by"));
    assert_eq!(
        root.children[1],
        Widget::Label("Joe Shmoe - Implemented aligator wrestling AI")
    );
    assert_eq!(root.children[3], Widget::Header("Assets"));
    assert_eq!(root.children[7], Widget::Label("Music - CC BY 3.0 by Kevin MacLeod"));
    assert_eq!(root.children[8], Widget::Button("Back", ButtonAction::EnterTitle));
}

#[test]
fn hooks_run_in_registration_order() {
    let mut table = HookTable::new();
    table.on_enter(Screen::Credits, Hook::PlayCreditsMusic);
    table.on_enter(Screen::Title, Hook::SpawnTitleScreen);
    table.on_enter(Screen::Credits, Hook::SpawnCreditsScreen);
    table.on_exit(Screen::Credits, Hook::StopMusic);
    assert_eq!(
        table.enter_hooks(Screen::Credits),
        vec![Hook::PlayCreditsMusic, Hook::SpawnCreditsScreen]
    );
    assert_eq!(table.enter_hooks(Screen::Title), vec![Hook::SpawnTitleScreen]);
    assert_eq!(table.enter_hooks(Screen::Gameplay), Vec::<Hook>::new());
    assert_eq!(table.exit_hooks(Screen::Title), Vec::<Hook>::new());
    assert_eq!(table.exit_hooks(Screen::Credits), vec![Hook::StopMusic]);
    assert_eq!(table.hooks_for_transition(Transition::Stay), Vec::<Hook>::new());
    assert_eq!(
        table.hooks_for_transition(Transition::Start { entered: Screen::Title }),
        vec![Hook::SpawnTitleScreen]
    );
    assert_eq!(
        table.hooks_for_transition(Transition::Switch {
            exited: Screen::Credits,
            entered: Screen::Credits
        }),
        vec![Hook::StopMusic, Hook::PlayCreditsMusic, Hook::SpawnCreditsScreen]
    );
}

#[test]
fn screens_register_their_hooks() {
    let mut table = HookTable::new();
    screen_runtime::screens::plugin(&mut table);
    assert_eq!(table.enter_hooks(Screen::Title), vec![Hook::SpawnTitleScreen]);
    assert_eq!(
        table.enter_hooks(Screen::Credits),
        vec![Hook::SpawnCreditsScreen, Hook::PlayCreditsMusic]
    );
    assert_eq!(table.exit_hooks(Screen::Credits), vec![Hook::StopMusic]);
    assert!(table.enter_hooks(Screen::Gameplay).is_empty());
    assert!(table.exit_hooks(Screen::Gameplay).is_empty());
    let mut title_only = HookTable::new();
    screen_runtime::screens::title::plugin(&mut title_only);
    assert_eq!(title_only.enter_hooks(Screen::Title), vec![Hook::SpawnTitleScreen]);
    assert!(title_only.enter_hooks(Screen::Credits).is_empty());
    let mut credits_only = HookTable::new();
    screen_runtime::screens::credits::plugin(&mut credits_only);
    assert!(credits_only.enter_hooks(Screen::Title).is_empty());
    assert_eq!(credits_only.exit_hooks(Screen::Credits), vec![Hook::StopMusic]);
}
