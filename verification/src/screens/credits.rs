//! The credits screen, reached from the title screen, and the music that plays
//! while it is shown.

use vstd::prelude::*;
use crate::hooks::{Hook, HookTable};
use crate::lifecycle::{AssetHandle, Entity, LoadState, PlayMusic};
use crate::screens::{Screen, ScreenState};
use crate::theme::{ButtonAction, UiRoot, Widget};

verus! {

/// Registers the credits screen's hooks: on entering, its user interface and
/// then its music; on leaving, the end of the music.
pub fn plugin(hooks: &mut HookTable)
    ensures
        final(hooks).entered() == old(hooks).entered().push(
            (Screen::Credits, Hook::SpawnCreditsScreen),
        ).push((Screen::Credits, Hook::PlayCreditsMusic)),
        final(hooks).exited() == old(hooks).exited().push((Screen::Credits, Hook::StopMusic)),
{
    hooks.on_enter(Screen::Credits, Hook::SpawnCreditsScreen);
    hooks.on_enter(Screen::Credits, Hook::PlayCreditsMusic);
    hooks.on_exit(Screen::Credits, Hook::StopMusic);
}

/// The credits screen's elements, top to bottom.
pub open spec fn credits_widgets() -> Seq<Widget> {
    seq![
        Widget::Header("Made by"),
        Widget::Label("Joe Shmoe - Implemented aligator wrestling AI"),
        Widget::Label("Jane Doe - Made the music for the alien invasion"),
        Widget::Header("Assets"),
        Widget::Label(
            "Bevy logo - All rights reserved by the Bevy Foundation. Permission granted for splash screen use when unmodified.",
        ),
        Widget::Label("Ducky sprite - CC0 by Caz Creates Games"),
        Widget::Label("Button SFX - CC0 by Jaszunio15"),
        Widget::Label("Music - CC BY 3.0 by Kevin MacLeod"),
        Widget::Button("Back", ButtonAction::EnterTitle),
    ]
}

/// The credits screen's user interface, bound to the credits screen.
pub fn spawn_credits_screen() -> (root: UiRoot)
    ensures
        root.scope == Screen::Credits,
        root.children@ == credits_widgets(),
{
    let mut children: Vec<Widget> = Vec::new();
    children.push(Widget::Header("Made by"));
    children.push(Widget::Label("Joe Shmoe - Implemented aligator wrestling AI"));
    children.push(Widget::Label("Jane Doe - Made the music for the alien invasion"));
    children.push(Widget::Header("Assets"));
    children.push(
        Widget::Label(
            "Bevy logo - All rights reserved by the Bevy Foundation. Permission granted for splash screen use when unmodified.",
        ),
    );
    children.push(Widget::Label("Ducky sprite - CC0 by Caz Creates Games"));
    children.push(Widget::Label("Button SFX - CC0 by Jaszunio15"));
    children.push(Widget::Label("Music - CC BY 3.0 by Kevin MacLeod"));
    children.push(Widget::Button("Back", ButtonAction::EnterTitle));
    proof {
        assert(children@ =~= credits_widgets());
    }
    UiRoot { scope: Screen::Credits, children }
}

/// The press of "Back": asks for the title screen.
pub fn enter_title_screen(next_screen: &mut ScreenState)
    ensures
        final(next_screen).pending() == Some(Screen::Title),
        final(next_screen).current() == old(next_screen).current(),
        final(next_screen).started() == old(next_screen).started(),
{
    next_screen.request_transition(Screen::Title);
}

/// The music of the credits screen: the asset and, while it plays, the
/// identity of the one playback.
#[derive(Clone, Copy, Debug, PartialEq, Eq)]
pub struct CreditsMusic {
    music: AssetHandle,
    entity: Option<Entity>,
}

/// The asset that the credits screen plays.
pub fn credits_music_path() -> (path: &'static str)
    ensures
        path@ == "audio/music/Monkeys Spinning Monkeys.ogg"@,
{
    "audio/music/Monkeys Spinning Monkeys.ogg"
}

impl CreditsMusic {
    /// The asset handle of this binding.
    pub closed spec fn music(&self) -> AssetHandle {
        self.music
    }

    /// The live playback, if there is one.
    pub closed spec fn entity(&self) -> Option<Entity> {
        self.entity
    }

    /// A binding to `music` with no live playback.
    pub fn from_world(music: AssetHandle) -> (binding: Self)
        ensures
            binding.music() == music,
            binding.entity() is None,
    {
        CreditsMusic { music, entity: None }
    }

    pub fn handle(&self) -> (h: AssetHandle)
        ensures
            h == self.music(),
    {
        self.music
    }

    pub fn live_entity(&self) -> (e: Option<Entity>)
        ensures
            e == self.entity(),
    {
        self.entity
    }

    /// Takes over the loader's report on the asset. The live playback is
    /// untouched.
    pub fn record_load_state(&mut self, state: LoadState)
        ensures
            final(self).music() == (AssetHandle { id: old(self).music().id, state }),
            final(self).entity() == old(self).entity(),
    {
        self.music.state = state;
    }

    /// Whether entering the screen creates a playback: none is live and the
    /// asset is resolved.
    pub open spec fn should_play(&self) -> bool {
        self.entity() is None && self.music().resolved()
    }
}

/// Enter hook. Where no playback is live and the asset is resolved, binds the
/// identity `reserved` and asks for a looping playback under it. Otherwise
/// nothing happens: a playback that is live stays the only one, and an
/// unresolved asset is never played.
pub fn play_credits_music(music: &mut CreditsMusic, reserved: Entity) -> (request: Option<PlayMusic>)
    ensures
        final(music).music() == old(music).music(),
        old(music).should_play() ==> final(music).entity() == Some(reserved) && request == Some(
            PlayMusic { entity: reserved, source: old(music).music() },
        ),
        !old(music).should_play() ==> final(music).entity() == old(music).entity()
            && request is None,
{
    if music.entity.is_none() && music.music.is_resolved() {
        music.entity = Some(reserved);
        Some(PlayMusic { entity: reserved, source: music.music })
    } else {
        None
    }
}

/// Exit hook. Clears the binding's reference and hands out the playback to
/// destroy, with everything it owns. Without a live playback nothing happens.
pub fn stop_music(music: &mut CreditsMusic) -> (despawn: Option<Entity>)
    ensures
        despawn == old(music).entity(),
        final(music).entity() is None,
        final(music).music() == old(music).music(),
{
    music.entity.take()
}

} // verus!
