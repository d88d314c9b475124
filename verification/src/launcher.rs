//! The page around the play area: one button starts a game or returns to
//! the one underway, and a game's reset button ends it.
use vstd::prelude::*;
use slab::Slab;
use crate::registry::{
    registry_contains, registry_insert, registry_new, registry_remove, registry_vacant_key,
    slab_keys, slab_next_key,
};

verus! {

/// A message to the page.
#[derive(Debug, PartialEq, Eq)]
pub enum AppMsg {
    /// The start button was pressed.
    SpawnGameInstance,
    /// The game filed under this key asked to be reset.
    ResetGameInstance(usize),
}

/// What the page asks its surroundings to do after a message, in order.
#[derive(Debug, PartialEq, Eq)]
pub enum AppEffect {
    /// Give the input focus to the game filed under this key.
    FocusGame(usize),
    /// Start a game in a new container, filed under this key; its reset
    /// button sends `AppMsg::ResetGameInstance` with this key.
    StartGame(usize),
    /// Remove the game filed under this key, with its container.
    EndGame(usize),
    /// Show this text on the start button.
    SetStartButton(String),
}

/// An effect as mathematical values.
pub enum AppEffectView {
    FocusGame(usize),
    StartGame(usize),
    EndGame(usize),
    SetStartButton(Seq<char>),
}

impl View for AppEffect {
    type V = AppEffectView;

    open spec fn view(&self) -> AppEffectView {
        match self {
            AppEffect::FocusGame(k) => AppEffectView::FocusGame(*k),
            AppEffect::StartGame(k) => AppEffectView::StartGame(*k),
            AppEffect::EndGame(k) => AppEffectView::EndGame(*k),
            AppEffect::SetStartButton(s) => AppEffectView::SetStartButton(s@),
        }
    }
}

/// The views of a list of effects.
pub open spec fn app_effects_view(effects: Seq<AppEffect>) -> Seq<AppEffectView> {
    effects.map_values(|e: AppEffect| e@)
}

/// The state of the page, as mathematical values.
pub struct AppModelView {
    /// Keys of the games that are running.
    pub games: Set<usize>,
    /// The key the next game will be filed under.
    pub next_game_key: usize,
    /// Whether a game is underway.
    pub game_underway: bool,
    /// The start button's text as last recorded.
    pub game_button_text: Seq<char>,
}

impl AppModelView {
    /// What the page always satisfies: a game is underway exactly when one
    /// game runs, and then it is the one filed under key 0; with none
    /// underway, the next game goes under key 0 again.
    pub open spec fn wf(self) -> bool {
        &&& self.games.finite()
        &&& if self.game_underway {
            self.games == Set::<usize>::empty().insert(0)
        } else {
            self.games == Set::<usize>::empty() && self.next_game_key == 0
        }
    }
}

/// The page: at most one game at a time.
pub struct AppModel {
    apps: Slab<()>,
    game_underway: bool,
    game_button_text: String,
}

impl View for AppModel {
    type V = AppModelView;

    closed spec fn view(&self) -> AppModelView {
        AppModelView {
            games: slab_keys(self.apps),
            next_game_key: slab_next_key(self.apps),
            game_underway: self.game_underway,
            game_button_text: self.game_button_text@,
        }
    }
}

impl AppModel {
    /// What the page always satisfies (see `AppModelView::wf`).
    pub open spec fn wf(&self) -> bool {
        self@.wf()
    }

    /// The page before any game was started.
    pub fn create() -> (app: AppModel)
        ensures
            app.wf(),
            app@.games == Set::<usize>::empty(),
            app@.next_game_key == 0,
            !app@.game_underway,
            app@.game_button_text == "Start Game"@,
    {
        AppModel {
            apps: registry_new(),
            game_underway: false,
            game_button_text: String::from_str("Start Game"),
        }
    }

    /// Whether a game is underway.
    pub fn game_underway(&self) -> (r: bool)
        ensures
            r == self@.game_underway,
    {
        self.game_underway
    }

    /// The start button's text as last recorded.
    pub fn game_button_text(&self) -> (r: &String)
        ensures
            r@ == self@.game_button_text,
    {
        &self.game_button_text
    }

    /// Whether the game filed under `key` is running.
    pub fn has_game(&self, key: usize) -> (r: bool)
        ensures
            r == self@.games.contains(key),
    {
        registry_contains(&self.apps, key)
    }

    /// Handles a message; returns what the surroundings must do, in order.
    /// The start button starts a game when none is underway and otherwise
    /// returns the focus to the game underway, which is the one under key 0.
    /// A reset ends the game and brings back the "Start Game" button.
    pub fn update(&mut self, msg: AppMsg) -> (effects: Vec<AppEffect>)
        requires
            old(self).wf(),
            msg matches AppMsg::ResetGameInstance(key) ==> old(self)@.games.contains(key),
        ensures
            final(self).wf(),
            final(self)@.game_underway == (msg is SpawnGameInstance),
            match msg {
                AppMsg::SpawnGameInstance => {
                    &&& final(self)@.game_button_text == "Continue Game"@
                    &&& final(self)@.games == Set::<usize>::empty().insert(0)
                    &&& if old(self)@.game_underway {
                        &&& app_effects_view(effects@) == seq![AppEffectView::FocusGame(0)]
                        &&& final(self)@.next_game_key == old(self)@.next_game_key
                    } else {
                        app_effects_view(effects@) == seq![
                            AppEffectView::StartGame(0),
                            AppEffectView::SetStartButton("Continue Game"@),
                        ]
                    }
                },
                AppMsg::ResetGameInstance(key) => {
                    &&& final(self)@.game_button_text == old(self)@.game_button_text
                    &&& final(self)@.games == Set::<usize>::empty()
                    &&& app_effects_view(effects@) == seq![
                        AppEffectView::EndGame(key),
                        AppEffectView::SetStartButton("Start Game"@),
                    ]
                },
            },
    {
        let mut effects: Vec<AppEffect> = Vec::new();
        match msg {
            AppMsg::SpawnGameInstance => {
                self.game_button_text = String::from_str("Continue Game");
                if self.game_underway {
                    effects.push(AppEffect::FocusGame(0));
                } else {
                    let key = registry_vacant_key(&self.apps);
                    effects.push(AppEffect::StartGame(key));
                    registry_insert(&mut self.apps);
                    self.game_underway = true;
                    effects.push(AppEffect::SetStartButton(String::from_str("Continue Game")));
                }
            },
            AppMsg::ResetGameInstance(key) => {
                registry_remove(&mut self.apps, key);
                effects.push(AppEffect::EndGame(key));
                self.game_underway = false;
                effects.push(AppEffect::SetStartButton(String::from_str("Start Game")));
            },
        }
        assert(self@.games =~= Set::<usize>::empty().insert(0) || self@.games =~= Set::<
            usize,
        >::empty());
        effects
    }
}

} // verus!
