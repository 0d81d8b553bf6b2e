//! A server's settings on pausing the game.
use crate::settings::autosave::{flag_to_store, flag_value};
use crate::settings::game_format::{GameFormatView, ServerSettingsGameFormat};
use crate::settings::store_format::{GameSettings, StoreView};
use vstd::prelude::*;

verus! {

/// A server's settings on pausing the game.
#[derive(Clone, Copy, Debug, PartialEq, Eq, Structural)]
pub struct Pause {
    /// The `auto_pause` setting. Defaults to `true`.
    pub auto: bool,
    /// The `only_admins_can_pause_the_game` setting. Defaults to `true`.
    pub only_admins: bool,
}

impl Default for Pause {
    fn default() -> (r: Self)
        ensures
            r == (Pause { auto: true, only_admins: true }),
    {
        Pause { auto: true, only_admins: true }
    }
}

impl Pause {
    /// Returns the pause settings of a `server-settings.json` structure.
    pub fn from_game_format(game_format: &ServerSettingsGameFormat) -> (r: Self)
        ensures
            r == (Pause {
                auto: game_format.auto_pause,
                only_admins: game_format.only_admins_can_pause_the_game,
            }),
    {
        Pause { auto: game_format.auto_pause, only_admins: game_format.only_admins_can_pause_the_game }
    }

    /// Writes these settings into a `server-settings.json` structure.
    pub fn to_game_format(&self, game_format: &mut ServerSettingsGameFormat)
        ensures
            final(game_format)@ == (GameFormatView {
                auto_pause: self.auto,
                only_admins_can_pause_the_game: self.only_admins,
                ..old(game_format)@
            }),
    {
        game_format.auto_pause = self.auto;
        game_format.only_admins_can_pause_the_game = self.only_admins;
    }

    /// Replaces these settings with others read from a settings file.
    pub fn merge_game_settings(&mut self, other: Self)
        ensures
            *final(self) == other,
    {
        *self = other
    }

    /// Returns the pause settings of a stored game's settings.
    pub fn from_store_format(store_format: &GameSettings) -> (r: Self)
        ensures
            r == (Pause {
                auto: store_format.auto_pause != 0,
                only_admins: store_format.only_admins_can_pause_the_game != 0,
            }),
    {
        Pause {
            auto: store_format.auto_pause != 0,
            only_admins: store_format.only_admins_can_pause_the_game != 0,
        }
    }

    /// Writes these settings into a stored game's settings.
    pub fn to_store_format(&self, store_format: &mut GameSettings)
        ensures
            final(store_format)@ == (StoreView {
                auto_pause: flag_value(self.auto),
                only_admins_can_pause_the_game: flag_value(self.only_admins),
                ..old(store_format)@
            }),
    {
        store_format.auto_pause = flag_to_store(self.auto);
        store_format.only_admins_can_pause_the_game = flag_to_store(self.only_admins);
    }
}

} // verus!
