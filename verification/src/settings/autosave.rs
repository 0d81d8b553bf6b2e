//! A server's autosave settings.
use crate::settings::game_format::{GameFormatView, ServerSettingsGameFormat};
use crate::settings::store_format::{GameSettings, StoreView};
use vstd::prelude::*;

verus! {

/// A server's autosave settings.
#[derive(Clone, Copy, Debug, PartialEq, Eq, Structural)]
pub struct Autosave {
    /// The `autosave_interval` setting, in minutes. Defaults to 5.
    pub interval: u64,
    /// The `autosave_slots` setting. Defaults to 5.
    pub slots: u64,
    /// The `autosave_only_on_server` setting. Defaults to `true`.
    pub only_on_server: bool,
    /// The `non_blocking_saving` setting. Defaults to `false`.
    pub non_blocking: bool,
}

/// The stored integer of a flag.
pub open spec fn flag_value(b: bool) -> i64 {
    if b {
        1
    } else {
        0
    }
}

/// The stored integer of a flag.
pub fn flag_to_store(b: bool) -> (r: i64)
    ensures
        r == flag_value(b),
{
    if b {
        1
    } else {
        0
    }
}

impl Default for Autosave {
    fn default() -> (r: Self)
        ensures
            r == (Autosave { interval: 5, slots: 5, only_on_server: true, non_blocking: false }),
    {
        Autosave { interval: 5, slots: 5, only_on_server: true, non_blocking: false }
    }
}

impl Autosave {
    /// Returns the autosave settings of a `server-settings.json` structure.
    pub fn from_game_format(game_format: &ServerSettingsGameFormat) -> (r: Self)
        ensures
            r == (Autosave {
                interval: game_format.autosave_interval,
                slots: game_format.autosave_slots,
                only_on_server: game_format.autosave_only_on_server,
                non_blocking: game_format.non_blocking_saving,
            }),
    {
        Autosave {
            interval: game_format.autosave_interval,
            slots: game_format.autosave_slots,
            only_on_server: game_format.autosave_only_on_server,
            non_blocking: game_format.non_blocking_saving,
        }
    }

    /// Writes these settings into a `server-settings.json` structure.
    pub fn to_game_format(&self, game_format: &mut ServerSettingsGameFormat)
        ensures
            final(game_format)@ == (GameFormatView {
                autosave_interval: self.interval,
                autosave_slots: self.slots,
                autosave_only_on_server: self.only_on_server,
                non_blocking_saving: self.non_blocking,
                ..old(game_format)@
            }),
    {
        game_format.autosave_interval = self.interval;
        game_format.autosave_slots = self.slots;
        game_format.autosave_only_on_server = self.only_on_server;
        game_format.non_blocking_saving = self.non_blocking;
    }

    /// Replaces these settings with others read from a settings file.
    pub fn merge_game_settings(&mut self, other: Self)
        ensures
            *final(self) == other,
    {
        *self = other
    }

    /// Returns the autosave settings of a stored game's settings.
    pub fn from_store_format(store_format: &GameSettings) -> (r: Self)
        ensures
            r == (Autosave {
                interval: store_format.autosave_interval as u64,
                slots: store_format.autosave_slots as u64,
                only_on_server: store_format.autosave_only_on_server != 0,
                non_blocking: store_format.non_blocking_saving != 0,
            }),
    {
        Autosave {
            interval: store_format.autosave_interval as u64,
            slots: store_format.autosave_slots as u64,
            only_on_server: store_format.autosave_only_on_server != 0,
            non_blocking: store_format.non_blocking_saving != 0,
        }
    }

    /// Writes these settings into a stored game's settings.
    pub fn to_store_format(&self, store_format: &mut GameSettings)
        ensures
            final(store_format)@ == (StoreView {
                autosave_interval: self.interval as i64,
                autosave_slots: self.slots as i64,
                autosave_only_on_server: flag_value(self.only_on_server),
                non_blocking_saving: flag_value(self.non_blocking),
                ..old(store_format)@
            }),
    {
        store_format.autosave_interval = self.interval as i64;
        store_format.autosave_slots = self.slots as i64;
        store_format.autosave_only_on_server = flag_to_store(self.only_on_server);
        store_format.non_blocking_saving = flag_to_store(self.non_blocking);
    }
}

} // verus!
