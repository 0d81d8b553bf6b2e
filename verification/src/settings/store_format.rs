//! A server's settings in the structure in which the program store holds them.
use crate::error::SettingsError;
use crate::settings::start::StartBehaviour;
use vstd::prelude::*;

verus! {

/// Conversion of a part of the settings to and from the program store's structure.
pub trait StoreFormatConversion where Self: Sized {
    /// Reads the part from the store's structure.
    fn from_store_format(store_format: &GameSettings) -> Result<Self, SettingsError>;

    /// Writes the part into the store's structure.
    fn to_store_format(&self, store_format: &mut GameSettings) -> Result<(), SettingsError>;
}

/// A game's settings as the program store holds them: flags as integers, tags joined by commas.
#[derive(Debug)]
pub struct GameSettings {
    /// The store ID of the game these settings belong to.
    pub game: i64,
    /// The stored `name` column.
    pub name: String,
    /// The stored `description` column.
    pub description: String,
    /// The stored `tags` column.
    pub tags: String,
    /// The stored `max_players` column.
    pub max_players: i64,
    /// The stored `public_visibility` column.
    pub public_visibility: i64,
    /// The stored `lan_visibility` column.
    pub lan_visibility: i64,
    /// The stored `username` column.
    pub username: String,
    /// The stored `password` column.
    pub password: String,
    /// The stored `token` column.
    pub token: String,
    /// The stored `game_password` column.
    pub game_password: String,
    /// The stored `require_user_verification` column.
    pub require_user_verification: i64,
    /// The stored `max_upload_in_kilobytes_per_second` column.
    pub max_upload_in_kilobytes_per_second: i64,
    /// The stored `max_upload_slots` column.
    pub max_upload_slots: i64,
    /// The stored `minimum_latency_in_ticks` column.
    pub minimum_latency_in_ticks: i64,
    /// The stored `ignore_player_limit_for_returning_players` column.
    pub ignore_player_limit_for_returning_players: i64,
    /// The stored `allow_commands` column.
    pub allow_commands: String,
    /// The stored `autosave_interval` column.
    pub autosave_interval: i64,
    /// The stored `autosave_slots` column.
    pub autosave_slots: i64,
    /// The stored `afk_autokick_interval` column.
    pub afk_autokick_interval: i64,
    /// The stored `auto_pause` column.
    pub auto_pause: i64,
    /// The stored `only_admins_can_pause_the_game` column.
    pub only_admins_can_pause_the_game: i64,
    /// The stored `autosave_only_on_server` column.
    pub autosave_only_on_server: i64,
    /// The stored `non_blocking_saving` column.
    pub non_blocking_saving: i64,
    /// The stored `minimum_segment_size` column.
    pub minimum_segment_size: i64,
    /// The stored `minimum_segment_size_peer_count` column.
    pub minimum_segment_size_peer_count: i64,
    /// The stored `maximum_segment_size` column.
    pub maximum_segment_size: i64,
    /// The stored `maximum_segment_size_peer_count` column.
    pub maximum_segment_size_peer_count: i64,
    /// The stored `save_name` column.
    pub save_name: String,
    /// The stored `start_behaviour` column.
    pub start_behaviour: StartBehaviour,
    /// The stored `auto_start` column.
    pub auto_start: bool,
}

/// The meaning of a [`GameSettings`], with its texts as character sequences.
pub struct StoreView {
    pub game: i64,
    pub name: Seq<char>,
    pub description: Seq<char>,
    pub tags: Seq<char>,
    pub max_players: i64,
    pub public_visibility: i64,
    pub lan_visibility: i64,
    pub username: Seq<char>,
    pub password: Seq<char>,
    pub token: Seq<char>,
    pub game_password: Seq<char>,
    pub require_user_verification: i64,
    pub max_upload_in_kilobytes_per_second: i64,
    pub max_upload_slots: i64,
    pub minimum_latency_in_ticks: i64,
    pub ignore_player_limit_for_returning_players: i64,
    pub allow_commands: Seq<char>,
    pub autosave_interval: i64,
    pub autosave_slots: i64,
    pub afk_autokick_interval: i64,
    pub auto_pause: i64,
    pub only_admins_can_pause_the_game: i64,
    pub autosave_only_on_server: i64,
    pub non_blocking_saving: i64,
    pub minimum_segment_size: i64,
    pub minimum_segment_size_peer_count: i64,
    pub maximum_segment_size: i64,
    pub maximum_segment_size_peer_count: i64,
    pub save_name: Seq<char>,
    pub start_behaviour: StartBehaviour,
    pub auto_start: bool,
}

impl View for GameSettings {
    type V = StoreView;

    open spec fn view(&self) -> StoreView {
        StoreView {
            game: self.game,
            name: self.name@,
            description: self.description@,
            tags: self.tags@,
            max_players: self.max_players,
            public_visibility: self.public_visibility,
            lan_visibility: self.lan_visibility,
            username: self.username@,
            password: self.password@,
            token: self.token@,
            game_password: self.game_password@,
            require_user_verification: self.require_user_verification,
            max_upload_in_kilobytes_per_second: self.max_upload_in_kilobytes_per_second,
            max_upload_slots: self.max_upload_slots,
            minimum_latency_in_ticks: self.minimum_latency_in_ticks,
            ignore_player_limit_for_returning_players: self.ignore_player_limit_for_returning_players,
            allow_commands: self.allow_commands@,
            autosave_interval: self.autosave_interval,
            autosave_slots: self.autosave_slots,
            afk_autokick_interval: self.afk_autokick_interval,
            auto_pause: self.auto_pause,
            only_admins_can_pause_the_game: self.only_admins_can_pause_the_game,
            autosave_only_on_server: self.autosave_only_on_server,
            non_blocking_saving: self.non_blocking_saving,
            minimum_segment_size: self.minimum_segment_size,
            minimum_segment_size_peer_count: self.minimum_segment_size_peer_count,
            maximum_segment_size: self.maximum_segment_size,
            maximum_segment_size_peer_count: self.maximum_segment_size_peer_count,
            save_name: self.save_name@,
            start_behaviour: self.start_behaviour,
            auto_start: self.auto_start,
        }
    }
}

/// Stored settings with empty texts, zeros, `false` and the default start behaviour.
pub open spec fn empty_store_format() -> StoreView {
    StoreView {
        game: 0,
        name: Seq::empty(),
        description: Seq::empty(),
        tags: Seq::empty(),
        max_players: 0,
        public_visibility: 0,
        lan_visibility: 0,
        username: Seq::empty(),
        password: Seq::empty(),
        token: Seq::empty(),
        game_password: Seq::empty(),
        require_user_verification: 0,
        max_upload_in_kilobytes_per_second: 0,
        max_upload_slots: 0,
        minimum_latency_in_ticks: 0,
        ignore_player_limit_for_returning_players: 0,
        allow_commands: Seq::empty(),
        autosave_interval: 0,
        autosave_slots: 0,
        afk_autokick_interval: 0,
        auto_pause: 0,
        only_admins_can_pause_the_game: 0,
        autosave_only_on_server: 0,
        non_blocking_saving: 0,
        minimum_segment_size: 0,
        minimum_segment_size_peer_count: 0,
        maximum_segment_size: 0,
        maximum_segment_size_peer_count: 0,
        save_name: Seq::empty(),
        start_behaviour: StartBehaviour::LoadLatest,
        auto_start: false,
    }
}

impl Default for GameSettings {
    fn default() -> (r: Self)
        ensures
            r@ == empty_store_format(),
    {
        GameSettings {
            game: 0,
            name: String::new(),
            description: String::new(),
            tags: String::new(),
            max_players: 0,
            public_visibility: 0,
            lan_visibility: 0,
            username: String::new(),
            password: String::new(),
            token: String::new(),
            game_password: String::new(),
            require_user_verification: 0,
            max_upload_in_kilobytes_per_second: 0,
            max_upload_slots: 0,
            minimum_latency_in_ticks: 0,
            ignore_player_limit_for_returning_players: 0,
            allow_commands: String::new(),
            autosave_interval: 0,
            autosave_slots: 0,
            afk_autokick_interval: 0,
            auto_pause: 0,
            only_admins_can_pause_the_game: 0,
            autosave_only_on_server: 0,
            non_blocking_saving: 0,
            minimum_segment_size: 0,
            minimum_segment_size_peer_count: 0,
            maximum_segment_size: 0,
            maximum_segment_size_peer_count: 0,
            save_name: String::new(),
            start_behaviour: StartBehaviour::LoadLatest,
            auto_start: false,
        }
    }
}

} // verus!
