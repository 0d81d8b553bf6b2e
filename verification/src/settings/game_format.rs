//! A server's settings in the structure of its `server-settings.json` file.
use crate::error::SettingsError;
use crate::text::texts;
use vstd::prelude::*;

verus! {

/// Conversion of a part of the settings to and from the `server-settings.json` structure.
pub trait GameFormatConversion where Self: Sized {
    /// Reads the part from a `server-settings.json` structure.
    fn from_game_format(game_format: &ServerSettingsGameFormat) -> Result<Self, SettingsError>;

    /// Writes the part into a `server-settings.json` structure.
    fn to_game_format(&self, game_format: &mut ServerSettingsGameFormat) -> Result<(), SettingsError>;
}

/// The `visibility` object of `server-settings.json`.
#[derive(Clone, Copy, Debug, PartialEq, Eq, Structural)]
pub struct VisibilityGameFormat {
    /// The `public` setting.
    pub public: bool,
    /// The `lan` setting.
    pub lan: bool,
}

impl Default for VisibilityGameFormat {
    fn default() -> (r: Self)
        ensures
            r == (VisibilityGameFormat { public: false, lan: false }),
    {
        VisibilityGameFormat { public: false, lan: false }
    }
}

/// A server's settings in the same structure as its `server-settings.json` file.
#[derive(Debug)]
pub struct ServerSettingsGameFormat {
    /// The `name` setting.
    pub name: String,
    /// The `description` setting.
    pub description: String,
    /// The `tags` setting.
    pub tags: Vec<String>,
    /// The `max_players` setting.
    pub max_players: u64,
    /// The `visibility` setting object.
    pub visibility: VisibilityGameFormat,
    /// The `username` setting.
    pub username: String,
    /// The `password` setting.
    pub password: String,
    /// The `token` setting.
    pub token: String,
    /// The `game_password` setting.
    pub game_password: String,
    /// The `require_user_verification` setting.
    pub require_user_verification: bool,
    /// The `max_upload_in_kilobytes_per_second` setting.
    pub max_upload_in_kilobytes_per_second: u64,
    /// The `max_upload_slots` setting.
    pub max_upload_slots: u64,
    /// The `minimum_latency_in_ticks` setting.
    pub minimum_latency_in_ticks: u64,
    /// The `ignore_player_limit_for_returning_players` setting.
    pub ignore_player_limit_for_returning_players: bool,
    /// The `allow_commands` setting.
    pub allow_commands: String,
    /// The `autosave_interval` setting.
    pub autosave_interval: u64,
    /// The `autosave_slots` setting.
    pub autosave_slots: u64,
    /// The `afk_autokick_interval` setting.
    pub afk_autokick_interval: u64,
    /// The `auto_pause` setting.
    pub auto_pause: bool,
    /// The `only_admins_can_pause_the_game` setting.
    pub only_admins_can_pause_the_game: bool,
    /// The `autosave_only_on_server` setting.
    pub autosave_only_on_server: bool,
    /// The `non_blocking_saving` setting.
    pub non_blocking_saving: bool,
    /// The `minimum_segment_size` setting.
    pub minimum_segment_size: u64,
    /// The `minimum_segment_size_peer_count` setting.
    pub minimum_segment_size_peer_count: u64,
    /// The `maximum_segment_size` setting.
    pub maximum_segment_size: u64,
    /// The `maximum_segment_size_peer_count` setting.
    pub maximum_segment_size_peer_count: u64,
}

/// The meaning of a [`ServerSettingsGameFormat`], with its texts as character sequences.
pub struct GameFormatView {
    pub name: Seq<char>,
    pub description: Seq<char>,
    pub tags: Seq<Seq<char>>,
    pub max_players: u64,
    pub visibility: VisibilityGameFormat,
    pub username: Seq<char>,
    pub password: Seq<char>,
    pub token: Seq<char>,
    pub game_password: Seq<char>,
    pub require_user_verification: bool,
    pub max_upload_in_kilobytes_per_second: u64,
    pub max_upload_slots: u64,
    pub minimum_latency_in_ticks: u64,
    pub ignore_player_limit_for_returning_players: bool,
    pub allow_commands: Seq<char>,
    pub autosave_interval: u64,
    pub autosave_slots: u64,
    pub afk_autokick_interval: u64,
    pub auto_pause: bool,
    pub only_admins_can_pause_the_game: bool,
    pub autosave_only_on_server: bool,
    pub non_blocking_saving: bool,
    pub minimum_segment_size: u64,
    pub minimum_segment_size_peer_count: u64,
    pub maximum_segment_size: u64,
    pub maximum_segment_size_peer_count: u64,
}

impl View for ServerSettingsGameFormat {
    type V = GameFormatView;

    open spec fn view(&self) -> GameFormatView {
        GameFormatView {
            name: self.name@,
            description: self.description@,
            tags: texts(self.tags@),
            max_players: self.max_players,
            visibility: self.visibility,
            username: self.username@,
            password: self.password@,
            token: self.token@,
            game_password: self.game_password@,
            require_user_verification: self.require_user_verification,
            max_upload_in_kilobytes_per_second: self.max_upload_in_kilobytes_per_second,
            max_upload_slots: self.max_upload_slots,
            minimum_latency_in_ticks: self.minimum_latency_in_ticks,
            ignore_player_limit_for_returning_players: self.ignore_player_limit_for_returning_players,
            allow_commands: self.allow_commands@,
            autosave_interval: self.autosave_interval,
            autosave_slots: self.autosave_slots,
            afk_autokick_interval: self.afk_autokick_interval,
            auto_pause: self.auto_pause,
            only_admins_can_pause_the_game: self.only_admins_can_pause_the_game,
            autosave_only_on_server: self.autosave_only_on_server,
            non_blocking_saving: self.non_blocking_saving,
            minimum_segment_size: self.minimum_segment_size,
            minimum_segment_size_peer_count: self.minimum_segment_size_peer_count,
            maximum_segment_size: self.maximum_segment_size,
            maximum_segment_size_peer_count: self.maximum_segment_size_peer_count,
        }
    }
}

/// The structure that a `server-settings.json` file with no settings reads as: empty texts and
/// lists, zeros and `false`.
pub open spec fn empty_game_format() -> GameFormatView {
    GameFormatView {
        name: Seq::empty(),
        description: Seq::empty(),
        tags: Seq::empty(),
        max_players: 0,
        visibility: VisibilityGameFormat { public: false, lan: false },
        username: Seq::empty(),
        password: Seq::empty(),
        token: Seq::empty(),
        game_password: Seq::empty(),
        require_user_verification: false,
        max_upload_in_kilobytes_per_second: 0,
        max_upload_slots: 0,
        minimum_latency_in_ticks: 0,
        ignore_player_limit_for_returning_players: false,
        allow_commands: Seq::empty(),
        autosave_interval: 0,
        autosave_slots: 0,
        afk_autokick_interval: 0,
        auto_pause: false,
        only_admins_can_pause_the_game: false,
        autosave_only_on_server: false,
        non_blocking_saving: false,
        minimum_segment_size: 0,
        minimum_segment_size_peer_count: 0,
        maximum_segment_size: 0,
        maximum_segment_size_peer_count: 0,
    }
}

impl Default for ServerSettingsGameFormat {
    fn default() -> (r: Self)
        ensures
            r@ == empty_game_format(),
    {
        let r = ServerSettingsGameFormat {
            name: String::new(),
            description: String::new(),
            tags: Vec::new(),
            max_players: 0,
            visibility: VisibilityGameFormat { public: false, lan: false },
            username: String::new(),
            password: String::new(),
            token: String::new(),
            game_password: String::new(),
            require_user_verification: false,
            max_upload_in_kilobytes_per_second: 0,
            max_upload_slots: 0,
            minimum_latency_in_ticks: 0,
            ignore_player_limit_for_returning_players: false,
            allow_commands: String::new(),
            autosave_interval: 0,
            autosave_slots: 0,
            afk_autokick_interval: 0,
            auto_pause: false,
            only_admins_can_pause_the_game: false,
            autosave_only_on_server: false,
            non_blocking_saving: false,
            minimum_segment_size: 0,
            minimum_segment_size_peer_count: 0,
            maximum_segment_size: 0,
            maximum_segment_size_peer_count: 0,
        };
        assert(texts(r.tags@) =~= Seq::empty());
        r
    }
}

} // verus!
