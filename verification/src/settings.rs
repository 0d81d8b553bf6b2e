//! A server's settings, and their conversions to and from the formats in which they are stored.

pub mod limit;
pub mod game_format;
pub mod start;
pub mod store_format;
pub mod allow_commands;
pub mod autosave;
pub mod pause;
pub mod information;
pub mod traffic;
pub mod publicity;
pub mod network;
pub mod rpc_format;

use crate::error::SettingsError;
use crate::settings::allow_commands::{
    allow_commands_named, allow_commands_text, law_allow_commands_roundtrip, AllowCommands,
};
use crate::settings::autosave::{flag_value, Autosave};
use crate::settings::game_format::{
    GameFormatConversion, GameFormatView, ServerSettingsGameFormat,
};
use crate::settings::information::{
    stored_tags, tags_column, Information, InformationView, TAGS_SPLITTER,
};
use crate::settings::limit::{limit_value, Limit};
use crate::settings::network::{default_bind_address, network_of, traffic_of_network, Network};
use crate::settings::pause::Pause;
use crate::settings::publicity::{
    publicity_into_game_format, publicity_into_store_format, publicity_of_game_format,
    publicity_of_store_format, CredentialView, Publicity, PublicityView,
};
use crate::settings::start::{Start, StartBehaviour, StartView};
use crate::settings::store_format::{GameSettings, StoreFormatConversion, StoreView};
use crate::settings::traffic::{
    traffic_into_game_format, traffic_into_store_format, traffic_of_game_format,
    traffic_of_store_format,
};
use crate::text::law_split_join;
use vstd::prelude::*;

verus! {

/// All of a server's settings.
#[derive(Debug)]
pub struct ServerSettings {
    /// The information settings.
    pub information: Information,
    /// The publicity settings.
    pub publicity: Publicity,
    /// The autosave settings.
    pub autosave: Autosave,
    /// The pause settings.
    pub pause: Pause,
    /// The `allow_commands` setting.
    pub allow_commands: AllowCommands,
    /// The network settings.
    pub network: Network,
    /// The start settings.
    pub start: Start,
}

/// The meaning of a [`ServerSettings`].
pub struct ServerSettingsView {
    pub information: InformationView,
    pub publicity: PublicityView,
    pub autosave: Autosave,
    pub pause: Pause,
    pub allow_commands: AllowCommands,
    pub network: Network,
    pub start: StartView,
}

impl View for ServerSettings {
    type V = ServerSettingsView;

    open spec fn view(&self) -> ServerSettingsView {
        ServerSettingsView {
            information: self.information@,
            publicity: self.publicity@,
            autosave: self.autosave,
            pause: self.pause,
            allow_commands: self.allow_commands,
            network: self.network,
            start: self.start@,
        }
    }
}

/// The start settings of a server whose settings come from a settings file.
pub open spec fn default_start() -> StartView {
    StartView { save_name: Seq::empty(), behaviour: StartBehaviour::LoadLatest, auto: false }
}

/// The settings that a `server-settings.json` structure holds, with the given `allow_commands`
/// setting; the structure holds no start settings and no address.
pub open spec fn settings_of_game_format(g: GameFormatView, a: AllowCommands) -> ServerSettingsView {
    ServerSettingsView {
        information: InformationView { name: g.name, description: g.description, tags: g.tags },
        publicity: publicity_of_game_format(g),
        autosave: Autosave {
            interval: g.autosave_interval,
            slots: g.autosave_slots,
            only_on_server: g.autosave_only_on_server,
            non_blocking: g.non_blocking_saving,
        },
        pause: Pause { auto: g.auto_pause, only_admins: g.only_admins_can_pause_the_game },
        allow_commands: a,
        network: network_of(traffic_of_game_format(g), default_bind_address()),
        start: default_start(),
    }
}

/// A `server-settings.json` structure with the given settings written into it.
pub open spec fn settings_into_game_format(s: ServerSettingsView, g: GameFormatView) -> GameFormatView {
    let g1 = GameFormatView {
        name: s.information.name,
        description: s.information.description,
        tags: s.information.tags,
        ..g
    };
    let g2 = publicity_into_game_format(s.publicity, g1);
    let g3 = GameFormatView {
        autosave_interval: s.autosave.interval,
        autosave_slots: s.autosave.slots,
        autosave_only_on_server: s.autosave.only_on_server,
        non_blocking_saving: s.autosave.non_blocking,
        auto_pause: s.pause.auto,
        only_admins_can_pause_the_game: s.pause.only_admins,
        allow_commands: allow_commands_text(s.allow_commands),
        ..g2
    };
    traffic_into_game_format(traffic_of_network(s.network), g3)
}

/// The settings that a stored game's settings hold, with the given `allow_commands` setting; the
/// store holds no address.
pub open spec fn settings_of_store_format(st: StoreView, a: AllowCommands) -> ServerSettingsView {
    ServerSettingsView {
        information: InformationView {
            name: st.name,
            description: st.description,
            tags: stored_tags(st.tags),
        },
        publicity: publicity_of_store_format(st),
        autosave: Autosave {
            interval: st.autosave_interval as u64,
            slots: st.autosave_slots as u64,
            only_on_server: st.autosave_only_on_server != 0,
            non_blocking: st.non_blocking_saving != 0,
        },
        pause: Pause {
            auto: st.auto_pause != 0,
            only_admins: st.only_admins_can_pause_the_game != 0,
        },
        allow_commands: a,
        network: network_of(traffic_of_store_format(st), default_bind_address()),
        start: StartView {
            save_name: st.save_name,
            behaviour: st.start_behaviour,
            auto: st.auto_start,
        },
    }
}

/// A stored game's settings with the given settings written into them.
pub open spec fn settings_into_store_format(s: ServerSettingsView, st: StoreView) -> StoreView {
    let s1 = StoreView {
        name: s.information.name,
        description: s.information.description,
        tags: tags_column(s.information.tags),
        ..st
    };
    let s2 = publicity_into_store_format(s.publicity, s1);
    let s3 = StoreView {
        autosave_interval: s.autosave.interval as i64,
        autosave_slots: s.autosave.slots as i64,
        autosave_only_on_server: flag_value(s.autosave.only_on_server),
        non_blocking_saving: flag_value(s.autosave.non_blocking),
        auto_pause: flag_value(s.pause.auto),
        only_admins_can_pause_the_game: flag_value(s.pause.only_admins),
        allow_commands: allow_commands_text(s.allow_commands),
        ..s2
    };
    let s4 = traffic_into_store_format(traffic_of_network(s.network), s3);
    StoreView {
        save_name: s.start.save_name,
        start_behaviour: s.start.behaviour,
        auto_start: s.start.auto,
        ..s4
    }
}

impl ServerSettings {
    /// Reads a server's settings from a `server-settings.json` structure. Fails exactly when the
    /// `allow_commands` field holds none of its three values.
    pub fn from_game_format(game_format: &ServerSettingsGameFormat) -> (r: Result<Self, SettingsError>)
        ensures
            match allow_commands_named(game_format@.allow_commands) {
                Some(a) => r matches Ok(s) && s@ == settings_of_game_format(game_format@, a),
                None => r matches Err(SettingsError::UnexpectedValue(m))
                    && m@ == game_format@.allow_commands,
            },
    {
        let allow_commands = match AllowCommands::from_game_format(game_format) {
            Ok(a) => a,
            Err(e) => return Err(e),
        };
        let publicity = match Publicity::from_game_format(game_format) {
            Ok(p) => p,
            Err(e) => return Err(e),
        };
        Ok(
            ServerSettings {
                information: Information::from_game_format(game_format),
                publicity,
                autosave: Autosave::from_game_format(game_format),
                pause: Pause::from_game_format(game_format),
                allow_commands,
                network: Network::from_game_format(game_format),
                start: Start::default(),
            },
        )
    }

    /// Writes these settings into a `server-settings.json` structure.
    pub fn to_game_format(&self, game_format: &mut ServerSettingsGameFormat)
        ensures
            final(game_format)@ == settings_into_game_format(self@, old(game_format)@),
    {
        self.information.to_game_format(game_format);
        let _ = self.publicity.to_game_format(game_format);
        self.autosave.to_game_format(game_format);
        self.pause.to_game_format(game_format);
        self.allow_commands.to_game_format(game_format);
        self.network.to_game_format(game_format);
    }

    /// Reads a server's settings from a stored game's settings. Fails exactly when the stored
    /// `allow_commands` column holds none of its three values.
    pub fn from_store_format(store_format: &GameSettings) -> (r: Result<Self, SettingsError>)
        ensures
            match allow_commands_named(store_format@.allow_commands) {
                Some(a) => r matches Ok(s) && s@ == settings_of_store_format(store_format@, a),
                None => r matches Err(SettingsError::UnexpectedValue(m))
                    && m@ == store_format@.allow_commands,
            },
    {
        let allow_commands = match AllowCommands::from_store_format(store_format) {
            Ok(a) => a,
            Err(e) => return Err(e),
        };
        let publicity = match Publicity::from_store_format(store_format) {
            Ok(p) => p,
            Err(e) => return Err(e),
        };
        Ok(
            ServerSettings {
                information: Information::from_store_format(store_format),
                publicity,
                autosave: Autosave::from_store_format(store_format),
                pause: Pause::from_store_format(store_format),
                allow_commands,
                network: Network::from_store_format(store_format),
                start: Start::from_store_format(store_format),
            },
        )
    }

    /// Writes these settings into a stored game's settings.
    pub fn to_store_format(&self, store_format: &mut GameSettings)
        ensures
            final(store_format)@ == settings_into_store_format(self@, old(store_format)@),
    {
        self.information.to_store_format(store_format);
        let _ = self.publicity.to_store_format(store_format);
        self.autosave.to_store_format(store_format);
        self.pause.to_store_format(store_format);
        self.allow_commands.to_store_format(store_format);
        self.network.to_store_format(store_format);
        self.start.to_store_format(store_format);
    }
}

/// Whether settings can be written into a `server-settings.json` structure and read back
/// unchanged: no limit is a limit of zero (which reads back as no limit), a token credential is
/// not empty (an empty one reads back as a password), and a password credential is not written
/// over a token (which is kept and reads back as the credential).
pub open spec fn survives_game_format(s: ServerSettingsView, g: GameFormatView) -> bool {
    &&& s.publicity.player_limit.max != Limit::Limited(0)
    &&& s.publicity.player_limit.autokick != Limit::Limited(0)
    &&& s.network.upload.max != Limit::Limited(0)
    &&& s.network.upload.slots != Limit::Limited(0)
    &&& s.publicity.public matches Some(v) ==> match v.credential {
        CredentialView::Password(_) => g.token.len() == 0,
        CredentialView::Token(t) => t.len() > 0,
    }
}

/// Whether settings can be written into a stored game's settings and read back unchanged: as
/// for a `server-settings.json` structure, and besides there is at least one tag and no tag
/// holds a comma (the character that joins them).
pub open spec fn survives_store_format(s: ServerSettingsView, st: StoreView) -> bool {
    &&& s.publicity.player_limit.max != Limit::Limited(0)
    &&& s.publicity.player_limit.autokick != Limit::Limited(0)
    &&& s.network.upload.max != Limit::Limited(0)
    &&& s.network.upload.slots != Limit::Limited(0)
    &&& s.publicity.public matches Some(v) ==> match v.credential {
        CredentialView::Password(_) => st.token.len() == 0,
        CredentialView::Token(t) => t.len() > 0,
    }
    &&& s.information.tags.len() > 0
    &&& forall|i: int, k: int|
        0 <= i < s.information.tags.len() && 0 <= k < s.information.tags[i].len()
            ==> s.information.tags[i][k] != TAGS_SPLITTER
}

/// Settings written into a `server-settings.json` structure read back as the same settings,
/// except for what the structure does not hold (the start settings and the address, which read
/// back as their defaults), whenever no limit is zero and the credential is kept apart.
pub proof fn law_game_format_roundtrip(s: ServerSettingsView, g: GameFormatView)
    requires
        survives_game_format(s, g),
    ensures
        allow_commands_named(settings_into_game_format(s, g).allow_commands) == Some(s.allow_commands),
        settings_of_game_format(settings_into_game_format(s, g), s.allow_commands) == (ServerSettingsView {
            network: Network { bind_address: default_bind_address(), ..s.network },
            start: default_start(),
            ..s
        }),
{
    law_allow_commands_roundtrip(s.allow_commands);
    let r = settings_of_game_format(settings_into_game_format(s, g), s.allow_commands);
    assert(r.information == s.information);
    assert(r.publicity == s.publicity);
}

/// A signed store column holds an unsigned setting without loss.
proof fn lemma_store_integer(x: u64)
    ensures
        (x as i64) as u64 == x,
{
    assert((x as i64) as u64 == x) by (bit_vector);
}

/// Settings written into a stored game's settings read back as the same settings, except for
/// the address, which the store does not hold, whenever no limit is zero, the credential is kept
/// apart, and the tags are not empty and hold no comma.
pub proof fn law_store_format_roundtrip(s: ServerSettingsView, st: StoreView)
    requires
        survives_store_format(s, st),
    ensures
        allow_commands_named(settings_into_store_format(s, st).allow_commands) == Some(s.allow_commands),
        settings_of_store_format(settings_into_store_format(s, st), s.allow_commands) == (ServerSettingsView {
            network: Network { bind_address: default_bind_address(), ..s.network },
            ..s
        }),
{
    law_allow_commands_roundtrip(s.allow_commands);
    law_split_join(s.information.tags, TAGS_SPLITTER);
    lemma_store_integer(s.autosave.interval);
    lemma_store_integer(s.autosave.slots);
    lemma_store_integer(s.network.minimum_latency);
    lemma_store_integer(s.network.segment_size.size.min);
    lemma_store_integer(s.network.segment_size.size.max);
    lemma_store_integer(s.network.segment_size.peer_count.min);
    lemma_store_integer(s.network.segment_size.peer_count.max);
    lemma_store_integer(limit_value(s.network.upload.max));
    lemma_store_integer(limit_value(s.network.upload.slots));
    lemma_store_integer(limit_value(s.publicity.player_limit.max));
    lemma_store_integer(limit_value(s.publicity.player_limit.autokick));
    let r = settings_of_store_format(settings_into_store_format(s, st), s.allow_commands);
    assert(r.information == s.information);
    assert(r.publicity == s.publicity);
    assert(r.network.segment_size == s.network.segment_size);
    assert(r.network.upload == s.network.upload);
    assert(r.start == s.start);
}

} // verus!
