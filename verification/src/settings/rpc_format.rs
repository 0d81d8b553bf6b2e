//! A server's settings in the structure of the remote control protocol's settings message.
use crate::error::SettingsError;
use crate::players::signed_decimal;
use crate::settings::allow_commands::AllowCommands;
use crate::settings::autosave::Autosave;
use crate::settings::information::{Information, InformationView};
use crate::settings::limit::{limit_of, limit_value, Limit};
use crate::settings::network::{
    default_bind_address, v6_octets, Network, RpcAddress, RpcSocketAddress, SocketAddress,
    LOCALHOST_V4,
};
use crate::settings::pause::Pause;
use crate::settings::publicity::{
    credential_of, Credential, CredentialView, PlayerLimit, PublicVisibility, PublicVisibilityView,
    Publicity, PublicityView,
};
use crate::settings::start::{Start, StartBehaviour, StartView};
use crate::settings::traffic::{SegmentSize, Upload};
use crate::settings::{ServerSettings, ServerSettingsView};
use crate::settings::limit::Range;
use crate::text::{clone_strings, texts};
use vstd::prelude::*;

verus! {

/// The `visibility` field of the settings message.
#[derive(Clone, Copy, Debug, PartialEq, Eq, Structural)]
pub struct RpcVisibility {
    /// Whether the server is public.
    pub public: bool,
    /// Whether the server is visible on the LAN.
    pub lan: bool,
}

/// The remote control protocol's settings message.
#[derive(Debug)]
pub struct RpcServerSettings {
    pub name: String,
    pub description: String,
    pub tags: Vec<String>,
    pub max_players: u64,
    pub visibility: Option<RpcVisibility>,
    pub username: String,
    pub password: String,
    pub token: String,
    pub game_password: String,
    pub require_user_verification: bool,
    pub max_upload_in_kilobytes_per_second: u64,
    pub max_upload_slots: u64,
    pub minimum_latency_in_ticks: u64,
    pub ignore_player_limit_for_returning_players: bool,
    /// `0` for yes, `1` for no and `2` for admins only.
    pub allow_commands: i32,
    pub autosave_interval: u64,
    pub autosave_slots: u64,
    pub afk_autokick_interval: u64,
    pub auto_pause: bool,
    pub only_admins_can_pause_the_game: bool,
    pub autosave_only_on_server: bool,
    pub non_blocking_saving: bool,
    pub minimum_segment_size: u64,
    pub minimum_segment_size_peer_count: u64,
    pub maximum_segment_size: u64,
    pub maximum_segment_size_peer_count: u64,
    pub bind: Option<RpcSocketAddress>,
    pub save_name: String,
    /// `0` to load the latest save, `1` a save file, `2` a scenario and `3` to create a game.
    pub start_behaviour: i32,
    pub auto_start: bool,
}

/// The meaning of a remote address.
pub enum RpcAddressView {
    V4(u32),
    V6(Seq<u8>),
}

/// The meaning of a remote socket address.
pub struct RpcSocketAddressView {
    pub port: u32,
    pub addr: Option<RpcAddressView>,
}

/// The meaning of an optional remote socket address.
pub open spec fn bind_view(b: Option<RpcSocketAddress>) -> Option<RpcSocketAddressView> {
    match b {
        None => None,
        Some(s) => Some(
            RpcSocketAddressView {
                port: s.port,
                addr: match s.addr {
                    None => None,
                    Some(RpcAddress::V4(ip)) => Some(RpcAddressView::V4(ip)),
                    Some(RpcAddress::V6(bytes)) => Some(RpcAddressView::V6(bytes@)),
                },
            },
        ),
    }
}

/// The meaning of an [`RpcServerSettings`], with its texts as character sequences.
pub struct RpcView {
    pub name: Seq<char>,
    pub description: Seq<char>,
    pub tags: Seq<Seq<char>>,
    pub max_players: u64,
    pub visibility: Option<RpcVisibility>,
    pub username: Seq<char>,
    pub password: Seq<char>,
    pub token: Seq<char>,
    pub game_password: Seq<char>,
    pub require_user_verification: bool,
    pub max_upload_in_kilobytes_per_second: u64,
    pub max_upload_slots: u64,
    pub minimum_latency_in_ticks: u64,
    pub ignore_player_limit_for_returning_players: bool,
    pub allow_commands: i32,
    pub autosave_interval: u64,
    pub autosave_slots: u64,
    pub afk_autokick_interval: u64,
    pub auto_pause: bool,
    pub only_admins_can_pause_the_game: bool,
    pub autosave_only_on_server: bool,
    pub non_blocking_saving: bool,
    pub minimum_segment_size: u64,
    pub minimum_segment_size_peer_count: u64,
    pub maximum_segment_size: u64,
    pub maximum_segment_size_peer_count: u64,
    pub bind: Option<RpcSocketAddressView>,
    pub save_name: Seq<char>,
    pub start_behaviour: i32,
    pub auto_start: bool,
}

impl View for RpcServerSettings {
    type V = RpcView;

    open spec fn view(&self) -> RpcView {
        RpcView {
            name: self.name@,
            description: self.description@,
            tags: texts(self.tags@),
            max_players: self.max_players,
            visibility: self.visibility,
            username: self.username@,
            password: self.password@,
            token: self.token@,
            game_password: self.game_password@,
            require_user_verification: self.require_user_verification,
            max_upload_in_kilobytes_per_second: self.max_upload_in_kilobytes_per_second,
            max_upload_slots: self.max_upload_slots,
            minimum_latency_in_ticks: self.minimum_latency_in_ticks,
            ignore_player_limit_for_returning_players: self.ignore_player_limit_for_returning_players,
            allow_commands: self.allow_commands,
            autosave_interval: self.autosave_interval,
            autosave_slots: self.autosave_slots,
            afk_autokick_interval: self.afk_autokick_interval,
            auto_pause: self.auto_pause,
            only_admins_can_pause_the_game: self.only_admins_can_pause_the_game,
            autosave_only_on_server: self.autosave_only_on_server,
            non_blocking_saving: self.non_blocking_saving,
            minimum_segment_size: self.minimum_segment_size,
            minimum_segment_size_peer_count: self.minimum_segment_size_peer_count,
            maximum_segment_size: self.maximum_segment_size,
            maximum_segment_size_peer_count: self.maximum_segment_size_peer_count,
            bind: bind_view(self.bind),
            save_name: self.save_name@,
            start_behaviour: self.start_behaviour,
            auto_start: self.auto_start,
        }
    }
}

/// The `allow_commands` setting that a message's integer stands for, if any.
pub open spec fn allow_commands_of_rpc(v: i32) -> Option<AllowCommands> {
    if v == 0 {
        Some(AllowCommands::Yes)
    } else if v == 1 {
        Some(AllowCommands::No)
    } else if v == 2 {
        Some(AllowCommands::AdminsOnly)
    } else {
        None
    }
}

/// The message's integer of an `allow_commands` setting.
pub open spec fn allow_commands_rpc_value(a: AllowCommands) -> i32 {
    match a {
        AllowCommands::Yes => 0,
        AllowCommands::No => 1,
        AllowCommands::AdminsOnly => 2,
    }
}

/// The start behaviour that a message's integer stands for, if any.
pub open spec fn start_behaviour_of_rpc(v: i32) -> Option<StartBehaviour> {
    if v == 0 {
        Some(StartBehaviour::LoadLatest)
    } else if v == 1 {
        Some(StartBehaviour::LoadFile)
    } else if v == 2 {
        Some(StartBehaviour::LoadScenario)
    } else if v == 3 {
        Some(StartBehaviour::Create)
    } else {
        None
    }
}

/// The message's integer of a start behaviour.
pub open spec fn start_behaviour_rpc_value(b: StartBehaviour) -> i32 {
    match b {
        StartBehaviour::LoadLatest => 0,
        StartBehaviour::LoadFile => 1,
        StartBehaviour::LoadScenario => 2,
        StartBehaviour::Create => 3,
    }
}

/// The publicity settings a message holds; a message without visibility is neither public nor
/// visible on the LAN.
pub open spec fn publicity_of_rpc(r: RpcView) -> PublicityView {
    let vis = match r.visibility {
        Some(v) => v,
        None => RpcVisibility { public: false, lan: false },
    };
    PublicityView {
        public: if vis.public {
            Some(
                PublicVisibilityView {
                    username: r.username,
                    credential: credential_of(r.password, r.token),
                },
            )
        } else {
            None
        },
        lan: vis.lan,
        require_user_verification: r.require_user_verification,
        player_limit: PlayerLimit {
            max: limit_of(r.max_players),
            ignore_for_returning: r.ignore_player_limit_for_returning_players,
            autokick: limit_of(r.afk_autokick_interval),
        },
        password: r.game_password,
    }
}

/// Whether an address is what a message's bind setting stands for.
pub open spec fn bind_address_matches(bind: Option<RpcSocketAddressView>, a: SocketAddress) -> bool {
    match bind {
        None => a == default_bind_address(),
        Some(b) => match b.addr {
            None => a == (SocketAddress::V4 { ip: LOCALHOST_V4, port: b.port as u16 }),
            Some(RpcAddressView::V4(ip)) => a == (SocketAddress::V4 { ip, port: b.port as u16 }),
            Some(RpcAddressView::V6(bytes)) => a matches SocketAddress::V6 { octets, port }
                && octets@ == v6_octets(bytes) && port == b.port as u16,
        },
    }
}

/// Whether settings are those a message holds, with the given `allow_commands` setting and start
/// behaviour.
pub open spec fn settings_of_rpc(
    r: RpcView,
    s: ServerSettingsView,
    a: AllowCommands,
    b: StartBehaviour,
) -> bool {
    &&& s.information == InformationView { name: r.name, description: r.description, tags: r.tags }
    &&& s.publicity == publicity_of_rpc(r)
    &&& s.autosave == Autosave {
        interval: r.autosave_interval,
        slots: r.autosave_slots,
        only_on_server: r.autosave_only_on_server,
        non_blocking: r.non_blocking_saving,
    }
    &&& s.pause == Pause { auto: r.auto_pause, only_admins: r.only_admins_can_pause_the_game }
    &&& s.allow_commands == a
    &&& s.network.upload == Upload {
        max: limit_of(r.max_upload_in_kilobytes_per_second),
        slots: limit_of(r.max_upload_slots),
    }
    &&& s.network.minimum_latency == r.minimum_latency_in_ticks
    &&& s.network.segment_size == SegmentSize {
        size: Range { min: r.minimum_segment_size, max: r.maximum_segment_size },
        peer_count: Range {
            min: r.minimum_segment_size_peer_count,
            max: r.maximum_segment_size_peer_count,
        },
    }
    &&& bind_address_matches(r.bind, s.network.bind_address)
    &&& s.start == StartView { save_name: r.save_name, behaviour: b, auto: r.auto_start }
}

/// The message's bind setting of an address.
pub open spec fn rpc_bind_of(a: SocketAddress) -> RpcSocketAddressView {
    match a {
        SocketAddress::V4 { ip, port } => RpcSocketAddressView {
            port: port as u32,
            addr: Some(RpcAddressView::V4(ip)),
        },
        SocketAddress::V6 { octets, port } => RpcSocketAddressView {
            port: port as u32,
            addr: Some(RpcAddressView::V6(octets@)),
        },
    }
}

/// A message with the given publicity settings written into it; the login fields are written
/// only for a public server, and only the field of its credential.
pub open spec fn publicity_into_rpc(p: PublicityView, r: RpcView) -> RpcView {
    let with_login = match p.public {
        Some(v) => match v.credential {
            CredentialView::Password(pw) => RpcView { username: v.username, password: pw, ..r },
            CredentialView::Token(t) => RpcView { username: v.username, token: t, ..r },
        },
        None => r,
    };
    RpcView {
        visibility: Some(RpcVisibility { public: p.public is Some, lan: p.lan }),
        require_user_verification: p.require_user_verification,
        max_players: limit_value(p.player_limit.max),
        ignore_player_limit_for_returning_players: p.player_limit.ignore_for_returning,
        afk_autokick_interval: limit_value(p.player_limit.autokick),
        game_password: p.password,
        ..with_login
    }
}

/// A message with the settings other than the information and publicity written into it.
pub open spec fn rest_into_rpc(s: ServerSettingsView, r: RpcView) -> RpcView {
    RpcView {
        autosave_interval: s.autosave.interval,
        autosave_slots: s.autosave.slots,
        autosave_only_on_server: s.autosave.only_on_server,
        non_blocking_saving: s.autosave.non_blocking,
        auto_pause: s.pause.auto,
        only_admins_can_pause_the_game: s.pause.only_admins,
        allow_commands: allow_commands_rpc_value(s.allow_commands),
        max_upload_in_kilobytes_per_second: limit_value(s.network.upload.max),
        max_upload_slots: limit_value(s.network.upload.slots),
        minimum_latency_in_ticks: s.network.minimum_latency,
        minimum_segment_size: s.network.segment_size.size.min,
        maximum_segment_size: s.network.segment_size.size.max,
        minimum_segment_size_peer_count: s.network.segment_size.peer_count.min,
        maximum_segment_size_peer_count: s.network.segment_size.peer_count.max,
        bind: Some(rpc_bind_of(s.network.bind_address)),
        save_name: s.start.save_name,
        start_behaviour: start_behaviour_rpc_value(s.start.behaviour),
        auto_start: s.start.auto,
        ..r
    }
}

/// A message with the given settings written into it.
pub open spec fn settings_into_rpc(s: ServerSettingsView, r: RpcView) -> RpcView {
    let r1 = RpcView {
        name: s.information.name,
        description: s.information.description,
        tags: s.information.tags,
        ..r
    };
    rest_into_rpc(s, publicity_into_rpc(s.publicity, r1))
}

/// Whether settings can be written into a settings message and read back unchanged: no limit is
/// a limit of zero (which reads back as no limit), a token credential is not empty (an empty one
/// reads back as a password), and a password credential is not written over a token (which is
/// kept and reads back as the credential).
pub open spec fn survives_rpc(s: ServerSettingsView, r: RpcView) -> bool {
    &&& s.publicity.player_limit.max != Limit::Limited(0)
    &&& s.publicity.player_limit.autokick != Limit::Limited(0)
    &&& s.network.upload.max != Limit::Limited(0)
    &&& s.network.upload.slots != Limit::Limited(0)
    &&& s.publicity.public matches Some(v) ==> match v.credential {
        CredentialView::Password(_) => r.token.len() == 0,
        CredentialView::Token(t) => t.len() > 0,
    }
}

/// Settings written into a settings message read back as the same settings, address and start
/// settings included, whenever no limit is zero and the credential is kept apart.
pub proof fn law_rpc_roundtrip(s: ServerSettingsView, r: RpcView)
    requires
        survives_rpc(s, r),
    ensures
        allow_commands_of_rpc(settings_into_rpc(s, r).allow_commands) == Some(s.allow_commands),
        start_behaviour_of_rpc(settings_into_rpc(s, r).start_behaviour) == Some(s.start.behaviour),
        settings_of_rpc(settings_into_rpc(s, r), s, s.allow_commands, s.start.behaviour),
{
    let w = settings_into_rpc(s, r);
    assert(publicity_of_rpc(w) == s.publicity);
    assert(w.tags == s.information.tags);
    match s.network.bind_address {
        SocketAddress::V4 { ip, port } => {
            assert((port as u32) as u16 == port);
        },
        SocketAddress::V6 { octets, port } => {
            assert((port as u32) as u16 == port);
            assert(v6_octets(octets@) =~= octets@);
        },
    }
}

/// The credential read from a password and a token.
fn read_credential(password: &String, token: &String) -> (r: Credential)
    ensures
        r@ == credential_of(password@, token@),
{
    if token.as_str().is_empty() {
        Credential::Password(password.clone())
    } else {
        Credential::Token(token.clone())
    }
}

/// The octets of an IPv6 address as a list.
fn octets_vec(octets: &[u8; 16]) -> (r: Vec<u8>)
    ensures
        r@ == octets@,
{
    let mut v: Vec<u8> = Vec::new();
    let mut i: usize = 0;
    while i < 16
        invariant
            i <= 16,
            octets@.len() == 16,
            v@ == octets@.take(i as int),
        decreases 16 - i,
    {
        v.push(octets[i]);
        assert(octets@.take(i + 1) =~= octets@.take(i as int).push(octets@[i as int]));
        i = i + 1;
    }
    assert(octets@.take(16) =~= octets@);
    v
}

impl ServerSettings {
    /// Reads a server's settings from a settings message. Fails with `UnexpectedValue` holding the
    /// integer's text when `allow_commands` is not one of its three values, or else when
    /// `start_behaviour` is not one of its four.
    pub fn from_rpc_format(rpc_format: &RpcServerSettings) -> (r: Result<Self, SettingsError>)
        ensures
            match allow_commands_of_rpc(rpc_format.allow_commands) {
                None => r matches Err(SettingsError::UnexpectedValue(m)) && m@ == signed_decimal(
                    rpc_format.allow_commands as int,
                ),
                Some(a) => match start_behaviour_of_rpc(rpc_format.start_behaviour) {
                    None => r matches Err(SettingsError::UnexpectedValue(m)) && m@ == signed_decimal(
                        rpc_format.start_behaviour as int,
                    ),
                    Some(b) => r matches Ok(s) && settings_of_rpc(rpc_format@, s@, a, b),
                },
            },
    {
        let allow_commands = match rpc_format.allow_commands {
            0 => AllowCommands::Yes,
            1 => AllowCommands::No,
            2 => AllowCommands::AdminsOnly,
            v => return Err(SettingsError::UnexpectedValue(crate::players::i32_to_string(v))),
        };
        let behaviour = match rpc_format.start_behaviour {
            0 => StartBehaviour::LoadLatest,
            1 => StartBehaviour::LoadFile,
            2 => StartBehaviour::LoadScenario,
            3 => StartBehaviour::Create,
            v => return Err(SettingsError::UnexpectedValue(crate::players::i32_to_string(v))),
        };
        let vis = match rpc_format.visibility {
            Some(v) => v,
            None => RpcVisibility { public: false, lan: false },
        };
        let publicity = Publicity {
            public: if vis.public {
                Some(
                    PublicVisibility {
                        username: rpc_format.username.clone(),
                        credential: read_credential(&rpc_format.password, &rpc_format.token),
                    },
                )
            } else {
                None
            },
            lan: vis.lan,
            require_user_verification: rpc_format.require_user_verification,
            player_limit: PlayerLimit {
                max: Limit::from_value(rpc_format.max_players),
                ignore_for_returning: rpc_format.ignore_player_limit_for_returning_players,
                autokick: Limit::from_value(rpc_format.afk_autokick_interval),
            },
            password: rpc_format.game_password.clone(),
        };
        let network = Network {
            upload: Upload {
                max: Limit::from_value(rpc_format.max_upload_in_kilobytes_per_second),
                slots: Limit::from_value(rpc_format.max_upload_slots),
            },
            minimum_latency: rpc_format.minimum_latency_in_ticks,
            segment_size: SegmentSize {
                size: Range {
                    min: rpc_format.minimum_segment_size,
                    max: rpc_format.maximum_segment_size,
                },
                peer_count: Range {
                    min: rpc_format.minimum_segment_size_peer_count,
                    max: rpc_format.maximum_segment_size_peer_count,
                },
            },
            bind_address: Network::bind_address_from_rpc(&rpc_format.bind),
        };
        Ok(
            ServerSettings {
                information: Information {
                    name: rpc_format.name.clone(),
                    description: rpc_format.description.clone(),
                    tags: clone_strings(&rpc_format.tags),
                },
                publicity,
                autosave: Autosave {
                    interval: rpc_format.autosave_interval,
                    slots: rpc_format.autosave_slots,
                    only_on_server: rpc_format.autosave_only_on_server,
                    non_blocking: rpc_format.non_blocking_saving,
                },
                pause: Pause {
                    auto: rpc_format.auto_pause,
                    only_admins: rpc_format.only_admins_can_pause_the_game,
                },
                allow_commands,
                network,
                start: Start {
                    save_name: rpc_format.save_name.clone(),
                    behaviour,
                    auto: rpc_format.auto_start,
                },
            },
        )
    }

    /// Writes these settings into a settings message.
    pub fn to_rpc_format(&self, rpc_format: &mut RpcServerSettings)
        ensures
            final(rpc_format)@ == settings_into_rpc(self@, old(rpc_format)@),
    {
        rpc_format.name = self.information.name.clone();
        rpc_format.description = self.information.description.clone();
        rpc_format.tags = clone_strings(&self.information.tags);
        write_publicity_rpc(&self.publicity, rpc_format);
        write_rest_rpc(self, rpc_format);
    }
}

/// Writes publicity settings into a settings message.
fn write_publicity_rpc(p: &Publicity, rpc_format: &mut RpcServerSettings)
    ensures
        final(rpc_format)@ == publicity_into_rpc(p@, old(rpc_format)@),
{
    rpc_format.visibility = Some(RpcVisibility { public: p.public.is_some(), lan: p.lan });
    match &p.public {
        Some(public) => {
            rpc_format.username = public.username.clone();
            match &public.credential {
                Credential::Password(password) => rpc_format.password = password.clone(),
                Credential::Token(token) => rpc_format.token = token.clone(),
            }
        },
        None => {},
    }
    rpc_format.require_user_verification = p.require_user_verification;
    rpc_format.max_players = p.player_limit.max.value();
    rpc_format.ignore_player_limit_for_returning_players = p.player_limit.ignore_for_returning;
    rpc_format.afk_autokick_interval = p.player_limit.autokick.value();
    rpc_format.game_password = p.password.clone();
}

/// Writes the settings other than the information and publicity into a settings message.
fn write_rest_rpc(s: &ServerSettings, rpc_format: &mut RpcServerSettings)
    ensures
        final(rpc_format)@ == rest_into_rpc(s@, old(rpc_format)@),
{
    rpc_format.autosave_interval = s.autosave.interval;
    rpc_format.autosave_slots = s.autosave.slots;
    rpc_format.autosave_only_on_server = s.autosave.only_on_server;
    rpc_format.non_blocking_saving = s.autosave.non_blocking;
    rpc_format.auto_pause = s.pause.auto;
    rpc_format.only_admins_can_pause_the_game = s.pause.only_admins;
    rpc_format.allow_commands = match s.allow_commands {
        AllowCommands::Yes => 0,
        AllowCommands::No => 1,
        AllowCommands::AdminsOnly => 2,
    };
    rpc_format.max_upload_in_kilobytes_per_second = s.network.upload.max.value();
    rpc_format.max_upload_slots = s.network.upload.slots.value();
    rpc_format.minimum_latency_in_ticks = s.network.minimum_latency;
    rpc_format.minimum_segment_size = s.network.segment_size.size.min;
    rpc_format.maximum_segment_size = s.network.segment_size.size.max;
    rpc_format.minimum_segment_size_peer_count = s.network.segment_size.peer_count.min;
    rpc_format.maximum_segment_size_peer_count = s.network.segment_size.peer_count.max;
    rpc_format.bind = Some(
        match s.network.bind_address {
            SocketAddress::V4 { ip, port } => RpcSocketAddress {
                port: port as u32,
                addr: Some(RpcAddress::V4(ip)),
            },
            SocketAddress::V6 { octets, port } => RpcSocketAddress {
                port: port as u32,
                addr: Some(RpcAddress::V6(octets_vec(&octets))),
            },
        },
    );
    rpc_format.save_name = s.start.save_name.clone();
    rpc_format.start_behaviour = match s.start.behaviour {
        StartBehaviour::LoadLatest => 0,
        StartBehaviour::LoadFile => 1,
        StartBehaviour::LoadScenario => 2,
        StartBehaviour::Create => 3,
    };
    rpc_format.auto_start = s.start.auto;
}

} // verus!
