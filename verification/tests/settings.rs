use modtorio::error::SettingsError;
use modtorio::settings::allow_commands::AllowCommands;
use modtorio::settings::autosave::Autosave;
use modtorio::settings::game_format::{GameFormatConversion, ServerSettingsGameFormat, VisibilityGameFormat};
use modtorio::settings::information::Information;
use modtorio::settings::limit::{Limit, Range};
use modtorio::settings::network::{Network, RpcAddress, RpcSocketAddress, SocketAddress, DEFAULT_LISTEN_PORT};
use modtorio::settings::pause::Pause;
use modtorio::settings::publicity::{Credential, Publicity};
use modtorio::settings::start::{Start, StartBehaviour};
use modtorio::settings::store_format::{GameSettings, StoreFormatConversion};
use modtorio::settings::traffic::{SegmentSize, Traffic, Upload};
use modtorio::settings::ServerSettings;

fn test_game_format() -> ServerSettingsGameFormat {
    let mut g = ServerSettingsGameFormat::default();
    g.name = String::from("test");
    g.description = String::from("test");
    g.tags = vec![String::from("1"), String::from("2")];
    g.max_players = 0;
    g.visibility = VisibilityGameFormat { public: true, lan: true };
    g.username = String::from("test");
    g.password = String::from("test");
    g.token = String::from("test");
    g.game_password = String::from("test");
    g.require_user_verification = true;
    g.max_upload_in_kilobytes_per_second = 0;
    g.max_upload_slots = 5;
    g.minimum_latency_in_ticks = 0;
    g.ignore_player_limit_for_returning_players = false;
    g.allow_commands = String::from("admins-only");
    g.autosave_interval = 5;
    g.autosave_slots = 10;
    g.afk_autokick_interval = 0;
    g.auto_pause = true;
    g.only_admins_can_pause_the_game = true;
    g.autosave_only_on_server = true;
    g.non_blocking_saving = true;
    g.minimum_segment_size = 25;
    g.minimum_segment_size_peer_count = 20;
    g.maximum_segment_size = 100;
    g.maximum_segment_size_peer_count = 10;
    g
}

#[test]
fn from_game_format() {
    let obj = ServerSettings::from_game_format(&test_game_format()).expect("failed to read settings");

    assert_eq!(obj.information.name, "test");
    assert_eq!(obj.information.description, "test");
    assert_eq!(obj.information.tags, vec![String::from("1"), String::from("2")]);

    assert!(obj.publicity.lan);
    match &obj.publicity.public {
        Some(p) => {
            assert_eq!(p.username, "test");
            match &p.credential {
                Credential::Token(t) => assert_eq!(t, "test"),
                other => panic!("unexpected credential {:?}", other),
            }
        }
        None => panic!("server should be public"),
    }
    assert_eq!(obj.publicity.password, "test");
    assert_eq!(obj.publicity.player_limit.max, Limit::Unlimited);
    assert_eq!(obj.publicity.player_limit.autokick, Limit::Unlimited);
    assert!(!obj.publicity.player_limit.ignore_for_returning);
    assert!(obj.publicity.require_user_verification);

    assert_eq!(obj.autosave, Autosave { interval: 5, slots: 10, only_on_server: true, non_blocking: true });
    assert_eq!(obj.pause, Pause { auto: true, only_admins: true });
    assert_eq!(obj.allow_commands, AllowCommands::AdminsOnly);

    assert_eq!(obj.network.upload, Upload { max: Limit::Unlimited, slots: Limit::Limited(5) });
    assert_eq!(obj.network.minimum_latency, 0);
    assert_eq!(
        obj.network.segment_size,
        SegmentSize { size: Range { min: 25, max: 100 }, peer_count: Range { min: 20, max: 10 } }
    );
    match obj.network.bind_address {
        SocketAddress::V4 { ip, port } => {
            assert_eq!(ip, 0x7f00_0001);
            assert_eq!(port, DEFAULT_LISTEN_PORT);
        }
        other => panic!("unexpected address {:?}", other),
    }
    assert_eq!(obj.start.behaviour, StartBehaviour::LoadLatest);
    assert!(!obj.start.auto);
}

#[test]
fn unexpected_allow_commands_is_an_error() {
    let mut g = test_game_format();
    g.allow_commands = String::from("sometimes");
    match ServerSettings::from_game_format(&g) {
        Err(SettingsError::UnexpectedValue(v)) => assert_eq!(v, "sometimes"),
        other => panic!("unexpected result {:?}", other.map(|_| ())),
    }
}

#[test]
fn game_format_roundtrip() {
    let original = ServerSettings::from_game_format(&test_game_format()).expect("failed to read settings");
    let mut written = ServerSettingsGameFormat::default();
    original.to_game_format(&mut written);
    let read = ServerSettings::from_game_format(&written).expect("failed to read written settings");
    assert_eq!(read.information.tags, original.information.tags);
    assert_eq!(read.autosave, original.autosave);
    assert_eq!(read.pause, original.pause);
    assert_eq!(read.allow_commands, original.allow_commands);
    assert_eq!(read.network.upload, original.network.upload);
    assert_eq!(written.token, "test");
    assert_eq!(written.username, "test");
    assert_eq!(written.max_upload_slots, 5);
}

#[test]
fn store_format_roundtrip_and_tags() {
    let mut settings = ServerSettings::from_game_format(&test_game_format()).expect("failed to read settings");
    settings.start = Start { save_name: String::from("world"), behaviour: StartBehaviour::LoadFile, auto: true };
    let mut stored = GameSettings::default();
    settings.to_store_format(&mut stored);
    assert_eq!(stored.tags, "1,2");
    assert_eq!(stored.public_visibility, 1);
    assert_eq!(stored.allow_commands, "admins-only");
    assert_eq!(stored.save_name, "world");
    let read = ServerSettings::from_store_format(&stored).expect("failed to read stored settings");
    assert_eq!(read.information.tags, vec![String::from("1"), String::from("2")]);
    assert_eq!(read.start.save_name, "world");
    assert_eq!(read.start.behaviour, StartBehaviour::LoadFile);
    assert!(read.start.auto);
    assert_eq!(read.autosave, settings.autosave);
    assert_eq!(read.network.segment_size, settings.network.segment_size);
}

#[test]
fn stored_empty_tags_read_as_one_empty_tag() {
    let stored = GameSettings { allow_commands: String::from("true"), ..GameSettings::default() };
    let info = Information::from_store_format(&stored);
    assert_eq!(info.tags, vec![String::new()]);
    let mut back = GameSettings::default();
    Information { name: String::new(), description: String::new(), tags: vec![] }.to_store_format(&mut back);
    assert_eq!(back.tags, "");
}

#[test]
fn defaults() {
    let info = Information::default();
    assert_eq!(info.name, "A Factorio server");
    assert_eq!(info.description, "A Factorio server");
    assert!(info.tags.is_empty());
    let p = Publicity::default();
    assert!(p.lan && p.require_user_verification);
    assert_eq!(p.player_limit.autokick, Limit::Limited(5));
    assert_eq!(Autosave::default(), Autosave { interval: 5, slots: 5, only_on_server: true, non_blocking: false });
    assert_eq!(Pause::default(), Pause { auto: true, only_admins: true });
    assert_eq!(AllowCommands::default(), AllowCommands::AdminsOnly);
    let t = Traffic::default();
    assert_eq!(t.upload.slots, Limit::Limited(5));
    assert_eq!(t.segment_size.peer_count, Range { min: 20, max: 10 });
}

#[test]
fn limit_values() {
    assert_eq!(Limit::from_value(0), Limit::Unlimited);
    assert_eq!(Limit::from_value(7), Limit::Limited(7));
    assert_eq!(Limit::Unlimited.value(), 0);
    assert_eq!(Limit::Limited(9).value(), 9);
    assert_eq!(Limit::from_value(Limit::Limited(0).value()), Limit::Unlimited);
}

#[test]
fn publicity_credentials() {
    let mut g = test_game_format();
    g.token = String::new();
    let p = Publicity::from_game_format(&g).expect("never fails");
    match p.public.expect("public").credential {
        Credential::Password(pw) => assert_eq!(pw, "test"),
        other => panic!("unexpected credential {:?}", other),
    }
    g.visibility.public = false;
    assert!(Publicity::from_game_format(&g).expect("never fails").public.is_none());
    let mut stored = GameSettings::default();
    let p = Publicity::from_store_format(&stored).expect("never fails");
    assert!(p.public.is_none());
    stored.public_visibility = 1;
    stored.token = String::from("tok");
    match Publicity::from_store_format(&stored).expect("never fails").public.expect("public").credential {
        Credential::Token(t) => assert_eq!(t, "tok"),
        other => panic!("unexpected credential {:?}", other),
    }
}

#[test]
fn start_behaviour_names() {
    assert_eq!(StartBehaviour::from_name("LoadFile"), Some(StartBehaviour::LoadFile));
    assert_eq!(StartBehaviour::from_name("loadfile"), None);
    assert_eq!(StartBehaviour::Create.to_string(), "Create");
}

#[test]
fn bind_address_from_rpc() {
    assert!(matches!(
        Network::bind_address_from_rpc(&None),
        SocketAddress::V4 { ip: 0x7f00_0001, port: DEFAULT_LISTEN_PORT }
    ));
    let v4 = Some(RpcSocketAddress { port: 0x1_0539, addr: Some(RpcAddress::V4(0x0a00_0001)) });
    assert!(matches!(Network::bind_address_from_rpc(&v4), SocketAddress::V4 { ip: 0x0a00_0001, port: 1337 }));
    let none = Some(RpcSocketAddress { port: 80, addr: None });
    assert!(matches!(Network::bind_address_from_rpc(&none), SocketAddress::V4 { ip: 0x7f00_0001, port: 80 }));
    let v6 = Some(RpcSocketAddress { port: 443, addr: Some(RpcAddress::V6(vec![1, 2, 3])) });
    match Network::bind_address_from_rpc(&v6) {
        SocketAddress::V6 { octets, port } => {
            assert_eq!(port, 443);
            assert_eq!(octets, [1, 2, 3, 0, 0, 0, 0, 0, 0, 0, 0, 0, 0, 0, 0, 0]);
        }
        other => panic!("unexpected address {:?}", other),
    }
    let long = Some(RpcSocketAddress { port: 1, addr: Some(RpcAddress::V6((0..20).collect())) });
    match Network::bind_address_from_rpc(&long) {
        SocketAddress::V6 { octets, .. } => assert_eq!(octets[15], 15),
        other => panic!("unexpected address {:?}", other),
    }
}

fn empty_rpc() -> modtorio::settings::rpc_format::RpcServerSettings {
    modtorio::settings::rpc_format::RpcServerSettings {
        name: String::new(),
        description: String::new(),
        tags: vec![],
        max_players: 0,
        visibility: None,
        username: String::new(),
        password: String::new(),
        token: String::new(),
        game_password: String::new(),
        require_user_verification: false,
        max_upload_in_kilobytes_per_second: 0,
        max_upload_slots: 0,
        minimum_latency_in_ticks: 0,
        ignore_player_limit_for_returning_players: false,
        allow_commands: 0,
        autosave_interval: 0,
        autosave_slots: 0,
        afk_autokick_interval: 0,
        auto_pause: false,
        only_admins_can_pause_the_game: false,
        autosave_only_on_server: false,
        non_blocking_saving: false,
        minimum_segment_size: 0,
        minimum_segment_size_peer_count: 0,
        maximum_segment_size: 0,
        maximum_segment_size_peer_count: 0,
        bind: None,
        save_name: String::new(),
        start_behaviour: 0,
        auto_start: false,
    }
}

#[test]
fn rpc_format_roundtrip() {
    let mut settings = ServerSettings::from_game_format(&test_game_format()).expect("failed to read settings");
    settings.start = Start { save_name: String::from("scenario"), behaviour: StartBehaviour::LoadScenario, auto: true };
    settings.network.bind_address = SocketAddress::V6 { octets: [0, 0, 0, 0, 0, 0, 0, 0, 0, 0, 0, 0, 0, 0, 0, 1], port: 4000 };
    let mut rpc = empty_rpc();
    settings.to_rpc_format(&mut rpc);
    assert_eq!(rpc.allow_commands, 2);
    assert_eq!(rpc.start_behaviour, 2);
    assert_eq!(rpc.token, "test");
    let read = ServerSettings::from_rpc_format(&rpc).expect("failed to read message");
    assert_eq!(read.information.tags, settings.information.tags);
    assert_eq!(read.start.save_name, "scenario");
    assert_eq!(read.start.behaviour, StartBehaviour::LoadScenario);
    assert_eq!(read.allow_commands, AllowCommands::AdminsOnly);
    match read.network.bind_address {
        SocketAddress::V6 { octets, port } => {
            assert_eq!(port, 4000);
            assert_eq!(octets[15], 1);
        }
        other => panic!("unexpected address {:?}", other),
    }
}

#[test]
fn rpc_format_errors_and_defaults() {
    let mut rpc = empty_rpc();
    rpc.allow_commands = 7;
    rpc.start_behaviour = -1;
    match ServerSettings::from_rpc_format(&rpc) {
        Err(SettingsError::UnexpectedValue(v)) => assert_eq!(v, "7"),
        other => panic!("unexpected result {:?}", other.map(|_| ())),
    }
    rpc.allow_commands = 1;
    match ServerSettings::from_rpc_format(&rpc) {
        Err(SettingsError::UnexpectedValue(v)) => assert_eq!(v, "-1"),
        other => panic!("unexpected result {:?}", other.map(|_| ())),
    }
    rpc.start_behaviour = 3;
    let read = ServerSettings::from_rpc_format(&rpc).expect("valid message");
    assert!(read.publicity.public.is_none());
    assert!(!read.publicity.lan);
    assert_eq!(read.start.behaviour, StartBehaviour::Create);
    assert!(matches!(read.network.bind_address, SocketAddress::V4 { ip: 0x7f00_0001, port: DEFAULT_LISTEN_PORT }));
}
