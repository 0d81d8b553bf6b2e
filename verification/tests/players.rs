use modtorio::error::{ServerError, StatusUpdateError};
use modtorio::game_event::EventType;
use modtorio::players::{i32_to_string, Players};
use modtorio::server_status::ServerStatus;
use modtorio::settings::network::SocketAddress;
use modtorio::status::{ExecutionStatus, InGameStatus, PeerState};
use modtorio::version::IntParseError;

fn addr() -> SocketAddress {
    SocketAddress::V4 { ip: 0x7f00_0001, port: 50000 }
}

#[test]
fn player_joins_through_the_connection_steps() {
    let mut players = Players::default();
    players.connection_accepted(addr(), 10);
    players.new_peer("1").expect("peer");
    players.peer_state_change("1", "InGame").expect("state");
    players.joined("alice", 20).expect("join");
    let list = players.get();
    assert_eq!(list.len(), 1);
    assert_eq!(list[0].username.as_deref(), Some("alice"));
    assert_eq!(list[0].peer_id, Some(1));
    assert_eq!(list[0].state, PeerState::InGame);
    assert_eq!(list[0].connection_time, 10);
    assert_eq!(list[0].join_time, Some(20));
    assert_eq!(list[0].leave_time, None);
}

#[test]
fn rejoining_player_is_updated_not_added() {
    let mut players = Players::default();
    players.connection_accepted(addr(), 10);
    players.new_peer("1").expect("peer");
    players.joined("alice", 20).expect("join");
    players.remove("alice", 30).expect("leave");
    assert_eq!(players.get()[0].state, PeerState::Disconnected);
    assert_eq!(players.get()[0].leave_time, Some(30));
    players.connection_accepted(addr(), 40);
    players.new_peer("2").expect("peer");
    players.peer_state_change("2", "InGame").expect("state");
    players.joined("alice", 50).expect("rejoin");
    let list = players.get();
    assert_eq!(list.len(), 1);
    assert_eq!(list[0].peer_id, Some(2));
    assert_eq!(list[0].connection_time, 40);
    assert_eq!(list[0].join_time, Some(50));
    assert_eq!(list[0].leave_time, None);
}

#[test]
fn joining_twice_while_connected_is_refused() {
    let mut players = Players::default();
    players.connection_accepted(addr(), 1);
    players.joined("alice", 2).expect("join");
    players.connection_accepted(addr(), 3);
    match players.joined("alice", 4) {
        Err(StatusUpdateError::Server(ServerError::PlayerAlreadyExists(name))) => assert_eq!(name, "alice"),
        other => panic!("unexpected result {:?}", other),
    }
    assert_eq!(players.get().len(), 1);
}

#[test]
fn player_errors() {
    let mut players = Players::default();
    match players.new_peer("1") {
        Err(StatusUpdateError::Server(ServerError::NoLastModifiedPlayer(0, 0))) => {}
        other => panic!("unexpected result {:?}", other),
    }
    match players.joined("x", 0) {
        Err(StatusUpdateError::Server(ServerError::NoLastModifiedPlayer(0, 0))) => {}
        other => panic!("unexpected result {:?}", other),
    }
    players.connection_accepted(addr(), 1);
    match players.new_peer("one") {
        Err(StatusUpdateError::InvalidPeerId(IntParseError::InvalidDigit)) => {}
        other => panic!("unexpected result {:?}", other),
    }
    match players.peer_state_change("007", "InGame") {
        Err(StatusUpdateError::Server(ServerError::NoSuchPlayer(id))) => assert_eq!(id, "7"),
        other => panic!("unexpected result {:?}", other),
    }
    players.new_peer("-3").expect("peer");
    match players.peer_state_change("-3", "Dancing") {
        Err(StatusUpdateError::UnknownPeerState(s)) => assert_eq!(s, "Dancing"),
        other => panic!("unexpected result {:?}", other),
    }
    match players.remove("nobody", 5) {
        Err(StatusUpdateError::Server(ServerError::NoSuchPlayer(n))) => assert_eq!(n, "nobody"),
        other => panic!("unexpected result {:?}", other),
    }
}

#[test]
fn signed_decimal_text() {
    assert_eq!(i32_to_string(0), "0");
    assert_eq!(i32_to_string(-42), "-42");
    assert_eq!(i32_to_string(i32::MIN), "-2147483648");
    assert_eq!(i32_to_string(i32::MAX), "2147483647");
}

#[test]
fn game_state_changes_drive_the_executable_status() {
    let mut status = ServerStatus::new_at(0);
    status.set_game_status(ExecutionStatus::Starting);
    let ready = EventType::GameStateChanged { from: InGameStatus::CreatingGame, to: InGameStatus::InGame };
    status.process_game_event(&ready, None, 1).expect("no players touched");
    assert_eq!(status.game_status(), ExecutionStatus::Running);
    assert_eq!(status.in_game_status(), InGameStatus::InGame);
    let save = EventType::SavingMap { filename: String::from("a.zip") };
    status.process_game_event(&save, None, 2).expect("no players touched");
    assert_eq!(status.in_game_status(), InGameStatus::InGameSavingMap);
    status.process_game_event(&EventType::SavingFinished, None, 3).expect("no players touched");
    assert_eq!(status.in_game_status(), InGameStatus::InGame);
    let closing = EventType::GameStateChanged { from: InGameStatus::InGame, to: InGameStatus::DisconnectingScheduled };
    status.process_game_event(&closing, None, 4).expect("no players touched");
    assert_eq!(status.game_status(), ExecutionStatus::ShuttingDown);
    status.process_exited_event(true);
    assert_eq!(status.game_status(), ExecutionStatus::Shutdown);
    status.process_exited_event(false);
    assert_eq!(status.game_status(), ExecutionStatus::Crashed);
}

#[test]
fn in_game_without_starting_keeps_status() {
    let mut status = ServerStatus::new_at(0);
    let ready = EventType::GameStateChanged { from: InGameStatus::CreatingGame, to: InGameStatus::InGame };
    status.process_game_event(&ready, None, 1).expect("no players touched");
    assert_eq!(status.game_status(), ExecutionStatus::Shutdown);
}

#[test]
fn player_events_update_status_players() {
    let mut status = ServerStatus::new_at(0);
    let accepted = EventType::ConnectionAccepted { address: String::from("127.0.0.1:50000") };
    match status.process_game_event(&accepted, None, 1) {
        Err(StatusUpdateError::InvalidAddress(a)) => assert_eq!(a, "127.0.0.1:50000"),
        other => panic!("unexpected result {:?}", other),
    }
    assert!(status.players().is_empty());
    status.process_game_event(&accepted, Some(addr()), 1).expect("accepted");
    status.process_game_event(&EventType::NewPeer { id: String::from("5") }, None, 2).expect("peer");
    status.process_game_event(&EventType::PlayerJoined { username: String::from("bob") }, None, 3).expect("join");
    let kicked = EventType::PlayerKicked {
        player: String::from("bob"),
        kicked_by: String::from("admin"),
        reason: String::from("afk"),
    };
    status.process_game_event(&kicked, None, 4).expect("kick");
    let players = status.players();
    assert_eq!(players.len(), 1);
    assert_eq!(players[0].state, PeerState::Disconnected);
    assert_eq!(players[0].leave_time, Some(4));
    let chat = EventType::Chat { player: String::from("bob"), message: String::from("hi") };
    status.process_game_event(&chat, None, 5).expect("nothing to do");
    status.process_game_event(&EventType::PlayerLeft { username: String::from("bob") }, None, 6).expect("leave");
    assert_eq!(status.players()[0].leave_time, Some(6));
    status.reset_started_at(7);
    assert_eq!(status.started_at(), 7);
    assert_eq!(status.players().len(), 1);
}
