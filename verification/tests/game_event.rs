use modtorio::error::GameEventError;
use modtorio::game_event::{EventType, GameEvent};
use modtorio::status::InGameStatus;
use regex::Regex;

fn parse(line: &str) -> EventType {
    EventType::from_str(line).expect("line failed to parse")
}

#[test]
fn factorio_initialised_event() {
    match parse("   0.000 Factorio initialised") {
        EventType::GameStateChanged { from, to } => {
            assert_eq!(from, InGameStatus::Initialising);
            assert_eq!(to, InGameStatus::Ready);
        }
        other => panic!("unexpected event {:?}", other),
    }
}

#[test]
fn game_state_changed_event() {
    let line = "   1.234 Info ServerMultiplayerManager.cpp:706: mapTick(-1) changing state from(CreatingGame) to(InGame)";
    match parse(line) {
        EventType::GameStateChanged { from, to } => {
            assert_eq!(from, InGameStatus::CreatingGame);
            assert_eq!(to, InGameStatus::InGame);
        }
        other => panic!("unexpected event {:?}", other),
    }
}

#[test]
fn game_state_changed_unknown_state_is_no_event() {
    let line = "changing state from(Bogus) to(InGame)";
    match EventType::from_str(line) {
        Err(GameEventError::NoParser(l)) => assert_eq!(l, line),
        other => panic!("unexpected result {:?}", other),
    }
}

#[test]
fn connection_events() {
    match parse("Info ServerMultiplayerManager.cpp:1110: Replying to connectionRequest for address(IP ADDR:({127.0.0.1:50000})).") {
        EventType::ConnectionAccepted { address } => assert_eq!(address, "127.0.0.1:50000"),
        other => panic!("unexpected event {:?}", other),
    }
    match parse("Info ServerMultiplayerManager.cpp:1110: Refusing connection for address (IP ADDR:({10.0.0.2:1234})), username (bob). UserVerificationMissing") {
        EventType::RefusingConnection { address, username, reason } => {
            assert_eq!(address, "10.0.0.2:1234");
            assert_eq!(username, "bob");
            assert_eq!(reason, "UserVerificationMissing");
        }
        other => panic!("unexpected event {:?}", other),
    }
}

#[test]
fn peer_events() {
    match parse("Info ServerSynchronizer.cpp:579: adding peer(1) success(true).") {
        EventType::NewPeer { id } => assert_eq!(id, "1"),
        other => panic!("unexpected event {:?}", other),
    }
    match parse("Info ServerMultiplayerManager.cpp:759: removing peer(2).") {
        EventType::PeerRemoved { id } => assert_eq!(id, "2"),
        other => panic!("unexpected event {:?}", other),
    }
    match parse("Info ServerMultiplayerManager.cpp:1054: received stateChanged peerID(1) oldState(ConnectedDownloadingMap) newState(ConnectedLoadingMap)") {
        EventType::PeerStateChanged { peer_id, old_state, new_state } => {
            assert_eq!(peer_id, "1");
            assert_eq!(old_state, "ConnectedDownloadingMap");
            assert_eq!(new_state, "ConnectedLoadingMap");
        }
        other => panic!("unexpected event {:?}", other),
    }
}

#[test]
fn player_events() {
    match parse("2020-01-01 00:00:00 [JOIN] alice joined the game") {
        EventType::PlayerJoined { username } => assert_eq!(username, "alice"),
        other => panic!("unexpected event {:?}", other),
    }
    match parse("2020-01-01 00:00:00 [LEAVE] alice left the game") {
        EventType::PlayerLeft { username } => assert_eq!(username, "alice"),
        other => panic!("unexpected event {:?}", other),
    }
    match parse("2020-01-01 00:00:00 [BAN] bob (not on map) was banned by alice. Reason: griefing.") {
        EventType::PlayerBanned { player, banned_by, reason } => {
            assert_eq!(player, "bob");
            assert_eq!(banned_by, "alice");
            assert_eq!(reason, "griefing");
        }
        other => panic!("unexpected event {:?}", other),
    }
    match parse("2020-01-01 00:00:00 [KICK] bob was kicked by alice. Reason: afk.") {
        EventType::PlayerKicked { player, kicked_by, reason } => {
            assert_eq!(player, "bob");
            assert_eq!(kicked_by, "alice");
            assert_eq!(reason, "afk");
        }
        other => panic!("unexpected event {:?}", other),
    }
    match parse("2020-01-01 00:00:00 [UNBANNED] bob was unbanned by alice.") {
        EventType::PlayerUnbanned { player, unbanned_by } => {
            assert_eq!(player, "bob");
            assert_eq!(unbanned_by, "alice");
        }
        other => panic!("unexpected event {:?}", other),
    }
    match parse("2020-01-01 00:00:00 [PROMOTE] bob was promoted to admin by alice.") {
        EventType::PlayerPromoted { player, promoted_by } => {
            assert_eq!(player, "bob");
            assert_eq!(promoted_by, "alice");
        }
        other => panic!("unexpected event {:?}", other),
    }
    match parse("2020-01-01 00:00:00 [DEMOTE] bob was demoted from admin by alice.") {
        EventType::PlayerDemoted { player, demoted_by } => {
            assert_eq!(player, "bob");
            assert_eq!(demoted_by, "alice");
        }
        other => panic!("unexpected event {:?}", other),
    }
    match parse("2020-01-01 00:00:00 [CHAT] alice: hello: world") {
        EventType::Chat { player, message } => {
            assert_eq!(player, "alice: hello");
            assert_eq!(message, "world");
        }
        other => panic!("unexpected event {:?}", other),
    }
}

#[test]
fn saving_events() {
    match parse("Info AppManagerStates.cpp:1843: Saving map as /srv/saves/_autosave1.zip") {
        EventType::SavingMap { filename } => assert_eq!(filename, "/srv/saves/_autosave1.zip"),
        other => panic!("unexpected event {:?}", other),
    }
    match parse("Info AppManagerStates.cpp:1843: Saving finished") {
        EventType::SavingFinished => {}
        other => panic!("unexpected event {:?}", other),
    }
}

#[test]
fn game_event_new_stamps_timestamp() {
    let event = GameEvent::new(1234, "[JOIN] alice joined the game").expect("failed to parse");
    assert_eq!(event.timestamp, 1234);
    match event.event_type {
        EventType::PlayerJoined { username } => assert_eq!(username, "alice"),
        other => panic!("unexpected event {:?}", other),
    }
    match GameEvent::new(1, "nothing to see here") {
        Err(GameEventError::NoParser(l)) => assert_eq!(l, "nothing to see here"),
        other => panic!("unexpected result {:?}", other),
    }
}

/// The groups of the first match of a pattern, as the `regex` crate finds them.
fn captures(pattern: &str, line: &str) -> Option<Vec<String>> {
    let re = Regex::new(pattern).expect("bad pattern");
    re.captures(line).map(|c| {
        (1..c.len())
            .map(|i| c.get(i).map(|m| m.as_str().to_string()).unwrap_or_default())
            .collect()
    })
}

#[test]
fn kick_and_ban_grammars_agree_with_regex() {
    let lines = [
        "[KICK] a b was kicked by c d. Reason: e. f.",
        "[KICK] x was kicked by y. Reason: .",
        "[KICK] p was kicked by q.r. Reason: s.t.",
    ];
    for line in lines.iter() {
        let expected = captures(r#"\[KICK\] (.+?) was kicked by (.+?)\. Reason: (.+)\."#, line);
        let got = match EventType::from_str(line) {
            Ok(EventType::PlayerKicked { player, kicked_by, reason }) => Some(vec![player, kicked_by, reason]),
            _ => None,
        };
        assert_eq!(got, expected, "line {}", line);
    }
    let bans = [
        "[BAN] a (not on map) was banned by b. Reason: c.",
        "[BAN] a was banned by b. Reason: c d.",
    ];
    for line in bans.iter() {
        let expected = captures(r#"\[BAN\] (.+?) (?:\(not on map\) )?was banned by (.+?)\. Reason: (.+)\."#, line);
        let got = match EventType::from_str(line) {
            Ok(EventType::PlayerBanned { player, banned_by, reason }) => Some(vec![player, banned_by, reason]),
            _ => None,
        };
        assert_eq!(got, expected, "line {}", line);
    }
}

#[test]
fn chat_grammar_agrees_with_regex() {
    let lines = ["[CHAT] a: b", "[CHAT] a: b: c", "x [CHAT] name: msg"];
    for line in lines.iter() {
        let expected = captures(r#"\[CHAT\] (.+): (.+)"#, line);
        let got = match EventType::from_str(line) {
            Ok(EventType::Chat { player, message }) => Some(vec![player, message]),
            _ => None,
        };
        assert_eq!(got, expected, "line {}", line);
    }
}

#[test]
fn word_grammars_agree_with_regex_on_unicode() {
    let peers = ["adding peer(é1)", "adding peer(пир_7)", "adding peer(a-b)", "adding peer(٣)", "adding peer(\u{301}x)"];
    for line in peers.iter() {
        let expected = captures(r#"adding peer\((\w+)\)"#, line);
        let got = match EventType::from_str(line) {
            Ok(EventType::NewPeer { id }) => Some(vec![id]),
            _ => None,
        };
        assert_eq!(got, expected, "line {}", line);
    }
    let removed = ["removing peer(ñ)", "removing peer(x y)"];
    for line in removed.iter() {
        let expected = captures(r#"removing peer\((\w+)\)"#, line);
        let got = match EventType::from_str(line) {
            Ok(EventType::PeerRemoved { id }) => Some(vec![id]),
            _ => None,
        };
        assert_eq!(got, expected, "line {}", line);
    }
}
