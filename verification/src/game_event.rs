//! The events that a running server reports, one per line of its standard output.
use crate::error::GameEventError;
use crate::grammar::{alt, find, find_match, lit, pat_of, rep, CharClass, Item, Pat};
use crate::status::{in_game_status_named, InGameStatus};
use crate::text::{chars_end_with, ends_with, span_string, str_to_chars};
use crate::version::span_text;
use vstd::prelude::*;
use vstd::string::StringExecFns;

verus! {

/// The type of an event that happened in a server.
#[derive(Debug)]
pub enum EventType {
    /// The game's state changed.
    GameStateChanged {
        /// The previous state.
        from: InGameStatus,
        /// The current state.
        to: InGameStatus,
    },
    /// A player's connection was refused.
    RefusingConnection {
        /// The peer's address-port pair.
        address: String,
        /// The peer's username.
        username: String,
        /// Why the connection was refused.
        reason: String,
    },
    /// A player's connection was accepted.
    ConnectionAccepted {
        /// The peer's address-port pair.
        address: String,
    },
    /// A new peer was added.
    NewPeer {
        /// The peer's ID.
        id: String,
    },
    /// A peer was removed.
    PeerRemoved {
        /// The peer's ID.
        id: String,
    },
    /// A peer's state changed.
    PeerStateChanged {
        /// The peer's ID.
        peer_id: String,
        /// The peer's previous state.
        old_state: String,
        /// The peer's current state.
        new_state: String,
    },
    /// A player joined the game.
    PlayerJoined {
        /// The player's username.
        username: String,
    },
    /// A player left the game.
    PlayerLeft {
        /// The player's username.
        username: String,
    },
    /// The server is saving the map.
    SavingMap {
        /// The file name of the save.
        filename: String,
    },
    /// The server finished saving the map.
    SavingFinished,
    /// A player was banned.
    PlayerBanned {
        /// The player that was banned.
        player: String,
        /// Who banned the player.
        banned_by: String,
        /// Why the player was banned.
        reason: String,
    },
    /// A player was unbanned.
    PlayerUnbanned {
        /// The player that was unbanned.
        player: String,
        /// Who unbanned the player.
        unbanned_by: String,
    },
    /// A player was kicked.
    PlayerKicked {
        /// The player that was kicked.
        player: String,
        /// Who kicked the player.
        kicked_by: String,
        /// Why the player was kicked.
        reason: String,
    },
    /// A player was promoted to admin.
    PlayerPromoted {
        /// The player that was promoted.
        player: String,
        /// Who promoted the player.
        promoted_by: String,
    },
    /// A player was demoted from admin.
    PlayerDemoted {
        /// The player that was demoted.
        player: String,
        /// Who demoted the player.
        demoted_by: String,
    },
    /// A player sent a chat message.
    Chat {
        /// The player who sent the message.
        player: String,
        /// The message.
        message: String,
    },
}

/// The meaning of an [`EventType`], with its texts as character sequences.
pub enum EventTypeView {
    GameStateChanged { from: InGameStatus, to: InGameStatus },
    RefusingConnection { address: Seq<char>, username: Seq<char>, reason: Seq<char> },
    ConnectionAccepted { address: Seq<char> },
    NewPeer { id: Seq<char> },
    PeerRemoved { id: Seq<char> },
    PeerStateChanged { peer_id: Seq<char>, old_state: Seq<char>, new_state: Seq<char> },
    PlayerJoined { username: Seq<char> },
    PlayerLeft { username: Seq<char> },
    SavingMap { filename: Seq<char> },
    SavingFinished,
    PlayerBanned { player: Seq<char>, banned_by: Seq<char>, reason: Seq<char> },
    PlayerUnbanned { player: Seq<char>, unbanned_by: Seq<char> },
    PlayerKicked { player: Seq<char>, kicked_by: Seq<char>, reason: Seq<char> },
    PlayerPromoted { player: Seq<char>, promoted_by: Seq<char> },
    PlayerDemoted { player: Seq<char>, demoted_by: Seq<char> },
    Chat { player: Seq<char>, message: Seq<char> },
}

impl View for EventType {
    type V = EventTypeView;

    open spec fn view(&self) -> EventTypeView {
        match self {
            EventType::GameStateChanged { from, to } => EventTypeView::GameStateChanged {
                from: *from,
                to: *to,
            },
            EventType::RefusingConnection { address, username, reason } =>
                EventTypeView::RefusingConnection {
                address: address@,
                username: username@,
                reason: reason@,
            },
            EventType::ConnectionAccepted { address } => EventTypeView::ConnectionAccepted {
                address: address@,
            },
            EventType::NewPeer { id } => EventTypeView::NewPeer { id: id@ },
            EventType::PeerRemoved { id } => EventTypeView::PeerRemoved { id: id@ },
            EventType::PeerStateChanged { peer_id, old_state, new_state } =>
                EventTypeView::PeerStateChanged {
                peer_id: peer_id@,
                old_state: old_state@,
                new_state: new_state@,
            },
            EventType::PlayerJoined { username } => EventTypeView::PlayerJoined {
                username: username@,
            },
            EventType::PlayerLeft { username } => EventTypeView::PlayerLeft { username: username@ },
            EventType::SavingMap { filename } => EventTypeView::SavingMap { filename: filename@ },
            EventType::SavingFinished => EventTypeView::SavingFinished,
            EventType::PlayerBanned { player, banned_by, reason } => EventTypeView::PlayerBanned {
                player: player@,
                banned_by: banned_by@,
                reason: reason@,
            },
            EventType::PlayerUnbanned { player, unbanned_by } => EventTypeView::PlayerUnbanned {
                player: player@,
                unbanned_by: unbanned_by@,
            },
            EventType::PlayerKicked { player, kicked_by, reason } => EventTypeView::PlayerKicked {
                player: player@,
                kicked_by: kicked_by@,
                reason: reason@,
            },
            EventType::PlayerPromoted { player, promoted_by } => EventTypeView::PlayerPromoted {
                player: player@,
                promoted_by: promoted_by@,
            },
            EventType::PlayerDemoted { player, demoted_by } => EventTypeView::PlayerDemoted {
                player: player@,
                demoted_by: demoted_by@,
            },
            EventType::Chat { player, message } => EventTypeView::Chat {
                player: player@,
                message: message@,
            },
        }
    }
}

/// An optional event, taken by its view.
pub open spec fn event_view(r: Option<EventType>) -> Option<EventTypeView> {
    match r {
        Some(e) => Some(e@),
        None => None,
    }
}

/// The event that a line tells of, if it ends with `Factorio initialised`.
pub open spec fn spec_factorio_initialised(s: Seq<char>) -> Option<EventTypeView> {
    if ends_with(s, "Factorio initialised"@) {
        Some(
            EventTypeView::GameStateChanged {
                from: InGameStatus::Initialising,
                to: InGameStatus::Ready,
            },
        )
    } else {
        None
    }
}

/// Parses the message that the game has initialised.
fn factorio_initialised(s: &str, chars: &Vec<char>) -> (r: Option<EventType>)
    requires
        chars@ == s@,
    ensures
        event_view(r) == spec_factorio_initialised(s@),
{
    let suffix = str_to_chars("Factorio initialised");
    if chars_end_with(chars, &suffix) {
        Some(
            EventType::GameStateChanged {
                from: InGameStatus::Initialising,
                to: InGameStatus::Ready,
            },
        )
    } else {
        None
    }
}

/// The event that a line tells of, if it ends with `Saving finished`.
pub open spec fn spec_saving_finished(s: Seq<char>) -> Option<EventTypeView> {
    if ends_with(s, "Saving finished"@) {
        Some(EventTypeView::SavingFinished)
    } else {
        None
    }
}

/// Parses the message that saving the map finished.
fn saving_finished(s: &str, chars: &Vec<char>) -> (r: Option<EventType>)
    requires
        chars@ == s@,
    ensures
        event_view(r) == spec_saving_finished(s@),
{
    let suffix = str_to_chars("Saving finished");
    if chars_end_with(chars, &suffix) {
        Some(EventType::SavingFinished)
    } else {
        None
    }
}

/// The grammar of the game's state change: `changing state from(<longest run of word characters>) to(<longest run of word characters>)`, anywhere in the line.
pub open spec fn game_state_changed_pattern() -> Seq<Pat> {
    seq![
        Pat::Lit("changing state from("@),
        Pat::Rep { class: CharClass::Word, min: 0, lazy: false, optional: false },
        Pat::Lit(") to("@),
        Pat::Rep { class: CharClass::Word, min: 0, lazy: false, optional: false },
        Pat::Lit(")"@),
    ]
}

/// The grammar of the game's state change.
fn game_state_changed_grammar() -> (p: Vec<Item>)
    ensures
        pat_of(p@) == game_state_changed_pattern(),
{
    let mut p: Vec<Item> = Vec::new();
    p.push(lit("changing state from("));
    p.push(rep(CharClass::Word, 0, false, false));
    p.push(lit(") to("));
    p.push(rep(CharClass::Word, 0, false, false));
    p.push(lit(")"));
    assert(pat_of(p@) =~= game_state_changed_pattern());
    p
}

/// The event that a line tells of, if it holds the game's state change.
pub open spec fn spec_game_state_changed(s: Seq<char>) -> Option<EventTypeView> {
    match find(game_state_changed_pattern(), s) {
        None => None,
        Some(sp) => match (in_game_status_named(span_text(s, sp, 1)), in_game_status_named(span_text(s, sp, 3))) {
            (Some(from), Some(to)) => Some(EventTypeView::GameStateChanged { from, to }),
            _ => None,
        },
    }
}

/// Parses the game's state change.
fn game_state_changed(s: &str, chars: &Vec<char>) -> (r: Option<EventType>)
    requires
        chars@ == s@,
    ensures
        event_view(r) == spec_game_state_changed(s@),
{
    let p = game_state_changed_grammar();
    match find_match(&p, chars) {
        None => None,
        Some(sp) => {
            let from_text = span_string(s, sp[1].0, sp[1].1);
            let to_text = span_string(s, sp[3].0, sp[3].1);
            let from = InGameStatus::from_name(from_text.as_str());
            let to = InGameStatus::from_name(to_text.as_str());
            match (from, to) {
                (Some(from), Some(to)) => Some(EventType::GameStateChanged { from, to }),
                _ => None,
            }
        },
    }
}

/// The grammar of a refused connection: `Refusing connection for address (IP ADDR:({<longest run of characters other than white space>})), username (<longest run of characters other than white space>). <longest run of characters other than white space>`, anywhere in the line.
pub open spec fn refusing_connection_pattern() -> Seq<Pat> {
    seq![
        Pat::Lit("Refusing connection for address (IP ADDR:({"@),
        Pat::Rep { class: CharClass::NonSpace, min: 1, lazy: false, optional: false },
        Pat::Lit("})), username ("@),
        Pat::Rep { class: CharClass::NonSpace, min: 1, lazy: false, optional: false },
        Pat::Lit("). "@),
        Pat::Rep { class: CharClass::NonSpace, min: 1, lazy: false, optional: false },
    ]
}

/// The grammar of a refused connection.
fn refusing_connection_grammar() -> (p: Vec<Item>)
    ensures
        pat_of(p@) == refusing_connection_pattern(),
{
    let mut p: Vec<Item> = Vec::new();
    p.push(lit("Refusing connection for address (IP ADDR:({"));
    p.push(rep(CharClass::NonSpace, 1, false, false));
    p.push(lit("})), username ("));
    p.push(rep(CharClass::NonSpace, 1, false, false));
    p.push(lit("). "));
    p.push(rep(CharClass::NonSpace, 1, false, false));
    assert(pat_of(p@) =~= refusing_connection_pattern());
    p
}

/// The event that a line tells of, if it holds a refused connection.
pub open spec fn spec_refusing_connection(s: Seq<char>) -> Option<EventTypeView> {
    match find(refusing_connection_pattern(), s) {
        None => None,
        Some(sp) => Some(EventTypeView::RefusingConnection { address: span_text(s, sp, 1), username: span_text(s, sp, 3), reason: span_text(s, sp, 5) }),
    }
}

/// Parses a refused connection.
fn refusing_connection(s: &str, chars: &Vec<char>) -> (r: Option<EventType>)
    requires
        chars@ == s@,
    ensures
        event_view(r) == spec_refusing_connection(s@),
{
    let p = refusing_connection_grammar();
    match find_match(&p, chars) {
        None => None,
        Some(sp) => {
            let address = span_string(s, sp[1].0, sp[1].1);
            let username = span_string(s, sp[3].0, sp[3].1);
            let reason = span_string(s, sp[5].0, sp[5].1);
            Some(EventType::RefusingConnection { address, username, reason })
        },
    }
}

/// The grammar of an accepted connection: `Replying to connectionRequest for address(IP ADDR:({<longest run of characters other than white space>})).`, anywhere in the line.
pub open spec fn connection_accepted_pattern() -> Seq<Pat> {
    seq![
        Pat::Lit("Replying to connectionRequest for address(IP ADDR:({"@),
        Pat::Rep { class: CharClass::NonSpace, min: 1, lazy: false, optional: false },
        Pat::Lit("}))."@),
    ]
}

/// The grammar of an accepted connection.
fn connection_accepted_grammar() -> (p: Vec<Item>)
    ensures
        pat_of(p@) == connection_accepted_pattern(),
{
    let mut p: Vec<Item> = Vec::new();
    p.push(lit("Replying to connectionRequest for address(IP ADDR:({"));
    p.push(rep(CharClass::NonSpace, 1, false, false));
    p.push(lit("}))."));
    assert(pat_of(p@) =~= connection_accepted_pattern());
    p
}

/// The event that a line tells of, if it holds an accepted connection.
pub open spec fn spec_connection_accepted(s: Seq<char>) -> Option<EventTypeView> {
    match find(connection_accepted_pattern(), s) {
        None => None,
        Some(sp) => Some(EventTypeView::ConnectionAccepted { address: span_text(s, sp, 1) }),
    }
}

/// Parses an accepted connection.
fn connection_accepted(s: &str, chars: &Vec<char>) -> (r: Option<EventType>)
    requires
        chars@ == s@,
    ensures
        event_view(r) == spec_connection_accepted(s@),
{
    let p = connection_accepted_grammar();
    match find_match(&p, chars) {
        None => None,
        Some(sp) => {
            let address = span_string(s, sp[1].0, sp[1].1);
            Some(EventType::ConnectionAccepted { address })
        },
    }
}

/// The grammar of a new peer: `adding peer(<longest run of word characters>)`, anywhere in the line.
pub open spec fn new_peer_pattern() -> Seq<Pat> {
    seq![
        Pat::Lit("adding peer("@),
        Pat::Rep { class: CharClass::Word, min: 1, lazy: false, optional: false },
        Pat::Lit(")"@),
    ]
}

/// The grammar of a new peer.
fn new_peer_grammar() -> (p: Vec<Item>)
    ensures
        pat_of(p@) == new_peer_pattern(),
{
    let mut p: Vec<Item> = Vec::new();
    p.push(lit("adding peer("));
    p.push(rep(CharClass::Word, 1, false, false));
    p.push(lit(")"));
    assert(pat_of(p@) =~= new_peer_pattern());
    p
}

/// The event that a line tells of, if it holds a new peer.
pub open spec fn spec_new_peer(s: Seq<char>) -> Option<EventTypeView> {
    match find(new_peer_pattern(), s) {
        None => None,
        Some(sp) => Some(EventTypeView::NewPeer { id: span_text(s, sp, 1) }),
    }
}

/// Parses a new peer.
fn new_peer(s: &str, chars: &Vec<char>) -> (r: Option<EventType>)
    requires
        chars@ == s@,
    ensures
        event_view(r) == spec_new_peer(s@),
{
    let p = new_peer_grammar();
    match find_match(&p, chars) {
        None => None,
        Some(sp) => {
            let id = span_string(s, sp[1].0, sp[1].1);
            Some(EventType::NewPeer { id })
        },
    }
}

/// The grammar of a removed peer: `removing peer(<longest run of word characters>)`, anywhere in the line.
pub open spec fn peer_removed_pattern() -> Seq<Pat> {
    seq![
        Pat::Lit("removing peer("@),
        Pat::Rep { class: CharClass::Word, min: 1, lazy: false, optional: false },
        Pat::Lit(")"@),
    ]
}

/// The grammar of a removed peer.
fn peer_removed_grammar() -> (p: Vec<Item>)
    ensures
        pat_of(p@) == peer_removed_pattern(),
{
    let mut p: Vec<Item> = Vec::new();
    p.push(lit("removing peer("));
    p.push(rep(CharClass::Word, 1, false, false));
    p.push(lit(")"));
    assert(pat_of(p@) =~= peer_removed_pattern());
    p
}

/// The event that a line tells of, if it holds a removed peer.
pub open spec fn spec_peer_removed(s: Seq<char>) -> Option<EventTypeView> {
    match find(peer_removed_pattern(), s) {
        None => None,
        Some(sp) => Some(EventTypeView::PeerRemoved { id: span_text(s, sp, 1) }),
    }
}

/// Parses a removed peer.
fn peer_removed(s: &str, chars: &Vec<char>) -> (r: Option<EventType>)
    requires
        chars@ == s@,
    ensures
        event_view(r) == spec_peer_removed(s@),
{
    let p = peer_removed_grammar();
    match find_match(&p, chars) {
        None => None,
        Some(sp) => {
            let id = span_string(s, sp[1].0, sp[1].1);
            Some(EventType::PeerRemoved { id })
        },
    }
}

/// The grammar of a peer's state change: `received stateChanged peerID(<longest run of characters other than white space>) oldState(<longest run of characters other than white space>) newState(<longest run of characters other than white space>)`, anywhere in the line.
pub open spec fn peer_state_change_pattern() -> Seq<Pat> {
    seq![
        Pat::Lit("received stateChanged peerID("@),
        Pat::Rep { class: CharClass::NonSpace, min: 1, lazy: false, optional: false },
        Pat::Lit(") oldState("@),
        Pat::Rep { class: CharClass::NonSpace, min: 1, lazy: false, optional: false },
        Pat::Lit(") newState("@),
        Pat::Rep { class: CharClass::NonSpace, min: 1, lazy: false, optional: false },
        Pat::Lit(")"@),
    ]
}

/// The grammar of a peer's state change.
fn peer_state_change_grammar() -> (p: Vec<Item>)
    ensures
        pat_of(p@) == peer_state_change_pattern(),
{
    let mut p: Vec<Item> = Vec::new();
    p.push(lit("received stateChanged peerID("));
    p.push(rep(CharClass::NonSpace, 1, false, false));
    p.push(lit(") oldState("));
    p.push(rep(CharClass::NonSpace, 1, false, false));
    p.push(lit(") newState("));
    p.push(rep(CharClass::NonSpace, 1, false, false));
    p.push(lit(")"));
    assert(pat_of(p@) =~= peer_state_change_pattern());
    p
}

/// The event that a line tells of, if it holds a peer's state change.
pub open spec fn spec_peer_state_change(s: Seq<char>) -> Option<EventTypeView> {
    match find(peer_state_change_pattern(), s) {
        None => None,
        Some(sp) => Some(EventTypeView::PeerStateChanged { peer_id: span_text(s, sp, 1), old_state: span_text(s, sp, 3), new_state: span_text(s, sp, 5) }),
    }
}

/// Parses a peer's state change.
fn peer_state_change(s: &str, chars: &Vec<char>) -> (r: Option<EventType>)
    requires
        chars@ == s@,
    ensures
        event_view(r) == spec_peer_state_change(s@),
{
    let p = peer_state_change_grammar();
    match find_match(&p, chars) {
        None => None,
        Some(sp) => {
            let peer_id = span_string(s, sp[1].0, sp[1].1);
            let old_state = span_string(s, sp[3].0, sp[3].1);
            let new_state = span_string(s, sp[5].0, sp[5].1);
            Some(EventType::PeerStateChanged { peer_id, old_state, new_state })
        },
    }
}

/// The grammar of a player joining: `[JOIN] <longest run of characters other than white space> joined the game`, anywhere in the line.
pub open spec fn player_joined_pattern() -> Seq<Pat> {
    seq![
        Pat::Lit("[JOIN] "@),
        Pat::Rep { class: CharClass::NonSpace, min: 1, lazy: false, optional: false },
        Pat::Lit(" joined the game"@),
    ]
}

/// The grammar of a player joining.
fn player_joined_grammar() -> (p: Vec<Item>)
    ensures
        pat_of(p@) == player_joined_pattern(),
{
    let mut p: Vec<Item> = Vec::new();
    p.push(lit("[JOIN] "));
    p.push(rep(CharClass::NonSpace, 1, false, false));
    p.push(lit(" joined the game"));
    assert(pat_of(p@) =~= player_joined_pattern());
    p
}

/// The event that a line tells of, if it holds a player joining.
pub open spec fn spec_player_joined(s: Seq<char>) -> Option<EventTypeView> {
    match find(player_joined_pattern(), s) {
        None => None,
        Some(sp) => Some(EventTypeView::PlayerJoined { username: span_text(s, sp, 1) }),
    }
}

/// Parses a player joining.
fn player_joined(s: &str, chars: &Vec<char>) -> (r: Option<EventType>)
    requires
        chars@ == s@,
    ensures
        event_view(r) == spec_player_joined(s@),
{
    let p = player_joined_grammar();
    match find_match(&p, chars) {
        None => None,
        Some(sp) => {
            let username = span_string(s, sp[1].0, sp[1].1);
            Some(EventType::PlayerJoined { username })
        },
    }
}

/// The grammar of a player leaving: `[LEAVE] <longest run of characters other than white space> left the game`, anywhere in the line.
pub open spec fn player_left_pattern() -> Seq<Pat> {
    seq![
        Pat::Lit("[LEAVE] "@),
        Pat::Rep { class: CharClass::NonSpace, min: 1, lazy: false, optional: false },
        Pat::Lit(" left the game"@),
    ]
}

/// The grammar of a player leaving.
fn player_left_grammar() -> (p: Vec<Item>)
    ensures
        pat_of(p@) == player_left_pattern(),
{
    let mut p: Vec<Item> = Vec::new();
    p.push(lit("[LEAVE] "));
    p.push(rep(CharClass::NonSpace, 1, false, false));
    p.push(lit(" left the game"));
    assert(pat_of(p@) =~= player_left_pattern());
    p
}

/// The event that a line tells of, if it holds a player leaving.
pub open spec fn spec_player_left(s: Seq<char>) -> Option<EventTypeView> {
    match find(player_left_pattern(), s) {
        None => None,
        Some(sp) => Some(EventTypeView::PlayerLeft { username: span_text(s, sp, 1) }),
    }
}

/// Parses a player leaving.
fn player_left(s: &str, chars: &Vec<char>) -> (r: Option<EventType>)
    requires
        chars@ == s@,
    ensures
        event_view(r) == spec_player_left(s@),
{
    let p = player_left_grammar();
    match find_match(&p, chars) {
        None => None,
        Some(sp) => {
            let username = span_string(s, sp[1].0, sp[1].1);
            Some(EventType::PlayerLeft { username })
        },
    }
}

/// The grammar of the map being saved: `Saving <game or map> as <longest run of characters other than a line feed>`, anywhere in the line.
pub open spec fn saving_map_pattern() -> Seq<Pat> {
    seq![
        Pat::Lit("Saving "@),
        Pat::Alt { options: seq!["game"@, "map"@], optional: false },
        Pat::Lit(" as "@),
        Pat::Rep { class: CharClass::NotNewline, min: 1, lazy: false, optional: false },
    ]
}

/// The grammar of the map being saved.
fn saving_map_grammar() -> (p: Vec<Item>)
    ensures
        pat_of(p@) == saving_map_pattern(),
{
    let mut p: Vec<Item> = Vec::new();
    p.push(lit("Saving "));
    let options1 = vec!["game", "map"];
    p.push(alt(&options1, false));
    p.push(lit(" as "));
    p.push(rep(CharClass::NotNewline, 1, false, false));
    assert(options1@.map_values(|o: &str| o@) =~= seq!["game"@, "map"@]);
    assert(pat_of(p@) =~= saving_map_pattern());
    p
}

/// The event that a line tells of, if it holds the map being saved.
pub open spec fn spec_saving_map(s: Seq<char>) -> Option<EventTypeView> {
    match find(saving_map_pattern(), s) {
        None => None,
        Some(sp) => Some(EventTypeView::SavingMap { filename: span_text(s, sp, 3) }),
    }
}

/// Parses the map being saved.
fn saving_map(s: &str, chars: &Vec<char>) -> (r: Option<EventType>)
    requires
        chars@ == s@,
    ensures
        event_view(r) == spec_saving_map(s@),
{
    let p = saving_map_grammar();
    match find_match(&p, chars) {
        None => None,
        Some(sp) => {
            let filename = span_string(s, sp[3].0, sp[3].1);
            Some(EventType::SavingMap { filename })
        },
    }
}

/// The grammar of a player being banned: `[BAN] <shortest run of characters other than a line feed> <(not on map) , or nothing>was banned by <shortest run of characters other than a line feed>. Reason: <longest run of characters other than a line feed>.`, anywhere in the line.
pub open spec fn player_banned_pattern() -> Seq<Pat> {
    seq![
        Pat::Lit("[BAN] "@),
        Pat::Rep { class: CharClass::NotNewline, min: 1, lazy: true, optional: false },
        Pat::Lit(" "@),
        Pat::Alt { options: seq!["(not on map) "@], optional: true },
        Pat::Lit("was banned by "@),
        Pat::Rep { class: CharClass::NotNewline, min: 1, lazy: true, optional: false },
        Pat::Lit(". Reason: "@),
        Pat::Rep { class: CharClass::NotNewline, min: 1, lazy: false, optional: false },
        Pat::Lit("."@),
    ]
}

/// The grammar of a player being banned.
fn player_banned_grammar() -> (p: Vec<Item>)
    ensures
        pat_of(p@) == player_banned_pattern(),
{
    let mut p: Vec<Item> = Vec::new();
    p.push(lit("[BAN] "));
    p.push(rep(CharClass::NotNewline, 1, true, false));
    p.push(lit(" "));
    let options3 = vec!["(not on map) "];
    p.push(alt(&options3, true));
    p.push(lit("was banned by "));
    p.push(rep(CharClass::NotNewline, 1, true, false));
    p.push(lit(". Reason: "));
    p.push(rep(CharClass::NotNewline, 1, false, false));
    p.push(lit("."));
    assert(options3@.map_values(|o: &str| o@) =~= seq!["(not on map) "@]);
    assert(pat_of(p@) =~= player_banned_pattern());
    p
}

/// The event that a line tells of, if it holds a player being banned.
pub open spec fn spec_player_banned(s: Seq<char>) -> Option<EventTypeView> {
    match find(player_banned_pattern(), s) {
        None => None,
        Some(sp) => Some(EventTypeView::PlayerBanned { player: span_text(s, sp, 1), banned_by: span_text(s, sp, 5), reason: span_text(s, sp, 7) }),
    }
}

/// Parses a player being banned.
fn player_banned(s: &str, chars: &Vec<char>) -> (r: Option<EventType>)
    requires
        chars@ == s@,
    ensures
        event_view(r) == spec_player_banned(s@),
{
    let p = player_banned_grammar();
    match find_match(&p, chars) {
        None => None,
        Some(sp) => {
            let player = span_string(s, sp[1].0, sp[1].1);
            let banned_by = span_string(s, sp[5].0, sp[5].1);
            let reason = span_string(s, sp[7].0, sp[7].1);
            Some(EventType::PlayerBanned { player, banned_by, reason })
        },
    }
}

/// The grammar of a player being unbanned: `[UNBANNED] <shortest run of characters other than a line feed> was unbanned by <shortest run of characters other than a line feed>.`, anywhere in the line.
pub open spec fn player_unbanned_pattern() -> Seq<Pat> {
    seq![
        Pat::Lit("[UNBANNED] "@),
        Pat::Rep { class: CharClass::NotNewline, min: 1, lazy: true, optional: false },
        Pat::Lit(" was unbanned by "@),
        Pat::Rep { class: CharClass::NotNewline, min: 1, lazy: true, optional: false },
        Pat::Lit("."@),
    ]
}

/// The grammar of a player being unbanned.
fn player_unbanned_grammar() -> (p: Vec<Item>)
    ensures
        pat_of(p@) == player_unbanned_pattern(),
{
    let mut p: Vec<Item> = Vec::new();
    p.push(lit("[UNBANNED] "));
    p.push(rep(CharClass::NotNewline, 1, true, false));
    p.push(lit(" was unbanned by "));
    p.push(rep(CharClass::NotNewline, 1, true, false));
    p.push(lit("."));
    assert(pat_of(p@) =~= player_unbanned_pattern());
    p
}

/// The event that a line tells of, if it holds a player being unbanned.
pub open spec fn spec_player_unbanned(s: Seq<char>) -> Option<EventTypeView> {
    match find(player_unbanned_pattern(), s) {
        None => None,
        Some(sp) => Some(EventTypeView::PlayerUnbanned { player: span_text(s, sp, 1), unbanned_by: span_text(s, sp, 3) }),
    }
}

/// Parses a player being unbanned.
fn player_unbanned(s: &str, chars: &Vec<char>) -> (r: Option<EventType>)
    requires
        chars@ == s@,
    ensures
        event_view(r) == spec_player_unbanned(s@),
{
    let p = player_unbanned_grammar();
    match find_match(&p, chars) {
        None => None,
        Some(sp) => {
            let player = span_string(s, sp[1].0, sp[1].1);
            let unbanned_by = span_string(s, sp[3].0, sp[3].1);
            Some(EventType::PlayerUnbanned { player, unbanned_by })
        },
    }
}

/// The grammar of a player being kicked: `[KICK] <shortest run of characters other than a line feed> was kicked by <shortest run of characters other than a line feed>. Reason: <longest run of characters other than a line feed>.`, anywhere in the line.
pub open spec fn player_kicked_pattern() -> Seq<Pat> {
    seq![
        Pat::Lit("[KICK] "@),
        Pat::Rep { class: CharClass::NotNewline, min: 1, lazy: true, optional: false },
        Pat::Lit(" was kicked by "@),
        Pat::Rep { class: CharClass::NotNewline, min: 1, lazy: true, optional: false },
        Pat::Lit(". Reason: "@),
        Pat::Rep { class: CharClass::NotNewline, min: 1, lazy: false, optional: false },
        Pat::Lit("."@),
    ]
}

/// The grammar of a player being kicked.
fn player_kicked_grammar() -> (p: Vec<Item>)
    ensures
        pat_of(p@) == player_kicked_pattern(),
{
    let mut p: Vec<Item> = Vec::new();
    p.push(lit("[KICK] "));
    p.push(rep(CharClass::NotNewline, 1, true, false));
    p.push(lit(" was kicked by "));
    p.push(rep(CharClass::NotNewline, 1, true, false));
    p.push(lit(". Reason: "));
    p.push(rep(CharClass::NotNewline, 1, false, false));
    p.push(lit("."));
    assert(pat_of(p@) =~= player_kicked_pattern());
    p
}

/// The event that a line tells of, if it holds a player being kicked.
pub open spec fn spec_player_kicked(s: Seq<char>) -> Option<EventTypeView> {
    match find(player_kicked_pattern(), s) {
        None => None,
        Some(sp) => Some(EventTypeView::PlayerKicked { player: span_text(s, sp, 1), kicked_by: span_text(s, sp, 3), reason: span_text(s, sp, 5) }),
    }
}

/// Parses a player being kicked.
fn player_kicked(s: &str, chars: &Vec<char>) -> (r: Option<EventType>)
    requires
        chars@ == s@,
    ensures
        event_view(r) == spec_player_kicked(s@),
{
    let p = player_kicked_grammar();
    match find_match(&p, chars) {
        None => None,
        Some(sp) => {
            let player = span_string(s, sp[1].0, sp[1].1);
            let kicked_by = span_string(s, sp[3].0, sp[3].1);
            let reason = span_string(s, sp[5].0, sp[5].1);
            Some(EventType::PlayerKicked { player, kicked_by, reason })
        },
    }
}

/// The grammar of a player being promoted to admin: `[PROMOTE] <shortest run of characters other than a line feed> was promoted to admin by <shortest run of characters other than a line feed>.`, anywhere in the line.
pub open spec fn player_promoted_pattern() -> Seq<Pat> {
    seq![
        Pat::Lit("[PROMOTE] "@),
        Pat::Rep { class: CharClass::NotNewline, min: 1, lazy: true, optional: false },
        Pat::Lit(" was promoted to admin by "@),
        Pat::Rep { class: CharClass::NotNewline, min: 1, lazy: true, optional: false },
        Pat::Lit("."@),
    ]
}

/// The grammar of a player being promoted to admin.
fn player_promoted_grammar() -> (p: Vec<Item>)
    ensures
        pat_of(p@) == player_promoted_pattern(),
{
    let mut p: Vec<Item> = Vec::new();
    p.push(lit("[PROMOTE] "));
    p.push(rep(CharClass::NotNewline, 1, true, false));
    p.push(lit(" was promoted to admin by "));
    p.push(rep(CharClass::NotNewline, 1, true, false));
    p.push(lit("."));
    assert(pat_of(p@) =~= player_promoted_pattern());
    p
}

/// The event that a line tells of, if it holds a player being promoted to admin.
pub open spec fn spec_player_promoted(s: Seq<char>) -> Option<EventTypeView> {
    match find(player_promoted_pattern(), s) {
        None => None,
        Some(sp) => Some(EventTypeView::PlayerPromoted { player: span_text(s, sp, 1), promoted_by: span_text(s, sp, 3) }),
    }
}

/// Parses a player being promoted to admin.
fn player_promoted(s: &str, chars: &Vec<char>) -> (r: Option<EventType>)
    requires
        chars@ == s@,
    ensures
        event_view(r) == spec_player_promoted(s@),
{
    let p = player_promoted_grammar();
    match find_match(&p, chars) {
        None => None,
        Some(sp) => {
            let player = span_string(s, sp[1].0, sp[1].1);
            let promoted_by = span_string(s, sp[3].0, sp[3].1);
            Some(EventType::PlayerPromoted { player, promoted_by })
        },
    }
}

/// The grammar of a player being demoted from admin: `[DEMOTE] <shortest run of characters other than a line feed> was demoted from admin by <shortest run of characters other than a line feed>.`, anywhere in the line.
pub open spec fn player_demoted_pattern() -> Seq<Pat> {
    seq![
        Pat::Lit("[DEMOTE] "@),
        Pat::Rep { class: CharClass::NotNewline, min: 1, lazy: true, optional: false },
        Pat::Lit(" was demoted from admin by "@),
        Pat::Rep { class: CharClass::NotNewline, min: 1, lazy: true, optional: false },
        Pat::Lit("."@),
    ]
}

/// The grammar of a player being demoted from admin.
fn player_demoted_grammar() -> (p: Vec<Item>)
    ensures
        pat_of(p@) == player_demoted_pattern(),
{
    let mut p: Vec<Item> = Vec::new();
    p.push(lit("[DEMOTE] "));
    p.push(rep(CharClass::NotNewline, 1, true, false));
    p.push(lit(" was demoted from admin by "));
    p.push(rep(CharClass::NotNewline, 1, true, false));
    p.push(lit("."));
    assert(pat_of(p@) =~= player_demoted_pattern());
    p
}

/// The event that a line tells of, if it holds a player being demoted from admin.
pub open spec fn spec_player_demoted(s: Seq<char>) -> Option<EventTypeView> {
    match find(player_demoted_pattern(), s) {
        None => None,
        Some(sp) => Some(EventTypeView::PlayerDemoted { player: span_text(s, sp, 1), demoted_by: span_text(s, sp, 3) }),
    }
}

/// Parses a player being demoted from admin.
fn player_demoted(s: &str, chars: &Vec<char>) -> (r: Option<EventType>)
    requires
        chars@ == s@,
    ensures
        event_view(r) == spec_player_demoted(s@),
{
    let p = player_demoted_grammar();
    match find_match(&p, chars) {
        None => None,
        Some(sp) => {
            let player = span_string(s, sp[1].0, sp[1].1);
            let demoted_by = span_string(s, sp[3].0, sp[3].1);
            Some(EventType::PlayerDemoted { player, demoted_by })
        },
    }
}

/// The grammar of a chat message: `[CHAT] <longest run of characters other than a line feed>: <longest run of characters other than a line feed>`, anywhere in the line.
pub open spec fn chat_pattern() -> Seq<Pat> {
    seq![
        Pat::Lit("[CHAT] "@),
        Pat::Rep { class: CharClass::NotNewline, min: 1, lazy: false, optional: false },
        Pat::Lit(": "@),
        Pat::Rep { class: CharClass::NotNewline, min: 1, lazy: false, optional: false },
    ]
}

/// The grammar of a chat message.
fn chat_grammar() -> (p: Vec<Item>)
    ensures
        pat_of(p@) == chat_pattern(),
{
    let mut p: Vec<Item> = Vec::new();
    p.push(lit("[CHAT] "));
    p.push(rep(CharClass::NotNewline, 1, false, false));
    p.push(lit(": "));
    p.push(rep(CharClass::NotNewline, 1, false, false));
    assert(pat_of(p@) =~= chat_pattern());
    p
}

/// The event that a line tells of, if it holds a chat message.
pub open spec fn spec_chat(s: Seq<char>) -> Option<EventTypeView> {
    match find(chat_pattern(), s) {
        None => None,
        Some(sp) => Some(EventTypeView::Chat { player: span_text(s, sp, 1), message: span_text(s, sp, 3) }),
    }
}

/// Parses a chat message.
fn chat(s: &str, chars: &Vec<char>) -> (r: Option<EventType>)
    requires
        chars@ == s@,
    ensures
        event_view(r) == spec_chat(s@),
{
    let p = chat_grammar();
    match find_match(&p, chars) {
        None => None,
        Some(sp) => {
            let player = span_string(s, sp[1].0, sp[1].1);
            let message = span_string(s, sp[3].0, sp[3].1);
            Some(EventType::Chat { player, message })
        },
    }
}

/// The event that a line tells of: the first of the grammars, in a fixed order, that the
/// line matches.
pub open spec fn spec_event_type(s: Seq<char>) -> Option<EventTypeView> {
    if spec_factorio_initialised(s) is Some {
        spec_factorio_initialised(s)
    } else     if spec_game_state_changed(s) is Some {
        spec_game_state_changed(s)
    } else     if spec_refusing_connection(s) is Some {
        spec_refusing_connection(s)
    } else     if spec_connection_accepted(s) is Some {
        spec_connection_accepted(s)
    } else     if spec_new_peer(s) is Some {
        spec_new_peer(s)
    } else     if spec_peer_removed(s) is Some {
        spec_peer_removed(s)
    } else     if spec_peer_state_change(s) is Some {
        spec_peer_state_change(s)
    } else     if spec_player_joined(s) is Some {
        spec_player_joined(s)
    } else     if spec_player_left(s) is Some {
        spec_player_left(s)
    } else     if spec_saving_map(s) is Some {
        spec_saving_map(s)
    } else     if spec_saving_finished(s) is Some {
        spec_saving_finished(s)
    } else     if spec_player_banned(s) is Some {
        spec_player_banned(s)
    } else     if spec_player_unbanned(s) is Some {
        spec_player_unbanned(s)
    } else     if spec_player_kicked(s) is Some {
        spec_player_kicked(s)
    } else     if spec_player_promoted(s) is Some {
        spec_player_promoted(s)
    } else     if spec_player_demoted(s) is Some {
        spec_player_demoted(s)
    } else {
        spec_chat(s)
    }
}

/// The event that a line tells of, if any.
pub fn parse_event_type(s: &str) -> (r: Option<EventType>)
    ensures
        event_view(r) == spec_event_type(s@),
{
    let chars = str_to_chars(s);
    let r = factorio_initialised(s, &chars);
    if r.is_some() {
        return r;
    }
    let r = game_state_changed(s, &chars);
    if r.is_some() {
        return r;
    }
    let r = refusing_connection(s, &chars);
    if r.is_some() {
        return r;
    }
    let r = connection_accepted(s, &chars);
    if r.is_some() {
        return r;
    }
    let r = new_peer(s, &chars);
    if r.is_some() {
        return r;
    }
    let r = peer_removed(s, &chars);
    if r.is_some() {
        return r;
    }
    let r = peer_state_change(s, &chars);
    if r.is_some() {
        return r;
    }
    let r = player_joined(s, &chars);
    if r.is_some() {
        return r;
    }
    let r = player_left(s, &chars);
    if r.is_some() {
        return r;
    }
    let r = saving_map(s, &chars);
    if r.is_some() {
        return r;
    }
    let r = saving_finished(s, &chars);
    if r.is_some() {
        return r;
    }
    let r = player_banned(s, &chars);
    if r.is_some() {
        return r;
    }
    let r = player_unbanned(s, &chars);
    if r.is_some() {
        return r;
    }
    let r = player_kicked(s, &chars);
    if r.is_some() {
        return r;
    }
    let r = player_promoted(s, &chars);
    if r.is_some() {
        return r;
    }
    let r = player_demoted(s, &chars);
    if r.is_some() {
        return r;
    }
    let r = chat(s, &chars);
    if r.is_some() {
        return r;
    }
    None
}

/// A single event that happened in a server, with when it happened.
#[derive(Debug)]
pub struct GameEvent {
    /// When the event happened, in milliseconds since the Unix epoch.
    pub timestamp: i64,
    /// The type of the event.
    pub event_type: EventType,
}

impl EventType {
    /// Parses the event that a line of the server's output tells of. Fails with
    /// `GameEventError::NoParser` holding the line where no grammar matches it.
    pub fn from_str(s: &str) -> (r: Result<EventType, GameEventError>)
        ensures
            match spec_event_type(s@) {
                Some(e) => r matches Ok(x) && x@ == e,
                None => r matches Err(GameEventError::NoParser(m)) && m@ == s@,
            },
    {
        match parse_event_type(s) {
            Some(e) => Ok(e),
            None => Err(GameEventError::NoParser(String::from_str(s))),
        }
    }
}

impl GameEvent {
    /// Returns the event that a line of the server's output tells of, stamped with `timestamp`.
    pub fn new(timestamp: i64, line: &str) -> (r: Result<GameEvent, GameEventError>)
        ensures
            match spec_event_type(line@) {
                Some(e) => r matches Ok(x) && x.timestamp == timestamp && x.event_type@ == e,
                None => r matches Err(GameEventError::NoParser(m)) && m@ == line@,
            },
    {
        match EventType::from_str(line) {
            Ok(event_type) => Ok(GameEvent { timestamp, event_type }),
            Err(e) => Err(e),
        }
    }
}

} // verus!
