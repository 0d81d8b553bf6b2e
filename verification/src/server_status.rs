//! A server's status, and how the events the server reports change it.
use crate::error::{err_view, StatusUpdateError, StatusUpdateErrorView};
use crate::game_event::{EventType, EventTypeView};
use crate::players::{
    connection_outcome, joined_outcome, new_peer_outcome, peer_state_outcome, player_views,
    remove_outcome, updated, Player, Players, PlayersView,
};
use crate::settings::network::SocketAddress;
use crate::status::{ExecutionStatus, InGameStatus};
use vstd::prelude::*;

verus! {

/// A server's status: the executable's, the game's, when the server was started, and its
/// players.
#[derive(Debug)]
pub struct ServerStatus {
    game_status: ExecutionStatus,
    in_game_status: InGameStatus,
    started_at: i64,
    players: Players,
}

/// The meaning of a [`ServerStatus`].
pub struct ServerStatusView {
    pub game_status: ExecutionStatus,
    pub in_game_status: InGameStatus,
    pub started_at: i64,
    pub players: PlayersView,
}

impl View for ServerStatus {
    type V = ServerStatusView;

    closed spec fn view(&self) -> ServerStatusView {
        ServerStatusView {
            game_status: self.game_status,
            in_game_status: self.in_game_status,
            started_at: self.started_at,
            players: self.players@,
        }
    }
}

/// The executable's status after the game changed to `to`: a starting server that is now in-game
/// is running, and a running server whose disconnection is scheduled is shutting down; any
/// other status stays.
pub open spec fn game_status_after(game: ExecutionStatus, to: InGameStatus) -> ExecutionStatus {
    if to == InGameStatus::InGame && game == ExecutionStatus::Starting {
        ExecutionStatus::Running
    } else if to == InGameStatus::DisconnectingScheduled && game == ExecutionStatus::Running {
        ExecutionStatus::ShuttingDown
    } else {
        game
    }
}

/// A starting server whose game is now in-game is running, a running server whose disconnection
/// is scheduled is shutting down, and no other change of the game moves the executable's status.
pub proof fn law_game_status_after(game: ExecutionStatus, to: InGameStatus)
    ensures
        game_status_after(ExecutionStatus::Starting, InGameStatus::InGame) == ExecutionStatus::Running,
        game_status_after(ExecutionStatus::Running, InGameStatus::DisconnectingScheduled)
            == ExecutionStatus::ShuttingDown,
        !(game == ExecutionStatus::Starting && to == InGameStatus::InGame) && !(game
            == ExecutionStatus::Running && to == InGameStatus::DisconnectingScheduled)
            ==> game_status_after(game, to) == game,
{
}

/// A status with other players and the result of updating them.
pub open spec fn with_players(
    s: ServerStatusView,
    outcome: (PlayersView, Result<(), StatusUpdateErrorView>),
) -> (ServerStatusView, Result<(), StatusUpdateErrorView>) {
    (ServerStatusView { players: outcome.0, ..s }, outcome.1)
}

/// The status after an event at a time, and whether the players could be updated from it.
/// `peer_address` is what the address of an accepted connection reads as, if it reads as a
/// socket address; it is read for no other event. Events that tell of nothing the status holds
/// leave it as it is.
pub open spec fn game_event_outcome(
    s: ServerStatusView,
    e: EventTypeView,
    peer_address: Option<SocketAddress>,
    now: i64,
) -> (ServerStatusView, Result<(), StatusUpdateErrorView>) {
    match e {
        EventTypeView::GameStateChanged { to, .. } => (
            ServerStatusView {
                in_game_status: to,
                game_status: game_status_after(s.game_status, to),
                ..s
            },
            Ok(()),
        ),
        EventTypeView::ConnectionAccepted { address } => match peer_address {
            Some(a) => with_players(s, updated(connection_outcome(s.players, a, now))),
            None => (s, Err(StatusUpdateErrorView::InvalidAddress(address))),
        },
        EventTypeView::NewPeer { id } => with_players(s, new_peer_outcome(s.players, id)),
        EventTypeView::PeerStateChanged { peer_id, new_state, .. } => with_players(
            s,
            peer_state_outcome(s.players, peer_id, new_state),
        ),
        EventTypeView::PlayerJoined { username } => with_players(
            s,
            joined_outcome(s.players, username, now),
        ),
        EventTypeView::PlayerLeft { username } => with_players(
            s,
            remove_outcome(s.players, username, now),
        ),
        EventTypeView::PlayerBanned { player, .. } => with_players(
            s,
            remove_outcome(s.players, player, now),
        ),
        EventTypeView::PlayerKicked { player, .. } => with_players(
            s,
            remove_outcome(s.players, player, now),
        ),
        EventTypeView::SavingMap { .. } => (
            ServerStatusView { in_game_status: InGameStatus::InGameSavingMap, ..s },
            Ok(()),
        ),
        EventTypeView::SavingFinished => (
            ServerStatusView { in_game_status: InGameStatus::InGame, ..s },
            Ok(()),
        ),
        _ => (s, Ok(())),
    }
}

impl ServerStatus {
    /// A shut-down server whose game is initialising, with no players, started at `now`.
    pub fn new_at(now: i64) -> (r: Self)
        ensures
            r@ == (ServerStatusView {
                game_status: ExecutionStatus::Shutdown,
                in_game_status: InGameStatus::Initialising,
                started_at: now,
                players: PlayersView { players: Seq::empty(), last_modified: 0 },
            }),
    {
        ServerStatus {
            game_status: ExecutionStatus::Shutdown,
            in_game_status: InGameStatus::Initialising,
            started_at: now,
            players: Players::default(),
        }
    }

    /// The executable's status.
    pub fn game_status(&self) -> (r: ExecutionStatus)
        ensures
            r == self@.game_status,
    {
        self.game_status
    }

    /// Sets the executable's status.
    pub fn set_game_status(&mut self, status: ExecutionStatus)
        ensures
            final(self)@ == (ServerStatusView { game_status: status, ..old(self)@ }),
    {
        self.game_status = status;
    }

    /// The game's status.
    pub fn in_game_status(&self) -> (r: InGameStatus)
        ensures
            r == self@.in_game_status,
    {
        self.in_game_status
    }

    /// Sets the game's status.
    pub fn set_in_game_status(&mut self, status: InGameStatus)
        ensures
            final(self)@ == (ServerStatusView { in_game_status: status, ..old(self)@ }),
    {
        self.in_game_status = status;
    }

    /// When the server was started, in milliseconds since the Unix epoch.
    pub fn started_at(&self) -> (r: i64)
        ensures
            r == self@.started_at,
    {
        self.started_at
    }

    /// Marks the server as started at `now`, in milliseconds since the Unix epoch. Nothing else
    /// changes.
    pub fn reset_started_at(&mut self, now: i64)
        ensures
            final(self)@ == (ServerStatusView { started_at: now, ..old(self)@ }),
    {
        self.started_at = now;
    }

    /// The server's players.
    pub fn players(&self) -> (r: Vec<Player>)
        ensures
            player_views(r@) == self@.players.players,
    {
        self.players.get()
    }

    /// Changes the status by an event at the time `now`, in milliseconds since the Unix epoch;
    /// the result tells whether the players could be updated from it. `peer_address` is what the
    /// address of an accepted connection reads as, if it reads as a socket address; it is read
    /// for no other event.
    pub fn process_game_event(
        &mut self,
        event: &EventType,
        peer_address: Option<SocketAddress>,
        now: i64,
    ) -> (r: Result<(), StatusUpdateError>)
        requires
            old(self)@.players.players.len() < usize::MAX,
        ensures
            (final(self)@, err_view(r)) == game_event_outcome(old(self)@, event@, peer_address, now),
    {
        match event {
            EventType::GameStateChanged { to, .. } => {
                self.in_game_status = *to;
                if *to == InGameStatus::InGame && self.game_status == ExecutionStatus::Starting {
                    self.game_status = ExecutionStatus::Running;
                } else if *to == InGameStatus::DisconnectingScheduled && self.game_status
                    == ExecutionStatus::Running {
                    self.game_status = ExecutionStatus::ShuttingDown;
                }
                Ok(())
            },
            EventType::ConnectionAccepted { address } => match peer_address {
                Some(a) => {
                    self.players.connection_accepted(a, now);
                    Ok(())
                },
                None => Err(StatusUpdateError::InvalidAddress(address.clone())),
            },
            EventType::NewPeer { id } => self.players.new_peer(id.as_str()),
            EventType::PeerStateChanged { peer_id, new_state, .. } => self.players.peer_state_change(
                peer_id.as_str(),
                new_state.as_str(),
            ),
            EventType::PlayerJoined { username } => self.players.joined(username.as_str(), now),
            EventType::PlayerLeft { username } => self.players.remove(username.as_str(), now),
            EventType::PlayerBanned { player, .. } => self.players.remove(player.as_str(), now),
            EventType::PlayerKicked { player, .. } => self.players.remove(player.as_str(), now),
            EventType::SavingMap { .. } => {
                self.in_game_status = InGameStatus::InGameSavingMap;
                Ok(())
            },
            EventType::SavingFinished => {
                self.in_game_status = InGameStatus::InGame;
                Ok(())
            },
            _ => Ok(()),
        }
    }

    /// Changes the status after the executable exited: a server whose executable failed has
    /// crashed, any other is shut down.
    pub fn process_exited_event(&mut self, succeeded: bool)
        ensures
            final(self)@ == (ServerStatusView {
                game_status: if succeeded {
                    ExecutionStatus::Shutdown
                } else {
                    ExecutionStatus::Crashed
                },
                ..old(self)@
            }),
    {
        if succeeded {
            self.game_status = ExecutionStatus::Shutdown;
        } else {
            self.game_status = ExecutionStatus::Crashed;
        }
    }
}

} // verus!
