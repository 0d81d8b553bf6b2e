//! A server's status: the executable's, the game's and its players'.
use crate::text::str_equal;
use vstd::prelude::*;

verus! {

/// A server executable's status.
#[derive(Clone, Copy, Debug, PartialEq, Eq, Structural)]
pub enum ExecutionStatus {
    /// The executable is shut down.
    Shutdown,
    /// The server is starting.
    Starting,
    /// The server is running.
    Running,
    /// The server is shutting down.
    ShuttingDown,
    /// The server is shut down after a crash.
    Crashed,
}

/// The in-game status.
#[derive(Clone, Copy, Debug, PartialEq, Eq, Structural)]
pub enum InGameStatus {
    /// The game is initialising.
    Initialising,
    /// The game is initialised.
    Ready,
    /// The server is preparing to host the game.
    PreparedToHostGame,
    /// The server is creating the game.
    CreatingGame,
    /// The game is running.
    InGame,
    /// The game is saving the map.
    InGameSavingMap,
    /// The game is preparing to disconnect.
    DisconnectingScheduled,
    /// The game is disconnecting.
    Disconnecting,
    /// The game is closed.
    Closed,
}

/// A player's peer state.
#[derive(Clone, Copy, Debug, PartialEq, Eq, Structural)]
pub enum PeerState {
    /// The peer is disconnected.
    Disconnected,
    /// The peer has opened a connection.
    Ready,
    /// The peer is waiting for the map download.
    ConnectedWaitingForMap,
    /// The peer is downloading the map.
    ConnectedDownloadingMap,
    /// The peer has downloaded the map and is loading it.
    ConnectedLoadingMap,
    /// The peer is catching up to the server.
    TryingToCatchUp,
    /// The peer is waiting for the server to start.
    WaitingForCommandToStartSendingTickClosures,
    /// The peer is in-game.
    InGame,
    /// The peer is disconnecting.
    DisconnectScheduled,
}

/// The in-game status whose name is `s`, spelled exactly as the variant.
pub open spec fn in_game_status_named(s: Seq<char>) -> Option<InGameStatus> {
    if s == "Initialising"@ {
        Some(InGameStatus::Initialising)
    } else if s == "Ready"@ {
        Some(InGameStatus::Ready)
    } else if s == "PreparedToHostGame"@ {
        Some(InGameStatus::PreparedToHostGame)
    } else if s == "CreatingGame"@ {
        Some(InGameStatus::CreatingGame)
    } else if s == "InGame"@ {
        Some(InGameStatus::InGame)
    } else if s == "InGameSavingMap"@ {
        Some(InGameStatus::InGameSavingMap)
    } else if s == "DisconnectingScheduled"@ {
        Some(InGameStatus::DisconnectingScheduled)
    } else if s == "Disconnecting"@ {
        Some(InGameStatus::Disconnecting)
    } else if s == "Closed"@ {
        Some(InGameStatus::Closed)
    } else {
        None
    }
}

/// The peer state whose name is `s`, spelled exactly as the variant.
pub open spec fn peer_state_named(s: Seq<char>) -> Option<PeerState> {
    if s == "Disconnected"@ {
        Some(PeerState::Disconnected)
    } else if s == "Ready"@ {
        Some(PeerState::Ready)
    } else if s == "ConnectedWaitingForMap"@ {
        Some(PeerState::ConnectedWaitingForMap)
    } else if s == "ConnectedDownloadingMap"@ {
        Some(PeerState::ConnectedDownloadingMap)
    } else if s == "ConnectedLoadingMap"@ {
        Some(PeerState::ConnectedLoadingMap)
    } else if s == "TryingToCatchUp"@ {
        Some(PeerState::TryingToCatchUp)
    } else if s == "WaitingForCommandToStartSendingTickClosures"@ {
        Some(PeerState::WaitingForCommandToStartSendingTickClosures)
    } else if s == "InGame"@ {
        Some(PeerState::InGame)
    } else if s == "DisconnectScheduled"@ {
        Some(PeerState::DisconnectScheduled)
    } else {
        None
    }
}

/// The name of an in-game status, spelled exactly as its variant.
pub open spec fn in_game_status_name(s: InGameStatus) -> Seq<char> {
    match s {
        InGameStatus::Initialising => "Initialising"@,
        InGameStatus::Ready => "Ready"@,
        InGameStatus::PreparedToHostGame => "PreparedToHostGame"@,
        InGameStatus::CreatingGame => "CreatingGame"@,
        InGameStatus::InGame => "InGame"@,
        InGameStatus::InGameSavingMap => "InGameSavingMap"@,
        InGameStatus::DisconnectingScheduled => "DisconnectingScheduled"@,
        InGameStatus::Disconnecting => "Disconnecting"@,
        InGameStatus::Closed => "Closed"@,
    }
}

/// Each in-game status is named by the name of its variant: that name reads as that
/// variant, and only the names of variants read as any.
pub proof fn law_in_game_status_names(v: InGameStatus, s: Seq<char>)
    ensures
        in_game_status_name(InGameStatus::Initialising) == "Initialising"@,
        in_game_status_name(InGameStatus::Ready) == "Ready"@,
        in_game_status_name(InGameStatus::PreparedToHostGame) == "PreparedToHostGame"@,
        in_game_status_name(InGameStatus::CreatingGame) == "CreatingGame"@,
        in_game_status_name(InGameStatus::InGame) == "InGame"@,
        in_game_status_name(InGameStatus::InGameSavingMap) == "InGameSavingMap"@,
        in_game_status_name(InGameStatus::DisconnectingScheduled) == "DisconnectingScheduled"@,
        in_game_status_name(InGameStatus::Disconnecting) == "Disconnecting"@,
        in_game_status_name(InGameStatus::Closed) == "Closed"@,
        in_game_status_named(in_game_status_name(v)) == Some(v),
        in_game_status_named(s) matches Some(x) ==> s == in_game_status_name(x),
{
    reveal_strlit("Initialising");
    reveal_strlit("Ready");
    reveal_strlit("PreparedToHostGame");
    reveal_strlit("CreatingGame");
    reveal_strlit("InGame");
    reveal_strlit("InGameSavingMap");
    reveal_strlit("DisconnectingScheduled");
    reveal_strlit("Disconnecting");
    reveal_strlit("Closed");
    assert("Initialising"@.len() == 12 && "Initialising"@[0] == 'I');
    assert("Ready"@.len() == 5 && "Ready"@[0] == 'R');
    assert("PreparedToHostGame"@.len() == 18 && "PreparedToHostGame"@[0] == 'P');
    assert("CreatingGame"@.len() == 12 && "CreatingGame"@[0] == 'C');
    assert("InGame"@.len() == 6 && "InGame"@[0] == 'I');
    assert("InGameSavingMap"@.len() == 15 && "InGameSavingMap"@[0] == 'I');
    assert("DisconnectingScheduled"@.len() == 22 && "DisconnectingScheduled"@[0] == 'D');
    assert("Disconnecting"@.len() == 13 && "Disconnecting"@[0] == 'D');
    assert("Closed"@.len() == 6 && "Closed"@[0] == 'C');
}

/// The name of a peer state, spelled exactly as its variant.
pub open spec fn peer_state_name(s: PeerState) -> Seq<char> {
    match s {
        PeerState::Disconnected => "Disconnected"@,
        PeerState::Ready => "Ready"@,
        PeerState::ConnectedWaitingForMap => "ConnectedWaitingForMap"@,
        PeerState::ConnectedDownloadingMap => "ConnectedDownloadingMap"@,
        PeerState::ConnectedLoadingMap => "ConnectedLoadingMap"@,
        PeerState::TryingToCatchUp => "TryingToCatchUp"@,
        PeerState::WaitingForCommandToStartSendingTickClosures => "WaitingForCommandToStartSendingTickClosures"@,
        PeerState::InGame => "InGame"@,
        PeerState::DisconnectScheduled => "DisconnectScheduled"@,
    }
}

/// Each peer state is named by the name of its variant: that name reads as that
/// variant, and only the names of variants read as any.
pub proof fn law_peer_state_names(v: PeerState, s: Seq<char>)
    ensures
        peer_state_name(PeerState::Disconnected) == "Disconnected"@,
        peer_state_name(PeerState::Ready) == "Ready"@,
        peer_state_name(PeerState::ConnectedWaitingForMap) == "ConnectedWaitingForMap"@,
        peer_state_name(PeerState::ConnectedDownloadingMap) == "ConnectedDownloadingMap"@,
        peer_state_name(PeerState::ConnectedLoadingMap) == "ConnectedLoadingMap"@,
        peer_state_name(PeerState::TryingToCatchUp) == "TryingToCatchUp"@,
        peer_state_name(PeerState::WaitingForCommandToStartSendingTickClosures) == "WaitingForCommandToStartSendingTickClosures"@,
        peer_state_name(PeerState::InGame) == "InGame"@,
        peer_state_name(PeerState::DisconnectScheduled) == "DisconnectScheduled"@,
        peer_state_named(peer_state_name(v)) == Some(v),
        peer_state_named(s) matches Some(x) ==> s == peer_state_name(x),
{
    reveal_strlit("Disconnected");
    reveal_strlit("Ready");
    reveal_strlit("ConnectedWaitingForMap");
    reveal_strlit("ConnectedDownloadingMap");
    reveal_strlit("ConnectedLoadingMap");
    reveal_strlit("TryingToCatchUp");
    reveal_strlit("WaitingForCommandToStartSendingTickClosures");
    reveal_strlit("InGame");
    reveal_strlit("DisconnectScheduled");
    assert("Disconnected"@.len() == 12 && "Disconnected"@[0] == 'D');
    assert("Ready"@.len() == 5 && "Ready"@[0] == 'R');
    assert("ConnectedWaitingForMap"@.len() == 22 && "ConnectedWaitingForMap"@[0] == 'C');
    assert("ConnectedDownloadingMap"@.len() == 23 && "ConnectedDownloadingMap"@[0] == 'C');
    assert("ConnectedLoadingMap"@.len() == 19 && "ConnectedLoadingMap"@[0] == 'C');
    assert("TryingToCatchUp"@.len() == 15 && "TryingToCatchUp"@[0] == 'T');
    assert("WaitingForCommandToStartSendingTickClosures"@.len() == 43 && "WaitingForCommandToStartSendingTickClosures"@[0] == 'W');
    assert("InGame"@.len() == 6 && "InGame"@[0] == 'I');
    assert("DisconnectScheduled"@.len() == 19 && "DisconnectScheduled"@[0] == 'D');
}

impl InGameStatus {
    /// The in-game status named `s`, if any.
    pub fn from_name(s: &str) -> (r: Option<InGameStatus>)
        ensures
            r == in_game_status_named(s@),
    {
        if str_equal(s, "Initialising") {
            Some(InGameStatus::Initialising)
        } else if str_equal(s, "Ready") {
            Some(InGameStatus::Ready)
        } else if str_equal(s, "PreparedToHostGame") {
            Some(InGameStatus::PreparedToHostGame)
        } else if str_equal(s, "CreatingGame") {
            Some(InGameStatus::CreatingGame)
        } else if str_equal(s, "InGame") {
            Some(InGameStatus::InGame)
        } else if str_equal(s, "InGameSavingMap") {
            Some(InGameStatus::InGameSavingMap)
        } else if str_equal(s, "DisconnectingScheduled") {
            Some(InGameStatus::DisconnectingScheduled)
        } else if str_equal(s, "Disconnecting") {
            Some(InGameStatus::Disconnecting)
        } else if str_equal(s, "Closed") {
            Some(InGameStatus::Closed)
        } else {
            None
        }
    }
}

impl PeerState {
    /// The peer state named `s`, if any.
    pub fn from_name(s: &str) -> (r: Option<PeerState>)
        ensures
            r == peer_state_named(s@),
    {
        if str_equal(s, "Disconnected") {
            Some(PeerState::Disconnected)
        } else if str_equal(s, "Ready") {
            Some(PeerState::Ready)
        } else if str_equal(s, "ConnectedWaitingForMap") {
            Some(PeerState::ConnectedWaitingForMap)
        } else if str_equal(s, "ConnectedDownloadingMap") {
            Some(PeerState::ConnectedDownloadingMap)
        } else if str_equal(s, "ConnectedLoadingMap") {
            Some(PeerState::ConnectedLoadingMap)
        } else if str_equal(s, "TryingToCatchUp") {
            Some(PeerState::TryingToCatchUp)
        } else if str_equal(s, "WaitingForCommandToStartSendingTickClosures") {
            Some(PeerState::WaitingForCommandToStartSendingTickClosures)
        } else if str_equal(s, "InGame") {
            Some(PeerState::InGame)
        } else if str_equal(s, "DisconnectScheduled") {
            Some(PeerState::DisconnectScheduled)
        } else {
            None
        }
    }
}

} // verus!
