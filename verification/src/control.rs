//! What a remote request to control a server asks for, and which server it is for.
use crate::command::{shutdown_notice, Command, ShutdownReason};
use crate::error::{RpcError, ServerError};
use crate::server::assert_status;
use crate::status::ExecutionStatus;
use vstd::prelude::*;

verus! {

/// An action that a remote request asks of a server; a timeout of 0 means none was given.
#[derive(Clone, Copy, Debug, PartialEq, Eq, Structural)]
pub enum ServerControlAction {
    /// Start the server.
    Start,
    /// Kill the server.
    Kill,
    /// Shut the server down gracefully, after a timeout.
    Stop { timeout_override: u64 },
    /// Restart the server gracefully, after a timeout.
    Restart { timeout_override: u64 },
    /// Restart the server at once.
    ForceRestart,
}

/// What is done to a server.
#[derive(Clone, Copy, Debug, PartialEq, Eq, Structural)]
pub enum ControlOperation {
    /// Run it.
    Run,
    /// Kill it.
    Kill,
    /// Shut it down gracefully, after the given timeout or its own.
    GracefulShutdown(Option<u64>),
    /// Restart it gracefully, after the given timeout or its own.
    GracefulRestart(Option<u64>),
    /// Restart it at once.
    ForceRestart,
}

/// A timeout given in a request: none when it is 0.
pub open spec fn timeout_of(t: u64) -> Option<u64> {
    if t == 0 {
        None
    } else {
        Some(t)
    }
}

/// The operation that an action asks for.
pub open spec fn operation_of(a: ServerControlAction) -> ControlOperation {
    match a {
        ServerControlAction::Start => ControlOperation::Run,
        ServerControlAction::Kill => ControlOperation::Kill,
        ServerControlAction::Stop { timeout_override } => ControlOperation::GracefulShutdown(
            timeout_of(timeout_override),
        ),
        ServerControlAction::Restart { timeout_override } => ControlOperation::GracefulRestart(
            timeout_of(timeout_override),
        ),
        ServerControlAction::ForceRestart => ControlOperation::ForceRestart,
    }
}

/// Each action asks for the operation of its name: starting runs the server, killing kills it,
/// stopping shuts it down gracefully and restarting restarts it gracefully, each after the
/// request's timeout when one is given (not 0), and a forced restart restarts it at once.
pub proof fn law_action_operations(t: u64)
    ensures
        operation_of(ServerControlAction::Start) == ControlOperation::Run,
        operation_of(ServerControlAction::Kill) == ControlOperation::Kill,
        operation_of(ServerControlAction::ForceRestart) == ControlOperation::ForceRestart,
        t == 0 ==> operation_of(ServerControlAction::Stop { timeout_override: t })
            == ControlOperation::GracefulShutdown(None),
        t != 0 ==> operation_of(ServerControlAction::Stop { timeout_override: t })
            == ControlOperation::GracefulShutdown(Some(t)),
        t == 0 ==> operation_of(ServerControlAction::Restart { timeout_override: t })
            == ControlOperation::GracefulRestart(None),
        t != 0 ==> operation_of(ServerControlAction::Restart { timeout_override: t })
            == ControlOperation::GracefulRestart(Some(t)),
{
}

/// The operation that a request's action asks for; fails with `MissingArgument` when the request
/// has no action.
pub fn control_operation(action: Option<ServerControlAction>) -> (r: Result<ControlOperation, RpcError>)
    ensures
        action matches Some(a) ==> r == Ok::<ControlOperation, RpcError>(operation_of(a)),
        action is None ==> r matches Err(RpcError::MissingArgument),
{
    let timeout = |t: u64| -> (o: Option<u64>)
        ensures
            o == timeout_of(t),
        {
            if t == 0 {
                None
            } else {
                Some(t)
            }
        };
    match action {
        Some(ServerControlAction::Start) => Ok(ControlOperation::Run),
        Some(ServerControlAction::Kill) => Ok(ControlOperation::Kill),
        Some(ServerControlAction::Stop { timeout_override }) => Ok(
            ControlOperation::GracefulShutdown(timeout(timeout_override)),
        ),
        Some(ServerControlAction::Restart { timeout_override }) => Ok(
            ControlOperation::GracefulRestart(timeout(timeout_override)),
        ),
        Some(ServerControlAction::ForceRestart) => Ok(ControlOperation::ForceRestart),
        None => Err(RpcError::MissingArgument),
    }
}

/// The index of the first server with a store ID, if any.
pub open spec fn first_server(ids: Seq<Option<i64>>, id: i64, n: int) -> Option<int>
    decreases n,
{
    if n <= 0 {
        None
    } else {
        match first_server(ids, id, n - 1) {
            Some(i) => Some(i),
            None => if ids[n - 1] == Some(id) {
                Some(n - 1)
            } else {
                None
            },
        }
    }
}

/// The index of the managed server with a store ID, given each server's store ID (none for a
/// server not stored yet); fails with `NoSuchServer` when no server has it.
pub fn find_server(ids: &Vec<Option<i64>>, server_id: i64) -> (r: Result<usize, RpcError>)
    ensures
        match first_server(ids@, server_id, ids@.len() as int) {
            Some(i) => r == Ok::<usize, RpcError>(i as usize),
            None => r matches Err(RpcError::NoSuchServer(x)) && x == server_id,
        },
{
    let mut j: usize = 0;
    while j < ids.len()
        invariant
            j <= ids.len(),
            first_server(ids@, server_id, j as int) is None,
        decreases ids.len() - j,
    {
        if ids[j] == Some(server_id) {
            proof {
                lemma_server_found_stays(ids@, server_id, j + 1, ids@.len() as int);
            }
            return Ok(j);
        }
        j = j + 1;
    }
    Err(RpcError::NoSuchServer(server_id))
}

/// Once a server is found, it stays the first one.
proof fn lemma_server_found_stays(ids: Seq<Option<i64>>, id: i64, m: int, n: int)
    requires
        0 <= m <= n,
        first_server(ids, id, m) is Some,
    ensures
        first_server(ids, id, n) == first_server(ids, id, m),
    decreases n,
{
    if n > m {
        lemma_server_found_stays(ids, id, m, n - 1);
    }
}

/// The steps of a graceful shutdown or restart of a running server: with players online, a chat
/// warning and a wait of the timeout; then `/quit`.
#[derive(Debug)]
pub struct ShutdownPlan {
    /// The warning to send and the seconds to wait, when players are online.
    pub warning: Option<(Command, u64)>,
    /// The command that ends the server.
    pub quit: Command,
}

/// The steps of a graceful shutdown or restart, which only a running server takes (else it
/// fails with `InvalidGameStatus`): with players online, the warning of `reason` and a wait of
/// `timeout_override` seconds when given, else of the server's own `graceful_timeout`; then
/// `/quit`.
pub fn graceful_shutdown_plan(
    status: ExecutionStatus,
    players_online: usize,
    reason: ShutdownReason,
    timeout_override: Option<u64>,
    graceful_timeout: u64,
) -> (r: Result<ShutdownPlan, ServerError>)
    ensures
        status != ExecutionStatus::Running ==> (r matches Err(ServerError::InvalidGameStatus(s))
            && s == status),
        status == ExecutionStatus::Running ==> (r matches Ok(p) && p.quit is Quit && {
            let secs = match timeout_override {
                Some(t) => t,
                None => graceful_timeout,
            };
            if players_online == 0 {
                p.warning is None
            } else {
                p.warning matches Some((Command::Say(m), w)) && m@ == shutdown_notice(reason, secs)
                    && w == secs
            }
        }),
{
    match assert_status(status, ExecutionStatus::Running) {
        Err(e) => Err(e),
        Ok(()) => {
            let warning = if players_online == 0 {
                None
            } else {
                let secs = match timeout_override {
                    Some(t) => t,
                    None => graceful_timeout,
                };
                Some((Command::shutdown_notice(reason, timeout_override, graceful_timeout), secs))
            };
            Ok(ShutdownPlan { warning, quit: Command::Quit })
        },
    }
}

} // verus!
