//! The decisions a managed server makes: whether an operation fits its status, how its
//! executable is started, what is sent to its console and what is stored of it.
use crate::command::{command_line, Command};
use crate::error::ServerError;
use crate::importer::{opt_text, CustomFiles, StoredGame};
use crate::settings::start::{Start, StartBehaviour};
use crate::settings::store_format::{empty_store_format, GameSettings, StoreView};
use crate::settings::{settings_into_store_format, ServerSettings};
use crate::status::ExecutionStatus;
use vstd::prelude::*;
use vstd::string::StringExecFns;

verus! {

/// Checks that a server's status is the one an operation needs; fails with `InvalidGameStatus`
/// holding the actual status otherwise.
pub fn assert_status(actual: ExecutionStatus, expected: ExecutionStatus) -> (r: Result<(), ServerError>)
    ensures
        actual == expected ==> r is Ok,
        actual != expected ==> (r matches Err(ServerError::InvalidGameStatus(s)) && s == actual),
{
    if actual == expected {
        Ok(())
    } else {
        Err(ServerError::InvalidGameStatus(actual))
    }
}

/// A server's store ID; fails with `GameNotInStore` when the server has not been stored yet.
pub fn store_id(id: Option<i64>) -> (r: Result<i64, ServerError>)
    ensures
        id matches Some(i) ==> r == Ok::<i64, ServerError>(i),
        id is None ==> r matches Err(ServerError::GameNotInStore),
{
    match id {
        Some(i) => Ok(i),
        None => Err(ServerError::GameNotInStore),
    }
}

/// The console line to send for a command, which only a running server takes: fails with
/// `InvalidGameStatus` holding the actual status otherwise.
pub fn command_input(status: ExecutionStatus, command: &Command) -> (r: Result<String, ServerError>)
    ensures
        status == ExecutionStatus::Running ==> (r matches Ok(t) && t@ == command_line(*command)),
        status != ExecutionStatus::Running ==> (r matches Err(ServerError::InvalidGameStatus(s))
            && s == status),
{
    match assert_status(status, ExecutionStatus::Running) {
        Ok(()) => Ok(command.get_command_string()),
        Err(e) => Err(e),
    }
}

/// The arguments the executable is started with: how to start, then `--bind` and the address
/// to listen on.
pub open spec fn executable_arguments(start: Start, bind_address: Seq<char>) -> Seq<Seq<char>> {
    let how = match start.behaviour {
        StartBehaviour::LoadLatest => seq!["--start-server-load-latest"@],
        _ => seq!["--start-server"@, start.save_name@],
    };
    how + seq!["--bind"@, bind_address]
}

/// The arguments the executable is started with: `--start-server-load-latest`, or
/// `--start-server` and the save's name, then `--bind` and the address to listen on (its text).
/// Only those two start behaviours are implemented.
pub fn get_executable_args(start: &Start, bind_address: &str) -> (r: Vec<String>)
    requires
        start.behaviour == StartBehaviour::LoadLatest || start.behaviour
            == StartBehaviour::LoadFile,
    ensures
        r@.map_values(|a: String| a@) == executable_arguments(*start, bind_address@),
{
    let mut args: Vec<String> = Vec::new();
    match start.behaviour {
        StartBehaviour::LoadLatest => args.push(String::from_str("--start-server-load-latest")),
        _ => {
            args.push(String::from_str("--start-server"));
            args.push(start.save_name.clone());
        },
    }
    args.push(String::from_str("--bind"));
    args.push(String::from_str(bind_address));
    assert(args@.map_values(|a: String| a@) =~= executable_arguments(*start, bind_address@));
    args
}

/// The program store's record of a game: its root directory and the files it keeps under other
/// than their usual names, under the given ID.
pub fn stored_game(id: i64, root: &str, files: CustomFiles) -> (r: StoredGame)
    ensures
        r.id == id,
        r.path@ == root@,
        opt_text(r.settings_file) == opt_text(files.settings_file),
        opt_text(r.whitelist_file) == opt_text(files.whitelist_file),
        opt_text(r.banlist_file) == opt_text(files.banlist_file),
        opt_text(r.adminlist_file) == opt_text(files.adminlist_file),
{
    StoredGame {
        id,
        path: String::from_str(root),
        settings_file: files.settings_file,
        whitelist_file: files.whitelist_file,
        banlist_file: files.banlist_file,
        adminlist_file: files.adminlist_file,
    }
}

/// The settings stored for a game: its settings written into empty stored settings of its ID.
pub fn settings_to_store(settings: &ServerSettings, id: i64) -> (r: GameSettings)
    ensures
        r@ == settings_into_store_format(settings@, StoreView { game: id, ..empty_store_format() }),
{
    let mut stored = GameSettings::default();
    stored.game = id;
    settings.to_store_format(&mut stored);
    stored
}

} // verus!
