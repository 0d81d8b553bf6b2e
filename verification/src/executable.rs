//! What a server executable's runs and output mean: its exit, its version report and the events
//! its output lines tell of.
use crate::error::ExecutableError;
use crate::game_event::{spec_event_type, GameEvent};
use crate::version_information::{spec_version_information, VersionInformation};
use vstd::prelude::*;
use vstd::string::StringExecFns;

verus! {

/// The path of a server's executable in its root directory.
pub const DEFAULT_PATH: &'static str = "bin/x64/factorio";

/// The argument that makes the executable report its version.
pub const VERSION_ARGUMENT: &'static str = "--version";

/// What happened to a running executable.
#[derive(Debug)]
pub enum ExecutableEvent {
    /// A line of its output told of an event in the game.
    GameEvent(GameEvent),
    /// It exited, successfully or not.
    Exited(Result<(), ExecutableError>),
}

/// The in-game state.
#[derive(Clone, Copy, Debug, PartialEq, Eq, Structural)]
pub enum GameState {
    /// The game is being created.
    Ready,
    /// The server is preparing to host the game.
    PreparedToHostGame,
    /// The server is creating the game.
    CreatingGame,
    /// The game is running.
    InGame,
    /// The game is preparing to disconnect.
    DisconnectingScheduled,
    /// The game is disconnecting.
    Disconnecting,
    /// The game is closed.
    Closed,
}

/// The state of a server executable.
#[derive(Debug)]
pub enum ExecutableState {
    /// The in-game state.
    GameState(GameState),
    /// The executable exited, successfully or not.
    Exited(Result<(), ExecutableError>),
}

/// The text that `String::from_utf8_lossy` makes of bytes.
pub uninterp spec fn utf8_lossy(bytes: Seq<u8>) -> Seq<char>;

/// The text of a process's output, from `String::from_utf8_lossy`: valid UTF-8 sequences decoded
/// and each invalid one replaced by U+FFFD. The result is named, not spelled out.
#[verifier::external_body]
fn lossy_text(bytes: &[u8]) -> (r: String)
    ensures
        r@ == utf8_lossy(bytes@),
{
    String::from_utf8_lossy(bytes).to_string()
}

/// The result of an executable's exit: success, or `Unsuccesfull` with its exit code (none when
/// a signal ended it).
pub fn exit_result(success: bool, exit_code: Option<i32>) -> (r: Result<(), ExecutableError>)
    ensures
        success ==> r is Ok,
        !success ==> (r matches Err(
            ExecutableError::Unsuccesfull { exit_code: c, stdout: None, stderr: None },
        ) && c == exit_code),
{
    if success {
        Ok(())
    } else {
        Err(ExecutableError::Unsuccesfull { exit_code, stdout: None, stderr: None })
    }
}

/// The result of a run of an executable for its output: the output's text when it exited
/// successfully, else `Unsuccesfull` with its exit code and both texts.
pub fn output_result(success: bool, exit_code: Option<i32>, stdout: String, stderr: String) -> (r:
    Result<String, ExecutableError>)
    ensures
        success ==> (r matches Ok(t) && t@ == stdout@),
        !success ==> (r matches Err(
            ExecutableError::Unsuccesfull { exit_code: c, stdout: Some(o), stderr: Some(e) },
        ) && c == exit_code && o@ == stdout@ && e@ == stderr@),
{
    if success {
        Ok(stdout)
    } else {
        Err(ExecutableError::Unsuccesfull { exit_code, stdout: Some(stdout), stderr: Some(stderr) })
    }
}

/// The result of a run of an executable for its output, from the bytes it wrote to its standard
/// output and to its standard error: the output's text when it exited successfully, else
/// `Unsuccesfull` with its exit code, the output's text and the error text.
pub fn run_output(success: bool, exit_code: Option<i32>, stdout: &Vec<u8>, stderr: &Vec<u8>) -> (r:
    Result<String, ExecutableError>)
    ensures
        success ==> (r matches Ok(t) && t@ == utf8_lossy(stdout@)),
        !success ==> (r matches Err(
            ExecutableError::Unsuccesfull { exit_code: c, stdout: Some(o), stderr: Some(e) },
        ) && c == exit_code && o@ == utf8_lossy(stdout@) && e@ == utf8_lossy(stderr@)),
{
    let out = lossy_text(stdout.as_slice());
    let err = lossy_text(stderr.as_slice());
    output_result(success, exit_code, out, err)
}

/// The version of an executable from the output of its run with `--version`: the version report
/// it printed, or `InvalidExecutable` holding its path when the run failed or the output is no
/// version report.
pub fn detect_version(path: &str, output: Result<String, ExecutableError>) -> (r: Result<
    VersionInformation,
    ExecutableError,
>)
    ensures
        match output {
            Ok(text) => match spec_version_information(text@) {
                Ok(v) => r matches Ok(x) && x@ == v,
                Err(_) => r matches Err(ExecutableError::InvalidExecutable { path: p }) && p@ == path@,
            },
            Err(_) => r matches Err(ExecutableError::InvalidExecutable { path: p }) && p@ == path@,
        },
{
    match output {
        Ok(text) => match VersionInformation::from_str(text.as_str()) {
            Ok(v) => Ok(v),
            Err(_) => Err(ExecutableError::InvalidExecutable { path: String::from_str(path) }),
        },
        Err(_) => Err(ExecutableError::InvalidExecutable { path: String::from_str(path) }),
    }
}

/// The event that a line of a running server's output tells of, stamped with the time it was
/// read; lines that tell of no event are skipped.
pub fn stdout_event(timestamp: i64, line: &str) -> (r: Option<ExecutableEvent>)
    ensures
        match spec_event_type(line@) {
            Some(e) => r matches Some(ExecutableEvent::GameEvent(g)) && g.timestamp == timestamp
                && g.event_type@ == e,
            None => r is None,
        },
{
    match GameEvent::new(timestamp, line) {
        Ok(event) => Some(ExecutableEvent::GameEvent(event)),
        Err(_) => None,
    }
}

} // verus!
