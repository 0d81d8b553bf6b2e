//! The errors that the library reports.
use crate::dependency::{Dependency, DependencyView};
use crate::status::ExecutionStatus;
use crate::version::IntParseError;
use crate::version_information::VersionInformationFailure;
use vstd::prelude::*;

verus! {

/// Why a string is not a version or a version requirement.
#[derive(Debug, PartialEq, Eq)]
pub enum HumanVersionError {
    /// A component of the version is not an integer.
    ParsingError(IntParseError),
    /// The version has fewer than three components.
    MissingComponent,
    /// The requirement string does not have the form of a requirement.
    NoRegexCaptures(String),
    /// The requirement string has no comparator.
    MissingComparator(String),
    /// The requirement string has no version.
    MissingVersion(String),
}

/// The meaning of a [`HumanVersionError`], with its text as a character sequence.
pub enum HumanVersionErrorView {
    ParsingError(IntParseError),
    MissingComponent,
    NoRegexCaptures(Seq<char>),
    MissingComparator(Seq<char>),
    MissingVersion(Seq<char>),
}

impl View for HumanVersionError {
    type V = HumanVersionErrorView;

    open spec fn view(&self) -> HumanVersionErrorView {
        match self {
            HumanVersionError::ParsingError(e) => HumanVersionErrorView::ParsingError(*e),
            HumanVersionError::MissingComponent => HumanVersionErrorView::MissingComponent,
            HumanVersionError::NoRegexCaptures(s) => HumanVersionErrorView::NoRegexCaptures(s@),
            HumanVersionError::MissingComparator(s) => HumanVersionErrorView::MissingComparator(s@),
            HumanVersionError::MissingVersion(s) => HumanVersionErrorView::MissingVersion(s@),
        }
    }
}

/// What can go wrong with a server's executable.
#[derive(Debug)]
pub enum ExecutableError {
    /// The executable at the path is not a Factorio server executable.
    InvalidExecutable {
        /// The path to the executable.
        path: String,
    },
    /// The executable terminated unsuccessfully (by a signal or with a non-zero exit code).
    Unsuccesfull {
        /// The exit code, if any.
        exit_code: Option<i32>,
        /// The whole standard output, if read.
        stdout: Option<String>,
        /// The whole standard error, if read.
        stderr: Option<String>,
    },
    /// A version report could not be read.
    InvalidVersionInformation {
        /// The whole report.
        ver_str: String,
        /// Why it could not be read.
        reason: VersionInformationFailure,
    },
    /// A child process had no handle for its standard input or output.
    NoStdioHandle,
}

/// Why a line of a server's output is not an event.
#[derive(Debug)]
pub enum GameEventError {
    /// The line matches no event grammar.
    NoParser(String),
    /// The line failed to be read as an event.
    FailedToParse(String),
}

/// Why settings could not be read.
#[derive(Debug)]
pub enum SettingsError {
    /// A field has an unexpected value.
    UnexpectedValue(String),
}

/// What can go wrong with a path.
#[derive(Clone, Copy, Debug, PartialEq, Eq, Structural)]
pub enum PathError {
    /// The path has no file name.
    NoFilename,
    /// The path is not valid Unicode.
    InvalidUnicode,
}

/// What can go wrong with a response of the mod portal.
#[derive(Clone, Copy, Debug, PartialEq, Eq, Structural)]
pub enum ResponseError {
    /// The response's URL has no file name.
    NoFilename,
}

/// What can go wrong with a zip archive.
#[derive(Debug)]
pub enum ZipError {
    /// The archive holds no file of this name.
    NoFile(String),
}

/// Why a mod dependency string could not be read.
#[derive(Debug)]
pub enum DependencyParsingError {
    /// The string does not have the form of a dependency.
    NoRegexCaptures(String),
    /// The string names no mod.
    NameNotCaptured(String),
    /// The requirement prefix is not one of those known.
    InvalidRequirementString(String),
    /// The version requirement could not be read.
    InvalidVersionRequirementString(HumanVersionError),
}

/// The meaning of a [`DependencyParsingError`], with its texts as character sequences.
pub enum DependencyParsingErrorView {
    NoRegexCaptures(Seq<char>),
    NameNotCaptured(Seq<char>),
    InvalidRequirementString(Seq<char>),
    InvalidVersionRequirementString(HumanVersionErrorView),
}

impl View for DependencyParsingError {
    type V = DependencyParsingErrorView;

    open spec fn view(&self) -> DependencyParsingErrorView {
        match self {
            DependencyParsingError::NoRegexCaptures(s) => DependencyParsingErrorView::NoRegexCaptures(s@),
            DependencyParsingError::NameNotCaptured(s) => DependencyParsingErrorView::NameNotCaptured(s@),
            DependencyParsingError::InvalidRequirementString(s) =>
                DependencyParsingErrorView::InvalidRequirementString(s@),
            DependencyParsingError::InvalidVersionRequirementString(e) =>
                DependencyParsingErrorView::InvalidVersionRequirementString(e@),
        }
    }
}

/// What can go wrong with the program store.
#[derive(Debug)]
pub enum StoreError {
    /// The store file's permissions allow more than they should.
    InsufficientFilePermissions {
        /// The store file's path.
        path: String,
        /// The most permissive mode allowed.
        maximum: u32,
        /// The file's mode.
        actual: u32,
    },
}

/// What can go wrong with the program's configuration.
#[derive(Clone, Copy, Debug, PartialEq, Eq, Structural)]
pub enum ConfigError {
    /// No address to listen on was given.
    NoListenAddresses,
}

/// What can go wrong when batching mod updates.
#[derive(Debug)]
pub enum UpdateBatcherError {
    /// The mod portal returned a mod that was not asked for.
    UnknownModName(String),
}

/// What can go wrong with a server.
#[derive(Debug)]
pub enum ServerError {
    /// The server is not in a status that allows the operation.
    InvalidGameStatus(ExecutionStatus),
    /// The game has not been added to the program store yet.
    GameNotInStore,
    /// A player of this name is already in the server.
    PlayerAlreadyExists(String),
    /// No player has this name or peer ID.
    NoSuchPlayer(String),
    /// The last modified player is missing: its index and the number of players.
    NoLastModifiedPlayer(usize, usize),
}

/// Why the players of a server could not be updated from an event.
#[derive(Debug)]
pub enum StatusUpdateError {
    /// The update does not fit the server's players.
    Server(ServerError),
    /// A peer ID is not an integer.
    InvalidPeerId(IntParseError),
    /// A peer state has no such name.
    UnknownPeerState(String),
    /// A peer's address is not a socket address.
    InvalidAddress(String),
}

/// The meaning of a [`ServerError`], with its texts as character sequences.
pub enum ServerErrorView {
    InvalidGameStatus(ExecutionStatus),
    GameNotInStore,
    PlayerAlreadyExists(Seq<char>),
    NoSuchPlayer(Seq<char>),
    NoLastModifiedPlayer(usize, usize),
}

impl View for ServerError {
    type V = ServerErrorView;

    open spec fn view(&self) -> ServerErrorView {
        match self {
            ServerError::InvalidGameStatus(s) => ServerErrorView::InvalidGameStatus(*s),
            ServerError::GameNotInStore => ServerErrorView::GameNotInStore,
            ServerError::PlayerAlreadyExists(u) => ServerErrorView::PlayerAlreadyExists(u@),
            ServerError::NoSuchPlayer(u) => ServerErrorView::NoSuchPlayer(u@),
            ServerError::NoLastModifiedPlayer(i, n) => ServerErrorView::NoLastModifiedPlayer(*i, *n),
        }
    }
}

/// The meaning of a [`StatusUpdateError`], with its texts as character sequences.
pub enum StatusUpdateErrorView {
    Server(ServerErrorView),
    InvalidPeerId(IntParseError),
    UnknownPeerState(Seq<char>),
    InvalidAddress(Seq<char>),
}

impl View for StatusUpdateError {
    type V = StatusUpdateErrorView;

    open spec fn view(&self) -> StatusUpdateErrorView {
        match self {
            StatusUpdateError::Server(e) => StatusUpdateErrorView::Server(e@),
            StatusUpdateError::InvalidPeerId(e) => StatusUpdateErrorView::InvalidPeerId(*e),
            StatusUpdateError::UnknownPeerState(s) => StatusUpdateErrorView::UnknownPeerState(s@),
            StatusUpdateError::InvalidAddress(s) => StatusUpdateErrorView::InvalidAddress(s@),
        }
    }
}

/// What can go wrong with a server's mods.
#[derive(Debug)]
pub enum ModError {
    /// No mod has this name.
    NoSuchMod(String),
    /// Two mods share a zip archive.
    DuplicateMod(String),
    /// A mod that a mod is incompatible with is installed.
    CannotEnsureDependency {
        /// The dependency that cannot be met.
        dependency: Dependency,
        /// How the mod that depends on it is shown.
        mod_display: String,
    },
    /// A mod's information is missing (the mod is not installed).
    MissingInfo,
    /// The mod portal lists no release of a mod.
    NoReleases,
    /// The base mod cannot be disabled.
    CannotDisableBaseMod,
}

/// The meaning of a [`ModError`], with its texts as character sequences.
pub enum ModErrorView {
    NoSuchMod(Seq<char>),
    DuplicateMod(Seq<char>),
    CannotEnsureDependency { dependency: DependencyView, mod_display: Seq<char> },
    MissingInfo,
    NoReleases,
    CannotDisableBaseMod,
}

impl View for ModError {
    type V = ModErrorView;

    open spec fn view(&self) -> ModErrorView {
        match self {
            ModError::NoSuchMod(n) => ModErrorView::NoSuchMod(n@),
            ModError::DuplicateMod(z) => ModErrorView::DuplicateMod(z@),
            ModError::CannotEnsureDependency { dependency, mod_display } =>
                ModErrorView::CannotEnsureDependency {
                dependency: dependency@,
                mod_display: mod_display@,
            },
            ModError::MissingInfo => ModErrorView::MissingInfo,
            ModError::NoReleases => ModErrorView::NoReleases,
            ModError::CannotDisableBaseMod => ModErrorView::CannotDisableBaseMod,
        }
    }
}

/// What can go wrong with a remote request.
#[derive(Debug)]
pub enum RpcError {
    /// No server has this store ID.
    NoSuchServer(i64),
    /// A server in this root directory is already managed.
    GameAlreadyExists(String),
    /// No mod has this name.
    NoSuchMod(String),
    /// No command has this identifier.
    NoSuchCommand(i32),
    /// The request lacks an argument it needs.
    MissingArgument,
    /// Something else went wrong; its message.
    Internal(String),
}

/// A result with its error taken by its view.
pub open spec fn err_view<T, E: View>(r: Result<T, E>) -> Result<T, E::V> {
    match r {
        Ok(v) => Ok(v),
        Err(e) => Err(e@),
    }
}

} // verus!
