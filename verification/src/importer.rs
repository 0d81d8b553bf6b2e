//! Where the files of a server to import are, and where its settings are read from.
use crate::text::str_equal;
use vstd::prelude::*;
use vstd::string::StringExecFns;

verus! {

/// The name of a server's settings file in its root directory.
pub const SERVER_SETTINGS_FILENAME: &'static str = "server-settings.json";
/// The name of a server's whitelist file in its root directory.
pub const WHITELIST_FILENAME: &'static str = "server-whitelist.json";
/// The name of a server's banlist file in its root directory.
pub const BANLIST_FILENAME: &'static str = "server-banlist.json";
/// The name of a server's adminlist file in its root directory.
pub const ADMINLIST_FILENAME: &'static str = "server-adminlist.json";
/// The path of a server's mods directory in its root directory.
pub const MODS_PATH: &'static str = "mods/";
/// The path of a server's executable in its root directory.
pub const DEFAULT_EXECUTABLE_PATH: &'static str = "bin/x64/factorio";

/// A path with another joined to it, as on Unix: an absolute path (one that starts with `/`)
/// replaces the base; otherwise the two are joined with a `/` unless the base is empty or ends
/// in one.
pub open spec fn path_joined(base: Seq<char>, p: Seq<char>) -> Seq<char> {
    if p.len() > 0 && p[0] == '/' {
        p
    } else if base.len() == 0 || base.last() == '/' {
        base + p
    } else {
        base + seq!['/'] + p
    }
}

/// A path with another joined to it, as on Unix.
pub fn path_join(base: &str, p: &str) -> (r: String)
    ensures
        r@ == path_joined(base@, p@),
{
    let pc = crate::text::str_to_chars(p);
    let bc = crate::text::str_to_chars(base);
    if pc.len() > 0 && pc[0] == '/' {
        return String::from_str(p);
    }
    let mut out = String::from_str(base);
    if bc.len() > 0 && bc[bc.len() - 1] != '/' {
        out.append("/");
        proof {
            reveal_strlit("/");
        }
    }
    out.append(p);
    out
}

/// A game as the program store holds it: its root directory and the files it does not keep
/// under their usual names.
#[derive(Debug)]
pub struct StoredGame {
    /// The game's store ID.
    pub id: i64,
    /// The game's root directory.
    pub path: String,
    /// The game's settings file, when not the usual one.
    pub settings_file: Option<String>,
    /// The game's whitelist file, when not the usual one.
    pub whitelist_file: Option<String>,
    /// The game's banlist file, when not the usual one.
    pub banlist_file: Option<String>,
    /// The game's adminlist file, when not the usual one.
    pub adminlist_file: Option<String>,
}

/// The text of an optional string.
pub open spec fn opt_text(s: Option<String>) -> Option<Seq<char>> {
    match s {
        Some(t) => Some(t@),
        None => None,
    }
}

/// A builder of a server to import.
#[derive(Debug)]
pub struct Importer {
    root: String,
    settings: String,
    whitelist: String,
    banlist: String,
    adminlist: String,
    executable: String,
    game_store_id: Option<i64>,
}

/// The meaning of an [`Importer`].
pub struct ImporterView {
    pub root: Seq<char>,
    pub settings: Seq<char>,
    pub whitelist: Seq<char>,
    pub banlist: Seq<char>,
    pub adminlist: Seq<char>,
    pub executable: Seq<char>,
    pub game_store_id: Option<i64>,
}

impl View for Importer {
    type V = ImporterView;

    closed spec fn view(&self) -> ImporterView {
        ImporterView {
            root: self.root@,
            settings: self.settings@,
            whitelist: self.whitelist@,
            banlist: self.banlist@,
            adminlist: self.adminlist@,
            executable: self.executable@,
            game_store_id: self.game_store_id,
        }
    }
}

/// The file under a root directory: the stored one when there is one, else the usual one.
pub open spec fn stored_file(root: Seq<char>, stored: Option<Seq<char>>, usual: Seq<char>) -> Seq<
    char,
> {
    path_joined(
        root,
        match stored {
            Some(p) => p,
            None => usual,
        },
    )
}

/// The paths a server is imported from.
#[derive(Debug)]
pub struct ImportPaths {
    /// The mods directory.
    pub mods: String,
    /// The settings file.
    pub settings: String,
    /// The whitelist file.
    pub whitelist: String,
    /// The banlist file.
    pub banlist: String,
    /// The adminlist file.
    pub adminlist: String,
}

/// The files of an imported server that it keeps under other than their usual names, each
/// `None` where it is the usual one.
#[derive(Debug)]
pub struct CustomFiles {
    /// The settings file.
    pub settings_file: Option<String>,
    /// The whitelist file.
    pub whitelist_file: Option<String>,
    /// The banlist file.
    pub banlist_file: Option<String>,
    /// The adminlist file.
    pub adminlist_file: Option<String>,
}

/// A file's path when it is not the usual name.
pub open spec fn custom(p: Seq<char>, usual: Seq<char>) -> Option<Seq<char>> {
    if p == usual {
        None
    } else {
        Some(p)
    }
}

/// A file's path when it is not the usual name.
fn custom_file(p: &String, usual: &str) -> (r: Option<String>)
    ensures
        opt_text(r) == custom(p@, usual@),
{
    if str_equal(p.as_str(), usual) {
        None
    } else {
        Some(p.clone())
    }
}

/// Where a stored game's settings are read from.
#[derive(Clone, Copy, Debug, PartialEq, Eq, Structural)]
pub enum SettingsSource {
    /// The program store.
    Store,
    /// The server's settings file.
    File,
}

/// Where a stored game's settings are read from: the settings file when it was modified after
/// the settings were stored, or when the store does not know when they were; else the store.
pub open spec fn settings_source_of(stored_last_mtime: Option<i64>, file_last_mtime: i64) -> SettingsSource {
    match stored_last_mtime {
        Some(stored) => if file_last_mtime > stored {
            SettingsSource::File
        } else {
            SettingsSource::Store
        },
        None => SettingsSource::File,
    }
}

/// Where a stored game's settings are read from, given when the settings were stored (if
/// known) and when the settings file was last modified.
pub fn settings_source(stored_last_mtime: Option<i64>, file_last_mtime: i64) -> (r: SettingsSource)
    ensures
        r == settings_source_of(stored_last_mtime, file_last_mtime),
{
    match stored_last_mtime {
        Some(stored) => if file_last_mtime > stored {
            SettingsSource::File
        } else {
            SettingsSource::Store
        },
        None => SettingsSource::File,
    }
}

impl Importer {
    /// A server in a root directory, with its files under their usual names. `root` is the
    /// directory as given and `canonical_root` its canonical form: the server is kept under the
    /// canonical form and its executable is looked for under the given one.
    pub fn from_root(root: &str, canonical_root: &str) -> (r: Self)
        ensures
            r@ == (ImporterView {
                root: canonical_root@,
                settings: SERVER_SETTINGS_FILENAME@,
                whitelist: WHITELIST_FILENAME@,
                banlist: BANLIST_FILENAME@,
                adminlist: ADMINLIST_FILENAME@,
                executable: path_joined(root@, DEFAULT_EXECUTABLE_PATH@),
                game_store_id: None,
            }),
    {
        Importer {
            root: String::from_str(canonical_root),
            settings: String::from_str(SERVER_SETTINGS_FILENAME),
            whitelist: String::from_str(WHITELIST_FILENAME),
            banlist: String::from_str(BANLIST_FILENAME),
            adminlist: String::from_str(ADMINLIST_FILENAME),
            executable: path_join(root, DEFAULT_EXECUTABLE_PATH),
            game_store_id: None,
        }
    }

    /// A server as the program store holds it: its files under its root directory, the stored
    /// ones where there are, else the usual ones.
    pub fn from_store(stored_game: &StoredGame) -> (r: Self)
        ensures
            r@ == (ImporterView {
                root: stored_game.path@,
                settings: stored_file(
                    stored_game.path@,
                    opt_text(stored_game.settings_file),
                    SERVER_SETTINGS_FILENAME@,
                ),
                whitelist: stored_file(
                    stored_game.path@,
                    opt_text(stored_game.whitelist_file),
                    WHITELIST_FILENAME@,
                ),
                banlist: stored_file(
                    stored_game.path@,
                    opt_text(stored_game.banlist_file),
                    BANLIST_FILENAME@,
                ),
                adminlist: stored_file(
                    stored_game.path@,
                    opt_text(stored_game.adminlist_file),
                    ADMINLIST_FILENAME@,
                ),
                executable: path_joined(stored_game.path@, DEFAULT_EXECUTABLE_PATH@),
                game_store_id: Some(stored_game.id),
            }),
    {
        let root = stored_game.path.as_str();
        let settings = match &stored_game.settings_file {
            Some(p) => path_join(root, p.as_str()),
            None => path_join(root, SERVER_SETTINGS_FILENAME),
        };
        let whitelist = match &stored_game.whitelist_file {
            Some(p) => path_join(root, p.as_str()),
            None => path_join(root, WHITELIST_FILENAME),
        };
        let banlist = match &stored_game.banlist_file {
            Some(p) => path_join(root, p.as_str()),
            None => path_join(root, BANLIST_FILENAME),
        };
        let adminlist = match &stored_game.adminlist_file {
            Some(p) => path_join(root, p.as_str()),
            None => path_join(root, ADMINLIST_FILENAME),
        };
        Importer {
            root: stored_game.path.clone(),
            settings,
            whitelist,
            banlist,
            adminlist,
            executable: path_join(root, DEFAULT_EXECUTABLE_PATH),
            game_store_id: Some(stored_game.id),
        }
    }

    /// This builder with another settings file.
    pub fn with_server_settings(self, settings: &str) -> (r: Self)
        ensures
            r@ == (ImporterView { settings: settings@, ..self@ }),
    {
        Importer { settings: String::from_str(settings), ..self }
    }

    /// This builder with another whitelist file.
    pub fn with_whitelist(self, whitelist: &str) -> (r: Self)
        ensures
            r@ == (ImporterView { whitelist: whitelist@, ..self@ }),
    {
        Importer { whitelist: String::from_str(whitelist), ..self }
    }

    /// This builder with another banlist file.
    pub fn with_banlist(self, banlist: &str) -> (r: Self)
        ensures
            r@ == (ImporterView { banlist: banlist@, ..self@ }),
    {
        Importer { banlist: String::from_str(banlist), ..self }
    }

    /// This builder with another adminlist file.
    pub fn with_adminlist(self, adminlist: &str) -> (r: Self)
        ensures
            r@ == (ImporterView { adminlist: adminlist@, ..self@ }),
    {
        Importer { adminlist: String::from_str(adminlist), ..self }
    }

    /// This builder with another executable, whose path is relative to the server's root
    /// directory (an absolute path stands as it is).
    pub fn with_executable_path(self, executable: &str) -> (r: Self)
        ensures
            r@ == (ImporterView { executable: path_joined(self@.root, executable@), ..self@ }),
    {
        let joined = path_join(self.root.as_str(), executable);
        Importer { executable: joined, ..self }
    }

    /// The server's root directory.
    pub fn root(&self) -> (r: &String)
        ensures
            r@ == self@.root,
    {
        &self.root
    }

    /// The server's executable.
    pub fn executable(&self) -> (r: &String)
        ensures
            r@ == self@.executable,
    {
        &self.executable
    }

    /// The server's store ID, for a server that the program store holds.
    pub fn game_store_id(&self) -> (r: Option<i64>)
        ensures
            r == self@.game_store_id,
    {
        self.game_store_id
    }

    /// The paths the server is imported from: each file joined to the root directory.
    pub fn import_paths(&self) -> (r: ImportPaths)
        ensures
            r.mods@ == path_joined(self@.root, MODS_PATH@),
            r.settings@ == path_joined(self@.root, self@.settings),
            r.whitelist@ == path_joined(self@.root, self@.whitelist),
            r.banlist@ == path_joined(self@.root, self@.banlist),
            r.adminlist@ == path_joined(self@.root, self@.adminlist),
    {
        let root = self.root.as_str();
        ImportPaths {
            mods: path_join(root, MODS_PATH),
            settings: path_join(root, self.settings.as_str()),
            whitelist: path_join(root, self.whitelist.as_str()),
            banlist: path_join(root, self.banlist.as_str()),
            adminlist: path_join(root, self.adminlist.as_str()),
        }
    }

    /// The server's files that are not under their usual names.
    pub fn custom_files(&self) -> (r: CustomFiles)
        ensures
            opt_text(r.settings_file) == custom(self@.settings, SERVER_SETTINGS_FILENAME@),
            opt_text(r.whitelist_file) == custom(self@.whitelist, WHITELIST_FILENAME@),
            opt_text(r.banlist_file) == custom(self@.banlist, BANLIST_FILENAME@),
            opt_text(r.adminlist_file) == custom(self@.adminlist, ADMINLIST_FILENAME@),
    {
        CustomFiles {
            settings_file: custom_file(&self.settings, SERVER_SETTINGS_FILENAME),
            whitelist_file: custom_file(&self.whitelist, WHITELIST_FILENAME),
            banlist_file: custom_file(&self.banlist, BANLIST_FILENAME),
            adminlist_file: custom_file(&self.adminlist, ADMINLIST_FILENAME),
        }
    }
}

} // verus!
