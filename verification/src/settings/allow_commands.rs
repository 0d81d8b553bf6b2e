//! The `allow_commands` setting.
use crate::error::SettingsError;
use crate::settings::game_format::{GameFormatView, ServerSettingsGameFormat};
use crate::settings::store_format::{GameSettings, StoreView};
use crate::text::str_equal;
use vstd::prelude::*;
use vstd::string::StringExecFns;

verus! {

/// The `allow_commands` setting. Defaults to `AdminsOnly`.
#[derive(Clone, Copy, Debug, PartialEq, Eq, Structural)]
pub enum AllowCommands {
    /// The value `true`.
    Yes,
    /// The value `false`.
    No,
    /// The value `admins-only`.
    AdminsOnly,
}

/// The setting that a value of the `allow_commands` field stands for.
pub open spec fn allow_commands_named(s: Seq<char>) -> Option<AllowCommands> {
    if s == "true"@ {
        Some(AllowCommands::Yes)
    } else if s == "false"@ {
        Some(AllowCommands::No)
    } else if s == "admins-only"@ {
        Some(AllowCommands::AdminsOnly)
    } else {
        None
    }
}

/// The value of the `allow_commands` field for a setting.
pub open spec fn allow_commands_text(a: AllowCommands) -> Seq<char> {
    match a {
        AllowCommands::Yes => "true"@,
        AllowCommands::No => "false"@,
        AllowCommands::AdminsOnly => "admins-only"@,
    }
}

/// Whether a result of reading the `allow_commands` field with the value `v` is what the value
/// stands for, or the error that holds the unexpected value.
pub open spec fn allow_commands_result(v: Seq<char>, r: Result<AllowCommands, SettingsError>) -> bool {
    match allow_commands_named(v) {
        Some(a) => r == Ok::<AllowCommands, SettingsError>(a),
        None => r matches Err(SettingsError::UnexpectedValue(m)) && m@ == v,
    }
}

/// Reads the value of the `allow_commands` field.
fn read_allow_commands(v: &String) -> (r: Result<AllowCommands, SettingsError>)
    ensures
        allow_commands_result(v@, r),
{
    if str_equal(v.as_str(), "true") {
        Ok(AllowCommands::Yes)
    } else if str_equal(v.as_str(), "false") {
        Ok(AllowCommands::No)
    } else if str_equal(v.as_str(), "admins-only") {
        Ok(AllowCommands::AdminsOnly)
    } else {
        Err(SettingsError::UnexpectedValue(v.clone()))
    }
}

/// The value of the `allow_commands` field for a setting.
fn allow_commands_string(a: AllowCommands) -> (r: String)
    ensures
        r@ == allow_commands_text(a),
{
    match a {
        AllowCommands::Yes => String::from_str("true"),
        AllowCommands::No => String::from_str("false"),
        AllowCommands::AdminsOnly => String::from_str("admins-only"),
    }
}

impl Default for AllowCommands {
    fn default() -> (r: Self)
        ensures
            r == AllowCommands::AdminsOnly,
    {
        AllowCommands::AdminsOnly
    }
}

impl AllowCommands {
    /// Reads the setting from a `server-settings.json` structure.
    pub fn from_game_format(game_format: &ServerSettingsGameFormat) -> (r: Result<Self, SettingsError>)
        ensures
            allow_commands_result(game_format.allow_commands@, r),
    {
        read_allow_commands(&game_format.allow_commands)
    }

    /// Writes the setting into a `server-settings.json` structure.
    pub fn to_game_format(&self, game_format: &mut ServerSettingsGameFormat)
        ensures
            final(game_format)@ == (GameFormatView {
                allow_commands: allow_commands_text(*self),
                ..old(game_format)@
            }),
    {
        game_format.allow_commands = allow_commands_string(*self);
    }

    /// Reads the setting from a stored game's settings.
    pub fn from_store_format(store_format: &GameSettings) -> (r: Result<Self, SettingsError>)
        ensures
            allow_commands_result(store_format.allow_commands@, r),
    {
        read_allow_commands(&store_format.allow_commands)
    }

    /// Writes the setting into a stored game's settings.
    pub fn to_store_format(&self, store_format: &mut GameSettings)
        ensures
            final(store_format)@ == (StoreView {
                allow_commands: allow_commands_text(*self),
                ..old(store_format)@
            }),
    {
        store_format.allow_commands = allow_commands_string(*self);
    }
}

/// Writing a setting and reading it back gives the same setting.
pub proof fn law_allow_commands_roundtrip(a: AllowCommands)
    ensures
        allow_commands_named(allow_commands_text(a)) == Some(a),
{
    reveal_strlit("true");
    reveal_strlit("false");
    reveal_strlit("admins-only");
    assert("true"@.len() != "false"@.len());
    assert("true"@.len() != "admins-only"@.len());
    assert("false"@.len() != "admins-only"@.len());
}

/// In `server-settings.json`, `true` allows commands, `false` forbids them and `admins-only`
/// allows them to admins; each setting is written as that value, and no other value reads as a
/// setting.
pub proof fn law_allow_commands_values(s: Seq<char>)
    ensures
        allow_commands_named("true"@) == Some(AllowCommands::Yes),
        allow_commands_named("false"@) == Some(AllowCommands::No),
        allow_commands_named("admins-only"@) == Some(AllowCommands::AdminsOnly),
        allow_commands_text(AllowCommands::Yes) == "true"@,
        allow_commands_text(AllowCommands::No) == "false"@,
        allow_commands_text(AllowCommands::AdminsOnly) == "admins-only"@,
        allow_commands_named(s) is Some ==> s == "true"@ || s == "false"@ || s == "admins-only"@,
{
    reveal_strlit("true");
    reveal_strlit("false");
    reveal_strlit("admins-only");
    assert("true"@.len() != "false"@.len());
    assert("true"@.len() != "admins-only"@.len());
    assert("false"@.len() != "admins-only"@.len());
}

} // verus!
