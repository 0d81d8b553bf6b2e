//! Verified core of a manager for headless Factorio servers.

pub mod text;
pub mod grammar;
pub mod version;
pub mod error;
pub mod version_information;
pub mod status;
pub mod game_event;
pub mod settings;
pub mod players;
pub mod server_status;
pub mod command;
pub mod mod_list;
pub mod playerlist;
pub mod importer;
pub mod dependency;
pub mod mods;
pub mod config;
pub mod sql;
pub mod executable;
pub mod server;
pub mod path;
pub mod cache;
pub mod control;
