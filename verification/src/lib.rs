//! The decision core of a booster for the Roblox game client.
//!
//! The booster finds the running game client by name, checks each candidate
//! against a safety policy, raises the scheduling priority of those that
//! pass, keeps track of what it has raised, and puts it back when it is
//! disabled.
//!
//! The library reads no process table and changes no priority. The caller
//! takes the snapshot of the running processes and hands it in; the engine
//! hands out one priority command at a time and is told what came of it.
//! The one thing that the library asks of the machine itself is whether a
//! directory exists on disk: `Config::is_valid`, `Config::get_roblox_path`
//! and the building of the whitelist do, and each has a sibling that takes
//! the answer as a value.
//!
//! The modules:
//!
//! * `policy` decides which processes may be touched at all;
//! * `paths` builds the whitelist of installation directories;
//! * `priority` runs one session on one process: acquire a handle, read the
//!   priority class, set it where that is called for, give the handle back;
//! * `engine` says, in mathematical terms, what a boost, a periodic scan and
//!   a restoration do, and `laws` proves what holds of every run;
//! * `booster` holds the engine itself, `SystemBooster`;
//! * `report` turns what happened into statistics and a summary;
//! * `config` holds the preferences, `error` the failures, and `text` the
//!   work on strings that the others share.

pub mod booster;
pub mod config;
pub mod engine;
pub mod error;
pub mod laws;
pub mod paths;
pub mod policy;
pub mod priority;
pub mod report;
pub mod text;
