//! Depy drives the scoop package manager so that programs get installed into a
//! separate scoop tree (`%userprofile%\depy\scoop`) without touching the user's
//! PATH, and writes activation scripts that put them on the PATH of one shell only.
//!
//! This crate holds the decisions of depy: reading `depy.json` and scoop
//! manifests, resolving buckets, building the scoop command lines, judging what
//! scoop printed, and writing the activation scripts. Running commands, reading
//! files and talking to the network is left to the caller, which hands the
//! results back as plain values.
pub mod app_state;
pub mod arch;
pub mod args;
pub mod bucket;
pub mod json;
pub mod package;
pub mod parsing;
pub mod parse_json_manifest;
pub mod path;
pub mod text;
pub mod dir;
pub mod error;
pub mod installer;
pub mod shell;
pub mod side_menu;
