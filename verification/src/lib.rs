//! Build, deploy and data-model logic of the YMap project, verified with Verus.

pub mod release;
pub mod net;
pub mod paths;
pub mod cargo_leptos;
pub mod runner;
pub mod server_commands;
pub mod payload;
pub mod thing;
pub mod csp;
pub mod production;
pub mod deploy;
pub mod hash;
pub mod storage;
pub mod root;
pub mod markers;
pub mod macro_fields;
pub mod server;
pub mod vfs;
pub mod logs;
pub mod path_matching;
pub mod app_state;
pub mod steps;
