//! A command-line client for the Codex app-server: its command line, the JSON-RPC messages it
//! exchanges, Plan-mode turns with structured questions, a session daemon that keeps runs
//! alive between commands, and a viewer for session files.

pub mod text;
pub mod settings;
pub mod json;
pub mod grammar;
pub mod argv;
pub mod cli;
pub mod util;
pub mod questions;
pub mod turn;
pub mod requests;
pub mod plan;
pub mod session;
pub mod inputs;
pub mod daemon;
pub mod runs;
pub mod reports;
pub mod viewer;
pub mod paths;
pub mod laws;
