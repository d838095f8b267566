//! The native Codex bridge: the rules by which an editor talks to a Codex
//! app-server over JSON-RPC, with the provider, settings and harness rules that
//! stand beside it.
//!
//! Every function here is verified against its contract. Process handling,
//! threads, timers, the network and the user interface live outside the crate.

pub mod approvals;
pub mod bridge;
pub mod calls;
pub mod changes;
pub mod completions;
pub mod config;
pub mod elicitation;
pub mod eval;
pub mod history;
pub mod items;
pub mod json;
pub mod json_text;
pub mod laws;
pub mod listing;
pub mod migration;
pub mod models;
pub mod prompt;
pub mod protocol;
pub mod providers;
pub mod rpc;
pub mod server_requests;
pub mod sessions;
pub mod skills;
pub mod slash;
pub mod table;
pub mod terminals;
pub mod text;
pub mod tool_calls;
pub mod turns;
pub mod updates;
pub mod user_input;
pub mod version;
