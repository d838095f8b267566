//! What the operations of the library are for: laws that tie what an operation gives to
//! what it was given, whatever way it takes in between.

pub mod changes;
pub mod completions;
pub mod elicitations;
pub mod history;
pub mod listings;
pub mod messages;
pub mod migrations;
pub mod prompts;
pub mod questions;
pub mod runs;
pub mod sessions;
pub mod settings;
pub mod setup;
pub mod state;
pub mod terminals;
pub mod updates;
pub mod values;
pub mod versions;
pub mod wire;
pub mod words;
