//! The verified core of the Codex Telegram bridge: the state of threads, prompts and
//! notifications, the routing of replies, the conversation with the Codex app server, the
//! watch over the shared live backend, the Discord transport, and the command line.
//!
//! Everything that reads or writes the outside world stands in the program around it, which
//! hands plain values in and carries out what comes back.
pub mod arguments;
pub mod away;
pub mod cli;
pub mod codex;
pub mod config;
pub mod discord;
pub mod discord_commands;
pub mod entry;
pub mod error;
pub mod events;
pub mod follow;
pub mod grammar;
pub mod help;
pub mod history;
pub mod inbox;
pub mod json;
pub mod laws;
pub mod laws_cli;
pub mod laws_commands;
pub mod laws_discord;
pub mod laws_events;
pub mod laws_inbox;
pub mod laws_live;
pub mod laws_requests;
pub mod laws_show;
pub mod laws_store;
pub mod laws_text;
pub mod laws_threads;
pub mod laws_values;
pub mod live;
pub mod messages;
pub mod order;
pub mod outbox;
pub mod paths;
pub mod projects;
pub mod report;
pub mod requests;
pub mod routes;
pub mod schema;
pub mod session;
pub mod settings;
pub mod shell;
pub mod state;
pub mod sync;
pub mod table;
pub mod tasks;
pub mod text;
pub mod thread;
pub mod writing;
pub mod ws;

pub use entry::{main_entry, render_error_envelope};
