//! The tables of the state as a database keeps them.
use vstd::prelude::*;
use vstd::string::*;

use crate::events::{is_listed, listed};
use crate::text::cat3;

verus! {

/// The statements that make the tables where they are missing.
pub const STATE_SCHEMA: &'static str = "
CREATE TABLE IF NOT EXISTS settings (key TEXT PRIMARY KEY, value TEXT NOT NULL);
CREATE TABLE IF NOT EXISTS threads_cache (
  thread_id TEXT PRIMARY KEY, name TEXT, cwd TEXT, source TEXT,
  status_type TEXT NOT NULL, status_flags_json TEXT NOT NULL, updated_at INTEGER,
  last_seen_at INTEGER NOT NULL, last_turn_status TEXT, last_preview TEXT);
CREATE TABLE IF NOT EXISTS pending_prompts (
  thread_id TEXT PRIMARY KEY, prompt_id TEXT NOT NULL, prompt_kind TEXT NOT NULL,
  prompt_status TEXT NOT NULL, question TEXT NOT NULL, created_at INTEGER NOT NULL);
CREATE TABLE IF NOT EXISTS delivery_log (
  event_key TEXT PRIMARY KEY, thread_id TEXT NOT NULL, event_type TEXT NOT NULL,
  delivered_at INTEGER NOT NULL);
CREATE TABLE IF NOT EXISTS thread_events (
  event_key TEXT PRIMARY KEY, thread_id TEXT NOT NULL, event_type TEXT NOT NULL,
  observed_at INTEGER NOT NULL, payload_json TEXT NOT NULL);
CREATE TABLE IF NOT EXISTS outbound_events (
  event_id TEXT PRIMARY KEY, event_type TEXT NOT NULL, thread_id TEXT,
  payload_json TEXT NOT NULL, status TEXT NOT NULL, attempts INTEGER NOT NULL DEFAULT 0,
  next_attempt_at INTEGER NOT NULL, last_error TEXT, created_at INTEGER NOT NULL,
  delivered_at INTEGER);
CREATE TABLE IF NOT EXISTS telegram_message_routes (
  chat_id TEXT NOT NULL, message_id INTEGER NOT NULL, thread_id TEXT NOT NULL,
  event_id TEXT NOT NULL, created_at INTEGER NOT NULL, PRIMARY KEY(chat_id, message_id));
CREATE TABLE IF NOT EXISTS telegram_callback_routes (
  callback_id TEXT PRIMARY KEY, chat_id TEXT NOT NULL, message_id INTEGER,
  thread_id TEXT NOT NULL, action TEXT NOT NULL, created_at INTEGER NOT NULL,
  used_at INTEGER);
CREATE TABLE IF NOT EXISTS telegram_command_routes (
  chat_id TEXT NOT NULL, message_id INTEGER NOT NULL, command TEXT NOT NULL,
  payload_json TEXT, created_at INTEGER NOT NULL, used_at INTEGER,
  PRIMARY KEY(chat_id, message_id));
CREATE TABLE IF NOT EXISTS transport_delivery_log (
  event_id TEXT NOT NULL, transport TEXT NOT NULL, result_json TEXT NOT NULL,
  delivered_at INTEGER NOT NULL, PRIMARY KEY(event_id, transport));
CREATE TABLE IF NOT EXISTS telegram_inbound_log (
  bot_id TEXT NOT NULL, update_id INTEGER NOT NULL, update_kind TEXT NOT NULL,
  result_json TEXT NOT NULL, processed_at INTEGER NOT NULL,
  PRIMARY KEY(bot_id, update_id));
CREATE TABLE IF NOT EXISTS actions_log (
  id INTEGER PRIMARY KEY AUTOINCREMENT, thread_id TEXT NOT NULL,
  action_type TEXT NOT NULL, payload_json TEXT NOT NULL, created_at INTEGER NOT NULL);
";

/// A column that databases of older versions lack.
#[derive(Debug, PartialEq, Eq)]
pub struct LaterColumn {
    pub table: String,
    pub column: String,
    pub definition: String,
}

/// The model of [`LaterColumn`].
#[verifier::ext_equal]
pub struct LaterColumnV {
    pub table: Seq<char>,
    pub column: Seq<char>,
    pub definition: Seq<char>,
}

impl View for LaterColumn {
    type V = LaterColumnV;

    open spec fn view(&self) -> LaterColumnV {
        LaterColumnV {
            table: self.table@,
            column: self.column@,
            definition: self.definition@,
        }
    }
}

impl DeepView for LaterColumn {
    type V = LaterColumnV;

    open spec fn deep_view(&self) -> LaterColumnV {
        self@
    }
}

/// The columns that databases of older versions lack.
pub open spec fn added_columns() -> Seq<LaterColumnV> {
    seq![
        LaterColumnV { table: "threads_cache"@, column: "last_seen_at"@, definition: "INTEGER NOT NULL DEFAULT 0"@ },
        LaterColumnV { table: "threads_cache"@, column: "last_turn_status"@, definition: "TEXT"@ },
        LaterColumnV { table: "threads_cache"@, column: "last_preview"@, definition: "TEXT"@ },
        LaterColumnV { table: "telegram_command_routes"@, column: "payload_json"@, definition: "TEXT"@ },
        LaterColumnV { table: "telegram_inbound_log"@, column: "thread_id"@, definition: "TEXT"@ },
        LaterColumnV { table: "telegram_inbound_log"@, column: "route_message_id"@, definition: "INTEGER"@ },
        LaterColumnV { table: "telegram_inbound_log"@, column: "result_action"@, definition: "TEXT"@ },
        LaterColumnV { table: "telegram_inbound_log"@, column: "codex_transport"@, definition: "TEXT"@ },
        LaterColumnV { table: "telegram_inbound_log"@, column: "codex_app_server_pid"@, definition: "INTEGER"@ },
    ]
}

/// A column that databases of older versions lack.
fn later(table: &str, column: &str, definition: &str) -> (r: LaterColumn)
    ensures
        r@ == (LaterColumnV { table: table@, column: column@, definition: definition@ }),
{
    LaterColumn {
        table: table.to_owned(),
        column: column.to_owned(),
        definition: definition.to_owned(),
    }
}

/// The columns that databases of older versions lack.
pub fn later_columns() -> (r: Vec<LaterColumn>)
    ensures
        r.deep_view() == added_columns(),
{
    let mut columns: Vec<LaterColumn> = Vec::new();
    columns.push(later("threads_cache", "last_seen_at", "INTEGER NOT NULL DEFAULT 0"));
    columns.push(later("threads_cache", "last_turn_status", "TEXT"));
    columns.push(later("threads_cache", "last_preview", "TEXT"));
    columns.push(later("telegram_command_routes", "payload_json", "TEXT"));
    columns.push(later("telegram_inbound_log", "thread_id", "TEXT"));
    columns.push(later("telegram_inbound_log", "route_message_id", "INTEGER"));
    columns.push(later("telegram_inbound_log", "result_action", "TEXT"));
    columns.push(later("telegram_inbound_log", "codex_transport", "TEXT"));
    columns.push(later("telegram_inbound_log", "codex_app_server_pid", "INTEGER"));
    assert(columns.deep_view() =~= added_columns());
    columns
}

/// The statement that adds a column to a table with the columns `known`; none where it is
/// there.
pub open spec fn column_added(known: Seq<Seq<char>>, c: LaterColumnV) -> Option<Seq<char>> {
    if listed(known, c.column) {
        None
    } else {
        Some("ALTER TABLE "@ + c.table + " ADD COLUMN "@ + c.column + " "@ + c.definition)
    }
}

/// The statement that adds a column to a table with the columns `known`; none where it is
/// there.
pub fn ensure_column(known: &Vec<String>, column: &LaterColumn) -> (r: Option<String>)
    ensures
        r.deep_view() == column_added(known.deep_view(), column@),
{
    if is_listed(known, column.column.as_str()) {
        return None;
    }
    let mut text = cat3("ALTER TABLE ", column.table.as_str(), " ADD COLUMN ");
    text.append(column.column.as_str());
    text.append(" ");
    text.append(column.definition.as_str());
    Some(text)
}

} // verus!
