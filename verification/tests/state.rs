//! The state: settings, threads, routes, logs and the outbox.
use codex_telegram_bridge::away::{get_away_mode, pending_outbound_count, set_away_mode};
use codex_telegram_bridge::codex::derive_pending_prompt;
use codex_telegram_bridge::history::{get_thread_history, prune_state_logs, record_action};
use codex_telegram_bridge::inbox::{
    list_recent_thread_snapshots_from_db, list_waiting_from_db, observed_workspaces_from_db,
    observed_workspaces_from_rows,
};
use codex_telegram_bridge::json::Json;
use codex_telegram_bridge::outbox::{
    deliver_due_outbound_events, enqueue_outbound_event, hex_lower, notification_event_id,
    retry_delay_ms, sha256_hex, DeliveryReply, OutboxDeliverySummary,
};
use codex_telegram_bridge::paths::{
    daemon_service_path, live_backend_status_path, reset_files, state_db_path, state_dir_path,
};
use codex_telegram_bridge::projects::importable_projects_from_observed;
use codex_telegram_bridge::routes::{
    insert_telegram_callback_route, insert_telegram_command_route, insert_telegram_message_route,
    lookup_telegram_command_route, lookup_telegram_message_route,
    mark_telegram_callback_route_used, mark_telegram_command_route_used,
    record_telegram_inbound_processed, record_transport_delivery, telegram_inbound_processed,
    transport_delivery_exists, update_telegram_callback_message_id, TelegramCallbackAction,
    TelegramCallbackRoute, TelegramCommandRouteKind, TelegramInboundLogContext,
};
use codex_telegram_bridge::schema::{ensure_column, later_columns, STATE_SCHEMA};
use codex_telegram_bridge::settings::{
    delete_setting, get_setting_number, get_setting_text, get_telegram_current_project_id,
    list_settings_with_prefix, set_setting, set_setting_text, set_telegram_current_project_id,
};
use codex_telegram_bridge::state::{find_callback_route, from_sql_i64, to_sql_i64, BridgeState};
use codex_telegram_bridge::sync::{reconcile_thread_snapshots, upsert_thread_snapshot};
use codex_telegram_bridge::thread::BridgeThreadSnapshot;

fn json(text: &str) -> Json {
    convert(&serde_json::from_str::<serde_json::Value>(text).expect("json"))
}

fn convert(value: &serde_json::Value) -> Json {
    match value {
        serde_json::Value::Null => Json::Null,
        serde_json::Value::Bool(b) => Json::Bool(*b),
        serde_json::Value::Number(n) => {
            if let Some(v) = n.as_u64() {
                Json::UInt(v)
            } else if let Some(v) = n.as_i64() {
                Json::NegInt(v)
            } else {
                Json::Real(n.to_string())
            }
        }
        serde_json::Value::String(s) => Json::Str(s.clone()),
        serde_json::Value::Array(items) => Json::Array(items.iter().map(convert).collect()),
        serde_json::Value::Object(members) => Json::Object(
            members.iter().map(|(key, member)| (key.clone(), convert(member))).collect(),
        ),
    }
}

fn at<'a>(value: &'a Json, path: &[&str]) -> &'a Json {
    path.iter().fold(value, |found, key| found.get(key).expect("member"))
}

fn text(value: &str) -> Json {
    Json::Str(value.to_string())
}

fn snapshot_fixture(
    thread_id: &str,
    cwd: &str,
    updated_at: u64,
    status_type: &str,
    status_flags: Vec<&str>,
    last_turn_status: Option<&str>,
) -> BridgeThreadSnapshot {
    let flags: Vec<String> = status_flags.into_iter().map(|flag| flag.to_string()).collect();
    let pending_prompt =
        derive_pending_prompt(thread_id, &flags, Some(format!("preview for {thread_id}")));
    BridgeThreadSnapshot {
        thread_id: thread_id.to_string(),
        name: None,
        cwd: Some(cwd.to_string()),
        updated_at: Some(updated_at),
        status_type: status_type.to_string(),
        status_flags: flags,
        last_turn_status: last_turn_status.map(|status| status.to_string()),
        last_preview: Some(format!("preview for {thread_id}")),
        pending_prompt,
    }
}

/// A database with the tables of the state, and with the columns that it lacked.
fn migrated(conn: &rusqlite::Connection) {
    conn.execute_batch(STATE_SCHEMA).expect("schema");
    for column in later_columns() {
        let known = table_columns(conn, &column.table);
        if let Some(statement) = ensure_column(&known, &column) {
            conn.execute_batch(&statement).expect("column");
        }
    }
}

fn table_columns(conn: &rusqlite::Connection, table: &str) -> Vec<String> {
    let mut statement =
        conn.prepare(&format!("PRAGMA table_info({table})")).expect("prepare");
    let rows = statement.query_map([], |row| row.get::<_, String>(1)).expect("query");
    rows.map(|name| name.expect("name")).collect()
}

#[test]
fn create_state_db_migrates_legacy_threads_cache_columns() {
    let conn = rusqlite::Connection::open_in_memory().expect("open legacy db");
    conn.execute_batch(
        "CREATE TABLE threads_cache (
             thread_id TEXT PRIMARY KEY,
             name TEXT,
             cwd TEXT,
             source TEXT,
             status_type TEXT NOT NULL,
             status_flags_json TEXT NOT NULL,
             updated_at INTEGER,
             last_seen_at INTEGER NOT NULL
         );",
    )
    .expect("create legacy table");

    migrated(&conn);

    let columns = table_columns(&conn, "threads_cache");
    assert!(columns.contains(&"last_turn_status".to_string()));
    assert!(columns.contains(&"last_preview".to_string()));
}

#[test]
fn create_state_db_migrates_legacy_telegram_inbound_log_columns() {
    let conn = rusqlite::Connection::open_in_memory().expect("open legacy db");
    conn.execute_batch(
        "CREATE TABLE telegram_inbound_log (
             bot_id TEXT NOT NULL,
             update_id INTEGER NOT NULL,
             update_kind TEXT NOT NULL,
             result_json TEXT NOT NULL,
             processed_at INTEGER NOT NULL,
             PRIMARY KEY(bot_id, update_id)
         );",
    )
    .expect("create legacy inbound log");

    migrated(&conn);

    let columns = table_columns(&conn, "telegram_inbound_log");
    assert!(columns.contains(&"thread_id".to_string()));
    assert!(columns.contains(&"route_message_id".to_string()));
    assert!(columns.contains(&"result_action".to_string()));
    assert!(columns.contains(&"codex_transport".to_string()));
    assert!(columns.contains(&"codex_app_server_pid".to_string()));
}

#[test]
fn state_schema_matches_ts_bridge_contract() {
    let conn = rusqlite::Connection::open_in_memory().expect("db");
    migrated(&conn);
    let mut statement = conn
        .prepare("SELECT name FROM sqlite_master WHERE type = 'table' ORDER BY name")
        .expect("prepare");
    let tables: Vec<String> = statement
        .query_map([], |row| row.get::<_, String>(0))
        .expect("query")
        .map(|name| name.expect("name"))
        .collect();
    assert!(tables.contains(&"delivery_log".to_string()));
    assert!(tables.contains(&"outbound_events".to_string()));

    let mut state = BridgeState::new();
    assert!(state.deliveries.is_empty());
    assert!(state.outbound.is_empty());

    let enabled = set_away_mode(&mut state, true, 1234);
    assert_eq!(at(&enabled, &["away"]), &Json::Bool(true));
    assert_eq!(get_setting_text(&state, "away").as_deref(), Some("true"));
    assert_eq!(get_setting_text(&state, "away_mode"), None);
}

#[test]
fn telegram_command_prompt_routes_map_reply_to_new_thread_prompt() {
    let mut state = BridgeState::new();
    insert_telegram_command_route(
        &mut state,
        "456",
        222,
        TelegramCommandRouteKind::NewThread,
        Some(json(r#"{"projectId":"bridge"}"#)),
        1000,
    )
    .expect("insert command route");

    let (kind, payload) = lookup_telegram_command_route(&state, "456", 222).expect("route");
    assert_eq!(kind, TelegramCommandRouteKind::NewThread);
    assert_eq!(payload.expect("payload").get_text("projectId"), Some("bridge"));

    mark_telegram_command_route_used(&mut state, "456", 222, 1100).expect("use route");
    assert_eq!(lookup_telegram_command_route(&state, "456", 222), None);
}

#[test]
fn telegram_routes_map_message_replies_to_codex_threads() {
    let mut state = BridgeState::new();
    insert_telegram_message_route(&mut state, "456", 111, "thr_1", "event_1", 1000)
        .expect("insert route");

    assert_eq!(lookup_telegram_message_route(&state, "456", 111).as_deref(), Some("thr_1"));
    assert_eq!(lookup_telegram_message_route(&state, "456", 222), None);
    assert_eq!(lookup_telegram_message_route(&state, "457", 111), None);
}

#[test]
fn telegram_callback_routes_map_buttons_to_approvals() {
    let mut state = BridgeState::new();
    insert_telegram_callback_route(
        &mut state,
        &TelegramCallbackRoute {
            callback_id: "cb_1".to_string(),
            chat_id: "456".to_string(),
            message_id: None,
            thread_id: "thr_approval".to_string(),
            action: TelegramCallbackAction::Deny,
        },
        1000,
    )
    .expect("insert callback");
    update_telegram_callback_message_id(&mut state, "cb_1", 111);

    let row = &state.callback_routes[find_callback_route(&state.callback_routes, "cb_1")];
    assert_eq!(row.thread_id, "thr_approval");
    assert_eq!(
        TelegramCallbackAction::from_str(row.action.as_str()),
        Some(TelegramCallbackAction::Deny)
    );
    assert_eq!(row.message_id, Some(111));
    assert_eq!(row.used_at, None);

    mark_telegram_callback_route_used(&mut state, "cb_1", 1200).expect("use");
    mark_telegram_callback_route_used(&mut state, "cb_1", 1300).expect("use again");
    assert_eq!(state.callback_routes[0].used_at, Some(1200));
}

#[test]
fn telegram_inbound_log_dedupes_processed_updates_per_bot() {
    let mut state = BridgeState::new();
    let bot_id = "bot-a";

    assert!(
        !telegram_inbound_processed(&state, bot_id, 42),
        "update should not start processed"
    );
    record_telegram_inbound_processed(
        &mut state,
        bot_id,
        42,
        "message",
        &json(r#"{"threadId":"thr_1"}"#),
        TelegramInboundLogContext {
            thread_id: Some("thr_1".to_string()),
            route_message_id: Some(111),
            result_action: Some("telegram_reply".to_string()),
            codex_transport: Some("spawned_stdio".to_string()),
            codex_app_server_pid: Some(4242),
        },
        1000,
    )
    .expect("record inbound update");

    assert!(
        telegram_inbound_processed(&state, bot_id, 42),
        "recorded update should not be processed again"
    );
    assert!(
        !telegram_inbound_processed(&state, "bot-b", 42),
        "same update id from a different bot must remain independent"
    );

    let row = &state.inbound[0];
    assert_eq!(row.thread_id.as_deref(), Some("thr_1"));
    assert_eq!(row.route_message_id, Some(111));
    assert_eq!(row.result_action.as_deref(), Some("telegram_reply"));
    assert_eq!(row.codex_transport.as_deref(), Some("spawned_stdio"));
    assert_eq!(row.codex_app_server_pid, Some(4242));
}

#[test]
fn persists_snapshots_and_actions_in_sqlite_state() {
    let mut state = BridgeState::new();
    let waiting = snapshot_fixture(
        "thr_wait",
        "/tmp/project-wait",
        1200,
        "active",
        vec!["waitingOnUserInput"],
        Some("in_progress"),
    );
    let done = snapshot_fixture(
        "thr_done",
        "/tmp/project-done",
        1300,
        "notLoaded",
        vec![],
        Some("completed"),
    );

    upsert_thread_snapshot(&mut state, &waiting, 2000).expect("upsert waiting");
    upsert_thread_snapshot(&mut state, &done, 2000).expect("upsert done");
    record_action(&mut state, "thr_wait", "reply", json(r#"{"message":"On it"}"#), 2100)
        .expect("record action");

    let waiting_rows = list_waiting_from_db(&state, None, 10).expect("waiting rows");
    assert_eq!(waiting_rows.threads.len(), 1);
    assert_eq!(waiting_rows.threads[0].thread_id, "thr_wait");
    assert_eq!(waiting_rows.threads[0].prompt.kind, "reply");

    let history = get_thread_history(&state, "thr_wait", 10).expect("history");
    assert_eq!(history[0].action_type, "reply");
}

#[test]
fn list_recent_thread_snapshots_orders_by_latest_activity() {
    let mut state = BridgeState::new();
    let older = snapshot_fixture(
        "thr_old",
        "/tmp/project-old",
        1200,
        "notLoaded",
        vec![],
        Some("completed"),
    );
    let newer = snapshot_fixture(
        "thr_new",
        "/tmp/project-new",
        2400,
        "active",
        vec!["waitingOnUserInput"],
        Some("in_progress"),
    );

    upsert_thread_snapshot(&mut state, &older, 1200).expect("upsert older");
    upsert_thread_snapshot(&mut state, &newer, 2400).expect("upsert newer");

    let recent = list_recent_thread_snapshots_from_db(&state, 1).expect("recent threads");

    assert_eq!(recent.len(), 1);
    assert_eq!(recent[0].thread_id, "thr_new");
    assert_eq!(recent[0].pending_prompt.as_ref().expect("pending prompt").kind, "reply");
}

#[test]
fn project_current_selection_round_trips_per_identity() {
    let mut state = BridgeState::new();
    set_telegram_current_project_id(&mut state, "chat-1", Some("user-1"), "bridge");

    assert_eq!(
        get_telegram_current_project_id(&state, "chat-1", Some("user-1")).as_deref(),
        Some("bridge")
    );
    assert_eq!(
        get_telegram_current_project_id(&state, "chat-1", Some("user-2")).as_deref(),
        None
    );
}

#[test]
fn project_import_suggests_unique_ids_from_observed_workspaces() {
    let mut state = BridgeState::new();
    let alpha = snapshot_fixture(
        "thr_alpha",
        "/Users/hanifcarroll/projects/client-a/app",
        2000,
        "active",
        vec![],
        Some("in_progress"),
    );
    let beta = snapshot_fixture(
        "thr_beta",
        "/Users/hanifcarroll/projects/client-b/app",
        3000,
        "active",
        vec![],
        Some("in_progress"),
    );
    upsert_thread_snapshot(&mut state, &alpha, 2000).expect("upsert alpha");
    upsert_thread_snapshot(&mut state, &beta, 3000).expect("upsert beta");

    let rows = observed_workspaces_from_db(&state, 10).expect("observed");
    let imported = importable_projects_from_observed(
        &observed_workspaces_from_rows(&rows).expect("workspaces"),
        &vec![],
    );

    assert_eq!(imported.len(), 2);
    assert_eq!(imported[0].id, "app");
    assert_eq!(imported[1].id, "app-2");
    assert_eq!(imported[0].cwd, "/Users/hanifcarroll/projects/client-b/app");
}

#[test]
fn live_backend_status_path_uses_bridge_state_directory() {
    let dir = state_dir_path(None, Some("/home/user")).expect("state dir");
    let path = live_backend_status_path(dir.as_str());
    assert_eq!(path, "/home/user/.codex-telegram-bridge/live-backend.json");
    assert!(path.ends_with(".codex-telegram-bridge/live-backend.json"));
    assert_eq!(state_db_path(dir.as_str()), "/home/user/.codex-telegram-bridge/state.db");

    assert_eq!(state_dir_path(Some("/var/state"), None).expect("wanted"), "/var/state");
    assert_eq!(
        state_dir_path(None, None).expect_err("no home").full(),
        "HOME is not set: environment variable not found"
    );
}

#[test]
fn prune_state_logs_removes_only_rows_older_than_retention() {
    let mut state = BridgeState::new();
    let retention_ms: u64 = 30 * 24 * 60 * 60 * 1000;
    let now = retention_ms + 2000;
    record_telegram_inbound_processed(
        &mut state,
        "bot",
        1,
        "message_ignored",
        &json("{}"),
        TelegramInboundLogContext::default(),
        1000,
    )
    .expect("old inbound");
    record_telegram_inbound_processed(
        &mut state,
        "bot",
        2,
        "message_ignored",
        &json("{}"),
        TelegramInboundLogContext::default(),
        now,
    )
    .expect("recent inbound");
    record_action(&mut state, "thr_1", "x", json("{}"), 1000).expect("old action");
    record_action(&mut state, "thr_1", "x", json("{}"), now).expect("recent action");

    let removed = prune_state_logs(&mut state, now).expect("prune");
    assert_eq!(removed, 2);
    assert!(!telegram_inbound_processed(&state, "bot", 1));
    assert!(telegram_inbound_processed(&state, "bot", 2));
    let cutoff = to_sql_i64(now).expect("cutoff");
    let recent = state.actions.iter().filter(|action| action.created_at >= cutoff).count();
    assert_eq!(recent, 1);
}

#[test]
fn outbound_delivery_deadline_skips_pending_events() {
    let mut state = BridgeState::new();
    enqueue_outbound_event(
        &mut state,
        &json(r#"{"type":"thread_waiting","threadId":"thr_1","updatedAt":42}"#),
        1000,
    )
    .expect("enqueue");

    let summary = deliver_due_outbound_events(
        &mut state,
        2000,
        10,
        Some(4_000),
        &vec![5_000],
        &vec![DeliveryReply::Delivered],
    )
    .expect("deadline summary");

    assert_eq!(summary.attempted, 0);
    assert_eq!(pending_outbound_count(&state), 1);

    let in_time = deliver_due_outbound_events(
        &mut state,
        2000,
        10,
        Some(4_000),
        &vec![3_999],
        &vec![DeliveryReply::Delivered],
    )
    .expect("summary");
    assert_eq!(in_time.attempted, 1);
    assert_eq!(pending_outbound_count(&state), 0);
}

#[test]
fn outbound_events_dedupe_retry_and_deliver_durably() {
    let mut state = BridgeState::new();
    let event = json(r#"{"type":"thread_waiting","threadId":"thr_1","updatedAt":42}"#);

    assert!(enqueue_outbound_event(&mut state, &event, 1000).expect("enqueue"));
    assert!(
        !enqueue_outbound_event(&mut state, &event, 1001).expect("dedupe"),
        "same delivery id should not enqueue twice"
    );

    let failed = deliver_due_outbound_events(
        &mut state,
        1000,
        10,
        None,
        &vec![],
        &vec![DeliveryReply::Failed("Hermes offline".to_string())],
    )
    .expect("failed delivery summary");
    assert_eq!(failed, OutboxDeliverySummary { attempted: 1, delivered: 0, failed: 1 });
    assert_eq!(pending_outbound_count(&state), 1);

    let delivered_once = vec![DeliveryReply::Delivered];
    let delayed =
        deliver_due_outbound_events(&mut state, 1000, 10, None, &vec![], &delivered_once)
            .expect("not due summary");
    assert_eq!(delayed.attempted, 0);

    let delivered =
        deliver_due_outbound_events(&mut state, 2000, 10, None, &vec![], &delivered_once)
            .expect("delivered summary");
    assert_eq!(delivered, OutboxDeliverySummary { attempted: 1, delivered: 1, failed: 0 });
    assert_eq!(pending_outbound_count(&state), 0);
}

#[test]
fn transport_delivery_log_tracks_each_transport_once() {
    let mut state = BridgeState::new();

    assert!(
        !transport_delivery_exists(&state, "event_1", "telegram"),
        "transport should not start delivered"
    );
    record_transport_delivery(
        &mut state,
        "event_1",
        "telegram",
        &json(r#"{"messageId":111}"#),
        1000,
    )
    .expect("record delivery");

    assert!(
        transport_delivery_exists(&state, "event_1", "telegram"),
        "recorded transport should be treated as delivered"
    );
    assert!(
        !transport_delivery_exists(&state, "event_1", "hermes"),
        "other transports for the same event must remain pending"
    );
}

#[test]
fn delivery_ids_are_made_of_the_event() {
    let stamped = json(r#"{"type":"thread_waiting","threadId":"thr/1","updatedAt":42}"#);
    assert_eq!(notification_event_id(&stamped), "codex-thread_waiting-thr-1-42");
    let keyed = json(r#"{"eventKey":"a b","thread":{"id":"t"}}"#);
    assert_eq!(notification_event_id(&keyed), "codex-codex_event-t-a-b");
    let bare = json("{}");
    assert_eq!(
        notification_event_id(&bare),
        "codex-codex_event-unknown-44136fa355b3678a1146ad16f7e8649e94fb4fc21fe77e8310c060f61caaff8a"
    );
    let other = json(r#"{"z":1,"a":2}"#);
    assert_eq!(
        notification_event_id(&other),
        format!("codex-codex_event-unknown-{}", sha256_hex(br#"{"a":2,"z":1}"#))
    );
}

#[test]
fn values_are_written_as_json() {
    let text = r#"{"z":[1,-2,true,null,"a\"b\n\u0001"],"a":{"y":"","b":{}},"m":[],"big":18446744073709551615,"low":-9223372036854775808,"real":1.5}"#;
    let value: serde_json::Value = serde_json::from_str(text).expect("json");
    let written = json(text).to_text();
    assert_eq!(written, value.to_string());
    assert_eq!(json(&written), json(text));
    assert_eq!(
        Json::Object(vec![
            ("b".to_string(), Json::UInt(1)),
            ("B".to_string(), Json::Str("x".to_string())),
        ])
        .to_text(),
        r#"{"B":"x","b":1}"#
    );
}

#[test]
fn digests_are_written_in_hexadecimal() {
    assert_eq!(hex_lower(&vec![0, 15, 16, 255]), "000f10ff");
    assert_eq!(
        sha256_hex(b"abc"),
        "ba7816bf8f01cfea414140de5dae2223b00361a396177a9cb410ff61f20015ad"
    );
}

#[test]
fn retries_wait_longer_each_time_up_to_a_limit() {
    let delays: Vec<u64> = (0..12).map(retry_delay_ms).collect();
    assert_eq!(
        delays,
        vec![
            1000, 1000, 2000, 4000, 8000, 16_000, 32_000, 64_000, 128_000, 256_000, 256_000,
            256_000
        ]
    );
}

#[test]
fn numbers_that_do_not_fit_the_database_are_refused() {
    assert_eq!(to_sql_i64(i64::MAX as u64), Ok(i64::MAX));
    assert!(to_sql_i64(i64::MAX as u64 + 1).is_err());
    assert_eq!(from_sql_i64(7), Ok(7));
    assert!(from_sql_i64(-1).is_err());
    let mut state = BridgeState::new();
    let late = u64::MAX;
    assert!(enqueue_outbound_event(&mut state, &json("{}"), late).is_err());
    assert!(record_action(&mut state, "t", "x", json("{}"), late).is_err());
    assert!(prune_state_logs(&mut state, late).is_err());
    assert_eq!(state, BridgeState::new());
}

#[test]
fn the_time_of_the_last_change_never_goes_back() {
    let mut state = BridgeState::new();
    let newer = snapshot_fixture("thr_1", "/tmp/a", 5000, "active", vec![], None);
    let older = snapshot_fixture("thr_1", "/tmp/b", 4000, "idle", vec!["waitingOnInput"], None);
    upsert_thread_snapshot(&mut state, &newer, 6000).expect("newer");
    upsert_thread_snapshot(&mut state, &older, 7000).expect("older");
    assert_eq!(state.threads.len(), 1);
    assert_eq!(state.threads[0].updated_at, Some(5000));
    assert_eq!(state.threads[0].cwd.as_deref(), Some("/tmp/b"));
    assert_eq!(state.prompts.len(), 1);
    upsert_thread_snapshot(&mut state, &newer, 8000).expect("again");
    assert_eq!(state.prompts.len(), 0);
}

#[test]
fn present_users_are_not_told_of_events() {
    let mut state = BridgeState::new();
    let done = snapshot_fixture("t", "/tmp/a", 5_000_000, "idle", vec![], Some("completed"));
    let snapshots = vec![done];
    let present =
        reconcile_thread_snapshots(&mut state, 6_000_000, &snapshots, true).expect("present");
    assert_eq!(at(&present, &["events"]), &json("[]"));
    assert_eq!(at(&present, &["away"]), &Json::Bool(false));

    set_away_mode(&mut state, true, 5_500_000_000);
    let early =
        reconcile_thread_snapshots(&mut state, 6_000_000, &snapshots, true).expect("early");
    assert_eq!(at(&early, &["events"]), &json("[]"));
}

#[test]
fn older_away_settings_are_carried_over() {
    let mut state = BridgeState::new();
    set_setting_text(&mut state, "away_mode", "true");
    set_setting(&mut state, "away_started_at", 77);
    let report = get_away_mode(&mut state);
    assert_eq!(at(&report, &["away"]), &Json::Bool(true));
    assert_eq!(at(&report, &["awaySessionId"]), &text("77"));
    assert_eq!(get_setting_text(&state, "away_mode"), None);
    assert_eq!(get_setting_text(&state, "away").as_deref(), Some("true"));
    assert_eq!(get_setting_number(&state, "away_session_id"), Some(77));
    delete_setting(&mut state, "away");
    assert_eq!(get_setting_text(&state, "away"), None);
}

#[test]
fn settings_are_listed_by_prefix() {
    let mut state = BridgeState::new();
    set_setting_text(&mut state, "discord_typing:1:b", "B");
    set_setting_text(&mut state, "discord_typing:1:a", "A");
    set_setting_text(&mut state, "away", "true");
    let listed = list_settings_with_prefix(&state, "discord_typing:1:");
    let mut keys: Vec<&str> = listed.iter().map(|(key, _)| key.as_str()).collect();
    keys.sort();
    assert_eq!(keys, vec!["discord_typing:1:a", "discord_typing:1:b"]);
}

#[test]
fn the_service_of_the_daemon_has_its_place() {
    assert_eq!(
        daemon_service_path("/home/user", true),
        "/home/user/Library/LaunchAgents/com.hanifcarroll.codex-telegram-bridge.plist"
    );
    assert_eq!(
        daemon_service_path("/home/user", false),
        "/home/user/.config/systemd/user/com.hanifcarroll.codex-telegram-bridge.service"
    );
}

#[test]
fn resets_remove_runtime_files_and_keep_the_configuration() {
    let files = reset_files("/state", false);
    assert_eq!(
        files,
        vec![
            "/state/state.db",
            "/state/state.db-wal",
            "/state/state.db-shm",
            "/state/remote-mode.json",
            "/state/live-backend.json",
        ]
    );
    assert!(!files.contains(&"/state/config.json".to_string()));
    assert!(reset_files("/state", true).is_empty());
}
