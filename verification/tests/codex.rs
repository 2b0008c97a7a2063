//! Threads, requests and events: what is read of the app server, and what is made of it.
use codex_telegram_bridge::away::{get_away_mode, remote_mode_status_marker, set_away_mode};
use codex_telegram_bridge::codex::{
    build_show_thread_result, derive_pending_prompt, normalize_thread_snapshot,
};
use codex_telegram_bridge::config::{CodexConfig, CodexLiveMode, DaemonConfig};
use codex_telegram_bridge::error::BridgeError;
use codex_telegram_bridge::events::{
    enrich_completed_event_previews, filter_watch_events, normalize_notification_event,
    wants_full_preview, watch_changed, watch_events_from_sync_result, watch_thread_error_event,
};
use codex_telegram_bridge::follow::{
    attach_follow_payload, build_follow_events, composed_settle_duration_ms,
    follow_result_summary, Follow, FollowAction, FollowInput, Settle, SettleAction, SettleInput,
};
use codex_telegram_bridge::history::{get_thread_history, record_action};
use codex_telegram_bridge::inbox::{
    archive_from_db, list_inbox_from_db, resolve_archive_targets, unarchive_thread_result,
    watch_once_from_db,
};
use codex_telegram_bridge::json::Json;
use codex_telegram_bridge::paths::{
    codex_candidates, probe_step, resolve_codex_binary, workspace_roots, ProbeSight, ProbeStep,
};
use codex_telegram_bridge::requests::{
    approval_decision, archive_targets, classify_app_server_error_message, fork_thread_dry_run,
    message_or_prompt, new_thread_live_result, reads_without_turns, reply_message,
    start_new_thread_dry_run, thread_start_params, turn_start_params,
};
use codex_telegram_bridge::session::{handle_app_server_message, initialize_params, Session};
use codex_telegram_bridge::state::BridgeState;
use codex_telegram_bridge::sync::{reconcile_thread_snapshots, upsert_thread_snapshot};
use codex_telegram_bridge::thread::{classify_inbox_item, BridgeThreadSnapshot};
use codex_telegram_bridge::ws::{codex_backend_from_config, CodexBackend};

fn json(text: &str) -> Json {
    convert(&serde_json::from_str::<serde_json::Value>(text).expect("json"))
}

fn convert(value: &serde_json::Value) -> Json {
    match value {
        serde_json::Value::Null => Json::Null,
        serde_json::Value::Bool(b) => Json::Bool(*b),
        serde_json::Value::Number(n) => {
            if let Some(v) = n.as_u64() {
                Json::UInt(v)
            } else if let Some(v) = n.as_i64() {
                Json::NegInt(v)
            } else {
                Json::Real(n.to_string())
            }
        }
        serde_json::Value::String(s) => Json::Str(s.clone()),
        serde_json::Value::Array(items) => Json::Array(items.iter().map(convert).collect()),
        serde_json::Value::Object(members) => Json::Object(
            members.iter().map(|(key, member)| (key.clone(), convert(member))).collect(),
        ),
    }
}

fn at<'a>(value: &'a Json, path: &[&str]) -> &'a Json {
    path.iter().fold(value, |found, key| found.get(key).expect("member"))
}

fn item(value: &Json, index: usize) -> &Json {
    &value.as_array().expect("array")[index]
}

fn text(value: &str) -> Json {
    Json::Str(value.to_string())
}

fn snapshot_fixture(
    thread_id: &str,
    cwd: &str,
    updated_at: u64,
    status_type: &str,
    status_flags: Vec<&str>,
    last_turn_status: Option<&str>,
) -> BridgeThreadSnapshot {
    let flags: Vec<String> = status_flags.into_iter().map(|flag| flag.to_string()).collect();
    let pending_prompt =
        derive_pending_prompt(thread_id, &flags, Some(format!("preview for {thread_id}")));
    BridgeThreadSnapshot {
        thread_id: thread_id.to_string(),
        name: None,
        cwd: Some(cwd.to_string()),
        updated_at: Some(updated_at),
        status_type: status_type.to_string(),
        status_flags: flags,
        last_turn_status: last_turn_status.map(|status| status.to_string()),
        last_preview: Some(format!("preview for {thread_id}")),
        pending_prompt,
    }
}

#[test]
fn app_server_initialize_params_use_stable_capabilities() {
    let params = initialize_params();
    assert_eq!(at(&params, &["capabilities"]), &json("{}"));
    assert_eq!(at(&params, &["clientInfo", "name"]), &text("codex-telegram-bridge"));
}

#[test]
fn codex_backend_from_config_requires_shared_backend_config() {
    let missing = DaemonConfig {
        version: 4,
        bridge_command: "bridge".to_string(),
        events: "final_answer".to_string(),
        telegram: None,
        discord: None,
        codex: None,
        projects: Vec::new(),
    };
    let error = codex_backend_from_config(&missing).expect_err("missing codex config");
    assert!(error.full().contains("shared Codex live backend is not configured"));

    let configured = DaemonConfig {
        codex: Some(CodexConfig {
            live_mode: CodexLiveMode::Shared,
            websocket_url: "ws://127.0.0.1:4500".to_string(),
        }),
        ..missing
    };
    assert_eq!(
        codex_backend_from_config(&configured).expect("configured backend"),
        CodexBackend::SharedWebsocket { url: "ws://127.0.0.1:4500".to_string() }
    );
}

#[test]
fn resolve_codex_binary_prefers_platform_binary_before_path() {
    let candidates = codex_candidates(
        Some("/root/bad-codex"),
        "/work/project",
        Some("/root/home"),
        Some("/root/path-bin/codex"),
    );
    let paths: Vec<&str> = candidates.iter().map(|candidate| candidate.path.as_str()).collect();
    assert_eq!(
        paths,
        vec![
            "/root/bad-codex",
            "/work/project/node_modules/.bin/codex",
            "/work/node_modules/.bin/codex",
            "/node_modules/.bin/codex",
            "/root/home/Applications/Codex.app/Contents/Resources/codex",
            "/Applications/Codex.app/Contents/Resources/codex",
            "/root/path-bin/codex",
        ]
    );
    let usable = vec![false, false, false, false, true];
    let resolved = resolve_codex_binary(&candidates, &usable).expect("resolve codex");
    assert_eq!(resolved.path, "/root/home/Applications/Codex.app/Contents/Resources/codex");
    assert_eq!(resolved.source, "platform-known");
}

#[test]
fn codex_candidate_probe_times_out() {
    assert_eq!(probe_step(ProbeSight::Running, 75, 100), ProbeStep::Wait);
    assert_eq!(probe_step(ProbeSight::Running, 100, 100), ProbeStep::End);
    assert_eq!(probe_step(ProbeSight::Ended(true), 5, 100), ProbeStep::Done(true));
    assert_eq!(probe_step(ProbeSight::Ended(false), 5, 100), ProbeStep::Done(false));
    assert_eq!(probe_step(ProbeSight::Lost, 5, 100), ProbeStep::End);
}

#[test]
fn a_candidate_is_looked_at_once_and_one_has_to_be_usable() {
    let candidates = codex_candidates(Some("/bin/codex"), "/", None, Some("/bin/codex"));
    assert_eq!(candidates.len(), 3);
    assert_eq!(candidates[0].source, "override");
    let error = resolve_codex_binary(&candidates, &vec![false, false, false]).expect_err("none");
    assert!(error.full().starts_with("Could not resolve codex executable."));
}

#[test]
fn app_server_message_parser_preserves_notifications() {
    let mut notifications = Vec::new();
    let notification = json(
        r#"{"jsonrpc":"2.0","method":"item/completed","params":{"threadId":"thr_1"}}"#,
    );
    let parsed = handle_app_server_message(&notification, 7, &mut notifications)
        .expect("notification parse");
    assert!(parsed.is_none());
    assert_eq!(notifications, vec![notification]);

    let response = json(r#"{"jsonrpc":"2.0","id":7,"result":{"ok":true}}"#);
    let parsed =
        handle_app_server_message(&response, 7, &mut notifications).expect("response parse");
    assert_eq!(parsed, Some(json(r#"{"ok":true}"#)));
}

#[test]
fn websocket_notification_polling_preserves_transport_error_for_next_request() {
    let mut session = Session::new();
    let request = session
        .begin_request("thread/list", json(r#"{"limit":1}"#), 1000, None)
        .expect("thread/list");
    let notification = json(
        r#"{"jsonrpc":"2.0","method":"item/completed","params":{"threadId":"thr_ws","turnId":"turn_ws","item":{"type":"assistantMessage"}}}"#,
    );
    assert_eq!(session.receive(&notification, request.id), Ok(None));
    let mut response = json(r#"{"jsonrpc":"2.0","result":{"threads":[]}}"#);
    response.set("id", Json::UInt(request.id));
    let result = session.receive(&response, request.id).expect("answer").expect("result");
    assert_eq!(at(&result, &["threads"]), &json("[]"));

    session.hold_transport_error("websocket app-server closed connection: done");
    let notifications = session.drain_notifications();
    assert!(notifications
        .iter()
        .any(|heard| heard.get_text("method") == Some("item/completed")));

    let error = session
        .begin_request("thread/read", json(r#"{"threadId":"thr_ws"}"#), 1000, None)
        .expect_err("next request should surface websocket close");
    assert!(error.full().contains("websocket app-server closed connection"));
    session
        .begin_request("thread/read", json(r#"{"threadId":"thr_ws"}"#), 1000, None)
        .expect("the failure is told once");
}

#[test]
fn normalize_notification_matches_ts_event_contract() {
    let event = normalize_notification_event(&json(
        r#"{"jsonrpc":"2.0","method":"item/completed","params":{"threadId":"thr_1","turnId":"turn_1","item":{"type":"agentMessage"}}}"#,
    ));
    assert_eq!(at(&event, &["type"]), &text("item_completed"));
    assert_eq!(at(&event, &["threadId"]), &text("thr_1"));
    assert_eq!(at(&event, &["turnId"]), &text("turn_1"));

    let unknown = normalize_notification_event(&json(
        r#"{"method":"codex/custom","params":{"ok":true}}"#,
    ));
    assert_eq!(at(&unknown, &["type"]), &text("notification"));
    assert_eq!(at(&unknown, &["raw", "method"]), &text("codex/custom"));
}

#[test]
fn follow_events_filter_normalized_notifications() {
    let filter = vec!["item_completed".to_string()];
    let events = build_follow_events(
        "thr_follow",
        1000,
        500,
        Some(json(r#"{"id":"thr_follow"}"#)),
        None,
        &vec![json(
            r#"{"method":"item/completed","params":{"threadId":"thr_follow","turnId":"turn_1","item":{"type":"agentMessage"}}}"#,
        )],
        Some(&filter),
    );
    assert_eq!(events.len(), 1);
    assert_eq!(at(&events[0], &["type"]), &text("item_completed"));
}

#[test]
fn classifies_inbox_attention_states() {
    let approval = snapshot_fixture(
        "thr_approve",
        "/tmp/project-a",
        1000,
        "active",
        vec!["waitingOnApproval"],
        None,
    );
    let reply = snapshot_fixture(
        "thr_reply",
        "/tmp/project-b",
        900,
        "active",
        vec!["waitingOnUserInput"],
        None,
    );
    let completed = snapshot_fixture(
        "thr_done",
        "/tmp/project-c",
        800,
        "notLoaded",
        vec![],
        Some("completed"),
    );
    let active = snapshot_fixture("thr_active", "/tmp/project-d", 700, "active", vec![], None);

    let approval_item = classify_inbox_item(&approval, 2000);
    assert_eq!(approval_item.attention_reason, "pending_approval");
    assert_eq!(approval_item.waiting_on, "me");
    assert_eq!(approval_item.suggested_action, "approve");
    assert_eq!(approval_item.priority, "high");

    let reply_item = classify_inbox_item(&reply, 2000);
    assert_eq!(reply_item.attention_reason, "needs_reply");
    assert_eq!(reply_item.waiting_on, "me");
    assert_eq!(reply_item.suggested_action, "reply");

    let completed_item = classify_inbox_item(&completed, 2000);
    assert_eq!(completed_item.attention_reason, "completed");
    assert_eq!(completed_item.waiting_on, "none");
    assert_eq!(completed_item.suggested_action, "archive");

    let active_item = classify_inbox_item(&active, 2000);
    assert_eq!(active_item.attention_reason, "active");
    assert_eq!(active_item.waiting_on, "codex");
    assert_eq!(active_item.suggested_action, "inspect");
}

#[test]
fn sqlite_backed_inbox_matches_cached_attention() {
    let mut state = BridgeState::new();
    let approval = snapshot_fixture(
        "thr_approve",
        "/tmp/project-a",
        1000,
        "active",
        vec!["waitingOnApproval"],
        Some("in_progress"),
    );
    let completed = snapshot_fixture(
        "thr_done",
        "/tmp/project-b",
        1100,
        "notLoaded",
        vec![],
        Some("completed"),
    );
    upsert_thread_snapshot(&mut state, &approval, 2000).expect("upsert approval");
    upsert_thread_snapshot(&mut state, &completed, 2000).expect("upsert completed");

    let inbox = list_inbox_from_db(&state, 3000, None, None, None, None, 10).expect("inbox");
    assert_eq!(inbox.summary.total, 2);
    assert_eq!(inbox.summary.needs_attention, 1);
    assert_eq!(inbox.items[0].attention_reason, "pending_approval");
    assert_eq!(inbox.items[0].suggested_action, "approve");
}

#[test]
fn inbox_items_include_recent_actions() {
    let mut state = BridgeState::new();
    let reply = snapshot_fixture(
        "thr_reply",
        "/tmp/project-a",
        1000,
        "active",
        vec!["waitingOnUserInput"],
        Some("in_progress"),
    );
    upsert_thread_snapshot(&mut state, &reply, 2000).expect("upsert reply");
    record_action(&mut state, "thr_reply", "reply", json(r#"{"message":"On it"}"#), 2100)
        .expect("record action");

    let inbox = list_inbox_from_db(&state, 3000, None, None, None, None, 10).expect("inbox");
    let action = inbox.items[0].recent_action.as_ref().expect("recent action");
    assert_eq!(at(action, &["actionType"]), &text("reply"));
    assert_eq!(at(action, &["payload", "message"]), &text("On it"));
}

#[test]
fn normalize_thread_snapshot_uses_summary_fields_without_turns() {
    let snapshot = normalize_thread_snapshot(
        &json(
            r#"{"id":"thr_summary","name":"Summary only","cwd":"/tmp/project-a","updatedAt":1234,"status":{"type":"active","activeFlags":["waitingOnUserInput"]},"lastTurnStatus":"in_progress","lastPreview":"Need a reply"}"#,
        ),
        &json(
            r#"{"id":"thr_summary","status":{"type":"active","activeFlags":["waitingOnUserInput"]}}"#,
        ),
    )
    .expect("snapshot");

    assert_eq!(snapshot.thread_id, "thr_summary");
    assert_eq!(snapshot.name.as_deref(), Some("Summary only"));
    assert_eq!(snapshot.cwd.as_deref(), Some("/tmp/project-a"));
    assert_eq!(snapshot.last_turn_status.as_deref(), Some("in_progress"));
    assert_eq!(snapshot.last_preview.as_deref(), Some("Need a reply"));
    assert_eq!(
        snapshot.pending_prompt.as_ref().map(|prompt| prompt.kind.as_str()),
        Some("reply")
    );
}

#[test]
fn normalize_thread_snapshot_uses_latest_turn_timestamp_when_summary_is_stale() {
    let snapshot = normalize_thread_snapshot(
        &json(
            r#"{"id":"thr_done","name":"Done","updatedAt":1000,"lastTurnStatus":"completed","lastPreview":"Old summary"}"#,
        ),
        &json(
            r#"{"id":"thr_done","updatedAt":1000,"status":{"type":"idle","activeFlags":[]},"turns":[{"status":"completed","completedAt":2500,"items":[{"type":"agentMessage","phase":"final_answer","text":"Fresh answer"}]}]}"#,
        ),
    )
    .expect("snapshot");

    assert_eq!(snapshot.updated_at, Some(2500));
    assert_eq!(snapshot.last_turn_status.as_deref(), Some("completed"));
    assert_eq!(snapshot.last_preview.as_deref(), Some("Fresh answer"));
}

#[test]
fn completed_events_are_enriched_with_full_final_preview() {
    let sync_result = json(
        r#"{"threads":[{"threadId":"thr_done","lastPreview":"Summary preview"}],"events":[{"type":"thread_completed","threadId":"thr_done","lastPreview":"Summary preview"}]}"#,
    );
    assert_eq!(
        wants_full_preview(item(at(&sync_result, &["events"]), 0)).as_deref(),
        Some("thr_done")
    );

    let enriched = enrich_completed_event_previews(
        sync_result,
        &vec![Some("Full final answer\n\nWith all paragraphs.".to_string())],
    );

    assert_eq!(
        at(item(at(&enriched, &["events"]), 0), &["lastPreview"]),
        &text("Full final answer\n\nWith all paragraphs.")
    );
    assert_eq!(
        at(item(at(&enriched, &["threads"]), 0), &["lastPreview"]),
        &text("Full final answer\n\nWith all paragraphs.")
    );
}

#[test]
fn show_thread_result_includes_derived_state_and_recent_actions() {
    let mut state = BridgeState::new();
    record_action(&mut state, "thr_show", "approve", json(r#"{"decision":"approve"}"#), 2200)
        .expect("record action");
    let result = build_show_thread_result(
        Some(&state),
        "thr_show",
        &json(
            r#"{"thread":{"id":"thr_show","name":null,"cwd":"/tmp/project-a","status":{"type":"active","activeFlags":["waitingOnUserInput"]},"turns":[{"status":"completed","items":[{"type":"userMessage","text":"Can you check this?"},{"type":"agentMessage","text":"I checked it."}]},{"status":"interrupted","items":[{"type":"userMessage","text":"Which option should I pick?"}]}]}}"#,
        ),
    )
    .expect("show result");

    let thread = at(&result, &["thread"]);
    assert_eq!(at(thread, &["threadId"]), &text("thr_show"));
    assert_eq!(at(thread, &["displayName"]), &text("Which option should I pick?"));
    assert_eq!(at(thread, &["project"]), &text("project-a"));
    assert_eq!(at(thread, &["pendingPrompt", "kind"]), &text("reply"));
    assert_eq!(at(thread, &["canReply"]), &Json::Bool(true));
    assert_eq!(at(thread, &["canApprove"]), &Json::Bool(false));
    assert_eq!(at(thread, &["lastUserMessage"]), &text("Which option should I pick?"));
    assert_eq!(at(thread, &["latestQuestion"]), &text("Which option should I pick?"));
    assert!(thread.get_text("deltaSummary").expect("delta").contains("Needs input"));
    assert_eq!(
        at(item(at(thread, &["recentActions"]), 0), &["actionType"]),
        &text("approve")
    );
}

#[test]
fn reconcile_snapshots_returns_ts_sync_shape_and_dedupes_away_events() {
    let mut state = BridgeState::new();
    set_away_mode(&mut state, true, 900);
    let waiting = snapshot_fixture(
        "thr_wait",
        "/tmp/project-a",
        1000,
        "active",
        vec!["waitingOnUserInput"],
        Some("in_progress"),
    );
    let completed = snapshot_fixture(
        "thr_done",
        "/tmp/project-b",
        1100,
        "notLoaded",
        vec![],
        Some("completed"),
    );
    let snapshots = vec![waiting, completed];

    let first =
        reconcile_thread_snapshots(&mut state, 1200, &snapshots, true).expect("first reconcile");
    assert_eq!(at(&first, &["synced"]), &Json::UInt(2));
    assert_eq!(at(&first, &["away"]), &Json::Bool(true));
    assert_eq!(at(item(at(&first, &["threads"]), 0), &["threadId"]), &text("thr_wait"));
    let events = at(&first, &["events"]).as_array().expect("events");
    assert!(events.iter().any(|event| event.get_text("type") == Some("thread_waiting")));
    assert!(events.iter().any(|event| event.get_text("type") == Some("thread_completed")));

    let second =
        reconcile_thread_snapshots(&mut state, 1300, &snapshots, true).expect("second reconcile");
    assert_eq!(at(&second, &["events"]).as_array().expect("events").len(), 0);
}

#[test]
fn watch_events_from_sync_result_enriches_events_and_notifications() {
    let sync_result = json(
        r#"{"threads":[{"threadId":"thr_wait","name":"Need reply","cwd":"/tmp/project","updatedAt":1000,"statusType":"active","statusFlags":["waitingOnUserInput"],"lastTurnStatus":"in_progress","lastPreview":"Question","pendingPrompt":{"promptId":"reply:thr_wait","promptKind":"reply","promptStatus":"Needs input","question":"Question"}}],"events":[{"type":"thread_waiting","threadId":"thr_wait","promptKind":"reply","updatedAt":1000}]}"#,
    );
    let events = watch_events_from_sync_result(
        &sync_result,
        &vec![json(
            r#"{"method":"item/completed","params":{"threadId":"thr_wait","turnId":"turn_1","item":{"type":"agentMessage"}}}"#,
        )],
        None,
    );
    assert_eq!(at(&events[0], &["thread", "pendingPrompt", "promptKind"]), &text("reply"));
    assert!(events.iter().any(|event| event.get_text("type") == Some("item_completed")
        && at(event, &["thread", "threadId"]) == &text("thr_wait")));
}

#[test]
fn new_and_fork_dry_run_shapes_are_stable() {
    let new_result = start_new_thread_dry_run(Some("/tmp/project"), Some("hello"));
    assert_eq!(at(&new_result, &["action"]), &text("new"));
    assert_eq!(at(&new_result, &["dryRun"]), &Json::Bool(true));
    assert_eq!(at(&new_result, &["cwd"]), &text("/tmp/project"));

    let fork_result = fork_thread_dry_run("thr_source", Some("follow up"));
    assert_eq!(at(&fork_result, &["action"]), &text("fork"));
    assert_eq!(at(&fork_result, &["dryRun"]), &Json::Bool(true));
    assert_eq!(at(&fork_result, &["fromThreadId"]), &text("thr_source"));
}

#[test]
fn archive_requires_yes_for_filter_selection_and_supports_dry_run() {
    let mut state = BridgeState::new();
    let completed = snapshot_fixture(
        "thr_done",
        "/tmp/project-b",
        1100,
        "notLoaded",
        vec![],
        Some("completed"),
    );
    upsert_thread_snapshot(&mut state, &completed, 2000).expect("upsert completed");

    let err = archive_from_db(&state, None, Some("completed"), false, false, 3000)
        .expect_err("should require yes");
    assert!(err.message.contains("Refusing bulk archive"));

    let dry_run = archive_from_db(&state, None, Some("completed"), true, false, 3000)
        .expect("dry run archive");
    assert_eq!(at(&dry_run, &["dryRun"]), &Json::Bool(true));
    assert_eq!(at(item(at(&dry_run, &["results"]), 0), &["status"]), &text("would_archive"));
}

#[test]
fn watch_once_emits_cached_waiting_event_shape() {
    let mut state = BridgeState::new();
    let waiting = snapshot_fixture(
        "thr_wait",
        "/tmp/project-wait",
        1500,
        "active",
        vec!["waitingOnUserInput"],
        Some("in_progress"),
    );
    upsert_thread_snapshot(&mut state, &waiting, 2000).expect("upsert waiting");

    let events = watch_once_from_db(&state).expect("watch once");
    assert_eq!(events.len(), 1);
    assert_eq!(at(&events[0], &["type"]), &text("thread_waiting"));
    assert_eq!(at(&events[0], &["threadId"]), &text("thr_wait"));
    assert_eq!(at(&events[0], &["thread", "pendingPrompt", "promptKind"]), &text("reply"));
}

#[test]
fn away_mode_round_trip_matches_ts_shape() {
    let mut state = BridgeState::new();

    let initial = get_away_mode(&mut state);
    assert_eq!(at(&initial, &["away"]), &Json::Bool(false));
    assert_eq!(at(&initial, &["awayStartedAt"]), &Json::Null);

    let enabled = set_away_mode(&mut state, true, 1234);
    assert_eq!(at(&enabled, &["away"]), &Json::Bool(true));
    assert_eq!(at(&enabled, &["awayStartedAt"]), &Json::UInt(1234));
    assert_eq!(at(&enabled, &["awaySessionId"]), &text("1234"));

    let status = get_away_mode(&mut state);
    assert_eq!(at(&status, &["away"]), &Json::Bool(true));
    assert_eq!(at(&status, &["awayStartedAt"]), &Json::UInt(1234));
    assert_eq!(at(&status, &["awaySessionId"]), &text("1234"));

    let disabled = set_away_mode(&mut state, false, 1500);
    assert_eq!(at(&disabled, &["away"]), &Json::Bool(false));
    assert_eq!(at(&disabled, &["awayStartedAt"]), &Json::Null);
    assert_eq!(at(&disabled, &["awaySessionId"]), &Json::Null);
}

#[test]
fn away_mode_writes_remote_mode_status_marker() {
    let mut state = BridgeState::new();

    let enabled_marker = remote_mode_status_marker(&set_away_mode(&mut state, true, 1234));
    assert_eq!(at(&enabled_marker, &["away"]), &Json::Bool(true));
    assert_eq!(at(&enabled_marker, &["awayStartedAt"]), &Json::UInt(1234));
    assert_eq!(at(&enabled_marker, &["awaySessionId"]), &text("1234"));

    let disabled_marker = remote_mode_status_marker(&set_away_mode(&mut state, false, 1500));
    assert_eq!(at(&disabled_marker, &["away"]), &Json::Bool(false));
    assert_eq!(at(&disabled_marker, &["awayStartedAt"]), &Json::Null);
    assert_eq!(at(&disabled_marker, &["awaySessionId"]), &Json::Null);
}

#[test]
fn unarchive_dry_run_and_live_record_action() {
    let mut state = BridgeState::new();

    let dry_run =
        unarchive_thread_result(&mut state, "thr_archived", true, 1000, None).expect("dry run");
    assert_eq!(at(&dry_run, &["action"]), &text("unarchive"));
    assert_eq!(at(item(at(&dry_run, &["results"]), 0), &["status"]), &text("would_unarchive"));

    let live = unarchive_thread_result(
        &mut state,
        "thr_archived",
        false,
        1100,
        Some(json(r#"{"threadId":"thr_archived","ok":true}"#)),
    )
    .expect("live");
    assert_eq!(at(item(at(&live, &["results"]), 0), &["status"]), &text("unarchived"));

    let history = get_thread_history(&state, "thr_archived", 10).expect("history");
    assert_eq!(history[0].action_type, "unarchive");
}

#[test]
fn follow_result_emits_started_and_snapshot_events() {
    let thread = json(r#"{"id":"thr_follow","name":"Follow me"}"#);
    let events =
        build_follow_events("thr_follow", 1000, 500, Some(thread.clone()), None, &vec![], None);
    assert_eq!(at(&events[0], &["type"]), &text("follow_started"));
    assert_eq!(at(&events[1], &["type"]), &text("follow_snapshot"));
    assert_eq!(at(&events[1], &["thread"]), &thread);
}

#[test]
fn follow_summaries_match_direct_and_composed_ts_shapes() {
    let events = vec![json(r#"{"type":"follow_started","threadId":"thr_follow"}"#)];

    let direct = follow_result_summary("thr_follow", 3000, &events, false);
    assert_eq!(at(&direct, &["ok"]), &Json::Bool(true));
    assert_eq!(at(&direct, &["action"]), &text("follow"));
    assert_eq!(at(&direct, &["threadId"]), &text("thr_follow"));
    assert!(direct.get("events").is_none());

    let composed = follow_result_summary("thr_follow", 3000, &events, true);
    assert_eq!(at(&composed, &["events"]).as_array().expect("events").len(), 1);

    let command = attach_follow_payload(
        json(r#"{"ok":true,"action":"reply","threadId":"thr_follow"}"#),
        direct,
        true,
    );
    assert_eq!(at(&command, &["type"]), &text("command_result"));
    assert_eq!(at(&command, &["result", "follow", "action"]), &text("follow"));
}

#[test]
fn settling_reads_until_the_thread_is_at_rest() {
    let busy = json(r#"{"thread":{"id":"thr_1","turns":[{"status":"inProgress"}]}}"#);
    let done = json(r#"{"thread":{"id":"thr_1","turns":[{"status":"completed"}]}}"#);
    let (mut settle, action) = Settle::begin("thr_1", Vec::new(), 3_000, None, 0);
    assert_eq!(action, SettleAction::ReadThread);
    assert_eq!(settle.advance(SettleInput::Read(busy.clone()), 5), SettleAction::Sleep(1000));
    assert_eq!(settle.advance(SettleInput::Woke, 1_005), SettleAction::ReadThread);
    assert_eq!(settle.advance(SettleInput::Read(done), 1_010), SettleAction::Finish);
    assert_eq!(settle.events.len(), 2);
    assert_eq!(at(&settle.events[1], &["type"]), &Json::text("follow_snapshot"));
    assert_eq!(settle.advance(SettleInput::Read(busy), 1_020), SettleAction::Finish);
    assert_eq!(settle.events.len(), 2);
}

#[test]
fn settling_reads_only_before_its_deadline() {
    let busy = json(r#"{"thread":{"id":"thr_1","turns":[]}}"#);
    let (mut settle, action) = Settle::begin("thr_1", Vec::new(), 101, None, 7);
    assert_eq!((action, settle.deadline), (SettleAction::ReadThread, 20_007));
    assert_eq!(settle.advance(SettleInput::Read(busy.clone()), 19_006), SettleAction::Sleep(1000));
    assert_eq!(settle.advance(SettleInput::Woke, 20_006), SettleAction::ReadThread);
    assert_eq!(settle.advance(SettleInput::Read(busy), 20_006), SettleAction::Sleep(1000));
    assert_eq!(settle.advance(SettleInput::Woke, 20_007), SettleAction::Finish);
    assert_eq!(settle.events.len(), 2);
}

#[test]
fn nothing_is_read_of_what_is_settled() {
    let ended = vec![json(r#"{"type":"turn.completed"}"#)];
    let (settle, action) = Settle::begin("thr_1", ended, 3_000, None, 0);
    assert_eq!((action, settle.events.len()), (SettleAction::Finish, 1));
    let (settle, action) = Settle::begin("thr_1", Vec::new(), 100, None, 0);
    assert_eq!((action, settle.events.len()), (SettleAction::Finish, 0));
}

#[test]
fn a_watch_tells_the_same_round_once() {
    let events = vec![json(r#"{"type":"thread_waiting","b":1,"a":null}"#)];
    let seen = watch_changed("", &events).expect("a change");
    assert_eq!(seen, r#"[{"a":null,"b":1,"type":"thread_waiting"}]"#);
    assert_eq!(watch_changed(&seen, &events), None);
    assert_eq!(watch_changed("", &Vec::new()), Some("[]".to_string()));
    assert_eq!(watch_changed("[]", &events), Some(seen));
}

#[test]
fn composed_follow_settle_duration_matches_ts_default() {
    assert_eq!(composed_settle_duration_ms(100), 0);
    assert_eq!(composed_settle_duration_ms(101), 20_000);
    assert_eq!(composed_settle_duration_ms(3_000), 20_000);
}

#[test]
fn new_thread_request_and_result_shapes_match_ts() {
    assert_eq!(thread_start_params(None), json("{}"));
    assert_eq!(thread_start_params(Some("/tmp/project")), json(r#"{"cwd":"/tmp/project"}"#));
    let params = turn_start_params("thr_new", Some("/tmp/project"), "hello");
    assert_eq!(at(&params, &["threadId"]), &text("thr_new"));
    assert_eq!(at(&params, &["cwd"]), &text("/tmp/project"));
    let input = at(&params, &["input"]);
    assert_eq!(input.as_array().expect("input").len(), 1);
    assert_eq!(at(item(input, 0), &["type"]), &text("text"));
    assert_eq!(at(item(input, 0), &["text"]), &text("hello"));
    assert_eq!(at(item(input, 0), &["text_elements"]), &json("[]"));

    let result = new_thread_live_result(
        Some("/tmp/input"),
        Some(" hello "),
        json(r#"{"thread":{"id":"thr_new","cwd":"/tmp/from-codex"}}"#),
        Some(json(r#"{"turn":{"id":"turn_1"}}"#)),
    );
    assert_eq!(at(&result, &["threadId"]), &text("thr_new"));
    assert_eq!(at(&result, &["cwd"]), &text("/tmp/from-codex"));
    assert_eq!(at(&result, &["message"]), &text("hello"));
    assert_eq!(at(&result, &["started", "turn", "id"]), &text("turn_1"));
}

#[test]
fn archive_targets_match_ts_explicit_and_filtered_selection() {
    let mut state = BridgeState::new();
    let project_a = snapshot_fixture(
        "thr_a",
        "/tmp/project-a",
        1000,
        "active",
        vec!["waitingOnUserInput"],
        Some("in_progress"),
    );
    let project_b =
        snapshot_fixture("thr_b", "/tmp/project-b", 900, "idle", vec![], Some("completed"));
    upsert_thread_snapshot(&mut state, &project_a, 1000).expect("upsert a");
    upsert_thread_snapshot(&mut state, &project_b, 1000).expect("upsert b");

    let explicit = resolve_archive_targets(
        &state,
        &vec!["thr_a".to_string(), "thr_b".to_string()],
        None,
        None,
        None,
        100,
        1500,
    )
    .expect("explicit targets");
    assert_eq!(explicit.targets, vec!["thr_a", "thr_b"]);
    assert!(!explicit.using_filter_selection);

    let filtered = resolve_archive_targets(
        &state,
        &vec![],
        Some("project-a"),
        Some("active"),
        None,
        10,
        1500,
    )
    .expect("filtered targets");
    assert_eq!(filtered.targets, vec!["thr_a"]);
    assert!(filtered.using_filter_selection);

    let implicit_bulk = resolve_archive_targets(&state, &vec![], None, None, None, 10, 1500)
        .expect("implicit bulk targets");
    assert!(implicit_bulk.using_filter_selection);
    let bulk_without_yes =
        archive_from_db(&state, None, None, false, false, 1500).expect_err("bulk refusal");
    assert!(bulk_without_yes.full().contains("Refusing bulk archive"));
}

#[test]
fn watch_filter_keeps_only_requested_event_types() {
    let filter = vec!["item_completed".to_string()];
    let filtered = filter_watch_events(
        vec![
            json(r#"{"type":"thread_waiting","threadId":"thr_1"}"#),
            json(r#"{"type":"item_completed","threadId":"thr_1"}"#),
        ],
        Some(&filter),
    );
    assert_eq!(filtered.len(), 1);
    assert_eq!(at(&filtered[0], &["type"]), &text("item_completed"));
}

#[test]
fn watch_thread_error_event_matches_ts_stream_shape() {
    let event = watch_thread_error_event(&BridgeError::new("sync failed"));
    assert_eq!(at(&event, &["type"]), &text("thread_error"));
    assert_eq!(at(&event, &["message"]), &text("sync failed"));

    let filter = vec!["thread_waiting".to_string()];
    let filtered = filter_watch_events(vec![event], Some(&filter));
    assert!(filtered.is_empty());
}

#[test]
fn derives_waiting_prompt_from_status_flags() {
    let summary = json(
        r#"{"id":"thr_reply","name":null,"cwd":"/tmp/reply","updatedAt":123,"status":{"type":"active","activeFlags":["waitingOnUserInput"]}}"#,
    );
    let thread = json(
        r#"{"id":"thr_reply","cwd":"/tmp/reply","status":{"type":"active","activeFlags":["waitingOnUserInput"]},"turns":[{"status":"in_progress","items":[{"type":"agentMessage","phase":"final_answer","text":"Can you confirm the plan?"}]}]}"#,
    );

    let snapshot = normalize_thread_snapshot(&summary, &thread).expect("snapshot");
    let prompt = snapshot.pending_prompt.expect("pending prompt");
    assert_eq!(prompt.kind, "reply");
    assert_eq!(prompt.question.as_deref(), Some("Can you confirm the plan?"));
    assert_eq!(snapshot.last_turn_status.as_deref(), Some("in_progress"));
}

#[test]
fn inbox_age_seconds_handles_mixed_timestamp_units() {
    let snapshot = snapshot_fixture(
        "thr_recent",
        "/tmp/project",
        1_776_219_396,
        "notLoaded",
        vec![],
        Some("completed"),
    );

    let item = classify_inbox_item(&snapshot, 1_776_219_400_000);

    assert_eq!(item.age_seconds, Some(4));
}

#[test]
fn a_followed_run_reads_starts_and_ends() {
    let mut follow = Follow::begin("thr_1", Some("go on"), 200, 100, None);
    assert_eq!(follow.events.len(), 1);
    let action = follow.advance(FollowInput::Read(json(r#"{"thread":{"id":"thr_1"}}"#)), 1000);
    match action {
        FollowAction::StartTurn(params) => {
            assert_eq!(at(&params, &["threadId"]), &text("thr_1"));
        }
        other => panic!("unexpected action: {other:?}"),
    }
    let mut action =
        follow.advance(FollowInput::Started(json(r#"{"turn":{"id":"turn_1"}}"#)), 1000);
    let mut now = 1000;
    let mut rounds = 0;
    while action != FollowAction::Finish {
        rounds += 1;
        assert!(rounds < 100, "a run ends");
        let input = match action {
            FollowAction::ReadThread => FollowInput::Read(json(r#"{"thread":{"id":"thr_1"}}"#)),
            FollowAction::DrainNotifications => FollowInput::Notifications(vec![]),
            FollowAction::Sleep(ms) => {
                now += ms;
                FollowInput::Woke
            }
            other => panic!("unexpected action: {other:?}"),
        };
        action = follow.advance(input, now);
    }
    assert!(now >= 1200);
    assert_eq!(at(&follow.events[0], &["type"]), &text("follow_started"));
}

#[test]
fn requests_are_planned_from_their_arguments() {
    assert_eq!(
        message_or_prompt(Some("  "), &vec!["fix".to_string(), "it ".to_string()]).as_deref(),
        Some("fix it")
    );
    assert_eq!(
        reply_message(None, &vec![]).expect_err("empty").message,
        "Reply message cannot be empty"
    );
    assert_eq!(
        approval_decision(Some(" APPROVE "), None),
        Ok(("approve".to_string(), "YES".to_string()))
    );
    assert_eq!(
        approval_decision(None, Some("Deny")),
        Ok(("deny".to_string(), "NO".to_string()))
    );
    assert_eq!(
        approval_decision(None, None).expect_err("none").message,
        "Approval decision must be approve or deny"
    );
    assert_eq!(
        archive_targets(Some("a, ,b"), &vec!["c".to_string()]),
        vec!["a", "b", "c"]
    );
    assert!(reads_without_turns("thread thr_1 is not materialized yet"));
    assert!(!reads_without_turns("thread not loaded"));
}

#[test]
fn failures_of_the_app_server_have_classes() {
    let class = |message: &str| {
        classify_app_server_error_message(message).text_of_member("code").expect("code")
    };
    assert_eq!(class("thread not loaded: thr_1"), "thread_not_loaded");
    assert_eq!(class("thr_1 is not materialized yet"), "thread_not_materialized");
    assert_eq!(class("no rollout found for thread id thr_1"), "thread_no_rollout");
    assert_eq!(class("boom"), "app_server_error");
}

#[test]
fn directories_above_are_found_as_paths_have_them() {
    assert_eq!(workspace_roots("/a/b"), vec!["/a/b", "/a", "/"]);
    assert_eq!(workspace_roots("/a/"), vec!["/a/", "/"]);
    assert_eq!(workspace_roots("/a//b"), vec!["/a//b", "/a", "/"]);
    assert_eq!(workspace_roots("/a/./b"), vec!["/a/./b", "/a", "/"]);
    assert_eq!(workspace_roots("a/b"), vec!["a/b", "a", ""]);
    assert_eq!(workspace_roots("/"), vec!["/"]);
    for path in ["/a/b", "/a/", "/a//b", "/a/./b", "a/b", "/", "", ".", "./a", "/.", "//a", "/a/.", "..", "a/.."] {
        let wanted: Vec<String> = std::path::Path::new(path)
            .ancestors()
            .map(|above| above.display().to_string())
            .collect();
        assert_eq!(workspace_roots(path), wanted, "{path}");
    }
}
