//! What holds of the library as a whole, on concrete values.
use codex_telegram_bridge::away::set_away_mode;
use codex_telegram_bridge::codex::derive_pending_prompt;
use codex_telegram_bridge::history::{get_thread_history, record_action};
use codex_telegram_bridge::inbox::{list_inbox_from_db, list_waiting_from_db};
use codex_telegram_bridge::json::{Json, Object};
use codex_telegram_bridge::outbox::{
    due_outbound_events, enqueue_outbound_event, settle_outbound_event, DeliveryReply,
};
use codex_telegram_bridge::session::{Session, SyncRun};
use codex_telegram_bridge::state::BridgeState;
use codex_telegram_bridge::sync::{reconcile_thread_snapshots, upsert_thread_snapshot};
use codex_telegram_bridge::thread::BridgeThreadSnapshot;

fn json(text: &str) -> Json {
    convert(&serde_json::from_str::<serde_json::Value>(text).expect("json"))
}

fn convert(value: &serde_json::Value) -> Json {
    match value {
        serde_json::Value::Null => Json::Null,
        serde_json::Value::Bool(b) => Json::Bool(*b),
        serde_json::Value::Number(n) => {
            if let Some(v) = n.as_u64() {
                Json::UInt(v)
            } else if let Some(v) = n.as_i64() {
                Json::NegInt(v)
            } else {
                Json::Real(n.to_string())
            }
        }
        serde_json::Value::String(s) => Json::Str(s.clone()),
        serde_json::Value::Array(items) => Json::Array(items.iter().map(convert).collect()),
        serde_json::Value::Object(members) => Json::Object(
            members.iter().map(|(key, member)| (key.clone(), convert(member))).collect(),
        ),
    }
}

fn snapshot_fixture(
    thread_id: &str,
    cwd: &str,
    updated_at: u64,
    status_type: &str,
    status_flags: Vec<&str>,
    last_turn_status: Option<&str>,
) -> BridgeThreadSnapshot {
    let flags: Vec<String> = status_flags.into_iter().map(|flag| flag.to_string()).collect();
    let pending_prompt =
        derive_pending_prompt(thread_id, &flags, Some(format!("preview for {thread_id}")));
    BridgeThreadSnapshot {
        thread_id: thread_id.to_string(),
        name: None,
        cwd: Some(cwd.to_string()),
        updated_at: Some(updated_at),
        status_type: status_type.to_string(),
        status_flags: flags,
        last_turn_status: last_turn_status.map(|status| status.to_string()),
        last_preview: Some(format!("preview for {thread_id}")),
        pending_prompt,
    }
}

#[test]
fn waiting_threads_come_last_changed_first() {
    let mut state = BridgeState::new();
    for (id, at) in [("a", 100), ("b", 300), ("c", 200)] {
        let cwd = format!("/tmp/Project-{id}");
        let waiting =
            snapshot_fixture(id, &cwd, at, "active", vec!["waitingOnUserInput"], None);
        upsert_thread_snapshot(&mut state, &waiting, 1000).expect("upsert");
    }
    let ids = |project: Option<&str>, limit: u64| {
        list_waiting_from_db(&state, project, limit)
            .expect("waiting")
            .threads
            .into_iter()
            .map(|thread| thread.thread_id)
            .collect::<Vec<_>>()
    };
    assert_eq!(ids(None, 0), vec!["b", "c", "a"]);
    assert_eq!(ids(None, 2), vec!["b", "c"]);
    assert_eq!(ids(Some("PROJECT-A"), 0), vec!["a"]);
    assert!(ids(Some("nothing"), 0).is_empty());
}

#[test]
fn inbox_rows_come_most_urgent_first() {
    let mut state = BridgeState::new();
    let rows = [
        ("done", 900, vec![], Some("completed")),
        ("reply", 100, vec!["waitingOnUserInput"], None),
        ("approve", 50, vec!["waitingOnApproval"], None),
        ("active", 800, vec![], None),
    ];
    for (id, at, flags, turn) in rows {
        let snapshot = snapshot_fixture(id, "/tmp/p", at, "active", flags, turn);
        upsert_thread_snapshot(&mut state, &snapshot, 1000).expect("upsert");
    }
    let inbox = list_inbox_from_db(&state, 2000, None, None, None, None, 0).expect("inbox");
    let order: Vec<&str> = inbox.items.iter().map(|item| item.thread_id.as_str()).collect();
    assert_eq!(order, vec!["approve", "active", "reply", "done"]);
    assert_eq!(inbox.summary.total, 4);
    let mine = list_inbox_from_db(&state, 2000, None, None, None, Some("me"), 1).expect("mine");
    assert_eq!(mine.items.len(), 1);
    assert_eq!(mine.items[0].thread_id, "approve");
    assert_eq!(mine.items[0].waiting_on, "me");
    let none = list_inbox_from_db(&state, 2000, None, Some("gone"), None, None, 1).expect("none");
    assert!(none.items.is_empty());
}

#[test]
fn failed_deliveries_are_tried_again_after_their_wait() {
    let mut state = BridgeState::new();
    let event = json(r#"{"type":"thread_waiting","threadId":"t","updatedAt":1}"#);
    enqueue_outbound_event(&mut state, &event, 10_000).expect("enqueue");
    for (now, wait) in [(10_000, 1000), (11_000, 2000), (13_000, 4000)] {
        let due = due_outbound_events(&state, now, 10).expect("due");
        assert_eq!(due.len(), 1);
        let failed = DeliveryReply::Failed("offline".to_string());
        settle_outbound_event(&mut state, &due[0].event_id, due[0].attempts, &failed, now)
            .expect("settle");
        assert!(due_outbound_events(&state, now + wait - 1, 10).expect("early").is_empty());
        assert_eq!(due_outbound_events(&state, now + wait, 10).expect("due").len(), 1);
    }
    assert_eq!(state.outbound[0].attempts, 3);
    assert_eq!(state.outbound[0].last_error.as_deref(), Some("offline"));
    let id = state.outbound[0].event_id.clone();
    settle_outbound_event(&mut state, &id, 3, &DeliveryReply::Delivered, 20_000).expect("settle");
    assert!(due_outbound_events(&state, 1_000_000, 10).expect("due").is_empty());
    assert!(!enqueue_outbound_event(&mut state, &event, 30_000).expect("again"));
}

#[test]
fn due_notifications_come_oldest_first() {
    let mut state = BridgeState::new();
    for (thread, at) in [("late", 300), ("early", 100), ("b", 200), ("a", 200)] {
        let event = Object::new().with("threadId", Json::text(thread)).with(
            "eventKey",
            Json::text("k"),
        );
        enqueue_outbound_event(&mut state, &event.done(), at).expect("enqueue");
    }
    let ids: Vec<String> = due_outbound_events(&state, 1000, 3)
        .expect("due")
        .into_iter()
        .map(|due| due.event_id)
        .collect();
    assert_eq!(
        ids,
        vec!["codex-codex_event-early-k", "codex-codex_event-a-k", "codex-codex_event-b-k"]
    );
}

#[test]
fn logged_actions_are_the_newest() {
    let mut state = BridgeState::new();
    record_action(&mut state, "t", "first", json("1"), 10).expect("first");
    record_action(&mut state, "other", "second", json("2"), 20).expect("second");
    record_action(&mut state, "t", "third", json("3"), 5).expect("third");
    let history = get_thread_history(&state, "t", 10).expect("history");
    let types: Vec<&str> = history.iter().map(|action| action.action_type.as_str()).collect();
    assert_eq!(types, vec!["third", "first"]);
    assert_eq!(get_thread_history(&state, "t", 1).expect("one").len(), 1);
    assert_eq!(history[0].payload, Json::UInt(3));
}

#[test]
fn events_are_told_once_and_only_since_the_user_left() {
    let mut state = BridgeState::new();
    let left = 1_776_219_400_000;
    set_away_mode(&mut state, true, left);
    let old = snapshot_fixture("old", "/p", left - 5000, "idle", vec![], Some("completed"));
    let new = snapshot_fixture("new", "/p", left + 5000, "idle", vec![], Some("completed"));
    let snapshots = vec![old, new];
    let told = |state: &mut BridgeState, now: u64| {
        let report = reconcile_thread_snapshots(state, now, &snapshots, true).expect("sync");
        report
            .get("events")
            .and_then(|events| events.as_array())
            .expect("events")
            .iter()
            .map(|event| event.text_of_member("threadId").expect("thread"))
            .collect::<Vec<_>>()
    };
    assert_eq!(told(&mut state, left + 6000), vec!["new"]);
    assert!(told(&mut state, left + 7000).is_empty());
    set_away_mode(&mut state, false, left + 8000);
    assert!(told(&mut state, left + 9000).is_empty());
}

#[test]
fn sessions_answer_their_own_requests() {
    let mut session = Session::new();
    let first = session.begin_request("a", Json::Null, 1000, None).expect("first");
    let second = session.begin_request("b", Json::Null, 1000, Some(10)).expect("second");
    assert_ne!(first.id, second.id);
    assert_eq!(second.timeout, 10);
    let mut answer = json(r#"{"result":1}"#);
    answer.set("id", Json::UInt(first.id));
    assert_eq!(session.receive(&answer, second.id), Ok(None));
    assert_eq!(session.receive(&answer, first.id), Ok(Some(Json::UInt(1))));
    let mut refusal = json(r#"{"error":{"code":1}}"#);
    refusal.set("id", Json::UInt(second.id));
    assert_eq!(session.receive(&refusal, second.id), Err(json(r#"{"code":1}"#)));
    assert_eq!(
        session.begin_request("late", Json::Null, 1000, Some(0)).expect_err("late").message,
        "Codex request deadline exceeded while waiting for late"
    );
}

#[test]
fn threads_are_read_with_turns_while_the_user_is_away() {
    let mut state = BridgeState::new();
    set_away_mode(&mut state, true, 1000);
    let mut run = SyncRun::begin(&state);
    run.listed(&json(r#"{"data":[{"id":"t1","updatedAt":2000},{"id":"t2","updatedAt":2000}]}"#));
    let params = run.next_read(false).expect("params").expect("thread");
    assert_eq!(params.get_text("threadId"), Some("t1"));
    assert_eq!(params.get("includeTurns"), Some(&Json::Bool(true)));
    run.read(&json(r#"{"thread":{"id":"t1","turns":[{"status":"completed"}]}}"#)).expect("read");
    assert_eq!(run.next_read(true), Ok(None));
    let report = run.finish(&mut state, 3000, true).expect("finish");
    assert_eq!(report.get_u64("synced"), Some(1));
    let mut bad = SyncRun::begin(&state);
    bad.listed(&json(r#"{"data":[{"name":"no id"}]}"#));
    assert_eq!(
        bad.next_read(false).expect_err("no id").message,
        "thread id missing in thread/list"
    );
}

#[test]
fn values_are_set_and_read_by_key() {
    let mut value = json(r#"{"a":1,"b":[true,null,-3,"x"]}"#);
    value.set("a", Json::text("new"));
    value.set("c", Json::signed(-7));
    assert_eq!(value.get_text("a"), Some("new"));
    assert_eq!(value.get("c"), Some(&Json::NegInt(-7)));
    assert_eq!(value.get("b").and_then(|b| b.as_array()).map(|b| b.len()), Some(4));
    assert_eq!(value.get_or_null("zzz"), Json::Null);
    assert_eq!(value.get_u64("c"), None);
}
