//! Snapshots of threads: storing them, and the events that they give.
use vstd::prelude::*;
use vstd::string::*;

use crate::error::BridgeError;
use crate::json::{Json, JsonV, Object, text_array, text_or_null, uint_or_null};
use crate::settings::{get_setting_number, get_setting_text, setting, setting_number};
use crate::state::{
    BridgeState, BridgeStateV, delivery_row_key, DeliveryRow, DeliveryRowV, event_row_key, EventRow,
    EventRowV, find_delivery, find_event, find_prompt, find_thread, out_of_range, prompt_row_key,
    PromptRow, PromptRowV, thread_row_key, ThreadRow, ThreadRowV, to_sql_i64,
};
use crate::table::{
    add_new_row, first_row, has_row, key_is, lemma_without_step, position, put_row, without,
};
use crate::text::{cat3, copy_opt, copy_texts, decimal, opt_is, same, u64_text};
use crate::thread::{
    BridgeThreadSnapshot, BridgeThreadSnapshotV, in_away_window, PendingPrompt, PendingPromptV,
    should_emit_for_away_window,
};

verus! {

// ---------------------------------------------------------------------------
// Threads and prompts
// ---------------------------------------------------------------------------

/// The later of two time stamps that may be missing.
pub open spec fn later(old: Option<i64>, new: Option<i64>) -> Option<i64> {
    match (old, new) {
        (None, _) => new,
        (_, None) => old,
        (Some(o), Some(n)) => if n > o {
            Some(n)
        } else {
            Some(o)
        },
    }
}

/// Every time stamp of a snapshot that is stored at `now` fits the database.
pub open spec fn snapshot_fits(s: BridgeThreadSnapshotV, now: u64) -> bool {
    now <= i64::MAX && (s.updated_at matches Some(u) ==> u <= i64::MAX)
}

/// The row of a thread that was seen at `now`.
pub open spec fn thread_row(s: BridgeThreadSnapshotV, updated_at: Option<i64>, now: i64) -> ThreadRowV {
    ThreadRowV {
        thread_id: s.thread_id,
        name: s.name,
        cwd: s.cwd,
        source: "codex-app-server"@,
        status_type: s.status_type,
        status_flags: s.status_flags,
        updated_at,
        last_seen_at: now,
        last_turn_status: s.last_turn_status,
        last_preview: s.last_preview,
    }
}

/// The row of a prompt that was seen at `now`.
pub open spec fn prompt_row(thread_id: Seq<char>, p: PendingPromptV, now: i64) -> PromptRowV {
    PromptRowV {
        thread_id,
        prompt_id: p.prompt_id,
        prompt_kind: p.kind,
        prompt_status: p.status,
        question: match p.question {
            Some(q) => q,
            None => Seq::empty(),
        },
        created_at: now,
    }
}

/// The state once a snapshot is stored: its thread and its prompt replace what
/// was known, and the time of the last change never goes back.
pub open spec fn with_snapshot(st: BridgeStateV, s: BridgeThreadSnapshotV, now: i64) -> BridgeStateV {
    let hit = key_is(thread_row_key(), s.thread_id);
    let new_updated = match s.updated_at {
        Some(u) => Some(u as i64),
        None => None,
    };
    let updated = match first_row(st.threads, hit) {
        Some(row) => later(row.updated_at, new_updated),
        None => new_updated,
    };
    let prompt_hit = key_is(prompt_row_key(), s.thread_id);
    BridgeStateV {
        threads: put_row(st.threads, hit, thread_row(s, updated, now)),
        prompts: match s.pending_prompt {
            Some(p) => put_row(st.prompts, prompt_hit, prompt_row(s.thread_id, p, now)),
            None => without(st.prompts, prompt_hit),
        },
        ..st
    }
}

/// Removes the prompt of a thread.
pub fn delete_prompt(state: &mut BridgeState, thread_id: &str)
    ensures
        final(state)@ == (BridgeStateV {
            prompts: without(old(state)@.prompts, key_is(prompt_row_key(), thread_id@)),
            ..old(state)@
        }),
{
    let ghost hit = key_is(prompt_row_key(), thread_id@);
    let mut rows: Vec<PromptRow> = Vec::new();
    core::mem::swap(&mut rows, &mut state.prompts);
    let ghost all = rows.deep_view();
    let ghost given = rows@;
    let mut kept: Vec<PromptRow> = Vec::new();
    assert(kept.deep_view() =~= without(all.take(0), hit)) by {
        reveal(Seq::filter);
    }
    for row in it: rows
        invariant
            it.seq() == given,
            all == Seq::new(given.len(), |i: int| given[i]@),
            hit == key_is(prompt_row_key(), thread_id@),
            kept.deep_view() == without(all.take(it.index()), hit),
    {
        proof {
            lemma_without_step(all, hit, it.index());
            assert(all[it.index()] == row@);
        }
        let ghost before = kept.deep_view();
        if !same(row.thread_id.as_str(), thread_id) {
            kept.push(row);
            assert(kept.deep_view() =~= before.push(row@));
        }
    }
    assert(all.take(all.len() as int) =~= all);
    state.prompts = kept;
}

/// Stores a snapshot.
pub fn upsert_thread_snapshot(
    state: &mut BridgeState,
    snapshot: &BridgeThreadSnapshot,
    now: u64,
) -> (r: Result<(), BridgeError>)
    ensures
        match r {
            Ok(_) => snapshot_fits(snapshot@, now) && final(state)@ == with_snapshot(
                old(state)@,
                snapshot@,
                now as i64,
            ),
            Err(e) => !snapshot_fits(snapshot@, now) && e@ == out_of_range() && final(state)@
                == old(state)@,
        },
{
    let new_updated: Option<i64> = match snapshot.updated_at {
        Some(u) => match to_sql_i64(u) {
            Ok(v) => Some(v),
            Err(e) => {
                return Err(e);
            },
        },
        None => None,
    };
    let seen: i64 = match to_sql_i64(now) {
        Ok(v) => v,
        Err(e) => {
            return Err(e);
        },
    };
    let i: usize = find_thread(&state.threads, snapshot.thread_id.as_str());
    let updated: Option<i64> = if i < state.threads.len() {
        match (state.threads[i].updated_at, new_updated) {
            (None, _) => new_updated,
            (Some(o), None) => Some(o),
            (Some(o), Some(n)) => if n > o {
                Some(n)
            } else {
                Some(o)
            },
        }
    } else {
        new_updated
    };
    let row = ThreadRow {
        thread_id: snapshot.thread_id.clone(),
        name: copy_opt(&snapshot.name),
        cwd: copy_opt(&snapshot.cwd),
        source: "codex-app-server".to_owned(),
        status_type: snapshot.status_type.clone(),
        status_flags: copy_texts(&snapshot.status_flags),
        updated_at: updated,
        last_seen_at: seen,
        last_turn_status: copy_opt(&snapshot.last_turn_status),
        last_preview: copy_opt(&snapshot.last_preview),
    };
    let ghost before = state.threads.deep_view();
    assert(row@ == thread_row(snapshot@, updated, seen));
    if i < state.threads.len() {
        assert(before[i as int] == state.threads@[i as int]@);
        state.threads[i] = row;
        assert(state.threads.deep_view() =~= before.update(i as int, row@));
    } else {
        state.threads.push(row);
        assert(state.threads.deep_view() =~= before.push(row@));
    }
    match &snapshot.pending_prompt {
        Some(prompt) => {
            let question: String = match &prompt.question {
                Some(q) => q.clone(),
                None => String::new(),
            };
            let entry = PromptRow {
                thread_id: snapshot.thread_id.clone(),
                prompt_id: prompt.prompt_id.clone(),
                prompt_kind: prompt.kind.clone(),
                prompt_status: prompt.status.clone(),
                question,
                created_at: seen,
            };
            let ghost known = state.prompts.deep_view();
            let k: usize = find_prompt(&state.prompts, snapshot.thread_id.as_str());
            if k < state.prompts.len() {
                state.prompts[k] = entry;
                assert(state.prompts.deep_view() =~= known.update(k as int, entry@));
            } else {
                state.prompts.push(entry);
                assert(state.prompts.deep_view() =~= known.push(entry@));
            }
        },
        None => {
            delete_prompt(state, snapshot.thread_id.as_str());
        },
    }
    Ok(())
}

// ---------------------------------------------------------------------------
// Reconciling snapshots
// ---------------------------------------------------------------------------

/// A prompt as a member of a thread object.
pub open spec fn prompt_json(p: PendingPromptV) -> JsonV {
    JsonV::Object(
        Seq::empty()
            .push(("promptId"@, JsonV::Str(p.prompt_id)))
            .push(("promptKind"@, JsonV::Str(p.kind)))
            .push(("promptStatus"@, JsonV::Str(p.status)))
            .push(("question"@, text_or_null(p.question))),
    )
}

/// A thread as a JSON object.
pub open spec fn snapshot_json(s: BridgeThreadSnapshotV) -> JsonV {
    JsonV::Object(
        Seq::empty()
            .push(("threadId"@, JsonV::Str(s.thread_id)))
            .push(("name"@, text_or_null(s.name)))
            .push(("cwd"@, text_or_null(s.cwd)))
            .push(("updatedAt"@, uint_or_null(s.updated_at)))
            .push(("statusType"@, JsonV::Str(s.status_type)))
            .push(("statusFlags"@, text_array(s.status_flags)))
            .push(("lastTurnStatus"@, text_or_null(s.last_turn_status)))
            .push(("lastPreview"@, text_or_null(s.last_preview)))
            .push(
                ("pendingPrompt"@, match s.pending_prompt {
                    Some(p) => prompt_json(p),
                    None => JsonV::Null,
                }),
            ),
    )
}

/// A prompt as a member of a thread object.
pub fn pending_prompt_json(prompt: &PendingPrompt) -> (r: Json)
    ensures
        r@ == prompt_json(prompt@),
{
    Object::new().with("promptId", Json::Str(prompt.prompt_id.clone())).with(
        "promptKind",
        Json::Str(prompt.kind.clone()),
    ).with("promptStatus", Json::Str(prompt.status.clone())).with(
        "question",
        Json::opt_text(&prompt.question),
    ).done()
}

/// A thread as a JSON object.
pub fn thread_snapshot_json(snapshot: &BridgeThreadSnapshot) -> (r: Json)
    ensures
        r@ == snapshot_json(snapshot@),
{
    let prompt: Json = match &snapshot.pending_prompt {
        Some(p) => pending_prompt_json(p),
        None => Json::Null,
    };
    Object::new().with("threadId", Json::Str(snapshot.thread_id.clone())).with(
        "name",
        Json::opt_text(&snapshot.name),
    ).with("cwd", Json::opt_text(&snapshot.cwd)).with(
        "updatedAt",
        Json::opt_uint(snapshot.updated_at),
    ).with("statusType", Json::Str(snapshot.status_type.clone())).with(
        "statusFlags",
        Json::texts(&snapshot.status_flags),
    ).with("lastTurnStatus", Json::opt_text(&snapshot.last_turn_status)).with(
        "lastPreview",
        Json::opt_text(&snapshot.last_preview),
    ).with("pendingPrompt", prompt).done()
}

/// A time stamp in an event key.
pub open spec fn stamp_text(updated_at: Option<u64>) -> Seq<char> {
    match updated_at {
        Some(u) => decimal(u as nat),
        None => "none"@,
    }
}

/// The event that a snapshot stands for: its type, its key and its payload. A
/// thread with a prompt waits; one without whose last turn is done is complete.
pub open spec fn snapshot_event(s: BridgeThreadSnapshotV) -> Option<
    (Seq<char>, Seq<char>, JsonV),
> {
    match s.pending_prompt {
        Some(p) => Some(
            (
                "thread_waiting"@,
                "thread_waiting:"@ + s.thread_id + ":"@ + p.prompt_id + ":"@ + stamp_text(
                    s.updated_at,
                ),
                JsonV::Object(
                    Seq::empty()
                        .push(("type"@, JsonV::Str("thread_waiting"@)))
                        .push(("threadId"@, JsonV::Str(s.thread_id)))
                        .push(("promptKind"@, JsonV::Str(p.kind)))
                        .push(("updatedAt"@, uint_or_null(s.updated_at)))
                        .push(("lastPreview"@, text_or_null(s.last_preview))),
                ),
            ),
        ),
        None => if s.last_turn_status == Some("completed"@) {
            Some(
                (
                    "thread_completed"@,
                    "thread_completed:"@ + s.thread_id + ":"@ + stamp_text(s.updated_at),
                    JsonV::Object(
                        Seq::empty()
                            .push(("type"@, JsonV::Str("thread_completed"@)))
                            .push(("threadId"@, JsonV::Str(s.thread_id)))
                            .push(("updatedAt"@, uint_or_null(s.updated_at)))
                            .push(("lastPreview"@, text_or_null(s.last_preview))),
                    ),
                ),
            )
        } else {
            None
        },
    }
}

/// A time stamp in an event key.
fn stamp(updated_at: Option<u64>) -> (r: String)
    ensures
        r@ == stamp_text(updated_at),
{
    match updated_at {
        Some(u) => u64_text(u),
        None => "none".to_owned(),
    }
}

/// The event that a snapshot stands for: its type, its key and its payload.
pub fn event_of_snapshot(snapshot: &BridgeThreadSnapshot) -> (r: Option<
    (&'static str, String, Json),
>)
    ensures
        match (r, snapshot_event(snapshot@)) {
            (Some(a), Some(b)) => a.0@ == b.0 && a.1@ == b.1 && a.2@ == b.2,
            (None, None) => true,
            _ => false,
        },
{
    match &snapshot.pending_prompt {
        Some(prompt) => {
            let mut key = cat3("thread_waiting:", snapshot.thread_id.as_str(), ":");
            key.append(prompt.prompt_id.as_str());
            key.append(":");
            key.append(stamp(snapshot.updated_at).as_str());
            let event = Object::new().with("type", Json::text("thread_waiting")).with(
                "threadId",
                Json::Str(snapshot.thread_id.clone()),
            ).with("promptKind", Json::Str(prompt.kind.clone())).with(
                "updatedAt",
                Json::opt_uint(snapshot.updated_at),
            ).with("lastPreview", Json::opt_text(&snapshot.last_preview)).done();
            Some(("thread_waiting", key, event))
        },
        None => {
            if opt_is(&snapshot.last_turn_status, "completed") {
                let mut key = cat3("thread_completed:", snapshot.thread_id.as_str(), ":");
                key.append(stamp(snapshot.updated_at).as_str());
                let event = Object::new().with("type", Json::text("thread_completed")).with(
                    "threadId",
                    Json::Str(snapshot.thread_id.clone()),
                ).with("updatedAt", Json::opt_uint(snapshot.updated_at)).with(
                    "lastPreview",
                    Json::opt_text(&snapshot.last_preview),
                ).done();
                Some(("thread_completed", key, event))
            } else {
                None
            }
        },
    }
}

/// The state once the delivery of an event is logged.
pub open spec fn with_delivery(
    st: BridgeStateV,
    key: Seq<char>,
    thread_id: Seq<char>,
    event_type: Seq<char>,
    now: i64,
) -> BridgeStateV {
    BridgeStateV {
        deliveries: add_new_row(
            st.deliveries,
            key_is(delivery_row_key(), key),
            DeliveryRowV { event_key: key, thread_id, event_type, delivered_at: now },
        ),
        ..st
    }
}

/// An event was handed on before.
pub open spec fn delivered_before(st: BridgeStateV, key: Seq<char>) -> bool {
    has_row(st.deliveries, key_is(delivery_row_key(), key))
}

/// The state once an event is logged.
pub open spec fn with_event(
    st: BridgeStateV,
    key: Seq<char>,
    thread_id: Seq<char>,
    event_type: Seq<char>,
    payload: JsonV,
    now: i64,
) -> BridgeStateV {
    BridgeStateV {
        events: add_new_row(
            st.events,
            key_is(event_row_key(), key),
            EventRowV { event_key: key, thread_id, event_type, observed_at: now, payload },
        ),
        ..st
    }
}

/// Logs the delivery of an event, and tells whether it is the first one.
pub fn record_delivery(
    state: &mut BridgeState,
    event_key: &str,
    thread_id: &str,
    event_type: &str,
    delivered_at: u64,
) -> (r: Result<bool, BridgeError>)
    ensures
        match r {
            Ok(first) => {
                &&& delivered_at <= i64::MAX
                &&& first == !delivered_before(old(state)@, event_key@)
                &&& final(state)@ == with_delivery(
                    old(state)@,
                    event_key@,
                    thread_id@,
                    event_type@,
                    delivered_at as i64,
                )
            },
            Err(e) => delivered_at > i64::MAX && e@ == out_of_range() && final(state)@ == old(
                state,
            )@,
        },
{
    let at: i64 = match to_sql_i64(delivered_at) {
        Ok(v) => v,
        Err(e) => {
            return Err(e);
        },
    };
    let i: usize = find_delivery(&state.deliveries, event_key);
    if i < state.deliveries.len() {
        return Ok(false);
    }
    let ghost before = state.deliveries.deep_view();
    let row = DeliveryRow {
        event_key: event_key.to_owned(),
        thread_id: thread_id.to_owned(),
        event_type: event_type.to_owned(),
        delivered_at: at,
    };
    state.deliveries.push(row);
    assert(state.deliveries.deep_view() =~= before.push(row@));
    Ok(true)
}

/// Logs an event, once.
pub fn record_thread_event(
    state: &mut BridgeState,
    event_key: &str,
    thread_id: &str,
    event_type: &str,
    observed_at: u64,
    payload: &Json,
) -> (r: Result<(), BridgeError>)
    ensures
        match r {
            Ok(_) => observed_at <= i64::MAX && final(state)@ == with_event(
                old(state)@,
                event_key@,
                thread_id@,
                event_type@,
                payload@,
                observed_at as i64,
            ),
            Err(e) => observed_at > i64::MAX && e@ == out_of_range() && final(state)@ == old(
                state,
            )@,
        },
{
    let at: i64 = match to_sql_i64(observed_at) {
        Ok(v) => v,
        Err(e) => {
            return Err(e);
        },
    };
    let i: usize = find_event(&state.events, event_key);
    if i < state.events.len() {
        return Ok(());
    }
    let ghost before = state.events.deep_view();
    let row = EventRow {
        event_key: event_key.to_owned(),
        thread_id: thread_id.to_owned(),
        event_type: event_type.to_owned(),
        observed_at: at,
        payload: payload.clone(),
    };
    state.events.push(row);
    assert(state.events.deep_view() =~= before.push(row@));
    Ok(())
}

/// Away mode is on.
pub open spec fn is_away(st: BridgeStateV) -> bool {
    setting(st, "away"@) == Some("true"@)
}

/// One snapshot: the state after it, and the event that it gives. Events are given
/// while away mode is on, for changes in the away window; with `once`, an event that
/// was handed on before is not given again.
pub open spec fn reconcile_one(
    st: BridgeStateV,
    s: BridgeThreadSnapshotV,
    now: i64,
    away: bool,
    since: Option<u64>,
    once: bool,
) -> (BridgeStateV, Option<JsonV>) {
    let stored = with_snapshot(st, s, now);
    if !away || !in_away_window(since, s.updated_at) {
        (stored, None)
    } else {
        match snapshot_event(s) {
            None => (stored, None),
            Some((kind, key, event)) => {
                let logged = if once {
                    with_delivery(stored, key, s.thread_id, kind, now)
                } else {
                    stored
                };
                if once && delivered_before(stored, key) {
                    (logged, None)
                } else {
                    (with_event(logged, key, s.thread_id, kind, event, now), Some(event))
                }
            },
        }
    }
}

/// The first `n` snapshots: the state after them, and the events that they gave.
pub open spec fn reconcile_upto(
    st: BridgeStateV,
    snapshots: Seq<BridgeThreadSnapshotV>,
    n: nat,
    now: i64,
    away: bool,
    since: Option<u64>,
    once: bool,
) -> (BridgeStateV, Seq<JsonV>)
    decreases n,
{
    if n == 0 || n > snapshots.len() {
        (st, Seq::empty())
    } else {
        let (before, events) = reconcile_upto(
            st,
            snapshots,
            (n - 1) as nat,
            now,
            away,
            since,
            once,
        );
        let (after, event) = reconcile_one(before, snapshots[n - 1], now, away, since, once);
        (after, match event {
            Some(e) => events.push(e),
            None => events,
        })
    }
}

/// The index of the first snapshot whose time stamps do not fit, or the number of snapshots.
pub open spec fn first_misfit(snapshots: Seq<BridgeThreadSnapshotV>, now: u64) -> nat {
    position(snapshots, |s: BridgeThreadSnapshotV| !snapshot_fits(s, now), 0)
}

/// What a synchronisation reports.
pub open spec fn sync_report(
    threads: Seq<JsonV>,
    events: Seq<JsonV>,
    away: bool,
) -> JsonV {
    JsonV::Object(
        Seq::empty()
            .push(("synced"@, JsonV::UInt(threads.len() as u64)))
            .push(("threads"@, JsonV::Array(threads)))
            .push(("events"@, JsonV::Array(events)))
            .push(("away"@, JsonV::Bool(away))),
    )
}

/// What a synchronisation reports.
pub fn sync_report_json(threads: Vec<Json>, events: Vec<Json>, away: bool) -> (r: Json)
    ensures
        r@ == sync_report(threads.deep_view(), events.deep_view(), away),
{
    let count: u64 = threads.len() as u64;
    Object::new().with("synced", Json::UInt(count)).with("threads", Json::array(threads)).with(
        "events",
        Json::array(events),
    ).with("away", Json::Bool(away)).done()
}

/// Stores one snapshot, and gives its event.
fn reconcile_snapshot(
    state: &mut BridgeState,
    snapshot: &BridgeThreadSnapshot,
    now: u64,
    away: bool,
    since: Option<u64>,
    once: bool,
) -> (r: Result<Option<Json>, BridgeError>)
    ensures
        match r {
            Ok(event) => snapshot_fits(snapshot@, now) && (final(state)@, event.deep_view())
                == reconcile_one(old(state)@, snapshot@, now as i64, away, since, once),
            Err(e) => !snapshot_fits(snapshot@, now) && e@ == out_of_range() && final(state)@
                == old(state)@,
        },
{
    match upsert_thread_snapshot(state, snapshot, now) {
        Ok(_) => {},
        Err(e) => {
            return Err(e);
        },
    }
    if !away || !should_emit_for_away_window(since, snapshot.updated_at) {
        return Ok(None);
    }
    match event_of_snapshot(snapshot) {
        None => Ok(None),
        Some((kind, key, event)) => {
            if once {
                let first: bool = match record_delivery(
                    state,
                    key.as_str(),
                    snapshot.thread_id.as_str(),
                    kind,
                    now,
                ) {
                    Ok(v) => v,
                    Err(e) => {
                        return Err(e);
                    },
                };
                if !first {
                    return Ok(None);
                }
            }
            match record_thread_event(
                state,
                key.as_str(),
                snapshot.thread_id.as_str(),
                kind,
                now,
                &event,
            ) {
                Ok(_) => Ok(Some(event)),
                Err(e) => Err(e),
            }
        },
    }
}

/// Stores snapshots, and reports the threads and the events that they gave. A
/// snapshot whose time stamps do not fit ends the run with a failure.
pub fn reconcile_thread_snapshots(
    state: &mut BridgeState,
    now: u64,
    snapshots: &Vec<BridgeThreadSnapshot>,
    record_deliveries: bool,
) -> (r: Result<Json, BridgeError>)
    ensures
        ({
            let st = old(state)@;
            let all = snapshots.deep_view();
            let n = first_misfit(all, now);
            let (after, events) = reconcile_upto(
                st,
                all,
                n,
                now as i64,
                is_away(st),
                setting_number(st, "away_started_at"@),
                record_deliveries,
            );
            &&& final(state)@ == after
            &&& match r {
                Ok(report) => n == all.len() && report@ == sync_report(
                    all.map_values(|s: BridgeThreadSnapshotV| snapshot_json(s)),
                    events,
                    is_away(st),
                ),
                Err(e) => n < all.len() && e@ == out_of_range(),
            }
        }),
{
    let ghost st = state@;
    let ghost all = snapshots.deep_view();
    let away: bool = match get_setting_text(state, "away") {
        Some(value) => same(value.as_str(), "true"),
        None => false,
    };
    let since: Option<u64> = get_setting_number(state, "away_started_at");
    let ghost misfit = |s: BridgeThreadSnapshotV| !snapshot_fits(s, now);
    let mut threads: Vec<Json> = Vec::new();
    let mut events: Vec<Json> = Vec::new();
    let mut i: usize = 0;
    assert(threads.deep_view() =~= all.take(0).map_values(
        |s: BridgeThreadSnapshotV| snapshot_json(s),
    ));
    assert(events.deep_view() =~= Seq::<JsonV>::empty());
    while i < snapshots.len()
        invariant
            i <= snapshots@.len(),
            all == snapshots.deep_view(),
            misfit == (|s: BridgeThreadSnapshotV| !snapshot_fits(s, now)),
            position(all, misfit, 0) == position(all, misfit, i as nat),
            threads.deep_view() == all.take(i as int).map_values(
                |s: BridgeThreadSnapshotV| snapshot_json(s),
            ),
            (state@, events.deep_view()) == reconcile_upto(
                st,
                all,
                i as nat,
                now as i64,
                away,
                since,
                record_deliveries,
            ),
            away == is_away(st),
            since == setting_number(st, "away_started_at"@),
            st == old(state)@,
        decreases snapshots@.len() - i,
    {
        let snapshot = &snapshots[i];
        assert(all[i as int] == snapshot@);
        let ghost shown = threads.deep_view();
        let ghost given = events.deep_view();
        match reconcile_snapshot(state, snapshot, now, away, since, record_deliveries) {
            Ok(event) => {
                threads.push(thread_snapshot_json(snapshot));
                assert(threads.deep_view() =~= shown.push(snapshot_json(snapshot@)));
                assert(all.take(i + 1).map_values(|s: BridgeThreadSnapshotV| snapshot_json(s))
                    =~= all.take(i as int).map_values(
                    |s: BridgeThreadSnapshotV| snapshot_json(s),
                ).push(snapshot_json(snapshot@)));
                match event {
                    Some(e) => {
                        events.push(e);
                        assert(events.deep_view() =~= given.push(e@));
                    },
                    None => {},
                }
            },
            Err(e) => {
                return Err(e);
            },
        }
        i += 1;
    }
    assert(all.take(all.len() as int) =~= all);
    Ok(sync_report_json(threads, events, away))
}

} // verus!
