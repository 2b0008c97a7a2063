//! What holds of the bridge's state whatever is done: every operation keeps its tables in
//! order, a thread is read back as it was stored, and an event is told once.
use vstd::prelude::*;
use vstd::string::*;

use crate::away::{
    away_session, away_state, carried_over, looked_up, pending_hit, present_state, without_pending,
};
use crate::history::{old_inbound_hit, pruned, with_action};
use crate::inbox::{
    by_score, inbox_keeps, inbox_list, inbox_scan, InboxFilterV, limited, project_passes,
    waiting_list, waiting_scan, WaitingThreadV,
};
use crate::json::JsonV;
use crate::order::{payloads, sorted_desc, sorting_is_stable};
use crate::outbox::{outbound_updated, with_outbound};
use crate::routes::{
    callback_updated, with_callback_route, with_command_route, with_inbound, with_message_route,
    with_transport, with_used_command,
};
use crate::settings::{
    setting, setting_after_delete, setting_after_set, setting_number, with_setting, without_setting,
};
use crate::state::{
    BridgeStateV, callback_route_row_key, CallbackRouteRowV, command_route_row_key,
    CommandRouteRowV, delivery_row_key, DeliveryRowV, event_row_key, EventRowV, inbound_row_key,
    InboundRowV, message_route_row_key, MessageRouteRowV, outbound_row_key, OutboundRowV,
    prompt_row_key, thread_row_key, transport_row_key, TransportRowV,
};
use crate::sync::{
    delivered_before, later, prompt_row, reconcile_one, reconcile_upto, snapshot_event, thread_row,
    with_snapshot,
};
use crate::table::{
    add_keeps_keys, drop_keeps_keys, drop_leaves_others, first_row, key_is, lemma_first_push,
    lemma_position, put_keeps_keys, put_leaves_others,
};
use crate::text::decimal;
use crate::thread::{BridgeThreadSnapshotV, in_away_window, inbox_score, InboxItemV};

verus! {

// ---------------------------------------------------------------------------
// Every operation keeps the tables in order
// ---------------------------------------------------------------------------

/// Storing a snapshot keeps the tables in order.
pub proof fn snapshots_keep_order(st: BridgeStateV, s: BridgeThreadSnapshotV, now: i64)
    requires
        st.well_formed(),
    ensures
        with_snapshot(st, s, now).well_formed(),
{
    let after = with_snapshot(st, s, now);
    let hit = key_is(thread_row_key(), s.thread_id);
    let new_updated = match s.updated_at {
        Some(u) => Some(u as i64),
        None => None,
    };
    let updated = match first_row(st.threads, hit) {
        Some(row) => later(row.updated_at, new_updated),
        None => new_updated,
    };
    put_keeps_keys(st.threads, thread_row_key(), thread_row(s, updated, now));
    match s.pending_prompt {
        Some(p) => put_keeps_keys(st.prompts, prompt_row_key(), prompt_row(s.thread_id, p, now)),
        None => drop_keeps_keys(st.prompts, prompt_row_key(), key_is(prompt_row_key(), s.thread_id)),
    }
}

/// Reconciling snapshots keeps the tables in order.
pub proof fn reconciling_keeps_order(
    st: BridgeStateV,
    snapshots: Seq<BridgeThreadSnapshotV>,
    n: nat,
    now: i64,
    away: bool,
    since: Option<u64>,
    once: bool,
)
    requires
        st.well_formed(),
    ensures
        reconcile_upto(st, snapshots, n, now, away, since, once).0.well_formed(),
    decreases n,
{
    if 0 < n <= snapshots.len() {
        reconciling_keeps_order(st, snapshots, (n - 1) as nat, now, away, since, once);
        let before = reconcile_upto(st, snapshots, (n - 1) as nat, now, away, since, once).0;
        let s = snapshots[n - 1];
        snapshots_keep_order(before, s, now);
        let stored = with_snapshot(before, s, now);
        match snapshot_event(s) {
            Some((kind, key, event)) => {
                add_keeps_keys(
                    stored.deliveries,
                    delivery_row_key(),
                    DeliveryRowV {
                        event_key: key,
                        thread_id: s.thread_id,
                        event_type: kind,
                        delivered_at: now,
                    },
                );
                add_keeps_keys(
                    stored.events,
                    event_row_key(),
                    EventRowV {
                        event_key: key,
                        thread_id: s.thread_id,
                        event_type: kind,
                        observed_at: now,
                        payload: event,
                    },
                );
            },
            None => {},
        }
    }
}

/// Remembering and using routes keeps the tables in order.
pub proof fn routes_keep_order(
    st: BridgeStateV,
    message: MessageRouteRowV,
    button: CallbackRouteRowV,
    question: CommandRouteRowV,
    chat_id: Seq<char>,
    message_id: i64,
    now: i64,
)
    requires
        st.well_formed(),
    ensures
        with_message_route(st, message).well_formed(),
        with_callback_route(st, button).well_formed(),
        with_command_route(st, question).well_formed(),
        with_used_command(st, chat_id, message_id, now).well_formed(),
{
    put_keeps_keys(st.message_routes, message_route_row_key(), message);
    put_keeps_keys(st.callback_routes, callback_route_row_key(), button);
    put_keeps_keys(st.command_routes, command_route_row_key(), question);
    let hit = key_is(command_route_row_key(), (chat_id, message_id));
    lemma_position(st.command_routes, hit, 0);
    match first_row(st.command_routes, hit) {
        Some(row) => {
            put_keeps_keys(
                st.command_routes,
                command_route_row_key(),
                CommandRouteRowV { used_at: Some(now), ..row },
            );
        },
        None => {},
    }
}

/// Changing a button that is known keeps the tables in order, where the change keeps its id.
pub proof fn buttons_keep_order(
    st: BridgeStateV,
    callback_id: Seq<char>,
    image: spec_fn(CallbackRouteRowV) -> CallbackRouteRowV,
)
    requires
        st.well_formed(),
        forall|row: CallbackRouteRowV| (#[trigger] image(row)).callback_id == row.callback_id,
    ensures
        callback_updated(st, callback_id, image).well_formed(),
{
    let hit = key_is(callback_route_row_key(), callback_id);
    lemma_position(st.callback_routes, hit, 0);
    match first_row(st.callback_routes, hit) {
        Some(row) => {
            put_keeps_keys(st.callback_routes, callback_route_row_key(), image(row));
        },
        None => {},
    }
}

/// Logging what was handled, delivered or done, and dropping old entries, keeps the tables in
/// order.
pub proof fn logs_keep_order(
    st: BridgeStateV,
    update: InboundRowV,
    delivery: TransportRowV,
    thread_id: Seq<char>,
    action_type: Seq<char>,
    payload: JsonV,
    now: i64,
    cutoff: i64,
)
    requires
        st.well_formed(),
    ensures
        with_inbound(st, update).well_formed(),
        with_transport(st, delivery).well_formed(),
        with_action(st, thread_id, action_type, payload, now).well_formed(),
        pruned(st, cutoff).well_formed(),
{
    add_keeps_keys(st.inbound, inbound_row_key(), update);
    add_keeps_keys(st.transports, transport_row_key(), delivery);
    drop_keeps_keys(st.inbound, inbound_row_key(), old_inbound_hit(cutoff));
}

/// Putting a notification into the outbox and changing one that is there keep the tables in
/// order, where the change keeps its id.
pub proof fn the_outbox_keeps_order(
    st: BridgeStateV,
    row: OutboundRowV,
    event_id: Seq<char>,
    image: spec_fn(OutboundRowV) -> OutboundRowV,
)
    requires
        st.well_formed(),
        forall|r: OutboundRowV| (#[trigger] image(r)).event_id == r.event_id,
    ensures
        with_outbound(st, row).well_formed(),
        outbound_updated(st, event_id, image).well_formed(),
        without_pending(st).well_formed(),
{
    add_keeps_keys(st.outbound, outbound_row_key(), row);
    drop_keeps_keys(st.outbound, outbound_row_key(), pending_hit());
    let hit = key_is(outbound_row_key(), event_id);
    lemma_position(st.outbound, hit, 0);
    match first_row(st.outbound, hit) {
        Some(found) => {
            put_keeps_keys(st.outbound, outbound_row_key(), image(found));
        },
        None => {},
    }
}

/// Switching and looking up away mode keeps the tables in order.
pub proof fn away_mode_keeps_order(st: BridgeStateV, now: u64)
    requires
        st.well_formed(),
    ensures
        away_state(st, now).well_formed(),
        present_state(st).well_formed(),
        looked_up(st).well_formed(),
{
    let text = decimal(now as nat);
    let on = with_setting(st, "away"@, "true"@);
    setting_after_set(st, "away"@, "true"@, "away"@);
    setting_after_delete(on, "away_mode"@, "away"@);
    let moved = without_setting(on, "away_mode"@);
    setting_after_set(moved, "away_started_at"@, text, "away"@);
    setting_after_set(with_setting(moved, "away_started_at"@, text), "away_session_id"@, text, text);
    let off = with_setting(st, "away"@, "false"@);
    setting_after_set(st, "away"@, "false"@, "away"@);
    setting_after_delete(off, "away_mode"@, "away"@);
    let ended = without_pending(without_setting(off, "away_mode"@));
    drop_keeps_keys(st.outbound, outbound_row_key(), pending_hit());
    setting_after_delete(ended, "away_started_at"@, "away"@);
    setting_after_delete(
        without_setting(ended, "away_started_at"@),
        "away_session_id"@,
        "away"@,
    );
    let legacy = setting(st, "away_mode"@);
    if setting(st, "away"@) is None && legacy is Some {
        setting_after_set(st, "away"@, legacy->0, "away"@);
        setting_after_delete(with_setting(st, "away"@, legacy->0), "away_mode"@, "away"@);
    }
    let carried = carried_over(st);
    match away_session(carried, setting_number(st, "away_started_at"@)) {
        Some(id) => setting_after_set(carried, "away_session_id"@, id, id),
        None => {},
    }
}

// ---------------------------------------------------------------------------
// A thread is read back as it was stored
// ---------------------------------------------------------------------------

/// A stored thread is read back as its last snapshot, except that the time of its last
/// change never goes back; its prompt is the one of the snapshot, and other threads stay as
/// they were.
pub proof fn threads_are_read_back(
    st: BridgeStateV,
    s: BridgeThreadSnapshotV,
    now: i64,
    other: Seq<char>,
)
    requires
        st.well_formed(),
        other != s.thread_id,
    ensures
        ({
            let after = with_snapshot(st, s, now);
            let before_row = first_row(st.threads, key_is(thread_row_key(), s.thread_id));
            let row = first_row(after.threads, key_is(thread_row_key(), s.thread_id));
            &&& row is Some
            &&& row->0 == thread_row(s, row->0.updated_at, now)
            &&& before_row matches Some(b) ==> (b.updated_at matches Some(u) ==> (
            row->0.updated_at matches Some(v) && v >= u))
            &&& s.updated_at matches Some(u) ==> row->0.updated_at is Some
                && row->0.updated_at->0 >= u as i64
            &&& first_row(after.prompts, key_is(prompt_row_key(), s.thread_id)) == (
            match s.pending_prompt {
                Some(p) => Some(prompt_row(s.thread_id, p, now)),
                None => None,
            })
            &&& first_row(after.threads, key_is(thread_row_key(), other)) == first_row(
                st.threads,
                key_is(thread_row_key(), other),
            )
            &&& first_row(after.prompts, key_is(prompt_row_key(), other)) == first_row(
                st.prompts,
                key_is(prompt_row_key(), other),
            )
        }),
{
    let hit = key_is(thread_row_key(), s.thread_id);
    let prompt_hit = key_is(prompt_row_key(), s.thread_id);
    let new_updated = match s.updated_at {
        Some(u) => Some(u as i64),
        None => None,
    };
    let updated = match first_row(st.threads, hit) {
        Some(row) => later(row.updated_at, new_updated),
        None => new_updated,
    };
    let row = thread_row(s, updated, now);
    put_keeps_keys(st.threads, thread_row_key(), row);
    put_leaves_others(st.threads, thread_row_key(), row, other);
    match s.pending_prompt {
        Some(p) => {
            let entry = prompt_row(s.thread_id, p, now);
            put_keeps_keys(st.prompts, prompt_row_key(), entry);
            put_leaves_others(st.prompts, prompt_row_key(), entry, other);
        },
        None => {
            drop_keeps_keys(st.prompts, prompt_row_key(), prompt_hit);
            drop_leaves_others(st.prompts, prompt_hit, key_is(prompt_row_key(), other));
        },
    }
}

// ---------------------------------------------------------------------------
// Lists are ranked, filtered and limited
// ---------------------------------------------------------------------------

/// The rows of the inbox pass its filters, the most urgent come first, and no more come than
/// the limit allows.
pub proof fn inbox_lists_are_ranked(
    st: BridgeStateV,
    now: u64,
    f: InboxFilterV,
    limit: u64,
    i: int,
    j: int,
)
    requires
        inbox_list(st, now, f, limit) is Ok,
        0 <= i <= j < inbox_list(st, now, f, limit)->Ok_0.items.len(),
    ensures
        ({
            let items = inbox_list(st, now, f, limit)->Ok_0.items;
            &&& limit > 0 ==> items.len() <= limit
            &&& inbox_keeps(f)(items[i])
            &&& inbox_keeps(f)(items[j])
            &&& inbox_score(items[i].priority, items[i].updated_at) >= inbox_score(
                items[j].priority,
                items[j].updated_at,
            )
        }),
{
    let rows = inbox_scan(st, now, st.threads.len())->0;
    let kept = payloads(sorted_desc(rows)).filter(inbox_keeps(f));
    let keyed = by_score(kept);
    let ranked = sorted_desc(keyed);
    sorting_is_stable(keyed);
    lemma_ranked_member(rows, f, i);
    lemma_ranked_member(rows, f, j);
    assert(ranked[i].0 >= ranked[j].0);
}

/// A row of the ranked inbox is one that passes the filters, under its own rank.
proof fn lemma_ranked_member(
    rows: Seq<(i128, InboxItemV)>,
    f: InboxFilterV,
    i: int,
)
    requires
        0 <= i < sorted_desc(
            by_score(payloads(sorted_desc(rows)).filter(inbox_keeps(f))),
        ).len(),
    ensures
        ({
            let ranked = sorted_desc(
                by_score(payloads(sorted_desc(rows)).filter(inbox_keeps(f))),
            );
            &&& inbox_keeps(f)(ranked[i].1)
            &&& ranked[i].0 == inbox_score(ranked[i].1.priority, ranked[i].1.updated_at) as i128
        }),
{
    broadcast use vstd::seq_lib::group_filter_ensures;
    broadcast use vstd::seq_lib::group_to_multiset_ensures;

    let kept = payloads(sorted_desc(rows)).filter(inbox_keeps(f));
    let keyed = by_score(kept);
    let ranked = sorted_desc(keyed);
    sorting_is_stable(keyed);
    assert(ranked.contains(ranked[i]));
    assert(ranked.to_multiset().count(ranked[i]) > 0);
    assert(keyed.contains(ranked[i]));
    let k = choose|k: int| 0 <= k < keyed.len() && keyed[k] == ranked[i];
    assert(kept.contains(kept[k]));
}

/// The last change of a waiting thread, or zero.
pub open spec fn changed_at(t: WaitingThreadV) -> int {
    match t.updated_at {
        Some(at) => at as int,
        None => 0,
    }
}

/// The threads are listed from the last changed one on.
pub open spec fn last_changed_first(threads: Seq<WaitingThreadV>) -> bool {
    forall|i: int, j: int|
        0 <= i <= j < threads.len() ==> changed_at(#[trigger] threads[i]) >= changed_at(
            #[trigger] threads[j],
        )
}

/// Leaving threads out keeps their order.
proof fn lemma_filter_keeps_ranks(
    threads: Seq<WaitingThreadV>,
    keep: spec_fn(WaitingThreadV) -> bool,
)
    requires
        last_changed_first(threads),
    ensures
        last_changed_first(threads.filter(keep)),
    decreases threads.len(),
{
    broadcast use vstd::seq_lib::group_filter_ensures;

    reveal(Seq::filter);
    if threads.len() > 0 {
        let front = threads.drop_last();
        assert forall|i: int, j: int| 0 <= i <= j < front.len() implies changed_at(
            #[trigger] front[i],
        ) >= changed_at(#[trigger] front[j]) by {
            assert(front[i] == threads[i] && front[j] == threads[j]);
        }
        lemma_filter_keeps_ranks(front, keep);
        let kept = front.filter(keep);
        if keep(threads.last()) {
            assert forall|i: int| 0 <= i < kept.len() implies changed_at(#[trigger] kept[i])
                >= changed_at(threads.last()) by {
                front.lemma_filter_contains_rev(keep, kept[i]);
                let k = choose|k: int| 0 <= k < front.len() && front[k] == kept[i];
                assert(threads[k] == kept[i]);
            }
        }
    }
}

/// A scanned prompt is keyed by the last change of its thread.
proof fn lemma_waiting_keys(st: BridgeStateV, n: nat)
    requires
        waiting_scan(st, n) is Some,
    ensures
        forall|i: int|
            0 <= i < waiting_scan(st, n)->0.len() ==> (#[trigger] waiting_scan(st, n)->0[i]).0
                == changed_at(waiting_scan(st, n)->0[i].1),
    decreases n,
{
    if 0 < n <= st.prompts.len() {
        lemma_waiting_keys(st, (n - 1) as nat);
    }
}

/// Waiting threads are listed from the last changed one on, those of the wanted project
/// alone, and no more than the limit allows.
pub proof fn waiting_lists_are_ranked(
    st: BridgeStateV,
    project: Option<Seq<char>>,
    limit: u64,
    i: int,
)
    requires
        waiting_list(st, project, limit) is Ok,
        0 <= i < waiting_list(st, project, limit)->Ok_0.threads.len(),
    ensures
        last_changed_first(waiting_list(st, project, limit)->Ok_0.threads),
        limit > 0 ==> waiting_list(st, project, limit)->Ok_0.threads.len() <= limit,
        project_passes(project, waiting_list(st, project, limit)->Ok_0.threads[i].cwd),
{
    broadcast use vstd::seq_lib::group_filter_ensures;
    broadcast use vstd::seq_lib::group_to_multiset_ensures;

    let rows = waiting_scan(st, st.prompts.len())->0;
    let sorted = sorted_desc(rows);
    let all = payloads(sorted);
    let keep = |t: WaitingThreadV| project_passes(project, t.cwd);
    lemma_waiting_keys(st, st.prompts.len());
    sorting_is_stable(rows);
    assert forall|k: int| 0 <= k < sorted.len() implies (#[trigger] sorted[k]).0 == changed_at(
        sorted[k].1,
    ) by {
        assert(sorted.to_multiset().count(sorted[k]) > 0);
        assert(rows.contains(sorted[k]));
        let m = choose|m: int| 0 <= m < rows.len() && rows[m] == sorted[k];
        assert(rows[m].0 == changed_at(rows[m].1));
    }
    assert forall|a: int, b: int| 0 <= a <= b < all.len() implies changed_at(#[trigger] all[a])
        >= changed_at(#[trigger] all[b]) by {
        assert(sorted[a].0 >= sorted[b].0);
    }
    lemma_filter_keeps_ranks(all, keep);
    let kept = all.filter(keep);
    let threads = limited(kept, limit);
    assert(threads[i] == kept[i]);
    assert(kept.contains(kept[i]));
    assert(keep(kept[i]));
}

// ---------------------------------------------------------------------------
// An event is told once, and only while the user is away
// ---------------------------------------------------------------------------

/// The key of the event of a snapshot.
pub open spec fn told_key(s: BridgeThreadSnapshotV) -> Seq<char> {
    let (kind, key, event) = snapshot_event(s)->0;
    key
}

/// The event of a snapshot.
pub open spec fn told_event(s: BridgeThreadSnapshotV) -> JsonV {
    let (kind, key, event) = snapshot_event(s)->0;
    event
}

/// While the user is present no event is told.
pub proof fn presence_is_silent(
    st: BridgeStateV,
    snapshots: Seq<BridgeThreadSnapshotV>,
    n: nat,
    now: i64,
    since: Option<u64>,
    once: bool,
)
    ensures
        reconcile_upto(st, snapshots, n, now, false, since, once).1 == Seq::<JsonV>::empty(),
    decreases n,
{
    if 0 < n <= snapshots.len() {
        presence_is_silent(st, snapshots, (n - 1) as nat, now, since, once);
    }
}

/// Every event that is told is that of a snapshot which changed since the user went away.
pub proof fn events_come_from_the_away_window(
    st: BridgeStateV,
    snapshots: Seq<BridgeThreadSnapshotV>,
    n: nat,
    now: i64,
    away: bool,
    since: Option<u64>,
    once: bool,
    j: int,
)
    requires
        0 <= j < reconcile_upto(st, snapshots, n, now, away, since, once).1.len(),
    ensures
        away,
        exists|i: int|
            0 <= i < n && i < snapshots.len() && in_away_window(
                since,
                (#[trigger] snapshots[i]).updated_at,
            ) && snapshot_event(snapshots[i]) is Some && told_event(snapshots[i])
                == reconcile_upto(st, snapshots, n, now, away, since, once).1[j],
    decreases n,
{
    let m = (n - 1) as nat;
    let (before, events) = reconcile_upto(st, snapshots, m, now, away, since, once);
    let all = reconcile_upto(st, snapshots, n, now, away, since, once).1;
    if j < events.len() {
        events_come_from_the_away_window(st, snapshots, m, now, away, since, once, j);
        assert(all[j] == events[j]);
        let i = choose|i: int|
            0 <= i < m && i < snapshots.len() && in_away_window(
                since,
                (#[trigger] snapshots[i]).updated_at,
            ) && snapshot_event(snapshots[i]) is Some && told_event(snapshots[i])
                == events[j];
        assert(snapshots[i] == snapshots[i]);
    } else {
        let s = snapshots[n - 1];
        assert(all[j] == told_event(s));
    }
}

/// An event that was told is logged as told, and stays so.
proof fn lemma_told(
    st: BridgeStateV,
    s: BridgeThreadSnapshotV,
    now: i64,
    since: Option<u64>,
    key: Seq<char>,
)
    ensures
        delivered_before(st, key) ==> delivered_before(
            reconcile_one(st, s, now, true, since, true).0,
            key,
        ),
        in_away_window(since, s.updated_at) && snapshot_event(s) is Some && told_key(s)
            == key ==> delivered_before(reconcile_one(st, s, now, true, since, true).0, key),
{
    let hit = key_is(delivery_row_key(), key);
    match snapshot_event(s) {
        Some((kind, told, _)) => {
            let row = DeliveryRowV {
                event_key: told,
                thread_id: s.thread_id,
                event_type: kind,
                delivered_at: now,
            };
            lemma_first_push(st.deliveries, row, hit);
            lemma_position(st.deliveries, hit, 0);
        },
        None => {},
    }
}

/// After a run, the events of its snapshots are logged as told.
proof fn lemma_all_told(
    st: BridgeStateV,
    snapshots: Seq<BridgeThreadSnapshotV>,
    n: nat,
    now: i64,
    since: Option<u64>,
    i: int,
)
    requires
        0 <= i < n <= snapshots.len(),
        in_away_window(since, snapshots[i].updated_at),
        snapshot_event(snapshots[i]) is Some,
    ensures
        delivered_before(
            reconcile_upto(st, snapshots, n, now, true, since, true).0,
            told_key(snapshots[i]),
        ),
    decreases n,
{
    let before = reconcile_upto(st, snapshots, (n - 1) as nat, now, true, since, true).0;
    let key = told_key(snapshots[i]);
    if i < n - 1 {
        lemma_all_told(st, snapshots, (n - 1) as nat, now, since, i);
    }
    lemma_told(before, snapshots[n - 1], now, since, key);
}

/// A run over snapshots whose events were all told tells nothing, and they stay told.
proof fn lemma_nothing_new(
    st: BridgeStateV,
    snapshots: Seq<BridgeThreadSnapshotV>,
    n: nat,
    now: i64,
    since: Option<u64>,
    all: nat,
)
    requires
        n <= all <= snapshots.len(),
        forall|i: int|
            0 <= i < all && in_away_window(since, (#[trigger] snapshots[i]).updated_at)
                && snapshot_event(snapshots[i]) is Some ==> delivered_before(
                st,
                told_key(snapshots[i]),
            ),
    ensures
        reconcile_upto(st, snapshots, n, now, true, since, true).1 == Seq::<JsonV>::empty(),
        forall|i: int|
            0 <= i < all && in_away_window(since, (#[trigger] snapshots[i]).updated_at)
                && snapshot_event(snapshots[i]) is Some ==> delivered_before(
                reconcile_upto(st, snapshots, n, now, true, since, true).0,
                told_key(snapshots[i]),
            ),
    decreases n,
{
    if n > 0 {
        lemma_nothing_new(st, snapshots, (n - 1) as nat, now, since, all);
        let before = reconcile_upto(st, snapshots, (n - 1) as nat, now, true, since, true).0;
        let s = snapshots[n - 1];
        assert(with_snapshot(before, s, now).deliveries == before.deliveries);
        assert forall|i: int|
            0 <= i < all && in_away_window(since, (#[trigger] snapshots[i]).updated_at)
                && snapshot_event(snapshots[i]) is Some implies delivered_before(
            reconcile_upto(st, snapshots, n, now, true, since, true).0,
            told_key(snapshots[i]),
        ) by {
            lemma_told(before, s, now, since, told_key(snapshots[i]));
        }
    }
}

/// Where told events are logged, seeing the same threads again, at whatever time, tells
/// nothing new.
pub proof fn events_are_told_once(
    st: BridgeStateV,
    snapshots: Seq<BridgeThreadSnapshotV>,
    first: i64,
    again: i64,
    since: Option<u64>,
)
    ensures
        ({
            let n = snapshots.len();
            let after = reconcile_upto(st, snapshots, n, first, true, since, true).0;
            reconcile_upto(after, snapshots, n, again, true, since, true).1 == Seq::<
                JsonV,
            >::empty()
        }),
{
    let n = snapshots.len();
    let after = reconcile_upto(st, snapshots, n, first, true, since, true).0;
    assert forall|i: int|
        0 <= i < n && in_away_window(since, (#[trigger] snapshots[i]).updated_at)
            && snapshot_event(snapshots[i]) is Some implies delivered_before(
        after,
        told_key(snapshots[i]),
    ) by {
        lemma_all_told(st, snapshots, n, first, since, i);
    }
    lemma_nothing_new(after, snapshots, n, again, since, n);
}

} // verus!
