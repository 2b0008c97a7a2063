//! What holds of the stored tables: the outbox, the routes, the history, the projects and away
//! mode.
use vstd::prelude::*;
use vstd::string::*;
use vstd::utf8::*;

use crate::away::{
    away_marker, away_report, away_session, carried_over, pending_count, pending_hit,
    present_report, present_state,
};
use crate::config::{project_json, projects_json, RegisteredProjectV};
use crate::discord_commands::project_hit;
use crate::error::{BridgeErrorV, failure};
use crate::history::{
    action_json, history, HistoryActionV, log_cutoff, newest_actions, old_action_hit,
    old_inbound_hit, pruned, with_action,
};
use crate::inbox::ObservedWorkspaceV;
use crate::json::{
    empty_objects_have_no_members, JsonV, member, pushed_members_are_found, text_member,
    uint_or_null,
};
use crate::order::{insert_text, sorted_desc, sorted_text, sorting_is_stable};
use crate::outbox::{
    at_most, by_age, delivered_row, delivery_id, DeliveryReply, discriminator, due_event,
    due_events, due_rows, DueEventV, fresh_row, hex, in_outbox, is_due, next_try, retry_delay,
    run_upto, sanitized, settled, sha256_digest, tries_in_time,
};
use crate::projects::{
    goes_by, ids_of, import_report, imports, imports_upto, list_report, name_hit, new_project,
    other_projects, project_report, project_token, token_upto, workspace_json, workspaces_json,
};
use crate::routes::{
    callback_of, callback_row, callback_text, command_route, inbound_row, route_kind_of,
    route_kind_text, TelegramCallbackAction, TelegramCallbackRouteV, TelegramCommandRouteKind,
    TelegramInboundLogContextV, with_callback_route, with_command_route,
};
use crate::settings::{setting, setting_after_delete, setting_after_set, with_setting};
use crate::state::{
    ActionRowV, BridgeStateV, callback_route_row_key, command_route_row_key, CommandRouteRowV,
    outbound_row_key, OutboundRowV,
};
use crate::table::{
    first_row, key_is, lemma_filter_parts, lemma_filter_step, lemma_position, lemma_position_is,
    lemma_without_misses, position, put_keeps_keys, put_leaves_others, without,
};
use crate::text::{ascii_lowered, decimal, text_before};
use crate::thread::project_label;
use crate::writing::json_text;

verus! {

// ---------------------------------------------------------------------------
// The outbox
// ---------------------------------------------------------------------------

/// An event is queued as what it is: with its type and its thread, pending, untried, and due
/// from the moment on at which it was queued.
pub proof fn events_are_queued_as_they_are(event: JsonV, thread: JsonV, now: i64, later: i64)
    ensures
        ({
            let row = fresh_row(event, now);
            &&& row.payload == Some(event)
            &&& row.status == "pending"@
            &&& row.attempts == 0
            &&& row.created_at == now
            &&& row.last_error is None && row.delivered_at is None
            &&& text_member(event, "type"@) is Some ==> row.event_type == text_member(
                event,
                "type"@,
            )->0
            &&& text_member(event, "type"@) is None ==> row.event_type == "codex_event"@
            &&& text_member(event, "threadId"@) is Some ==> row.thread_id == text_member(
                event,
                "threadId"@,
            )
            &&& text_member(event, "threadId"@) is None && member(event, "thread"@) == Some(thread)
                && text_member(thread, "threadId"@) is Some ==> row.thread_id == text_member(
                thread,
                "threadId"@,
            )
            &&& text_member(event, "threadId"@) is None && member(event, "thread"@) == Some(thread)
                && text_member(thread, "threadId"@) is None ==> row.thread_id == text_member(
                thread,
                "id"@,
            )
            &&& is_due(row, later) <==> later >= now
        }),
{
    reveal_strlit("pending");
    reveal_strlit("delivered");
    assert("pending"@.len() == 7);
    assert("delivered"@.len() == 9);
}

/// The name of a delivery is made of the type, the thread and the key of its event.
pub proof fn deliveries_are_named_by_their_event(
    event: JsonV,
    kind: Seq<char>,
    thread: Seq<char>,
    key: Seq<char>,
)
    requires
        text_member(event, "type"@) == Some(kind),
        text_member(event, "threadId"@) == Some(thread),
        text_member(event, "eventKey"@) == Some(key),
    ensures
        delivery_id(event) == "codex-"@ + sanitized(kind) + "-"@ + sanitized(thread) + "-"@
            + sanitized(key),
{
    reveal_strlit("codex:");
    reveal_strlit(":");
    reveal_strlit("codex-");
    reveal_strlit("-");
    assert(delivery_id(event) =~= "codex-"@ + sanitized(kind) + "-"@ + sanitized(thread) + "-"@
        + sanitized(key));
}

/// A name keeps the letters, the digits and the three signs that it may hold, and writes a
/// dash for any other character.
pub proof fn names_keep_what_they_may_hold(s: Seq<char>, i: int)
    requires
        0 <= i < s.len(),
    ensures
        ('a' <= s[i] && s[i] <= 'z') || ('A' <= s[i] && s[i] <= 'Z') || ('0' <= s[i] && s[i] <= '9')
            || s[i] == '-' || s[i] == '_' || s[i] == '.' ==> sanitized(s)[i] == s[i],
        s[i] == ':' || s[i] == '/' || s[i] == ' ' ==> sanitized(s)[i] == '-',
{
}

/// An event without a key is told from others by its time, and one without a time by what is
/// written in it.
pub proof fn events_without_a_key_are_told_by_their_time(event: JsonV, at: u64, seen: u64)
    requires
        text_member(event, "eventKey"@) is None,
    ensures
        member(event, "updatedAt"@) == Some(JsonV::UInt(at)) ==> discriminator(event) == decimal(
            at as nat,
        ),
        member(event, "updatedAt"@) is None && member(event, "observedAt"@) == Some(
            JsonV::UInt(seen),
        ) ==> discriminator(event) == decimal(seen as nat),
        member(event, "updatedAt"@) is None && member(event, "observedAt"@) is None
            ==> discriminator(event) == hex(sha256_digest(encode_utf8(json_text(event)))),
{
}

proof fn lemma_insert_text_members<T>(
    s: Seq<(Seq<char>, T)>,
    x: (Seq<char>, T),
    y: (Seq<char>, T),
)
    ensures
        insert_text(s, x).contains(y) <==> s.contains(y) || y == x,
    decreases s.len(),
{
    if s.len() == 0 || !text_before(x.0, s.last().0) {
        let out = s.push(x);
        if s.contains(y) {
            let i = choose|i: int| 0 <= i < s.len() && s[i] == y;
            assert(out[i] == y);
        }
        if y == x {
            assert(out[s.len() as int] == y);
        }
    } else {
        let rest = s.drop_last();
        let inner = insert_text(rest, x);
        let out = inner.push(s.last());
        lemma_insert_text_members(rest, x, y);
        if s.contains(y) {
            let i = choose|i: int| 0 <= i < s.len() && s[i] == y;
            if i < s.len() - 1 {
                assert(rest[i] == y);
                assert(rest.contains(y));
            } else {
                assert(out[inner.len() as int] == y);
            }
        }
        if inner.contains(y) {
            let i = choose|i: int| 0 <= i < inner.len() && inner[i] == y;
            assert(out[i] == y);
        }
        if out.contains(y) {
            let i = choose|i: int| 0 <= i < out.len() && out[i] == y;
            if i < inner.len() {
                assert(inner[i] == y);
            } else {
                assert(s[s.len() - 1] == y);
            }
        }
        if rest.contains(y) {
            let i = choose|i: int| 0 <= i < rest.len() && rest[i] == y;
            assert(s[i] == y);
        }
    }
}

proof fn lemma_sorted_text_members<T>(s: Seq<(Seq<char>, T)>, y: (Seq<char>, T))
    ensures
        sorted_text(s).contains(y) <==> s.contains(y),
    decreases s.len(),
{
    if s.len() > 0 {
        let rest = s.drop_last();
        lemma_sorted_text_members(rest, y);
        lemma_insert_text_members(sorted_text(rest), s.last(), y);
        if s.contains(y) {
            let i = choose|i: int| 0 <= i < s.len() && s[i] == y;
            if i < s.len() - 1 {
                assert(rest[i] == y);
            }
        }
        if rest.contains(y) {
            let i = choose|i: int| 0 <= i < rest.len() && rest[i] == y;
            assert(s[i] == y);
        }
        if y == s.last() {
            assert(s[s.len() - 1] == y);
        }
    }
}

/// What stands for a row among those that are due.
spec fn due_entry(row: OutboundRowV) -> (Seq<char>, (i128, DueEventV)) {
    (row.event_id, ((-(row.created_at as int)) as i128, due_event(row)))
}

proof fn lemma_due_rows(rows: Seq<OutboundRowV>, now: i64, n: nat, i: int) -> (k: int)
    requires
        n <= rows.len(),
        0 <= i < due_rows(rows, now, n).len(),
    ensures
        0 <= k < n,
        is_due(rows[k], now),
        due_rows(rows, now, n)[i] == due_entry(rows[k]),
    decreases n,
{
    let before = due_rows(rows, now, (n - 1) as nat);
    if i < before.len() {
        lemma_due_rows(rows, now, (n - 1) as nat, i)
    } else {
        n - 1
    }
}

proof fn lemma_due_row_is_there(rows: Seq<OutboundRowV>, now: i64, n: nat, k: int) -> (i: int)
    requires
        n <= rows.len(),
        0 <= k < n,
        is_due(rows[k], now),
    ensures
        0 <= i < due_rows(rows, now, n).len(),
        due_rows(rows, now, n)[i] == due_entry(rows[k]),
    decreases n,
{
    let before = due_rows(rows, now, (n - 1) as nat);
    if k == n - 1 {
        before.len() as int
    } else {
        lemma_due_row_is_there(rows, now, (n - 1) as nat, k)
    }
}

spec fn due_sorted(st: BridgeStateV, now: i64) -> Seq<(i128, DueEventV)> {
    sorted_desc(by_age(sorted_text(due_rows(st.outbound, now, st.outbound.len()))))
}

proof fn lemma_due_source(st: BridgeStateV, now: i64, i: int) -> (k: int)
    requires
        0 <= i < due_sorted(st, now).len(),
    ensures
        0 <= k < st.outbound.len(),
        is_due(st.outbound[k], now),
        due_sorted(st, now)[i] == due_entry(st.outbound[k]).1,
{
    broadcast use vstd::seq_lib::group_to_multiset_ensures;

    let rows = due_rows(st.outbound, now, st.outbound.len());
    let named = sorted_text(rows);
    let aged = by_age(named);
    let out = due_sorted(st, now);
    sorting_is_stable(aged);
    assert(out.to_multiset().count(out[i]) > 0);
    assert(aged.contains(out[i]));
    let j = choose|j: int| 0 <= j < aged.len() && aged[j] == out[i];
    assert(named.contains(named[j]));
    lemma_sorted_text_members(rows, named[j]);
    let m = choose|m: int| 0 <= m < rows.len() && rows[m] == named[j];
    lemma_due_rows(st.outbound, now, st.outbound.len(), m)
}

proof fn lemma_due_target(st: BridgeStateV, now: i64, k: int) -> (i: int)
    requires
        0 <= k < st.outbound.len(),
        is_due(st.outbound[k], now),
    ensures
        0 <= i < due_sorted(st, now).len(),
        due_sorted(st, now)[i] == due_entry(st.outbound[k]).1,
{
    broadcast use vstd::seq_lib::group_to_multiset_ensures;

    let rows = due_rows(st.outbound, now, st.outbound.len());
    let named = sorted_text(rows);
    let aged = by_age(named);
    let out = due_sorted(st, now);
    sorting_is_stable(aged);
    let m = lemma_due_row_is_there(st.outbound, now, st.outbound.len(), k);
    assert(rows.contains(rows[m]));
    lemma_sorted_text_members(rows, rows[m]);
    let j = choose|j: int| 0 <= j < named.len() && named[j] == rows[m];
    assert(aged[j] == rows[m].1);
    assert(aged.contains(rows[m].1));
    assert(aged.to_multiset().count(rows[m].1) > 0);
    assert(out.contains(rows[m].1));
    choose|i: int| 0 <= i < out.len() && out[i] == rows[m].1
}

/// Every stored event that is not delivered and whose time has come is due, with what it
/// says and how often it was tried.
pub proof fn what_is_not_delivered_is_due(st: BridgeStateV, now: i64, k: int)
    requires
        0 <= k < st.outbound.len(),
        st.outbound[k].status != "delivered"@,
        st.outbound[k].next_attempt_at <= now,
    ensures
        exists|i: int|
            0 <= i < due_events(st, now).len() && {
                let e = #[trigger] due_events(st, now)[i];
                &&& e.event_id == st.outbound[k].event_id
                &&& e.payload == st.outbound[k].payload
                &&& e.attempts == st.outbound[k].attempts
            },
{
    let i = lemma_due_target(st, now, k);
    assert(due_events(st, now)[i].event_id == st.outbound[k].event_id);
}

/// What is due is stored, not delivered, and its time has come; and what was queued earlier
/// goes out earlier.
pub proof fn what_is_due_goes_in_order(st: BridgeStateV, now: i64, i: int, j: int) -> (rows: (
    int,
    int,
))
    requires
        0 <= i <= j < due_events(st, now).len(),
    ensures
        0 <= rows.0 < st.outbound.len() && 0 <= rows.1 < st.outbound.len(),
        due_events(st, now)[i].event_id == st.outbound[rows.0].event_id,
        due_events(st, now)[j].event_id == st.outbound[rows.1].event_id,
        st.outbound[rows.0].status != "delivered"@,
        st.outbound[rows.0].next_attempt_at <= now,
        st.outbound[rows.0].created_at <= st.outbound[rows.1].created_at,
{
    let a = lemma_due_source(st, now, i);
    let b = lemma_due_source(st, now, j);
    sorting_is_stable(by_age(sorted_text(due_rows(st.outbound, now, st.outbound.len()))));
    assert(due_sorted(st, now)[i].0 >= due_sorted(st, now)[j].0);
    (a, b)
}

/// A limit takes the first of what is due, and no more than it says.
pub proof fn limits_take_the_first<T>(s: Seq<T>, limit: nat, i: int)
    ensures
        at_most(s, limit).len() == if s.len() < limit {
            s.len()
        } else {
            limit
        },
        0 <= i < at_most(s, limit).len() ==> at_most(s, limit)[i] == s[i],
{
}

/// A delivered event is marked as delivered, counted as tried once more, never due again; the
/// other events stay as they were.
pub proof fn delivered_events_are_done_with(
    st: BridgeStateV,
    event_id: Seq<char>,
    attempts: i64,
    now: u64,
    other: Seq<char>,
    later: i64,
)
    requires
        st.well_formed(),
        in_outbox(st, event_id),
        other != event_id,
        now <= i64::MAX,
    ensures
        settled(st, event_id, attempts, None, now) is Ok,
        ({
            let before = first_row(st.outbound, key_is(outbound_row_key(), event_id))->0;
            let after = settled(st, event_id, attempts, None, now)->Ok_0;
            let row = first_row(after.outbound, key_is(outbound_row_key(), event_id));
            &&& row is Some
            &&& row->0.event_id == event_id
            &&& row->0.status == "delivered"@
            &&& row->0.delivered_at == Some(now as i64)
            &&& row->0.last_error is None
            &&& before.attempts < i64::MAX ==> row->0.attempts == before.attempts + 1
            &&& row->0.payload == before.payload
            &&& !is_due(row->0, later)
            &&& first_row(after.outbound, key_is(outbound_row_key(), other)) == first_row(
                st.outbound,
                key_is(outbound_row_key(), other),
            )
            &&& after.settings == st.settings && after.threads == st.threads && after.prompts
                == st.prompts
        }),
{
    let hit = key_is(outbound_row_key(), event_id);
    lemma_position(st.outbound, hit, 0);
    let row = st.outbound[position(st.outbound, hit, 0) as int];
    assert(row.event_id == event_id);
    let done = delivered_row(row, now as i64);
    put_keeps_keys(st.outbound, outbound_row_key(), done);
    put_leaves_others(st.outbound, outbound_row_key(), done, other);
}

/// A run that goes through tries every event once, and counts the successes and the failures;
/// its last step settles the last event by the reply to it.
pub proof fn runs_count_what_they_try(
    st: BridgeStateV,
    due: Seq<DueEventV>,
    replies: Seq<DeliveryReply>,
    now: u64,
    n: nat,
)
    requires
        n <= due.len(),
        n <= replies.len(),
        n <= usize::MAX,
        run_upto(st, due, replies, now, n).2 is None,
    ensures
        run_upto(st, due, replies, now, n).1.attempted == n,
        run_upto(st, due, replies, now, n).1.delivered == replies.take(n as int).filter(
            |r: DeliveryReply| r is Delivered,
        ).len(),
        run_upto(st, due, replies, now, n).1.delivered + run_upto(
            st,
            due,
            replies,
            now,
            n,
        ).1.failed == n,
        n > 0 ==> settled(
            run_upto(st, due, replies, now, (n - 1) as nat).0,
            due[n - 1].event_id,
            due[n - 1].attempts,
            match replies[n - 1] {
                DeliveryReply::Delivered => None,
                DeliveryReply::Failed(message) => Some(message@),
            },
            now,
        ) == Ok::<BridgeStateV, BridgeErrorV>(run_upto(st, due, replies, now, n).0),
    decreases n,
{
    let good = |r: DeliveryReply| r is Delivered;
    if n > 0 {
        runs_count_what_they_try(st, due, replies, now, (n - 1) as nat);
        lemma_filter_step(replies, good, n - 1);
    } else {
        assert(replies.take(0).filter(good).len() == 0) by {
            reveal(Seq::filter);
        }
    }
}

/// A run stops at an event that cannot be read, and says which.
pub proof fn unreadable_events_stop_a_run(
    st: BridgeStateV,
    due: Seq<DueEventV>,
    replies: Seq<DeliveryReply>,
    now: u64,
    n: nat,
)
    requires
        0 < n <= due.len(),
        n <= replies.len(),
        run_upto(st, due, replies, now, (n - 1) as nat).2 is None,
        due[n - 1].payload is None,
    ensures
        run_upto(st, due, replies, now, n).0 == run_upto(st, due, replies, now, (n - 1) as nat).0,
        run_upto(st, due, replies, now, n).2 == Some(
            failure("outbound event "@ + due[n - 1].event_id + " contains invalid JSON"@),
        ),
{
}

/// While the clock is before the end, tries go on; the first try at or after it is the last
/// that is not made.
pub proof fn tries_go_on_while_there_is_time(clocks: Seq<u64>, end: u64, n: nat)
    requires
        n <= clocks.len(),
        forall|i: int| 0 <= i < n ==> (#[trigger] clocks[i]) < end,
    ensures
        tries_in_time(clocks, Some(end), n) == n,
        tries_in_time(clocks, None, n) == n,
        n < clocks.len() && clocks[n as int] >= end ==> tries_in_time(clocks, Some(end), n + 1)
            == n,
    decreases n,
{
    if n > 0 {
        tries_go_on_while_there_is_time(clocks, end, (n - 1) as nat);
    }
}

// ---------------------------------------------------------------------------
// Routes
// ---------------------------------------------------------------------------

/// Answers and questions are stored under their names.
pub proof fn route_names_are_the_documented_ones(value: Seq<char>)
    ensures
        callback_of("approve"@) == Some(TelegramCallbackAction::Approve),
        callback_of("deny"@) == Some(TelegramCallbackAction::Deny),
        callback_text(TelegramCallbackAction::Approve) == "approve"@,
        callback_text(TelegramCallbackAction::Deny) == "deny"@,
        value != "approve"@ && value != "deny"@ ==> callback_of(value) is None,
        route_kind_text(TelegramCommandRouteKind::NewThread) == "new_thread"@,
        value != "new_thread"@ ==> route_kind_of(value) is None,
{
    reveal_strlit("approve");
    reveal_strlit("deny");
    assert("approve"@.len() == 7);
    assert("deny"@.len() == 4);
}

/// A button is stored with the message, the thread and the answer that it stands for, unused.
pub proof fn buttons_are_stored_as_they_are(
    st: BridgeStateV,
    route: TelegramCallbackRouteV,
    now: i64,
)
    requires
        st.well_formed(),
    ensures
        ({
            let after = with_callback_route(st, callback_row(route, now));
            let row = first_row(
                after.callback_routes,
                key_is(callback_route_row_key(), route.callback_id),
            );
            &&& row is Some
            &&& row->0.chat_id == route.chat_id
            &&& row->0.message_id == route.message_id
            &&& row->0.thread_id == route.thread_id
            &&& callback_of(row->0.action) == Some(route.action)
            &&& row->0.created_at == now
            &&& row->0.used_at is None
        }),
{
    route_names_are_the_documented_ones(""@);
    put_keeps_keys(st.callback_routes, callback_route_row_key(), callback_row(route, now));
}

/// A question that is stored unused is found by its chat and message, with what it asks for.
pub proof fn questions_are_found(st: BridgeStateV, row: CommandRouteRowV)
    requires
        st.well_formed(),
        row.used_at is None,
    ensures
        row.command == "new_thread"@ ==> command_route(
            with_command_route(st, row),
            row.chat_id,
            row.message_id,
        ) == Some((TelegramCommandRouteKind::NewThread, row.payload)),
{
    put_keeps_keys(st.command_routes, command_route_row_key(), row);
}

/// What was received is stored with what became of it.
pub proof fn received_updates_are_stored_as_they_are(
    bot_id: Seq<char>,
    update_id: i64,
    kind: Seq<char>,
    result: JsonV,
    context: TelegramInboundLogContextV,
    now: i64,
)
    ensures
        ({
            let row = inbound_row(bot_id, update_id, kind, result, context, now);
            &&& row.bot_id == bot_id && row.update_id == update_id
            &&& row.update_kind == kind
            &&& row.result == result
            &&& row.processed_at == now
            &&& row.thread_id == context.thread_id
            &&& row.route_message_id == context.route_message_id
            &&& row.result_action == context.result_action
            &&& row.codex_transport == context.codex_transport
            &&& context.codex_app_server_pid is None ==> row.codex_app_server_pid is None
            &&& context.codex_app_server_pid matches Some(pid) ==> row.codex_app_server_pid
                == Some(pid as i64)
        }),
{
}

// ---------------------------------------------------------------------------
// History
// ---------------------------------------------------------------------------

/// The newest action comes first, and behind it the history as it was, as far as the limit
/// goes.
pub proof fn the_history_goes_back_in_time(
    st: BridgeStateV,
    thread_id: Seq<char>,
    action: Seq<char>,
    payload: JsonV,
    now: i64,
    limit: u64,
    i: int,
)
    requires
        now >= 0,
        0 < limit <= i64::MAX,
        history(st, thread_id, (limit - 1) as u64) is Ok,
        0 <= i < history(st, thread_id, (limit - 1) as u64)->Ok_0.len(),
    ensures
        ({
            let read = history(with_action(st, thread_id, action, payload, now), thread_id, limit);
            let earlier = history(st, thread_id, (limit - 1) as u64)->Ok_0;
            &&& read is Ok
            &&& read->Ok_0.len() == earlier.len() + 1
            &&& read->Ok_0.len() <= limit
            &&& read->Ok_0[0].action_type == action && read->Ok_0[0].payload == payload
                && read->Ok_0[0].created_at == now
            &&& read->Ok_0[i + 1] == earlier[i]
        }),
{
    let rows = st.actions;
    let after = with_action(st, thread_id, action, payload, now).actions;
    lemma_newest_prefix(rows, after.last(), thread_id, rows.len(), (limit - 1) as nat);
    let newest = newest_actions(after, thread_id, after.len(), limit as nat);
    let earlier = newest_actions(rows, thread_id, rows.len(), (limit - 1) as nat);
    assert(after[after.len() - 1] == after.last());
    assert(newest == seq![after.last()] + earlier);
    assert forall|k: int| 0 <= k < newest.len() implies (#[trigger] newest[k]).created_at >= 0 by {
        if k > 0 {
            assert(newest[k] == earlier[k - 1]);
        }
    }
    lemma_newest_len(rows, thread_id, rows.len(), (limit - 1) as nat);
    assert(newest[i + 1] == earlier[i]);
}

proof fn lemma_newest_prefix(
    rows: Seq<ActionRowV>,
    last: ActionRowV,
    thread_id: Seq<char>,
    n: nat,
    limit: nat,
)
    requires
        n <= rows.len(),
    ensures
        newest_actions(rows.push(last), thread_id, n, limit) == newest_actions(
            rows,
            thread_id,
            n,
            limit,
        ),
    decreases n,
{
    if n > 0 && limit > 0 {
        assert(rows.push(last)[n - 1] == rows[n - 1]);
        if rows[n - 1].thread_id == thread_id {
            lemma_newest_prefix(rows, last, thread_id, (n - 1) as nat, (limit - 1) as nat);
        } else {
            lemma_newest_prefix(rows, last, thread_id, (n - 1) as nat, limit);
        }
    }
}

proof fn lemma_newest_len(rows: Seq<ActionRowV>, thread_id: Seq<char>, n: nat, limit: nat)
    ensures
        newest_actions(rows, thread_id, n, limit).len() <= limit,
    decreases n,
{
    if n > 0 && n <= rows.len() && limit > 0 {
        if rows[n - 1].thread_id == thread_id {
            lemma_newest_len(rows, thread_id, (n - 1) as nat, (limit - 1) as nat);
        } else {
            lemma_newest_len(rows, thread_id, (n - 1) as nat, limit);
        }
    }
}

/// An action is shown with its type, its time and its payload.
pub proof fn actions_are_shown(a: HistoryActionV)
    ensures
        text_member(action_json(a), "actionType"@) == Some(a.action_type),
        member(action_json(a), "createdAt"@) == Some(JsonV::UInt(a.created_at)),
        member(action_json(a), "payload"@) == Some(a.payload),
{
    broadcast use {empty_objects_have_no_members, pushed_members_are_found};

    reveal_strlit("actionType");
    reveal_strlit("createdAt");
    reveal_strlit("payload");
    assert("actionType"@.len() == 10);
    assert("createdAt"@.len() == 9);
    assert("payload"@.len() == 7);
}

/// What is older than thirty days goes from the logs, and nothing else goes.
pub proof fn old_logs_go(st: BridgeStateV, cutoff: i64, now: u64, action: ActionRowV, i: int)
    ensures
        now >= 30 * 24 * 60 * 60 * 1000 ==> log_cutoff(now) == now - 30 * 24 * 60 * 60 * 1000,
        now < 30 * 24 * 60 * 60 * 1000 ==> log_cutoff(now) == 0,
        0 <= i < st.actions.len() && st.actions[i].created_at >= cutoff ==> pruned(
            st,
            cutoff,
        ).actions.contains(st.actions[i]),
        0 <= i < st.inbound.len() && st.inbound[i].processed_at >= cutoff ==> pruned(
            st,
            cutoff,
        ).inbound.contains(st.inbound[i]),
        0 <= i < pruned(st, cutoff).actions.len() ==> pruned(st, cutoff).actions[i].created_at
            >= cutoff,
        0 <= i < pruned(st, cutoff).inbound.len() ==> pruned(st, cutoff).inbound[i].processed_at
            >= cutoff,
        pruned(st, cutoff).threads == st.threads && pruned(st, cutoff).outbound == st.outbound
            && pruned(st, cutoff).settings == st.settings,
{
    lemma_without_misses(st.actions, old_action_hit(cutoff));
    lemma_without_misses(st.inbound, old_inbound_hit(cutoff));
    if 0 <= i < st.actions.len() && st.actions[i].created_at >= cutoff {
        lemma_without_keeps(st.actions, old_action_hit(cutoff), i);
    }
    if 0 <= i < st.inbound.len() && st.inbound[i].processed_at >= cutoff {
        lemma_without_keeps(st.inbound, old_inbound_hit(cutoff), i);
    }
}

proof fn lemma_without_keeps<R>(rows: Seq<R>, hit: spec_fn(R) -> bool, i: int)
    requires
        0 <= i < rows.len(),
        !hit(rows[i]),
    ensures
        without(rows, hit).contains(rows[i]),
{
    broadcast use vstd::seq_lib::group_filter_ensures;

    let keep = |r: R| !hit(r);
    assert(keep(rows[i]));
    assert(rows.contains(rows[i]));
}

// ---------------------------------------------------------------------------
// Projects
// ---------------------------------------------------------------------------

/// A project goes by its identifier, its label and each of its aliases, in whatever letter
/// case, and by nothing else.
pub proof fn projects_go_by_their_names(
    p: RegisteredProjectV,
    name: Seq<char>,
    i: int,
)
    ensures
        goes_by(p, p.id) && goes_by(p, p.label),
        0 <= i < p.aliases.len() ==> goes_by(p, p.aliases[i]),
        ascii_lowered(name) == ascii_lowered(p.id) || ascii_lowered(name) == ascii_lowered(p.label)
            ==> goes_by(p, name),
        0 <= i < p.aliases.len() && ascii_lowered(name) == ascii_lowered(p.aliases[i]) ==> goes_by(
            p,
            name,
        ),
        goes_by(p, name) ==> ascii_lowered(name) == ascii_lowered(p.id) || ascii_lowered(name)
            == ascii_lowered(p.label) || exists|k: int|
            0 <= k < p.aliases.len() && ascii_lowered(#[trigger] p.aliases[k]) == ascii_lowered(
                name,
            ),
{
    if 0 <= i < p.aliases.len() {
        assert(ascii_lowered(p.aliases[i]) == ascii_lowered(p.aliases[i]));
    }
}

/// The token of a label holds small letters, digits and single dashes between them only.
pub proof fn tokens_are_plain(label: Seq<char>, i: int)
    requires
        project_token(label) is Some,
        0 <= i < project_token(label)->0.len(),
    ensures
        ({
            let t = project_token(label)->0;
            &&& ('a' <= t[i] && t[i] <= 'z') || ('0' <= t[i] && t[i] <= '9') || t[i] == '-'
            &&& t[0] != '-' && t.last() != '-'
            &&& i + 1 < t.len() && t[i] == '-' ==> t[i + 1] != '-'
        }),
{
    lemma_tokens(label, label.len());
    let t = token_upto(label, label.len());
    if t.last() == '-' {
        assert(t[t.len() - 1] == '-');
        assert(t.len() >= 2);
        assert(t[t.len() - 2] != '-');
    }
}

proof fn lemma_tokens(s: Seq<char>, n: nat)
    ensures
        forall|i: int|
            0 <= i < token_upto(s, n).len() ==> {
                let c = #[trigger] token_upto(s, n)[i];
                ('a' <= c && c <= 'z') || ('0' <= c && c <= '9') || c == '-'
            },
        forall|i: int|
            0 < i < token_upto(s, n).len() && (#[trigger] token_upto(s, n)[i]) == '-'
                ==> token_upto(s, n)[i - 1] != '-',
        token_upto(s, n).len() > 0 ==> token_upto(s, n)[0] != '-',
    decreases n,
{
    if n > 0 && n <= s.len() {
        lemma_tokens(s, (n - 1) as nat);
    }
}

/// A label that is a token already is its own token; large letters are written small.
pub proof fn tokens_stay(label: Seq<char>)
    requires
        label.len() > 0,
        forall|i: int|
            0 <= i < label.len() ==> {
                let c = #[trigger] label[i];
                ('a' <= c && c <= 'z') || ('A' <= c && c <= 'Z') || ('0' <= c && c <= '9')
            },
    ensures
        project_token(label) == Some(ascii_lowered(label)),
{
    lemma_plain_token(label, label.len());
    assert(label.take(label.len() as int) =~= label);
}

proof fn lemma_plain_token(s: Seq<char>, n: nat)
    requires
        n <= s.len(),
        forall|i: int|
            0 <= i < s.len() ==> {
                let c = #[trigger] s[i];
                ('a' <= c && c <= 'z') || ('A' <= c && c <= 'Z') || ('0' <= c && c <= '9')
            },
    ensures
        token_upto(s, n) == ascii_lowered(s.take(n as int)),
        forall|i: int| 0 <= i < token_upto(s, n).len() ==> (#[trigger] token_upto(s, n)[i]) != '-',
    decreases n,
{
    if n > 0 {
        lemma_plain_token(s, (n - 1) as nat);
        assert(token_upto(s, n) =~= ascii_lowered(s.take(n as int)));
    } else {
        assert(token_upto(s, n) =~= ascii_lowered(s.take(0)));
    }
}

/// A new project is what was asked for: its directory, its label and its aliases, and its
/// identifier where one is wanted; a wanted identifier that is taken is refused.
pub proof fn new_projects_are_as_asked_for(
    cwd: Seq<char>,
    id: Option<Seq<char>>,
    label: Option<Seq<char>>,
    aliases: Seq<Seq<char>>,
    existing: Seq<RegisteredProjectV>,
    i: int,
)
    ensures
        new_project(cwd, id, label, aliases, existing) matches Ok(p) ==> {
            &&& p.cwd == cwd
            &&& p.aliases == aliases
            &&& label is Some ==> p.label == label->0
            &&& label is None && project_label(Some(cwd)) is Some ==> p.label == project_label(
                Some(cwd),
            )->0
            &&& id is Some ==> p.id == id->0
            &&& id is None && existing.len() == 0 && project_token(p.label) is Some ==> p.id
                == project_token(p.label)->0
            &&& id is None && existing.len() == 0 && project_token(p.label) is None ==> p.id
                == "project"@
        },
        id is None ==> new_project(cwd, id, label, aliases, existing) is Ok,
        id is Some && 0 <= i < existing.len() && existing[i].id == id->0 ==> new_project(
            cwd,
            id,
            label,
            aliases,
            existing,
        ) == Err::<RegisteredProjectV, BridgeErrorV>(
            failure("project id `"@ + id->0 + "` is already registered"@),
        ),
{
    if id is Some && 0 <= i < existing.len() && existing[i].id == id->0 {
        assert(ids_of(existing)[i] == id->0);
    }
}

/// An imported project has the label and the directory of a workspace that was observed.
pub proof fn imported_projects_were_observed(
    observed: Seq<ObservedWorkspaceV>,
    existing: Seq<RegisteredProjectV>,
    n: nat,
    i: int,
) -> (k: int)
    requires
        n <= observed.len(),
        0 <= i < imports_upto(observed, existing, n).len(),
    ensures
        0 <= k < n,
        imports_upto(observed, existing, n)[i].label == observed[k].label,
        imports_upto(observed, existing, n)[i].cwd == observed[k].cwd,
        imports_upto(observed, existing, n)[i].aliases.len() == 0,
    decreases n,
{
    let before = imports_upto(observed, existing, (n - 1) as nat);
    if i < before.len() {
        imported_projects_were_observed(observed, existing, (n - 1) as nat, i)
    } else {
        n - 1
    }
}

/// Projects and workspaces are shown as they are, and the reports on them hold what they are
/// about.
pub proof fn projects_are_shown(
    p: RegisteredProjectV,
    w: ObservedWorkspaceV,
    projects: Seq<RegisteredProjectV>,
    observed: Seq<ObservedWorkspaceV>,
    action: Seq<char>,
    dry_run: bool,
)
    ensures
        text_member(project_json(p), "id"@) == Some(p.id),
        text_member(project_json(p), "label"@) == Some(p.label),
        text_member(project_json(p), "cwd"@) == Some(p.cwd),
        text_member(workspace_json(w), "label"@) == Some(w.label),
        text_member(workspace_json(w), "cwd"@) == Some(w.cwd),
        member(workspace_json(w), "lastSeenAt"@) == Some(uint_or_null(w.last_seen_at)),
        ({
            let r = list_report(projects, observed);
            &&& member(r, "ok"@) == Some(JsonV::Bool(true))
            &&& text_member(r, "action"@) == Some("projects_list"@)
            &&& member(r, "configured"@) == Some(projects_json(projects))
            &&& member(r, "observed"@) == Some(workspaces_json(observed))
            &&& member(r, "importable"@) == Some(projects_json(imports(observed, projects)))
        }),
        ({
            let r = project_report(action, dry_run, p);
            &&& member(r, "ok"@) == Some(JsonV::Bool(true))
            &&& text_member(r, "action"@) == Some(action)
            &&& member(r, "dryRun"@) == Some(JsonV::Bool(dry_run))
            &&& member(r, "project"@) == Some(project_json(p))
        }),
        ({
            let r = import_report(dry_run, projects);
            &&& member(r, "ok"@) == Some(JsonV::Bool(true))
            &&& text_member(r, "action"@) == Some("projects_import"@)
            &&& member(r, "dryRun"@) == Some(JsonV::Bool(dry_run))
            &&& member(r, "imported"@) == Some(projects_json(projects))
            &&& member(r, "count"@) == Some(JsonV::UInt(projects.len() as u64))
        }),
{
    broadcast use {empty_objects_have_no_members, pushed_members_are_found};

    reveal_strlit("id");
    reveal_strlit("label");
    reveal_strlit("cwd");
    reveal_strlit("aliases");
    reveal_strlit("lastSeenAt");
    reveal_strlit("ok");
    reveal_strlit("action");
    reveal_strlit("configured");
    reveal_strlit("observed");
    reveal_strlit("importable");
    reveal_strlit("dryRun");
    reveal_strlit("project");
    reveal_strlit("imported");
    reveal_strlit("count");
    assert("id"@.len() == 2);
    assert("label"@.len() == 5);
    assert("cwd"@.len() == 3);
    assert("aliases"@.len() == 7);
    assert("lastSeenAt"@.len() == 10);
    assert("ok"@.len() == 2);
    assert("action"@.len() == 6);
    assert("configured"@.len() == 10);
    assert("observed"@.len() == 8);
    assert("importable"@.len() == 10);
    assert("dryRun"@.len() == 6);
    assert("project"@.len() == 7);
    assert("imported"@.len() == 8);
    assert("count"@.len() == 5);
    assert("id"@[0] != "ok"@[0]);
    assert("label"@[0] != "count"@[0]);
    assert("aliases"@[0] != "project"@[0]);
    assert("lastSeenAt"@[0] != "configured"@[0]);
    assert("lastSeenAt"@[0] != "importable"@[0]);
    assert("action"@[0] != "dryRun"@[0]);
    assert("configured"@[0] != "importable"@[0]);
    assert("observed"@[0] != "imported"@[0]);
}

/// Lists of projects and workspaces are shown item by item.
pub proof fn lists_are_shown_item_by_item(
    projects: Seq<RegisteredProjectV>,
    observed: Seq<ObservedWorkspaceV>,
    i: int,
)
    ensures
        projects_json(projects) is Array && workspaces_json(observed) is Array,
        projects_json(projects)->Array_0.len() == projects.len(),
        workspaces_json(observed)->Array_0.len() == observed.len(),
        0 <= i < projects.len() ==> projects_json(projects)->Array_0[i] == project_json(
            projects[i],
        ),
        0 <= i < observed.len() ==> workspaces_json(observed)->Array_0[i] == workspace_json(
            observed[i],
        ),
{
}

/// Removing a project leaves the others.
pub proof fn other_projects_stay(projects: Seq<RegisteredProjectV>, id: Seq<char>, i: int)
    requires
        0 <= i < projects.len(),
        projects[i].id != id,
    ensures
        other_projects(projects, id).contains(projects[i]),
{
    lemma_without_keeps(projects, project_hit(id), i);
}

// ---------------------------------------------------------------------------
// Away mode
// ---------------------------------------------------------------------------

/// The reports on away mode, and the marker for other programs, say whether the user is away
/// and since when.
pub proof fn away_mode_is_reported(
    away: bool,
    started: Option<u64>,
    session: Option<Seq<char>>,
    cleared: u64,
)
    ensures
        ({
            let r = away_report(away, started, session);
            &&& member(r, "ok"@) == Some(JsonV::Bool(true))
            &&& member(r, "away"@) == Some(JsonV::Bool(away))
            &&& started is Some ==> member(r, "awayStartedAt"@) == Some(JsonV::UInt(started->0))
            &&& started is None ==> member(r, "awayStartedAt"@) == Some(JsonV::Null)
            &&& text_member(r, "awaySessionId"@) == session
            &&& member(away_marker(r), "away"@) == Some(JsonV::Bool(away))
            &&& member(away_marker(r), "awayStartedAt"@) == member(r, "awayStartedAt"@)
            &&& text_member(away_marker(r), "awaySessionId"@) == session
        }),
        ({
            let r = present_report(cleared);
            &&& member(r, "ok"@) == Some(JsonV::Bool(true))
            &&& member(r, "away"@) == Some(JsonV::Bool(false))
            &&& member(r, "awayStartedAt"@) == Some(JsonV::Null)
            &&& member(r, "awaySessionId"@) == Some(JsonV::Null)
            &&& member(r, "clearedPendingNotifications"@) == Some(JsonV::UInt(cleared))
        }),
{
    broadcast use {empty_objects_have_no_members, pushed_members_are_found};

    reveal_strlit("ok");
    reveal_strlit("away");
    reveal_strlit("awayStartedAt");
    reveal_strlit("awaySessionId");
    reveal_strlit("clearedPendingNotifications");
    assert("ok"@.len() == 2);
    assert("away"@.len() == 4);
    assert("awayStartedAt"@.len() == 13);
    assert("awaySessionId"@.len() == 13);
    assert("clearedPendingNotifications"@.len() == 27);
    assert("awayStartedAt"@[5] != "awaySessionId"@[5]);
}

/// Coming back drops what was not delivered and keeps what was.
pub proof fn coming_back_keeps_what_was_delivered(st: BridgeStateV, i: int)
    ensures
        0 <= i < st.outbound.len() && st.outbound[i].status == "delivered"@ ==> present_state(
            st,
        ).outbound.contains(st.outbound[i]),
        0 <= i < present_state(st).outbound.len() ==> present_state(st).outbound[i].status
            == "delivered"@,
        present_state(st).threads == st.threads,
        pending_count(st) + present_state(st).outbound.len() == st.outbound.len(),
{
    lemma_without_misses(st.outbound, pending_hit());
    lemma_filter_parts(st.outbound, pending_hit());
    if 0 <= i < st.outbound.len() && st.outbound[i].status == "delivered"@ {
        lemma_without_keeps(st.outbound, pending_hit(), i);
    }
}

/// An absence without a session of its own is named by the moment at which it began, and a
/// mode that was stored under the former name is carried over.
pub proof fn absences_are_named(st: BridgeStateV, started: u64)
    requires
        st.well_formed(),
    ensures
        setting(st, "away_session_id"@) is Some ==> away_session(st, Some(started)) == setting(
            st,
            "away_session_id"@,
        ),
        setting(st, "away_session_id"@) is None ==> away_session(st, Some(started)) == Some(
            decimal(started as nat),
        ) && away_session(st, None) is None,
        setting(st, "away"@) is None && setting(st, "away_mode"@) is Some ==> setting(
            carried_over(st),
            "away"@,
        ) == setting(st, "away_mode"@) && setting(carried_over(st), "away_mode"@) is None,
        setting(st, "away"@) is Some ==> carried_over(st) == st,
{
    reveal_strlit("away");
    reveal_strlit("away_mode");
    assert("away"@.len() == 4);
    assert("away_mode"@.len() == 9);
    if setting(st, "away"@) is None && setting(st, "away_mode"@) is Some {
        let text = setting(st, "away_mode"@)->0;
        setting_after_set(st, "away"@, text, "away_mode"@);
        setting_after_delete(with_setting(st, "away"@, text), "away_mode"@, "away"@);
    }
}

/// An event whose delivery failed is marked as failed; it stays as it was queued, and none of
/// the other tables is touched.
pub proof fn failed_events_stay_queued(
    st: BridgeStateV,
    event_id: Seq<char>,
    attempts: i64,
    message: Seq<char>,
    now: u64,
)
    requires
        st.well_formed(),
        in_outbox(st, event_id),
        0 <= attempts < i64::MAX,
        now + 256_000 <= i64::MAX,
    ensures
        settled(st, event_id, attempts, Some(message), now) is Ok,
        ({
            let before = first_row(st.outbound, key_is(outbound_row_key(), event_id))->0;
            let after = settled(st, event_id, attempts, Some(message), now)->Ok_0;
            let row = first_row(after.outbound, key_is(outbound_row_key(), event_id));
            &&& row is Some
            &&& row->0.status == "failed"@
            &&& row->0.event_type == before.event_type && row->0.thread_id == before.thread_id
            &&& row->0.payload == before.payload && row->0.created_at == before.created_at
            &&& row->0.delivered_at == before.delivered_at
            &&& row->0.next_attempt_at == now + retry_delay((attempts + 1) as u64)
            &&& after.settings == st.settings && after.threads == st.threads && after.prompts
                == st.prompts
        }),
{
    let hit = key_is(outbound_row_key(), event_id);
    lemma_position(st.outbound, hit, 0);
    let row = st.outbound[position(st.outbound, hit, 0) as int];
    assert(row.event_id == event_id);
    let tries = (attempts + 1) as u64;
    let failed = OutboundRowV {
        status: "failed"@,
        attempts: tries as i64,
        next_attempt_at: next_try(tries, now) as i64,
        last_error: Some(message),
        ..row
    };
    put_keeps_keys(st.outbound, outbound_row_key(), failed);
}

/// A project is found by its identifier, its label or an alias, in whatever letter case: the
/// first that goes by the name.
pub proof fn projects_are_found_by_their_names(
    projects: Seq<RegisteredProjectV>,
    name: Seq<char>,
    i: int,
    k: int,
)
    requires
        0 <= i < projects.len(),
        forall|j: int| 0 <= j < i ==> !goes_by(#[trigger] projects[j], name),
    ensures
        ascii_lowered(name) == ascii_lowered(projects[i].id) || ascii_lowered(name)
            == ascii_lowered(projects[i].label) || (0 <= k < projects[i].aliases.len()
            && ascii_lowered(name) == ascii_lowered(projects[i].aliases[k])) ==> first_row(
            projects,
            name_hit(name),
        ) == Some(projects[i]),
{
    projects_go_by_their_names(projects[i], name, k);
    if goes_by(projects[i], name) {
        lemma_position_is(projects, name_hit(name), i);
    }
}

} // verus!
