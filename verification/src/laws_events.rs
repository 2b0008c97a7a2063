//! What holds of the events that threads, notifications and watches give.
use vstd::prelude::*;
use vstd::string::*;

use crate::codex::{flags_are_waiting, last_turn_status, snapshot_of};
use crate::events::{
    array_or_none, emits, emitted, event_filter, listed, notification_event, notification_events,
    preview_at, preview_wanted, previewed_event, previewed_events, previewed_report,
    previewed_threads, repeats_are_dropped, thread_error, thread_hit, watched, with_thread,
};
use crate::follow::{
    any_ends_prompt, any_terminal, ends_prompt, follow_begun, follow_kept, follow_report,
    follow_snapshot, follow_started, follow_turn_started, FollowActionV, followed, FollowInputV,
    FollowPhase, FollowV, is_terminal, last_reading, recorded_follow, settle_begun, settle_duration,
    SettleAction, SettleInputV, with_follow_events,
};
use crate::json::{
    array_value, empty_objects_have_no_members, JsonV, member, member_after_set, Object, or_null,
    pushed_members_are_found, set_member, text_member,
};
use crate::requests::{comma_list, turn_params};
use crate::state::{BridgeStateV, prompt_row_key};
use crate::sync::{snapshot_fits, with_snapshot};
use crate::table::{
    has_row, key_is, lemma_position, lemma_position_is, lemma_without_misses, position, without,
};
use crate::text::non_blank;

verus! {

// ---------------------------------------------------------------------------
// Notifications
// ---------------------------------------------------------------------------

/// The methods of the notifications that have an event of their own.
pub open spec fn known_method(method: Seq<char>) -> bool {
    ||| method == "thread/status/changed"@
    ||| method == "turn/started"@
    ||| method == "turn/completed"@
    ||| method == "item/started"@
    ||| method == "item/completed"@
}

/// A text with an underscore for every slash.
pub open spec fn underscored(method: Seq<char>) -> Seq<char> {
    method.map_values(
        |c: char|
            if c == '/' {
                '_'
            } else {
                c
            },
    )
}

/// The type of an event is the method of its notification with underscores for the slashes;
/// a notification of any other method gives one of the type `notification`.
pub proof fn events_are_typed_by_their_method(notification: JsonV)
    ensures
        text_member(notification, "method"@) matches Some(method) && known_method(method)
            ==> text_member(notification_event(notification), "type"@) == Some(
            underscored(text_member(notification, "method"@)->0),
        ),
        !(text_member(notification, "method"@) matches Some(method) && known_method(method))
            ==> text_member(notification_event(notification), "type"@) == Some("notification"@),
        member(notification_event(notification), "raw"@) == Some(notification),
{
    broadcast use {empty_objects_have_no_members, pushed_members_are_found};

    reveal_strlit("type");
    reveal_strlit("threadId");
    reveal_strlit("status");
    reveal_strlit("turn");
    reveal_strlit("turnId");
    reveal_strlit("item");
    reveal_strlit("raw");
    assert("type"@.len() == 4);
    assert("threadId"@.len() == 8);
    assert("status"@.len() == 6);
    assert("turn"@.len() == 4);
    assert("turnId"@.len() == 6);
    assert("item"@.len() == 4);
    assert("raw"@.len() == 3);
    assert("type"@[1] != "turn"@[1]);
    assert("type"@[0] != "item"@[0]);
    assert("status"@[0] != "turnId"@[0]);
    assert("turn"@[0] != "item"@[0]);
    reveal_strlit("thread/status/changed");
    reveal_strlit("turn/started");
    reveal_strlit("turn/completed");
    reveal_strlit("item/started");
    reveal_strlit("item/completed");
    assert("thread/status/changed"@.len() == 21);
    assert("turn/started"@.len() == 12);
    assert("turn/completed"@.len() == 14);
    assert("item/started"@.len() == 12);
    assert("item/completed"@.len() == 14);
    assert("turn/started"@[0] != "item/started"@[0]);
    assert("turn/completed"@[0] != "item/completed"@[0]);
    reveal_strlit("thread_status_changed");
    reveal_strlit("turn_started");
    reveal_strlit("turn_completed");
    reveal_strlit("item_started");
    reveal_strlit("item_completed");
    assert("thread_status_changed"@.len() == 21);
    assert("turn_started"@.len() == 12);
    assert("turn_completed"@.len() == 14);
    assert("item_started"@.len() == 12);
    assert("item_completed"@.len() == 14);
    assert("turn_started"@[0] != "item_started"@[0]);
    assert("turn_completed"@[0] != "item_completed"@[0]);
    assert(underscored("thread/status/changed"@) =~= "thread_status_changed"@);
    assert(underscored("turn/started"@) =~= "turn_started"@);
    assert(underscored("turn/completed"@) =~= "turn_completed"@);
    assert(underscored("item/started"@) =~= "item_started"@);
    assert(underscored("item/completed"@) =~= "item_completed"@);
}

/// Notifications of two known methods never give events of one type.
pub proof fn methods_keep_their_events_apart(a: JsonV, b: JsonV)
    requires
        text_member(a, "method"@) is Some,
        text_member(b, "method"@) is Some,
        known_method(text_member(a, "method"@)->0),
        known_method(text_member(b, "method"@)->0),
        text_member(a, "method"@) != text_member(b, "method"@),
    ensures
        text_member(notification_event(a), "type"@) != text_member(
            notification_event(b),
            "type"@,
        ),
{
    events_are_typed_by_their_method(a);
    events_are_typed_by_their_method(b);
    reveal_strlit("thread/status/changed");
    reveal_strlit("turn/started");
    reveal_strlit("turn/completed");
    reveal_strlit("item/started");
    reveal_strlit("item/completed");
    assert("thread/status/changed"@.len() == 21);
    assert("turn/started"@.len() == 12);
    assert("turn/completed"@.len() == 14);
    assert("item/started"@.len() == 12);
    assert("item/completed"@.len() == 14);
    assert("turn/started"@[0] != "item/started"@[0]);
    assert("turn/completed"@[0] != "item/completed"@[0]);
    reveal_strlit("thread_status_changed");
    reveal_strlit("turn_started");
    reveal_strlit("turn_completed");
    reveal_strlit("item_started");
    reveal_strlit("item_completed");
    assert("thread_status_changed"@.len() == 21);
    assert("turn_started"@.len() == 12);
    assert("turn_completed"@.len() == 14);
    assert("item_started"@.len() == 12);
    assert("item_completed"@.len() == 14);
    assert("turn_started"@[0] != "item_started"@[0]);
    assert("turn_completed"@[0] != "item_completed"@[0]);
    assert(underscored("thread/status/changed"@) =~= "thread_status_changed"@);
    assert(underscored("turn/started"@) =~= "turn_started"@);
    assert(underscored("turn/completed"@) =~= "turn_completed"@);
    assert(underscored("item/started"@) =~= "item_started"@);
    assert(underscored("item/completed"@) =~= "item_completed"@);
}

/// An event says of which thread its notification is, and hands on the turn, the status or the
/// item that the notification tells; whatever it is, it holds the notification itself.
pub proof fn events_hand_on_what_is_told(notification: JsonV, params: JsonV)
    requires
        member(notification, "params"@) == Some(params),
    ensures
        ({
            let method = text_member(notification, "method"@);
            let e = notification_event(notification);
            &&& (method matches Some(m) && known_method(m)) ==> member(e, "threadId"@) == Some(
                or_null(member(params, "threadId"@)),
            )
            &&& member(e, "raw"@) == Some(notification)
            &&& method == Some("thread/status/changed"@) ==> member(e, "status"@) == Some(
                or_null(member(params, "status"@)),
            )
            &&& method == Some("turn/started"@) || method == Some("turn/completed"@) ==> member(
                e,
                "turn"@,
            ) == Some(or_null(member(params, "turn"@)))
            &&& method == Some("item/started"@) || method == Some("item/completed"@) ==> member(
                e,
                "item"@,
            ) == Some(or_null(member(params, "item"@))) && member(e, "turnId"@) == Some(
                or_null(member(params, "turnId"@)),
            )
        }),
{
    broadcast use {empty_objects_have_no_members, pushed_members_are_found};

    reveal_strlit("type");
    reveal_strlit("threadId");
    reveal_strlit("status");
    reveal_strlit("turn");
    reveal_strlit("turnId");
    reveal_strlit("item");
    reveal_strlit("raw");
    assert("type"@.len() == 4);
    assert("threadId"@.len() == 8);
    assert("status"@.len() == 6);
    assert("turn"@.len() == 4);
    assert("turnId"@.len() == 6);
    assert("item"@.len() == 4);
    assert("raw"@.len() == 3);
    assert("type"@[1] != "turn"@[1]);
    assert("type"@[0] != "item"@[0]);
    assert("status"@[0] != "turnId"@[0]);
    assert("turn"@[0] != "item"@[0]);
    reveal_strlit("thread/status/changed");
    reveal_strlit("turn/started");
    reveal_strlit("turn/completed");
    reveal_strlit("item/started");
    reveal_strlit("item/completed");
    assert("thread/status/changed"@.len() == 21);
    assert("turn/started"@.len() == 12);
    assert("turn/completed"@.len() == 14);
    assert("item/started"@.len() == 12);
    assert("item/completed"@.len() == 14);
    assert("turn/started"@[0] != "item/started"@[0]);
    assert("turn/completed"@[0] != "item/completed"@[0]);
}

// ---------------------------------------------------------------------------
// Filters
// ---------------------------------------------------------------------------

/// An event passes a filter exactly where its type is in the list that the filter was made
/// of; where no list is given, or one without entries, every event passes.
pub proof fn filters_keep_the_listed_types(list: Seq<char>, event: JsonV, kind: Seq<char>)
    requires
        text_member(event, "type"@) == Some(kind),
    ensures
        comma_list(list).len() > 0 ==> (emits(event_filter(Some(list)), event) <==> comma_list(
            list,
        ).contains(kind)),
        comma_list(list).len() == 0 ==> emits(event_filter(Some(list)), event),
        emits(event_filter(None), event),
{
    let kinds = comma_list(list);
    repeats_are_dropped(kinds, kinds.len(), kind);
    assert(kinds.take(kinds.len() as int) =~= kinds);
    assert(listed(kinds, kind) <==> kinds.contains(kind)) by {
        if kinds.contains(kind) {
            let i = choose|i: int| 0 <= i < kinds.len() && kinds[i] == kind;
            assert(kinds[i] == kind);
        }
    }
}

/// Filtering takes the events one after the other: each that passes is kept, in its place,
/// and each that does not is left out.
pub proof fn filters_go_event_by_event(
    events: Seq<JsonV>,
    last: JsonV,
    filter: Option<Seq<Seq<char>>>,
)
    ensures
        emits(filter, last) ==> emitted(events.push(last), filter) == emitted(events, filter).push(
            last,
        ),
        !emits(filter, last) ==> emitted(events.push(last), filter) == emitted(events, filter),
        emitted(Seq::empty(), filter) == Seq::<JsonV>::empty(),
{
    reveal(Seq::filter);
    assert(events.push(last).drop_last() =~= events);
}

// ---------------------------------------------------------------------------
// Watching
// ---------------------------------------------------------------------------

/// An event of a listed thread carries that thread, and is else as it was; one of any other
/// thread, or of none, is as it was.
pub proof fn events_carry_their_thread(event: JsonV, threads: Seq<JsonV>, i: int, key: Seq<char>)
    requires
        event is Object,
        0 <= i < threads.len(),
        text_member(threads[i], "threadId"@) is Some,
        forall|k: int|
            0 <= k < i ==> text_member(#[trigger] threads[k], "threadId"@) != text_member(
                threads[i],
                "threadId"@,
            ),
        key != "thread"@,
    ensures
        text_member(event, "threadId"@) == text_member(threads[i], "threadId"@) ==> member(
            with_thread(event, threads),
            "thread"@,
        ) == Some(threads[i]),
        member(with_thread(event, threads), key) == member(event, key),
        text_member(event, "threadId"@) is None ==> with_thread(event, threads) == event,
        (forall|k: int|
            0 <= k < threads.len() ==> text_member(#[trigger] threads[k], "threadId"@)
                != text_member(event, "threadId"@)) ==> with_thread(event, threads) == event,
{
    match text_member(event, "threadId"@) {
        Some(id) => {
            let hit = thread_hit(id);
            lemma_position(threads, hit, 0);
            let p = position(threads, hit, 0);
            if p < threads.len() {
                assert(hit(threads[p as int]));
                member_after_set(event->Object_0, "thread"@, threads[p as int], key);
            }
            if text_member(threads[i], "threadId"@) == Some(id) {
                assert(hit(threads[i]));
                assert forall|k: int| 0 <= k < i implies !hit(#[trigger] threads[k]) by {
                    assert(text_member(threads[k], "threadId"@) != text_member(
                        threads[i],
                        "threadId"@,
                    ));
                }
                lemma_position_is(threads, hit, i);
                member_after_set(event->Object_0, "thread"@, threads[i], key);
            }
        },
        None => {},
    }
}

/// Without a filter, a watch shows every event of a synchronisation and then one for each
/// notification.
pub proof fn watches_show_both_kinds_of_events(
    sync_result: JsonV,
    events: Seq<JsonV>,
    notifications: Seq<JsonV>,
)
    requires
        member(sync_result, "events"@) == Some(JsonV::Array(events)),
    ensures
        watched(sync_result, notifications, None).len() == events.len() + notifications.len(),
        forall|i: int|
            0 <= i < events.len() ==> (#[trigger] watched(sync_result, notifications, None)[i])
                == with_thread(events[i], array_or_none(sync_result, "threads"@)),
        forall|i: int|
            0 <= i < notifications.len() ==> (#[trigger] watched(
                sync_result,
                notifications,
                None,
            )[events.len() + i]) == with_thread(
                notification_event(notifications[i]),
                array_or_none(sync_result, "threads"@),
            ),
{
    let threads = array_or_none(sync_result, "threads"@);
    let all = (events + notification_events(notifications)).map_values(
        |e: JsonV| with_thread(e, threads),
    );
    lemma_no_filter(all);
}

proof fn lemma_no_filter(events: Seq<JsonV>)
    ensures
        emitted(events, None) == events,
    decreases events.len(),
{
    if events.len() > 0 {
        lemma_no_filter(events.drop_last());
        filters_go_event_by_event(events.drop_last(), events.last(), None);
        assert(events.drop_last().push(events.last()) =~= events);
    } else {
        filters_go_event_by_event(events, JsonV::Null, None);
        assert(events =~= Seq::<JsonV>::empty());
    }
}

/// A failure is told as an event of its own type, with its message.
pub proof fn failures_are_told_as_events(message: Seq<char>)
    ensures
        text_member(thread_error(message), "type"@) == Some("thread_error"@),
        text_member(thread_error(message), "message"@) == Some(message),
{
    broadcast use {empty_objects_have_no_members, pushed_members_are_found};

    reveal_strlit("type");
    reveal_strlit("message");
    assert("type"@.len() == 4);
    assert("message"@.len() == 7);
}

/// The full preview of a thread that is done takes the place of the short one in its event;
/// other events, and those without a full preview, stay as they are.
pub proof fn finished_threads_are_previewed_in_full(
    event: JsonV,
    text: Seq<char>,
    other: Seq<char>,
)
    requires
        event is Object,
        other != "lastPreview"@,
    ensures
        text_member(event, "type"@) == Some("thread_completed"@) && text_member(event, "threadId"@)
            is Some ==> text_member(previewed_event(event, Some(text)), "lastPreview"@) == Some(
            text,
        ),
        member(previewed_event(event, Some(text)), other) == member(event, other),
        text_member(event, "type"@) != Some("thread_completed"@) ==> previewed_event(
            event,
            Some(text),
        ) == event,
        previewed_event(event, None) == event,
        preview_wanted(event) is Some <==> text_member(event, "type"@) == Some("thread_completed"@)
            && text_member(event, "threadId"@) is Some,
        preview_wanted(event) matches Some(id) ==> text_member(event, "threadId"@) == Some(id),
{
    member_after_set(event->Object_0, "lastPreview"@, JsonV::Str(text), other);
}

// ---------------------------------------------------------------------------
// Following
// ---------------------------------------------------------------------------

/// The events of a follow run say what they are, of which thread, and what was seen.
pub proof fn follow_events_say_what_they_are(
    thread_id: Seq<char>,
    duration: u64,
    poll: u64,
    thread: JsonV,
    started: JsonV,
)
    ensures
        ({
            let e = follow_started(thread_id, duration, poll);
            &&& text_member(e, "type"@) == Some("follow_started"@)
            &&& text_member(e, "threadId"@) == Some(thread_id)
            &&& member(e, "durationMs"@) == Some(JsonV::UInt(duration))
            &&& member(e, "pollIntervalMs"@) == Some(JsonV::UInt(poll))
        }),
        ({
            let e = follow_snapshot(thread_id, thread);
            &&& text_member(e, "type"@) == Some("follow_snapshot"@)
            &&& text_member(e, "threadId"@) == Some(thread_id)
            &&& member(e, "thread"@) == Some(thread)
        }),
        ({
            let e = follow_turn_started(thread_id, started);
            &&& text_member(e, "type"@) == Some("follow_turn_started"@)
            &&& text_member(e, "threadId"@) == Some(thread_id)
            &&& member(e, "started"@) == Some(started)
        }),
{
    broadcast use {empty_objects_have_no_members, pushed_members_are_found};

    reveal_strlit("type");
    reveal_strlit("threadId");
    reveal_strlit("durationMs");
    reveal_strlit("pollIntervalMs");
    reveal_strlit("thread");
    reveal_strlit("started");
    assert("type"@.len() == 4);
    assert("threadId"@.len() == 8);
    assert("durationMs"@.len() == 10);
    assert("pollIntervalMs"@.len() == 14);
    assert("thread"@.len() == 6);
    assert("started"@.len() == 7);
}

/// A follow run begins with its own event and by reading the thread; with a message it then
/// starts a turn of that thread with that message, and without one it waits.
pub proof fn follow_runs_begin(
    thread_id: Seq<char>,
    message: Option<Seq<char>>,
    duration: u64,
    poll: u64,
    read: JsonV,
    now: u64,
)
    requires
        now + duration <= u64::MAX,
        now + poll <= u64::MAX,
    ensures
        ({
            let f = follow_begun(thread_id, message, duration, poll, None);
            let (seen, action) = f.step(FollowInputV::Read(read), now);
            &&& f.events == seq![follow_started(thread_id, duration, poll)]
            &&& f.thread_id == thread_id
            &&& seen.events == f.events.push(
                follow_snapshot(thread_id, or_null(member(read, "thread"@))),
            )
            &&& non_blank(message) is Some ==> action == FollowActionV::StartTurn(
                turn_params(thread_id, None, non_blank(message)->0),
            )
            &&& non_blank(message) is None ==> action == FollowActionV::DrainNotifications
                && seen.deadline == now + duration && seen.next_poll_at == now + poll
        }),
{
    let f = follow_begun(thread_id, message, duration, poll, None);
    assert(f.events =~= seq![follow_started(thread_id, duration, poll)]);
}

/// While there is time, a follow run collects what comes in, reads the thread when that is
/// due, and pauses; what it sees it keeps, in order.
pub proof fn follow_runs_go_on(
    f: FollowV,
    more: Seq<JsonV>,
    read: JsonV,
    started: JsonV,
    now: u64,
)
    requires
        f.event_filter is None,
        now + f.poll_interval_ms <= u64::MAX,
        now + f.duration_ms <= u64::MAX,
    ensures
        f.phase == FollowPhase::Round ==> ({
            let (after, action) = f.step(FollowInputV::Notifications(more), now);
            &&& after.events == f.events + notification_events(more)
            &&& f.poll_interval_ms > 0 && now >= f.next_poll_at ==> action
                == FollowActionV::ReadThread
            &&& f.poll_interval_ms == 0 || now < f.next_poll_at ==> action == FollowActionV::Sleep(
                200,
            )
        }),
        f.phase == FollowPhase::Poll ==> ({
            let (after, action) = f.step(FollowInputV::Read(read), now);
            &&& after.events == f.events.push(
                follow_snapshot(f.thread_id, or_null(member(read, "thread"@))),
            )
            &&& after.next_poll_at == now + f.poll_interval_ms
            &&& action == FollowActionV::Sleep(200)
        }),
        f.phase == FollowPhase::Turn ==> ({
            let (after, action) = f.step(FollowInputV::Started(started), now);
            &&& after.events == f.events.push(follow_turn_started(f.thread_id, started))
            &&& after.deadline == now + f.duration_ms
            &&& action == FollowActionV::DrainNotifications
        }),
        f.phase == FollowPhase::Pause && now < f.deadline ==> f.step(
            FollowInputV::Woke,
            now,
        ).0.phase == FollowPhase::Round && f.step(FollowInputV::Woke, now).1
            == FollowActionV::DrainNotifications,
        f.phase == FollowPhase::Closing ==> f.step(
            FollowInputV::Notifications(more),
            now,
        ).0.events == f.events + notification_events(more) && f.step(
            FollowInputV::Notifications(more),
            now,
        ).1 == FollowActionV::Finish,
{
    lemma_all_follow_events(f.events, notification_events(more), more.len());
    assert(notification_events(more).take(more.len() as int) =~= notification_events(more));
}

proof fn lemma_all_follow_events(events: Seq<JsonV>, more: Seq<JsonV>, n: nat)
    requires
        n <= more.len(),
    ensures
        with_follow_events(events, None, more, n) == events + more.take(n as int),
    decreases n,
{
    if n > 0 {
        lemma_all_follow_events(events, more, (n - 1) as nat);
        assert((events + more.take(n - 1)).push(more[n - 1]) =~= events + more.take(n as int));
    } else {
        assert(events + more.take(0) =~= events);
    }
}

/// A wait for a thread to settle ends with an event that says so, and a thread that was
/// followed for more than a tenth of a second is waited for twenty seconds.
pub proof fn waits_end_with_the_end(event: JsonV, kind: Seq<char>, duration: u64)
    requires
        text_member(event, "type"@) == Some(kind),
    ensures
        is_terminal(event) <==> kind == "item_completed"@ || kind == "task_complete"@ || kind
            == "turn.completed"@ || kind == "turn.waiting"@ || kind == "approval_request"@,
        ends_prompt(event) <==> kind == "task_complete"@ || kind == "turn.completed"@,
        settle_duration(duration) == (if duration > 100 {
            20_000int
        } else {
            0
        }),
{
}

/// The last reading of a follow run is the one that is kept.
pub proof fn the_last_reading_is_kept(events: Seq<JsonV>, thread_id: Seq<char>, thread: JsonV, other: JsonV)
    ensures
        last_reading(
            events.push(follow_snapshot(thread_id, thread)),
            events.len() + 1,
        ) == Some(thread),
        text_member(other, "type"@) != Some("follow_snapshot"@) ==> last_reading(
            events.push(other),
            events.len() + 1,
        ) == last_reading(events, events.len()),
{
    follow_events_say_what_they_are(thread_id, 0, 0, thread, thread);
    let a = events.push(follow_snapshot(thread_id, thread));
    assert(a[a.len() - 1] == follow_snapshot(thread_id, thread));
    let b = events.push(other);
    assert(b[b.len() - 1] == other);
    lemma_reading_prefix(events, other, events.len());
}

proof fn lemma_reading_prefix(events: Seq<JsonV>, other: JsonV, n: nat)
    requires
        n <= events.len(),
    ensures
        last_reading(events.push(other), n) == last_reading(events, n),
    decreases n,
{
    if n > 0 {
        assert(events.push(other)[n - 1] == events[n - 1]);
        lemma_reading_prefix(events, other, (n - 1) as nat);
    }
}

/// What a follow run kept is stored: the snapshot of its last reading; and the prompt of its
/// thread goes exactly where an event says that it is done with.
pub proof fn follow_runs_store_the_last_reading(
    st: BridgeStateV,
    thread_id: Seq<char>,
    events: Seq<JsonV>,
    now: u64,
    thread: JsonV,
)
    requires
        last_reading(events, events.len()) == Some(thread),
        now <= i64::MAX,
    ensures
        snapshot_of(thread, thread) is Err ==> follow_kept(st, thread_id, events, now) is Err,
        snapshot_of(thread, thread) matches Ok(s) && snapshot_fits(s, now) ==> ({
            let kept = follow_kept(st, thread_id, events, now);
            let stored = with_snapshot(st, snapshot_of(thread, thread)->Ok_0, now as i64);
            &&& kept is Ok
            &&& kept->Ok_0.threads == stored.threads
            &&& !any_ends_prompt(events) ==> kept->Ok_0.prompts == stored.prompts
            &&& any_ends_prompt(events) ==> !has_row(
                kept->Ok_0.prompts,
                key_is(prompt_row_key(), thread_id),
            )
        }),
{
    if snapshot_of(thread, thread) is Ok {
        let stored = with_snapshot(st, snapshot_of(thread, thread)->Ok_0, now as i64);
        let hit = key_is(prompt_row_key(), thread_id);
        let left = without(stored.prompts, hit);
        lemma_without_misses(stored.prompts, hit);
        lemma_position(left, hit, 0);
    }
}

/// The report of a follow run names its thread, and holds its events where it is asked to;
/// it is attached to what the command reported.
pub proof fn follow_reports_hold_the_events(
    thread_id: Seq<char>,
    duration: u64,
    events: Seq<JsonV>,
    result: JsonV,
    follow: JsonV,
    other: Seq<char>,
)
    requires
        result is Object,
        other != "follow"@,
    ensures
        text_member(follow_report(thread_id, duration, events, true), "action"@) == Some(
            "follow"@,
        ),
        text_member(follow_report(thread_id, duration, events, true), "threadId"@) == Some(
            thread_id,
        ),
        member(follow_report(thread_id, duration, events, true), "events"@) == Some(
            JsonV::Array(events),
        ),
        member(follow_report(thread_id, duration, events, false), "events"@) is None,
        text_member(follow_report(thread_id, duration, events, false), "threadId"@) == Some(
            thread_id,
        ),
        member(followed(result, follow, false), "follow"@) == Some(follow),
        member(followed(result, follow, false), other) == member(result, other),
        text_member(followed(result, follow, true), "type"@) == Some("command_result"@),
        member(followed(result, follow, true), "result"@) == Some(followed(result, follow, false)),
{
    broadcast use {empty_objects_have_no_members, pushed_members_are_found};

    reveal_strlit("ok");
    reveal_strlit("action");
    reveal_strlit("threadId");
    reveal_strlit("durationMs");
    reveal_strlit("events");
    reveal_strlit("type");
    reveal_strlit("result");
    assert("ok"@.len() == 2);
    assert("action"@.len() == 6);
    assert("threadId"@.len() == 8);
    assert("durationMs"@.len() == 10);
    assert("events"@.len() == 6);
    assert("type"@.len() == 4);
    assert("result"@.len() == 6);
    assert("action"@[0] != "events"@[0]);
    assert("action"@[0] != "result"@[0]);
    assert("events"@[0] != "result"@[0]);
    member_after_set(result->Object_0, "follow"@, follow, other);
}

/// A wait begins by reading the thread where nothing has ended yet, pauses a second after a
/// reading of a busy thread, and keeps each reading as an event.
pub proof fn waits_read_until_rest(
    thread_id: Seq<char>,
    events: Seq<JsonV>,
    duration: u64,
    now: u64,
    read: JsonV,
    thread: JsonV,
)
    requires
        !any_terminal(events),
        duration > 100,
        now + 20_000 <= u64::MAX,
        member(read, "thread"@) == Some(thread),
    ensures
        ({
            let (s, action) = settle_begun(thread_id, events, duration, None, now);
            let (after, next) = s.step(SettleInputV::Read(read), now);
            &&& action == SettleAction::ReadThread
            &&& s.deadline == now + 20_000
            &&& after.events == events.push(follow_snapshot(thread_id, thread))
            &&& last_turn_status(thread) == Some("completed"@) ==> next == SettleAction::Finish
            &&& last_turn_status(thread) != Some("completed"@) && !flags_are_waiting(thread)
                ==> next == SettleAction::Sleep(1000)
        }),
{
}

/// What was recorded of a follow run is told in the order in which it happened.
pub proof fn recorded_runs_are_told_in_order(
    thread_id: Seq<char>,
    duration: u64,
    poll: u64,
    thread: JsonV,
    started: JsonV,
    notifications: Seq<JsonV>,
)
    ensures
        recorded_follow(
            thread_id,
            duration,
            poll,
            Some(thread),
            Some(started),
            notifications,
            None,
        ) == seq![
            follow_started(thread_id, duration, poll),
            follow_snapshot(thread_id, thread),
            follow_turn_started(thread_id, started),
        ] + notification_events(notifications),
        recorded_follow(thread_id, duration, poll, None, None, notifications, None) == seq![
            follow_started(thread_id, duration, poll),
        ] + notification_events(notifications),
{
    let more = notification_events(notifications);
    let a = seq![
        follow_started(thread_id, duration, poll),
        follow_snapshot(thread_id, thread),
        follow_turn_started(thread_id, started),
    ];
    let b = seq![follow_started(thread_id, duration, poll)];
    lemma_all_follow_events(a, more, more.len());
    lemma_all_follow_events(b, more, more.len());
    assert(more.take(more.len() as int) =~= more);
    assert(Seq::<JsonV>::empty().push(follow_started(thread_id, duration, poll)) =~= b);
    assert(b.push(follow_snapshot(thread_id, thread)).push(
        follow_turn_started(thread_id, started),
    ) =~= a);
}

/// In a report, each event gets its own preview.
pub proof fn reports_show_the_full_previews(
    report: JsonV,
    events: Seq<JsonV>,
    previews: Seq<Option<Seq<char>>>,
    i: int,
)
    requires
        member(report, "events"@) == Some(JsonV::Array(events)),
        previews.len() == events.len(),
        0 <= i < events.len(),
    ensures
        array_value(member(previewed_report(report, previews), "events"@)) matches Some(told)
            && told.len() == events.len() && told[i] == previewed_event(events[i], previews[i]),
{
    let told = JsonV::Array(previewed_events(events, previews));
    assert(report is Object);
    let mid = set_member(report, "events"@, told);
    reveal_strlit("events");
    reveal_strlit("threads");
    assert("events"@.len() == 6);
    assert("threads"@.len() == 7);
    member_after_set(report->Object_0, "events"@, told, "threads"@);
    match array_value(member(mid, "threads"@)) {
        Some(threads) => {
            let shown = JsonV::Array(previewed_threads(threads, events, previews, events.len()));
            member_after_set(mid->Object_0, "threads"@, shown, "events"@);
        },
        None => {},
    }
}

/// A thread that is done is shown with its full preview in the list of threads.
pub proof fn finished_threads_are_listed_with_their_preview(
    threads: Seq<JsonV>,
    event: JsonV,
    id: Seq<char>,
    text: Seq<char>,
    i: int,
)
    requires
        text_member(event, "type"@) == Some("thread_completed"@),
        text_member(event, "threadId"@) == Some(id),
        0 <= i < threads.len(),
        threads[i] is Object,
        text_member(threads[i], "threadId"@) == Some(id),
        forall|k: int|
            0 <= k < i ==> text_member(#[trigger] threads[k], "threadId"@) != Some(id),
    ensures
        ({
            let shown = previewed_threads(threads, seq![event], seq![Some(text)], 1);
            &&& shown.len() == threads.len()
            &&& text_member(shown[i], "lastPreview"@) == Some(text)
            &&& text_member(shown[i], "threadId"@) == Some(id)
            &&& forall|k: int| 0 <= k < threads.len() && k != i ==> (#[trigger] shown[k]) == threads[k]
        }),
{
    let events = seq![event];
    let previews = seq![Some(text)];
    assert(events[0] == event && preview_at(previews, 0) == Some(text));
    reveal_with_fuel(previewed_threads, 2);
    let hit = thread_hit(id);
    assert forall|k: int| 0 <= k < i implies !hit(#[trigger] threads[k]) by {
        assert(text_member(threads[k], "threadId"@) != Some(id));
    }
    lemma_position_is(threads, hit, i);
    reveal_strlit("lastPreview");
    reveal_strlit("threadId");
    assert("lastPreview"@.len() == 11);
    assert("threadId"@.len() == 8);
    member_after_set(threads[i]->Object_0, "lastPreview"@, JsonV::Str(text), "threadId"@);
}

/// A follow run without a reading stores no snapshot; the prompt of its thread goes exactly
/// where an event says that it is done with.
pub proof fn follow_runs_without_a_reading_store_nothing(
    st: BridgeStateV,
    thread_id: Seq<char>,
    events: Seq<JsonV>,
    now: u64,
)
    requires
        last_reading(events, events.len()) is None,
    ensures
        follow_kept(st, thread_id, events, now) is Ok,
        follow_kept(st, thread_id, events, now)->Ok_0.threads == st.threads,
        !any_ends_prompt(events) ==> follow_kept(st, thread_id, events, now)->Ok_0 == st,
        any_ends_prompt(events) ==> !has_row(
            follow_kept(st, thread_id, events, now)->Ok_0.prompts,
            key_is(prompt_row_key(), thread_id),
        ),
{
    let hit = key_is(prompt_row_key(), thread_id);
    let left = without(st.prompts, hit);
    lemma_without_misses(st.prompts, hit);
    lemma_position(left, hit, 0);
}

} // verus!
