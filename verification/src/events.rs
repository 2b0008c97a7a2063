//! Events: choosing them by type, and making them from notifications, from
//! following a thread and from watching all threads.
use vstd::prelude::*;
use vstd::string::*;

use crate::error::BridgeError;
use crate::json::{
    array_value, Json, JsonV, member, Object, opt_member, or_null, set_member, text_member,
};
use crate::requests::{comma_list, split_commas};
use crate::table::{first_row, lemma_filter_step, position, put_row};
use crate::text::{same, str_is};
use crate::writing::{json_text, write_items};

verus! {

// ---------------------------------------------------------------------------
// Choosing events
// ---------------------------------------------------------------------------

/// The text is in the list.
pub open spec fn listed(items: Seq<Seq<char>>, text: Seq<char>) -> bool {
    exists|i: int| 0 <= i < items.len() && items[i] == text
}

/// Tells whether a text is in a list.
pub fn is_listed(items: &Vec<String>, text: &str) -> (r: bool)
    ensures
        r == listed(items.deep_view(), text@),
{
    let ghost all = items.deep_view();
    let mut i: usize = 0;
    while i < items.len()
        invariant
            i <= items@.len(),
            all == items.deep_view(),
            forall|k: int| 0 <= k < i ==> all[k] != text@,
        decreases items@.len() - i,
    {
        assert(all[i as int] == items@[i as int]@);
        if same(items[i].as_str(), text) {
            return true;
        }
        i += 1;
    }
    false
}

/// The first `n` items, each once.
pub open spec fn each_once(items: Seq<Seq<char>>, n: nat) -> Seq<Seq<char>>
    decreases n,
{
    if n == 0 || n > items.len() {
        Seq::empty()
    } else {
        let before = each_once(items, (n - 1) as nat);
        if listed(before, items[n - 1]) {
            before
        } else {
            before.push(items[n - 1])
        }
    }
}

/// The items, each once, in the order of their first occurrence.
pub fn without_repeats(items: &Vec<String>) -> (r: Vec<String>)
    ensures
        r.deep_view() == each_once(items.deep_view(), items@.len()),
{
    let ghost all = items.deep_view();
    let mut out: Vec<String> = Vec::new();
    let mut i: usize = 0;
    assert(out.deep_view() =~= Seq::<Seq<char>>::empty());
    while i < items.len()
        invariant
            i <= items@.len(),
            all == items.deep_view(),
            out.deep_view() == each_once(all, i as nat),
        decreases items@.len() - i,
    {
        assert(all[i as int] == items@[i as int]@);
        if !is_listed(&out, items[i].as_str()) {
            let ghost before = out.deep_view();
            out.push(items[i].clone());
            assert(out.deep_view() =~= before.push(all[i as int]));
        }
        i += 1;
    }
    out
}

/// Dropping repeats leaves no two equal items, and keeps every text that was listed.
pub proof fn repeats_are_dropped(items: Seq<Seq<char>>, n: nat, text: Seq<char>)
    requires
        n <= items.len(),
    ensures
        each_once(items, n).no_duplicates(),
        listed(each_once(items, n), text) <==> listed(items.take(n as int), text),
    decreases n,
{
    if n > 0 {
        let m = (n - 1) as nat;
        repeats_are_dropped(items, m, text);
        repeats_are_dropped(items, m, items[n - 1]);
        let before = each_once(items, m);
        let after = each_once(items, n);
        assert(items.take(n as int) =~= items.take(m as int).push(items[n - 1]));
        if listed(items.take(m as int), text) {
            let k = choose|k: int| 0 <= k < m && items.take(m as int)[k] == text;
            assert(items.take(n as int)[k] == text);
        }
        if listed(items.take(n as int), text) && text != items[n - 1] {
            let k = choose|k: int| 0 <= k < n && items.take(n as int)[k] == text;
            assert(items.take(m as int)[k] == text);
        }
        if text == items[n - 1] {
            assert(items.take(n as int)[n - 1] == text);
        }
        if !listed(before, items[n - 1]) {
            assert(after[after.len() - 1] == items[n - 1]);
            if listed(before, text) {
                let k = choose|k: int| 0 <= k < before.len() && before[k] == text;
                assert(after[k] == text);
            }
            if listed(after, text) {
                let k = choose|k: int| 0 <= k < after.len() && after[k] == text;
                if k < before.len() {
                    assert(before[k] == text);
                }
            }
            assert forall|i: int, j: int|
                0 <= i < after.len() && 0 <= j < after.len() && i != j implies after[i]
                != after[j] by {
                if j == before.len() {
                    assert(before[i] != items[n - 1]);
                } else if i == before.len() {
                    assert(before[j] != items[n - 1]);
                }
            }
        }
    } else {
        assert(items.take(0).len() == 0);
    }
}

/// The types of events that a filter names; none where it names none.
pub open spec fn event_filter(input: Option<Seq<char>>) -> Option<Seq<Seq<char>>> {
    match input {
        Some(list) => {
            let kinds = comma_list(list);
            if kinds.len() > 0 {
                Some(each_once(kinds, kinds.len()))
            } else {
                None
            }
        },
        None => None,
    }
}

/// The types of events that a filter names; none where it names none.
pub fn parse_event_filter(input: Option<&str>) -> (r: Option<Vec<String>>)
    ensures
        r.deep_view() == event_filter(input.deep_view()),
{
    match input {
        Some(list) => {
            let kinds = split_commas(list);
            if kinds.len() > 0 {
                Some(without_repeats(&kinds))
            } else {
                None
            }
        },
        None => None,
    }
}

/// An event passes a filter: without a filter always, else when its type is named.
pub open spec fn emits(filter: Option<Seq<Seq<char>>>, event: JsonV) -> bool {
    match filter {
        None => true,
        Some(kinds) => match text_member(event, "type"@) {
            Some(kind) => listed(kinds, kind),
            None => false,
        },
    }
}

/// Tells whether an event passes a filter.
pub fn should_emit_event(filter: Option<&Vec<String>>, event: &Json) -> (r: bool)
    ensures
        r == emits(filter.deep_view(), event@),
{
    match filter {
        None => true,
        Some(kinds) => match event.get_text("type") {
            Some(kind) => is_listed(kinds, kind),
            None => false,
        },
    }
}

/// The events that pass a filter.
pub open spec fn emitted(events: Seq<JsonV>, filter: Option<Seq<Seq<char>>>) -> Seq<JsonV> {
    events.filter(|e: JsonV| emits(filter, e))
}

/// The events that pass a filter.
pub fn filter_watch_events(events: Vec<Json>, filter: Option<&Vec<String>>) -> (r: Vec<Json>)
    ensures
        r.deep_view() == emitted(events.deep_view(), filter.deep_view()),
{
    let ghost given = events@;
    let ghost models = events.deep_view();
    let ghost keep = |e: JsonV| emits(filter.deep_view(), e);
    let mut out: Vec<Json> = Vec::new();
    assert(out.deep_view() =~= models.take(0).filter(keep)) by {
        reveal(Seq::filter);
    }
    for event in it: events
        invariant
            it.seq() == given,
            models == Seq::new(given.len(), |i: int| given[i]@),
            keep == (|e: JsonV| emits(filter.deep_view(), e)),
            out.deep_view() == models.take(it.index()).filter(keep),
    {
        proof {
            lemma_filter_step(models, keep, it.index());
            assert(models[it.index()] == event@);
        }
        let ghost before = out.deep_view();
        if should_emit_event(filter, &event) {
            out.push(event);
            assert(out.deep_view() =~= before.push(event@));
        }
    }
    assert(models.take(models.len() as int) =~= models);
    out
}

/// A filter lets only the named types pass, and without one everything passes.
pub proof fn filters_choose_by_type(events: Seq<JsonV>, filter: Option<Seq<Seq<char>>>, i: int)
    requires
        0 <= i < emitted(events, filter).len(),
    ensures
        emits(filter, emitted(events, filter)[i]),
        filter is None ==> emitted(events, filter) == events,
{
    let keep = |e: JsonV| emits(filter, e);
    events.lemma_filter_pred(keep, i);
    if filter is None {
        lemma_filter_all(events, keep);
    }
}

proof fn lemma_filter_all(events: Seq<JsonV>, keep: spec_fn(JsonV) -> bool)
    requires
        forall|e: JsonV| #[trigger] keep(e),
    ensures
        events.filter(keep) == events,
    decreases events.len(),
{
    reveal(Seq::filter);
    if events.len() > 0 {
        lemma_filter_all(events.drop_last(), keep);
        assert(events.drop_last().push(events.last()) =~= events);
    }
}

// ---------------------------------------------------------------------------
// Notifications
// ---------------------------------------------------------------------------

/// A parameter of a notification, or null.
pub open spec fn param(notification: JsonV, key: Seq<char>) -> JsonV {
    or_null(opt_member(member(notification, "params"@), key))
}

/// A parameter of a notification, or null.
fn param_of(notification: &Json, key: &str) -> (r: Json)
    ensures
        r@ == param(notification@, key@),
{
    match notification.get("params") {
        Some(params) => params.get_or_null(key),
        None => Json::Null,
    }
}

/// An event of a turn.
pub open spec fn turn_event(kind: Seq<char>, key: Seq<char>, notification: JsonV) -> JsonV {
    JsonV::Object(
        Seq::empty()
            .push(("type"@, JsonV::Str(kind)))
            .push(("threadId"@, param(notification, "threadId"@)))
            .push((key, param(notification, key)))
            .push(("raw"@, notification)),
    )
}

/// An event of an item.
pub open spec fn item_event(kind: Seq<char>, notification: JsonV) -> JsonV {
    JsonV::Object(
        Seq::empty()
            .push(("type"@, JsonV::Str(kind)))
            .push(("threadId"@, param(notification, "threadId"@)))
            .push(("turnId"@, param(notification, "turnId"@)))
            .push(("item"@, param(notification, "item"@)))
            .push(("raw"@, notification)),
    )
}

/// The event of a notification.
pub open spec fn notification_event(notification: JsonV) -> JsonV {
    let method = text_member(notification, "method"@);
    if method == Some("thread/status/changed"@) {
        turn_event("thread_status_changed"@, "status"@, notification)
    } else if method == Some("turn/started"@) {
        turn_event("turn_started"@, "turn"@, notification)
    } else if method == Some("turn/completed"@) {
        turn_event("turn_completed"@, "turn"@, notification)
    } else if method == Some("item/started"@) {
        item_event("item_started"@, notification)
    } else if method == Some("item/completed"@) {
        item_event("item_completed"@, notification)
    } else {
        JsonV::Object(
            Seq::empty()
                .push(("type"@, JsonV::Str("notification"@)))
                .push(("raw"@, notification)),
        )
    }
}

/// An event of a turn.
fn turn_event_of(kind: &str, key: &str, notification: &Json) -> (r: Json)
    ensures
        r@ == turn_event(kind@, key@, notification@),
{
    Object::new().with("type", Json::text(kind)).with(
        "threadId",
        param_of(notification, "threadId"),
    ).with(key, param_of(notification, key)).with("raw", notification.clone()).done()
}

/// An event of an item.
fn item_event_of(kind: &str, notification: &Json) -> (r: Json)
    ensures
        r@ == item_event(kind@, notification@),
{
    Object::new().with("type", Json::text(kind)).with(
        "threadId",
        param_of(notification, "threadId"),
    ).with("turnId", param_of(notification, "turnId")).with(
        "item",
        param_of(notification, "item"),
    ).with("raw", notification.clone()).done()
}

/// The event of a notification.
pub fn normalize_notification_event(notification: &Json) -> (r: Json)
    ensures
        r@ == notification_event(notification@),
{
    let method = notification.get_text("method");
    if str_is(method, "thread/status/changed") {
        turn_event_of("thread_status_changed", "status", notification)
    } else if str_is(method, "turn/started") {
        turn_event_of("turn_started", "turn", notification)
    } else if str_is(method, "turn/completed") {
        turn_event_of("turn_completed", "turn", notification)
    } else if str_is(method, "item/started") {
        item_event_of("item_started", notification)
    } else if str_is(method, "item/completed") {
        item_event_of("item_completed", notification)
    } else {
        Object::new().with("type", Json::text("notification")).with(
            "raw",
            notification.clone(),
        ).done()
    }
}

/// The events of notifications.
pub open spec fn notification_events(notifications: Seq<JsonV>) -> Seq<JsonV> {
    notifications.map_values(|n: JsonV| notification_event(n))
}

/// The events of notifications.
pub fn normalize_notifications(notifications: &Vec<Json>) -> (r: Vec<Json>)
    ensures
        r.deep_view() == notification_events(notifications.deep_view()),
{
    let mut out: Vec<Json> = Vec::new();
    let mut i: usize = 0;
    while i < notifications.len()
        invariant
            i <= notifications@.len(),
            out@.len() == i,
            forall|k: int|
                0 <= k < i ==> (#[trigger] out@[k])@ == notification_event(notifications@[k]@),
        decreases notifications@.len() - i,
    {
        out.push(normalize_notification_event(&notifications[i]));
        i += 1;
    }
    assert(out.deep_view() =~= notification_events(notifications.deep_view()));
    out
}

// ---------------------------------------------------------------------------
// Watching all threads
// ---------------------------------------------------------------------------

/// The event of a failed synchronisation.
pub open spec fn thread_error(message: Seq<char>) -> JsonV {
    JsonV::Object(
        Seq::empty()
            .push(("type"@, JsonV::Str("thread_error"@)))
            .push(("message"@, JsonV::Str(message))),
    )
}

/// The event of a failed synchronisation: it tells the failure without its causes.
pub fn watch_thread_error_event(error: &BridgeError) -> (r: Json)
    ensures
        r@ == thread_error(error@.message),
{
    Object::new().with("type", Json::text("thread_error")).with(
        "message",
        Json::Str(error.message.clone()),
    ).done()
}

/// A thread object with this id.
pub open spec fn thread_hit(id: Seq<char>) -> spec_fn(JsonV) -> bool {
    |t: JsonV| text_member(t, "threadId"@) == Some(id)
}

/// An event together with its thread, where that is known.
pub open spec fn with_thread(event: JsonV, threads: Seq<JsonV>) -> JsonV {
    match text_member(event, "threadId"@) {
        Some(id) => match first_row(threads, thread_hit(id)) {
            Some(thread) => set_member(event, "thread"@, thread),
            None => event,
        },
        None => event,
    }
}

/// The index of the thread object with this id, or the number of threads.
fn find_thread_object(threads: &Vec<Json>, id: &str) -> (p: usize)
    ensures
        p <= threads@.len(),
        p == position(threads.deep_view(), thread_hit(id@), 0),
{
    let mut i: usize = 0;
    while i < threads.len()
        invariant
            i <= threads@.len(),
            position(threads.deep_view(), thread_hit(id@), 0) == position(
                threads.deep_view(),
                thread_hit(id@),
                i as nat,
            ),
        decreases threads@.len() - i,
    {
        assert(threads.deep_view()[i as int] == threads@[i as int]@);
        if str_is(threads[i].get_text("threadId"), id) {
            return i;
        }
        i += 1;
    }
    i
}

/// An event together with its thread, where that is known.
pub fn enrich_event_with_thread(event: Json, threads: &Vec<Json>) -> (r: Json)
    ensures
        r@ == with_thread(event@, threads.deep_view()),
{
    let id: String = match event.text_of_member("threadId") {
        Some(v) => v,
        None => {
            return event;
        },
    };
    let k: usize = find_thread_object(threads, id.as_str());
    if k < threads.len() {
        assert(threads.deep_view()[k as int] == threads@[k as int]@);
        let mut enriched = event;
        enriched.set("thread", threads[k].clone());
        enriched
    } else {
        event
    }
}

/// The items of the array member `key`, or none.
pub open spec fn array_or_none(v: JsonV, key: Seq<char>) -> Seq<JsonV> {
    match array_value(member(v, key)) {
        Some(items) => items,
        None => Seq::empty(),
    }
}

/// The items of the array member `key`, or none.
pub fn array_items(v: &Json, key: &str) -> (r: Vec<Json>)
    ensures
        r.deep_view() == array_or_none(v@, key@),
{
    let mut out: Vec<Json> = Vec::new();
    match v.get(key) {
        Some(a) => match a.as_array() {
            Some(items) => {
                let mut i: usize = 0;
                while i < items.len()
                    invariant
                        i <= items@.len(),
                        out@.len() == i,
                        forall|k: int| 0 <= k < i ==> (#[trigger] out@[k])@ == items@[k]@,
                    decreases items@.len() - i,
                {
                    out.push(items[i].clone());
                    i += 1;
                }
                assert(out.deep_view() =~= items.deep_view());
            },
            None => {
                assert(out.deep_view() =~= Seq::<JsonV>::empty());
            },
        },
        None => {
            assert(out.deep_view() =~= Seq::<JsonV>::empty());
        },
    }
    out
}

/// The events of a synchronisation and of notifications, each with its thread, after a filter.
pub open spec fn watched(
    sync_result: JsonV,
    notifications: Seq<JsonV>,
    filter: Option<Seq<Seq<char>>>,
) -> Seq<JsonV> {
    let threads = array_or_none(sync_result, "threads"@);
    let events = array_or_none(sync_result, "events"@) + notification_events(notifications);
    emitted(events.map_values(|e: JsonV| with_thread(e, threads)), filter)
}

/// The events of a synchronisation and of notifications, each with its thread, after a filter.
pub fn watch_events_from_sync_result(
    sync_result: &Json,
    notifications: &Vec<Json>,
    filter: Option<&Vec<String>>,
) -> (r: Vec<Json>)
    ensures
        r.deep_view() == watched(
            sync_result@,
            notifications.deep_view(),
            filter.deep_view(),
        ),
{
    let threads = array_items(sync_result, "threads");
    let mut events = array_items(sync_result, "events");
    let mut more = normalize_notifications(notifications);
    let ghost a = events.deep_view();
    let ghost b = more.deep_view();
    events.append(&mut more);
    let ghost all = events.deep_view();
    assert(all =~= a + b);
    let ghost given = events@;
    let mut out: Vec<Json> = Vec::new();
    for event in it: events
        invariant
            it.seq() == given,
            out@.len() == it.index(),
            forall|k: int|
                0 <= k < it.index() ==> (#[trigger] out@[k])@ == with_thread(
                    given[k]@,
                    threads.deep_view(),
                ),
    {
        out.push(enrich_event_with_thread(event, &threads));
    }
    assert(out.deep_view() =~= all.map_values(|e: JsonV| with_thread(e, threads.deep_view())));
    filter_watch_events(out, filter)
}

/// The events of a round as the watch remembers them.
pub open spec fn written_events(events: Seq<JsonV>) -> Seq<char> {
    json_text(JsonV::Array(events))
}

/// What the watch remembers of the events of a round that it tells; none where they are
/// those that it remembers from the round before, which are not told again.
pub fn watch_changed(last: &str, events: &Vec<Json>) -> (r: Option<String>)
    ensures
        r.deep_view() == (if written_events(events.deep_view()) == last@ {
            None
        } else {
            Some(written_events(events.deep_view()))
        }),
{
    let seen = write_items(events);
    if same(seen.as_str(), last) {
        None
    } else {
        Some(seen)
    }
}

/// A watch that remembers nothing yet tells its first round, and a round is remembered by
/// a text that is not empty.
pub proof fn the_first_round_is_told(events: Seq<JsonV>)
    ensures
        written_events(events) != ""@,
{
    reveal_strlit("");
    reveal_strlit("[");
    assert(written_events(events).len() >= 1);
    assert(""@.len() == 0);
}

// ---------------------------------------------------------------------------
// Full previews of completed threads
// ---------------------------------------------------------------------------

/// The thread whose full preview an event asks for: that of a completed thread.
pub open spec fn preview_wanted(event: JsonV) -> Option<Seq<char>> {
    if text_member(event, "type"@) == Some("thread_completed"@) {
        text_member(event, "threadId"@)
    } else {
        None
    }
}

/// The thread whose full preview an event asks for.
pub fn wants_full_preview(event: &Json) -> (r: Option<String>)
    ensures
        r.deep_view() == preview_wanted(event@),
{
    if str_is(event.get_text("type"), "thread_completed") {
        event.text_of_member("threadId")
    } else {
        None
    }
}

/// A preview at an index, where there is one.
pub open spec fn preview_at(previews: Seq<Option<Seq<char>>>, i: int) -> Option<Seq<char>> {
    if 0 <= i < previews.len() {
        previews[i]
    } else {
        None
    }
}

/// An event with the full preview of its thread.
pub open spec fn previewed_event(event: JsonV, preview: Option<Seq<char>>) -> JsonV {
    match (preview_wanted(event), preview) {
        (Some(_), Some(text)) => set_member(event, "lastPreview"@, JsonV::Str(text)),
        _ => event,
    }
}

/// The events with the full previews of their threads.
pub open spec fn previewed_events(
    events: Seq<JsonV>,
    previews: Seq<Option<Seq<char>>>,
) -> Seq<JsonV> {
    Seq::new(events.len(), |i: int| previewed_event(events[i], preview_at(previews, i)))
}

/// The threads with the full previews that the first `n` events brought.
pub open spec fn previewed_threads(
    threads: Seq<JsonV>,
    events: Seq<JsonV>,
    previews: Seq<Option<Seq<char>>>,
    n: nat,
) -> Seq<JsonV>
    decreases n,
{
    if n == 0 || n > events.len() {
        threads
    } else {
        let before = previewed_threads(threads, events, previews, (n - 1) as nat);
        match (preview_wanted(events[n - 1]), preview_at(previews, n - 1)) {
            (Some(id), Some(text)) => match first_row(before, thread_hit(id)) {
                Some(thread) => put_row(
                    before,
                    thread_hit(id),
                    set_member(thread, "lastPreview"@, JsonV::Str(text)),
                ),
                None => before,
            },
            _ => before,
        }
    }
}

/// The report of a synchronisation with the full previews of its completed threads.
pub open spec fn previewed_report(
    sync_result: JsonV,
    previews: Seq<Option<Seq<char>>>,
) -> JsonV {
    match array_value(member(sync_result, "events"@)) {
        None => sync_result,
        Some(events) => {
            let told = set_member(
                sync_result,
                "events"@,
                JsonV::Array(previewed_events(events, previews)),
            );
            match array_value(member(told, "threads"@)) {
                Some(threads) => set_member(
                    told,
                    "threads"@,
                    JsonV::Array(previewed_threads(threads, events, previews, events.len())),
                ),
                None => told,
            }
        },
    }
}

/// Puts the full previews of completed threads into the report of a synchronisation. The
/// previews stand at the indexes of their events; one that could not be had is missing.
pub fn enrich_completed_event_previews(
    sync_result: Json,
    previews: &Vec<Option<String>>,
) -> (r: Json)
    ensures
        r@ == previewed_report(sync_result@, previews.deep_view()),
{
    let ghost texts = previews.deep_view();
    let has_events: bool = match sync_result.get("events") {
        Some(v) => v.as_array().is_some(),
        None => false,
    };
    if !has_events {
        return sync_result;
    }
    let events = array_items(&sync_result, "events");
    let ghost all = events.deep_view();
    let mut told: Vec<Json> = Vec::new();
    let mut i: usize = 0;
    while i < events.len()
        invariant
            i <= events@.len(),
            all == events.deep_view(),
            texts == previews.deep_view(),
            told@.len() == i,
            forall|k: int|
                0 <= k < i ==> (#[trigger] told@[k])@ == previewed_event(
                    all[k],
                    preview_at(texts, k),
                ),
        decreases events@.len() - i,
    {
        assert(all[i as int] == events@[i as int]@);
        let mut event = events[i].clone();
        if i < previews.len() && wants_full_preview(&event).is_some() {
            assert(texts[i as int] == previews@[i as int].deep_view());
            match &previews[i] {
                Some(text) => {
                    event.set("lastPreview", Json::Str(text.clone()));
                },
                None => {},
            }
        }
        told.push(event);
        i += 1;
    }
    assert(told.deep_view() =~= previewed_events(all, texts));
    let mut report = sync_result;
    report.set("events", Json::array(told));
    let has_threads: bool = match report.get("threads") {
        Some(v) => v.as_array().is_some(),
        None => false,
    };
    if !has_threads {
        return report;
    }
    let mut threads = array_items(&report, "threads");
    let ghost known = threads.deep_view();
    let mut n: usize = 0;
    while n < events.len()
        invariant
            n <= events@.len(),
            all == events.deep_view(),
            texts == previews.deep_view(),
            threads.deep_view() == previewed_threads(known, all, texts, n as nat),
        decreases events@.len() - n,
    {
        assert(all[n as int] == events@[n as int]@);
        if n < previews.len() {
            assert(texts[n as int] == previews@[n as int].deep_view());
            match (wants_full_preview(&events[n]), &previews[n]) {
                (Some(id), Some(text)) => {
                    let ghost before = threads.deep_view();
                    let k: usize = find_thread_object(&threads, id.as_str());
                    if k < threads.len() {
                        assert(before[k as int] == threads@[k as int]@);
                        let mut thread = threads[k].clone();
                        thread.set("lastPreview", Json::Str(text.clone()));
                        threads[k] = thread;
                        assert(threads.deep_view() =~= before.update(k as int, thread@));
                    }
                },
                _ => {},
            }
        }
        n += 1;
    }
    report.set("threads", Json::array(threads));
    report
}

} // verus!
