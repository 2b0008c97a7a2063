//! What holds of the lists over the stored threads: which rows they hold, in what order, and
//! what is archived by them.
use vstd::prelude::*;
use vstd::string::*;

use crate::error::BridgeErrorV;
use crate::inbox::{
    active_rows, archive_entries, archive_entry, archive_outcome, archive_selection, by_score,
    cached_events, cached_waiting_event, dir_called, dirs_upto, holds_text, inbox_keeps, inbox_list,
    inbox_result, inbox_row, inbox_scan, inbox_snapshot, InboxFilterV, last_active,
    needs_confirmation, note_seen, ObservedRowV, project_passes, recent_list, unarchive_payload,
    unarchive_report, waiting_list, waiting_result, waiting_scan, waiting_thread, WaitingThreadV,
    workspace,
};
use crate::json::{
    empty_objects_have_no_members, JsonV, member, pushed_members_are_found, text_member,
};
use crate::laws_threads::{prompts_need_the_user, threads_without_a_prompt_need_nobody};
use crate::order::{payloads, sorted_desc, sorting_is_stable};
use crate::state::{BridgeStateV, prompt_row_key, PromptRowV, thread_row_key, ThreadRowV};
use crate::table::{first_row, key_is, lemma_position, position};
use crate::text::{contains_text, unicode_lowercase};
use crate::thread::{BridgeThreadSnapshotV, display_name, InboxItemV, project_label};

verus! {

// ---------------------------------------------------------------------------
// Sorting keeps what is sorted
// ---------------------------------------------------------------------------

proof fn lemma_sorted_holds<T>(rows: Seq<(i128, T)>, x: (i128, T))
    ensures
        sorted_desc(rows).contains(x) <==> rows.contains(x),
{
    broadcast use vstd::seq_lib::group_to_multiset_ensures;

    sorting_is_stable(rows);
    assert(sorted_desc(rows).contains(x) <==> sorted_desc(rows).to_multiset().count(x) > 0);
    assert(rows.contains(x) <==> rows.to_multiset().count(x) > 0);
}

/// What is sorted is what was given.
proof fn lemma_sorted_payloads<T>(rows: Seq<(i128, T)>, item: T)
    ensures
        payloads(sorted_desc(rows)).contains(item) <==> exists|k: int|
            0 <= k < rows.len() && (#[trigger] rows[k]).1 == item,
        payloads(sorted_desc(rows)).len() == rows.len(),
{
    sorting_is_stable(rows);
    let sorted = sorted_desc(rows);
    if payloads(sorted).contains(item) {
        let i = choose|i: int| 0 <= i < payloads(sorted).len() && payloads(sorted)[i] == item;
        assert(sorted.contains(sorted[i]));
        lemma_sorted_holds(rows, sorted[i]);
        let k = choose|k: int| 0 <= k < rows.len() && rows[k] == sorted[i];
        assert(rows[k].1 == item);
    }
    if exists|k: int| 0 <= k < rows.len() && (#[trigger] rows[k]).1 == item {
        let k = choose|k: int| 0 <= k < rows.len() && (#[trigger] rows[k]).1 == item;
        assert(rows.contains(rows[k]));
        lemma_sorted_holds(rows, rows[k]);
        let i = choose|i: int| 0 <= i < sorted.len() && sorted[i] == rows[k];
        assert(payloads(sorted)[i] == item);
    }
}

/// A sequence that is filtered holds what it held and what is wanted.
proof fn lemma_filter_holds<T>(s: Seq<T>, keep: spec_fn(T) -> bool, x: T)
    ensures
        s.filter(keep).contains(x) <==> s.contains(x) && keep(x),
    decreases s.len(),
{
    reveal(Seq::filter);
    if s.len() > 0 {
        let front = s.drop_last();
        lemma_filter_holds(front, keep, x);
        let kept = front.filter(keep);
        if s.contains(x) {
            let i = choose|i: int| 0 <= i < s.len() && s[i] == x;
            if i < front.len() {
                assert(front[i] == x);
                if keep(x) {
                    let j = choose|j: int| 0 <= j < kept.len() && kept[j] == x;
                    assert(s.filter(keep)[j] == x);
                }
            } else if keep(x) {
                assert(s.filter(keep)[kept.len() as int] == x);
            }
        }
        if s.filter(keep).contains(x) {
            let j = choose|j: int| 0 <= j < s.filter(keep).len() && s.filter(keep)[j] == x;
            if j < kept.len() {
                assert(kept[j] == x);
                let i = choose|i: int| 0 <= i < front.len() && front[i] == x;
                assert(s[i] == x);
            } else {
                assert(s[s.len() - 1] == x);
            }
        }
    }
}

// ---------------------------------------------------------------------------
// The inbox
// ---------------------------------------------------------------------------

/// The directory holds the wanted text, whatever the size of the letters.
pub open spec fn lies_in_project(cwd: Option<Seq<char>>, wanted: Seq<char>) -> bool {
    contains_text(
        unicode_lowercase(
            if cwd is Some {
                cwd->0
            } else {
                Seq::empty()
            },
        ),
        unicode_lowercase(wanted),
    )
}

/// A row meets every filter that is given, each by its own field.
pub open spec fn meets(item: InboxItemV, f: InboxFilterV) -> bool {
    &&& f.project matches Some(wanted) ==> lies_in_project(item.cwd, wanted)
    &&& f.status matches Some(wanted) ==> item.status_type == wanted
    &&& f.attention matches Some(wanted) ==> item.attention_reason == wanted
    &&& f.waiting_on matches Some(wanted) ==> item.waiting_on == wanted
}

/// Every row of the inbox meets every filter that is given; and, where no limit cuts the
/// list, every stored thread whose row meets them is listed.
pub proof fn inbox_filters_hold(
    st: BridgeStateV,
    now: u64,
    f: InboxFilterV,
    limit: u64,
    i: int,
    k: int,
)
    requires
        inbox_list(st, now, f, limit) is Ok,
    ensures
        0 <= i < inbox_list(st, now, f, limit)->Ok_0.items.len() ==> meets(
            inbox_list(st, now, f, limit)->Ok_0.items[i],
            f,
        ),
        0 <= i < inbox_list(st, now, f, limit)->Ok_0.items.len() ==> exists|t: int|
            0 <= t < st.threads.len() && inbox_row(st, #[trigger] st.threads[t], now) == Some(
                inbox_list(st, now, f, limit)->Ok_0.items[i],
            ),
        0 <= k < st.threads.len() ==> inbox_row(st, st.threads[k], now) is Some,
        0 <= k < st.threads.len() && meets(inbox_row(st, st.threads[k], now)->0, f) && (limit == 0
            || inbox_list(st, now, f, limit)->Ok_0.items.len() < limit)
            ==> inbox_list(st, now, f, limit)->Ok_0.items.contains(
            inbox_row(st, st.threads[k], now)->0,
        ),
        limit > 0 ==> inbox_list(st, now, f, limit)->Ok_0.items.len() <= limit,
{
    let rows = inbox_scan(st, now, st.threads.len())->0;
    let all = payloads(sorted_desc(rows));
    let kept = all.filter(inbox_keeps(f));
    let keyed = by_score(kept);
    let ranked = payloads(sorted_desc(keyed));
    let items = inbox_list(st, now, f, limit)->Ok_0.items;
    lemma_inbox_scan(st, now, st.threads.len());
    lemma_sorted_payloads(keyed, ranked[0]);
    if 0 <= i < items.len() {
        let item = items[i];
        assert(ranked[i] == item);
        assert(ranked.contains(item));
        lemma_sorted_payloads(keyed, item);
        let j = choose|j: int| 0 <= j < keyed.len() && (#[trigger] keyed[j]).1 == item;
        assert(kept[j] == item);
        assert(kept.contains(item));
        lemma_filter_holds(all, inbox_keeps(f), item);
        lemma_sorted_payloads(rows, item);
        let m = choose|m: int| 0 <= m < rows.len() && (#[trigger] rows[m]).1 == item;
        assert(inbox_row(st, st.threads[m], now) == Some(item));
    }
    if 0 <= k < st.threads.len() {
        let item = inbox_row(st, st.threads[k], now)->0;
        assert(rows[k].1 == item);
        if meets(item, f) && (limit == 0 || items.len() < limit) {
            lemma_sorted_payloads(rows, item);
            lemma_filter_holds(all, inbox_keeps(f), item);
            assert(inbox_keeps(f)(item));
            let j = choose|j: int| 0 <= j < kept.len() && kept[j] == item;
            assert(keyed[j].1 == item);
            lemma_sorted_payloads(keyed, item);
            assert(items =~= ranked);
        }
    }
}

proof fn lemma_inbox_scan(st: BridgeStateV, now: u64, n: nat)
    requires
        n <= st.threads.len(),
        inbox_scan(st, now, n) is Some,
    ensures
        inbox_scan(st, now, n)->0.len() == n,
        forall|k: int|
            0 <= k < n ==> inbox_row(st, #[trigger] st.threads[k], now) == Some(
                inbox_scan(st, now, n)->0[k].1,
            ),
    decreases n,
{
    if n > 0 {
        lemma_inbox_scan(st, now, (n - 1) as nat);
    }
}

/// A row of the inbox is made of what is stored of its thread and of its prompt.
pub proof fn inbox_rows_show_what_is_stored(st: BridgeStateV, t: ThreadRowV, now: u64)
    requires
        inbox_row(st, t, now) is Some,
    ensures
        ({
            let item = inbox_row(st, t, now)->0;
            let prompt = first_row(st.prompts, key_is(prompt_row_key(), t.thread_id));
            &&& item.thread_id == t.thread_id
            &&& item.name == t.name
            &&& item.cwd == t.cwd
            &&& item.status_type == t.status_type
            &&& item.status_flags == t.status_flags
            &&& t.updated_at is None <==> item.updated_at is None
            &&& t.updated_at matches Some(u) ==> u >= 0 && item.updated_at->0 == u
            &&& item.last_seen_at == Some(t.last_seen_at as u64)
            &&& prompt is None ==> item.prompt_kind is None
            &&& prompt matches Some(p) ==> item.prompt_kind == Some(p.prompt_kind)
                && item.prompt_status == Some(p.prompt_status)
            &&& prompt matches Some(p) ==> (p.prompt_kind == "approval"@ ==> item.attention_reason
                == "pending_approval"@ && item.waiting_on == "me"@)
            &&& prompt matches Some(p) ==> (p.prompt_kind == "reply"@ ==> item.attention_reason
                == "needs_reply"@ && item.waiting_on == "me"@)
            &&& prompt is None && t.last_turn_status == Some("completed"@)
                ==> item.attention_reason == "completed"@ && item.waiting_on == "none"@
        }),
{
    let prompt = first_row(st.prompts, key_is(prompt_row_key(), t.thread_id));
    let s = inbox_snapshot(t, prompt);
    match s.pending_prompt {
        Some(p) => {
            prompts_need_the_user(s, now, p);
        },
        None => {
            threads_without_a_prompt_need_nobody(s, now);
        },
    }
}

/// The summary of the inbox counts its rows, and says by what it was filtered.
pub proof fn inbox_summaries_count(items: Seq<InboxItemV>, f: InboxFilterV, limit: u64)
    requires
        items.len() <= u32::MAX,
    ensures
        ({
            let s = inbox_result(items, f, limit).summary;
            let with_reason = |reason: Seq<char>|
                items.filter(|item: InboxItemV| item.attention_reason == reason).len();
            &&& s.total == items.len()
            &&& s.needs_attention == items.filter(|item: InboxItemV| item.waiting_on == "me"@).len()
            &&& member(s.counts_by_reason, "pendingApproval"@) == Some(
                JsonV::UInt(with_reason("pending_approval"@) as u64),
            )
            &&& member(s.counts_by_reason, "needsReply"@) == Some(
                JsonV::UInt(with_reason("needs_reply"@) as u64),
            )
            &&& member(s.counts_by_reason, "active"@) == Some(
                JsonV::UInt(with_reason("active"@) as u64),
            )
            &&& member(s.counts_by_reason, "completed"@) == Some(
                JsonV::UInt(with_reason("completed"@) as u64),
            )
            &&& text_member(s.applied_filters, "project"@) == f.project
            &&& text_member(s.applied_filters, "status"@) == f.status
            &&& text_member(s.applied_filters, "attention"@) == f.attention
            &&& text_member(s.applied_filters, "waitingOn"@) == f.waiting_on
            &&& member(s.applied_filters, "limit"@) == Some(JsonV::UInt(limit))
            &&& inbox_result(items, f, limit).items == items
        }),
{
    broadcast use {
        empty_objects_have_no_members,
        pushed_members_are_found,
        vstd::seq_lib::group_filter_ensures,
    };

    reveal_strlit("pendingApproval");
    reveal_strlit("needsReply");
    reveal_strlit("active");
    reveal_strlit("completed");
    reveal_strlit("project");
    reveal_strlit("status");
    reveal_strlit("attention");
    reveal_strlit("waitingOn");
    reveal_strlit("limit");
    assert("pendingApproval"@.len() == 15);
    assert("needsReply"@.len() == 10);
    assert("active"@.len() == 6);
    assert("completed"@.len() == 9);
    assert("project"@.len() == 7);
    assert("status"@.len() == 6);
    assert("attention"@.len() == 9);
    assert("waitingOn"@.len() == 9);
    assert("limit"@.len() == 5);
    assert("active"@[0] != "status"@[0]);
    assert("completed"@[0] != "attention"@[0]);
    assert("completed"@[0] != "waitingOn"@[0]);
    assert("attention"@[0] != "waitingOn"@[0]);
    let me = items.filter(|item: InboxItemV| item.waiting_on == "me"@);
    assert(me.len() <= items.len());
    let reasons = |reason: Seq<char>|
        items.filter(|item: InboxItemV| item.attention_reason == reason);
    assert(reasons("pending_approval"@).len() <= items.len());
}

// ---------------------------------------------------------------------------
// Threads that wait
// ---------------------------------------------------------------------------

/// Every prompt of a stored thread is listed where no limit cuts the list and the thread lies
/// in the project that is asked for; and what is listed waits.
pub proof fn waiting_threads_are_listed(
    st: BridgeStateV,
    project: Option<Seq<char>>,
    limit: u64,
    i: int,
    k: int,
)
    requires
        waiting_list(st, project, limit) is Ok,
    ensures
        0 <= k < st.prompts.len() && thread_of_prompt(st, k) is Some && (project is None
            || lies_in_project(thread_of_prompt(st, k)->0.cwd, project->0)) && (limit == 0
            || waiting_list(st, project, limit)->Ok_0.threads.len() < limit) ==> exists|j: int|
            0 <= j < waiting_list(st, project, limit)->Ok_0.threads.len() && waits_by(
                #[trigger] waiting_list(st, project, limit)->Ok_0.threads[j],
                thread_of_prompt(st, k)->0,
                st.prompts[k],
            ),
        0 <= i < waiting_list(st, project, limit)->Ok_0.threads.len() ==> exists|j: int|
            0 <= j < st.prompts.len() && thread_of_prompt(st, j) is Some && waits_by(
                waiting_list(st, project, limit)->Ok_0.threads[i],
                thread_of_prompt(st, j)->0,
                #[trigger] st.prompts[j],
            ),
        0 <= i < waiting_list(st, project, limit)->Ok_0.threads.len() && project is Some
            ==> lies_in_project(waiting_list(st, project, limit)->Ok_0.threads[i].cwd, project->0),
{
    let rows = waiting_scan(st, st.prompts.len())->0;
    let all = payloads(sorted_desc(rows));
    let keep = |t: WaitingThreadV| project_passes(project, t.cwd);
    let kept = all.filter(keep);
    let threads = waiting_list(st, project, limit)->Ok_0.threads;
    if 0 <= k < st.prompts.len() && thread_of_prompt(st, k) is Some && (project is None
        || lies_in_project(thread_of_prompt(st, k)->0.cwd, project->0)) && (limit == 0
        || threads.len() < limit) {
        let w = waiting_thread(thread_of_prompt(st, k)->0, st.prompts[k]);
        let m = lemma_scan_holds(st, st.prompts.len(), k);
        assert(rows[m].1 == w);
        lemma_sorted_payloads(rows, w);
        lemma_filter_holds(all, keep, w);
        assert(threads =~= kept);
        let j = choose|j: int| 0 <= j < kept.len() && kept[j] == w;
        assert(waits_by(threads[j], thread_of_prompt(st, k)->0, st.prompts[k]));
    }
    if 0 <= i < threads.len() {
        let w = threads[i];
        assert(kept[i] == w);
        assert(kept.contains(w));
        lemma_filter_holds(all, keep, w);
        lemma_sorted_payloads(rows, w);
        let m = choose|m: int| 0 <= m < rows.len() && (#[trigger] rows[m]).1 == w;
        let j = lemma_scan_source(st, st.prompts.len(), m);
        assert(waits_by(w, thread_of_prompt(st, j)->0, st.prompts[j]));
    }
}

/// The stored thread of the prompt at `k`.
pub open spec fn thread_of_prompt(st: BridgeStateV, k: int) -> Option<ThreadRowV> {
    first_row(st.threads, key_is(thread_row_key(), st.prompts[k].thread_id))
}

/// The row tells that the thread waits by the prompt.
pub open spec fn waits_by(w: WaitingThreadV, t: ThreadRowV, p: PromptRowV) -> bool {
    &&& w.thread_id == t.thread_id
    &&& w.name == t.name
    &&& w.cwd == t.cwd
    &&& w.status_type == t.status_type
    &&& w.status_flags == t.status_flags
    &&& w.last_preview == t.last_preview
    &&& w.prompt.prompt_id == p.prompt_id
    &&& w.prompt.kind == p.prompt_kind
    &&& w.prompt.status == p.prompt_status
    &&& w.prompt.question == Some(p.question)
    &&& t.updated_at is None <==> w.updated_at is None
}

/// A scanned row is that of the thread and the prompt at `j`.
pub open spec fn scanned_from(st: BridgeStateV, w: WaitingThreadV, j: int) -> bool {
    0 <= j < st.prompts.len() && thread_of_prompt(st, j) is Some && w == waiting_thread(
        thread_of_prompt(st, j)->0,
        st.prompts[j],
    )
}

proof fn lemma_scan_holds(st: BridgeStateV, n: nat, k: int) -> (m: int)
    requires
        0 <= k < n <= st.prompts.len(),
        waiting_scan(st, n) is Some,
        thread_of_prompt(st, k) is Some,
    ensures
        0 <= m < waiting_scan(st, n)->0.len(),
        waiting_scan(st, n)->0[m].1 == waiting_thread(thread_of_prompt(st, k)->0, st.prompts[k]),
    decreases n,
{
    let before = waiting_scan(st, (n - 1) as nat)->0;
    if k < n - 1 {
        lemma_scan_holds(st, (n - 1) as nat, k)
    } else {
        before.len() as int
    }
}

proof fn lemma_scan_source(st: BridgeStateV, n: nat, m: int) -> (j: int)
    requires
        n <= st.prompts.len(),
        waiting_scan(st, n) is Some,
        0 <= m < waiting_scan(st, n)->0.len(),
    ensures
        scanned_from(st, waiting_scan(st, n)->0[m].1, j),
    decreases n,
{
    let before = waiting_scan(st, (n - 1) as nat)->0;
    if m < before.len() {
        lemma_scan_source(st, (n - 1) as nat, m)
    } else {
        n - 1
    }
}

/// The summary of the waiting threads names them in the order of the list.
pub proof fn waiting_summaries_name_the_threads(
    threads: Seq<WaitingThreadV>,
    project: Option<Seq<char>>,
    limit: u64,
    i: int,
)
    requires
        threads.len() <= u32::MAX,
        0 <= i < threads.len(),
    ensures
        ({
            let r = waiting_result(threads, project, limit);
            &&& r.threads == threads
            &&& r.summary.count == threads.len()
            &&& r.summary.thread_ids.len() == threads.len()
            &&& r.summary.thread_ids[i] == threads[i].thread_id
            &&& r.summary.labels.len() == threads.len()
            &&& r.summary.labels[i] == threads[i].label
            &&& text_member(r.summary.applied_filters, "project"@) == project
            &&& member(r.summary.applied_filters, "limit"@) == Some(JsonV::UInt(limit))
        }),
{
    broadcast use {empty_objects_have_no_members, pushed_members_are_found};

    reveal_strlit("project");
    reveal_strlit("limit");
    assert("project"@.len() == 7);
    assert("limit"@.len() == 5);
}

/// Each thread that waits in the cache gives one event, which says so.
pub proof fn cached_events_tell_who_waits(st: BridgeStateV, i: int)
    requires
        waiting_list(st, None, 100) is Ok,
        0 <= i < waiting_list(st, None, 100)->Ok_0.threads.len(),
    ensures
        cached_events(st) is Ok,
        cached_events(st)->Ok_0.len() == waiting_list(st, None, 100)->Ok_0.threads.len(),
        text_member(cached_events(st)->Ok_0[i], "type"@) == Some("thread_waiting"@),
        text_member(cached_events(st)->Ok_0[i], "threadId"@) == Some(
            waiting_list(st, None, 100)->Ok_0.threads[i].thread_id,
        ),
        member(cached_events(st)->Ok_0[i], "thread"@) matches Some(thread) && text_member(
            thread,
            "threadId"@,
        ) == Some(waiting_list(st, None, 100)->Ok_0.threads[i].thread_id),
{
    broadcast use {empty_objects_have_no_members, pushed_members_are_found};

    reveal_strlit("type");
    reveal_strlit("threadId");
    reveal_strlit("thread");
    assert("type"@.len() == 4);
    assert("threadId"@.len() == 8);
    assert("thread"@.len() == 6);
    let t = waiting_list(st, None, 100)->Ok_0.threads[i];
    assert(cached_events(st)->Ok_0[i] == cached_waiting_event(t));
}

// ---------------------------------------------------------------------------
// Recent threads and observed workspaces
// ---------------------------------------------------------------------------

/// When a thread was last active: when it changed, or else when it was seen.
pub open spec fn activity(t: ThreadRowV) -> int {
    match t.updated_at {
        Some(u) => u as int,
        None => t.last_seen_at as int,
    }
}

/// The recent threads are the last active ones, the latest first, as many as asked for; they
/// are read as they are stored, with their prompt.
pub proof fn recent_threads_are_the_last_active(
    st: BridgeStateV,
    limit: u64,
    i: int,
    k: int,
)
    requires
        recent_list(st, limit) is Ok,
        0 < limit <= i64::MAX,
    ensures
        recent_list(st, limit)->Ok_0.len() == (if st.threads.len() < limit {
            st.threads.len() as int
        } else {
            limit as int
        }),
        0 <= i < recent_list(st, limit)->Ok_0.len() ==> exists|t: int|
            0 <= t < st.threads.len() && reads_back(
                recent_list(st, limit)->Ok_0[i],
                #[trigger] st.threads[t],
                first_row(st.prompts, key_is(prompt_row_key(), st.threads[t].thread_id)),
            ),
        0 <= k < st.threads.len() && recent_list(st, limit)->Ok_0.len() < limit ==> exists|j: int|
            0 <= j < recent_list(st, limit)->Ok_0.len() && (#[trigger] recent_list(
                st,
                limit,
            )->Ok_0[j]).thread_id == st.threads[k].thread_id,
        recent_list(st, 0) == Ok::<Seq<BridgeThreadSnapshotV>, BridgeErrorV>(Seq::empty()),
{
    let rows = active_rows(st);
    let sorted = payloads(sorted_desc(rows));
    let list = recent_list(st, limit)->Ok_0;
    lemma_sorted_payloads(rows, sorted[0]);
    if 0 <= i < list.len() {
        let row = sorted[i];
        assert(sorted.contains(row));
        lemma_sorted_payloads(rows, row);
        let t = choose|t: int| 0 <= t < rows.len() && (#[trigger] rows[t]).1 == row;
        assert(st.threads[t] == row);
        assert(reads_back(
            list[i],
            st.threads[t],
            first_row(st.prompts, key_is(prompt_row_key(), st.threads[t].thread_id)),
        ));
    }
    if 0 <= k < st.threads.len() && list.len() < limit {
        assert(rows[k].1 == st.threads[k]);
        lemma_sorted_payloads(rows, st.threads[k]);
        let j = choose|j: int| 0 <= j < sorted.len() && sorted[j] == st.threads[k];
        assert(list[j].thread_id == st.threads[k].thread_id);
    }
}

/// A recent thread is not less active than one that comes after it or is left out.
pub proof fn recent_threads_are_ranked(st: BridgeStateV, i: int, j: int)
    requires
        0 <= i <= j < st.threads.len(),
    ensures
        activity(payloads(sorted_desc(active_rows(st)))[i]) >= activity(
            payloads(sorted_desc(active_rows(st)))[j],
        ),
{
    let rows = active_rows(st);
    let sorted = sorted_desc(rows);
    sorting_is_stable(rows);
    lemma_active_rank(st, i);
    lemma_active_rank(st, j);
    assert(sorted[i].0 >= sorted[j].0);
}

proof fn lemma_active_rank(st: BridgeStateV, i: int)
    requires
        0 <= i < sorted_desc(active_rows(st)).len(),
    ensures
        sorted_desc(active_rows(st))[i].0 == activity(sorted_desc(active_rows(st))[i].1),
{
    let rows = active_rows(st);
    let sorted = sorted_desc(rows);
    assert(sorted.contains(sorted[i]));
    lemma_sorted_holds(rows, sorted[i]);
    let k = choose|k: int| 0 <= k < rows.len() && rows[k] == sorted[i];
    assert(rows[k].0 == activity(rows[k].1));
}

/// A snapshot is what is stored of a thread and of its prompt.
pub open spec fn reads_back(
    s: BridgeThreadSnapshotV,
    t: ThreadRowV,
    p: Option<PromptRowV>,
) -> bool {
    &&& s.thread_id == t.thread_id
    &&& s.name == t.name
    &&& s.cwd == t.cwd
    &&& s.status_type == t.status_type
    &&& s.status_flags == t.status_flags
    &&& s.last_turn_status == t.last_turn_status
    &&& s.last_preview == t.last_preview
    &&& t.updated_at is None <==> s.updated_at is None
    &&& p is None <==> s.pending_prompt is None
    &&& p matches Some(row) ==> s.pending_prompt->0.prompt_id == row.prompt_id
        && s.pending_prompt->0.kind == row.prompt_kind && s.pending_prompt->0.status
        == row.prompt_status && s.pending_prompt->0.question == Some(row.question)
}

/// A directory in which a stored thread works is observed, once, with its latest activity.
pub proof fn working_directories_are_observed(threads: Seq<ThreadRowV>, n: nat, k: int)
    requires
        n <= threads.len(),
        0 <= k < n,
        threads[k].cwd is Some,
        holds_text(threads[k].cwd->0),
    ensures
        exists|d: int|
            0 <= d < dirs_upto(threads, n).len() && (#[trigger] dirs_upto(threads, n)[d]).0
                == threads[k].cwd->0 && dirs_upto(threads, n)[d].1 >= activity(threads[k]),
    decreases n,
{
    let before = dirs_upto(threads, (n - 1) as nat);
    let after = dirs_upto(threads, n);
    let t = threads[n - 1];
    let cwd = threads[k].cwd->0;
    if t.cwd is Some && holds_text(t.cwd->0) {
        lemma_note_seen(before, t.cwd->0, last_active(t));
    }
    if k < n - 1 {
        working_directories_are_observed(threads, (n - 1) as nat, k);
        let d = choose|d: int|
            0 <= d < before.len() && (#[trigger] before[d]).0 == cwd && before[d].1 >= activity(
                threads[k],
            );
        assert(after[d].0 == before[d].0 && after[d].1 >= before[d].1);
    } else {
        let d = choose|d: int|
            0 <= d < after.len() && (#[trigger] after[d]).0 == cwd && after[d].1 >= last_active(t);
        assert(after[d].0 == cwd);
    }
}

/// Noting a directory keeps those that were noted, and never takes activity back.
proof fn lemma_note_seen(dirs: Seq<(Seq<char>, i64)>, cwd: Seq<char>, at: i64)
    ensures
        note_seen(dirs, cwd, at).len() >= dirs.len(),
        forall|d: int|
            0 <= d < dirs.len() ==> (#[trigger] note_seen(dirs, cwd, at)[d]).0 == dirs[d].0
                && note_seen(dirs, cwd, at)[d].1 >= dirs[d].1,
        exists|d: int|
            0 <= d < note_seen(dirs, cwd, at).len() && (#[trigger] note_seen(dirs, cwd, at)[d]).0
                == cwd && note_seen(dirs, cwd, at)[d].1 >= at,
        forall|d: int|
            0 <= d < note_seen(dirs, cwd, at).len() ==> (#[trigger] note_seen(dirs, cwd, at)[d]) == (
            cwd,
            at,
        ) || (d < dirs.len() && note_seen(dirs, cwd, at)[d] == dirs[d]),
{
    let hit = dir_called(cwd);
    lemma_position(dirs, hit, 0);
    let p = position(dirs, hit, 0);
    let after = note_seen(dirs, cwd, at);
    if p < dirs.len() {
        assert(after[p as int].0 == cwd);
    } else {
        assert(after[dirs.len() as int] == (cwd, at));
    }
}

/// An observed directory is one in which a stored thread works, and its activity is that of
/// one of them; it is listed under the name of its last component.
pub proof fn observed_directories_are_worked_in(threads: Seq<ThreadRowV>, n: nat, d: int)
    requires
        n <= threads.len(),
        0 <= d < dirs_upto(threads, n).len(),
    ensures
        exists|k: int|
            0 <= k < n && (#[trigger] threads[k]).cwd == Some(dirs_upto(threads, n)[d].0)
                && activity(threads[k]) == dirs_upto(threads, n)[d].1,
    decreases n,
{
    let before = dirs_upto(threads, (n - 1) as nat);
    let after = dirs_upto(threads, n);
    let t = threads[n - 1];
    if t.cwd is Some && holds_text(t.cwd->0) {
        lemma_note_seen(before, t.cwd->0, last_active(t));
    }
    if d < before.len() && after[d] == before[d] {
        observed_directories_are_worked_in(threads, (n - 1) as nat, d);
        let k = choose|k: int|
            0 <= k < n - 1 && (#[trigger] threads[k]).cwd == Some(before[d].0) && activity(
                threads[k],
            ) == before[d].1;
        assert(threads[k].cwd == Some(after[d].0));
    } else {
        assert(threads[n - 1].cwd == Some(after[d].0));
    }
}

/// A workspace is its directory, under the name of the last component, or of the whole where
/// there is none.
pub proof fn workspaces_are_named_by_their_directory(row: ObservedRowV)
    ensures
        workspace(row).cwd == row.cwd,
        project_label(Some(row.cwd)) matches Some(label) ==> workspace(row).label == label,
        project_label(Some(row.cwd)) is None ==> workspace(row).label == row.cwd,
        row.seen_at >= 0 ==> workspace(row).last_seen_at == Some(row.seen_at as u64),
{
}

// ---------------------------------------------------------------------------
// Archiving
// ---------------------------------------------------------------------------

/// Threads that are named are what is archived, and need no confirmation; where none is named,
/// it is the threads that the inbox lists, which do.
pub proof fn archives_take_what_is_named(
    st: BridgeStateV,
    ids: Seq<Seq<char>>,
    f: InboxFilterV,
    limit: u64,
    now: u64,
    i: int,
)
    ensures
        ids.len() > 0 ==> (archive_selection(st, ids, f, limit, now) matches Ok(s) && s.targets
            == ids && !s.using_filter_selection),
        ids.len() == 0 && inbox_list(st, now, f, limit) is Err ==> archive_selection(
            st,
            ids,
            f,
            limit,
            now,
        ) is Err,
        ids.len() == 0 && inbox_list(st, now, f, limit) is Ok ==> ({
            let s = archive_selection(st, ids, f, limit, now);
            let items = inbox_list(st, now, f, limit)->Ok_0.items;
            &&& s is Ok
            &&& s->Ok_0.using_filter_selection
            &&& s->Ok_0.targets.len() == items.len()
            &&& 0 <= i < items.len() ==> s->Ok_0.targets[i] == items[i].thread_id && meets(
                items[i],
                f,
            )
        }),
{
    if ids.len() == 0 && inbox_list(st, now, f, limit) is Ok {
        inbox_filters_hold(st, now, f, limit, i, -1);
    }
}

/// A run that is only tried archives nothing and says so of each thread; one that is meant
/// says that each is archived; and one over filtered threads that nobody confirmed is refused.
pub proof fn archive_reports_say_what_was_done(
    st: BridgeStateV,
    thread_id: Seq<char>,
    attention: Option<Seq<char>>,
    dry_run: bool,
    yes: bool,
    now: u64,
)
    ensures
        archive_outcome(st, Some(thread_id), attention, dry_run, yes, now) matches Ok(report)
            && member(report, "dryRun"@) == Some(JsonV::Bool(dry_run)) && text_member(
            report,
            "action"@,
        ) == Some("archive"@) && (member(report, "results"@) matches Some(JsonV::Array(results))
            && results.len() == 1 && text_member(results[0], "threadId"@) == Some(thread_id)
            && text_member(results[0], "status"@) == Some(
            if dry_run {
                "would_archive"@
            } else {
                "archived"@
            },
        )),
        needs_confirmation(dry_run, true, yes) <==> !dry_run && !yes,
        !needs_confirmation(dry_run, false, yes),
        inbox_list(
            st,
            now,
            InboxFilterV { project: None, status: None, attention, waiting_on: None },
            100,
        ) is Ok ==> (archive_outcome(st, None, attention, dry_run, yes, now) is Ok <==> dry_run
            || yes),
{
    broadcast use {empty_objects_have_no_members, pushed_members_are_found};

    reveal_strlit("ok");
    reveal_strlit("action");
    reveal_strlit("dryRun");
    reveal_strlit("results");
    reveal_strlit("threadId");
    reveal_strlit("status");
    assert("ok"@.len() == 2);
    assert("action"@.len() == 6);
    assert("dryRun"@.len() == 6);
    assert("results"@.len() == 7);
    assert("threadId"@.len() == 8);
    assert("status"@.len() == 6);
    assert("action"@[0] != "dryRun"@[0]);
    assert("action"@[0] != "status"@[0]);
    assert("dryRun"@[0] != "status"@[0]);
    let status = if dry_run {
        "would_archive"@
    } else {
        "archived"@
    };
    assert(archive_entries(seq![thread_id], status)[0] == archive_entry(thread_id, status));
}

/// A thread that is taken out of the archive is reported as such, or as one that would be.
pub proof fn unarchive_reports_say_what_was_done(
    thread_id: Seq<char>,
    dry_run: bool,
    result: JsonV,
    now: u64,
)
    ensures
        text_member(unarchive_report(thread_id, dry_run, result), "action"@) == Some(
            "unarchive"@,
        ),
        member(unarchive_report(thread_id, dry_run, result), "dryRun"@) == Some(
            JsonV::Bool(dry_run),
        ),
        member(unarchive_report(thread_id, dry_run, result), "results"@) matches Some(
            JsonV::Array(results),
        ) && results.len() == 1 && text_member(results[0], "threadId"@) == Some(thread_id)
            && text_member(results[0], "status"@) == Some(
            if dry_run {
                "would_unarchive"@
            } else {
                "unarchived"@
            },
        ) && (!dry_run ==> member(results[0], "result"@) == Some(result)),
        member(unarchive_payload(result, now), "result"@) == Some(result),
        member(unarchive_payload(result, now), "unarchivedAt"@) == Some(JsonV::UInt(now)),
{
    broadcast use {empty_objects_have_no_members, pushed_members_are_found};

    reveal_strlit("ok");
    reveal_strlit("action");
    reveal_strlit("dryRun");
    reveal_strlit("results");
    reveal_strlit("threadId");
    reveal_strlit("status");
    reveal_strlit("result");
    reveal_strlit("unarchivedAt");
    assert("ok"@.len() == 2);
    assert("action"@.len() == 6);
    assert("dryRun"@.len() == 6);
    assert("results"@.len() == 7);
    assert("threadId"@.len() == 8);
    assert("status"@.len() == 6);
    assert("result"@.len() == 6);
    assert("unarchivedAt"@.len() == 12);
    assert("action"@[0] != "dryRun"@[0]);
    assert("action"@[0] != "status"@[0]);
    assert("action"@[0] != "result"@[0]);
    assert("dryRun"@[0] != "status"@[0]);
    assert("dryRun"@[0] != "result"@[0]);
    assert("status"@[0] != "result"@[0]);
}

/// A waiting thread is labelled by its name, its place and what it waits for.
pub proof fn waiting_threads_are_labelled(t: ThreadRowV, p: PromptRowV)
    ensures
        waiting_thread(t, p).label == waiting_thread(t, p).display_name + " · "@ + (
        match project_label(t.cwd) {
            Some(project) => project,
            None => match t.cwd {
                Some(cwd) => cwd,
                None => "unknown cwd"@,
            },
        }) + " · "@ + p.prompt_kind,
        waiting_thread(t, p).display_name == display_name(
            t.name,
            project_label(t.cwd),
            Some(p.question),
            t.thread_id,
        ),
        waiting_thread(t, p).project == project_label(t.cwd),
        waiting_thread(t, p).last_preview == t.last_preview,
{
}

} // verus!
