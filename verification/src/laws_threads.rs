//! What holds of threads: how they are read, what they wait for, how they are stored, and what
//! the user is told of them.
use vstd::prelude::*;
use vstd::string::*;

use crate::codex::{
    derived_prompt, has_flag, last_in_items, last_in_turns, last_turn_status, latest_stamp,
    named_flags, snapshot_of, snapshots_are_as_late_as_their_turns, texts_upto, thread_preview,
    turn_stamp, Wanted, wanted_text,
};
use crate::follow::at_rest;
use crate::json::{
    empty_objects_have_no_members, JsonV, member, pushed_members_are_found, text_array, text_member,
    uint_value,
};
use crate::laws::threads_are_read_back;
use crate::state::{
    BridgeStateV, delivery_row_key, DeliveryRowV, event_row_key, EventRowV, prompt_row_key,
    thread_row_key,
};
use crate::sync::{
    delivered_before, later, reconcile_one, reconcile_upto, snapshot_event, snapshot_json,
    sync_report, thread_row, with_snapshot,
};
use crate::table::{first_row, key_is, lemma_first_push, lemma_position, position, put_keeps_keys};
use crate::text::{
    begins_with, decimal, decimal_parses_back, is_digit, lemma_decimal_digits, non_blank, trim_end,
    trimmed,
};
use crate::thread::{
    age_seconds, BridgeThreadSnapshotV, collapsed, component_end, component_start, display_name,
    in_away_window, inbox_item, inbox_score, PendingPromptV, preview, project_label,
};

verus! {

// ---------------------------------------------------------------------------
// Reading a thread
// ---------------------------------------------------------------------------

/// The turns of a thread.
pub open spec fn has_turns(thread: JsonV, turns: Seq<JsonV>) -> bool {
    member(thread, "turns"@) == Some(JsonV::Array(turns))
}

/// The status of the last turn is that of the turn with the greatest index, whatever the
/// earlier turns say; where it has none, the summary tells.
pub proof fn the_last_turn_tells_the_status(
    summary: JsonV,
    thread: JsonV,
    turns: Seq<JsonV>,
    last: JsonV,
    status: Seq<char>,
)
    requires
        has_turns(thread, turns.push(last)),
        snapshot_of(summary, thread) is Ok,
    ensures
        text_member(last, "status"@) == Some(status) ==> snapshot_of(
            summary,
            thread,
        )->Ok_0.last_turn_status == Some(status) && last_turn_status(thread) == Some(status),
        text_member(last, "status"@) is None ==> last_turn_status(thread) is None && snapshot_of(
            summary,
            thread,
        )->Ok_0.last_turn_status == non_blank(text_member(summary, "lastTurnStatus"@)),
        at_rest(thread) <==> text_member(last, "status"@) == Some("completed"@) || (exists|
            flag: Seq<char>,
        |
            is_active_flag(thread, flag) && (flag == "waitingOnApproval"@ || flag
                == "waitingOnUserInput"@ || flag == "waitingOnInput"@)),
{
    let all = turns.push(last);
    assert(all[all.len() - 1] == last);
    match member(thread, "status"@) {
        Some(s) => match member(s, "activeFlags"@) {
            Some(JsonV::Array(items)) => {
                assert forall|flag: Seq<char>| #[trigger] is_active_flag(thread, flag)
                    == has_flag(texts_upto(items, items.len()), flag) by {
                    lemma_texts_upto(items, items.len(), flag);
                }
                assert(is_active_flag(thread, "waitingOnApproval"@) == has_flag(
                    texts_upto(items, items.len()),
                    "waitingOnApproval"@,
                ));
                assert(is_active_flag(thread, "waitingOnUserInput"@) == has_flag(
                    texts_upto(items, items.len()),
                    "waitingOnUserInput"@,
                ));
                assert(is_active_flag(thread, "waitingOnInput"@) == has_flag(
                    texts_upto(items, items.len()),
                    "waitingOnInput"@,
                ));
            },
            _ => {},
        },
        None => {},
    }
}

/// The thread names a flag among its active ones.
pub open spec fn is_active_flag(thread: JsonV, flag: Seq<char>) -> bool {
    member(thread, "status"@) matches Some(status) && (member(status, "activeFlags"@) matches Some(
        JsonV::Array(items),
    ) && items.contains(JsonV::Str(flag)))
}

proof fn lemma_texts_upto(items: Seq<JsonV>, n: nat, flag: Seq<char>)
    requires
        n <= items.len(),
    ensures
        has_flag(texts_upto(items, n), flag) <==> items.take(n as int).contains(JsonV::Str(flag)),
        n == items.len() ==> (has_flag(texts_upto(items, n), flag) <==> items.contains(
            JsonV::Str(flag),
        )),
    decreases n,
{
    if n > 0 {
        lemma_texts_upto(items, (n - 1) as nat, flag);
        let before = texts_upto(items, (n - 1) as nat);
        let after = texts_upto(items, n);
        let front = items.take(n - 1);
        let whole = items.take(n as int);
        if has_flag(before, flag) {
            let k = choose|k: int| 0 <= k < before.len() && before[k] == flag;
            assert(after[k] == flag);
            let j = choose|j: int| 0 <= j < front.len() && front[j] == JsonV::Str(flag);
            assert(whole[j] == JsonV::Str(flag));
        }
        if items[n - 1] == JsonV::Str(flag) {
            assert(after[after.len() - 1] == flag);
            assert(whole[n - 1] == JsonV::Str(flag));
        }
        if whole.contains(JsonV::Str(flag)) {
            let j = choose|j: int| 0 <= j < whole.len() && whole[j] == JsonV::Str(flag);
            if j < n - 1 {
                assert(front[j] == JsonV::Str(flag));
            }
        }
        if has_flag(after, flag) {
            let k = choose|k: int| 0 <= k < after.len() && after[k] == flag;
            if k < before.len() {
                assert(before[k] == flag);
            }
        }
    }
    assert(items.take(items.len() as int) =~= items);
}

/// A flag of a snapshot is one that the thread names, or that the summary names where the
/// thread names no list of flags.
pub proof fn snapshots_hold_the_active_flags(summary: JsonV, thread: JsonV, flag: Seq<char>)
    requires
        snapshot_of(summary, thread) is Ok,
    ensures
        named_flags(thread) is Some ==> (snapshot_of(summary, thread)->Ok_0.status_flags.contains(
            flag,
        ) <==> is_active_flag(thread, flag)),
        named_flags(thread) is None ==> (snapshot_of(summary, thread)->Ok_0.status_flags.contains(
            flag,
        ) <==> is_active_flag(summary, flag)),
{
    let flags = snapshot_of(summary, thread)->Ok_0.status_flags;
    assert(flags.contains(flag) == has_flag(flags, flag));
    lemma_named_flags(thread, flag);
    lemma_named_flags(summary, flag);
}

proof fn lemma_named_flags(thread: JsonV, flag: Seq<char>)
    ensures
        named_flags(thread) is Some ==> (has_flag(named_flags(thread)->0, flag) <==> is_active_flag(
            thread,
            flag,
        )),
        named_flags(thread) is None ==> !is_active_flag(thread, flag),
{
    match member(thread, "status"@) {
        Some(s) => match member(s, "activeFlags"@) {
            Some(JsonV::Array(items)) => {
                lemma_texts_upto(items, items.len(), flag);
            },
            _ => {},
        },
        None => {},
    }
}

/// A thread that waits for an approval has a prompt for one, a thread that only waits for
/// input one for a reply, and any other none. The question is what was said last.
pub proof fn prompts_ask_for_what_is_awaited(
    thread_id: Seq<char>,
    flags: Seq<Seq<char>>,
    shown: Option<Seq<char>>,
)
    ensures
        flags.contains("waitingOnApproval"@) ==> (derived_prompt(
            thread_id,
            flags,
            shown,
        ) matches Some(p) && p.kind == "approval"@ && p.prompt_id == "approval:"@ + thread_id
            && p.status == "Needs approval"@ && p.question == (match shown {
            Some(t) => Some(t),
            None => Some("Approval required"@),
        })),
        !flags.contains("waitingOnApproval"@) && (flags.contains("waitingOnUserInput"@)
            || flags.contains("waitingOnInput"@)) ==> (derived_prompt(
            thread_id,
            flags,
            shown,
        ) matches Some(p) && p.kind == "reply"@ && p.prompt_id == "reply:"@ + thread_id && p.status
            == "Needs input"@ && p.question == (match shown {
            Some(t) => Some(t),
            None => Some("Input required"@),
        })),
        !flags.contains("waitingOnApproval"@) && !flags.contains("waitingOnUserInput"@)
            && !flags.contains("waitingOnInput"@) ==> derived_prompt(thread_id, flags, shown)
            is None,
{
    assert(flags.contains("waitingOnApproval"@) == has_flag(flags, "waitingOnApproval"@));
    assert(flags.contains("waitingOnUserInput"@) == has_flag(flags, "waitingOnUserInput"@));
    assert(flags.contains("waitingOnInput"@) == has_flag(flags, "waitingOnInput"@));
}

/// What a snapshot says is what the thread says, or the summary where the thread is silent;
/// its prompt is that of its own id, flags and preview.
pub proof fn snapshots_prefer_the_thread(summary: JsonV, thread: JsonV)
    ensures
        text_member(thread, "id"@) matches Some(id) ==> snapshot_of(summary, thread) matches Ok(s)
            && s.thread_id == id,
        member(thread, "id"@) is None ==> (text_member(summary, "id"@) matches Some(id)
            ==> snapshot_of(summary, thread) matches Ok(s) && s.thread_id == id),
        member(thread, "id"@) is None && text_member(summary, "id"@) is None ==> snapshot_of(
            summary,
            thread,
        ) is Err,
        snapshot_of(summary, thread) matches Ok(s) ==> {
            &&& text_member(thread, "name"@) is Some ==> s.name == text_member(thread, "name"@)
            &&& text_member(thread, "name"@) is None ==> s.name == text_member(summary, "name"@)
            &&& text_member(thread, "cwd"@) is Some ==> s.cwd == text_member(thread, "cwd"@)
            &&& text_member(thread, "cwd"@) is None ==> s.cwd == text_member(summary, "cwd"@)
            &&& said_status(thread) matches Some(t) ==> s.status_type == t
            &&& said_status(thread) is None ==> (said_status(summary) matches Some(t)
                ==> s.status_type == t)
            &&& said_status(thread) is None && said_status(summary) is None ==> s.status_type
                == "unknown"@
            &&& s.pending_prompt == derived_prompt(s.thread_id, s.status_flags, s.last_preview)
        },
{
}

/// What a thread says its status is.
pub open spec fn said_status(thread: JsonV) -> Option<Seq<char>> {
    match member(thread, "status"@) {
        Some(status) => text_member(status, "type"@),
        None => None,
    }
}

/// A message of the agent: its text without blanks around it, where there is one.
pub open spec fn says(item: JsonV, text: Seq<char>) -> bool {
    &&& text_member(item, "type"@) == Some("agentMessage"@)
    &&& text_member(item, "text"@) matches Some(raw) && trimmed(raw) == text && text.len() > 0
}

/// The item at `j` of the turn at `i`.
pub open spec fn item_at(turns: Seq<JsonV>, i: int, j: int, item: JsonV) -> bool {
    &&& 0 <= i < turns.len()
    &&& member(turns[i], "items"@) matches Some(JsonV::Array(items)) && 0 <= j < items.len()
        && items[j] == item
}

/// The preview of a thread is the last final answer of the agent.
pub proof fn previews_show_the_last_final_answer(
    thread: JsonV,
    turns: Seq<JsonV>,
    i: int,
    j: int,
    item: JsonV,
    text: Seq<char>,
)
    requires
        has_turns(thread, turns),
        item_at(turns, i, j, item),
        says(item, text),
        text_member(item, "phase"@) == Some("final_answer"@),
        forall|k: int, l: int, other: JsonV|
            #[trigger] item_at(turns, k, l, other) && (k > i || (k == i && l > j)) ==> !(text_member(
                other,
                "phase"@,
            ) == Some("final_answer"@) && exists|t: Seq<char>| says(other, t)),
    ensures
        thread_preview(thread) == Some(text),
{
    let want = |x: JsonV| wanted_text(Wanted::FinalAnswer, x);
    assert forall|k: int, l: int, other: JsonV|
        #[trigger] item_at(turns, k, l, other) && (k > i || (k == i && l > j)) implies want(other)
        is None by {
        if want(other) is Some {
            assert(says(other, want(other)->0));
        }
    }
    lemma_last_in_turns(turns, turns.len(), i, j, item, want, text);
}

/// Where the agent gave no final answer, the preview of a thread is its last message.
pub proof fn previews_show_the_last_message(
    thread: JsonV,
    turns: Seq<JsonV>,
    i: int,
    j: int,
    item: JsonV,
    text: Seq<char>,
)
    requires
        has_turns(thread, turns),
        item_at(turns, i, j, item),
        says(item, text),
        forall|k: int, l: int, other: JsonV|
            #[trigger] item_at(turns, k, l, other) ==> text_member(other, "phase"@) != Some(
                "final_answer"@,
            ),
        forall|k: int, l: int, other: JsonV|
            #[trigger] item_at(turns, k, l, other) && (k > i || (k == i && l > j)) ==> !(exists|
                t: Seq<char>,
            | says(other, t)),
    ensures
        thread_preview(thread) == Some(text),
{
    let finals = |x: JsonV| wanted_text(Wanted::FinalAnswer, x);
    let want = |x: JsonV| wanted_text(Wanted::AgentMessage, x);
    assert forall|k: int, l: int, other: JsonV| #[trigger] item_at(turns, k, l, other) implies finals(
        other,
    ) is None by {}
    lemma_none_in_turns(turns, turns.len(), finals);
    assert forall|k: int, l: int, other: JsonV|
        #[trigger] item_at(turns, k, l, other) && (k > i || (k == i && l > j)) implies want(other)
        is None by {
        if want(other) is Some {
            assert(says(other, want(other)->0));
        }
    }
    lemma_last_in_turns(turns, turns.len(), i, j, item, want, text);
}

/// A snapshot shows the preview of its thread; only where there is none, that of the summary.
pub proof fn snapshots_show_the_thread_first(summary: JsonV, thread: JsonV)
    requires
        snapshot_of(summary, thread) is Ok,
    ensures
        thread_preview(thread) is Some ==> snapshot_of(summary, thread)->Ok_0.last_preview
            == thread_preview(thread),
        thread_preview(thread) is None ==> snapshot_of(summary, thread)->Ok_0.last_preview == (
        match non_blank(text_member(summary, "lastPreview"@)) {
            Some(t) => Some(t),
            None => match non_blank(text_member(summary, "preview"@)) {
                Some(t) => Some(t),
                None => non_blank(text_member(summary, "lastMessage"@)),
            },
        }),
{
}

proof fn lemma_last_in_items(
    items: Seq<JsonV>,
    n: nat,
    j: int,
    want: spec_fn(JsonV) -> Option<Seq<char>>,
)
    requires
        0 <= j < n <= items.len(),
        want(items[j]) is Some,
        forall|l: int| j < l < n ==> want(#[trigger] items[l]) is None,
    ensures
        last_in_items(items, n, want) == want(items[j]),
    decreases n,
{
    if j < n - 1 {
        assert(want(items[n - 1]) is None);
        lemma_last_in_items(items, (n - 1) as nat, j, want);
    }
}

proof fn lemma_none_in_items(
    items: Seq<JsonV>,
    n: nat,
    want: spec_fn(JsonV) -> Option<Seq<char>>,
)
    requires
        n <= items.len(),
        forall|l: int| 0 <= l < n ==> want(#[trigger] items[l]) is None,
    ensures
        last_in_items(items, n, want) is None,
    decreases n,
{
    if n > 0 {
        assert(want(items[n - 1]) is None);
        lemma_none_in_items(items, (n - 1) as nat, want);
    }
}

proof fn lemma_none_in_turn(
    turns: Seq<JsonV>,
    n: nat,
    want: spec_fn(JsonV) -> Option<Seq<char>>,
)
    requires
        0 < n <= turns.len(),
        forall|l: int, other: JsonV|
            #[trigger] item_at(turns, n - 1, l, other) ==> want(other) is None,
    ensures
        last_in_turns(turns, n, want) == last_in_turns(turns, (n - 1) as nat, want),
{
    match member(turns[n - 1], "items"@) {
        Some(JsonV::Array(items)) => {
            assert forall|l: int| 0 <= l < items.len() implies want(#[trigger] items[l]) is None by {
                assert(item_at(turns, n - 1, l, items[l]));
            }
            lemma_none_in_items(items, items.len(), want);
        },
        _ => {},
    }
}

proof fn lemma_none_in_turns(
    turns: Seq<JsonV>,
    n: nat,
    want: spec_fn(JsonV) -> Option<Seq<char>>,
)
    requires
        n <= turns.len(),
        forall|k: int, l: int, other: JsonV|
            #[trigger] item_at(turns, k, l, other) ==> want(other) is None,
    ensures
        last_in_turns(turns, n, want) is None,
    decreases n,
{
    if n > 0 {
        lemma_none_in_turn(turns, n, want);
        lemma_none_in_turns(turns, (n - 1) as nat, want);
    }
}

proof fn lemma_last_in_turns(
    turns: Seq<JsonV>,
    n: nat,
    i: int,
    j: int,
    item: JsonV,
    want: spec_fn(JsonV) -> Option<Seq<char>>,
    text: Seq<char>,
)
    requires
        0 <= i < n <= turns.len(),
        item_at(turns, i, j, item),
        want(item) == Some(text),
        forall|k: int, l: int, other: JsonV|
            #[trigger] item_at(turns, k, l, other) && (k > i || (k == i && l > j)) ==> want(other)
                is None,
    ensures
        last_in_turns(turns, n, want) == Some(text),
    decreases n,
{
    if i < n - 1 {
        lemma_none_in_turn(turns, n, want);
        lemma_last_in_turns(turns, (n - 1) as nat, i, j, item, want, text);
    } else {
        let items = member(turns[i], "items"@)->0->Array_0;
        assert forall|l: int| j < l < items.len() implies want(#[trigger] items[l]) is None by {
            assert(item_at(turns, i, l, items[l]));
        }
        lemma_last_in_items(items, items.len(), j, want);
    }
}

/// The time of a snapshot is one that the thread, its summary or a turn tells.
pub proof fn snapshot_times_are_told(summary: JsonV, thread: JsonV, turns: Seq<JsonV>)
    requires
        snapshot_of(summary, thread) is Ok,
        has_turns(thread, turns),
        snapshot_of(summary, thread)->Ok_0.updated_at is Some,
    ensures
        ({
            let at = snapshot_of(summary, thread)->Ok_0.updated_at->0;
            ||| member(thread, "updatedAt"@) == Some(JsonV::UInt(at))
            ||| member(summary, "updatedAt"@) == Some(JsonV::UInt(at))
            ||| exists|i: int| 0 <= i < turns.len() && told_at(#[trigger] turns[i], at)
        }),
        member(thread, "updatedAt"@) matches Some(JsonV::UInt(at)) ==> snapshot_of(
            summary,
            thread,
        )->Ok_0.updated_at->0 >= at,
{
    lemma_latest_is_told(turns, turns.len());
}

/// A turn tells a time: when it ended, or else when it changed, or else when it began.
pub open spec fn told_at(turn: JsonV, at: u64) -> bool {
    ||| member(turn, "completedAt"@) == Some(JsonV::UInt(at))
    ||| !(member(turn, "completedAt"@) matches Some(JsonV::UInt(_))) && member(turn, "updatedAt"@)
        == Some(JsonV::UInt(at))
    ||| !(member(turn, "completedAt"@) matches Some(JsonV::UInt(_))) && !(member(
        turn,
        "updatedAt"@,
    ) matches Some(JsonV::UInt(_))) && member(turn, "startedAt"@) == Some(JsonV::UInt(at))
}

/// A turn that tells a time is not later than its thread.
pub proof fn threads_are_as_late_as_told(
    summary: JsonV,
    thread: JsonV,
    turns: Seq<JsonV>,
    i: int,
    at: u64,
)
    requires
        snapshot_of(summary, thread) is Ok,
        has_turns(thread, turns),
        0 <= i < turns.len(),
        told_at(turns[i], at),
    ensures
        snapshot_of(summary, thread)->Ok_0.updated_at matches Some(when) && when >= at,
{
    assert(turn_stamp(turns[i]) == Some(at));
    snapshots_are_as_late_as_their_turns(summary, thread, i);
}

proof fn lemma_latest_is_told(turns: Seq<JsonV>, n: nat)
    requires
        n <= turns.len(),
    ensures
        latest_stamp(turns, n) matches Some(at) ==> exists|i: int|
            0 <= i < n && told_at(#[trigger] turns[i], at),
    decreases n,
{
    if n > 0 {
        lemma_latest_is_told(turns, (n - 1) as nat);
        let before = latest_stamp(turns, (n - 1) as nat);
        let after = latest_stamp(turns, n);
        if after is Some {
            if after == before {
                let i = choose|i: int| 0 <= i < n - 1 && told_at(#[trigger] turns[i], before->0);
                assert(told_at(turns[i], after->0));
            } else {
                assert(told_at(turns[n - 1], after->0));
            }
        }
    }
}

// ---------------------------------------------------------------------------
// What a thread needs
// ---------------------------------------------------------------------------

/// A prompt decides what a thread needs, whatever its last turn says: an approval is urgent
/// and waits for the user, and so does a reply.
pub proof fn prompts_need_the_user(s: BridgeThreadSnapshotV, now: u64, p: PendingPromptV)
    requires
        s.pending_prompt == Some(p),
    ensures
        p.kind == "approval"@ ==> ({
            let item = inbox_item(s, now);
            &&& item.attention_reason == "pending_approval"@
            &&& item.waiting_on == "me"@
            &&& item.suggested_action == "approve"@
            &&& item.priority == "high"@
        }),
        p.kind == "reply"@ ==> ({
            let item = inbox_item(s, now);
            &&& item.attention_reason == "needs_reply"@
            &&& item.waiting_on == "me"@
            &&& item.suggested_action == "reply"@
            &&& item.priority == "medium"@
        }),
        p.kind == "approval"@ || p.kind == "reply"@ ==> inbox_item(s, now).basis
            == "prompt_kind"@,
        inbox_item(s, now).prompt_kind == Some(p.kind),
        inbox_item(s, now).prompt_status == Some(p.status),
{
    reveal_strlit("approval");
    reveal_strlit("reply");
    reveal_strlit("pending_approval");
    reveal_strlit("needs_reply");
    reveal_strlit("completed");
    reveal_strlit("active");
    reveal_strlit("updated");
    assert("approval"@.len() == 8);
    assert("reply"@.len() == 5);
    assert("pending_approval"@.len() == 16);
    assert("needs_reply"@.len() == 11);
    assert("completed"@.len() == 9);
    assert("active"@.len() == 6);
    assert("updated"@.len() == 7);
}

/// A thread without a prompt needs nothing of the user: it is done, was interrupted after it
/// said something, or is still worked on.
pub proof fn threads_without_a_prompt_need_nobody(s: BridgeThreadSnapshotV, now: u64)
    requires
        s.pending_prompt is None,
    ensures
        ({
            let item = inbox_item(s, now);
            let done = s.last_turn_status == Some("completed"@);
            let stopped = s.last_turn_status == Some("interrupted"@) && non_blank(s.last_preview)
                is Some;
            &&& done ==> item.attention_reason == "completed"@ && item.waiting_on == "none"@
                && item.suggested_action == "archive"@ && item.priority == "low"@ && item.basis
                == "last_turn_completed"@
            &&& stopped ==> item.attention_reason == "updated"@ && item.waiting_on == "none"@
                && item.suggested_action == "inspect"@ && item.priority == "medium"@
                && item.basis == "last_turn_interrupted"@
            &&& !done && !stopped ==> item.attention_reason == "active"@ && item.waiting_on
                == "codex"@ && item.suggested_action == "inspect"@ && item.priority == "medium"@
                && item.basis == "fallback_active"@
            &&& item.prompt_kind is None
            &&& item.prompt_status is None
            &&& item.question is None
        }),
{
    reveal_strlit("pending_approval");
    reveal_strlit("needs_reply");
    reveal_strlit("completed");
    reveal_strlit("active");
    reveal_strlit("updated");
    reveal_strlit("interrupted");
    assert("pending_approval"@.len() == 16);
    assert("needs_reply"@.len() == 11);
    assert("completed"@.len() == 9);
    assert("active"@.len() == 6);
    assert("updated"@.len() == 7);
    assert("interrupted"@.len() == 11);
    assert("needs_reply"@[0] != "interrupted"@[0]);
}

/// A row of the inbox is about its thread.
pub proof fn inbox_rows_are_about_their_thread(s: BridgeThreadSnapshotV, now: u64)
    ensures
        ({
            let item = inbox_item(s, now);
            &&& item.thread_id == s.thread_id
            &&& item.name == s.name
            &&& item.cwd == s.cwd
            &&& item.project == project_label(s.cwd)
            &&& item.updated_at == s.updated_at
            &&& item.status_type == s.status_type
            &&& item.status_flags == s.status_flags
            &&& item.age_seconds is Some <==> s.updated_at is Some
            &&& item.last_preview matches Some(t) ==> t.len() <= 221
            &&& item.question matches Some(t) ==> t.len() <= 161
            &&& s.last_preview is None ==> item.last_preview is None
            &&& begins_with(item.label, item.display_name)
        }),
{
    reveal_strlit("…");
    assert("…"@.len() == 1);
    lemma_preview_length(s.last_preview, 220);
    match s.pending_prompt {
        Some(p) => {
            lemma_preview_length(p.question, 160);
        },
        None => {},
    }
    let item = inbox_item(s, now);
    let shown = item.display_name;
    assert(item.label.subrange(0, shown.len() as int) =~= shown);
}

proof fn lemma_preview_length(input: Option<Seq<char>>, limit: nat)
    ensures
        preview(input, limit) matches Some(t) ==> t.len() <= limit + 1,
{
    reveal_strlit("…");
    assert("…"@.len() == 1);
    match input {
        Some(s) => {
            let text = collapsed(s);
            if text.len() > limit {
                lemma_trim_end_length(text.subrange(0, limit as int));
            }
        },
        None => {},
    }
}

proof fn lemma_trim_end_length(s: Seq<char>)
    ensures
        trim_end(s).len() <= s.len(),
    decreases s.len(),
{
    if s.len() > 0 {
        lemma_trim_end_length(s.drop_last());
    }
}

/// The time that passed is counted in whole seconds, and a time in seconds is the same as
/// that in milliseconds.
pub proof fn ages_count_seconds(then: u64, passed: u64)
    requires
        then < 100_000_000_000,
        then + passed < 100_000_000_000,
    ensures
        age_seconds((then + passed) as u64, then) == passed,
        then * 1000 >= 100_000_000_000 ==> age_seconds(
            ((then + passed) * 1000) as u64,
            then,
        ) == passed,
        passed > 0 ==> age_seconds(then, (then + passed) as u64) == 0,
{
    assert((then + passed) * 1000 - then * 1000 == passed * 1000);
    assert(passed * 1000 / 1000 == passed);
}

/// The away window holds what changed when the user went or later, and everything where it
/// is not known when that was; a change at an unknown time is not in it. Times are compared
/// in milliseconds, also where one is told in seconds.
pub proof fn the_away_window_begins_with_the_absence(started: u64, at: u64)
    ensures
        in_away_window(None, Some(at)),
        in_away_window(None, None),
        !in_away_window(Some(started), None),
        (started < 100_000_000_000 <==> at < 100_000_000_000) ==> (in_away_window(
            Some(started),
            Some(at),
        ) <==> at >= started),
        started >= 100_000_000_000 && at < 100_000_000_000 ==> (in_away_window(
            Some(started),
            Some(at),
        ) <==> at * 1000 >= started),
        started < 100_000_000_000 && at >= 100_000_000_000 ==> (in_away_window(
            Some(started),
            Some(at),
        ) <==> at >= started * 1000),
{
}

/// The project of a directory is its last component, whatever slashes follow it.
pub proof fn projects_are_last_components(above: Seq<char>, label: Seq<char>, slashes: nat)
    requires
        label.len() > 0,
        forall|i: int| 0 <= i < label.len() ==> (#[trigger] label[i]) != '/',
        above.len() == 0 || above.last() == '/',
    ensures
        project_label(Some(above + label + slashed(slashes))) == Some(label),
    decreases slashes,
{
    let s = above + label + slashed(slashes);
    let end = (above.len() + label.len()) as nat;
    lemma_slashed(slashes);
    lemma_component_end(s, s.len(), end);
    lemma_component_start(s, end, above.len());
    assert(s.subrange(above.len() as int, end as int) =~= label);
}

/// This many slashes.
pub open spec fn slashed(n: nat) -> Seq<char> {
    Seq::new(n, |i: int| '/')
}

proof fn lemma_slashed(n: nat)
    ensures
        slashed(n).len() == n,
{
}

proof fn lemma_component_end(s: Seq<char>, n: nat, end: nat)
    requires
        0 < end <= n <= s.len(),
        s[end - 1] != '/',
        forall|i: int| end <= i < n ==> (#[trigger] s[i]) == '/',
    ensures
        component_end(s, n) == end,
    decreases n,
{
    if n > end {
        assert(s[n - 1] == '/');
        lemma_component_end(s, (n - 1) as nat, end);
    }
}

proof fn lemma_component_start(s: Seq<char>, n: nat, start: nat)
    requires
        start <= n <= s.len(),
        start == 0 || s[start - 1] == '/',
        forall|i: int| start <= i < n ==> (#[trigger] s[i]) != '/',
    ensures
        component_start(s, n) == start,
    decreases n,
{
    if n > start {
        assert(s[n - 1] != '/');
        lemma_component_start(s, (n - 1) as nat, start);
    }
}

/// A thread is shown by its name; without one by what it asks; without that by its project,
/// or by the beginning of its id.
pub proof fn threads_are_shown_by_their_name(
    name: Option<Seq<char>>,
    project: Option<Seq<char>>,
    question: Option<Seq<char>>,
    thread_id: Seq<char>,
)
    ensures
        non_blank(name) matches Some(n) ==> display_name(name, project, question, thread_id) == n,
        non_blank(name) is None && non_blank(question) is Some && collapsed(non_blank(question)->0)
            == non_blank(question)->0 && 0 < non_blank(question)->0.len() <= 80 ==> display_name(
            name,
            project,
            question,
            thread_id,
        ) == non_blank(question)->0,
        non_blank(name) is None && non_blank(question) is None && project is Some
            && project->0.len() > 0 ==> display_name(name, project, question, thread_id)
            == "Untitled "@ + project->0 + " thread"@,
        non_blank(name) is None && non_blank(question) is None && (project is None
            || project->0.len() == 0) ==> display_name(name, project, question, thread_id)
            == "Untitled thread "@ + (if thread_id.len() <= 8 {
            thread_id
        } else {
            thread_id.take(8)
        }),
{
    if thread_id.len() > 8 {
        assert(thread_id.subrange(0, 8) =~= thread_id.take(8));
    }
}

/// The more urgent row comes first, whenever either changed; among equally urgent rows the
/// later change does.
pub proof fn urgency_goes_before_time(a: Option<u64>, b: Option<u64>, earlier: u64, later: u64)
    requires
        a matches Some(t) ==> t < 100_000_000_000_000,
        b matches Some(t) ==> t < 100_000_000_000_000,
        earlier < later,
    ensures
        inbox_score("high"@, a) > inbox_score("medium"@, b),
        inbox_score("medium"@, a) > inbox_score("low"@, b),
        inbox_score("high"@, Some(later)) > inbox_score("high"@, Some(earlier)),
        inbox_score("medium"@, Some(later)) > inbox_score("medium"@, Some(earlier)),
        inbox_score("low"@, Some(later)) > inbox_score("low"@, Some(earlier)),
        inbox_score("low"@, Some(earlier)) >= inbox_score("low"@, None),
{
    reveal_strlit("high");
    reveal_strlit("medium");
    reveal_strlit("low");
    assert("high"@.len() == 4);
    assert("medium"@.len() == 6);
    assert("low"@.len() == 3);
}

// ---------------------------------------------------------------------------
// Storing a thread
// ---------------------------------------------------------------------------

/// What is stored of a thread is what its snapshot says.
pub proof fn stored_threads_say_what_was_seen(
    st: BridgeStateV,
    s: BridgeThreadSnapshotV,
    now: i64,
    other: Seq<char>,
)
    requires
        st.well_formed(),
        other != s.thread_id,
    ensures
        ({
            let row = first_row(
                with_snapshot(st, s, now).threads,
                key_is(thread_row_key(), s.thread_id),
            );
            &&& row is Some
            &&& row->0.thread_id == s.thread_id
            &&& row->0.name == s.name
            &&& row->0.cwd == s.cwd
            &&& row->0.source == "codex-app-server"@
            &&& row->0.status_type == s.status_type
            &&& row->0.status_flags == s.status_flags
            &&& row->0.last_turn_status == s.last_turn_status
            &&& row->0.last_preview == s.last_preview
            &&& row->0.last_seen_at == now
        }),
        ({
            let row = first_row(
                with_snapshot(st, s, now).prompts,
                key_is(prompt_row_key(), s.thread_id),
            );
            &&& row is Some <==> s.pending_prompt is Some
            &&& s.pending_prompt matches Some(p) ==> {
                &&& row->0.thread_id == s.thread_id
                &&& row->0.prompt_id == p.prompt_id
                &&& row->0.prompt_kind == p.kind
                &&& row->0.prompt_status == p.status
                &&& p.question matches Some(q) ==> row->0.question == q
                &&& p.question is None ==> row->0.question.len() == 0
                &&& row->0.created_at == now
            }
        }),
        ({
            let after = with_snapshot(st, s, now);
            &&& after.settings == st.settings
            &&& after.deliveries == st.deliveries
            &&& after.events == st.events
            &&& after.outbound == st.outbound
            &&& after.message_routes == st.message_routes
            &&& after.callback_routes == st.callback_routes
            &&& after.command_routes == st.command_routes
            &&& after.transports == st.transports
            &&& after.inbound == st.inbound
            &&& after.actions == st.actions
        }),
{
    threads_are_read_back(st, s, now, other);
}

/// The time of the last change of a stored thread is the later of the one that was known and
/// the one that was seen, and a snapshot without one keeps what was known.
pub proof fn stored_times_never_go_back(st: BridgeStateV, s: BridgeThreadSnapshotV, now: i64)
    requires
        st.well_formed(),
    ensures
        ({
            let known = match first_row(st.threads, key_is(thread_row_key(), s.thread_id)) {
                Some(row) => row.updated_at,
                None => None,
            };
            let stored = first_row(
                with_snapshot(st, s, now).threads,
                key_is(thread_row_key(), s.thread_id),
            )->0.updated_at;
            &&& s.updated_at is None ==> stored == known
            &&& known is None ==> (s.updated_at matches Some(u) ==> stored == Some(u as i64))
            &&& (known matches Some(k) && s.updated_at matches Some(u)) ==> {
                &&& stored is Some
                &&& stored->0 >= known->0
                &&& stored->0 >= s.updated_at->0 as i64
                &&& stored->0 == known->0 || stored->0 == s.updated_at->0 as i64
            }
        }),
{
    let other = s.thread_id.push('x');
    assert(other.len() != s.thread_id.len());
    threads_are_read_back(st, s, now, other);
    let hit = key_is(thread_row_key(), s.thread_id);
    let new_updated = match s.updated_at {
        Some(u) => Some(u as i64),
        None => None,
    };
    let updated = match first_row(st.threads, hit) {
        Some(row) => later(row.updated_at, new_updated),
        None => new_updated,
    };
    put_keeps_keys(st.threads, thread_row_key(), thread_row(s, updated, now));
}

/// A snapshot is shown with all that it says.
pub proof fn shown_snapshots_say_it_all(s: BridgeThreadSnapshotV)
    ensures
        ({
            let v = snapshot_json(s);
            &&& text_member(v, "threadId"@) == Some(s.thread_id)
            &&& text_member(v, "name"@) == s.name
            &&& text_member(v, "cwd"@) == s.cwd
            &&& uint_value(member(v, "updatedAt"@)) == s.updated_at
            &&& text_member(v, "statusType"@) == Some(s.status_type)
            &&& member(v, "statusFlags"@) == Some(text_array(s.status_flags))
            &&& text_member(v, "lastTurnStatus"@) == s.last_turn_status
            &&& text_member(v, "lastPreview"@) == s.last_preview
            &&& s.pending_prompt is None ==> member(v, "pendingPrompt"@) == Some(JsonV::Null)
            &&& s.pending_prompt matches Some(p) ==> (member(v, "pendingPrompt"@) matches Some(q)
                && text_member(q, "promptId"@) == Some(p.prompt_id) && text_member(q, "promptKind"@)
                == Some(p.kind) && text_member(q, "promptStatus"@) == Some(p.status)
                && text_member(q, "question"@) == p.question)
        }),
{
    broadcast use {empty_objects_have_no_members, pushed_members_are_found};

    reveal_strlit("threadId");
    reveal_strlit("name");
    reveal_strlit("cwd");
    reveal_strlit("updatedAt");
    reveal_strlit("statusType");
    reveal_strlit("statusFlags");
    reveal_strlit("lastTurnStatus");
    reveal_strlit("lastPreview");
    reveal_strlit("pendingPrompt");
    assert("threadId"@.len() == 8);
    assert("name"@.len() == 4);
    assert("cwd"@.len() == 3);
    assert("updatedAt"@.len() == 9);
    assert("statusType"@.len() == 10);
    assert("statusFlags"@.len() == 11);
    assert("lastTurnStatus"@.len() == 14);
    assert("lastPreview"@.len() == 11);
    assert("pendingPrompt"@.len() == 13);
    assert("statusFlags"@[0] != "lastPreview"@[0]);
    reveal_strlit("promptId");
    reveal_strlit("promptKind");
    reveal_strlit("promptStatus");
    reveal_strlit("question");
    assert("promptId"@.len() == 8);
    assert("promptKind"@.len() == 10);
    assert("promptStatus"@.len() == 12);
    assert("question"@.len() == 8);
    assert("promptId"@[0] != "question"@[0]);
}

// ---------------------------------------------------------------------------
// Telling of a thread
// ---------------------------------------------------------------------------

/// A time in the key of an event.
pub open spec fn key_time(at: Option<u64>) -> Seq<char> {
    match at {
        Some(t) => decimal(t as nat),
        None => "none"@,
    }
}

/// The key under which it is remembered that a waiting thread was told of.
pub open spec fn waiting_key(s: BridgeThreadSnapshotV, p: PendingPromptV) -> Seq<char> {
    "thread_waiting:"@ + s.thread_id + ":"@ + p.prompt_id + ":"@ + key_time(s.updated_at)
}

/// The key under which it is remembered that a thread that is done was told of.
pub open spec fn done_key(s: BridgeThreadSnapshotV) -> Seq<char> {
    "thread_completed:"@ + s.thread_id + ":"@ + key_time(s.updated_at)
}

/// It is remembered that an event was told.
pub open spec fn remembered(st: BridgeStateV, key: Seq<char>) -> bool {
    exists|i: int| 0 <= i < st.deliveries.len() && (#[trigger] st.deliveries[i]).event_key == key
}

proof fn lemma_remembered(st: BridgeStateV, key: Seq<char>)
    ensures
        remembered(st, key) <==> delivered_before(st, key),
{
    let hit = key_is(delivery_row_key(), key);
    lemma_position(st.deliveries, hit, 0);
    if remembered(st, key) {
        let i = choose|i: int|
            0 <= i < st.deliveries.len() && (#[trigger] st.deliveries[i]).event_key == key;
        assert(hit(st.deliveries[i]));
    }
    if delivered_before(st, key) {
        let p = position(st.deliveries, hit, 0) as int;
        assert(hit(st.deliveries[p]));
        assert(st.deliveries[p].event_key == key);
    }
}

/// The event tells that a thread waits, and for what.
pub open spec fn tells_of_waiting(e: JsonV, s: BridgeThreadSnapshotV, p: PendingPromptV) -> bool {
    &&& text_member(e, "type"@) == Some("thread_waiting"@)
    &&& text_member(e, "threadId"@) == Some(s.thread_id)
    &&& text_member(e, "promptKind"@) == Some(p.kind)
    &&& uint_value(member(e, "updatedAt"@)) == s.updated_at
    &&& text_member(e, "lastPreview"@) == s.last_preview
}

/// The event tells that a thread is done.
pub open spec fn tells_of_the_end(e: JsonV, s: BridgeThreadSnapshotV) -> bool {
    &&& text_member(e, "type"@) == Some("thread_completed"@)
    &&& text_member(e, "threadId"@) == Some(s.thread_id)
    &&& member(e, "promptKind"@) is None
    &&& uint_value(member(e, "updatedAt"@)) == s.updated_at
    &&& text_member(e, "lastPreview"@) == s.last_preview
}

/// Something is told of a thread: it has a prompt, of whatever kind, or its last turn is done.
pub open spec fn worth_telling(s: BridgeThreadSnapshotV) -> bool {
    s.pending_prompt is Some || s.last_turn_status == Some("completed"@)
}

/// The key under which it is remembered that a thread was told of.
pub open spec fn telling_key(s: BridgeThreadSnapshotV) -> Seq<char> {
    match s.pending_prompt {
        Some(p) => waiting_key(s, p),
        None => done_key(s),
    }
}

/// The event tells of the thread what there is to tell.
pub open spec fn tells_of(e: JsonV, s: BridgeThreadSnapshotV) -> bool {
    match s.pending_prompt {
        Some(p) => tells_of_waiting(e, s, p),
        None => tells_of_the_end(e, s),
    }
}

proof fn lemma_event_tells(s: BridgeThreadSnapshotV)
    ensures
        snapshot_event(s) is Some <==> worth_telling(s),
        snapshot_event(s) matches Some((kind, key, event)) ==> key == telling_key(s) && tells_of(
            event,
            s,
        ) && text_member(event, "type"@) == Some(kind),
{
    broadcast use {empty_objects_have_no_members, pushed_members_are_found};

    reveal_strlit("type");
    reveal_strlit("threadId");
    reveal_strlit("promptKind");
    reveal_strlit("updatedAt");
    reveal_strlit("lastPreview");
    assert("type"@.len() == 4);
    assert("threadId"@.len() == 8);
    assert("promptKind"@.len() == 10);
    assert("updatedAt"@.len() == 9);
    assert("lastPreview"@.len() == 11);
}

/// While the user is away, a thread of the away window that waits, for whatever, or is done
/// is told of exactly where it was not told of before, or where that is not remembered; and
/// the event says which thread it is and what it waits for. Of any other thread nothing is
/// told, and nothing while the user is there.
pub proof fn threads_are_told_of(
    st: BridgeStateV,
    s: BridgeThreadSnapshotV,
    now: i64,
    away: bool,
    since: Option<u64>,
    once: bool,
)
    ensures
        reconcile_one(st, s, now, away, since, once).1 is Some <==> away && in_away_window(
            since,
            s.updated_at,
        ) && worth_telling(s) && !(once && remembered(st, telling_key(s))),
        reconcile_one(st, s, now, away, since, once).1 matches Some(e) ==> tells_of(e, s),
{
    lemma_event_tells(s);
    lemma_remembered(with_snapshot(st, s, now), telling_key(s));
    assert(with_snapshot(st, s, now).deliveries == st.deliveries);
}

/// What is told of a thread is remembered and logged, under the type of the event and the id
/// of the thread; of nothing else it is remembered.
pub proof fn what_is_told_is_remembered(
    st: BridgeStateV,
    s: BridgeThreadSnapshotV,
    now: i64,
    since: Option<u64>,
    key: Seq<char>,
)
    requires
        in_away_window(since, s.updated_at),
        worth_telling(s),
    ensures
        remembered(reconcile_one(st, s, now, true, since, true).0, telling_key(s)),
        key != telling_key(s) ==> (remembered(
            reconcile_one(st, s, now, true, since, true).0,
            key,
        ) <==> remembered(st, key)),
        remembered(reconcile_one(st, s, now, true, since, false).0, key) <==> remembered(st, key),
        !remembered(st, telling_key(s)) ==> ({
            let log = reconcile_one(st, s, now, true, since, true).0.deliveries;
            &&& log.len() == st.deliveries.len() + 1
            &&& log.last().event_key == telling_key(s)
            &&& log.last().thread_id == s.thread_id
            &&& log.last().delivered_at == now
            &&& log.last().event_type == (if s.pending_prompt is Some {
                "thread_waiting"@
            } else {
                "thread_completed"@
            })
        }),
{
    lemma_event_tells(s);
    let stored = with_snapshot(st, s, now);
    assert(stored.deliveries == st.deliveries);
    lemma_remembered(stored, telling_key(s));
    lemma_remembered(st, telling_key(s));
    assert(reconcile_one(st, s, now, true, since, false).0.deliveries == st.deliveries);
    let after = reconcile_one(st, s, now, true, since, true).0;
    let row = DeliveryRowV {
        event_key: telling_key(s),
        thread_id: s.thread_id,
        event_type: if s.pending_prompt is Some {
            "thread_waiting"@
        } else {
            "thread_completed"@
        },
        delivered_at: now,
    };
    if delivered_before(st, telling_key(s)) {
        assert(after.deliveries == st.deliveries);
    } else {
        assert(after.deliveries == st.deliveries.push(row));
        assert(after.deliveries[st.deliveries.len() as int] == row);
        if remembered(st, key) {
            let i = choose|i: int|
                0 <= i < st.deliveries.len() && (#[trigger] st.deliveries[i]).event_key == key;
            assert(after.deliveries[i] == st.deliveries[i]);
        }
        if remembered(after, key) && key != telling_key(s) {
            let i = choose|i: int|
                0 <= i < after.deliveries.len() && (#[trigger] after.deliveries[i]).event_key
                    == key;
            assert(i < st.deliveries.len());
            assert(st.deliveries[i] == after.deliveries[i]);
        }
    }
}

/// In a run over snapshots every thread of the away window that waits or is done, and that was
/// not told of before, adds one event, which tells of it, and which the report holds.
pub proof fn every_thread_is_told_of(
    st: BridgeStateV,
    snapshots: Seq<BridgeThreadSnapshotV>,
    now: i64,
    since: Option<u64>,
    once: bool,
    threads: Seq<JsonV>,
    i: int,
)
    requires
        0 <= i < snapshots.len(),
        in_away_window(since, snapshots[i].updated_at),
        worth_telling(snapshots[i]),
        once ==> !remembered(st, telling_key(snapshots[i])),
        once ==> forall|k: int|
            0 <= k < i ==> telling_key(#[trigger] snapshots[k]) != telling_key(snapshots[i]),
    ensures
        ({
            let before = reconcile_upto(st, snapshots, i as nat, now, true, since, once).1;
            let after = reconcile_upto(st, snapshots, (i + 1) as nat, now, true, since, once).1;
            let all = reconcile_upto(st, snapshots, snapshots.len(), now, true, since, once).1;
            &&& after.len() == before.len() + 1
            &&& tells_of(after.last(), snapshots[i])
            &&& after.is_prefix_of(all)
            &&& all.contains(after.last())
            &&& member(sync_report(threads, all, true), "events"@) == Some(JsonV::Array(all))
            &&& member(sync_report(threads, all, true), "threads"@) == Some(JsonV::Array(threads))
        }),
{
    broadcast use {empty_objects_have_no_members, pushed_members_are_found};

    reveal_strlit("synced");
    reveal_strlit("threads");
    reveal_strlit("events");
    reveal_strlit("away");
    assert("synced"@.len() == 6);
    assert("threads"@.len() == 7);
    assert("events"@.len() == 6);
    assert("away"@.len() == 4);
    assert("synced"@[0] != "events"@[0]);
    let at = reconcile_upto(st, snapshots, i as nat, now, true, since, once).0;
    threads_are_told_of(at, snapshots[i], now, true, since, once);
    if once {
        lemma_not_remembered(st, snapshots, i as nat, now, since, telling_key(snapshots[i]));
    }
    let after = reconcile_upto(st, snapshots, (i + 1) as nat, now, true, since, once).1;
    let all = reconcile_upto(st, snapshots, snapshots.len(), now, true, since, once).1;
    lemma_events_grow(st, snapshots, (i + 1) as nat, snapshots.len(), now, since, once);
    assert(all[after.len() - 1] == after.last());
}

proof fn lemma_not_remembered(
    st: BridgeStateV,
    snapshots: Seq<BridgeThreadSnapshotV>,
    n: nat,
    now: i64,
    since: Option<u64>,
    key: Seq<char>,
)
    requires
        n <= snapshots.len(),
        !remembered(st, key),
        forall|k: int| 0 <= k < n ==> telling_key(#[trigger] snapshots[k]) != key,
    ensures
        !remembered(reconcile_upto(st, snapshots, n, now, true, since, true).0, key),
    decreases n,
{
    if n > 0 {
        lemma_not_remembered(st, snapshots, (n - 1) as nat, now, since, key);
        let at = reconcile_upto(st, snapshots, (n - 1) as nat, now, true, since, true).0;
        let s = snapshots[n - 1];
        lemma_event_tells(s);
        if in_away_window(since, s.updated_at) && worth_telling(s) {
            what_is_told_is_remembered(at, s, now, since, key);
        } else {
            assert(reconcile_one(at, s, now, true, since, true).0.deliveries == at.deliveries);
        }
    }
}

proof fn lemma_events_grow(
    st: BridgeStateV,
    snapshots: Seq<BridgeThreadSnapshotV>,
    n: nat,
    m: nat,
    now: i64,
    since: Option<u64>,
    once: bool,
)
    requires
        n <= m <= snapshots.len(),
    ensures
        reconcile_upto(st, snapshots, n, now, true, since, once).1.is_prefix_of(
            reconcile_upto(st, snapshots, m, now, true, since, once).1,
        ),
    decreases m,
{
    if n < m {
        lemma_events_grow(st, snapshots, n, (m - 1) as nat, now, since, once);
    }
}

/// The report of a run says how many threads it saw, and whether the user is away.
pub proof fn reports_count_the_threads(threads: Seq<JsonV>, events: Seq<JsonV>, away: bool)
    requires
        threads.len() <= u64::MAX,
    ensures
        member(sync_report(threads, events, away), "synced"@) == Some(
            JsonV::UInt(threads.len() as u64),
        ),
        member(sync_report(threads, events, away), "threads"@) == Some(JsonV::Array(threads)),
        member(sync_report(threads, events, away), "events"@) == Some(JsonV::Array(events)),
        member(sync_report(threads, events, away), "away"@) == Some(JsonV::Bool(away)),
{
    broadcast use {empty_objects_have_no_members, pushed_members_are_found};

    reveal_strlit("synced");
    reveal_strlit("threads");
    reveal_strlit("events");
    reveal_strlit("away");
    assert("synced"@.len() == 6);
    assert("threads"@.len() == 7);
    assert("events"@.len() == 6);
    assert("away"@.len() == 4);
    assert("synced"@[0] != "events"@[0]);
}

/// A thread that changes again, or waits for something else, is told of again: what is
/// remembered is not the thread but its prompt and the time of its change.
pub proof fn changes_are_told_of_again(
    s: BridgeThreadSnapshotV,
    later: BridgeThreadSnapshotV,
    p: PendingPromptV,
    q: PendingPromptV,
)
    requires
        s.thread_id == later.thread_id,
    ensures
        s.updated_at != later.updated_at ==> waiting_key(s, p) != waiting_key(later, p)
            && done_key(s) != done_key(later),
        s.updated_at == later.updated_at && p.prompt_id != q.prompt_id ==> waiting_key(s, p)
            != waiting_key(later, q),
        waiting_key(s, p) != done_key(later),
{
    if s.updated_at != later.updated_at {
        lemma_times_differ(s.updated_at, later.updated_at);
    }
    reveal_strlit("thread_waiting:");
    reveal_strlit("thread_completed:");
    reveal_strlit(":");
    assert("thread_waiting:"@.len() == 15);
    assert("thread_completed:"@.len() == 17);
    assert(":"@.len() == 1);
    let head = "thread_waiting:"@ + s.thread_id + ":"@ + p.prompt_id + ":"@;
    let done = "thread_completed:"@ + s.thread_id + ":"@;
    if s.updated_at != later.updated_at {
        if waiting_key(s, p) == waiting_key(later, p) {
            assert(waiting_key(s, p).skip(head.len() as int) =~= key_time(s.updated_at));
            assert(waiting_key(later, p).skip(head.len() as int) =~= key_time(later.updated_at));
        }
        if done_key(s) == done_key(later) {
            assert(done_key(s).skip(done.len() as int) =~= key_time(s.updated_at));
            assert(done_key(later).skip(done.len() as int) =~= key_time(later.updated_at));
        }
    }
    if s.updated_at == later.updated_at && waiting_key(s, p) == waiting_key(later, q) {
        let start = "thread_waiting:"@ + s.thread_id + ":"@;
        let tail = ":"@ + key_time(s.updated_at);
        let a = waiting_key(s, p);
        assert(a.len() == start.len() + p.prompt_id.len() + tail.len());
        assert(a.len() == start.len() + q.prompt_id.len() + tail.len());
        assert(a.subrange(start.len() as int, a.len() - tail.len()) =~= p.prompt_id);
        assert(waiting_key(later, q).subrange(start.len() as int, a.len() - tail.len())
            =~= q.prompt_id);
    }
    assert(waiting_key(s, p)[7] == "thread_waiting:"@[7]);
    assert(done_key(later)[7] == "thread_completed:"@[7]);
}

proof fn lemma_times_differ(a: Option<u64>, b: Option<u64>)
    requires
        a != b,
    ensures
        key_time(a) != key_time(b),
{
    reveal_strlit("none");
    assert("none"@.len() == 4);
    match a {
        Some(x) => {
            decimal_parses_back(x);
            lemma_decimal_digits(x as nat);
        },
        None => {},
    }
    match b {
        Some(y) => {
            decimal_parses_back(y);
            lemma_decimal_digits(y as nat);
        },
        None => {},
    }
    assert(!is_digit("none"@[0]));
}

/// What is told of a thread is logged too: the event itself, under its key, with the thread and
/// the moment.
pub proof fn what_is_told_is_logged(
    st: BridgeStateV,
    s: BridgeThreadSnapshotV,
    now: i64,
    since: Option<u64>,
    once: bool,
)
    requires
        in_away_window(since, s.updated_at),
        worth_telling(s),
        once ==> !remembered(st, telling_key(s)),
        first_row(st.events, key_is(event_row_key(), telling_key(s))) is None,
    ensures
        ({
            let (after, told) = reconcile_one(st, s, now, true, since, once);
            let row = first_row(after.events, key_is(event_row_key(), telling_key(s)));
            &&& told is Some
            &&& row is Some
            &&& row->0.payload == told->0
            &&& row->0.thread_id == s.thread_id
            &&& row->0.observed_at == now
            &&& row->0.event_type == (if s.pending_prompt is Some {
                "thread_waiting"@
            } else {
                "thread_completed"@
            })
        }),
{
    lemma_event_tells(s);
    let stored = with_snapshot(st, s, now);
    lemma_remembered(stored, telling_key(s));
    lemma_remembered(st, telling_key(s));
    assert(stored.deliveries == st.deliveries && stored.events == st.events);
    let (kind, key, event) = snapshot_event(s)->0;
    let row = EventRowV {
        event_key: key,
        thread_id: s.thread_id,
        event_type: kind,
        observed_at: now,
        payload: event,
    };
    lemma_first_push(st.events, row, key_is(event_row_key(), key));
}

} // verus!
