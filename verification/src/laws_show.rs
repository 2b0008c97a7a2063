//! What holds of a thread as it is shown, and of texts that are shortened or written as JSON.
use vstd::prelude::*;
use vstd::string::*;

use crate::codex::{
    delta_summary, has_flag, item_text, last_in_turns, last_of_type, last_turn_status, named_flags,
    open_question, part_texts, shown_result, shown_thread, shown_thread_id, status_type,
    unresolved_summary, Wanted, wanted_text,
};
use crate::error::BridgeErrorV;
use crate::history::recent_actions;
use crate::json::{
    array_value, empty_objects_have_no_members, json_string, JsonV, member, opt_member,
    pushed_members_are_found, text_member, text_value,
};
use crate::laws_text::joining_puts_the_separator_between;
use crate::order::{insert_text, sorted_text};
use crate::state::BridgeStateV;
use crate::text::{contains_text, decimal, joined, non_blank, trim_end, trimmed, words};
use crate::thread::{first_chars, preview, priority, project_label, suggested_action, waiting_on};
use crate::writing::{comma_joined, item_texts, json_text, member_rows, member_texts};

verus! {

// ---------------------------------------------------------------------------
// What was said last
// ---------------------------------------------------------------------------

/// The last message of a type is that of the last item of the last turn, where that item is of
/// the type and has a text.
pub proof fn the_last_message_is_found(
    thread: JsonV,
    turns: Seq<JsonV>,
    items: Seq<JsonV>,
    kind: &str,
    text: Seq<char>,
)
    requires
        member(thread, "turns"@) == Some(JsonV::Array(turns)),
        turns.len() > 0,
        member(turns.last(), "items"@) == Some(JsonV::Array(items)),
        items.len() > 0,
        text_member(items.last(), "type"@) == Some(kind@),
        text_member(items.last(), "text"@) == Some(text),
        trimmed(text).len() > 0,
    ensures
        last_of_type(thread, kind) == Some(trimmed(text)),
{
    assert(items[items.len() - 1] == items.last());
    assert(turns[turns.len() - 1] == turns.last());
}

/// A turn without items says nothing: what was said before it is the last.
pub proof fn silent_turns_are_passed_over(
    thread: JsonV,
    longer: JsonV,
    turns: Seq<JsonV>,
    silent: JsonV,
    kind: &str,
)
    requires
        member(thread, "turns"@) == Some(JsonV::Array(turns)),
        member(longer, "turns"@) == Some(JsonV::Array(turns.push(silent))),
        member(silent, "items"@) == Some(JsonV::Array(Seq::empty())),
    ensures
        last_of_type(longer, kind) == last_of_type(thread, kind),
{
    let all = turns.push(silent);
    assert(all[all.len() - 1] == silent);
    let want = |item: JsonV| wanted_text(Wanted::OfType(kind), item);
    lemma_turns_prefix(turns, silent, turns.len(), want);
    assert(last_of_type(longer, kind) == last_in_turns(all, all.len(), want));
    assert(last_of_type(thread, kind) == last_in_turns(turns, turns.len(), want));
}

proof fn lemma_turns_prefix(
    turns: Seq<JsonV>,
    last: JsonV,
    n: nat,
    want: spec_fn(JsonV) -> Option<Seq<char>>,
)
    requires
        n <= turns.len(),
    ensures
        last_in_turns(turns.push(last), n, want) == last_in_turns(turns, n, want),
    decreases n,
{
    if n > 0 {
        assert(turns.push(last)[n - 1] == turns[n - 1]);
        lemma_turns_prefix(turns, last, (n - 1) as nat, want);
    }
}

/// A question is open where the user's last message holds a question mark.
pub proof fn questions_are_open(thread: JsonV)
    ensures
        last_of_type(thread, "userMessage") matches Some(text) ==> open_question(thread) == (
        if contains_text(text, "?"@) {
            Some(text)
        } else {
            None
        }),
        last_of_type(thread, "userMessage") is None ==> open_question(thread) is None,
{
}

/// The text of an item is its own, and else that of its parts with blanks between them.
pub proof fn items_have_the_text_of_their_parts(item: JsonV, a: JsonV, b: JsonV, first: Seq<char>, second: Seq<char>)
    requires
        text_member(item, "text"@) is None,
        member(item, "content"@) == Some(JsonV::Array(seq![a, b])),
        text_member(a, "text"@) == Some(first),
        text_member(b, "text"@) == Some(second),
    ensures
        item_text(item) == non_blank(Some(first + " "@ + second)),
{
    let parts = seq![a, b];
    reveal_with_fuel(part_texts, 3);
    assert(parts[0] == a && parts[1] == b);
    let texts = Seq::<Seq<char>>::empty().push(first).push(second);
    assert(part_texts(parts, 2) =~= texts);
    joining_puts_the_separator_between(Seq::<Seq<char>>::empty().push(first), " "@, second);
    joining_puts_the_separator_between(Seq::<Seq<char>>::empty(), " "@, first);
}

// ---------------------------------------------------------------------------
// The shown thread
// ---------------------------------------------------------------------------

/// A thread that waits for an approval can be approved and not replied to, one that waits for
/// an input can be replied to and not approved, and one that waits for nothing can be replied
/// to.
#[verifier::rlimit(60)]
pub proof fn shown_threads_can_be_answered_as_they_wait(
    requested: Seq<char>,
    response: JsonV,
    thread: JsonV,
    recent: Seq<JsonV>,
    flags: Seq<Seq<char>>,
    shown: JsonV,
)
    requires
        member(response, "thread"@) == Some(thread),
        named_flags(thread) == Some(flags),
        member(shown_thread(requested, response, recent), "thread"@) == Some(shown),
    ensures
        flags.contains("waitingOnApproval"@) ==> {
            &&& member(shown, "canApprove"@) == Some(JsonV::Bool(true))
            &&& member(shown, "canReply"@) == Some(JsonV::Bool(false))
            &&& member(shown, "isWaiting"@) == Some(JsonV::Bool(true))
            &&& text_value(opt_member(member(shown, "pendingPrompt"@), "kind"@)) == Some(
                "approval"@,
            )
            &&& text_member(shown, "unresolvedSummary"@) == Some("Approval is still pending."@)
        },
        !flags.contains("waitingOnApproval"@) && (flags.contains("waitingOnUserInput"@)
            || flags.contains("waitingOnInput"@)) ==> {
            &&& member(shown, "canApprove"@) == Some(JsonV::Bool(false))
            &&& member(shown, "canReply"@) == Some(JsonV::Bool(true))
            &&& member(shown, "isWaiting"@) == Some(JsonV::Bool(true))
            &&& text_value(opt_member(member(shown, "pendingPrompt"@), "kind"@)) == Some("reply"@)
        },
        !flags.contains("waitingOnApproval"@) && !flags.contains("waitingOnUserInput"@)
            && !flags.contains("waitingOnInput"@) ==> {
            &&& member(shown, "canApprove"@) == Some(JsonV::Bool(false))
            &&& member(shown, "canReply"@) == Some(JsonV::Bool(true))
            &&& member(shown, "isWaiting"@) == Some(JsonV::Bool(false))
            &&& member(shown, "pendingPrompt"@) == Some(JsonV::Null)
        },
{
    broadcast use {empty_objects_have_no_members, pushed_members_are_found};

    reveal_strlit("threadId");
    reveal_strlit("name");
    reveal_strlit("displayName");
    reveal_strlit("project");
    reveal_strlit("cwd");
    reveal_strlit("statusType");
    reveal_strlit("statusFlags");
    reveal_strlit("pendingPrompt");
    reveal_strlit("canReply");
    reveal_strlit("canApprove");
    reveal_strlit("isWaiting");
    reveal_strlit("isCompleted");
    reveal_strlit("lastTurnStatus");
    reveal_strlit("lastAgentMessage");
    reveal_strlit("lastUserMessage");
    reveal_strlit("latestQuestion");
    reveal_strlit("deltaSummary");
    reveal_strlit("unresolvedSummary");
    reveal_strlit("recentActions");
    reveal_strlit("turns");
    assert("threadId"@.len() == 8);
    assert("name"@.len() == 4);
    assert("displayName"@.len() == 11);
    assert("project"@.len() == 7);
    assert("cwd"@.len() == 3);
    assert("statusType"@.len() == 10);
    assert("statusFlags"@.len() == 11);
    assert("pendingPrompt"@.len() == 13);
    assert("canReply"@.len() == 8);
    assert("canApprove"@.len() == 10);
    assert("isWaiting"@.len() == 9);
    assert("isCompleted"@.len() == 11);
    assert("lastTurnStatus"@.len() == 14);
    assert("lastAgentMessage"@.len() == 16);
    assert("lastUserMessage"@.len() == 15);
    assert("latestQuestion"@.len() == 14);
    assert("deltaSummary"@.len() == 12);
    assert("unresolvedSummary"@.len() == 17);
    assert("recentActions"@.len() == 13);
    assert("turns"@.len() == 5);
    assert("threadId"@[0] != "canReply"@[0]);
    assert("displayName"@[0] != "statusFlags"@[0]);
    assert("displayName"@[0] != "isCompleted"@[0]);
    assert("statusType"@[0] != "canApprove"@[0]);
    assert("statusFlags"@[0] != "isCompleted"@[0]);
    assert("pendingPrompt"@[0] != "recentActions"@[0]);
    assert("lastTurnStatus"@[2] != "latestQuestion"@[2]);
    reveal_strlit("kind");
    reveal_strlit("promptStatus");
    assert("kind"@.len() == 4);
    assert("promptStatus"@.len() == 12);
    reveal_strlit("approval");
    reveal_strlit("reply");
    assert("approval"@.len() == 8);
    assert("reply"@.len() == 5);
    lemma_flag(flags, "waitingOnApproval"@);
    lemma_flag(flags, "waitingOnUserInput"@);
    lemma_flag(flags, "waitingOnInput"@);
}

proof fn lemma_flag(flags: Seq<Seq<char>>, flag: Seq<char>)
    ensures
        has_flag(flags, flag) <==> flags.contains(flag),
{
    if flags.contains(flag) {
        let i = choose|i: int| 0 <= i < flags.len() && flags[i] == flag;
        assert(flags[i] == flag);
    }
}

/// A shown thread has the name, the directory, the flags, the turns and the last messages of
/// the thread that was read, and the recent actions that are given.
#[verifier::rlimit(60)]
pub proof fn shown_threads_say_what_was_read(
    requested: Seq<char>,
    response: JsonV,
    thread: JsonV,
    recent: Seq<JsonV>,
    shown: JsonV,
)
    requires
        member(response, "thread"@) == Some(thread),
        member(shown_thread(requested, response, recent), "thread"@) == Some(shown),
    ensures
        text_member(thread, "id"@) is Some ==> text_member(shown, "threadId"@) == text_member(
            thread,
            "id"@,
        ),
        text_member(thread, "id"@) is None ==> text_member(shown, "threadId"@) == Some(requested),
        text_member(shown, "name"@) == text_member(thread, "name"@),
        text_member(shown, "cwd"@) == text_member(thread, "cwd"@),
        text_member(shown, "project"@) == project_label(text_member(thread, "cwd"@)),
        status_type(thread) is Some ==> text_member(shown, "statusType"@) == status_type(thread),
        status_type(thread) is None ==> text_member(shown, "statusType"@) == Some("unknown"@),
        text_member(shown, "lastTurnStatus"@) == last_turn_status(thread),
        member(shown, "isCompleted"@) == Some(
            JsonV::Bool(last_turn_status(thread) == Some("completed"@)),
        ),
        text_member(shown, "lastAgentMessage"@) == last_of_type(thread, "agentMessage"),
        text_member(shown, "lastUserMessage"@) == last_of_type(thread, "userMessage"),
        text_member(shown, "latestQuestion"@) == open_question(thread),
        member(shown, "recentActions"@) == Some(JsonV::Array(recent)),
        array_value(member(thread, "turns"@)) matches Some(turns) ==> member(shown, "turns"@)
            == Some(JsonV::Array(turns)),
{
    broadcast use {empty_objects_have_no_members, pushed_members_are_found};

    reveal_strlit("threadId");
    reveal_strlit("name");
    reveal_strlit("displayName");
    reveal_strlit("project");
    reveal_strlit("cwd");
    reveal_strlit("statusType");
    reveal_strlit("statusFlags");
    reveal_strlit("pendingPrompt");
    reveal_strlit("canReply");
    reveal_strlit("canApprove");
    reveal_strlit("isWaiting");
    reveal_strlit("isCompleted");
    reveal_strlit("lastTurnStatus");
    reveal_strlit("lastAgentMessage");
    reveal_strlit("lastUserMessage");
    reveal_strlit("latestQuestion");
    reveal_strlit("deltaSummary");
    reveal_strlit("unresolvedSummary");
    reveal_strlit("recentActions");
    reveal_strlit("turns");
    assert("threadId"@.len() == 8);
    assert("name"@.len() == 4);
    assert("displayName"@.len() == 11);
    assert("project"@.len() == 7);
    assert("cwd"@.len() == 3);
    assert("statusType"@.len() == 10);
    assert("statusFlags"@.len() == 11);
    assert("pendingPrompt"@.len() == 13);
    assert("canReply"@.len() == 8);
    assert("canApprove"@.len() == 10);
    assert("isWaiting"@.len() == 9);
    assert("isCompleted"@.len() == 11);
    assert("lastTurnStatus"@.len() == 14);
    assert("lastAgentMessage"@.len() == 16);
    assert("lastUserMessage"@.len() == 15);
    assert("latestQuestion"@.len() == 14);
    assert("deltaSummary"@.len() == 12);
    assert("unresolvedSummary"@.len() == 17);
    assert("recentActions"@.len() == 13);
    assert("turns"@.len() == 5);
    assert("threadId"@[0] != "canReply"@[0]);
    assert("displayName"@[0] != "statusFlags"@[0]);
    assert("displayName"@[0] != "isCompleted"@[0]);
    assert("statusType"@[0] != "canApprove"@[0]);
    assert("statusFlags"@[0] != "isCompleted"@[0]);
    assert("pendingPrompt"@[0] != "recentActions"@[0]);
    assert("lastTurnStatus"@[2] != "latestQuestion"@[2]);
}

/// A thread is shown with its last five actions, and without any where there is no store.
pub proof fn shown_threads_have_their_last_actions(
    st: BridgeStateV,
    requested: Seq<char>,
    response: JsonV,
)
    ensures
        shown_result(None, requested, response) == Ok::<JsonV, BridgeErrorV>(
            shown_thread(requested, response, Seq::empty()),
        ),
        recent_actions(st, shown_thread_id(requested, response), 5) matches Ok(recent)
            ==> shown_result(Some(st), requested, response) == Ok::<JsonV, BridgeErrorV>(
            shown_thread(requested, response, recent),
        ),
{
}

/// The summary of what is new begins with what is awaited, or with how the last turn went, and
/// ends with the agent's last message; the summary of what is unresolved puts an approval
/// before a question, and a question before a reply.
pub proof fn summaries_say_what_is_new(
    prompt: JsonV,
    status: Seq<char>,
    turn: Option<Seq<char>>,
    message: Seq<char>,
    question: Seq<char>,
)
    requires
        text_member(prompt, "promptStatus"@) == Some(status),
        trimmed(message).len() > 0,
    ensures
        delta_summary(Some(prompt), turn, Some(message)) == Some(
            status + (" · Last agent update: "@ + message),
        ),
        delta_summary(None, Some(status), Some(message)) == Some(
            "Last turn status: "@ + status + (" · Last agent update: "@ + message),
        ),
        delta_summary(None, None, Some(message)) == Some(message),
        delta_summary(None, None, None) is None,
        text_member(prompt, "kind"@) == Some("approval"@) ==> unresolved_summary(
            Some(prompt),
            Some(question),
            Some(message),
        ) == Some("Approval is still pending."@),
        text_member(prompt, "kind"@) != Some("approval"@) ==> unresolved_summary(
            Some(prompt),
            Some(question),
            Some(message),
        ) == Some("Latest unresolved question: "@ + question),
        text_member(prompt, "kind"@) == Some("reply"@) ==> unresolved_summary(
            Some(prompt),
            None,
            Some(message),
        ) == Some("Reply still needed: "@ + message),
        unresolved_summary(None, None, Some(message)) is None,
{
    reveal_strlit("approval");
    reveal_strlit("reply");
    assert("approval"@.len() == 8);
    assert("reply"@.len() == 5);
}

// ---------------------------------------------------------------------------
// Short texts
// ---------------------------------------------------------------------------

/// A short text holds the words of the text with one blank between them; one that is too long
/// is cut at the limit and marked, and one without a word is none.
pub proof fn short_texts_hold_the_words(text: Seq<char>, limit: nat)
    ensures
        preview(None, limit) is None,
        joined(words(text), " "@).len() == 0 ==> preview(Some(text), limit) is None,
        0 < joined(words(text), " "@).len() <= limit ==> preview(Some(text), limit) == Some(
            joined(words(text), " "@),
        ),
        joined(words(text), " "@).len() > limit && joined(words(text), " "@).len() > 0 ==> preview(
            Some(text),
            limit,
        ) == Some(trim_end(joined(words(text), " "@).take(limit as int)) + "…"@),
{
    let t = joined(words(text), " "@);
    if t.len() > limit {
        assert(t.subrange(0, limit as int) =~= t.take(limit as int));
    }
}

/// The first characters of a text are its beginning, as many as are asked for at most.
pub proof fn first_characters_are_the_beginning(text: Seq<char>, limit: nat, i: int)
    ensures
        first_chars(text, limit).len() <= limit,
        first_chars(text, limit).len() <= text.len(),
        text.len() <= limit ==> first_chars(text, limit) == text,
        0 <= i < first_chars(text, limit).len() ==> first_chars(text, limit)[i] == text[i],
{
}

/// What is to be done, who is waited for and how urgent it is follow from the reason of the
/// attention.
pub proof fn reasons_tell_what_to_do(reason: Seq<char>)
    ensures
        reason == "pending_approval"@ ==> waiting_on(reason) == "me"@ && suggested_action(reason)
            == "approve"@ && priority(reason) == "high"@,
        reason == "needs_reply"@ ==> waiting_on(reason) == "me"@ && suggested_action(reason)
            == "reply"@ && priority(reason) == "medium"@,
        reason == "completed"@ ==> waiting_on(reason) == "none"@ && suggested_action(reason)
            == "archive"@ && priority(reason) == "low"@,
        reason == "updated"@ ==> waiting_on(reason) == "none"@ && suggested_action(reason)
            == "inspect"@ && priority(reason) == "medium"@,
        reason == "active"@ ==> waiting_on(reason) == "codex"@ && suggested_action(reason)
            == "inspect"@ && priority(reason) == "medium"@,
{
    reveal_strlit("pending_approval");
    reveal_strlit("needs_reply");
    reveal_strlit("completed");
    reveal_strlit("updated");
    reveal_strlit("active");
    assert("pending_approval"@.len() == 16);
    assert("needs_reply"@.len() == 11);
    assert("completed"@.len() == 9);
    assert("updated"@.len() == 7);
    assert("active"@.len() == 6);
}

// ---------------------------------------------------------------------------
// JSON as text
// ---------------------------------------------------------------------------

/// Values are written as JSON has them.
pub proof fn values_are_written_as_json(n: u64, text: Seq<char>, first: JsonV)
    ensures
        json_text(JsonV::Null) == "null"@,
        json_text(JsonV::Bool(true)) == "true"@,
        json_text(JsonV::Bool(false)) == "false"@,
        json_text(JsonV::UInt(n)) == decimal(n as nat),
        json_text(JsonV::Str(text)) == json_string(text),
        json_text(JsonV::Array(Seq::empty())) == "["@ + "]"@,
        json_text(JsonV::Array(Seq::empty().push(first))) == "["@ + json_text(first) + "]"@,
        json_text(JsonV::Object(Seq::empty())) == "{"@ + "}"@,
        json_text(JsonV::Object(Seq::empty().push((text, first)))) == "{"@ + (json_string(text)
            + ":"@ + json_text(first)) + "}"@,
{
    reveal_with_fuel(json_text, 3);
    reveal_with_fuel(item_texts, 3);
    reveal_with_fuel(member_rows, 3);
    reveal_with_fuel(comma_joined, 3);
    let none = Seq::<JsonV>::empty();
    assert("["@ + Seq::<char>::empty() + "]"@ =~= "["@ + "]"@);
    assert("{"@ + Seq::<char>::empty() + "}"@ =~= "{"@ + "}"@);
    let one = none.push(first);
    assert(one[0] == first);
    let rows = Seq::<(Seq<char>, Seq<char>)>::empty().push((text, json_text(first)));
    let m = Seq::<(Seq<char>, JsonV)>::empty().push((text, first));
    assert(m[0] == (text, first));
    assert(member_rows(m, 1) =~= rows);
    reveal_with_fuel(sorted_text, 3);
    reveal_with_fuel(insert_text, 2);
    assert(rows.drop_last() =~= Seq::<(Seq<char>, Seq<char>)>::empty());
    assert(sorted_text(rows) =~= rows);
    let texts = member_texts(rows);
    assert(texts.len() == 1 && texts[0] == json_string(text) + ":"@ + json_text(first));
    assert(member_rows(Seq::<(Seq<char>, JsonV)>::empty(), 0) =~= Seq::<
        (Seq<char>, Seq<char>),
    >::empty());
    assert(member_texts(sorted_text(Seq::<(Seq<char>, Seq<char>)>::empty())).len() == 0);
}

/// The items of a list are written one after the other, with a comma before each further one.
pub proof fn lists_are_written_with_commas(items: Seq<JsonV>, last: JsonV, inner: Seq<char>)
    requires
        items.len() > 0,
        json_text(JsonV::Array(items)) == "["@ + inner + "]"@,
    ensures
        json_text(JsonV::Array(items.push(last))) == "["@ + (inner + ","@ + json_text(last))
            + "]"@,
{
    reveal_strlit("[");
    reveal_strlit("]");
    let all = items.push(last);
    lemma_item_prefix(items, last, items.len());
    assert(all[all.len() - 1] == last);
    let before = item_texts(items, items.len());
    let texts = item_texts(all, all.len());
    assert(texts == before.push(json_text(last)));
    lemma_item_len(items, items.len());
    lemma_comma_prefix(before, json_text(last), before.len());
    assert(comma_joined(texts, texts.len()) == comma_joined(before, before.len()) + ","@
        + json_text(last));
    let a = "["@ + comma_joined(before, before.len()) + "]"@;
    let b = "["@ + inner + "]"@;
    assert(a == b);
    assert(a.subrange(1, a.len() - 1) =~= comma_joined(before, before.len()));
    assert(b.subrange(1, b.len() - 1) =~= inner);
}

proof fn lemma_item_len(items: Seq<JsonV>, n: nat)
    requires
        n <= items.len(),
    ensures
        item_texts(items, n).len() == n,
    decreases n,
{
    if n > 0 {
        lemma_item_len(items, (n - 1) as nat);
    }
}

proof fn lemma_item_prefix(items: Seq<JsonV>, last: JsonV, n: nat)
    requires
        n <= items.len(),
    ensures
        item_texts(items.push(last), n) == item_texts(items, n),
    decreases n,
{
    if n > 0 {
        assert(items.push(last)[n - 1] == items[n - 1]);
        lemma_item_prefix(items, last, (n - 1) as nat);
    }
}

proof fn lemma_comma_prefix(texts: Seq<Seq<char>>, last: Seq<char>, n: nat)
    requires
        n <= texts.len(),
    ensures
        comma_joined(texts.push(last), n) == comma_joined(texts, n),
    decreases n,
{
    if n > 0 {
        assert(texts.push(last)[n - 1] == texts[n - 1]);
        assert(texts.push(last)[0] == texts[0]);
        lemma_comma_prefix(texts, last, (n - 1) as nat);
    }
}

} // verus!
