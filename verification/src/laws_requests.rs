//! What holds of the requests to the app server and of what the commands report of them.
use vstd::prelude::*;
use vstd::string::*;

use crate::error::{BridgeErrorV, failure};
use crate::json::{
    array_value, empty_objects_have_no_members, JsonV, member, or_null, pushed_members_are_found,
    text_member,
};
use crate::requests::{
    approve_dry_run_report, approve_log, approve_report, archive_log, archived_entry, comma_list,
    command_message, decision_answer, error_class, first_turn, fork_dry_run, fork_report, fork_turn,
    list_params, meant_decision, named_targets, new_dry_run, new_report, read_params,
    reply_dry_run_report, reply_log, reply_report, reply_text, start_params, text_input,
    thread_params, turn_params,
};
use crate::text::{contains_text, joined, non_blank, trimmed};

verus! {

// ---------------------------------------------------------------------------
// What the user wrote
// ---------------------------------------------------------------------------

/// The message is the option where that is not blank, and else the words behind the command;
/// both without blanks at their ends. Where both are blank there is none.
pub proof fn messages_are_what_the_user_wrote(
    option: Option<Seq<char>>,
    words: Seq<Seq<char>>,
    text: Seq<char>,
)
    requires
        text.len() > 0,
        trimmed(text) == text,
    ensures
        option == Some(text) ==> command_message(option, words) == Some(text) && reply_text(
            option,
            words,
        ) == Ok::<Seq<char>, BridgeErrorV>(text),
        option is None && joined(words, " "@) == text ==> command_message(option, words) == Some(
            text,
        ) && reply_text(option, words) == Ok::<Seq<char>, BridgeErrorV>(text),
        option is Some && trimmed(option->0).len() == 0 && joined(words, " "@) == text
            ==> command_message(option, words) == Some(text) && reply_text(option, words) is Err,
        option is None && trimmed(joined(words, " "@)).len() == 0 ==> command_message(
            option,
            words,
        ) is None && reply_text(option, words) == Err::<Seq<char>, BridgeErrorV>(
            failure("Reply message cannot be empty"@),
        ),
{
}

/// An approval is answered with yes and a denial with no, the decision being taken from its
/// option before the place behind the command, without the blanks at its ends; no other
/// decision is answered.
pub proof fn decisions_are_answered(
    option: Option<Seq<char>>,
    place: Option<Seq<char>>,
    decision: Seq<char>,
)
    ensures
        decision_answer("approve"@) == Ok::<Seq<char>, BridgeErrorV>("YES"@),
        decision_answer("deny"@) == Ok::<Seq<char>, BridgeErrorV>("NO"@),
        decision != "approve"@ && decision != "deny"@ ==> decision_answer(decision) == Err::<
            Seq<char>,
            BridgeErrorV,
        >(failure("Approval decision must be approve or deny"@)),
        option is Some ==> meant_decision(option, place) == trimmed(option->0),
        option is None && place is Some ==> meant_decision(option, place) == trimmed(place->0),
        option is None && place is None ==> decision_answer(meant_decision(option, place)) is Err,
{
    reveal_strlit("approve");
    reveal_strlit("deny");
    assert("approve"@.len() == 7);
    assert("deny"@.len() == 4);
}

/// The targets of a command are those of its list, in order, and then those behind it.
pub proof fn targets_are_named_in_order(list: Seq<char>, others: Seq<Seq<char>>, i: int)
    ensures
        named_targets(None, others) == others,
        0 <= i < comma_list(list).len() ==> named_targets(Some(list), others)[i] == comma_list(
            list,
        )[i],
        0 <= i < others.len() ==> named_targets(Some(list), others)[comma_list(list).len() + i]
            == others[i],
        named_targets(Some(list), others).len() == comma_list(list).len() + others.len(),
{
}

// ---------------------------------------------------------------------------
// Requests
// ---------------------------------------------------------------------------

/// A turn is started in the thread that is named, with the one text that is given, and in the
/// working directory where one is given.
pub proof fn turns_are_started_with_the_text(
    thread_id: Seq<char>,
    cwd: Option<Seq<char>>,
    message: Seq<char>,
)
    ensures
        ({
            let p = turn_params(thread_id, cwd, message);
            let input = array_value(member(p, "input"@));
            &&& text_member(p, "threadId"@) == Some(thread_id)
            &&& input is Some && input->0.len() == 1
            &&& text_member(input->0[0], "type"@) == Some("text"@)
            &&& text_member(input->0[0], "text"@) == Some(message)
            &&& member(input->0[0], "text_elements"@) == Some(JsonV::Array(Seq::empty()))
            &&& cwd is Some && trimmed(cwd->0).len() > 0 ==> text_member(p, "cwd"@) == cwd
            &&& cwd is None || trimmed(cwd->0).len() == 0 ==> member(p, "cwd"@) is None
        }),
{
    broadcast use {empty_objects_have_no_members, pushed_members_are_found};

    reveal_strlit("threadId");
    reveal_strlit("cwd");
    reveal_strlit("input");
    reveal_strlit("type");
    reveal_strlit("text");
    reveal_strlit("text_elements");
    assert("threadId"@.len() == 8);
    assert("cwd"@.len() == 3);
    assert("input"@.len() == 5);
    assert("type"@.len() == 4);
    assert("text"@.len() == 4);
    assert("text_elements"@.len() == 13);
    assert("type"@[1] != "text"@[1]);
    let i = Seq::<JsonV>::empty().push(text_input(message));
    assert(i.len() == 1 && i[0] == text_input(message));
}

/// The other requests say which thread they are about and what is asked for.
pub proof fn requests_say_what_is_asked_for(
    thread_id: Seq<char>,
    cwd: Option<Seq<char>>,
    turns: bool,
    limit: u64,
)
    ensures
        text_member(thread_params(thread_id), "threadId"@) == Some(thread_id),
        text_member(read_params(thread_id, turns), "threadId"@) == Some(thread_id),
        member(read_params(thread_id, turns), "includeTurns"@) == Some(JsonV::Bool(turns)),
        member(list_params(limit), "limit"@) == Some(JsonV::UInt(limit)),
        text_member(list_params(limit), "sortKey"@) == Some("updated_at"@),
        cwd is Some && trimmed(cwd->0).len() > 0 ==> text_member(start_params(cwd), "cwd"@) == cwd,
        cwd is None || trimmed(cwd->0).len() == 0 ==> member(start_params(cwd), "cwd"@) is None,
{
    broadcast use {empty_objects_have_no_members, pushed_members_are_found};

    reveal_strlit("threadId");
    reveal_strlit("includeTurns");
    reveal_strlit("limit");
    reveal_strlit("sortKey");
    reveal_strlit("cwd");
    assert("threadId"@.len() == 8);
    assert("includeTurns"@.len() == 12);
    assert("limit"@.len() == 5);
    assert("sortKey"@.len() == 7);
    assert("cwd"@.len() == 3);
}

/// The first turn of a new thread, and of a fork, is started in the thread that the server
/// made, with the message; where the server names no thread, or there is no message, none is.
pub proof fn new_threads_get_the_message(
    response: JsonV,
    thread: JsonV,
    cwd: Option<Seq<char>>,
    message: Option<Seq<char>>,
)
    requires
        member(response, "thread"@) == Some(thread),
    ensures
        (first_turn(response, cwd, message) is Some) == (text_member(thread, "id"@) is Some
            && non_blank(message) is Some),
        first_turn(response, cwd, message) is Some ==> first_turn(response, cwd, message)->0
            == turn_params(text_member(thread, "id"@)->0, cwd, non_blank(message)->0),
        (fork_turn(response, message) is Some) == (text_member(thread, "id"@) is Some && non_blank(
            message,
        ) is Some),
        fork_turn(response, message) is Some ==> fork_turn(response, message)->0 == turn_params(
            text_member(thread, "id"@)->0,
            text_member(thread, "cwd"@),
            message->0,
        ),
{
}

// ---------------------------------------------------------------------------
// Reports
// ---------------------------------------------------------------------------

/// A dry run says that it is one, and what would be done.
pub proof fn dry_runs_say_what_would_be_done(
    thread_id: Seq<char>,
    text: Seq<char>,
    answer: Seq<char>,
    cwd: Option<Seq<char>>,
    message: Option<Seq<char>>,
    at: u64,
)
    ensures
        ({
            let r = new_dry_run(cwd, message);
            &&& text_member(r, "action"@) == Some("new"@)
            &&& member(r, "dryRun"@) == Some(JsonV::Bool(true))
            &&& text_member(r, "cwd"@) == cwd
            &&& text_member(r, "message"@) == non_blank(message)
        }),
        ({
            let r = fork_dry_run(thread_id, message);
            &&& text_member(r, "action"@) == Some("fork"@)
            &&& member(r, "dryRun"@) == Some(JsonV::Bool(true))
            &&& text_member(r, "fromThreadId"@) == Some(thread_id)
            &&& text_member(r, "message"@) == non_blank(message)
        }),
        ({
            let r = reply_dry_run_report(thread_id, text, at);
            &&& text_member(r, "action"@) == Some("reply"@)
            &&& member(r, "dry_run"@) == Some(JsonV::Bool(true))
            &&& text_member(r, "thread_id"@) == Some(thread_id)
            &&& text_member(r, "message"@) == Some(text)
            &&& member(r, "sent_at"@) == Some(JsonV::UInt(at))
        }),
        ({
            let r = approve_dry_run_report(thread_id, text, answer, at);
            &&& text_member(r, "action"@) == Some("approve"@)
            &&& member(r, "dry_run"@) == Some(JsonV::Bool(true))
            &&& text_member(r, "thread_id"@) == Some(thread_id)
            &&& text_member(r, "decision"@) == Some(text)
            &&& text_member(r, "sent_text"@) == Some(answer)
            &&& member(r, "sent_at"@) == Some(JsonV::UInt(at))
        }),
{
    broadcast use {empty_objects_have_no_members, pushed_members_are_found};

    reveal_strlit("ok");
    reveal_strlit("action");
    reveal_strlit("dryRun");
    reveal_strlit("dry_run");
    reveal_strlit("cwd");
    reveal_strlit("message");
    reveal_strlit("fromThreadId");
    reveal_strlit("thread_id");
    reveal_strlit("sent_at");
    reveal_strlit("decision");
    reveal_strlit("sent_text");
    assert("ok"@.len() == 2);
    assert("action"@.len() == 6);
    assert("dryRun"@.len() == 6);
    assert("dry_run"@.len() == 7);
    assert("cwd"@.len() == 3);
    assert("message"@.len() == 7);
    assert("fromThreadId"@.len() == 12);
    assert("thread_id"@.len() == 9);
    assert("sent_at"@.len() == 7);
    assert("decision"@.len() == 8);
    assert("sent_text"@.len() == 9);
    assert("action"@[0] != "dryRun"@[0]);
    assert("dry_run"@[0] != "message"@[0]);
    assert("dry_run"@[0] != "sent_at"@[0]);
    assert("message"@[0] != "sent_at"@[0]);
    assert("thread_id"@[0] != "sent_text"@[0]);
}

/// The report of a new thread, and of a fork, names the thread that the server made and holds
/// what the server answered.
pub proof fn new_threads_are_reported(
    response: JsonV,
    thread: JsonV,
    from: Seq<char>,
    cwd: Option<Seq<char>>,
    message: Option<Seq<char>>,
    started: Option<JsonV>,
)
    requires
        member(response, "thread"@) == Some(thread),
    ensures
        ({
            let r = new_report(cwd, message, response, started);
            &&& member(r, "ok"@) == Some(JsonV::Bool(true))
            &&& text_member(r, "action"@) == Some("new"@)
            &&& text_member(r, "threadId"@) == text_member(thread, "id"@)
            &&& text_member(thread, "cwd"@) is Some ==> text_member(r, "cwd"@) == text_member(
                thread,
                "cwd"@,
            )
            &&& text_member(thread, "cwd"@) is None ==> text_member(r, "cwd"@) == cwd
            &&& text_member(r, "message"@) == non_blank(message)
            &&& member(r, "created"@) == Some(response)
            &&& member(r, "started"@) == Some(or_null(started))
        }),
        ({
            let r = fork_report(from, message, response, started);
            &&& member(r, "ok"@) == Some(JsonV::Bool(true))
            &&& text_member(r, "action"@) == Some("fork"@)
            &&& text_member(r, "fromThreadId"@) == Some(from)
            &&& text_member(r, "threadId"@) == text_member(thread, "id"@)
            &&& text_member(r, "message"@) == non_blank(message)
            &&& member(r, "forked"@) == Some(response)
            &&& member(r, "started"@) == Some(or_null(started))
        }),
{
    broadcast use {empty_objects_have_no_members, pushed_members_are_found};

    reveal_strlit("ok");
    reveal_strlit("action");
    reveal_strlit("threadId");
    reveal_strlit("cwd");
    reveal_strlit("message");
    reveal_strlit("created");
    reveal_strlit("started");
    reveal_strlit("fromThreadId");
    reveal_strlit("forked");
    assert("ok"@.len() == 2);
    assert("action"@.len() == 6);
    assert("threadId"@.len() == 8);
    assert("cwd"@.len() == 3);
    assert("message"@.len() == 7);
    assert("created"@.len() == 7);
    assert("started"@.len() == 7);
    assert("fromThreadId"@.len() == 12);
    assert("forked"@.len() == 6);
    assert("action"@[0] != "forked"@[0]);
    assert("message"@[0] != "created"@[0]);
    assert("message"@[0] != "started"@[0]);
    assert("created"@[0] != "started"@[0]);
}

/// The report of an answer, and what is logged of it, say what was sent to which thread and
/// what the server answered.
pub proof fn answers_are_reported(
    thread_id: Seq<char>,
    decision: Seq<char>,
    text: Seq<char>,
    resumed: JsonV,
    started: JsonV,
    at: u64,
)
    ensures
        ({
            let r = reply_report(thread_id, text, resumed, started, at);
            &&& member(r, "ok"@) == Some(JsonV::Bool(true))
            &&& text_member(r, "action"@) == Some("reply"@)
            &&& text_member(r, "threadId"@) == Some(thread_id)
            &&& text_member(r, "message"@) == Some(text)
            &&& member(r, "sentAt"@) == Some(JsonV::UInt(at))
            &&& member(r, "resumed"@) == Some(resumed)
            &&& member(r, "started"@) == Some(started)
        }),
        ({
            let r = reply_log(text, resumed, started, at);
            &&& text_member(r, "message"@) == Some(text)
            &&& member(r, "sentAt"@) == Some(JsonV::UInt(at))
            &&& member(r, "resumed"@) == Some(resumed)
            &&& member(r, "started"@) == Some(started)
        }),
        ({
            let r = approve_report(thread_id, decision, text, resumed, started, at);
            &&& member(r, "ok"@) == Some(JsonV::Bool(true))
            &&& text_member(r, "action"@) == Some("approve"@)
            &&& text_member(r, "threadId"@) == Some(thread_id)
            &&& text_member(r, "decision"@) == Some(decision)
            &&& text_member(r, "sentText"@) == Some(text)
            &&& member(r, "sentAt"@) == Some(JsonV::UInt(at))
            &&& member(r, "resumed"@) == Some(resumed)
            &&& member(r, "started"@) == Some(started)
        }),
        ({
            let r = approve_log(decision, text, resumed, started, at);
            &&& text_member(r, "decision"@) == Some(decision)
            &&& text_member(r, "sentText"@) == Some(text)
            &&& member(r, "sentAt"@) == Some(JsonV::UInt(at))
            &&& member(r, "resumed"@) == Some(resumed)
            &&& member(r, "started"@) == Some(started)
        }),
{
    broadcast use {empty_objects_have_no_members, pushed_members_are_found};

    reveal_strlit("ok");
    reveal_strlit("action");
    reveal_strlit("threadId");
    reveal_strlit("message");
    reveal_strlit("sentAt");
    reveal_strlit("resumed");
    reveal_strlit("started");
    reveal_strlit("decision");
    reveal_strlit("sentText");
    assert("ok"@.len() == 2);
    assert("action"@.len() == 6);
    assert("threadId"@.len() == 8);
    assert("message"@.len() == 7);
    assert("sentAt"@.len() == 6);
    assert("resumed"@.len() == 7);
    assert("started"@.len() == 7);
    assert("decision"@.len() == 8);
    assert("sentText"@.len() == 8);
    assert("action"@[0] != "sentAt"@[0]);
    assert("threadId"@[0] != "decision"@[0]);
    assert("threadId"@[0] != "sentText"@[0]);
    assert("message"@[0] != "resumed"@[0]);
    assert("message"@[0] != "started"@[0]);
    assert("resumed"@[0] != "started"@[0]);
    assert("decision"@[0] != "sentText"@[0]);
}

/// What is logged and reported of an archived thread.
pub proof fn archived_threads_are_reported(thread_id: Seq<char>, result: JsonV, now: u64)
    ensures
        member(archive_log(result, now), "result"@) == Some(result),
        member(archive_log(result, now), "archivedAt"@) == Some(JsonV::UInt(now)),
        text_member(archived_entry(thread_id, result), "threadId"@) == Some(thread_id),
        text_member(archived_entry(thread_id, result), "status"@) == Some("archived"@),
        member(archived_entry(thread_id, result), "result"@) == Some(result),
{
    broadcast use {empty_objects_have_no_members, pushed_members_are_found};

    reveal_strlit("result");
    reveal_strlit("archivedAt");
    reveal_strlit("threadId");
    reveal_strlit("status");
    assert("result"@.len() == 6);
    assert("archivedAt"@.len() == 10);
    assert("threadId"@.len() == 8);
    assert("status"@.len() == 6);
    assert("result"@[0] != "status"@[0]);
}

// ---------------------------------------------------------------------------
// Failures
// ---------------------------------------------------------------------------

/// A failure of the app server is classed by what its message says: a thread that is not
/// loaded or not there yet may be tried again, one without a rollout may not, nor anything
/// else. Every class keeps the message.
pub proof fn failures_are_classed(message: Seq<char>)
    ensures
        text_member(error_class(message), "message"@) == Some(message),
        contains_text(message, "thread not loaded"@) ==> text_member(error_class(message), "code"@)
            == Some("thread_not_loaded"@) && member(error_class(message), "retryable"@) == Some(
            JsonV::Bool(true),
        ),
        !contains_text(message, "thread not loaded"@) && (contains_text(
            message,
            "is not materialized yet"@,
        ) || contains_text(message, "includeTurns is unavailable before first user message"@))
            ==> text_member(error_class(message), "code"@) == Some("thread_not_materialized"@)
            && member(error_class(message), "retryable"@) == Some(JsonV::Bool(true)),
        !contains_text(message, "thread not loaded"@) && !contains_text(
            message,
            "is not materialized yet"@,
        ) && !contains_text(message, "includeTurns is unavailable before first user message"@)
            && contains_text(message, "no rollout found for thread id"@) ==> text_member(
            error_class(message),
            "code"@,
        ) == Some("thread_no_rollout"@) && member(error_class(message), "retryable"@) == Some(
            JsonV::Bool(false),
        ),
        !contains_text(message, "thread not loaded"@) && !contains_text(
            message,
            "is not materialized yet"@,
        ) && !contains_text(message, "includeTurns is unavailable before first user message"@)
            && !contains_text(message, "no rollout found for thread id"@) ==> text_member(
            error_class(message),
            "code"@,
        ) == Some("app_server_error"@) && member(error_class(message), "retryable"@) == Some(
            JsonV::Bool(false),
        ) && member(error_class(message), "guidance"@) == Some(JsonV::Null),
{
    broadcast use {empty_objects_have_no_members, pushed_members_are_found};

    reveal_strlit("code");
    reveal_strlit("retryable");
    reveal_strlit("message");
    reveal_strlit("guidance");
    assert("code"@.len() == 4);
    assert("retryable"@.len() == 9);
    assert("message"@.len() == 7);
    assert("guidance"@.len() == 8);
}

} // verus!
