//! Requests that start and continue threads, and what is reported of them.
use vstd::prelude::*;
use vstd::string::*;

use crate::error::{BridgeError, BridgeErrorV, failure, outcome};
use crate::history::{record_action, with_action};
use crate::json::{
    Json, JsonV, member, Members, Object, opt_member, or_null, text_or_null, text_value,
};
use crate::state::{BridgeState, out_of_range};
use crate::text::{
    borrow_opt, contains, contains_text, copy_texts, join, joined, non_blank, own_opt, same,
    split_char, split_from, to_lowercase, trim, trimmed, trimmed_non_blank, unicode_lowercase,
};

verus! {

// ---------------------------------------------------------------------------
// Messages
// ---------------------------------------------------------------------------

/// A message without surrounding white space; a blank one is no message.
pub fn normalized_message(message: Option<&str>) -> (r: Option<String>)
    ensures
        r.deep_view() == non_blank(message.deep_view()),
{
    trimmed_non_blank(message)
}

/// The message of a command: the one of its option, else its words joined by blanks.
pub open spec fn command_message(message: Option<Seq<char>>, prompt: Seq<Seq<char>>) -> Option<
    Seq<char>,
> {
    match non_blank(message) {
        Some(m) => Some(m),
        None => non_blank(Some(joined(prompt, " "@))),
    }
}

/// The message of a command: the one of its option, else its words joined by blanks.
pub fn message_or_prompt(message: Option<&str>, prompt: &Vec<String>) -> (r: Option<String>)
    ensures
        r.deep_view() == command_message(message.deep_view(), prompt.deep_view()),
{
    match normalized_message(message) {
        Some(m) => Some(m),
        None => trimmed_non_blank(Some(join(prompt, " ").as_str())),
    }
}

/// The message of a reply. An option that is given counts, even where it is blank.
pub open spec fn reply_text(message: Option<Seq<char>>, prompt: Seq<Seq<char>>) -> Result<
    Seq<char>,
    BridgeErrorV,
> {
    let text = match message {
        Some(m) => non_blank(Some(m)),
        None => non_blank(Some(joined(prompt, " "@))),
    };
    match text {
        Some(t) => Ok(t),
        None => Err(failure("Reply message cannot be empty"@)),
    }
}

/// The message of a reply.
pub fn reply_message(message: Option<&str>, prompt: &Vec<String>) -> (r: Result<
    String,
    BridgeError,
>)
    ensures
        outcome(r) == reply_text(message.deep_view(), prompt.deep_view()),
{
    let text: Option<String> = match message {
        Some(m) => trimmed_non_blank(Some(m)),
        None => trimmed_non_blank(Some(join(prompt, " ").as_str())),
    };
    match text {
        Some(t) => Ok(t),
        None => Err(BridgeError::new("Reply message cannot be empty")),
    }
}

/// What a decision on an approval is answered with, once it is in lower case.
pub open spec fn decision_answer(decision: Seq<char>) -> Result<Seq<char>, BridgeErrorV> {
    if decision == "approve"@ {
        Ok("YES"@)
    } else if decision == "deny"@ {
        Ok("NO"@)
    } else {
        Err(failure("Approval decision must be approve or deny"@))
    }
}

/// What a decision on an approval is answered with, once it is in lower case.
pub fn approval_answer(decision: &str) -> (r: Result<String, BridgeError>)
    ensures
        outcome(r) == decision_answer(decision@),
{
    if same(decision, "approve") {
        Ok("YES".to_owned())
    } else if same(decision, "deny") {
        Ok("NO".to_owned())
    } else {
        Err(BridgeError::new("Approval decision must be approve or deny"))
    }
}

/// The decision that is meant: the one of the option, else the one after the thread.
pub open spec fn meant_decision(
    decision: Option<Seq<char>>,
    positional: Option<Seq<char>>,
) -> Seq<char> {
    trimmed(
        match decision {
            Some(d) => d,
            None => match positional {
                Some(p) => p,
                None => Seq::empty(),
            },
        },
    )
}

/// A decision on an approval in lower case, and what it is answered with.
pub fn approval_decision(decision: Option<&str>, positional: Option<&str>) -> (r: Result<
    (String, String),
    BridgeError,
>)
    ensures
        ({
            let meant = unicode_lowercase(
                meant_decision(decision.deep_view(), positional.deep_view()),
            );
            match decision_answer(meant) {
                Ok(answer) => r is Ok && r->Ok_0.0@ == meant && r->Ok_0.1@ == answer,
                Err(e) => r is Err && r->Err_0@ == e,
            }
        }),
{
    let given: String = match decision {
        Some(d) => d.to_owned(),
        None => match positional {
            Some(p) => p.to_owned(),
            None => String::new(),
        },
    };
    assert(decision is None && positional is None ==> given@ =~= Seq::<char>::empty());
    let meant = to_lowercase(trim(given.as_str()).as_str());
    match approval_answer(meant.as_str()) {
        Ok(answer) => Ok((meant, answer)),
        Err(e) => Err(e),
    }
}

// ---------------------------------------------------------------------------
// Parameters of requests
// ---------------------------------------------------------------------------

/// A text as an input of a turn.
pub open spec fn text_input(text: Seq<char>) -> JsonV {
    JsonV::Object(
        Seq::empty()
            .push(("type"@, JsonV::Str("text"@)))
            .push(("text"@, JsonV::Str(text)))
            .push(("text_elements"@, JsonV::Array(Seq::empty()))),
    )
}

/// A text as an input of a turn.
pub fn text_input_value(text: &str) -> (r: Json)
    ensures
        r@ == text_input(text@),
{
    Object::new().with("type", Json::text("text")).with("text", Json::text(text)).with(
        "text_elements",
        Json::empty_array(),
    ).done()
}

/// The members with the directory, unless it is missing or blank.
pub open spec fn with_cwd(members: Members, cwd: Option<Seq<char>>) -> Members {
    match cwd {
        Some(c) => if non_blank(Some(c)) is Some {
            members.push(("cwd"@, JsonV::Str(c)))
        } else {
            members
        },
        None => members,
    }
}

/// Adds the directory, unless it is missing or blank.
fn add_cwd(object: Object, cwd: Option<&str>) -> (r: Object)
    ensures
        r@ == with_cwd(object@, cwd.deep_view()),
{
    match cwd {
        Some(c) => if trimmed_non_blank(Some(c)).is_some() {
            object.with("cwd", Json::text(c))
        } else {
            object
        },
        None => object,
    }
}

/// The parameters that start a thread.
pub open spec fn start_params(cwd: Option<Seq<char>>) -> JsonV {
    JsonV::Object(with_cwd(Seq::empty(), cwd))
}

/// The parameters that start a thread.
pub fn thread_start_params(cwd: Option<&str>) -> (r: Json)
    ensures
        r@ == start_params(cwd.deep_view()),
{
    add_cwd(Object::new(), cwd).done()
}

/// The parameters that start a turn.
pub open spec fn turn_params(
    thread_id: Seq<char>,
    cwd: Option<Seq<char>>,
    message: Seq<char>,
) -> JsonV {
    JsonV::Object(
        with_cwd(Seq::empty().push(("threadId"@, JsonV::Str(thread_id))), cwd).push(
            ("input"@, JsonV::Array(Seq::empty().push(text_input(message)))),
        ),
    )
}

/// The parameters that start a turn.
pub fn turn_start_params(thread_id: &str, cwd: Option<&str>, message: &str) -> (r: Json)
    ensures
        r@ == turn_params(thread_id@, cwd.deep_view(), message@),
{
    add_cwd(Object::new().with("threadId", Json::text(thread_id)), cwd).with(
        "input",
        Json::list_of_one(text_input_value(message)),
    ).done()
}

/// Parameters that name a thread.
pub open spec fn thread_params(thread_id: Seq<char>) -> JsonV {
    JsonV::Object(
        Seq::empty()
            .push(("threadId"@, JsonV::Str(thread_id))),
    )
}

/// Parameters that name a thread.
pub fn thread_id_params(thread_id: &str) -> (r: Json)
    ensures
        r@ == thread_params(thread_id@),
{
    Object::new().with("threadId", Json::text(thread_id)).done()
}

/// The parameters that read a thread, with or without its turns.
pub open spec fn read_params(thread_id: Seq<char>, include_turns: bool) -> JsonV {
    JsonV::Object(
        Seq::empty()
            .push(("threadId"@, JsonV::Str(thread_id)))
            .push(("includeTurns"@, JsonV::Bool(include_turns))),
    )
}

/// The parameters that read a thread, with or without its turns.
pub fn thread_read_params(thread_id: &str, include_turns: bool) -> (r: Json)
    ensures
        r@ == read_params(thread_id@, include_turns),
{
    Object::new().with("threadId", Json::text(thread_id)).with(
        "includeTurns",
        Json::Bool(include_turns),
    ).done()
}

/// The parameters that list threads, the last changed first.
pub open spec fn list_params(limit: u64) -> JsonV {
    JsonV::Object(
        Seq::empty()
            .push(("limit"@, JsonV::UInt(limit)))
            .push(("sortKey"@, JsonV::Str("updated_at"@))),
    )
}

/// The parameters that list threads, the last changed first.
pub fn thread_list_params(limit: u64) -> (r: Json)
    ensures
        r@ == list_params(limit),
{
    Object::new().with("limit", Json::UInt(limit)).with(
        "sortKey",
        Json::text("updated_at"),
    ).done()
}

// ---------------------------------------------------------------------------
// New threads and forks
// ---------------------------------------------------------------------------

/// A text of the thread in a response.
pub open spec fn response_text(response: JsonV, field: Seq<char>) -> Option<Seq<char>> {
    text_value(opt_member(member(response, "thread"@), field))
}

/// A text of the thread in a response.
fn thread_field_string(response: &Json, field: &str) -> (r: Option<String>)
    ensures
        r.deep_view() == response_text(response@, field@),
{
    match response.get("thread") {
        Some(thread) => thread.text_of_member(field),
        None => None,
    }
}

/// The id of the thread in a response.
pub fn thread_id_from_response(response: &Json) -> (r: Option<String>)
    ensures
        r.deep_view() == response_text(response@, "id"@),
{
    thread_field_string(response, "id")
}

/// The directory of the thread in a response, else the one that was asked for.
pub open spec fn response_cwd(response: JsonV, fallback: Option<Seq<char>>) -> Option<Seq<char>> {
    match response_text(response, "cwd"@) {
        Some(c) => Some(c),
        None => fallback,
    }
}

/// The directory of the thread in a response, else the one that was asked for.
pub fn thread_cwd_from_response(response: &Json, fallback: Option<&str>) -> (r: Option<String>)
    ensures
        r.deep_view() == response_cwd(response@, fallback.deep_view()),
{
    match thread_field_string(response, "cwd") {
        Some(c) => Some(c),
        None => own_opt(fallback),
    }
}

/// What starting a thread would do.
pub open spec fn new_dry_run(cwd: Option<Seq<char>>, message: Option<Seq<char>>) -> JsonV {
    JsonV::Object(
        Seq::empty()
            .push(("ok"@, JsonV::Bool(true)))
            .push(("action"@, JsonV::Str("new"@)))
            .push(("dryRun"@, JsonV::Bool(true)))
            .push(("cwd"@, text_or_null(cwd)))
            .push(("message"@, text_or_null(non_blank(message)))),
    )
}

/// What starting a thread would do.
pub fn start_new_thread_dry_run(cwd: Option<&str>, message: Option<&str>) -> (r: Json)
    ensures
        r@ == new_dry_run(cwd.deep_view(), message.deep_view()),
{
    Object::new().with("ok", Json::Bool(true)).with("action", Json::text("new")).with(
        "dryRun",
        Json::Bool(true),
    ).with("cwd", Json::opt_str(cwd)).with(
        "message",
        Json::opt_text(&normalized_message(message)),
    ).done()
}

/// The turn that starts in a new thread: none without a message or without a thread.
pub open spec fn first_turn(
    created: JsonV,
    cwd: Option<Seq<char>>,
    message: Option<Seq<char>>,
) -> Option<JsonV> {
    match (response_text(created, "id"@), non_blank(message)) {
        (Some(id), Some(m)) => Some(turn_params(id, cwd, m)),
        _ => None,
    }
}

/// The turn that starts in a new thread: none without a message or without a thread.
pub fn first_turn_params(created: &Json, cwd: Option<&str>, message: Option<&str>) -> (r: Option<
    Json,
>)
    ensures
        r.deep_view() == first_turn(created@, cwd.deep_view(), message.deep_view()),
{
    match (thread_id_from_response(created), normalized_message(message)) {
        (Some(id), Some(m)) => Some(turn_start_params(id.as_str(), cwd, m.as_str())),
        _ => None,
    }
}

/// What starting a thread did.
pub open spec fn new_report(
    cwd: Option<Seq<char>>,
    message: Option<Seq<char>>,
    created: JsonV,
    started: Option<JsonV>,
) -> JsonV {
    JsonV::Object(
        Seq::empty()
            .push(("ok"@, JsonV::Bool(true)))
            .push(("action"@, JsonV::Str("new"@)))
            .push(("threadId"@, text_or_null(response_text(created, "id"@))))
            .push(("cwd"@, text_or_null(response_cwd(created, cwd))))
            .push(("message"@, text_or_null(non_blank(message))))
            .push(("created"@, created))
            .push(("started"@, or_null(started))),
    )
}

/// What starting a thread did.
pub fn new_thread_live_result(
    cwd: Option<&str>,
    message: Option<&str>,
    created: Json,
    started: Option<Json>,
) -> (r: Json)
    ensures
        r@ == new_report(
            cwd.deep_view(),
            message.deep_view(),
            created@,
            started.deep_view(),
        ),
{
    let thread_id = thread_id_from_response(&created);
    let place = thread_cwd_from_response(&created, cwd);
    Object::new().with("ok", Json::Bool(true)).with("action", Json::text("new")).with(
        "threadId",
        Json::opt_text(&thread_id),
    ).with("cwd", Json::opt_text(&place)).with(
        "message",
        Json::opt_text(&normalized_message(message)),
    ).with("created", created).with("started", Json::opt(started)).done()
}

/// What forking a thread would do.
pub open spec fn fork_dry_run(thread_id: Seq<char>, message: Option<Seq<char>>) -> JsonV {
    JsonV::Object(
        Seq::empty()
            .push(("ok"@, JsonV::Bool(true)))
            .push(("action"@, JsonV::Str("fork"@)))
            .push(("dryRun"@, JsonV::Bool(true)))
            .push(("fromThreadId"@, JsonV::Str(thread_id)))
            .push(("message"@, text_or_null(non_blank(message)))),
    )
}

/// What forking a thread would do.
pub fn fork_thread_dry_run(thread_id: &str, message: Option<&str>) -> (r: Json)
    ensures
        r@ == fork_dry_run(thread_id@, message.deep_view()),
{
    Object::new().with("ok", Json::Bool(true)).with("action", Json::text("fork")).with(
        "dryRun",
        Json::Bool(true),
    ).with("fromThreadId", Json::text(thread_id)).with(
        "message",
        Json::opt_text(&normalized_message(message)),
    ).done()
}

/// The turn that starts in a fork: in the directory of the fork, with the message as it
/// is; none where the message is missing or blank.
pub open spec fn fork_turn(forked: JsonV, message: Option<Seq<char>>) -> Option<JsonV> {
    match (response_text(forked, "id"@), message) {
        (Some(id), Some(m)) => if non_blank(Some(m)) is Some {
            Some(turn_params(id, response_cwd(forked, None), m))
        } else {
            None
        },
        _ => None,
    }
}

/// The turn that starts in a fork.
pub fn fork_turn_params(forked: &Json, message: Option<&str>) -> (r: Option<Json>)
    ensures
        r.deep_view() == fork_turn(forked@, message.deep_view()),
{
    match (thread_id_from_response(forked), message) {
        (Some(id), Some(m)) => if trimmed_non_blank(Some(m)).is_some() {
            let place = thread_cwd_from_response(forked, None);
            Some(turn_start_params(id.as_str(), borrow_opt(&place), m))
        } else {
            None
        },
        _ => None,
    }
}

/// What forking a thread did.
pub open spec fn fork_report(
    from: Seq<char>,
    message: Option<Seq<char>>,
    forked: JsonV,
    started: Option<JsonV>,
) -> JsonV {
    JsonV::Object(
        Seq::empty()
            .push(("ok"@, JsonV::Bool(true)))
            .push(("action"@, JsonV::Str("fork"@)))
            .push(("fromThreadId"@, JsonV::Str(from)))
            .push(("threadId"@, text_or_null(response_text(forked, "id"@))))
            .push(("message"@, text_or_null(non_blank(message))))
            .push(("forked"@, forked))
            .push(("started"@, or_null(started))),
    )
}

/// What forking a thread did.
pub fn fork_thread_live_result(
    from_thread_id: &str,
    message: Option<&str>,
    forked: Json,
    started: Option<Json>,
) -> (r: Json)
    ensures
        r@ == fork_report(from_thread_id@, message.deep_view(), forked@, started.deep_view()),
{
    let thread_id = thread_id_from_response(&forked);
    Object::new().with("ok", Json::Bool(true)).with("action", Json::text("fork")).with(
        "fromThreadId",
        Json::text(from_thread_id),
    ).with("threadId", Json::opt_text(&thread_id)).with(
        "message",
        Json::opt_text(&normalized_message(message)),
    ).with("forked", forked).with("started", Json::opt(started)).done()
}

// ---------------------------------------------------------------------------
// Replies and approvals
// ---------------------------------------------------------------------------

/// What a reply would do.
pub open spec fn reply_dry_run_report(
    thread_id: Seq<char>,
    message: Seq<char>,
    sent_at: u64,
) -> JsonV {
    JsonV::Object(
        Seq::empty()
            .push(("ok"@, JsonV::Bool(true)))
            .push(("action"@, JsonV::Str("reply"@)))
            .push(("dry_run"@, JsonV::Bool(true)))
            .push(("thread_id"@, JsonV::Str(thread_id)))
            .push(("message"@, JsonV::Str(message)))
            .push(("sent_at"@, JsonV::UInt(sent_at))),
    )
}

/// What a reply would do.
pub fn reply_dry_run(thread_id: &str, message: &str, sent_at: u64) -> (r: Json)
    ensures
        r@ == reply_dry_run_report(thread_id@, message@, sent_at),
{
    Object::new().with("ok", Json::Bool(true)).with("action", Json::text("reply")).with(
        "dry_run",
        Json::Bool(true),
    ).with("thread_id", Json::text(thread_id)).with("message", Json::text(message)).with(
        "sent_at",
        Json::UInt(sent_at),
    ).done()
}

/// What the log says of a reply.
pub open spec fn reply_log(
    message: Seq<char>,
    resumed: JsonV,
    started: JsonV,
    sent_at: u64,
) -> JsonV {
    JsonV::Object(
        Seq::empty()
            .push(("message"@, JsonV::Str(message)))
            .push(("resumed"@, resumed))
            .push(("started"@, started))
            .push(("sentAt"@, JsonV::UInt(sent_at))),
    )
}

/// What a reply did.
pub open spec fn reply_report(
    thread_id: Seq<char>,
    message: Seq<char>,
    resumed: JsonV,
    started: JsonV,
    sent_at: u64,
) -> JsonV {
    JsonV::Object(
        Seq::empty()
            .push(("ok"@, JsonV::Bool(true)))
            .push(("action"@, JsonV::Str("reply"@)))
            .push(("threadId"@, JsonV::Str(thread_id)))
            .push(("message"@, JsonV::Str(message)))
            .push(("sentAt"@, JsonV::UInt(sent_at)))
            .push(("resumed"@, resumed))
            .push(("started"@, started)),
    )
}

/// What the log says of a reply.
pub fn reply_log_payload(message: &str, resumed: &Json, started: &Json, sent_at: u64) -> (r: Json)
    ensures
        r@ == reply_log(message@, resumed@, started@, sent_at),
{
    Object::new().with("message", Json::text(message)).with("resumed", resumed.clone()).with(
        "started",
        started.clone(),
    ).with("sentAt", Json::UInt(sent_at)).done()
}

/// Logs a reply that was sent, and reports it.
pub fn reply_result(
    state: &mut BridgeState,
    thread_id: &str,
    message: &str,
    resumed: Json,
    started: Json,
    sent_at: u64,
) -> (r: Result<Json, BridgeError>)
    ensures
        match r {
            Ok(report) => {
                &&& sent_at <= i64::MAX
                &&& report@ == reply_report(thread_id@, message@, resumed@, started@, sent_at)
                &&& final(state)@ == with_action(
                    old(state)@,
                    thread_id@,
                    "reply"@,
                    reply_log(message@, resumed@, started@, sent_at),
                    sent_at as i64,
                )
            },
            Err(e) => sent_at > i64::MAX && e@ == out_of_range() && final(state)@ == old(state)@,
        },
{
    let payload = reply_log_payload(message, &resumed, &started, sent_at);
    match record_action(state, thread_id, "reply", payload, sent_at) {
        Ok(_) => {},
        Err(e) => {
            return Err(e);
        },
    }
    Ok(
        Object::new().with("ok", Json::Bool(true)).with("action", Json::text("reply")).with(
            "threadId",
            Json::text(thread_id),
        ).with("message", Json::text(message)).with("sentAt", Json::UInt(sent_at)).with(
            "resumed",
            resumed,
        ).with("started", started).done(),
    )
}

/// What an approval would do.
pub open spec fn approve_dry_run_report(
    thread_id: Seq<char>,
    decision: Seq<char>,
    sent_text: Seq<char>,
    sent_at: u64,
) -> JsonV {
    JsonV::Object(
        Seq::empty()
            .push(("ok"@, JsonV::Bool(true)))
            .push(("action"@, JsonV::Str("approve"@)))
            .push(("dry_run"@, JsonV::Bool(true)))
            .push(("thread_id"@, JsonV::Str(thread_id)))
            .push(("decision"@, JsonV::Str(decision)))
            .push(("sent_text"@, JsonV::Str(sent_text)))
            .push(("sent_at"@, JsonV::UInt(sent_at))),
    )
}

/// What an approval would do.
pub fn approve_dry_run(thread_id: &str, decision: &str, sent_text: &str, sent_at: u64) -> (r: Json)
    ensures
        r@ == approve_dry_run_report(thread_id@, decision@, sent_text@, sent_at),
{
    Object::new().with("ok", Json::Bool(true)).with("action", Json::text("approve")).with(
        "dry_run",
        Json::Bool(true),
    ).with("thread_id", Json::text(thread_id)).with("decision", Json::text(decision)).with(
        "sent_text",
        Json::text(sent_text),
    ).with("sent_at", Json::UInt(sent_at)).done()
}

/// What the log says of an approval.
pub open spec fn approve_log(
    decision: Seq<char>,
    sent_text: Seq<char>,
    resumed: JsonV,
    started: JsonV,
    sent_at: u64,
) -> JsonV {
    JsonV::Object(
        Seq::empty()
            .push(("decision"@, JsonV::Str(decision)))
            .push(("sentText"@, JsonV::Str(sent_text)))
            .push(("resumed"@, resumed))
            .push(("started"@, started))
            .push(("sentAt"@, JsonV::UInt(sent_at))),
    )
}

/// What an approval did.
pub open spec fn approve_report(
    thread_id: Seq<char>,
    decision: Seq<char>,
    sent_text: Seq<char>,
    resumed: JsonV,
    started: JsonV,
    sent_at: u64,
) -> JsonV {
    JsonV::Object(
        Seq::empty()
            .push(("ok"@, JsonV::Bool(true)))
            .push(("action"@, JsonV::Str("approve"@)))
            .push(("threadId"@, JsonV::Str(thread_id)))
            .push(("decision"@, JsonV::Str(decision)))
            .push(("sentText"@, JsonV::Str(sent_text)))
            .push(("sentAt"@, JsonV::UInt(sent_at)))
            .push(("resumed"@, resumed))
            .push(("started"@, started)),
    )
}

/// Logs an approval that was sent, and reports it.
pub fn approve_result(
    state: &mut BridgeState,
    thread_id: &str,
    decision: &str,
    sent_text: &str,
    resumed: Json,
    started: Json,
    sent_at: u64,
) -> (r: Result<Json, BridgeError>)
    ensures
        match r {
            Ok(report) => {
                &&& sent_at <= i64::MAX
                &&& report@ == approve_report(
                    thread_id@,
                    decision@,
                    sent_text@,
                    resumed@,
                    started@,
                    sent_at,
                )
                &&& final(state)@ == with_action(
                    old(state)@,
                    thread_id@,
                    "approve"@,
                    approve_log(decision@, sent_text@, resumed@, started@, sent_at),
                    sent_at as i64,
                )
            },
            Err(e) => sent_at > i64::MAX && e@ == out_of_range() && final(state)@ == old(state)@,
        },
{
    let payload = Object::new().with("decision", Json::text(decision)).with(
        "sentText",
        Json::text(sent_text),
    ).with("resumed", resumed.clone()).with("started", started.clone()).with(
        "sentAt",
        Json::UInt(sent_at),
    ).done();
    match record_action(state, thread_id, "approve", payload, sent_at) {
        Ok(_) => {},
        Err(e) => {
            return Err(e);
        },
    }
    Ok(
        Object::new().with("ok", Json::Bool(true)).with("action", Json::text("approve")).with(
            "threadId",
            Json::text(thread_id),
        ).with("decision", Json::text(decision)).with("sentText", Json::text(sent_text)).with(
            "sentAt",
            Json::UInt(sent_at),
        ).with("resumed", resumed).with("started", started).done(),
    )
}

/// What the log says of a thread that was archived.
pub open spec fn archive_log(result: JsonV, now: u64) -> JsonV {
    JsonV::Object(
        Seq::empty()
            .push(("result"@, result))
            .push(("archivedAt"@, JsonV::UInt(now))),
    )
}

/// What is reported of a thread that was archived.
pub open spec fn archived_entry(thread_id: Seq<char>, result: JsonV) -> JsonV {
    JsonV::Object(
        Seq::empty()
            .push(("threadId"@, JsonV::Str(thread_id)))
            .push(("status"@, JsonV::Str("archived"@)))
            .push(("result"@, result)),
    )
}

/// Logs that a thread was archived, and reports it.
pub fn archived_thread(state: &mut BridgeState, thread_id: &str, result: Json, now: u64) -> (r:
    Result<Json, BridgeError>)
    ensures
        match r {
            Ok(entry) => {
                &&& now <= i64::MAX
                &&& entry@ == archived_entry(thread_id@, result@)
                &&& final(state)@ == with_action(
                    old(state)@,
                    thread_id@,
                    "archive"@,
                    archive_log(result@, now),
                    now as i64,
                )
            },
            Err(e) => now > i64::MAX && e@ == out_of_range() && final(state)@ == old(state)@,
        },
{
    let payload = Object::new().with("result", result.clone()).with(
        "archivedAt",
        Json::UInt(now),
    ).done();
    match record_action(state, thread_id, "archive", payload, now) {
        Ok(_) => {},
        Err(e) => {
            return Err(e);
        },
    }
    Ok(
        Object::new().with("threadId", Json::text(thread_id)).with(
            "status",
            Json::text("archived"),
        ).with("result", result).done(),
    )
}

/// The trimmed parts that are not blank, among the first `n`.
pub open spec fn kept_parts(parts: Seq<Seq<char>>, n: nat) -> Seq<Seq<char>>
    decreases n,
{
    if n == 0 || n > parts.len() {
        Seq::empty()
    } else {
        let before = kept_parts(parts, (n - 1) as nat);
        match non_blank(Some(parts[n - 1])) {
            Some(part) => before.push(part),
            None => before,
        }
    }
}

/// The parts of a list that is separated by commas, without blank ones.
pub open spec fn comma_list(s: Seq<char>) -> Seq<Seq<char>> {
    let parts = split_from(s, ',', 0);
    kept_parts(parts, parts.len())
}

/// The parts of a list that is separated by commas, without blank ones.
pub fn split_commas(s: &str) -> (r: Vec<String>)
    ensures
        r.deep_view() == comma_list(s@),
{
    let parts = split_char(s, ',');
    let ghost all = parts.deep_view();
    let mut out: Vec<String> = Vec::new();
    let mut i: usize = 0;
    assert(out.deep_view() =~= Seq::<Seq<char>>::empty());
    while i < parts.len()
        invariant
            i <= parts@.len(),
            all == parts.deep_view(),
            out.deep_view() == kept_parts(all, i as nat),
        decreases parts@.len() - i,
    {
        assert(all[i as int] == parts@[i as int]@);
        match trimmed_non_blank(Some(parts[i].as_str())) {
            Some(part) => {
                let ghost before = out.deep_view();
                out.push(part);
                assert(out.deep_view() =~= before.push(part@));
            },
            None => {},
        }
        i += 1;
    }
    out
}

/// The threads that an archive command names: those of its option, then the others.
pub open spec fn named_targets(option: Option<Seq<char>>, others: Seq<Seq<char>>) -> Seq<
    Seq<char>,
> {
    match option {
        Some(list) => comma_list(list) + others,
        None => others,
    }
}

/// The threads that an archive command names.
pub fn archive_targets(option: Option<&str>, thread_ids: &Vec<String>) -> (r: Vec<String>)
    ensures
        r.deep_view() == named_targets(option.deep_view(), thread_ids.deep_view()),
{
    match option {
        Some(list) => {
            let mut out = split_commas(list);
            let mut rest = copy_texts(thread_ids);
            let ghost a = out.deep_view();
            let ghost b = rest.deep_view();
            out.append(&mut rest);
            assert(out.deep_view() =~= a + b);
            out
        },
        None => copy_texts(thread_ids),
    }
}

// ---------------------------------------------------------------------------
// Failures of the app server
// ---------------------------------------------------------------------------

/// A failure with its class.
pub open spec fn classified(
    code: Seq<char>,
    retryable: bool,
    message: Seq<char>,
    guidance: JsonV,
) -> JsonV {
    JsonV::Object(
        Seq::empty()
            .push(("code"@, JsonV::Str(code)))
            .push(("retryable"@, JsonV::Bool(retryable)))
            .push(("message"@, JsonV::Str(message)))
            .push(("guidance"@, guidance)),
    )
}

/// The thread has no turns to read yet.
pub open spec fn not_materialized(message: Seq<char>) -> bool {
    contains_text(message, "is not materialized yet"@) || contains_text(
        message,
        "includeTurns is unavailable before first user message"@,
    )
}

/// The class of a failure of the app server.
pub open spec fn error_class(message: Seq<char>) -> JsonV {
    if contains_text(message, "thread not loaded"@) {
        classified(
            "thread_not_loaded"@,
            true,
            message,
            JsonV::Str(
                "The thread is not visible in this app-server client session. Prefer single-session flows like --follow on new/reply/approve/fork."@,
            ),
        )
    } else if not_materialized(message) {
        classified(
            "thread_not_materialized"@,
            true,
            message,
            JsonV::Str(
                "The thread exists but full turn materialization is not ready yet. Retry shortly or use single-session follow after creating/resuming the thread."@,
            ),
        )
    } else if contains_text(message, "no rollout found for thread id"@) {
        classified(
            "thread_no_rollout"@,
            false,
            message,
            JsonV::Str(
                "The backend does not consider this thread forkable/rollable in the current context. This is likely an upstream limitation rather than a bridge bug."@,
            ),
        )
    } else {
        classified("app_server_error"@, false, message, JsonV::Null)
    }
}

/// A failure with its class.
fn classify(code: &str, retryable: bool, message: &str, guidance: Json) -> (r: Json)
    ensures
        r@ == classified(code@, retryable, message@, guidance@),
{
    Object::new().with("code", Json::text(code)).with("retryable", Json::Bool(retryable)).with(
        "message",
        Json::text(message),
    ).with("guidance", guidance).done()
}

/// Tells whether a failure says that the thread has no turns to read yet: it is then
/// read again without them.
pub fn reads_without_turns(message: &str) -> (r: bool)
    ensures
        r == not_materialized(message@),
{
    contains(message, "is not materialized yet") || contains(
        message,
        "includeTurns is unavailable before first user message",
    )
}

/// The class of a failure of the app server.
pub fn classify_app_server_error_message(message: &str) -> (r: Json)
    ensures
        r@ == error_class(message@),
{
    if contains(message, "thread not loaded") {
        classify(
            "thread_not_loaded",
            true,
            message,
            Json::text(
                "The thread is not visible in this app-server client session. Prefer single-session flows like --follow on new/reply/approve/fork.",
            ),
        )
    } else if reads_without_turns(message) {
        classify(
            "thread_not_materialized",
            true,
            message,
            Json::text(
                "The thread exists but full turn materialization is not ready yet. Retry shortly or use single-session follow after creating/resuming the thread.",
            ),
        )
    } else if contains(message, "no rollout found for thread id") {
        classify(
            "thread_no_rollout",
            false,
            message,
            Json::text(
                "The backend does not consider this thread forkable/rollable in the current context. This is likely an upstream limitation rather than a bridge bug.",
            ),
        )
    } else {
        classify("app_server_error", false, message, Json::Null)
    }
}

} // verus!
