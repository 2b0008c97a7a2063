//! What holds of the live backend and of the connection to it.
use vstd::prelude::*;
use vstd::string::*;

use crate::codex::snapshot_of;
use crate::error::{BridgeErrorV, failure, full_text, in_context};
use crate::json::{
    empty_objects_have_no_members, JsonV, member, opt_member, pushed_members_are_found, text_member,
    text_value, uint_or_null, uint_value,
};
use crate::laws_requests::requests_say_what_is_asked_for;
use crate::laws_text::free_of;
use crate::live::{
    app_server_at, backend_on_line, BackendDecision, decision_name, empty_status, EndingV, EndStep,
    ensure_decision, first_backend, is_separator, is_wrapper, last_part, last_part_start,
    listens_at, LiveBackendStatusV, look_begun, LookAnswerV, LookProbe, names_codex, normalized,
    process_matches, ProcessFactsV, reconcile_backoff, reconcile_decision, reconcile_failure,
    reset_begun, ResetStepV, runs_backend, start_key_look, StartStepV, StartWaitV, status_json,
};
use crate::session::{
    answer, collected, fresh_session, introduction, is_notification, next_reading,
    notification_message, reading_taken, request_begun, request_message, SessionV, sync_begun,
    SyncRunV,
};
use crate::settings::setting_number;
use crate::shell::{daemon_command, quoted, quoting_is_undone_by_the_shell, read_word};
use crate::state::BridgeStateV;
use crate::sync::is_away;
use crate::table::{lemma_position, lemma_position_is};
use crate::text::{begins_with, decimal, is_digit, joined, lemma_decimal_digits, trimmed, words};
use crate::thread::in_away_window;
use crate::ws::{
    connect_failure, ConnectTallyV, frame_plan, FrameStepV, FrameV, nothing_tried, reading_begun,
    shared_url, tallied, UrlPartsV,
};

verus! {

// ---------------------------------------------------------------------------
// Finding the process
// ---------------------------------------------------------------------------

/// A command runs the backend where it has the word of the app server, a program of Codex before
/// it, and the address to listen at in one of its two forms; without any of these it does not.
pub proof fn backends_are_known_by_their_command(command: Seq<char>, url: Seq<char>, c: int, a: int, l: int)
    requires
        0 <= c < a < words(command).len(),
        0 <= l < words(command).len(),
    ensures
        last_part(words(command)[c]) == "codex"@ && words(command)[a] == "app-server"@ && (forall|
            k: int,
        |
            0 <= k < a ==> (#[trigger] words(command)[k]) != "app-server"@) && (words(command)[l]
            == "--listen="@ + url || (words(command)[l] == "--listen"@ && l + 1 < words(
            command,
        ).len() && words(command)[l + 1] == url)) ==> runs_backend(command, url),
        (forall|k: int|
            0 <= k < words(command).len() ==> (#[trigger] words(command)[k]) != "app-server"@)
            ==> !runs_backend(command, url),
        (forall|k: int|
            0 <= k < words(command).len() ==> !begins_with(
                last_part(#[trigger] words(command)[k]),
                "codex-"@,
            ) && last_part(words(command)[k]) != "codex"@) ==> !runs_backend(command, url),
        (forall|k: int|
            0 <= k < words(command).len() ==> (#[trigger] words(command)[k]) != "--listen"@
                && words(command)[k] != "--listen="@ + url) ==> !runs_backend(command, url),
{
    let args = words(command);
    let hit = |x: Seq<char>| x == "app-server"@;
    lemma_position(args, hit, 0);
    if last_part(args[c]) == "codex"@ && args[a] == "app-server"@ && (forall|k: int|
        0 <= k < a ==> (#[trigger] args[k]) != "app-server"@) && (args[l] == "--listen="@ + url || (
    args[l] == "--listen"@ && l + 1 < args.len() && args[l + 1] == url)) {
        lemma_position_is(args, hit, a);
        assert(app_server_at(args) == a) by {
            assert(hit =~= |x: Seq<char>| x == "app-server"@);
        }
        assert(names_codex(args[c]));
        assert(listens_at(args, l, url));
    }
}

/// The last part of a path is what stands behind its last separator.
pub proof fn last_parts_are_names(dir: Seq<char>, name: Seq<char>)
    requires
        free_of(name, '/'),
        free_of(name, '\\'),
    ensures
        last_part(name) == name,
        last_part(dir + "/"@ + name) == name,
{
    reveal_strlit("/");
    lemma_part_start(name, 0, name.len());
    assert(name.subrange(0, name.len() as int) =~= name);
    let p = dir + "/"@ + name;
    let at = (dir.len() + 1) as nat;
    assert forall|i: int| at <= i < p.len() implies !is_separator(#[trigger] p[i]) by {
        assert(p[i] == name[i - at]);
    }
    assert(p[at - 1] == '/');
    lemma_part_start(p, at, p.len());
    assert(p.subrange(at as int, p.len() as int) =~= name);
}

proof fn lemma_part_start(s: Seq<char>, at: nat, n: nat)
    requires
        at <= n <= s.len(),
        at == 0 || is_separator(s[at - 1]),
        forall|i: int| at <= i < n ==> !is_separator(#[trigger] s[i]),
    ensures
        last_part_start(s, n) == at,
    decreases n,
{
    if n > at {
        assert(!is_separator(s[n - 1]));
        lemma_part_start(s, at, (n - 1) as nat);
    }
}

/// The first line with a backend tells its process; shells and the like that only hold the
/// command are passed over.
pub proof fn the_first_backend_is_found(lines: Seq<Seq<char>>, url: Seq<char>, i: int)
    requires
        0 <= i < lines.len(),
        forall|k: int| 0 <= k < i ==> backend_on_line(#[trigger] lines[k], url) is None,
    ensures
        backend_on_line(lines[i], url) is Some ==> first_backend(lines, url, 0)
            == backend_on_line(lines[i], url),
        words(lines[i]).len() >= 2 && (words(lines[i])[1] == "sh"@ || words(lines[i])[1] == "bash"@
            || words(lines[i])[1] == "zsh"@ || words(lines[i])[1] == "screen"@) ==> backend_on_line(
            lines[i],
            url,
        ) is None,
{
    lemma_first_backend(lines, url, 0, i);
}

proof fn lemma_first_backend(lines: Seq<Seq<char>>, url: Seq<char>, from: nat, i: int)
    requires
        0 <= from <= i < lines.len(),
        forall|k: int| 0 <= k < i ==> backend_on_line(#[trigger] lines[k], url) is None,
    ensures
        backend_on_line(lines[i], url) is Some ==> first_backend(lines, url, from)
            == backend_on_line(lines[i], url),
    decreases i - from,
{
    if from < i {
        assert(backend_on_line(lines[from as int], url) is None);
        lemma_first_backend(lines, url, from + 1, i);
    }
}

/// A line tells the process that its first word numbers, where what stands behind the second
/// runs the backend.
pub proof fn lines_tell_their_process(line: Seq<char>, url: Seq<char>, pid: u32)
    requires
        words(line).len() >= 2,
        words(line)[0] == decimal(pid as nat),
        !is_wrapper(words(line)[1]),
        runs_backend(joined(words(line).subrange(2, words(line).len() as int), " "@), url),
    ensures
        backend_on_line(line, url) == Some(pid),
{
    lemma_decimal_digits(pid as nat);
    let d = decimal(pid as nat);
    assert(is_digit(d[0]));
}

/// A process is the one that was recorded where it is alive, runs the backend, and began when
/// the record says so.
pub proof fn processes_are_known_by_their_start(f: ProcessFactsV, key: Seq<char>)
    ensures
        !f.alive ==> !process_matches(f, Some(key)) && !process_matches(f, None),
        !f.command_matches ==> !process_matches(f, Some(key)) && !process_matches(f, None),
        f.alive && f.command_matches ==> process_matches(f, None),
        f.alive && f.command_matches ==> (process_matches(f, Some(key)) <==> f.start_key == Some(
            key,
        )),
{
}

// ---------------------------------------------------------------------------
// Looking at the backend
// ---------------------------------------------------------------------------

/// A recorded backend that is alive, still the one that was recorded, and answers, is ready;
/// its record stays.
pub proof fn recorded_backends_are_ready(
    previous: LiveBackendStatusV,
    pid: u32,
    key: Seq<char>,
    f: ProcessFactsV,
    required: bool,
)
    requires
        previous.pid == Some(pid),
        previous.process_start_key == Some(key),
        f.alive,
        f.command_matches,
        f.start_key == Some(key),
    ensures
        ({
            let (first, probe) = look_begun(Some(previous), previous.websocket_url, required);
            let (second, again) = first.step(LookAnswerV::Process(f));
            let (third, health) = second.step(LookAnswerV::Process(f));
            let (done, end) = third.step(LookAnswerV::Healthy);
            &&& probe == LookProbe::Process(pid)
            &&& again == LookProbe::Process(pid)
            &&& health == LookProbe::Health
            &&& end == LookProbe::Done
            &&& done.status.healthy
            &&& done.status.state == "ready"@
            &&& done.status.pid == Some(pid)
            &&& done.status.process_start_key == Some(key)
            &&& done.status.last_error is None
            &&& done.status.required == required
            &&& done.status.websocket_url == previous.websocket_url
        }),
{
}

/// Where nothing is recorded, a backend that is found running is adopted, with the start that
/// it is seen to have.
pub proof fn running_backends_are_adopted(
    url: Seq<char>,
    pid: u32,
    f: ProcessFactsV,
    required: bool,
)
    requires
        f.alive,
        f.command_matches,
    ensures
        ({
            let (first, probe) = look_begun(None, url, required);
            let (second, again) = first.step(LookAnswerV::Discovered(Some(pid)));
            let (third, more) = second.step(LookAnswerV::Process(f));
            let (fourth, health) = third.step(LookAnswerV::Process(f));
            let (done, end) = fourth.step(LookAnswerV::Healthy);
            &&& probe == LookProbe::Discover
            &&& again == LookProbe::Process(pid)
            &&& more == LookProbe::Process(pid)
            &&& health == LookProbe::Health
            &&& end == LookProbe::Done
            &&& done.status.healthy
            &&& done.status.pid == Some(pid)
            &&& done.status.process_start_key == f.start_key
            &&& done.status.websocket_url == url
        }),
{
}

/// A record of another address does not count, and a record of a process that is gone is
/// dropped for what is found.
pub proof fn stale_records_are_dropped(
    previous: LiveBackendStatusV,
    url: Seq<char>,
    required: bool,
    pid: u32,
    key: Seq<char>,
    f: ProcessFactsV,
)
    requires
        previous.pid == Some(pid),
        previous.process_start_key == Some(key),
    ensures
        previous.websocket_url != url ==> look_begun(Some(previous), url, required).1
            == LookProbe::Discover && look_begun(Some(previous), url, required).0.status.pid is None,
        previous.websocket_url == url && !f.alive ==> look_begun(
            Some(previous),
            url,
            required,
        ).0.step(LookAnswerV::Process(f)).1 == LookProbe::Discover,
        previous.websocket_url == url && f.start_key != Some(key) ==> look_begun(
            Some(previous),
            url,
            required,
        ).0.step(LookAnswerV::Process(f)).1 == LookProbe::Discover,
{
}

/// A status is shown as it is.
pub proof fn backend_statuses_are_shown(s: LiveBackendStatusV)
    ensures
        text_member(status_json(s), "websocketUrl"@) == Some(s.websocket_url),
        s.pid matches Some(p) ==> member(status_json(s), "pid"@) == Some(JsonV::UInt(p as u64)),
        s.pid is None ==> member(status_json(s), "pid"@) == Some(JsonV::Null),
        text_member(status_json(s), "processStartKey"@) == s.process_start_key,
        member(status_json(s), "healthy"@) == Some(JsonV::Bool(s.healthy)),
        text_member(status_json(s), "lastError"@) == s.last_error,
        member(status_json(s), "required"@) == Some(JsonV::Bool(s.required)),
        text_member(status_json(s), "state"@) == Some(s.state),
        member(status_json(s), "recoverable"@) == Some(JsonV::Bool(s.recoverable)),
        member(status_json(s), "reconcileAttempts"@) == Some(
            JsonV::UInt(s.reconcile_attempts as u64),
        ),
        member(status_json(s), "retryAfterMs"@) == Some(uint_or_null(s.retry_after_ms)),
{
    broadcast use {empty_objects_have_no_members, pushed_members_are_found};

    reveal_strlit("websocketUrl");
    reveal_strlit("pid");
    reveal_strlit("processStartKey");
    reveal_strlit("healthy");
    reveal_strlit("lastError");
    reveal_strlit("required");
    reveal_strlit("state");
    reveal_strlit("recoverable");
    reveal_strlit("reconcileAttempts");
    reveal_strlit("retryAfterMs");
    assert("websocketUrl"@.len() == 12);
    assert("pid"@.len() == 3);
    assert("processStartKey"@.len() == 15);
    assert("healthy"@.len() == 7);
    assert("lastError"@.len() == 9);
    assert("required"@.len() == 8);
    assert("state"@.len() == 5);
    assert("recoverable"@.len() == 11);
    assert("reconcileAttempts"@.len() == 17);
    assert("retryAfterMs"@.len() == 12);
    assert("websocketUrl"@[0] != "retryAfterMs"@[0]);
}

/// What is known of a backend that was never looked at, and of a status that is read back:
/// one without a state gets that of its health, and a healthy one counts no failures.
pub proof fn statuses_are_completed(s: LiveBackendStatusV, url: Seq<char>, required: bool)
    ensures
        ({
            let e = empty_status(url);
            &&& e.websocket_url == url && e.pid is None && !e.healthy
            &&& e.state == "idle"@ && e.last_error is None && e.reconcile_attempts == 0
        }),
        ({
            let n = normalized(s, required);
            &&& n.required == required
            &&& n.websocket_url == s.websocket_url && n.pid == s.pid && n.healthy == s.healthy
            &&& n.last_error == s.last_error && n.process_start_key == s.process_start_key
            &&& s.state.len() > 0 ==> n.state == s.state
            &&& s.state.len() == 0 && s.healthy ==> n.state == "ready"@
            &&& s.state.len() == 0 && !s.healthy && required ==> n.state == "unhealthy"@
            &&& s.state.len() == 0 && !s.healthy && !required ==> n.state == "idle"@
            &&& s.healthy ==> n.recoverable && n.reconcile_attempts == 0 && n.retry_after_ms is None
            &&& !s.healthy ==> n.recoverable == s.recoverable && n.reconcile_attempts
                == s.reconcile_attempts && n.retry_after_ms == s.retry_after_ms
        }),
{
}

// ---------------------------------------------------------------------------
// Deciding what to do
// ---------------------------------------------------------------------------

/// A healthy backend is used again; one that is not is started, unless it is blocked or its
/// time has not come; every further start counts one more try.
pub proof fn backends_are_started_where_they_are_needed(s: LiveBackendStatusV, now: u64)
    ensures
        s.healthy ==> ensure_decision(s) == BackendDecision::Reuse && reconcile_decision(s, now)
            == BackendDecision::Reuse,
        !s.healthy ==> ensure_decision(s) == BackendDecision::Start(0),
        !s.healthy && !s.recoverable ==> reconcile_decision(s, now) == BackendDecision::Blocked,
        !s.healthy && s.state == "blocked"@ ==> reconcile_decision(s, now)
            == BackendDecision::Blocked,
        !s.healthy && s.recoverable && s.state != "blocked"@ && s.retry_after_ms is None
            && s.reconcile_attempts < u32::MAX ==> reconcile_decision(s, now)
            == BackendDecision::Start((s.reconcile_attempts + 1) as u32),
        !s.healthy && s.recoverable && s.state != "blocked"@ && s.retry_after_ms is Some
            && s.retry_after_ms->0 > now ==> reconcile_decision(s, now) == BackendDecision::Defer,
{
}

/// Decisions have the names that are reported.
pub proof fn decisions_have_their_names(attempts: u32)
    ensures
        decision_name(BackendDecision::Reuse) == "reused"@,
        decision_name(BackendDecision::Blocked) == "blocked"@,
        decision_name(BackendDecision::Defer) == "deferred"@,
        decision_name(BackendDecision::Start(attempts)) == "started"@,
{
}

/// The first start that fails is tried again after five seconds, each of the next three after
/// twice as long as the one before, and every later one after a minute.
pub proof fn starts_back_off(attempts: u32)
    ensures
        reconcile_backoff(1) == 5_000,
        1 <= attempts <= 3 ==> reconcile_backoff((attempts + 1) as u32) == 2 * reconcile_backoff(
            attempts,
        ),
        attempts >= 5 ==> reconcile_backoff(attempts) == 60_000,
{
}

/// A start that failed is recorded with its failure, its count and the moment of the next try.
pub proof fn failed_starts_are_recorded(
    s: LiveBackendStatusV,
    url: Seq<char>,
    attempts: u32,
    now: u64,
    error: Seq<char>,
)
    requires
        now + 60_000 <= u64::MAX,
    ensures
        ({
            let r = reconcile_failure(Some(s), url, attempts, now, error);
            &&& !r.healthy && r.required && r.recoverable
            &&& r.state == "unhealthy"@
            &&& r.last_error == Some(error)
            &&& r.reconcile_attempts == attempts
            &&& r.retry_after_ms == Some((now + reconcile_backoff(attempts)) as u64)
            &&& r.websocket_url == s.websocket_url && r.pid == s.pid
        }),
        reconcile_failure(None, url, attempts, now, error).websocket_url == url,
{
}

// ---------------------------------------------------------------------------
// Ending and starting
// ---------------------------------------------------------------------------

/// The own process is asked to end; when it has gone, nothing more is done to it; when it has
/// not after three seconds, it is made to.
pub proof fn own_processes_are_asked_before_they_are_made_to_end(
    ending: EndingV,
    key: Seq<char>,
    running: ProcessFactsV,
    gone: ProcessFactsV,
    elapsed: u64,
)
    requires
        ending.process_start_key == Some(key),
        running.alive && running.command_matches && running.start_key == Some(key),
        !gone.alive,
    ensures
        ending.begun().1 == EndStep::Look,
        ending.begun().0.seen(running, elapsed).1 == EndStep::Ask,
        ending.begun().0.seen(gone, elapsed).1 == EndStep::Done,
        ({
            let asked = ending.begun().0.seen(running, 0).0;
            &&& elapsed < 3_000 ==> asked.seen(running, elapsed).1 == EndStep::Wait
            &&& elapsed >= 3_000 ==> asked.seen(running, elapsed).0.seen(running, elapsed).1
                == EndStep::Force
            &&& asked.seen(gone, elapsed).0.seen(gone, elapsed).1 == EndStep::Done
        }),
{
}

/// A reset without a record looks for a running backend, refuses where one is found, and
/// starts where none is.
pub proof fn resets_look_before_they_start(url: Seq<char>, pid: u32)
    ensures
        reset_begun(None, url).1 is Discover,
        reset_begun(None, url).0.found(None).1 is Start,
        reset_begun(None, url).0.found(Some(pid)).1 == ResetStepV::Refuse(
            failure(
                "found codex app-server process "@ + decimal(pid as nat) + " on "@ + url
                    + " without bridge ownership metadata; refusing to repair it. Use /away to reuse it or stop it locally first."@,
            ),
        ),
{
}

/// A started backend is ready when its process is the one that was started and it answers; it
/// is waited for five seconds.
pub proof fn started_backends_are_waited_for(
    w: StartWaitV,
    f: ProcessFactsV,
    error: Seq<char>,
    elapsed: u64,
)
    requires
        f.alive && f.command_matches && f.start_key == Some(w.process_start_key),
    ensures
        elapsed < 5_000 ==> w.looked(elapsed) is Process,
        elapsed >= 5_000 ==> w.looked(elapsed) is GiveUp,
        w.seen(f) == (w, StartStepV::Health),
        w.asked(None).1 matches StartStepV::Ready(s) && {
            &&& s.healthy && s.state == "ready"@ && s.last_error is None
            &&& s.pid == Some(w.pid) && s.process_start_key == Some(w.process_start_key)
            &&& s.websocket_url == w.websocket_url && s.required
        },
        w.asked(Some(error)).1 is Sleep,
        w.asked(Some(error)).0.last_error == Some(error),
        elapsed >= 5_000 ==> (w.asked(Some(error)).0.looked(elapsed) matches StartStepV::GiveUp(
            s,
            e,
        ) && !s.healthy && s.state == "unhealthy"@ && s.last_error == Some(error) && e == failure(
            error,
        )),
{
}

/// The start of a process is looked for until it is there, until the process is gone, or for
/// five seconds.
pub proof fn starts_are_looked_for(f: ProcessFactsV, pid: u32, elapsed: u64)
    ensures
        elapsed >= 5_000 ==> start_key_look(f, pid, elapsed) is Err,
        elapsed < 5_000 && f.start_key is Some ==> start_key_look(f, pid, elapsed) == Ok::<
            Option<Seq<char>>,
            BridgeErrorV,
        >(f.start_key),
        elapsed < 5_000 && f.start_key is None && !f.alive ==> start_key_look(f, pid, elapsed)
            is Err,
        elapsed < 5_000 && f.start_key is None && f.alive ==> start_key_look(f, pid, elapsed)
            == Ok::<Option<Seq<char>>, BridgeErrorV>(None),
{
}

// ---------------------------------------------------------------------------
// The session
// ---------------------------------------------------------------------------

/// Requests and notifications say their method and their parameters; a request has the number
/// by which it is answered.
pub proof fn session_messages_say_their_method(id: u64, method: Seq<char>, params: JsonV)
    ensures
        text_member(request_message(id, method, params), "jsonrpc"@) == Some("2.0"@),
        member(request_message(id, method, params), "id"@) == Some(JsonV::UInt(id)),
        text_member(request_message(id, method, params), "method"@) == Some(method),
        member(request_message(id, method, params), "params"@) == Some(params),
        text_member(notification_message(method, params), "jsonrpc"@) == Some("2.0"@),
        member(notification_message(method, params), "id"@) is None,
        text_member(notification_message(method, params), "method"@) == Some(method),
        member(notification_message(method, params), "params"@) == Some(params),
        is_notification(notification_message(method, params)),
        !is_notification(request_message(id, method, params)),
        member(introduction(), "protocolVersion"@) == Some(JsonV::UInt(1)),
        text_value(opt_member(member(introduction(), "clientInfo"@), "name"@)) == Some(
            "codex-telegram-bridge"@,
        ),
{
    broadcast use {empty_objects_have_no_members, pushed_members_are_found};

    reveal_strlit("jsonrpc");
    reveal_strlit("id");
    reveal_strlit("method");
    reveal_strlit("params");
    reveal_strlit("protocolVersion");
    reveal_strlit("capabilities");
    reveal_strlit("clientInfo");
    reveal_strlit("name");
    reveal_strlit("version");
    assert("jsonrpc"@.len() == 7);
    assert("id"@.len() == 2);
    assert("method"@.len() == 6);
    assert("params"@.len() == 6);
    assert("protocolVersion"@.len() == 15);
    assert("capabilities"@.len() == 12);
    assert("clientInfo"@.len() == 10);
    assert("name"@.len() == 4);
    assert("version"@.len() == 7);
    assert("jsonrpc"@[0] != "version"@[0]);
    assert("method"@[0] != "params"@[0]);
}

/// A message answers a request exactly where it has the number of it: with its error where it
/// has one, and else with its result.
pub proof fn answers_are_known_by_their_number(message: JsonV, id: u64, value: JsonV)
    ensures
        member(message, "id"@) != Some(JsonV::UInt(id)) ==> answer(message, id) == Ok::<
            Option<JsonV>,
            JsonV,
        >(None),
        member(message, "id"@) == Some(JsonV::UInt(id)) && member(message, "error"@) == Some(value)
            ==> answer(message, id) == Err::<Option<JsonV>, JsonV>(value),
        member(message, "id"@) == Some(JsonV::UInt(id)) && member(message, "error"@) is None
            && member(message, "result"@) == Some(value) ==> answer(message, id) == Ok::<
            Option<JsonV>,
            JsonV,
        >(Some(value)),
{
}

/// Notifications are kept in the order in which they come; answers are not among them.
pub proof fn notifications_are_kept_in_order(notifications: Seq<JsonV>, message: JsonV)
    ensures
        member(message, "id"@) is None && text_member(message, "method"@) is Some ==> collected(
            notifications,
            message,
        ) == notifications.push(message),
        member(message, "id"@) is Some ==> collected(notifications, message) == notifications,
        text_member(message, "method"@) is None ==> collected(notifications, message)
            == notifications,
{
}

/// A request waits as long as it may, and no longer than is left; with no time left it is not
/// sent.
pub proof fn requests_wait_as_long_as_is_left(
    s: SessionV,
    method: Seq<char>,
    params: JsonV,
    timeout: u64,
    left: u64,
)
    requires
        s.pending_transport_error is None,
    ensures
        request_begun(s, method, params, timeout, Some(0)).1 is Err,
        left > 0 ==> request_begun(s, method, params, timeout, Some(left)).1 is Ok && request_begun(
            s,
            method,
            params,
            timeout,
            Some(left),
        ).1->Ok_0.timeout == (if left < timeout {
            left
        } else {
            timeout
        }),
        request_begun(s, method, params, timeout, None).1 is Ok,
        request_begun(s, method, params, timeout, None).1->Ok_0.timeout == timeout,
        request_begun(s, method, params, timeout, None).1->Ok_0.envelope == request_message(
            s.next_id,
            method,
            params,
        ),
        fresh_session().next_id == 1 && fresh_session().notifications.len() == 0,
{
}

// ---------------------------------------------------------------------------
// A synchronisation
// ---------------------------------------------------------------------------

/// A synchronisation reads every listed thread, one after the other, by its own name; with its
/// turns where the user is away and the thread may be told of.
pub proof fn every_listed_thread_is_read(
    st: BridgeStateV,
    run: SyncRunV,
    id: Seq<char>,
    read: JsonV,
    thread: JsonV,
)
    requires
        run.next < run.summaries.len(),
        run.summaries.len() <= usize::MAX,
        text_member(run.summaries[run.next as int], "id"@) == Some(id),
        member(read, "thread"@) == Some(thread),
        snapshot_of(run.summaries[run.next as int], thread) is Ok,
    ensures
        sync_begun(st).away == is_away(st),
        sync_begun(st).since == setting_number(st, "away_started_at"@),
        sync_begun(st).next == 0 && sync_begun(st).snapshots.len() == 0,
        next_reading(run, false) is Ok && next_reading(run, false)->Ok_0 is Some,
        text_member(next_reading(run, false)->Ok_0->0, "threadId"@) == Some(id),
        member(next_reading(run, false)->Ok_0->0, "includeTurns"@) == Some(
            JsonV::Bool(
                run.away && in_away_window(
                    run.since,
                    uint_value(member(run.summaries[run.next as int], "updatedAt"@)),
                ),
            ),
        ),
        next_reading(run, true) == Ok::<Option<JsonV>, BridgeErrorV>(None),
        reading_taken(run, read) is Ok,
        reading_taken(run, read)->Ok_0.next == run.next + 1,
        reading_taken(run, read)->Ok_0.snapshots == run.snapshots.push(
            snapshot_of(run.summaries[run.next as int], thread)->Ok_0,
        ),
        reading_taken(run, read)->Ok_0.summaries == run.summaries,
{
    requests_say_what_is_asked_for(id, None, true, 0);
    requests_say_what_is_asked_for(id, None, false, 0);
}

// ---------------------------------------------------------------------------
// The web socket
// ---------------------------------------------------------------------------

/// A local address with the right scheme is accepted; any other scheme or host is refused, and
/// so is a blank address or one with blanks around it.
pub proof fn local_addresses_are_accepted(url: Seq<char>, parts: UrlPartsV, text: Seq<char>)
    ensures
        trimmed(url).len() == 0 || trimmed(url) != url ==> shared_url(url, Ok(parts)) is Err,
        trimmed(url) == url && url.len() > 0 && parts.scheme == "ws"@ && (parts.host == Some(
            "127.0.0.1"@,
        ) || parts.host == Some("localhost"@) || parts.host == Some("::1"@)) ==> shared_url(
            url,
            Ok(parts),
        ) == Ok::<UrlPartsV, BridgeErrorV>(parts),
        parts.scheme != "ws"@ ==> shared_url(url, Ok(parts)) is Err,
        parts.host is None ==> shared_url(url, Ok(parts)) is Err,
        shared_url(url, Err(text)) is Err,
{
}

/// A frame with a message is taken, a ping is answered with what it holds, and a close fails
/// with its reason.
pub proof fn frames_are_taken_as_they_are(text: Seq<char>, bytes: Seq<u8>, reason: Seq<char>)
    ensures
        frame_plan(FrameV::Text(text)) == FrameStepV::TakeText(text),
        frame_plan(FrameV::Binary(bytes)) == FrameStepV::TakeBytes(bytes),
        frame_plan(FrameV::Ping(bytes)) == FrameStepV::Answer(bytes),
        reason.len() > 0 ==> frame_plan(FrameV::Close(Some(reason))) == FrameStepV::Fail(
            failure("websocket app-server closed connection: "@ + reason),
        ),
        frame_plan(FrameV::Close(None)) == FrameStepV::Fail(
            failure("websocket app-server closed connection: "@ + "no reason provided"@),
        ),
{
}

/// A failure to connect tells whether the address was found, whether it was local, and what
/// went wrong last.
pub proof fn failures_to_connect_are_told(
    url: Seq<char>,
    timeout: u64,
    t: ConnectTallyV,
    text: Seq<char>,
)
    ensures
        connect_failure(nothing_tried(), url, timeout) == failure(
            "shared websocket URL "@ + url + " did not resolve to a socket address"@,
        ),
        tallied(t, true).saw_address && tallied(t, true).saw_loopback,
        tallied(t, false).saw_address && tallied(t, false).saw_loopback == t.saw_loopback,
        tallied(t, false).last_error == t.last_error,
        connect_failure(tallied(nothing_tried(), false), url, timeout) == failure(
            "shared websocket URL "@ + url + " did not resolve to a loopback socket address"@,
        ),
        t.saw_address && t.saw_loopback && t.last_error == Some(text) ==> full_text(
            connect_failure(t, url, timeout),
        ) == "failed to connect websocket transport to "@ + url + " within "@ + decimal(
            timeout as nat,
        ) + "ms"@ + ": "@ + text,
{
    assert(full_text(
        in_context(
            "failed to connect websocket transport to "@ + url + " within "@ + decimal(
                timeout as nat,
            ) + "ms"@,
            failure(text),
        ),
    ) =~= "failed to connect websocket transport to "@ + url + " within "@ + decimal(
        timeout as nat,
    ) + "ms"@ + ": "@ + text);
}

/// A wait lasts from its beginning for its time.
pub proof fn waits_last_for_their_time(begun: u64, timeout: u64, now: u64)
    requires
        begun + timeout <= u64::MAX,
    ensures
        now < begun + timeout ==> reading_begun(begun, timeout).left(now) == Ok::<
            u64,
            BridgeErrorV,
        >((begun + timeout - now) as u64),
        now >= begun + timeout ==> reading_begun(begun, timeout).left(now) is Err,
{
}

/// The daemon is run by the bridge's own command, written so that a shell reads it back.
pub proof fn the_daemon_is_run_by_the_bridge(command: Seq<char>)
    ensures
        exists|q: Seq<char>|
            #![trigger read_word(q, 0, false)]
            daemon_command(command) == q + " daemon run"@ && read_word(q, 0, false) == Some(
                command,
            ),
{
    quoting_is_undone_by_the_shell(command);
    let q = quoted(command);
    assert(read_word(q, 0, false) == Some(command));
    assert(daemon_command(command) == q + " daemon run"@);
}

} // verus!
