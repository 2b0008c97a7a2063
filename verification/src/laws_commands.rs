//! What holds of the commands: of what they send, what they report, and where they look.
use vstd::prelude::*;
use vstd::string::*;

use crate::away::pending_count;
use crate::config::{
    CodexConfigV, DaemonConfigV, discord_enabled, DiscordConfigV, projects_json, redacted_config,
    RegisteredProjectV, telegram_enabled, TelegramConfigV,
};
use crate::discord_commands::{
    answer_with, confirmation_report, current_project, delivery_report, discord_reply_report,
    message_call, messages_path, new_thread_log, notice_for_discord, notices_upto, plain_answer,
    project_hit, prompt_project, prompt_report, started_report, status_for_discord, status_report,
    supported_call, switch_report, test_dry_run, test_report, test_text, threads_report,
    transport_json, typing_call,
};
use crate::error::{BridgeErrorV, failure, full_text};
use crate::json::{
    array_value, empty_objects_have_no_members, int_json, JsonV, member, opt_member,
    pushed_members_are_found, text_array, text_member, text_value,
};
use crate::laws_text::{free_of, replacing_needs_something};
use crate::live::LiveBackendStatusV;
use crate::messages::{notice_text, project_lines, projects_text, status_text};
use crate::paths::{
    after_slash, at_path, candidates_for, joined_path, local_binary, parent, path_end,
    ResolvedBinaryV, roots, runtime_files, state_dir, with_candidate, with_optional,
    with_workspaces,
};
use crate::report::{
    backend_value, bridge_members, doctor_json, hermes_args, hermes_checked, hermes_report,
    HermesInstallV, remote_report, RemoteModeStartAction, service_members, start_name,
    whole_setup_report,
};
use crate::requests::meant_decision;
use crate::settings::{current_project_key, like, setting};
use crate::state::BridgeStateV;
use crate::sync::is_away;
use crate::table::{has_row, lemma_first_push, lemma_position_is};
use crate::tasks::{decision_text, sync_limit_for};
use crate::text::{ascii_lower, contains_text, decimal, trimmed, unicode_lowercase};

verus! {

// ---------------------------------------------------------------------------
// Calls of the chat service
// ---------------------------------------------------------------------------

/// A message is sent with its own text, to the channel that it is for, and mentions nobody.
pub proof fn messages_are_sent_to_their_channel(channel: Seq<char>, content: Seq<char>)
    ensures
        ({
            let call = message_call(channel, content);
            &&& call.method == "POST"@
            &&& call.path == "/channels/"@ + channel + "/messages"@
            &&& call.payload is Some
            &&& text_member(call.payload->0, "content"@) == Some(content)
            &&& opt_member(member(call.payload->0, "allowed_mentions"@), "parse"@) == Some(
                JsonV::Array(Seq::empty()),
            )
        }),
        typing_call(channel).method == "POST"@,
        typing_call(channel).path == "/channels/"@ + channel + "/typing"@,
        typing_call(channel).payload is None,
{
    broadcast use {empty_objects_have_no_members, pushed_members_are_found};

    reveal_strlit("content");
    reveal_strlit("allowed_mentions");
    reveal_strlit("parse");
    assert("content"@.len() == 7);
    assert("allowed_mentions"@.len() == 16);
    assert("parse"@.len() == 5);
}

/// Messages are read from their channel, fifty at a time, from behind the last that was seen.
pub proof fn messages_are_read_from_behind_the_last(channel: Seq<char>, last: u64)
    ensures
        messages_path(channel, None) == "/channels/"@ + channel + "/messages?limit=50"@,
        messages_path(channel, Some(last)) == messages_path(channel, None) + "&after="@ + decimal(
            last as nat,
        ),
{
}

/// A call may post, or get without a payload, and nothing else.
pub proof fn other_calls_are_not_supported(method: Seq<char>)
    ensures
        supported_call("POST"@, true) && supported_call("POST"@, false),
        supported_call("GET"@, false) && !supported_call("GET"@, true),
        method != "POST"@ && method != "GET"@ ==> !supported_call(method, true)
            && !supported_call(method, false),
{
    reveal_strlit("POST");
    reveal_strlit("GET");
    assert("POST"@.len() == 4);
    assert("GET"@.len() == 3);
}

// ---------------------------------------------------------------------------
// Answers
// ---------------------------------------------------------------------------

/// An answer has the text that is given and reports the action, and the value where there is
/// one.
pub proof fn answers_report_their_action(
    action: Seq<char>,
    text: Seq<char>,
    key: Seq<char>,
    value: JsonV,
)
    requires
        key != "ok"@,
        key != "action"@,
    ensures
        plain_answer(action, text).text == text,
        answer_with(action, text, key, value).text == text,
        member(plain_answer(action, text).report, "ok"@) == Some(JsonV::Bool(true)),
        text_member(plain_answer(action, text).report, "action"@) == Some(action),
        member(answer_with(action, text, key, value).report, "ok"@) == Some(JsonV::Bool(true)),
        text_member(answer_with(action, text, key, value).report, "action"@) == Some(action),
        member(answer_with(action, text, key, value).report, key) == Some(value),
{
    broadcast use {empty_objects_have_no_members, pushed_members_are_found};

    reveal_strlit("ok");
    reveal_strlit("action");
    assert("ok"@.len() == 2);
    assert("action"@.len() == 6);
}

/// The status tells whether the user is away, and how many notifications wait; one that names
/// no other service is sent as it is.
pub proof fn the_status_is_told(st: BridgeStateV, status: Seq<char>)
    ensures
        is_away(st) ==> status_text(st) == "Remote Codex mode is on."@
            + "\nPending Telegram notifications: "@ + decimal(pending_count(st)),
        !is_away(st) ==> status_text(st) == "Remote Codex mode is off."@
            + "\nPending Telegram notifications: "@ + decimal(pending_count(st)),
        !contains_text(status, "Pending Telegram notifications"@) && !contains_text(
            status,
            "Telegram's Reply action"@,
        ) ==> status_for_discord(status) == status,
{
    if !contains_text(status, "Pending Telegram notifications"@) && !contains_text(
        status,
        "Telegram's Reply action"@,
    ) {
        replacing_needs_something(
            status,
            "Pending Telegram notifications"@,
            "Pending Discord notifications"@,
        );
        replacing_needs_something(status, "Telegram's Reply action"@, "Discord's Reply action"@);
    }
}

/// The list of projects names the current one, and then each project with its label and its
/// directory, in order.
pub proof fn projects_are_listed(
    projects: Seq<RegisteredProjectV>,
    last: RegisteredProjectV,
    current: RegisteredProjectV,
)
    ensures
        projects_text(Seq::empty(), None) == "No project is selected."@,
        projects_text(Seq::empty(), Some(current)) == "Current project: "@ + current.label + " ("@
            + current.id + ")"@,
        projects_text(projects.push(last), Some(current)) == projects_text(projects, Some(current))
            + "\n- "@ + last.id + ": "@ + last.label + " ("@ + last.cwd + ")"@,
        projects_text(projects.push(last), None) == projects_text(projects, None) + "\n- "@
            + last.id + ": "@ + last.label + " ("@ + last.cwd + ")"@,
{
    let all = projects.push(last);
    lemma_lines_prefix(projects, last, projects.len());
    assert(all[all.len() - 1] == last);
    let line = "\n- "@ + last.id + ": "@ + last.label + " ("@ + last.cwd + ")"@;
    assert(project_lines(all, all.len()) == project_lines(projects, projects.len()) + line);
    assert(projects_text(all, Some(current)) =~= projects_text(projects, Some(current)) + line);
    assert(projects_text(all, None) =~= projects_text(projects, None) + line);
    assert(projects_text(projects, Some(current)) + line =~= projects_text(
        projects,
        Some(current),
    ) + "\n- "@ + last.id + ": "@ + last.label + " ("@ + last.cwd + ")"@);
    assert(projects_text(projects, None) + line =~= projects_text(projects, None) + "\n- "@
        + last.id + ": "@ + last.label + " ("@ + last.cwd + ")"@);
    assert(projects_text(Seq::empty(), None) =~= "No project is selected."@);
    assert(projects_text(Seq::empty(), Some(current)) =~= "Current project: "@ + current.label
        + " ("@ + current.id + ")"@);
}

proof fn lemma_lines_prefix(projects: Seq<RegisteredProjectV>, last: RegisteredProjectV, n: nat)
    requires
        n <= projects.len(),
    ensures
        project_lines(projects.push(last), n) == project_lines(projects, n),
    decreases n,
{
    if n > 0 {
        lemma_lines_prefix(projects, last, (n - 1) as nat);
        assert(projects.push(last)[n - 1] == projects[n - 1]);
    }
}

/// A notice says whether Codex waits or is done, and what it wrote last.
pub proof fn notices_say_what_happened(event: JsonV, preview: Seq<char>)
    requires
        text_member(event, "lastPreview"@) == Some(preview),
    ensures
        text_member(event, "type"@) == Some("thread_waiting"@) ==> notice_text(event)
            == "Codex is waiting for you"@ + "\n\n"@ + preview
            + "\n\nUse Telegram's Reply action on this message to answer."@,
        text_member(event, "type"@) == Some("thread_completed"@) ==> notice_text(event)
            == "Codex is done"@ + "\n\n"@ + preview
            + "\n\nUse Telegram's Reply action on this message to answer."@,
{
    reveal_strlit("thread_waiting");
    reveal_strlit("thread_completed");
    assert("thread_waiting"@.len() == 14);
    assert("thread_completed"@.len() == 16);
}

/// Of the payloads, each that has a text becomes a notice, in order.
pub proof fn every_text_becomes_a_notice(payloads: Seq<JsonV>, last: JsonV)
    ensures
        text_member(last, "text"@) matches Some(text) ==> notices_upto(
            payloads.push(last),
            payloads.len() + 1,
        ) == notices_upto(payloads, payloads.len()).push(notice_for_discord(text)),
        text_member(last, "text"@) is None ==> notices_upto(
            payloads.push(last),
            payloads.len() + 1,
        ) == notices_upto(payloads, payloads.len()),
{
    let all = payloads.push(last);
    lemma_notices_prefix(payloads, last, payloads.len());
    assert(all[all.len() - 1] == last);
}

proof fn lemma_notices_prefix(payloads: Seq<JsonV>, last: JsonV, n: nat)
    requires
        n <= payloads.len(),
    ensures
        notices_upto(payloads.push(last), n) == notices_upto(payloads, n),
    decreases n,
{
    if n > 0 {
        lemma_notices_prefix(payloads, last, (n - 1) as nat);
        assert(payloads.push(last)[n - 1] == payloads[n - 1]);
    }
}

// ---------------------------------------------------------------------------
// New threads from the chat
// ---------------------------------------------------------------------------

/// Where only one project is registered it is the current one without being chosen; where
/// several are and none is chosen, there is none.
pub proof fn the_only_project_is_current(
    st: BridgeStateV,
    projects: Seq<RegisteredProjectV>,
    channel: Seq<char>,
    user: Option<Seq<char>>,
)
    requires
        setting(st, current_project_key(channel, user)) is None,
    ensures
        projects.len() == 1 ==> current_project(st, projects, channel, user) == Some(projects[0]),
        projects.len() != 1 ==> current_project(st, projects, channel, user) is None,
{
}

/// The choice of a project is kept by channel and user.
pub proof fn choices_are_kept_by_channel_and_user(channel: Seq<char>, user: Seq<char>)
    ensures
        current_project_key(channel, Some(user)) == "telegram_current_project:"@ + channel + ":"@
            + user,
        current_project_key(channel, None) == "telegram_current_project:"@ + channel + ":"@ + "*"@,
{
}

/// The prompt of a new thread goes to the project that the question was asked for, and to the
/// current project where no question was.
pub proof fn prompts_go_to_their_project(
    projects: Seq<RegisteredProjectV>,
    current: Option<RegisteredProjectV>,
    i: int,
)
    requires
        0 <= i < projects.len(),
        forall|k: int| 0 <= k < i ==> (#[trigger] projects[k]).id != projects[i].id,
    ensures
        prompt_project(projects, current, Some(projects[i].id)) == Some(projects[i]),
        prompt_project(projects, current, None) == current,
{
    lemma_position_is(projects, project_hit(projects[i].id), i);
}

/// What is asked, logged and reported of a new thread names its project, its message and its
/// thread.
pub proof fn new_threads_are_logged(
    p: RegisteredProjectV,
    message: Seq<char>,
    result: JsonV,
    confirmation: JsonV,
    action: Seq<char>,
    thread_id: Seq<char>,
    id: i64,
    now: u64,
)
    ensures
        ({
            let log = new_thread_log(p, message, result, now);
            &&& text_member(log, "projectId"@) == Some(p.id)
            &&& text_member(log, "projectLabel"@) == Some(p.label)
            &&& text_member(log, "cwd"@) == Some(p.cwd)
            &&& text_member(log, "message"@) == Some(message)
            &&& member(log, "result"@) == Some(result)
            &&& member(log, "sentAt"@) == Some(JsonV::UInt(now))
        }),
        ({
            let r = prompt_report(p.id, id);
            &&& member(r, "ok"@) == Some(JsonV::Bool(true))
            &&& text_member(r, "action"@) == Some("discord_new_thread_prompt"@)
            &&& text_member(r, "projectId"@) == Some(p.id)
            &&& member(r, "messageId"@) == Some(int_json(id))
        }),
        ({
            let r = confirmation_report(thread_id, id);
            &&& member(r, "ok"@) == Some(JsonV::Bool(true))
            &&& text_member(r, "action"@) == Some("discord_new_thread_confirmation"@)
            &&& text_member(r, "threadId"@) == Some(thread_id)
            &&& member(r, "messageId"@) == Some(int_json(id))
        }),
        ({
            let r = started_report(action, p.id, result, confirmation);
            &&& member(r, "ok"@) == Some(JsonV::Bool(true))
            &&& text_member(r, "action"@) == Some(action)
            &&& text_member(r, "projectId"@) == Some(p.id)
            &&& member(r, "result"@) == Some(result)
            &&& member(r, "confirmation"@) == Some(confirmation)
        }),
{
    broadcast use {empty_objects_have_no_members, pushed_members_are_found};

    reveal_strlit("projectId");
    reveal_strlit("projectLabel");
    reveal_strlit("cwd");
    reveal_strlit("message");
    reveal_strlit("result");
    reveal_strlit("sentAt");
    reveal_strlit("ok");
    reveal_strlit("action");
    reveal_strlit("messageId");
    reveal_strlit("threadId");
    reveal_strlit("confirmation");
    assert("projectId"@.len() == 9);
    assert("projectLabel"@.len() == 12);
    assert("cwd"@.len() == 3);
    assert("message"@.len() == 7);
    assert("result"@.len() == 6);
    assert("sentAt"@.len() == 6);
    assert("ok"@.len() == 2);
    assert("action"@.len() == 6);
    assert("messageId"@.len() == 9);
    assert("threadId"@.len() == 8);
    assert("confirmation"@.len() == 12);
    assert("projectId"@[0] != "messageId"@[0]);
    assert("projectLabel"@[0] != "confirmation"@[0]);
    assert("result"@[0] != "sentAt"@[0]);
    assert("result"@[0] != "action"@[0]);
    assert("sentAt"@[0] != "action"@[0]);
}

/// The report of a reply says what was sent to which thread, by which transport, and which
/// turn it began.
pub proof fn chat_replies_are_reported(
    thread_id: Seq<char>,
    message: Seq<char>,
    transport: JsonV,
    started: JsonV,
    turn: JsonV,
    name: Seq<char>,
    pid: u32,
    now: u64,
)
    requires
        member(started, "turn"@) == Some(turn),
    ensures
        ({
            let r = discord_reply_report(thread_id, message, transport, started, now);
            let delivery = member(r, "delivery"@);
            &&& member(r, "ok"@) == Some(JsonV::Bool(true))
            &&& text_member(r, "action"@) == Some("discord_reply"@)
            &&& text_member(r, "threadId"@) == Some(thread_id)
            &&& text_member(r, "message"@) == Some(message)
            &&& member(r, "codex"@) == Some(transport)
            &&& member(r, "sentAt"@) == Some(JsonV::UInt(now))
            &&& text_value(opt_member(delivery, "mode"@)) == Some("daemon_sync"@)
            &&& text_value(opt_member(delivery, "status"@)) == Some("turn_started"@)
            &&& text_value(opt_member(delivery, "startedTurnId"@)) == text_member(turn, "id"@)
        }),
        text_member(transport_json(name, Some(pid)), "transport"@) == Some(name),
        member(transport_json(name, Some(pid)), "appServerPid"@) == Some(JsonV::UInt(pid as u64)),
        member(transport_json(name, None), "appServerPid"@) == Some(JsonV::Null),
{
    broadcast use {empty_objects_have_no_members, pushed_members_are_found};

    reveal_strlit("ok");
    reveal_strlit("action");
    reveal_strlit("threadId");
    reveal_strlit("message");
    reveal_strlit("codex");
    reveal_strlit("delivery");
    reveal_strlit("sentAt");
    reveal_strlit("mode");
    reveal_strlit("status");
    reveal_strlit("startedTurnId");
    reveal_strlit("transport");
    reveal_strlit("appServerPid");
    assert("ok"@.len() == 2);
    assert("action"@.len() == 6);
    assert("threadId"@.len() == 8);
    assert("message"@.len() == 7);
    assert("codex"@.len() == 5);
    assert("delivery"@.len() == 8);
    assert("sentAt"@.len() == 6);
    assert("mode"@.len() == 4);
    assert("status"@.len() == 6);
    assert("startedTurnId"@.len() == 13);
    assert("transport"@.len() == 9);
    assert("appServerPid"@.len() == 12);
    assert("action"@[0] != "sentAt"@[0]);
    assert("action"@[0] != "status"@[0]);
    assert("threadId"@[0] != "delivery"@[0]);
    assert("sentAt"@[1] != "status"@[1]);
}

/// The report of a delivery names the messages that were sent, the first of them by itself,
/// and their thread.
pub proof fn deliveries_are_reported(ids: Seq<i64>, thread_id: Option<Seq<char>>, i: int)
    requires
        0 < ids.len() <= u64::MAX,
    ensures
        ({
            let r = delivery_report(ids, thread_id);
            let sent = array_value(member(r, "messageIds"@));
            &&& member(r, "ok"@) == Some(JsonV::Bool(true))
            &&& text_member(r, "transport"@) == Some("discord"@)
            &&& member(r, "messageId"@) == Some(int_json(ids[0]))
            &&& sent is Some && sent->0.len() == ids.len()
            &&& 0 <= i < ids.len() ==> sent->0[i] == int_json(ids[i])
            &&& member(r, "chunks"@) == Some(JsonV::UInt(ids.len() as u64))
            &&& text_member(r, "threadId"@) == thread_id
        }),
{
    broadcast use {empty_objects_have_no_members, pushed_members_are_found};

    reveal_strlit("ok");
    reveal_strlit("transport");
    reveal_strlit("messageId");
    reveal_strlit("messageIds");
    reveal_strlit("chunks");
    reveal_strlit("threadId");
    assert("ok"@.len() == 2);
    assert("transport"@.len() == 9);
    assert("messageId"@.len() == 9);
    assert("messageIds"@.len() == 10);
    assert("chunks"@.len() == 6);
    assert("threadId"@.len() == 8);
    assert("transport"@[0] != "messageId"@[0]);
}

/// The report of a list of threads counts the messages that were sent.
pub proof fn thread_lists_are_reported(limit: u64, sent: Seq<JsonV>)
    ensures
        ({
            let r = threads_report(limit, sent);
            &&& member(r, "ok"@) == Some(JsonV::Bool(true))
            &&& text_member(r, "action"@) == Some("discord_threads"@)
            &&& member(r, "limit"@) == Some(JsonV::UInt(limit))
            &&& member(r, "count"@) == Some(JsonV::UInt(sent.len() as u64))
            &&& member(r, "sent"@) == Some(JsonV::Array(sent))
        }),
{
    broadcast use {empty_objects_have_no_members, pushed_members_are_found};

    reveal_strlit("ok");
    reveal_strlit("action");
    reveal_strlit("limit");
    reveal_strlit("count");
    reveal_strlit("sent");
    assert("ok"@.len() == 2);
    assert("action"@.len() == 6);
    assert("limit"@.len() == 5);
    assert("count"@.len() == 5);
    assert("sent"@.len() == 4);
    assert("limit"@[0] != "count"@[0]);
}

// ---------------------------------------------------------------------------
// Setting up and testing the chat service
// ---------------------------------------------------------------------------

/// The status report says whether the service is set up and switched on.
pub proof fn the_setup_is_reported(
    config: DaemonConfigV,
    after: DaemonConfigV,
    path: Seq<char>,
    enabled: bool,
    dry_run: bool,
)
    ensures
        ({
            let r = status_report(Some(config), path);
            &&& member(r, "ok"@) == Some(JsonV::Bool(true))
            &&& text_member(r, "action"@) == Some("discord_status"@)
            &&& text_member(r, "configPath"@) == Some(path)
            &&& member(r, "configured"@) == Some(JsonV::Bool(config.discord is Some))
            &&& config.discord is None ==> member(r, "enabled"@) == Some(JsonV::Bool(false))
            &&& config.discord is Some ==> member(r, "enabled"@) == Some(
                JsonV::Bool(config.discord->0.enabled),
            )
            &&& member(r, "config"@) == Some(redacted_config(config))
        }),
        member(status_report(None, path), "configured"@) == Some(JsonV::Bool(false)),
        member(status_report(None, path), "config"@) == Some(JsonV::Null),
        ({
            let r = switch_report(config, after, enabled, dry_run, path);
            &&& member(r, "ok"@) == Some(JsonV::Bool(true))
            &&& enabled ==> text_member(r, "action"@) == Some("discord_enable"@)
            &&& !enabled ==> text_member(r, "action"@) == Some("discord_disable"@)
            &&& member(r, "dryRun"@) == Some(JsonV::Bool(dry_run))
            &&& member(r, "enabled"@) == Some(JsonV::Bool(enabled))
            &&& config.discord is Some ==> member(r, "previousEnabled"@) == Some(
                JsonV::Bool(config.discord->0.enabled),
            )
            &&& text_member(r, "configPath"@) == Some(path)
            &&& member(r, "config"@) == Some(redacted_config(after))
        }),
{
    broadcast use {empty_objects_have_no_members, pushed_members_are_found};

    reveal_strlit("ok");
    reveal_strlit("action");
    reveal_strlit("configPath");
    reveal_strlit("configured");
    reveal_strlit("enabled");
    reveal_strlit("config");
    reveal_strlit("dryRun");
    reveal_strlit("previousEnabled");
    assert("ok"@.len() == 2);
    assert("action"@.len() == 6);
    assert("configPath"@.len() == 10);
    assert("configured"@.len() == 10);
    assert("enabled"@.len() == 7);
    assert("config"@.len() == 6);
    assert("dryRun"@.len() == 6);
    assert("previousEnabled"@.len() == 15);
    assert("action"@[0] != "config"@[0]);
    assert("action"@[0] != "dryRun"@[0]);
    assert("configPath"@[6] != "configured"@[6]);
    assert("config"@[0] != "dryRun"@[0]);
}

/// A test sends its own text, or one of its own where none is given, to every channel.
pub proof fn tests_send_their_text(discord: DiscordConfigV, message: Seq<char>, sent: Seq<JsonV>)
    ensures
        trimmed(message).len() > 0 ==> test_text(message) == trimmed(message),
        trimmed(message).len() == 0 ==> test_text(message) == "Codex Discord bridge test"@,
        ({
            let r = test_dry_run(discord, message);
            &&& text_member(r, "action"@) == Some("discord_test"@)
            &&& member(r, "dryRun"@) == Some(JsonV::Bool(true))
            &&& discord.channel_ids.len() > 0 ==> member(r, "channelIds"@) == Some(
                text_array(discord.channel_ids),
            )
            &&& discord.channel_ids.len() == 0 ==> member(r, "channelIds"@) == Some(
                text_array(Seq::empty().push(discord.channel_id)),
            )
            &&& text_value(opt_member(member(r, "payload"@), "content"@)) == Some(
                test_text(message),
            )
        }),
        text_member(test_report(sent), "action"@) == Some("discord_test"@),
        member(test_report(sent), "dryRun"@) == Some(JsonV::Bool(false)),
        member(test_report(sent), "sent"@) == Some(JsonV::Array(sent)),
{
    broadcast use {empty_objects_have_no_members, pushed_members_are_found};

    reveal_strlit("ok");
    reveal_strlit("action");
    reveal_strlit("dryRun");
    reveal_strlit("channelIds");
    reveal_strlit("payload");
    reveal_strlit("content");
    reveal_strlit("allowed_mentions");
    reveal_strlit("sent");
    assert("ok"@.len() == 2);
    assert("action"@.len() == 6);
    assert("dryRun"@.len() == 6);
    assert("channelIds"@.len() == 10);
    assert("payload"@.len() == 7);
    assert("content"@.len() == 7);
    assert("allowed_mentions"@.len() == 16);
    assert("sent"@.len() == 4);
    assert("action"@[0] != "dryRun"@[0]);
    assert("payload"@[0] != "content"@[0]);
}

/// The configuration is shown as it is, but for the tokens.
pub proof fn the_configuration_is_shown(
    config: DaemonConfigV,
    telegram: TelegramConfigV,
    discord: DiscordConfigV,
    codex: CodexConfigV,
)
    ensures
        member(redacted_config(config), "version"@) == Some(JsonV::UInt(config.version)),
        text_member(redacted_config(config), "bridgeCommand"@) == Some(config.bridge_command),
        text_member(redacted_config(config), "events"@) == Some(config.events),
        member(redacted_config(config), "projects"@) == Some(projects_json(config.projects)),
        config.telegram is None ==> member(redacted_config(config), "telegram"@) == Some(
            JsonV::Null,
        ),
        config.discord is None ==> member(redacted_config(config), "discord"@) == Some(
            JsonV::Null,
        ),
        config.codex is None ==> member(redacted_config(config), "codex"@) == Some(JsonV::Null),
        config.telegram == Some(telegram) ==> ({
            let t = member(redacted_config(config), "telegram"@);
            &&& text_value(opt_member(t, "botToken"@)) == Some("<redacted>"@)
            &&& text_value(opt_member(t, "chatId"@)) == Some(telegram.chat_id)
            &&& text_value(opt_member(t, "allowedUserId"@)) == telegram.allowed_user_id
        }),
        config.discord == Some(discord) ==> ({
            let d = member(redacted_config(config), "discord"@);
            &&& text_value(opt_member(d, "botToken"@)) == Some("<redacted>"@)
            &&& text_value(opt_member(d, "channelId"@)) == Some(discord.channel_id)
            &&& opt_member(d, "channelIds"@) == Some(text_array(discord.channel_ids))
            &&& text_value(opt_member(d, "allowedUserId"@)) == discord.allowed_user_id
            &&& opt_member(d, "enabled"@) == Some(JsonV::Bool(discord.enabled))
        }),
        config.codex == Some(codex) ==> text_value(
            opt_member(member(redacted_config(config), "codex"@), "websocketUrl"@),
        ) == Some(codex.websocket_url),
{
    broadcast use {empty_objects_have_no_members, pushed_members_are_found};

    reveal_strlit("version");
    reveal_strlit("bridgeCommand");
    reveal_strlit("events");
    reveal_strlit("telegram");
    reveal_strlit("discord");
    reveal_strlit("codex");
    reveal_strlit("projects");
    reveal_strlit("botToken");
    reveal_strlit("chatId");
    reveal_strlit("allowedUserId");
    reveal_strlit("channelId");
    reveal_strlit("channelIds");
    reveal_strlit("enabled");
    reveal_strlit("liveMode");
    reveal_strlit("websocketUrl");
    assert("version"@.len() == 7);
    assert("bridgeCommand"@.len() == 13);
    assert("events"@.len() == 6);
    assert("telegram"@.len() == 8);
    assert("discord"@.len() == 7);
    assert("codex"@.len() == 5);
    assert("projects"@.len() == 8);
    assert("botToken"@.len() == 8);
    assert("chatId"@.len() == 6);
    assert("allowedUserId"@.len() == 13);
    assert("channelId"@.len() == 9);
    assert("channelIds"@.len() == 10);
    assert("enabled"@.len() == 7);
    assert("liveMode"@.len() == 8);
    assert("websocketUrl"@.len() == 12);
    assert("version"@[0] != "discord"@[0]);
    assert("version"@[0] != "enabled"@[0]);
    assert("bridgeCommand"@[0] != "allowedUserId"@[0]);
    assert("events"@[0] != "chatId"@[0]);
    assert("telegram"@[0] != "projects"@[0]);
    assert("telegram"@[0] != "botToken"@[0]);
    assert("telegram"@[0] != "liveMode"@[0]);
    assert("discord"@[0] != "enabled"@[0]);
    assert("projects"@[0] != "botToken"@[0]);
    assert("projects"@[0] != "liveMode"@[0]);
    assert("botToken"@[0] != "liveMode"@[0]);
}

/// A service is switched on where it is configured and not switched off.
pub proof fn services_are_switched_on(telegram: TelegramConfigV, discord: DiscordConfigV)
    ensures
        telegram_enabled(Some(telegram)) && !telegram_enabled(None),
        discord_enabled(Some(discord)) == discord.enabled && !discord_enabled(None),
{
}

// ---------------------------------------------------------------------------
// Settings by prefix
// ---------------------------------------------------------------------------

/// A pattern of letters and an open end is met by every key that begins so, and by no key that
/// is shorter or differs in a letter, other than by its case.
pub proof fn keys_are_found_by_their_beginning(prefix: Seq<char>, rest: Seq<char>, i: int)
    requires
        forall|k: int| 0 <= k < prefix.len() ==> (#[trigger] prefix[k]) != '%' && prefix[k] != '_',
    ensures
        like(prefix + "%"@, prefix + rest, 0, 0),
        rest.len() < prefix.len() ==> !like(prefix + "%"@, rest, 0, 0),
        0 <= i < prefix.len() && i < rest.len() && ascii_lower(prefix[i]) != ascii_lower(rest[i])
            ==> !like(prefix + "%"@, rest, 0, 0),
{
    reveal_strlit("%");
    lemma_like_rest(prefix, prefix + rest, 0);
    if rest.len() < prefix.len() {
        lemma_like_short(prefix, rest, 0);
    }
    if 0 <= i < prefix.len() && i < rest.len() && ascii_lower(prefix[i]) != ascii_lower(rest[i]) {
        lemma_like_differs(prefix, rest, 0, i);
    }
}

proof fn lemma_like_end(p: Seq<char>, s: Seq<char>, i: nat, j: nat)
    requires
        i + 1 == p.len(),
        p[i as int] == '%',
        j <= s.len(),
    ensures
        like(p, s, i, j),
    decreases s.len() - j,
{
    if j < s.len() {
        lemma_like_end(p, s, i, j + 1);
    } else {
        assert(like(p, s, i + 1, j));
    }
}

proof fn lemma_like_rest(prefix: Seq<char>, s: Seq<char>, i: nat)
    requires
        i <= prefix.len() <= s.len(),
        forall|k: int| 0 <= k < prefix.len() ==> (#[trigger] prefix[k]) == s[k] && prefix[k] != '%',
        "%"@.len() == 1 && "%"@[0] == '%',
    ensures
        like(prefix + "%"@, s, i, i),
    decreases prefix.len() - i,
{
    let p = prefix + "%"@;
    if i == prefix.len() {
        assert(p[i as int] == '%');
        lemma_like_end(p, s, i, i);
    } else {
        assert(p[i as int] == prefix[i as int]);
        lemma_like_rest(prefix, s, i + 1);
    }
}

proof fn lemma_like_short(prefix: Seq<char>, s: Seq<char>, i: nat)
    requires
        i <= s.len() < prefix.len(),
        forall|k: int| 0 <= k < prefix.len() ==> (#[trigger] prefix[k]) != '%',
    ensures
        !like(prefix + "%"@, s, i, i),
    decreases prefix.len() - i,
{
    let p = prefix + "%"@;
    assert(p[i as int] == prefix[i as int]);
    if i < s.len() {
        lemma_like_short(prefix, s, i + 1);
    }
}

proof fn lemma_like_differs(prefix: Seq<char>, s: Seq<char>, i: nat, at: int)
    requires
        i <= at < prefix.len(),
        at < s.len(),
        forall|k: int| 0 <= k < prefix.len() ==> (#[trigger] prefix[k]) != '%' && prefix[k] != '_',
        ascii_lower(prefix[at]) != ascii_lower(s[at]),
    ensures
        !like(prefix + "%"@, s, i, i),
    decreases at - i,
{
    let p = prefix + "%"@;
    assert(p[i as int] == prefix[i as int]);
    if i < at {
        lemma_like_differs(prefix, s, i + 1, at);
    }
}

// ---------------------------------------------------------------------------
// Remote mode, doctor and setup
// ---------------------------------------------------------------------------

/// The report on remote mode says what is configured, whether the user is away, how the
/// backend is and what waits.
pub proof fn remote_mode_is_reported(
    action: Seq<char>,
    config: DaemonConfigV,
    away: JsonV,
    backend: JsonV,
    pending: u64,
    path: Seq<char>,
    dir: Seq<char>,
)
    ensures
        ({
            let r = remote_report(action, Some(config), away, backend, pending, path, dir);
            &&& member(r, "ok"@) == Some(JsonV::Bool(true))
            &&& text_member(r, "action"@) == Some(action)
            &&& text_member(r, "configPath"@) == Some(path)
            &&& text_member(r, "stateFolderPath"@) == Some(dir)
            &&& member(r, "configured"@) == Some(JsonV::Bool(true))
            &&& member(r, "telegramConfigured"@) == Some(JsonV::Bool(config.telegram is Some))
            &&& member(r, "discordConfigured"@) == Some(JsonV::Bool(config.discord is Some))
            &&& member(r, "codexConfigured"@) == Some(JsonV::Bool(config.codex is Some))
            &&& member(r, "away"@) == Some(away)
            &&& member(r, "backend"@) == Some(backend)
            &&& member(r, "pending"@) == Some(JsonV::UInt(pending))
        }),
        member(
            remote_report(action, None, away, backend, pending, path, dir),
            "configured"@,
        ) == Some(JsonV::Bool(false)),
        start_name(RemoteModeStartAction::On) == "remote_on"@,
        start_name(RemoteModeStartAction::Repair) == "remote_repair"@,
{
    broadcast use {empty_objects_have_no_members, pushed_members_are_found};

    reveal_strlit("ok");
    reveal_strlit("action");
    reveal_strlit("configPath");
    reveal_strlit("stateFolderPath");
    reveal_strlit("configured");
    reveal_strlit("telegramConfigured");
    reveal_strlit("discordConfigured");
    reveal_strlit("codexConfigured");
    reveal_strlit("away");
    reveal_strlit("backend");
    reveal_strlit("pending");
    assert("ok"@.len() == 2);
    assert("action"@.len() == 6);
    assert("configPath"@.len() == 10);
    assert("stateFolderPath"@.len() == 15);
    assert("configured"@.len() == 10);
    assert("telegramConfigured"@.len() == 18);
    assert("discordConfigured"@.len() == 17);
    assert("codexConfigured"@.len() == 15);
    assert("away"@.len() == 4);
    assert("backend"@.len() == 7);
    assert("pending"@.len() == 7);
    assert("configPath"@[6] != "configured"@[6]);
    assert("stateFolderPath"@[0] != "codexConfigured"@[0]);
    assert("backend"@[0] != "pending"@[0]);
}

/// A backend whose status cannot be told is reported as not healthy: where it is needed, as
/// one that can be repaired, and where it is not, as idle; with the failure and the address.
pub proof fn lost_backends_are_reported(
    config: DaemonConfigV,
    codex: CodexConfigV,
    e: BridgeErrorV,
    required: bool,
)
    requires
        config.codex == Some(codex),
    ensures
        ({
            let r = backend_value(Some(config), required, Err(e));
            &&& text_member(r, "websocketUrl"@) == Some(codex.websocket_url)
            &&& member(r, "pid"@) == Some(JsonV::Null)
            &&& member(r, "healthy"@) == Some(JsonV::Bool(false))
            &&& member(r, "required"@) == Some(JsonV::Bool(required))
            &&& member(r, "recoverable"@) == Some(JsonV::Bool(required))
            &&& required ==> text_member(r, "state"@) == Some("unhealthy"@)
            &&& !required ==> text_member(r, "state"@) == Some("idle"@)
            &&& text_member(r, "lastError"@) == Some(full_text(e))
        }),
        backend_value(None, required, Err(e)) == JsonV::Null,
{
    broadcast use {empty_objects_have_no_members, pushed_members_are_found};

    reveal_strlit("websocketUrl");
    reveal_strlit("pid");
    reveal_strlit("processStartKey");
    reveal_strlit("healthy");
    reveal_strlit("required");
    reveal_strlit("state");
    reveal_strlit("recoverable");
    reveal_strlit("lastError");
    assert("websocketUrl"@.len() == 12);
    assert("pid"@.len() == 3);
    assert("processStartKey"@.len() == 15);
    assert("healthy"@.len() == 7);
    assert("required"@.len() == 8);
    assert("state"@.len() == 5);
    assert("recoverable"@.len() == 11);
    assert("lastError"@.len() == 9);
}

/// The doctor shows what is configured and how the backend is.
pub proof fn the_doctor_tells_the_bridge(
    path: Seq<char>,
    there: bool,
    config: DaemonConfigV,
    codex: CodexConfigV,
    status: LiveBackendStatusV,
    e: BridgeErrorV,
)
    requires
        config.codex == Some(codex),
    ensures
        ({
            let m = JsonV::Object(bridge_members(path, there, Some(config), Ok(status)));
            &&& text_member(m, "config_path"@) == Some(path)
            &&& member(m, "config_exists"@) == Some(JsonV::Bool(there))
            &&& member(m, "telegram_configured"@) == Some(JsonV::Bool(config.telegram is Some))
            &&& member(m, "discord_configured"@) == Some(JsonV::Bool(config.discord is Some))
            &&& member(m, "codex_configured"@) == Some(JsonV::Bool(true))
            &&& text_member(m, "codex_live_mode"@) == Some("shared"@)
            &&& text_member(m, "codex_websocket_url"@) == Some(codex.websocket_url)
            &&& member(m, "live_backend_healthy"@) == Some(JsonV::Bool(status.healthy))
            &&& text_member(m, "live_backend_error"@) == status.last_error
        }),
        ({
            let m = JsonV::Object(bridge_members(path, there, Some(config), Err(e)));
            &&& member(m, "live_backend_healthy"@) == Some(JsonV::Bool(false))
            &&& member(m, "live_backend_pid"@) == Some(JsonV::Null)
            &&& text_member(m, "live_backend_error"@) == Some(full_text(e))
        }),
        ({
            let m = JsonV::Object(bridge_members(path, there, None, Err(e)));
            &&& member(m, "telegram_configured"@) == Some(JsonV::Bool(false))
            &&& member(m, "codex_configured"@) == Some(JsonV::Bool(false))
            &&& member(m, "codex_websocket_url"@) == Some(JsonV::Null)
            &&& text_member(m, "live_backend_error"@) == Some(
                "shared Codex live backend is not configured"@,
            )
        }),
{
    broadcast use {empty_objects_have_no_members, pushed_members_are_found};

    reveal_strlit("config_path");
    reveal_strlit("config_exists");
    reveal_strlit("telegram_configured");
    reveal_strlit("discord_configured");
    reveal_strlit("codex_configured");
    reveal_strlit("codex_live_mode");
    reveal_strlit("codex_websocket_url");
    reveal_strlit("live_backend_healthy");
    reveal_strlit("live_backend_pid");
    reveal_strlit("live_backend_error");
    assert("config_path"@.len() == 11);
    assert("config_exists"@.len() == 13);
    assert("telegram_configured"@.len() == 19);
    assert("discord_configured"@.len() == 18);
    assert("codex_configured"@.len() == 16);
    assert("codex_live_mode"@.len() == 15);
    assert("codex_websocket_url"@.len() == 19);
    assert("live_backend_healthy"@.len() == 20);
    assert("live_backend_pid"@.len() == 16);
    assert("live_backend_error"@.len() == 18);
    assert("telegram_configured"@[0] != "codex_websocket_url"@[0]);
    assert("discord_configured"@[0] != "live_backend_error"@[0]);
    assert("codex_configured"@[0] != "live_backend_pid"@[0]);
}

/// The doctor shows the daemon as its status tells it, and the program that was found.
pub proof fn the_doctor_tells_the_daemon(
    path: Seq<char>,
    there: bool,
    status: JsonV,
    service: JsonV,
    source: Seq<char>,
    version: Seq<char>,
    bridge: JsonV,
)
    requires
        member(status, "serviceStatus"@) == Some(service),
    ensures
        ({
            let m = JsonV::Object(service_members(Seq::empty(), path, there, status));
            &&& text_member(m, "daemon_service_path"@) == Some(path)
            &&& member(m, "daemon_service_exists"@) == Some(JsonV::Bool(there))
            &&& member(m, "daemon_service_loaded"@) == Some(
                JsonV::Bool(member(service, "loaded"@) == Some(JsonV::Bool(true))),
            )
            &&& member(m, "daemon_running"@) == Some(
                JsonV::Bool(member(service, "running"@) == Some(JsonV::Bool(true))),
            )
            &&& text_member(m, "daemon_state"@) == text_member(service, "state"@)
            &&& member(m, "daemon_healthy"@) == Some(
                JsonV::Bool(member(status, "healthy"@) == Some(JsonV::Bool(true))),
            )
            &&& text_member(m, "next_step"@) == text_member(status, "nextStep"@)
        }),
        ({
            let r = doctor_json(path, source, version, bridge);
            let codex = member(r, "codex"@);
            &&& member(r, "ok"@) == Some(JsonV::Bool(true))
            &&& member(r, "bridge"@) == Some(bridge)
            &&& text_value(opt_member(codex, "resolved_path"@)) == Some(path)
            &&& text_value(opt_member(codex, "source"@)) == Some(source)
            &&& text_value(opt_member(codex, "version_stdout"@)) == Some(trimmed(version))
        }),
{
    broadcast use {empty_objects_have_no_members, pushed_members_are_found};

    reveal_strlit("daemon_service_path");
    reveal_strlit("daemon_service_exists");
    reveal_strlit("daemon_service_loaded");
    reveal_strlit("daemon_running");
    reveal_strlit("daemon_state");
    reveal_strlit("daemon_healthy");
    reveal_strlit("next_step");
    reveal_strlit("ok");
    reveal_strlit("codex");
    reveal_strlit("bridge");
    reveal_strlit("resolved_path");
    reveal_strlit("source");
    reveal_strlit("version_stdout");
    assert("daemon_service_path"@.len() == 19);
    assert("daemon_service_exists"@.len() == 21);
    assert("daemon_service_loaded"@.len() == 21);
    assert("daemon_running"@.len() == 14);
    assert("daemon_state"@.len() == 12);
    assert("daemon_healthy"@.len() == 14);
    assert("next_step"@.len() == 9);
    assert("ok"@.len() == 2);
    assert("codex"@.len() == 5);
    assert("bridge"@.len() == 6);
    assert("resolved_path"@.len() == 13);
    assert("source"@.len() == 6);
    assert("version_stdout"@.len() == 14);
    assert("daemon_service_exists"@[15] != "daemon_service_loaded"@[15]);
    assert("daemon_running"@[7] != "daemon_healthy"@[7]);
    assert("daemon_running"@[0] != "version_stdout"@[0]);
    assert("daemon_healthy"@[0] != "version_stdout"@[0]);
    assert("bridge"@[0] != "source"@[0]);
}

/// The report of the whole setup holds what each part reported.
pub proof fn the_whole_setup_is_reported(
    dry_run: bool,
    path: Seq<char>,
    source: Seq<char>,
    telegram: JsonV,
    install: JsonV,
    start: JsonV,
    hermes: JsonV,
)
    ensures
        ({
            let r = whole_setup_report(
                dry_run,
                path,
                source,
                telegram,
                Some(install),
                Some(start),
                Some(hermes),
            );
            &&& member(r, "ok"@) == Some(JsonV::Bool(true))
            &&& text_member(r, "action"@) == Some("setup"@)
            &&& member(r, "dryRun"@) == Some(JsonV::Bool(dry_run))
            &&& text_value(opt_member(member(r, "codex"@), "resolvedPath"@)) == Some(path)
            &&& text_value(opt_member(member(r, "codex"@), "source"@)) == Some(source)
            &&& member(r, "telegram"@) == Some(telegram)
            &&& opt_member(member(r, "daemon"@), "install"@) == Some(install)
            &&& opt_member(member(r, "daemon"@), "start"@) == Some(start)
            &&& member(r, "hermes"@) == Some(hermes)
        }),
{
    broadcast use {empty_objects_have_no_members, pushed_members_are_found};

    reveal_strlit("ok");
    reveal_strlit("action");
    reveal_strlit("dryRun");
    reveal_strlit("codex");
    reveal_strlit("telegram");
    reveal_strlit("daemon");
    reveal_strlit("hermes");
    reveal_strlit("nextStep");
    reveal_strlit("resolvedPath");
    reveal_strlit("source");
    reveal_strlit("install");
    reveal_strlit("start");
    assert("ok"@.len() == 2);
    assert("action"@.len() == 6);
    assert("dryRun"@.len() == 6);
    assert("codex"@.len() == 5);
    assert("telegram"@.len() == 8);
    assert("daemon"@.len() == 6);
    assert("hermes"@.len() == 6);
    assert("nextStep"@.len() == 8);
    assert("resolvedPath"@.len() == 12);
    assert("source"@.len() == 6);
    assert("install"@.len() == 7);
    assert("start"@.len() == 5);
    assert("action"@[0] != "dryRun"@[0]);
    assert("action"@[0] != "daemon"@[0]);
    assert("action"@[0] != "hermes"@[0]);
    assert("action"@[0] != "source"@[0]);
    assert("dryRun"@[1] != "daemon"@[1]);
    assert("dryRun"@[0] != "hermes"@[0]);
    assert("dryRun"@[0] != "source"@[0]);
    assert("codex"@[0] != "start"@[0]);
    assert("telegram"@[0] != "nextStep"@[0]);
    assert("daemon"@[0] != "hermes"@[0]);
    assert("daemon"@[0] != "source"@[0]);
    assert("hermes"@[0] != "source"@[0]);
}

/// Hermes is told the server by its name and the command that runs it; a blank part is refused
/// by name.
pub proof fn hermes_is_told_the_server(
    server: Seq<char>,
    hermes: Seq<char>,
    bridge: Seq<char>,
    dry_run: bool,
    mcp: JsonV,
)
    ensures
        trimmed(server).len() == 0 ==> hermes_checked(server, hermes, bridge) == Err::<
            HermesInstallV,
            BridgeErrorV,
        >(failure("server name cannot be empty"@)),
        trimmed(server).len() > 0 && trimmed(hermes).len() == 0 ==> hermes_checked(
            server,
            hermes,
            bridge,
        ) == Err::<HermesInstallV, BridgeErrorV>(failure("hermes command cannot be empty"@)),
        trimmed(server).len() > 0 && trimmed(hermes).len() > 0 && trimmed(bridge).len() == 0
            ==> hermes_checked(server, hermes, bridge) == Err::<HermesInstallV, BridgeErrorV>(
            failure("bridge command cannot be empty"@),
        ),
        trimmed(server).len() > 0 && trimmed(hermes).len() > 0 && trimmed(bridge).len() > 0 ==> ({
            let h = hermes_checked(server, hermes, bridge);
            let r = hermes_report(h->Ok_0, dry_run, mcp);
            &&& h is Ok
            &&& hermes_args(h->Ok_0) == seq![
                "mcp"@,
                "add"@,
                trimmed(server),
                "--command"@,
                trimmed(bridge),
                "--args"@,
                "mcp"@,
            ]
            &&& text_member(r, "serverName"@) == Some(trimmed(server))
            &&& text_member(r, "hermesCommand"@) == Some(trimmed(hermes))
            &&& text_member(r, "bridgeCommand"@) == Some(trimmed(bridge))
            &&& member(r, "dryRun"@) == Some(JsonV::Bool(dry_run))
            &&& member(r, "args"@) == Some(text_array(hermes_args(h->Ok_0)))
            &&& member(r, "mcp"@) == Some(mcp)
        }),
{
    broadcast use {empty_objects_have_no_members, pushed_members_are_found};

    reveal_strlit("ok");
    reveal_strlit("action");
    reveal_strlit("dryRun");
    reveal_strlit("serverName");
    reveal_strlit("hermesCommand");
    reveal_strlit("bridgeCommand");
    reveal_strlit("args");
    reveal_strlit("mcp");
    reveal_strlit("nextStep");
    assert("ok"@.len() == 2);
    assert("action"@.len() == 6);
    assert("dryRun"@.len() == 6);
    assert("serverName"@.len() == 10);
    assert("hermesCommand"@.len() == 13);
    assert("bridgeCommand"@.len() == 13);
    assert("args"@.len() == 4);
    assert("mcp"@.len() == 3);
    assert("nextStep"@.len() == 8);
    assert("action"@[0] != "dryRun"@[0]);
    assert("hermesCommand"@[0] != "bridgeCommand"@[0]);
    let h = hermes_checked(server, hermes, bridge);
    if h is Ok {
        assert(hermes_args(h->Ok_0) =~= seq![
            "mcp"@,
            "add"@,
            trimmed(server),
            "--command"@,
            trimmed(bridge),
            "--args"@,
            "mcp"@,
        ]);
    }
}

// ---------------------------------------------------------------------------
// Tasks
// ---------------------------------------------------------------------------

/// At least twenty-five threads are read before a list is made, and as many as the list asks
/// for.
pub proof fn enough_threads_are_read(limit: u64)
    ensures
        sync_limit_for(limit) >= 25,
        sync_limit_for(limit) >= limit,
        sync_limit_for(limit) == 25 || sync_limit_for(limit) == limit,
{
}

/// A decision is read without regard to its letter case, and answered by its word.
pub proof fn decisions_are_read(decision: Option<Seq<char>>, place: Option<Seq<char>>)
    ensures
        ({
            let meant = unicode_lowercase(meant_decision(decision, place));
            &&& meant == "approve"@ ==> decision_text(decision, place) == Ok::<
                (Seq<char>, Seq<char>),
                BridgeErrorV,
            >(("approve"@, "YES"@))
            &&& meant == "deny"@ ==> decision_text(decision, place) == Ok::<
                (Seq<char>, Seq<char>),
                BridgeErrorV,
            >(("deny"@, "NO"@))
            &&& meant != "approve"@ && meant != "deny"@ ==> decision_text(decision, place) is Err
        }),
{
    reveal_strlit("approve");
    reveal_strlit("deny");
    assert("approve"@.len() == 7);
    assert("deny"@.len() == 4);
}

// ---------------------------------------------------------------------------
// Paths
// ---------------------------------------------------------------------------

/// A name is joined to a directory with one slash between them.
pub proof fn names_are_joined_with_a_slash(dir: Seq<char>, name: Seq<char>)
    requires
        dir.len() > 0,
    ensures
        dir.last() != '/' ==> joined_path(dir, name) == dir + "/"@ + name,
        dir.last() == '/' ==> joined_path(dir, name) == dir + name,
{
}

/// The parent of a path is what stands before its last name, and the roots go from the path up
/// through its parents.
pub proof fn parents_hold_their_paths(dir: Seq<char>, name: Seq<char>)
    requires
        dir.len() > 1,
        dir.last() != '/',
        dir.last() != '.',
        name.len() > 0,
        free_of(name, '/'),
        free_of(name, '.'),
    ensures
        parent(dir + "/"@ + name) == Some(dir),
        roots(dir + "/"@ + name) == seq![dir + "/"@ + name] + roots(dir),
        parent("/"@ + name) == Some("/"@),
{
    reveal_strlit("/");
    let p = dir + "/"@ + name;
    assert(p[p.len() - 1] == name[name.len() - 1]);
    assert(path_end(p, p.len()) == p.len());
    assert forall|i: int| dir.len() < i < p.len() implies (#[trigger] p[i]) != '/' by {
        assert(p[i] == name[i - dir.len() - 1]);
    }
    assert(p[dir.len() as int] == '/');
    lemma_after_slash(p, dir.len() + 1, p.len());
    let m = (dir.len() + 1) as nat;
    assert(p[m - 1] == '/');
    assert(path_end(p, m) == path_end(p, dir.len()));
    assert(p[dir.len() - 1] == dir.last());
    assert(path_end(p, dir.len()) == dir.len());
    assert(p.take(dir.len() as int) =~= dir);
    let r = "/"@ + name;
    assert(r[r.len() - 1] == name[name.len() - 1]);
    assert(path_end(r, r.len()) == r.len());
    assert forall|i: int| 0 < i < r.len() implies (#[trigger] r[i]) != '/' by {
        assert(r[i] == name[i - 1]);
    }
    assert(r[0] == '/');
    lemma_after_slash(r, 1, r.len());
    assert(path_end(r, 1) == 1);
    assert(r.take(1) =~= "/"@);
}

proof fn lemma_after_slash(p: Seq<char>, at: nat, n: nat)
    requires
        0 < at <= n <= p.len(),
        p[at - 1] == '/',
        forall|i: int| at <= i < n ==> (#[trigger] p[i]) != '/',
    ensures
        after_slash(p, n) == at,
    decreases n,
{
    if n > at {
        assert(p[n - 1] != '/');
        lemma_after_slash(p, at, (n - 1) as nat);
    }
}

/// The state is kept where it is wanted, and else in the home directory; without either it
/// cannot be kept.
pub proof fn the_state_is_kept_where_it_is_wanted(
    wanted: Option<Seq<char>>,
    home: Option<Seq<char>>,
)
    ensures
        wanted is Some ==> state_dir(wanted, home) == Ok::<Seq<char>, BridgeErrorV>(wanted->0),
        wanted is None && home is Some ==> state_dir(wanted, home) == Ok::<
            Seq<char>,
            BridgeErrorV,
        >(joined_path(home->0, ".codex-telegram-bridge"@)),
        wanted is None && home is None ==> state_dir(wanted, home) is Err,
{
}

/// A reset takes the database with its two side files, the marker and the record of the
/// backend.
pub proof fn resets_take_the_runtime_files(dir: Seq<char>)
    ensures
        runtime_files(dir).contains(joined_path(dir, "state.db"@)),
        runtime_files(dir).contains(joined_path(dir, "state.db-wal"@)),
        runtime_files(dir).contains(joined_path(dir, "state.db-shm"@)),
        runtime_files(dir).contains(joined_path(dir, "remote-mode.json"@)),
        runtime_files(dir).contains(joined_path(dir, "live-backend.json"@)),
        runtime_files(dir).len() == 5,
{
    let f = runtime_files(dir);
    assert(f[0] == joined_path(dir, "state.db"@));
    assert(f[1] == joined_path(dir, "state.db-wal"@));
    assert(f[2] == joined_path(dir, "state.db-shm"@));
    assert(f[3] == joined_path(dir, "remote-mode.json"@));
    assert(f[4] == joined_path(dir, "live-backend.json"@));
}

/// The program that is asked for by name is tried first; where none is, that of the working
/// directory is.
pub proof fn candidates_are_tried_in_order(
    wanted: Seq<char>,
    cwd: Seq<char>,
    home: Option<Seq<char>>,
    on_path: Option<Seq<char>>,
)
    ensures
        candidates_for(Some(wanted), cwd, home, on_path).len() > 0,
        candidates_for(Some(wanted), cwd, home, on_path)[0].path == wanted,
        candidates_for(Some(wanted), cwd, home, on_path)[0].source == "override"@,
        candidates_for(None, cwd, home, on_path).len() > 0,
        candidates_for(None, cwd, home, on_path)[0].path == joined_path(
            cwd,
            "node_modules/.bin/codex"@,
        ),
        candidates_for(None, cwd, home, on_path)[0].source == "workspace-local"@,
{
    let dirs = roots(cwd);
    assert(dirs.len() > 0 && dirs[0] == cwd);
    let first = with_optional(Seq::empty(), Some(wanted), "override"@);
    let none: Seq<ResolvedBinaryV> = Seq::empty();
    assert(first.len() == 1 && first[0].path == wanted);
    lemma_workspaces_keep(first, dirs, dirs.len());
    lemma_workspaces_begin(dirs, dirs.len());
}

proof fn lemma_workspaces_keep(candidates: Seq<ResolvedBinaryV>, dirs: Seq<Seq<char>>, n: nat)
    requires
        candidates.len() > 0,
    ensures
        with_workspaces(candidates, dirs, n).len() > 0,
        with_workspaces(candidates, dirs, n)[0] == candidates[0],
    decreases n,
{
    if n > 0 && n <= dirs.len() {
        lemma_workspaces_keep(candidates, dirs, (n - 1) as nat);
    }
}

proof fn lemma_workspaces_begin(dirs: Seq<Seq<char>>, n: nat)
    requires
        0 < n <= dirs.len(),
    ensures
        with_workspaces(Seq::empty(), dirs, n).len() > 0,
        with_workspaces(Seq::empty(), dirs, n)[0].path == local_binary(dirs[0]),
        with_workspaces(Seq::empty(), dirs, n)[0].source == "workspace-local"@,
    decreases n,
{
    if n > 1 {
        lemma_workspaces_begin(dirs, (n - 1) as nat);
    } else {
        assert(with_workspaces(Seq::empty(), dirs, 0).len() == 0);
    }
}

/// Every candidate that is named is among those that are tried.
pub proof fn every_candidate_is_tried(
    cwd: Seq<char>,
    home: Seq<char>,
    on_path: Seq<char>,
    wanted: Option<Seq<char>>,
    i: int,
)
    ensures
        has_row(
            candidates_for(wanted, cwd, Some(home), Some(on_path)),
            at_path(on_path),
        ),
        has_row(
            candidates_for(wanted, cwd, Some(home), Some(on_path)),
            at_path(joined_path(home, "Applications/Codex.app/Contents/Resources/codex"@)),
        ),
        has_row(
            candidates_for(wanted, cwd, Some(home), Some(on_path)),
            at_path("/Applications/Codex.app/Contents/Resources/codex"@),
        ),
        0 <= i < roots(cwd).len() ==> has_row(
            candidates_for(wanted, cwd, Some(home), Some(on_path)),
            at_path(joined_path(roots(cwd)[i], "node_modules/.bin/codex"@)),
        ),
{
    let dirs = roots(cwd);
    let known = "platform-known"@;
    let first = with_optional(Seq::empty(), wanted, "override"@);
    let local = with_workspaces(first, dirs, dirs.len());
    let own_path = joined_path(home, "Applications/Codex.app/Contents/Resources/codex"@);
    let own = with_candidate(local, own_path, known);
    let shared_path = "/Applications/Codex.app/Contents/Resources/codex"@;
    let shared = with_candidate(own, shared_path, known);
    lemma_candidate(local, own_path, known, own_path);
    lemma_candidate(own, shared_path, known, shared_path);
    lemma_candidate(own, shared_path, known, own_path);
    lemma_candidate(shared, on_path, "path"@, on_path);
    lemma_candidate(shared, on_path, "path"@, shared_path);
    lemma_candidate(shared, on_path, "path"@, own_path);
    if 0 <= i < dirs.len() {
        let p = local_binary(dirs[i]);
        lemma_workspaces_hold(first, dirs, dirs.len(), i);
        lemma_candidate(local, own_path, known, p);
        lemma_candidate(own, shared_path, known, p);
        lemma_candidate(shared, on_path, "path"@, p);
    }
}

proof fn lemma_candidate(
    candidates: Seq<ResolvedBinaryV>,
    path: Seq<char>,
    source: Seq<char>,
    other: Seq<char>,
)
    ensures
        has_row(with_candidate(candidates, path, source), at_path(path)),
        has_row(candidates, at_path(other)) ==> has_row(
            with_candidate(candidates, path, source),
            at_path(other),
        ),
{
    let row = ResolvedBinaryV { path, source };
    lemma_first_push(candidates, row, at_path(path));
    lemma_first_push(candidates, row, at_path(other));
}

proof fn lemma_workspaces_hold(
    candidates: Seq<ResolvedBinaryV>,
    dirs: Seq<Seq<char>>,
    n: nat,
    i: int,
)
    requires
        0 <= i < n <= dirs.len(),
    ensures
        has_row(with_workspaces(candidates, dirs, n), at_path(local_binary(dirs[i]))),
    decreases n,
{
    let before = with_workspaces(candidates, dirs, (n - 1) as nat);
    lemma_candidate(
        before,
        local_binary(dirs[n - 1]),
        "workspace-local"@,
        local_binary(dirs[i]),
    );
    if i < n - 1 {
        lemma_workspaces_hold(candidates, dirs, (n - 1) as nat, i);
    }
}

} // verus!
