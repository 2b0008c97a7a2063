//! What holds of the conversation on Discord: whom the bridge listens to, what a message asks
//! for, and what comes of it.
use vstd::prelude::*;
use vstd::string::*;

use crate::away::{going_away_is_seen, pending_hit, present_state, without_pending};
use crate::config::{DaemonConfigV, discord_channels, DiscordConfigV};
use crate::discord::{
    batch_report, BatchV, by_id, channel_begun, channel_failure, channels_report, command_in,
    cursor_key, cursor_moved, DISCORD_TYPING_REFRESH_MS, DISCORD_TYPING_TTL_MS,
    DiscordInboundCommandV, for_channel, greatest_id, heard, initial_report, message_id,
    message_text, MessageOutcome, MessageRouteV, outcome_of, replied_id, route_of, space_from,
    threads_limit, typing_changed, typing_decision, typing_key, typing_report, typing_value,
    TypingChangeV, TypingStep,
};
use crate::discord_commands::{
    command_plan, DiscordPlanV, going_away, help_for_discord, message_call, messages_path,
    part_sent, setup_channels, setup_outcome, status_for_discord, switch_report, switched,
    typing_call,
};
use crate::error::BridgeErrorV;
use crate::events::{listed, repeats_are_dropped};
use crate::json::{
    empty_objects_have_no_members, JsonV, member, pushed_members_are_found, text_member,
};
use crate::live::LiveBackendStatusV;
use crate::order::{payloads, sorted_desc, sorting_is_stable};
use crate::requests::kept_parts;
use crate::routes::{
    command_route, message_thread, replies_reach_their_thread, TelegramCommandRouteKind,
};
use crate::settings::{
    number_after_set, setting, setting_after_delete, setting_after_set, setting_number,
    with_setting, without_setting,
};
use crate::state::{BridgeStateV, MessageRouteRowV, outbound_row_key, OutboundRowV};
use crate::table::{drop_keeps_keys, lemma_without_misses, without};
use crate::text::{
    ascii_lowered, decimal, decimal_parses_back, is_digit, is_space, lemma_decimal_digits,
    non_blank, trimmed,
};
use crate::writing::json_text;
use crate::ws::UrlPartsV;

verus! {

// ---------------------------------------------------------------------------
// Commands
// ---------------------------------------------------------------------------

/// The word that a command is called by.
pub open spec fn called_by(command: DiscordInboundCommandV) -> Seq<char> {
    match command {
        DiscordInboundCommandV::Start => "/start"@,
        DiscordInboundCommandV::Help => "/help"@,
        DiscordInboundCommandV::Away => "/away"@,
        DiscordInboundCommandV::Back => "/back"@,
        DiscordInboundCommandV::Repair => "/repair"@,
        DiscordInboundCommandV::Status => "/status"@,
        DiscordInboundCommandV::Threads(_) => "/threads"@,
        DiscordInboundCommandV::NewThread(_) => "/new"@,
        DiscordInboundCommandV::Project(_) => "/project"@,
        DiscordInboundCommandV::Unknown(word) => word,
    }
}

/// The word is one that a command is called by.
pub open spec fn is_command_word(word: Seq<char>) -> bool {
    ||| word == "/start"@
    ||| word == "/help"@
    ||| word == "/away"@
    ||| word == "/back"@
    ||| word == "/repair"@
    ||| word == "/status"@
    ||| word == "/threads"@
    ||| word == "/new"@
    ||| word == "/project"@
}

/// A letter of the alphabet in its small form.
pub open spec fn small(c: char) -> char {
    if 'A' <= c && c <= 'Z' {
        (c as u32 + 32) as char
    } else {
        c
    }
}

/// The text begins with a word, in whatever letters, which ends before `end`.
pub open spec fn begins_with_word(t: Seq<char>, end: nat, word: Seq<char>) -> bool {
    &&& 0 < end <= t.len()
    &&& word.len() == end
    &&& t[0] == '/'
    &&& forall|i: int| 0 <= i < end ==> !is_space(#[trigger] t[i])
    &&& forall|i: int| 0 <= i < end ==> (#[trigger] word[i]) == small(t[i])
    &&& end < t.len() ==> is_space(t[end as int])
}

/// A text that begins with a slash is the command that its first word calls, with what
/// follows the word; a word that calls none is an unknown command.
pub proof fn words_call_their_command(text: Seq<char>, end: nat, word: Seq<char>)
    requires
        begins_with_word(trimmed(text), end, word),
    ensures
        command_in(text) is Some,
        called_by(command_in(text)->0) == word,
        command_in(text)->0 is Unknown <==> !is_command_word(word),
        ({
            let t = trimmed(text);
            let rest = if end < t.len() {
                non_blank(Some(t.skip(end as int + 1)))
            } else {
                None
            };
            &&& word == "/threads"@ ==> command_in(text) == Some(
                DiscordInboundCommandV::Threads(rest),
            )
            &&& word == "/new"@ ==> command_in(text) == Some(
                DiscordInboundCommandV::NewThread(rest),
            )
            &&& word == "/project"@ ==> command_in(text) == Some(
                DiscordInboundCommandV::Project(rest),
            )
        }),
{
    reveal_strlit("/start");
    reveal_strlit("/help");
    reveal_strlit("/away");
    reveal_strlit("/back");
    reveal_strlit("/repair");
    reveal_strlit("/status");
    reveal_strlit("/threads");
    reveal_strlit("/new");
    reveal_strlit("/project");
    assert("/start"@.len() == 6);
    assert("/help"@.len() == 5);
    assert("/away"@.len() == 5);
    assert("/back"@.len() == 5);
    assert("/repair"@.len() == 7);
    assert("/status"@.len() == 7);
    assert("/threads"@.len() == 8);
    assert("/new"@.len() == 4);
    assert("/project"@.len() == 8);
    assert("/help"@[1] != "/away"@[1]);
    assert("/help"@[1] != "/back"@[1]);
    assert("/away"@[1] != "/back"@[1]);
    assert("/repair"@[1] != "/status"@[1]);
    assert("/threads"@[1] != "/project"@[1]);
    let t = trimmed(text);
    lemma_space_from(t, 0, end);
    assert(ascii_lowered(t.subrange(0, end as int)) =~= word);
    if end < t.len() {
        assert(t.subrange(end as int + 1, t.len() as int) =~= t.skip(end as int + 1));
    }
}

proof fn lemma_space_from(t: Seq<char>, from: nat, end: nat)
    requires
        from <= end <= t.len(),
        forall|i: int| from <= i < end ==> !is_space(#[trigger] t[i]),
        end < t.len() ==> is_space(t[end as int]),
    ensures
        space_from(t, from) == end,
    decreases end - from,
{
    if from < end {
        lemma_space_from(t, from + 1, end);
    }
}

/// A text that does not begin with a slash is no command.
pub proof fn other_texts_are_no_commands(text: Seq<char>)
    ensures
        command_in(text) is None <==> trimmed(text).len() == 0 || trimmed(text)[0] != '/',
{
}

/// A message that the bridge listens to and that replies to nothing is the command that its
/// text calls.
pub proof fn messages_are_their_command(
    st: BridgeStateV,
    message: JsonV,
    discord: DiscordConfigV,
    end: nat,
    word: Seq<char>,
)
    requires
        heard(message, discord),
        replied_id(message) is None,
        message_text(message) is Some,
        begins_with_word(trimmed(message_text(message)->0), end, word),
    ensures
        route_of(st, message, discord) matches MessageRouteV::Command(c) && called_by(c) == word
            && (c is Unknown <==> !is_command_word(word)),
{
    words_call_their_command(message_text(message)->0, end, word);
}

/// The user who writes `/back` is back: away mode is off, and nothing is left to be sent.
/// Writing `/away` starts the backend, and turns away mode on where it runs.
pub proof fn users_go_and_come_by_command(
    st: BridgeStateV,
    message: JsonV,
    discord: DiscordConfigV,
    end: nat,
    help: Seq<char>,
    status: Seq<char>,
    backend: Result<LiveBackendStatusV, BridgeErrorV>,
    now: u64,
)
    requires
        st.well_formed(),
        heard(message, discord),
        replied_id(message) is None,
        message_text(message) is Some,
    ensures
        begins_with_word(trimmed(message_text(message)->0), end, "/back"@) ==> (route_of(
            st,
            message,
            discord,
        ) matches MessageRouteV::Command(c) && ({
            let after = command_plan(st, c, help, status, now).0;
            &&& setting(after, "away"@) == Some("false"@)
            &&& setting(after, "away_started_at"@) is None
            &&& setting(after, "away_session_id"@) is None
            &&& forall|i: int|
                0 <= i < after.outbound.len() ==> (#[trigger] after.outbound[i]).status
                    == "delivered"@
        })),
        begins_with_word(trimmed(message_text(message)->0), end, "/away"@) ==> (route_of(
            st,
            message,
            discord,
        ) matches MessageRouteV::Command(c) && command_plan(st, c, help, status, now) == (
            st,
            Ok::<DiscordPlanV, BridgeErrorV>(DiscordPlanV::StartBackend),
        )),
        backend is Ok ==> setting(going_away(st, backend, now).0, "away"@) == Some("true"@)
            && setting_number(going_away(st, backend, now).0, "away_started_at"@) == Some(now),
        backend is Err ==> going_away(st, backend, now).0 == st && going_away(
            st,
            backend,
            now,
        ).1 is Err,
{
    reveal_strlit("/back");
    reveal_strlit("/away");
    reveal_strlit("away");
    reveal_strlit("away_mode");
    reveal_strlit("away_started_at");
    reveal_strlit("away_session_id");
    assert("/back"@.len() == 5);
    assert("/away"@.len() == 5);
    assert("away"@.len() == 4);
    assert("away_mode"@.len() == 9);
    assert("away_started_at"@.len() == 15);
    assert("away_session_id"@.len() == 15);
    assert("/back"@[1] != "/away"@[1]);
    assert("away_started_at"@[6] != "away_session_id"@[6]);
    let text = message_text(message)->0;
    if begins_with_word(trimmed(text), end, "/back"@) {
        words_call_their_command(text, end, "/back"@);
        let c = command_in(text)->0;
        assert(c is Back) by {
            reveal_strlit("/start");
            reveal_strlit("/help");
            reveal_strlit("/away");
            reveal_strlit("/back");
            reveal_strlit("/repair");
            reveal_strlit("/status");
            reveal_strlit("/threads");
            reveal_strlit("/new");
            reveal_strlit("/project");
            assert("/start"@.len() == 6);
            assert("/help"@.len() == 5);
            assert("/away"@.len() == 5);
            assert("/back"@.len() == 5);
            assert("/repair"@.len() == 7);
            assert("/status"@.len() == 7);
            assert("/threads"@.len() == 8);
            assert("/new"@.len() == 4);
            assert("/project"@.len() == 8);
            assert("/help"@[1] != "/away"@[1]);
            assert("/help"@[1] != "/back"@[1]);
            assert("/away"@[1] != "/back"@[1]);
            assert("/repair"@[1] != "/status"@[1]);
            assert("/threads"@[1] != "/project"@[1]);
        }
        let after = present_state(st);
        lemma_present_settings(st);
        assert forall|i: int| 0 <= i < after.outbound.len() implies (
        #[trigger] after.outbound[i]).status == "delivered"@ by {
            lemma_without_misses(st.outbound, pending_hit());
            assert(after.outbound == without(st.outbound, pending_hit()));
            assert(!pending_hit()(after.outbound[i]));
        }
    }
    if begins_with_word(trimmed(text), end, "/away"@) {
        words_call_their_command(text, end, "/away"@);
        assert(command_in(text)->0 is Away) by {
            reveal_strlit("/start");
            reveal_strlit("/help");
            reveal_strlit("/away");
            reveal_strlit("/back");
            reveal_strlit("/repair");
            reveal_strlit("/status");
            reveal_strlit("/threads");
            reveal_strlit("/new");
            reveal_strlit("/project");
            assert("/start"@.len() == 6);
            assert("/help"@.len() == 5);
            assert("/away"@.len() == 5);
            assert("/back"@.len() == 5);
            assert("/repair"@.len() == 7);
            assert("/status"@.len() == 7);
            assert("/threads"@.len() == 8);
            assert("/new"@.len() == 4);
            assert("/project"@.len() == 8);
            assert("/help"@[1] != "/away"@[1]);
            assert("/help"@[1] != "/back"@[1]);
            assert("/away"@[1] != "/back"@[1]);
            assert("/repair"@[1] != "/status"@[1]);
            assert("/threads"@[1] != "/project"@[1]);
        }
    }
    going_away_is_seen(st, now);
}

proof fn lemma_present_settings(st: BridgeStateV)
    requires
        st.well_formed(),
    ensures
        setting(present_state(st), "away"@) == Some("false"@),
        setting(present_state(st), "away_started_at"@) is None,
        setting(present_state(st), "away_session_id"@) is None,
{
    reveal_strlit("away");
    reveal_strlit("away_mode");
    reveal_strlit("away_started_at");
    reveal_strlit("away_session_id");
    assert("away"@.len() == 4);
    assert("away_mode"@.len() == 9);
    assert("away_started_at"@.len() == 15);
    assert("away_session_id"@.len() == 15);
    assert("away_started_at"@[6] != "away_session_id"@[6]);
    let on = with_setting(st, "away"@, "false"@);
    setting_after_set(st, "away"@, "false"@, "away_mode"@);
    let off = without_setting(on, "away_mode"@);
    setting_after_delete(on, "away_mode"@, "away"@);
    let cleared = without_pending(off);
    drop_keeps_keys(off.outbound, outbound_row_key(), pending_hit());
    let a = without_setting(cleared, "away_started_at"@);
    setting_after_delete(cleared, "away_started_at"@, "away"@);
    setting_after_delete(a, "away_session_id"@, "away"@);
    setting_after_delete(a, "away_session_id"@, "away_started_at"@);
}

/// What is planned for a command is what its name says, and only coming back changes what is
/// stored before anything is sent.
pub proof fn commands_are_carried_out(
    st: BridgeStateV,
    command: DiscordInboundCommandV,
    help: Seq<char>,
    status: Seq<char>,
    now: u64,
)
    ensures
        !(command is Back) ==> command_plan(st, command, help, status, now).0 == st,
        command is Start || command is Help ==> sends(
            command_plan(st, command, help, status, now).1,
            "discord_help"@,
            help_for_discord(help),
        ),
        command is Status ==> sends(
            command_plan(st, command, help, status, now).1,
            "discord_status"@,
            status_for_discord(status),
        ),
        command is Repair ==> sends(
            command_plan(st, command, help, status, now).1,
            "discord_repair_hint"@,
            "Use `codex-telegram-bridge remote repair` locally to repair the shared live backend."@,
        ),
        command is Back ==> sends(
            command_plan(st, command, help, status, now).1,
            "discord_back"@,
            "Remote Codex mode is off. Cleared "@ + decimal(
                st.outbound.filter(|r: OutboundRowV| r.status != "delivered"@).len(),
            ) + " pending notification(s)."@,
        ),
        command matches DiscordInboundCommandV::Unknown(name) ==> sends(
            command_plan(st, command, help, status, now).1,
            "discord_unknown_command"@,
            "I don't know "@ + name + " yet.\n\n"@ + help_for_discord(help),
        ),
        command matches DiscordInboundCommandV::Threads(raw) ==> (threads_limit(raw) matches Ok(n)
            ==> command_plan(st, command, help, status, now).1 == Ok::<DiscordPlanV, BridgeErrorV>(
            DiscordPlanV::ListThreads(n),
        )),
        command matches DiscordInboundCommandV::Threads(raw) ==> (threads_limit(raw) is Err
            ==> command_plan(st, command, help, status, now).1 is Err),
        command matches DiscordInboundCommandV::NewThread(prompt) ==> command_plan(
            st,
            command,
            help,
            status,
            now,
        ).1 == Ok::<DiscordPlanV, BridgeErrorV>(DiscordPlanV::NewThread(prompt)),
        command matches DiscordInboundCommandV::Project(query) ==> command_plan(
            st,
            command,
            help,
            status,
            now,
        ).1 == Ok::<DiscordPlanV, BridgeErrorV>(
            match query {
                Some(q) => DiscordPlanV::ChooseProject(q),
                None => DiscordPlanV::ShowProjects,
            },
        ),
        command is Away ==> command_plan(st, command, help, status, now).1 == Ok::<
            DiscordPlanV,
            BridgeErrorV,
        >(DiscordPlanV::StartBackend),
{
    broadcast use {empty_objects_have_no_members, pushed_members_are_found};

    reveal_strlit("ok");
    reveal_strlit("action");
    reveal_strlit("state");
    reveal_strlit("command");
    assert("ok"@.len() == 2);
    assert("action"@.len() == 6);
    assert("state"@.len() == 5);
    assert("command"@.len() == 7);
    assert(st.outbound.filter(|r: OutboundRowV| r.status != "delivered"@)
        =~= st.outbound.filter(pending_hit())) by {
        lemma_same_filter(
            st.outbound,
            |r: OutboundRowV| r.status != "delivered"@,
            pending_hit(),
        );
    }
}

proof fn lemma_same_filter<T>(s: Seq<T>, a: spec_fn(T) -> bool, b: spec_fn(T) -> bool)
    requires
        forall|x: T| #[trigger] a(x) == b(x),
    ensures
        s.filter(a) == s.filter(b),
    decreases s.len(),
{
    reveal(Seq::filter);
    if s.len() > 0 {
        lemma_same_filter(s.drop_last(), a, b);
        assert(a(s.last()) == b(s.last()));
    }
}

/// The plan is to send this text, and to report this action.
pub open spec fn sends(
    plan: Result<DiscordPlanV, BridgeErrorV>,
    action: Seq<char>,
    text: Seq<char>,
) -> bool {
    plan matches Ok(DiscordPlanV::Send(out)) && out.text == text && text_member(
        out.report,
        "action"@,
    ) == Some(action) && member(out.report, "ok"@) == Some(JsonV::Bool(true))
}

/// A number of threads from one to twenty-five is taken as it is asked for, any other is
/// refused, and five are shown where none is asked for.
pub proof fn threads_are_shown_by_number(n: u64, raw: Option<Seq<char>>)
    ensures
        non_blank(raw) == Some(decimal(n as nat)) ==> (threads_limit(raw) is Ok <==> 1 <= n <= 25),
        non_blank(raw) == Some(decimal(n as nat)) && 1 <= n <= 25 ==> threads_limit(raw)->Ok_0
            == n,
        non_blank(raw) is None ==> threads_limit(raw) == Ok::<u64, BridgeErrorV>(5),
        threads_limit(raw) matches Ok(limit) ==> 1 <= limit <= 25,
{
    decimal_parses_back(n);
}

// ---------------------------------------------------------------------------
// Whom the bridge listens to
// ---------------------------------------------------------------------------

/// The author of a message.
pub open spec fn written_by(message: JsonV, user: Seq<char>) -> bool {
    member(message, "author"@) matches Some(author) && text_member(author, "id"@) == Some(user)
}

/// The author of a message says that it is a bot.
pub open spec fn written_by_a_bot(message: JsonV) -> bool {
    member(message, "author"@) matches Some(author) && member(author, "bot"@) == Some(
        JsonV::Bool(true),
    )
}

/// Bots are never listened to. Where a user is named, only that user is; else everybody is.
pub proof fn only_the_user_is_heard(
    st: BridgeStateV,
    message: JsonV,
    discord: DiscordConfigV,
    user: Seq<char>,
)
    requires
        discord.allowed_user_id == Some(user),
    ensures
        heard(message, discord) <==> !written_by_a_bot(message) && written_by(message, user),
        !written_by(message, user) || written_by_a_bot(message) ==> route_of(st, message, discord)
            == MessageRouteV::Ignored,
        heard(message, DiscordConfigV { allowed_user_id: None, ..discord }) <==> !written_by_a_bot(
            message,
        ),
{
}

/// A reply to a message that stands for nothing is ignored, also where it looks like a
/// command; and so is a message without text.
pub proof fn stray_replies_are_ignored(st: BridgeStateV, message: JsonV, discord: DiscordConfigV)
    requires
        replied_id(message) is Some,
        message_thread(st, discord.channel_id, replied_id(message)->0) is None,
        command_route(st, discord.channel_id, replied_id(message)->0) is None,
    ensures
        route_of(st, message, discord) == MessageRouteV::Ignored,
{
}

/// A message without text asks for nothing.
pub proof fn silent_messages_are_ignored(st: BridgeStateV, message: JsonV, discord: DiscordConfigV)
    requires
        non_blank(text_member(message, "content"@)) is None,
    ensures
        route_of(st, message, discord) == MessageRouteV::Ignored,
{
}

/// A reply to a question of the bridge answers it, with the text of the reply and the project
/// that was asked about.
pub proof fn answers_go_to_their_question(
    st: BridgeStateV,
    message: JsonV,
    discord: DiscordConfigV,
    id: i64,
    kind: TelegramCommandRouteKind,
    payload: Option<JsonV>,
    text: Seq<char>,
)
    requires
        heard(message, discord),
        replied_id(message) == Some(id),
        message_text(message) == Some(text),
        message_thread(st, discord.channel_id, id) is None,
        command_route(st, discord.channel_id, id) == Some((kind, payload)),
    ensures
        route_of(st, message, discord) matches MessageRouteV::PromptReply {
            kind: k,
            message: m,
            project_id,
            reply_to,
        } && k == kind && m == text && reply_to == id && project_id == (match payload {
            Some(p) => text_member(p, "projectId"@),
            None => None,
        }),
{
}

/// The id of a message and of the one that it replies to are read as numbers.
pub proof fn message_ids_are_read(message: JsonV, id: u64)
    requires
        id <= i64::MAX,
    ensures
        text_member(message, "id"@) == Some(decimal(id as nat)) ==> message_id(message) == Some(
            id as i64,
        ),
        (member(message, "message_reference"@) matches Some(reference) && text_member(
            reference,
            "message_id"@,
        ) == Some(decimal(id as nat))) ==> replied_id(message) == Some(id as i64),
        member(message, "message_reference"@) is None ==> replied_id(message) is None,
{
    lemma_decimal_digits(id as nat);
    assert(is_digit(decimal(id as nat)[0]));
}

// ---------------------------------------------------------------------------
// Batches
// ---------------------------------------------------------------------------

/// Each message of a batch is counted once: as what it asked for where the work for it
/// succeeded, as failed where it did not; one that asks for nothing is ignored either way.
pub proof fn messages_are_counted_as_what_they_are(
    b: BatchV,
    st: BridgeStateV,
    message: JsonV,
    discord: DiscordConfigV,
    succeeded: bool,
)
    requires
        b.well_formed(),
        b.pending is None,
        b.seen < u64::MAX,
    ensures
        ({
            let after = b.routed(st, message, discord).settled(succeeded);
            let route = route_of(st, message, discord);
            let failed = !succeeded && !(route is Ignored);
            &&& after.seen == b.seen + 1
            &&& after.pending is None
            &&& after.failed == b.failed + (if failed {
                1int
            } else {
                0int
            })
            &&& after.ignored == b.ignored + (if route is Ignored {
                1int
            } else {
                0int
            })
            &&& after.replies == b.replies + (if route is Reply && succeeded {
                1int
            } else {
                0int
            })
            &&& after.command_prompt_replies == b.command_prompt_replies + (if route is PromptReply
                && succeeded {
                1int
            } else {
                0int
            })
            &&& after.commands == b.commands + (if route is Command && succeeded {
                1int
            } else {
                0int
            })
        }),
{
}

/// The report of a batch says how its messages were counted, and that of a first look that
/// all were passed over.
pub proof fn batch_reports_say_the_counts(channel: Seq<char>, b: BatchV, count: u64)
    ensures
        ({
            let r = batch_report(channel, b);
            &&& member(r, "ok"@) == Some(JsonV::Bool(true))
            &&& text_member(r, "transport"@) == Some("discord"@)
            &&& text_member(r, "channelId"@) == Some(channel)
            &&& member(r, "seen"@) == Some(JsonV::UInt(b.seen))
            &&& member(r, "replies"@) == Some(JsonV::UInt(b.replies))
            &&& member(r, "commandPromptReplies"@) == Some(JsonV::UInt(b.command_prompt_replies))
            &&& member(r, "commands"@) == Some(JsonV::UInt(b.commands))
            &&& member(r, "ignored"@) == Some(JsonV::UInt(b.ignored))
            &&& member(r, "failed"@) == Some(JsonV::UInt(b.failed))
        }),
        ({
            let r = initial_report(channel, count);
            &&& member(r, "seen"@) == Some(JsonV::UInt(count))
            &&& member(r, "ignored"@) == Some(JsonV::UInt(count))
            &&& member(r, "replies"@) == Some(JsonV::UInt(0))
            &&& member(r, "commandPromptReplies"@) == Some(JsonV::UInt(0))
            &&& member(r, "commands"@) == Some(JsonV::UInt(0))
            &&& member(r, "initialized"@) == Some(JsonV::Bool(true))
            &&& text_member(r, "channelId"@) == Some(channel)
        }),
{
    broadcast use {empty_objects_have_no_members, pushed_members_are_found};

    reveal_strlit("ok");
    reveal_strlit("transport");
    reveal_strlit("channelId");
    reveal_strlit("seen");
    reveal_strlit("replies");
    reveal_strlit("commandPromptReplies");
    reveal_strlit("commands");
    reveal_strlit("ignored");
    reveal_strlit("failed");
    reveal_strlit("initialized");
    assert("ok"@.len() == 2);
    assert("transport"@.len() == 9);
    assert("channelId"@.len() == 9);
    assert("seen"@.len() == 4);
    assert("replies"@.len() == 7);
    assert("commandPromptReplies"@.len() == 20);
    assert("commands"@.len() == 8);
    assert("ignored"@.len() == 7);
    assert("failed"@.len() == 6);
    assert("initialized"@.len() == 11);
    assert("transport"@[0] != "channelId"@[0]);
    assert("replies"@[0] != "ignored"@[0]);
}

/// The cursor of a channel is read back as it was moved, channels have cursors of their own,
/// and a first look leaves every message that is there behind it.
pub proof fn cursors_are_kept_by_channel(
    st: BridgeStateV,
    channel: Seq<char>,
    other: Seq<char>,
    to: u64,
    messages: Seq<JsonV>,
    i: int,
)
    requires
        st.well_formed(),
        channel != other,
        0 <= i < messages.len(),
        message_id(messages[i]) is Some,
        message_id(messages[i])->0 >= 0,
    ensures
        setting_number(cursor_moved(st, cursor_key(channel), Some(to)), cursor_key(channel))
            == Some(to),
        setting(cursor_moved(st, cursor_key(channel), Some(to)), cursor_key(other)) == setting(
            st,
            cursor_key(other),
        ),
        ({
            let (after, start) = channel_begun(
                st,
                channel,
                cursor_key(channel),
                None,
                messages,
            );
            &&& start is Initialized
            &&& setting_number(after, cursor_key(channel)) matches Some(at) && at
                >= message_id(messages[i])->0
        }),
        channel_begun(st, channel, cursor_key(channel), Some(to), messages).0 == st,
        channel_begun(st, channel, cursor_key(channel), Some(to), messages).1 is Begun,
{
    let a = cursor_key(channel);
    let b = cursor_key(other);
    let head = "discord_last_message_id:"@;
    if a == b {
        assert(a.skip(head.len() as int) =~= channel);
        assert(b.skip(head.len() as int) =~= other);
    }
    number_after_set(st, a, to);
    setting_after_set(st, a, decimal(to as nat), b);
    lemma_greatest(messages, messages.len(), i);
    let last = greatest_id(messages, messages.len(), None)->0;
    number_after_set(st, a, last);
}

proof fn lemma_greatest(messages: Seq<JsonV>, n: nat, i: int)
    requires
        0 <= i < n <= messages.len(),
        message_id(messages[i]) is Some,
        message_id(messages[i])->0 >= 0,
    ensures
        greatest_id(messages, n, None) matches Some(at) && at >= message_id(messages[i])->0,
    decreases n,
{
    if i < n - 1 {
        lemma_greatest(messages, (n - 1) as nat, i);
    }
}

/// Messages are dealt with in the order of their ids, and all of them are.
pub proof fn messages_come_in_order(messages: Seq<JsonV>, i: int, j: int)
    requires
        0 <= i <= j < messages.len(),
    ensures
        ({
            let sorted = payloads(sorted_desc(by_id(messages)));
            &&& sorted.len() == messages.len()
            &&& (message_id(sorted[i]) matches Some(a) && message_id(sorted[j]) is Some)
                ==> message_id(sorted[i])->0 <= message_id(sorted[j])->0
            &&& messages.contains(sorted[i])
        }),
{
    broadcast use vstd::seq_lib::group_to_multiset_ensures;

    let keyed = by_id(messages);
    let sorted = sorted_desc(keyed);
    sorting_is_stable(keyed);
    assert(sorted.contains(sorted[i]) && sorted.contains(sorted[j]));
    assert(sorted.to_multiset().count(sorted[i]) > 0);
    assert(sorted.to_multiset().count(sorted[j]) > 0);
    assert(keyed.contains(sorted[i]) && keyed.contains(sorted[j]));
    let k = choose|k: int| 0 <= k < keyed.len() && keyed[k] == sorted[i];
    let l = choose|l: int| 0 <= l < keyed.len() && keyed[l] == sorted[j];
    assert(messages[k] == sorted[i].1);
    assert(messages[l] == sorted[j].1);
    assert(sorted[i].0 >= sorted[j].0);
}

// ---------------------------------------------------------------------------
// What is sent
// ---------------------------------------------------------------------------

/// What is sent to a channel goes to that channel, with its text, and mentions nobody.
pub proof fn messages_go_to_their_channel(channel: Seq<char>, content: Seq<char>, after: u64)
    ensures
        message_call(channel, content).method == "POST"@,
        message_call(channel, content).path == "/channels/"@ + channel + "/messages"@,
        message_call(channel, content).payload matches Some(p) && text_member(p, "content"@)
            == Some(content) && (member(p, "allowed_mentions"@) matches Some(m) && member(
            m,
            "parse"@,
        ) == Some(JsonV::Array(Seq::empty()))),
        typing_call(channel).method == "POST"@,
        typing_call(channel).path == "/channels/"@ + channel + "/typing"@,
        typing_call(channel).payload is None,
        messages_path(channel, None) == "/channels/"@ + channel + "/messages?limit=50"@,
        messages_path(channel, Some(after)) == messages_path(channel, None) + "&after="@ + decimal(
            after as nat,
        ),
{
    broadcast use {empty_objects_have_no_members, pushed_members_are_found};

    reveal_strlit("content");
    reveal_strlit("allowed_mentions");
    reveal_strlit("parse");
    assert("content"@.len() == 7);
    assert("allowed_mentions"@.len() == 16);
    assert("parse"@.len() == 5);
}

/// A message that was sent for a thread is remembered with it: a reply to it reaches the
/// thread. One that was sent for none is not remembered, and one without an id is a failure.
pub proof fn sent_messages_lead_to_their_thread(
    st: BridgeStateV,
    channel: Seq<char>,
    thread_id: Seq<char>,
    event_id: Seq<char>,
    response: JsonV,
    now: u64,
)
    requires
        st.well_formed(),
        now <= i64::MAX,
    ensures
        message_id(response) is None ==> part_sent(
            st,
            channel,
            Some(thread_id),
            event_id,
            response,
            now,
        ) is Err,
        message_id(response) matches Some(id) ==> (part_sent(
            st,
            channel,
            Some(thread_id),
            event_id,
            response,
            now,
        ) matches Ok((after, sent)) && sent == id && message_thread(after, channel, id) == Some(
            thread_id,
        )),
        message_id(response) matches Some(id) ==> part_sent(
            st,
            channel,
            None,
            event_id,
            response,
            now,
        ) == Ok::<(BridgeStateV, i64), BridgeErrorV>((st, id)),
{
    if message_id(response) is Some {
        let id = message_id(response)->0;
        let row = MessageRouteRowV {
            chat_id: channel,
            message_id: id,
            thread_id,
            event_id,
            created_at: now as i64,
        };
        replies_reach_their_thread(st, row, channel, id);
    }
}

/// A typing indicator is one of its channel and its thread, is shown while it lasts, not more
/// often than it is due, and ends.
pub proof fn typing_follows_the_clock(value: JsonV, channel: Seq<char>, now: u64)
    ensures
        typing_decision(None, channel, now) == TypingStep::Drop,
        text_member(value, "channelId"@) != Some(channel) ==> typing_decision(
            Some(value),
            channel,
            now,
        ) == TypingStep::Other,
        text_member(value, "channelId"@) == Some(channel) ==> ({
            let until = match member(value, "until"@) {
                Some(JsonV::UInt(n)) => n,
                _ => 0,
            };
            let due = match member(value, "nextAt"@) {
                Some(JsonV::UInt(n)) => n,
                _ => 0,
            };
            let step = typing_decision(Some(value), channel, now);
            &&& step == TypingStep::Drop <==> now >= until
            &&& step == TypingStep::Wait <==> now < until && now < due
            &&& step == TypingStep::Show <==> now < until && now >= due
        }),
{
}

/// A typing indicator says where it is shown, for which thread, until when and when next.
pub proof fn typing_values_say_when(
    channel: Seq<char>,
    thread_id: JsonV,
    until: u64,
    next_at: u64,
    a: Seq<char>,
    b: Seq<char>,
)
    ensures
        text_member(typing_value(channel, thread_id, until, next_at), "channelId"@) == Some(
            channel,
        ),
        member(typing_value(channel, thread_id, until, next_at), "threadId"@) == Some(thread_id),
        member(typing_value(channel, thread_id, until, next_at), "until"@) == Some(
            JsonV::UInt(until),
        ),
        member(typing_value(channel, thread_id, until, next_at), "nextAt"@) == Some(
            JsonV::UInt(next_at),
        ),
        a != b ==> typing_key(channel, a) != typing_key(channel, b),
        DISCORD_TYPING_TTL_MS == 120_000,
        DISCORD_TYPING_REFRESH_MS == 8_000,
{
    broadcast use {empty_objects_have_no_members, pushed_members_are_found};

    reveal_strlit("channelId");
    reveal_strlit("threadId");
    reveal_strlit("until");
    reveal_strlit("nextAt");
    assert("channelId"@.len() == 9);
    assert("threadId"@.len() == 8);
    assert("until"@.len() == 5);
    assert("nextAt"@.len() == 6);
    let head = "discord_typing:"@ + channel + ":"@;
    if typing_key(channel, a) == typing_key(channel, b) {
        assert(typing_key(channel, a).skip(head.len() as int) =~= a);
        assert(typing_key(channel, b).skip(head.len() as int) =~= b);
    }
}

// ---------------------------------------------------------------------------
// Configuration
// ---------------------------------------------------------------------------

/// A setup that is accepted stores what was asked for, once and without blanks, enables
/// Discord, and leaves Telegram and the projects as they were.
pub proof fn setups_store_what_was_asked_for(
    token: Seq<char>,
    channel_ids: Seq<Seq<char>>,
    allowed_user: Option<Seq<char>>,
    events: Seq<char>,
    bridge_command: Seq<char>,
    url: Seq<char>,
    existing: Option<DaemonConfigV>,
    parsed: Result<UrlPartsV, Seq<char>>,
    channel: Seq<char>,
)
    ensures
        setup_outcome(
            token,
            channel_ids,
            allowed_user,
            events,
            bridge_command,
            url,
            existing,
            parsed,
        ) matches Ok(s) ==> {
            &&& s.config.discord == Some(s.discord)
            &&& s.discord.bot_token == token
            &&& s.discord.enabled
            &&& s.discord.allowed_user_id == non_blank(allowed_user)
            &&& s.discord.channel_ids.no_duplicates()
            &&& s.discord.channel_ids.len() > 0
            &&& s.discord.channel_id == s.discord.channel_ids[0]
            &&& s.discord.channel_ids.contains(channel) <==> exists|i: int|
                0 <= i < channel_ids.len() && non_blank(Some(#[trigger] channel_ids[i])) == Some(
                    channel,
                )
            &&& s.config.events == trimmed(events)
            &&& s.config.bridge_command == trimmed(bridge_command)
            &&& s.config.codex matches Some(c) && c.websocket_url == trimmed(url)
            &&& existing matches Some(old) ==> s.config.telegram == old.telegram
                && s.config.projects == old.projects
            &&& existing is None ==> s.config.telegram is None && s.config.projects.len() == 0
        },
{
    let kept = kept_parts(channel_ids, channel_ids.len());
    let channels = setup_channels(channel_ids);
    repeats_are_dropped(kept, kept.len(), channel);
    assert(kept.take(kept.len() as int) =~= kept);
    lemma_kept_parts(channel_ids, channel_ids.len(), channel);
    assert(channels.contains(channel) <==> listed(channels, channel)) by {
        if channels.contains(channel) {
            let i = choose|i: int| 0 <= i < channels.len() && channels[i] == channel;
            assert(channels[i] == channel);
        }
    }
    assert(kept.contains(channel) <==> listed(kept, channel)) by {
        if kept.contains(channel) {
            let i = choose|i: int| 0 <= i < kept.len() && kept[i] == channel;
            assert(kept[i] == channel);
        }
    }
}

/// The parts that are kept are those that are not blank, without the blanks around them.
pub proof fn lemma_kept_parts(parts: Seq<Seq<char>>, n: nat, part: Seq<char>)
    requires
        n <= parts.len(),
    ensures
        kept_parts(parts, n).contains(part) <==> exists|i: int|
            0 <= i < n && non_blank(Some(#[trigger] parts[i])) == Some(part),
    decreases n,
{
    if n > 0 {
        lemma_kept_parts(parts, (n - 1) as nat, part);
        let before = kept_parts(parts, (n - 1) as nat);
        let after = kept_parts(parts, n);
        if before.contains(part) {
            let k = choose|k: int| 0 <= k < before.len() && before[k] == part;
            assert(after[k] == part);
        }
        if non_blank(Some(parts[n - 1])) == Some(part) {
            assert(after[after.len() - 1] == part);
        }
        if after.contains(part) {
            let k = choose|k: int| 0 <= k < after.len() && after[k] == part;
            if k < before.len() {
                assert(before[k] == part);
            }
        }
    }
}

/// Turning Discord on or off changes nothing else, and needs Discord to be configured.
pub proof fn switching_changes_nothing_else(
    config: Option<DaemonConfigV>,
    enabled: bool,
    dry_run: bool,
    path: Seq<char>,
)
    ensures
        switched(config, enabled) is Ok <==> (config is Some && config->0.discord is Some),
        switched(config, enabled) matches Ok(after) ==> {
            let before = config->0;
            &&& after.discord->0.enabled == enabled
            &&& after.discord->0.bot_token == before.discord->0.bot_token
            &&& after.discord->0.channel_id == before.discord->0.channel_id
            &&& after.discord->0.channel_ids == before.discord->0.channel_ids
            &&& after.discord->0.allowed_user_id == before.discord->0.allowed_user_id
            &&& after.telegram == before.telegram
            &&& after.codex == before.codex
            &&& after.projects == before.projects
            &&& after.events == before.events
            &&& after.bridge_command == before.bridge_command
            &&& member(switch_report(before, after, enabled, dry_run, path), "enabled"@) == Some(
                JsonV::Bool(enabled),
            )
            &&& member(
                switch_report(before, after, enabled, dry_run, path),
                "previousEnabled"@,
            ) == Some(JsonV::Bool(before.discord->0.enabled))
            &&& member(switch_report(before, after, enabled, dry_run, path), "dryRun"@) == Some(
                JsonV::Bool(dry_run),
            )
            &&& text_member(switch_report(before, after, enabled, dry_run, path), "action"@)
                == Some(
                if enabled {
                    "discord_enable"@
                } else {
                    "discord_disable"@
                },
            )
        },
{
    broadcast use {empty_objects_have_no_members, pushed_members_are_found};

    reveal_strlit("ok");
    reveal_strlit("action");
    reveal_strlit("dryRun");
    reveal_strlit("configured");
    reveal_strlit("previousEnabled");
    reveal_strlit("enabled");
    reveal_strlit("configPath");
    reveal_strlit("config");
    assert("ok"@.len() == 2);
    assert("action"@.len() == 6);
    assert("dryRun"@.len() == 6);
    assert("configured"@.len() == 10);
    assert("previousEnabled"@.len() == 15);
    assert("enabled"@.len() == 7);
    assert("configPath"@.len() == 10);
    assert("config"@.len() == 6);
    assert("action"@[0] != "dryRun"@[0]);
    assert("action"@[0] != "config"@[0]);
    assert("dryRun"@[0] != "config"@[0]);
    assert("configured"@[6] != "configPath"@[6]);
}

/// A round of typing indicators counts those that are active, shown, dropped and failed, and
/// goes well where none failed; a change keeps, drops or renews the indicator that it is of.
pub proof fn typing_rounds_count(
    st: BridgeStateV,
    channel: Seq<char>,
    key: Seq<char>,
    value: JsonV,
    active: u64,
    sent: u64,
    expired: u64,
    failed: u64,
)
    requires
        st.well_formed(),
    ensures
        ({
            let r = typing_report(channel, active, sent, expired, failed);
            &&& member(r, "ok"@) == Some(JsonV::Bool(failed == 0))
            &&& text_member(r, "transport"@) == Some("discord"@)
            &&& text_member(r, "channelId"@) == Some(channel)
            &&& member(r, "active"@) == Some(JsonV::UInt(active))
            &&& member(r, "sent"@) == Some(JsonV::UInt(sent))
            &&& member(r, "expired"@) == Some(JsonV::UInt(expired))
            &&& member(r, "failed"@) == Some(JsonV::UInt(failed))
        }),
        typing_changed(st, key, TypingChangeV::Keep) == st,
        setting(typing_changed(st, key, TypingChangeV::Remove), key) is None,
        setting(typing_changed(st, key, TypingChangeV::Renew(value)), key) == Some(
            json_text(value),
        ),
{
    broadcast use {empty_objects_have_no_members, pushed_members_are_found};

    reveal_strlit("ok");
    reveal_strlit("transport");
    reveal_strlit("channelId");
    reveal_strlit("active");
    reveal_strlit("sent");
    reveal_strlit("expired");
    reveal_strlit("failed");
    assert("ok"@.len() == 2);
    assert("transport"@.len() == 9);
    assert("channelId"@.len() == 9);
    assert("active"@.len() == 6);
    assert("sent"@.len() == 4);
    assert("expired"@.len() == 7);
    assert("failed"@.len() == 6);
    assert("transport"@[0] != "channelId"@[0]);
    assert("active"@[0] != "failed"@[0]);
    setting_after_set(st, key, json_text(value), key);
    setting_after_delete(st, key, key);
}

/// The report on the channels holds that of each channel; a channel that failed says which it
/// is and why.
pub proof fn channels_are_reported(
    ok: bool,
    channels: Seq<JsonV>,
    channel: Seq<char>,
    error: Seq<char>,
)
    ensures
        member(channels_report(ok, channels), "ok"@) == Some(JsonV::Bool(ok)),
        text_member(channels_report(ok, channels), "transport"@) == Some("discord"@),
        member(channels_report(ok, channels), "channels"@) == Some(JsonV::Array(channels)),
        member(channel_failure(channel, error), "ok"@) == Some(JsonV::Bool(false)),
        text_member(channel_failure(channel, error), "channelId"@) == Some(channel),
        text_member(channel_failure(channel, error), "error"@) == Some(error),
{
    broadcast use {empty_objects_have_no_members, pushed_members_are_found};

    reveal_strlit("ok");
    reveal_strlit("transport");
    reveal_strlit("channels");
    reveal_strlit("channelId");
    reveal_strlit("error");
    assert("ok"@.len() == 2);
    assert("transport"@.len() == 9);
    assert("channels"@.len() == 8);
    assert("channelId"@.len() == 9);
    assert("error"@.len() == 5);
    assert("transport"@[0] != "channelId"@[0]);
}

/// A route that goes through is counted as what it is, one that does not as a failure, and what
/// is ignored as ignored.
pub proof fn routes_are_counted(route: MessageRouteV)
    ensures
        route is Ignored ==> outcome_of(route, true) == MessageOutcome::Ignored && outcome_of(
            route,
            false,
        ) == MessageOutcome::Ignored,
        route is Reply ==> outcome_of(route, true) == MessageOutcome::Reply,
        route is PromptReply ==> outcome_of(route, true) == MessageOutcome::PromptReply,
        route is Command ==> outcome_of(route, true) == MessageOutcome::Command,
        !(route is Ignored) ==> outcome_of(route, false) == MessageOutcome::Failed,
{
}

/// A channel of its own is polled with the rest of the configuration as it is.
pub proof fn channels_are_polled_one_by_one(discord: DiscordConfigV, channel: Seq<char>)
    ensures
        for_channel(discord, channel).channel_id == channel,
        discord_channels(for_channel(discord, channel)) == seq![channel],
        for_channel(discord, channel).bot_token == discord.bot_token,
        for_channel(discord, channel).allowed_user_id == discord.allowed_user_id,
        for_channel(discord, channel).enabled == discord.enabled,
{
    assert(discord_channels(for_channel(discord, channel)) =~= seq![channel]);
}

} // verus!
