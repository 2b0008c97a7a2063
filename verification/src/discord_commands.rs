//! What Discord commands do, what is sent for them, and what is reported: from a command
//! to the answers, the new threads, the deliveries and the setup.
use vstd::prelude::*;
use vstd::string::*;

use crate::away::{
    away_report, away_state, coming_back_is_seen, going_away_is_seen, pending_count,
    pending_outbound_count, presence_leaves_nothing_pending, present_report, present_state,
    set_away_mode,
};
use crate::config::{
    CodexConfig, CodexConfigV, CodexLiveMode, copy_registered_projects, DaemonConfig, DaemonConfigV,
    discord_channels, discord_config_channel_ids, discord_config_enabled, discord_enabled,
    DiscordConfig, DiscordConfigV, redacted_config, redacted_daemon_config, RegisteredProject,
    RegisteredProjectV, TelegramConfig,
};
use crate::discord::{
    clear_discord_typing_indicator, discord_message_id, DiscordInboundCommand,
    DiscordInboundCommandV, message_id, parse_discord_threads_limit, threads_limit, typing_key,
};
use crate::error::{BridgeError, BridgeErrorV, failure, in_context, outcome};
use crate::events::{each_once, without_repeats};
use crate::follow::copy_values;
use crate::history::{record_action, with_action};
use crate::json::{
    array_value, int_json, Json, JsonV, lookup_from, member, Members, Object, opt_member, or_null,
    set_member, text_array, text_member, text_or_null, text_value,
};
use crate::laws::away_mode_keeps_order;
use crate::live::{LiveBackendStatus, LiveBackendStatusV};
use crate::requests::{kept_parts, normalized_message, reply_log, reply_log_payload};
use crate::routes::{
    command_route, insert_telegram_command_route, insert_telegram_message_route,
    TelegramCommandRouteKind, with_command_route, with_message_route,
};
use crate::settings::{
    current_project_key, get_telegram_current_project_id, set_telegram_current_project_id, setting,
    setting_after_set, setting_number, with_setting, without_setting,
};
use crate::shell::{daemon_command, daemon_run_command, redact_secret_text, redacted};
use crate::state::{
    BridgeState, BridgeStateV, command_route_row_key, CommandRouteRowV, MessageRouteRowV,
    out_of_range,
};
use crate::sync::is_away;
use crate::table::{first_row, position, put_keeps_keys};
use crate::text::{
    borrow_opt, cat, cat3, copy_texts, decimal, non_blank, replace, replaced, same, trim, trimmed,
    trimmed_non_blank, u64_text,
};
use crate::ws::{parts_of, shared_url, url_of, UrlPartsV, validate_shared_websocket_url};

verus! {

// ---------------------------------------------------------------------------
// Texts
// ---------------------------------------------------------------------------

/// The help for Discord, from the help for Telegram.
pub open spec fn help_for_discord(help: Seq<char>) -> Seq<char> {
    replaced(
        replaced(
            replaced(
                help,
                "Codex remote is ready."@,
                "Codex remote is ready in Discord."@,
            ),
            "Telegram's Reply action"@,
            "Discord's Reply action"@,
        ),
        "Telegram threads"@,
        "Discord threads"@,
    )
}

/// The help for Discord, from the help for Telegram.
pub fn discord_help_text(telegram_help: &str) -> (r: String)
    ensures
        r@ == help_for_discord(telegram_help@),
{
    proof {
        reveal_strlit("Codex remote is ready.");
        reveal_strlit("Telegram's Reply action");
        reveal_strlit("Telegram threads");
    }
    let a = replace(
        telegram_help,
        "Codex remote is ready.",
        "Codex remote is ready in Discord.",
    );
    let b = replace(a.as_str(), "Telegram's Reply action", "Discord's Reply action");
    replace(b.as_str(), "Telegram threads", "Discord threads")
}

/// The status for Discord, from the status for Telegram.
pub open spec fn status_for_discord(status: Seq<char>) -> Seq<char> {
    replaced(
        replaced(
            status,
            "Pending Telegram notifications"@,
            "Pending Discord notifications"@,
        ),
        "Telegram's Reply action"@,
        "Discord's Reply action"@,
    )
}

/// The status for Discord, from the status for Telegram.
pub fn discord_status_text(telegram_status: &str) -> (r: String)
    ensures
        r@ == status_for_discord(telegram_status@),
{
    proof {
        reveal_strlit("Pending Telegram notifications");
        reveal_strlit("Telegram's Reply action");
    }
    let a = replace(
        telegram_status,
        "Pending Telegram notifications",
        "Pending Discord notifications",
    );
    replace(a.as_str(), "Telegram's Reply action", "Discord's Reply action")
}

/// A notification for Discord, from the one for Telegram.
pub open spec fn notice_for_discord(text: Seq<char>) -> Seq<char> {
    replaced(
        replaced(text, "Telegram's Reply action"@, "Discord's Reply action"@),
        "Use the buttons below, or use Discord's Reply action on this message."@,
        "Reply YES or NO to this message."@,
    )
}

/// A notification for Discord, from the one for Telegram.
fn discord_notice(text: &str) -> (r: String)
    ensures
        r@ == notice_for_discord(text@),
{
    proof {
        reveal_strlit("Telegram's Reply action");
        reveal_strlit("Use the buttons below, or use Discord's Reply action on this message.");
    }
    let a = replace(text, "Telegram's Reply action", "Discord's Reply action");
    replace(
        a.as_str(),
        "Use the buttons below, or use Discord's Reply action on this message.",
        "Reply YES or NO to this message.",
    )
}

/// The notifications of the first `n` Telegram payloads, for Discord.
pub open spec fn notices_upto(payloads: Seq<JsonV>, n: nat) -> Seq<Seq<char>>
    decreases n,
{
    if n == 0 || n > payloads.len() {
        Seq::empty()
    } else {
        let before = notices_upto(payloads, (n - 1) as nat);
        match text_member(payloads[n - 1], "text"@) {
            Some(text) => before.push(notice_for_discord(text)),
            None => before,
        }
    }
}

/// The notifications of Telegram payloads, for Discord.
pub fn prepared_discord_texts(payloads: &Vec<Json>) -> (r: Vec<String>)
    ensures
        r.deep_view() == notices_upto(payloads.deep_view(), payloads@.len()),
{
    let ghost all = payloads.deep_view();
    let mut out: Vec<String> = Vec::new();
    let mut i: usize = 0;
    assert(out.deep_view() =~= Seq::<Seq<char>>::empty());
    while i < payloads.len()
        invariant
            i <= payloads@.len(),
            all == payloads.deep_view(),
            out.deep_view() == notices_upto(all, i as nat),
        decreases payloads@.len() - i,
    {
        assert(all[i as int] == payloads@[i as int]@);
        match payloads[i].get_text("text") {
            Some(text) => {
                let ghost before = out.deep_view();
                let notice = discord_notice(text);
                out.push(notice);
                assert(out.deep_view() =~= before.push(notice@));
            },
            None => {},
        }
        i += 1;
    }
    out
}

/// A message that is sent: its text, and no one is pinged by it.
pub open spec fn message_payload(content: Seq<char>) -> JsonV {
    JsonV::Object(
        Seq::empty()
            .push(("content"@, JsonV::Str(content)))
            .push(
                ("allowed_mentions"@, JsonV::Object(
                    Seq::empty()
                        .push(("parse"@, JsonV::Array(Seq::empty()))),
                )),
            ),
    )
}

/// A message that is sent: its text, and no one is pinged by it.
pub fn discord_message_payload(content: &str) -> (r: Json)
    ensures
        r@ == message_payload(content@),
{
    Object::new().with("content", Json::text(content)).with(
        "allowed_mentions",
        Object::new().with("parse", Json::empty_array()).done(),
    ).done()
}

/// A call that the Discord API takes: a `POST`, or a `GET` without a payload.
pub open spec fn supported_call(method: Seq<char>, has_payload: bool) -> bool {
    method == "POST"@ || (!has_payload && method == "GET"@)
}

/// Checks a call of the Discord API: a `POST` goes with a payload or without, a `GET`
/// without.
pub fn check_discord_request(method: &str, has_payload: bool) -> (r: Result<(), BridgeError>)
    ensures
        match r {
            Ok(_) => supported_call(method@, has_payload),
            Err(e) => !supported_call(method@, has_payload) && e@ == failure(
                "unsupported Discord API method "@ + method@ + (if has_payload {
                    " with payload"@
                } else {
                    " without payload"@
                }),
            ),
        },
{
    if same(method, "POST") || (!has_payload && same(method, "GET")) {
        return Ok(());
    }
    let tail: &str = if has_payload {
        " with payload"
    } else {
        " without payload"
    };
    Err(BridgeError::new(cat3("unsupported Discord API method ", method, tail).as_str()))
}

/// A call of the Discord API.
#[derive(Debug, PartialEq, Eq)]
pub struct DiscordCall {
    pub method: &'static str,
    pub path: String,
    pub payload: Option<Json>,
}

/// The model of [`DiscordCall`].
pub struct DiscordCallV {
    pub method: Seq<char>,
    pub path: Seq<char>,
    pub payload: Option<JsonV>,
}

impl View for DiscordCall {
    type V = DiscordCallV;

    open spec fn view(&self) -> DiscordCallV {
        DiscordCallV {
            method: self.method@,
            path: self.path@,
            payload: self.payload.deep_view(),
        }
    }
}

/// The call that shows a bot as typing.
pub open spec fn typing_call(channel: Seq<char>) -> DiscordCallV {
    DiscordCallV {
        method: "POST"@,
        path: "/channels/"@ + channel + "/typing"@,
        payload: None,
    }
}

/// The call that shows the bot as typing in its channel.
pub fn discord_trigger_typing(discord: &DiscordConfig) -> (r: DiscordCall)
    ensures
        r@ == typing_call(discord@.channel_id),
{
    DiscordCall {
        method: "POST",
        path: cat3("/channels/", discord.channel_id.as_str(), "/typing"),
        payload: None,
    }
}

/// The call that sends a message to a channel.
pub open spec fn message_call(channel: Seq<char>, content: Seq<char>) -> DiscordCallV {
    DiscordCallV {
        method: "POST"@,
        path: "/channels/"@ + channel + "/messages"@,
        payload: Some(message_payload(content)),
    }
}

/// The call that sends a message to the channel.
pub fn discord_send_message(discord: &DiscordConfig, content: &str) -> (r: DiscordCall)
    ensures
        r@ == message_call(discord@.channel_id, content@),
{
    DiscordCall {
        method: "POST",
        path: cat3("/channels/", discord.channel_id.as_str(), "/messages"),
        payload: Some(discord_message_payload(content)),
    }
}

/// The calls that send messages and show the bot as typing are ones that the API takes.
pub proof fn own_calls_are_supported(channel: Seq<char>, content: Seq<char>)
    ensures
        supported_call(
            typing_call(channel).method,
            typing_call(channel).payload is Some,
        ),
        supported_call(
            message_call(channel, content).method,
            message_call(channel, content).payload is Some,
        ),
{
}

/// Where the Discord API is.
pub const DISCORD_API_BASE: &'static str = "https://discord.com/api/v10";

/// The address of a call of the Discord API.
pub fn discord_api_url(path: &str) -> (r: String)
    ensures
        r@ == DISCORD_API_BASE@ + path@,
{
    cat(DISCORD_API_BASE, path)
}

/// How a bot shows who it is.
pub fn discord_authorization(discord: &DiscordConfig) -> (r: String)
    ensures
        r@ == "Bot "@ + trimmed(discord@.bot_token),
{
    cat("Bot ", trim(discord.bot_token.as_str()).as_str())
}

/// A call of the Discord API as it is shown.
pub open spec fn call_text(method: Seq<char>, path: Seq<char>) -> Seq<char> {
    "Discord API "@ + method + " "@ + path
}

/// A call of the Discord API as it is shown.
fn shown_call(method: &str, path: &str) -> (r: String)
    ensures
        r@ == call_text(method@, path@),
{
    let mut text = cat3("Discord API ", method, " ");
    text.append(path);
    text
}

/// The failure of a call that got no response, without the bot token.
pub fn discord_request_failure(discord: &DiscordConfig, method: &str, path: &str, error: &str) -> (r:
    BridgeError)
    ensures
        r@ == failure(
            call_text(method@, path@) + " request failed: "@ + redacted(
                error@,
                discord@.bot_token,
            ),
        ),
{
    let mut text = shown_call(method, path);
    text.append(" request failed: ");
    text.append(redact_secret_text(error, discord.bot_token.as_str()).as_str());
    BridgeError::new(text.as_str())
}

/// What the body of a response is.
#[derive(Debug, PartialEq, Eq)]
pub enum DiscordBody {
    /// There is none, and this stands for it.
    Empty(Json),
    /// It is read as JSON.
    Text,
}

/// Judges a response: one without success is a failure, and one without a body stands for
/// success.
pub fn discord_response(method: &str, path: &str, success: bool, status: &str, text: &str) -> (r:
    Result<DiscordBody, BridgeError>)
    ensures
        match r {
            Err(e) => !success && e@ == failure(
                call_text(method@, path@) + " returned HTTP "@ + status@ + ": "@ + text@,
            ),
            Ok(DiscordBody::Empty(stand_in)) => success && trimmed(text@).len() == 0 && stand_in@
                == JsonV::Object(
                    Seq::empty()
                        .push(("ok"@, JsonV::Bool(true))),
                ),
            Ok(DiscordBody::Text) => success && trimmed(text@).len() > 0,
        },
{
    if !success {
        let mut told = shown_call(method, path);
        told.append(" returned HTTP ");
        told.append(status);
        told.append(": ");
        told.append(text);
        return Err(BridgeError::new(told.as_str()));
    }
    if trim(text).as_str().is_empty() {
        Ok(DiscordBody::Empty(Object::new().with("ok", Json::Bool(true)).done()))
    } else {
        Ok(DiscordBody::Text)
    }
}

/// The failure of a response that is not what it should be.
pub fn discord_unreadable(method: &str, path: &str, json: bool, cause: &str) -> (r: BridgeError)
    ensures
        r@ == in_context(
            call_text(method@, path@) + (if json {
                " returned invalid JSON"@
            } else {
                " returned invalid text"@
            }),
            failure(cause@),
        ),
{
    let mut text = shown_call(method, path);
    text.append(
        if json {
            " returned invalid JSON"
        } else {
            " returned invalid text"
        },
    );
    BridgeError::new(cause).context(text.as_str())
}

/// The messages that a channel was listed with.
pub fn discord_message_list(response: &Json) -> (r: Result<Vec<Json>, BridgeError>)
    ensures
        outcome(r) == (match array_value(Some(response@)) {
            Some(messages) => Ok(messages),
            None => Err(
                failure("Discord list channel messages response was not an array"@),
            ),
        }),
{
    match response.as_array() {
        Some(items) => Ok(copy_values(items)),
        None => Err(
            BridgeError::new("Discord list channel messages response was not an array"),
        ),
    }
}

/// The path that lists the messages of a channel after a message.
pub open spec fn messages_path(channel: Seq<char>, after: Option<u64>) -> Seq<char> {
    let base = "/channels/"@ + channel + "/messages?limit=50"@;
    match after {
        Some(id) => base + "&after="@ + decimal(id as nat),
        None => base,
    }
}

/// The path that lists the messages of a channel after a message.
pub fn discord_messages_path(channel_id: &str, after: Option<u64>) -> (r: String)
    ensures
        r@ == messages_path(channel_id@, after),
{
    let mut path = cat3("/channels/", channel_id, "/messages?limit=50");
    match after {
        Some(id) => {
            path.append("&after=");
            path.append(u64_text(id).as_str());
        },
        None => {},
    }
    path
}

// ---------------------------------------------------------------------------
// From a command to its answer
// ---------------------------------------------------------------------------

/// A message that is sent, and the report of it, which still lacks what the server says.
#[derive(Debug, PartialEq, Eq)]
pub struct Outgoing {
    pub text: String,
    pub report: Json,
}

/// The model of [`Outgoing`].
#[verifier::ext_equal]
pub struct OutgoingV {
    pub text: Seq<char>,
    pub report: JsonV,
}

impl View for Outgoing {
    type V = OutgoingV;

    open spec fn view(&self) -> OutgoingV {
        OutgoingV {
            text: self.text@,
            report: self.report@,
        }
    }
}

impl DeepView for Outgoing {
    type V = OutgoingV;

    open spec fn deep_view(&self) -> OutgoingV {
        self@
    }
}

/// The report of a message that was sent.
pub fn finish_outgoing(outgoing: Outgoing, sent: Json) -> (r: Json)
    ensures
        r@ == set_member(outgoing@.report, "sent"@, sent@),
{
    let mut report = outgoing.report;
    report.set("sent", sent);
    report
}

/// An answer without further facts.
pub open spec fn plain_answer(action: Seq<char>, text: Seq<char>) -> OutgoingV {
    OutgoingV {
        text,
        report: JsonV::Object(
            Seq::empty()
                .push(("ok"@, JsonV::Bool(true)))
                .push(("action"@, JsonV::Str(action))),
        ),
    }
}

/// An answer with one more fact.
pub open spec fn answer_with(
    action: Seq<char>,
    text: Seq<char>,
    key: Seq<char>,
    value: JsonV,
) -> OutgoingV {
    OutgoingV {
        text,
        report: JsonV::Object(
            Seq::empty()
                .push(("ok"@, JsonV::Bool(true)))
                .push(("action"@, JsonV::Str(action)))
                .push((key, value)),
        ),
    }
}

/// An answer without further facts.
fn plain(action: &str, text: String) -> (r: Outgoing)
    ensures
        r@ == plain_answer(action@, text@),
{
    Outgoing {
        text,
        report: Object::new().with("ok", Json::Bool(true)).with(
            "action",
            Json::text(action),
        ).done(),
    }
}

/// An answer with one more fact.
fn telling(action: &str, text: String, key: &str, value: Json) -> (r: Outgoing)
    ensures
        r@ == answer_with(action@, text@, key@, value@),
{
    Outgoing {
        text,
        report: Object::new().with("ok", Json::Bool(true)).with(
            "action",
            Json::text(action),
        ).with(key, value).done(),
    }
}

/// What is done for a command.
#[derive(Debug, PartialEq, Eq)]
pub enum DiscordPlan {
    /// A message is sent.
    Send(Outgoing),
    /// The backend is started, or the one that runs is used, and remote mode goes on.
    StartBackend,
    /// So many threads are shown.
    ListThreads(u64),
    /// The project of a new thread is found, and the thread is started.
    NewThread(Option<String>),
    /// A project is found, and becomes the current one.
    ChooseProject(String),
    /// The projects are shown.
    ShowProjects,
}

/// The model of [`DiscordPlan`].
pub enum DiscordPlanV {
    Send(OutgoingV),
    StartBackend,
    ListThreads(u64),
    NewThread(Option<Seq<char>>),
    ChooseProject(Seq<char>),
    ShowProjects,
}

impl View for DiscordPlan {
    type V = DiscordPlanV;

    open spec fn view(&self) -> DiscordPlanV {
        match self {
            DiscordPlan::Send(o) => DiscordPlanV::Send(o@),
            DiscordPlan::StartBackend => DiscordPlanV::StartBackend,
            DiscordPlan::ListThreads(n) => DiscordPlanV::ListThreads(*n),
            DiscordPlan::NewThread(p) => DiscordPlanV::NewThread(p.deep_view()),
            DiscordPlan::ChooseProject(q) => DiscordPlanV::ChooseProject(q@),
            DiscordPlan::ShowProjects => DiscordPlanV::ShowProjects,
        }
    }
}

impl DeepView for DiscordPlan {
    type V = DiscordPlanV;

    open spec fn deep_view(&self) -> DiscordPlanV {
        self@
    }
}

/// The state after a command, and what is done for it. `help` and `status` are the texts
/// for Telegram.
pub open spec fn command_plan(
    st: BridgeStateV,
    command: DiscordInboundCommandV,
    help: Seq<char>,
    status: Seq<char>,
    now: u64,
) -> (BridgeStateV, Result<DiscordPlanV, BridgeErrorV>) {
    match command {
        DiscordInboundCommandV::Start | DiscordInboundCommandV::Help => (
            st,
            Ok(DiscordPlanV::Send(plain_answer("discord_help"@, help_for_discord(help)))),
        ),
        DiscordInboundCommandV::Back => (
            present_state(st),
            Ok(
                DiscordPlanV::Send(
                    answer_with(
                        "discord_back"@,
                        "Remote Codex mode is off. Cleared "@ + decimal(pending_count(st))
                            + " pending notification(s)."@,
                        "state"@,
                        present_report(pending_count(st) as u64),
                    ),
                ),
            ),
        ),
        DiscordInboundCommandV::Status => (
            st,
            Ok(DiscordPlanV::Send(plain_answer("discord_status"@, status_for_discord(status)))),
        ),
        DiscordInboundCommandV::Away => (st, Ok(DiscordPlanV::StartBackend)),
        DiscordInboundCommandV::Repair => (
            st,
            Ok(
                DiscordPlanV::Send(
                    plain_answer(
                        "discord_repair_hint"@,
                        "Use `codex-telegram-bridge remote repair` locally to repair the shared live backend."@,
                    ),
                ),
            ),
        ),
        DiscordInboundCommandV::Threads(raw) => (
            st,
            match threads_limit(raw) {
                Ok(n) => Ok(DiscordPlanV::ListThreads(n)),
                Err(e) => Err(e),
            },
        ),
        DiscordInboundCommandV::NewThread(prompt) => (st, Ok(DiscordPlanV::NewThread(prompt))),
        DiscordInboundCommandV::Project(Some(query)) => (
            st,
            Ok(DiscordPlanV::ChooseProject(query)),
        ),
        DiscordInboundCommandV::Project(None) => (st, Ok(DiscordPlanV::ShowProjects)),
        DiscordInboundCommandV::Unknown(name) => (
            st,
            Ok(
                DiscordPlanV::Send(
                    answer_with(
                        "discord_unknown_command"@,
                        "I don't know "@ + name + " yet.\n\n"@ + help_for_discord(help),
                        "command"@,
                        JsonV::Str(name),
                    ),
                ),
            ),
        ),
    }
}

/// Acts on a command, and tells what is done for it. `telegram_help` and `telegram_status`
/// are the texts for Telegram.
pub fn execute_discord_command(
    state: &mut BridgeState,
    command: DiscordInboundCommand,
    telegram_help: &str,
    telegram_status: &str,
    now: u64,
) -> (r: Result<DiscordPlan, BridgeError>)
    ensures
        (final(state)@, outcome(r)) == command_plan(
            old(state)@,
            command@,
            telegram_help@,
            telegram_status@,
            now,
        ),
{
    match command {
        DiscordInboundCommand::Start | DiscordInboundCommand::Help => Ok(
            DiscordPlan::Send(plain("discord_help", discord_help_text(telegram_help))),
        ),
        DiscordInboundCommand::Back => {
            let cleared: u64 = pending_outbound_count(state);
            let report = set_away_mode(state, false, now);
            let text = cat3(
                "Remote Codex mode is off. Cleared ",
                u64_text(cleared).as_str(),
                " pending notification(s).",
            );
            Ok(DiscordPlan::Send(telling("discord_back", text, "state", report)))
        },
        DiscordInboundCommand::Status => Ok(
            DiscordPlan::Send(plain("discord_status", discord_status_text(telegram_status))),
        ),
        DiscordInboundCommand::Away => Ok(DiscordPlan::StartBackend),
        DiscordInboundCommand::Repair => Ok(
            DiscordPlan::Send(
                plain(
                    "discord_repair_hint",
                    "Use `codex-telegram-bridge remote repair` locally to repair the shared live backend.".to_owned(),
                ),
            ),
        ),
        DiscordInboundCommand::Threads(raw) => match parse_discord_threads_limit(
            borrow_opt(&raw),
        ) {
            Ok(n) => Ok(DiscordPlan::ListThreads(n)),
            Err(e) => Err(e),
        },
        DiscordInboundCommand::NewThread(prompt) => Ok(DiscordPlan::NewThread(prompt)),
        DiscordInboundCommand::Project(query) => match query {
            Some(q) => Ok(DiscordPlan::ChooseProject(q)),
            None => Ok(DiscordPlan::ShowProjects),
        },
        DiscordInboundCommand::Unknown(name) => {
            let mut text = cat3("I don't know ", name.as_str(), " yet.\n\n");
            text.append(discord_help_text(telegram_help).as_str());
            Ok(
                DiscordPlan::Send(
                    telling("discord_unknown_command", text, "command", Json::Str(name)),
                ),
            )
        },
    }
}

/// The state once the backend of remote mode was brought up or failed to come up, and the
/// answer or the failure: away mode goes on with a backend that runs, and only then.
pub open spec fn going_away(
    st: BridgeStateV,
    backend: Result<LiveBackendStatusV, BridgeErrorV>,
    now: u64,
) -> (BridgeStateV, Result<OutgoingV, BridgeErrorV>) {
    match backend {
        Ok(_) => (
            away_state(st, now),
            Ok(
                answer_with(
                    "discord_away"@,
                    "Remote Codex mode is on."@,
                    "state"@,
                    away_report(true, Some(now), Some(decimal(now as nat))),
                ),
            ),
        ),
        Err(e) => (st, Err(e)),
    }
}

/// Goes away with what bringing the backend up gave.
pub fn discord_away(
    state: &mut BridgeState,
    backend: Result<LiveBackendStatus, BridgeError>,
    now: u64,
) -> (r: Result<Outgoing, BridgeError>)
    ensures
        (final(state)@, outcome(r)) == going_away(old(state)@, outcome(backend), now),
{
    match backend {
        Ok(_) => {
            let report = set_away_mode(state, true, now);
            Ok(
                telling(
                    "discord_away",
                    "Remote Codex mode is on.".to_owned(),
                    "state",
                    report,
                ),
            )
        },
        Err(e) => Err(e),
    }
}

/// Going away by a command asks for the backend and changes nothing before it is there. With
/// it a session starts at that moment, and without it everything stays. Coming back by a
/// command ends the session and leaves nothing to be sent.
pub proof fn commands_switch_away_mode(
    st: BridgeStateV,
    help: Seq<char>,
    status: Seq<char>,
    backend: Result<LiveBackendStatusV, BridgeErrorV>,
    now: u64,
)
    requires
        st.well_formed(),
    ensures
        command_plan(st, DiscordInboundCommandV::Away, help, status, now) == (
            st,
            Ok::<DiscordPlanV, BridgeErrorV>(DiscordPlanV::StartBackend),
        ),
        backend is Err ==> going_away(st, backend, now).0 == st,
        backend is Ok ==> ({
            let gone = going_away(st, backend, now).0;
            let back = command_plan(gone, DiscordInboundCommandV::Back, help, status, now).0;
            &&& is_away(gone)
            &&& setting_number(gone, "away_started_at"@) == Some(now)
            &&& !is_away(back)
            &&& setting(back, "away_started_at"@) is None
            &&& pending_count(back) == 0
        }),
{
    going_away_is_seen(st, now);
    away_mode_keeps_order(st, now);
    coming_back_is_seen(away_state(st, now));
    presence_leaves_nothing_pending(away_state(st, now));
}

/// The answer where no thread is known.
pub fn no_recent_threads(limit: u64) -> (r: Outgoing)
    ensures
        r@ == answer_with(
            "discord_threads_empty"@,
            "No recent Codex threads are cached yet. Open Codex locally or try again after the daemon syncs."@,
            "limit"@,
            JsonV::UInt(limit),
        ),
{
    telling(
        "discord_threads_empty",
        "No recent Codex threads are cached yet. Open Codex locally or try again after the daemon syncs.".to_owned(),
        "limit",
        Json::UInt(limit),
    )
}

/// The report of threads that were shown.
pub open spec fn threads_report(limit: u64, sent: Seq<JsonV>) -> JsonV {
    JsonV::Object(
        Seq::empty()
            .push(("ok"@, JsonV::Bool(true)))
            .push(("action"@, JsonV::Str("discord_threads"@)))
            .push(("limit"@, JsonV::UInt(limit)))
            .push(("count"@, JsonV::UInt(sent.len() as u64)))
            .push(("sent"@, JsonV::Array(sent))),
    )
}

/// The report of threads that were shown.
pub fn shown_threads_report(limit: u64, sent: Vec<Json>) -> (r: Json)
    ensures
        r@ == threads_report(limit, sent.deep_view()),
{
    let count: u64 = sent.len() as u64;
    Object::new().with("ok", Json::Bool(true)).with("action", Json::text("discord_threads")).with(
        "limit",
        Json::UInt(limit),
    ).with("count", Json::UInt(count)).with("sent", Json::array(sent)).done()
}

// ---------------------------------------------------------------------------
// Projects
// ---------------------------------------------------------------------------

/// A project with this id.
pub open spec fn project_hit(id: Seq<char>) -> spec_fn(RegisteredProjectV) -> bool {
    |p: RegisteredProjectV| p.id == id
}

/// The index of the project with this id, or the number of projects.
pub fn find_project(projects: &Vec<RegisteredProject>, id: &str) -> (p: usize)
    ensures
        p <= projects@.len(),
        p == position(projects.deep_view(), project_hit(id@), 0),
{
    let mut i: usize = 0;
    while i < projects.len()
        invariant
            i <= projects@.len(),
            position(projects.deep_view(), project_hit(id@), 0) == position(
                projects.deep_view(),
                project_hit(id@),
                i as nat,
            ),
        decreases projects@.len() - i,
    {
        assert(projects.deep_view()[i as int] == projects@[i as int]@);
        if same(projects[i].id.as_str(), id) {
            return i;
        }
        i += 1;
    }
    i
}

/// The current project of a user in a channel: the chosen one while it is registered, else
/// the only one.
pub open spec fn current_project(
    st: BridgeStateV,
    projects: Seq<RegisteredProjectV>,
    channel: Seq<char>,
    user: Option<Seq<char>>,
) -> Option<RegisteredProjectV> {
    let chosen = match setting(st, current_project_key(channel, user)) {
        Some(id) => first_row(projects, project_hit(id)),
        None => None,
    };
    match chosen {
        Some(p) => Some(p),
        None => if projects.len() == 1 {
            Some(projects[0])
        } else {
            None
        },
    }
}

/// The current project of a user in a channel.
pub fn current_project_for_identity(
    config: &DaemonConfig,
    state: &BridgeState,
    channel_id: &str,
    user_id: Option<&str>,
) -> (r: Option<RegisteredProject>)
    ensures
        r.deep_view() == current_project(
            state@,
            config@.projects,
            channel_id@,
            user_id.deep_view(),
        ),
{
    match get_telegram_current_project_id(state, channel_id, user_id) {
        Some(id) => {
            let i: usize = find_project(&config.projects, id.as_str());
            if i < config.projects.len() {
                assert(config@.projects[i as int] == config.projects@[i as int]@);
                return Some(config.projects[i].clone());
            }
        },
        None => {},
    }
    if config.projects.len() == 1 {
        assert(config@.projects[0] == config.projects@[0]@);
        Some(config.projects[0].clone())
    } else {
        None
    }
}

/// A project that was chosen is the current one, for that user in that channel, while it is
/// registered.
pub proof fn chosen_projects_are_current(
    st: BridgeStateV,
    projects: Seq<RegisteredProjectV>,
    channel: Seq<char>,
    user: Option<Seq<char>>,
    id: Seq<char>,
)
    requires
        st.well_formed(),
        first_row(projects, project_hit(id)) is Some,
    ensures
        current_project(
            with_setting(st, current_project_key(channel, user), id),
            projects,
            channel,
            user,
        ) == first_row(projects, project_hit(id)),
{
    setting_after_set(
        st,
        current_project_key(channel, user),
        id,
        current_project_key(channel, user),
    );
}

/// The project of an answered question: the one that it was asked for, else the current one.
pub open spec fn prompt_project(
    projects: Seq<RegisteredProjectV>,
    current: Option<RegisteredProjectV>,
    project_id: Option<Seq<char>>,
) -> Option<RegisteredProjectV> {
    match project_id {
        Some(id) => first_row(projects, project_hit(id)),
        None => current,
    }
}

/// The project of an answered question.
pub fn choose_prompt_project(
    config: &DaemonConfig,
    current: Option<RegisteredProject>,
    project_id: Option<&str>,
) -> (r: Option<RegisteredProject>)
    ensures
        r.deep_view() == prompt_project(
            config@.projects,
            current.deep_view(),
            project_id.deep_view(),
        ),
{
    match project_id {
        Some(id) => {
            let i: usize = find_project(&config.projects, id);
            if i < config.projects.len() {
                assert(config@.projects[i as int] == config.projects@[i as int]@);
                Some(config.projects[i].clone())
            } else {
                None
            }
        },
        None => current,
    }
}

/// Two paragraphs.
pub open spec fn paragraphs(first: Seq<char>, second: Seq<char>) -> Seq<char> {
    first + "\n\n"@ + second
}

/// The answer where no project was found for a new thread.
pub fn new_thread_needs_project(error: &str, projects_text: &str) -> (r: Outgoing)
    ensures
        r@ == plain_answer(
            "discord_new_thread_needs_project"@,
            paragraphs(error@, projects_text@),
        ),
{
    plain("discord_new_thread_needs_project", cat3(error, "\n\n", projects_text))
}

/// The answer where no project was found to choose.
pub fn project_not_found(error: &str, projects_text: &str) -> (r: Outgoing)
    ensures
        r@ == plain_answer("discord_project_not_found"@, paragraphs(error@, projects_text@)),
{
    plain("discord_project_not_found", cat3(error, "\n\n", projects_text))
}

/// The answer that shows the projects.
pub fn projects_shown(projects_text: &str) -> (r: Outgoing)
    ensures
        r@ == plain_answer("discord_project"@, projects_text@),
{
    plain("discord_project", projects_text.to_owned())
}

/// Chooses the current project of a user, and answers.
pub fn choose_discord_project(
    state: &mut BridgeState,
    discord: &DiscordConfig,
    user_id: Option<&str>,
    project: &RegisteredProject,
    telegram_text: &str,
) -> (r: Outgoing)
    ensures
        final(state)@ == with_setting(
            old(state)@,
            current_project_key(discord@.channel_id, user_id.deep_view()),
            project@.id,
        ),
        r@ == answer_with(
            "discord_project_set"@,
            replaced(telegram_text@, "Telegram threads"@, "Discord threads"@),
            "projectId"@,
            JsonV::Str(project@.id),
        ),
{
    proof {
        reveal_strlit("Telegram threads");
    }
    set_telegram_current_project_id(
        state,
        discord.channel_id.as_str(),
        user_id,
        project.id.as_str(),
    );
    telling(
        "discord_project_set",
        replace(telegram_text, "Telegram threads", "Discord threads"),
        "projectId",
        Json::Str(project.id.clone()),
    )
}

/// What is done for an answered question.
#[derive(Debug, PartialEq, Eq)]
pub enum PromptReplyPlan {
    /// A thread is started with this prompt, and the question is used.
    Start(RegisteredProject, String),
    /// A message is sent, and the question is used.
    Send(Outgoing),
}

/// Decides what is done for an answered question: a thread starts in the project that it was
/// asked for, else in the current one; where there is none, the projects are shown.
pub fn execute_discord_command_prompt_reply(
    config: &DaemonConfig,
    current: Option<RegisteredProject>,
    project_id: Option<&str>,
    message: String,
    projects_text: &str,
) -> (r: PromptReplyPlan)
    ensures
        match prompt_project(config@.projects, current.deep_view(), project_id.deep_view()) {
            Some(p) => r matches PromptReplyPlan::Start(project, prompt) && project@ == p
                && prompt@ == message@,
            None => r matches PromptReplyPlan::Send(outgoing) && outgoing@ == plain_answer(
                "discord_new_thread_prompt_needs_project"@,
                paragraphs(
                    "No project is selected for that prompt. Use /project <id> first, then try /new again."@,
                    projects_text@,
                ),
            ),
        },
{
    match choose_prompt_project(config, current, project_id) {
        Some(project) => PromptReplyPlan::Start(project, message),
        None => PromptReplyPlan::Send(
            plain(
                "discord_new_thread_prompt_needs_project",
                cat3(
                    "No project is selected for that prompt. Use /project <id> first, then try /new again.",
                    "\n\n",
                    projects_text,
                ),
            ),
        ),
    }
}

// ---------------------------------------------------------------------------
// New threads and replies
// ---------------------------------------------------------------------------

/// How Codex is reached.
pub open spec fn transport_json(transport: Seq<char>, pid: Option<u32>) -> JsonV {
    JsonV::Object(
        Seq::empty()
            .push(("transport"@, JsonV::Str(transport)))
            .push(
                ("appServerPid"@, match pid {
                    Some(p) => JsonV::UInt(p as u64),
                    None => JsonV::Null,
                }),
            ),
    )
}

/// How Codex is reached.
fn transport_of(transport: &str, pid: Option<u32>) -> (r: Json)
    ensures
        r@ == transport_json(transport@, pid),
{
    let number: Json = match pid {
        Some(p) => Json::UInt(p as u64),
        None => Json::Null,
    };
    Object::new().with("transport", Json::text(transport)).with("appServerPid", number).done()
}

/// The question for the prompt of a new thread.
pub open spec fn new_thread_question(p: RegisteredProjectV) -> Seq<char> {
    "What should Codex work on in "@ + p.label + "?\n"@ + p.cwd
        + "\n\nUse Discord's Reply action on this message with the prompt for the new thread."@
}

/// The question for the prompt of a new thread.
pub fn new_thread_prompt_text(project: &RegisteredProject) -> (r: String)
    ensures
        r@ == new_thread_question(project@),
{
    let mut text = cat3("What should Codex work on in ", project.label.as_str(), "?\n");
    text.append(project.cwd.as_str());
    text.append(
        "\n\nUse Discord's Reply action on this message with the prompt for the new thread.",
    );
    text
}

/// What is done for a new thread.
#[derive(Debug, PartialEq, Eq)]
pub enum NewThreadPlan {
    /// The thread is started with this prompt.
    Start(RegisteredProject, String),
    /// The prompt is asked for with this text.
    Ask(RegisteredProject, String),
    /// A message is sent.
    Send(Outgoing),
}

/// Decides what is done for a new thread: in the project that was found it starts with the
/// prompt that was given, else the prompt is asked for; where no project was found, the
/// projects are shown.
pub fn plan_new_thread(
    found: Result<RegisteredProject, BridgeError>,
    prompt: Option<String>,
    projects_text: &str,
) -> (r: NewThreadPlan)
    ensures
        match (found, prompt) {
            (Ok(p), Some(text)) => r matches NewThreadPlan::Start(project, message) && project@
                == p@ && message@ == text@,
            (Ok(p), None) => r matches NewThreadPlan::Ask(project, question) && project@ == p@
                && question@ == new_thread_question(p@),
            (Err(e), _) => r matches NewThreadPlan::Send(outgoing) && outgoing@ == plain_answer(
                "discord_new_thread_needs_project"@,
                paragraphs(e@.message, projects_text@),
            ),
        },
{
    match found {
        Ok(project) => match prompt {
            Some(text) => NewThreadPlan::Start(project, text),
            None => {
                let question = new_thread_prompt_text(&project);
                NewThreadPlan::Ask(project, question)
            },
        },
        Err(e) => NewThreadPlan::Send(
            new_thread_needs_project(e.message.as_str(), projects_text),
        ),
    }
}

/// What a question remembers of its project.
pub open spec fn question_payload(p: RegisteredProjectV) -> JsonV {
    JsonV::Object(
        Seq::empty()
            .push(("projectId"@, JsonV::Str(p.id))),
    )
}

/// Remembers the question that was sent for a new thread, and reports it. A response
/// without an id is a failure.
pub fn send_new_thread_prompt_for_project(
    state: &mut BridgeState,
    discord: &DiscordConfig,
    project: &RegisteredProject,
    sent: &Json,
    now: u64,
) -> (r: Result<Json, BridgeError>)
    ensures
        match (message_id(sent@), r) {
            (None, Err(e)) => e@ == failure("Discord prompt missing id"@) && final(state)@ == old(state)@,
            (Some(id), Ok(report)) => {
                &&& now <= i64::MAX
                &&& final(state)@ == with_command_route(
                    old(state)@,
                    CommandRouteRowV {
                        chat_id: discord@.channel_id,
                        message_id: id,
                        command: "new_thread"@,
                        payload: Some(question_payload(project@)),
                        created_at: now as i64,
                        used_at: None,
                    },
                )
                &&& report@ == prompt_report(project@.id, id)
            },
            (Some(_), Err(e)) => now > i64::MAX && e@ == out_of_range() && final(state)@ == old(state)@,
            _ => false,
        },
{
    let id: i64 = match discord_message_id(sent) {
        Some(v) => v,
        None => {
            return Err(BridgeError::new("Discord prompt missing id"));
        },
    };
    let payload = Object::new().with("projectId", Json::Str(project.id.clone())).done();
    match insert_telegram_command_route(
        state,
        discord.channel_id.as_str(),
        id,
        TelegramCommandRouteKind::NewThread,
        Some(payload),
        now,
    ) {
        Ok(_) => {},
        Err(e) => {
            return Err(e);
        },
    }
    Ok(
        Object::new().with("ok", Json::Bool(true)).with(
            "action",
            Json::text("discord_new_thread_prompt"),
        ).with("projectId", Json::Str(project.id.clone())).with(
            "messageId",
            Json::signed(id),
        ).done(),
    )
}

/// The report of a question for a new thread.
pub open spec fn prompt_report(project_id: Seq<char>, id: i64) -> JsonV {
    JsonV::Object(
        Seq::empty()
            .push(("ok"@, JsonV::Bool(true)))
            .push(("action"@, JsonV::Str("discord_new_thread_prompt"@)))
            .push(("projectId"@, JsonV::Str(project_id)))
            .push(("messageId"@, int_json(id))),
    )
}

/// A question that was sent for a project leads its answer to a new thread of that project.
pub proof fn answers_reach_their_project(
    st: BridgeStateV,
    p: RegisteredProjectV,
    channel: Seq<char>,
    id: i64,
    now: i64,
)
    requires
        st.well_formed(),
    ensures
        ({
            let row = CommandRouteRowV {
                chat_id: channel,
                message_id: id,
                command: "new_thread"@,
                payload: Some(question_payload(p)),
                created_at: now,
                used_at: None,
            };
            &&& command_route(with_command_route(st, row), channel, id) == Some(
                (TelegramCommandRouteKind::NewThread, Some(question_payload(p))),
            )
            &&& text_member(question_payload(p), "projectId"@) == Some(p.id)
        }),
{
    let row = CommandRouteRowV {
        chat_id: channel,
        message_id: id,
        command: "new_thread"@,
        payload: Some(question_payload(p)),
        created_at: now,
        used_at: None,
    };
    put_keeps_keys(st.command_routes, command_route_row_key(), row);
    reveal_with_fuel(lookup_from, 2);
}

/// What the log says of a thread that was started from Discord.
pub open spec fn new_thread_log(
    p: RegisteredProjectV,
    message: Seq<char>,
    result: JsonV,
    now: u64,
) -> JsonV {
    JsonV::Object(
        Seq::empty()
            .push(("projectId"@, JsonV::Str(p.id)))
            .push(("projectLabel"@, JsonV::Str(p.label)))
            .push(("cwd"@, JsonV::Str(p.cwd)))
            .push(("message"@, JsonV::Str(message)))
            .push(("result"@, result))
            .push(("sentAt"@, JsonV::UInt(now))),
    )
}

/// The failure of a thread that was started without an id.
pub open spec fn no_thread_id() -> BridgeErrorV {
    failure("Codex app-server thread/start response missing thread.id"@)
}

/// Logs a thread that was started from Discord, and gives the result with how Codex was
/// reached. A result without a thread is a failure.
pub fn start_new_thread_from_discord(
    state: &mut BridgeState,
    project: &RegisteredProject,
    message: &str,
    result: Json,
    transport: &str,
    app_server_pid: Option<u32>,
    now: u64,
) -> (r: Result<Json, BridgeError>)
    ensures
        ({
            let whole = set_member(
                result@,
                "codex"@,
                transport_json(transport@, app_server_pid),
            );
            match (text_member(whole, "threadId"@), r) {
                (None, Err(e)) => e@ == no_thread_id() && final(state)@ == old(state)@,
                (Some(id), Ok(told)) => {
                    &&& now <= i64::MAX
                    &&& told@ == whole
                    &&& final(state)@ == with_action(
                        old(state)@,
                        id,
                        "discord_new_thread"@,
                        new_thread_log(project@, message@, whole, now),
                        now as i64,
                    )
                },
                (Some(_), Err(e)) => now > i64::MAX && e@ == out_of_range() && final(state)@
                    == old(state)@,
                _ => false,
            }
        }),
{
    let mut whole = result;
    whole.set("codex", transport_of(transport, app_server_pid));
    let thread_id: String = match whole.text_of_member("threadId") {
        Some(id) => id,
        None => {
            return Err(
                BridgeError::new("Codex app-server thread/start response missing thread.id"),
            );
        },
    };
    let payload = Object::new().with("projectId", Json::Str(project.id.clone())).with(
        "projectLabel",
        Json::Str(project.label.clone()),
    ).with("cwd", Json::Str(project.cwd.clone())).with("message", Json::text(message)).with(
        "result",
        whole.clone(),
    ).with("sentAt", Json::UInt(now)).done();
    match record_action(state, thread_id.as_str(), "discord_new_thread", payload, now) {
        Ok(_) => Ok(whole),
        Err(e) => Err(e),
    }
}

/// The confirmation of a new thread for Discord.
pub fn new_thread_confirmation_text(telegram_text: &str) -> (r: String)
    ensures
        r@ == replaced(telegram_text@, "Telegram's Reply action"@, "Discord's Reply action"@),
{
    proof {
        reveal_strlit("Telegram's Reply action");
    }
    replace(telegram_text, "Telegram's Reply action", "Discord's Reply action")
}

/// The report of a confirmation.
pub open spec fn confirmation_report(thread_id: Seq<char>, id: i64) -> JsonV {
    JsonV::Object(
        Seq::empty()
            .push(("ok"@, JsonV::Bool(true)))
            .push(("action"@, JsonV::Str("discord_new_thread_confirmation"@)))
            .push(("threadId"@, JsonV::Str(thread_id)))
            .push(("messageId"@, int_json(id))),
    )
}

/// Remembers the confirmation that was sent for a new thread, and reports it: a reply to it
/// goes to that thread.
pub fn send_new_thread_confirmation(
    state: &mut BridgeState,
    discord: &DiscordConfig,
    result: &Json,
    sent: &Json,
    now: u64,
) -> (r: Result<Json, BridgeError>)
    ensures
        match (text_member(result@, "threadId"@), message_id(sent@), r) {
            (None, _, Err(e)) => e@ == failure("new thread result missing threadId"@) && final(state)@ == old(state)@,
            (Some(_), None, Err(e)) => e@ == failure("Discord confirmation missing id"@) && final(state)@ == old(state)@,
            (Some(thread_id), Some(id), Ok(report)) => {
                &&& now <= i64::MAX
                &&& report@ == confirmation_report(thread_id, id)
                &&& final(state)@ == with_message_route(
                    old(state)@,
                    MessageRouteRowV {
                        chat_id: discord@.channel_id,
                        message_id: id,
                        thread_id,
                        event_id: "discord_new_thread:"@ + thread_id,
                        created_at: now as i64,
                    },
                )
            },
            (Some(_), Some(_), Err(e)) => now > i64::MAX && e@ == out_of_range() && final(state)@
                == old(state)@,
            _ => false,
        },
{
    let thread_id: String = match result.text_of_member("threadId") {
        Some(id) => id,
        None => {
            return Err(BridgeError::new("new thread result missing threadId"));
        },
    };
    let id: i64 = match discord_message_id(sent) {
        Some(v) => v,
        None => {
            return Err(BridgeError::new("Discord confirmation missing id"));
        },
    };
    match insert_telegram_message_route(
        state,
        discord.channel_id.as_str(),
        id,
        thread_id.as_str(),
        cat("discord_new_thread:", thread_id.as_str()).as_str(),
        now,
    ) {
        Ok(_) => {},
        Err(e) => {
            return Err(e);
        },
    }
    Ok(
        Object::new().with("ok", Json::Bool(true)).with(
            "action",
            Json::text("discord_new_thread_confirmation"),
        ).with("threadId", Json::Str(thread_id)).with("messageId", Json::signed(id)).done(),
    )
}

/// The report of a new thread.
pub open spec fn started_report(
    action: Seq<char>,
    project_id: Seq<char>,
    result: JsonV,
    confirmation: JsonV,
) -> JsonV {
    JsonV::Object(
        Seq::empty()
            .push(("ok"@, JsonV::Bool(true)))
            .push(("action"@, JsonV::Str(action)))
            .push(("projectId"@, JsonV::Str(project_id)))
            .push(("result"@, result))
            .push(("confirmation"@, confirmation)),
    )
}

/// The report of a new thread, started by a command or by an answered question.
pub fn new_thread_report(
    answered: bool,
    project: &RegisteredProject,
    result: Json,
    confirmation: Json,
) -> (r: Json)
    ensures
        r@ == started_report(
            if answered {
                "discord_new_thread_prompt_reply"@
            } else {
                "discord_new_thread"@
            },
            project@.id,
            result@,
            confirmation@,
        ),
{
    let action: &str = if answered {
        "discord_new_thread_prompt_reply"
    } else {
        "discord_new_thread"
    };
    Object::new().with("ok", Json::Bool(true)).with("action", Json::text(action)).with(
        "projectId",
        Json::Str(project.id.clone()),
    ).with("result", result).with("confirmation", confirmation).done()
}

/// The report of a reply that went to a thread.
pub open spec fn discord_reply_report(
    thread_id: Seq<char>,
    message: Seq<char>,
    transport: JsonV,
    started: JsonV,
    now: u64,
) -> JsonV {
    JsonV::Object(
        Seq::empty()
            .push(("ok"@, JsonV::Bool(true)))
            .push(("action"@, JsonV::Str("discord_reply"@)))
            .push(("threadId"@, JsonV::Str(thread_id)))
            .push(("message"@, JsonV::Str(message)))
            .push(("codex"@, transport))
            .push(
                ("delivery"@, JsonV::Object(
                    Seq::empty()
                        .push(("mode"@, JsonV::Str("daemon_sync"@)))
                        .push(("status"@, JsonV::Str("turn_started"@)))
                        .push(
                            ("startedTurnId"@, text_or_null(
                                text_value(opt_member(member(started, "turn"@), "id"@)),
                            )),
                        ),
                )),
            )
            .push(("sentAt"@, JsonV::UInt(now))),
    )
}

/// Logs a reply that went to a thread, and reports it.
pub fn send_codex_reply_to_thread(
    state: &mut BridgeState,
    thread_id: &str,
    message: &str,
    resumed: &Json,
    started: &Json,
    transport: &str,
    app_server_pid: Option<u32>,
    now: u64,
) -> (r: Result<Json, BridgeError>)
    ensures
        match r {
            Ok(report) => {
                &&& now <= i64::MAX
                &&& final(state)@ == with_action(
                    old(state)@,
                    thread_id@,
                    "discord_reply"@,
                    reply_log(message@, resumed@, started@, now),
                    now as i64,
                )
                &&& report@ == discord_reply_report(
                    thread_id@,
                    message@,
                    transport_json(transport@, app_server_pid),
                    started@,
                    now,
                )
            },
            Err(e) => now > i64::MAX && e@ == out_of_range() && final(state)@ == old(state)@,
        },
{
    let turn_id: Option<String> = match started.get("turn") {
        Some(turn) => turn.text_of_member("id"),
        None => None,
    };
    let payload = reply_log_payload(message, resumed, started, now);
    match record_action(state, thread_id, "discord_reply", payload, now) {
        Ok(_) => {},
        Err(e) => {
            return Err(e);
        },
    }
    let delivery = Object::new().with("mode", Json::text("daemon_sync")).with(
        "status",
        Json::text("turn_started"),
    ).with("startedTurnId", Json::opt_text(&turn_id)).done();
    Ok(
        Object::new().with("ok", Json::Bool(true)).with("action", Json::text("discord_reply")).with(
            "threadId",
            Json::text(thread_id),
        ).with("message", Json::text(message)).with(
            "codex",
            transport_of(transport, app_server_pid),
        ).with("delivery", delivery).with("sentAt", Json::UInt(now)).done(),
    )
}

// ---------------------------------------------------------------------------
// Deliveries
// ---------------------------------------------------------------------------

/// The state, or the failure, once a part of a notification was sent: a reply to it goes to
/// the thread of the notification.
pub open spec fn part_sent(
    st: BridgeStateV,
    channel: Seq<char>,
    thread_id: Option<Seq<char>>,
    event_id: Seq<char>,
    response: JsonV,
    now: u64,
) -> Result<(BridgeStateV, i64), BridgeErrorV> {
    match message_id(response) {
        None => Err(failure("Discord create message response missing id"@)),
        Some(id) => match thread_id {
            None => Ok((st, id)),
            Some(t) => if now <= i64::MAX {
                Ok(
                    (
                        with_message_route(
                            st,
                            MessageRouteRowV {
                                chat_id: channel,
                                message_id: id,
                                thread_id: t,
                                event_id,
                                created_at: now as i64,
                            },
                        ),
                        id,
                    ),
                )
            } else {
                Err(out_of_range())
            },
        },
    }
}

/// Remembers a part of a notification that was sent.
pub fn note_discord_part(
    state: &mut BridgeState,
    discord: &DiscordConfig,
    thread_id: Option<&str>,
    event_id: &str,
    response: &Json,
    now: u64,
) -> (r: Result<i64, BridgeError>)
    ensures
        match part_sent(
            old(state)@,
            discord@.channel_id,
            thread_id.deep_view(),
            event_id@,
            response@,
            now,
        ) {
            Ok((after, id)) => r == Ok::<i64, BridgeError>(id) && final(state)@ == after,
            Err(e) => r is Err && r->Err_0@ == e && final(state)@ == old(state)@,
        },
{
    let id: i64 = match discord_message_id(response) {
        Some(v) => v,
        None => {
            return Err(BridgeError::new("Discord create message response missing id"));
        },
    };
    match thread_id {
        Some(t) => match insert_telegram_message_route(
            state,
            discord.channel_id.as_str(),
            id,
            t,
            event_id,
            now,
        ) {
            Ok(_) => Ok(id),
            Err(e) => Err(e),
        },
        None => Ok(id),
    }
}

/// Ids as JSON.
pub open spec fn ids_json(ids: Seq<i64>) -> JsonV {
    JsonV::Array(ids.map_values(|id: i64| int_json(id)))
}

/// The report of a notification that was sent in parts.
pub open spec fn delivery_report(ids: Seq<i64>, thread_id: Option<Seq<char>>) -> JsonV {
    JsonV::Object(
        Seq::empty()
            .push(("ok"@, JsonV::Bool(true)))
            .push(("transport"@, JsonV::Str("discord"@)))
            .push(("messageId"@, int_json(ids[0])))
            .push(("messageIds"@, ids_json(ids)))
            .push(("chunks"@, JsonV::UInt(ids.len() as u64)))
            .push(("threadId"@, text_or_null(thread_id))),
    )
}

/// Ends a notification: the typing indicator of its thread goes, and the parts are reported.
/// A notification without parts is a failure.
pub fn deliver_prepared_discord_delivery(
    state: &mut BridgeState,
    discord: &DiscordConfig,
    thread_id: Option<&str>,
    message_ids: &Vec<i64>,
) -> (r: Result<Json, BridgeError>)
    ensures
        match r {
            Ok(report) => {
                &&& message_ids@.len() > 0
                &&& report@ == delivery_report(message_ids@, thread_id.deep_view())
                &&& final(state)@ == (match thread_id.deep_view() {
                    Some(t) => without_setting(
                        old(state)@,
                        typing_key(discord@.channel_id, t),
                    ),
                    None => old(state)@,
                })
            },
            Err(e) => message_ids@.len() == 0 && e@ == failure(
                "Discord delivery did not send any messages"@,
            ) && final(state)@ == old(state)@,
        },
{
    if message_ids.len() == 0 {
        return Err(BridgeError::new("Discord delivery did not send any messages"));
    }
    match thread_id {
        Some(t) => {
            clear_discord_typing_indicator(state, discord, t);
        },
        None => {},
    }
    let mut ids: Vec<Json> = Vec::new();
    let mut i: usize = 0;
    while i < message_ids.len()
        invariant
            i <= message_ids@.len(),
            ids@.len() == i,
            forall|k: int| 0 <= k < i ==> (#[trigger] ids@[k])@ == int_json(message_ids@[k]),
        decreases message_ids@.len() - i,
    {
        ids.push(Json::signed(message_ids[i]));
        i += 1;
    }
    assert(ids.deep_view() =~= message_ids@.map_values(|id: i64| int_json(id)));
    let count: u64 = message_ids.len() as u64;
    Ok(
        Object::new().with("ok", Json::Bool(true)).with("transport", Json::text("discord")).with(
            "messageId",
            Json::signed(message_ids[0]),
        ).with("messageIds", Json::array(ids)).with("chunks", Json::UInt(count)).with(
            "threadId",
            Json::opt_str(thread_id),
        ).done(),
    )
}

/// What was delivered to one channel.
pub fn channel_delivery(channel_id: &str, result: Json) -> (r: Json)
    ensures
        r@ == JsonV::Object(
            Seq::empty()
                .push(("channelId"@, JsonV::Str(channel_id@)))
                .push(("result"@, result@)),
        ),
{
    Object::new().with("channelId", Json::text(channel_id)).with("result", result).done()
}

// ---------------------------------------------------------------------------
// Setup and switches
// ---------------------------------------------------------------------------

/// A Discord setup that was checked: the new configuration and its Discord part.
#[derive(Debug, PartialEq, Eq)]
pub struct DiscordSetup {
    pub config: DaemonConfig,
    pub discord: DiscordConfig,
}

/// The model of [`DiscordSetup`].
#[verifier::ext_equal]
pub struct DiscordSetupV {
    pub config: DaemonConfigV,
    pub discord: DiscordConfigV,
}

impl View for DiscordSetup {
    type V = DiscordSetupV;

    open spec fn view(&self) -> DiscordSetupV {
        DiscordSetupV {
            config: self.config@,
            discord: self.discord@,
        }
    }
}

impl DeepView for DiscordSetup {
    type V = DiscordSetupV;

    open spec fn deep_view(&self) -> DiscordSetupV {
        self@
    }
}

/// The channels of a setup: trimmed, without blanks, each once.
pub open spec fn setup_channels(channel_ids: Seq<Seq<char>>) -> Seq<Seq<char>> {
    let kept = kept_parts(channel_ids, channel_ids.len());
    each_once(kept, kept.len())
}

/// The configuration that a setup makes. Telegram and the projects stay as they were.
pub open spec fn setup_config(
    token: Seq<char>,
    channels: Seq<Seq<char>>,
    allowed_user: Option<Seq<char>>,
    events: Seq<char>,
    bridge_command: Seq<char>,
    url: Seq<char>,
    existing: Option<DaemonConfigV>,
) -> DaemonConfigV {
    DaemonConfigV {
        version: 4,
        bridge_command,
        events,
        telegram: match existing {
            Some(c) => c.telegram,
            None => None,
        },
        discord: Some(
            DiscordConfigV {
                bot_token: token,
                channel_id: channels[0],
                channel_ids: channels,
                allowed_user_id: non_blank(allowed_user),
                enabled: true,
            },
        ),
        codex: Some(CodexConfigV { live_mode: CodexLiveMode::Shared, websocket_url: url }),
        projects: match existing {
            Some(c) => c.projects,
            None => Seq::empty(),
        },
    }
}

/// What comes of a setup, given what parsing its URL gives.
pub open spec fn setup_outcome(
    token: Seq<char>,
    channel_ids: Seq<Seq<char>>,
    allowed_user: Option<Seq<char>>,
    events: Seq<char>,
    bridge_command: Seq<char>,
    url: Seq<char>,
    existing: Option<DaemonConfigV>,
    parsed: Result<UrlPartsV, Seq<char>>,
) -> Result<DiscordSetupV, BridgeErrorV> {
    let channels = setup_channels(channel_ids);
    if channels.len() == 0 {
        Err(failure("discord setup channel ids cannot be empty"@))
    } else if trimmed(events).len() == 0 {
        Err(failure("discord setup events cannot be empty"@))
    } else if trimmed(bridge_command).len() == 0 {
        Err(failure("discord setup bridge command cannot be empty"@))
    } else {
        match shared_url(trimmed(url), parsed) {
            Err(e) => Err(in_context("discord setup websocket url is invalid"@, e)),
            Ok(_) => {
                let config = setup_config(
                    token,
                    channels,
                    allowed_user,
                    trimmed(events),
                    trimmed(bridge_command),
                    trimmed(url),
                    existing,
                );
                Ok(DiscordSetupV { config, discord: config.discord->0 })
            },
        }
    }
}

/// The trimmed texts that are not blank, each once.
fn clean_channels(channel_ids: &Vec<String>) -> (r: Vec<String>)
    ensures
        r.deep_view() == setup_channels(channel_ids.deep_view()),
{
    let ghost all = channel_ids.deep_view();
    let mut kept: Vec<String> = Vec::new();
    let mut i: usize = 0;
    assert(kept.deep_view() =~= Seq::<Seq<char>>::empty());
    while i < channel_ids.len()
        invariant
            i <= channel_ids@.len(),
            all == channel_ids.deep_view(),
            kept.deep_view() == kept_parts(all, i as nat),
        decreases channel_ids@.len() - i,
    {
        assert(all[i as int] == channel_ids@[i as int]@);
        match trimmed_non_blank(Some(channel_ids[i].as_str())) {
            Some(part) => {
                let ghost before = kept.deep_view();
                kept.push(part);
                assert(kept.deep_view() =~= before.push(part@));
            },
            None => {},
        }
        i += 1;
    }
    without_repeats(&kept)
}

/// Checks a Discord setup, and makes the new configuration.
pub fn discord_setup(
    bot_token: &str,
    channel_ids: &Vec<String>,
    allowed_user_id: Option<&str>,
    events: &str,
    bridge_command: &str,
    websocket_url: &str,
    existing: &Option<DaemonConfig>,
) -> (r: Result<DiscordSetup, BridgeError>)
    ensures
        outcome(r) == setup_outcome(
            bot_token@,
            channel_ids.deep_view(),
            allowed_user_id.deep_view(),
            events@,
            bridge_command@,
            websocket_url@,
            existing.deep_view(),
            parts_of(url_of(trimmed(websocket_url@))),
        ),
{
    let channels = clean_channels(channel_ids);
    let kinds = trim(events);
    let command = trim(bridge_command);
    let url = trim(websocket_url);
    if channels.len() == 0 {
        return Err(BridgeError::new("discord setup channel ids cannot be empty"));
    }
    if kinds.as_str().is_empty() {
        return Err(BridgeError::new("discord setup events cannot be empty"));
    }
    if command.as_str().is_empty() {
        return Err(BridgeError::new("discord setup bridge command cannot be empty"));
    }
    match validate_shared_websocket_url(url.as_str()) {
        Ok(_) => {},
        Err(e) => {
            return Err(e.context("discord setup websocket url is invalid"));
        },
    }
    let ghost listed = channels.deep_view();
    assert(listed[0] == channels@[0]@);
    let discord = DiscordConfig {
        bot_token: bot_token.to_owned(),
        channel_id: channels[0].clone(),
        channel_ids: copy_texts(&channels),
        allowed_user_id: trimmed_non_blank(allowed_user_id),
        enabled: true,
    };
    let telegram: Option<TelegramConfig> = match existing {
        Some(c) => match &c.telegram {
            Some(t) => Some(t.clone()),
            None => None,
        },
        None => None,
    };
    let projects: Vec<RegisteredProject> = match existing {
        Some(c) => copy_registered_projects(&c.projects),
        None => {
            let none: Vec<RegisteredProject> = Vec::new();
            assert(none.deep_view() =~= Seq::<RegisteredProjectV>::empty());
            none
        },
    };
    let config = DaemonConfig {
        version: 4,
        bridge_command: command,
        events: kinds,
        telegram,
        discord: Some(discord.clone()),
        codex: Some(CodexConfig { live_mode: CodexLiveMode::Shared, websocket_url: url }),
        projects,
    };
    Ok(DiscordSetup { config, discord })
}

/// The Discord part of a setup as it is reported.
pub open spec fn setup_discord_members(d: DiscordConfigV) -> Members {
    Seq::empty().push(("configured"@, JsonV::Bool(true))).push(
        ("botToken"@, JsonV::Str("<redacted>"@)),
    ).push(("channelId"@, JsonV::Str(d.channel_id))).push(
        ("channelIds"@, text_array(d.channel_ids)),
    ).push(("allowedUserId"@, text_or_null(d.allowed_user_id)))
}

/// The report of a setup: of one that only shows what it would do, or of one that was done
/// with a test message to each channel.
pub open spec fn setup_report(
    s: DiscordSetupV,
    config_path: Seq<char>,
    tests: Option<Seq<JsonV>>,
) -> JsonV {
    let head = Seq::empty().push(("ok"@, JsonV::Bool(true))).push(
        ("action"@, JsonV::Str("discord_setup"@)),
    ).push(("dryRun"@, JsonV::Bool(tests is None))).push(
        ("configPath"@, JsonV::Str(config_path)),
    );
    let discord = match tests {
        Some(t) => setup_discord_members(s.discord).push(("tests"@, JsonV::Array(t))),
        None => setup_discord_members(s.discord),
    };
    let body = head.push(("discord"@, JsonV::Object(discord))).push(
        ("config"@, redacted_config(s.config)),
    ).push(("daemonCommand"@, JsonV::Str(daemon_command(s.config.bridge_command))));
    JsonV::Object(
        match tests {
            Some(_) => body.push(
                (
                    "nextStep"@,
                    JsonV::Str(
                        "Install and start the daemon. Use /away in Discord before leaving; replies and new threads use the shared Codex live backend."@,
                    ),
                ),
            ),
            None => body,
        },
    )
}

/// The report of a setup. `tests` are the test messages of a setup that was done; without
/// them it only shows what it would do.
pub fn discord_setup_result(
    setup: &DiscordSetup,
    config_path: &str,
    tests: Option<Vec<Json>>,
) -> (r: Json)
    ensures
        r@ == setup_report(setup@, config_path@, tests.deep_view()),
{
    let dry_run: bool = tests.is_none();
    let done: bool = tests.is_some();
    let head = Object::new().with("ok", Json::Bool(true)).with(
        "action",
        Json::text("discord_setup"),
    ).with("dryRun", Json::Bool(dry_run)).with("configPath", Json::text(config_path));
    let base = Object::new().with("configured", Json::Bool(true)).with(
        "botToken",
        Json::text("<redacted>"),
    ).with("channelId", Json::Str(setup.discord.channel_id.clone())).with(
        "channelIds",
        Json::texts(&setup.discord.channel_ids),
    ).with("allowedUserId", Json::opt_text(&setup.discord.allowed_user_id));
    let discord = match tests {
        Some(t) => base.with("tests", Json::array(t)),
        None => base,
    };
    let body = head.with("discord", discord.done()).with(
        "config",
        redacted_daemon_config(&setup.config),
    ).with(
        "daemonCommand",
        Json::Str(daemon_run_command(setup.config.bridge_command.as_str())),
    );
    if done {
        body.with(
            "nextStep",
            Json::text(
                "Install and start the daemon. Use /away in Discord before leaving; replies and new threads use the shared Codex live backend.",
            ),
        ).done()
    } else {
        body.done()
    }
}

/// The test message of a channel as it is reported.
pub fn discord_setup_test(channel_id: &str, response: &Json) -> (r: Json)
    ensures
        r@ == JsonV::Object(
            Seq::empty()
                .push(("channelId"@, JsonV::Str(channel_id@)))
                .push(("testMessageId"@, or_null(member(response@, "id"@)))),
        ),
{
    Object::new().with("channelId", Json::text(channel_id)).with(
        "testMessageId",
        response.get_or_null("id"),
    ).done()
}

/// What a setup reports does not depend on the bot token.
pub proof fn setup_reports_hide_tokens(
    token: Seq<char>,
    other: Seq<char>,
    channel_ids: Seq<Seq<char>>,
    allowed_user: Option<Seq<char>>,
    events: Seq<char>,
    bridge_command: Seq<char>,
    url: Seq<char>,
    existing: Option<DaemonConfigV>,
    parsed: Result<UrlPartsV, Seq<char>>,
    config_path: Seq<char>,
    tests: Option<Seq<JsonV>>,
)
    requires
        setup_outcome(
            token,
            channel_ids,
            allowed_user,
            events,
            bridge_command,
            url,
            existing,
            parsed,
        ) is Ok,
    ensures
        setup_outcome(
            other,
            channel_ids,
            allowed_user,
            events,
            bridge_command,
            url,
            existing,
            parsed,
        ) is Ok,
        setup_report(
            setup_outcome(
                other,
                channel_ids,
                allowed_user,
                events,
                bridge_command,
                url,
                existing,
                parsed,
            )->Ok_0,
            config_path,
            tests,
        ) == setup_report(
            setup_outcome(
                token,
                channel_ids,
                allowed_user,
                events,
                bridge_command,
                url,
                existing,
                parsed,
            )->Ok_0,
            config_path,
            tests,
        ),
{
}

/// The state of Discord as it is reported.
pub open spec fn status_report(config: Option<DaemonConfigV>, config_path: Seq<char>) -> JsonV {
    let discord = match config {
        Some(c) => c.discord,
        None => None,
    };
    JsonV::Object(
        Seq::empty()
            .push(("ok"@, JsonV::Bool(true)))
            .push(("action"@, JsonV::Str("discord_status"@)))
            .push(("configPath"@, JsonV::Str(config_path)))
            .push(("configured"@, JsonV::Bool(discord is Some)))
            .push(("enabled"@, JsonV::Bool(discord_enabled(discord))))
            .push(
                ("config"@, match config {
                    Some(c) => redacted_config(c),
                    None => JsonV::Null,
                }),
            ),
    )
}

/// The state of Discord as it is reported.
pub fn discord_status_result(config: &Option<DaemonConfig>, config_path: &str) -> (r: Json)
    ensures
        r@ == status_report(config.deep_view(), config_path@),
{
    let (configured, enabled, shown): (bool, bool, Json) = match config {
        Some(c) => (
            c.discord.is_some(),
            discord_config_enabled(&c.discord),
            redacted_daemon_config(c),
        ),
        None => (false, false, Json::Null),
    };
    Object::new().with("ok", Json::Bool(true)).with("action", Json::text("discord_status")).with(
        "configPath",
        Json::text(config_path),
    ).with("configured", Json::Bool(configured)).with("enabled", Json::Bool(enabled)).with(
        "config",
        shown,
    ).done()
}

/// The configuration with Discord switched on or off; it has to be configured.
pub open spec fn switched(config: Option<DaemonConfigV>, enabled: bool) -> Result<
    DaemonConfigV,
    BridgeErrorV,
> {
    match config {
        None => Err(failure("daemon config is missing. Run discord setup first."@)),
        Some(c) => match c.discord {
            None => Err(failure("Discord is not configured. Run discord setup first."@)),
            Some(d) => Ok(
                DaemonConfigV { discord: Some(DiscordConfigV { enabled, ..d }), ..c },
            ),
        },
    }
}

/// The report of switching Discord on or off.
pub open spec fn switch_report(
    before: DaemonConfigV,
    after: DaemonConfigV,
    enabled: bool,
    dry_run: bool,
    config_path: Seq<char>,
) -> JsonV {
    JsonV::Object(
        Seq::empty()
            .push(("ok"@, JsonV::Bool(true)))
            .push(
                ("action"@, JsonV::Str(
                    if enabled {
                        "discord_enable"@
                    } else {
                        "discord_disable"@
                    },
                )),
            )
            .push(("dryRun"@, JsonV::Bool(dry_run)))
            .push(("configured"@, JsonV::Bool(true)))
            .push(("previousEnabled"@, JsonV::Bool(discord_enabled(before.discord))))
            .push(("enabled"@, JsonV::Bool(enabled)))
            .push(("configPath"@, JsonV::Str(config_path)))
            .push(("config"@, redacted_config(after))),
    )
}

/// Switches Discord on or off: the new configuration, to be written unless the run only
/// shows what it would do, and the report.
pub fn discord_set_enabled_result(
    config: &Option<DaemonConfig>,
    enabled: bool,
    dry_run: bool,
    config_path: &str,
) -> (r: Result<(DaemonConfig, Json), BridgeError>)
    ensures
        match (r, switched(config.deep_view(), enabled)) {
            (Ok(pair), Ok(after)) => pair.0@ == after && pair.1@ == switch_report(
                config.deep_view()->0,
                after,
                enabled,
                dry_run,
                config_path@,
            ),
            (Err(a), Err(b)) => a@ == b,
            _ => false,
        },
{
    let before: &DaemonConfig = match config {
        Some(c) => c,
        None => {
            return Err(BridgeError::new("daemon config is missing. Run discord setup first."));
        },
    };
    let mut after = before.clone();
    let previous: bool = discord_config_enabled(&before.discord);
    match &before.discord {
        Some(d) => {
            let mut discord = d.clone();
            discord.enabled = enabled;
            after.discord = Some(discord);
        },
        None => {
            return Err(BridgeError::new("Discord is not configured. Run discord setup first."));
        },
    }
    let action: &str = if enabled {
        "discord_enable"
    } else {
        "discord_disable"
    };
    let report = Object::new().with("ok", Json::Bool(true)).with("action", Json::text(action)).with(
        "dryRun",
        Json::Bool(dry_run),
    ).with("configured", Json::Bool(true)).with("previousEnabled", Json::Bool(previous)).with(
        "enabled",
        Json::Bool(enabled),
    ).with("configPath", Json::text(config_path)).with(
        "config",
        redacted_daemon_config(&after),
    ).done();
    Ok((after, report))
}

/// The text of a test message.
pub open spec fn test_text(message: Seq<char>) -> Seq<char> {
    match non_blank(Some(message)) {
        Some(m) => m,
        None => "Codex Discord bridge test"@,
    }
}

/// The text of a test message.
pub fn discord_test_text(message: &str) -> (r: String)
    ensures
        r@ == test_text(message@),
{
    match normalized_message(Some(message)) {
        Some(m) => m,
        None => "Codex Discord bridge test".to_owned(),
    }
}

/// What a test message would be.
pub open spec fn test_dry_run(discord: DiscordConfigV, message: Seq<char>) -> JsonV {
    JsonV::Object(
        Seq::empty()
            .push(("ok"@, JsonV::Bool(true)))
            .push(("action"@, JsonV::Str("discord_test"@)))
            .push(("dryRun"@, JsonV::Bool(true)))
            .push(("channelIds"@, text_array(discord_channels(discord))))
            .push(("payload"@, message_payload(test_text(message)))),
    )
}

/// What a test message would be.
pub fn discord_test_dry_run(discord: &DiscordConfig, message: &str) -> (r: Json)
    ensures
        r@ == test_dry_run(discord@, message@),
{
    let channels = discord_config_channel_ids(discord);
    Object::new().with("ok", Json::Bool(true)).with("action", Json::text("discord_test")).with(
        "dryRun",
        Json::Bool(true),
    ).with("channelIds", Json::texts(&channels)).with(
        "payload",
        discord_message_payload(discord_test_text(message).as_str()),
    ).done()
}

/// The report of test messages that were sent.
pub open spec fn test_report(sent: Seq<JsonV>) -> JsonV {
    JsonV::Object(
        Seq::empty()
            .push(("ok"@, JsonV::Bool(true)))
            .push(("action"@, JsonV::Str("discord_test"@)))
            .push(("dryRun"@, JsonV::Bool(false)))
            .push(("sent"@, JsonV::Array(sent))),
    )
}

/// The report of test messages that were sent.
pub fn discord_test_result(sent: Vec<Json>) -> (r: Json)
    ensures
        r@ == test_report(sent.deep_view()),
{
    Object::new().with("ok", Json::Bool(true)).with("action", Json::text("discord_test")).with(
        "dryRun",
        Json::Bool(false),
    ).with("sent", Json::array(sent)).done()
}

/// A test message of a channel as it is reported.
pub fn discord_test_sent(channel_id: &str, response: &Json) -> (r: Json)
    ensures
        r@ == JsonV::Object(
            Seq::empty()
                .push(("channelId"@, JsonV::Str(channel_id@)))
                .push(("messageId"@, or_null(member(response@, "id"@)))),
        ),
{
    Object::new().with("channelId", Json::text(channel_id)).with(
        "messageId",
        response.get_or_null("id"),
    ).done()
}

} // verus!
