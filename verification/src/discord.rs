//! Discord: what its messages ask for, what is answered, and what is remembered of it.
use vstd::prelude::*;
use vstd::string::*;

use crate::codex::{greater, greater_of};
use crate::config::{DiscordConfig, DiscordConfigV};
use crate::error::{BridgeError, BridgeErrorV, failure, full_text, outcome};
use crate::json::{
    bool_value, Json, JsonV, lookup_from, member, Object, opt_member, or_null, set_member,
    text_member, text_value, uint_value,
};
use crate::order::{payloads, ranked, sorted_desc};
use crate::routes::{
    command_route, lookup_telegram_command_route, lookup_telegram_message_route, message_thread,
    replies_reach_their_thread, TelegramCommandRouteKind, with_message_route,
};
use crate::settings::{
    delete_setting, set_setting, set_setting_text, setting, setting_after_delete, setting_after_set,
    with_setting, without_setting,
};
use crate::state::{BridgeState, BridgeStateV, MessageRouteRowV};
use crate::table::keys_differ;
use crate::text::{
    ascii_lowered, borrow_opt, cat, cat3, chars_of, copy_opt, decimal, digits_value, is_digit,
    is_space, is_whitespace, non_blank, parse_i64, parse_u64, parsed_i64, parsed_unsigned, same,
    str_is, text_of, to_ascii_lowercase, trim, trimmed, trimmed_non_blank,
};
use crate::writing::json_text;

verus! {

/// How many threads are shown where no number is given.
pub const DEFAULT_DISCORD_THREADS_LIMIT: u64 = 5;

/// How many threads are shown at most.
pub const MAX_DISCORD_THREADS_LIMIT: u64 = 25;

/// How long a typing indicator lasts, in milliseconds.
pub const DISCORD_TYPING_TTL_MS: u64 = 120_000;

/// How often a typing indicator is renewed, in milliseconds.
pub const DISCORD_TYPING_REFRESH_MS: u64 = 8_000;

// ---------------------------------------------------------------------------
// Messages
// ---------------------------------------------------------------------------

/// A text as a number.
pub open spec fn id_number(text: Option<Seq<char>>) -> Option<i64> {
    match text {
        Some(t) => match parsed_i64(t) {
            Some(n) => Some(n as i64),
            None => None,
        },
        None => None,
    }
}

/// A text as a number.
fn number_of(text: Option<&str>) -> (r: Option<i64>)
    ensures
        r == id_number(text.deep_view()),
{
    match text {
        Some(t) => parse_i64(t),
        None => None,
    }
}

/// The id of a message.
pub open spec fn message_id(message: JsonV) -> Option<i64> {
    id_number(text_member(message, "id"@))
}

/// The id of a message.
pub fn discord_message_id(message: &Json) -> (r: Option<i64>)
    ensures
        r == message_id(message@),
{
    number_of(message.get_text("id"))
}

/// The author of a message.
pub open spec fn author_id(message: JsonV) -> Option<Seq<char>> {
    text_value(opt_member(member(message, "author"@), "id"@))
}

/// The author of a message.
pub fn discord_author_user_id(message: &Json) -> (r: Option<String>)
    ensures
        r.deep_view() == author_id(message@),
{
    match message.get("author") {
        Some(author) => author.text_of_member("id"),
        None => None,
    }
}

/// The author of a message is a bot.
pub open spec fn from_bot(message: JsonV) -> bool {
    bool_value(opt_member(member(message, "author"@), "bot"@)) == Some(true)
}

/// Tells whether the author of a message is a bot.
pub fn discord_author_is_bot(message: &Json) -> (r: bool)
    ensures
        r == from_bot(message@),
{
    match message.get("author") {
        Some(author) => match author.get("bot") {
            Some(bot) => match bot.as_bool() {
                Some(b) => b,
                None => false,
            },
            None => false,
        },
        None => false,
    }
}

/// The message that a message replies to.
pub open spec fn replied_id(message: JsonV) -> Option<i64> {
    id_number(text_value(opt_member(member(message, "message_reference"@), "message_id"@)))
}

/// The message that a message replies to.
pub fn discord_referenced_message_id(message: &Json) -> (r: Option<i64>)
    ensures
        r == replied_id(message@),
{
    match message.get("message_reference") {
        Some(reference) => number_of(reference.get_text("message_id")),
        None => None,
    }
}

/// The text of a message, where it is not blank.
pub open spec fn message_text(message: JsonV) -> Option<Seq<char>> {
    non_blank(text_member(message, "content"@))
}

/// The text of a message, where it is not blank.
pub fn discord_message_content(message: &Json) -> (r: Option<String>)
    ensures
        r.deep_view() == message_text(message@),
{
    trimmed_non_blank(message.get_text("content"))
}

/// The user may command the bridge: anyone where nobody is named, else the one who is.
pub open spec fn authorized(discord: DiscordConfigV, user: Option<Seq<char>>) -> bool {
    match discord.allowed_user_id {
        Some(allowed) => user == Some(allowed),
        None => true,
    }
}

/// Tells whether a user may command the bridge.
pub fn discord_authorized(discord: &DiscordConfig, user_id: Option<&str>) -> (r: bool)
    ensures
        r == authorized(discord@, user_id.deep_view()),
{
    match &discord.allowed_user_id {
        Some(allowed) => str_is(user_id, allowed.as_str()),
        None => true,
    }
}

/// The configuration for one channel.
pub open spec fn for_channel(discord: DiscordConfigV, channel: Seq<char>) -> DiscordConfigV {
    DiscordConfigV { channel_id: channel, channel_ids: Seq::empty(), ..discord }
}

/// The configuration for one channel.
pub fn discord_for_channel(discord: &DiscordConfig, channel_id: &str) -> (r: DiscordConfig)
    ensures
        r@ == for_channel(discord@, channel_id@),
{
    let r = DiscordConfig {
        bot_token: discord.bot_token.clone(),
        channel_id: channel_id.to_owned(),
        channel_ids: Vec::new(),
        allowed_user_id: copy_opt(&discord.allowed_user_id),
        enabled: discord.enabled,
    };
    assert(r@ =~= for_channel(discord@, channel_id@));
    r
}

// ---------------------------------------------------------------------------
// Commands
// ---------------------------------------------------------------------------

/// A command that came in by a message.
#[derive(Debug, PartialEq, Eq)]
pub enum DiscordInboundCommand {
    Start,
    Help,
    Away,
    Back,
    Repair,
    Status,
    Threads(Option<String>),
    NewThread(Option<String>),
    Project(Option<String>),
    Unknown(String),
}

/// The model of [`DiscordInboundCommand`].
pub enum DiscordInboundCommandV {
    Start,
    Help,
    Away,
    Back,
    Repair,
    Status,
    Threads(Option<Seq<char>>),
    NewThread(Option<Seq<char>>),
    Project(Option<Seq<char>>),
    Unknown(Seq<char>),
}

impl View for DiscordInboundCommand {
    type V = DiscordInboundCommandV;

    open spec fn view(&self) -> DiscordInboundCommandV {
        match self {
            DiscordInboundCommand::Start => DiscordInboundCommandV::Start,
            DiscordInboundCommand::Help => DiscordInboundCommandV::Help,
            DiscordInboundCommand::Away => DiscordInboundCommandV::Away,
            DiscordInboundCommand::Back => DiscordInboundCommandV::Back,
            DiscordInboundCommand::Repair => DiscordInboundCommandV::Repair,
            DiscordInboundCommand::Status => DiscordInboundCommandV::Status,
            DiscordInboundCommand::Threads(t) => DiscordInboundCommandV::Threads(t.deep_view()),
            DiscordInboundCommand::NewThread(t) => DiscordInboundCommandV::NewThread(
                t.deep_view(),
            ),
            DiscordInboundCommand::Project(t) => DiscordInboundCommandV::Project(t.deep_view()),
            DiscordInboundCommand::Unknown(t) => DiscordInboundCommandV::Unknown(t@),
        }
    }
}

impl DeepView for DiscordInboundCommand {
    type V = DiscordInboundCommandV;

    open spec fn deep_view(&self) -> DiscordInboundCommandV {
        self@
    }
}

/// The index of the first white space of `s` at or after `i`, or the length.
pub open spec fn space_from(s: Seq<char>, i: nat) -> nat
    decreases s.len() - i,
{
    if i >= s.len() || is_space(s[i as int]) {
        i
    } else {
        space_from(s, i + 1)
    }
}

/// The command in a text: its first word in small letters, with what follows it. A text
/// that does not begin with a slash is no command.
pub open spec fn command_in(text: Seq<char>) -> Option<DiscordInboundCommandV> {
    let t = trimmed(text);
    if t.len() == 0 || t[0] != '/' {
        None
    } else {
        let end = space_from(t, 0);
        let name = ascii_lowered(t.subrange(0, end as int));
        let rest = if end < t.len() {
            non_blank(Some(t.subrange(end as int + 1, t.len() as int)))
        } else {
            None
        };
        Some(
            if name == "/start"@ {
                DiscordInboundCommandV::Start
            } else if name == "/help"@ {
                DiscordInboundCommandV::Help
            } else if name == "/away"@ {
                DiscordInboundCommandV::Away
            } else if name == "/back"@ {
                DiscordInboundCommandV::Back
            } else if name == "/repair"@ {
                DiscordInboundCommandV::Repair
            } else if name == "/status"@ {
                DiscordInboundCommandV::Status
            } else if name == "/threads"@ {
                DiscordInboundCommandV::Threads(rest)
            } else if name == "/new"@ {
                DiscordInboundCommandV::NewThread(rest)
            } else if name == "/project"@ {
                DiscordInboundCommandV::Project(rest)
            } else {
                DiscordInboundCommandV::Unknown(name)
            },
        )
    }
}

/// The command in a text.
pub fn parse_discord_command_text(text: &str) -> (r: Option<DiscordInboundCommand>)
    ensures
        r.deep_view() == command_in(text@),
{
    let t = trim(text);
    let v = chars_of(t.as_str());
    if v.len() == 0 || v[0] != '/' {
        return None;
    }
    let mut end: usize = 0;
    while end < v.len() && !is_whitespace(v[end])
        invariant
            end <= v@.len(),
            space_from(v@, 0) == space_from(v@, end as nat),
        decreases v@.len() - end,
    {
        end += 1;
    }
    let name = to_ascii_lowercase(text_of(&v, 0, end).as_str());
    let rest: Option<String> = if end < v.len() {
        trimmed_non_blank(Some(text_of(&v, end + 1, v.len()).as_str()))
    } else {
        None
    };
    let n = name.as_str();
    Some(
        if same(n, "/start") {
            DiscordInboundCommand::Start
        } else if same(n, "/help") {
            DiscordInboundCommand::Help
        } else if same(n, "/away") {
            DiscordInboundCommand::Away
        } else if same(n, "/back") {
            DiscordInboundCommand::Back
        } else if same(n, "/repair") {
            DiscordInboundCommand::Repair
        } else if same(n, "/status") {
            DiscordInboundCommand::Status
        } else if same(n, "/threads") {
            DiscordInboundCommand::Threads(rest)
        } else if same(n, "/new") {
            DiscordInboundCommand::NewThread(rest)
        } else if same(n, "/project") {
            DiscordInboundCommand::Project(rest)
        } else {
            DiscordInboundCommand::Unknown(name)
        },
    )
}

/// How many threads are asked for: five where no number is given, else one to twenty-five.
pub open spec fn threads_limit(raw: Option<Seq<char>>) -> Result<u64, BridgeErrorV> {
    let usage = failure("Use /threads or /threads <count>, with count between 1 and 25"@);
    match non_blank(raw) {
        None => Ok(5),
        Some(text) => match parsed_unsigned(text, u64::MAX as nat) {
            Some(n) => if 1 <= n <= 25 {
                Ok(n as u64)
            } else {
                Err(usage)
            },
            None => Err(
                BridgeErrorV { message: usage.message, cause: Some(number_failure(text)) },
            ),
        },
    }
}

/// What is said of a text that is no number, reading its digits from `n` on: the first
/// character that is no digit, or the first digit that makes the number too large.
pub open spec fn number_failure_from(digits: Seq<char>, n: nat) -> Seq<char>
    decreases digits.len() - n,
{
    if n >= digits.len() || !is_digit(digits[n as int]) {
        "invalid digit found in string"@
    } else if digits_value(digits, n + 1) > u64::MAX {
        "number too large to fit in target type"@
    } else {
        number_failure_from(digits, n + 1)
    }
}

/// What is said of a text that is no number.
pub open spec fn number_failure(text: Seq<char>) -> Seq<char> {
    if text.len() > 1 && text[0] == '+' {
        number_failure_from(text.subrange(1, text.len() as int), 0)
    } else {
        number_failure_from(text, 0)
    }
}

/// What is said of a text that is no number.
fn number_failure_text(text: &str) -> (r: &'static str)
    ensures
        r@ == number_failure(text@),
{
    let v = chars_of(text);
    let start: usize = if v.len() > 1 && v[0] == '+' {
        1
    } else {
        0
    };
    let ghost digits = v@.subrange(start as int, v@.len() as int);
    assert(start == 0 ==> digits =~= v@);
    let mut value: u64 = 0;
    let mut i: usize = start;
    while i < v.len()
        invariant
            start <= i <= v@.len(),
            digits == v@.subrange(start as int, v@.len() as int),
            number_failure_from(digits, 0) == number_failure_from(digits, (i - start) as nat),
            number_failure(text@) == number_failure_from(digits, 0),
            value == digits_value(digits, (i - start) as nat),
        decreases v@.len() - i,
    {
        let c = v[i];
        assert(digits[i - start] == c);
        if !('0' <= c && c <= '9') {
            return "invalid digit found in string";
        }
        let digit: u64 = (c as u32 - 48) as u64;
        let next: u128 = value as u128 * 10 + digit as u128;
        assert(next == digits_value(digits, (i - start + 1) as nat));
        if next > u64::MAX as u128 {
            return "number too large to fit in target type";
        }
        value = next as u64;
        i += 1;
    }
    "invalid digit found in string"
}

/// How many threads are asked for.
pub fn parse_discord_threads_limit(raw: Option<&str>) -> (r: Result<u64, BridgeError>)
    ensures
        outcome(r) == threads_limit(raw.deep_view()),
{
    let text: String = match trimmed_non_blank(raw) {
        Some(t) => t,
        None => {
            return Ok(DEFAULT_DISCORD_THREADS_LIMIT);
        },
    };
    let usage = "Use /threads or /threads <count>, with count between 1 and 25";
    match parse_u64(text.as_str()) {
        Some(n) => if 1 <= n && n <= MAX_DISCORD_THREADS_LIMIT {
            Ok(n)
        } else {
            Err(BridgeError::new(usage))
        },
        None => {
            let cause = number_failure_text(text.as_str());
            Err(BridgeError::new(cause).context(usage))
        },
    }
}

// ---------------------------------------------------------------------------
// What a message asks for
// ---------------------------------------------------------------------------

/// What a message asks for.
#[derive(Debug, PartialEq, Eq)]
pub enum MessageRoute {
    /// Nothing.
    Ignored,
    /// A text goes to a thread.
    Reply { thread_id: String, message: String },
    /// A text answers a question of the bridge.
    PromptReply {
        kind: TelegramCommandRouteKind,
        message: String,
        project_id: Option<String>,
        reply_to: i64,
    },
    /// A command.
    Command(DiscordInboundCommand),
}

/// The model of [`MessageRoute`].
pub enum MessageRouteV {
    Ignored,
    Reply { thread_id: Seq<char>, message: Seq<char> },
    PromptReply {
        kind: TelegramCommandRouteKind,
        message: Seq<char>,
        project_id: Option<Seq<char>>,
        reply_to: i64,
    },
    Command(DiscordInboundCommandV),
}

impl View for MessageRoute {
    type V = MessageRouteV;

    open spec fn view(&self) -> MessageRouteV {
        match self {
            MessageRoute::Ignored => MessageRouteV::Ignored,
            MessageRoute::Reply { thread_id, message } => MessageRouteV::Reply {
                thread_id: thread_id@,
                message: message@,
            },
            MessageRoute::PromptReply { kind, message, project_id, reply_to } =>
                MessageRouteV::PromptReply {
                kind: *kind,
                message: message@,
                project_id: project_id.deep_view(),
                reply_to: *reply_to,
            },
            MessageRoute::Command(c) => MessageRouteV::Command(c@),
        }
    }
}

/// The bridge listens to the author of a message.
pub open spec fn heard(message: JsonV, discord: DiscordConfigV) -> bool {
    !from_bot(message) && authorized(discord, author_id(message))
}

/// Tells whether the bridge listens to the author of a message.
fn is_heard(message: &Json, discord: &DiscordConfig) -> (r: bool)
    ensures
        r == heard(message@, discord@),
{
    if discord_author_is_bot(message) {
        return false;
    }
    let user = discord_author_user_id(message);
    discord_authorized(discord, borrow_opt(&user))
}

/// The thread that a message replies to, with its text.
pub open spec fn reply_route(st: BridgeStateV, message: JsonV, discord: DiscordConfigV) -> Option<
    (Seq<char>, Seq<char>),
> {
    match (replied_id(message), message_text(message)) {
        (Some(id), Some(text)) => if heard(message, discord) {
            match message_thread(st, discord.channel_id, id) {
                Some(thread_id) => Some((thread_id, text)),
                None => None,
            }
        } else {
            None
        },
        _ => None,
    }
}

/// The thread that a message replies to, with its text.
pub fn extract_discord_reply_route(
    state: &BridgeState,
    message: &Json,
    discord: &DiscordConfig,
) -> (r: Option<(String, String)>)
    ensures
        r.deep_view() == reply_route(state@, message@, discord@),
{
    if !is_heard(message, discord) {
        return None;
    }
    match (discord_referenced_message_id(message), discord_message_content(message)) {
        (Some(id), Some(text)) => match lookup_telegram_message_route(
            state,
            discord.channel_id.as_str(),
            id,
        ) {
            Some(thread_id) => Some((thread_id, text)),
            None => None,
        },
        _ => None,
    }
}

/// The question of the bridge that a message answers.
pub open spec fn prompt_route(
    st: BridgeStateV,
    message: JsonV,
    discord: DiscordConfigV,
) -> Option<MessageRouteV> {
    match (replied_id(message), message_text(message)) {
        (Some(id), Some(text)) => if heard(message, discord) {
            match command_route(st, discord.channel_id, id) {
                Some((kind, payload)) => Some(
                    MessageRouteV::PromptReply {
                        kind,
                        message: text,
                        project_id: text_value(opt_member(payload, "projectId"@)),
                        reply_to: id,
                    },
                ),
                None => None,
            }
        } else {
            None
        },
        _ => None,
    }
}

/// The route as a model, where there is one.
pub open spec fn route_view(r: Option<MessageRoute>) -> Option<MessageRouteV> {
    match r {
        Some(route) => Some(route@),
        None => None,
    }
}

/// The question of the bridge that a message answers.
pub fn extract_discord_command_prompt_reply(
    state: &BridgeState,
    message: &Json,
    discord: &DiscordConfig,
) -> (r: Option<MessageRoute>)
    ensures
        route_view(r) == prompt_route(state@, message@, discord@),
{
    if !is_heard(message, discord) {
        return None;
    }
    match (discord_referenced_message_id(message), discord_message_content(message)) {
        (Some(id), Some(text)) => match lookup_telegram_command_route(
            state,
            discord.channel_id.as_str(),
            id,
        ) {
            Some((kind, payload)) => {
                let project_id: Option<String> = match &payload {
                    Some(p) => p.text_of_member("projectId"),
                    None => None,
                };
                Some(MessageRoute::PromptReply { kind, message: text, project_id, reply_to: id })
            },
            None => None,
        },
        _ => None,
    }
}

/// The command of a message that replies to nothing.
pub open spec fn command_of(message: JsonV, discord: DiscordConfigV) -> Option<
    DiscordInboundCommandV,
> {
    if heard(message, discord) && replied_id(message) is None {
        match message_text(message) {
            Some(text) => command_in(text),
            None => None,
        }
    } else {
        None
    }
}

/// The command of a message that replies to nothing.
pub fn extract_discord_command(message: &Json, discord: &DiscordConfig) -> (r: Option<
    DiscordInboundCommand,
>)
    ensures
        r.deep_view() == command_of(message@, discord@),
{
    if !is_heard(message, discord) || discord_referenced_message_id(message).is_some() {
        return None;
    }
    match discord_message_content(message) {
        Some(text) => parse_discord_command_text(text.as_str()),
        None => None,
    }
}

/// What a message asks for: a reply to a thread goes first, then an answer to a question,
/// then a command.
pub open spec fn route_of(
    st: BridgeStateV,
    message: JsonV,
    discord: DiscordConfigV,
) -> MessageRouteV {
    match reply_route(st, message, discord) {
        Some((thread_id, text)) => MessageRouteV::Reply { thread_id, message: text },
        None => match prompt_route(st, message, discord) {
            Some(route) => route,
            None => match command_of(message, discord) {
                Some(command) => MessageRouteV::Command(command),
                None => MessageRouteV::Ignored,
            },
        },
    }
}

/// What a message asks for.
pub fn route_discord_message(
    state: &BridgeState,
    message: &Json,
    discord: &DiscordConfig,
) -> (r: MessageRoute)
    ensures
        r@ == route_of(state@, message@, discord@),
{
    match extract_discord_reply_route(state, message, discord) {
        Some((thread_id, text)) => {
            return MessageRoute::Reply { thread_id, message: text };
        },
        None => {},
    }
    match extract_discord_command_prompt_reply(state, message, discord) {
        Some(route) => {
            return route;
        },
        None => {},
    }
    match extract_discord_command(message, discord) {
        Some(command) => MessageRoute::Command(command),
        None => MessageRoute::Ignored,
    }
}

/// Nothing that a bot or a stranger writes is acted on.
pub proof fn strangers_are_ignored(st: BridgeStateV, message: JsonV, discord: DiscordConfigV)
    requires
        from_bot(message) || !authorized(discord, author_id(message)),
    ensures
        route_of(st, message, discord) == MessageRouteV::Ignored,
{
}

/// A reply to a message that was sent for a thread goes to that thread.
pub proof fn replies_go_to_their_thread(
    st: BridgeStateV,
    row: MessageRouteRowV,
    message: JsonV,
    discord: DiscordConfigV,
)
    requires
        st.well_formed(),
        heard(message, discord),
        row.chat_id == discord.channel_id,
        replied_id(message) == Some(row.message_id),
        message_text(message) is Some,
    ensures
        route_of(with_message_route(st, row), message, discord) == (MessageRouteV::Reply {
            thread_id: row.thread_id,
            message: message_text(message)->0,
        }),
{
    replies_reach_their_thread(st, row, row.chat_id, row.message_id);
}

// ---------------------------------------------------------------------------
// A batch of messages
// ---------------------------------------------------------------------------

/// Messages keyed so that the smallest id comes first; one without an id counts as zero.
pub open spec fn by_id(messages: Seq<JsonV>) -> Seq<(i128, JsonV)> {
    messages.map_values(
        |m: JsonV|
            (
                match message_id(m) {
                    Some(id) => (-(id as int)) as i128,
                    None => 0i128,
                },
                m,
            ),
    )
}

/// Messages in the order of their ids.
pub fn sort_discord_messages(messages: Vec<Json>) -> (r: Vec<Json>)
    ensures
        r.deep_view() == payloads(sorted_desc(by_id(messages.deep_view()))),
{
    let ghost given = messages@;
    let ghost models = messages.deep_view();
    let mut rows: Vec<(i128, Json)> = Vec::new();
    for message in it: messages
        invariant
            it.seq() == given,
            models == Seq::new(given.len(), |i: int| given[i]@),
            rows@.len() == it.index(),
            forall|k: int| 0 <= k < it.index() ==> (#[trigger] rows@[k]).1@ == models[k],
            forall|k: int|
                0 <= k < it.index() ==> (#[trigger] rows@[k]).0 == (match message_id(models[k]) {
                    Some(id) => (-(id as int)) as i128,
                    None => 0i128,
                }),
    {
        assert(models[it.index()] == message@);
        let key: i128 = match discord_message_id(&message) {
            Some(id) => -(id as i128),
            None => 0,
        };
        rows.push((key, message));
    }
    assert(rows.deep_view() =~= by_id(models));
    ranked(rows)
}

/// The setting that holds the last message of a channel.
pub open spec fn cursor_key(channel: Seq<char>) -> Seq<char> {
    "discord_last_message_id:"@ + channel
}

/// The setting that holds the last message of a channel.
pub fn discord_cursor_key(channel_id: &str) -> (r: String)
    ensures
        r@ == cursor_key(channel_id@),
{
    cat("discord_last_message_id:", channel_id)
}

/// A message id as the cursor counts it.
pub open spec fn cursor_value(id: i64) -> u64 {
    id as u64
}

/// The greatest id among the first `n` messages, from `start` on.
pub open spec fn greatest_id(messages: Seq<JsonV>, n: nat, start: Option<u64>) -> Option<u64>
    decreases n,
{
    if n == 0 || n > messages.len() {
        start
    } else {
        let before = greatest_id(messages, (n - 1) as nat, start);
        match message_id(messages[n - 1]) {
            Some(id) => greater(before, Some(cursor_value(id))),
            None => before,
        }
    }
}

/// The state once the cursor of a channel is moved.
pub open spec fn cursor_moved(st: BridgeStateV, key: Seq<char>, to: Option<u64>) -> BridgeStateV {
    match to {
        Some(id) => with_setting(st, key, decimal(id as nat)),
        None => st,
    }
}

/// The report of the first look at a channel: everything that is there already is passed over.
pub open spec fn initial_report(channel: Seq<char>, count: u64) -> JsonV {
    JsonV::Object(
        Seq::empty()
            .push(("ok"@, JsonV::Bool(true)))
            .push(("transport"@, JsonV::Str("discord"@)))
            .push(("channelId"@, JsonV::Str(channel)))
            .push(("seen"@, JsonV::UInt(count)))
            .push(("replies"@, JsonV::UInt(0)))
            .push(("commandPromptReplies"@, JsonV::UInt(0)))
            .push(("commands"@, JsonV::UInt(0)))
            .push(("ignored"@, JsonV::UInt(count)))
            .push(("initialized"@, JsonV::Bool(true))),
    )
}

/// Takes the first look at a channel, which has no cursor yet: the cursor moves behind
/// everything that is there.
fn initialize_discord_channel(
    state: &mut BridgeState,
    discord: &DiscordConfig,
    cursor_key: &str,
    messages: &Vec<Json>,
) -> (r: Json)
    ensures
        final(state)@ == cursor_moved(
            old(state)@,
            cursor_key@,
            greatest_id(messages.deep_view(), messages@.len(), None),
        ),
        r@ == initial_report(discord@.channel_id, messages@.len() as u64),
{
    let ghost all = messages.deep_view();
    let mut latest: Option<u64> = None;
    let mut i: usize = 0;
    while i < messages.len()
        invariant
            i <= messages@.len(),
            all == messages.deep_view(),
            latest == greatest_id(all, i as nat, None),
        decreases messages@.len() - i,
    {
        assert(all[i as int] == messages@[i as int]@);
        match discord_message_id(&messages[i]) {
            Some(id) => {
                let value: u64 = #[verifier::truncate]
                (id as u64);
                latest = greater_of(latest, Some(value));
            },
            None => {},
        }
        i += 1;
    }
    match latest {
        Some(id) => {
            set_setting(state, cursor_key, id);
        },
        None => {},
    }
    let count: u64 = messages.len() as u64;
    Object::new().with("ok", Json::Bool(true)).with("transport", Json::text("discord")).with(
        "channelId",
        Json::Str(discord.channel_id.clone()),
    ).with("seen", Json::UInt(count)).with("replies", Json::UInt(0)).with(
        "commandPromptReplies",
        Json::UInt(0),
    ).with("commands", Json::UInt(0)).with("ignored", Json::UInt(count)).with(
        "initialized",
        Json::Bool(true),
    ).done()
}

/// What came of acting on a message.
#[derive(Debug, Clone, Copy, PartialEq, Eq, Structural)]
pub enum MessageOutcome {
    Reply,
    PromptReply,
    Command,
    Ignored,
    Failed,
}

/// What came of a message: what it led to, unless that failed.
pub open spec fn outcome_of(route: MessageRouteV, succeeded: bool) -> MessageOutcome {
    match route {
        MessageRouteV::Ignored => MessageOutcome::Ignored,
        MessageRouteV::Reply { .. } => if succeeded {
            MessageOutcome::Reply
        } else {
            MessageOutcome::Failed
        },
        MessageRouteV::PromptReply { .. } => if succeeded {
            MessageOutcome::PromptReply
        } else {
            MessageOutcome::Failed
        },
        MessageRouteV::Command(_) => if succeeded {
            MessageOutcome::Command
        } else {
            MessageOutcome::Failed
        },
    }
}

/// What came of a message: what it led to, unless that failed.
pub fn message_outcome(route: &MessageRoute, succeeded: bool) -> (r: MessageOutcome)
    ensures
        r == outcome_of(route@, succeeded),
{
    match route {
        MessageRoute::Ignored => MessageOutcome::Ignored,
        _ => if !succeeded {
            MessageOutcome::Failed
        } else {
            match route {
                MessageRoute::Reply { .. } => MessageOutcome::Reply,
                MessageRoute::PromptReply { .. } => MessageOutcome::PromptReply,
                _ => MessageOutcome::Command,
            }
        },
    }
}

/// A batch of messages: how many were seen, what came of them, and the greatest id. While a
/// message is dealt with, `pending` is what it comes to where that succeeds.
#[derive(Debug, Clone, Copy, PartialEq, Eq, Structural)]
pub struct Batch {
    pub seen: u64,
    pub replies: u64,
    pub command_prompt_replies: u64,
    pub commands: u64,
    pub ignored: u64,
    pub failed: u64,
    pub max_message_id: Option<u64>,
    pub pending: Option<MessageOutcome>,
}

/// The model of [`Batch`].
#[verifier::ext_equal]
pub struct BatchV {
    pub seen: u64,
    pub replies: u64,
    pub command_prompt_replies: u64,
    pub commands: u64,
    pub ignored: u64,
    pub failed: u64,
    pub max_message_id: Option<u64>,
    pub pending: Option<MessageOutcome>,
}

impl View for Batch {
    type V = BatchV;

    open spec fn view(&self) -> BatchV {
        BatchV {
            seen: self.seen,
            replies: self.replies,
            command_prompt_replies: self.command_prompt_replies,
            commands: self.commands,
            ignored: self.ignored,
            failed: self.failed,
            max_message_id: self.max_message_id,
            pending: self.pending,
        }
    }
}

impl DeepView for Batch {
    type V = BatchV;

    open spec fn deep_view(&self) -> BatchV {
        self@
    }
}

/// A batch before its first message.
pub open spec fn batch_begun(after: Option<u64>) -> BatchV {
    BatchV {
        seen: 0,
        replies: 0,
        command_prompt_replies: 0,
        commands: 0,
        ignored: 0,
        failed: 0,
        max_message_id: after,
        pending: None,
    }
}

impl BatchV {
    /// Every message that was seen is counted under one heading, or is being dealt with.
    pub open spec fn well_formed(self) -> bool {
        self.seen == self.replies + self.command_prompt_replies + self.commands + self.ignored
            + self.failed + (if self.pending is Some {
            1int
        } else {
            0int
        })
    }

    /// The batch once a message was routed in a state.
    pub open spec fn routed(
        self,
        st: BridgeStateV,
        message: JsonV,
        discord: DiscordConfigV,
    ) -> BatchV {
        BatchV {
            seen: (self.seen + 1) as u64,
            max_message_id: match message_id(message) {
                Some(id) => greater(self.max_message_id, Some(cursor_value(id))),
                None => self.max_message_id,
            },
            pending: Some(outcome_of(route_of(st, message, discord), true)),
            ..self
        }
    }

    /// The batch with one more message under a heading.
    pub open spec fn counted(self, outcome: MessageOutcome) -> BatchV {
        match outcome {
            MessageOutcome::Reply => BatchV { replies: (self.replies + 1) as u64, ..self },
            MessageOutcome::PromptReply => BatchV {
                command_prompt_replies: (self.command_prompt_replies + 1) as u64,
                ..self
            },
            MessageOutcome::Command => BatchV { commands: (self.commands + 1) as u64, ..self },
            MessageOutcome::Ignored => BatchV { ignored: (self.ignored + 1) as u64, ..self },
            MessageOutcome::Failed => BatchV { failed: (self.failed + 1) as u64, ..self },
        }
    }

    /// The batch once it is known whether the work for the message succeeded. There is none
    /// for a message that is ignored.
    pub open spec fn settled(self, succeeded: bool) -> BatchV {
        let done = BatchV { pending: None, ..self };
        match self.pending {
            Some(outcome) => done.counted(
                if succeeded || outcome == MessageOutcome::Ignored {
                    outcome
                } else {
                    MessageOutcome::Failed
                },
            ),
            None => done,
        }
    }
}

/// A message that was dealt with: the state that it was routed in, and whether the work for
/// it succeeded.
pub struct DealtV {
    pub st: BridgeStateV,
    pub message: JsonV,
    pub succeeded: bool,
}

/// The batch once messages were dealt with, one after the other.
pub open spec fn batch_of(
    after: Option<u64>,
    discord: DiscordConfigV,
    dealt: Seq<DealtV>,
) -> BatchV
    decreases dealt.len(),
{
    if dealt.len() == 0 {
        batch_begun(after)
    } else {
        batch_of(after, discord, dealt.drop_last()).routed(
            dealt.last().st,
            dealt.last().message,
            discord,
        ).settled(dealt.last().succeeded)
    }
}

/// The report of a batch.
pub open spec fn batch_report(channel: Seq<char>, b: BatchV) -> JsonV {
    JsonV::Object(
        Seq::empty()
            .push(("ok"@, JsonV::Bool(true)))
            .push(("transport"@, JsonV::Str("discord"@)))
            .push(("channelId"@, JsonV::Str(channel)))
            .push(("seen"@, JsonV::UInt(b.seen)))
            .push(("replies"@, JsonV::UInt(b.replies)))
            .push(("commandPromptReplies"@, JsonV::UInt(b.command_prompt_replies)))
            .push(("commands"@, JsonV::UInt(b.commands)))
            .push(("ignored"@, JsonV::UInt(b.ignored)))
            .push(("failed"@, JsonV::UInt(b.failed))),
    )
}

impl Batch {
    /// A batch before its first message.
    fn begin(after: Option<u64>) -> (r: Batch)
        ensures
            r@ == batch_begun(after),
            r@.well_formed(),
    {
        Batch {
            seen: 0,
            replies: 0,
            command_prompt_replies: 0,
            commands: 0,
            ignored: 0,
            failed: 0,
            max_message_id: after,
            pending: None,
        }
    }

    /// Routes the next message: what it asks for.
    pub fn route(&mut self, state: &BridgeState, message: &Json, discord: &DiscordConfig) -> (r:
        MessageRoute)
        requires
            old(self)@.well_formed(),
            old(self)@.pending is None,
            old(self)@.seen < u64::MAX,
        ensures
            r@ == route_of(state@, message@, discord@),
            final(self)@ == old(self)@.routed(state@, message@, discord@),
            final(self)@.well_formed(),
            final(self)@.pending is Some,
    {
        let route = route_discord_message(state, message, discord);
        match discord_message_id(message) {
            Some(id) => {
                let value: u64 = #[verifier::truncate]
                (id as u64);
                self.max_message_id = greater_of(self.max_message_id, Some(value));
            },
            None => {},
        }
        self.seen = self.seen + 1;
        self.pending = Some(message_outcome(&route, true));
        route
    }

    /// Notes whether the work for the message that was routed last succeeded.
    pub fn settle(&mut self, succeeded: bool)
        requires
            old(self)@.well_formed(),
            old(self)@.pending is Some,
        ensures
            final(self)@ == old(self)@.settled(succeeded),
            final(self)@.well_formed(),
            final(self)@.pending is None,
    {
        match self.pending {
            Some(outcome) => {
                let counted: MessageOutcome = if succeeded || outcome == MessageOutcome::Ignored {
                    outcome
                } else {
                    MessageOutcome::Failed
                };
                match counted {
                    MessageOutcome::Reply => {
                        self.replies = self.replies + 1;
                    },
                    MessageOutcome::PromptReply => {
                        self.command_prompt_replies = self.command_prompt_replies + 1;
                    },
                    MessageOutcome::Command => {
                        self.commands = self.commands + 1;
                    },
                    MessageOutcome::Ignored => {
                        self.ignored = self.ignored + 1;
                    },
                    MessageOutcome::Failed => {
                        self.failed = self.failed + 1;
                    },
                }
            },
            None => {},
        }
        self.pending = None;
    }
}

/// How dealing with the messages of a channel begins.
#[derive(Debug, PartialEq, Eq)]
pub enum ChannelStart {
    /// The channel had no cursor: it has one now, and the messages are passed over. This is
    /// the report of it.
    Initialized(Json),
    /// The messages are dealt with as a batch.
    Begun(Batch),
}

/// The model of [`ChannelStart`].
pub enum ChannelStartV {
    Initialized(JsonV),
    Begun(BatchV),
}

impl View for ChannelStart {
    type V = ChannelStartV;

    open spec fn view(&self) -> ChannelStartV {
        match self {
            ChannelStart::Initialized(report) => ChannelStartV::Initialized(report@),
            ChannelStart::Begun(batch) => ChannelStartV::Begun(batch@),
        }
    }
}

/// How dealing with the messages of a channel begins, and the state then. A channel without
/// a cursor gets one behind everything that is there, and no message of it is dealt with; for
/// one with a cursor nothing has happened yet.
pub open spec fn channel_begun(
    st: BridgeStateV,
    channel: Seq<char>,
    key: Seq<char>,
    after: Option<u64>,
    messages: Seq<JsonV>,
) -> (BridgeStateV, ChannelStartV) {
    match after {
        None => (
            cursor_moved(st, key, greatest_id(messages, messages.len(), None)),
            ChannelStartV::Initialized(initial_report(channel, messages.len() as u64)),
        ),
        Some(_) => (st, ChannelStartV::Begun(batch_begun(after))),
    }
}

/// Begins to deal with the messages of a channel behind its cursor. Without a cursor nothing
/// is executed: the cursor moves behind everything that is there.
pub fn begin_discord_channel(
    state: &mut BridgeState,
    discord: &DiscordConfig,
    cursor_key: &str,
    after: Option<u64>,
    messages: &Vec<Json>,
) -> (r: ChannelStart)
    ensures
        (final(state)@, r@) == channel_begun(
            old(state)@,
            discord@.channel_id,
            cursor_key@,
            after,
            messages.deep_view(),
        ),
        r matches ChannelStart::Begun(batch) ==> after is Some && batch@.well_formed(),
{
    if after.is_none() {
        ChannelStart::Initialized(initialize_discord_channel(state, discord, cursor_key, messages))
    } else {
        ChannelStart::Begun(Batch::begin(after))
    }
}

/// Ends a batch: the cursor moves behind all of its messages, those that failed included.
pub fn process_discord_channel_messages(
    state: &mut BridgeState,
    discord: &DiscordConfig,
    cursor_key: &str,
    batch: &Batch,
) -> (r: Json)
    ensures
        final(state)@ == cursor_moved(old(state)@, cursor_key@, batch@.max_message_id),
        r@ == batch_report(discord@.channel_id, batch@),
{
    match batch.max_message_id {
        Some(id) => {
            set_setting(state, cursor_key, id);
        },
        None => {},
    }
    Object::new().with("ok", Json::Bool(true)).with("transport", Json::text("discord")).with(
        "channelId",
        Json::Str(discord.channel_id.clone()),
    ).with("seen", Json::UInt(batch.seen)).with("replies", Json::UInt(batch.replies)).with(
        "commandPromptReplies",
        Json::UInt(batch.command_prompt_replies),
    ).with("commands", Json::UInt(batch.commands)).with(
        "ignored",
        Json::UInt(batch.ignored),
    ).with("failed", Json::UInt(batch.failed)).done()
}

/// The cursor moves behind every message of a batch, whatever came of it, and never back.
pub proof fn batches_do_not_wedge(
    after: Option<u64>,
    discord: DiscordConfigV,
    dealt: Seq<DealtV>,
    i: int,
)
    requires
        0 <= i < dealt.len(),
        message_id(dealt[i].message) is Some,
    ensures
        batch_of(after, discord, dealt).max_message_id is Some,
        batch_of(after, discord, dealt).max_message_id->0 >= cursor_value(
            message_id(dealt[i].message)->0,
        ),
        after is Some ==> batch_of(after, discord, dealt).max_message_id->0 >= after->0,
{
    lemma_batch_max(after, discord, dealt, i);
}

proof fn lemma_batch_max(
    after: Option<u64>,
    discord: DiscordConfigV,
    dealt: Seq<DealtV>,
    i: int,
)
    ensures
        after is Some ==> batch_of(after, discord, dealt).max_message_id is Some && batch_of(
            after,
            discord,
            dealt,
        ).max_message_id->0 >= after->0,
        0 <= i < dealt.len() && message_id(dealt[i].message) is Some ==> batch_of(
            after,
            discord,
            dealt,
        ).max_message_id is Some && batch_of(after, discord, dealt).max_message_id->0
            >= cursor_value(message_id(dealt[i].message)->0),
    decreases dealt.len(),
{
    if dealt.len() > 0 {
        lemma_batch_max(after, discord, dealt.drop_last(), i);
    }
}

/// Every message of a batch counts once: as a reply, as the answer to a question, as a
/// command, as ignored or as failed. One that a bot or a stranger wrote counts as ignored,
/// whatever is said of it.
pub proof fn batches_count_every_message(
    after: Option<u64>,
    discord: DiscordConfigV,
    dealt: Seq<DealtV>,
    last: DealtV,
)
    requires
        dealt.len() < u64::MAX,
    ensures
        ({
            let b = batch_of(after, discord, dealt);
            &&& b.seen == dealt.len()
            &&& b.pending is None
            &&& b.seen == b.replies + b.command_prompt_replies + b.commands + b.ignored + b.failed
        }),
        from_bot(last.message) || !authorized(discord, author_id(last.message)) ==> batch_of(
            after,
            discord,
            dealt.push(last),
        ).ignored == batch_of(after, discord, dealt).ignored + 1,
{
    lemma_batch_counts(after, discord, dealt);
    assert(dealt.push(last).drop_last() =~= dealt);
    if from_bot(last.message) || !authorized(discord, author_id(last.message)) {
        strangers_are_ignored(last.st, last.message, discord);
    }
}

proof fn lemma_batch_counts(after: Option<u64>, discord: DiscordConfigV, dealt: Seq<DealtV>)
    requires
        dealt.len() < u64::MAX,
    ensures
        batch_of(after, discord, dealt).seen == dealt.len(),
        batch_of(after, discord, dealt).pending is None,
        batch_of(after, discord, dealt).well_formed(),
    decreases dealt.len(),
{
    if dealt.len() > 0 {
        lemma_batch_counts(after, discord, dealt.drop_last());
    }
}

/// What is sent to the author of a message that could not be dealt with.
pub fn discord_failure_notice(error: &BridgeError) -> (r: String)
    ensures
        r@ == "Your message could not be processed: "@ + full_text(error@),
{
    cat("Your message could not be processed: ", error.full().as_str())
}

/// The report of a channel that could not be dealt with.
pub open spec fn channel_failure(channel: Seq<char>, error: Seq<char>) -> JsonV {
    JsonV::Object(
        Seq::empty()
            .push(("ok"@, JsonV::Bool(false)))
            .push(("transport"@, JsonV::Str("discord"@)))
            .push(("channelId"@, JsonV::Str(channel)))
            .push(("error"@, JsonV::Str(error))),
    )
}

/// The report of a channel that could not be dealt with.
pub fn discord_channel_failure(channel_id: &str, error: &BridgeError) -> (r: Json)
    ensures
        r@ == channel_failure(channel_id@, full_text(error@)),
{
    Object::new().with("ok", Json::Bool(false)).with("transport", Json::text("discord")).with(
        "channelId",
        Json::text(channel_id),
    ).with("error", Json::Str(error.full())).done()
}

/// The report of a channel with that of its typing indicators.
pub fn with_typing_report(result: Json, typing: Json) -> (r: Json)
    ensures
        r@ == set_member(result@, "typing"@, typing@),
{
    let mut whole = result;
    whole.set("typing", typing);
    whole
}

/// The report of all channels.
pub open spec fn channels_report(ok: bool, channels: Seq<JsonV>) -> JsonV {
    JsonV::Object(
        Seq::empty()
            .push(("ok"@, JsonV::Bool(ok)))
            .push(("transport"@, JsonV::Str("discord"@)))
            .push(("channels"@, JsonV::Array(channels))),
    )
}

/// The report of all channels.
pub fn discord_channels_report(ok: bool, channels: Vec<Json>) -> (r: Json)
    ensures
        r@ == channels_report(ok, channels.deep_view()),
{
    Object::new().with("ok", Json::Bool(ok)).with("transport", Json::text("discord")).with(
        "channels",
        Json::array(channels),
    ).done()
}

// ---------------------------------------------------------------------------
// Typing indicators
// ---------------------------------------------------------------------------

/// The setting that holds a typing indicator.
pub open spec fn typing_key(channel: Seq<char>, thread_id: Seq<char>) -> Seq<char> {
    "discord_typing:"@ + channel + ":"@ + thread_id
}

/// The setting that holds a typing indicator.
pub fn discord_typing_key(channel_id: &str, thread_id: &str) -> (r: String)
    ensures
        r@ == typing_key(channel_id@, thread_id@),
{
    let mut key = cat3("discord_typing:", channel_id, ":");
    key.append(thread_id);
    key
}

/// A typing indicator.
pub open spec fn typing_value(
    channel: Seq<char>,
    thread_id: JsonV,
    until: u64,
    next_at: u64,
) -> JsonV {
    JsonV::Object(
        Seq::empty()
            .push(("channelId"@, JsonV::Str(channel)))
            .push(("threadId"@, thread_id))
            .push(("until"@, JsonV::UInt(until)))
            .push(("nextAt"@, JsonV::UInt(next_at))),
    )
}

/// A typing indicator.
fn typing_json(channel_id: &str, thread_id: Json, until: u64, next_at: u64) -> (r: Json)
    ensures
        r@ == typing_value(channel_id@, thread_id@, until, next_at),
{
    Object::new().with("channelId", Json::text(channel_id)).with("threadId", thread_id).with(
        "until",
        Json::UInt(until),
    ).with("nextAt", Json::UInt(next_at)).done()
}

/// Keeps a fresh typing indicator: due at once, and gone after two minutes.
pub fn register_discord_typing_indicator(
    state: &mut BridgeState,
    discord: &DiscordConfig,
    thread_id: &str,
    now: u64,
)
    requires
        now + DISCORD_TYPING_TTL_MS <= u64::MAX,
    ensures
        final(state)@ == with_setting(
            old(state)@,
            typing_key(discord@.channel_id, thread_id@),
            json_text(
                typing_value(
                    discord@.channel_id,
                    JsonV::Str(thread_id@),
                    (now + DISCORD_TYPING_TTL_MS) as u64,
                    now,
                ),
            ),
        ),
{
    let key = discord_typing_key(discord.channel_id.as_str(), thread_id);
    let value = typing_json(
        discord.channel_id.as_str(),
        Json::text(thread_id),
        now + DISCORD_TYPING_TTL_MS,
        now,
    );
    set_setting_text(state, key.as_str(), value.to_text().as_str());
}

/// Removes a typing indicator.
pub fn clear_discord_typing_indicator(
    state: &mut BridgeState,
    discord: &DiscordConfig,
    thread_id: &str,
)
    ensures
        final(state)@ == without_setting(
            old(state)@,
            typing_key(discord@.channel_id, thread_id@),
        ),
{
    let key = discord_typing_key(discord.channel_id.as_str(), thread_id);
    delete_setting(state, key.as_str());
}

/// What is done with a typing indicator.
#[derive(Debug, Clone, Copy, PartialEq, Eq, Structural)]
pub enum TypingStep {
    /// It is dropped: its time is over, or it is no JSON.
    Drop,
    /// It belongs to another channel.
    Other,
    /// It is not due yet.
    Wait,
    /// It is shown again.
    Show,
}

/// A number of a typing indicator, or zero.
pub open spec fn typing_number(value: JsonV, key: Seq<char>) -> u64 {
    match uint_value(member(value, key)) {
        Some(n) => n,
        None => 0,
    }
}

/// What is done with a typing indicator at `now`.
pub open spec fn typing_decision(value: Option<JsonV>, channel: Seq<char>, now: u64) -> TypingStep {
    match value {
        None => TypingStep::Drop,
        Some(v) => if text_member(v, "channelId"@) != Some(channel) {
            TypingStep::Other
        } else if typing_number(v, "until"@) <= now {
            TypingStep::Drop
        } else if typing_number(v, "nextAt"@) > now {
            TypingStep::Wait
        } else {
            TypingStep::Show
        },
    }
}

/// A number of a typing indicator, or zero.
fn typing_number_of(value: &Json, key: &str) -> (r: u64)
    ensures
        r == typing_number(value@, key@),
{
    match value.get_u64(key) {
        Some(n) => n,
        None => 0,
    }
}

/// What is done with a typing indicator at `now`. One that is no JSON is missing.
pub fn typing_step(value: Option<&Json>, discord: &DiscordConfig, now: u64) -> (r: TypingStep)
    ensures
        r == typing_decision(value.deep_view(), discord@.channel_id, now),
{
    match value {
        None => TypingStep::Drop,
        Some(v) => if !str_is(v.get_text("channelId"), discord.channel_id.as_str()) {
            TypingStep::Other
        } else if typing_number_of(v, "until") <= now {
            TypingStep::Drop
        } else if typing_number_of(v, "nextAt") > now {
            TypingStep::Wait
        } else {
            TypingStep::Show
        },
    }
}

/// A typing indicator once it was shown at `now`.
pub fn typing_shown(value: &Json, discord: &DiscordConfig, now: u64) -> (r: Json)
    requires
        now + DISCORD_TYPING_REFRESH_MS <= u64::MAX,
    ensures
        r@ == typing_value(
            discord@.channel_id,
            or_null(member(value@, "threadId"@)),
            typing_number(value@, "until"@),
            (now + DISCORD_TYPING_REFRESH_MS) as u64,
        ),
{
    typing_json(
        discord.channel_id.as_str(),
        value.get_or_null("threadId"),
        typing_number_of(value, "until"),
        now + DISCORD_TYPING_REFRESH_MS,
    )
}

/// What a round changes about a typing indicator.
#[derive(Debug, PartialEq, Eq)]
pub enum TypingChange {
    /// It stays as it is.
    Keep,
    /// It is forgotten.
    Remove,
    /// This is kept in its place.
    Renew(Json),
}

/// The model of a change to a typing indicator.
pub enum TypingChangeV {
    Keep,
    Remove,
    Renew(JsonV),
}

impl View for TypingChange {
    type V = TypingChangeV;

    open spec fn view(&self) -> TypingChangeV {
        match self {
            TypingChange::Keep => TypingChangeV::Keep,
            TypingChange::Remove => TypingChangeV::Remove,
            TypingChange::Renew(value) => TypingChangeV::Renew(value@),
        }
    }
}

/// What a round at `now` changes about a typing indicator, given whether it could be shown:
/// only one that was shown is renewed.
pub open spec fn typing_change(
    value: Option<JsonV>,
    channel: Seq<char>,
    shown: bool,
    now: u64,
) -> TypingChangeV {
    match (typing_decision(value, channel, now), value) {
        (TypingStep::Drop, _) => TypingChangeV::Remove,
        (TypingStep::Show, Some(v)) => if shown {
            TypingChangeV::Renew(
                typing_value(
                    channel,
                    or_null(member(v, "threadId"@)),
                    typing_number(v, "until"@),
                    (now + DISCORD_TYPING_REFRESH_MS) as u64,
                ),
            )
        } else {
            TypingChangeV::Keep
        },
        _ => TypingChangeV::Keep,
    }
}

/// What a round at `now` changes about a typing indicator, given whether it could be shown.
pub fn settle_typing(
    value: Option<&Json>,
    discord: &DiscordConfig,
    shown: bool,
    now: u64,
) -> (r: TypingChange)
    requires
        now + DISCORD_TYPING_REFRESH_MS <= u64::MAX,
    ensures
        r@ == typing_change(value.deep_view(), discord@.channel_id, shown, now),
{
    match typing_step(value, discord, now) {
        TypingStep::Drop => TypingChange::Remove,
        TypingStep::Show => match value {
            Some(v) => if shown {
                TypingChange::Renew(typing_shown(v, discord, now))
            } else {
                TypingChange::Keep
            },
            None => TypingChange::Keep,
        },
        _ => TypingChange::Keep,
    }
}

/// An indicator that could not be shown is as due afterwards as it was.
pub proof fn failed_indicators_stay_due(value: JsonV, channel: Seq<char>, now: u64)
    requires
        typing_decision(Some(value), channel, now) == TypingStep::Show,
    ensures
        typing_change(Some(value), channel, false, now) == TypingChangeV::Keep,
        typing_change(Some(value), channel, true, now) is Renew,
{
}

/// A fresh indicator is shown at once, then not before eight seconds passed, and is dropped
/// after two minutes.
pub proof fn typing_is_renewed_and_ends(
    channel: Seq<char>,
    thread_id: JsonV,
    now: u64,
    later: u64,
)
    requires
        now + DISCORD_TYPING_TTL_MS <= u64::MAX,
        now <= later,
    ensures
        typing_decision(
            Some(
                typing_value(channel, thread_id, (now + DISCORD_TYPING_TTL_MS) as u64, now),
            ),
            channel,
            now,
        ) == TypingStep::Show,
        later >= now + DISCORD_TYPING_TTL_MS ==> typing_decision(
            Some(
                typing_value(channel, thread_id, (now + DISCORD_TYPING_TTL_MS) as u64, now),
            ),
            channel,
            later,
        ) == TypingStep::Drop,
        later < now + DISCORD_TYPING_REFRESH_MS ==> typing_decision(
            Some(
                typing_value(
                    channel,
                    thread_id,
                    (now + DISCORD_TYPING_TTL_MS) as u64,
                    (now + DISCORD_TYPING_REFRESH_MS) as u64,
                ),
            ),
            channel,
            later,
        ) == TypingStep::Wait,
{
    lemma_typing_members(
        channel,
        thread_id,
        (now + DISCORD_TYPING_TTL_MS) as u64,
        now,
    );
    lemma_typing_members(
        channel,
        thread_id,
        (now + DISCORD_TYPING_TTL_MS) as u64,
        (now + DISCORD_TYPING_REFRESH_MS) as u64,
    );
}

proof fn lemma_typing_members(channel: Seq<char>, thread_id: JsonV, until: u64, next_at: u64)
    ensures
        text_member(typing_value(channel, thread_id, until, next_at), "channelId"@) == Some(
            channel,
        ),
        typing_number(typing_value(channel, thread_id, until, next_at), "until"@) == until,
        typing_number(typing_value(channel, thread_id, until, next_at), "nextAt"@) == next_at,
{
    reveal_strlit("channelId");
    reveal_strlit("threadId");
    reveal_strlit("until");
    reveal_strlit("nextAt");
    assert("channelId"@.len() == 9 && "threadId"@.len() == 8 && "until"@.len() == 5
        && "nextAt"@.len() == 6);
    reveal_with_fuel(lookup_from, 5);
}

/// The report of a round over the typing indicators.
pub open spec fn typing_report(
    channel: Seq<char>,
    active: u64,
    sent: u64,
    expired: u64,
    failed: u64,
) -> JsonV {
    JsonV::Object(
        Seq::empty()
            .push(("ok"@, JsonV::Bool(failed == 0)))
            .push(("transport"@, JsonV::Str("discord"@)))
            .push(("channelId"@, JsonV::Str(channel)))
            .push(("active"@, JsonV::UInt(active)))
            .push(("sent"@, JsonV::UInt(sent)))
            .push(("expired"@, JsonV::UInt(expired)))
            .push(("failed"@, JsonV::UInt(failed))),
    )
}

/// How many steps of a kind there are among the first `n`.
pub open spec fn step_count(steps: Seq<(TypingStep, bool)>, n: nat, step: TypingStep) -> nat
    decreases n,
{
    if n == 0 || n > steps.len() {
        0
    } else {
        step_count(steps, (n - 1) as nat, step) + (if steps[n - 1].0 == step {
            1nat
        } else {
            0nat
        })
    }
}

/// How many indicators among the first `n` were shown.
pub open spec fn shown_count(steps: Seq<(TypingStep, bool)>, n: nat) -> nat
    decreases n,
{
    if n == 0 || n > steps.len() {
        0
    } else {
        shown_count(steps, (n - 1) as nat) + (if steps[n - 1].0 == TypingStep::Show && steps[n
            - 1].1 {
            1nat
        } else {
            0nat
        })
    }
}

/// The report of a round: each indicator with what was done, and whether showing it succeeded.
pub open spec fn typing_round(channel: Seq<char>, steps: Seq<(TypingStep, bool)>) -> JsonV {
    let n = steps.len();
    let shows = step_count(steps, n, TypingStep::Show);
    typing_report(
        channel,
        (step_count(steps, n, TypingStep::Wait) + shows) as u64,
        shown_count(steps, n) as u64,
        step_count(steps, n, TypingStep::Drop) as u64,
        (shows - shown_count(steps, n)) as u64,
    )
}

/// The report of a round over the typing indicators: each with what was done, and whether
/// showing it succeeded.
fn report_typing_round(
    discord: &DiscordConfig,
    steps: &Vec<(TypingStep, bool)>,
) -> (r: Json)
    ensures
        r@ == typing_round(discord@.channel_id, steps@),
{
    let mut waits: u64 = 0;
    let mut shows: u64 = 0;
    let mut sent: u64 = 0;
    let mut expired: u64 = 0;
    let mut i: usize = 0;
    while i < steps.len()
        invariant
            i <= steps@.len(),
            waits == step_count(steps@, i as nat, TypingStep::Wait),
            shows == step_count(steps@, i as nat, TypingStep::Show),
            expired == step_count(steps@, i as nat, TypingStep::Drop),
            sent == shown_count(steps@, i as nat),
            waits + shows <= i,
            expired <= i,
            sent <= shows,
        decreases steps@.len() - i,
    {
        match steps[i].0 {
            TypingStep::Wait => {
                waits += 1;
            },
            TypingStep::Show => {
                shows += 1;
                if steps[i].1 {
                    sent += 1;
                }
            },
            TypingStep::Drop => {
                expired += 1;
            },
            TypingStep::Other => {},
        }
        i += 1;
    }
    let failed: u64 = shows - sent;
    Object::new().with("ok", Json::Bool(failed == 0)).with(
        "transport",
        Json::text("discord"),
    ).with("channelId", Json::Str(discord.channel_id.clone())).with(
        "active",
        Json::UInt(waits + shows),
    ).with("sent", Json::UInt(sent)).with("expired", Json::UInt(expired)).with(
        "failed",
        Json::UInt(failed),
    ).done()
}

/// Typing indicators as they are kept: their keys, and what stands there where it is JSON.
pub type TypingRows = Seq<(Seq<char>, Option<JsonV>)>;

/// An indicator was shown.
pub open spec fn shown_at(shown: Seq<bool>, i: int) -> bool {
    0 <= i < shown.len() && shown[i]
}

/// What is done with each indicator in a round at `now`, and whether it was shown.
pub open spec fn typing_steps(
    rows: TypingRows,
    shown: Seq<bool>,
    channel: Seq<char>,
    now: u64,
) -> Seq<(TypingStep, bool)> {
    Seq::new(
        rows.len(),
        |i: int| (typing_decision(rows[i].1, channel, now), shown_at(shown, i)),
    )
}

/// The state once a change to an indicator was made.
pub open spec fn typing_changed(
    st: BridgeStateV,
    key: Seq<char>,
    change: TypingChangeV,
) -> BridgeStateV {
    match change {
        TypingChangeV::Keep => st,
        TypingChangeV::Remove => without_setting(st, key),
        TypingChangeV::Renew(value) => with_setting(st, key, json_text(value)),
    }
}

/// The state once a round dealt with the first `n` indicators.
pub open spec fn typing_settled(
    st: BridgeStateV,
    rows: TypingRows,
    shown: Seq<bool>,
    channel: Seq<char>,
    now: u64,
    n: nat,
) -> BridgeStateV
    decreases n,
{
    if n == 0 || n > rows.len() {
        st
    } else {
        typing_changed(
            typing_settled(st, rows, shown, channel, now, (n - 1) as nat),
            rows[n - 1].0,
            typing_change(rows[n - 1].1, channel, shown_at(shown, n - 1), now),
        )
    }
}

/// Ends a round over the typing indicators that are kept, given which of them were shown:
/// those whose time is over go, those that were shown are due again later, and the others
/// stay.
pub fn refresh_discord_typing_indicators(
    state: &mut BridgeState,
    discord: &DiscordConfig,
    rows: &Vec<(String, Option<Json>)>,
    shown: &Vec<bool>,
    now: u64,
) -> (r: Json)
    requires
        now + DISCORD_TYPING_REFRESH_MS <= u64::MAX,
    ensures
        final(state)@ == typing_settled(
            old(state)@,
            rows.deep_view(),
            shown@,
            discord@.channel_id,
            now,
            rows@.len(),
        ),
        r@ == typing_round(
            discord@.channel_id,
            typing_steps(rows.deep_view(), shown@, discord@.channel_id, now),
        ),
{
    let ghost all = rows.deep_view();
    let ghost before = state@;
    let ghost channel = discord@.channel_id;
    let mut steps: Vec<(TypingStep, bool)> = Vec::new();
    let mut i: usize = 0;
    while i < rows.len()
        invariant
            i <= rows@.len(),
            all == rows.deep_view(),
            channel == discord@.channel_id,
            now + DISCORD_TYPING_REFRESH_MS <= u64::MAX,
            state@ == typing_settled(before, all, shown@, channel, now, i as nat),
            steps@.len() == i,
            forall|k: int|
                0 <= k < i ==> #[trigger] steps@[k] == typing_steps(all, shown@, channel, now)[k],
        decreases rows@.len() - i,
    {
        assert(all[i as int] == (rows@[i as int].0@, rows@[i as int].1.deep_view()));
        let value: Option<&Json> = match &rows[i].1 {
            Some(v) => Some(v),
            None => None,
        };
        let was_shown: bool = i < shown.len() && shown[i];
        steps.push((typing_step(value, discord, now), was_shown));
        match settle_typing(value, discord, was_shown, now) {
            TypingChange::Keep => {},
            TypingChange::Remove => {
                delete_setting(state, rows[i].0.as_str());
            },
            TypingChange::Renew(next) => {
                set_setting_text(state, rows[i].0.as_str(), next.to_text().as_str());
            },
        }
        i += 1;
    }
    assert(steps@ =~= typing_steps(all, shown@, channel, now));
    report_typing_round(discord, &steps)
}

/// A round deals with each kept indicator by itself. One whose time is over is gone
/// afterwards, one that was shown keeps its end and is due again eight seconds later, and one
/// of another channel, one that is not due and one that could not be shown stay as they are.
/// No other setting changes, and every indicator that was due counts as sent or as failed.
pub proof fn typing_rounds_settle_each_row(
    st: BridgeStateV,
    rows: TypingRows,
    shown: Seq<bool>,
    channel: Seq<char>,
    now: u64,
    i: int,
    other: Seq<char>,
)
    requires
        st.well_formed(),
        now + DISCORD_TYPING_REFRESH_MS <= u64::MAX,
        keys_differ(rows, |r: (Seq<char>, Option<JsonV>)| r.0),
        0 <= i < rows.len(),
        forall|k: int| 0 <= k < rows.len() ==> (#[trigger] rows[k]).0 != other,
    ensures
        ({
            let after = typing_settled(st, rows, shown, channel, now, rows.len());
            let key = rows[i].0;
            let step = typing_decision(rows[i].1, channel, now);
            &&& after.well_formed()
            &&& setting(after, other) == setting(st, other)
            &&& step == TypingStep::Drop ==> setting(after, key) is None
            &&& step == TypingStep::Other || step == TypingStep::Wait ==> setting(after, key)
                == setting(st, key)
            &&& step == TypingStep::Show && !shown_at(shown, i) ==> setting(after, key) == setting(
                st,
                key,
            )
            &&& step == TypingStep::Show && shown_at(shown, i) ==> setting(after, key) == Some(
                json_text(
                    typing_value(
                        channel,
                        or_null(member(rows[i].1->0, "threadId"@)),
                        typing_number(rows[i].1->0, "until"@),
                        (now + DISCORD_TYPING_REFRESH_MS) as u64,
                    ),
                ),
            )
        }),
        ({
            let steps = typing_steps(rows, shown, channel, now);
            shown_count(steps, steps.len()) <= step_count(steps, steps.len(), TypingStep::Show)
        }),
{
    lemma_typing_settled(st, rows, shown, channel, now, rows.len(), i, other);
    let steps = typing_steps(rows, shown, channel, now);
    lemma_shown_count(steps, steps.len());
}

/// No more indicators are shown than are due.
proof fn lemma_shown_count(steps: Seq<(TypingStep, bool)>, n: nat)
    ensures
        shown_count(steps, n) <= step_count(steps, n, TypingStep::Show),
    decreases n,
{
    if n > 0 && n <= steps.len() {
        lemma_shown_count(steps, (n - 1) as nat);
    }
}

proof fn lemma_typing_settled(
    st: BridgeStateV,
    rows: TypingRows,
    shown: Seq<bool>,
    channel: Seq<char>,
    now: u64,
    n: nat,
    i: int,
    other: Seq<char>,
)
    requires
        st.well_formed(),
        n <= rows.len(),
        keys_differ(rows, |r: (Seq<char>, Option<JsonV>)| r.0),
        0 <= i < rows.len(),
        forall|k: int| 0 <= k < rows.len() ==> (#[trigger] rows[k]).0 != other,
    ensures
        ({
            let after = typing_settled(st, rows, shown, channel, now, n);
            let key = rows[i].0;
            &&& after.well_formed()
            &&& setting(after, other) == setting(st, other)
            &&& n <= i ==> setting(after, key) == setting(st, key)
            &&& i < n ==> setting(after, key) == (match typing_change(
                rows[i].1,
                channel,
                shown_at(shown, i),
                now,
            ) {
                TypingChangeV::Keep => setting(st, key),
                TypingChangeV::Remove => None,
                TypingChangeV::Renew(value) => Some(json_text(value)),
            })
        }),
    decreases n,
{
    if n > 0 {
        lemma_typing_settled(st, rows, shown, channel, now, (n - 1) as nat, i, other);
        let before = typing_settled(st, rows, shown, channel, now, (n - 1) as nat);
        let key = rows[n - 1].0;
        let name = |r: (Seq<char>, Option<JsonV>)| r.0;
        if n - 1 != i {
            assert(name(rows[n - 1]) != name(rows[i]));
        }
        match typing_change(rows[n - 1].1, channel, shown_at(shown, n - 1), now) {
            TypingChangeV::Keep => {},
            TypingChangeV::Remove => {
                setting_after_delete(before, key, rows[i].0);
                setting_after_delete(before, key, other);
            },
            TypingChangeV::Renew(value) => {
                setting_after_set(before, key, json_text(value), rows[i].0);
                setting_after_set(before, key, json_text(value), other);
            },
        }
    }
}

} // verus!
