//! Routes from what the bridge sent back to threads and commands, and what was handled and delivered.
use vstd::prelude::*;
use vstd::string::*;

use crate::error::BridgeError;
use crate::json::{Json, JsonV};
use crate::state::{
    BridgeState, BridgeStateV, callback_route_row_key, CallbackRouteRow, CallbackRouteRowV,
    command_route_row_key, CommandRouteRow, CommandRouteRowV, find_callback_route,
    find_command_route, find_inbound, find_message_route, find_transport, inbound_row_key,
    InboundRow, InboundRowV, message_route_row_key, MessageRouteRow, MessageRouteRowV, out_of_range,
    to_sql_i64, transport_row_key, TransportRow, TransportRowV,
};
use crate::table::{
    add_keeps_keys, add_new_row, first_row, has_row, key_is, lemma_first_push, lemma_position,
    put_keeps_keys, put_leaves_others, put_row,
};
use crate::text::same;

verus! {

/// What is noted beside a handled update.
#[derive(Debug, Default, PartialEq, Eq)]
pub struct TelegramInboundLogContext {
    pub thread_id: Option<String>,
    pub route_message_id: Option<i64>,
    pub result_action: Option<String>,
    pub codex_transport: Option<String>,
    pub codex_app_server_pid: Option<u32>,
}

/// The model of [`TelegramInboundLogContext`].
#[verifier::ext_equal]
pub struct TelegramInboundLogContextV {
    pub thread_id: Option<Seq<char>>,
    pub route_message_id: Option<i64>,
    pub result_action: Option<Seq<char>>,
    pub codex_transport: Option<Seq<char>>,
    pub codex_app_server_pid: Option<u32>,
}

impl View for TelegramInboundLogContext {
    type V = TelegramInboundLogContextV;

    open spec fn view(&self) -> TelegramInboundLogContextV {
        TelegramInboundLogContextV {
            thread_id: self.thread_id.deep_view(),
            route_message_id: self.route_message_id,
            result_action: self.result_action.deep_view(),
            codex_transport: self.codex_transport.deep_view(),
            codex_app_server_pid: self.codex_app_server_pid,
        }
    }
}

impl DeepView for TelegramInboundLogContext {
    type V = TelegramInboundLogContextV;

    open spec fn deep_view(&self) -> TelegramInboundLogContextV {
        self@
    }
}

/// A button and what it stands for.
#[derive(Debug, PartialEq, Eq)]
pub struct TelegramCallbackRoute {
    pub callback_id: String,
    pub chat_id: String,
    pub message_id: Option<i64>,
    pub thread_id: String,
    pub action: TelegramCallbackAction,
}

/// The model of [`TelegramCallbackRoute`].
#[verifier::ext_equal]
pub struct TelegramCallbackRouteV {
    pub callback_id: Seq<char>,
    pub chat_id: Seq<char>,
    pub message_id: Option<i64>,
    pub thread_id: Seq<char>,
    pub action: TelegramCallbackAction,
}

impl View for TelegramCallbackRoute {
    type V = TelegramCallbackRouteV;

    open spec fn view(&self) -> TelegramCallbackRouteV {
        TelegramCallbackRouteV {
            callback_id: self.callback_id@,
            chat_id: self.chat_id@,
            message_id: self.message_id,
            thread_id: self.thread_id@,
            action: self.action,
        }
    }
}

impl DeepView for TelegramCallbackRoute {
    type V = TelegramCallbackRouteV;

    open spec fn deep_view(&self) -> TelegramCallbackRouteV {
        self@
    }
}

// ---------------------------------------------------------------------------
// Routes
// ---------------------------------------------------------------------------

/// What a reply to a question of the bridge leads to.
#[derive(Debug, Clone, Copy, PartialEq, Eq, Structural)]
pub enum TelegramCommandRouteKind {
    NewThread,
}

/// The name of a command route in the database.
pub open spec fn route_kind_text(kind: TelegramCommandRouteKind) -> Seq<char> {
    match kind {
        TelegramCommandRouteKind::NewThread => "new_thread"@,
    }
}

/// The command route with this name.
pub open spec fn route_kind_of(value: Seq<char>) -> Option<TelegramCommandRouteKind> {
    if value == "new_thread"@ {
        Some(TelegramCommandRouteKind::NewThread)
    } else {
        None
    }
}

impl TelegramCommandRouteKind {
    /// The name of the route in the database.
    pub fn as_str(self) -> (r: &'static str)
        ensures
            r@ == route_kind_text(self),
    {
        match self {
            TelegramCommandRouteKind::NewThread => "new_thread",
        }
    }

    /// The route with this name.
    pub fn from_str(value: &str) -> (r: Option<TelegramCommandRouteKind>)
        ensures
            r == route_kind_of(value@),
    {
        if same(value, "new_thread") {
            Some(TelegramCommandRouteKind::NewThread)
        } else {
            None
        }
    }
}

/// What a button answers.
#[derive(Debug, Clone, Copy, PartialEq, Eq, Structural)]
pub enum TelegramCallbackAction {
    Approve,
    Deny,
}

/// The name of a button's answer in the database.
pub open spec fn callback_text(action: TelegramCallbackAction) -> Seq<char> {
    match action {
        TelegramCallbackAction::Approve => "approve"@,
        TelegramCallbackAction::Deny => "deny"@,
    }
}

/// The answer with this name.
pub open spec fn callback_of(value: Seq<char>) -> Option<TelegramCallbackAction> {
    if value == "approve"@ {
        Some(TelegramCallbackAction::Approve)
    } else if value == "deny"@ {
        Some(TelegramCallbackAction::Deny)
    } else {
        None
    }
}

impl TelegramCallbackAction {
    /// The name of the answer in the database.
    pub fn as_str(self) -> (r: &'static str)
        ensures
            r@ == callback_text(self),
    {
        match self {
            TelegramCallbackAction::Approve => "approve",
            TelegramCallbackAction::Deny => "deny",
        }
    }

    /// The answer with this name.
    pub fn from_str(value: &str) -> (r: Option<TelegramCallbackAction>)
        ensures
            r == callback_of(value@),
    {
        if same(value, "approve") {
            Some(TelegramCallbackAction::Approve)
        } else if same(value, "deny") {
            Some(TelegramCallbackAction::Deny)
        } else {
            None
        }
    }
}

/// The names in the database read back as what they stand for.
pub proof fn route_names_read_back(kind: TelegramCommandRouteKind, action: TelegramCallbackAction)
    ensures
        route_kind_of(route_kind_text(kind)) == Some(kind),
        callback_of(callback_text(action)) == Some(action),
{
    reveal_strlit("approve");
    reveal_strlit("deny");
    assert("approve"@.len() != "deny"@.len());
}

/// The state with the route of a sent message.
pub open spec fn with_message_route(st: BridgeStateV, row: MessageRouteRowV) -> BridgeStateV {
    BridgeStateV {
        message_routes: put_row(
            st.message_routes,
            key_is(message_route_row_key(), (row.chat_id, row.message_id)),
            row,
        ),
        ..st
    }
}

/// Remembers the thread that a sent message belongs to.
pub fn insert_telegram_message_route(
    state: &mut BridgeState,
    chat_id: &str,
    message_id: i64,
    thread_id: &str,
    event_id: &str,
    now: u64,
) -> (r: Result<(), BridgeError>)
    ensures
        match r {
            Ok(_) => now <= i64::MAX && final(state)@ == with_message_route(
                old(state)@,
                MessageRouteRowV {
                    chat_id: chat_id@,
                    message_id,
                    thread_id: thread_id@,
                    event_id: event_id@,
                    created_at: now as i64,
                },
            ),
            Err(e) => now > i64::MAX && e@ == out_of_range() && final(state)@ == old(state)@,
        },
{
    let created_at: i64 = match to_sql_i64(now) {
        Ok(v) => v,
        Err(e) => {
            return Err(e);
        },
    };
    let row = MessageRouteRow {
        chat_id: chat_id.to_owned(),
        message_id,
        thread_id: thread_id.to_owned(),
        event_id: event_id.to_owned(),
        created_at,
    };
    let ghost before = state.message_routes.deep_view();
    let i: usize = find_message_route(&state.message_routes, chat_id, message_id);
    if i < state.message_routes.len() {
        state.message_routes[i] = row;
        assert(state.message_routes.deep_view() =~= before.update(i as int, row@));
    } else {
        state.message_routes.push(row);
        assert(state.message_routes.deep_view() =~= before.push(row@));
    }
    Ok(())
}

/// The thread that a sent message belongs to.
pub open spec fn message_thread(st: BridgeStateV, chat_id: Seq<char>, message_id: i64) -> Option<
    Seq<char>,
> {
    match first_row(st.message_routes, key_is(message_route_row_key(), (chat_id, message_id))) {
        Some(row) => Some(row.thread_id),
        None => None,
    }
}

/// The thread that a sent message belongs to.
pub fn lookup_telegram_message_route(state: &BridgeState, chat_id: &str, message_id: i64) -> (r:
    Option<String>)
    ensures
        r.deep_view() == message_thread(state@, chat_id@, message_id),
{
    let i: usize = find_message_route(&state.message_routes, chat_id, message_id);
    if i < state.message_routes.len() {
        Some(state.message_routes[i].thread_id.clone())
    } else {
        None
    }
}

/// A message that was sent for a thread leads back to that thread, and every other
/// message leads where it led before.
pub proof fn replies_reach_their_thread(
    st: BridgeStateV,
    row: MessageRouteRowV,
    chat_id: Seq<char>,
    message_id: i64,
)
    requires
        st.well_formed(),
    ensures
        with_message_route(st, row).well_formed(),
        message_thread(with_message_route(st, row), row.chat_id, row.message_id) == Some(
            row.thread_id,
        ),
        (chat_id, message_id) != (row.chat_id, row.message_id) ==> message_thread(
            with_message_route(st, row),
            chat_id,
            message_id,
        ) == message_thread(st, chat_id, message_id),
{
    put_keeps_keys(st.message_routes, message_route_row_key(), row);
    if (chat_id, message_id) != (row.chat_id, row.message_id) {
        put_leaves_others(
            st.message_routes,
            message_route_row_key(),
            row,
            (chat_id, message_id),
        );
    }
}

/// The state with the route of a button.
pub open spec fn with_callback_route(st: BridgeStateV, row: CallbackRouteRowV) -> BridgeStateV {
    BridgeStateV {
        callback_routes: put_row(
            st.callback_routes,
            key_is(callback_route_row_key(), row.callback_id),
            row,
        ),
        ..st
    }
}

/// The row of a button that was made at `now`.
pub open spec fn callback_row(route: TelegramCallbackRouteV, now: i64) -> CallbackRouteRowV {
    CallbackRouteRowV {
        callback_id: route.callback_id,
        chat_id: route.chat_id,
        message_id: route.message_id,
        thread_id: route.thread_id,
        action: callback_text(route.action),
        created_at: now,
        used_at: None,
    }
}

/// Remembers what a button stands for; it was not used yet.
pub fn insert_telegram_callback_route(
    state: &mut BridgeState,
    route: &TelegramCallbackRoute,
    now: u64,
) -> (r: Result<(), BridgeError>)
    ensures
        match r {
            Ok(_) => now <= i64::MAX && final(state)@ == with_callback_route(
                old(state)@,
                callback_row(route@, now as i64),
            ),
            Err(e) => now > i64::MAX && e@ == out_of_range() && final(state)@ == old(state)@,
        },
{
    let created_at: i64 = match to_sql_i64(now) {
        Ok(v) => v,
        Err(e) => {
            return Err(e);
        },
    };
    let row = CallbackRouteRow {
        callback_id: route.callback_id.clone(),
        chat_id: route.chat_id.clone(),
        message_id: route.message_id,
        thread_id: route.thread_id.clone(),
        action: route.action.as_str().to_owned(),
        created_at,
        used_at: None,
    };
    let ghost before = state.callback_routes.deep_view();
    let i: usize = find_callback_route(&state.callback_routes, route.callback_id.as_str());
    if i < state.callback_routes.len() {
        state.callback_routes[i] = row;
        assert(state.callback_routes.deep_view() =~= before.update(i as int, row@));
    } else {
        state.callback_routes.push(row);
        assert(state.callback_routes.deep_view() =~= before.push(row@));
    }
    Ok(())
}

/// The routes of buttons with the first row of `callback_id` replaced by its image.
pub open spec fn callback_updated(
    st: BridgeStateV,
    callback_id: Seq<char>,
    image: spec_fn(CallbackRouteRowV) -> CallbackRouteRowV,
) -> BridgeStateV {
    let hit = key_is(callback_route_row_key(), callback_id);
    match first_row(st.callback_routes, hit) {
        Some(row) => BridgeStateV {
            callback_routes: put_row(st.callback_routes, hit, image(row)),
            ..st
        },
        None => st,
    }
}

/// Ties a button to the message that shows it.
pub fn update_telegram_callback_message_id(
    state: &mut BridgeState,
    callback_id: &str,
    message_id: i64,
)
    ensures
        final(state)@ == callback_updated(
            old(state)@,
            callback_id@,
            |row: CallbackRouteRowV| CallbackRouteRowV { message_id: Some(message_id), ..row },
        ),
{
    let ghost before = state.callback_routes.deep_view();
    let i: usize = find_callback_route(&state.callback_routes, callback_id);
    if i < state.callback_routes.len() {
        assert(before[i as int] == state.callback_routes@[i as int]@);
        state.callback_routes[i].message_id = Some(message_id);
        assert(state.callback_routes.deep_view() =~= before.update(
            i as int,
            CallbackRouteRowV { message_id: Some(message_id), ..before[i as int] },
        ));
    }
}

/// Marks a button as used, unless it was used before.
pub fn mark_telegram_callback_route_used(
    state: &mut BridgeState,
    callback_id: &str,
    now: u64,
) -> (r: Result<(), BridgeError>)
    ensures
        match r {
            Ok(_) => now <= i64::MAX && final(state)@ == callback_updated(
                old(state)@,
                callback_id@,
                |row: CallbackRouteRowV|
                    if row.used_at is None {
                        CallbackRouteRowV { used_at: Some(now as i64), ..row }
                    } else {
                        row
                    },
            ),
            Err(e) => now > i64::MAX && e@ == out_of_range() && final(state)@ == old(state)@,
        },
{
    let used_at: i64 = match to_sql_i64(now) {
        Ok(v) => v,
        Err(e) => {
            return Err(e);
        },
    };
    let ghost before = state.callback_routes.deep_view();
    let i: usize = find_callback_route(&state.callback_routes, callback_id);
    if i < state.callback_routes.len() {
        assert(before[i as int] == state.callback_routes@[i as int]@);
        if state.callback_routes[i].used_at.is_none() {
            state.callback_routes[i].used_at = Some(used_at);
            assert(state.callback_routes.deep_view() =~= before.update(
                i as int,
                CallbackRouteRowV { used_at: Some(used_at), ..before[i as int] },
            ));
        } else {
            assert(before =~= before.update(i as int, before[i as int]));
        }
    }
    Ok(())
}

/// The state with the route of a question.
pub open spec fn with_command_route(st: BridgeStateV, row: CommandRouteRowV) -> BridgeStateV {
    BridgeStateV {
        command_routes: put_row(
            st.command_routes,
            key_is(command_route_row_key(), (row.chat_id, row.message_id)),
            row,
        ),
        ..st
    }
}

/// Remembers what a reply to a question leads to; it was not used yet.
pub fn insert_telegram_command_route(
    state: &mut BridgeState,
    chat_id: &str,
    message_id: i64,
    kind: TelegramCommandRouteKind,
    payload: Option<Json>,
    now: u64,
) -> (r: Result<(), BridgeError>)
    ensures
        match r {
            Ok(_) => now <= i64::MAX && final(state)@ == with_command_route(
                old(state)@,
                CommandRouteRowV {
                    chat_id: chat_id@,
                    message_id,
                    command: route_kind_text(kind),
                    payload: payload.deep_view(),
                    created_at: now as i64,
                    used_at: None,
                },
            ),
            Err(e) => now > i64::MAX && e@ == out_of_range() && final(state)@ == old(state)@,
        },
{
    let created_at: i64 = match to_sql_i64(now) {
        Ok(v) => v,
        Err(e) => {
            return Err(e);
        },
    };
    let row = CommandRouteRow {
        chat_id: chat_id.to_owned(),
        message_id,
        command: kind.as_str().to_owned(),
        payload,
        created_at,
        used_at: None,
    };
    let ghost before = state.command_routes.deep_view();
    let i: usize = find_command_route(&state.command_routes, chat_id, message_id);
    if i < state.command_routes.len() {
        state.command_routes[i] = row;
        assert(state.command_routes.deep_view() =~= before.update(i as int, row@));
    } else {
        state.command_routes.push(row);
        assert(state.command_routes.deep_view() =~= before.push(row@));
    }
    Ok(())
}

/// What a reply to a message leads to: the route of an unused question.
pub open spec fn command_route(st: BridgeStateV, chat_id: Seq<char>, message_id: i64) -> Option<
    (TelegramCommandRouteKind, Option<JsonV>),
> {
    match first_row(st.command_routes, key_is(command_route_row_key(), (chat_id, message_id))) {
        Some(row) => if row.used_at is None {
            match route_kind_of(row.command) {
                Some(kind) => Some((kind, row.payload)),
                None => None,
            }
        } else {
            None
        },
        None => None,
    }
}

/// What a reply to a message leads to.
pub fn lookup_telegram_command_route(state: &BridgeState, chat_id: &str, message_id: i64) -> (r:
    Option<(TelegramCommandRouteKind, Option<Json>)>)
    ensures
        match (r, command_route(state@, chat_id@, message_id)) {
            (Some(a), Some(b)) => a.0 == b.0 && a.1.deep_view() == b.1,
            (None, None) => true,
            _ => false,
        },
{
    let i: usize = find_command_route(&state.command_routes, chat_id, message_id);
    if i < state.command_routes.len() {
        let row = &state.command_routes[i];
        assert(state.command_routes.deep_view()[i as int] == row@);
        if row.used_at.is_none() {
            match TelegramCommandRouteKind::from_str(row.command.as_str()) {
                Some(kind) => {
                    let payload: Option<Json> = match &row.payload {
                        Some(v) => Some(v.clone()),
                        None => None,
                    };
                    Some((kind, payload))
                },
                None => None,
            }
        } else {
            None
        }
    } else {
        None
    }
}

/// The state once a question is used.
pub open spec fn with_used_command(
    st: BridgeStateV,
    chat_id: Seq<char>,
    message_id: i64,
    now: i64,
) -> BridgeStateV {
    let hit = key_is(command_route_row_key(), (chat_id, message_id));
    match first_row(st.command_routes, hit) {
        Some(row) => BridgeStateV {
            command_routes: put_row(
                st.command_routes,
                hit,
                CommandRouteRowV { used_at: Some(now), ..row },
            ),
            ..st
        },
        None => st,
    }
}

/// Marks a question as used.
pub fn mark_telegram_command_route_used(
    state: &mut BridgeState,
    chat_id: &str,
    message_id: i64,
    now: u64,
) -> (r: Result<(), BridgeError>)
    ensures
        match r {
            Ok(_) => now <= i64::MAX && final(state)@ == with_used_command(
                old(state)@,
                chat_id@,
                message_id,
                now as i64,
            ),
            Err(e) => now > i64::MAX && e@ == out_of_range() && final(state)@ == old(state)@,
        },
{
    let used_at: i64 = match to_sql_i64(now) {
        Ok(v) => v,
        Err(e) => {
            return Err(e);
        },
    };
    let ghost before = state.command_routes.deep_view();
    let i: usize = find_command_route(&state.command_routes, chat_id, message_id);
    if i < state.command_routes.len() {
        assert(before[i as int] == state.command_routes@[i as int]@);
        state.command_routes[i].used_at = Some(used_at);
        assert(state.command_routes.deep_view() =~= before.update(
            i as int,
            CommandRouteRowV { used_at: Some(used_at), ..before[i as int] },
        ));
    }
    Ok(())
}

/// A question leads somewhere once: after it is used, a reply to it leads nowhere.
pub proof fn questions_are_used_once(
    st: BridgeStateV,
    chat_id: Seq<char>,
    message_id: i64,
    now: i64,
)
    requires
        st.well_formed(),
    ensures
        command_route(with_used_command(st, chat_id, message_id, now), chat_id, message_id) is None,
        with_used_command(st, chat_id, message_id, now).well_formed(),
{
    let hit = key_is(command_route_row_key(), (chat_id, message_id));
    lemma_position(st.command_routes, hit, 0);
    match first_row(st.command_routes, hit) {
        Some(row) => {
            let used = CommandRouteRowV { used_at: Some(now), ..row };
            put_keeps_keys(st.command_routes, command_route_row_key(), used);
        },
        None => {},
    }
}

// ---------------------------------------------------------------------------
// Handled updates and deliveries by transport
// ---------------------------------------------------------------------------

/// An update of a bot was handled.
pub open spec fn update_handled(st: BridgeStateV, bot_id: Seq<char>, update_id: i64) -> bool {
    has_row(st.inbound, key_is(inbound_row_key(), (bot_id, update_id)))
}

/// Tells whether an update of a bot was handled.
pub fn telegram_inbound_processed(state: &BridgeState, bot_id: &str, update_id: i64) -> (r: bool)
    ensures
        r == update_handled(state@, bot_id@, update_id),
{
    find_inbound(&state.inbound, bot_id, update_id) < state.inbound.len()
}

/// The state once an update is logged.
pub open spec fn with_inbound(st: BridgeStateV, row: InboundRowV) -> BridgeStateV {
    BridgeStateV {
        inbound: add_new_row(
            st.inbound,
            key_is(inbound_row_key(), (row.bot_id, row.update_id)),
            row,
        ),
        ..st
    }
}

/// The row of an update that was handled at `now`.
pub open spec fn inbound_row(
    bot_id: Seq<char>,
    update_id: i64,
    update_kind: Seq<char>,
    result: JsonV,
    context: TelegramInboundLogContextV,
    now: i64,
) -> InboundRowV {
    InboundRowV {
        bot_id,
        update_id,
        update_kind,
        result,
        processed_at: now,
        thread_id: context.thread_id,
        route_message_id: context.route_message_id,
        result_action: context.result_action,
        codex_transport: context.codex_transport,
        codex_app_server_pid: match context.codex_app_server_pid {
            Some(pid) => Some(pid as i64),
            None => None,
        },
    }
}

/// Logs an update as handled, once.
pub fn record_telegram_inbound_processed(
    state: &mut BridgeState,
    bot_id: &str,
    update_id: i64,
    update_kind: &str,
    result: &Json,
    context: TelegramInboundLogContext,
    now: u64,
) -> (r: Result<(), BridgeError>)
    ensures
        match r {
            Ok(_) => now <= i64::MAX && final(state)@ == with_inbound(
                old(state)@,
                inbound_row(bot_id@, update_id, update_kind@, result@, context@, now as i64),
            ),
            Err(e) => now > i64::MAX && e@ == out_of_range() && final(state)@ == old(state)@,
        },
{
    let processed_at: i64 = match to_sql_i64(now) {
        Ok(v) => v,
        Err(e) => {
            return Err(e);
        },
    };
    let i: usize = find_inbound(&state.inbound, bot_id, update_id);
    if i < state.inbound.len() {
        return Ok(());
    }
    let ghost logged = context@;
    let pid: Option<i64> = match context.codex_app_server_pid {
        Some(v) => Some(v as i64),
        None => None,
    };
    let row = InboundRow {
        bot_id: bot_id.to_owned(),
        update_id,
        update_kind: update_kind.to_owned(),
        result: result.clone(),
        processed_at,
        thread_id: context.thread_id,
        route_message_id: context.route_message_id,
        result_action: context.result_action,
        codex_transport: context.codex_transport,
        codex_app_server_pid: pid,
    };
    let ghost before = state.inbound.deep_view();
    state.inbound.push(row);
    assert(row@ == inbound_row(bot_id@, update_id, update_kind@, result@, logged, now as i64));
    assert(state.inbound.deep_view() =~= before.push(row@));
    Ok(())
}

/// An update that was logged counts as handled, and the updates of other bots, and
/// other updates, count as they did.
pub proof fn handled_updates_stay_handled(
    st: BridgeStateV,
    row: InboundRowV,
    bot_id: Seq<char>,
    update_id: i64,
)
    requires
        st.well_formed(),
    ensures
        with_inbound(st, row).well_formed(),
        update_handled(with_inbound(st, row), row.bot_id, row.update_id),
        (bot_id, update_id) != (row.bot_id, row.update_id) ==> update_handled(
            with_inbound(st, row),
            bot_id,
            update_id,
        ) == update_handled(st, bot_id, update_id),
{
    add_keeps_keys(st.inbound, inbound_row_key(), row);
    let other = key_is(inbound_row_key(), (bot_id, update_id));
    if (bot_id, update_id) != (row.bot_id, row.update_id) {
        lemma_first_push(st.inbound, row, other);
    }
}

/// A transport delivered an event.
pub open spec fn transport_delivered(
    st: BridgeStateV,
    event_id: Seq<char>,
    transport: Seq<char>,
) -> bool {
    has_row(st.transports, key_is(transport_row_key(), (event_id, transport)))
}

/// Tells whether a transport delivered an event.
pub fn transport_delivery_exists(state: &BridgeState, event_id: &str, transport: &str) -> (r: bool)
    ensures
        r == transport_delivered(state@, event_id@, transport@),
{
    find_transport(&state.transports, event_id, transport) < state.transports.len()
}

/// The state once the delivery of an event by a transport is logged.
pub open spec fn with_transport(st: BridgeStateV, row: TransportRowV) -> BridgeStateV {
    BridgeStateV {
        transports: add_new_row(
            st.transports,
            key_is(transport_row_key(), (row.event_id, row.transport)),
            row,
        ),
        ..st
    }
}

/// Logs the delivery of an event by a transport, once.
pub fn record_transport_delivery(
    state: &mut BridgeState,
    event_id: &str,
    transport: &str,
    result: &Json,
    now: u64,
) -> (r: Result<(), BridgeError>)
    ensures
        match r {
            Ok(_) => now <= i64::MAX && final(state)@ == with_transport(
                old(state)@,
                TransportRowV {
                    event_id: event_id@,
                    transport: transport@,
                    result: result@,
                    delivered_at: now as i64,
                },
            ),
            Err(e) => now > i64::MAX && e@ == out_of_range() && final(state)@ == old(state)@,
        },
{
    let delivered_at: i64 = match to_sql_i64(now) {
        Ok(v) => v,
        Err(e) => {
            return Err(e);
        },
    };
    let i: usize = find_transport(&state.transports, event_id, transport);
    if i < state.transports.len() {
        return Ok(());
    }
    let row = TransportRow {
        event_id: event_id.to_owned(),
        transport: transport.to_owned(),
        result: result.clone(),
        delivered_at,
    };
    let ghost before = state.transports.deep_view();
    state.transports.push(row);
    assert(state.transports.deep_view() =~= before.push(row@));
    Ok(())
}

/// A delivery counts for its transport alone: the other transports of the same
/// event stay as they were.
pub proof fn transports_deliver_independently(
    st: BridgeStateV,
    row: TransportRowV,
    event_id: Seq<char>,
    transport: Seq<char>,
)
    requires
        st.well_formed(),
    ensures
        with_transport(st, row).well_formed(),
        transport_delivered(with_transport(st, row), row.event_id, row.transport),
        (event_id, transport) != (row.event_id, row.transport) ==> transport_delivered(
            with_transport(st, row),
            event_id,
            transport,
        ) == transport_delivered(st, event_id, transport),
{
    add_keeps_keys(st.transports, transport_row_key(), row);
    let other = key_is(transport_row_key(), (event_id, transport));
    if (event_id, transport) != (row.event_id, row.transport) {
        lemma_first_push(st.transports, row, other);
    }
}

} // verus!
