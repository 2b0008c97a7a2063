//! The state of the bridge: its tables, their rows and their keys.
use vstd::prelude::*;
use vstd::string::*;

use crate::error::{BridgeError, BridgeErrorV, failure, in_context, outcome};
use crate::json::{Json, JsonV};
use crate::table::{key_is, keys_differ, position};
use crate::text::{copy_opt, copy_texts, same};

verus! {

/// A setting.
#[derive(Debug, PartialEq, Eq)]
pub struct SettingRow {
    pub key: String,
    pub value: String,
}

/// The model of [`SettingRow`].
#[verifier::ext_equal]
pub struct SettingRowV {
    pub key: Seq<char>,
    pub value: Seq<char>,
}

impl View for SettingRow {
    type V = SettingRowV;

    open spec fn view(&self) -> SettingRowV {
        SettingRowV {
            key: self.key@,
            value: self.value@,
        }
    }
}

impl DeepView for SettingRow {
    type V = SettingRowV;

    open spec fn deep_view(&self) -> SettingRowV {
        self@
    }
}

/// A thread as it was last seen. Times are as the database keeps them.
#[derive(Debug, PartialEq, Eq)]
pub struct ThreadRow {
    pub thread_id: String,
    pub name: Option<String>,
    pub cwd: Option<String>,
    pub source: String,
    pub status_type: String,
    pub status_flags: Vec<String>,
    pub updated_at: Option<i64>,
    pub last_seen_at: i64,
    pub last_turn_status: Option<String>,
    pub last_preview: Option<String>,
}

/// The model of [`ThreadRow`].
#[verifier::ext_equal]
pub struct ThreadRowV {
    pub thread_id: Seq<char>,
    pub name: Option<Seq<char>>,
    pub cwd: Option<Seq<char>>,
    pub source: Seq<char>,
    pub status_type: Seq<char>,
    pub status_flags: Seq<Seq<char>>,
    pub updated_at: Option<i64>,
    pub last_seen_at: i64,
    pub last_turn_status: Option<Seq<char>>,
    pub last_preview: Option<Seq<char>>,
}

impl View for ThreadRow {
    type V = ThreadRowV;

    open spec fn view(&self) -> ThreadRowV {
        ThreadRowV {
            thread_id: self.thread_id@,
            name: self.name.deep_view(),
            cwd: self.cwd.deep_view(),
            source: self.source@,
            status_type: self.status_type@,
            status_flags: self.status_flags.deep_view(),
            updated_at: self.updated_at,
            last_seen_at: self.last_seen_at,
            last_turn_status: self.last_turn_status.deep_view(),
            last_preview: self.last_preview.deep_view(),
        }
    }
}

impl DeepView for ThreadRow {
    type V = ThreadRowV;

    open spec fn deep_view(&self) -> ThreadRowV {
        self@
    }
}

impl Clone for ThreadRow {
    fn clone(&self) -> (r: ThreadRow)
        ensures
            r@ == self@,
    {
        ThreadRow {
            thread_id: self.thread_id.clone(),
            name: copy_opt(&self.name),
            cwd: copy_opt(&self.cwd),
            source: self.source.clone(),
            status_type: self.status_type.clone(),
            status_flags: copy_texts(&self.status_flags),
            updated_at: self.updated_at,
            last_seen_at: self.last_seen_at,
            last_turn_status: copy_opt(&self.last_turn_status),
            last_preview: copy_opt(&self.last_preview),
        }
    }
}

/// A prompt that waits in a thread.
#[derive(Debug, PartialEq, Eq)]
pub struct PromptRow {
    pub thread_id: String,
    pub prompt_id: String,
    pub prompt_kind: String,
    pub prompt_status: String,
    pub question: String,
    pub created_at: i64,
}

/// The model of [`PromptRow`].
#[verifier::ext_equal]
pub struct PromptRowV {
    pub thread_id: Seq<char>,
    pub prompt_id: Seq<char>,
    pub prompt_kind: Seq<char>,
    pub prompt_status: Seq<char>,
    pub question: Seq<char>,
    pub created_at: i64,
}

impl View for PromptRow {
    type V = PromptRowV;

    open spec fn view(&self) -> PromptRowV {
        PromptRowV {
            thread_id: self.thread_id@,
            prompt_id: self.prompt_id@,
            prompt_kind: self.prompt_kind@,
            prompt_status: self.prompt_status@,
            question: self.question@,
            created_at: self.created_at,
        }
    }
}

impl DeepView for PromptRow {
    type V = PromptRowV;

    open spec fn deep_view(&self) -> PromptRowV {
        self@
    }
}

/// An event that was handed on.
#[derive(Debug, PartialEq, Eq)]
pub struct DeliveryRow {
    pub event_key: String,
    pub thread_id: String,
    pub event_type: String,
    pub delivered_at: i64,
}

/// The model of [`DeliveryRow`].
#[verifier::ext_equal]
pub struct DeliveryRowV {
    pub event_key: Seq<char>,
    pub thread_id: Seq<char>,
    pub event_type: Seq<char>,
    pub delivered_at: i64,
}

impl View for DeliveryRow {
    type V = DeliveryRowV;

    open spec fn view(&self) -> DeliveryRowV {
        DeliveryRowV {
            event_key: self.event_key@,
            thread_id: self.thread_id@,
            event_type: self.event_type@,
            delivered_at: self.delivered_at,
        }
    }
}

impl DeepView for DeliveryRow {
    type V = DeliveryRowV;

    open spec fn deep_view(&self) -> DeliveryRowV {
        self@
    }
}

/// An event that was seen in a thread.
#[derive(Debug, PartialEq, Eq)]
pub struct EventRow {
    pub event_key: String,
    pub thread_id: String,
    pub event_type: String,
    pub observed_at: i64,
    pub payload: Json,
}

/// The model of [`EventRow`].
#[verifier::ext_equal]
pub struct EventRowV {
    pub event_key: Seq<char>,
    pub thread_id: Seq<char>,
    pub event_type: Seq<char>,
    pub observed_at: i64,
    pub payload: JsonV,
}

impl View for EventRow {
    type V = EventRowV;

    open spec fn view(&self) -> EventRowV {
        EventRowV {
            event_key: self.event_key@,
            thread_id: self.thread_id@,
            event_type: self.event_type@,
            observed_at: self.observed_at,
            payload: self.payload@,
        }
    }
}

impl DeepView for EventRow {
    type V = EventRowV;

    open spec fn deep_view(&self) -> EventRowV {
        self@
    }
}

/// A notification on its way out. The payload is missing where the stored text is no JSON.
#[derive(Debug, PartialEq, Eq)]
pub struct OutboundRow {
    pub event_id: String,
    pub event_type: String,
    pub thread_id: Option<String>,
    pub payload: Option<Json>,
    pub status: String,
    pub attempts: i64,
    pub next_attempt_at: i64,
    pub last_error: Option<String>,
    pub created_at: i64,
    pub delivered_at: Option<i64>,
}

/// The model of [`OutboundRow`].
#[verifier::ext_equal]
pub struct OutboundRowV {
    pub event_id: Seq<char>,
    pub event_type: Seq<char>,
    pub thread_id: Option<Seq<char>>,
    pub payload: Option<JsonV>,
    pub status: Seq<char>,
    pub attempts: i64,
    pub next_attempt_at: i64,
    pub last_error: Option<Seq<char>>,
    pub created_at: i64,
    pub delivered_at: Option<i64>,
}

impl View for OutboundRow {
    type V = OutboundRowV;

    open spec fn view(&self) -> OutboundRowV {
        OutboundRowV {
            event_id: self.event_id@,
            event_type: self.event_type@,
            thread_id: self.thread_id.deep_view(),
            payload: self.payload.deep_view(),
            status: self.status@,
            attempts: self.attempts,
            next_attempt_at: self.next_attempt_at,
            last_error: self.last_error.deep_view(),
            created_at: self.created_at,
            delivered_at: self.delivered_at,
        }
    }
}

impl DeepView for OutboundRow {
    type V = OutboundRowV;

    open spec fn deep_view(&self) -> OutboundRowV {
        self@
    }
}

/// The thread that a sent message belongs to.
#[derive(Debug, PartialEq, Eq)]
pub struct MessageRouteRow {
    pub chat_id: String,
    pub message_id: i64,
    pub thread_id: String,
    pub event_id: String,
    pub created_at: i64,
}

/// The model of [`MessageRouteRow`].
#[verifier::ext_equal]
pub struct MessageRouteRowV {
    pub chat_id: Seq<char>,
    pub message_id: i64,
    pub thread_id: Seq<char>,
    pub event_id: Seq<char>,
    pub created_at: i64,
}

impl View for MessageRouteRow {
    type V = MessageRouteRowV;

    open spec fn view(&self) -> MessageRouteRowV {
        MessageRouteRowV {
            chat_id: self.chat_id@,
            message_id: self.message_id,
            thread_id: self.thread_id@,
            event_id: self.event_id@,
            created_at: self.created_at,
        }
    }
}

impl DeepView for MessageRouteRow {
    type V = MessageRouteRowV;

    open spec fn deep_view(&self) -> MessageRouteRowV {
        self@
    }
}

/// The answer that a button stands for.
#[derive(Debug, PartialEq, Eq)]
pub struct CallbackRouteRow {
    pub callback_id: String,
    pub chat_id: String,
    pub message_id: Option<i64>,
    pub thread_id: String,
    pub action: String,
    pub created_at: i64,
    pub used_at: Option<i64>,
}

/// The model of [`CallbackRouteRow`].
#[verifier::ext_equal]
pub struct CallbackRouteRowV {
    pub callback_id: Seq<char>,
    pub chat_id: Seq<char>,
    pub message_id: Option<i64>,
    pub thread_id: Seq<char>,
    pub action: Seq<char>,
    pub created_at: i64,
    pub used_at: Option<i64>,
}

impl View for CallbackRouteRow {
    type V = CallbackRouteRowV;

    open spec fn view(&self) -> CallbackRouteRowV {
        CallbackRouteRowV {
            callback_id: self.callback_id@,
            chat_id: self.chat_id@,
            message_id: self.message_id,
            thread_id: self.thread_id@,
            action: self.action@,
            created_at: self.created_at,
            used_at: self.used_at,
        }
    }
}

impl DeepView for CallbackRouteRow {
    type V = CallbackRouteRowV;

    open spec fn deep_view(&self) -> CallbackRouteRowV {
        self@
    }
}

/// The command that a sent question belongs to.
#[derive(Debug, PartialEq, Eq)]
pub struct CommandRouteRow {
    pub chat_id: String,
    pub message_id: i64,
    pub command: String,
    pub payload: Option<Json>,
    pub created_at: i64,
    pub used_at: Option<i64>,
}

/// The model of [`CommandRouteRow`].
#[verifier::ext_equal]
pub struct CommandRouteRowV {
    pub chat_id: Seq<char>,
    pub message_id: i64,
    pub command: Seq<char>,
    pub payload: Option<JsonV>,
    pub created_at: i64,
    pub used_at: Option<i64>,
}

impl View for CommandRouteRow {
    type V = CommandRouteRowV;

    open spec fn view(&self) -> CommandRouteRowV {
        CommandRouteRowV {
            chat_id: self.chat_id@,
            message_id: self.message_id,
            command: self.command@,
            payload: self.payload.deep_view(),
            created_at: self.created_at,
            used_at: self.used_at,
        }
    }
}

impl DeepView for CommandRouteRow {
    type V = CommandRouteRowV;

    open spec fn deep_view(&self) -> CommandRouteRowV {
        self@
    }
}

/// An event that a transport delivered.
#[derive(Debug, PartialEq, Eq)]
pub struct TransportRow {
    pub event_id: String,
    pub transport: String,
    pub result: Json,
    pub delivered_at: i64,
}

/// The model of [`TransportRow`].
#[verifier::ext_equal]
pub struct TransportRowV {
    pub event_id: Seq<char>,
    pub transport: Seq<char>,
    pub result: JsonV,
    pub delivered_at: i64,
}

impl View for TransportRow {
    type V = TransportRowV;

    open spec fn view(&self) -> TransportRowV {
        TransportRowV {
            event_id: self.event_id@,
            transport: self.transport@,
            result: self.result@,
            delivered_at: self.delivered_at,
        }
    }
}

impl DeepView for TransportRow {
    type V = TransportRowV;

    open spec fn deep_view(&self) -> TransportRowV {
        self@
    }
}

/// A Telegram update that was handled.
#[derive(Debug, PartialEq, Eq)]
pub struct InboundRow {
    pub bot_id: String,
    pub update_id: i64,
    pub update_kind: String,
    pub result: Json,
    pub processed_at: i64,
    pub thread_id: Option<String>,
    pub route_message_id: Option<i64>,
    pub result_action: Option<String>,
    pub codex_transport: Option<String>,
    pub codex_app_server_pid: Option<i64>,
}

/// The model of [`InboundRow`].
#[verifier::ext_equal]
pub struct InboundRowV {
    pub bot_id: Seq<char>,
    pub update_id: i64,
    pub update_kind: Seq<char>,
    pub result: JsonV,
    pub processed_at: i64,
    pub thread_id: Option<Seq<char>>,
    pub route_message_id: Option<i64>,
    pub result_action: Option<Seq<char>>,
    pub codex_transport: Option<Seq<char>>,
    pub codex_app_server_pid: Option<i64>,
}

impl View for InboundRow {
    type V = InboundRowV;

    open spec fn view(&self) -> InboundRowV {
        InboundRowV {
            bot_id: self.bot_id@,
            update_id: self.update_id,
            update_kind: self.update_kind@,
            result: self.result@,
            processed_at: self.processed_at,
            thread_id: self.thread_id.deep_view(),
            route_message_id: self.route_message_id,
            result_action: self.result_action.deep_view(),
            codex_transport: self.codex_transport.deep_view(),
            codex_app_server_pid: self.codex_app_server_pid,
        }
    }
}

impl DeepView for InboundRow {
    type V = InboundRowV;

    open spec fn deep_view(&self) -> InboundRowV {
        self@
    }
}

/// An action on a thread, in the order of the log. The payload is missing where the stored text is no JSON.
#[derive(Debug, PartialEq, Eq)]
pub struct ActionRow {
    pub thread_id: String,
    pub action_type: String,
    pub payload: Option<Json>,
    pub created_at: i64,
}

/// The model of [`ActionRow`].
#[verifier::ext_equal]
pub struct ActionRowV {
    pub thread_id: Seq<char>,
    pub action_type: Seq<char>,
    pub payload: Option<JsonV>,
    pub created_at: i64,
}

impl View for ActionRow {
    type V = ActionRowV;

    open spec fn view(&self) -> ActionRowV {
        ActionRowV {
            thread_id: self.thread_id@,
            action_type: self.action_type@,
            payload: self.payload.deep_view(),
            created_at: self.created_at,
        }
    }
}

impl DeepView for ActionRow {
    type V = ActionRowV;

    open spec fn deep_view(&self) -> ActionRowV {
        self@
    }
}

/// The state of the bridge: its tables.
#[derive(Debug, PartialEq, Eq)]
pub struct BridgeState {
    pub settings: Vec<SettingRow>,
    pub threads: Vec<ThreadRow>,
    pub prompts: Vec<PromptRow>,
    pub deliveries: Vec<DeliveryRow>,
    pub events: Vec<EventRow>,
    pub outbound: Vec<OutboundRow>,
    pub message_routes: Vec<MessageRouteRow>,
    pub callback_routes: Vec<CallbackRouteRow>,
    pub command_routes: Vec<CommandRouteRow>,
    pub transports: Vec<TransportRow>,
    pub inbound: Vec<InboundRow>,
    pub actions: Vec<ActionRow>,
}

/// The model of [`BridgeState`].
#[verifier::ext_equal]
pub struct BridgeStateV {
    pub settings: Seq<SettingRowV>,
    pub threads: Seq<ThreadRowV>,
    pub prompts: Seq<PromptRowV>,
    pub deliveries: Seq<DeliveryRowV>,
    pub events: Seq<EventRowV>,
    pub outbound: Seq<OutboundRowV>,
    pub message_routes: Seq<MessageRouteRowV>,
    pub callback_routes: Seq<CallbackRouteRowV>,
    pub command_routes: Seq<CommandRouteRowV>,
    pub transports: Seq<TransportRowV>,
    pub inbound: Seq<InboundRowV>,
    pub actions: Seq<ActionRowV>,
}

impl View for BridgeState {
    type V = BridgeStateV;

    open spec fn view(&self) -> BridgeStateV {
        BridgeStateV {
            settings: self.settings.deep_view(),
            threads: self.threads.deep_view(),
            prompts: self.prompts.deep_view(),
            deliveries: self.deliveries.deep_view(),
            events: self.events.deep_view(),
            outbound: self.outbound.deep_view(),
            message_routes: self.message_routes.deep_view(),
            callback_routes: self.callback_routes.deep_view(),
            command_routes: self.command_routes.deep_view(),
            transports: self.transports.deep_view(),
            inbound: self.inbound.deep_view(),
            actions: self.actions.deep_view(),
        }
    }
}

impl DeepView for BridgeState {
    type V = BridgeStateV;

    open spec fn deep_view(&self) -> BridgeStateV {
        self@
    }
}

/// The key of a row of `settings`.
pub open spec fn setting_row_key() -> spec_fn(SettingRowV) -> Seq<char> {
    |r: SettingRowV| r.key
}

/// The index of the row of `settings` with this key, or the number of rows.
pub fn find_setting(rows: &Vec<SettingRow>, key: &str) -> (p: usize)
    ensures
        p <= rows@.len(),
        p == position(rows.deep_view(), key_is(setting_row_key(), key@), 0),
{
    let mut i: usize = 0;
    while i < rows.len()
        invariant
            i <= rows@.len(),
            position(rows.deep_view(), key_is(setting_row_key(), key@), 0) == position(
                rows.deep_view(),
                key_is(setting_row_key(), key@),
                i as nat,
            ),
        decreases rows@.len() - i,
    {
        assert(rows.deep_view()[i as int] == rows@[i as int]@);
        if same(rows[i].key.as_str(), key) {
            return i;
        }
        i += 1;
    }
    i
}

/// The key of a row of `threads`.
pub open spec fn thread_row_key() -> spec_fn(ThreadRowV) -> Seq<char> {
    |r: ThreadRowV| r.thread_id
}

/// The index of the row of `threads` with this key, or the number of rows.
pub fn find_thread(rows: &Vec<ThreadRow>, thread_id: &str) -> (p: usize)
    ensures
        p <= rows@.len(),
        p == position(rows.deep_view(), key_is(thread_row_key(), thread_id@), 0),
{
    let mut i: usize = 0;
    while i < rows.len()
        invariant
            i <= rows@.len(),
            position(rows.deep_view(), key_is(thread_row_key(), thread_id@), 0) == position(
                rows.deep_view(),
                key_is(thread_row_key(), thread_id@),
                i as nat,
            ),
        decreases rows@.len() - i,
    {
        assert(rows.deep_view()[i as int] == rows@[i as int]@);
        if same(rows[i].thread_id.as_str(), thread_id) {
            return i;
        }
        i += 1;
    }
    i
}

/// The key of a row of `prompts`.
pub open spec fn prompt_row_key() -> spec_fn(PromptRowV) -> Seq<char> {
    |r: PromptRowV| r.thread_id
}

/// The index of the row of `prompts` with this key, or the number of rows.
pub fn find_prompt(rows: &Vec<PromptRow>, thread_id: &str) -> (p: usize)
    ensures
        p <= rows@.len(),
        p == position(rows.deep_view(), key_is(prompt_row_key(), thread_id@), 0),
{
    let mut i: usize = 0;
    while i < rows.len()
        invariant
            i <= rows@.len(),
            position(rows.deep_view(), key_is(prompt_row_key(), thread_id@), 0) == position(
                rows.deep_view(),
                key_is(prompt_row_key(), thread_id@),
                i as nat,
            ),
        decreases rows@.len() - i,
    {
        assert(rows.deep_view()[i as int] == rows@[i as int]@);
        if same(rows[i].thread_id.as_str(), thread_id) {
            return i;
        }
        i += 1;
    }
    i
}

/// The key of a row of `deliveries`.
pub open spec fn delivery_row_key() -> spec_fn(DeliveryRowV) -> Seq<char> {
    |r: DeliveryRowV| r.event_key
}

/// The index of the row of `deliveries` with this key, or the number of rows.
pub fn find_delivery(rows: &Vec<DeliveryRow>, event_key: &str) -> (p: usize)
    ensures
        p <= rows@.len(),
        p == position(rows.deep_view(), key_is(delivery_row_key(), event_key@), 0),
{
    let mut i: usize = 0;
    while i < rows.len()
        invariant
            i <= rows@.len(),
            position(rows.deep_view(), key_is(delivery_row_key(), event_key@), 0) == position(
                rows.deep_view(),
                key_is(delivery_row_key(), event_key@),
                i as nat,
            ),
        decreases rows@.len() - i,
    {
        assert(rows.deep_view()[i as int] == rows@[i as int]@);
        if same(rows[i].event_key.as_str(), event_key) {
            return i;
        }
        i += 1;
    }
    i
}

/// The key of a row of `events`.
pub open spec fn event_row_key() -> spec_fn(EventRowV) -> Seq<char> {
    |r: EventRowV| r.event_key
}

/// The index of the row of `events` with this key, or the number of rows.
pub fn find_event(rows: &Vec<EventRow>, event_key: &str) -> (p: usize)
    ensures
        p <= rows@.len(),
        p == position(rows.deep_view(), key_is(event_row_key(), event_key@), 0),
{
    let mut i: usize = 0;
    while i < rows.len()
        invariant
            i <= rows@.len(),
            position(rows.deep_view(), key_is(event_row_key(), event_key@), 0) == position(
                rows.deep_view(),
                key_is(event_row_key(), event_key@),
                i as nat,
            ),
        decreases rows@.len() - i,
    {
        assert(rows.deep_view()[i as int] == rows@[i as int]@);
        if same(rows[i].event_key.as_str(), event_key) {
            return i;
        }
        i += 1;
    }
    i
}

/// The key of a row of `outbound`.
pub open spec fn outbound_row_key() -> spec_fn(OutboundRowV) -> Seq<char> {
    |r: OutboundRowV| r.event_id
}

/// The index of the row of `outbound` with this key, or the number of rows.
pub fn find_outbound(rows: &Vec<OutboundRow>, event_id: &str) -> (p: usize)
    ensures
        p <= rows@.len(),
        p == position(rows.deep_view(), key_is(outbound_row_key(), event_id@), 0),
{
    let mut i: usize = 0;
    while i < rows.len()
        invariant
            i <= rows@.len(),
            position(rows.deep_view(), key_is(outbound_row_key(), event_id@), 0) == position(
                rows.deep_view(),
                key_is(outbound_row_key(), event_id@),
                i as nat,
            ),
        decreases rows@.len() - i,
    {
        assert(rows.deep_view()[i as int] == rows@[i as int]@);
        if same(rows[i].event_id.as_str(), event_id) {
            return i;
        }
        i += 1;
    }
    i
}

/// The key of a row of `message_routes`.
pub open spec fn message_route_row_key() -> spec_fn(MessageRouteRowV) -> (Seq<char>, i64) {
    |r: MessageRouteRowV| (r.chat_id, r.message_id)
}

/// The index of the row of `message_routes` with this key, or the number of rows.
pub fn find_message_route(rows: &Vec<MessageRouteRow>, chat_id: &str, message_id: i64) -> (p: usize)
    ensures
        p <= rows@.len(),
        p == position(rows.deep_view(), key_is(message_route_row_key(), (chat_id@, message_id)), 0),
{
    let mut i: usize = 0;
    while i < rows.len()
        invariant
            i <= rows@.len(),
            position(rows.deep_view(), key_is(message_route_row_key(), (chat_id@, message_id)), 0) == position(
                rows.deep_view(),
                key_is(message_route_row_key(), (chat_id@, message_id)),
                i as nat,
            ),
        decreases rows@.len() - i,
    {
        assert(rows.deep_view()[i as int] == rows@[i as int]@);
        if same(rows[i].chat_id.as_str(), chat_id) && rows[i].message_id == message_id {
            return i;
        }
        i += 1;
    }
    i
}

/// The key of a row of `callback_routes`.
pub open spec fn callback_route_row_key() -> spec_fn(CallbackRouteRowV) -> Seq<char> {
    |r: CallbackRouteRowV| r.callback_id
}

/// The index of the row of `callback_routes` with this key, or the number of rows.
pub fn find_callback_route(rows: &Vec<CallbackRouteRow>, callback_id: &str) -> (p: usize)
    ensures
        p <= rows@.len(),
        p == position(rows.deep_view(), key_is(callback_route_row_key(), callback_id@), 0),
{
    let mut i: usize = 0;
    while i < rows.len()
        invariant
            i <= rows@.len(),
            position(rows.deep_view(), key_is(callback_route_row_key(), callback_id@), 0) == position(
                rows.deep_view(),
                key_is(callback_route_row_key(), callback_id@),
                i as nat,
            ),
        decreases rows@.len() - i,
    {
        assert(rows.deep_view()[i as int] == rows@[i as int]@);
        if same(rows[i].callback_id.as_str(), callback_id) {
            return i;
        }
        i += 1;
    }
    i
}

/// The key of a row of `command_routes`.
pub open spec fn command_route_row_key() -> spec_fn(CommandRouteRowV) -> (Seq<char>, i64) {
    |r: CommandRouteRowV| (r.chat_id, r.message_id)
}

/// The index of the row of `command_routes` with this key, or the number of rows.
pub fn find_command_route(rows: &Vec<CommandRouteRow>, chat_id: &str, message_id: i64) -> (p: usize)
    ensures
        p <= rows@.len(),
        p == position(rows.deep_view(), key_is(command_route_row_key(), (chat_id@, message_id)), 0),
{
    let mut i: usize = 0;
    while i < rows.len()
        invariant
            i <= rows@.len(),
            position(rows.deep_view(), key_is(command_route_row_key(), (chat_id@, message_id)), 0) == position(
                rows.deep_view(),
                key_is(command_route_row_key(), (chat_id@, message_id)),
                i as nat,
            ),
        decreases rows@.len() - i,
    {
        assert(rows.deep_view()[i as int] == rows@[i as int]@);
        if same(rows[i].chat_id.as_str(), chat_id) && rows[i].message_id == message_id {
            return i;
        }
        i += 1;
    }
    i
}

/// The key of a row of `transports`.
pub open spec fn transport_row_key() -> spec_fn(TransportRowV) -> (Seq<char>, Seq<char>) {
    |r: TransportRowV| (r.event_id, r.transport)
}

/// The index of the row of `transports` with this key, or the number of rows.
pub fn find_transport(rows: &Vec<TransportRow>, event_id: &str, transport: &str) -> (p: usize)
    ensures
        p <= rows@.len(),
        p == position(rows.deep_view(), key_is(transport_row_key(), (event_id@, transport@)), 0),
{
    let mut i: usize = 0;
    while i < rows.len()
        invariant
            i <= rows@.len(),
            position(rows.deep_view(), key_is(transport_row_key(), (event_id@, transport@)), 0) == position(
                rows.deep_view(),
                key_is(transport_row_key(), (event_id@, transport@)),
                i as nat,
            ),
        decreases rows@.len() - i,
    {
        assert(rows.deep_view()[i as int] == rows@[i as int]@);
        if same(rows[i].event_id.as_str(), event_id) && same(rows[i].transport.as_str(), transport) {
            return i;
        }
        i += 1;
    }
    i
}

/// The key of a row of `inbound`.
pub open spec fn inbound_row_key() -> spec_fn(InboundRowV) -> (Seq<char>, i64) {
    |r: InboundRowV| (r.bot_id, r.update_id)
}

/// The index of the row of `inbound` with this key, or the number of rows.
pub fn find_inbound(rows: &Vec<InboundRow>, bot_id: &str, update_id: i64) -> (p: usize)
    ensures
        p <= rows@.len(),
        p == position(rows.deep_view(), key_is(inbound_row_key(), (bot_id@, update_id)), 0),
{
    let mut i: usize = 0;
    while i < rows.len()
        invariant
            i <= rows@.len(),
            position(rows.deep_view(), key_is(inbound_row_key(), (bot_id@, update_id)), 0) == position(
                rows.deep_view(),
                key_is(inbound_row_key(), (bot_id@, update_id)),
                i as nat,
            ),
        decreases rows@.len() - i,
    {
        assert(rows.deep_view()[i as int] == rows@[i as int]@);
        if same(rows[i].bot_id.as_str(), bot_id) && rows[i].update_id == update_id {
            return i;
        }
        i += 1;
    }
    i
}

/// An empty state.
pub open spec fn empty_state() -> BridgeStateV {
    BridgeStateV {
        settings: Seq::empty(),
        threads: Seq::empty(),
        prompts: Seq::empty(),
        deliveries: Seq::empty(),
        events: Seq::empty(),
        outbound: Seq::empty(),
        message_routes: Seq::empty(),
        callback_routes: Seq::empty(),
        command_routes: Seq::empty(),
        transports: Seq::empty(),
        inbound: Seq::empty(),
        actions: Seq::empty(),
    }
}

impl BridgeStateV {
    /// Every table has one row for a key at most.
    pub open spec fn well_formed(self) -> bool {
        &&& keys_differ(self.settings, setting_row_key())
        &&& keys_differ(self.threads, thread_row_key())
        &&& keys_differ(self.prompts, prompt_row_key())
        &&& keys_differ(self.deliveries, delivery_row_key())
        &&& keys_differ(self.events, event_row_key())
        &&& keys_differ(self.outbound, outbound_row_key())
        &&& keys_differ(self.message_routes, message_route_row_key())
        &&& keys_differ(self.callback_routes, callback_route_row_key())
        &&& keys_differ(self.command_routes, command_route_row_key())
        &&& keys_differ(self.transports, transport_row_key())
        &&& keys_differ(self.inbound, inbound_row_key())
    }
}

impl BridgeState {
    /// A state without rows.
    pub fn new() -> (r: BridgeState)
        ensures
            r@ == empty_state(),
            r@.well_formed(),
    {
        let r = BridgeState {
            settings: Vec::new(),
            threads: Vec::new(),
            prompts: Vec::new(),
            deliveries: Vec::new(),
            events: Vec::new(),
            outbound: Vec::new(),
            message_routes: Vec::new(),
            callback_routes: Vec::new(),
            command_routes: Vec::new(),
            transports: Vec::new(),
            inbound: Vec::new(),
            actions: Vec::new(),
        };
        assert(r@ =~= empty_state());
        r
    }
}

/// The failure of a time stamp that the database cannot hold.
pub open spec fn out_of_range() -> BridgeErrorV {
    in_context(
        "timestamp out of range for sqlite i64"@,
        failure("out of range integral type conversion attempted"@),
    )
}

/// The failure of a negative number where a time stamp was expected.
pub open spec fn negative_integer() -> BridgeErrorV {
    in_context(
        "negative sqlite integer cannot be converted to u64"@,
        failure("out of range integral type conversion attempted"@),
    )
}

/// The database form of a time stamp.
pub open spec fn sql_int(value: u64) -> Result<i64, BridgeErrorV> {
    if value <= i64::MAX {
        Ok(value as i64)
    } else {
        Err(out_of_range())
    }
}

/// The time stamp that the database holds.
pub open spec fn from_sql(value: i64) -> Result<u64, BridgeErrorV> {
    if value >= 0 {
        Ok(value as u64)
    } else {
        Err(negative_integer())
    }
}

/// The database form of a time stamp.
pub fn to_sql_i64(value: u64) -> (r: Result<i64, BridgeError>)
    ensures
        outcome(r) == sql_int(value),
{
    if value <= i64::MAX as u64 {
        Ok(value as i64)
    } else {
        Err(
            BridgeError::new("out of range integral type conversion attempted").context(
                "timestamp out of range for sqlite i64",
            ),
        )
    }
}

/// The time stamp that the database holds.
pub fn from_sql_i64(value: i64) -> (r: Result<u64, BridgeError>)
    ensures
        outcome(r) == from_sql(value),
{
    if value >= 0 {
        Ok(value as u64)
    } else {
        Err(
            BridgeError::new("out of range integral type conversion attempted").context(
                "negative sqlite integer cannot be converted to u64",
            ),
        )
    }
}

/// The time stamp that the database may hold.
pub open spec fn opt_from_sql(value: Option<i64>) -> Result<Option<u64>, BridgeErrorV> {
    match value {
        None => Ok(None),
        Some(v) => match from_sql(v) {
            Ok(n) => Ok(Some(n)),
            Err(e) => Err(e),
        },
    }
}

/// The time stamp that the database may hold.
pub fn optional_from_sql_i64(value: Option<i64>) -> (r: Result<Option<u64>, BridgeError>)
    ensures
        outcome(r) == opt_from_sql(value),
{
    match value {
        None => Ok(None),
        Some(v) => match from_sql_i64(v) {
            Ok(n) => Ok(Some(n)),
            Err(e) => Err(e),
        },
    }
}

/// A time stamp that the database took is the one that it gives back.
pub proof fn sql_round_trip(value: u64)
    requires
        value <= i64::MAX,
    ensures
        sql_int(value) is Ok,
        from_sql(sql_int(value)->Ok_0) == Ok::<u64, BridgeErrorV>(value),
{
}

} // verus!
