//! The conversation with the app server: requests with their ids, the messages that
//! come back, and a synchronisation step by step.
use vstd::prelude::*;
use vstd::string::*;

use crate::codex::{normalize_thread_snapshot, snapshot_of};
use crate::error::{BridgeError, BridgeErrorV, failure, outcome};
use crate::events::{array_items, array_or_none};
use crate::json::{Json, JsonV, member, Object, or_null, text_member, uint_value};
use crate::requests::{read_params, thread_read_params};
use crate::settings::{get_setting_number, get_setting_text, setting_number};
use crate::state::{BridgeState, BridgeStateV, out_of_range};
use crate::sync::{
    first_misfit, is_away, reconcile_thread_snapshots, reconcile_upto, snapshot_json, sync_report,
    sync_report_json,
};
use crate::text::{cat, same};
use crate::thread::{
    BridgeThreadSnapshot, BridgeThreadSnapshotV, in_away_window, should_emit_for_away_window,
};

verus! {

/// The name under which the bridge introduces itself.
pub const CLIENT_NAME: &'static str = "codex-telegram-bridge";

/// The version under which the bridge introduces itself.
pub const CLIENT_VERSION: &'static str = "0.1.1";

/// How long the first answer may take, in milliseconds.
pub const INITIALIZE_TIMEOUT_MS: u64 = 5_000;

/// How long any other answer may take, in milliseconds.
pub const REQUEST_TIMEOUT_MS: u64 = 30_000;

/// How long the first answer may take, in milliseconds.
pub fn shared_websocket_initialize_timeout() -> (r: u64)
    ensures
        r == 5_000,
{
    INITIALIZE_TIMEOUT_MS
}

/// How long any other answer may take, in milliseconds.
pub fn shared_websocket_request_timeout() -> (r: u64)
    ensures
        r == 30_000,
{
    REQUEST_TIMEOUT_MS
}

/// The parameters that open a conversation.
pub open spec fn introduction() -> JsonV {
    JsonV::Object(
        Seq::empty()
            .push(("protocolVersion"@, JsonV::UInt(1)))
            .push(("capabilities"@, JsonV::Object(Seq::empty())))
            .push(
                ("clientInfo"@, JsonV::Object(
                    Seq::empty()
                        .push(("name"@, JsonV::Str("codex-telegram-bridge"@)))
                        .push(("version"@, JsonV::Str("0.1.1"@))),
                )),
            ),
    )
}

/// The parameters that open a conversation.
pub fn initialize_params() -> (r: Json)
    ensures
        r@ == introduction(),
{
    Object::new().with("protocolVersion", Json::UInt(1)).with(
        "capabilities",
        Object::new().done(),
    ).with(
        "clientInfo",
        Object::new().with("name", Json::text(CLIENT_NAME)).with(
            "version",
            Json::text(CLIENT_VERSION),
        ).done(),
    ).done()
}

/// A request on the wire.
pub open spec fn request_message(id: u64, method: Seq<char>, params: JsonV) -> JsonV {
    JsonV::Object(
        Seq::empty()
            .push(("jsonrpc"@, JsonV::Str("2.0"@)))
            .push(("id"@, JsonV::UInt(id)))
            .push(("method"@, JsonV::Str(method)))
            .push(("params"@, params)),
    )
}

/// A notification on the wire.
pub open spec fn notification_message(method: Seq<char>, params: JsonV) -> JsonV {
    JsonV::Object(
        Seq::empty()
            .push(("jsonrpc"@, JsonV::Str("2.0"@)))
            .push(("method"@, JsonV::Str(method)))
            .push(("params"@, params)),
    )
}

/// A notification on the wire.
pub fn notification_envelope(method: &str, params: Json) -> (r: Json)
    ensures
        r@ == notification_message(method@, params@),
{
    Object::new().with("jsonrpc", Json::text("2.0")).with("method", Json::text(method)).with(
        "params",
        params,
    ).done()
}

/// The message is a notification: it has no id, and a method.
pub open spec fn is_notification(message: JsonV) -> bool {
    member(message, "id"@) is None && text_member(message, "method"@) is Some
}

/// What a message means for the request with this id: its result, its failure, or nothing.
pub open spec fn answer(message: JsonV, expected_id: u64) -> Result<Option<JsonV>, JsonV> {
    if member(message, "id"@) == Some(JsonV::UInt(expected_id)) {
        match member(message, "error"@) {
            Some(error) => Err(error),
            None => Ok(Some(or_null(member(message, "result"@)))),
        }
    } else {
        Ok(None)
    }
}

/// The notifications once a message came in.
pub open spec fn collected(notifications: Seq<JsonV>, message: JsonV) -> Seq<JsonV> {
    if is_notification(message) {
        notifications.push(message)
    } else {
        notifications
    }
}

/// Collects a message where it is a notification.
fn collect(message: &Json, notifications: &mut Vec<Json>)
    ensures
        final(notifications).deep_view() == collected(old(notifications).deep_view(), message@),
{
    let ghost before = notifications.deep_view();
    if message.get("id").is_none() && message.get_text("method").is_some() {
        notifications.push(message.clone());
        assert(notifications.deep_view() =~= before.push(message@));
    }
}

/// Takes a message while the request with this id waits: its result, its failure, or
/// nothing; a notification is collected.
pub fn handle_app_server_message(
    parsed: &Json,
    expected_id: u64,
    notifications: &mut Vec<Json>,
) -> (r: Result<Option<Json>, Json>)
    ensures
        match (r, answer(parsed@, expected_id)) {
            (Ok(a), Ok(b)) => a.deep_view() == b,
            (Err(a), Err(b)) => a@ == b,
            _ => false,
        },
        final(notifications).deep_view() == collected(old(notifications).deep_view(), parsed@),
{
    let own: bool = match parsed.get("id") {
        Some(id) => match id.as_u64() {
            Some(n) => n == expected_id,
            None => false,
        },
        None => false,
    };
    if own {
        match parsed.get("error") {
            Some(error) => Err(error.clone()),
            None => Ok(Some(parsed.get_or_null("result"))),
        }
    } else {
        collect(parsed, notifications);
        Ok(None)
    }
}

/// A conversation: the next id, the notifications that were not handed on, and a failure of the transport that the next request tells.
#[derive(Debug, PartialEq, Eq)]
pub struct Session {
    pub next_id: u64,
    pub notifications: Vec<Json>,
    pub pending_transport_error: Option<String>,
}

/// The model of [`Session`].
#[verifier::ext_equal]
pub struct SessionV {
    pub next_id: u64,
    pub notifications: Seq<JsonV>,
    pub pending_transport_error: Option<Seq<char>>,
}

impl View for Session {
    type V = SessionV;

    open spec fn view(&self) -> SessionV {
        SessionV {
            next_id: self.next_id,
            notifications: self.notifications.deep_view(),
            pending_transport_error: self.pending_transport_error.deep_view(),
        }
    }
}

impl DeepView for Session {
    type V = SessionV;

    open spec fn deep_view(&self) -> SessionV {
        self@
    }
}

/// A request that is sent, and how long its answer may take.
#[derive(Debug, PartialEq, Eq)]
pub struct PendingRequest {
    pub id: u64,
    pub envelope: Json,
    pub timeout: u64,
}

/// The model of [`PendingRequest`].
#[verifier::ext_equal]
pub struct PendingRequestV {
    pub id: u64,
    pub envelope: JsonV,
    pub timeout: u64,
}

impl View for PendingRequest {
    type V = PendingRequestV;

    open spec fn view(&self) -> PendingRequestV {
        PendingRequestV {
            id: self.id,
            envelope: self.envelope@,
            timeout: self.timeout,
        }
    }
}

impl DeepView for PendingRequest {
    type V = PendingRequestV;

    open spec fn deep_view(&self) -> PendingRequestV {
        self@
    }
}

/// A fresh conversation.
pub open spec fn fresh_session() -> SessionV {
    SessionV { next_id: 1, notifications: Seq::empty(), pending_transport_error: None }
}

/// The session, and the request or the failure, once a request begins. `left` is the time
/// before the deadline, where there is one.
pub open spec fn request_begun(
    s: SessionV,
    method: Seq<char>,
    params: JsonV,
    timeout: u64,
    left: Option<u64>,
) -> (SessionV, Result<PendingRequestV, BridgeErrorV>) {
    match s.pending_transport_error {
        Some(text) => (
            SessionV { pending_transport_error: None, ..s },
            Err(failure(text)),
        ),
        None => if left == Some(0u64) {
            (
                s,
                Err(
                    failure("Codex request deadline exceeded while waiting for "@ + method),
                ),
            )
        } else {
            (
                SessionV { next_id: (s.next_id + 1) as u64, ..s },
                Ok(
                    PendingRequestV {
                        id: s.next_id,
                        envelope: request_message(s.next_id, method, params),
                        timeout: match left {
                            Some(l) => if l < timeout {
                                l
                            } else {
                                timeout
                            },
                            None => timeout,
                        },
                    },
                ),
            )
        },
    }
}

impl Session {
    /// A fresh conversation.
    pub fn new() -> (r: Session)
        ensures
            r@ == fresh_session(),
    {
        let r = Session { next_id: 1, notifications: Vec::new(), pending_transport_error: None };
        assert(r@ =~= fresh_session());
        r
    }

    /// Begins a request. A failure of the transport that was held back comes first, and no
    /// request begins after its deadline.
    pub fn begin_request(
        &mut self,
        method: &str,
        params: Json,
        timeout: u64,
        left: Option<u64>,
    ) -> (r: Result<PendingRequest, BridgeError>)
        requires
            old(self)@.next_id < u64::MAX,
        ensures
            (final(self)@, outcome(r)) == request_begun(
                old(self)@,
                method@,
                params@,
                timeout,
                left,
            ),
    {
        match self.pending_transport_error.take() {
            Some(text) => {
                return Err(BridgeError::new(text.as_str()));
            },
            None => {},
        }
        let time: u64 = match left {
            Some(l) => {
                if l == 0 {
                    return Err(
                        BridgeError::new(
                            cat(
                                "Codex request deadline exceeded while waiting for ",
                                method,
                            ).as_str(),
                        ),
                    );
                }
                if l < timeout {
                    l
                } else {
                    timeout
                }
            },
            None => timeout,
        };
        let id: u64 = self.next_id;
        self.next_id = id + 1;
        let envelope = Object::new().with("jsonrpc", Json::text("2.0")).with(
            "id",
            Json::UInt(id),
        ).with("method", Json::text(method)).with("params", params).done();
        Ok(PendingRequest { id, envelope, timeout: time })
    }

    /// Takes a message while a request waits.
    pub fn receive(&mut self, message: &Json, expected_id: u64) -> (r: Result<Option<Json>, Json>)
        ensures
            match (r, answer(message@, expected_id)) {
                (Ok(a), Ok(b)) => a.deep_view() == b,
                (Err(a), Err(b)) => a@ == b,
                _ => false,
            },
            final(self)@ == (SessionV {
                notifications: collected(old(self)@.notifications, message@),
                ..old(self)@
            }),
    {
        handle_app_server_message(message, expected_id, &mut self.notifications)
    }

    /// Takes a message while no request waits: only notifications are kept.
    pub fn overhear(&mut self, message: &Json)
        ensures
            final(self)@ == (SessionV {
                notifications: collected(old(self)@.notifications, message@),
                ..old(self)@
            }),
    {
        collect(message, &mut self.notifications);
    }

    /// Holds a failure of the transport back for the next request; the first one counts.
    pub fn hold_transport_error(&mut self, error: &str)
        ensures
            final(self)@ == (SessionV {
                pending_transport_error: match old(self)@.pending_transport_error {
                    Some(text) => Some(text),
                    None => Some(error@),
                },
                ..old(self)@
            }),
    {
        if self.pending_transport_error.is_none() {
            self.pending_transport_error = Some(error.to_owned());
        }
    }

    /// Hands the notifications on.
    pub fn drain_notifications(&mut self) -> (r: Vec<Json>)
        ensures
            r.deep_view() == old(self)@.notifications,
            final(self)@ == (SessionV { notifications: Seq::empty(), ..old(self)@ }),
    {
        let mut out: Vec<Json> = Vec::new();
        core::mem::swap(&mut out, &mut self.notifications);
        assert(self.notifications.deep_view() =~= Seq::<JsonV>::empty());
        out
    }
}

/// Two requests of one conversation never share an id, and an answer belongs to the
/// request whose id it carries, and to no other.
pub proof fn requests_have_their_own_answers(
    s: SessionV,
    method: Seq<char>,
    params: JsonV,
    timeout: u64,
    left: Option<u64>,
    message: JsonV,
    other: u64,
)
    requires
        s.next_id < u64::MAX,
        request_begun(s, method, params, timeout, left).1 is Ok,
    ensures
        request_begun(s, method, params, timeout, left).1->Ok_0.id < request_begun(
            s,
            method,
            params,
            timeout,
            left,
        ).0.next_id,
        answer(message, other) != Ok::<Option<JsonV>, JsonV>(None) && answer(
            message,
            request_begun(s, method, params, timeout, left).1->Ok_0.id,
        ) != Ok::<Option<JsonV>, JsonV>(None) ==> other == request_begun(
            s,
            method,
            params,
            timeout,
            left,
        ).1->Ok_0.id,
{
}

/// A failure of the transport is told once: the next request fails with it, and the one
/// after that is sent.
pub proof fn transport_errors_are_told_once(
    s: SessionV,
    method: Seq<char>,
    params: JsonV,
    timeout: u64,
)
    requires
        s.pending_transport_error is Some,
        s.next_id < u64::MAX,
    ensures
        request_begun(s, method, params, timeout, None).1 is Err,
        request_begun(
            request_begun(s, method, params, timeout, None).0,
            method,
            params,
            timeout,
            None,
        ).1 is Ok,
{
}

// ---------------------------------------------------------------------------
// Synchronising
// ---------------------------------------------------------------------------

/// A synchronisation: the threads that were listed, how many of them were dealt with, and the snapshots so far.
#[derive(Debug, PartialEq, Eq)]
pub struct SyncRun {
    pub away: bool,
    pub since: Option<u64>,
    pub summaries: Vec<Json>,
    pub next: usize,
    pub snapshots: Vec<BridgeThreadSnapshot>,
}

/// The model of [`SyncRun`].
#[verifier::ext_equal]
pub struct SyncRunV {
    pub away: bool,
    pub since: Option<u64>,
    pub summaries: Seq<JsonV>,
    pub next: usize,
    pub snapshots: Seq<BridgeThreadSnapshotV>,
}

impl View for SyncRun {
    type V = SyncRunV;

    open spec fn view(&self) -> SyncRunV {
        SyncRunV {
            away: self.away,
            since: self.since,
            summaries: self.summaries.deep_view(),
            next: self.next,
            snapshots: self.snapshots.deep_view(),
        }
    }
}

impl DeepView for SyncRun {
    type V = SyncRunV;

    open spec fn deep_view(&self) -> SyncRunV {
        self@
    }
}

/// A synchronisation before its list came in.
pub open spec fn sync_begun(st: BridgeStateV) -> SyncRunV {
    SyncRunV {
        away: is_away(st),
        since: setting_number(st, "away_started_at"@),
        summaries: Seq::empty(),
        next: 0,
        snapshots: Seq::empty(),
    }
}

/// The turns of a thread are read only while away mode is on, for changes in its window.
pub open spec fn reads_turns(run: SyncRunV, summary: JsonV) -> bool {
    run.away && in_away_window(run.since, uint_value(member(summary, "updatedAt"@)))
}

/// The next thread to be read: none at the end or at the deadline.
pub open spec fn next_reading(run: SyncRunV, deadline: bool) -> Result<
    Option<JsonV>,
    BridgeErrorV,
> {
    if deadline || run.next >= run.summaries.len() {
        Ok(None)
    } else {
        let summary = run.summaries[run.next as int];
        match text_member(summary, "id"@) {
            Some(id) => Ok(Some(read_params(id, reads_turns(run, summary)))),
            None => Err(failure("thread id missing in thread/list"@)),
        }
    }
}

/// The run once the next thread was read; a response without a thread is passed over.
pub open spec fn reading_taken(run: SyncRunV, read: JsonV) -> Result<SyncRunV, BridgeErrorV> {
    match member(read, "thread"@) {
        None => Ok(SyncRunV { next: (run.next + 1) as usize, ..run }),
        Some(thread) => match snapshot_of(run.summaries[run.next as int], thread) {
            Ok(snapshot) => Ok(
                SyncRunV {
                    next: (run.next + 1) as usize,
                    snapshots: run.snapshots.push(snapshot),
                    ..run
                },
            ),
            Err(e) => Err(e),
        },
    }
}

impl SyncRun {
    /// Begins a synchronisation.
    pub fn begin(state: &BridgeState) -> (r: SyncRun)
        ensures
            r@ == sync_begun(state@),
    {
        let away: bool = match get_setting_text(state, "away") {
            Some(value) => same(value.as_str(), "true"),
            None => false,
        };
        let since: Option<u64> = get_setting_number(state, "away_started_at");
        let r = SyncRun {
            away,
            since,
            summaries: Vec::new(),
            next: 0,
            snapshots: Vec::new(),
        };
        assert(r@ =~= sync_begun(state@));
        r
    }

    /// What is reported where no time was left to begin with.
    pub fn out_of_time(&self) -> (r: Json)
        ensures
            r@ == sync_report(Seq::empty(), Seq::empty(), self@.away),
    {
        let threads: Vec<Json> = Vec::new();
        let events: Vec<Json> = Vec::new();
        assert(threads.deep_view() =~= Seq::<JsonV>::empty());
        assert(events.deep_view() =~= Seq::<JsonV>::empty());
        sync_report_json(threads, events, self.away)
    }

    /// Takes the list of threads; a response without one lists none.
    pub fn listed(&mut self, list: &Json)
        ensures
            final(self)@ == (SyncRunV {
                summaries: array_or_none(list@, "data"@),
                next: 0,
                ..old(self)@
            }),
    {
        self.summaries = array_items(list, "data");
        self.next = 0;
    }

    /// The parameters of the next reading: none at the end or at the deadline.
    pub fn next_read(&self, deadline_exceeded: bool) -> (r: Result<Option<Json>, BridgeError>)
        ensures
            outcome(r) == next_reading(self@, deadline_exceeded),
    {
        if deadline_exceeded || self.next >= self.summaries.len() {
            return Ok(None);
        }
        let summary = &self.summaries[self.next];
        assert(self@.summaries[self.next as int] == summary@);
        match summary.text_of_member("id") {
            Some(id) => {
                let turns: bool = self.away && should_emit_for_away_window(
                    self.since,
                    summary.get_u64("updatedAt"),
                );
                Ok(Some(thread_read_params(id.as_str(), turns)))
            },
            None => Err(BridgeError::new("thread id missing in thread/list")),
        }
    }

    /// Takes the next thread.
    pub fn read(&mut self, read: &Json) -> (r: Result<(), BridgeError>)
        requires
            old(self)@.next < old(self)@.summaries.len(),
        ensures
            match reading_taken(old(self)@, read@) {
                Ok(after) => r is Ok && final(self)@ == after,
                Err(e) => r is Err && r->Err_0@ == e && final(self)@ == old(self)@,
            },
    {
        let at: usize = self.next;
        assert(at < self.summaries.len());
        assert(self@.summaries[at as int] == self.summaries@[at as int]@);
        match read.get("thread") {
            Some(thread) => match normalize_thread_snapshot(&self.summaries[at], thread) {
                Ok(snapshot) => {
                    let ghost before = self.snapshots.deep_view();
                    self.snapshots.push(snapshot);
                    assert(self.snapshots.deep_view() =~= before.push(snapshot@));
                    self.next = at + 1;
                    Ok(())
                },
                Err(e) => Err(e),
            },
            None => {
                self.next = at + 1;
                Ok(())
            },
        }
    }

    /// Ends the synchronisation: stores the snapshots, and reports the threads and events.
    pub fn finish(
        &self,
        state: &mut BridgeState,
        now: u64,
        record_deliveries: bool,
    ) -> (r: Result<Json, BridgeError>)
        ensures
            ({
                let st = old(state)@;
                let all = self@.snapshots;
                let n = first_misfit(all, now);
                let (after, events) = reconcile_upto(
                    st,
                    all,
                    n,
                    now as i64,
                    is_away(st),
                    setting_number(st, "away_started_at"@),
                    record_deliveries,
                );
                &&& final(state)@ == after
                &&& match r {
                    Ok(report) => n == all.len() && report@ == sync_report(
                        all.map_values(|s: BridgeThreadSnapshotV| snapshot_json(s)),
                        events,
                        is_away(st),
                    ),
                    Err(e) => n < all.len() && e@ == out_of_range(),
                }
            }),
    {
        reconcile_thread_snapshots(state, now, &self.snapshots, record_deliveries)
    }
}

} // verus!
