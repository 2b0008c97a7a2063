//! Following a thread: which step comes next, which events it gives, and what is
//! kept and reported of them.
use vstd::prelude::*;
use vstd::string::*;

use crate::codex::{
    active_flags_are_waiting, flags_are_waiting, last_turn_status, normalize_thread_snapshot,
    snapshot_of, status_of_last_turn,
};
use crate::error::{BridgeError, BridgeErrorV};
use crate::events::{
    emits, normalize_notification_event, notification_event, notification_events, should_emit_event,
};
use crate::json::{index_set, Json, JsonV, member, Object, or_null, text_member};
use crate::outbox::saturating;
use crate::requests::{turn_params, turn_start_params};
use crate::state::{BridgeState, BridgeStateV, out_of_range, prompt_row_key};
use crate::sync::{delete_prompt, snapshot_fits, upsert_thread_snapshot, with_snapshot};
use crate::table::{key_is, without};
use crate::text::{copy_opt, copy_texts, non_blank, opt_is, str_is, trimmed_non_blank};

verus! {

// ---------------------------------------------------------------------------
// Events of a follow run
// ---------------------------------------------------------------------------

/// The event that opens a follow run.
pub open spec fn follow_started(thread_id: Seq<char>, duration: u64, poll: u64) -> JsonV {
    JsonV::Object(
        Seq::empty()
            .push(("type"@, JsonV::Str("follow_started"@)))
            .push(("threadId"@, JsonV::Str(thread_id)))
            .push(("durationMs"@, JsonV::UInt(duration)))
            .push(("pollIntervalMs"@, JsonV::UInt(poll))),
    )
}

/// The event of a thread that was read.
pub open spec fn follow_snapshot(thread_id: Seq<char>, thread: JsonV) -> JsonV {
    JsonV::Object(
        Seq::empty()
            .push(("type"@, JsonV::Str("follow_snapshot"@)))
            .push(("threadId"@, JsonV::Str(thread_id)))
            .push(("thread"@, thread)),
    )
}

/// The event of a turn that was started.
pub open spec fn follow_turn_started(thread_id: Seq<char>, started: JsonV) -> JsonV {
    JsonV::Object(
        Seq::empty()
            .push(("type"@, JsonV::Str("follow_turn_started"@)))
            .push(("threadId"@, JsonV::Str(thread_id)))
            .push(("started"@, started)),
    )
}

/// The event that opens a follow run.
fn started_event(thread_id: &str, duration: u64, poll: u64) -> (r: Json)
    ensures
        r@ == follow_started(thread_id@, duration, poll),
{
    Object::new().with("type", Json::text("follow_started")).with(
        "threadId",
        Json::text(thread_id),
    ).with("durationMs", Json::UInt(duration)).with("pollIntervalMs", Json::UInt(poll)).done()
}

/// The event of a thread that was read.
fn snapshot_event_of(thread_id: &str, thread: Json) -> (r: Json)
    ensures
        r@ == follow_snapshot(thread_id@, thread@),
{
    Object::new().with("type", Json::text("follow_snapshot")).with(
        "threadId",
        Json::text(thread_id),
    ).with("thread", thread).done()
}

/// The event of a turn that was started.
fn turn_started_event(thread_id: &str, started: Json) -> (r: Json)
    ensures
        r@ == follow_turn_started(thread_id@, started@),
{
    Object::new().with("type", Json::text("follow_turn_started")).with(
        "threadId",
        Json::text(thread_id),
    ).with("started", started).done()
}

/// The events with one more, where it passes the filter.
pub open spec fn with_follow_event(
    events: Seq<JsonV>,
    filter: Option<Seq<Seq<char>>>,
    event: JsonV,
) -> Seq<JsonV> {
    if emits(filter, event) {
        events.push(event)
    } else {
        events
    }
}

/// The events with the first `n` of more events, where they pass the filter.
pub open spec fn with_follow_events(
    events: Seq<JsonV>,
    filter: Option<Seq<Seq<char>>>,
    more: Seq<JsonV>,
    n: nat,
) -> Seq<JsonV>
    decreases n,
{
    if n == 0 || n > more.len() {
        events
    } else {
        with_follow_event(
            with_follow_events(events, filter, more, (n - 1) as nat),
            filter,
            more[n - 1],
        )
    }
}

/// Adds an event, where it passes the filter.
pub fn push_follow_event(events: &mut Vec<Json>, event_filter: Option<&Vec<String>>, event: Json)
    ensures
        final(events).deep_view() == with_follow_event(
            old(events).deep_view(),
            event_filter.deep_view(),
            event@,
        ),
{
    let ghost before = events.deep_view();
    if should_emit_event(event_filter, &event) {
        events.push(event);
        assert(events.deep_view() =~= before.push(event@));
    }
}

/// Adds the events of notifications, where they pass the filter.
fn push_notifications(
    events: &mut Vec<Json>,
    event_filter: Option<&Vec<String>>,
    notifications: &Vec<Json>,
)
    ensures
        final(events).deep_view() == with_follow_events(
            old(events).deep_view(),
            event_filter.deep_view(),
            notification_events(notifications.deep_view()),
            notifications@.len(),
        ),
{
    let ghost start = events.deep_view();
    let ghost more = notification_events(notifications.deep_view());
    let mut i: usize = 0;
    while i < notifications.len()
        invariant
            i <= notifications@.len(),
            more == notification_events(notifications.deep_view()),
            events.deep_view() == with_follow_events(
                start,
                event_filter.deep_view(),
                more,
                i as nat,
            ),
        decreases notifications@.len() - i,
    {
        assert(more[i as int] == notification_event(notifications@[i as int]@));
        push_follow_event(
            events,
            event_filter,
            normalize_notification_event(&notifications[i]),
        );
        i += 1;
    }
}

// ---------------------------------------------------------------------------
// Steps of a follow run
// ---------------------------------------------------------------------------

/// What a follow run waits for.
#[derive(Debug, Clone, Copy, PartialEq, Eq, Structural)]
pub enum FollowPhase {
    /// The first reading of the thread.
    Initial,
    /// The turn that the message started.
    Turn,
    /// The notifications of one round.
    Round,
    /// A later reading of the thread.
    Poll,
    /// The end of a pause.
    Pause,
    /// The last notifications.
    Closing,
    /// Nothing more.
    Over,
}

/// What the caller of a follow run does next.
#[derive(Debug, PartialEq, Eq)]
pub enum FollowAction {
    /// Read the thread.
    ReadThread,
    /// Start a turn with these parameters.
    StartTurn(Json),
    /// Collect the notifications that came in.
    DrainNotifications,
    /// Wait for this many milliseconds.
    Sleep(u64),
    /// The run is over.
    Finish,
}

/// What came of the last action.
#[derive(Debug, PartialEq, Eq)]
pub enum FollowInput {
    /// The response to reading the thread.
    Read(Json),
    /// The response to starting a turn.
    Started(Json),
    /// The notifications that came in.
    Notifications(Vec<Json>),
    /// The pause is over.
    Woke,
}

/// The model of [`FollowAction`].
pub enum FollowActionV {
    ReadThread,
    StartTurn(JsonV),
    DrainNotifications,
    Sleep(u64),
    Finish,
}

/// The model of [`FollowInput`].
pub enum FollowInputV {
    Read(JsonV),
    Started(JsonV),
    Notifications(Seq<JsonV>),
    Woke,
}

impl View for FollowAction {
    type V = FollowActionV;

    open spec fn view(&self) -> FollowActionV {
        match self {
            FollowAction::ReadThread => FollowActionV::ReadThread,
            FollowAction::StartTurn(p) => FollowActionV::StartTurn(p@),
            FollowAction::DrainNotifications => FollowActionV::DrainNotifications,
            FollowAction::Sleep(ms) => FollowActionV::Sleep(*ms),
            FollowAction::Finish => FollowActionV::Finish,
        }
    }
}

impl View for FollowInput {
    type V = FollowInputV;

    open spec fn view(&self) -> FollowInputV {
        match self {
            FollowInput::Read(v) => FollowInputV::Read(v@),
            FollowInput::Started(v) => FollowInputV::Started(v@),
            FollowInput::Notifications(v) => FollowInputV::Notifications(v.deep_view()),
            FollowInput::Woke => FollowInputV::Woke,
        }
    }
}

/// A follow run. Its clock counts milliseconds.
#[derive(Debug, PartialEq, Eq)]
pub struct Follow {
    pub thread_id: String,
    pub message: Option<String>,
    pub duration_ms: u64,
    pub poll_interval_ms: u64,
    pub event_filter: Option<Vec<String>>,
    pub events: Vec<Json>,
    pub deadline: u64,
    pub next_poll_at: u64,
    pub phase: FollowPhase,
}

/// The model of [`Follow`].
#[verifier::ext_equal]
pub struct FollowV {
    pub thread_id: Seq<char>,
    pub message: Option<Seq<char>>,
    pub duration_ms: u64,
    pub poll_interval_ms: u64,
    pub event_filter: Option<Seq<Seq<char>>>,
    pub events: Seq<JsonV>,
    pub deadline: u64,
    pub next_poll_at: u64,
    pub phase: FollowPhase,
}

impl View for Follow {
    type V = FollowV;

    open spec fn view(&self) -> FollowV {
        FollowV {
            thread_id: self.thread_id@,
            message: self.message.deep_view(),
            duration_ms: self.duration_ms,
            poll_interval_ms: self.poll_interval_ms,
            event_filter: self.event_filter.deep_view(),
            events: self.events.deep_view(),
            deadline: self.deadline,
            next_poll_at: self.next_poll_at,
            phase: self.phase,
        }
    }
}

impl DeepView for Follow {
    type V = FollowV;

    open spec fn deep_view(&self) -> FollowV {
        self@
    }
}

/// How long a follow run pauses between its rounds, in milliseconds.
pub const FOLLOW_PAUSE_MS: u64 = 200;

/// A follow run at its start: its first event, and the thread to be read.
pub open spec fn follow_begun(
    thread_id: Seq<char>,
    message: Option<Seq<char>>,
    duration: u64,
    poll: u64,
    filter: Option<Seq<Seq<char>>>,
) -> FollowV {
    FollowV {
        thread_id,
        message: non_blank(message),
        duration_ms: duration,
        poll_interval_ms: poll,
        event_filter: filter,
        events: with_follow_event(
            Seq::empty(),
            filter,
            follow_started(thread_id, duration, poll),
        ),
        deadline: 0,
        next_poll_at: 0,
        phase: FollowPhase::Initial,
    }
}

impl FollowV {
    /// The run with one more event, where it passes the filter.
    pub open spec fn noting(self, event: JsonV) -> FollowV {
        FollowV { events: with_follow_event(self.events, self.event_filter, event), ..self }
    }

    /// The run with the events of notifications.
    pub open spec fn noting_all(self, notifications: Seq<JsonV>) -> FollowV {
        FollowV {
            events: with_follow_events(
                self.events,
                self.event_filter,
                notification_events(notifications),
                notifications.len(),
            ),
            ..self
        }
    }

    /// The run once its clock starts at `now`.
    pub open spec fn timed(self, now: u64) -> FollowV {
        FollowV {
            deadline: saturating(now, self.duration_ms),
            next_poll_at: saturating(now, self.poll_interval_ms),
            ..self
        }
    }

    /// The round at `now`: one more before the deadline, else the closing one.
    pub open spec fn round(self, now: u64) -> (FollowV, FollowActionV) {
        (
            FollowV {
                phase: if now < self.deadline {
                    FollowPhase::Round
                } else {
                    FollowPhase::Closing
                },
                ..self
            },
            FollowActionV::DrainNotifications,
        )
    }

    /// The pause after a round.
    pub open spec fn pausing(self) -> (FollowV, FollowActionV) {
        (FollowV { phase: FollowPhase::Pause, ..self }, FollowActionV::Sleep(FOLLOW_PAUSE_MS))
    }

    /// The end of the run.
    pub open spec fn ended(self) -> (FollowV, FollowActionV) {
        (FollowV { phase: FollowPhase::Over, ..self }, FollowActionV::Finish)
    }

    /// The step after `input` at `now`. An input that the run does not wait for ends it.
    pub open spec fn step(self, input: FollowInputV, now: u64) -> (FollowV, FollowActionV) {
        match (self.phase, input) {
            (FollowPhase::Initial, FollowInputV::Read(read)) => {
                let seen = self.noting(
                    follow_snapshot(self.thread_id, or_null(member(read, "thread"@))),
                );
                match self.message {
                    Some(m) => (
                        FollowV { phase: FollowPhase::Turn, ..seen },
                        FollowActionV::StartTurn(turn_params(self.thread_id, None, m)),
                    ),
                    None => seen.timed(now).round(now),
                }
            },
            (FollowPhase::Turn, FollowInputV::Started(started)) => {
                self.noting(follow_turn_started(self.thread_id, started)).timed(now).round(now)
            },
            (FollowPhase::Round, FollowInputV::Notifications(more)) => {
                let seen = self.noting_all(more);
                if self.poll_interval_ms > 0 && now >= self.next_poll_at {
                    (FollowV { phase: FollowPhase::Poll, ..seen }, FollowActionV::ReadThread)
                } else {
                    seen.pausing()
                }
            },
            (FollowPhase::Poll, FollowInputV::Read(read)) => {
                let seen = self.noting(
                    follow_snapshot(self.thread_id, or_null(member(read, "thread"@))),
                );
                (FollowV {
                    next_poll_at: saturating(now, self.poll_interval_ms),
                    ..seen
                }).pausing()
            },
            (FollowPhase::Pause, FollowInputV::Woke) => self.round(now),
            (FollowPhase::Closing, FollowInputV::Notifications(more)) => {
                self.noting_all(more).ended()
            },
            _ => self.ended(),
        }
    }
}

impl Follow {
    /// Begins a follow run: the first action is to read the thread.
    pub fn begin(
        thread_id: &str,
        message: Option<&str>,
        duration_ms: u64,
        poll_interval_ms: u64,
        event_filter: Option<&Vec<String>>,
    ) -> (r: Follow)
        ensures
            r@ == follow_begun(
                thread_id@,
                message.deep_view(),
                duration_ms,
                poll_interval_ms,
                event_filter.deep_view(),
            ),
    {
        let mut events: Vec<Json> = Vec::new();
        assert(events.deep_view() =~= Seq::<JsonV>::empty());
        push_follow_event(
            &mut events,
            event_filter,
            started_event(thread_id, duration_ms, poll_interval_ms),
        );
        let kept: Option<Vec<String>> = match event_filter {
            Some(kinds) => Some(copy_texts(kinds)),
            None => None,
        };
        Follow {
            thread_id: thread_id.to_owned(),
            message: trimmed_non_blank(message),
            duration_ms,
            poll_interval_ms,
            event_filter: kept,
            events,
            deadline: 0,
            next_poll_at: 0,
            phase: FollowPhase::Initial,
        }
    }

    /// Adds an event, where it passes the filter.
    fn note(&mut self, event: Json)
        ensures
            final(self)@ == old(self)@.noting(event@),
    {
        let filter: Option<&Vec<String>> = match &self.event_filter {
            Some(kinds) => Some(kinds),
            None => None,
        };
        push_follow_event(&mut self.events, filter, event);
    }

    /// Adds the events of notifications, where they pass the filter.
    fn note_all(&mut self, notifications: &Vec<Json>)
        ensures
            final(self)@ == old(self)@.noting_all(notifications.deep_view()),
    {
        let filter: Option<&Vec<String>> = match &self.event_filter {
            Some(kinds) => Some(kinds),
            None => None,
        };
        push_notifications(&mut self.events, filter, notifications);
    }

    /// Starts the clock of the run.
    fn start_clock(&mut self, now: u64)
        ensures
            final(self)@ == old(self)@.timed(now),
    {
        self.deadline = now.saturating_add(self.duration_ms);
        self.next_poll_at = now.saturating_add(self.poll_interval_ms);
    }

    /// Goes into the next round.
    fn next_round(&mut self, now: u64) -> (r: FollowAction)
        ensures
            (final(self)@, r@) == old(self)@.round(now),
    {
        self.phase =
        if now < self.deadline {
            FollowPhase::Round
        } else {
            FollowPhase::Closing
        };
        FollowAction::DrainNotifications
    }

    /// Takes what came of the last action at `now`, and gives the next action.
    pub fn advance(&mut self, input: FollowInput, now: u64) -> (r: FollowAction)
        ensures
            (final(self)@, r@) == old(self)@.step(input@, now),
    {
        match (self.phase, input) {
            (FollowPhase::Initial, FollowInput::Read(read)) => {
                let event = snapshot_event_of(
                    self.thread_id.as_str(),
                    read.get_or_null("thread"),
                );
                self.note(event);
                match copy_opt(&self.message) {
                    Some(m) => {
                        self.phase = FollowPhase::Turn;
                        FollowAction::StartTurn(
                            turn_start_params(self.thread_id.as_str(), None, m.as_str()),
                        )
                    },
                    None => {
                        self.start_clock(now);
                        self.next_round(now)
                    },
                }
            },
            (FollowPhase::Turn, FollowInput::Started(started)) => {
                let event = turn_started_event(self.thread_id.as_str(), started);
                self.note(event);
                self.start_clock(now);
                self.next_round(now)
            },
            (FollowPhase::Round, FollowInput::Notifications(more)) => {
                self.note_all(&more);
                if self.poll_interval_ms > 0 && now >= self.next_poll_at {
                    self.phase = FollowPhase::Poll;
                    FollowAction::ReadThread
                } else {
                    self.phase = FollowPhase::Pause;
                    FollowAction::Sleep(FOLLOW_PAUSE_MS)
                }
            },
            (FollowPhase::Poll, FollowInput::Read(read)) => {
                let event = snapshot_event_of(
                    self.thread_id.as_str(),
                    read.get_or_null("thread"),
                );
                self.note(event);
                self.next_poll_at = now.saturating_add(self.poll_interval_ms);
                self.phase = FollowPhase::Pause;
                FollowAction::Sleep(FOLLOW_PAUSE_MS)
            },
            (FollowPhase::Pause, FollowInput::Woke) => self.next_round(now),
            (FollowPhase::Closing, FollowInput::Notifications(more)) => {
                self.note_all(&more);
                self.phase = FollowPhase::Over;
                FollowAction::Finish
            },
            _ => {
                self.phase = FollowPhase::Over;
                FollowAction::Finish
            },
        }
    }
}

/// Every event that a follow run holds passes its filter.
pub open spec fn follow_filtered(f: FollowV) -> bool {
    forall|i: int| 0 <= i < f.events.len() ==> emits(f.event_filter, #[trigger] f.events[i])
}

/// A follow run holds only events that pass its filter, from its start and through every
/// step; and a step keeps the events that the run already held.
pub proof fn follow_runs_stay_filtered(
    thread_id: Seq<char>,
    message: Option<Seq<char>>,
    duration: u64,
    poll: u64,
    filter: Option<Seq<Seq<char>>>,
    f: FollowV,
    input: FollowInputV,
    now: u64,
)
    requires
        follow_filtered(f),
    ensures
        follow_filtered(follow_begun(thread_id, message, duration, poll, filter)),
        follow_filtered(f.step(input, now).0),
        f.events.is_prefix_of(f.step(input, now).0.events),
{
    match input {
        FollowInputV::Notifications(more) => {
            lemma_follow_events(f.events, f.event_filter, notification_events(more), more.len());
        },
        _ => {},
    }
}

proof fn lemma_follow_events(
    events: Seq<JsonV>,
    filter: Option<Seq<Seq<char>>>,
    more: Seq<JsonV>,
    n: nat,
)
    requires
        n <= more.len(),
        forall|i: int| 0 <= i < events.len() ==> emits(filter, #[trigger] events[i]),
    ensures
        events.is_prefix_of(with_follow_events(events, filter, more, n)),
        forall|i: int|
            0 <= i < with_follow_events(events, filter, more, n).len() ==> emits(
                filter,
                #[trigger] with_follow_events(events, filter, more, n)[i],
            ),
    decreases n,
{
    if n > 0 {
        lemma_follow_events(events, filter, more, (n - 1) as nat);
    }
}

/// Once its time is up, a follow run that wakes collects the last notifications and ends.
pub proof fn follow_runs_end(f: FollowV, now: u64, more: Seq<JsonV>, later: u64)
    requires
        f.phase == FollowPhase::Pause,
        now >= f.deadline,
    ensures
        f.step(FollowInputV::Woke, now).0.phase == FollowPhase::Closing,
        f.step(FollowInputV::Woke, now).0.step(FollowInputV::Notifications(more), later).1
            == FollowActionV::Finish,
{
}

/// The events of a follow run that only saw its start, one reading, one turn and some
/// notifications.
pub open spec fn recorded_follow(
    thread_id: Seq<char>,
    duration: u64,
    poll: u64,
    initial: Option<JsonV>,
    started: Option<JsonV>,
    notifications: Seq<JsonV>,
    filter: Option<Seq<Seq<char>>>,
) -> Seq<JsonV> {
    let opened = with_follow_event(
        Seq::empty(),
        filter,
        follow_started(thread_id, duration, poll),
    );
    let read = match initial {
        Some(thread) => with_follow_event(opened, filter, follow_snapshot(thread_id, thread)),
        None => opened,
    };
    let turned = match started {
        Some(v) => with_follow_event(read, filter, follow_turn_started(thread_id, v)),
        None => read,
    };
    with_follow_events(turned, filter, notification_events(notifications), notifications.len())
}

/// The events of a follow run that only saw its start, one reading, one turn and some
/// notifications.
pub fn build_follow_events(
    thread_id: &str,
    duration_ms: u64,
    poll_interval_ms: u64,
    initial_thread: Option<Json>,
    started: Option<Json>,
    notifications: &Vec<Json>,
    event_filter: Option<&Vec<String>>,
) -> (r: Vec<Json>)
    ensures
        r.deep_view() == recorded_follow(
            thread_id@,
            duration_ms,
            poll_interval_ms,
            initial_thread.deep_view(),
            started.deep_view(),
            notifications.deep_view(),
            event_filter.deep_view(),
        ),
{
    let mut events: Vec<Json> = Vec::new();
    assert(events.deep_view() =~= Seq::<JsonV>::empty());
    push_follow_event(
        &mut events,
        event_filter,
        started_event(thread_id, duration_ms, poll_interval_ms),
    );
    match initial_thread {
        Some(thread) => {
            push_follow_event(&mut events, event_filter, snapshot_event_of(thread_id, thread));
        },
        None => {},
    }
    match started {
        Some(v) => {
            push_follow_event(&mut events, event_filter, turn_started_event(thread_id, v));
        },
        None => {},
    }
    push_notifications(&mut events, event_filter, notifications);
    events
}

// ---------------------------------------------------------------------------
// Settling
// ---------------------------------------------------------------------------

/// How long a run waits for its thread to settle, in milliseconds.
pub open spec fn settle_duration(duration: u64) -> u64 {
    if duration <= 100 {
        0
    } else {
        20_000
    }
}

/// How long a run waits for its thread to settle, in milliseconds.
pub fn composed_settle_duration_ms(duration_ms: u64) -> (r: u64)
    ensures
        r == settle_duration(duration_ms),
{
    if duration_ms <= 100 {
        0
    } else {
        20_000
    }
}

/// The event ends the wait for a thread.
pub open spec fn is_terminal(event: JsonV) -> bool {
    let kind = text_member(event, "type"@);
    ||| kind == Some("item_completed"@)
    ||| kind == Some("task_complete"@)
    ||| kind == Some("turn.completed"@)
    ||| kind == Some("turn.waiting"@)
    ||| kind == Some("approval_request"@)
}

/// Tells whether the event ends the wait for a thread.
pub fn event_is_terminal(event: &Json) -> (r: bool)
    ensures
        r == is_terminal(event@),
{
    let kind = event.get_text("type");
    str_is(kind, "item_completed") || str_is(kind, "task_complete") || str_is(
        kind,
        "turn.completed",
    ) || str_is(kind, "turn.waiting") || str_is(kind, "approval_request")
}

/// The thread is at rest: its last turn is done, or it waits for the user.
pub open spec fn at_rest(thread: JsonV) -> bool {
    last_turn_status(thread) == Some("completed"@) || flags_are_waiting(thread)
}

/// Tells whether the thread is at rest.
pub fn thread_snapshot_is_terminal(thread: &Json) -> (r: bool)
    ensures
        r == at_rest(thread@),
{
    opt_is(&status_of_last_turn(thread), "completed") || active_flags_are_waiting(thread)
}

/// One of the events ends the wait.
pub open spec fn any_terminal(events: Seq<JsonV>) -> bool {
    exists|i: int| 0 <= i < events.len() && is_terminal(#[trigger] events[i])
}

/// How long a run waits once it holds these events: not at all where one ends the wait.
pub open spec fn settle_wait(events: Seq<JsonV>, duration: u64) -> u64 {
    if any_terminal(events) {
        0
    } else {
        settle_duration(duration)
    }
}

/// How long a run waits once it holds these events.
pub fn settle_wait_ms(events: &Vec<Json>, duration_ms: u64) -> (r: u64)
    ensures
        r == settle_wait(events.deep_view(), duration_ms),
{
    let ghost all = events.deep_view();
    let mut i: usize = 0;
    while i < events.len()
        invariant
            i <= events@.len(),
            all == events.deep_view(),
            forall|k: int| 0 <= k < i ==> !is_terminal(#[trigger] all[k]),
        decreases events@.len() - i,
    {
        assert(all[i as int] == events@[i as int]@);
        if event_is_terminal(&events[i]) {
            return 0;
        }
        i += 1;
    }
    composed_settle_duration_ms(duration_ms)
}

/// The thread that was read is at rest.
pub open spec fn read_at_rest(read: JsonV) -> bool {
    match member(read, "thread"@) {
        Some(thread) => at_rest(thread),
        None => false,
    }
}

/// Takes one reading of the thread, and tells whether the thread is at rest.
pub fn settle_composed_follow_events(
    thread_id: &str,
    events: &mut Vec<Json>,
    event_filter: Option<&Vec<String>>,
    read: &Json,
) -> (r: bool)
    ensures
        final(events).deep_view() == with_follow_event(
            old(events).deep_view(),
            event_filter.deep_view(),
            follow_snapshot(thread_id@, or_null(member(read@, "thread"@))),
        ),
        r == read_at_rest(read@),
{
    push_follow_event(
        events,
        event_filter,
        snapshot_event_of(thread_id, read.get_or_null("thread")),
    );
    match read.get("thread") {
        Some(thread) => thread_snapshot_is_terminal(thread),
        None => false,
    }
}

/// What a settling run waits for.
#[derive(Debug, Clone, Copy, PartialEq, Eq, Structural)]
pub enum SettlePhase {
    /// A reading of the thread.
    Reading,
    /// The end of a pause.
    Pause,
    /// Nothing more.
    Over,
}

/// What the caller of a settling run does next.
#[derive(Debug, Clone, Copy, PartialEq, Eq, Structural)]
pub enum SettleAction {
    /// Read the thread.
    ReadThread,
    /// Wait for this many milliseconds.
    Sleep(u64),
    /// The run is over.
    Finish,
}

/// What came of the last action of a settling run.
#[derive(Debug, PartialEq, Eq)]
pub enum SettleInput {
    /// The response to reading the thread.
    Read(Json),
    /// The pause is over.
    Woke,
}

/// The model of [`SettleInput`].
pub enum SettleInputV {
    Read(JsonV),
    Woke,
}

impl View for SettleInput {
    type V = SettleInputV;

    open spec fn view(&self) -> SettleInputV {
        match self {
            SettleInput::Read(v) => SettleInputV::Read(v@),
            SettleInput::Woke => SettleInputV::Woke,
        }
    }
}

/// A run that waits for its thread to settle once it was followed: it reads the thread again
/// and again until the thread is at rest or the time is up. Its clock counts milliseconds.
#[derive(Debug, PartialEq, Eq)]
pub struct Settle {
    pub thread_id: String,
    pub event_filter: Option<Vec<String>>,
    pub events: Vec<Json>,
    pub deadline: u64,
    pub phase: SettlePhase,
}

/// The model of [`Settle`].
#[verifier::ext_equal]
pub struct SettleV {
    pub thread_id: Seq<char>,
    pub event_filter: Option<Seq<Seq<char>>>,
    pub events: Seq<JsonV>,
    pub deadline: u64,
    pub phase: SettlePhase,
}

impl View for Settle {
    type V = SettleV;

    open spec fn view(&self) -> SettleV {
        SettleV {
            thread_id: self.thread_id@,
            event_filter: self.event_filter.deep_view(),
            events: self.events.deep_view(),
            deadline: self.deadline,
            phase: self.phase,
        }
    }
}

impl DeepView for Settle {
    type V = SettleV;

    open spec fn deep_view(&self) -> SettleV {
        self@
    }
}

/// How long a settling run pauses between two readings, in milliseconds.
pub const SETTLE_PAUSE_MS: u64 = 1000;

/// A settling run at its start, and what it does first.
pub open spec fn settle_begun(
    thread_id: Seq<char>,
    events: Seq<JsonV>,
    duration: u64,
    filter: Option<Seq<Seq<char>>>,
    now: u64,
) -> (SettleV, SettleAction) {
    (SettleV {
        thread_id,
        event_filter: filter,
        events,
        deadline: saturating(now, settle_wait(events, duration)),
        phase: SettlePhase::Over,
    }).going_on(now)
}

impl SettleV {
    /// The run with one reading of the thread more.
    pub open spec fn reading(self, read: JsonV) -> SettleV {
        SettleV {
            events: with_follow_event(
                self.events,
                self.event_filter,
                follow_snapshot(self.thread_id, or_null(member(read, "thread"@))),
            ),
            ..self
        }
    }

    /// The run in a phase.
    pub open spec fn in_phase(self, phase: SettlePhase) -> SettleV {
        SettleV { phase, ..self }
    }

    /// The run once the time is looked at: the thread is read while there is some left.
    pub open spec fn going_on(self, now: u64) -> (SettleV, SettleAction) {
        if now < self.deadline {
            (self.in_phase(SettlePhase::Reading), SettleAction::ReadThread)
        } else {
            (self.in_phase(SettlePhase::Over), SettleAction::Finish)
        }
    }

    /// The run once it was told what came of its last action, and what it does next: a
    /// thread at rest ends it, any other is read again after a pause.
    pub open spec fn step(self, input: SettleInputV, now: u64) -> (SettleV, SettleAction) {
        match (self.phase, input) {
            (SettlePhase::Reading, SettleInputV::Read(read)) => if read_at_rest(read) {
                (self.reading(read).in_phase(SettlePhase::Over), SettleAction::Finish)
            } else {
                (
                    self.reading(read).in_phase(SettlePhase::Pause),
                    SettleAction::Sleep(SETTLE_PAUSE_MS),
                )
            },
            (SettlePhase::Pause, SettleInputV::Woke) => self.going_on(now),
            _ => (self.in_phase(SettlePhase::Over), SettleAction::Finish),
        }
    }
}

impl Settle {
    /// Begins to wait at `now` for a thread to settle, with the events of following it for
    /// `duration_ms`; and gives the first action.
    pub fn begin(
        thread_id: &str,
        events: Vec<Json>,
        duration_ms: u64,
        event_filter: Option<&Vec<String>>,
        now: u64,
    ) -> (r: (Settle, SettleAction))
        ensures
            (r.0@, r.1) == settle_begun(
                thread_id@,
                events.deep_view(),
                duration_ms,
                event_filter.deep_view(),
                now,
            ),
    {
        let wait: u64 = settle_wait_ms(&events, duration_ms);
        let kept: Option<Vec<String>> = match event_filter {
            Some(kinds) => Some(copy_texts(kinds)),
            None => None,
        };
        let mut settle = Settle {
            thread_id: thread_id.to_owned(),
            event_filter: kept,
            events,
            deadline: now.saturating_add(wait),
            phase: SettlePhase::Over,
        };
        let action = settle.go_on(now);
        (settle, action)
    }

    /// Looks at the time: the thread is read while there is some left.
    fn go_on(&mut self, now: u64) -> (r: SettleAction)
        ensures
            (final(self)@, r) == old(self)@.going_on(now),
    {
        if now < self.deadline {
            self.phase = SettlePhase::Reading;
            SettleAction::ReadThread
        } else {
            self.phase = SettlePhase::Over;
            SettleAction::Finish
        }
    }

    /// Takes what came of the last action at `now`, and gives the next action. The thread is
    /// read only while there is time left, and no more once it is at rest.
    pub fn advance(&mut self, input: SettleInput, now: u64) -> (r: SettleAction)
        ensures
            (final(self)@, r) == old(self)@.step(input@, now),
            r == SettleAction::ReadThread ==> now < old(self)@.deadline,
    {
        match (self.phase, input) {
            (SettlePhase::Reading, SettleInput::Read(read)) => {
                let filter: Option<&Vec<String>> = match &self.event_filter {
                    Some(kinds) => Some(kinds),
                    None => None,
                };
                if settle_composed_follow_events(
                    self.thread_id.as_str(),
                    &mut self.events,
                    filter,
                    &read,
                ) {
                    self.phase = SettlePhase::Over;
                    SettleAction::Finish
                } else {
                    self.phase = SettlePhase::Pause;
                    SettleAction::Sleep(SETTLE_PAUSE_MS)
                }
            },
            (SettlePhase::Pause, SettleInput::Woke) => self.go_on(now),
            _ => {
                self.phase = SettlePhase::Over;
                SettleAction::Finish
            },
        }
    }
}

/// A round of a settling run: a reading, and when the pause after it was over.
pub struct SettleRoundV {
    pub read: JsonV,
    pub woke_at: u64,
}

/// The run once it was through rounds, and what it does next.
pub open spec fn settled_through(s: SettleV, rounds: Seq<SettleRoundV>) -> (SettleV, SettleAction)
    decreases rounds.len(),
{
    if rounds.len() == 0 {
        (s, SettleAction::ReadThread)
    } else {
        let round = rounds.last();
        settled_through(s, rounds.drop_last()).0.step(
            SettleInputV::Read(round.read),
            round.woke_at,
        ).0.step(SettleInputV::Woke, round.woke_at)
    }
}

/// Events with the readings of rounds.
pub open spec fn with_readings(s: SettleV, rounds: Seq<SettleRoundV>) -> SettleV
    decreases rounds.len(),
{
    if rounds.len() == 0 {
        s
    } else {
        with_readings(s, rounds.drop_last()).reading(rounds.last().read)
    }
}

/// A settling run goes on through rounds whose readings are not at rest and whose pauses end
/// before the deadline, and keeps the readings. The first reading at rest after them ends
/// it, and so does the first pause that ends later.
pub proof fn settling_ends_with_the_first_rest(
    s: SettleV,
    rounds: Seq<SettleRoundV>,
    rest: JsonV,
    busy: JsonV,
    now: u64,
)
    requires
        s.phase == SettlePhase::Reading,
        forall|i: int|
            0 <= i < rounds.len() ==> !read_at_rest((#[trigger] rounds[i]).read)
                && rounds[i].woke_at < s.deadline,
        read_at_rest(rest),
        !read_at_rest(busy),
    ensures
        settled_through(s, rounds) == (with_readings(s, rounds), SettleAction::ReadThread),
        settled_through(s, rounds).0.step(SettleInputV::Read(rest), now) == (
            with_readings(s, rounds).reading(rest).in_phase(SettlePhase::Over),
            SettleAction::Finish,
        ),
        now >= s.deadline ==> settled_through(s, rounds).0.step(
            SettleInputV::Read(busy),
            now,
        ).0.step(SettleInputV::Woke, now) == (
            with_readings(s, rounds).reading(busy).in_phase(SettlePhase::Over),
            SettleAction::Finish,
        ),
    decreases rounds.len(),
{
    lemma_readings_keep_the_run(s, rounds);
    if rounds.len() > 0 {
        let before = rounds.drop_last();
        let last = rounds.last();
        assert(last == rounds[rounds.len() - 1]);
        assert forall|i: int| 0 <= i < before.len() implies !read_at_rest(
            (#[trigger] before[i]).read,
        ) && before[i].woke_at < s.deadline by {
            assert(before[i] == rounds[i]);
        }
        settling_ends_with_the_first_rest(s, before, rest, busy, now);
        lemma_readings_keep_the_run(s, before);
    }
}

proof fn lemma_readings_keep_the_run(s: SettleV, rounds: Seq<SettleRoundV>)
    ensures
        with_readings(s, rounds).phase == s.phase,
        with_readings(s, rounds).deadline == s.deadline,
    decreases rounds.len(),
{
    if rounds.len() > 0 {
        lemma_readings_keep_the_run(s, rounds.drop_last());
    }
}

/// Nothing is read where an event already ends the wait, or where the thread was hardly
/// followed; and a run that is over stays so, whatever it is told.
pub proof fn settled_runs_read_nothing(
    thread_id: Seq<char>,
    events: Seq<JsonV>,
    duration: u64,
    filter: Option<Seq<Seq<char>>>,
    now: u64,
    input: SettleInputV,
    later: u64,
)
    requires
        any_terminal(events) || duration <= 100,
    ensures
        settle_begun(thread_id, events, duration, filter, now).1 == SettleAction::Finish,
        settle_begun(thread_id, events, duration, filter, now).0.events == events,
        settle_begun(thread_id, events, duration, filter, now).0.step(input, later) == (
            settle_begun(thread_id, events, duration, filter, now).0,
            SettleAction::Finish,
        ),
{
}

// ---------------------------------------------------------------------------
// Keeping and reporting
// ---------------------------------------------------------------------------

/// The thread of the last reading among the first `n` events.
pub open spec fn last_reading(events: Seq<JsonV>, n: nat) -> Option<JsonV>
    decreases n,
{
    if n == 0 || n > events.len() {
        None
    } else if text_member(events[n - 1], "type"@) == Some("follow_snapshot"@) {
        member(events[n - 1], "thread"@)
    } else {
        last_reading(events, (n - 1) as nat)
    }
}

/// The event says that the prompt of its thread is done with.
pub open spec fn ends_prompt(event: JsonV) -> bool {
    let kind = text_member(event, "type"@);
    kind == Some("task_complete"@) || kind == Some("turn.completed"@)
}

/// One of the events says that the prompt is done with.
pub open spec fn any_ends_prompt(events: Seq<JsonV>) -> bool {
    exists|i: int| 0 <= i < events.len() && ends_prompt(#[trigger] events[i])
}

/// The state without the prompt of a thread, where the events end it.
pub open spec fn prompt_ended(st: BridgeStateV, thread_id: Seq<char>, events: Seq<JsonV>) -> BridgeStateV {
    if any_ends_prompt(events) {
        BridgeStateV {
            prompts: without(st.prompts, key_is(prompt_row_key(), thread_id)),
            ..st
        }
    } else {
        st
    }
}

/// The state once the events of a follow run are kept: the last reading of the thread is
/// stored, and a prompt that is done with is dropped.
pub open spec fn follow_kept(
    st: BridgeStateV,
    thread_id: Seq<char>,
    events: Seq<JsonV>,
    now: u64,
) -> Result<BridgeStateV, BridgeErrorV> {
    match last_reading(events, events.len()) {
        None => Ok(prompt_ended(st, thread_id, events)),
        Some(thread) => match snapshot_of(thread, thread) {
            Err(e) => Err(e),
            Ok(snapshot) => if snapshot_fits(snapshot, now) {
                Ok(
                    prompt_ended(
                        with_snapshot(st, snapshot, now as i64),
                        thread_id,
                        events,
                    ),
                )
            } else {
                Err(out_of_range())
            },
        },
    }
}

/// Keeps the events of a follow run: the last reading of the thread is stored, and a
/// prompt that is done with is dropped.
pub fn persist_follow_events(
    state: &mut BridgeState,
    thread_id: &str,
    events: &Vec<Json>,
    now: u64,
) -> (r: Result<(), BridgeError>)
    ensures
        match follow_kept(old(state)@, thread_id@, events.deep_view(), now) {
            Ok(after) => r is Ok && final(state)@ == after,
            Err(e) => r is Err && r->Err_0@ == e && final(state)@ == old(state)@,
        },
{
    let ghost all = events.deep_view();
    let mut n: usize = events.len();
    let mut reading: Option<usize> = None;
    while n > 0 && reading.is_none()
        invariant
            n <= events@.len(),
            all == events.deep_view(),
            match reading {
                None => last_reading(all, all.len()) == last_reading(all, n as nat),
                Some(i) => i < events@.len() && last_reading(all, all.len()) == member(
                    all[i as int],
                    "thread"@,
                ),
            },
        decreases n, if reading is None { 1int } else { 0int },
    {
        assert(all[n - 1] == events@[n - 1]@);
        if str_is(events[n - 1].get_text("type"), "follow_snapshot") {
            reading = Some(n - 1);
        } else {
            n -= 1;
        }
    }
    match reading {
        Some(i) => {
            assert(all[i as int] == events@[i as int]@);
            match events[i].get("thread") {
                Some(thread) => {
                    let snapshot = match normalize_thread_snapshot(thread, thread) {
                        Ok(s) => s,
                        Err(e) => {
                            return Err(e);
                        },
                    };
                    match upsert_thread_snapshot(state, &snapshot, now) {
                        Ok(_) => {},
                        Err(e) => {
                            return Err(e);
                        },
                    }
                },
                None => {},
            }
        },
        None => {},
    }
    let mut k: usize = 0;
    let mut ends: bool = false;
    while k < events.len() && !ends
        invariant
            k <= events@.len(),
            all == events.deep_view(),
            ends ==> any_ends_prompt(all),
            !ends ==> forall|j: int| 0 <= j < k ==> !ends_prompt(#[trigger] all[j]),
        decreases events@.len() - k,
    {
        assert(all[k as int] == events@[k as int]@);
        let kind = events[k].get_text("type");
        ends = str_is(kind, "task_complete") || str_is(kind, "turn.completed");
        k += 1;
    }
    if ends {
        delete_prompt(state, thread_id);
    }
    Ok(())
}

/// What a follow run reports.
pub open spec fn follow_report(
    thread_id: Seq<char>,
    duration: u64,
    events: Seq<JsonV>,
    include_events: bool,
) -> JsonV {
    let members = Seq::empty().push(("ok"@, JsonV::Bool(true))).push(
        ("action"@, JsonV::Str("follow"@)),
    ).push(("threadId"@, JsonV::Str(thread_id))).push(("durationMs"@, JsonV::UInt(duration)));
    JsonV::Object(
        if include_events {
            members.push(("events"@, JsonV::Array(events)))
        } else {
            members
        },
    )
}

/// A copy of a list of values.
pub fn copy_values(items: &Vec<Json>) -> (r: Vec<Json>)
    ensures
        r.deep_view() == items.deep_view(),
{
    let mut out: Vec<Json> = Vec::new();
    let mut i: usize = 0;
    while i < items.len()
        invariant
            i <= items@.len(),
            out@.len() == i,
            forall|k: int| 0 <= k < i ==> (#[trigger] out@[k])@ == items@[k]@,
        decreases items@.len() - i,
    {
        out.push(items[i].clone());
        i += 1;
    }
    assert(out.deep_view() =~= items.deep_view());
    out
}

/// What a follow run reports.
pub fn follow_result_summary(
    thread_id: &str,
    duration_ms: u64,
    events: &Vec<Json>,
    include_events: bool,
) -> (r: Json)
    ensures
        r@ == follow_report(thread_id@, duration_ms, events.deep_view(), include_events),
{
    let object = Object::new().with("ok", Json::Bool(true)).with(
        "action",
        Json::text("follow"),
    ).with("threadId", Json::text(thread_id)).with("durationMs", Json::UInt(duration_ms));
    if include_events {
        object.with("events", Json::array(copy_values(events))).done()
    } else {
        object.done()
    }
}

/// The result of a command with its follow run.
pub open spec fn followed(result: JsonV, follow: JsonV, stream: bool) -> JsonV {
    let whole = index_set(result, "follow"@, follow);
    if stream {
        JsonV::Object(
            Seq::empty()
                .push(("type"@, JsonV::Str("command_result"@)))
                .push(("result"@, whole)),
        )
    } else {
        whole
    }
}

/// Puts the report of a follow run into the result of a command.
pub fn attach_follow_payload(result: Json, follow: Json, stream: bool) -> (r: Json)
    requires
        result@ is Object || result@ is Null,
    ensures
        r@ == followed(result@, follow@, stream),
{
    let mut whole = result;
    whole.set_index("follow", follow);
    if stream {
        Object::new().with("type", Json::text("command_result")).with("result", whole).done()
    } else {
        whole
    }
}

} // verus!
