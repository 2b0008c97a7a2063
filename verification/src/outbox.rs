//! The outbox: notifications that wait for delivery, under ids that make each
//! event go out once.
use sha2::{Digest, Sha256};
use vstd::prelude::*;
use vstd::string::*;
use vstd::utf8::encode_utf8;

use crate::error::{BridgeError, BridgeErrorV, failure, outcome};
use crate::json::{Json, JsonV, member, opt_member, text_member, text_value, uint_value};
use crate::order::{
    sort_desc, sort_text, sorted_desc, sorted_text, sorting_commutes, text_keyed,
    text_sorting_commutes, with_images, with_text_images,
};
use crate::state::{
    BridgeState, BridgeStateV, find_outbound, from_sql_i64, negative_integer, out_of_range,
    outbound_row_key, OutboundRow, OutboundRowV, to_sql_i64,
};
use crate::table::{
    add_keeps_keys, add_new_row, first_row, has_row, key_is, lemma_position, put_keeps_keys,
    put_leaves_others, put_row,
};
use crate::text::{cat3, chars_of, decimal, same, u64_text};
use crate::writing::json_text;

verus! {

// ---------------------------------------------------------------------------
// Digests
// ---------------------------------------------------------------------------

/// The SHA-256 digest of a message.
pub uninterp spec fn sha256_digest(message: Seq<u8>) -> Seq<u8>;

/// `sha2::Sha256::digest`: the digest of the message, always 32 bytes.
#[verifier::external_body]
fn sha256(message: &[u8]) -> (r: Vec<u8>)
    ensures
        r@ == sha256_digest(message@),
        r@.len() == 32,
{
    Sha256::digest(message).to_vec()
}

/// The hexadecimal digit of a number below sixteen, in lower case.
pub open spec fn hex_digit(d: int) -> char {
    if d < 10 {
        (48 + d) as char
    } else {
        (87 + d) as char
    }
}

/// The first `n` bytes in hexadecimal, the high digit of each byte first.
pub open spec fn hex_upto(bytes: Seq<u8>, n: nat) -> Seq<char>
    decreases n,
{
    if n == 0 || n > bytes.len() {
        Seq::empty()
    } else {
        hex_upto(bytes, (n - 1) as nat).push(hex_digit(bytes[n - 1] as int / 16)).push(
            hex_digit(bytes[n - 1] as int % 16),
        )
    }
}

/// Bytes in hexadecimal.
pub open spec fn hex(bytes: Seq<u8>) -> Seq<char> {
    hex_upto(bytes, bytes.len())
}

/// The hexadecimal digit of a number below sixteen.
fn hex_char(d: u8) -> (r: char)
    requires
        d < 16,
    ensures
        r == hex_digit(d as int),
{
    if d < 10 {
        (48 + d) as char
    } else {
        (87 + d) as char
    }
}

/// Bytes in hexadecimal, in lower case.
pub fn hex_lower(bytes: &Vec<u8>) -> (r: String)
    ensures
        r@ == hex(bytes@),
{
    let mut out = String::new();
    let mut i: usize = 0;
    while i < bytes.len()
        invariant
            i <= bytes@.len(),
            out@ == hex_upto(bytes@, i as nat),
        decreases bytes@.len() - i,
    {
        let b: u8 = bytes[i];
        out.push(hex_char(b / 16));
        out.push(hex_char(b % 16));
        i += 1;
    }
    out
}

/// The SHA-256 digest of a message in hexadecimal.
pub fn sha256_hex(message: &[u8]) -> (r: String)
    ensures
        r@ == hex(sha256_digest(message@)),
{
    hex_lower(&sha256(message))
}

/// Two hexadecimal digits stand for each byte.
pub proof fn hex_length(bytes: Seq<u8>, n: nat)
    requires
        n <= bytes.len(),
    ensures
        hex_upto(bytes, n).len() == 2 * n,
    decreases n,
{
    if n > 0 {
        hex_length(bytes, (n - 1) as nat);
    }
}

/// Different byte strings of one length have different hexadecimal forms.
pub proof fn hex_is_injective(a: Seq<u8>, b: Seq<u8>)
    requires
        hex(a) == hex(b),
    ensures
        a == b,
{
    hex_length(a, a.len());
    hex_length(b, b.len());
    assert forall|i: int| 0 <= i < a.len() implies a[i] == b[i] by {
        lemma_hex_at(a, a.len(), i);
        lemma_hex_at(b, b.len(), i);
        assert(hex(a)[2 * i] == hex(b)[2 * i]);
        assert(hex(a)[2 * i + 1] == hex(b)[2 * i + 1]);
        lemma_hex_digit(a[i] as int / 16, b[i] as int / 16);
        lemma_hex_digit(a[i] as int % 16, b[i] as int % 16);
    }
    assert(a =~= b);
}

proof fn lemma_hex_at(bytes: Seq<u8>, n: nat, i: int)
    requires
        n <= bytes.len(),
        0 <= i < n,
    ensures
        hex_upto(bytes, n).len() == 2 * n,
        hex_upto(bytes, n)[2 * i] == hex_digit(bytes[i] as int / 16),
        hex_upto(bytes, n)[2 * i + 1] == hex_digit(bytes[i] as int % 16),
    decreases n,
{
    hex_length(bytes, n);
    hex_length(bytes, (n - 1) as nat);
    if i < n - 1 {
        lemma_hex_at(bytes, (n - 1) as nat, i);
    }
}

proof fn lemma_hex_digit(x: int, y: int)
    requires
        0 <= x < 16,
        0 <= y < 16,
        hex_digit(x) == hex_digit(y),
    ensures
        x == y,
{
}

// ---------------------------------------------------------------------------
// Delivery ids
// ---------------------------------------------------------------------------

/// A character that a delivery id keeps.
pub open spec fn id_char(c: char) -> bool {
    ||| 'a' <= c <= 'z'
    ||| 'A' <= c <= 'Z'
    ||| '0' <= c <= '9'
    ||| c == '-'
    ||| c == '_'
    ||| c == '.'
}

/// The text with every character that a delivery id does not keep replaced by a hyphen.
pub open spec fn sanitized(s: Seq<char>) -> Seq<char> {
    s.map_values(
        |c: char|
            if id_char(c) {
                c
            } else {
                '-'
            },
    )
}

/// Replaces every character that a delivery id does not keep by a hyphen.
pub fn sanitize_delivery_id(value: &str) -> (r: String)
    ensures
        r@ == sanitized(value@),
{
    let v = chars_of(value);
    let mut out = String::new();
    let mut i: usize = 0;
    assert(out@ =~= sanitized(v@.take(0)));
    while i < v.len()
        invariant
            i <= v@.len(),
            out@ == sanitized(v@.take(i as int)),
        decreases v@.len() - i,
    {
        let c = v[i];
        let keep: bool = ('a' <= c && c <= 'z') || ('A' <= c && c <= 'Z') || ('0' <= c && c <= '9')
            || c == '-' || c == '_' || c == '.';
        out.push(
            if keep {
                c
            } else {
                '-'
            },
        );
        assert(out@ =~= sanitized(v@.take(i + 1)));
        i += 1;
    }
    assert(v@.take(v@.len() as int) =~= v@);
    out
}

/// A delivery id holds only characters that it keeps, is as long as its source, and
/// stays as it is when it is made into an id once more.
pub proof fn sanitizing_is_idempotent(s: Seq<char>)
    ensures
        sanitized(s).len() == s.len(),
        forall|i: int| 0 <= i < s.len() ==> id_char(#[trigger] sanitized(s)[i]),
        sanitized(sanitized(s)) == sanitized(s),
{
    assert(sanitized(sanitized(s)) =~= sanitized(s));
}

/// The thread that an event belongs to.
pub open spec fn thread_of_event(event: JsonV) -> Option<Seq<char>> {
    let thread = member(event, "thread"@);
    match text_member(event, "threadId"@) {
        Some(id) => Some(id),
        None => match text_value(opt_member(thread, "threadId"@)) {
            Some(id) => Some(id),
            None => text_value(opt_member(thread, "id"@)),
        },
    }
}

/// The thread that an event belongs to.
pub fn event_thread_id(event: &Json) -> (r: Option<String>)
    ensures
        r.deep_view() == thread_of_event(event@),
{
    match event.text_of_member("threadId") {
        Some(id) => return Some(id),
        None => {},
    }
    match event.get("thread") {
        Some(thread) => match thread.text_of_member("threadId") {
            Some(id) => Some(id),
            None => thread.text_of_member("id"),
        },
        None => None,
    }
}

/// The type of an event.
pub open spec fn type_of_event(event: JsonV) -> Seq<char> {
    match text_member(event, "type"@) {
        Some(kind) => kind,
        None => "codex_event"@,
    }
}

/// The type of an event.
pub fn event_type_or_default(event: &Json) -> (r: String)
    ensures
        r@ == type_of_event(event@),
{
    match event.text_of_member("type") {
        Some(kind) => kind,
        None => "codex_event".to_owned(),
    }
}

/// What tells the events of a thread apart: their key, else their time stamp, else
/// the digest of the event as text.
pub open spec fn discriminator(event: JsonV) -> Seq<char> {
    match text_member(event, "eventKey"@) {
        Some(key) => key,
        None => match uint_value(member(event, "updatedAt"@)) {
            Some(at) => decimal(at as nat),
            None => match uint_value(member(event, "observedAt"@)) {
                Some(at) => decimal(at as nat),
                None => hex(sha256_digest(encode_utf8(json_text(event)))),
            },
        },
    }
}

/// The delivery id of an event.
pub open spec fn delivery_id(event: JsonV) -> Seq<char> {
    sanitized(
        "codex:"@ + type_of_event(event) + ":"@ + (match thread_of_event(event) {
            Some(id) => id,
            None => "unknown"@,
        }) + ":"@ + discriminator(event),
    )
}

/// The delivery id of an event.
pub fn notification_event_id(event: &Json) -> (r: String)
    ensures
        r@ == delivery_id(event@),
{
    let tail: String = match event.text_of_member("eventKey") {
        Some(key) => key,
        None => match event.get_u64("updatedAt") {
            Some(at) => u64_text(at),
            None => match event.get_u64("observedAt") {
                Some(at) => u64_text(at),
                None => sha256_hex(event.to_text().as_str().as_bytes()),
            },
        },
    };
    let mut id = cat3("codex:", event_type_or_default(event).as_str(), ":");
    match event_thread_id(event) {
        Some(thread) => {
            id.append(thread.as_str());
        },
        None => {
            id.append("unknown");
        },
    }
    id.append(":");
    id.append(tail.as_str());
    sanitize_delivery_id(id.as_str())
}

// ---------------------------------------------------------------------------
// Waiting notifications
// ---------------------------------------------------------------------------

/// A fresh notification of an event.
pub open spec fn fresh_row(event: JsonV, now: i64) -> OutboundRowV {
    OutboundRowV {
        event_id: delivery_id(event),
        event_type: type_of_event(event),
        thread_id: thread_of_event(event),
        payload: Some(event),
        status: "pending"@,
        attempts: 0,
        next_attempt_at: now,
        last_error: None,
        created_at: now,
        delivered_at: None,
    }
}

/// The state once an event waits for delivery; an event whose id is known stays as it is.
pub open spec fn with_outbound(st: BridgeStateV, row: OutboundRowV) -> BridgeStateV {
    BridgeStateV {
        outbound: add_new_row(st.outbound, key_is(outbound_row_key(), row.event_id), row),
        ..st
    }
}

/// An event with this id is in the outbox.
pub open spec fn in_outbox(st: BridgeStateV, event_id: Seq<char>) -> bool {
    has_row(st.outbound, key_is(outbound_row_key(), event_id))
}

/// Puts an event into the outbox, and tells whether it was new there.
pub fn enqueue_outbound_event(
    state: &mut BridgeState,
    event: &Json,
    now: u64,
) -> (r: Result<bool, BridgeError>)
    ensures
        match r {
            Ok(inserted) => {
                &&& now <= i64::MAX
                &&& inserted == !in_outbox(old(state)@, delivery_id(event@))
                &&& final(state)@ == with_outbound(
                    old(state)@,
                    fresh_row(event@, now as i64),
                )
            },
            Err(e) => now > i64::MAX && e@ == out_of_range() && final(state)@ == old(state)@,
        },
{
    let at: i64 = match to_sql_i64(now) {
        Ok(v) => v,
        Err(e) => {
            return Err(e);
        },
    };
    let event_id = notification_event_id(event);
    let i: usize = find_outbound(&state.outbound, event_id.as_str());
    if i < state.outbound.len() {
        return Ok(false);
    }
    let row = OutboundRow {
        event_id,
        event_type: event_type_or_default(event),
        thread_id: event_thread_id(event),
        payload: Some(event.clone()),
        status: "pending".to_owned(),
        attempts: 0,
        next_attempt_at: at,
        last_error: None,
        created_at: at,
        delivered_at: None,
    };
    let ghost before = state.outbound.deep_view();
    state.outbound.push(row);
    assert(row@ == fresh_row(event@, now as i64));
    assert(state.outbound.deep_view() =~= before.push(row@));
    Ok(true)
}

/// One event goes into the outbox once: the same id is not added again, whatever
/// happened to the first notification since.
pub proof fn events_are_queued_once(st: BridgeStateV, row: OutboundRowV, again: OutboundRowV)
    requires
        st.well_formed(),
        again.event_id == row.event_id,
    ensures
        with_outbound(st, row).well_formed(),
        in_outbox(with_outbound(st, row), row.event_id),
        with_outbound(with_outbound(st, row), again) == with_outbound(st, row),
{
    add_keeps_keys(st.outbound, outbound_row_key(), row);
}

/// How long the next try waits after `attempts` tries, in milliseconds: it doubles
/// from one second up to 256 seconds.
pub open spec fn retry_delay(attempts: u64) -> u64 {
    if attempts <= 1 {
        1000
    } else if attempts == 2 {
        2000
    } else if attempts == 3 {
        4000
    } else if attempts == 4 {
        8000
    } else if attempts == 5 {
        16000
    } else if attempts == 6 {
        32000
    } else if attempts == 7 {
        64000
    } else if attempts == 8 {
        128000
    } else {
        256000
    }
}

/// How long the next try waits after `attempts` tries, in milliseconds.
pub fn retry_delay_ms(attempts: u64) -> (r: u64)
    ensures
        r == retry_delay(attempts),
{
    let steps: u64 = attempts.saturating_sub(1);
    let exponent: u64 = if steps < 8 {
        steps
    } else {
        8
    };
    assert(1u64 << 0u64 == 1 && 1u64 << 1u64 == 2 && 1u64 << 2u64 == 4 && 1u64 << 3u64 == 8 && 1u64
        << 4u64 == 16 && 1u64 << 5u64 == 32 && 1u64 << 6u64 == 64 && 1u64 << 7u64 == 128 && 1u64
        << 8u64 == 256) by (bit_vector);
    (1u64 << exponent) * 1000
}

/// A retry never waits less than the one before it, and never more than 256 seconds.
pub proof fn retries_back_off(attempts: u64, more: u64)
    requires
        attempts <= more,
    ensures
        1000 <= retry_delay(attempts) <= retry_delay(more) <= 256000,
        1 <= attempts < 9 ==> retry_delay((attempts + 1) as u64) == 2 * retry_delay(attempts),
{
}

/// A notification that is due.
#[derive(Debug, PartialEq, Eq)]
pub struct DueEvent {
    pub event_id: String,
    pub payload: Option<Json>,
    pub attempts: i64,
}

/// The model of [`DueEvent`].
#[verifier::ext_equal]
pub struct DueEventV {
    pub event_id: Seq<char>,
    pub payload: Option<JsonV>,
    pub attempts: i64,
}

impl View for DueEvent {
    type V = DueEventV;

    open spec fn view(&self) -> DueEventV {
        DueEventV {
            event_id: self.event_id@,
            payload: self.payload.deep_view(),
            attempts: self.attempts,
        }
    }
}

impl DeepView for DueEvent {
    type V = DueEventV;

    open spec fn deep_view(&self) -> DueEventV {
        self@
    }
}

/// What a delivery run did.
#[derive(Debug, Clone, Copy, PartialEq, Eq, Structural)]
pub struct OutboxDeliverySummary {
    pub attempted: usize,
    pub delivered: usize,
    pub failed: usize,
}

/// The model of [`OutboxDeliverySummary`].
#[verifier::ext_equal]
pub struct OutboxDeliverySummaryV {
    pub attempted: usize,
    pub delivered: usize,
    pub failed: usize,
}

impl View for OutboxDeliverySummary {
    type V = OutboxDeliverySummaryV;

    open spec fn view(&self) -> OutboxDeliverySummaryV {
        OutboxDeliverySummaryV {
            attempted: self.attempted,
            delivered: self.delivered,
            failed: self.failed,
        }
    }
}

impl DeepView for OutboxDeliverySummary {
    type V = OutboxDeliverySummaryV;

    open spec fn deep_view(&self) -> OutboxDeliverySummaryV {
        self@
    }
}

/// A notification that is due at `now`.
pub open spec fn is_due(row: OutboundRowV, now: i64) -> bool {
    row.status != "delivered"@ && row.next_attempt_at <= now
}

/// A row as a due notification.
pub open spec fn due_event(row: OutboundRowV) -> DueEventV {
    DueEventV { event_id: row.event_id, payload: row.payload, attempts: row.attempts }
}

/// The rows among the first `n` that are due, each under its id and with its age key.
pub open spec fn due_rows(rows: Seq<OutboundRowV>, now: i64, n: nat) -> Seq<
    (Seq<char>, (i128, DueEventV)),
>
    decreases n,
{
    if n == 0 || n > rows.len() {
        Seq::empty()
    } else {
        let before = due_rows(rows, now, (n - 1) as nat);
        let row = rows[n - 1];
        if is_due(row, now) {
            before.push((row.event_id, ((-(row.created_at as int)) as i128, due_event(row))))
        } else {
            before
        }
    }
}

/// Rows by their age key.
pub open spec fn by_age<T>(s: Seq<(Seq<char>, (i128, T))>) -> Seq<(i128, T)> {
    Seq::new(s.len(), |i: int| s[i].1)
}

/// The due notifications, oldest first and by id among those of one moment.
pub open spec fn due_events(st: BridgeStateV, now: i64) -> Seq<DueEventV> {
    let sorted = sorted_desc(by_age(sorted_text(due_rows(st.outbound, now, st.outbound.len()))));
    Seq::new(sorted.len(), |i: int| sorted[i].1)
}

/// The first `limit` items.
pub open spec fn at_most<T>(s: Seq<T>, limit: nat) -> Seq<T> {
    if s.len() <= limit {
        s
    } else {
        s.take(limit as int)
    }
}

/// The notifications that are due, oldest first, `limit` at most.
pub fn due_outbound_events(state: &BridgeState, now: u64, limit: usize) -> (r: Result<
    Vec<DueEvent>,
    BridgeError,
>)
    ensures
        outcome(r) == (if now <= i64::MAX {
            Ok(at_most(due_events(state@, now as i64), limit as nat))
        } else {
            Err(out_of_range())
        }),
{
    let at: i64 = match to_sql_i64(now) {
        Ok(v) => v,
        Err(e) => {
            return Err(e);
        },
    };
    let ghost rows = state.outbound.deep_view();
    let ghost view_of = |d: (i128, DueEvent)| (d.0, d.1@);
    let mut found: Vec<(String, (i128, DueEvent))> = Vec::new();
    let mut i: usize = 0;
    assert(with_text_images(text_keyed(found@), view_of) =~= due_rows(rows, at, 0));
    while i < state.outbound.len()
        invariant
            i <= state.outbound@.len(),
            rows == state.outbound.deep_view(),
            view_of == (|d: (i128, DueEvent)| (d.0, d.1@)),
            with_text_images(text_keyed(found@), view_of) == due_rows(rows, at, i as nat),
        decreases state.outbound@.len() - i,
    {
        let row = &state.outbound[i];
        assert(rows[i as int] == row@);
        if !same(row.status.as_str(), "delivered") && row.next_attempt_at <= at {
            let payload: Option<Json> = match &row.payload {
                Some(v) => Some(v.clone()),
                None => None,
            };
            let due = DueEvent { event_id: row.event_id.clone(), payload, attempts: row.attempts };
            let key: i128 = -(row.created_at as i128);
            let ghost before = with_text_images(text_keyed(found@), view_of);
            assert(due@ == due_event(row@));
            found.push((row.event_id.clone(), (key, due)));
            assert(with_text_images(text_keyed(found@), view_of) =~= before.push(
                (row@.event_id, (key, due_event(row@))),
            ));
        }
        i += 1;
    }
    let ghost pairs = text_keyed(found@);
    let named = sort_text(found);
    proof {
        text_sorting_commutes(pairs, view_of);
    }
    let ghost given = named@;
    let ghost listed = with_text_images(text_keyed(named@), view_of);
    let mut aged: Vec<(i128, DueEvent)> = Vec::new();
    for pair in it: named
        invariant
            it.seq() == given,
            aged@.len() == it.index(),
            forall|k: int| 0 <= k < it.index() ==> #[trigger] aged@[k] == given[k].1,
    {
        aged.push(pair.1);
    }
    let ghost models = |d: DueEvent| d@;
    assert(with_images(aged@, models) =~= by_age(listed));
    let ghost unsorted = aged@;
    let sorted = sort_desc(aged);
    proof {
        sorting_commutes(unsorted, models);
    }
    let ghost ranked = sorted@;
    let ghost wanted = due_events(state@, at);
    assert forall|k: int| 0 <= k < ranked.len() implies (#[trigger] ranked[k]).1@ == wanted[k] by {
        assert(with_images(ranked, models)[k].1 == ranked[k].1@);
    }
    assert(wanted.len() == ranked.len());
    let mut out: Vec<DueEvent> = Vec::new();
    for pair in it: sorted
        invariant
            it.seq() == ranked,
            out@.len() <= limit,
            out@.len() == (if it.index() <= limit {
                it.index()
            } else {
                limit as int
            }),
            forall|k: int| 0 <= k < out@.len() ==> #[trigger] out@[k] == ranked[k].1,
    {
        if out.len() < limit {
            out.push(pair.1);
        }
    }
    assert(out.deep_view() =~= at_most(wanted, limit as nat));
    Ok(out)
}

// ---------------------------------------------------------------------------
// Deliveries
// ---------------------------------------------------------------------------

/// What came of handing a notification to its transports.
#[derive(Debug, PartialEq, Eq)]
pub enum DeliveryReply {
    Delivered,
    Failed(String),
}

/// The row of a notification once it is delivered at `now`.
pub open spec fn delivered_row(row: OutboundRowV, now: i64) -> OutboundRowV {
    OutboundRowV {
        status: "delivered"@,
        attempts: if row.attempts < i64::MAX {
            (row.attempts + 1) as i64
        } else {
            row.attempts
        },
        delivered_at: Some(now),
        last_error: None,
        ..row
    }
}

/// The state with the row of an event replaced by its image.
pub open spec fn outbound_updated(
    st: BridgeStateV,
    event_id: Seq<char>,
    image: spec_fn(OutboundRowV) -> OutboundRowV,
) -> BridgeStateV {
    let hit = key_is(outbound_row_key(), event_id);
    match first_row(st.outbound, hit) {
        Some(row) => BridgeStateV { outbound: put_row(st.outbound, hit, image(row)), ..st },
        None => st,
    }
}

/// The sum of two numbers, or the greatest number where it does not fit.
pub open spec fn saturating(a: u64, b: u64) -> u64 {
    if a + b <= u64::MAX {
        (a + b) as u64
    } else {
        u64::MAX
    }
}

/// When a notification that failed for the `tries`-th time is tried again.
pub open spec fn next_try(tries: u64, now: u64) -> u64 {
    saturating(now, retry_delay(tries))
}

/// The state, or the failure, once the reply for a due notification is noted.
pub open spec fn settled(
    st: BridgeStateV,
    event_id: Seq<char>,
    attempts: i64,
    failed: Option<Seq<char>>,
    now: u64,
) -> Result<BridgeStateV, BridgeErrorV> {
    match failed {
        None => if now <= i64::MAX {
            Ok(
                outbound_updated(
                    st,
                    event_id,
                    |row: OutboundRowV| delivered_row(row, now as i64),
                ),
            )
        } else {
            Err(out_of_range())
        },
        Some(message) => if attempts < 0 {
            Err(negative_integer())
        } else {
            let tries = (attempts + 1) as u64;
            if tries > i64::MAX || next_try(tries, now) > i64::MAX {
                Err(out_of_range())
            } else {
                Ok(
                    outbound_updated(
                        st,
                        event_id,
                        |row: OutboundRowV|
                            OutboundRowV {
                                status: "failed"@,
                                attempts: tries as i64,
                                next_attempt_at: next_try(tries, now) as i64,
                                last_error: Some(message),
                                ..row
                            },
                    ),
                )
            }
        },
    }
}

/// The failure message of a reply.
pub open spec fn failure_of(reply: DeliveryReply) -> Option<Seq<char>> {
    match reply {
        DeliveryReply::Delivered => None,
        DeliveryReply::Failed(message) => Some(message@),
    }
}

/// Notes the reply for a due notification: delivered, or to be tried again later.
pub fn settle_outbound_event(
    state: &mut BridgeState,
    event_id: &str,
    attempts: i64,
    reply: &DeliveryReply,
    now: u64,
) -> (r: Result<(), BridgeError>)
    ensures
        match settled(old(state)@, event_id@, attempts, failure_of(*reply), now) {
            Ok(after) => r is Ok && final(state)@ == after,
            Err(e) => r is Err && r->Err_0@ == e && final(state)@ == old(state)@,
        },
{
    let ghost before = state.outbound.deep_view();
    let i: usize = find_outbound(&state.outbound, event_id);
    match reply {
        DeliveryReply::Delivered => {
            let at: i64 = match to_sql_i64(now) {
                Ok(v) => v,
                Err(e) => {
                    return Err(e);
                },
            };
            if i < state.outbound.len() {
                assert(before[i as int] == state.outbound@[i as int]@);
                let old_attempts: i64 = state.outbound[i].attempts;
                let tries: i64 = if old_attempts < i64::MAX {
                    old_attempts + 1
                } else {
                    old_attempts
                };
                state.outbound[i].status = "delivered".to_owned();
                state.outbound[i].attempts = tries;
                state.outbound[i].delivered_at = Some(at);
                state.outbound[i].last_error = None;
                assert(state.outbound@[i as int]@ == delivered_row(before[i as int], at));
                assert(state.outbound.deep_view() =~= before.update(
                    i as int,
                    delivered_row(before[i as int], at),
                ));
            }
            Ok(())
        },
        DeliveryReply::Failed(message) => {
            let known: u64 = match from_sql_i64(attempts) {
                Ok(v) => v,
                Err(e) => {
                    return Err(e);
                },
            };
            let tries: u64 = known.saturating_add(1);
            let next: u64 = now.saturating_add(retry_delay_ms(tries));
            let sql_tries: i64 = match to_sql_i64(tries) {
                Ok(v) => v,
                Err(e) => {
                    return Err(e);
                },
            };
            let sql_next: i64 = match to_sql_i64(next) {
                Ok(v) => v,
                Err(e) => {
                    return Err(e);
                },
            };
            if i < state.outbound.len() {
                assert(before[i as int] == state.outbound@[i as int]@);
                state.outbound[i].status = "failed".to_owned();
                state.outbound[i].attempts = sql_tries;
                state.outbound[i].next_attempt_at = sql_next;
                state.outbound[i].last_error = Some(message.clone());
                assert(state.outbound.deep_view() =~= before.update(
                    i as int,
                    OutboundRowV {
                        status: "failed"@,
                        attempts: sql_tries,
                        next_attempt_at: sql_next,
                        last_error: Some(message@),
                        ..before[i as int]
                    },
                ));
            }
            Ok(())
        },
    }
}

/// The failure of a notification whose stored text is no JSON.
pub open spec fn invalid_payload(event_id: Seq<char>) -> BridgeErrorV {
    failure("outbound event "@ + event_id + " contains invalid JSON"@)
}

/// The first `n` due notifications with their replies: the state after them, the
/// summary, and the failure that ended the run, if any.
pub open spec fn run_upto(
    st: BridgeStateV,
    due: Seq<DueEventV>,
    replies: Seq<DeliveryReply>,
    now: u64,
    n: nat,
) -> (BridgeStateV, OutboxDeliverySummaryV, Option<BridgeErrorV>)
    decreases n,
{
    if n == 0 || n > due.len() || n > replies.len() {
        (st, OutboxDeliverySummaryV { attempted: 0, delivered: 0, failed: 0 }, None)
    } else {
        let (before, done, error) = run_upto(st, due, replies, now, (n - 1) as nat);
        let item = due[n - 1];
        let reply = failure_of(replies[n - 1]);
        if error is Some {
            (before, done, error)
        } else if item.payload is None {
            (before, done, Some(invalid_payload(item.event_id)))
        } else {
            match settled(before, item.event_id, item.attempts, reply, now) {
                Err(e) => (before, done, Some(e)),
                Ok(after) => (
                    after,
                    OutboxDeliverySummaryV {
                        attempted: (done.attempted + 1) as usize,
                        delivered: if reply is None {
                            (done.delivered + 1) as usize
                        } else {
                            done.delivered
                        },
                        failed: if reply is Some {
                            (done.failed + 1) as usize
                        } else {
                            done.failed
                        },
                    },
                    None,
                ),
            }
        }
    }
}

/// How many of the first `n` tries begin before the deadline: the first that does not ends the
/// run. `clocks` tells when each of them begins.
pub open spec fn tries_in_time(clocks: Seq<u64>, deadline: Option<u64>, n: nat) -> nat
    decreases n,
{
    match deadline {
        None => n,
        Some(end) => if n == 0 || n > clocks.len() {
            0
        } else {
            let before = tries_in_time(clocks, deadline, (n - 1) as nat);
            if before == n - 1 && clocks[n - 1] < end {
                n
            } else {
                before
            }
        },
    }
}

/// Runs over the due notifications, oldest first and `limit` at most, with the reply for each
/// that was tried. No try begins at the deadline or later: `clocks` tells when each of them
/// would begin, and the run ends with the first that would be late.
pub fn deliver_due_outbound_events(
    state: &mut BridgeState,
    now: u64,
    limit: usize,
    deadline: Option<u64>,
    clocks: &Vec<u64>,
    replies: &Vec<DeliveryReply>,
) -> (r: Result<OutboxDeliverySummary, BridgeError>)
    requires
        deadline is Some ==> clocks@.len() == replies@.len(),
    ensures
        ({
            let due = at_most(due_events(old(state)@, now as i64), limit as nat);
            let tried = tries_in_time(clocks@, deadline, replies@.len());
            let n = if due.len() <= tried {
                due.len()
            } else {
                tried
            };
            let (after, summary, error) = run_upto(old(state)@, due, replies@, now, n);
            if now > i64::MAX {
                r is Err && r->Err_0@ == out_of_range() && final(state)@ == old(state)@
            } else {
                &&& final(state)@ == after
                &&& match error {
                    Some(e) => r is Err && r->Err_0@ == e,
                    None => r is Ok && r->Ok_0@ == summary,
                }
            }
        }),
{
    let tried: usize = match deadline {
        None => replies.len(),
        Some(end) => count_in_time(clocks, end, replies.len()),
    };
    settle_tried(state, now, limit, replies, tried)
}

/// How many of the first `n` tries begin before the deadline.
fn count_in_time(clocks: &Vec<u64>, end: u64, n: usize) -> (r: usize)
    requires
        n == clocks@.len(),
    ensures
        r == tries_in_time(clocks@, Some(end), n as nat),
        r <= n,
{
    let mut i: usize = 0;
    while i < n && clocks[i] < end
        invariant
            i <= n == clocks@.len(),
            i == tries_in_time(clocks@, Some(end), i as nat),
        decreases n - i,
    {
        i += 1;
    }
    proof {
        if i < n {
            lemma_late_tries(clocks@, end, i as nat, n as nat);
        }
    }
    i
}

/// Behind a try that would be late none is made.
proof fn lemma_late_tries(clocks: Seq<u64>, end: u64, k: nat, n: nat)
    requires
        k < n <= clocks.len(),
        tries_in_time(clocks, Some(end), k) == k,
        clocks[k as int] >= end,
    ensures
        tries_in_time(clocks, Some(end), n) == k,
    decreases n,
{
    if n > k + 1 {
        lemma_late_tries(clocks, end, k, (n - 1) as nat);
    }
}

/// Where the deadline is there before the first try, nothing is tried and nothing changes.
pub proof fn late_runs_deliver_nothing(
    st: BridgeStateV,
    due: Seq<DueEventV>,
    replies: Seq<DeliveryReply>,
    clocks: Seq<u64>,
    end: u64,
    now: u64,
)
    requires
        clocks.len() == replies.len(),
        clocks.len() > 0 ==> clocks[0] >= end,
    ensures
        tries_in_time(clocks, Some(end), replies.len()) == 0,
        run_upto(st, due, replies, now, 0).0 == st,
        run_upto(st, due, replies, now, 0).1.attempted == 0,
{
    if clocks.len() > 0 {
        lemma_late_tries(clocks, end, 0, clocks.len());
    }
}

/// Settles the due notifications of which the first `tried` were tried.
fn settle_tried(
    state: &mut BridgeState,
    now: u64,
    limit: usize,
    replies: &Vec<DeliveryReply>,
    tried: usize,
) -> (r: Result<OutboxDeliverySummary, BridgeError>)
    requires
        tried <= replies@.len(),
    ensures
        ({
            let due = at_most(due_events(old(state)@, now as i64), limit as nat);
            let n = if due.len() <= tried {
                due.len()
            } else {
                tried as nat
            };
            let (after, summary, error) = run_upto(old(state)@, due, replies@, now, n);
            if now > i64::MAX {
                r is Err && r->Err_0@ == out_of_range() && final(state)@ == old(state)@
            } else {
                &&& final(state)@ == after
                &&& match error {
                    Some(e) => r is Err && r->Err_0@ == e,
                    None => r is Ok && r->Ok_0@ == summary,
                }
            }
        }),
{
    let due = match due_outbound_events(state, now, limit) {
        Ok(v) => v,
        Err(e) => {
            return Err(e);
        },
    };
    let ghost st = state@;
    let ghost items = due.deep_view();
    let n: usize = if due.len() <= tried {
        due.len()
    } else {
        tried
    };
    let mut summary = OutboxDeliverySummary { attempted: 0, delivered: 0, failed: 0 };
    let mut i: usize = 0;
    while i < n
        invariant
            i <= n <= due@.len(),
            n <= tried <= replies@.len(),
            n == due@.len() || n == tried,
            now <= i64::MAX,
            st == old(state)@,
            items == due.deep_view(),
            items == at_most(due_events(st, now as i64), limit as nat),
            (state@, summary@, None::<BridgeErrorV>) == run_upto(st, items, replies@, now, i as nat),
            summary.attempted == i,
            summary.delivered <= i,
            summary.failed <= i,
        decreases n - i,
    {
        let item = &due[i];
        assert(items[i as int] == item@);
        let ghost before = run_upto(st, items, replies@, now, i as nat);
        let ghost step = run_upto(st, items, replies@, now, (i + 1) as nat);
        match &item.payload {
            Some(_) => {},
            None => {
                assert(step == (before.0, before.1, Some(invalid_payload(item@.event_id))));
                proof {
                    lemma_run_error(st, items, replies@, now, (i + 1) as nat, n as nat);
                }
                return Err(
                    BridgeError::new(
                        cat3(
                            "outbound event ",
                            item.event_id.as_str(),
                            " contains invalid JSON",
                        ).as_str(),
                    ),
                );
            },
        }
        match settle_outbound_event(
            state,
            item.event_id.as_str(),
            item.attempts,
            &replies[i],
            now,
        ) {
            Ok(_) => {},
            Err(e) => {
                proof {
                    lemma_run_error(st, items, replies@, now, (i + 1) as nat, n as nat);
                }
                return Err(e);
            },
        }
        summary.attempted = summary.attempted + 1;
        match &replies[i] {
            DeliveryReply::Delivered => {
                summary.delivered = summary.delivered + 1;
            },
            DeliveryReply::Failed(_) => {
                summary.failed = summary.failed + 1;
            },
        }
        i += 1;
    }
    Ok(summary)
}

/// A run that failed stays as it is.
proof fn lemma_run_error(
    st: BridgeStateV,
    due: Seq<DueEventV>,
    replies: Seq<DeliveryReply>,
    now: u64,
    k: nat,
    n: nat,
)
    requires
        k <= n <= due.len(),
        n <= replies.len(),
        run_upto(st, due, replies, now, k).2 is Some,
    ensures
        run_upto(st, due, replies, now, n) == run_upto(st, due, replies, now, k),
    decreases n,
{
    if k < n {
        lemma_run_error(st, due, replies, now, k, (n - 1) as nat);
    }
}

/// A notification that was delivered is never due again.
pub proof fn delivered_is_final(row: OutboundRowV, at: i64, later: i64)
    ensures
        !is_due(delivered_row(row, at), later),
{
}

/// A delivery that failed is tried again, after the wait that its tries call for and not
/// before, and other notifications stay as they were.
pub proof fn failed_notifications_are_tried_again(
    st: BridgeStateV,
    event_id: Seq<char>,
    attempts: i64,
    message: Seq<char>,
    now: u64,
    other: Seq<char>,
    later: i64,
)
    requires
        st.well_formed(),
        in_outbox(st, event_id),
        other != event_id,
        settled(st, event_id, attempts, Some(message), now) is Ok,
    ensures
        ({
            let after = settled(st, event_id, attempts, Some(message), now)->Ok_0;
            let row = first_row(after.outbound, key_is(outbound_row_key(), event_id));
            &&& row is Some
            &&& row->0.attempts == attempts + 1
            &&& row->0.last_error == Some(message)
            &&& is_due(row->0, later) <==> later >= now + retry_delay((attempts + 1) as u64)
            &&& first_row(after.outbound, key_is(outbound_row_key(), other)) == first_row(
                st.outbound,
                key_is(outbound_row_key(), other),
            )
        }),
{
    let hit = key_is(outbound_row_key(), event_id);
    lemma_position(st.outbound, hit, 0);
    let tries = (attempts + 1) as u64;
    let row = OutboundRowV {
        status: "failed"@,
        attempts: tries as i64,
        next_attempt_at: next_try(tries, now) as i64,
        last_error: Some(message),
        ..first_row(st.outbound, hit)->0
    };
    put_keeps_keys(st.outbound, outbound_row_key(), row);
    put_leaves_others(st.outbound, outbound_row_key(), row, other);
    assert("failed"@ != "delivered"@) by {
        reveal_strlit("failed");
        reveal_strlit("delivered");
        assert("failed"@.len() == 6);
    }
}

} // verus!
