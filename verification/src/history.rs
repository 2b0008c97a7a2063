//! The log of actions, and how long logs are kept.
use vstd::prelude::*;
use vstd::string::*;

use crate::error::{BridgeError, BridgeErrorV, outcome};
use crate::json::{Json, JsonV, Object, or_null};
use crate::state::{
    ActionRow, ActionRowV, BridgeState, BridgeStateV, from_sql_i64, InboundRow, InboundRowV,
    negative_integer, out_of_range, to_sql_i64,
};
use crate::table::{lemma_filter_parts, lemma_without_step, without};
use crate::text::same;

verus! {

/// An action as the history shows it.
#[derive(Debug, PartialEq, Eq)]
pub struct HistoryAction {
    pub action_type: String,
    pub payload: Json,
    pub created_at: u64,
}

/// The model of [`HistoryAction`].
#[verifier::ext_equal]
pub struct HistoryActionV {
    pub action_type: Seq<char>,
    pub payload: JsonV,
    pub created_at: u64,
}

impl View for HistoryAction {
    type V = HistoryActionV;

    open spec fn view(&self) -> HistoryActionV {
        HistoryActionV {
            action_type: self.action_type@,
            payload: self.payload@,
            created_at: self.created_at,
        }
    }
}

impl DeepView for HistoryAction {
    type V = HistoryActionV;

    open spec fn deep_view(&self) -> HistoryActionV {
        self@
    }
}

// ---------------------------------------------------------------------------
// Actions
// ---------------------------------------------------------------------------

/// The state with one more action in its log.
pub open spec fn with_action(
    st: BridgeStateV,
    thread_id: Seq<char>,
    action_type: Seq<char>,
    payload: JsonV,
    now: i64,
) -> BridgeStateV {
    BridgeStateV {
        actions: st.actions.push(
            ActionRowV { thread_id, action_type, payload: Some(payload), created_at: now },
        ),
        ..st
    }
}

/// Logs an action.
pub fn record_action(
    state: &mut BridgeState,
    thread_id: &str,
    action_type: &str,
    payload: Json,
    now: u64,
) -> (r: Result<(), BridgeError>)
    ensures
        match r {
            Ok(_) => now <= i64::MAX && final(state)@ == with_action(
                old(state)@,
                thread_id@,
                action_type@,
                payload@,
                now as i64,
            ),
            Err(e) => now > i64::MAX && e@ == out_of_range() && final(state)@ == old(state)@,
        },
{
    let created_at: i64 = match to_sql_i64(now) {
        Ok(v) => v,
        Err(e) => {
            return Err(e);
        },
    };
    let row = ActionRow {
        thread_id: thread_id.to_owned(),
        action_type: action_type.to_owned(),
        payload: Some(payload),
        created_at,
    };
    let ghost before = state.actions.deep_view();
    state.actions.push(row);
    assert(state.actions.deep_view() =~= before.push(row@));
    Ok(())
}

/// The newest rows of a thread among the first `n`, newest first, `limit` at most.
pub open spec fn newest_actions(
    rows: Seq<ActionRowV>,
    thread_id: Seq<char>,
    n: nat,
    limit: nat,
) -> Seq<ActionRowV>
    decreases n,
{
    if n == 0 || n > rows.len() || limit == 0 {
        Seq::empty()
    } else if rows[n - 1].thread_id == thread_id {
        seq![rows[n - 1]] + newest_actions(rows, thread_id, (n - 1) as nat, (limit - 1) as nat)
    } else {
        newest_actions(rows, thread_id, (n - 1) as nat, limit)
    }
}

/// An action as the history shows it.
pub open spec fn history_action(row: ActionRowV) -> HistoryActionV {
    HistoryActionV {
        action_type: row.action_type,
        payload: or_null(row.payload),
        created_at: row.created_at as u64,
    }
}

/// No row has a negative time stamp.
pub open spec fn stamps_ok(rows: Seq<ActionRowV>) -> bool {
    forall|i: int| 0 <= i < rows.len() ==> (#[trigger] rows[i]).created_at >= 0
}

/// The history of a thread, newest action first.
pub open spec fn history(st: BridgeStateV, thread_id: Seq<char>, limit: u64) -> Result<
    Seq<HistoryActionV>,
    BridgeErrorV,
> {
    if limit > i64::MAX {
        Err(out_of_range())
    } else {
        let rows = newest_actions(st.actions, thread_id, st.actions.len(), limit as nat);
        if stamps_ok(rows) {
            Ok(rows.map_values(|row: ActionRowV| history_action(row)))
        } else {
            Err(negative_integer())
        }
    }
}

/// The history of a thread, newest action first, `limit` actions at most.
pub fn get_thread_history(state: &BridgeState, thread_id: &str, limit: u64) -> (r: Result<
    Vec<HistoryAction>,
    BridgeError,
>)
    ensures
        outcome(r) == history(state@, thread_id@, limit),
{
    match to_sql_i64(limit) {
        Ok(_) => {},
        Err(e) => {
            return Err(e);
        },
    }
    let ghost rows = state.actions.deep_view();
    let ghost wanted = newest_actions(rows, thread_id@, rows.len(), limit as nat);
    let ghost mut taken: Seq<ActionRowV> = Seq::empty();
    let mut out: Vec<HistoryAction> = Vec::new();
    let mut left: u64 = limit;
    let mut n: usize = state.actions.len();
    assert(taken + wanted =~= wanted);
    assert(out.deep_view() =~= taken.map_values(|row: ActionRowV| history_action(row)));
    while n > 0 && left > 0
        invariant
            n <= state.actions@.len(),
            rows == state.actions.deep_view(),
            wanted == taken + newest_actions(rows, thread_id@, n as nat, left as nat),
            stamps_ok(taken),
            limit <= i64::MAX,
            wanted == newest_actions(rows, thread_id@, rows.len(), limit as nat),
            out.deep_view() == taken.map_values(|row: ActionRowV| history_action(row)),
        decreases n,
    {
        n -= 1;
        assert(rows[n as int] == state.actions@[n as int]@);
        let row = &state.actions[n];
        if same(row.thread_id.as_str(), thread_id) {
            let ghost rest = newest_actions(rows, thread_id@, n as nat, (left - 1) as nat);
            let ghost more = taken.push(row@);
            assert(taken + (seq![row@] + rest) =~= more + rest);
            let created_at: u64 = match from_sql_i64(row.created_at) {
                Ok(v) => v,
                Err(e) => {
                    assert(wanted[taken.len() as int] == row@);
                    return Err(e);
                },
            };
            let payload: Json = match &row.payload {
                Some(p) => p.clone(),
                None => Json::Null,
            };
            let entry = HistoryAction { action_type: row.action_type.clone(), payload, created_at };
            let ghost before = out.deep_view();
            out.push(entry);
            assert(out.deep_view() =~= before.push(entry@));
            assert(entry@ == history_action(row@));
            proof {
                assert(more.map_values(|row: ActionRowV| history_action(row)) =~= taken.map_values(
                    |row: ActionRowV| history_action(row),
                ).push(history_action(row@)));
                taken = more;
            }
            left -= 1;
        }
    }
    assert(newest_actions(rows, thread_id@, n as nat, left as nat) =~= Seq::<ActionRowV>::empty());
    assert(taken + Seq::<ActionRowV>::empty() =~= taken);
    Ok(out)
}

/// Later rows do not change what the earlier ones hold.
proof fn lemma_newest_of_front(
    rows: Seq<ActionRowV>,
    row: ActionRowV,
    thread_id: Seq<char>,
    n: nat,
    limit: nat,
)
    requires
        n <= rows.len(),
    ensures
        newest_actions(rows.push(row), thread_id, n, limit) == newest_actions(
            rows,
            thread_id,
            n,
            limit,
        ),
    decreases n,
{
    if n > 0 && limit > 0 {
        assert(rows.push(row)[n - 1] == rows[n - 1]);
        if rows[n - 1].thread_id == thread_id {
            lemma_newest_of_front(rows, row, thread_id, (n - 1) as nat, (limit - 1) as nat);
        } else {
            lemma_newest_of_front(rows, row, thread_id, (n - 1) as nat, limit);
        }
    }
}

/// A shorter list is the front of a longer one.
proof fn lemma_newest_is_front(
    rows: Seq<ActionRowV>,
    thread_id: Seq<char>,
    n: nat,
    limit: nat,
)
    requires
        n <= rows.len(),
        limit > 0,
    ensures
        newest_actions(rows, thread_id, n, (limit - 1) as nat).is_prefix_of(
            newest_actions(rows, thread_id, n, limit),
        ),
    decreases n,
{
    if n > 0 {
        if rows[n - 1].thread_id == thread_id {
            if limit > 1 {
                lemma_newest_is_front(rows, thread_id, (n - 1) as nat, (limit - 1) as nat);
                let short = newest_actions(rows, thread_id, (n - 1) as nat, (limit - 2) as nat);
                let long = newest_actions(rows, thread_id, (n - 1) as nat, (limit - 1) as nat);
                assert(short.is_prefix_of(long));
                assert((seq![rows[n - 1]] + short) =~= (seq![rows[n - 1]] + long).take(
                    short.len() as int + 1,
                ));
            } else {
                assert(newest_actions(rows, thread_id, n, 0) =~= Seq::<ActionRowV>::empty());
            }
        } else {
            lemma_newest_is_front(rows, thread_id, (n - 1) as nat, limit);
        }
    }
}

/// An action that was logged is the newest one in the history of its thread, and the
/// histories of other threads stay as they were.
pub proof fn actions_are_read_back(
    st: BridgeStateV,
    thread_id: Seq<char>,
    action_type: Seq<char>,
    payload: JsonV,
    now: i64,
    limit: u64,
    other: Seq<char>,
)
    requires
        now >= 0,
        limit > 0,
        history(st, thread_id, limit) is Ok,
        other != thread_id,
    ensures
        ({
            let after = with_action(st, thread_id, action_type, payload, now);
            let read = history(after, thread_id, limit);
            &&& read is Ok
            &&& read->Ok_0.len() > 0
            &&& read->Ok_0[0] == HistoryActionV { action_type, payload, created_at: now as u64 }
            &&& history(after, other, limit) == history(st, other, limit)
        }),
{
    let row = ActionRowV { thread_id, action_type, payload: Some(payload), created_at: now };
    let n = st.actions.len();
    let after = st.actions.push(row);
    lemma_newest_of_front(st.actions, row, thread_id, n, (limit - 1) as nat);
    lemma_newest_of_front(st.actions, row, other, n, limit as nat);
    lemma_newest_is_front(st.actions, thread_id, n, limit as nat);
    let rest = newest_actions(st.actions, thread_id, n, (limit - 1) as nat);
    let known = newest_actions(st.actions, thread_id, n, limit as nat);
    let read = newest_actions(after, thread_id, n + 1, limit as nat);
    assert(after[n as int] == row);
    assert(read == seq![row] + rest);
    assert forall|i: int| 0 <= i < read.len() implies (#[trigger] read[i]).created_at >= 0 by {
        if i > 0 {
            assert(rest[i - 1] == known[i - 1]);
        }
    }
    assert(read[0] == row);
}

/// An action as a JSON object.
pub open spec fn action_json(a: HistoryActionV) -> JsonV {
    JsonV::Object(
        Seq::empty()
            .push(("actionType"@, JsonV::Str(a.action_type)))
            .push(("createdAt"@, JsonV::UInt(a.created_at)))
            .push(("payload"@, a.payload)),
    )
}

/// The recent actions of a thread as JSON objects, newest first.
pub open spec fn recent_actions(st: BridgeStateV, thread_id: Seq<char>, limit: u64) -> Result<
    Seq<JsonV>,
    BridgeErrorV,
> {
    match history(st, thread_id, limit) {
        Ok(items) => Ok(items.map_values(|a: HistoryActionV| action_json(a))),
        Err(e) => Err(e),
    }
}

/// The recent actions of a thread as JSON objects, newest first.
pub fn recent_actions_json(state: &BridgeState, thread_id: &str, limit: u64) -> (r: Result<
    Vec<Json>,
    BridgeError,
>)
    ensures
        outcome(r) == recent_actions(state@, thread_id@, limit),
{
    let items = match get_thread_history(state, thread_id, limit) {
        Ok(v) => v,
        Err(e) => {
            return Err(e);
        },
    };
    let ghost given = items@;
    let ghost models = items.deep_view();
    let mut out: Vec<Json> = Vec::new();
    assert(out.deep_view() =~= models.take(0).map_values(|a: HistoryActionV| action_json(a)));
    for item in it: items
        invariant
            it.seq() == given,
            models == Seq::new(given.len(), |i: int| given[i]@),
            out.deep_view() == models.take(it.index()).map_values(
                |a: HistoryActionV| action_json(a),
            ),
    {
        let ghost before = out.deep_view();
        let ghost model = item@;
        assert(models[it.index()] == model);
        let entry = Object::new().with("actionType", Json::Str(item.action_type)).with(
            "createdAt",
            Json::UInt(item.created_at),
        ).with("payload", item.payload).done();
        assert(entry@ == action_json(model));
        out.push(entry);
        assert(out.deep_view() =~= before.push(action_json(model)));
        assert(models.take(it.index() + 1).map_values(|a: HistoryActionV| action_json(a))
            =~= models.take(it.index()).map_values(|a: HistoryActionV| action_json(a)).push(
            action_json(model),
        ));
    }
    assert(models.take(models.len() as int) =~= models);
    Ok(out)
}

// ---------------------------------------------------------------------------
// Old log entries
// ---------------------------------------------------------------------------

/// How long log entries are kept, in milliseconds: thirty days.
pub const LOG_RETENTION_MS: u64 = 2_592_000_000;

/// A handled update from before `cutoff`.
pub open spec fn old_inbound_hit(cutoff: i64) -> spec_fn(InboundRowV) -> bool {
    |r: InboundRowV| r.processed_at < cutoff
}

/// An action from before `cutoff`.
pub open spec fn old_action_hit(cutoff: i64) -> spec_fn(ActionRowV) -> bool {
    |r: ActionRowV| r.created_at < cutoff
}

/// Removes the handled updates from before `cutoff`, and tells how many they were.
pub fn drop_old_inbound(state: &mut BridgeState, cutoff: i64) -> (r: usize)
    ensures
        final(state)@ == (BridgeStateV {
            inbound: without(old(state)@.inbound, old_inbound_hit(cutoff)),
            ..old(state)@
        }),
        r == old(state)@.inbound.len() - final(state)@.inbound.len(),
{
    let ghost hit = old_inbound_hit(cutoff);
    let mut rows: Vec<InboundRow> = Vec::new();
    core::mem::swap(&mut rows, &mut state.inbound);
    let ghost all = rows.deep_view();
    let ghost given = rows@;
    let total: usize = rows.len();
    let mut kept: Vec<InboundRow> = Vec::new();
    assert(kept.deep_view() =~= without(all.take(0), hit)) by {
        reveal(Seq::filter);
    }
    for row in it: rows
        invariant
            it.seq() == given,
            all == Seq::new(given.len(), |i: int| given[i]@),
            hit == old_inbound_hit(cutoff),
            kept.deep_view() == without(all.take(it.index()), hit),
            kept@.len() <= it.index(),
    {
        proof {
            lemma_without_step(all, hit, it.index());
            assert(all[it.index()] == row@);
        }
        let ghost before = kept.deep_view();
        if row.processed_at >= cutoff {
            kept.push(row);
            assert(kept.deep_view() =~= before.push(row@));
        }
    }
    assert(all.take(all.len() as int) =~= all);
    let left: usize = kept.len();
    state.inbound = kept;
    total - left
}

/// Removes the actions from before `cutoff`, and tells how many they were.
pub fn drop_old_actions(state: &mut BridgeState, cutoff: i64) -> (r: usize)
    ensures
        final(state)@ == (BridgeStateV {
            actions: without(old(state)@.actions, old_action_hit(cutoff)),
            ..old(state)@
        }),
        r == old(state)@.actions.len() - final(state)@.actions.len(),
{
    let ghost hit = old_action_hit(cutoff);
    let mut rows: Vec<ActionRow> = Vec::new();
    core::mem::swap(&mut rows, &mut state.actions);
    let ghost all = rows.deep_view();
    let ghost given = rows@;
    let total: usize = rows.len();
    let mut kept: Vec<ActionRow> = Vec::new();
    assert(kept.deep_view() =~= without(all.take(0), hit)) by {
        reveal(Seq::filter);
    }
    for row in it: rows
        invariant
            it.seq() == given,
            all == Seq::new(given.len(), |i: int| given[i]@),
            hit == old_action_hit(cutoff),
            kept.deep_view() == without(all.take(it.index()), hit),
            kept@.len() <= it.index(),
    {
        proof {
            lemma_without_step(all, hit, it.index());
            assert(all[it.index()] == row@);
        }
        let ghost before = kept.deep_view();
        if row.created_at >= cutoff {
            kept.push(row);
            assert(kept.deep_view() =~= before.push(row@));
        }
    }
    assert(all.take(all.len() as int) =~= all);
    let left: usize = kept.len();
    state.actions = kept;
    total - left
}

/// The moment before which log entries are dropped.
pub open spec fn log_cutoff(now: u64) -> u64 {
    if now >= LOG_RETENTION_MS {
        (now - LOG_RETENTION_MS) as u64
    } else {
        0
    }
}

/// The state without the log entries from before `cutoff`.
pub open spec fn pruned(st: BridgeStateV, cutoff: i64) -> BridgeStateV {
    BridgeStateV {
        inbound: without(st.inbound, old_inbound_hit(cutoff)),
        actions: without(st.actions, old_action_hit(cutoff)),
        ..st
    }
}

/// Drops the log entries that are older than the retention, and tells how many they were.
pub fn prune_state_logs(state: &mut BridgeState, now: u64) -> (r: Result<usize, BridgeError>)
    requires
        old(state)@.inbound.len() + old(state)@.actions.len() <= usize::MAX,
    ensures
        match r {
            Ok(removed) => {
                &&& log_cutoff(now) <= i64::MAX
                &&& final(state)@ == pruned(old(state)@, log_cutoff(now) as i64)
                &&& removed == old(state)@.inbound.filter(
                    old_inbound_hit(log_cutoff(now) as i64),
                ).len() + old(state)@.actions.filter(old_action_hit(log_cutoff(now) as i64)).len()
            },
            Err(e) => log_cutoff(now) > i64::MAX && e@ == out_of_range() && final(state)@ == old(
                state,
            )@,
        },
{
    let cutoff: i64 = match to_sql_i64(now.saturating_sub(LOG_RETENTION_MS)) {
        Ok(v) => v,
        Err(e) => {
            return Err(e);
        },
    };
    proof {
        lemma_filter_parts(state@.inbound, old_inbound_hit(cutoff));
        lemma_filter_parts(state@.actions, old_action_hit(cutoff));
    }
    let inbound: usize = drop_old_inbound(state, cutoff);
    let actions: usize = drop_old_actions(state, cutoff);
    Ok(inbound + actions)
}

} // verus!
