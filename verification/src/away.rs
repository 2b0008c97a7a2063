//! Away mode: while it is on, the bridge may notify; while it is off, nothing waits to go out.
use vstd::prelude::*;
use vstd::string::*;

use crate::json::{Json, JsonV, member, Object, or_null, text_or_null, uint_or_null};
use crate::settings::{
    delete_setting, get_setting_number, get_setting_text, set_setting, set_setting_text, setting,
    setting_after_delete, setting_after_set, setting_number, with_setting, without_setting,
};
use crate::state::{BridgeState, BridgeStateV, outbound_row_key, OutboundRow, OutboundRowV};
use crate::sync::is_away;
use crate::table::{
    drop_keeps_keys, lemma_filter_parts, lemma_filter_step, lemma_without_step, without,
};
use crate::text::{decimal, decimal_parses_back, same, u64_text};

verus! {

/// A notification that was not delivered.
pub open spec fn pending_hit() -> spec_fn(OutboundRowV) -> bool {
    |r: OutboundRowV| r.status != "delivered"@
}

/// The state without the notifications that were not delivered.
pub open spec fn without_pending(st: BridgeStateV) -> BridgeStateV {
    BridgeStateV { outbound: without(st.outbound, pending_hit()), ..st }
}

/// How many notifications were not delivered.
pub open spec fn pending_count(st: BridgeStateV) -> nat {
    st.outbound.filter(pending_hit()).len()
}

/// Removes the notifications that were not delivered, and tells how many they were.
pub fn drop_pending_outbound(state: &mut BridgeState) -> (r: usize)
    ensures
        final(state)@ == (BridgeStateV {
            outbound: without(old(state)@.outbound, pending_hit()),
            ..old(state)@
        }),
        r == old(state)@.outbound.len() - final(state)@.outbound.len(),
{
    let ghost hit = pending_hit();
    let mut rows: Vec<OutboundRow> = Vec::new();
    core::mem::swap(&mut rows, &mut state.outbound);
    let ghost all = rows.deep_view();
    let ghost given = rows@;
    let total: usize = rows.len();
    let mut kept: Vec<OutboundRow> = Vec::new();
    assert(kept.deep_view() =~= without(all.take(0), hit)) by {
        reveal(Seq::filter);
    }
    for row in it: rows
        invariant
            it.seq() == given,
            all == Seq::new(given.len(), |i: int| given[i]@),
            hit == pending_hit(),
            kept.deep_view() == without(all.take(it.index()), hit),
            kept@.len() <= it.index(),
    {
        proof {
            lemma_without_step(all, hit, it.index());
            assert(all[it.index()] == row@);
        }
        let ghost before = kept.deep_view();
        if same(row.status.as_str(), "delivered") {
            kept.push(row);
            assert(kept.deep_view() =~= before.push(row@));
        }
    }
    assert(all.take(all.len() as int) =~= all);
    let left: usize = kept.len();
    state.outbound = kept;
    total - left
}

/// Removes the notifications that were not delivered, and tells how many they were.
pub fn clear_pending_outbound_events(state: &mut BridgeState) -> (r: usize)
    ensures
        final(state)@ == without_pending(old(state)@),
        r == pending_count(old(state)@),
{
    proof {
        lemma_filter_parts(state@.outbound, pending_hit());
    }
    drop_pending_outbound(state)
}

/// How many notifications were not delivered.
pub fn pending_outbound_count(state: &BridgeState) -> (r: u64)
    ensures
        r == pending_count(state@),
{
    let ghost rows = state.outbound.deep_view();
    let mut count: u64 = 0;
    let mut i: usize = 0;
    assert(rows.take(0).filter(pending_hit()).len() == 0) by {
        reveal(Seq::filter);
    }
    while i < state.outbound.len()
        invariant
            i <= state.outbound@.len(),
            rows == state.outbound.deep_view(),
            count == rows.take(i as int).filter(pending_hit()).len(),
            count <= i,
        decreases state.outbound@.len() - i,
    {
        proof {
            lemma_filter_step(rows, pending_hit(), i as int);
            assert(rows[i as int] == state.outbound@[i as int]@);
        }
        if !same(state.outbound[i].status.as_str(), "delivered") {
            count += 1;
        }
        i += 1;
    }
    assert(rows.take(rows.len() as int) =~= rows);
    count
}

/// Away mode as it is reported.
pub open spec fn away_report(away: bool, started: Option<u64>, session: Option<Seq<char>>) -> JsonV {
    JsonV::Object(
        Seq::empty()
            .push(("ok"@, JsonV::Bool(true)))
            .push(("away"@, JsonV::Bool(away)))
            .push(("awayStartedAt"@, uint_or_null(started)))
            .push(("awaySessionId"@, text_or_null(session))),
    )
}

/// The report of leaving away mode.
pub open spec fn present_report(cleared: u64) -> JsonV {
    JsonV::Object(
        Seq::empty()
            .push(("ok"@, JsonV::Bool(true)))
            .push(("away"@, JsonV::Bool(false)))
            .push(("awayStartedAt"@, JsonV::Null))
            .push(("awaySessionId"@, JsonV::Null))
            .push(("clearedPendingNotifications"@, JsonV::UInt(cleared))),
    )
}

/// The state once away mode is on from `now`.
pub open spec fn away_state(st: BridgeStateV, now: u64) -> BridgeStateV {
    let on = without_setting(with_setting(st, "away"@, "true"@), "away_mode"@);
    let started = with_setting(on, "away_started_at"@, decimal(now as nat));
    with_setting(started, "away_session_id"@, decimal(now as nat))
}

/// The state once away mode is off.
pub open spec fn present_state(st: BridgeStateV) -> BridgeStateV {
    let off = without_setting(with_setting(st, "away"@, "false"@), "away_mode"@);
    without_setting(
        without_setting(without_pending(off), "away_started_at"@),
        "away_session_id"@,
    )
}

/// Switches away mode. Going away starts a new session at `now`; coming back
/// drops the notifications that were not delivered.
pub fn set_away_mode(state: &mut BridgeState, away: bool, now: u64) -> (r: Json)
    ensures
        away ==> final(state)@ == away_state(old(state)@, now) && r@ == away_report(
            true,
            Some(now),
            Some(decimal(now as nat)),
        ),
        !away ==> final(state)@ == present_state(old(state)@) && r@ == present_report(
            pending_count(old(state)@) as u64,
        ),
{
    set_setting_text(
        state,
        "away",
        if away {
            "true"
        } else {
            "false"
        },
    );
    delete_setting(state, "away_mode");
    if away {
        set_setting(state, "away_started_at", now);
        let session = u64_text(now);
        set_setting_text(state, "away_session_id", session.as_str());
        Object::new().with("ok", Json::Bool(true)).with("away", Json::Bool(true)).with(
            "awayStartedAt",
            Json::opt_uint(Some(now)),
        ).with("awaySessionId", Json::opt_text(&Some(session))).done()
    } else {
        let cleared: usize = clear_pending_outbound_events(state);
        delete_setting(state, "away_started_at");
        delete_setting(state, "away_session_id");
        Object::new().with("ok", Json::Bool(true)).with("away", Json::Bool(false)).with(
            "awayStartedAt",
            Json::Null,
        ).with("awaySessionId", Json::Null).with(
            "clearedPendingNotifications",
            Json::UInt(cleared as u64),
        ).done()
    }
}

/// The state once the older name of the away setting is carried over.
pub open spec fn carried_over(st: BridgeStateV) -> BridgeStateV {
    if setting(st, "away"@) is None && setting(st, "away_mode"@) is Some {
        without_setting(
            with_setting(st, "away"@, setting(st, "away_mode"@)->0),
            "away_mode"@,
        )
    } else {
        st
    }
}

/// The away session: the one on record, else the time stamp at which away mode began.
pub open spec fn away_session(st: BridgeStateV, started: Option<u64>) -> Option<Seq<char>> {
    match setting(st, "away_session_id"@) {
        Some(id) => Some(id),
        None => match started {
            Some(at) => Some(decimal(at as nat)),
            None => None,
        },
    }
}

/// The state once away mode was looked up.
pub open spec fn looked_up(st: BridgeStateV) -> BridgeStateV {
    let moved = carried_over(st);
    match (
        setting(moved, "away_session_id"@),
        away_session(moved, setting_number(st, "away_started_at"@)),
    ) {
        (None, Some(id)) => with_setting(moved, "away_session_id"@, id),
        _ => moved,
    }
}

/// Looks up away mode; an older form of the settings is brought up to date.
pub fn get_away_mode(state: &mut BridgeState) -> (r: Json)
    ensures
        final(state)@ == looked_up(old(state)@),
        r@ == away_report(
            is_away(looked_up(old(state)@)),
            setting_number(old(state)@, "away_started_at"@),
            away_session(
                carried_over(old(state)@),
                setting_number(old(state)@, "away_started_at"@),
            ),
        ),
{
    let started: Option<u64> = get_setting_number(state, "away_started_at");
    if get_setting_text(state, "away").is_none() {
        match get_setting_text(state, "away_mode") {
            Some(legacy) => {
                set_setting_text(state, "away", legacy.as_str());
                delete_setting(state, "away_mode");
            },
            None => {},
        }
    }
    let session: Option<String> = match get_setting_text(state, "away_session_id") {
        Some(id) => Some(id),
        None => match started {
            Some(at) => {
                let id = u64_text(at);
                set_setting_text(state, "away_session_id", id.as_str());
                Some(id)
            },
            None => None,
        },
    };
    let away: bool = match get_setting_text(state, "away") {
        Some(value) => same(value.as_str(), "true"),
        None => false,
    };
    Object::new().with("ok", Json::Bool(true)).with("away", Json::Bool(away)).with(
        "awayStartedAt",
        Json::opt_uint(started),
    ).with("awaySessionId", Json::opt_text(&session)).done()
}

/// The settings of away mode have different names.
proof fn lemma_away_keys()
    ensures
        "away"@ != "away_mode"@,
        "away"@ != "away_started_at"@,
        "away"@ != "away_session_id"@,
        "away_started_at"@ != "away_session_id"@,
        "true"@ != "false"@,
{
    reveal_strlit("away");
    reveal_strlit("away_mode");
    reveal_strlit("away_started_at");
    reveal_strlit("away_session_id");
    reveal_strlit("true");
    reveal_strlit("false");
    assert("away"@.len() == 4);
    assert("true"@.len() == 4);
    assert("away_started_at"@[6] == 't');
    assert("away_session_id"@[6] == 'e');
}

/// Going away is told by the state: away mode is on, from that moment, in a session of that
/// moment, and what waits to go out is kept.
pub proof fn going_away_is_seen(st: BridgeStateV, now: u64)
    requires
        st.well_formed(),
    ensures
        is_away(away_state(st, now)),
        setting_number(away_state(st, now), "away_started_at"@) == Some(now),
        setting(away_state(st, now), "away_session_id"@) == Some(decimal(now as nat)),
        looked_up(away_state(st, now)) == away_state(st, now),
        away_state(st, now).outbound == st.outbound,
        pending_count(away_state(st, now)) == pending_count(st),
{
    let a = with_setting(st, "away"@, "true"@);
    let on = without_setting(a, "away_mode"@);
    let started = with_setting(on, "away_started_at"@, decimal(now as nat));
    lemma_away_keys();
    setting_after_set(st, "away"@, "true"@, "away"@);
    setting_after_delete(a, "away_mode"@, "away"@);
    setting_after_set(on, "away_started_at"@, decimal(now as nat), "away"@);
    setting_after_set(on, "away_started_at"@, decimal(now as nat), "away_started_at"@);
    setting_after_set(started, "away_session_id"@, decimal(now as nat), "away"@);
    setting_after_set(started, "away_session_id"@, decimal(now as nat), "away_started_at"@);
    setting_after_set(started, "away_session_id"@, decimal(now as nat), "away_session_id"@);
    decimal_parses_back(now);
}

/// Coming back leaves nothing to go out.
pub proof fn presence_leaves_nothing_pending(st: BridgeStateV)
    ensures
        pending_count(present_state(st)) == 0,
{
    let kept = present_state(st).outbound;
    let hit = pending_hit();
    broadcast use vstd::seq_lib::group_filter_ensures;

    if kept.filter(hit).len() > 0 {
        let row = kept.filter(hit)[0];
        assert(hit(row));
        kept.lemma_filter_contains_rev(hit, row);
    }
}

/// Coming back is told by the state: away mode is off, with neither a start nor a session.
pub proof fn coming_back_is_seen(st: BridgeStateV)
    requires
        st.well_formed(),
    ensures
        !is_away(present_state(st)),
        setting(present_state(st), "away_started_at"@) is None,
        setting(present_state(st), "away_session_id"@) is None,
        looked_up(present_state(st)) == present_state(st),
{
    let a = with_setting(st, "away"@, "false"@);
    let off = without_setting(a, "away_mode"@);
    let cleared = without_pending(off);
    let ended = without_setting(cleared, "away_started_at"@);
    lemma_away_keys();
    drop_keeps_keys(off.outbound, outbound_row_key(), pending_hit());
    setting_after_set(st, "away"@, "false"@, "away"@);
    setting_after_delete(a, "away_mode"@, "away"@);
    setting_after_delete(cleared, "away_started_at"@, "away"@);
    setting_after_delete(cleared, "away_started_at"@, "away_started_at"@);
    setting_after_delete(ended, "away_session_id"@, "away"@);
    setting_after_delete(ended, "away_session_id"@, "away_started_at"@);
    setting_after_delete(ended, "away_session_id"@, "away_session_id"@);
}

/// The marker that tells other programs of away mode.
pub open spec fn away_marker(report: JsonV) -> JsonV {
    JsonV::Object(
        Seq::empty()
            .push(
                ("away"@, match member(report, "away"@) {
                    Some(v) => v,
                    None => JsonV::Bool(false),
                }),
            )
            .push(
                ("awayStartedAt"@, or_null(
                    member(report, "awayStartedAt"@),
                )),
            )
            .push(
                ("awaySessionId"@, or_null(
                    member(report, "awaySessionId"@),
                )),
            ),
    )
}

/// The marker that tells other programs of away mode.
pub fn remote_mode_status_marker(report: &Json) -> (r: Json)
    ensures
        r@ == away_marker(report@),
{
    let away: Json = match report.get("away") {
        Some(v) => v.clone(),
        None => Json::Bool(false),
    };
    Object::new().with("away", away).with(
        "awayStartedAt",
        report.get_or_null("awayStartedAt"),
    ).with("awaySessionId", report.get_or_null("awaySessionId")).done()
}

} // verus!
