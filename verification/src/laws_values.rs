//! What holds of single values: of numbers and times, of JSON, of messages and of rows.
use vstd::prelude::*;
use vstd::string::*;

use crate::away::{pending_count, pending_hit};
use crate::cli::{CliErrorV, usage_text};
use crate::codex::{greater, latest_stamp, summary_preview, thread_stamp, turn_stamp};
use crate::config::{CodexConfigV, DiscordConfigV, RegisteredProjectV};
use crate::discord::{
    command_in, command_of, heard, message_text, MessageRouteV, prompt_route, replied_id,
    reply_route,
};
use crate::discord_commands::{new_thread_question, question_payload};
use crate::error::BridgeErrorV;
use crate::events::listed;
use crate::json::{
    array_value, bool_value, empty_objects_have_no_members, index_set, int_json, JsonV, member,
    member_after_set, Object, or_null, pushed_members_are_found, set_member,
    strange_names_are_not_found, text_array, text_member, text_or_null, text_value, uint_or_null,
    uint_value,
};
use crate::laws_commands::keys_are_found_by_their_beginning;
use crate::laws_text::texts_hold_their_parts;
use crate::live::{exit_seen, hyphenated, is_alphanumeric, ProcessFactsV, session_name};
use crate::order::{insert_text, sorted_text};
use crate::routes::{command_route, message_thread, TelegramCommandRouteKind};
use crate::schema::{column_added, LaterColumnV};
use crate::settings::{
    like, setting, setting_after_delete, setting_after_set, settings_like, settings_under,
    with_setting, without_setting,
};
use crate::state::{
    BridgeStateV, delivery_row_key, DeliveryRowV, empty_state, event_row_key, EventRowV, from_sql,
    opt_from_sql, setting_row_key, SettingRowV, sql_int,
};
use crate::sync::{delivered_before, is_away, with_delivery, with_event};
use crate::table::{first_row, key_is, lemma_first_push, lemma_position_is};
use crate::text::{before_from, begins_with, non_blank, text_before};
use crate::thread::{first_chars, millis};
use crate::ws::{backend_url, shared_url, UrlPartsV};

verus! {

// ---------------------------------------------------------------------------
// Numbers and times
// ---------------------------------------------------------------------------

/// A time in seconds is read as the same time in milliseconds, and one in milliseconds as it
/// is.
pub proof fn times_are_read_in_milliseconds(seconds: u64)
    ensures
        seconds < 100_000_000_000 ==> millis(seconds) == seconds * 1000,
        seconds >= 100_000_000_000 ==> millis(seconds) == seconds,
{
}

/// A number is stored where it fits, and read back where it is not negative.
pub proof fn numbers_are_stored_where_they_fit(n: u64, stored: i64)
    ensures
        n <= i64::MAX ==> (sql_int(n) matches Ok(v) && v == n),
        n > i64::MAX ==> sql_int(n) is Err,
        stored >= 0 ==> (from_sql(stored) matches Ok(v) && v == stored),
        stored < 0 ==> from_sql(stored) is Err,
        opt_from_sql(None) == Ok::<Option<u64>, BridgeErrorV>(None),
        stored >= 0 ==> opt_from_sql(Some(stored)) == Ok::<Option<u64>, BridgeErrorV>(
            Some(stored as u64),
        ),
        stored < 0 ==> opt_from_sql(Some(stored)) is Err,
{
}

/// Of two times the later is taken, and one that is there before one that is not.
pub proof fn the_later_time_is_taken(a: u64, b: u64)
    ensures
        a <= b ==> greater(Some(a), Some(b)) == Some(b) && greater(Some(b), Some(a)) == Some(b),
        greater(Some(a), None) == Some(a) && greater(None, Some(a)) == Some(a),
        greater(None, None) is None,
{
}

/// The time of a turn is that of its end, and else of its last change, and else of its start.
pub proof fn turns_have_the_time_of_their_end(turn: JsonV, at: u64)
    ensures
        member(turn, "completedAt"@) == Some(JsonV::UInt(at)) ==> turn_stamp(turn) == Some(at),
        member(turn, "completedAt"@) is None && member(turn, "updatedAt"@) == Some(JsonV::UInt(at))
            ==> turn_stamp(turn) == Some(at),
        member(turn, "completedAt"@) is None && member(turn, "updatedAt"@) is None && member(
            turn,
            "startedAt"@,
        ) == Some(JsonV::UInt(at)) ==> turn_stamp(turn) == Some(at),
{
}

/// One more turn makes a thread as late as that turn, where it is later.
pub proof fn threads_are_as_late_as_their_last_turn(
    thread: JsonV,
    longer: JsonV,
    turns: Seq<JsonV>,
    last: JsonV,
    before: u64,
    at: u64,
)
    requires
        member(thread, "turns"@) == Some(JsonV::Array(turns)),
        member(longer, "turns"@) == Some(JsonV::Array(turns.push(last))),
        thread_stamp(thread) == Some(before),
        turn_stamp(last) == Some(at),
    ensures
        at >= before ==> thread_stamp(longer) == Some(at),
        at < before ==> thread_stamp(longer) == Some(before),
{
    let all = turns.push(last);
    lemma_stamp_prefix(turns, last, turns.len());
    assert(all[all.len() - 1] == last);
}

proof fn lemma_stamp_prefix(turns: Seq<JsonV>, last: JsonV, n: nat)
    requires
        n <= turns.len(),
    ensures
        latest_stamp(turns.push(last), n) == latest_stamp(turns, n),
    decreases n,
{
    if n > 0 {
        assert(turns.push(last)[n - 1] == turns[n - 1]);
        lemma_stamp_prefix(turns, last, (n - 1) as nat);
    }
}

// ---------------------------------------------------------------------------
// JSON
// ---------------------------------------------------------------------------

/// Values are read as what they are, and as nothing else.
pub proof fn values_are_read_as_they_are(n: u64, text: Seq<char>, b: bool, items: Seq<JsonV>)
    ensures
        text_value(Some(JsonV::Str(text))) == Some(text),
        uint_value(Some(JsonV::UInt(n))) == Some(n),
        bool_value(Some(JsonV::Bool(b))) == Some(b),
        array_value(Some(JsonV::Array(items))) == Some(items),
        text_value(Some(JsonV::UInt(n))) is None && text_value(Some(JsonV::Null)) is None
            && text_value(None) is None,
        uint_value(Some(JsonV::Str(text))) is None && uint_value(None) is None,
        bool_value(Some(JsonV::Str(text))) is None && bool_value(None) is None,
        array_value(Some(JsonV::Str(text))) is None && array_value(None) is None,
        text_or_null(Some(text)) == JsonV::Str(text) && text_or_null(None) == JsonV::Null,
        uint_or_null(Some(n)) == JsonV::UInt(n) && uint_or_null(None) == JsonV::Null,
        or_null(Some(JsonV::Bool(b))) == JsonV::Bool(b) && or_null(None) == JsonV::Null,
{
}

/// A whole number is written as one with its sign, and a list of texts text by text.
pub proof fn numbers_and_texts_become_json(n: i64, texts: Seq<Seq<char>>, i: int)
    ensures
        n >= 0 ==> int_json(n) == JsonV::UInt(n as u64),
        n < 0 ==> int_json(n) == JsonV::NegInt(n),
        text_array(texts) is Array && text_array(texts)->Array_0.len() == texts.len(),
        0 <= i < texts.len() ==> text_array(texts)->Array_0[i] == JsonV::Str(texts[i]),
{
}

/// A member that is set is there afterwards, and every other stays; what is no object stays as
/// it is, but for null, which becomes one.
pub proof fn members_are_set(v: JsonV, key: Seq<char>, value: JsonV, other: Seq<char>)
    requires
        other != key,
    ensures
        v is Object ==> member(set_member(v, key, value), key) == Some(value) && member(
            set_member(v, key, value),
            other,
        ) == member(v, other) && index_set(v, key, value) == set_member(v, key, value),
        v is Str || v is Array ==> set_member(v, key, value) == v,
        member(index_set(JsonV::Null, key, value), key) == Some(value),
        member(index_set(JsonV::Null, key, value), other) is None,
{
    if v is Object {
        member_after_set(v->Object_0, key, value, other);
    }
    member_after_set(Seq::empty(), key, value, other);
    strange_names_are_not_found(Seq::empty(), other);
}

// ---------------------------------------------------------------------------
// Messages
// ---------------------------------------------------------------------------

/// The preview of a summary is its last preview, and else its preview, and else its last
/// message; each without blanks at its ends, and none that is blank.
pub proof fn summaries_have_their_last_preview(summary: JsonV)
    ensures
        non_blank(text_member(summary, "lastPreview"@)) is Some ==> summary_preview(summary)
            == non_blank(text_member(summary, "lastPreview"@)),
        non_blank(text_member(summary, "lastPreview"@)) is None && non_blank(
            text_member(summary, "preview"@),
        ) is Some ==> summary_preview(summary) == non_blank(text_member(summary, "preview"@)),
        non_blank(text_member(summary, "lastPreview"@)) is None && non_blank(
            text_member(summary, "preview"@),
        ) is None ==> summary_preview(summary) == non_blank(text_member(summary, "lastMessage"@)),
{
}

/// A reply that is heard goes to the thread of the message that it answers, with its text; one
/// that is not heard, or answers a message of no thread, goes nowhere.
pub proof fn replies_go_to_the_thread_they_answer(
    st: BridgeStateV,
    message: JsonV,
    discord: DiscordConfigV,
    id: i64,
    text: Seq<char>,
    thread_id: Seq<char>,
)
    ensures
        heard(message, discord) && replied_id(message) == Some(id) && message_text(message) == Some(
            text,
        ) && message_thread(st, discord.channel_id, id) == Some(thread_id) ==> reply_route(
            st,
            message,
            discord,
        ) == Some((thread_id, text)),
        !heard(message, discord) ==> reply_route(st, message, discord) is None && prompt_route(
            st,
            message,
            discord,
        ) is None && command_of(message, discord) is None,
        replied_id(message) == Some(id) && message_thread(st, discord.channel_id, id) is None
            ==> reply_route(st, message, discord) is None,
        replied_id(message) is Some ==> command_of(message, discord) is None,
        heard(message, discord) && replied_id(message) is None && message_text(message) == Some(
            text,
        ) ==> command_of(message, discord) == command_in(text),
{
}

/// The answer to a question for a new thread goes to the project that was asked for.
pub proof fn answered_questions_name_their_project(
    st: BridgeStateV,
    message: JsonV,
    discord: DiscordConfigV,
    id: i64,
    text: Seq<char>,
    payload: JsonV,
)
    requires
        heard(message, discord),
        replied_id(message) == Some(id),
        message_text(message) == Some(text),
        command_route(st, discord.channel_id, id) == Some(
            (TelegramCommandRouteKind::NewThread, Some(payload)),
        ),
    ensures
        prompt_route(st, message, discord) == Some(
            MessageRouteV::PromptReply {
                kind: TelegramCommandRouteKind::NewThread,
                message: text,
                project_id: text_member(payload, "projectId"@),
                reply_to: id,
            },
        ),
{
}

/// The question for a new thread names the project and its directory.
pub proof fn questions_name_the_project(p: RegisteredProjectV)
    ensures
        new_thread_question(p) == "What should Codex work on in "@ + p.label + "?\n"@ + p.cwd
            + "\n\nUse Discord's Reply action on this message with the prompt for the new thread."@,
        text_member(question_payload(p), "projectId"@) == Some(p.id),
{
    broadcast use {empty_objects_have_no_members, pushed_members_are_found};

}

/// What is wrong with a command line is told with the words that are wrong.
pub proof fn usage_faults_are_told(program: Seq<char>, a: Seq<char>, b: Seq<char>)
    ensures
        usage_text(program, CliErrorV::InvalidSubcommand(a)) == "error: unrecognized subcommand '"@
            + a + "'\n"@,
        usage_text(program, CliErrorV::UnknownArgument(a)) == "error: unexpected argument '"@ + a
            + "' found\n"@,
        usage_text(program, CliErrorV::MissingValue(a)) == "error: a value is required for '"@ + a
            + "' but none was supplied\n"@,
        usage_text(program, CliErrorV::InvalidNumber(a, b)) == "error: invalid value '"@ + b
            + "' for '"@ + a + "'\n"@,
        usage_text(program, CliErrorV::RepeatedArgument(a)) == "error: the argument '"@ + a
            + "' cannot be used multiple times\n"@,
        usage_text(program, CliErrorV::MissingArgument(a))
            == "error: the following required arguments were not provided:\n  "@ + a + "\n"@,
{
}

// ---------------------------------------------------------------------------
// Rows
// ---------------------------------------------------------------------------

/// A delivery is remembered by its key, from the first time on; others are not touched.
pub proof fn deliveries_are_remembered(
    st: BridgeStateV,
    key: Seq<char>,
    thread_id: Seq<char>,
    kind: Seq<char>,
    now: i64,
    other: Seq<char>,
)
    requires
        other != key,
    ensures
        delivered_before(with_delivery(st, key, thread_id, kind, now), key),
        delivered_before(with_delivery(st, key, thread_id, kind, now), other) == delivered_before(
            st,
            other,
        ),
        delivered_before(st, key) ==> with_delivery(st, key, thread_id, kind, now) == st,
        with_delivery(st, key, thread_id, kind, now).outbound == st.outbound,
{
    let row = DeliveryRowV { event_key: key, thread_id, event_type: kind, delivered_at: now };
    lemma_first_push(st.deliveries, row, key_is(delivery_row_key(), key));
    lemma_first_push(st.deliveries, row, key_is(delivery_row_key(), other));
}

/// An event is logged under its key with what it says; it is logged once.
pub proof fn events_are_logged(
    st: BridgeStateV,
    key: Seq<char>,
    thread_id: Seq<char>,
    kind: Seq<char>,
    payload: JsonV,
    now: i64,
)
    requires
        first_row(st.events, key_is(event_row_key(), key)) is None,
    ensures
        ({
            let after = with_event(st, key, thread_id, kind, payload, now);
            let row = first_row(after.events, key_is(event_row_key(), key));
            &&& row is Some
            &&& row->0.thread_id == thread_id
            &&& row->0.event_type == kind
            &&& row->0.payload == payload
            &&& row->0.observed_at == now
            &&& with_event(after, key, thread_id, kind, payload, now) == after
        }),
{
    let row = EventRowV {
        event_key: key,
        thread_id,
        event_type: kind,
        observed_at: now,
        payload,
    };
    lemma_first_push(st.events, row, key_is(event_row_key(), key));
}

/// A column that a table lacks is added with its definition, and one that it has is not.
pub proof fn lacking_columns_are_added(known: Seq<Seq<char>>, c: LaterColumnV, i: int)
    ensures
        0 <= i < known.len() && known[i] == c.column ==> column_added(known, c) is None,
        known.len() == 0 ==> column_added(known, c) == Some(
            "ALTER TABLE "@ + c.table + " ADD COLUMN "@ + c.column + " "@ + c.definition,
        ),
{
    if 0 <= i < known.len() && known[i] == c.column {
        assert(listed(known, c.column));
    }
}

/// A setting whose key begins with the prefix is among those under it, with its value.
pub proof fn settings_are_listed_under_their_prefix(
    st: BridgeStateV,
    prefix: Seq<char>,
    rest: Seq<char>,
    i: int,
)
    requires
        forall|k: int| 0 <= k < prefix.len() ==> (#[trigger] prefix[k]) != '%' && prefix[k] != '_',
        0 <= i < st.settings.len(),
        st.settings[i].key == prefix + rest,
    ensures
        settings_under(st, prefix).contains((st.settings[i].key, st.settings[i].value)),
{
    keys_are_found_by_their_beginning(prefix, rest, 0);
    lemma_setting_is_listed(st.settings, prefix, st.settings.len(), i);
    let rows = settings_like(st.settings, prefix, st.settings.len());
    lemma_sorted_holds(rows, (st.settings[i].key, st.settings[i].value));
}

proof fn lemma_setting_is_listed(rows: Seq<SettingRowV>, prefix: Seq<char>, n: nat, i: int)
    requires
        0 <= i < n <= rows.len(),
        like(prefix + "%"@, rows[i].key, 0, 0),
    ensures
        settings_like(rows, prefix, n).contains((rows[i].key, rows[i].value)),
    decreases n,
{
    let before = settings_like(rows, prefix, (n - 1) as nat);
    let all = settings_like(rows, prefix, n);
    if i == n - 1 {
        assert(all[before.len() as int] == (rows[i].key, rows[i].value));
    } else {
        lemma_setting_is_listed(rows, prefix, (n - 1) as nat, i);
        let k = choose|k: int| 0 <= k < before.len() && before[k] == (rows[i].key, rows[i].value);
        assert(all[k] == before[k]);
    }
}

proof fn lemma_insert_holds<T>(s: Seq<(Seq<char>, T)>, x: (Seq<char>, T), y: (Seq<char>, T))
    requires
        s.contains(y) || y == x,
    ensures
        insert_text(s, x).contains(y),
    decreases s.len(),
{
    let out = insert_text(s, x);
    if s.len() == 0 || !text_before(x.0, s.last().0) {
        if y == x {
            assert(out[s.len() as int] == y);
        } else {
            let i = choose|i: int| 0 <= i < s.len() && s[i] == y;
            assert(out[i] == y);
        }
    } else {
        let rest = s.drop_last();
        let inner = insert_text(rest, x);
        if y != x {
            let i = choose|i: int| 0 <= i < s.len() && s[i] == y;
            if i == s.len() - 1 {
                assert(out[inner.len() as int] == y);
            } else {
                assert(rest[i] == y);
                lemma_insert_holds(rest, x, y);
                let k = choose|k: int| 0 <= k < inner.len() && inner[k] == y;
                assert(out[k] == y);
            }
        } else {
            lemma_insert_holds(rest, x, y);
            let k = choose|k: int| 0 <= k < inner.len() && inner[k] == y;
            assert(out[k] == y);
        }
    }
}

proof fn lemma_sorted_holds<T>(s: Seq<(Seq<char>, T)>, y: (Seq<char>, T))
    requires
        s.contains(y),
    ensures
        sorted_text(s).contains(y),
    decreases s.len(),
{
    let rest = s.drop_last();
    let i = choose|i: int| 0 <= i < s.len() && s[i] == y;
    if i < s.len() - 1 {
        assert(rest[i] == y);
        lemma_sorted_holds(rest, y);
    }
    lemma_insert_holds(sorted_text(rest), s.last(), y);
}

/// The session of a backend is named by its address; a process has gone where it is dead, or
/// where another has its number.
pub proof fn sessions_and_exits_are_known(url: Seq<char>, key: Seq<char>, f: ProcessFactsV, i: int)
    ensures
        begins_with(session_name(url), "codex-bridge-live-"@),
        0 <= i < url.len() && is_alphanumeric(url[i]) ==> hyphenated(url)[i] == url[i],
        0 <= i < url.len() && (url[i] == ':' || url[i] == '/' || url[i] == '.') ==> hyphenated(
            url,
        )[i] == '-',
        !f.alive ==> exit_seen(Some(key), f) && exit_seen(None, f),
        f.alive && f.start_key == Some(key) ==> !exit_seen(Some(key), f),
        f.alive && f.start_key is Some && f.start_key != Some(key) ==> exit_seen(Some(key), f),
{
    texts_hold_their_parts(
        Seq::empty(),
        "codex-bridge-live-"@,
        first_chars(hyphenated(url), 48),
    );
}

/// A backend is reached at the address of its configuration, where that is accepted.
pub proof fn backends_are_reached_at_their_address(codex: CodexConfigV, parts: UrlPartsV)
    ensures
        shared_url(codex.websocket_url, Ok(parts)) is Ok ==> backend_url(codex, Ok(parts)) == Ok::<
            Seq<char>,
            BridgeErrorV,
        >(codex.websocket_url),
        shared_url(codex.websocket_url, Ok(parts)) is Err ==> backend_url(codex, Ok(parts)) is Err,
{
}

/// Nothing is stored in a new store: nobody is away, nothing was delivered or handled, and
/// nothing waits.
pub proof fn new_stores_are_empty(key: Seq<char>)
    ensures
        empty_state().well_formed(),
        setting(empty_state(), key) is None,
        !is_away(empty_state()),
        !delivered_before(empty_state(), key),
        pending_count(empty_state()) == 0,
        empty_state().threads.len() == 0 && empty_state().actions.len() == 0,
{
    lemma_position_is(empty_state().settings, key_is(setting_row_key(), key), 0);
    lemma_position_is(empty_state().settings, key_is(setting_row_key(), "away"@), 0);
    lemma_position_is(empty_state().deliveries, key_is(delivery_row_key(), key), 0);
    assert(empty_state().outbound.filter(pending_hit()).len() == 0) by {
        reveal(Seq::filter);
    }
}

/// The user is away exactly where the setting says so.
pub proof fn away_mode_is_the_setting(st: BridgeStateV, value: Seq<char>)
    requires
        st.well_formed(),
    ensures
        is_away(with_setting(st, "away"@, "true"@)),
        value != "true"@ ==> !is_away(with_setting(st, "away"@, value)),
        !is_away(without_setting(st, "away"@)),
{
    setting_after_set(st, "away"@, "true"@, "away"@);
    setting_after_set(st, "away"@, value, "away"@);
    setting_after_delete(st, "away"@, "away"@);
}

/// The settings under a prefix are in the order of their keys.
pub proof fn settings_are_listed_by_key(st: BridgeStateV, prefix: Seq<char>, i: int)
    requires
        0 <= i,
        i + 1 < settings_under(st, prefix).len(),
    ensures
        !text_before(settings_under(st, prefix)[i + 1].0, settings_under(st, prefix)[i].0),
{
    lemma_sorted_rises(settings_like(st.settings, prefix, st.settings.len()));
}

spec fn rises<T>(s: Seq<(Seq<char>, T)>) -> bool {
    forall|i: int, j: int|
        0 <= i && j == i + 1 && j < s.len() ==> !text_before(
            (#[trigger] s[j]).0,
            (#[trigger] s[i]).0,
        )
}

proof fn lemma_before_one_way(a: Seq<char>, b: Seq<char>, i: nat)
    requires
        before_from(a, b, i),
    ensures
        !before_from(b, a, i),
    decreases a.len() - i,
{
    if i < a.len() && i < b.len() && a[i as int] == b[i as int] {
        lemma_before_one_way(a, b, i + 1);
    }
}

proof fn lemma_insert_rises<T>(s: Seq<(Seq<char>, T)>, x: (Seq<char>, T))
    requires
        rises(s),
    ensures
        rises(insert_text(s, x)),
        insert_text(s, x).len() == s.len() + 1,
        s.len() == 0 || !text_before(x.0, s.last().0) ==> insert_text(s, x).last() == x,
        s.len() > 0 && text_before(x.0, s.last().0) ==> insert_text(s, x).last() == s.last(),
    decreases s.len(),
{
    let out = insert_text(s, x);
    if s.len() > 0 && text_before(x.0, s.last().0) {
        let rest = s.drop_last();
        assert(rises(rest)) by {
            assert forall|i: int, j: int|
                0 <= i && j == i + 1 && j < rest.len() implies !text_before(
                (#[trigger] rest[j]).0,
                (#[trigger] rest[i]).0,
            ) by {
                assert(rest[i] == s[i] && rest[j] == s[j]);
            }
        }
        lemma_insert_rises(rest, x);
        let inner = insert_text(rest, x);
        lemma_before_one_way(x.0, s.last().0, 0);
        if rest.len() > 0 {
            assert(!text_before(s[s.len() - 1].0, s[s.len() - 2].0));
            assert(rest.last() == s[s.len() - 2]);
        }
        assert(!text_before(s.last().0, inner.last().0));
        assert forall|i: int, j: int|
            0 <= i && j == i + 1 && j < out.len() implies !text_before(
            (#[trigger] out[j]).0,
            (#[trigger] out[i]).0,
        ) by {
            if j < inner.len() {
                assert(out[i] == inner[i] && out[j] == inner[j]);
            }
        }
    } else {
        assert forall|i: int, j: int|
            0 <= i && j == i + 1 && j < out.len() implies !text_before(
            (#[trigger] out[j]).0,
            (#[trigger] out[i]).0,
        ) by {
            if j < s.len() {
                assert(out[i] == s[i] && out[j] == s[j]);
            }
        }
    }
}

proof fn lemma_sorted_rises<T>(s: Seq<(Seq<char>, T)>)
    ensures
        rises(sorted_text(s)),
    decreases s.len(),
{
    if s.len() > 0 {
        lemma_sorted_rises(s.drop_last());
        lemma_insert_rises(sorted_text(s.drop_last()), s.last());
    }
}

} // verus!
