//! The settings of the bridge.
use vstd::prelude::*;
use vstd::string::*;

use crate::order::{sort_text, sorted_text, text_keyed, text_sorting_commutes, with_text_images};
use crate::state::{
    BridgeState, BridgeStateV, find_setting, setting_row_key, SettingRow, SettingRowV,
};
use crate::table::{
    drop_keeps_keys, drop_leaves_others, first_row, key_is, lemma_without_step, put_keeps_keys,
    put_leaves_others, put_row, without,
};
use crate::text::{
    ascii_lower, ascii_lower_char, cat, cat3, chars_of, decimal, decimal_parses_back, parse_u64,
    parsed_unsigned, same, u64_text,
};

verus! {

// ---------------------------------------------------------------------------
// Settings
// ---------------------------------------------------------------------------

/// The value of a setting.
pub open spec fn setting(s: BridgeStateV, key: Seq<char>) -> Option<Seq<char>> {
    match first_row(s.settings, key_is(setting_row_key(), key)) {
        Some(row) => Some(row.value),
        None => None,
    }
}

/// The number that a setting holds.
pub open spec fn setting_number(s: BridgeStateV, key: Seq<char>) -> Option<u64> {
    match setting(s, key) {
        Some(value) => match parsed_unsigned(value, u64::MAX as nat) {
            Some(n) => Some(n as u64),
            None => None,
        },
        None => None,
    }
}

/// The state with a setting set.
pub open spec fn with_setting(s: BridgeStateV, key: Seq<char>, value: Seq<char>) -> BridgeStateV {
    BridgeStateV {
        settings: put_row(s.settings, key_is(setting_row_key(), key), SettingRowV { key, value }),
        ..s
    }
}

/// The state without a setting.
pub open spec fn without_setting(s: BridgeStateV, key: Seq<char>) -> BridgeStateV {
    BridgeStateV { settings: without(s.settings, key_is(setting_row_key(), key)), ..s }
}

/// The value of a setting.
pub fn get_setting_text(state: &BridgeState, key: &str) -> (r: Option<String>)
    ensures
        r.deep_view() == setting(state@, key@),
{
    let i: usize = find_setting(&state.settings, key);
    if i < state.settings.len() {
        Some(state.settings[i].value.clone())
    } else {
        None
    }
}

/// The number that a setting holds.
pub fn get_setting_number(state: &BridgeState, key: &str) -> (r: Option<u64>)
    ensures
        r == setting_number(state@, key@),
{
    match get_setting_text(state, key) {
        Some(value) => parse_u64(value.as_str()),
        None => None,
    }
}

/// Sets a setting.
pub fn set_setting_text(state: &mut BridgeState, key: &str, value: &str)
    ensures
        final(state)@ == with_setting(old(state)@, key@, value@),
{
    let ghost before = state.settings.deep_view();
    let row = SettingRow { key: key.to_owned(), value: value.to_owned() };
    let i: usize = find_setting(&state.settings, key);
    if i < state.settings.len() {
        state.settings[i] = row;
        assert(state.settings.deep_view() =~= before.update(i as int, row@));
    } else {
        state.settings.push(row);
        assert(state.settings.deep_view() =~= before.push(row@));
    }
}

/// Sets a setting to a number.
pub fn set_setting(state: &mut BridgeState, key: &str, value: u64)
    ensures
        final(state)@ == with_setting(old(state)@, key@, decimal(value as nat)),
{
    set_setting_text(state, key, u64_text(value).as_str());
}

/// Removes a setting.
pub fn delete_setting(state: &mut BridgeState, key: &str)
    ensures
        final(state)@ == without_setting(old(state)@, key@),
{
    let ghost hit = key_is(setting_row_key(), key@);
    let mut rows: Vec<SettingRow> = Vec::new();
    core::mem::swap(&mut rows, &mut state.settings);
    let ghost all = rows.deep_view();
    let ghost given = rows@;
    let mut kept: Vec<SettingRow> = Vec::new();
    assert(kept.deep_view() =~= without(all.take(0), hit)) by {
        reveal(Seq::filter);
    }
    for row in it: rows
        invariant
            it.seq() == given,
            all == Seq::new(given.len(), |i: int| given[i]@),
            hit == key_is(setting_row_key(), key@),
            kept.deep_view() == without(all.take(it.index()), hit),
    {
        proof {
            lemma_without_step(all, hit, it.index());
            assert(all[it.index()] == row@);
        }
        let ghost before = kept.deep_view();
        if !same(row.key.as_str(), key) {
            kept.push(row);
            assert(kept.deep_view() =~= before.push(row@));
        }
    }
    assert(all.take(all.len() as int) =~= all);
    state.settings = kept;
}

/// A setting that was set is found again, and the other settings stay.
pub proof fn setting_after_set(
    s: BridgeStateV,
    key: Seq<char>,
    value: Seq<char>,
    other: Seq<char>,
)
    requires
        s.well_formed(),
    ensures
        with_setting(s, key, value).well_formed(),
        setting(with_setting(s, key, value), key) == Some(value),
        other != key ==> setting(with_setting(s, key, value), other) == setting(s, other),
{
    let row = SettingRowV { key, value };
    put_keeps_keys(s.settings, setting_row_key(), row);
    if other != key {
        put_leaves_others(s.settings, setting_row_key(), row, other);
    }
}

/// A number that was set is read back as that number.
pub proof fn number_after_set(s: BridgeStateV, key: Seq<char>, value: u64)
    requires
        s.well_formed(),
    ensures
        setting_number(with_setting(s, key, decimal(value as nat)), key) == Some(value),
{
    setting_after_set(s, key, decimal(value as nat), key);
    decimal_parses_back(value);
}

/// A setting that was removed is gone, and the other settings stay.
pub proof fn setting_after_delete(s: BridgeStateV, key: Seq<char>, other: Seq<char>)
    requires
        s.well_formed(),
    ensures
        without_setting(s, key).well_formed(),
        setting(without_setting(s, key), key) is None,
        other != key ==> setting(without_setting(s, key), other) == setting(s, other),
{
    drop_keeps_keys(s.settings, setting_row_key(), key_is(setting_row_key(), key));
    if other != key {
        drop_leaves_others(
            s.settings,
            key_is(setting_row_key(), key),
            key_is(setting_row_key(), other),
        );
    }
}

// ---------------------------------------------------------------------------
// Settings under a prefix
// ---------------------------------------------------------------------------

/// The pattern `p` from `i` on covers the text `s` from `j` on: `%` stands for any
/// run of characters, `_` for any one, and ASCII letters match in either case.
pub open spec fn like(p: Seq<char>, s: Seq<char>, i: nat, j: nat) -> bool
    decreases p.len() - i, s.len() - j,
{
    if i >= p.len() {
        j >= s.len()
    } else if p[i as int] == '%' {
        like(p, s, i + 1, j) || (j < s.len() && like(p, s, i, j + 1))
    } else if j >= s.len() {
        false
    } else {
        (p[i as int] == '_' || ascii_lower(p[i as int]) == ascii_lower(s[j as int])) && like(
            p,
            s,
            i + 1,
            j + 1,
        )
    }
}

/// Tells whether a pattern covers a text.
pub fn is_like(p: &Vec<char>, s: &Vec<char>, i: usize, j: usize) -> (r: bool)
    requires
        i <= p@.len(),
        j <= s@.len(),
    ensures
        r == like(p@, s@, i as nat, j as nat),
    decreases p@.len() - i, s@.len() - j,
{
    if i >= p.len() {
        j >= s.len()
    } else if p[i] == '%' {
        is_like(p, s, i + 1, j) || (j < s.len() && is_like(p, s, i, j + 1))
    } else if j >= s.len() {
        false
    } else {
        (p[i] == '_' || ascii_lower_char(p[i]) == ascii_lower_char(s[j])) && is_like(
            p,
            s,
            i + 1,
            j + 1,
        )
    }
}

/// The settings whose keys the pattern `prefix%` covers, as pairs in table order.
pub open spec fn settings_like(rows: Seq<SettingRowV>, prefix: Seq<char>, n: nat) -> Seq<
    (Seq<char>, Seq<char>),
>
    decreases n,
{
    if n == 0 || n > rows.len() {
        Seq::empty()
    } else {
        let before = settings_like(rows, prefix, (n - 1) as nat);
        let row = rows[n - 1];
        if like(prefix + "%"@, row.key, 0, 0) {
            before.push((row.key, row.value))
        } else {
            before
        }
    }
}

/// The settings whose keys the pattern `prefix%` covers, in the order of their keys.
pub open spec fn settings_under(s: BridgeStateV, prefix: Seq<char>) -> Seq<(Seq<char>, Seq<char>)> {
    sorted_text(settings_like(s.settings, prefix, s.settings.len()))
}

/// The settings whose keys the pattern `prefix%` covers, in the order of their keys.
pub fn list_settings_with_prefix(state: &BridgeState, prefix: &str) -> (r: Vec<(String, String)>)
    ensures
        r.deep_view() == settings_under(state@, prefix@),
{
    let pattern = chars_of(cat(prefix, "%").as_str());
    let mut found: Vec<(String, String)> = Vec::new();
    let mut i: usize = 0;
    let ghost rows = state.settings.deep_view();
    assert(found.deep_view() =~= Seq::<(Seq<char>, Seq<char>)>::empty());
    while i < state.settings.len()
        invariant
            i <= state.settings@.len(),
            rows == state.settings.deep_view(),
            pattern@ == prefix@ + "%"@,
            found.deep_view() == settings_like(rows, prefix@, i as nat),
        decreases state.settings@.len() - i,
    {
        assert(rows[i as int] == state.settings@[i as int]@);
        let key = chars_of(state.settings[i].key.as_str());
        if is_like(&pattern, &key, 0, 0) {
            let ghost before = found.deep_view();
            found.push((state.settings[i].key.clone(), state.settings[i].value.clone()));
            assert(found.deep_view() =~= before.push((rows[i as int].key, rows[i as int].value)));
        }
        i += 1;
    }
    let ghost listed = found.deep_view();
    let ghost pairs = text_keyed(found@);
    let r = sort_text(found);
    proof {
        let f = |v: String| v@;
        text_sorting_commutes(pairs, f);
        assert(with_text_images(pairs, f) =~= listed);
        assert(with_text_images(text_keyed(r@), f) =~= r.deep_view());
    }
    r
}

// ---------------------------------------------------------------------------
// Current projects
// ---------------------------------------------------------------------------

/// The setting that holds the current project of a user in a chat.
pub open spec fn current_project_key(chat_id: Seq<char>, user_id: Option<Seq<char>>) -> Seq<char> {
    "telegram_current_project:"@ + chat_id + ":"@ + (match user_id {
        Some(user) => user,
        None => "*"@,
    })
}

/// The setting that holds the current project of a user in a chat.
pub fn telegram_current_project_key(chat_id: &str, user_id: Option<&str>) -> (r: String)
    ensures
        r@ == current_project_key(chat_id@, user_id.deep_view()),
{
    let mut key = cat3("telegram_current_project:", chat_id, ":");
    match user_id {
        Some(user) => {
            key.append(user);
        },
        None => {
            key.append("*");
        },
    }
    key
}

/// The current project of a user in a chat.
pub fn get_telegram_current_project_id(
    state: &BridgeState,
    chat_id: &str,
    user_id: Option<&str>,
) -> (r: Option<String>)
    ensures
        r.deep_view() == setting(state@, current_project_key(chat_id@, user_id.deep_view())),
{
    get_setting_text(state, telegram_current_project_key(chat_id, user_id).as_str())
}

/// Chooses the current project of a user in a chat.
pub fn set_telegram_current_project_id(
    state: &mut BridgeState,
    chat_id: &str,
    user_id: Option<&str>,
    project_id: &str,
)
    ensures
        final(state)@ == with_setting(
            old(state)@,
            current_project_key(chat_id@, user_id.deep_view()),
            project_id@,
        ),
{
    set_setting_text(state, telegram_current_project_key(chat_id, user_id).as_str(), project_id);
}

} // verus!
