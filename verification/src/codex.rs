//! What the Codex app server tells of a thread: its messages, its prompts, its
//! summary, and the requests that start and continue threads.
use vstd::prelude::*;
use vstd::string::*;

use crate::error::{BridgeError, BridgeErrorV, failure, outcome};
use crate::history::{recent_actions, recent_actions_json};
use crate::json::{
    array_value, Json, JsonV, member, Object, opt_member, or_null, text_array, text_member,
    text_or_null, text_value, uint_value,
};
use crate::state::{BridgeState, BridgeStateV};
use crate::text::{
    borrow_opt, cat, cat3, contains, contains_text, copy_opt, join, joined, non_blank, opt_is,
    own_opt, same, str_is, trimmed_non_blank,
};
use crate::thread::{
    BridgeThreadSnapshot, BridgeThreadSnapshotV, derive_project_label, derive_thread_display_name,
    display_name, PendingPrompt, PendingPromptV, project_label,
};

verus! {

// ---------------------------------------------------------------------------
// Messages of a thread
// ---------------------------------------------------------------------------

/// The trimmed text of the member `key`, where it is not blank.
pub open spec fn text_field(value: JsonV, key: Seq<char>) -> Option<Seq<char>> {
    non_blank(text_member(value, key))
}

/// The trimmed text of the member `key`, where it is not blank.
pub fn string_field(value: &Json, key: &str) -> (r: Option<String>)
    ensures
        r.deep_view() == text_field(value@, key@),
{
    trimmed_non_blank(value.get_text(key))
}

/// The last of the first `n` items that has a wanted text.
pub open spec fn last_in_items(
    items: Seq<JsonV>,
    n: nat,
    want: spec_fn(JsonV) -> Option<Seq<char>>,
) -> Option<Seq<char>>
    decreases n,
{
    if n == 0 || n > items.len() {
        None
    } else {
        match want(items[n - 1]) {
            Some(text) => Some(text),
            None => last_in_items(items, (n - 1) as nat, want),
        }
    }
}

/// The last wanted text in the first `n` turns.
pub open spec fn last_in_turns(
    turns: Seq<JsonV>,
    n: nat,
    want: spec_fn(JsonV) -> Option<Seq<char>>,
) -> Option<Seq<char>>
    decreases n,
{
    if n == 0 || n > turns.len() {
        None
    } else {
        let here = match array_value(member(turns[n - 1], "items"@)) {
            Some(items) => last_in_items(items, items.len(), want),
            None => None,
        };
        match here {
            Some(text) => Some(text),
            None => last_in_turns(turns, (n - 1) as nat, want),
        }
    }
}

/// The last wanted text of a thread.
pub open spec fn last_in_thread(
    thread: JsonV,
    want: spec_fn(JsonV) -> Option<Seq<char>>,
) -> Option<Seq<char>> {
    match array_value(member(thread, "turns"@)) {
        Some(turns) => last_in_turns(turns, turns.len(), want),
        None => None,
    }
}

/// The texts of the first `n` parts that have one.
pub open spec fn part_texts(parts: Seq<JsonV>, n: nat) -> Seq<Seq<char>>
    decreases n,
{
    if n == 0 || n > parts.len() {
        Seq::empty()
    } else {
        let before = part_texts(parts, (n - 1) as nat);
        match text_member(parts[n - 1], "text"@) {
            Some(text) => before.push(text),
            None => before,
        }
    }
}

/// The text of an item: its own, else that of its parts joined by blanks.
pub open spec fn item_text(item: JsonV) -> Option<Seq<char>> {
    match text_field(item, "text"@) {
        Some(text) => Some(text),
        None => match array_value(member(item, "content"@)) {
            Some(parts) => non_blank(Some(joined(part_texts(parts, parts.len()), " "@))),
            None => None,
        },
    }
}

/// The text of an item: its own, else that of its parts joined by blanks.
pub fn extract_item_text(item: &Json) -> (r: Option<String>)
    ensures
        r.deep_view() == item_text(item@),
{
    match string_field(item, "text") {
        Some(text) => return Some(text),
        None => {},
    }
    let parts = match item.get("content") {
        Some(content) => match content.as_array() {
            Some(v) => v,
            None => {
                return None;
            },
        },
        None => {
            return None;
        },
    };
    let ghost all = parts.deep_view();
    let mut texts: Vec<String> = Vec::new();
    let mut i: usize = 0;
    assert(texts.deep_view() =~= Seq::<Seq<char>>::empty());
    while i < parts.len()
        invariant
            i <= parts@.len(),
            all == parts.deep_view(),
            texts.deep_view() == part_texts(all, i as nat),
        decreases parts@.len() - i,
    {
        assert(all[i as int] == parts@[i as int]@);
        match parts[i].text_of_member("text") {
            Some(text) => {
                let ghost before = texts.deep_view();
                texts.push(text);
                assert(texts.deep_view() =~= before.push(text@));
            },
            None => {},
        }
        i += 1;
    }
    trimmed_non_blank(Some(join(&texts, " ").as_str()))
}

/// Which message of a thread is wanted.
pub enum Wanted<'a> {
    /// A final answer of the agent.
    FinalAnswer,
    /// Any message of the agent.
    AgentMessage,
    /// Any item of a type, by its whole text.
    OfType(&'a str),
}

/// The text of a message of the agent.
pub open spec fn agent_text(item: JsonV) -> Option<Seq<char>> {
    if text_member(item, "type"@) == Some("agentMessage"@) {
        text_field(item, "text"@)
    } else {
        None
    }
}

/// The text of a final answer of the agent.
pub open spec fn final_text(item: JsonV) -> Option<Seq<char>> {
    if text_member(item, "phase"@) == Some("final_answer"@) {
        agent_text(item)
    } else {
        None
    }
}

/// The text of an item of a type.
pub open spec fn typed_text(item: JsonV, kind: Seq<char>) -> Option<Seq<char>> {
    if text_member(item, "type"@) == Some(kind) {
        item_text(item)
    } else {
        None
    }
}

/// The wanted text of an item.
pub open spec fn wanted_text(w: Wanted, item: JsonV) -> Option<Seq<char>> {
    match w {
        Wanted::FinalAnswer => final_text(item),
        Wanted::AgentMessage => agent_text(item),
        Wanted::OfType(kind) => typed_text(item, kind@),
    }
}

/// The wanted text of an item.
fn wanted_text_of(w: &Wanted, item: &Json) -> (r: Option<String>)
    ensures
        r.deep_view() == wanted_text(*w, item@),
{
    match w {
        Wanted::FinalAnswer => {
            if str_is(item.get_text("phase"), "final_answer") && str_is(
                item.get_text("type"),
                "agentMessage",
            ) {
                string_field(item, "text")
            } else {
                None
            }
        },
        Wanted::AgentMessage => {
            if str_is(item.get_text("type"), "agentMessage") {
                string_field(item, "text")
            } else {
                None
            }
        },
        Wanted::OfType(kind) => {
            if str_is(item.get_text("type"), kind) {
                extract_item_text(item)
            } else {
                None
            }
        },
    }
}

/// The last wanted text of a thread.
pub fn last_wanted(thread: &Json, w: &Wanted) -> (r: Option<String>)
    ensures
        r.deep_view() == last_in_thread(thread@, |item: JsonV| wanted_text(*w, item)),
{
    let ghost want = |item: JsonV| wanted_text(*w, item);
    let turns = match thread.get("turns") {
        Some(v) => match v.as_array() {
            Some(a) => a,
            None => {
                return None;
            },
        },
        None => {
            return None;
        },
    };
    let ghost all = turns.deep_view();
    let mut n: usize = turns.len();
    while n > 0
        invariant
            n <= turns@.len(),
            all == turns.deep_view(),
            want == (|item: JsonV| wanted_text(*w, item)),
            array_value(member(thread@, "turns"@)) == Some(all),
            last_in_thread(thread@, want) == last_in_turns(all, n as nat, want),
        decreases n,
    {
        assert(all[n - 1] == turns@[n - 1]@);
        match turns[n - 1].get("items") {
            Some(v) => match v.as_array() {
                Some(items) => {
                    let ghost here = items.deep_view();
                    let mut k: usize = items.len();
                    while k > 0
                        invariant
                            k <= items@.len(),
                            here == items.deep_view(),
                            0 < n <= turns@.len(),
                            all == turns.deep_view(),
                            want == (|item: JsonV| wanted_text(*w, item)),
                            array_value(member(all[n - 1], "items"@)) == Some(here),
                            last_in_thread(thread@, want) == last_in_turns(all, n as nat, want),
                            last_in_items(here, here.len(), want) == last_in_items(
                                here,
                                k as nat,
                                want,
                            ),
                        decreases k,
                    {
                        assert(here[k - 1] == items@[k - 1]@);
                        match wanted_text_of(w, &items[k - 1]) {
                            Some(text) => {
                                assert(want(here[k - 1]) == Some(text@));
                                return Some(text);
                            },
                            None => {
                                assert(want(here[k - 1]) is None);
                            },
                        }
                        k -= 1;
                    }
                },
                None => {},
            },
            None => {},
        }
        n -= 1;
    }
    None
}

/// The preview of a thread: the last final answer of the agent, else its last message.
pub open spec fn thread_preview(thread: JsonV) -> Option<Seq<char>> {
    match last_in_thread(thread, |item: JsonV| wanted_text(Wanted::FinalAnswer, item)) {
        Some(text) => Some(text),
        None => last_in_thread(thread, |item: JsonV| wanted_text(Wanted::AgentMessage, item)),
    }
}

/// The preview of a thread: the last final answer of the agent, else its last message.
pub fn last_preview_from_thread(thread: &Json) -> (r: Option<String>)
    ensures
        r.deep_view() == thread_preview(thread@),
{
    match last_wanted(thread, &Wanted::FinalAnswer) {
        Some(text) => Some(text),
        None => last_wanted(thread, &Wanted::AgentMessage),
    }
}

/// The preview that a summary holds.
pub open spec fn summary_preview(summary: JsonV) -> Option<Seq<char>> {
    match text_field(summary, "lastPreview"@) {
        Some(text) => Some(text),
        None => match text_field(summary, "preview"@) {
            Some(text) => Some(text),
            None => text_field(summary, "lastMessage"@),
        },
    }
}

/// The preview that a summary holds.
pub fn last_preview_from_summary(summary: &Json) -> (r: Option<String>)
    ensures
        r.deep_view() == summary_preview(summary@),
{
    match string_field(summary, "lastPreview") {
        Some(text) => Some(text),
        None => match string_field(summary, "preview") {
            Some(text) => Some(text),
            None => string_field(summary, "lastMessage"),
        },
    }
}

/// The last message of a type.
pub open spec fn last_of_type(thread: JsonV, kind: &str) -> Option<Seq<char>> {
    last_in_thread(thread, |item: JsonV| wanted_text(Wanted::OfType(kind), item))
}

/// The last message of a type.
pub fn find_last_message_by_type(thread: &Json, item_type: &str) -> (r: Option<String>)
    ensures
        r.deep_view() == last_of_type(thread@, item_type),
{
    last_wanted(thread, &Wanted::OfType(item_type))
}

/// The last message of the user, where it holds a question mark.
pub open spec fn open_question(thread: JsonV) -> Option<Seq<char>> {
    match last_of_type(thread, "userMessage") {
        Some(text) => if contains_text(text, "?"@) {
            Some(text)
        } else {
            None
        },
        None => None,
    }
}

/// The last message of the user, where it holds a question mark.
pub fn latest_question(thread: &Json) -> (r: Option<String>)
    ensures
        r.deep_view() == open_question(thread@),
{
    match find_last_message_by_type(thread, "userMessage") {
        Some(text) => if contains(text.as_str(), "?") {
            Some(text)
        } else {
            None
        },
        None => None,
    }
}

// ---------------------------------------------------------------------------
// Time stamps of a thread
// ---------------------------------------------------------------------------

/// The time stamp of a turn: when it was done, else changed, else begun.
pub open spec fn turn_stamp(turn: JsonV) -> Option<u64> {
    match uint_value(member(turn, "completedAt"@)) {
        Some(at) => Some(at),
        None => match uint_value(member(turn, "updatedAt"@)) {
            Some(at) => Some(at),
            None => uint_value(member(turn, "startedAt"@)),
        },
    }
}

/// The time stamp of a turn: when it was done, else changed, else begun.
pub fn turn_timestamp(turn: &Json) -> (r: Option<u64>)
    ensures
        r == turn_stamp(turn@),
{
    match turn.get_u64("completedAt") {
        Some(at) => Some(at),
        None => match turn.get_u64("updatedAt") {
            Some(at) => Some(at),
            None => turn.get_u64("startedAt"),
        },
    }
}

/// The greater of two numbers that may be missing.
pub open spec fn greater(a: Option<u64>, b: Option<u64>) -> Option<u64> {
    match (a, b) {
        (Some(x), Some(y)) => if x >= y {
            Some(x)
        } else {
            Some(y)
        },
        (Some(x), None) => Some(x),
        (None, _) => b,
    }
}

/// The greater of two numbers that may be missing.
pub fn greater_of(a: Option<u64>, b: Option<u64>) -> (r: Option<u64>)
    ensures
        r == greater(a, b),
{
    match (a, b) {
        (Some(x), Some(y)) => if x >= y {
            Some(x)
        } else {
            Some(y)
        },
        (Some(x), None) => Some(x),
        (None, _) => b,
    }
}

/// The latest time stamp of the first `n` turns.
pub open spec fn latest_stamp(turns: Seq<JsonV>, n: nat) -> Option<u64>
    decreases n,
{
    if n == 0 || n > turns.len() {
        None
    } else {
        greater(latest_stamp(turns, (n - 1) as nat), turn_stamp(turns[n - 1]))
    }
}

/// The latest time stamp of the turns of a thread.
pub open spec fn thread_stamp(thread: JsonV) -> Option<u64> {
    match array_value(member(thread, "turns"@)) {
        Some(turns) => latest_stamp(turns, turns.len()),
        None => None,
    }
}

/// The latest time stamp of the turns of a thread.
pub fn latest_turn_timestamp(thread: &Json) -> (r: Option<u64>)
    ensures
        r == thread_stamp(thread@),
{
    match thread.get("turns") {
        Some(v) => match v.as_array() {
            Some(turns) => {
                let ghost all = turns.deep_view();
                let mut best: Option<u64> = None;
                let mut i: usize = 0;
                while i < turns.len()
                    invariant
                        i <= turns@.len(),
                        all == turns.deep_view(),
                        best == latest_stamp(all, i as nat),
                    decreases turns@.len() - i,
                {
                    assert(all[i as int] == turns@[i as int]@);
                    best = greater_of(best, turn_timestamp(&turns[i]));
                    i += 1;
                }
                best
            },
            None => None,
        },
        None => None,
    }
}

// ---------------------------------------------------------------------------
// Status flags
// ---------------------------------------------------------------------------

/// One of the flags is `flag`.
pub open spec fn has_flag(flags: Seq<Seq<char>>, flag: Seq<char>) -> bool {
    exists|i: int| 0 <= i < flags.len() && flags[i] == flag
}

/// Tells whether one of the flags is `flag`.
fn contains_flag(flags: &Vec<String>, flag: &str) -> (r: bool)
    ensures
        r == has_flag(flags.deep_view(), flag@),
{
    let ghost all = flags.deep_view();
    let mut i: usize = 0;
    while i < flags.len()
        invariant
            i <= flags@.len(),
            all == flags.deep_view(),
            forall|k: int| 0 <= k < i ==> all[k] != flag@,
        decreases flags@.len() - i,
    {
        assert(all[i as int] == flags@[i as int]@);
        if same(flags[i].as_str(), flag) {
            return true;
        }
        i += 1;
    }
    false
}

/// The thread waits for an approval.
pub open spec fn waits_for_approval(flags: Seq<Seq<char>>) -> bool {
    has_flag(flags, "waitingOnApproval"@)
}

/// The thread waits for input.
pub open spec fn waits_for_input(flags: Seq<Seq<char>>) -> bool {
    has_flag(flags, "waitingOnUserInput"@) || has_flag(flags, "waitingOnInput"@)
}

/// Tells whether the thread waits for an approval.
pub fn status_flags_waiting_for_approval(status_flags: &Vec<String>) -> (r: bool)
    ensures
        r == waits_for_approval(status_flags.deep_view()),
{
    contains_flag(status_flags, "waitingOnApproval")
}

/// Tells whether the thread waits for input.
pub fn status_flags_waiting_for_input(status_flags: &Vec<String>) -> (r: bool)
    ensures
        r == waits_for_input(status_flags.deep_view()),
{
    contains_flag(status_flags, "waitingOnUserInput") || contains_flag(
        status_flags,
        "waitingOnInput",
    )
}

/// The texts among the first `n` values.
pub open spec fn texts_upto(items: Seq<JsonV>, n: nat) -> Seq<Seq<char>>
    decreases n,
{
    if n == 0 || n > items.len() {
        Seq::empty()
    } else {
        let before = texts_upto(items, (n - 1) as nat);
        match text_value(Some(items[n - 1])) {
            Some(text) => before.push(text),
            None => before,
        }
    }
}

/// The flags that a thread object names, where it names any.
pub open spec fn named_flags(thread: JsonV) -> Option<Seq<Seq<char>>> {
    match array_value(opt_member(member(thread, "status"@), "activeFlags"@)) {
        Some(items) => Some(texts_upto(items, items.len())),
        None => None,
    }
}

/// The flags that a thread object names, where it names any.
fn active_flags(thread: &Json) -> (r: Option<Vec<String>>)
    ensures
        r.deep_view() == named_flags(thread@),
{
    let items = match thread.get("status") {
        Some(status) => match status.get("activeFlags") {
            Some(v) => match v.as_array() {
                Some(a) => a,
                None => {
                    return None;
                },
            },
            None => {
                return None;
            },
        },
        None => {
            return None;
        },
    };
    let ghost all = items.deep_view();
    let mut out: Vec<String> = Vec::new();
    let mut i: usize = 0;
    assert(out.deep_view() =~= Seq::<Seq<char>>::empty());
    while i < items.len()
        invariant
            i <= items@.len(),
            all == items.deep_view(),
            out.deep_view() == texts_upto(all, i as nat),
        decreases items@.len() - i,
    {
        assert(all[i as int] == items@[i as int]@);
        match items[i].as_str() {
            Some(text) => {
                let ghost before = out.deep_view();
                out.push(text.to_owned());
                assert(out.deep_view() =~= before.push(text@));
            },
            None => {},
        }
        i += 1;
    }
    Some(out)
}

/// The thread object shows that it waits for the user.
pub open spec fn flags_are_waiting(thread: JsonV) -> bool {
    match named_flags(thread) {
        Some(flags) => waits_for_approval(flags) || waits_for_input(flags),
        None => false,
    }
}

/// Tells whether the thread object shows that it waits for the user.
pub fn active_flags_are_waiting(thread: &Json) -> (r: bool)
    ensures
        r == flags_are_waiting(thread@),
{
    match active_flags(thread) {
        Some(flags) => status_flags_waiting_for_approval(&flags) || status_flags_waiting_for_input(
            &flags,
        ),
        None => false,
    }
}

/// The prompt that the flags stand for. An approval goes before input.
pub open spec fn derived_prompt(
    thread_id: Seq<char>,
    flags: Seq<Seq<char>>,
    last_preview: Option<Seq<char>>,
) -> Option<PendingPromptV> {
    if waits_for_approval(flags) {
        Some(
            PendingPromptV {
                prompt_id: "approval:"@ + thread_id,
                kind: "approval"@,
                status: "Needs approval"@,
                question: match last_preview {
                    Some(t) => Some(t),
                    None => Some("Approval required"@),
                },
            },
        )
    } else if waits_for_input(flags) {
        Some(
            PendingPromptV {
                prompt_id: "reply:"@ + thread_id,
                kind: "reply"@,
                status: "Needs input"@,
                question: match last_preview {
                    Some(t) => Some(t),
                    None => Some("Input required"@),
                },
            },
        )
    } else {
        None
    }
}

/// The prompt that the flags stand for.
pub fn derive_pending_prompt(
    thread_id: &str,
    status_flags: &Vec<String>,
    last_preview: Option<String>,
) -> (r: Option<PendingPrompt>)
    ensures
        r.deep_view() == derived_prompt(
            thread_id@,
            status_flags.deep_view(),
            last_preview.deep_view(),
        ),
{
    if status_flags_waiting_for_approval(status_flags) {
        let question: Option<String> = match last_preview {
            Some(t) => Some(t),
            None => Some("Approval required".to_owned()),
        };
        Some(
            PendingPrompt {
                prompt_id: cat("approval:", thread_id),
                kind: "approval".to_owned(),
                status: "Needs approval".to_owned(),
                question,
            },
        )
    } else if status_flags_waiting_for_input(status_flags) {
        let question: Option<String> = match last_preview {
            Some(t) => Some(t),
            None => Some("Input required".to_owned()),
        };
        Some(
            PendingPrompt {
                prompt_id: cat("reply:", thread_id),
                kind: "reply".to_owned(),
                status: "Needs input".to_owned(),
                question,
            },
        )
    } else {
        None
    }
}

/// A prompt is derived exactly when a flag says that the thread waits.
pub proof fn prompts_follow_the_flags(
    thread_id: Seq<char>,
    flags: Seq<Seq<char>>,
    last_preview: Option<Seq<char>>,
)
    ensures
        derived_prompt(thread_id, flags, last_preview) is Some <==> waits_for_approval(flags)
            || waits_for_input(flags),
        waits_for_approval(flags) ==> derived_prompt(thread_id, flags, last_preview)->0.kind
            == "approval"@,
{
}

// ---------------------------------------------------------------------------
// Snapshots
// ---------------------------------------------------------------------------

/// The member `key` of the thread, else of its summary.
pub open spec fn either_text(thread: JsonV, summary: JsonV, key: Seq<char>) -> Option<Seq<char>> {
    match text_member(thread, key) {
        Some(t) => Some(t),
        None => text_member(summary, key),
    }
}

/// The member `key` of the thread, else of its summary.
fn text_of_either(thread: &Json, summary: &Json, key: &str) -> (r: Option<String>)
    ensures
        r.deep_view() == either_text(thread@, summary@, key@),
{
    match thread.text_of_member(key) {
        Some(t) => Some(t),
        None => summary.text_of_member(key),
    }
}

/// The status of the last turn.
pub open spec fn last_turn_status(thread: JsonV) -> Option<Seq<char>> {
    match array_value(member(thread, "turns"@)) {
        Some(turns) => if turns.len() > 0 {
            text_member(turns.last(), "status"@)
        } else {
            None
        },
        None => None,
    }
}

/// The status of the last turn.
pub fn status_of_last_turn(thread: &Json) -> (r: Option<String>)
    ensures
        r.deep_view() == last_turn_status(thread@),
{
    match thread.get("turns") {
        Some(v) => match v.as_array() {
            Some(turns) => if turns.len() > 0 {
                assert(turns.deep_view().last() == turns@[turns@.len() - 1]@);
                turns[turns.len() - 1].text_of_member("status")
            } else {
                None
            },
            None => None,
        },
        None => None,
    }
}

/// The type of the status of a thread object.
pub open spec fn status_type(thread: JsonV) -> Option<Seq<char>> {
    text_value(opt_member(member(thread, "status"@), "type"@))
}

/// The type of the status of a thread object.
fn type_of_status(thread: &Json) -> (r: Option<String>)
    ensures
        r.deep_view() == status_type(thread@),
{
    match thread.get("status") {
        Some(status) => status.text_of_member("type"),
        None => None,
    }
}

/// A thread as the server tells of it, with its summary to fill gaps. A thread
/// without an id is refused.
pub open spec fn snapshot_of(summary: JsonV, thread: JsonV) -> Result<
    BridgeThreadSnapshotV,
    BridgeErrorV,
> {
    let id = match member(thread, "id"@) {
        Some(v) => text_value(Some(v)),
        None => text_member(summary, "id"@),
    };
    match id {
        None => Err(failure("thread id missing"@)),
        Some(thread_id) => {
            let stamped = match uint_value(member(thread, "updatedAt"@)) {
                Some(at) => Some(at),
                None => uint_value(member(summary, "updatedAt"@)),
            };
            let flags = match named_flags(thread) {
                Some(f) => f,
                None => match named_flags(summary) {
                    Some(f) => f,
                    None => Seq::empty(),
                },
            };
            let shown = match thread_preview(thread) {
                Some(t) => Some(t),
                None => summary_preview(summary),
            };
            Ok(
                BridgeThreadSnapshotV {
                    thread_id,
                    name: either_text(thread, summary, "name"@),
                    cwd: either_text(thread, summary, "cwd"@),
                    updated_at: greater(stamped, thread_stamp(thread)),
                    status_type: match status_type(thread) {
                        Some(t) => t,
                        None => match status_type(summary) {
                            Some(t) => t,
                            None => "unknown"@,
                        },
                    },
                    status_flags: flags,
                    last_turn_status: match last_turn_status(thread) {
                        Some(t) => Some(t),
                        None => text_field(summary, "lastTurnStatus"@),
                    },
                    last_preview: shown,
                    pending_prompt: derived_prompt(thread_id, flags, shown),
                },
            )
        },
    }
}

/// A thread as the server tells of it, with its summary to fill gaps.
pub fn normalize_thread_snapshot(summary: &Json, thread: &Json) -> (r: Result<
    BridgeThreadSnapshot,
    BridgeError,
>)
    ensures
        outcome(r) == snapshot_of(summary@, thread@),
{
    let id: Option<String> = match thread.get("id") {
        Some(v) => own_opt(v.as_str()),
        None => summary.text_of_member("id"),
    };
    let thread_id: String = match id {
        Some(v) => v,
        None => {
            return Err(BridgeError::new("thread id missing"));
        },
    };
    let stamped: Option<u64> = match thread.get_u64("updatedAt") {
        Some(at) => Some(at),
        None => summary.get_u64("updatedAt"),
    };
    let kind: String = match type_of_status(thread) {
        Some(t) => t,
        None => match type_of_status(summary) {
            Some(t) => t,
            None => "unknown".to_owned(),
        },
    };
    let flags: Vec<String> = match active_flags(thread) {
        Some(f) => f,
        None => match active_flags(summary) {
            Some(f) => f,
            None => {
                let none: Vec<String> = Vec::new();
                assert(none.deep_view() =~= Seq::<Seq<char>>::empty());
                none
            },
        },
    };
    let turn_status: Option<String> = match status_of_last_turn(thread) {
        Some(t) => Some(t),
        None => string_field(summary, "lastTurnStatus"),
    };
    let shown: Option<String> = match last_preview_from_thread(thread) {
        Some(t) => Some(t),
        None => last_preview_from_summary(summary),
    };
    let pending_prompt = derive_pending_prompt(thread_id.as_str(), &flags, copy_opt(&shown));
    Ok(
        BridgeThreadSnapshot {
            thread_id,
            name: text_of_either(thread, summary, "name"),
            cwd: text_of_either(thread, summary, "cwd"),
            updated_at: greater_of(stamped, latest_turn_timestamp(thread)),
            status_type: kind,
            status_flags: flags,
            last_turn_status: turn_status,
            last_preview: shown,
            pending_prompt,
        },
    )
}

/// A snapshot never loses a change: it is at least as late as every turn of the thread.
pub proof fn snapshots_are_as_late_as_their_turns(summary: JsonV, thread: JsonV, i: int)
    requires
        snapshot_of(summary, thread) is Ok,
        array_value(member(thread, "turns"@)) is Some,
        0 <= i < array_value(member(thread, "turns"@))->0.len(),
        turn_stamp(array_value(member(thread, "turns"@))->0[i]) is Some,
    ensures
        snapshot_of(summary, thread)->Ok_0.updated_at is Some,
        snapshot_of(summary, thread)->Ok_0.updated_at->0 >= turn_stamp(
            array_value(member(thread, "turns"@))->0[i],
        )->0,
{
    let turns = array_value(member(thread, "turns"@))->0;
    lemma_latest_stamp(turns, turns.len(), i);
}

proof fn lemma_latest_stamp(turns: Seq<JsonV>, n: nat, i: int)
    requires
        0 <= i < n <= turns.len(),
        turn_stamp(turns[i]) is Some,
    ensures
        latest_stamp(turns, n) is Some,
        latest_stamp(turns, n)->0 >= turn_stamp(turns[i])->0,
    decreases n,
{
    if i < n - 1 {
        lemma_latest_stamp(turns, (n - 1) as nat, i);
    }
}

// ---------------------------------------------------------------------------
// Showing a thread
// ---------------------------------------------------------------------------

/// The prompt of a thread that is shown.
pub open spec fn shown_prompt(flags: Seq<Seq<char>>) -> Option<JsonV> {
    if waits_for_approval(flags) {
        Some(
            JsonV::Object(
                Seq::empty()
                    .push(("kind"@, JsonV::Str("approval"@)))
                    .push(("promptStatus"@, JsonV::Str("Needs approval"@))),
            ),
        )
    } else if waits_for_input(flags) {
        Some(
            JsonV::Object(
                Seq::empty()
                    .push(("kind"@, JsonV::Str("reply"@)))
                    .push(("promptStatus"@, JsonV::Str("Needs input"@))),
            ),
        )
    } else {
        None
    }
}

/// The prompt of a thread that is shown.
pub fn show_pending_prompt(status_flags: &Vec<String>) -> (r: Option<Json>)
    ensures
        r.deep_view() == shown_prompt(status_flags.deep_view()),
{
    if status_flags_waiting_for_approval(status_flags) {
        Some(
            Object::new().with("kind", Json::text("approval")).with(
                "promptStatus",
                Json::text("Needs approval"),
            ).done(),
        )
    } else if status_flags_waiting_for_input(status_flags) {
        Some(
            Object::new().with("kind", Json::text("reply")).with(
                "promptStatus",
                Json::text("Needs input"),
            ).done(),
        )
    } else {
        None
    }
}

/// What changed in a thread, in one line.
pub open spec fn delta_summary(
    prompt: Option<JsonV>,
    turn_status: Option<Seq<char>>,
    agent_message: Option<Seq<char>>,
) -> Option<Seq<char>> {
    let suffix = match agent_message {
        Some(m) => if non_blank(Some(m)) is Some {
            " · Last agent update: "@ + m
        } else {
            Seq::empty()
        },
        None => Seq::empty(),
    };
    match prompt {
        Some(p) => Some(
            (match text_member(p, "promptStatus"@) {
                Some(t) => t,
                None => "Needs input"@,
            }) + suffix,
        ),
        None => match turn_status {
            Some(t) => Some("Last turn status: "@ + t + suffix),
            None => agent_message,
        },
    }
}

/// What changed in a thread, in one line.
pub fn build_delta_summary(
    pending_prompt: Option<&Json>,
    last_turn_status: Option<&str>,
    last_agent_message: Option<&str>,
) -> (r: Option<String>)
    ensures
        r.deep_view() == delta_summary(
            pending_prompt.deep_view(),
            last_turn_status.deep_view(),
            last_agent_message.deep_view(),
        ),
{
    let suffix: String = match last_agent_message {
        Some(m) => if trimmed_non_blank(Some(m)).is_some() {
            cat(" · Last agent update: ", m)
        } else {
            String::new()
        },
        None => String::new(),
    };
    match pending_prompt {
        Some(p) => {
            let status: String = match p.text_of_member("promptStatus") {
                Some(t) => t,
                None => "Needs input".to_owned(),
            };
            Some(cat(status.as_str(), suffix.as_str()))
        },
        None => match last_turn_status {
            Some(t) => Some(cat3("Last turn status: ", t, suffix.as_str())),
            None => own_opt(last_agent_message),
        },
    }
}

/// What is still open in a thread, in one line.
pub open spec fn unresolved_summary(
    prompt: Option<JsonV>,
    question: Option<Seq<char>>,
    user_message: Option<Seq<char>>,
) -> Option<Seq<char>> {
    let kind = text_value(opt_member(prompt, "kind"@));
    if kind == Some("approval"@) {
        Some("Approval is still pending."@)
    } else if question is Some {
        Some("Latest unresolved question: "@ + question->0)
    } else if kind == Some("reply"@) && user_message is Some {
        Some("Reply still needed: "@ + user_message->0)
    } else {
        None
    }
}

/// The kind of a prompt.
fn prompt_kind(prompt: Option<&Json>) -> (r: Option<String>)
    ensures
        r.deep_view() == text_value(opt_member(prompt.deep_view(), "kind"@)),
{
    match prompt {
        Some(p) => p.text_of_member("kind"),
        None => None,
    }
}

/// What is still open in a thread, in one line.
pub fn build_unresolved_summary(
    pending_prompt: Option<&Json>,
    latest_question: Option<&str>,
    last_user_message: Option<&str>,
) -> (r: Option<String>)
    ensures
        r.deep_view() == unresolved_summary(
            pending_prompt.deep_view(),
            latest_question.deep_view(),
            last_user_message.deep_view(),
        ),
{
    let kind = prompt_kind(pending_prompt);
    if opt_is(&kind, "approval") {
        return Some("Approval is still pending.".to_owned());
    }
    match latest_question {
        Some(q) => {
            return Some(cat("Latest unresolved question: ", q));
        },
        None => {},
    }
    if opt_is(&kind, "reply") {
        match last_user_message {
            Some(m) => Some(cat("Reply still needed: ", m)),
            None => None,
        }
    } else {
        None
    }
}

/// The thread object of a response: its member `thread`, else the response itself.
pub open spec fn thread_in(response: JsonV) -> JsonV {
    match member(response, "thread"@) {
        Some(thread) => thread,
        None => response,
    }
}

/// The flags of a thread object, or none.
pub open spec fn flags_or_none(thread: JsonV) -> Seq<Seq<char>> {
    match named_flags(thread) {
        Some(f) => f,
        None => Seq::empty(),
    }
}

/// A thread with all that the bridge derives from it.
pub open spec fn shown_thread(
    requested: Seq<char>,
    response: JsonV,
    recent: Seq<JsonV>,
) -> JsonV {
    let thread = thread_in(response);
    let thread_id = shown_thread_id(requested, response);
    let name = text_member(thread, "name"@);
    let cwd = text_member(thread, "cwd"@);
    let project = project_label(cwd);
    let flags = flags_or_none(thread);
    let turn_status = last_turn_status(thread);
    let agent_message = last_of_type(thread, "agentMessage");
    let user_message = last_of_type(thread, "userMessage");
    let question = open_question(thread);
    let prompt = shown_prompt(flags);
    let can_approve = text_value(opt_member(prompt, "kind"@)) == Some("approval"@);
    let can_reply = text_value(opt_member(prompt, "kind"@)) == Some("reply"@) || !can_approve;
    JsonV::Object(
        Seq::empty()
            .push(
                ("thread"@, JsonV::Object(
                    Seq::empty()
                        .push(("threadId"@, JsonV::Str(thread_id)))
                        .push(("name"@, text_or_null(name)))
                        .push(
                            ("displayName"@, JsonV::Str(
                                display_name(
                                    name,
                                    project,
                                    match question {
                                        Some(q) => Some(q),
                                        None => user_message,
                                    },
                                    thread_id,
                                ),
                            )),
                        )
                        .push(("project"@, text_or_null(project)))
                        .push(("cwd"@, text_or_null(cwd)))
                        .push(
                            ("statusType"@, JsonV::Str(
                                match status_type(thread) {
                                    Some(t) => t,
                                    None => "unknown"@,
                                },
                            )),
                        )
                        .push(("statusFlags"@, text_array(flags)))
                        .push(("pendingPrompt"@, or_null(prompt)))
                        .push(("canReply"@, JsonV::Bool(can_reply)))
                        .push(("canApprove"@, JsonV::Bool(can_approve)))
                        .push(("isWaiting"@, JsonV::Bool(prompt is Some)))
                        .push(("isCompleted"@, JsonV::Bool(turn_status == Some("completed"@))))
                        .push(("lastTurnStatus"@, text_or_null(turn_status)))
                        .push(("lastAgentMessage"@, text_or_null(agent_message)))
                        .push(("lastUserMessage"@, text_or_null(user_message)))
                        .push(("latestQuestion"@, text_or_null(question)))
                        .push(
                            ("deltaSummary"@, text_or_null(
                                delta_summary(prompt, turn_status, agent_message),
                            )),
                        )
                        .push(
                            ("unresolvedSummary"@, text_or_null(
                                unresolved_summary(prompt, question, user_message),
                            )),
                        )
                        .push(("recentActions"@, JsonV::Array(recent)))
                        .push(
                            ("turns"@, match array_value(member(thread, "turns"@)) {
                                Some(turns) => JsonV::Array(turns),
                                None => JsonV::Array(Seq::empty()),
                            }),
                        ),
                )),
            ),
    )
}

/// The id of the thread that is shown.
pub open spec fn shown_thread_id(requested: Seq<char>, response: JsonV) -> Seq<char> {
    match text_member(thread_in(response), "id"@) {
        Some(id) => id,
        None => requested,
    }
}

/// The result of showing a thread, with its recent actions where the state is at hand.
pub open spec fn shown_result(
    st: Option<BridgeStateV>,
    requested: Seq<char>,
    response: JsonV,
) -> Result<JsonV, BridgeErrorV> {
    match st {
        None => Ok(shown_thread(requested, response, Seq::empty())),
        Some(state) => match recent_actions(state, shown_thread_id(requested, response), 5) {
            Ok(recent) => Ok(shown_thread(requested, response, recent)),
            Err(e) => Err(e),
        },
    }
}

/// The state, where it is at hand.
pub open spec fn state_at_hand(state: Option<&BridgeState>) -> Option<BridgeStateV> {
    match state {
        Some(s) => Some(s@),
        None => None,
    }
}

/// Shows a thread with all that the bridge derives from it.
#[verifier::rlimit(40)]
pub fn build_show_thread_result(
    state: Option<&BridgeState>,
    requested_thread_id: &str,
    response: &Json,
) -> (r: Result<Json, BridgeError>)
    ensures
        outcome(r) == shown_result(state_at_hand(state), requested_thread_id@, response@),
{
    let thread: &Json = match response.get("thread") {
        Some(v) => v,
        None => response,
    };
    let thread_id: String = match thread.text_of_member("id") {
        Some(id) => id,
        None => requested_thread_id.to_owned(),
    };
    let recent: Vec<Json> = match state {
        Some(s) => match recent_actions_json(s, thread_id.as_str(), 5) {
            Ok(v) => v,
            Err(e) => {
                return Err(e);
            },
        },
        None => {
            let none: Vec<Json> = Vec::new();
            assert(none.deep_view() =~= Seq::<JsonV>::empty());
            none
        },
    };
    let name = thread.text_of_member("name");
    let cwd = thread.text_of_member("cwd");
    let project = derive_project_label(borrow_opt(&cwd));
    let kind: String = match type_of_status(thread) {
        Some(t) => t,
        None => "unknown".to_owned(),
    };
    let flags: Vec<String> = match active_flags(thread) {
        Some(f) => f,
        None => {
            let none: Vec<String> = Vec::new();
            assert(none.deep_view() =~= Seq::<Seq<char>>::empty());
            none
        },
    };
    let turns: Json = match thread.get("turns") {
        Some(v) => match v.as_array() {
            Some(_) => v.clone(),
            None => Json::empty_array(),
        },
        None => Json::empty_array(),
    };
    let turn_status = status_of_last_turn(thread);
    let agent_message = find_last_message_by_type(thread, "agentMessage");
    let user_message = find_last_message_by_type(thread, "userMessage");
    let question = latest_question(thread);
    let prompt = show_pending_prompt(&flags);
    let asked = prompt_kind(prompt.as_ref());
    let can_approve: bool = opt_is(&asked, "approval");
    let can_reply: bool = opt_is(&asked, "reply") || !can_approve;
    let is_waiting: bool = prompt.is_some();
    let is_completed: bool = opt_is(&turn_status, "completed");
    let topic: Option<&str> = match &question {
        Some(q) => Some(q.as_str()),
        None => borrow_opt(&user_message),
    };
    let shown = derive_thread_display_name(
        borrow_opt(&name),
        borrow_opt(&project),
        topic,
        thread_id.as_str(),
    );
    let delta = build_delta_summary(
        prompt.as_ref(),
        borrow_opt(&turn_status),
        borrow_opt(&agent_message),
    );
    let unresolved = build_unresolved_summary(
        prompt.as_ref(),
        borrow_opt(&question),
        borrow_opt(&user_message),
    );
    let body = Object::new().with("threadId", Json::Str(thread_id)).with(
        "name",
        Json::opt_text(&name),
    ).with("displayName", Json::Str(shown)).with("project", Json::opt_text(&project)).with(
        "cwd",
        Json::opt_text(&cwd),
    ).with("statusType", Json::Str(kind)).with("statusFlags", Json::texts(&flags)).with(
        "pendingPrompt",
        Json::opt(prompt),
    ).with("canReply", Json::Bool(can_reply)).with("canApprove", Json::Bool(can_approve)).with(
        "isWaiting",
        Json::Bool(is_waiting),
    ).with("isCompleted", Json::Bool(is_completed)).with(
        "lastTurnStatus",
        Json::opt_text(&turn_status),
    ).with("lastAgentMessage", Json::opt_text(&agent_message)).with(
        "lastUserMessage",
        Json::opt_text(&user_message),
    ).with("latestQuestion", Json::opt_text(&question)).with(
        "deltaSummary",
        Json::opt_text(&delta),
    ).with("unresolvedSummary", Json::opt_text(&unresolved)).with(
        "recentActions",
        Json::array(recent),
    ).with("turns", turns).done();
    Ok(Object::new().with("thread", body).done())
}

} // verus!
