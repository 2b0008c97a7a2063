//! Threads as the bridge knows them, and how a thread is classified for the inbox.
use vstd::prelude::*;
use vstd::string::*;

use crate::json::{Json, JsonV};
use crate::text::{
    borrow_opt, cat, cat3, chars_of, copy_opt, copy_texts, join, joined, last_non_space, non_blank,
    opt_is, same, split_words, text_of, trim_end, trimmed_non_blank, words,
};

verus! {

/// A prompt that waits for the user.
#[derive(Debug, PartialEq, Eq)]
pub struct PendingPrompt {
    pub prompt_id: String,
    pub kind: String,
    pub status: String,
    pub question: Option<String>,
}

/// The model of [`PendingPrompt`].
#[verifier::ext_equal]
pub struct PendingPromptV {
    pub prompt_id: Seq<char>,
    pub kind: Seq<char>,
    pub status: Seq<char>,
    pub question: Option<Seq<char>>,
}

impl View for PendingPrompt {
    type V = PendingPromptV;

    open spec fn view(&self) -> PendingPromptV {
        PendingPromptV {
            prompt_id: self.prompt_id@,
            kind: self.kind@,
            status: self.status@,
            question: self.question.deep_view(),
        }
    }
}

impl DeepView for PendingPrompt {
    type V = PendingPromptV;

    open spec fn deep_view(&self) -> PendingPromptV {
        self@
    }
}

impl Clone for PendingPrompt {
    fn clone(&self) -> (r: PendingPrompt)
        ensures
            r@ == self@,
    {
        PendingPrompt {
            prompt_id: self.prompt_id.clone(),
            kind: self.kind.clone(),
            status: self.status.clone(),
            question: copy_opt(&self.question),
        }
    }
}

/// One thread at one moment.
#[derive(Debug, PartialEq, Eq)]
pub struct BridgeThreadSnapshot {
    pub thread_id: String,
    pub name: Option<String>,
    pub cwd: Option<String>,
    pub updated_at: Option<u64>,
    pub status_type: String,
    pub status_flags: Vec<String>,
    pub last_turn_status: Option<String>,
    pub last_preview: Option<String>,
    pub pending_prompt: Option<PendingPrompt>,
}

/// The model of [`BridgeThreadSnapshot`].
#[verifier::ext_equal]
pub struct BridgeThreadSnapshotV {
    pub thread_id: Seq<char>,
    pub name: Option<Seq<char>>,
    pub cwd: Option<Seq<char>>,
    pub updated_at: Option<u64>,
    pub status_type: Seq<char>,
    pub status_flags: Seq<Seq<char>>,
    pub last_turn_status: Option<Seq<char>>,
    pub last_preview: Option<Seq<char>>,
    pub pending_prompt: Option<PendingPromptV>,
}

impl View for BridgeThreadSnapshot {
    type V = BridgeThreadSnapshotV;

    open spec fn view(&self) -> BridgeThreadSnapshotV {
        BridgeThreadSnapshotV {
            thread_id: self.thread_id@,
            name: self.name.deep_view(),
            cwd: self.cwd.deep_view(),
            updated_at: self.updated_at,
            status_type: self.status_type@,
            status_flags: self.status_flags.deep_view(),
            last_turn_status: self.last_turn_status.deep_view(),
            last_preview: self.last_preview.deep_view(),
            pending_prompt: self.pending_prompt.deep_view(),
        }
    }
}

impl DeepView for BridgeThreadSnapshot {
    type V = BridgeThreadSnapshotV;

    open spec fn deep_view(&self) -> BridgeThreadSnapshotV {
        self@
    }
}

impl Clone for BridgeThreadSnapshot {
    fn clone(&self) -> (r: BridgeThreadSnapshot)
        ensures
            r@ == self@,
    {
        BridgeThreadSnapshot {
            thread_id: self.thread_id.clone(),
            name: copy_opt(&self.name),
            cwd: copy_opt(&self.cwd),
            updated_at: self.updated_at,
            status_type: self.status_type.clone(),
            status_flags: copy_texts(&self.status_flags),
            last_turn_status: copy_opt(&self.last_turn_status),
            last_preview: copy_opt(&self.last_preview),
            pending_prompt: match &self.pending_prompt {
                Some(v) => Some(v.clone()),
                None => None,
            },
        }
    }
}

/// One row of the inbox.
#[derive(Debug, PartialEq, Eq)]
pub struct InboxItem {
    pub thread_id: String,
    pub name: Option<String>,
    pub display_name: String,
    pub project: Option<String>,
    pub cwd: Option<String>,
    pub updated_at: Option<u64>,
    pub last_seen_at: Option<u64>,
    pub age_seconds: Option<u64>,
    pub status_type: String,
    pub status_flags: Vec<String>,
    pub last_preview: Option<String>,
    pub prompt_kind: Option<String>,
    pub prompt_status: Option<String>,
    pub question: Option<String>,
    pub basis: String,
    pub attention_reason: String,
    pub waiting_on: String,
    pub suggested_action: String,
    pub priority: String,
    pub recent_action: Option<Json>,
    pub label: String,
}

/// The model of [`InboxItem`].
#[verifier::ext_equal]
pub struct InboxItemV {
    pub thread_id: Seq<char>,
    pub name: Option<Seq<char>>,
    pub display_name: Seq<char>,
    pub project: Option<Seq<char>>,
    pub cwd: Option<Seq<char>>,
    pub updated_at: Option<u64>,
    pub last_seen_at: Option<u64>,
    pub age_seconds: Option<u64>,
    pub status_type: Seq<char>,
    pub status_flags: Seq<Seq<char>>,
    pub last_preview: Option<Seq<char>>,
    pub prompt_kind: Option<Seq<char>>,
    pub prompt_status: Option<Seq<char>>,
    pub question: Option<Seq<char>>,
    pub basis: Seq<char>,
    pub attention_reason: Seq<char>,
    pub waiting_on: Seq<char>,
    pub suggested_action: Seq<char>,
    pub priority: Seq<char>,
    pub recent_action: Option<JsonV>,
    pub label: Seq<char>,
}

impl View for InboxItem {
    type V = InboxItemV;

    open spec fn view(&self) -> InboxItemV {
        InboxItemV {
            thread_id: self.thread_id@,
            name: self.name.deep_view(),
            display_name: self.display_name@,
            project: self.project.deep_view(),
            cwd: self.cwd.deep_view(),
            updated_at: self.updated_at,
            last_seen_at: self.last_seen_at,
            age_seconds: self.age_seconds,
            status_type: self.status_type@,
            status_flags: self.status_flags.deep_view(),
            last_preview: self.last_preview.deep_view(),
            prompt_kind: self.prompt_kind.deep_view(),
            prompt_status: self.prompt_status.deep_view(),
            question: self.question.deep_view(),
            basis: self.basis@,
            attention_reason: self.attention_reason@,
            waiting_on: self.waiting_on@,
            suggested_action: self.suggested_action@,
            priority: self.priority@,
            recent_action: self.recent_action.deep_view(),
            label: self.label@,
        }
    }
}

impl DeepView for InboxItem {
    type V = InboxItemV;

    open spec fn deep_view(&self) -> InboxItemV {
        self@
    }
}

// ---------------------------------------------------------------------------
// Time stamps
// ---------------------------------------------------------------------------

/// Time stamps below this value are seconds, the others milliseconds.
pub const UNIX_TIMESTAMP_MILLIS_THRESHOLD: u64 = 100_000_000_000;

/// A time stamp in milliseconds, whatever its unit was.
pub open spec fn millis(value: u64) -> u64 {
    if value < UNIX_TIMESTAMP_MILLIS_THRESHOLD {
        (value * 1000) as u64
    } else {
        value
    }
}

/// A time stamp in milliseconds, whatever its unit was.
pub fn timestamp_to_millis(value: u64) -> (r: u64)
    ensures
        r == millis(value),
{
    if value < UNIX_TIMESTAMP_MILLIS_THRESHOLD {
        value * 1000
    } else {
        value
    }
}

/// The whole seconds from `then` to `now`; zero where `then` is not earlier.
pub open spec fn age_seconds(now: u64, then: u64) -> u64 {
    if millis(now) >= millis(then) {
        ((millis(now) - millis(then)) / 1000) as u64
    } else {
        0
    }
}

/// The whole seconds from `then` to `now`.
pub fn timestamp_age_seconds(now: u64, then: u64) -> (r: u64)
    ensures
        r == age_seconds(now, then),
{
    timestamp_to_millis(now).saturating_sub(timestamp_to_millis(then)) / 1000
}

/// An event belongs to the away window when nothing limits the window, or when
/// the thread changed at or after its start.
pub open spec fn in_away_window(away_started_at: Option<u64>, updated_at: Option<u64>) -> bool {
    match away_started_at {
        None => true,
        Some(started) => match updated_at {
            Some(value) => millis(value) >= millis(started),
            None => false,
        },
    }
}

/// Tells whether a change belongs to the away window.
pub fn should_emit_for_away_window(away_started_at: Option<u64>, updated_at: Option<u64>) -> (r:
    bool)
    ensures
        r == in_away_window(away_started_at, updated_at),
{
    match away_started_at {
        None => true,
        Some(started) => match updated_at {
            Some(value) => timestamp_to_millis(value) >= timestamp_to_millis(started),
            None => false,
        },
    }
}

/// Within one unit, a later time stamp never has a greater age.
pub proof fn age_shrinks_with_later_stamps(now: u64, earlier: u64, later: u64)
    requires
        earlier <= later,
        later < UNIX_TIMESTAMP_MILLIS_THRESHOLD || earlier >= UNIX_TIMESTAMP_MILLIS_THRESHOLD,
    ensures
        age_seconds(now, later) <= age_seconds(now, earlier),
{
}

/// The away window is closed upwards: a change later than one that belongs to
/// it belongs to it too, as long as both stamps have one unit.
pub proof fn away_window_is_upward_closed(started: Option<u64>, earlier: u64, later: u64)
    requires
        earlier <= later,
        later < UNIX_TIMESTAMP_MILLIS_THRESHOLD || earlier >= UNIX_TIMESTAMP_MILLIS_THRESHOLD,
        in_away_window(started, Some(earlier)),
    ensures
        in_away_window(started, Some(later)),
{
}

// ---------------------------------------------------------------------------
// Previews and names
// ---------------------------------------------------------------------------

/// White space collapsed to single spaces.
pub open spec fn collapsed(s: Seq<char>) -> Seq<char> {
    joined(words(s), " "@)
}

/// A preview of a text: white space collapsed, at most `limit` characters and
/// then an ellipsis; nothing for a blank text.
pub open spec fn preview(input: Option<Seq<char>>, limit: nat) -> Option<Seq<char>> {
    match input {
        None => None,
        Some(s) => {
            let text = collapsed(s);
            if text.len() == 0 {
                None
            } else if text.len() <= limit {
                Some(text)
            } else {
                Some(trim_end(text.subrange(0, limit as int)) + "…"@)
            }
        },
    }
}

/// The first `limit` characters of a text, or the text where it is shorter.
pub open spec fn first_chars(s: Seq<char>, limit: nat) -> Seq<char> {
    if s.len() <= limit {
        s
    } else {
        s.subrange(0, limit as int)
    }
}

/// The preview of a text.
pub fn compact_text_preview(input: Option<&str>, limit: usize) -> (r: Option<String>)
    ensures
        r.deep_view() == preview(input.deep_view(), limit as nat),
{
    match input {
        None => None,
        Some(s) => {
            let parts = split_words(s);
            let text = join(&parts, " ");
            if text.as_str().is_empty() {
                return None;
            }
            let v = chars_of(text.as_str());
            if v.len() <= limit {
                return Some(text);
            }
            let end: usize = last_non_space(&v, 0, limit);
            Some(cat(text_of(&v, 0, end).as_str(), "…"))
        },
    }
}

/// The name that a thread is shown under.
pub open spec fn display_name(
    name: Option<Seq<char>>,
    project: Option<Seq<char>>,
    question: Option<Seq<char>>,
    thread_id: Seq<char>,
) -> Seq<char> {
    match non_blank(name) {
        Some(value) => value,
        None => match non_blank(question) {
            Some(value) => match preview(Some(value), 80) {
                Some(short) => short,
                None => value,
            },
            None => match project {
                Some(label) => if label.len() > 0 {
                    "Untitled "@ + label + " thread"@
                } else {
                    "Untitled thread "@ + first_chars(thread_id, 8)
                },
                None => "Untitled thread "@ + first_chars(thread_id, 8),
            },
        },
    }
}

/// The name of a thread that has neither a name nor a question nor a project.
fn untitled(thread_id: &str) -> (r: String)
    ensures
        r@ == "Untitled thread "@ + first_chars(thread_id@, 8),
{
    let v = chars_of(thread_id);
    let n: usize = if v.len() <= 8 {
        v.len()
    } else {
        8
    };
    assert(v@.subrange(0, v@.len() as int) =~= v@);
    cat("Untitled thread ", text_of(&v, 0, n).as_str())
}

/// The name that a thread is shown under.
pub fn derive_thread_display_name(
    name: Option<&str>,
    project: Option<&str>,
    question: Option<&str>,
    thread_id: &str,
) -> (r: String)
    ensures
        r@ == display_name(
            name.deep_view(),
            project.deep_view(),
            question.deep_view(),
            thread_id@,
        ),
{
    match trimmed_non_blank(name) {
        Some(value) => return value,
        None => {},
    }
    match trimmed_non_blank(question) {
        Some(value) => {
            return match compact_text_preview(Some(value.as_str()), 80) {
                Some(short) => short,
                None => value,
            };
        },
        None => {},
    }
    match project {
        Some(label) => if label.is_empty() {
            untitled(thread_id)
        } else {
            cat3("Untitled ", label, " thread")
        },
        None => untitled(thread_id),
    }
}

// ---------------------------------------------------------------------------
// Classification
// ---------------------------------------------------------------------------

/// Why a thread asks for attention, and what that rests on.
pub open spec fn attention(s: BridgeThreadSnapshotV) -> (Seq<char>, Seq<char>) {
    if s.pending_prompt matches Some(p) && p.kind == "approval"@ {
        ("pending_approval"@, "prompt_kind"@)
    } else if s.pending_prompt matches Some(p) && p.kind == "reply"@ {
        ("needs_reply"@, "prompt_kind"@)
    } else if s.last_turn_status == Some("completed"@) {
        ("completed"@, "last_turn_completed"@)
    } else if s.last_turn_status == Some("interrupted"@) && non_blank(s.last_preview) is Some {
        ("updated"@, "last_turn_interrupted"@)
    } else {
        ("active"@, "fallback_active"@)
    }
}

/// Why a thread asks for attention, and what that rests on.
pub fn classify_attention(snapshot: &BridgeThreadSnapshot) -> (r: (&'static str, &'static str))
    ensures
        (r.0@, r.1@) == attention(snapshot@),
{
    match &snapshot.pending_prompt {
        Some(prompt) => {
            if same(prompt.kind.as_str(), "approval") {
                return ("pending_approval", "prompt_kind");
            }
            if same(prompt.kind.as_str(), "reply") {
                return ("needs_reply", "prompt_kind");
            }
        },
        None => {},
    }
    if opt_is(&snapshot.last_turn_status, "completed") {
        return ("completed", "last_turn_completed");
    }
    if opt_is(&snapshot.last_turn_status, "interrupted") {
        if trimmed_non_blank(borrow_opt(&snapshot.last_preview)).is_some() {
            return ("updated", "last_turn_interrupted");
        }
    }
    ("active", "fallback_active")
}

/// Who has to act next.
pub open spec fn waiting_on(reason: Seq<char>) -> Seq<char> {
    if reason == "pending_approval"@ || reason == "needs_reply"@ {
        "me"@
    } else if reason == "active"@ {
        "codex"@
    } else {
        "none"@
    }
}

/// Who has to act next.
pub fn classify_waiting_on(reason: &str) -> (r: &'static str)
    ensures
        r@ == waiting_on(reason@),
{
    if same(reason, "pending_approval") || same(reason, "needs_reply") {
        "me"
    } else if same(reason, "active") {
        "codex"
    } else {
        "none"
    }
}

/// What the user may do.
pub open spec fn suggested_action(reason: Seq<char>) -> Seq<char> {
    if reason == "pending_approval"@ {
        "approve"@
    } else if reason == "needs_reply"@ {
        "reply"@
    } else if reason == "completed"@ {
        "archive"@
    } else {
        "inspect"@
    }
}

/// What the user may do.
pub fn classify_suggested_action(reason: &str) -> (r: &'static str)
    ensures
        r@ == suggested_action(reason@),
{
    if same(reason, "pending_approval") {
        "approve"
    } else if same(reason, "needs_reply") {
        "reply"
    } else if same(reason, "completed") {
        "archive"
    } else {
        "inspect"
    }
}

/// How urgent a thread is.
pub open spec fn priority(reason: Seq<char>) -> Seq<char> {
    if reason == "pending_approval"@ {
        "high"@
    } else if reason == "needs_reply"@ || reason == "active"@ || reason == "updated"@ {
        "medium"@
    } else {
        "low"@
    }
}

/// How urgent a thread is.
pub fn classify_priority(reason: &str) -> (r: &'static str)
    ensures
        r@ == priority(reason@),
{
    if same(reason, "pending_approval") {
        "high"
    } else if same(reason, "needs_reply") || same(reason, "active") || same(reason, "updated") {
        "medium"
    } else {
        "low"
    }
}

/// The rank of an inbox row: its priority first, then how recent it is.
pub open spec fn inbox_score(priority: Seq<char>, updated_at: Option<u64>) -> int {
    let base: int = if priority == "high"@ {
        300
    } else if priority == "medium"@ {
        200
    } else {
        100
    };
    base * 1_000_000_000_000 + (match updated_at {
        Some(v) => v as int,
        None => 0,
    })
}

/// The rank of an inbox row.
pub fn score_inbox_item(item: &InboxItem) -> (r: u128)
    ensures
        r == inbox_score(item@.priority, item@.updated_at),
{
    let base: u128 = if same(item.priority.as_str(), "high") {
        300
    } else if same(item.priority.as_str(), "medium") {
        200
    } else {
        100
    };
    let recent: u64 = match item.updated_at {
        Some(v) => v,
        None => 0,
    };
    base * 1_000_000_000_000 + recent as u128
}

// ---------------------------------------------------------------------------
// Projects of threads
// ---------------------------------------------------------------------------

/// The end of the last path component of `s[..n]`: trailing slashes are passed over.
pub open spec fn component_end(s: Seq<char>, n: nat) -> nat
    decreases n,
{
    if n > 0 && n <= s.len() && s[n - 1] == '/' {
        component_end(s, (n - 1) as nat)
    } else {
        n
    }
}

/// The start of the path component of `s` that ends at `n`.
pub open spec fn component_start(s: Seq<char>, n: nat) -> nat
    decreases n,
{
    if n > 0 && n <= s.len() && s[n - 1] != '/' {
        component_start(s, (n - 1) as nat)
    } else {
        n
    }
}

/// The label of the project in a directory: the last component of its path.
pub open spec fn project_label(cwd: Option<Seq<char>>) -> Option<Seq<char>> {
    match cwd {
        None => None,
        Some(s) => {
            let end = component_end(s, s.len());
            let start = component_start(s, end);
            if start < end {
                Some(s.subrange(start as int, end as int))
            } else {
                None
            }
        },
    }
}

/// The label of the project in a directory.
pub fn derive_project_label(cwd: Option<&str>) -> (r: Option<String>)
    ensures
        r.deep_view() == project_label(cwd.deep_view()),
{
    match cwd {
        None => None,
        Some(s) => {
            let v = chars_of(s);
            let mut end: usize = v.len();
            while end > 0 && v[end - 1] == '/'
                invariant
                    end <= v@.len(),
                    component_end(v@, v@.len()) == component_end(v@, end as nat),
                decreases end,
            {
                end -= 1;
            }
            let mut start: usize = end;
            while start > 0 && v[start - 1] != '/'
                invariant
                    start <= end <= v@.len(),
                    component_start(v@, end as nat) == component_start(v@, start as nat),
                decreases start,
            {
                start -= 1;
            }
            if start < end {
                Some(text_of(&v, start, end))
            } else {
                None
            }
        },
    }
}

/// The place of a thread in labels: its project, else its directory.
pub open spec fn place(project: Option<Seq<char>>, cwd: Option<Seq<char>>) -> Seq<char> {
    match project {
        Some(p) => p,
        None => match cwd {
            Some(c) => c,
            None => "unknown cwd"@,
        },
    }
}

/// The place of a thread in labels.
pub fn thread_place(project: &Option<String>, cwd: &Option<String>) -> (r: String)
    ensures
        r@ == place(project.deep_view(), cwd.deep_view()),
{
    match project {
        Some(p) => p.clone(),
        None => match cwd {
            Some(c) => c.clone(),
            None => "unknown cwd".to_owned(),
        },
    }
}

/// The inbox row of a thread.
pub open spec fn inbox_item(s: BridgeThreadSnapshotV, now: u64) -> InboxItemV {
    let (reason, basis) = attention(s);
    let project = project_label(s.cwd);
    let question = match s.pending_prompt {
        Some(p) => p.question,
        None => None,
    };
    let shown = display_name(s.name, project, question, s.thread_id);
    InboxItemV {
        thread_id: s.thread_id,
        name: s.name,
        display_name: shown,
        project,
        cwd: s.cwd,
        updated_at: s.updated_at,
        last_seen_at: None,
        age_seconds: match s.updated_at {
            Some(updated) => Some(age_seconds(now, updated)),
            None => None,
        },
        status_type: s.status_type,
        status_flags: s.status_flags,
        last_preview: preview(s.last_preview, 220),
        prompt_kind: match s.pending_prompt {
            Some(p) => Some(p.kind),
            None => None,
        },
        prompt_status: match s.pending_prompt {
            Some(p) => Some(p.status),
            None => None,
        },
        question: preview(question, 160),
        basis,
        attention_reason: reason,
        waiting_on: waiting_on(reason),
        suggested_action: suggested_action(reason),
        priority: priority(reason),
        recent_action: None,
        label: shown + " · "@ + place(project, s.cwd),
    }
}

/// The inbox row of a thread.
pub fn classify_inbox_item(snapshot: &BridgeThreadSnapshot, now: u64) -> (r: InboxItem)
    ensures
        r@ == inbox_item(snapshot@, now),
{
    let (reason, basis) = classify_attention(snapshot);
    let project = derive_project_label(borrow_opt(&snapshot.cwd));
    let question: Option<String> = match &snapshot.pending_prompt {
        Some(prompt) => copy_opt(&prompt.question),
        None => None,
    };
    let shown = derive_thread_display_name(
        borrow_opt(&snapshot.name),
        borrow_opt(&project),
        borrow_opt(&question),
        snapshot.thread_id.as_str(),
    );
    let label = cat3(shown.as_str(), " · ", thread_place(&project, &snapshot.cwd).as_str());
    let prompt_kind: Option<String> = match &snapshot.pending_prompt {
        Some(prompt) => Some(prompt.kind.clone()),
        None => None,
    };
    let prompt_status: Option<String> = match &snapshot.pending_prompt {
        Some(prompt) => Some(prompt.status.clone()),
        None => None,
    };
    let age: Option<u64> = match snapshot.updated_at {
        Some(updated) => Some(timestamp_age_seconds(now, updated)),
        None => None,
    };
    InboxItem {
        thread_id: snapshot.thread_id.clone(),
        name: copy_opt(&snapshot.name),
        display_name: shown,
        project,
        cwd: copy_opt(&snapshot.cwd),
        updated_at: snapshot.updated_at,
        last_seen_at: None,
        age_seconds: age,
        status_type: snapshot.status_type.clone(),
        status_flags: copy_texts(&snapshot.status_flags),
        last_preview: compact_text_preview(borrow_opt(&snapshot.last_preview), 220),
        prompt_kind,
        prompt_status,
        question: compact_text_preview(borrow_opt(&question), 160),
        basis: basis.to_owned(),
        attention_reason: reason.to_owned(),
        waiting_on: classify_waiting_on(reason).to_owned(),
        suggested_action: classify_suggested_action(reason).to_owned(),
        priority: classify_priority(reason).to_owned(),
        recent_action: None,
        label,
    }
}

} // verus!
