//! Lists over the stored threads: the inbox, the waiting threads, the recent
//! threads, the observed workspaces and what an archive run takes.
use vstd::prelude::*;
use vstd::string::*;

use crate::error::{BridgeError, BridgeErrorV, failure, outcome};
use crate::history::{recent_actions, recent_actions_json, record_action, with_action};
use crate::json::{Json, JsonV, Object, text_array, text_or_null, uint_or_null};
use crate::order::{payloads, ranked, sort_text, sorted_desc, sorted_text, text_keyed};
use crate::outbox::at_most;
use crate::state::{
    BridgeState, BridgeStateV, find_prompt, find_thread, from_sql, from_sql_i64, negative_integer,
    opt_from_sql, optional_from_sql_i64, out_of_range, prompt_row_key, PromptRow, PromptRowV,
    thread_row_key, ThreadRow, ThreadRowV, to_sql_i64,
};
use crate::sync::{pending_prompt_json, prompt_json};
use crate::table::{first_row, key_is, lemma_filter_step, position, put_row};
use crate::text::{
    borrow_opt, cat3, chars_of, contains, contains_text, copy_opt, copy_texts, same, to_lowercase,
    unicode_lowercase,
};
use crate::thread::{
    BridgeThreadSnapshot, BridgeThreadSnapshotV, classify_inbox_item, derive_project_label,
    derive_thread_display_name, display_name, inbox_item, inbox_score, InboxItem, InboxItemV,
    PendingPrompt, PendingPromptV, place, project_label, score_inbox_item, thread_place,
};

verus! {

/// A thread that waits for the user.
#[derive(Debug, PartialEq, Eq)]
pub struct WaitingThread {
    pub thread_id: String,
    pub name: Option<String>,
    pub display_name: String,
    pub project: Option<String>,
    pub cwd: Option<String>,
    pub updated_at: Option<u64>,
    pub status_type: String,
    pub status_flags: Vec<String>,
    pub prompt: PendingPrompt,
    pub last_preview: Option<String>,
    pub label: String,
}

/// The model of [`WaitingThread`].
#[verifier::ext_equal]
pub struct WaitingThreadV {
    pub thread_id: Seq<char>,
    pub name: Option<Seq<char>>,
    pub display_name: Seq<char>,
    pub project: Option<Seq<char>>,
    pub cwd: Option<Seq<char>>,
    pub updated_at: Option<u64>,
    pub status_type: Seq<char>,
    pub status_flags: Seq<Seq<char>>,
    pub prompt: PendingPromptV,
    pub last_preview: Option<Seq<char>>,
    pub label: Seq<char>,
}

impl View for WaitingThread {
    type V = WaitingThreadV;

    open spec fn view(&self) -> WaitingThreadV {
        WaitingThreadV {
            thread_id: self.thread_id@,
            name: self.name.deep_view(),
            display_name: self.display_name@,
            project: self.project.deep_view(),
            cwd: self.cwd.deep_view(),
            updated_at: self.updated_at,
            status_type: self.status_type@,
            status_flags: self.status_flags.deep_view(),
            prompt: self.prompt@,
            last_preview: self.last_preview.deep_view(),
            label: self.label@,
        }
    }
}

impl DeepView for WaitingThread {
    type V = WaitingThreadV;

    open spec fn deep_view(&self) -> WaitingThreadV {
        self@
    }
}

/// What a list of waiting threads holds.
#[derive(Debug, PartialEq, Eq)]
pub struct WaitingSummary {
    pub count: usize,
    pub thread_ids: Vec<String>,
    pub labels: Vec<String>,
    pub applied_filters: Json,
}

/// The model of [`WaitingSummary`].
#[verifier::ext_equal]
pub struct WaitingSummaryV {
    pub count: usize,
    pub thread_ids: Seq<Seq<char>>,
    pub labels: Seq<Seq<char>>,
    pub applied_filters: JsonV,
}

impl View for WaitingSummary {
    type V = WaitingSummaryV;

    open spec fn view(&self) -> WaitingSummaryV {
        WaitingSummaryV {
            count: self.count,
            thread_ids: self.thread_ids.deep_view(),
            labels: self.labels.deep_view(),
            applied_filters: self.applied_filters@,
        }
    }
}

impl DeepView for WaitingSummary {
    type V = WaitingSummaryV;

    open spec fn deep_view(&self) -> WaitingSummaryV {
        self@
    }
}

/// The waiting threads and their summary.
#[derive(Debug, PartialEq, Eq)]
pub struct WaitingResult {
    pub summary: WaitingSummary,
    pub threads: Vec<WaitingThread>,
}

/// The model of [`WaitingResult`].
#[verifier::ext_equal]
pub struct WaitingResultV {
    pub summary: WaitingSummaryV,
    pub threads: Seq<WaitingThreadV>,
}

impl View for WaitingResult {
    type V = WaitingResultV;

    open spec fn view(&self) -> WaitingResultV {
        WaitingResultV {
            summary: self.summary@,
            threads: self.threads.deep_view(),
        }
    }
}

impl DeepView for WaitingResult {
    type V = WaitingResultV;

    open spec fn deep_view(&self) -> WaitingResultV {
        self@
    }
}

/// What an inbox list holds.
#[derive(Debug, PartialEq, Eq)]
pub struct InboxSummary {
    pub total: usize,
    pub needs_attention: usize,
    pub counts_by_reason: Json,
    pub applied_filters: Json,
}

/// The model of [`InboxSummary`].
#[verifier::ext_equal]
pub struct InboxSummaryV {
    pub total: usize,
    pub needs_attention: usize,
    pub counts_by_reason: JsonV,
    pub applied_filters: JsonV,
}

impl View for InboxSummary {
    type V = InboxSummaryV;

    open spec fn view(&self) -> InboxSummaryV {
        InboxSummaryV {
            total: self.total,
            needs_attention: self.needs_attention,
            counts_by_reason: self.counts_by_reason@,
            applied_filters: self.applied_filters@,
        }
    }
}

impl DeepView for InboxSummary {
    type V = InboxSummaryV;

    open spec fn deep_view(&self) -> InboxSummaryV {
        self@
    }
}

/// The inbox rows and their summary.
#[derive(Debug, PartialEq, Eq)]
pub struct InboxResult {
    pub summary: InboxSummary,
    pub items: Vec<InboxItem>,
}

/// The model of [`InboxResult`].
#[verifier::ext_equal]
pub struct InboxResultV {
    pub summary: InboxSummaryV,
    pub items: Seq<InboxItemV>,
}

impl View for InboxResult {
    type V = InboxResultV;

    open spec fn view(&self) -> InboxResultV {
        InboxResultV {
            summary: self.summary@,
            items: self.items.deep_view(),
        }
    }
}

impl DeepView for InboxResult {
    type V = InboxResultV;

    open spec fn deep_view(&self) -> InboxResultV {
        self@
    }
}

/// The threads that an archive run takes.
#[derive(Debug, PartialEq, Eq)]
pub struct ArchiveSelection {
    pub targets: Vec<String>,
    pub using_filter_selection: bool,
}

/// The model of [`ArchiveSelection`].
#[verifier::ext_equal]
pub struct ArchiveSelectionV {
    pub targets: Seq<Seq<char>>,
    pub using_filter_selection: bool,
}

impl View for ArchiveSelection {
    type V = ArchiveSelectionV;

    open spec fn view(&self) -> ArchiveSelectionV {
        ArchiveSelectionV {
            targets: self.targets.deep_view(),
            using_filter_selection: self.using_filter_selection,
        }
    }
}

impl DeepView for ArchiveSelection {
    type V = ArchiveSelectionV;

    open spec fn deep_view(&self) -> ArchiveSelectionV {
        self@
    }
}

/// A directory that threads were seen in.
#[derive(Debug, PartialEq, Eq)]
pub struct ObservedWorkspace {
    pub cwd: String,
    pub label: String,
    pub last_seen_at: Option<u64>,
}

/// The model of [`ObservedWorkspace`].
#[verifier::ext_equal]
pub struct ObservedWorkspaceV {
    pub cwd: Seq<char>,
    pub label: Seq<char>,
    pub last_seen_at: Option<u64>,
}

impl View for ObservedWorkspace {
    type V = ObservedWorkspaceV;

    open spec fn view(&self) -> ObservedWorkspaceV {
        ObservedWorkspaceV {
            cwd: self.cwd@,
            label: self.label@,
            last_seen_at: self.last_seen_at,
        }
    }
}

impl DeepView for ObservedWorkspace {
    type V = ObservedWorkspaceV;

    open spec fn deep_view(&self) -> ObservedWorkspaceV {
        self@
    }
}

// ---------------------------------------------------------------------------
// Parts of the lists
// ---------------------------------------------------------------------------

/// A number, or zero.
pub open spec fn or_zero(n: Option<i64>) -> i64 {
    match n {
        Some(v) => v,
        None => 0,
    }
}

/// The prompt of a thread.
pub open spec fn prompt_of(st: BridgeStateV, thread_id: Seq<char>) -> Option<PromptRowV> {
    first_row(st.prompts, key_is(prompt_row_key(), thread_id))
}

/// A directory matches a project filter: it holds the wanted text in any case.
pub open spec fn cwd_matches(cwd: Option<Seq<char>>, wanted: Seq<char>) -> bool {
    contains_text(
        unicode_lowercase(
            match cwd {
                Some(c) => c,
                None => Seq::empty(),
            },
        ),
        unicode_lowercase(wanted),
    )
}

/// A filter that is not given lets everything pass; one that is given wants this very text.
pub open spec fn passes(filter: Option<Seq<char>>, value: Seq<char>) -> bool {
    match filter {
        Some(wanted) => value == wanted,
        None => true,
    }
}

/// A project filter that is not given lets everything pass.
pub open spec fn project_passes(filter: Option<Seq<char>>, cwd: Option<Seq<char>>) -> bool {
    match filter {
        Some(wanted) => cwd_matches(cwd, wanted),
        None => true,
    }
}

/// Tells whether a text passes a filter.
fn filter_passes(filter: Option<&str>, value: &str) -> (r: bool)
    ensures
        r == passes(filter.deep_view(), value@),
{
    match filter {
        Some(wanted) => same(value, wanted),
        None => true,
    }
}

/// Tells whether a directory passes a project filter.
fn project_filter_passes(filter: Option<&str>, cwd: &Option<String>) -> (r: bool)
    ensures
        r == project_passes(filter.deep_view(), cwd.deep_view()),
{
    match filter {
        Some(wanted) => {
            let place: String = match cwd {
                Some(c) => c.clone(),
                None => String::new(),
            };
            assert(cwd is None ==> place@ =~= Seq::<char>::empty());
            contains(to_lowercase(place.as_str()).as_str(), to_lowercase(wanted).as_str())
        },
        None => true,
    }
}

/// A limit of zero is no limit.
pub open spec fn limited<T>(s: Seq<T>, limit: u64) -> Seq<T> {
    if limit > 0 {
        at_most(s, limit as nat)
    } else {
        s
    }
}

// ---------------------------------------------------------------------------
// Waiting threads
// ---------------------------------------------------------------------------

/// A thread and its prompt as a waiting thread.
pub open spec fn waiting_thread(t: ThreadRowV, p: PromptRowV) -> WaitingThreadV {
    let project = project_label(t.cwd);
    let shown = display_name(t.name, project, Some(p.question), t.thread_id);
    WaitingThreadV {
        thread_id: t.thread_id,
        name: t.name,
        display_name: shown,
        project,
        cwd: t.cwd,
        updated_at: match t.updated_at {
            Some(u) => Some(u as u64),
            None => None,
        },
        status_type: t.status_type,
        status_flags: t.status_flags,
        prompt: PendingPromptV {
            prompt_id: p.prompt_id,
            kind: p.prompt_kind,
            status: p.prompt_status,
            question: Some(p.question),
        },
        last_preview: t.last_preview,
        label: shown + " · "@ + place(project, t.cwd) + " · "@ + p.prompt_kind,
    }
}

/// The first `n` prompts with their threads, each keyed by the last change of its
/// thread; nothing where a time stamp is negative.
pub open spec fn waiting_scan(st: BridgeStateV, n: nat) -> Option<Seq<(i128, WaitingThreadV)>>
    decreases n,
{
    if n == 0 || n > st.prompts.len() {
        Some(Seq::empty())
    } else {
        let p = st.prompts[n - 1];
        match (
            waiting_scan(st, (n - 1) as nat),
            first_row(st.threads, key_is(thread_row_key(), p.thread_id)),
        ) {
            (None, _) => None,
            (Some(before), None) => Some(before),
            (Some(before), Some(t)) => if opt_from_sql(t.updated_at) is Ok {
                Some(before.push((or_zero(t.updated_at) as i128, waiting_thread(t, p))))
            } else {
                None
            },
        }
    }
}

/// The waiting threads of a list, and its summary.
pub open spec fn waiting_result(
    threads: Seq<WaitingThreadV>,
    project: Option<Seq<char>>,
    limit: u64,
) -> WaitingResultV {
    WaitingResultV {
        summary: WaitingSummaryV {
            count: threads.len() as usize,
            thread_ids: threads.map_values(|t: WaitingThreadV| t.thread_id),
            labels: threads.map_values(|t: WaitingThreadV| t.label),
            applied_filters: JsonV::Object(
                Seq::empty()
                    .push(("project"@, text_or_null(project)))
                    .push(("limit"@, JsonV::UInt(limit))),
            ),
        },
        threads,
    }
}

/// The threads that wait, the last changed first, after filter and limit.
pub open spec fn waiting_list(
    st: BridgeStateV,
    project: Option<Seq<char>>,
    limit: u64,
) -> Result<WaitingResultV, BridgeErrorV> {
    match waiting_scan(st, st.prompts.len()) {
        None => Err(negative_integer()),
        Some(rows) => Ok(
            waiting_result(
                limited(
                    payloads(sorted_desc(rows)).filter(
                        |t: WaitingThreadV| project_passes(project, t.cwd),
                    ),
                    limit,
                ),
                project,
                limit,
            ),
        ),
    }
}

/// A row and its prompt as a waiting thread.
fn waiting_thread_of(t: &ThreadRow, p: &PromptRow, updated_at: Option<u64>) -> (r: WaitingThread)
    requires
        opt_from_sql(t@.updated_at) == Ok::<Option<u64>, BridgeErrorV>(updated_at),
    ensures
        r@ == waiting_thread(t@, p@),
{
    let project = derive_project_label(borrow_opt(&t.cwd));
    let shown = derive_thread_display_name(
        borrow_opt(&t.name),
        borrow_opt(&project),
        Some(p.question.as_str()),
        t.thread_id.as_str(),
    );
    let mut label = cat3(shown.as_str(), " · ", thread_place(&project, &t.cwd).as_str());
    label.append(" · ");
    label.append(p.prompt_kind.as_str());
    WaitingThread {
        thread_id: t.thread_id.clone(),
        name: copy_opt(&t.name),
        display_name: shown,
        project,
        cwd: copy_opt(&t.cwd),
        updated_at,
        status_type: t.status_type.clone(),
        status_flags: copy_texts(&t.status_flags),
        prompt: PendingPrompt {
            prompt_id: p.prompt_id.clone(),
            kind: p.prompt_kind.clone(),
            status: p.prompt_status.clone(),
            question: Some(p.question.clone()),
        },
        last_preview: copy_opt(&t.last_preview),
        label,
    }
}

/// The ids and the labels of waiting threads.
fn ids_and_labels(threads: &Vec<WaitingThread>) -> (r: (Vec<String>, Vec<String>))
    ensures
        r.0.deep_view() == threads.deep_view().map_values(|t: WaitingThreadV| t.thread_id),
        r.1.deep_view() == threads.deep_view().map_values(|t: WaitingThreadV| t.label),
{
    let mut ids: Vec<String> = Vec::new();
    let mut labels: Vec<String> = Vec::new();
    let mut i: usize = 0;
    while i < threads.len()
        invariant
            i <= threads@.len(),
            ids@.len() == i,
            labels@.len() == i,
            forall|k: int| 0 <= k < i ==> (#[trigger] ids@[k])@ == threads@[k]@.thread_id,
            forall|k: int| 0 <= k < i ==> (#[trigger] labels@[k])@ == threads@[k]@.label,
        decreases threads@.len() - i,
    {
        ids.push(threads[i].thread_id.clone());
        labels.push(threads[i].label.clone());
        i += 1;
    }
    assert(ids.deep_view() =~= threads.deep_view().map_values(|t: WaitingThreadV| t.thread_id));
    assert(labels.deep_view() =~= threads.deep_view().map_values(|t: WaitingThreadV| t.label));
    (ids, labels)
}

/// The threads that wait, the last changed first, after filter and limit.
pub fn list_waiting_from_db(state: &BridgeState, project_filter: Option<&str>, limit: u64) -> (r:
    Result<WaitingResult, BridgeError>)
    ensures
        outcome(r) == waiting_list(state@, project_filter.deep_view(), limit),
{
    let ghost st = state@;
    let ghost keep = |t: WaitingThreadV| project_passes(project_filter.deep_view(), t.cwd);
    let mut rows: Vec<(i128, WaitingThread)> = Vec::new();
    let mut i: usize = 0;
    assert(rows.deep_view() =~= Seq::<(i128, WaitingThreadV)>::empty());
    while i < state.prompts.len()
        invariant
            i <= state.prompts@.len(),
            st == state@,
            waiting_scan(st, i as nat) == Some(rows.deep_view()),
        decreases state.prompts@.len() - i,
    {
        let prompt = &state.prompts[i];
        assert(st.prompts[i as int] == prompt@);
        let k: usize = find_thread(&state.threads, prompt.thread_id.as_str());
        if k < state.threads.len() {
            let thread = &state.threads[k];
            assert(st.threads[k as int] == thread@);
            let updated_at: Option<u64> = match optional_from_sql_i64(thread.updated_at) {
                Ok(v) => v,
                Err(e) => {
                    proof {
                        lemma_waiting_fails(st, (i + 1) as nat, st.prompts.len());
                    }
                    return Err(e);
                },
            };
            let key: i128 = match thread.updated_at {
                Some(u) => u as i128,
                None => 0,
            };
            let entry = waiting_thread_of(thread, prompt, updated_at);
            let ghost before = rows.deep_view();
            rows.push((key, entry));
            assert(rows.deep_view() =~= before.push((key, entry@)));
        }
        i += 1;
    }
    let ghost keyed = rows.deep_view();
    let sorted = ranked(rows);
    let ghost given = sorted@;
    let ghost models = sorted.deep_view();
    let mut threads: Vec<WaitingThread> = Vec::new();
    assert(threads.deep_view() =~= models.take(0).filter(keep)) by {
        reveal(Seq::filter);
    }
    for thread in it: sorted
        invariant
            it.seq() == given,
            models == Seq::new(given.len(), |i: int| given[i]@),
            keep == (|t: WaitingThreadV| project_passes(project_filter.deep_view(), t.cwd)),
            threads.deep_view() == models.take(it.index()).filter(keep),
    {
        proof {
            lemma_filter_step(models, keep, it.index());
            assert(models[it.index()] == thread@);
        }
        let ghost before = threads.deep_view();
        if project_filter_passes(project_filter, &thread.cwd) {
            threads.push(thread);
            assert(threads.deep_view() =~= before.push(thread@));
        }
    }
    assert(models.take(models.len() as int) =~= models);
    let ghost kept = threads.deep_view();
    if limit > 0 && (threads.len() as u64) > limit {
        threads.truncate(limit as usize);
    }
    assert(threads.deep_view() =~= limited(kept, limit));
    let (thread_ids, labels) = ids_and_labels(&threads);
    let applied_filters = Object::new().with("project", Json::opt_str(project_filter)).with(
        "limit",
        Json::UInt(limit),
    ).done();
    let count: usize = threads.len();
    Ok(
        WaitingResult {
            summary: WaitingSummary { count, thread_ids, labels, applied_filters },
            threads,
        },
    )
}

/// A scan that met a negative time stamp stays failed.
proof fn lemma_waiting_fails(st: BridgeStateV, k: nat, n: nat)
    requires
        k <= n <= st.prompts.len(),
        waiting_scan(st, k) is None,
    ensures
        waiting_scan(st, n) is None,
    decreases n,
{
    if k < n {
        lemma_waiting_fails(st, k, (n - 1) as nat);
    }
}

// ---------------------------------------------------------------------------
// Inbox
// ---------------------------------------------------------------------------

/// A row of the inbox before it is classified.
pub open spec fn inbox_snapshot(t: ThreadRowV, p: Option<PromptRowV>) -> BridgeThreadSnapshotV {
    BridgeThreadSnapshotV {
        thread_id: t.thread_id,
        name: t.name,
        cwd: t.cwd,
        updated_at: match t.updated_at {
            Some(u) => Some(u as u64),
            None => None,
        },
        status_type: t.status_type,
        status_flags: t.status_flags,
        last_turn_status: t.last_turn_status,
        last_preview: t.last_preview,
        pending_prompt: match p {
            Some(prompt) => Some(
                PendingPromptV {
                    prompt_id: prompt.prompt_kind + ":"@ + t.thread_id,
                    kind: prompt.prompt_kind,
                    status: prompt.prompt_status,
                    question: Some(prompt.question),
                },
            ),
            None => None,
        },
    }
}

/// The inbox row of a stored thread with its newest action; nothing where a time
/// stamp is negative.
pub open spec fn inbox_row(st: BridgeStateV, t: ThreadRowV, now: u64) -> Option<InboxItemV> {
    match (opt_from_sql(t.updated_at), from_sql(t.last_seen_at), recent_actions(st, t.thread_id, 1)) {
        (Ok(_), Ok(seen), Ok(actions)) => Some(
            InboxItemV {
                last_seen_at: Some(seen),
                recent_action: if actions.len() > 0 {
                    Some(actions[0])
                } else {
                    None
                },
                ..inbox_item(inbox_snapshot(t, prompt_of(st, t.thread_id)), now)
            },
        ),
        _ => None,
    }
}

/// The inbox rows of the first `n` threads, keyed by their last change.
pub open spec fn inbox_scan(st: BridgeStateV, now: u64, n: nat) -> Option<Seq<(i128, InboxItemV)>>
    decreases n,
{
    if n == 0 || n > st.threads.len() {
        Some(Seq::empty())
    } else {
        let t = st.threads[n - 1];
        match (inbox_scan(st, now, (n - 1) as nat), inbox_row(st, t, now)) {
            (Some(before), Some(item)) => Some(
                before.push((or_zero(t.updated_at) as i128, item)),
            ),
            _ => None,
        }
    }
}

/// The filters of an inbox list.
pub struct InboxFilterV {
    pub project: Option<Seq<char>>,
    pub status: Option<Seq<char>>,
    pub attention: Option<Seq<char>>,
    pub waiting_on: Option<Seq<char>>,
}

/// A row passes the filters.
pub open spec fn inbox_keeps(f: InboxFilterV) -> spec_fn(InboxItemV) -> bool {
    |item: InboxItemV|
        {
            &&& project_passes(f.project, item.cwd)
            &&& passes(f.status, item.status_type)
            &&& passes(f.attention, item.attention_reason)
            &&& passes(f.waiting_on, item.waiting_on)
        }
}

/// Rows keyed by their rank.
pub open spec fn by_score(items: Seq<InboxItemV>) -> Seq<(i128, InboxItemV)> {
    items.map_values(
        |item: InboxItemV| (inbox_score(item.priority, item.updated_at) as i128, item),
    )
}

/// How many rows have this reason.
pub open spec fn reason_count(items: Seq<InboxItemV>, reason: Seq<char>) -> nat {
    items.filter(|item: InboxItemV| item.attention_reason == reason).len()
}

/// How many rows wait for the user.
pub open spec fn waiting_count(items: Seq<InboxItemV>) -> nat {
    items.filter(|item: InboxItemV| item.waiting_on == "me"@).len()
}

/// The inbox rows of a list, and its summary.
pub open spec fn inbox_result(items: Seq<InboxItemV>, f: InboxFilterV, limit: u64) -> InboxResultV {
    InboxResultV {
        summary: InboxSummaryV {
            total: items.len() as usize,
            needs_attention: waiting_count(items) as usize,
            counts_by_reason: JsonV::Object(
                Seq::empty()
                    .push(
                        ("pendingApproval"@, JsonV::UInt(reason_count(items, "pending_approval"@) as u64)),
                    )
                    .push(
                        ("needsReply"@, JsonV::UInt(reason_count(items, "needs_reply"@) as u64)),
                    )
                    .push(("active"@, JsonV::UInt(reason_count(items, "active"@) as u64)))
                    .push(("completed"@, JsonV::UInt(reason_count(items, "completed"@) as u64))),
            ),
            applied_filters: JsonV::Object(
                Seq::empty()
                    .push(("project"@, text_or_null(f.project)))
                    .push(("status"@, text_or_null(f.status)))
                    .push(("attention"@, text_or_null(f.attention)))
                    .push(("waitingOn"@, text_or_null(f.waiting_on)))
                    .push(("limit"@, JsonV::UInt(limit))),
            ),
        },
        items,
    }
}

/// The rows of the inbox: those that pass the filters, the most urgent first, then
/// the last changed, after the limit.
pub open spec fn inbox_list(
    st: BridgeStateV,
    now: u64,
    f: InboxFilterV,
    limit: u64,
) -> Result<InboxResultV, BridgeErrorV> {
    match inbox_scan(st, now, st.threads.len()) {
        None => Err(negative_integer()),
        Some(rows) => Ok(
            inbox_result(
                limited(
                    payloads(
                        sorted_desc(by_score(payloads(sorted_desc(rows)).filter(inbox_keeps(f)))),
                    ),
                    limit,
                ),
                f,
                limit,
            ),
        ),
    }
}

/// A scan that met a negative time stamp stays failed.
proof fn lemma_inbox_fails(st: BridgeStateV, now: u64, k: nat, n: nat)
    requires
        k <= n <= st.threads.len(),
        inbox_scan(st, now, k) is None,
    ensures
        inbox_scan(st, now, n) is None,
    decreases n,
{
    if k < n {
        lemma_inbox_fails(st, now, k, (n - 1) as nat);
    }
}

/// The inbox row of a stored thread with its newest action.
fn inbox_row_of(state: &BridgeState, thread: &ThreadRow, now: u64) -> (r: Result<
    InboxItem,
    BridgeError,
>)
    ensures
        match inbox_row(state@, thread@, now) {
            Some(item) => r is Ok && r->Ok_0@ == item,
            None => r is Err && r->Err_0@ == negative_integer(),
        },
{
    let updated_at: Option<u64> = match optional_from_sql_i64(thread.updated_at) {
        Ok(v) => v,
        Err(e) => {
            return Err(e);
        },
    };
    let k: usize = find_prompt(&state.prompts, thread.thread_id.as_str());
    let pending_prompt: Option<PendingPrompt> = if k < state.prompts.len() {
        let prompt = &state.prompts[k];
        assert(state.prompts.deep_view()[k as int] == prompt@);
        Some(
            PendingPrompt {
                prompt_id: cat3(prompt.prompt_kind.as_str(), ":", thread.thread_id.as_str()),
                kind: prompt.prompt_kind.clone(),
                status: prompt.prompt_status.clone(),
                question: Some(prompt.question.clone()),
            },
        )
    } else {
        None
    };
    let snapshot = BridgeThreadSnapshot {
        thread_id: thread.thread_id.clone(),
        name: copy_opt(&thread.name),
        cwd: copy_opt(&thread.cwd),
        updated_at,
        status_type: thread.status_type.clone(),
        status_flags: copy_texts(&thread.status_flags),
        last_turn_status: copy_opt(&thread.last_turn_status),
        last_preview: copy_opt(&thread.last_preview),
        pending_prompt,
    };
    assert(snapshot@ == inbox_snapshot(thread@, prompt_of(state@, thread@.thread_id)));
    let mut item = classify_inbox_item(&snapshot, now);
    let seen: u64 = match from_sql_i64(thread.last_seen_at) {
        Ok(v) => v,
        Err(e) => {
            return Err(e);
        },
    };
    let mut actions = match recent_actions_json(state, thread.thread_id.as_str(), 1) {
        Ok(v) => v,
        Err(e) => {
            return Err(e);
        },
    };
    let ghost listed = actions.deep_view();
    let recent: Option<Json> = if actions.len() > 0 {
        assert(listed[0] == actions@[0]@);
        Some(actions.remove(0))
    } else {
        None
    };
    item.last_seen_at = Some(seen);
    item.recent_action = recent;
    Ok(item)
}

/// How many rows have this reason.
fn count_reason(items: &Vec<InboxItem>, reason: &str) -> (r: usize)
    ensures
        r == reason_count(items.deep_view(), reason@),
{
    let ghost all = items.deep_view();
    let ghost hit = |item: InboxItemV| item.attention_reason == reason@;
    let mut count: usize = 0;
    let mut i: usize = 0;
    assert(all.take(0).filter(hit).len() == 0) by {
        reveal(Seq::filter);
    }
    while i < items.len()
        invariant
            i <= items@.len(),
            all == items.deep_view(),
            hit == (|item: InboxItemV| item.attention_reason == reason@),
            count == all.take(i as int).filter(hit).len(),
            count <= i,
        decreases items@.len() - i,
    {
        proof {
            lemma_filter_step(all, hit, i as int);
            assert(all[i as int] == items@[i as int]@);
        }
        if same(items[i].attention_reason.as_str(), reason) {
            count += 1;
        }
        i += 1;
    }
    assert(all.take(all.len() as int) =~= all);
    count
}

/// How many rows wait for the user.
fn count_waiting(items: &Vec<InboxItem>) -> (r: usize)
    ensures
        r == waiting_count(items.deep_view()),
{
    let ghost all = items.deep_view();
    let ghost hit = |item: InboxItemV| item.waiting_on == "me"@;
    let mut count: usize = 0;
    let mut i: usize = 0;
    assert(all.take(0).filter(hit).len() == 0) by {
        reveal(Seq::filter);
    }
    while i < items.len()
        invariant
            i <= items@.len(),
            all == items.deep_view(),
            hit == (|item: InboxItemV| item.waiting_on == "me"@),
            count == all.take(i as int).filter(hit).len(),
            count <= i,
        decreases items@.len() - i,
    {
        proof {
            lemma_filter_step(all, hit, i as int);
            assert(all[i as int] == items@[i as int]@);
        }
        if same(items[i].waiting_on.as_str(), "me") {
            count += 1;
        }
        i += 1;
    }
    assert(all.take(all.len() as int) =~= all);
    count
}

/// The rows of all stored threads, the last changed first.
fn all_inbox_rows(state: &BridgeState, now: u64) -> (r: Result<Vec<InboxItem>, BridgeError>)
    ensures
        match inbox_scan(state@, now, state@.threads.len()) {
            Some(rows) => r is Ok && r->Ok_0.deep_view() == payloads(sorted_desc(rows)),
            None => r is Err && r->Err_0@ == negative_integer(),
        },
{
    let ghost st = state@;
    let mut rows: Vec<(i128, InboxItem)> = Vec::new();
    let mut i: usize = 0;
    assert(rows.deep_view() =~= Seq::<(i128, InboxItemV)>::empty());
    while i < state.threads.len()
        invariant
            i <= state.threads@.len(),
            st == state@,
            inbox_scan(st, now, i as nat) == Some(rows.deep_view()),
        decreases state.threads@.len() - i,
    {
        let thread = &state.threads[i];
        assert(st.threads[i as int] == thread@);
        let item = match inbox_row_of(state, thread, now) {
            Ok(v) => v,
            Err(e) => {
                proof {
                    lemma_inbox_fails(st, now, (i + 1) as nat, st.threads.len());
                }
                return Err(e);
            },
        };
        let key: i128 = match thread.updated_at {
            Some(u) => u as i128,
            None => 0,
        };
        let ghost before = rows.deep_view();
        rows.push((key, item));
        assert(rows.deep_view() =~= before.push((key, item@)));
        i += 1;
    }
    Ok(ranked(rows))
}

/// The rows of the inbox that pass the filters, the most urgent first, then the last
/// changed, after the limit.
pub fn list_inbox_from_db(
    state: &BridgeState,
    now: u64,
    project_filter: Option<&str>,
    status_filter: Option<&str>,
    attention_filter: Option<&str>,
    waiting_on_filter: Option<&str>,
    limit: u64,
) -> (r: Result<InboxResult, BridgeError>)
    ensures
        outcome(r) == inbox_list(
            state@,
            now,
            (InboxFilterV {
                project: project_filter.deep_view(),
                status: status_filter.deep_view(),
                attention: attention_filter.deep_view(),
                waiting_on: waiting_on_filter.deep_view(),
            }),
            limit,
        ),
{
    let ghost f = InboxFilterV {
        project: project_filter.deep_view(),
        status: status_filter.deep_view(),
        attention: attention_filter.deep_view(),
        waiting_on: waiting_on_filter.deep_view(),
    };
    let rows = match all_inbox_rows(state, now) {
        Ok(v) => v,
        Err(e) => {
            return Err(e);
        },
    };
    let ghost given = rows@;
    let ghost models = rows.deep_view();
    let mut scored: Vec<(i128, InboxItem)> = Vec::new();
    assert(scored.deep_view() =~= by_score(models.take(0).filter(inbox_keeps(f)))) by {
        reveal(Seq::filter);
    }
    for item in it: rows
        invariant
            it.seq() == given,
            models == Seq::new(given.len(), |i: int| given[i]@),
            f == (InboxFilterV {
                project: project_filter.deep_view(),
                status: status_filter.deep_view(),
                attention: attention_filter.deep_view(),
                waiting_on: waiting_on_filter.deep_view(),
            }),
            scored.deep_view() == by_score(models.take(it.index()).filter(inbox_keeps(f))),
    {
        proof {
            lemma_filter_step(models, inbox_keeps(f), it.index());
            assert(models[it.index()] == item@);
        }
        let ghost before = scored.deep_view();
        let ghost kept = models.take(it.index()).filter(inbox_keeps(f));
        if project_filter_passes(project_filter, &item.cwd) && filter_passes(
            status_filter,
            item.status_type.as_str(),
        ) && filter_passes(attention_filter, item.attention_reason.as_str()) && filter_passes(
            waiting_on_filter,
            item.waiting_on.as_str(),
        ) {
            let score: u128 = score_inbox_item(&item);
            let key: i128 = score as i128;
            scored.push((key, item));
            assert(scored.deep_view() =~= before.push((key, item@)));
            assert(by_score(kept.push(item@)) =~= by_score(kept).push((key, item@)));
        }
    }
    assert(models.take(models.len() as int) =~= models);
    let mut items = ranked(scored);
    let ghost ordered = items.deep_view();
    if limit > 0 && (items.len() as u64) > limit {
        items.truncate(limit as usize);
    }
    assert(items.deep_view() =~= limited(ordered, limit));
    let counts_by_reason = Object::new().with(
        "pendingApproval",
        Json::UInt(count_reason(&items, "pending_approval") as u64),
    ).with("needsReply", Json::UInt(count_reason(&items, "needs_reply") as u64)).with(
        "active",
        Json::UInt(count_reason(&items, "active") as u64),
    ).with("completed", Json::UInt(count_reason(&items, "completed") as u64)).done();
    let applied_filters = Object::new().with("project", Json::opt_str(project_filter)).with(
        "status",
        Json::opt_str(status_filter),
    ).with("attention", Json::opt_str(attention_filter)).with(
        "waitingOn",
        Json::opt_str(waiting_on_filter),
    ).with("limit", Json::UInt(limit)).done();
    let total: usize = items.len();
    let needs_attention: usize = count_waiting(&items);
    Ok(
        InboxResult {
            summary: InboxSummary { total, needs_attention, counts_by_reason, applied_filters },
            items,
        },
    )
}

// ---------------------------------------------------------------------------
// Recent threads
// ---------------------------------------------------------------------------

/// A stored thread with its prompt as a snapshot.
pub open spec fn stored_snapshot(t: ThreadRowV, p: Option<PromptRowV>) -> BridgeThreadSnapshotV {
    BridgeThreadSnapshotV {
        pending_prompt: match p {
            Some(prompt) => Some(
                PendingPromptV {
                    prompt_id: prompt.prompt_id,
                    kind: prompt.prompt_kind,
                    status: prompt.prompt_status,
                    question: Some(prompt.question),
                },
            ),
            None => None,
        },
        ..inbox_snapshot(t, p)
    }
}

/// When a thread was last active: its last change, else when it was last seen.
pub open spec fn last_active(t: ThreadRowV) -> i64 {
    match t.updated_at {
        Some(u) => u,
        None => t.last_seen_at,
    }
}

/// All stored threads, keyed by when they were last active.
pub open spec fn active_rows(st: BridgeStateV) -> Seq<(i128, ThreadRowV)> {
    st.threads.map_values(|t: ThreadRowV| (last_active(t) as i128, t))
}

/// The recent threads, the last active first, `limit` at most.
pub open spec fn recent_list(st: BridgeStateV, limit: u64) -> Result<
    Seq<BridgeThreadSnapshotV>,
    BridgeErrorV,
> {
    if limit == 0 {
        Ok(Seq::empty())
    } else if limit > i64::MAX {
        Err(out_of_range())
    } else {
        let rows = at_most(payloads(sorted_desc(active_rows(st))), limit as nat);
        if exists|i: int| 0 <= i < rows.len() && opt_from_sql((#[trigger] rows[i]).updated_at) is Err {
            Err(negative_integer())
        } else {
            Ok(
                rows.map_values(
                    |t: ThreadRowV| stored_snapshot(t, prompt_of(st, t.thread_id)),
                ),
            )
        }
    }
}

/// A stored thread with its prompt as a snapshot.
fn stored_snapshot_of(state: &BridgeState, thread: &ThreadRow) -> (r: Result<
    BridgeThreadSnapshot,
    BridgeError,
>)
    ensures
        match r {
            Ok(s) => opt_from_sql(thread@.updated_at) is Ok && s@ == stored_snapshot(
                thread@,
                prompt_of(state@, thread@.thread_id),
            ),
            Err(e) => opt_from_sql(thread@.updated_at) is Err && e@ == negative_integer(),
        },
{
    let updated_at: Option<u64> = match optional_from_sql_i64(thread.updated_at) {
        Ok(v) => v,
        Err(e) => {
            return Err(e);
        },
    };
    let k: usize = find_prompt(&state.prompts, thread.thread_id.as_str());
    let pending_prompt: Option<PendingPrompt> = if k < state.prompts.len() {
        let prompt = &state.prompts[k];
        assert(state.prompts.deep_view()[k as int] == prompt@);
        Some(
            PendingPrompt {
                prompt_id: prompt.prompt_id.clone(),
                kind: prompt.prompt_kind.clone(),
                status: prompt.prompt_status.clone(),
                question: Some(prompt.question.clone()),
            },
        )
    } else {
        None
    };
    Ok(
        BridgeThreadSnapshot {
            thread_id: thread.thread_id.clone(),
            name: copy_opt(&thread.name),
            cwd: copy_opt(&thread.cwd),
            updated_at,
            status_type: thread.status_type.clone(),
            status_flags: copy_texts(&thread.status_flags),
            last_turn_status: copy_opt(&thread.last_turn_status),
            last_preview: copy_opt(&thread.last_preview),
            pending_prompt,
        },
    )
}

/// The rows of the stored threads, the last active first.
fn threads_by_activity(state: &BridgeState) -> (r: Vec<ThreadRow>)
    ensures
        r.deep_view() == payloads(sorted_desc(active_rows(state@))),
{
    let ghost st = state@;
    let mut rows: Vec<(i128, ThreadRow)> = Vec::new();
    let mut i: usize = 0;
    while i < state.threads.len()
        invariant
            i <= state.threads@.len(),
            st == state@,
            rows@.len() == i,
            forall|k: int|
                0 <= k < i ==> (#[trigger] rows@[k]).0 == last_active(st.threads[k])
                    && rows@[k].1@ == st.threads[k],
        decreases state.threads@.len() - i,
    {
        let t = &state.threads[i];
        assert(st.threads[i as int] == t@);
        let key: i64 = match t.updated_at {
            Some(u) => u,
            None => t.last_seen_at,
        };
        rows.push((key as i128, t.clone()));
        i += 1;
    }
    assert(rows.deep_view() =~= active_rows(st));
    ranked(rows)
}

/// The recent threads, the last active first, `limit` at most.
pub fn list_recent_thread_snapshots_from_db(state: &BridgeState, limit: u64) -> (r: Result<
    Vec<BridgeThreadSnapshot>,
    BridgeError,
>)
    ensures
        outcome(r) == recent_list(state@, limit),
{
    let mut out: Vec<BridgeThreadSnapshot> = Vec::new();
    if limit == 0 {
        assert(out.deep_view() =~= Seq::<BridgeThreadSnapshotV>::empty());
        return Ok(out);
    }
    match to_sql_i64(limit) {
        Ok(_) => {},
        Err(e) => {
            return Err(e);
        },
    }
    let ghost st = state@;
    let mut rows = threads_by_activity(state);
    let ghost all = rows.deep_view();
    if (rows.len() as u64) > limit {
        rows.truncate(limit as usize);
    }
    let ghost wanted = at_most(all, limit as nat);
    assert(rows.deep_view() =~= wanted);
    let mut i: usize = 0;
    while i < rows.len()
        invariant
            i <= rows@.len(),
            st == state@,
            0 < limit <= i64::MAX,
            wanted == rows.deep_view(),
            wanted == at_most(payloads(sorted_desc(active_rows(st))), limit as nat),
            out@.len() == i,
            forall|k: int|
                0 <= k < i ==> opt_from_sql((#[trigger] wanted[k]).updated_at) is Ok && out@[k]@
                    == stored_snapshot(wanted[k], prompt_of(st, wanted[k].thread_id)),
        decreases rows@.len() - i,
    {
        assert(wanted[i as int] == rows@[i as int]@);
        match stored_snapshot_of(state, &rows[i]) {
            Ok(s) => {
                out.push(s);
            },
            Err(e) => {
                return Err(e);
            },
        }
        i += 1;
    }
    assert(out.deep_view() =~= wanted.map_values(
        |t: ThreadRowV| stored_snapshot(t, prompt_of(st, t.thread_id)),
    ));
    Ok(out)
}

/// A directory and when a thread in it was last active.
#[derive(Debug, PartialEq, Eq)]
pub struct ObservedRow {
    pub cwd: String,
    pub seen_at: i64,
}

/// The model of [`ObservedRow`].
#[verifier::ext_equal]
pub struct ObservedRowV {
    pub cwd: Seq<char>,
    pub seen_at: i64,
}

impl View for ObservedRow {
    type V = ObservedRowV;

    open spec fn view(&self) -> ObservedRowV {
        ObservedRowV {
            cwd: self.cwd@,
            seen_at: self.seen_at,
        }
    }
}

impl DeepView for ObservedRow {
    type V = ObservedRowV;

    open spec fn deep_view(&self) -> ObservedRowV {
        self@
    }
}

// ---------------------------------------------------------------------------
// Observed workspaces
// ---------------------------------------------------------------------------

/// A text that holds something else than blanks.
pub open spec fn holds_text(s: Seq<char>) -> bool {
    exists|i: int| 0 <= i < s.len() && s[i] != ' '
}

/// Tells whether a text holds something else than blanks.
fn has_text(s: &str) -> (r: bool)
    ensures
        r == holds_text(s@),
{
    let v = chars_of(s);
    let mut i: usize = 0;
    while i < v.len()
        invariant
            i <= v@.len(),
            v@ == s@,
            forall|k: int| 0 <= k < i ==> v@[k] == ' ',
        decreases v@.len() - i,
    {
        if v[i] != ' ' {
            return true;
        }
        i += 1;
    }
    false
}

/// The directory is this one.
pub open spec fn dir_called(cwd: Seq<char>) -> spec_fn((Seq<char>, i64)) -> bool {
    |d: (Seq<char>, i64)| d.0 == cwd
}

/// The directories with their latest activity, once a thread was seen in `cwd` at `at`.
pub open spec fn note_seen(dirs: Seq<(Seq<char>, i64)>, cwd: Seq<char>, at: i64) -> Seq<
    (Seq<char>, i64),
> {
    let hit = dir_called(cwd);
    match first_row(dirs, hit) {
        Some(d) => put_row(
            dirs,
            hit,
            (
                cwd,
                if at > d.1 {
                    at
                } else {
                    d.1
                },
            ),
        ),
        None => dirs.push((cwd, at)),
    }
}

/// The directories of the first `n` threads, each once, with their latest activity.
pub open spec fn dirs_upto(threads: Seq<ThreadRowV>, n: nat) -> Seq<(Seq<char>, i64)>
    decreases n,
{
    if n == 0 || n > threads.len() {
        Seq::empty()
    } else {
        let before = dirs_upto(threads, (n - 1) as nat);
        let t = threads[n - 1];
        match t.cwd {
            Some(cwd) => if holds_text(cwd) {
                note_seen(before, cwd, last_active(t))
            } else {
                before
            },
            None => before,
        }
    }
}

/// Directories keyed by their latest activity.
pub open spec fn dirs_by_activity(dirs: Seq<(Seq<char>, i64)>) -> Seq<(i128, ObservedRowV)> {
    dirs.map_values(
        |d: (Seq<char>, i64)| (d.1 as i128, ObservedRowV { cwd: d.0, seen_at: d.1 }),
    )
}

/// The directories that threads were seen in, the last active first and by name among
/// those of one moment, `limit` at most.
pub open spec fn observed_rows(st: BridgeStateV, limit: u64) -> Result<
    Seq<ObservedRowV>,
    BridgeErrorV,
> {
    if limit > i64::MAX {
        Err(out_of_range())
    } else {
        Ok(
            at_most(
                payloads(
                    sorted_desc(
                        dirs_by_activity(sorted_text(dirs_upto(st.threads, st.threads.len()))),
                    ),
                ),
                limit as nat,
            ),
        )
    }
}

/// The index of a directory in the list, or the number of directories.
fn find_dir(dirs: &Vec<(String, i64)>, cwd: &str) -> (p: usize)
    ensures
        p <= dirs@.len(),
        p == position(dirs.deep_view(), dir_called(cwd@), 0),
{
    let ghost hit = dir_called(cwd@);
    let mut i: usize = 0;
    while i < dirs.len()
        invariant
            i <= dirs@.len(),
            hit == dir_called(cwd@),
            position(dirs.deep_view(), hit, 0) == position(dirs.deep_view(), hit, i as nat),
        decreases dirs@.len() - i,
    {
        assert(dirs.deep_view()[i as int] == (dirs@[i as int].0@, dirs@[i as int].1));
        if same(dirs[i].0.as_str(), cwd) {
            return i;
        }
        i += 1;
    }
    i
}

/// The directories of the stored threads, each once, with their latest activity.
fn observed_dirs(state: &BridgeState) -> (r: Vec<(String, i64)>)
    ensures
        r.deep_view() == dirs_upto(state@.threads, state@.threads.len()),
{
    let ghost st = state@;
    let mut dirs: Vec<(String, i64)> = Vec::new();
    let mut i: usize = 0;
    assert(dirs.deep_view() =~= Seq::<(Seq<char>, i64)>::empty());
    while i < state.threads.len()
        invariant
            i <= state.threads@.len(),
            st == state@,
            dirs.deep_view() == dirs_upto(st.threads, i as nat),
        decreases state.threads@.len() - i,
    {
        let t = &state.threads[i];
        assert(st.threads[i as int] == t@);
        let at: i64 = match t.updated_at {
            Some(u) => u,
            None => t.last_seen_at,
        };
        match &t.cwd {
            Some(cwd) => {
                if has_text(cwd.as_str()) {
                    let ghost before = dirs.deep_view();
                    let k: usize = find_dir(&dirs, cwd.as_str());
                    if k < dirs.len() {
                        assert(before[k as int] == (dirs@[k as int].0@, dirs@[k as int].1));
                        let known: i64 = dirs[k].1;
                        let latest: i64 = if at > known {
                            at
                        } else {
                            known
                        };
                        dirs[k] = (cwd.clone(), latest);
                        assert(dirs.deep_view() =~= before.update(k as int, (cwd@, latest)));
                    } else {
                        dirs.push((cwd.clone(), at));
                        assert(dirs.deep_view() =~= before.push((cwd@, at)));
                    }
                }
            },
            None => {},
        }
        i += 1;
    }
    dirs
}

/// The directories that threads were seen in, the last active first and by name among
/// those of one moment, `limit` at most.
pub fn observed_workspaces_from_db(state: &BridgeState, limit: u64) -> (r: Result<
    Vec<ObservedRow>,
    BridgeError,
>)
    ensures
        outcome(r) == observed_rows(state@, limit),
{
    match to_sql_i64(limit) {
        Ok(_) => {},
        Err(e) => {
            return Err(e);
        },
    }
    let dirs = observed_dirs(state);
    let ghost listed = dirs.deep_view();
    let ghost pairs = text_keyed(dirs@);
    let named = sort_text(dirs);
    let ghost given = named@;
    assert(pairs =~= listed);
    let ghost ordered = sorted_text(listed);
    assert(text_keyed(given) == ordered);
    let mut rows: Vec<(i128, ObservedRow)> = Vec::new();
    for pair in it: named
        invariant
            it.seq() == given,
            rows@.len() == it.index(),
            forall|k: int|
                0 <= k < it.index() ==> (#[trigger] rows@[k]).0 == given[k].1 && rows@[k].1@.cwd
                    == given[k].0@ && rows@[k].1@.seen_at == given[k].1,
    {
        let key: i128 = pair.1 as i128;
        rows.push((key, ObservedRow { cwd: pair.0, seen_at: pair.1 }));
    }
    proof {
        let want = dirs_by_activity(ordered);
        assert(want.len() == rows@.len());
        assert forall|k: int| 0 <= k < want.len() implies rows.deep_view()[k] == want[k] by {
            assert(rows@[k].0 == given[k].1);
            assert(text_keyed(given)[k] == (given[k].0@, given[k].1));
            assert(rows@[k].1@ == (ObservedRowV { cwd: given[k].0@, seen_at: given[k].1 }));
        }
        assert(rows.deep_view() =~= want);
    }
    let mut out = ranked(rows);
    let ghost all = out.deep_view();
    if (out.len() as u64) > limit {
        out.truncate(limit as usize);
    }
    assert(out.deep_view() =~= at_most(all, limit as nat));
    Ok(out)
}

/// A directory as a workspace with its label.
pub open spec fn workspace(row: ObservedRowV) -> ObservedWorkspaceV {
    ObservedWorkspaceV {
        label: match project_label(Some(row.cwd)) {
            Some(label) => label,
            None => row.cwd,
        },
        cwd: row.cwd,
        last_seen_at: Some(row.seen_at as u64),
    }
}

/// Directories, under the names that the file system gives them, as workspaces.
pub open spec fn workspaces(rows: Seq<ObservedRowV>) -> Result<
    Seq<ObservedWorkspaceV>,
    BridgeErrorV,
> {
    if exists|i: int| 0 <= i < rows.len() && (#[trigger] rows[i]).seen_at < 0 {
        Err(negative_integer())
    } else {
        Ok(rows.map_values(|row: ObservedRowV| workspace(row)))
    }
}

/// Directories, under the names that the file system gives them, as workspaces.
pub fn observed_workspaces_from_rows(rows: &Vec<ObservedRow>) -> (r: Result<
    Vec<ObservedWorkspace>,
    BridgeError,
>)
    ensures
        outcome(r) == workspaces(rows.deep_view()),
{
    let ghost all = rows.deep_view();
    let mut out: Vec<ObservedWorkspace> = Vec::new();
    let mut i: usize = 0;
    while i < rows.len()
        invariant
            i <= rows@.len(),
            all == rows.deep_view(),
            out@.len() == i,
            forall|k: int|
                0 <= k < i ==> (#[trigger] all[k]).seen_at >= 0 && out@[k]@ == workspace(all[k]),
        decreases rows@.len() - i,
    {
        let row = &rows[i];
        assert(all[i as int] == row@);
        let seen: u64 = match from_sql_i64(row.seen_at) {
            Ok(v) => v,
            Err(e) => {
                return Err(e);
            },
        };
        let label: String = match derive_project_label(Some(row.cwd.as_str())) {
            Some(l) => l,
            None => row.cwd.clone(),
        };
        out.push(ObservedWorkspace { cwd: row.cwd.clone(), label, last_seen_at: Some(seen) });
        i += 1;
    }
    assert(out.deep_view() =~= all.map_values(|row: ObservedRowV| workspace(row)));
    Ok(out)
}

// ---------------------------------------------------------------------------
// Archiving
// ---------------------------------------------------------------------------

/// The threads that an archive run takes: those that are named, else the inbox rows
/// that pass the filters.
pub open spec fn archive_selection(
    st: BridgeStateV,
    thread_ids: Seq<Seq<char>>,
    f: InboxFilterV,
    limit: u64,
    now: u64,
) -> Result<ArchiveSelectionV, BridgeErrorV> {
    if thread_ids.len() > 0 {
        Ok(ArchiveSelectionV { targets: thread_ids, using_filter_selection: false })
    } else {
        match inbox_list(st, now, f, limit) {
            Ok(inbox) => Ok(
                ArchiveSelectionV {
                    targets: inbox.items.map_values(|item: InboxItemV| item.thread_id),
                    using_filter_selection: true,
                },
            ),
            Err(e) => Err(e),
        }
    }
}

/// The threads that an archive run takes.
pub fn resolve_archive_targets(
    state: &BridgeState,
    thread_ids: &Vec<String>,
    project: Option<&str>,
    status: Option<&str>,
    attention: Option<&str>,
    limit: u64,
    now: u64,
) -> (r: Result<ArchiveSelection, BridgeError>)
    ensures
        outcome(r) == archive_selection(
            state@,
            thread_ids.deep_view(),
            (InboxFilterV {
                project: project.deep_view(),
                status: status.deep_view(),
                attention: attention.deep_view(),
                waiting_on: None,
            }),
            limit,
            now,
        ),
{
    if thread_ids.len() > 0 {
        return Ok(
            ArchiveSelection { targets: copy_texts(thread_ids), using_filter_selection: false },
        );
    }
    let inbox = match list_inbox_from_db(state, now, project, status, attention, None, limit) {
        Ok(v) => v,
        Err(e) => {
            return Err(e);
        },
    };
    let ghost items = inbox.items.deep_view();
    let mut targets: Vec<String> = Vec::new();
    let mut i: usize = 0;
    while i < inbox.items.len()
        invariant
            i <= inbox.items@.len(),
            targets@.len() == i,
            forall|k: int| 0 <= k < i ==> (#[trigger] targets@[k])@ == inbox.items@[k]@.thread_id,
        decreases inbox.items@.len() - i,
    {
        targets.push(inbox.items[i].thread_id.clone());
        i += 1;
    }
    assert(targets.deep_view() =~= items.map_values(|item: InboxItemV| item.thread_id));
    Ok(ArchiveSelection { targets, using_filter_selection: true })
}

/// What an archive run reports.
pub open spec fn archive_report(dry_run: bool, results: Seq<JsonV>) -> JsonV {
    JsonV::Object(
        Seq::empty()
            .push(("ok"@, JsonV::Bool(true)))
            .push(("action"@, JsonV::Str("archive"@)))
            .push(("dryRun"@, JsonV::Bool(dry_run)))
            .push(("results"@, JsonV::Array(results))),
    )
}

/// What an archive run reports.
pub fn archive_result(dry_run: bool, results: Vec<Json>) -> (r: Json)
    ensures
        r@ == archive_report(dry_run, results.deep_view()),
{
    Object::new().with("ok", Json::Bool(true)).with("action", Json::text("archive")).with(
        "dryRun",
        Json::Bool(dry_run),
    ).with("results", Json::array(results)).done()
}

/// A thread and what came of it.
pub open spec fn archive_entry(thread_id: Seq<char>, status: Seq<char>) -> JsonV {
    JsonV::Object(
        Seq::empty()
            .push(("threadId"@, JsonV::Str(thread_id)))
            .push(("status"@, JsonV::Str(status))),
    )
}

/// Threads with one status.
pub open spec fn archive_entries(targets: Seq<Seq<char>>, status: Seq<char>) -> Seq<JsonV> {
    targets.map_values(|t: Seq<char>| archive_entry(t, status))
}

/// Threads with one status.
pub fn archive_statuses(targets: &Vec<String>, status: &str) -> (r: Vec<Json>)
    ensures
        r.deep_view() == archive_entries(targets.deep_view(), status@),
{
    let mut out: Vec<Json> = Vec::new();
    let mut i: usize = 0;
    while i < targets.len()
        invariant
            i <= targets@.len(),
            out@.len() == i,
            forall|k: int|
                0 <= k < i ==> (#[trigger] out@[k])@ == archive_entry(targets@[k]@, status@),
        decreases targets@.len() - i,
    {
        let entry = Object::new().with("threadId", Json::Str(targets[i].clone())).with(
            "status",
            Json::text(status),
        ).done();
        out.push(entry);
        i += 1;
    }
    assert(out.deep_view() =~= archive_entries(targets.deep_view(), status@));
    out
}

/// A run over threads that nobody named has to be confirmed, unless it only shows what it would do.
pub open spec fn needs_confirmation(dry_run: bool, bulk: bool, yes: bool) -> bool {
    !dry_run && bulk && !yes
}

/// The failure of a run that was not confirmed.
pub open spec fn unconfirmed() -> BridgeErrorV {
    failure("Refusing bulk archive without --yes or --dry-run"@)
}

/// Refuses a run over threads that nobody named and nobody confirmed.
pub fn check_bulk_archive(dry_run: bool, bulk: bool, yes: bool) -> (r: Result<(), BridgeError>)
    ensures
        match r {
            Ok(_) => !needs_confirmation(dry_run, bulk, yes),
            Err(e) => needs_confirmation(dry_run, bulk, yes) && e@ == unconfirmed(),
        },
{
    if !dry_run && bulk && !yes {
        Err(BridgeError::new("Refusing bulk archive without --yes or --dry-run"))
    } else {
        Ok(())
    }
}

/// The archive run over the stored threads alone: what it would report.
pub open spec fn archive_outcome(
    st: BridgeStateV,
    thread_id: Option<Seq<char>>,
    attention: Option<Seq<char>>,
    dry_run: bool,
    yes: bool,
    now: u64,
) -> Result<JsonV, BridgeErrorV> {
    let named = match thread_id {
        Some(id) => seq![id],
        None => Seq::empty(),
    };
    let f = InboxFilterV { project: None, status: None, attention, waiting_on: None };
    match archive_selection(st, named, f, 100, now) {
        Err(e) => Err(e),
        Ok(selection) => if needs_confirmation(dry_run, selection.using_filter_selection, yes) {
            Err(unconfirmed())
        } else {
            Ok(
                archive_report(
                    dry_run,
                    archive_entries(
                        selection.targets,
                        if dry_run {
                            "would_archive"@
                        } else {
                            "archived"@
                        },
                    ),
                ),
            )
        },
    }
}

/// The archive run over the stored threads alone.
pub fn archive_from_db(
    state: &BridgeState,
    thread_id: Option<&str>,
    attention: Option<&str>,
    dry_run: bool,
    yes: bool,
    now: u64,
) -> (r: Result<Json, BridgeError>)
    ensures
        outcome(r) == archive_outcome(
            state@,
            thread_id.deep_view(),
            attention.deep_view(),
            dry_run,
            yes,
            now,
        ),
{
    let mut named: Vec<String> = Vec::new();
    match thread_id {
        Some(id) => {
            named.push(id.to_owned());
            assert(named.deep_view() =~= seq![id@]);
        },
        None => {
            assert(named.deep_view() =~= Seq::<Seq<char>>::empty());
        },
    }
    let selection = match resolve_archive_targets(state, &named, None, None, attention, 100, now) {
        Ok(v) => v,
        Err(e) => {
            return Err(e);
        },
    };
    match check_bulk_archive(dry_run, selection.using_filter_selection, yes) {
        Ok(_) => {},
        Err(e) => {
            return Err(e);
        },
    }
    let status = if dry_run {
        "would_archive"
    } else {
        "archived"
    };
    Ok(archive_result(dry_run, archive_statuses(&selection.targets, status)))
}

/// No thread is archived that nobody named, unless the run was confirmed or only shows
/// what it would do.
pub proof fn bulk_archive_is_confirmed(
    st: BridgeStateV,
    attention: Option<Seq<char>>,
    now: u64,
)
    ensures
        archive_outcome(st, None, attention, false, false, now) is Err,
{
}

/// What bringing a thread back reports.
pub open spec fn unarchive_report(thread_id: Seq<char>, dry_run: bool, result: JsonV) -> JsonV {
    JsonV::Object(
        Seq::empty()
            .push(("ok"@, JsonV::Bool(true)))
            .push(("action"@, JsonV::Str("unarchive"@)))
            .push(("dryRun"@, JsonV::Bool(dry_run)))
            .push(
                ("results"@, JsonV::Array(
                    Seq::empty().push(
                        if dry_run {
                            archive_entry(thread_id, "would_unarchive"@)
                        } else {
                            JsonV::Object(
                                Seq::empty()
                                    .push(("threadId"@, JsonV::Str(thread_id)))
                                    .push(("status"@, JsonV::Str("unarchived"@)))
                                    .push(("result"@, result)),
                            )
                        },
                    ),
                )),
            ),
    )
}

/// What the server said, or that all is well where it said nothing.
pub open spec fn live_or_ok(thread_id: Seq<char>, live: Option<JsonV>) -> JsonV {
    match live {
        Some(v) => v,
        None => JsonV::Object(
            Seq::empty()
                .push(("threadId"@, JsonV::Str(thread_id)))
                .push(("ok"@, JsonV::Bool(true))),
        ),
    }
}

/// What the log says of bringing a thread back.
pub open spec fn unarchive_payload(result: JsonV, now: u64) -> JsonV {
    JsonV::Object(
        Seq::empty()
            .push(("result"@, result))
            .push(("unarchivedAt"@, JsonV::UInt(now))),
    )
}

/// Reports that a thread was brought back, and logs it unless the run only shows what
/// it would do.
pub fn unarchive_thread_result(
    state: &mut BridgeState,
    thread_id: &str,
    dry_run: bool,
    now: u64,
    live_result: Option<Json>,
) -> (r: Result<Json, BridgeError>)
    ensures
        ({
            let result = live_or_ok(thread_id@, live_result.deep_view());
            match r {
                Ok(report) => {
                    &&& report@ == unarchive_report(thread_id@, dry_run, result)
                    &&& if dry_run {
                        final(state)@ == old(state)@
                    } else {
                        now <= i64::MAX && final(state)@ == with_action(
                            old(state)@,
                            thread_id@,
                            "unarchive"@,
                            unarchive_payload(result, now),
                            now as i64,
                        )
                    }
                },
                Err(e) => !dry_run && now > i64::MAX && e@ == out_of_range() && final(state)@
                    == old(state)@,
            }
        }),
{
    if dry_run {
        let entry = Object::new().with("threadId", Json::text(thread_id)).with(
            "status",
            Json::text("would_unarchive"),
        ).done();
        return Ok(
            Object::new().with("ok", Json::Bool(true)).with("action", Json::text("unarchive")).with(
                "dryRun",
                Json::Bool(true),
            ).with("results", Json::list_of_one(entry)).done(),
        );
    }
    let result: Json = match live_result {
        Some(v) => v,
        None => Object::new().with("threadId", Json::text(thread_id)).with(
            "ok",
            Json::Bool(true),
        ).done(),
    };
    let payload = Object::new().with("result", result.clone()).with(
        "unarchivedAt",
        Json::UInt(now),
    ).done();
    match record_action(state, thread_id, "unarchive", payload, now) {
        Ok(_) => {},
        Err(e) => {
            return Err(e);
        },
    }
    let entry = Object::new().with("threadId", Json::text(thread_id)).with(
        "status",
        Json::text("unarchived"),
    ).with("result", result).done();
    Ok(
        Object::new().with("ok", Json::Bool(true)).with("action", Json::text("unarchive")).with(
            "dryRun",
            Json::Bool(false),
        ).with("results", Json::list_of_one(entry)).done(),
    )
}

// ---------------------------------------------------------------------------
// Events of waiting threads
// ---------------------------------------------------------------------------

/// The event of a stored thread that waits.
pub open spec fn cached_waiting_event(t: WaitingThreadV) -> JsonV {
    JsonV::Object(
        Seq::empty()
            .push(("type"@, JsonV::Str("thread_waiting"@)))
            .push(("threadId"@, JsonV::Str(t.thread_id)))
            .push(
                ("thread"@, JsonV::Object(
                    Seq::empty()
                        .push(("threadId"@, JsonV::Str(t.thread_id)))
                        .push(("name"@, text_or_null(t.name)))
                        .push(("cwd"@, text_or_null(t.cwd)))
                        .push(("updatedAt"@, uint_or_null(t.updated_at)))
                        .push(("statusType"@, JsonV::Str(t.status_type)))
                        .push(("statusFlags"@, text_array(t.status_flags)))
                        .push(("lastPreview"@, text_or_null(t.last_preview)))
                        .push(("pendingPrompt"@, prompt_json(t.prompt))),
                )),
            ),
    )
}

/// The events of the stored threads that wait.
pub open spec fn cached_events(st: BridgeStateV) -> Result<Seq<JsonV>, BridgeErrorV> {
    match waiting_list(st, None, 100) {
        Ok(list) => Ok(list.threads.map_values(|t: WaitingThreadV| cached_waiting_event(t))),
        Err(e) => Err(e),
    }
}

/// The events of the stored threads that wait.
pub fn watch_once_from_db(state: &BridgeState) -> (r: Result<Vec<Json>, BridgeError>)
    ensures
        outcome(r) == cached_events(state@),
{
    let waiting = match list_waiting_from_db(state, None, 100) {
        Ok(v) => v,
        Err(e) => {
            return Err(e);
        },
    };
    let ghost all = waiting.threads.deep_view();
    let mut out: Vec<Json> = Vec::new();
    let mut i: usize = 0;
    while i < waiting.threads.len()
        invariant
            i <= waiting.threads@.len(),
            out@.len() == i,
            forall|k: int|
                0 <= k < i ==> (#[trigger] out@[k])@ == cached_waiting_event(
                    waiting.threads@[k]@,
                ),
        decreases waiting.threads@.len() - i,
    {
        let t = &waiting.threads[i];
        let thread = Object::new().with("threadId", Json::Str(t.thread_id.clone())).with(
            "name",
            Json::opt_text(&t.name),
        ).with("cwd", Json::opt_text(&t.cwd)).with("updatedAt", Json::opt_uint(t.updated_at)).with(
            "statusType",
            Json::Str(t.status_type.clone()),
        ).with("statusFlags", Json::texts(&t.status_flags)).with(
            "lastPreview",
            Json::opt_text(&t.last_preview),
        ).with("pendingPrompt", pending_prompt_json(&t.prompt)).done();
        let event = Object::new().with("type", Json::text("thread_waiting")).with(
            "threadId",
            Json::Str(t.thread_id.clone()),
        ).with("thread", thread).done();
        out.push(event);
        i += 1;
    }
    assert(out.deep_view() =~= all.map_values(|t: WaitingThreadV| cached_waiting_event(t)));
    Ok(out)
}

} // verus!
