//! The registry of projects: ids, imports from the directories that threads were seen in,
//! and the reports of its commands.
use vstd::prelude::*;
use vstd::string::*;

use crate::config::{
    DaemonConfig, DaemonConfigV, project_json, projects_json, registered_project_json,
    registered_projects_json, RegisteredProject, RegisteredProjectV,
};
use crate::discord_commands::{find_project, project_hit};
use crate::error::{BridgeError, BridgeErrorV, failure, outcome};
use crate::events::{is_listed, listed};
use crate::inbox::{ObservedWorkspace, ObservedWorkspaceV};
use crate::json::{Json, JsonV, Object, uint_or_null};
use crate::table::{first_row, lemma_position, lemma_without_step, position, without};
use crate::text::{
    ascii_lower, ascii_lower_char, ascii_lowered, cat3, chars_of, decimal, decimal_parses_back,
    same, text_of, to_ascii_lowercase, trim, trimmed, u64_text,
};
use crate::thread::{derive_project_label, project_label};

verus! {

// ---------------------------------------------------------------------------
// Ids
// ---------------------------------------------------------------------------

/// A letter or a digit of ASCII.
pub open spec fn is_token_char(c: char) -> bool {
    'a' <= c <= 'z' || 'A' <= c <= 'Z' || '0' <= c <= '9'
}

/// The token of the first `n` characters: letters in lower case and digits, and one hyphen
/// for what stands between them.
pub open spec fn token_upto(s: Seq<char>, n: nat) -> Seq<char>
    decreases n,
{
    if n == 0 || n > s.len() {
        Seq::empty()
    } else {
        let before = token_upto(s, (n - 1) as nat);
        if is_token_char(s[n - 1]) {
            before.push(ascii_lower(s[n - 1]))
        } else if before.len() == 0 || before.last() == '-' {
            before
        } else {
            before.push('-')
        }
    }
}

/// A label as a token; none where nothing is left of it.
pub open spec fn project_token(label: Seq<char>) -> Option<Seq<char>> {
    let token = token_upto(label, label.len());
    let cut = if token.len() > 0 && token.last() == '-' {
        token.drop_last()
    } else {
        token
    };
    if cut.len() == 0 {
        None
    } else {
        Some(cut)
    }
}

/// Makes a token of a label; none where nothing is left of it.
pub fn slugify_project_token(label: &str) -> (r: Option<String>)
    ensures
        r.deep_view() == project_token(label@),
{
    let v = chars_of(label);
    let mut out: Vec<char> = Vec::new();
    let mut i: usize = 0;
    while i < v.len()
        invariant
            i <= v@.len(),
            v@ == label@,
            out@ == token_upto(v@, i as nat),
        decreases v@.len() - i,
    {
        let c: char = v[i];
        if ('a' <= c && c <= 'z') || ('A' <= c && c <= 'Z') || ('0' <= c && c <= '9') {
            out.push(ascii_lower_char(c));
        } else if out.len() > 0 && out[out.len() - 1] != '-' {
            out.push('-');
        }
        i += 1;
    }
    let mut to: usize = out.len();
    if to > 0 && out[to - 1] == '-' {
        to = to - 1;
    }
    if to == 0 {
        None
    } else {
        assert(out@.subrange(0, to as int) =~= if out@.last() == '-' {
            out@.drop_last()
        } else {
            out@
        });
        Some(text_of(&out, 0, to))
    }
}

/// The id with a number.
pub open spec fn numbered_id(base: Seq<char>, k: nat) -> Seq<char> {
    base + "-"@ + decimal(k)
}

/// The first id with a number, from `k` on, that is not taken.
pub open spec fn first_free_id(base: Seq<char>, ids: Seq<Seq<char>>, k: nat) -> Seq<char>
    decreases ids.len() + 1 - k,
{
    if k > ids.len() || !listed(ids, numbered_id(base, k)) {
        numbered_id(base, k)
    } else {
        first_free_id(base, ids, k + 1)
    }
}

/// An id that is not taken: the id itself, else the first with a number, from 2 on.
pub open spec fn unique_id(base: Seq<char>, ids: Seq<Seq<char>>) -> Seq<char> {
    if listed(ids, base) {
        first_free_id(base, ids, 2)
    } else {
        base
    }
}

/// Where the id and those numbered from 2 to `k` are taken, at least `k` are.
proof fn lemma_taken_ids(base: Seq<char>, ids: Seq<Seq<char>>, k: nat)
    requires
        1 <= k <= u64::MAX,
        listed(ids, base),
        forall|j: nat| 2 <= j <= k ==> listed(ids, #[trigger] numbered_id(base, j)),
    ensures
        k <= ids.len(),
{
    let taken = Seq::new(
        k,
        |i: int|
            if i == 0 {
                base
            } else {
                numbered_id(base, (i + 1) as nat)
            },
    );
    assert forall|i: int, j: int| 0 <= i < j < taken.len() implies taken[i] != taken[j] by {
        reveal_strlit("-");
        let b = numbered_id(base, (j + 1) as nat);
        if i == 0 {
            assert(b.len() > base.len());
        } else {
            let a = numbered_id(base, (i + 1) as nat);
            if a == b {
                let m = (i + 1) as u64;
                let n = (j + 1) as u64;
                decimal_parses_back(m);
                decimal_parses_back(n);
                let start = base.len() + 1;
                assert(a.skip(start as int) =~= decimal(m as nat));
                assert(b.skip(start as int) =~= decimal(n as nat));
            }
        }
    }
    assert(taken.no_duplicates());
    taken.unique_seq_to_set();
    ids.lemma_cardinality_of_set();
    assert(taken.to_set().subset_of(ids.to_set())) by {
        assert forall|x: Seq<char>| taken.to_set().contains(x) implies ids.to_set().contains(
            x,
        ) by {
            let i = choose|i: int| 0 <= i < taken.len() && taken[i] == x;
            assert(listed(ids, x));
        }
    }
    vstd::set_lib::lemma_len_subset(taken.to_set(), ids.to_set());
}

/// The search for a free id ends with one.
proof fn lemma_free_id(base: Seq<char>, ids: Seq<Seq<char>>, k: nat)
    requires
        2 <= k <= ids.len() + 1,
        ids.len() < u64::MAX,
        listed(ids, base),
        forall|j: nat| 2 <= j < k ==> listed(ids, #[trigger] numbered_id(base, j)),
    ensures
        !listed(ids, first_free_id(base, ids, k)),
    decreases ids.len() + 1 - k,
{
    if listed(ids, numbered_id(base, k)) {
        lemma_taken_ids(base, ids, k);
        lemma_free_id(base, ids, k + 1);
    }
}

/// An id that is made unique is not taken.
pub proof fn unique_ids_are_free(base: Seq<char>, ids: Seq<Seq<char>>)
    requires
        ids.len() < u64::MAX,
    ensures
        !listed(ids, unique_id(base, ids)),
{
    if listed(ids, base) {
        assert(ids.len() >= 1);
        lemma_free_id(base, ids, 2);
    }
}

/// Makes an id unique among those that are taken.
pub fn ensure_unique_project_id(base: &str, existing_ids: &Vec<String>) -> (r: String)
    requires
        existing_ids@.len() < usize::MAX,
    ensures
        r@ == unique_id(base@, existing_ids.deep_view()),
        !listed(existing_ids.deep_view(), r@),
{
    let ghost ids = existing_ids.deep_view();
    proof {
        unique_ids_are_free(base@, ids);
    }
    if !is_listed(existing_ids, base) {
        return base.to_owned();
    }
    let mut k: u64 = 2;
    loop
        invariant
            ids == existing_ids.deep_view(),
            existing_ids@.len() < usize::MAX,
            2 <= k <= ids.len() + 1,
            listed(ids, base@),
            forall|j: nat| 2 <= j < k ==> listed(ids, #[trigger] numbered_id(base@, j)),
            unique_id(base@, ids) == first_free_id(base@, ids, k as nat),
            !listed(ids, unique_id(base@, ids)),
        decreases ids.len() + 1 - k,
    {
        let id = cat3(base, "-", u64_text(k).as_str());
        if !is_listed(existing_ids, id.as_str()) {
            return id;
        }
        proof {
            lemma_taken_ids(base@, ids, k as nat);
        }
        k += 1;
    }
}

// ---------------------------------------------------------------------------
// Imports
// ---------------------------------------------------------------------------

/// The ids of projects.
pub open spec fn ids_of(projects: Seq<RegisteredProjectV>) -> Seq<Seq<char>> {
    projects.map_values(|p: RegisteredProjectV| p.id)
}

/// The ids of projects.
fn project_ids(projects: &Vec<RegisteredProject>) -> (r: Vec<String>)
    ensures
        r.deep_view() == ids_of(projects.deep_view()),
        r@.len() == projects@.len(),
{
    let ghost all = projects.deep_view();
    let mut ids: Vec<String> = Vec::new();
    let mut i: usize = 0;
    while i < projects.len()
        invariant
            i <= projects@.len(),
            all == projects.deep_view(),
            ids@.len() == i,
            ids.deep_view() == ids_of(all).take(i as int),
        decreases projects@.len() - i,
    {
        let ghost before = ids.deep_view();
        assert(all[i as int] == projects@[i as int]@);
        ids.push(projects[i].id.clone());
        assert(ids.deep_view() =~= before.push(all[i as int].id));
        assert(ids_of(all).take(i as int + 1) =~= before.push(all[i as int].id));
        i += 1;
    }
    assert(ids_of(all).take(all.len() as int) =~= ids_of(all));
    ids
}

/// A project works in this directory.
pub open spec fn has_cwd(projects: Seq<RegisteredProjectV>, cwd: Seq<char>) -> bool {
    exists|i: int| 0 <= i < projects.len() && (#[trigger] projects[i]).cwd == cwd
}

/// Tells whether a project works in this directory.
pub fn cwd_is_registered(projects: &Vec<RegisteredProject>, cwd: &str) -> (r: bool)
    ensures
        r == has_cwd(projects.deep_view(), cwd@),
{
    let ghost all = projects.deep_view();
    let mut i: usize = 0;
    while i < projects.len()
        invariant
            i <= projects@.len(),
            all == projects.deep_view(),
            forall|k: int| 0 <= k < i ==> (#[trigger] all[k]).cwd != cwd@,
        decreases projects@.len() - i,
    {
        assert(all[i as int] == projects@[i as int]@);
        if same(projects[i].cwd.as_str(), cwd) {
            return true;
        }
        i += 1;
    }
    false
}

/// The project that a workspace would become.
pub open spec fn import_of(w: ObservedWorkspaceV, taken: Seq<Seq<char>>) -> RegisteredProjectV {
    let base = match project_token(w.label) {
        Some(token) => token,
        None => "project"@,
    };
    RegisteredProjectV {
        id: unique_id(base, taken),
        label: w.label,
        cwd: w.cwd,
        aliases: Seq::empty(),
    }
}

/// The projects that the first `n` workspaces would become: those of directories that are
/// not registered yet.
pub open spec fn imports_upto(
    observed: Seq<ObservedWorkspaceV>,
    existing: Seq<RegisteredProjectV>,
    n: nat,
) -> Seq<RegisteredProjectV>
    decreases n,
{
    if n == 0 || n > observed.len() {
        Seq::empty()
    } else {
        let before = imports_upto(observed, existing, (n - 1) as nat);
        let w = observed[n - 1];
        if has_cwd(existing, w.cwd) || has_cwd(before, w.cwd) {
            before
        } else {
            before.push(import_of(w, ids_of(existing) + ids_of(before)))
        }
    }
}

/// The projects that workspaces would become.
pub open spec fn imports(
    observed: Seq<ObservedWorkspaceV>,
    existing: Seq<RegisteredProjectV>,
) -> Seq<RegisteredProjectV> {
    imports_upto(observed, existing, observed.len())
}

/// The projects that workspaces would become.
pub fn importable_projects_from_observed(
    observed: &Vec<ObservedWorkspace>,
    existing_projects: &Vec<RegisteredProject>,
) -> (r: Vec<RegisteredProject>)
    requires
        observed@.len() + existing_projects@.len() < usize::MAX,
    ensures
        r.deep_view() == imports(observed.deep_view(), existing_projects.deep_view()),
{
    let ghost seen = observed.deep_view();
    let ghost existing = existing_projects.deep_view();
    let mut ids: Vec<String> = project_ids(existing_projects);
    let mut projects: Vec<RegisteredProject> = Vec::new();
    assert(projects.deep_view() =~= Seq::<RegisteredProjectV>::empty());
    assert(ids.deep_view() =~= ids_of(existing) + ids_of(projects.deep_view()));
    let mut n: usize = 0;
    while n < observed.len()
        invariant
            n <= observed@.len(),
            seen == observed.deep_view(),
            existing == existing_projects.deep_view(),
            observed@.len() + existing_projects@.len() < usize::MAX,
            projects@.len() <= n,
            ids.deep_view() == ids_of(existing) + ids_of(projects.deep_view()),
            projects.deep_view() == imports_upto(seen, existing, n as nat),
        decreases observed@.len() - n,
    {
        let w = &observed[n];
        assert(seen[n as int] == w@);
        let ghost before = projects.deep_view();
        if !cwd_is_registered(existing_projects, w.cwd.as_str()) && !cwd_is_registered(
            &projects,
            w.cwd.as_str(),
        ) {
            let base: String = match slugify_project_token(w.label.as_str()) {
                Some(token) => token,
                None => "project".to_owned(),
            };
            assert(ids@.len() == ids.deep_view().len());
            let id = ensure_unique_project_id(base.as_str(), &ids);
            let ghost taken = ids.deep_view();
            ids.push(id.clone());
            assert(ids.deep_view() =~= taken.push(id@));
            let aliases: Vec<String> = Vec::new();
            assert(aliases.deep_view() =~= Seq::<Seq<char>>::empty());
            let p = RegisteredProject { id, label: w.label.clone(), cwd: w.cwd.clone(), aliases };
            projects.push(p);
            assert(projects.deep_view() =~= before.push(p@));
            assert(ids_of(projects.deep_view()) =~= ids_of(before).push(p@.id));
            assert(ids.deep_view() =~= ids_of(existing) + ids_of(projects.deep_view()));
        }
        n += 1;
    }
    projects
}

/// What is imported has ids and directories that no registered project and no other import
/// has.
pub proof fn imports_are_new(
    observed: Seq<ObservedWorkspaceV>,
    existing: Seq<RegisteredProjectV>,
    n: nat,
)
    requires
        n <= observed.len(),
        observed.len() + existing.len() < u64::MAX,
    ensures
        imports_upto(observed, existing, n).len() <= n,
        forall|i: int, k: int|
            #![trigger imports_upto(observed, existing, n)[i], existing[k]]
            0 <= i < imports_upto(observed, existing, n).len() && 0 <= k < existing.len() ==> {
                &&& imports_upto(observed, existing, n)[i].id != existing[k].id
                &&& imports_upto(observed, existing, n)[i].cwd != existing[k].cwd
            },
        forall|i: int, k: int|
            #![trigger imports_upto(observed, existing, n)[i], imports_upto(observed, existing, n)[k]]
            0 <= i < k < imports_upto(observed, existing, n).len() ==> {
                &&& imports_upto(observed, existing, n)[i].id != imports_upto(
                    observed,
                    existing,
                    n,
                )[k].id
                &&& imports_upto(observed, existing, n)[i].cwd != imports_upto(
                    observed,
                    existing,
                    n,
                )[k].cwd
            },
    decreases n,
{
    if n > 0 {
        imports_are_new(observed, existing, (n - 1) as nat);
        let before = imports_upto(observed, existing, (n - 1) as nat);
        let w = observed[n - 1];
        if !has_cwd(existing, w.cwd) && !has_cwd(before, w.cwd) {
            let taken = ids_of(existing) + ids_of(before);
            let base = match project_token(w.label) {
                Some(token) => token,
                None => "project"@,
            };
            unique_ids_are_free(base, taken);
            let p = import_of(w, taken);
            assert forall|k: int| 0 <= k < existing.len() implies p.id != #[trigger] existing[k].id
                && p.cwd != existing[k].cwd by {
                assert(taken[k] == existing[k].id);
            }
            assert forall|k: int| 0 <= k < before.len() implies p.id != #[trigger] before[k].id
                && p.cwd != before[k].cwd by {
                assert(taken[existing.len() + k] == before[k].id);
            }
        }
    }
}

/// Every directory that was seen is registered, once what can be imported is.
pub proof fn imports_are_complete(
    observed: Seq<ObservedWorkspaceV>,
    existing: Seq<RegisteredProjectV>,
    n: nat,
    i: int,
)
    requires
        0 <= i < n <= observed.len(),
    ensures
        has_cwd(existing + imports_upto(observed, existing, n), observed[i].cwd),
    decreases n,
{
    let before = imports_upto(observed, existing, (n - 1) as nat);
    let after = imports_upto(observed, existing, n);
    let cwd = observed[i].cwd;
    let whole = existing + after;
    if i < n - 1 {
        imports_are_complete(observed, existing, (n - 1) as nat, i);
        let k = choose|k: int|
            0 <= k < (existing + before).len() && (#[trigger] (existing + before)[k]).cwd == cwd;
        assert(whole[k] == (existing + before)[k]);
    } else if has_cwd(existing, cwd) {
        let k = choose|k: int| 0 <= k < existing.len() && (#[trigger] existing[k]).cwd == cwd;
        assert(whole[k] == existing[k]);
    } else if has_cwd(before, cwd) {
        let k = choose|k: int| 0 <= k < before.len() && (#[trigger] before[k]).cwd == cwd;
        assert(whole[existing.len() + k] == before[k]);
    } else {
        assert(whole[whole.len() - 1].cwd == cwd);
    }
}

// ---------------------------------------------------------------------------
// Finding a project
// ---------------------------------------------------------------------------

/// A project goes by this name: its id, its label or one of its aliases, in any case of the
/// letters of ASCII.
pub open spec fn goes_by(p: RegisteredProjectV, name: Seq<char>) -> bool {
    ||| ascii_lowered(p.id) == ascii_lowered(name)
    ||| ascii_lowered(p.label) == ascii_lowered(name)
    ||| exists|i: int|
        0 <= i < p.aliases.len() && ascii_lowered(#[trigger] p.aliases[i]) == ascii_lowered(name)
}

/// A project that goes by this name.
pub open spec fn name_hit(name: Seq<char>) -> spec_fn(RegisteredProjectV) -> bool {
    |p: RegisteredProjectV| goes_by(p, name)
}

/// Tells whether a project goes by this name.
fn project_goes_by(p: &RegisteredProject, name: &str) -> (r: bool)
    ensures
        r == goes_by(p@, name@),
{
    let wanted = to_ascii_lowercase(name);
    if same(to_ascii_lowercase(p.id.as_str()).as_str(), wanted.as_str()) {
        return true;
    }
    if same(to_ascii_lowercase(p.label.as_str()).as_str(), wanted.as_str()) {
        return true;
    }
    let ghost aliases = p.aliases.deep_view();
    let mut i: usize = 0;
    while i < p.aliases.len()
        invariant
            i <= p.aliases@.len(),
            aliases == p.aliases.deep_view(),
            aliases == p@.aliases,
            wanted@ == ascii_lowered(name@),
            forall|k: int| 0 <= k < i ==> ascii_lowered(#[trigger] aliases[k]) != wanted@,
        decreases p.aliases@.len() - i,
    {
        assert(aliases[i as int] == p.aliases@[i as int]@);
        if same(to_ascii_lowercase(p.aliases[i].as_str()).as_str(), wanted.as_str()) {
            return true;
        }
        i += 1;
    }
    false
}

/// The failure of a project that is not registered.
pub open spec fn no_such_project(name: Seq<char>) -> BridgeErrorV {
    failure("project `"@ + name + "` was not found"@)
}

/// Finds the first project that goes by a name.
pub fn resolve_project_query(projects: &Vec<RegisteredProject>, query: &str) -> (r: Result<
    RegisteredProject,
    BridgeError,
>)
    ensures
        outcome(r) == (match first_row(projects.deep_view(), name_hit(trimmed(query@))) {
            Some(p) => Ok(p),
            None => Err(no_such_project(trimmed(query@))),
        }),
{
    let name = trim(query);
    let ghost all = projects.deep_view();
    let mut i: usize = 0;
    while i < projects.len()
        invariant
            i <= projects@.len(),
            all == projects.deep_view(),
            name@ == trimmed(query@),
            position(all, name_hit(name@), 0) == position(all, name_hit(name@), i as nat),
        decreases projects@.len() - i,
    {
        assert(all[i as int] == projects@[i as int]@);
        if project_goes_by(&projects[i], name.as_str()) {
            return Ok(projects[i].clone());
        }
        i += 1;
    }
    Err(BridgeError::new(cat3("project `", name.as_str(), "` was not found").as_str()))
}

// ---------------------------------------------------------------------------
// Commands
// ---------------------------------------------------------------------------

/// A workspace as JSON.
pub open spec fn workspace_json(w: ObservedWorkspaceV) -> JsonV {
    JsonV::Object(
        Seq::empty()
            .push(("label"@, JsonV::Str(w.label)))
            .push(("cwd"@, JsonV::Str(w.cwd)))
            .push(("lastSeenAt"@, uint_or_null(w.last_seen_at))),
    )
}

/// Workspaces as JSON.
pub open spec fn workspaces_json(observed: Seq<ObservedWorkspaceV>) -> JsonV {
    JsonV::Array(observed.map_values(|w: ObservedWorkspaceV| workspace_json(w)))
}

/// Workspaces as JSON.
fn observed_json(observed: &Vec<ObservedWorkspace>) -> (r: Json)
    ensures
        r@ == workspaces_json(observed.deep_view()),
{
    let mut out: Vec<Json> = Vec::new();
    let mut i: usize = 0;
    while i < observed.len()
        invariant
            i <= observed@.len(),
            out@.len() == i,
            forall|k: int| 0 <= k < i ==> (#[trigger] out@[k])@ == workspace_json(observed@[k]@),
        decreases observed@.len() - i,
    {
        out.push(
            Object::new().with("label", Json::Str(observed[i].label.clone())).with(
                "cwd",
                Json::Str(observed[i].cwd.clone()),
            ).with("lastSeenAt", Json::opt_uint(observed[i].last_seen_at)).done(),
        );
        i += 1;
    }
    assert(out.deep_view() =~= observed.deep_view().map_values(
        |w: ObservedWorkspaceV| workspace_json(w),
    ));
    Json::array(out)
}

/// The report of listing the projects.
pub open spec fn list_report(
    projects: Seq<RegisteredProjectV>,
    observed: Seq<ObservedWorkspaceV>,
) -> JsonV {
    JsonV::Object(
        Seq::empty()
            .push(("ok"@, JsonV::Bool(true)))
            .push(("action"@, JsonV::Str("projects_list"@)))
            .push(("configured"@, projects_json(projects)))
            .push(("observed"@, workspaces_json(observed)))
            .push(("importable"@, projects_json(imports(observed, projects)))),
    )
}

/// Lists the projects, the workspaces that were seen, and what could be imported.
pub fn projects_list_result(config: &DaemonConfig, observed: &Vec<ObservedWorkspace>) -> (r: Json)
    requires
        observed@.len() + config.projects@.len() < usize::MAX,
    ensures
        r@ == list_report(config@.projects, observed.deep_view()),
{
    let importable = importable_projects_from_observed(observed, &config.projects);
    Object::new().with("ok", Json::Bool(true)).with("action", Json::text("projects_list")).with(
        "configured",
        registered_projects_json(&config.projects),
    ).with("observed", observed_json(observed)).with(
        "importable",
        registered_projects_json(&importable),
    ).done()
}

/// The configuration with other projects.
pub open spec fn with_projects(
    config: DaemonConfigV,
    projects: Seq<RegisteredProjectV>,
) -> DaemonConfigV {
    DaemonConfigV { projects, ..config }
}

/// The report of adding or removing a project.
pub open spec fn project_report(
    action: Seq<char>,
    dry_run: bool,
    p: RegisteredProjectV,
) -> JsonV {
    JsonV::Object(
        Seq::empty()
            .push(("ok"@, JsonV::Bool(true)))
            .push(("action"@, JsonV::Str(action)))
            .push(("dryRun"@, JsonV::Bool(dry_run)))
            .push(("project"@, project_json(p))),
    )
}

/// The report of adding or removing a project.
fn report_project(action: &str, dry_run: bool, p: &RegisteredProject) -> (r: Json)
    ensures
        r@ == project_report(action@, dry_run, p@),
{
    Object::new().with("ok", Json::Bool(true)).with("action", Json::text(action)).with(
        "dryRun",
        Json::Bool(dry_run),
    ).with("project", registered_project_json(p)).done()
}

/// Adds a project, whose directory must not be registered yet: the configuration to write,
/// unless the run only shows what it would do, and the report.
pub fn project_add_result(config: &DaemonConfig, project: RegisteredProject, dry_run: bool) -> (r:
    Result<(Option<DaemonConfig>, Json), BridgeError>)
    ensures
        match r {
            Ok(pair) => {
                &&& !has_cwd(config@.projects, project@.cwd)
                &&& pair.0.deep_view() == (if dry_run {
                    None
                } else {
                    Some(with_projects(config@, config@.projects.push(project@)))
                })
                &&& pair.1@ == project_report("projects_add"@, dry_run, project@)
            },
            Err(e) => has_cwd(config@.projects, project@.cwd) && e@ == failure(
                "project cwd `"@ + project@.cwd + "` is already registered"@,
            ),
        },
{
    if cwd_is_registered(&config.projects, project.cwd.as_str()) {
        return Err(
            BridgeError::new(
                cat3("project cwd `", project.cwd.as_str(), "` is already registered").as_str(),
            ),
        );
    }
    let report = report_project("projects_add", dry_run, &project);
    if dry_run {
        return Ok((None, report));
    }
    let mut after = config.clone();
    let ghost before = after.projects.deep_view();
    after.projects.push(project);
    assert(after.projects.deep_view() =~= before.push(project@));
    Ok((Some(after), report))
}

/// The label of a new project: the one that is asked for, else that of its directory, else the
/// directory.
pub open spec fn new_label(cwd: Seq<char>, label: Option<Seq<char>>) -> Seq<char> {
    match label {
        Some(l) => l,
        None => match project_label(Some(cwd)) {
            Some(l) => l,
            None => cwd,
        },
    }
}

/// A new project. Its id is the one that is asked for, which must be free, else one that is
/// made of its label.
pub open spec fn new_project(
    cwd: Seq<char>,
    id: Option<Seq<char>>,
    label: Option<Seq<char>>,
    aliases: Seq<Seq<char>>,
    existing: Seq<RegisteredProjectV>,
) -> Result<RegisteredProjectV, BridgeErrorV> {
    let name = new_label(cwd, label);
    let base = match project_token(name) {
        Some(token) => token,
        None => "project"@,
    };
    match id {
        Some(wanted) => if listed(ids_of(existing), wanted) {
            Err(failure("project id `"@ + wanted + "` is already registered"@))
        } else {
            Ok(RegisteredProjectV { id: wanted, label: name, cwd, aliases })
        },
        None => Ok(
            RegisteredProjectV {
                id: unique_id(base, ids_of(existing)),
                label: name,
                cwd,
                aliases,
            },
        ),
    }
}

/// Makes a new project of a directory.
pub fn build_registered_project(
    cwd: &str,
    id: Option<String>,
    label: Option<String>,
    aliases: Vec<String>,
    existing: &Vec<RegisteredProject>,
) -> (r: Result<RegisteredProject, BridgeError>)
    requires
        existing@.len() < usize::MAX,
    ensures
        outcome(r) == new_project(
            cwd@,
            id.deep_view(),
            label.deep_view(),
            aliases.deep_view(),
            existing.deep_view(),
        ),
{
    let name: String = match label {
        Some(l) => l,
        None => match derive_project_label(Some(cwd)) {
            Some(l) => l,
            None => cwd.to_owned(),
        },
    };
    let taken = project_ids(existing);
    let chosen: String = match id {
        Some(wanted) => {
            if is_listed(&taken, wanted.as_str()) {
                return Err(
                    BridgeError::new(
                        cat3("project id `", wanted.as_str(), "` is already registered").as_str(),
                    ),
                );
            }
            wanted
        },
        None => {
            let base: String = match slugify_project_token(name.as_str()) {
                Some(token) => token,
                None => "project".to_owned(),
            };
            ensure_unique_project_id(base.as_str(), &taken)
        },
    };
    Ok(RegisteredProject { id: chosen, label: name, cwd: cwd.to_owned(), aliases })
}

/// A new project has an id that no other project has.
pub proof fn new_projects_have_free_ids(
    cwd: Seq<char>,
    id: Option<Seq<char>>,
    label: Option<Seq<char>>,
    aliases: Seq<Seq<char>>,
    existing: Seq<RegisteredProjectV>,
)
    requires
        existing.len() < u64::MAX,
    ensures
        new_project(cwd, id, label, aliases, existing) matches Ok(p) ==> !listed(
            ids_of(existing),
            p.id,
        ),
{
    let base = match project_token(new_label(cwd, label)) {
        Some(token) => token,
        None => "project"@,
    };
    unique_ids_are_free(base, ids_of(existing));
}

/// The report of an import.
pub open spec fn import_report(dry_run: bool, imported: Seq<RegisteredProjectV>) -> JsonV {
    JsonV::Object(
        Seq::empty()
            .push(("ok"@, JsonV::Bool(true)))
            .push(("action"@, JsonV::Str("projects_import"@)))
            .push(("dryRun"@, JsonV::Bool(dry_run)))
            .push(("imported"@, projects_json(imported)))
            .push(("count"@, JsonV::UInt(imported.len() as u64))),
    )
}

/// Imports projects: the configuration to write, where there is anything to import and the
/// run does not only show what it would do, and the report.
pub fn project_import_result(
    config: &DaemonConfig,
    observed: &Vec<ObservedWorkspace>,
    dry_run: bool,
) -> (r: (Option<DaemonConfig>, Json))
    requires
        observed@.len() + config.projects@.len() < usize::MAX,
    ensures
        ({
            let imported = imports(observed.deep_view(), config@.projects);
            &&& r.0.deep_view() == (if dry_run || imported.len() == 0 {
                None
            } else {
                Some(with_projects(config@, config@.projects + imported))
            })
            &&& r.1@ == import_report(dry_run, imported)
        }),
{
    let mut importable = importable_projects_from_observed(observed, &config.projects);
    let ghost imported = importable.deep_view();
    let count: u64 = importable.len() as u64;
    assert(importable@.len() == imported.len());
    let report = Object::new().with("ok", Json::Bool(true)).with(
        "action",
        Json::text("projects_import"),
    ).with("dryRun", Json::Bool(dry_run)).with(
        "imported",
        registered_projects_json(&importable),
    ).with("count", Json::UInt(count)).done();
    if dry_run || count == 0 {
        return (None, report);
    }
    let mut after = config.clone();
    let ghost before = after.projects@;
    let ghost added = importable@;
    after.projects.append(&mut importable);
    assert(after.projects@ == before + added);
    assert(after.projects.deep_view() =~= config@.projects + imported) by {
        assert forall|i: int| 0 <= i < config@.projects.len() implies before[i]@
            == #[trigger] config@.projects[i] by {
            assert(config.deep_view() == config@);
        }
    }
    (Some(after), report)
}

/// The projects without those of an id.
pub open spec fn other_projects(
    projects: Seq<RegisteredProjectV>,
    id: Seq<char>,
) -> Seq<RegisteredProjectV> {
    without(projects, project_hit(id))
}

/// Removes a project: the configuration to write, unless the run only shows what it would
/// do, and the report.
pub fn project_remove_result(config: &DaemonConfig, id: &str, dry_run: bool) -> (r: Result<
    (Option<DaemonConfig>, Json),
    BridgeError,
>)
    ensures
        match (r, first_row(config@.projects, project_hit(id@))) {
            (Ok(pair), Some(p)) => {
                &&& pair.0.deep_view() == (if dry_run {
                    None
                } else {
                    Some(with_projects(config@, other_projects(config@.projects, id@)))
                })
                &&& pair.1@ == project_report("projects_remove"@, dry_run, p)
            },
            (Err(e), None) => e@ == failure("project `"@ + id@ + "` was not found"@),
            _ => false,
        },
{
    let at: usize = find_project(&config.projects, id);
    if at >= config.projects.len() {
        return Err(BridgeError::new(cat3("project `", id, "` was not found").as_str()));
    }
    assert(config@.projects[at as int] == config.projects@[at as int]@);
    let report = report_project("projects_remove", dry_run, &config.projects[at]);
    if dry_run {
        return Ok((None, report));
    }
    let mut after = config.clone();
    let ghost all = config.projects.deep_view();
    let ghost hit = project_hit(id@);
    let mut kept: Vec<RegisteredProject> = Vec::new();
    let mut i: usize = 0;
    assert(kept.deep_view() =~= without(all.take(0), hit)) by {
        reveal(Seq::filter);
    }
    while i < config.projects.len()
        invariant
            i <= config.projects@.len(),
            all == config.projects.deep_view(),
            hit == project_hit(id@),
            kept.deep_view() == without(all.take(i as int), hit),
        decreases config.projects@.len() - i,
    {
        proof {
            lemma_without_step(all, hit, i as int);
            assert(all[i as int] == config.projects@[i as int]@);
        }
        let ghost before = kept.deep_view();
        if !same(config.projects[i].id.as_str(), id) {
            kept.push(config.projects[i].clone());
            assert(kept.deep_view() =~= before.push(all[i as int]));
        }
        i += 1;
    }
    assert(all.take(all.len() as int) =~= all);
    after.projects = kept;
    Ok((Some(after), report))
}

/// A project that was removed is not found again.
pub proof fn removed_projects_are_gone(projects: Seq<RegisteredProjectV>, id: Seq<char>)
    ensures
        first_row(other_projects(projects, id), project_hit(id)) is None,
{
    let hit = project_hit(id);
    broadcast use vstd::seq_lib::group_filter_ensures;

    lemma_position(other_projects(projects, id), hit, 0);
}

} // verus!
