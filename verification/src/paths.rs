//! Paths: where the state is kept, and where the Codex binary may be.
use vstd::prelude::*;
use vstd::string::*;

use crate::error::{BridgeError, BridgeErrorV, failure, in_context};
use crate::table::{add_new_row, has_row, keys_differ, lemma_position, position};
use crate::text::{cat, cat3, chars_of, same, text_of};

verus! {

// ---------------------------------------------------------------------------
// Paths as texts
// ---------------------------------------------------------------------------

/// A path below another.
pub open spec fn joined_path(dir: Seq<char>, name: Seq<char>) -> Seq<char> {
    if dir.len() == 0 || dir.last() == '/' {
        dir + name
    } else {
        dir + "/"@ + name
    }
}

/// A path below another.
pub fn join_path(dir: &str, name: &str) -> (r: String)
    ensures
        r@ == joined_path(dir@, name@),
{
    let v = chars_of(dir);
    if v.len() == 0 || v[v.len() - 1] == '/' {
        cat(dir, name)
    } else {
        cat3(dir, "/", name)
    }
}

/// The index after the last slash among the first `n` characters; 0 where there is none.
pub open spec fn after_slash(p: Seq<char>, n: nat) -> nat
    decreases n,
{
    if n == 0 || n > p.len() {
        0
    } else if p[n - 1] == '/' {
        n
    } else {
        after_slash(p, (n - 1) as nat)
    }
}

/// The end of a path of `n` characters without the slashes and the `.` components at its end.
/// The slash of the root stays.
pub open spec fn path_end(p: Seq<char>, n: nat) -> nat
    decreases n,
{
    if n < 2 || n > p.len() {
        n
    } else if p[n - 1] == '/' || (p[n - 1] == '.' && p[n - 2] == '/') {
        path_end(p, (n - 1) as nat)
    } else {
        n
    }
}

/// The directory that a path stands in; none for the root and for the empty path.
pub open spec fn parent(p: Seq<char>) -> Option<Seq<char>> {
    let end = path_end(p, p.len());
    let at = after_slash(p, end);
    if end == 0 || at == end {
        None
    } else {
        Some(p.take(path_end(p, at) as int))
    }
}

/// The end of a path is within the characters looked at.
proof fn lemma_path_end(p: Seq<char>, n: nat)
    requires
        n <= p.len(),
    ensures
        path_end(p, n) <= n,
    decreases n,
{
    if n >= 2 {
        lemma_path_end(p, (n - 1) as nat);
    }
}

/// The index after the last slash is within the characters looked at.
proof fn lemma_after_slash(p: Seq<char>, n: nat)
    requires
        n <= p.len(),
    ensures
        after_slash(p, n) <= n,
    decreases n,
{
    if n > 0 && p[n - 1] != '/' {
        lemma_after_slash(p, (n - 1) as nat);
    }
}

/// A directory is shorter than what stands in it.
proof fn lemma_parent_is_shorter(p: Seq<char>)
    ensures
        parent(p) matches Some(d) ==> d.len() < p.len(),
{
    let end = path_end(p, p.len());
    lemma_path_end(p, p.len());
    lemma_after_slash(p, end);
    lemma_path_end(p, after_slash(p, end));
}

/// A directory and every one above it, the nearest first.
pub open spec fn roots(p: Seq<char>) -> Seq<Seq<char>>
    decreases p.len(),
    via roots_end
{
    match parent(p) {
        Some(d) => seq![p] + roots(d),
        None => seq![p],
    }
}

#[via_fn]
proof fn roots_end(p: Seq<char>) {
    lemma_parent_is_shorter(p);
}

/// The end of a path without the slashes and the `.` components at its end.
fn end_of(v: &Vec<char>, n: usize) -> (r: usize)
    requires
        n <= v@.len(),
    ensures
        r == path_end(v@, n as nat),
        r <= n,
{
    let mut end: usize = n;
    while end >= 2 && (v[end - 1] == '/' || (v[end - 1] == '.' && v[end - 2] == '/'))
        invariant
            end <= n <= v@.len(),
            path_end(v@, n as nat) == path_end(v@, end as nat),
        decreases end,
    {
        end -= 1;
    }
    end
}

/// The directory that a path stands in.
fn parent_of(p: &str) -> (r: Option<String>)
    ensures
        r.deep_view() == parent(p@),
{
    let v = chars_of(p);
    let end: usize = end_of(&v, v.len());
    let mut at: usize = end;
    while at > 0 && v[at - 1] != '/'
        invariant
            at <= end <= v@.len(),
            v@ == p@,
            after_slash(v@, end as nat) == after_slash(v@, at as nat),
        decreases at,
    {
        at -= 1;
    }
    if end == 0 || at == end {
        None
    } else {
        let up: usize = end_of(&v, at);
        assert(v@.subrange(0, up as int) =~= v@.take(up as int));
        Some(text_of(&v, 0, up))
    }
}

/// A directory and every one above it, the nearest first.
pub fn workspace_roots(start: &str) -> (r: Vec<String>)
    ensures
        r.deep_view() == roots(start@),
{
    let mut out: Vec<String> = Vec::new();
    let mut current: String = start.to_owned();
    assert(out.deep_view() + roots(current@) =~= roots(start@));
    loop
        invariant
            out.deep_view() + roots(current@) == roots(start@),
        decreases current@.len(),
    {
        let ghost before = out.deep_view();
        let up: Option<String> = parent_of(current.as_str());
        proof {
            lemma_parent_is_shorter(current@);
        }
        let ghost here = current@;
        match up {
            Some(dir) => {
                out.push(current);
                assert(out.deep_view() =~= before.push(here));
                assert(before + (seq![here] + roots(dir@)) =~= before.push(here) + roots(dir@));
                current = dir;
            },
            None => {
                out.push(current);
                assert(out.deep_view() =~= before + seq![here]);
                return out;
            },
        }
    }
}

// ---------------------------------------------------------------------------
// The state
// ---------------------------------------------------------------------------

/// The directory of the state: the one that is asked for, else one in the home directory.
pub open spec fn state_dir(wanted: Option<Seq<char>>, home: Option<Seq<char>>) -> Result<
    Seq<char>,
    BridgeErrorV,
> {
    match wanted {
        Some(dir) => Ok(dir),
        None => match home {
            Some(h) => Ok(joined_path(h, ".codex-telegram-bridge"@)),
            None => Err(
                in_context("HOME is not set"@, failure("environment variable not found"@)),
            ),
        },
    }
}

/// The directory of the state.
pub fn state_dir_path(wanted: Option<&str>, home: Option<&str>) -> (r: Result<String, BridgeError>)
    ensures
        match (r, state_dir(wanted.deep_view(), home.deep_view())) {
            (Ok(a), Ok(b)) => a@ == b,
            (Err(a), Err(b)) => a@ == b,
            _ => false,
        },
{
    match wanted {
        Some(dir) => Ok(dir.to_owned()),
        None => match home {
            Some(h) => Ok(join_path(h, ".codex-telegram-bridge")),
            None => Err(
                BridgeError::new("environment variable not found").context("HOME is not set"),
            ),
        },
    }
}

/// The database in the directory of the state.
pub fn state_db_path(dir: &str) -> (r: String)
    ensures
        r@ == joined_path(dir@, "state.db"@),
{
    join_path(dir, "state.db")
}

/// The marker of remote mode in the directory of the state.
pub fn remote_mode_status_path(dir: &str) -> (r: String)
    ensures
        r@ == joined_path(dir@, "remote-mode.json"@),
{
    join_path(dir, "remote-mode.json")
}

/// The record of the live backend in the directory of the state.
pub fn live_backend_status_path(dir: &str) -> (r: String)
    ensures
        r@ == joined_path(dir@, "live-backend.json"@),
{
    join_path(dir, "live-backend.json")
}

/// The service file of the daemon below the home directory: one for `launchd` on macOS, else
/// one for `systemd`.
pub fn daemon_service_path(home: &str, macos: bool) -> (r: String)
    ensures
        r@ == joined_path(
            home@,
            if macos {
                "Library/LaunchAgents/com.hanifcarroll.codex-telegram-bridge.plist"@
            } else {
                ".config/systemd/user/com.hanifcarroll.codex-telegram-bridge.service"@
            },
        ),
{
    let name: &str = if macos {
        "Library/LaunchAgents/com.hanifcarroll.codex-telegram-bridge.plist"
    } else {
        ".config/systemd/user/com.hanifcarroll.codex-telegram-bridge.service"
    };
    join_path(home, name)
}

/// The files that are kept between runs, apart from the configuration.
pub open spec fn runtime_files(dir: Seq<char>) -> Seq<Seq<char>> {
    seq![
        joined_path(dir, "state.db"@),
        joined_path(dir, "state.db-wal"@),
        joined_path(dir, "state.db-shm"@),
        joined_path(dir, "remote-mode.json"@),
        joined_path(dir, "live-backend.json"@),
    ]
}

/// The files that a reset removes: those that are kept between runs, and none in a dry run.
pub fn reset_files(dir: &str, dry_run: bool) -> (r: Vec<String>)
    ensures
        r.deep_view() == (if dry_run {
            Seq::<Seq<char>>::empty()
        } else {
            runtime_files(dir@)
        }),
{
    let mut files: Vec<String> = Vec::new();
    if !dry_run {
        files.push(join_path(dir, "state.db"));
        files.push(join_path(dir, "state.db-wal"));
        files.push(join_path(dir, "state.db-shm"));
        files.push(join_path(dir, "remote-mode.json"));
        files.push(join_path(dir, "live-backend.json"));
        assert(files.deep_view() =~= runtime_files(dir@));
    } else {
        assert(files.deep_view() =~= Seq::<Seq<char>>::empty());
    }
    files
}

/// A reset never removes the configuration.
pub proof fn resets_keep_the_configuration(dir: Seq<char>)
    ensures
        !runtime_files(dir).contains(joined_path(dir, "config.json"@)),
{
    reveal_strlit("config.json");
    reveal_strlit("state.db");
    reveal_strlit("state.db-wal");
    reveal_strlit("state.db-shm");
    reveal_strlit("remote-mode.json");
    reveal_strlit("live-backend.json");
    let kept = joined_path(dir, "config.json"@);
    let files = runtime_files(dir);
    assert forall|i: int| 0 <= i < files.len() implies files[i] != kept by {
        assert(files[i].len() != kept.len());
    }
}

// ---------------------------------------------------------------------------
// The Codex binary
// ---------------------------------------------------------------------------

/// A Codex binary, and where it was looked for.
#[derive(Debug, PartialEq, Eq)]
pub struct ResolvedBinary {
    pub path: String,
    pub source: String,
}

/// The model of [`ResolvedBinary`].
#[verifier::ext_equal]
pub struct ResolvedBinaryV {
    pub path: Seq<char>,
    pub source: Seq<char>,
}

impl View for ResolvedBinary {
    type V = ResolvedBinaryV;

    open spec fn view(&self) -> ResolvedBinaryV {
        ResolvedBinaryV {
            path: self.path@,
            source: self.source@,
        }
    }
}

impl DeepView for ResolvedBinary {
    type V = ResolvedBinaryV;

    open spec fn deep_view(&self) -> ResolvedBinaryV {
        self@
    }
}

impl Clone for ResolvedBinary {
    fn clone(&self) -> (r: ResolvedBinary)
        ensures
            r@ == self@,
    {
        ResolvedBinary {
            path: self.path.clone(),
            source: self.source.clone(),
        }
    }
}

/// A candidate at this path.
pub open spec fn at_path(path: Seq<char>) -> spec_fn(ResolvedBinaryV) -> bool {
    |b: ResolvedBinaryV| b.path == path
}

/// The candidates with one more, unless its path is among them.
pub open spec fn with_candidate(
    candidates: Seq<ResolvedBinaryV>,
    path: Seq<char>,
    source: Seq<char>,
) -> Seq<ResolvedBinaryV> {
    add_new_row(candidates, at_path(path), ResolvedBinaryV { path, source })
}

/// The candidates with one more that may be missing.
pub open spec fn with_optional(
    candidates: Seq<ResolvedBinaryV>,
    path: Option<Seq<char>>,
    source: Seq<char>,
) -> Seq<ResolvedBinaryV> {
    match path {
        Some(p) => with_candidate(candidates, p, source),
        None => candidates,
    }
}

/// The binary of a workspace.
pub open spec fn local_binary(root: Seq<char>) -> Seq<char> {
    joined_path(root, "node_modules/.bin/codex"@)
}

/// The candidates with those of the first `n` workspaces.
pub open spec fn with_workspaces(
    candidates: Seq<ResolvedBinaryV>,
    dirs: Seq<Seq<char>>,
    n: nat,
) -> Seq<ResolvedBinaryV>
    decreases n,
{
    if n == 0 || n > dirs.len() {
        candidates
    } else {
        with_candidate(
            with_workspaces(candidates, dirs, (n - 1) as nat),
            local_binary(dirs[n - 1]),
            "workspace-local"@,
        )
    }
}

/// Where the Codex binary may be, in the order in which it is looked for: the one that is
/// asked for, those of the workspaces, those of the platform, and the one on the search path.
pub open spec fn candidates_for(
    wanted: Option<Seq<char>>,
    cwd: Seq<char>,
    home: Option<Seq<char>>,
    on_path: Option<Seq<char>>,
) -> Seq<ResolvedBinaryV> {
    let dirs = roots(cwd);
    let first = with_optional(Seq::empty(), wanted, "override"@);
    let local = with_workspaces(first, dirs, dirs.len());
    let own = with_optional(
        local,
        match home {
            Some(h) => Some(joined_path(h, "Applications/Codex.app/Contents/Resources/codex"@)),
            None => None,
        },
        "platform-known"@,
    );
    let shared = with_candidate(
        own,
        "/Applications/Codex.app/Contents/Resources/codex"@,
        "platform-known"@,
    );
    with_optional(shared, on_path, "path"@)
}

/// Adds a candidate, unless its path is among them.
fn push_candidate(candidates: &mut Vec<ResolvedBinary>, path: String, source: &str)
    ensures
        final(candidates).deep_view() == with_candidate(
            old(candidates).deep_view(),
            path@,
            source@,
        ),
{
    let ghost all = candidates.deep_view();
    let mut i: usize = 0;
    while i < candidates.len()
        invariant
            i <= candidates@.len(),
            all == candidates.deep_view(),
            all == old(candidates).deep_view(),
            position(all, at_path(path@), 0) == position(all, at_path(path@), i as nat),
        decreases candidates@.len() - i,
    {
        assert(all[i as int] == candidates@[i as int]@);
        if same(candidates[i].path.as_str(), path.as_str()) {
            return ;
        }
        i += 1;
    }
    let b = ResolvedBinary { path, source: source.to_owned() };
    candidates.push(b);
    assert(candidates.deep_view() =~= all.push(b@));
}

/// Where the Codex binary may be, in the order in which it is looked for.
pub fn codex_candidates(
    wanted: Option<&str>,
    cwd: &str,
    home: Option<&str>,
    on_path: Option<&str>,
) -> (r: Vec<ResolvedBinary>)
    ensures
        r.deep_view() == candidates_for(
            wanted.deep_view(),
            cwd@,
            home.deep_view(),
            on_path.deep_view(),
        ),
{
    let mut out: Vec<ResolvedBinary> = Vec::new();
    assert(out.deep_view() =~= Seq::<ResolvedBinaryV>::empty());
    match wanted {
        Some(p) => {
            push_candidate(&mut out, p.to_owned(), "override");
        },
        None => {},
    }
    let ghost first = out.deep_view();
    let dirs = workspace_roots(cwd);
    let ghost all = dirs.deep_view();
    let mut i: usize = 0;
    while i < dirs.len()
        invariant
            i <= dirs@.len(),
            all == dirs.deep_view(),
            out.deep_view() == with_workspaces(first, all, i as nat),
        decreases dirs@.len() - i,
    {
        assert(all[i as int] == dirs@[i as int]@);
        push_candidate(
            &mut out,
            join_path(dirs[i].as_str(), "node_modules/.bin/codex"),
            "workspace-local",
        );
        i += 1;
    }
    match home {
        Some(h) => {
            push_candidate(
                &mut out,
                join_path(h, "Applications/Codex.app/Contents/Resources/codex"),
                "platform-known",
            );
        },
        None => {},
    }
    push_candidate(
        &mut out,
        "/Applications/Codex.app/Contents/Resources/codex".to_owned(),
        "platform-known",
    );
    match on_path {
        Some(p) => {
            push_candidate(&mut out, p.to_owned(), "path");
        },
        None => {},
    }
    out
}

/// The failure where no candidate is usable.
pub open spec fn no_binary() -> BridgeErrorV {
    failure(
        "Could not resolve codex executable. Set CODEX_BIN or install Codex so `codex --version` works in this environment"@,
    )
}

/// The first candidate that is usable. `usable` says of each candidate whether it is; what it
/// leaves out is not.
pub fn resolve_codex_binary(candidates: &Vec<ResolvedBinary>, usable: &Vec<bool>) -> (r: Result<
    ResolvedBinary,
    BridgeError,
>)
    ensures
        match r {
            Ok(b) => exists|i: int|
                0 <= i < candidates@.len() && i < usable@.len() && #[trigger] usable@[i] && (
                forall|k: int| 0 <= k < i ==> !#[trigger] usable@[k]) && b@ == candidates@[i]@,
            Err(e) => (forall|k: int|
                0 <= k < candidates@.len() && k < usable@.len() ==> !#[trigger] usable@[k]) && e@
                == no_binary(),
        },
{
    let mut i: usize = 0;
    while i < candidates.len() && i < usable.len()
        invariant
            i <= candidates@.len(),
            i <= usable@.len(),
            forall|k: int| 0 <= k < i ==> !#[trigger] usable@[k],
        decreases candidates@.len() - i,
    {
        if usable[i] {
            return Ok(candidates[i].clone());
        }
        i += 1;
    }
    Err(
        BridgeError::new(
            "Could not resolve codex executable. Set CODEX_BIN or install Codex so `codex --version` works in this environment",
        ),
    )
}

/// No path is looked at twice.
pub proof fn candidates_are_tried_once(
    wanted: Option<Seq<char>>,
    cwd: Seq<char>,
    home: Option<Seq<char>>,
    on_path: Option<Seq<char>>,
)
    ensures
        keys_differ(
            candidates_for(wanted, cwd, home, on_path),
            |b: ResolvedBinaryV| b.path,
        ),
{
    let key = |b: ResolvedBinaryV| b.path;
    let dirs = roots(cwd);
    let first = with_optional(Seq::empty(), wanted, "override"@);
    let local = with_workspaces(first, dirs, dirs.len());
    let platform = match home {
        Some(h) => Some(joined_path(h, "Applications/Codex.app/Contents/Resources/codex"@)),
        None => None,
    };
    let own = with_optional(local, platform, "platform-known"@);
    let shared = with_candidate(
        own,
        "/Applications/Codex.app/Contents/Resources/codex"@,
        "platform-known"@,
    );
    if wanted is Some {
        lemma_candidate(Seq::empty(), wanted->0, "override"@);
    }
    lemma_workspaces(first, dirs, dirs.len());
    if platform is Some {
        lemma_candidate(local, platform->0, "platform-known"@);
    }
    lemma_candidate(
        own,
        "/Applications/Codex.app/Contents/Resources/codex"@,
        "platform-known"@,
    );
    if on_path is Some {
        lemma_candidate(shared, on_path->0, "path"@);
    }
}

/// One more candidate keeps the paths different.
proof fn lemma_candidate(candidates: Seq<ResolvedBinaryV>, path: Seq<char>, source: Seq<char>)
    requires
        keys_differ(candidates, |b: ResolvedBinaryV| b.path),
    ensures
        keys_differ(with_candidate(candidates, path, source), |b: ResolvedBinaryV| b.path),
{
    let hit = at_path(path);
    lemma_position(candidates, hit, 0);
    if !has_row(candidates, hit) {
        assert forall|k: int| 0 <= k < candidates.len() implies (#[trigger] candidates[k]).path
            != path by {
            assert(!hit(candidates[k]));
        }
    }
}

/// The candidates of workspaces keep the paths different.
proof fn lemma_workspaces(candidates: Seq<ResolvedBinaryV>, dirs: Seq<Seq<char>>, n: nat)
    requires
        keys_differ(candidates, |b: ResolvedBinaryV| b.path),
    ensures
        keys_differ(with_workspaces(candidates, dirs, n), |b: ResolvedBinaryV| b.path),
    decreases n,
{
    if 0 < n <= dirs.len() {
        lemma_workspaces(candidates, dirs, (n - 1) as nat);
        lemma_candidate(
            with_workspaces(candidates, dirs, (n - 1) as nat),
            local_binary(dirs[n - 1]),
            "workspace-local"@,
        );
    }
}

/// What is seen of a candidate that was started to tell its version.
#[derive(Debug, Clone, Copy, PartialEq, Eq, Structural)]
pub enum ProbeSight {
    /// It ended, with or without success.
    Ended(bool),
    /// It still runs.
    Running,
    /// It cannot be looked at.
    Lost,
}

/// What is done with a candidate that was started to tell its version.
#[derive(Debug, Clone, Copy, PartialEq, Eq, Structural)]
pub enum ProbeStep {
    /// It is usable or not.
    Done(bool),
    /// It is ended, and is not usable.
    End,
    /// It is looked at again a little later.
    Wait,
}

/// Decides on a candidate that was started `elapsed_ms` ago to tell its version.
pub fn probe_step(sight: ProbeSight, elapsed_ms: u64, timeout_ms: u64) -> (r: ProbeStep)
    ensures
        r == (match sight {
            ProbeSight::Ended(success) => ProbeStep::Done(success),
            ProbeSight::Running => if elapsed_ms >= timeout_ms {
                ProbeStep::End
            } else {
                ProbeStep::Wait
            },
            ProbeSight::Lost => ProbeStep::End,
        }),
{
    match sight {
        ProbeSight::Ended(success) => ProbeStep::Done(success),
        ProbeSight::Running => if elapsed_ms >= timeout_ms {
            ProbeStep::End
        } else {
            ProbeStep::Wait
        },
        ProbeSight::Lost => ProbeStep::End,
    }
}

} // verus!
