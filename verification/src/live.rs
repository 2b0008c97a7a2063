//! The shared live backend: recognising its process, judging its state, and deciding
//! when to start, restart, defer or leave it.
use vstd::prelude::*;
use vstd::string::*;

use crate::config::CodexConfig;
use crate::error::{BridgeError, BridgeErrorV, failure, in_context, outcome};
use crate::json::{Json, JsonV, Object, text_or_null, uint_or_null};
use crate::outbox::saturating;
use crate::table::position;
use crate::text::{
    begins_with, cat, cat3, chars_of, copy_opt, decimal, join, joined, parse_unsigned,
    parsed_unsigned, same, split_char, split_from, split_text, split_text_from, split_words,
    starts_with, text_of, trim, trimmed, u64_text, words,
};
use crate::thread::first_chars;
use crate::ws::{parts_of, shared_url, url_of, validate_shared_websocket_url};

verus! {

/// The backend is not needed and not running.
pub const LIVE_BACKEND_STATE_IDLE: &'static str = "idle";

/// The backend runs and answers.
pub const LIVE_BACKEND_STATE_READY: &'static str = "ready";

/// The backend is needed and does not answer.
pub const LIVE_BACKEND_STATE_UNHEALTHY: &'static str = "unhealthy";

/// Something else answers in the place of the backend.
pub const LIVE_BACKEND_STATE_BLOCKED: &'static str = "blocked";

/// How long a backend may take to answer, in milliseconds.
pub const LIVE_BACKEND_HEALTH_TIMEOUT_MS: u64 = 5_000;

/// How long a process that was told to end is waited for, in milliseconds.
pub const LIVE_BACKEND_TERMINATE_TIMEOUT_MS: u64 = 3_000;

/// How long to wait between two looks at a backend, in milliseconds.
pub const LIVE_BACKEND_HEALTH_POLL_INTERVAL_MS: u64 = 100;

// ---------------------------------------------------------------------------
// Processes
// ---------------------------------------------------------------------------

/// The process is a shell or a terminal that runs other programs.
pub open spec fn is_wrapper(name: Seq<char>) -> bool {
    ||| name == "sh"@
    ||| name == "bash"@
    ||| name == "zsh"@
    ||| name == "fish"@
    ||| name == "nohup"@
    ||| name == "SCREEN"@
    ||| name == "screen"@
    ||| name == "login"@
}

/// Tells whether a process is a shell or a terminal that runs other programs.
pub fn is_unix_shell_wrapper_process(process_name: &str) -> (r: bool)
    ensures
        r == is_wrapper(process_name@),
{
    same(process_name, "sh") || same(process_name, "bash") || same(process_name, "zsh") || same(
        process_name,
        "fish",
    ) || same(process_name, "nohup") || same(process_name, "SCREEN") || same(
        process_name,
        "screen",
    ) || same(process_name, "login")
}

/// A character that separates the parts of a path.
pub open spec fn is_separator(c: char) -> bool {
    c == '/' || c == '\\'
}

/// The start of the last part of the path `s[..n]`.
pub open spec fn last_part_start(s: Seq<char>, n: nat) -> nat
    decreases n,
{
    if n > 0 && n <= s.len() && !is_separator(s[n - 1]) {
        last_part_start(s, (n - 1) as nat)
    } else {
        n
    }
}

/// The last part of a path.
pub open spec fn last_part(s: Seq<char>) -> Seq<char> {
    s.subrange(last_part_start(s, s.len()) as int, s.len() as int)
}

/// The argument names a Codex executable.
pub open spec fn names_codex(arg: Seq<char>) -> bool {
    last_part(arg) == "codex"@ || begins_with(last_part(arg), "codex-"@)
}

/// Tells whether an argument names a Codex executable.
fn is_codex_name(arg: &str) -> (r: bool)
    ensures
        r == names_codex(arg@),
{
    let v = chars_of(arg);
    let mut start: usize = v.len();
    while start > 0 && v[start - 1] != '/' && v[start - 1] != '\\'
        invariant
            start <= v@.len(),
            last_part_start(v@, v@.len()) == last_part_start(v@, start as nat),
        decreases start,
    {
        start -= 1;
    }
    let name = text_of(&v, start, v.len());
    same(name.as_str(), "codex") || starts_with(name.as_str(), "codex-")
}

/// One of the first `n` arguments names a Codex executable.
pub open spec fn has_codex(args: Seq<Seq<char>>, n: int) -> bool {
    exists|i: int| 0 <= i < n && i < args.len() && names_codex(#[trigger] args[i])
}

/// Tells whether one of the first `n` arguments names a Codex executable.
pub fn command_line_has_codex_executable(args: &Vec<String>, n: usize) -> (r: bool)
    requires
        n <= args@.len(),
    ensures
        r == has_codex(args.deep_view(), n as int),
{
    let ghost all = args.deep_view();
    let mut i: usize = 0;
    while i < n
        invariant
            i <= n <= args@.len(),
            all == args.deep_view(),
            forall|k: int| 0 <= k < i ==> !names_codex(#[trigger] all[k]),
        decreases n - i,
    {
        assert(all[i as int] == args@[i as int]@);
        if is_codex_name(args[i].as_str()) {
            return true;
        }
        i += 1;
    }
    false
}

/// The argument at `i` makes the server listen at the URL, alone or with the next one.
pub open spec fn listens_at(args: Seq<Seq<char>>, i: int, url: Seq<char>) -> bool {
    ||| args[i] == "--listen="@ + url
    ||| args[i] == "--listen"@ && i + 1 < args.len() && args[i + 1] == url
}

/// The first argument that is `app-server`, or the number of arguments.
pub open spec fn app_server_at(args: Seq<Seq<char>>) -> nat {
    position(args, |a: Seq<char>| a == "app-server"@, 0)
}

/// The command line runs a Codex app server that listens at exactly this URL.
pub open spec fn runs_backend(command: Seq<char>, url: Seq<char>) -> bool {
    let args = words(command);
    &&& app_server_at(args) < args.len()
    &&& has_codex(args, app_server_at(args) as int)
    &&& exists|i: int| 0 <= i < args.len() && #[trigger] listens_at(args, i, url)
}

/// Tells whether a command line runs a Codex app server that listens at exactly this URL.
pub fn command_line_matches_backend(command: &str, websocket_url: &str) -> (r: bool)
    ensures
        r == runs_backend(command@, websocket_url@),
{
    let args = split_words(command);
    let ghost all = args.deep_view();
    let ghost hit = |a: Seq<char>| a == "app-server"@;
    let mut p: usize = 0;
    while p < args.len() && !same(args[p].as_str(), "app-server")
        invariant
            p <= args@.len(),
            all == args.deep_view(),
            hit == (|a: Seq<char>| a == "app-server"@),
            position(all, hit, 0) == position(all, hit, p as nat),
        decreases args@.len() - p,
    {
        assert(all[p as int] == args@[p as int]@);
        p += 1;
    }
    if p < args.len() {
        assert(all[p as int] == args@[p as int]@);
    }
    if p >= args.len() {
        return false;
    }
    if !command_line_has_codex_executable(&args, p) {
        return false;
    }
    let joined_form = cat("--listen=", websocket_url);
    let mut i: usize = 0;
    while i < args.len()
        invariant
            i <= args@.len(),
            all == args.deep_view(),
            all == words(command@),
            app_server_at(all) < all.len(),
            has_codex(all, app_server_at(all) as int),
            joined_form@ == "--listen="@ + websocket_url@,
            forall|k: int| 0 <= k < i ==> !#[trigger] listens_at(all, k, websocket_url@),
        decreases args@.len() - i,
    {
        assert(all[i as int] == args@[i as int]@);
        let alone: bool = same(args[i].as_str(), joined_form.as_str());
        let pair: bool = if i + 1 < args.len() {
            assert(all[i + 1] == args@[i + 1]@);
            same(args[i].as_str(), "--listen") && same(args[i + 1].as_str(), websocket_url)
        } else {
            false
        };
        if alone || pair {
            assert(listens_at(all, i as int, websocket_url@));
            return true;
        }
        assert(!listens_at(all, i as int, websocket_url@));
        i += 1;
    }
    false
}

/// The process on a line of a process list, where it is the backend.
pub open spec fn backend_on_line(line: Seq<char>, url: Seq<char>) -> Option<u32> {
    let parts = words(line);
    if parts.len() < 2 || is_wrapper(parts[1]) || !runs_backend(
        joined(parts.subrange(2, parts.len() as int), " "@),
        url,
    ) {
        None
    } else {
        match parsed_unsigned(parts[0], u32::MAX as nat) {
            Some(n) => Some(n as u32),
            None => None,
        }
    }
}

/// The first backend on the lines from `i` on.
pub open spec fn first_backend(lines: Seq<Seq<char>>, url: Seq<char>, i: nat) -> Option<u32>
    decreases lines.len() - i,
{
    if i >= lines.len() {
        None
    } else {
        match backend_on_line(lines[i as int], url) {
            Some(pid) => Some(pid),
            None => first_backend(lines, url, i + 1),
        }
    }
}

/// The process on a line of a process list, where it is the backend.
fn backend_of_line(line: &str, websocket_url: &str) -> (r: Option<u32>)
    ensures
        r == backend_on_line(line@, websocket_url@),
{
    let parts = split_words(line);
    let ghost all = parts.deep_view();
    if parts.len() < 2 {
        return None;
    }
    assert(all[0] == parts@[0]@ && all[1] == parts@[1]@);
    let mut rest: Vec<String> = Vec::new();
    let mut i: usize = 2;
    while i < parts.len()
        invariant
            2 <= i <= parts@.len(),
            all == parts.deep_view(),
            rest@.len() == i - 2,
            forall|k: int| 0 <= k < i - 2 ==> (#[trigger] rest@[k])@ == all[k + 2],
        decreases parts@.len() - i,
    {
        assert(all[i as int] == parts@[i as int]@);
        rest.push(parts[i].clone());
        i += 1;
    }
    assert(rest.deep_view() =~= all.subrange(2, all.len() as int));
    let command = join(&rest, " ");
    if is_unix_shell_wrapper_process(parts[1].as_str()) || !command_line_matches_backend(
        command.as_str(),
        websocket_url,
    ) {
        return None;
    }
    match parse_unsigned(parts[0].as_str(), u32::MAX as u64) {
        Some(n) => Some(n as u32),
        None => None,
    }
}

/// The backend in a process list that has an id, a name and a command on each line.
pub fn discover_backend_pid(process_list: &str, websocket_url: &str) -> (r: Option<u32>)
    ensures
        r == first_backend(split_from(process_list@, '\n', 0), websocket_url@, 0),
{
    let lines = split_char(process_list, '\n');
    let ghost all = lines.deep_view();
    let mut i: usize = 0;
    while i < lines.len()
        invariant
            i <= lines@.len(),
            all == lines.deep_view(),
            all == split_from(process_list@, '\n', 0),
            first_backend(all, websocket_url@, 0) == first_backend(
                all,
                websocket_url@,
                i as nat,
            ),
        decreases lines@.len() - i,
    {
        assert(all[i as int] == lines@[i as int]@);
        match backend_of_line(lines[i].as_str(), websocket_url) {
            Some(pid) => {
                return Some(pid);
            },
            None => {},
        }
        i += 1;
    }
    None
}

/// `s` without the quotation marks at its ends.
pub open spec fn unquoted_start(s: Seq<char>) -> Seq<char>
    decreases s.len(),
{
    if s.len() > 0 && s[0] == '"' {
        unquoted_start(s.subrange(1, s.len() as int))
    } else {
        s
    }
}

/// `s` without the quotation marks at its end.
pub open spec fn unquoted_end(s: Seq<char>) -> Seq<char>
    decreases s.len(),
{
    if s.len() > 0 && s.last() == '"' {
        unquoted_end(s.drop_last())
    } else {
        s
    }
}

/// The second field of a line of a quoted list is the process.
pub open spec fn task_line_is(line: Seq<char>, pid: u32) -> bool {
    let fields = split_text_from(unquoted_end(unquoted_start(trimmed(line))), "\",\""@, 0);
    fields.len() > 1 && fields[1] == decimal(pid as nat)
}

/// `s` without the quotation marks at its ends.
fn unquote(s: &str) -> (r: String)
    ensures
        r@ == unquoted_end(unquoted_start(s@)),
{
    let v = chars_of(s);
    let mut lo: usize = 0;
    assert(v@.subrange(0, v@.len() as int) =~= v@);
    while lo < v.len() && v[lo] == '"'
        invariant
            lo <= v@.len(),
            unquoted_start(v@.subrange(lo as int, v@.len() as int)) == unquoted_start(v@),
        decreases v@.len() - lo,
    {
        let ghost rest = v@.subrange(lo as int, v@.len() as int);
        assert(rest.subrange(1, rest.len() as int) =~= v@.subrange(lo + 1, v@.len() as int));
        lo += 1;
    }
    let mut hi: usize = v.len();
    while lo < hi && v[hi - 1] == '"'
        invariant
            lo <= hi <= v@.len(),
            unquoted_end(v@.subrange(lo as int, hi as int)) == unquoted_end(
                v@.subrange(lo as int, v@.len() as int),
            ),
        decreases hi,
    {
        let ghost part = v@.subrange(lo as int, hi as int);
        assert(part.drop_last() =~= v@.subrange(lo as int, hi - 1));
        hi -= 1;
    }
    text_of(&v, lo, hi)
}

/// Tells whether a quoted task list holds a process.
pub fn windows_tasklist_contains_pid(task_list: &str, pid: u32) -> (r: bool)
    ensures
        r == exists|i: int|
            0 <= i < split_from(task_list@, '\n', 0).len() && task_line_is(
                #[trigger] split_from(task_list@, '\n', 0)[i],
                pid,
            ),
{
    proof {
        reveal_strlit("\",\"");
    }
    let wanted = u64_text(pid as u64);
    let lines = split_char(task_list, '\n');
    let ghost all = lines.deep_view();
    let mut i: usize = 0;
    while i < lines.len()
        invariant
            i <= lines@.len(),
            all == lines.deep_view(),
            all == split_from(task_list@, '\n', 0),
            wanted@ == decimal(pid as nat),
            "\",\""@.len() > 0,
            forall|k: int| 0 <= k < i ==> !task_line_is(#[trigger] all[k], pid),
        decreases lines@.len() - i,
    {
        assert(all[i as int] == lines@[i as int]@);
        let fields = split_text(
            unquote(trim(lines[i].as_str()).as_str()).as_str(),
            "\",\"",
        );
        let ghost parts = fields.deep_view();
        if fields.len() > 1 {
            assert(parts[1] == fields@[1]@);
            if same(fields[1].as_str(), wanted.as_str()) {
                assert(task_line_is(all[i as int], pid));
                return true;
            }
        }
        i += 1;
    }
    false
}

/// An ASCII letter or digit.
pub open spec fn is_alphanumeric(c: char) -> bool {
    ('a' <= c <= 'z') || ('A' <= c <= 'Z') || ('0' <= c <= '9')
}

/// The text with everything but ASCII letters and digits replaced by hyphens.
pub open spec fn hyphenated(s: Seq<char>) -> Seq<char> {
    s.map_values(
        |c: char|
            if is_alphanumeric(c) {
                c
            } else {
                '-'
            },
    )
}

/// The name of the terminal session that runs the backend.
pub open spec fn session_name(url: Seq<char>) -> Seq<char> {
    "codex-bridge-live-"@ + first_chars(hyphenated(url), 48)
}

/// The name of the terminal session that runs the backend.
pub fn live_backend_screen_session_name(websocket_url: &str) -> (r: String)
    ensures
        r@ == session_name(websocket_url@),
{
    let v = chars_of(websocket_url);
    let n: usize = if v.len() <= 48 {
        v.len()
    } else {
        48
    };
    let mut safe = String::new();
    let mut i: usize = 0;
    let ghost whole = hyphenated(v@);
    assert(safe@ =~= whole.subrange(0, 0));
    while i < n
        invariant
            i <= n <= v@.len(),
            whole == hyphenated(v@),
            safe@ == whole.subrange(0, i as int),
        decreases n - i,
    {
        let c = v[i];
        let keep: bool = ('a' <= c && c <= 'z') || ('A' <= c && c <= 'Z') || ('0' <= c && c <= '9');
        safe.push(
            if keep {
                c
            } else {
                '-'
            },
        );
        assert(safe@ =~= whole.subrange(0, i + 1));
        i += 1;
    }
    assert(whole.subrange(0, whole.len() as int) =~= whole);
    cat("codex-bridge-live-", safe.as_str())
}

/// The part of a session name that the URL gives is short and holds letters, digits and
/// hyphens only.
pub proof fn session_names_are_safe(url: Seq<char>, i: int)
    requires
        0 <= i < first_chars(hyphenated(url), 48).len(),
    ensures
        first_chars(hyphenated(url), 48).len() <= 48,
        is_alphanumeric(first_chars(hyphenated(url), 48)[i]) || first_chars(
            hyphenated(url),
            48,
        )[i] == '-',
{
}

/// The script that starts the backend where no terminal multiplexer is at hand: its input
/// stays open, and a supervisor waits for it.
pub const SPAWN_SCRIPT: &'static str =
    "\nbinary=$1\nurl=$2\n# codex app-server exits when stdin is EOF and when its launcher disappears.\n# Keep stdin open and leave a tiny supervisor waiting while returning the app-server pid.\n(\n  tail -f /dev/null | \"$binary\" app-server --listen \"$url\" >/dev/null 2>&1 &\n  child=$!\n  printf '%s\\n' \"$child\" >&3\n  exec 3>&-\n  wait \"$child\"\n) 3>&1 >/dev/null 2>&1 &\n";

/// The script that starts the backend where no terminal multiplexer is at hand.
pub fn live_backend_spawn_shell_script() -> (r: &'static str)
    ensures
        r@ == SPAWN_SCRIPT@,
{
    SPAWN_SCRIPT
}

// ---------------------------------------------------------------------------
// Status
// ---------------------------------------------------------------------------

/// What is known of the backend.
#[derive(Debug, PartialEq, Eq)]
pub struct LiveBackendStatus {
    pub websocket_url: String,
    pub pid: Option<u32>,
    pub process_start_key: Option<String>,
    pub healthy: bool,
    pub last_error: Option<String>,
    pub required: bool,
    pub state: String,
    pub recoverable: bool,
    pub reconcile_attempts: u32,
    pub retry_after_ms: Option<u64>,
}

/// The model of [`LiveBackendStatus`].
#[verifier::ext_equal]
pub struct LiveBackendStatusV {
    pub websocket_url: Seq<char>,
    pub pid: Option<u32>,
    pub process_start_key: Option<Seq<char>>,
    pub healthy: bool,
    pub last_error: Option<Seq<char>>,
    pub required: bool,
    pub state: Seq<char>,
    pub recoverable: bool,
    pub reconcile_attempts: u32,
    pub retry_after_ms: Option<u64>,
}

impl View for LiveBackendStatus {
    type V = LiveBackendStatusV;

    open spec fn view(&self) -> LiveBackendStatusV {
        LiveBackendStatusV {
            websocket_url: self.websocket_url@,
            pid: self.pid,
            process_start_key: self.process_start_key.deep_view(),
            healthy: self.healthy,
            last_error: self.last_error.deep_view(),
            required: self.required,
            state: self.state@,
            recoverable: self.recoverable,
            reconcile_attempts: self.reconcile_attempts,
            retry_after_ms: self.retry_after_ms,
        }
    }
}

impl DeepView for LiveBackendStatus {
    type V = LiveBackendStatusV;

    open spec fn deep_view(&self) -> LiveBackendStatusV {
        self@
    }
}

impl Clone for LiveBackendStatus {
    fn clone(&self) -> (r: LiveBackendStatus)
        ensures
            r@ == self@,
    {
        LiveBackendStatus {
            websocket_url: self.websocket_url.clone(),
            pid: self.pid,
            process_start_key: copy_opt(&self.process_start_key),
            healthy: self.healthy,
            last_error: copy_opt(&self.last_error),
            required: self.required,
            state: self.state.clone(),
            recoverable: self.recoverable,
            reconcile_attempts: self.reconcile_attempts,
            retry_after_ms: self.retry_after_ms,
        }
    }
}

/// What was done about the backend, and its status.
#[derive(Debug, PartialEq, Eq)]
pub struct EnsureLiveBackendResult {
    pub action: String,
    pub status: LiveBackendStatus,
}

/// The model of [`EnsureLiveBackendResult`].
#[verifier::ext_equal]
pub struct EnsureLiveBackendResultV {
    pub action: Seq<char>,
    pub status: LiveBackendStatusV,
}

impl View for EnsureLiveBackendResult {
    type V = EnsureLiveBackendResultV;

    open spec fn view(&self) -> EnsureLiveBackendResultV {
        EnsureLiveBackendResultV {
            action: self.action@,
            status: self.status@,
        }
    }
}

impl DeepView for EnsureLiveBackendResult {
    type V = EnsureLiveBackendResultV;

    open spec fn deep_view(&self) -> EnsureLiveBackendResultV {
        self@
    }
}

/// What is known of a process at one moment.
#[derive(Debug, PartialEq, Eq)]
pub struct ProcessFacts {
    pub alive: bool,
    pub command_matches: bool,
    pub start_key: Option<String>,
}

/// The model of [`ProcessFacts`].
#[verifier::ext_equal]
pub struct ProcessFactsV {
    pub alive: bool,
    pub command_matches: bool,
    pub start_key: Option<Seq<char>>,
}

impl View for ProcessFacts {
    type V = ProcessFactsV;

    open spec fn view(&self) -> ProcessFactsV {
        ProcessFactsV {
            alive: self.alive,
            command_matches: self.command_matches,
            start_key: self.start_key.deep_view(),
        }
    }
}

impl DeepView for ProcessFacts {
    type V = ProcessFactsV;

    open spec fn deep_view(&self) -> ProcessFactsV {
        self@
    }
}

/// The status of a backend of which nothing is known.
pub open spec fn empty_status(url: Seq<char>) -> LiveBackendStatusV {
    LiveBackendStatusV {
        websocket_url: url,
        pid: None,
        process_start_key: None,
        healthy: false,
        last_error: None,
        required: false,
        state: "idle"@,
        recoverable: true,
        reconcile_attempts: 0,
        retry_after_ms: None,
    }
}

/// The status of a backend of which nothing is known.
pub fn empty_live_backend_status(config: &CodexConfig) -> (r: LiveBackendStatus)
    ensures
        r@ == empty_status(config@.websocket_url),
{
    LiveBackendStatus {
        websocket_url: config.websocket_url.clone(),
        pid: None,
        process_start_key: None,
        healthy: false,
        last_error: None,
        required: false,
        state: LIVE_BACKEND_STATE_IDLE.to_owned(),
        recoverable: true,
        reconcile_attempts: 0,
        retry_after_ms: None,
    }
}

/// A status with the fields that older records lack.
pub open spec fn normalized(s: LiveBackendStatusV, required: bool) -> LiveBackendStatusV {
    LiveBackendStatusV {
        required,
        state: if s.state.len() > 0 {
            s.state
        } else if s.healthy {
            "ready"@
        } else if required {
            "unhealthy"@
        } else {
            "idle"@
        },
        recoverable: s.recoverable || s.healthy,
        reconcile_attempts: if s.healthy {
            0
        } else {
            s.reconcile_attempts
        },
        retry_after_ms: if s.healthy {
            None
        } else {
            s.retry_after_ms
        },
        ..s
    }
}

/// Fills the fields that older records lack.
pub fn normalize_status_fields(status: &mut LiveBackendStatus, required: bool)
    ensures
        final(status)@ == normalized(old(status)@, required),
{
    status.required = required;
    if status.state.as_str().is_empty() {
        let state: &str = if status.healthy {
            LIVE_BACKEND_STATE_READY
        } else if required {
            LIVE_BACKEND_STATE_UNHEALTHY
        } else {
            LIVE_BACKEND_STATE_IDLE
        };
        status.state = state.to_owned();
    }
    if status.healthy {
        status.recoverable = true;
        status.reconcile_attempts = 0;
        status.retry_after_ms = None;
    }
}

/// A status in a given state.
pub open spec fn in_state(
    s: LiveBackendStatusV,
    required: bool,
    state: Seq<char>,
    healthy: bool,
    recoverable: bool,
    last_error: Option<Seq<char>>,
) -> LiveBackendStatusV {
    LiveBackendStatusV { required, state, healthy, recoverable, last_error, ..s }
}

/// Puts a status into a given state.
pub fn set_status_state(
    status: &mut LiveBackendStatus,
    required: bool,
    state: &str,
    healthy: bool,
    recoverable: bool,
    last_error: Option<String>,
)
    ensures
        final(status)@ == in_state(
            old(status)@,
            required,
            state@,
            healthy,
            recoverable,
            last_error.deep_view(),
        ),
{
    status.required = required;
    status.state = state.to_owned();
    status.healthy = healthy;
    status.recoverable = recoverable;
    status.last_error = last_error;
}

/// Two texts that may be missing are the same.
fn same_opt(a: &Option<String>, b: &Option<String>) -> (r: bool)
    ensures
        r == (a.deep_view() == b.deep_view()),
{
    match (a, b) {
        (Some(x), Some(y)) => same(x.as_str(), y.as_str()),
        (None, None) => true,
        _ => false,
    }
}

/// Tells whether two statuses are the same.
pub fn same_status(a: &LiveBackendStatus, b: &LiveBackendStatus) -> (r: bool)
    ensures
        r == (a@ == b@),
{
    same(a.websocket_url.as_str(), b.websocket_url.as_str()) && a.pid == b.pid && same_opt(
        &a.process_start_key,
        &b.process_start_key,
    ) && a.healthy == b.healthy && same_opt(&a.last_error, &b.last_error) && a.required
        == b.required && same(a.state.as_str(), b.state.as_str()) && a.recoverable == b.recoverable
        && a.reconcile_attempts == b.reconcile_attempts && a.retry_after_ms == b.retry_after_ms
}

/// A status as JSON.
pub open spec fn status_json(s: LiveBackendStatusV) -> JsonV {
    JsonV::Object(
        Seq::empty()
            .push(("websocketUrl"@, JsonV::Str(s.websocket_url)))
            .push(
                ("pid"@, match s.pid {
                    Some(p) => JsonV::UInt(p as u64),
                    None => JsonV::Null,
                }),
            )
            .push(("processStartKey"@, text_or_null(s.process_start_key)))
            .push(("healthy"@, JsonV::Bool(s.healthy)))
            .push(("lastError"@, text_or_null(s.last_error)))
            .push(("required"@, JsonV::Bool(s.required)))
            .push(("state"@, JsonV::Str(s.state)))
            .push(("recoverable"@, JsonV::Bool(s.recoverable)))
            .push(("reconcileAttempts"@, JsonV::UInt(s.reconcile_attempts as u64)))
            .push(("retryAfterMs"@, uint_or_null(s.retry_after_ms))),
    )
}

/// A status as JSON.
pub fn live_backend_status_json(status: &LiveBackendStatus) -> (r: Json)
    ensures
        r@ == status_json(status@),
{
    let pid: Json = match status.pid {
        Some(p) => Json::UInt(p as u64),
        None => Json::Null,
    };
    Object::new().with("websocketUrl", Json::Str(status.websocket_url.clone())).with(
        "pid",
        pid,
    ).with("processStartKey", Json::opt_text(&status.process_start_key)).with(
        "healthy",
        Json::Bool(status.healthy),
    ).with("lastError", Json::opt_text(&status.last_error)).with(
        "required",
        Json::Bool(status.required),
    ).with("state", Json::Str(status.state.clone())).with(
        "recoverable",
        Json::Bool(status.recoverable),
    ).with("reconcileAttempts", Json::UInt(status.reconcile_attempts as u64)).with(
        "retryAfterMs",
        Json::opt_uint(status.retry_after_ms),
    ).done()
}

/// The process is the backend that was recorded: it lives, its command line is that of the
/// backend, and it started when the record says, where the record says it.
pub open spec fn process_matches(f: ProcessFactsV, expected_key: Option<Seq<char>>) -> bool {
    f.alive && f.command_matches && (expected_key is None || f.start_key == expected_key)
}

/// Tells whether the process is the backend that was recorded.
pub fn backend_pid_matches(facts: &ProcessFacts, process_start_key: &Option<String>) -> (r: bool)
    ensures
        r == process_matches(facts@, process_start_key.deep_view()),
{
    facts.alive && facts.command_matches && (process_start_key.is_none() || same_opt(
        &facts.start_key,
        process_start_key,
    ))
}

/// The record with the start key that an older record lacks, where the process is the backend.
pub open spec fn backfilled(s: LiveBackendStatusV, f: ProcessFactsV) -> LiveBackendStatusV {
    if s.pid is Some && s.process_start_key is None && f.command_matches {
        LiveBackendStatusV { process_start_key: f.start_key, ..s }
    } else {
        s
    }
}

/// Fills in the start key that an older record lacks, where the process is the backend.
pub fn backfill_process_start_key(status: &mut LiveBackendStatus, facts: &ProcessFacts)
    ensures
        final(status)@ == backfilled(old(status)@, facts@),
{
    if status.pid.is_some() && status.process_start_key.is_none() && facts.command_matches {
        status.process_start_key = copy_opt(&facts.start_key);
    }
}

// ---------------------------------------------------------------------------
// Looking at the backend
// ---------------------------------------------------------------------------

/// What a look at the backend waits for.
#[derive(Debug, Clone, Copy, PartialEq, Eq, Structural)]
pub enum LookPhase {
    /// The recorded process, to fill in its start key.
    Backfill,
    /// The recorded process.
    Recorded,
    /// A process that may be the backend.
    Discovery,
    /// The process that was found, for its start key.
    Adoption,
    /// The process that is taken for the backend.
    Managed,
    /// The answer of the server.
    Health,
    /// Nothing more.
    Over,
}

/// What the caller finds out next.
#[derive(Debug, Clone, Copy, PartialEq, Eq, Structural)]
pub enum LookProbe {
    /// The facts of this process.
    Process(u32),
    /// The process that runs a backend at the URL.
    Discover,
    /// Whether the server at the URL answers.
    Health,
    /// Nothing more: the status is known.
    Done,
}

/// What the caller found out.
#[derive(Debug, PartialEq, Eq)]
pub enum LookAnswer {
    Process(ProcessFacts),
    Discovered(Option<u32>),
    Healthy,
    Unhealthy(String),
}

/// The model of [`LookAnswer`].
pub enum LookAnswerV {
    Process(ProcessFactsV),
    Discovered(Option<u32>),
    Healthy,
    Unhealthy(Seq<char>),
}

impl View for LookAnswer {
    type V = LookAnswerV;

    open spec fn view(&self) -> LookAnswerV {
        match self {
            LookAnswer::Process(f) => LookAnswerV::Process(f@),
            LookAnswer::Discovered(pid) => LookAnswerV::Discovered(*pid),
            LookAnswer::Healthy => LookAnswerV::Healthy,
            LookAnswer::Unhealthy(text) => LookAnswerV::Unhealthy(text@),
        }
    }
}

/// A look at the backend.
#[derive(Debug, PartialEq, Eq)]
pub struct Look {
    pub required: bool,
    pub status: LiveBackendStatus,
    pub managed: bool,
    pub phase: LookPhase,
}

/// The model of [`Look`].
#[verifier::ext_equal]
pub struct LookV {
    pub required: bool,
    pub status: LiveBackendStatusV,
    pub managed: bool,
    pub phase: LookPhase,
}

impl View for Look {
    type V = LookV;

    open spec fn view(&self) -> LookV {
        LookV {
            required: self.required,
            status: self.status@,
            managed: self.managed,
            phase: self.phase,
        }
    }
}

impl DeepView for Look {
    type V = LookV;

    open spec fn deep_view(&self) -> LookV {
        self@
    }
}

/// The failure of a server that is not the backend.
pub open spec fn foreign_server(pid: Option<u32>) -> Seq<char> {
    match pid {
        Some(p) => "managed live backend process "@ + decimal(p as nat)
            + " is not running with the configured websocket URL"@,
        None => "websocket URL answered but no managed codex app-server process was found"@,
    }
}

/// The status of a backend that is not needed and not answering.
pub open spec fn idle(s: LiveBackendStatusV) -> LiveBackendStatusV {
    in_state(s, false, "idle"@, false, true, None)
}

/// The verdict once the server answered, or did not: `failed` is what it failed with.
pub open spec fn judged(
    s: LiveBackendStatusV,
    required: bool,
    managed: bool,
    failed: Option<Seq<char>>,
) -> LiveBackendStatusV {
    match failed {
        None => if managed {
            LiveBackendStatusV {
                reconcile_attempts: 0,
                retry_after_ms: None,
                ..in_state(s, required, "ready"@, true, true, None)
            }
        } else {
            in_state(s, required, "blocked"@, false, false, Some(foreign_server(s.pid)))
        },
        Some(text) => if required {
            in_state(s, true, "unhealthy"@, false, true, Some(text))
        } else {
            idle(s)
        },
    }
}

/// The record that a look starts from: the one for this URL, else an empty one.
pub open spec fn starting_status(
    previous: Option<LiveBackendStatusV>,
    url: Seq<char>,
    required: bool,
) -> LiveBackendStatusV {
    match previous {
        Some(p) => if p.websocket_url == url {
            normalized(p, required)
        } else {
            normalized(empty_status(url), required)
        },
        None => normalized(empty_status(url), required),
    }
}

impl LookV {
    /// The look turns to the recorded process, or searches for one.
    pub open spec fn checking_record(self) -> (LookV, LookProbe) {
        match self.status.pid {
            Some(pid) => (
                LookV { phase: LookPhase::Recorded, ..self },
                LookProbe::Process(pid),
            ),
            None => (LookV { phase: LookPhase::Discovery, ..self }, LookProbe::Discover),
        }
    }

    /// The look once it is known whether the process is the backend: a backend that is not
    /// needed and not running is idle; else the server is asked.
    pub open spec fn managed_known(self, managed: bool) -> (LookV, LookProbe) {
        let known = LookV { managed, ..self };
        if !self.required && !managed {
            (
                LookV { status: idle(self.status), phase: LookPhase::Over, ..known },
                LookProbe::Done,
            )
        } else {
            (LookV { phase: LookPhase::Health, ..known }, LookProbe::Health)
        }
    }

    /// The look is over.
    pub open spec fn over(self, status: LiveBackendStatusV) -> (LookV, LookProbe) {
        (LookV { status, phase: LookPhase::Over, ..self }, LookProbe::Done)
    }

    /// The step after an answer. An answer that the look does not wait for ends it.
    pub open spec fn step(self, answer: LookAnswerV) -> (LookV, LookProbe) {
        match (self.phase, answer) {
            (LookPhase::Backfill, LookAnswerV::Process(f)) => {
                (LookV { status: backfilled(self.status, f), ..self }).checking_record()
            },
            (LookPhase::Recorded, LookAnswerV::Process(f)) => {
                if process_matches(f, self.status.process_start_key) && self.status.pid is Some {
                    (
                        LookV { phase: LookPhase::Managed, ..self },
                        LookProbe::Process(self.status.pid->0),
                    )
                } else {
                    (LookV { phase: LookPhase::Discovery, ..self }, LookProbe::Discover)
                }
            },
            (LookPhase::Discovery, LookAnswerV::Discovered(found)) => {
                let taken = LookV {
                    status: LiveBackendStatusV {
                        pid: found,
                        process_start_key: None,
                        ..self.status
                    },
                    ..self
                };
                match found {
                    Some(pid) => (
                        LookV { phase: LookPhase::Adoption, ..taken },
                        LookProbe::Process(pid),
                    ),
                    None => taken.managed_known(false),
                }
            },
            (LookPhase::Adoption, LookAnswerV::Process(f)) => {
                let adopted = LookV {
                    status: LiveBackendStatusV { process_start_key: f.start_key, ..self.status },
                    ..self
                };
                match self.status.pid {
                    Some(pid) => (
                        LookV { phase: LookPhase::Managed, ..adopted },
                        LookProbe::Process(pid),
                    ),
                    None => adopted.managed_known(false),
                }
            },
            (LookPhase::Managed, LookAnswerV::Process(f)) => {
                self.managed_known(process_matches(f, self.status.process_start_key))
            },
            (LookPhase::Health, LookAnswerV::Healthy) => {
                self.over(judged(self.status, self.required, self.managed, None))
            },
            (LookPhase::Health, LookAnswerV::Unhealthy(text)) => {
                self.over(judged(self.status, self.required, self.managed, Some(text)))
            },
            _ => self.over(self.status),
        }
    }
}

/// A look at its start, and what is found out first.
pub open spec fn look_begun(
    previous: Option<LiveBackendStatusV>,
    url: Seq<char>,
    required: bool,
) -> (LookV, LookProbe) {
    let status = starting_status(previous, url, required);
    let look = LookV { required, status, managed: false, phase: LookPhase::Backfill };
    if status.pid is Some && status.process_start_key is None {
        (look, LookProbe::Process(status.pid->0))
    } else {
        look.checking_record()
    }
}

impl Look {
    /// Begins a look at the backend: what is found out first.
    pub fn begin(
        previous: &Option<LiveBackendStatus>,
        config: &CodexConfig,
        required: bool,
    ) -> (r: (Look, LookProbe))
        ensures
            (r.0@, r.1) == look_begun(previous.deep_view(), config@.websocket_url, required),
    {
        let mut status: LiveBackendStatus = match previous {
            Some(p) => if same(p.websocket_url.as_str(), config.websocket_url.as_str()) {
                p.clone()
            } else {
                empty_live_backend_status(config)
            },
            None => empty_live_backend_status(config),
        };
        normalize_status_fields(&mut status, required);
        let mut look = Look { required, status, managed: false, phase: LookPhase::Backfill };
        match look.status.pid {
            Some(pid) => {
                if look.status.process_start_key.is_none() {
                    return (look, LookProbe::Process(pid));
                }
            },
            None => {},
        }
        let probe = look.check_record();
        (look, probe)
    }

    /// Turns to the recorded process, or searches for one.
    fn check_record(&mut self) -> (r: LookProbe)
        ensures
            (final(self)@, r) == old(self)@.checking_record(),
    {
        match self.status.pid {
            Some(pid) => {
                self.phase = LookPhase::Recorded;
                LookProbe::Process(pid)
            },
            None => {
                self.phase = LookPhase::Discovery;
                LookProbe::Discover
            },
        }
    }

    /// Goes on once it is known whether the process is the backend.
    fn know_managed(&mut self, managed: bool) -> (r: LookProbe)
        ensures
            (final(self)@, r) == old(self)@.managed_known(managed),
    {
        self.managed = managed;
        if !self.required && !managed {
            set_status_state(
                &mut self.status,
                false,
                LIVE_BACKEND_STATE_IDLE,
                false,
                true,
                None,
            );
            self.phase = LookPhase::Over;
            LookProbe::Done
        } else {
            self.phase = LookPhase::Health;
            LookProbe::Health
        }
    }

    /// Judges the backend by whether the server answered.
    fn judge(&mut self, failed: Option<String>)
        ensures
            final(self)@ == (LookV {
                status: judged(
                    old(self)@.status,
                    old(self)@.required,
                    old(self)@.managed,
                    failed.deep_view(),
                ),
                phase: LookPhase::Over,
                ..old(self)@
            }),
    {
        let required: bool = self.required;
        match failed {
            None => {
                if self.managed {
                    set_status_state(
                        &mut self.status,
                        required,
                        LIVE_BACKEND_STATE_READY,
                        true,
                        true,
                        None,
                    );
                    self.status.reconcile_attempts = 0;
                    self.status.retry_after_ms = None;
                } else {
                    let text: String = match self.status.pid {
                        Some(p) => cat3(
                            "managed live backend process ",
                            u64_text(p as u64).as_str(),
                            " is not running with the configured websocket URL",
                        ),
                        None => "websocket URL answered but no managed codex app-server process was found".to_owned(),
                    };
                    set_status_state(
                        &mut self.status,
                        required,
                        LIVE_BACKEND_STATE_BLOCKED,
                        false,
                        false,
                        Some(text),
                    );
                }
            },
            Some(text) => {
                if required {
                    set_status_state(
                        &mut self.status,
                        true,
                        LIVE_BACKEND_STATE_UNHEALTHY,
                        false,
                        true,
                        Some(text),
                    );
                } else {
                    set_status_state(
                        &mut self.status,
                        false,
                        LIVE_BACKEND_STATE_IDLE,
                        false,
                        true,
                        None,
                    );
                }
            },
        }
        self.phase = LookPhase::Over;
    }

    /// Takes an answer, and gives what is found out next.
    pub fn advance(&mut self, answer: LookAnswer) -> (r: LookProbe)
        ensures
            (final(self)@, r) == old(self)@.step(answer@),
    {
        match (self.phase, answer) {
            (LookPhase::Backfill, LookAnswer::Process(facts)) => {
                backfill_process_start_key(&mut self.status, &facts);
                self.check_record()
            },
            (LookPhase::Recorded, LookAnswer::Process(facts)) => {
                let matches: bool = backend_pid_matches(&facts, &self.status.process_start_key);
                match self.status.pid {
                    Some(pid) => {
                        if matches {
                            self.phase = LookPhase::Managed;
                            return LookProbe::Process(pid);
                        }
                    },
                    None => {},
                }
                self.phase = LookPhase::Discovery;
                LookProbe::Discover
            },
            (LookPhase::Discovery, LookAnswer::Discovered(found)) => {
                self.status.pid = found;
                self.status.process_start_key = None;
                match found {
                    Some(pid) => {
                        self.phase = LookPhase::Adoption;
                        LookProbe::Process(pid)
                    },
                    None => self.know_managed(false),
                }
            },
            (LookPhase::Adoption, LookAnswer::Process(facts)) => {
                self.status.process_start_key = facts.start_key;
                match self.status.pid {
                    Some(pid) => {
                        self.phase = LookPhase::Managed;
                        LookProbe::Process(pid)
                    },
                    None => self.know_managed(false),
                }
            },
            (LookPhase::Managed, LookAnswer::Process(facts)) => {
                let managed: bool = backend_pid_matches(&facts, &self.status.process_start_key);
                self.know_managed(managed)
            },
            (LookPhase::Health, LookAnswer::Healthy) => {
                self.judge(None);
                LookProbe::Done
            },
            (LookPhase::Health, LookAnswer::Unhealthy(text)) => {
                self.judge(Some(text));
                LookProbe::Done
            },
            _ => {
                self.phase = LookPhase::Over;
                LookProbe::Done
            },
        }
    }
}

/// The record has to be written: it is new, or it changed.
pub fn status_changed(previous: &Option<LiveBackendStatus>, status: &LiveBackendStatus) -> (r: bool)
    ensures
        r == (previous.deep_view() != Some(status@)),
{
    match previous {
        Some(p) => !same_status(p, status),
        None => true,
    }
}

/// Brings the record of the backend up to date with a status, and tells whether it has to be
/// written.
pub fn record_status(stored: &mut Option<LiveBackendStatus>, status: &LiveBackendStatus) -> (r:
    bool)
    ensures
        final(stored).deep_view() == Some(status@),
        r == (old(stored).deep_view() != Some(status@)),
{
    let changed: bool = status_changed(stored, status);
    if changed {
        *stored = Some(status.clone());
    }
    changed
}

/// A backend is ready only when its process is the one that the bridge knows and its server
/// answers; and while it is not needed, a server that does not answer is no failure.
pub proof fn verdicts_are_sound(
    s: LiveBackendStatusV,
    required: bool,
    managed: bool,
    failed: Option<Seq<char>>,
)
    ensures
        judged(s, required, managed, failed).healthy <==> managed && failed is None,
        !required && failed is Some ==> judged(s, required, managed, failed).state == "idle"@
            && judged(s, required, managed, failed).last_error is None,
        required && failed is Some ==> judged(s, required, managed, failed).state == "unhealthy"@
            && judged(s, required, managed, failed).recoverable && judged(
            s,
            required,
            managed,
            failed,
        ).last_error == failed,
        !managed && failed is None ==> judged(s, required, managed, failed).state == "blocked"@
            && !judged(s, required, managed, failed).recoverable,
{
}

/// Begins a look at the backend of a configuration; refused where the URL is none that the
/// backend may have.
pub fn live_backend_status(
    previous: &Option<LiveBackendStatus>,
    config: &CodexConfig,
    required: bool,
) -> (r: Result<(Look, LookProbe), BridgeError>)
    ensures
        match (r, shared_url(
            config@.websocket_url,
            parts_of(url_of(config@.websocket_url)),
        )) {
            (Ok(begun), Ok(_)) => (begun.0@, begun.1) == look_begun(
                previous.deep_view(),
                config@.websocket_url,
                required,
            ),
            (Err(a), Err(b)) => a@ == b,
            _ => false,
        },
{
    match validate_live_backend_config(config) {
        Ok(_) => Ok(Look::begin(previous, config, required)),
        Err(e) => Err(e),
    }
}

/// An answer is of the kind that a look waits for.
pub open spec fn answer_fits(phase: LookPhase, answer: LookAnswerV) -> bool {
    match phase {
        LookPhase::Backfill | LookPhase::Recorded | LookPhase::Adoption | LookPhase::Managed =>
            answer is Process,
        LookPhase::Discovery => answer is Discovered,
        LookPhase::Health => answer is Healthy || answer is Unhealthy,
        LookPhase::Over => false,
    }
}

/// A look after a run of answers.
pub open spec fn look_after(look: LookV, answers: Seq<LookAnswerV>) -> LookV
    decreases answers.len(),
{
    if answers.len() == 0 {
        look
    } else {
        look_after(look, answers.drop_last()).step(answers.last()).0
    }
}

/// Each of the answers is of the kind that the look waited for.
pub open spec fn answers_fit(look: LookV, answers: Seq<LookAnswerV>) -> bool
    decreases answers.len(),
{
    answers.len() == 0 || (answers_fit(look, answers.drop_last()) && answer_fits(
        look_after(look, answers.drop_last()).phase,
        answers.last(),
    ))
}

/// What holds of a status that a look ends with.
pub open spec fn status_sound(s: LiveBackendStatusV, url: Seq<char>, required: bool) -> bool {
    &&& s.websocket_url == url
    &&& s.required == required
    &&& s.healthy <==> s.state == "ready"@
    &&& s.recoverable <==> s.state != "blocked"@
    &&& s.last_error is Some <==> s.state == "unhealthy"@ || s.state == "blocked"@
    &&& s.state == "ready"@ || s.state == "idle"@ || (required && (s.state == "unhealthy"@
        || s.state == "blocked"@))
}

/// What holds of a look at any moment.
spec fn look_sound(look: LookV, url: Seq<char>, required: bool) -> bool {
    &&& look.required == required
    &&& look.status.websocket_url == url
    &&& look.phase == LookPhase::Health && !required ==> look.managed
    &&& look.phase == LookPhase::Over ==> status_sound(look.status, url, required)
}

/// A look stays sound under an answer that it waits for.
proof fn lemma_look_step(look: LookV, answer: LookAnswerV, url: Seq<char>, required: bool)
    requires
        look_sound(look, url, required),
        answer_fits(look.phase, answer),
    ensures
        look_sound(look.step(answer).0, url, required),
{
    reveal_strlit("ready");
    reveal_strlit("idle");
    reveal_strlit("unhealthy");
    reveal_strlit("blocked");
    assert("ready"@.len() == 5 && "idle"@.len() == 4 && "unhealthy"@.len() == 9
        && "blocked"@.len() == 7);
}

/// A look stays sound under answers that it waits for.
proof fn lemma_look_run(look: LookV, answers: Seq<LookAnswerV>, url: Seq<char>, required: bool)
    requires
        look_sound(look, url, required),
        answers_fit(look, answers),
    ensures
        look_sound(look_after(look, answers), url, required),
    decreases answers.len(),
{
    if answers.len() > 0 {
        lemma_look_run(look, answers.drop_last(), url, required);
        lemma_look_step(
            look_after(look, answers.drop_last()),
            answers.last(),
            url,
            required,
        );
    }
}

/// Every look that comes to its end gives a status of the configured URL that says whether
/// the backend was needed, and whose fields agree: it is healthy exactly when it is ready,
/// beyond recovery exactly when it is blocked, and has a failure exactly when it is unhealthy
/// or blocked. One that was not needed is idle or ready.
pub proof fn finished_looks_are_sound(
    previous: Option<LiveBackendStatusV>,
    url: Seq<char>,
    required: bool,
    answers: Seq<LookAnswerV>,
)
    requires
        answers_fit(look_begun(previous, url, required).0, answers),
        look_after(look_begun(previous, url, required).0, answers).phase == LookPhase::Over,
    ensures
        status_sound(
            look_after(look_begun(previous, url, required).0, answers).status,
            url,
            required,
        ),
{
    lemma_look_run(look_begun(previous, url, required).0, answers, url, required);
}

/// While the backend is not needed and no process runs it, the look ends idle without
/// asking the server, whatever the record said.
pub proof fn stopped_backends_are_idle(look: LookV)
    requires
        look.phase == LookPhase::Discovery,
        !look.required,
    ensures
        look.step(LookAnswerV::Discovered(None)).1 == LookProbe::Done,
        look.step(LookAnswerV::Discovered(None)).0.status.state == "idle"@,
        look.step(LookAnswerV::Discovered(None)).0.status.pid is None,
        look.step(LookAnswerV::Discovered(None)).0.status.process_start_key is None,
        look.step(LookAnswerV::Discovered(None)).0.status.last_error is None,
{
}

// ---------------------------------------------------------------------------
// Starting, reconciling and resetting
// ---------------------------------------------------------------------------

/// How long reconciling waits after `attempts` failures, in milliseconds: it doubles from
/// five seconds up to a minute.
pub open spec fn reconcile_backoff(attempts: u32) -> u64 {
    if attempts <= 1 {
        5_000
    } else if attempts == 2 {
        10_000
    } else if attempts == 3 {
        20_000
    } else if attempts == 4 {
        40_000
    } else {
        60_000
    }
}

/// How long reconciling waits after `attempts` failures, in milliseconds.
pub fn reconcile_backoff_ms(attempts: u32) -> (r: u64)
    ensures
        r == reconcile_backoff(attempts),
{
    let steps: u32 = attempts.saturating_sub(1);
    let exponent: u32 = if steps < 4 {
        steps
    } else {
        4
    };
    assert(1u64 << 0u32 == 1 && 1u64 << 1u32 == 2 && 1u64 << 2u32 == 4 && 1u64 << 3u32 == 8 && 1u64
        << 4u32 == 16) by (bit_vector);
    let wait: u64 = 5_000 * (1u64 << exponent);
    if wait < 60_000 {
        wait
    } else {
        60_000
    }
}

/// Reconciling never waits less after more failures, and never more than a minute.
pub proof fn reconciling_backs_off(attempts: u32, more: u32)
    requires
        attempts <= more,
    ensures
        5_000 <= reconcile_backoff(attempts) <= reconcile_backoff(more) <= 60_000,
{
}

/// What is done about a backend.
#[derive(Debug, Clone, Copy, PartialEq, Eq, Structural)]
pub enum BackendDecision {
    /// It is used as it is.
    Reuse,
    /// It is left alone: something else is in its place.
    Blocked,
    /// It is left alone for now.
    Defer,
    /// It is started anew, after so many failures.
    Start(u32),
}

impl DeepView for BackendDecision {
    type V = BackendDecision;

    open spec fn deep_view(&self) -> BackendDecision {
        *self
    }
}

/// What is done about a backend that is needed now.
pub open spec fn ensure_decision(s: LiveBackendStatusV) -> BackendDecision {
    if s.healthy {
        BackendDecision::Reuse
    } else {
        BackendDecision::Start(0)
    }
}

/// What comes of a decision for a configuration: it is refused where the URL is none that the
/// backend may have.
pub open spec fn decided(url: Seq<char>, decision: BackendDecision) -> Result<
    BackendDecision,
    BridgeErrorV,
> {
    match shared_url(url, parts_of(url_of(url))) {
        Ok(_) => Ok(decision),
        Err(e) => Err(e),
    }
}

/// What is done about a backend that is needed now; nothing where its URL may not be used.
pub fn ensure_live_backend(config: &CodexConfig, status: &LiveBackendStatus) -> (r: Result<
    BackendDecision,
    BridgeError,
>)
    ensures
        outcome(r) == decided(config@.websocket_url, ensure_decision(status@)),
{
    match validate_live_backend_config(config) {
        Ok(_) => {},
        Err(e) => {
            return Err(e);
        },
    }
    if status.healthy {
        Ok(BackendDecision::Reuse)
    } else {
        Ok(BackendDecision::Start(0))
    }
}

/// What is done about a backend that is kept running.
pub open spec fn reconcile_decision(s: LiveBackendStatusV, now: u64) -> BackendDecision {
    if s.healthy {
        BackendDecision::Reuse
    } else if s.state == "blocked"@ || !s.recoverable {
        BackendDecision::Blocked
    } else if s.retry_after_ms matches Some(at) && at > now {
        BackendDecision::Defer
    } else {
        BackendDecision::Start(
            if s.reconcile_attempts < u32::MAX {
                (s.reconcile_attempts + 1) as u32
            } else {
                u32::MAX
            },
        )
    }
}

/// What is done about a backend that is kept running; nothing where its URL may not be used.
pub fn reconcile_live_backend(
    config: &CodexConfig,
    status: &LiveBackendStatus,
    now_ms: u64,
) -> (r: Result<BackendDecision, BridgeError>)
    ensures
        outcome(r) == decided(config@.websocket_url, reconcile_decision(status@, now_ms)),
{
    match validate_live_backend_config(config) {
        Ok(_) => {},
        Err(e) => {
            return Err(e);
        },
    }
    if status.healthy {
        return Ok(BackendDecision::Reuse);
    }
    if same(status.state.as_str(), LIVE_BACKEND_STATE_BLOCKED) || !status.recoverable {
        return Ok(BackendDecision::Blocked);
    }
    match status.retry_after_ms {
        Some(at) => {
            if at > now_ms {
                return Ok(BackendDecision::Defer);
            }
        },
        None => {},
    }
    Ok(BackendDecision::Start(status.reconcile_attempts.saturating_add(1)))
}

/// Nothing is decided about a backend whose URL is not one of this machine.
pub proof fn far_backends_are_refused(url: Seq<char>, decision: BackendDecision)
    ensures
        (parts_of(url_of(url)) matches Ok(parts) && parts.host != Some("127.0.0.1"@) && parts.host
            != Some("localhost"@) && parts.host != Some("::1"@)) ==> decided(url, decision) is Err,
{
}

/// The name under which a decision is reported.
pub open spec fn decision_name(d: BackendDecision) -> Seq<char> {
    match d {
        BackendDecision::Reuse => "reused"@,
        BackendDecision::Blocked => "blocked"@,
        BackendDecision::Defer => "deferred"@,
        BackendDecision::Start(_) => "started"@,
    }
}

/// The name under which a decision is reported.
pub fn decision_action(d: BackendDecision) -> (r: String)
    ensures
        r@ == decision_name(d),
{
    match d {
        BackendDecision::Reuse => "reused".to_owned(),
        BackendDecision::Blocked => "blocked".to_owned(),
        BackendDecision::Defer => "deferred".to_owned(),
        BackendDecision::Start(_) => "started".to_owned(),
    }
}

/// What was done about a backend by a decision, and its status afterwards.
pub fn backend_settled(decision: BackendDecision, status: LiveBackendStatus) -> (r:
    EnsureLiveBackendResult)
    ensures
        r@ == (EnsureLiveBackendResultV { action: decision_name(decision), status: status@ }),
{
    EnsureLiveBackendResult { action: decision_action(decision), status }
}

/// What was done about a backend that was reset, and its status afterwards.
pub fn backend_restarted(status: LiveBackendStatus) -> (r: EnsureLiveBackendResult)
    ensures
        r@ == (EnsureLiveBackendResultV { action: "restarted"@, status: status@ }),
{
    EnsureLiveBackendResult { action: "restarted".to_owned(), status }
}

/// The status once reconciling started the backend.
pub fn reconcile_succeeded(status: LiveBackendStatus) -> (r: LiveBackendStatus)
    ensures
        r@ == (LiveBackendStatusV { reconcile_attempts: 0, retry_after_ms: None, ..status@ }),
{
    let mut after = status;
    after.reconcile_attempts = 0;
    after.retry_after_ms = None;
    after
}

/// The status once reconciling failed for the `attempts`-th time.
pub open spec fn reconcile_failure(
    recorded: Option<LiveBackendStatusV>,
    url: Seq<char>,
    attempts: u32,
    now: u64,
    error: Seq<char>,
) -> LiveBackendStatusV {
    let base = match recorded {
        Some(s) => s,
        None => empty_status(url),
    };
    LiveBackendStatusV {
        reconcile_attempts: attempts,
        retry_after_ms: Some(saturating(now, reconcile_backoff(attempts))),
        ..in_state(base, true, "unhealthy"@, false, true, Some(error))
    }
}

/// The status once reconciling failed for the `attempts`-th time.
pub fn reconcile_failed(
    recorded: Option<LiveBackendStatus>,
    config: &CodexConfig,
    attempts: u32,
    now_ms: u64,
    error: &str,
) -> (r: LiveBackendStatus)
    ensures
        r@ == reconcile_failure(
            recorded.deep_view(),
            config@.websocket_url,
            attempts,
            now_ms,
            error@,
        ),
{
    let mut status: LiveBackendStatus = match recorded {
        Some(s) => s,
        None => empty_live_backend_status(config),
    };
    set_status_state(
        &mut status,
        true,
        LIVE_BACKEND_STATE_UNHEALTHY,
        false,
        true,
        Some(error.to_owned()),
    );
    status.reconcile_attempts = attempts;
    status.retry_after_ms = Some(now_ms.saturating_add(reconcile_backoff_ms(attempts)));
    status
}

/// After a failure, reconciling leaves the backend alone until its wait is over, and then
/// tries again.
pub proof fn failed_starts_are_deferred(
    recorded: Option<LiveBackendStatusV>,
    url: Seq<char>,
    attempts: u32,
    now: u64,
    error: Seq<char>,
    later: u64,
)
    ensures
        later < saturating(now, reconcile_backoff(attempts)) ==> reconcile_decision(
            reconcile_failure(recorded, url, attempts, now, error),
            later,
        ) == BackendDecision::Defer,
        later >= saturating(now, reconcile_backoff(attempts)) ==> reconcile_decision(
            reconcile_failure(recorded, url, attempts, now, error),
            later,
        ) is Start,
{
    reveal_strlit("unhealthy");
    reveal_strlit("blocked");
    assert("unhealthy"@.len() != "blocked"@.len());
}

/// A reset is refused where a backend runs that the bridge does not own.
pub open spec fn reset_refusal(found: Option<u32>, url: Seq<char>) -> Option<BridgeErrorV> {
    match found {
        Some(pid) => Some(
            failure(
                "found codex app-server process "@ + decimal(pid as nat) + " on "@ + url
                    + " without bridge ownership metadata; refusing to repair it. Use /away to reuse it or stop it locally first."@,
            ),
        ),
        None => None,
    }
}

/// The failure of a reset where a backend runs that the bridge does not own.
fn refused_reset(pid: u32, websocket_url: &str) -> (r: BridgeError)
    ensures
        reset_refusal(Some(pid), websocket_url@) == Some(r@),
{
    let mut text = cat3("found codex app-server process ", u64_text(pid as u64).as_str(), " on ");
    text.append(websocket_url);
    text.append(
        " without bridge ownership metadata; refusing to repair it. Use /away to reuse it or stop it locally first.",
    );
    BridgeError::new(text.as_str())
}

/// A process may be ended only where the record says when it started, and the process is
/// the one that the record means.
pub open spec fn may_end(expected_key: Option<Seq<char>>, f: ProcessFactsV) -> bool {
    expected_key is Some && process_matches(f, expected_key)
}

/// Tells whether a process may be ended.
pub fn terminate_managed_backend_pid(
    process_start_key: &Option<String>,
    facts: &ProcessFacts,
) -> (r: bool)
    ensures
        r == may_end(process_start_key.deep_view(), facts@),
{
    process_start_key.is_some() && backend_pid_matches(facts, process_start_key)
}

/// No process is ended that started at another moment than the record says, nor any where
/// the record does not say it.
pub proof fn strangers_are_never_ended(expected_key: Option<Seq<char>>, f: ProcessFactsV)
    requires
        expected_key is None || f.start_key != expected_key,
    ensures
        !may_end(expected_key, f),
{
}

/// The wait for a process to end is over: it is gone, or its id is another process now.
pub open spec fn exit_seen(expected_key: Option<Seq<char>>, f: ProcessFactsV) -> bool {
    !f.alive || (expected_key is Some && f.start_key is Some && f.start_key != expected_key)
}

/// Tells whether the wait for a process to end is over.
pub fn wait_for_managed_backend_pid_exit(
    process_start_key: &Option<String>,
    facts: &ProcessFacts,
) -> (r: bool)
    ensures
        r == exit_seen(process_start_key.deep_view(), facts@),
{
    !facts.alive || (process_start_key.is_some() && facts.start_key.is_some() && !same_opt(
        &facts.start_key,
        process_start_key,
    ))
}

// ---------------------------------------------------------------------------
// Ending a process, and resetting the backend
// ---------------------------------------------------------------------------

/// How far the ending of a process is.
#[derive(Debug, Clone, Copy, PartialEq, Eq, Structural)]
pub enum EndPhase {
    /// It was not told yet.
    Untold,
    /// It was asked to end.
    Asked,
    /// It had its time, and is looked at once more.
    Late,
    /// It was forced to end.
    Forced,
    /// Nothing more is done.
    Over,
}

/// What is done next to end a process.
#[derive(Debug, Clone, Copy, PartialEq, Eq, Structural)]
pub enum EndStep {
    /// Find out about the process.
    Look,
    /// Ask it to end, then find out about it.
    Ask,
    /// Force it to end, then find out about it.
    Force,
    /// Wait a moment, then find out about it.
    Wait,
    /// Nothing more.
    Done,
}

/// The ending of a recorded process.
#[derive(Debug, PartialEq, Eq)]
pub struct Ending {
    pub pid: u32,
    pub websocket_url: String,
    pub process_start_key: Option<String>,
    pub phase: EndPhase,
}

/// The model of [`Ending`].
#[verifier::ext_equal]
pub struct EndingV {
    pub pid: u32,
    pub websocket_url: Seq<char>,
    pub process_start_key: Option<Seq<char>>,
    pub phase: EndPhase,
}

impl View for Ending {
    type V = EndingV;

    open spec fn view(&self) -> EndingV {
        EndingV {
            pid: self.pid,
            websocket_url: self.websocket_url@,
            process_start_key: self.process_start_key.deep_view(),
            phase: self.phase,
        }
    }
}

impl DeepView for Ending {
    type V = EndingV;

    open spec fn deep_view(&self) -> EndingV {
        self@
    }
}

impl EndingV {
    /// The ending with another phase, and a step.
    pub open spec fn to(self, phase: EndPhase, step: EndStep) -> (EndingV, EndStep) {
        (EndingV { phase, ..self }, step)
    }

    /// The start: a process whose record does not say when it started is left alone.
    pub open spec fn begun(self) -> (EndingV, EndStep) {
        if self.process_start_key is Some {
            self.to(EndPhase::Untold, EndStep::Look)
        } else {
            self.to(EndPhase::Over, EndStep::Done)
        }
    }

    /// The wait for the process is over: it is gone, or its time is up.
    pub open spec fn waited(self, f: ProcessFactsV, elapsed: u64) -> bool {
        exit_seen(self.process_start_key, f) || elapsed >= LIVE_BACKEND_TERMINATE_TIMEOUT_MS
    }

    /// The step after a look at the process, so long after it was told the last time.
    pub open spec fn seen(self, f: ProcessFactsV, elapsed: u64) -> (EndingV, EndStep) {
        match self.phase {
            EndPhase::Untold => if may_end(self.process_start_key, f) {
                self.to(EndPhase::Asked, EndStep::Ask)
            } else {
                self.to(EndPhase::Over, EndStep::Done)
            },
            EndPhase::Asked => if self.waited(f, elapsed) {
                self.to(EndPhase::Late, EndStep::Look)
            } else {
                self.to(EndPhase::Asked, EndStep::Wait)
            },
            EndPhase::Late => if may_end(self.process_start_key, f) {
                self.to(EndPhase::Forced, EndStep::Force)
            } else {
                self.to(EndPhase::Over, EndStep::Done)
            },
            EndPhase::Forced => if self.waited(f, elapsed) {
                self.to(EndPhase::Over, EndStep::Done)
            } else {
                self.to(EndPhase::Forced, EndStep::Wait)
            },
            EndPhase::Over => (self, EndStep::Done),
        }
    }
}

impl Ending {
    /// Begins to end the process of a record.
    pub fn begin(pid: u32, websocket_url: &str, process_start_key: &Option<String>) -> (r: (
        Ending,
        EndStep,
    ))
        ensures
            (r.0@, r.1) == (EndingV {
                pid,
                websocket_url: websocket_url@,
                process_start_key: process_start_key.deep_view(),
                phase: EndPhase::Untold,
            }).begun(),
    {
        let known: bool = process_start_key.is_some();
        let phase: EndPhase = if known {
            EndPhase::Untold
        } else {
            EndPhase::Over
        };
        let ending = Ending {
            pid,
            websocket_url: websocket_url.to_owned(),
            process_start_key: copy_opt(process_start_key),
            phase,
        };
        if known {
            (ending, EndStep::Look)
        } else {
            (ending, EndStep::Done)
        }
    }

    /// Takes the facts of the process, so long after it was told to end the last time.
    pub fn see(&mut self, facts: &ProcessFacts, elapsed_ms: u64) -> (r: EndStep)
        ensures
            (final(self)@, r) == old(self)@.seen(facts@, elapsed_ms),
    {
        let waited: bool = wait_for_managed_backend_pid_exit(&self.process_start_key, facts)
            || elapsed_ms >= LIVE_BACKEND_TERMINATE_TIMEOUT_MS;
        let own: bool = terminate_managed_backend_pid(&self.process_start_key, facts);
        match self.phase {
            EndPhase::Untold => {
                if own {
                    self.phase = EndPhase::Asked;
                    EndStep::Ask
                } else {
                    self.phase = EndPhase::Over;
                    EndStep::Done
                }
            },
            EndPhase::Asked => {
                if waited {
                    self.phase = EndPhase::Late;
                    EndStep::Look
                } else {
                    EndStep::Wait
                }
            },
            EndPhase::Late => {
                if own {
                    self.phase = EndPhase::Forced;
                    EndStep::Force
                } else {
                    self.phase = EndPhase::Over;
                    EndStep::Done
                }
            },
            EndPhase::Forced => {
                if waited {
                    self.phase = EndPhase::Over;
                    EndStep::Done
                } else {
                    EndStep::Wait
                }
            },
            EndPhase::Over => EndStep::Done,
        }
    }
}

/// A process is told to end only where it is, at that moment, the one that the record means,
/// and it is asked before it is forced.
pub proof fn only_own_processes_are_told(ending: EndingV, f: ProcessFactsV, elapsed: u64)
    ensures
        ending.seen(f, elapsed).1 == EndStep::Ask || ending.seen(f, elapsed).1 == EndStep::Force
            ==> may_end(ending.process_start_key, f),
        ending.seen(f, elapsed).1 == EndStep::Force ==> ending.phase == EndPhase::Late,
        ending.seen(f, elapsed).0.phase == EndPhase::Late ==> ending.phase == EndPhase::Asked,
        ending.process_start_key is None ==> ending.begun().1 == EndStep::Done,
{
}

/// How far a reset is.
#[derive(Debug, Clone, Copy, PartialEq, Eq, Structural)]
pub enum ResetPhase {
    /// The start key of the recorded process is filled in.
    Backfill,
    /// The recorded process is ended.
    Ending,
    /// A backend that the bridge does not own is looked for.
    Discovery,
    /// Nothing more is done.
    Over,
}

/// What is done next for a reset.
#[derive(Debug, PartialEq, Eq)]
pub enum ResetStep {
    /// A step to end the recorded process.
    End(EndStep),
    /// Find the process that runs a backend at the URL.
    Discover,
    /// Start the backend.
    Start,
    /// Tell the failure: the reset is refused.
    Refuse(BridgeError),
}

/// The model of [`ResetStep`].
pub enum ResetStepV {
    End(EndStep),
    Discover,
    Start,
    Refuse(BridgeErrorV),
}

impl View for ResetStep {
    type V = ResetStepV;

    open spec fn view(&self) -> ResetStepV {
        match self {
            ResetStep::End(step) => ResetStepV::End(*step),
            ResetStep::Discover => ResetStepV::Discover,
            ResetStep::Start => ResetStepV::Start,
            ResetStep::Refuse(e) => ResetStepV::Refuse(e@),
        }
    }
}

/// A reset of the backend.
#[derive(Debug, PartialEq, Eq)]
pub struct Reset {
    pub websocket_url: String,
    pub ending: Ending,
    pub phase: ResetPhase,
}

/// The model of [`Reset`].
#[verifier::ext_equal]
pub struct ResetV {
    pub websocket_url: Seq<char>,
    pub ending: EndingV,
    pub phase: ResetPhase,
}

impl View for Reset {
    type V = ResetV;

    open spec fn view(&self) -> ResetV {
        ResetV {
            websocket_url: self.websocket_url@,
            ending: self.ending@,
            phase: self.phase,
        }
    }
}

impl ResetV {
    /// The reset once the recorded process is done with.
    pub open spec fn searching(self) -> (ResetV, ResetStepV) {
        (ResetV { phase: ResetPhase::Discovery, ..self }, ResetStepV::Discover)
    }

    /// The reset with the ending one step on.
    pub open spec fn ending_on(self, next: (EndingV, EndStep)) -> (ResetV, ResetStepV) {
        let on = ResetV { ending: next.0, phase: ResetPhase::Ending, ..self };
        if next.1 == EndStep::Done {
            on.searching()
        } else {
            (on, ResetStepV::End(next.1))
        }
    }

    /// The step after a look at the recorded process, so long after it was told the last time.
    pub open spec fn seen(self, f: ProcessFactsV, elapsed: u64) -> (ResetV, ResetStepV) {
        match self.phase {
            ResetPhase::Backfill => {
                let key = if f.command_matches {
                    f.start_key
                } else {
                    None
                };
                self.ending_on((EndingV { process_start_key: key, ..self.ending }).begun())
            },
            ResetPhase::Ending => self.ending_on(self.ending.seen(f, elapsed)),
            _ => self.searching(),
        }
    }

    /// The step after the search for a backend that the bridge does not own.
    pub open spec fn found(self, found: Option<u32>) -> (ResetV, ResetStepV) {
        (
            ResetV { phase: ResetPhase::Over, ..self },
            match reset_refusal(found, self.websocket_url) {
                Some(e) => ResetStepV::Refuse(e),
                None => ResetStepV::Start,
            },
        )
    }
}

/// A reset at its start: the process on record is ended first.
pub open spec fn reset_begun(recorded: Option<LiveBackendStatusV>, url: Seq<char>) -> (
    ResetV,
    ResetStepV,
) {
    let nothing = EndingV {
        pid: 0,
        websocket_url: url,
        process_start_key: None,
        phase: EndPhase::Over,
    };
    let idle = ResetV { websocket_url: url, ending: nothing, phase: ResetPhase::Discovery };
    match recorded {
        Some(s) => match s.pid {
            Some(pid) => {
                let ending = EndingV {
                    pid,
                    websocket_url: s.websocket_url,
                    process_start_key: s.process_start_key,
                    phase: EndPhase::Untold,
                };
                (
                    ResetV {
                        ending,
                        phase: if s.process_start_key is None {
                            ResetPhase::Backfill
                        } else {
                            ResetPhase::Ending
                        },
                        ..idle
                    },
                    ResetStepV::End(EndStep::Look),
                )
            },
            None => (idle, ResetStepV::Discover),
        },
        None => (idle, ResetStepV::Discover),
    }
}

/// Begins a reset of the backend, given what is on record; refused where the URL is none that
/// the backend may have.
pub fn reset_live_backend(recorded: &Option<LiveBackendStatus>, config: &CodexConfig) -> (r:
    Result<(Reset, ResetStep), BridgeError>)
    ensures
        match (r, shared_url(
            config@.websocket_url,
            parts_of(url_of(config@.websocket_url)),
        )) {
            (Ok(begun), Ok(_)) => (begun.0@, begun.1@) == reset_begun(
                recorded.deep_view(),
                config@.websocket_url,
            ),
            (Err(a), Err(b)) => a@ == b,
            _ => false,
        },
{
    match validate_live_backend_config(config) {
        Ok(_) => {},
        Err(e) => {
            return Err(e);
        },
    }
    match recorded {
        Some(s) => match s.pid {
            Some(pid) => {
                let ending = Ending {
                    pid,
                    websocket_url: s.websocket_url.clone(),
                    process_start_key: copy_opt(&s.process_start_key),
                    phase: EndPhase::Untold,
                };
                let phase: ResetPhase = if s.process_start_key.is_none() {
                    ResetPhase::Backfill
                } else {
                    ResetPhase::Ending
                };
                let reset = Reset { websocket_url: config.websocket_url.clone(), ending, phase };
                return Ok((reset, ResetStep::End(EndStep::Look)));
            },
            None => {},
        },
        None => {},
    }
    let ending = Ending {
        pid: 0,
        websocket_url: config.websocket_url.clone(),
        process_start_key: None,
        phase: EndPhase::Over,
    };
    let reset = Reset {
        websocket_url: config.websocket_url.clone(),
        ending,
        phase: ResetPhase::Discovery,
    };
    Ok((reset, ResetStep::Discover))
}

impl Reset {
    /// Goes on after a step of the ending.
    fn go_on(&mut self, step: EndStep) -> (r: ResetStep)
        ensures
            (final(self)@, r@) == old(self)@.ending_on((old(self)@.ending, step)),
    {
        if step == EndStep::Done {
            self.phase = ResetPhase::Discovery;
            ResetStep::Discover
        } else {
            self.phase = ResetPhase::Ending;
            ResetStep::End(step)
        }
    }

    /// Takes the facts of the recorded process, so long after it was told the last time.
    pub fn see(&mut self, facts: &ProcessFacts, elapsed_ms: u64) -> (r: ResetStep)
        ensures
            (final(self)@, r@) == old(self)@.seen(facts@, elapsed_ms),
    {
        match self.phase {
            ResetPhase::Backfill => {
                let key: Option<String> = if facts.command_matches {
                    copy_opt(&facts.start_key)
                } else {
                    None
                };
                let (ending, step) = Ending::begin(
                    self.ending.pid,
                    self.ending.websocket_url.as_str(),
                    &key,
                );
                self.ending = ending;
                self.go_on(step)
            },
            ResetPhase::Ending => {
                let step: EndStep = self.ending.see(facts, elapsed_ms);
                self.go_on(step)
            },
            _ => {
                self.phase = ResetPhase::Discovery;
                ResetStep::Discover
            },
        }
    }

    /// Takes the process that runs a backend at the URL, where there is one.
    pub fn find(&mut self, found: Option<u32>) -> (r: ResetStep)
        ensures
            (final(self)@, r@) == old(self)@.found(found),
    {
        self.phase = ResetPhase::Over;
        match found {
            Some(pid) => ResetStep::Refuse(refused_reset(pid, self.websocket_url.as_str())),
            None => ResetStep::Start,
        }
    }
}

/// A reset tells only a process to end that is the recorded one at that moment, starts nothing
/// before it searched for another backend, and starts exactly where it found none.
pub proof fn resets_respect_ownership(
    reset: ResetV,
    f: ProcessFactsV,
    elapsed: u64,
    found: Option<u32>,
)
    ensures
        reset.seen(f, elapsed).1 == ResetStepV::End(EndStep::Ask) || reset.seen(f, elapsed).1
            == ResetStepV::End(EndStep::Force) ==> reset.phase == ResetPhase::Ending && may_end(
            reset.ending.process_start_key,
            f,
        ),
        !(reset.seen(f, elapsed).1 is Start),
        reset.found(found).1 is Start <==> found is None,
        reset.found(found).1 is Refuse <==> found is Some,
{
    only_own_processes_are_told(reset.ending, f, elapsed);
}

// ---------------------------------------------------------------------------
// Waiting for a backend that was started
// ---------------------------------------------------------------------------

/// What is done while a backend starts.
#[derive(Debug, PartialEq, Eq)]
pub enum StartStep {
    /// Find out about the process.
    Process,
    /// Ask the server.
    Health,
    /// Wait, then look again.
    Sleep,
    /// The backend is ready.
    Ready(LiveBackendStatus),
    /// The backend failed: end the process, record the status and tell the failure.
    GiveUp(LiveBackendStatus, BridgeError),
}

/// The model of [`StartStep`].
pub enum StartStepV {
    Process,
    Health,
    Sleep,
    Ready(LiveBackendStatusV),
    GiveUp(LiveBackendStatusV, BridgeErrorV),
}

impl View for StartStep {
    type V = StartStepV;

    open spec fn view(&self) -> StartStepV {
        match self {
            StartStep::Process => StartStepV::Process,
            StartStep::Health => StartStepV::Health,
            StartStep::Sleep => StartStepV::Sleep,
            StartStep::Ready(s) => StartStepV::Ready(s@),
            StartStep::GiveUp(s, e) => StartStepV::GiveUp(s@, e@),
        }
    }
}

/// The wait for a backend that was started.
#[derive(Debug, PartialEq, Eq)]
pub struct StartWait {
    pub websocket_url: String,
    pub pid: u32,
    pub process_start_key: String,
    pub last_error: Option<String>,
}

/// The model of [`StartWait`].
#[verifier::ext_equal]
pub struct StartWaitV {
    pub websocket_url: Seq<char>,
    pub pid: u32,
    pub process_start_key: Seq<char>,
    pub last_error: Option<Seq<char>>,
}

impl View for StartWait {
    type V = StartWaitV;

    open spec fn view(&self) -> StartWaitV {
        StartWaitV {
            websocket_url: self.websocket_url@,
            pid: self.pid,
            process_start_key: self.process_start_key@,
            last_error: self.last_error.deep_view(),
        }
    }
}

impl DeepView for StartWait {
    type V = StartWaitV;

    open spec fn deep_view(&self) -> StartWaitV {
        self@
    }
}

impl StartWaitV {
    /// The status of the backend that was started.
    pub open spec fn status(self, healthy: bool) -> LiveBackendStatusV {
        LiveBackendStatusV {
            websocket_url: self.websocket_url,
            pid: Some(self.pid),
            process_start_key: Some(self.process_start_key),
            healthy,
            last_error: if healthy {
                None
            } else {
                self.last_error
            },
            required: true,
            state: if healthy {
                "ready"@
            } else {
                "unhealthy"@
            },
            recoverable: true,
            reconcile_attempts: 0,
            retry_after_ms: None,
        }
    }

    /// The end of a wait that failed.
    pub open spec fn gave_up(self) -> StartStepV {
        StartStepV::GiveUp(
            self.status(false),
            failure(
                match self.last_error {
                    Some(text) => text,
                    None => "unknown live backend startup failure"@,
                },
            ),
        )
    }

    /// The wait with a failure noted.
    pub open spec fn noting(self, error: Seq<char>) -> StartWaitV {
        StartWaitV { last_error: Some(error), ..self }
    }

    /// A new look at the process: only before the time is up.
    pub open spec fn looked(self, elapsed: u64) -> StartStepV {
        if elapsed < LIVE_BACKEND_HEALTH_TIMEOUT_MS {
            StartStepV::Process
        } else {
            self.gave_up()
        }
    }

    /// The wait once the facts of the process are known.
    pub open spec fn seen(self, f: ProcessFactsV) -> (StartWaitV, StartStepV) {
        if process_matches(f, Some(self.process_start_key)) {
            (self, StartStepV::Health)
        } else if !f.alive {
            let dead = self.noting(
                "managed live backend process "@ + decimal(self.pid as nat)
                    + " exited before becoming healthy with the configured websocket URL"@,
            );
            (dead, dead.gave_up())
        } else {
            (
                self.noting(
                    "managed live backend process "@ + decimal(self.pid as nat)
                        + " is still starting and has not exposed the configured websocket command yet"@,
                ),
                StartStepV::Sleep,
            )
        }
    }

    /// The wait once the server answered, or did not.
    pub open spec fn asked(self, failed: Option<Seq<char>>) -> (StartWaitV, StartStepV) {
        match failed {
            None => (self, StartStepV::Ready(self.status(true))),
            Some(text) => (self.noting(text), StartStepV::Sleep),
        }
    }
}

impl StartWait {
    /// Begins to wait for a backend.
    pub fn begin(config: &CodexConfig, pid: u32, process_start_key: &str) -> (r: StartWait)
        ensures
            r@ == (StartWaitV {
                websocket_url: config@.websocket_url,
                pid,
                process_start_key: process_start_key@,
                last_error: None,
            }),
    {
        StartWait {
            websocket_url: config.websocket_url.clone(),
            pid,
            process_start_key: process_start_key.to_owned(),
            last_error: None,
        }
    }

    /// The status of the backend that was started.
    fn status_now(&self, healthy: bool) -> (r: LiveBackendStatus)
        ensures
            r@ == self@.status(healthy),
    {
        let last_error: Option<String> = if healthy {
            None
        } else {
            copy_opt(&self.last_error)
        };
        let state: &str = if healthy {
            LIVE_BACKEND_STATE_READY
        } else {
            LIVE_BACKEND_STATE_UNHEALTHY
        };
        LiveBackendStatus {
            websocket_url: self.websocket_url.clone(),
            pid: Some(self.pid),
            process_start_key: Some(self.process_start_key.clone()),
            healthy,
            last_error,
            required: true,
            state: state.to_owned(),
            recoverable: true,
            reconcile_attempts: 0,
            retry_after_ms: None,
        }
    }

    /// The end of a wait that failed.
    fn give_up(&self) -> (r: StartStep)
        ensures
            r@ == self@.gave_up(),
    {
        let error = match &self.last_error {
            Some(text) => BridgeError::new(text.as_str()),
            None => BridgeError::new("unknown live backend startup failure"),
        };
        StartStep::GiveUp(self.status_now(false), error)
    }

    /// Looks at the process again, unless the time is up.
    pub fn look(&self, elapsed_ms: u64) -> (r: StartStep)
        ensures
            r@ == self@.looked(elapsed_ms),
    {
        if elapsed_ms < LIVE_BACKEND_HEALTH_TIMEOUT_MS {
            StartStep::Process
        } else {
            self.give_up()
        }
    }

    /// Takes the facts of the process.
    pub fn see(&mut self, facts: &ProcessFacts) -> (r: StartStep)
        ensures
            (final(self)@, r@) == old(self)@.seen(facts@),
    {
        let key: Option<String> = Some(self.process_start_key.clone());
        if backend_pid_matches(facts, &key) {
            return StartStep::Health;
        }
        if !facts.alive {
            self.last_error =
            Some(
                cat3(
                    "managed live backend process ",
                    u64_text(self.pid as u64).as_str(),
                    " exited before becoming healthy with the configured websocket URL",
                ),
            );
            return self.give_up();
        }
        self.last_error =
        Some(
            cat3(
                "managed live backend process ",
                u64_text(self.pid as u64).as_str(),
                " is still starting and has not exposed the configured websocket command yet",
            ),
        );
        StartStep::Sleep
    }

    /// Takes the answer of the server.
    pub fn ask(&mut self, failed: Option<String>) -> (r: StartStep)
        ensures
            (final(self)@, r@) == old(self)@.asked(failed.deep_view()),
    {
        match failed {
            None => StartStep::Ready(self.status_now(true)),
            Some(text) => {
                self.last_error = Some(text);
                StartStep::Sleep
            },
        }
    }
}

/// A process that is gone is never taken for a ready backend, even where the server answers.
pub proof fn dead_processes_are_not_ready(w: StartWaitV, f: ProcessFactsV)
    requires
        !f.alive,
    ensures
        w.seen(f).1 is GiveUp,
{
}

/// What comes of a look for the start key of a new process: the key, one more look, or a failure.
pub open spec fn start_key_look(f: ProcessFactsV, pid: u32, elapsed: u64) -> Result<
    Option<Seq<char>>,
    BridgeErrorV,
> {
    if elapsed >= LIVE_BACKEND_HEALTH_TIMEOUT_MS {
        Err(
            failure(
                "timed out waiting for managed live backend process "@ + decimal(pid as nat)
                    + " start key"@,
            ),
        )
    } else if f.start_key is Some {
        Ok(f.start_key)
    } else if !f.alive {
        Err(
            failure(
                "managed live backend process "@ + decimal(pid as nat)
                    + " exited before start key was available"@,
            ),
        )
    } else {
        Ok(None)
    }
}

/// Looks for the start key of a new process.
pub fn wait_for_backend_process_start_key(
    facts: &ProcessFacts,
    pid: u32,
    elapsed_ms: u64,
) -> (r: Result<Option<String>, BridgeError>)
    ensures
        outcome(r) == start_key_look(facts@, pid, elapsed_ms),
{
    if elapsed_ms >= LIVE_BACKEND_HEALTH_TIMEOUT_MS {
        return Err(
            BridgeError::new(
                cat3(
                    "timed out waiting for managed live backend process ",
                    u64_text(pid as u64).as_str(),
                    " start key",
                ).as_str(),
            ),
        );
    }
    match &facts.start_key {
        Some(key) => {
            return Ok(Some(key.clone()));
        },
        None => {},
    }
    if !facts.alive {
        return Err(
            BridgeError::new(
                cat3(
                    "managed live backend process ",
                    u64_text(pid as u64).as_str(),
                    " exited before start key was available",
                ).as_str(),
            ),
        );
    }
    Ok(None)
}

/// The failure to learn the start key, as a failed start tells it.
pub fn start_key_failure(error: BridgeError, pid: u32) -> (r: BridgeError)
    ensures
        r@ == in_context(
            "managed live backend process "@ + decimal(pid as nat)
                + " did not expose a stable process start key"@,
            error@,
        ),
{
    error.context(
        cat3(
            "managed live backend process ",
            u64_text(pid as u64).as_str(),
            " did not expose a stable process start key",
        ).as_str(),
    )
}

/// The failure to become healthy, as a failed start tells it.
pub fn start_health_failure(error: BridgeError, config: &CodexConfig) -> (r: BridgeError)
    ensures
        r@ == in_context(
            "managed live backend failed to become healthy at "@ + config@.websocket_url,
            error@,
        ),
{
    error.context(
        cat(
            "managed live backend failed to become healthy at ",
            config.websocket_url.as_str(),
        ).as_str(),
    )
}

/// A configuration whose URL the backend may have.
pub fn validate_live_backend_config(config: &CodexConfig) -> (r: Result<(), BridgeError>)
    ensures
        match (r, shared_url(
            config@.websocket_url,
            parts_of(url_of(config@.websocket_url)),
        )) {
            (Ok(_), Ok(_)) => true,
            (Err(a), Err(b)) => a@ == b,
            _ => false,
        },
{
    match validate_shared_websocket_url(config.websocket_url.as_str()) {
        Ok(_) => Ok(()),
        Err(e) => Err(e),
    }
}

} // verus!
