//! The texts that the bridge sends on its own account, in their form for Telegram.
use vstd::prelude::*;
use vstd::string::*;

use crate::away::{pending_count, pending_outbound_count};
use crate::config::{DaemonConfig, RegisteredProject, RegisteredProjectV};
use crate::json::{Json, JsonV, text_member};
use crate::settings::get_setting_text;
use crate::state::{BridgeState, BridgeStateV};
use crate::sync::is_away;
use crate::text::{cat, cat3, contains_text, decimal, matches_at, same, u64_text};

verus! {

/// What the bridge understands.
pub const HELP_TEXT: &'static str = "Codex remote is ready.\n\n/away and /back switch remote mode.\n/status shows it.\n/repair tells how the backend is repaired.\n/threads lists recent threads.\n/new starts a thread.\n/project chooses the project for new Telegram threads.\n\nUse Telegram's Reply action on a message to answer it.";

/// What the bridge understands.
pub fn telegram_help_text() -> (r: &'static str)
    ensures
        r@ == HELP_TEXT@,
{
    HELP_TEXT
}

/// Remote mode and what waits to be sent.
pub open spec fn status_text(st: BridgeStateV) -> Seq<char> {
    (if is_away(st) {
        "Remote Codex mode is on."@
    } else {
        "Remote Codex mode is off."@
    }) + "\nPending Telegram notifications: "@ + decimal(pending_count(st))
}

/// Remote mode and what waits to be sent.
pub fn telegram_status_text(state: &BridgeState) -> (r: String)
    ensures
        r@ == status_text(state@),
{
    let away: bool = match get_setting_text(state, "away") {
        Some(value) => same(value.as_str(), "true"),
        None => false,
    };
    let head: &str = if away {
        "Remote Codex mode is on."
    } else {
        "Remote Codex mode is off."
    };
    cat3(
        head,
        "\nPending Telegram notifications: ",
        u64_text(pending_outbound_count(state)).as_str(),
    )
}

/// A project in a list.
pub open spec fn project_line(p: RegisteredProjectV) -> Seq<char> {
    "\n- "@ + p.id + ": "@ + p.label + " ("@ + p.cwd + ")"@
}

/// The first `n` projects, a line each.
pub open spec fn project_lines(projects: Seq<RegisteredProjectV>, n: nat) -> Seq<char>
    decreases n,
{
    if n == 0 || n > projects.len() {
        Seq::empty()
    } else {
        project_lines(projects, (n - 1) as nat) + project_line(projects[n - 1])
    }
}

/// The current project and those that can be chosen.
pub open spec fn projects_text(
    projects: Seq<RegisteredProjectV>,
    current: Option<RegisteredProjectV>,
) -> Seq<char> {
    (match current {
        Some(p) => "Current project: "@ + p.label + " ("@ + p.id + ")"@,
        None => "No project is selected."@,
    }) + project_lines(projects, projects.len())
}

/// The current project and those that can be chosen.
pub fn telegram_projects_text(
    config: &DaemonConfig,
    current: &Option<RegisteredProject>,
) -> (r: String)
    ensures
        r@ == projects_text(config@.projects, current.deep_view()),
{
    let ghost all = config@.projects;
    let mut text: String = match current {
        Some(p) => {
            let mut head = cat3("Current project: ", p.label.as_str(), " (");
            head.append(p.id.as_str());
            head.append(")");
            head
        },
        None => "No project is selected.".to_owned(),
    };
    let ghost head = text@;
    let mut i: usize = 0;
    assert(text@ =~= head + project_lines(all, 0));
    while i < config.projects.len()
        invariant
            i <= config.projects@.len(),
            all == config.projects.deep_view(),
            text@ == head + project_lines(all, i as nat),
        decreases config.projects@.len() - i,
    {
        let p = &config.projects[i];
        assert(all[i as int] == p@);
        text.append("\n- ");
        text.append(p.id.as_str());
        text.append(": ");
        text.append(p.label.as_str());
        text.append(" (");
        text.append(p.cwd.as_str());
        text.append(")");
        assert(text@ =~= head + project_lines(all, (i + 1) as nat));
        i += 1;
    }
    text
}

/// The project that was chosen.
pub fn telegram_project_text(project: &RegisteredProject) -> (r: String)
    ensures
        r@ == "New Telegram threads start in "@ + project@.label + " ("@ + project@.cwd + ")."@,
{
    let mut text = cat3("New Telegram threads start in ", project.label.as_str(), " (");
    text.append(project.cwd.as_str());
    text.append(").");
    text
}

/// The thread that was started.
pub fn telegram_new_thread_confirmation_text(project: &RegisteredProject) -> (r: String)
    ensures
        r@ == "Started a new Codex thread in "@ + project@.label
            + ".\n\nUse Telegram's Reply action on this message to continue it."@,
{
    cat3(
        "Started a new Codex thread in ",
        project.label.as_str(),
        ".\n\nUse Telegram's Reply action on this message to continue it.",
    )
}

/// The header of a notification.
pub open spec fn notice_header(event: JsonV) -> Seq<char> {
    match text_member(event, "type"@) {
        Some(kind) => if kind == "thread_waiting"@ {
            "Codex is waiting for you"@
        } else if kind == "thread_completed"@ {
            "Codex is done"@
        } else {
            "Codex"@
        },
        None => "Codex"@,
    }
}

/// The body of a notification: the answer as it is.
pub open spec fn notice_body(event: JsonV) -> Seq<char> {
    match text_member(event, "lastPreview"@) {
        Some(text) => text,
        None => Seq::empty(),
    }
}

/// A notification: a compact header, the answer as it is, and how to go on. It does not name
/// the thread.
pub open spec fn notice_text(event: JsonV) -> Seq<char> {
    notice_header(event) + "\n\n"@ + notice_body(event)
        + "\n\nUse Telegram's Reply action on this message to answer."@
}

/// The notification of an event, or of a thread as it is shown.
pub fn telegram_notice_text(event: &Json) -> (r: String)
    ensures
        r@ == notice_text(event@),
{
    let header: &str = match event.get_text("type") {
        Some(kind) => if same(kind, "thread_waiting") {
            "Codex is waiting for you"
        } else if same(kind, "thread_completed") {
            "Codex is done"
        } else {
            "Codex"
        },
        None => "Codex",
    };
    let mut text = cat(header, "\n\n");
    match event.get_text("lastPreview") {
        Some(body) => {
            text.append(body);
        },
        None => {},
    }
    assert(text@ =~= notice_header(event@) + "\n\n"@ + notice_body(event@));
    text.append("\n\nUse Telegram's Reply action on this message to answer.");
    text
}

/// A notification holds the answer of Codex word for word.
pub proof fn notices_hold_the_answer(event: JsonV)
    ensures
        contains_text(notice_text(event), notice_body(event)),
{
    let at = (notice_header(event) + "\n\n"@).len() as int;
    let body = notice_body(event);
    assert(notice_text(event).subrange(at, at + body.len()) =~= body);
    assert(matches_at(notice_text(event), at, body));
}

} // verus!
