//! What the program does for a command line: the command with everything decided that does
//! not need the outside world.
use vstd::prelude::*;
use vstd::string::*;

use crate::cli::Commands;
use crate::error::{BridgeError, BridgeErrorV};
use crate::events::{event_filter, parse_event_filter};
use crate::inbox::{check_bulk_archive, needs_confirmation, unconfirmed};
use crate::requests::{
    approval_decision, archive_targets, command_message, decision_answer, meant_decision,
    message_or_prompt, named_targets, reply_message, reply_text,
};
use crate::text::{borrow_opt, unicode_lowercase};

verus! {

/// How a thread is followed after a turn was started.
#[derive(Debug, PartialEq, Eq)]
pub struct FollowOptions {
    pub duration: u64,
    pub poll_interval: u64,
    pub filter: Option<Vec<String>>,
    pub stream: bool,
}

/// A thread is followed as asked for.
pub open spec fn follows(
    f: Option<FollowOptions>,
    follow: bool,
    stream: bool,
    duration: u64,
    poll_interval: u64,
    events: Option<Seq<char>>,
) -> bool {
    match f {
        Some(options) => {
            &&& follow
            &&& options.duration == duration
            &&& options.poll_interval == poll_interval
            &&& options.filter.deep_view() == event_filter(events)
            &&& options.stream == stream
        },
        None => !follow,
    }
}

/// How a thread is followed.
fn follow_options(
    follow: bool,
    stream: bool,
    duration: u64,
    poll_interval: u64,
    events: &Option<String>,
) -> (r: Option<FollowOptions>)
    ensures
        follows(r, follow, stream, duration, poll_interval, events.deep_view()),
{
    if follow {
        Some(
            FollowOptions {
                duration,
                poll_interval,
                filter: parse_event_filter(borrow_opt(events)),
                stream,
            },
        )
    } else {
        None
    }
}

/// A task of the program.
#[allow(inconsistent_fields)]
#[derive(Debug, PartialEq, Eq)]
pub enum Task {
    /// The command is carried out as it is.
    Plain(Commands),
    /// A thread is followed, after a message where one is given.
    Follow {
        thread_id: String,
        message: Option<String>,
        duration: u64,
        poll_interval: u64,
        filter: Option<Vec<String>>,
    },
    /// The threads that wait are listed, after so many were brought up to date.
    Waiting { project: Option<String>, limit: u64, sync_limit: u64 },
    /// The inbox is listed, after so many threads were brought up to date.
    Inbox {
        project: Option<String>,
        status: Option<String>,
        attention: Option<String>,
        waiting_on: Option<String>,
        limit: u64,
        sync_limit: u64,
    },
    /// Changes are watched, once or for good, and handed to a hook.
    Watch { once: bool, hook: Option<String>, filter: Option<Vec<String>> },
    /// A thread is started.
    New {
        cwd: Option<String>,
        message: Option<String>,
        dry_run: bool,
        following: Option<FollowOptions>,
    },
    /// A thread is forked.
    Fork {
        thread_id: String,
        message: Option<String>,
        dry_run: bool,
        following: Option<FollowOptions>,
    },
    /// Threads are archived: those that are named, else those that pass the filters, after
    /// the threads were brought up to date where the run does not only show what it would do.
    Archive {
        targets: Vec<String>,
        project: Option<String>,
        status: Option<String>,
        attention: Option<String>,
        limit: u64,
        dry_run: bool,
        yes: bool,
        sync: bool,
    },
    /// A thread is replied to.
    Reply { thread_id: String, message: String, dry_run: bool, following: Option<FollowOptions> },
    /// A prompt is approved or denied.
    Approve {
        thread_id: String,
        decision: String,
        sent_text: String,
        dry_run: bool,
        following: Option<FollowOptions>,
    },
}

/// How many threads are brought up to date before a list of `limit`.
pub open spec fn sync_limit_for(limit: u64) -> u64 {
    if limit < 25 {
        25
    } else {
        limit
    }
}

/// How many threads are brought up to date before a list of `limit`.
fn sync_limit(limit: u64) -> (r: u64)
    ensures
        r == sync_limit_for(limit),
{
    if limit < 25 {
        25
    } else {
        limit
    }
}

/// A decision in lower case and what it is answered with, or why it is none.
pub open spec fn decision_text(
    decision: Option<Seq<char>>,
    positional: Option<Seq<char>>,
) -> Result<(Seq<char>, Seq<char>), BridgeErrorV> {
    let meant = unicode_lowercase(meant_decision(decision, positional));
    match decision_answer(meant) {
        Ok(answer) => Ok((meant, answer)),
        Err(e) => Err(e),
    }
}

/// The failure that a command ends with before anything is done.
pub open spec fn refusal(c: Commands) -> Option<BridgeErrorV> {
    match c {
        Commands::Archive { thread_id_option, thread_ids, dry_run, yes, .. } => {
            let targets = named_targets(thread_id_option.deep_view(), thread_ids.deep_view());
            if needs_confirmation(dry_run, targets.len() == 0, yes) {
                Some(unconfirmed())
            } else {
                None
            }
        },
        Commands::Reply { message, prompt, .. } => match reply_text(
            message.deep_view(),
            prompt.deep_view(),
        ) {
            Ok(_) => None,
            Err(e) => Some(e),
        },
        Commands::Approve { decision, positional_decision, .. } => match decision_text(
            decision.deep_view(),
            positional_decision.deep_view(),
        ) {
            Ok(_) => None,
            Err(e) => Some(e),
        },
        _ => None,
    }
}

/// A task is the one of a command.
pub open spec fn task_of(c: Commands, task: Task) -> bool {
    match c {
        Commands::Follow { thread_id, message, duration, poll_interval, events } => {
            &&& task matches Task::Follow {
                thread_id: id,
                message: text,
                duration: d,
                poll_interval: p,
                filter,
            }
            &&& id@ == thread_id@
            &&& text.deep_view() == message.deep_view()
            &&& d == duration
            &&& p == poll_interval
            &&& filter.deep_view() == event_filter(events.deep_view())
        },
        Commands::Waiting { project, limit } => {
            &&& task matches Task::Waiting { project: p, limit: l, sync_limit: s }
            &&& p.deep_view() == project.deep_view()
            &&& l == limit
            &&& s == sync_limit_for(limit)
        },
        Commands::Inbox { project, status, attention, waiting_on, limit } => {
            &&& task matches Task::Inbox {
                project: p,
                status: t,
                attention: a,
                waiting_on: w,
                limit: l,
                sync_limit: s,
            }
            &&& p.deep_view() == project.deep_view()
            &&& t.deep_view() == status.deep_view()
            &&& a.deep_view() == attention.deep_view()
            &&& w.deep_view() == waiting_on.deep_view()
            &&& l == limit
            &&& s == sync_limit_for(limit)
        },
        Commands::Watch { once, hook, events } => {
            &&& task matches Task::Watch { once: o, hook: h, filter }
            &&& o == once
            &&& h.deep_view() == hook.deep_view()
            &&& filter.deep_view() == event_filter(events.deep_view())
        },
        Commands::New {
            cwd,
            message,
            dry_run,
            follow,
            stream,
            duration,
            poll_interval,
            events,
            prompt,
        } => {
            &&& task matches Task::New { cwd: c2, message: text, dry_run: d, following }
            &&& c2.deep_view() == cwd.deep_view()
            &&& text.deep_view() == command_message(message.deep_view(), prompt.deep_view())
            &&& d == dry_run
            &&& follows(following, follow, stream, duration, poll_interval, events.deep_view())
        },
        Commands::Fork {
            thread_id,
            message,
            dry_run,
            follow,
            stream,
            duration,
            poll_interval,
            events,
            prompt,
        } => {
            &&& task matches Task::Fork { thread_id: id, message: text, dry_run: d, following }
            &&& id@ == thread_id@
            &&& text.deep_view() == command_message(message.deep_view(), prompt.deep_view())
            &&& d == dry_run
            &&& follows(following, follow, stream, duration, poll_interval, events.deep_view())
        },
        Commands::Archive {
            thread_id_option,
            thread_ids,
            project,
            status,
            attention,
            limit,
            dry_run,
            yes,
        } => {
            &&& task matches Task::Archive {
                targets,
                project: p,
                status: t,
                attention: a,
                limit: l,
                dry_run: d,
                yes: y,
                sync,
            }
            &&& targets.deep_view() == named_targets(
                thread_id_option.deep_view(),
                thread_ids.deep_view(),
            )
            &&& p.deep_view() == project.deep_view()
            &&& t.deep_view() == status.deep_view()
            &&& a.deep_view() == attention.deep_view()
            &&& l == limit
            &&& d == dry_run
            &&& y == yes
            &&& sync == (!dry_run && targets.deep_view().len() == 0)
        },
        Commands::Reply {
            thread_id,
            message,
            dry_run,
            follow,
            stream,
            duration,
            poll_interval,
            events,
            prompt,
        } => {
            &&& task matches Task::Reply { thread_id: id, message: text, dry_run: d, following }
            &&& id@ == thread_id@
            &&& reply_text(message.deep_view(), prompt.deep_view()) == Ok::<
                Seq<char>,
                BridgeErrorV,
            >(text@)
            &&& d == dry_run
            &&& follows(following, follow, stream, duration, poll_interval, events.deep_view())
        },
        Commands::Approve {
            thread_id,
            decision,
            dry_run,
            follow,
            stream,
            duration,
            poll_interval,
            events,
            positional_decision,
        } => {
            &&& task matches Task::Approve {
                thread_id: id,
                decision: word,
                sent_text,
                dry_run: d,
                following,
            }
            &&& id@ == thread_id@
            &&& decision_text(decision.deep_view(), positional_decision.deep_view()) == Ok::<
                (Seq<char>, Seq<char>),
                BridgeErrorV,
            >((word@, sent_text@))
            &&& d == dry_run
            &&& follows(following, follow, stream, duration, poll_interval, events.deep_view())
        },
        _ => task == Task::Plain(c),
    }
}

/// Decides what the program does for a command.
pub fn run(command: Commands) -> (r: Result<Task, BridgeError>)
    ensures
        match (r, refusal(command)) {
            (Ok(task), None) => task_of(command, task),
            (Err(e), Some(f)) => e@ == f,
            _ => false,
        },
{
    match command {
        Commands::Follow { thread_id, message, duration, poll_interval, events } => Ok(
            Task::Follow {
                thread_id,
                message,
                duration,
                poll_interval,
                filter: parse_event_filter(borrow_opt(&events)),
            },
        ),
        Commands::Waiting { project, limit } => Ok(
            Task::Waiting { project, limit, sync_limit: sync_limit(limit) },
        ),
        Commands::Inbox { project, status, attention, waiting_on, limit } => Ok(
            Task::Inbox {
                project,
                status,
                attention,
                waiting_on,
                limit,
                sync_limit: sync_limit(limit),
            },
        ),
        Commands::Watch { once, hook, events } => Ok(
            Task::Watch { once, hook, filter: parse_event_filter(borrow_opt(&events)) },
        ),
        Commands::New {
            cwd,
            message,
            dry_run,
            follow,
            stream,
            duration,
            poll_interval,
            events,
            prompt,
        } => Ok(
            Task::New {
                cwd,
                message: message_or_prompt(borrow_opt(&message), &prompt),
                dry_run,
                following: follow_options(follow, stream, duration, poll_interval, &events),
            },
        ),
        Commands::Fork {
            thread_id,
            message,
            dry_run,
            follow,
            stream,
            duration,
            poll_interval,
            events,
            prompt,
        } => Ok(
            Task::Fork {
                thread_id,
                message: message_or_prompt(borrow_opt(&message), &prompt),
                dry_run,
                following: follow_options(follow, stream, duration, poll_interval, &events),
            },
        ),
        Commands::Archive {
            thread_id_option,
            thread_ids,
            project,
            status,
            attention,
            limit,
            dry_run,
            yes,
        } => {
            let targets = archive_targets(borrow_opt(&thread_id_option), &thread_ids);
            let bulk: bool = targets.len() == 0;
            match check_bulk_archive(dry_run, bulk, yes) {
                Ok(_) => Ok(
                    Task::Archive {
                        targets,
                        project,
                        status,
                        attention,
                        limit,
                        dry_run,
                        yes,
                        sync: !dry_run && bulk,
                    },
                ),
                Err(e) => Err(e),
            }
        },
        Commands::Reply {
            thread_id,
            message,
            dry_run,
            follow,
            stream,
            duration,
            poll_interval,
            events,
            prompt,
        } => match reply_message(borrow_opt(&message), &prompt) {
            Ok(text) => Ok(
                Task::Reply {
                    thread_id,
                    message: text,
                    dry_run,
                    following: follow_options(follow, stream, duration, poll_interval, &events),
                },
            ),
            Err(e) => Err(e),
        },
        Commands::Approve {
            thread_id,
            decision,
            dry_run,
            follow,
            stream,
            duration,
            poll_interval,
            events,
            positional_decision,
        } => match approval_decision(borrow_opt(&decision), borrow_opt(&positional_decision)) {
            Ok((word, sent_text)) => Ok(
                Task::Approve {
                    thread_id,
                    decision: word,
                    sent_text,
                    dry_run,
                    following: follow_options(follow, stream, duration, poll_interval, &events),
                },
            ),
            Err(e) => Err(e),
        },
        other => Ok(Task::Plain(other)),
    }
}

} // verus!
