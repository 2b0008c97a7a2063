//! The command line: which commands there are, and what their arguments are.
use vstd::prelude::*;
use vstd::string::*;

use crate::arguments::{
    all_values, attached, flag_name, Given, GivenV, has_option, is_flag, is_long, nothing_given,
    number_or, option_value, reads_as_flag, reads_as_long, scan, scanned, short_flag, split_flag,
    text_or, word_at,
};
use crate::grammar::{
    Child, child, child_of, flag_at, flag_called, flag_label, flags, flags_of, FlagV, Group, label,
    place_label, places, places_of, shown_place, Verb, word_called, words_under,
};
use crate::help::{Page, page_text, render_page};
use crate::table::{first_row, lemma_position, position};
use crate::text::{cat, cat3, index_from, same};

verus! {

// ---------------------------------------------------------------------------
// Commands
// ---------------------------------------------------------------------------

/// The version of the program.
pub const VERSION: &'static str = "0.1.1";

/// A command line that was read.
#[derive(Debug, PartialEq, Eq)]
pub struct Cli {
    pub command: Commands,
}

/// What the program is asked to do.
#[allow(inconsistent_fields)]
#[derive(Debug, PartialEq, Eq)]
pub enum Commands {
    Setup {
        bot_token: Option<String>,
        chat_id: Option<String>,
        allowed_user_id: Option<String>,
        events: String,
        bridge_command: String,
        websocket_url: String,
        daemon_label: String,
        install_daemon: bool,
        start_daemon: bool,
        register_hermes: bool,
        hermes_server_name: String,
        hermes_command: String,
        pair_timeout_ms: u64,
        dry_run: bool,
    },
    Doctor,
    Away { command: AwayCommands },
    Remote { command: RemoteCommands },
    Threads {
        limit: u64,
    },
    Follow {
        thread_id: String,
        message: Option<String>,
        duration: u64,
        poll_interval: u64,
        events: Option<String>,
    },
    Unarchive {
        thread_id: String,
        dry_run: bool,
    },
    Waiting {
        project: Option<String>,
        limit: u64,
    },
    Inbox {
        project: Option<String>,
        status: Option<String>,
        attention: Option<String>,
        waiting_on: Option<String>,
        limit: u64,
    },
    Watch {
        once: bool,
        hook: Option<String>,
        events: Option<String>,
    },
    Daemon { command: DaemonCommands },
    Telegram { command: TelegramCommands },
    Discord { command: DiscordCommands },
    Projects { command: ProjectCommands },
    Sync {
        limit: u64,
    },
    New {
        cwd: Option<String>,
        message: Option<String>,
        dry_run: bool,
        follow: bool,
        stream: bool,
        duration: u64,
        poll_interval: u64,
        events: Option<String>,
        prompt: Vec<String>,
    },
    Fork {
        thread_id: String,
        message: Option<String>,
        dry_run: bool,
        follow: bool,
        stream: bool,
        duration: u64,
        poll_interval: u64,
        events: Option<String>,
        prompt: Vec<String>,
    },
    Archive {
        thread_id_option: Option<String>,
        thread_ids: Vec<String>,
        project: Option<String>,
        status: Option<String>,
        attention: Option<String>,
        limit: u64,
        dry_run: bool,
        yes: bool,
    },
    Show {
        thread_id: String,
    },
    Reply {
        thread_id: String,
        message: Option<String>,
        dry_run: bool,
        follow: bool,
        stream: bool,
        duration: u64,
        poll_interval: u64,
        events: Option<String>,
        prompt: Vec<String>,
    },
    Approve {
        thread_id: String,
        decision: Option<String>,
        dry_run: bool,
        follow: bool,
        stream: bool,
        duration: u64,
        poll_interval: u64,
        events: Option<String>,
        positional_decision: Option<String>,
    },
    Reset {
        dry_run: bool,
    },
    Mcp,
    Hermes { command: HermesCommands },
}

/// Away mode.
#[derive(Debug, PartialEq, Eq)]
pub enum AwayCommands {
    On,
    Off,
    Status,
}

/// Remote mode.
#[derive(Debug, PartialEq, Eq)]
pub enum RemoteCommands {
    On,
    Off,
    Repair,
    Status,
}

/// The integration with Hermes.
#[derive(Debug, PartialEq, Eq)]
pub enum HermesCommands {
    Install {
        server_name: String,
        hermes_command: String,
        bridge_command: String,
        dry_run: bool,
    },
}

/// The daemon and its service.
#[derive(Debug, PartialEq, Eq)]
pub enum DaemonCommands {
    Run {
        once: bool,
        poll_interval: u64,
        timeout_ms: u64,
    },
    Install {
        dry_run: bool,
        label: String,
        bridge_command: String,
    },
    Uninstall {
        dry_run: bool,
        label: String,
    },
    Start {
        dry_run: bool,
        label: String,
    },
    Stop {
        dry_run: bool,
        label: String,
    },
    Status {
        label: String,
    },
    Logs {
        label: String,
    },
}

/// The Telegram transport.
#[derive(Debug, PartialEq, Eq)]
pub enum TelegramCommands {
    Setup {
        bot_token: Option<String>,
        chat_id: Option<String>,
        allowed_user_id: Option<String>,
        events: String,
        bridge_command: String,
        websocket_url: String,
        pair_timeout_ms: u64,
        dry_run: bool,
    },
    Status,
    Enable {
        dry_run: bool,
    },
    Test {
        message: String,
        timeout_ms: u64,
        dry_run: bool,
    },
    Disable {
        dry_run: bool,
    },
}

/// The Discord transport.
#[derive(Debug, PartialEq, Eq)]
pub enum DiscordCommands {
    Setup {
        bot_token: Option<String>,
        channel_ids: Vec<String>,
        allowed_user_id: Option<String>,
        events: String,
        bridge_command: String,
        websocket_url: String,
        dry_run: bool,
    },
    Status,
    Enable {
        dry_run: bool,
    },
    Test {
        message: String,
        timeout_ms: u64,
        dry_run: bool,
    },
    Disable {
        dry_run: bool,
    },
}

/// The registry of projects.
#[allow(inconsistent_fields)]
#[derive(Debug, PartialEq, Eq)]
pub enum ProjectCommands {
    List {
        observed_limit: u64,
    },
    Add {
        cwd: String,
        id: Option<String>,
        label: Option<String>,
        aliases: Vec<String>,
        dry_run: bool,
    },
    Import {
        limit: u64,
        dry_run: bool,
    },
    Remove {
        id: String,
        dry_run: bool,
    },
}

// ---------------------------------------------------------------------------
// What is wrong with a command line
// ---------------------------------------------------------------------------

/// Why a command line is not carried out.
#[derive(Debug, PartialEq, Eq)]
pub enum CliError {
    /// The help is asked for.
    Help(Page),
    /// The version is asked for.
    Version,
    /// No command of a group is given.
    MissingSubcommand(Group),
    /// There is no such command.
    InvalidSubcommand(String),
    /// There is no such argument.
    UnknownArgument(String),
    /// A flag is given without its value.
    MissingValue(String),
    /// A switch is given with a value.
    UnexpectedValue(String, String),
    /// A flag is given again.
    RepeatedArgument(String),
    /// A flag is given with something else than a number.
    InvalidNumber(String, String),
    /// An argument that is needed is not given.
    MissingArgument(String),
}

/// The model of [`CliError`].
pub enum CliErrorV {
    Help(Page),
    Version,
    MissingSubcommand(Group),
    InvalidSubcommand(Seq<char>),
    UnknownArgument(Seq<char>),
    MissingValue(Seq<char>),
    UnexpectedValue(Seq<char>, Seq<char>),
    RepeatedArgument(Seq<char>),
    InvalidNumber(Seq<char>, Seq<char>),
    MissingArgument(Seq<char>),
}

impl View for CliError {
    type V = CliErrorV;

    open spec fn view(&self) -> CliErrorV {
        match self {
            CliError::Help(page) => CliErrorV::Help(*page),
            CliError::Version => CliErrorV::Version,
            CliError::MissingSubcommand(group) => CliErrorV::MissingSubcommand(*group),
            CliError::InvalidSubcommand(a) => CliErrorV::InvalidSubcommand(a@),
            CliError::UnknownArgument(a) => CliErrorV::UnknownArgument(a@),
            CliError::MissingValue(a) => CliErrorV::MissingValue(a@),
            CliError::UnexpectedValue(a, b) => CliErrorV::UnexpectedValue(a@, b@),
            CliError::RepeatedArgument(a) => CliErrorV::RepeatedArgument(a@),
            CliError::InvalidNumber(a, b) => CliErrorV::InvalidNumber(a@, b@),
            CliError::MissingArgument(a) => CliErrorV::MissingArgument(a@),
        }
    }
}

/// What the user reads of it, where the program goes by this name; the help and the version
/// for those who ask for them.
pub open spec fn usage_text(program: Seq<char>, e: CliErrorV) -> Seq<char> {
    match e {
        CliErrorV::Help(page) => page_text(program, page),
        CliErrorV::MissingSubcommand(group) => page_text(program, Page::Group(group)),
        CliErrorV::Version => "codex-telegram-bridge "@ + VERSION@ + "\n"@,
        CliErrorV::InvalidSubcommand(a) => "error: unrecognized subcommand '"@ + a + "'\n"@,
        CliErrorV::UnknownArgument(a) => "error: unexpected argument '"@ + a + "' found\n"@,
        CliErrorV::MissingValue(a) => "error: a value is required for '"@ + a
            + "' but none was supplied\n"@,
        CliErrorV::UnexpectedValue(a, b) => "error: unexpected value '"@ + b + "' for '"@ + a
            + "' found; no more were expected\n"@,
        CliErrorV::RepeatedArgument(a) => "error: the argument '"@ + a
            + "' cannot be used multiple times\n"@,
        CliErrorV::InvalidNumber(a, b) => "error: invalid value '"@ + b + "' for '"@ + a + "'\n"@,
        CliErrorV::MissingArgument(a) =>
            "error: the following required arguments were not provided:\n  "@ + a + "\n"@,
    }
}

impl CliError {
    /// What the user reads of it, where the program goes by this name.
    pub fn message(&self, program: &str) -> (r: String)
        ensures
            r@ == usage_text(program@, self@),
    {
        match self {
            CliError::Help(page) => render_page(program, *page),
            CliError::MissingSubcommand(group) => render_page(program, Page::Group(*group)),
            CliError::Version => cat3("codex-telegram-bridge ", VERSION, "\n"),
            CliError::InvalidSubcommand(a) => cat3(
                "error: unrecognized subcommand '",
                a.as_str(),
                "'\n",
            ),
            CliError::UnknownArgument(a) => cat3(
                "error: unexpected argument '",
                a.as_str(),
                "' found\n",
            ),
            CliError::MissingValue(a) => cat3(
                "error: a value is required for '",
                a.as_str(),
                "' but none was supplied\n",
            ),
            CliError::UnexpectedValue(a, b) => {
                let mut text = cat3("error: unexpected value '", b.as_str(), "' for '");
                text.append(a.as_str());
                text.append("' found; no more were expected\n");
                text
            },
            CliError::RepeatedArgument(a) => cat3(
                "error: the argument '",
                a.as_str(),
                "' cannot be used multiple times\n",
            ),
            CliError::InvalidNumber(a, b) => {
                let mut text = cat3("error: invalid value '", b.as_str(), "' for '");
                text.append(a.as_str());
                text.append("'\n");
                text
            },
            CliError::MissingArgument(a) => cat3(
                "error: the following required arguments were not provided:\n  ",
                a.as_str(),
                "\n",
            ),
        }
    }
}

// ---------------------------------------------------------------------------
// The command line
// ---------------------------------------------------------------------------

/// What is answered when the words from `i` on name what the help is asked about.
pub open spec fn help_asked(group: Group, args: Seq<Seq<char>>, i: nat) -> CliErrorV
    decreases args.len() - i,
{
    if i >= args.len() {
        CliErrorV::Help(Page::Group(group))
    } else {
        let a = args[i as int];
        match child(group, a) {
            Some(Child::Group(inner)) => help_asked(inner, args, i + 1),
            Some(Child::Verb(verb)) => last_asked(Page::Verb(verb), args, i + 1),
            None => if a == "help"@ {
                last_asked(Page::Help(group), args, i + 1)
            } else {
                CliErrorV::InvalidSubcommand(a)
            },
        }
    }
}

/// What is answered when the help is asked about something that has no commands under it.
pub open spec fn last_asked(page: Page, args: Seq<Seq<char>>, i: nat) -> CliErrorV {
    if i < args.len() {
        CliErrorV::InvalidSubcommand(args[i as int])
    } else {
        CliErrorV::Help(page)
    }
}

/// What is wrong with a word that names no command of a group.
pub open spec fn group_fault(group: Group, a: Seq<char>) -> CliErrorV {
    if is_long(a) {
        let name = flag_name(a);
        if name != "help"@ && !(group == Group::Root && name == "version"@) {
            CliErrorV::UnknownArgument("--"@ + name)
        } else {
            match attached(a) {
                Some(value) => CliErrorV::UnexpectedValue("--"@ + name, value),
                None => if name == "help"@ {
                    CliErrorV::Help(Page::Group(group))
                } else {
                    CliErrorV::Version
                },
            }
        }
    } else if is_flag(a) {
        if a[1] == 'h' {
            CliErrorV::Help(Page::Group(group))
        } else if group == Group::Root && a[1] == 'V' {
            CliErrorV::Version
        } else {
            CliErrorV::UnknownArgument(a.take(2))
        }
    } else {
        CliErrorV::InvalidSubcommand(a)
    }
}

/// The command that the words from `i` on name under a group, and where its arguments start.
pub open spec fn find_verb(group: Group, args: Seq<Seq<char>>, i: nat) -> Result<
    (Verb, nat),
    CliErrorV,
>
    decreases args.len() - i,
{
    if i >= args.len() {
        Err(CliErrorV::MissingSubcommand(group))
    } else {
        let a = args[i as int];
        match child(group, a) {
            Some(Child::Verb(verb)) => Ok((verb, i + 1)),
            Some(Child::Group(inner)) => find_verb(inner, args, i + 1),
            None => if a == "help"@ {
                Err(help_asked(group, args, i + 1))
            } else if a != "--"@ {
                Err(group_fault(group, a))
            } else if i + 1 >= args.len() {
                Err(CliErrorV::MissingSubcommand(group))
            } else if child(group, args[i as int + 1]) is Some || args[i as int + 1] == "help"@ {
                Err(CliErrorV::UnknownArgument(args[i as int + 1]))
            } else {
                Err(CliErrorV::InvalidSubcommand(args[i as int + 1]))
            },
        }
    }
}

/// Answers when the help is asked about something that has no commands under it.
fn answer_last(page: Page, args: &Vec<String>, from: usize) -> (r: CliError)
    ensures
        r@ == last_asked(page, args.deep_view(), from as nat),
{
    let ghost all = args.deep_view();
    if from < args.len() {
        assert(all[from as int] == args@[from as int]@);
        CliError::InvalidSubcommand(args[from].clone())
    } else {
        CliError::Help(page)
    }
}

/// Answers when the words from `from` on name what the help is asked about.
fn answer_help(start: Group, args: &Vec<String>, from: usize) -> (r: CliError)
    ensures
        r@ == help_asked(start, args.deep_view(), from as nat),
{
    let ghost all = args.deep_view();
    let ghost whole = help_asked(start, all, from as nat);
    let mut group: Group = start;
    let mut i: usize = from;
    while i < args.len()
        invariant
            all == args.deep_view(),
            whole == help_asked(start, all, from as nat),
            whole == help_asked(group, all, i as nat),
        decreases args@.len() - i,
    {
        assert(all[i as int] == args@[i as int]@);
        match child_of(group, args[i].as_str()) {
            Some(Child::Group(inner)) => {
                group = inner;
            },
            Some(Child::Verb(verb)) => {
                return answer_last(Page::Verb(verb), args, i + 1);
            },
            None => {
                if same(args[i].as_str(), "help") {
                    return answer_last(Page::Help(group), args, i + 1);
                }
                return CliError::InvalidSubcommand(args[i].clone());
            },
        }
        i += 1;
    }
    CliError::Help(Page::Group(group))
}

/// What is wrong with a word that names no command of a group.
fn fault_in_group(group: Group, a: &str) -> (r: CliError)
    ensures
        r@ == group_fault(group, a@),
{
    let root: bool = group == Group::Root;
    if reads_as_long(a) {
        let (name, tied) = split_flag(a);
        let help: bool = same(name.as_str(), "help");
        if !help && !(root && same(name.as_str(), "version")) {
            return CliError::UnknownArgument(cat("--", name.as_str()));
        }
        match tied {
            Some(value) => CliError::UnexpectedValue(cat("--", name.as_str()), value),
            None => if help {
                CliError::Help(Page::Group(group))
            } else {
                CliError::Version
            },
        }
    } else if reads_as_flag(a) {
        let (letter, shown) = short_flag(a);
        if letter == 'h' {
            CliError::Help(Page::Group(group))
        } else if root && letter == 'V' {
            CliError::Version
        } else {
            CliError::UnknownArgument(shown)
        }
    } else {
        CliError::InvalidSubcommand(a.to_owned())
    }
}

/// Finds the command that the words from `from` on name.
fn locate(args: &Vec<String>, from: usize) -> (r: Result<(Verb, usize), CliError>)
    ensures
        match (r, find_verb(Group::Root, args.deep_view(), from as nat)) {
            (Ok(p), Ok(q)) => p.0 == q.0 && p.1 == q.1 && p.1 <= args@.len(),
            (Err(e), Err(f)) => e@ == f,
            _ => false,
        },
{
    let ghost all = args.deep_view();
    let ghost whole = find_verb(Group::Root, all, from as nat);
    let mut group: Group = Group::Root;
    let mut i: usize = from;
    while i < args.len()
        invariant
            all == args.deep_view(),
            whole == find_verb(Group::Root, all, from as nat),
            whole == find_verb(group, all, i as nat),
        decreases args@.len() - i,
    {
        assert(all[i as int] == args@[i as int]@);
        let a: &str = args[i].as_str();
        match child_of(group, a) {
            Some(Child::Verb(verb)) => {
                return Ok((verb, i + 1));
            },
            Some(Child::Group(inner)) => {
                group = inner;
            },
            None => {
                if same(a, "help") {
                    return Err(answer_help(group, args, i + 1));
                }
                if !same(a, "--") {
                    return Err(fault_in_group(group, a));
                }
                if i + 1 >= args.len() {
                    return Err(CliError::MissingSubcommand(group));
                }
                assert(all[i + 1] == args@[i + 1]@);
                let next: &str = args[i + 1].as_str();
                if child_of(group, next).is_some() || same(next, "help") {
                    return Err(CliError::UnknownArgument(args[i + 1].clone()));
                }
                return Err(CliError::InvalidSubcommand(args[i + 1].clone()));
            },
        }
        i += 1;
    }
    Err(CliError::MissingSubcommand(group))
}

/// The flag is needed and was not given.
pub open spec fn flag_missing(g: GivenV) -> spec_fn(FlagV) -> bool {
    |f: FlagV| f.needed && !has_option(g, f.name)
}

/// The argument that a command needs and that was not given: a flag, or the argument at the
/// first place.
pub open spec fn missing(verb: Verb, g: GivenV) -> Option<Seq<char>> {
    match first_row(flags(verb), flag_missing(g)) {
        Some(flag) => Some(label(flag)),
        None => if g.places.len() == 0 && places(verb).len() > 0 && places(verb)[0].needed {
            Some(place_label(places(verb)[0]))
        } else {
            None
        },
    }
}

/// The argument that a command needs and that was not given.
fn missing_argument(verb: Verb, given: &Given) -> (r: Option<String>)
    ensures
        r.deep_view() == missing(verb, given@),
{
    let rows = flags_of(verb);
    let ghost all = rows.deep_view();
    let ghost hit = flag_missing(given@);
    let mut i: usize = 0;
    while i < rows.len()
        invariant
            i <= rows@.len(),
            all == rows.deep_view(),
            all == flags(verb),
            hit == flag_missing(given@),
            position(all, hit, 0) == position(all, hit, i as nat),
        decreases rows@.len() - i,
    {
        assert(all[i as int] == rows@[i as int]@);
        if rows[i].needed && !given.has(rows[i].name) {
            assert(hit(all[i as int]));
            return Some(flag_label(&rows[i]));
        }
        assert(!hit(all[i as int]));
        i += 1;
    }
    let list = places_of(verb);
    let ghost wanted = places(verb);
    assert(wanted.len() == list@.len());
    if given.places.len() == 0 && list.len() > 0 {
        assert(wanted[0] == list@[0]@);
        if list[0].needed {
            return Some(shown_place(&list[0]));
        }
    }
    None
}

/// What was given to a command, as the command: a flag that was not given has its default.
pub open spec fn reads_as(verb: Verb, g: GivenV, c: Commands) -> bool {
    match verb {
        Verb::Setup => {
            &&& c matches Commands::Setup { bot_token, chat_id, allowed_user_id, events, bridge_command, websocket_url, daemon_label, install_daemon, start_daemon, register_hermes, hermes_server_name, hermes_command, pair_timeout_ms, dry_run }
            &&& bot_token.deep_view() == option_value(g, "bot-token"@)
            &&& chat_id.deep_view() == option_value(g, "chat-id"@)
            &&& allowed_user_id.deep_view() == option_value(g, "allowed-user-id"@)
            &&& events@ == text_or(g, "events"@, "thread_waiting,thread_completed"@)
            &&& bridge_command@ == text_or(g, "bridge-command"@, "codex-telegram-bridge"@)
            &&& websocket_url@ == text_or(g, "websocket-url"@, "ws://127.0.0.1:4500"@)
            &&& daemon_label@ == text_or(g, "daemon-label"@, "com.hanifcarroll.codex-telegram-bridge"@)
            &&& install_daemon == !has_option(g, "no-install-daemon"@)
            &&& start_daemon == !has_option(g, "no-start-daemon"@)
            &&& register_hermes == has_option(g, "register-hermes"@)
            &&& hermes_server_name@ == text_or(g, "hermes-server-name"@, "codex"@)
            &&& hermes_command@ == text_or(g, "hermes-command"@, "hermes"@)
            &&& pair_timeout_ms == number_or(g, "pair-timeout-ms"@, 60000)
            &&& dry_run == has_option(g, "dry-run"@)
        },
        Verb::Doctor => c matches Commands::Doctor,
        Verb::AwayOn => c matches Commands::Away { command: AwayCommands::On },
        Verb::AwayOff => c matches Commands::Away { command: AwayCommands::Off },
        Verb::AwayStatus => c matches Commands::Away { command: AwayCommands::Status },
        Verb::RemoteOn => c matches Commands::Remote { command: RemoteCommands::On },
        Verb::RemoteOff => c matches Commands::Remote { command: RemoteCommands::Off },
        Verb::RemoteRepair => c matches Commands::Remote { command: RemoteCommands::Repair },
        Verb::RemoteStatus => c matches Commands::Remote { command: RemoteCommands::Status },
        Verb::Threads => {
            &&& c matches Commands::Threads { limit }
            &&& limit == number_or(g, "limit"@, 25)
        },
        Verb::Follow => {
            &&& c matches Commands::Follow { thread_id, message, duration, poll_interval, events }
            &&& thread_id@ == g.places[0]
            &&& message.deep_view() == option_value(g, "message"@)
            &&& duration == number_or(g, "duration"@, 3000)
            &&& poll_interval == number_or(g, "poll-interval"@, 1000)
            &&& events.deep_view() == option_value(g, "events"@)
        },
        Verb::Unarchive => {
            &&& c matches Commands::Unarchive { thread_id, dry_run }
            &&& thread_id@ == g.places[0]
            &&& dry_run == has_option(g, "dry-run"@)
        },
        Verb::Waiting => {
            &&& c matches Commands::Waiting { project, limit }
            &&& project.deep_view() == option_value(g, "project"@)
            &&& limit == number_or(g, "limit"@, 25)
        },
        Verb::Inbox => {
            &&& c matches Commands::Inbox { project, status, attention, waiting_on, limit }
            &&& project.deep_view() == option_value(g, "project"@)
            &&& status.deep_view() == option_value(g, "status"@)
            &&& attention.deep_view() == option_value(g, "attention"@)
            &&& waiting_on.deep_view() == option_value(g, "waiting-on"@)
            &&& limit == number_or(g, "limit"@, 25)
        },
        Verb::Watch => {
            &&& c matches Commands::Watch { once, hook, events }
            &&& once == has_option(g, "once"@)
            &&& hook.deep_view() == option_value(g, "exec"@)
            &&& events.deep_view() == option_value(g, "events"@)
        },
        Verb::DaemonRun => {
            &&& c matches Commands::Daemon { command: DaemonCommands::Run { once, poll_interval, timeout_ms } }
            &&& once == has_option(g, "once"@)
            &&& poll_interval == number_or(g, "poll-interval"@, 1500)
            &&& timeout_ms == number_or(g, "timeout-ms"@, 10000)
        },
        Verb::DaemonInstall => {
            &&& c matches Commands::Daemon { command: DaemonCommands::Install { dry_run, label, bridge_command } }
            &&& dry_run == has_option(g, "dry-run"@)
            &&& label@ == text_or(g, "label"@, "com.hanifcarroll.codex-telegram-bridge"@)
            &&& bridge_command@ == text_or(g, "bridge-command"@, "codex-telegram-bridge"@)
        },
        Verb::DaemonUninstall => {
            &&& c matches Commands::Daemon { command: DaemonCommands::Uninstall { dry_run, label } }
            &&& dry_run == has_option(g, "dry-run"@)
            &&& label@ == text_or(g, "label"@, "com.hanifcarroll.codex-telegram-bridge"@)
        },
        Verb::DaemonStart => {
            &&& c matches Commands::Daemon { command: DaemonCommands::Start { dry_run, label } }
            &&& dry_run == has_option(g, "dry-run"@)
            &&& label@ == text_or(g, "label"@, "com.hanifcarroll.codex-telegram-bridge"@)
        },
        Verb::DaemonStop => {
            &&& c matches Commands::Daemon { command: DaemonCommands::Stop { dry_run, label } }
            &&& dry_run == has_option(g, "dry-run"@)
            &&& label@ == text_or(g, "label"@, "com.hanifcarroll.codex-telegram-bridge"@)
        },
        Verb::DaemonStatus => {
            &&& c matches Commands::Daemon { command: DaemonCommands::Status { label } }
            &&& label@ == text_or(g, "label"@, "com.hanifcarroll.codex-telegram-bridge"@)
        },
        Verb::DaemonLogs => {
            &&& c matches Commands::Daemon { command: DaemonCommands::Logs { label } }
            &&& label@ == text_or(g, "label"@, "com.hanifcarroll.codex-telegram-bridge"@)
        },
        Verb::TelegramSetup => {
            &&& c matches Commands::Telegram { command: TelegramCommands::Setup { bot_token, chat_id, allowed_user_id, events, bridge_command, websocket_url, pair_timeout_ms, dry_run } }
            &&& bot_token.deep_view() == option_value(g, "bot-token"@)
            &&& chat_id.deep_view() == option_value(g, "chat-id"@)
            &&& allowed_user_id.deep_view() == option_value(g, "allowed-user-id"@)
            &&& events@ == text_or(g, "events"@, "thread_waiting,thread_completed"@)
            &&& bridge_command@ == text_or(g, "bridge-command"@, "codex-telegram-bridge"@)
            &&& websocket_url@ == text_or(g, "websocket-url"@, "ws://127.0.0.1:4500"@)
            &&& pair_timeout_ms == number_or(g, "pair-timeout-ms"@, 60000)
            &&& dry_run == has_option(g, "dry-run"@)
        },
        Verb::TelegramStatus => c matches Commands::Telegram { command: TelegramCommands::Status },
        Verb::TelegramEnable => {
            &&& c matches Commands::Telegram { command: TelegramCommands::Enable { dry_run } }
            &&& dry_run == has_option(g, "dry-run"@)
        },
        Verb::TelegramTest => {
            &&& c matches Commands::Telegram { command: TelegramCommands::Test { message, timeout_ms, dry_run } }
            &&& message@ == text_or(g, "message"@, "Codex Telegram bridge test"@)
            &&& timeout_ms == number_or(g, "timeout-ms"@, 10000)
            &&& dry_run == has_option(g, "dry-run"@)
        },
        Verb::TelegramDisable => {
            &&& c matches Commands::Telegram { command: TelegramCommands::Disable { dry_run } }
            &&& dry_run == has_option(g, "dry-run"@)
        },
        Verb::DiscordSetup => {
            &&& c matches Commands::Discord { command: DiscordCommands::Setup { bot_token, channel_ids, allowed_user_id, events, bridge_command, websocket_url, dry_run } }
            &&& bot_token.deep_view() == option_value(g, "bot-token"@)
            &&& channel_ids.deep_view() == all_values(g, "channel-id"@)
            &&& allowed_user_id.deep_view() == option_value(g, "allowed-user-id"@)
            &&& events@ == text_or(g, "events"@, "thread_waiting,thread_completed"@)
            &&& bridge_command@ == text_or(g, "bridge-command"@, "codex-telegram-bridge"@)
            &&& websocket_url@ == text_or(g, "websocket-url"@, "ws://127.0.0.1:4500"@)
            &&& dry_run == has_option(g, "dry-run"@)
        },
        Verb::DiscordStatus => c matches Commands::Discord { command: DiscordCommands::Status },
        Verb::DiscordEnable => {
            &&& c matches Commands::Discord { command: DiscordCommands::Enable { dry_run } }
            &&& dry_run == has_option(g, "dry-run"@)
        },
        Verb::DiscordTest => {
            &&& c matches Commands::Discord { command: DiscordCommands::Test { message, timeout_ms, dry_run } }
            &&& message@ == text_or(g, "message"@, "Codex Discord bridge test"@)
            &&& timeout_ms == number_or(g, "timeout-ms"@, 10000)
            &&& dry_run == has_option(g, "dry-run"@)
        },
        Verb::DiscordDisable => {
            &&& c matches Commands::Discord { command: DiscordCommands::Disable { dry_run } }
            &&& dry_run == has_option(g, "dry-run"@)
        },
        Verb::ProjectsList => {
            &&& c matches Commands::Projects { command: ProjectCommands::List { observed_limit } }
            &&& observed_limit == number_or(g, "observed-limit"@, 10)
        },
        Verb::ProjectsAdd => {
            &&& c matches Commands::Projects { command: ProjectCommands::Add { cwd, id, label, aliases, dry_run } }
            &&& cwd@ == g.places[0]
            &&& id.deep_view() == option_value(g, "id"@)
            &&& label.deep_view() == option_value(g, "label"@)
            &&& aliases.deep_view() == all_values(g, "alias"@)
            &&& dry_run == has_option(g, "dry-run"@)
        },
        Verb::ProjectsImport => {
            &&& c matches Commands::Projects { command: ProjectCommands::Import { limit, dry_run } }
            &&& limit == number_or(g, "limit"@, 25)
            &&& dry_run == has_option(g, "dry-run"@)
        },
        Verb::ProjectsRemove => {
            &&& c matches Commands::Projects { command: ProjectCommands::Remove { id, dry_run } }
            &&& id@ == g.places[0]
            &&& dry_run == has_option(g, "dry-run"@)
        },
        Verb::Sync => {
            &&& c matches Commands::Sync { limit }
            &&& limit == number_or(g, "limit"@, 50)
        },
        Verb::New => {
            &&& c matches Commands::New { cwd, message, dry_run, follow, stream, duration, poll_interval, events, prompt }
            &&& cwd.deep_view() == option_value(g, "cwd"@)
            &&& message.deep_view() == option_value(g, "message"@)
            &&& dry_run == has_option(g, "dry-run"@)
            &&& follow == has_option(g, "follow"@)
            &&& stream == has_option(g, "stream"@)
            &&& duration == number_or(g, "duration"@, 3000)
            &&& poll_interval == number_or(g, "poll-interval"@, 1000)
            &&& events.deep_view() == option_value(g, "events"@)
            &&& prompt.deep_view() == g.places.skip(0)
        },
        Verb::Fork => {
            &&& c matches Commands::Fork { thread_id, message, dry_run, follow, stream, duration, poll_interval, events, prompt }
            &&& thread_id@ == g.places[0]
            &&& message.deep_view() == option_value(g, "message"@)
            &&& dry_run == has_option(g, "dry-run"@)
            &&& follow == has_option(g, "follow"@)
            &&& stream == has_option(g, "stream"@)
            &&& duration == number_or(g, "duration"@, 3000)
            &&& poll_interval == number_or(g, "poll-interval"@, 1000)
            &&& events.deep_view() == option_value(g, "events"@)
            &&& prompt.deep_view() == g.places.skip(1)
        },
        Verb::Archive => {
            &&& c matches Commands::Archive { thread_id_option, thread_ids, project, status, attention, limit, dry_run, yes }
            &&& thread_id_option.deep_view() == option_value(g, "thread-id"@)
            &&& thread_ids.deep_view() == g.places.skip(0)
            &&& project.deep_view() == option_value(g, "project"@)
            &&& status.deep_view() == option_value(g, "status"@)
            &&& attention.deep_view() == option_value(g, "attention"@)
            &&& limit == number_or(g, "limit"@, 100)
            &&& dry_run == has_option(g, "dry-run"@)
            &&& yes == has_option(g, "yes"@)
        },
        Verb::Show => {
            &&& c matches Commands::Show { thread_id }
            &&& thread_id@ == g.places[0]
        },
        Verb::Reply => {
            &&& c matches Commands::Reply { thread_id, message, dry_run, follow, stream, duration, poll_interval, events, prompt }
            &&& thread_id@ == g.places[0]
            &&& message.deep_view() == option_value(g, "message"@)
            &&& dry_run == has_option(g, "dry-run"@)
            &&& follow == has_option(g, "follow"@)
            &&& stream == has_option(g, "stream"@)
            &&& duration == number_or(g, "duration"@, 3000)
            &&& poll_interval == number_or(g, "poll-interval"@, 1000)
            &&& events.deep_view() == option_value(g, "events"@)
            &&& prompt.deep_view() == g.places.skip(1)
        },
        Verb::Approve => {
            &&& c matches Commands::Approve { thread_id, decision, dry_run, follow, stream, duration, poll_interval, events, positional_decision }
            &&& thread_id@ == g.places[0]
            &&& decision.deep_view() == option_value(g, "decision"@)
            &&& dry_run == has_option(g, "dry-run"@)
            &&& follow == has_option(g, "follow"@)
            &&& stream == has_option(g, "stream"@)
            &&& duration == number_or(g, "duration"@, 3000)
            &&& poll_interval == number_or(g, "poll-interval"@, 1000)
            &&& events.deep_view() == option_value(g, "events"@)
            &&& positional_decision.deep_view() == word_at(g, 1)
        },
        Verb::Reset => {
            &&& c matches Commands::Reset { dry_run }
            &&& dry_run == has_option(g, "dry-run"@)
        },
        Verb::Mcp => c matches Commands::Mcp,
        Verb::HermesInstall => {
            &&& c matches Commands::Hermes { command: HermesCommands::Install { server_name, hermes_command, bridge_command, dry_run } }
            &&& server_name@ == text_or(g, "server-name"@, "codex"@)
            &&& hermes_command@ == text_or(g, "hermes-command"@, "hermes"@)
            &&& bridge_command@ == text_or(g, "bridge-command"@, "codex-telegram-bridge"@)
            &&& dry_run == has_option(g, "dry-run"@)
        },
    }
}

/// What was given to a command, as the command.
fn command_of(verb: Verb, given: &Given) -> (r: Commands)
    requires
        missing(verb, given@) is None,
    ensures
        reads_as(verb, given@, r),
{
    match verb {
        Verb::Setup => Commands::Setup {
            bot_token: given.value("bot-token"),
            chat_id: given.value("chat-id"),
            allowed_user_id: given.value("allowed-user-id"),
            events: given.value_or("events", "thread_waiting,thread_completed"),
            bridge_command: given.value_or("bridge-command", "codex-telegram-bridge"),
            websocket_url: given.value_or("websocket-url", "ws://127.0.0.1:4500"),
            daemon_label: given.value_or("daemon-label", "com.hanifcarroll.codex-telegram-bridge"),
            install_daemon: !given.has("no-install-daemon"),
            start_daemon: !given.has("no-start-daemon"),
            register_hermes: given.has("register-hermes"),
            hermes_server_name: given.value_or("hermes-server-name", "codex"),
            hermes_command: given.value_or("hermes-command", "hermes"),
            pair_timeout_ms: given.number("pair-timeout-ms", 60000),
            dry_run: given.has("dry-run"),
        },
        Verb::Doctor => Commands::Doctor,
        Verb::AwayOn => Commands::Away { command: AwayCommands::On },
        Verb::AwayOff => Commands::Away { command: AwayCommands::Off },
        Verb::AwayStatus => Commands::Away { command: AwayCommands::Status },
        Verb::RemoteOn => Commands::Remote { command: RemoteCommands::On },
        Verb::RemoteOff => Commands::Remote { command: RemoteCommands::Off },
        Verb::RemoteRepair => Commands::Remote { command: RemoteCommands::Repair },
        Verb::RemoteStatus => Commands::Remote { command: RemoteCommands::Status },
        Verb::Threads => Commands::Threads {
            limit: given.number("limit", 25),
        },
        Verb::Follow => Commands::Follow {
            thread_id: given.first_place(),
            message: given.value("message"),
            duration: given.number("duration", 3000),
            poll_interval: given.number("poll-interval", 1000),
            events: given.value("events"),
        },
        Verb::Unarchive => Commands::Unarchive {
            thread_id: given.first_place(),
            dry_run: given.has("dry-run"),
        },
        Verb::Waiting => Commands::Waiting {
            project: given.value("project"),
            limit: given.number("limit", 25),
        },
        Verb::Inbox => Commands::Inbox {
            project: given.value("project"),
            status: given.value("status"),
            attention: given.value("attention"),
            waiting_on: given.value("waiting-on"),
            limit: given.number("limit", 25),
        },
        Verb::Watch => Commands::Watch {
            once: given.has("once"),
            hook: given.value("exec"),
            events: given.value("events"),
        },
        Verb::DaemonRun => Commands::Daemon {
            command: DaemonCommands::Run {
                once: given.has("once"),
                poll_interval: given.number("poll-interval", 1500),
                timeout_ms: given.number("timeout-ms", 10000),
            },
        },
        Verb::DaemonInstall => Commands::Daemon {
            command: DaemonCommands::Install {
                dry_run: given.has("dry-run"),
                label: given.value_or("label", "com.hanifcarroll.codex-telegram-bridge"),
                bridge_command: given.value_or("bridge-command", "codex-telegram-bridge"),
            },
        },
        Verb::DaemonUninstall => Commands::Daemon {
            command: DaemonCommands::Uninstall {
                dry_run: given.has("dry-run"),
                label: given.value_or("label", "com.hanifcarroll.codex-telegram-bridge"),
            },
        },
        Verb::DaemonStart => Commands::Daemon {
            command: DaemonCommands::Start {
                dry_run: given.has("dry-run"),
                label: given.value_or("label", "com.hanifcarroll.codex-telegram-bridge"),
            },
        },
        Verb::DaemonStop => Commands::Daemon {
            command: DaemonCommands::Stop {
                dry_run: given.has("dry-run"),
                label: given.value_or("label", "com.hanifcarroll.codex-telegram-bridge"),
            },
        },
        Verb::DaemonStatus => Commands::Daemon {
            command: DaemonCommands::Status {
                label: given.value_or("label", "com.hanifcarroll.codex-telegram-bridge"),
            },
        },
        Verb::DaemonLogs => Commands::Daemon {
            command: DaemonCommands::Logs {
                label: given.value_or("label", "com.hanifcarroll.codex-telegram-bridge"),
            },
        },
        Verb::TelegramSetup => Commands::Telegram {
            command: TelegramCommands::Setup {
                bot_token: given.value("bot-token"),
                chat_id: given.value("chat-id"),
                allowed_user_id: given.value("allowed-user-id"),
                events: given.value_or("events", "thread_waiting,thread_completed"),
                bridge_command: given.value_or("bridge-command", "codex-telegram-bridge"),
                websocket_url: given.value_or("websocket-url", "ws://127.0.0.1:4500"),
                pair_timeout_ms: given.number("pair-timeout-ms", 60000),
                dry_run: given.has("dry-run"),
            },
        },
        Verb::TelegramStatus => Commands::Telegram { command: TelegramCommands::Status },
        Verb::TelegramEnable => Commands::Telegram {
            command: TelegramCommands::Enable {
                dry_run: given.has("dry-run"),
            },
        },
        Verb::TelegramTest => Commands::Telegram {
            command: TelegramCommands::Test {
                message: given.value_or("message", "Codex Telegram bridge test"),
                timeout_ms: given.number("timeout-ms", 10000),
                dry_run: given.has("dry-run"),
            },
        },
        Verb::TelegramDisable => Commands::Telegram {
            command: TelegramCommands::Disable {
                dry_run: given.has("dry-run"),
            },
        },
        Verb::DiscordSetup => Commands::Discord {
            command: DiscordCommands::Setup {
                bot_token: given.value("bot-token"),
                channel_ids: given.values("channel-id"),
                allowed_user_id: given.value("allowed-user-id"),
                events: given.value_or("events", "thread_waiting,thread_completed"),
                bridge_command: given.value_or("bridge-command", "codex-telegram-bridge"),
                websocket_url: given.value_or("websocket-url", "ws://127.0.0.1:4500"),
                dry_run: given.has("dry-run"),
            },
        },
        Verb::DiscordStatus => Commands::Discord { command: DiscordCommands::Status },
        Verb::DiscordEnable => Commands::Discord {
            command: DiscordCommands::Enable {
                dry_run: given.has("dry-run"),
            },
        },
        Verb::DiscordTest => Commands::Discord {
            command: DiscordCommands::Test {
                message: given.value_or("message", "Codex Discord bridge test"),
                timeout_ms: given.number("timeout-ms", 10000),
                dry_run: given.has("dry-run"),
            },
        },
        Verb::DiscordDisable => Commands::Discord {
            command: DiscordCommands::Disable {
                dry_run: given.has("dry-run"),
            },
        },
        Verb::ProjectsList => Commands::Projects {
            command: ProjectCommands::List {
                observed_limit: given.number("observed-limit", 10),
            },
        },
        Verb::ProjectsAdd => Commands::Projects {
            command: ProjectCommands::Add {
                cwd: given.first_place(),
                id: given.value("id"),
                label: given.value("label"),
                aliases: given.values("alias"),
                dry_run: given.has("dry-run"),
            },
        },
        Verb::ProjectsImport => Commands::Projects {
            command: ProjectCommands::Import {
                limit: given.number("limit", 25),
                dry_run: given.has("dry-run"),
            },
        },
        Verb::ProjectsRemove => Commands::Projects {
            command: ProjectCommands::Remove {
                id: given.first_place(),
                dry_run: given.has("dry-run"),
            },
        },
        Verb::Sync => Commands::Sync {
            limit: given.number("limit", 50),
        },
        Verb::New => Commands::New {
            cwd: given.value("cwd"),
            message: given.value("message"),
            dry_run: given.has("dry-run"),
            follow: given.has("follow"),
            stream: given.has("stream"),
            duration: given.number("duration", 3000),
            poll_interval: given.number("poll-interval", 1000),
            events: given.value("events"),
            prompt: given.places_from(0),
        },
        Verb::Fork => Commands::Fork {
            thread_id: given.first_place(),
            message: given.value("message"),
            dry_run: given.has("dry-run"),
            follow: given.has("follow"),
            stream: given.has("stream"),
            duration: given.number("duration", 3000),
            poll_interval: given.number("poll-interval", 1000),
            events: given.value("events"),
            prompt: given.places_from(1),
        },
        Verb::Archive => Commands::Archive {
            thread_id_option: given.value("thread-id"),
            thread_ids: given.places_from(0),
            project: given.value("project"),
            status: given.value("status"),
            attention: given.value("attention"),
            limit: given.number("limit", 100),
            dry_run: given.has("dry-run"),
            yes: given.has("yes"),
        },
        Verb::Show => Commands::Show {
            thread_id: given.first_place(),
        },
        Verb::Reply => Commands::Reply {
            thread_id: given.first_place(),
            message: given.value("message"),
            dry_run: given.has("dry-run"),
            follow: given.has("follow"),
            stream: given.has("stream"),
            duration: given.number("duration", 3000),
            poll_interval: given.number("poll-interval", 1000),
            events: given.value("events"),
            prompt: given.places_from(1),
        },
        Verb::Approve => Commands::Approve {
            thread_id: given.first_place(),
            decision: given.value("decision"),
            dry_run: given.has("dry-run"),
            follow: given.has("follow"),
            stream: given.has("stream"),
            duration: given.number("duration", 3000),
            poll_interval: given.number("poll-interval", 1000),
            events: given.value("events"),
            positional_decision: given.second_place(),
        },
        Verb::Reset => Commands::Reset {
            dry_run: given.has("dry-run"),
        },
        Verb::Mcp => Commands::Mcp,
        Verb::HermesInstall => Commands::Hermes {
            command: HermesCommands::Install {
                server_name: given.value_or("server-name", "codex"),
                hermes_command: given.value_or("hermes-command", "hermes"),
                bridge_command: given.value_or("bridge-command", "codex-telegram-bridge"),
                dry_run: given.has("dry-run"),
            },
        },
    }
}

/// What a command line says: the command and what was given to it. The first word is the
/// name of the program.
pub open spec fn command_line(args: Seq<Seq<char>>) -> Result<(Verb, GivenV), CliErrorV> {
    match find_verb(Group::Root, args, 1) {
        Err(e) => Err(e),
        Ok((verb, next)) => match scanned(verb, args, next, nothing_given(), false) {
            Err(e) => Err(e),
            Ok(g) => match missing(verb, g) {
                Some(name) => Err(CliErrorV::MissingArgument(name)),
                None => Ok((verb, g)),
            },
        },
    }
}

impl Cli {
    /// Reads a command line, whose first word is the name of the program.
    pub fn try_parse_from(args: &Vec<String>) -> (r: Result<Cli, CliError>)
        ensures
            match (r, command_line(args.deep_view())) {
                (Ok(cli), Ok((verb, g))) => reads_as(verb, g, cli.command),
                (Err(e), Err(f)) => e@ == f,
                _ => false,
            },
    {
        let (verb, next): (Verb, usize) = match locate(args, 1) {
            Ok(p) => p,
            Err(e) => {
                return Err(e);
            },
        };
        let given: Given = match scan(verb, args, next) {
            Ok(g) => g,
            Err(e) => {
                return Err(e);
            },
        };
        match missing_argument(verb, &given) {
            Some(name) => Err(CliError::MissingArgument(name)),
            None => Ok(Cli { command: command_of(verb, &given) }),
        }
    }
}

/// No word for a command is read as a flag.
proof fn lemma_words_are_no_flags(group: Group, i: int)
    requires
        0 <= i < words_under(group).len(),
    ensures
        !is_flag(words_under(group)[i].name),
{
    reveal_strlit("add");
    reveal_strlit("approve");
    reveal_strlit("archive");
    reveal_strlit("away");
    reveal_strlit("daemon");
    reveal_strlit("disable");
    reveal_strlit("discord");
    reveal_strlit("doctor");
    reveal_strlit("enable");
    reveal_strlit("follow");
    reveal_strlit("fork");
    reveal_strlit("hermes");
    reveal_strlit("import");
    reveal_strlit("inbox");
    reveal_strlit("install");
    reveal_strlit("list");
    reveal_strlit("logs");
    reveal_strlit("mcp");
    reveal_strlit("new");
    reveal_strlit("off");
    reveal_strlit("on");
    reveal_strlit("projects");
    reveal_strlit("remote");
    reveal_strlit("remove");
    reveal_strlit("repair");
    reveal_strlit("reply");
    reveal_strlit("reset");
    reveal_strlit("run");
    reveal_strlit("setup");
    reveal_strlit("show");
    reveal_strlit("start");
    reveal_strlit("status");
    reveal_strlit("stop");
    reveal_strlit("sync");
    reveal_strlit("telegram");
    reveal_strlit("test");
    reveal_strlit("threads");
    reveal_strlit("unarchive");
    reveal_strlit("uninstall");
    reveal_strlit("waiting");
    reveal_strlit("watch");
}

/// A flag names no command of a group.
proof fn lemma_flags_are_no_words(group: Group, a: Seq<char>)
    requires
        is_flag(a),
    ensures
        child(group, a) is None,
{
    let rows = words_under(group);
    lemma_position(rows, word_called(a), 0);
    let p = position(rows, word_called(a), 0);
    if p < rows.len() {
        lemma_words_are_no_flags(group, p as int);
    }
}

/// In front of a command the first letter behind a hyphen asks for the help of the group,
/// or for the version at the top, whatever follows it.
pub proof fn the_first_letter_asks(group: Group, args: Seq<Seq<char>>, i: nat)
    requires
        i < args.len(),
        is_flag(args[i as int]),
        !is_long(args[i as int]),
    ensures
        args[i as int][1] == 'h' ==> find_verb(group, args, i) == Err::<(Verb, nat), CliErrorV>(
            CliErrorV::Help(Page::Group(group)),
        ),
        args[i as int][1] == 'V' && group == Group::Root ==> find_verb(group, args, i) == Err::<
            (Verb, nat),
            CliErrorV,
        >(CliErrorV::Version),
{
    reveal_strlit("help");
    reveal_strlit("--");
    lemma_flags_are_no_words(group, args[i as int]);
}

/// No command has a flag of its own that is called like that for the help.
proof fn lemma_no_command_takes_help(verb: Verb)
    ensures
        flag_at(verb, "help"@) is None,
{
    let rows = flags(verb);
    reveal_strlit("help");
    reveal_strlit("alias");
    reveal_strlit("allowed-user-id");
    reveal_strlit("attention");
    reveal_strlit("bot-token");
    reveal_strlit("bridge-command");
    reveal_strlit("channel-id");
    reveal_strlit("chat-id");
    reveal_strlit("cwd");
    reveal_strlit("daemon-label");
    reveal_strlit("decision");
    reveal_strlit("dry-run");
    reveal_strlit("duration");
    reveal_strlit("events");
    reveal_strlit("exec");
    reveal_strlit("follow");
    reveal_strlit("hermes-command");
    reveal_strlit("hermes-server-name");
    reveal_strlit("id");
    reveal_strlit("label");
    reveal_strlit("limit");
    reveal_strlit("message");
    reveal_strlit("no-install-daemon");
    reveal_strlit("no-start-daemon");
    reveal_strlit("observed-limit");
    reveal_strlit("once");
    reveal_strlit("pair-timeout-ms");
    reveal_strlit("poll-interval");
    reveal_strlit("project");
    reveal_strlit("register-hermes");
    reveal_strlit("server-name");
    reveal_strlit("status");
    reveal_strlit("stream");
    reveal_strlit("thread-id");
    reveal_strlit("timeout-ms");
    reveal_strlit("waiting-on");
    reveal_strlit("websocket-url");
    reveal_strlit("yes");
    assert("alias"@.len() == 5);
    assert("allowed-user-id"@.len() == 15);
    assert("attention"@.len() == 9);
    assert("bot-token"@.len() == 9);
    assert("bridge-command"@.len() == 14);
    assert("channel-id"@.len() == 10);
    assert("chat-id"@.len() == 7);
    assert("cwd"@.len() == 3);
    assert("daemon-label"@.len() == 12);
    assert("decision"@.len() == 8);
    assert("dry-run"@.len() == 7);
    assert("duration"@.len() == 8);
    assert("events"@.len() == 6);
    assert("exec"@[0] != "help"@[0]);
    assert("follow"@.len() == 6);
    assert("hermes-command"@.len() == 14);
    assert("hermes-server-name"@.len() == 18);
    assert("id"@.len() == 2);
    assert("label"@.len() == 5);
    assert("limit"@.len() == 5);
    assert("message"@.len() == 7);
    assert("no-install-daemon"@.len() == 17);
    assert("no-start-daemon"@.len() == 15);
    assert("observed-limit"@.len() == 14);
    assert("once"@[0] != "help"@[0]);
    assert("pair-timeout-ms"@.len() == 15);
    assert("poll-interval"@.len() == 13);
    assert("project"@.len() == 7);
    assert("register-hermes"@.len() == 15);
    assert("server-name"@.len() == 11);
    assert("status"@.len() == 6);
    assert("stream"@.len() == 6);
    assert("thread-id"@.len() == 9);
    assert("timeout-ms"@.len() == 10);
    assert("waiting-on"@.len() == 10);
    assert("websocket-url"@.len() == 13);
    assert("yes"@.len() == 3);
    assert forall|i: int| 0 <= i < rows.len() implies (#[trigger] rows[i]).name != "help"@ by {
    }
    lemma_position(rows, flag_called("help"@), 0);
}

/// Once a command is named, its own help is what a flag for the help shows, and what asking
/// for the help of the command shows.
pub proof fn commands_show_their_own_help(
    group: Group,
    args: Seq<Seq<char>>,
    i: nat,
    verb: Verb,
    g: GivenV,
)
    requires
        i < args.len(),
        args[i as int] == "--help"@,
        child(group, args[0]) == Some(Child::Verb(verb)),
    ensures
        scanned(verb, args, i, g, false) == Err::<GivenV, CliErrorV>(
            CliErrorV::Help(Page::Verb(verb)),
        ),
        help_asked(group, args.take(1), 0) == CliErrorV::Help(Page::Verb(verb)),
{
    lemma_no_command_takes_help(verb);
    reveal_strlit("--help");
    reveal_strlit("help");
    reveal_strlit("--");
    assert(index_from("--help"@, '=', 2) == 6) by {
        reveal_with_fuel(index_from, 6);
    }
    assert(flag_name("--help"@) =~= "help"@);
}

} // verus!
