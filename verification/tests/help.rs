//! The command line: it reads, and tells of itself, what the builder of clap makes of the
//! same commands.
use clap::builder::RangedU64ValueParser;
use clap::error::ErrorKind;
use clap::{Arg, ArgAction, Command};
use codex_telegram_bridge::cli::{Cli, CliError, Commands};
use codex_telegram_bridge::help::render_long_help;

fn switch(name: &'static str) -> Arg {
    Arg::new(name).long(name).action(ArgAction::SetTrue)
}

fn unset(name: &'static str) -> Arg {
    Arg::new(name).long(name).action(ArgAction::SetFalse)
}

fn text(name: &'static str, value_name: &'static str) -> Arg {
    Arg::new(name).long(name).value_name(value_name).action(ArgAction::Set)
}

fn number(name: &'static str, value_name: &'static str, default: &'static str) -> Arg {
    text(name, value_name)
        .value_parser(RangedU64ValueParser::<u64>::new())
        .default_value(default)
}

fn many(name: &'static str, value_name: &'static str) -> Arg {
    text(name, value_name).action(ArgAction::Append)
}

fn place(value_name: &'static str) -> Arg {
    Arg::new(value_name).value_name(value_name)
}

fn places(value_name: &'static str) -> Arg {
    place(value_name).num_args(1..).action(ArgAction::Append)
}

fn follow_flags() -> Vec<Arg> {
    vec![
        switch("dry-run"),
        switch("follow"),
        switch("stream"),
        number("duration", "DURATION", "3000"),
        number("poll-interval", "POLL_INTERVAL", "1000"),
        text("events", "EVENTS"),
    ]
}

fn leaf(name: &'static str, about: &'static str) -> Command {
    let command = Command::new(name);
    if about.is_empty() {
        command
    } else {
        command.about(about)
    }
}

fn group(name: &'static str, about: &'static str) -> Command {
    leaf(name, about).subcommand_required(true).arg_required_else_help(true)
}

fn built() -> Command {
    group(
        "codex-telegram-bridge",
        "Control Codex locally and keep working through Telegram when away",
    )
        .version("0.1.1")
        .subcommand(
            leaf("setup", "Configure Telegram delivery, shared live backend, daemon service, and optional Hermes MCP")
                .arg(text("bot-token", "BOT_TOKEN"))
                .arg(text("chat-id", "CHAT_ID"))
                .arg(text("allowed-user-id", "ALLOWED_USER_ID"))
                .arg(text("events", "EVENTS").default_value("thread_waiting,thread_completed"))
                .arg(text("bridge-command", "BRIDGE_COMMAND").default_value("codex-telegram-bridge"))
                .arg(text("websocket-url", "WEBSOCKET_URL").default_value("ws://127.0.0.1:4500"))
                .arg(text("daemon-label", "DAEMON_LABEL").default_value("com.hanifcarroll.codex-telegram-bridge"))
                .arg(unset("no-install-daemon"))
                .arg(unset("no-start-daemon"))
                .arg(switch("register-hermes"))
                .arg(text("hermes-server-name", "HERMES_SERVER_NAME").default_value("codex"))
                .arg(text("hermes-command", "HERMES_COMMAND").default_value("hermes"))
                .arg(number("pair-timeout-ms", "PAIR_TIMEOUT_MS", "60000"))
                .arg(switch("dry-run")),
        )
        .subcommand(
            leaf("doctor", "Inspect Codex setup"),
        )
        .subcommand(
            group("away", "Choose whether Codex may notify you remotely")
            .subcommand(
                leaf("on", ""),
            )
            .subcommand(
                leaf("off", ""),
            )
            .subcommand(
                leaf("status", ""),
            ),
        )
        .subcommand(
            group("remote", "Control full remote Codex mode for local desktop integrations")
            .subcommand(
                leaf("on", "Start or reuse the shared live backend and enable away mode"),
            )
            .subcommand(
                leaf("off", "Disable away mode and clear pending Telegram notifications"),
            )
            .subcommand(
                leaf("repair", "Restart the shared live backend and keep away mode enabled"),
            )
            .subcommand(
                leaf("status", "Show remote mode, backend, and pending notification state"),
            ),
        )
        .subcommand(
            leaf("threads", "List recent Codex threads")
                .arg(number("limit", "LIMIT", "25")),
        )
        .subcommand(
            leaf("follow", "Stream thread updates").hide(true)
                .arg(text("message", "MESSAGE"))
                .arg(number("duration", "DURATION", "3000"))
                .arg(number("poll-interval", "POLL_INTERVAL", "1000"))
                .arg(text("events", "EVENTS"))
                .arg(place("THREAD_ID").required(true)),
        )
        .subcommand(
            leaf("unarchive", "Unarchive a Codex thread").hide(true)
                .arg(switch("dry-run"))
                .arg(place("THREAD_ID").required(true)),
        )
        .subcommand(
            leaf("waiting", "List threads waiting for user attention")
                .arg(text("project", "PROJECT"))
                .arg(number("limit", "LIMIT", "25")),
        )
        .subcommand(
            leaf("inbox", "List actionable thread inbox rows")
                .arg(text("project", "PROJECT"))
                .arg(text("status", "STATUS"))
                .arg(text("attention", "ATTENTION"))
                .arg(text("waiting-on", "WAITING_ON"))
                .arg(number("limit", "LIMIT", "25")),
        )
        .subcommand(
            leaf("watch", "Watch for thread changes and emit JSON events").hide(true)
                .arg(switch("once"))
                .arg(text("exec", "EXEC"))
                .arg(text("events", "EVENTS")),
        )
        .subcommand(
            group("daemon", "Run and manage the proactive Codex notification daemon")
            .subcommand(
                leaf("run", "Run the proactive Codex notification daemon")
                    .arg(switch("once"))
                    .arg(number("poll-interval", "POLL_INTERVAL", "1500"))
                    .arg(number("timeout-ms", "TIMEOUT_MS", "10000")),
            )
            .subcommand(
                leaf("install", "Install the proactive notification daemon as a user service")
                    .arg(switch("dry-run"))
                    .arg(text("label", "LABEL").default_value("com.hanifcarroll.codex-telegram-bridge"))
                    .arg(text("bridge-command", "BRIDGE_COMMAND").default_value("codex-telegram-bridge")),
            )
            .subcommand(
                leaf("uninstall", "Uninstall the proactive notification daemon user service")
                    .arg(switch("dry-run"))
                    .arg(text("label", "LABEL").default_value("com.hanifcarroll.codex-telegram-bridge")),
            )
            .subcommand(
                leaf("start", "Start the proactive notification daemon user service")
                    .arg(switch("dry-run"))
                    .arg(text("label", "LABEL").default_value("com.hanifcarroll.codex-telegram-bridge")),
            )
            .subcommand(
                leaf("stop", "Stop the proactive notification daemon user service")
                    .arg(switch("dry-run"))
                    .arg(text("label", "LABEL").default_value("com.hanifcarroll.codex-telegram-bridge")),
            )
            .subcommand(
                leaf("status", "Show proactive notification daemon status")
                    .arg(text("label", "LABEL").default_value("com.hanifcarroll.codex-telegram-bridge")),
            )
            .subcommand(
                leaf("logs", "Show proactive notification daemon log paths")
                    .arg(text("label", "LABEL").default_value("com.hanifcarroll.codex-telegram-bridge")),
            ),
        )
        .subcommand(
            group("telegram", "Configure direct Telegram delivery, shared live backend, and reply routing")
            .subcommand(
                leaf("setup", "Configure the bridge-owned Telegram bot transport and shared live backend")
                    .arg(text("bot-token", "BOT_TOKEN"))
                    .arg(text("chat-id", "CHAT_ID"))
                    .arg(text("allowed-user-id", "ALLOWED_USER_ID"))
                    .arg(text("events", "EVENTS").default_value("thread_waiting,thread_completed"))
                    .arg(text("bridge-command", "BRIDGE_COMMAND").default_value("codex-telegram-bridge"))
                    .arg(text("websocket-url", "WEBSOCKET_URL").default_value("ws://127.0.0.1:4500"))
                    .arg(number("pair-timeout-ms", "PAIR_TIMEOUT_MS", "60000"))
                    .arg(switch("dry-run")),
            )
            .subcommand(
                leaf("status", "Show direct Telegram transport configuration"),
            )
            .subcommand(
                leaf("enable", "Enable direct Telegram delivery and bot polling without changing setup")
                    .arg(switch("dry-run")),
            )
            .subcommand(
                leaf("test", "Send a test Telegram notification using the bridge config")
                    .arg(text("message", "MESSAGE").default_value("Codex Telegram bridge test"))
                    .arg(number("timeout-ms", "TIMEOUT_MS", "10000"))
                    .arg(switch("dry-run")),
            )
            .subcommand(
                leaf("disable", "Disable direct Telegram delivery and bot polling without deleting setup")
                    .arg(switch("dry-run")),
            ),
        )
        .subcommand(
            group("discord", "Configure Discord delivery, shared live backend, and reply routing")
            .subcommand(
                leaf("setup", "Configure the bridge-owned Discord bot transport and shared live backend")
                    .arg(text("bot-token", "BOT_TOKEN"))
                    .arg(many("channel-id", "CHANNEL_IDS").required(true))
                    .arg(text("allowed-user-id", "ALLOWED_USER_ID"))
                    .arg(text("events", "EVENTS").default_value("thread_waiting,thread_completed"))
                    .arg(text("bridge-command", "BRIDGE_COMMAND").default_value("codex-telegram-bridge"))
                    .arg(text("websocket-url", "WEBSOCKET_URL").default_value("ws://127.0.0.1:4500"))
                    .arg(switch("dry-run")),
            )
            .subcommand(
                leaf("status", "Show Discord transport configuration"),
            )
            .subcommand(
                leaf("enable", "Enable Discord delivery and bot polling without changing setup")
                    .arg(switch("dry-run")),
            )
            .subcommand(
                leaf("test", "Send a test Discord notification using the bridge config")
                    .arg(text("message", "MESSAGE").default_value("Codex Discord bridge test"))
                    .arg(number("timeout-ms", "TIMEOUT_MS", "10000"))
                    .arg(switch("dry-run")),
            )
            .subcommand(
                leaf("disable", "Disable Discord delivery and bot polling without deleting setup")
                    .arg(switch("dry-run")),
            ),
        )
        .subcommand(
            group("projects", "Manage the curated project registry for Telegram-created threads")
            .subcommand(
                leaf("list", "List configured projects and observed workspace candidates")
                    .arg(number("observed-limit", "OBSERVED_LIMIT", "10")),
            )
            .subcommand(
                leaf("add", "Add one curated project to the registry")
                    .arg(text("id", "ID"))
                    .arg(text("label", "LABEL"))
                    .arg(many("alias", "ALIASES"))
                    .arg(switch("dry-run"))
                    .arg(place("CWD").required(true)),
            )
            .subcommand(
                leaf("import", "Import curated project entries from observed Codex workspaces")
                    .arg(number("limit", "LIMIT", "25"))
                    .arg(switch("dry-run")),
            )
            .subcommand(
                leaf("remove", "Remove one project from the curated registry")
                    .arg(switch("dry-run"))
                    .arg(place("ID").required(true)),
            ),
        )
        .subcommand(
            leaf("sync", "Sync live Codex thread state into the local cache").hide(true)
                .arg(number("limit", "LIMIT", "50")),
        )
        .subcommand(
            leaf("new", "Start a new Codex thread").hide(true)
                .arg(text("cwd", "CWD"))
                .arg(text("message", "MESSAGE"))
                .args(follow_flags())
                .arg(places("PROMPT")),
        )
        .subcommand(
            leaf("fork", "Fork a Codex thread").hide(true)
                .arg(text("message", "MESSAGE"))
                .args(follow_flags())
                .arg(place("THREAD_ID").required(true))
                .arg(places("PROMPT")),
        )
        .subcommand(
            leaf("archive", "Archive explicit threads or selected inbox rows").hide(true)
                .arg(text("thread-id", "THREAD_ID_OPTION"))
                .arg(text("project", "PROJECT"))
                .arg(text("status", "STATUS"))
                .arg(text("attention", "ATTENTION"))
                .arg(number("limit", "LIMIT", "100"))
                .arg(switch("dry-run"))
                .arg(switch("yes"))
                .arg(places("THREAD_IDS")),
        )
        .subcommand(
            leaf("show", "Show a thread with derived bridge state")
                .arg(place("THREAD_ID").required(true)),
        )
        .subcommand(
            leaf("reply", "Reply to a waiting Codex thread")
                .arg(text("message", "MESSAGE"))
                .args(follow_flags())
                .arg(place("THREAD_ID").required(true))
                .arg(places("PROMPT")),
        )
        .subcommand(
            leaf("approve", "Approve or deny a waiting approval prompt")
                .arg(text("decision", "DECISION"))
                .args(follow_flags())
                .arg(place("THREAD_ID").required(true))
                .arg(place("POSITIONAL_DECISION")),
        )
        .subcommand(
            leaf("reset", "Reset runtime state to initial (keeps config.json)")
                .arg(switch("dry-run")),
        )
        .subcommand(
            leaf("mcp", "Run a stdio MCP server for Hermes"),
        )
        .subcommand(
            group("hermes", "Install or inspect Hermes integration helpers")
            .subcommand(
                leaf("install", "Register this bridge with Hermes MCP")
                    .arg(text("server-name", "SERVER_NAME").default_value("codex"))
                    .arg(text("hermes-command", "HERMES_COMMAND").default_value("hermes"))
                    .arg(text("bridge-command", "BRIDGE_COMMAND").default_value("codex-telegram-bridge"))
                    .arg(switch("dry-run")),
            ),
        )
}

fn kind_of(error: &CliError) -> ErrorKind {
    match error {
        CliError::Help(_) => ErrorKind::DisplayHelp,
        CliError::Version => ErrorKind::DisplayVersion,
        CliError::MissingSubcommand(_) => {
            ErrorKind::DisplayHelpOnMissingArgumentOrSubcommand
        }
        CliError::InvalidSubcommand(_) => ErrorKind::InvalidSubcommand,
        CliError::UnknownArgument(_) => ErrorKind::UnknownArgument,
        CliError::MissingValue(_) => ErrorKind::InvalidValue,
        CliError::UnexpectedValue(_, _) => ErrorKind::TooManyValues,
        CliError::RepeatedArgument(_) => ErrorKind::ArgumentConflict,
        CliError::InvalidNumber(_, _) => ErrorKind::ValueValidation,
        CliError::MissingArgument(_) => ErrorKind::MissingRequiredArgument,
    }
}

/// Holds what the library says of a command line against what clap says of it.
fn compare(command: &Command, program: &str, args: &[&str]) {
    let mut line = vec![program];
    line.extend(args);
    let words: Vec<String> = line.iter().map(|word| word.to_string()).collect();
    let ours = Cli::try_parse_from(&words);
    let theirs = command.clone().try_get_matches_from(&line);
    match (ours, theirs) {
        (Ok(_), Ok(_)) => {}
        (Err(ours), Err(theirs)) => {
            assert_eq!(kind_of(&ours), theirs.kind(), "{line:?}");
            let said = ours.message(program);
            let told = theirs.render().to_string();
            match ours {
                CliError::Help(_) | CliError::Version | CliError::MissingSubcommand(_) => {
                    assert_eq!(said, told, "{line:?}");
                }
                _ => assert!(told.starts_with(said.trim_end()), "{line:?}: {said:?} {told:?}"),
            }
        }
        (ours, theirs) => panic!("{line:?}: {ours:?} {theirs:?}"),
    }
}

/// Every line of at most this many words.
fn lines(words: &[&'static str], longest: usize) -> Vec<Vec<&'static str>> {
    let mut all = vec![Vec::new()];
    let mut last = vec![Vec::new()];
    for _ in 0..longest {
        last = last
            .iter()
            .flat_map(|line: &Vec<&'static str>| {
                words.iter().map(move |word| [line.as_slice(), &[*word]].concat())
            })
            .collect();
        all.extend(last.clone());
    }
    all
}

fn paths(command: &Command, before: &[String]) -> Vec<Vec<String>> {
    let mut all = vec![before.to_vec()];
    for inner in command.get_subcommands() {
        let mut path = before.to_vec();
        path.push(inner.get_name().to_string());
        all.extend(paths(inner, &path));
    }
    all
}

#[test]
fn every_command_has_a_page_of_its_own() {
    let command = built();
    let all = paths(&command, &[]);
    assert_eq!(all.len(), 54);
    for path in &all {
        let path: Vec<&str> = path.iter().map(|word| word.as_str()).collect();
        for program in ["codex-telegram-bridge", "bridge"] {
            compare(&command, program, &[path.as_slice(), &["--help"]].concat());
            compare(&command, program, &[path.as_slice(), &["-h"]].concat());
            compare(&command, program, &[&["help"], path.as_slice()].concat());
            compare(&command, program, &path);
        }
    }
}

#[test]
fn the_long_help_is_that_of_the_whole_program() {
    assert_eq!(render_long_help(), built().render_long_help().to_string());
}

#[test]
fn groups_read_their_words() {
    let command = built();
    let words = [
        "away", "on", "help", "--", "-h", "-hx", "-Vx", "-xV", "--help", "--help=1", "--version",
        "--version=1", "--nope=1", "nope", "-",
    ];
    for line in lines(&words, 3) {
        compare(&command, "codex-telegram-bridge", &line);
    }
}

#[test]
fn commands_read_their_flags() {
    let command = built();
    let words = [
        "--limit", "--limit=5", "--limit=x", "7", "x", "", "--", "--nope", "-h", "-x1", "--help",
        "--help=1", "-",
    ];
    for line in lines(&words, 3) {
        compare(&command, "codex-telegram-bridge", &[&["threads"], line.as_slice()].concat());
        compare(&command, "codex-telegram-bridge", &[&["archive"], line.as_slice()].concat());
    }
}

#[test]
fn commands_read_their_places() {
    let command = built();
    let words = [
        "thr", "more", "--dry-run", "--dry-run=1", "--message", "--message=a", "--duration", "9",
        "--", "--nope", "-h", "-",
    ];
    for line in lines(&words, 3) {
        for verb in ["reply", "approve", "show", "new"] {
            compare(&command, "codex-telegram-bridge", &[&[verb], line.as_slice()].concat());
        }
    }
}

#[test]
fn flags_that_are_needed_are_asked_for() {
    let command = built();
    let words = ["--channel-id", "--channel-id=1", "2", "--dry-run", "--", "-h"];
    for line in lines(&words, 3) {
        let line = [&["discord", "setup"], line.as_slice()].concat();
        compare(&command, "codex-telegram-bridge", &line);
    }
}

#[test]
fn values_are_read_alike() {
    let command = built();
    let words = ["thr", "--message", "--message=a", "--dry-run", "--duration=4", "--", "more"];
    for line in lines(&words, 4) {
        let mut line = line;
        line.insert(0, "reply");
        line.insert(0, "codex-telegram-bridge");
        let given: Vec<String> = line.iter().map(|word| word.to_string()).collect();
        let (Ok(ours), Ok(theirs)) =
            (Cli::try_parse_from(&given), command.clone().try_get_matches_from(&line))
        else {
            continue;
        };
        let (_, found) = theirs.subcommand().expect("a command");
        match ours.command {
            Commands::Reply { thread_id, message, dry_run, duration, prompt, .. } => {
                assert_eq!(found.get_one::<String>("THREAD_ID"), Some(&thread_id), "{line:?}");
                assert_eq!(found.get_one::<String>("message"), message.as_ref(), "{line:?}");
                assert_eq!(found.get_flag("dry-run"), dry_run, "{line:?}");
                assert_eq!(found.get_one::<u64>("duration"), Some(&duration), "{line:?}");
                let words: Vec<String> = found
                    .get_many::<String>("PROMPT")
                    .map(|words| words.cloned().collect())
                    .unwrap_or_default();
                assert_eq!(words, prompt, "{line:?}");
            }
            other => panic!("unexpected command: {other:?}"),
        }
    }
}

#[test]
fn odd_words_are_read_alike() {
    let command = built();
    let words = [
        "--limit=", "--limit==5", "--limit=+5", "--limit=-5", "--limit=18446744073709551616",
        "--limit", "+5", "--=x", "---x", "-5", "-\u{e9}", "--message=", "--events", "-hV",
        "--version", "help", "--label", "--id=a=b", "--alias", "--alias=1", "--no-start-daemon",
    ];
    for path in paths(&command, &[]) {
        let path: Vec<&str> = path.iter().map(|word| word.as_str()).collect();
        for line in lines(&words, 1) {
            compare(&command, "codex-telegram-bridge", &[path.as_slice(), &line].concat());
        }
    }
    for line in lines(&words, 2) {
        for path in [["projects", "add"], ["projects", "import"], ["daemon", "logs"]] {
            compare(&command, "codex-telegram-bridge", &[path.as_slice(), &line].concat());
        }
    }
}
