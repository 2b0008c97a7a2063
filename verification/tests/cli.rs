//! The command line: which commands are accepted, and what they are read as.
use codex_telegram_bridge::cli::{
    AwayCommands, Cli, CliError, Commands, DaemonCommands, DiscordCommands,
    HermesCommands, ProjectCommands, RemoteCommands, TelegramCommands, VERSION,
};
use codex_telegram_bridge::grammar::{Group, Verb};
use codex_telegram_bridge::help::{render_long_help, render_page, Page};

fn words(args: &[&str]) -> Vec<String> {
    args.iter().map(|arg| arg.to_string()).collect()
}

fn parse(args: &[&str]) -> Result<Cli, CliError> {
    Cli::try_parse_from(&words(args))
}

fn refused(args: &[&str]) -> CliError {
    parse(args).expect_err("the command line is refused")
}

#[test]
fn cli_accepts_hermes_install_command() {
    let parsed = parse(&[
        "codex-telegram-bridge",
        "hermes",
        "install",
        "--server-name",
        "codex",
        "--hermes-command",
        "hermes-se",
        "--bridge-command",
        "codex-telegram-bridge",
        "--dry-run",
    ]);
    assert!(parsed.is_ok(), "hermes install should parse: {parsed:?}");
}

#[test]
fn cli_accepts_mcp_server_command() {
    let parsed = parse(&["codex-telegram-bridge", "mcp"]);
    assert!(parsed.is_ok(), "mcp command should parse: {parsed:?}");

    let help = render_long_help();
    assert!(help.contains("Run a stdio MCP server for Hermes"));
}

#[test]
fn cli_accepts_daemon_lifecycle_commands() {
    for args in [
        vec!["codex-telegram-bridge", "daemon", "run", "--once"],
        vec![
            "codex-telegram-bridge",
            "daemon",
            "install",
            "--dry-run",
            "--bridge-command",
            "codex-telegram-bridge",
        ],
        vec!["codex-telegram-bridge", "daemon", "start", "--dry-run"],
        vec!["codex-telegram-bridge", "daemon", "stop", "--dry-run"],
        vec!["codex-telegram-bridge", "daemon", "status"],
        vec!["codex-telegram-bridge", "daemon", "logs"],
    ] {
        let parsed = parse(&args);
        assert!(
            parsed.is_ok(),
            "daemon command should parse: {args:?}: {parsed:?}"
        );
    }
}

#[test]
fn cli_accepts_ts_composed_follow_flags() {
    let new_cli = parse(&[
        "codex-telegram-bridge",
        "new",
        "--message",
        "hello",
        "--follow",
        "--stream",
        "--duration",
        "500",
        "--poll-interval",
        "100",
        "--events",
        "follow_snapshot,item_completed",
    ]);
    assert!(
        new_cli.is_ok(),
        "new should accept follow flags: {new_cli:?}"
    );

    let reply_cli = parse(&[
        "codex-telegram-bridge",
        "reply",
        "thr_1",
        "--message",
        "ok",
        "--follow",
        "--duration",
        "500",
        "--events",
        "item_completed",
    ]);
    assert!(
        reply_cli.is_ok(),
        "reply should accept follow flags: {reply_cli:?}"
    );

    let approve_cli = parse(&[
        "codex-telegram-bridge",
        "approve",
        "thr_1",
        "approve",
        "--follow",
        "--stream",
    ]);
    assert!(
        approve_cli.is_ok(),
        "approve should accept positional decision and follow flags: {approve_cli:?}"
    );

    let fork_cli = parse(&[
        "codex-telegram-bridge",
        "fork",
        "thr_1",
        "--message",
        "try again",
        "--follow",
    ]);
    assert!(
        fork_cli.is_ok(),
        "fork should accept follow flags: {fork_cli:?}"
    );
}

#[test]
fn cli_accepts_telegram_setup_and_status_commands() {
    let parsed = parse(&[
        "codex-telegram-bridge",
        "telegram",
        "setup",
        "--bot-token",
        "123:abc",
        "--chat-id",
        "456",
        "--websocket-url",
        "ws://127.0.0.1:4500",
        "--dry-run",
    ])
    .expect("telegram setup should parse");
    match parsed.command {
        Commands::Telegram {
            command:
                TelegramCommands::Setup {
                    websocket_url,
                    dry_run,
                    ..
                },
        } => {
            assert_eq!(websocket_url, "ws://127.0.0.1:4500");
            assert!(dry_run);
        }
        other => panic!("unexpected command: {other:?}"),
    }

    for args in [
        vec!["codex-telegram-bridge", "telegram", "status"],
        vec!["codex-telegram-bridge", "telegram", "enable", "--dry-run"],
        vec![
            "codex-telegram-bridge",
            "telegram",
            "test",
            "--message",
            "hello",
            "--dry-run",
        ],
        vec!["codex-telegram-bridge", "telegram", "disable", "--dry-run"],
    ] {
        let parsed = parse(&args);
        assert!(
            parsed.is_ok(),
            "telegram command should parse: {args:?}: {parsed:?}"
        );
    }
}

#[test]
fn cli_accepts_discord_setup_and_status_commands() {
    let parsed = parse(&[
        "codex-telegram-bridge",
        "discord",
        "setup",
        "--bot-token",
        "secret",
        "--channel-id",
        "123",
        "--allowed-user-id",
        "456",
        "--websocket-url",
        "ws://127.0.0.1:4500",
        "--dry-run",
    ])
    .expect("discord setup should parse");
    match parsed.command {
        Commands::Discord {
            command:
                DiscordCommands::Setup {
                    channel_ids,
                    websocket_url,
                    dry_run,
                    ..
                },
        } => {
            assert_eq!(channel_ids, vec!["123"]);
            assert_eq!(websocket_url, "ws://127.0.0.1:4500");
            assert!(dry_run);
        }
        other => panic!("unexpected command: {other:?}"),
    }

    for args in [
        vec!["codex-telegram-bridge", "discord", "status"],
        vec!["codex-telegram-bridge", "discord", "enable", "--dry-run"],
        vec![
            "codex-telegram-bridge",
            "discord",
            "test",
            "--message",
            "hello",
            "--dry-run",
        ],
        vec!["codex-telegram-bridge", "discord", "disable", "--dry-run"],
    ] {
        let parsed = parse(&args);
        assert!(
            parsed.is_ok(),
            "discord command should parse: {args:?}: {parsed:?}"
        );
    }
}

#[test]
fn cli_accepts_status_surface_commands() {
    for args in [
        vec!["codex-telegram-bridge", "doctor"],
        vec!["codex-telegram-bridge", "daemon", "status"],
        vec!["codex-telegram-bridge", "telegram", "status"],
        vec!["codex-telegram-bridge", "discord", "status"],
    ] {
        let parsed = parse(&args);
        assert!(
            parsed.is_ok(),
            "status command should parse: {args:?}: {parsed:?}"
        );
    }
}

#[test]
fn cli_rejects_legacy_hermes_notification_flags() {
    let parsed = parse(&[
        "codex-telegram-bridge",
        "hermes",
        "install",
        "--hermes-command",
        "hermes-se",
        "--webhook-deliver",
        "telegram",
        "--webhook-deliver-chat-id",
        "12345",
        "--webhook-secret",
        "test-secret",
        "--dry-run",
    ]);
    assert!(
        parsed.is_err(),
        "Hermes install should stay MCP-only; Telegram setup owns notifications"
    );
}

#[test]
fn cli_rejects_legacy_hermes_post_webhook_command() {
    let parsed = parse(&[
        "codex-telegram-bridge",
        "hermes",
        "post-webhook",
        "--url",
        "http://localhost:8644/webhooks/codex-watch",
        "--secret",
        "test-secret",
    ]);
    assert!(
        parsed.is_err(),
        "hermes post-webhook should not be part of the product surface"
    );
}

#[test]
fn cli_accepts_product_setup_command() {
    let parsed = parse(&[
        "codex-telegram-bridge",
        "setup",
        "--bot-token",
        "123:abc",
        "--chat-id",
        "456",
        "--allowed-user-id",
        "789",
        "--websocket-url",
        "ws://127.0.0.1:4500",
        "--no-install-daemon",
        "--no-start-daemon",
        "--dry-run",
    ])
    .expect("setup command should parse");
    match parsed.command {
        Commands::Setup {
            websocket_url,
            install_daemon,
            start_daemon,
            dry_run,
            ..
        } => {
            assert_eq!(websocket_url, "ws://127.0.0.1:4500");
            assert!(!install_daemon);
            assert!(!start_daemon);
            assert!(dry_run);
        }
        other => panic!("unexpected command: {other:?}"),
    }
}

#[test]
fn cli_rejects_experimental_realtime_flag_for_stable_surface() {
    let parsed = parse(&[
        "codex-telegram-bridge",
        "follow",
        "thr_1",
        "--experimental-realtime",
    ]);
    assert!(
        parsed.is_err(),
        "experimental realtime should not be part of the stable v0.1 CLI"
    );
}

#[test]
fn cli_accepts_ts_archive_filter_flags() {
    let cli = parse(&[
        "codex-telegram-bridge",
        "archive",
        "--thread-id",
        "thr_1,thr_2",
        "--project",
        "bridge",
        "--status",
        "active",
        "--attention",
        "completed",
        "--limit",
        "5",
        "--dry-run",
    ]);
    assert!(
        cli.is_ok(),
        "archive should accept filter flags: {cli:?}"
    );
}

#[test]
fn cli_exposes_version_and_command_descriptions() {
    assert_eq!(VERSION, "0.1.1");

    let help = render_long_help();
    assert!(help.contains("Inspect Codex setup"));
    assert!(help.contains("Configure Telegram delivery"));
    assert!(!help.contains("Stream thread updates"));
    assert!(!help.contains("Watch for thread changes"));
    assert!(!help.contains("Sync live Codex thread state"));
    assert!(!help.contains("Start a new Codex thread"));
    assert!(!help.contains("Fork a Codex thread"));
    assert!(!help.contains("Archive explicit threads"));
    assert!(!help.contains("Unarchive a Codex thread"));
}

#[test]
fn cli_accepts_reset_command() {
    let parsed = parse(&["codex-telegram-bridge", "reset", "--dry-run"])
        .expect("reset should parse");
    match parsed.command {
        Commands::Reset { dry_run } => assert!(dry_run),
        other => panic!("unexpected command: {other:?}"),
    }

    let parsed = parse(&["codex-telegram-bridge", "reset"])
        .expect("reset without flags should parse");
    match parsed.command {
        Commands::Reset { dry_run } => assert!(!dry_run),
        other => panic!("unexpected command: {other:?}"),
    }
}

#[test]
fn cli_accepts_project_registry_commands() {
    for args in [
        vec!["codex-telegram-bridge", "projects", "list"],
        vec![
            "codex-telegram-bridge",
            "projects",
            "add",
            "/Users/hanifcarroll/projects/tools/codex-telegram-bridge",
            "--id",
            "bridge",
            "--label",
            "Codex Telegram Bridge",
            "--alias",
            "codex",
        ],
        vec![
            "codex-telegram-bridge",
            "projects",
            "import",
            "--limit",
            "10",
        ],
        vec![
            "codex-telegram-bridge",
            "projects",
            "remove",
            "bridge",
            "--dry-run",
        ],
    ] {
        let parsed = parse(&args);
        assert!(
            parsed.is_ok(),
            "projects command should parse: {args:?}: {parsed:?}"
        );
    }
}

#[test]
fn defaults_stand_for_flags_that_are_not_given() {
    assert_eq!(
        parse(&["codex-telegram-bridge", "setup"]).expect("setup").command,
        Commands::Setup {
            bot_token: None,
            chat_id: None,
            allowed_user_id: None,
            events: "thread_waiting,thread_completed".to_string(),
            bridge_command: "codex-telegram-bridge".to_string(),
            websocket_url: "ws://127.0.0.1:4500".to_string(),
            daemon_label: "com.hanifcarroll.codex-telegram-bridge".to_string(),
            install_daemon: true,
            start_daemon: true,
            register_hermes: false,
            hermes_server_name: "codex".to_string(),
            hermes_command: "hermes".to_string(),
            pair_timeout_ms: 60_000,
            dry_run: false,
        }
    );
    assert_eq!(
        parse(&["codex-telegram-bridge", "threads"]).expect("threads").command,
        Commands::Threads { limit: 25 }
    );
    assert_eq!(
        parse(&["codex-telegram-bridge", "sync"]).expect("sync").command,
        Commands::Sync { limit: 50 }
    );
    assert_eq!(
        parse(&["codex-telegram-bridge", "follow", "thr_1"]).expect("follow").command,
        Commands::Follow {
            thread_id: "thr_1".to_string(),
            message: None,
            duration: 3000,
            poll_interval: 1000,
            events: None,
        }
    );
    assert_eq!(
        parse(&["codex-telegram-bridge", "daemon", "run"]).expect("daemon run").command,
        Commands::Daemon {
            command: DaemonCommands::Run { once: false, poll_interval: 1500, timeout_ms: 10_000 }
        }
    );
    assert_eq!(
        parse(&["codex-telegram-bridge", "projects", "list"]).expect("list").command,
        Commands::Projects { command: ProjectCommands::List { observed_limit: 10 } }
    );
    assert_eq!(
        parse(&["codex-telegram-bridge", "hermes", "install"]).expect("install").command,
        Commands::Hermes {
            command: HermesCommands::Install {
                server_name: "codex".to_string(),
                hermes_command: "hermes".to_string(),
                bridge_command: "codex-telegram-bridge".to_string(),
                dry_run: false,
            }
        }
    );
    assert_eq!(
        parse(&["codex-telegram-bridge", "away", "on"]).expect("away on").command,
        Commands::Away { command: AwayCommands::On }
    );
    assert_eq!(
        parse(&["codex-telegram-bridge", "remote", "repair"]).expect("remote repair").command,
        Commands::Remote { command: RemoteCommands::Repair }
    );
}

#[test]
fn values_are_attached_or_stand_alone() {
    let attached = parse(&["codex-telegram-bridge", "threads", "--limit=7"]);
    let alone = parse(&["codex-telegram-bridge", "threads", "--limit", "7"]);
    assert_eq!(attached, alone);
    assert_eq!(attached.expect("threads").command, Commands::Threads { limit: 7 });
    assert_eq!(
        parse(&["codex-telegram-bridge", "threads", "--limit", "+7"]).expect("plus").command,
        Commands::Threads { limit: 7 }
    );
}

#[test]
fn words_after_two_hyphens_are_no_flags() {
    let parsed = parse(&[
        "codex-telegram-bridge",
        "reply",
        "thr_1",
        "please",
        "--dry-run",
        "--",
        "--message",
        "-x",
    ])
    .expect("reply");
    match parsed.command {
        Commands::Reply { thread_id, message, dry_run, prompt, .. } => {
            assert_eq!(thread_id, "thr_1");
            assert_eq!(message, None);
            assert!(dry_run);
            assert_eq!(prompt, vec!["please", "--message", "-x"]);
        }
        other => panic!("unexpected command: {other:?}"),
    }
}

#[test]
fn flags_that_may_repeat_keep_every_value() {
    let parsed = parse(&[
        "codex-telegram-bridge",
        "discord",
        "setup",
        "--channel-id",
        "1",
        "--channel-id=2",
    ])
    .expect("discord setup");
    match parsed.command {
        Commands::Discord { command: DiscordCommands::Setup { channel_ids, dry_run, .. } } => {
            assert_eq!(channel_ids, vec!["1", "2"]);
            assert!(!dry_run);
        }
        other => panic!("unexpected command: {other:?}"),
    }
}

#[test]
fn every_kind_of_mistake_is_told() {
    let program = "codex-telegram-bridge";
    assert_eq!(refused(&[program]), CliError::MissingSubcommand(Group::Root));
    assert_eq!(refused(&[]), CliError::MissingSubcommand(Group::Root));
    assert_eq!(refused(&[program, "daemon"]), CliError::MissingSubcommand(Group::Daemon));
    assert_eq!(refused(&[program, "--help"]), CliError::Help(Page::Group(Group::Root)));
    assert_eq!(refused(&[program, "-hx"]), CliError::Help(Page::Group(Group::Root)));
    assert_eq!(refused(&[program, "help"]), CliError::Help(Page::Group(Group::Root)));
    assert_eq!(refused(&[program, "help", "help"]), CliError::Help(Page::Help(Group::Root)));
    assert_eq!(refused(&[program, "away", "-h"]), CliError::Help(Page::Group(Group::Away)));
    assert_eq!(refused(&[program, "threads", "-h"]), CliError::Help(Page::Verb(Verb::Threads)));
    assert_eq!(
        refused(&[program, "threads", "--help"]),
        CliError::Help(Page::Verb(Verb::Threads))
    );
    assert_eq!(refused(&[program, "help", "reply"]), CliError::Help(Page::Verb(Verb::Reply)));
    assert_eq!(
        refused(&[program, "help", "nope"]),
        CliError::InvalidSubcommand("nope".to_string())
    );
    assert_eq!(refused(&[program, "--version"]), CliError::Version);
    assert_eq!(refused(&[program, "-V"]), CliError::Version);
    assert_eq!(refused(&[program, "-Vx"]), CliError::Version);
    assert_eq!(refused(&[program, "-xV"]), CliError::UnknownArgument("-x".to_string()));
    assert_eq!(refused(&[program, "--", "reply"]), CliError::UnknownArgument("reply".to_string()));
    assert_eq!(refused(&[program, "--", "nope"]), CliError::InvalidSubcommand("nope".to_string()));
    assert_eq!(refused(&[program, "nope"]), CliError::InvalidSubcommand("nope".to_string()));
    assert_eq!(
        refused(&[program, "daemon", "--version"]),
        CliError::UnknownArgument("--version".to_string())
    );
    assert_eq!(
        refused(&[program, "doctor", "--nope=1"]),
        CliError::UnknownArgument("--nope".to_string())
    );
    assert_eq!(
        refused(&[program, "doctor", "-x1"]),
        CliError::UnknownArgument("-x".to_string())
    );
    assert_eq!(
        refused(&[program, "show", "thr_1", "thr_2"]),
        CliError::UnknownArgument("thr_2".to_string())
    );
    assert_eq!(
        refused(&[program, "threads", "--limit"]),
        CliError::MissingValue("--limit <LIMIT>".to_string())
    );
    assert_eq!(
        refused(&[program, "new", "--message", "--follow"]),
        CliError::MissingValue("--message <MESSAGE>".to_string())
    );
    assert_eq!(
        refused(&[program, "new", "--message", "--nope"]),
        CliError::UnknownArgument("--nope".to_string())
    );
    assert_eq!(
        refused(&[program, "reset", "--dry-run=yes"]),
        CliError::UnexpectedValue("--dry-run".to_string(), "yes".to_string())
    );
    assert_eq!(
        refused(&[program, "reset", "--dry-run", "--dry-run"]),
        CliError::RepeatedArgument("--dry-run".to_string())
    );
    assert_eq!(
        refused(&[program, "threads", "--limit", "1", "--limit", "2"]),
        CliError::RepeatedArgument("--limit <LIMIT>".to_string())
    );
    assert_eq!(
        refused(&[program, "threads", "--limit", "many"]),
        CliError::InvalidNumber("--limit <LIMIT>".to_string(), "many".to_string())
    );
    assert_eq!(refused(&[program, "show"]), CliError::MissingArgument("<THREAD_ID>".to_string()));
    assert_eq!(
        refused(&[program, "projects", "add"]),
        CliError::MissingArgument("<CWD>".to_string())
    );
    assert_eq!(
        refused(&[program, "projects", "remove"]),
        CliError::MissingArgument("<ID>".to_string())
    );
    assert_eq!(
        refused(&[program, "discord", "setup"]),
        CliError::MissingArgument("--channel-id <CHANNEL_IDS>".to_string())
    );
}

#[test]
fn mistakes_are_told_in_words() {
    let program = "codex-telegram-bridge";
    let told = |args: &[&str]| refused(args).message(program);
    assert_eq!(told(&[program, "show", "--x"]), "error: unexpected argument '--x' found\n");
    assert_eq!(told(&[program, "nope"]), "error: unrecognized subcommand 'nope'\n");
    assert_eq!(
        told(&[program, "threads", "--limit"]),
        "error: a value is required for '--limit <LIMIT>' but none was supplied\n"
    );
    assert_eq!(
        told(&[program, "threads", "--limit", "many"]),
        "error: invalid value 'many' for '--limit <LIMIT>'\n"
    );
    assert_eq!(
        told(&[program, "reset", "--dry-run=yes"]),
        "error: unexpected value 'yes' for '--dry-run' found; no more were expected\n"
    );
    assert_eq!(
        told(&[program, "reset", "--dry-run", "--dry-run"]),
        "error: the argument '--dry-run' cannot be used multiple times\n"
    );
    assert_eq!(
        told(&[program, "show"]),
        "error: the following required arguments were not provided:\n  <THREAD_ID>\n"
    );
    assert_eq!(told(&[program, "-V"]), "codex-telegram-bridge 0.1.1\n");
    assert_eq!(told(&[program]), render_page(program, Page::Group(Group::Root)));
}

#[test]
fn pages_tell_of_their_command() {
    let page = refused(&["bridge", "show", "--help"]).message("bridge");
    assert_eq!(
        page,
        "Show a thread with derived bridge state\n\nUsage: bridge show <THREAD_ID>\n\n\
         Arguments:\n  <THREAD_ID>  \n\nOptions:\n  -h, --help  Print help\n"
    );
    let page = refused(&["bridge", "away"]).message("bridge");
    assert_eq!(
        page,
        "Choose whether Codex may notify you remotely\n\nUsage: bridge away <COMMAND>\n\n\
         Commands:\n  on      \n  off     \n  status  \n  \
         help    Print this message or the help of the given subcommand(s)\n\n\
         Options:\n  -h, --help  Print help\n"
    );
}
