//! The program as a whole: its tasks, its reports, its projects and its texts.
use codex_telegram_bridge::away::{get_away_mode, pending_outbound_count, set_away_mode};
use codex_telegram_bridge::cli::{CliError, Commands};
use codex_telegram_bridge::config::{
    redacted_daemon_config, telegram_config_enabled, CodexConfig, CodexLiveMode, DaemonConfig,
    DiscordConfig, RegisteredProject, TelegramConfig,
};
use codex_telegram_bridge::entry::Refusal;
use codex_telegram_bridge::error::BridgeError;
use codex_telegram_bridge::grammar::Group;
use codex_telegram_bridge::help::Page;
use codex_telegram_bridge::inbox::ObservedWorkspace;
use codex_telegram_bridge::json::Json;
use codex_telegram_bridge::live::{empty_live_backend_status, Look, LookAnswer, LookProbe};
use codex_telegram_bridge::messages::{
    telegram_help_text, telegram_new_thread_confirmation_text, telegram_notice_text,
    telegram_project_text, telegram_projects_text, telegram_status_text,
};
use codex_telegram_bridge::outbox::enqueue_outbound_event;
use codex_telegram_bridge::projects::{
    build_registered_project, ensure_unique_project_id, project_add_result, project_import_result,
    project_remove_result, projects_list_result, slugify_project_token,
};
use codex_telegram_bridge::report::{
    check_hermes_install, doctor_bridge, doctor_report, hermes_install_dry_run,
    remote_backend_required, remote_backend_status_value, remote_codex_config,
    remote_mode_off_result, remote_mode_on_result, remote_mode_started, remote_mode_status_result,
    run_hermes_install, setup_result, RemoteModeStartAction,
};
use codex_telegram_bridge::shell::{daemon_run_command, redact_secret_text, shell_quote};
use codex_telegram_bridge::state::BridgeState;
use codex_telegram_bridge::tasks::{FollowOptions, Task};
use codex_telegram_bridge::text::{
    contains, i64_text, parse_i64, parse_u64, replace, split_char, split_words,
    to_ascii_lowercase, trim, u64_text,
};
use codex_telegram_bridge::{main_entry, render_error_envelope};

fn json(text: &str) -> Json {
    convert(&serde_json::from_str::<serde_json::Value>(text).expect("json"))
}

fn convert(value: &serde_json::Value) -> Json {
    match value {
        serde_json::Value::Null => Json::Null,
        serde_json::Value::Bool(b) => Json::Bool(*b),
        serde_json::Value::Number(n) => {
            if let Some(v) = n.as_u64() {
                Json::UInt(v)
            } else if let Some(v) = n.as_i64() {
                Json::NegInt(v)
            } else {
                Json::Real(n.to_string())
            }
        }
        serde_json::Value::String(s) => Json::Str(s.clone()),
        serde_json::Value::Array(items) => Json::Array(items.iter().map(convert).collect()),
        serde_json::Value::Object(members) => Json::Object(
            members.iter().map(|(key, member)| (key.clone(), convert(member))).collect(),
        ),
    }
}

fn at<'a>(value: &'a Json, path: &[&str]) -> &'a Json {
    path.iter().fold(value, |found, key| found.get(key).expect("member"))
}

fn item(value: &Json, index: usize) -> &Json {
    &value.as_array().expect("array")[index]
}

fn text(value: &str) -> Json {
    Json::Str(value.to_string())
}

fn config_fixture(codex: Option<CodexConfig>, projects: Vec<RegisteredProject>) -> DaemonConfig {
    DaemonConfig {
        version: 4,
        bridge_command: "bridge".to_string(),
        events: "thread_waiting".to_string(),
        telegram: None,
        discord: None,
        codex,
        projects,
    }
}

fn shared(url: &str) -> CodexConfig {
    CodexConfig { live_mode: CodexLiveMode::Shared, websocket_url: url.to_string() }
}

fn words(args: &[&str]) -> Vec<String> {
    args.iter().map(|arg| arg.to_string()).collect()
}

#[test]
fn remote_status_reports_missing_config_without_failing() {
    let mut state = BridgeState::new();
    let away = get_away_mode(&mut state);

    let status = remote_mode_status_result(
        &state,
        &None,
        away,
        &Err(BridgeError::new("not looked up")),
        "/state/config.json",
        "/state",
    );

    assert_eq!(at(&status, &["ok"]), &Json::Bool(true));
    assert_eq!(at(&status, &["action"]), &text("remote_status"));
    assert_eq!(at(&status, &["configured"]), &Json::Bool(false));
    assert_eq!(at(&status, &["stateFolderPath"]), &text("/state"));
    assert_eq!(at(&status, &["away", "away"]), &Json::Bool(false));
    assert_eq!(at(&status, &["backend"]), &Json::Null);
    assert_eq!(at(&status, &["pending"]), &Json::UInt(0));
}

#[test]
fn remote_status_reports_idle_backend_when_remote_mode_is_off() {
    let websocket_url = "ws://127.0.0.1:9";
    let codex = shared(websocket_url);
    let mut state = BridgeState::new();
    let away = get_away_mode(&mut state);
    assert!(!remote_backend_required(&away));
    let (mut look, mut probe) = Look::begin(&None, &codex, false);
    while probe != LookProbe::Done {
        probe = look.advance(match probe {
            LookProbe::Discover => LookAnswer::Discovered(None),
            _ => LookAnswer::Unhealthy("connection refused".to_string()),
        });
    }

    let status = remote_mode_status_result(
        &state,
        &Some(config_fixture(Some(codex), vec![])),
        away,
        &Ok(look.status),
        "/state/config.json",
        "/state",
    );

    assert_eq!(at(&status, &["configured"]), &Json::Bool(true));
    assert_eq!(at(&status, &["codexConfigured"]), &Json::Bool(true));
    assert_eq!(at(&status, &["away", "away"]), &Json::Bool(false));
    assert_eq!(at(&status, &["backend", "websocketUrl"]), &text(websocket_url));
    assert_eq!(at(&status, &["backend", "required"]), &Json::Bool(false));
    assert_eq!(at(&status, &["backend", "state"]), &text("idle"));
    assert_eq!(at(&status, &["backend", "healthy"]), &Json::Bool(false));
    assert_eq!(at(&status, &["backend", "lastError"]), &Json::Null);
}

#[test]
fn remote_off_clears_pending_notifications() {
    let mut state = BridgeState::new();
    set_away_mode(&mut state, true, 1000);
    enqueue_outbound_event(
        &mut state,
        &json(r#"{"type":"thread_waiting","threadId":"thr_remote","updatedAt":1500}"#),
        2000,
    )
    .expect("enqueue");
    assert_eq!(pending_outbound_count(&state), 1);

    let result = remote_mode_off_result(
        &mut state,
        &None,
        &Err(BridgeError::new("not looked up")),
        "/state/config.json",
        "/state",
        3000,
    );

    assert_eq!(at(&result, &["action"]), &text("remote_off"));
    assert_eq!(at(&result, &["configured"]), &Json::Bool(false));
    assert_eq!(at(&result, &["away", "away"]), &Json::Bool(false));
    assert_eq!(at(&result, &["away", "clearedPendingNotifications"]), &Json::UInt(1));
    assert_eq!(at(&result, &["backend"]), &Json::Null);
    assert_eq!(at(&result, &["pending"]), &Json::UInt(0));
    assert_eq!(pending_outbound_count(&state), 0);
}

#[test]
fn hermes_install_dry_run_builds_mcp_add_command() {
    let install = check_hermes_install("codex", "hermes-se", "codex-telegram-bridge")
        .expect("dry-run install result");
    let result = hermes_install_dry_run(&install);

    assert_eq!(at(&result, &["action"]), &text("hermes_install"));
    assert_eq!(at(&result, &["dryRun"]), &Json::Bool(true));
    assert_eq!(at(&result, &["hermesCommand"]), &text("hermes-se"));
    assert_eq!(
        at(&result, &["args"]),
        &json(
            r#"["mcp","add","codex","--command","codex-telegram-bridge","--args","mcp"]"#
        )
    );
    assert_eq!(
        at(&result, &["mcp", "nextStep"]),
        &text("Restart Hermes so it reconnects to MCP servers and discovers codex_* tools.")
    );
    assert!(
        result.get("notificationLane").is_none(),
        "Hermes install should not configure Telegram notifications"
    );
}

#[test]
fn hermes_registrations_are_checked_and_reported() {
    assert_eq!(
        check_hermes_install(" ", "h", "b").expect_err("server").message,
        "server name cannot be empty"
    );
    assert_eq!(
        check_hermes_install("s", "", "b").expect_err("hermes").message,
        "hermes command cannot be empty"
    );
    assert_eq!(
        check_hermes_install("s", "h", "\t").expect_err("bridge").message,
        "bridge command cannot be empty"
    );
    let install = check_hermes_install(" s ", "h", "b").expect("install");
    let done = run_hermes_install(&install, true, "", " out \n", "").expect("done");
    assert_eq!(at(&done, &["mcp", "stdout"]), &text("out"));
    assert_eq!(at(&done, &["serverName"]), &text("s"));
    assert_eq!(
        run_hermes_install(&install, false, "exit status: 1", "", " bad ")
            .expect_err("failed")
            .message,
        "Hermes MCP registration failed with status exit status: 1: bad"
    );
}

#[test]
fn failures_are_rendered_as_an_envelope() {
    let plain = BridgeError::new("boom \"quoted\"\n\u{1}");
    assert_eq!(
        render_error_envelope(&plain),
        "{\"ok\":false,\"error\":{\"code\":\"internal_error\",\"message\":\"boom \\\"quoted\\\"\\n\\u0001\",\"classified\":{\"code\":\"app_server_error\",\"guidance\":null,\"message\":\"boom \\\"quoted\\\"\\n\\u0001\",\"retryable\":false}}}"
    );
    let nested = BridgeError::new("thread not loaded: thr_1").context("reading failed");
    let envelope: serde_json::Value =
        serde_json::from_str(&render_error_envelope(&nested)).expect("json");
    assert_eq!(envelope["error"]["message"], "reading failed: thread not loaded: thr_1");
    assert_eq!(envelope["error"]["classified"]["code"], "thread_not_loaded");
    assert_eq!(envelope["error"]["classified"]["retryable"], true);
}

#[test]
fn command_lines_become_tasks() {
    let program = "codex-telegram-bridge";
    assert_eq!(
        main_entry(&words(&[program, "doctor"])),
        Ok(Task::Plain(Commands::Doctor))
    );
    assert_eq!(
        main_entry(&words(&[program, "waiting", "--limit", "5"])),
        Ok(Task::Waiting { project: None, limit: 5, sync_limit: 25 })
    );
    assert_eq!(
        main_entry(&words(&[program, "watch", "--once", "--exec", "cat", "--events", "a, b,a"])),
        Ok(Task::Watch {
            once: true,
            hook: Some("cat".to_string()),
            filter: Some(vec!["a".to_string(), "b".to_string()]),
        })
    );
    assert_eq!(
        main_entry(&words(&[program, "reply", "thr_1", "go", "on", "--follow"])),
        Ok(Task::Reply {
            thread_id: "thr_1".to_string(),
            message: "go on".to_string(),
            dry_run: false,
            following: Some(FollowOptions {
                duration: 3000,
                poll_interval: 1000,
                filter: None,
                stream: false,
            }),
        })
    );
    assert_eq!(
        main_entry(&words(&[program, "approve", "thr_1", "DENY"])),
        Ok(Task::Approve {
            thread_id: "thr_1".to_string(),
            decision: "deny".to_string(),
            sent_text: "NO".to_string(),
            dry_run: false,
            following: None,
        })
    );
    assert_eq!(
        main_entry(&words(&[program, "archive"])),
        Err(Refusal::Failed(BridgeError::new(
            "Refusing bulk archive without --yes or --dry-run"
        )))
    );
    assert_eq!(
        main_entry(&words(&[program, "reply", "thr_1"])),
        Err(Refusal::Failed(BridgeError::new("Reply message cannot be empty")))
    );
    assert_eq!(
        main_entry(&words(&[program, "approve", "thr_1", "maybe"])),
        Err(Refusal::Failed(BridgeError::new("Approval decision must be approve or deny")))
    );
    assert_eq!(
        main_entry(&words(&[program, "--help"])),
        Err(Refusal::Usage(CliError::Help(Page::Group(Group::Root))))
    );
}

fn project(id: &str, cwd: &str) -> RegisteredProject {
    RegisteredProject {
        id: id.to_string(),
        label: id.to_string(),
        cwd: cwd.to_string(),
        aliases: vec![],
    }
}

#[test]
fn projects_are_added_imported_and_removed() {
    let config = config_fixture(None, vec![project("app", "/a/app")]);
    let error = project_add_result(&config, project("x", "/a/app"), false).expect_err("known");
    assert_eq!(error.message, "project cwd `/a/app` is already registered");
    let (written, report) =
        project_add_result(&config, project("x", "/a/x"), true).expect("dry run");
    assert_eq!(written, None);
    assert_eq!(at(&report, &["action"]), &text("projects_add"));
    let (written, _) = project_add_result(&config, project("x", "/a/x"), false).expect("add");
    assert_eq!(written.expect("written").projects.len(), 2);

    let seen = |cwd: &str, label: &str| ObservedWorkspace {
        cwd: cwd.to_string(),
        label: label.to_string(),
        last_seen_at: Some(5),
    };
    let observed = vec![
        seen("/b/app", "App"),
        seen("/a/app", "app"),
        seen("/b/app", "App"),
        seen("/c", "?!"),
        seen("/d", "My  Tool!"),
    ];
    let (written, report) = project_import_result(&config, &observed, false);
    let ids: Vec<String> =
        written.expect("written").projects.into_iter().map(|p| p.id).collect();
    assert_eq!(ids, vec!["app", "app-2", "project", "my-tool"]);
    assert_eq!(at(&report, &["count"]), &Json::UInt(3));
    assert_eq!(project_import_result(&config, &vec![], false).0, None);
    let listed = projects_list_result(&config, &observed);
    assert_eq!(at(&listed, &["importable"]).as_array().expect("importable").len(), 3);
    assert_eq!(at(item(at(&listed, &["observed"]), 0), &["lastSeenAt"]), &Json::UInt(5));

    let (written, report) = project_remove_result(&config, "app", false).expect("remove");
    assert_eq!(written.expect("written").projects.len(), 0);
    assert_eq!(at(&report, &["project", "cwd"]), &text("/a/app"));
    assert_eq!(
        project_remove_result(&config, "nope", true).expect_err("unknown").message,
        "project `nope` was not found"
    );
}

#[test]
fn ids_are_made_of_labels_and_kept_apart() {
    assert_eq!(slugify_project_token("--Codex  Bridge 2--").as_deref(), Some("codex-bridge-2"));
    assert_eq!(slugify_project_token(" ..."), None);
    let taken = words(&["app", "app-2", "app-4"]);
    assert_eq!(ensure_unique_project_id("app", &taken), "app-3");
    assert_eq!(ensure_unique_project_id("new", &taken), "new");
}

#[test]
fn remote_mode_is_started_and_needs_a_backend() {
    let bare = config_fixture(None, vec![]);
    assert_eq!(
        remote_codex_config(&bare).expect_err("bare").message,
        "shared Codex live backend is not configured; run setup first"
    );
    let codex = shared("ws://127.0.0.1:9");
    let config = Some(config_fixture(Some(shared("ws://127.0.0.1:9")), vec![]));
    let mut state = BridgeState::new();
    let backend = empty_live_backend_status(&codex);
    let result = remote_mode_on_result(
        &mut state,
        RemoteModeStartAction::Repair,
        &config,
        &backend,
        "/c",
        "/s",
        77,
    );
    assert_eq!(at(&result, &["action"]), &text("remote_repair"));
    assert_eq!(result.get("telegramEnabled"), None);
    assert_eq!(result.get("discordEnabled"), None);
    assert_eq!(at(&result, &["discordConfigured"]), &Json::Bool(false));
    assert_eq!(at(&result, &["away", "awayStartedAt"]), &Json::UInt(77));
    let failed = remote_backend_status_value(
        &config,
        true,
        &Err(BridgeError::new("inner").context("outer")),
    );
    assert_eq!(at(&failed, &["state"]), &text("unhealthy"));
    assert_eq!(at(&failed, &["lastError"]), &text("outer: inner"));
}

#[test]
fn remote_mode_stays_off_without_a_backend() {
    let config = Some(config_fixture(Some(shared("ws://127.0.0.1:9")), vec![]));
    let mut state = BridgeState::new();
    for action in [RemoteModeStartAction::On, RemoteModeStartAction::Repair] {
        let failed = remote_mode_started(
            &mut state,
            action,
            &config,
            Err(BridgeError::new("no codex")),
            "/c",
            "/s",
            77,
        );
        assert_eq!(failed.expect_err("backend").message, "no codex");
        assert!(state.settings.is_empty());
    }
    let backend = empty_live_backend_status(&shared("ws://127.0.0.1:9"));
    let started = remote_mode_started(
        &mut state,
        RemoteModeStartAction::On,
        &config,
        Ok(backend),
        "/c",
        "/s",
        78,
    )
    .expect("started");
    assert_eq!(at(&started, &["action"]), &text("remote_on"));
    assert_eq!(at(&started, &["away", "awayStartedAt"]), &Json::UInt(78));
}

#[test]
fn new_projects_are_named_after_their_directory() {
    let existing = vec![project("app", "/w/app")];
    let made = |cwd: &str, id: Option<&str>, label: Option<&str>| {
        build_registered_project(
            cwd,
            id.map(|text| text.to_string()),
            label.map(|text| text.to_string()),
            vec!["a".to_string()],
            &existing,
        )
    };
    let plain = made("/x/app", None, None).expect("plain");
    assert_eq!((plain.id.as_str(), plain.label.as_str()), ("app-2", "app"));
    assert_eq!(plain.aliases, vec!["a"]);
    let named = made("/x/y", Some("z"), Some("Zed")).expect("named");
    assert_eq!((named.id.as_str(), named.label.as_str(), named.cwd.as_str()), ("z", "Zed", "/x/y"));
    assert_eq!(
        made("/x/y", Some("app"), None).expect_err("taken").message,
        "project id `app` is already registered"
    );
}

#[test]
fn messages_name_what_they_are_about() {
    let mut state = BridgeState::new();
    assert_eq!(
        telegram_status_text(&state),
        "Remote Codex mode is off.\nPending Telegram notifications: 0"
    );
    set_away_mode(&mut state, true, 1000);
    assert!(telegram_status_text(&state).starts_with("Remote Codex mode is on."));
    let config = config_fixture(None, vec![project("app", "/w/app")]);
    assert_eq!(
        telegram_projects_text(&config, &None),
        "No project is selected.\n- app: app (/w/app)"
    );
    assert!(telegram_projects_text(&config, &Some(project("app", "/w/app")))
        .starts_with("Current project: app (app)"));
    assert_eq!(
        telegram_project_text(&project("app", "/w/app")),
        "New Telegram threads start in app (/w/app)."
    );
    assert!(telegram_new_thread_confirmation_text(&project("app", "/w/app"))
        .starts_with("Started a new Codex thread in app."));
    assert!(telegram_help_text().starts_with("Codex remote is ready."));
    let event =
        json(r#"{"type":"thread_completed","threadId":"thr_9","lastPreview":"All\n\ndone."}"#);
    let notice = telegram_notice_text(&event);
    assert!(notice.starts_with("Codex is done\n\nAll\n\ndone.\n\n"));
    assert!(!notice.contains("thr_9"));
    assert!(telegram_notice_text(&json(r#"{"type":"thread_waiting"}"#))
        .starts_with("Codex is waiting for you"));
}

#[test]
fn telegram_is_enabled_once_it_is_configured() {
    assert!(!telegram_config_enabled(&None));
    let telegram = TelegramConfig {
        bot_token: "t".to_string(),
        chat_id: "1".to_string(),
        allowed_user_id: None,
    };
    assert!(telegram_config_enabled(&Some(telegram)));
}

#[test]
fn the_doctor_reports_what_it_finds() {
    let bridge = doctor_bridge(
        "/c",
        false,
        &None,
        &Err(BridgeError::new("unused")),
        "/service",
        true,
        &json(
            r#"{"serviceStatus":{"loaded":true,"running":false,"state":"idle"},"healthy":true}"#,
        ),
    );
    assert_eq!(at(&bridge, &["daemon_service_loaded"]), &Json::Bool(true));
    assert_eq!(bridge.get("telegram_enabled"), None);
    assert_eq!(bridge.get("discord_enabled"), None);
    assert_eq!(at(&bridge, &["daemon_running"]), &Json::Bool(false));
    assert_eq!(at(&bridge, &["daemon_state"]), &text("idle"));
    assert_eq!(at(&bridge, &["daemon_healthy"]), &Json::Bool(true));
    assert_eq!(at(&bridge, &["next_step"]), &Json::Null);
    assert_eq!(
        at(&bridge, &["live_backend_error"]),
        &text("shared Codex live backend is not configured")
    );
    let report =
        doctor_report("/bin/codex", "path", true, "codex 1.0\n", bridge.clone()).expect("report");
    assert_eq!(at(&report, &["codex", "version_stdout"]), &text("codex 1.0"));
    assert_eq!(
        doctor_report("/bin/codex", "path", false, "", bridge).expect_err("failed").message,
        "codex binary /bin/codex returned non-zero exit status for --version"
    );
}

#[test]
fn setups_are_reported_in_parts() {
    let report = setup_result(true, "/bin/codex", "path", json("{}"), Some(json("1")), None, None);
    assert_eq!(at(&report, &["daemon", "install"]), &Json::UInt(1));
    assert_eq!(at(&report, &["daemon", "start"]), &Json::Null);
    assert_eq!(at(&report, &["hermes"]), &Json::Null);
    assert!(report.get_text("nextStep").expect("step").starts_with("Run setup without --dry-run"));
}

#[test]
fn texts_are_quoted_for_the_shell() {
    assert_eq!(shell_quote("/usr/bin/codex-1.0"), "/usr/bin/codex-1.0");
    assert_eq!(shell_quote(""), "''");
    assert_eq!(shell_quote("it's here"), "'it'\\''s here'");
    assert_eq!(daemon_run_command("my bridge"), "'my bridge' daemon run");
}

#[test]
fn secrets_are_taken_out_of_texts() {
    assert_eq!(redact_secret_text("a 123:abc b 123:abc", "123:abc"), "a <redacted> b <redacted>");
    assert_eq!(redact_secret_text("a b", ""), "a b");
    assert_eq!(redact_secret_text("abab", "ab"), "<redacted><redacted>");
}

#[test]
fn configurations_are_shown_without_tokens() {
    let mut config = config_fixture(None, vec![]);
    config.telegram = Some(TelegramConfig {
        bot_token: "telegram-secret".to_string(),
        chat_id: "1".to_string(),
        allowed_user_id: None,
    });
    config.discord = Some(DiscordConfig {
        bot_token: "discord-secret".to_string(),
        channel_id: "2".to_string(),
        channel_ids: vec![],
        allowed_user_id: None,
        enabled: false,
    });
    let shown = format!("{:?}", redacted_daemon_config(&config));
    assert!(!shown.contains("telegram-secret"));
    assert!(!shown.contains("discord-secret"));
    assert!(shown.contains("<redacted>"));
}

#[test]
fn texts_are_read_like_the_standard_library_reads_them() {
    for sample in ["", "  a b\t", "\u{a0}x\u{2003}", "x=y=z", "ÄB", "a\nb", "''"] {
        assert_eq!(trim(sample), sample.trim());
        assert_eq!(
            split_words(sample),
            sample.split_whitespace().map(|w| w.to_string()).collect::<Vec<_>>()
        );
        assert_eq!(
            split_char(sample, '='),
            sample.split('=').map(|w| w.to_string()).collect::<Vec<_>>()
        );
        assert_eq!(to_ascii_lowercase(sample), sample.to_ascii_lowercase());
        assert_eq!(replace(sample, "a", "bb"), sample.replace("a", "bb"));
        assert_eq!(contains(sample, "b"), sample.contains("b"));
    }
    for sample in ["0", "+7", "-7", "007", "", "+", "18446744073709551615", "18446744073709551616"] {
        assert_eq!(parse_u64(sample), sample.parse::<u64>().ok());
        assert_eq!(parse_i64(sample), sample.parse::<i64>().ok());
    }
    assert_eq!(u64_text(u64::MAX), u64::MAX.to_string());
    assert_eq!(i64_text(i64::MIN), i64::MIN.to_string());
}
