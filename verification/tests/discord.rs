//! Discord: its messages, its commands, its deliveries and its setup.
use codex_telegram_bridge::config::{
    CodexConfig, CodexLiveMode, DaemonConfig, DiscordConfig, RegisteredProject,
};
use codex_telegram_bridge::discord::{
    begin_discord_channel, clear_discord_typing_indicator, discord_cursor_key, discord_typing_key,
    parse_discord_command_text, parse_discord_threads_limit, process_discord_channel_messages,
    refresh_discord_typing_indicators, register_discord_typing_indicator, route_discord_message,
    settle_typing, sort_discord_messages, typing_shown, typing_step, Batch, ChannelStart,
    DiscordInboundCommand, MessageRoute, TypingChange, TypingStep,
};
use codex_telegram_bridge::discord_commands::{
    check_discord_request, choose_discord_project, current_project_for_identity,
    deliver_prepared_discord_delivery, discord_authorization, discord_away, discord_message_list,
    discord_messages_path, discord_request_failure, discord_response, discord_send_message,
    discord_set_enabled_result, discord_setup, discord_setup_result, discord_status_result,
    discord_trigger_typing, execute_discord_command, execute_discord_command_prompt_reply,
    finish_outgoing, new_thread_confirmation_text, note_discord_part, plan_new_thread,
    prepared_discord_texts, send_new_thread_confirmation, send_new_thread_prompt_for_project,
    start_new_thread_from_discord, DiscordBody, DiscordPlan, NewThreadPlan, PromptReplyPlan,
};
use codex_telegram_bridge::error::BridgeError;
use codex_telegram_bridge::json::Json;
use codex_telegram_bridge::live::empty_live_backend_status;
use codex_telegram_bridge::projects::resolve_project_query;
use codex_telegram_bridge::settings::{
    get_setting_number, get_setting_text, list_settings_with_prefix, set_setting_text,
};
use codex_telegram_bridge::state::BridgeState;

fn json(text: &str) -> Json {
    convert(&serde_json::from_str::<serde_json::Value>(text).expect("json"))
}

fn convert(value: &serde_json::Value) -> Json {
    match value {
        serde_json::Value::Null => Json::Null,
        serde_json::Value::Bool(b) => Json::Bool(*b),
        serde_json::Value::Number(n) => {
            if let Some(v) = n.as_u64() {
                Json::UInt(v)
            } else if let Some(v) = n.as_i64() {
                Json::NegInt(v)
            } else {
                Json::Real(n.to_string())
            }
        }
        serde_json::Value::String(s) => Json::Str(s.clone()),
        serde_json::Value::Array(items) => Json::Array(items.iter().map(convert).collect()),
        serde_json::Value::Object(members) => Json::Object(
            members.iter().map(|(key, member)| (key.clone(), convert(member))).collect(),
        ),
    }
}

fn at<'a>(value: &'a Json, path: &[&str]) -> &'a Json {
    path.iter().fold(value, |found, key| found.get(key).expect("member"))
}

fn text(value: &str) -> Json {
    Json::Str(value.to_string())
}

fn discord_fixture() -> DiscordConfig {
    DiscordConfig {
        bot_token: "fake-token".to_string(),
        channel_id: "111".to_string(),
        channel_ids: Vec::new(),
        allowed_user_id: Some("789".to_string()),
        enabled: true,
    }
}

fn project_fixture(id: &str) -> RegisteredProject {
    RegisteredProject {
        id: id.to_string(),
        label: format!("Label {id}"),
        cwd: format!("/work/{id}"),
        aliases: vec![format!("{id}-alias")],
    }
}

fn config_fixture(projects: Vec<RegisteredProject>) -> DaemonConfig {
    DaemonConfig {
        version: 4,
        bridge_command: "codex-telegram-bridge".to_string(),
        events: "thread_waiting,thread_completed".to_string(),
        telegram: None,
        discord: Some(discord_fixture()),
        codex: Some(CodexConfig {
            live_mode: CodexLiveMode::Shared,
            websocket_url: "ws://127.0.0.1:9".to_string(),
        }),
        projects,
    }
}

fn begun(
    state: &mut BridgeState,
    discord: &DiscordConfig,
    cursor_key: &str,
    after: u64,
    messages: &Vec<Json>,
) -> Batch {
    match begin_discord_channel(state, discord, cursor_key, Some(after), messages) {
        ChannelStart::Begun(batch) => batch,
        other => panic!("a batch begins: {other:?}"),
    }
}

#[test]
fn discord_command_parser_supports_core_commands() {
    assert_eq!(parse_discord_command_text("/away"), Some(DiscordInboundCommand::Away));
    assert_eq!(
        parse_discord_command_text("/new Fix the formatter"),
        Some(DiscordInboundCommand::NewThread(Some("Fix the formatter".to_string())))
    );
    assert_eq!(
        parse_discord_command_text("/threads 10"),
        Some(DiscordInboundCommand::Threads(Some("10".to_string())))
    );
    assert_eq!(parse_discord_command_text("hello"), None);
}

#[test]
fn discord_setup_dry_run_redacts_token() {
    let setup = discord_setup(
        "discord-secret",
        &vec!["123".to_string()],
        Some("456"),
        "thread_waiting,thread_completed",
        "codex-telegram-bridge",
        "ws://127.0.0.1:4500",
        &None,
    )
    .expect("discord setup dry run");
    let result = discord_setup_result(&setup, "/state/config.json", None);
    assert_eq!(at(&result, &["action"]), &text("discord_setup"));
    assert_eq!(at(&result, &["discord", "botToken"]), &text("<redacted>"));
    assert!(
        !format!("{result:?}").contains("discord-secret"),
        "setup output must not leak Discord bot token"
    );
    assert_eq!(at(&result, &["daemonCommand"]), &text("codex-telegram-bridge daemon run"));
    assert_eq!(setup.config.discord.expect("discord").bot_token, "discord-secret");
}

#[test]
fn failing_discord_message_is_skipped_and_does_not_wedge_the_channel() {
    let mut state = BridgeState::new();
    let discord = discord_fixture();
    let messages = vec![
        json(r#"{"id":"101","author":{"id":"789","bot":false},"content":"/threads 10"}"#),
        json(r#"{"id":"102","author":{"id":"789","bot":false},"content":"plain message"}"#),
    ];
    let cursor_key = discord_cursor_key(discord.channel_id.as_str());
    assert_eq!(cursor_key, "discord_last_message_id:111");
    let no_config: Result<DaemonConfig, BridgeError> =
        Err(BridgeError::new("daemon config is missing"));
    let mut batch = begun(&mut state, &discord, cursor_key.as_str(), 100, &messages);
    for message in &messages {
        let outcome: Result<(), BridgeError> = match batch.route(&state, message, &discord) {
            MessageRoute::Command(command) => {
                match execute_discord_command(&mut state, command, "", "", 0) {
                    Ok(DiscordPlan::ListThreads(limit)) => {
                        assert_eq!(limit, 10);
                        no_config.as_ref().map(|_| ()).map_err(|error| {
                            BridgeError::new(error.message.as_str())
                        })
                    }
                    other => panic!("unexpected plan: {other:?}"),
                }
            }
            MessageRoute::Ignored => Ok(()),
            other => panic!("unexpected route: {other:?}"),
        };
        batch.settle(outcome.is_ok());
    }

    let result =
        process_discord_channel_messages(&mut state, &discord, cursor_key.as_str(), &batch);

    assert_eq!(at(&result, &["failed"]), &Json::UInt(1));
    assert_eq!(at(&result, &["ignored"]), &Json::UInt(1));
    assert_eq!(get_setting_number(&state, cursor_key.as_str()), Some(102));
}

#[test]
fn batches_count_by_their_own_routes() {
    let mut state = BridgeState::new();
    let discord = discord_fixture();
    let bot = json(r#"{"id":"9","author":{"id":"789","bot":true},"content":"/away"}"#);
    let mut batch = begun(&mut state, &discord, "key", 10, &Vec::new());
    assert_eq!(batch.route(&state, &bot, &discord), MessageRoute::Ignored);
    batch.settle(false);
    let command = json(r#"{"id":"12","author":{"id":"789"},"content":"/help"}"#);
    assert_eq!(
        batch.route(&state, &command, &discord),
        MessageRoute::Command(DiscordInboundCommand::Help)
    );
    batch.settle(true);
    assert_eq!((batch.seen, batch.ignored, batch.commands, batch.failed), (2, 1, 1, 0));
    assert_eq!(batch.max_message_id, Some(12));
}

#[test]
fn the_first_look_at_a_channel_passes_over_what_is_there() {
    let mut state = BridgeState::new();
    let discord = discord_fixture();
    let messages = vec![json(r#"{"id":"7"}"#), json(r#"{"id":"9"}"#), json(r#"{"id":"8"}"#)];
    let result = match begin_discord_channel(&mut state, &discord, "key", None, &messages) {
        ChannelStart::Initialized(report) => report,
        other => panic!("nothing is dealt with: {other:?}"),
    };
    assert_eq!(at(&result, &["initialized"]), &Json::Bool(true));
    assert_eq!(at(&result, &["seen"]), &Json::UInt(3));
    assert_eq!(at(&result, &["commands"]), &Json::UInt(0));
    assert_eq!(at(&result, &["ignored"]), &Json::UInt(3));
    assert_eq!(get_setting_number(&state, "key"), Some(9));
}

#[test]
fn a_channel_with_a_cursor_begins_a_batch() {
    let mut state = BridgeState::new();
    let discord = discord_fixture();
    let messages = vec![json(r#"{"id":"7"}"#)];
    let batch = begun(&mut state, &discord, "key", 6, &messages);
    assert_eq!((batch.seen, batch.max_message_id), (0, Some(6)));
    assert_eq!(get_setting_number(&state, "key"), None);
}

#[test]
fn setups_are_checked_in_order() {
    let none: Vec<String> = vec![" ".to_string()];
    let one = vec!["1".to_string(), " 1 ".to_string(), "2".to_string()];
    let url = "ws://127.0.0.1:4500";
    let refused = |channels: &Vec<String>, events: &str, command: &str, url: &str| {
        discord_setup("t", channels, None, events, command, url, &None)
            .expect_err("refused")
            .full()
    };
    assert_eq!(
        refused(&none, "", "", "x"),
        "discord setup channel ids cannot be empty"
    );
    assert_eq!(refused(&one, " ", "", "x"), "discord setup events cannot be empty");
    assert_eq!(refused(&one, "e", " ", "x"), "discord setup bridge command cannot be empty");
    assert!(refused(&one, "e", "b", "ws://example.com:1")
        .starts_with("discord setup websocket url is invalid: "));
    let existing = Some(config_fixture(vec![project_fixture("a")]));
    let setup = discord_setup("t", &one, Some(" "), " e ", "b", url, &existing).expect("setup");
    assert_eq!(setup.discord.channel_ids, vec!["1", "2"]);
    assert_eq!(setup.discord.channel_id, "1");
    assert_eq!(setup.discord.allowed_user_id, None);
    assert_eq!(setup.config.events, "e");
    assert_eq!(setup.config.projects.len(), 1);
    let done = discord_setup_result(&setup, "/c", Some(vec![Json::Null]));
    assert_eq!(at(&done, &["dryRun"]), &Json::Bool(false));
    assert_eq!(at(&done, &["discord", "tests"]), &json("[null]"));
    assert!(done.get("nextStep").is_some());
}

#[test]
fn discord_is_switched_on_and_off() {
    assert_eq!(
        discord_set_enabled_result(&None, true, true, "/c").expect_err("missing").message,
        "daemon config is missing. Run discord setup first."
    );
    let mut bare = config_fixture(vec![]);
    bare.discord = None;
    assert_eq!(
        discord_set_enabled_result(&Some(bare), true, true, "/c").expect_err("bare").message,
        "Discord is not configured. Run discord setup first."
    );
    let config = Some(config_fixture(vec![]));
    let (after, report) =
        discord_set_enabled_result(&config, false, false, "/c").expect("disable");
    assert!(!after.discord.expect("discord").enabled);
    assert_eq!(at(&report, &["action"]), &text("discord_disable"));
    assert_eq!(at(&report, &["previousEnabled"]), &Json::Bool(true));
    assert_eq!(at(&report, &["enabled"]), &Json::Bool(false));
    let status = discord_status_result(&config, "/c");
    assert_eq!(at(&status, &["configured"]), &Json::Bool(true));
    assert_eq!(at(&status, &["enabled"]), &Json::Bool(true));
    assert_eq!(at(&discord_status_result(&None, "/c"), &["config"]), &Json::Null);
}

#[test]
fn commands_are_planned() {
    let mut state = BridgeState::new();
    let help = "Codex remote is ready. Use Telegram's Reply action.";
    let mut plan = |command: DiscordInboundCommand| {
        execute_discord_command(&mut state, command, help, "Pending Telegram notifications: 1", 50)
    };
    match plan(DiscordInboundCommand::Help).expect("help") {
        DiscordPlan::Send(outgoing) => {
            assert_eq!(
                outgoing.text,
                "Codex remote is ready in Discord. Use Discord's Reply action."
            );
            let report = finish_outgoing(outgoing, text("sent"));
            assert_eq!(at(&report, &["action"]), &text("discord_help"));
            assert_eq!(at(&report, &["sent"]), &text("sent"));
        }
        other => panic!("unexpected plan: {other:?}"),
    }
    match plan(DiscordInboundCommand::Status).expect("status") {
        DiscordPlan::Send(outgoing) => {
            assert_eq!(outgoing.text, "Pending Discord notifications: 1");
        }
        other => panic!("unexpected plan: {other:?}"),
    }
    assert_eq!(plan(DiscordInboundCommand::Away), Ok(DiscordPlan::StartBackend));
    match plan(DiscordInboundCommand::Back).expect("back") {
        DiscordPlan::Send(outgoing) => assert_eq!(
            outgoing.text,
            "Remote Codex mode is off. Cleared 0 pending notification(s)."
        ),
        other => panic!("unexpected plan: {other:?}"),
    }
    match plan(DiscordInboundCommand::Unknown("/x".to_string())).expect("unknown") {
        DiscordPlan::Send(outgoing) => {
            assert!(outgoing.text.starts_with("I don't know /x yet.\n\nCodex remote is ready"));
            assert_eq!(at(&outgoing.report, &["command"]), &text("/x"));
        }
        other => panic!("unexpected plan: {other:?}"),
    }
    assert_eq!(
        plan(DiscordInboundCommand::Threads(Some("3".to_string()))),
        Ok(DiscordPlan::ListThreads(3))
    );
    assert!(plan(DiscordInboundCommand::Threads(Some("many".to_string()))).is_err());
    assert_eq!(plan(DiscordInboundCommand::Project(None)), Ok(DiscordPlan::ShowProjects));
}

#[test]
fn away_mode_waits_for_the_backend() {
    let mut state = BridgeState::new();
    let failed = discord_away(&mut state, Err(BridgeError::new("no codex")), 1000);
    assert_eq!(failed.expect_err("backend").message, "no codex");
    assert_eq!(get_setting_text(&state, "away"), None);
    assert_eq!(get_setting_text(&state, "away_started_at"), None);

    let codex = config_fixture(vec![]).codex.expect("codex");
    let backend = empty_live_backend_status(&codex);
    let outgoing = discord_away(&mut state, Ok(backend), 2000).expect("away");
    assert_eq!(outgoing.text, "Remote Codex mode is on.");
    let report = finish_outgoing(outgoing, text("sent"));
    assert_eq!(at(&report, &["action"]), &text("discord_away"));
    assert_eq!(at(&report, &["state", "away"]), &Json::Bool(true));
    assert_eq!(get_setting_text(&state, "away").as_deref(), Some("true"));
    assert_eq!(get_setting_number(&state, "away_started_at"), Some(2000));
}

#[test]
fn channels_are_not_switched_by_chat_commands() {
    for name in ["/telegram_on", "/telegram_off", "/discord_on", "/discord_off"] {
        assert_eq!(
            parse_discord_command_text(name),
            Some(DiscordInboundCommand::Unknown(name.to_string()))
        );
    }
}

#[test]
fn questions_lead_to_new_threads() {
    let mut state = BridgeState::new();
    let discord = discord_fixture();
    let project = project_fixture("bridge");
    let config = config_fixture(vec![project_fixture("bridge"), project_fixture("other")]);
    let sent = json(r#"{"id":"555"}"#);
    let report =
        send_new_thread_prompt_for_project(&mut state, &discord, &project, &sent, 1000)
            .expect("asked");
    assert_eq!(at(&report, &["messageId"]), &Json::UInt(555));

    let reply = json(
        r#"{"id":"556","author":{"id":"789"},"content":" do it ","message_reference":{"message_id":"555"}}"#,
    );
    match route_discord_message(&state, &reply, &discord) {
        MessageRoute::PromptReply { message, project_id, reply_to, .. } => {
            assert_eq!(message, "do it");
            assert_eq!(project_id.as_deref(), Some("bridge"));
            assert_eq!(reply_to, 555);
            match execute_discord_command_prompt_reply(
                &config,
                None,
                project_id.as_deref(),
                message,
                "",
            ) {
                PromptReplyPlan::Start(chosen, prompt) => {
                    assert_eq!(chosen.id, "bridge");
                    assert_eq!(prompt, "do it");
                }
                other => panic!("unexpected plan: {other:?}"),
            }
        }
        other => panic!("unexpected route: {other:?}"),
    }
    match execute_discord_command_prompt_reply(&config, None, None, "x".to_string(), "list") {
        PromptReplyPlan::Send(outgoing) => {
            assert!(outgoing.text.starts_with("No project is selected for that prompt."));
            assert!(outgoing.text.ends_with("\n\nlist"));
        }
        other => panic!("unexpected plan: {other:?}"),
    }
    assert_eq!(
        send_new_thread_prompt_for_project(&mut state, &discord, &project, &json("{}"), 1)
            .expect_err("no id")
            .message,
        "Discord prompt missing id"
    );
}

#[test]
fn started_threads_are_logged_and_confirmed() {
    let mut state = BridgeState::new();
    let discord = discord_fixture();
    let project = project_fixture("bridge");
    let result = start_new_thread_from_discord(
        &mut state,
        &project,
        "go",
        json(r#"{"threadId":"thr_9"}"#),
        "shared_websocket",
        Some(7),
        2000,
    )
    .expect("started");
    assert_eq!(at(&result, &["codex", "transport"]), &text("shared_websocket"));
    assert_eq!(at(&result, &["codex", "appServerPid"]), &Json::UInt(7));
    assert_eq!(state.actions[0].action_type, "discord_new_thread");

    let confirmation = send_new_thread_confirmation(
        &mut state,
        &discord,
        &result,
        &json(r#"{"id":"600"}"#),
        2100,
    )
    .expect("confirmed");
    assert_eq!(at(&confirmation, &["threadId"]), &text("thr_9"));
    let reply = json(
        r#"{"id":"601","author":{"id":"789"},"content":"more","message_reference":{"message_id":"600"}}"#,
    );
    assert_eq!(
        route_discord_message(&state, &reply, &discord),
        MessageRoute::Reply { thread_id: "thr_9".to_string(), message: "more".to_string() }
    );
    assert_eq!(
        start_new_thread_from_discord(&mut state, &project, "go", json("{}"), "t", None, 1)
            .expect_err("no thread")
            .message,
        "Codex app-server thread/start response missing thread.id"
    );
    assert_eq!(
        send_new_thread_confirmation(&mut state, &discord, &json("{}"), &json("{}"), 1)
            .expect_err("no thread")
            .message,
        "new thread result missing threadId"
    );
    assert_eq!(
        send_new_thread_confirmation(&mut state, &discord, &result, &json("{}"), 1)
            .expect_err("no id")
            .message,
        "Discord confirmation missing id"
    );
}

#[test]
fn strangers_and_bots_are_not_heard() {
    let state = BridgeState::new();
    let discord = discord_fixture();
    let stranger = json(r#"{"id":"1","author":{"id":"5"},"content":"/away"}"#);
    let bot = json(r#"{"id":"2","author":{"id":"789","bot":true},"content":"/away"}"#);
    let user = json(r#"{"id":"3","author":{"id":"789"},"content":"/away"}"#);
    assert_eq!(route_discord_message(&state, &stranger, &discord), MessageRoute::Ignored);
    assert_eq!(route_discord_message(&state, &bot, &discord), MessageRoute::Ignored);
    assert_eq!(
        route_discord_message(&state, &user, &discord),
        MessageRoute::Command(DiscordInboundCommand::Away)
    );
}

#[test]
fn messages_are_handled_in_the_order_of_their_ids() {
    let sorted = sort_discord_messages(vec![
        json(r#"{"id":"30"}"#),
        json(r#"{"id":"4"}"#),
        json(r#"{"id":"200"}"#),
    ]);
    let ids: Vec<Option<&str>> = sorted.iter().map(|message| message.get_text("id")).collect();
    assert_eq!(ids, vec![Some("4"), Some("30"), Some("200")]);
}

#[test]
fn typing_indicators_are_shown_again_and_end() {
    let mut state = BridgeState::new();
    let discord = discord_fixture();
    register_discord_typing_indicator(&mut state, &discord, "thr_1", 1000);
    let key = discord_typing_key("111", "thr_1");
    let kept = r#"{"channelId":"111","nextAt":1000,"threadId":"thr_1","until":121000}"#;
    assert_eq!(get_setting_text(&state, key.as_str()).as_deref(), Some(kept));
    let value = json(kept);
    assert_eq!(typing_step(Some(&value), &discord, 1000), TypingStep::Show);
    assert_eq!(typing_step(None, &discord, 1000), TypingStep::Drop);
    assert_eq!(typing_step(Some(&value), &discord, u64::MAX), TypingStep::Drop);
    let shown = typing_shown(&value, &discord, 1000);
    assert_eq!(typing_step(Some(&shown), &discord, 1001), TypingStep::Wait);
    assert_eq!(shown.get_u64("nextAt"), Some(9000));
    assert_eq!(settle_typing(Some(&value), &discord, false, 1000), TypingChange::Keep);
    assert_eq!(settle_typing(Some(&shown), &discord, true, 1001), TypingChange::Keep);
    assert_eq!(settle_typing(None, &discord, true, 1000), TypingChange::Remove);
    assert_eq!(settle_typing(Some(&value), &discord, true, 1000), TypingChange::Renew(shown));
    clear_discord_typing_indicator(&mut state, &discord, "thr_1");
    assert_eq!(get_setting_text(&state, key.as_str()), None);
}

#[test]
fn typing_rounds_change_what_they_deal_with() {
    let discord = discord_fixture();
    let row = |until: u64, next_at: u64, channel: &str| {
        format!(
            r#"{{"channelId":"{channel}","nextAt":{next_at},"threadId":"t","until":{until}}}"#
        )
    };
    let kept = [
        ("discord_typing:111:due", row(9_000, 500, "111")),
        ("discord_typing:111:failing", row(9_000, 500, "111")),
        ("discord_typing:111:later", row(9_000, 1_001, "111")),
        ("discord_typing:111:over", row(1_000, 500, "111")),
        ("discord_typing:222:other", row(1_000, 500, "222")),
        ("discord_typing:x", "no json".to_string()),
        ("unrelated", "kept".to_string()),
    ];
    let mut state = BridgeState::new();
    for (key, value) in &kept {
        set_setting_text(&mut state, key, value);
    }
    let rows: Vec<(String, Option<Json>)> = list_settings_with_prefix(&state, "discord_typing:")
        .into_iter()
        .map(|(key, raw)| {
            let parsed = serde_json::from_str::<serde_json::Value>(&raw).ok();
            (key, parsed.map(|value| convert(&value)))
        })
        .collect();
    let shown: Vec<bool> = rows.iter().map(|(key, _)| key.ends_with("due")).collect();

    let report = refresh_discord_typing_indicators(&mut state, &discord, &rows, &shown, 1_000);

    assert_eq!(
        report.to_text(),
        r#"{"active":3,"channelId":"111","expired":2,"failed":1,"ok":false,"sent":1,"transport":"discord"}"#
    );
    let after = |key: &str| get_setting_text(&state, key);
    assert_eq!(after("discord_typing:111:due"), Some(row(9_000, 9_000, "111")));
    assert_eq!(after("discord_typing:111:failing"), Some(row(9_000, 500, "111")));
    assert_eq!(after("discord_typing:111:later"), Some(row(9_000, 1_001, "111")));
    assert_eq!(after("discord_typing:111:over"), None);
    assert_eq!(after("discord_typing:222:other"), Some(row(1_000, 500, "222")));
    assert_eq!(after("discord_typing:x"), None);
    assert_eq!(after("unrelated").as_deref(), Some("kept"));
}

#[test]
fn deliveries_are_reported_in_parts() {
    let mut state = BridgeState::new();
    let discord = discord_fixture();
    let texts = prepared_discord_texts(&vec![
        json(r#"{"text":"Use Telegram's Reply action on this message."}"#),
        json(r#"{"photo":1}"#),
    ]);
    assert_eq!(texts, vec!["Use Discord's Reply action on this message."]);
    let id = note_discord_part(
        &mut state,
        &discord,
        Some("thr_1"),
        "event_1",
        &json(r#"{"id":"77"}"#),
        1000,
    )
    .expect("noted");
    assert_eq!(id, 77);
    assert_eq!(state.message_routes[0].thread_id, "thr_1");
    let report =
        deliver_prepared_discord_delivery(&mut state, &discord, Some("thr_1"), &vec![77, 78])
            .expect("delivered");
    assert_eq!(at(&report, &["messageIds"]), &json("[77,78]"));
    assert_eq!(at(&report, &["chunks"]), &Json::UInt(2));
    assert_eq!(
        deliver_prepared_discord_delivery(&mut state, &discord, None, &vec![])
            .expect_err("nothing")
            .message,
        "Discord delivery did not send any messages"
    );
    assert_eq!(
        note_discord_part(&mut state, &discord, None, "e", &json("{}"), 1)
            .expect_err("no id")
            .message,
        "Discord create message response missing id"
    );
}

#[test]
fn calls_of_the_api_are_judged() {
    assert_eq!(check_discord_request("POST", true), Ok(()));
    assert_eq!(check_discord_request("GET", false), Ok(()));
    assert_eq!(
        check_discord_request("PUT", true).expect_err("put").message,
        "unsupported Discord API method PUT with payload"
    );
    assert_eq!(
        check_discord_request("DELETE", false).expect_err("delete").message,
        "unsupported Discord API method DELETE without payload"
    );
    assert!(check_discord_request("GET", true).is_err());
    let discord = discord_fixture();
    let typing = discord_trigger_typing(&discord);
    assert_eq!((typing.method, typing.path.as_str()), ("POST", "/channels/111/typing"));
    assert_eq!(typing.payload, None);
    assert_eq!(check_discord_request(typing.method, typing.payload.is_some()), Ok(()));
    let message = discord_send_message(&discord, "hi");
    assert_eq!(message.path, "/channels/111/messages");
    assert_eq!(
        message.payload.expect("payload").to_text(),
        r#"{"allowed_mentions":{"parse":[]},"content":"hi"}"#
    );
    assert_eq!(
        discord_request_failure(&discord, "GET", "/x", "bad fake-token here").message,
        "Discord API GET /x request failed: bad <redacted> here"
    );
    assert_eq!(
        discord_response("GET", "/x", false, "404 Not Found", "nope").expect_err("404").message,
        "Discord API GET /x returned HTTP 404 Not Found: nope"
    );
    assert_eq!(
        discord_response("GET", "/x", true, "204", " \n"),
        Ok(DiscordBody::Empty(json(r#"{"ok":true}"#)))
    );
    assert_eq!(discord_response("GET", "/x", true, "200", "[]"), Ok(DiscordBody::Text));
    assert_eq!(
        discord_messages_path("111", Some(5)),
        "/channels/111/messages?limit=50&after=5"
    );
    assert_eq!(discord_authorization(&discord), "Bot fake-token");
    assert!(discord_message_list(&json("{}")).is_err());
    assert_eq!(discord_message_list(&json("[1]")), Ok(vec![Json::UInt(1)]));
}

#[test]
fn lists_of_threads_have_a_length() {
    assert_eq!(parse_discord_threads_limit(None), Ok(5));
    assert_eq!(parse_discord_threads_limit(Some("10")), Ok(10));
    assert!(parse_discord_threads_limit(Some("ten")).is_err());
    assert_eq!(
        new_thread_confirmation_text("Use Telegram's Reply action."),
        "Use Discord's Reply action."
    );
}

#[test]
fn the_current_project_is_the_chosen_or_the_only_one() {
    let mut state = BridgeState::new();
    let discord = discord_fixture();
    let one = config_fixture(vec![project_fixture("a")]);
    let two = config_fixture(vec![project_fixture("a"), project_fixture("b")]);
    let current = |config: &DaemonConfig, state: &BridgeState| {
        current_project_for_identity(config, state, "111", Some("789")).map(|p| p.id)
    };
    assert_eq!(current(&one, &state).as_deref(), Some("a"));
    assert_eq!(current(&two, &state), None);
    let chosen = resolve_project_query(&two.projects, " B-ALIAS ").expect("by alias");
    let outgoing = choose_discord_project(
        &mut state,
        &discord,
        Some("789"),
        &chosen,
        "New Telegram threads start in b.",
    );
    assert_eq!(outgoing.text, "New Discord threads start in b.");
    assert_eq!(current(&two, &state).as_deref(), Some("b"));
    assert_eq!(
        resolve_project_query(&two.projects, "c").expect_err("none").message,
        "project `c` was not found"
    );
    match plan_new_thread(Ok(chosen), None, "") {
        NewThreadPlan::Ask(project, question) => {
            assert_eq!(project.id, "b");
            assert!(question.starts_with("What should Codex work on in Label b?\n/work/b\n\n"));
        }
        other => panic!("unexpected plan: {other:?}"),
    }
}
