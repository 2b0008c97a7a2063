//! The live backend and the connection to it.
use codex_telegram_bridge::config::{CodexConfig, CodexLiveMode};
use codex_telegram_bridge::error::BridgeError;
use codex_telegram_bridge::live::{
    backend_pid_matches, backend_restarted, backend_settled, command_line_matches_backend,
    decision_action, discover_backend_pid, empty_live_backend_status, ensure_live_backend,
    is_unix_shell_wrapper_process, live_backend_screen_session_name,
    live_backend_spawn_shell_script, live_backend_status, reconcile_backoff_ms, reconcile_failed,
    reconcile_live_backend, record_status, reset_live_backend, same_status, set_status_state, status_changed,
    terminate_managed_backend_pid, validate_live_backend_config,
    wait_for_managed_backend_pid_exit, windows_tasklist_contains_pid, BackendDecision, EndStep,
    Ending, EnsureLiveBackendResult, LiveBackendStatus, LookAnswer, LookProbe, ProcessFacts,
    ResetStep, StartStep, StartWait, LIVE_BACKEND_STATE_BLOCKED, LIVE_BACKEND_STATE_IDLE,
    LIVE_BACKEND_STATE_READY, LIVE_BACKEND_STATE_UNHEALTHY,
};
use codex_telegram_bridge::ws::{
    frame_step, validate_shared_websocket_url, Frame, FrameStep, Reading,
};

fn shared_codex_config(websocket_url: &str) -> CodexConfig {
    CodexConfig { live_mode: CodexLiveMode::Shared, websocket_url: websocket_url.to_string() }
}

const URL: &str = "ws://127.0.0.1:4500";

fn recorded(pid: Option<u32>, key: Option<&str>, healthy: bool, error: Option<&str>) -> LiveBackendStatus {
    LiveBackendStatus {
        websocket_url: URL.to_string(),
        pid,
        process_start_key: key.map(|k| k.to_string()),
        healthy,
        last_error: error.map(|e| e.to_string()),
        required: true,
        state: if healthy { LIVE_BACKEND_STATE_READY } else { LIVE_BACKEND_STATE_UNHEALTHY }
            .to_string(),
        recoverable: true,
        reconcile_attempts: 0,
        retry_after_ms: None,
    }
}

/// A process that runs a backend.
struct Process {
    pid: u32,
    key: String,
    url: String,
}

/// The processes that run, and whether the server answers where a backend runs.
struct World {
    running: Vec<Process>,
    next_pid: u32,
    foreign_server: bool,
}

impl World {
    fn empty() -> World {
        World { running: Vec::new(), next_pid: 500, foreign_server: false }
    }

    fn with_backend(url: &str) -> (World, u32) {
        let mut world = World::empty();
        let pid = world.spawn(url);
        (world, pid)
    }

    fn spawn(&mut self, url: &str) -> u32 {
        let pid = self.next_pid;
        self.next_pid += 1;
        self.running.push(Process { pid, key: format!("key-{pid}"), url: url.to_string() });
        pid
    }

    fn is_alive(&self, pid: u32) -> bool {
        self.running.iter().any(|process| process.pid == pid)
    }

    fn facts(&self, pid: u32, url: &str) -> ProcessFacts {
        let found = self.running.iter().find(|process| process.pid == pid);
        ProcessFacts {
            alive: found.is_some(),
            command_matches: found.is_some_and(|process| process.url == url),
            start_key: found.map(|process| process.key.clone()),
        }
    }

    fn discover(&self, url: &str) -> Option<u32> {
        self.running.iter().find(|process| process.url == url).map(|process| process.pid)
    }

    fn answers(&self, url: &str) -> bool {
        self.foreign_server || self.discover(url).is_some()
    }

    fn look(&self, previous: &Option<LiveBackendStatus>, required: bool) -> LiveBackendStatus {
        self.look_at(previous, &shared_codex_config(URL), required).expect("look")
    }

    fn look_at(
        &self,
        previous: &Option<LiveBackendStatus>,
        config: &CodexConfig,
        required: bool,
    ) -> Result<LiveBackendStatus, BridgeError> {
        let url = config.websocket_url.as_str();
        let (mut look, mut probe) = live_backend_status(previous, config, required)?;
        let mut rounds = 0;
        while probe != LookProbe::Done {
            rounds += 1;
            assert!(rounds < 20, "a look ends");
            let answer = match probe {
                LookProbe::Process(pid) => LookAnswer::Process(self.facts(pid, url)),
                LookProbe::Discover => LookAnswer::Discovered(self.discover(url)),
                LookProbe::Health if self.answers(url) => LookAnswer::Healthy,
                LookProbe::Health => LookAnswer::Unhealthy("connection refused".to_string()),
                LookProbe::Done => unreachable!(),
            };
            probe = look.advance(answer);
        }
        Ok(look.status)
    }

    fn start(&mut self, config: &CodexConfig) -> LiveBackendStatus {
        let url = config.websocket_url.clone();
        let pid = self.spawn(&url);
        let mut wait = StartWait::begin(config, pid, &format!("key-{pid}"));
        assert_eq!(wait.look(0), StartStep::Process);
        assert_eq!(wait.see(&self.facts(pid, &url)), StartStep::Health);
        match wait.ask(None) {
            StartStep::Ready(status) => status,
            other => panic!("unexpected step: {other:?}"),
        }
    }

    fn end(&mut self, pid: u32) {
        self.running.retain(|process| process.pid != pid);
    }

    fn terminate(&mut self, pid: u32, url: &str, key: Option<&str>) {
        let (mut ending, mut step) =
            Ending::begin(pid, url, &key.map(|value| value.to_string()));
        while step != EndStep::Done {
            if step == EndStep::Ask {
                self.end(pid);
            }
            step = ending.see(&self.facts(pid, url), 0);
        }
    }

    fn ensure(
        &mut self,
        previous: &Option<LiveBackendStatus>,
        config: &CodexConfig,
    ) -> Result<EnsureLiveBackendResult, BridgeError> {
        let status = self.look_at(previous, config, true)?;
        let decision = ensure_live_backend(config, &status)?;
        let settled = match decision {
            BackendDecision::Reuse => status,
            _ => self.start(config),
        };
        Ok(backend_settled(decision, settled))
    }

    fn reset(
        &mut self,
        recorded: &Option<LiveBackendStatus>,
        config: &CodexConfig,
    ) -> Result<EnsureLiveBackendResult, BridgeError> {
        let (mut reset, mut step) = reset_live_backend(recorded, config)?;
        loop {
            step = match step {
                ResetStep::End(end) => {
                    let pid = reset.ending.pid;
                    if end == EndStep::Ask {
                        self.end(pid);
                    }
                    let facts = self.facts(pid, &reset.ending.websocket_url.clone());
                    reset.see(&facts, 0)
                }
                ResetStep::Discover => reset.find(self.discover(&config.websocket_url)),
                ResetStep::Start => return Ok(backend_restarted(self.start(config))),
                ResetStep::Refuse(error) => return Err(error),
            };
        }
    }
}

#[test]
fn optional_status_reports_idle_without_health_error_when_backend_is_not_required() {
    let status = World::empty().look(&None, false);

    assert_eq!(status.websocket_url, URL);
    assert_eq!(status.state, LIVE_BACKEND_STATE_IDLE);
    assert!(!status.required);
    assert!(!status.healthy);
    assert!(status.recoverable);
    assert_eq!(status.last_error, None);
}

#[test]
fn optional_status_clears_stale_pid_when_backend_is_not_required() {
    let mut stale = empty_live_backend_status(&shared_codex_config(URL));
    stale.pid = Some(77_777);
    stale.process_start_key = Some("dead-test-process".to_string());

    let status = World::empty().look(&Some(stale), false);

    assert_eq!(status.state, LIVE_BACKEND_STATE_IDLE);
    assert_eq!(status.pid, None);
    assert_eq!(status.process_start_key, None);
    assert_eq!(status.last_error, None);
}

#[test]
fn required_status_reports_unhealthy_when_backend_is_missing() {
    let status = World::empty().look(&None, true);

    assert_eq!(status.state, LIVE_BACKEND_STATE_UNHEALTHY);
    assert!(status.required);
    assert!(!status.healthy);
    assert!(status.recoverable);
    assert!(status.last_error.is_some());
}

#[test]
fn reconcile_live_backend_defers_until_retry_time() {
    let mut status = empty_live_backend_status(&shared_codex_config(URL));
    set_status_state(
        &mut status,
        true,
        LIVE_BACKEND_STATE_UNHEALTHY,
        false,
        true,
        Some("previous startup failed".to_string()),
    );
    status.reconcile_attempts = 2;
    status.retry_after_ms = Some(10_000);

    let config = shared_codex_config(URL);
    let decision = reconcile_live_backend(&config, &status, 5_000).expect("decision");
    assert_eq!(decision, BackendDecision::Defer);
    assert_eq!(decision_action(decision), "deferred");
    assert_eq!(status.retry_after_ms, Some(10_000));
    assert_eq!(status.reconcile_attempts, 2);
    assert_eq!(
        reconcile_live_backend(&config, &status, 10_000),
        Ok(BackendDecision::Start(3))
    );
}

#[test]
fn live_backend_screen_session_name_is_safe() {
    let session_name = live_backend_screen_session_name("ws://127.0.0.1:4500");

    assert!(session_name.starts_with("codex-bridge-live-ws---127-0-0-1-4500"));
    assert!(session_name.chars().all(|ch| ch.is_ascii_alphanumeric() || ch == '-'));
    assert!(session_name.len() <= "codex-bridge-live-".len() + 48);
}

#[test]
fn live_backend_fallback_spawn_script_keeps_app_server_alive() {
    let script = live_backend_spawn_shell_script();

    assert!(
        script.contains(r#"tail -f /dev/null | "$binary" app-server --listen "$url""#),
        "app-server stdin must stay open after the launcher shell exits"
    );
    assert!(
        script.contains(r#"wait "$child""#),
        "a supervisor must stay alive while app-server is running"
    );
    assert!(
        !script.contains("</dev/null"),
        "redirecting app-server stdin from /dev/null makes it exit immediately"
    );
}

#[test]
fn ensure_live_backend_reuses_healthy_backend() {
    let (mut world, pid) = World::with_backend(URL);

    let legacy = Some(recorded(Some(pid), None, true, None));
    let result = world.ensure(&legacy, &shared_codex_config(URL)).expect("ensure");

    assert_eq!(result.action, "reused");
    assert_eq!(result.status.pid, Some(pid));
    assert_eq!(result.status.process_start_key.as_deref(), Some("key-500"));
    assert!(result.status.healthy);
    assert_eq!(world.running.len(), 1);
}

#[test]
fn ensure_live_backend_starts_what_does_not_run() {
    let mut world = World::empty();
    let result = world.ensure(&None, &shared_codex_config(URL)).expect("ensure");
    assert_eq!(result.action, "started");
    assert!(result.status.healthy);
    assert!(world.is_alive(result.status.pid.expect("pid")));
}

#[test]
fn reset_live_backend_restarts_unhealthy_backend() {
    let mut world = World::empty();
    let stale = recorded(Some(41_242), Some("stale-test-process"), false, Some("socket closed"));
    let mut stored = Some(stale);

    let result = world.reset(&stored, &shared_codex_config(URL)).expect("reset");

    assert_eq!(result.action, "restarted");
    assert!(result.status.healthy);
    assert!(result.status.pid.is_some());
    assert_ne!(result.status.pid, Some(41_242));
    assert_eq!(result.status.websocket_url, URL);
    assert_eq!(result.status.last_error, None);

    assert!(record_status(&mut stored, &result.status));
    let persisted = stored.expect("persisted status");
    assert_eq!(persisted, result.status);

    let pid = result.status.pid.expect("pid");
    world.terminate(pid, URL, result.status.process_start_key.as_deref());
    assert!(!world.is_alive(pid));
}

#[test]
fn wait_for_live_backend_rejects_dead_managed_pid_even_if_socket_is_healthy() {
    let (world, _) = World::with_backend(URL);
    let dead_pid = 501;

    let mut start = StartWait::begin(&shared_codex_config(URL), dead_pid, "dead-process");
    assert_eq!(start.look(0), StartStep::Process);
    match start.see(&world.facts(dead_pid, URL)) {
        StartStep::GiveUp(_, error) => {
            assert!(error.full().contains("exited before becoming healthy"));
        }
        other => panic!("unexpected step: {other:?}"),
    }
}

#[test]
fn live_backend_status_replaces_stale_pid_with_discovered_backend() {
    let (world, _) = World::with_backend(URL);
    let stale = recorded(Some(501), Some("dead-test-process"), true, None);

    let status = world.look(&Some(stale), true);

    assert!(status.healthy);
    assert_eq!(status.pid, Some(500));
    assert_eq!(status.process_start_key.as_deref(), Some("key-500"));
    assert_eq!(status.last_error, None);
}

#[test]
fn live_backend_status_adopts_managed_process_when_status_file_is_missing() {
    let (world, _) = World::with_backend(URL);

    let status = world.look(&None, true);

    assert!(status.healthy);
    assert_eq!(status.pid, Some(500));
    assert_eq!(status.process_start_key.as_deref(), Some("key-500"));
}

#[test]
fn terminate_managed_backend_pid_requires_matching_process_start_key() {
    let (mut world, pid) = World::with_backend(URL);
    let facts = world.facts(pid, URL);
    assert!(!terminate_managed_backend_pid(&Some("wrong-start-key".to_string()), &facts));
    assert!(!terminate_managed_backend_pid(&None, &facts));

    world.terminate(pid, URL, Some("wrong-start-key"));
    assert!(backend_pid_matches(&world.facts(pid, URL), &None));

    world.terminate(pid, URL, None);
    assert!(world.is_alive(pid));

    world.terminate(pid, URL, Some("key-500"));
    assert!(!world.is_alive(pid));
}

#[test]
fn reset_live_backend_backfills_legacy_status_before_terminating() {
    let (mut world, old_pid) = World::with_backend(URL);
    let legacy = recorded(Some(old_pid), None, true, None);

    let result = world.reset(&Some(legacy), &shared_codex_config(URL)).expect("reset");

    assert_eq!(result.action, "restarted");
    assert_ne!(result.status.pid, Some(old_pid));
    assert!(!world.is_alive(old_pid));
    assert!(result.status.process_start_key.is_some());
}

#[test]
fn wait_for_managed_backend_pid_exit_stops_on_process_identity_mismatch() {
    let (world, pid) = World::with_backend(URL);
    let facts = world.facts(pid, URL);

    assert!(wait_for_managed_backend_pid_exit(&Some("wrong-start-key".to_string()), &facts));
    assert!(!wait_for_managed_backend_pid_exit(&Some("key-500".to_string()), &facts));
    assert!(wait_for_managed_backend_pid_exit(
        &Some("key-500".to_string()),
        &World::empty().facts(pid, URL)
    ));
    assert!(backend_pid_matches(&facts, &None));
}

#[test]
fn stubborn_processes_are_forced_to_end() {
    let (world, pid) = World::with_backend(URL);
    let alive = world.facts(pid, URL);
    let gone = World::empty().facts(pid, URL);
    let (mut ending, step) = Ending::begin(pid, URL, &Some("key-500".to_string()));
    assert_eq!(step, EndStep::Look);
    assert_eq!(ending.see(&alive, 0), EndStep::Ask);
    assert_eq!(ending.see(&alive, 2_999), EndStep::Wait);
    assert_eq!(ending.see(&alive, 3_000), EndStep::Look);
    assert_eq!(ending.see(&alive, 3_000), EndStep::Force);
    assert_eq!(ending.see(&alive, 0), EndStep::Wait);
    assert_eq!(ending.see(&gone, 1), EndStep::Done);
}

#[test]
fn command_line_matching_requires_exact_listen_url_argument() {
    let websocket_url = "ws://127.0.0.1:4500";

    assert!(command_line_matches_backend(
        "/usr/local/bin/codex app-server --listen ws://127.0.0.1:4500",
        websocket_url
    ));
    assert!(command_line_matches_backend(
        "/usr/local/bin/codex app-server --listen=ws://127.0.0.1:4500",
        websocket_url
    ));
    assert!(!command_line_matches_backend(
        "/usr/local/bin/not-codex app-server --listen ws://127.0.0.1:4500",
        websocket_url
    ));
    assert!(!command_line_matches_backend(
        "/usr/local/bin/codex app-server --listen ws://127.0.0.1:45001",
        websocket_url
    ));
    assert!(!command_line_matches_backend(
        "/usr/local/bin/codex app-server --listen ws://127.0.0.1:4500-extra",
        websocket_url
    ));
}

#[test]
fn unix_shell_wrapper_processes_are_not_backend_processes() {
    assert!(is_unix_shell_wrapper_process("sh"));
    assert!(is_unix_shell_wrapper_process("nohup"));
    assert!(is_unix_shell_wrapper_process("SCREEN"));
    assert!(is_unix_shell_wrapper_process("login"));
    assert!(!is_unix_shell_wrapper_process("codex"));
}

#[test]
fn reset_live_backend_does_not_terminate_pid_that_does_not_match_recorded_url() {
    let current_url = "ws://127.0.0.1:4601";
    let stale_recorded_url = "ws://127.0.0.1:4602";
    let reset_url = "ws://127.0.0.1:4603";
    let (mut world, current_pid) = World::with_backend(current_url);
    let mut stale = recorded(Some(current_pid), Some("key-500"), false, Some("stale pid"));
    stale.websocket_url = stale_recorded_url.to_string();

    let result = world.reset(&Some(stale), &shared_codex_config(reset_url)).expect("reset");

    assert!(backend_pid_matches(&world.facts(current_pid, current_url), &None));
    assert!(result.status.healthy);
    assert_ne!(result.status.pid, Some(current_pid));
}

#[test]
fn reset_live_backend_refuses_unowned_backend_when_status_file_is_missing() {
    let (mut world, old_pid) = World::with_backend(URL);

    let error = world.reset(&None, &shared_codex_config(URL)).expect_err("reset refusal");

    assert!(error.full().contains("without bridge ownership metadata"));
    assert!(world.is_alive(old_pid));
    assert_eq!(world.running.len(), 1);
}

#[test]
fn ensure_live_backend_rejects_non_loopback_url_before_spawning() {
    let mut world = World::empty();
    let far = shared_codex_config("ws://example.com:4500");

    let error = world.ensure(&None, &far).expect_err("non-loopback URL should be rejected");
    assert!(error
        .full()
        .contains("only loopback ws:// shared websocket URLs are supported"));
    assert!(world.running.is_empty());

    let unhealthy = empty_live_backend_status(&far);
    let wanted = "only loopback ws:// shared websocket URLs are supported in this release";
    let refusals = [
        ensure_live_backend(&far, &unhealthy).expect_err("ensure"),
        reconcile_live_backend(&far, &unhealthy, 0).expect_err("reconcile"),
        world.reset(&None, &far).expect_err("reset"),
        validate_live_backend_config(&far).expect_err("validate"),
    ];
    for refusal in refusals {
        assert_eq!(refusal.full(), wanted);
    }
    assert_eq!(validate_live_backend_config(&shared_codex_config(URL)), Ok(()));
}

#[test]
fn websocket_transport_rejects_non_loopback_secure_urls_for_now() {
    let error = validate_shared_websocket_url("wss://127.0.0.1:4500").expect_err("reject wss");
    assert!(error.full().contains("only ws:// shared websocket URLs are supported"));
}

#[test]
fn websocket_transport_rejects_non_loopback_hosts() {
    let error = validate_shared_websocket_url("ws://example.com:4500")
        .expect_err("reject non-loopback host");
    assert!(error
        .full()
        .contains("only loopback ws:// shared websocket URLs are supported"));
}

#[test]
fn shared_urls_are_taken_apart() {
    let parts = validate_shared_websocket_url("ws://localhost:4500/path").expect("local");
    assert_eq!(parts.scheme, "ws");
    assert_eq!(parts.host.as_deref(), Some("localhost"));
    assert_eq!(parts.port, Some(4500));
    assert!(validate_shared_websocket_url("not a url").is_err());
}

#[test]
fn a_foreign_server_blocks_the_backend() {
    let world = World { foreign_server: true, ..World::empty() };
    let status = world.look(&None, true);
    assert_eq!(status.state, LIVE_BACKEND_STATE_BLOCKED);
    assert!(!status.recoverable);
    assert!(status.last_error.is_some());
    let decision = reconcile_live_backend(&shared_codex_config(URL), &status, 0);
    assert_eq!(decision_action(decision.expect("decision")), "blocked");
    assert_eq!(world.look(&None, false).state, LIVE_BACKEND_STATE_IDLE);
}

#[test]
fn failed_starts_back_off() {
    assert!(reconcile_backoff_ms(1) <= reconcile_backoff_ms(2));
    let failed = reconcile_failed(None, &shared_codex_config(URL), 0, 1000, "boom");
    assert_eq!(failed.last_error.as_deref(), Some("boom"));
    assert!(failed.retry_after_ms.expect("retry") > 1000);
    assert_eq!(
        reconcile_live_backend(&shared_codex_config(URL), &failed, 1000),
        Ok(BackendDecision::Defer)
    );
    assert!(status_changed(&None, &failed));
    let mut stored = None;
    assert!(record_status(&mut stored, &failed));
    assert!(!record_status(&mut stored, &failed));
    assert_eq!(stored.as_ref(), Some(&failed));
    assert!(same_status(&failed, &failed));
}

#[test]
fn process_lists_are_searched_for_the_backend() {
    let list = "  10 sh sh -c codex app-server --listen ws://127.0.0.1:4500\n  11 codex /usr/local/bin/codex app-server --listen ws://127.0.0.1:4500\n";
    let found = discover_backend_pid(list, URL);
    assert_eq!(found, Some(11));
    assert_eq!(discover_backend_pid(list, "ws://127.0.0.1:4501"), None);
    assert!(windows_tasklist_contains_pid("\"codex.exe\",\"4242\",\"Console\"\n", 4242));
    assert!(!windows_tasklist_contains_pid("\"codex.exe\",\"4242\",\"Console\"\n", 42));
}

#[test]
fn frames_are_told_apart() {
    assert_eq!(
        frame_step(Frame::Text("{}".to_string())),
        FrameStep::TakeText("{}".to_string())
    );
    assert_eq!(frame_step(Frame::Binary(vec![1, 2])), FrameStep::TakeBytes(vec![1, 2]));
    assert_eq!(frame_step(Frame::Ping(vec![7, 8])), FrameStep::Answer(vec![7, 8]));
    assert_eq!(frame_step(Frame::Pong(vec![7])), FrameStep::Skip);
    assert_eq!(frame_step(Frame::Raw), FrameStep::Skip);
    match frame_step(Frame::Close(Some("done".to_string()))) {
        FrameStep::Fail(error) => {
            assert_eq!(error.full(), "websocket app-server closed connection: done");
        }
        other => panic!("unexpected step: {other:?}"),
    }
    match frame_step(Frame::Close(None)) {
        FrameStep::Fail(error) => assert_eq!(
            error.full(),
            "websocket app-server closed connection: no reason provided"
        ),
        other => panic!("unexpected step: {other:?}"),
    }
}

#[test]
fn keepalives_do_not_hold_off_the_deadline() {
    let mut reading = Reading::begin(1_000, 250);
    for now in [1_000, 1_100, 1_249] {
        assert_eq!(reading.time_left(now), Ok(1_250 - now));
        assert_eq!(reading.take(Frame::Ping(vec![9])), FrameStep::Answer(vec![9]));
        assert_eq!(reading.take(Frame::Pong(vec![])), FrameStep::Skip);
    }
    let late = "timed out waiting for websocket JSON-RPC message after 250ms";
    assert_eq!(reading.time_left(1_250).expect_err("late").full(), late);
    assert_eq!(reading.failure("timed out", true, 1_250).full(), late);
    assert_eq!(
        reading.failure("reset", false, 1_250).full(),
        "failed to read websocket JSON-RPC message: reset"
    );
}
