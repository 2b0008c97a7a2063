//! Reports of the program's own state: remote mode, the doctor, the setup and the
//! registration with Hermes.
use vstd::prelude::*;
use vstd::string::*;

use crate::away::{
    away_report, away_state, pending_count, pending_outbound_count, presence_leaves_nothing_pending,
    present_report, present_state, set_away_mode,
};
use crate::config::{
    CodexConfig, CodexConfigV, DaemonConfig, DaemonConfigV, DiscordConfigV, TelegramConfigV,
};
use crate::error::{BridgeError, BridgeErrorV, failure, full_text, outcome};
use crate::json::{
    bool_value, Json, JsonV, member, Members, Object, opt_member, or_null, text_array, text_member,
    text_or_null, text_value,
};
use crate::live::{live_backend_status_json, LiveBackendStatus, LiveBackendStatusV, status_json};
use crate::state::BridgeState;
use crate::text::{cat3, decimal, trim, trimmed};

verus! {

// ---------------------------------------------------------------------------
// Remote mode
// ---------------------------------------------------------------------------

/// The app server that a configuration names.
pub open spec fn codex_of(config: Option<DaemonConfigV>) -> Option<CodexConfigV> {
    match config {
        Some(c) => c.codex,
        None => None,
    }
}

/// The Telegram part of a configuration.
pub open spec fn telegram_of(config: Option<DaemonConfigV>) -> Option<TelegramConfigV> {
    match config {
        Some(c) => c.telegram,
        None => None,
    }
}

/// The Discord part of a configuration.
pub open spec fn discord_of(config: Option<DaemonConfigV>) -> Option<DiscordConfigV> {
    match config {
        Some(c) => c.discord,
        None => None,
    }
}

/// The backend as it is reported: its status, or the failure of looking it up; nothing where
/// none is configured.
pub open spec fn backend_value(
    config: Option<DaemonConfigV>,
    required: bool,
    status: Result<LiveBackendStatusV, BridgeErrorV>,
) -> JsonV {
    match codex_of(config) {
        None => JsonV::Null,
        Some(codex) => match status {
            Ok(s) => status_json(s),
            Err(e) => JsonV::Object(
                Seq::empty()
                    .push(("websocketUrl"@, JsonV::Str(codex.websocket_url)))
                    .push(("pid"@, JsonV::Null))
                    .push(("processStartKey"@, JsonV::Null))
                    .push(("healthy"@, JsonV::Bool(false)))
                    .push(("required"@, JsonV::Bool(required)))
                    .push(
                        ("state"@, JsonV::Str(
                            if required {
                                "unhealthy"@
                            } else {
                                "idle"@
                            },
                        )),
                    )
                    .push(("recoverable"@, JsonV::Bool(required)))
                    .push(("lastError"@, JsonV::Str(full_text(e)))),
            ),
        },
    }
}

/// The backend as it is reported.
pub fn remote_backend_status_value(
    config: &Option<DaemonConfig>,
    required: bool,
    status: &Result<LiveBackendStatus, BridgeError>,
) -> (r: Json)
    ensures
        r@ == backend_value(config.deep_view(), required, outcome(*status)),
{
    let codex: &CodexConfig = match config {
        Some(c) => match &c.codex {
            Some(codex) => codex,
            None => {
                return Json::Null;
            },
        },
        None => {
            return Json::Null;
        },
    };
    match status {
        Ok(s) => live_backend_status_json(s),
        Err(e) => Object::new().with(
            "websocketUrl",
            Json::Str(codex.websocket_url.clone()),
        ).with("pid", Json::Null).with("processStartKey", Json::Null).with(
            "healthy",
            Json::Bool(false),
        ).with("required", Json::Bool(required)).with(
            "state",
            Json::text(
                if required {
                    "unhealthy"
                } else {
                    "idle"
                },
            ),
        ).with("recoverable", Json::Bool(required)).with("lastError", Json::Str(e.full())).done(),
    }
}

/// Remote mode as it is reported.
pub open spec fn remote_report(
    action: Seq<char>,
    config: Option<DaemonConfigV>,
    away: JsonV,
    backend: JsonV,
    pending: u64,
    config_path: Seq<char>,
    state_dir: Seq<char>,
) -> JsonV {
    JsonV::Object(
        Seq::empty()
            .push(("ok"@, JsonV::Bool(true)))
            .push(("action"@, JsonV::Str(action)))
            .push(("configPath"@, JsonV::Str(config_path)))
            .push(("stateFolderPath"@, JsonV::Str(state_dir)))
            .push(("configured"@, JsonV::Bool(config is Some)))
            .push(("telegramConfigured"@, JsonV::Bool(telegram_of(config) is Some)))
            .push(("discordConfigured"@, JsonV::Bool(discord_of(config) is Some)))
            .push(("codexConfigured"@, JsonV::Bool(codex_of(config) is Some)))
            .push(("away"@, away))
            .push(("backend"@, backend))
            .push(("pending"@, JsonV::UInt(pending))),
    )
}

/// Remote mode as it is reported.
pub fn remote_mode_status_payload(
    action: &str,
    config: &Option<DaemonConfig>,
    away: Json,
    backend: Json,
    state: &BridgeState,
    config_path: &str,
    state_dir: &str,
) -> (r: Json)
    ensures
        r@ == remote_report(
            action@,
            config.deep_view(),
            away@,
            backend@,
            pending_count(state@) as u64,
            config_path@,
            state_dir@,
        ),
{
    let pending: u64 = pending_outbound_count(state);
    let (telegram, discord, codex): (bool, bool, bool) = match config {
        Some(c) => (c.telegram.is_some(), c.discord.is_some(), c.codex.is_some()),
        None => (false, false, false),
    };
    Object::new().with("ok", Json::Bool(true)).with("action", Json::text(action)).with(
        "configPath",
        Json::text(config_path),
    ).with("stateFolderPath", Json::text(state_dir)).with(
        "configured",
        Json::Bool(config.is_some()),
    ).with("telegramConfigured", Json::Bool(telegram)).with(
        "discordConfigured",
        Json::Bool(discord),
    ).with("codexConfigured", Json::Bool(codex)).with("away", away).with(
        "backend",
        backend,
    ).with("pending", Json::UInt(pending)).done()
}

/// Tells whether remote mode needs the backend: while away mode is on.
pub fn remote_backend_required(away: &Json) -> (r: bool)
    ensures
        r == (member(away@, "away"@) == Some(JsonV::Bool(true))),
{
    match away.get("away") {
        Some(v) => match v.as_bool() {
            Some(b) => b,
            None => false,
        },
        None => false,
    }
}

/// Reports remote mode. `away` is what looking up away mode gave, `required` whether it
/// needs the backend, and `status` the backend's status for that.
pub fn remote_mode_status_result(
    state: &BridgeState,
    config: &Option<DaemonConfig>,
    away: Json,
    status: &Result<LiveBackendStatus, BridgeError>,
    config_path: &str,
    state_dir: &str,
) -> (r: Json)
    ensures
        r@ == remote_report(
            "remote_status"@,
            config.deep_view(),
            away@,
            backend_value(
                config.deep_view(),
                member(away@, "away"@) == Some(JsonV::Bool(true)),
                outcome(*status),
            ),
            pending_count(state@) as u64,
            config_path@,
            state_dir@,
        ),
{
    let required: bool = remote_backend_required(&away);
    let backend = remote_backend_status_value(config, required, status);
    remote_mode_status_payload(
        "remote_status",
        config,
        away,
        backend,
        state,
        config_path,
        state_dir,
    )
}

/// How remote mode is started.
#[derive(Debug, PartialEq, Eq, Clone, Copy)]
pub enum RemoteModeStartAction {
    On,
    Repair,
}

/// How a start of remote mode is called.
pub open spec fn start_name(action: RemoteModeStartAction) -> Seq<char> {
    match action {
        RemoteModeStartAction::On => "remote_on"@,
        RemoteModeStartAction::Repair => "remote_repair"@,
    }
}

impl RemoteModeStartAction {
    /// How the start is called.
    pub fn json_action(self) -> (r: &'static str)
        ensures
            r@ == start_name(self),
    {
        match self {
            RemoteModeStartAction::On => "remote_on",
            RemoteModeStartAction::Repair => "remote_repair",
        }
    }
}

/// The failure of remote mode without a backend.
pub open spec fn backend_missing() -> BridgeErrorV {
    failure("shared Codex live backend is not configured; run setup first"@)
}

/// The backend that remote mode is started with.
pub fn remote_codex_config(config: &DaemonConfig) -> (r: Result<CodexConfig, BridgeError>)
    ensures
        outcome(r) == (match config@.codex {
            Some(codex) => Ok(codex),
            None => Err(backend_missing()),
        }),
{
    match &config.codex {
        Some(codex) => Ok(codex.clone()),
        None => Err(
            BridgeError::new("shared Codex live backend is not configured; run setup first"),
        ),
    }
}

/// Starts remote mode, once the backend runs: away mode is on from `now`.
pub fn remote_mode_on_result(
    state: &mut BridgeState,
    action: RemoteModeStartAction,
    config: &Option<DaemonConfig>,
    backend: &LiveBackendStatus,
    config_path: &str,
    state_dir: &str,
    now: u64,
) -> (r: Json)
    ensures
        final(state)@ == away_state(old(state)@, now),
        r@ == remote_report(
            start_name(action),
            config.deep_view(),
            away_report(true, Some(now), Some(decimal(now as nat))),
            status_json(backend@),
            pending_count(old(state)@) as u64,
            config_path@,
            state_dir@,
        ),
{
    let away = set_away_mode(state, true, now);
    remote_mode_status_payload(
        action.json_action(),
        config,
        away,
        live_backend_status_json(backend),
        state,
        config_path,
        state_dir,
    )
}

/// Starts remote mode with what bringing the backend up gave: only a backend that runs turns
/// away mode on. Where it did not come up its failure is told, and nothing changes.
pub fn remote_mode_started(
    state: &mut BridgeState,
    action: RemoteModeStartAction,
    config: &Option<DaemonConfig>,
    backend: Result<LiveBackendStatus, BridgeError>,
    config_path: &str,
    state_dir: &str,
    now: u64,
) -> (r: Result<Json, BridgeError>)
    ensures
        match outcome(backend) {
            Ok(status) => final(state)@ == away_state(old(state)@, now) && outcome(r) == Ok::<
                JsonV,
                BridgeErrorV,
            >(
                remote_report(
                    start_name(action),
                    config.deep_view(),
                    away_report(true, Some(now), Some(decimal(now as nat))),
                    status_json(status),
                    pending_count(old(state)@) as u64,
                    config_path@,
                    state_dir@,
                ),
            ),
            Err(e) => final(state)@ == old(state)@ && outcome(r) == Err::<JsonV, BridgeErrorV>(e),
        },
{
    match backend {
        Ok(status) => Ok(
            remote_mode_on_result(state, action, config, &status, config_path, state_dir, now),
        ),
        Err(e) => Err(e),
    }
}

/// Ends remote mode: away mode is off, and nothing waits to go out.
pub fn remote_mode_off_result(
    state: &mut BridgeState,
    config: &Option<DaemonConfig>,
    status: &Result<LiveBackendStatus, BridgeError>,
    config_path: &str,
    state_dir: &str,
    now: u64,
) -> (r: Json)
    ensures
        final(state)@ == present_state(old(state)@),
        r@ == remote_report(
            "remote_off"@,
            config.deep_view(),
            present_report(pending_count(old(state)@) as u64),
            backend_value(config.deep_view(), false, outcome(*status)),
            0,
            config_path@,
            state_dir@,
        ),
{
    let ghost before = state@;
    let away = set_away_mode(state, false, now);
    proof {
        presence_leaves_nothing_pending(before);
    }
    let backend = remote_backend_status_value(config, false, status);
    remote_mode_status_payload("remote_off", config, away, backend, state, config_path, state_dir)
}

// ---------------------------------------------------------------------------
// The doctor
// ---------------------------------------------------------------------------

/// A flag deeper in a status; not set where it is missing.
pub open spec fn deep_flag(status: JsonV, outer: Seq<char>, inner: Seq<char>) -> bool {
    bool_value(opt_member(member(status, outer), inner)) == Some(true)
}

/// The service of the daemon, as the doctor reads it.
pub open spec fn service_members(
    head: Members,
    path: Seq<char>,
    exists_there: bool,
    status: JsonV,
) -> Members {
    head.push(("daemon_service_path"@, JsonV::Str(path))).push(
        ("daemon_service_exists"@, JsonV::Bool(exists_there)),
    ).push(
        ("daemon_service_loaded"@, JsonV::Bool(deep_flag(status, "serviceStatus"@, "loaded"@))),
    ).push(
        ("daemon_running"@, JsonV::Bool(deep_flag(status, "serviceStatus"@, "running"@))),
    ).push(
        (
            "daemon_state"@,
            text_or_null(text_value(opt_member(member(status, "serviceStatus"@), "state"@))),
        ),
    ).push(
        ("daemon_healthy"@, JsonV::Bool(bool_value(member(status, "healthy"@)) == Some(true))),
    ).push(("next_step"@, text_or_null(text_member(status, "nextStep"@))))
}

/// The configuration and the backend, as the doctor reads them.
pub open spec fn bridge_members(
    config_path: Seq<char>,
    config_exists: bool,
    config: Option<DaemonConfigV>,
    backend: Result<LiveBackendStatusV, BridgeErrorV>,
) -> Members {
    let codex = codex_of(config);
    Seq::empty().push(("config_path"@, JsonV::Str(config_path))).push(
        ("config_exists"@, JsonV::Bool(config_exists)),
    ).push(("telegram_configured"@, JsonV::Bool(telegram_of(config) is Some))).push(
        ("discord_configured"@, JsonV::Bool(discord_of(config) is Some)),
    ).push(("codex_configured"@, JsonV::Bool(codex is Some))).push(
        ("codex_live_mode"@, match codex {
            Some(_) => JsonV::Str("shared"@),
            None => JsonV::Null,
        }),
    ).push(
        ("codex_websocket_url"@, match codex {
            Some(c) => JsonV::Str(c.websocket_url),
            None => JsonV::Null,
        }),
    ).push(
        ("live_backend_healthy"@, match codex {
            Some(_) => JsonV::Bool(backend is Ok && backend->Ok_0.healthy),
            None => JsonV::Null,
        }),
    ).push(
        ("live_backend_pid"@, match (codex, backend) {
            (Some(_), Ok(s)) => match s.pid {
                Some(p) => JsonV::UInt(p as u64),
                None => JsonV::Null,
            },
            _ => JsonV::Null,
        }),
    ).push(
        ("live_backend_error"@, match codex {
            Some(_) => match backend {
                Ok(s) => text_or_null(s.last_error),
                Err(e) => JsonV::Str(full_text(e)),
            },
            None => JsonV::Str("shared Codex live backend is not configured"@),
        }),
    )
}

/// A flag deeper in a status; not set where it is missing.
fn flag_in(status: &Json, outer: &str, inner: &str) -> (r: bool)
    ensures
        r == deep_flag(status@, outer@, inner@),
{
    match status.get(outer) {
        Some(v) => match v.get(inner) {
            Some(w) => match w.as_bool() {
                Some(b) => b,
                None => false,
            },
            None => false,
        },
        None => false,
    }
}

/// The bridge as the doctor finds it. `backend` is the status of the backend, and `status`
/// that of the daemon's service.
pub fn doctor_bridge(
    config_path: &str,
    config_exists: bool,
    config: &Option<DaemonConfig>,
    backend: &Result<LiveBackendStatus, BridgeError>,
    service_path: &str,
    service_exists: bool,
    status: &Json,
) -> (r: Json)
    ensures
        r@ == JsonV::Object(
            service_members(
                bridge_members(config_path@, config_exists, config.deep_view(), outcome(*backend)),
                service_path@,
                service_exists,
                status@,
            ),
        ),
{
    let (telegram, discord): (bool, bool) = match config {
        Some(c) => (c.telegram.is_some(), c.discord.is_some()),
        None => (false, false),
    };
    let codex: Option<&CodexConfig> = match config {
        Some(c) => match &c.codex {
            Some(codex) => Some(codex),
            None => None,
        },
        None => None,
    };
    let (configured, mode, url): (bool, Json, Json) = match codex {
        Some(c) => (true, Json::text("shared"), Json::Str(c.websocket_url.clone())),
        None => (false, Json::Null, Json::Null),
    };
    let (healthy, pid, error): (Json, Json, Json) = match codex {
        Some(_) => match backend {
            Ok(s) => {
                let number: Json = match s.pid {
                    Some(p) => Json::UInt(p as u64),
                    None => Json::Null,
                };
                (Json::Bool(s.healthy), number, Json::opt_text(&s.last_error))
            },
            Err(e) => (Json::Bool(false), Json::Null, Json::Str(e.full())),
        },
        None => (
            Json::Null,
            Json::Null,
            Json::text("shared Codex live backend is not configured"),
        ),
    };
    let service_state: Option<String> = match status.get("serviceStatus") {
        Some(v) => v.text_of_member("state"),
        None => None,
    };
    let daemon_healthy: bool = match status.get("healthy") {
        Some(v) => match v.as_bool() {
            Some(b) => b,
            None => false,
        },
        None => false,
    };
    let head = Object::new().with("config_path", Json::text(config_path)).with(
        "config_exists",
        Json::Bool(config_exists),
    ).with("telegram_configured", Json::Bool(telegram)).with(
        "discord_configured",
        Json::Bool(discord),
    ).with("codex_configured", Json::Bool(configured)).with("codex_live_mode", mode).with(
        "codex_websocket_url",
        url,
    ).with("live_backend_healthy", healthy).with("live_backend_pid", pid).with(
        "live_backend_error",
        error,
    );
    head.with("daemon_service_path", Json::text(service_path)).with(
        "daemon_service_exists",
        Json::Bool(service_exists),
    ).with("daemon_service_loaded", Json::Bool(flag_in(status, "serviceStatus", "loaded"))).with(
        "daemon_running",
        Json::Bool(flag_in(status, "serviceStatus", "running")),
    ).with("daemon_state", Json::opt_text(&service_state)).with(
        "daemon_healthy",
        Json::Bool(daemon_healthy),
    ).with("next_step", Json::opt_text(&status.text_of_member("nextStep"))).done()
}

/// The report of the doctor.
pub open spec fn doctor_json(
    path: Seq<char>,
    source: Seq<char>,
    version: Seq<char>,
    bridge: JsonV,
) -> JsonV {
    JsonV::Object(
        Seq::empty()
            .push(("ok"@, JsonV::Bool(true)))
            .push(
                ("codex"@, JsonV::Object(
                    Seq::empty()
                        .push(("resolved_path"@, JsonV::Str(path)))
                        .push(("source"@, JsonV::Str(source)))
                        .push(("version_stdout"@, JsonV::Str(trimmed(version)))),
                )),
            )
            .push(("bridge"@, bridge)),
    )
}

/// The report of the doctor; the Codex binary has to tell its version.
pub fn doctor_report(
    path: &str,
    source: &str,
    succeeded: bool,
    version_stdout: &str,
    bridge: Json,
) -> (r: Result<Json, BridgeError>)
    ensures
        match r {
            Ok(report) => succeeded && report@ == doctor_json(
                path@,
                source@,
                version_stdout@,
                bridge@,
            ),
            Err(e) => !succeeded && e@ == failure(
                "codex binary "@ + path@ + " returned non-zero exit status for --version"@,
            ),
        },
{
    if !succeeded {
        return Err(
            BridgeError::new(
                cat3(
                    "codex binary ",
                    path,
                    " returned non-zero exit status for --version",
                ).as_str(),
            ),
        );
    }
    let codex = Object::new().with("resolved_path", Json::text(path)).with(
        "source",
        Json::text(source),
    ).with("version_stdout", Json::Str(trim(version_stdout))).done();
    Ok(Object::new().with("ok", Json::Bool(true)).with("codex", codex).with("bridge", bridge).done())
}

// ---------------------------------------------------------------------------
// Setup
// ---------------------------------------------------------------------------

/// What the user does after a setup.
pub open spec fn setup_next_step(dry_run: bool) -> Seq<char> {
    if dry_run {
        "Run setup without --dry-run, then send /away to the Telegram bot when leaving your computer."@
    } else {
        "Send /away to the Telegram bot when leaving your computer. Reply to Codex Telegram messages to keep working from Telegram; use /repair if the shared backend becomes unhealthy."@
    }
}

/// The report of a setup.
pub open spec fn whole_setup_report(
    dry_run: bool,
    path: Seq<char>,
    source: Seq<char>,
    telegram: JsonV,
    install: Option<JsonV>,
    start: Option<JsonV>,
    hermes: Option<JsonV>,
) -> JsonV {
    JsonV::Object(
        Seq::empty()
            .push(("ok"@, JsonV::Bool(true)))
            .push(("action"@, JsonV::Str("setup"@)))
            .push(("dryRun"@, JsonV::Bool(dry_run)))
            .push(
                ("codex"@, JsonV::Object(
                    Seq::empty()
                        .push(("resolvedPath"@, JsonV::Str(path)))
                        .push(("source"@, JsonV::Str(source))),
                )),
            )
            .push(("telegram"@, telegram))
            .push(
                ("daemon"@, JsonV::Object(
                    Seq::empty()
                        .push(("install"@, or_null(install)))
                        .push(("start"@, or_null(start))),
                )),
            )
            .push(("hermes"@, or_null(hermes)))
            .push(("nextStep"@, JsonV::Str(setup_next_step(dry_run)))),
    )
}

/// The report of a setup: of the parts that were done.
pub fn setup_result(
    dry_run: bool,
    codex_path: &str,
    codex_source: &str,
    telegram: Json,
    daemon_install: Option<Json>,
    daemon_start: Option<Json>,
    hermes: Option<Json>,
) -> (r: Json)
    ensures
        r@ == whole_setup_report(
            dry_run,
            codex_path@,
            codex_source@,
            telegram@,
            daemon_install.deep_view(),
            daemon_start.deep_view(),
            hermes.deep_view(),
        ),
{
    let step: &str = if dry_run {
        "Run setup without --dry-run, then send /away to the Telegram bot when leaving your computer."
    } else {
        "Send /away to the Telegram bot when leaving your computer. Reply to Codex Telegram messages to keep working from Telegram; use /repair if the shared backend becomes unhealthy."
    };
    let codex = Object::new().with("resolvedPath", Json::text(codex_path)).with(
        "source",
        Json::text(codex_source),
    ).done();
    let daemon = Object::new().with("install", Json::opt(daemon_install)).with(
        "start",
        Json::opt(daemon_start),
    ).done();
    Object::new().with("ok", Json::Bool(true)).with("action", Json::text("setup")).with(
        "dryRun",
        Json::Bool(dry_run),
    ).with("codex", codex).with("telegram", telegram).with("daemon", daemon).with(
        "hermes",
        Json::opt(hermes),
    ).with("nextStep", Json::text(step)).done()
}

// ---------------------------------------------------------------------------
// Hermes
// ---------------------------------------------------------------------------

/// A registration with Hermes that was checked.
#[derive(Debug, PartialEq, Eq)]
pub struct HermesInstall {
    pub server_name: String,
    pub hermes_command: String,
    pub bridge_command: String,
}

/// The model of [`HermesInstall`].
#[verifier::ext_equal]
pub struct HermesInstallV {
    pub server_name: Seq<char>,
    pub hermes_command: Seq<char>,
    pub bridge_command: Seq<char>,
}

impl View for HermesInstall {
    type V = HermesInstallV;

    open spec fn view(&self) -> HermesInstallV {
        HermesInstallV {
            server_name: self.server_name@,
            hermes_command: self.hermes_command@,
            bridge_command: self.bridge_command@,
        }
    }
}

impl DeepView for HermesInstall {
    type V = HermesInstallV;

    open spec fn deep_view(&self) -> HermesInstallV {
        self@
    }
}

/// What comes of the options of a registration.
pub open spec fn hermes_checked(
    server_name: Seq<char>,
    hermes_command: Seq<char>,
    bridge_command: Seq<char>,
) -> Result<HermesInstallV, BridgeErrorV> {
    if trimmed(server_name).len() == 0 {
        Err(failure("server name cannot be empty"@))
    } else if trimmed(hermes_command).len() == 0 {
        Err(failure("hermes command cannot be empty"@))
    } else if trimmed(bridge_command).len() == 0 {
        Err(failure("bridge command cannot be empty"@))
    } else {
        Ok(
            HermesInstallV {
                server_name: trimmed(server_name),
                hermes_command: trimmed(hermes_command),
                bridge_command: trimmed(bridge_command),
            },
        )
    }
}

/// Checks the options of a registration.
pub fn check_hermes_install(server_name: &str, hermes_command: &str, bridge_command: &str) -> (r:
    Result<HermesInstall, BridgeError>)
    ensures
        outcome(r) == hermes_checked(server_name@, hermes_command@, bridge_command@),
{
    let server = trim(server_name);
    let hermes = trim(hermes_command);
    let bridge = trim(bridge_command);
    if server.as_str().is_empty() {
        return Err(BridgeError::new("server name cannot be empty"));
    }
    if hermes.as_str().is_empty() {
        return Err(BridgeError::new("hermes command cannot be empty"));
    }
    if bridge.as_str().is_empty() {
        return Err(BridgeError::new("bridge command cannot be empty"));
    }
    Ok(HermesInstall { server_name: server, hermes_command: hermes, bridge_command: bridge })
}

/// The arguments that register the bridge.
pub open spec fn hermes_args(h: HermesInstallV) -> Seq<Seq<char>> {
    Seq::empty().push("mcp"@).push("add"@).push(h.server_name).push("--command"@).push(
        h.bridge_command,
    ).push("--args"@).push("mcp"@)
}

/// The arguments that register the bridge.
pub fn hermes_mcp_args(install: &HermesInstall) -> (r: Vec<String>)
    ensures
        r.deep_view() == hermes_args(install@),
{
    let mut args: Vec<String> = Vec::new();
    args.push("mcp".to_owned());
    args.push("add".to_owned());
    args.push(install.server_name.clone());
    args.push("--command".to_owned());
    args.push(install.bridge_command.clone());
    args.push("--args".to_owned());
    args.push("mcp".to_owned());
    assert(args.deep_view() =~= hermes_args(install@));
    args
}

/// The report of a registration, with what it says of MCP.
pub open spec fn hermes_report(h: HermesInstallV, dry_run: bool, mcp: JsonV) -> JsonV {
    JsonV::Object(
        Seq::empty()
            .push(("ok"@, JsonV::Bool(true)))
            .push(("action"@, JsonV::Str("hermes_install"@)))
            .push(("dryRun"@, JsonV::Bool(dry_run)))
            .push(("serverName"@, JsonV::Str(h.server_name)))
            .push(("hermesCommand"@, JsonV::Str(h.hermes_command)))
            .push(("bridgeCommand"@, JsonV::Str(h.bridge_command)))
            .push(("args"@, text_array(hermes_args(h))))
            .push(("mcp"@, mcp))
            .push(
                ("nextStep"@, JsonV::Str(
                    "Restart Hermes for MCP discovery. Telegram notifications are configured with the top-level setup command, not through Hermes."@,
                )),
            ),
    )
}

/// The report of a registration.
fn report_hermes(install: &HermesInstall, dry_run: bool, mcp: Json) -> (r: Json)
    ensures
        r@ == hermes_report(install@, dry_run, mcp@),
{
    Object::new().with("ok", Json::Bool(true)).with("action", Json::text("hermes_install")).with(
        "dryRun",
        Json::Bool(dry_run),
    ).with("serverName", Json::Str(install.server_name.clone())).with(
        "hermesCommand",
        Json::Str(install.hermes_command.clone()),
    ).with("bridgeCommand", Json::Str(install.bridge_command.clone())).with(
        "args",
        Json::texts(&hermes_mcp_args(install)),
    ).with("mcp", mcp).with(
        "nextStep",
        Json::text(
            "Restart Hermes for MCP discovery. Telegram notifications are configured with the top-level setup command, not through Hermes.",
        ),
    ).done()
}

/// What a registration that only shows what it would do says of MCP.
pub open spec fn hermes_plan(h: HermesInstallV) -> JsonV {
    JsonV::Object(
        Seq::empty()
            .push(("configured"@, JsonV::Bool(true)))
            .push(("args"@, text_array(hermes_args(h))))
            .push(
                ("nextStep"@, JsonV::Str(
                    "Restart Hermes so it reconnects to MCP servers and discovers codex_* tools."@,
                )),
            ),
    )
}

/// The registration that only shows what it would do.
pub fn hermes_install_dry_run(install: &HermesInstall) -> (r: Json)
    ensures
        r@ == hermes_report(install@, true, hermes_plan(install@)),
{
    let mcp = Object::new().with("configured", Json::Bool(true)).with(
        "args",
        Json::texts(&hermes_mcp_args(install)),
    ).with(
        "nextStep",
        Json::text("Restart Hermes so it reconnects to MCP servers and discovers codex_* tools."),
    ).done();
    report_hermes(install, true, mcp)
}

/// The registration that was run: its report, or the failure that Hermes told.
pub fn run_hermes_install(
    install: &HermesInstall,
    succeeded: bool,
    status: &str,
    stdout: &str,
    stderr: &str,
) -> (r: Result<Json, BridgeError>)
    ensures
        match r {
            Ok(report) => succeeded && report@ == hermes_report(
                install@,
                false,
                JsonV::Object(
                    Seq::empty()
                        .push(("configured"@, JsonV::Bool(true)))
                        .push(("stdout"@, JsonV::Str(trimmed(stdout@))))
                        .push(("stderr"@, JsonV::Str(trimmed(stderr@)))),
                ),
            ),
            Err(e) => !succeeded && e@ == failure(
                "Hermes MCP registration failed with status "@ + status@ + ": "@ + trimmed(
                    stderr@,
                ),
            ),
        },
{
    if !succeeded {
        let mut text = cat3("Hermes MCP registration failed with status ", status, ": ");
        text.append(trim(stderr).as_str());
        return Err(BridgeError::new(text.as_str()));
    }
    let mcp = Object::new().with("configured", Json::Bool(true)).with(
        "stdout",
        Json::Str(trim(stdout)),
    ).with("stderr", Json::Str(trim(stderr))).done();
    Ok(report_hermes(install, false, mcp))
}

} // verus!
