//! The configuration of the bridge, as its commands read it.
use vstd::prelude::*;
use vstd::string::*;

use crate::json::{Json, JsonV, Object, text_array, text_or_null};
use crate::text::{copy_opt, copy_texts};

verus! {

/// How the bridge reaches Codex.
#[derive(Debug, Clone, Copy, PartialEq, Eq, Structural)]
pub enum CodexLiveMode {
    /// Through one app server that the desktop and the bridge share.
    Shared,
}

/// The shared app server.
#[derive(Debug, PartialEq, Eq)]
pub struct CodexConfig {
    pub live_mode: CodexLiveMode,
    pub websocket_url: String,
}

/// The model of [`CodexConfig`].
#[verifier::ext_equal]
pub struct CodexConfigV {
    pub live_mode: CodexLiveMode,
    pub websocket_url: Seq<char>,
}

impl View for CodexConfig {
    type V = CodexConfigV;

    open spec fn view(&self) -> CodexConfigV {
        CodexConfigV {
            live_mode: self.live_mode,
            websocket_url: self.websocket_url@,
        }
    }
}

impl DeepView for CodexConfig {
    type V = CodexConfigV;

    open spec fn deep_view(&self) -> CodexConfigV {
        self@
    }
}

impl Clone for CodexConfig {
    fn clone(&self) -> (r: CodexConfig)
        ensures
            r@ == self@,
    {
        CodexConfig {
            live_mode: self.live_mode,
            websocket_url: self.websocket_url.clone(),
        }
    }
}

/// The Telegram transport.
#[derive(Debug, PartialEq, Eq)]
pub struct TelegramConfig {
    pub bot_token: String,
    pub chat_id: String,
    pub allowed_user_id: Option<String>,
}

/// The model of [`TelegramConfig`].
#[verifier::ext_equal]
pub struct TelegramConfigV {
    pub bot_token: Seq<char>,
    pub chat_id: Seq<char>,
    pub allowed_user_id: Option<Seq<char>>,
}

impl View for TelegramConfig {
    type V = TelegramConfigV;

    open spec fn view(&self) -> TelegramConfigV {
        TelegramConfigV {
            bot_token: self.bot_token@,
            chat_id: self.chat_id@,
            allowed_user_id: self.allowed_user_id.deep_view(),
        }
    }
}

impl DeepView for TelegramConfig {
    type V = TelegramConfigV;

    open spec fn deep_view(&self) -> TelegramConfigV {
        self@
    }
}

impl Clone for TelegramConfig {
    fn clone(&self) -> (r: TelegramConfig)
        ensures
            r@ == self@,
    {
        TelegramConfig {
            bot_token: self.bot_token.clone(),
            chat_id: self.chat_id.clone(),
            allowed_user_id: copy_opt(&self.allowed_user_id),
        }
    }
}

/// The Discord transport.
#[derive(Debug, PartialEq, Eq)]
pub struct DiscordConfig {
    pub bot_token: String,
    pub channel_id: String,
    pub channel_ids: Vec<String>,
    pub allowed_user_id: Option<String>,
    pub enabled: bool,
}

/// The model of [`DiscordConfig`].
#[verifier::ext_equal]
pub struct DiscordConfigV {
    pub bot_token: Seq<char>,
    pub channel_id: Seq<char>,
    pub channel_ids: Seq<Seq<char>>,
    pub allowed_user_id: Option<Seq<char>>,
    pub enabled: bool,
}

impl View for DiscordConfig {
    type V = DiscordConfigV;

    open spec fn view(&self) -> DiscordConfigV {
        DiscordConfigV {
            bot_token: self.bot_token@,
            channel_id: self.channel_id@,
            channel_ids: self.channel_ids.deep_view(),
            allowed_user_id: self.allowed_user_id.deep_view(),
            enabled: self.enabled,
        }
    }
}

impl DeepView for DiscordConfig {
    type V = DiscordConfigV;

    open spec fn deep_view(&self) -> DiscordConfigV {
        self@
    }
}

impl Clone for DiscordConfig {
    fn clone(&self) -> (r: DiscordConfig)
        ensures
            r@ == self@,
    {
        DiscordConfig {
            bot_token: self.bot_token.clone(),
            channel_id: self.channel_id.clone(),
            channel_ids: copy_texts(&self.channel_ids),
            allowed_user_id: copy_opt(&self.allowed_user_id),
            enabled: self.enabled,
        }
    }
}

/// A project that new threads may start in.
#[derive(Debug, PartialEq, Eq)]
pub struct RegisteredProject {
    pub id: String,
    pub label: String,
    pub cwd: String,
    pub aliases: Vec<String>,
}

/// The model of [`RegisteredProject`].
#[verifier::ext_equal]
pub struct RegisteredProjectV {
    pub id: Seq<char>,
    pub label: Seq<char>,
    pub cwd: Seq<char>,
    pub aliases: Seq<Seq<char>>,
}

impl View for RegisteredProject {
    type V = RegisteredProjectV;

    open spec fn view(&self) -> RegisteredProjectV {
        RegisteredProjectV {
            id: self.id@,
            label: self.label@,
            cwd: self.cwd@,
            aliases: self.aliases.deep_view(),
        }
    }
}

impl DeepView for RegisteredProject {
    type V = RegisteredProjectV;

    open spec fn deep_view(&self) -> RegisteredProjectV {
        self@
    }
}

impl Clone for RegisteredProject {
    fn clone(&self) -> (r: RegisteredProject)
        ensures
            r@ == self@,
    {
        RegisteredProject {
            id: self.id.clone(),
            label: self.label.clone(),
            cwd: self.cwd.clone(),
            aliases: copy_texts(&self.aliases),
        }
    }
}

/// A copy of a list of [`RegisteredProject`].
pub fn copy_registered_projects(items: &Vec<RegisteredProject>) -> (r: Vec<RegisteredProject>)
    ensures
        r.deep_view() == items.deep_view(),
{
    let mut out: Vec<RegisteredProject> = Vec::new();
    let mut i: usize = 0;
    while i < items.len()
        invariant
            i <= items@.len(),
            out@.len() == i,
            forall|k: int| 0 <= k < i ==> (#[trigger] out@[k])@ == items@[k]@,
        decreases items@.len() - i,
    {
        out.push(items[i].clone());
        i += 1;
    }
    assert(out.deep_view() =~= items.deep_view());
    out
}

/// The whole configuration.
#[derive(Debug, PartialEq, Eq)]
pub struct DaemonConfig {
    pub version: u64,
    pub bridge_command: String,
    pub events: String,
    pub telegram: Option<TelegramConfig>,
    pub discord: Option<DiscordConfig>,
    pub codex: Option<CodexConfig>,
    pub projects: Vec<RegisteredProject>,
}

/// The model of [`DaemonConfig`].
#[verifier::ext_equal]
pub struct DaemonConfigV {
    pub version: u64,
    pub bridge_command: Seq<char>,
    pub events: Seq<char>,
    pub telegram: Option<TelegramConfigV>,
    pub discord: Option<DiscordConfigV>,
    pub codex: Option<CodexConfigV>,
    pub projects: Seq<RegisteredProjectV>,
}

impl View for DaemonConfig {
    type V = DaemonConfigV;

    open spec fn view(&self) -> DaemonConfigV {
        DaemonConfigV {
            version: self.version,
            bridge_command: self.bridge_command@,
            events: self.events@,
            telegram: self.telegram.deep_view(),
            discord: self.discord.deep_view(),
            codex: self.codex.deep_view(),
            projects: self.projects.deep_view(),
        }
    }
}

impl DeepView for DaemonConfig {
    type V = DaemonConfigV;

    open spec fn deep_view(&self) -> DaemonConfigV {
        self@
    }
}

impl Clone for DaemonConfig {
    fn clone(&self) -> (r: DaemonConfig)
        ensures
            r@ == self@,
    {
        DaemonConfig {
            version: self.version,
            bridge_command: self.bridge_command.clone(),
            events: self.events.clone(),
            telegram: match &self.telegram {
                Some(v) => Some(v.clone()),
                None => None,
            },
            discord: match &self.discord {
                Some(v) => Some(v.clone()),
                None => None,
            },
            codex: match &self.codex {
                Some(v) => Some(v.clone()),
                None => None,
            },
            projects: copy_registered_projects(&self.projects),
        }
    }
}

/// Telegram is in use as soon as it is configured.
pub open spec fn telegram_enabled(telegram: Option<TelegramConfigV>) -> bool {
    telegram is Some
}

/// Discord is in use when it is configured and switched on.
pub open spec fn discord_enabled(discord: Option<DiscordConfigV>) -> bool {
    discord matches Some(d) && d.enabled
}

/// Tells whether Telegram is in use.
pub fn telegram_config_enabled(telegram: &Option<TelegramConfig>) -> (r: bool)
    ensures
        r == telegram_enabled(telegram.deep_view()),
{
    telegram.is_some()
}

/// Tells whether Discord is in use.
pub fn discord_config_enabled(discord: &Option<DiscordConfig>) -> (r: bool)
    ensures
        r == discord_enabled(discord.deep_view()),
{
    match discord {
        Some(d) => d.enabled,
        None => false,
    }
}

/// The channels of a Discord configuration: its list, else its one channel.
pub open spec fn discord_channels(discord: DiscordConfigV) -> Seq<Seq<char>> {
    if discord.channel_ids.len() > 0 {
        discord.channel_ids
    } else {
        Seq::empty().push(discord.channel_id)
    }
}

/// The channels of a Discord configuration: its list, else its one channel.
pub fn discord_config_channel_ids(discord: &DiscordConfig) -> (r: Vec<String>)
    ensures
        r.deep_view() == discord_channels(discord@),
{
    if discord.channel_ids.len() > 0 {
        copy_texts(&discord.channel_ids)
    } else {
        let mut one: Vec<String> = Vec::new();
        one.push(discord.channel_id.clone());
        assert(one.deep_view() =~= Seq::empty().push(discord@.channel_id));
        one
    }
}

// ---------------------------------------------------------------------------
// The configuration without its secrets
// ---------------------------------------------------------------------------

/// A project as JSON.
pub open spec fn project_json(p: RegisteredProjectV) -> JsonV {
    JsonV::Object(
        Seq::empty()
            .push(("id"@, JsonV::Str(p.id)))
            .push(("label"@, JsonV::Str(p.label)))
            .push(("cwd"@, JsonV::Str(p.cwd)))
            .push(("aliases"@, text_array(p.aliases))),
    )
}

/// Projects as JSON.
pub open spec fn projects_json(projects: Seq<RegisteredProjectV>) -> JsonV {
    JsonV::Array(projects.map_values(|p: RegisteredProjectV| project_json(p)))
}

/// A project as JSON.
pub fn registered_project_json(p: &RegisteredProject) -> (r: Json)
    ensures
        r@ == project_json(p@),
{
    Object::new().with("id", Json::Str(p.id.clone())).with(
        "label",
        Json::Str(p.label.clone()),
    ).with("cwd", Json::Str(p.cwd.clone())).with("aliases", Json::texts(&p.aliases)).done()
}

/// Projects as JSON.
pub fn registered_projects_json(projects: &Vec<RegisteredProject>) -> (r: Json)
    ensures
        r@ == projects_json(projects.deep_view()),
{
    let mut out: Vec<Json> = Vec::new();
    let mut i: usize = 0;
    while i < projects.len()
        invariant
            i <= projects@.len(),
            out@.len() == i,
            forall|k: int| 0 <= k < i ==> (#[trigger] out@[k])@ == project_json(projects@[k]@),
        decreases projects@.len() - i,
    {
        out.push(registered_project_json(&projects[i]));
        i += 1;
    }
    assert(out.deep_view() =~= projects.deep_view().map_values(
        |p: RegisteredProjectV| project_json(p),
    ));
    Json::array(out)
}

/// The configuration as it is shown: with every bot token replaced.
pub open spec fn redacted_config(config: DaemonConfigV) -> JsonV {
    JsonV::Object(
        Seq::empty()
            .push(("version"@, JsonV::UInt(config.version)))
            .push(("bridgeCommand"@, JsonV::Str(config.bridge_command)))
            .push(("events"@, JsonV::Str(config.events)))
            .push(
                ("telegram"@, match config.telegram {
                    Some(t) => JsonV::Object(
                        Seq::empty()
                            .push(("botToken"@, JsonV::Str("<redacted>"@)))
                            .push(("chatId"@, JsonV::Str(t.chat_id)))
                            .push(("allowedUserId"@, text_or_null(t.allowed_user_id))),
                    ),
                    None => JsonV::Null,
                }),
            )
            .push(
                ("discord"@, match config.discord {
                    Some(d) => JsonV::Object(
                        Seq::empty()
                            .push(("botToken"@, JsonV::Str("<redacted>"@)))
                            .push(("channelId"@, JsonV::Str(d.channel_id)))
                            .push(("channelIds"@, text_array(d.channel_ids)))
                            .push(("allowedUserId"@, text_or_null(d.allowed_user_id)))
                            .push(("enabled"@, JsonV::Bool(d.enabled))),
                    ),
                    None => JsonV::Null,
                }),
            )
            .push(
                ("codex"@, match config.codex {
                    Some(c) => JsonV::Object(
                        Seq::empty()
                            .push(("liveMode"@, JsonV::Str("shared"@)))
                            .push(("websocketUrl"@, JsonV::Str(c.websocket_url))),
                    ),
                    None => JsonV::Null,
                }),
            )
            .push(("projects"@, projects_json(config.projects))),
    )
}

/// The configuration as it is shown: with every bot token replaced.
pub fn redacted_daemon_config(config: &DaemonConfig) -> (r: Json)
    ensures
        r@ == redacted_config(config@),
{
    let telegram: Json = match &config.telegram {
        Some(t) => Object::new().with("botToken", Json::text("<redacted>")).with(
            "chatId",
            Json::Str(t.chat_id.clone()),
        ).with("allowedUserId", Json::opt_text(&t.allowed_user_id)).done(),
        None => Json::Null,
    };
    let discord: Json = match &config.discord {
        Some(d) => Object::new().with("botToken", Json::text("<redacted>")).with(
            "channelId",
            Json::Str(d.channel_id.clone()),
        ).with("channelIds", Json::texts(&d.channel_ids)).with(
            "allowedUserId",
            Json::opt_text(&d.allowed_user_id),
        ).with("enabled", Json::Bool(d.enabled)).done(),
        None => Json::Null,
    };
    let codex: Json = match &config.codex {
        Some(c) => Object::new().with("liveMode", Json::text("shared")).with(
            "websocketUrl",
            Json::Str(c.websocket_url.clone()),
        ).done(),
        None => Json::Null,
    };
    Object::new().with("version", Json::UInt(config.version)).with(
        "bridgeCommand",
        Json::Str(config.bridge_command.clone()),
    ).with("events", Json::Str(config.events.clone())).with("telegram", telegram).with(
        "discord",
        discord,
    ).with("codex", codex).with("projects", registered_projects_json(&config.projects)).done()
}

/// The configuration with other bot tokens.
pub open spec fn with_tokens(
    config: DaemonConfigV,
    telegram: Seq<char>,
    discord: Seq<char>,
) -> DaemonConfigV {
    DaemonConfigV {
        telegram: match config.telegram {
            Some(t) => Some(TelegramConfigV { bot_token: telegram, ..t }),
            None => None,
        },
        discord: match config.discord {
            Some(d) => Some(DiscordConfigV { bot_token: discord, ..d }),
            None => None,
        },
        ..config
    }
}

/// What is shown of a configuration does not depend on its bot tokens.
pub proof fn shown_config_hides_tokens(
    config: DaemonConfigV,
    telegram: Seq<char>,
    discord: Seq<char>,
)
    ensures
        redacted_config(with_tokens(config, telegram, discord)) == redacted_config(config),
{
}

} // verus!
