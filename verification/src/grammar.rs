//! The grammar of the command line: the words, the flags and what they take.
use vstd::prelude::*;
use vstd::string::*;

use crate::table::{first_row, position};
use crate::text::{cat, cat3, same};

verus! {

/// A command without its arguments.
#[derive(Debug, Clone, Copy, PartialEq, Eq, Structural)]
pub enum Verb {
    Setup,
    Doctor,
    AwayOn,
    AwayOff,
    AwayStatus,
    RemoteOn,
    RemoteOff,
    RemoteRepair,
    RemoteStatus,
    Threads,
    Follow,
    Unarchive,
    Waiting,
    Inbox,
    Watch,
    DaemonRun,
    DaemonInstall,
    DaemonUninstall,
    DaemonStart,
    DaemonStop,
    DaemonStatus,
    DaemonLogs,
    TelegramSetup,
    TelegramStatus,
    TelegramEnable,
    TelegramTest,
    TelegramDisable,
    DiscordSetup,
    DiscordStatus,
    DiscordEnable,
    DiscordTest,
    DiscordDisable,
    ProjectsList,
    ProjectsAdd,
    ProjectsImport,
    ProjectsRemove,
    Sync,
    New,
    Fork,
    Archive,
    Show,
    Reply,
    Approve,
    Reset,
    Mcp,
    HermesInstall,
}

/// A command that further commands stand under.
#[derive(Debug, Clone, Copy, PartialEq, Eq, Structural)]
pub enum Group {
    Root,
    Away,
    Remote,
    Daemon,
    Telegram,
    Discord,
    Projects,
    Hermes,
}

/// What a word stands for.
#[derive(Debug, Clone, Copy, PartialEq, Eq, Structural)]
pub enum Child {
    Verb(Verb),
    Group(Group),
}

/// What a flag takes.
#[derive(Debug, Clone, Copy, PartialEq, Eq, Structural)]
pub enum Takes {
    /// Nothing.
    Switch,
    /// A text.
    Text,
    /// A number.
    Number,
    /// A text, and it may be given again.
    Many,
}

/// A flag of a command.
#[derive(Debug, Clone, Copy, PartialEq, Eq)]
pub struct Flag {
    pub name: &'static str,
    pub takes: Takes,
    /// What stands for the value in the help.
    pub value_name: &'static str,
    /// The value of the flag where it is not given, as the help shows it.
    pub default: Option<&'static str>,
    pub needed: bool,
}

/// The model of [`Flag`].
pub struct FlagV {
    pub name: Seq<char>,
    pub takes: Takes,
    pub value_name: Seq<char>,
    pub default: Option<Seq<char>>,
    pub needed: bool,
}

impl View for Flag {
    type V = FlagV;

    open spec fn view(&self) -> FlagV {
        FlagV {
            name: self.name@,
            takes: self.takes,
            value_name: self.value_name@,
            default: self.default.deep_view(),
            needed: self.needed,
        }
    }
}

impl DeepView for Flag {
    type V = FlagV;

    open spec fn deep_view(&self) -> FlagV {
        self@
    }
}

/// An argument without a flag.
#[derive(Debug, Clone, Copy, PartialEq, Eq)]
pub struct Place {
    pub name: &'static str,
    pub needed: bool,
    /// Any number of words can stand there.
    pub many: bool,
}

/// The model of [`Place`].
pub struct PlaceV {
    pub name: Seq<char>,
    pub needed: bool,
    pub many: bool,
}

impl View for Place {
    type V = PlaceV;

    open spec fn view(&self) -> PlaceV {
        PlaceV { name: self.name@, needed: self.needed, many: self.many }
    }
}

impl DeepView for Place {
    type V = PlaceV;

    open spec fn deep_view(&self) -> PlaceV {
        self@
    }
}

/// A word that stands under a group.
#[derive(Debug, Clone, Copy, PartialEq, Eq)]
pub struct Word {
    pub name: &'static str,
    pub child: Child,
    /// The help passes over it.
    pub hidden: bool,
}

/// The model of [`Word`].
pub struct WordV {
    pub name: Seq<char>,
    pub child: Child,
    pub hidden: bool,
}

impl View for Word {
    type V = WordV;

    open spec fn view(&self) -> WordV {
        WordV { name: self.name@, child: self.child, hidden: self.hidden }
    }
}

impl DeepView for Word {
    type V = WordV;

    open spec fn deep_view(&self) -> WordV {
        self@
    }
}

// ---------------------------------------------------------------------------
// Words
// ---------------------------------------------------------------------------

/// A word for a command.
pub open spec fn verb_word(name: Seq<char>, verb: Verb) -> WordV {
    WordV { name, child: Child::Verb(verb), hidden: false }
}

/// A word for a command that the help passes over.
pub open spec fn hidden_word(name: Seq<char>, verb: Verb) -> WordV {
    WordV { name, child: Child::Verb(verb), hidden: true }
}

/// A word for a group.
pub open spec fn group_word(name: Seq<char>, group: Group) -> WordV {
    WordV { name, child: Child::Group(group), hidden: false }
}

/// The words under a group.
pub open spec fn words_under(group: Group) -> Seq<WordV> {
    match group {
        Group::Root => Seq::empty()
            .push(verb_word("setup"@, Verb::Setup))
            .push(verb_word("doctor"@, Verb::Doctor))
            .push(group_word("away"@, Group::Away))
            .push(group_word("remote"@, Group::Remote))
            .push(verb_word("threads"@, Verb::Threads))
            .push(hidden_word("follow"@, Verb::Follow))
            .push(hidden_word("unarchive"@, Verb::Unarchive))
            .push(verb_word("waiting"@, Verb::Waiting))
            .push(verb_word("inbox"@, Verb::Inbox))
            .push(hidden_word("watch"@, Verb::Watch))
            .push(group_word("daemon"@, Group::Daemon))
            .push(group_word("telegram"@, Group::Telegram))
            .push(group_word("discord"@, Group::Discord))
            .push(group_word("projects"@, Group::Projects))
            .push(hidden_word("sync"@, Verb::Sync))
            .push(hidden_word("new"@, Verb::New))
            .push(hidden_word("fork"@, Verb::Fork))
            .push(hidden_word("archive"@, Verb::Archive))
            .push(verb_word("show"@, Verb::Show))
            .push(verb_word("reply"@, Verb::Reply))
            .push(verb_word("approve"@, Verb::Approve))
            .push(verb_word("reset"@, Verb::Reset))
            .push(verb_word("mcp"@, Verb::Mcp))
            .push(group_word("hermes"@, Group::Hermes)),
        Group::Away => Seq::empty()
            .push(verb_word("on"@, Verb::AwayOn))
            .push(verb_word("off"@, Verb::AwayOff))
            .push(verb_word("status"@, Verb::AwayStatus)),
        Group::Remote => Seq::empty()
            .push(verb_word("on"@, Verb::RemoteOn))
            .push(verb_word("off"@, Verb::RemoteOff))
            .push(verb_word("repair"@, Verb::RemoteRepair))
            .push(verb_word("status"@, Verb::RemoteStatus)),
        Group::Daemon => Seq::empty()
            .push(verb_word("run"@, Verb::DaemonRun))
            .push(verb_word("install"@, Verb::DaemonInstall))
            .push(verb_word("uninstall"@, Verb::DaemonUninstall))
            .push(verb_word("start"@, Verb::DaemonStart))
            .push(verb_word("stop"@, Verb::DaemonStop))
            .push(verb_word("status"@, Verb::DaemonStatus))
            .push(verb_word("logs"@, Verb::DaemonLogs)),
        Group::Telegram => Seq::empty()
            .push(verb_word("setup"@, Verb::TelegramSetup))
            .push(verb_word("status"@, Verb::TelegramStatus))
            .push(verb_word("enable"@, Verb::TelegramEnable))
            .push(verb_word("test"@, Verb::TelegramTest))
            .push(verb_word("disable"@, Verb::TelegramDisable)),
        Group::Discord => Seq::empty()
            .push(verb_word("setup"@, Verb::DiscordSetup))
            .push(verb_word("status"@, Verb::DiscordStatus))
            .push(verb_word("enable"@, Verb::DiscordEnable))
            .push(verb_word("test"@, Verb::DiscordTest))
            .push(verb_word("disable"@, Verb::DiscordDisable)),
        Group::Projects => Seq::empty()
            .push(verb_word("list"@, Verb::ProjectsList))
            .push(verb_word("add"@, Verb::ProjectsAdd))
            .push(verb_word("import"@, Verb::ProjectsImport))
            .push(verb_word("remove"@, Verb::ProjectsRemove)),
        Group::Hermes => Seq::empty()
            .push(verb_word("install"@, Verb::HermesInstall)),
    }
}

/// The words under a group, as they are put together.
struct Words {
    rows: Vec<Word>,
}

impl View for Words {
    type V = Seq<WordV>;

    closed spec fn view(&self) -> Seq<WordV> {
        self.rows.deep_view()
    }
}

impl Words {
    fn none() -> (r: Words)
        ensures
            r@ == Seq::<WordV>::empty(),
    {
        let r = Words { rows: Vec::new() };
        assert(r@ =~= Seq::<WordV>::empty());
        r
    }

    fn word(self, name: &'static str, child: Child, hidden: bool) -> (r: Words)
        ensures
            r@ == self@.push((WordV { name: name@, child, hidden })),
    {
        let ghost before = self@;
        let mut r = self;
        r.rows.push(Word { name, child, hidden });
        assert(r@ =~= before.push((WordV { name: name@, child, hidden })));
        r
    }

    fn verb(self, name: &'static str, verb: Verb) -> (r: Words)
        ensures
            r@ == self@.push(verb_word(name@, verb)),
    {
        self.word(name, Child::Verb(verb), false)
    }

    fn hidden(self, name: &'static str, verb: Verb) -> (r: Words)
        ensures
            r@ == self@.push(hidden_word(name@, verb)),
    {
        self.word(name, Child::Verb(verb), true)
    }

    fn group(self, name: &'static str, group: Group) -> (r: Words)
        ensures
            r@ == self@.push(group_word(name@, group)),
    {
        self.word(name, Child::Group(group), false)
    }
}

/// The words under a group.
pub(crate) fn words_of(group: Group) -> (r: Vec<Word>)
    ensures
        r.deep_view() == words_under(group),
{
    let words = match group {
        Group::Root => Words::none()
            .verb("setup", Verb::Setup)
            .verb("doctor", Verb::Doctor)
            .group("away", Group::Away)
            .group("remote", Group::Remote)
            .verb("threads", Verb::Threads)
            .hidden("follow", Verb::Follow)
            .hidden("unarchive", Verb::Unarchive)
            .verb("waiting", Verb::Waiting)
            .verb("inbox", Verb::Inbox)
            .hidden("watch", Verb::Watch)
            .group("daemon", Group::Daemon)
            .group("telegram", Group::Telegram)
            .group("discord", Group::Discord)
            .group("projects", Group::Projects)
            .hidden("sync", Verb::Sync)
            .hidden("new", Verb::New)
            .hidden("fork", Verb::Fork)
            .hidden("archive", Verb::Archive)
            .verb("show", Verb::Show)
            .verb("reply", Verb::Reply)
            .verb("approve", Verb::Approve)
            .verb("reset", Verb::Reset)
            .verb("mcp", Verb::Mcp)
            .group("hermes", Group::Hermes),
        Group::Away => Words::none()
            .verb("on", Verb::AwayOn)
            .verb("off", Verb::AwayOff)
            .verb("status", Verb::AwayStatus),
        Group::Remote => Words::none()
            .verb("on", Verb::RemoteOn)
            .verb("off", Verb::RemoteOff)
            .verb("repair", Verb::RemoteRepair)
            .verb("status", Verb::RemoteStatus),
        Group::Daemon => Words::none()
            .verb("run", Verb::DaemonRun)
            .verb("install", Verb::DaemonInstall)
            .verb("uninstall", Verb::DaemonUninstall)
            .verb("start", Verb::DaemonStart)
            .verb("stop", Verb::DaemonStop)
            .verb("status", Verb::DaemonStatus)
            .verb("logs", Verb::DaemonLogs),
        Group::Telegram => Words::none()
            .verb("setup", Verb::TelegramSetup)
            .verb("status", Verb::TelegramStatus)
            .verb("enable", Verb::TelegramEnable)
            .verb("test", Verb::TelegramTest)
            .verb("disable", Verb::TelegramDisable),
        Group::Discord => Words::none()
            .verb("setup", Verb::DiscordSetup)
            .verb("status", Verb::DiscordStatus)
            .verb("enable", Verb::DiscordEnable)
            .verb("test", Verb::DiscordTest)
            .verb("disable", Verb::DiscordDisable),
        Group::Projects => Words::none()
            .verb("list", Verb::ProjectsList)
            .verb("add", Verb::ProjectsAdd)
            .verb("import", Verb::ProjectsImport)
            .verb("remove", Verb::ProjectsRemove),
        Group::Hermes => Words::none()
            .verb("install", Verb::HermesInstall),
    };
    words.rows
}

/// The word is this one.
pub open spec fn word_called(name: Seq<char>) -> spec_fn(WordV) -> bool {
    |w: WordV| w.name == name
}

/// What a word stands for under a group.
pub open spec fn child(group: Group, name: Seq<char>) -> Option<Child> {
    match first_row(words_under(group), word_called(name)) {
        Some(word) => Some(word.child),
        None => None,
    }
}

/// What a word stands for under a group.
pub(crate) fn child_of(group: Group, name: &str) -> (r: Option<Child>)
    ensures
        r == child(group, name@),
{
    let words = words_of(group);
    let ghost all = words.deep_view();
    let ghost hit = word_called(name@);
    let mut i: usize = 0;
    while i < words.len()
        invariant
            i <= words@.len(),
            all == words.deep_view(),
            all == words_under(group),
            hit == word_called(name@),
            position(all, hit, 0) == position(all, hit, i as nat),
        decreases words@.len() - i,
    {
        assert(all[i as int] == words@[i as int]@);
        if same(words[i].name, name) {
            assert(hit(all[i as int]));
            return Some(words[i].child);
        }
        i += 1;
    }
    None
}

// ---------------------------------------------------------------------------
// Flags
// ---------------------------------------------------------------------------

/// A flag without a value.
pub open spec fn switch_flag(name: Seq<char>) -> FlagV {
    FlagV { name, takes: Takes::Switch, value_name: ""@, default: None, needed: false }
}

/// A flag with a text.
pub open spec fn text_flag(name: Seq<char>, value_name: Seq<char>) -> FlagV {
    FlagV { name, takes: Takes::Text, value_name, default: None, needed: false }
}

/// A flag with a text that has a default.
pub open spec fn text_or_flag(name: Seq<char>, value_name: Seq<char>, default: Seq<char>) -> FlagV {
    FlagV { name, takes: Takes::Text, value_name, default: Some(default), needed: false }
}

/// A flag with a number that has a default.
pub open spec fn number_flag(name: Seq<char>, value_name: Seq<char>, default: Seq<char>) -> FlagV {
    FlagV { name, takes: Takes::Number, value_name, default: Some(default), needed: false }
}

/// A flag with a text that may be given again.
pub open spec fn many_flag(name: Seq<char>, value_name: Seq<char>, needed: bool) -> FlagV {
    FlagV { name, takes: Takes::Many, value_name, default: None, needed }
}

/// Flags with those of a command that can follow what it does.
pub open spec fn with_follow_flags(rows: Seq<FlagV>) -> Seq<FlagV> {
    rows
        .push(switch_flag("dry-run"@))
        .push(switch_flag("follow"@))
        .push(switch_flag("stream"@))
        .push(number_flag("duration"@, "DURATION"@, "3000"@))
        .push(number_flag("poll-interval"@, "POLL_INTERVAL"@, "1000"@))
        .push(text_flag("events"@, "EVENTS"@))
}

/// The flags of a command.
pub open spec fn flags(verb: Verb) -> Seq<FlagV> {
    match verb {
        Verb::Setup => Seq::empty()
            .push(text_flag("bot-token"@, "BOT_TOKEN"@))
            .push(text_flag("chat-id"@, "CHAT_ID"@))
            .push(text_flag("allowed-user-id"@, "ALLOWED_USER_ID"@))
            .push(text_or_flag("events"@, "EVENTS"@, "thread_waiting,thread_completed"@))
            .push(text_or_flag("bridge-command"@, "BRIDGE_COMMAND"@, "codex-telegram-bridge"@))
            .push(text_or_flag("websocket-url"@, "WEBSOCKET_URL"@, "ws://127.0.0.1:4500"@))
            .push(text_or_flag("daemon-label"@, "DAEMON_LABEL"@, "com.hanifcarroll.codex-telegram-bridge"@))
            .push(switch_flag("no-install-daemon"@))
            .push(switch_flag("no-start-daemon"@))
            .push(switch_flag("register-hermes"@))
            .push(text_or_flag("hermes-server-name"@, "HERMES_SERVER_NAME"@, "codex"@))
            .push(text_or_flag("hermes-command"@, "HERMES_COMMAND"@, "hermes"@))
            .push(number_flag("pair-timeout-ms"@, "PAIR_TIMEOUT_MS"@, "60000"@))
            .push(switch_flag("dry-run"@)),
        Verb::Doctor | Verb::AwayOn | Verb::AwayOff | Verb::AwayStatus | Verb::RemoteOn
        | Verb::RemoteOff | Verb::RemoteRepair | Verb::RemoteStatus | Verb::TelegramStatus
        | Verb::DiscordStatus | Verb::Show | Verb::Mcp => Seq::empty(),
        Verb::Threads => Seq::empty()
            .push(number_flag("limit"@, "LIMIT"@, "25"@)),
        Verb::Follow => Seq::empty()
            .push(text_flag("message"@, "MESSAGE"@))
            .push(number_flag("duration"@, "DURATION"@, "3000"@))
            .push(number_flag("poll-interval"@, "POLL_INTERVAL"@, "1000"@))
            .push(text_flag("events"@, "EVENTS"@)),
        Verb::Unarchive | Verb::TelegramEnable | Verb::TelegramDisable | Verb::DiscordEnable
        | Verb::DiscordDisable | Verb::ProjectsRemove | Verb::Reset => Seq::empty()
            .push(switch_flag("dry-run"@)),
        Verb::Waiting => Seq::empty()
            .push(text_flag("project"@, "PROJECT"@))
            .push(number_flag("limit"@, "LIMIT"@, "25"@)),
        Verb::Inbox => Seq::empty()
            .push(text_flag("project"@, "PROJECT"@))
            .push(text_flag("status"@, "STATUS"@))
            .push(text_flag("attention"@, "ATTENTION"@))
            .push(text_flag("waiting-on"@, "WAITING_ON"@))
            .push(number_flag("limit"@, "LIMIT"@, "25"@)),
        Verb::Watch => Seq::empty()
            .push(switch_flag("once"@))
            .push(text_flag("exec"@, "EXEC"@))
            .push(text_flag("events"@, "EVENTS"@)),
        Verb::DaemonRun => Seq::empty()
            .push(switch_flag("once"@))
            .push(number_flag("poll-interval"@, "POLL_INTERVAL"@, "1500"@))
            .push(number_flag("timeout-ms"@, "TIMEOUT_MS"@, "10000"@)),
        Verb::DaemonInstall => Seq::empty()
            .push(switch_flag("dry-run"@))
            .push(text_or_flag("label"@, "LABEL"@, "com.hanifcarroll.codex-telegram-bridge"@))
            .push(text_or_flag("bridge-command"@, "BRIDGE_COMMAND"@, "codex-telegram-bridge"@)),
        Verb::DaemonUninstall | Verb::DaemonStart | Verb::DaemonStop => Seq::empty()
            .push(switch_flag("dry-run"@))
            .push(text_or_flag("label"@, "LABEL"@, "com.hanifcarroll.codex-telegram-bridge"@)),
        Verb::DaemonStatus | Verb::DaemonLogs => Seq::empty()
            .push(text_or_flag("label"@, "LABEL"@, "com.hanifcarroll.codex-telegram-bridge"@)),
        Verb::TelegramSetup => Seq::empty()
            .push(text_flag("bot-token"@, "BOT_TOKEN"@))
            .push(text_flag("chat-id"@, "CHAT_ID"@))
            .push(text_flag("allowed-user-id"@, "ALLOWED_USER_ID"@))
            .push(text_or_flag("events"@, "EVENTS"@, "thread_waiting,thread_completed"@))
            .push(text_or_flag("bridge-command"@, "BRIDGE_COMMAND"@, "codex-telegram-bridge"@))
            .push(text_or_flag("websocket-url"@, "WEBSOCKET_URL"@, "ws://127.0.0.1:4500"@))
            .push(number_flag("pair-timeout-ms"@, "PAIR_TIMEOUT_MS"@, "60000"@))
            .push(switch_flag("dry-run"@)),
        Verb::TelegramTest => Seq::empty()
            .push(text_or_flag("message"@, "MESSAGE"@, "\"Codex Telegram bridge test\""@))
            .push(number_flag("timeout-ms"@, "TIMEOUT_MS"@, "10000"@))
            .push(switch_flag("dry-run"@)),
        Verb::DiscordSetup => Seq::empty()
            .push(text_flag("bot-token"@, "BOT_TOKEN"@))
            .push(many_flag("channel-id"@, "CHANNEL_IDS"@, true))
            .push(text_flag("allowed-user-id"@, "ALLOWED_USER_ID"@))
            .push(text_or_flag("events"@, "EVENTS"@, "thread_waiting,thread_completed"@))
            .push(text_or_flag("bridge-command"@, "BRIDGE_COMMAND"@, "codex-telegram-bridge"@))
            .push(text_or_flag("websocket-url"@, "WEBSOCKET_URL"@, "ws://127.0.0.1:4500"@))
            .push(switch_flag("dry-run"@)),
        Verb::DiscordTest => Seq::empty()
            .push(text_or_flag("message"@, "MESSAGE"@, "\"Codex Discord bridge test\""@))
            .push(number_flag("timeout-ms"@, "TIMEOUT_MS"@, "10000"@))
            .push(switch_flag("dry-run"@)),
        Verb::ProjectsList => Seq::empty()
            .push(number_flag("observed-limit"@, "OBSERVED_LIMIT"@, "10"@)),
        Verb::ProjectsAdd => Seq::empty()
            .push(text_flag("id"@, "ID"@))
            .push(text_flag("label"@, "LABEL"@))
            .push(many_flag("alias"@, "ALIASES"@, false))
            .push(switch_flag("dry-run"@)),
        Verb::ProjectsImport => Seq::empty()
            .push(number_flag("limit"@, "LIMIT"@, "25"@))
            .push(switch_flag("dry-run"@)),
        Verb::Sync => Seq::empty()
            .push(number_flag("limit"@, "LIMIT"@, "50"@)),
        Verb::New => with_follow_flags(
            Seq::empty()
                .push(text_flag("cwd"@, "CWD"@))
                .push(text_flag("message"@, "MESSAGE"@)),
        ),
        Verb::Fork | Verb::Reply => with_follow_flags(
            Seq::empty()
                .push(text_flag("message"@, "MESSAGE"@)),
        ),
        Verb::Archive => Seq::empty()
            .push(text_flag("thread-id"@, "THREAD_ID_OPTION"@))
            .push(text_flag("project"@, "PROJECT"@))
            .push(text_flag("status"@, "STATUS"@))
            .push(text_flag("attention"@, "ATTENTION"@))
            .push(number_flag("limit"@, "LIMIT"@, "100"@))
            .push(switch_flag("dry-run"@))
            .push(switch_flag("yes"@)),
        Verb::Approve => with_follow_flags(
            Seq::empty()
                .push(text_flag("decision"@, "DECISION"@)),
        ),
        Verb::HermesInstall => Seq::empty()
            .push(text_or_flag("server-name"@, "SERVER_NAME"@, "codex"@))
            .push(text_or_flag("hermes-command"@, "HERMES_COMMAND"@, "hermes"@))
            .push(text_or_flag("bridge-command"@, "BRIDGE_COMMAND"@, "codex-telegram-bridge"@))
            .push(switch_flag("dry-run"@)),
    }
}

/// Flags, as they are put together.
struct Flags {
    rows: Vec<Flag>,
}

impl View for Flags {
    type V = Seq<FlagV>;

    closed spec fn view(&self) -> Seq<FlagV> {
        self.rows.deep_view()
    }
}

impl Flags {
    fn none() -> (r: Flags)
        ensures
            r@ == Seq::<FlagV>::empty(),
    {
        let r = Flags { rows: Vec::new() };
        assert(r@ =~= Seq::<FlagV>::empty());
        r
    }

    fn flag(self, flag: Flag) -> (r: Flags)
        ensures
            r@ == self@.push(flag@),
    {
        let ghost before = self@;
        let mut r = self;
        r.rows.push(flag);
        assert(r@ =~= before.push(flag@));
        r
    }

    fn switch(self, name: &'static str) -> (r: Flags)
        ensures
            r@ == self@.push(switch_flag(name@)),
    {
        self.flag(Flag { name, takes: Takes::Switch, value_name: "", default: None, needed: false })
    }

    fn text(self, name: &'static str, value_name: &'static str) -> (r: Flags)
        ensures
            r@ == self@.push(text_flag(name@, value_name@)),
    {
        self.flag(Flag { name, takes: Takes::Text, value_name, default: None, needed: false })
    }

    fn text_or(
        self,
        name: &'static str,
        value_name: &'static str,
        default: &'static str,
    ) -> (r: Flags)
        ensures
            r@ == self@.push(text_or_flag(name@, value_name@, default@)),
    {
        let default = Some(default);
        self.flag(Flag { name, takes: Takes::Text, value_name, default, needed: false })
    }

    fn number(
        self,
        name: &'static str,
        value_name: &'static str,
        default: &'static str,
    ) -> (r: Flags)
        ensures
            r@ == self@.push(number_flag(name@, value_name@, default@)),
    {
        let default = Some(default);
        self.flag(Flag { name, takes: Takes::Number, value_name, default, needed: false })
    }

    fn many(self, name: &'static str, value_name: &'static str, needed: bool) -> (r: Flags)
        ensures
            r@ == self@.push(many_flag(name@, value_name@, needed)),
    {
        self.flag(Flag { name, takes: Takes::Many, value_name, default: None, needed })
    }

    fn follow(self) -> (r: Flags)
        ensures
            r@ == with_follow_flags(self@),
    {
        self.switch("dry-run").switch("follow").switch("stream").number(
            "duration",
            "DURATION",
            "3000",
        ).number("poll-interval", "POLL_INTERVAL", "1000").text("events", "EVENTS")
    }
}

/// The flags of a command.
pub(crate) fn flags_of(verb: Verb) -> (r: Vec<Flag>)
    ensures
        r.deep_view() == flags(verb),
{
    let flags = match verb {
        Verb::Setup => Flags::none()
            .text("bot-token", "BOT_TOKEN")
            .text("chat-id", "CHAT_ID")
            .text("allowed-user-id", "ALLOWED_USER_ID")
            .text_or("events", "EVENTS", "thread_waiting,thread_completed")
            .text_or("bridge-command", "BRIDGE_COMMAND", "codex-telegram-bridge")
            .text_or("websocket-url", "WEBSOCKET_URL", "ws://127.0.0.1:4500")
            .text_or("daemon-label", "DAEMON_LABEL", "com.hanifcarroll.codex-telegram-bridge")
            .switch("no-install-daemon")
            .switch("no-start-daemon")
            .switch("register-hermes")
            .text_or("hermes-server-name", "HERMES_SERVER_NAME", "codex")
            .text_or("hermes-command", "HERMES_COMMAND", "hermes")
            .number("pair-timeout-ms", "PAIR_TIMEOUT_MS", "60000")
            .switch("dry-run"),
        Verb::Doctor | Verb::AwayOn | Verb::AwayOff | Verb::AwayStatus | Verb::RemoteOn
        | Verb::RemoteOff | Verb::RemoteRepair | Verb::RemoteStatus | Verb::TelegramStatus
        | Verb::DiscordStatus | Verb::Show | Verb::Mcp => Flags::none(),
        Verb::Threads => Flags::none()
            .number("limit", "LIMIT", "25"),
        Verb::Follow => Flags::none()
            .text("message", "MESSAGE")
            .number("duration", "DURATION", "3000")
            .number("poll-interval", "POLL_INTERVAL", "1000")
            .text("events", "EVENTS"),
        Verb::Unarchive | Verb::TelegramEnable | Verb::TelegramDisable | Verb::DiscordEnable
        | Verb::DiscordDisable | Verb::ProjectsRemove | Verb::Reset => Flags::none()
            .switch("dry-run"),
        Verb::Waiting => Flags::none()
            .text("project", "PROJECT")
            .number("limit", "LIMIT", "25"),
        Verb::Inbox => Flags::none()
            .text("project", "PROJECT")
            .text("status", "STATUS")
            .text("attention", "ATTENTION")
            .text("waiting-on", "WAITING_ON")
            .number("limit", "LIMIT", "25"),
        Verb::Watch => Flags::none()
            .switch("once")
            .text("exec", "EXEC")
            .text("events", "EVENTS"),
        Verb::DaemonRun => Flags::none()
            .switch("once")
            .number("poll-interval", "POLL_INTERVAL", "1500")
            .number("timeout-ms", "TIMEOUT_MS", "10000"),
        Verb::DaemonInstall => Flags::none()
            .switch("dry-run")
            .text_or("label", "LABEL", "com.hanifcarroll.codex-telegram-bridge")
            .text_or("bridge-command", "BRIDGE_COMMAND", "codex-telegram-bridge"),
        Verb::DaemonUninstall | Verb::DaemonStart | Verb::DaemonStop => Flags::none()
            .switch("dry-run")
            .text_or("label", "LABEL", "com.hanifcarroll.codex-telegram-bridge"),
        Verb::DaemonStatus | Verb::DaemonLogs => Flags::none()
            .text_or("label", "LABEL", "com.hanifcarroll.codex-telegram-bridge"),
        Verb::TelegramSetup => Flags::none()
            .text("bot-token", "BOT_TOKEN")
            .text("chat-id", "CHAT_ID")
            .text("allowed-user-id", "ALLOWED_USER_ID")
            .text_or("events", "EVENTS", "thread_waiting,thread_completed")
            .text_or("bridge-command", "BRIDGE_COMMAND", "codex-telegram-bridge")
            .text_or("websocket-url", "WEBSOCKET_URL", "ws://127.0.0.1:4500")
            .number("pair-timeout-ms", "PAIR_TIMEOUT_MS", "60000")
            .switch("dry-run"),
        Verb::TelegramTest => Flags::none()
            .text_or("message", "MESSAGE", "\"Codex Telegram bridge test\"")
            .number("timeout-ms", "TIMEOUT_MS", "10000")
            .switch("dry-run"),
        Verb::DiscordSetup => Flags::none()
            .text("bot-token", "BOT_TOKEN")
            .many("channel-id", "CHANNEL_IDS", true)
            .text("allowed-user-id", "ALLOWED_USER_ID")
            .text_or("events", "EVENTS", "thread_waiting,thread_completed")
            .text_or("bridge-command", "BRIDGE_COMMAND", "codex-telegram-bridge")
            .text_or("websocket-url", "WEBSOCKET_URL", "ws://127.0.0.1:4500")
            .switch("dry-run"),
        Verb::DiscordTest => Flags::none()
            .text_or("message", "MESSAGE", "\"Codex Discord bridge test\"")
            .number("timeout-ms", "TIMEOUT_MS", "10000")
            .switch("dry-run"),
        Verb::ProjectsList => Flags::none()
            .number("observed-limit", "OBSERVED_LIMIT", "10"),
        Verb::ProjectsAdd => Flags::none()
            .text("id", "ID")
            .text("label", "LABEL")
            .many("alias", "ALIASES", false)
            .switch("dry-run"),
        Verb::ProjectsImport => Flags::none()
            .number("limit", "LIMIT", "25")
            .switch("dry-run"),
        Verb::Sync => Flags::none()
            .number("limit", "LIMIT", "50"),
        Verb::New => Flags::none()
            .text("cwd", "CWD")
            .text("message", "MESSAGE")
            .follow(),
        Verb::Fork | Verb::Reply => Flags::none()
            .text("message", "MESSAGE")
            .follow(),
        Verb::Archive => Flags::none()
            .text("thread-id", "THREAD_ID_OPTION")
            .text("project", "PROJECT")
            .text("status", "STATUS")
            .text("attention", "ATTENTION")
            .number("limit", "LIMIT", "100")
            .switch("dry-run")
            .switch("yes"),
        Verb::Approve => Flags::none()
            .text("decision", "DECISION")
            .follow(),
        Verb::HermesInstall => Flags::none()
            .text_or("server-name", "SERVER_NAME", "codex")
            .text_or("hermes-command", "HERMES_COMMAND", "hermes")
            .text_or("bridge-command", "BRIDGE_COMMAND", "codex-telegram-bridge")
            .switch("dry-run"),
    };
    flags.rows
}

/// The flag is this one.
pub open spec fn flag_called(name: Seq<char>) -> spec_fn(FlagV) -> bool {
    |f: FlagV| f.name == name
}

/// A flag of a command.
pub open spec fn flag_at(verb: Verb, name: Seq<char>) -> Option<FlagV> {
    first_row(flags(verb), flag_called(name))
}

/// What a flag of a command takes; none where the command has no such flag.
pub open spec fn flag_kind(verb: Verb, name: Seq<char>) -> Option<Takes> {
    match flag_at(verb, name) {
        Some(flag) => Some(flag.takes),
        None => None,
    }
}

/// A flag of a command.
pub(crate) fn find_flag(verb: Verb, name: &str) -> (r: Option<Flag>)
    ensures
        r.deep_view() == flag_at(verb, name@),
{
    let rows = flags_of(verb);
    let ghost all = rows.deep_view();
    let ghost hit = flag_called(name@);
    let mut i: usize = 0;
    while i < rows.len()
        invariant
            i <= rows@.len(),
            all == rows.deep_view(),
            all == flags(verb),
            hit == flag_called(name@),
            position(all, hit, 0) == position(all, hit, i as nat),
        decreases rows@.len() - i,
    {
        assert(all[i as int] == rows@[i as int]@);
        if same(rows[i].name, name) {
            assert(hit(all[i as int]));
            return Some(rows[i]);
        }
        i += 1;
    }
    None
}

/// A flag as it is shown, with what stands for its value.
pub open spec fn label(flag: FlagV) -> Seq<char> {
    if flag.takes == Takes::Switch {
        "--"@ + flag.name
    } else {
        "--"@ + flag.name + " <"@ + flag.value_name + ">"@
    }
}

/// A flag as it is shown, with what stands for its value.
pub(crate) fn flag_label(flag: &Flag) -> (r: String)
    ensures
        r@ == label(flag@),
{
    let mut text = cat("--", flag.name);
    match flag.takes {
        Takes::Switch => {},
        _ => {
            text.append(" <");
            text.append(flag.value_name);
            text.append(">");
        },
    }
    text
}

// ---------------------------------------------------------------------------
// Arguments without a flag
// ---------------------------------------------------------------------------

/// A place that has to be filled.
pub open spec fn needed_place(name: Seq<char>) -> PlaceV {
    PlaceV { name, needed: true, many: false }
}

/// A place for one word that can stay empty.
pub open spec fn free_place(name: Seq<char>) -> PlaceV {
    PlaceV { name, needed: false, many: false }
}

/// A place for any number of words.
pub open spec fn wide_place(name: Seq<char>) -> PlaceV {
    PlaceV { name, needed: false, many: true }
}

/// The arguments of a command that have no flag.
pub open spec fn places(verb: Verb) -> Seq<PlaceV> {
    match verb {
        Verb::Follow | Verb::Unarchive | Verb::Show => {
            Seq::empty().push(needed_place("THREAD_ID"@))
        },
        Verb::ProjectsAdd => Seq::empty().push(needed_place("CWD"@)),
        Verb::ProjectsRemove => Seq::empty().push(needed_place("ID"@)),
        Verb::New => Seq::empty().push(wide_place("PROMPT"@)),
        Verb::Fork | Verb::Reply => {
            Seq::empty().push(needed_place("THREAD_ID"@)).push(wide_place("PROMPT"@))
        },
        Verb::Archive => Seq::empty().push(wide_place("THREAD_IDS"@)),
        Verb::Approve => Seq::empty().push(needed_place("THREAD_ID"@)).push(free_place("POSITIONAL_DECISION"@)),
        _ => Seq::empty(),
    }
}

/// Places, as they are put together.
struct Places {
    rows: Vec<Place>,
}

impl View for Places {
    type V = Seq<PlaceV>;

    closed spec fn view(&self) -> Seq<PlaceV> {
        self.rows.deep_view()
    }
}

impl Places {
    fn none() -> (r: Places)
        ensures
            r@ == Seq::<PlaceV>::empty(),
    {
        let r = Places { rows: Vec::new() };
        assert(r@ =~= Seq::<PlaceV>::empty());
        r
    }

    fn place(self, place: Place) -> (r: Places)
        ensures
            r@ == self@.push(place@),
    {
        let ghost before = self@;
        let mut r = self;
        r.rows.push(place);
        assert(r@ =~= before.push(place@));
        r
    }

    fn needed(self, name: &'static str) -> (r: Places)
        ensures
            r@ == self@.push(needed_place(name@)),
    {
        self.place(Place { name, needed: true, many: false })
    }

    fn free(self, name: &'static str) -> (r: Places)
        ensures
            r@ == self@.push(free_place(name@)),
    {
        self.place(Place { name, needed: false, many: false })
    }

    fn wide(self, name: &'static str) -> (r: Places)
        ensures
            r@ == self@.push(wide_place(name@)),
    {
        self.place(Place { name, needed: false, many: true })
    }
}

/// The arguments of a command that have no flag.
pub(crate) fn places_of(verb: Verb) -> (r: Vec<Place>)
    ensures
        r.deep_view() == places(verb),
{
    let places = match verb {
        Verb::Follow | Verb::Unarchive | Verb::Show => Places::none().needed("THREAD_ID"),
        Verb::ProjectsAdd => Places::none().needed("CWD"),
        Verb::ProjectsRemove => Places::none().needed("ID"),
        Verb::New => Places::none().wide("PROMPT"),
        Verb::Fork | Verb::Reply => Places::none().needed("THREAD_ID").wide("PROMPT"),
        Verb::Archive => Places::none().wide("THREAD_IDS"),
        Verb::Approve => Places::none().needed("THREAD_ID").free("POSITIONAL_DECISION"),
        _ => Places::none(),
    };
    places.rows
}

/// A place as it is shown.
pub open spec fn place_label(place: PlaceV) -> Seq<char> {
    if place.needed {
        "<"@ + place.name + ">"@
    } else if place.many {
        "["@ + place.name + "]..."@
    } else {
        "["@ + place.name + "]"@
    }
}

/// A place as it is shown.
pub(crate) fn shown_place(place: &Place) -> (r: String)
    ensures
        r@ == place_label(place@),
{
    if place.needed {
        cat3("<", place.name, ">")
    } else if place.many {
        cat3("[", place.name, "]...")
    } else {
        cat3("[", place.name, "]")
    }
}

/// A command takes a further argument without a flag after this many.
pub open spec fn has_place(verb: Verb, n: nat) -> bool {
    n < places(verb).len() || (places(verb).len() > 0 && places(verb).last().many)
}

/// Tells whether a command takes a further argument without a flag.
pub(crate) fn takes_place(verb: Verb, n: usize) -> (r: bool)
    ensures
        r == has_place(verb, n as nat),
{
    let rows = places_of(verb);
    let ghost all = places(verb);
    let total: usize = rows.len();
    assert(all.len() == total);
    if n < total {
        true
    } else if total > 0 {
        assert(all[total - 1] == rows@[total - 1]@);
        rows[total - 1].many
    } else {
        false
    }
}

// ---------------------------------------------------------------------------
// What the commands are for
// ---------------------------------------------------------------------------

/// What a command is for.
pub open spec fn verb_about(verb: Verb) -> Seq<char> {
    match verb {
        Verb::Setup => "Configure Telegram delivery, shared live backend, daemon service, and optional Hermes MCP"@,
        Verb::Doctor => "Inspect Codex setup"@,
        Verb::AwayOn | Verb::AwayOff | Verb::AwayStatus => ""@,
        Verb::RemoteOn => "Start or reuse the shared live backend and enable away mode"@,
        Verb::RemoteOff => "Disable away mode and clear pending Telegram notifications"@,
        Verb::RemoteRepair => "Restart the shared live backend and keep away mode enabled"@,
        Verb::RemoteStatus => "Show remote mode, backend, and pending notification state"@,
        Verb::Threads => "List recent Codex threads"@,
        Verb::Follow => "Stream thread updates"@,
        Verb::Unarchive => "Unarchive a Codex thread"@,
        Verb::Waiting => "List threads waiting for user attention"@,
        Verb::Inbox => "List actionable thread inbox rows"@,
        Verb::Watch => "Watch for thread changes and emit JSON events"@,
        Verb::DaemonRun => "Run the proactive Codex notification daemon"@,
        Verb::DaemonInstall => "Install the proactive notification daemon as a user service"@,
        Verb::DaemonUninstall => "Uninstall the proactive notification daemon user service"@,
        Verb::DaemonStart => "Start the proactive notification daemon user service"@,
        Verb::DaemonStop => "Stop the proactive notification daemon user service"@,
        Verb::DaemonStatus => "Show proactive notification daemon status"@,
        Verb::DaemonLogs => "Show proactive notification daemon log paths"@,
        Verb::TelegramSetup => "Configure the bridge-owned Telegram bot transport and shared live backend"@,
        Verb::TelegramStatus => "Show direct Telegram transport configuration"@,
        Verb::TelegramEnable => "Enable direct Telegram delivery and bot polling without changing setup"@,
        Verb::TelegramTest => "Send a test Telegram notification using the bridge config"@,
        Verb::TelegramDisable => "Disable direct Telegram delivery and bot polling without deleting setup"@,
        Verb::DiscordSetup => "Configure the bridge-owned Discord bot transport and shared live backend"@,
        Verb::DiscordStatus => "Show Discord transport configuration"@,
        Verb::DiscordEnable => "Enable Discord delivery and bot polling without changing setup"@,
        Verb::DiscordTest => "Send a test Discord notification using the bridge config"@,
        Verb::DiscordDisable => "Disable Discord delivery and bot polling without deleting setup"@,
        Verb::ProjectsList => "List configured projects and observed workspace candidates"@,
        Verb::ProjectsAdd => "Add one curated project to the registry"@,
        Verb::ProjectsImport => "Import curated project entries from observed Codex workspaces"@,
        Verb::ProjectsRemove => "Remove one project from the curated registry"@,
        Verb::Sync => "Sync live Codex thread state into the local cache"@,
        Verb::New => "Start a new Codex thread"@,
        Verb::Fork => "Fork a Codex thread"@,
        Verb::Archive => "Archive explicit threads or selected inbox rows"@,
        Verb::Show => "Show a thread with derived bridge state"@,
        Verb::Reply => "Reply to a waiting Codex thread"@,
        Verb::Approve => "Approve or deny a waiting approval prompt"@,
        Verb::Reset => "Reset runtime state to initial (keeps config.json)"@,
        Verb::Mcp => "Run a stdio MCP server for Hermes"@,
        Verb::HermesInstall => "Register this bridge with Hermes MCP"@,
    }
}

/// What a command is for.
pub(crate) fn about_verb(verb: Verb) -> (r: &'static str)
    ensures
        r@ == verb_about(verb),
{
    match verb {
        Verb::Setup => "Configure Telegram delivery, shared live backend, daemon service, and optional Hermes MCP",
        Verb::Doctor => "Inspect Codex setup",
        Verb::AwayOn | Verb::AwayOff | Verb::AwayStatus => "",
        Verb::RemoteOn => "Start or reuse the shared live backend and enable away mode",
        Verb::RemoteOff => "Disable away mode and clear pending Telegram notifications",
        Verb::RemoteRepair => "Restart the shared live backend and keep away mode enabled",
        Verb::RemoteStatus => "Show remote mode, backend, and pending notification state",
        Verb::Threads => "List recent Codex threads",
        Verb::Follow => "Stream thread updates",
        Verb::Unarchive => "Unarchive a Codex thread",
        Verb::Waiting => "List threads waiting for user attention",
        Verb::Inbox => "List actionable thread inbox rows",
        Verb::Watch => "Watch for thread changes and emit JSON events",
        Verb::DaemonRun => "Run the proactive Codex notification daemon",
        Verb::DaemonInstall => "Install the proactive notification daemon as a user service",
        Verb::DaemonUninstall => "Uninstall the proactive notification daemon user service",
        Verb::DaemonStart => "Start the proactive notification daemon user service",
        Verb::DaemonStop => "Stop the proactive notification daemon user service",
        Verb::DaemonStatus => "Show proactive notification daemon status",
        Verb::DaemonLogs => "Show proactive notification daemon log paths",
        Verb::TelegramSetup => "Configure the bridge-owned Telegram bot transport and shared live backend",
        Verb::TelegramStatus => "Show direct Telegram transport configuration",
        Verb::TelegramEnable => "Enable direct Telegram delivery and bot polling without changing setup",
        Verb::TelegramTest => "Send a test Telegram notification using the bridge config",
        Verb::TelegramDisable => "Disable direct Telegram delivery and bot polling without deleting setup",
        Verb::DiscordSetup => "Configure the bridge-owned Discord bot transport and shared live backend",
        Verb::DiscordStatus => "Show Discord transport configuration",
        Verb::DiscordEnable => "Enable Discord delivery and bot polling without changing setup",
        Verb::DiscordTest => "Send a test Discord notification using the bridge config",
        Verb::DiscordDisable => "Disable Discord delivery and bot polling without deleting setup",
        Verb::ProjectsList => "List configured projects and observed workspace candidates",
        Verb::ProjectsAdd => "Add one curated project to the registry",
        Verb::ProjectsImport => "Import curated project entries from observed Codex workspaces",
        Verb::ProjectsRemove => "Remove one project from the curated registry",
        Verb::Sync => "Sync live Codex thread state into the local cache",
        Verb::New => "Start a new Codex thread",
        Verb::Fork => "Fork a Codex thread",
        Verb::Archive => "Archive explicit threads or selected inbox rows",
        Verb::Show => "Show a thread with derived bridge state",
        Verb::Reply => "Reply to a waiting Codex thread",
        Verb::Approve => "Approve or deny a waiting approval prompt",
        Verb::Reset => "Reset runtime state to initial (keeps config.json)",
        Verb::Mcp => "Run a stdio MCP server for Hermes",
        Verb::HermesInstall => "Register this bridge with Hermes MCP",
    }
}

/// What the commands of a group are for.
pub open spec fn group_about(group: Group) -> Seq<char> {
    match group {
        Group::Root => "Control Codex locally and keep working through Telegram when away"@,
        Group::Away => "Choose whether Codex may notify you remotely"@,
        Group::Remote => "Control full remote Codex mode for local desktop integrations"@,
        Group::Daemon => "Run and manage the proactive Codex notification daemon"@,
        Group::Telegram => "Configure direct Telegram delivery, shared live backend, and reply routing"@,
        Group::Discord => "Configure Discord delivery, shared live backend, and reply routing"@,
        Group::Projects => "Manage the curated project registry for Telegram-created threads"@,
        Group::Hermes => "Install or inspect Hermes integration helpers"@,
    }
}

/// What the commands of a group are for.
pub(crate) fn about_group(group: Group) -> (r: &'static str)
    ensures
        r@ == group_about(group),
{
    match group {
        Group::Root => "Control Codex locally and keep working through Telegram when away",
        Group::Away => "Choose whether Codex may notify you remotely",
        Group::Remote => "Control full remote Codex mode for local desktop integrations",
        Group::Daemon => "Run and manage the proactive Codex notification daemon",
        Group::Telegram => "Configure direct Telegram delivery, shared live backend, and reply routing",
        Group::Discord => "Configure Discord delivery, shared live backend, and reply routing",
        Group::Projects => "Manage the curated project registry for Telegram-created threads",
        Group::Hermes => "Install or inspect Hermes integration helpers",
    }
}

/// The words that name a command.
pub open spec fn verb_path(verb: Verb) -> Seq<char> {
    match verb {
        Verb::Setup => "setup"@,
        Verb::Doctor => "doctor"@,
        Verb::AwayOn => "away on"@,
        Verb::AwayOff => "away off"@,
        Verb::AwayStatus => "away status"@,
        Verb::RemoteOn => "remote on"@,
        Verb::RemoteOff => "remote off"@,
        Verb::RemoteRepair => "remote repair"@,
        Verb::RemoteStatus => "remote status"@,
        Verb::Threads => "threads"@,
        Verb::Follow => "follow"@,
        Verb::Unarchive => "unarchive"@,
        Verb::Waiting => "waiting"@,
        Verb::Inbox => "inbox"@,
        Verb::Watch => "watch"@,
        Verb::DaemonRun => "daemon run"@,
        Verb::DaemonInstall => "daemon install"@,
        Verb::DaemonUninstall => "daemon uninstall"@,
        Verb::DaemonStart => "daemon start"@,
        Verb::DaemonStop => "daemon stop"@,
        Verb::DaemonStatus => "daemon status"@,
        Verb::DaemonLogs => "daemon logs"@,
        Verb::TelegramSetup => "telegram setup"@,
        Verb::TelegramStatus => "telegram status"@,
        Verb::TelegramEnable => "telegram enable"@,
        Verb::TelegramTest => "telegram test"@,
        Verb::TelegramDisable => "telegram disable"@,
        Verb::DiscordSetup => "discord setup"@,
        Verb::DiscordStatus => "discord status"@,
        Verb::DiscordEnable => "discord enable"@,
        Verb::DiscordTest => "discord test"@,
        Verb::DiscordDisable => "discord disable"@,
        Verb::ProjectsList => "projects list"@,
        Verb::ProjectsAdd => "projects add"@,
        Verb::ProjectsImport => "projects import"@,
        Verb::ProjectsRemove => "projects remove"@,
        Verb::Sync => "sync"@,
        Verb::New => "new"@,
        Verb::Fork => "fork"@,
        Verb::Archive => "archive"@,
        Verb::Show => "show"@,
        Verb::Reply => "reply"@,
        Verb::Approve => "approve"@,
        Verb::Reset => "reset"@,
        Verb::Mcp => "mcp"@,
        Verb::HermesInstall => "hermes install"@,
    }
}

/// The words that name a command.
pub(crate) fn path_of_verb(verb: Verb) -> (r: &'static str)
    ensures
        r@ == verb_path(verb),
{
    match verb {
        Verb::Setup => "setup",
        Verb::Doctor => "doctor",
        Verb::AwayOn => "away on",
        Verb::AwayOff => "away off",
        Verb::AwayStatus => "away status",
        Verb::RemoteOn => "remote on",
        Verb::RemoteOff => "remote off",
        Verb::RemoteRepair => "remote repair",
        Verb::RemoteStatus => "remote status",
        Verb::Threads => "threads",
        Verb::Follow => "follow",
        Verb::Unarchive => "unarchive",
        Verb::Waiting => "waiting",
        Verb::Inbox => "inbox",
        Verb::Watch => "watch",
        Verb::DaemonRun => "daemon run",
        Verb::DaemonInstall => "daemon install",
        Verb::DaemonUninstall => "daemon uninstall",
        Verb::DaemonStart => "daemon start",
        Verb::DaemonStop => "daemon stop",
        Verb::DaemonStatus => "daemon status",
        Verb::DaemonLogs => "daemon logs",
        Verb::TelegramSetup => "telegram setup",
        Verb::TelegramStatus => "telegram status",
        Verb::TelegramEnable => "telegram enable",
        Verb::TelegramTest => "telegram test",
        Verb::TelegramDisable => "telegram disable",
        Verb::DiscordSetup => "discord setup",
        Verb::DiscordStatus => "discord status",
        Verb::DiscordEnable => "discord enable",
        Verb::DiscordTest => "discord test",
        Verb::DiscordDisable => "discord disable",
        Verb::ProjectsList => "projects list",
        Verb::ProjectsAdd => "projects add",
        Verb::ProjectsImport => "projects import",
        Verb::ProjectsRemove => "projects remove",
        Verb::Sync => "sync",
        Verb::New => "new",
        Verb::Fork => "fork",
        Verb::Archive => "archive",
        Verb::Show => "show",
        Verb::Reply => "reply",
        Verb::Approve => "approve",
        Verb::Reset => "reset",
        Verb::Mcp => "mcp",
        Verb::HermesInstall => "hermes install",
    }
}

/// The words that name a group.
pub open spec fn group_path(group: Group) -> Seq<char> {
    match group {
        Group::Root => ""@,
        Group::Away => "away"@,
        Group::Remote => "remote"@,
        Group::Daemon => "daemon"@,
        Group::Telegram => "telegram"@,
        Group::Discord => "discord"@,
        Group::Projects => "projects"@,
        Group::Hermes => "hermes"@,
    }
}

/// The words that name a group.
pub(crate) fn path_of_group(group: Group) -> (r: &'static str)
    ensures
        r@ == group_path(group),
{
    match group {
        Group::Root => "",
        Group::Away => "away",
        Group::Remote => "remote",
        Group::Daemon => "daemon",
        Group::Telegram => "telegram",
        Group::Discord => "discord",
        Group::Projects => "projects",
        Group::Hermes => "hermes",
    }
}

} // verus!
