//! What holds of the command line: which words call which command, and how its options are read.
use vstd::prelude::*;
use vstd::string::*;

use crate::arguments::{
    all_values, attached, flag_name, GivenV, has_option, is_flag, is_long, long_fault, long_step,
    nothing_given, option_hit, option_value, scanned, step, value_fault, values_upto, with_option,
    word_fault,
};
use crate::cli::{CliErrorV, command_line, Commands, find_verb, flag_missing, missing, reads_as};
use crate::entry::{envelope, json_text_or_null};
use crate::error::{BridgeErrorV, failure, full_text};
use crate::events::event_filter;
use crate::follow::Follow;
use crate::grammar::{
    Child, child, flag_at, flag_called, flags, FlagV, Group, label, places, PlaceV, Takes, Verb,
    word_called, words_under, WordV,
};
use crate::json::{json_string, text_member};
use crate::laws_requests::failures_are_classed;
use crate::laws_text::free_of;
use crate::requests::{decision_answer, error_class, meant_decision};
use crate::table::{first_row, lemma_position, lemma_position_is};
use crate::tasks::{refusal, Task, task_of};
use crate::text::{contains_text, index_from, joined, non_blank, trimmed, unicode_lowercase};

verus! {

// ---------------------------------------------------------------------------
// Words
// ---------------------------------------------------------------------------

/// The words that stand alone call their commands and groups.
#[verifier::rlimit(40)]
pub proof fn root_words_call_their_commands()
    ensures
        child(Group::Root, "setup"@) == Some(Child::Verb(Verb::Setup)),
        child(Group::Root, "doctor"@) == Some(Child::Verb(Verb::Doctor)),
        child(Group::Root, "away"@) == Some(Child::Group(Group::Away)),
        child(Group::Root, "remote"@) == Some(Child::Group(Group::Remote)),
        child(Group::Root, "threads"@) == Some(Child::Verb(Verb::Threads)),
        child(Group::Root, "follow"@) == Some(Child::Verb(Verb::Follow)),
        child(Group::Root, "unarchive"@) == Some(Child::Verb(Verb::Unarchive)),
        child(Group::Root, "waiting"@) == Some(Child::Verb(Verb::Waiting)),
        child(Group::Root, "inbox"@) == Some(Child::Verb(Verb::Inbox)),
        child(Group::Root, "watch"@) == Some(Child::Verb(Verb::Watch)),
        child(Group::Root, "daemon"@) == Some(Child::Group(Group::Daemon)),
        child(Group::Root, "telegram"@) == Some(Child::Group(Group::Telegram)),
        child(Group::Root, "discord"@) == Some(Child::Group(Group::Discord)),
        child(Group::Root, "projects"@) == Some(Child::Group(Group::Projects)),
        child(Group::Root, "sync"@) == Some(Child::Verb(Verb::Sync)),
        child(Group::Root, "new"@) == Some(Child::Verb(Verb::New)),
        child(Group::Root, "fork"@) == Some(Child::Verb(Verb::Fork)),
        child(Group::Root, "archive"@) == Some(Child::Verb(Verb::Archive)),
        child(Group::Root, "show"@) == Some(Child::Verb(Verb::Show)),
        child(Group::Root, "reply"@) == Some(Child::Verb(Verb::Reply)),
        child(Group::Root, "approve"@) == Some(Child::Verb(Verb::Approve)),
        child(Group::Root, "reset"@) == Some(Child::Verb(Verb::Reset)),
        child(Group::Root, "mcp"@) == Some(Child::Verb(Verb::Mcp)),
        child(Group::Root, "hermes"@) == Some(Child::Group(Group::Hermes)),
{
    reveal_strlit("setup");
    reveal_strlit("doctor");
    reveal_strlit("away");
    reveal_strlit("remote");
    reveal_strlit("threads");
    reveal_strlit("follow");
    reveal_strlit("unarchive");
    reveal_strlit("waiting");
    reveal_strlit("inbox");
    reveal_strlit("watch");
    reveal_strlit("daemon");
    reveal_strlit("telegram");
    reveal_strlit("discord");
    reveal_strlit("projects");
    reveal_strlit("sync");
    reveal_strlit("new");
    reveal_strlit("fork");
    reveal_strlit("archive");
    reveal_strlit("show");
    reveal_strlit("reply");
    reveal_strlit("approve");
    reveal_strlit("reset");
    reveal_strlit("mcp");
    reveal_strlit("hermes");
    assert("setup"@.len() == 5);
    assert("doctor"@.len() == 6);
    assert("away"@.len() == 4);
    assert("remote"@.len() == 6);
    assert("threads"@.len() == 7);
    assert("follow"@.len() == 6);
    assert("unarchive"@.len() == 9);
    assert("waiting"@.len() == 7);
    assert("inbox"@.len() == 5);
    assert("watch"@.len() == 5);
    assert("daemon"@.len() == 6);
    assert("telegram"@.len() == 8);
    assert("discord"@.len() == 7);
    assert("projects"@.len() == 8);
    assert("sync"@.len() == 4);
    assert("new"@.len() == 3);
    assert("fork"@.len() == 4);
    assert("archive"@.len() == 7);
    assert("show"@.len() == 4);
    assert("reply"@.len() == 5);
    assert("approve"@.len() == 7);
    assert("reset"@.len() == 5);
    assert("mcp"@.len() == 3);
    assert("hermes"@.len() == 6);
    assert("setup"@[0] != "inbox"@[0]);
    assert("setup"@[0] != "watch"@[0]);
    assert("setup"@[0] != "reply"@[0]);
    assert("setup"@[0] != "reset"@[0]);
    assert("doctor"@[0] != "remote"@[0]);
    assert("doctor"@[0] != "follow"@[0]);
    assert("doctor"@[1] != "daemon"@[1]);
    assert("doctor"@[0] != "hermes"@[0]);
    assert("away"@[0] != "sync"@[0]);
    assert("away"@[0] != "fork"@[0]);
    assert("away"@[0] != "show"@[0]);
    assert("remote"@[0] != "follow"@[0]);
    assert("remote"@[0] != "daemon"@[0]);
    assert("remote"@[0] != "hermes"@[0]);
    assert("threads"@[0] != "waiting"@[0]);
    assert("threads"@[0] != "discord"@[0]);
    assert("threads"@[0] != "archive"@[0]);
    assert("threads"@[0] != "approve"@[0]);
    assert("follow"@[0] != "daemon"@[0]);
    assert("follow"@[0] != "hermes"@[0]);
    assert("waiting"@[0] != "discord"@[0]);
    assert("waiting"@[0] != "archive"@[0]);
    assert("waiting"@[0] != "approve"@[0]);
    assert("inbox"@[0] != "watch"@[0]);
    assert("inbox"@[0] != "reply"@[0]);
    assert("inbox"@[0] != "reset"@[0]);
    assert("watch"@[0] != "reply"@[0]);
    assert("watch"@[0] != "reset"@[0]);
    assert("daemon"@[0] != "hermes"@[0]);
    assert("telegram"@[0] != "projects"@[0]);
    assert("discord"@[0] != "archive"@[0]);
    assert("discord"@[0] != "approve"@[0]);
    assert("sync"@[0] != "fork"@[0]);
    assert("sync"@[1] != "show"@[1]);
    assert("new"@[0] != "mcp"@[0]);
    assert("fork"@[0] != "show"@[0]);
    assert("archive"@[1] != "approve"@[1]);
    assert("reply"@[2] != "reset"@[2]);
    let all = words_under(Group::Root);
    assert(all[0].name == "setup"@);
    assert(all[1].name == "doctor"@);
    assert(all[2].name == "away"@);
    assert(all[3].name == "remote"@);
    assert(all[4].name == "threads"@);
    assert(all[5].name == "follow"@);
    assert(all[6].name == "unarchive"@);
    assert(all[7].name == "waiting"@);
    assert(all[8].name == "inbox"@);
    assert(all[9].name == "watch"@);
    assert(all[10].name == "daemon"@);
    assert(all[11].name == "telegram"@);
    assert(all[12].name == "discord"@);
    assert(all[13].name == "projects"@);
    assert(all[14].name == "sync"@);
    assert(all[15].name == "new"@);
    assert(all[16].name == "fork"@);
    assert(all[17].name == "archive"@);
    assert(all[18].name == "show"@);
    assert(all[19].name == "reply"@);
    assert(all[20].name == "approve"@);
    assert(all[21].name == "reset"@);
    assert(all[22].name == "mcp"@);
    assert(all[23].name == "hermes"@);
    lemma_word_at(all, 0);
    lemma_word_at(all, 1);
    lemma_word_at(all, 2);
    lemma_word_at(all, 3);
    lemma_word_at(all, 4);
    lemma_word_at(all, 5);
    lemma_word_at(all, 6);
    lemma_word_at(all, 7);
    lemma_word_at(all, 8);
    lemma_word_at(all, 9);
    lemma_word_at(all, 10);
    lemma_word_at(all, 11);
    lemma_word_at(all, 12);
    lemma_word_at(all, 13);
    lemma_word_at(all, 14);
    lemma_word_at(all, 15);
    lemma_word_at(all, 16);
    lemma_word_at(all, 17);
    lemma_word_at(all, 18);
    lemma_word_at(all, 19);
    lemma_word_at(all, 20);
    lemma_word_at(all, 21);
    lemma_word_at(all, 22);
    lemma_word_at(all, 23);
}

/// The words of `away`.
pub proof fn away_words_call_their_commands()
    ensures
        child(Group::Away, "on"@) == Some(Child::Verb(Verb::AwayOn)),
        child(Group::Away, "off"@) == Some(Child::Verb(Verb::AwayOff)),
        child(Group::Away, "status"@) == Some(Child::Verb(Verb::AwayStatus)),
{
    reveal_strlit("on");
    reveal_strlit("off");
    reveal_strlit("status");
    assert("on"@.len() == 2);
    assert("off"@.len() == 3);
    assert("status"@.len() == 6);
    let all = words_under(Group::Away);
    assert(all[0].name == "on"@);
    assert(all[1].name == "off"@);
    assert(all[2].name == "status"@);
    lemma_word_at(all, 0);
    lemma_word_at(all, 1);
    lemma_word_at(all, 2);
}

/// The words of `remote`.
pub proof fn remote_words_call_their_commands()
    ensures
        child(Group::Remote, "on"@) == Some(Child::Verb(Verb::RemoteOn)),
        child(Group::Remote, "off"@) == Some(Child::Verb(Verb::RemoteOff)),
        child(Group::Remote, "repair"@) == Some(Child::Verb(Verb::RemoteRepair)),
        child(Group::Remote, "status"@) == Some(Child::Verb(Verb::RemoteStatus)),
{
    reveal_strlit("on");
    reveal_strlit("off");
    reveal_strlit("repair");
    reveal_strlit("status");
    assert("on"@.len() == 2);
    assert("off"@.len() == 3);
    assert("repair"@.len() == 6);
    assert("status"@.len() == 6);
    assert("repair"@[0] != "status"@[0]);
    let all = words_under(Group::Remote);
    assert(all[0].name == "on"@);
    assert(all[1].name == "off"@);
    assert(all[2].name == "repair"@);
    assert(all[3].name == "status"@);
    lemma_word_at(all, 0);
    lemma_word_at(all, 1);
    lemma_word_at(all, 2);
    lemma_word_at(all, 3);
}

/// The words of `daemon`.
pub proof fn daemon_words_call_their_commands()
    ensures
        child(Group::Daemon, "run"@) == Some(Child::Verb(Verb::DaemonRun)),
        child(Group::Daemon, "install"@) == Some(Child::Verb(Verb::DaemonInstall)),
        child(Group::Daemon, "uninstall"@) == Some(Child::Verb(Verb::DaemonUninstall)),
        child(Group::Daemon, "start"@) == Some(Child::Verb(Verb::DaemonStart)),
        child(Group::Daemon, "stop"@) == Some(Child::Verb(Verb::DaemonStop)),
        child(Group::Daemon, "status"@) == Some(Child::Verb(Verb::DaemonStatus)),
        child(Group::Daemon, "logs"@) == Some(Child::Verb(Verb::DaemonLogs)),
{
    reveal_strlit("run");
    reveal_strlit("install");
    reveal_strlit("uninstall");
    reveal_strlit("start");
    reveal_strlit("stop");
    reveal_strlit("status");
    reveal_strlit("logs");
    assert("run"@.len() == 3);
    assert("install"@.len() == 7);
    assert("uninstall"@.len() == 9);
    assert("start"@.len() == 5);
    assert("stop"@.len() == 4);
    assert("status"@.len() == 6);
    assert("logs"@.len() == 4);
    assert("stop"@[0] != "logs"@[0]);
    let all = words_under(Group::Daemon);
    assert(all[0].name == "run"@);
    assert(all[1].name == "install"@);
    assert(all[2].name == "uninstall"@);
    assert(all[3].name == "start"@);
    assert(all[4].name == "stop"@);
    assert(all[5].name == "status"@);
    assert(all[6].name == "logs"@);
    lemma_word_at(all, 0);
    lemma_word_at(all, 1);
    lemma_word_at(all, 2);
    lemma_word_at(all, 3);
    lemma_word_at(all, 4);
    lemma_word_at(all, 5);
    lemma_word_at(all, 6);
}

/// The words of `telegram`.
pub proof fn telegram_words_call_their_commands()
    ensures
        child(Group::Telegram, "setup"@) == Some(Child::Verb(Verb::TelegramSetup)),
        child(Group::Telegram, "status"@) == Some(Child::Verb(Verb::TelegramStatus)),
        child(Group::Telegram, "enable"@) == Some(Child::Verb(Verb::TelegramEnable)),
        child(Group::Telegram, "test"@) == Some(Child::Verb(Verb::TelegramTest)),
        child(Group::Telegram, "disable"@) == Some(Child::Verb(Verb::TelegramDisable)),
{
    reveal_strlit("setup");
    reveal_strlit("status");
    reveal_strlit("enable");
    reveal_strlit("test");
    reveal_strlit("disable");
    assert("setup"@.len() == 5);
    assert("status"@.len() == 6);
    assert("enable"@.len() == 6);
    assert("test"@.len() == 4);
    assert("disable"@.len() == 7);
    assert("status"@[0] != "enable"@[0]);
    let all = words_under(Group::Telegram);
    assert(all[0].name == "setup"@);
    assert(all[1].name == "status"@);
    assert(all[2].name == "enable"@);
    assert(all[3].name == "test"@);
    assert(all[4].name == "disable"@);
    lemma_word_at(all, 0);
    lemma_word_at(all, 1);
    lemma_word_at(all, 2);
    lemma_word_at(all, 3);
    lemma_word_at(all, 4);
}

/// The words of `discord`.
pub proof fn discord_words_call_their_commands()
    ensures
        child(Group::Discord, "setup"@) == Some(Child::Verb(Verb::DiscordSetup)),
        child(Group::Discord, "status"@) == Some(Child::Verb(Verb::DiscordStatus)),
        child(Group::Discord, "enable"@) == Some(Child::Verb(Verb::DiscordEnable)),
        child(Group::Discord, "test"@) == Some(Child::Verb(Verb::DiscordTest)),
        child(Group::Discord, "disable"@) == Some(Child::Verb(Verb::DiscordDisable)),
{
    reveal_strlit("setup");
    reveal_strlit("status");
    reveal_strlit("enable");
    reveal_strlit("test");
    reveal_strlit("disable");
    assert("setup"@.len() == 5);
    assert("status"@.len() == 6);
    assert("enable"@.len() == 6);
    assert("test"@.len() == 4);
    assert("disable"@.len() == 7);
    assert("status"@[0] != "enable"@[0]);
    let all = words_under(Group::Discord);
    assert(all[0].name == "setup"@);
    assert(all[1].name == "status"@);
    assert(all[2].name == "enable"@);
    assert(all[3].name == "test"@);
    assert(all[4].name == "disable"@);
    lemma_word_at(all, 0);
    lemma_word_at(all, 1);
    lemma_word_at(all, 2);
    lemma_word_at(all, 3);
    lemma_word_at(all, 4);
}

/// The words of `projects`.
pub proof fn projects_words_call_their_commands()
    ensures
        child(Group::Projects, "list"@) == Some(Child::Verb(Verb::ProjectsList)),
        child(Group::Projects, "add"@) == Some(Child::Verb(Verb::ProjectsAdd)),
        child(Group::Projects, "import"@) == Some(Child::Verb(Verb::ProjectsImport)),
        child(Group::Projects, "remove"@) == Some(Child::Verb(Verb::ProjectsRemove)),
{
    reveal_strlit("list");
    reveal_strlit("add");
    reveal_strlit("import");
    reveal_strlit("remove");
    assert("list"@.len() == 4);
    assert("add"@.len() == 3);
    assert("import"@.len() == 6);
    assert("remove"@.len() == 6);
    assert("import"@[0] != "remove"@[0]);
    let all = words_under(Group::Projects);
    assert(all[0].name == "list"@);
    assert(all[1].name == "add"@);
    assert(all[2].name == "import"@);
    assert(all[3].name == "remove"@);
    lemma_word_at(all, 0);
    lemma_word_at(all, 1);
    lemma_word_at(all, 2);
    lemma_word_at(all, 3);
}

/// The words of `hermes`.
pub proof fn hermes_words_call_their_commands()
    ensures
        child(Group::Hermes, "install"@) == Some(Child::Verb(Verb::HermesInstall)),
{
    reveal_strlit("install");
    assert("install"@.len() == 7);
    let all = words_under(Group::Hermes);
    assert(all[0].name == "install"@);
    lemma_word_at(all, 0);
}

proof fn lemma_word_at(all: Seq<WordV>, i: int)
    requires
        0 <= i < all.len(),
        forall|k: int| 0 <= k < i ==> (#[trigger] all[k]).name != all[i].name,
    ensures
        first_row(all, word_called(all[i].name)) == Some(all[i]),
{
    lemma_position_is(all, word_called(all[i].name), i);
}

/// A command is found behind the words of its group, and what follows is its own.
pub proof fn commands_are_found_behind_their_group(
    outer: Seq<char>,
    inner: Seq<char>,
    group: Group,
    verb: Verb,
    rest: Seq<Seq<char>>,
)
    requires
        child(Group::Root, outer) == Some(Child::Group(group)),
        child(group, inner) == Some(Child::Verb(verb)),
    ensures
        find_verb(Group::Root, seq![outer, inner] + rest, 0) == Ok::<(Verb, nat), CliErrorV>(
            (verb, 2),
        ),
        find_verb(group, seq![inner] + rest, 0) == Ok::<(Verb, nat), CliErrorV>((verb, 1)),
        find_verb(Group::Root, seq![outer], 0) == Err::<(Verb, nat), CliErrorV>(
            CliErrorV::MissingSubcommand(group),
        ),
{
    let args = seq![outer, inner] + rest;
    assert(args[0] == outer && args[1] == inner);
    assert(find_verb(group, args, 1) == Ok::<(Verb, nat), CliErrorV>((verb, 2)));
    let own = seq![inner] + rest;
    assert(own[0] == inner);
    let alone = seq![outer];
    assert(alone[0] == outer);
    assert(find_verb(group, alone, 1) == Err::<(Verb, nat), CliErrorV>(
        CliErrorV::MissingSubcommand(group),
    ));
}

// ---------------------------------------------------------------------------
// Options
// ---------------------------------------------------------------------------

proof fn lemma_flag_word(name: Seq<char>)
    requires
        free_of(name, '='),
        name.len() > 0,
    ensures
        is_long("--"@ + name),
        "--"@ + name != "--"@,
        flag_name("--"@ + name) == name,
        attached("--"@ + name) is None,
{
    reveal_strlit("--");
    let a = "--"@ + name;
    assert(a.len() > 2);
    assert forall|i: int| 2 <= i < a.len() implies (#[trigger] a[i]) != '=' by {
        assert(a[i] == name[i - 2]);
    }
    lemma_index_reaches(a, '=', 2, a.len());
    assert(a.subrange(2, a.len() as int) =~= name);
}

proof fn lemma_flag_word_with_value(name: Seq<char>, value: Seq<char>)
    requires
        free_of(name, '='),
        name.len() > 0,
    ensures
        is_long("--"@ + name + "="@ + value),
        "--"@ + name + "="@ + value != "--"@,
        flag_name("--"@ + name + "="@ + value) == name,
        attached("--"@ + name + "="@ + value) == Some(value),
{
    reveal_strlit("--");
    reveal_strlit("=");
    let a = "--"@ + name + "="@ + value;
    let at = (name.len() + 2) as nat;
    assert(a.len() > 2);
    assert forall|i: int| 2 <= i < at implies (#[trigger] a[i]) != '=' by {
        assert(a[i] == name[i - 2]);
    }
    assert(a[at as int] == '=');
    lemma_index_reaches(a, '=', 2, at);
    assert(a.subrange(2, at as int) =~= name);
    assert(a.skip(at as int + 1) =~= value);
}

proof fn lemma_index_reaches(s: Seq<char>, c: char, from: nat, end: nat)
    requires
        from <= end <= s.len(),
        forall|i: int| from <= i < end ==> (#[trigger] s[i]) != c,
        end == s.len() || s[end as int] == c,
    ensures
        index_from(s, c, from) == end,
    decreases end - from,
{
    if from < end {
        lemma_index_reaches(s, c, from + 1, end);
    }
}

/// An option is given by its name, with its value in the next word or behind a sign of
/// equality; a switch is given by its name alone.
pub proof fn options_are_given_by_name(verb: Verb, name: Seq<char>, value: Seq<char>, flag: FlagV)
    requires
        flag_at(verb, name) == Some(flag),
        free_of(name, '='),
        name.len() > 0,
        !is_flag(value),
    ensures
        flag.takes == Takes::Text || flag.takes == Takes::Many ==> scanned(
            verb,
            seq!["--"@ + name, value],
            0,
            nothing_given(),
            false,
        ) == Ok::<GivenV, CliErrorV>(
            GivenV { options: seq![(name, value)], places: Seq::empty() },
        ) && scanned(
            verb,
            seq!["--"@ + name + "="@ + value],
            0,
            nothing_given(),
            false,
        ) == Ok::<GivenV, CliErrorV>(
            GivenV { options: seq![(name, value)], places: Seq::empty() },
        ),
        flag.takes == Takes::Switch ==> scanned(
            verb,
            seq!["--"@ + name],
            0,
            nothing_given(),
            false,
        ) == Ok::<GivenV, CliErrorV>(
            GivenV { options: seq![(name, Seq::empty())], places: Seq::empty() },
        ),
        flag.takes != Takes::Switch ==> scanned(
            verb,
            seq!["--"@ + name],
            0,
            nothing_given(),
            false,
        ) == Err::<GivenV, CliErrorV>(
            CliErrorV::MissingValue("--"@ + name + " <"@ + flag.value_name + ">"@),
        ),
{
    lemma_flag_has_its_name(verb, name, flag);
    if flag.takes == Takes::Text || flag.takes == Takes::Many {
        lemma_value_in_the_next_word(verb, name, value, flag);
        lemma_value_behind_equality(verb, name, value, flag);
    }
    lemma_name_alone(verb, name, flag);
}

proof fn lemma_flag_has_its_name(verb: Verb, name: Seq<char>, flag: FlagV)
    requires
        flag_at(verb, name) == Some(flag),
    ensures
        flag.name == name,
{
    lemma_position(flags(verb), flag_called(name), 0);
}

/// Where the first word is an option that is taken whole, the rest is read behind it.
proof fn lemma_one_step(
    verb: Verb,
    args: Seq<Seq<char>>,
    next: nat,
    given: GivenV,
)
    requires
        args.len() == next,
        next > 0,
        is_long(args[0]),
        args[0] != "--"@,
        long_step(verb, args, 0, nothing_given()) == Ok::<(nat, GivenV), CliErrorV>((next, given)),
    ensures
        scanned(verb, args, 0, nothing_given(), false) == Ok::<GivenV, CliErrorV>(given),
{
    assert(scanned(verb, args, next, given, false) == Ok::<GivenV, CliErrorV>(given));
}

#[verifier::spinoff_prover]
#[verifier::rlimit(40)]
proof fn lemma_value_in_the_next_word(verb: Verb, name: Seq<char>, value: Seq<char>, flag: FlagV)
    requires
        flag_at(verb, name) == Some(flag),
        flag.name == name,
        flag.takes == Takes::Text || flag.takes == Takes::Many,
        free_of(name, '='),
        name.len() > 0,
        !is_flag(value),
    ensures
        scanned(verb, seq!["--"@ + name, value], 0, nothing_given(), false) == Ok::<
            GivenV,
            CliErrorV,
        >(GivenV { options: seq![(name, value)], places: Seq::empty() }),
{
    lemma_flag_word(name);
    let none = nothing_given();
    let args = seq!["--"@ + name, value];
    assert(args[0] == "--"@ + name && args[1] == value);
    let given = GivenV { options: seq![(name, value)], places: Seq::<Seq<char>>::empty() };
    assert(none.options.push((name, value)) =~= given.options);
    assert(!has_option(none, name));
    assert(with_option(none, name, value) == given);
    assert(long_fault(verb, args[0]) is None);
    assert(value_fault(flag, value, none) is None);
    lemma_one_step(verb, args, 2, given);
}

#[verifier::spinoff_prover]
#[verifier::rlimit(40)]
proof fn lemma_value_behind_equality(verb: Verb, name: Seq<char>, value: Seq<char>, flag: FlagV)
    requires
        flag_at(verb, name) == Some(flag),
        flag.name == name,
        flag.takes == Takes::Text || flag.takes == Takes::Many,
        free_of(name, '='),
        name.len() > 0,
    ensures
        scanned(verb, seq!["--"@ + name + "="@ + value], 0, nothing_given(), false) == Ok::<
            GivenV,
            CliErrorV,
        >(GivenV { options: seq![(name, value)], places: Seq::empty() }),
{
    lemma_flag_word_with_value(name, value);
    let none = nothing_given();
    let args = seq!["--"@ + name + "="@ + value];
    assert(args[0] == "--"@ + name + "="@ + value);
    let given = GivenV { options: seq![(name, value)], places: Seq::<Seq<char>>::empty() };
    assert(none.options.push((name, value)) =~= given.options);
    assert(!has_option(none, name));
    assert(with_option(none, name, value) == given);
    assert(long_fault(verb, args[0]) is None);
    assert(value_fault(flag, value, none) is None);
    lemma_one_step(verb, args, 1, given);
}

#[verifier::spinoff_prover]
#[verifier::rlimit(40)]
proof fn lemma_name_alone(verb: Verb, name: Seq<char>, flag: FlagV)
    requires
        flag_at(verb, name) == Some(flag),
        flag.name == name,
        free_of(name, '='),
        name.len() > 0,
    ensures
        flag.takes == Takes::Switch ==> scanned(
            verb,
            seq!["--"@ + name],
            0,
            nothing_given(),
            false,
        ) == Ok::<GivenV, CliErrorV>(
            GivenV { options: seq![(name, Seq::empty())], places: Seq::empty() },
        ),
        flag.takes != Takes::Switch ==> scanned(
            verb,
            seq!["--"@ + name],
            0,
            nothing_given(),
            false,
        ) == Err::<GivenV, CliErrorV>(
            CliErrorV::MissingValue("--"@ + name + " <"@ + flag.value_name + ">"@),
        ),
{
    lemma_flag_word(name);
    let none = nothing_given();
    let args = seq!["--"@ + name];
    assert(args[0] == "--"@ + name);
    let switched = GivenV {
        options: seq![(name, Seq::<char>::empty())],
        places: Seq::<Seq<char>>::empty(),
    };
    assert(none.options.push((name, Seq::empty())) =~= switched.options);
    assert(!has_option(none, name));
    assert(with_option(none, name, Seq::empty()) == switched);
    assert(long_fault(verb, args[0]) is None);
    if flag.takes == Takes::Switch {
        lemma_one_step(verb, args, 1, switched);
    } else {
        assert(word_fault(verb, args, 1, 0, false) is None);
        assert(long_step(verb, args, 0, none) == Err::<(nat, GivenV), CliErrorV>(
            CliErrorV::MissingValue(label(flag)),
        ));
    }
}

/// A word that is no flag takes the next place, where the command has one, and is refused
/// where it has none.
pub proof fn words_take_their_places(verb: Verb, args: Seq<Seq<char>>, i: nat, g: GivenV)
    requires
        i < args.len(),
        !is_flag(args[i as int]),
    ensures
        places(verb).len() > g.places.len() ==> step(verb, args, i, g, false) == Ok::<
            (nat, GivenV, bool),
            CliErrorV,
        >(
            (
                i + 1,
                GivenV { places: g.places.push(args[i as int]), options: g.options },
                false,
            ),
        ),
        places(verb).len() == 0 ==> step(verb, args, i, g, false) == Err::<
            (nat, GivenV, bool),
            CliErrorV,
        >(CliErrorV::UnknownArgument(args[i as int])),
{
    reveal_strlit("--");
    assert(is_flag("--"@));
}

proof fn lemma_only_option(g: GivenV, name: Seq<char>, value: Seq<char>, other: Seq<char>)
    requires
        g.options == seq![(name, value)],
        other != name,
    ensures
        option_value(g, name) == Some(value),
        has_option(g, name),
        option_value(g, other) is None,
        !has_option(g, other),
        all_values(g, name) == seq![value],
        all_values(g, other) == Seq::<Seq<char>>::empty(),
{
    lemma_position_is(g.options, option_hit(name), 0);
    lemma_position_is(g.options, option_hit(other), 1);
    reveal_with_fuel(values_upto, 2);
    assert(all_values(g, name) =~= seq![value]);
}

proof fn lemma_no_option(g: GivenV, other: Seq<char>)
    requires
        g.options.len() == 0,
    ensures
        option_value(g, other) is None,
        !has_option(g, other),
        all_values(g, other) == Seq::<Seq<char>>::empty(),
{
    lemma_position_is(g.options, option_hit(other), 0);
}

// ---------------------------------------------------------------------------
// From the options to the task
// ---------------------------------------------------------------------------

/// The inbox is listed by the one filter that is given, and by nothing else; without a limit
/// it lists twenty-five rows.
pub proof fn inbox_filters_are_read(
    g: GivenV,
    c: Commands,
    task: Task,
    name: Seq<char>,
    value: Seq<char>,
)
    requires
        reads_as(Verb::Inbox, g, c),
        task_of(c, task),
        g.options == seq![(name, value)],
        name == "project"@ || name == "status"@ || name == "attention"@ || name == "waiting-on"@,
    ensures
        task is Inbox,
        task->Inbox_project.deep_view() == (if name == "project"@ {
            Some(value)
        } else {
            None
        }),
        task->Inbox_status.deep_view() == (if name == "status"@ {
            Some(value)
        } else {
            None
        }),
        task->Inbox_attention.deep_view() == (if name == "attention"@ {
            Some(value)
        } else {
            None
        }),
        task->Inbox_waiting_on.deep_view() == (if name == "waiting-on"@ {
            Some(value)
        } else {
            None
        }),
        task->Inbox_limit == 25,
{
    reveal_strlit("project");
    reveal_strlit("status");
    reveal_strlit("attention");
    reveal_strlit("waiting-on");
    reveal_strlit("limit");
    assert("project"@.len() == 7);
    assert("status"@.len() == 6);
    assert("attention"@.len() == 9);
    assert("waiting-on"@.len() == 10);
    assert("limit"@.len() == 5);
    if name != "project"@ {
        lemma_only_option(g, name, value, "project"@);
    }
    if name != "status"@ {
        lemma_only_option(g, name, value, "status"@);
    }
    if name != "attention"@ {
        lemma_only_option(g, name, value, "attention"@);
    }
    if name != "waiting-on"@ {
        lemma_only_option(g, name, value, "waiting-on"@);
    }
    lemma_only_option(g, name, value, "limit"@);
}

/// A reply goes to the thread of the first place, with the message of its option, or with the
/// words behind the thread.
pub proof fn replies_are_read(g: GivenV, c: Commands, task: Task, message: Seq<char>)
    requires
        reads_as(Verb::Reply, g, c),
        task_of(c, task),
        g.places.len() > 0,
        message.len() > 0,
        trimmed(message) == message,
    ensures
        task is Reply,
        task->Reply_thread_id@ == g.places[0],
        g.options == seq![("message"@, message)] ==> task->Reply_message@ == message
            && !task->Reply_dry_run && task->Reply_following is None,
        g.options.len() == 0 && joined(g.places.skip(1), " "@) == message ==> task->Reply_message@
            == message && !task->Reply_dry_run && task->Reply_following is None,
        g.options == seq![("message"@, message)] ==> c->Reply_duration == 3000
            && c->Reply_poll_interval == 1000,
{
    reveal_strlit("message");
    reveal_strlit("dry-run");
    reveal_strlit("follow");
    reveal_strlit("stream");
    reveal_strlit("duration");
    reveal_strlit("poll-interval");
    reveal_strlit("events");
    assert("message"@.len() == 7);
    assert("dry-run"@.len() == 7);
    assert("follow"@.len() == 6);
    assert("stream"@.len() == 6);
    assert("duration"@.len() == 8);
    assert("poll-interval"@.len() == 13);
    assert("events"@.len() == 6);
    assert("message"@[0] != "dry-run"@[0]);
    assert("follow"@[0] != "stream"@[0]);
    assert("follow"@[0] != "events"@[0]);
    assert("stream"@[0] != "events"@[0]);
    if g.options == seq![("message"@, message)] {
        lemma_only_option(g, "message"@, message, "dry-run"@);
        lemma_only_option(g, "message"@, message, "follow"@);
        lemma_only_option(g, "message"@, message, "duration"@);
        lemma_only_option(g, "message"@, message, "poll-interval"@);
    }
    if g.options.len() == 0 {
        lemma_no_option(g, "message"@);
        lemma_no_option(g, "dry-run"@);
        lemma_no_option(g, "follow"@);
    }
}

/// An answer to an approval goes to the thread of the first place, with the decision of its
/// option or of the second place.
pub proof fn approvals_are_read(g: GivenV, c: Commands, task: Task, word: Seq<char>)
    requires
        reads_as(Verb::Approve, g, c),
        task_of(c, task),
        g.places.len() > 0,
        trimmed(word) == word,
        unicode_lowercase(word) == "approve"@ || unicode_lowercase(word) == "deny"@,
        g.options == seq![("decision"@, word)] || (g.options.len() == 0 && g.places.len() == 2
            && g.places[1] == word),
    ensures
        task is Approve,
        task->Approve_thread_id@ == g.places[0],
        task->Approve_decision@ == unicode_lowercase(word),
        unicode_lowercase(word) == "approve"@ ==> task->Approve_sent_text@ == "YES"@,
        unicode_lowercase(word) == "deny"@ ==> task->Approve_sent_text@ == "NO"@,
        !task->Approve_dry_run && task->Approve_following is None,
{
    reveal_strlit("approve");
    reveal_strlit("deny");
    assert("approve"@.len() == 7);
    assert("deny"@.len() == 4);
    reveal_strlit("decision");
    reveal_strlit("dry-run");
    reveal_strlit("follow");
    assert("decision"@.len() == 8);
    assert("dry-run"@.len() == 7);
    assert("follow"@.len() == 6);
    if g.options == seq![("decision"@, word)] {
        lemma_only_option(g, "decision"@, word, "dry-run"@);
        lemma_only_option(g, "decision"@, word, "follow"@);
    } else {
        lemma_no_option(g, "decision"@);
        lemma_no_option(g, "dry-run"@);
        lemma_no_option(g, "follow"@);
    }
}

/// An archive takes the threads of its places; with the switch for it, it is a dry run, or is
/// confirmed.
pub proof fn archives_are_read(g: GivenV, c: Commands, task: Task)
    requires
        reads_as(Verb::Archive, g, c),
        task_of(c, task),
    ensures
        task is Archive,
        g.options.len() == 0 ==> task->Archive_targets.deep_view() == g.places
            && !task->Archive_dry_run && !task->Archive_yes && task->Archive_limit == 100,
        g.options == seq![("dry-run"@, Seq::<char>::empty())] ==> task->Archive_dry_run
            && !task->Archive_yes,
        g.options == seq![("yes"@, Seq::<char>::empty())] ==> task->Archive_yes
            && !task->Archive_dry_run,
{
    reveal_strlit("thread-id");
    reveal_strlit("project");
    reveal_strlit("status");
    reveal_strlit("attention");
    reveal_strlit("limit");
    reveal_strlit("dry-run");
    reveal_strlit("yes");
    assert("thread-id"@.len() == 9);
    assert("project"@.len() == 7);
    assert("status"@.len() == 6);
    assert("attention"@.len() == 9);
    assert("limit"@.len() == 5);
    assert("dry-run"@.len() == 7);
    assert("yes"@.len() == 3);
    assert("thread-id"@[0] != "attention"@[0]);
    assert("project"@[0] != "dry-run"@[0]);
    if g.options.len() == 0 {
        lemma_no_option(g, "thread-id"@);
        lemma_no_option(g, "limit"@);
        lemma_no_option(g, "dry-run"@);
        lemma_no_option(g, "yes"@);
    }
    if g.options == seq![("dry-run"@, Seq::<char>::empty())] {
        lemma_only_option(g, "dry-run"@, Seq::empty(), "yes"@);
    }
    if g.options == seq![("yes"@, Seq::<char>::empty())] {
        lemma_only_option(g, "yes"@, Seq::empty(), "dry-run"@);
    }
    assert(g.places.skip(0) =~= g.places);
}

/// A follow is of the thread of its place, and takes the message and the events that are
/// given; by default it lasts three seconds and reads every second.
pub proof fn follows_are_read(g: GivenV, c: Commands, task: Task, name: Seq<char>, value: Seq<char>)
    requires
        reads_as(Verb::Follow, g, c),
        task_of(c, task),
        g.options == seq![(name, value)],
        name == "message"@ || name == "events"@,
        g.places.len() > 0,
    ensures
        task is Follow,
        task->Follow_thread_id@ == g.places[0],
        task->Follow_duration == 3000 && task->Follow_poll_interval == 1000,
        name == "message"@ ==> task->Follow_message.deep_view() == Some(value)
            && task->Follow_filter.deep_view() is None,
        name == "events"@ ==> task->Follow_message.deep_view() is None
            && task->Follow_filter.deep_view() == event_filter(Some(value)),
{
    reveal_strlit("message");
    reveal_strlit("events");
    reveal_strlit("duration");
    reveal_strlit("poll-interval");
    assert("message"@.len() == 7);
    assert("events"@.len() == 6);
    assert("duration"@.len() == 8);
    assert("poll-interval"@.len() == 13);
    if name == "message"@ {
        lemma_only_option(g, name, value, "events"@);
    } else {
        lemma_only_option(g, name, value, "message"@);
    }
    lemma_only_option(g, name, value, "duration"@);
    lemma_only_option(g, name, value, "poll-interval"@);
}

/// The list of those that wait is narrowed to the project that is given, a watch runs the
/// command that is given, and a new thread begins in the directory that is given.
pub proof fn other_options_are_read(g: GivenV, c: Commands, task: Task, value: Seq<char>)
    requires
        task_of(c, task),
    ensures
        reads_as(Verb::Waiting, g, c) && g.options == seq![("project"@, value)] ==> task is Waiting
            && task->Waiting_project.deep_view() == Some(value) && task->Waiting_limit == 25,
        reads_as(Verb::Watch, g, c) && g.options == seq![("exec"@, value)] ==> task is Watch
            && task->Watch_hook.deep_view() == Some(value) && !task->Watch_once
            && task->Watch_filter.deep_view() is None,
        reads_as(Verb::Watch, g, c) && g.options == seq![("once"@, value)] ==> task is Watch
            && task->Watch_hook.deep_view() is None && task->Watch_once,
        reads_as(Verb::New, g, c) && g.options == seq![("cwd"@, value)] ==> task is New
            && task->New_cwd.deep_view() == Some(value) && !task->New_dry_run
            && task->New_message.deep_view() == non_blank(Some(joined(g.places, " "@))),
        reads_as(Verb::Fork, g, c) && g.options == seq![("message"@, value)] && g.places.len() > 0
            && trimmed(value).len() > 0 ==> task is Fork && task->Fork_thread_id@ == g.places[0]
            && task->Fork_message.deep_view() == Some(trimmed(value)) && !task->Fork_dry_run,
{
    reveal_strlit("project");
    reveal_strlit("limit");
    reveal_strlit("exec");
    reveal_strlit("once");
    reveal_strlit("events");
    reveal_strlit("cwd");
    reveal_strlit("message");
    reveal_strlit("dry-run");
    reveal_strlit("follow");
    assert("project"@.len() == 7);
    assert("limit"@.len() == 5);
    assert("exec"@.len() == 4);
    assert("once"@.len() == 4);
    assert("events"@.len() == 6);
    assert("cwd"@.len() == 3);
    assert("message"@.len() == 7);
    assert("dry-run"@.len() == 7);
    assert("follow"@.len() == 6);
    assert("project"@[0] != "message"@[0]);
    assert("project"@[0] != "dry-run"@[0]);
    assert("exec"@[0] != "once"@[0]);
    assert("events"@[0] != "follow"@[0]);
    assert("message"@[0] != "dry-run"@[0]);
    assert(g.places.skip(0) =~= g.places);
    if g.options == seq![("project"@, value)] {
        lemma_only_option(g, "project"@, value, "limit"@);
    }
    if g.options == seq![("exec"@, value)] {
        lemma_only_option(g, "exec"@, value, "once"@);
        lemma_only_option(g, "exec"@, value, "events"@);
    }
    if g.options == seq![("once"@, value)] {
        lemma_only_option(g, "once"@, value, "exec"@);
    }
    if g.options == seq![("cwd"@, value)] {
        lemma_only_option(g, "cwd"@, value, "message"@);
        lemma_only_option(g, "cwd"@, value, "dry-run"@);
    }
    if g.options == seq![("message"@, value)] {
        lemma_only_option(g, "message"@, value, "dry-run"@);
    }
}

/// A blank reply, an unreadable decision and an unconfirmed selection are refused before
/// anything is done.
pub proof fn refusals_come_first(c: Commands)
    ensures
        c is Reply && c->Reply_message.deep_view() is Some && trimmed(
            c->Reply_message.deep_view()->0,
        ).len() == 0 ==> refusal(c) == Some(failure("Reply message cannot be empty"@)),
        c is Approve ==> (refusal(c) is None <==> decision_answer(
            unicode_lowercase(
                meant_decision(
                    c->Approve_decision.deep_view(),
                    c->Approve_positional_decision.deep_view(),
                ),
            ),
        ) is Ok),
        c is Inbox || c is Waiting || c is Follow || c is New || c is Sync ==> refusal(c) is None,
{
}

/// A command that needs a place misses it where it is not given, and nothing where it is.
pub proof fn needed_arguments_are_needed(verb: Verb, g: GivenV, place: PlaceV)
    ensures
        places(verb).len() > 0 && places(verb)[0] == place && place.needed && g.places.len() == 0
            && (forall|i: int|
            0 <= i < flags(verb).len() ==> !(#[trigger] flags(verb)[i]).needed) ==> missing(verb, g)
            == Some("<"@ + place.name + ">"@),
        g.places.len() > 0 && (forall|i: int|
            0 <= i < flags(verb).len() ==> !(#[trigger] flags(verb)[i]).needed) ==> missing(verb, g)
            is None,
{
    lemma_position(flags(verb), flag_missing(g), 0);
}

/// The channel of a Discord setup has to be given.
pub proof fn discord_channels_are_needed(g: GivenV)
    requires
        g.options.len() == 0,
    ensures
        missing(Verb::DiscordSetup, g) == Some("--"@ + "channel-id"@ + " <"@ + "CHANNEL_IDS"@ + ">"@),
{
    lemma_no_option(g, "channel-id"@);
    let all = flags(Verb::DiscordSetup);
    assert(all[1].name == "channel-id"@ && all[1].needed);
    assert(!all[0].needed);
    lemma_position_is(all, flag_missing(g), 1);
}

/// An accepted command line is that of the command that its words call, with the arguments that
/// follow them, and nothing that the command needs is missing.
pub proof fn accepted_command_lines_are_complete(args: Seq<Seq<char>>, verb: Verb, next: nat)
    requires
        find_verb(Group::Root, args, 1) == Ok::<(Verb, nat), CliErrorV>((verb, next)),
    ensures
        command_line(args) matches Ok(read) ==> read.0 == verb && scanned(
            verb,
            args,
            next,
            nothing_given(),
            false,
        ) == Ok::<GivenV, CliErrorV>(read.1) && missing(verb, read.1) is None,
        scanned(verb, args, next, nothing_given(), false) matches Ok(g) ==> (missing(verb, g)
            is None ==> command_line(args) == Ok::<(Verb, GivenV), CliErrorV>((verb, g))) && (
        missing(verb, g) is Some ==> command_line(args) == Err::<(Verb, GivenV), CliErrorV>(
            CliErrorV::MissingArgument(missing(verb, g)->0),
        )),
{
}

/// A failure is told as JSON: that it is one, with its message, its class and whether it may be
/// tried again.
pub proof fn failures_are_told_as_json(e: BridgeErrorV, message: Seq<char>)
    requires
        message == full_text(e),
        contains_text(message, "thread not loaded"@),
    ensures
        envelope(e)
            == "{\"ok\":false,\"error\":{\"code\":\"internal_error\",\"message\":"@ + json_string(
            message,
        ) + ",\"classified\":{\"code\":"@ + json_string("thread_not_loaded"@) + ",\"guidance\":"@
            + json_text_or_null(text_member(error_class(message), "guidance"@))
            + ",\"message\":"@ + json_string(message) + ",\"retryable\":"@ + "true"@ + "}}}"@,
{
    failures_are_classed(message);
}

} // verus!
