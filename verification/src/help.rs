//! The help: what the program says of itself, of a group of commands and of a command.
use vstd::prelude::*;
use vstd::string::*;

use crate::grammar::{
    about_group, about_verb, Child, child, flag_at, flag_called, flag_kind, flag_label, flags,
    flags_of, FlagV, Group, group_about, group_path, label, path_of_group, path_of_verb,
    place_label, places, places_of, PlaceV, shown_place, Verb, verb_about, verb_path, word_called,
    words_of, words_under, WordV,
};
use crate::table::{lemma_position, position};
use crate::text::{cat, cat3, chars_of, same};

verus! {

/// What the help is about.
#[derive(Debug, Clone, Copy, PartialEq, Eq, Structural)]
pub enum Page {
    /// A group of commands.
    Group(Group),
    /// A command.
    Verb(Verb),
    /// The command under a group that shows the help.
    Help(Group),
}

// ---------------------------------------------------------------------------
// Lists
// ---------------------------------------------------------------------------

/// How wide a line of the help is meant to be.
pub const HELP_WIDTH: usize = 100;

/// The length of the longest name among the first `n` rows, and two at least.
pub open spec fn widest(rows: Seq<(Seq<char>, Seq<char>)>, n: nat) -> nat
    decreases n,
{
    if n == 0 || n > rows.len() {
        2
    } else {
        let before = widest(rows, (n - 1) as nat);
        let width = rows[n - 1].0.len();
        if width > before {
            width
        } else {
            before
        }
    }
}

/// What is said of some name does not fit beside the names, which take more than two fifths
/// of a line with the blanks around them.
pub open spec fn crowded(rows: Seq<(Seq<char>, Seq<char>)>) -> bool {
    let taken = widest(rows, rows.len()) + 4;
    &&& 5 * taken > 2 * HELP_WIDTH
    &&& taken <= HELP_WIDTH
    &&& exists|i: int| 0 <= i < rows.len() && (#[trigger] rows[i]).1.len() > HELP_WIDTH - taken
}

/// This many blanks.
pub open spec fn blanks(n: nat) -> Seq<char>
    decreases n,
{
    if n == 0 {
        Seq::empty()
    } else {
        blanks((n - 1) as nat).push(' ')
    }
}

/// A name and what is said of it: beside the name, in a column, or below it.
pub open spec fn help_row(row: (Seq<char>, Seq<char>), width: nat, below: bool) -> Seq<char> {
    if below {
        "  "@ + row.0 + "\n          "@ + row.1
    } else {
        "  "@ + row.0 + blanks((width - row.0.len()) as nat) + "  "@ + row.1
    }
}

/// The first `n` rows, each on a line of its own.
pub open spec fn help_rows(
    rows: Seq<(Seq<char>, Seq<char>)>,
    n: nat,
    width: nat,
    below: bool,
) -> Seq<char>
    decreases n,
{
    if n == 0 || n > rows.len() {
        Seq::empty()
    } else if n == 1 {
        help_row(rows[0], width, below)
    } else {
        help_rows(rows, (n - 1) as nat, width, below) + "\n"@ + help_row(
            rows[n - 1],
            width,
            below,
        )
    }
}

/// Names and what is said of them, as the help lists them.
pub open spec fn help_list(rows: Seq<(Seq<char>, Seq<char>)>) -> Seq<char> {
    help_rows(rows, rows.len(), widest(rows, rows.len()), crowded(rows))
}

proof fn lemma_widest(rows: Seq<(Seq<char>, Seq<char>)>, n: nat, i: int)
    requires
        n <= rows.len(),
        0 <= i < n,
    ensures
        rows[i].0.len() <= widest(rows, n),
    decreases n,
{
    if i < n - 1 {
        lemma_widest(rows, (n - 1) as nat, i);
    }
}

/// Adds blanks to a text.
fn add_blanks(text: &mut String, n: usize)
    ensures
        final(text)@ == old(text)@ + blanks(n as nat),
{
    let ghost before = text@;
    let mut i: usize = 0;
    assert(before + blanks(0) =~= before);
    while i < n
        invariant
            i <= n,
            text@ == before + blanks(i as nat),
        decreases n - i,
    {
        text.push(' ');
        i += 1;
        assert(text@ =~= before + blanks(i as nat));
    }
}

/// Lists names and what is said of them.
fn list_rows(rows: &Vec<(String, String)>) -> (r: String)
    ensures
        r@ == help_list(rows.deep_view()),
{
    let ghost all = rows.deep_view();
    let mut width: usize = 2;
    let mut longest: usize = 0;
    let mut i: usize = 0;
    while i < rows.len()
        invariant
            i <= rows@.len(),
            all == rows.deep_view(),
            width == widest(all, i as nat),
            forall|k: int| 0 <= k < i ==> (#[trigger] all[k]).1.len() <= longest,
            longest == 0 || exists|k: int| 0 <= k < i && (#[trigger] all[k]).1.len() == longest,
        decreases rows@.len() - i,
    {
        assert(all[i as int] == (rows@[i as int].0@, rows@[i as int].1@));
        let name: usize = chars_of(rows[i].0.as_str()).len();
        if name > width {
            width = name;
        }
        let said: usize = chars_of(rows[i].1.as_str()).len();
        if said > longest {
            longest = said;
        }
        i += 1;
    }
    let below: bool = width > 36 && width <= 96 && longest > 96 - width;
    assert(below == crowded(all));
    let mut text = String::new();
    let mut n: usize = 0;
    while n < rows.len()
        invariant
            n <= rows@.len(),
            all == rows.deep_view(),
            width == widest(all, all.len()),
            text@ == help_rows(all, n as nat, width as nat, below),
        decreases rows@.len() - n,
    {
        assert(all[n as int] == (rows@[n as int].0@, rows@[n as int].1@));
        proof {
            lemma_widest(all, all.len(), n as int);
        }
        let ghost before = text@;
        if n > 0 {
            text.append("\n");
        }
        let ghost start = text@;
        text.append("  ");
        text.append(rows[n].0.as_str());
        if below {
            text.append("\n          ");
        } else {
            let name: usize = chars_of(rows[n].0.as_str()).len();
            add_blanks(&mut text, width - name);
            text.append("  ");
        }
        text.append(rows[n].1.as_str());
        assert(text@ =~= start + help_row(all[n as int], width as nat, below));
        n += 1;
        assert(text@ =~= help_rows(all, n as nat, width as nat, below));
    }
    text
}

// ---------------------------------------------------------------------------
// What is listed
// ---------------------------------------------------------------------------

/// What a word stands for is for.
pub open spec fn child_about(child: Child) -> Seq<char> {
    match child {
        Child::Verb(verb) => verb_about(verb),
        Child::Group(group) => group_about(group),
    }
}

/// What the command is for that shows the help.
pub const HELP_ABOUT: &'static str = "Print this message or the help of the given subcommand(s)";

/// The first `n` words under a group that the help does not pass over.
pub open spec fn shown_words(words: Seq<WordV>, n: nat) -> Seq<(Seq<char>, Seq<char>)>
    decreases n,
{
    if n == 0 || n > words.len() {
        Seq::empty()
    } else {
        let before = shown_words(words, (n - 1) as nat);
        let word = words[n - 1];
        if word.hidden {
            before
        } else {
            before.push((word.name, child_about(word.child)))
        }
    }
}

/// The commands under a group as the help lists them.
pub open spec fn command_rows(group: Group) -> Seq<(Seq<char>, Seq<char>)> {
    shown_words(words_under(group), words_under(group).len()).push(("help"@, HELP_ABOUT@))
}

/// The flags that are there for every command.
pub open spec fn help_flag() -> (Seq<char>, Seq<char>) {
    ("-h, --help"@, "Print help"@)
}

/// The flags of a group as the help lists them.
pub open spec fn group_flag_rows(group: Group) -> Seq<(Seq<char>, Seq<char>)> {
    if group == Group::Root {
        Seq::empty().push(help_flag()).push(("-V, --version"@, "Print version"@))
    } else {
        Seq::empty().push(help_flag())
    }
}

/// A flag as the help lists it: with its default, where it has one.
pub open spec fn flag_row(flag: FlagV) -> (Seq<char>, Seq<char>) {
    (
        "    "@ + label(flag),
        match flag.default {
            Some(value) => "[default: "@ + value + "]"@,
            None => ""@,
        },
    )
}

/// The flags of a command as the help lists them.
pub open spec fn flag_rows(verb: Verb) -> Seq<(Seq<char>, Seq<char>)> {
    flags(verb).map_values(|f: FlagV| flag_row(f)).push(help_flag())
}

/// The arguments of a command without a flag as the help lists them.
pub open spec fn place_rows(verb: Verb) -> Seq<(Seq<char>, Seq<char>)> {
    places(verb).map_values(|p: PlaceV| (place_label(p), ""@))
}

/// The help lists the flags that the command takes, and no others: each is accepted, and
/// whatever is accepted is listed.
pub proof fn help_lists_the_flags(verb: Verb, i: int, name: Seq<char>)
    requires
        0 <= i < flags(verb).len(),
    ensures
        flag_rows(verb).len() == flags(verb).len() + 1,
        flag_rows(verb)[i] == flag_row(flags(verb)[i]),
        flag_kind(verb, flags(verb)[i].name) is Some,
        flag_at(verb, name) matches Some(flag) ==> flag.name == name && flag_rows(verb).contains(
            flag_row(flag),
        ),
{
    let rows = flags(verb);
    lemma_position(rows, flag_called(rows[i].name), 0);
    assert(flag_called(rows[i].name)(rows[i]));
    lemma_position(rows, flag_called(name), 0);
    let p = position(rows, flag_called(name), 0);
    if p < rows.len() {
        assert(flag_rows(verb)[p as int] == flag_row(rows[p as int]));
    }
}

/// Every command is accepted, those that the help passes over included.
pub proof fn every_command_is_accepted(group: Group, i: int)
    requires
        0 <= i < words_under(group).len(),
    ensures
        child(group, words_under(group)[i].name) is Some,
{
    let rows = words_under(group);
    lemma_position(rows, word_called(rows[i].name), 0);
    assert(word_called(rows[i].name)(rows[i]));
}

/// The help lists a command, with what it is for, exactly where it is not hidden.
pub proof fn hidden_commands_are_passed_over(group: Group, i: nat)
    requires
        i < words_under(group).len(),
    ensures
        words_under(group)[i as int].hidden ==> shown_words(words_under(group), i + 1)
            == shown_words(words_under(group), i),
        !words_under(group)[i as int].hidden ==> shown_words(words_under(group), i + 1)
            == shown_words(words_under(group), i).push(
            (words_under(group)[i as int].name, child_about(words_under(group)[i as int].child)),
        ),
{
}

/// The commands under a group as the help lists them.
fn rows_of_commands(group: Group) -> (r: Vec<(String, String)>)
    ensures
        r.deep_view() == command_rows(group),
{
    let words = words_of(group);
    let ghost all = words_under(group);
    let mut rows: Vec<(String, String)> = Vec::new();
    let mut i: usize = 0;
    assert(rows.deep_view() =~= Seq::<(Seq<char>, Seq<char>)>::empty());
    while i < words.len()
        invariant
            i <= words@.len(),
            all == words.deep_view(),
            rows.deep_view() == shown_words(all, i as nat),
        decreases words@.len() - i,
    {
        assert(all[i as int] == words@[i as int]@);
        let ghost before = rows.deep_view();
        if !words[i].hidden {
            let about: &str = match words[i].child {
                Child::Verb(verb) => about_verb(verb),
                Child::Group(inner) => about_group(inner),
            };
            rows.push((words[i].name.to_owned(), about.to_owned()));
            assert(rows.deep_view() =~= before.push((words[i as int].name@, about@)));
        }
        i += 1;
    }
    let ghost before = rows.deep_view();
    rows.push(("help".to_owned(), HELP_ABOUT.to_owned()));
    assert(rows.deep_view() =~= before.push(("help"@, HELP_ABOUT@)));
    rows
}

/// The flags of a group as the help lists them.
fn rows_of_group_flags(group: Group) -> (r: Vec<(String, String)>)
    ensures
        r.deep_view() == group_flag_rows(group),
{
    let mut rows: Vec<(String, String)> = Vec::new();
    rows.push(("-h, --help".to_owned(), "Print help".to_owned()));
    match group {
        Group::Root => {
            rows.push(("-V, --version".to_owned(), "Print version".to_owned()));
        },
        _ => {},
    }
    assert(rows.deep_view() =~= group_flag_rows(group));
    rows
}

/// The flags of a command as the help lists them.
fn rows_of_flags(verb: Verb) -> (r: Vec<(String, String)>)
    ensures
        r.deep_view() == flag_rows(verb),
{
    let list = flags_of(verb);
    let ghost all = flags(verb);
    let mut rows: Vec<(String, String)> = Vec::new();
    let mut i: usize = 0;
    while i < list.len()
        invariant
            i <= list@.len(),
            all == list.deep_view(),
            rows@.len() == i,
            forall|k: int|
                0 <= k < i ==> (#[trigger] rows@[k]).deep_view() == flag_row(all[k]),
        decreases list@.len() - i,
    {
        assert(all[i as int] == list@[i as int]@);
        let said: String = match list[i].default {
            Some(value) => cat3("[default: ", value, "]"),
            None => "".to_owned(),
        };
        rows.push((cat("    ", flag_label(&list[i]).as_str()), said));
        i += 1;
    }
    rows.push(("-h, --help".to_owned(), "Print help".to_owned()));
    assert(rows.deep_view() =~= flag_rows(verb));
    rows
}

/// The arguments of a command without a flag as the help lists them.
fn rows_of_places(verb: Verb) -> (r: Vec<(String, String)>)
    ensures
        r.deep_view() == place_rows(verb),
{
    let list = places_of(verb);
    let ghost all = places(verb);
    let mut rows: Vec<(String, String)> = Vec::new();
    let mut i: usize = 0;
    while i < list.len()
        invariant
            i <= list@.len(),
            all == list.deep_view(),
            rows@.len() == i,
            forall|k: int|
                0 <= k < i ==> (#[trigger] rows@[k]).deep_view() == (place_label(all[k]), ""@),
        decreases list@.len() - i,
    {
        assert(all[i as int] == list@[i as int]@);
        rows.push((shown_place(&list[i]), "".to_owned()));
        i += 1;
    }
    assert(rows.deep_view() =~= place_rows(verb));
    rows
}

// ---------------------------------------------------------------------------
// Pages
// ---------------------------------------------------------------------------

/// The flags among the first `n` that have to be given, as the usage shows them.
pub open spec fn needed_flags(flags: Seq<FlagV>, n: nat) -> Seq<char>
    decreases n,
{
    if n == 0 || n > flags.len() {
        Seq::empty()
    } else {
        let before = needed_flags(flags, (n - 1) as nat);
        if flags[n - 1].needed {
            before + " "@ + label(flags[n - 1])
        } else {
            before
        }
    }
}

/// Some flag can stay away.
pub open spec fn some_free(flags: Seq<FlagV>) -> bool {
    exists|i: int| 0 <= i < flags.len() && !(#[trigger] flags[i]).needed
}

/// The first `n` arguments without a flag, as the usage shows them.
pub open spec fn place_labels(places: Seq<PlaceV>, n: nat) -> Seq<char>
    decreases n,
{
    if n == 0 || n > places.len() {
        Seq::empty()
    } else {
        place_labels(places, (n - 1) as nat) + " "@ + place_label(places[n - 1])
    }
}

/// The words that name a group, behind the name of the program.
pub open spec fn group_call(program: Seq<char>, group: Group) -> Seq<char> {
    if group == Group::Root {
        program
    } else {
        program + " "@ + group_path(group)
    }
}

/// How something is called.
pub open spec fn page_usage(program: Seq<char>, page: Page) -> Seq<char> {
    match page {
        Page::Group(group) => group_call(program, group) + " <COMMAND>"@,
        Page::Help(group) => group_call(program, group) + " help [COMMAND]..."@,
        Page::Verb(verb) => {
            let call = program + " "@ + verb_path(verb);
            let free = if some_free(flags(verb)) {
                call + " [OPTIONS]"@
            } else {
                call
            };
            free + needed_flags(flags(verb), flags(verb).len()) + place_labels(
                places(verb),
                places(verb).len(),
            )
        },
    }
}

/// What something is for.
pub open spec fn page_about(page: Page) -> Seq<char> {
    match page {
        Page::Group(group) => group_about(group),
        Page::Help(_) => HELP_ABOUT@,
        Page::Verb(verb) => verb_about(verb),
    }
}

/// The top of a page: what something is for, where that is told, and how it is called.
pub open spec fn page_top(program: Seq<char>, page: Page) -> Seq<char> {
    let usage = "Usage: "@ + page_usage(program, page) + "\n\n"@;
    if page_about(page) == ""@ {
        usage
    } else {
        page_about(page) + "\n\n"@ + usage
    }
}

/// A page of the help, where the program goes by this name.
pub open spec fn page_text(program: Seq<char>, page: Page) -> Seq<char> {
    match page {
        Page::Group(group) => page_top(program, page) + "Commands:\n"@ + help_list(
            command_rows(group),
        ) + "\n\nOptions:\n"@ + help_list(group_flag_rows(group)) + "\n"@,
        Page::Help(_) => page_top(program, page) + "Arguments:\n"@ + help_list(
            Seq::empty().push(("[COMMAND]..."@, "Print help for the subcommand(s)"@)),
        ) + "\n"@,
        Page::Verb(verb) => {
            let top = page_top(program, page);
            let placed = if places(verb).len() > 0 {
                top + "Arguments:\n"@ + help_list(place_rows(verb)) + "\n\n"@
            } else {
                top
            };
            placed + "Options:\n"@ + help_list(flag_rows(verb)) + "\n"@
        },
    }
}

/// How something is called.
fn usage_of(program: &str, page: Page) -> (r: String)
    ensures
        r@ == page_usage(program@, page),
{
    let mut text: String = program.to_owned();
    match page {
        Page::Group(group) => {
            add_group(&mut text, group);
            text.append(" <COMMAND>");
        },
        Page::Help(group) => {
            add_group(&mut text, group);
            text.append(" help [COMMAND]...");
        },
        Page::Verb(verb) => {
            text.append(" ");
            text.append(path_of_verb(verb));
            add_flags(&mut text, verb);
            add_places(&mut text, verb);
        },
    }
    text
}

/// Adds the words that name a group.
fn add_group(text: &mut String, group: Group)
    ensures
        final(text)@ == group_call(old(text)@, group),
{
    match group {
        Group::Root => {},
        _ => {
            text.append(" ");
            text.append(path_of_group(group));
        },
    }
}

/// Adds what the usage shows of the flags of a command.
fn add_flags(text: &mut String, verb: Verb)
    ensures
        final(text)@ == (if some_free(flags(verb)) {
            old(text)@ + " [OPTIONS]"@
        } else {
            old(text)@
        }) + needed_flags(flags(verb), flags(verb).len()),
{
    let list = flags_of(verb);
    let ghost all = flags(verb);
    let mut free: bool = false;
    let mut needed = String::new();
    let mut i: usize = 0;
    while i < list.len()
        invariant
            i <= list@.len(),
            all == list.deep_view(),
            free == exists|k: int| 0 <= k < i && !(#[trigger] all[k]).needed,
            needed@ == needed_flags(all, i as nat),
        decreases list@.len() - i,
    {
        assert(all[i as int] == list@[i as int]@);
        if list[i].needed {
            needed.append(" ");
            needed.append(flag_label(&list[i]).as_str());
        } else {
            free = true;
        }
        i += 1;
    }
    if free {
        text.append(" [OPTIONS]");
    }
    text.append(needed.as_str());
}

/// Adds what the usage shows of the arguments of a command that have no flag.
fn add_places(text: &mut String, verb: Verb)
    ensures
        final(text)@ == old(text)@ + place_labels(places(verb), places(verb).len()),
{
    let list = places_of(verb);
    let ghost all = places(verb);
    let ghost before = text@;
    let mut i: usize = 0;
    assert(before + place_labels(all, 0) =~= before);
    while i < list.len()
        invariant
            i <= list@.len(),
            all == list.deep_view(),
            text@ == before + place_labels(all, i as nat),
        decreases list@.len() - i,
    {
        assert(all[i as int] == list@[i as int]@);
        text.append(" ");
        text.append(shown_place(&list[i]).as_str());
        i += 1;
        assert(text@ =~= before + place_labels(all, i as nat));
    }
}

/// What something is for.
fn about_page(page: Page) -> (r: &'static str)
    ensures
        r@ == page_about(page),
{
    match page {
        Page::Group(group) => about_group(group),
        Page::Help(_) => HELP_ABOUT,
        Page::Verb(verb) => about_verb(verb),
    }
}

/// The top of a page.
fn top_of_page(program: &str, page: Page) -> (r: String)
    ensures
        r@ == page_top(program@, page),
{
    let usage = cat3("Usage: ", usage_of(program, page).as_str(), "\n\n");
    let about: &str = about_page(page);
    if same(about, "") {
        usage
    } else {
        cat3(about, "\n\n", usage.as_str())
    }
}

/// A page of the help, where the program goes by this name.
pub fn render_page(program: &str, page: Page) -> (r: String)
    ensures
        r@ == page_text(program@, page),
{
    let mut text = top_of_page(program, page);
    match page {
        Page::Group(group) => {
            text.append("Commands:\n");
            text.append(list_rows(&rows_of_commands(group)).as_str());
            text.append("\n\nOptions:\n");
            text.append(list_rows(&rows_of_group_flags(group)).as_str());
        },
        Page::Help(_) => {
            let mut rows: Vec<(String, String)> = Vec::new();
            rows.push(("[COMMAND]...".to_owned(), "Print help for the subcommand(s)".to_owned()));
            assert(rows.deep_view() =~= Seq::empty().push(
                ("[COMMAND]..."@, "Print help for the subcommand(s)"@),
            ));
            text.append("Arguments:\n");
            text.append(list_rows(&rows).as_str());
        },
        Page::Verb(verb) => {
            let rows = rows_of_places(verb);
            if rows.len() > 0 {
                text.append("Arguments:\n");
                text.append(list_rows(&rows).as_str());
                text.append("\n\n");
            }
            text.append("Options:\n");
            text.append(list_rows(&rows_of_flags(verb)).as_str());
        },
    }
    text.append("\n");
    text
}

/// The help of the whole program in its long form, which says of each flag on a line of its
/// own what it does.
pub open spec fn long_help() -> Seq<char> {
    page_top("codex-telegram-bridge"@, Page::Group(Group::Root)) + "Commands:\n"@ + help_list(
        command_rows(Group::Root),
    )
        + "\n\nOptions:\n  -h, --help\n          Print help\n\n  -V, --version\n          Print version\n"@
}

/// The help of the whole program in its long form.
pub fn render_long_help() -> (r: String)
    ensures
        r@ == long_help(),
{
    let mut text = top_of_page("codex-telegram-bridge", Page::Group(Group::Root));
    text.append("Commands:\n");
    text.append(list_rows(&rows_of_commands(Group::Root)).as_str());
    text.append(
        "\n\nOptions:\n  -h, --help\n          Print help\n\n  -V, --version\n          Print version\n",
    );
    text
}

} // verus!
