//! The arguments of a command: reading them, and what was given.
use vstd::prelude::*;
use vstd::string::*;

use crate::cli::{CliError, CliErrorV};
use crate::grammar::{
    find_flag, Flag, flag_at, flag_called, flag_kind, flag_label, flags, FlagV, has_place, label,
    Takes, takes_place, Verb,
};
use crate::help::Page;
use crate::table::{first_row, has_row, lemma_position, position};
use crate::text::{cat, chars_of, index_from, parse_u64, parsed_unsigned, same, text_of};

verus! {

// ---------------------------------------------------------------------------
// What was given
// ---------------------------------------------------------------------------

/// What was given to a command: flags with their values, and arguments without a flag.
#[derive(Debug, PartialEq, Eq)]
pub struct Given {
    pub options: Vec<(String, String)>,
    pub places: Vec<String>,
}

/// The model of [`Given`].
#[verifier::ext_equal]
pub struct GivenV {
    pub options: Seq<(Seq<char>, Seq<char>)>,
    pub places: Seq<Seq<char>>,
}

impl View for Given {
    type V = GivenV;

    open spec fn view(&self) -> GivenV {
        GivenV { options: self.options.deep_view(), places: self.places.deep_view() }
    }
}

/// Nothing was given.
pub open spec fn nothing_given() -> GivenV {
    GivenV { options: Seq::empty(), places: Seq::empty() }
}

/// A flag of this name.
pub open spec fn option_hit(name: Seq<char>) -> spec_fn((Seq<char>, Seq<char>)) -> bool {
    |o: (Seq<char>, Seq<char>)| o.0 == name
}

/// A flag was given.
pub open spec fn has_option(g: GivenV, name: Seq<char>) -> bool {
    has_row(g.options, option_hit(name))
}

/// The value of a flag that was given.
pub open spec fn option_value(g: GivenV, name: Seq<char>) -> Option<Seq<char>> {
    match first_row(g.options, option_hit(name)) {
        Some(o) => Some(o.1),
        None => None,
    }
}

/// The value of a flag, or what stands for it.
pub open spec fn text_or(g: GivenV, name: Seq<char>, default: Seq<char>) -> Seq<char> {
    match option_value(g, name) {
        Some(t) => t,
        None => default,
    }
}

/// The number of a flag, or what stands for it.
pub open spec fn number_or(g: GivenV, name: Seq<char>, default: u64) -> u64 {
    match option_value(g, name) {
        Some(t) => match parsed_unsigned(t, u64::MAX as nat) {
            Some(n) => n as u64,
            None => default,
        },
        None => default,
    }
}

/// The values of a flag that may be given again, among the first `n`.
pub open spec fn values_upto(
    options: Seq<(Seq<char>, Seq<char>)>,
    name: Seq<char>,
    n: nat,
) -> Seq<Seq<char>>
    decreases n,
{
    if n == 0 || n > options.len() {
        Seq::empty()
    } else {
        let before = values_upto(options, name, (n - 1) as nat);
        if options[n - 1].0 == name {
            before.push(options[n - 1].1)
        } else {
            before
        }
    }
}

/// The values of a flag that may be given again.
pub open spec fn all_values(g: GivenV, name: Seq<char>) -> Seq<Seq<char>> {
    values_upto(g.options, name, g.options.len())
}

/// The argument at a place.
pub open spec fn word_at(g: GivenV, i: int) -> Option<Seq<char>> {
    if 0 <= i < g.places.len() {
        Some(g.places[i])
    } else {
        None
    }
}

impl Given {
    /// Nothing was given.
    pub(crate) fn nothing() -> (r: Given)
        ensures
            r@ == nothing_given(),
    {
        let r = Given { options: Vec::new(), places: Vec::new() };
        assert(r@ =~= nothing_given());
        r
    }

    /// The index of a flag, or the number of flags.
    pub(crate) fn find(&self, name: &str) -> (p: usize)
        ensures
            p <= self.options@.len(),
            p == position(self@.options, option_hit(name@), 0),
    {
        let ghost all = self@.options;
        let mut i: usize = 0;
        while i < self.options.len()
            invariant
                i <= self.options@.len(),
                all == self.options.deep_view(),
                position(all, option_hit(name@), 0) == position(
                    all,
                    option_hit(name@),
                    i as nat,
                ),
            decreases self.options@.len() - i,
        {
            assert(all[i as int] == self.options@[i as int].deep_view());
            if same(self.options[i].0.as_str(), name) {
                return i;
            }
            i += 1;
        }
        i
    }

    /// Tells whether a flag was given.
    pub(crate) fn has(&self, name: &str) -> (r: bool)
        ensures
            r == has_option(self@, name@),
    {
        self.find(name) < self.options.len()
    }

    /// The value of a flag that was given.
    pub(crate) fn value(&self, name: &str) -> (r: Option<String>)
        ensures
            r.deep_view() == option_value(self@, name@),
    {
        let i: usize = self.find(name);
        if i < self.options.len() {
            assert(self@.options[i as int] == self.options@[i as int].deep_view());
            Some(self.options[i].1.clone())
        } else {
            None
        }
    }

    /// The value of a flag, or what stands for it.
    pub(crate) fn value_or(&self, name: &str, default: &str) -> (r: String)
        ensures
            r@ == text_or(self@, name@, default@),
    {
        match self.value(name) {
            Some(t) => t,
            None => default.to_owned(),
        }
    }

    /// The number of a flag, or what stands for it.
    pub(crate) fn number(&self, name: &str, default: u64) -> (r: u64)
        ensures
            r == number_or(self@, name@, default),
    {
        match self.value(name) {
            Some(t) => match parse_u64(t.as_str()) {
                Some(n) => n,
                None => default,
            },
            None => default,
        }
    }

    /// The values of a flag that may be given again.
    pub(crate) fn values(&self, name: &str) -> (r: Vec<String>)
        ensures
            r.deep_view() == all_values(self@, name@),
    {
        let ghost all = self@.options;
        let mut out: Vec<String> = Vec::new();
        let mut i: usize = 0;
        assert(out.deep_view() =~= Seq::<Seq<char>>::empty());
        while i < self.options.len()
            invariant
                i <= self.options@.len(),
                all == self.options.deep_view(),
                out.deep_view() == values_upto(all, name@, i as nat),
            decreases self.options@.len() - i,
        {
            assert(all[i as int] == self.options@[i as int].deep_view());
            if same(self.options[i].0.as_str(), name) {
                let ghost before = out.deep_view();
                out.push(self.options[i].1.clone());
                assert(out.deep_view() =~= before.push(all[i as int].1));
            }
            i += 1;
        }
        out
    }

    /// The argument at the first place.
    pub(crate) fn first_place(&self) -> (r: String)
        requires
            self@.places.len() >= 1,
        ensures
            r@ == self@.places[0],
    {
        assert(self@.places[0] == self.places@[0]@);
        self.places[0].clone()
    }

    /// The argument at the second place.
    pub(crate) fn second_place(&self) -> (r: Option<String>)
        ensures
            r.deep_view() == word_at(self@, 1),
    {
        if self.places.len() > 1 {
            assert(self@.places[1] == self.places@[1]@);
            Some(self.places[1].clone())
        } else {
            None
        }
    }

    /// The arguments from a place on.
    pub(crate) fn places_from(&self, from: usize) -> (r: Vec<String>)
        requires
            from <= self@.places.len(),
        ensures
            r.deep_view() == self@.places.skip(from as int),
    {
        let mut out: Vec<String> = Vec::new();
        let mut i: usize = from;
        while i < self.places.len()
            invariant
                from <= i <= self.places@.len(),
                out@.len() == i - from,
                forall|k: int| 0 <= k < i - from ==> (#[trigger] out@[k])@ == self.places@[from + k]@,
            decreases self.places@.len() - i,
        {
            out.push(self.places[i].clone());
            i += 1;
        }
        assert(out.deep_view() =~= self@.places.skip(from as int));
        out
    }
}

// ---------------------------------------------------------------------------
// Reading the arguments
// ---------------------------------------------------------------------------

/// A word that is read as a flag: it starts with a hyphen and is not only that.
pub open spec fn is_flag(a: Seq<char>) -> bool {
    a.len() > 1 && a[0] == '-'
}

/// A word that is read as a flag with a long name.
pub open spec fn is_long(a: Seq<char>) -> bool {
    a.len() > 1 && a[0] == '-' && a[1] == '-'
}

/// The name of a flag with a long name: what stands before the equals sign.
pub open spec fn flag_name(a: Seq<char>) -> Seq<char> {
    a.subrange(2, index_from(a, '=', 2) as int)
}

/// The value that is attached to a flag by an equals sign.
pub open spec fn attached(a: Seq<char>) -> Option<Seq<char>> {
    let at = index_from(a, '=', 2);
    if at < a.len() {
        Some(a.skip(at as int + 1))
    } else {
        None
    }
}

/// What was given, with one flag more.
pub open spec fn with_option(g: GivenV, name: Seq<char>, value: Seq<char>) -> GivenV {
    GivenV { options: g.options.push((name, value)), ..g }
}

/// A flag that is found has the name that was looked for.
proof fn lemma_found_flag(verb: Verb, name: Seq<char>)
    ensures
        flag_at(verb, name) matches Some(flag) ==> flag.name == name,
{
    lemma_position(flags(verb), flag_called(name), 0);
}

/// What is wrong with the word at `i` by itself, after this many arguments without a flag,
/// whatever is wrong with what was given before it.
pub open spec fn word_fault(
    verb: Verb,
    args: Seq<Seq<char>>,
    i: nat,
    places: nat,
    literal: bool,
) -> Option<CliErrorV>
    decreases args.len() - i,
{
    if i >= args.len() {
        None
    } else {
        let a = args[i as int];
        if !literal && a == "--"@ {
            word_fault(verb, args, i + 1, places, true)
        } else if !literal && is_long(a) {
            long_fault(verb, a)
        } else if !literal && is_flag(a) {
            if a[1] == 'h' {
                None
            } else {
                Some(CliErrorV::UnknownArgument(a.take(2)))
            }
        } else if has_place(verb, places) {
            None
        } else {
            Some(CliErrorV::UnknownArgument(a))
        }
    }
}

/// What is wrong with a flag with a long name by itself: the command does not have it, or it
/// takes no value and has one attached.
pub open spec fn long_fault(verb: Verb, a: Seq<char>) -> Option<CliErrorV> {
    let name = flag_name(a);
    match (flag_at(verb, name), attached(a)) {
        (None, None) => if name == "help"@ {
            None
        } else {
            Some(CliErrorV::UnknownArgument("--"@ + name))
        },
        (None, Some(value)) => if name == "help"@ {
            Some(CliErrorV::UnexpectedValue("--help"@, value))
        } else {
            Some(CliErrorV::UnknownArgument("--"@ + name))
        },
        (Some(flag), Some(value)) => if flag.takes == Takes::Switch {
            Some(CliErrorV::UnexpectedValue(label(flag), value))
        } else {
            None
        },
        (Some(_), None) => None,
    }
}

/// What is told of a fault in the flag before the word at `i`: a fault of that word goes
/// first.
pub open spec fn told_before(
    verb: Verb,
    args: Seq<Seq<char>>,
    i: nat,
    g: GivenV,
    fault: CliErrorV,
) -> CliErrorV {
    match word_fault(verb, args, i, g.places.len(), false) {
        Some(e) => e,
        None => fault,
    }
}

/// What is wrong with the value of a flag: the flag was given already, or takes a number and
/// this is none.
pub open spec fn value_fault(flag: FlagV, value: Seq<char>, g: GivenV) -> Option<CliErrorV> {
    if flag.takes != Takes::Many && has_option(g, flag.name) {
        Some(CliErrorV::RepeatedArgument(label(flag)))
    } else if flag.takes == Takes::Number && parsed_unsigned(value, u64::MAX as nat) is None {
        Some(CliErrorV::InvalidNumber(label(flag), value))
    } else {
        None
    }
}

/// Reads the flag with a long name at `i`.
pub open spec fn long_step(verb: Verb, args: Seq<Seq<char>>, i: nat, g: GivenV) -> Result<
    (nat, GivenV),
    CliErrorV,
> {
    let a = args[i as int];
    match (long_fault(verb, a), flag_at(verb, flag_name(a))) {
        (Some(e), _) => Err(e),
        (None, None) => Err(CliErrorV::Help(Page::Verb(verb))),
        (None, Some(flag)) => if flag.takes == Takes::Switch {
            if has_option(g, flag.name) {
                Err(CliErrorV::RepeatedArgument(label(flag)))
            } else {
                Ok((i + 1, with_option(g, flag.name, Seq::empty())))
            }
        } else {
            match attached(a) {
                Some(value) => match value_fault(flag, value, g) {
                    Some(e) => Err(e),
                    None => Ok((i + 1, with_option(g, flag.name, value))),
                },
                None => if i + 1 < args.len() && !is_flag(args[i as int + 1]) {
                    let value = args[i as int + 1];
                    match value_fault(flag, value, g) {
                        Some(e) => Err(told_before(verb, args, i + 2, g, e)),
                        None => Ok((i + 2, with_option(g, flag.name, value))),
                    }
                } else {
                    Err(told_before(verb, args, i + 1, g, CliErrorV::MissingValue(label(flag))))
                },
            }
        },
    }
}

/// Reads the word at `i`: where reading goes on, what was given by then, and whether the
/// rest has no flags.
pub open spec fn step(verb: Verb, args: Seq<Seq<char>>, i: nat, g: GivenV, literal: bool) -> Result<
    (nat, GivenV, bool),
    CliErrorV,
> {
    let a = args[i as int];
    if !literal && a == "--"@ {
        Ok((i + 1, g, true))
    } else if !literal && is_long(a) {
        match long_step(verb, args, i, g) {
            Ok((next, after)) => Ok((next, after, false)),
            Err(e) => Err(e),
        }
    } else if !literal && is_flag(a) {
        Err(
            if a[1] == 'h' {
                CliErrorV::Help(Page::Verb(verb))
            } else {
                CliErrorV::UnknownArgument(a.take(2))
            },
        )
    } else if has_place(verb, g.places.len()) {
        Ok((i + 1, GivenV { places: g.places.push(a), ..g }, literal))
    } else {
        Err(CliErrorV::UnknownArgument(a))
    }
}

/// Reads the words from `i` on.
pub open spec fn scanned(
    verb: Verb,
    args: Seq<Seq<char>>,
    i: nat,
    g: GivenV,
    literal: bool,
) -> Result<GivenV, CliErrorV>
    decreases args.len() - i,
{
    if i >= args.len() {
        Ok(g)
    } else {
        match step(verb, args, i, g, literal) {
            Err(e) => Err(e),
            Ok((next, after, rest)) => if next > i {
                scanned(verb, args, next, after, rest)
            } else {
                Ok(g)
            },
        }
    }
}

/// The index of the first character at or after `i` that is `c`, or the length.
pub(crate) fn find_char(v: &Vec<char>, c: char, i: usize) -> (p: usize)
    requires
        i <= v@.len(),
    ensures
        i <= p <= v@.len(),
        p == index_from(v@, c, i as nat),
{
    let mut p: usize = i;
    while p < v.len() && v[p] != c
        invariant
            i <= p <= v@.len(),
            index_from(v@, c, i as nat) == index_from(v@, c, p as nat),
        decreases v@.len() - p,
    {
        p += 1;
    }
    p
}

/// Tells whether a word is read as a flag.
pub(crate) fn reads_as_flag(a: &str) -> (r: bool)
    ensures
        r == is_flag(a@),
{
    let v = chars_of(a);
    v.len() > 1 && v[0] == '-'
}

/// What stands before the equals sign of a flag with a long name, and what behind it.
pub(crate) fn split_flag(a: &str) -> (r: (String, Option<String>))
    requires
        is_long(a@),
    ensures
        r.0@ == flag_name(a@),
        r.1.deep_view() == attached(a@),
{
    let v = chars_of(a);
    let eq: usize = find_char(&v, '=', 2);
    let name = text_of(&v, 2, eq);
    if eq < v.len() {
        assert(v@.subrange(eq as int + 1, v@.len() as int) =~= v@.skip(eq as int + 1));
        (name, Some(text_of(&v, eq + 1, v.len())))
    } else {
        (name, None)
    }
}

/// The first two characters of a flag with a short name.
pub(crate) fn short_flag(a: &str) -> (r: (char, String))
    requires
        is_flag(a@),
    ensures
        r.0 == a@[1],
        r.1@ == a@.take(2),
{
    let v = chars_of(a);
    assert(v@.subrange(0, 2) =~= v@.take(2));
    (v[1], text_of(&v, 0, 2))
}

/// Tells whether a word is read as a flag with a long name.
pub(crate) fn reads_as_long(a: &str) -> (r: bool)
    ensures
        r == is_long(a@),
{
    let v = chars_of(a);
    v.len() > 1 && v[0] == '-' && v[1] == '-'
}

/// The model of an error that may be missing.
pub open spec fn fault_view(e: Option<CliError>) -> Option<CliErrorV> {
    match e {
        Some(e) => Some(e@),
        None => None,
    }
}

/// What is wrong with a flag with a long name by itself.
fn fault_of_long(verb: Verb, a: &str) -> (r: Option<CliError>)
    requires
        is_long(a@),
    ensures
        fault_view(r) == long_fault(verb, a@),
{
    let (name, tied) = split_flag(a);
    match find_flag(verb, name.as_str()) {
        None => {
            if !same(name.as_str(), "help") {
                return Some(CliError::UnknownArgument(cat("--", name.as_str())));
            }
            match tied {
                Some(value) => Some(CliError::UnexpectedValue("--help".to_owned(), value)),
                None => None,
            }
        },
        Some(flag) => match (flag.takes, tied) {
            (Takes::Switch, Some(value)) => Some(
                CliError::UnexpectedValue(flag_label(&flag), value),
            ),
            _ => None,
        },
    }
}

/// What is wrong with the word at `from` by itself, after this many arguments without a flag.
fn fault_of_word(verb: Verb, args: &Vec<String>, from: usize, places: usize) -> (r: Option<
    CliError,
>)
    ensures
        fault_view(r) == word_fault(verb, args.deep_view(), from as nat, places as nat, false),
{
    let ghost all = args.deep_view();
    if from >= args.len() {
        return None;
    }
    assert(all[from as int] == args@[from as int]@);
    proof {
        reveal_with_fuel(word_fault, 2);
    }
    let a: &str = args[from].as_str();
    if same(a, "--") {
        if from + 1 >= args.len() || takes_place(verb, places) {
            return None;
        }
        assert(all[from + 1] == args@[from + 1]@);
        return Some(CliError::UnknownArgument(args[from + 1].clone()));
    }
    if reads_as_long(a) {
        return fault_of_long(verb, a);
    }
    if reads_as_flag(a) {
        let (letter, shown) = short_flag(a);
        if letter == 'h' {
            return None;
        }
        return Some(CliError::UnknownArgument(shown));
    }
    if takes_place(verb, places) {
        None
    } else {
        Some(CliError::UnknownArgument(args[from].clone()))
    }
}

/// What is told of a fault in the flag before the word at `from`.
fn tell_before(verb: Verb, args: &Vec<String>, from: usize, given: &Given, fault: CliError) -> (r:
    CliError)
    ensures
        r@ == told_before(verb, args.deep_view(), from as nat, given@, fault@),
{
    match fault_of_word(verb, args, from, given.places.len()) {
        Some(e) => e,
        None => fault,
    }
}

/// What is wrong with the value of a flag.
fn fault_of_value(flag: &Flag, value: &str, given: &Given) -> (r: Option<CliError>)
    ensures
        fault_view(r) == value_fault(flag@, value@, given@),
{
    if flag.takes != Takes::Many && given.has(flag.name) {
        Some(CliError::RepeatedArgument(flag_label(flag)))
    } else if flag.takes == Takes::Number && parse_u64(value).is_none() {
        Some(CliError::InvalidNumber(flag_label(flag), value.to_owned()))
    } else {
        None
    }
}

/// Reads the flag with a long name at `i`.
pub(crate) fn take_long(verb: Verb, args: &Vec<String>, i: usize, given: &mut Given) -> (r: Result<
    usize,
    CliError,
>)
    requires
        i < args@.len(),
        is_long(args@[i as int]@),
    ensures
        match (r, long_step(verb, args.deep_view(), i as nat, old(given)@)) {
            (Ok(next), Ok((n, g))) => next == n && final(given)@ == g && i < next <= args@.len(),
            (Err(e), Err(f)) => e@ == f,
            _ => false,
        },
{
    let ghost all = args.deep_view();
    let ghost before = given@;
    let total: usize = args.len();
    assert(i < total);
    assert(all[i as int] == args@[i as int]@);
    match fault_of_long(verb, args[i].as_str()) {
        Some(e) => {
            return Err(e);
        },
        None => {},
    }
    let (name, tied) = split_flag(args[i].as_str());
    let flag: Flag = match find_flag(verb, name.as_str()) {
        Some(f) => f,
        None => {
            return Err(CliError::Help(Page::Verb(verb)));
        },
    };
    proof {
        lemma_found_flag(verb, name@);
    }
    if flag.takes == Takes::Switch {
        if given.has(flag.name) {
            return Err(CliError::RepeatedArgument(flag_label(&flag)));
        }
        let nothing: String = "".to_owned();
        proof {
            reveal_strlit("");
        }
        assert(nothing@ =~= Seq::<char>::empty());
        given.options.push((name, nothing));
        assert(given@.options =~= before.options.push((name@, Seq::empty())));
        return Ok(i + 1);
    }
    let (value, next): (String, usize) = match tied {
        Some(t) => {
            match fault_of_value(&flag, t.as_str(), given) {
                Some(e) => {
                    return Err(e);
                },
                None => {},
            }
            (t, i + 1)
        },
        None => {
            if i + 1 >= args.len() {
                let fault = CliError::MissingValue(flag_label(&flag));
                return Err(tell_before(verb, args, i + 1, given, fault));
            }
            assert(all[i + 1] == args@[i + 1]@);
            if reads_as_flag(args[i + 1].as_str()) {
                let fault = CliError::MissingValue(flag_label(&flag));
                return Err(tell_before(verb, args, i + 1, given, fault));
            }
            match fault_of_value(&flag, args[i + 1].as_str(), given) {
                Some(fault) => {
                    return Err(tell_before(verb, args, i + 2, given, fault));
                },
                None => {},
            }
            (args[i + 1].clone(), i + 2)
        },
    };
    given.options.push((name, value));
    assert(given@.options =~= before.options.push((name@, value@)));
    Ok(next)
}

/// Reads the words from `from` on.
pub(crate) fn scan(verb: Verb, args: &Vec<String>, from: usize) -> (r: Result<Given, CliError>)
    requires
        from <= args@.len(),
    ensures
        match (r, scanned(verb, args.deep_view(), from as nat, nothing_given(), false)) {
            (Ok(g), Ok(h)) => g@ == h,
            (Err(e), Err(f)) => e@ == f,
            _ => false,
        },
{
    let ghost all = args.deep_view();
    let ghost whole = scanned(verb, all, from as nat, nothing_given(), false);
    let mut given = Given::nothing();
    let mut literal: bool = false;
    let mut i: usize = from;
    while i < args.len()
        invariant
            i <= args@.len(),
            all == args.deep_view(),
            whole == scanned(verb, all, from as nat, nothing_given(), false),
            whole == scanned(verb, all, i as nat, given@, literal),
        decreases args@.len() - i,
    {
        assert(all[i as int] == args@[i as int]@);
        let ghost before = given@;
        if !literal && same(args[i].as_str(), "--") {
            literal = true;
            i += 1;
        } else if !literal && reads_as_long(args[i].as_str()) {
            match take_long(verb, args, i, &mut given) {
                Ok(next) => {
                    i = next;
                },
                Err(e) => {
                    return Err(e);
                },
            }
        } else if !literal && reads_as_flag(args[i].as_str()) {
            let (letter, shown) = short_flag(args[i].as_str());
            if letter == 'h' {
                return Err(CliError::Help(Page::Verb(verb)));
            }
            return Err(CliError::UnknownArgument(shown));
        } else if takes_place(verb, given.places.len()) {
            given.places.push(args[i].clone());
            assert(given@.places =~= before.places.push(all[i as int]));
            i += 1;
        } else {
            return Err(CliError::UnknownArgument(args[i].clone()));
        }
    }
    Ok(given)
}

/// The value is a number, where the flag takes one.
pub open spec fn fits(kind: Takes, value: Seq<char>) -> bool {
    kind == Takes::Number ==> parsed_unsigned(value, u64::MAX as nat) is Some
}

/// What was given is in the grammar of the command: the flags are its own, each once unless
/// it may be given again, with values that fit, and no argument is one too many.
pub open spec fn in_grammar(verb: Verb, g: GivenV) -> bool {
    &&& forall|k: int|
        0 <= k < g.options.len() ==> flag_kind(verb, (#[trigger] g.options[k]).0) is Some && fits(
            flag_kind(verb, g.options[k].0)->0,
            g.options[k].1,
        )
    &&& forall|j: int, k: int|
        0 <= j < k < g.options.len() && (#[trigger] g.options[j]).0 == (
        #[trigger] g.options[k]).0 ==> flag_kind(verb, g.options[k].0) == Some(Takes::Many)
    &&& forall|n: nat| n < g.places.len() ==> #[trigger] has_place(verb, n)
}

/// What is read of a command line is in the grammar of its command.
pub proof fn accepted_arguments_are_in_the_grammar(
    verb: Verb,
    args: Seq<Seq<char>>,
    i: nat,
    g: GivenV,
    literal: bool,
)
    requires
        in_grammar(verb, g),
        scanned(verb, args, i, g, literal) is Ok,
    ensures
        in_grammar(verb, scanned(verb, args, i, g, literal)->Ok_0),
    decreases args.len() - i,
{
    if i < args.len() {
        match step(verb, args, i, g, literal) {
            Ok((next, after, rest)) => {
                if next > i {
                    let a = args[i as int];
                    if !literal && a != "--"@ && is_long(a) {
                        let name = flag_name(a);
                        lemma_found_flag(verb, name);
                        lemma_position(g.options, option_hit(name), 0);
                        assert forall|j: int, k: int|
                            0 <= j < k < after.options.len() && (
                            #[trigger] after.options[j]).0 == (#[trigger] after.options[k]).0
                            implies flag_kind(verb, after.options[k].0) == Some(Takes::Many) by {
                            if k < g.options.len() {
                                assert(g.options[j] == after.options[j]);
                                assert(g.options[k] == after.options[k]);
                            } else if flag_kind(verb, name) != Some(Takes::Many) {
                                assert(!option_hit(name)(g.options[j]));
                            }
                        }
                    }
                    assert(in_grammar(verb, after));
                    accepted_arguments_are_in_the_grammar(verb, args, next, after, rest);
                }
            },
            Err(_) => {},
        }
    }
}

/// A flag that is not one of the command's is refused, wherever it stands.
pub proof fn strange_flags_are_refused(
    verb: Verb,
    args: Seq<Seq<char>>,
    i: nat,
    g: GivenV,
)
    requires
        i < args.len(),
        is_long(args[i as int]),
        args[i as int] != "--"@,
        flag_kind(verb, flag_name(args[i as int])) is None,
        flag_name(args[i as int]) != "help"@,
    ensures
        scanned(verb, args, i, g, false) == Err::<GivenV, CliErrorV>(
            CliErrorV::UnknownArgument("--"@ + flag_name(args[i as int])),
        ),
{
}

} // verus!
