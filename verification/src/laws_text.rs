//! What holds of texts: of trimming, joining, splitting, searching and of numbers in them.
use vstd::prelude::*;
use vstd::string::*;

use crate::error::{BridgeErrorV, failure, full_text, in_context};
use crate::json::{json_char, json_chars, json_string};
use crate::laws_discord::lemma_kept_parts;
use crate::requests::comma_list;
use crate::text::{
    ascii_lowered, before_from, begins_with, contains_text, decimal, index_from, is_digit, is_space,
    join_upto, joined, lemma_decimal_digits, lemma_index_from, matches_at, non_blank, parsed_i64,
    parsed_unsigned, replace_from, replaced, signed_decimal, split_from, text_before, trim_end,
    trim_start, trimmed, word_scan, words,
};

verus! {

/// Every character of the text is white space.
pub open spec fn all_blank(s: Seq<char>) -> bool {
    forall|i: int| 0 <= i < s.len() ==> is_space(#[trigger] s[i])
}

/// A trimmed text neither begins nor ends with white space, and what trimming takes away is
/// white space at the two ends.
pub proof fn trimming_takes_blanks_away(before: Seq<char>, text: Seq<char>, after: Seq<char>)
    requires
        all_blank(before),
        all_blank(after),
        text.len() > 0,
        !is_space(text[0]),
        !is_space(text.last()),
    ensures
        trimmed(before + text + after) == text,
        non_blank(Some(before + text + after)) == Some(text),
{
    lemma_trim_start(before, text + after);
    assert(before + text + after =~= before + (text + after));
    assert((text + after)[0] == text[0]);
    lemma_trim_end(text, after);
}

proof fn lemma_trim_start(before: Seq<char>, text: Seq<char>)
    requires
        all_blank(before),
        text.len() > 0,
        !is_space(text[0]),
    ensures
        trim_start(before + text) == text,
    decreases before.len(),
{
    let s = before + text;
    if before.len() > 0 {
        assert(s[0] == before[0]);
        let rest = before.skip(1);
        assert forall|i: int| 0 <= i < rest.len() implies is_space(#[trigger] rest[i]) by {
            assert(rest[i] == before[i + 1]);
        }
        assert(s.subrange(1, s.len() as int) =~= rest + text);
        lemma_trim_start(rest, text);
    } else {
        assert(s =~= text);
    }
}

proof fn lemma_trim_end(text: Seq<char>, after: Seq<char>)
    requires
        all_blank(after),
        text.len() > 0,
        !is_space(text.last()),
    ensures
        trim_end(text + after) == text,
    decreases after.len(),
{
    let s = text + after;
    if after.len() > 0 {
        assert(s.last() == after.last());
        let rest = after.drop_last();
        assert forall|i: int| 0 <= i < rest.len() implies is_space(#[trigger] rest[i]) by {
            assert(rest[i] == after[i]);
        }
        assert(s.drop_last() =~= text + rest);
        lemma_trim_end(text, rest);
    } else {
        assert(s =~= text);
    }
}

/// A text of white space only is blank, and so is none at all.
pub proof fn blanks_are_blank(s: Seq<char>)
    requires
        all_blank(s),
    ensures
        trimmed(s).len() == 0,
        non_blank(Some(s)) is None,
        non_blank(None) is None,
    decreases s.len(),
{
    lemma_all_blank(s);
}

proof fn lemma_all_blank(s: Seq<char>)
    requires
        all_blank(s),
    ensures
        trim_start(s).len() == 0,
    decreases s.len(),
{
    if s.len() > 0 {
        let rest = s.subrange(1, s.len() as int);
        assert forall|i: int| 0 <= i < rest.len() implies is_space(#[trigger] rest[i]) by {
            assert(rest[i] == s[i + 1]);
        }
        lemma_all_blank(rest);
    }
}

/// Blanks, tabs and line ends are white space; letters, digits and slashes are not.
pub proof fn common_characters_are_told_apart(c: char)
    ensures
        is_space(' ') && is_space('\n') && is_space('\t') && is_space('\r'),
        ('a' <= c && c <= 'z') || ('A' <= c && c <= 'Z') || ('0' <= c && c <= '9') || c == '/' || c
            == '-' || c == '_' || c == ':' || c == '.' ==> !is_space(c),
{
}

/// Small letters: a letter of the alphabet is written small, all else is kept.
pub proof fn small_letters_are_small(s: Seq<char>, i: int)
    requires
        0 <= i < s.len(),
    ensures
        ascii_lowered(s).len() == s.len(),
        'A' <= s[i] && s[i] <= 'Z' ==> ascii_lowered(s)[i] as u32 == s[i] as u32 + 32,
        !('A' <= s[i] && s[i] <= 'Z') ==> ascii_lowered(s)[i] == s[i],
{
}

/// A text holds whatever stands in it, and nothing that is longer.
pub proof fn texts_hold_their_parts(before: Seq<char>, part: Seq<char>, after: Seq<char>)
    ensures
        contains_text(before + part + after, part),
        begins_with(part + after, part),
        before.len() < part.len() ==> !contains_text(before, part),
{
    let s = before + part + after;
    assert(s.subrange(before.len() as int, (before.len() + part.len()) as int) =~= part);
    assert(matches_at(s, before.len() as int, part));
    assert((part + after).subrange(0, part.len() as int) =~= part);
}

/// Joining puts the separator between the parts: one more part follows behind it.
pub proof fn joining_puts_the_separator_between(
    parts: Seq<Seq<char>>,
    sep: Seq<char>,
    last: Seq<char>,
)
    ensures
        parts.len() > 0 ==> joined(parts.push(last), sep) == joined(parts, sep) + sep + last,
        parts.len() == 0 ==> joined(parts.push(last), sep) == last,
        parts.len() == 0 ==> joined(parts, sep).len() == 0,
{
    let all = parts.push(last);
    lemma_join_prefix(parts, sep, last, parts.len());
    assert(all[all.len() - 1] == last);
    if parts.len() == 0 {
        assert(all[0] == last);
    }
}

proof fn lemma_join_prefix(parts: Seq<Seq<char>>, sep: Seq<char>, last: Seq<char>, n: nat)
    requires
        n <= parts.len(),
    ensures
        join_upto(parts.push(last), sep, n) == join_upto(parts, sep, n),
    decreases n,
{
    if n > 0 {
        lemma_join_prefix(parts, sep, last, (n - 1) as nat);
        assert(parts.push(last)[n - 1] == parts[n - 1]);
        assert(parts.push(last)[0] == parts[0]);
    }
}

/// The text holds the character nowhere.
pub open spec fn free_of(s: Seq<char>, c: char) -> bool {
    forall|i: int| 0 <= i < s.len() ==> (#[trigger] s[i]) != c
}

/// Splitting at a character gives what stands before it, and then the parts of what stands
/// behind it.
pub proof fn splitting_parts_at_the_character(head: Seq<char>, tail: Seq<char>, c: char)
    requires
        free_of(head, c),
    ensures
        split_from(head, c, 0) == seq![head],
        split_from(head + seq![c] + tail, c, 0) == seq![head] + split_from(tail, c, 0),
{
    lemma_index_after(head, c, 0, head.len());
    assert(head.subrange(0, head.len() as int) =~= head);
    assert(split_from(head, c, head.len() + 1) =~= Seq::<Seq<char>>::empty());
    assert(split_from(head, c, 0) =~= seq![head]);
    let s = head + seq![c] + tail;
    let n = head.len() as nat;
    assert forall|i: int| 0 <= i < n implies (#[trigger] s[i]) != c by {
        assert(s[i] == head[i]);
    }
    lemma_index_after(s, c, 0, n);
    assert(s[n as int] == c);
    assert(s.subrange(0, n as int) =~= head);
    lemma_split_shift(s, tail, c, n + 1, 0);
}

proof fn lemma_index_after(s: Seq<char>, c: char, from: nat, end: nat)
    requires
        from <= end <= s.len(),
        forall|i: int| from <= i < end ==> (#[trigger] s[i]) != c,
        end == s.len() || s[end as int] == c,
    ensures
        index_from(s, c, from) == end,
    decreases end - from,
{
    if from < end {
        lemma_index_after(s, c, from + 1, end);
    }
}

proof fn lemma_split_shift(s: Seq<char>, tail: Seq<char>, c: char, shift: nat, i: nat)
    requires
        s.len() == shift + tail.len(),
        forall|k: int| 0 <= k < tail.len() ==> (#[trigger] tail[k]) == s[shift + k],
        i <= tail.len() + 1,
    ensures
        split_from(s, c, shift + i) == split_from(tail, c, i),
    decreases tail.len() + 1 - i,
{
    if i <= tail.len() {
        lemma_index_shift(s, tail, c, shift, i);
        let end = index_from(tail, c, i);
        lemma_index_from(tail, c, i);
        assert(s.subrange((shift + i) as int, (shift + end) as int) =~= tail.subrange(i as int, end as int));
        lemma_split_shift(s, tail, c, shift, end + 1);
    }
}

proof fn lemma_index_shift(s: Seq<char>, tail: Seq<char>, c: char, shift: nat, i: nat)
    requires
        s.len() == shift + tail.len(),
        forall|k: int| 0 <= k < tail.len() ==> (#[trigger] tail[k]) == s[shift + k],
        i <= tail.len(),
    ensures
        index_from(s, c, shift + i) == shift + index_from(tail, c, i),
    decreases tail.len() - i,
{
    if i < tail.len() && tail[i as int] != c {
        lemma_index_shift(s, tail, c, shift, i + 1);
    }
}

/// The entry stands in a list with commas exactly where one of its parts is that entry with
/// blanks around it at most.
pub proof fn lists_hold_their_entries(list: Seq<char>, entry: Seq<char>)
    ensures
        comma_list(list).contains(entry) <==> exists|i: int|
            0 <= i < split_from(list, ',', 0).len() && non_blank(
                Some(#[trigger] split_from(list, ',', 0)[i]),
            ) == Some(entry),
{
    let parts = split_from(list, ',', 0);
    lemma_kept_parts(parts, parts.len(), entry);
}

/// Replacing leaves a text alone in which nothing is to be replaced.
pub proof fn replacing_needs_something(s: Seq<char>, from: Seq<char>, to: Seq<char>)
    requires
        !contains_text(s, from),
    ensures
        replaced(s, from, to) == s,
{
    lemma_replace_nothing(s, 0, from, to);
    assert(s.skip(0) =~= s);
}

proof fn lemma_replace_nothing(s: Seq<char>, i: nat, from: Seq<char>, to: Seq<char>)
    requires
        !contains_text(s, from),
        i <= s.len(),
    ensures
        replace_from(s, i, from, to) == s.skip(i as int),
    decreases s.len() - i,
{
    if i < s.len() {
        assert(!matches_at(s, i as int, from));
        lemma_replace_nothing(s, i + 1, from, to);
        assert(seq![s[i as int]] + s.skip((i + 1) as int) =~= s.skip(i as int));
    } else {
        assert(s.skip(i as int) =~= Seq::<char>::empty());
    }
}

/// Replacing puts the new text in the place of the old one, and goes on behind it.
pub proof fn replacing_replaces(
    s: Seq<char>,
    from: Seq<char>,
    to: Seq<char>,
    after: Seq<char>,
)
    requires
        from.len() > 0,
        s == from + after,
    ensures
        replaced(s, from, to) == to + replaced(after, from, to),
{
    assert(s.subrange(0, from.len() as int) =~= from);
    lemma_replace_shift(s, after, from.len(), 0, from, to);
}

proof fn lemma_replace_shift(
    s: Seq<char>,
    tail: Seq<char>,
    shift: nat,
    i: nat,
    from: Seq<char>,
    to: Seq<char>,
)
    requires
        s.len() == shift + tail.len(),
        forall|k: int| 0 <= k < tail.len() ==> (#[trigger] tail[k]) == s[shift + k],
    ensures
        replace_from(s, shift + i, from, to) == replace_from(tail, i, from, to),
    decreases tail.len() - i,
{
    if i < tail.len() {
        if i + from.len() <= tail.len() {
            assert(s.subrange((shift + i) as int, (shift + i + from.len()) as int) =~= tail.subrange(
                i as int,
                (i + from.len()) as int,
            ));
        }
        assert(matches_at(s, (shift + i) as int, from) == matches_at(tail, i as int, from));
        if from.len() > 0 && matches_at(tail, i as int, from) {
            lemma_replace_shift(s, tail, shift, i + from.len(), from, to);
        } else {
            lemma_replace_shift(s, tail, shift, i + 1, from, to);
        }
    }
}

/// The value of digits is that of the number they write; a text with anything else is none.
pub proof fn numbers_are_read(n: u64, s: Seq<char>, i: int)
    ensures
        parsed_unsigned(decimal(n as nat), u64::MAX as nat) == Some(n as nat),
        parsed_unsigned(seq!['+'] + decimal(n as nat), u64::MAX as nat) == Some(n as nat),
        n <= i64::MAX ==> parsed_i64(decimal(n as nat)) == Some(n as int),
        n <= i64::MAX ==> parsed_i64(seq!['-'] + decimal(n as nat)) == Some(-(n as int)),
        0 < i < s.len() && !is_digit(s[i]) ==> parsed_unsigned(s, u64::MAX as nat) is None,
        s.len() == 0 ==> parsed_unsigned(s, u64::MAX as nat) is None,
{
    lemma_decimal_digits(n as nat);
    let d = decimal(n as nat);
    assert(is_digit(d[0]));
    let plus = seq!['+'] + d;
    assert(plus.subrange(1, plus.len() as int) =~= d);
    let minus = seq!['-'] + d;
    assert(minus.subrange(1, minus.len() as int) =~= d);
    if 0 < i < s.len() && !is_digit(s[i]) {
        let rest = s.subrange(1, s.len() as int);
        assert(rest[i - 1] == s[i]);
    }
}

/// A failure is told with what stands behind it.
pub proof fn failures_tell_their_cause(context: Seq<char>, e: BridgeErrorV)
    ensures
        full_text(in_context(context, e)) == context + ": "@ + full_text(e),
        full_text(failure(context)) == context,
{
}

/// The words of a text are what stands between its blanks: one more word behind a blank is one
/// more word, and further blanks are none.
pub proof fn words_stand_between_blanks(text: Seq<char>, blank: char, word: Seq<char>)
    requires
        is_space(blank),
        word.len() > 0,
        forall|i: int| 0 <= i < word.len() ==> !is_space(#[trigger] word[i]),
    ensures
        words(word) == seq![word],
        words(text.push(blank)) == words(text),
        words(text.push(blank) + word) == words(text).push(word),
        words(Seq::empty()) == Seq::<Seq<char>>::empty(),
{
    let t = text.push(blank);
    lemma_scan_prefix(text, t, text.len());
    assert(t[t.len() - 1] == blank);
    let whole = t + word;
    lemma_scan_prefix(t, whole, t.len());
    assert(word_scan(t, t.len()).1.len() == 0);
    lemma_scan_word(whole, t.len(), word, word.len());
    assert(word.take(word.len() as int) =~= word);
    assert(word_scan(word, 0).1.len() == 0);
    lemma_scan_word(word, 0, word, word.len());
    assert(words(word) =~= seq![word]);
}

proof fn lemma_scan_prefix(s: Seq<char>, t: Seq<char>, n: nat)
    requires
        n <= s.len() <= t.len(),
        forall|i: int| 0 <= i < s.len() ==> (#[trigger] s[i]) == t[i],
    ensures
        word_scan(t, n) == word_scan(s, n),
    decreases n,
{
    if n > 0 {
        assert(s[n - 1] == t[n - 1]);
        lemma_scan_prefix(s, t, (n - 1) as nat);
    }
}

proof fn lemma_scan_word(s: Seq<char>, at: nat, word: Seq<char>, n: nat)
    requires
        at + word.len() == s.len(),
        forall|i: int| 0 <= i < word.len() ==> (#[trigger] word[i]) == s[at + i] && !is_space(word[i]),
        word_scan(s, at).1.len() == 0,
        n <= word.len(),
    ensures
        word_scan(s, at + n) == (word_scan(s, at).0, word.take(n as int)),
    decreases n,
{
    if n > 0 {
        lemma_scan_word(s, at, word, (n - 1) as nat);
        assert(word[n - 1] == s[at + n - 1]);
        assert(word.take(n - 1).push(word[n - 1]) =~= word.take(n as int));
    } else {
        assert(word_scan(s, at).1 =~= word.take(0));
    }
}

/// Texts are ordered by their first difference, and a beginning goes before the whole.
pub proof fn texts_are_ordered_by_their_first_difference(
    common: Seq<char>,
    a: Seq<char>,
    b: Seq<char>,
)
    ensures
        a.len() > 0 && b.len() > 0 && a[0] < b[0] ==> text_before(common + a, common + b)
            && !text_before(common + b, common + a),
        b.len() > 0 ==> text_before(common, common + b) && !text_before(common + b, common),
        !text_before(common, common),
{
    let none = Seq::<char>::empty();
    assert(common + none =~= common);
    lemma_before_skips(common, a, b, 0);
    lemma_before_skips(common, b, a, 0);
    lemma_before_skips(common, none, b, 0);
    lemma_before_skips(common, b, none, 0);
    lemma_before_skips(common, none, none, 0);
}

proof fn lemma_before_skips(common: Seq<char>, a: Seq<char>, b: Seq<char>, i: nat)
    requires
        i <= common.len(),
    ensures
        before_from(common + a, common + b, i) == before_from(common + a, common + b, common.len()),
        a.len() > 0 && b.len() > 0 && a[0] != b[0] ==> before_from(
            common + a,
            common + b,
            common.len(),
        ) == (a[0] < b[0]),
        b.len() == 0 ==> !before_from(common + a, common + b, common.len()),
        a.len() == 0 && b.len() > 0 ==> before_from(common + a, common + b, common.len()),
    decreases common.len() - i,
{
    let x = common + a;
    let y = common + b;
    if i < common.len() {
        assert(x[i as int] == common[i as int] && y[i as int] == common[i as int]);
        lemma_before_skips(common, a, b, i + 1);
    } else {
        if a.len() > 0 {
            assert(x[common.len() as int] == a[0]);
        }
        if b.len() > 0 {
            assert(y[common.len() as int] == b[0]);
        }
    }
}

/// A text is written in JSON between quotes, character by character; quotes, backslashes and
/// line ends are escaped, and printable characters stand for themselves.
pub proof fn texts_are_quoted_in_json(text: Seq<char>, c: char, inner: Seq<char>)
    requires
        json_string(text) == seq!['"'] + inner + seq!['"'],
    ensures
        json_string(Seq::empty()) == seq!['"', '"'],
        json_string(text.push(c)) == seq!['"'] + (inner + json_char(c)) + seq!['"'],
        json_char('"') == seq!['\\', '"'],
        json_char('\\') == seq!['\\', '\\'],
        json_char('\n') == seq!['\\', 'n'],
        json_char('\t') == seq!['\\', 't'],
        json_char('\r') == seq!['\\', 'r'],
        c as u32 >= 0x20 && c != '"' && c != '\\' ==> json_char(c) == seq![c],
{
    let whole = text.push(c);
    lemma_json_prefix(text, c, text.len());
    assert(whole[whole.len() - 1] == c);
    let a = seq!['"'] + json_chars(text, text.len()) + seq!['"'];
    let b = seq!['"'] + inner + seq!['"'];
    assert(a == b);
    assert(a.subrange(1, a.len() - 1) =~= json_chars(text, text.len()));
    assert(b.subrange(1, b.len() - 1) =~= inner);
    assert(json_string(Seq::empty()) =~= seq!['"', '"']);
}

proof fn lemma_json_prefix(text: Seq<char>, c: char, n: nat)
    requires
        n <= text.len(),
    ensures
        json_chars(text.push(c), n) == json_chars(text, n),
    decreases n,
{
    if n > 0 {
        assert(text.push(c)[n - 1] == text[n - 1]);
        lemma_json_prefix(text, c, (n - 1) as nat);
    }
}

/// Numbers are written digit by digit, and negative ones with their sign.
pub proof fn numbers_are_written(n: nat, i: int)
    ensures
        n < 10 ==> decimal(n) == seq![(48 + n) as char],
        n >= 10 ==> decimal(n) == decimal(n / 10).push((48 + n % 10) as char),
        i > 0 ==> signed_decimal(-i) == seq!['-'] + decimal(i as nat),
        i >= 0 ==> signed_decimal(i) == decimal(i as nat),
{
    if n < 10 {
        assert(decimal(n) =~= seq![(48 + n) as char]);
    } else {
        assert(decimal(n) =~= decimal(n / 10).push((48 + n % 10) as char));
    }
}

} // verus!
