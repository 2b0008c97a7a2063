//! Text handling over sequences of characters: trimming, splitting, searching,
//! replacing and decimal numbers, each with an exact statement of its result.
use vstd::prelude::*;
use vstd::string::*;

verus! {

/// `String::push` appends one character at the end of the string.
pub assume_specification[ String::push ](s: &mut String, c: char)
    ensures
        final(s)@ == old(s)@.push(c),
;

/// The characters with the Unicode property `White_Space`.
pub open spec fn is_space(c: char) -> bool {
    ||| '\u{9}' <= c <= '\u{d}'
    ||| c == ' '
    ||| c == '\u{85}'
    ||| c == '\u{a0}'
    ||| c == '\u{1680}'
    ||| '\u{2000}' <= c <= '\u{200a}'
    ||| c == '\u{2028}'
    ||| c == '\u{2029}'
    ||| c == '\u{202f}'
    ||| c == '\u{205f}'
    ||| c == '\u{3000}'
}

/// Tells whether a character is white space.
pub fn is_whitespace(c: char) -> (r: bool)
    ensures
        r == is_space(c),
{
    ('\u{9}' <= c && c <= '\u{d}') || c == ' ' || c == '\u{85}' || c == '\u{a0}' || c == '\u{1680}'
        || ('\u{2000}' <= c && c <= '\u{200a}') || c == '\u{2028}' || c == '\u{2029}' || c
        == '\u{202f}' || c == '\u{205f}' || c == '\u{3000}'
}

/// The characters of a string, in order.
pub fn chars_of(s: &str) -> (v: Vec<char>)
    ensures
        v@ == s@,
{
    let mut v: Vec<char> = Vec::new();
    for c in it: s.chars()
        invariant
            v@ == s@.take(it.index()),
            it.seq() == s@,
    {
        v.push(c);
        assert(s@.take(it.index() + 1) =~= s@.take(it.index()).push(c));
    }
    assert(s@.take(s@.len() as int) =~= s@);
    v
}

/// The string made of `v[from..to]`.
pub fn text_of(v: &Vec<char>, from: usize, to: usize) -> (s: String)
    requires
        from <= to <= v@.len(),
    ensures
        s@ == v@.subrange(from as int, to as int),
{
    let mut s = String::new();
    let mut i: usize = from;
    assert(s@ =~= v@.subrange(from as int, from as int));
    while i < to
        invariant
            from <= i <= to <= v@.len(),
            s@ == v@.subrange(from as int, i as int),
        decreases to - i,
    {
        s.push(v[i]);
        assert(v@.subrange(from as int, i + 1) =~= v@.subrange(from as int, i as int).push(
            v@[i as int],
        ));
        i += 1;
    }
    s
}

/// Two strings hold the same characters.
pub fn same(a: &str, b: &str) -> (r: bool)
    ensures
        r == (a@ == b@),
{
    a.to_owned() == b.to_owned()
}

/// Concatenation of two strings.
pub fn cat(a: &str, b: &str) -> (r: String)
    ensures
        r@ == a@ + b@,
{
    let mut s: String = a.to_owned();
    s.append(b);
    s
}

/// Concatenation of three strings.
pub fn cat3(a: &str, b: &str, c: &str) -> (r: String)
    ensures
        r@ == a@ + b@ + c@,
{
    let mut s: String = a.to_owned();
    s.append(b);
    s.append(c);
    s
}

/// A copy of an optional string.
pub fn copy_opt(t: &Option<String>) -> (r: Option<String>)
    ensures
        r.deep_view() == t.deep_view(),
{
    match t {
        Some(s) => Some(s.clone()),
        None => None,
    }
}

/// An owned copy of an optional borrowed string.
pub fn own_opt(t: Option<&str>) -> (r: Option<String>)
    ensures
        r.deep_view() == t.deep_view(),
{
    match t {
        Some(s) => Some(s.to_owned()),
        None => None,
    }
}

/// A borrowed form of an optional string.
pub fn borrow_opt(t: &Option<String>) -> (r: Option<&str>)
    ensures
        r.deep_view() == t.deep_view(),
{
    match t {
        Some(s) => Some(s.as_str()),
        None => None,
    }
}

/// A copy of a list of strings.
pub fn copy_texts(items: &Vec<String>) -> (r: Vec<String>)
    ensures
        r.deep_view() == items.deep_view(),
{
    let mut out: Vec<String> = Vec::new();
    let mut i: usize = 0;
    while i < items.len()
        invariant
            i <= items@.len(),
            out@.len() == i,
            forall|k: int| 0 <= k < i ==> (#[trigger] out@[k])@ == items@[k]@,
        decreases items@.len() - i,
    {
        out.push(items[i].clone());
        i += 1;
    }
    assert(out.deep_view() =~= items.deep_view());
    out
}

/// Tells whether a text that may be missing is there and is `expected`.
pub fn opt_is(t: &Option<String>, expected: &str) -> (r: bool)
    ensures
        r == (t.deep_view() == Some(expected@)),
{
    match t {
        Some(s) => same(s.as_str(), expected),
        None => false,
    }
}

/// Tells whether a borrowed text that may be missing is there and is `expected`.
pub fn str_is(t: Option<&str>, expected: &str) -> (r: bool)
    ensures
        r == (t.deep_view() == Some(expected@)),
{
    match t {
        Some(s) => same(s, expected),
        None => false,
    }
}

// ---------------------------------------------------------------------------
// Trimming
// ---------------------------------------------------------------------------

/// `s` without its leading white space.
pub open spec fn trim_start(s: Seq<char>) -> Seq<char>
    decreases s.len(),
{
    if s.len() > 0 && is_space(s[0]) {
        trim_start(s.subrange(1, s.len() as int))
    } else {
        s
    }
}

/// `s` without its trailing white space.
pub open spec fn trim_end(s: Seq<char>) -> Seq<char>
    decreases s.len(),
{
    if s.len() > 0 && is_space(s.last()) {
        trim_end(s.drop_last())
    } else {
        s
    }
}

/// `s` without leading and trailing white space.
pub open spec fn trimmed(s: Seq<char>) -> Seq<char> {
    trim_end(trim_start(s))
}

/// The index of the first character at or after `0` that is not white space.
pub fn first_non_space(v: &Vec<char>) -> (lo: usize)
    ensures
        lo <= v@.len(),
        v@.subrange(lo as int, v@.len() as int) == trim_start(v@),
{
    let mut lo: usize = 0;
    assert(v@.subrange(0, v@.len() as int) =~= v@);
    while lo < v.len() && is_whitespace(v[lo])
        invariant
            lo <= v@.len(),
            trim_start(v@.subrange(lo as int, v@.len() as int)) == trim_start(v@),
        decreases v@.len() - lo,
    {
        let ghost rest = v@.subrange(lo as int, v@.len() as int);
        assert(rest.subrange(1, rest.len() as int) =~= v@.subrange(lo + 1, v@.len() as int));
        lo += 1;
    }
    lo
}

/// The end of `v[lo..hi]` once its trailing white space is dropped.
pub fn last_non_space(v: &Vec<char>, lo: usize, hi: usize) -> (end: usize)
    requires
        lo <= hi <= v@.len(),
    ensures
        lo <= end <= hi,
        v@.subrange(lo as int, end as int) == trim_end(v@.subrange(lo as int, hi as int)),
{
    let mut end: usize = hi;
    while lo < end && is_whitespace(v[end - 1])
        invariant
            lo <= end <= hi <= v@.len(),
            trim_end(v@.subrange(lo as int, end as int)) == trim_end(
                v@.subrange(lo as int, hi as int),
            ),
        decreases end,
    {
        let ghost part = v@.subrange(lo as int, end as int);
        assert(part.drop_last() =~= v@.subrange(lo as int, end - 1));
        end -= 1;
    }
    end
}

/// The string without leading and trailing white space.
pub fn trim(s: &str) -> (r: String)
    ensures
        r@ == trimmed(s@),
{
    let v = chars_of(s);
    let lo: usize = first_non_space(&v);
    let hi: usize = last_non_space(&v, lo, v.len());
    text_of(&v, lo, hi)
}

/// The trimmed text when it is there and not blank.
pub open spec fn non_blank(s: Option<Seq<char>>) -> Option<Seq<char>> {
    match s {
        Some(t) => if trimmed(t).len() > 0 {
            Some(trimmed(t))
        } else {
            None
        },
        None => None,
    }
}

/// The trimmed text when it is there and not blank.
pub fn trimmed_non_blank(s: Option<&str>) -> (r: Option<String>)
    ensures
        r.deep_view() == non_blank(s.deep_view()),
{
    match s {
        Some(t) => {
            let u = trim(t);
            if u.as_str().is_empty() {
                assert(u@.len() == 0);
                None
            } else {
                Some(u)
            }
        },
        None => None,
    }
}

// ---------------------------------------------------------------------------
// Words and joining
// ---------------------------------------------------------------------------

/// Reading `s` up to `n`: the words that are complete, and the word still open.
pub open spec fn word_scan(s: Seq<char>, n: nat) -> (Seq<Seq<char>>, Seq<char>)
    decreases n,
{
    if n == 0 || n > s.len() {
        (Seq::empty(), Seq::empty())
    } else {
        let (done, open) = word_scan(s, (n - 1) as nat);
        if !is_space(s[n - 1]) {
            (done, open.push(s[n - 1]))
        } else if open.len() == 0 {
            (done, open)
        } else {
            (done.push(open), Seq::empty())
        }
    }
}

/// The maximal runs of characters of `s` that are not white space, in order.
pub open spec fn words(s: Seq<char>) -> Seq<Seq<char>> {
    let (done, open) = word_scan(s, s.len());
    if open.len() == 0 {
        done
    } else {
        done.push(open)
    }
}

/// The words of a string, split at white space.
pub fn split_words(s: &str) -> (r: Vec<String>)
    ensures
        r.deep_view() == words(s@),
{
    let v = chars_of(s);
    let mut done: Vec<String> = Vec::new();
    let mut open = String::new();
    let mut i: usize = 0;
    assert(done.deep_view() =~= Seq::<Seq<char>>::empty());
    while i < v.len()
        invariant
            i <= v@.len(),
            v@ == s@,
            (done.deep_view(), open@) == word_scan(s@, i as nat),
        decreases v@.len() - i,
    {
        let c = v[i];
        if !is_whitespace(c) {
            open.push(c);
        } else if !open.as_str().is_empty() {
            let ghost before = done.deep_view();
            let ghost word = open@;
            done.push(open);
            assert(done.deep_view() =~= before.push(word));
            open = String::new();
        } else {
            assert(open@ =~= Seq::<char>::empty());
        }
        i += 1;
    }
    if !open.as_str().is_empty() {
        let ghost before = done.deep_view();
        let ghost word = open@;
        done.push(open);
        assert(done.deep_view() =~= before.push(word));
    }
    done
}

/// The first `n` parts of `parts` with `sep` between neighbours.
pub open spec fn join_upto(parts: Seq<Seq<char>>, sep: Seq<char>, n: nat) -> Seq<char>
    decreases n,
{
    if n == 0 || n > parts.len() {
        Seq::empty()
    } else if n == 1 {
        parts[0]
    } else {
        join_upto(parts, sep, (n - 1) as nat) + sep + parts[n - 1]
    }
}

/// All parts with `sep` between neighbours.
pub open spec fn joined(parts: Seq<Seq<char>>, sep: Seq<char>) -> Seq<char> {
    join_upto(parts, sep, parts.len())
}

/// Joins the parts with `sep` between neighbours.
pub fn join(parts: &Vec<String>, sep: &str) -> (r: String)
    ensures
        r@ == joined(parts.deep_view(), sep@),
{
    let mut out = String::new();
    let mut i: usize = 0;
    assert(out@ =~= Seq::<char>::empty());
    while i < parts.len()
        invariant
            i <= parts@.len(),
            out@ == join_upto(parts.deep_view(), sep@, i as nat),
            i == 0 ==> out@ == Seq::<char>::empty(),
        decreases parts@.len() - i,
    {
        if i > 0 {
            out.append(sep);
        }
        out.append(parts[i].as_str());
        assert(parts.deep_view()[i as int] == parts@[i as int]@);
        if i == 0 {
            assert(out@ =~= parts.deep_view()[0]);
        }
        i += 1;
    }
    out
}

// ---------------------------------------------------------------------------
// Searching and replacing
// ---------------------------------------------------------------------------

/// `pat` stands in `s` at index `i`.
pub open spec fn matches_at(s: Seq<char>, i: int, pat: Seq<char>) -> bool {
    0 <= i && i + pat.len() <= s.len() && s.subrange(i, i + pat.len()) == pat
}

/// `pat` stands somewhere in `s`.
pub open spec fn contains_text(s: Seq<char>, pat: Seq<char>) -> bool {
    exists|i: int| matches_at(s, i, pat)
}

/// Tells whether `pat` stands in `v` at index `i`.
pub fn match_at(v: &Vec<char>, i: usize, pat: &Vec<char>) -> (r: bool)
    requires
        i <= v@.len(),
    ensures
        r == matches_at(v@, i as int, pat@),
{
    let n: usize = v.len();
    if pat.len() > n - i {
        return false;
    }
    let mut k: usize = 0;
    while k < pat.len()
        invariant
            k <= pat@.len(),
            i + pat@.len() <= v@.len(),
            n == v@.len(),
            forall|j: int| 0 <= j < k ==> v@[i + j] == #[trigger] pat@[j],
        decreases pat@.len() - k,
    {
        if v[i + k] != pat[k] {
            assert(v@.subrange(i as int, i + pat@.len())[k as int] != pat@[k as int]);
            return false;
        }
        k += 1;
    }
    assert(v@.subrange(i as int, i + pat@.len()) =~= pat@);
    true
}

/// Tells whether `pat` stands somewhere in `s`.
pub fn contains(s: &str, pat: &str) -> (r: bool)
    ensures
        r == contains_text(s@, pat@),
{
    let v = chars_of(s);
    let p = chars_of(pat);
    let mut i: usize = 0;
    loop
        invariant
            i <= v@.len(),
            v@ == s@,
            p@ == pat@,
            forall|j: int| 0 <= j < i ==> !matches_at(s@, j, pat@),
        decreases v@.len() - i,
    {
        if match_at(&v, i, &p) {
            return true;
        }
        if i == v.len() {
            return false;
        }
        i += 1;
    }
}

/// `s` begins with `pat`.
pub open spec fn begins_with(s: Seq<char>, pat: Seq<char>) -> bool {
    matches_at(s, 0, pat)
}

/// Tells whether `s` begins with `pat`.
pub fn starts_with(s: &str, pat: &str) -> (r: bool)
    ensures
        r == begins_with(s@, pat@),
{
    let v = chars_of(s);
    let p = chars_of(pat);
    match_at(&v, 0, &p)
}

/// `s` from index `i` on, with every occurrence of `from` that is met going
/// left to right replaced by `to`.
pub open spec fn replace_from(s: Seq<char>, i: nat, from: Seq<char>, to: Seq<char>) -> Seq<char>
    decreases s.len() - i,
{
    if i >= s.len() {
        Seq::empty()
    } else if from.len() > 0 && matches_at(s, i as int, from) {
        to + replace_from(s, i + from.len(), from, to)
    } else {
        seq![s[i as int]] + replace_from(s, i + 1, from, to)
    }
}

/// `s` with `from` replaced by `to`, left to right.
pub open spec fn replaced(s: Seq<char>, from: Seq<char>, to: Seq<char>) -> Seq<char> {
    replace_from(s, 0, from, to)
}

/// Replaces every occurrence of `from`, left to right.
pub fn replace(s: &str, from: &str, to: &str) -> (r: String)
    requires
        from@.len() > 0,
    ensures
        r@ == replaced(s@, from@, to@),
{
    let v = chars_of(s);
    let p = chars_of(from);
    let mut out = String::new();
    let mut i: usize = 0;
    assert(out@ + replaced(s@, from@, to@) =~= replaced(s@, from@, to@));
    while i < v.len()
        invariant
            i <= v@.len(),
            v@ == s@,
            p@ == from@,
            from@.len() > 0,
            out@ + replace_from(s@, i as nat, from@, to@) == replaced(s@, from@, to@),
        decreases v@.len() - i,
    {
        let ghost before = out@;
        if match_at(&v, i, &p) {
            out.append(to);
            assert(before + (to@ + replace_from(s@, (i + from@.len()) as nat, from@, to@)) =~= out@
                + replace_from(s@, (i + from@.len()) as nat, from@, to@));
            i += p.len();
        } else {
            out.push(v[i]);
            assert(before + (seq![s@[i as int]] + replace_from(s@, (i + 1) as nat, from@, to@))
                =~= out@ + replace_from(s@, (i + 1) as nat, from@, to@));
            i += 1;
        }
    }
    assert(out@ + Seq::<char>::empty() =~= out@);
    out
}

/// The index of the first occurrence of `c` in `s` at or after `i`, or the length.
pub open spec fn index_from(s: Seq<char>, c: char, i: nat) -> nat
    decreases s.len() - i,
{
    if i >= s.len() || s[i as int] == c {
        i
    } else {
        index_from(s, c, i + 1)
    }
}

/// The parts of `s` from `i` on between occurrences of `c`; a text without `c` is one part.
pub open spec fn split_from(s: Seq<char>, c: char, i: nat) -> Seq<Seq<char>>
    decreases s.len() + 1 - i,
{
    if i > s.len() {
        Seq::empty()
    } else {
        let end = index_from(s, c, i);
        if i <= end <= s.len() {
            seq![s.subrange(i as int, end as int)] + split_from(s, c, end + 1)
        } else {
            Seq::empty()
        }
    }
}

/// `index_from` stays between its start and the length.
pub proof fn lemma_index_from(s: Seq<char>, c: char, i: nat)
    requires
        i <= s.len(),
    ensures
        i <= index_from(s, c, i) <= s.len(),
        index_from(s, c, i) < s.len() ==> s[index_from(s, c, i) as int] == c,
        forall|k: int| i <= k < index_from(s, c, i) ==> s[k] != c,
    decreases s.len() - i,
{
    if i < s.len() && s[i as int] != c {
        lemma_index_from(s, c, i + 1);
    }
}

/// Splits at every occurrence of one character.
pub fn split_char(s: &str, c: char) -> (r: Vec<String>)
    ensures
        r.deep_view() == split_from(s@, c, 0),
{
    let v = chars_of(s);
    let mut out: Vec<String> = Vec::new();
    let mut start: usize = 0;
    assert(out.deep_view() + split_from(s@, c, 0) =~= split_from(s@, c, 0));
    loop
        invariant
            start <= v@.len(),
            v@ == s@,
            out.deep_view() + split_from(s@, c, start as nat) == split_from(s@, c, 0),
        decreases v@.len() - start,
    {
        let mut end: usize = start;
        while end < v.len() && v[end] != c
            invariant
                start <= end <= v@.len(),
                v@ == s@,
                index_from(s@, c, start as nat) == index_from(s@, c, end as nat),
            decreases v@.len() - end,
        {
            end += 1;
        }
        let ghost before = out.deep_view();
        let part = text_of(&v, start, end);
        let ghost piece = part@;
        out.push(part);
        assert(out.deep_view() =~= before.push(piece));
        assert(before + (seq![piece] + split_from(s@, c, (end + 1) as nat)) =~= out.deep_view()
            + split_from(s@, c, (end + 1) as nat));
        if end == v.len() {
            assert(split_from(s@, c, (end + 1) as nat) =~= Seq::<Seq<char>>::empty());
            assert(out.deep_view() + Seq::<Seq<char>>::empty() =~= out.deep_view());
            return out;
        }
        start = end + 1;
    }
}

/// The index of the first occurrence of `pat` in `s` at or after `i`, or the length.
pub open spec fn match_from(s: Seq<char>, pat: Seq<char>, i: nat) -> nat
    decreases s.len() - i,
{
    if i >= s.len() {
        s.len()
    } else if matches_at(s, i as int, pat) {
        i
    } else {
        match_from(s, pat, i + 1)
    }
}

/// The parts of `s` from `i` on between occurrences of `pat`; a text without it is one part.
pub open spec fn split_text_from(s: Seq<char>, pat: Seq<char>, i: nat) -> Seq<Seq<char>>
    decreases s.len() + 1 - i,
{
    if i > s.len() || pat.len() == 0 {
        Seq::empty()
    } else {
        let end = match_from(s, pat, i);
        if end < i || end > s.len() {
            Seq::empty()
        } else if !matches_at(s, end as int, pat) {
            seq![s.subrange(i as int, end as int)]
        } else {
            seq![s.subrange(i as int, end as int)] + split_text_from(s, pat, end + pat.len())
        }
    }
}

/// Splits at every occurrence of a text, left to right.
pub fn split_text(s: &str, pat: &str) -> (r: Vec<String>)
    requires
        pat@.len() > 0,
    ensures
        r.deep_view() == split_text_from(s@, pat@, 0),
{
    let v = chars_of(s);
    let p = chars_of(pat);
    let mut out: Vec<String> = Vec::new();
    let mut start: usize = 0;
    assert(out.deep_view() + split_text_from(s@, pat@, 0) =~= split_text_from(s@, pat@, 0));
    loop
        invariant
            start <= v@.len(),
            v@ == s@,
            p@ == pat@,
            pat@.len() > 0,
            out.deep_view() + split_text_from(s@, pat@, start as nat) == split_text_from(
                s@,
                pat@,
                0,
            ),
        decreases v@.len() - start,
    {
        let mut end: usize = start;
        while end < v.len() && !match_at(&v, end, &p)
            invariant
                start <= end <= v@.len(),
                v@ == s@,
                p@ == pat@,
                match_from(s@, pat@, start as nat) == match_from(s@, pat@, end as nat),
            decreases v@.len() - end,
        {
            end += 1;
        }
        let ghost before = out.deep_view();
        let part = text_of(&v, start, end);
        let ghost piece = part@;
        out.push(part);
        assert(out.deep_view() =~= before.push(piece));
        if end == v.len() {
            assert(before + seq![piece] =~= out.deep_view());
            return out;
        }
        assert(before + (seq![piece] + split_text_from(s@, pat@, (end + pat@.len()) as nat))
            =~= out.deep_view() + split_text_from(s@, pat@, (end + pat@.len()) as nat));
        start = end + p.len();
    }
}

// ---------------------------------------------------------------------------
// Case
// ---------------------------------------------------------------------------

/// An ASCII capital letter as its small letter; any other character as it is.
pub open spec fn ascii_lower(c: char) -> char {
    if 'A' <= c <= 'Z' {
        ((c as u8) + 32) as char
    } else {
        c
    }
}

/// ASCII capital letters turned into small letters, one for one.
pub open spec fn ascii_lowered(s: Seq<char>) -> Seq<char> {
    s.map_values(|c: char| ascii_lower(c))
}

/// The small letter of an ASCII capital letter.
pub fn ascii_lower_char(c: char) -> (r: char)
    ensures
        r == ascii_lower(c),
{
    if 'A' <= c && c <= 'Z' {
        let b: u8 = c as u8;
        (b + 32) as char
    } else {
        c
    }
}

/// ASCII capital letters turned into small letters.
pub fn to_ascii_lowercase(s: &str) -> (r: String)
    ensures
        r@ == ascii_lowered(s@),
{
    let v = chars_of(s);
    let mut out = String::new();
    let mut i: usize = 0;
    assert(out@ =~= ascii_lowered(v@.take(0)));
    while i < v.len()
        invariant
            i <= v@.len(),
            out@ == ascii_lowered(v@.take(i as int)),
        decreases v@.len() - i,
    {
        out.push(ascii_lower_char(v[i]));
        assert(out@ =~= ascii_lowered(v@.take(i + 1)));
        i += 1;
    }
    assert(v@.take(v@.len() as int) =~= v@);
    out
}

/// The lowercase form of a text under Unicode's rules.
pub uninterp spec fn unicode_lowercase(s: Seq<char>) -> Seq<char>;

/// `str::to_lowercase`: the lowercase form of the text, a function of the text alone.
#[verifier::external_body]
pub(crate) fn to_lowercase(s: &str) -> (r: String)
    ensures
        r@ == unicode_lowercase(s@),
{
    s.to_lowercase()
}

// ---------------------------------------------------------------------------
// Decimal numbers
// ---------------------------------------------------------------------------

/// An ASCII decimal digit.
pub open spec fn is_digit(c: char) -> bool {
    '0' <= c <= '9'
}

/// The digit character of a number below ten.
pub open spec fn digit_char(d: nat) -> char {
    (48 + d) as char
}

/// The decimal form of a number, without leading zeros.
pub open spec fn decimal(n: nat) -> Seq<char>
    decreases n,
{
    if n < 10 {
        seq![digit_char(n)]
    } else {
        decimal(n / 10).push(digit_char(n % 10))
    }
}

/// The decimal form of an integer, with a minus sign where it is negative.
pub open spec fn signed_decimal(n: int) -> Seq<char> {
    if n < 0 {
        seq!['-'] + decimal((-n) as nat)
    } else {
        decimal(n as nat)
    }
}

/// The decimal form of a number.
pub fn u64_text(n: u64) -> (r: String)
    ensures
        r@ == decimal(n as nat),
    decreases n,
{
    let d: u8 = (n % 10) as u8;
    let c: char = (48 + d) as char;
    if n < 10 {
        let mut s = String::new();
        s.push(c);
        assert(s@ =~= seq![digit_char(n as nat)]);
        s
    } else {
        let mut s = u64_text(n / 10);
        s.push(c);
        s
    }
}

/// The decimal form of a signed number.
pub fn i64_text(n: i64) -> (r: String)
    ensures
        r@ == signed_decimal(n as int),
{
    if n >= 0 {
        u64_text(n as u64)
    } else {
        let m: u64 = (-(n as i128)) as u64;
        let mut s = String::new();
        s.push('-');
        s.append(u64_text(m).as_str());
        assert(s@ =~= signed_decimal(n as int));
        s
    }
}

/// The value of the first `n` digits of `s`.
pub open spec fn digits_value(s: Seq<char>, n: nat) -> nat
    decreases n,
{
    if n == 0 || n > s.len() {
        0
    } else {
        digits_value(s, (n - 1) as nat) * 10 + (s[n - 1] as nat - 48) as nat
    }
}

/// One digit at least, and digits only.
pub open spec fn is_digits(s: Seq<char>) -> bool {
    s.len() > 0 && forall|i: int| 0 <= i < s.len() ==> is_digit(#[trigger] s[i])
}

/// The number that a text of digits stands for, when it is at most `max`.
pub open spec fn bounded_digits(s: Seq<char>, max: nat) -> Option<nat> {
    if is_digits(s) && digits_value(s, s.len()) <= max {
        Some(digits_value(s, s.len()))
    } else {
        None
    }
}

/// The unsigned number that a text stands for: an optional plus sign, then digits.
pub open spec fn parsed_unsigned(s: Seq<char>, max: nat) -> Option<nat> {
    if s.len() > 0 && s[0] == '+' {
        bounded_digits(s.subrange(1, s.len() as int), max)
    } else {
        bounded_digits(s, max)
    }
}

/// The signed number that a text stands for: an optional sign, then digits.
pub open spec fn parsed_i64(s: Seq<char>) -> Option<int> {
    if s.len() > 0 && s[0] == '-' {
        match bounded_digits(s.subrange(1, s.len() as int), 0x8000_0000_0000_0000) {
            Some(m) => Some(-(m as int)),
            None => None,
        }
    } else {
        match parsed_unsigned(s, i64::MAX as nat) {
            Some(m) => Some(m as int),
            None => None,
        }
    }
}

/// Values of growing prefixes of digits do not shrink.
proof fn lemma_digits_grow(s: Seq<char>, n: nat, m: nat)
    requires
        n <= m <= s.len(),
        is_digits(s),
    ensures
        digits_value(s, n) <= digits_value(s, m),
    decreases m,
{
    if n < m {
        lemma_digits_grow(s, n, (m - 1) as nat);
        assert(is_digit(s[m - 1]));
    }
}

/// The value of `v[from..]` when it is made of digits and at most `max`.
fn parse_digits(v: &Vec<char>, from: usize, max: u64) -> (r: Option<u64>)
    requires
        from <= v@.len(),
    ensures
        match bounded_digits(v@.subrange(from as int, v@.len() as int), max as nat) {
            Some(n) => r == Some(n as u64) && n <= max,
            None => r is None,
        },
{
    let ghost d = v@.subrange(from as int, v@.len() as int);
    if from == v.len() {
        return None;
    }
    let mut value: u64 = 0;
    let mut i: usize = from;
    while i < v.len()
        invariant
            from <= i <= v@.len(),
            d == v@.subrange(from as int, v@.len() as int),
            forall|k: int| 0 <= k < i - from ==> is_digit(#[trigger] d[k]),
            value == digits_value(d, (i - from) as nat),
            value <= max,
        decreases v@.len() - i,
    {
        let c = v[i];
        assert(d[i - from] == c);
        if !('0' <= c && c <= '9') {
            return None;
        }
        let digit: u64 = (c as u32 - 48) as u64;
        let next: u128 = value as u128 * 10 + digit as u128;
        assert(next == digits_value(d, (i - from + 1) as nat));
        if next > max as u128 {
            proof {
                if is_digits(d) {
                    lemma_digits_grow(d, (i - from + 1) as nat, d.len());
                }
            }
            return None;
        }
        value = next as u64;
        i += 1;
    }
    Some(value)
}

/// Reads an unsigned number that is at most `max`.
pub fn parse_unsigned(s: &str, max: u64) -> (r: Option<u64>)
    ensures
        match parsed_unsigned(s@, max as nat) {
            Some(n) => r == Some(n as u64) && n <= max,
            None => r is None,
        },
{
    let v = chars_of(s);
    assert(v@.subrange(0, v@.len() as int) =~= v@);
    if v.len() > 0 && v[0] == '+' {
        parse_digits(&v, 1, max)
    } else {
        parse_digits(&v, 0, max)
    }
}

/// Reads an unsigned 64-bit number.
pub fn parse_u64(s: &str) -> (r: Option<u64>)
    ensures
        match parsed_unsigned(s@, u64::MAX as nat) {
            Some(n) => r == Some(n as u64) && n <= u64::MAX,
            None => r is None,
        },
{
    parse_unsigned(s, u64::MAX)
}

/// Reads a signed 64-bit number.
pub fn parse_i64(s: &str) -> (r: Option<i64>)
    ensures
        match parsed_i64(s@) {
            Some(n) => r == Some(n as i64) && i64::MIN <= n <= i64::MAX,
            None => r is None,
        },
{
    let v = chars_of(s);
    if v.len() > 0 && v[0] == '-' {
        match parse_digits(&v, 1, 0x8000_0000_0000_0000) {
            Some(m) => Some((-(m as i128)) as i64),
            None => None,
        }
    } else {
        match parse_unsigned(s, i64::MAX as u64) {
            Some(m) => Some(m as i64),
            None => None,
        }
    }
}

/// The decimal form holds digits only, and its value is the number.
pub proof fn lemma_decimal_digits(n: nat)
    ensures
        is_digits(decimal(n)),
        digits_value(decimal(n), decimal(n).len()) == n,
    decreases n,
{
    let s = decimal(n);
    if n >= 10 {
        lemma_decimal_digits(n / 10);
        let p = decimal(n / 10);
        lemma_digits_prefix(p, s, p.len());
        assert(s[s.len() - 1] == digit_char(n % 10));
        assert forall|i: int| 0 <= i < s.len() implies is_digit(#[trigger] s[i]) by {
            if i < p.len() {
                assert(s[i] == p[i]);
            }
        }
    } else {
        assert(digits_value(s, 0) == 0);
        assert(s[0] == digit_char(n));
    }
}

/// The value of a prefix depends on that prefix alone.
proof fn lemma_digits_prefix(p: Seq<char>, s: Seq<char>, n: nat)
    requires
        n <= p.len() <= s.len(),
        forall|i: int| 0 <= i < p.len() ==> p[i] == s[i],
    ensures
        digits_value(p, n) == digits_value(s, n),
    decreases n,
{
    if n > 0 {
        lemma_digits_prefix(p, s, (n - 1) as nat);
    }
}

/// Reading back the decimal form of a number gives the number.
pub proof fn decimal_parses_back(n: u64)
    ensures
        parsed_unsigned(decimal(n as nat), u64::MAX as nat) == Some(n as nat),
{
    lemma_decimal_digits(n as nat);
    assert(is_digit(decimal(n as nat)[0]));
}

// ---------------------------------------------------------------------------
// Order
// ---------------------------------------------------------------------------

/// From index `i` on, `a` comes before `b` character by character.
pub open spec fn before_from(a: Seq<char>, b: Seq<char>, i: nat) -> bool
    decreases a.len() - i,
{
    if i >= b.len() {
        false
    } else if i >= a.len() {
        true
    } else if a[i as int] != b[i as int] {
        a[i as int] < b[i as int]
    } else {
        before_from(a, b, i + 1)
    }
}

/// `a` comes before `b` in the order of code points.
pub open spec fn text_before(a: Seq<char>, b: Seq<char>) -> bool {
    before_from(a, b, 0)
}

/// Tells whether `a` comes before `b` in the order of code points.
pub fn comes_before(a: &str, b: &str) -> (r: bool)
    ensures
        r == text_before(a@, b@),
{
    let v = chars_of(a);
    let w = chars_of(b);
    let mut i: usize = 0;
    while i < v.len() && i < w.len() && v[i] == w[i]
        invariant
            i <= v@.len(),
            i <= w@.len(),
            v@ == a@,
            w@ == b@,
            before_from(a@, b@, 0) == before_from(a@, b@, i as nat),
        decreases v@.len() - i,
    {
        i += 1;
    }
    if i >= w.len() {
        false
    } else if i >= v.len() {
        true
    } else {
        v[i] < w[i]
    }
}

} // verus!
