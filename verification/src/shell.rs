//! Texts for the shell and for the eye: quoting and redaction.
use vstd::prelude::*;
use vstd::string::*;

use crate::text::{cat, cat3, chars_of, contains_text, matches_at, replace, replace_from, replaced};

verus! {

/// The text with a secret replaced.
pub open spec fn redacted(text: Seq<char>, secret: Seq<char>) -> Seq<char> {
    if secret.len() == 0 {
        text
    } else {
        replaced(text, secret, "<redacted>"@)
    }
}

/// Replaces a secret in a text.
pub fn redact_secret_text(text: &str, secret: &str) -> (r: String)
    ensures
        r@ == redacted(text@, secret@),
{
    if secret.is_empty() {
        text.to_owned()
    } else {
        replace(text, secret, "<redacted>")
    }
}

/// A redacted text does not hold the secret, where the secret has no angle bracket and is no
/// part of the word that stands for it.
pub proof fn redacted_texts_hide_the_secret(text: Seq<char>, secret: Seq<char>)
    requires
        secret.len() > 0,
        !secret.contains('<'),
        !secret.contains('>'),
        !contains_text("redacted"@, secret),
    ensures
        !contains_text(redacted(text, secret), secret),
{
    assert forall|j: int| !matches_at(redacted(text, secret), j, secret) by {
        lemma_hidden_from(text, 0, secret, j);
    }
}

/// From no index on does a redacted text hold the secret.
proof fn lemma_hidden_from(text: Seq<char>, i: nat, secret: Seq<char>, j: int)
    requires
        i <= text.len(),
        secret.len() > 0,
        !secret.contains('<'),
        !secret.contains('>'),
        !contains_text("redacted"@, secret),
    ensures
        !matches_at(replace_from(text, i, secret, "<redacted>"@), j, secret),
    decreases text.len() - i,
{
    let mark = "<redacted>"@;
    let out = replace_from(text, i, secret, mark);
    let m = secret.len();
    if i < text.len() && matches_at(out, j, secret) {
        assert forall|k: int| 0 <= k < m implies out[j + k] == #[trigger] secret[k] by {
            assert(out.subrange(j, j + m)[k] == secret[k]);
        }
        if matches_at(text, i as int, secret) {
            let rest = replace_from(text, i + m, secret, mark);
            reveal_strlit("<redacted>");
            reveal_strlit("redacted");
            assert(mark.len() == 10 && mark[0] == '<' && mark[9] == '>');
            assert(mark.subrange(1, 9) =~= "redacted"@);
            if j >= 10 {
                lemma_hidden_from(text, i + m, secret, j - 10);
                assert(out.subrange(j, j + m) =~= rest.subrange(j - 10, j - 10 + m));
            } else if j == 0 {
                assert(secret[0] == '<');
            } else if j + m > 9 {
                assert(out[9] == '>');
                assert(secret[9 - j] == '>');
            } else {
                assert("redacted"@.subrange(j - 1, j - 1 + m) =~= out.subrange(j, j + m));
                assert(matches_at("redacted"@, j - 1, secret));
            }
        } else {
            let rest = replace_from(text, i + 1, secret, mark);
            if j >= 1 {
                lemma_hidden_from(text, i + 1, secret, j - 1);
                assert(out.subrange(j, j + m) =~= rest.subrange(j - 1, j - 1 + m));
            } else {
                assert forall|k: int| 0 <= k < m implies #[trigger] out[k] != '<' by {
                    assert(out[0 + k] == secret[k]);
                }
                lemma_unmarked_prefix(text, i, secret, m);
                assert(text.subrange(i as int, i as int + m) =~= secret) by {
                    assert forall|k: int| 0 <= k < m implies text[i + k] == #[trigger] secret[k] by {
                        assert(out[0 + k] == secret[k]);
                    }
                }
            }
        }
    }
}

/// As long as a redacted text shows no mark it is the text itself.
proof fn lemma_unmarked_prefix(text: Seq<char>, i: nat, secret: Seq<char>, m: nat)
    requires
        i <= text.len(),
        secret.len() > 0,
        m <= replace_from(text, i, secret, "<redacted>"@).len(),
        forall|k: int|
            0 <= k < m ==> #[trigger] replace_from(text, i, secret, "<redacted>"@)[k] != '<',
    ensures
        i + m <= text.len(),
        forall|k: int|
            0 <= k < m ==> #[trigger] replace_from(text, i, secret, "<redacted>"@)[k] == text[i
                + k],
    decreases m,
{
    let mark = "<redacted>"@;
    let out = replace_from(text, i, secret, mark);
    if m > 0 {
        if matches_at(text, i as int, secret) {
            reveal_strlit("<redacted>");
            assert(out[0] == '<');
        } else {
            let rest = replace_from(text, i + 1, secret, mark);
            assert(out =~= seq![text[i as int]] + rest);
            assert forall|k: int| 0 <= k < m - 1 implies #[trigger] rest[k] != '<' by {
                assert(out[k + 1] == rest[k]);
            }
            lemma_unmarked_prefix(text, i + 1, secret, (m - 1) as nat);
            assert forall|k: int| 0 <= k < m implies #[trigger] out[k] == text[i + k] by {
                if k > 0 {
                    assert(out[k] == rest[k - 1]);
                }
            }
        }
    }
}

/// A character that the shell takes as it is.
pub open spec fn shell_safe(c: char) -> bool {
    ||| 'a' <= c <= 'z'
    ||| 'A' <= c <= 'Z'
    ||| '0' <= c <= '9'
    ||| c == '/'
    ||| c == '.'
    ||| c == '_'
    ||| c == '-'
    ||| c == ','
    ||| c == ':'
    ||| c == '='
}

/// A text that the shell takes as one word as it is.
pub open spec fn shell_plain(s: Seq<char>) -> bool {
    s.len() > 0 && forall|i: int| 0 <= i < s.len() ==> shell_safe(#[trigger] s[i])
}

/// A text as one word of the shell: as it is, or between quotation marks.
pub open spec fn quoted(s: Seq<char>) -> Seq<char> {
    if shell_plain(s) {
        s
    } else {
        "'"@ + replaced(s, "'"@, "'\\''"@) + "'"@
    }
}

/// Tells whether the shell takes a character as it is.
fn is_shell_safe(c: char) -> (r: bool)
    ensures
        r == shell_safe(c),
{
    ('a' <= c && c <= 'z') || ('A' <= c && c <= 'Z') || ('0' <= c && c <= '9') || c == '/' || c
        == '.' || c == '_' || c == '-' || c == ',' || c == ':' || c == '='
}

/// Makes a text one word of the shell.
pub fn shell_quote(value: &str) -> (r: String)
    ensures
        r@ == quoted(value@),
{
    let v = chars_of(value);
    let mut i: usize = 0;
    while i < v.len() && is_shell_safe(v[i])
        invariant
            i <= v@.len(),
            v@ == value@,
            forall|k: int| 0 <= k < i ==> shell_safe(#[trigger] v@[k]),
        decreases v@.len() - i,
    {
        i += 1;
    }
    if v.len() > 0 && i == v.len() {
        return value.to_owned();
    }
    proof {
        reveal_strlit("'");
        assert(!shell_plain(value@)) by {
            if v@.len() > 0 {
                assert(!shell_safe(v@[i as int]));
            }
        }
    }
    let inner = replace(value, "'", "'\\''");
    cat3("'", inner.as_str(), "'")
}

/// What the shell makes of the rest of a word from `i` on, inside or outside of quotation
/// marks: inside every character stands for itself, and outside so do the safe ones and the
/// one after a backslash. Nothing where the word would end or mean something else.
pub open spec fn read_word(t: Seq<char>, i: nat, inside: bool) -> Option<Seq<char>>
    decreases t.len() - i,
{
    if i >= t.len() {
        if inside {
            None
        } else {
            Some(Seq::empty())
        }
    } else if t[i as int] == '\'' {
        read_word(t, i + 1, !inside)
    } else if inside || shell_safe(t[i as int]) {
        with_first(t[i as int], read_word(t, i + 1, inside))
    } else if t[i as int] == '\\' && i + 1 < t.len() {
        with_first(t[i as int + 1], read_word(t, i + 2, inside))
    } else {
        None
    }
}

/// A character before the rest of a word.
pub open spec fn with_first(c: char, rest: Option<Seq<char>>) -> Option<Seq<char>> {
    match rest {
        Some(s) => Some(seq![c] + s),
        None => None,
    }
}

/// The shell reads safe characters as they are.
proof fn lemma_plain_word(s: Seq<char>, i: nat)
    requires
        shell_plain(s),
        i <= s.len(),
    ensures
        read_word(s, i, false) == Some(s.skip(i as int)),
    decreases s.len() - i,
{
    if i < s.len() {
        lemma_plain_word(s, i + 1);
        assert(shell_safe(s[i as int]));
        assert(seq![s[i as int]] + s.skip(i as int + 1) =~= s.skip(i as int));
    } else {
        assert(s.skip(i as int) =~= Seq::<char>::empty());
    }
}

/// The shell reads the rest of a quoted word as it was.
proof fn lemma_quoted_word(s: Seq<char>, i: nat, before: Seq<char>)
    requires
        i <= s.len(),
    ensures
        read_word(
            before + replace_from(s, i, "'"@, "'\\''"@) + "'"@,
            before.len(),
            true,
        ) == Some(s.skip(i as int)),
    decreases s.len() - i,
{
    reveal_strlit("'");
    reveal_strlit("'\\''");
    let rest = replace_from(s, i, "'"@, "'\\''"@);
    let t = before + rest + "'"@;
    let n = before.len();
    if i < s.len() {
        let next = replace_from(s, i + 1, "'"@, "'\\''"@);
        let c = s[i as int];
        if c == '\'' {
            assert(matches_at(s, i as int, "'"@)) by {
                assert(s.subrange(i as int, i as int + 1) =~= "'"@);
            }
            assert(rest == "'\\''"@ + next);
            let longer = before + "'\\''"@;
            assert(t =~= longer + next + "'"@);
            lemma_quoted_word(s, i + 1, longer);
            assert(t[n as int] == '\'' && t[n as int + 1] == '\\' && t[n as int + 2] == '\''
                && t[n as int + 3] == '\'');
            assert(read_word(t, n, true) == read_word(t, n + 1, false));
            assert(read_word(t, n + 1, false) == with_first('\'', read_word(t, n + 3, false)));
            assert(read_word(t, n + 3, false) == read_word(t, n + 4, true));
        } else {
            assert(!matches_at(s, i as int, "'"@)) by {
                if matches_at(s, i as int, "'"@) {
                    assert(s.subrange(i as int, i as int + 1)[0] == "'"@[0]);
                }
            }
            assert(rest == seq![c] + next);
            let longer = before + seq![c];
            assert(t =~= longer + next + "'"@);
            lemma_quoted_word(s, i + 1, longer);
            assert(t[n as int] == c);
            assert(read_word(t, n, true) == with_first(c, read_word(t, n + 1, true)));
        }
        assert(seq![c] + s.skip(i as int + 1) =~= s.skip(i as int));
    } else {
        assert(rest =~= Seq::<char>::empty());
        assert(t[n as int] == '\'');
        assert(read_word(t, n, true) == read_word(t, n + 1, false));
        assert(s.skip(i as int) =~= Seq::<char>::empty());
    }
}

/// The shell reads a quoted text as one word, and as the text that it was.
pub proof fn quoting_is_undone_by_the_shell(s: Seq<char>)
    ensures
        read_word(quoted(s), 0, false) == Some(s),
{
    assert(s.skip(0) =~= s);
    if shell_plain(s) {
        lemma_plain_word(s, 0);
    } else {
        reveal_strlit("'");
        let t = quoted(s);
        lemma_quoted_word(s, 0, "'"@);
        assert(t[0] == '\'');
        assert(read_word(t, 0, false) == read_word(t, 1, true));
    }
}

/// The command that runs the daemon.
pub open spec fn daemon_command(bridge_command: Seq<char>) -> Seq<char> {
    quoted(bridge_command) + " daemon run"@
}

/// The command that runs the daemon.
pub fn daemon_run_command(bridge_command: &str) -> (r: String)
    ensures
        r@ == daemon_command(bridge_command@),
{
    cat(shell_quote(bridge_command).as_str(), " daemon run")
}

} // verus!
