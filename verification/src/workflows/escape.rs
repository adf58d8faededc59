//! Quoting a value so that a shell reads it back as one word.

use vstd::prelude::*;
use crate::text::{chars_of, string_of};
use crate::workflows::Shell;

verus! {

/// What one character of a value becomes inside single quotes in `bash` and
/// `zsh`: a single quote closes the quote, stands between double quotes, and
/// opens the quote again; every other character stands for itself.
pub open spec fn posix_piece(c: char) -> Seq<char> {
    if c == '\'' {
        seq!['\'', '"', '\'', '"', '\'']
    } else {
        seq![c]
    }
}

/// The pieces of the characters of `v` from position `i` on.
pub open spec fn posix_body(v: Seq<char>, i: int) -> Seq<char>
    decreases v.len() - i,
{
    if i < 0 || i >= v.len() {
        Seq::empty()
    } else {
        posix_piece(v[i]) + posix_body(v, i + 1)
    }
}

/// A value quoted for `bash` and `zsh`: between single quotes, with each
/// single quote inside replaced.
pub open spec fn posix_quoted(v: Seq<char>) -> Seq<char> {
    seq!['\''] + posix_body(v, 0) + seq!['\'']
}

/// What one character becomes inside single quotes in `fish`: a single quote
/// gets a backslash before it.
pub open spec fn fish_piece(c: char) -> Seq<char> {
    if c == '\'' {
        seq!['\\', '\'']
    } else {
        seq![c]
    }
}

/// The pieces of the characters of `v` from position `i` on.
pub open spec fn fish_body(v: Seq<char>, i: int) -> Seq<char>
    decreases v.len() - i,
{
    if i < 0 || i >= v.len() {
        Seq::empty()
    } else {
        fish_piece(v[i]) + fish_body(v, i + 1)
    }
}

/// The value holds a space, a tab or a line feed.
pub open spec fn has_blank(v: Seq<char>) -> bool {
    exists|i: int| 0 <= i < v.len() && (#[trigger] v[i] == ' ' || v[i] == '\t' || v[i] == '\n')
}

/// A value quoted for `fish`: between single quotes where it holds a blank,
/// and as it is where it holds none.
pub open spec fn fish_quoted(v: Seq<char>) -> Seq<char> {
    if has_blank(v) {
        seq!['\''] + fish_body(v, 0) + seq!['\'']
    } else {
        v
    }
}

/// A value as it is put into a command for `shell`.
pub open spec fn escaped(v: Seq<char>, shell: Shell) -> Seq<char> {
    match shell {
        Shell::Bash | Shell::Zsh => posix_quoted(v),
        Shell::Fish => fish_quoted(v),
    }
}

/// Where a reader of `bash` or `zsh` stands in a word.
pub enum Quoting {
    /// Outside of quotes.
    Bare,
    /// Between single quotes, where every character stands for itself.
    Single,
    /// Between double quotes.
    Double,
}

/// `c` in front of what the rest of a word reads as.
pub open spec fn with_first(c: char, rest: Option<Seq<char>>) -> Option<Seq<char>> {
    match rest {
        Some(r) => Some(seq![c] + r),
        None => None,
    }
}

/// What `bash` and `zsh` read `s` from position `i` on as, when `s` is a
/// single word made of quoted parts only, and `None` when it is not: when a
/// character stands outside of quotes, so that it could end the word or
/// begin something else, when a quote is left open, or when a backslash, a
/// dollar sign or a backquote stands between double quotes.
pub open spec fn word_read(s: Seq<char>, i: int, state: Quoting) -> Option<Seq<char>>
    decreases s.len() - i,
{
    if i < 0 {
        None
    } else if i >= s.len() {
        match state {
            Quoting::Bare => Some(Seq::empty()),
            _ => None,
        }
    } else {
        match state {
            Quoting::Bare => if s[i] == '\'' {
                word_read(s, i + 1, Quoting::Single)
            } else if s[i] == '"' {
                word_read(s, i + 1, Quoting::Double)
            } else {
                None
            },
            Quoting::Single => if s[i] == '\'' {
                word_read(s, i + 1, Quoting::Bare)
            } else {
                with_first(s[i], word_read(s, i + 1, Quoting::Single))
            },
            Quoting::Double => if s[i] == '"' {
                word_read(s, i + 1, Quoting::Bare)
            } else if s[i] == '\\' || s[i] == '$' || s[i] == '`' {
                None
            } else {
                with_first(s[i], word_read(s, i + 1, Quoting::Double))
            },
        }
    }
}

/// Between single quotes, the pieces of `v` from `k` on and the closing quote
/// read as `v` from `k` on.
proof fn lemma_body_reads_back(s: Seq<char>, i: int, v: Seq<char>, k: int)
    requires
        0 <= i <= s.len(),
        0 <= k <= v.len(),
        s.subrange(i, s.len() as int) == posix_body(v, k) + seq!['\''],
    ensures
        word_read(s, i, Quoting::Single) == Some(v.subrange(k, v.len() as int)),
    decreases v.len() - k,
{
    let rest = s.subrange(i, s.len() as int);
    if k == v.len() {
        assert(posix_body(v, k) =~= Seq::empty());
        assert(rest.len() == 1);
        assert(rest[0] == '\'');
        assert(s[i] == rest[0]);
        assert(v.subrange(k, v.len() as int) =~= Seq::empty());
        assert(word_read(s, i + 1, Quoting::Bare) == Some(Seq::<char>::empty()));
    } else {
        let piece = posix_piece(v[k]);
        let tail = posix_body(v, k + 1) + seq!['\''];
        assert(rest =~= piece + tail);
        assert(rest.len() == piece.len() + tail.len());
        assert forall|j: int| 0 <= j < piece.len() implies s[i + j] == #[trigger] piece[j] by {
            assert(rest[j] == s[i + j]);
        }
        assert forall|j: int| 0 <= j < tail.len() implies s.subrange(
            i + piece.len(),
            s.len() as int,
        )[j] == #[trigger] tail[j] by {
            assert(rest[piece.len() + j] == s[i + piece.len() + j]);
        }
        assert(s.subrange(i + piece.len(), s.len() as int) =~= tail);
        lemma_body_reads_back(s, i + piece.len(), v, k + 1);
        let after = v.subrange(k + 1, v.len() as int);
        assert(v.subrange(k, v.len() as int) =~= seq![v[k]] + after);
        if v[k] == '\'' {
            assert(piece.len() == 5);
            assert(piece[0] == '\'' && piece[1] == '"' && piece[2] == '\'' && piece[3] == '"'
                && piece[4] == '\'');
            assert(s[i] == '\'' && s[i + 1] == '"' && s[i + 2] == '\'' && s[i + 3] == '"' && s[i
                + 4] == '\'');
            assert(word_read(s, i + 4, Quoting::Bare) == word_read(s, i + 5, Quoting::Single));
            assert(word_read(s, i + 3, Quoting::Double) == word_read(s, i + 4, Quoting::Bare));
            assert(word_read(s, i + 2, Quoting::Double) == with_first(
                '\'',
                word_read(s, i + 3, Quoting::Double),
            ));
            assert(word_read(s, i + 1, Quoting::Bare) == word_read(s, i + 2, Quoting::Double));
            assert(word_read(s, i, Quoting::Single) == word_read(s, i + 1, Quoting::Bare));
        } else {
            assert(piece.len() == 1);
            assert(piece[0] == v[k]);
            assert(s[i] == v[k]);
        }
    }
}

/// Whatever a value holds, `bash` and `zsh` read its quoted form as one word
/// that is the value itself: every character of the quoted form stands
/// between quotes, so none of them can end the word, begin another, or be
/// taken for anything but itself.
pub proof fn lemma_posix_quoting_is_safe(v: Seq<char>)
    ensures
        word_read(posix_quoted(v), 0, Quoting::Bare) == Some(v),
        word_read(escaped(v, Shell::Bash), 0, Quoting::Bare) == Some(v),
        word_read(escaped(v, Shell::Zsh), 0, Quoting::Bare) == Some(v),
{
    let s = posix_quoted(v);
    assert(s[0] == '\'');
    assert(s.subrange(1, s.len() as int) =~= posix_body(v, 0) + seq!['\'']);
    lemma_body_reads_back(s, 1, v, 0);
    assert(v.subrange(0, v.len() as int) =~= v);
}

/// Appends the piece that `c` becomes for `bash` and `zsh`.
fn push_posix_piece(out: &mut Vec<char>, c: char)
    ensures
        final(out)@ == old(out)@ + posix_piece(c),
{
    if c == '\'' {
        out.push('\'');
        out.push('"');
        out.push('\'');
        out.push('"');
        out.push('\'');
    } else {
        out.push(c);
    }
    assert(out@ =~= old(out)@ + posix_piece(c));
}

/// A value quoted for `bash` and `zsh`.
pub fn quote_posix(value: &Vec<char>) -> (out: Vec<char>)
    ensures
        out@ == posix_quoted(value@),
{
    let mut out: Vec<char> = Vec::new();
    out.push('\'');
    let mut i: usize = 0;
    while i < value.len()
        invariant
            i <= value.len(),
            out@ + posix_body(value@, i as int) =~= seq!['\''] + posix_body(value@, 0),
        decreases value.len() - i,
    {
        push_posix_piece(&mut out, value[i]);
        i += 1;
    }
    out.push('\'');
    assert(out@ =~= posix_quoted(value@));
    out
}

/// Whether the value holds a space, a tab or a line feed.
pub fn contains_blank(value: &Vec<char>) -> (r: bool)
    ensures
        r == has_blank(value@),
{
    let mut i: usize = 0;
    while i < value.len()
        invariant
            i <= value.len(),
            forall|j: int|
                0 <= j < i ==> !(#[trigger] value@[j] == ' ' || value@[j] == '\t' || value@[j]
                    == '\n'),
        decreases value.len() - i,
    {
        if value[i] == ' ' || value[i] == '\t' || value[i] == '\n' {
            return true;
        }
        i += 1;
    }
    false
}

/// A value quoted for `fish`.
pub fn quote_fish(value: &Vec<char>) -> (out: Vec<char>)
    ensures
        out@ == fish_quoted(value@),
{
    let mut out: Vec<char> = Vec::new();
    let blank = contains_blank(value);
    if blank {
        out.push('\'');
    }
    let mut i: usize = 0;
    while i < value.len()
        invariant
            i <= value.len(),
            blank == has_blank(value@),
            blank ==> out@ + fish_body(value@, i as int) =~= seq!['\''] + fish_body(value@, 0),
            !blank ==> out@ =~= value@.take(i as int),
        decreases value.len() - i,
    {
        if blank && value[i] == '\'' {
            out.push('\\');
        }
        out.push(value[i]);
        i += 1;
    }
    if blank {
        out.push('\'');
    }
    assert(out@ =~= fish_quoted(value@));
    out
}

/// A value as it is put into a command for `shell`.
pub fn escape_for(shell: Shell, value: &str) -> (out: String)
    ensures
        out@ == escaped(value@, shell),
{
    let chars = chars_of(value);
    let quoted = match shell {
        Shell::Bash | Shell::Zsh => quote_posix(&chars),
        Shell::Fish => quote_fish(&chars),
    };
    string_of(&quoted)
}

} // verus!
