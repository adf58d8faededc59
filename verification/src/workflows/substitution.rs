//! Putting the quoted values into a command template.
//!
//! The template is read once from left to right. Where the placeholder of a
//! value stands, the quoted value is written; every other character is
//! copied. What was written is never read again, so that a value cannot bring
//! in a placeholder.

use vstd::prelude::*;
use crate::text::{chars_of, occurs_at, occurs_at_index, pairs, push_chars, string_of};
use crate::workflows::escape::{
    Quoting, escape_for, escaped, lemma_posix_quoting_is_safe, posix_quoted, word_read,
};
use crate::workflows::placeholders::placeholder_text;
use crate::workflows::validation::placeholder_chars;
use crate::workflows::Shell;

verus! {

/// A part of a resolved command.
pub enum Part {
    /// The character at this position of the template.
    Text(int),
    /// The quoted value at this position among the values.
    Value(int),
}

/// The position of the first value from `k` on whose placeholder stands in
/// `command` at `i`, or the number of values where there is none.
pub open spec fn value_at(
    command: Seq<char>,
    values: Seq<(Seq<char>, Seq<char>)>,
    i: int,
    k: int,
) -> int
    decreases values.len() - k,
{
    if k < 0 || k >= values.len() {
        values.len() as int
    } else if occurs_at(command, placeholder_text(values[k].0), i) {
        k
    } else {
        value_at(command, values, i, k + 1)
    }
}

/// The parts that `command` from position `i` on is read as: where the
/// placeholder of a value stands, that value, and the reading goes on behind
/// the placeholder; else the character, and the reading goes on behind it.
/// Of several values whose placeholders stand at one position the first
/// counts.
pub open spec fn parts_from(
    command: Seq<char>,
    values: Seq<(Seq<char>, Seq<char>)>,
    i: int,
) -> Seq<Part>
    decreases command.len() - i,
{
    if i < 0 || i >= command.len() {
        Seq::empty()
    } else {
        let k = value_at(command, values, i, 0);
        if 0 <= k < values.len() && i + values[k].0.len() + 4 <= command.len() {
            seq![Part::Value(k)] + parts_from(command, values, i + values[k].0.len() + 4)
        } else {
            seq![Part::Text(i)] + parts_from(command, values, i + 1)
        }
    }
}

/// What a part is written as: a character as itself, a value quoted for the
/// shell.
pub open spec fn part_text(
    part: Part,
    command: Seq<char>,
    values: Seq<(Seq<char>, Seq<char>)>,
    shell: Shell,
) -> Seq<char> {
    match part {
        Part::Text(i) => seq![command[i]],
        Part::Value(k) => escaped(values[k].1, shell),
    }
}

/// What a part stands for in the template: a character for itself, a value
/// for its placeholder.
pub open spec fn part_source(
    part: Part,
    command: Seq<char>,
    values: Seq<(Seq<char>, Seq<char>)>,
) -> Seq<char> {
    match part {
        Part::Text(i) => seq![command[i]],
        Part::Value(k) => placeholder_text(values[k].0),
    }
}

/// The parts as they are written, one after the other.
pub open spec fn rendered(
    parts: Seq<Part>,
    command: Seq<char>,
    values: Seq<(Seq<char>, Seq<char>)>,
    shell: Shell,
) -> Seq<char>
    decreases parts.len(),
{
    if parts.len() == 0 {
        Seq::empty()
    } else {
        part_text(parts[0], command, values, shell) + rendered(
            parts.drop_first(),
            command,
            values,
            shell,
        )
    }
}

/// What the parts stand for in the template, one after the other.
pub open spec fn spelled(
    parts: Seq<Part>,
    command: Seq<char>,
    values: Seq<(Seq<char>, Seq<char>)>,
) -> Seq<char>
    decreases parts.len(),
{
    if parts.len() == 0 {
        Seq::empty()
    } else {
        part_source(parts[0], command, values) + spelled(parts.drop_first(), command, values)
    }
}

/// The command with the quoted value of an argument wherever the placeholder
/// of the argument stands in the template, and all other text as it is.
pub open spec fn substituted(
    command: Seq<char>,
    values: Seq<(Seq<char>, Seq<char>)>,
    shell: Shell,
) -> Seq<char> {
    rendered(parts_from(command, values, 0), command, values, shell)
}

/// What holds of the first value whose placeholder stands at a position.
pub proof fn lemma_value_at(
    command: Seq<char>,
    values: Seq<(Seq<char>, Seq<char>)>,
    i: int,
    k: int,
)
    requires
        0 <= k <= values.len(),
    ensures
        k <= value_at(command, values, i, k) <= values.len(),
        value_at(command, values, i, k) < values.len() ==> occurs_at(
            command,
            placeholder_text(values[value_at(command, values, i, k)].0),
            i,
        ),
        forall|j: int|
            k <= j < value_at(command, values, i, k) ==> !occurs_at(
                command,
                placeholder_text(#[trigger] values[j].0),
                i,
            ),
    decreases values.len() - k,
{
    if k < values.len() && !occurs_at(command, placeholder_text(values[k].0), i) {
        lemma_value_at(command, values, i, k + 1);
    }
}

/// The parts written behind one another are the first `n` written, then the
/// rest written.
pub proof fn lemma_rendered_splits(
    parts: Seq<Part>,
    command: Seq<char>,
    values: Seq<(Seq<char>, Seq<char>)>,
    shell: Shell,
    n: int,
)
    requires
        0 <= n <= parts.len(),
    ensures
        rendered(parts, command, values, shell) == rendered(
            parts.take(n),
            command,
            values,
            shell,
        ) + rendered(parts.skip(n), command, values, shell),
    decreases n,
{
    let whole = rendered(parts, command, values, shell);
    if n == 0 {
        assert(parts.take(0) =~= Seq::<Part>::empty());
        assert(parts.skip(0) =~= parts);
        assert(Seq::<char>::empty() + whole =~= whole);
    } else {
        let rest = parts.drop_first();
        lemma_rendered_splits(rest, command, values, shell, n - 1);
        assert(parts.take(n).drop_first() =~= rest.take(n - 1));
        assert(parts.take(n)[0] == parts[0]);
        assert(parts.skip(n) =~= rest.skip(n - 1));
        let head = part_text(parts[0], command, values, shell);
        let front = rendered(rest.take(n - 1), command, values, shell);
        let back = rendered(rest.skip(n - 1), command, values, shell);
        assert(head + (front + back) =~= (head + front) + back);
    }
}

/// Every value among the parts of a command is one of the values, and the
/// parts spell the template: with each value part taken for the placeholder
/// of its value, the parts read behind one another are the template again.
pub proof fn lemma_parts_spell_the_template(
    command: Seq<char>,
    values: Seq<(Seq<char>, Seq<char>)>,
    i: int,
)
    requires
        0 <= i <= command.len(),
    ensures
        spelled(parts_from(command, values, i), command, values) == command.subrange(
            i,
            command.len() as int,
        ),
        forall|n: int|
            0 <= n < parts_from(command, values, i).len() ==> (#[trigger] parts_from(
                command,
                values,
                i,
            )[n] matches Part::Value(k) ==> 0 <= k < values.len()),
    decreases command.len() - i,
{
    let parts = parts_from(command, values, i);
    if i >= command.len() {
        assert(command.subrange(i, command.len() as int) =~= Seq::<char>::empty());
    } else {
        let k = value_at(command, values, i, 0);
        lemma_value_at(command, values, i, 0);
        if k < values.len() {
            let text = placeholder_text(values[k].0);
            let next = i + values[k].0.len() + 4;
            assert(text.len() == values[k].0.len() + 4);
            assert(next <= command.len());
            lemma_parts_spell_the_template(command, values, next);
            let rest = parts_from(command, values, next);
            assert(parts == seq![Part::Value(k)] + rest);
            assert(parts.drop_first() =~= rest);
            assert(parts[0] == Part::Value(k));
            assert(command.subrange(i, next) == text);
            assert(text + command.subrange(next, command.len() as int) =~= command.subrange(
                i,
                command.len() as int,
            ));
            assert forall|n: int| 0 <= n < parts.len() implies (#[trigger] parts[n]
                matches Part::Value(j) ==> 0 <= j < values.len()) by {
                if n > 0 {
                    assert(parts[n] == rest[n - 1]);
                }
            }
        } else {
            lemma_parts_spell_the_template(command, values, i + 1);
            let rest = parts_from(command, values, i + 1);
            assert(parts == seq![Part::Text(i)] + rest);
            assert(parts.drop_first() =~= rest);
            assert(parts[0] == Part::Text(i));
            assert(seq![command[i]] + command.subrange(i + 1, command.len() as int)
                =~= command.subrange(i, command.len() as int));
            assert forall|n: int| 0 <= n < parts.len() implies (#[trigger] parts[n]
                matches Part::Value(j) ==> 0 <= j < values.len()) by {
                if n > 0 {
                    assert(parts[n] == rest[n - 1]);
                }
            }
        }
    }
}

/// In the command that is resolved for `bash` or `zsh`, every value reads
/// back as one word that is the value itself, whatever the template and
/// whatever the values hold: where the part at `n` is a value, the resolved
/// command holds, behind what the parts before it were written as, the
/// quoted value and nothing else of it, and the shell reads that stretch as
/// one word, the value.
pub proof fn lemma_each_value_reads_back(
    command: Seq<char>,
    values: Seq<(Seq<char>, Seq<char>)>,
    shell: Shell,
    n: int,
)
    requires
        shell == Shell::Bash || shell == Shell::Zsh,
        0 <= n < parts_from(command, values, 0).len(),
        parts_from(command, values, 0)[n] is Value,
    ensures
        ({
            let parts = parts_from(command, values, 0);
            let k = parts[n]->Value_0;
            let start = rendered(parts.take(n), command, values, shell).len() as int;
            let end = start + posix_quoted(values[k].1).len();
            &&& 0 <= k < values.len()
            &&& end <= substituted(command, values, shell).len()
            &&& substituted(command, values, shell).subrange(start, end) == posix_quoted(
                values[k].1,
            )
            &&& word_read(
                substituted(command, values, shell).subrange(start, end),
                0,
                Quoting::Bare,
            ) == Some(values[k].1)
        }),
{
    let parts = parts_from(command, values, 0);
    let k = parts[n]->Value_0;
    lemma_parts_spell_the_template(command, values, 0);
    assert(0 <= k < values.len());
    let before = rendered(parts.take(n), command, values, shell);
    let behind = parts.skip(n);
    lemma_rendered_splits(parts, command, values, shell, n);
    assert(behind[0] == parts[n]);
    let quoted = posix_quoted(values[k].1);
    assert(part_text(parts[n], command, values, shell) == quoted);
    let rest = rendered(behind.drop_first(), command, values, shell);
    assert(rendered(behind, command, values, shell) == quoted + rest);
    let all = substituted(command, values, shell);
    assert(all == before + (quoted + rest));
    assert(all.subrange(before.len() as int, before.len() + quoted.len() as int) =~= quoted);
    lemma_posix_quoting_is_safe(values[k].1);
}

/// Where the command is one placeholder and nothing else, `bash` and `zsh`
/// read the whole resolved command as one word, the value of the argument.
pub proof fn lemma_substituted_value_reads_back(name: Seq<char>, value: Seq<char>, shell: Shell)
    requires
        shell == Shell::Bash || shell == Shell::Zsh,
    ensures
        word_read(
            substituted(placeholder_text(name), seq![(name, value)], shell),
            0,
            Quoting::Bare,
        ) == Some(value),
{
    let command = placeholder_text(name);
    let values = seq![(name, value)];
    assert(command.subrange(0, command.len() as int) =~= command);
    assert(occurs_at(command, command, 0));
    assert(value_at(command, values, 0, 0) == 0);
    assert(parts_from(command, values, command.len() as int) =~= Seq::<Part>::empty());
    let parts = parts_from(command, values, 0);
    assert(parts =~= seq![Part::Value(0)]);
    assert(parts.drop_first() =~= Seq::<Part>::empty());
    assert(parts[0] == Part::Value(0));
    assert(values[0].1 == value);
    assert(rendered(parts.drop_first(), command, values, shell) =~= Seq::<char>::empty());
    assert(part_text(parts[0], command, values, shell) == escaped(value, shell));
    assert(rendered(parts, command, values, shell) =~= escaped(value, shell));
    lemma_posix_quoting_is_safe(value);
}

/// The position of the first value whose placeholder stands in `command` at
/// `i`, or the number of values where there is none.
pub fn value_position(command: &Vec<char>, values: &Vec<(String, String)>, i: usize) -> (k: usize)
    ensures
        k == value_at(command@, pairs(values@), i as int, 0),
        k <= values.len(),
        k < values.len() ==> i + values@[k as int].0@.len() + 4 <= command.len(),
{
    let mut k: usize = 0;
    while k < values.len()
        invariant
            k <= values.len(),
            value_at(command@, pairs(values@), i as int, k as int) == value_at(
                command@,
                pairs(values@),
                i as int,
                0,
            ),
        decreases values.len() - k,
    {
        let placeholder = placeholder_chars(values[k].0.as_str());
        assert(pairs(values@)[k as int].0 == values@[k as int].0@);
        if occurs_at_index(command, &placeholder, i) {
            assert(placeholder@.len() == values@[k as int].0@.len() + 4);
            return k;
        }
        k += 1;
    }
    k
}

/// The command with the value of an argument, quoted for `shell`, wherever
/// the placeholder of the argument stands in the template.
pub fn substitute(command: &str, values: &Vec<(String, String)>, shell: Shell) -> (out: String)
    ensures
        out@ == substituted(command@, pairs(values@), shell),
{
    let template = chars_of(command);
    let ghost list = pairs(values@);
    let mut out: Vec<char> = Vec::new();
    let mut i: usize = 0;
    while i < template.len()
        invariant
            i <= template.len(),
            template@ == command@,
            list == pairs(values@),
            out@ + rendered(parts_from(template@, list, i as int), template@, list, shell)
                == substituted(
                command@,
                list,
                shell,
            ),
        decreases template.len() - i,
    {
        let ghost before = out@;
        let ghost parts = parts_from(template@, list, i as int);
        let k = value_position(&template, values, i);
        if k < values.len() {
            let quoted = escape_for(shell, values[k].1.as_str());
            push_chars(&mut out, &chars_of(quoted.as_str()));
            let ghost next = i + values@[k as int].0@.len() + 4;
            assert(list[k as int] == (values@[k as int].0@, values@[k as int].1@));
            assert(parts.drop_first() =~= parts_from(template@, list, next));
            assert(parts[0] == Part::Value(k as int));
            assert(out@ + rendered(parts_from(template@, list, next), template@, list, shell)
                =~= before + rendered(parts, template@, list, shell));
            let placeholder = placeholder_chars(values[k].0.as_str());
            assert(placeholder@.len() == values@[k as int].0@.len() + 4);
            i = i + placeholder.len();
        } else {
            out.push(template[i]);
            assert(parts.drop_first() =~= parts_from(template@, list, i + 1));
            assert(parts[0] == Part::Text(i as int));
            assert(out@ + rendered(parts_from(template@, list, i + 1), template@, list, shell)
                =~= before + rendered(parts, template@, list, shell));
            i += 1;
        }
    }
    assert(out@ + Seq::<char>::empty() =~= out@);
    string_of(&out)
}

} // verus!
