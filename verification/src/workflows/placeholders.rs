//! Placeholders of the form `{{name}}` in a command template.

use vstd::prelude::*;
use crate::text::string_of;

verus! {

/// Two opening braces stand at position `i`.
pub open spec fn opening_at(s: Seq<char>, i: int) -> bool {
    0 <= i && i + 1 < s.len() && s[i] == '{' && s[i + 1] == '{'
}

/// Two closing braces stand at position `j`.
pub open spec fn closing_at(s: Seq<char>, j: int) -> bool {
    0 <= j && j + 1 < s.len() && s[j] == '}' && s[j + 1] == '}'
}

/// The first position at or after `i` where two closing braces stand, or
/// `s.len()` where there is none.
pub open spec fn next_closing(s: Seq<char>, i: int) -> int
    decreases s.len() - i,
{
    if i < 0 || i + 1 >= s.len() {
        s.len() as int
    } else if closing_at(s, i) {
        i
    } else {
        next_closing(s, i + 1)
    }
}

/// The placeholder names found in `s` from position `i` on.
///
/// The scan goes from left to right. A placeholder opens at two opening
/// braces and ends at the next two closing braces; the text between them is
/// its name. An empty name is passed over. After an opening that is never
/// closed nothing more is found.
pub open spec fn placeholders_from(s: Seq<char>, i: int) -> Seq<Seq<char>>
    decreases s.len() - i,
{
    if i < 0 || i >= s.len() {
        Seq::empty()
    } else if opening_at(s, i) {
        let j = next_closing(s, i + 2);
        if j + 2 > s.len() || j < i + 2 {
            Seq::empty()
        } else if j == i + 2 {
            placeholders_from(s, j + 2)
        } else {
            seq![s.subrange(i + 2, j)] + placeholders_from(s, j + 2)
        }
    } else {
        placeholders_from(s, i + 1)
    }
}

/// The placeholder names of a command template, one for each occurrence, in
/// the order in which they stand.
pub open spec fn placeholders(s: Seq<char>) -> Seq<Seq<char>> {
    placeholders_from(s, 0)
}

/// The text `{{name}}`.
pub open spec fn placeholder_text(name: Seq<char>) -> Seq<char> {
    seq!['{', '{'] + name + seq!['}', '}']
}

/// `next_closing` stays within `i ..= s.len()` and names a closing where it
/// names a position at all.
pub proof fn lemma_next_closing(s: Seq<char>, i: int)
    requires
        0 <= i <= s.len(),
    ensures
        i <= next_closing(s, i) <= s.len(),
        next_closing(s, i) < s.len() ==> closing_at(s, next_closing(s, i)),
        forall|k: int| i <= k < next_closing(s, i) ==> !closing_at(s, k),
    decreases s.len() - i,
{
    if i + 1 >= s.len() {
    } else if closing_at(s, i) {
    } else {
        lemma_next_closing(s, i + 1);
    }
}

/// The position of the next two closing braces at or after `i`.
fn find_closing(s: &Vec<char>, i: usize) -> (j: usize)
    requires
        i <= s.len(),
    ensures
        j == next_closing(s@, i as int),
        i <= j <= s.len(),
        j < s.len() ==> j + 2 <= s.len(),
{
    let mut j: usize = i;
    while j < s.len() && j + 1 < s.len()
        invariant
            i <= j <= s.len(),
            next_closing(s@, j as int) == next_closing(s@, i as int),
        decreases s.len() - j,
    {
        if s[j] == '}' && s[j + 1] == '}' {
            return j;
        }
        j += 1;
    }
    s.len()
}

/// The characters `s[from..to]` as a string.
fn slice_string(s: &Vec<char>, from: usize, to: usize) -> (out: String)
    requires
        from <= to <= s.len(),
    ensures
        out@ == s@.subrange(from as int, to as int),
{
    let mut part: Vec<char> = Vec::new();
    let mut k: usize = from;
    while k < to
        invariant
            from <= k <= to <= s.len(),
            part@ =~= s@.subrange(from as int, k as int),
        decreases to - k,
    {
        part.push(s[k]);
        k += 1;
    }
    string_of(&part)
}

/// The placeholder names of a command template.
pub fn extract_placeholder_names(command: &Vec<char>) -> (names: Vec<String>)
    ensures
        crate::text::texts(names@) == placeholders(command@),
{
    let mut names: Vec<String> = Vec::new();
    let mut i: usize = 0;
    while i < command.len()
        invariant
            i <= command.len(),
            crate::text::texts(names@) + placeholders_from(command@, i as int) == placeholders(
                command@,
            ),
        decreases command.len() - i,
    {
        let ghost before = crate::text::texts(names@);
        if command[i] == '{' && i + 1 < command.len() && command[i + 1] == '{' {
            let j = find_closing(command, i + 2);
            if j >= command.len() {
                assert(before + Seq::<Seq<char>>::empty() =~= before);
                i = command.len();
            } else if j == i + 2 {
                i = j + 2;
            } else {
                let name = slice_string(command, i + 2, j);
                names.push(name);
                assert(crate::text::texts(names@) =~= before.push(name@));
                assert(before.push(name@) + placeholders_from(command@, j + 2) =~= before
                    + placeholders_from(command@, i as int));
                i = j + 2;
            }
        } else {
            i += 1;
        }
    }
    assert(crate::text::texts(names@) + Seq::<Seq<char>>::empty() =~= crate::text::texts(names@));
    names
}

} // verus!
