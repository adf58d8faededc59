//! Names of the files that definitions are kept in.

use vstd::prelude::*;
use crate::text::{chars_of, occurs_at, occurs_at_index, push_text, string_of};

verus! {

/// A character that a file name must not hold on some file system.
pub open spec fn is_reserved(c: char) -> bool {
    c == '/' || c == '\\' || c == ':' || c == '*' || c == '?' || c == '"' || c == '<' || c == '>'
        || c == '|'
}

/// `c`, or an underscore in the place of a reserved character.
pub open spec fn safe_char(c: char) -> char {
    if is_reserved(c) {
        '_'
    } else {
        c
    }
}

/// A name with an underscore in the place of each reserved character.
pub open spec fn sanitized(name: Seq<char>) -> Seq<char> {
    name.map_values(|c: char| safe_char(c))
}

/// The name of the file that holds the definition of the workflow `name`.
pub open spec fn definition_file(name: Seq<char>) -> Seq<char> {
    sanitized(name) + ".yaml"@
}

/// `name` ends in a point and `ending`, with something before the point.
pub open spec fn has_ending(name: Seq<char>, ending: Seq<char>) -> bool {
    name.len() > ending.len() + 1 && occurs_at(
        name,
        seq!['.'] + ending,
        name.len() - ending.len() - 1,
    )
}

/// The file may hold the definition of a workflow: its name ends in `.yml`
/// or `.yaml`.
pub open spec fn is_definition_name(name: Seq<char>) -> bool {
    has_ending(name, "yml"@) || has_ending(name, "yaml"@)
}

/// Whether `c` is a character that a file name must not hold.
pub fn reserved(c: char) -> (r: bool)
    ensures
        r == is_reserved(c),
{
    c == '/' || c == '\\' || c == ':' || c == '*' || c == '?' || c == '"' || c == '<' || c == '>'
        || c == '|'
}

/// The characters of a name with an underscore in the place of each reserved
/// character.
pub fn sanitize_chars(name: &str) -> (out: Vec<char>)
    ensures
        out@ == sanitized(name@),
{
    let chars = chars_of(name);
    let mut out: Vec<char> = Vec::new();
    let mut i: usize = 0;
    while i < chars.len()
        invariant
            i <= chars.len(),
            chars@ == name@,
            out.len() == i,
            forall|j: int| 0 <= j < i ==> out@[j] == safe_char(name@[j]),
        decreases chars.len() - i,
    {
        if reserved(chars[i]) {
            out.push('_');
        } else {
            out.push(chars[i]);
        }
        i += 1;
    }
    assert(out@ =~= sanitized(name@));
    out
}

/// A name with an underscore in the place of each of the characters
/// `/ \ : * ? " < > |`.
pub fn sanitize_filename(name: &str) -> (out: String)
    ensures
        out@ == sanitized(name@),
        out@.len() == name@.len(),
{
    string_of(&sanitize_chars(name))
}

/// The name of the file that holds the definition of the workflow `name`:
/// the sanitized name and `.yaml`.
pub fn definition_file_name(name: &str) -> (out: String)
    ensures
        out@ == definition_file(name@),
{
    let mut chars = sanitize_chars(name);
    push_text(&mut chars, ".yaml");
    string_of(&chars)
}

/// Whether `name` ends in a point and `ending`, with something before the
/// point.
fn ends_in(name: &Vec<char>, ending: &str) -> (r: bool)
    ensures
        r == has_ending(name@, ending@),
{
    let mut tail: Vec<char> = Vec::new();
    tail.push('.');
    push_text(&mut tail, ending);
    assert(tail@ =~= seq!['.'] + ending@);
    if name.len() <= tail.len() {
        return false;
    }
    occurs_at_index(name, &tail, name.len() - tail.len())
}

/// Whether a file of this name may hold the definition of a workflow.
pub fn is_definition_file(file_name: &str) -> (r: bool)
    ensures
        r == is_definition_name(file_name@),
{
    let name = chars_of(file_name);
    ends_in(&name, "yml") || ends_in(&name, "yaml")
}

} // verus!
