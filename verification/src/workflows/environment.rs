//! The variables of the environment that bear on a command.

use vstd::prelude::*;
use crate::outside::{groups_in_matches, opt_texts};
use crate::text::{lookup, texts};

verus! {

/// The variables that every dry run looks up.
pub open spec fn common_variables() -> Seq<Seq<char>> {
    seq![
        "PATH"@,
        "HOME"@,
        "USER"@,
        "PWD"@,
        "SHELL"@,
        "TERM"@,
        "LANG"@,
        "LC_ALL"@,
        "EDITOR"@,
        "PAGER"@,
    ]
}

/// `found` with the variable `name` and its value in the environment added,
/// unless the environment does not hold it or `found` holds it already.
pub open spec fn with_variable(
    env: Seq<(Seq<char>, Seq<char>)>,
    found: Seq<(Seq<char>, Seq<char>)>,
    name: Seq<char>,
) -> Seq<(Seq<char>, Seq<char>)> {
    match lookup(env, name) {
        Some(value) => if lookup(found, name) is Some {
            found
        } else {
            found.push((name, value))
        },
        None => found,
    }
}

/// `found` with the variables `names` from position `i` on added in turn.
pub open spec fn gather_from(
    env: Seq<(Seq<char>, Seq<char>)>,
    names: Seq<Seq<char>>,
    i: int,
    found: Seq<(Seq<char>, Seq<char>)>,
) -> Seq<(Seq<char>, Seq<char>)>
    decreases names.len() - i,
{
    if i < 0 || i >= names.len() {
        found
    } else {
        gather_from(env, names, i + 1, with_variable(env, found, names[i]))
    }
}

/// The variables of the environment that bear on a command that names the
/// variables `referenced`: first the common ones, then the named ones, each
/// with its value, each once, those that the environment lacks left out.
pub open spec fn relevant_variables(
    env: Seq<(Seq<char>, Seq<char>)>,
    referenced: Seq<Seq<char>>,
) -> Seq<(Seq<char>, Seq<char>)> {
    gather_from(env, referenced, 0, gather_from(env, common_variables(), 0, Seq::empty()))
}

/// The names from position `i` on among what each match of a search gave, a
/// match that gave no name left out.
pub open spec fn named_from(parts: Seq<Option<Seq<char>>>, i: int) -> Seq<Seq<char>>
    decreases parts.len() - i,
{
    if i < 0 || i >= parts.len() {
        Seq::empty()
    } else {
        match parts[i] {
            Some(name) => seq![name] + named_from(parts, i + 1),
            None => named_from(parts, i + 1),
        }
    }
}

/// The names that a search for variables in a command gave; none where the
/// search could not be made.
pub open spec fn names_found(found: Option<Seq<Option<Seq<char>>>>) -> Seq<Seq<char>> {
    match found {
        Some(parts) => named_from(parts, 0),
        None => Seq::empty(),
    }
}

/// The names that a search for variables in a command gave, in their order.
pub fn names_in(found: Option<Vec<Option<String>>>) -> (names: Vec<String>)
    ensures
        texts(names@) == names_found(groups_in_matches(found)),
{
    let mut names: Vec<String> = Vec::new();
    match found {
        Some(parts) => {
            let mut i: usize = 0;
            while i < parts.len()
                invariant
                    i <= parts.len(),
                    texts(names@) + named_from(opt_texts(parts@), i as int) == named_from(
                        opt_texts(parts@),
                        0,
                    ),
                decreases parts.len() - i,
            {
                let ghost before = texts(names@);
                let ghost rest = named_from(opt_texts(parts@), i + 1);
                match &parts[i] {
                    Some(name) => {
                        names.push(name.clone());
                        assert(texts(names@) =~= before.push(name@));
                        assert(before.push(name@) + rest =~= before + (seq![name@] + rest));
                    },
                    None => {},
                }
                i += 1;
            }
            assert(texts(names@) + Seq::<Seq<char>>::empty() =~= texts(names@));
        },
        None => {
            assert(texts(names@) =~= Seq::<Seq<char>>::empty());
        },
    }
    names
}

} // verus!
