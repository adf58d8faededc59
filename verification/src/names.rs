//! Lists in which things are found by their name.

use vstd::prelude::*;

verus! {

/// The first position from `i` on that holds `name`, or the length of the
/// list where none does.
pub open spec fn index_of(names: Seq<Seq<char>>, name: Seq<char>, i: int) -> int
    decreases names.len() - i,
{
    if i < 0 || i >= names.len() {
        names.len() as int
    } else if names[i] == name {
        i
    } else {
        index_of(names, name, i + 1)
    }
}

/// No name stands twice in the list.
pub open spec fn distinct(names: Seq<Seq<char>>) -> bool {
    forall|a: int, b: int| 0 <= a < b < names.len() ==> #[trigger] names[a] != #[trigger] names[b]
}

/// What holds of the first position of a name.
pub proof fn lemma_index_of(names: Seq<Seq<char>>, name: Seq<char>, i: int)
    requires
        0 <= i <= names.len(),
    ensures
        i <= index_of(names, name, i) <= names.len(),
        index_of(names, name, i) < names.len() ==> names[index_of(names, name, i)] == name,
        forall|j: int| i <= j < index_of(names, name, i) ==> names[j] != name,
    decreases names.len() - i,
{
    if i < names.len() && names[i] != name {
        lemma_index_of(names, name, i + 1);
    }
}

/// Taking a name out of distinct names leaves the names distinct, and the
/// name is no longer among them.
pub proof fn lemma_removed_distinct(names: Seq<Seq<char>>, name: Seq<char>)
    requires
        distinct(names),
    ensures
        index_of(names, name, 0) < names.len() ==> {
            &&& distinct(names.remove(index_of(names, name, 0)))
            &&& index_of(names.remove(index_of(names, name, 0)), name, 0) == names.len() - 1
        },
{
    lemma_index_of(names, name, 0);
    let i = index_of(names, name, 0);
    if i < names.len() {
        let rest = names.remove(i);
        assert forall|j: int| 0 <= j < rest.len() implies #[trigger] rest[j] != name by {
            if j < i {
                assert(rest[j] == names[j]);
            } else {
                assert(rest[j] == names[j + 1]);
            }
        }
        lemma_index_of(rest, name, 0);
        assert forall|a: int, b: int| 0 <= a < b < rest.len() implies #[trigger] rest[a]
            != #[trigger] rest[b] by {
            let a0 = if a < i {
                a
            } else {
                a + 1
            };
            let b0 = if b < i {
                b
            } else {
                b + 1
            };
            assert(names[a0] != names[b0]);
        }
    }
}

/// The first position of a name is `r` where `r` holds the name, or is the
/// length of the list, and no position before `r` holds it.
pub proof fn lemma_index_of_is(names: Seq<Seq<char>>, name: Seq<char>, r: int)
    requires
        0 <= r <= names.len(),
        r < names.len() ==> names[r] == name,
        forall|j: int| 0 <= j < r ==> names[j] != name,
    ensures
        index_of(names, name, 0) == r,
{
    lemma_index_of(names, name, 0);
}

/// Taking the first of a name out of a list leaves every other name where it
/// was found, one place further on where it stood behind.
pub proof fn lemma_index_of_after_removal(names: Seq<Seq<char>>, name: Seq<char>, other: Seq<char>)
    requires
        other != name,
        index_of(names, name, 0) < names.len(),
    ensures
        ({
            let i = index_of(names, name, 0);
            let j = index_of(names, other, 0);
            index_of(names.remove(i), other, 0) == (if j < i {
                j
            } else {
                j - 1
            })
        }),
        index_of(names, other, 0) != index_of(names, name, 0),
{
    lemma_index_of(names, name, 0);
    lemma_index_of(names, other, 0);
    let i = index_of(names, name, 0);
    let j = index_of(names, other, 0);
    let rest = names.remove(i);
    let r = if j < i {
        j
    } else {
        j - 1
    };
    assert forall|x: int| 0 <= x < r implies rest[x] != other by {
        if x < i {
            assert(rest[x] == names[x]);
        } else {
            assert(rest[x] == names[x + 1]);
        }
    }
    if r < rest.len() {
        if j < i {
            assert(rest[r] == names[j]);
        } else {
            assert(rest[r] == names[j]);
        }
    }
    lemma_index_of_is(rest, other, r);
}

/// Putting a name at the end of a list leaves every other name where it was
/// found, and not found where it was not.
pub proof fn lemma_index_of_after_push(names: Seq<Seq<char>>, name: Seq<char>, other: Seq<char>)
    requires
        other != name,
    ensures
        index_of(names, other, 0) < names.len() ==> index_of(names.push(name), other, 0)
            == index_of(names, other, 0),
        index_of(names, other, 0) >= names.len() ==> index_of(names.push(name), other, 0)
            == names.len() + 1,
{
    lemma_index_of(names, other, 0);
    let j = index_of(names, other, 0);
    let more = names.push(name);
    assert forall|x: int| 0 <= x < names.len() implies more[x] == names[x] by {}
    if j < names.len() {
        lemma_index_of_is(more, other, j);
    } else {
        assert(more[names.len() as int] == name);
        lemma_index_of_is(more, other, (names.len() + 1) as int);
    }
}

} // verus!
