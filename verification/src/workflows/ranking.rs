//! The order in which workflows are listed: best first, and among equals
//! the one that was stored first.

use vstd::prelude::*;
use crate::time::{Timestamp, earlier, is_earlier};
use crate::workflows::score::SearchScore;

verus! {

/// What a listed workflow is ranked by: its score first, and among equal
/// scores the time of its last use.
#[derive(Debug, Clone, Copy, PartialEq, Eq, Structural)]
pub struct RankKey {
    pub score: SearchScore,
    pub last_used: Option<Timestamp>,
}

impl RankKey {
    /// `self` comes before `other`: its score is higher, or the scores are
    /// equal and it was used later.
    pub open spec fn outranks(self, other: RankKey) -> bool {
        self.score.outranks(other.score) || (self.score.weight() == other.score.weight()
            && earlier(other.last_used, self.last_used))
    }

    /// Whether `self` comes before `other`.
    pub fn is_above(&self, other: &RankKey) -> (r: bool)
        ensures
            r == self.outranks(*other),
    {
        if self.score.is_above(&other.score) {
            true
        } else if other.score.is_above(&self.score) {
            false
        } else {
            is_earlier(&other.last_used, &self.last_used)
        }
    }
}

/// The ranked positions `order` with the position `x` put in: before the
/// first position whose key the key of `x` outranks, and last where there is
/// none.
pub open spec fn insert_ranked(order: Seq<int>, keys: Seq<RankKey>, x: int) -> Seq<int>
    decreases order.len(),
{
    if order.len() == 0 {
        seq![x]
    } else if keys[x].outranks(keys[order[0]]) {
        seq![x] + order
    } else {
        seq![order[0]] + insert_ranked(order.drop_first(), keys, x)
    }
}

/// The positions `0 .. n` of `keys`, ranked.
pub open spec fn ranking_upto(keys: Seq<RankKey>, n: nat) -> Seq<int>
    decreases n,
{
    if n == 0 {
        Seq::empty()
    } else {
        insert_ranked(ranking_upto(keys, (n - 1) as nat), keys, n - 1)
    }
}

/// The positions of `keys` in ranked order: a position whose key outranks
/// that of another comes before it, and of two positions of which neither
/// outranks the other the smaller comes first.
pub open spec fn ranking(keys: Seq<RankKey>) -> Seq<int> {
    ranking_upto(keys, keys.len())
}

/// Where the first `p` positions of `order` are not outranked by `x` and
/// `x` outranks the one at `p`, or `p` is the end, putting `x` in puts it at
/// `p`.
pub proof fn lemma_insert_at(order: Seq<int>, keys: Seq<RankKey>, x: int, p: int)
    requires
        0 <= p <= order.len(),
        forall|j: int| 0 <= j < p ==> !keys[x].outranks(keys[#[trigger] order[j]]),
        p < order.len() ==> keys[x].outranks(keys[order[p]]),
    ensures
        insert_ranked(order, keys, x) == order.subrange(0, p) + seq![x] + order.subrange(
            p,
            order.len() as int,
        ),
    decreases order.len(),
{
    if order.len() == 0 {
        assert(order.subrange(0, p) + seq![x] + order.subrange(p, order.len() as int) =~= seq![x]);
    } else if p == 0 {
        assert(order.subrange(0, 0) + seq![x] + order.subrange(0, order.len() as int) =~= seq![x]
            + order);
    } else {
        assert(!keys[x].outranks(keys[order[0]]));
        let rest = order.drop_first();
        assert forall|j: int| 0 <= j < p - 1 implies !keys[x].outranks(
            keys[#[trigger] rest[j]],
        ) by {
            assert(rest[j] == order[j + 1]);
        }
        lemma_insert_at(rest, keys, x, p - 1);
        assert(seq![order[0]] + (rest.subrange(0, p - 1) + seq![x] + rest.subrange(
            p - 1,
            rest.len() as int,
        )) =~= order.subrange(0, p) + seq![x] + order.subrange(p, order.len() as int));
    }
}

/// The positions kept in `order`, as integers.
pub open spec fn positions(order: Seq<usize>) -> Seq<int> {
    order.map_values(|i: usize| i as int)
}

/// The positions of `keys` in ranked order.
pub fn rank(keys: &Vec<RankKey>) -> (order: Vec<usize>)
    ensures
        positions(order@) == ranking(keys@),
        order.len() == keys.len(),
        forall|k: int| 0 <= k < order.len() ==> 0 <= #[trigger] order@[k] < keys.len(),
{
    let mut order: Vec<usize> = Vec::new();
    let mut n: usize = 0;
    assert(positions(order@) =~= ranking_upto(keys@, 0));
    while n < keys.len()
        invariant
            n <= keys.len(),
            order.len() == n,
            positions(order@) == ranking_upto(keys@, n as nat),
            forall|k: int| 0 <= k < order.len() ==> 0 <= #[trigger] order@[k] < n,
        decreases keys.len() - n,
    {
        let mut p: usize = 0;
        while p < order.len() && !keys[n].is_above(&keys[order[p]])
            invariant
                p <= order.len(),
                n < keys.len(),
                order.len() == n,
                forall|k: int| 0 <= k < order.len() ==> 0 <= #[trigger] order@[k] < n,
                forall|j: int|
                    0 <= j < p ==> !keys@[n as int].outranks(
                        keys@[#[trigger] positions(order@)[j]],
                    ),
            decreases order.len() - p,
        {
            p += 1;
        }
        proof {
            lemma_insert_at(positions(order@), keys@, n as int, p as int);
        }
        let ghost before = positions(order@);
        order.insert(p, n);
        assert(positions(order@) =~= before.subrange(0, p as int) + seq![n as int]
            + before.subrange(p as int, before.len() as int));
        n += 1;
    }
    order
}

/// `order` lists each of the positions `0 .. n` once, no position stands
/// after one that its key outranks, and of two positions of which neither
/// outranks the other the smaller stands first.
pub open spec fn is_ranked(order: Seq<int>, keys: Seq<RankKey>, n: nat) -> bool {
    &&& order.len() == n
    &&& forall|a: int| 0 <= a < n ==> 0 <= #[trigger] order[a] < n
    &&& forall|m: int| 0 <= m < n ==> #[trigger] order.contains(m)
    &&& forall|a: int, b: int| 0 <= a < b < n ==> #[trigger] order[a] != #[trigger] order[b]
    &&& forall|a: int, b: int|
        0 <= a < b < n ==> !keys[#[trigger] order[b]].outranks(keys[#[trigger] order[a]])
    &&& forall|a: int, b: int|
        0 <= a < b < n && !keys[#[trigger] order[a]].outranks(keys[#[trigger] order[b]])
            ==> order[a] < order[b]
}

/// No key outranks itself, and a key that outranks a second outranks every
/// key that does not outrank the second.
pub proof fn lemma_outranks_is_an_order(x: RankKey, y: RankKey, z: RankKey)
    ensures
        !x.outranks(x),
        x.outranks(y) ==> !y.outranks(x),
        x.outranks(y) && !z.outranks(y) ==> x.outranks(z),
{
}

/// The place at which `x` is put into `order`: that of the first position
/// whose key the key of `x` outranks, and the end where there is none.
pub open spec fn slot(order: Seq<int>, keys: Seq<RankKey>, x: int) -> int
    decreases order.len(),
{
    if order.len() == 0 {
        0
    } else if keys[x].outranks(keys[order[0]]) {
        0
    } else {
        1 + slot(order.drop_first(), keys, x)
    }
}

/// What holds of the place at which `x` is put into `order`.
pub proof fn lemma_slot(order: Seq<int>, keys: Seq<RankKey>, x: int)
    ensures
        0 <= slot(order, keys, x) <= order.len(),
        forall|j: int|
            0 <= j < slot(order, keys, x) ==> !keys[x].outranks(keys[#[trigger] order[j]]),
        slot(order, keys, x) < order.len() ==> keys[x].outranks(
            keys[order[slot(order, keys, x)]],
        ),
    decreases order.len(),
{
    if order.len() > 0 && !keys[x].outranks(keys[order[0]]) {
        let rest = order.drop_first();
        lemma_slot(rest, keys, x);
        assert forall|j: int| 0 <= j < slot(order, keys, x) implies !keys[x].outranks(
            keys[#[trigger] order[j]],
        ) by {
            if j > 0 {
                assert(rest[j - 1] == order[j]);
            }
        }
        if slot(order, keys, x) < order.len() {
            assert(rest[slot(rest, keys, x)] == order[slot(order, keys, x)]);
        }
    }
}

/// The first `n` positions of `keys`, ranked, are ranked.
pub proof fn lemma_ranking_upto(keys: Seq<RankKey>, n: nat)
    requires
        n <= keys.len(),
    ensures
        is_ranked(ranking_upto(keys, n), keys, n),
    decreases n,
{
    if n > 0 {
        let m = (n - 1) as nat;
        let x = n - 1;
        let old_order = ranking_upto(keys, m);
        lemma_ranking_upto(keys, m);
        let p = slot(old_order, keys, x);
        lemma_slot(old_order, keys, x);
        lemma_insert_at(old_order, keys, x, p);
        let order = ranking_upto(keys, n);
        assert(order == old_order.subrange(0, p) + seq![x] + old_order.subrange(p, m as int));
        assert(order.len() == n);
        assert forall|a: int| 0 <= a < n implies #[trigger] order[a] == (if a < p {
            old_order[a]
        } else if a == p {
            x
        } else {
            old_order[a - 1]
        }) by {}
        assert forall|a: int, b: int| 0 <= a < b < n implies !keys[#[trigger] order[b]].outranks(
            keys[#[trigger] order[a]],
        ) by {
            if a == p {
                lemma_outranks_is_an_order(keys[x], keys[old_order[p]], keys[old_order[b - 1]]);
                lemma_outranks_is_an_order(keys[x], keys[old_order[b - 1]], keys[x]);
                if b - 1 > p {
                    assert(!keys[old_order[b - 1]].outranks(keys[old_order[p]]));
                }
            } else if b == p {
                assert(!keys[x].outranks(keys[old_order[a]]));
            } else {
                let a0 = if a < p {
                    a
                } else {
                    a - 1
                };
                let b0 = if b < p {
                    b
                } else {
                    b - 1
                };
                assert(!keys[old_order[b0]].outranks(keys[old_order[a0]]));
            }
        }
        assert forall|a: int, b: int|
            0 <= a < b < n && !keys[#[trigger] order[a]].outranks(
                keys[#[trigger] order[b]],
            ) implies order[a] < order[b] by {
            if a == p {
                lemma_outranks_is_an_order(keys[x], keys[old_order[p]], keys[old_order[b - 1]]);
                if b - 1 > p {
                    assert(!keys[old_order[b - 1]].outranks(keys[old_order[p]]));
                }
            } else if b == p {
                assert(old_order[a] < m);
            } else {
                let a0 = if a < p {
                    a
                } else {
                    a - 1
                };
                let b0 = if b < p {
                    b
                } else {
                    b - 1
                };
                assert(!keys[old_order[a0]].outranks(keys[old_order[b0]]) ==> old_order[a0]
                    < old_order[b0]);
            }
        }
        assert forall|a: int, b: int| 0 <= a < b < n implies #[trigger] order[a]
            != #[trigger] order[b] by {
            if a == p {
                assert(old_order[b - 1] < m);
            } else if b == p {
                assert(old_order[a] < m);
            } else {
                let a0 = if a < p {
                    a
                } else {
                    a - 1
                };
                let b0 = if b < p {
                    b
                } else {
                    b - 1
                };
                assert(old_order[a0] != old_order[b0]);
            }
        }
        assert forall|a: int| 0 <= a < n implies 0 <= #[trigger] order[a] < n by {
            if a < p {
                assert(0 <= old_order[a] < m);
            } else if a > p {
                assert(0 <= old_order[a - 1] < m);
            }
        }
        assert forall|k: int| 0 <= k < n implies #[trigger] order.contains(k) by {
            if k == x {
                assert(order[p] == k);
            } else {
                assert(old_order.contains(k));
                let a = choose|a: int| 0 <= a < old_order.len() && old_order[a] == k;
                if a < p {
                    assert(order[a] == k);
                } else {
                    assert(order[a + 1] == k);
                }
            }
        }
    }
}

/// The ranking of any keys lists every position once, best first, and keeps
/// positions of equal rank in their order.
pub proof fn lemma_ranking_is_ranked(keys: Seq<RankKey>)
    ensures
        is_ranked(ranking(keys), keys, keys.len()),
{
    lemma_ranking_upto(keys, keys.len());
}

} // verus!
