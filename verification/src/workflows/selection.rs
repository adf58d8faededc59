//! Which workflows a listing holds, and in what order.

use vstd::prelude::*;
use crate::workflows::category::category_of;
use crate::workflows::ranking::{
    RankKey, is_ranked, lemma_ranking_is_ranked, positions, rank, ranking,
};
use crate::workflows::score::{SearchScore, score_of};
use crate::workflows::validation::compatible;
use crate::workflows::{Shell, Workflow, WorkflowCategory, WorkflowModel};

verus! {

/// What a listing is made for.
#[derive(Debug, Clone, Copy)]
pub enum Selection<'a> {
    /// The workflows of which some field holds the query, by score.
    Search(&'a str),
    /// All workflows, the most used first and among them the last used.
    All,
    /// The workflows of a category, in the order in which they are stored.
    Category(WorkflowCategory),
    /// All workflows, the most used first.
    Popular,
    /// The workflows that were ever used, the last used first.
    Recent,
}

/// What a `Selection` holds, as mathematical values.
pub enum SelectionModel {
    Search(Seq<char>),
    All,
    Category(WorkflowCategory),
    Popular,
    Recent,
}

impl<'a> View for Selection<'a> {
    type V = SelectionModel;

    open spec fn view(&self) -> SelectionModel {
        match *self {
            Selection::Search(q) => SelectionModel::Search(q@),
            Selection::All => SelectionModel::All,
            Selection::Category(c) => SelectionModel::Category(c),
            Selection::Popular => SelectionModel::Popular,
            Selection::Recent => SelectionModel::Recent,
        }
    }
}

/// The views of a sequence of workflows.
pub open spec fn workflow_models(ws: Seq<Workflow>) -> Seq<WorkflowModel> {
    ws.map_values(|w: Workflow| w@)
}

/// The shell that a filter names.
pub open spec fn filter_of(shell: Option<&Shell>) -> Option<Shell> {
    match shell {
        Some(s) => Some(*s),
        None => None,
    }
}

/// A filter lets a workflow pass: it names no shell, or one that the
/// workflow runs in.
pub open spec fn accepts(filter: Option<Shell>, w: WorkflowModel) -> bool {
    match filter {
        Some(shell) => compatible(w, shell),
        None => true,
    }
}

/// The usage count of a workflow, as a score.
pub open spec fn usage_score(w: WorkflowModel) -> SearchScore {
    SearchScore { points: w.usage_count as u128, usage: 0 }
}

/// The score that says nothing.
pub open spec fn no_score() -> SearchScore {
    SearchScore { points: 0, usage: 0 }
}

/// What a workflow is ranked by in a listing, and `None` where the listing
/// does not hold it. No listing holds a workflow that the filter does not
/// let pass. A search holds the workflows of which some field holds the
/// query.
pub open spec fn rank_key(
    w: WorkflowModel,
    selection: SelectionModel,
    filter: Option<Shell>,
) -> Option<RankKey> {
    if !accepts(filter, w) {
        None
    } else {
        match selection {
            SelectionModel::Search(query) => if score_of(w, query).matched() {
                Some(RankKey { score: score_of(w, query), last_used: None })
            } else {
                None
            },
            SelectionModel::All => Some(RankKey { score: usage_score(w), last_used: w.last_used }),
            SelectionModel::Category(c) => if category_of(w.tags) == c {
                Some(RankKey { score: no_score(), last_used: None })
            } else {
                None
            },
            SelectionModel::Popular => Some(RankKey { score: usage_score(w), last_used: None }),
            SelectionModel::Recent => if w.last_used is Some {
                Some(RankKey { score: no_score(), last_used: w.last_used })
            } else {
                None
            },
        }
    }
}

/// The positions from `i` on of the workflows that a listing holds.
pub open spec fn picked_from(
    ws: Seq<WorkflowModel>,
    selection: SelectionModel,
    filter: Option<Shell>,
    i: int,
) -> Seq<int>
    decreases ws.len() - i,
{
    if i < 0 || i >= ws.len() {
        Seq::empty()
    } else if rank_key(ws[i], selection, filter) is Some {
        seq![i] + picked_from(ws, selection, filter, i + 1)
    } else {
        picked_from(ws, selection, filter, i + 1)
    }
}

/// The keys of the workflows at the picked positions.
pub open spec fn keys_of(
    ws: Seq<WorkflowModel>,
    picked: Seq<int>,
    selection: SelectionModel,
    filter: Option<Shell>,
) -> Seq<RankKey> {
    picked.map_values(|i: int| rank_key(ws[i], selection, filter)->0)
}

/// The positions of the workflows that a listing holds, in the order of the
/// listing: ranked by their keys, workflows of equal rank in the order in
/// which they are stored.
pub open spec fn listed(
    ws: Seq<WorkflowModel>,
    selection: SelectionModel,
    filter: Option<Shell>,
) -> Seq<int> {
    let picked = picked_from(ws, selection, filter, 0);
    ranking(keys_of(ws, picked, selection, filter)).map_values(|r: int| picked[r])
}

/// The first `limit` entries of a list, and all of them where there are
/// fewer.
pub open spec fn first_of<T>(list: Seq<T>, limit: nat) -> Seq<T> {
    if limit < list.len() {
        list.take(limit as int)
    } else {
        list
    }
}

/// Whether a filter lets a workflow pass.
pub fn passes(shell: Option<&Shell>, workflow: &Workflow) -> (r: bool)
    ensures
        r == accepts(filter_of(shell), workflow@),
{
    match shell {
        Some(s) => workflow.is_compatible_with_shell(s),
        None => true,
    }
}

/// What a workflow is ranked by in a listing, and `None` where the listing
/// does not hold it.
pub fn key_for(
    workflow: &Workflow,
    selection: &Selection,
    shell: Option<&Shell>,
) -> (key: Option<RankKey>)
    ensures
        key == rank_key(workflow@, selection@, filter_of(shell)),
{
    if !passes(shell, workflow) {
        return None;
    }
    let by_usage = SearchScore { points: workflow.usage_count as u128, usage: 0 };
    let nothing = SearchScore { points: 0, usage: 0 };
    match selection {
        Selection::Search(query) => {
            let score = workflow.calculate_search_score(query);
            if score.is_match() {
                Some(RankKey { score, last_used: None })
            } else {
                None
            }
        },
        Selection::All => Some(RankKey { score: by_usage, last_used: workflow.last_used }),
        Selection::Category(c) => {
            if workflow.get_category() == *c {
                Some(RankKey { score: nothing, last_used: None })
            } else {
                None
            }
        },
        Selection::Popular => Some(RankKey { score: by_usage, last_used: None }),
        Selection::Recent => {
            if workflow.last_used.is_some() {
                Some(RankKey { score: nothing, last_used: workflow.last_used })
            } else {
                None
            }
        },
    }
}

/// The positions of the workflows that a listing holds, in the order of the
/// listing.
pub fn list(
    workflows: &Vec<Workflow>,
    selection: &Selection,
    shell: Option<&Shell>,
) -> (order: Vec<usize>)
    ensures
        positions(order@) == listed(workflow_models(workflows@), selection@, filter_of(shell)),
        forall|k: int| 0 <= k < order.len() ==> #[trigger] order@[k] < workflows.len(),
{
    let ghost ws = workflow_models(workflows@);
    let ghost sel = selection@;
    let ghost filter = filter_of(shell);
    let mut picked: Vec<usize> = Vec::new();
    let mut keys: Vec<RankKey> = Vec::new();
    let mut i: usize = 0;
    while i < workflows.len()
        invariant
            i <= workflows.len(),
            ws == workflow_models(workflows@),
            sel == selection@,
            filter == filter_of(shell),
            picked.len() == keys.len(),
            forall|k: int| 0 <= k < picked.len() ==> #[trigger] picked@[k] < workflows.len(),
            positions(picked@) + picked_from(ws, sel, filter, i as int) == picked_from(
                ws,
                sel,
                filter,
                0,
            ),
            keys@ == keys_of(ws, positions(picked@), sel, filter),
        decreases workflows.len() - i,
    {
        let ghost before = positions(picked@);
        let ghost rest = picked_from(ws, sel, filter, i + 1);
        assert(workflows@[i as int]@ == ws[i as int]);
        match key_for(&workflows[i], selection, shell) {
            Some(key) => {
                picked.push(i);
                keys.push(key);
                assert(positions(picked@) =~= before.push(i as int));
                assert(before.push(i as int) + rest =~= before + (seq![i as int] + rest));
                assert(keys@ =~= keys_of(ws, positions(picked@), sel, filter));
            },
            None => {},
        }
        i += 1;
    }
    assert(positions(picked@) + Seq::<int>::empty() =~= positions(picked@));
    let ranks = rank(&keys);
    let mut order: Vec<usize> = Vec::new();
    let mut k: usize = 0;
    while k < ranks.len()
        invariant
            k <= ranks.len(),
            ranks.len() == keys.len(),
            picked.len() == keys.len(),
            forall|j: int| 0 <= j < ranks.len() ==> 0 <= #[trigger] ranks@[j] < keys.len(),
            forall|j: int| 0 <= j < picked.len() ==> #[trigger] picked@[j] < workflows.len(),
            order.len() == k,
            forall|j: int| 0 <= j < k ==> order@[j] == picked@[ranks@[j] as int],
        decreases ranks.len() - k,
    {
        order.push(picked[ranks[k]]);
        k += 1;
    }
    assert(positions(order@) =~= positions(ranks@).map_values(|r: int| positions(picked@)[r]));
    order
}

/// The picked positions from `i` on are those of the workflows that the
/// listing holds, each once, in rising order.
pub proof fn lemma_picked(
    ws: Seq<WorkflowModel>,
    selection: SelectionModel,
    filter: Option<Shell>,
    i: int,
)
    requires
        0 <= i <= ws.len(),
    ensures
        forall|k: int|
            0 <= k < picked_from(ws, selection, filter, i).len() ==> {
                &&& i <= (#[trigger] picked_from(ws, selection, filter, i)[k]) < ws.len()
                &&& rank_key(
                    ws[picked_from(ws, selection, filter, i)[k]],
                    selection,
                    filter,
                ) is Some
            },
        forall|a: int, b: int|
            0 <= a < b < picked_from(ws, selection, filter, i).len() ==> (#[trigger] picked_from(
                ws,
                selection,
                filter,
                i,
            )[a]) < (#[trigger] picked_from(ws, selection, filter, i)[b]),
        forall|j: int|
            i <= j < ws.len() && rank_key(ws[j], selection, filter) is Some
                ==> #[trigger] picked_from(ws, selection, filter, i).contains(j),
    decreases ws.len() - i,
{
    if i < ws.len() {
        lemma_picked(ws, selection, filter, i + 1);
        let here = picked_from(ws, selection, filter, i);
        let rest = picked_from(ws, selection, filter, i + 1);
        if rank_key(ws[i], selection, filter) is Some {
            assert(here == seq![i] + rest);
            assert forall|k: int| 0 <= k < here.len() implies {
                &&& i <= (#[trigger] here[k]) < ws.len()
                &&& rank_key(ws[here[k]], selection, filter) is Some
            } by {
                if k > 0 {
                    assert(here[k] == rest[k - 1]);
                }
            }
            assert forall|a: int, b: int| 0 <= a < b < here.len() implies (#[trigger] here[a]) < (
            #[trigger] here[b]) by {
                assert(here[b] == rest[b - 1]);
                if a > 0 {
                    assert(here[a] == rest[a - 1]);
                }
            }
            assert forall|j: int|
                i <= j < ws.len() && rank_key(ws[j], selection, filter) is Some
                implies here.contains(j) by {
                if j == i {
                    assert(here[0] == j);
                } else {
                    assert(rest.contains(j));
                    let k = choose|k: int| 0 <= k < rest.len() && rest[k] == j;
                    assert(here[k + 1] == j);
                }
            }
        } else {
            assert(here == rest);
        }
    }
}

/// What a position in a listing is ranked by.
pub open spec fn key_at(
    ws: Seq<WorkflowModel>,
    selection: SelectionModel,
    filter: Option<Shell>,
    i: int,
) -> RankKey {
    rank_key(ws[i], selection, filter)->0
}

/// A listing holds exactly the workflows that its selection takes and its
/// filter lets pass, each once; no workflow stands after one that it
/// outranks; and of two workflows of which neither outranks the other the
/// one stored first stands first.
pub proof fn lemma_listing_is_ranked(
    ws: Seq<WorkflowModel>,
    selection: SelectionModel,
    filter: Option<Shell>,
)
    ensures
        forall|a: int|
            0 <= a < listed(ws, selection, filter).len() ==> {
                &&& 0 <= (#[trigger] listed(ws, selection, filter)[a]) < ws.len()
                &&& rank_key(ws[listed(ws, selection, filter)[a]], selection, filter) is Some
            },
        forall|i: int|
            0 <= i < ws.len() && rank_key(ws[i], selection, filter) is Some ==> #[trigger] listed(
                ws,
                selection,
                filter,
            ).contains(i),
        forall|a: int, b: int|
            0 <= a < b < listed(ws, selection, filter).len() ==> {
                &&& (#[trigger] listed(ws, selection, filter)[a]) != (#[trigger] listed(
                    ws,
                    selection,
                    filter,
                )[b])
                &&& !key_at(ws, selection, filter, listed(ws, selection, filter)[b]).outranks(
                    key_at(ws, selection, filter, listed(ws, selection, filter)[a]),
                )
                &&& !key_at(ws, selection, filter, listed(ws, selection, filter)[a]).outranks(
                    key_at(ws, selection, filter, listed(ws, selection, filter)[b]),
                ) ==> listed(ws, selection, filter)[a] < listed(ws, selection, filter)[b]
            },
{
    let picked = picked_from(ws, selection, filter, 0);
    let keys = keys_of(ws, picked, selection, filter);
    let order = ranking(keys);
    let out = listed(ws, selection, filter);
    lemma_picked(ws, selection, filter, 0);
    lemma_ranking_is_ranked(keys);
    assert(is_ranked(order, keys, keys.len()));
    assert(out.len() == order.len());
    assert forall|a: int| 0 <= a < out.len() implies {
        &&& 0 <= (#[trigger] out[a]) < ws.len()
        &&& rank_key(ws[out[a]], selection, filter) is Some
        &&& out[a] == picked[order[a]]
        &&& key_at(ws, selection, filter, out[a]) == keys[order[a]]
    } by {
        assert(0 <= order[a] < picked.len());
    }
    assert forall|i: int|
        0 <= i < ws.len() && rank_key(ws[i], selection, filter) is Some implies out.contains(
        i,
    ) by {
        assert(picked.contains(i));
        let m = choose|m: int| 0 <= m < picked.len() && picked[m] == i;
        assert(order.contains(m));
        let a = choose|a: int| 0 <= a < order.len() && order[a] == m;
        assert(out[a] == i);
    }
    assert forall|a: int, b: int| 0 <= a < b < out.len() implies {
        &&& (#[trigger] out[a]) != (#[trigger] out[b])
        &&& !key_at(ws, selection, filter, out[b]).outranks(key_at(ws, selection, filter, out[a]))
        &&& !key_at(ws, selection, filter, out[a]).outranks(
            key_at(ws, selection, filter, out[b]),
        ) ==> out[a] < out[b]
    } by {
        assert(order[a] != order[b]);
        assert(0 <= order[a] < picked.len() && 0 <= order[b] < picked.len());
        if order[a] < order[b] {
            assert(picked[order[a]] < picked[order[b]]);
        } else {
            assert(picked[order[b]] < picked[order[a]]);
        }
        assert(!keys[order[b]].outranks(keys[order[a]]));
    }
}

} // verus!
