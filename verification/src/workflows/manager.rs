//! The store of workflows: an index by name, kept in the order in which the
//! workflows came in, and the usage statistics by workflow name.

use vstd::prelude::*;
use crate::files::{definition_file, definition_file_name, sanitized};
use crate::outside::{lowercase, to_lowercase};
use crate::names::{
    distinct, index_of, lemma_index_of, lemma_index_of_after_push, lemma_index_of_after_removal,
    lemma_removed_distinct,
};
use crate::text::{owned, same_text, texts};
use crate::time::{TimeSpan, Timestamp};
use crate::workflows::category::category_of;
use crate::workflows::ranking::positions;
use crate::workflows::score::{SearchScore, score_of, search_text_of};
use crate::workflows::selection::{
    Selection, SelectionModel, filter_of, first_of, list, listed, usage_score, workflow_models,
};
use crate::workflows::usage::WorkflowUsageStats;
use crate::workflows::validation::{is_valid, validation_fault};
use crate::workflows::{
    ErrorModel, Shell, Workflow, WorkflowCategory, WorkflowError, WorkflowModel,
};

verus! {

/// The names of a sequence of workflows.
pub open spec fn names_of(ws: Seq<WorkflowModel>) -> Seq<Seq<char>> {
    ws.map_values(|w: WorkflowModel| w.name)
}

/// The workflow of this name, where there is one.
pub open spec fn found(ws: Seq<WorkflowModel>, name: Seq<char>) -> Option<WorkflowModel> {
    let i = index_of(names_of(ws), name, 0);
    if i < ws.len() {
        Some(ws[i])
    } else {
        None
    }
}

/// The workflows with `w` stored: in the place of the workflow of the same
/// name, or at the end where there is none.
pub open spec fn stored(ws: Seq<WorkflowModel>, w: WorkflowModel) -> Seq<WorkflowModel> {
    let i = index_of(names_of(ws), w.name, 0);
    if i < ws.len() {
        ws.update(i, w)
    } else {
        ws.push(w)
    }
}

/// The workflows without the one of this name.
pub open spec fn without(ws: Seq<WorkflowModel>, name: Seq<char>) -> Seq<WorkflowModel> {
    let i = index_of(names_of(ws), name, 0);
    if i < ws.len() {
        ws.remove(i)
    } else {
        ws
    }
}

/// The usage statistics of workflows, by name.
pub type StatsModel = Seq<(Seq<char>, WorkflowUsageStats)>;

/// The view of a table of usage statistics.
pub open spec fn stats_model(table: Seq<(String, WorkflowUsageStats)>) -> StatsModel {
    table.map_values(|e: (String, WorkflowUsageStats)| (e.0@, e.1))
}

/// The names in a table of usage statistics.
pub open spec fn stat_names(table: StatsModel) -> Seq<Seq<char>> {
    table.map_values(|e: (Seq<char>, WorkflowUsageStats)| e.0)
}

/// The statistics of the workflow of this name, where there are any.
pub open spec fn stats_for(table: StatsModel, name: Seq<char>) -> Option<WorkflowUsageStats> {
    let i = index_of(stat_names(table), name, 0);
    if i < table.len() {
        Some(table[i].1)
    } else {
        None
    }
}

/// The table with the statistics of `name` set: in the place of those it
/// had, or at the end where it had none.
pub open spec fn with_stats(
    table: StatsModel,
    name: Seq<char>,
    stats: WorkflowUsageStats,
) -> StatsModel {
    let i = index_of(stat_names(table), name, 0);
    if i < table.len() {
        table.update(i, (name, stats))
    } else {
        table.push((name, stats))
    }
}

/// The table without the statistics of `name`.
pub open spec fn without_stats(table: StatsModel, name: Seq<char>) -> StatsModel {
    let i = index_of(stat_names(table), name, 0);
    if i < table.len() {
        table.remove(i)
    } else {
        table
    }
}

/// A workflow with the count and the time of its last use taken from its
/// usage statistics, where it has any.
pub open spec fn with_usage(w: WorkflowModel, table: StatsModel) -> WorkflowModel {
    match stats_for(table, w.name) {
        Some(stats) => WorkflowModel {
            usage_count: stats.usage_count,
            last_used: Some(stats.last_used),
            ..w
        },
        None => w,
    }
}

/// A workflow with the count and the time of its last use that the table of
/// usage statistics gives it; one that has no statistics counts as never
/// used.
pub open spec fn with_usage_only(w: WorkflowModel, table: StatsModel) -> WorkflowModel {
    match stats_for(table, w.name) {
        Some(stats) => WorkflowModel {
            usage_count: stats.usage_count,
            last_used: Some(stats.last_used),
            ..w
        },
        None => WorkflowModel { usage_count: 0, last_used: None, ..w },
    }
}

/// The workflows, each with its usage taken from the table alone.
pub open spec fn refreshed(ws: Seq<WorkflowModel>, table: StatsModel) -> Seq<WorkflowModel> {
    ws.map_values(|w: WorkflowModel| with_usage_only(w, table))
}

/// Every one of the workflows is valid.
pub open spec fn all_valid(ws: Seq<WorkflowModel>) -> bool {
    forall|k: int| 0 <= k < ws.len() ==> is_valid(#[trigger] ws[k])
}

/// The workflow has the count and the time of its last use that its usage
/// statistics give, where it has any.
pub open spec fn carries_usage(w: WorkflowModel, table: StatsModel) -> bool {
    match stats_for(table, w.name) {
        Some(stats) => w.usage_count == stats.usage_count && w.last_used == Some(stats.last_used),
        None => true,
    }
}

/// Every one of the workflows carries its usage.
pub open spec fn all_carry_usage(ws: Seq<WorkflowModel>, table: StatsModel) -> bool {
    forall|k: int| 0 <= k < ws.len() ==> carries_usage(#[trigger] ws[k], table)
}

/// A workflow that was stored is found under its name. Storing it among
/// workflows of distinct names leaves the names distinct, storing a valid one
/// among valid ones leaves all valid, and storing one that carries its usage
/// among such leaves all carrying theirs.
pub proof fn lemma_stored(ws: Seq<WorkflowModel>, w: WorkflowModel)
    ensures
        distinct(names_of(ws)) ==> distinct(names_of(stored(ws, w))),
        found(stored(ws, w), w.name) == Some(w),
        all_valid(ws) && is_valid(w) ==> all_valid(stored(ws, w)),
        forall|table: StatsModel|
            all_carry_usage(ws, table) && carries_usage(w, table) ==> #[trigger] all_carry_usage(
                stored(ws, w),
                table,
            ),
{
    lemma_index_of(names_of(ws), w.name, 0);
    let i = index_of(names_of(ws), w.name, 0);
    let after = stored(ws, w);
    if i < ws.len() {
        assert(names_of(after) =~= names_of(ws));
    } else {
        assert(names_of(after) =~= names_of(ws).push(w.name));
        lemma_index_of(names_of(after), w.name, 0);
        let k = index_of(names_of(after), w.name, 0);
        assert(names_of(after)[ws.len() as int] == w.name);
        if k < ws.len() {
            assert(names_of(after)[k] == names_of(ws)[k]);
        }
        assert(k == ws.len());
    }
}

/// Setting the statistics of one name leaves those of every other name as
/// they were.
pub proof fn lemma_with_stats_keeps_others(
    table: StatsModel,
    name: Seq<char>,
    stats: WorkflowUsageStats,
    other: Seq<char>,
)
    requires
        other != name,
    ensures
        stats_for(with_stats(table, name, stats), other) == stats_for(table, other),
{
    let names = stat_names(table);
    lemma_index_of(names, name, 0);
    lemma_index_of(names, other, 0);
    let i = index_of(names, name, 0);
    let after = with_stats(table, name, stats);
    if i < table.len() {
        assert(stat_names(after) =~= names);
    } else {
        assert(stat_names(after) =~= names.push(name));
        lemma_index_of_after_push(names, name, other);
    }
}

/// Taking the statistics of one name out leaves those of every other name
/// as they were.
pub proof fn lemma_without_stats_keeps_others(table: StatsModel, name: Seq<char>, other: Seq<char>)
    requires
        other != name,
    ensures
        stats_for(without_stats(table, name), other) == stats_for(table, other),
{
    let names = stat_names(table);
    lemma_index_of(names, name, 0);
    lemma_index_of(names, other, 0);
    let i = index_of(names, name, 0);
    if i < table.len() {
        assert(stat_names(table.remove(i)) =~= names.remove(i));
        lemma_index_of_after_removal(names, name, other);
    }
}

/// Counting a run of one workflow leaves the workflows carrying their usage
/// where they did before and no two of them have one name.
pub proof fn lemma_counting_keeps_usage(
    ws: Seq<WorkflowModel>,
    table: StatsModel,
    name: Seq<char>,
    stats: WorkflowUsageStats,
)
    requires
        distinct(names_of(ws)),
        all_carry_usage(ws, table),
    ensures
        all_carry_usage(with_count(ws, name, stats), with_stats(table, name, stats)),
{
    let after = with_count(ws, name, stats);
    let new_table = with_stats(table, name, stats);
    lemma_index_of(names_of(ws), name, 0);
    lemma_with_stats(table, name, stats);
    let i = index_of(names_of(ws), name, 0);
    assert forall|k: int| 0 <= k < after.len() implies carries_usage(
        #[trigger] after[k],
        new_table,
    ) by {
        assert(names_of(ws)[k] == ws[k].name);
        if ws[k].name == name {
            assert(i < ws.len());
            assert(names_of(ws)[i] == name);
            assert(k == i);
        } else {
            assert(after[k] == ws[k]);
            lemma_with_stats_keeps_others(table, name, stats, ws[k].name);
            assert(carries_usage(ws[k], table));
        }
    }
}

/// Taking one workflow and its statistics out leaves the workflows carrying
/// their usage where they did before and no two of them have one name.
pub proof fn lemma_removing_keeps_usage(ws: Seq<WorkflowModel>, table: StatsModel, name: Seq<char>)
    requires
        distinct(names_of(ws)),
        all_carry_usage(ws, table),
    ensures
        all_carry_usage(without(ws, name), without_stats(table, name)),
{
    let after = without(ws, name);
    let new_table = without_stats(table, name);
    lemma_index_of(names_of(ws), name, 0);
    let i = index_of(names_of(ws), name, 0);
    assert forall|k: int| 0 <= k < after.len() implies carries_usage(
        #[trigger] after[k],
        new_table,
    ) by {
        let k0 = if i < ws.len() && k >= i {
            k + 1
        } else {
            k
        };
        assert(after[k] == ws[k0]);
        assert(names_of(ws)[k0] == ws[k0].name);
        if i < ws.len() {
            assert(names_of(ws)[i] == name);
            assert(k0 != i);
        }
        assert(ws[k0].name != name);
        lemma_without_stats_keeps_others(table, name, ws[k0].name);
        assert(carries_usage(ws[k0], table));
    }
}

/// A workflow as a listing shows it.
#[derive(Debug)]
pub struct WorkflowSearchResult {
    pub workflow: Workflow,
    pub score: SearchScore,
    /// The names of the fields that hold the query.
    pub matched_fields: Vec<String>,
}

/// What a `WorkflowSearchResult` holds, as mathematical values.
pub struct SearchResultModel {
    pub workflow: WorkflowModel,
    pub score: SearchScore,
    pub matched_fields: Seq<Seq<char>>,
}

impl View for WorkflowSearchResult {
    type V = SearchResultModel;

    open spec fn view(&self) -> SearchResultModel {
        SearchResultModel {
            workflow: self.workflow@,
            score: self.score,
            matched_fields: texts(self.matched_fields@),
        }
    }
}

/// The views of a sequence of results.
pub open spec fn result_models(v: Seq<WorkflowSearchResult>) -> Seq<SearchResultModel> {
    v.map_values(|r: WorkflowSearchResult| r@)
}

/// A workflow as a search for `query` shows it: with its score and the names
/// of the fields that hold the query.
pub open spec fn hit(w: WorkflowModel, query: Seq<char>) -> SearchResultModel {
    SearchResultModel {
        workflow: w,
        score: score_of(w, query),
        matched_fields: search_text_of(w).matched_fields(lowercase(query)),
    }
}

/// A workflow as the listing of all workflows shows it: with its usage count
/// for a score.
pub open spec fn entry(w: WorkflowModel) -> SearchResultModel {
    SearchResultModel { workflow: w, score: usage_score(w), matched_fields: Seq::empty() }
}

/// The workflows at the given positions.
pub open spec fn chosen(ws: Seq<WorkflowModel>, order: Seq<int>) -> Seq<WorkflowModel> {
    order.map_values(|i: int| ws[i])
}

/// All workflows that the filter lets pass, the most used first and among
/// equally used ones the last used first.
pub open spec fn all_results(
    ws: Seq<WorkflowModel>,
    filter: Option<Shell>,
) -> Seq<SearchResultModel> {
    listed(ws, SelectionModel::All, filter).map_values(|i: int| entry(ws[i]))
}

/// What a search shows. An empty query shows all workflows. Any other query
/// shows the workflows that the filter lets pass and of which some field
/// holds the query, the highest score first; workflows of equal score stand
/// in the order in which they are stored.
pub open spec fn search_results(
    ws: Seq<WorkflowModel>,
    query: Seq<char>,
    filter: Option<Shell>,
) -> Seq<SearchResultModel> {
    if query.len() == 0 {
        all_results(ws, filter)
    } else {
        listed(ws, SelectionModel::Search(query), filter).map_values(|i: int| hit(ws[i], query))
    }
}

/// The categories of the workflows from position `i` on, added to `seen`,
/// each once.
pub open spec fn categories_from(
    ws: Seq<WorkflowModel>,
    i: int,
    seen: Seq<WorkflowCategory>,
) -> Seq<WorkflowCategory>
    decreases ws.len() - i,
{
    if i < 0 || i >= ws.len() {
        seen
    } else if seen.contains(category_of(ws[i].tags)) {
        categories_from(ws, i + 1, seen)
    } else {
        categories_from(ws, i + 1, seen.push(category_of(ws[i].tags)))
    }
}

/// The statistics of `name` after one more run at `now`: those it had, or
/// those of a workflow never run, with the run counted.
pub open spec fn usage_after(
    table: StatsModel,
    name: Seq<char>,
    now: Timestamp,
    execution_time: Option<TimeSpan>,
) -> WorkflowUsageStats {
    (match stats_for(table, name) {
        Some(stats) => stats,
        None => WorkflowUsageStats::unused(now),
    }).recorded(now, execution_time)
}

/// The workflows with the count and the time of the last use of the one
/// named `name` set from its statistics, where it is stored.
pub open spec fn with_count(
    ws: Seq<WorkflowModel>,
    name: Seq<char>,
    stats: WorkflowUsageStats,
) -> Seq<WorkflowModel> {
    let i = index_of(names_of(ws), name, 0);
    if i < ws.len() {
        ws.update(
            i,
            WorkflowModel {
                usage_count: stats.usage_count,
                last_used: Some(stats.last_used),
                ..ws[i]
            },
        )
    } else {
        ws
    }
}

/// The store after the candidates from position `i` on were taken in: each
/// valid one is stored with its usage merged in, an invalid one is passed
/// over.
pub open spec fn loaded_from(
    candidates: Seq<WorkflowModel>,
    table: StatsModel,
    i: int,
    ws: Seq<WorkflowModel>,
) -> Seq<WorkflowModel>
    decreases candidates.len() - i,
{
    if i < 0 || i >= candidates.len() {
        ws
    } else if is_valid(candidates[i]) {
        loaded_from(candidates, table, i + 1, stored(ws, with_usage(candidates[i], table)))
    } else {
        loaded_from(candidates, table, i + 1, ws)
    }
}

/// The positions from `i` on of the candidates that are not valid.
pub open spec fn skipped_from(candidates: Seq<WorkflowModel>, i: int) -> Seq<int>
    decreases candidates.len() - i,
{
    if i < 0 || i >= candidates.len() {
        Seq::empty()
    } else if is_valid(candidates[i]) {
        skipped_from(candidates, i + 1)
    } else {
        seq![i] + skipped_from(candidates, i + 1)
    }
}

/// The table after the entries from position `i` on were set in turn.
pub open spec fn table_from(entries: StatsModel, i: int, table: StatsModel) -> StatsModel
    decreases entries.len() - i,
{
    if i < 0 || i >= entries.len() {
        table
    } else {
        table_from(entries, i + 1, with_stats(table, entries[i].0, entries[i].1))
    }
}

/// Setting the statistics of a name in a table of distinct names leaves the
/// names distinct, and the statistics are found under the name.
pub proof fn lemma_with_stats(table: StatsModel, name: Seq<char>, stats: WorkflowUsageStats)
    ensures
        distinct(stat_names(table)) ==> distinct(stat_names(with_stats(table, name, stats))),
        stats_for(with_stats(table, name, stats), name) == Some(stats),
{
    lemma_index_of(stat_names(table), name, 0);
    let i = index_of(stat_names(table), name, 0);
    let after = with_stats(table, name, stats);
    if i < table.len() {
        assert(stat_names(after) =~= stat_names(table));
    } else {
        assert(stat_names(after) =~= stat_names(table).push(name));
        lemma_index_of(stat_names(after), name, 0);
        let k = index_of(stat_names(after), name, 0);
        assert(stat_names(after)[table.len() as int] == name);
        if k < table.len() {
            assert(stat_names(after)[k] == stat_names(table)[k]);
        }
        assert(k == table.len());
    }
}

/// Setting the count of a stored workflow changes no name and leaves valid
/// workflows valid.
pub proof fn lemma_with_count(ws: Seq<WorkflowModel>, name: Seq<char>, stats: WorkflowUsageStats)
    ensures
        names_of(with_count(ws, name, stats)) == names_of(ws),
        all_valid(ws) ==> all_valid(with_count(ws, name, stats)),
{
    lemma_index_of(names_of(ws), name, 0);
    assert(names_of(with_count(ws, name, stats)) =~= names_of(ws));
    let i = index_of(names_of(ws), name, 0);
    if all_valid(ws) {
        assert forall|k: int| 0 <= k < ws.len() implies is_valid(
            #[trigger] with_count(ws, name, stats)[k],
        ) by {
            assert(is_valid(ws[k]));
        }
    }
}

/// The store of workflows and of their usage statistics.
#[derive(Debug)]
pub struct WorkflowManager {
    workflows: Vec<Workflow>,
    workflows_dir: String,
    usage_stats: Vec<(String, WorkflowUsageStats)>,
}

/// The first position of a workflow of this name.
fn position_of(workflows: &Vec<Workflow>, name: &str) -> (i: usize)
    ensures
        i == index_of(names_of(workflow_models(workflows@)), name@, 0),
        i <= workflows.len(),
{
    let ghost names = names_of(workflow_models(workflows@));
    let mut i: usize = 0;
    while i < workflows.len()
        invariant
            i <= workflows.len(),
            names == names_of(workflow_models(workflows@)),
            index_of(names, name@, i as int) == index_of(names, name@, 0),
        decreases workflows.len() - i,
    {
        assert(names[i as int] == workflows@[i as int]@.name);
        if same_text(workflows[i].name.as_str(), name) {
            return i;
        }
        i += 1;
    }
    i
}

/// The first position of the statistics of this name.
fn stats_position_of(table: &Vec<(String, WorkflowUsageStats)>, name: &str) -> (i: usize)
    ensures
        i == index_of(stat_names(stats_model(table@)), name@, 0),
        i <= table.len(),
{
    let ghost names = stat_names(stats_model(table@));
    let mut i: usize = 0;
    while i < table.len()
        invariant
            i <= table.len(),
            names == stat_names(stats_model(table@)),
            index_of(names, name@, i as int) == index_of(names, name@, 0),
        decreases table.len() - i,
    {
        assert(names[i as int] == table@[i as int].0@);
        if same_text(table[i].0.as_str(), name) {
            return i;
        }
        i += 1;
    }
    i
}

impl WorkflowManager {
    /// No two stored workflows have the same name, every stored workflow is
    /// valid, and no name has statistics twice. This holds of an empty store,
    /// and every change to a store of which it holds leaves it so.
    pub open spec fn well_formed(&self) -> bool {
        &&& distinct(names_of(self.workflows()))
        &&& all_valid(self.workflows())
        &&& distinct(stat_names(self.stats()))
    }

    /// The stored workflows, in the order in which they came in.
    pub closed spec fn workflows(&self) -> Seq<WorkflowModel> {
        workflow_models(self.workflows@)
    }

    /// The usage statistics, by workflow name.
    pub closed spec fn stats(&self) -> StatsModel {
        stats_model(self.usage_stats@)
    }

    /// The directory that holds the definitions.
    pub closed spec fn directory(&self) -> Seq<char> {
        self.workflows_dir@
    }

    /// An empty store for the definitions in `workflows_dir`.
    pub fn new(workflows_dir: String) -> (manager: Self)
        ensures
            manager.workflows() == Seq::<WorkflowModel>::empty(),
            manager.stats() == Seq::<(Seq<char>, WorkflowUsageStats)>::empty(),
            manager.directory() == workflows_dir@,
            manager.well_formed(),
    {
        let manager = WorkflowManager {
            workflows: Vec::new(),
            workflows_dir,
            usage_stats: Vec::new(),
        };
        assert(manager.workflows() =~= Seq::<WorkflowModel>::empty());
        assert(manager.stats() =~= Seq::<(Seq<char>, WorkflowUsageStats)>::empty());
        manager
    }

    /// The directory that holds the definitions.
    pub fn workflows_dir(&self) -> (dir: &String)
        ensures
            dir@ == self.directory(),
    {
        &self.workflows_dir
    }

    /// The workflow of this name, where there is one.
    pub fn get_workflow(&self, name: &str) -> (w: Option<&Workflow>)
        ensures
            match w {
                Some(workflow) => found(self.workflows(), name@) == Some(workflow@),
                None => found(self.workflows(), name@) is None,
            },
    {
        let i = position_of(&self.workflows, name);
        if i < self.workflows.len() {
            Some(&self.workflows[i])
        } else {
            None
        }
    }

    /// The number of stored workflows.
    pub fn len(&self) -> (n: usize)
        ensures
            n == self.workflows().len(),
    {
        self.workflows.len()
    }

    /// The usage statistics of the workflow of this name, where it has any.
    pub fn get_usage_stats(&self, name: &str) -> (stats: Option<WorkflowUsageStats>)
        ensures
            stats == stats_for(self.stats(), name@),
    {
        let i = stats_position_of(&self.usage_stats, name);
        if i < self.usage_stats.len() {
            Some(self.usage_stats[i].1)
        } else {
            None
        }
    }

    /// Stores a workflow that is valid, in the place of the workflow of the
    /// same name where there is one, and refuses one that is not, leaving
    /// the store as it was.
    pub fn add_workflow(&mut self, workflow: Workflow) -> (r: Result<(), WorkflowError>)
        ensures
            r is Ok <==> is_valid(workflow@),
            final(self).stats() == old(self).stats(),
            final(self).directory() == old(self).directory(),
            old(self).well_formed() ==> final(self).well_formed(),
            all_carry_usage(old(self).workflows(), old(self).stats()) && carries_usage(
                workflow@,
                old(self).stats(),
            ) ==> all_carry_usage(final(self).workflows(), final(self).stats()),
            r is Ok ==> found(final(self).workflows(), workflow@.name) == Some(workflow@),
            match r {
                Ok(_) => final(self).workflows() == stored(old(self).workflows(), workflow@),
                Err(e) => final(self).workflows() == old(self).workflows() && e@
                    == ErrorModel::ValidationError(validation_fault(workflow@)->0),
            },
    {
        match workflow.validate() {
            Err(e) => {
                return Err(e);
            },
            Ok(_) => {},
        }
        proof {
            lemma_stored(self.workflows(), workflow@);
        }
        self.store(workflow);
        Ok(())
    }

    /// Stores a valid workflow in the place of the workflow of the same name,
    /// or at the end where there is none.
    fn store(&mut self, workflow: Workflow)
        requires
            is_valid(workflow@),
        ensures
            final(self).workflows() == stored(old(self).workflows(), workflow@),
            final(self).stats() == old(self).stats(),
            final(self).directory() == old(self).directory(),
            old(self).well_formed() ==> final(self).well_formed(),
            found(final(self).workflows(), workflow@.name) == Some(workflow@),
    {
        proof {
            lemma_stored(self.workflows(), workflow@);
        }
        let i = position_of(&self.workflows, workflow.name.as_str());
        let ghost before = self.workflows();
        if i < self.workflows.len() {
            self.workflows[i] = workflow;
            assert(self.workflows() =~= before.update(i as int, workflow@));
        } else {
            self.workflows.push(workflow);
            assert(self.workflows() =~= before.push(workflow@));
        }
    }

    /// Takes the workflow of this name and its usage statistics out of the
    /// store and hands the workflow out.
    pub fn remove_workflow(&mut self, name: &str) -> (gone: Option<Workflow>)
        ensures
            final(self).directory() == old(self).directory(),
            old(self).well_formed() ==> final(self).well_formed(),
            old(self).well_formed() && all_carry_usage(old(self).workflows(), old(self).stats())
                ==> all_carry_usage(final(self).workflows(), final(self).stats()),
            match gone {
                Some(w) => {
                    &&& found(old(self).workflows(), name@) == Some(w@)
                    &&& final(self).workflows() == without(old(self).workflows(), name@)
                    &&& final(self).stats() == without_stats(old(self).stats(), name@)
                    &&& old(self).well_formed() ==> found(final(self).workflows(), name@) is None
                        && stats_for(final(self).stats(), name@) is None
                },
                None => {
                    &&& found(old(self).workflows(), name@) is None
                    &&& final(self).workflows() == old(self).workflows()
                    &&& final(self).stats() == old(self).stats()
                },
            },
    {
        proof {
            if self.well_formed() {
                lemma_removed_distinct(names_of(self.workflows()), name@);
                lemma_removed_distinct(stat_names(self.stats()), name@);
                if all_carry_usage(self.workflows(), self.stats()) {
                    lemma_removing_keeps_usage(self.workflows(), self.stats(), name@);
                }
            }
        }
        let i = position_of(&self.workflows, name);
        if i >= self.workflows.len() {
            return None;
        }
        let ghost before = self.workflows();
        let ghost table = self.stats();
        let gone = self.workflows.remove(i);
        assert(self.workflows() =~= before.remove(i as int));
        assert(names_of(self.workflows()) =~= names_of(before).remove(i as int));
        assert(all_valid(before) ==> all_valid(before.remove(i as int))) by {
            if all_valid(before) {
                assert forall|k: int| 0 <= k < before.len() - 1 implies is_valid(
                    #[trigger] before.remove(i as int)[k],
                ) by {
                    if k < i {
                        assert(is_valid(before[k]));
                    } else {
                        assert(is_valid(before[k + 1]));
                    }
                }
            }
        }
        let k = stats_position_of(&self.usage_stats, name);
        if k < self.usage_stats.len() {
            self.usage_stats.remove(k);
            assert(self.stats() =~= table.remove(k as int));
            assert(stat_names(self.stats()) =~= stat_names(table).remove(k as int));
        } else {
            proof {
                lemma_index_of(stat_names(table), name@, 0);
            }
        }
        Some(gone)
    }

    /// Sets the statistics of a name, in the place of those it had or at the
    /// end of the table.
    fn set_stats(&mut self, name: &str, stats: WorkflowUsageStats)
        ensures
            final(self).stats() == with_stats(old(self).stats(), name@, stats),
            final(self).workflows() == old(self).workflows(),
            final(self).directory() == old(self).directory(),
            old(self).well_formed() ==> final(self).well_formed(),
    {
        proof {
            lemma_with_stats(self.stats(), name@, stats);
        }
        let ghost before = self.stats();
        let i = stats_position_of(&self.usage_stats, name);
        if i < self.usage_stats.len() {
            self.usage_stats[i] = (owned(name), stats);
            assert(self.stats() =~= before.update(i as int, (name@, stats)));
        } else {
            self.usage_stats.push((owned(name), stats));
            assert(self.stats() =~= before.push((name@, stats)));
        }
    }

    /// Gives every stored workflow the count and the time of its last use
    /// that the table of usage statistics holds for it.
    fn refresh_usage(&mut self)
        ensures
            final(self).workflows() == refreshed(old(self).workflows(), old(self).stats()),
            final(self).stats() == old(self).stats(),
            final(self).directory() == old(self).directory(),
            all_carry_usage(final(self).workflows(), final(self).stats()),
            old(self).well_formed() ==> final(self).well_formed(),
    {
        let ghost before = self.workflows();
        let ghost table = self.stats();
        let mut k: usize = 0;
        while k < self.workflows.len()
            invariant
                k <= self.workflows.len(),
                self.workflows.len() == before.len(),
                self.stats() == table,
                self.directory() == old(self).directory(),
                forall|j: int|
                    0 <= j < k ==> self.workflows()[j] == with_usage_only(before[j], table),
                forall|j: int| k <= j < before.len() ==> self.workflows()[j] == before[j],
            decreases self.workflows.len() - k,
        {
            let ghost now = self.workflows();
            let stats = self.get_usage_stats(self.workflows[k].name.as_str());
            match stats {
                Some(found) => {
                    self.workflows[k].usage_count = found.usage_count;
                    self.workflows[k].last_used = Some(found.last_used);
                },
                None => {
                    self.workflows[k].usage_count = 0;
                    self.workflows[k].last_used = None;
                },
            }
            assert(self.workflows() =~= now.update(
                k as int,
                with_usage_only(before[k as int], table),
            ));
            k += 1;
        }
        assert(self.workflows() =~= refreshed(before, table));
        assert(names_of(self.workflows()) =~= names_of(before));
        assert(all_valid(before) ==> all_valid(self.workflows())) by {
            if all_valid(before) {
                assert forall|j: int| 0 <= j < before.len() implies is_valid(
                    #[trigger] self.workflows()[j],
                ) by {
                    assert(is_valid(before[j]));
                }
            }
        }
    }

    /// Puts a table of usage statistics in the place of the one there is and
    /// gives every stored workflow the count and the time of its last use
    /// that the new table holds for it; a workflow without statistics counts
    /// as never used. Where a name stands in `entries` more than once, its
    /// last entry counts.
    pub fn load_usage_stats(&mut self, entries: &Vec<(String, WorkflowUsageStats)>)
        ensures
            final(self).stats() == table_from(stats_model(entries@), 0, Seq::empty()),
            final(self).workflows() == refreshed(old(self).workflows(), final(self).stats()),
            all_carry_usage(final(self).workflows(), final(self).stats()),
            final(self).directory() == old(self).directory(),
            distinct(stat_names(final(self).stats())),
            old(self).well_formed() ==> final(self).well_formed(),
    {
        self.usage_stats = Vec::new();
        assert(self.stats() =~= Seq::<(Seq<char>, WorkflowUsageStats)>::empty());
        let mut i: usize = 0;
        while i < entries.len()
            invariant
                i <= entries.len(),
                self.workflows() == old(self).workflows(),
                self.directory() == old(self).directory(),
                distinct(stat_names(self.stats())),
                table_from(stats_model(entries@), i as int, self.stats()) == table_from(
                    stats_model(entries@),
                    0,
                    Seq::empty(),
                ),
            decreases entries.len() - i,
        {
            proof {
                lemma_with_stats(self.stats(), entries@[i as int].0@, entries@[i as int].1);
            }
            self.set_stats(entries[i].0.as_str(), entries[i].1);
            i += 1;
        }
        self.refresh_usage();
    }

    /// The table of usage statistics, for keeping.
    pub fn usage_stats(&self) -> (table: &Vec<(String, WorkflowUsageStats)>)
        ensures
            stats_model(table@) == self.stats(),
    {
        &self.usage_stats
    }

    /// Empties the store and takes in the candidates in their order: each
    /// valid one is stored under its name with its usage merged in, so that
    /// of two valid candidates of one name the later one stays. An invalid
    /// candidate is passed over, and its position is handed back.
    pub fn load_workflows(&mut self, candidates: &Vec<Workflow>) -> (skipped: Vec<usize>)
        ensures
            final(self).workflows() == loaded_from(
                workflow_models(candidates@),
                old(self).stats(),
                0,
                Seq::empty(),
            ),
            positions(skipped@) == skipped_from(workflow_models(candidates@), 0),
            final(self).stats() == old(self).stats(),
            final(self).directory() == old(self).directory(),
            distinct(names_of(final(self).workflows())),
            all_valid(final(self).workflows()),
            all_carry_usage(final(self).workflows(), final(self).stats()),
            old(self).well_formed() ==> final(self).well_formed(),
    {
        let ghost all = workflow_models(candidates@);
        let ghost table = self.stats();
        self.workflows = Vec::new();
        assert(self.workflows() =~= Seq::<WorkflowModel>::empty());
        let mut skipped: Vec<usize> = Vec::new();
        let mut i: usize = 0;
        while i < candidates.len()
            invariant
                i <= candidates.len(),
                all == workflow_models(candidates@),
                table == old(self).stats(),
                self.stats() == table,
                self.directory() == old(self).directory(),
                distinct(names_of(self.workflows())),
                all_valid(self.workflows()),
                all_carry_usage(self.workflows(), table),
                loaded_from(all, table, i as int, self.workflows()) == loaded_from(
                    all,
                    table,
                    0,
                    Seq::empty(),
                ),
                positions(skipped@) + skipped_from(all, i as int) == skipped_from(all, 0),
            decreases candidates.len() - i,
        {
            let ghost before = positions(skipped@);
            let ghost rest = skipped_from(all, i + 1);
            assert(candidates@[i as int]@ == all[i as int]);
            match candidates[i].validate() {
                Ok(_) => {
                    let mut workflow = candidates[i].clone();
                    match self.get_usage_stats(workflow.name.as_str()) {
                        Some(stats) => {
                            workflow.usage_count = stats.usage_count;
                            workflow.last_used = Some(stats.last_used);
                        },
                        None => {},
                    }
                    assert(workflow@ == with_usage(all[i as int], table));
                    proof {
                        lemma_stored(self.workflows(), workflow@);
                    }
                    self.store(workflow);
                },
                Err(_) => {
                    skipped.push(i);
                    assert(positions(skipped@) =~= before.push(i as int));
                    assert(before.push(i as int) + rest =~= before + (seq![i as int] + rest));
                },
            }
            i += 1;
        }
        assert(positions(skipped@) + Seq::<int>::empty() =~= positions(skipped@));
        skipped
    }

    /// Counts one more run of the workflow `workflow_name` at `now`: its
    /// statistics are made where it had none, the run is counted in them,
    /// and the stored workflow of this name, where there is one, takes the
    /// new count and `now` as the time of its last use. The new statistics
    /// are handed back.
    pub fn record_usage(
        &mut self,
        workflow_name: &str,
        now: Timestamp,
        execution_time: Option<TimeSpan>,
    ) -> (stats: WorkflowUsageStats)
        ensures
            stats == usage_after(old(self).stats(), workflow_name@, now, execution_time),
            final(self).stats() == with_stats(old(self).stats(), workflow_name@, stats),
            final(self).workflows() == with_count(old(self).workflows(), workflow_name@, stats),
            final(self).directory() == old(self).directory(),
            stats_for(final(self).stats(), workflow_name@) == Some(stats),
            old(self).well_formed() ==> final(self).well_formed(),
            old(self).well_formed() && all_carry_usage(old(self).workflows(), old(self).stats())
                ==> all_carry_usage(final(self).workflows(), final(self).stats()),
            stats_for(old(self).stats(), workflow_name@) matches Some(was) ==> stats.usage_count
                >= was.usage_count,
    {
        let mut stats = match self.get_usage_stats(workflow_name) {
            Some(stats) => stats,
            None => WorkflowUsageStats::new(now),
        };
        stats.record(now, execution_time);
        proof {
            lemma_with_stats(self.stats(), workflow_name@, stats);
            lemma_with_count(self.workflows(), workflow_name@, stats);
            if self.well_formed() && all_carry_usage(self.workflows(), self.stats()) {
                lemma_counting_keeps_usage(
                    self.workflows(),
                    self.stats(),
                    workflow_name@,
                    stats,
                );
            }
        }
        self.set_stats(workflow_name, stats);
        let ghost before = self.workflows();
        let i = position_of(&self.workflows, workflow_name);
        if i < self.workflows.len() {
            self.workflows[i].usage_count = stats.usage_count;
            self.workflows[i].last_used = Some(stats.last_used);
            assert(self.workflows() =~= with_count(before, workflow_name@, stats));
        }
        stats
    }

    /// Copies of the workflows at the given positions, at most `limit` of
    /// them.
    fn copies(&self, order: &Vec<usize>, limit: usize) -> (out: Vec<Workflow>)
        requires
            forall|k: int| 0 <= k < order.len() ==> #[trigger] order@[k] < self.workflows().len(),
        ensures
            workflow_models(out@) == first_of(
                chosen(self.workflows(), positions(order@)),
                limit as nat,
            ),
    {
        let n: usize = if limit < order.len() {
            limit
        } else {
            order.len()
        };
        let mut out: Vec<Workflow> = Vec::new();
        let mut k: usize = 0;
        while k < n
            invariant
                k <= n <= order.len(),
                forall|j: int|
                    0 <= j < order.len() ==> #[trigger] order@[j] < self.workflows().len(),
                out.len() == k,
                forall|j: int| 0 <= j < k ==> out@[j]@ == self.workflows()[order@[j] as int],
            decreases n - k,
        {
            out.push(self.workflows[order[k]].clone());
            k += 1;
        }
        assert(workflow_models(out@) =~= first_of(
            chosen(self.workflows(), positions(order@)),
            limit as nat,
        ));
        out
    }

    /// All workflows that the filter lets pass, the most used first and
    /// among equally used ones the last used first; workflows that are equal
    /// in both stand in the order in which they are stored.
    pub fn get_all_workflows(&self, shell: Option<&Shell>) -> (results: Vec<WorkflowSearchResult>)
        ensures
            result_models(results@) == all_results(self.workflows(), filter_of(shell)),
    {
        let order = list(&self.workflows, &Selection::All, shell);
        let mut results: Vec<WorkflowSearchResult> = Vec::new();
        let mut k: usize = 0;
        while k < order.len()
            invariant
                k <= order.len(),
                forall|j: int|
                    0 <= j < order.len() ==> #[trigger] order@[j] < self.workflows().len(),
                results.len() == k,
                forall|j: int|
                    0 <= j < k ==> results@[j]@ == entry(self.workflows()[order@[j] as int]),
            decreases order.len() - k,
        {
            let workflow = self.workflows[order[k]].clone();
            let score = SearchScore { points: workflow.usage_count as u128, usage: 0 };
            let matched_fields: Vec<String> = Vec::new();
            assert(texts(matched_fields@) =~= Seq::<Seq<char>>::empty());
            results.push(WorkflowSearchResult { workflow, score, matched_fields });
            k += 1;
        }
        assert(result_models(results@) =~= all_results(self.workflows(), filter_of(shell)));
        results
    }

    /// The names of the fields of a workflow that hold the query, whatever
    /// the case of the letters: `name`, `tags`, `description`, `command`.
    pub fn get_matched_fields(&self, workflow: &Workflow, query: &str) -> (fields: Vec<String>)
        ensures
            texts(fields@) == search_text_of(workflow@).matched_fields(lowercase(query@)),
    {
        let lowered = to_lowercase(query);
        workflow.search_text().matched_fields(lowered.as_str())
    }

    /// What a search shows: for an empty query all workflows, and for any
    /// other the workflows that the filter lets pass and of which some field
    /// holds the query, the highest score first.
    pub fn search_workflows(
        &self,
        query: &str,
        shell: Option<&Shell>,
    ) -> (results: Vec<WorkflowSearchResult>)
        ensures
            result_models(results@) == search_results(self.workflows(), query@, filter_of(shell)),
    {
        if query.is_empty() {
            return self.get_all_workflows(shell);
        }
        let order = list(&self.workflows, &Selection::Search(query), shell);
        let mut results: Vec<WorkflowSearchResult> = Vec::new();
        let mut k: usize = 0;
        while k < order.len()
            invariant
                k <= order.len(),
                forall|j: int|
                    0 <= j < order.len() ==> #[trigger] order@[j] < self.workflows().len(),
                results.len() == k,
                forall|j: int|
                    0 <= j < k ==> results@[j]@ == hit(self.workflows()[order@[j] as int], query@),
            decreases order.len() - k,
        {
            let workflow = self.workflows[order[k]].clone();
            let score = workflow.calculate_search_score(query);
            let matched_fields = self.get_matched_fields(&workflow, query);
            results.push(WorkflowSearchResult { workflow, score, matched_fields });
            k += 1;
        }
        assert(result_models(results@) =~= search_results(
            self.workflows(),
            query@,
            filter_of(shell),
        ));
        results
    }

    /// The workflows of a category that the filter lets pass, in the order
    /// in which they are stored.
    pub fn get_workflows_by_category(
        &self,
        category: &WorkflowCategory,
        shell: Option<&Shell>,
    ) -> (out: Vec<Workflow>)
        ensures
            workflow_models(out@) == chosen(
                self.workflows(),
                listed(self.workflows(), SelectionModel::Category(*category), filter_of(shell)),
            ),
    {
        let order = list(&self.workflows, &Selection::Category(*category), shell);
        self.copies(&order, order.len())
    }

    /// The most used workflows that the filter lets pass, at most `limit` of
    /// them; equally used ones stand in the order in which they are stored.
    pub fn get_popular_workflows(&self, limit: usize, shell: Option<&Shell>) -> (out: Vec<Workflow>)
        ensures
            workflow_models(out@) == first_of(
                chosen(
                    self.workflows(),
                    listed(self.workflows(), SelectionModel::Popular, filter_of(shell)),
                ),
                limit as nat,
            ),
    {
        let order = list(&self.workflows, &Selection::Popular, shell);
        self.copies(&order, limit)
    }

    /// The workflows last used that the filter lets pass, at most `limit` of
    /// them, the latest first; a workflow that was never used is left out.
    pub fn get_recent_workflows(&self, limit: usize, shell: Option<&Shell>) -> (out: Vec<Workflow>)
        ensures
            workflow_models(out@) == first_of(
                chosen(
                    self.workflows(),
                    listed(self.workflows(), SelectionModel::Recent, filter_of(shell)),
                ),
                limit as nat,
            ),
    {
        let order = list(&self.workflows, &Selection::Recent, shell);
        self.copies(&order, limit)
    }

    /// The categories of the stored workflows, each once, in the order in
    /// which they first occur.
    pub fn get_categories(&self) -> (seen: Vec<WorkflowCategory>)
        ensures
            seen@ == categories_from(self.workflows(), 0, Seq::empty()),
    {
        let mut seen: Vec<WorkflowCategory> = Vec::new();
        let mut i: usize = 0;
        while i < self.workflows.len()
            invariant
                i <= self.workflows.len(),
                categories_from(self.workflows(), i as int, seen@) == categories_from(
                    self.workflows(),
                    0,
                    Seq::empty(),
                ),
            decreases self.workflows.len() - i,
        {
            let category = self.workflows[i].get_category();
            let mut known = false;
            let mut k: usize = 0;
            while k < seen.len()
                invariant
                    k <= seen.len(),
                    known <==> exists|j: int| 0 <= j < k && seen@[j] == category,
                decreases seen.len() - k,
            {
                if seen[k] == category {
                    known = true;
                }
                k += 1;
            }
            assert(known == seen@.contains(category));
            if !known {
                seen.push(category);
            }
            i += 1;
        }
        seen
    }

    /// The workflow of this name, to be written out, or `WorkflowNotFound`
    /// with the name where there is none.
    pub fn export_workflow(&self, name: &str) -> (r: Result<&Workflow, WorkflowError>)
        ensures
            match r {
                Ok(workflow) => found(self.workflows(), name@) == Some(workflow@),
                Err(e) => found(self.workflows(), name@) is None && e@
                    == ErrorModel::WorkflowNotFound(name@),
            },
    {
        match self.get_workflow(name) {
            Some(workflow) => Ok(workflow),
            None => Err(WorkflowError::WorkflowNotFound(owned(name))),
        }
    }

    /// The name of the file that holds the definition of a workflow: its
    /// name with an underscore in the place of each of the characters
    /// `/ \ : * ? " < > |`, and `.yaml`.
    pub fn definition_file_for(&self, workflow: &Workflow) -> (file_name: String)
        ensures
            file_name@ == definition_file(workflow@.name),
    {
        definition_file_name(workflow.name.as_str())
    }
}

/// A name with an underscore in the place of each of the characters
/// `/ \ : * ? " < > |`.
pub fn sanitize_filename(name: &str) -> (out: String)
    ensures
        out@ == sanitized(name@),
{
    crate::files::sanitize_filename(name)
}

} // verus!
