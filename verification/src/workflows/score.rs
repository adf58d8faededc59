//! How well a workflow answers a search.
//!
//! A score is the number `points + log10(usage)`, where the points come from
//! the fields that hold the query and `usage` counts how often the workflow
//! was run, a count of zero adding nothing. The two parts are kept as
//! integers, and two scores are compared exactly, by comparing
//! `10^points * usage`.

use vstd::prelude::*;
use crate::outside::{lowercase, to_lowercase};
use crate::text::{contains, contains_text, occurs_at, opt_text, owned, same_text, texts};
use crate::workflows::{Workflow, WorkflowModel};

verus! {

/// Ten to the power of `e`.
pub open spec fn pow10(e: nat) -> nat
    decreases e,
{
    if e == 0 {
        1
    } else {
        10 * pow10((e - 1) as nat)
    }
}

/// `10^(a + b) == 10^a * 10^b`, and powers of ten are positive.
pub proof fn lemma_pow10_adds(a: nat, b: nat)
    ensures
        pow10(a + b) == pow10(a) * pow10(b),
        pow10(a) >= 1,
    decreases a,
{
    if a == 0 {
        assert(pow10(0 + b) == 1 * pow10(b));
    } else {
        lemma_pow10_adds((a - 1) as nat, b);
        assert(pow10(a + b) == 10 * pow10((a + b - 1) as nat));
        assert((a - 1) as nat + b == (a + b - 1) as nat);
        assert(10 * (pow10((a - 1) as nat) * pow10(b)) == (10 * pow10((a - 1) as nat)) * pow10(b))
            by (nonlinear_arith);
    }
}

/// Powers of ten grow with the exponent.
pub proof fn lemma_pow10_grows(a: nat, b: nat)
    requires
        a <= b,
    ensures
        pow10(a) <= pow10(b),
{
    lemma_pow10_adds(a, (b - a) as nat);
    lemma_pow10_adds((b - a) as nat, 0);
    assert(pow10(a) * 1 <= pow10(a) * pow10((b - a) as nat)) by (nonlinear_arith)
        requires
            pow10((b - a) as nat) >= 1,
            pow10(a) >= 1,
    ;
    assert(a + (b - a) as nat == b);
}

/// The score of a workflow for a query.
#[derive(Debug, Clone, Copy, PartialEq, Eq, Structural)]
pub struct SearchScore {
    /// What the matching fields add up to.
    pub points: u128,
    /// How often the workflow was run.
    pub usage: u32,
}

impl SearchScore {
    /// Ten to the power of the score: `10^points * usage`, with a usage of
    /// zero counted as one.
    pub open spec fn weight(self) -> nat {
        pow10(self.points as nat) * (if self.usage == 0 {
            1nat
        } else {
            self.usage as nat
        })
    }

    /// `self` is the higher score.
    pub open spec fn outranks(self, other: SearchScore) -> bool {
        self.weight() > other.weight()
    }

    /// Some field held the query.
    pub open spec fn matched(self) -> bool {
        self.points > 0
    }

    /// Whether some field held the query.
    pub fn is_match(&self) -> (r: bool)
        ensures
            r == self.matched(),
    {
        self.points > 0
    }

    /// Whether `self` is the higher score.
    pub fn is_above(&self, other: &SearchScore) -> (r: bool)
        ensures
            r == self.outranks(*other),
    {
        let mine: u64 = if self.usage == 0 {
            1
        } else {
            self.usage as u64
        };
        let theirs: u64 = if other.usage == 0 {
            1
        } else {
            other.usage as u64
        };
        if self.points >= other.points {
            let d: u128 = self.points - other.points;
            proof {
                lemma_pow10_adds(other.points as nat, d as nat);
            }
            if d >= 10 {
                proof {
                    lemma_pow10_grows(10, d as nat);
                    lemma_ten_to_the_tenth();
                    assert(pow10(other.points as nat) * (pow10(d as nat) * mine) > pow10(
                        other.points as nat,
                    ) * theirs) by (nonlinear_arith)
                        requires
                            pow10(other.points as nat) >= 1,
                            pow10(d as nat) >= 10_000_000_000,
                            mine >= 1,
                            theirs < 10_000_000_000,
                    ;
                    assert(pow10(other.points as nat) * (pow10(d as nat) * mine) == (pow10(
                        other.points as nat,
                    ) * pow10(d as nat)) * mine) by (nonlinear_arith);
                }
                true
            } else {
                let scale = power_of_ten(d as u32);
                proof {
                    let base = pow10(other.points as nat);
                    assert((base * scale) * mine == base * (scale * mine)) by (nonlinear_arith);
                    assert((base * (scale * mine) > base * theirs) == (scale * mine > theirs))
                        by (nonlinear_arith)
                        requires
                            base >= 1,
                    ;
                    assert(scale * mine <= 1_000_000_000 * 4_294_967_295) by (nonlinear_arith)
                        requires
                            scale <= 1_000_000_000,
                            mine <= 4_294_967_295,
                    ;
                }
                scale * mine > theirs
            }
        } else {
            let d: u128 = other.points - self.points;
            proof {
                lemma_pow10_adds(self.points as nat, d as nat);
            }
            if d >= 10 {
                proof {
                    lemma_pow10_grows(10, d as nat);
                    lemma_ten_to_the_tenth();
                    assert(pow10(self.points as nat) * (pow10(d as nat) * theirs) > pow10(
                        self.points as nat,
                    ) * mine) by (nonlinear_arith)
                        requires
                            pow10(self.points as nat) >= 1,
                            pow10(d as nat) >= 10_000_000_000,
                            theirs >= 1,
                            mine < 10_000_000_000,
                    ;
                    assert(pow10(self.points as nat) * (pow10(d as nat) * theirs) == (pow10(
                        self.points as nat,
                    ) * pow10(d as nat)) * theirs) by (nonlinear_arith);
                }
                false
            } else {
                let scale = power_of_ten(d as u32);
                proof {
                    let base = pow10(self.points as nat);
                    assert((base * scale) * theirs == base * (scale * theirs))
                        by (nonlinear_arith);
                    assert((base * mine > base * (scale * theirs)) == (mine > scale * theirs))
                        by (nonlinear_arith)
                        requires
                            base >= 1,
                    ;
                    assert(scale * theirs <= 1_000_000_000 * 4_294_967_295) by (nonlinear_arith)
                        requires
                            scale <= 1_000_000_000,
                            theirs <= 4_294_967_295,
                    ;
                }
                mine > scale * theirs
            }
        }
    }
}

/// `10^10` is ten thousand million.
pub proof fn lemma_ten_to_the_tenth()
    ensures
        pow10(10) == 10_000_000_000,
{
    reveal_with_fuel(pow10, 11);
}

/// Ten to the power of `e`, for an exponent below ten.
fn power_of_ten(e: u32) -> (r: u64)
    requires
        e < 10,
    ensures
        r == pow10(e as nat),
        1 <= r <= 1_000_000_000,
{
    let mut r: u64 = 1;
    let mut k: u32 = 0;
    proof {
        reveal_with_fuel(pow10, 10);
        assert(pow10(9) == 1_000_000_000);
        lemma_pow10_grows(0, 9);
    }
    while k < e
        invariant
            k <= e < 10,
            r == pow10(k as nat),
            1 <= r <= 1_000_000_000,
            pow10(9) == 1_000_000_000,
        decreases e - k,
    {
        proof {
            lemma_pow10_grows((k + 1) as nat, 9);
        }
        r = r * 10;
        k += 1;
    }
    r
}

/// The fields of a workflow that a search reads, in lower case.
#[derive(Debug)]
pub struct SearchText {
    pub name: String,
    pub tags: Vec<String>,
    pub description: Option<String>,
    pub command: String,
    pub author: Option<String>,
}

/// What a `SearchText` holds, as mathematical values.
pub struct SearchTextModel {
    pub name: Seq<char>,
    pub tags: Seq<Seq<char>>,
    pub description: Option<Seq<char>>,
    pub command: Seq<char>,
    pub author: Option<Seq<char>>,
}

impl View for SearchText {
    type V = SearchTextModel;

    open spec fn view(&self) -> SearchTextModel {
        SearchTextModel {
            name: self.name@,
            tags: texts(self.tags@),
            description: opt_text(self.description),
            command: self.command@,
            author: opt_text(self.author),
        }
    }
}

/// The lower-case form of an optional text.
pub open spec fn lowercase_opt(o: Option<Seq<char>>) -> Option<Seq<char>> {
    match o {
        Some(t) => Some(lowercase(t)),
        None => None,
    }
}

/// The searched fields of a workflow, in lower case.
pub open spec fn search_text_of(w: WorkflowModel) -> SearchTextModel {
    SearchTextModel {
        name: lowercase(w.name),
        tags: w.tags.map_values(|t: Seq<char>| lowercase(t)),
        description: lowercase_opt(w.description),
        command: lowercase(w.command),
        author: lowercase_opt(w.author),
    }
}

/// What a field adds: `hit` where it holds the query, and `exact` on top
/// where it is the query.
pub open spec fn field_points(field: Seq<char>, query: Seq<char>, hit: nat, exact: nat) -> nat {
    if contains(field, query) {
        if field == query {
            hit + exact
        } else {
            hit
        }
    } else {
        0
    }
}

/// What an optional field adds: `hit` where it is there and holds the query.
pub open spec fn optional_points(field: Option<Seq<char>>, query: Seq<char>, hit: nat) -> nat {
    match field {
        Some(f) => field_points(f, query, hit, 0),
        None => 0,
    }
}

/// What the tags from position `i` on add: 8 for each that holds the query,
/// and 12 on top for each that is the query.
pub open spec fn tag_points(tags: Seq<Seq<char>>, query: Seq<char>, i: int) -> nat
    decreases tags.len() - i,
{
    if i < 0 || i >= tags.len() {
        0
    } else {
        field_points(tags[i], query, 8, 12) + tag_points(tags, query, i + 1)
    }
}

impl SearchTextModel {
    /// The points of these fields for a lower-case query. Every rule counts,
    /// and what they give is added up: the name 10, and 20 more where it is
    /// the query; each tag 8, and 12 more; the description 5; the command 3;
    /// the author 2.
    pub open spec fn points(self, query: Seq<char>) -> nat {
        field_points(self.name, query, 10, 20) + tag_points(self.tags, query, 0) + optional_points(
            self.description,
            query,
            5,
        ) + field_points(self.command, query, 3, 0) + optional_points(self.author, query, 2)
    }

    /// Some tag holds the query.
    pub open spec fn tag_matches(self, query: Seq<char>) -> bool {
        exists|i: int| 0 <= i < self.tags.len() && contains(#[trigger] self.tags[i], query)
    }

    /// The names of the fields that hold a lower-case query, among `name`,
    /// `tags`, `description` and `command`, in this order.
    pub open spec fn matched_fields(self, query: Seq<char>) -> Seq<Seq<char>> {
        (if contains(self.name, query) {
            seq!["name"@]
        } else {
            Seq::empty()
        }) + (if self.tag_matches(query) {
            seq!["tags"@]
        } else {
            Seq::empty()
        }) + (if self.description is Some && contains(self.description->0, query) {
            seq!["description"@]
        } else {
            Seq::empty()
        }) + (if contains(self.command, query) {
            seq!["command"@]
        } else {
            Seq::empty()
        })
    }
}

/// The tags from `i` on add at most 20 points each.
pub proof fn lemma_tag_points_bound(tags: Seq<Seq<char>>, query: Seq<char>, i: int)
    requires
        0 <= i <= tags.len(),
    ensures
        tag_points(tags, query, i) <= 20 * (tags.len() - i),
    decreases tags.len() - i,
{
    if i < tags.len() {
        lemma_tag_points_bound(tags, query, i + 1);
    }
}

/// The score of a workflow for a query: the points of its lower-case fields
/// for the lower-case query, and its usage count.
pub open spec fn score_of(w: WorkflowModel, query: Seq<char>) -> SearchScore {
    SearchScore {
        points: search_text_of(w).points(lowercase(query)) as u128,
        usage: w.usage_count,
    }
}

/// What a field adds where it holds the query.
fn points_of_field(field: &str, query: &str, hit: u128, exact: u128) -> (r: u128)
    requires
        hit + exact <= 100,
    ensures
        r == field_points(field@, query@, hit as nat, exact as nat),
{
    if contains_text(field, query) {
        if same_text(field, query) {
            hit + exact
        } else {
            hit
        }
    } else {
        0
    }
}

/// What an optional field adds where it holds the query.
fn points_of_optional(field: &Option<String>, query: &str, hit: u128) -> (r: u128)
    requires
        hit <= 100,
    ensures
        r == optional_points(opt_text(*field), query@, hit as nat),
{
    match field {
        Some(f) => points_of_field(f.as_str(), query, hit, 0),
        None => 0,
    }
}

impl SearchText {
    /// The points of these fields for a lower-case query.
    pub fn points(&self, query: &str) -> (r: u128)
        ensures
            r == self@.points(query@),
    {
        let mut total: u128 = points_of_field(self.name.as_str(), query, 10, 20);
        let mut i: usize = 0;
        while i < self.tags.len()
            invariant
                i <= self.tags.len(),
                total <= 30 + 20 * i,
                total + tag_points(self@.tags, query@, i as int) == field_points(
                    self@.name,
                    query@,
                    10,
                    20,
                ) + tag_points(self@.tags, query@, 0),
            decreases self.tags.len() - i,
        {
            let more = points_of_field(self.tags[i].as_str(), query, 8, 12);
            total = total + more;
            i += 1;
        }
        total = total + points_of_optional(&self.description, query, 5);
        total = total + points_of_field(self.command.as_str(), query, 3, 0);
        total = total + points_of_optional(&self.author, query, 2);
        total
    }

    /// The names of the fields that hold a lower-case query.
    pub fn matched_fields(&self, query: &str) -> (fields: Vec<String>)
        ensures
            texts(fields@) == self@.matched_fields(query@),
    {
        let mut fields: Vec<String> = Vec::new();
        if contains_text(self.name.as_str(), query) {
            fields.push(owned("name"));
        }
        let ghost after_name = texts(fields@);
        let mut i: usize = 0;
        let mut tag_found = false;
        while i < self.tags.len() && !tag_found
            invariant
                i <= self.tags.len(),
                tag_found ==> self@.tag_matches(query@),
                !tag_found ==> forall|j: int| 0 <= j < i ==> !contains(self@.tags[j], query@),
            decreases self.tags.len() - i + (if tag_found { 0int } else { 1int }),
        {
            if contains_text(self.tags[i].as_str(), query) {
                assert(contains(self@.tags[i as int], query@));
                tag_found = true;
            } else {
                i += 1;
            }
        }
        if tag_found {
            fields.push(owned("tags"));
        }
        let ghost after_tags = texts(fields@);
        match &self.description {
            Some(d) => {
                if contains_text(d.as_str(), query) {
                    fields.push(owned("description"));
                }
            },
            None => {},
        }
        let ghost after_description = texts(fields@);
        if contains_text(self.command.as_str(), query) {
            fields.push(owned("command"));
        }
        assert(texts(fields@) =~= self@.matched_fields(query@));
        fields
    }
}

/// The lower-case form of an optional text.
fn lowered_opt(o: &Option<String>) -> (out: Option<String>)
    ensures
        opt_text(out) == lowercase_opt(opt_text(*o)),
{
    match o {
        Some(t) => Some(to_lowercase(t.as_str())),
        None => None,
    }
}

impl Workflow {
    /// The searched fields of the workflow, in lower case.
    pub fn search_text(&self) -> (out: SearchText)
        ensures
            out@ == search_text_of(self@),
    {
        let mut tags: Vec<String> = Vec::new();
        let mut i: usize = 0;
        while i < self.tags.len()
            invariant
                i <= self.tags.len(),
                tags.len() == i,
                forall|j: int| 0 <= j < i ==> tags@[j]@ == lowercase(self.tags@[j]@),
            decreases self.tags.len() - i,
        {
            tags.push(to_lowercase(self.tags[i].as_str()));
            i += 1;
        }
        assert(texts(tags@) =~= search_text_of(self@).tags);
        SearchText {
            name: to_lowercase(self.name.as_str()),
            tags,
            description: lowered_opt(&self.description),
            command: to_lowercase(self.command.as_str()),
            author: lowered_opt(&self.author),
        }
    }

    /// The score of the workflow for a query, whatever the case of the
    /// letters on either side.
    pub fn calculate_search_score(&self, query: &str) -> (score: SearchScore)
        ensures
            score == score_of(self@, query@),
    {
        let fields = self.search_text();
        let lowered = to_lowercase(query);
        SearchScore { points: fields.points(lowered.as_str()), usage: self.usage_count }
    }
}

/// A text stands in itself.
pub proof fn lemma_contains_itself(t: Seq<char>)
    ensures
        contains(t, t),
{
    assert(t.subrange(0, t.len() as int) =~= t);
    assert(occurs_at(t, t, 0));
}

/// Of two workflows that differ in their names only, the one whose name is
/// the query, whatever the case of the letters, has the higher score than the
/// one whose name is not, even where that name holds the query.
pub proof fn lemma_exact_name_outranks(named: Workflow, unlike: Workflow, query: Seq<char>)
    requires
        lowercase(named@.name) == lowercase(query),
        lowercase(unlike@.name) != lowercase(query),
        unlike@ == (WorkflowModel { name: unlike@.name, ..named@ }),
    ensures
        score_of(named@, query).outranks(score_of(unlike@, query)),
        score_of(named@, query).points >= score_of(unlike@, query).points + 20,
{
    let exact = named@;
    let other = unlike@;
    let q = lowercase(query);
    let a = search_text_of(exact);
    let b = search_text_of(other);
    lemma_contains_itself(q);
    lemma_tag_points_bound(a.tags, q, 0);
    assert(a.tags == b.tags);
    assert(a.points(q) >= b.points(q) + 20);
    let high = score_of(exact, query);
    let low = score_of(other, query);
    assert(a.tags.len() == named.tags.len());
    assert(named.tags.len() <= usize::MAX);
    assert(a.points(q) <= 40 + 20 * a.tags.len());
    assert(high.points == a.points(q));
    assert(low.points == b.points(q));
    let d = (high.points - low.points) as nat;
    lemma_pow10_adds(low.points as nat, d);
    lemma_pow10_grows(1, d);
    assert(pow10(1) == 10) by {
        reveal_with_fuel(pow10, 2);
    }
    let usage: nat = if exact.usage_count == 0 {
        1
    } else {
        exact.usage_count as nat
    };
    assert((pow10(low.points as nat) * pow10(d)) * usage > pow10(low.points as nat) * usage)
        by (nonlinear_arith)
        requires
            pow10(low.points as nat) >= 1,
            pow10(d) >= 10,
            usage >= 1,
    ;
}

} // verus!
