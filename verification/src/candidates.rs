//! The candidate sources of a feed: which queries are asked for whom, how
//! their rows are read, and what becomes of a source that failed.

use crate::gateway::{
    node_column, property_shape, ColumnShape, ColumnShapeView, Outcome, OutcomeView, Parameter,
    ParameterView, PropertyShape, Request, RequestView, ValueKind,
};
use crate::reading::{
    distinct_columns, distinct_properties, lemma_node_property_is_read, read_row, read_rows,
};
use crate::row::{Row, RowView, ScalarView};
use vstd::prelude::*;

verus! {

/// Unseen posts that share a tag with the post the user liked last.
pub const QUERY_LAST_LIKED_POST: &'static str =
    "MATCH (u:User {name: $id})-[:LIKE]->(p:Post)-[:SHOW]->(t:Tag) WITH u, p, t ORDER BY p.id DESC LIMIT 1 WITH u, t MATCH (p:Post)-[:SHOW]->(t:Tag) WHERE NOT EXISTS((u)-[:VIEW]->(p)) WITH p ORDER BY p.id DESC LIMIT 10 RETURN p;";

/// Unseen posts of the authors that the user follows.
pub const QUERY_LAST_FOLLOWING_POST: &'static str =
    "MATCH (n:User {name: $id})-[:SUBSCRIBER]->(u:User) MATCH (u)-[:CREATE]->(p:Post) WHERE NOT EXISTS((n)-[:VIEW]->(p)) WITH p ORDER BY p.id DESC LIMIT 20 RETURN p;";

/// Unseen posts that the user's community interacts with most.
pub const QUERY_LAST_COMMUNITY_POST: &'static str =
    "MATCH (u:User {name: $id}) WITH u MATCH (a:User {community: u.community})-[r]->(p:Post) WHERE NOT EXISTS((u)-[:VIEW]->(p)) WITH p, count(r) as connections ORDER BY connections DESC LIMIT 100 WITH p ORDER BY p.id DESC LIMIT 30 RETURN p;";

/// The name of the source that goes by the last liked topic.
pub const SOURCE_LIKED: &'static str = "last liked topic";

/// The name of the source that goes by the followed authors.
pub const SOURCE_FOLLOWING: &'static str = "followed authors";

/// The name of the source that goes by community affinity.
pub const SOURCE_COMMUNITY: &'static str = "community affinity";

/// The parameter that every source query binds the identity to.
pub const IDENTITY_PARAMETER: &'static str = "id";

/// The column in which every source query returns a post.
pub const POST_COLUMN: &'static str = "p";

/// The property of a post that holds its id.
pub const ID_PROPERTY: &'static str = "id";

/// A named candidate source.
#[derive(Clone, Debug, PartialEq, Eq)]
pub struct Source {
    pub name: String,
    pub query: String,
}

/// What a [`Source`] is to the contracts.
pub struct SourceView {
    pub name: Seq<char>,
    pub query: Seq<char>,
}

impl DeepView for Source {
    type V = SourceView;

    open spec fn deep_view(&self) -> SourceView {
        SourceView { name: self.name@, query: self.query@ }
    }
}

/// A source that failed, by its place among the sources and by its name.
#[derive(Clone, Debug, PartialEq, Eq)]
pub struct SourceFailure {
    pub index: usize,
    pub source: String,
}

/// What a [`SourceFailure`] is to the contracts.
pub struct SourceFailureView {
    pub index: int,
    pub source: Seq<char>,
}

impl DeepView for SourceFailure {
    type V = SourceFailureView;

    open spec fn deep_view(&self) -> SourceFailureView {
        SourceFailureView { index: self.index as int, source: self.source@ }
    }
}

/// One candidate set for each source, and the sources that failed.
#[derive(Clone, Debug, PartialEq, Eq)]
pub struct FetchReport {
    pub sets: Vec<Vec<String>>,
    pub failures: Vec<SourceFailure>,
}

/// What a [`FetchReport`] is to the contracts.
pub struct FetchReportView {
    pub sets: Seq<Seq<Seq<char>>>,
    pub failures: Seq<SourceFailureView>,
}

impl DeepView for FetchReport {
    type V = FetchReportView;

    open spec fn deep_view(&self) -> FetchReportView {
        FetchReportView { sets: self.sets.deep_view(), failures: self.failures.deep_view() }
    }
}

/// The three sources of a feed, the most specific signal first.
pub open spec fn feed_sources() -> Seq<SourceView> {
    seq![
        SourceView { name: SOURCE_LIKED@, query: QUERY_LAST_LIKED_POST@ },
        SourceView { name: SOURCE_FOLLOWING@, query: QUERY_LAST_FOLLOWING_POST@ },
        SourceView { name: SOURCE_COMMUNITY@, query: QUERY_LAST_COMMUNITY_POST@ },
    ]
}

/// What is read from each row of a source: the id of the post it returns.
pub open spec fn candidate_shape() -> Seq<ColumnShapeView> {
    seq![node_column(POST_COLUMN@, seq![property_shape(ID_PROPERTY@, ValueKind::Text)])]
}

/// The request that asks `source` for the candidates of `identity`.
pub open spec fn fetch_request(identity: Seq<char>, source: SourceView) -> RequestView {
    RequestView {
        query: source.query,
        parameters: seq![
            ParameterView { name: IDENTITY_PARAMETER@, value: ScalarView::Text(identity) },
        ],
        shape: candidate_shape(),
    }
}

/// One request for each source, in the order of the sources.
pub open spec fn fetch_requests(identity: Seq<char>, sources: Seq<SourceView>) -> Seq<
    RequestView,
> {
    Seq::new(sources.len(), |i: int| fetch_request(identity, sources[i]))
}

/// The candidate that a row holds: the id of the post in it, where it has one.
pub open spec fn candidate_id(row: RowView) -> Option<Seq<char>> {
    row.node_text(POST_COLUMN@, ID_PROPERTY@)
}

/// Whether every row holds a candidate. A row without a post, or whose post
/// has no id that is a text, cannot be decoded.
pub open spec fn all_decoded(rows: Seq<RowView>) -> bool {
    forall|i: int| 0 <= i < rows.len() ==> candidate_id(#[trigger] rows[i]) is Some
}

/// The candidates that `rows` hold, in the order of the rows.
pub open spec fn candidate_ids(rows: Seq<RowView>) -> Seq<Seq<char>>
    decreases rows.len(),
{
    if rows.len() == 0 {
        Seq::empty()
    } else {
        match candidate_id(rows.last()) {
            Some(id) => candidate_ids(rows.drop_last()).push(id),
            None => candidate_ids(rows.drop_last()),
        }
    }
}

/// The outcome of the source at `index`; a source without an outcome has failed.
pub open spec fn outcome_at(outcomes: Seq<OutcomeView>, index: int) -> OutcomeView {
    if 0 <= index < outcomes.len() {
        outcomes[index]
    } else {
        OutcomeView::Failed
    }
}

/// Whether a source with this outcome has failed: its request failed, or
/// one of its rows cannot be decoded.
pub open spec fn source_failed(outcome: OutcomeView) -> bool {
    match outcome {
        OutcomeView::Rows(rows) => !all_decoded(rows),
        OutcomeView::Failed => true,
    }
}

/// The candidate set that an outcome contributes: the candidates of its
/// rows, and none where the source failed.
pub open spec fn candidate_set(outcome: OutcomeView) -> Seq<Seq<char>> {
    match outcome {
        OutcomeView::Rows(rows) => if all_decoded(rows) {
            candidate_ids(rows)
        } else {
            Seq::empty()
        },
        OutcomeView::Failed => Seq::empty(),
    }
}

/// The candidate sets of the first `count` sources, aligned to them by index.
pub open spec fn candidate_sets(count: nat, outcomes: Seq<OutcomeView>) -> Seq<Seq<Seq<char>>> {
    Seq::new(count, |i: int| candidate_set(outcome_at(outcomes, i)))
}

/// The failures among the first `count` sources, in the order of the sources.
pub open spec fn source_failures(
    sources: Seq<SourceView>,
    outcomes: Seq<OutcomeView>,
    count: nat,
) -> Seq<SourceFailureView>
    decreases count,
{
    if count == 0 {
        Seq::empty()
    } else {
        let earlier = source_failures(sources, outcomes, (count - 1) as nat);
        if source_failed(outcome_at(outcomes, count - 1)) {
            earlier.push(SourceFailureView { index: count - 1, source: sources[count - 1].name })
        } else {
            earlier
        }
    }
}

/// What the fetch of `sources` comes to, given how each request ended.
pub open spec fn fetch_report(sources: Seq<SourceView>, outcomes: Seq<OutcomeView>) -> FetchReportView {
    FetchReportView {
        sets: candidate_sets(sources.len(), outcomes),
        failures: source_failures(sources, outcomes, sources.len()),
    }
}

/// A reader who reads a row by the shape of a source request finds the
/// candidate that the row holds.
pub proof fn lemma_candidate_shape_suffices(row: RowView)
    ensures
        candidate_id(read_row(row, candidate_shape())) == candidate_id(row),
{
    let shape = candidate_shape();
    assert(distinct_columns(shape));
    assert(distinct_properties(shape[0].cell->Node_0));
    lemma_node_property_is_read(row, shape, 0, 0);
}

/// The rows of a source hold the same candidates when they are read by the
/// shape of a source request.
pub proof fn lemma_reading_keeps_the_candidates(rows: Seq<RowView>)
    ensures
        candidate_ids(read_rows(rows, candidate_shape())) == candidate_ids(rows),
        all_decoded(read_rows(rows, candidate_shape())) == all_decoded(rows),
        candidate_set(OutcomeView::Rows(read_rows(rows, candidate_shape()))) == candidate_set(
            OutcomeView::Rows(rows),
        ),
    decreases rows.len(),
{
    let read = read_rows(rows, candidate_shape());
    assert forall|i: int| 0 <= i < rows.len() implies candidate_id(#[trigger] read[i])
        == candidate_id(rows[i]) by {
        lemma_candidate_shape_suffices(rows[i]);
    }
    if all_decoded(rows) {
        assert forall|i: int| 0 <= i < read.len() implies candidate_id(
            #[trigger] read[i],
        ) is Some by {
            assert(candidate_id(rows[i]) is Some);
        }
    }
    if all_decoded(read) {
        assert forall|i: int| 0 <= i < rows.len() implies candidate_id(
            #[trigger] rows[i],
        ) is Some by {
            assert(candidate_id(read[i]) is Some);
        }
    }
    if rows.len() > 0 {
        let front = rows.drop_last();
        lemma_reading_keeps_the_candidates(front);
        assert(read.drop_last() =~= read_rows(front, candidate_shape()));
        assert(read.last() == read_row(rows.last(), candidate_shape()));
        lemma_candidate_shape_suffices(rows.last());
    } else {
        assert(read =~= rows);
    }
}

/// Where every row holds a candidate, the candidates are those of the rows,
/// one for each and in their order.
pub proof fn lemma_candidate_ids_of_decoded(rows: Seq<RowView>)
    requires
        all_decoded(rows),
    ensures
        candidate_ids(rows).len() == rows.len(),
        forall|i: int|
            0 <= i < rows.len() ==> #[trigger] candidate_ids(rows)[i] == candidate_id(rows[i])->0,
    decreases rows.len(),
{
    if rows.len() > 0 {
        let front = rows.drop_last();
        assert forall|i: int| 0 <= i < front.len() implies candidate_id(
            #[trigger] front[i],
        ) is Some by {
            assert(front[i] == rows[i]);
        }
        lemma_candidate_ids_of_decoded(front);
        assert(candidate_id(rows[rows.len() - 1]) is Some);
        assert forall|i: int| 0 <= i < rows.len() implies #[trigger] candidate_ids(rows)[i]
            == candidate_id(rows[i])->0 by {
            if i < front.len() {
                assert(front[i] == rows[i]);
                assert(candidate_ids(rows)[i] == candidate_ids(front)[i]);
            }
        }
    }
}

/// One row that cannot be decoded fails its source: the source is reported
/// and contributes no candidate, whatever its other rows hold.
pub proof fn lemma_undecoded_row_fails_the_source(rows: Seq<RowView>, at: int)
    requires
        0 <= at < rows.len(),
        candidate_id(rows[at]) is None,
    ensures
        source_failed(OutcomeView::Rows(rows)),
        candidate_set(OutcomeView::Rows(rows)) == Seq::<Seq<char>>::empty(),
{
}

/// The failures are the sources that failed, each once and in the order of
/// the sources.
pub proof fn lemma_source_failures(sources: Seq<SourceView>, outcomes: Seq<OutcomeView>, count: nat)
    requires
        count <= sources.len(),
    ensures
        source_failures(sources, outcomes, count).len() <= count,
        forall|k: int|
            0 <= k < source_failures(sources, outcomes, count).len() ==> {
                let failure = #[trigger] source_failures(sources, outcomes, count)[k];
                &&& 0 <= failure.index < count
                &&& source_failed(outcome_at(outcomes, failure.index))
                &&& failure.source == sources[failure.index].name
            },
        forall|k: int, l: int|
            0 <= k < l < source_failures(sources, outcomes, count).len() ==> (
            #[trigger] source_failures(sources, outcomes, count)[k]).index < (
            #[trigger] source_failures(sources, outcomes, count)[l]).index,
        forall|i: int|
            0 <= i < count && source_failed(#[trigger] outcome_at(outcomes, i)) ==> exists|k: int|
                0 <= k < source_failures(sources, outcomes, count).len() && (
                #[trigger] source_failures(sources, outcomes, count)[k]).index == i,
    decreases count,
{
    if count > 0 {
        let earlier = source_failures(sources, outcomes, (count - 1) as nat);
        let all = source_failures(sources, outcomes, count);
        lemma_source_failures(sources, outcomes, (count - 1) as nat);
        assert forall|i: int|
            0 <= i < count && source_failed(#[trigger] outcome_at(outcomes, i)) implies exists|
            k: int,
        |
            0 <= k < all.len() && (#[trigger] all[k]).index == i by {
            if i < count - 1 {
                let k = choose|k: int| 0 <= k < earlier.len() && (#[trigger] earlier[k]).index == i;
                assert(all[k].index == i);
            } else {
                assert(all[earlier.len() as int].index == i);
            }
        }
    }
}

/// No failure is reported exactly when no source failed; and the first
/// failure is that of the first source that failed.
pub proof fn lemma_first_failure(sources: Seq<SourceView>, outcomes: Seq<OutcomeView>)
    ensures
        source_failures(sources, outcomes, sources.len()).len() == 0 <==> forall|i: int|
            0 <= i < sources.len() ==> !source_failed(#[trigger] outcome_at(outcomes, i)),
        source_failures(sources, outcomes, sources.len()).len() > 0 ==> {
            let first = source_failures(sources, outcomes, sources.len())[0];
            &&& 0 <= first.index < sources.len()
            &&& source_failed(outcome_at(outcomes, first.index))
            &&& forall|i: int|
                0 <= i < first.index ==> !source_failed(#[trigger] outcome_at(outcomes, i))
        },
{
    let failures = source_failures(sources, outcomes, sources.len());
    lemma_source_failures(sources, outcomes, sources.len());
    if failures.len() == 0 {
        assert forall|i: int| 0 <= i < sources.len() implies !source_failed(
            #[trigger] outcome_at(outcomes, i),
        ) by {
            if source_failed(outcome_at(outcomes, i)) {
                let k = choose|k: int| 0 <= k < failures.len() && (#[trigger] failures[k]).index == i;
            }
        }
    } else {
        let first = failures[0];
        assert(source_failed(outcome_at(outcomes, first.index)));
        assert forall|i: int| 0 <= i < first.index implies !source_failed(
            #[trigger] outcome_at(outcomes, i),
        ) by {
            if source_failed(outcome_at(outcomes, i)) {
                let k = choose|k: int| 0 <= k < failures.len() && (#[trigger] failures[k]).index == i;
                if k > 0 {
                    assert(failures[0].index < failures[k].index);
                }
            }
        }
    }
}

/// The three sources of a feed, the most specific signal first.
pub fn fixed_sources() -> (sources: Vec<Source>)
    ensures
        sources.deep_view() == feed_sources(),
{
    let mut sources: Vec<Source> = Vec::new();
    sources.push(
        Source { name: SOURCE_LIKED.to_owned(), query: QUERY_LAST_LIKED_POST.to_owned() },
    );
    sources.push(
        Source { name: SOURCE_FOLLOWING.to_owned(), query: QUERY_LAST_FOLLOWING_POST.to_owned() },
    );
    sources.push(
        Source { name: SOURCE_COMMUNITY.to_owned(), query: QUERY_LAST_COMMUNITY_POST.to_owned() },
    );
    assert(sources.deep_view() =~= feed_sources());
    sources
}

/// What is read from each row of a source.
pub fn row_shape() -> (shape: Vec<ColumnShape>)
    ensures
        shape.deep_view() == candidate_shape(),
{
    let mut properties: Vec<PropertyShape> = Vec::new();
    properties.push(PropertyShape::new(ID_PROPERTY, ValueKind::Text));
    assert(properties.deep_view() =~= seq![property_shape(ID_PROPERTY@, ValueKind::Text)]);
    let mut shape: Vec<ColumnShape> = Vec::new();
    shape.push(ColumnShape::node(POST_COLUMN, properties));
    assert(shape.deep_view() =~= candidate_shape());
    shape
}

/// One request for each source, in the order of the sources, each with
/// `identity` as its one parameter.
pub fn requests_for(identity: &String, sources: &Vec<Source>) -> (requests: Vec<Request>)
    ensures
        requests.deep_view() == fetch_requests(identity@, sources.deep_view()),
{
    let mut requests: Vec<Request> = Vec::new();
    let mut i: usize = 0;
    while i < sources.len()
        invariant
            i <= sources.len(),
            requests.len() == i,
            forall|k: int|
                0 <= k < i ==> (#[trigger] requests[k]).deep_view() == fetch_request(
                    identity@,
                    sources[k].deep_view(),
                ),
        decreases sources.len() - i,
    {
        let mut parameters: Vec<Parameter> = Vec::new();
        parameters.push(Parameter::text(IDENTITY_PARAMETER, identity));
        assert(parameters.deep_view() =~= seq![
            ParameterView { name: IDENTITY_PARAMETER@, value: ScalarView::Text(identity@) },
        ]);
        requests.push(Request { query: sources[i].query.clone(), parameters, shape: row_shape() });
        i = i + 1;
    }
    assert(requests.deep_view() =~= fetch_requests(identity@, sources.deep_view()));
    requests
}

/// The id of the post that `row` holds, where it holds one.
pub fn decode_candidate(row: &Row) -> (id: Option<String>)
    ensures
        id.deep_view() == candidate_id(row.deep_view()),
{
    let column = POST_COLUMN.to_owned();
    let property = ID_PROPERTY.to_owned();
    match row.node_text(&column, &property) {
        Some(id) => Some(id.clone()),
        None => None,
    }
}

/// The candidates that `rows` hold, one for each row and in the order of the
/// rows; none where a row cannot be decoded.
pub fn decode_candidates(rows: &Vec<Row>) -> (ids: Option<Vec<String>>)
    ensures
        ids is Some <==> all_decoded(rows.deep_view()),
        ids is Some ==> ids->0.deep_view() == candidate_ids(rows.deep_view()),
{
    let ghost all = rows.deep_view();
    let mut ids: Vec<String> = Vec::new();
    let mut i: usize = 0;
    assert(all.take(0) =~= Seq::empty());
    assert(ids.deep_view() =~= Seq::empty());
    while i < rows.len()
        invariant
            i <= rows.len(),
            all == rows.deep_view(),
            forall|k: int| 0 <= k < i ==> candidate_id(#[trigger] all[k]) is Some,
            ids.deep_view() == candidate_ids(all.take(i as int)),
        decreases rows.len() - i,
    {
        let ghost found = ids.deep_view();
        assert(all.take(i + 1).drop_last() =~= all.take(i as int));
        assert(all.take(i + 1).last() == rows[i as int].deep_view());
        assert(all[i as int] == rows[i as int].deep_view());
        match decode_candidate(&rows[i]) {
            Some(id) => {
                ids.push(id);
                assert(ids.deep_view() =~= found.push(id@));
            },
            None => {
                return None;
            },
        }
        i = i + 1;
    }
    assert(all.take(rows.len() as int) =~= all);
    Some(ids)
}

/// The candidates that a source with this outcome contributes, or none
/// where the source failed: its request failed, or a row of it cannot be
/// decoded.
pub fn candidates_of(outcome: &Outcome) -> (ids: Option<Vec<String>>)
    ensures
        ids is Some <==> !source_failed(outcome.deep_view()),
        ids is Some ==> ids->0.deep_view() == candidate_set(outcome.deep_view()),
{
    match outcome {
        Outcome::Rows(rows) => decode_candidates(rows),
        Outcome::Failed => None,
    }
}

/// One candidate set for each source, aligned to `sources` by index, and the
/// sources that failed. A source fails where its outcome is missing or a
/// failure, or where a row of it cannot be decoded; it then contributes an
/// empty set and is reported by its index and name.
pub fn settle(sources: &Vec<Source>, outcomes: &Vec<Outcome>) -> (report: FetchReport)
    ensures
        report.deep_view() == fetch_report(sources.deep_view(), outcomes.deep_view()),
{
    let ghost names = sources.deep_view();
    let ghost ends = outcomes.deep_view();
    let mut sets: Vec<Vec<String>> = Vec::new();
    let mut failures: Vec<SourceFailure> = Vec::new();
    let mut i: usize = 0;
    assert(failures.deep_view() =~= Seq::empty());
    while i < sources.len()
        invariant
            i <= sources.len(),
            names == sources.deep_view(),
            ends == outcomes.deep_view(),
            sets.len() == i,
            forall|k: int|
                0 <= k < i ==> (#[trigger] sets[k]).deep_view() == candidate_set(
                    outcome_at(ends, k),
                ),
            failures.deep_view() == source_failures(names, ends, i as nat),
        decreases sources.len() - i,
    {
        let ghost reported = failures.deep_view();
        let mut decoded: Option<Vec<String>> = None;
        if i < outcomes.len() {
            assert(ends[i as int] == outcomes[i as int].deep_view());
            decoded = candidates_of(&outcomes[i]);
        }
        match decoded {
            Some(ids) => {
                sets.push(ids);
            },
            None => {
                let empty: Vec<String> = Vec::new();
                assert(empty.deep_view() =~= Seq::empty());
                assert(candidate_set(outcome_at(ends, i as int)) =~= Seq::empty());
                sets.push(empty);
                failures.push(SourceFailure { index: i, source: sources[i].name.clone() });
                assert(failures.deep_view() =~= reported.push(
                    SourceFailureView { index: i as int, source: names[i as int].name },
                ));
            },
        }
        i = i + 1;
    }
    assert(sets.deep_view() =~= candidate_sets(names.len(), ends));
    FetchReport { sets, failures }
}

} // verus!
