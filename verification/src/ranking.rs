//! The similarity ranking of a feed's candidates: what is asked of the
//! backend, how its rows are read into posts, and the bound on the feed.

use crate::candidates::{ID_PROPERTY, IDENTITY_PARAMETER, POST_COLUMN};
use crate::gateway::{
    node_column, property_shape, scalar_column, ColumnShape, ColumnShapeView, Outcome,
    OutcomeView, Parameter, ParameterView, PropertyShape, Request, RequestView, ValueKind,
};
use crate::http::{
    failure_reply, posts_reply, Reply, ReplyView, INTERNAL_SERVER_ERROR,
    STATUS_INTERNAL_SERVER_ERROR,
};
use crate::model::{Post, PostView};
use crate::reading::{
    distinct_columns, distinct_properties, lemma_node_property_is_read, lemma_scalar_is_read,
    read_row, read_rows,
};
use crate::row::{copy_texts, find_cell, Row, RowView, ScalarView};
use vstd::prelude::*;

verus! {

/// The most posts that a feed holds.
pub const TOP_K: usize = 15;

/// Ranks the candidates in `$list` by their similarity to the posts that the
/// user `$id` liked last, and returns the best with author and like count.
pub const RANKING_QUERY: &'static str =
    "MATCH (u:User {name: $id})-[:Like]->(p:Post) WITH u, p LIMIT 10 MATCH (l:Post) WHERE l.id IN $list WITH l, p ORDER BY p.id DESC WITH collect(l) as posts, collect(p) as likedPosts CALL node_similarity.jaccard_pairwise(posts, likedPosts) YIELD node1, node2, similarity WITH node1, similarity ORDER BY similarity DESC LIMIT 15 OPTIONAL MATCH (a:User)-[:Like]->(node1) WITH node1, count(DISTINCT a) as numLikes MATCH (creator:User)-[:Create]-(node1) WITH node1, numLikes, creator OPTIONAL MATCH (:User {name: $id})-[r:Like]-(node1) RETURN node1 as p, numLikes, creator, CASE WHEN r IS NULL THEN false ELSE true END AS liked;";

/// Returns the twenty most liked posts with author and like count.
pub const MOST_LIKED_QUERY: &'static str =
    "MATCH (u:User)-[:Create]->(p:Post)<-[r:Like]-(:User) WITH p, count(DISTINCT r) as numLikes, u.name AS author ORDER BY numLikes DESC LIMIT 20 RETURN p, numLikes, author;";

/// The parameter that the ranking query binds the candidates to.
pub const CANDIDATES_PARAMETER: &'static str = "list";

/// The property of a post that holds its description.
pub const DESCRIPTION_PROPERTY: &'static str = "description";

/// The property of a post that holds its content hashes.
pub const HASH_PROPERTY: &'static str = "hash";

/// The column in which the ranking query returns the author of a post.
pub const CREATOR_COLUMN: &'static str = "creator";

/// The property of a user that holds the name.
pub const NAME_PROPERTY: &'static str = "name";

/// The column that holds the like count of a post.
pub const LIKES_COLUMN: &'static str = "numLikes";

/// The column that says whether the requester likes the post already.
pub const LIKED_COLUMN: &'static str = "liked";

/// The column in which the most-liked query returns the author's name.
pub const AUTHOR_COLUMN: &'static str = "author";

/// The like count of a post as a post carries it: the low 32 bits of the
/// count that the backend returned, which is the count itself wherever it
/// fits.
pub open spec fn like_count(likes: i64) -> u32 {
    likes as u32
}

/// The `items` themselves where they are at most `bound`, else the first `bound` of them.
pub open spec fn bounded<A>(items: Seq<A>, bound: nat) -> Seq<A> {
    if items.len() <= bound {
        items
    } else {
        items.take(bound as int)
    }
}

/// What is read from the post of a row.
pub open spec fn post_shape() -> ColumnShapeView {
    node_column(
        POST_COLUMN@,
        seq![
            property_shape(ID_PROPERTY@, ValueKind::Text),
            property_shape(DESCRIPTION_PROPERTY@, ValueKind::Text),
            property_shape(HASH_PROPERTY@, ValueKind::TextList),
        ],
    )
}

/// What is read from each row of the ranking.
pub open spec fn ranking_shape() -> Seq<ColumnShapeView> {
    seq![
        post_shape(),
        scalar_column(LIKES_COLUMN@, ValueKind::Integer),
        node_column(CREATOR_COLUMN@, seq![property_shape(NAME_PROPERTY@, ValueKind::Text)]),
        scalar_column(LIKED_COLUMN@, ValueKind::Flag),
    ]
}

/// What is read from each row of the most liked posts.
pub open spec fn most_liked_shape() -> Seq<ColumnShapeView> {
    seq![
        post_shape(),
        scalar_column(LIKES_COLUMN@, ValueKind::Integer),
        scalar_column(AUTHOR_COLUMN@, ValueKind::Text),
    ]
}

/// The request that ranks `candidates` for `identity`.
pub open spec fn ranking_request(identity: Seq<char>, candidates: Seq<Seq<char>>) -> RequestView {
    RequestView {
        query: RANKING_QUERY@,
        parameters: seq![
            ParameterView { name: IDENTITY_PARAMETER@, value: ScalarView::Text(identity) },
            ParameterView { name: CANDIDATES_PARAMETER@, value: ScalarView::TextList(candidates) },
        ],
        shape: ranking_shape(),
    }
}

/// The request for the most liked posts.
pub open spec fn most_liked_request() -> RequestView {
    RequestView {
        query: MOST_LIKED_QUERY@,
        parameters: Seq::empty(),
        shape: most_liked_shape(),
    }
}

/// The post that a row of the ranking holds. The row must carry the post
/// with id, description and hashes, its author's name, its like count and
/// the flag that says whether the requester likes it; else it holds none.
pub open spec fn ranked_item(row: RowView) -> Option<PostView> {
    if row.node_text(POST_COLUMN@, ID_PROPERTY@) is Some && row.node_text(
        POST_COLUMN@,
        DESCRIPTION_PROPERTY@,
    ) is Some && row.node_text_list(POST_COLUMN@, HASH_PROPERTY@) is Some && row.node_text(
        CREATOR_COLUMN@,
        NAME_PROPERTY@,
    ) is Some && row.integer(LIKES_COLUMN@) is Some && row.flag(LIKED_COLUMN@) is Some {
        Some(
            PostView {
                id: row.node_text(POST_COLUMN@, ID_PROPERTY@)->0,
                description: row.node_text(POST_COLUMN@, DESCRIPTION_PROPERTY@)->0,
                author: row.node_text(CREATOR_COLUMN@, NAME_PROPERTY@)->0,
                hash: row.node_text_list(POST_COLUMN@, HASH_PROPERTY@)->0,
                like: like_count(row.integer(LIKES_COLUMN@)->0),
            },
        )
    } else {
        None
    }
}

/// The posts that the rows of a ranking hold, in the order of the rows.
pub open spec fn ranked_items(rows: Seq<RowView>) -> Seq<PostView>
    decreases rows.len(),
{
    if rows.len() == 0 {
        Seq::empty()
    } else {
        match ranked_item(rows.last()) {
            Some(post) => ranked_items(rows.drop_last()).push(post),
            None => ranked_items(rows.drop_last()),
        }
    }
}

/// The feed that the rows of a ranking come to: their posts in the order of
/// the rows, and no more than `TOP_K` of them.
pub open spec fn ranked_feed(rows: Seq<RowView>) -> Seq<PostView> {
    bounded(ranked_items(rows), TOP_K as nat)
}

/// The post that a row of the most liked posts holds. The row must carry the
/// post with id, description and hashes, its author's name and its like
/// count; else it holds none.
pub open spec fn most_liked_item(row: RowView) -> Option<PostView> {
    if row.node_text(POST_COLUMN@, ID_PROPERTY@) is Some && row.node_text(
        POST_COLUMN@,
        DESCRIPTION_PROPERTY@,
    ) is Some && row.node_text_list(POST_COLUMN@, HASH_PROPERTY@) is Some && row.text(
        AUTHOR_COLUMN@,
    ) is Some && row.integer(LIKES_COLUMN@) is Some {
        Some(
            PostView {
                id: row.node_text(POST_COLUMN@, ID_PROPERTY@)->0,
                description: row.node_text(POST_COLUMN@, DESCRIPTION_PROPERTY@)->0,
                author: row.text(AUTHOR_COLUMN@)->0,
                hash: row.node_text_list(POST_COLUMN@, HASH_PROPERTY@)->0,
                like: like_count(row.integer(LIKES_COLUMN@)->0),
            },
        )
    } else {
        None
    }
}

/// The places, among `rows`, of the rows that hold no post and are left out
/// of the feed, in ascending order.
pub open spec fn skipped_rows(rows: Seq<RowView>) -> Seq<int>
    decreases rows.len(),
{
    if rows.len() == 0 {
        Seq::empty()
    } else {
        match ranked_item(rows.last()) {
            Some(post) => skipped_rows(rows.drop_last()),
            None => skipped_rows(rows.drop_last()).push(rows.len() - 1),
        }
    }
}

/// Whether every row holds a most liked post.
pub open spec fn all_most_liked(rows: Seq<RowView>) -> bool {
    forall|i: int| 0 <= i < rows.len() ==> most_liked_item(#[trigger] rows[i]) is Some
}

/// The most liked posts that `rows` hold, one for each row.
pub open spec fn most_liked_items(rows: Seq<RowView>) -> Seq<PostView> {
    Seq::new(rows.len(), |i: int| most_liked_item(rows[i])->0)
}

/// The reply to a request for the most liked posts: the posts where the
/// backend answered with rows that all hold one, else a failure of the
/// service.
pub open spec fn most_liked_reply(outcome: OutcomeView) -> ReplyView {
    match outcome {
        OutcomeView::Rows(rows) => if all_most_liked(rows) {
            posts_reply(most_liked_items(rows))
        } else {
            failure_reply(STATUS_INTERNAL_SERVER_ERROR, INTERNAL_SERVER_ERROR@)
        },
        OutcomeView::Failed => failure_reply(STATUS_INTERNAL_SERVER_ERROR, INTERNAL_SERVER_ERROR@),
    }
}

/// A like count that fits is carried as it is.
pub proof fn lemma_like_count_that_fits(likes: i64)
    requires
        0 <= likes <= u32::MAX,
    ensures
        like_count(likes) == likes,
{
}

/// The rows of a ranking hold no more posts than there are rows.
pub proof fn lemma_ranked_items_len(rows: Seq<RowView>)
    ensures
        ranked_items(rows).len() <= rows.len(),
    decreases rows.len(),
{
    if rows.len() > 0 {
        lemma_ranked_items_len(rows.drop_last());
    }
}

/// Every row either gives a post or is skipped: the skipped places are
/// those of the rows that hold no post, and with the posts they make up the
/// rows.
pub proof fn lemma_skipped_rows(rows: Seq<RowView>)
    ensures
        ranked_items(rows).len() + skipped_rows(rows).len() == rows.len(),
        forall|k: int|
            0 <= k < skipped_rows(rows).len() ==> 0 <= #[trigger] skipped_rows(rows)[k]
                < rows.len() && ranked_item(rows[skipped_rows(rows)[k]]) is None,
        forall|i: int|
            0 <= i < rows.len() && ranked_item(#[trigger] rows[i]) is None ==> skipped_rows(
                rows,
            ).contains(i),
    decreases rows.len(),
{
    if rows.len() > 0 {
        let front = rows.drop_last();
        let earlier = skipped_rows(front);
        let all = skipped_rows(rows);
        lemma_skipped_rows(front);
        assert forall|k: int| 0 <= k < all.len() implies 0 <= #[trigger] all[k] < rows.len()
            && ranked_item(rows[all[k]]) is None by {
            if k < earlier.len() {
                assert(all[k] == earlier[k]);
                assert(front[earlier[k]] == rows[earlier[k]]);
            }
        }
        assert forall|i: int|
            0 <= i < rows.len() && ranked_item(#[trigger] rows[i]) is None implies all.contains(
            i,
        ) by {
            if i < front.len() {
                assert(front[i] == rows[i]);
                assert(earlier.contains(i));
                let k = choose|k: int| 0 <= k < earlier.len() && earlier[k] == i;
                assert(all[k] == i);
            } else {
                assert(all[all.len() - 1] == i);
            }
        }
    }
}

/// A feed never holds more than `TOP_K` posts, however many rows came back.
pub proof fn lemma_ranked_feed_is_bounded(rows: Seq<RowView>)
    ensures
        ranked_feed(rows).len() <= TOP_K,
        ranked_feed(rows).len() <= rows.len(),
{
    lemma_ranked_items_len(rows);
}

/// The posts of two runs of rows, one after the other, are the posts of the
/// first run followed by those of the second.
pub proof fn lemma_ranked_items_concat(first: Seq<RowView>, second: Seq<RowView>)
    ensures
        ranked_items(first + second) == ranked_items(first) + ranked_items(second),
    decreases second.len(),
{
    if second.len() == 0 {
        assert(first + second =~= first);
        assert(ranked_items(first) + ranked_items(second) =~= ranked_items(first));
    } else {
        assert((first + second).drop_last() =~= first + second.drop_last());
        assert((first + second).last() == second.last());
        lemma_ranked_items_concat(first, second.drop_last());
        match ranked_item(second.last()) {
            Some(post) => {
                assert((ranked_items(first) + ranked_items(second.drop_last())).push(post)
                    =~= ranked_items(first) + ranked_items(second.drop_last()).push(post));
            },
            None => {},
        }
    }
}

/// A row that lacks a required field is dropped, and the rows before and
/// after it are read as if it had not been there.
pub proof fn lemma_malformed_row_is_dropped(before: Seq<RowView>, row: RowView, after: Seq<RowView>)
    requires
        ranked_item(row) is None,
    ensures
        ranked_items(before + seq![row] + after) == ranked_items(before + after),
{
    lemma_ranked_items_concat(before + seq![row], after);
    lemma_ranked_items_concat(before, seq![row]);
    lemma_ranked_items_concat(before, after);
    assert(seq![row].drop_last() =~= Seq::<RowView>::empty());
    assert(seq![row].last() == row);
    assert(ranked_items(seq![row].drop_last()) =~= Seq::<PostView>::empty());
    assert(ranked_items(seq![row]) =~= Seq::<PostView>::empty());
    assert(ranked_items(before) + Seq::<PostView>::empty() =~= ranked_items(before));
}

/// A row that lacks the author of its post holds no post, whatever else it
/// carries; so it is with each of the other required fields.
pub proof fn lemma_row_without_a_required_field_holds_no_post(row: RowView)
    ensures
        row.node_text(CREATOR_COLUMN@, NAME_PROPERTY@) is None ==> ranked_item(row) is None,
        row.node_text(POST_COLUMN@, ID_PROPERTY@) is None ==> ranked_item(row) is None,
        row.node_text(POST_COLUMN@, DESCRIPTION_PROPERTY@) is None ==> ranked_item(row) is None,
        row.node_text_list(POST_COLUMN@, HASH_PROPERTY@) is None ==> ranked_item(row) is None,
        row.integer(LIKES_COLUMN@) is None ==> ranked_item(row) is None,
        row.flag(LIKED_COLUMN@) is None ==> ranked_item(row) is None,
        find_cell(row.columns, CREATOR_COLUMN@) is None ==> ranked_item(row) is None,
{
}

/// The columns and the properties of the shapes are told apart by name.
proof fn lemma_shapes_have_distinct_names()
    ensures
        distinct_columns(ranking_shape()),
        distinct_columns(most_liked_shape()),
        distinct_properties(post_shape().cell->Node_0),
        distinct_properties(seq![property_shape(NAME_PROPERTY@, ValueKind::Text)]),
{
    reveal_strlit("p");
    reveal_strlit("numLikes");
    reveal_strlit("creator");
    reveal_strlit("liked");
    reveal_strlit("author");
    reveal_strlit("id");
    reveal_strlit("description");
    reveal_strlit("hash");
    assert(POST_COLUMN@.len() == 1);
    assert(LIKES_COLUMN@.len() == 8);
    assert(CREATOR_COLUMN@.len() == 7);
    assert(LIKED_COLUMN@.len() == 5);
    assert(AUTHOR_COLUMN@.len() == 6);
    assert(ID_PROPERTY@.len() == 2);
    assert(DESCRIPTION_PROPERTY@.len() == 11);
    assert(HASH_PROPERTY@.len() == 4);
}

/// A reader who reads a row by the shape of the ranking request finds the
/// post that the row holds: the shape asks for all that a post needs.
pub proof fn lemma_ranking_shape_suffices(row: RowView)
    ensures
        ranked_item(read_row(row, ranking_shape())) == ranked_item(row),
{
    let shape = ranking_shape();
    lemma_shapes_have_distinct_names();
    lemma_node_property_is_read(row, shape, 0, 0);
    lemma_node_property_is_read(row, shape, 0, 1);
    lemma_node_property_is_read(row, shape, 0, 2);
    lemma_scalar_is_read(row, shape, 1);
    lemma_node_property_is_read(row, shape, 2, 0);
    lemma_scalar_is_read(row, shape, 3);
}

/// The rows of a ranking come to the same feed when they are read by the
/// shape of the ranking request.
pub proof fn lemma_reading_keeps_the_feed(rows: Seq<RowView>)
    ensures
        ranked_items(read_rows(rows, ranking_shape())) == ranked_items(rows),
        ranked_feed(read_rows(rows, ranking_shape())) == ranked_feed(rows),
        skipped_rows(read_rows(rows, ranking_shape())) == skipped_rows(rows),
    decreases rows.len(),
{
    let read = read_rows(rows, ranking_shape());
    if rows.len() > 0 {
        let front = rows.drop_last();
        lemma_reading_keeps_the_feed(front);
        assert(read.drop_last() =~= read_rows(front, ranking_shape()));
        assert(read.last() == read_row(rows.last(), ranking_shape()));
        lemma_ranking_shape_suffices(rows.last());
    } else {
        assert(read =~= rows);
    }
}

/// A reader who reads a row by the shape of the request for the most liked
/// posts finds the post that the row holds.
pub proof fn lemma_most_liked_shape_suffices(row: RowView)
    ensures
        most_liked_item(read_row(row, most_liked_shape())) == most_liked_item(row),
{
    let shape = most_liked_shape();
    lemma_shapes_have_distinct_names();
    lemma_node_property_is_read(row, shape, 0, 0);
    lemma_node_property_is_read(row, shape, 0, 1);
    lemma_node_property_is_read(row, shape, 0, 2);
    lemma_scalar_is_read(row, shape, 1);
    lemma_scalar_is_read(row, shape, 2);
}

/// Where every row is well formed, the posts are those of the rows, one for
/// each and in their order.
pub proof fn lemma_ranked_items_of_well_formed(rows: Seq<RowView>)
    requires
        forall|i: int| 0 <= i < rows.len() ==> ranked_item(#[trigger] rows[i]) is Some,
    ensures
        ranked_items(rows).len() == rows.len(),
        forall|i: int|
            0 <= i < rows.len() ==> #[trigger] ranked_items(rows)[i] == ranked_item(rows[i])->0,
    decreases rows.len(),
{
    if rows.len() > 0 {
        let front = rows.drop_last();
        assert forall|i: int| 0 <= i < front.len() implies ranked_item(
            #[trigger] front[i],
        ) is Some by {
            assert(front[i] == rows[i]);
        }
        lemma_ranked_items_of_well_formed(front);
        assert(ranked_item(rows[rows.len() - 1]) is Some);
        assert forall|i: int| 0 <= i < rows.len() implies #[trigger] ranked_items(rows)[i]
            == ranked_item(rows[i])->0 by {
            if i < front.len() {
                assert(front[i] == rows[i]);
                assert(ranked_items(rows)[i] == ranked_items(front)[i]);
            }
        }
    }
}

/// What is read from the post of a row.
fn post_columns() -> (shape: ColumnShape)
    ensures
        shape.deep_view() == post_shape(),
{
    let mut properties: Vec<PropertyShape> = Vec::new();
    properties.push(PropertyShape::new(ID_PROPERTY, ValueKind::Text));
    properties.push(PropertyShape::new(DESCRIPTION_PROPERTY, ValueKind::Text));
    properties.push(PropertyShape::new(HASH_PROPERTY, ValueKind::TextList));
    assert(properties.deep_view() =~= seq![
        property_shape(ID_PROPERTY@, ValueKind::Text),
        property_shape(DESCRIPTION_PROPERTY@, ValueKind::Text),
        property_shape(HASH_PROPERTY@, ValueKind::TextList),
    ]);
    ColumnShape::node(POST_COLUMN, properties)
}

/// The request that ranks `candidates` for `identity`: the ranking query
/// with the identity and the candidates bound into it.
pub fn request(identity: &String, candidates: &Vec<String>) -> (request: Request)
    ensures
        request.deep_view() == ranking_request(identity@, candidates.deep_view()),
{
    let mut parameters: Vec<Parameter> = Vec::new();
    parameters.push(Parameter::text(IDENTITY_PARAMETER, identity));
    parameters.push(Parameter::text_list(CANDIDATES_PARAMETER, candidates));
    assert(parameters.deep_view() =~= ranking_request(
        identity@,
        candidates.deep_view(),
    ).parameters);
    let mut creator: Vec<PropertyShape> = Vec::new();
    creator.push(PropertyShape::new(NAME_PROPERTY, ValueKind::Text));
    assert(creator.deep_view() =~= seq![property_shape(NAME_PROPERTY@, ValueKind::Text)]);
    let mut shape: Vec<ColumnShape> = Vec::new();
    shape.push(post_columns());
    shape.push(ColumnShape::scalar(LIKES_COLUMN, ValueKind::Integer));
    shape.push(ColumnShape::node(CREATOR_COLUMN, creator));
    shape.push(ColumnShape::scalar(LIKED_COLUMN, ValueKind::Flag));
    assert(shape.deep_view() =~= ranking_shape());
    Request { query: RANKING_QUERY.to_owned(), parameters, shape }
}

/// The request for the most liked posts.
pub fn most_liked() -> (request: Request)
    ensures
        request.deep_view() == most_liked_request(),
{
    let parameters: Vec<Parameter> = Vec::new();
    assert(parameters.deep_view() =~= Seq::empty());
    let mut shape: Vec<ColumnShape> = Vec::new();
    shape.push(post_columns());
    shape.push(ColumnShape::scalar(LIKES_COLUMN, ValueKind::Integer));
    shape.push(ColumnShape::scalar(AUTHOR_COLUMN, ValueKind::Text));
    assert(shape.deep_view() =~= most_liked_shape());
    Request { query: MOST_LIKED_QUERY.to_owned(), parameters, shape }
}

/// The post that a row of the ranking holds, or none where the row lacks a
/// required field.
pub fn decode_ranked_item(row: &Row) -> (post: Option<Post>)
    ensures
        post.deep_view() == ranked_item(row.deep_view()),
{
    let post_column = POST_COLUMN.to_owned();
    let id = row.node_text(&post_column, &ID_PROPERTY.to_owned());
    let description = row.node_text(&post_column, &DESCRIPTION_PROPERTY.to_owned());
    let hash = row.node_text_list(&post_column, &HASH_PROPERTY.to_owned());
    let author = row.node_text(&CREATOR_COLUMN.to_owned(), &NAME_PROPERTY.to_owned());
    let likes = row.integer(&LIKES_COLUMN.to_owned());
    let liked = row.flag(&LIKED_COLUMN.to_owned());
    match (id, description, hash, author, likes, liked) {
        (Some(id), Some(description), Some(hash), Some(author), Some(likes), Some(_)) => Some(
            Post {
                id: id.clone(),
                description: description.clone(),
                author: author.clone(),
                hash: copy_texts(hash),
                like: #[verifier::truncate]
                (likes as u32),
            },
        ),
        _ => None,
    }
}

/// The post that a row of the most liked posts holds, or none where the row
/// lacks a required field.
pub fn decode_most_liked_item(row: &Row) -> (post: Option<Post>)
    ensures
        post.deep_view() == most_liked_item(row.deep_view()),
{
    let post_column = POST_COLUMN.to_owned();
    let id = row.node_text(&post_column, &ID_PROPERTY.to_owned());
    let description = row.node_text(&post_column, &DESCRIPTION_PROPERTY.to_owned());
    let hash = row.node_text_list(&post_column, &HASH_PROPERTY.to_owned());
    let author = row.text(&AUTHOR_COLUMN.to_owned());
    let likes = row.integer(&LIKES_COLUMN.to_owned());
    match (id, description, hash, author, likes) {
        (Some(id), Some(description), Some(hash), Some(author), Some(likes)) => Some(
            Post {
                id: id.clone(),
                description: description.clone(),
                author: author.clone(),
                hash: copy_texts(hash),
                like: #[verifier::truncate]
                (likes as u32),
            },
        ),
        _ => None,
    }
}

/// The feed that the rows of a ranking come to: the posts of the well
/// formed rows, in the order of the rows, cut after `TOP_K` posts.
pub fn assemble_feed(rows: &Vec<Row>) -> (feed: Vec<Post>)
    ensures
        feed.deep_view() == ranked_feed(rows.deep_view()),
        feed.len() <= TOP_K,
{
    let ghost all = rows.deep_view();
    let mut feed: Vec<Post> = Vec::new();
    let mut i: usize = 0;
    assert(all.take(0) =~= Seq::empty());
    assert(feed.deep_view() =~= Seq::empty());
    while i < rows.len()
        invariant
            i <= rows.len(),
            all == rows.deep_view(),
            feed.len() <= TOP_K,
            feed.deep_view() == bounded(ranked_items(all.take(i as int)), TOP_K as nat),
        decreases rows.len() - i,
    {
        let ghost held = feed.deep_view();
        let ghost read = ranked_items(all.take(i as int));
        assert(all.take(i + 1).drop_last() =~= all.take(i as int));
        assert(all.take(i + 1).last() == rows[i as int].deep_view());
        if feed.len() < TOP_K {
            match decode_ranked_item(&rows[i]) {
                Some(post) => {
                    feed.push(post);
                    assert(feed.deep_view() =~= held.push(post.deep_view()));
                },
                None => {},
            }
        } else {
            proof {
                assert(held =~= read.take(TOP_K as int));
                match ranked_item(rows[i as int].deep_view()) {
                    Some(post) => {
                        assert(read.push(post).take(TOP_K as int) =~= read.take(TOP_K as int));
                    },
                    None => {},
                }
            }
        }
        i = i + 1;
    }
    assert(all.take(rows.len() as int) =~= all);
    feed
}

/// The places, among `rows`, of the rows that lack a required field and are
/// left out of the feed, in ascending order; for the caller to note them.
pub fn skipped(rows: &Vec<Row>) -> (places: Vec<usize>)
    ensures
        places@.len() == skipped_rows(rows.deep_view()).len(),
        forall|k: int| 0 <= k < places@.len() ==> places@[k] == skipped_rows(rows.deep_view())[k],
{
    let ghost all = rows.deep_view();
    let mut places: Vec<usize> = Vec::new();
    let mut i: usize = 0;
    assert(all.take(0) =~= Seq::empty());
    while i < rows.len()
        invariant
            i <= rows.len(),
            all == rows.deep_view(),
            places@.len() == skipped_rows(all.take(i as int)).len(),
            forall|k: int|
                0 <= k < places@.len() ==> places@[k] == skipped_rows(all.take(i as int))[k],
        decreases rows.len() - i,
    {
        assert(all.take(i + 1).drop_last() =~= all.take(i as int));
        assert(all.take(i + 1).last() == rows[i as int].deep_view());
        if decode_ranked_item(&rows[i]).is_none() {
            places.push(i);
        }
        i = i + 1;
    }
    assert(all.take(rows.len() as int) =~= all);
    places
}

/// The most liked posts that `rows` hold, one for each row and in their
/// order, or none where a row lacks a required field.
pub fn most_liked_posts(rows: &Vec<Row>) -> (posts: Option<Vec<Post>>)
    ensures
        posts is Some <==> all_most_liked(rows.deep_view()),
        posts is Some ==> posts->0.deep_view() == most_liked_items(rows.deep_view()),
{
    let ghost all = rows.deep_view();
    let mut posts: Vec<Post> = Vec::new();
    let mut i: usize = 0;
    while i < rows.len()
        invariant
            i <= rows.len(),
            all == rows.deep_view(),
            posts.len() == i,
            forall|k: int|
                0 <= k < i ==> most_liked_item(#[trigger] all[k]) == Some(posts[k].deep_view()),
        decreases rows.len() - i,
    {
        assert(all[i as int] == rows[i as int].deep_view());
        match decode_most_liked_item(&rows[i]) {
            Some(post) => {
                posts.push(post);
            },
            None => {
                return None;
            },
        }
        i = i + 1;
    }
    assert(posts.deep_view() =~= most_liked_items(all));
    Some(posts)
}

/// The reply to a request for the most liked posts, given how the request
/// to the backend ended.
pub fn reply_with_most_liked(outcome: &Outcome) -> (reply: Reply)
    ensures
        reply.deep_view() == most_liked_reply(outcome.deep_view()),
{
    match outcome {
        Outcome::Rows(rows) => match most_liked_posts(rows) {
            Some(posts) => Reply::posts(posts),
            None => Reply::failure(STATUS_INTERNAL_SERVER_ERROR, INTERNAL_SERVER_ERROR),
        },
        Outcome::Failed => Reply::failure(STATUS_INTERNAL_SERVER_ERROR, INTERNAL_SERVER_ERROR),
    }
}

} // verus!
