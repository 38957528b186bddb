use recommendation::gateway::{CellShape, Outcome, ValueKind};
use recommendation::http::{Body, Reply};
use recommendation::model::Error;
use recommendation::model::Post;
use recommendation::ranking::{
    assemble_feed, decode_most_liked_item, decode_ranked_item, most_liked, most_liked_posts,
    reply_with_most_liked, request, skipped, MOST_LIKED_QUERY, RANKING_QUERY, TOP_K,
};
use recommendation::reading::{read_row_by, read_rows_by};
use recommendation::row::{Cell, Column, Property, Row, Scalar};

fn text(value: &str) -> Scalar {
    Scalar::Text(value.to_string())
}

fn property(name: &str, value: Scalar) -> Property {
    Property { name: name.to_string(), value }
}

fn column(name: &str, cell: Cell) -> Column {
    Column { name: name.to_string(), cell }
}

fn post_node(id: &str) -> Cell {
    Cell::Node(vec![
        property("id", text(id)),
        property("description", text(&format!("about {}", id))),
        property("hash", Scalar::TextList(vec![format!("h-{}", id), "shared".to_string()])),
    ])
}

fn creator_node(name: &str) -> Cell {
    Cell::Node(vec![property("name", text(name))])
}

fn ranking_row(id: &str, author: &str, likes: i64, liked: bool) -> Row {
    Row {
        columns: vec![
            column("p", post_node(id)),
            column("numLikes", Cell::Scalar(Scalar::Integer(likes))),
            column("creator", creator_node(author)),
            column("liked", Cell::Scalar(Scalar::Flag(liked))),
        ],
    }
}

fn without(row: &Row, name: &str) -> Row {
    Row { columns: row.columns.iter().filter(|column| column.name != name).cloned().collect() }
}

fn expected_post(id: &str, author: &str, like: u32) -> Post {
    Post {
        id: id.to_string(),
        description: format!("about {}", id),
        author: author.to_string(),
        hash: vec![format!("h-{}", id), "shared".to_string()],
        like,
    }
}

#[test]
fn a_well_formed_ranking_row_becomes_a_post() {
    let row = ranking_row("p1", "alice", 7, false);
    assert_eq!(decode_ranked_item(&row), Some(expected_post("p1", "alice", 7)));
}

#[test]
fn a_ranking_row_without_its_author_is_dropped() {
    let row = without(&ranking_row("p1", "alice", 7, false), "creator");
    assert_eq!(decode_ranked_item(&row), None);
}

#[test]
fn a_ranking_row_whose_author_has_no_name_is_dropped() {
    let mut row = ranking_row("p1", "alice", 7, false);
    row.columns[2] = column("creator", Cell::Node(vec![property("nick", text("alice"))]));
    assert_eq!(decode_ranked_item(&row), None);
}

#[test]
fn a_ranking_row_without_any_required_field_is_dropped() {
    let full = ranking_row("p1", "alice", 7, true);
    for name in ["p", "numLikes", "creator", "liked"] {
        assert_eq!(decode_ranked_item(&without(&full, name)), None, "without {}", name);
    }
    for name in ["id", "description", "hash"] {
        let mut row = full.clone();
        if let Cell::Node(properties) = &mut row.columns[0].cell {
            properties.retain(|property| property.name != name);
        }
        assert_eq!(decode_ranked_item(&row), None, "without {}", name);
    }
}

#[test]
fn a_ranking_row_with_a_field_of_the_wrong_kind_is_dropped() {
    let mut likes_as_text = ranking_row("p1", "alice", 7, true);
    likes_as_text.columns[1] = column("numLikes", Cell::Scalar(text("7")));
    assert_eq!(decode_ranked_item(&likes_as_text), None);
    let mut author_as_text = ranking_row("p1", "alice", 7, true);
    author_as_text.columns[2] = column("creator", Cell::Scalar(text("alice")));
    assert_eq!(decode_ranked_item(&author_as_text), None);
    let mut post_as_text = ranking_row("p1", "alice", 7, true);
    post_as_text.columns[0] = column("p", Cell::Scalar(text("p1")));
    assert_eq!(decode_ranked_item(&post_as_text), None);
    let mut flag_as_number = ranking_row("p1", "alice", 7, true);
    flag_as_number.columns[3] = column("liked", Cell::Scalar(Scalar::Integer(1)));
    assert_eq!(decode_ranked_item(&flag_as_number), None);
    let mut hash_as_text = ranking_row("p1", "alice", 7, true);
    if let Cell::Node(properties) = &mut hash_as_text.columns[0].cell {
        properties[2] = property("hash", text("h"));
    }
    assert_eq!(decode_ranked_item(&hash_as_text), None);
}

#[test]
fn the_first_column_of_a_name_is_the_one_that_counts() {
    let mut row = ranking_row("p1", "alice", 7, true);
    row.columns.push(column("numLikes", Cell::Scalar(Scalar::Integer(99))));
    row.columns.insert(0, column("creator", creator_node("bob")));
    assert_eq!(decode_ranked_item(&row), Some(expected_post("p1", "bob", 7)));
}

#[test]
fn the_like_count_is_the_low_32_bits_of_the_count() {
    let likes = |count: i64| decode_ranked_item(&ranking_row("p", "a", count, true)).unwrap().like;
    assert_eq!(likes(0), 0);
    assert_eq!(likes(4_294_967_295), u32::MAX);
    assert_eq!(likes(4_294_967_296), 0);
    assert_eq!(likes(4_294_967_301), 5);
    assert_eq!(likes(-1), u32::MAX);
    assert_eq!(likes(i64::MIN), 0);
}

#[test]
fn a_malformed_row_does_not_stop_the_rows_after_it() {
    let rows = vec![
        ranking_row("p1", "alice", 3, false),
        without(&ranking_row("p2", "bob", 9, false), "creator"),
        ranking_row("p3", "carol", 1, true),
    ];
    assert_eq!(
        assemble_feed(&rows),
        vec![expected_post("p1", "alice", 3), expected_post("p3", "carol", 1)]
    );
}

#[test]
fn a_feed_of_malformed_rows_only_is_empty() {
    let rows = vec![
        without(&ranking_row("p1", "alice", 3, false), "creator"),
        without(&ranking_row("p2", "bob", 9, false), "liked"),
        Row { columns: Vec::new() },
    ];
    assert!(assemble_feed(&rows).is_empty());
    assert!(assemble_feed(&Vec::new()).is_empty());
}

#[test]
fn a_feed_never_exceeds_fifteen_posts() {
    assert_eq!(TOP_K, 15);
    let rows: Vec<Row> =
        (0..40).map(|i| ranking_row(&format!("p{}", i), "alice", i, false)).collect();
    let feed = assemble_feed(&rows);
    assert_eq!(feed.len(), 15);
    let expected: Vec<Post> =
        (0..15).map(|i| expected_post(&format!("p{}", i), "alice", i as u32)).collect();
    assert_eq!(feed, expected);
}

#[test]
fn a_feed_of_exactly_fifteen_rows_holds_them_all() {
    let rows: Vec<Row> =
        (0..15).map(|i| ranking_row(&format!("p{}", i), "alice", i, false)).collect();
    assert_eq!(assemble_feed(&rows).len(), 15);
    assert_eq!(assemble_feed(&rows[..14].to_vec()).len(), 14);
}

#[test]
fn malformed_rows_do_not_count_against_the_bound() {
    let mut rows: Vec<Row> = Vec::new();
    for i in 0..20 {
        rows.push(without(&ranking_row(&format!("bad{}", i), "x", 0, false), "numLikes"));
        rows.push(ranking_row(&format!("p{}", i), "alice", i, false));
    }
    let feed = assemble_feed(&rows);
    assert_eq!(feed.len(), 15);
    assert_eq!(feed[14], expected_post("p14", "alice", 14));
}

#[test]
fn a_feed_keeps_the_order_of_the_backend() {
    let rows = vec![
        ranking_row("z", "a", 1, false),
        ranking_row("a", "a", 100, false),
        ranking_row("m", "a", 50, false),
    ];
    let order: Vec<String> = assemble_feed(&rows).into_iter().map(|post| post.id).collect();
    assert_eq!(order, vec!["z".to_string(), "a".to_string(), "m".to_string()]);
}

#[test]
fn the_ranking_request_binds_the_identity_and_the_candidates() {
    let candidates = vec!["p1".to_string(), "p2".to_string()];
    let ranking = request(&"alice".to_string(), &candidates);
    assert_eq!(ranking.query, RANKING_QUERY);
    assert!(ranking.query.contains("LIMIT 15"));
    assert_eq!(ranking.parameters.len(), 2);
    assert_eq!(ranking.parameters[0].name, "id");
    assert_eq!(ranking.parameters[0].value, Scalar::Text("alice".to_string()));
    assert_eq!(ranking.parameters[1].name, "list");
    assert_eq!(ranking.parameters[1].value, Scalar::TextList(candidates));
}

#[test]
fn the_ranking_request_asks_for_every_field_that_a_post_needs() {
    let ranking = request(&"alice".to_string(), &Vec::new());
    let names: Vec<&str> = ranking.shape.iter().map(|column| column.name.as_str()).collect();
    assert_eq!(names, vec!["p", "numLikes", "creator", "liked"]);
    match &ranking.shape[0].cell {
        CellShape::Node(properties) => {
            let read: Vec<(&str, ValueKind)> =
                properties.iter().map(|shape| (shape.name.as_str(), shape.kind)).collect();
            assert_eq!(
                read,
                vec![
                    ("id", ValueKind::Text),
                    ("description", ValueKind::Text),
                    ("hash", ValueKind::TextList)
                ]
            );
        },
        CellShape::Scalar(_) => panic!("the post is a node"),
    }
    assert_eq!(ranking.shape[1].cell, CellShape::Scalar(ValueKind::Integer));
    assert_eq!(ranking.shape[3].cell, CellShape::Scalar(ValueKind::Flag));
}

fn most_liked_row(id: &str, author: &str, likes: i64) -> Row {
    Row {
        columns: vec![
            column("p", post_node(id)),
            column("numLikes", Cell::Scalar(Scalar::Integer(likes))),
            column("author", Cell::Scalar(text(author))),
        ],
    }
}

#[test]
fn the_most_liked_posts_are_read_row_by_row() {
    let rows = vec![most_liked_row("p9", "zoe", 12), most_liked_row("p2", "yan", 11)];
    assert_eq!(
        most_liked_posts(&rows),
        Some(vec![expected_post("p9", "zoe", 12), expected_post("p2", "yan", 11)])
    );
    assert_eq!(most_liked_posts(&Vec::new()), Some(Vec::new()));
}

#[test]
fn one_malformed_row_fails_the_most_liked_posts() {
    let rows = vec![
        most_liked_row("p9", "zoe", 12),
        without(&most_liked_row("p2", "yan", 11), "author"),
        most_liked_row("p3", "xi", 10),
    ];
    assert_eq!(most_liked_posts(&rows), None);
    assert_eq!(decode_most_liked_item(&rows[1]), None);
    assert_eq!(decode_most_liked_item(&rows[2]), Some(expected_post("p3", "xi", 10)));
}

#[test]
fn the_most_liked_request_has_no_parameter() {
    let request = most_liked();
    assert_eq!(request.query, MOST_LIKED_QUERY);
    assert!(request.parameters.is_empty());
    let names: Vec<&str> = request.shape.iter().map(|column| column.name.as_str()).collect();
    assert_eq!(names, vec!["p", "numLikes", "author"]);
}

#[test]
fn the_most_liked_posts_are_replied_or_the_service_has_failed() {
    let failure = Reply {
        status: 500,
        body: Body::Report(Error { error: true, message: "Internal server error".to_string() }),
    };
    let rows = vec![most_liked_row("p9", "zoe", 12)];
    assert_eq!(
        reply_with_most_liked(&Outcome::Rows(rows.clone())),
        Reply { status: 200, body: Body::Posts(vec![expected_post("p9", "zoe", 12)]) }
    );
    assert_eq!(
        reply_with_most_liked(&Outcome::Rows(Vec::new())),
        Reply { status: 200, body: Body::Posts(Vec::new()) }
    );
    assert_eq!(reply_with_most_liked(&Outcome::Failed), failure);
    let malformed = vec![rows[0].clone(), without(&rows[0], "numLikes")];
    assert_eq!(reply_with_most_liked(&Outcome::Rows(malformed)), failure);
}

#[test]
fn the_rows_that_are_left_out_are_given_by_their_places() {
    let rows = vec![
        without(&ranking_row("p0", "a", 1, false), "liked"),
        ranking_row("p1", "alice", 3, false),
        without(&ranking_row("p2", "bob", 9, false), "creator"),
        ranking_row("p3", "carol", 1, true),
        Row { columns: Vec::new() },
    ];
    assert_eq!(skipped(&rows), vec![0, 2, 4]);
    assert_eq!(assemble_feed(&rows).len() + skipped(&rows).len(), rows.len());
    assert!(skipped(&rows[1..2].to_vec()).is_empty());
    assert!(skipped(&Vec::new()).is_empty());
}

#[test]
fn rows_past_the_bound_are_not_skipped_rows() {
    let rows: Vec<Row> =
        (0..20).map(|i| ranking_row(&format!("p{}", i), "alice", i, false)).collect();
    assert!(skipped(&rows).is_empty());
    assert_eq!(assemble_feed(&rows).len(), 15);
}

#[test]
fn a_row_read_by_the_shape_of_the_ranking_holds_the_same_post() {
    let shape = request(&"alice".to_string(), &Vec::new()).shape;
    let mut row = ranking_row("p1", "alice", 7, true);
    row.columns.insert(0, column("extra", Cell::Scalar(text("x"))));
    row.columns.push(column("numLikes", Cell::Scalar(Scalar::Integer(99))));
    if let Cell::Node(properties) = &mut row.columns[1].cell {
        properties.insert(0, property("title", text("t")));
        properties.push(property("id", text("later")));
    }
    let read = read_row_by(&row, &shape);
    assert_eq!(
        read,
        Row {
            columns: vec![
                column("p", post_node("p1")),
                column("numLikes", Cell::Scalar(Scalar::Integer(7))),
                column("creator", creator_node("alice")),
                column("liked", Cell::Scalar(Scalar::Flag(true))),
            ],
        }
    );
    assert_eq!(decode_ranked_item(&read), decode_ranked_item(&row));
    assert_eq!(decode_ranked_item(&read), Some(expected_post("p1", "alice", 7)));
}

#[test]
fn a_reader_leaves_out_what_is_missing_or_of_another_kind() {
    let shape = request(&"alice".to_string(), &Vec::new()).shape;
    let mut row = ranking_row("p1", "alice", 7, true);
    row.columns[1] = column("numLikes", Cell::Scalar(text("7")));
    row.columns[2] = column("creator", Cell::Scalar(text("alice")));
    if let Cell::Node(properties) = &mut row.columns[0].cell {
        properties[2] = property("hash", text("h"));
    }
    let read = read_row_by(&row, &shape);
    assert_eq!(
        read,
        Row {
            columns: vec![
                column(
                    "p",
                    Cell::Node(vec![
                        property("id", text("p1")),
                        property("description", text("about p1")),
                    ])
                ),
                column("liked", Cell::Scalar(Scalar::Flag(true))),
            ],
        }
    );
    assert_eq!(decode_ranked_item(&read), None);
    assert_eq!(read_row_by(&row, &Vec::new()), Row { columns: Vec::new() });
}

#[test]
fn rows_read_by_the_shape_come_to_the_same_feed() {
    let shape = request(&"alice".to_string(), &Vec::new()).shape;
    let rows = vec![
        ranking_row("p1", "alice", 3, false),
        without(&ranking_row("p2", "bob", 9, false), "creator"),
        ranking_row("p3", "carol", 1, true),
    ];
    let read = read_rows_by(&rows, &shape);
    assert_eq!(read.len(), 3);
    assert_eq!(assemble_feed(&read), assemble_feed(&rows));
    assert_eq!(skipped(&read), vec![1]);
    assert!(read_rows_by(&Vec::new(), &shape).is_empty());
}
