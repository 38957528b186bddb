use recommendation::candidates::{
    candidates_of, decode_candidate, decode_candidates, fixed_sources, requests_for, row_shape,
    settle, Source,
    SourceFailure, QUERY_LAST_COMMUNITY_POST, QUERY_LAST_FOLLOWING_POST, QUERY_LAST_LIKED_POST,
};
use recommendation::gateway::{CellShape, Outcome, ValueKind};
use recommendation::row::{Cell, Column, Property, Row, Scalar};

fn post_row(id: &str) -> Row {
    Row {
        columns: vec![Column {
            name: "p".to_string(),
            cell: Cell::Node(vec![Property {
                name: "id".to_string(),
                value: Scalar::Text(id.to_string()),
            }]),
        }],
    }
}

fn rows(ids: &[&str]) -> Outcome {
    Outcome::Rows(ids.iter().map(|id| post_row(id)).collect())
}

#[test]
fn the_sources_come_in_priority_order() {
    let sources = fixed_sources();
    let names: Vec<&str> = sources.iter().map(|source| source.name.as_str()).collect();
    assert_eq!(names, vec!["last liked topic", "followed authors", "community affinity"]);
    assert_eq!(sources[0].query, QUERY_LAST_LIKED_POST);
    assert_eq!(sources[1].query, QUERY_LAST_FOLLOWING_POST);
    assert_eq!(sources[2].query, QUERY_LAST_COMMUNITY_POST);
}

#[test]
fn every_source_is_asked_with_the_identity_as_its_one_parameter() {
    let requests = requests_for(&"alice".to_string(), &fixed_sources());
    assert_eq!(requests.len(), 3);
    for (request, source) in requests.iter().zip(fixed_sources()) {
        assert_eq!(request.query, source.query);
        assert_eq!(request.parameters.len(), 1);
        assert_eq!(request.parameters[0].name, "id");
        assert_eq!(request.parameters[0].value, Scalar::Text("alice".to_string()));
        assert_eq!(request.shape, row_shape());
    }
}

#[test]
fn no_source_means_no_request() {
    assert!(requests_for(&"alice".to_string(), &Vec::new()).is_empty());
}

#[test]
fn the_shape_of_a_source_row_is_the_id_of_its_post() {
    let shape = row_shape();
    assert_eq!(shape.len(), 1);
    assert_eq!(shape[0].name, "p");
    match &shape[0].cell {
        CellShape::Node(properties) => {
            assert_eq!(properties.len(), 1);
            assert_eq!(properties[0].name, "id");
            assert_eq!(properties[0].kind, ValueKind::Text);
        },
        CellShape::Scalar(_) => panic!("the post is a node"),
    }
}

#[test]
fn a_row_holds_the_id_of_its_post() {
    assert_eq!(decode_candidate(&post_row("p42")), Some("p42".to_string()));
}

#[test]
fn a_row_without_a_post_or_without_an_id_holds_no_candidate() {
    assert_eq!(decode_candidate(&Row { columns: Vec::new() }), None);
    let no_id = Row { columns: vec![Column { name: "p".to_string(), cell: Cell::Node(Vec::new()) }] };
    assert_eq!(decode_candidate(&no_id), None);
    let number_id = Row {
        columns: vec![Column {
            name: "p".to_string(),
            cell: Cell::Node(vec![Property { name: "id".to_string(), value: Scalar::Integer(42) }]),
        }],
    };
    assert_eq!(decode_candidate(&number_id), None);
    let plain = Row {
        columns: vec![Column {
            name: "p".to_string(),
            cell: Cell::Scalar(Scalar::Text("p42".to_string())),
        }],
    };
    assert_eq!(decode_candidate(&plain), None);
    let other_column = Row {
        columns: vec![Column { name: "q".to_string(), cell: post_row("p42").columns[0].cell.clone() }],
    };
    assert_eq!(decode_candidate(&other_column), None);
}

#[test]
fn candidates_keep_the_order_of_their_rows() {
    let rows = vec![post_row("p3"), post_row("p1"), post_row("p2")];
    assert_eq!(
        decode_candidates(&rows),
        Some(vec!["p3".to_string(), "p1".to_string(), "p2".to_string()])
    );
    assert_eq!(decode_candidates(&Vec::new()), Some(Vec::new()));
}

#[test]
fn one_row_that_cannot_be_decoded_leaves_no_candidates() {
    let no_post = Row { columns: Vec::new() };
    let number_id = Row {
        columns: vec![Column {
            name: "p".to_string(),
            cell: Cell::Node(vec![Property { name: "id".to_string(), value: Scalar::Integer(7) }]),
        }],
    };
    for broken in [no_post, number_id] {
        for place in 0..3 {
            let mut rows = vec![post_row("p3"), post_row("p1")];
            rows.insert(place, broken.clone());
            assert_eq!(decode_candidates(&rows), None);
            assert_eq!(candidates_of(&Outcome::Rows(rows)), None);
        }
    }
}

#[test]
fn a_source_contributes_its_candidates_or_has_failed() {
    assert_eq!(candidates_of(&rows(&["a", "b"])), Some(vec!["a".to_string(), "b".to_string()]));
    assert_eq!(candidates_of(&rows(&[])), Some(Vec::new()));
    assert_eq!(candidates_of(&Outcome::Failed), None);
}

#[test]
fn a_source_with_a_row_that_cannot_be_decoded_has_failed() {
    let broken = Outcome::Rows(vec![post_row("b1"), Row { columns: Vec::new() }, post_row("b2")]);
    let report = settle(&fixed_sources(), &vec![rows(&["a"]), broken, rows(&["c"])]);
    assert_eq!(report.sets, vec![vec!["a".to_string()], Vec::new(), vec!["c".to_string()]]);
    assert_eq!(
        report.failures,
        vec![SourceFailure { index: 1, source: "followed authors".to_string() }]
    );
}

#[test]
fn every_source_gets_its_set_in_the_order_of_the_sources() {
    let report = settle(&fixed_sources(), &vec![rows(&["a", "b"]), rows(&[]), rows(&["c"])]);
    assert_eq!(
        report.sets,
        vec![vec!["a".to_string(), "b".to_string()], Vec::new(), vec!["c".to_string()]]
    );
    assert!(report.failures.is_empty());
}

#[test]
fn a_failed_source_contributes_an_empty_set_and_is_named() {
    let report = settle(&fixed_sources(), &vec![rows(&["a"]), Outcome::Failed, rows(&["c"])]);
    assert_eq!(report.sets, vec![vec!["a".to_string()], Vec::new(), vec!["c".to_string()]]);
    assert_eq!(
        report.failures,
        vec![SourceFailure { index: 1, source: "followed authors".to_string() }]
    );
}

#[test]
fn every_failed_source_is_reported_in_order() {
    let report = settle(&fixed_sources(), &vec![Outcome::Failed, rows(&["b"]), Outcome::Failed]);
    assert_eq!(report.sets, vec![Vec::new(), vec!["b".to_string()], Vec::new()]);
    assert_eq!(
        report.failures,
        vec![
            SourceFailure { index: 0, source: "last liked topic".to_string() },
            SourceFailure { index: 2, source: "community affinity".to_string() }
        ]
    );
}

#[test]
fn a_source_without_an_outcome_has_failed() {
    let report = settle(&fixed_sources(), &vec![rows(&["a"])]);
    assert_eq!(report.sets, vec![vec!["a".to_string()], Vec::new(), Vec::new()]);
    assert_eq!(
        report.failures,
        vec![
            SourceFailure { index: 1, source: "followed authors".to_string() },
            SourceFailure { index: 2, source: "community affinity".to_string() }
        ]
    );
}

#[test]
fn an_outcome_without_a_source_is_ignored() {
    let sources = vec![Source { name: "only".to_string(), query: "RETURN p".to_string() }];
    let report = settle(&sources, &vec![rows(&["a"]), Outcome::Failed]);
    assert_eq!(report.sets, vec![vec!["a".to_string()]]);
    assert!(report.failures.is_empty());
}
