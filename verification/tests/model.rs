use recommendation::model::{copy_posts, Claims, Error, Post};
use recommendation::row::{copy_texts, Cell, Column, Property, Row, Scalar};
use recommendation::settings::{
    graph_settings, index_settings, port_or, GraphSettings, IndexSettings,
    DEFAULT_RECOMMENDATION_PORT, DEFAULT_SEARCH_PORT,
};

#[test]
fn claims_keep_what_they_were_made_with() {
    let claims = Claims::new(
        "alice".to_string(),
        vec!["read".to_string(), "write".to_string()],
        1_700_003_600,
        "https://issuer.example".to_string(),
        1_700_000_000,
    );
    assert_eq!(claims.subject(), "alice");
    assert_eq!(claims.sub, "alice");
    assert_eq!(claims.scopes(), &vec!["read".to_string(), "write".to_string()]);
    assert_eq!(claims.expires_at(), 1_700_003_600);
    assert_eq!(claims.issuer(), "https://issuer.example");
    assert_eq!(claims.issued_at(), 1_700_000_000);
}

#[test]
fn a_failure_is_an_error_and_a_confirmation_is_none() {
    assert_eq!(Error::failure("broken"), Error { error: true, message: "broken".to_string() });
    assert_eq!(Error::confirmation("done"), Error { error: false, message: "done".to_string() });
}

#[test]
fn a_copy_of_a_post_is_the_post() {
    let post = Post {
        id: "p1".to_string(),
        description: "d".to_string(),
        author: "a".to_string(),
        hash: vec!["h1".to_string(), "h2".to_string()],
        like: 9,
    };
    assert_eq!(post.copy(), post);
    assert_eq!(copy_posts(&vec![post.clone(), post.clone()]), vec![post.clone(), post]);
    assert!(copy_posts(&Vec::new()).is_empty());
    assert_eq!(copy_texts(&vec!["x".to_string(), "".to_string()]), vec!["x".to_string(), "".to_string()]);
}

fn sample_row() -> Row {
    Row {
        columns: vec![
            Column { name: "count".to_string(), cell: Cell::Scalar(Scalar::Integer(-3)) },
            Column { name: "name".to_string(), cell: Cell::Scalar(Scalar::Text("n".to_string())) },
            Column { name: "seen".to_string(), cell: Cell::Scalar(Scalar::Flag(true)) },
            Column {
                name: "node".to_string(),
                cell: Cell::Node(vec![
                    Property { name: "title".to_string(), value: Scalar::Text("t".to_string()) },
                    Property {
                        name: "tags".to_string(),
                        value: Scalar::TextList(vec!["a".to_string(), "b".to_string()]),
                    },
                    Property { name: "title".to_string(), value: Scalar::Text("later".to_string()) },
                ]),
            },
            Column { name: "count".to_string(), cell: Cell::Scalar(Scalar::Integer(8)) },
        ],
    }
}

#[test]
fn a_row_gives_the_value_of_the_first_column_of_a_name() {
    let row = sample_row();
    assert_eq!(row.integer(&"count".to_string()), Some(-3));
    assert_eq!(row.text(&"name".to_string()), Some(&"n".to_string()));
    assert_eq!(row.flag(&"seen".to_string()), Some(true));
    assert_eq!(row.node_text(&"node".to_string(), &"title".to_string()), Some(&"t".to_string()));
    assert_eq!(
        row.node_text_list(&"node".to_string(), &"tags".to_string()),
        Some(&vec!["a".to_string(), "b".to_string()])
    );
}

#[test]
fn a_row_gives_nothing_for_what_is_missing_or_of_another_kind() {
    let row = sample_row();
    assert_eq!(row.integer(&"missing".to_string()), None);
    assert_eq!(row.integer(&"name".to_string()), None);
    assert_eq!(row.text(&"count".to_string()), None);
    assert_eq!(row.flag(&"name".to_string()), None);
    assert_eq!(row.text(&"node".to_string()), None);
    assert_eq!(row.scalar(&"node".to_string()), None);
    assert_eq!(row.node_text(&"name".to_string(), &"title".to_string()), None);
    assert_eq!(row.node_text(&"node".to_string(), &"tags".to_string()), None);
    assert_eq!(row.node_text(&"node".to_string(), &"missing".to_string()), None);
    assert_eq!(row.node_text_list(&"node".to_string(), &"title".to_string()), None);
    assert_eq!(row.node_property(&"missing".to_string(), &"title".to_string()), None);
    assert_eq!(row.cell(&"Count".to_string()), None);
}

#[test]
fn what_is_not_configured_has_its_default() {
    assert_eq!(
        graph_settings(None, None, None),
        GraphSettings {
            url: "bolt://127.0.0.1:7687".to_string(),
            username: String::new(),
            password: String::new(),
        }
    );
    assert_eq!(
        index_settings(None, None),
        IndexSettings { url: "localhost:7700".to_string(), key: String::new() }
    );
    assert_eq!(port_or(None, DEFAULT_RECOMMENDATION_PORT), 8889);
    assert_eq!(port_or(None, DEFAULT_SEARCH_PORT), 8890);
}

#[test]
fn what_is_configured_is_kept() {
    assert_eq!(
        graph_settings(Some("bolt://graph:7687".to_string()), Some("neo".to_string()), None),
        GraphSettings {
            url: "bolt://graph:7687".to_string(),
            username: "neo".to_string(),
            password: String::new(),
        }
    );
    assert_eq!(
        graph_settings(None, None, Some("pw".to_string())).password,
        "pw".to_string()
    );
    assert_eq!(
        index_settings(Some("search:7700".to_string()), Some("key".to_string())),
        IndexSettings { url: "search:7700".to_string(), key: "key".to_string() }
    );
    assert_eq!(port_or(Some(80), DEFAULT_RECOMMENDATION_PORT), 80);
    assert_eq!(port_or(Some(0), DEFAULT_SEARCH_PORT), 0);
}
