use minik::board::project_data_from_response;
use minik::error::ApiError;
use minik::json::JsonValue;
use minik::schema::extract_columns;

fn s(v: &str) -> JsonValue {
    JsonValue::Str(v.to_string())
}

fn obj(pairs: Vec<(&str, JsonValue)>) -> JsonValue {
    JsonValue::Obj(pairs.into_iter().map(|(k, v)| (k.to_string(), v)).collect())
}

fn arr(items: Vec<JsonValue>) -> JsonValue {
    JsonValue::Arr(items)
}

fn option_node(id: &str, name: &str) -> JsonValue {
    obj(vec![("id", s(id)), ("name", s(name))])
}

fn status_view(field_id: &str, field_name: &str, options: Vec<JsonValue>) -> JsonValue {
    obj(vec![(
        "nodes",
        arr(vec![obj(vec![(
            "fields",
            obj(vec![(
                "nodes",
                arr(vec![obj(vec![
                    ("id", s(field_id)),
                    ("name", s(field_name)),
                    ("options", arr(options)),
                ])]),
            )]),
        )])]),
    )])
}

fn item_node(id: &str, title: Option<&str>, option_id: Option<&str>) -> JsonValue {
    let field_values = match option_id {
        Some(oid) => arr(vec![obj(vec![("optionId", s(oid))])]),
        None => arr(vec![]),
    };
    let content = match title {
        Some(t) => obj(vec![("title", s(t))]),
        None => JsonValue::Null,
    };
    obj(vec![
        ("id", s(id)),
        ("content", content),
        ("fieldValues", obj(vec![("nodes", field_values)])),
    ])
}

fn board_response(node: JsonValue) -> JsonValue {
    obj(vec![("data", obj(vec![("node", node)]))])
}

fn sample_board(items: Vec<JsonValue>) -> JsonValue {
    obj(vec![
        ("id", s("B1")),
        ("title", s("Sample board")),
        ("number", JsonValue::UInt(7)),
        ("url", s("https://example.test/board/7")),
        (
            "views",
            status_view(
                "F1",
                "Status",
                vec![option_node("O1", "Todo"), option_node("O2", "Done")],
            ),
        ),
        ("items", obj(vec![("nodes", arr(items))])),
    ])
}

#[test]
fn end_to_end_two_columns_one_classified_item() {
    let response = board_response(sample_board(vec![
        item_node("I1", Some("First"), Some("O1")),
        item_node("I2", Some("Second"), None),
    ]));
    let data = project_data_from_response(&response, "Status").unwrap();

    assert_eq!(data.project.id, "B1");
    assert_eq!(data.project.title, "Sample board");
    assert_eq!(data.project.number, 7);
    assert_eq!(data.status_field_id, "F1");

    assert_eq!(data.columns.len(), 2);
    assert_eq!(data.columns[0].id, "O1");
    assert_eq!(data.columns[0].name, "Todo");
    assert_eq!(data.columns[0].items_count, 1);
    assert_eq!(data.columns[1].id, "O2");
    assert_eq!(data.columns[1].name, "Done");
    assert_eq!(data.columns[1].items_count, 0);

    assert_eq!(data.items.len(), 2);
    assert_eq!(data.items[0].column_id, "O1");
    assert_eq!(data.items[1].column_id, "");
    assert!(data.hidden_columns.is_empty());
}

#[test]
fn null_board_node_is_not_found() {
    let response = obj(vec![("data", obj(vec![("node", JsonValue::Null)]))]);
    let r = project_data_from_response(&response, "Status");
    assert_eq!(r.unwrap_err(), ApiError::NotFound);
}

#[test]
fn missing_board_node_is_not_found() {
    let response = obj(vec![("data", obj(vec![]))]);
    let r = project_data_from_response(&response, "Status");
    assert_eq!(r.unwrap_err(), ApiError::NotFound);
}

#[test]
fn zero_views_yield_no_columns_and_empty_field_id() {
    let node = obj(vec![
        ("id", s("B2")),
        ("views", obj(vec![("nodes", arr(vec![]))])),
    ]);
    let (columns, field_id) = extract_columns(&node, "Status");
    assert!(columns.is_empty());
    assert_eq!(field_id, "");
}

#[test]
fn empty_options_still_capture_field_id() {
    let node = obj(vec![("views", status_view("F9", "Status", vec![]))]);
    let (columns, field_id) = extract_columns(&node, "Status");
    assert!(columns.is_empty());
    assert_eq!(field_id, "F9");
}

#[test]
fn differently_named_field_is_not_a_candidate() {
    let node = obj(vec![(
        "views",
        status_view("F1", "Priority", vec![option_node("O1", "High")]),
    )]);
    let (columns, field_id) = extract_columns(&node, "Status");
    assert!(columns.is_empty());
    assert_eq!(field_id, "");
}

#[test]
fn field_name_match_is_case_sensitive() {
    let node = obj(vec![(
        "views",
        status_view("F1", "status", vec![option_node("O1", "Todo")]),
    )]);
    let (columns, field_id) = extract_columns(&node, "Status");
    assert!(columns.is_empty());
    assert_eq!(field_id, "");
}

#[test]
fn same_named_field_without_options_is_skipped() {
    // Two fields named "Status": the first has no option list, so only the
    // second is a candidate.
    let node = obj(vec![(
        "views",
        obj(vec![(
            "nodes",
            arr(vec![obj(vec![(
                "fields",
                obj(vec![(
                    "nodes",
                    arr(vec![
                        obj(vec![("id", s("F1")), ("name", s("Status"))]),
                        obj(vec![
                            ("id", s("F2")),
                            ("name", s("Status")),
                            ("options", arr(vec![option_node("O9", "Later")])),
                        ]),
                    ]),
                )]),
            )])]),
        )]),
    )]);
    let (columns, field_id) = extract_columns(&node, "Status");
    assert_eq!(field_id, "F2");
    assert_eq!(columns.len(), 1);
    assert_eq!(columns[0].id, "O9");
}

#[test]
fn null_content_items_are_excluded_from_items_and_counts() {
    let response = board_response(sample_board(vec![
        item_node("I1", Some("Kept"), Some("O1")),
        item_node("I2", None, Some("O1")),
        item_node("I3", None, None),
    ]));
    let data = project_data_from_response(&response, "Status").unwrap();
    assert_eq!(data.items.len(), 1);
    assert_eq!(data.items[0].id, "I1");
    assert_eq!(data.columns[0].items_count, 1);
    assert_eq!(data.columns[1].items_count, 0);
}

#[test]
fn column_counts_match_item_classification() {
    let response = board_response(sample_board(vec![
        item_node("I1", Some("a"), Some("O1")),
        item_node("I2", Some("b"), Some("O2")),
        item_node("I3", Some("c"), Some("O1")),
        item_node("I4", Some("d"), None),
        item_node("I5", Some("e"), Some("ghost-column")),
    ]));
    let data = project_data_from_response(&response, "Status").unwrap();
    for column in &data.columns {
        let classified = data
            .items
            .iter()
            .filter(|it| it.column_id == column.id)
            .count();
        assert_eq!(column.items_count, classified);
    }
    // A count recorded for an id no column carries is silently dropped.
    assert_eq!(data.columns.len(), 2);
}

#[test]
fn fetching_twice_with_no_remote_change_is_idempotent() {
    let response = board_response(sample_board(vec![
        item_node("I1", Some("First"), Some("O1")),
        item_node("I2", Some("Second"), None),
    ]));
    let first = project_data_from_response(&response, "Status").unwrap();
    let second = project_data_from_response(&response, "Status").unwrap();
    assert_eq!(first, second);
}

#[test]
fn first_field_value_wins_for_classification() {
    let item = obj(vec![
        ("id", s("I1")),
        ("content", obj(vec![("title", s("t"))])),
        (
            "fieldValues",
            obj(vec![(
                "nodes",
                arr(vec![
                    obj(vec![("note", s("no option id here"))]),
                    obj(vec![("optionId", s("O2"))]),
                    obj(vec![("optionId", s("O1"))]),
                ]),
            )]),
        ),
    ]);
    let response = board_response(sample_board(vec![item]));
    let data = project_data_from_response(&response, "Status").unwrap();
    assert_eq!(data.items[0].column_id, "O2");
    assert_eq!(data.columns[1].items_count, 1);
    assert_eq!(data.columns[0].items_count, 0);
}

#[test]
fn titles_default_and_urls_pass_through() {
    let item = obj(vec![
        ("id", s("I1")),
        (
            "content",
            obj(vec![
                ("url", s("https://example.test/issue/1")),
                (
                    "assignees",
                    obj(vec![(
                        "nodes",
                        arr(vec![
                            obj(vec![("login", s("alice"))]),
                            obj(vec![("login", s("bob"))]),
                        ]),
                    )]),
                ),
                (
                    "labels",
                    obj(vec![("nodes", arr(vec![obj(vec![("name", s("bug"))])]))]),
                ),
            ]),
        ),
        ("fieldValues", obj(vec![("nodes", arr(vec![]))])),
    ]);
    let response = board_response(sample_board(vec![item]));
    let data = project_data_from_response(&response, "Status").unwrap();
    let it = &data.items[0];
    assert_eq!(it.title, "Untitled");
    assert_eq!(it.url.as_deref(), Some("https://example.test/issue/1"));
    assert_eq!(it.assignees, vec!["alice".to_string(), "bob".to_string()]);
    assert_eq!(it.labels, vec!["bug".to_string()]);
}

#[test]
fn empty_option_id_classifies_but_is_never_counted() {
    // The first field value carrying a string option id wins even when that
    // id is empty; an empty id is recorded in no column count.
    let item = obj(vec![
        ("id", s("I1")),
        ("content", obj(vec![("title", s("t"))])),
        (
            "fieldValues",
            obj(vec![(
                "nodes",
                arr(vec![
                    obj(vec![("optionId", s(""))]),
                    obj(vec![("optionId", s("O1"))]),
                ]),
            )]),
        ),
    ]);
    let response = board_response(sample_board(vec![item]));
    let data = project_data_from_response(&response, "Status").unwrap();
    assert_eq!(data.items[0].column_id, "");
    assert_eq!(data.columns[0].items_count, 0);
    assert_eq!(data.columns[1].items_count, 0);
}

#[test]
fn board_number_is_truncated_to_32_bits() {
    let node = obj(vec![
        ("id", s("B1")),
        ("title", s("t")),
        ("number", JsonValue::UInt(0x1_0000_0005)),
        ("url", s("u")),
    ]);
    let response = board_response(node);
    let data = project_data_from_response(&response, "Status").unwrap();
    assert_eq!(data.project.number, 5);
    assert_eq!(data.columns.len(), 0);
    assert_eq!(data.status_field_id, "");
}

#[test]
fn hidden_columns_injection_replaces_only_that_field() {
    let response = board_response(sample_board(vec![item_node("I1", Some("a"), Some("O1"))]));
    let mut data = project_data_from_response(&response, "Status").unwrap();
    let untouched = data.clone();
    data.set_hidden_columns(vec!["O2".to_string()]);
    assert_eq!(data.hidden_columns, vec!["O2".to_string()]);
    assert_eq!(data.project, untouched.project);
    assert_eq!(data.columns, untouched.columns);
    assert_eq!(data.items, untouched.items);
    assert_eq!(data.status_field_id, untouched.status_field_id);
}
