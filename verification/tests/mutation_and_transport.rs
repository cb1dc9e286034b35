use minik::error::ApiError;
use minik::json::JsonValue;
use minik::mutation::{move_item_request, verify_mutation_response};
use minik::transport::{check_graphql_errors, classify_http_status};

fn s(v: &str) -> JsonValue {
    JsonValue::Str(v.to_string())
}

fn obj(pairs: Vec<(&str, JsonValue)>) -> JsonValue {
    JsonValue::Obj(pairs.into_iter().map(|(k, v)| (k.to_string(), v)).collect())
}

fn arr(items: Vec<JsonValue>) -> JsonValue {
    JsonValue::Arr(items)
}

fn mutation_response(item_id: JsonValue) -> JsonValue {
    obj(vec![(
        "data",
        obj(vec![(
            "updateProjectV2ItemFieldValue",
            obj(vec![("projectV2Item", obj(vec![("id", item_id)]))]),
        )]),
    )])
}

#[test]
fn http_success_statuses_pass() {
    assert!(classify_http_status(200, String::new()).is_ok());
    assert!(classify_http_status(204, String::new()).is_ok());
    assert!(classify_http_status(299, String::new()).is_ok());
}

#[test]
fn http_failure_carries_status_and_body() {
    let r = classify_http_status(404, "not found".to_string());
    assert_eq!(
        r.unwrap_err(),
        ApiError::RemoteError {
            status: 404,
            body: "not found".to_string()
        }
    );
    assert!(classify_http_status(301, String::new()).is_err());
    assert!(classify_http_status(199, String::new()).is_err());
}

#[test]
fn graphql_errors_are_reported_even_on_success_status() {
    let payload = obj(vec![
        (
            "errors",
            arr(vec![
                obj(vec![("message", s("Field not found"))]),
                obj(vec![("message", s("Rate limit hit"))]),
            ]),
        ),
        ("data", JsonValue::Null),
    ]);
    let r = check_graphql_errors(&payload);
    assert_eq!(
        r.unwrap_err(),
        ApiError::GraphQLError {
            messages: vec!["Field not found".to_string(), "Rate limit hit".to_string()]
        }
    );
}

#[test]
fn empty_or_missing_errors_array_is_clean() {
    let clean = obj(vec![("data", obj(vec![]))]);
    assert!(check_graphql_errors(&clean).is_ok());
    let empty = obj(vec![("errors", arr(vec![])), ("data", obj(vec![]))]);
    assert!(check_graphql_errors(&empty).is_ok());
}

#[test]
fn move_with_empty_field_id_fails_before_any_request_is_built() {
    let r = move_item_request("B1", "I1", "", "O2");
    assert_eq!(r.unwrap_err(), ApiError::PreconditionFailed);
}

#[test]
fn move_request_variables_have_the_mutation_shape() {
    let v = move_item_request("B1", "I1", "F1", "O2").unwrap();
    match v {
        JsonValue::Obj(pairs) => {
            assert_eq!(pairs.len(), 4);
            assert_eq!(pairs[0], ("projectId".to_string(), s("B1")));
            assert_eq!(pairs[1], ("itemId".to_string(), s("I1")));
            assert_eq!(pairs[2], ("fieldId".to_string(), s("F1")));
            assert_eq!(pairs[3].0, "value");
            assert_eq!(
                pairs[3].1,
                obj(vec![("singleSelectOptionId", s("O2"))])
            );
        }
        _ => panic!("variables must be an object"),
    }
}

#[test]
fn confirmed_mutation_passes() {
    let payload = mutation_response(s("I1"));
    assert!(verify_mutation_response(&payload).is_ok());
}

#[test]
fn null_item_id_without_errors_is_a_mutation_failure() {
    let payload = mutation_response(JsonValue::Null);
    let r = verify_mutation_response(&payload);
    assert!(matches!(r, Err(ApiError::MutationFailed { .. })));
}

#[test]
fn reported_errors_are_a_mutation_failure_too() {
    let payload = obj(vec![(
        "errors",
        arr(vec![obj(vec![("message", s("boom"))])]),
    )]);
    let r = verify_mutation_response(&payload);
    assert!(matches!(r, Err(ApiError::MutationFailed { .. })));
}

#[test]
fn error_messages_read_well() {
    assert_eq!(ApiError::NotFound.message(), "board not found");
    assert_eq!(
        ApiError::PreconditionFailed.message(),
        "status field id is empty"
    );
    assert_eq!(
        ApiError::TransportError {
            detail: "connection refused".to_string()
        }
        .message(),
        "transport failure: connection refused"
    );
    assert_eq!(
        ApiError::GraphQLError {
            messages: vec!["first".to_string(), "second".to_string()]
        }
        .message(),
        "GraphQL error: first"
    );
}
