//! The mutation client: build the request that moves one item to another
//! column, and verify that the response confirms the write. The move is
//! atomic from this client's point of view: no retry, no rollback.

use vstd::prelude::*;
use crate::error::ApiError;
use crate::json::{arr_in, get_in, is_null_in, is_str_entry, spec_get, JsonValue};
use crate::transport::payload_errors;

verus! {

/// The item id a successful mutation response must carry, at the fixed
/// response path.
pub open spec fn mutation_item_id(payload: JsonValue) -> JsonValue {
    spec_get(
        spec_get(
            spec_get(spec_get(payload, "data"@), "updateProjectV2ItemFieldValue"@),
            "projectV2Item"@,
        ),
        "id"@,
    )
}

/// Success, strictly: the mutation returned no top-level errors AND the
/// response carries a non-null item id at the expected path.
pub open spec fn mutation_confirmed(payload: JsonValue) -> bool {
    &&& payload_errors(payload).len() == 0
    &&& !(mutation_item_id(payload) is Null)
}

/// The variables of the field-value mutation, as the GraphQL endpoint
/// expects them. Precondition of the whole move: the status field id must
/// have been resolved — an empty id fails before any request is built, so
/// no network call is ever issued for it.
pub fn move_item_request(
    project_id: &str,
    item_id: &str,
    status_field_id: &str,
    target_column_id: &str,
) -> (r: Result<JsonValue, ApiError>)
    ensures
        r is Err <==> status_field_id@.len() == 0,
        r matches Err(e) ==> e is PreconditionFailed,
        r matches Ok(v) ==> (v matches JsonValue::Obj(pairs) && pairs@.len() == 4 && is_str_entry(
            pairs@[0],
            "projectId"@,
            project_id@,
        ) && is_str_entry(pairs@[1], "itemId"@, item_id@) && is_str_entry(
            pairs@[2],
            "fieldId"@,
            status_field_id@,
        ) && pairs@[3].0@ == "value"@ && (pairs@[3].1 matches JsonValue::Obj(inner)
            && inner@.len() == 1 && is_str_entry(
            inner@[0],
            "singleSelectOptionId"@,
            target_column_id@,
        ))),
{
    if status_field_id.is_empty() {
        return Err(ApiError::PreconditionFailed);
    }
    let mut inner: Vec<(String, JsonValue)> = Vec::new();
    inner.push(("singleSelectOptionId".to_owned(), JsonValue::Str(target_column_id.to_owned())));
    let mut pairs: Vec<(String, JsonValue)> = Vec::new();
    pairs.push(("projectId".to_owned(), JsonValue::Str(project_id.to_owned())));
    pairs.push(("itemId".to_owned(), JsonValue::Str(item_id.to_owned())));
    pairs.push(("fieldId".to_owned(), JsonValue::Str(status_field_id.to_owned())));
    pairs.push(("value".to_owned(), JsonValue::Obj(inner)));
    Ok(JsonValue::Obj(pairs))
}

/// Verify a mutation response: reported errors, or a null item id at the
/// expected path, mean the write was not confirmed, even when the HTTP
/// layer reported success. There is no partial-success state.
pub fn verify_mutation_response(payload: &JsonValue) -> (r: Result<(), ApiError>)
    ensures
        r is Ok <==> mutation_confirmed(*payload),
        r matches Err(e) ==> (e matches ApiError::MutationFailed { detail } && (if payload_errors(
            *payload,
        ).len() > 0 {
            detail@ == "mutation response reported errors"@
        } else {
            detail@ == "no item id in mutation response"@
        })),
{
    if let Some(errs) = arr_in(get_in(Some(payload), "errors")) {
        if errs.len() > 0 {
            return Err(
                ApiError::MutationFailed { detail: "mutation response reported errors".to_owned() },
            );
        }
    }
    let id = get_in(
        get_in(get_in(get_in(Some(payload), "data"), "updateProjectV2ItemFieldValue"),
            "projectV2Item"),
        "id",
    );
    if is_null_in(id) {
        return Err(ApiError::MutationFailed { detail: "no item id in mutation response".to_owned() });
    }
    Ok(())
}

} // verus!
