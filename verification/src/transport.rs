//! Classification of transport results. The network call itself lives
//! outside this library; these functions decide, from the HTTP status and
//! the decoded payload, whether a response counts as a failure — including
//! query-level errors the upstream protocol reports with a success status.

use vstd::prelude::*;
use crate::error::ApiError;
use crate::json::{arr_in, get_in, spec_arr_or_empty, spec_get, spec_str_or_empty, str_or_empty_in,
    JsonValue};

verus! {

/// Whether an HTTP status code reports success.
pub open spec fn is_success_status(status: u16) -> bool {
    200 <= status < 300
}

/// The error nodes of a GraphQL payload: its top-level `errors` array.
/// A missing or non-array member reads as no errors.
pub open spec fn payload_errors(payload: JsonValue) -> Seq<JsonValue> {
    spec_arr_or_empty(spec_get(payload, "errors"@))
}

/// The message each error node carries, missing messages reading as empty.
pub open spec fn error_messages(errs: Seq<JsonValue>) -> Seq<Seq<char>> {
    errs.map_values(|e: JsonValue| spec_str_or_empty(spec_get(e, "message"@)))
}

/// HTTP-level classification: a non-success status is a remote failure
/// carrying the status and the raw response body.
pub fn classify_http_status(status: u16, body: String) -> (r: Result<(), ApiError>)
    ensures
        r is Ok <==> is_success_status(status),
        r matches Err(e) ==> (e matches ApiError::RemoteError { status: s, body: b } && s == status
            && b@ == body@),
{
    if 200 <= status && status < 300 {
        Ok(())
    } else {
        Err(ApiError::RemoteError { status, body })
    }
}

/// Payload-level classification: a decoded GraphQL payload with a non-empty
/// top-level `errors` array is an application-level failure, even when the
/// HTTP status reported success.
pub fn check_graphql_errors(payload: &JsonValue) -> (r: Result<(), ApiError>)
    ensures
        r is Ok <==> payload_errors(*payload).len() == 0,
        r matches Err(e) ==> (e matches ApiError::GraphQLError { messages }
            && messages.deep_view() == error_messages(payload_errors(*payload))),
{
    if let Some(errs) = arr_in(get_in(Some(payload), "errors")) {
        if errs.len() > 0 {
            let mut messages: Vec<String> = Vec::new();
            let n = errs.len();
            let mut i: usize = 0;
            while i < n
                invariant
                    i <= n,
                    n == errs@.len(),
                    messages.deep_view() == error_messages(errs@.take(i as int)),
                decreases n - i,
            {
                let e = &errs[i];
                let msg = str_or_empty_in(get_in(Some(e), "message"));
                let ghost pre = messages.deep_view();
                let ghost mv = msg@;
                messages.push(msg);
                proof {
                    assert(errs@.take(i + 1).drop_last() =~= errs@.take(i as int));
                    assert(errs@.take(i + 1).last() == errs@[i as int]);
                    assert(messages.deep_view() =~~= pre.push(mv));
                    assert(messages.deep_view() =~~= error_messages(errs@.take(i + 1)));
                }
                i = i + 1;
            }
            proof {
                assert(errs@.take(n as int) =~= errs@);
            }
            return Err(ApiError::GraphQLError { messages });
        }
    }
    Ok(())
}

} // verus!
