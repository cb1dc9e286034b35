//! The error taxonomy of the synchronization core. Every failure a caller
//! can see is one of these variants; extraction itself never fails on a
//! missing leaf (it defaults), so errors mark whole-response problems only.

use vstd::prelude::*;
use vstd::string::StringExecFns;

verus! {

/// A classified failure of one operation. All errors are terminal for the
/// operation that raised them; the core never retries.
#[derive(Debug, Clone, PartialEq, Eq)]
pub enum ApiError {
    /// No response was obtained at all (connection, DNS, timeout).
    TransportError { detail: String },
    /// The HTTP layer answered with a non-success status.
    RemoteError { status: u16, body: String },
    /// The query executed and the payload carried application-level errors.
    GraphQLError { messages: Vec<String> },
    /// The response shape did not match where no safe default exists.
    ParseError { detail: String },
    /// The queried board id resolved to null.
    NotFound,
    /// A mutation was attempted without a resolved status field id.
    PreconditionFailed,
    /// The mutation executed but did not confirm the write.
    MutationFailed { detail: String },
}

impl ApiError {
    /// A human-readable description, for callers that surface the error
    /// verbatim to the user.
    pub fn message(&self) -> (r: String)
        ensures
            match *self {
                ApiError::TransportError { detail } => r@ == "transport failure: "@ + detail@,
                ApiError::RemoteError { status, body } => r@ == "remote failure: "@ + body@,
                ApiError::GraphQLError { messages } => if messages@.len() > 0 {
                    r@ == "GraphQL error: "@ + messages@[0]@
                } else {
                    r@ == "GraphQL error"@
                },
                ApiError::ParseError { detail } => r@ == "parse failure: "@ + detail@,
                ApiError::NotFound => r@ == "board not found"@,
                ApiError::PreconditionFailed => r@ == "status field id is empty"@,
                ApiError::MutationFailed { detail } => r@ == "mutation not confirmed: "@ + detail@,
            },
    {
        match self {
            ApiError::TransportError { detail } => {
                "transport failure: ".to_owned().concat(detail.as_str())
            },
            ApiError::RemoteError { status: _, body } => {
                "remote failure: ".to_owned().concat(body.as_str())
            },
            ApiError::GraphQLError { messages } => {
                if messages.len() > 0 {
                    "GraphQL error: ".to_owned().concat(messages[0].as_str())
                } else {
                    "GraphQL error".to_owned()
                }
            },
            ApiError::ParseError { detail } => {
                "parse failure: ".to_owned().concat(detail.as_str())
            },
            ApiError::NotFound => "board not found".to_owned(),
            ApiError::PreconditionFailed => "status field id is empty".to_owned(),
            ApiError::MutationFailed { detail } => {
                "mutation not confirmed: ".to_owned().concat(detail.as_str())
            },
        }
    }
}

} // verus!
