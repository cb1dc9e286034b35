//! Core of a client-side synchronization engine that turns a remote,
//! schema-flexible project board (reached through a paginated GraphQL API)
//! into a stable, locally consumable Kanban model: typed columns with item
//! counts, typed items with assignees and labels, and a single mutation path
//! for moving an item between columns.
//!
//! Everything here is pure: the functions take already-decoded JSON trees
//! ([`json::JsonValue`]) and produce domain values or classified errors.
//! Network transport, token acquisition and persistence live outside this
//! library and hand plain values in and out.

pub mod board;
pub mod error;
pub mod items;
pub mod json;
pub mod model;
pub mod mutation;
pub mod schema;
pub mod transport;
