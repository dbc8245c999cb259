//! A small CRUD service core for a single resource type, `Item`, kept in a
//! document store: identifier parsing and encoding, a model of the store with
//! the four operations, the handler decisions, and the mapping from outcomes
//! to HTTP replies.

pub mod handlers;
pub mod http;
pub mod item;
pub mod laws;
pub mod oid;
pub mod router;
pub mod store;

pub use oid::ItemId;
