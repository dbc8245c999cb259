//! The HTTP side of each handler: the reply a handler decides on, and the
//! mapping from a store outcome to that reply. The transport layer only has
//! to send a `Reply` as it stands — status code, and the body in the stated
//! shape (plain text, a JSON-encoded string, a JSON array of items, or
//! nothing).

use vstd::prelude::*;
use vstd::string::StringExecFns;
use crate::item::StoredItem;

verus! {

/// The body of a reply, as the transport must encode it.
pub enum Body {
    /// A plain-text message.
    Message(String),
    /// A single string, to be JSON-encoded by the transport.
    JsonMessage(String),
    /// Every stored item, to be JSON-encoded as an array by the transport.
    Items(Vec<StoredItem>),
    /// An empty body.
    Empty,
}

/// A handler's decision: an HTTP status code and a body.
pub struct Reply {
    pub status: u16,
    pub body: Body,
}

/// The reply for a create outcome: success is HTTP 200 with a plain success
/// message; a store error is HTTP 500 with the error's text, JSON-wrapped and
/// prefixed.
pub fn add_outcome_reply(outcome: Result<(), String>) -> (r: Reply)
    ensures
        outcome is Ok ==> r.status == 200 && (r.body matches Body::Message(m) && m@
            == "Item added successfully"@),
        outcome is Err ==> r.status == 500 && (r.body matches Body::JsonMessage(m) && m@
            == "Failed to add item: "@ + outcome->Err_0@),
{
    match outcome {
        Ok(()) => Reply { status: 200, body: Body::Message(String::from_str("Item added successfully")) },
        Err(e) => {
            let mut m = String::from_str("Failed to add item: ");
            m.append(e.as_str());
            Reply { status: 500, body: Body::JsonMessage(m) }
        },
    }
}

/// The reply for an edit outcome: success — whether or not any document was
/// matched — is HTTP 200 with a plain success message; a store error is HTTP
/// 500 with the error's text, JSON-wrapped and prefixed.
pub fn edit_outcome_reply(outcome: Result<(), String>) -> (r: Reply)
    ensures
        outcome is Ok ==> r.status == 200 && (r.body matches Body::Message(m) && m@
            == "Item edited successfully"@),
        outcome is Err ==> r.status == 500 && (r.body matches Body::JsonMessage(m) && m@
            == "Failed to edit item: "@ + outcome->Err_0@),
{
    match outcome {
        Ok(()) => Reply { status: 200, body: Body::Message(String::from_str("Item edited successfully")) },
        Err(e) => {
            let mut m = String::from_str("Failed to edit item: ");
            m.append(e.as_str());
            Reply { status: 500, body: Body::JsonMessage(m) }
        },
    }
}

/// The reply for a read-all outcome: success is HTTP 200 with the whole
/// collection; any failure discards partial results and is HTTP 500 with an
/// empty body.
pub fn read_outcome_reply(outcome: Option<Vec<StoredItem>>) -> (r: Reply)
    ensures
        outcome is Some ==> r.status == 200 && (r.body matches Body::Items(v) && v == outcome->0),
        outcome is None ==> r.status == 500 && r.body is Empty,
{
    match outcome {
        Some(items) => Reply { status: 200, body: Body::Items(items) },
        None => Reply { status: 500, body: Body::Empty },
    }
}

/// The reply for a delete outcome, given the deleted count where the store
/// answered at all: one or more deletions is HTTP 200 with a JSON success
/// message; zero deletions and a store error alike are HTTP 404 with a JSON
/// not-found message.
pub fn delete_outcome_reply(outcome: Option<u64>) -> (r: Reply)
    ensures
        outcome is Some && outcome->0 > 0 ==> r.status == 200 && (r.body matches Body::JsonMessage(
            m,
        ) && m@ == "Item deleted successfully"@),
        outcome is None || outcome->0 == 0 ==> r.status == 404 && (r.body
            matches Body::JsonMessage(m) && m@ == "Item not found"@),
{
    match outcome {
        Some(count) if count > 0 => Reply {
            status: 200,
            body: Body::JsonMessage(String::from_str("Item deleted successfully")),
        },
        _ => Reply { status: 404, body: Body::JsonMessage(String::from_str("Item not found")) },
    }
}

/// The reply for a delete request whose path segment is no valid identifier
/// encoding: HTTP 400 with a plain message, before any store operation.
pub fn invalid_id_reply() -> (r: Reply)
    ensures
        r.status == 400,
        r.body matches Body::Message(m) && m@ == "Invalid ObjectId"@,
{
    Reply { status: 400, body: Body::Message(String::from_str("Invalid ObjectId")) }
}

} // verus!
