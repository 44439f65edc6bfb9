//! The replies of the three operations.

use vstd::prelude::*;
use vstd::string::*;
use crate::record::found_of;
use crate::record::Properties;
use crate::record::Record;

verus! {

/// The status of a reply that carries what was asked for.
pub const STATUS_OK: u16 = 200;

/// The status of a lookup that matched no record.
pub const STATUS_NOT_FOUND: u16 = 404;

/// The status of a reply to a request on which the database failed.
pub const STATUS_SERVER_ERROR: u16 = 500;

/// What a reply carries.
#[derive(Debug, Clone, PartialEq)]
pub enum Body {
    /// A fixed message, sent as a JSON string.
    Message(String),
    /// The payload of a stored record, sent as JSON.
    Payload(serde_json::Value),
    /// Plain text.
    Text(String),
}

/// A reply: its status and what it carries.
#[derive(Debug, Clone, PartialEq)]
pub struct Response {
    pub status: u16,
    pub body: Body,
}

/// What a body is, its strings taken as text.
pub enum Content {
    Message(Seq<char>),
    Payload(serde_json::Value),
    Text(Seq<char>),
}

/// What a reply is: a status and a content.
pub struct Reply {
    pub status: u16,
    pub content: Content,
}

impl View for Body {
    type V = Content;

    open spec fn view(&self) -> Content {
        match self {
            Body::Message(s) => Content::Message(s@),
            Body::Payload(v) => Content::Payload(*v),
            Body::Text(s) => Content::Text(s@),
        }
    }
}

impl View for Response {
    type V = Reply;

    open spec fn view(&self) -> Reply {
        Reply { status: self.status, content: self.body@ }
    }
}

/// The reply of the health check.
pub open spec fn health_reply() -> Reply {
    Reply { status: STATUS_OK, content: Content::Message("API is running 🚀"@) }
}

/// The reply to a batch insert that the database accepted.
pub open spec fn inserted_reply() -> Reply {
    Reply { status: STATUS_OK, content: Content::Message("Success"@) }
}

/// The reply to a lookup that found a record with this payload.
pub open spec fn found_reply(data: serde_json::Value) -> Reply {
    Reply { status: STATUS_OK, content: Content::Payload(data) }
}

/// The reply to a lookup that matched no record.
pub open spec fn not_found_reply() -> Reply {
    Reply { status: STATUS_NOT_FOUND, content: Content::Text("Not Found"@) }
}

/// The reply to a request on which the database failed with this error text.
pub open spec fn failed_reply(error: Seq<char>) -> Reply {
    Reply { status: STATUS_SERVER_ERROR, content: Content::Text("Error: "@ + error) }
}

/// The reply to a batch insert, by what the database said of it.
pub open spec fn insert_reply(outcome: Result<(), Seq<char>>) -> Reply {
    match outcome {
        Ok(_) => inserted_reply(),
        Err(error) => failed_reply(error),
    }
}

/// The reply to a point lookup, by what the database said of it.
pub open spec fn lookup_reply(outcome: Result<Option<Record>, Seq<char>>) -> Reply {
    match outcome {
        Ok(Some(record)) => found_reply(record.data),
        Ok(None) => not_found_reply(),
        Err(error) => failed_reply(error),
    }
}

/// The outcome of a batch insert with its error taken as text.
pub open spec fn insert_outcome_of(outcome: Result<(), String>) -> Result<(), Seq<char>> {
    match outcome {
        Ok(_) => Ok(()),
        Err(error) => Err(error@),
    }
}

/// The outcome of a lookup with its record and its error taken by their views.
pub open spec fn lookup_outcome_of(outcome: Result<Option<Properties>, String>) -> Result<
    Option<Record>,
    Seq<char>,
> {
    match outcome {
        Ok(found) => Ok(found_of(found)),
        Err(error) => Err(error@),
    }
}

/// The reply to a request on which the database failed: a server error that
/// carries the database's own words after a fixed prefix.
pub fn server_error(error: String) -> (response: Response)
    ensures
        response@ == failed_reply(error@),
{
    let text = String::from_str("Error: ").concat(error.as_str());
    Response { status: STATUS_SERVER_ERROR, body: Body::Text(text) }
}

/// Answers the health check: always the same confirmation, whatever the
/// state of the database and however often it is asked.
pub fn health_check() -> (response: Response)
    ensures
        response@ == health_reply(),
{
    Response { status: STATUS_OK, body: Body::Message(String::from_str("API is running 🚀")) }
}

/// Answers a batch insert once the database has taken the batch or refused
/// it: a fixed confirmation, or a server error with the database's words.
/// Nothing is said of single records: a batch that failed is reported as
/// failed whatever part of it the database kept.
pub fn insert_response(outcome: Result<(), String>) -> (response: Response)
    ensures
        response@ == insert_reply(insert_outcome_of(outcome)),
{
    match outcome {
        Ok(_) => Response { status: STATUS_OK, body: Body::Message(String::from_str("Success")) },
        Err(error) => server_error(error),
    }
}

/// Answers a point lookup once the database has reported: the payload of
/// the record it found, stripped of the record's identifiers; a not-found
/// reply where it found none; a server error where it failed.
pub fn lookup_response(outcome: Result<Option<Properties>, String>) -> (response: Response)
    ensures
        response@ == lookup_reply(lookup_outcome_of(outcome)),
{
    match outcome {
        Ok(Some(record)) => Response { status: STATUS_OK, body: Body::Payload(record.data) },
        Ok(None) => Response {
            status: STATUS_NOT_FOUND,
            body: Body::Text(String::from_str("Not Found")),
        },
        Err(error) => server_error(error),
    }
}

} // verus!
