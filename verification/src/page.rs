//! One request for a page, and what the server's reply amounts to.

use vstd::prelude::*;
use crate::json::{
    json_of, members, object_clone, object_get, object_len, parse_json, parsed_json,
    value_as_i64, value_as_object, Json, JsonNumber,
};

verus! {

/// Number of items asked for in one page.
pub const PAGE_COUNT: u64 = 30;

/// Member of a reply that holds the items.
pub const REPLY_LIST: &'static str = "list";

/// Member of a reply that holds the server's watermark.
pub const REPLY_SINCE: &'static str = "since";

/// Body of a retrieve request.
#[derive(Debug, Clone)]
pub struct Parameters {
    pub consumer_key: String,
    pub access_token: String,
    pub detail_type: String,
    pub count: u64,
    pub offset: u64,
    pub total: u8,
    pub sort: String,
    /// Only items changed since this time; absent while the store is first filled.
    pub since: Option<u64>,
}

/// What came back for one request.
#[derive(Debug, Clone)]
pub enum ServerReply {
    /// The request could not be sent, or no response arrived.
    NoReply,
    /// A response arrived; `body` is absent where it could not be read.
    Reply { status: u16, body: Option<String> },
}

/// Why a request gave no page.
#[derive(Debug, Clone, Copy, PartialEq, Eq, Structural)]
pub enum FetchFailure {
    /// The server answered 404.
    NotFound,
    /// The server answered 400.
    BadRequest,
    /// The server answered with another status than 200, 400 or 404.
    UnexpectedStatus(u16),
    /// No response arrived.
    Transport,
    /// The body of the response could not be read.
    BodyRead,
    /// The body is no JSON document.
    Decode,
}

/// A classified reply.
#[derive(Debug)]
pub enum PageOutcome {
    /// Items to merge, by item id, and the watermark that the server reported
    /// (`-1` where it reported none).
    Items(serde_json::Map<String, serde_json::Value>, i64),
    /// The server has nothing more under the current watermark.
    End,
    /// The request failed.
    Failure(FetchFailure),
}

/// The mathematical content of a classified reply.
pub enum Outcome {
    Items(Map<Seq<char>, Json>, i64),
    End,
    Failure(FetchFailure),
}

impl PageOutcome {
    /// The content of the outcome.
    pub open spec fn content(&self) -> Outcome {
        match *self {
            PageOutcome::Items(items, since) => Outcome::Items(members(items), since),
            PageOutcome::End => Outcome::End,
            PageOutcome::Failure(f) => Outcome::Failure(f),
        }
    }
}

/// The watermark that a reply reports: its member `since` where that is an
/// integer that fits in `i64`, and `-1` otherwise.
pub open spec fn reported_since(reply: Map<Seq<char>, Json>) -> i64 {
    if reply.contains_key(REPLY_SINCE@) {
        match reply[REPLY_SINCE@] {
            Json::Number(JsonNumber::Integer(i)) => if i64::MIN <= i <= i64::MAX {
                i as i64
            } else {
                -1i64
            },
            _ => -1i64,
        }
    } else {
        -1i64
    }
}

/// What a decoded reply amounts to: a page where it is an object whose
/// member `list` is an object with at least one member, and the end of the
/// epoch in every other case.
pub open spec fn document_outcome(doc: Json) -> Outcome {
    match doc {
        Json::Object(reply) => if reply.contains_key(REPLY_LIST@) {
            match reply[REPLY_LIST@] {
                Json::Object(list) => if list.len() == 0 {
                    Outcome::End
                } else {
                    Outcome::Items(list, reported_since(reply))
                },
                _ => Outcome::End,
            }
        } else {
            Outcome::End
        },
        _ => Outcome::End,
    }
}

/// What the body of a 200 response amounts to.
pub open spec fn body_outcome(body: Seq<char>) -> Outcome {
    match parsed_json(body) {
        Some(doc) => document_outcome(doc),
        None => Outcome::Failure(FetchFailure::Decode),
    }
}

/// What a status other than 200 amounts to.
pub open spec fn status_failure(status: u16) -> FetchFailure {
    if status == 404 {
        FetchFailure::NotFound
    } else if status == 400 {
        FetchFailure::BadRequest
    } else {
        FetchFailure::UnexpectedStatus(status)
    }
}

/// What a reply amounts to.
pub open spec fn reply_outcome(reply: ServerReply) -> Outcome {
    match reply {
        ServerReply::NoReply => Outcome::Failure(FetchFailure::Transport),
        ServerReply::Reply { status, body } => if status == 200 {
            match body {
                Some(text) => body_outcome(text@),
                None => Outcome::Failure(FetchFailure::BodyRead),
            }
        } else {
            Outcome::Failure(status_failure(status))
        },
    }
}

/// Builds the body of the request for the page at `offset`.
pub fn build_parameters(consumer_key: &str, access_token: &str, offset: u64, since: Option<u64>) -> (p:
    Parameters)
    ensures
        p.consumer_key@ == consumer_key@,
        p.access_token@ == access_token@,
        p.detail_type@ == "simple"@,
        p.count == PAGE_COUNT,
        p.offset == offset,
        p.total == 1,
        p.sort@ == "oldest"@,
        p.since == since,
{
    Parameters {
        consumer_key: String::from_str(consumer_key),
        access_token: String::from_str(access_token),
        detail_type: String::from_str("simple"),
        count: PAGE_COUNT,
        offset,
        total: 1,
        sort: String::from_str("oldest"),
        since,
    }
}

/// Reads the watermark that a reply reports.
fn read_since(reply: &serde_json::Map<String, serde_json::Value>) -> (since: i64)
    ensures
        since == reported_since(members(*reply)),
{
    match object_get(reply, REPLY_SINCE) {
        Some(v) => match value_as_i64(v) {
            Some(n) => n,
            None => -1,
        },
        None => -1,
    }
}

/// Classifies a decoded reply.
pub fn classify_document(doc: &serde_json::Value) -> (r: PageOutcome)
    ensures
        r.content() == document_outcome(json_of(*doc)),
{
    match value_as_object(doc) {
        Some(reply) => match object_get(reply, REPLY_LIST) {
            Some(list_value) => match value_as_object(list_value) {
                Some(list) => {
                    if object_len(list) == 0 {
                        PageOutcome::End
                    } else {
                        PageOutcome::Items(object_clone(list), read_since(reply))
                    }
                },
                None => PageOutcome::End,
            },
            None => PageOutcome::End,
        },
        None => PageOutcome::End,
    }
}

/// Classifies the body of a 200 response.
pub fn classify_body(body: &str) -> (r: PageOutcome)
    ensures
        r.content() == body_outcome(body@),
{
    match parse_json(body) {
        Ok(doc) => classify_document(&doc),
        Err(_) => PageOutcome::Failure(FetchFailure::Decode),
    }
}

/// Classifies a reply: a page, the end of the epoch, or a failure.
pub fn classify_reply(reply: &ServerReply) -> (r: PageOutcome)
    ensures
        r.content() == reply_outcome(*reply),
{
    match reply {
        ServerReply::NoReply => PageOutcome::Failure(FetchFailure::Transport),
        ServerReply::Reply { status, body } => {
            if *status == 200 {
                match body {
                    Some(text) => classify_body(text.as_str()),
                    None => PageOutcome::Failure(FetchFailure::BodyRead),
                }
            } else if *status == 404 {
                PageOutcome::Failure(FetchFailure::NotFound)
            } else if *status == 400 {
                PageOutcome::Failure(FetchFailure::BadRequest)
            } else {
                PageOutcome::Failure(FetchFailure::UnexpectedStatus(*status))
            }
        },
    }
}

} // verus!
