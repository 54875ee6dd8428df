//! The three-step conversation with the download service: the requests to
//! send and the reading of each reply.

use vstd::prelude::*;
use vstd::string::StringExecFns;
use serde_json::Value;

verus! {

#[verifier::external_type_specification]
#[verifier::external_body]
pub struct ExJsonValue(Value);

#[verifier::external_type_specification]
#[verifier::external_body]
pub struct ExJsonError(serde_json::Error);

/// Where a workshop item is queued for download.
pub const QUEUE_ENDPOINT: &'static str =
    "https://backend-02-prd.steamworkshopdownloader.io/api/download/request";

/// Where the state of queued downloads is asked for.
pub const STATUS_ENDPOINT: &'static str =
    "https://backend-02-prd.steamworkshopdownloader.io/api/download/status";

/// Where a prepared download is fetched from.
pub const TRANSMIT_ENDPOINT: &'static str =
    "https://backend-02-prd.steamworkshopdownloader.io/api/download/transmit";

/// How long to wait before each status poll, in milliseconds.
pub const POLL_DELAY_MILLIS: u64 = 500;

/// Why a step of the conversation failed.
#[derive(Debug, Clone, PartialEq, Eq)]
pub enum NegotiationError {
    /// The request could not be sent or the reply could not be received.
    Network(String),
    /// The reply did not have the expected shape.
    Protocol(String),
    /// The reply carried no archive.
    Empty,
    /// The service did not prepare the download within the polls allowed.
    TimedOut,
}

impl NegotiationError {
    /// The description shown to the user.
    pub open spec fn spec_text(self) -> Seq<char> {
        match self {
            NegotiationError::Network(detail) => "network error: "@ + detail@,
            NegotiationError::Protocol(detail) => "unexpected reply: "@ + detail@,
            NegotiationError::Empty => "the download was empty"@,
            NegotiationError::TimedOut => "the download was not prepared in time"@,
        }
    }

    /// Describes the failure.
    pub fn text(&self) -> (out: String)
        ensures
            out@ == self.spec_text(),
    {
        match self {
            NegotiationError::Network(detail) => {
                let mut out = String::from_str("network error: ");
                out.append(detail.as_str());
                out
            },
            NegotiationError::Protocol(detail) => {
                let mut out = String::from_str("unexpected reply: ");
                out.append(detail.as_str());
                out
            },
            NegotiationError::Empty => String::from_str("the download was empty"),
            NegotiationError::TimedOut => String::from_str("the download was not prepared in time"),
        }
    }
}

/// The body of the request that queues a workshop item.
#[derive(Debug, Clone, Copy, PartialEq, Eq)]
pub struct QueueRequest {
    pub published_file_id: u32,
    pub collection_id: u32,
    pub extract: bool,
    pub hidden: bool,
    pub direct: bool,
    pub autodownload: bool,
}

/// The body of the request that asks for the state of queued downloads.
#[derive(Debug, Clone, PartialEq, Eq)]
pub struct StatusRequest {
    pub uuids: Vec<String>,
}

/// The query of the request that fetches a prepared download.
#[derive(Debug, Clone, PartialEq, Eq)]
pub struct TransmitRequest {
    pub uuid: String,
}

/// The request that queues the workshop item `workshop_item_id`: the item
/// alone, not extracted, not hidden, not direct, downloaded automatically.
pub fn queue_request(workshop_item_id: u32) -> (request: QueueRequest)
    ensures
        request == (QueueRequest {
            published_file_id: workshop_item_id,
            collection_id: 0,
            extract: false,
            hidden: false,
            direct: false,
            autodownload: true,
        }),
{
    QueueRequest {
        published_file_id: workshop_item_id,
        collection_id: 0,
        extract: false,
        hidden: false,
        direct: false,
        autodownload: true,
    }
}

/// The request that asks for the state of the download with token `uuid`.
pub fn status_request(uuid: &str) -> (request: StatusRequest)
    ensures
        request.uuids@.len() == 1,
        request.uuids@[0]@ == uuid@,
{
    let mut uuids: Vec<String> = Vec::new();
    uuids.push(String::from_str(uuid));
    StatusRequest { uuids }
}

/// The request that fetches the download with token `uuid`.
pub fn transmit_request(uuid: &str) -> (request: TransmitRequest)
    ensures
        request.uuid@ == uuid@,
{
    TransmitRequest { uuid: String::from_str(uuid) }
}

/// A path of object keys, outermost first.
pub type KeyPath = Seq<Seq<char>>;

/// The texts of the JSON strings inside a value, each under the path of object
/// keys that leads to it. A value that is itself a string has its text under
/// the empty path. Strings inside arrays are not listed.
pub uninterp spec fn json_texts(value: Value) -> Map<KeyPath, Seq<char>>;

/// The texts of the JSON strings inside the value that `text` writes, or
/// `None` where `text` is not JSON.
pub uninterp spec fn json_document(text: Seq<char>) -> Option<Map<KeyPath, Seq<char>>>;

/// The part of `texts` that lies under the key `key`, with that key taken off
/// the front of every path.
pub open spec fn under_key(texts: Map<KeyPath, Seq<char>>, key: Seq<char>) -> Map<
    KeyPath,
    Seq<char>,
> {
    Map::new(
        |path: KeyPath| texts.dom().contains(seq![key] + path),
        |path: KeyPath| texts[seq![key] + path],
    )
}

/// The text found in `texts` under `path`, if there is one.
pub open spec fn text_at(texts: Map<KeyPath, Seq<char>>, path: KeyPath) -> Option<Seq<char>> {
    if texts.dom().contains(path) {
        Some(texts[path])
    } else {
        None
    }
}

/// Parses a JSON text.
///
/// Trusted: calls `serde_json::from_str` for a `Value`. It succeeds exactly on
/// the texts that are JSON, and the value depends on the text alone.
#[verifier::external_body]
fn parse_json(text: &str) -> (parsed: Result<Value, serde_json::Error>)
    ensures
        match parsed {
            Ok(value) => json_document(text@) == Some(json_texts(value)),
            Err(_) => json_document(text@) is None,
        },
{
    serde_json::from_str::<Value>(text)
}

/// Looks up a member of a JSON object.
///
/// Trusted: calls `serde_json::Value::get` with a string key, which returns
/// the value stored under the key in an object, and `None` for a missing key
/// or a value that is no object. The strings inside the member are those that
/// the object holds under paths that begin with the key.
#[verifier::external_body]
fn member<'a>(value: &'a Value, key: &str) -> (found: Option<&'a Value>)
    ensures
        match found {
            Some(inner) => json_texts(*inner) == under_key(json_texts(*value), key@),
            None => under_key(json_texts(*value), key@) == Map::<KeyPath, Seq<char>>::empty(),
        },
{
    value.get(key)
}

/// Reads a JSON string.
///
/// Trusted: calls `serde_json::Value::as_str`, which returns the text of a
/// string value and `None` for any other value.
#[verifier::external_body]
fn string_of(value: &Value) -> (text: Option<String>)
    ensures
        match text {
            Some(s) => text_at(json_texts(*value), Seq::empty()) == Some(s@),
            None => text_at(json_texts(*value), Seq::empty()) is None,
        },
{
    value.as_str().map(|s| s.to_string())
}

/// Describes a failure reported by the JSON parser.
///
/// Trusted: calls `to_string` on `serde_json::Error`. The wording is the
/// parser's own, so nothing is claimed about it.
#[verifier::external_body]
fn json_error_text(error: &serde_json::Error) -> String {
    error.to_string()
}

/// The process token in the reply to a queue request: the text of the string
/// stored under `uuid` in the JSON object that the reply writes.
pub open spec fn spec_queue_token(body: Seq<char>) -> Option<Seq<char>> {
    match json_document(body) {
        Some(texts) => text_at(texts, seq!["uuid"@]),
        None => None,
    }
}

/// The status that a reply to a status request reports for the download with
/// token `uuid`: the text of the string stored under `status` in the object
/// stored under the token.
pub open spec fn spec_reported_status(texts: Map<KeyPath, Seq<char>>, uuid: Seq<char>) -> Option<
    Seq<char>,
> {
    text_at(texts, seq![uuid, "status"@])
}

/// The text of the string stored under `key` in `value`, if `value` is an
/// object that holds a string there.
fn text_member(value: &Value, key: &str) -> (text: Option<String>)
    ensures
        match text {
            Some(s) => text_at(json_texts(*value), seq![key@]) == Some(s@),
            None => text_at(json_texts(*value), seq![key@]) is None,
        },
{
    proof {
        assert(seq![key@] + Seq::<Seq<char>>::empty() =~= seq![key@]);
    }
    match member(value, key) {
        Some(inner) => string_of(inner),
        None => {
            assert(!under_key(json_texts(*value), key@).dom().contains(Seq::empty()));
            None
        },
    }
}

/// The text of the string stored under `inner` in the object stored under
/// `outer` in `value`, if there is one.
fn nested_text_member(value: &Value, outer: &str, inner: &str) -> (text: Option<String>)
    ensures
        match text {
            Some(s) => text_at(json_texts(*value), seq![outer@, inner@]) == Some(s@),
            None => text_at(json_texts(*value), seq![outer@, inner@]) is None,
        },
{
    proof {
        assert(seq![outer@] + seq![inner@] =~= seq![outer@, inner@]);
    }
    match member(value, outer) {
        Some(entry) => text_member(entry, inner),
        None => {
            assert(!under_key(json_texts(*value), outer@).dom().contains(seq![inner@]));
            None
        },
    }
}

/// Turns the token field of a queue reply into the step's outcome: the token
/// itself, or a protocol failure when the field is missing.
pub fn token_from_field(field: Option<String>) -> (outcome: Result<String, NegotiationError>)
    ensures
        match field {
            Some(token) => outcome == Ok::<String, NegotiationError>(token),
            None => outcome matches Err(NegotiationError::Protocol(_)),
        },
{
    match field {
        Some(token) => Ok(token),
        None => Err(NegotiationError::Protocol(String::from_str("the reply holds no uuid"))),
    }
}

/// Whether a reported status says that the download is prepared.
pub fn is_prepared(status: &Option<String>) -> (ready: bool)
    ensures
        ready == (*status matches Some(s) && s@ == "prepared"@),
{
    match status {
        Some(s) => {
            let prepared = String::from_str("prepared");
            *s == prepared
        },
        None => false,
    }
}

/// Reads the reply to a queue request. The outcome is the process token when
/// the reply holds one, and a protocol failure otherwise.
pub fn parse_queue_response(body: &str) -> (outcome: Result<String, NegotiationError>)
    ensures
        match spec_queue_token(body@) {
            Some(token) => outcome matches Ok(t) && t@ == token,
            None => outcome matches Err(NegotiationError::Protocol(_)),
        },
{
    match parse_json(body) {
        Ok(reply) => token_from_field(text_member(&reply, "uuid")),
        Err(error) => Err(NegotiationError::Protocol(json_error_text(&error))),
    }
}

/// Reads the reply to a status request for the download with token `uuid`.
/// The download is ready when the reply reports the status `prepared` for the
/// token and not ready when it reports anything else or nothing; a reply that
/// is no JSON is a protocol failure.
pub fn parse_status_response(body: &str, uuid: &str) -> (outcome: Result<bool, NegotiationError>)
    ensures
        match json_document(body@) {
            Some(texts) => outcome == Ok::<bool, NegotiationError>(
                spec_reported_status(texts, uuid@) == Some("prepared"@),
            ),
            None => outcome matches Err(NegotiationError::Protocol(_)),
        },
{
    match parse_json(body) {
        Ok(reply) => {
            let status = nested_text_member(&reply, uuid, "status");
            Ok(is_prepared(&status))
        },
        Err(error) => Err(NegotiationError::Protocol(json_error_text(&error))),
    }
}

/// Accepts the body of a transmit reply as the archive, unless it is empty.
pub fn archive_from_body(body: Vec<u8>) -> (outcome: Result<Vec<u8>, NegotiationError>)
    ensures
        outcome == if body@.len() == 0 {
            Err::<Vec<u8>, NegotiationError>(NegotiationError::Empty)
        } else {
            Ok::<Vec<u8>, NegotiationError>(body)
        },
{
    if body.len() == 0 {
        Err(NegotiationError::Empty)
    } else {
        Ok(body)
    }
}

} // verus!
