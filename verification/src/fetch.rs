//! Asking the picture service for records.
//!
//! A fetch is one request and up to two answers. This module says which
//! request is sent and what each answer leads to; sending, waiting and
//! reading the body into records is the caller's part. A failure of the
//! network is a transport error at either answer; only a body that arrived
//! whole can be a decode error.

use crate::error::{AnimalKind, ConfigError, FetchError};
use crate::record::AnimalRecord;
use crate::status::HttpStatus;
use vstd::prelude::*;
use vstd::string::StringExecFns;

verus! {

/// Where dog pictures are searched.
pub const DOG_API_URL: &'static str = "https://api.thedogapi.com/v1/images/search";

/// Where cat pictures are searched.
pub const CAT_API_URL: &'static str = "https://api.thecatapi.com/v1/images/search";

/// A name with its value: a header line or a query parameter.
#[derive(Debug, PartialEq, Eq)]
pub struct Pair {
    pub name: String,
    pub value: String,
}

/// A GET request, ready to be sent.
#[derive(Debug, PartialEq, Eq)]
pub struct HttpRequest {
    pub url: String,
    pub headers: Vec<Pair>,
    pub query: Vec<Pair>,
}

/// Why the body of a reply gave no records.
#[derive(Debug, PartialEq, Eq)]
pub enum BodyFailure {
    /// The network failed while the body was read; the text says why.
    Transport(String),
    /// The body arrived whole and is not a list of records; the text says
    /// why.
    Malformed(String),
}

/// Whether a pair holds this name and this value.
pub open spec fn is_pair(p: Pair, name: Seq<char>, value: Seq<char>) -> bool {
    p.name@ == name && p.value@ == value
}

/// Whether a request is the one that fetches records from `url` with the
/// key `key`: the key in the header `x-api-key`, and the two query
/// parameters `size=med` and `has_breeds=true`, in this order.
pub open spec fn is_fetch_request(r: HttpRequest, url: Seq<char>, key: Seq<char>) -> bool {
    &&& r.url@ == url
    &&& r.headers@.len() == 1
    &&& is_pair(r.headers@[0], "x-api-key"@, key)
    &&& r.query@.len() == 2
    &&& is_pair(r.query@[0], "size"@, "med"@)
    &&& is_pair(r.query@[1], "has_breeds"@, "true"@)
}

/// The address at which pictures of a kind are searched.
pub open spec fn api_url(kind: AnimalKind) -> Seq<char> {
    match kind {
        AnimalKind::Dog => DOG_API_URL@,
        AnimalKind::Cat => CAT_API_URL@,
    }
}

/// The name of the environment variable that holds the key of a kind.
pub open spec fn key_variable_name(kind: AnimalKind) -> Seq<char> {
    match kind {
        AnimalKind::Dog => "DOG_API_KEY"@,
        AnimalKind::Cat => "CAT_API_KEY"@,
    }
}

/// The pair of this name and this value.
fn pair(name: &str, value: &str) -> (p: Pair)
    ensures
        is_pair(p, name@, value@),
{
    Pair { name: String::from_str(name), value: String::from_str(value) }
}

/// The request that fetches records from `url` with the key `api_key`.
pub fn fetch_base(url: &str, api_key: &str) -> (r: HttpRequest)
    ensures
        is_fetch_request(r, url@, api_key@),
{
    let mut headers: Vec<Pair> = Vec::new();
    headers.push(pair("x-api-key", api_key));
    let mut query: Vec<Pair> = Vec::new();
    query.push(pair("size", "med"));
    query.push(pair("has_breeds", "true"));
    HttpRequest { url: String::from_str(url), headers, query }
}

/// The request that fetches dog records.
pub fn fetch_dog_data(api_key: &str) -> (r: HttpRequest)
    ensures
        is_fetch_request(r, api_url(AnimalKind::Dog), api_key@),
{
    fetch_base(DOG_API_URL, api_key)
}

/// The request that fetches cat records.
pub fn fetch_cat_data(api_key: &str) -> (r: HttpRequest)
    ensures
        is_fetch_request(r, api_url(AnimalKind::Cat), api_key@),
{
    fetch_base(CAT_API_URL, api_key)
}

/// The name of the environment variable that holds the key of a kind.
pub fn key_variable(kind: AnimalKind) -> (name: &'static str)
    ensures
        name@ == key_variable_name(kind),
{
    match kind {
        AnimalKind::Dog => "DOG_API_KEY",
        AnimalKind::Cat => "CAT_API_KEY",
    }
}

/// The key of a kind, given what the environment holds under its variable:
/// the value found, or an error that names the kind where none was found.
pub fn resolve_key(kind: AnimalKind, found: Option<String>) -> (r: Result<String, ConfigError>)
    ensures
        r == match found {
            Some(key) => Ok::<String, ConfigError>(key),
            None => Err::<String, ConfigError>(ConfigError { kind }),
        },
{
    match found {
        Some(key) => Ok(key),
        None => Err(ConfigError { kind }),
    }
}

/// The step after the request. `sent` is how the request went: the reply's
/// status together with the reply itself, or why there was no reply. A reply
/// that reports success is handed back for its body to be read; any other
/// reply ends the fetch with its status, and a request without a reply ends
/// it with the reason.
pub fn on_reply<R>(sent: Result<(HttpStatus, R), String>) -> (r: Result<R, FetchError>)
    ensures
        r == match sent {
            Err(detail) => Err::<R, FetchError>(FetchError::Transport(detail)),
            Ok((status, reply)) => if 200 <= status.value() < 300 {
                Ok::<R, FetchError>(reply)
            } else {
                Err::<R, FetchError>(FetchError::ApiStatus(status))
            },
        },
{
    match sent {
        Err(detail) => Err(FetchError::Transport(detail)),
        Ok((status, reply)) => if status.is_success() {
            Ok(reply)
        } else {
            Err(FetchError::ApiStatus(status))
        },
    }
}

/// The end of a fetch whose reply reported success. `read` is how reading
/// the body went: the records it held, or why there are none. A body that
/// the network cut short ends the fetch with a transport error, a body that
/// is no list of records with a decode error; each carries the complaint.
pub fn on_body(read: Result<Vec<AnimalRecord>, BodyFailure>) -> (r: Result<
    Vec<AnimalRecord>,
    FetchError,
>)
    ensures
        r == match read {
            Ok(records) => Ok::<Vec<AnimalRecord>, FetchError>(records),
            Err(BodyFailure::Transport(detail)) => Err::<Vec<AnimalRecord>, FetchError>(
                FetchError::Transport(detail),
            ),
            Err(BodyFailure::Malformed(detail)) => Err::<Vec<AnimalRecord>, FetchError>(
                FetchError::Decode(detail),
            ),
        },
{
    match read {
        Ok(records) => Ok(records),
        Err(BodyFailure::Transport(detail)) => Err(FetchError::Transport(detail)),
        Err(BodyFailure::Malformed(detail)) => Err(FetchError::Decode(detail)),
    }
}

} // verus!
