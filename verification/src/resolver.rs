//! The address resolver: reading the reply of the lookup service.

use vstd::prelude::*;

verus! {

/// Where the machine's public address is asked for.
pub const LOOKUP_URL: &'static str = "https://api.ipify.org?format=json";

/// The member of the reply's body that holds the address.
pub const ADDRESS_FIELD: &'static str = "ip";

/// What came back from the lookup request.
#[derive(Debug, Clone, PartialEq, Eq)]
pub enum LookupReply {
    /// No response arrived, or its body could not be read.
    Failed,
    /// A response, with its status code and the bytes of its body.
    Response { status: u16, body: Vec<u8> },
}

/// The mathematical value of a [`LookupReply`].
pub enum Reply {
    Failed,
    Response { status: u16, body: Seq<u8> },
}

impl View for LookupReply {
    type V = Reply;

    open spec fn view(&self) -> Reply {
        match self {
            LookupReply::Failed => Reply::Failed,
            LookupReply::Response { status, body } => Reply::Response {
                status: *status,
                body: body@,
            },
        }
    }
}

/// Why a cycle has no address to work with.
#[derive(Debug, Clone, Copy, PartialEq, Eq)]
pub enum ResolveError {
    /// The lookup service could not be reached.
    Unreachable,
    /// The service answered with a status outside 200..=299.
    HttpStatus(u16),
    /// The body is not a JSON document.
    MalformedBody,
    /// The document has no text under [`ADDRESS_FIELD`].
    MissingAddress,
}

/// What reading the member `key` of the JSON document in `body` gives:
/// `None` when `body` is not a JSON document, `Some(None)` when the document
/// is not an object with a string under `key`, otherwise that string.
pub uninterp spec fn json_text_member(body: Seq<u8>, key: Seq<char>) -> Option<Option<Seq<char>>>;

/// Parses `body` with `serde_json::from_slice` into a `serde_json::Value`,
/// indexes it by `key` and reads the member with `Value::as_str`. Not proved:
/// that the answer depends on `body` and `key` alone, which is what naming it
/// `json_text_member` claims. A body that does not parse gives `None`.
#[verifier::external_body]
pub(crate) fn text_member(body: &[u8], key: &str) -> (member: Option<Option<String>>)
    ensures
        member_view(member) == json_text_member(body@, key@),
{
    match serde_json::from_slice::<serde_json::Value>(body) {
        Ok(document) => Some(document[key].as_str().map(str::to_owned)),
        Err(_) => None,
    }
}

/// The characters of what was read from a body.
pub open spec fn member_view(member: Option<Option<String>>) -> Option<Option<Seq<char>>> {
    match member {
        None => None,
        Some(None) => Some(None),
        Some(Some(text)) => Some(Some(text@)),
    }
}

/// The characters of a resolved address, or the reason there is none.
pub open spec fn address_view(address: Result<String, ResolveError>) -> Result<
    Seq<char>,
    ResolveError,
> {
    match address {
        Ok(ip) => Ok(ip@),
        Err(error) => Err(error),
    }
}

/// Whether `status` is one of the success codes, 200 to 299.
pub open spec fn is_success(status: u16) -> bool {
    200 <= status < 300
}

/// The address a response yields, given its status and what was read from its
/// body: a status that is no success is reported before anything else, then a
/// body that is no document, then a document without the address.
pub open spec fn interpret(status: u16, member: Option<Option<Seq<char>>>) -> Result<
    Seq<char>,
    ResolveError,
> {
    if !is_success(status) {
        Err(ResolveError::HttpStatus(status))
    } else {
        match member {
            None => Err(ResolveError::MalformedBody),
            Some(None) => Err(ResolveError::MissingAddress),
            Some(Some(ip)) => Ok(ip),
        }
    }
}

/// The address a reply yields.
pub open spec fn resolved(reply: Reply) -> Result<Seq<char>, ResolveError> {
    match reply {
        Reply::Failed => Err(ResolveError::Unreachable),
        Reply::Response { status, body } => interpret(
            status,
            json_text_member(body, ADDRESS_FIELD@),
        ),
    }
}

/// Tells whether `status` is one of the success codes, 200 to 299.
pub fn status_is_success(status: u16) -> (ok: bool)
    ensures
        ok == is_success(status),
{
    200 <= status && status < 300
}

/// Gives the address of a response from its status and from what was read
/// under [`ADDRESS_FIELD`] in its body.
pub fn read_address(status: u16, member: Option<Option<String>>) -> (address: Result<
    String,
    ResolveError,
>)
    ensures
        address_view(address) == interpret(status, member_view(member)),
{
    if !status_is_success(status) {
        Err(ResolveError::HttpStatus(status))
    } else {
        match member {
            None => Err(ResolveError::MalformedBody),
            Some(None) => Err(ResolveError::MissingAddress),
            Some(Some(ip)) => Ok(ip),
        }
    }
}

/// Gives the public address that `reply` carries: the text under
/// [`ADDRESS_FIELD`] in the JSON body of a successful response. Every other
/// reply is an error, and none of them is fatal: the next cycle asks again.
pub fn address_from_reply(reply: &LookupReply) -> (address: Result<String, ResolveError>)
    ensures
        address_view(address) == resolved(reply@),
{
    match reply {
        LookupReply::Failed => Err(ResolveError::Unreachable),
        LookupReply::Response { status, body } => {
            if !status_is_success(*status) {
                read_address(*status, None)
            } else {
                read_address(*status, text_member(body.as_slice(), ADDRESS_FIELD))
            }
        },
    }
}

} // verus!
