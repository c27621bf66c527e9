//! The JSON-RPC exchange of the upstream fetcher, without its transport.
//!
//! A fetch builds a request, sends it, and reads the answer. Building and
//! reading are here; sending is the driver's. The driver hands back what came
//! over the wire as a [`Reply`], and [`fetch_outcome`] says what it is worth.

use crate::error::FetchError;
use crate::json::{document_members, member_text, parse_document};
use crate::quantity::{decode_quantity, encode_quantity, quantity, quantity_text};
use vstd::prelude::*;
use vstd::string::StringExecFns;

verus! {

/// A JSON-RPC 2.0 request, ready to be written as a JSON object with these
/// four members.
#[derive(Debug)]
pub struct RpcRequest {
    pub jsonrpc: String,
    pub method: String,
    pub params: Vec<String>,
    pub id: u64,
}

/// A request as contracts see it.
#[verifier::ext_equal]
pub struct RequestView {
    pub jsonrpc: Seq<char>,
    pub method: Seq<char>,
    pub params: Seq<Seq<char>>,
    pub id: u64,
}

impl View for RpcRequest {
    type V = RequestView;

    open spec fn view(&self) -> RequestView {
        RequestView {
            jsonrpc: self.jsonrpc@,
            method: self.method@,
            params: self.params@.map_values(|param: String| param@),
            id: self.id,
        }
    }
}

impl RequestView {
    /// The request for the number of the latest block.
    pub open spec fn latest_block_number() -> RequestView {
        RequestView {
            jsonrpc: "2.0"@,
            method: "eth_blockNumber"@,
            params: Seq::empty(),
            id: 1,
        }
    }

    /// The request for the transaction count of `address` at block
    /// `block_number`: the address as it is, the block as a quantity.
    pub open spec fn transaction_count(address: Seq<char>, block_number: u64) -> RequestView {
        RequestView {
            jsonrpc: "2.0"@,
            method: "eth_getTransactionCount"@,
            params: seq![address, quantity_text(block_number as nat)],
            id: 1,
        }
    }
}

/// What the transport brought back for one request.
#[derive(Debug)]
pub enum Reply {
    /// Nothing: the request could not be sent, or no answer came.
    Lost,
    /// An answer whose status code arrived and whose body could not be read
    /// to its end.
    Truncated { status: u16 },
    /// A whole answer.
    Complete { status: u16, body: Vec<u8> },
}

/// The status code is one of success: 200 to 299.
pub open spec fn success(status: u16) -> bool {
    200 <= status < 300
}

/// What an answer is worth, given its status code and the text of its
/// `result` member (`None` where there is no such text).
///
/// A status other than success is a protocol error whatever the body holds.
/// So is a body without a `result` text. A `result` that is not a quantity is
/// a decode error.
pub open spec fn reply_value(status: u16, result: Option<Seq<char>>) -> Result<u64, FetchError> {
    if !success(status) {
        Err(FetchError::Protocol)
    } else {
        match result {
            None => Err(FetchError::Protocol),
            Some(text) => match quantity(text) {
                Some(n) => Ok(n),
                None => Err(FetchError::Decode),
            },
        }
    }
}

/// The text of the `result` member of the JSON object that `body` writes:
/// `None` where `body` is not JSON, is not an object, has no such member, or
/// has one that is not a string.
pub open spec fn result_member(body: Seq<u8>) -> Option<Seq<char>> {
    match document_members(body) {
        Some(members) => if members.contains_key("result"@) {
            Some(members["result"@])
        } else {
            None
        },
        None => None,
    }
}

/// What a fetch yields, given what the transport brought back.
///
/// The status is judged before the body: an answer with a status other than
/// success is a protocol error whether or not its body could be read. Where
/// nothing came, or a success answer broke off, the transport has failed.
pub open spec fn reply_outcome(reply: Reply) -> Result<u64, FetchError> {
    match reply {
        Reply::Lost => Err(FetchError::Transport),
        Reply::Truncated { status } => if success(status) {
            Err(FetchError::Transport)
        } else {
            Err(FetchError::Protocol)
        },
        Reply::Complete { status, body } => reply_value(status, result_member(body@)),
    }
}

impl RpcRequest {
    /// The request for the number of the latest block.
    pub fn get_latest_block_number() -> (request: RpcRequest)
        ensures
            request@ == RequestView::latest_block_number(),
    {
        RpcRequest {
            jsonrpc: String::from_str("2.0"),
            method: String::from_str("eth_blockNumber"),
            params: Vec::new(),
            id: 1,
        }
    }

    /// The request for the transaction count of `address` at block
    /// `block_number`.
    pub fn get_transaction_count(address: &str, block_number: u64) -> (request: RpcRequest)
        ensures
            request@ == RequestView::transaction_count(address@, block_number),
    {
        let mut params: Vec<String> = Vec::new();
        params.push(String::from_str(address));
        params.push(encode_quantity(block_number));
        RpcRequest {
            jsonrpc: String::from_str("2.0"),
            method: String::from_str("eth_getTransactionCount"),
            params,
            id: 1,
        }
    }
}

/// Whether `status` is a success status.
pub fn is_success(status: u16) -> (yes: bool)
    ensures
        yes == success(status),
{
    200 <= status && status < 300
}

/// Judges an answer's status code: anything but success is a protocol error.
pub fn check_status(status: u16) -> (checked: Result<(), FetchError>)
    ensures
        checked == (if success(status) {
            Ok::<(), FetchError>(())
        } else {
            Err(FetchError::Protocol)
        }),
{
    if is_success(status) {
        Ok(())
    } else {
        Err(FetchError::Protocol)
    }
}

/// The value of an answer whose status is `status` and whose `result` member
/// has the text `result`, or has none.
pub fn read_reply(status: u16, result: Option<&str>) -> (value: Result<u64, FetchError>)
    ensures
        value == reply_value(
            status,
            match result {
                Some(text) => Some(text@),
                None => None,
            },
        ),
{
    if !is_success(status) {
        return Err(FetchError::Protocol);
    }
    match result {
        None => Err(FetchError::Protocol),
        Some(text) => decode_quantity(text),
    }
}

/// The value of an answer with the status `status` and the body `body`.
///
/// The body is read only where the status is success. It must be a JSON
/// object with a `result` member that is a string and writes a quantity.
pub fn decode_response(status: u16, body: &[u8]) -> (value: Result<u64, FetchError>)
    ensures
        value == reply_value(status, result_member(body@)),
{
    if !is_success(status) {
        return Err(FetchError::Protocol);
    }
    let document = match parse_document(body) {
        Ok(document) => document,
        Err(_) => {
            return Err(FetchError::Protocol);
        },
    };
    let result = member_text(&document, "result");
    match result {
        Some(text) => read_reply(status, Some(text.as_str())),
        None => read_reply(status, None),
    }
}

/// The outcome of a fetch, given what the transport brought back for its
/// request.
pub fn fetch_outcome(reply: &Reply) -> (outcome: Result<u64, FetchError>)
    ensures
        outcome == reply_outcome(*reply),
{
    match reply {
        Reply::Lost => Err(FetchError::Transport),
        Reply::Truncated { status } => match check_status(*status) {
            Ok(()) => Err(FetchError::Transport),
            Err(error) => Err(error),
        },
        Reply::Complete { status, body } => decode_response(*status, body.as_slice()),
    }
}

} // verus!
