//! The request/response protocol spoken with the running service over a pair
//! of named channels.
//!
//! A request is written to a well-known channel named after the target; the
//! request carries the name of a fresh channel on which the reply is then
//! read. This module holds the wire format; [`crate::exchange::Exchange`]
//! holds the decisions of one such exchange.

use crate::text::{lowercase, lowercase_of, piece, pieces};
use rand::distr::{Alphanumeric, Distribution};
use vstd::prelude::*;
use vstd::string::*;
use vstd::utf8::*;

verus! {

/// Asks the service whether it is running.
pub const ALIVE: &'static str = "--alive";

/// Asks the service to exit.
pub const EXIT: &'static str = "--exit";

/// Tells the service that the update failed.
pub const UPDATE_FAILED: &'static str = "--update-failed";

/// What separates the fields of a reply.
pub const FIELD_DELIMITER: &'static str = "\nAdmApiDataRow=";

/// What the address of a request channel begins with.
pub const REQUEST_NAMESPACE: &'static str = "\\\\.\\pipe\\admpipe_request_";

/// What the address of a response channel begins with.
pub const RESPONSE_NAMESPACE: &'static str = "\\\\.\\pipe\\admpipe_response_";

/// What the name of a response channel begins with.
pub const RESPONSE_ID_PREFIX: &'static str = "rust_";

/// How many random characters the name of a response channel ends with.
pub const RESPONSE_ID_RANDOM_LEN: usize = 10;

/// Milliseconds between two attempts to connect.
pub const CONNECT_INTERVAL_MS: u32 = 100;

/// A failed exchange.
///
/// `is_timeout` is true exactly when no connection could be made before the
/// deadline, which callers read as "the peer is not running"; a failure after
/// connecting has `is_timeout` false.
#[derive(Debug, Clone)]
pub struct PipeError {
    pub message: String,
    pub is_timeout: bool,
}

/// The mathematical content of a [`PipeError`].
pub struct PipeErrorView {
    pub message: Seq<char>,
    pub is_timeout: bool,
}

impl View for PipeError {
    type V = PipeErrorView;

    open spec fn view(&self) -> PipeErrorView {
        PipeErrorView { message: self.message@, is_timeout: self.is_timeout }
    }
}

impl PipeError {
    /// The text of the error.
    pub fn to_string(&self) -> (s: String)
        ensures
            s@ == self.message@,
    {
        self.message.clone()
    }
}

/// A reply of the service.
#[derive(Debug, Clone)]
pub struct ApiResponse {
    pub status_code: String,
    pub message: String,
    pub details: String,
}

/// The mathematical content of an [`ApiResponse`].
pub struct ApiResponseView {
    pub status_code: Seq<char>,
    pub message: Seq<char>,
    pub details: Seq<char>,
}

impl View for ApiResponse {
    type V = ApiResponseView;

    open spec fn view(&self) -> ApiResponseView {
        ApiResponseView {
            status_code: self.status_code@,
            message: self.message@,
            details: self.details@,
        }
    }
}

/// The reply that a text denotes: status code, message and details are the
/// first three pieces of the text split on the field delimiter, each empty
/// where the text has no such piece.
pub open spec fn decoded(reply: Seq<char>) -> ApiResponseView {
    ApiResponseView {
        status_code: piece(reply, FIELD_DELIMITER@, 0),
        message: piece(reply, FIELD_DELIMITER@, 1),
        details: piece(reply, FIELD_DELIMITER@, 2),
    }
}

impl ApiResponse {
    /// Reads a reply. Never fails: fields that the text lacks are empty.
    pub fn decode(reply: &str) -> (r: ApiResponse)
        ensures
            r@ == decoded(reply@),
    {
        let parts = pieces(reply, FIELD_DELIMITER, 3);
        ApiResponse {
            status_code: parts[0].clone(),
            message: parts[1].clone(),
            details: parts[2].clone(),
        }
    }
}

/// What `from` gives is stated on `from` itself, by the fields of the reply:
/// specifications know a text by its characters only, so that no function of
/// specifications can name the reply as a whole.
impl vstd::std_specs::convert::FromSpecImpl<String> for ApiResponse {
    open spec fn obeys_from_spec() -> bool {
        false
    }

    open spec fn from_spec(v: String) -> ApiResponse {
        arbitrary()
    }
}

impl From<String> for ApiResponse {
    fn from(string: String) -> (r: ApiResponse)
        ensures
            r@ == decoded(string@),
    {
        ApiResponse::decode(string.as_str())
    }
}

/// A command for the service of a user, with the time granted to each pipe
/// operation of the exchange.
#[derive(Debug)]
pub struct Request {
    pub command: String,
    pub timeout: u32,
    pub channel: String,
}

/// The mathematical content of a [`Request`].
pub struct RequestView {
    pub command: Seq<char>,
    pub timeout: u32,
    pub channel: Seq<char>,
}

impl View for Request {
    type V = RequestView;

    open spec fn view(&self) -> RequestView {
        RequestView { command: self.command@, timeout: self.timeout, channel: self.channel@ }
    }
}

impl Request {
    /// The request that sends `command` to the service behind `channel`.
    pub fn new(command: &str, timeout: u32, channel: &str) -> (r: Request)
        ensures
            r@ == (RequestView { command: command@, timeout, channel: channel@ }),
    {
        Request { command: String::from_str(command), timeout, channel: String::from_str(channel) }
    }
}

/// What `String::from_utf8` reports of bytes that are not UTF-8.
pub uninterp spec fn utf8_error_text(bytes: Seq<u8>) -> Seq<char>;

/// `String::from_utf8`: succeeds exactly on valid UTF-8 and then gives the
/// text that the bytes encode; otherwise the error it reports is handed back
/// written out.
#[verifier::external_body]
fn text_of_utf8(bytes: Vec<u8>) -> (r: Result<String, String>)
    ensures
        r is Ok <==> valid_utf8(bytes@),
        r matches Ok(text) ==> text@ == decode_utf8(bytes@),
        r matches Err(detail) ==> detail@ == utf8_error_text(bytes@),
{
    match String::from_utf8(bytes) {
        Ok(text) => Ok(text),
        Err(e) => Err(format!("{}", e)),
    }
}

/// A letter or digit of ASCII.
pub open spec fn is_ascii_alphanumeric(c: char) -> bool {
    ||| 'A' <= c <= 'Z'
    ||| 'a' <= c <= 'z'
    ||| '0' <= c <= '9'
}

/// `rand::rng` and `Alphanumeric.sample_iter`: `count` characters, each drawn
/// from the letters and digits of ASCII. Which ones is left open.
#[verifier::external_body]
fn random_alphanumeric(count: usize) -> (r: String)
    ensures
        r@.len() == count,
        forall|i: int| 0 <= i < r@.len() ==> is_ascii_alphanumeric(#[trigger] r@[i]),
{
    let mut rng = rand::rng();
    Alphanumeric.sample_iter(&mut rng).take(count).map(char::from).collect()
}

/// A well-formed name of a response channel: the prefix, then the expected
/// number of ASCII letters and digits.
pub open spec fn is_response_id(id: Seq<char>) -> bool {
    &&& id.len() == RESPONSE_ID_PREFIX@.len() + RESPONSE_ID_RANDOM_LEN
    &&& id.subrange(0, RESPONSE_ID_PREFIX@.len() as int) == RESPONSE_ID_PREFIX@
    &&& forall|i: int|
        RESPONSE_ID_PREFIX@.len() <= i < id.len() ==> is_ascii_alphanumeric(#[trigger] id[i])
}

/// The name of the response channel with the given random part.
pub fn response_id(random_part: &str) -> (id: String)
    ensures
        id@ == RESPONSE_ID_PREFIX@ + random_part@,
{
    let mut id = String::from_str(RESPONSE_ID_PREFIX);
    id.append(random_part);
    id
}

/// A fresh name for a response channel, random at every call.
pub fn fresh_response_id() -> (id: String)
    ensures
        is_response_id(id@),
{
    let random_part = random_alphanumeric(RESPONSE_ID_RANDOM_LEN);
    let id = response_id(random_part.as_str());
    assert(id@.subrange(0, RESPONSE_ID_PREFIX@.len() as int) =~= RESPONSE_ID_PREFIX@);
    id
}

/// The address of the request channel of `channel`.
pub open spec fn request_address_of(channel: Seq<char>) -> Seq<char> {
    REQUEST_NAMESPACE@ + lowercase_of(channel)
}

/// The address of the request channel of `channel`, whose name is taken in
/// lower case.
pub fn request_address(channel: &str) -> (address: String)
    ensures
        address@ == request_address_of(channel@),
{
    let mut address = String::from_str(REQUEST_NAMESPACE);
    let name = lowercase(channel);
    address.append(name.as_str());
    address
}

/// The address of the response channel named `response_id`.
pub open spec fn response_address_of(response_id: Seq<char>) -> Seq<char> {
    RESPONSE_NAMESPACE@ + response_id
}

/// The address of the response channel with the given name.
pub fn response_address(response_id: &str) -> (address: String)
    ensures
        address@ == response_address_of(response_id@),
{
    let mut address = String::from_str(RESPONSE_NAMESPACE);
    address.append(response_id);
    address
}

/// The body of the request that sends `command` and expects the reply on
/// the channel named `response_id`.
pub open spec fn request_body_of(command: Seq<char>, response_id: Seq<char>) -> Seq<char> {
    command + seq!['\n'] + response_id
}

/// The body of a request: the command, a line feed, and the name of the
/// channel on which the reply is expected.
pub fn request_body(command: &str, response_id: &str) -> (body: String)
    ensures
        body@ == request_body_of(command@, response_id@),
{
    proof {
        reveal_strlit("\n");
    }
    let mut body = String::from_str(command);
    body.append("\n");
    body.append(response_id);
    body
}

/// The result of an exchange in which `bytes` were read.
pub open spec fn reply_of(bytes: Seq<u8>) -> Result<ApiResponseView, PipeErrorView> {
    if valid_utf8(bytes) {
        Ok(decoded(decode_utf8(bytes)))
    } else {
        Err(PipeErrorView { message: utf8_error_text(bytes), is_timeout: false })
    }
}

/// The view of the outcome of an exchange.
pub open spec fn result_view(r: Result<ApiResponse, PipeError>) -> Result<
    ApiResponseView,
    PipeErrorView,
> {
    match r {
        Ok(reply) => Ok(reply@),
        Err(e) => Err(e@),
    }
}

/// Reads the bytes of a reply: a reply where they are UTF-8, an error that is
/// no timeout where they are not.
pub fn reply_of_bytes(bytes: Vec<u8>) -> (r: Result<ApiResponse, PipeError>)
    ensures
        result_view(r) == reply_of(bytes@),
{
    match text_of_utf8(bytes) {
        Ok(text) => Ok(ApiResponse::decode(text.as_str())),
        Err(detail) => Err(PipeError { message: detail, is_timeout: false }),
    }
}

} // verus!
