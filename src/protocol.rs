//! JSON-RPC message types exchanged with the server and the miner, and the
//! encoding of outbound requests as single-line JSON text.

use vstd::prelude::*;
use crate::text::{decimal, dec, str_eq};

verus! {

/// An error object carried by a response.
#[derive(Debug, Clone)]
pub struct RpcError {
    pub code: i64,
    pub message: String,
}

/// A JSON-RPC request. `params` holds the JSON text of the parameters.
#[derive(Debug, Clone)]
pub struct RpcRequest {
    pub id: String,
    pub jsonrpc: String,
    pub method: String,
    pub params: Option<String>,
}

/// A JSON-RPC response. `result` holds the JSON text of the result.
#[derive(Debug, Clone)]
pub struct RpcResponse {
    pub id: String,
    pub jsonrpc: String,
    pub method: String,
    pub result: Option<String>,
    pub error: Option<RpcError>,
}

/// A work unit announced by the server. Each difficulty list associates an
/// algorithm token with a difficulty; `epochs` is JSON text passed through
/// to the miner untouched.
#[derive(Debug, Clone)]
pub struct JobTemplate {
    pub height: u64,
    pub job_id: u64,
    pub pre_pow: String,
    pub algorithm: String,
    pub difficulty: Vec<(String, u64)>,
    pub block_difficulty: Vec<(String, u64)>,
    pub epochs: String,
}

/// Seed data for the miner, as JSON text.
#[derive(Debug, Clone)]
pub struct EpochTemplate {
    pub epochs: String,
}

/// The server's view of this worker.
#[derive(Debug, Clone)]
pub struct WorkerStatus {
    pub id: String,
    pub height: u64,
    pub difficulty: u64,
    pub accepted: u64,
    pub rejected: u64,
    pub stale: u64,
}

/// A candidate solution found by the miner; `pow` is the JSON text of the
/// algorithm-specific proof.
#[derive(Debug, Clone)]
pub struct Solution {
    pub job_id: u64,
    pub nonce: u64,
    pub pow: String,
}

/// Messages from the controller to the miner.
#[derive(Debug, Clone)]
pub enum MinerMessage {
    /// height, job id, share difficulty, pre-proof-of-work header
    ReceivedJob(u64, u64, u64, String),
    ReceivedSeed(String),
    StopJob,
}

/// Messages from the miner to the controller.
#[derive(Debug, Clone)]
pub enum ClientMessage {
    /// height and the solution found for it
    FoundSolution(u64, Solution),
    Shutdown,
}

/// Whether a frame is a request from the server or a response to one of ours.
#[derive(Debug, Clone, Copy, PartialEq, Eq, Structural)]
pub enum FrameKind {
    Request,
    Response,
}

/// The typed payload a frame's params or result must decode to.
#[derive(Debug, Clone, Copy, PartialEq, Eq, Structural)]
pub enum PayloadKind {
    Job,
    Status,
    Seed,
    Untyped,
}

/// The outcome of the strongly-typed decode of a params or result value.
#[derive(Debug, Clone)]
pub enum Payload {
    Job(JobTemplate),
    Status(WorkerStatus),
    Seed(EpochTemplate),
    /// Nothing typed was needed or present.
    Untyped,
    /// The decode failed, with the decoder's message.
    Invalid(String),
}

/// The error substituted when a response carries neither result nor error.
pub fn invlalid_error_response() -> (r: RpcError)
    ensures
        r.code == 0,
        r.message@ == "Invalid error response received"@,
{
    RpcError { code: 0, message: String::from_str("Invalid error response received") }
}

/// Frames whose method is `job` are requests; all others are responses.
pub open spec fn frame_kind_of(method: Option<Seq<char>>) -> FrameKind {
    if method == Some("job"@) {
        FrameKind::Request
    } else {
        FrameKind::Response
    }
}

/// Classifies a frame by the `method` field found in it, if it is a string.
pub fn classify(method: Option<&str>) -> (r: FrameKind)
    ensures
        r == frame_kind_of(
            match method {
                Some(m) => Some(m@),
                None => None,
            },
        ),
{
    match method {
        Some(m) => if str_eq(m, "job") {
            FrameKind::Request
        } else {
            FrameKind::Response
        },
        None => FrameKind::Response,
    }
}

/// What the params or result of a frame with this method decode to.
pub open spec fn payload_kind_of(method: Seq<char>) -> PayloadKind {
    if method == "job"@ || method == "getjobtemplate"@ {
        PayloadKind::Job
    } else if method == "status"@ {
        PayloadKind::Status
    } else if method == "seed"@ {
        PayloadKind::Seed
    } else {
        PayloadKind::Untyped
    }
}

/// What the params or result of a frame with this method decode to.
pub fn payload_kind(method: &str) -> (r: PayloadKind)
    ensures
        r == payload_kind_of(method@),
{
    if str_eq(method, "job") || str_eq(method, "getjobtemplate") {
        PayloadKind::Job
    } else if str_eq(method, "status") {
        PayloadKind::Status
    } else if str_eq(method, "seed") {
        PayloadKind::Seed
    } else {
        PayloadKind::Untyped
    }
}

/// A lowercase hexadecimal digit.
pub open spec fn hex_digit(d: nat) -> char {
    if d < 10 {
        crate::text::digit_char(d)
    } else if d == 10 { 'a' }
    else if d == 11 { 'b' }
    else if d == 12 { 'c' }
    else if d == 13 { 'd' }
    else if d == 14 { 'e' }
    else { 'f' }
}

/// How one character is written inside a JSON string: quote and backslash
/// are escaped, the control characters below 0x20 get their short escape or
/// `\u00xx`, everything else stands as it is.
pub open spec fn escape_char(c: char) -> Seq<char> {
    if c == '"' {
        seq!['\\', '"']
    } else if c == '\\' {
        seq!['\\', '\\']
    } else if c == '\x08' {
        seq!['\\', 'b']
    } else if c == '\t' {
        seq!['\\', 't']
    } else if c == '\n' {
        seq!['\\', 'n']
    } else if c == '\x0C' {
        seq!['\\', 'f']
    } else if c == '\r' {
        seq!['\\', 'r']
    } else if (c as u32) < 0x20 {
        seq!['\\', 'u', '0', '0', hex_digit((c as u32 / 16) as nat), hex_digit((c as u32 % 16) as nat)]
    } else {
        seq![c]
    }
}

/// The escaped contents of a JSON string.
pub open spec fn escaped(s: Seq<char>) -> Seq<char>
    decreases s.len(),
{
    if s.len() == 0 {
        Seq::empty()
    } else {
        escape_char(s[0]) + escaped(s.drop_first())
    }
}

/// The JSON string literal for `s`.
pub open spec fn json_string(s: Seq<char>) -> Seq<char> {
    seq!['"'] + escaped(s) + seq!['"']
}

/// Relies on serde_json::to_string applied to a `str`: the text in double
/// quotes, each character escaped as its escape table gives. Serialising a
/// `str` into memory does not fail.
#[verifier::external_body]
pub(crate) fn quote(s: &str) -> (r: String)
    ensures
        r@ == json_string(s@),
{
    match serde_json::to_string(s) {
        Ok(t) => t,
        Err(_) => String::new(),
    }
}

/// The JSON text of a request, fields in declaration order, absent params
/// written as `null`.
pub open spec fn request_text(id: Seq<char>, jsonrpc: Seq<char>, method: Seq<char>, params: Option<Seq<char>>) -> Seq<char> {
    "{\"id\":"@ + json_string(id) + ",\"jsonrpc\":"@ + json_string(jsonrpc) + ",\"method\":"@
        + json_string(method) + ",\"params\":"@ + match params {
        Some(p) => p,
        None => "null"@,
    } + "}"@
}

pub open spec fn params_view(p: Option<String>) -> Option<Seq<char>> {
    match p {
        Some(s) => Some(s@),
        None => None,
    }
}

/// Encodes a request as one line of JSON text (without the terminator).
pub fn encode_request(req: &RpcRequest) -> (r: String)
    ensures
        r@ == request_text(req.id@, req.jsonrpc@, req.method@, params_view(req.params)),
{
    let mut s = String::from_str("{\"id\":");
    s.append(quote(req.id.as_str()).as_str());
    s.append(",\"jsonrpc\":");
    s.append(quote(req.jsonrpc.as_str()).as_str());
    s.append(",\"method\":");
    s.append(quote(req.method.as_str()).as_str());
    s.append(",\"params\":");
    match &req.params {
        Some(p) => s.append(p.as_str()),
        None => s.append("null"),
    }
    s.append("}");
    s
}

/// The parameters of a `login` request.
pub open spec fn login_params_text(login: Seq<char>, pass: Seq<char>, agent: Seq<char>) -> Seq<char> {
    "{\"login\":"@ + json_string(login) + ",\"pass\":"@ + json_string(pass) + ",\"agent\":"@
        + json_string(agent) + "}"@
}

pub fn login_params(login: &str, pass: &str, agent: &str) -> (r: String)
    ensures
        r@ == login_params_text(login@, pass@, agent@),
{
    let mut s = String::from_str("{\"login\":");
    s.append(quote(login).as_str());
    s.append(",\"pass\":");
    s.append(quote(pass).as_str());
    s.append(",\"agent\":");
    s.append(quote(agent).as_str());
    s.append("}");
    s
}

/// The parameters of a `getjobtemplate` request.
pub open spec fn job_params_text(algorithm: Seq<char>) -> Seq<char> {
    "{\"algorithm\":"@ + json_string(algorithm) + "}"@
}

pub fn job_params(algorithm: &str) -> (r: String)
    ensures
        r@ == job_params_text(algorithm@),
{
    let mut s = String::from_str("{\"algorithm\":");
    s.append(quote(algorithm).as_str());
    s.append("}");
    s
}

/// The parameters of a `submit` request; `pow` is JSON text.
pub open spec fn submit_params_text(height: u64, job_id: u64, nonce: u64, pow: Seq<char>) -> Seq<char> {
    "{\"height\":"@ + dec(height as nat) + ",\"job_id\":"@ + dec(job_id as nat) + ",\"nonce\":"@
        + dec(nonce as nat) + ",\"pow\":"@ + pow + "}"@
}

pub fn submit_params(height: u64, job_id: u64, nonce: u64, pow: &str) -> (r: String)
    ensures
        r@ == submit_params_text(height, job_id, nonce, pow@),
{
    let mut s = String::from_str("{\"height\":");
    s.append(decimal(height).as_str());
    s.append(",\"job_id\":");
    s.append(decimal(job_id).as_str());
    s.append(",\"nonce\":");
    s.append(decimal(nonce).as_str());
    s.append(",\"pow\":");
    s.append(pow);
    s.append("}");
    s
}

} // verus!
