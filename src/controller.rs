//! The protocol dispatcher: what the controller does with each inbound
//! frame, and the outbound requests it builds. Every function here works on
//! plain values and a `Stats` borrowed for the duration of one update; the
//! caller performs the transport and channel work with what comes back.

use vstd::prelude::*;
use crate::algorithm::{display_name_for_token, display_name_of_token, token_of, Algorithm};
use crate::difficulty::{difficulty_for, difficulty_for_algorithm, difficulty_summary, parse_difficulty};
use crate::error::Error;
use crate::protocol::{
    encode_request, invlalid_error_response, job_params, job_params_text, json_string, login_params,
    login_params_text, params_view, quote, request_text, submit_params, submit_params_text,
    JobTemplate, MinerMessage, Payload, RpcError, RpcRequest, RpcResponse, Solution, WorkerStatus,
};
use crate::session::SERVER_RETRY_INTERVAL;
use crate::stats::{bump, bumped, counters_le, same_but_received, ClientStats, Stats};
use crate::text::{contains, contains_seq, dec, decimal, signed_dec, signed_decimal, str_eq};

verus! {

/// The configuration a controller is built from.
pub struct Controller {
    pub algorithm: Algorithm,
    pub server_url: String,
    pub server_login: Option<String>,
    pub server_password: Option<String>,
    pub server_tls_enabled: Option<bool>,
    /// The agent string sent with `login`.
    pub agent: String,
    pub last_request_id: u32,
}

/// The error a response stands for: its own, or the substitute when it
/// carries none. Given as (message, code).
pub open spec fn error_of(res: RpcResponse) -> (Seq<char>, int) {
    match res.error {
        Some(e) => (e.message@, e.code as int),
        None => ("Invalid error response received"@, 0),
    }
}

/// How an error is shown in the stats.
pub open spec fn error_text(e: (Seq<char>, int)) -> Seq<char> {
    "RpcError { code: "@ + signed_dec(e.1) + ", message: "@ + json_string(e.0) + " }"@
}

fn describe_error(e: &RpcError) -> (r: String)
    ensures
        r@ == error_text((e.message@, e.code as int)),
{
    let mut s = String::from_str("RpcError { code: ");
    s.append(signed_decimal(e.code).as_str());
    s.append(", message: ");
    s.append(quote(e.message.as_str()).as_str());
    s.append(" }");
    s
}

fn error_or_substitute(res: &RpcResponse) -> (r: RpcError)
    ensures
        (r.message@, r.code as int) == error_of(*res),
{
    match &res.error {
        Some(e) => RpcError { code: e.code, message: e.message.clone() },
        None => invlalid_error_response(),
    }
}

/// What the miner is told about a job: the job itself and then its seed
/// when the job is for our algorithm, otherwise to stop.
pub open spec fn job_messages(my: Algorithm, job: JobTemplate) -> Seq<MinerMessage> {
    if job.algorithm@ == token_of(my) {
        seq![
            MinerMessage::ReceivedJob(
                job.height,
                job.job_id,
                difficulty_for(job.difficulty@, token_of(my)),
                job.pre_pow,
            ),
            MinerMessage::ReceivedSeed(job.epochs),
        ]
    } else {
        seq![MinerMessage::StopJob]
    }
}

pub open spec fn start_job_text(job: JobTemplate) -> Seq<char> {
    "Last Message Received: Start Job for Height: "@ + dec(job.height as nat)
        + ", Share Difficulty: "@ + difficulty_summary(job.difficulty@)
}

/// The stats after a job for our algorithm was handed to the miner.
pub open spec fn job_started(a: Stats, b: Stats, job: JobTemplate) -> bool {
    &&& b.client_stats.last_message_received@ == start_job_text(job)
    &&& b.client_stats.algorithm_needed@ == display_name_of_token(job.algorithm@)
    &&& b.client_stats.current_network_difficulty@ == difficulty_summary(job.block_difficulty@)
    &&& b.client_stats.connected == a.client_stats.connected
    &&& b.client_stats.connection_status == a.client_stats.connection_status
    &&& b.client_stats.my_algorithm == a.client_stats.my_algorithm
    &&& b.client_stats.last_message_sent == a.client_stats.last_message_sent
    &&& b.mining_stats == a.mining_stats
}

/// A successful `submit` response adds exactly one accepted share, adds one
/// found block exactly when the result text mentions `blockfound`, and
/// leaves the other counters alone (counters below their largest value).
pub proof fn lemma_submit_accepted_counts(a: Stats, b: Stats, result: Seq<char>)
    requires
        submit_accepted(a, b, result),
        a.mining_stats.solution_stats.num_shares_accepted < u64::MAX,
        a.mining_stats.solution_stats.num_blocks_found < u64::MAX,
    ensures
        b.mining_stats.solution_stats.num_shares_accepted == a.mining_stats.solution_stats.num_shares_accepted + 1,
        b.mining_stats.solution_stats.num_blocks_found == a.mining_stats.solution_stats.num_blocks_found + 1
            <==> contains_seq(result, "blockfound"@),
        !contains_seq(result, "blockfound"@) ==> b.mining_stats.solution_stats.num_blocks_found
            == a.mining_stats.solution_stats.num_blocks_found,
        b.mining_stats.solution_stats.num_rejected == a.mining_stats.solution_stats.num_rejected,
        b.mining_stats.solution_stats.num_staled == a.mining_stats.solution_stats.num_staled,
{
}

/// A failed `submit` response adds one stale share when its message
/// mentions `too late` and one rejected share otherwise, never both
/// (counters below their largest value).
pub proof fn lemma_submit_failed_counts(a: Stats, b: Stats, e: (Seq<char>, int))
    requires
        submit_failed(a, b, e),
        a.mining_stats.solution_stats.num_staled < u64::MAX,
        a.mining_stats.solution_stats.num_rejected < u64::MAX,
    ensures
        contains_seq(e.0, "too late"@) ==> b.mining_stats.solution_stats.num_staled
            == a.mining_stats.solution_stats.num_staled + 1 && b.mining_stats.solution_stats.num_rejected
            == a.mining_stats.solution_stats.num_rejected,
        !contains_seq(e.0, "too late"@) ==> b.mining_stats.solution_stats.num_rejected
            == a.mining_stats.solution_stats.num_rejected + 1 && b.mining_stats.solution_stats.num_staled
            == a.mining_stats.solution_stats.num_staled,
        b.mining_stats.solution_stats.num_shares_accepted == a.mining_stats.solution_stats.num_shares_accepted,
        b.mining_stats.solution_stats.num_blocks_found == a.mining_stats.solution_stats.num_blocks_found,
{
}

/// For a job on our algorithm the miner is sent exactly one job and exactly
/// one seed, in that order; for any other job exactly one stop and no job.
pub proof fn lemma_job_dispatch(my: Algorithm, job: JobTemplate)
    ensures
        job.algorithm@ == token_of(my) ==> {
            let m = job_messages(my, job);
            &&& forall|i: int| 0 <= i < m.len() ==> (#[trigger] m[i] is ReceivedJob <==> i == 0)
            &&& forall|i: int| 0 <= i < m.len() ==> (m[i] is ReceivedSeed <==> i == 1)
            &&& forall|i: int| 0 <= i < m.len() ==> !(m[i] is StopJob)
        },
        job.algorithm@ != token_of(my) ==> {
            let m = job_messages(my, job);
            &&& m.len() == 1
            &&& m[0] is StopJob
            &&& forall|i: int| 0 <= i < m.len() ==> !(#[trigger] m[i] is ReceivedJob)
        },
{
}

/// `r` is a request error with message `msg`.
pub open spec fn request_error<T>(r: Result<T, Error>, msg: Seq<char>) -> bool {
    match r {
        Err(Error::RequestError(m)) => m@ == msg,
        _ => false,
    }
}

/// The connection status shown after the server refused our login.
pub open spec fn login_refused_status() -> Seq<char> {
    "Connection Status: Server requires login"@
}

/// The stats never claim a live connection while the status says the server
/// wants a login.
pub open spec fn login_consistent(cs: ClientStats) -> bool {
    cs.connection_status@ == login_refused_status() ==> !cs.connected
}

/// A configured credential, empty when absent.
pub open spec fn login_of(o: Option<String>) -> Seq<char> {
    match o {
        Some(s) => s@,
        None => Seq::empty(),
    }
}

/// Only the last sent message changed, to `msg`.
pub open spec fn sent(a: Stats, b: Stats, msg: Seq<char>) -> bool {
    &&& b.client_stats.last_message_sent@ == msg
    &&& b.client_stats.connected == a.client_stats.connected
    &&& b.client_stats.connection_status == a.client_stats.connection_status
    &&& b.client_stats.my_algorithm == a.client_stats.my_algorithm
    &&& b.client_stats.algorithm_needed == a.client_stats.algorithm_needed
    &&& b.client_stats.current_network_difficulty == a.client_stats.current_network_difficulty
    &&& b.client_stats.last_message_received == a.client_stats.last_message_received
    &&& b.mining_stats == a.mining_stats
}

/// Only the last received message changed, to `msg`.
pub open spec fn received(a: Stats, b: Stats, msg: Seq<char>) -> bool {
    &&& b.client_stats.last_message_received@ == msg
    &&& same_but_received(a.client_stats, b.client_stats)
    &&& b.mining_stats == a.mining_stats
}

pub open spec fn got_job_text(job: JobTemplate) -> Seq<char> {
    "Last Message Received: Got job for block "@ + dec(job.height as nat) + " at difficulty "@
        + difficulty_summary(job.block_difficulty@)
}

pub open spec fn status_text(st: WorkerStatus) -> Seq<char> {
    "Last Message Received: Accepted: "@ + dec(st.accepted as nat) + ", Rejected: "@ + dec(
        st.rejected as nat,
    ) + ", Stale: "@ + dec(st.stale as nat)
}

/// A successful `submit` response: one more accepted share, and one more
/// block when the result text mentions `blockfound`.
pub open spec fn submit_accepted(a: Stats, b: Stats, result: Seq<char>) -> bool {
    let sa = a.mining_stats.solution_stats;
    let sb = b.mining_stats.solution_stats;
    let block = contains_seq(result, "blockfound"@);
    &&& sb.num_shares_accepted == bumped(sa.num_shares_accepted)
    &&& sb.num_blocks_found == if block { bumped(sa.num_blocks_found) } else { sa.num_blocks_found }
    &&& sb.num_rejected == sa.num_rejected
    &&& sb.num_staled == sa.num_staled
    &&& same_but_received(a.client_stats, b.client_stats)
    &&& b.client_stats.last_message_received@ == if block {
        "Last Message Received: Block Found!!"@
    } else {
        "Last Message Received: Share Accepted!!"@
    }
}

/// A failed `submit` response: a stale share when the message mentions
/// `too late`, a rejected one otherwise.
pub open spec fn submit_failed(a: Stats, b: Stats, e: (Seq<char>, int)) -> bool {
    let sa = a.mining_stats.solution_stats;
    let sb = b.mining_stats.solution_stats;
    let late = contains_seq(e.0, "too late"@);
    &&& sb.num_staled == if late { bumped(sa.num_staled) } else { sa.num_staled }
    &&& sb.num_rejected == if late { sa.num_rejected } else { bumped(sa.num_rejected) }
    &&& sb.num_shares_accepted == sa.num_shares_accepted
    &&& sb.num_blocks_found == sa.num_blocks_found
    &&& same_but_received(a.client_stats, b.client_stats)
    &&& b.client_stats.last_message_received@ == "Last Message Received: Failed to submit a solution: "@
        + json_string(e.0)
}

/// A failed `login` response: the server wants credentials.
pub open spec fn login_refused(a: Stats, b: Stats, e: (Seq<char>, int)) -> bool {
    &&& !b.client_stats.connected
    &&& b.client_stats.connection_status@ == login_refused_status()
    &&& b.client_stats.last_message_received@ == "Last Message Received: Failed to log in: "@
        + error_text(e)
    &&& b.client_stats.my_algorithm == a.client_stats.my_algorithm
    &&& b.client_stats.algorithm_needed == a.client_stats.algorithm_needed
    &&& b.client_stats.current_network_difficulty == a.client_stats.current_network_difficulty
    &&& b.client_stats.last_message_sent == a.client_stats.last_message_sent
    &&& b.mining_stats == a.mining_stats
}

fn message(prefix: &str, rest: &str) -> (r: String)
    ensures
        r@ == prefix@ + rest@,
{
    let mut s = String::from_str(prefix);
    s.append(rest);
    s
}

impl Controller {
    /// Builds a controller for one algorithm and one server endpoint;
    /// `version` is this client's version, announced in the login agent.
    pub fn new(
        algorithm: Algorithm,
        server_url: &str,
        server_login: Option<String>,
        server_password: Option<String>,
        server_tls_enabled: Option<bool>,
        version: &str,
    ) -> (r: Result<Controller, Error>)
        ensures
            r is Ok,
            r->Ok_0.algorithm == algorithm,
            r->Ok_0.server_url@ == server_url@,
            r->Ok_0.server_login == server_login,
            r->Ok_0.server_password == server_password,
            r->Ok_0.server_tls_enabled == server_tls_enabled,
            r->Ok_0.agent@ == "epic-miner/v"@ + version@,
            r->Ok_0.last_request_id == 0,
    {
        Ok(Controller {
            algorithm,
            server_url: String::from_str(server_url),
            server_login,
            server_password,
            server_tls_enabled,
            agent: message("epic-miner/v", version),
            last_request_id: 0,
        })
    }

    /// Hands a job to the miner if it is for our algorithm, else stops the
    /// miner. This function makes the algorithm check itself: only a job that
    /// is taken is recorded in the stats (message, needed algorithm, network
    /// difficulty); a job for another algorithm leaves the stats alone.
    pub fn send_miner_job(&self, job: &JobTemplate, stats: &mut Stats) -> (r: Vec<MinerMessage>)
        ensures
            r@ == job_messages(self.algorithm, *job),
            job.algorithm@ == token_of(self.algorithm) ==> job_started(*old(stats), *final(stats), *job),
            job.algorithm@ != token_of(self.algorithm) ==> *final(stats) == *old(stats),
    {
        if !str_eq(job.algorithm.as_str(), self.algorithm.token()) {
            return vec![MinerMessage::StopJob];
        }
        let difficulty = difficulty_for_algorithm(&job.difficulty, self.algorithm);
        let mut received = String::from_str("Last Message Received: Start Job for Height: ");
        received.append(decimal(job.height).as_str());
        received.append(", Share Difficulty: ");
        received.append(parse_difficulty(&job.difficulty).as_str());
        stats.client_stats.last_message_received = received;
        stats.client_stats.algorithm_needed = display_name_for_token(job.algorithm.as_str());
        stats.client_stats.current_network_difficulty = parse_difficulty(&job.block_difficulty);
        let r = vec![
            MinerMessage::ReceivedJob(job.height, job.job_id, difficulty, job.pre_pow.clone()),
            MinerMessage::ReceivedSeed(job.epochs.clone()),
        ];
        proof {
            assert(r@ =~= job_messages(self.algorithm, *job));
        }
        r
    }

    /// Handles a request from the server. Only `job` is known; `payload` is
    /// the typed decode of its params.
    pub fn handle_request(&self, req: &RpcRequest, payload: &Payload, stats: &mut Stats) -> (r: Result<Vec<MinerMessage>, Error>)
        ensures
            req.method@ != "job"@ ==> request_error(r, "Unknown method"@) && *final(stats) == *old(stats),
            req.method@ == "job"@ && req.params is None ==> request_error(r, "No params in job request"@)
                && *final(stats) == *old(stats),
            req.method@ == "job"@ && req.params is Some ==> match *payload {
                Payload::Job(job) => r is Ok && r->Ok_0@ == job_messages(self.algorithm, job)
                    && (job.algorithm@ == token_of(self.algorithm) ==> job_started(*old(stats), *final(stats), job))
                    && (job.algorithm@ != token_of(self.algorithm) ==> *final(stats) == *old(stats)),
                _ => r is Err && r->Err_0 is JsonError && *final(stats) == *old(stats),
            },
    {
        if !str_eq(req.method.as_str(), "job") {
            return Err(Error::RequestError(String::from_str("Unknown method")));
        }
        if req.params.is_none() {
            return Err(Error::RequestError(String::from_str("No params in job request")));
        }
        match payload {
            Payload::Job(job) => Ok(self.send_miner_job(job, stats)),
            _ => Err(self.payload_error(payload)),
        }
    }

    /// Handles a response from the server, dispatched on its `method`.
    /// `payload` is the typed decode of its result where the method calls
    /// for one (`getjobtemplate`, `status`, `seed`).
    pub fn handle_response(&self, res: &RpcResponse, payload: &Payload, stats: &mut Stats) -> (r: Result<Vec<MinerMessage>, Error>)
        ensures
            counters_le(old(stats).mining_stats.solution_stats, final(stats).mining_stats.solution_stats),
            login_consistent(old(stats).client_stats) ==> login_consistent(final(stats).client_stats),
            r is Err ==> *final(stats) == *old(stats),
            res.method@ == "status"@ ==> if res.result is Some {
                match *payload {
                    Payload::Status(st) => r is Ok && r->Ok_0@.len() == 0
                        && received(*old(stats), *final(stats), status_text(st)),
                    _ => r is Err && r->Err_0 is JsonError,
                }
            } else {
                r is Ok && r->Ok_0@.len() == 0 && received(*old(stats), *final(stats),
                    "Last Message Received: Failed to get status: "@ + error_text(error_of(*res)))
            },
            res.method@ == "getjobtemplate"@ ==> if res.result is Some {
                match *payload {
                    Payload::Job(job) => r is Ok && r->Ok_0@ == job_messages(self.algorithm, job)
                        && (job.algorithm@ == token_of(self.algorithm)
                            ==> job_started(*old(stats), *final(stats), job))
                        && (job.algorithm@ != token_of(self.algorithm)
                            ==> received(*old(stats), *final(stats), got_job_text(job))),
                    _ => r is Err && r->Err_0 is JsonError,
                }
            } else {
                r is Ok && r->Ok_0@.len() == 0 && received(*old(stats), *final(stats),
                    "Last Message Received: Failed to get job template: "@ + error_text(error_of(*res)))
            },
            res.method@ == "submit"@ ==> r is Ok && r->Ok_0@.len() == 0 && match res.result {
                Some(t) => submit_accepted(*old(stats), *final(stats), t@),
                None => submit_failed(*old(stats), *final(stats), error_of(*res)),
            },
            res.method@ == "keepalive"@ ==> r is Ok && r->Ok_0@.len() == 0 && if res.result is Some {
                *final(stats) == *old(stats)
            } else {
                received(*old(stats), *final(stats),
                    "Last Message Received: Failed to request keepalive: "@ + error_text(error_of(*res)))
            },
            res.method@ == "login"@ ==> r is Ok && r->Ok_0@.len() == 0 && if res.result is Some {
                *final(stats) == *old(stats)
            } else {
                login_refused(*old(stats), *final(stats), error_of(*res))
            },
            res.method@ == "seed"@ ==> if res.result is Some {
                match *payload {
                    Payload::Seed(e) => r is Ok && r->Ok_0@ == seq![MinerMessage::ReceivedSeed(e.epochs)]
                        && *final(stats) == *old(stats),
                    _ => r is Err && r->Err_0 is JsonError,
                }
            } else {
                r is Ok && r->Ok_0@.len() == 0 && received(*old(stats), *final(stats),
                    "Last Message Received: Failed to get seed template: "@ + error_text(error_of(*res)))
            },
            !(res.method@ == "status"@ || res.method@ == "getjobtemplate"@ || res.method@ == "submit"@
                || res.method@ == "keepalive"@ || res.method@ == "login"@ || res.method@ == "seed"@)
                ==> r is Ok && r->Ok_0@.len() == 0 && received(*old(stats), *final(stats),
                    "Last Message Received: Unknown Response: "@ + res.method@),
    {
        proof {
            reveal_strlit("status");
            reveal_strlit("getjobtemplate");
            reveal_strlit("submit");
            reveal_strlit("keepalive");
            reveal_strlit("login");
            reveal_strlit("seed");
            assert("status"@[1] != "submit"@[1]);
            assert("status"@.len() == 6);
            assert("submit"@.len() == 6);
            assert("getjobtemplate"@.len() == 14);
            assert("keepalive"@.len() == 9);
            assert("login"@.len() == 5);
            assert("seed"@.len() == 4);
        }
        let method = res.method.as_str();
        if str_eq(method, "status") {
            if res.result.is_some() {
                match payload {
                    Payload::Status(st) => {
                        let mut m = String::from_str("Last Message Received: Accepted: ");
                        m.append(decimal(st.accepted).as_str());
                        m.append(", Rejected: ");
                        m.append(decimal(st.rejected).as_str());
                        m.append(", Stale: ");
                        m.append(decimal(st.stale).as_str());
                        stats.client_stats.last_message_received = m;
                        Ok(Vec::new())
                    },
                    _ => Err(self.payload_error(payload)),
                }
            } else {
                let err = error_or_substitute(res);
                stats.client_stats.last_message_received = message(
                    "Last Message Received: Failed to get status: ", describe_error(&err).as_str());
                Ok(Vec::new())
            }
        } else if str_eq(method, "getjobtemplate") {
            if res.result.is_some() {
                match payload {
                    Payload::Job(job) => {
                        let mut m = String::from_str("Last Message Received: Got job for block ");
                        m.append(decimal(job.height).as_str());
                        m.append(" at difficulty ");
                        m.append(parse_difficulty(&job.block_difficulty).as_str());
                        stats.client_stats.last_message_received = m;
                        Ok(self.send_miner_job(job, stats))
                    },
                    _ => Err(self.payload_error(payload)),
                }
            } else {
                let err = error_or_substitute(res);
                stats.client_stats.last_message_received = message(
                    "Last Message Received: Failed to get job template: ", describe_error(&err).as_str());
                Ok(Vec::new())
            }
        } else if str_eq(method, "submit") {
            match &res.result {
                Some(t) => {
                    let solutions = &mut stats.mining_stats.solution_stats;
                    solutions.num_shares_accepted = bump(solutions.num_shares_accepted);
                    if contains(t.as_str(), "blockfound") {
                        solutions.num_blocks_found = bump(solutions.num_blocks_found);
                        stats.client_stats.last_message_received = String::from_str(
                            "Last Message Received: Block Found!!");
                    } else {
                        stats.client_stats.last_message_received = String::from_str(
                            "Last Message Received: Share Accepted!!");
                    }
                },
                None => {
                    let err = error_or_substitute(res);
                    stats.client_stats.last_message_received = message(
                        "Last Message Received: Failed to submit a solution: ", quote(err.message.as_str()).as_str());
                    let solutions = &mut stats.mining_stats.solution_stats;
                    if contains(err.message.as_str(), "too late") {
                        solutions.num_staled = bump(solutions.num_staled);
                    } else {
                        solutions.num_rejected = bump(solutions.num_rejected);
                    }
                },
            }
            Ok(Vec::new())
        } else if str_eq(method, "keepalive") {
            if res.result.is_none() {
                let err = error_or_substitute(res);
                stats.client_stats.last_message_received = message(
                    "Last Message Received: Failed to request keepalive: ", describe_error(&err).as_str());
            }
            Ok(Vec::new())
        } else if str_eq(method, "login") {
            if res.result.is_none() {
                let err = error_or_substitute(res);
                stats.client_stats.last_message_received = message(
                    "Last Message Received: Failed to log in: ", describe_error(&err).as_str());
                stats.client_stats.connection_status = String::from_str(
                    "Connection Status: Server requires login");
                stats.client_stats.connected = false;
            }
            Ok(Vec::new())
        } else if str_eq(method, "seed") {
            if res.result.is_some() {
                match payload {
                    Payload::Seed(e) => {
                        let r = vec![MinerMessage::ReceivedSeed(e.epochs.clone())];
                        proof {
                            assert(r@ =~= seq![MinerMessage::ReceivedSeed(e.epochs)]);
                        }
                        Ok(r)
                    },
                    _ => Err(self.payload_error(payload)),
                }
            } else {
                let err = error_or_substitute(res);
                stats.client_stats.last_message_received = message(
                    "Last Message Received: Failed to get seed template: ", describe_error(&err).as_str());
                Ok(Vec::new())
            }
        } else {
            stats.client_stats.last_message_received = message(
                "Last Message Received: Unknown Response: ", method);
            Ok(Vec::new())
        }
    }

    /// The error for a payload that is not what the method calls for.
    fn payload_error(&self, payload: &Payload) -> (r: Error)
        ensures
            r is JsonError,
    {
        match payload {
            Payload::Invalid(m) => Error::JsonError(m.clone()),
            _ => Error::JsonError(String::from_str("payload does not match the method")),
        }
    }

    /// The frame text of a request with this controller's id.
    fn request(&self, method: &str, params: Option<String>) -> (r: String)
        ensures
            r@ == request_text(dec(self.last_request_id as nat), "2.0"@, method@, params_view(params)),
    {
        let req = RpcRequest {
            id: decimal(self.last_request_id as u64),
            jsonrpc: String::from_str("2.0"),
            method: String::from_str(method),
            params,
        };
        encode_request(&req)
    }

    /// The `login` request, or `None` when no login is configured (an absent
    /// or empty login); records the send in the stats.
    pub fn send_login(&self, stats: &mut Stats) -> (r: Option<String>)
        ensures
            login_of(self.server_login) == Seq::<char>::empty() ==> r is None && *final(stats) == *old(stats),
            login_of(self.server_login) != Seq::<char>::empty() ==> r is Some
                && r->Some_0@ == request_text(dec(self.last_request_id as nat), "2.0"@, "login"@, Some(
                    login_params_text(login_of(self.server_login), login_of(self.server_password), self.agent@),
                ))
                && sent(*old(stats), *final(stats), "Last Message Sent: Login"@),
    {
        let empty = String::new();
        let login = match &self.server_login {
            Some(l) => l,
            None => &empty,
        };
        if login.unicode_len() == 0 {
            assert(login@ =~= Seq::<char>::empty());
            return None;
        }
        let pass = match &self.server_password {
            Some(p) => p,
            None => &empty,
        };
        let params = login_params(login.as_str(), pass.as_str(), self.agent.as_str());
        stats.client_stats.last_message_sent = String::from_str("Last Message Sent: Login");
        Some(self.request("login", Some(params)))
    }

    /// The `getjobtemplate` request for our algorithm; records the send.
    pub fn send_message_get_job_template(&self, stats: &mut Stats) -> (r: String)
        ensures
            r@ == request_text(dec(self.last_request_id as nat), "2.0"@, "getjobtemplate"@, Some(
                job_params_text(token_of(self.algorithm)),
            )),
            sent(*old(stats), *final(stats), "Last Message Sent: Get New Job"@),
    {
        let params = job_params(self.algorithm.token());
        stats.client_stats.last_message_sent = String::from_str("Last Message Sent: Get New Job");
        self.request("getjobtemplate", Some(params))
    }

    /// The `status` request.
    pub fn send_message_get_status(&self) -> (r: String)
        ensures
            r@ == request_text(dec(self.last_request_id as nat), "2.0"@, "status"@, None),
    {
        self.request("status", None)
    }

    /// The `submit` request for a solution found at `height`; records the send.
    pub fn send_message_submit(&self, height: u64, solution: &Solution, stats: &mut Stats) -> (r: String)
        ensures
            r@ == request_text(dec(self.last_request_id as nat), "2.0"@, "submit"@, Some(
                submit_params_text(height, solution.job_id, solution.nonce, solution.pow@),
            )),
            sent(*old(stats), *final(stats), "Last Message Sent: Found share for height: "@
                + dec(height as nat) + " - nonce: "@ + dec(solution.nonce as nat)),
    {
        let params = submit_params(height, solution.job_id, solution.nonce, solution.pow.as_str());
        let mut m = String::from_str("Last Message Sent: Found share for height: ");
        m.append(decimal(height).as_str());
        m.append(" - nonce: ");
        m.append(decimal(solution.nonce).as_str());
        stats.client_stats.last_message_sent = m;
        self.request("submit", Some(params))
    }

    /// Records a failed connection attempt.
    pub fn connect_failed(&self, stats: &mut Stats)
        ensures
            !final(stats).client_stats.connected,
            login_consistent(final(stats).client_stats),
            final(stats).client_stats.connection_status@ == "Connection Status: Can't establish server connection to "@
                + self.server_url@ + ". Will retry every "@ + dec(SERVER_RETRY_INTERVAL as nat) + " seconds"@,
            final(stats).client_stats.last_message_sent == old(stats).client_stats.last_message_sent,
            final(stats).client_stats.last_message_received == old(stats).client_stats.last_message_received,
            final(stats).client_stats.my_algorithm == old(stats).client_stats.my_algorithm,
            final(stats).client_stats.algorithm_needed == old(stats).client_stats.algorithm_needed,
            final(stats).client_stats.current_network_difficulty == old(stats).client_stats.current_network_difficulty,
            final(stats).mining_stats == old(stats).mining_stats,
    {
        let mut m = String::from_str("Connection Status: Can't establish server connection to ");
        m.append(self.server_url.as_str());
        m.append(". Will retry every ");
        m.append(decimal(SERVER_RETRY_INTERVAL).as_str());
        m.append(" seconds");
        stats.client_stats.connection_status = m;
        stats.client_stats.connected = false;
    }

    /// Records a successful connection.
    pub fn connect_succeeded(&self, stats: &mut Stats)
        ensures
            login_consistent(old(stats).client_stats) ==> login_consistent(final(stats).client_stats),
            final(stats).client_stats.connection_status@ == "Connection Status: Connected to Epic server at "@
                + self.server_url@ + "."@,
            final(stats).client_stats.connected == old(stats).client_stats.connected,
            final(stats).client_stats.last_message_sent == old(stats).client_stats.last_message_sent,
            final(stats).client_stats.last_message_received == old(stats).client_stats.last_message_received,
            final(stats).client_stats.my_algorithm == old(stats).client_stats.my_algorithm,
            final(stats).client_stats.algorithm_needed == old(stats).client_stats.algorithm_needed,
            final(stats).client_stats.current_network_difficulty == old(stats).client_stats.current_network_difficulty,
            final(stats).mining_stats == old(stats).mining_stats,
    {
        let mut m = String::from_str("Connection Status: Connected to Epic server at ");
        m.append(self.server_url.as_str());
        m.append(".");
        proof {
            reveal_strlit("Connection Status: Connected to Epic server at ");
            reveal_strlit("Connection Status: Server requires login");
            assert(m@[19] != login_refused_status()[19]);
        }
        stats.client_stats.connection_status = m;
    }

    /// Records that the transport was lost.
    pub fn connection_lost(&self, stats: &mut Stats)
        ensures
            !final(stats).client_stats.connected,
            login_consistent(final(stats).client_stats),
            final(stats).client_stats.connection_status == old(stats).client_stats.connection_status,
            final(stats).client_stats.last_message_sent == old(stats).client_stats.last_message_sent,
            final(stats).client_stats.last_message_received == old(stats).client_stats.last_message_received,
            final(stats).client_stats.my_algorithm == old(stats).client_stats.my_algorithm,
            final(stats).client_stats.algorithm_needed == old(stats).client_stats.algorithm_needed,
            final(stats).client_stats.current_network_difficulty == old(stats).client_stats.current_network_difficulty,
            final(stats).mining_stats == old(stats).mining_stats,
    {
        stats.client_stats.connected = false;
    }

    /// Records that a line came in: the session is live, on our algorithm.
    /// While the status says the server refused our login, the session is
    /// not reported as connected.
    pub fn frame_received(&self, stats: &mut Stats)
        ensures
            final(stats).client_stats.connected == (old(stats).client_stats.connection_status@
                != login_refused_status()),
            login_consistent(final(stats).client_stats),
            final(stats).client_stats.my_algorithm@ == display_name_of_token(token_of(self.algorithm)),
            final(stats).client_stats.connection_status == old(stats).client_stats.connection_status,
            final(stats).client_stats.last_message_sent == old(stats).client_stats.last_message_sent,
            final(stats).client_stats.last_message_received == old(stats).client_stats.last_message_received,
            final(stats).client_stats.algorithm_needed == old(stats).client_stats.algorithm_needed,
            final(stats).client_stats.current_network_difficulty == old(stats).client_stats.current_network_difficulty,
            final(stats).mining_stats == old(stats).mining_stats,
    {
        stats.client_stats.my_algorithm = self.algorithm.display_name();
        stats.client_stats.connected = !str_eq(
            stats.client_stats.connection_status.as_str(),
            "Connection Status: Server requires login",
        );
    }
}

} // verus!
