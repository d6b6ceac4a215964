use stratum_client::{
    Algorithm, Controller, Error, JobTemplate, MinerMessage, Payload, RpcError, RpcRequest,
    RpcResponse, Solution, Stats, WorkerStatus, EpochTemplate,
};

fn controller(algorithm: Algorithm, login: Option<&str>) -> Controller {
    Controller::new(
        algorithm,
        "pool.example.com:3333",
        login.map(|l| l.to_string()),
        Some("x".to_string()),
        None,
        "1.2.3",
    )
    .unwrap()
}

fn job(algorithm: &str, height: u64, difficulty: Vec<(&str, u64)>) -> JobTemplate {
    JobTemplate {
        height,
        job_id: 42,
        pre_pow: "00ff".to_string(),
        algorithm: algorithm.to_string(),
        difficulty: difficulty.iter().map(|(a, d)| (a.to_string(), *d)).collect(),
        block_difficulty: vec![("cuckoo".to_string(), 9999999)],
        epochs: "[[1,2,\"ab\"]]".to_string(),
    }
}

fn response(method: &str, result: Option<&str>, error: Option<(i64, &str)>) -> RpcResponse {
    RpcResponse {
        id: "0".to_string(),
        jsonrpc: "2.0".to_string(),
        method: method.to_string(),
        result: result.map(|r| r.to_string()),
        error: error.map(|(code, message)| RpcError { code, message: message.to_string() }),
    }
}

fn params(frame: &str) -> serde_json::Value {
    let v: serde_json::Value = serde_json::from_str(frame).unwrap();
    v["params"].clone()
}

#[test]
fn cold_start_login_and_first_job() {
    let c = controller(Algorithm::Cuckoo, Some("alice"));
    let mut stats = Stats::default();
    let login = c.send_login(&mut stats).unwrap();
    let v: serde_json::Value = serde_json::from_str(&login).unwrap();
    assert_eq!(v["method"], "login");
    assert_eq!(v["id"], "0");
    assert_eq!(v["jsonrpc"], "2.0");
    assert_eq!(v["params"]["login"], "alice");
    assert_eq!(v["params"]["pass"], "x");
    assert_eq!(v["params"]["agent"], "epic-miner/v1.2.3");
    assert_eq!(stats.client_stats.last_message_sent, "Last Message Sent: Login");

    let out = c.handle_response(&response("login", Some("\"ok\""), None), &Payload::Untyped, &mut stats).unwrap();
    assert!(out.is_empty());

    let gjt = c.send_message_get_job_template(&mut stats);
    assert_eq!(params(&gjt)["algorithm"], "cuckoo");
    assert_eq!(stats.client_stats.last_message_sent, "Last Message Sent: Get New Job");

    c.frame_received(&mut stats);
    let j = job("cuckoo", 100, vec![("cuckoo", 7)]);
    let out = c
        .handle_response(&response("getjobtemplate", Some("{}"), None), &Payload::Job(j), &mut stats)
        .unwrap();
    assert_eq!(out.len(), 2);
    assert!(matches!(&out[0], MinerMessage::ReceivedJob(100, 42, 7, p) if p == "00ff"));
    assert!(matches!(&out[1], MinerMessage::ReceivedSeed(e) if e == "[[1,2,\"ab\"]]"));
    assert!(stats.client_stats.connected);
    assert_eq!(stats.client_stats.my_algorithm, "Cuckatoo");
    assert_eq!(stats.client_stats.algorithm_needed, "Cuckatoo");
    assert_eq!(
        stats.client_stats.last_message_received,
        "Last Message Received: Start Job for Height: 100, Share Difficulty: Cuckatoo: 7, ProgPow: Nan, RandomX: Nan"
    );
    assert_eq!(
        stats.client_stats.current_network_difficulty,
        "Cuckatoo: 9999999, ProgPow: Nan, RandomX: Nan"
    );
}

#[test]
fn algorithm_mismatch_stops_miner() {
    let c = controller(Algorithm::RandomX, None);
    let mut stats = Stats::default();
    let req = RpcRequest {
        id: "0".to_string(),
        jsonrpc: "2.0".to_string(),
        method: "job".to_string(),
        params: Some("{}".to_string()),
    };
    let out = c.handle_request(&req, &Payload::Job(job("cuckoo", 5, vec![("cuckoo", 3)])), &mut stats).unwrap();
    assert_eq!(out.len(), 1);
    assert!(matches!(out[0], MinerMessage::StopJob));
    assert_eq!(stats.client_stats.last_message_received, "");
}

#[test]
fn job_request_for_my_algorithm_starts_miner() {
    let c = controller(Algorithm::RandomX, None);
    let mut stats = Stats::default();
    let req = RpcRequest {
        id: "0".to_string(),
        jsonrpc: "2.0".to_string(),
        method: "job".to_string(),
        params: Some("{}".to_string()),
    };
    let j = job("randomx", 9, vec![("cuckoo", 3), ("randomx", 11), ("randomx", 12)]);
    let out = c.handle_request(&req, &Payload::Job(j), &mut stats).unwrap();
    assert_eq!(out.len(), 2);
    assert!(matches!(out[0], MinerMessage::ReceivedJob(9, 42, 11, _)));
    assert!(matches!(out[1], MinerMessage::ReceivedSeed(_)));
    assert_eq!(stats.client_stats.algorithm_needed, "RandomX");
}

#[test]
fn job_without_own_difficulty_defaults_to_one() {
    let c = controller(Algorithm::ProgPow, None);
    let mut stats = Stats::default();
    let out = c.send_miner_job(&job("progpow", 1, vec![("cuckoo", 3)]), &mut stats);
    assert!(matches!(out[0], MinerMessage::ReceivedJob(1, 42, 1, _)));
}

#[test]
fn job_request_errors() {
    let c = controller(Algorithm::Cuckoo, None);
    let mut stats = Stats::default();
    let mut req = RpcRequest {
        id: "0".to_string(),
        jsonrpc: "2.0".to_string(),
        method: "job".to_string(),
        params: None,
    };
    let r = c.handle_request(&req, &Payload::Untyped, &mut stats);
    assert!(matches!(r, Err(Error::RequestError(ref m)) if m == "No params in job request"));
    req.params = Some("{\"height\":\"x\"}".to_string());
    let r = c.handle_request(&req, &Payload::Invalid("bad height".to_string()), &mut stats);
    assert!(matches!(r, Err(Error::JsonError(ref m)) if m == "bad height"));
    req.method = "mine".to_string();
    let r = c.handle_request(&req, &Payload::Untyped, &mut stats);
    assert!(matches!(r, Err(Error::RequestError(ref m)) if m == "Unknown method"));
}

#[test]
fn share_accepted_and_block_found() {
    let c = controller(Algorithm::Cuckoo, None);
    let mut stats = Stats::default();
    let s = Solution { job_id: 42, nonce: 99887766, pow: "[1,2,3]".to_string() };
    let frame = c.send_message_submit(500, &s, &mut stats);
    let p = params(&frame);
    assert_eq!(p["height"], 500);
    assert_eq!(p["job_id"], 42);
    assert_eq!(p["nonce"], 99887766u64);
    assert_eq!(p["pow"], serde_json::from_str::<serde_json::Value>("[1,2,3]").unwrap());
    assert_eq!(
        stats.client_stats.last_message_sent,
        "Last Message Sent: Found share for height: 500 - nonce: 99887766"
    );
    let out = c.handle_response(&response("submit", Some("\"blockfound\""), None), &Payload::Untyped, &mut stats).unwrap();
    assert!(out.is_empty());
    let sol = stats.mining_stats.solution_stats;
    assert_eq!(sol.num_shares_accepted, 1);
    assert_eq!(sol.num_blocks_found, 1);
    assert_eq!(sol.num_rejected, 0);
    assert_eq!(stats.client_stats.last_message_received, "Last Message Received: Block Found!!");
    c.handle_response(&response("submit", Some("\"ok\""), None), &Payload::Untyped, &mut stats).unwrap();
    let sol = stats.mining_stats.solution_stats;
    assert_eq!(sol.num_shares_accepted, 2);
    assert_eq!(sol.num_blocks_found, 1);
    assert_eq!(stats.client_stats.last_message_received, "Last Message Received: Share Accepted!!");
}

#[test]
fn stale_and_rejected_shares() {
    let c = controller(Algorithm::Cuckoo, None);
    let mut stats = Stats::default();
    c.handle_response(&response("submit", None, Some((-1, "share is too late"))), &Payload::Untyped, &mut stats).unwrap();
    let sol = stats.mining_stats.solution_stats;
    assert_eq!(sol.num_staled, 1);
    assert_eq!(sol.num_rejected, 0);
    assert_eq!(
        stats.client_stats.last_message_received,
        "Last Message Received: Failed to submit a solution: \"share is too late\""
    );
    c.handle_response(&response("submit", None, Some((-2, "low difficulty"))), &Payload::Untyped, &mut stats).unwrap();
    let sol = stats.mining_stats.solution_stats;
    assert_eq!(sol.num_staled, 1);
    assert_eq!(sol.num_rejected, 1);
    assert_eq!(sol.num_shares_accepted, 0);
}

#[test]
fn counter_saturates_at_top() {
    let c = controller(Algorithm::Cuckoo, None);
    let mut stats = Stats::default();
    stats.mining_stats.solution_stats.num_shares_accepted = u64::MAX;
    c.handle_response(&response("submit", Some("true"), None), &Payload::Untyped, &mut stats).unwrap();
    assert_eq!(stats.mining_stats.solution_stats.num_shares_accepted, u64::MAX);
}

#[test]
fn login_refused_marks_disconnected() {
    let c = controller(Algorithm::Cuckoo, Some("alice"));
    let mut stats = Stats::default();
    stats.client_stats.connected = true;
    c.handle_response(&response("login", None, Some((-32500, "login required"))), &Payload::Untyped, &mut stats).unwrap();
    assert!(!stats.client_stats.connected);
    assert_eq!(stats.client_stats.connection_status, "Connection Status: Server requires login");
    c.frame_received(&mut stats);
    assert!(!stats.client_stats.connected);
    c.connect_succeeded(&mut stats);
    c.frame_received(&mut stats);
    assert!(stats.client_stats.connected);
    c.connection_lost(&mut stats);
    assert!(!stats.client_stats.connected);
    assert_eq!(
        stats.client_stats.last_message_received,
        "Last Message Received: Failed to log in: RpcError { code: -32500, message: \"login required\" }"
    );
}

#[test]
fn missing_error_is_substituted() {
    let c = controller(Algorithm::Cuckoo, None);
    let mut stats = Stats::default();
    c.handle_response(&response("keepalive", None, None), &Payload::Untyped, &mut stats).unwrap();
    assert_eq!(
        stats.client_stats.last_message_received,
        "Last Message Received: Failed to request keepalive: RpcError { code: 0, message: \"Invalid error response received\" }"
    );
    let e = stratum_client::invlalid_error_response();
    assert_eq!(e.code, 0);
    assert_eq!(e.message, "Invalid error response received");
}

#[test]
fn keepalive_success_is_silent() {
    let c = controller(Algorithm::Cuckoo, None);
    let mut stats = Stats::default();
    let out = c.handle_response(&response("keepalive", Some("\"ok\""), None), &Payload::Untyped, &mut stats).unwrap();
    assert!(out.is_empty());
    assert_eq!(stats.client_stats.last_message_received, "");
}

#[test]
fn status_response_updates_stats() {
    let c = controller(Algorithm::Cuckoo, None);
    let mut stats = Stats::default();
    let st = WorkerStatus { id: "w".to_string(), height: 7, difficulty: 1, accepted: 3, rejected: 2, stale: 1 };
    c.handle_response(&response("status", Some("{}"), None), &Payload::Status(st), &mut stats).unwrap();
    assert_eq!(
        stats.client_stats.last_message_received,
        "Last Message Received: Accepted: 3, Rejected: 2, Stale: 1"
    );
    let r = c.handle_response(&response("status", Some("[]"), None), &Payload::Invalid("not a status".to_string()), &mut stats);
    assert!(matches!(r, Err(Error::JsonError(_))));
}

#[test]
fn seed_response_forwards_epochs() {
    let c = controller(Algorithm::ProgPow, None);
    let mut stats = Stats::default();
    let e = EpochTemplate { epochs: "[[0,1,\"ff\"]]".to_string() };
    let out = c.handle_response(&response("seed", Some("{}"), None), &Payload::Seed(e), &mut stats).unwrap();
    assert_eq!(out.len(), 1);
    assert!(matches!(&out[0], MinerMessage::ReceivedSeed(s) if s == "[[0,1,\"ff\"]]"));
}

#[test]
fn job_template_for_other_algorithm_reports_job() {
    let c = controller(Algorithm::ProgPow, None);
    let mut stats = Stats::default();
    let out = c
        .handle_response(&response("getjobtemplate", Some("{}"), None), &Payload::Job(job("cuckoo", 77, vec![])), &mut stats)
        .unwrap();
    assert!(matches!(out[0], MinerMessage::StopJob));
    assert_eq!(
        stats.client_stats.last_message_received,
        "Last Message Received: Got job for block 77 at difficulty Cuckatoo: 9999999, ProgPow: Nan, RandomX: Nan"
    );
}

#[test]
fn unknown_response_is_recorded() {
    let c = controller(Algorithm::Cuckoo, None);
    let mut stats = Stats::default();
    let out = c.handle_response(&response("bogus", Some("1"), None), &Payload::Untyped, &mut stats).unwrap();
    assert!(out.is_empty());
    assert_eq!(stats.client_stats.last_message_received, "Last Message Received: Unknown Response: bogus");
}

#[test]
fn empty_login_is_not_sent() {
    let c = controller(Algorithm::Cuckoo, Some(""));
    let mut stats = Stats::default();
    assert!(c.send_login(&mut stats).is_none());
    let c = controller(Algorithm::Cuckoo, None);
    assert!(c.send_login(&mut stats).is_none());
    assert_eq!(stats.client_stats.last_message_sent, "");
}

#[test]
fn connection_status_messages() {
    let c = controller(Algorithm::RandomX, None);
    let mut stats = Stats::default();
    c.connect_failed(&mut stats);
    assert!(!stats.client_stats.connected);
    assert_eq!(
        stats.client_stats.connection_status,
        "Connection Status: Can't establish server connection to pool.example.com:3333. Will retry every 5 seconds"
    );
    c.connect_succeeded(&mut stats);
    assert_eq!(
        stats.client_stats.connection_status,
        "Connection Status: Connected to Epic server at pool.example.com:3333."
    );
}
