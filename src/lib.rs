//! Stratum client controller for an Epic-family miner: the protocol logic
//! that sits between a pool connection and the local mining worker.

mod algorithm;
mod config;
mod controller;
mod difficulty;
mod encoding_laws;
mod endpoint;
mod error;
mod protocol;
mod session;
mod stats;
mod text;

pub use algorithm::{display_name_for_token, Algorithm};
pub use config::{ConfigError, ConfigMembers, GlobalConfig, MinerConfig};
pub use controller::{lemma_job_dispatch, lemma_submit_accepted_counts, lemma_submit_failed_counts, Controller};
pub use difficulty::{difficulty_for_algorithm, parse_difficulty};
pub use encoding_laws::{lemma_json_string_delimited, lemma_request_text_injective};
pub use endpoint::tls_host_name;
pub use error::Error;
pub use protocol::{
    classify, encode_request, invlalid_error_response, job_params, login_params, payload_kind,
    submit_params, ClientMessage, EpochTemplate, FrameKind, JobTemplate, MinerMessage, Payload,
    PayloadKind, RpcError, RpcRequest, RpcResponse, Solution, WorkerStatus,
};
pub use session::{
    read_message, Begin, Flow, ReadOutcome, ReadResult, Session, SERVER_READ_INTERVAL,
    SERVER_RETRY_INTERVAL, STATUS_INTERVAL,
};
pub use stats::{bump, lemma_counters_monotonic, ClientStats, MiningStats, SolutionStats, Stats};
pub use text::{contains, decimal, signed_decimal, str_eq};
