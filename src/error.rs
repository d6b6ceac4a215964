//! The controller's error kinds.

use vstd::prelude::*;

verus! {

/// A failure met while talking to the server or the miner. Each kind carries
/// a human-readable message.
#[derive(Debug, Clone)]
pub enum Error {
    /// A transport-level fault: the connection is dropped and retried.
    ConnectionError(String),
    /// A malformed inbound request.
    RequestError(String),
    /// A malformed inbound response.
    ResponseError(String),
    /// A frame or payload that failed to decode.
    JsonError(String),
    /// Lock poisoning or a closed channel.
    GeneralError(String),
}

} // verus!
