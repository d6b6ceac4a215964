//! The connection session: when to connect, authenticate, read and ask for
//! status. The caller owns the clock and the transport; each call here takes
//! the current unix time in seconds and says what to do next.

use vstd::prelude::*;
use crate::error::Error;

verus! {

/// Seconds between read attempts.
pub const SERVER_READ_INTERVAL: u64 = 1;
/// Seconds between connection attempts.
pub const SERVER_RETRY_INTERVAL: u64 = 5;
/// Seconds between status requests.
pub const STATUS_INTERVAL: u64 = 30;

/// `d` seconds after `now`, held at the end of the clock's range.
pub open spec fn after(now: u64, d: u64) -> u64 {
    if now as int + d as int <= u64::MAX as int {
        (now + d) as u64
    } else {
        u64::MAX
    }
}

fn deadline(now: u64, d: u64) -> (r: u64)
    ensures
        r == after(now, d),
{
    if now <= u64::MAX - d {
        now + d
    } else {
        u64::MAX
    }
}

/// The session's schedule and connection state.
#[derive(Debug, Clone, Copy, PartialEq, Eq, Structural)]
pub struct Session {
    /// A transport is open.
    pub connected: bool,
    /// No session has been set up on the current transport yet.
    pub was_disconnected: bool,
    pub next_server_read: u64,
    pub next_status_request: u64,
    pub next_server_retry: u64,
}

/// What to do at the start of a loop iteration.
#[derive(Debug, Clone, Copy, PartialEq, Eq, Structural)]
pub enum Begin {
    /// No transport. Stop the miner if a session was up; try to connect if
    /// the retry deadline has passed.
    Reconnect { stop_miner: bool, attempt: bool },
    /// A transport is open. Send `login` and `getjobtemplate` first if the
    /// session is new; read a line if the read deadline has passed.
    Steady { authenticate: bool, read: bool },
}

/// What came of reading one line.
#[derive(Debug, Clone, Copy, PartialEq, Eq, Structural)]
pub enum ReadOutcome {
    /// A line that parsed as JSON was dispatched.
    Dispatched,
    /// A line that did not parse as JSON was dropped.
    Unparseable,
    /// No complete line was waiting.
    Nothing,
    /// The transport failed.
    Failed,
}

/// How the loop goes on.
#[derive(Debug, Clone, Copy, PartialEq, Eq, Structural)]
pub enum Flow {
    /// Start the next iteration at once.
    Restart,
    /// Go on with the rest of this iteration.
    Proceed,
}

/// The raw result of a line read on the transport.
#[derive(Debug, Clone)]
pub enum ReadResult {
    Line(String),
    WouldBlock,
    BrokenPipe,
    OtherError,
}

/// `out` is the connection error `broken pipe`.
pub open spec fn broken_pipe(out: Result<Option<String>, Error>) -> bool {
    match out {
        Err(Error::ConnectionError(m)) => m@ == "broken pipe"@,
        _ => false,
    }
}

/// Turns a line read into a frame, nothing, or a connection error. An empty
/// read means the peer closed the connection.
pub fn read_message(r: ReadResult) -> (out: Result<Option<String>, Error>)
    ensures
        match r {
            ReadResult::Line(s) => if s@.len() == 0 {
                broken_pipe(out)
            } else {
                out is Ok && out->Ok_0 == Some(s)
            },
            ReadResult::WouldBlock => out is Ok && out->Ok_0 is None,
            _ => broken_pipe(out),
        },
{
    match r {
        ReadResult::Line(s) => {
            if s.unicode_len() == 0 {
                Err(Error::ConnectionError(String::from_str("broken pipe")))
            } else {
                Ok(Some(s))
            }
        },
        ReadResult::WouldBlock => Ok(None),
        _ => Err(Error::ConnectionError(String::from_str("broken pipe"))),
    }
}

impl Session {
    /// A fresh session at time `now`: disconnected, so the first iteration
    /// tries to connect.
    pub fn new(now: u64) -> (s: Session)
        ensures
            !s.connected,
            s.was_disconnected,
            s.next_server_read == after(now, SERVER_READ_INTERVAL),
            s.next_status_request == after(now, STATUS_INTERVAL),
            s.next_server_retry == now,
    {
        Session {
            connected: false,
            was_disconnected: true,
            next_server_read: deadline(now, SERVER_READ_INTERVAL),
            next_status_request: deadline(now, STATUS_INTERVAL),
            next_server_retry: now,
        }
    }

    /// Decides the first step of a loop iteration at time `now`.
    pub fn begin(&mut self, now: u64) -> (b: Begin)
        ensures
            !old(self).connected ==> b == (Begin::Reconnect {
                stop_miner: !old(self).was_disconnected,
                attempt: now > old(self).next_server_retry,
            }) && *final(self) == (Session { was_disconnected: true, ..*old(self) }),
            old(self).connected ==> b == (Begin::Steady {
                authenticate: old(self).was_disconnected,
                read: now > old(self).next_server_read,
            }) && *final(self) == (Session { was_disconnected: false, ..*old(self) }),
    {
        if !self.connected {
            let stop_miner = !self.was_disconnected;
            self.was_disconnected = true;
            Begin::Reconnect { stop_miner, attempt: now > self.next_server_retry }
        } else {
            let authenticate = self.was_disconnected;
            self.was_disconnected = false;
            Begin::Steady { authenticate, read: now > self.next_server_read }
        }
    }

    /// Records a connection attempt made at `now`; the next attempt waits
    /// for the retry interval. The caller starts the next iteration after
    /// any attempt (pausing first after a failure), so a new session sends
    /// `login` and `getjobtemplate` before anything else goes out.
    pub fn connect_result(&mut self, ok: bool, now: u64)
        ensures
            *final(self) == (Session {
                connected: ok,
                next_server_retry: after(now, SERVER_RETRY_INTERVAL),
                ..*old(self)
            }),
    {
        self.connected = ok;
        self.next_server_retry = deadline(now, SERVER_RETRY_INTERVAL);
    }

    /// Records the outcome of a read made at `now`. After a dispatched frame
    /// the loop reads again at once; after a failure it reconnects.
    pub fn read_result(&mut self, outcome: ReadOutcome, now: u64) -> (f: Flow)
        ensures
            outcome == ReadOutcome::Dispatched ==> f == Flow::Restart && *final(self) == *old(self),
            outcome == ReadOutcome::Failed ==> f == Flow::Restart && *final(self) == (Session {
                connected: false,
                next_server_retry: after(now, SERVER_RETRY_INTERVAL),
                ..*old(self)
            }),
            (outcome == ReadOutcome::Nothing || outcome == ReadOutcome::Unparseable) ==> f
                == Flow::Proceed && *final(self) == (Session {
                next_server_read: after(now, SERVER_READ_INTERVAL),
                ..*old(self)
            }),
    {
        match outcome {
            ReadOutcome::Dispatched => Flow::Restart,
            ReadOutcome::Failed => {
                self.transport_lost(now);
                Flow::Restart
            },
            _ => {
                self.next_server_read = deadline(now, SERVER_READ_INTERVAL);
                Flow::Proceed
            },
        }
    }

    /// Whether a status request is due at `now`; if so the next one is
    /// scheduled.
    pub fn status_due(&mut self, now: u64) -> (due: bool)
        ensures
            due == (old(self).connected && now > old(self).next_status_request),
            due ==> *final(self) == (Session { next_status_request: after(now, STATUS_INTERVAL), ..*old(self) }),
            !due ==> *final(self) == *old(self),
    {
        if self.connected && now > self.next_status_request {
            self.next_status_request = deadline(now, STATUS_INTERVAL);
            true
        } else {
            false
        }
    }

    /// Records that the transport was lost at `now`; no new connection is
    /// tried until the retry interval has passed.
    pub fn transport_lost(&mut self, now: u64)
        ensures
            *final(self) == (Session {
                connected: false,
                next_server_retry: after(now, SERVER_RETRY_INTERVAL),
                ..*old(self)
            }),
    {
        self.connected = false;
        self.next_server_retry = deadline(now, SERVER_RETRY_INTERVAL);
    }
}

} // verus!
