//! The statistics record shared between the controller and its readers.

use vstd::prelude::*;

verus! {

/// What the controller reports about its connection and recent traffic.
#[derive(Debug, Clone)]
pub struct ClientStats {
    pub connected: bool,
    pub connection_status: String,
    pub my_algorithm: String,
    pub algorithm_needed: String,
    pub current_network_difficulty: String,
    pub last_message_sent: String,
    pub last_message_received: String,
}

/// Outcome counters for submitted solutions.
#[derive(Debug, Clone, Copy, PartialEq, Eq, Structural)]
pub struct SolutionStats {
    pub num_shares_accepted: u64,
    pub num_rejected: u64,
    pub num_staled: u64,
    pub num_blocks_found: u64,
}

#[derive(Debug, Clone, Copy, PartialEq, Eq, Structural)]
pub struct MiningStats {
    pub solution_stats: SolutionStats,
}

/// The shared statistics view.
#[derive(Debug, Clone)]
pub struct Stats {
    pub client_stats: ClientStats,
    pub mining_stats: MiningStats,
}

/// No counter of `b` is below the same counter of `a`.
pub open spec fn counters_le(a: SolutionStats, b: SolutionStats) -> bool {
    &&& a.num_shares_accepted <= b.num_shares_accepted
    &&& a.num_rejected <= b.num_rejected
    &&& a.num_staled <= b.num_staled
    &&& a.num_blocks_found <= b.num_blocks_found
}

/// A counter after one increment; it stays put at the top of its range.
pub open spec fn bumped(x: u64) -> u64 {
    if x < u64::MAX {
        (x + 1) as u64
    } else {
        x
    }
}

/// Increments a counter, saturating at its largest value.
pub fn bump(x: u64) -> (r: u64)
    ensures
        r == bumped(x),
{
    if x < u64::MAX {
        x + 1
    } else {
        x
    }
}

/// Everything in `b` but the last received message is as in `a`.
pub open spec fn same_but_received(a: ClientStats, b: ClientStats) -> bool {
    &&& b.connected == a.connected
    &&& b.connection_status == a.connection_status
    &&& b.my_algorithm == a.my_algorithm
    &&& b.algorithm_needed == a.algorithm_needed
    &&& b.current_network_difficulty == a.current_network_difficulty
    &&& b.last_message_sent == a.last_message_sent
}

/// Every step of a trace keeps each counter from decreasing, so no later
/// state has a counter below an earlier one.
pub proof fn lemma_counters_monotonic(trace: Seq<SolutionStats>, i: int, j: int)
    requires
        forall|k: int| 0 <= k < trace.len() - 1 ==> #[trigger] counters_le(trace[k], trace[k + 1]),
        0 <= i <= j < trace.len(),
    ensures
        counters_le(trace[i], trace[j]),
    decreases j - i,
{
    if i < j {
        lemma_counters_monotonic(trace, i, j - 1);
        assert(counters_le(trace[j - 1], trace[j - 1 + 1]));
    }
}

impl Default for Stats {
    fn default() -> (r: Stats)
        ensures
            !r.client_stats.connected,
            r.client_stats.connection_status@ == Seq::<char>::empty(),
            r.client_stats.last_message_sent@ == Seq::<char>::empty(),
            r.client_stats.last_message_received@ == Seq::<char>::empty(),
            r.client_stats.my_algorithm@ == Seq::<char>::empty(),
            r.client_stats.algorithm_needed@ == Seq::<char>::empty(),
            r.client_stats.current_network_difficulty@ == Seq::<char>::empty(),
            r.mining_stats.solution_stats == (SolutionStats {
                num_shares_accepted: 0,
                num_rejected: 0,
                num_staled: 0,
                num_blocks_found: 0,
            }),
    {
        Stats {
            client_stats: ClientStats {
                connected: false,
                connection_status: String::new(),
                my_algorithm: String::new(),
                algorithm_needed: String::new(),
                current_network_difficulty: String::new(),
                last_message_sent: String::new(),
                last_message_received: String::new(),
            },
            mining_stats: MiningStats {
                solution_stats: SolutionStats {
                    num_shares_accepted: 0,
                    num_rejected: 0,
                    num_staled: 0,
                    num_blocks_found: 0,
                },
            },
        }
    }
}

} // verus!
