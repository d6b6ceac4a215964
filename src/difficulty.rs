//! Reading the per-algorithm difficulty lists of a job template.

use vstd::prelude::*;
use crate::algorithm::{token_of, Algorithm};
use crate::text::{dec, decimal, str_eq};

verus! {

/// The difficulty listed for token `tok` at or after position `i`: the first
/// such entry's value, 1 if there is none.
pub open spec fn difficulty_from(list: Seq<(String, u64)>, tok: Seq<char>, i: int) -> u64
    decreases list.len() - i,
{
    if i < 0 || i >= list.len() {
        1
    } else if list[i].0@ == tok {
        list[i].1
    } else {
        difficulty_from(list, tok, i + 1)
    }
}

/// The difficulty listed for token `tok`, 1 if it is absent.
pub open spec fn difficulty_for(list: Seq<(String, u64)>, tok: Seq<char>) -> u64 {
    difficulty_from(list, tok, 0)
}

/// The difficulty that the list gives for an algorithm (1 if absent).
pub fn difficulty_for_algorithm(list: &Vec<(String, u64)>, algorithm: Algorithm) -> (r: u64)
    ensures
        r == difficulty_for(list@, token_of(algorithm)),
{
    let tok = algorithm.token();
    let mut i: usize = 0;
    while i < list.len()
        invariant
            0 <= i <= list@.len(),
            tok@ == token_of(algorithm),
            difficulty_from(list@, tok@, i as int) == difficulty_from(list@, tok@, 0),
        decreases list@.len() - i,
    {
        if str_eq(list[i].0.as_str(), tok) {
            return list[i].1;
        }
        i = i + 1;
    }
    1
}

/// The last value listed for `tok` among the first `n` entries.
pub open spec fn last_listed(list: Seq<(String, u64)>, tok: Seq<char>, n: int) -> Option<u64>
    decreases n,
{
    if n <= 0 || n > list.len() {
        None
    } else if list[n - 1].0@ == tok {
        Some(list[n - 1].1)
    } else {
        last_listed(list, tok, n - 1)
    }
}

/// A listed difficulty as text, `Nan` when absent.
pub open spec fn listed_text(d: Option<u64>) -> Seq<char> {
    match d {
        Some(v) => dec(v as nat),
        None => "Nan"@,
    }
}

/// A one-line summary of a difficulty list over the three algorithms.
pub open spec fn difficulty_summary(list: Seq<(String, u64)>) -> Seq<char> {
    "Cuckatoo: "@ + listed_text(last_listed(list, token_of(Algorithm::Cuckoo), list.len() as int))
        + ", ProgPow: "@ + listed_text(
        last_listed(list, token_of(Algorithm::ProgPow), list.len() as int),
    ) + ", RandomX: "@ + listed_text(
        last_listed(list, token_of(Algorithm::RandomX), list.len() as int),
    )
}

fn listed_string(d: Option<u64>) -> (r: String)
    ensures
        r@ == listed_text(d),
{
    match d {
        Some(v) => decimal(v),
        None => String::from_str("Nan"),
    }
}

/// Summarises a difficulty list as `Cuckatoo: _, ProgPow: _, RandomX: _`,
/// taking the last entry for each algorithm.
pub fn parse_difficulty(list: &Vec<(String, u64)>) -> (r: String)
    ensures
        r@ == difficulty_summary(list@),
{
    let cuckoo = Algorithm::Cuckoo.token();
    let progpow = Algorithm::ProgPow.token();
    let randomx = Algorithm::RandomX.token();
    let mut c: Option<u64> = None;
    let mut p: Option<u64> = None;
    let mut x: Option<u64> = None;
    let mut i: usize = 0;
    while i < list.len()
        invariant
            0 <= i <= list@.len(),
            cuckoo@ == token_of(Algorithm::Cuckoo),
            progpow@ == token_of(Algorithm::ProgPow),
            randomx@ == token_of(Algorithm::RandomX),
            c == last_listed(list@, cuckoo@, i as int),
            p == last_listed(list@, progpow@, i as int),
            x == last_listed(list@, randomx@, i as int),
        decreases list@.len() - i,
    {
        let name = list[i].0.as_str();
        if str_eq(name, cuckoo) {
            c = Some(list[i].1);
        }
        if str_eq(name, progpow) {
            p = Some(list[i].1);
        }
        if str_eq(name, randomx) {
            x = Some(list[i].1);
        }
        i = i + 1;
    }
    let mut s = String::from_str("Cuckatoo: ");
    s.append(listed_string(c).as_str());
    s.append(", ProgPow: ");
    s.append(listed_string(p).as_str());
    s.append(", RandomX: ");
    s.append(listed_string(x).as_str());
    s
}

} // verus!
