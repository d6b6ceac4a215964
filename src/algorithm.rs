//! The proof-of-work algorithms and their wire tokens.

use vstd::prelude::*;
use crate::error::Error;
use crate::text::str_eq;

verus! {

/// The proof-of-work algorithm a controller is bound to.
#[derive(Debug, Clone, Copy, PartialEq, Eq, Structural)]
pub enum Algorithm {
    Cuckoo,
    RandomX,
    ProgPow,
}

pub open spec fn cuckoo_token() -> Seq<char> {
    seq!['c', 'u', 'c', 'k', 'o', 'o']
}

pub open spec fn randomx_token() -> Seq<char> {
    seq!['r', 'a', 'n', 'd', 'o', 'm', 'x']
}

pub open spec fn progpow_token() -> Seq<char> {
    seq!['p', 'r', 'o', 'g', 'p', 'o', 'w']
}

/// The lowercase wire token of an algorithm.
pub open spec fn token_of(a: Algorithm) -> Seq<char> {
    match a {
        Algorithm::Cuckoo => cuckoo_token(),
        Algorithm::RandomX => randomx_token(),
        Algorithm::ProgPow => progpow_token(),
    }
}

/// The algorithm whose token is `t`, if any.
pub open spec fn algorithm_of_token(t: Seq<char>) -> Option<Algorithm> {
    if t == cuckoo_token() {
        Some(Algorithm::Cuckoo)
    } else if t == randomx_token() {
        Some(Algorithm::RandomX)
    } else if t == progpow_token() {
        Some(Algorithm::ProgPow)
    } else {
        None
    }
}

/// The name shown to users for the algorithm with token `t`; empty for an
/// unknown token.
pub open spec fn display_name_of_token(t: Seq<char>) -> Seq<char> {
    match algorithm_of_token(t) {
        Some(Algorithm::Cuckoo) => seq!['C', 'u', 'c', 'k', 'a', 't', 'o', 'o'],
        Some(Algorithm::RandomX) => seq!['R', 'a', 'n', 'd', 'o', 'm', 'X'],
        Some(Algorithm::ProgPow) => seq!['P', 'r', 'o', 'g', 'P', 'o', 'w'],
        None => Seq::empty(),
    }
}

/// Tokens are distinct, so a token names at most one algorithm.
pub proof fn lemma_token_round_trip(a: Algorithm)
    ensures
        algorithm_of_token(token_of(a)) == Some(a),
{
    assert(cuckoo_token() != randomx_token()) by {
        assert(cuckoo_token().len() != randomx_token().len());
    }
    assert(cuckoo_token() != progpow_token()) by {
        assert(cuckoo_token().len() != progpow_token().len());
    }
    assert(randomx_token() != progpow_token()) by {
        assert(randomx_token()[0] != progpow_token()[0]);
    }
}

impl Algorithm {
    /// The lowercase wire token of this algorithm.
    pub fn token(&self) -> (r: &'static str)
        ensures
            r@ == token_of(*self),
    {
        match self {
            Algorithm::Cuckoo => {
                proof { reveal_strlit("cuckoo"); }
                "cuckoo"
            },
            Algorithm::RandomX => {
                proof { reveal_strlit("randomx"); }
                "randomx"
            },
            Algorithm::ProgPow => {
                proof { reveal_strlit("progpow"); }
                "progpow"
            },
        }
    }

    /// The wire token as an owned string.
    pub fn parse_algorithm(&self) -> (r: String)
        ensures
            r@ == token_of(*self),
    {
        String::from_str(self.token())
    }

    /// The algorithm named by a wire token.
    pub fn from_token(t: &str) -> (r: Result<Algorithm, Error>)
        ensures
            algorithm_of_token(t@) is Some ==> r == Ok::<Algorithm, Error>(
                algorithm_of_token(t@)->Some_0,
            ),
            algorithm_of_token(t@) is None ==> match r {
                Err(Error::RequestError(m)) => m@ == "Algorithm isn't supported!"@,
                _ => false,
            },
    {
        if str_eq(t, Algorithm::Cuckoo.token()) {
            Ok(Algorithm::Cuckoo)
        } else if str_eq(t, Algorithm::RandomX.token()) {
            Ok(Algorithm::RandomX)
        } else if str_eq(t, Algorithm::ProgPow.token()) {
            Ok(Algorithm::ProgPow)
        } else {
            Err(Error::RequestError(String::from_str("Algorithm isn't supported!")))
        }
    }

    /// The name shown to users for this algorithm.
    pub fn display_name(&self) -> (r: String)
        ensures
            r@ == display_name_of_token(token_of(*self)),
    {
        proof { lemma_token_round_trip(*self); }
        match self {
            Algorithm::Cuckoo => {
                proof { reveal_strlit("Cuckatoo"); }
                String::from_str("Cuckatoo")
            },
            Algorithm::RandomX => {
                proof { reveal_strlit("RandomX"); }
                String::from_str("RandomX")
            },
            Algorithm::ProgPow => {
                proof { reveal_strlit("ProgPow"); }
                String::from_str("ProgPow")
            },
        }
    }
}

/// The name shown to users for the algorithm named by a wire token; empty
/// when the token is unknown.
pub fn display_name_for_token(t: &str) -> (r: String)
    ensures
        r@ == display_name_of_token(t@),
{
    match Algorithm::from_token(t) {
        Ok(a) => {
            proof { lemma_token_round_trip(a); }
            a.display_name()
        },
        Err(_) => String::new(),
    }
}

} // verus!
