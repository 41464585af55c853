use vstd::prelude::*;

use crate::bytes::starts_with_bytes;
use crate::codec::{base58_of, encode};
use crate::errors::KeyError;
use crate::keys::{generate, Keypair};

verus! {

/// A point on std's monotonic clock, declared so a search can time itself.
#[verifier::external_type_specification]
#[verifier::external_body]
pub struct ExInstant(std::time::Instant);

/// Relies on std::time::Instant::now: a point on the monotonic clock.
#[verifier::external_body]
fn monotonic_now() -> std::time::Instant {
    std::time::Instant::now()
}

/// Relies on std::time::Instant::elapsed: the time since `start`, given here
/// in whole milliseconds. The value depends on the clock, so nothing is
/// promised of it.
#[verifier::external_body]
fn elapsed_millis(start: &std::time::Instant) -> u64 {
    start.elapsed().as_millis() as u64
}

/// What a successful search returns: the accepted keypair, the base58 text
/// of its public identifier, how many candidates were drawn, and the
/// wall-clock time the search took.
pub struct SearchOutcome {
    pub keypair: Keypair,
    pub encoded_public: Vec<u8>,
    pub attempts: u64,
    pub elapsed_ms: u64,
}

impl SearchOutcome {
    /// A well-formed outcome: the keypair is well formed and the text is the
    /// base58 encoding of its public identifier.
    pub open spec fn wf(&self) -> bool {
        &&& self.keypair.wf()
        &&& self.encoded_public@ == base58_of(self.keypair.public@)
    }
}

/// Draws up to `budget` fresh keypairs and returns the first whose encoded
/// public identifier starts with `prefix`. An empty prefix accepts the first
/// draw; a prefix of more than 3 bytes is rejected outright, with no draw
/// made; a spent budget ends the search with `AttemptsExhausted`.
pub fn search_attempts(prefix: &Vec<u8>, budget: u64) -> (r: Result<SearchOutcome, KeyError>)
    ensures
        prefix@.len() > 3 <==> r == Err::<SearchOutcome, KeyError>(KeyError::PrefixTooLong),
        prefix@.len() <= 3 ==> (r is Ok || r == Err::<SearchOutcome, KeyError>(
            KeyError::AttemptsExhausted,
        )),
        prefix@.len() == 0 && budget >= 1 ==> r is Ok,
        r matches Ok(o) ==> {
            &&& o.wf()
            &&& prefix@.is_prefix_of(o.encoded_public@)
            &&& 1 <= o.attempts <= budget
            &&& (prefix@.len() == 0 ==> o.attempts == 1)
        },
{
    if prefix.len() > 3 {
        return Err(KeyError::PrefixTooLong);
    }
    let start = monotonic_now();
    let mut attempts: u64 = 0;
    while attempts < budget
        invariant
            prefix@.len() <= 3,
            attempts <= budget,
            prefix@.len() == 0 ==> attempts == 0,
        decreases budget - attempts,
    {
        let candidate = generate();
        let encoded = encode(candidate.public.bytes());
        attempts = attempts + 1;
        if starts_with_bytes(&encoded, prefix) {
            let elapsed_ms = elapsed_millis(&start);
            return Ok(
                SearchOutcome { keypair: candidate, encoded_public: encoded, attempts, elapsed_ms },
            );
        }
        proof {
            if prefix@.len() == 0 {
                assert(prefix@ =~= encoded@.subrange(0, 0));
            }
        }
    }
    Err(KeyError::AttemptsExhausted)
}

/// Searches by repeated independent draws until a candidate's encoded public
/// identifier starts with `prefix`; an empty prefix means the first draw is
/// accepted. The search is unbounded in practice: it ends only when a
/// candidate matches or the attempt counter can grow no further.
pub fn search(prefix: &Vec<u8>) -> (r: Result<SearchOutcome, KeyError>)
    ensures
        prefix@.len() > 3 <==> r == Err::<SearchOutcome, KeyError>(KeyError::PrefixTooLong),
        prefix@.len() <= 3 ==> (r is Ok || r == Err::<SearchOutcome, KeyError>(
            KeyError::AttemptsExhausted,
        )),
        prefix@.len() == 0 ==> r is Ok,
        r matches Ok(o) ==> {
            &&& o.wf()
            &&& prefix@.is_prefix_of(o.encoded_public@)
            &&& o.attempts >= 1
            &&& (prefix@.len() == 0 ==> o.attempts == 1)
        },
{
    search_attempts(prefix, u64::MAX)
}

} // verus!
