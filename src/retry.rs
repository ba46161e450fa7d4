use vstd::prelude::*;
use crate::error::ScanError;

verus! {

/// How many attempts a fetch may make, counting the first.
pub const DEFAULT_MAX_ATTEMPTS: u32 = 3;

/// What one attempt of a fetch came back with.
#[derive(Debug, Clone, Copy, PartialEq, Eq, Structural)]
pub enum Attempt {
    /// A response with this HTTP status.
    Status(u16),
    /// No response: the connection or the request failed.
    NetworkError,
}

/// What to do after an attempt.
#[derive(Debug, Clone, PartialEq)]
pub enum Decision {
    /// The response succeeded: read its body.
    Deliver,
    /// The failure was transient and attempts remain: try again.
    Retry,
    /// Stop with this error.
    Fail(ScanError),
}

/// Whether a status is a transient failure: a server error or an explicit
/// throttling response. Every other client error is final.
pub open spec fn is_transient_status(code: u16) -> bool {
    (500 <= code && code <= 599) || code == 429
}

/// Whether an attempt failed transiently.
pub open spec fn is_transient(a: Attempt) -> bool {
    match a {
        Attempt::Status(code) => is_transient_status(code),
        Attempt::NetworkError => true,
    }
}

/// The decision after attempt number `made` (counting from 1) came back
/// as `a`, under a budget of `max` attempts.
pub open spec fn decision(max: nat, made: nat, a: Attempt) -> Decision {
    match a {
        Attempt::Status(code) => if 200 <= code && code <= 299 {
            Decision::Deliver
        } else if is_transient_status(code) {
            if made < max { Decision::Retry } else { Decision::Fail(ScanError::HttpTransient) }
        } else {
            Decision::Fail(ScanError::HttpStatus(code))
        },
        Attempt::NetworkError => if made < max {
            Decision::Retry
        } else {
            Decision::Fail(ScanError::HttpTransient)
        },
    }
}

/// How a fetch ends.
#[derive(Debug, Clone, PartialEq)]
pub enum FetchEnd {
    /// The attempt with this 0-based index delivered a body.
    Delivered(usize),
    /// The fetch failed.
    Failed(ScanError),
    /// The outcomes ran out before the fetch ended.
    Pending,
}

/// How a fetch whose attempts come back as `outs` ends, from attempt index
/// `i` on, and how many attempts it has made by then.
pub open spec fn run(max: nat, outs: Seq<Attempt>, i: nat) -> (FetchEnd, nat)
    decreases outs.len() - i,
{
    if i >= outs.len() {
        (FetchEnd::Pending, i)
    } else {
        match decision(max, i + 1, outs[i as int]) {
            Decision::Deliver => (FetchEnd::Delivered(i as usize), i + 1),
            Decision::Fail(e) => (FetchEnd::Failed(e), i + 1),
            Decision::Retry => run(max, outs, i + 1),
        }
    }
}

/// Decides what follows attempt number `made` (counting from 1).
pub fn decide(max_attempts: u32, made: u32, a: Attempt) -> (r: Decision)
    ensures
        r == decision(max_attempts as nat, made as nat, a),
{
    match a {
        Attempt::Status(code) => if 200 <= code && code <= 299 {
            Decision::Deliver
        } else if (500 <= code && code <= 599) || code == 429 {
            if made < max_attempts { Decision::Retry } else { Decision::Fail(ScanError::HttpTransient) }
        } else {
            Decision::Fail(ScanError::HttpStatus(code))
        },
        Attempt::NetworkError => if made < max_attempts {
            Decision::Retry
        } else {
            Decision::Fail(ScanError::HttpTransient)
        },
    }
}

/// Plays a fetch through the attempt outcomes `outs`, in order, and says
/// how it ends and how many attempts it made.
pub fn replay(max_attempts: u32, outs: &Vec<Attempt>) -> (r: (FetchEnd, usize))
    requires
        outs@.len() < u32::MAX,
    ensures
        (r.0, r.1 as nat) == run(max_attempts as nat, outs@, 0),
{
    let mut i: usize = 0;
    while i < outs.len()
        invariant
            i <= outs@.len() < u32::MAX,
            run(max_attempts as nat, outs@, 0) == run(max_attempts as nat, outs@, i as nat),
        decreases outs.len() - i,
    {
        match decide(max_attempts, (i + 1) as u32, outs[i]) {
            Decision::Deliver => return (FetchEnd::Delivered(i), i + 1),
            Decision::Fail(e) => return (FetchEnd::Failed(e), i + 1),
            Decision::Retry => {},
        }
        i = i + 1;
    }
    (FetchEnd::Pending, i)
}

/// A transient failure followed by a success, within the budget, delivers
/// the second attempt's body.
pub proof fn lemma_transient_then_success(max: nat, outs: Seq<Attempt>)
    requires
        max >= 2,
        outs.len() >= 2,
        is_transient(outs[0]),
        outs[1] == Attempt::Status(200),
    ensures
        run(max, outs, 0) == (FetchEnd::Delivered(1), 2nat),
{
    assert(run(max, outs, 1) == (FetchEnd::Delivered(1), 2nat));
}

/// A client error other than throttling ends the fetch at its first
/// attempt, with that status.
pub proof fn lemma_client_error_fails_at_once(max: nat, outs: Seq<Attempt>, code: u16)
    requires
        outs.len() >= 1,
        outs[0] == Attempt::Status(code),
        400 <= code <= 499,
        code != 429,
    ensures
        run(max, outs, 0) == (FetchEnd::Failed(ScanError::HttpStatus(code)), 1nat),
{
}

/// When every attempt fails transiently, the fetch ends with
/// `HttpTransient` after exactly `max` attempts.
pub proof fn lemma_persistent_failure(max: nat, outs: Seq<Attempt>)
    requires
        max >= 1,
        outs.len() >= max,
        forall|i: int| 0 <= i < max ==> is_transient(#[trigger] outs[i]),
    ensures
        run(max, outs, 0) == (FetchEnd::Failed(ScanError::HttpTransient), max),
{
    lemma_persistent_from(max, outs, 0);
}

proof fn lemma_persistent_from(max: nat, outs: Seq<Attempt>, i: nat)
    requires
        max >= 1,
        i < max,
        outs.len() >= max,
        forall|k: int| 0 <= k < max ==> is_transient(#[trigger] outs[k]),
    ensures
        run(max, outs, i) == (FetchEnd::Failed(ScanError::HttpTransient), max),
    decreases max - i,
{
    assert(is_transient(outs[i as int]));
    if i + 1 < max {
        lemma_persistent_from(max, outs, i + 1);
    }
}

} // verus!
