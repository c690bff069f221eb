//! The retry adapter: the one place where the adaptation from the engine's
//! blocking-style "try again" protocol to suspend-and-resume is decided.
//!
//! Every engine operation ends one attempt in one of three ways: it
//! succeeds, it would block (with a hint of which transport direction it is
//! waiting on), or it fails with a real error. [`retry_step`] maps each
//! attempt outcome to the adapter's next action: resolve with the value,
//! suspend until the hinted readiness edge, or fail with the error. The
//! driver that performs the suspension lives with the transport; everything
//! it decides is decided here.
//!
//! [`run_attempts`] plays a whole adapted call over a recorded sequence of
//! attempt outcomes, and the lemmas beneath it state the adapter's laws:
//! a first-attempt success resolves without suspending, retrying is
//! transparent to the result, a real error fails immediately, and
//! abandoning a suspended call then reissuing it observes the same outcome.

use vstd::prelude::*;

use crate::error::{EngineError, Error};

verus! {

/// Which transport readiness the engine is waiting on after a would-block:
/// mirrors the engine's block-direction report (none, inbound, outbound,
/// both).
#[derive(Clone, Copy, Debug, PartialEq, Eq)]
pub enum BlockDirections {
    Neither,
    Inbound,
    Outbound,
    Both,
}

/// How one attempt of an engine operation ended.
#[derive(Clone, Debug, PartialEq, Eq)]
pub enum AttemptOutcome<T> {
    /// The operation completed with a value.
    Ready(T),
    /// The transport was not ready; the field is the engine's
    /// block-direction report at that moment.
    WouldBlock(BlockDirections),
    /// The operation failed with a real (non-would-block) engine error.
    Failed(EngineError),
}

/// What the adapter does next after one attempt.
#[derive(Clone, Debug, PartialEq, Eq)]
pub enum RetryDecision<T> {
    /// Resolve the adapted call with the value; no suspension.
    Resolve(T),
    /// Suspend until the transport is ready in this direction, then
    /// re-attempt.
    Suspend(BlockDirections),
    /// Fail the adapted call with this error; no further attempts.
    Fail(Error),
}

/// The direction the adapter waits on for a given block-direction report: as
/// reported, except that a report of no direction waits on both, the safe
/// choice when the engine gives no hint.
pub open spec fn wait_direction(d: BlockDirections) -> BlockDirections {
    if d is Neither {
        BlockDirections::Both
    } else {
        d
    }
}

/// Sorts one engine attempt result into an attempt outcome: a would-block
/// error becomes a would-block outcome carrying the engine's block-direction
/// report `dirs`; any other error is a real failure.
pub fn classify_attempt<T>(r: Result<T, EngineError>, dirs: BlockDirections) -> (o: AttemptOutcome<
    T,
>)
    ensures
        r matches Ok(v) ==> o == AttemptOutcome::Ready(v),
        r matches Err(e) ==> o == (if e.spec_is_would_block() {
            AttemptOutcome::<T>::WouldBlock(dirs)
        } else {
            AttemptOutcome::<T>::Failed(e)
        }),
{
    match r {
        Ok(v) => AttemptOutcome::Ready(v),
        Err(e) => {
            if e.is_would_block() {
                AttemptOutcome::WouldBlock(dirs)
            } else {
                AttemptOutcome::Failed(e)
            }
        },
    }
}

/// The adapter's decision for one attempt outcome: success resolves at once,
/// a would-block suspends on the hinted direction, and any other error is
/// surfaced verbatim with no further attempt.
pub fn retry_step<T>(outcome: AttemptOutcome<T>) -> (d: RetryDecision<T>)
    ensures
        outcome matches AttemptOutcome::Ready(v) ==> d == RetryDecision::Resolve(v),
        outcome matches AttemptOutcome::WouldBlock(dir) ==> d == RetryDecision::<T>::Suspend(
            wait_direction(dir),
        ),
        outcome matches AttemptOutcome::Failed(e) ==> d == RetryDecision::<T>::Fail(
            Error::Ssh2(e),
        ),
{
    match outcome {
        AttemptOutcome::Ready(v) => RetryDecision::Resolve(v),
        AttemptOutcome::WouldBlock(dir) => {
            match dir {
                BlockDirections::Neither => RetryDecision::Suspend(BlockDirections::Both),
                BlockDirections::Inbound => RetryDecision::Suspend(BlockDirections::Inbound),
                BlockDirections::Outbound => RetryDecision::Suspend(BlockDirections::Outbound),
                BlockDirections::Both => RetryDecision::Suspend(BlockDirections::Both),
            }
        },
        AttemptOutcome::Failed(e) => RetryDecision::Fail(Error::Ssh2(e)),
    }
}

/// The result an adapted call settles on over a sequence of attempt
/// outcomes: the value or error of the first outcome that is not a
/// would-block, or nothing if every outcome in the sequence would block.
pub open spec fn adapted_outcome<T>(s: Seq<AttemptOutcome<T>>) -> Option<Result<T, Error>>
    decreases s.len(),
{
    if s.len() == 0 {
        Option::<Result<T, Error>>::None
    } else {
        match s[0] {
            AttemptOutcome::Ready(v) => Option::Some(Result::<T, Error>::Ok(v)),
            AttemptOutcome::Failed(e) => Option::Some(Result::<T, Error>::Err(Error::Ssh2(e))),
            AttemptOutcome::WouldBlock(_) => adapted_outcome(s.skip(1)),
        }
    }
}

/// The directions the adapter suspends on before the call settles: one wait
/// per leading would-block outcome, each on the hinted direction.
pub open spec fn leading_waits<T>(s: Seq<AttemptOutcome<T>>) -> Seq<BlockDirections>
    decreases s.len(),
{
    if s.len() == 0 {
        Seq::<BlockDirections>::empty()
    } else {
        match s[0] {
            AttemptOutcome::WouldBlock(d) => seq![wait_direction(d)] + leading_waits(s.skip(1)),
            AttemptOutcome::Ready(_) => Seq::<BlockDirections>::empty(),
            AttemptOutcome::Failed(_) => Seq::<BlockDirections>::empty(),
        }
    }
}

/// Whether some attempt in the sequence is terminal, that is, not a
/// would-block: the adapted call settles exactly on such sequences.
pub open spec fn has_terminal<T>(s: Seq<AttemptOutcome<T>>) -> bool {
    exists|i: int| 0 <= i < s.len() && !(s[i] is WouldBlock)
}

/// A sequence with a terminal attempt settles on some outcome.
pub proof fn lemma_terminal_settles<T>(s: Seq<AttemptOutcome<T>>)
    requires
        has_terminal(s),
    ensures
        adapted_outcome(s) is Some,
    decreases s.len(),
{
    let i = choose|i: int| 0 <= i < s.len() && !(s[i] is WouldBlock);
    if s[0] is WouldBlock {
        assert(s.skip(1)[i - 1] == s[i]);
        assert(has_terminal(s.skip(1)));
        lemma_terminal_settles(s.skip(1));
    }
}

/// Plays one adapted call over a recorded run of attempt outcomes, taking
/// the adapter's decision after each attempt, and returns the settled result
/// together with the directions it suspended on, in order.
pub fn run_attempts<T>(attempts: Vec<AttemptOutcome<T>>) -> (r: (
    Result<T, Error>,
    Vec<BlockDirections>,
))
    requires
        has_terminal(attempts@),
    ensures
        Option::Some(r.0) == adapted_outcome(attempts@),
        r.1@ == leading_waits(attempts@),
{
    proof {
        lemma_terminal_settles(attempts@);
    }
    let mut rest = attempts;
    let mut waits: Vec<BlockDirections> = Vec::new();
    loop
        invariant
            adapted_outcome(rest@) is Some,
            adapted_outcome(rest@) == adapted_outcome(attempts@),
            leading_waits(attempts@) == waits@ + leading_waits(rest@),
        decreases rest@.len(),
    {
        assert(rest@.len() > 0);
        let ghost prev = rest@;
        let attempt = rest.remove(0);
        let ghost a = attempt;
        assert(rest@ == prev.skip(1));
        match retry_step(attempt) {
            RetryDecision::Resolve(v) => {
                assert(a == AttemptOutcome::Ready(v));
                assert(leading_waits(attempts@) =~= waits@);
                return (Result::Ok(v), waits);
            },
            RetryDecision::Fail(e) => {
                assert(a matches AttemptOutcome::Failed(ee) && e == Error::Ssh2(ee));
                assert(leading_waits(attempts@) =~= waits@);
                return (Result::Err(e), waits);
            },
            RetryDecision::Suspend(d) => {
                assert(a matches AttemptOutcome::WouldBlock(dir) && d == wait_direction(dir));
                assert(leading_waits(prev) == seq![d] + leading_waits(rest@));
                let ghost old_waits = waits@;
                waits.push(d);
                assert(waits@ == old_waits + seq![d]);
                assert(leading_waits(attempts@) =~= waits@ + leading_waits(rest@));
            },
        }
    }
}

/// Law: an operation whose first attempt succeeds resolves with its value
/// and the adapter never suspends.
pub proof fn lemma_first_attempt_ready_resolves_without_wait<T>(s: Seq<AttemptOutcome<T>>, v: T)
    requires
        s.len() > 0,
        s[0] == AttemptOutcome::Ready(v),
    ensures
        adapted_outcome(s) == Option::Some(Result::<T, Error>::Ok(v)),
        leading_waits(s) == Seq::<BlockDirections>::empty(),
{
}

/// Law: an operation that would-blocks `n` times and then succeeds resolves
/// with the same value as the un-suspended retry would, after exactly `n`
/// suspensions: retrying is transparent to the result.
pub proof fn lemma_retry_transparent<T>(s: Seq<AttemptOutcome<T>>, n: int, v: T)
    requires
        0 <= n < s.len(),
        forall|j: int| 0 <= j < n ==> s[j] is WouldBlock,
        s[n] == AttemptOutcome::Ready(v),
    ensures
        adapted_outcome(s) == Option::Some(Result::<T, Error>::Ok(v)),
        leading_waits(s).len() == n,
    decreases n,
{
    if n == 0 {
    } else {
        assert(s[0] is WouldBlock);
        let t = s.skip(1);
        assert forall|j: int| 0 <= j < n - 1 implies t[j] is WouldBlock by {
            assert(t[j] == s[j + 1]);
        }
        assert(t[n - 1] == s[n]);
        lemma_retry_transparent(t, n - 1, v);
    }
}

/// Law: an operation whose first attempt fails with a real engine error
/// fails immediately with that error, verbatim, and the adapter never
/// suspends: zero additional attempts.
pub proof fn lemma_error_fails_without_retry<T>(s: Seq<AttemptOutcome<T>>, e: EngineError)
    requires
        s.len() > 0,
        s[0] == AttemptOutcome::<T>::Failed(e),
    ensures
        adapted_outcome(s) == Option::Some(Result::<T, Error>::Err(Error::Ssh2(e))),
        leading_waits(s) == Seq::<BlockDirections>::empty(),
{
}

/// Law: abandoning an adapted call while it is suspended, after any number
/// of would-blocked attempts, and reissuing an equivalent call on the same
/// engine handle settles on the same outcome: the engine's retry state is
/// where the last attempt left it, so resumption is idempotent.
pub proof fn lemma_cancel_then_resume_same_outcome<T>(s: Seq<AttemptOutcome<T>>, k: int)
    requires
        0 <= k <= s.len(),
        forall|j: int| 0 <= j < k ==> s[j] is WouldBlock,
    ensures
        adapted_outcome(s.skip(k)) == adapted_outcome(s),
    decreases k,
{
    if k == 0 {
        assert(s.skip(0) =~= s);
    } else {
        assert(s[0] is WouldBlock);
        let t = s.skip(1);
        assert forall|j: int| 0 <= j < k - 1 implies t[j] is WouldBlock by {
            assert(t[j] == s[j + 1]);
        }
        lemma_cancel_then_resume_same_outcome(t, k - 1);
        assert(t.skip(k - 1) =~= s.skip(k));
    }
}

} // verus!
