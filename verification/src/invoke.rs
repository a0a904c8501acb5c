use vstd::prelude::*;

use crate::errors::ErrorEnvelope;
use crate::errors::StoreError;
use crate::errors::classify;
use crate::json::JsonValue;
use crate::pool::Pool;

verus! {

/// What one execution of a stored procedure produced: the rows that came
/// back (each row carries the single JSON value in its first column), or a
/// raw store failure.
#[derive(Debug, PartialEq)]
pub enum StoreOutcome {
    Rows(Vec<JsonValue>),
    Failure(StoreError),
}

/// How a store outcome is read: an application-level failure is 400 and a
/// transport failure 500, the message passed through; zero rows is never a
/// success and yields exactly the caller-declared not-found outcome; else
/// the first row's value is the successful result.
pub open spec fn interpretation(
    outcome: StoreOutcome,
    not_found: ErrorEnvelope,
    r: Result<JsonValue, ErrorEnvelope>,
) -> bool {
    match outcome {
        StoreOutcome::Failure(StoreError::Application(m)) => r matches Err(e) && e.status == 400
            && e.message == m,
        StoreOutcome::Failure(StoreError::Transport(m)) => r matches Err(e) && e.status == 500
            && e.message == m,
        StoreOutcome::Rows(rows) => if rows@.len() == 0 {
            r == Err::<JsonValue, ErrorEnvelope>(not_found)
        } else {
            r == Ok::<JsonValue, ErrorEnvelope>(rows@[0])
        },
    }
}

/// Translates a store outcome into the call's result, per
/// [`interpretation`].
pub fn interpret(outcome: StoreOutcome, not_found: ErrorEnvelope) -> (r: Result<
    JsonValue,
    ErrorEnvelope,
>)
    ensures
        interpretation(outcome, not_found, r),
{
    match outcome {
        StoreOutcome::Failure(err) => Err(classify(err)),
        StoreOutcome::Rows(mut rows) => {
            if rows.len() == 0 {
                Err(not_found)
            } else {
                Ok(rows.remove(0))
            }
        },
    }
}

/// The generic procedure invocation through which every endpoint operates:
/// lease a connection, let the store run the procedure (the outcome of that
/// run is this function's input), interpret what came back, and return the
/// lease on every path. The pool's lease count is exactly restored whatever
/// the outcome was, so no sequence of invocations can leak a handle.
pub fn invoke(pool: &mut Pool, outcome: StoreOutcome, not_found: ErrorEnvelope) -> (r: Result<
    JsonValue,
    ErrorEnvelope,
>)
    requires
        old(pool).wf(),
        old(pool).leased_count() < old(pool).max(),
    ensures
        final(pool).wf(),
        final(pool).max() == old(pool).max(),
        final(pool).leased_count() == old(pool).leased_count(),
        interpretation(outcome, not_found, r),
{
    let handle = pool.acquire();
    let r = interpret(outcome, not_found);
    pool.release(handle);
    r
}

/// After any sequence of invocations — each a success, an application
/// error, a transport error, or empty — the pool's lease count equals its
/// pre-sequence value: no handle leaked, none released twice, and every
/// single outcome is interpreted exactly as [`interpretation`] says. One
/// free lease suffices, since each invocation returns its lease before the
/// next begins.
pub fn invoke_each(pool: &mut Pool, outcomes: Vec<(StoreOutcome, ErrorEnvelope)>) -> (results:
    Vec<Result<JsonValue, ErrorEnvelope>>)
    requires
        old(pool).wf(),
        old(pool).leased_count() < old(pool).max(),
    ensures
        final(pool).wf(),
        final(pool).max() == old(pool).max(),
        final(pool).leased_count() == old(pool).leased_count(),
        results@.len() == outcomes@.len(),
        forall|i: int|
            0 <= i < results@.len() ==> interpretation(
                outcomes@[i].0,
                outcomes@[i].1,
                #[trigger] results@[i],
            ),
{
    let ghost planned = outcomes@;
    let mut remaining = outcomes;
    let mut results: Vec<Result<JsonValue, ErrorEnvelope>> = Vec::new();
    while remaining.len() > 0
        invariant
            pool.wf(),
            pool.max() == old(pool).max(),
            pool.leased_count() == old(pool).leased_count(),
            old(pool).leased_count() < old(pool).max(),
            results@.len() + remaining@.len() == planned.len(),
            remaining@ == planned.subrange(results@.len() as int, planned.len() as int),
            forall|i: int|
                0 <= i < results@.len() ==> interpretation(
                    planned[i].0,
                    planned[i].1,
                    #[trigger] results@[i],
                ),
        decreases remaining@.len(),
    {
        let (outcome, not_found) = remaining.remove(0);
        proof {
            assert(planned[results@.len() as int] == (outcome, not_found));
            assert(remaining@ =~= planned.subrange(
                results@.len() as int + 1,
                planned.len() as int,
            ));
        }
        let r = invoke(pool, outcome, not_found);
        results.push(r);
    }
    results
}

} // verus!
