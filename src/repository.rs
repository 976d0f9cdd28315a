//! The rules around the connection pool: which pool an environment gets, what
//! the test-transaction hook does with a new connection, and how one blocking
//! operation goes from submission to the value of the caller's future.
use vstd::prelude::*;

use crate::config::Environment;

verus! {

/// Why no connection could be taken from the pool before the wait ran out.
#[derive(Debug, Clone, PartialEq, Eq)]
pub struct PoolError {
    /// What the pool reported, with the last connection failure if there was one.
    pub message: String,
}

/// How the pool for an environment is built.
#[derive(Debug, Clone, Copy, PartialEq, Eq, Structural)]
pub struct PoolOptions {
    /// Each new connection opens a transaction that is never committed.
    pub test_transactions: bool,
}

impl PoolOptions {
    /// The options for an environment: only the test environment isolates
    /// each connection's writes in a transaction.
    pub fn for_environment(env: Environment) -> (r: PoolOptions)
        ensures
            r.test_transactions == (env == Environment::Test),
    {
        PoolOptions { test_transactions: env == Environment::Test }
    }
}

/// What the test-transaction hook reports for a newly made connection, given
/// whether its transaction could be begun. The connection is handed out
/// either way: a failure to begin is not passed on.
pub fn test_transaction_outcome<E>(begun: Result<(), E>) -> (r: Result<(), E>)
    ensures
        r == Ok::<(), E>(()),
{
    match begun {
        Ok(()) => Ok(()),
        Err(_) => Ok(()),
    }
}

/// How a submitted operation ended on its worker.
#[derive(Debug, Clone, PartialEq, Eq)]
pub enum Completion<T, E> {
    /// It returned a value.
    Returned(T),
    /// It returned an error of its own.
    Failed(E),
    /// It panicked; the panic was caught on the worker.
    Panicked,
}

/// Why a `run` call did not produce the operation's value.
#[derive(Debug, Clone, PartialEq, Eq)]
pub enum RunError<E> {
    /// No connection could be taken from the pool; the operation never ran.
    AcquireFailed(PoolError),
    /// The operation panicked.
    OperationPanicked,
    /// The operation returned an error.
    OperationError(E),
}

/// Where one `run` call stands.
#[derive(Debug, PartialEq, Eq)]
pub enum RunStage<T, E> {
    /// Submitted to the workers; no connection is held.
    Queued,
    /// A connection is leased and the operation runs on it.
    Running,
    /// The caller's future has its value; no connection is held.
    Resolved(Result<T, RunError<E>>),
}

/// What a worker reports about a `run` call.
#[derive(Debug, Clone, PartialEq, Eq)]
pub enum RunEvent<T, E> {
    /// The pool handed out a connection.
    Acquired,
    /// The pool's wait ran out.
    AcquireFailed(PoolError),
    /// The operation ended.
    Finished(Completion<T, E>),
}

/// What the worker does next.
#[derive(Debug, Clone, Copy, PartialEq, Eq, Structural)]
pub enum RunAction {
    /// Call the operation with the leased connection.
    Invoke,
    /// Resolve the caller's future; no connection is held.
    Resolve,
    /// Return the connection to the pool, then resolve the caller's future.
    ReleaseAndResolve,
    /// The event does not apply at this stage: nothing to do.
    Ignore,
}

/// The value that an operation's completion gives the caller.
pub open spec fn settled<T, E>(c: Completion<T, E>) -> Result<T, RunError<E>> {
    match c {
        Completion::Returned(v) => Ok(v),
        Completion::Failed(e) => Err(RunError::OperationError(e)),
        Completion::Panicked => Err(RunError::OperationPanicked),
    }
}

/// Whether a call at this stage holds a connection of the pool.
pub open spec fn holds_connection<T, E>(s: RunStage<T, E>) -> bool {
    s is Running
}

/// The stage that follows `s` on event `e`, and what the worker does.
pub open spec fn run_transition<T, E>(s: RunStage<T, E>, e: RunEvent<T, E>) -> (
    RunStage<T, E>,
    RunAction,
) {
    match (s, e) {
        (RunStage::Queued, RunEvent::Acquired) => (RunStage::Running, RunAction::Invoke),
        (RunStage::Queued, RunEvent::AcquireFailed(p)) => (
            RunStage::Resolved(Err(RunError::AcquireFailed(p))),
            RunAction::Resolve,
        ),
        (RunStage::Running, RunEvent::Finished(c)) => (
            RunStage::Resolved(settled(c)),
            RunAction::ReleaseAndResolve,
        ),
        (s, _) => (s, RunAction::Ignore),
    }
}

/// The value that an operation's completion gives the caller.
pub fn settle<T, E>(c: Completion<T, E>) -> (r: Result<T, RunError<E>>)
    ensures
        r == settled(c),
{
    match c {
        Completion::Returned(v) => Ok(v),
        Completion::Failed(e) => Err(RunError::OperationError(e)),
        Completion::Panicked => Err(RunError::OperationPanicked),
    }
}

/// Moves a `run` call on by one event. A connection is leased only between
/// `Acquired` and `Finished`; when the operation ends, however it ends, the
/// connection goes back to the pool before the future resolves.
pub fn advance<T, E>(s: RunStage<T, E>, e: RunEvent<T, E>) -> (r: (RunStage<T, E>, RunAction))
    ensures
        r == run_transition(s, e),
        holds_connection(s) && !holds_connection(r.0) ==> r.1 == RunAction::ReleaseAndResolve,
        e == RunEvent::<T, E>::Finished(Completion::Panicked) && s is Running ==> r.0
            == RunStage::<T, E>::Resolved(Err(RunError::OperationPanicked)),
{
    match (s, e) {
        (RunStage::Queued, RunEvent::Acquired) => (RunStage::Running, RunAction::Invoke),
        (RunStage::Queued, RunEvent::AcquireFailed(p)) => (
            RunStage::Resolved(Err(RunError::AcquireFailed(p))),
            RunAction::Resolve,
        ),
        (RunStage::Running, RunEvent::Finished(c)) => (
            RunStage::Resolved(settle(c)),
            RunAction::ReleaseAndResolve,
        ),
        (s, _) => (s, RunAction::Ignore),
    }
}

/// How many of the calls hold a connection of the pool.
pub open spec fn leased_count<T, E>(calls: Seq<RunStage<T, E>>) -> nat
    decreases calls.len(),
{
    if calls.len() == 0 {
        0
    } else {
        leased_count(calls.drop_last()) + if holds_connection(calls.last()) {
            1nat
        } else {
            0nat
        }
    }
}

/// How many of the calls are not resolved yet.
pub open spec fn in_flight_count<T, E>(calls: Seq<RunStage<T, E>>) -> nat
    decreases calls.len(),
{
    if calls.len() == 0 {
        0
    } else {
        in_flight_count(calls.drop_last()) + if calls.last() is Resolved {
            0nat
        } else {
            1nat
        }
    }
}

/// However many `run` calls stand side by side, over one handle or over
/// clones of it, no more connections are leased than calls are in flight.
pub proof fn lemma_leases_within_in_flight<T, E>(calls: Seq<RunStage<T, E>>)
    ensures
        leased_count(calls) <= in_flight_count(calls),
    decreases calls.len(),
{
    if calls.len() > 0 {
        lemma_leases_within_in_flight(calls.drop_last());
    }
}

/// Every `run` call comes to rest. Where the pool hands out a connection, the
/// operation's end, however it ends (a panic included), resolves the call
/// with the settled value and has the worker return the connection; where the
/// pool's wait runs out, the call resolves with `AcquireFailed` without ever
/// holding a connection.
pub proof fn lemma_run_resolves<T, E>(acquire: RunEvent<T, E>, c: Completion<T, E>)
    requires
        acquire is Acquired || acquire is AcquireFailed,
    ensures
        ({
            let (s1, a1) = run_transition(RunStage::Queued, acquire);
            let (s2, a2) = if s1 is Running {
                run_transition(s1, RunEvent::Finished(c))
            } else {
                (s1, a1)
            };
            &&& s2 is Resolved
            &&& !holds_connection(s2)
            &&& acquire is Acquired ==> a1 == RunAction::Invoke && a2
                == RunAction::ReleaseAndResolve && s2 == RunStage::<T, E>::Resolved(settled(c))
            &&& acquire matches RunEvent::AcquireFailed(p) ==> a2 == RunAction::Resolve && s2
                == RunStage::<T, E>::Resolved(Err(RunError::AcquireFailed(p)))
        }),
{
}

} // verus!
