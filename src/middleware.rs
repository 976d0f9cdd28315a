//! The request-scoped injector: for each request, a clone of the repository
//! handle goes into the request's state before the handler chain runs. A fault
//! while cloning ends the process rather than hand out a broken handle.
use vstd::prelude::*;

verus! {

/// Where a clone of the repository handle was being made.
#[derive(Debug, Clone, Copy, PartialEq, Eq, Structural)]
pub enum CloneSite {
    /// Cloning the middleware itself.
    Middleware,
    /// Making the middleware instance for a new request.
    NewMiddleware,
}

/// Where one request stands in the injector.
#[derive(Debug, Clone, Copy, PartialEq, Eq, Structural)]
pub enum RequestStage {
    /// The request arrived; its state holds no repository yet.
    Created,
    /// A clone of the repository is in the request's state.
    Injected,
    /// The handler chain runs.
    ChainRunning,
    /// The chain finished; the response goes out.
    Completed,
    /// The clone faulted; the process ends.
    Aborted,
}

/// What the injector observes about a request.
#[derive(Debug, Clone, Copy, PartialEq, Eq, Structural)]
pub enum InjectorEvent {
    /// The repository was cloned and put into the request's state.
    Cloned,
    /// Cloning the repository faulted.
    CloneFaulted,
    /// The handler chain was started.
    ChainStarted,
    /// The handler chain finished.
    ChainFinished,
}

/// What the injector does next.
#[derive(Debug, Clone, Copy, PartialEq, Eq, Structural)]
pub enum InjectorAction {
    /// Call the handler chain with the populated state.
    RunChain,
    /// Wait for the handler chain.
    Await,
    /// Hand the chain's response on.
    Respond,
    /// End the process with a diagnostic.
    Abort,
    /// The event does not apply at this stage: nothing to do.
    Ignore,
}

/// The stage that follows `s` on event `e`, and what the injector does.
pub open spec fn injector_transition(s: RequestStage, e: InjectorEvent) -> (
    RequestStage,
    InjectorAction,
) {
    match (s, e) {
        (RequestStage::Created, InjectorEvent::Cloned) => (
            RequestStage::Injected,
            InjectorAction::RunChain,
        ),
        (RequestStage::Created, InjectorEvent::CloneFaulted) => (
            RequestStage::Aborted,
            InjectorAction::Abort,
        ),
        (RequestStage::Injected, InjectorEvent::ChainStarted) => (
            RequestStage::ChainRunning,
            InjectorAction::Await,
        ),
        (RequestStage::ChainRunning, InjectorEvent::ChainFinished) => (
            RequestStage::Completed,
            InjectorAction::Respond,
        ),
        (s, _) => (s, InjectorAction::Ignore),
    }
}

/// Moves a request on by one event. The chain runs only once the repository
/// is in the request's state, and a faulted clone is never followed by
/// anything but the end of the process.
pub fn step(s: RequestStage, e: InjectorEvent) -> (r: (RequestStage, InjectorAction))
    ensures
        r == injector_transition(s, e),
        r.1 == InjectorAction::RunChain ==> r.0 == RequestStage::Injected,
        r.0 == RequestStage::ChainRunning ==> s == RequestStage::Injected || s
            == RequestStage::ChainRunning,
        s == RequestStage::Aborted ==> r.0 == RequestStage::Aborted,
{
    match (s, e) {
        (RequestStage::Created, InjectorEvent::Cloned) => (
            RequestStage::Injected,
            InjectorAction::RunChain,
        ),
        (RequestStage::Created, InjectorEvent::CloneFaulted) => (
            RequestStage::Aborted,
            InjectorAction::Abort,
        ),
        (RequestStage::Injected, InjectorEvent::ChainStarted) => (
            RequestStage::ChainRunning,
            InjectorAction::Await,
        ),
        (RequestStage::ChainRunning, InjectorEvent::ChainFinished) => (
            RequestStage::Completed,
            InjectorAction::Respond,
        ),
        (s, _) => (s, InjectorAction::Ignore),
    }
}

/// The diagnostic written before the process ends on a faulted clone.
pub fn clone_fault_message(site: CloneSite) -> (r: &'static str)
    ensures
        site == CloneSite::Middleware ==> r@ == "PANIC: r2d2::Pool::clone caused a panic"@,
        site == CloneSite::NewMiddleware ==> r@
            == "PANIC: r2d2::Pool::clone caused a panic, unable to rescue with a HTTP error"@,
{
    match site {
        CloneSite::Middleware => "PANIC: r2d2::Pool::clone caused a panic",
        CloneSite::NewMiddleware =>
            "PANIC: r2d2::Pool::clone caused a panic, unable to rescue with a HTTP error",
    }
}

} // verus!
