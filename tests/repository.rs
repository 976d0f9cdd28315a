use venja::config::{Config, Environment};
use venja::health::{check, Health, ProbeError, Status};
use venja::middleware::{clone_fault_message, step, CloneSite, InjectorAction, InjectorEvent, RequestStage};
use venja::repository::{
    advance, settle, test_transaction_outcome, Completion, PoolError, PoolOptions, RunAction,
    RunError, RunEvent, RunStage,
};

fn test_config() -> Config {
    Config {
        env: Environment::Test,
        host: String::from("0.0.0.0"),
        port: 3000,
    }
}

fn pool_error() -> PoolError {
    PoolError {
        message: String::from("timed out waiting for connection"),
    }
}

#[test]
fn health_passes_when_query_succeeds() {
    let h = check(&test_config(), &Ok(()));
    assert_eq!(
        h,
        Health {
            environment: Environment::Test,
            postgres: Status::Pass
        }
    );
    assert_eq!(h.environment.name(), "test");
    assert_eq!(h.postgres.name(), "Pass");
}

#[test]
fn health_fails_when_pool_unreachable_or_query_fails() {
    let h = check(&test_config(), &Err(ProbeError::Acquire(pool_error())));
    assert_eq!(h.postgres, Status::Fail);
    assert_eq!(h.postgres.name(), "Fail");
    assert_eq!(h.environment, Environment::Test);
    let h = check(&test_config(), &Err(ProbeError::Query));
    assert_eq!(h.postgres, Status::Fail);
}

#[test]
fn only_test_environment_isolates_writes() {
    assert!(PoolOptions::for_environment(Environment::Test).test_transactions);
    assert!(!PoolOptions::for_environment(Environment::Development).test_transactions);
    assert!(!PoolOptions::for_environment(Environment::Production).test_transactions);
}

#[test]
fn failed_test_transaction_is_swallowed() {
    assert_eq!(test_transaction_outcome::<String>(Err(String::from("no"))), Ok(()));
    assert_eq!(test_transaction_outcome::<String>(Ok(())), Ok(()));
}

#[test]
fn run_that_returns_releases_and_resolves() {
    let (s, a) = advance::<u32, String>(RunStage::Queued, RunEvent::Acquired);
    assert_eq!(s, RunStage::Running);
    assert_eq!(a, RunAction::Invoke);
    let (s, a) = advance(s, RunEvent::Finished(Completion::Returned(7)));
    assert_eq!(s, RunStage::Resolved(Ok(7)));
    assert_eq!(a, RunAction::ReleaseAndResolve);
}

#[test]
fn run_that_panics_resolves_operation_panicked() {
    let (s, _) = advance::<u32, String>(RunStage::Queued, RunEvent::Acquired);
    let (s, a) = advance(s, RunEvent::Finished(Completion::Panicked));
    assert_eq!(s, RunStage::Resolved(Err(RunError::OperationPanicked)));
    assert_eq!(a, RunAction::ReleaseAndResolve);
    // A later call on the same pool goes through as before.
    let (s, _) = advance::<u32, String>(RunStage::Queued, RunEvent::Acquired);
    let (s, _) = advance(s, RunEvent::Finished(Completion::Returned(1)));
    assert_eq!(s, RunStage::Resolved(Ok(1)));
}

#[test]
fn run_that_fails_keeps_its_error() {
    assert_eq!(
        settle::<u32, String>(Completion::Failed(String::from("constraint"))),
        Err(RunError::OperationError(String::from("constraint")))
    );
}

#[test]
fn run_without_connection_resolves_acquire_failed() {
    let (s, a) = advance::<u32, String>(RunStage::Queued, RunEvent::AcquireFailed(pool_error()));
    assert_eq!(s, RunStage::Resolved(Err(RunError::AcquireFailed(pool_error()))));
    assert_eq!(a, RunAction::Resolve);
}

#[test]
fn run_ignores_events_out_of_order() {
    let (s, a) = advance::<u32, String>(RunStage::Queued, RunEvent::Finished(Completion::Returned(3)));
    assert_eq!(s, RunStage::Queued);
    assert_eq!(a, RunAction::Ignore);
    let (s, a) = advance::<u32, String>(RunStage::Resolved(Ok(1)), RunEvent::Acquired);
    assert_eq!(s, RunStage::Resolved(Ok(1)));
    assert_eq!(a, RunAction::Ignore);
}

#[test]
fn injector_runs_chain_after_clone() {
    let (s, a) = step(RequestStage::Created, InjectorEvent::Cloned);
    assert_eq!((s, a), (RequestStage::Injected, InjectorAction::RunChain));
    let (s, a) = step(s, InjectorEvent::ChainStarted);
    assert_eq!((s, a), (RequestStage::ChainRunning, InjectorAction::Await));
    let (s, a) = step(s, InjectorEvent::ChainFinished);
    assert_eq!((s, a), (RequestStage::Completed, InjectorAction::Respond));
}

#[test]
fn injector_aborts_on_clone_fault() {
    let (s, a) = step(RequestStage::Created, InjectorEvent::CloneFaulted);
    assert_eq!((s, a), (RequestStage::Aborted, InjectorAction::Abort));
    let (s, a) = step(s, InjectorEvent::ChainStarted);
    assert_eq!((s, a), (RequestStage::Aborted, InjectorAction::Ignore));
    assert_eq!(
        clone_fault_message(CloneSite::Middleware),
        "PANIC: r2d2::Pool::clone caused a panic"
    );
    assert_eq!(
        clone_fault_message(CloneSite::NewMiddleware),
        "PANIC: r2d2::Pool::clone caused a panic, unable to rescue with a HTTP error"
    );
}
