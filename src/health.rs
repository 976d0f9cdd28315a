//! The health report: the environment the application runs in, and whether a
//! trivial query through the pool succeeded.
use vstd::prelude::*;

use crate::config::{Config, Environment};
use crate::repository::PoolError;

verus! {

/// The state of a service the application depends on.
#[derive(Debug, Clone, Copy, PartialEq, Eq, Structural)]
pub enum Status {
    /// The service answered.
    Pass,
    /// The service could not be reached, or failed.
    Fail,
}

/// The report that the health endpoint returns.
#[derive(Debug, Clone, Copy, PartialEq, Eq, Structural)]
pub struct Health {
    /// The environment the application runs in.
    pub environment: Environment,
    /// Whether the database answered a trivial query.
    pub postgres: Status,
}

/// Why the database probe failed.
#[derive(Debug, Clone, PartialEq, Eq)]
pub enum ProbeError {
    /// No connection could be taken from the pool.
    Acquire(PoolError),
    /// A connection was had, but the query failed on it.
    Query,
}

impl Status {
    /// The name of the status in the report.
    pub fn name(&self) -> (r: &'static str)
        ensures
            *self == Status::Pass ==> r@ == "Pass"@,
            *self == Status::Fail ==> r@ == "Fail"@,
    {
        match self {
            Status::Pass => "Pass",
            Status::Fail => "Fail",
        }
    }
}

/// The health report for a configuration, given how the probe through the
/// pool went: the database passes exactly when a connection was had and the
/// query succeeded on it.
pub fn check(config: &Config, probe: &Result<(), ProbeError>) -> (r: Health)
    ensures
        r.environment == config.env,
        r.postgres == (if probe is Ok {
            Status::Pass
        } else {
            Status::Fail
        }),
{
    let postgres = match probe {
        Ok(()) => Status::Pass,
        Err(_) => Status::Fail,
    };
    Health { environment: config.env, postgres }
}

} // verus!
