//! The health of the service.

use crate::model::Instant;
use vstd::prelude::*;

verus! {

/// How the service is doing.
#[derive(Clone, Copy, Debug, PartialEq, Eq, Structural)]
pub enum ServiceStatus {
    /// Operating normally.
    Healthy,
    /// Operating, with some trouble.
    Degraded,
    /// Not operating.
    Unhealthy,
}

/// The answer to a health check.
#[derive(Clone, Debug)]
pub struct MonitorStatus {
    /// When this status was taken.
    pub checked_at: Instant,
    /// How the service is doing overall.
    pub status: ServiceStatus,
    /// The version of the application.
    pub version: String,
}

/// The options of a health check.
#[derive(Clone, Copy, Debug, PartialEq, Eq, Structural)]
pub struct CheckHealth {
    /// How long the check may take, in milliseconds.
    pub timeout: Option<i32>,
    /// Whether a cached answer will do.
    pub use_cache: Option<bool>,
}

impl Default for CheckHealth {
    fn default() -> (options: CheckHealth)
        ensures
            options == (CheckHealth { timeout: None, use_cache: None }),
    {
        CheckHealth { timeout: None, use_cache: None }
    }
}

impl CheckHealth {
    /// A health check with no option set.
    pub fn new() -> (options: CheckHealth)
        ensures
            options == (CheckHealth { timeout: None, use_cache: None }),
    {
        CheckHealth { timeout: None, use_cache: None }
    }

    /// Sets how long the check may take, in milliseconds.
    pub fn timeout(self, timeout: i32) -> (options: CheckHealth)
        ensures
            options == (CheckHealth { timeout: Some(timeout), ..self }),
    {
        let mut options = self;
        options.timeout = Some(timeout);
        options
    }

    /// Sets whether a cached answer will do.
    pub fn use_cache(self, use_cache: bool) -> (options: CheckHealth)
        ensures
            options == (CheckHealth { use_cache: Some(use_cache), ..self }),
    {
        let mut options = self;
        options.use_cache = Some(use_cache);
        options
    }
}

} // verus!
