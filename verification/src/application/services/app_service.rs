//! Application services shared by use cases.
use vstd::prelude::*;

verus! {

/// The common interface of application services.
pub trait ApplicationService: Send + Sync {}

/// Validation of configuration settings.
pub struct ConfigurationService;

impl ConfigurationService {
    pub fn new() -> (r: Self) {
        ConfigurationService
    }

    /// Validates a configuration text: every text is accepted.
    pub fn validate_configuration(&self, config: &str) -> (r: Result<bool, String>)
        ensures
            r == Ok::<bool, String>(true),
    {
        Ok(true)
    }
}

impl ApplicationService for ConfigurationService {}

} // verus!
