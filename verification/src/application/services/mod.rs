//! Application services.
pub mod app_service;

pub use app_service::{ApplicationService, ConfigurationService};
