//! Rendering of the configuration files.
pub mod generator;

pub use generator::DevContainerGenerator;
