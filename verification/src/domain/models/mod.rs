//! Configuration, generated files and templates.
pub mod config;
pub mod file;
pub mod template;

pub use config::{ComposeConfig, ComposeConfigBuilder, DevContainerConfig};
pub use file::{GeneratedFile, GenerationResult};
pub use template::{DevContainerTemplate, ImageConfiguration};
