//! Dev Container configuration generator: the verified core.
//!
//! Given a target directory and optional names, the library decides the
//! configuration (`domain::models`), renders `devcontainer.json`,
//! `compose.yaml` and `Dockerfile` (`domain::services`), and drives the
//! generation workflow as a state machine (`application`). Reading the
//! disk, the network and the terminal is left to the caller, which hands
//! the library plain values: directory listings and file contents
//! (`github`), JSON texts (`json`, `template`), which files exist (`overwrite`) and the user's
//! choices (`selection`).
pub mod application;
pub mod cli;
pub mod domain;
pub mod generator;
pub mod github;
pub mod json;
pub mod laws;
pub mod overwrite;
pub mod path;
pub mod presentation;
pub mod selection;
pub mod template;
pub mod text;
pub mod ui;

pub use application::{services as application_services, use_cases};
pub use domain::{models, services as domain_services};
