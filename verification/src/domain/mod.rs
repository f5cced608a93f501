//! Domain models and services of the generator.
pub mod models;
pub mod services;
