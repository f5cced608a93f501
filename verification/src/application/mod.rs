//! The generation workflow and application services.
pub mod services;
pub mod use_cases;

pub use use_cases::{
    GenerateDevContainerRequest, GenerateDevContainerResponse, GenerateDevContainerUseCase,
};
