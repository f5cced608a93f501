//! Use cases of the application.
pub mod generate_devcontainer;

pub use generate_devcontainer::{
    Action, Event, GenerateDevContainerRequest, GenerateDevContainerResponse,
    GenerateDevContainerUseCase, UseCaseError,
};
