//! File contents for a project given by its name and directory name alone.
//!
//! These render the same three files as `DevContainerGenerator`, for a
//! configuration whose image and container carry the project's name.
use vstd::prelude::*;
use vstd::string::*;
use crate::domain::models::config::{DevContainerConfig, workspace_folder_spec};
use crate::domain::services::generator::{
    DevContainerGenerator, compose_yaml_text, devcontainer_json_text, dockerfile_text,
};

verus! {

/// `devcontainer.json` for the project `name` in the directory `dir_name`.
pub fn devcontainer_json_content(name: &str, dir_name: &str) -> (r: String)
    ensures
        r@ == devcontainer_json_text(name@, workspace_folder_spec(dir_name@), "app"@),
{
    let config = DevContainerConfig::new(String::from_str(name), String::from_str(dir_name));
    DevContainerGenerator::generate_devcontainer_json(&config).content
}

/// `compose.yaml` for the project `name` in the directory `dir_name`: the
/// image and the container are both named after the project.
pub fn compose_yaml_content(name: &str, dir_name: &str) -> (r: String)
    ensures
        r@ == compose_yaml_text(name@, name@, dir_name@),
{
    let mut s = String::from_str("services:\n  app:\n    image: ");
    s.append(name);
    s.append(":latest\n    container_name: ");
    s.append(name);
    s.append(
        "\n    build:\n      context: .\n      dockerfile: Dockerfile\n    volumes:\n      - ..:/workspaces/",
    );
    s.append(dir_name);
    s.append(":cached\n    command: sleep infinity\n");
    s
}

/// `Dockerfile` built on `base_image`.
pub fn dockerfile_content(base_image: &str) -> (r: String)
    ensures
        r@ == dockerfile_text(base_image@),
{
    DevContainerGenerator::generate_dockerfile(base_image).content
}

} // verus!
