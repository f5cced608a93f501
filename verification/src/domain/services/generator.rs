//! Rendering of `devcontainer.json`, `compose.yaml` and `Dockerfile`.
use vstd::prelude::*;
use vstd::string::*;
use crate::domain::models::config::{
    ComposeConfig, ComposeConfigView, DevContainerConfig, workspace_folder_spec,
};
use crate::domain::models::file::{GeneratedFile, GeneratedFileView};

verus! {

/// The text of `devcontainer.json`.
pub open spec fn devcontainer_json_text(
    name: Seq<char>,
    workspace_folder: Seq<char>,
    service: Seq<char>,
) -> Seq<char> {
    "{\n  \"name\": \""@ + name + "\",\n  \"dockerComposeFile\": \"compose.yaml\",\n  \"workspaceFolder\": \""@
        + workspace_folder + "\",\n  \"service\": \""@ + service
        + "\",\n  \"customizations\": {\n    \"vscode\": {\n      \"extensions\": []\n    }\n  }\n}"@
}

/// The text of `compose.yaml`.
pub open spec fn compose_yaml_text(
    image_name: Seq<char>,
    container_name: Seq<char>,
    dir_name: Seq<char>,
) -> Seq<char> {
    "services:\n  app:\n    image: "@ + image_name + ":latest\n    container_name: "@
        + container_name
        + "\n    build:\n      context: .\n      dockerfile: Dockerfile\n    volumes:\n      - ..:/workspaces/"@
        + dir_name + ":cached\n    command: sleep infinity\n"@
}

/// The text of `Dockerfile`.
pub open spec fn dockerfile_text(base_image: Seq<char>) -> Seq<char> {
    "FROM "@ + base_image
}

/// `devcontainer.json` for a configuration named `name` in the project
/// directory `dir_name`, served by the compose service `app`.
pub open spec fn devcontainer_json_file(name: Seq<char>, dir_name: Seq<char>) -> GeneratedFileView {
    GeneratedFileView {
        filename: "devcontainer.json"@,
        content: devcontainer_json_text(name, workspace_folder_spec(dir_name), "app"@),
    }
}

/// `compose.yaml` for a configuration.
pub open spec fn compose_yaml_file(c: ComposeConfigView) -> GeneratedFileView {
    GeneratedFileView {
        filename: "compose.yaml"@,
        content: compose_yaml_text(c.image_name, c.container_name, c.dir_name),
    }
}

/// `Dockerfile` for a base image.
pub open spec fn dockerfile_file(base_image: Seq<char>) -> GeneratedFileView {
    GeneratedFileView { filename: "Dockerfile"@, content: dockerfile_text(base_image) }
}

/// The three files of a configuration, in the order they are generated.
pub open spec fn all_files_spec(c: ComposeConfigView) -> Seq<GeneratedFileView> {
    seq![devcontainer_json_file(c.name, c.dir_name), compose_yaml_file(c), dockerfile_file(c.base_image)]
}

/// Renders the configuration files.
pub struct DevContainerGenerator;

impl DevContainerGenerator {
    /// `devcontainer.json` for `config`.
    pub fn generate_devcontainer_json(config: &DevContainerConfig) -> (r: GeneratedFile)
        ensures
            r@ == (GeneratedFileView {
                filename: "devcontainer.json"@,
                content: devcontainer_json_text(
                    config.name@,
                    config.workspace_folder@,
                    config.service@,
                ),
            }),
    {
        let mut s = String::from_str("{\n  \"name\": \"");
        s.append(config.name.as_str());
        s.append("\",\n  \"dockerComposeFile\": \"compose.yaml\",\n  \"workspaceFolder\": \"");
        s.append(config.workspace_folder.as_str());
        s.append("\",\n  \"service\": \"");
        s.append(config.service.as_str());
        s.append(
            "\",\n  \"customizations\": {\n    \"vscode\": {\n      \"extensions\": []\n    }\n  }\n}",
        );
        GeneratedFile::new(String::from_str("devcontainer.json"), s)
    }

    /// `compose.yaml` for `config`: the service `app` runs the image
    /// `<image_name>:latest` in a container named `<container_name>`, with the
    /// project mounted at `/workspaces/<dir_name>`.
    pub fn generate_compose_yaml(config: &ComposeConfig) -> (r: GeneratedFile)
        ensures
            r@ == compose_yaml_file(config@),
    {
        let mut s = String::from_str("services:\n  app:\n    image: ");
        s.append(config.image_name.as_str());
        s.append(":latest\n    container_name: ");
        s.append(config.container_name.as_str());
        s.append(
            "\n    build:\n      context: .\n      dockerfile: Dockerfile\n    volumes:\n      - ..:/workspaces/",
        );
        s.append(config.dir_name.as_str());
        s.append(":cached\n    command: sleep infinity\n");
        GeneratedFile::new(String::from_str("compose.yaml"), s)
    }

    /// `Dockerfile` built on `base_image`.
    pub fn generate_dockerfile(base_image: &str) -> (r: GeneratedFile)
        ensures
            r@ == dockerfile_file(base_image@),
    {
        let mut s = String::from_str("FROM ");
        s.append(base_image);
        GeneratedFile::new(String::from_str("Dockerfile"), s)
    }

    /// All files for `config`: `devcontainer.json`, `compose.yaml`, `Dockerfile`.
    pub fn generate_all_files(config: &ComposeConfig) -> (r: Vec<GeneratedFile>)
        ensures
            r.deep_view() == all_files_spec(config@),
    {
        let devcontainer_config = DevContainerConfig::new(
            config.name.clone(),
            config.dir_name.clone(),
        );
        let mut files: Vec<GeneratedFile> = Vec::new();
        files.push(Self::generate_devcontainer_json(&devcontainer_config));
        files.push(Self::generate_compose_yaml(config));
        files.push(Self::generate_dockerfile(config.base_image.as_str()));
        assert(files.deep_view() =~= all_files_spec(config@));
        files
    }
}

} // verus!
