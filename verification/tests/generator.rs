use coduchi::domain::models::{ComposeConfig, DevContainerConfig};
use coduchi::domain::services::DevContainerGenerator;
use coduchi::generator::{compose_yaml_content, devcontainer_json_content, dockerfile_content};

fn create_test_config() -> ComposeConfig {
    ComposeConfig::new(
        "test-dir".to_string(),
        "test-container".to_string(),
        "test-container".to_string(),
        "test-dir".to_string(),
        "test-container".to_string(),
        "ubuntu:latest".to_string(),
        false,
    )
}

#[test]
fn generator_test_generate_devcontainer_json() {
    let devcontainer_config =
        DevContainerConfig::new("test-container".to_string(), "test-dir".to_string());
    let file = DevContainerGenerator::generate_devcontainer_json(&devcontainer_config);

    assert_eq!(file.filename, "devcontainer.json");
    assert!(file.content.contains("\"name\": \"test-container\""));
    assert!(file.content.contains("\"workspaceFolder\": \"/workspaces/test-dir\""));
    assert!(file.content.contains("\"service\": \"app\""));
}

#[test]
fn generator_test_generate_compose_yaml() {
    let config = create_test_config();
    let file = DevContainerGenerator::generate_compose_yaml(&config);

    assert_eq!(file.filename, "compose.yaml");
    assert!(file.content.contains("image: test-container:latest"));
    assert!(file.content.contains("container_name: test-container"));
    assert!(file.content.contains("/workspaces/test-dir"));
}

#[test]
fn generator_test_generate_dockerfile() {
    let file = DevContainerGenerator::generate_dockerfile("ubuntu:latest");

    assert_eq!(file.filename, "Dockerfile");
    assert_eq!(file.content, "FROM ubuntu:latest");
}

#[test]
fn test_generate_all_files() {
    let config = create_test_config();
    let files = DevContainerGenerator::generate_all_files(&config);

    assert_eq!(files.len(), 3);
    assert_eq!(files[0].filename, "devcontainer.json");
    assert_eq!(files[1].filename, "compose.yaml");
    assert_eq!(files[2].filename, "Dockerfile");
    assert_eq!(files[2].content, "FROM ubuntu:latest");
}

#[test]
fn devcontainer_json_exact_text() {
    let config = DevContainerConfig::new("app1".to_string(), "dir1".to_string());
    let file = DevContainerGenerator::generate_devcontainer_json(&config);
    let expected = "{\n  \"name\": \"app1\",\n  \"dockerComposeFile\": \"compose.yaml\",\n  \"workspaceFolder\": \"/workspaces/dir1\",\n  \"service\": \"app\",\n  \"customizations\": {\n    \"vscode\": {\n      \"extensions\": []\n    }\n  }\n}";
    assert_eq!(file.content, expected);
}

#[test]
fn compose_yaml_uses_image_and_container_names() {
    let config = ComposeConfig::new(
        "d".to_string(),
        "n".to_string(),
        "dev-instance".to_string(),
        "d".to_string(),
        "my-app".to_string(),
        "ubuntu".to_string(),
        false,
    );
    let file = DevContainerGenerator::generate_compose_yaml(&config);
    let expected = "services:\n  app:\n    image: my-app:latest\n    container_name: dev-instance\n    build:\n      context: .\n      dockerfile: Dockerfile\n    volumes:\n      - ..:/workspaces/d:cached\n    command: sleep infinity\n";
    assert_eq!(file.content, expected);
}

#[test]
fn all_files_name_devcontainer_after_project() {
    let config = ComposeConfig::new(
        "d".to_string(),
        "project".to_string(),
        "box".to_string(),
        "d".to_string(),
        "img".to_string(),
        "alpine".to_string(),
        false,
    );
    let files = DevContainerGenerator::generate_all_files(&config);
    assert!(files[0].content.contains("\"name\": \"project\""));
    assert!(files[1].content.contains("image: img:latest"));
    assert!(files[1].content.contains("container_name: box"));
}

#[test]
fn legacy_devcontainer_json_content() {
    let content = devcontainer_json_content("test-container", "test-dir");
    assert!(content.contains("\"name\": \"test-container\""));
    assert!(content.contains("\"workspaceFolder\": \"/workspaces/test-dir\""));
}

#[test]
fn legacy_compose_yaml_content() {
    let content = compose_yaml_content("test-container", "test-dir");
    assert!(content.contains("image: test-container:latest"));
    assert!(content.contains("container_name: test-container"));
    assert!(content.contains("/workspaces/test-dir"));
}

#[test]
fn legacy_dockerfile_content() {
    assert_eq!(dockerfile_content("ubuntu:latest"), "FROM ubuntu:latest");
}

#[test]
fn legacy_contents_match_domain_files() {
    let config = create_test_config();
    let files = DevContainerGenerator::generate_all_files(&config);
    assert_eq!(files[0].content, devcontainer_json_content("test-container", "test-dir"));
    assert_eq!(files[1].content, compose_yaml_content("test-container", "test-dir"));
    assert_eq!(files[2].content, dockerfile_content("ubuntu:latest"));
}

#[test]
fn checked_files_are_generated_files() {
    let files = DevContainerGenerator::generate_all_files(&create_test_config());
    let names: Vec<String> = files.iter().map(|f| f.filename.clone()).collect();
    assert_eq!(names, coduchi::overwrite::target_files());
}
