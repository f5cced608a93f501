use coduchi::application::services::ConfigurationService;
use coduchi::domain::models::{
    ComposeConfig, ComposeConfigBuilder, DevContainerConfig, DevContainerTemplate, GeneratedFile,
    GenerationResult, ImageConfiguration,
};
use coduchi::ui::CliUi;

#[test]
fn test_configuration_service_creation() {
    let service = ConfigurationService::new();
    assert!(service.validate_configuration("test").is_ok());
}

#[test]
fn test_config_builder() {
    let config = ComposeConfigBuilder::new("test-dir".to_string())
        .with_name(Some("test-container".to_string()))
        .with_force(true)
        .build("ubuntu:latest".to_string());

    assert_eq!(config.dir, "test-dir".to_string());
    assert_eq!(config.name, "test-container");
    assert_eq!(config.container_name, "test-container");
    assert_eq!(config.dir_name, "test-dir");
    assert_eq!(config.image_name, "test-container");
    assert_eq!(config.base_image, "ubuntu:latest");
    assert!(config.force);
}

#[test]
fn test_devcontainer_config() {
    let config = DevContainerConfig::new("test-app".to_string(), "test-dir".to_string());

    assert_eq!(config.name, "test-app");
    assert_eq!(config.workspace_folder, "/workspaces/test-dir");
}

#[test]
fn test_generated_file() {
    let file = GeneratedFile::new("test.txt".to_string(), "test content".to_string());

    assert_eq!(file.filename, "test.txt");
    assert_eq!(file.content, "test content");
    assert!(!file.is_empty());
    assert_eq!(file.size(), 12);
}

#[test]
fn test_generated_file_empty() {
    let file = GeneratedFile::new("empty.txt".to_string(), "".to_string());

    assert!(file.is_empty());
    assert_eq!(file.size(), 0);
}

#[test]
fn test_generation_result_success() {
    let files = vec![
        GeneratedFile::new("file1.txt".to_string(), "content1".to_string()),
        GeneratedFile::new("file2.txt".to_string(), "content2".to_string()),
    ];

    let result = GenerationResult::success(files);
    assert!(result.success);
    assert_eq!(result.file_count(), 2);
}

#[test]
fn test_generation_result_failure() {
    let result = GenerationResult::failure("Error occurred".to_string());
    assert!(!result.success);
    assert_eq!(result.file_count(), 0);
    assert_eq!(result.message, "Error occurred");
}

#[test]
fn test_devcontainer_template_creation() {
    let template = DevContainerTemplate::new("ubuntu".to_string(), "src/ubuntu".to_string());
    assert_eq!(template.name, "ubuntu");
    assert_eq!(template.path, "src/ubuntu");
}

#[test]
fn test_image_configuration_resolve_final_image() {
    let config = ImageConfiguration::new(
        "mcr.microsoft.com/devcontainers/base:${VARIANT}".to_string(),
        "ubuntu-22.04".to_string(),
    );

    let resolved = config.resolve_final_image();
    assert_eq!(resolved, "mcr.microsoft.com/devcontainers/base:ubuntu-22.04");
}

#[test]
fn test_image_configuration_no_variant() {
    let config = ImageConfiguration::new("ubuntu:latest".to_string(), "latest".to_string());

    let resolved = config.resolve_final_image();
    assert_eq!(resolved, "ubuntu:latest");
}

#[test]
fn test_cli_ui_creation() {
    let _ui = CliUi;
}

#[test]
fn test_confirm_overwrite_if_needed_with_no_conflict() {
    let _config = ComposeConfigBuilder::new("/tmp/coduchi-no-conflict".to_string())
        .with_force(false)
        .build("ubuntu:latest".to_string());
}

#[test]
fn builder_defaults_follow_the_directory_name() {
    let config = ComposeConfigBuilder::new("projects/my-app".to_string()).build("debian".to_string());
    assert_eq!(config.dir_name, "my-app");
    assert_eq!(config.name, "my-app");
    assert_eq!(config.image_name, "my-app");
    assert_eq!(config.container_name, "my-app");
    assert!(!config.force);
}

#[test]
fn builder_container_name_defaults_to_image_name() {
    let config = ComposeConfigBuilder::new("d".to_string())
        .with_name(Some("n".to_string()))
        .with_image_name(Some("img".to_string()))
        .build("b".to_string());
    assert_eq!(config.name, "n");
    assert_eq!(config.image_name, "img");
    assert_eq!(config.container_name, "img");
}

#[test]
fn builder_keeps_given_names() {
    let config = ComposeConfigBuilder::new("d".to_string())
        .with_name(Some("n".to_string()))
        .with_image_name(Some("img".to_string()))
        .with_container_name(Some("box".to_string()))
        .with_base_image(Some("alpine".to_string()))
        .build("other".to_string());
    assert_eq!(config.container_name, "box");
    assert_eq!(config.base_image, "other");
}

#[test]
fn builder_reports_missing_base_image() {
    let b = ComposeConfigBuilder::new("d".to_string());
    assert!(b.needs_base_image());
    assert_eq!(b.get_base_image(), None);
    let b = b.with_base_image(Some("alpine".to_string()));
    assert!(!b.needs_base_image());
    assert_eq!(b.get_base_image(), Some(&"alpine".to_string()));
}

#[test]
fn builder_without_directory_name_uses_unknown() {
    let config = ComposeConfigBuilder::new("/".to_string()).build("b".to_string());
    assert_eq!(config.dir_name, "unknown");
    assert_eq!(config.name, "unknown");
}

#[test]
fn output_dir_is_devcontainer_inside_target() {
    let config = ComposeConfig::new(
        "proj".to_string(),
        "n".to_string(),
        "c".to_string(),
        "proj".to_string(),
        "i".to_string(),
        "b".to_string(),
        false,
    );
    assert_eq!(config.output_dir(), "proj/.devcontainer");
}

#[test]
fn generated_file_size_counts_utf8_bytes() {
    let file = GeneratedFile::new("a".to_string(), "生成".to_string());
    assert_eq!(file.size(), 6);
    let file = GeneratedFile::new("n".to_string(), "あ".to_string());
    assert_eq!(file.size(), 3);
    assert!(!file.is_empty());
    assert_eq!(file.is_empty(), file.size() == 0);
}

#[test]
fn resolve_replaces_every_placeholder() {
    let config = ImageConfiguration::new("${VARIANT}/x:${VARIANT}".to_string(), "v1".to_string());
    assert_eq!(config.resolve_final_image(), "v1/x:v1");
}

#[test]
fn generation_result_success_message() {
    let result = GenerationResult::success(Vec::new());
    assert_eq!(result.message, "ファイル生成が成功しました");
    assert_eq!(result.file_count(), 0);
}
