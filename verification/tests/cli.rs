use coduchi::cli::Cli;
use coduchi::presentation::Cli as PresentationCli;

#[test]
fn test_get_dir_name() {
    let cli = Cli { dir: "test-dir".to_string(), name: None, base_image: None, force: false };

    assert_eq!(cli.get_dir_name(), "test-dir");
}

#[test]
fn test_get_container_name() {
    let cli = Cli {
        dir: "test-dir".to_string(),
        name: Some("custom-name".to_string()),
        base_image: None,
        force: false,
    };

    assert_eq!(cli.get_container_name(), "custom-name");
}

#[test]
fn container_name_defaults_to_dir_name() {
    let cli = Cli { dir: "a/b/project".to_string(), name: None, base_image: None, force: true };
    assert_eq!(cli.get_container_name(), "project");
}

#[test]
fn test_to_request() {
    let cli = PresentationCli {
        dir: "test-dir".to_string(),
        name: Some("test-container".to_string()),
        image_name: Some("my-app:dev".to_string()),
        container_name: Some("dev-instance".to_string()),
        base_image: Some("ubuntu:latest".to_string()),
        force: true,
    };

    let request = cli.to_request();
    assert_eq!(request.dir, "test-dir".to_string());
    assert_eq!(request.name, Some("test-container".to_string()));
    assert_eq!(request.image_name, Some("my-app:dev".to_string()));
    assert_eq!(request.container_name, Some("dev-instance".to_string()));
    assert_eq!(request.base_image, Some("ubuntu:latest".to_string()));
    assert!(request.force);
}
