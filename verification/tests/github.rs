use base64::Engine;
use coduchi::github::{
    DirEntry, GitHubContent, TemplateError, api_base, decode_template_content, devcontainer_json_url,
    image_config_from_json, parse_template_info, template_json_url, templates_from_listing,
    templates_url,
};
use coduchi::json::{JsonMember, JsonValue};
use coduchi::selection::{SelectionError, check_templates_available, find_template, template_names};
use coduchi::domain::models::DevContainerTemplate;
use coduchi::template::{
    TemplateInfoError, parse_devcontainer_json, parse_template_json, template_info_from_json,
    template_info_from_text,
};

fn encoded(text: &str) -> GitHubContent {
    GitHubContent {
        content: base64::engine::general_purpose::STANDARD.encode(text),
        encoding: "base64".to_string(),
    }
}

fn entry(name: &str, path: &str, content_type: &str) -> DirEntry {
    DirEntry { name: name.to_string(), path: path.to_string(), content_type: content_type.to_string() }
}

#[test]
fn github_template_repository_test_fetch_templates() {
    let listing = vec![
        entry("alpine", "src/alpine", "dir"),
        entry("ubuntu", "src/ubuntu", "dir"),
        entry("README.md", "src/README.md", "file"),
    ];
    let templates = templates_from_listing(listing);

    assert_eq!(templates.len(), 2);
    assert_eq!(templates[0].name, "alpine");
    assert_eq!(templates[1].name, "ubuntu");
    assert_eq!(templates[1].path, "src/ubuntu");
}

#[test]
fn test_parse_template_info() {
    let content = GitHubContent {
        content: base64::engine::general_purpose::STANDARD.encode(
            r#"{
  "image": "mcr.microsoft.com/devcontainers/base:${VARIANT}",
  "imageVariant": "ubuntu-22.04"
}"#,
        ),
        encoding: "base64".to_string(),
    };

    let result = parse_template_info(&content).unwrap();
    assert_eq!(result.base_image, "mcr.microsoft.com/devcontainers/base:${VARIANT}");
    assert_eq!(result.variant, "ubuntu-22.04");
    assert_eq!(result.resolve_final_image(), "mcr.microsoft.com/devcontainers/base:ubuntu-22.04");
}

#[test]
fn test_parse_template_info_with_comments() {
    let json_with_comments = r#"{
  // This is a comment
  "image": "ubuntu:${VARIANT}",
  "imageVariant": "20.04"
}"#;
    let content = GitHubContent {
        content: base64::engine::general_purpose::STANDARD.encode(json_with_comments),
        encoding: "base64".to_string(),
    };

    let result = parse_template_info(&content).unwrap();
    assert_eq!(result.base_image, "ubuntu:${VARIANT}");
    assert_eq!(result.variant, "20.04");
    assert_eq!(result.resolve_final_image(), "ubuntu:20.04");
}

#[test]
fn decode_removes_line_feeds_and_comments() {
    let encoded = base64::engine::general_purpose::STANDARD.encode("a\r\n  // note\nb\n");
    let wrapped = format!("{}\n{}", &encoded[..4], &encoded[4..]);
    let content = GitHubContent { content: wrapped, encoding: "base64".to_string() };
    assert_eq!(decode_template_content(&content).unwrap(), "a\nb");
}

#[test]
fn decode_rejects_other_encodings() {
    let content = GitHubContent { content: "e30=".to_string(), encoding: "utf-8".to_string() };
    assert!(matches!(decode_template_content(&content), Err(TemplateError::UnexpectedEncoding)));
}

#[test]
fn decode_rejects_invalid_base64() {
    let content = GitHubContent { content: "!!!!".to_string(), encoding: "base64".to_string() };
    assert!(matches!(decode_template_content(&content), Err(TemplateError::InvalidBase64(_))));
}

#[test]
fn decode_rejects_invalid_utf8() {
    let encoded = base64::engine::general_purpose::STANDARD.encode([0xffu8, 0xfe]);
    let content = GitHubContent { content: encoded, encoding: "base64".to_string() };
    assert!(matches!(decode_template_content(&content), Err(TemplateError::InvalidUtf8(_))));
}

#[test]
fn image_config_defaults_variant_to_latest() {
    let config = parse_template_info(&encoded(r#"{"image": "debian"}"#)).unwrap();
    assert_eq!(config.base_image, "debian");
    assert_eq!(config.variant, "latest");
}

#[test]
fn image_config_requires_image() {
    assert!(matches!(
        parse_template_info(&encoded(r#"{"imageVariant": "x"}"#)),
        Err(TemplateError::ImageNotFound)
    ));
    assert!(matches!(
        parse_template_info(&encoded(r#"{"image": 3}"#)),
        Err(TemplateError::ImageNotFound)
    ));
    assert!(matches!(parse_template_info(&encoded("[1, 2]")), Err(TemplateError::ImageNotFound)));
}

#[test]
fn image_config_reads_a_value_built_by_hand() {
    let value = JsonValue::Object(vec![
        JsonMember { key: "image".to_string(), value: JsonValue::Str("alpine".to_string()) },
        JsonMember { key: "imageVariant".to_string(), value: JsonValue::Str("3.19".to_string()) },
    ]);
    let config = image_config_from_json(&value).unwrap();
    assert_eq!(config.base_image, "alpine");
    assert_eq!(config.variant, "3.19");
    assert!(matches!(image_config_from_json(&JsonValue::Null), Err(TemplateError::ImageNotFound)));
}

#[test]
fn parse_template_info_rejects_text_that_is_not_json() {
    assert!(matches!(
        parse_template_info(&encoded(r#"{"image": "x",}"#)),
        Err(TemplateError::InvalidJson(_))
    ));
    assert!(matches!(parse_template_info(&encoded("")), Err(TemplateError::InvalidJson(_))));
    let mut content = encoded(r#"{"image": "x"}"#);
    content.encoding = "utf-8".to_string();
    assert!(matches!(parse_template_info(&content), Err(TemplateError::UnexpectedEncoding)));
}

#[test]
fn test_fetch_template_info() {
    let info = template_info_from_text(
        r#"{"image": "mcr.microsoft.com/devcontainers/base:ubuntu"}"#,
        r#"{"options": {"imageVariant": {"default": "ubuntu-22.04", "proposals": ["ubuntu-20.04", "ubuntu-22.04"]}}}"#,
    )
    .unwrap();
    assert_eq!(info.image, "mcr.microsoft.com/devcontainers/base:ubuntu");
    assert_eq!(info.options.image_variant.default, "ubuntu-22.04");
    assert_eq!(info.options.image_variant.proposals, vec!["ubuntu-20.04", "ubuntu-22.04"]);
}

#[test]
fn template_info_defaults_and_filters_proposals() {
    let devcontainer = parse_devcontainer_json(r#"{"image": "x"}"#).unwrap();
    let template =
        parse_template_json(r#"{"options": {"imageVariant": {"proposals": ["a", 1, "b", null]}}}"#)
            .unwrap();
    let info = template_info_from_json(&devcontainer, &template).unwrap();
    assert_eq!(info.options.image_variant.default, "latest");
    assert_eq!(info.options.image_variant.proposals, vec!["a", "b"]);

    let template = parse_template_json(r#"{"options": {"imageVariant": {"proposals": "a"}}}"#).unwrap();
    let info = template_info_from_json(&devcontainer, &template).unwrap();
    assert!(info.options.image_variant.proposals.is_empty());
}

#[test]
fn template_info_errors() {
    let ok = r#"{"image": "x"}"#;
    let variants = r#"{"options": {"imageVariant": {}}}"#;
    assert!(matches!(
        template_info_from_text("[]", variants),
        Err(TemplateInfoError::DevcontainerNotObject)
    ));
    assert!(matches!(
        template_info_from_text("[]", "not json"),
        Err(TemplateInfoError::DevcontainerNotObject)
    ));
    assert!(matches!(template_info_from_text(ok, "1"), Err(TemplateInfoError::TemplateNotObject)));
    assert!(matches!(template_info_from_text("{}", variants), Err(TemplateInfoError::ImageNotFound)));
    assert!(matches!(
        template_info_from_text(ok, r#"{"options": {}}"#),
        Err(TemplateInfoError::ImageVariantNotFound)
    ));
    assert!(matches!(template_info_from_text("{", variants), Err(TemplateInfoError::InvalidJson(_))));
    assert!(matches!(template_info_from_text(ok, "{"), Err(TemplateInfoError::InvalidJson(_))));
    assert!(matches!(
        template_info_from_json(&JsonValue::Null, &JsonValue::Null),
        Err(TemplateInfoError::DevcontainerNotObject)
    ));
    assert_eq!(TemplateInfoError::ImageNotFound.message(), "Image not found in devcontainer.json");
    assert_eq!(
        TemplateInfoError::TemplateNotObject.message(),
        "devcontainer-template.json is not a JSON object"
    );
}

#[test]
fn document_parsers_require_objects() {
    assert!(parse_devcontainer_json(r#"{"a": 1}"#).unwrap().is_object());
    assert!(matches!(
        parse_devcontainer_json("\"text\""),
        Err(TemplateInfoError::DevcontainerNotObject)
    ));
    assert!(matches!(parse_devcontainer_json("{]"), Err(TemplateInfoError::InvalidJson(_))));
    assert!(matches!(parse_template_json("null"), Err(TemplateInfoError::TemplateNotObject)));
    assert!(matches!(parse_template_json(""), Err(TemplateInfoError::InvalidJson(_))));
    let parsed = parse_template_json(r#"{"k": [true, 2.5, "s"]}"#).unwrap();
    let items = parsed.get("k").unwrap().as_array().unwrap();
    assert!(matches!(items[0], JsonValue::Bool(true)));
    assert!(matches!(&items[1], JsonValue::Number(n) if n == "2.5"));
    assert_eq!(items[2].as_str().unwrap(), "s");
}

#[test]
fn urls_follow_the_contents_api() {
    assert_eq!(api_base(None), "https://api.github.com");
    assert_eq!(api_base(Some("http://localhost:1")), "http://localhost:1");
    assert_eq!(
        templates_url("https://api.github.com"),
        "https://api.github.com/repos/devcontainers/templates/contents/src"
    );
    assert_eq!(
        devcontainer_json_url("B", "test-template"),
        "B/repos/devcontainers/templates/contents/src/test-template/.devcontainer/devcontainer.json"
    );
    assert_eq!(
        template_json_url("B", "test-template"),
        "B/repos/devcontainers/templates/contents/src/test-template/devcontainer-template.json"
    );
}

#[test]
fn test_cli_user_interaction_empty_templates() {
    let result = check_templates_available(&vec![]);
    assert!(result.is_err());
    assert!(result.unwrap_err().message().contains("利用可能なテンプレートがありません"));
}

#[test]
fn selection_finds_first_template_with_name() {
    let templates = vec![
        DevContainerTemplate::new("ubuntu".to_string(), "src/ubuntu".to_string()),
        DevContainerTemplate::new("node".to_string(), "src/node".to_string()),
        DevContainerTemplate::new("node".to_string(), "src/node2".to_string()),
    ];
    assert!(check_templates_available(&templates).is_ok());
    assert_eq!(template_names(&templates), vec!["ubuntu", "node", "node"]);
    assert_eq!(find_template(&templates, "node").unwrap().path, "src/node");
    assert_eq!(
        find_template(&templates, "go").unwrap_err(),
        SelectionError::SelectedTemplateNotFound
    );
}
