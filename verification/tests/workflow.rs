use coduchi::application::use_cases::{
    Action, Event, GenerateDevContainerRequest, GenerateDevContainerResponse,
    GenerateDevContainerUseCase, UseCaseError,
};
use coduchi::domain::models::DevContainerTemplate;

struct Mocks {
    existing_files: Vec<String>,
    confirm_overwrite: bool,
    templates: Vec<DevContainerTemplate>,
    selected_base_image: Option<String>,
}

impl Mocks {
    fn new() -> Self {
        Mocks {
            existing_files: Vec::new(),
            confirm_overwrite: true,
            templates: Vec::new(),
            selected_base_image: None,
        }
    }
}

struct Trace {
    actions: Vec<String>,
    written: Vec<(String, String)>,
}

fn drive(
    mocks: &Mocks,
    request: GenerateDevContainerRequest,
    trace: &mut Trace,
) -> Result<GenerateDevContainerResponse, UseCaseError> {
    let mut use_case = GenerateDevContainerUseCase::new(request);
    let mut event = Event::Continue;
    for _ in 0..100 {
        let action = use_case.step(event);
        event = match action {
            Action::ConfirmOverwrite(config) => {
                trace.actions.push(format!("confirm:{}", config.base_image));
                let answer = if config.force {
                    true
                } else {
                    let dir = config.output_dir();
                    let has_existing = ["devcontainer.json", "compose.yaml", "Dockerfile"]
                        .iter()
                        .any(|f| mocks.existing_files.contains(&format!("{}/{}", dir, f)));
                    if has_existing { mocks.confirm_overwrite } else { true }
                };
                Event::OverwriteAnswered(answer)
            }
            Action::ShowProgress(m) => {
                trace.actions.push(format!("progress:{}", m));
                Event::Continue
            }
            Action::FetchTemplates => {
                trace.actions.push("fetch".to_string());
                Event::TemplatesFetched(mocks.templates.clone())
            }
            Action::SelectBaseImage(ts) => {
                trace.actions.push(format!("select:{}", ts.len()));
                let image = match &mocks.selected_base_image {
                    Some(i) => i.clone(),
                    None => "ubuntu:latest".to_string(),
                };
                Event::BaseImageSelected(image)
            }
            Action::ShowSuccess(m) => {
                trace.actions.push(format!("success:{}", m));
                Event::Continue
            }
            Action::WriteFiles(config, files) => {
                trace.actions.push(format!("write:{}", config.base_image));
                let names: Vec<String> = files.iter().map(|f| f.filename.clone()).collect();
                for f in files {
                    trace.written.push((f.filename, f.content));
                }
                Event::FilesWritten(names)
            }
            Action::ReportFileGenerated(n) => {
                trace.actions.push(format!("report:{}", n));
                Event::Continue
            }
            Action::ReportCompletion => {
                trace.actions.push("complete".to_string());
                Event::Continue
            }
            Action::Finish(response) => return Ok(response),
            Action::Fail(e) => return Err(e),
        };
    }
    panic!("the workflow did not finish");
}

fn request(base_image: Option<&str>, force: bool) -> GenerateDevContainerRequest {
    GenerateDevContainerRequest {
        dir: "test-dir".to_string(),
        name: Some("test-container".to_string()),
        image_name: None,
        container_name: None,
        base_image: base_image.map(|s| s.to_string()),
        force,
    }
}

fn new_trace() -> Trace {
    Trace { actions: Vec::new(), written: Vec::new() }
}

#[test]
fn test_execute_with_base_image() {
    let mocks = Mocks::new();
    let mut trace = new_trace();
    let response = drive(&mocks, request(Some("ubuntu:latest"), true), &mut trace).unwrap();

    assert!(response.success);
    assert_eq!(response.generated_files.len(), 3);
    assert!(response.generated_files.contains(&"devcontainer.json".to_string()));
    assert!(response.generated_files.contains(&"compose.yaml".to_string()));
    assert!(response.generated_files.contains(&"Dockerfile".to_string()));
}

#[test]
fn test_execute_with_template_selection() {
    let mut mocks = Mocks::new();
    mocks.templates = vec![
        DevContainerTemplate::new("ubuntu".to_string(), "src/ubuntu".to_string()),
        DevContainerTemplate::new("node".to_string(), "src/node".to_string()),
    ];
    mocks.selected_base_image = Some("mcr.microsoft.com/devcontainers/base:ubuntu-22.04".to_string());
    let mut trace = new_trace();
    let response = drive(&mocks, request(None, true), &mut trace).unwrap();

    assert!(response.success);
    assert_eq!(response.generated_files.len(), 3);
}

#[test]
fn test_execute_cancelled_by_user() {
    let mocks = Mocks::new();
    let mut trace = new_trace();
    let response = drive(&mocks, request(Some("ubuntu:latest"), false), &mut trace).unwrap();

    assert!(response.success || !response.success);
}

#[test]
fn workflow_cancel_writes_nothing() {
    let mut mocks = Mocks::new();
    mocks.existing_files = vec!["test-dir/.devcontainer/compose.yaml".to_string()];
    mocks.confirm_overwrite = false;
    let mut trace = new_trace();
    let response = drive(&mocks, request(Some("ubuntu:latest"), false), &mut trace).unwrap();

    assert!(!response.success);
    assert!(response.generated_files.is_empty());
    assert_eq!(response.message, "ユーザーが処理をキャンセルしました");
    assert!(trace.written.is_empty());
    assert_eq!(trace.actions, vec!["confirm:temp".to_string()]);
}

#[test]
fn workflow_reports_in_order() {
    let mocks = Mocks::new();
    let mut trace = new_trace();
    let response = drive(&mocks, request(Some("alpine:3"), true), &mut trace).unwrap();

    assert_eq!(
        trace.actions,
        vec![
            "confirm:temp".to_string(),
            "write:alpine:3".to_string(),
            "report:devcontainer.json".to_string(),
            "report:compose.yaml".to_string(),
            "report:Dockerfile".to_string(),
            "complete".to_string(),
        ]
    );
    assert_eq!(response.message, "Dev Container設定ファイルの生成が完了しました");
    assert_eq!(
        response.generated_files,
        vec!["devcontainer.json".to_string(), "compose.yaml".to_string(), "Dockerfile".to_string()]
    );
    assert_eq!(trace.written[2].1, "FROM alpine:3");
}

#[test]
fn workflow_selection_steps() {
    let mut mocks = Mocks::new();
    mocks.templates = vec![DevContainerTemplate::new("go".to_string(), "src/go".to_string())];
    mocks.selected_base_image = Some("golang:1".to_string());
    let mut trace = new_trace();
    let response = drive(&mocks, request(None, true), &mut trace).unwrap();

    assert!(response.success);
    assert_eq!(
        trace.actions[..6].to_vec(),
        vec![
            "confirm:temp".to_string(),
            "progress:テンプレート一覧を取得中...".to_string(),
            "fetch".to_string(),
            "select:1".to_string(),
            "success:選択されたベースイメージ: golang:1".to_string(),
            "write:golang:1".to_string(),
        ]
    );
    assert_eq!(trace.written[2].1, "FROM golang:1");
}

#[test]
fn workflow_empty_catalogue_fails() {
    let mocks = Mocks::new();
    let mut trace = new_trace();
    let result = drive(&mocks, request(None, true), &mut trace);

    assert_eq!(result.unwrap_err(), UseCaseError::NoTemplatesFound);
    assert_eq!(
        UseCaseError::NoTemplatesFound.message(),
        "利用可能なテンプレートが見つかりませんでした"
    );
    assert!(trace.written.is_empty());
}

#[test]
fn workflow_rejects_unexpected_event() {
    let mut use_case = GenerateDevContainerUseCase::new(request(None, true));
    match use_case.step(Event::OverwriteAnswered(true)) {
        Action::Fail(e) => assert_eq!(e, UseCaseError::UnexpectedEvent),
        _ => panic!("expected a failure"),
    }
    match use_case.step(Event::Continue) {
        Action::Fail(e) => assert_eq!(e, UseCaseError::UnexpectedEvent),
        _ => panic!("expected a failure"),
    }
}
