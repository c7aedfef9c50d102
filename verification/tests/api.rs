use tktkgo_app::db::{ProjectGuard, WorkflowChange};
use tktkgo_app::api::{
    ensure_catalog_choice, ensure_project_providers_available, error_response, review_script,
    review_submitted, submission, validate_web_root, CreateEvent, CreateState, DispatchEvent,
    DispatchState, TextReply,
};
use tktkgo_app::domain::{AspectRatio, CreateProjectRequest, Project};
use tktkgo_app::ids::Id;
use tktkgo_app::providers::{ProviderCatalog, ProviderOption};
use tktkgo_app::AppError;

fn id(value: u128) -> Id {
    Id { value }
}

fn project() -> Project {
    Project {
        id: id(1),
        title: "标题".to_owned(),
        source_text: "大纲".to_owned(),
        language: "zh-CN".to_owned(),
        aspect_ratio: "9:16".to_owned(),
        target_duration_seconds: 60,
        text_provider: "openai".to_owned(),
        text_model: "gpt".to_owned(),
        image_provider: "pic2api".to_owned(),
        image_model: "gpt-image-2".to_owned(),
        voice: "coral".to_owned(),
        speech_provider: "cosyvoice".to_owned(),
        speech_model: "cosy3".to_owned(),
        transcription_provider: "faster-whisper".to_owned(),
        transcription_model: "large-v3".to_owned(),
        require_script_review: true,
        status: "queued".to_owned(),
        active_workflow_id: Some(id(7)),
        current_version: 2,
        error_message: None,
        created_at: 0,
        updated_at: 0,
    }
}

const SEVEN: &str = "00000000-0000-0000-0000-000000000007";

fn option(id: &str, model: &str, available: bool) -> ProviderOption {
    ProviderOption {
        id: id.to_owned(),
        label: String::new(),
        model: model.to_owned(),
        available,
        voices: Vec::new(),
    }
}

fn catalog() -> ProviderCatalog {
    ProviderCatalog {
        text: vec![option("openai", "gpt", true)],
        image: vec![option("pic2api", "gpt-image-2", true)],
        speech: vec![option("openai", "tts", true), option("cosyvoice", "cosy3", true)],
        alignment: vec![option("faster-whisper", "large-v3", true)],
    }
}

fn request() -> CreateProjectRequest {
    CreateProjectRequest {
        title: "标题".to_owned(),
        source_text: "大纲".to_owned(),
        language: "zh-CN".to_owned(),
        aspect_ratio: AspectRatio::Landscape,
        target_duration_seconds: 60,
        text_provider: "openai".to_owned(),
        text_model: "gpt".to_owned(),
        image_provider: "pic2api".to_owned(),
        image_model: "gpt-image-2".to_owned(),
        voice: "coral".to_owned(),
        speech_provider: "cosyvoice".to_owned(),
        speech_model: "cosy3".to_owned(),
        transcription_provider: "faster-whisper".to_owned(),
        transcription_model: "large-v3".to_owned(),
        require_script_review: true,
        auto_start: true,
    }
}

fn reply(status: u16) -> TextReply {
    TextReply { status, status_text: format!("{status} Reason"), body: "body".to_owned() }
}

#[test]
fn a_choice_has_to_be_available() {
    let options = vec![option("a", "m", false), option("a", "n", true)];
    assert!(ensure_catalog_choice("图片", &options, "a", "n").is_ok());
    for (provider, model) in [("a", "m"), ("b", "n"), ("a", "")] {
        assert_eq!(
            ensure_catalog_choice("图片", &options, provider, model).unwrap_err().text(),
            format!("当前状态不允许执行该操作: 图片 Provider/模型当前不可用: {provider}/{model}")
        );
    }
    assert!(ensure_catalog_choice("图片", &[], "a", "n").is_err());
}

#[test]
fn the_first_choice_that_is_missing_is_reported() {
    assert!(ensure_project_providers_available(&catalog(), &project()).is_ok());
    let mut c = catalog();
    c.speech.pop();
    c.alignment.pop();
    assert_eq!(
        ensure_project_providers_available(&c, &project()).unwrap_err().text(),
        "当前状态不允许执行该操作: 口播 Provider/模型当前不可用: cosyvoice/cosy3"
    );
}

#[test]
fn an_invalid_request_is_not_even_looked_up() {
    let mut bad = request();
    bad.title = String::new();
    assert!(matches!(CreateState::begin(&bad), CreateState::Done { result: Err(_) }));
    assert!(matches!(CreateState::begin(&request()), CreateState::FetchCatalog));
}

#[test]
fn a_project_is_created_started_and_reported() {
    let state = CreateState::FetchCatalog.step(&request(), CreateEvent::Catalog(Ok(catalog())));
    match &state {
        CreateState::Insert { row } => assert_eq!((row.title.as_str(), row.aspect_ratio), ("标题", "16:9")),
        _ => panic!("not inserted"),
    }
    let state = state.step(&request(), CreateEvent::Inserted(Ok(id(1))));
    assert!(matches!(state, CreateState::Dispatch { .. }));
    let failed = Err(AppError::external("restate", "down".to_owned()));
    let state = state.step(&request(), CreateEvent::Dispatched(failed));
    assert!(matches!(state, CreateState::Reload { .. }));
    match state.step(&request(), CreateEvent::Loaded(Ok(project()))) {
        CreateState::Done { result } => assert_eq!(result.unwrap().id, id(1)),
        _ => panic!("not reported"),
    }
}

#[test]
fn a_project_need_not_be_started() {
    let mut manual = request();
    manual.auto_start = false;
    let state = CreateState::FetchCatalog.step(&manual, CreateEvent::Catalog(Ok(catalog())));
    let state = state.step(&manual, CreateEvent::Inserted(Ok(id(1))));
    assert!(matches!(state, CreateState::Reload { .. }));
}

#[test]
fn a_project_with_a_missing_choice_is_not_created() {
    let mut c = catalog();
    c.text.clear();
    match CreateState::FetchCatalog.step(&request(), CreateEvent::Catalog(Ok(c))) {
        CreateState::Done { result } => assert_eq!(
            result.unwrap_err().text(),
            "当前状态不允许执行该操作: 文案 Provider/模型当前不可用: openai/gpt"
        ),
        _ => panic!("created"),
    }
}

fn submitting() -> DispatchState {
    DispatchState::Submit { workflow_id: id(7), job_id: id(8) }
}

#[test]
fn a_start_is_queued_and_submitted() {
    let state = DispatchState::LoadProject.step(DispatchEvent::Project(Ok(project())));
    let state = state.step(DispatchEvent::Catalog(Ok(catalog())));
    let drawn = match &state {
        DispatchState::Queue { workflow_id, job_id } => (*workflow_id, *job_id),
        _ => panic!("not queued"),
    };
    assert_ne!(drawn.0, drawn.1);
    let state = state.step(DispatchEvent::Queued(Ok(())));
    match state.step(DispatchEvent::Submitted(Ok(reply(202)))) {
        DispatchState::Done { result } => assert_eq!(result.unwrap(), drawn.0),
        _ => panic!("not submitted"),
    }
}

#[test]
fn a_start_that_is_not_taken_is_finalized() {
    let state = submitting().step(DispatchEvent::Submitted(Ok(reply(500))));
    match &state {
        DispatchState::Finalize { workflow_id, note, .. } => {
            assert_eq!((*workflow_id, *note), (id(7), "无法提交到 Restate"))
        }
        _ => panic!("not finalized"),
    }
    match state.step(DispatchEvent::Finalized(Ok(()))) {
        DispatchState::Done { result } => assert_eq!(
            result.unwrap_err().text(),
            "外部服务 restate 调用失败: HTTP 500 Reason: body"
        ),
        _ => panic!("not done"),
    }
    let state = submitting().step(DispatchEvent::Submitted(Err("refused".to_owned())));
    match state {
        DispatchState::Finalize { note, error, .. } => {
            assert_eq!((note, error.text()), ("无法连接 Restate", "外部服务 restate 调用失败: refused".to_owned()))
        }
        _ => panic!("not finalized"),
    }
}

#[test]
fn a_start_that_is_given_up_leaves_the_project_failed() {
    assert!(submitting().project_write(id(1)).is_none());
    assert!(submitting().job_write().is_none());
    let state = submitting().step(DispatchEvent::Submitted(Err("refused".to_owned())));
    let update = state.project_write(id(1)).unwrap();
    assert_eq!((update.project_id, update.guard), (id(1), ProjectGuard::ActiveWorkflow(id(7))));
    assert_eq!((update.status.as_str(), update.workflow), ("failed", WorkflowChange::Clear));
    assert_eq!(update.error_message, Some("无法连接 Restate".to_owned()));
    let job = state.job_write().unwrap();
    assert_eq!((job.job_id, job.status, job.stage, job.resumable), (id(8), "failed", "queued", false));
    assert_eq!((job.error_code, job.error_message), (None, Some("无法连接 Restate".to_owned())));
}

#[test]
fn a_start_that_cannot_be_queued_is_not_submitted() {
    let queue = DispatchState::Queue { workflow_id: id(7), job_id: id(8) };
    let state = queue.step(DispatchEvent::Queued(Err(AppError::Conflict("busy".to_owned()))));
    assert!(matches!(state, DispatchState::Done { result: Err(_) }));
    let mut c = catalog();
    c.image.clear();
    let state = DispatchState::FetchCatalog { project: project() };
    assert!(matches!(
        state.step(DispatchEvent::Catalog(Ok(c))),
        DispatchState::Done { result: Err(_) }
    ));
}

#[test]
fn a_workflow_is_submitted_under_its_identifier() {
    let s = submission("http://i", id(1), id(7), id(8));
    assert_eq!(s.url, format!("http://i/VideoGenerationWorkflow/{SEVEN}/run/send"));
    assert_eq!((s.input.project_id, s.input.job_id, s.input.resume_version_id), (id(1), id(8), None));
}

#[test]
fn only_a_waiting_script_is_reviewed() {
    assert_eq!(
        review_script("http://i", &project()).err().unwrap().text(),
        "当前状态不允许执行该操作: 项目状态为 queued"
    );
    let mut waiting = project();
    waiting.status = "waiting_script_review".to_owned();
    let signal = review_script("http://i", &waiting).ok().unwrap();
    assert_eq!(signal.workflow_id, id(7));
    assert_eq!(signal.url, format!("http://i/VideoGenerationWorkflow/{SEVEN}/review/send"));
    assert_eq!(signal.idempotency_key, format!("review-{SEVEN}"));
    waiting.active_workflow_id = None;
    assert_eq!(
        review_script("http://i", &waiting).err().unwrap().text(),
        "当前状态不允许执行该操作: 项目没有活动工作流"
    );
}

#[test]
fn a_review_has_to_be_taken() {
    assert!(review_submitted(Ok(reply(200))).is_ok());
    assert_eq!(
        review_submitted(Ok(reply(409))).unwrap_err().text(),
        "外部服务 restate 调用失败: 审核信号提交失败: HTTP 409 Reason body"
    );
    assert_eq!(
        review_submitted(Err("refused".to_owned())).unwrap_err().text(),
        "外部服务 restate 调用失败: refused"
    );
}

#[test]
fn errors_are_answered_by_their_kind() {
    let m = || "x".to_owned();
    for (error, status, code) in [
        (AppError::Validation(m()), 400, "validation_error"),
        (AppError::NotFound(m()), 404, "not_found"),
        (AppError::Conflict(m()), 409, "conflict"),
        (AppError::Config(m()), 500, "configuration_error"),
        (AppError::external("s", m()), 502, "upstream_error"),
        (AppError::Database(m()), 500, "internal_error"),
        (AppError::Pool(m()), 500, "internal_error"),
        (AppError::Serialization(m()), 500, "internal_error"),
        (AppError::Io(m()), 500, "internal_error"),
        (AppError::Internal(m()), 500, "internal_error"),
    ] {
        let response = error_response(&error);
        assert_eq!((response.status, response.code), (status, code));
        assert_eq!(response.message, error.text());
    }
}

#[test]
fn the_web_pages_have_to_be_built() {
    assert!(validate_web_root("w/index.html", Ok(true)).is_ok());
    assert_eq!(
        validate_web_root("w/index.html", Ok(false)).unwrap_err().text(),
        "配置错误: Web 入口不是普通文件：w/index.html；请重新执行 pnpm --filter @tktkgo/web build"
    );
    assert_eq!(
        validate_web_root("w/index.html", Err("missing".to_owned())).unwrap_err().text(),
        "配置错误: Web 构建产物不存在或不可读：w/index.html；请先在项目根目录执行 pnpm --filter @tktkgo/web build：missing"
    );
}
