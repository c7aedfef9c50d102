use tktkgo_app::db::{
    new_project, new_scene, resting_statuses, NewGenerationTask, NewRender, ProjectGuard, Repository, SceneAssets, VersionColumn, WorkflowChange,
};
use tktkgo_app::domain::{
    AspectRatio, CreateProjectRequest, GenerationJob, Project, SceneDraft, TransitionKind, VisualType,
};
use tktkgo_app::ids::Id;
use tktkgo_app::AppResult;

fn id(value: u128) -> Id {
    Id { value }
}

fn project() -> Project {
    Project {
        id: id(1),
        title: "标题".to_owned(),
        source_text: "大纲".to_owned(),
        language: "zh-CN".to_owned(),
        aspect_ratio: "9:16".to_owned(),
        target_duration_seconds: 60,
        text_provider: "openai".to_owned(),
        text_model: "gpt".to_owned(),
        image_provider: "pic2api".to_owned(),
        image_model: "gpt-image-2".to_owned(),
        voice: "coral".to_owned(),
        speech_provider: "cosyvoice".to_owned(),
        speech_model: "cosy3".to_owned(),
        transcription_provider: "faster-whisper".to_owned(),
        transcription_model: "large-v3".to_owned(),
        require_script_review: true,
        status: "queued".to_owned(),
        active_workflow_id: Some(id(7)),
        current_version: 2,
        error_message: None,
        created_at: 0,
        updated_at: 0,
    }
}

const ONE: &str = "00000000-0000-0000-0000-000000000001";
const SEVEN: &str = "00000000-0000-0000-0000-000000000007";

fn request() -> CreateProjectRequest {
    CreateProjectRequest {
        title: " 量子 ".to_owned(),
        source_text: "\n大纲".to_owned(),
        language: "zh-CN".to_owned(),
        aspect_ratio: AspectRatio::Square,
        target_duration_seconds: 60,
        text_provider: "openai".to_owned(),
        text_model: "gpt".to_owned(),
        image_provider: "pic2api".to_owned(),
        image_model: "gpt-image-2".to_owned(),
        voice: "coral".to_owned(),
        speech_provider: "openai".to_owned(),
        speech_model: "tts".to_owned(),
        transcription_provider: "openai".to_owned(),
        transcription_model: "whisper-1".to_owned(),
        require_script_review: false,
        auto_start: true,
    }
}

fn message<T: std::fmt::Debug>(result: AppResult<T>) -> String {
    result.unwrap_err().text()
}

#[test]
fn a_project_is_stored_trimmed() {
    let row = new_project(id(1), &request());
    assert_eq!((row.title.as_str(), row.source_text.as_str()), ("量子", "大纲"));
    assert_eq!((row.aspect_ratio, row.target_duration_seconds), ("1:1", 60));
    assert_eq!((row.image_provider.as_str(), row.transcription_model.as_str()), ("pic2api", "whisper-1"));
    assert!(!row.require_script_review);
    let created = Repository::create_project(&request()).unwrap();
    assert_eq!(created.title, "量子");
    let mut bad = request();
    bad.title = String::new();
    assert_eq!(message(Repository::create_project(&bad)), "参数错误: 标题必须为 1 到 200 个字符");
}

#[test]
fn a_missing_project_is_named() {
    assert_eq!(Repository::get_project(id(1), Some(project())).unwrap().title, "标题");
    assert_eq!(message(Repository::get_project(id(1), None)), format!("资源不存在: 项目 {ONE}"));
}

#[test]
fn a_status_is_bound_to_the_active_workflow() {
    let update = Repository::update_project_status(id(1), id(7), "rendering", None);
    assert_eq!(update.guard, ProjectGuard::ActiveWorkflow(id(7)));
    assert_eq!((update.status.as_str(), update.workflow), ("rendering", WorkflowChange::Keep));
    assert!(Repository::status_written(id(1), id(7), 1).is_ok());
    assert_eq!(
        message(Repository::status_written(id(1), id(7), 0)),
        format!("当前状态不允许执行该操作: 工作流 {SEVEN} 已不是项目 {ONE} 的活动工作流")
    );
}

#[test]
fn only_a_project_at_rest_is_queued() {
    let update = Repository::queue_project(id(1), id(7));
    assert_eq!((update.guard, update.workflow), (ProjectGuard::AtRest, WorkflowChange::Activate(id(7))));
    assert_eq!((update.status.as_str(), update.error_message), ("queued", None));
    assert!(Repository::project_queued(id(1), 1, Ok(project())).is_ok());
    assert_eq!(
        message(Repository::project_queued(id(1), 0, Ok(project()))),
        format!("当前状态不允许执行该操作: 项目 {ONE} 当前状态为 queued，不能重复启动")
    );
    let gone = Repository::get_project(id(1), None);
    assert_eq!(message(Repository::project_queued(id(1), 0, gone)), format!("资源不存在: 项目 {ONE}"));
}

#[test]
fn a_project_comes_to_rest_without_workflow() {
    assert_eq!(resting_statuses(), vec!["draft", "failed", "completed"]);
    for status in resting_statuses() {
        let update = Repository::finalize_project(id(1), id(7), status, None).unwrap();
        assert_eq!((update.status.as_str(), update.workflow), (status, WorkflowChange::Clear));
    }
    assert_eq!(
        message(Repository::finalize_project(id(1), id(7), "queued", None)),
        "内部错误: queued 不是项目终态"
    );
}

#[test]
fn checkpoints_go_to_their_columns() {
    let update = Repository::save_script(id(2), "{}".to_owned());
    assert_eq!((update.version_id, update.column, update.value.as_str()), (id(2), VersionColumn::Script, "{}"));
    assert_eq!(Repository::save_storyboard(id(2), String::new()).column, VersionColumn::Storyboard);
    assert_eq!(Repository::save_render_spec(id(2), String::new()).column, VersionColumn::Render);
    assert!(Repository::version_saved(id(1), 1).is_ok());
    assert_eq!(message(Repository::version_saved(id(1), 0)), format!("资源不存在: 项目版本 {ONE}"));
}

fn draft(sequence: i32) -> SceneDraft {
    SceneDraft {
        sequence,
        narration: format!("n{sequence}"),
        visual_type: VisualType::Quote,
        visual_prompt: "v".to_owned(),
        on_screen_text: Some("t".to_owned()),
        transition: TransitionKind::Absent,
    }
}

#[test]
fn drafts_become_scenes() {
    let row = new_scene(id(3), id(1), id(2), &draft(4));
    assert_eq!((row.id, row.project_id, row.project_version_id), (id(3), id(1), id(2)));
    assert_eq!((row.sequence, row.narration_text.as_str(), row.transition), (4, "n4", "none"));
    assert_eq!(row.on_screen_text, Some("t".to_owned()));
    let replacement = Repository::replace_scenes(id(1), id(2), &vec![draft(1), draft(2)]);
    assert_eq!(replacement.version_id, id(2));
    let rows = replacement.rows;
    assert_eq!(rows.iter().map(|r| r.sequence).collect::<Vec<i32>>(), vec![1, 2]);
    assert_ne!(rows[0].id, rows[1].id);
}

#[test]
fn a_replacement_by_nothing_still_names_its_version() {
    let replacement = Repository::replace_scenes(id(1), id(2), &Vec::new());
    assert_eq!((replacement.version_id, replacement.rows.len()), (id(2), 0));
}

#[test]
fn scenes_are_restored_where_they_are_not_complete() {
    let drafts = vec![draft(1), draft(2)];
    assert!(Repository::scenes_to_restore(2, id(1), id(2), &drafts).is_none());
    for stored in [0, 1, 3] {
        let restored = Repository::scenes_to_restore(stored, id(1), id(2), &drafts).unwrap();
        assert_eq!((restored.version_id, restored.rows.len()), (id(2), 2));
        assert_eq!((restored.rows[1].project_id, restored.rows[1].sequence), (id(1), 2));
    }
    assert!(Repository::scenes_to_restore(0, id(1), id(2), &Vec::new()).is_none());
}

#[test]
fn jobs_are_queued_and_found() {
    let job = Repository::queued_job(id(1), id(7), id(8));
    assert_eq!((job.id, job.project_id, job.workflow_id), (id(8), id(1), id(7)));
    assert_eq!((job.status, job.stage, job.resumable), ("queued", "queued", false));
    let found = GenerationJob {
        id: id(1),
        project_id: id(1),
        workflow_id: id(7),
        project_version_id: None,
    };
    assert_eq!(Repository::get_generation_job(id(1), Some(found)).unwrap().workflow_id, id(7));
    let missing = Repository::get_generation_job(id(1), None).unwrap_err().text();
    assert_eq!(missing, format!("资源不存在: 生成作业 {ONE}"));
    assert!(Repository::job_version_written(id(1), 1).is_ok());
    assert_eq!(message(Repository::job_version_written(id(1), 0)), missing);
    let missing = Repository::get_project_version(id(1), None).unwrap_err().text();
    assert_eq!(missing, format!("资源不存在: 项目版本 {ONE}"));
}

#[test]
fn a_version_is_created_under_its_number() {
    let creation = Repository::create_project_version(id(1), id(2), 3);
    assert_eq!((creation.project_id, creation.id, creation.version), (id(1), id(2), 3));
}

#[test]
fn what_is_started_again_runs() {
    let task = NewGenerationTask {
        id: id(5),
        workflow_id: id(9),
        project_id: id(1),
        project_version_id: Some(id(2)),
        scene_id: None,
        stage: "script",
        status: "running",
        attempt: 1,
        idempotency_key: "key".to_owned(),
        provider: None,
        model: None,
    };
    let start = Repository::start_task(task);
    assert_eq!((start.row.id, start.row.idempotency_key.as_str()), (id(5), "key"));
    assert_eq!((start.row.status, start.restarted_status), ("running", "running"));
    let render = NewRender {
        id: id(6),
        project_id: id(1),
        project_version_id: id(2),
        workflow_id: id(9),
        status: "rendering",
        render_spec_hash: "digest".to_owned(),
        width: 1080,
        height: 1920,
        fps: 30,
    };
    let start = Repository::start_render(render);
    assert_eq!((start.row.id, start.row.render_spec_hash.as_str()), (id(6), "digest"));
    assert_eq!((start.row.status, start.restarted_status), ("rendering", "rendering"));
}

#[test]
fn tasks_are_closed_with_what_they_made() {
    let done = Repository::complete_task(id(5), "{}".to_owned(), Some("u".to_owned()));
    let result = done.result.unwrap();
    assert_eq!((done.status, result.output.as_str(), result.usage), ("succeeded", "{}", Some("u".to_owned())));
    let failed = Repository::fail_task(id(5), "why".to_owned());
    assert_eq!((failed.status, failed.error_message), ("failed", Some("why".to_owned())));
    assert!(failed.result.is_none());
    assert!(Repository::task_written(id(1), 1).is_ok());
    assert_eq!(message(Repository::task_written(id(1), 0)), format!("资源不存在: 生成任务 {ONE}"));
}

#[test]
fn scenes_are_marked() {
    let generating = Repository::mark_scene_generating(id(1));
    assert_eq!((generating.status, generating.ready), ("generating", None));
    let failed = Repository::mark_scene_failed(id(1));
    assert_eq!(failed.status, "failed");
    assert_eq!(message(Repository::scene_written(&failed, 0)), format!("资源不存在: 场景 {ONE}"));
    let ready = Repository::mark_scene_ready(id(1), 1234, id(10), id(11), id(12));
    assert_eq!(
        (ready.status, ready.ready),
        (
            "ready",
            Some(SceneAssets { duration_ms: 1234, image_id: id(10), audio_id: id(11), caption_id: id(12) })
        )
    );
    assert!(Repository::scene_written(&ready, 0).is_ok());
}

#[test]
fn renderings_are_closed() {
    let done = Repository::complete_render(id(1), "k".to_owned(), "u".to_owned(), 9);
    let video = done.video.unwrap();
    assert_eq!((done.status, video.storage_key.as_str(), video.duration_ms), ("completed", "k", 9));
    let failed = Repository::fail_render(id(1), "why".to_owned());
    assert_eq!((failed.status, failed.error_message), ("failed", Some("why".to_owned())));
    assert_eq!(message(Repository::render_written(id(1), 0)), format!("资源不存在: 渲染记录 {ONE}"));
    assert!(Repository::render_written(id(1), 2).is_ok());
}
