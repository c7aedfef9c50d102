use tktkgo_app::db::{JobVersion, ProjectGuard, VersionColumn, WorkflowChange};
use tktkgo_app::domain::{
    GenerationJob, Project, ProjectVersion, RenderSpec, ScriptReviewInput, ScriptSpec,
    StoryboardSpec, StyleBible, WorkflowInput,
};
use tktkgo_app::ids::Id;
use tktkgo_app::workflow::status::{
    database_retry, external_retry, next_version, render_retry, review_status, RetryPolicy,
};
use tktkgo_app::workflow::{
    workflow_id_of, Run, Terminal, WorkflowEvent, WorkflowState,
};

fn id(value: u128) -> Id {
    Id { value }
}

fn project() -> Project {
    Project {
        id: id(1),
        title: "标题".to_owned(),
        source_text: "大纲".to_owned(),
        language: "zh-CN".to_owned(),
        aspect_ratio: "9:16".to_owned(),
        target_duration_seconds: 60,
        text_provider: "openai".to_owned(),
        text_model: "gpt".to_owned(),
        image_provider: "pic2api".to_owned(),
        image_model: "gpt-image-2".to_owned(),
        voice: "coral".to_owned(),
        speech_provider: "cosyvoice".to_owned(),
        speech_model: "cosy3".to_owned(),
        transcription_provider: "faster-whisper".to_owned(),
        transcription_model: "large-v3".to_owned(),
        require_script_review: true,
        status: "queued".to_owned(),
        active_workflow_id: Some(id(7)),
        current_version: 2,
        error_message: None,
        created_at: 0,
        updated_at: 0,
    }
}

fn version() -> ProjectVersion {
    ProjectVersion {
        id: id(2),
        project_id: id(1),
        version: 2,
        script_spec: None,
        storyboard_spec: None,
        render_spec: None,
        script_review_status: "pending".to_owned(),
        created_at: 0,
        updated_at: 0,
    }
}

fn new_input() -> WorkflowInput {
    WorkflowInput { project_id: id(1), job_id: id(8), resume_version_id: None }
}

fn resume_input() -> WorkflowInput {
    WorkflowInput { resume_version_id: Some(id(2)), ..new_input() }
}

fn job(version: Option<Id>) -> GenerationJob {
    GenerationJob { id: id(8), project_id: id(1), workflow_id: id(7), project_version_id: version }
}

fn script() -> ScriptSpec {
    ScriptSpec {
        title: String::new(),
        audience: String::new(),
        tone: String::new(),
        visual_style: String::new(),
        summary: String::new(),
        sections: Vec::new(),
        full_narration: String::new(),
    }
}

fn storyboard() -> StoryboardSpec {
    StoryboardSpec {
        style_bible: StyleBible {
            art_direction: String::new(),
            color_palette: Vec::new(),
            typography: String::new(),
            image_rules: Vec::new(),
            negative_prompt: String::new(),
        },
        scenes: Vec::new(),
    }
}

fn spec() -> RenderSpec {
    RenderSpec {
        project_id: id(1),
        version: 2,
        width: 1,
        height: 1,
        fps: 30,
        background_color: String::new(),
        scenes: Vec::new(),
    }
}

fn cause() -> Terminal {
    Terminal { code: 503, message: "busy".to_owned() }
}

fn written() -> WorkflowEvent {
    WorkflowEvent::Written(Ok(()))
}

fn go(state: WorkflowState, input: &WorkflowInput, event: WorkflowEvent) -> WorkflowState {
    state.step(id(7), input, event)
}

fn error_of(state: WorkflowState) -> (u16, String) {
    match state {
        WorkflowState::Done { result: Err(error) } => (error.code, error.message),
        _ => panic!("not ended with an error"),
    }
}

fn status_of(state: &WorkflowState) -> &'static str {
    state.status_write(id(7), &new_input()).unwrap().project_status
}

fn run_of(version: ProjectVersion) -> Run {
    Run { project: project(), version }
}

#[test]
fn only_the_active_workflow_is_let_in() {
    let state = go(WorkflowState::LoadProject, &new_input(), WorkflowEvent::Project(Ok(project())));
    assert!(matches!(state, WorkflowState::LoadJob { .. }));
    let mut other = project();
    other.active_workflow_id = Some(id(6));
    let state = go(WorkflowState::LoadProject, &new_input(), WorkflowEvent::Project(Ok(other)));
    assert_eq!(error_of(state), (409, "工作流不是项目当前活动工作流".to_owned()));
    let mut none = project();
    none.active_workflow_id = None;
    let state = go(WorkflowState::LoadProject, &new_input(), WorkflowEvent::Project(Ok(none)));
    assert_eq!(error_of(state).0, 409);
}

#[test]
fn the_job_has_to_match() {
    let load = || WorkflowState::LoadJob { project: project() };
    let mut other = job(None);
    other.workflow_id = id(6);
    let state = go(load(), &new_input(), WorkflowEvent::Job(Ok(other)));
    assert_eq!(error_of(state), (409, "生成任务与项目当前 Workflow 不匹配".to_owned()));
    let state = go(load(), &resume_input(), WorkflowEvent::Job(Ok(job(None))));
    assert_eq!(error_of(state), (409, "继续版本与生成任务绑定版本不一致".to_owned()));
    let state = go(load(), &resume_input(), WorkflowEvent::Job(Ok(job(Some(id(2))))));
    assert!(matches!(state, WorkflowState::LoadVersion { .. }));
    let state = go(load(), &new_input(), WorkflowEvent::Job(Ok(job(None))));
    assert!(matches!(state, WorkflowState::MarkNew { .. }));
    let state = go(load(), &new_input(), WorkflowEvent::Job(Err(cause())));
    assert_eq!(error_of(state), (503, "busy".to_owned()));
}

#[test]
fn only_the_current_version_is_continued() {
    let load = || WorkflowState::LoadVersion { project: project(), version_id: id(2) };
    let mut old = version();
    old.version = 1;
    let state = go(load(), &resume_input(), WorkflowEvent::Version(Ok(old)));
    assert_eq!(error_of(state), (409, "只能继续项目当前版本".to_owned()));
    let state = go(load(), &resume_input(), WorkflowEvent::Version(Ok(version())));
    assert!(matches!(state, WorkflowState::MarkScript { .. }));
}

#[test]
fn a_new_version_is_created_and_attached() {
    let state = WorkflowState::MarkNew { project: project() };
    assert_eq!(status_of(&state), "generating_script");
    let state = go(state, &new_input(), written());
    assert!(matches!(state, WorkflowState::CreateVersion { .. }));
    assert_eq!(next_version(&project()), 3);
    let state = go(state, &new_input(), WorkflowEvent::Created(id(20), Ok(version())));
    match &state {
        WorkflowState::AttachVersion { run, version_id } => {
            assert_eq!((run.version.id, *version_id), (id(2), id(20)))
        }
        _ => panic!("not attached"),
    }
    assert!(matches!(go(state, &new_input(), written()), WorkflowState::MarkScript { .. }));
}

#[test]
fn a_render_specification_spares_everything_before_it() {
    let mut v = version();
    v.render_spec = Some("{}".to_owned());
    v.storyboard_spec = Some("{}".to_owned());
    let load = WorkflowState::LoadVersion { project: project(), version_id: id(2) };
    let state = go(load, &resume_input(), WorkflowEvent::Version(Ok(v)));
    assert_eq!(status_of(&state), "building_timeline");
    let state = go(state, &resume_input(), written());
    assert!(matches!(state, WorkflowState::DecodeRenderSpec { .. }));
    let state = go(state, &resume_input(), WorkflowEvent::RenderSpecDecoded(Ok(spec())));
    assert_eq!(status_of(&state), "rendering");
    let state = go(state, &resume_input(), written());
    let state = go(state, &resume_input(), WorkflowEvent::Rendered(Ok("http://v".to_owned())));
    let write = state.status_write(id(7), &resume_input()).unwrap();
    assert_eq!((write.project_status, write.job_status, write.stage), ("completed", "completed", "completed"));
    assert!(write.terminal && !write.resumable);
    match go(state, &resume_input(), written()) {
        WorkflowState::Done { result: Ok(result) } => {
            assert_eq!((result.project_id, result.version, result.outcome), (id(1), 2, "completed"));
            assert_eq!(result.render_url, Some("http://v".to_owned()));
        }
        _ => panic!("not completed"),
    }
}

#[test]
fn a_storyboard_spares_the_script() {
    let mut v = version();
    v.storyboard_spec = Some("{}".to_owned());
    let load = WorkflowState::LoadVersion { project: project(), version_id: id(2) };
    let state = go(load, &resume_input(), WorkflowEvent::Version(Ok(v)));
    assert!(matches!(state, WorkflowState::DecodeStoryboard { .. }));
    let state = go(state, &resume_input(), WorkflowEvent::StoryboardDecoded(Ok(storyboard())));
    assert_eq!(status_of(&state), "generating_assets");
}

#[test]
fn a_checkpoint_that_cannot_be_read_ends_the_workflow() {
    let bad = || "eof".to_owned();
    let state = WorkflowState::DecodeRenderSpec { run: run_of(version()) };
    let state = go(state, &new_input(), WorkflowEvent::RenderSpecDecoded(Err(bad())));
    assert_eq!(error_of(state), (500, "render_spec 检查点无法反序列化: eof".to_owned()));
    let state = WorkflowState::DecodeStoryboard { run: run_of(version()) };
    let state = go(state, &new_input(), WorkflowEvent::StoryboardDecoded(Err(bad())));
    assert_eq!(error_of(state), (500, "storyboard_spec 检查点无法反序列化: eof".to_owned()));
    let state = WorkflowState::DecodeScript { run: run_of(version()) };
    let state = go(state, &new_input(), WorkflowEvent::ScriptDecoded(Err(bad())));
    assert_eq!(error_of(state), (500, "script_spec 检查点无法反序列化: eof".to_owned()));
}

#[test]
fn a_script_checkpoint_spares_the_model() {
    let mut v = version();
    v.script_spec = Some("{}".to_owned());
    let state = go(WorkflowState::MarkScript { run: run_of(v) }, &new_input(), written());
    assert!(matches!(state, WorkflowState::DecodeScript { .. }));
    let state = go(WorkflowState::MarkScript { run: run_of(version()) }, &new_input(), written());
    assert!(matches!(state, WorkflowState::GenerateScript { .. }));
}

#[test]
fn a_script_waits_for_its_review() {
    let state = WorkflowState::GenerateScript { run: run_of(version()) };
    let state = go(state, &new_input(), WorkflowEvent::Script(Ok(script())));
    assert_eq!(status_of(&state), "waiting_script_review");
    let state = go(state, &new_input(), written());
    assert!(matches!(state, WorkflowState::AwaitReview { .. }));
    let approved = ScriptReviewInput { approved: true, feedback: None };
    let state = go(state, &new_input(), WorkflowEvent::Review(Ok(approved)));
    let state = go(state, &new_input(), written());
    assert_eq!(status_of(&state), "generating_storyboard");
}

#[test]
fn a_review_leaves_a_status() {
    assert_eq!((review_status(true), review_status(false)), ("approved", "rejected"));
    for (approved, waits) in [(true, false), (false, true)] {
        let mut v = version();
        v.script_review_status = review_status(approved).to_owned();
        let state = WorkflowState::DecodeScript { run: run_of(v) };
        let state = go(state, &resume_input(), WorkflowEvent::ScriptDecoded(Ok(script())));
        assert_eq!(matches!(state, WorkflowState::MarkWaiting { .. }), waits);
    }
}

#[test]
fn an_approved_or_unreviewed_script_goes_on() {
    let mut approved = version();
    approved.script_review_status = "approved".to_owned();
    let state = WorkflowState::GenerateScript { run: run_of(approved) };
    let state = go(state, &new_input(), WorkflowEvent::Script(Ok(script())));
    assert!(matches!(state, WorkflowState::MarkStoryboard { .. }));
    let mut unreviewed = run_of(version());
    unreviewed.project.require_script_review = false;
    let state = WorkflowState::DecodeScript { run: unreviewed };
    let state = go(state, &new_input(), WorkflowEvent::ScriptDecoded(Ok(script())));
    assert!(matches!(state, WorkflowState::MarkStoryboard { .. }));
}

#[test]
fn a_rejected_script_ends_without_a_video() {
    for (feedback, reason) in [(Some("太长".to_owned()), "太长"), (None, "脚本审核未通过")] {
        let state = WorkflowState::SaveReview {
            run: run_of(version()),
            script: script(),
            review: ScriptReviewInput { approved: false, feedback },
        };
        let state = go(state, &new_input(), written());
        let write = state.status_write(id(7), &new_input()).unwrap();
        assert_eq!((write.project_status, write.job_status, write.stage), ("draft", "rejected", "script_review"));
        assert_eq!(write.error_message, Some(reason.to_owned()));
        let update = write.project_update();
        assert_eq!((update.guard, update.workflow), (ProjectGuard::ActiveWorkflow(id(7)), WorkflowChange::Clear));
        match go(state, &new_input(), written()) {
            WorkflowState::Done { result: Ok(result) } => {
                assert_eq!((result.outcome, result.render_url), ("script_rejected", None))
            }
            _ => panic!("not rejected"),
        }
    }
}

#[test]
fn a_failed_stage_is_recorded_and_can_be_continued() {
    let run = || run_of(version());
    let failures = vec![
        (WorkflowState::GenerateScript { run: run() }, WorkflowEvent::Script(Err(cause())), "script"),
        (
            WorkflowState::GenerateStoryboard { run: run(), script: script() },
            WorkflowEvent::Storyboard(Err(cause())),
            "storyboard",
        ),
        (
            WorkflowState::GenerateAssets { run: run(), storyboard: storyboard(), scenes: Vec::new() },
            WorkflowEvent::Assets(Err(cause())),
            "assets",
        ),
        (
            WorkflowState::RenderVideo { run: run(), spec: spec() },
            WorkflowEvent::Rendered(Err(cause())),
            "render",
        ),
    ];
    for (state, event, stage) in failures {
        let state = go(state, &new_input(), event);
        let write = state.status_write(id(7), &new_input()).unwrap();
        assert_eq!((write.project_status, write.job_status, write.stage), ("failed", "failed", stage));
        assert_eq!(write.error_code, Some("503".to_owned()));
        assert_eq!(write.error_message, Some("Terminal error [503]: busy".to_owned()));
        assert!(write.resumable && write.terminal);
        let state = go(state, &new_input(), written());
        assert_eq!(error_of(state), (503, "Terminal error [503]: busy".to_owned()));
    }
}

#[test]
fn assets_become_a_timeline_that_is_saved() {
    let state = WorkflowState::MarkAssets { run: run_of(version()), storyboard: storyboard() };
    let state = go(state, &new_input(), written());
    let state = go(state, &new_input(), WorkflowEvent::Scenes(Ok(Vec::new())));
    let state = go(state, &new_input(), WorkflowEvent::Assets(Ok(Vec::new())));
    assert_eq!(status_of(&state), "building_timeline");
    let state = go(state, &new_input(), written());
    match &state {
        WorkflowState::SaveRenderSpec { spec, .. } => {
            assert_eq!((spec.project_id, spec.version, spec.width, spec.height), (id(1), 2, 1080, 1920))
        }
        _ => panic!("not saved"),
    }
    assert!(state.status_write(id(7), &new_input()).is_none());
    assert!(matches!(go(state, &new_input(), written()), WorkflowState::MarkRendering { .. }));
}

#[test]
fn a_write_that_fails_ends_the_workflow() {
    let state = WorkflowState::MarkStoryboard { run: run_of(version()), script: script() };
    let state = go(state, &new_input(), WorkflowEvent::Written(Err(cause())));
    assert_eq!(error_of(state), (503, "busy".to_owned()));
}

#[test]
fn progress_keeps_the_workflow_active() {
    let state = WorkflowState::MarkScript { run: run_of(version()) };
    let write = state.status_write(id(7), &new_input()).unwrap();
    assert_eq!((write.job_id, write.job_status, write.stage), (id(8), "generating_script", "generating_script"));
    assert_eq!((write.error_code.clone(), write.error_message.clone()), (None, None));
    assert_eq!(write.project_update().workflow, WorkflowChange::Keep);
}

#[test]
fn the_key_of_a_workflow_is_its_identifier() {
    assert_eq!(workflow_id_of("00000000-0000-0000-0000-000000000007").unwrap(), id(7));
    let error = workflow_id_of("seven").unwrap_err();
    assert_eq!(error.code, 500);
    assert_eq!(error.message, uuid::Uuid::parse_str("seven").unwrap_err().to_string());
}

#[test]
fn steps_are_retried_within_limits() {
    let policy = |initial_delay_ms, max_delay_ms, max_attempts, max_duration_ms| RetryPolicy {
        initial_delay_ms,
        factor: 2,
        max_delay_ms,
        max_attempts,
        max_duration_ms,
    };
    assert_eq!(database_retry(), policy(200, 5_000, 8, 60_000));
    assert_eq!(external_retry(), policy(1_000, 30_000, 5, 20 * 60_000));
    assert_eq!(render_retry(), policy(2_000, 60_000, 3, 45 * 60_000));
}

#[test]
fn each_state_says_what_it_writes() {
    let creating = WorkflowState::CreateVersion { project: project() };
    let creation = creating.version_write(&new_input(), id(5)).unwrap();
    assert_eq!((creation.id, creation.project_id, creation.version), (id(5), id(1), 3));
    let mut last = project();
    last.current_version = i32::MAX;
    assert!(WorkflowState::CreateVersion { project: last }.version_write(&new_input(), id(5)).is_none());
    let attaching = WorkflowState::AttachVersion { run: run_of(version()), version_id: id(5) };
    assert_eq!(
        attaching.attach_write(id(7), &new_input()),
        Some(JobVersion { job_id: id(8), workflow_id: id(7), version_id: id(5) })
    );
    let review = ScriptReviewInput { approved: false, feedback: Some("短".to_owned()) };
    let reviewed = WorkflowState::SaveReview { run: run_of(version()), script: script(), review };
    let update = reviewed.review_write().unwrap();
    assert_eq!((update.version_id, update.status), (id(2), "rejected"));
    assert_eq!(update.feedback, Some("短".to_owned()));
    let saving = WorkflowState::SaveRenderSpec { run: run_of(version()), spec: spec() };
    let update = saving.render_spec_write("{}".to_owned()).unwrap();
    assert_eq!((update.version_id, update.column, update.value.as_str()), (id(2), VersionColumn::Render, "{}"));
    assert!(creating.attach_write(id(7), &new_input()).is_none());
    assert!(creating.review_write().is_none() && creating.render_spec_write(String::new()).is_none());
    assert!(saving.version_write(&new_input(), id(5)).is_none());
}

#[test]
fn a_failure_is_written_of_the_job_too() {
    let failing = WorkflowState::GenerateScript { run: run_of(version()) };
    let state = go(failing, &new_input(), WorkflowEvent::Script(Err(cause())));
    let job = state.status_write(id(7), &new_input()).unwrap().job_update();
    assert_eq!((job.job_id, job.status, job.stage, job.resumable), (id(8), "failed", "script", true));
    assert_eq!(job.error_code, Some(cause().code.to_string()));
}
