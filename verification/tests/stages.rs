use tktkgo_app::db::{SceneAssets, SceneRecord, VersionColumn};
use tktkgo_app::domain::{
    CaptionCue, RenderJobResult, SceneDraft, ScriptSection, ScriptSpec, StoryboardSpec, StyleBible,
    TransitionKind, VisualType,
};
use tktkgo_app::ids::Id;
use tktkgo_app::pipeline::assets::{
    GeneratedAsset, GeneratedCaptions, GeneratedSpeech, SceneEvent, SceneState,
};
use tktkgo_app::pipeline::stages::{
    checked_script, checked_storyboard, CaptionsEvent, CaptionsWork, ImageEvent, ImageWork, RenderCache, RenderEvent,
    RenderWork, ScriptEvent, ScriptWork, SpeechEvent, SpeechWork, StoryboardEvent, StoryboardWork,
};
use tktkgo_app::pipeline::task::{Progress, TaskEvent, TaskState};
use tktkgo_app::providers::{ProviderOutput, ProviderUsage};
use tktkgo_app::storage::StoredObject;
use tktkgo_app::{AppError, AppResult};

fn id(value: u128) -> Id {
    Id { value }
}

fn scene() -> SceneRecord {
    SceneRecord {
        id: id(3),
        project_id: id(1),
        project_version_id: id(2),
        sequence: 1,
        narration_text: "你好，世界。".to_owned(),
        visual_prompt: "一座山".to_owned(),
        on_screen_text: Some("你好".to_owned()),
        transition: "wipe".to_owned(),
        status: "pending".to_owned(),
        duration_ms: None,
        image_asset_id: None,
        audio_asset_id: None,
        caption_asset_id: None,
        created_at: 0,
        updated_at: 0,
    }
}

fn boom() -> AppError {
    AppError::Internal("boom".to_owned())
}

fn output<T>(value: T) -> ProviderOutput<T> {
    ProviderOutput { value, usage: ProviderUsage { latency_ms: 9, ..ProviderUsage::default() } }
}

fn object() -> StoredObject {
    StoredObject {
        key: "k".to_owned(),
        public_url: "http://a/k".to_owned(),
        byte_size: 4,
        checksum: "sum".to_owned(),
    }
}

fn script(full_narration: &str) -> ScriptSpec {
    ScriptSpec {
        title: "t".to_owned(),
        audience: String::new(),
        tone: String::new(),
        visual_style: "v".to_owned(),
        summary: "s".to_owned(),
        sections: vec![ScriptSection {
            heading: String::new(),
            purpose: String::new(),
            narration: "旁白".to_owned(),
        }],
        full_narration: full_narration.to_owned(),
    }
}

type Task = TaskState<u8, &'static str>;

fn result_text(result: AppResult<&'static str>) -> String {
    match result {
        Ok(value) => value.to_owned(),
        Err(error) => error.text(),
    }
}

#[test]
fn a_cached_value_ends_the_task_at_once() {
    let state = Task::Lookup.step(TaskEvent::Found(Ok(Some("cached"))));
    assert!(matches!(state, TaskState::Done { result: Ok("cached") }));
    let state = Task::Lookup.step(TaskEvent::Found(Err(boom())));
    assert!(matches!(state, TaskState::Done { result: Err(_) }));
}

#[test]
fn a_task_is_started_worked_and_completed() {
    let state = Task::Lookup.step(TaskEvent::Found(Ok(None)));
    let state = state.step(TaskEvent::Started(Ok(id(5)), 1));
    let state = state.step(TaskEvent::Worked(Progress::Next(2)));
    assert!(matches!(state, TaskState::Working { work: 2, .. }));
    let state = state.step(TaskEvent::Worked(Progress::Finished { value: "v", usage: None }));
    match &state {
        TaskState::Completing { task_id, value, .. } => assert_eq!((*task_id, *value), (id(5), "v")),
        _ => panic!("not completing"),
    }
    match state.step(TaskEvent::Closed(Ok(()))) {
        TaskState::Done { result } => assert_eq!(result_text(result), "v"),
        _ => panic!("not done"),
    }
}

#[test]
fn a_step_that_uses_its_work_up_leads_to_the_same() {
    let state = TaskState::<u8, &'static str>::worked(id(5), Progress::Next(3));
    assert!(matches!(state, TaskState::Working { work: 3, .. }));
    let state = TaskState::<u8, &'static str>::worked(id(5), Progress::Failed(boom()));
    assert!(matches!(state, TaskState::Failing { .. }));
}

#[test]
fn a_task_that_fails_is_closed_as_failed() {
    let working = || Task::Working { task_id: id(5), work: 1 };
    let failing = working().step(TaskEvent::Worked(Progress::Failed(boom())));
    match failing {
        TaskState::Failing { task_id, error } => {
            assert_eq!((task_id, error.text()), (id(5), "内部错误: boom".to_owned()))
        }
        _ => panic!("not failing"),
    }
    let failing = working().step(TaskEvent::Worked(Progress::Failed(boom())));
    match failing.step(TaskEvent::Closed(Ok(()))) {
        TaskState::Done { result } => assert_eq!(result_text(result), "内部错误: boom"),
        _ => panic!("not done"),
    }
}

#[test]
fn a_task_that_cannot_be_closed_reports_why() {
    let second = || AppError::NotFound("row".to_owned());
    let failing = Task::Failing { task_id: id(5), error: boom() };
    match failing.step(TaskEvent::Closed(Err(second()))) {
        TaskState::Done { result } => assert_eq!(result_text(result), "资源不存在: row"),
        _ => panic!("not done"),
    }
    let completing = Task::Completing { task_id: id(5), value: "v", usage: None };
    match completing.step(TaskEvent::Closed(Err(second()))) {
        TaskState::Done { result } => assert_eq!(result_text(result), "资源不存在: row"),
        _ => panic!("not done"),
    }
}

#[test]
fn only_a_valid_script_is_saved() {
    let good = ScriptEvent::Generated(Ok(output(script("旁白"))));
    let work = match ScriptWork::Generate.step(good) {
        Progress::Next(work) => work,
        _ => panic!("not saved"),
    };
    match work.step(ScriptEvent::Saved(Ok(()))) {
        Progress::Finished { value, usage } => {
            assert_eq!((value.full_narration, usage.unwrap().latency_ms), ("旁白".to_owned(), 9))
        }
        _ => panic!("not finished"),
    }
    let bad = ScriptEvent::Generated(Ok(output(script("别的"))));
    match ScriptWork::Generate.step(bad) {
        Progress::Failed(error) => {
            assert_eq!(error.text(), "参数错误: 文稿 sections 的口播内容与 full_narration 不一致")
        }
        _ => panic!("not failed"),
    }
}

#[test]
fn a_cached_script_is_checked_again() {
    assert!(checked_script(Ok(Some(script("旁白")))).unwrap().is_some());
    assert!(checked_script(Ok(Some(script("")))).is_err());
    assert!(checked_script(Ok(None)).unwrap().is_none());
    assert_eq!(checked_script(Err(boom())).unwrap_err().text(), "内部错误: boom");
}

fn storyboard(narration: &str) -> StoryboardSpec {
    StoryboardSpec {
        style_bible: StyleBible {
            art_direction: "a".to_owned(),
            color_palette: vec!["c".to_owned()],
            typography: String::new(),
            image_rules: vec!["r".to_owned()],
            negative_prompt: "n".to_owned(),
        },
        scenes: vec![SceneDraft {
            sequence: 1,
            narration: narration.to_owned(),
            visual_type: VisualType::Title,
            visual_prompt: "v".to_owned(),
            on_screen_text: None,
            transition: TransitionKind::Fade,
        }],
    }
}

#[test]
fn a_storyboard_is_saved_before_its_scenes() {
    let event = StoryboardEvent::Generated(Ok(output(storyboard("旁 白"))));
    let work = match StoryboardWork::Generate.step(&script("旁白"), event) {
        Progress::Next(work) => work,
        _ => panic!("not saved"),
    };
    assert!(matches!(work, StoryboardWork::Save(_)));
    let work = match work.step(&script("旁白"), StoryboardEvent::Saved(Ok(()))) {
        Progress::Next(work) => work,
        _ => panic!("scenes not stored"),
    };
    assert!(matches!(work, StoryboardWork::ReplaceScenes(_)));
    match work.step(&script("旁白"), StoryboardEvent::Replaced(Ok(()))) {
        Progress::Finished { value, .. } => assert_eq!(value.scenes.len(), 1),
        _ => panic!("not finished"),
    }
    let failed = StoryboardWork::ReplaceScenes(output(storyboard("旁白")))
        .step(&script("旁白"), StoryboardEvent::Replaced(Err(boom())));
    assert!(matches!(failed, Progress::Failed(_)));
}

#[test]
fn a_storyboard_of_another_script_is_not_saved() {
    let event = StoryboardEvent::Generated(Ok(output(storyboard("别的"))));
    match StoryboardWork::Generate.step(&script("旁白"), event) {
        Progress::Failed(error) => {
            assert_eq!(error.text(), "参数错误: 分镜口播合并后与审核文稿不一致")
        }
        _ => panic!("not failed"),
    }
    assert!(checked_storyboard(Ok(Some(storyboard("别的"))), &script("旁白")).is_err());
    assert!(checked_storyboard(Ok(Some(storyboard("旁白"))), &script("旁白")).unwrap().is_some());
    assert!(checked_storyboard(Ok(None), &script("旁白")).unwrap().is_none());
}

#[test]
fn an_illustration_is_stored_and_recorded() {
    let work = match ImageWork::Generate.step(ImageEvent::Generated(Ok(output(vec![1])))) {
        Progress::Next(work) => work,
        _ => panic!("not stored"),
    };
    let work = match work.step(ImageEvent::Stored(Ok(object()))) {
        Progress::Next(work) => work,
        _ => panic!("not recorded"),
    };
    match work.step(ImageEvent::Inserted(Ok(id(6)))) {
        Progress::Finished { value, usage } => {
            assert_eq!((value.asset_id, value.object.key), (id(6), "k".to_owned()));
            assert_eq!(usage.unwrap().latency_ms, 9);
        }
        _ => panic!("not finished"),
    }
    let failed = ImageWork::Generate.step(ImageEvent::Generated(Err(boom())));
    assert!(matches!(failed, Progress::Failed(_)));
}

#[test]
fn a_narration_is_measured_before_it_is_recorded() {
    let work = match SpeechWork::Generate.step(SpeechEvent::Generated(Ok(output(vec![1])))) {
        Progress::Next(work) => work,
        _ => panic!("not stored"),
    };
    let work = match work.step(SpeechEvent::Stored(Ok(object()))) {
        Progress::Next(work) => work,
        _ => panic!("not measured"),
    };
    assert!(matches!(work, SpeechWork::Probe { .. }));
    let work = match work.step(SpeechEvent::Probed(Ok(1234))) {
        Progress::Next(work) => work,
        _ => panic!("not recorded"),
    };
    match work.step(SpeechEvent::Inserted(Ok(id(6)))) {
        Progress::Finished { value, .. } => {
            assert_eq!((value.asset.asset_id, value.duration_ms), (id(6), 1234))
        }
        _ => panic!("not finished"),
    }
}

fn cues(end_ms: i64) -> Vec<CaptionCue> {
    vec![CaptionCue { text: "你".to_owned(), start_ms: 0, end_ms }]
}

#[test]
fn captions_that_outlast_the_narration_are_not_stored() {
    let work = match CaptionsWork::Read.step(500, CaptionsEvent::Read(Ok(vec![7]))) {
        Progress::Next(work) => work,
        _ => panic!("not aligned"),
    };
    match work.step(500, CaptionsEvent::Aligned(Ok(output(cues(1_501))))) {
        Progress::Failed(error) => {
            assert_eq!(error.text(), "参数错误: 字幕时间戳无效，错误位置 1: 0-1501ms")
        }
        _ => panic!("not failed"),
    }
}

#[test]
fn captions_are_serialized_stored_and_recorded() {
    let work = CaptionsWork::Align { audio: vec![7] };
    let work = match work.step(500, CaptionsEvent::Aligned(Ok(output(cues(1_500))))) {
        Progress::Next(work) => work,
        _ => panic!("not serialized"),
    };
    let work = match work.step(500, CaptionsEvent::Serialized(Ok(vec![91, 93]))) {
        Progress::Next(work) => work,
        _ => panic!("not stored"),
    };
    match &work {
        CaptionsWork::Store { bytes, .. } => assert_eq!(bytes, &vec![91, 93]),
        _ => panic!("not stored"),
    }
    let work = match work.step(500, CaptionsEvent::Stored(Ok(object()))) {
        Progress::Next(work) => work,
        _ => panic!("not recorded"),
    };
    match work.step(500, CaptionsEvent::Inserted(Ok(id(6)))) {
        Progress::Finished { value, .. } => assert_eq!((value.asset_id, value.cues.len()), (id(6), 1)),
        _ => panic!("not finished"),
    }
}

#[test]
fn a_rendering_closes_its_record_before_its_task() {
    let work = match RenderWork::Record.step(RenderEvent::Recorded(Ok(id(8)))) {
        Progress::Next(work) => work,
        _ => panic!("not rendered"),
    };
    let rendered = RenderJobResult {
        storage_key: "v.mp4".to_owned(),
        public_url: "http://a/v.mp4".to_owned(),
        duration_ms: 10,
    };
    let work = match work.step(RenderEvent::Rendered(Ok(rendered))) {
        Progress::Next(work) => work,
        _ => panic!("not closed"),
    };
    match work.step(RenderEvent::Closed(Ok(()))) {
        Progress::Finished { value: RenderCache { public_url }, usage } => {
            assert_eq!(public_url, "http://a/v.mp4");
            assert!(usage.is_none());
        }
        _ => panic!("not finished"),
    }
}

#[test]
fn a_failed_rendering_closes_its_record_too() {
    let work = RenderWork::Render { render_id: id(8) };
    let work = match work.step(RenderEvent::Rendered(Err(boom()))) {
        Progress::Next(work) => work,
        _ => panic!("not closed"),
    };
    assert!(matches!(work, RenderWork::Fail { .. }));
    assert!(matches!(work.step(RenderEvent::Closed(Ok(()))), Progress::Failed(_)));
    let work = RenderWork::Fail { render_id: id(8), error: boom() };
    assert!(matches!(
        RenderWork::Record.step(RenderEvent::Recorded(Err(boom()))),
        Progress::Failed(_)
    ));
}

#[test]
fn a_rendering_whose_record_stays_open_fails_its_task() {
    let rendered = RenderJobResult {
        storage_key: "v.mp4".to_owned(),
        public_url: "http://a/v.mp4".to_owned(),
        duration_ms: 10,
    };
    let lost = || AppError::NotFound("row".to_owned());
    let endings = vec![
        RenderWork::Complete { render_id: id(8), result: rendered },
        RenderWork::Fail { render_id: id(8), error: boom() },
    ];
    for work in endings {
        let progress = work.step(RenderEvent::Closed(Err(lost())));
        let failing = match TaskState::worked(id(5), progress) {
            TaskState::Failing { task_id, error } => {
                assert_eq!((task_id, error.text()), (id(5), "资源不存在: row".to_owned()));
                TaskState::<RenderWork, RenderCache>::Failing { task_id, error }
            }
            _ => panic!("not failing"),
        };
        match failing.step(TaskEvent::Closed(Ok(()))) {
            TaskState::Done { result: Err(error) } => assert_eq!(error.text(), "资源不存在: row"),
            _ => panic!("not done"),
        }
    }
}

fn asset(n: u128) -> GeneratedAsset {
    GeneratedAsset { asset_id: id(n), object: object() }
}

#[test]
fn a_scene_is_assembled_from_its_assets() {
    let s = scene();
    let state = SceneState::MarkGenerating.step(&s, SceneEvent::Marked(Ok(())));
    let speech = GeneratedSpeech { asset: asset(11), duration_ms: 1234 };
    let state = state.step(&s, SceneEvent::ImageAndSpeech(Ok(asset(10)), Ok(speech)));
    let captions = GeneratedCaptions { asset_id: id(12), object: object(), cues: cues(5) };
    let state = state.step(&s, SceneEvent::Captions(Ok(captions)));
    assert!(matches!(state, SceneState::MarkReady { .. }));
    match state.step(&s, SceneEvent::Marked(Ok(()))) {
        SceneState::Done { result: Ok(scene) } => {
            assert_eq!((scene.scene_id, scene.sequence, scene.duration_ms), (id(3), 1, 1234));
            assert_eq!(scene.transition, TransitionKind::Wipe);
            assert_eq!(scene.on_screen_text, Some("你好".to_owned()));
            assert_eq!((scene.image_url.as_str(), scene.captions.len()), ("http://a/k", 1));
        }
        _ => panic!("not done"),
    }
}

#[test]
fn the_error_of_the_illustration_counts_first() {
    let other = || AppError::Internal("other".to_owned());
    let state =
        SceneState::ImageAndSpeech.step(&scene(), SceneEvent::ImageAndSpeech(Err(boom()), Err(other())));
    match state {
        SceneState::MarkFailed { error } => assert_eq!(error.text(), "内部错误: boom"),
        _ => panic!("not failed"),
    }
    let state = SceneState::MarkFailed { error: boom() };
    match state.step(&scene(), SceneEvent::Marked(Err(other()))) {
        SceneState::Done { result } => assert_eq!(result.unwrap_err().text(), "内部错误: other"),
        _ => panic!("not done"),
    }
    let state = SceneState::MarkGenerating.step(&scene(), SceneEvent::Marked(Err(other())));
    assert!(matches!(state, SceneState::Done { result: Err(_) }));
}

#[test]
fn each_work_starts_at_its_first_step() {
    assert!(matches!(ScriptWork::first(), ScriptWork::Generate));
    assert!(matches!(StoryboardWork::first(), StoryboardWork::Generate));
    assert!(matches!(ImageWork::first(), ImageWork::Generate));
    assert!(matches!(SpeechWork::first(), SpeechWork::Generate));
    assert!(matches!(CaptionsWork::first(), CaptionsWork::Read));
    assert!(matches!(RenderWork::first(), RenderWork::Record));
}

#[test]
fn a_task_is_closed_by_what_its_state_says() {
    let failing = Task::Failing { task_id: id(5), error: boom() };
    let update = failing.failure_write().unwrap();
    assert_eq!((update.task_id, update.status), (id(5), "failed"));
    assert_eq!(update.error_message, Some("内部错误: boom".to_owned()));
    assert!(update.result.is_none());
    assert!(failing.completion_write("{}".to_owned(), None).is_none());
    let completing = Task::Completing { task_id: id(5), value: "v", usage: None };
    assert!(completing.failure_write().is_none());
    let update = completing.completion_write("{}".to_owned(), Some("u".to_owned())).unwrap();
    let result = update.result.unwrap();
    assert_eq!((update.task_id, update.status, update.error_message), (id(5), "succeeded", None));
    assert_eq!((result.output.as_str(), result.usage), ("{}", Some("u".to_owned())));
    assert!(Task::Start.failure_write().is_none());
}

#[test]
fn a_scene_is_written_in_each_of_its_states() {
    let s = scene();
    let update = SceneState::MarkGenerating.scene_write(&s).unwrap();
    assert_eq!((update.scene_id, update.status, update.ready), (id(3), "generating", None));
    assert!(SceneState::ImageAndSpeech.scene_write(&s).is_none());
    let ready = SceneState::MarkReady {
        image: asset(10),
        speech: GeneratedSpeech { asset: asset(11), duration_ms: 1234 },
        captions: GeneratedCaptions { asset_id: id(12), object: object(), cues: cues(5) },
    };
    let update = ready.scene_write(&s).unwrap();
    assert_eq!((update.scene_id, update.status), (id(3), "ready"));
    assert_eq!(
        update.ready,
        Some(SceneAssets { duration_ms: 1234, image_id: id(10), audio_id: id(11), caption_id: id(12) })
    );
    let update = SceneState::MarkFailed { error: boom() }.scene_write(&s).unwrap();
    assert_eq!((update.scene_id, update.status, update.ready), (id(3), "failed", None));
}

#[test]
fn a_rendering_is_closed_by_what_its_state_says() {
    let result = RenderJobResult {
        storage_key: "v.mp4".to_owned(),
        public_url: "http://a/v.mp4".to_owned(),
        duration_ms: 10,
    };
    let update = RenderWork::Complete { render_id: id(8), result }.record_write().unwrap();
    let video = update.video.unwrap();
    assert_eq!((update.render_id, update.status, update.error_message), (id(8), "completed", None));
    assert_eq!(
        (video.storage_key.as_str(), video.public_url.as_str(), video.duration_ms),
        ("v.mp4", "http://a/v.mp4", 10)
    );
    let update = RenderWork::Fail { render_id: id(8), error: boom() }.record_write().unwrap();
    assert_eq!((update.status, update.error_message), ("failed", Some("内部错误: boom".to_owned())));
    assert!(update.video.is_none() && RenderWork::Record.record_write().is_none());
}

#[test]
fn texts_are_saved_under_their_version() {
    let work = ScriptWork::Save(output(script("旁白")));
    let update = work.checkpoint_write(id(2), "{}".to_owned()).unwrap();
    assert_eq!((update.version_id, update.column, update.value.as_str()), (id(2), VersionColumn::Script, "{}"));
    assert!(ScriptWork::Generate.checkpoint_write(id(2), String::new()).is_none());
    let work = StoryboardWork::Save(output(storyboard("旁白")));
    let update = work.checkpoint_write(id(2), "{}".to_owned()).unwrap();
    assert_eq!((update.version_id, update.column), (id(2), VersionColumn::Storyboard));
    assert!(work.scenes_write(id(1), id(2)).is_none());
    let work = StoryboardWork::ReplaceScenes(output(storyboard("旁白")));
    let replacement = work.scenes_write(id(1), id(2)).unwrap();
    assert_eq!((replacement.version_id, replacement.rows.len()), (id(2), storyboard("旁白").scenes.len()));
}

/// Runs the task of a script on what was found under its key and what the model gives.
fn run_script(found: Option<ScriptSpec>, given: ScriptSpec) -> AppResult<ScriptSpec> {
    let mut state: TaskState<ScriptWork, ScriptSpec> =
        TaskState::Lookup.step(TaskEvent::Found(checked_script(Ok(found))));
    loop {
        state = match state {
            TaskState::Start => state.step(TaskEvent::Started(Ok(id(5)), ScriptWork::first())),
            TaskState::Working { task_id, work } => {
                let event = match &work {
                    ScriptWork::Generate => ScriptEvent::Generated(Ok(output(given.clone()))),
                    ScriptWork::Save(_) => ScriptEvent::Saved(Ok(())),
                };
                TaskState::worked(task_id, work.step(event))
            }
            TaskState::Done { result } => return result,
            closing => closing.step(TaskEvent::Closed(Ok(()))),
        };
    }
}

#[test]
fn only_a_valid_script_is_handed_out() {
    let good = || script("旁白");
    let bad = || script("别的");
    assert!(run_script(None, good()).is_ok());
    assert!(run_script(None, bad()).is_err());
    assert!(run_script(Some(good()), bad()).is_ok());
    assert!(run_script(Some(bad()), good()).is_err());
}
