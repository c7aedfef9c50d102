use tktkgo_app::db::SceneRecord;
use tktkgo_app::domain::{AspectRatio, CaptionCue, Project, ProjectVersion, TransitionKind};
use tktkgo_app::ids::Id;
use tktkgo_app::pipeline::scenes::{sort_by_sequence, SceneBatch, SceneOutcome};
use tktkgo_app::pipeline::timeline::{
    can_place, parse_transition, render_dimensions, render_spec, GeneratedScene,
};
use tktkgo_app::AppError;

fn id(value: u128) -> Id {
    Id { value }
}

fn project() -> Project {
    Project {
        id: id(1),
        title: "标题".to_owned(),
        source_text: "大纲".to_owned(),
        language: "zh-CN".to_owned(),
        aspect_ratio: "9:16".to_owned(),
        target_duration_seconds: 60,
        text_provider: "openai".to_owned(),
        text_model: "gpt".to_owned(),
        image_provider: "pic2api".to_owned(),
        image_model: "gpt-image-2".to_owned(),
        voice: "coral".to_owned(),
        speech_provider: "cosyvoice".to_owned(),
        speech_model: "cosy3".to_owned(),
        transcription_provider: "faster-whisper".to_owned(),
        transcription_model: "large-v3".to_owned(),
        require_script_review: true,
        status: "queued".to_owned(),
        active_workflow_id: Some(id(7)),
        current_version: 2,
        error_message: None,
        created_at: 0,
        updated_at: 0,
    }
}

fn version() -> ProjectVersion {
    ProjectVersion {
        id: id(2),
        project_id: id(1),
        version: 2,
        script_spec: None,
        storyboard_spec: None,
        render_spec: None,
        script_review_status: "pending".to_owned(),
        created_at: 0,
        updated_at: 0,
    }
}

fn scene() -> SceneRecord {
    SceneRecord {
        id: id(3),
        project_id: id(1),
        project_version_id: id(2),
        sequence: 1,
        narration_text: "你好，世界。".to_owned(),
        visual_prompt: "一座山".to_owned(),
        on_screen_text: Some("你好".to_owned()),
        transition: "wipe".to_owned(),
        status: "pending".to_owned(),
        duration_ms: None,
        image_asset_id: None,
        audio_asset_id: None,
        caption_asset_id: None,
        created_at: 0,
        updated_at: 0,
    }
}

fn generated(n: i32, duration_ms: i64) -> GeneratedScene {
    GeneratedScene {
        scene_id: id(n as u128),
        sequence: n,
        image_url: format!("i{n}"),
        audio_url: format!("a{n}"),
        on_screen_text: None,
        transition: TransitionKind::Slide,
        duration_ms,
        captions: vec![CaptionCue { text: "c".to_owned(), start_ms: 0, end_ms: 1 }],
    }
}

#[test]
fn sizes_follow_the_stored_ratio() {
    assert_eq!(render_dimensions("9:16"), (1080, 1920));
    assert_eq!(render_dimensions("1:1"), (1080, 1080));
    assert_eq!(render_dimensions("16:9"), (1920, 1080));
    assert_eq!(render_dimensions("21:9"), (1920, 1080));
    for ratio in [AspectRatio::Landscape, AspectRatio::Portrait, AspectRatio::Square] {
        assert_eq!(render_dimensions(ratio.database_value()), ratio.dimensions());
    }
}

#[test]
fn transitions_are_read_back() {
    for kind in [
        TransitionKind::Fade,
        TransitionKind::Slide,
        TransitionKind::Wipe,
        TransitionKind::Absent,
    ] {
        assert_eq!(parse_transition(kind.database_value()), kind);
    }
    assert_eq!(parse_transition("dissolve"), TransitionKind::Fade);
}

#[test]
fn scenes_are_placed_one_behind_the_other() {
    let scenes = vec![generated(1, 2_000), generated(2, 10), generated(3, 1_001)];
    assert!(can_place(&scenes));
    let spec = render_spec(&project(), &version(), scenes);
    assert_eq!((spec.project_id, spec.version), (id(1), 2));
    assert_eq!((spec.width, spec.height, spec.fps), (1080, 1920, 30));
    assert_eq!(spec.background_color, "#0B1020");
    let frames: Vec<(i64, i64)> =
        spec.scenes.iter().map(|s| (s.start_frame, s.duration_in_frames)).collect();
    assert_eq!(frames, vec![(0, 67), (67, 30), (97, 37)]);
    assert_eq!(spec.scenes[1].image_url, "i2");
    assert_eq!(spec.scenes[1].captions.len(), 1);
    assert_eq!(spec.scenes[2].transition, TransitionKind::Slide);
}

#[test]
fn the_same_scenes_give_the_same_timeline() {
    let make = || render_spec(&project(), &version(), vec![generated(1, 999), generated(2, 5_000)]);
    assert_eq!(format!("{:?}", make()), format!("{:?}", make()));
}

#[test]
fn a_timeline_beyond_all_numbers_cannot_be_placed() {
    assert!(!can_place(&vec![generated(1, i64::MAX)]));
    assert!(!can_place(&vec![generated(1, i64::MAX / 30)]));
    assert!(can_place(&vec![generated(1, i64::MAX / 30 - 300)]));
    assert!(can_place(&vec![generated(1, -5)]));
    assert_eq!(render_spec(&project(), &version(), vec![generated(1, -5)]).scenes[0].duration_in_frames, 30);
}

#[test]
fn scenes_are_sorted_by_number_and_keep_their_order() {
    let sorted = sort_by_sequence(vec![generated(3, 1), generated(1, 2), generated(3, 3), generated(2, 4)]);
    let order: Vec<(i32, i64)> = sorted.iter().map(|s| (s.sequence, s.duration_ms)).collect();
    assert_eq!(order, vec![(1, 2), (2, 4), (3, 1), (3, 3)]);
}

fn numbered(n: i32) -> SceneRecord {
    let mut s = scene();
    s.sequence = n;
    s
}

#[test]
fn three_scenes_run_at_a_time() {
    let mut batch = SceneBatch::new((1..=5).map(numbered).collect());
    let mut started = Vec::new();
    while let Some(s) = batch.start_next() {
        started.push(s.sequence);
    }
    assert_eq!((started, batch.running()), (vec![1, 2, 3], 3));
    batch.scene_ended(SceneOutcome::Finished(Ok(generated(2, 1))));
    assert_eq!(batch.start_next().map(|s| s.sequence), Some(4));
    assert!(batch.start_next().is_none());
    for n in [1, 3, 4] {
        batch.scene_ended(SceneOutcome::Finished(Ok(generated(n, 1))));
    }
    assert_eq!(batch.start_next().map(|s| s.sequence), Some(5));
    batch.scene_ended(SceneOutcome::Finished(Ok(generated(5, 1))));
    assert_eq!(batch.running(), 0);
    let order: Vec<i32> = batch.conclude().unwrap().iter().map(|s| s.sequence).collect();
    assert_eq!(order, vec![1, 2, 3, 4, 5]);
}

#[test]
fn each_scene_is_generated_once() {
    let scenes: Vec<SceneRecord> = (1..=4)
        .map(|n| {
            let mut s = numbered(n);
            s.id = id(100 + n as u128);
            s
        })
        .collect();
    let mut batch = SceneBatch::new(scenes);
    let mut running = Vec::new();
    loop {
        while let Some(s) = batch.start_next() {
            running.push(s);
        }
        let Some(ended) = running.pop() else { break };
        let mut done = generated(ended.sequence, 1);
        done.scene_id = ended.id;
        batch.scene_ended(SceneOutcome::Finished(Ok(done)));
    }
    let ids: Vec<u128> = batch.conclude().unwrap().iter().map(|s| s.scene_id.value).collect();
    assert_eq!(ids, vec![101, 102, 103, 104]);
}

#[test]
fn after_a_failure_nothing_starts_and_the_first_counts() {
    let mut batch = SceneBatch::new((1..=5).map(numbered).collect());
    while batch.start_next().is_some() {}
    batch.scene_ended(SceneOutcome::Finished(Err(AppError::Internal("first".to_owned()))));
    assert!(batch.start_next().is_none());
    batch.scene_ended(SceneOutcome::Aborted("second".to_owned()));
    batch.scene_ended(SceneOutcome::Finished(Ok(generated(3, 1))));
    assert!(batch.start_next().is_none());
    assert_eq!(batch.conclude().unwrap_err().text(), "内部错误: first");
}

#[test]
fn a_task_that_was_torn_down_is_a_failure() {
    let mut batch = SceneBatch::new(vec![numbered(1)]);
    assert!(batch.start_next().is_some());
    batch.scene_ended(SceneOutcome::Aborted("panicked".to_owned()));
    assert_eq!(
        batch.conclude().unwrap_err().text(),
        "内部错误: 场景生成任务异常终止: panicked"
    );
}

#[test]
fn no_scenes_give_no_scenes() {
    assert!(SceneBatch::new(Vec::new()).conclude().unwrap().is_empty());
}
