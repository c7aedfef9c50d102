use tktkgo_app::db::{AssetMetadata, SceneRecord};
use tktkgo_app::domain::{Project, ProjectVersion, RenderSpec, StyleBible};
use tktkgo_app::hashing::content_hash;
use tktkgo_app::ids::Id;
use tktkgo_app::pipeline::keys::{
    captions_key, image_key, image_prompt, render_output_key, render_task_key, scene_file_key,
    script_key, speech_key, stable_task_key, storyboard_key,
};
use tktkgo_app::pipeline::service::{new_asset, PipelineService};
use tktkgo_app::pipeline::task::{running_task, start_task};
use tktkgo_app::providers::ModelGatewayClient;
use tktkgo_app::render::RenderClient;
use tktkgo_app::storage::{LocalAssetStore, StoredObject};

fn id(value: u128) -> Id {
    Id { value }
}

fn project() -> Project {
    Project {
        id: id(1),
        title: "标题".to_owned(),
        source_text: "大纲".to_owned(),
        language: "zh-CN".to_owned(),
        aspect_ratio: "9:16".to_owned(),
        target_duration_seconds: 60,
        text_provider: "openai".to_owned(),
        text_model: "gpt".to_owned(),
        image_provider: "pic2api".to_owned(),
        image_model: "gpt-image-2".to_owned(),
        voice: "coral".to_owned(),
        speech_provider: "cosyvoice".to_owned(),
        speech_model: "cosy3".to_owned(),
        transcription_provider: "faster-whisper".to_owned(),
        transcription_model: "large-v3".to_owned(),
        require_script_review: true,
        status: "queued".to_owned(),
        active_workflow_id: Some(id(7)),
        current_version: 2,
        error_message: None,
        created_at: 0,
        updated_at: 0,
    }
}

fn version() -> ProjectVersion {
    ProjectVersion {
        id: id(2),
        project_id: id(1),
        version: 2,
        script_spec: None,
        storyboard_spec: None,
        render_spec: None,
        script_review_status: "pending".to_owned(),
        created_at: 0,
        updated_at: 0,
    }
}

fn scene() -> SceneRecord {
    SceneRecord {
        id: id(3),
        project_id: id(1),
        project_version_id: id(2),
        sequence: 1,
        narration_text: "你好，世界。".to_owned(),
        visual_prompt: "一座山".to_owned(),
        on_screen_text: Some("你好".to_owned()),
        transition: "wipe".to_owned(),
        status: "pending".to_owned(),
        duration_ms: None,
        image_asset_id: None,
        audio_asset_id: None,
        caption_asset_id: None,
        created_at: 0,
        updated_at: 0,
    }
}

const ONE: &str = "00000000-0000-0000-0000-000000000001";
const THREE: &str = "00000000-0000-0000-0000-000000000003";

fn style() -> StyleBible {
    StyleBible {
        art_direction: "水彩".to_owned(),
        color_palette: vec!["蓝".to_owned(), "白".to_owned()],
        typography: "黑体".to_owned(),
        image_rules: vec!["留白".to_owned(), "对称".to_owned()],
        negative_prompt: "文字".to_owned(),
    }
}

fn service() -> PipelineService {
    PipelineService::new(
        ModelGatewayClient { base_url: "http://g".to_owned() },
        LocalAssetStore::new("/data".to_owned(), "http://a".to_owned()),
        RenderClient::new("http://r".to_owned()),
        "/data".to_owned(),
    )
}

fn object() -> StoredObject {
    StoredObject {
        key: "k".to_owned(),
        public_url: "http://a/k".to_owned(),
        byte_size: 4,
        checksum: "sum".to_owned(),
    }
}

fn hashed(stage: &str, material: &str) -> String {
    format!("{stage}:{}", content_hash(material.as_bytes()))
}

#[test]
fn a_task_key_is_a_stage_and_a_hash() {
    assert_eq!(stable_task_key("script", "abc"), hashed("script", "abc"));
    assert_eq!(stable_task_key("script", &"长".repeat(5000)).chars().count(), 71);
}

#[test]
fn keys_are_made_of_what_a_task_depends_on() {
    let (p, v, s) = (project(), version(), scene());
    assert_eq!(
        script_key(&p, &v),
        hashed("script", &format!("{ONE}:2:script:openai:gpt:script-v1"))
    );
    assert_eq!(
        storyboard_key(&p, &v, b"{}"),
        hashed(
            "storyboard",
            &format!("{ONE}:2:storyboard:openai:gpt:storyboard-v1:{}", content_hash(b"{}"))
        )
    );
    assert_eq!(
        image_key(&p, &v, &s, "prompt"),
        hashed(
            "image",
            &format!(
                "{ONE}:2:scene:{THREE}:image:pic2api:gpt-image-2:image-v1:{}",
                content_hash(b"prompt")
            )
        )
    );
    let narration = content_hash(s.narration_text.as_bytes());
    assert_eq!(
        speech_key(&p, &v, &s),
        hashed(
            "speech",
            &format!("{ONE}:2:scene:{THREE}:speech:cosyvoice:cosy3:coral:speech-v1:{narration}")
        )
    );
    assert_eq!(
        captions_key(&p, &v, &s, "sum"),
        hashed(
            "transcription",
            &format!(
                "{ONE}:2:scene:{THREE}:captions:faster-whisper:large-v3:transcription-v1:sum:{narration}"
            )
        )
    );
    assert_eq!(
        render_task_key(&p, &v, "h"),
        hashed("render", &format!("{ONE}:2:render:render-v1:h"))
    );
}

#[test]
fn keys_of_different_stages_and_scenes_differ() {
    let (p, v, s) = (project(), version(), scene());
    let mut other = scene();
    other.id = id(4);
    assert_ne!(speech_key(&p, &v, &s), speech_key(&p, &v, &other));
    assert_ne!(stable_task_key("image", "m"), stable_task_key("speech", "m"));
    let mut next = version();
    next.version = 3;
    assert_ne!(script_key(&p, &v), script_key(&p, &next));
}

#[test]
fn the_prompt_of_an_illustration_holds_the_style() {
    assert_eq!(
        image_prompt(&scene(), &style()),
        "一座山\n统一艺术方向：水彩\n色板：蓝, 白\n画面规则：留白；对称\n禁止内容：文字\n不要生成任何文字、水印或标志。"
    );
}

#[test]
fn files_are_named_by_project_scene_and_hash() {
    assert_eq!(
        scene_file_key(id(1), id(3), "narration.wav"),
        format!("projects/{ONE}/scenes/{THREE}/narration.wav")
    );
    assert_eq!(render_output_key(id(1), "h"), format!("projects/{ONE}/renders/h.mp4"));
}

#[test]
fn tasks_are_described_for_their_version() {
    let (p, v, s) = (project(), version(), scene());
    let task = service().generate_script(id(7), &p, &v);
    assert_eq!((task.stage, task.scene_id, task.version_id), ("script", None, Some(id(2))));
    assert_eq!((task.provider.as_str(), task.model.as_str()), ("openai", "gpt"));
    assert_eq!(task.key, script_key(&p, &v));
    let task = service().generate_storyboard(id(7), &p, &v, b"{}");
    assert_eq!((task.stage, task.key), ("storyboard", storyboard_key(&p, &v, b"{}")));
    let task = service().generate_image_asset(id(7), &p, &v, &s, &style());
    let prompt = image_prompt(&s, &style());
    assert_eq!((task.stage, task.key), ("image", image_key(&p, &v, &s, &prompt)));
    assert_eq!((task.scene_id, task.provider.as_str()), (Some(id(3)), "pic2api"));
    let task = service().generate_speech_asset(id(7), &p, &v, &s);
    assert_eq!((task.stage, task.provider.as_str()), ("speech", "cosyvoice"));
    let task = service().generate_caption_asset(id(7), &p, &v, &s, &object());
    assert_eq!((task.stage, task.key), ("transcription", captions_key(&p, &v, &s, "sum")));
    assert_eq!(task.model, "large-v3");
}

#[test]
fn a_started_task_is_a_running_first_attempt() {
    let task = service().generate_script(id(7), &project(), &version());
    let row = running_task(id(5), &task);
    assert_eq!((row.id, row.workflow_id, row.project_id), (id(5), id(7), id(1)));
    assert_eq!((row.stage, row.status, row.attempt), ("script", "running", 1));
    assert_eq!(row.idempotency_key, task.key);
    assert_eq!(row.provider, Some("openai".to_owned()));
    assert_ne!(start_task(&task).id, start_task(&task).id);
}

#[test]
fn the_gateway_is_asked_under_the_identifier_of_the_task() {
    let (p, s) = (project(), scene());
    assert_eq!(service().script_call(&p, id(5)).request_id, id(5));
    let call = service().image_call(&p, &s, &style(), id(5));
    assert_eq!((call.width, call.height, call.request_id), (1080, 1920, id(5)));
    assert_eq!(call.prompt, image_prompt(&s, &style()));
    let call = service().speech_call(&p, &s, id(5));
    assert_eq!((call.text, call.voice, call.request_id), (s.narration_text.clone(), p.voice.clone(), id(5)));
    let call = service().alignment_call(&p, &s, id(5));
    assert_eq!((call.canonical_text, call.request_id), (s.narration_text, id(5)));
}

#[test]
fn files_of_a_scene_are_always_stored() {
    let (p, s) = (project(), scene());
    let write = service().image_file(&p, &s, b"png").unwrap();
    assert_eq!(write.object.key, format!("projects/{ONE}/scenes/{THREE}/illustration.png"));
    assert_eq!(write.path, format!("/data/projects/{ONE}/scenes/{THREE}/illustration.png"));
    assert_eq!(write.object.checksum, content_hash(b"png"));
    assert!(service().speech_file(&p, &s, b"").unwrap().path.ends_with("/narration.wav"));
    assert!(service().captions_file(&p, &s, b"[]").unwrap().path.ends_with("/captions.json"));
}

#[test]
fn assets_are_recorded_by_their_kind() {
    let (p, s) = (project(), scene());
    let image = service().image_asset(&p, &s, &object());
    assert_eq!((image.kind, image.content_type), ("image", "image/png"));
    assert_eq!(image.metadata, AssetMetadata::Image { width: 1080, height: 1920 });
    assert_eq!(image.metadata.json(), r#"{"height":1920,"quality":"high","width":1080}"#);
    let audio = service().speech_asset(&p, &s, &object(), 1234);
    assert_eq!((audio.kind, audio.content_type, audio.provider.as_str()), ("audio", "audio/wav", "cosyvoice"));
    assert_eq!(audio.metadata.json(), r#"{"duration_ms":1234}"#);
    let captions = service().captions_asset(&p, &s, &object(), 8);
    assert_eq!((captions.kind, captions.content_type), ("captions", "application/json"));
    assert_eq!(captions.metadata.json(), r#"{"cue_count":8}"#);
    let row = new_asset(id(6), id(1), id(3), "p", "m", &object(), captions.metadata);
    assert_eq!((row.id, row.scene_id, row.byte_size), (id(6), Some(id(3)), 4));
    assert_eq!((row.storage_key, row.public_url, row.checksum), ("k".to_owned(), "http://a/k".to_owned(), "sum".to_owned()));
}

#[test]
fn a_rendering_is_named_by_the_hash_of_its_specification() {
    let task = service().render_video(id(7), &project(), &version(), b"{}");
    assert_eq!(task.hash, content_hash(b"{}"));
    assert_eq!((task.descriptor.stage, task.descriptor.provider.as_str()), ("render", "remotion"));
    assert_eq!(task.descriptor.key, render_task_key(&project(), &version(), &task.hash));
    let spec = RenderSpec {
        project_id: id(1),
        version: 2,
        width: 1080,
        height: 1920,
        fps: 30,
        background_color: "#0B1020".to_owned(),
        scenes: Vec::new(),
    };
    let row = service().render_record(id(5), id(7), &project(), &version(), &spec, &task.hash);
    assert_eq!((row.id, row.status, row.width, row.height, row.fps), (id(5), "rendering", 1080, 1920, 30));
    let job = service().render_job(id(8), &project(), &task.hash, spec);
    assert_eq!(job.render_id, id(8));
    assert_eq!(job.output_key, format!("projects/{ONE}/renders/{}.mp4", task.hash));
}

#[test]
fn the_render_specification_of_no_scenes_is_empty() {
    let spec = service().build_render_spec(&project(), &version(), Vec::new());
    assert_eq!((spec.project_id, spec.version, spec.scenes.len()), (id(1), 2, 0));
    assert_eq!((spec.width, spec.height, spec.fps), (1080, 1920, 30));
}
