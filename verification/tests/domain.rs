use tktkgo_app::domain::{
    default_aspect_ratio, default_auto_start, default_duration, default_language, default_review,
    default_speech_model, default_speech_provider, default_transcription_model,
    default_transcription_provider, default_voice, AspectRatio, CreateProjectRequest,
    TransitionKind,
};
use tktkgo_app::AppError;

fn request() -> CreateProjectRequest {
    CreateProjectRequest {
        title: " 量子 ".to_owned(),
        source_text: "介绍量子计算\n".to_owned(),
        language: default_language(),
        aspect_ratio: default_aspect_ratio(),
        target_duration_seconds: default_duration(),
        text_provider: "openai".to_owned(),
        text_model: "gpt".to_owned(),
        image_provider: "pic2api".to_owned(),
        image_model: "gpt-image-2".to_owned(),
        voice: default_voice(),
        speech_provider: default_speech_provider(),
        speech_model: default_speech_model(),
        transcription_provider: default_transcription_provider(),
        transcription_model: default_transcription_model(),
        require_script_review: default_review(),
        auto_start: default_auto_start(),
    }
}

fn problem(request: CreateProjectRequest) -> String {
    match request.validate() {
        Ok(()) => String::new(),
        Err(AppError::Validation(message)) => message,
        Err(other) => panic!("{other:?}"),
    }
}

#[test]
fn defaults_are_valid() {
    assert_eq!(problem(request()), "");
    assert_eq!(default_language(), "zh-CN");
    assert_eq!(default_aspect_ratio(), AspectRatio::Landscape);
    assert_eq!(default_duration(), 180);
    assert_eq!(default_voice(), "coral");
    assert_eq!(default_speech_provider(), "openai");
    assert_eq!(default_speech_model(), "gpt-4o-mini-tts");
    assert_eq!(default_transcription_provider(), "openai");
    assert_eq!(default_transcription_model(), "whisper-1");
    assert!(default_review() && default_auto_start());
}

#[test]
fn title_has_to_be_filled_and_short() {
    let mut r = request();
    r.title = "　 ".to_owned();
    assert_eq!(problem(r), "标题必须为 1 到 200 个字符");
    let mut r = request();
    r.title = "字".repeat(200);
    assert_eq!(problem(r), "");
    let mut r = request();
    r.title = "字".repeat(201);
    assert_eq!(problem(r), "标题必须为 1 到 200 个字符");
}

#[test]
fn source_has_to_be_filled_and_short() {
    let mut r = request();
    r.source_text = String::new();
    assert_eq!(problem(r), "主题或大纲必须为 1 到 20000 个字符");
    let mut r = request();
    r.source_text = "a".repeat(20_001);
    assert_eq!(problem(r), "主题或大纲必须为 1 到 20000 个字符");
}

#[test]
fn duration_has_limits() {
    for (seconds, valid) in [(9, false), (10, true), (3600, true), (3601, false), (-1, false)] {
        let mut r = request();
        r.target_duration_seconds = seconds;
        let expected = if valid { "" } else { "目标时长必须在 10 到 3600 秒之间" };
        assert_eq!(problem(r), expected);
    }
}

#[test]
fn providers_have_to_be_known() {
    let mut r = request();
    r.speech_provider = "cosyvoice".to_owned();
    r.transcription_provider = "faster-whisper".to_owned();
    assert_eq!(problem(r), "");
    let mut r = request();
    r.speech_provider = "faster-whisper".to_owned();
    assert_eq!(problem(r), "不支持的口播 Provider: faster-whisper");
    let mut r = request();
    r.transcription_provider = "cosyvoice".to_owned();
    assert_eq!(problem(r), "不支持的字幕 Provider: cosyvoice");
}

#[test]
fn models_have_to_be_filled_and_short() {
    let mut r = request();
    r.speech_model = " ".to_owned();
    assert_eq!(problem(r), "口播模型必须为 1 到 128 个字符");
    let mut r = request();
    r.transcription_model = "m".repeat(129);
    assert_eq!(problem(r), "字幕模型必须为 1 到 128 个字符");
}

#[test]
fn the_first_broken_rule_is_reported() {
    let mut r = request();
    r.title = String::new();
    r.target_duration_seconds = 0;
    r.speech_model = String::new();
    assert_eq!(problem(r), "标题必须为 1 到 200 个字符");
}

#[test]
fn ratios_have_a_text_and_a_size() {
    assert_eq!(AspectRatio::Landscape.database_value(), "16:9");
    assert_eq!(AspectRatio::Portrait.database_value(), "9:16");
    assert_eq!(AspectRatio::Square.database_value(), "1:1");
    assert_eq!(AspectRatio::Landscape.dimensions(), (1920, 1080));
    assert_eq!(AspectRatio::Portrait.dimensions(), (1080, 1920));
    assert_eq!(AspectRatio::Square.dimensions(), (1080, 1080));
}

#[test]
fn transitions_have_a_text() {
    assert_eq!(TransitionKind::Fade.database_value(), "fade");
    assert_eq!(TransitionKind::Slide.database_value(), "slide");
    assert_eq!(TransitionKind::Wipe.database_value(), "wipe");
    assert_eq!(TransitionKind::Absent.database_value(), "none");
}

#[test]
fn errors_are_shown_with_their_kind() {
    let m = || "x".to_owned();
    for (error, text) in [
        (AppError::Config(m()), "配置错误: x"),
        (AppError::Validation(m()), "参数错误: x"),
        (AppError::NotFound(m()), "资源不存在: x"),
        (AppError::Conflict(m()), "当前状态不允许执行该操作: x"),
        (AppError::Database(m()), "数据库操作失败: x"),
        (AppError::Pool(m()), "数据库连接池操作失败: x"),
        (AppError::external("remotion", m()), "外部服务 remotion 调用失败: x"),
        (AppError::Serialization(m()), "序列化失败: x"),
        (AppError::Io(m()), "文件操作失败: x"),
        (AppError::Internal(m()), "内部错误: x"),
    ] {
        assert_eq!(error.text(), text);
    }
}
