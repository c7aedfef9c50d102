use tktkgo_app::domain::{CaptionCue, Project, ScriptSpec};
use tktkgo_app::ids::Id;
use tktkgo_app::providers::local::{CosyVoiceSpeechProvider, FasterWhisperTranscriptionProvider};
use tktkgo_app::providers::{
    alignment_output, binary_output, catalog_output, checked_bytes, http_error_text,
    structured_output, HttpReply, ImageGenerationRequest, ModelGatewayClient, ProviderCatalog,
    ProviderOutput, ProviderUsage, ReplyMeta, CATALOG_TIMEOUT_SECONDS, REQUEST_TIMEOUT_SECONDS,
};

fn id(value: u128) -> Id {
    Id { value }
}

fn project() -> Project {
    Project {
        id: id(1),
        title: "标题".to_owned(),
        source_text: "大纲".to_owned(),
        language: "zh-CN".to_owned(),
        aspect_ratio: "9:16".to_owned(),
        target_duration_seconds: 60,
        text_provider: "openai".to_owned(),
        text_model: "gpt".to_owned(),
        image_provider: "pic2api".to_owned(),
        image_model: "gpt-image-2".to_owned(),
        voice: "coral".to_owned(),
        speech_provider: "cosyvoice".to_owned(),
        speech_model: "cosy3".to_owned(),
        transcription_provider: "faster-whisper".to_owned(),
        transcription_model: "large-v3".to_owned(),
        require_script_review: true,
        status: "queued".to_owned(),
        active_workflow_id: Some(id(7)),
        current_version: 2,
        error_message: None,
        created_at: 0,
        updated_at: 0,
    }
}

fn gateway() -> ModelGatewayClient {
    ModelGatewayClient { base_url: "http://g".to_owned() }
}

fn reply(status: u16, body: &[u8]) -> HttpReply {
    HttpReply { status, status_text: format!("{status} Reason"), body: body.to_vec() }
}

fn meta(latency_header: Option<&str>) -> ReplyMeta {
    ReplyMeta {
        request_id: Some("r".to_owned()),
        latency_header: latency_header.map(str::to_owned),
        elapsed_ms: 55,
    }
}

#[test]
fn script_request_holds_the_project() {
    let call = gateway().generate_script(&project(), "p", "m", id(9));
    assert_eq!(call.url, "http://g/v1/text/generate");
    assert_eq!((call.provider.as_str(), call.model.as_str()), ("p", "m"));
    assert_eq!(
        call.prompt,
        "根据下面主题或大纲生成完整视频文稿。语言：zh-CN；目标时长：60秒；画幅：9:16。文稿需要有开场钩子、清晰结构、自然转场和结尾总结。视觉风格必须具体且全片一致。\n\n标题：标题\n输入：大纲"
    );
    assert_eq!(call.schema_name, "video_script");
    assert!(call.system.starts_with("你是资深视频策划"));
    assert_eq!(call.request_id, id(9));
}

#[test]
fn storyboard_request_holds_the_script() {
    let script = ScriptSpec {
        title: String::new(),
        audience: String::new(),
        tone: String::new(),
        visual_style: "水彩".to_owned(),
        summary: String::new(),
        sections: Vec::new(),
        full_narration: "旁白".to_owned(),
    };
    let call = gateway().generate_storyboard(&project(), &script, "p", "m", id(9));
    assert_eq!(call.prompt, "画幅：9:16；视觉方向：水彩。请为以下文稿设计分镜：\n旁白");
    assert_eq!(call.schema_name, "video_storyboard");
    assert!(call.system.starts_with("你是视频导演和分镜设计师"));
}

#[test]
fn image_request_counts_its_prompt() {
    let call = gateway().generate_image(ImageGenerationRequest {
        prompt: "一座山",
        width: 1080,
        height: 1920,
        quality: "high",
        provider: "p",
        model: "m",
        request_id: id(9),
    });
    assert_eq!(call.url, "http://g/v1/images/generate");
    assert_eq!((call.width, call.height, call.quality.as_str()), (1080, 1920, "high"));
    assert_eq!(call.input_units, 3);
}

#[test]
fn speech_request_asks_for_wav() {
    let call = gateway().synthesize_speech("你好", "coral", "p", "m", id(9));
    assert_eq!(call.url, "http://g/v1/audio/speech");
    assert_eq!((call.text.as_str(), call.voice.as_str()), ("你好", "coral"));
    assert_eq!(call.output_format, "wav");
    assert_eq!(call.instructions, "自然、清晰、有亲和力的专业中文口播，停顿适中。");
    assert_eq!(call.input_units, 2);
}

#[test]
fn alignment_request_holds_the_text() {
    let call = gateway().align_speech("你好", "p", "m", id(9));
    assert_eq!(call.url, "http://g/v1/audio/transcribe");
    assert_eq!(call.canonical_text, "你好");
    assert_eq!((call.file_name, call.content_type), ("speech.wav", "audio/wav"));
}

#[test]
fn the_catalog_has_an_address_and_limits() {
    assert_eq!(gateway().list_models(), "http://g/v1/models");
    assert_eq!(REQUEST_TIMEOUT_SECONDS, 1800);
    assert_eq!(CATALOG_TIMEOUT_SECONDS, 10);
}

#[test]
fn only_success_hands_out_the_body() {
    assert_eq!(checked_bytes(reply(200, b"ok")).unwrap(), b"ok".to_vec());
    assert_eq!(checked_bytes(reply(299, b"ok")).unwrap(), b"ok".to_vec());
    for status in [199, 300, 404, 500] {
        assert_eq!(
            checked_bytes(reply(status, b"why")).unwrap_err().text(),
            format!("外部服务 model-gateway 调用失败: HTTP {status} Reason: why")
        );
    }
}

#[test]
fn bytes_that_are_no_text_are_replaced() {
    assert_eq!(http_error_text(&reply(500, b"a\xffb")), "HTTP 500 Reason: a\u{fffd}b");
    assert_eq!(http_error_text(&reply(500, "原因".as_bytes())), "HTTP 500 Reason: 原因");
}

#[test]
fn latency_comes_from_the_header_or_the_clock() {
    let usage = |header| binary_output(reply(200, b"x"), meta(header), Some(3)).unwrap().usage;
    assert_eq!(usage(Some("1234")).latency_ms, 1234);
    assert_eq!(usage(Some("-1")).latency_ms, -1);
    assert_eq!(usage(Some("fast")).latency_ms, 55);
    let last = usage(None);
    assert_eq!(last.latency_ms, 55);
    assert_eq!(last.request_id, Some("r".to_owned()));
    assert_eq!((last.input_units, last.output_units), (Some(3), None));
    assert!(binary_output(reply(400, b"x"), meta(None), None).is_err());
}

#[test]
fn replies_that_cannot_be_parsed_are_errors() {
    let bad = || "eof".to_owned();
    assert_eq!(
        catalog_output(Err(bad())).unwrap_err().text(),
        "外部服务 model-gateway 调用失败: 模型目录解析失败: eof"
    );
    assert_eq!(
        structured_output::<u8>(Err(bad())).unwrap_err().text(),
        "外部服务 model-gateway 调用失败: 结构化响应解析失败: eof"
    );
    assert_eq!(
        alignment_output(Err(bad())).unwrap_err().text(),
        "外部服务 model-gateway 调用失败: 字幕对齐响应解析失败: eof"
    );
}

#[test]
fn an_alignment_without_cues_is_an_error() {
    let output = |cues| ProviderOutput { value: cues, usage: ProviderUsage::default() };
    assert_eq!(
        alignment_output(Ok(output(Vec::new()))).unwrap_err().text(),
        "外部服务 model-gateway 调用失败: 字幕对齐响应没有字符级时间戳"
    );
    let cue = CaptionCue { text: "你".to_owned(), start_ms: 0, end_ms: 10 };
    assert_eq!(alignment_output(Ok(output(vec![cue]))).unwrap().value.len(), 1);
}

#[test]
fn parsed_replies_are_handed_on() {
    let catalog = ProviderCatalog {
        text: Vec::new(),
        image: Vec::new(),
        speech: Vec::new(),
        alignment: Vec::new(),
    };
    assert!(catalog_output(Ok(catalog)).is_ok());
    let output = ProviderOutput { value: 5u8, usage: ProviderUsage::default() };
    assert_eq!(structured_output(Ok(output)).unwrap().value, 5);
}

#[test]
fn cosyvoice_is_asked_and_measured() {
    let provider = CosyVoiceSpeechProvider::new("http://c".to_owned());
    assert_eq!(provider.name(), "cosyvoice");
    let request = provider.synthesize_speech("你好", "v", "m", id(9));
    assert_eq!(request.url, "http://c/v1/speech");
    assert_eq!((request.input.as_str(), request.voice.as_str()), ("你好", "v"));
    let output = provider.speech_output("你好", id(9), reply(200, b"wav"), 12).unwrap();
    assert_eq!(output.value, b"wav".to_vec());
    assert_eq!(output.usage.request_id, Some(id(9).text()));
    assert_eq!((output.usage.input_units, output.usage.latency_ms), (Some(2), 12));
    assert_eq!(
        provider.speech_output("你好", id(9), reply(503, b"busy"), 12).unwrap_err().text(),
        "外部服务 cosyvoice 调用失败: HTTP 503 Reason: busy"
    );
}

#[test]
fn faster_whisper_is_asked_and_checked() {
    let provider = FasterWhisperTranscriptionProvider::new("http://w".to_owned());
    assert_eq!(provider.name(), "faster-whisper");
    let request = provider.align_speech("你好", "large", id(9));
    assert_eq!(request.url, "http://w/v1/align");
    assert_eq!((request.file_name, request.content_type), ("speech.wav", "audio/wav"));
    assert_eq!(
        provider.alignment_output(id(9), Err("eof".to_owned()), 3).unwrap_err().text(),
        "外部服务 faster-whisper 调用失败: 无法解析字幕响应: eof"
    );
    assert_eq!(
        provider.alignment_output(id(9), Ok(Vec::new()), 3).unwrap_err().text(),
        "外部服务 faster-whisper 调用失败: 字幕响应没有词级时间戳"
    );
    let cue = CaptionCue { text: "你".to_owned(), start_ms: 0, end_ms: 10 };
    let output = provider.alignment_output(id(9), Ok(vec![cue]), 3).unwrap();
    assert_eq!((output.usage.input_units, output.usage.latency_ms), (None, 3));
}
