//! The data of a video project and the rules on a request for a new one.
use crate::error::{AppError, AppResult, ErrorView};
use crate::ids::Id;
use crate::text::{blank, is_blank, str_eq};
use vstd::prelude::*;
use vstd::string::*;

verus! {

#[derive(Clone, Copy, Debug, PartialEq, Eq, Structural)]
pub enum AspectRatio {
    Landscape,
    Portrait,
    Square,
}

impl AspectRatio {
    /// The text under which a ratio is stored.
    pub open spec fn stored(self) -> Seq<char> {
        match self {
            AspectRatio::Landscape => "16:9"@,
            AspectRatio::Portrait => "9:16"@,
            AspectRatio::Square => "1:1"@,
        }
    }

    /// Width and height of the frames.
    pub open spec fn size(self) -> (i32, i32) {
        match self {
            AspectRatio::Landscape => (1920, 1080),
            AspectRatio::Portrait => (1080, 1920),
            AspectRatio::Square => (1080, 1080),
        }
    }

    pub fn database_value(&self) -> (r: &'static str)
        ensures
            r@ == self.stored(),
    {
        match self {
            AspectRatio::Landscape => "16:9",
            AspectRatio::Portrait => "9:16",
            AspectRatio::Square => "1:1",
        }
    }

    pub fn dimensions(&self) -> (r: (i32, i32))
        ensures
            r == self.size(),
    {
        match self {
            AspectRatio::Landscape => (1920, 1080),
            AspectRatio::Portrait => (1080, 1920),
            AspectRatio::Square => (1080, 1080),
        }
    }
}

#[derive(Clone, Debug)]
pub struct CreateProjectRequest {
    pub title: String,
    pub source_text: String,
    pub language: String,
    pub aspect_ratio: AspectRatio,
    pub target_duration_seconds: i32,
    pub text_provider: String,
    pub text_model: String,
    pub image_provider: String,
    pub image_model: String,
    pub voice: String,
    pub speech_provider: String,
    pub speech_model: String,
    pub transcription_provider: String,
    pub transcription_model: String,
    pub require_script_review: bool,
    pub auto_start: bool,
}

/// Text with at least one character that is no white space, and at most `limit` characters.
pub open spec fn filled(text: Seq<char>, limit: nat) -> bool {
    !blank(text) && text.len() <= limit
}

pub open spec fn speech_provider_known(name: Seq<char>) -> bool {
    name == "openai"@ || name == "cosyvoice"@
}

pub open spec fn transcription_provider_known(name: Seq<char>) -> bool {
    name == "openai"@ || name == "faster-whisper"@
}

/// The first rule that a request breaks, in the order in which they are reported.
pub open spec fn request_problem(request: CreateProjectRequest) -> Option<ErrorView> {
    if !filled(request.title@, 200) {
        Some(ErrorView::Validation("标题必须为 1 到 200 个字符"@))
    } else if !filled(request.source_text@, 20_000) {
        Some(ErrorView::Validation("主题或大纲必须为 1 到 20000 个字符"@))
    } else if !(10 <= request.target_duration_seconds <= 3600) {
        Some(ErrorView::Validation("目标时长必须在 10 到 3600 秒之间"@))
    } else if !speech_provider_known(request.speech_provider@) {
        Some(ErrorView::Validation("不支持的口播 Provider: "@ + request.speech_provider@))
    } else if !transcription_provider_known(request.transcription_provider@) {
        Some(ErrorView::Validation("不支持的字幕 Provider: "@ + request.transcription_provider@))
    } else if !filled(request.speech_model@, 128) {
        Some(ErrorView::Validation("口播模型"@ + "必须为 1 到 128 个字符"@))
    } else if !filled(request.transcription_model@, 128) {
        Some(ErrorView::Validation("字幕模型"@ + "必须为 1 到 128 个字符"@))
    } else {
        None
    }
}

/// Whether a check came out as `problem` says: passed where there is none, else failed with it.
pub open spec fn reports(r: AppResult<()>, problem: Option<ErrorView>) -> bool {
    match problem {
        None => r is Ok,
        Some(e) => r is Err && r->Err_0@ == e,
    }
}

fn is_filled(text: &String, limit: usize) -> (r: bool)
    ensures
        r == filled(text@, limit as nat),
{
    !is_blank(text.as_str()) && text.as_str().unicode_len() <= limit
}

/// A validation error with a text and what it is about.
pub fn invalid(text: &str, subject: &str) -> (r: AppError)
    ensures
        r@ == ErrorView::Validation(text@ + subject@),
{
    let mut message = text.to_owned();
    message.append(subject);
    AppError::Validation(message)
}

/// A validation error with a fixed text.
pub fn rejected(text: &str) -> (r: AppError)
    ensures
        r@ == ErrorView::Validation(text@),
{
    AppError::Validation(text.to_owned())
}

impl CreateProjectRequest {
    pub fn validate(&self) -> (r: AppResult<()>)
        ensures
            reports(r, request_problem(*self)),
    {
        if !is_filled(&self.title, 200) {
            return Err(rejected("标题必须为 1 到 200 个字符"));
        }
        if !is_filled(&self.source_text, 20_000) {
            return Err(rejected("主题或大纲必须为 1 到 20000 个字符"));
        }
        if self.target_duration_seconds < 10 || self.target_duration_seconds > 3600 {
            return Err(rejected("目标时长必须在 10 到 3600 秒之间"));
        }
        let speech = self.speech_provider.as_str();
        if !str_eq(speech, "openai") && !str_eq(speech, "cosyvoice") {
            return Err(invalid("不支持的口播 Provider: ", speech));
        }
        let transcription = self.transcription_provider.as_str();
        if !str_eq(transcription, "openai") && !str_eq(transcription, "faster-whisper") {
            return Err(invalid("不支持的字幕 Provider: ", transcription));
        }
        if !is_filled(&self.speech_model, 128) {
            return Err(invalid("口播模型", "必须为 1 到 128 个字符"));
        }
        if !is_filled(&self.transcription_model, 128) {
            return Err(invalid("字幕模型", "必须为 1 到 128 个字符"));
        }
        Ok(())
    }
}

pub fn default_language() -> (r: String)
    ensures
        r@ == "zh-CN"@,
{
    "zh-CN".to_owned()
}

pub fn default_aspect_ratio() -> (r: AspectRatio)
    ensures
        r == AspectRatio::Landscape,
{
    AspectRatio::Landscape
}

pub fn default_duration() -> (r: i32)
    ensures
        r == 180,
{
    180
}

pub fn default_voice() -> (r: String)
    ensures
        r@ == "coral"@,
{
    "coral".to_owned()
}

pub fn default_speech_provider() -> (r: String)
    ensures
        r@ == "openai"@,
{
    "openai".to_owned()
}

pub fn default_speech_model() -> (r: String)
    ensures
        r@ == "gpt-4o-mini-tts"@,
{
    "gpt-4o-mini-tts".to_owned()
}

pub fn default_transcription_provider() -> (r: String)
    ensures
        r@ == "openai"@,
{
    "openai".to_owned()
}

pub fn default_transcription_model() -> (r: String)
    ensures
        r@ == "whisper-1"@,
{
    "whisper-1".to_owned()
}

pub fn default_review() -> (r: bool)
    ensures
        r,
{
    true
}

pub fn default_auto_start() -> (r: bool)
    ensures
        r,
{
    true
}

/// A request that leaves to the defaults what has one, and is valid in the rest, passes.
pub proof fn law_defaults_pass(request: CreateProjectRequest)
    requires
        filled(request.title@, 200),
        filled(request.source_text@, 20_000),
        request.target_duration_seconds == 180,
        request.speech_provider@ == "openai"@,
        request.speech_model@ == "gpt-4o-mini-tts"@,
        request.transcription_provider@ == "openai"@,
        request.transcription_model@ == "whisper-1"@,
    ensures
        request_problem(request) is None,
{
    reveal_strlit("gpt-4o-mini-tts");
    reveal_strlit("whisper-1");
    assert(!crate::text::whitespace("gpt-4o-mini-tts"@[0]));
    assert(!crate::text::whitespace("whisper-1"@[0]));
}

/// A stored project. Instants are microseconds since the Unix epoch.
#[derive(Clone, Debug)]
pub struct Project {
    pub id: Id,
    pub title: String,
    pub source_text: String,
    pub language: String,
    pub aspect_ratio: String,
    pub target_duration_seconds: i32,
    pub text_provider: String,
    pub text_model: String,
    pub image_provider: String,
    pub image_model: String,
    pub voice: String,
    pub speech_provider: String,
    pub speech_model: String,
    pub transcription_provider: String,
    pub transcription_model: String,
    pub require_script_review: bool,
    pub status: String,
    pub active_workflow_id: Option<Id>,
    pub current_version: i32,
    pub error_message: Option<String>,
    pub created_at: i64,
    pub updated_at: i64,
}

/// A project about to be stored.
#[derive(Clone, Debug)]
pub struct NewProject {
    pub id: Id,
    pub title: String,
    pub source_text: String,
    pub language: String,
    pub aspect_ratio: &'static str,
    pub target_duration_seconds: i32,
    pub text_provider: String,
    pub text_model: String,
    pub image_provider: String,
    pub image_model: String,
    pub voice: String,
    pub speech_provider: String,
    pub speech_model: String,
    pub transcription_provider: String,
    pub transcription_model: String,
    pub require_script_review: bool,
}

/// A version of a project. Its checkpoints are JSON texts.
#[derive(Clone, Debug)]
pub struct ProjectVersion {
    pub id: Id,
    pub project_id: Id,
    pub version: i32,
    pub script_spec: Option<String>,
    pub storyboard_spec: Option<String>,
    pub render_spec: Option<String>,
    pub script_review_status: String,
    pub created_at: i64,
    pub updated_at: i64,
}

/// A request to generate a version of a project, bound to one workflow.
#[derive(Clone, Debug)]
pub struct GenerationJob {
    pub id: Id,
    pub project_id: Id,
    pub workflow_id: Id,
    pub project_version_id: Option<Id>,
}

#[derive(Clone, Debug)]
pub struct ScriptSpec {
    pub title: String,
    pub audience: String,
    pub tone: String,
    pub visual_style: String,
    pub summary: String,
    pub sections: Vec<ScriptSection>,
    pub full_narration: String,
}

#[derive(Clone, Debug)]
pub struct ScriptSection {
    pub heading: String,
    pub purpose: String,
    pub narration: String,
}

#[derive(Clone, Debug)]
pub struct StoryboardSpec {
    pub style_bible: StyleBible,
    pub scenes: Vec<SceneDraft>,
}

#[derive(Clone, Debug)]
pub struct StyleBible {
    pub art_direction: String,
    pub color_palette: Vec<String>,
    pub typography: String,
    pub image_rules: Vec<String>,
    pub negative_prompt: String,
}

#[derive(Clone, Debug)]
pub struct SceneDraft {
    pub sequence: i32,
    pub narration: String,
    pub visual_type: VisualType,
    pub visual_prompt: String,
    pub on_screen_text: Option<String>,
    pub transition: TransitionKind,
}

#[derive(Clone, Copy, Debug, PartialEq, Eq, Structural)]
pub enum VisualType {
    Illustration,
    Infographic,
    Quote,
    Title,
    List,
}

#[derive(Clone, Copy, Debug, PartialEq, Eq, Structural)]
pub enum TransitionKind {
    Fade,
    Slide,
    Wipe,
    /// No transition: a hard cut.
    Absent,
}

impl TransitionKind {
    /// The text under which a transition is stored.
    pub open spec fn stored(self) -> Seq<char> {
        match self {
            TransitionKind::Fade => "fade"@,
            TransitionKind::Slide => "slide"@,
            TransitionKind::Wipe => "wipe"@,
            TransitionKind::Absent => "none"@,
        }
    }

    pub fn database_value(&self) -> (r: &'static str)
        ensures
            r@ == self.stored(),
    {
        match self {
            TransitionKind::Fade => "fade",
            TransitionKind::Slide => "slide",
            TransitionKind::Wipe => "wipe",
            TransitionKind::Absent => "none",
        }
    }
}

#[derive(Clone, Debug)]
pub struct CaptionCue {
    pub text: String,
    pub start_ms: i64,
    pub end_ms: i64,
}

#[derive(Clone, Debug)]
pub struct RenderSpec {
    pub project_id: Id,
    pub version: i32,
    pub width: i32,
    pub height: i32,
    pub fps: i32,
    pub background_color: String,
    pub scenes: Vec<RenderScene>,
}

#[derive(Clone, Debug)]
pub struct RenderScene {
    pub id: Id,
    pub sequence: i32,
    pub start_frame: i64,
    pub duration_in_frames: i64,
    pub image_url: String,
    pub audio_url: String,
    pub on_screen_text: Option<String>,
    pub transition: TransitionKind,
    pub captions: Vec<CaptionCue>,
}

#[derive(Clone, Copy, Debug)]
pub struct WorkflowInput {
    pub project_id: Id,
    pub job_id: Id,
    pub resume_version_id: Option<Id>,
}

#[derive(Clone, Debug)]
pub struct ScriptReviewInput {
    pub approved: bool,
    pub feedback: Option<String>,
}

#[derive(Clone, Debug)]
pub struct WorkflowResult {
    pub project_id: Id,
    pub version: i32,
    pub outcome: &'static str,
    pub render_url: Option<String>,
}

#[derive(Clone, Debug)]
pub struct RenderJobRequest {
    pub render_id: Id,
    pub output_key: String,
    pub spec: RenderSpec,
}

#[derive(Clone, Debug)]
pub struct RenderJobResult {
    pub storage_key: String,
    pub public_url: String,
    pub duration_ms: i64,
}

/// A request is accepted exactly where its title has from 1 to 200 characters and its outline
/// from 1 to 20000, neither blank, its duration is from 10 seconds to an hour, its providers of
/// speech and captions are known, and their models have from 1 to 128 characters.
pub proof fn law_request_accepted_exactly(request: CreateProjectRequest, r: AppResult<()>)
    requires
        call_ensures(CreateProjectRequest::validate, (&request,), r),
    ensures
        r is Ok <==> {
            &&& !blank(request.title@) && request.title@.len() <= 200
            &&& !blank(request.source_text@) && request.source_text@.len() <= 20_000
            &&& 10 <= request.target_duration_seconds <= 3600
            &&& request.speech_provider@ == "openai"@ || request.speech_provider@ == "cosyvoice"@
            &&& request.transcription_provider@ == "openai"@ || request.transcription_provider@
                == "faster-whisper"@
            &&& !blank(request.speech_model@) && request.speech_model@.len() <= 128
            &&& !blank(request.transcription_model@) && request.transcription_model@.len() <= 128
        },
        r is Err ==> r->Err_0@ is Validation,
{
}

/// Of the rules that a request breaks the first is reported, in the order title, outline,
/// duration, provider of speech, provider of captions, and the models of these two.
pub proof fn law_request_error_is_the_first(request: CreateProjectRequest, r: AppResult<()>)
    requires
        call_ensures(CreateProjectRequest::validate, (&request,), r),
        r is Err,
    ensures
        ({
            let title = blank(request.title@) || request.title@.len() > 200;
            let outline = blank(request.source_text@) || request.source_text@.len() > 20_000;
            let length = request.target_duration_seconds < 10 || request.target_duration_seconds
                > 3600;
            let speech = request.speech_provider@ != "openai"@ && request.speech_provider@
                != "cosyvoice"@;
            let captions = request.transcription_provider@ != "openai"@
                && request.transcription_provider@ != "faster-whisper"@;
            let model = blank(request.speech_model@) || request.speech_model@.len() > 128;
            let told = r->Err_0@->Validation_0;
            &&& title ==> told == "标题必须为 1 到 200 个字符"@
            &&& !title && outline ==> told == "主题或大纲必须为 1 到 20000 个字符"@
            &&& !title && !outline && length ==> told == "目标时长必须在 10 到 3600 秒之间"@
            &&& !title && !outline && !length && speech ==> told == "不支持的口播 Provider: "@
                + request.speech_provider@
            &&& !title && !outline && !length && !speech && captions ==> told
                == "不支持的字幕 Provider: "@ + request.transcription_provider@
            &&& !title && !outline && !length && !speech && !captions && model ==> told
                == "口播模型"@ + "必须为 1 到 128 个字符"@
            &&& !title && !outline && !length && !speech && !captions && !model ==> told
                == "字幕模型"@ + "必须为 1 到 128 个字符"@
        }),
{
}

/// An aspect ratio is stored as its proportion, and its frames have it.
pub proof fn law_aspect_ratio(ratio: AspectRatio, stored: &'static str, size: (i32, i32))
    requires
        call_ensures(AspectRatio::database_value, (&ratio,), stored),
        call_ensures(AspectRatio::dimensions, (&ratio,), size),
    ensures
        ratio == AspectRatio::Landscape ==> stored@ == "16:9"@ && size.0 * 9 == size.1 * 16
            && size.1 == 1080,
        ratio == AspectRatio::Portrait ==> stored@ == "9:16"@ && size.0 * 16 == size.1 * 9
            && size.0 == 1080,
        ratio == AspectRatio::Square ==> stored@ == "1:1"@ && size.0 == size.1 && size.0 == 1080,
{
}

/// What a request leaves out is filled in so that the request passes, with a review and at once.
pub proof fn law_defaults_of_a_request(
    request: CreateProjectRequest,
    language: String,
    aspect_ratio: AspectRatio,
    seconds: i32,
    voice: String,
    review: bool,
    auto_start: bool,
    r: AppResult<()>,
)
    requires
        call_ensures(default_language, (), language),
        call_ensures(default_aspect_ratio, (), aspect_ratio),
        call_ensures(default_duration, (), seconds),
        call_ensures(default_voice, (), voice),
        call_ensures(default_review, (), review),
        call_ensures(default_auto_start, (), auto_start),
        call_ensures(default_speech_provider, (), request.speech_provider),
        call_ensures(default_speech_model, (), request.speech_model),
        call_ensures(default_transcription_provider, (), request.transcription_provider),
        call_ensures(default_transcription_model, (), request.transcription_model),
        request.target_duration_seconds == seconds,
        filled(request.title@, 200),
        filled(request.source_text@, 20_000),
        call_ensures(CreateProjectRequest::validate, (&request,), r),
    ensures
        r is Ok,
        language@ == "zh-CN"@,
        aspect_ratio is Landscape,
        seconds == 3 * 60,
        voice@ == "coral"@,
        review && auto_start,
        request.speech_provider@ == "openai"@,
        request.speech_model@ == "gpt-4o-mini-tts"@,
        request.transcription_provider@ == "openai"@,
        request.transcription_model@ == "whisper-1"@,
{
    law_defaults_pass(request);
}

/// A validation error says what it is given, and what it is about behind it.
pub proof fn law_validation_errors(
    text: &str,
    subject: &str,
    about: AppError,
    fixed: AppError,
)
    requires
        call_ensures(invalid, (text, subject), about),
        call_ensures(rejected, (text,), fixed),
    ensures
        about@ == ErrorView::Validation(text@ + subject@),
        fixed@ == ErrorView::Validation(text@),
{
}

} // verus!
