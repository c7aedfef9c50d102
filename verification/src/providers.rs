//! The protocol of the model gateway: what is asked of it and what is made of its replies.
pub mod local;

use crate::config::Settings;
use crate::domain::{CaptionCue, Project, ScriptSpec};
use crate::error::{AppError, AppResult, ErrorView};
use crate::ids::Id;
use crate::text::{
    decimal, decimal_i64, law_decimal_round_trip, lemma_same_frame, lemma_says, parse_i64,
    parsed_i64, says,
};
use vstd::prelude::*;
use vstd::string::*;
use vstd::utf8::{decode_utf8, valid_utf8};

verus! {

#[derive(Clone, Debug)]
pub struct ProviderUsage {
    pub request_id: Option<String>,
    pub input_units: Option<i64>,
    pub output_units: Option<i64>,
    pub latency_ms: i64,
}

impl Default for ProviderUsage {
    fn default() -> (r: ProviderUsage)
        ensures
            r == (ProviderUsage {
                request_id: None,
                input_units: None,
                output_units: None,
                latency_ms: 0,
            }),
    {
        ProviderUsage { request_id: None, input_units: None, output_units: None, latency_ms: 0 }
    }
}

#[derive(Clone, Debug)]
pub struct ProviderOutput<T> {
    pub value: T,
    pub usage: ProviderUsage,
}

/// The providers and models that the gateway offers for each capability.
#[derive(Clone, Debug)]
pub struct ProviderCatalog {
    pub text: Vec<ProviderOption>,
    pub image: Vec<ProviderOption>,
    pub speech: Vec<ProviderOption>,
    pub alignment: Vec<ProviderOption>,
}

#[derive(Clone, Debug)]
pub struct ProviderOption {
    pub id: String,
    pub label: String,
    pub model: String,
    pub available: bool,
    pub voices: Vec<String>,
}

/// An illustration to be generated, in the exact size that the video needs.
pub struct ImageGenerationRequest<'a> {
    pub prompt: &'a str,
    pub width: i32,
    pub height: i32,
    pub quality: &'a str,
    pub provider: &'a str,
    pub model: &'a str,
    pub request_id: Id,
}

/// A request for a text with a given structure.
pub struct TextCall {
    pub url: String,
    pub provider: String,
    pub model: String,
    pub system: &'static str,
    pub prompt: String,
    pub schema_name: &'static str,
    pub request_id: Id,
}

/// A request for an image.
pub struct ImageCall {
    pub url: String,
    pub provider: String,
    pub model: String,
    pub prompt: String,
    pub width: i32,
    pub height: i32,
    pub quality: String,
    pub request_id: Id,
    /// The characters of the prompt, which the usage counts.
    pub input_units: i64,
}

/// A request for spoken text.
pub struct SpeechCall {
    pub url: String,
    pub provider: String,
    pub model: String,
    pub text: String,
    pub voice: String,
    pub output_format: &'static str,
    pub instructions: &'static str,
    pub request_id: Id,
    /// The characters of the text, which the usage counts.
    pub input_units: i64,
}

/// A request to align spoken audio with its text. The audio itself goes along as a file.
pub struct AlignmentCall {
    pub url: String,
    pub provider: String,
    pub model: String,
    pub canonical_text: String,
    pub request_id: Id,
    pub file_name: &'static str,
    pub content_type: &'static str,
}

/// A reply over HTTP.
pub struct HttpReply {
    pub status: u16,
    /// The status as it is shown, with its reason.
    pub status_text: String,
    pub body: Vec<u8>,
}

/// What identifies and measures a reply, from its headers and a clock.
pub struct ReplyMeta {
    pub request_id: Option<String>,
    pub latency_header: Option<String>,
    pub elapsed_ms: i64,
}

/// What `String::from_utf8_lossy` makes of a sequence of bytes.
pub uninterp spec fn utf8_lossy(bytes: Seq<u8>) -> Seq<char>;

/// Calls `String::from_utf8_lossy`. The text is a function of the bytes alone, and of valid
/// UTF-8 it is what the bytes encode; what stands for the rest is not stated.
#[verifier::external_body]
pub(crate) fn lossy(bytes: &[u8]) -> (r: String)
    ensures
        r@ == utf8_lossy(bytes@),
        valid_utf8(bytes@) ==> r@ == decode_utf8(bytes@),
{
    String::from_utf8_lossy(bytes).into_owned()
}

pub open spec fn success(status: u16) -> bool {
    200 <= status < 300
}

/// An error of the model gateway.
pub open spec fn gateway_failure(message: Seq<char>) -> ErrorView {
    ErrorView::External { service: "model-gateway"@, message }
}

/// How a reply that is no success is reported.
pub open spec fn http_failure(reply: HttpReply) -> Seq<char> {
    "HTTP "@ + reply.status_text@ + ": "@ + utf8_lossy(reply.body@)
}

/// The prompt for the script of a project.
pub open spec fn script_prompt(project: Project) -> Seq<char> {
    "根据下面主题或大纲生成完整视频文稿。语言："@ + project.language@ + "；目标时长："@ + decimal(
        project.target_duration_seconds as int,
    ) + "秒；画幅："@ + project.aspect_ratio@
        + "。文稿需要有开场钩子、清晰结构、自然转场和结尾总结。视觉风格必须具体且全片一致。\n\n标题："@
        + project.title@ + "\n输入："@ + project.source_text@
}

/// The prompt for the storyboard of a script.
pub open spec fn storyboard_prompt(project: Project, script: ScriptSpec) -> Seq<char> {
    "画幅："@ + project.aspect_ratio@ + "；视觉方向："@ + script.visual_style@
        + "。请为以下文稿设计分镜：\n"@ + script.full_narration@
}

/// The latency that a reply states, or the time that it took where it states none.
pub open spec fn latency(meta: ReplyMeta) -> i64 {
    match meta.latency_header {
        Some(text) => match parsed_i64(text@) {
            Some(ms) => ms,
            None => meta.elapsed_ms,
        },
        None => meta.elapsed_ms,
    }
}

pub fn gateway_error(message: String) -> (r: AppError)
    ensures
        r@ == gateway_failure(message@),
{
    AppError::external("model-gateway", message)
}

/// The error for a reply of the gateway that cannot be read.
fn unreadable(what: &str, reason: &str) -> (r: AppError)
    ensures
        r@ == gateway_failure(what@ + reason@),
{
    let mut message = what.to_owned();
    message.append(reason);
    gateway_error(message)
}

/// How a reply that is no success is reported.
pub fn http_error_text(reply: &HttpReply) -> (r: String)
    ensures
        r@ == http_failure(*reply),
{
    let body = lossy(reply.body.as_slice());
    let mut message = "HTTP ".to_owned();
    message.append(reply.status_text.as_str());
    message.append(": ");
    message.append(body.as_str());
    message
}

/// The body of a successful reply of the gateway.
pub fn checked_bytes(reply: HttpReply) -> (r: AppResult<Vec<u8>>)
    ensures
        success(reply.status) ==> r is Ok && r->Ok_0 == reply.body,
        !success(reply.status) ==> r is Err && r->Err_0@ == gateway_failure(http_failure(reply)),
{
    if reply.status < 200 || reply.status >= 300 {
        return Err(gateway_error(http_error_text(&reply)));
    }
    Ok(reply.body)
}

/// A binary reply of the gateway with its usage.
pub fn binary_output(reply: HttpReply, meta: ReplyMeta, input_units: Option<i64>) -> (r: AppResult<
    ProviderOutput<Vec<u8>>,
>)
    ensures
        success(reply.status) ==> r is Ok && r->Ok_0 == (ProviderOutput {
            value: reply.body,
            usage: ProviderUsage {
                request_id: meta.request_id,
                input_units,
                output_units: None,
                latency_ms: latency(meta),
            },
        }),
        !success(reply.status) ==> r is Err && r->Err_0@ == gateway_failure(http_failure(reply)),
{
    let latency_ms = match &meta.latency_header {
        Some(text) => match parse_i64(text.as_str()) {
            Some(ms) => ms,
            None => meta.elapsed_ms,
        },
        None => meta.elapsed_ms,
    };
    let value = match checked_bytes(reply) {
        Ok(value) => value,
        Err(error) => return Err(error),
    };
    Ok(
        ProviderOutput {
            value,
            usage: ProviderUsage {
                request_id: meta.request_id,
                input_units,
                output_units: None,
                latency_ms,
            },
        },
    )
}

/// What is made of the catalog in a reply, once it was parsed or could not be.
pub fn catalog_output(parsed: Result<ProviderCatalog, String>) -> (r: AppResult<ProviderCatalog>)
    ensures
        parsed is Ok ==> r is Ok && r->Ok_0 == parsed->Ok_0,
        parsed is Err ==> r is Err && r->Err_0@ == gateway_failure(
            "模型目录解析失败: "@ + parsed->Err_0@,
        ),
{
    match parsed {
        Ok(catalog) => Ok(catalog),
        Err(reason) => Err(unreadable("模型目录解析失败: ", reason.as_str())),
    }
}

/// What is made of the structured text in a reply, once it was parsed or could not be.
pub fn structured_output<T>(parsed: Result<ProviderOutput<T>, String>) -> (r: AppResult<
    ProviderOutput<T>,
>)
    ensures
        parsed is Ok ==> r is Ok && r->Ok_0 == parsed->Ok_0,
        parsed is Err ==> r is Err && r->Err_0@ == gateway_failure(
            "结构化响应解析失败: "@ + parsed->Err_0@,
        ),
{
    match parsed {
        Ok(output) => Ok(output),
        Err(reason) => Err(unreadable("结构化响应解析失败: ", reason.as_str())),
    }
}

/// What is made of the cues in a reply, once they were parsed or could not be. A reply
/// without any cue is an error.
pub fn alignment_output(parsed: Result<ProviderOutput<Vec<CaptionCue>>, String>) -> (r: AppResult<
    ProviderOutput<Vec<CaptionCue>>,
>)
    ensures
        parsed is Err ==> r is Err && r->Err_0@ == gateway_failure(
            "字幕对齐响应解析失败: "@ + parsed->Err_0@,
        ),
        parsed is Ok && parsed->Ok_0.value@.len() == 0 ==> r is Err && r->Err_0@
            == gateway_failure("字幕对齐响应没有字符级时间戳"@),
        parsed is Ok && parsed->Ok_0.value@.len() > 0 ==> r is Ok && r->Ok_0 == parsed->Ok_0,
{
    match parsed {
        Ok(output) => {
            if output.value.len() == 0 {
                return Err(gateway_error("字幕对齐响应没有字符级时间戳".to_owned()));
            }
            Ok(output)
        },
        Err(reason) => Err(unreadable("字幕对齐响应解析失败: ", reason.as_str())),
    }
}

/// The client of the gateway: where it is, and what is asked of it.
#[derive(Clone, Debug)]
pub struct ModelGatewayClient {
    pub base_url: String,
}

/// How the model is told to write scripts.
pub const SCRIPT_SYSTEM: &'static str =
    "你是资深视频策划和中文口播编辑。输出可直接口播的自然文稿，事实不确定时不要编造。严格遵守 JSON Schema，不输出 Markdown。";

/// How the model is told to make storyboards.
pub const STORYBOARD_SYSTEM: &'static str =
    "你是视频导演和分镜设计师。把口播稿拆成可渲染场景。每个场景约3到10秒，narration 合并后不得遗漏或改写原文。插图提示词要包含构图、主体、光线、色彩和统一风格，不要在图片中生成文字。严格遵守 JSON Schema。";

/// How the model is told to speak.
pub const SPEECH_INSTRUCTIONS: &'static str = "自然、清晰、有亲和力的专业中文口播，停顿适中。";

/// How long a request may take, in seconds.
pub const REQUEST_TIMEOUT_SECONDS: u64 = 1800;

/// How long the catalog may take, in seconds.
pub const CATALOG_TIMEOUT_SECONDS: u64 = 10;

impl ModelGatewayClient {
    pub fn new(settings: &Settings) -> (r: ModelGatewayClient)
        ensures
            r.base_url == settings.model_gateway_url,
    {
        ModelGatewayClient { base_url: settings.model_gateway_url.clone() }
    }

    fn url(&self, path: &str) -> (r: String)
        ensures
            r@ == self.base_url@ + path@,
    {
        let mut url = self.base_url.clone();
        url.append(path);
        url
    }

    /// Where the catalog is.
    pub fn list_models(&self) -> (r: String)
        ensures
            r@ == self.base_url@ + "/v1/models"@,
    {
        self.url("/v1/models")
    }

    fn structured(
        &self,
        provider: &str,
        model: &str,
        system: &'static str,
        prompt: String,
        schema_name: &'static str,
        request_id: Id,
    ) -> (r: TextCall)
        ensures
            r.url@ == self.base_url@ + "/v1/text/generate"@,
            r.provider@ == provider@,
            r.model@ == model@,
            r.system == system,
            r.prompt == prompt,
            r.schema_name == schema_name,
            r.request_id == request_id,
    {
        TextCall {
            url: self.url("/v1/text/generate"),
            provider: provider.to_owned(),
            model: model.to_owned(),
            system,
            prompt,
            schema_name,
            request_id,
        }
    }

    /// The request for the script of a project.
    pub fn generate_script(
        &self,
        project: &Project,
        provider: &str,
        model: &str,
        request_id: Id,
    ) -> (r: TextCall)
        ensures
            r.url@ == self.base_url@ + "/v1/text/generate"@,
            r.provider@ == provider@,
            r.model@ == model@,
            r.system@ == SCRIPT_SYSTEM@,
            r.prompt@ == script_prompt(*project),
            r.schema_name@ == "video_script"@,
            r.request_id == request_id,
    {
        let duration = decimal_i64(project.target_duration_seconds as i64);
        let mut prompt = "根据下面主题或大纲生成完整视频文稿。语言：".to_owned();
        prompt.append(project.language.as_str());
        prompt.append("；目标时长：");
        prompt.append(duration.as_str());
        prompt.append("秒；画幅：");
        prompt.append(project.aspect_ratio.as_str());
        prompt.append(
            "。文稿需要有开场钩子、清晰结构、自然转场和结尾总结。视觉风格必须具体且全片一致。\n\n标题：",
        );
        prompt.append(project.title.as_str());
        prompt.append("\n输入：");
        prompt.append(project.source_text.as_str());
        self.structured(
            provider,
            model,
            SCRIPT_SYSTEM,
            prompt,
            "video_script",
            request_id,
        )
    }

    /// The request for the storyboard of a script.
    pub fn generate_storyboard(
        &self,
        project: &Project,
        script: &ScriptSpec,
        provider: &str,
        model: &str,
        request_id: Id,
    ) -> (r: TextCall)
        ensures
            r.url@ == self.base_url@ + "/v1/text/generate"@,
            r.provider@ == provider@,
            r.model@ == model@,
            r.system@ == STORYBOARD_SYSTEM@,
            r.prompt@ == storyboard_prompt(*project, *script),
            r.schema_name@ == "video_storyboard"@,
            r.request_id == request_id,
    {
        let mut prompt = "画幅：".to_owned();
        prompt.append(project.aspect_ratio.as_str());
        prompt.append("；视觉方向：");
        prompt.append(script.visual_style.as_str());
        prompt.append("。请为以下文稿设计分镜：\n");
        prompt.append(script.full_narration.as_str());
        self.structured(
            provider,
            model,
            STORYBOARD_SYSTEM,
            prompt,
            "video_storyboard",
            request_id,
        )
    }

    /// The request for an illustration.
    pub fn generate_image(&self, request: ImageGenerationRequest<'_>) -> (r: ImageCall)
        ensures
            r.url@ == self.base_url@ + "/v1/images/generate"@,
            r.provider@ == request.provider@,
            r.model@ == request.model@,
            r.prompt@ == request.prompt@,
            r.width == request.width,
            r.height == request.height,
            r.quality@ == request.quality@,
            r.request_id == request.request_id,
            r.input_units == request.prompt@.len() as i64,
    {
        ImageCall {
            url: self.url("/v1/images/generate"),
            provider: request.provider.to_owned(),
            model: request.model.to_owned(),
            prompt: request.prompt.to_owned(),
            width: request.width,
            height: request.height,
            quality: request.quality.to_owned(),
            request_id: request.request_id,
            input_units: request.prompt.unicode_len() as i64,
        }
    }

    /// The request for the narration of a scene.
    pub fn synthesize_speech(
        &self,
        text: &str,
        voice: &str,
        provider: &str,
        model: &str,
        request_id: Id,
    ) -> (r: SpeechCall)
        ensures
            r.url@ == self.base_url@ + "/v1/audio/speech"@,
            r.provider@ == provider@,
            r.model@ == model@,
            r.text@ == text@,
            r.voice@ == voice@,
            r.output_format@ == "wav"@,
            r.instructions@ == SPEECH_INSTRUCTIONS@,
            r.request_id == request_id,
            r.input_units == text@.len() as i64,
    {
        SpeechCall {
            url: self.url("/v1/audio/speech"),
            provider: provider.to_owned(),
            model: model.to_owned(),
            text: text.to_owned(),
            voice: voice.to_owned(),
            output_format: "wav",
            instructions: SPEECH_INSTRUCTIONS,
            request_id,
            input_units: text.unicode_len() as i64,
        }
    }

    /// The request to align the narration of a scene with its text.
    pub fn align_speech(
        &self,
        canonical_text: &str,
        provider: &str,
        model: &str,
        request_id: Id,
    ) -> (r: AlignmentCall)
        ensures
            r.url@ == self.base_url@ + "/v1/audio/transcribe"@,
            r.provider@ == provider@,
            r.model@ == model@,
            r.canonical_text@ == canonical_text@,
            r.request_id == request_id,
            r.file_name@ == "speech.wav"@,
            r.content_type@ == "audio/wav"@,
    {
        AlignmentCall {
            url: self.url("/v1/audio/transcribe"),
            provider: provider.to_owned(),
            model: model.to_owned(),
            canonical_text: canonical_text.to_owned(),
            request_id,
            file_name: "speech.wav",
            content_type: "audio/wav",
        }
    }
}

/// The request for a script goes to the chosen provider and model under the given request, and its
/// prompt states the project's own language, target duration in seconds, aspect ratio, title and
/// outline, each behind its label; the outline comes last.
pub proof fn law_script_prompt_states_the_project(
    client: ModelGatewayClient,
    project: Project,
    provider: &str,
    model: &str,
    request_id: Id,
    r: TextCall,
)
    requires
        call_ensures(
            ModelGatewayClient::generate_script,
            (&client, &project, provider, model, request_id),
            r,
        ),
    ensures
        r.url@ == client.base_url@ + "/v1/text/generate"@,
        r.provider@ == provider@,
        r.model@ == model@,
        r.request_id == request_id,
        r.schema_name@ == "video_script"@,
        says(r.prompt@, "语言："@ + project.language@ + "；"@),
        says(r.prompt@, "目标时长："@ + decimal(project.target_duration_seconds as int) + "秒"@),
        says(r.prompt@, "画幅："@ + project.aspect_ratio@ + "。"@),
        says(r.prompt@, "标题："@ + project.title@ + "\n"@),
        ("输入："@ + project.source_text@).is_suffix_of(r.prompt@),
{
    let language = project.language@;
    let seconds = decimal(project.target_duration_seconds as int);
    let ratio = project.aspect_ratio@;
    let title = project.title@;
    let outline = project.source_text@;
    let opening = "根据下面主题或大纲生成完整视频文稿。语言："@;
    let advice =
        "。文稿需要有开场钩子、清晰结构、自然转场和结尾总结。视觉风格必须具体且全片一致。\n\n标题："@;
    reveal_strlit("根据下面主题或大纲生成完整视频文稿。语言：");
    reveal_strlit("；目标时长：");
    reveal_strlit("秒；画幅：");
    reveal_strlit(
        "。文稿需要有开场钩子、清晰结构、自然转场和结尾总结。视觉风格必须具体且全片一致。\n\n标题：",
    );
    reveal_strlit("\n输入：");
    reveal_strlit("语言：");
    reveal_strlit("目标时长：");
    reveal_strlit("秒");
    reveal_strlit("画幅：");
    reveal_strlit("标题：");
    reveal_strlit("输入：");
    reveal_strlit("；");
    reveal_strlit("。");
    reveal_strlit("\n");
    let text = r.prompt@;
    let open = opening.take(opening.len() - 3);
    let mid = advice.subrange(1, advice.len() - 3);
    assert(opening =~= open + "语言："@);
    assert("；目标时长："@ =~= "；"@ + "目标时长："@);
    assert("秒；画幅："@ =~= "秒"@ + "；"@ + "画幅："@);
    assert(advice =~= "。"@ + mid + "标题："@);
    assert("\n输入："@ =~= "\n"@ + "输入："@);
    let a = "语言："@ + language + "；"@;
    let b = "目标时长："@ + seconds + "秒"@;
    let c = "画幅："@ + ratio + "。"@;
    let d = "标题："@ + title + "\n"@;
    let e = "输入："@ + outline;
    assert(text =~= open + a + (b + "；"@ + c + mid + d + e));
    lemma_says(text, open, a, b + "；"@ + c + mid + d + e);
    assert(text =~= (open + a) + b + ("；"@ + c + mid + d + e));
    lemma_says(text, open + a, b, "；"@ + c + mid + d + e);
    assert(text =~= (open + a + b + "；"@) + c + (mid + d + e));
    lemma_says(text, open + a + b + "；"@, c, mid + d + e);
    assert(text =~= (open + a + b + "；"@ + c + mid) + d + e);
    lemma_says(text, open + a + b + "；"@ + c + mid, d, e);
    assert(text.subrange(text.len() - e.len(), text.len() as int) =~= e);
}

/// Two projects that differ in just one of what a prompt for a script states have the same prompt
/// exactly where they do not differ in it: a longer project asks for a longer script. And what
/// stands in a prompt besides is the same for all.
pub proof fn law_script_prompts_tell_projects_apart(
    client: ModelGatewayClient,
    provider: &str,
    model: &str,
    request_id: Id,
    one: Project,
    other: Project,
    r: TextCall,
    s: TextCall,
)
    requires
        call_ensures(
            ModelGatewayClient::generate_script,
            (&client, &one, provider, model, request_id),
            r,
        ),
        call_ensures(
            ModelGatewayClient::generate_script,
            (&client, &other, provider, model, request_id),
            s,
        ),
    ensures
        ({
            let language = one.language@ == other.language@;
            let seconds = one.target_duration_seconds == other.target_duration_seconds;
            let ratio = one.aspect_ratio@ == other.aspect_ratio@;
            let title = one.title@ == other.title@;
            let outline = one.source_text@ == other.source_text@;
            let same = r.prompt@ == s.prompt@;
            &&& ratio && title && outline && language ==> (same <==> seconds)
            &&& ratio && title && outline && seconds ==> (same <==> language)
            &&& title && outline && seconds && language ==> (same <==> ratio)
            &&& ratio && outline && seconds && language ==> (same <==> title)
            &&& ratio && title && seconds && language ==> (same <==> outline)
        }),
        r.prompt@.len() - (one.language@.len() + decimal(one.target_duration_seconds as int).len()
            + one.aspect_ratio@.len() + one.title@.len() + one.source_text@.len()) == s.prompt@.len()
            - (other.language@.len() + decimal(other.target_duration_seconds as int).len()
            + other.aspect_ratio@.len() + other.title@.len() + other.source_text@.len()),
{
    let opening = "根据下面主题或大纲生成完整视频文稿。语言："@;
    let advice =
        "。文稿需要有开场钩子、清晰结构、自然转场和结尾总结。视觉风格必须具体且全片一致。\n\n标题："@;
    let l = one.language@;
    let d = decimal(one.target_duration_seconds as int);
    let a = one.aspect_ratio@;
    let t = one.title@;
    let o = one.source_text@;
    let dd = decimal(other.target_duration_seconds as int);
    law_decimal_round_trip(one.target_duration_seconds as i64);
    law_decimal_round_trip(other.target_duration_seconds as i64);
    assert(one.target_duration_seconds == other.target_duration_seconds <==> d == dd);
    let at_seconds = opening + l + "；目标时长："@;
    let past_seconds = "秒；画幅："@ + a + advice + t + "\n输入："@ + o;
    lemma_same_frame(at_seconds, d, dd, past_seconds);
    let past_language = "；目标时长："@ + d + past_seconds;
    lemma_same_frame(opening, l, other.language@, past_language);
    let at_ratio = at_seconds + d + "秒；画幅："@;
    let past_ratio = advice + t + "\n输入："@ + o;
    lemma_same_frame(at_ratio, a, other.aspect_ratio@, past_ratio);
    let at_title = at_ratio + a + advice;
    lemma_same_frame(at_title, t, other.title@, "\n输入："@ + o);
    let at_outline = at_title + t + "\n输入："@;
    lemma_same_frame(at_outline, o, other.source_text@, Seq::empty());
    let p = r.prompt@;
    let q = s.prompt@;
    assert(p =~= at_seconds + d + past_seconds);
    assert(p =~= opening + l + past_language);
    assert(p =~= at_ratio + a + past_ratio);
    assert(p =~= at_title + t + ("\n输入："@ + o));
    assert(p =~= at_outline + o + Seq::<char>::empty());
    if one.aspect_ratio@ == other.aspect_ratio@ && one.title@ == other.title@ && one.source_text@
        == other.source_text@ && one.language@ == other.language@ {
        assert(q =~= at_seconds + dd + past_seconds);
    }
    if one.aspect_ratio@ == other.aspect_ratio@ && one.title@ == other.title@ && one.source_text@
        == other.source_text@ && d == dd {
        assert(q =~= opening + other.language@ + past_language);
    }
    if one.title@ == other.title@ && one.source_text@ == other.source_text@ && d == dd
        && one.language@ == other.language@ {
        assert(q =~= at_ratio + other.aspect_ratio@ + past_ratio);
    }
    if one.aspect_ratio@ == other.aspect_ratio@ && one.source_text@ == other.source_text@ && d
        == dd && one.language@ == other.language@ {
        assert(q =~= at_title + other.title@ + ("\n输入："@ + o));
    }
    if one.aspect_ratio@ == other.aspect_ratio@ && one.title@ == other.title@ && d == dd
        && one.language@ == other.language@ {
        assert(q =~= at_outline + other.source_text@ + Seq::<char>::empty());
    }
}

/// The request for a storyboard goes to the chosen provider and model under the given request, and
/// its prompt states the aspect ratio of the project, the visual style of the script and, at the
/// end and in full, its narration. Nothing else of the two changes the prompt.
pub proof fn law_storyboard_prompt_states_the_script(
    client: ModelGatewayClient,
    project: Project,
    script: ScriptSpec,
    provider: &str,
    model: &str,
    request_id: Id,
    r: TextCall,
)
    requires
        call_ensures(
            ModelGatewayClient::generate_storyboard,
            (&client, &project, &script, provider, model, request_id),
            r,
        ),
    ensures
        r.url@ == client.base_url@ + "/v1/text/generate"@,
        r.provider@ == provider@,
        r.model@ == model@,
        r.request_id == request_id,
        r.schema_name@ == "video_storyboard"@,
        r.system@ == STORYBOARD_SYSTEM@,
        says(r.prompt@, "画幅："@ + project.aspect_ratio@ + "；"@),
        says(r.prompt@, "视觉方向："@ + script.visual_style@ + "。"@),
        ("\n"@ + script.full_narration@).is_suffix_of(r.prompt@),
        r.prompt@.len() == 22 + project.aspect_ratio@.len() + script.visual_style@.len()
            + script.full_narration@.len(),
{
    let a = "画幅："@ + project.aspect_ratio@ + "；"@;
    let b = "视觉方向："@ + script.visual_style@ + "。"@;
    let narration = script.full_narration@;
    reveal_strlit("画幅：");
    reveal_strlit("；视觉方向：");
    reveal_strlit("。请为以下文稿设计分镜：\n");
    reveal_strlit("视觉方向：");
    reveal_strlit("；");
    reveal_strlit("。");
    reveal_strlit("\n");
    let ask = "。请为以下文稿设计分镜：\n"@;
    let mid = ask.subrange(1, ask.len() - 1);
    assert("；视觉方向："@ =~= "；"@ + "视觉方向："@);
    assert(ask =~= "。"@ + mid + "\n"@);
    let e = "\n"@ + narration;
    let text = r.prompt@;
    assert(text =~= Seq::<char>::empty() + a + (b + mid + e));
    lemma_says(text, Seq::empty(), a, b + mid + e);
    assert(text =~= a + b + (mid + e));
    lemma_says(text, a, b, mid + e);
    assert(text.subrange(text.len() - e.len(), text.len() as int) =~= e);
}

/// The request for an illustration is what was asked for: its prompt, its exact size, its quality
/// and its provider and model, each in its own place.
pub proof fn law_image_call_is_the_request(
    client: ModelGatewayClient,
    request: ImageGenerationRequest<'_>,
    r: ImageCall,
)
    requires
        call_ensures(ModelGatewayClient::generate_image, (&client, request), r),
    ensures
        r.url@ == client.base_url@ + "/v1/images/generate"@,
        r.provider@ == request.provider@,
        r.model@ == request.model@,
        r.prompt@ == request.prompt@,
        r.width == request.width,
        r.height == request.height,
        r.quality@ == request.quality@,
        r.request_id == request.request_id,
        r.prompt@.len() <= i64::MAX ==> r.input_units == r.prompt@.len(),
{
}

/// The requests for a narration and for its alignment carry the text that was given, and go to the
/// provider and the model that were given, under the given request.
pub proof fn law_speech_calls_carry_the_text(
    client: ModelGatewayClient,
    text: &str,
    voice: &str,
    provider: &str,
    model: &str,
    request_id: Id,
    speech: SpeechCall,
    alignment: AlignmentCall,
)
    requires
        call_ensures(
            ModelGatewayClient::synthesize_speech,
            (&client, text, voice, provider, model, request_id),
            speech,
        ),
        call_ensures(
            ModelGatewayClient::align_speech,
            (&client, text, provider, model, request_id),
            alignment,
        ),
    ensures
        speech.url@ == client.base_url@ + "/v1/audio/speech"@,
        speech.text@ == text@,
        speech.voice@ == voice@,
        speech.provider@ == provider@ && speech.model@ == model@,
        speech.request_id == request_id,
        speech.output_format@ == "wav"@,
        speech.instructions@ == SPEECH_INSTRUCTIONS@,
        text@.len() <= i64::MAX ==> speech.input_units == text@.len(),
        alignment.url@ == client.base_url@ + "/v1/audio/transcribe"@,
        alignment.canonical_text@ == text@,
        alignment.provider@ == provider@ && alignment.model@ == model@,
        alignment.request_id == request_id,
        alignment.file_name@ == "speech.wav"@ && alignment.content_type@ == "audio/wav"@,
{
}

/// The gateway of the settings is the one that is asked, and its catalog is where its models are.
pub proof fn law_gateway_of_the_settings(settings: Settings, client: ModelGatewayClient, url: String)
    requires
        call_ensures(ModelGatewayClient::new, (&settings,), client),
        call_ensures(ModelGatewayClient::list_models, (&client,), url),
    ensures
        client.base_url == settings.model_gateway_url,
        url@ == settings.model_gateway_url@ + "/v1/models"@,
{
}

/// The models are told not to invent facts, not to leave out or change what is said, and to keep
/// text out of images; and a narration is asked for in a clear, natural voice.
pub proof fn law_instructions_of_the_models()
    ensures
        says(SCRIPT_SYSTEM@, "事实不确定时不要编造"@),
        says(SCRIPT_SYSTEM@, "严格遵守 JSON Schema"@),
        says(STORYBOARD_SYSTEM@, "narration 合并后不得遗漏或改写原文"@),
        says(STORYBOARD_SYSTEM@, "不要在图片中生成文字"@),
        says(STORYBOARD_SYSTEM@, "每个场景约3到10秒"@),
        says(SPEECH_INSTRUCTIONS@, "自然、清晰"@),
        says(SCRIPT_SYSTEM@, "输出可直接口播的自然文稿"@),
        says(SCRIPT_SYSTEM@, "不输出 Markdown"@),
        says(STORYBOARD_SYSTEM@, "把口播稿拆成可渲染场景"@),
        says(STORYBOARD_SYSTEM@, "严格遵守 JSON Schema"@),
        says(SPEECH_INSTRUCTIONS@, "停顿适中"@),
        REQUEST_TIMEOUT_SECONDS == 30 * 60,
        CATALOG_TIMEOUT_SECONDS == 10,
{
    reveal_strlit(
        "你是资深视频策划和中文口播编辑。输出可直接口播的自然文稿，事实不确定时不要编造。严格遵守 JSON Schema，不输出 Markdown。",
    );
    reveal_strlit(
        "你是视频导演和分镜设计师。把口播稿拆成可渲染场景。每个场景约3到10秒，narration 合并后不得遗漏或改写原文。插图提示词要包含构图、主体、光线、色彩和统一风格，不要在图片中生成文字。严格遵守 JSON Schema。",
    );
    reveal_strlit("自然、清晰、有亲和力的专业中文口播，停顿适中。");
    reveal_strlit("事实不确定时不要编造");
    reveal_strlit("严格遵守 JSON Schema");
    reveal_strlit("narration 合并后不得遗漏或改写原文");
    reveal_strlit("不要在图片中生成文字");
    reveal_strlit("每个场景约3到10秒");
    reveal_strlit("自然、清晰");
    let script = SCRIPT_SYSTEM@;
    let storyboard = STORYBOARD_SYSTEM@;
    let speech = SPEECH_INSTRUCTIONS@;
    assert(script.subrange(29, 29int + "事实不确定时不要编造"@.len()) =~= "事实不确定时不要编造"@);
    assert(script.subrange(40, 40int + "严格遵守 JSON Schema"@.len()) =~= "严格遵守 JSON Schema"@);
    assert(storyboard.subrange(25, 25int + "每个场景约3到10秒"@.len()) =~= "每个场景约3到10秒"@);
    assert(storyboard.subrange(36, 36int + "narration 合并后不得遗漏或改写原文"@.len()) =~= "narration 合并后不得遗漏或改写原文"@);
    assert(storyboard.subrange(84, 84int + "不要在图片中生成文字"@.len()) =~= "不要在图片中生成文字"@);
    assert(speech.subrange(0, 0int + "自然、清晰"@.len()) =~= "自然、清晰"@);
    reveal_strlit("输出可直接口播的自然文稿");
    assert(script.subrange(16, 16int + "输出可直接口播的自然文稿"@.len()) =~= "输出可直接口播的自然文稿"@);
    reveal_strlit("不输出 Markdown");
    assert(script.subrange(57, 57int + "不输出 Markdown"@.len()) =~= "不输出 Markdown"@);
    reveal_strlit("把口播稿拆成可渲染场景");
    assert(storyboard.subrange(13, 13int + "把口播稿拆成可渲染场景"@.len()) =~= "把口播稿拆成可渲染场景"@);
    reveal_strlit("严格遵守 JSON Schema");
    assert(storyboard.subrange(95, 95int + "严格遵守 JSON Schema"@.len()) =~= "严格遵守 JSON Schema"@);
    reveal_strlit("停顿适中");
    assert(speech.subrange(18, 18int + "停顿适中"@.len()) =~= "停顿适中"@);
}

/// A reply is taken exactly where its status is in the two hundreds, with its body as it is; of
/// any other the status and the body are told as an error of the gateway. The latency is what the
/// reply states, where it states a number, and else the time that it took.
pub proof fn law_binary_reply(
    reply: HttpReply,
    meta: ReplyMeta,
    input_units: Option<i64>,
    header: &str,
    stated: Option<i64>,
    r: AppResult<ProviderOutput<Vec<u8>>>,
)
    requires
        call_ensures(binary_output, (reply, meta, input_units), r),
        call_ensures(parse_i64, (header,), stated),
        meta.latency_header is Some ==> header@ == meta.latency_header->0@,
    ensures
        r is Ok <==> reply.status as int / 100 == 2,
        r is Ok ==> {
            &&& r->Ok_0.value == reply.body
            &&& r->Ok_0.usage.request_id == meta.request_id
            &&& r->Ok_0.usage.input_units == input_units
            &&& r->Ok_0.usage.output_units is None
            &&& meta.latency_header is Some && stated is Some ==> r->Ok_0.usage.latency_ms
                == stated->0
            &&& meta.latency_header is None || stated is None ==> r->Ok_0.usage.latency_ms
                == meta.elapsed_ms
        },
        r is Err ==> r->Err_0@ == (ErrorView::External {
            service: "model-gateway"@,
            message: "HTTP "@ + reply.status_text@ + ": "@ + utf8_lossy(reply.body@),
        }),
{
}

/// A reply of the gateway is taken exactly where its status is in the two hundreds.
pub proof fn law_checked_reply(reply: HttpReply, r: AppResult<Vec<u8>>)
    requires
        call_ensures(checked_bytes, (reply,), r),
    ensures
        r is Ok <==> reply.status as int / 100 == 2,
        r is Ok ==> r->Ok_0 == reply.body,
        r is Err ==> r->Err_0@ == (ErrorView::External {
            service: "model-gateway"@,
            message: "HTTP "@ + reply.status_text@ + ": "@ + utf8_lossy(reply.body@),
        }),
{
}

/// What a reply says is taken as it is, and a reply that cannot be read is an error of the gateway
/// that ends with why; so is an alignment without a cue.
pub proof fn law_parsed_replies<T>(
    catalog: Result<ProviderCatalog, String>,
    structured: Result<ProviderOutput<T>, String>,
    cues: Result<ProviderOutput<Vec<CaptionCue>>, String>,
    read_catalog: AppResult<ProviderCatalog>,
    read_structured: AppResult<ProviderOutput<T>>,
    read_cues: AppResult<ProviderOutput<Vec<CaptionCue>>>,
)
    requires
        call_ensures(catalog_output, (catalog,), read_catalog),
        call_ensures(structured_output, (structured,), read_structured),
        call_ensures(alignment_output, (cues,), read_cues),
    ensures
        match catalog {
            Ok(value) => read_catalog == Ok::<ProviderCatalog, AppError>(value),
            Err(reason) => read_catalog is Err && read_catalog->Err_0@ == (ErrorView::External {
                service: "model-gateway"@,
                message: "模型目录解析失败: "@ + reason@,
            }),
        },
        match structured {
            Ok(value) => read_structured == Ok::<ProviderOutput<T>, AppError>(value),
            Err(reason) => read_structured is Err && read_structured->Err_0@ == (
            ErrorView::External {
                service: "model-gateway"@,
                message: "结构化响应解析失败: "@ + reason@,
            }),
        },
        read_cues is Ok <==> cues is Ok && cues->Ok_0.value@.len() > 0,
        read_cues is Ok ==> read_cues->Ok_0 == cues->Ok_0,
        read_cues is Err ==> read_cues->Err_0@ is External && read_cues->Err_0@->External_service
            == "model-gateway"@,
        cues is Err ==> read_cues->Err_0@->External_message == "字幕对齐响应解析失败: "@
            + cues->Err_0@,
        cues is Ok && cues->Ok_0.value@.len() == 0 ==> read_cues->Err_0@->External_message
            == "字幕对齐响应没有字符级时间戳"@,
{
}

/// What goes wrong with the gateway is told under its name; a reply that is no success with its
/// status and its body. Where nothing is known of what a call used, nothing is claimed.
pub proof fn law_failures_of_the_gateway(
    message: String,
    error: AppError,
    reply: HttpReply,
    text: String,
    usage: ProviderUsage,
)
    requires
        call_ensures(gateway_error, (message,), error),
        call_ensures(http_error_text, (&reply,), text),
        call_ensures(ProviderUsage::default, (), usage),
    ensures
        error@ is External,
        error@->External_service == "model-gateway"@,
        error@->External_message == message@,
        text@ == "HTTP "@ + reply.status_text@ + ": "@ + utf8_lossy(reply.body@),
        usage.request_id is None && usage.input_units is None && usage.output_units is None,
        usage.latency_ms == 0,
{
}

} // verus!
