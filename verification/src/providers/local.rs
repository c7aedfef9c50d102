//! The protocols of the audio services that run beside the application.
use crate::domain::CaptionCue;
use crate::error::{AppError, AppResult, ErrorView};
use crate::ids::{hyphenated, Id};
use crate::providers::{
    http_error_text, http_failure, success, HttpReply, ProviderOutput, ProviderUsage,
    SPEECH_INSTRUCTIONS,
};
use vstd::prelude::*;
use vstd::string::*;

verus! {

/// Speech synthesis by CosyVoice.
#[derive(Clone, Debug)]
pub struct CosyVoiceSpeechProvider {
    pub base_url: String,
}

/// A request for spoken text.
pub struct CosyVoiceRequest {
    pub url: String,
    pub model: String,
    pub voice: String,
    pub input: String,
    pub instructions: &'static str,
    pub request_id: Id,
}

/// Alignment by faster-whisper.
#[derive(Clone, Debug)]
pub struct FasterWhisperTranscriptionProvider {
    pub base_url: String,
}

/// A request to align audio with its text. The audio itself goes along as a file.
pub struct FasterWhisperRequest {
    pub url: String,
    pub model: String,
    pub canonical_text: String,
    pub request_id: Id,
    pub file_name: &'static str,
    pub content_type: &'static str,
}

/// The body of a successful reply of `provider`.
pub fn checked_bytes(provider: &'static str, reply: HttpReply) -> (r: AppResult<Vec<u8>>)
    ensures
        success(reply.status) ==> r is Ok && r->Ok_0 == reply.body,
        !success(reply.status) ==> r is Err && r->Err_0@ == (ErrorView::External {
            service: provider@,
            message: http_failure(reply),
        }),
{
    if reply.status < 200 || reply.status >= 300 {
        return Err(AppError::external(provider, http_error_text(&reply)));
    }
    Ok(reply.body)
}

impl CosyVoiceSpeechProvider {
    pub fn new(base_url: String) -> (r: CosyVoiceSpeechProvider)
        ensures
            r.base_url == base_url,
    {
        CosyVoiceSpeechProvider { base_url }
    }

    pub fn name(&self) -> (r: &'static str)
        ensures
            r@ == "cosyvoice"@,
    {
        "cosyvoice"
    }

    /// The request for spoken text.
    pub fn synthesize_speech(
        &self,
        text: &str,
        voice: &str,
        model: &str,
        request_id: Id,
    ) -> (r: CosyVoiceRequest)
        ensures
            r.url@ == self.base_url@ + "/v1/speech"@,
            r.model@ == model@,
            r.voice@ == voice@,
            r.input@ == text@,
            r.instructions@ == "自然、清晰、有亲和力的专业中文口播，停顿适中。"@,
            r.request_id == request_id,
    {
        let mut url = self.base_url.clone();
        url.append("/v1/speech");
        CosyVoiceRequest {
            url,
            model: model.to_owned(),
            voice: voice.to_owned(),
            input: text.to_owned(),
            instructions: "自然、清晰、有亲和力的专业中文口播，停顿适中。",
            request_id,
        }
    }

    /// The audio in the reply to a request for `text`, which took `elapsed_ms`.
    pub fn speech_output(
        &self,
        text: &str,
        request_id: Id,
        reply: HttpReply,
        elapsed_ms: i64,
    ) -> (r: AppResult<ProviderOutput<Vec<u8>>>)
        ensures
            success(reply.status) ==> {
                &&& r is Ok
                &&& r->Ok_0.value == reply.body
                &&& r->Ok_0.usage.request_id is Some
                &&& r->Ok_0.usage.request_id->0@ == hyphenated(request_id.value)
                &&& r->Ok_0.usage.input_units == Some(text@.len() as i64)
                &&& r->Ok_0.usage.output_units is None
                &&& r->Ok_0.usage.latency_ms == elapsed_ms
            },
            !success(reply.status) ==> r is Err && r->Err_0@ == (ErrorView::External {
                service: "cosyvoice"@,
                message: http_failure(reply),
            }),
    {
        let value = match checked_bytes("cosyvoice", reply) {
            Ok(value) => value,
            Err(error) => return Err(error),
        };
        Ok(
            ProviderOutput {
                value,
                usage: ProviderUsage {
                    request_id: Some(request_id.text()),
                    input_units: Some(text.unicode_len() as i64),
                    output_units: None,
                    latency_ms: elapsed_ms,
                },
            },
        )
    }
}

impl FasterWhisperTranscriptionProvider {
    pub fn new(base_url: String) -> (r: FasterWhisperTranscriptionProvider)
        ensures
            r.base_url == base_url,
    {
        FasterWhisperTranscriptionProvider { base_url }
    }

    pub fn name(&self) -> (r: &'static str)
        ensures
            r@ == "faster-whisper"@,
    {
        "faster-whisper"
    }

    /// The request to align audio with its text.
    pub fn align_speech(
        &self,
        canonical_text: &str,
        model: &str,
        request_id: Id,
    ) -> (r: FasterWhisperRequest)
        ensures
            r.url@ == self.base_url@ + "/v1/align"@,
            r.model@ == model@,
            r.canonical_text@ == canonical_text@,
            r.request_id == request_id,
            r.file_name@ == "speech.wav"@,
            r.content_type@ == "audio/wav"@,
    {
        let mut url = self.base_url.clone();
        url.append("/v1/align");
        FasterWhisperRequest {
            url,
            model: model.to_owned(),
            canonical_text: canonical_text.to_owned(),
            request_id,
            file_name: "speech.wav",
            content_type: "audio/wav",
        }
    }

    /// What is made of the cues in a reply, once they were parsed or could not be. A reply
    /// without any cue is an error.
    pub fn alignment_output(
        &self,
        request_id: Id,
        parsed: Result<Vec<CaptionCue>, String>,
        elapsed_ms: i64,
    ) -> (r: AppResult<ProviderOutput<Vec<CaptionCue>>>)
        ensures
            parsed is Err ==> r is Err && r->Err_0@ == (ErrorView::External {
                service: "faster-whisper"@,
                message: "无法解析字幕响应: "@ + parsed->Err_0@,
            }),
            parsed is Ok && parsed->Ok_0@.len() == 0 ==> r is Err && r->Err_0@ == (
            ErrorView::External {
                service: "faster-whisper"@,
                message: "字幕响应没有词级时间戳"@,
            }),
            parsed is Ok && parsed->Ok_0@.len() > 0 ==> {
                &&& r is Ok
                &&& r->Ok_0.value == parsed->Ok_0
                &&& r->Ok_0.usage.request_id is Some
                &&& r->Ok_0.usage.request_id->0@ == hyphenated(request_id.value)
                &&& r->Ok_0.usage.input_units is None
                &&& r->Ok_0.usage.output_units is None
                &&& r->Ok_0.usage.latency_ms == elapsed_ms
            },
    {
        match parsed {
            Ok(cues) => {
                if cues.len() == 0 {
                    return Err(
                        AppError::external("faster-whisper", "字幕响应没有词级时间戳".to_owned()),
                    );
                }
                Ok(
                    ProviderOutput {
                        value: cues,
                        usage: ProviderUsage {
                            request_id: Some(request_id.text()),
                            input_units: None,
                            output_units: None,
                            latency_ms: elapsed_ms,
                        },
                    },
                )
            },
            Err(reason) => {
                let mut message = "无法解析字幕响应: ".to_owned();
                message.append(reason.as_str());
                Err(AppError::external("faster-whisper", message))
            },
        }
    }
}

/// The request for spoken text carries the text, the voice and the model that were given; its
/// reply is taken exactly where its status is in the two hundreds, and counts the characters of
/// the text.
pub proof fn law_local_speech(
    provider: CosyVoiceSpeechProvider,
    text: &str,
    voice: &str,
    model: &str,
    request_id: Id,
    reply: HttpReply,
    elapsed_ms: i64,
    request: CosyVoiceRequest,
    r: AppResult<ProviderOutput<Vec<u8>>>,
)
    requires
        call_ensures(
            CosyVoiceSpeechProvider::synthesize_speech,
            (&provider, text, voice, model, request_id),
            request,
        ),
        call_ensures(
            CosyVoiceSpeechProvider::speech_output,
            (&provider, text, request_id, reply, elapsed_ms),
            r,
        ),
    ensures
        request.url@ == provider.base_url@ + "/v1/speech"@,
        request.input@ == text@,
        request.voice@ == voice@,
        request.model@ == model@,
        request.request_id == request_id,
        request.instructions@ == SPEECH_INSTRUCTIONS@,
        r is Ok <==> reply.status as int / 100 == 2,
        r is Ok ==> {
            &&& r->Ok_0.value == reply.body
            &&& r->Ok_0.usage.request_id is Some
            &&& r->Ok_0.usage.request_id->0@ == hyphenated(request_id.value)
            &&& text@.len() <= i64::MAX ==> r->Ok_0.usage.input_units is Some
                && r->Ok_0.usage.input_units->0 == text@.len()
            &&& r->Ok_0.usage.output_units is None
            &&& r->Ok_0.usage.latency_ms == elapsed_ms
        },
        r is Err ==> r->Err_0@ is External && r->Err_0@->External_service == "cosyvoice"@,
{
}

/// The request to align carries the text and the model that were given; its reply is taken with
/// its cues as they are, unless there is none or it cannot be read.
pub proof fn law_local_alignment(
    provider: FasterWhisperTranscriptionProvider,
    text: &str,
    model: &str,
    request_id: Id,
    parsed: Result<Vec<CaptionCue>, String>,
    elapsed_ms: i64,
    request: FasterWhisperRequest,
    r: AppResult<ProviderOutput<Vec<CaptionCue>>>,
)
    requires
        call_ensures(
            FasterWhisperTranscriptionProvider::align_speech,
            (&provider, text, model, request_id),
            request,
        ),
        call_ensures(
            FasterWhisperTranscriptionProvider::alignment_output,
            (&provider, request_id, parsed, elapsed_ms),
            r,
        ),
    ensures
        request.url@ == provider.base_url@ + "/v1/align"@,
        request.canonical_text@ == text@,
        request.model@ == model@,
        request.request_id == request_id,
        request.file_name@ == "speech.wav"@ && request.content_type@ == "audio/wav"@,
        r is Ok <==> parsed is Ok && parsed->Ok_0@.len() > 0,
        r is Ok ==> {
            &&& r->Ok_0.value == parsed->Ok_0
            &&& r->Ok_0.usage.request_id is Some
            &&& r->Ok_0.usage.request_id->0@ == hyphenated(request_id.value)
            &&& r->Ok_0.usage.input_units is None && r->Ok_0.usage.output_units is None
            &&& r->Ok_0.usage.latency_ms == elapsed_ms
        },
        r is Err ==> r->Err_0@ is External && r->Err_0@->External_service == "faster-whisper"@,
        parsed is Err ==> r->Err_0@->External_message == "无法解析字幕响应: "@ + parsed->Err_0@,
        parsed is Ok && parsed->Ok_0@.len() == 0 ==> r->Err_0@->External_message
            == "字幕响应没有词级时间戳"@,
{
}

/// The local services are asked at their own address and go by their own names.
pub proof fn law_local_services(
    base_url: String,
    speech: CosyVoiceSpeechProvider,
    alignment: FasterWhisperTranscriptionProvider,
    speech_name: &'static str,
    alignment_name: &'static str,
)
    requires
        call_ensures(CosyVoiceSpeechProvider::new, (base_url,), speech),
        call_ensures(FasterWhisperTranscriptionProvider::new, (base_url,), alignment),
        call_ensures(CosyVoiceSpeechProvider::name, (&speech,), speech_name),
        call_ensures(FasterWhisperTranscriptionProvider::name, (&alignment,), alignment_name),
    ensures
        speech.base_url == base_url,
        alignment.base_url == base_url,
        speech_name@ == "cosyvoice"@,
        alignment_name@ == "faster-whisper"@,
{
}

} // verus!
