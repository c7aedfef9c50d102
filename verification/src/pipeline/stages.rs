//! The work of each stage of generation, step by step.
//!
//! Each work says what is to be done next; it is told what that came to, and says what
//! follows for its task.
use crate::db::store::replaces_by;
use crate::db::{
    RenderUpdate, RenderedVideo, Repository, SceneReplacement, VersionColumn, VersionUpdate,
};
use crate::domain::{CaptionCue, RenderJobResult, ScriptSpec, StoryboardSpec};
use crate::error::{error_text, AppError, AppResult};
use crate::ids::{is_random_id, Id};
use crate::pipeline::assets::{GeneratedAsset, GeneratedCaptions, GeneratedSpeech};
use crate::pipeline::task::{Progress, TaskEvent, TaskState};
use crate::pipeline::validation::{
    captions_problem, script_problem, storyboard_problem, validate_captions, validate_script,
    validate_storyboard,
};
use crate::providers::{ProviderOutput, ProviderUsage};
use crate::storage::StoredObject;
use vstd::prelude::*;

verus! {

/// The work on a script.
pub enum ScriptWork {
    /// Ask the gateway for a script.
    Generate,
    /// Save the script as a checkpoint of the version.
    Save(ProviderOutput<ScriptSpec>),
}

pub enum ScriptEvent {
    Generated(AppResult<ProviderOutput<ScriptSpec>>),
    Saved(AppResult<()>),
}

impl ScriptWork {
    /// The work of a task that was started.
    pub fn first() -> (r: ScriptWork)
        ensures
            r == ScriptWork::Generate,
    {
        ScriptWork::Generate
    }

    pub open spec fn admits(self, event: ScriptEvent) -> bool {
        match self {
            ScriptWork::Generate => event is Generated,
            ScriptWork::Save(_) => event is Saved,
        }
    }

    /// What follows from `event`. A script that breaks a rule is not saved.
    pub open spec fn leads_to(
        self,
        event: ScriptEvent,
        next: Progress<ScriptWork, ScriptSpec>,
    ) -> bool {
        match (self, event) {
            (ScriptWork::Generate, ScriptEvent::Generated(Ok(output))) => match script_problem(
                output.value,
            ) {
                Some(problem) => next is Failed && next->Failed_0@ == problem,
                None => next == Progress::<ScriptWork, ScriptSpec>::Next(ScriptWork::Save(output)),
            },
            (ScriptWork::Generate, ScriptEvent::Generated(Err(error))) => next == Progress::<
                ScriptWork,
                ScriptSpec,
            >::Failed(error),
            (ScriptWork::Save(output), ScriptEvent::Saved(Ok(_))) => next == (Progress::<
                ScriptWork,
                ScriptSpec,
            >::Finished { value: output.value, usage: Some(output.usage) }),
            (ScriptWork::Save(_), ScriptEvent::Saved(Err(error))) => next == Progress::<
                ScriptWork,
                ScriptSpec,
            >::Failed(error),
            _ => false,
        }
    }

    /// The write of the script, given as a JSON text, where it is to be saved.
    pub fn checkpoint_write(&self, version_id: Id, spec: String) -> (r: Option<VersionUpdate>)
        ensures
            r == match *self {
                ScriptWork::Save(_) => Some(
                    VersionUpdate { version_id, column: VersionColumn::Script, value: spec },
                ),
                _ => None,
            },
    {
        match self {
            ScriptWork::Save(_) => Some(Repository::save_script(version_id, spec)),
            _ => None,
        }
    }

    pub fn step(self, event: ScriptEvent) -> (r: Progress<ScriptWork, ScriptSpec>)
        requires
            self.admits(event),
        ensures
            self.leads_to(event, r),
    {
        match event {
            ScriptEvent::Generated(Err(error)) => Progress::Failed(error),
            ScriptEvent::Generated(Ok(output)) => match validate_script(&output.value) {
                Ok(()) => Progress::Next(ScriptWork::Save(output)),
                Err(error) => Progress::Failed(error),
            },
            ScriptEvent::Saved(Err(error)) => Progress::Failed(error),
            ScriptEvent::Saved(Ok(())) => match self {
                ScriptWork::Save(output) => Progress::Finished {
                    value: output.value,
                    usage: Some(output.usage),
                },
                ScriptWork::Generate => Progress::Next(ScriptWork::Generate),
            },
        }
    }
}

/// Whether `checked` is what becomes of a script that was found: it has to pass the rules as a
/// new one has to.
pub open spec fn script_checked(
    found: AppResult<Option<ScriptSpec>>,
    checked: AppResult<Option<ScriptSpec>>,
) -> bool {
    match found {
        Ok(Some(script)) => match script_problem(script) {
            Some(problem) => checked is Err && checked->Err_0@ == problem,
            None => checked == found,
        },
        _ => checked == found,
    }
}

/// A cached script, which has to pass the rules as a new one has to.
pub fn checked_script(found: AppResult<Option<ScriptSpec>>) -> (r: AppResult<Option<ScriptSpec>>)
    ensures
        script_checked(found, r),
{
    match found {
        Ok(Some(script)) => match validate_script(&script) {
            Ok(()) => Ok(Some(script)),
            Err(error) => Err(error),
        },
        other => other,
    }
}

/// The work on a storyboard.
pub enum StoryboardWork {
    /// Ask the gateway for a storyboard.
    Generate,
    /// Save the storyboard as a checkpoint of the version.
    Save(ProviderOutput<StoryboardSpec>),
    /// Store its scenes in place of those of the version.
    ReplaceScenes(ProviderOutput<StoryboardSpec>),
}

pub enum StoryboardEvent {
    Generated(AppResult<ProviderOutput<StoryboardSpec>>),
    Saved(AppResult<()>),
    Replaced(AppResult<()>),
}

impl StoryboardWork {
    /// The work of a task that was started.
    pub fn first() -> (r: StoryboardWork)
        ensures
            r == StoryboardWork::Generate,
    {
        StoryboardWork::Generate
    }

    pub open spec fn admits(self, event: StoryboardEvent) -> bool {
        match self {
            StoryboardWork::Generate => event is Generated,
            StoryboardWork::Save(_) => event is Saved,
            StoryboardWork::ReplaceScenes(_) => event is Replaced,
        }
    }

    /// What follows from `event`. A storyboard that breaks a rule, or that does not tell
    /// `script`, is not saved.
    pub open spec fn leads_to(
        self,
        script: ScriptSpec,
        event: StoryboardEvent,
        next: Progress<StoryboardWork, StoryboardSpec>,
    ) -> bool {
        match (self, event) {
            (StoryboardWork::Generate, StoryboardEvent::Generated(Ok(output))) =>
                match storyboard_problem(output.value, script) {
                    Some(problem) => next is Failed && next->Failed_0@ == problem,
                    None => next == Progress::<StoryboardWork, StoryboardSpec>::Next(
                        StoryboardWork::Save(output),
                    ),
                },
            (StoryboardWork::Save(output), StoryboardEvent::Saved(Ok(_))) => next == Progress::<
                StoryboardWork,
                StoryboardSpec,
            >::Next(StoryboardWork::ReplaceScenes(output)),
            (StoryboardWork::ReplaceScenes(output), StoryboardEvent::Replaced(Ok(_))) => next == (
            Progress::<StoryboardWork, StoryboardSpec>::Finished {
                value: output.value,
                usage: Some(output.usage),
            }),
            (_, StoryboardEvent::Generated(Err(error))) => next == Progress::<
                StoryboardWork,
                StoryboardSpec,
            >::Failed(error),
            (_, StoryboardEvent::Saved(Err(error))) => next == Progress::<
                StoryboardWork,
                StoryboardSpec,
            >::Failed(error),
            (_, StoryboardEvent::Replaced(Err(error))) => next == Progress::<
                StoryboardWork,
                StoryboardSpec,
            >::Failed(error),
            _ => false,
        }
    }

    /// The write of the storyboard, given as a JSON text, where it is to be saved.
    pub fn checkpoint_write(&self, version_id: Id, spec: String) -> (r: Option<VersionUpdate>)
        ensures
            r == match *self {
                StoryboardWork::Save(_) => Some(
                    VersionUpdate { version_id, column: VersionColumn::Storyboard, value: spec },
                ),
                _ => None,
            },
    {
        match self {
            StoryboardWork::Save(_) => Some(Repository::save_storyboard(version_id, spec)),
            _ => None,
        }
    }

    /// The write that puts the scenes of the storyboard in the place of those of the version,
    /// where they are to be stored.
    pub fn scenes_write(&self, project_id: Id, version_id: Id) -> (r: Option<SceneReplacement>)
        ensures
            match *self {
                StoryboardWork::ReplaceScenes(output) => {
                    &&& r is Some
                    &&& replaces_by(r->0, project_id, version_id, output.value.scenes@)
                    &&& forall|i: int|
                        0 <= i < r->0.rows@.len() ==> is_random_id((#[trigger] r->0.rows@[i]).id)
                },
                _ => r is None,
            },
    {
        match self {
            StoryboardWork::ReplaceScenes(output) => Some(
                Repository::replace_scenes(project_id, version_id, &output.value.scenes),
            ),
            _ => None,
        }
    }

    pub fn step(self, script: &ScriptSpec, event: StoryboardEvent) -> (r: Progress<
        StoryboardWork,
        StoryboardSpec,
    >)
        requires
            self.admits(event),
        ensures
            self.leads_to(*script, event, r),
    {
        match event {
            StoryboardEvent::Generated(Err(error)) => Progress::Failed(error),
            StoryboardEvent::Saved(Err(error)) => Progress::Failed(error),
            StoryboardEvent::Replaced(Err(error)) => Progress::Failed(error),
            StoryboardEvent::Generated(Ok(output)) => match validate_storyboard(
                &output.value,
                script,
            ) {
                Ok(()) => Progress::Next(StoryboardWork::Save(output)),
                Err(error) => Progress::Failed(error),
            },
            StoryboardEvent::Saved(Ok(())) => match self {
                StoryboardWork::Save(output) => Progress::Next(
                    StoryboardWork::ReplaceScenes(output),
                ),
                other => Progress::Next(other),
            },
            StoryboardEvent::Replaced(Ok(())) => match self {
                StoryboardWork::ReplaceScenes(output) => Progress::Finished {
                    value: output.value,
                    usage: Some(output.usage),
                },
                other => Progress::Next(other),
            },
        }
    }
}

/// Whether `checked` is what becomes of a storyboard of `script` that was found: it has to pass
/// the rules as a new one has to.
pub open spec fn storyboard_checked(
    found: AppResult<Option<StoryboardSpec>>,
    script: ScriptSpec,
    checked: AppResult<Option<StoryboardSpec>>,
) -> bool {
    match found {
        Ok(Some(storyboard)) => match storyboard_problem(storyboard, script) {
            Some(problem) => checked is Err && checked->Err_0@ == problem,
            None => checked == found,
        },
        _ => checked == found,
    }
}

/// A cached storyboard, which has to pass the rules as a new one has to.
pub fn checked_storyboard(found: AppResult<Option<StoryboardSpec>>, script: &ScriptSpec) -> (r:
    AppResult<Option<StoryboardSpec>>)
    ensures
        storyboard_checked(found, *script, r),
{
    match found {
        Ok(Some(storyboard)) => match validate_storyboard(&storyboard, script) {
            Ok(()) => Ok(Some(storyboard)),
            Err(error) => Err(error),
        },
        other => other,
    }
}

/// The work on the illustration of a scene.
pub enum ImageWork {
    /// Ask the gateway for an image.
    Generate,
    /// Store the file.
    Store(ProviderOutput<Vec<u8>>),
    /// Store the record of the asset.
    Insert { object: StoredObject, usage: ProviderUsage },
}

pub enum ImageEvent {
    Generated(AppResult<ProviderOutput<Vec<u8>>>),
    Stored(AppResult<StoredObject>),
    Inserted(AppResult<Id>),
}

impl ImageWork {
    /// The work of a task that was started.
    pub fn first() -> (r: ImageWork)
        ensures
            r == ImageWork::Generate,
    {
        ImageWork::Generate
    }

    pub open spec fn admits(self, event: ImageEvent) -> bool {
        match self {
            ImageWork::Generate => event is Generated,
            ImageWork::Store(_) => event is Stored,
            ImageWork::Insert { .. } => event is Inserted,
        }
    }

    /// What follows from `event`.
    pub open spec fn next(self, event: ImageEvent) -> Progress<ImageWork, GeneratedAsset> {
        match (self, event) {
            (ImageWork::Generate, ImageEvent::Generated(Ok(output))) => Progress::Next(
                ImageWork::Store(output),
            ),
            (ImageWork::Store(output), ImageEvent::Stored(Ok(object))) => Progress::Next(
                ImageWork::Insert { object, usage: output.usage },
            ),
            (ImageWork::Insert { object, usage }, ImageEvent::Inserted(Ok(asset_id))) =>
                Progress::Finished {
                    value: GeneratedAsset { asset_id, object },
                    usage: Some(usage),
                },
            (_, ImageEvent::Generated(Err(error))) => Progress::Failed(error),
            (_, ImageEvent::Stored(Err(error))) => Progress::Failed(error),
            (_, ImageEvent::Inserted(Err(error))) => Progress::Failed(error),
            _ => Progress::Next(self),
        }
    }

    pub fn step(self, event: ImageEvent) -> (r: Progress<ImageWork, GeneratedAsset>)
        requires
            self.admits(event),
        ensures
            r == self.next(event),
    {
        match event {
            ImageEvent::Generated(Err(error)) => Progress::Failed(error),
            ImageEvent::Stored(Err(error)) => Progress::Failed(error),
            ImageEvent::Inserted(Err(error)) => Progress::Failed(error),
            ImageEvent::Generated(Ok(output)) => Progress::Next(ImageWork::Store(output)),
            ImageEvent::Stored(Ok(object)) => match self {
                ImageWork::Store(output) => Progress::Next(
                    ImageWork::Insert { object, usage: output.usage },
                ),
                other => Progress::Next(other),
            },
            ImageEvent::Inserted(Ok(asset_id)) => match self {
                ImageWork::Insert { object, usage } => Progress::Finished {
                    value: GeneratedAsset { asset_id, object },
                    usage: Some(usage),
                },
                other => Progress::Next(other),
            },
        }
    }
}

/// The work on the narration of a scene.
pub enum SpeechWork {
    /// Ask the gateway for spoken text.
    Generate,
    /// Store the file.
    Store(ProviderOutput<Vec<u8>>),
    /// Measure how long the stored file is.
    Probe { object: StoredObject, usage: ProviderUsage },
    /// Store the record of the asset.
    Insert { object: StoredObject, usage: ProviderUsage, duration_ms: i64 },
}

pub enum SpeechEvent {
    Generated(AppResult<ProviderOutput<Vec<u8>>>),
    Stored(AppResult<StoredObject>),
    Probed(AppResult<i64>),
    Inserted(AppResult<Id>),
}

impl SpeechWork {
    /// The work of a task that was started.
    pub fn first() -> (r: SpeechWork)
        ensures
            r == SpeechWork::Generate,
    {
        SpeechWork::Generate
    }

    pub open spec fn admits(self, event: SpeechEvent) -> bool {
        match self {
            SpeechWork::Generate => event is Generated,
            SpeechWork::Store(_) => event is Stored,
            SpeechWork::Probe { .. } => event is Probed,
            SpeechWork::Insert { .. } => event is Inserted,
        }
    }

    /// What follows from `event`.
    pub open spec fn next(self, event: SpeechEvent) -> Progress<SpeechWork, GeneratedSpeech> {
        match (self, event) {
            (SpeechWork::Generate, SpeechEvent::Generated(Ok(output))) => Progress::Next(
                SpeechWork::Store(output),
            ),
            (SpeechWork::Store(output), SpeechEvent::Stored(Ok(object))) => Progress::Next(
                SpeechWork::Probe { object, usage: output.usage },
            ),
            (SpeechWork::Probe { object, usage }, SpeechEvent::Probed(Ok(duration_ms))) =>
                Progress::Next(SpeechWork::Insert { object, usage, duration_ms }),
            (
                SpeechWork::Insert { object, usage, duration_ms },
                SpeechEvent::Inserted(Ok(asset_id)),
            ) => Progress::Finished {
                value: GeneratedSpeech { asset: GeneratedAsset { asset_id, object }, duration_ms },
                usage: Some(usage),
            },
            (_, SpeechEvent::Generated(Err(error))) => Progress::Failed(error),
            (_, SpeechEvent::Stored(Err(error))) => Progress::Failed(error),
            (_, SpeechEvent::Probed(Err(error))) => Progress::Failed(error),
            (_, SpeechEvent::Inserted(Err(error))) => Progress::Failed(error),
            _ => Progress::Next(self),
        }
    }

    pub fn step(self, event: SpeechEvent) -> (r: Progress<SpeechWork, GeneratedSpeech>)
        requires
            self.admits(event),
        ensures
            r == self.next(event),
    {
        match event {
            SpeechEvent::Generated(Err(error)) => Progress::Failed(error),
            SpeechEvent::Stored(Err(error)) => Progress::Failed(error),
            SpeechEvent::Probed(Err(error)) => Progress::Failed(error),
            SpeechEvent::Inserted(Err(error)) => Progress::Failed(error),
            SpeechEvent::Generated(Ok(output)) => Progress::Next(SpeechWork::Store(output)),
            SpeechEvent::Stored(Ok(object)) => match self {
                SpeechWork::Store(output) => Progress::Next(
                    SpeechWork::Probe { object, usage: output.usage },
                ),
                other => Progress::Next(other),
            },
            SpeechEvent::Probed(Ok(duration_ms)) => match self {
                SpeechWork::Probe { object, usage } => Progress::Next(
                    SpeechWork::Insert { object, usage, duration_ms },
                ),
                other => Progress::Next(other),
            },
            SpeechEvent::Inserted(Ok(asset_id)) => match self {
                SpeechWork::Insert { object, usage, duration_ms } => Progress::Finished {
                    value: GeneratedSpeech {
                        asset: GeneratedAsset { asset_id, object },
                        duration_ms,
                    },
                    usage: Some(usage),
                },
                other => Progress::Next(other),
            },
        }
    }
}

/// The work on the captions of a scene.
pub enum CaptionsWork {
    /// Read the stored narration.
    Read,
    /// Ask the gateway to align it with its text.
    Align { audio: Vec<u8> },
    /// Serialize the cues.
    Serialize(ProviderOutput<Vec<CaptionCue>>),
    /// Store the file.
    Store { output: ProviderOutput<Vec<CaptionCue>>, bytes: Vec<u8> },
    /// Store the record of the asset.
    Insert { output: ProviderOutput<Vec<CaptionCue>>, object: StoredObject },
}

pub enum CaptionsEvent {
    Read(AppResult<Vec<u8>>),
    Aligned(AppResult<ProviderOutput<Vec<CaptionCue>>>),
    Serialized(AppResult<Vec<u8>>),
    Stored(AppResult<StoredObject>),
    Inserted(AppResult<Id>),
}

impl CaptionsWork {
    /// The work of a task that was started.
    pub fn first() -> (r: CaptionsWork)
        ensures
            r == CaptionsWork::Read,
    {
        CaptionsWork::Read
    }

    pub open spec fn admits(self, event: CaptionsEvent) -> bool {
        match self {
            CaptionsWork::Read => event is Read,
            CaptionsWork::Align { .. } => event is Aligned,
            CaptionsWork::Serialize(_) => event is Serialized,
            CaptionsWork::Store { .. } => event is Stored,
            CaptionsWork::Insert { .. } => event is Inserted,
        }
    }

    /// What follows from `event`. Cues that do not fit a narration of `duration_ms` are not
    /// stored.
    pub open spec fn leads_to(
        self,
        duration_ms: i64,
        event: CaptionsEvent,
        next: Progress<CaptionsWork, GeneratedCaptions>,
    ) -> bool {
        match (self, event) {
            (CaptionsWork::Read, CaptionsEvent::Read(Ok(audio))) => next == Progress::<
                CaptionsWork,
                GeneratedCaptions,
            >::Next(CaptionsWork::Align { audio }),
            (CaptionsWork::Align { .. }, CaptionsEvent::Aligned(Ok(output))) =>
                match captions_problem(output.value@, 0, duration_ms as int) {
                    Some(problem) => next is Failed && next->Failed_0@ == problem,
                    None => next == Progress::<CaptionsWork, GeneratedCaptions>::Next(
                        CaptionsWork::Serialize(output),
                    ),
                },
            (CaptionsWork::Serialize(output), CaptionsEvent::Serialized(Ok(bytes))) => next
                == Progress::<CaptionsWork, GeneratedCaptions>::Next(
                CaptionsWork::Store { output, bytes },
            ),
            (CaptionsWork::Store { output, .. }, CaptionsEvent::Stored(Ok(object))) => next
                == Progress::<CaptionsWork, GeneratedCaptions>::Next(
                CaptionsWork::Insert { output, object },
            ),
            (CaptionsWork::Insert { output, object }, CaptionsEvent::Inserted(Ok(asset_id))) => next
                == (Progress::<CaptionsWork, GeneratedCaptions>::Finished {
                value: GeneratedCaptions { asset_id, object, cues: output.value },
                usage: Some(output.usage),
            }),
            (_, CaptionsEvent::Read(Err(error))) => next == Progress::<
                CaptionsWork,
                GeneratedCaptions,
            >::Failed(error),
            (_, CaptionsEvent::Aligned(Err(error))) => next == Progress::<
                CaptionsWork,
                GeneratedCaptions,
            >::Failed(error),
            (_, CaptionsEvent::Serialized(Err(error))) => next == Progress::<
                CaptionsWork,
                GeneratedCaptions,
            >::Failed(error),
            (_, CaptionsEvent::Stored(Err(error))) => next == Progress::<
                CaptionsWork,
                GeneratedCaptions,
            >::Failed(error),
            (_, CaptionsEvent::Inserted(Err(error))) => next == Progress::<
                CaptionsWork,
                GeneratedCaptions,
            >::Failed(error),
            _ => false,
        }
    }

    pub fn step(self, duration_ms: i64, event: CaptionsEvent) -> (r: Progress<
        CaptionsWork,
        GeneratedCaptions,
    >)
        requires
            self.admits(event),
        ensures
            self.leads_to(duration_ms, event, r),
    {
        match event {
            CaptionsEvent::Read(Err(error)) => Progress::Failed(error),
            CaptionsEvent::Aligned(Err(error)) => Progress::Failed(error),
            CaptionsEvent::Serialized(Err(error)) => Progress::Failed(error),
            CaptionsEvent::Stored(Err(error)) => Progress::Failed(error),
            CaptionsEvent::Inserted(Err(error)) => Progress::Failed(error),
            CaptionsEvent::Read(Ok(audio)) => Progress::Next(CaptionsWork::Align { audio }),
            CaptionsEvent::Aligned(Ok(output)) => match validate_captions(
                &output.value,
                duration_ms,
            ) {
                Ok(()) => Progress::Next(CaptionsWork::Serialize(output)),
                Err(error) => Progress::Failed(error),
            },
            CaptionsEvent::Serialized(Ok(bytes)) => match self {
                CaptionsWork::Serialize(output) => Progress::Next(
                    CaptionsWork::Store { output, bytes },
                ),
                other => Progress::Next(other),
            },
            CaptionsEvent::Stored(Ok(object)) => match self {
                CaptionsWork::Store { output, .. } => Progress::Next(
                    CaptionsWork::Insert { output, object },
                ),
                other => Progress::Next(other),
            },
            CaptionsEvent::Inserted(Ok(asset_id)) => match self {
                CaptionsWork::Insert { output, object } => Progress::Finished {
                    value: GeneratedCaptions { asset_id, object, cues: output.value },
                    usage: Some(output.usage),
                },
                other => Progress::Next(other),
            },
        }
    }
}

/// What a rendered video is remembered by.
#[derive(Clone, Debug)]
pub struct RenderCache {
    pub public_url: String,
}

/// The work on the video.
pub enum RenderWork {
    /// Store the record of the rendering.
    Record,
    /// Have the video rendered.
    Render { render_id: Id },
    /// Close the record as completed.
    Complete { render_id: Id, result: RenderJobResult },
    /// Close the record as failed.
    Fail { render_id: Id, error: AppError },
}

pub enum RenderEvent {
    Recorded(AppResult<Id>),
    Rendered(AppResult<RenderJobResult>),
    Closed(AppResult<()>),
}

impl RenderWork {
    /// The work of a task that was started.
    pub fn first() -> (r: RenderWork)
        ensures
            r == RenderWork::Record,
    {
        RenderWork::Record
    }

    pub open spec fn admits(self, event: RenderEvent) -> bool {
        match self {
            RenderWork::Record => event is Recorded,
            RenderWork::Render { .. } => event is Rendered,
            RenderWork::Complete { .. } => event is Closed,
            RenderWork::Fail { .. } => event is Closed,
        }
    }

    /// What follows from `event`. Where the record cannot be closed, the work fails with the
    /// reason.
    pub open spec fn next(self, event: RenderEvent) -> Progress<RenderWork, RenderCache> {
        match (self, event) {
            (RenderWork::Record, RenderEvent::Recorded(Ok(render_id))) => Progress::Next(
                RenderWork::Render { render_id },
            ),
            (RenderWork::Record, RenderEvent::Recorded(Err(error))) => Progress::Failed(error),
            (RenderWork::Render { render_id }, RenderEvent::Rendered(Ok(result))) => Progress::Next(
                RenderWork::Complete { render_id, result },
            ),
            (RenderWork::Render { render_id }, RenderEvent::Rendered(Err(error))) => Progress::Next(
                RenderWork::Fail { render_id, error },
            ),
            (RenderWork::Complete { result, .. }, RenderEvent::Closed(Ok(_))) => Progress::Finished {
                value: RenderCache { public_url: result.public_url },
                usage: None,
            },
            (RenderWork::Fail { error, .. }, RenderEvent::Closed(Ok(_))) => Progress::Failed(error),
            (_, RenderEvent::Closed(Err(error))) => Progress::Failed(error),
            _ => Progress::Next(self),
        }
    }

    /// The write that closes the record of the rendering, where it is to be closed: with the
    /// video, or with the text of the error.
    pub fn record_write(&self) -> (r: Option<RenderUpdate>)
        ensures
            match *self {
                RenderWork::Complete { render_id, result } => {
                    &&& r is Some
                    &&& r->0.render_id == render_id
                    &&& r->0.status@ == "completed"@
                    &&& r->0.video == Some(
                        RenderedVideo {
                            storage_key: result.storage_key,
                            public_url: result.public_url,
                            duration_ms: result.duration_ms,
                        },
                    )
                    &&& r->0.error_message is None
                },
                RenderWork::Fail { render_id, error } => {
                    &&& r is Some
                    &&& r->0.render_id == render_id
                    &&& r->0.status@ == "failed"@
                    &&& r->0.video is None
                    &&& r->0.error_message is Some
                    &&& r->0.error_message->0@ == error_text(error@)
                },
                _ => r is None,
            },
    {
        match self {
            RenderWork::Complete { render_id, result } => Some(
                Repository::complete_render(
                    *render_id,
                    result.storage_key.clone(),
                    result.public_url.clone(),
                    result.duration_ms,
                ),
            ),
            RenderWork::Fail { render_id, error } => Some(
                Repository::fail_render(*render_id, error.text()),
            ),
            _ => None,
        }
    }

    pub fn step(self, event: RenderEvent) -> (r: Progress<RenderWork, RenderCache>)
        requires
            self.admits(event),
        ensures
            r == self.next(event),
    {
        match event {
            RenderEvent::Recorded(Ok(render_id)) => Progress::Next(RenderWork::Render { render_id }),
            RenderEvent::Recorded(Err(error)) => Progress::Failed(error),
            RenderEvent::Rendered(rendered) => match self {
                RenderWork::Render { render_id } => match rendered {
                    Ok(result) => Progress::Next(RenderWork::Complete { render_id, result }),
                    Err(error) => Progress::Next(RenderWork::Fail { render_id, error }),
                },
                other => Progress::Next(other),
            },
            RenderEvent::Closed(Err(error)) => Progress::Failed(error),
            RenderEvent::Closed(Ok(())) => match self {
                RenderWork::Complete { result, .. } => Progress::Finished {
                    value: RenderCache { public_url: result.public_url },
                    usage: None,
                },
                RenderWork::Fail { error, .. } => Progress::Failed(error),
                other => Progress::Next(other),
            },
        }
    }
}

/// A video whose record cannot be closed, be it as completed or as failed, fails its task with
/// the reason, and the task is closed as failed before the reason is handed out.
pub proof fn law_unclosed_render_fails_its_task(work: RenderWork, task_id: Id, error: AppError)
    requires
        work is Complete || work is Fail,
    ensures
        ({
            let step = work.next(RenderEvent::Closed(Err(error)));
            let working = TaskState::<RenderWork, RenderCache>::Working { task_id, work };
            let failing = working.after(TaskEvent::Worked(step));
            &&& work.admits(RenderEvent::Closed(Err(error)))
            &&& step == Progress::<RenderWork, RenderCache>::Failed(error)
            &&& failing == TaskState::<RenderWork, RenderCache>::Failing { task_id, error }
            &&& failing.after(TaskEvent::Closed(Ok(()))) == TaskState::<RenderWork, RenderCache>::Done {
                result: Err(error),
            }
        }),
{
}

/// A script that is saved has passed the rules on scripts.
pub proof fn law_saved_script_is_valid(
    work: ScriptWork,
    event: ScriptEvent,
    saved: ProviderOutput<ScriptSpec>,
)
    requires
        work.leads_to(event, Progress::<ScriptWork, ScriptSpec>::Next(ScriptWork::Save(saved))),
    ensures
        script_problem(saved.value) is None,
{
}

/// A storyboard that is saved has passed the rules on storyboards of the script.
pub proof fn law_saved_storyboard_is_valid(
    work: StoryboardWork,
    script: ScriptSpec,
    event: StoryboardEvent,
    saved: ProviderOutput<StoryboardSpec>,
)
    requires
        work.leads_to(
            script,
            event,
            Progress::<StoryboardWork, StoryboardSpec>::Next(StoryboardWork::Save(saved)),
        ),
    ensures
        storyboard_problem(saved.value, script) is None,
{
}

/// Captions that are serialized and stored have passed the rules on captions of the narration.
pub proof fn law_stored_captions_are_valid(
    work: CaptionsWork,
    duration_ms: i64,
    event: CaptionsEvent,
    output: ProviderOutput<Vec<CaptionCue>>,
)
    requires
        work.leads_to(
            duration_ms,
            event,
            Progress::<CaptionsWork, GeneratedCaptions>::Next(CaptionsWork::Serialize(output)),
        ),
    ensures
        captions_problem(output.value@, 0, duration_ms as int) is None,
{
}

/// Whether `event` can come of what is to be done for a script in `state`: what was found under
/// the key was checked, the work starts at its first step, and each step follows from what was
/// done for it.
pub open spec fn script_answer(
    state: TaskState<ScriptWork, ScriptSpec>,
    event: TaskEvent<ScriptWork, ScriptSpec>,
) -> bool {
    match (state, event) {
        (TaskState::Lookup, TaskEvent::Found(checked)) => exists|
            found: AppResult<Option<ScriptSpec>>,
        | #[trigger] script_checked(found, checked),
        (TaskState::Start, TaskEvent::Started(_, work)) => work == ScriptWork::Generate,
        (TaskState::Working { work, .. }, TaskEvent::Worked(progress)) => exists|
            done: ScriptEvent,
        | work.admits(done) && #[trigger] work.leads_to(done, progress),
        _ => state.admits(event),
    }
}

/// Whether `events` are a run of the task of a script from `state` on.
pub open spec fn script_run(
    state: TaskState<ScriptWork, ScriptSpec>,
    events: Seq<TaskEvent<ScriptWork, ScriptSpec>>,
) -> bool
    decreases events.len(),
{
    events.len() == 0 || (state.admits(events[0]) && script_answer(state, events[0]) && script_run(
        state.after(events[0]),
        events.drop_first(),
    ))
}

/// Whether a script that `state` holds has passed the rules on scripts.
pub open spec fn holds_valid_script(state: TaskState<ScriptWork, ScriptSpec>) -> bool {
    match state {
        TaskState::Working { work: ScriptWork::Save(output), .. } => script_problem(
            output.value,
        ) is None,
        TaskState::Completing { value, .. } => script_problem(value) is None,
        TaskState::Done { result: Ok(value) } => script_problem(value) is None,
        _ => true,
    }
}

proof fn lemma_script_stays_valid(
    state: TaskState<ScriptWork, ScriptSpec>,
    events: Seq<TaskEvent<ScriptWork, ScriptSpec>>,
)
    requires
        script_run(state, events),
        holds_valid_script(state),
    ensures
        holds_valid_script(state.after_all(events)),
    decreases events.len(),
{
    reveal_with_fuel(TaskState::after_all, 2);
    if events.len() > 0 {
        lemma_script_stays_valid(state.after(events[0]), events.drop_first());
    }
}

/// Every script that a run of its task hands out has passed the rules on scripts, be it found
/// under the key or generated.
pub proof fn law_script_handed_out_is_valid(
    events: Seq<TaskEvent<ScriptWork, ScriptSpec>>,
    script: ScriptSpec,
)
    requires
        script_run(TaskState::Lookup, events),
        TaskState::<ScriptWork, ScriptSpec>::Lookup.after_all(events) == (TaskState::<
            ScriptWork,
            ScriptSpec,
        >::Done { result: Ok(script) }),
    ensures
        script_problem(script) is None,
{
    lemma_script_stays_valid(TaskState::Lookup, events);
}

/// Whether `event` can come of what is to be done for a storyboard of `script` in `state`: what
/// was found under the key was checked, the work starts at its first step, and each step
/// follows from what was done for it.
pub open spec fn storyboard_answer(
    script: ScriptSpec,
    state: TaskState<StoryboardWork, StoryboardSpec>,
    event: TaskEvent<StoryboardWork, StoryboardSpec>,
) -> bool {
    match (state, event) {
        (TaskState::Lookup, TaskEvent::Found(checked)) => exists|
            found: AppResult<Option<StoryboardSpec>>,
        | #[trigger] storyboard_checked(found, script, checked),
        (TaskState::Start, TaskEvent::Started(_, work)) => work == StoryboardWork::Generate,
        (TaskState::Working { work, .. }, TaskEvent::Worked(progress)) => exists|
            done: StoryboardEvent,
        | work.admits(done) && #[trigger] work.leads_to(script, done, progress),
        _ => state.admits(event),
    }
}

/// Whether `events` are a run of the task of a storyboard of `script` from `state` on.
pub open spec fn storyboard_run(
    script: ScriptSpec,
    state: TaskState<StoryboardWork, StoryboardSpec>,
    events: Seq<TaskEvent<StoryboardWork, StoryboardSpec>>,
) -> bool
    decreases events.len(),
{
    events.len() == 0 || (state.admits(events[0]) && storyboard_answer(script, state, events[0])
        && storyboard_run(script, state.after(events[0]), events.drop_first()))
}

/// Whether a storyboard that `state` holds has passed the rules on storyboards of `script`.
pub open spec fn holds_valid_storyboard(
    script: ScriptSpec,
    state: TaskState<StoryboardWork, StoryboardSpec>,
) -> bool {
    match state {
        TaskState::Working { work: StoryboardWork::Save(output), .. } => storyboard_problem(
            output.value,
            script,
        ) is None,
        TaskState::Working { work: StoryboardWork::ReplaceScenes(output), .. } =>
            storyboard_problem(output.value, script) is None,
        TaskState::Completing { value, .. } => storyboard_problem(value, script) is None,
        TaskState::Done { result: Ok(value) } => storyboard_problem(value, script) is None,
        _ => true,
    }
}

proof fn lemma_storyboard_stays_valid(
    script: ScriptSpec,
    state: TaskState<StoryboardWork, StoryboardSpec>,
    events: Seq<TaskEvent<StoryboardWork, StoryboardSpec>>,
)
    requires
        storyboard_run(script, state, events),
        holds_valid_storyboard(script, state),
    ensures
        holds_valid_storyboard(script, state.after_all(events)),
    decreases events.len(),
{
    reveal_with_fuel(TaskState::after_all, 2);
    if events.len() > 0 {
        lemma_storyboard_stays_valid(script, state.after(events[0]), events.drop_first());
    }
}

/// Every storyboard that a run of its task hands out has passed the rules on storyboards of the
/// script, be it found under the key or generated.
pub proof fn law_storyboard_handed_out_is_valid(
    script: ScriptSpec,
    events: Seq<TaskEvent<StoryboardWork, StoryboardSpec>>,
    storyboard: StoryboardSpec,
)
    requires
        storyboard_run(script, TaskState::Lookup, events),
        TaskState::<StoryboardWork, StoryboardSpec>::Lookup.after_all(events) == (TaskState::<
            StoryboardWork,
            StoryboardSpec,
        >::Done { result: Ok(storyboard) }),
    ensures
        storyboard_problem(storyboard, script) is None,
{
    lemma_storyboard_stays_valid(script, TaskState::Lookup, events);
}

/// The work on a script asks for it, saves what is valid and as it was given, and hands that out
/// with its usage; a script that breaks a rule, or an error, ends the work.
pub proof fn law_work_on_a_script(
    output: ProviderOutput<ScriptSpec>,
    error: AppError,
    valid: AppResult<()>,
    first: ScriptWork,
    checked: Progress<ScriptWork, ScriptSpec>,
    saved: Progress<ScriptWork, ScriptSpec>,
    refused: Progress<ScriptWork, ScriptSpec>,
    unsaved: Progress<ScriptWork, ScriptSpec>,
)
    requires
        call_ensures(ScriptWork::first, (), first),
        call_ensures(validate_script, (&output.value,), valid),
        call_ensures(ScriptWork::step, (first, ScriptEvent::Generated(Ok(output))), checked),
        call_ensures(
            ScriptWork::step,
            (ScriptWork::Save(output), ScriptEvent::Saved(Ok(()))),
            saved,
        ),
        call_ensures(ScriptWork::step, (first, ScriptEvent::Generated(Err(error))), refused),
        call_ensures(
            ScriptWork::step,
            (ScriptWork::Save(output), ScriptEvent::Saved(Err(error))),
            unsaved,
        ),
    ensures
        first == ScriptWork::Generate,
        valid is Ok ==> checked == Progress::<ScriptWork, ScriptSpec>::Next(
            ScriptWork::Save(output),
        ),
        valid is Err ==> checked is Failed && checked->Failed_0@ == valid->Err_0@,
        saved == (Progress::<ScriptWork, ScriptSpec>::Finished {
            value: output.value,
            usage: Some(output.usage),
        }),
        refused == Progress::<ScriptWork, ScriptSpec>::Failed(error),
        unsaved == Progress::<ScriptWork, ScriptSpec>::Failed(error),
{
}

/// The work on a storyboard asks for it, saves what is valid for its script and as it was given,
/// puts its scenes in place, and hands it out with its usage; a storyboard that breaks a rule, or
/// an error, ends the work.
pub proof fn law_work_on_a_storyboard(
    script: ScriptSpec,
    output: ProviderOutput<StoryboardSpec>,
    error: AppError,
    valid: AppResult<()>,
    first: StoryboardWork,
    checked: Progress<StoryboardWork, StoryboardSpec>,
    saved: Progress<StoryboardWork, StoryboardSpec>,
    replaced: Progress<StoryboardWork, StoryboardSpec>,
    refused: Progress<StoryboardWork, StoryboardSpec>,
    unsaved: Progress<StoryboardWork, StoryboardSpec>,
    unreplaced: Progress<StoryboardWork, StoryboardSpec>,
)
    requires
        call_ensures(StoryboardWork::first, (), first),
        call_ensures(validate_storyboard, (&output.value, &script), valid),
        call_ensures(
            StoryboardWork::step,
            (first, &script, StoryboardEvent::Generated(Ok(output))),
            checked,
        ),
        call_ensures(
            StoryboardWork::step,
            (StoryboardWork::Save(output), &script, StoryboardEvent::Saved(Ok(()))),
            saved,
        ),
        call_ensures(
            StoryboardWork::step,
            (StoryboardWork::ReplaceScenes(output), &script, StoryboardEvent::Replaced(Ok(()))),
            replaced,
        ),
        call_ensures(
            StoryboardWork::step,
            (first, &script, StoryboardEvent::Generated(Err(error))),
            refused,
        ),
        call_ensures(
            StoryboardWork::step,
            (StoryboardWork::Save(output), &script, StoryboardEvent::Saved(Err(error))),
            unsaved,
        ),
        call_ensures(
            StoryboardWork::step,
            (StoryboardWork::ReplaceScenes(output), &script, StoryboardEvent::Replaced(Err(error))),
            unreplaced,
        ),
    ensures
        first == StoryboardWork::Generate,
        valid is Ok ==> checked == Progress::<StoryboardWork, StoryboardSpec>::Next(
            StoryboardWork::Save(output),
        ),
        valid is Err ==> checked is Failed && checked->Failed_0@ == valid->Err_0@,
        saved == Progress::<StoryboardWork, StoryboardSpec>::Next(
            StoryboardWork::ReplaceScenes(output),
        ),
        replaced == (Progress::<StoryboardWork, StoryboardSpec>::Finished {
            value: output.value,
            usage: Some(output.usage),
        }),
        refused == Progress::<StoryboardWork, StoryboardSpec>::Failed(error),
        unsaved == Progress::<StoryboardWork, StoryboardSpec>::Failed(error),
        unreplaced == Progress::<StoryboardWork, StoryboardSpec>::Failed(error),
{
}

/// What was found of a text is taken exactly where it passes the rules that a new one has to pass.
pub proof fn law_found_texts_are_checked(
    script: ScriptSpec,
    storyboard: StoryboardSpec,
    error: AppError,
    valid_script: AppResult<()>,
    valid_storyboard: AppResult<()>,
    found_script: AppResult<Option<ScriptSpec>>,
    found_storyboard: AppResult<Option<StoryboardSpec>>,
    none: AppResult<Option<ScriptSpec>>,
    unread: AppResult<Option<ScriptSpec>>,
    none_either: AppResult<Option<StoryboardSpec>>,
    unread_either: AppResult<Option<StoryboardSpec>>,
)
    requires
        call_ensures(validate_script, (&script,), valid_script),
        call_ensures(validate_storyboard, (&storyboard, &script), valid_storyboard),
        call_ensures(checked_script, (Ok(Some(script)),), found_script),
        call_ensures(checked_storyboard, (Ok(Some(storyboard)), &script), found_storyboard),
        call_ensures(checked_script, (Ok(None),), none),
        call_ensures(checked_script, (Err(error),), unread),
        call_ensures(checked_storyboard, (Ok(None), &script), none_either),
        call_ensures(checked_storyboard, (Err(error), &script), unread_either),
    ensures
        valid_script is Ok ==> found_script is Ok && found_script->Ok_0 == Some(script),
        valid_script is Err ==> found_script is Err && found_script->Err_0@ == valid_script->Err_0@,
        valid_storyboard is Ok ==> found_storyboard is Ok && found_storyboard->Ok_0 == Some(
            storyboard,
        ),
        valid_storyboard is Err ==> found_storyboard is Err && found_storyboard->Err_0@
            == valid_storyboard->Err_0@,
        none is Ok && none->Ok_0 is None,
        none_either is Ok && none_either->Ok_0 is None,
        unread is Err && unread->Err_0 == error,
        unread_either is Err && unread_either->Err_0 == error,
{
}

/// The work on an illustration asks for it, stores the file that it was given and records that
/// file, and hands out the two with the usage of the request; an error in any step ends the work.
pub proof fn law_work_on_an_illustration(
    output: ProviderOutput<Vec<u8>>,
    object: StoredObject,
    asset_id: Id,
    error: AppError,
    first: ImageWork,
    generated: Progress<ImageWork, GeneratedAsset>,
    stored: Progress<ImageWork, GeneratedAsset>,
    inserted: Progress<ImageWork, GeneratedAsset>,
    ungenerated: Progress<ImageWork, GeneratedAsset>,
    unstored: Progress<ImageWork, GeneratedAsset>,
    uninserted: Progress<ImageWork, GeneratedAsset>,
)
    requires
        ({
            let storing = ImageWork::Store(output);
            let inserting = ImageWork::Insert { object, usage: output.usage };
            &&& call_ensures(ImageWork::first, (), first)
            &&& call_ensures(ImageWork::step, (first, ImageEvent::Generated(Ok(output))), generated)
            &&& call_ensures(ImageWork::step, (storing, ImageEvent::Stored(Ok(object))), stored)
            &&& call_ensures(
                ImageWork::step,
                (inserting, ImageEvent::Inserted(Ok(asset_id))),
                inserted,
            )
            &&& call_ensures(
                ImageWork::step,
                (first, ImageEvent::Generated(Err(error))),
                ungenerated,
            )
            &&& call_ensures(ImageWork::step, (storing, ImageEvent::Stored(Err(error))), unstored)
            &&& call_ensures(
                ImageWork::step,
                (inserting, ImageEvent::Inserted(Err(error))),
                uninserted,
            )
        }),
    ensures
        first == ImageWork::Generate,
        generated == Progress::<ImageWork, GeneratedAsset>::Next(ImageWork::Store(output)),
        stored == Progress::<ImageWork, GeneratedAsset>::Next(
            ImageWork::Insert { object, usage: output.usage },
        ),
        inserted == (Progress::<ImageWork, GeneratedAsset>::Finished {
            value: GeneratedAsset { asset_id, object },
            usage: Some(output.usage),
        }),
        ungenerated == Progress::<ImageWork, GeneratedAsset>::Failed(error),
        unstored == Progress::<ImageWork, GeneratedAsset>::Failed(error),
        uninserted == Progress::<ImageWork, GeneratedAsset>::Failed(error),
{
}

/// The work on a narration asks for it, stores the file that it was given, measures that file and
/// records it, and hands out the file, its record and its measured length with the usage of the
/// request; an error in any step ends the work.
pub proof fn law_work_on_a_narration(
    output: ProviderOutput<Vec<u8>>,
    object: StoredObject,
    duration_ms: i64,
    asset_id: Id,
    error: AppError,
    first: SpeechWork,
    generated: Progress<SpeechWork, GeneratedSpeech>,
    stored: Progress<SpeechWork, GeneratedSpeech>,
    probed: Progress<SpeechWork, GeneratedSpeech>,
    inserted: Progress<SpeechWork, GeneratedSpeech>,
    ungenerated: Progress<SpeechWork, GeneratedSpeech>,
    unstored: Progress<SpeechWork, GeneratedSpeech>,
    unprobed: Progress<SpeechWork, GeneratedSpeech>,
    uninserted: Progress<SpeechWork, GeneratedSpeech>,
)
    requires
        ({
            let storing = SpeechWork::Store(output);
            let probing = SpeechWork::Probe { object, usage: output.usage };
            let inserting = SpeechWork::Insert { object, usage: output.usage, duration_ms };
            &&& call_ensures(SpeechWork::first, (), first)
            &&& call_ensures(
                SpeechWork::step,
                (first, SpeechEvent::Generated(Ok(output))),
                generated,
            )
            &&& call_ensures(SpeechWork::step, (storing, SpeechEvent::Stored(Ok(object))), stored)
            &&& call_ensures(
                SpeechWork::step,
                (probing, SpeechEvent::Probed(Ok(duration_ms))),
                probed,
            )
            &&& call_ensures(
                SpeechWork::step,
                (inserting, SpeechEvent::Inserted(Ok(asset_id))),
                inserted,
            )
            &&& call_ensures(
                SpeechWork::step,
                (first, SpeechEvent::Generated(Err(error))),
                ungenerated,
            )
            &&& call_ensures(SpeechWork::step, (storing, SpeechEvent::Stored(Err(error))), unstored)
            &&& call_ensures(SpeechWork::step, (probing, SpeechEvent::Probed(Err(error))), unprobed)
            &&& call_ensures(
                SpeechWork::step,
                (inserting, SpeechEvent::Inserted(Err(error))),
                uninserted,
            )
        }),
    ensures
        first == SpeechWork::Generate,
        generated == Progress::<SpeechWork, GeneratedSpeech>::Next(SpeechWork::Store(output)),
        stored == Progress::<SpeechWork, GeneratedSpeech>::Next(
            SpeechWork::Probe { object, usage: output.usage },
        ),
        probed == Progress::<SpeechWork, GeneratedSpeech>::Next(
            SpeechWork::Insert { object, usage: output.usage, duration_ms },
        ),
        inserted == (Progress::<SpeechWork, GeneratedSpeech>::Finished {
            value: GeneratedSpeech { asset: GeneratedAsset { asset_id, object }, duration_ms },
            usage: Some(output.usage),
        }),
        ungenerated == Progress::<SpeechWork, GeneratedSpeech>::Failed(error),
        unstored == Progress::<SpeechWork, GeneratedSpeech>::Failed(error),
        unprobed == Progress::<SpeechWork, GeneratedSpeech>::Failed(error),
        uninserted == Progress::<SpeechWork, GeneratedSpeech>::Failed(error),
{
}

/// The work on captions reads the narration, has just that aligned, serializes and stores only cues
/// that are valid for its length, and hands out those cues with their file and its record; cues
/// that break a rule, or an error in any step, end the work.
pub proof fn law_work_on_captions(
    duration_ms: i64,
    audio: Vec<u8>,
    output: ProviderOutput<Vec<CaptionCue>>,
    valid: AppResult<()>,
    bytes: Vec<u8>,
    object: StoredObject,
    asset_id: Id,
    first: CaptionsWork,
    read: Progress<CaptionsWork, GeneratedCaptions>,
    aligned: Progress<CaptionsWork, GeneratedCaptions>,
    serialized: Progress<CaptionsWork, GeneratedCaptions>,
    stored: Progress<CaptionsWork, GeneratedCaptions>,
    inserted: Progress<CaptionsWork, GeneratedCaptions>,
)
    requires
        call_ensures(CaptionsWork::first, (), first),
        call_ensures(
            CaptionsWork::step,
            (first, duration_ms, CaptionsEvent::Read(Ok(audio))),
            read,
        ),
        call_ensures(validate_captions, (&output.value, duration_ms), valid),
        call_ensures(
            CaptionsWork::step,
            (CaptionsWork::Align { audio }, duration_ms, CaptionsEvent::Aligned(Ok(output))),
            aligned,
        ),
        call_ensures(
            CaptionsWork::step,
            (CaptionsWork::Serialize(output), duration_ms, CaptionsEvent::Serialized(Ok(bytes))),
            serialized,
        ),
        call_ensures(
            CaptionsWork::step,
            (CaptionsWork::Store { output, bytes }, duration_ms, CaptionsEvent::Stored(Ok(object))),
            stored,
        ),
        call_ensures(
            CaptionsWork::step,
            (
                CaptionsWork::Insert { output, object },
                duration_ms,
                CaptionsEvent::Inserted(Ok(asset_id)),
            ),
            inserted,
        ),
    ensures
        first == CaptionsWork::Read,
        read == Progress::<CaptionsWork, GeneratedCaptions>::Next(CaptionsWork::Align { audio }),
        valid is Ok ==> aligned == Progress::<CaptionsWork, GeneratedCaptions>::Next(
            CaptionsWork::Serialize(output),
        ),
        valid is Err ==> aligned is Failed && aligned->Failed_0@ == valid->Err_0@,
        serialized == Progress::<CaptionsWork, GeneratedCaptions>::Next(
            CaptionsWork::Store { output, bytes },
        ),
        stored == Progress::<CaptionsWork, GeneratedCaptions>::Next(
            CaptionsWork::Insert { output, object },
        ),
        inserted == (Progress::<CaptionsWork, GeneratedCaptions>::Finished {
            value: GeneratedCaptions { asset_id, object, cues: output.value },
            usage: Some(output.usage),
        }),
{
}

/// An error in any step of the work on captions ends the work with it.
pub proof fn law_error_ends_the_work_on_captions(
    work: CaptionsWork,
    duration_ms: i64,
    event: CaptionsEvent,
    error: AppError,
    r: Progress<CaptionsWork, GeneratedCaptions>,
)
    requires
        work.admits(event),
        ({
            ||| event == CaptionsEvent::Read(Err(error))
            ||| event == CaptionsEvent::Aligned(Err(error))
            ||| event == CaptionsEvent::Serialized(Err(error))
            ||| event == CaptionsEvent::Stored(Err(error))
            ||| event == CaptionsEvent::Inserted(Err(error))
        }),
        call_ensures(CaptionsWork::step, (work, duration_ms, event), r),
    ensures
        r == Progress::<CaptionsWork, GeneratedCaptions>::Failed(error),
{
}

/// The work on a video records it, has that record rendered, closes the record as what came of it,
/// and is remembered by the address of the video; a failed rendering closes its record with its own
/// error, and that error ends the work.
pub proof fn law_work_on_a_video(
    render_id: Id,
    result: RenderJobResult,
    error: AppError,
    first: RenderWork,
    recorded: Progress<RenderWork, RenderCache>,
    unrecorded: Progress<RenderWork, RenderCache>,
    rendered: Progress<RenderWork, RenderCache>,
    unrendered: Progress<RenderWork, RenderCache>,
    completed: Progress<RenderWork, RenderCache>,
    failed: Progress<RenderWork, RenderCache>,
)
    requires
        ({
            let rendering = RenderWork::Render { render_id };
            let completing = RenderWork::Complete { render_id, result };
            let failing = RenderWork::Fail { render_id, error };
            &&& call_ensures(RenderWork::first, (), first)
            &&& call_ensures(
                RenderWork::step,
                (first, RenderEvent::Recorded(Ok(render_id))),
                recorded,
            )
            &&& call_ensures(
                RenderWork::step,
                (first, RenderEvent::Recorded(Err(error))),
                unrecorded,
            )
            &&& call_ensures(
                RenderWork::step,
                (rendering, RenderEvent::Rendered(Ok(result))),
                rendered,
            )
            &&& call_ensures(
                RenderWork::step,
                (rendering, RenderEvent::Rendered(Err(error))),
                unrendered,
            )
            &&& call_ensures(RenderWork::step, (completing, RenderEvent::Closed(Ok(()))), completed)
            &&& call_ensures(RenderWork::step, (failing, RenderEvent::Closed(Ok(()))), failed)
        }),
    ensures
        first == RenderWork::Record,
        recorded == Progress::<RenderWork, RenderCache>::Next(RenderWork::Render { render_id }),
        unrecorded == Progress::<RenderWork, RenderCache>::Failed(error),
        rendered == Progress::<RenderWork, RenderCache>::Next(
            RenderWork::Complete { render_id, result },
        ),
        unrendered == Progress::<RenderWork, RenderCache>::Next(
            RenderWork::Fail { render_id, error },
        ),
        completed == (Progress::<RenderWork, RenderCache>::Finished {
            value: RenderCache { public_url: result.public_url },
            usage: None,
        }),
        failed == Progress::<RenderWork, RenderCache>::Failed(error),
{
}

/// The writes of the works are those of their own results: the checkpoint of a text in its column
/// of the version, the scenes of the storyboard, and the record of a rendering with its video or
/// with the text of its error. No other step writes them.
pub proof fn law_writes_of_the_works(
    script: ScriptWork,
    storyboard: StoryboardWork,
    render: RenderWork,
    project_id: Id,
    version_id: Id,
    spec: String,
    script_write: Option<VersionUpdate>,
    storyboard_write: Option<VersionUpdate>,
    scenes: Option<SceneReplacement>,
    record: Option<RenderUpdate>,
)
    requires
        call_ensures(ScriptWork::checkpoint_write, (&script, version_id, spec), script_write),
        call_ensures(
            StoryboardWork::checkpoint_write,
            (&storyboard, version_id, spec),
            storyboard_write,
        ),
        call_ensures(StoryboardWork::scenes_write, (&storyboard, project_id, version_id), scenes),
        call_ensures(RenderWork::record_write, (&render,), record),
    ensures
        script_write is Some <==> script is Save,
        script_write is Some ==> script_write->0.version_id == version_id
            && script_write->0.column == VersionColumn::Script && script_write->0.value == spec,
        storyboard_write is Some <==> storyboard is Save,
        storyboard_write is Some ==> storyboard_write->0.version_id == version_id
            && storyboard_write->0.column == VersionColumn::Storyboard && storyboard_write->0.value
            == spec,
        scenes is Some <==> storyboard is ReplaceScenes,
        storyboard matches StoryboardWork::ReplaceScenes(output) ==> {
            let drafts = output.value.scenes@;
            &&& scenes->0.version_id == version_id
            &&& scenes->0.rows@.len() == drafts.len()
            &&& forall|i: int|
                #![trigger scenes->0.rows@[i]]
                0 <= i < drafts.len() ==> {
                    &&& scenes->0.rows@[i].project_id == project_id
                    &&& scenes->0.rows@[i].project_version_id == version_id
                    &&& scenes->0.rows@[i].sequence == drafts[i].sequence
                    &&& scenes->0.rows@[i].narration_text == drafts[i].narration
                    &&& scenes->0.rows@[i].visual_prompt == drafts[i].visual_prompt
                    &&& scenes->0.rows@[i].on_screen_text == drafts[i].on_screen_text
                }
        },
        record is Some <==> render is Complete || render is Fail,
        render matches RenderWork::Complete { render_id, result } ==> {
            &&& record->0.render_id == render_id && record->0.status@ == "completed"@
            &&& record->0.video is Some && record->0.error_message is None
            &&& record->0.video->0.storage_key == result.storage_key
            &&& record->0.video->0.public_url == result.public_url
            &&& record->0.video->0.duration_ms == result.duration_ms
        },
        render matches RenderWork::Fail { render_id, error } ==> {
            &&& record->0.render_id == render_id && record->0.status@ == "failed"@
            &&& record->0.video is None && record->0.error_message is Some
            &&& record->0.error_message->0@ == error_text(error@)
        },
{
}

} // verus!
