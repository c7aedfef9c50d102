//! The generated assets of a scene and the course of their generation.
use crate::db::{Repository, SceneAssets, SceneRecord, SceneUpdate};
use crate::domain::{CaptionCue, TransitionKind};
use crate::error::{AppError, AppResult};
use crate::ids::Id;
use crate::pipeline::timeline::{parse_transition, stored_transition, GeneratedScene};
use crate::storage::StoredObject;
use vstd::prelude::*;
use vstd::string::*;

verus! {

#[derive(Clone, Debug)]
pub struct GeneratedAsset {
    pub asset_id: Id,
    pub object: StoredObject,
}

/// A narration and how long it is.
#[derive(Clone, Debug)]
pub struct GeneratedSpeech {
    pub asset: GeneratedAsset,
    pub duration_ms: i64,
}

#[derive(Clone, Debug)]
pub struct GeneratedCaptions {
    pub asset_id: Id,
    pub object: StoredObject,
    pub cues: Vec<CaptionCue>,
}

/// Where the generation of the assets of a scene is. The state says what is to be done next.
pub enum SceneState {
    /// Mark the scene as being generated.
    MarkGenerating,
    /// Generate the illustration and the narration, at the same time, and wait for both.
    ImageAndSpeech,
    /// Generate the captions of the narration.
    Captions { image: GeneratedAsset, speech: GeneratedSpeech },
    /// Mark the scene as ready.
    MarkReady { image: GeneratedAsset, speech: GeneratedSpeech, captions: GeneratedCaptions },
    /// Mark the scene as failed.
    MarkFailed { error: AppError },
    Done { result: AppResult<GeneratedScene> },
}

/// What doing it came to.
pub enum SceneEvent {
    Marked(AppResult<()>),
    ImageAndSpeech(AppResult<GeneratedAsset>, AppResult<GeneratedSpeech>),
    Captions(AppResult<GeneratedCaptions>),
}

/// A scene with its assets.
pub open spec fn assembled(
    scene: SceneRecord,
    image: GeneratedAsset,
    speech: GeneratedSpeech,
    captions: GeneratedCaptions,
) -> GeneratedScene {
    GeneratedScene {
        scene_id: scene.id,
        sequence: scene.sequence,
        image_url: image.object.public_url,
        audio_url: speech.asset.object.public_url,
        on_screen_text: scene.on_screen_text,
        transition: stored_transition(scene.transition@),
        duration_ms: speech.duration_ms,
        captions: captions.cues,
    }
}

impl SceneState {
    /// Whether `event` is an answer to what is to be done.
    pub open spec fn admits(self, event: SceneEvent) -> bool {
        match self {
            SceneState::MarkGenerating => event is Marked,
            SceneState::ImageAndSpeech => event is ImageAndSpeech,
            SceneState::Captions { .. } => event is Captions,
            SceneState::MarkReady { .. } => event is Marked,
            SceneState::MarkFailed { .. } => event is Marked,
            SceneState::Done { .. } => false,
        }
    }

    /// Where the generation of `scene` is after `event`. Where both the illustration and the
    /// narration failed, the error of the illustration counts.
    pub open spec fn after(self, scene: SceneRecord, event: SceneEvent) -> SceneState {
        match (self, event) {
            (SceneState::MarkGenerating, SceneEvent::Marked(Ok(_))) => SceneState::ImageAndSpeech,
            (SceneState::MarkGenerating, SceneEvent::Marked(Err(error))) => SceneState::Done {
                result: Err(error),
            },
            (SceneState::ImageAndSpeech, SceneEvent::ImageAndSpeech(Err(error), _)) =>
                SceneState::MarkFailed { error },
            (SceneState::ImageAndSpeech, SceneEvent::ImageAndSpeech(Ok(_), Err(error))) =>
                SceneState::MarkFailed { error },
            (SceneState::ImageAndSpeech, SceneEvent::ImageAndSpeech(Ok(image), Ok(speech))) =>
                SceneState::Captions { image, speech },
            (SceneState::Captions { .. }, SceneEvent::Captions(Err(error))) =>
                SceneState::MarkFailed { error },
            (SceneState::Captions { image, speech }, SceneEvent::Captions(Ok(captions))) =>
                SceneState::MarkReady { image, speech, captions },
            (SceneState::MarkReady { .. }, SceneEvent::Marked(Err(error))) =>
                SceneState::MarkFailed { error },
            (
                SceneState::MarkReady { image, speech, captions },
                SceneEvent::Marked(Ok(_)),
            ) => SceneState::Done { result: Ok(assembled(scene, image, speech, captions)) },
            (SceneState::MarkFailed { error }, SceneEvent::Marked(Ok(_))) => SceneState::Done {
                result: Err(error),
            },
            (SceneState::MarkFailed { .. }, SceneEvent::Marked(Err(second))) => SceneState::Done {
                result: Err(second),
            },
            _ => self,
        }
    }

    /// What is to be written of the scene in this state: that its generation starts, that it is
    /// ready, with the length of its narration and the assets that it consists of, or that it
    /// failed.
    pub fn scene_write(&self, scene: &SceneRecord) -> (r: Option<SceneUpdate>)
        ensures
            match *self {
                SceneState::MarkGenerating => {
                    &&& r is Some
                    &&& r->0.scene_id == scene.id
                    &&& r->0.status@ == "generating"@
                    &&& r->0.ready is None
                },
                SceneState::MarkReady { image, speech, captions } => {
                    &&& r is Some
                    &&& r->0.scene_id == scene.id
                    &&& r->0.status@ == "ready"@
                    &&& r->0.ready == Some(
                        SceneAssets {
                            duration_ms: speech.duration_ms,
                            image_id: image.asset_id,
                            audio_id: speech.asset.asset_id,
                            caption_id: captions.asset_id,
                        },
                    )
                },
                SceneState::MarkFailed { .. } => {
                    &&& r is Some
                    &&& r->0.scene_id == scene.id
                    &&& r->0.status@ == "failed"@
                    &&& r->0.ready is None
                },
                _ => r is None,
            },
    {
        match self {
            SceneState::MarkGenerating => Some(Repository::mark_scene_generating(scene.id)),
            SceneState::MarkReady { image, speech, captions } => Some(
                Repository::mark_scene_ready(
                    scene.id,
                    speech.duration_ms,
                    image.asset_id,
                    speech.asset.asset_id,
                    captions.asset_id,
                ),
            ),
            SceneState::MarkFailed { .. } => Some(Repository::mark_scene_failed(scene.id)),
            _ => None,
        }
    }

    /// Takes note of what the step to be done came to.
    pub fn step(self, scene: &SceneRecord, event: SceneEvent) -> (r: SceneState)
        requires
            self.admits(event),
        ensures
            r == self.after(*scene, event),
    {
        match event {
            SceneEvent::Marked(marked) => match self {
                SceneState::MarkGenerating => match marked {
                    Ok(()) => SceneState::ImageAndSpeech,
                    Err(error) => SceneState::Done { result: Err(error) },
                },
                SceneState::MarkReady { image, speech, captions } => match marked {
                    Ok(()) => SceneState::Done {
                        result: Ok(
                            GeneratedScene {
                                scene_id: scene.id,
                                sequence: scene.sequence,
                                image_url: image.object.public_url,
                                audio_url: speech.asset.object.public_url,
                                on_screen_text: match &scene.on_screen_text {
                                    Some(text) => Some(text.clone()),
                                    None => None,
                                },
                                transition: parse_transition(scene.transition.as_str()),
                                duration_ms: speech.duration_ms,
                                captions: captions.cues,
                            },
                        ),
                    },
                    Err(error) => SceneState::MarkFailed { error },
                },
                SceneState::MarkFailed { error } => match marked {
                    Ok(()) => SceneState::Done { result: Err(error) },
                    Err(second) => SceneState::Done { result: Err(second) },
                },
                other => other,
            },
            SceneEvent::ImageAndSpeech(image, speech) => match image {
                Err(error) => SceneState::MarkFailed { error },
                Ok(image) => match speech {
                    Err(error) => SceneState::MarkFailed { error },
                    Ok(speech) => SceneState::Captions { image, speech },
                },
            },
            SceneEvent::Captions(generated) => match self {
                SceneState::Captions { image, speech } => match generated {
                    Ok(captions) => SceneState::MarkReady { image, speech, captions },
                    Err(error) => SceneState::MarkFailed { error },
                },
                other => other,
            },
        }
    }

    /// Whether `events` answer what is to be done, one after the other.
    pub open spec fn admits_all(self, scene: SceneRecord, events: Seq<SceneEvent>) -> bool
        decreases events.len(),
    {
        events.len() == 0 || (self.admits_all(scene, events.drop_last()) && self.after_all(
            scene,
            events.drop_last(),
        ).admits(events.last()))
    }

    pub open spec fn after_all(self, scene: SceneRecord, events: Seq<SceneEvent>) -> SceneState
        decreases events.len(),
    {
        if events.len() == 0 {
            self
        } else {
            self.after_all(scene, events.drop_last()).after(scene, events.last())
        }
    }
}

/// Once a scene was marked as being generated, its generation ends only behind a second mark:
/// with a scene behind the mark that it is ready, with an error behind the mark that it
/// failed.
pub proof fn law_scene_ends_ready_or_failed(
    scene: SceneRecord,
    events: Seq<SceneEvent>,
    result: AppResult<GeneratedScene>,
)
    requires
        SceneState::ImageAndSpeech.admits_all(scene, events),
        SceneState::ImageAndSpeech.after_all(scene, events) == (SceneState::Done { result }),
    ensures
        events.len() > 0,
        events.last() is Marked,
        result is Ok ==> SceneState::ImageAndSpeech.after_all(
            scene,
            events.drop_last(),
        ) is MarkReady,
        result is Err ==> SceneState::ImageAndSpeech.after_all(
            scene,
            events.drop_last(),
        ) is MarkFailed,
{
    lemma_never_marked_twice(scene, events.drop_last());
}

/// A generated scene bears the identifier and the sequence number of the scene that it was
/// generated for.
pub proof fn law_generated_scene_belongs_to_its_record(
    scene: SceneRecord,
    events: Seq<SceneEvent>,
    generated: GeneratedScene,
)
    requires
        SceneState::MarkGenerating.admits_all(scene, events),
        SceneState::MarkGenerating.after_all(scene, events) == (SceneState::Done {
            result: Ok(generated),
        }),
    ensures
        generated.scene_id == scene.id,
        generated.sequence == scene.sequence,
{
}

proof fn lemma_never_marked_twice(scene: SceneRecord, events: Seq<SceneEvent>)
    requires
        SceneState::ImageAndSpeech.admits_all(scene, events),
    ensures
        !(SceneState::ImageAndSpeech.after_all(scene, events) is MarkGenerating),
    decreases events.len(),
{
    if events.len() > 0 {
        lemma_never_marked_twice(scene, events.drop_last());
    }
}

/// A scene is marked, then its illustration and its narration are generated, then the captions of
/// just that narration; once it is marked as ready it consists of what was generated, with its own
/// number, text and transition.
pub proof fn law_course_of_a_scene(
    scene: SceneRecord,
    image: GeneratedAsset,
    speech: GeneratedSpeech,
    captions: GeneratedCaptions,
    text: &str,
    transition: TransitionKind,
    marked: SceneState,
    spoken: SceneState,
    captioned: SceneState,
    ready: SceneState,
)
    requires
        call_ensures(
            SceneState::step,
            (SceneState::MarkGenerating, &scene, SceneEvent::Marked(Ok(()))),
            marked,
        ),
        call_ensures(
            SceneState::step,
            (SceneState::ImageAndSpeech, &scene, SceneEvent::ImageAndSpeech(Ok(image), Ok(speech))),
            spoken,
        ),
        call_ensures(
            SceneState::step,
            (SceneState::Captions { image, speech }, &scene, SceneEvent::Captions(Ok(captions))),
            captioned,
        ),
        call_ensures(
            SceneState::step,
            (
                SceneState::MarkReady { image, speech, captions },
                &scene,
                SceneEvent::Marked(Ok(())),
            ),
            ready,
        ),
        text@ == scene.transition@,
        call_ensures(parse_transition, (text,), transition),
    ensures
        marked == SceneState::ImageAndSpeech,
        spoken == (SceneState::Captions { image, speech }),
        captioned == (SceneState::MarkReady { image, speech, captions }),
        ready is Done && ready->result is Ok,
        ({
            let generated = ready->result->Ok_0;
            &&& generated.scene_id == scene.id
            &&& generated.sequence == scene.sequence
            &&& generated.image_url == image.object.public_url
            &&& generated.audio_url == speech.asset.object.public_url
            &&& generated.on_screen_text == scene.on_screen_text
            &&& generated.transition == transition
            &&& generated.duration_ms == speech.duration_ms
            &&& generated.captions == captions.cues
        }),
{
}

/// An error in generating a scene marks it as failed before it is reported; of two errors at once
/// that of the illustration counts. An error in marking the scene at first is reported as it is,
/// and one in marking it as failed takes the place of the first.
pub proof fn law_errors_of_a_scene(
    scene: SceneRecord,
    image: GeneratedAsset,
    speech: GeneratedSpeech,
    captions: GeneratedCaptions,
    other: AppResult<GeneratedSpeech>,
    error: AppError,
    second: AppError,
    unmarked: SceneState,
    unpainted: SceneState,
    unspoken: SceneState,
    uncaptioned: SceneState,
    unready: SceneState,
    failed: SceneState,
    unfailed: SceneState,
)
    requires
        call_ensures(
            SceneState::step,
            (SceneState::MarkGenerating, &scene, SceneEvent::Marked(Err(error))),
            unmarked,
        ),
        call_ensures(
            SceneState::step,
            (SceneState::ImageAndSpeech, &scene, SceneEvent::ImageAndSpeech(Err(error), other)),
            unpainted,
        ),
        call_ensures(
            SceneState::step,
            (
                SceneState::ImageAndSpeech,
                &scene,
                SceneEvent::ImageAndSpeech(Ok(image), Err(error)),
            ),
            unspoken,
        ),
        call_ensures(
            SceneState::step,
            (SceneState::Captions { image, speech }, &scene, SceneEvent::Captions(Err(error))),
            uncaptioned,
        ),
        call_ensures(
            SceneState::step,
            (
                SceneState::MarkReady { image, speech, captions },
                &scene,
                SceneEvent::Marked(Err(error)),
            ),
            unready,
        ),
        call_ensures(
            SceneState::step,
            (SceneState::MarkFailed { error }, &scene, SceneEvent::Marked(Ok(()))),
            failed,
        ),
        call_ensures(
            SceneState::step,
            (SceneState::MarkFailed { error }, &scene, SceneEvent::Marked(Err(second))),
            unfailed,
        ),
    ensures
        unmarked == (SceneState::Done { result: Err(error) }),
        unpainted == (SceneState::MarkFailed { error }),
        unspoken == (SceneState::MarkFailed { error }),
        uncaptioned == (SceneState::MarkFailed { error }),
        unready == (SceneState::MarkFailed { error }),
        failed == (SceneState::Done { result: Err(error) }),
        unfailed == (SceneState::Done { result: Err(second) }),
{
}

/// A scene is written as what its state says; as ready with the length of its narration, its
/// illustration, its narration and its captions, each in its own place.
pub proof fn law_writes_of_a_scene(state: SceneState, scene: SceneRecord, r: Option<SceneUpdate>)
    requires
        call_ensures(SceneState::scene_write, (&state, &scene), r),
    ensures
        r is Some <==> state is MarkGenerating || state is MarkReady || state is MarkFailed,
        r is Some ==> r->0.scene_id == scene.id,
        state is MarkGenerating ==> r->0.status@ == "generating"@ && r->0.ready is None,
        state is MarkFailed ==> r->0.status@ == "failed"@ && r->0.ready is None,
        state matches SceneState::MarkReady { image, speech, captions } ==> {
            &&& r->0.status@ == "ready"@ && r->0.ready is Some
            &&& r->0.ready->0.duration_ms == speech.duration_ms
            &&& r->0.ready->0.image_id == image.asset_id
            &&& r->0.ready->0.audio_id == speech.asset.asset_id
            &&& r->0.ready->0.caption_id == captions.asset_id
        },
{
}

} // verus!
