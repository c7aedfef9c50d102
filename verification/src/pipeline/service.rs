//! The tasks of the pipeline: under which keys they run, what they ask for and what they store.
use crate::db::{AssetMetadata, NewAsset, NewRender, SceneRecord};
use crate::domain::{
    Project, ProjectVersion, RenderJobRequest, RenderSpec, ScriptSpec, StyleBible,
};
use crate::error::AppResult;
use crate::hashing::{content_hash, content_hash_of};
use crate::ids::{hyphenated, is_random_id, Id};
use crate::pipeline::keys::{
    captions_key, captions_material, illustration_prompt, image_key, image_material, image_prompt,
    render_key, render_material, render_output_key, render_task_key, scene_directory,
    scene_file_key, script_key, script_material, speech_key, speech_material, storyboard_key,
    storyboard_material, task_key,
};
use crate::pipeline::assets::SceneState;
use crate::pipeline::scenes::{BatchView, SceneBatch};
use crate::pipeline::task::TaskDescriptor;
use crate::pipeline::timeline::{
    is_render_spec, render_dimensions, render_spec, stored_size, timeline_fits, GeneratedScene,
};
use crate::providers::{
    script_prompt, storyboard_prompt, AlignmentCall, ImageCall, ImageGenerationRequest,
    ModelGatewayClient, SpeechCall, TextCall, SCRIPT_SYSTEM, SPEECH_INSTRUCTIONS,
    STORYBOARD_SYSTEM,
};
use crate::render::RenderClient;
use crate::storage::{
    is_stored, law_generated_keys_are_safe, path_below, AssetWrite, LocalAssetStore, StoredObject,
};
use vstd::prelude::*;
use vstd::string::*;

verus! {

/// Whether `task` is a task of `stage` over `material` for a version of a project.
pub open spec fn is_task(
    task: TaskDescriptor,
    workflow_id: Id,
    project: Project,
    version: ProjectVersion,
    scene_id: Option<Id>,
    stage: Seq<char>,
    material: Seq<char>,
) -> bool {
    &&& task.workflow_id == workflow_id
    &&& task.project_id == project.id
    &&& task.version_id == Some(version.id)
    &&& task.scene_id == scene_id
    &&& task.stage@ == stage
    &&& task.key@ == task_key(stage, material)
    &&& task.key@.len() <= 256
}

/// Whether `asset` is the record of a stored file of a scene.
pub open spec fn is_asset(
    asset: NewAsset,
    id: Id,
    project_id: Id,
    scene_id: Id,
    provider: Seq<char>,
    model: Seq<char>,
    object: StoredObject,
    metadata: AssetMetadata,
) -> bool {
    &&& asset.id == id
    &&& asset.project_id == project_id
    &&& asset.scene_id == Some(scene_id)
    &&& asset.kind@ == metadata.kind_name()
    &&& asset.provider@ == provider
    &&& asset.model@ == model
    &&& asset.storage_key == object.key
    &&& asset.public_url == object.public_url
    &&& asset.content_type@ == metadata.media_type()
    &&& asset.byte_size == object.byte_size
    &&& asset.checksum == object.checksum
    &&& asset.metadata == metadata
}

/// The record of a stored file of a scene, with the given identifier. The kind of the asset
/// and the type of its content follow from what is known of the file.
pub fn new_asset(
    id: Id,
    project_id: Id,
    scene_id: Id,
    provider: &str,
    model: &str,
    object: &StoredObject,
    metadata: AssetMetadata,
) -> (r: NewAsset)
    ensures
        is_asset(r, id, project_id, scene_id, provider@, model@, *object, metadata),
{
    NewAsset {
        id,
        project_id,
        scene_id: Some(scene_id),
        kind: metadata.kind(),
        provider: provider.to_owned(),
        model: model.to_owned(),
        storage_key: object.key.clone(),
        public_url: object.public_url.clone(),
        content_type: metadata.content_type(),
        byte_size: object.byte_size,
        checksum: object.checksum.clone(),
        metadata,
    }
}

/// The record of a stored file of a scene, with a fresh identifier.
fn insert_asset(
    project_id: Id,
    scene_id: Id,
    provider: &str,
    model: &str,
    object: &StoredObject,
    metadata: AssetMetadata,
) -> (r: NewAsset)
    ensures
        is_random_id(r.id),
        is_asset(r, r.id, project_id, scene_id, provider@, model@, *object, metadata),
{
    new_asset(Id::random(), project_id, scene_id, provider, model, object, metadata)
}

/// The task of rendering a video, and the hash of what is rendered.
pub struct RenderTask {
    pub descriptor: TaskDescriptor,
    pub hash: String,
}

/// The services that the pipeline uses.
#[derive(Clone, Debug)]
pub struct PipelineService {
    pub gateway: ModelGatewayClient,
    pub storage: LocalAssetStore,
    pub renderer: RenderClient,
    pub asset_root: String,
}

impl PipelineService {
    pub fn new(
        gateway: ModelGatewayClient,
        storage: LocalAssetStore,
        renderer: RenderClient,
        asset_root: String,
    ) -> (r: PipelineService)
        ensures
            r == (PipelineService { gateway, storage, renderer, asset_root }),
    {
        PipelineService { gateway, storage, renderer, asset_root }
    }

    fn describe(
        workflow_id: Id,
        project: &Project,
        version: &ProjectVersion,
        scene_id: Option<Id>,
        stage: &'static str,
        key: String,
        provider: &str,
        model: &str,
    ) -> (r: TaskDescriptor)
        ensures
            r.workflow_id == workflow_id,
            r.project_id == project.id,
            r.version_id == Some(version.id),
            r.scene_id == scene_id,
            r.stage == stage,
            r.key == key,
            r.provider@ == provider@,
            r.model@ == model@,
    {
        TaskDescriptor {
            workflow_id,
            project_id: project.id,
            version_id: Some(version.id),
            scene_id,
            stage,
            key,
            provider: provider.to_owned(),
            model: model.to_owned(),
        }
    }

    /// The task of writing the script of a version.
    pub fn generate_script(
        &self,
        workflow_id: Id,
        project: &Project,
        version: &ProjectVersion,
    ) -> (r: TaskDescriptor)
        ensures
            is_task(
                r,
                workflow_id,
                *project,
                *version,
                None,
                "script"@,
                script_material(*project, *version),
            ),
            r.provider@ == project.text_provider@,
            r.model@ == project.text_model@,
    {
        Self::describe(
            workflow_id,
            project,
            version,
            None,
            "script",
            script_key(project, version),
            project.text_provider.as_str(),
            project.text_model.as_str(),
        )
    }

    /// What the task `task_id` asks of the gateway for a script.
    pub fn script_call(&self, project: &Project, task_id: Id) -> (r: TextCall)
        ensures
            r.url@ == self.gateway.base_url@ + "/v1/text/generate"@,
            r.provider@ == project.text_provider@,
            r.model@ == project.text_model@,
            r.system@ == SCRIPT_SYSTEM@,
            r.prompt@ == script_prompt(*project),
            r.schema_name@ == "video_script"@,
            r.request_id == task_id,
    {
        self.gateway.generate_script(
            project,
            project.text_provider.as_str(),
            project.text_model.as_str(),
            task_id,
        )
    }

    /// The task of making the storyboard of a version for a script, given as `input` in
    /// serialized form.
    pub fn generate_storyboard(
        &self,
        workflow_id: Id,
        project: &Project,
        version: &ProjectVersion,
        input: &[u8],
    ) -> (r: TaskDescriptor)
        ensures
            is_task(
                r,
                workflow_id,
                *project,
                *version,
                None,
                "storyboard"@,
                storyboard_material(*project, *version, input@),
            ),
            r.provider@ == project.text_provider@,
            r.model@ == project.text_model@,
    {
        Self::describe(
            workflow_id,
            project,
            version,
            None,
            "storyboard",
            storyboard_key(project, version, input),
            project.text_provider.as_str(),
            project.text_model.as_str(),
        )
    }

    /// What the task `task_id` asks of the gateway for a storyboard.
    pub fn storyboard_call(&self, project: &Project, script: &ScriptSpec, task_id: Id) -> (r:
        TextCall)
        ensures
            r.url@ == self.gateway.base_url@ + "/v1/text/generate"@,
            r.provider@ == project.text_provider@,
            r.model@ == project.text_model@,
            r.system@ == STORYBOARD_SYSTEM@,
            r.prompt@ == storyboard_prompt(*project, *script),
            r.schema_name@ == "video_storyboard"@,
            r.request_id == task_id,
    {
        self.gateway.generate_storyboard(
            project,
            script,
            project.text_provider.as_str(),
            project.text_model.as_str(),
            task_id,
        )
    }

    /// The task of illustrating a scene.
    pub fn generate_image_asset(
        &self,
        workflow_id: Id,
        project: &Project,
        version: &ProjectVersion,
        scene: &SceneRecord,
        style: &StyleBible,
    ) -> (r: TaskDescriptor)
        ensures
            is_task(
                r,
                workflow_id,
                *project,
                *version,
                Some(scene.id),
                "image"@,
                image_material(*project, *version, *scene, illustration_prompt(*scene, *style)),
            ),
            r.provider@ == project.image_provider@,
            r.model@ == project.image_model@,
    {
        let prompt = image_prompt(scene, style);
        Self::describe(
            workflow_id,
            project,
            version,
            Some(scene.id),
            "image",
            image_key(project, version, scene, prompt.as_str()),
            project.image_provider.as_str(),
            project.image_model.as_str(),
        )
    }

    /// What the task `task_id` asks of the gateway for an illustration: one of the size of the
    /// frames.
    pub fn image_call(
        &self,
        project: &Project,
        scene: &SceneRecord,
        style: &StyleBible,
        task_id: Id,
    ) -> (r: ImageCall)
        ensures
            r.url@ == self.gateway.base_url@ + "/v1/images/generate"@,
            r.provider@ == project.image_provider@,
            r.model@ == project.image_model@,
            r.prompt@ == illustration_prompt(*scene, *style),
            (r.width, r.height) == stored_size(project.aspect_ratio@),
            r.quality@ == "high"@,
            r.request_id == task_id,
            r.input_units == illustration_prompt(*scene, *style).len() as i64,
    {
        let prompt = image_prompt(scene, style);
        let (width, height) = render_dimensions(project.aspect_ratio.as_str());
        self.gateway.generate_image(
            ImageGenerationRequest {
                prompt: prompt.as_str(),
                width,
                height,
                quality: "high",
                provider: project.image_provider.as_str(),
                model: project.image_model.as_str(),
                request_id: task_id,
            },
        )
    }

    /// The file of an illustration.
    pub fn image_file(&self, project: &Project, scene: &SceneRecord, bytes: &[u8]) -> (r: AppResult<
        AssetWrite,
    >)
        ensures
            is_scene_file(r, self.storage, *project, *scene, "illustration.png"@, bytes@),
    {
        let key = scene_file_key(project.id, scene.id, "illustration.png");
        proof {
            law_generated_keys_are_safe(project.id, scene.id, bytes@);
        }
        self.storage.put(key.as_str(), bytes)
    }

    /// The record of an illustration.
    pub fn image_asset(&self, project: &Project, scene: &SceneRecord, object: &StoredObject) -> (r:
        NewAsset)
        ensures
            is_random_id(r.id),
            is_asset(
                r,
                r.id,
                project.id,
                scene.id,
                project.image_provider@,
                project.image_model@,
                *object,
                AssetMetadata::Image {
                    width: stored_size(project.aspect_ratio@).0,
                    height: stored_size(project.aspect_ratio@).1,
                },
            ),
    {
        let (width, height) = render_dimensions(project.aspect_ratio.as_str());
        insert_asset(
            project.id,
            scene.id,
            project.image_provider.as_str(),
            project.image_model.as_str(),
            object,
            AssetMetadata::Image { width, height },
        )
    }

    /// The task of speaking the narration of a scene.
    pub fn generate_speech_asset(
        &self,
        workflow_id: Id,
        project: &Project,
        version: &ProjectVersion,
        scene: &SceneRecord,
    ) -> (r: TaskDescriptor)
        ensures
            is_task(
                r,
                workflow_id,
                *project,
                *version,
                Some(scene.id),
                "speech"@,
                speech_material(*project, *version, *scene),
            ),
            r.provider@ == project.speech_provider@,
            r.model@ == project.speech_model@,
    {
        Self::describe(
            workflow_id,
            project,
            version,
            Some(scene.id),
            "speech",
            speech_key(project, version, scene),
            project.speech_provider.as_str(),
            project.speech_model.as_str(),
        )
    }

    /// What the task `task_id` asks of the gateway for a narration.
    pub fn speech_call(&self, project: &Project, scene: &SceneRecord, task_id: Id) -> (r: SpeechCall)
        ensures
            r.url@ == self.gateway.base_url@ + "/v1/audio/speech"@,
            r.provider@ == project.speech_provider@,
            r.model@ == project.speech_model@,
            r.text@ == scene.narration_text@,
            r.voice@ == project.voice@,
            r.output_format@ == "wav"@,
            r.instructions@ == SPEECH_INSTRUCTIONS@,
            r.request_id == task_id,
            r.input_units == scene.narration_text@.len() as i64,
    {
        self.gateway.synthesize_speech(
            scene.narration_text.as_str(),
            project.voice.as_str(),
            project.speech_provider.as_str(),
            project.speech_model.as_str(),
            task_id,
        )
    }

    /// The file of a narration.
    pub fn speech_file(&self, project: &Project, scene: &SceneRecord, bytes: &[u8]) -> (r: AppResult<
        AssetWrite,
    >)
        ensures
            is_scene_file(r, self.storage, *project, *scene, "narration.wav"@, bytes@),
    {
        let key = scene_file_key(project.id, scene.id, "narration.wav");
        proof {
            law_generated_keys_are_safe(project.id, scene.id, bytes@);
        }
        self.storage.put(key.as_str(), bytes)
    }

    /// The record of a narration of the measured length.
    pub fn speech_asset(
        &self,
        project: &Project,
        scene: &SceneRecord,
        object: &StoredObject,
        duration_ms: i64,
    ) -> (r: NewAsset)
        ensures
            is_random_id(r.id),
            is_asset(
                r,
                r.id,
                project.id,
                scene.id,
                project.speech_provider@,
                project.speech_model@,
                *object,
                AssetMetadata::Audio { duration_ms },
            ),
    {
        insert_asset(
            project.id,
            scene.id,
            project.speech_provider.as_str(),
            project.speech_model.as_str(),
            object,
            AssetMetadata::Audio { duration_ms },
        )
    }

    /// The task of captioning the narration of a scene, which is told from others by its
    /// checksum.
    pub fn generate_caption_asset(
        &self,
        workflow_id: Id,
        project: &Project,
        version: &ProjectVersion,
        scene: &SceneRecord,
        narration: &StoredObject,
    ) -> (r: TaskDescriptor)
        ensures
            is_task(
                r,
                workflow_id,
                *project,
                *version,
                Some(scene.id),
                "transcription"@,
                captions_material(*project, *version, *scene, narration.checksum@),
            ),
            r.provider@ == project.transcription_provider@,
            r.model@ == project.transcription_model@,
    {
        Self::describe(
            workflow_id,
            project,
            version,
            Some(scene.id),
            "transcription",
            captions_key(project, version, scene, narration.checksum.as_str()),
            project.transcription_provider.as_str(),
            project.transcription_model.as_str(),
        )
    }

    /// What the task `task_id` asks of the gateway for captions.
    pub fn alignment_call(&self, project: &Project, scene: &SceneRecord, task_id: Id) -> (r:
        AlignmentCall)
        ensures
            r.url@ == self.gateway.base_url@ + "/v1/audio/transcribe"@,
            r.provider@ == project.transcription_provider@,
            r.model@ == project.transcription_model@,
            r.canonical_text@ == scene.narration_text@,
            r.request_id == task_id,
            r.file_name@ == "speech.wav"@,
            r.content_type@ == "audio/wav"@,
    {
        self.gateway.align_speech(
            scene.narration_text.as_str(),
            project.transcription_provider.as_str(),
            project.transcription_model.as_str(),
            task_id,
        )
    }

    /// The file of captions.
    pub fn captions_file(&self, project: &Project, scene: &SceneRecord, bytes: &[u8]) -> (r:
        AppResult<AssetWrite>)
        ensures
            is_scene_file(r, self.storage, *project, *scene, "captions.json"@, bytes@),
    {
        let key = scene_file_key(project.id, scene.id, "captions.json");
        proof {
            law_generated_keys_are_safe(project.id, scene.id, bytes@);
        }
        self.storage.put(key.as_str(), bytes)
    }

    /// The record of captions of so many cues.
    pub fn captions_asset(
        &self,
        project: &Project,
        scene: &SceneRecord,
        object: &StoredObject,
        cue_count: usize,
    ) -> (r: NewAsset)
        ensures
            is_random_id(r.id),
            is_asset(
                r,
                r.id,
                project.id,
                scene.id,
                project.transcription_provider@,
                project.transcription_model@,
                *object,
                AssetMetadata::Captions { cue_count },
            ),
    {
        insert_asset(
            project.id,
            scene.id,
            project.transcription_provider.as_str(),
            project.transcription_model.as_str(),
            object,
            AssetMetadata::Captions { cue_count },
        )
    }

    /// The generation of the assets of a scene, at its first step.
    pub fn generate_scene_assets(&self) -> (r: SceneState)
        ensures
            r == SceneState::MarkGenerating,
    {
        SceneState::MarkGenerating
    }

    /// The generation of the assets of all scenes of a version, none of which was started.
    pub fn generate_all_scene_assets(&self, scenes: Vec<SceneRecord>) -> (r: SceneBatch)
        ensures
            r@ == BatchView::initial(scenes@),
    {
        SceneBatch::new(scenes)
    }

    /// The render specification of a version with the given scenes.
    pub fn build_render_spec(
        &self,
        project: &Project,
        version: &ProjectVersion,
        generated: Vec<GeneratedScene>,
    ) -> (r: RenderSpec)
        requires
            timeline_fits(generated@),
        ensures
            is_render_spec(r, *project, *version, generated@),
    {
        render_spec(project, version, generated)
    }

    /// The task of rendering the video of a version from a render specification, given as
    /// `spec` in serialized form.
    pub fn render_video(
        &self,
        workflow_id: Id,
        project: &Project,
        version: &ProjectVersion,
        spec: &[u8],
    ) -> (r: RenderTask)
        ensures
            r.hash@ == content_hash_of(spec@),
            is_task(
                r.descriptor,
                workflow_id,
                *project,
                *version,
                None,
                "render"@,
                render_material(*project, *version, content_hash_of(spec@)),
            ),
            r.descriptor.provider@ == "remotion"@,
            r.descriptor.model@ == "remotion"@,
    {
        let hash = content_hash(spec);
        let descriptor = Self::describe(
            workflow_id,
            project,
            version,
            None,
            "render",
            render_task_key(project, version, hash.as_str()),
            "remotion",
            "remotion",
        );
        RenderTask { descriptor, hash }
    }

    /// The record of a rendering. It has the identifier of its task, which stays the same
    /// where the task is started again.
    pub fn render_record(
        &self,
        task_id: Id,
        workflow_id: Id,
        project: &Project,
        version: &ProjectVersion,
        spec: &RenderSpec,
        hash: &str,
    ) -> (r: NewRender)
        ensures
            r.id == task_id,
            r.project_id == project.id,
            r.project_version_id == version.id,
            r.workflow_id == workflow_id,
            r.status@ == "rendering"@,
            r.render_spec_hash@ == hash@,
            r.width == spec.width,
            r.height == spec.height,
            r.fps == spec.fps,
    {
        NewRender {
            id: task_id,
            project_id: project.id,
            project_version_id: version.id,
            workflow_id,
            status: "rendering",
            render_spec_hash: hash.to_owned(),
            width: spec.width,
            height: spec.height,
            fps: spec.fps,
        }
    }

    /// What is asked of the render service.
    pub fn render_job(&self, render_id: Id, project: &Project, hash: &str, spec: RenderSpec) -> (r:
        RenderJobRequest)
        ensures
            r.render_id == render_id,
            r.output_key@ == render_key(project.id, hash@),
            r.spec == spec,
    {
        RenderJobRequest { render_id, output_key: render_output_key(project.id, hash), spec }
    }
}

/// Whether `write` stores `bytes` as the file `name` of a scene.
pub open spec fn is_scene_file(
    write: AppResult<AssetWrite>,
    store: LocalAssetStore,
    project: Project,
    scene: SceneRecord,
    name: Seq<char>,
    bytes: Seq<u8>,
) -> bool {
    let key = scene_directory(project.id, scene.id) + "/"@ + name;
    &&& write is Ok
    &&& write->Ok_0.path@ == path_below(store.root@, key)
    &&& is_stored(write->Ok_0.object, store, key, bytes)
}

/// The task of a script is of its version, under the key of its script, and goes to the provider
/// and the model that the project chose for text.
pub proof fn law_task_of_a_script(
    service: PipelineService,
    workflow_id: Id,
    project: Project,
    version: ProjectVersion,
    key: String,
    r: TaskDescriptor,
)
    requires
        call_ensures(PipelineService::generate_script, (&service, workflow_id, &project, &version), r),
        call_ensures(script_key, (&project, &version), key),
    ensures
        r.workflow_id == workflow_id,
        r.project_id == project.id,
        r.version_id == Some(version.id),
        r.scene_id == None::<Id>,
        r.stage@ == "script"@,
        r.key@ == key@,
        r.provider@ == project.text_provider@,
        r.model@ == project.text_model@,
{
}

/// The task of a storyboard is of its version, under the key of its storyboard, and goes to the
/// provider and the model that the project chose for text.
pub proof fn law_task_of_a_storyboard(
    service: PipelineService,
    workflow_id: Id,
    project: Project,
    version: ProjectVersion,
    input: &[u8],
    key: String,
    r: TaskDescriptor,
)
    requires
        call_ensures(PipelineService::generate_storyboard, (&service, workflow_id, &project, &version, input), r),
        call_ensures(storyboard_key, (&project, &version, input), key),
    ensures
        r.workflow_id == workflow_id,
        r.project_id == project.id,
        r.version_id == Some(version.id),
        r.scene_id == None::<Id>,
        r.stage@ == "storyboard"@,
        r.key@ == key@,
        r.provider@ == project.text_provider@,
        r.model@ == project.text_model@,
{
}

/// The task of an illustration is of its scene, under the key of the prompt of that scene in the
/// style of the video, and goes to the provider and the model that the project chose for images.
pub proof fn law_task_of_an_illustration(
    service: PipelineService,
    workflow_id: Id,
    project: Project,
    version: ProjectVersion,
    scene: SceneRecord,
    style: StyleBible,
    prompt: String,
    text: &str,
    key: String,
    r: TaskDescriptor,
)
    requires
        call_ensures(PipelineService::generate_image_asset, (&service, workflow_id, &project, &version, &scene, &style), r),
        call_ensures(image_prompt, (&scene, &style), prompt),
        text@ == prompt@,
        call_ensures(image_key, (&project, &version, &scene, text), key),
    ensures
        r.workflow_id == workflow_id,
        r.project_id == project.id,
        r.version_id == Some(version.id),
        r.scene_id == Some(scene.id),
        r.stage@ == "image"@,
        r.key@ == key@,
        r.provider@ == project.image_provider@,
        r.model@ == project.image_model@,
{
}

/// The task of a narration is of its scene, under the key of its narration, and goes to the provider
/// and the model that the project chose for speech.
pub proof fn law_task_of_a_narration(
    service: PipelineService,
    workflow_id: Id,
    project: Project,
    version: ProjectVersion,
    scene: SceneRecord,
    key: String,
    r: TaskDescriptor,
)
    requires
        call_ensures(PipelineService::generate_speech_asset, (&service, workflow_id, &project, &version, &scene), r),
        call_ensures(speech_key, (&project, &version, &scene), key),
    ensures
        r.workflow_id == workflow_id,
        r.project_id == project.id,
        r.version_id == Some(version.id),
        r.scene_id == Some(scene.id),
        r.stage@ == "speech"@,
        r.key@ == key@,
        r.provider@ == project.speech_provider@,
        r.model@ == project.speech_model@,
{
}

/// The task of captions is of its scene, under the key of the narration that they are for, and goes
/// to the provider and the model that the project chose for captions.
pub proof fn law_task_of_captions(
    service: PipelineService,
    workflow_id: Id,
    project: Project,
    version: ProjectVersion,
    scene: SceneRecord,
    narration: StoredObject,
    checksum: &str,
    key: String,
    r: TaskDescriptor,
)
    requires
        call_ensures(PipelineService::generate_caption_asset, (&service, workflow_id, &project, &version, &scene, &narration), r),
        checksum@ == narration.checksum@,
        call_ensures(captions_key, (&project, &version, &scene, checksum), key),
    ensures
        r.workflow_id == workflow_id,
        r.project_id == project.id,
        r.version_id == Some(version.id),
        r.scene_id == Some(scene.id),
        r.stage@ == "transcription"@,
        r.key@ == key@,
        r.provider@ == project.transcription_provider@,
        r.model@ == project.transcription_model@,
{
}

/// The task of a video is of its version, under the key of the hash of what is rendered, which is
/// the hash that the video is stored under.
pub proof fn law_task_of_a_video(
    service: PipelineService,
    workflow_id: Id,
    project: Project,
    version: ProjectVersion,
    spec: &[u8],
    hash: String,
    text: &str,
    key: String,
    r: RenderTask,
)
    requires
        call_ensures(
            PipelineService::render_video,
            (&service, workflow_id, &project, &version, spec),
            r,
        ),
        call_ensures(content_hash, (spec,), hash),
        text@ == hash@,
        call_ensures(render_task_key, (&project, &version, text), key),
    ensures
        r.hash@ == hash@,
        r.descriptor.workflow_id == workflow_id,
        r.descriptor.project_id == project.id,
        r.descriptor.version_id == Some(version.id),
        r.descriptor.scene_id is None,
        r.descriptor.stage@ == "render"@,
        r.descriptor.key@ == key@,
        r.descriptor.provider@ == "remotion"@ && r.descriptor.model@ == "remotion"@,
{
}

/// What a task asks of the gateway for text is the request for its script or its storyboard, of the
/// provider and the model that the project chose for text, under the identifier of the task.
pub proof fn law_text_is_asked_of_the_chosen_model(
    service: PipelineService,
    project: Project,
    script: ScriptSpec,
    task_id: Id,
    provider: &str,
    model: &str,
    asked_script: TextCall,
    asked_storyboard: TextCall,
    script_request: TextCall,
    storyboard_request: TextCall,
)
    requires
        provider@ == project.text_provider@,
        model@ == project.text_model@,
        call_ensures(PipelineService::script_call, (&service, &project, task_id), asked_script),
        call_ensures(
            PipelineService::storyboard_call,
            (&service, &project, &script, task_id),
            asked_storyboard,
        ),
        call_ensures(
            ModelGatewayClient::generate_script,
            (&service.gateway, &project, provider, model, task_id),
            script_request,
        ),
        call_ensures(
            ModelGatewayClient::generate_storyboard,
            (&service.gateway, &project, &script, provider, model, task_id),
            storyboard_request,
        ),
    ensures
        asked_script.provider@ == project.text_provider@,
        asked_script.model@ == project.text_model@,
        asked_script.request_id == task_id,
        asked_script.url@ == script_request.url@,
        asked_script.system@ == script_request.system@,
        asked_script.prompt@ == script_request.prompt@,
        asked_script.schema_name@ == script_request.schema_name@,
        asked_storyboard.provider@ == project.text_provider@,
        asked_storyboard.model@ == project.text_model@,
        asked_storyboard.request_id == task_id,
        asked_storyboard.url@ == storyboard_request.url@,
        asked_storyboard.system@ == storyboard_request.system@,
        asked_storyboard.prompt@ == storyboard_request.prompt@,
        asked_storyboard.schema_name@ == storyboard_request.schema_name@,
{
}

/// What a task asks of the gateway for an illustration is the prompt of the scene in the style of
/// the video, in high quality and in the size of its frames, of the provider and the model that
/// the project chose for images.
pub proof fn law_illustration_is_asked_for_as_the_frames_are(
    service: PipelineService,
    project: Project,
    scene: SceneRecord,
    style: StyleBible,
    task_id: Id,
    prompt: String,
    ratio: &str,
    size: (i32, i32),
    r: ImageCall,
)
    requires
        call_ensures(
            PipelineService::image_call,
            (&service, &project, &scene, &style, task_id),
            r,
        ),
        call_ensures(image_prompt, (&scene, &style), prompt),
        ratio@ == project.aspect_ratio@,
        call_ensures(render_dimensions, (ratio,), size),
    ensures
        r.url@ == service.gateway.base_url@ + "/v1/images/generate"@,
        r.provider@ == project.image_provider@,
        r.model@ == project.image_model@,
        r.prompt@ == prompt@,
        r.width == size.0 && r.height == size.1,
        r.quality@ == "high"@,
        r.request_id == task_id,
{
}

/// What a task asks of the gateway for a narration is the narration of the scene, in the voice and
/// of the provider and model that the project chose for speech; its captions are asked for of the
/// provider and model that the project chose for captions, with the same text.
pub proof fn law_narration_is_asked_for_in_the_chosen_voice(
    service: PipelineService,
    project: Project,
    scene: SceneRecord,
    task_id: Id,
    speech: SpeechCall,
    alignment: AlignmentCall,
)
    requires
        call_ensures(PipelineService::speech_call, (&service, &project, &scene, task_id), speech),
        call_ensures(
            PipelineService::alignment_call,
            (&service, &project, &scene, task_id),
            alignment,
        ),
    ensures
        speech.url@ == service.gateway.base_url@ + "/v1/audio/speech"@,
        speech.text@ == scene.narration_text@,
        speech.voice@ == project.voice@,
        speech.provider@ == project.speech_provider@,
        speech.model@ == project.speech_model@,
        speech.request_id == task_id,
        speech.output_format@ == "wav"@,
        speech.instructions@ == SPEECH_INSTRUCTIONS@,
        scene.narration_text@.len() <= i64::MAX ==> speech.input_units
            == scene.narration_text@.len(),
        alignment.url@ == service.gateway.base_url@ + "/v1/audio/transcribe"@,
        alignment.canonical_text@ == scene.narration_text@,
        alignment.provider@ == project.transcription_provider@,
        alignment.model@ == project.transcription_model@,
        alignment.request_id == task_id,
        alignment.file_name@ == "speech.wav"@ && alignment.content_type@ == "audio/wav"@,
{
}

/// The files of a scene are stored under three different keys of that scene, each with the length
/// and the hash of what is written, and where the store makes it public.
pub proof fn law_files_of_a_scene(
    service: PipelineService,
    project: Project,
    scene: SceneRecord,
    bytes: &[u8],
    hash: String,
    image: AppResult<AssetWrite>,
    speech: AppResult<AssetWrite>,
    captions: AppResult<AssetWrite>,
)
    requires
        call_ensures(PipelineService::image_file, (&service, &project, &scene, bytes), image),
        call_ensures(PipelineService::speech_file, (&service, &project, &scene, bytes), speech),
        call_ensures(PipelineService::captions_file, (&service, &project, &scene, bytes), captions),
        call_ensures(content_hash, (bytes,), hash),
    ensures
        image is Ok && speech is Ok && captions is Ok,
        ({
            let place = "projects/"@ + hyphenated(project.id.value) + "/scenes/"@ + hyphenated(
                scene.id.value,
            ) + "/"@;
            &&& image->Ok_0.object.key@ == place + "illustration.png"@
            &&& speech->Ok_0.object.key@ == place + "narration.wav"@
            &&& captions->Ok_0.object.key@ == place + "captions.json"@
        }),
        forall|write: AssetWrite|
            #![trigger write.object.checksum]
            write == image->Ok_0 || write == speech->Ok_0 || write == captions->Ok_0 ==> {
                &&& write.object.checksum@ == hash@
                &&& bytes@.len() <= i64::MAX ==> write.object.byte_size == bytes@.len()
                &&& write.object.public_url@ == service.storage.public_base_url@ + "/"@
                    + write.object.key@
                &&& write.path@ == path_below(service.storage.root@, write.object.key@)
            },
{
}

/// The record of a file of a scene points to that file, and names the provider and the model that
/// the project chose for what is in it; each under a fresh identifier.
pub proof fn law_records_of_the_files_of_a_scene(
    service: PipelineService,
    project: Project,
    scene: SceneRecord,
    object: StoredObject,
    duration_ms: i64,
    cue_count: usize,
    ratio: &str,
    size: (i32, i32),
    image: NewAsset,
    speech: NewAsset,
    captions: NewAsset,
)
    requires
        call_ensures(PipelineService::image_asset, (&service, &project, &scene, &object), image),
        call_ensures(
            PipelineService::speech_asset,
            (&service, &project, &scene, &object, duration_ms),
            speech,
        ),
        call_ensures(
            PipelineService::captions_asset,
            (&service, &project, &scene, &object, cue_count),
            captions,
        ),
        ratio@ == project.aspect_ratio@,
        call_ensures(render_dimensions, (ratio,), size),
    ensures
        image.kind@ == "image"@ && image.content_type@ == "image/png"@,
        image.provider@ == project.image_provider@ && image.model@ == project.image_model@,
        image.metadata == (AssetMetadata::Image { width: size.0, height: size.1 }),
        speech.kind@ == "audio"@ && speech.content_type@ == "audio/wav"@,
        speech.provider@ == project.speech_provider@ && speech.model@ == project.speech_model@,
        speech.metadata == (AssetMetadata::Audio { duration_ms }),
        captions.kind@ == "captions"@ && captions.content_type@ == "application/json"@,
        captions.provider@ == project.transcription_provider@ && captions.model@
            == project.transcription_model@,
        captions.metadata == (AssetMetadata::Captions { cue_count }),
        forall|asset: NewAsset|
            #![trigger asset.storage_key]
            asset == image || asset == speech || asset == captions ==> {
                &&& is_random_id(asset.id)
                &&& asset.project_id == project.id
                &&& asset.scene_id == Some(scene.id)
                &&& asset.storage_key == object.key
                &&& asset.public_url == object.public_url
                &&& asset.byte_size == object.byte_size
                &&& asset.checksum == object.checksum
            },
{
}

/// The record of a file has the identifier, the places and the file that it was given, and the kind
/// and the media type of what the file is.
pub proof fn law_record_of_a_file(
    id: Id,
    project_id: Id,
    scene_id: Id,
    provider: &str,
    model: &str,
    object: StoredObject,
    metadata: AssetMetadata,
    kind: &'static str,
    media_type: &'static str,
    r: NewAsset,
)
    requires
        call_ensures(
            new_asset,
            (id, project_id, scene_id, provider, model, &object, metadata),
            r,
        ),
        call_ensures(AssetMetadata::kind, (&metadata,), kind),
        call_ensures(AssetMetadata::content_type, (&metadata,), media_type),
    ensures
        r.id == id && r.project_id == project_id && r.scene_id == Some(scene_id),
        r.provider@ == provider@ && r.model@ == model@,
        r.kind@ == kind@ && r.content_type@ == media_type@ && r.metadata == metadata,
        r.storage_key == object.key && r.public_url == object.public_url,
        r.byte_size == object.byte_size && r.checksum == object.checksum,
{
}

/// The render specification of a version shows the scenes that were generated, each with its own
/// content and in the order in which they were given.
pub proof fn law_built_spec_keeps_the_scenes(
    service: PipelineService,
    project: Project,
    version: ProjectVersion,
    generated: Vec<GeneratedScene>,
    same: RenderSpec,
    spec: RenderSpec,
)
    requires
        timeline_fits(generated@),
        call_ensures(
            PipelineService::build_render_spec,
            (&service, &project, &version, generated),
            spec,
        ),
        call_ensures(render_spec, (&project, &version, generated), same),
    ensures
        spec.project_id == project.id,
        spec.version == version.version,
        spec.width == same.width && spec.height == same.height && spec.fps == same.fps,
        spec.background_color@ == same.background_color@,
        spec.scenes@.len() == generated@.len(),
        forall|i: int|
            #![trigger spec.scenes@[i]]
            #![trigger generated@[i]]
            0 <= i < generated@.len() ==> {
                &&& spec.scenes@[i].id == generated@[i].scene_id
                &&& spec.scenes@[i].sequence == generated@[i].sequence
                &&& spec.scenes@[i].image_url == generated@[i].image_url
                &&& spec.scenes@[i].audio_url == generated@[i].audio_url
                &&& spec.scenes@[i].on_screen_text == generated@[i].on_screen_text
                &&& spec.scenes@[i].transition == generated@[i].transition
                &&& spec.scenes@[i].captions == generated@[i].captions
                &&& spec.scenes@[i].start_frame == same.scenes@[i].start_frame
                &&& spec.scenes@[i].duration_in_frames == same.scenes@[i].duration_in_frames
            },
{
    assert forall|i: int|
        #![trigger spec.scenes@[i]]
        0 <= i < generated@.len() implies spec.scenes@[i] == same.scenes@[i] by {}
}

/// The record of a rendering has the identifier of its task and what it renders; the render service
/// is asked for that record, to store the video under the hash of the specification, and with the
/// specification as it is.
pub proof fn law_rendering_is_of_its_spec(
    service: PipelineService,
    task_id: Id,
    workflow_id: Id,
    project: Project,
    version: ProjectVersion,
    spec: RenderSpec,
    hash: &str,
    key: String,
    record: NewRender,
    job: RenderJobRequest,
)
    requires
        call_ensures(
            PipelineService::render_record,
            (&service, task_id, workflow_id, &project, &version, &spec, hash),
            record,
        ),
        call_ensures(PipelineService::render_job, (&service, task_id, &project, hash, spec), job),
        call_ensures(render_output_key, (project.id, hash), key),
    ensures
        record.id == task_id && record.workflow_id == workflow_id,
        record.project_id == project.id && record.project_version_id == version.id,
        record.status@ == "rendering"@ && record.render_spec_hash@ == hash@,
        record.width == spec.width && record.height == spec.height && record.fps == spec.fps,
        job.render_id == task_id && job.output_key@ == key@ && job.spec == spec,
{
}

/// The generation of the assets of a version starts with all of its scenes waiting, in their order,
/// and none of them running, generated or failed; that of a scene starts by marking it.
pub proof fn law_generation_starts_with_every_scene(
    service: PipelineService,
    scenes: Vec<SceneRecord>,
    batch: SceneBatch,
    state: SceneState,
)
    requires
        call_ensures(PipelineService::generate_all_scene_assets, (&service, scenes), batch),
        call_ensures(PipelineService::generate_scene_assets, (&service,), state),
    ensures
        batch@.pending == scenes@,
        batch@.running == 0,
        batch@.generated.len() == 0,
        batch@.first_error is None,
        state == SceneState::MarkGenerating,
{
}

/// A pipeline keeps the services that it was made with.
pub proof fn law_services_of_a_pipeline(
    gateway: ModelGatewayClient,
    storage: LocalAssetStore,
    renderer: RenderClient,
    asset_root: String,
    r: PipelineService,
)
    requires
        call_ensures(PipelineService::new, (gateway, storage, renderer, asset_root), r),
    ensures
        r.gateway == gateway,
        r.storage == storage,
        r.renderer == renderer,
        r.asset_root == asset_root,
{
}

} // verus!
