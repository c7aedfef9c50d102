//! Stored records, and the conditional writes that keep them consistent.
//!
//! A write is a value: it says which row it is for, on what condition, and what it sets.
//! Whoever talks to the database carries it out as one statement and reports how many rows
//! it changed; what follows from that number is decided here.
pub mod store;

use crate::db::store::replaces_by;
use crate::domain::{
    request_problem, AspectRatio, CreateProjectRequest, GenerationJob, NewProject, Project,
    ProjectVersion, SceneDraft, TransitionKind,
};
use crate::error::{AppError, AppResult, ErrorView};
use crate::ids::{hyphenated, is_random_id, Id};
use crate::text::{
    decimal, decimal_i64, decimal_u64, lemma_says, says, str_eq, trim, trimmed,
};
use vstd::prelude::*;
use vstd::string::*;

verus! {

/// A stored scene. Instants are microseconds since the Unix epoch.
#[derive(Clone, Debug)]
pub struct SceneRecord {
    pub id: Id,
    pub project_id: Id,
    pub project_version_id: Id,
    pub sequence: i32,
    pub narration_text: String,
    pub visual_prompt: String,
    pub on_screen_text: Option<String>,
    pub transition: String,
    pub status: String,
    pub duration_ms: Option<i64>,
    pub image_asset_id: Option<Id>,
    pub audio_asset_id: Option<Id>,
    pub caption_asset_id: Option<Id>,
    pub created_at: i64,
    pub updated_at: i64,
}

/// A scene about to be stored.
#[derive(Clone, Debug)]
pub struct NewScene {
    pub id: Id,
    pub project_id: Id,
    pub project_version_id: Id,
    pub sequence: i32,
    pub narration_text: String,
    pub visual_prompt: String,
    pub on_screen_text: Option<String>,
    pub transition: &'static str,
}

/// A generation task about to be stored.
#[derive(Clone, Debug)]
pub struct NewGenerationTask {
    pub id: Id,
    pub workflow_id: Id,
    pub project_id: Id,
    pub project_version_id: Option<Id>,
    pub scene_id: Option<Id>,
    pub stage: &'static str,
    pub status: &'static str,
    pub attempt: i32,
    pub idempotency_key: String,
    pub provider: Option<String>,
    pub model: Option<String>,
}

/// A stored generation task. What it produced and used are JSON texts; instants are
/// microseconds since the Unix epoch.
#[derive(Clone, Debug)]
pub struct GenerationTask {
    pub id: Id,
    pub idempotency_key: String,
    pub status: String,
    pub attempt: i32,
    pub output: Option<String>,
    pub usage: Option<String>,
    pub error_message: Option<String>,
    pub started_at: Option<i64>,
    pub completed_at: Option<i64>,
}

/// What is known of the file of an asset besides where it is.
#[derive(Clone, Copy, Debug, PartialEq, Eq, Structural)]
pub enum AssetMetadata {
    Image { width: i32, height: i32 },
    Audio { duration_ms: i64 },
    Captions { cue_count: usize },
}

impl AssetMetadata {
    /// The kind under which the asset is stored.
    pub open spec fn kind_name(self) -> Seq<char> {
        match self {
            AssetMetadata::Image { .. } => "image"@,
            AssetMetadata::Audio { .. } => "audio"@,
            AssetMetadata::Captions { .. } => "captions"@,
        }
    }

    /// The media type of the file.
    pub open spec fn media_type(self) -> Seq<char> {
        match self {
            AssetMetadata::Image { .. } => "image/png"@,
            AssetMetadata::Audio { .. } => "audio/wav"@,
            AssetMetadata::Captions { .. } => "application/json"@,
        }
    }

    /// The metadata as a JSON text, with the keys in their order.
    pub open spec fn json_text(self) -> Seq<char> {
        match self {
            AssetMetadata::Image { width, height } => "{\"height\":"@ + decimal(
                height as int,
            ) + ",\"quality\":\"high\",\"width\":"@ + decimal(width as int) + "}"@,
            AssetMetadata::Audio { duration_ms } => "{\"duration_ms\":"@ + decimal(
                duration_ms as int,
            ) + "}"@,
            AssetMetadata::Captions { cue_count } => "{\"cue_count\":"@ + decimal(cue_count as int)
                + "}"@,
        }
    }

    pub fn kind(&self) -> (r: &'static str)
        ensures
            r@ == self.kind_name(),
    {
        match self {
            AssetMetadata::Image { .. } => "image",
            AssetMetadata::Audio { .. } => "audio",
            AssetMetadata::Captions { .. } => "captions",
        }
    }

    pub fn content_type(&self) -> (r: &'static str)
        ensures
            r@ == self.media_type(),
    {
        match self {
            AssetMetadata::Image { .. } => "image/png",
            AssetMetadata::Audio { .. } => "audio/wav",
            AssetMetadata::Captions { .. } => "application/json",
        }
    }

    pub fn json(&self) -> (r: String)
        ensures
            r@ == self.json_text(),
    {
        match self {
            AssetMetadata::Image { width, height } => {
                let w = decimal_i64(*width as i64);
                let h = decimal_i64(*height as i64);
                let mut out = "{\"height\":".to_owned();
                out.append(h.as_str());
                out.append(",\"quality\":\"high\",\"width\":");
                out.append(w.as_str());
                out.append("}");
                out
            },
            AssetMetadata::Audio { duration_ms } => {
                let duration = decimal_i64(*duration_ms);
                let mut out = "{\"duration_ms\":".to_owned();
                out.append(duration.as_str());
                out.append("}");
                out
            },
            AssetMetadata::Captions { cue_count } => {
                let count = decimal_u64(*cue_count as u64);
                let mut out = "{\"cue_count\":".to_owned();
                out.append(count.as_str());
                out.append("}");
                out
            },
        }
    }
}

/// An asset about to be stored.
#[derive(Clone, Debug)]
pub struct NewAsset {
    pub id: Id,
    pub project_id: Id,
    pub scene_id: Option<Id>,
    pub kind: &'static str,
    pub provider: String,
    pub model: String,
    pub storage_key: String,
    pub public_url: String,
    pub content_type: &'static str,
    pub byte_size: i64,
    pub checksum: String,
    pub metadata: AssetMetadata,
}

/// A stored asset. Its metadata is a JSON text.
#[derive(Clone, Debug)]
pub struct AssetRecord {
    pub id: Id,
    pub project_id: Id,
    pub scene_id: Option<Id>,
    pub kind: String,
    pub provider: String,
    pub model: String,
    pub storage_key: String,
    pub public_url: String,
    pub content_type: String,
    pub byte_size: i64,
    pub checksum: String,
    pub metadata: String,
    pub created_at: i64,
}

/// A rendering about to be stored.
#[derive(Clone, Debug)]
pub struct NewRender {
    pub id: Id,
    pub project_id: Id,
    pub project_version_id: Id,
    pub workflow_id: Id,
    pub status: &'static str,
    pub render_spec_hash: String,
    pub width: i32,
    pub height: i32,
    pub fps: i32,
}

/// A stored rendering.
#[derive(Clone, Debug)]
pub struct RenderRecord {
    pub id: Id,
    pub project_id: Id,
    pub project_version_id: Id,
    pub workflow_id: Id,
    pub status: String,
    pub render_spec_hash: String,
    pub storage_key: Option<String>,
    pub public_url: Option<String>,
    pub duration_ms: Option<i64>,
    pub width: i32,
    pub height: i32,
    pub fps: i32,
    pub error_message: Option<String>,
    pub created_at: i64,
    pub updated_at: i64,
}

/// On what condition the row of a project is written.
#[derive(Clone, Copy, Debug, PartialEq, Eq, Structural)]
pub enum ProjectGuard {
    /// The workflow is the active one of the project.
    ActiveWorkflow(Id),
    /// The project has come to rest: it is a draft, has failed or is completed.
    AtRest,
}

/// What a write makes of the active workflow of a project.
#[derive(Clone, Copy, Debug, PartialEq, Eq, Structural)]
pub enum WorkflowChange {
    Keep,
    Activate(Id),
    Clear,
}

/// A conditional write of the row of a project.
#[derive(Clone, Debug)]
pub struct ProjectUpdate {
    pub project_id: Id,
    pub guard: ProjectGuard,
    pub status: String,
    pub error_message: Option<String>,
    pub workflow: WorkflowChange,
}

/// A status in which a project is at rest, and from which a new version can be started.
pub open spec fn at_rest(status: Seq<char>) -> bool {
    status == "draft"@ || status == "failed"@ || status == "completed"@
}

/// The statuses in which a project is at rest.
pub fn resting_statuses() -> (r: Vec<&'static str>)
    ensures
        forall|status: Seq<char>|
            #[trigger] at_rest(status) <==> exists|i: int|
                0 <= i < r@.len() && #[trigger] r@[i]@ == status,
{
    let statuses = vec!["draft", "failed", "completed"];
    assert forall|status: Seq<char>| at_rest(status) implies exists|i: int|
        0 <= i < statuses@.len() && #[trigger] statuses@[i]@ == status by {
        if status == "draft"@ {
            assert(statuses@[0]@ == status);
        } else if status == "failed"@ {
            assert(statuses@[1]@ == status);
        } else {
            assert(statuses@[2]@ == status);
        }
    }
    statuses
}

impl ProjectUpdate {
    /// Whether the write changes `row`.
    pub open spec fn applies_to(self, row: Project) -> bool {
        row.id == self.project_id && match self.guard {
            ProjectGuard::ActiveWorkflow(id) => row.active_workflow_id == Some(id),
            ProjectGuard::AtRest => at_rest(row.status@),
        }
    }

    /// What the write, made at the instant `now`, leaves of `row`.
    pub open spec fn effect(self, row: Project, now: i64) -> Project {
        if self.applies_to(row) {
            Project {
                status: self.status,
                error_message: self.error_message,
                active_workflow_id: match self.workflow {
                    WorkflowChange::Keep => row.active_workflow_id,
                    WorkflowChange::Activate(id) => Some(id),
                    WorkflowChange::Clear => None,
                },
                updated_at: now,
                ..row
            }
        } else {
            row
        }
    }
}

/// A write that creates a version of a project, unless the project has it, and makes it the
/// current one, as one transaction.
#[derive(Clone, Copy, Debug)]
pub struct VersionCreation {
    pub id: Id,
    pub project_id: Id,
    pub version: i32,
}

/// A write that starts a generation task: it stores the row, or starts again the task that
/// exists under its idempotency key.
#[derive(Clone, Debug)]
pub struct TaskStart {
    pub row: NewGenerationTask,
    /// The status of a task that is started again.
    pub restarted_status: &'static str,
}

/// A write that puts the scenes of a storyboard in the place of those of a version, as one
/// transaction.
#[derive(Clone, Debug)]
pub struct SceneReplacement {
    pub version_id: Id,
    pub rows: Vec<NewScene>,
}

/// A write that starts a rendering: it stores the row, or starts again the rendering that
/// exists for its version and the digest of its specification.
#[derive(Clone, Debug)]
pub struct RenderStart {
    pub row: NewRender,
    /// The status of a rendering that is started again.
    pub restarted_status: &'static str,
}

/// A generation job about to be stored.
#[derive(Clone, Copy, Debug)]
pub struct NewJob {
    pub id: Id,
    pub project_id: Id,
    pub workflow_id: Id,
    pub status: &'static str,
    pub stage: &'static str,
    /// Whether the job can be continued.
    pub resumable: bool,
}

/// A write of the progress of a generation job.
#[derive(Clone, Debug)]
pub struct JobUpdate {
    pub job_id: Id,
    pub status: &'static str,
    pub stage: &'static str,
    pub error_code: Option<String>,
    pub error_message: Option<String>,
    /// Whether the job can be continued.
    pub resumable: bool,
}

/// A write that binds the job of a workflow to a version.
#[derive(Clone, Copy, Debug, PartialEq, Eq, Structural)]
pub struct JobVersion {
    pub job_id: Id,
    pub workflow_id: Id,
    pub version_id: Id,
}

/// A write of how the script of a version was reviewed.
#[derive(Clone, Debug)]
pub struct ReviewUpdate {
    pub version_id: Id,
    pub status: &'static str,
    pub feedback: Option<String>,
}

/// A write of the row of a generation task that has come to its end.
#[derive(Clone, Debug)]
pub struct TaskUpdate {
    pub task_id: Id,
    pub status: &'static str,
    /// What the task produced, and what it used; left as they are where the task failed.
    pub result: Option<TaskResult>,
    /// Why the task failed; left as it is where it did not.
    pub error_message: Option<String>,
}

/// What a task produced and what it used, as JSON texts.
#[derive(Clone, Debug)]
pub struct TaskResult {
    pub output: String,
    pub usage: Option<String>,
}

/// A write of the row of a scene.
#[derive(Clone, Copy, Debug)]
pub struct SceneUpdate {
    pub scene_id: Id,
    pub status: &'static str,
    /// What the scene consists of, once it is ready.
    pub ready: Option<SceneAssets>,
}

/// The length of a scene and the assets that it consists of.
#[derive(Clone, Copy, Debug, PartialEq, Eq, Structural)]
pub struct SceneAssets {
    pub duration_ms: i64,
    pub image_id: Id,
    pub audio_id: Id,
    pub caption_id: Id,
}

/// A write of the row of a rendering that has come to its end.
#[derive(Clone, Debug)]
pub struct RenderUpdate {
    pub render_id: Id,
    pub status: &'static str,
    /// Where the video is and how long; left as they are where the rendering failed.
    pub video: Option<RenderedVideo>,
    /// Why the rendering failed; left as it is where it did not.
    pub error_message: Option<String>,
}

#[derive(Clone, Debug)]
pub struct RenderedVideo {
    pub storage_key: String,
    pub public_url: String,
    pub duration_ms: i64,
}

/// A column of a version that holds a checkpoint.
#[derive(Clone, Copy, Debug, PartialEq, Eq, Structural)]
pub enum VersionColumn {
    Script,
    Storyboard,
    Render,
}

/// A write of a checkpoint of a version, as a JSON text.
#[derive(Clone, Debug)]
pub struct VersionUpdate {
    pub version_id: Id,
    pub column: VersionColumn,
    pub value: String,
}

impl VersionUpdate {
    /// What the write, made at the instant `now`, leaves of `row`.
    pub open spec fn effect(self, row: ProjectVersion, now: i64) -> ProjectVersion {
        if row.id != self.version_id {
            row
        } else {
            match self.column {
                VersionColumn::Script => ProjectVersion {
                    script_spec: Some(self.value),
                    updated_at: now,
                    ..row
                },
                VersionColumn::Storyboard => ProjectVersion {
                    storyboard_spec: Some(self.value),
                    updated_at: now,
                    ..row
                },
                VersionColumn::Render => ProjectVersion {
                    render_spec: Some(self.value),
                    updated_at: now,
                    ..row
                },
            }
        }
    }
}

/// The error for a row that is not there.
pub open spec fn missing(what: Seq<char>, id: Id) -> ErrorView {
    ErrorView::NotFound(what + hyphenated(id.value))
}

/// The error for a write by a workflow that is not the active one of the project.
pub open spec fn superseded(project_id: Id, workflow_id: Id) -> ErrorView {
    ErrorView::Conflict(
        "工作流 "@ + hyphenated(workflow_id.value) + " 已不是项目 "@ + hyphenated(project_id.value)
            + " 的活动工作流"@,
    )
}

fn not_found(what: &str, id: Id) -> (r: AppError)
    ensures
        r@ == missing(what@, id),
{
    let text = id.text();
    let mut message = what.to_owned();
    message.append(text.as_str());
    AppError::NotFound(message)
}

/// What a write that has to change a row comes to.
fn changed_some(what: &str, id: Id, affected: usize) -> (r: AppResult<()>)
    ensures
        affected > 0 ==> r is Ok,
        affected == 0 ==> r is Err && r->Err_0@ == missing(what@, id),
{
    if affected == 0 {
        Err(not_found(what, id))
    } else {
        Ok(())
    }
}

/// Whether `project` is what a request with the given identifier is stored as.
pub open spec fn stored_as(project: NewProject, id: Id, request: CreateProjectRequest) -> bool {
    &&& project.id == id
    &&& project.title@ == trimmed(request.title@)
    &&& project.source_text@ == trimmed(request.source_text@)
    &&& project.language == request.language
    &&& project.aspect_ratio@ == request.aspect_ratio.stored()
    &&& project.target_duration_seconds == request.target_duration_seconds
    &&& project.text_provider == request.text_provider
    &&& project.text_model == request.text_model
    &&& project.image_provider == request.image_provider
    &&& project.image_model == request.image_model
    &&& project.voice == request.voice
    &&& project.speech_provider == request.speech_provider
    &&& project.speech_model == request.speech_model
    &&& project.transcription_provider == request.transcription_provider
    &&& project.transcription_model == request.transcription_model
    &&& project.require_script_review == request.require_script_review
}

/// Whether `scene` is what a draft with the given identifier is stored as.
pub open spec fn scene_stored_as(
    scene: NewScene,
    id: Id,
    project_id: Id,
    version_id: Id,
    draft: SceneDraft,
) -> bool {
    &&& scene.id == id
    &&& scene.project_id == project_id
    &&& scene.project_version_id == version_id
    &&& scene.sequence == draft.sequence
    &&& scene.narration_text == draft.narration
    &&& scene.visual_prompt == draft.visual_prompt
    &&& scene.on_screen_text == draft.on_screen_text
    &&& scene.transition@ == draft.transition.stored()
}

fn clone_text(text: &Option<String>) -> (r: Option<String>)
    ensures
        r == *text,
{
    match text {
        Some(t) => Some(t.clone()),
        None => None,
    }
}

/// The row for a valid request, with the given identifier.
pub fn new_project(id: Id, request: &CreateProjectRequest) -> (r: NewProject)
    ensures
        stored_as(r, id, *request),
{
    NewProject {
        id,
        title: trim(request.title.as_str()),
        source_text: trim(request.source_text.as_str()),
        language: request.language.clone(),
        aspect_ratio: request.aspect_ratio.database_value(),
        target_duration_seconds: request.target_duration_seconds,
        text_provider: request.text_provider.clone(),
        text_model: request.text_model.clone(),
        image_provider: request.image_provider.clone(),
        image_model: request.image_model.clone(),
        voice: request.voice.clone(),
        speech_provider: request.speech_provider.clone(),
        speech_model: request.speech_model.clone(),
        transcription_provider: request.transcription_provider.clone(),
        transcription_model: request.transcription_model.clone(),
        require_script_review: request.require_script_review,
    }
}

/// The row for a draft, with the given identifier.
pub fn new_scene(id: Id, project_id: Id, version_id: Id, draft: &SceneDraft) -> (r: NewScene)
    ensures
        scene_stored_as(r, id, project_id, version_id, *draft),
{
    NewScene {
        id,
        project_id,
        project_version_id: version_id,
        sequence: draft.sequence,
        narration_text: draft.narration.clone(),
        visual_prompt: draft.visual_prompt.clone(),
        on_screen_text: clone_text(&draft.on_screen_text),
        transition: draft.transition.database_value(),
    }
}

/// The statements on stored records, and what their results come to.
pub struct Repository {}

impl Repository {
    /// The row for a request, with a fresh identifier, where the request is valid.
    pub fn create_project(request: &CreateProjectRequest) -> (r: AppResult<NewProject>)
        ensures
            r is Ok <==> request_problem(*request) is None,
            r is Ok ==> is_random_id(r->Ok_0.id) && stored_as(r->Ok_0, r->Ok_0.id, *request),
            r is Err ==> r->Err_0@ == request_problem(*request)->0,
    {
        match request.validate() {
            Ok(()) => {},
            Err(error) => return Err(error),
        }
        Ok(new_project(Id::random(), request))
    }

    /// The project that was looked up.
    pub fn get_project(project_id: Id, row: Option<Project>) -> (r: AppResult<Project>)
        ensures
            row is Some ==> r is Ok && r->Ok_0 == row->0,
            row is None ==> r is Err && r->Err_0@ == missing("项目 "@, project_id),
    {
        match row {
            Some(project) => Ok(project),
            None => Err(not_found("项目 ", project_id)),
        }
    }

    /// The job that was looked up.
    pub fn get_generation_job(job_id: Id, row: Option<GenerationJob>) -> (r: AppResult<
        GenerationJob,
    >)
        ensures
            row is Some ==> r is Ok && r->Ok_0 == row->0,
            row is None ==> r is Err && r->Err_0@ == missing("生成作业 "@, job_id),
    {
        match row {
            Some(job) => Ok(job),
            None => Err(not_found("生成作业 ", job_id)),
        }
    }

    /// The version that was looked up.
    pub fn get_project_version(version_id: Id, row: Option<ProjectVersion>) -> (r: AppResult<
        ProjectVersion,
    >)
        ensures
            row is Some ==> r is Ok && r->Ok_0 == row->0,
            row is None ==> r is Err && r->Err_0@ == missing("项目版本 "@, version_id),
    {
        match row {
            Some(version) => Ok(version),
            None => Err(not_found("项目版本 ", version_id)),
        }
    }

    /// The row of the job of a workflow that was made the active one of a project.
    pub fn queued_job(project_id: Id, workflow_id: Id, job_id: Id) -> (r: NewJob)
        ensures
            r.id == job_id,
            r.project_id == project_id,
            r.workflow_id == workflow_id,
            r.status@ == "queued"@,
            r.stage@ == "queued"@,
            !r.resumable,
    {
        NewJob {
            id: job_id,
            project_id,
            workflow_id,
            status: "queued",
            stage: "queued",
            resumable: false,
        }
    }

    /// What binding a job to a version comes to.
    pub fn job_version_written(job_id: Id, affected: usize) -> (r: AppResult<()>)
        ensures
            affected > 0 ==> r is Ok,
            affected == 0 ==> r is Err && r->Err_0@ == missing("生成作业 "@, job_id),
    {
        changed_some("生成作业 ", job_id, affected)
    }

    /// The write of a status by a workflow.
    pub fn update_project_status(
        project_id: Id,
        workflow_id: Id,
        status: &str,
        error_message: Option<String>,
    ) -> (r: ProjectUpdate)
        ensures
            r.project_id == project_id,
            r.guard == ProjectGuard::ActiveWorkflow(workflow_id),
            r.status@ == status@,
            r.error_message == error_message,
            r.workflow == WorkflowChange::Keep,
    {
        ProjectUpdate {
            project_id,
            guard: ProjectGuard::ActiveWorkflow(workflow_id),
            status: status.to_owned(),
            error_message,
            workflow: WorkflowChange::Keep,
        }
    }

    /// What a write by a workflow comes to.
    pub fn status_written(project_id: Id, workflow_id: Id, affected: usize) -> (r: AppResult<()>)
        ensures
            affected > 0 ==> r is Ok,
            affected == 0 ==> r is Err && r->Err_0@ == superseded(project_id, workflow_id),
    {
        if affected > 0 {
            return Ok(());
        }
        let workflow = workflow_id.text();
        let project = project_id.text();
        let mut message = "工作流 ".to_owned();
        message.append(workflow.as_str());
        message.append(" 已不是项目 ");
        message.append(project.as_str());
        message.append(" 的活动工作流");
        Err(AppError::Conflict(message))
    }

    /// The write that starts a workflow on a project at rest. The condition and the change
    /// are one statement, so of two that start at once only one succeeds.
    pub fn queue_project(project_id: Id, workflow_id: Id) -> (r: ProjectUpdate)
        ensures
            r.project_id == project_id,
            r.guard == ProjectGuard::AtRest,
            r.status@ == "queued"@,
            r.error_message is None,
            r.workflow == WorkflowChange::Activate(workflow_id),
    {
        ProjectUpdate {
            project_id,
            guard: ProjectGuard::AtRest,
            status: "queued".to_owned(),
            error_message: None,
            workflow: WorkflowChange::Activate(workflow_id),
        }
    }

    /// What the attempt to start a workflow comes to. Where nothing was changed, the project
    /// was looked up again: it does not exist, or it is not at rest.
    pub fn project_queued(project_id: Id, affected: usize, current: AppResult<Project>) -> (r:
        AppResult<()>)
        ensures
            affected > 0 ==> r is Ok,
            affected == 0 && current is Err ==> r is Err && r->Err_0 == current->Err_0,
            affected == 0 && current is Ok ==> r is Err && r->Err_0@ == ErrorView::Conflict(
                "项目 "@ + hyphenated(project_id.value) + " 当前状态为 "@ + current->Ok_0.status@
                    + "，不能重复启动"@,
            ),
    {
        if affected > 0 {
            return Ok(());
        }
        let project = match current {
            Ok(project) => project,
            Err(error) => return Err(error),
        };
        let id = project_id.text();
        let mut message = "项目 ".to_owned();
        message.append(id.as_str());
        message.append(" 当前状态为 ");
        message.append(project.status.as_str());
        message.append("，不能重复启动");
        Err(AppError::Conflict(message))
    }

    /// The write with which a workflow brings a project to rest and gives it up.
    pub fn finalize_project(
        project_id: Id,
        workflow_id: Id,
        status: &str,
        error_message: Option<String>,
    ) -> (r: AppResult<ProjectUpdate>)
        ensures
            r is Ok <==> at_rest(status@),
            r is Ok ==> {
                &&& r->Ok_0.project_id == project_id
                &&& r->Ok_0.guard == ProjectGuard::ActiveWorkflow(workflow_id)
                &&& r->Ok_0.status@ == status@
                &&& r->Ok_0.error_message == error_message
                &&& r->Ok_0.workflow == WorkflowChange::Clear
            },
            r is Err ==> r->Err_0@ == ErrorView::Internal(status@ + " 不是项目终态"@),
    {
        if !str_eq(status, "draft") && !str_eq(status, "failed") && !str_eq(status, "completed") {
            let mut message = status.to_owned();
            message.append(" 不是项目终态");
            return Err(AppError::Internal(message));
        }
        Ok(
            ProjectUpdate {
                project_id,
                guard: ProjectGuard::ActiveWorkflow(workflow_id),
                status: status.to_owned(),
                error_message,
                workflow: WorkflowChange::Clear,
            },
        )
    }

    /// The write that creates a version of a project.
    pub fn create_project_version(project_id: Id, id: Id, version: i32) -> (r: VersionCreation)
        ensures
            r == (VersionCreation { id, project_id, version }),
    {
        VersionCreation { id, project_id, version }
    }

    /// The write of the script of a version.
    pub fn save_script(version_id: Id, spec: String) -> (r: VersionUpdate)
        ensures
            r == (VersionUpdate { version_id, column: VersionColumn::Script, value: spec }),
    {
        VersionUpdate { version_id, column: VersionColumn::Script, value: spec }
    }

    /// The write of the storyboard of a version.
    pub fn save_storyboard(version_id: Id, spec: String) -> (r: VersionUpdate)
        ensures
            r == (VersionUpdate { version_id, column: VersionColumn::Storyboard, value: spec }),
    {
        VersionUpdate { version_id, column: VersionColumn::Storyboard, value: spec }
    }

    /// The write of the render specification of a version.
    pub fn save_render_spec(version_id: Id, spec: String) -> (r: VersionUpdate)
        ensures
            r == (VersionUpdate { version_id, column: VersionColumn::Render, value: spec }),
    {
        VersionUpdate { version_id, column: VersionColumn::Render, value: spec }
    }

    /// What saving a checkpoint of a version comes to.
    pub fn version_saved(version_id: Id, affected: usize) -> (r: AppResult<()>)
        ensures
            affected > 0 ==> r is Ok,
            affected == 0 ==> r is Err && r->Err_0@ == missing("项目版本 "@, version_id),
    {
        changed_some("项目版本 ", version_id, affected)
    }

    /// The write that replaces the scenes of a version: a row for each draft of its
    /// storyboard, each with a fresh identifier.
    pub fn replace_scenes(project_id: Id, version_id: Id, drafts: &Vec<SceneDraft>) -> (r:
        SceneReplacement)
        ensures
            replaces_by(r, project_id, version_id, drafts@),
            forall|i: int| 0 <= i < drafts@.len() ==> is_random_id((#[trigger] r.rows@[i]).id),
    {
        let mut rows: Vec<NewScene> = Vec::new();
        let mut i: usize = 0;
        while i < drafts.len()
            invariant
                i <= drafts@.len(),
                rows@.len() == i,
                forall|k: int|
                    #![trigger rows@[k]]
                    0 <= k < i ==> is_random_id(rows@[k].id) && scene_stored_as(
                        rows@[k],
                        rows@[k].id,
                        project_id,
                        version_id,
                        drafts@[k],
                    ),
            decreases drafts@.len() - i,
        {
            rows.push(new_scene(Id::random(), project_id, version_id, &drafts[i]));
            i += 1;
        }
        SceneReplacement { version_id, rows }
    }

    /// The write that restores the scenes of a version from the drafts of its storyboard. None
    /// is needed where as many scenes are stored as there are drafts.
    pub fn scenes_to_restore(
        stored: usize,
        project_id: Id,
        version_id: Id,
        drafts: &Vec<SceneDraft>,
    ) -> (r: Option<SceneReplacement>)
        ensures
            r is None <==> stored == drafts@.len(),
            r is Some ==> replaces_by(r->0, project_id, version_id, drafts@),
            r is Some ==> forall|i: int|
                0 <= i < drafts@.len() ==> is_random_id((#[trigger] r->0.rows@[i]).id),
    {
        if stored == drafts.len() {
            None
        } else {
            Some(Repository::replace_scenes(project_id, version_id, drafts))
        }
    }

    /// The write that starts a task.
    pub fn start_task(task: NewGenerationTask) -> (r: TaskStart)
        ensures
            r.row == task,
            r.restarted_status@ == "running"@,
    {
        TaskStart { row: task, restarted_status: "running" }
    }

    /// The write of a task that has succeeded.
    pub fn complete_task(task_id: Id, output: String, usage: Option<String>) -> (r: TaskUpdate)
        ensures
            r.task_id == task_id,
            r.status@ == "succeeded"@,
            r.result == Some(TaskResult { output, usage }),
            r.error_message is None,
    {
        TaskUpdate {
            task_id,
            status: "succeeded",
            result: Some(TaskResult { output, usage }),
            error_message: None,
        }
    }

    /// The write of a task that has failed.
    pub fn fail_task(task_id: Id, message: String) -> (r: TaskUpdate)
        ensures
            r.task_id == task_id,
            r.status@ == "failed"@,
            r.result is None,
            r.error_message == Some(message),
    {
        TaskUpdate { task_id, status: "failed", result: None, error_message: Some(message) }
    }

    /// What the write of a task comes to.
    pub fn task_written(task_id: Id, affected: usize) -> (r: AppResult<()>)
        ensures
            affected > 0 ==> r is Ok,
            affected == 0 ==> r is Err && r->Err_0@ == missing("生成任务 "@, task_id),
    {
        changed_some("生成任务 ", task_id, affected)
    }

    /// The write of a scene whose generation starts.
    pub fn mark_scene_generating(scene_id: Id) -> (r: SceneUpdate)
        ensures
            r.scene_id == scene_id,
            r.status@ == "generating"@,
            r.ready is None,
    {
        SceneUpdate { scene_id, status: "generating", ready: None }
    }

    /// The write of a scene whose generation failed.
    pub fn mark_scene_failed(scene_id: Id) -> (r: SceneUpdate)
        ensures
            r.scene_id == scene_id,
            r.status@ == "failed"@,
            r.ready is None,
    {
        SceneUpdate { scene_id, status: "failed", ready: None }
    }

    /// The write of a scene that is complete.
    pub fn mark_scene_ready(
        scene_id: Id,
        duration: i64,
        image_id: Id,
        audio_id: Id,
        caption_id: Id,
    ) -> (r: SceneUpdate)
        ensures
            r.scene_id == scene_id,
            r.status@ == "ready"@,
            r.ready == Some(
                SceneAssets { duration_ms: duration, image_id, audio_id, caption_id },
            ),
    {
        SceneUpdate {
            scene_id,
            status: "ready",
            ready: Some(SceneAssets { duration_ms: duration, image_id, audio_id, caption_id }),
        }
    }

    /// What the write of the status of a scene comes to. That a scene is ready is noted
    /// whether or not its row is there.
    pub fn scene_written(update: &SceneUpdate, affected: usize) -> (r: AppResult<()>)
        ensures
            affected > 0 || update.ready is Some ==> r is Ok,
            affected == 0 && update.ready is None ==> r is Err && r->Err_0@ == missing(
                "场景 "@,
                update.scene_id,
            ),
    {
        if update.ready.is_some() {
            return Ok(());
        }
        changed_some("场景 ", update.scene_id, affected)
    }

    /// The write that starts a rendering.
    pub fn start_render(render: NewRender) -> (r: RenderStart)
        ensures
            r.row == render,
            r.restarted_status@ == "rendering"@,
    {
        RenderStart { row: render, restarted_status: "rendering" }
    }

    /// The write of a rendering that has succeeded.
    pub fn complete_render(
        render_id: Id,
        storage_key: String,
        public_url: String,
        duration_ms: i64,
    ) -> (r: RenderUpdate)
        ensures
            r.render_id == render_id,
            r.status@ == "completed"@,
            r.video == Some(RenderedVideo { storage_key, public_url, duration_ms }),
            r.error_message is None,
    {
        RenderUpdate {
            render_id,
            status: "completed",
            video: Some(RenderedVideo { storage_key, public_url, duration_ms }),
            error_message: None,
        }
    }

    /// The write of a rendering that has failed.
    pub fn fail_render(render_id: Id, message: String) -> (r: RenderUpdate)
        ensures
            r.render_id == render_id,
            r.status@ == "failed"@,
            r.video is None,
            r.error_message == Some(message),
    {
        RenderUpdate { render_id, status: "failed", video: None, error_message: Some(message) }
    }

    /// What the write of a rendering comes to.
    pub fn render_written(render_id: Id, affected: usize) -> (r: AppResult<()>)
        ensures
            affected > 0 ==> r is Ok,
            affected == 0 ==> r is Err && r->Err_0@ == missing("渲染记录 "@, render_id),
    {
        changed_some("渲染记录 ", render_id, affected)
    }
}

/// A workflow that is not the active one of a project changes nothing of it.
pub proof fn law_superseded_workflow_changes_nothing(
    update: ProjectUpdate,
    workflow_id: Id,
    row: Project,
    now: i64,
)
    requires
        update.guard == ProjectGuard::ActiveWorkflow(workflow_id),
        row.active_workflow_id != Some(workflow_id),
    ensures
        update.effect(row, now) == row,
{
}

/// Of two workflows that try to start on the same project, one after the other, at most one
/// does: a project that was queued is not at rest.
pub proof fn law_project_is_queued_once(
    first: ProjectUpdate,
    second: ProjectUpdate,
    row: Project,
    now: i64,
    later: i64,
)
    requires
        first.guard == ProjectGuard::AtRest,
        first.status@ == "queued"@,
        first.applies_to(row),
        second.guard == ProjectGuard::AtRest,
    ensures
        !second.applies_to(first.effect(row, now)),
        second.effect(first.effect(row, now), later) == first.effect(row, now),
{
    reveal_strlit("queued");
    reveal_strlit("draft");
    reveal_strlit("failed");
    reveal_strlit("completed");
    assert("queued"@[0] != "draft"@[0] && "queued"@[0] != "failed"@[0] && "queued"@[0]
        != "completed"@[0]);
}

/// A project that its workflow has brought to rest has no active workflow, is closed to
/// further writes of any workflow, and can be started again.
pub proof fn law_finalized_project_can_start_again(
    last: ProjectUpdate,
    next: ProjectUpdate,
    row: Project,
    now: i64,
    any: Id,
)
    requires
        at_rest(last.status@),
        last.workflow == WorkflowChange::Clear,
        last.applies_to(row),
        next.project_id == last.project_id,
    ensures
        last.effect(row, now).active_workflow_id is None,
        next.guard == ProjectGuard::ActiveWorkflow(any) ==> !next.applies_to(last.effect(row, now)),
        next.guard == ProjectGuard::AtRest ==> next.applies_to(last.effect(row, now)),
{
}

/// The row of a new project is that of its request: for each of text, image, speech and captions
/// the provider and the model that the request chose, its voice, language, duration and whether
/// its script is reviewed; its title and its outline are trimmed.
pub proof fn law_project_row_is_of_its_request(
    id: Id,
    request: CreateProjectRequest,
    title: &str,
    outline: &str,
    trimmed_title: String,
    trimmed_outline: String,
    ratio: &'static str,
    r: NewProject,
)
    requires
        call_ensures(new_project, (id, &request), r),
        title@ == request.title@,
        outline@ == request.source_text@,
        call_ensures(trim, (title,), trimmed_title),
        call_ensures(trim, (outline,), trimmed_outline),
        call_ensures(AspectRatio::database_value, (&request.aspect_ratio,), ratio),
    ensures
        r.id == id,
        r.title@ == trimmed_title@,
        r.source_text@ == trimmed_outline@,
        r.language == request.language,
        r.aspect_ratio@ == ratio@,
        r.target_duration_seconds == request.target_duration_seconds,
        r.text_provider == request.text_provider && r.text_model == request.text_model,
        r.image_provider == request.image_provider && r.image_model == request.image_model,
        r.voice == request.voice,
        r.speech_provider == request.speech_provider && r.speech_model == request.speech_model,
        r.transcription_provider == request.transcription_provider && r.transcription_model
            == request.transcription_model,
        r.require_script_review == request.require_script_review,
{
}

/// A project is stored exactly where its request is valid, under a fresh identifier and with what
/// the request chose.
pub proof fn law_created_project_is_of_its_request(
    request: CreateProjectRequest,
    valid: AppResult<()>,
    r: AppResult<NewProject>,
)
    requires
        call_ensures(CreateProjectRequest::validate, (&request,), valid),
        call_ensures(Repository::create_project, (&request,), r),
    ensures
        r is Ok <==> valid is Ok,
        r is Err ==> r->Err_0@ == valid->Err_0@,
        r is Ok ==> {
            let row = r->Ok_0;
            &&& is_random_id(row.id)
            &&& row.language == request.language && row.voice == request.voice
            &&& row.target_duration_seconds == request.target_duration_seconds
            &&& row.text_provider == request.text_provider && row.text_model == request.text_model
            &&& row.image_provider == request.image_provider && row.image_model
                == request.image_model
            &&& row.speech_provider == request.speech_provider && row.speech_model
                == request.speech_model
            &&& row.transcription_provider == request.transcription_provider
                && row.transcription_model == request.transcription_model
            &&& row.require_script_review == request.require_script_review
        },
{
}

/// The row of a scene is that of its draft, in the version and the project that it is for.
pub proof fn law_scene_row_is_of_its_draft(
    id: Id,
    project_id: Id,
    version_id: Id,
    draft: SceneDraft,
    transition: &'static str,
    r: NewScene,
)
    requires
        call_ensures(new_scene, (id, project_id, version_id, &draft), r),
        call_ensures(TransitionKind::database_value, (&draft.transition,), transition),
    ensures
        r.id == id,
        r.project_id == project_id,
        r.project_version_id == version_id,
        r.sequence == draft.sequence,
        r.narration_text == draft.narration,
        r.visual_prompt == draft.visual_prompt,
        r.on_screen_text == draft.on_screen_text,
        r.transition@ == transition@,
{
}

/// The scenes that replace those of a version are its drafts, one for one and in their order,
/// each under a fresh identifier; the same scenes restore a version of which any are missing.
pub proof fn law_replacing_scenes_are_the_drafts(
    project_id: Id,
    version_id: Id,
    drafts: Vec<SceneDraft>,
    replaced: SceneReplacement,
    stored: usize,
    restored: Option<SceneReplacement>,
    i: int,
)
    requires
        call_ensures(Repository::replace_scenes, (project_id, version_id, &drafts), replaced),
        call_ensures(
            Repository::scenes_to_restore,
            (stored, project_id, version_id, &drafts),
            restored,
        ),
        0 <= i < drafts@.len(),
    ensures
        restored is None <==> stored == drafts@.len(),
        forall|replacement: SceneReplacement|
            replacement == replaced || Some(replacement) == restored ==> {
                &&& replacement.version_id == version_id
                &&& replacement.rows@.len() == drafts@.len()
                &&& is_random_id((#[trigger] replacement.rows@[i]).id)
                &&& replacement.rows@[i].project_id == project_id
                &&& replacement.rows@[i].project_version_id == version_id
                &&& replacement.rows@[i].sequence == drafts@[i].sequence
                &&& replacement.rows@[i].narration_text == drafts@[i].narration
                &&& replacement.rows@[i].visual_prompt == drafts@[i].visual_prompt
                &&& replacement.rows@[i].on_screen_text == drafts@[i].on_screen_text
            },
{
    let row = replaced.rows@[i];
    if restored is Some {
        let other = restored->0.rows@[i];
    }
}

/// A project is at rest as a draft, failed or completed, and in no other status; a workflow can be
/// started on it exactly then.
pub proof fn law_start_needs_a_project_at_rest(
    project_id: Id,
    workflow_id: Id,
    statuses: Vec<&'static str>,
    update: ProjectUpdate,
    row: Project,
    now: i64,
)
    requires
        call_ensures(resting_statuses, (), statuses),
        call_ensures(Repository::queue_project, (project_id, workflow_id), update),
        row.id == project_id,
    ensures
        ({
            let resting = row.status@ == "draft"@ || row.status@ == "failed"@ || row.status@
                == "completed"@;
            let after = update.effect(row, now);
            &&& resting <==> exists|i: int|
                0 <= i < statuses@.len() && #[trigger] statuses@[i]@ == row.status@
            &&& update.applies_to(row) <==> resting
            &&& resting ==> after.status@ == "queued"@ && after.active_workflow_id == Some(
                workflow_id,
            ) && after.error_message is None && after.updated_at == now
            &&& !resting ==> after == row
            &&& after.id == row.id && after.current_version == row.current_version
        }),
{
    assert(at_rest(row.status@) <==> exists|i: int|
        0 <= i < statuses@.len() && #[trigger] statuses@[i]@ == row.status@);
}

/// A status that a workflow writes reaches the project only while the workflow is the active one,
/// and leaves it so; one that closes the project has to be a status of rest, and clears the
/// workflow. Nothing else of the project changes.
pub proof fn law_status_is_written_by_the_active_workflow(
    project_id: Id,
    workflow_id: Id,
    status: &str,
    message: Option<String>,
    progress: ProjectUpdate,
    last: AppResult<ProjectUpdate>,
    row: Project,
    now: i64,
)
    requires
        call_ensures(
            Repository::update_project_status,
            (project_id, workflow_id, status, message),
            progress,
        ),
        call_ensures(
            Repository::finalize_project,
            (project_id, workflow_id, status, message),
            last,
        ),
        row.id == project_id,
    ensures
        ({
            let active = row.active_workflow_id == Some(workflow_id);
            let after = progress.effect(row, now);
            &&& active ==> after.status@ == status@ && after.error_message == message
                && after.active_workflow_id == Some(workflow_id) && after.updated_at == now
            &&& !active ==> after == row
            &&& after.title == row.title && after.current_version == row.current_version
            &&& last is Ok <==> status@ == "draft"@ || status@ == "failed"@ || status@
                == "completed"@
            &&& last is Ok && active ==> {
                let rested = last->Ok_0.effect(row, now);
                &&& rested.status@ == status@
                &&& rested.error_message == message
                &&& rested.active_workflow_id is None
            }
            &&& last is Ok && !active ==> last->Ok_0.effect(row, now) == row
            &&& last is Err ==> last->Err_0@ == ErrorView::Internal(status@ + " 不是项目终态"@)
        }),
{
}

/// A write that found no row is an error that names what is missing; one that did is none.
pub proof fn law_write_without_a_row(
    id: Id,
    other: Id,
    affected: usize,
    version: AppResult<()>,
    task: AppResult<()>,
    render: AppResult<()>,
    job: AppResult<()>,
    status: AppResult<()>,
)
    requires
        call_ensures(Repository::version_saved, (id, affected), version),
        call_ensures(Repository::task_written, (id, affected), task),
        call_ensures(Repository::render_written, (id, affected), render),
        call_ensures(Repository::job_version_written, (id, affected), job),
        call_ensures(Repository::status_written, (id, other, affected), status),
    ensures
        affected > 0 ==> version is Ok && task is Ok && render is Ok && job is Ok && status is Ok,
        affected == 0 ==> {
            let name = hyphenated(id.value);
            &&& version is Err && version->Err_0@ == ErrorView::NotFound("项目版本 "@ + name)
            &&& task is Err && task->Err_0@ == ErrorView::NotFound("生成任务 "@ + name)
            &&& render is Err && render->Err_0@ == ErrorView::NotFound("渲染记录 "@ + name)
            &&& job is Err && job->Err_0@ == ErrorView::NotFound("生成作业 "@ + name)
            &&& status is Err && status->Err_0@ == ErrorView::Conflict(
                "工作流 "@ + hyphenated(other.value) + " 已不是项目 "@ + name + " 的活动工作流"@,
            )
        },
{
}

/// What was looked up is handed out as it is, and what is not there is named.
pub proof fn law_lookup(
    id: Id,
    project: Option<Project>,
    job: Option<GenerationJob>,
    version: Option<ProjectVersion>,
    found_project: AppResult<Project>,
    found_job: AppResult<GenerationJob>,
    found_version: AppResult<ProjectVersion>,
)
    requires
        call_ensures(Repository::get_project, (id, project), found_project),
        call_ensures(Repository::get_generation_job, (id, job), found_job),
        call_ensures(Repository::get_project_version, (id, version), found_version),
    ensures
        match project {
            Some(row) => found_project == Ok::<Project, AppError>(row),
            None => found_project is Err && found_project->Err_0@ == ErrorView::NotFound(
                "项目 "@ + hyphenated(id.value),
            ),
        },
        match job {
            Some(row) => found_job == Ok::<GenerationJob, AppError>(row),
            None => found_job is Err && found_job->Err_0@ == ErrorView::NotFound(
                "生成作业 "@ + hyphenated(id.value),
            ),
        },
        match version {
            Some(row) => found_version == Ok::<ProjectVersion, AppError>(row),
            None => found_version is Err && found_version->Err_0@ == ErrorView::NotFound(
                "项目版本 "@ + hyphenated(id.value),
            ),
        },
{
}

/// A start that changed nothing is told why: the project is not there, or it has a status in
/// which it cannot be started, which is named.
pub proof fn law_refused_start_is_explained(
    project_id: Id,
    affected: usize,
    current: AppResult<Project>,
    r: AppResult<()>,
)
    requires
        call_ensures(Repository::project_queued, (project_id, affected, current), r),
    ensures
        r is Ok <==> affected > 0,
        affected == 0 && current is Err ==> r->Err_0 == current->Err_0,
        affected == 0 && current is Ok ==> r->Err_0@ == ErrorView::Conflict(
            "项目 "@ + hyphenated(project_id.value) + " 当前状态为 "@ + current->Ok_0.status@
                + "，不能重复启动"@,
        ),
{
}

/// A checkpoint is saved in the column of its stage and nowhere else: the other checkpoints, the
/// review and every other version stay as they are.
pub proof fn law_checkpoint_touches_its_column_only(
    version_id: Id,
    spec: String,
    script: VersionUpdate,
    storyboard: VersionUpdate,
    render: VersionUpdate,
    row: ProjectVersion,
    other: ProjectVersion,
    now: i64,
)
    requires
        call_ensures(Repository::save_script, (version_id, spec), script),
        call_ensures(Repository::save_storyboard, (version_id, spec), storyboard),
        call_ensures(Repository::save_render_spec, (version_id, spec), render),
        row.id == version_id,
        other.id != version_id,
    ensures
        script.effect(row, now) == (ProjectVersion {
            script_spec: Some(spec),
            updated_at: now,
            ..row
        }),
        storyboard.effect(row, now) == (ProjectVersion {
            storyboard_spec: Some(spec),
            updated_at: now,
            ..row
        }),
        render.effect(row, now) == (ProjectVersion {
            render_spec: Some(spec),
            updated_at: now,
            ..row
        }),
        script.effect(other, now) == other,
        storyboard.effect(other, now) == other,
        render.effect(other, now) == other,
{
}

/// A task is closed as what it came to: with what it produced where it succeeded, and with why
/// where it failed; it is started again as running.
pub proof fn law_task_is_closed_as_it_ended(
    task_id: Id,
    output: String,
    usage: Option<String>,
    message: String,
    task: NewGenerationTask,
    done: TaskUpdate,
    failed: TaskUpdate,
    start: TaskStart,
)
    requires
        call_ensures(Repository::complete_task, (task_id, output, usage), done),
        call_ensures(Repository::fail_task, (task_id, message), failed),
        call_ensures(Repository::start_task, (task,), start),
    ensures
        done.task_id == task_id && done.status@ == "succeeded"@,
        done.result is Some && done.result->0.output == output && done.result->0.usage == usage,
        done.error_message is None,
        failed.task_id == task_id && failed.status@ == "failed"@,
        failed.result is None && failed.error_message == Some(message),
        start.row == task && start.restarted_status@ == "running"@,
{
}

/// A scene is marked as what became of it; where it is ready, with the length and the assets that
/// it was given, each in its own place.
pub proof fn law_scene_is_marked_as_it_is(
    scene_id: Id,
    duration: i64,
    image_id: Id,
    audio_id: Id,
    caption_id: Id,
    generating: SceneUpdate,
    failed: SceneUpdate,
    ready: SceneUpdate,
    affected: usize,
    update: SceneUpdate,
    written: AppResult<()>,
)
    requires
        call_ensures(Repository::mark_scene_generating, (scene_id,), generating),
        call_ensures(Repository::mark_scene_failed, (scene_id,), failed),
        call_ensures(
            Repository::mark_scene_ready,
            (scene_id, duration, image_id, audio_id, caption_id),
            ready,
        ),
        call_ensures(Repository::scene_written, (&update, affected), written),
    ensures
        generating.scene_id == scene_id && generating.status@ == "generating"@ && generating.ready
            is None,
        failed.scene_id == scene_id && failed.status@ == "failed"@ && failed.ready is None,
        ready.scene_id == scene_id && ready.status@ == "ready"@ && ready.ready is Some,
        ready.ready->0.duration_ms == duration,
        ready.ready->0.image_id == image_id,
        ready.ready->0.audio_id == audio_id,
        ready.ready->0.caption_id == caption_id,
        written is Ok <==> affected > 0 || update.ready is Some,
        written is Err ==> written->Err_0@ == ErrorView::NotFound(
            "场景 "@ + hyphenated(update.scene_id.value),
        ),
{
}

/// A rendering is closed as what it came to: with its video where it succeeded, and with why
/// where it failed; it is started again as rendering.
pub proof fn law_rendering_is_closed_as_it_ended(
    render_id: Id,
    storage_key: String,
    public_url: String,
    duration_ms: i64,
    message: String,
    render: NewRender,
    done: RenderUpdate,
    failed: RenderUpdate,
    start: RenderStart,
)
    requires
        call_ensures(
            Repository::complete_render,
            (render_id, storage_key, public_url, duration_ms),
            done,
        ),
        call_ensures(Repository::fail_render, (render_id, message), failed),
        call_ensures(Repository::start_render, (render,), start),
    ensures
        done.render_id == render_id && done.status@ == "completed"@ && done.video is Some,
        done.video->0.storage_key == storage_key && done.video->0.public_url == public_url,
        done.video->0.duration_ms == duration_ms && done.error_message is None,
        failed.render_id == render_id && failed.status@ == "failed"@,
        failed.video is None && failed.error_message == Some(message),
        start.row == render && start.restarted_status@ == "rendering"@,
{
}

/// The job of a start is queued for the project and the workflow of that start, and a version is
/// created for the project, under the identifier and the number that it was given.
pub proof fn law_job_and_version_are_of_their_project(
    project_id: Id,
    workflow_id: Id,
    job_id: Id,
    version_id: Id,
    version: i32,
    job: NewJob,
    creation: VersionCreation,
)
    requires
        call_ensures(Repository::queued_job, (project_id, workflow_id, job_id), job),
        call_ensures(
            Repository::create_project_version,
            (project_id, version_id, version),
            creation,
        ),
    ensures
        job.id == job_id && job.project_id == project_id && job.workflow_id == workflow_id,
        job.status@ == "queued"@ && job.stage@ == "queued"@ && !job.resumable,
        creation.id == version_id && creation.project_id == project_id,
        creation.version == version,
{
}

/// An asset is stored under the kind and the media type of its file, with what is known of the
/// file: the size of an illustration, the length of a narration, the number of cues of captions.
pub proof fn law_metadata_of_assets(
    metadata: AssetMetadata,
    kind: &'static str,
    media_type: &'static str,
    json: String,
)
    requires
        call_ensures(AssetMetadata::kind, (&metadata,), kind),
        call_ensures(AssetMetadata::content_type, (&metadata,), media_type),
        call_ensures(AssetMetadata::json, (&metadata,), json),
    ensures
        metadata matches AssetMetadata::Image { width, height } ==> {
            &&& kind@ == "image"@ && media_type@ == "image/png"@
            &&& says(json@, "\"width\":"@ + decimal(width as int) + "}"@)
            &&& says(json@, "\"height\":"@ + decimal(height as int) + ","@)
            &&& says(json@, "\"quality\":\"high\""@)
            &&& json@.len() == 37 + decimal(width as int).len() + decimal(height as int).len()
        },
        metadata matches AssetMetadata::Audio { duration_ms } ==> {
            &&& kind@ == "audio"@ && media_type@ == "audio/wav"@
            &&& json@ == "{\"duration_ms\":"@ + decimal(duration_ms as int) + "}"@
        },
        metadata matches AssetMetadata::Captions { cue_count } ==> {
            &&& kind@ == "captions"@ && media_type@ == "application/json"@
            &&& json@ == "{\"cue_count\":"@ + decimal(cue_count as int) + "}"@
        },
{
    match metadata {
        AssetMetadata::Image { width, height } => {
            reveal_strlit("{\"height\":");
            reveal_strlit(",\"quality\":\"high\",\"width\":");
            reveal_strlit("\"width\":");
            reveal_strlit("\"height\":");
            reveal_strlit("\"quality\":\"high\"");
            reveal_strlit(",");
            reveal_strlit("{");
            reveal_strlit("}");
            let h = decimal(height as int);
            let w = decimal(width as int);
            let high = "\"quality\":\"high\""@;
            assert("{\"height\":"@ =~= "{"@ + "\"height\":"@);
            assert(",\"quality\":\"high\",\"width\":"@ =~= ","@ + high + ","@ + "\"width\":"@);
            let first = "\"height\":"@ + h + ","@;
            let last = "\"width\":"@ + w + "}"@;
            assert(json@ =~= "{"@ + first + (high + ","@ + last));
            lemma_says(json@, "{"@, first, high + ","@ + last);
            assert(json@ =~= ("{"@ + first) + high + (","@ + last));
            lemma_says(json@, "{"@ + first, high, ","@ + last);
            assert(json@ =~= ("{"@ + first + high + ","@) + last + Seq::<char>::empty());
            lemma_says(json@, "{"@ + first + high + ","@, last, Seq::empty());
        },
        _ => {},
    }
}

} // verus!
