//! The workflow that generates a video, step by step.
//!
//! A state says what is to be done next. Each step is carried out durably by whoever runs the
//! workflow, which reports what it came to; where the workflow goes from there is decided here.
pub mod laws;
pub mod status;

use crate::db::SceneRecord;
use crate::domain::{
    GenerationJob, Project, ProjectVersion, RenderSpec, ScriptReviewInput, ScriptSpec,
    StoryboardSpec, WorkflowInput, WorkflowResult,
};
use crate::ids::{uuid_parsed, Id};
use crate::pipeline::timeline::{is_render_spec, render_spec, timeline_fits, GeneratedScene};
use crate::text::{decimal, decimal_u64, str_eq};
use vstd::prelude::*;
use vstd::string::*;

verus! {

/// An error that ends a workflow, with a status code as in HTTP.
#[derive(Clone, Debug)]
pub struct Terminal {
    pub code: u16,
    pub message: String,
}

/// How an error that ends a workflow is shown.
pub open spec fn shown(error: Terminal) -> Seq<char> {
    "Terminal error ["@ + decimal(error.code as int) + "]: "@ + error.message@
}

/// The project and the version of it that a workflow is about.
pub struct Run {
    pub project: Project,
    pub version: ProjectVersion,
}

/// A stage whose failure is recorded.
#[derive(Clone, Copy, Debug, PartialEq, Eq, Structural)]
pub enum Stage {
    Script,
    Storyboard,
    Assets,
    Render,
}

impl Stage {
    pub open spec fn recorded(self) -> Seq<char> {
        match self {
            Stage::Script => "script"@,
            Stage::Storyboard => "storyboard"@,
            Stage::Assets => "assets"@,
            Stage::Render => "render"@,
        }
    }

    pub fn name(&self) -> (r: &'static str)
        ensures
            r@ == self.recorded(),
    {
        match self {
            Stage::Script => "script",
            Stage::Storyboard => "storyboard",
            Stage::Assets => "assets",
            Stage::Render => "render",
        }
    }
}

/// Where a workflow is. The state says what is to be done next; those that start with `Mark`
/// write a status.
pub enum WorkflowState {
    LoadProject,
    LoadJob { project: Project },
    /// Load the version that is to be continued.
    LoadVersion { project: Project, version_id: Id },
    /// Mark that the script of a new version is generated.
    MarkNew { project: Project },
    /// Create the next version, under an identifier that stays the same in a replay.
    CreateVersion { project: Project },
    /// Bind the job to the version created under `version_id`.
    AttachVersion { run: Run, version_id: Id },
    /// Mark that the timeline is built, where it has been before.
    MarkRestored { run: Run },
    DecodeRenderSpec { run: Run },
    DecodeStoryboard { run: Run },
    /// Mark that the script is generated.
    MarkScript { run: Run },
    DecodeScript { run: Run },
    GenerateScript { run: Run },
    /// Mark that the script waits for its review.
    MarkWaiting { run: Run, script: ScriptSpec },
    AwaitReview { run: Run, script: ScriptSpec },
    SaveReview { run: Run, script: ScriptSpec, review: ScriptReviewInput },
    /// Close the job: the script was rejected.
    FinishRejected { run: Run, reason: String },
    /// Mark that the storyboard is generated.
    MarkStoryboard { run: Run, script: ScriptSpec },
    GenerateStoryboard { run: Run, script: ScriptSpec },
    /// Mark that the assets are generated.
    MarkAssets { run: Run, storyboard: StoryboardSpec },
    /// Load the scenes, or restore them from the storyboard.
    LoadScenes { run: Run, storyboard: StoryboardSpec },
    GenerateAssets { run: Run, storyboard: StoryboardSpec, scenes: Vec<SceneRecord> },
    /// Mark that the timeline is built.
    MarkTimeline { run: Run, generated: Vec<GeneratedScene> },
    SaveRenderSpec { run: Run, spec: RenderSpec },
    /// Mark that the video is rendered.
    MarkRendering { run: Run, spec: RenderSpec },
    RenderVideo { run: Run, spec: RenderSpec },
    /// Close the job: the video is there.
    FinishCompleted { run: Run, render_url: String },
    /// Close the job: a stage failed.
    RecordFailure { project_id: Id, stage: Stage, failure: Terminal },
    Done { result: Result<WorkflowResult, Terminal> },
}

/// What a step came to.
pub enum WorkflowEvent {
    Project(Result<Project, Terminal>),
    Job(Result<GenerationJob, Terminal>),
    Version(Result<ProjectVersion, Terminal>),
    /// The identifier that was drawn for a version, and the version under it.
    Created(Id, Result<ProjectVersion, Terminal>),
    Written(Result<(), Terminal>),
    /// A checkpoint as it was read, or why it could not be.
    RenderSpecDecoded(Result<RenderSpec, String>),
    StoryboardDecoded(Result<StoryboardSpec, String>),
    ScriptDecoded(Result<ScriptSpec, String>),
    Script(Result<ScriptSpec, Terminal>),
    Review(Result<ScriptReviewInput, Terminal>),
    Storyboard(Result<StoryboardSpec, Terminal>),
    Scenes(Result<Vec<SceneRecord>, Terminal>),
    Assets(Result<Vec<GeneratedScene>, Terminal>),
    Rendered(Result<String, Terminal>),
}

/// Where a workflow goes once its version is there: to the first step that no checkpoint spares.
pub open spec fn entry(run: Run) -> WorkflowState {
    if run.version.render_spec is Some {
        WorkflowState::MarkRestored { run }
    } else if run.version.storyboard_spec is Some {
        WorkflowState::DecodeStoryboard { run }
    } else {
        WorkflowState::MarkScript { run }
    }
}

/// Whether the script of a version has to be reviewed.
pub open spec fn needs_review(run: Run) -> bool {
    run.project.require_script_review && run.version.script_review_status@ != "approved"@
}

/// Where a workflow goes once its script is there.
pub open spec fn with_script(run: Run, script: ScriptSpec) -> WorkflowState {
    if needs_review(run) {
        WorkflowState::MarkWaiting { run, script }
    } else {
        WorkflowState::MarkStoryboard { run, script }
    }
}

/// The workflow ends with an error of its own.
pub open spec fn refused(state: WorkflowState, code: u16, message: Seq<char>) -> bool {
    state matches WorkflowState::Done { result } && result is Err && result->Err_0.code == code
        && result->Err_0.message@ == message
}

/// The workflow ends with the error of a step.
pub open spec fn ended(error: Terminal) -> WorkflowState {
    WorkflowState::Done { result: Err(error) }
}

/// The failure of a stage is to be recorded.
pub open spec fn stage_failed(state: WorkflowState, run: Run, stage: Stage, cause: Terminal) -> bool {
    state matches WorkflowState::RecordFailure { project_id, stage: s, failure } && project_id
        == run.project.id && s == stage && failure.code == cause.code && failure.message@ == shown(
        cause,
    )
}

/// The workflow ends with a result.
pub open spec fn succeeded(
    state: WorkflowState,
    run: Run,
    outcome: Seq<char>,
    render_url: Option<String>,
) -> bool {
    state matches WorkflowState::Done { result } && result is Ok && result->Ok_0.project_id
        == run.project.id && result->Ok_0.version == run.version.version
        && result->Ok_0.outcome@ == outcome && result->Ok_0.render_url == render_url
}

/// The reason with which a script is rejected.
pub open spec fn rejection(review: ScriptReviewInput) -> Seq<char> {
    match review.feedback {
        Some(feedback) => feedback@,
        None => "脚本审核未通过"@,
    }
}

/// The error for a checkpoint that cannot be read.
pub open spec fn undecodable(name: Seq<char>, reason: Seq<char>) -> Seq<char> {
    name + " 检查点无法反序列化: "@ + reason
}

fn refuse(code: u16, message: &str) -> (r: WorkflowState)
    ensures
        refused(r, code, message@),
{
    WorkflowState::Done { result: Err(Terminal { code, message: message.to_owned() }) }
}

fn unreadable(name: &str, reason: &str) -> (r: WorkflowState)
    ensures
        refused(r, 500, undecodable(name@, reason@)),
{
    let mut message = name.to_owned();
    message.append(" 检查点无法反序列化: ");
    message.append(reason);
    WorkflowState::Done { result: Err(Terminal { code: 500, message }) }
}

fn fail(run: Run, stage: Stage, cause: Terminal) -> (r: WorkflowState)
    ensures
        stage_failed(r, run, stage, cause),
{
    let code = decimal_u64(cause.code as u64);
    let mut message = "Terminal error [".to_owned();
    message.append(code.as_str());
    message.append("]: ");
    message.append(cause.message.as_str());
    WorkflowState::RecordFailure {
        project_id: run.project.id,
        stage,
        failure: Terminal { code: cause.code, message },
    }
}

fn enter(run: Run) -> (r: WorkflowState)
    ensures
        r == entry(run),
{
    if run.version.render_spec.is_some() {
        WorkflowState::MarkRestored { run }
    } else if run.version.storyboard_spec.is_some() {
        WorkflowState::DecodeStoryboard { run }
    } else {
        WorkflowState::MarkScript { run }
    }
}

fn go_on_with_script(run: Run, script: ScriptSpec) -> (r: WorkflowState)
    ensures
        r == with_script(run, script),
{
    if run.project.require_script_review && !str_eq(
        run.version.script_review_status.as_str(),
        "approved",
    ) {
        WorkflowState::MarkWaiting { run, script }
    } else {
        WorkflowState::MarkStoryboard { run, script }
    }
}

/// The identifier of a workflow from the key under which it runs.
pub fn workflow_id_of(key: &str) -> (r: Result<Id, Terminal>)
    ensures
        match uuid_parsed(key@) {
            Ok(value) => r is Ok && r->Ok_0.value == value,
            Err(reason) => r is Err && r->Err_0.code == 500 && r->Err_0.message@ == reason,
        },
{
    match Id::parse(key) {
        Ok(id) => Ok(id),
        Err(message) => Err(Terminal { code: 500, message }),
    }
}

impl WorkflowState {
    /// Whether `event` is an answer to what is to be done. The timeline of the scenes that were
    /// generated has to fit.
    pub open spec fn admits(self, event: WorkflowEvent) -> bool {
        match self {
            WorkflowState::LoadProject => event is Project,
            WorkflowState::LoadJob { .. } => event is Job,
            WorkflowState::LoadVersion { .. } => event is Version,
            WorkflowState::CreateVersion { .. } => event is Created,
            WorkflowState::DecodeRenderSpec { .. } => event is RenderSpecDecoded,
            WorkflowState::DecodeStoryboard { .. } => event is StoryboardDecoded,
            WorkflowState::DecodeScript { .. } => event is ScriptDecoded,
            WorkflowState::GenerateScript { .. } => event is Script,
            WorkflowState::AwaitReview { .. } => event is Review,
            WorkflowState::GenerateStoryboard { .. } => event is Storyboard,
            WorkflowState::LoadScenes { .. } => event is Scenes,
            WorkflowState::GenerateAssets { .. } => event is Assets,
            WorkflowState::MarkTimeline { generated, .. } => event is Written && timeline_fits(
                generated@,
            ),
            WorkflowState::RenderVideo { .. } => event is Rendered,
            WorkflowState::Done { .. } => false,
            _ => event is Written,
        }
    }

    /// Whether the workflow `workflow_id`, started with `input`, goes on with `next` after
    /// `event`.
    pub open spec fn leads_to(
        self,
        workflow_id: Id,
        input: WorkflowInput,
        event: WorkflowEvent,
        next: WorkflowState,
    ) -> bool {
        match (self, event) {
            (WorkflowState::LoadProject, WorkflowEvent::Project(Ok(project))) => {
                if project.active_workflow_id != Some(workflow_id) {
                    refused(next, 409, "工作流不是项目当前活动工作流"@)
                } else {
                    next == (WorkflowState::LoadJob { project })
                }
            },
            (WorkflowState::LoadProject, WorkflowEvent::Project(Err(error))) => next == ended(
                error,
            ),
            (WorkflowState::LoadJob { project }, WorkflowEvent::Job(Ok(job))) => {
                if job.project_id != project.id || job.workflow_id != workflow_id {
                    refused(next, 409, "生成任务与项目当前 Workflow 不匹配"@)
                } else {
                    match input.resume_version_id {
                        Some(version_id) => if job.project_version_id != Some(version_id) {
                            refused(next, 409, "继续版本与生成任务绑定版本不一致"@)
                        } else {
                            next == (WorkflowState::LoadVersion { project, version_id })
                        },
                        None => next == (WorkflowState::MarkNew { project }),
                    }
                }
            },
            (WorkflowState::LoadJob { .. }, WorkflowEvent::Job(Err(error))) => next == ended(error),
            (WorkflowState::LoadVersion { project, .. }, WorkflowEvent::Version(Ok(version))) => {
                if version.project_id != project.id || version.version != project.current_version {
                    refused(next, 409, "只能继续项目当前版本"@)
                } else {
                    next == entry(Run { project, version })
                }
            },
            (WorkflowState::LoadVersion { .. }, WorkflowEvent::Version(Err(error))) => next
                == ended(error),
            (WorkflowState::CreateVersion { project }, WorkflowEvent::Created(id, Ok(version))) =>
                next == (WorkflowState::AttachVersion {
                    run: Run { project, version },
                    version_id: id,
                }),
            (WorkflowState::CreateVersion { .. }, WorkflowEvent::Created(_, Err(error))) => next
                == ended(error),
            (WorkflowState::DecodeRenderSpec { run }, WorkflowEvent::RenderSpecDecoded(decoded)) =>
                match decoded {
                    Ok(spec) => next == (WorkflowState::MarkRendering { run, spec }),
                    Err(reason) => refused(next, 500, undecodable("render_spec"@, reason@)),
                },
            (WorkflowState::DecodeStoryboard { run }, WorkflowEvent::StoryboardDecoded(decoded)) =>
                match decoded {
                    Ok(storyboard) => next == (WorkflowState::MarkAssets { run, storyboard }),
                    Err(reason) => refused(next, 500, undecodable("storyboard_spec"@, reason@)),
                },
            (WorkflowState::DecodeScript { run }, WorkflowEvent::ScriptDecoded(decoded)) =>
                match decoded {
                    Ok(script) => next == with_script(run, script),
                    Err(reason) => refused(next, 500, undecodable("script_spec"@, reason@)),
                },
            (WorkflowState::GenerateScript { run }, WorkflowEvent::Script(generated)) =>
                match generated {
                    Ok(script) => next == with_script(run, script),
                    Err(cause) => stage_failed(next, run, Stage::Script, cause),
                },
            (WorkflowState::AwaitReview { run, script }, WorkflowEvent::Review(Ok(review))) => next
                == (WorkflowState::SaveReview { run, script, review }),
            (WorkflowState::AwaitReview { .. }, WorkflowEvent::Review(Err(error))) => next == ended(
                error,
            ),
            (
                WorkflowState::GenerateStoryboard { run, .. },
                WorkflowEvent::Storyboard(generated),
            ) => match generated {
                Ok(storyboard) => next == (WorkflowState::MarkAssets { run, storyboard }),
                Err(cause) => stage_failed(next, run, Stage::Storyboard, cause),
            },
            (WorkflowState::LoadScenes { run, storyboard }, WorkflowEvent::Scenes(Ok(scenes))) =>
                next == (WorkflowState::GenerateAssets { run, storyboard, scenes }),
            (WorkflowState::LoadScenes { .. }, WorkflowEvent::Scenes(Err(error))) => next == ended(
                error,
            ),
            (WorkflowState::GenerateAssets { run, .. }, WorkflowEvent::Assets(assets)) =>
                match assets {
                    Ok(generated) => next == (WorkflowState::MarkTimeline { run, generated }),
                    Err(cause) => stage_failed(next, run, Stage::Assets, cause),
                },
            (WorkflowState::RenderVideo { run, .. }, WorkflowEvent::Rendered(rendered)) =>
                match rendered {
                    Ok(render_url) => next == (WorkflowState::FinishCompleted { run, render_url }),
                    Err(cause) => stage_failed(next, run, Stage::Render, cause),
                },
            (_, WorkflowEvent::Written(Err(error))) => next == ended(error),
            (state, WorkflowEvent::Written(Ok(_))) => state.after_write(next),
            _ => false,
        }
    }

    /// Whether the workflow goes on with `next` once what it had to write is written.
    pub open spec fn after_write(self, next: WorkflowState) -> bool {
        match self {
            WorkflowState::MarkNew { project } => next == (WorkflowState::CreateVersion { project }),
            WorkflowState::AttachVersion { run, .. } => next == entry(run),
            WorkflowState::MarkRestored { run } => next == (WorkflowState::DecodeRenderSpec { run }),
            WorkflowState::MarkScript { run } => if run.version.script_spec is Some {
                next == (WorkflowState::DecodeScript { run })
            } else {
                next == (WorkflowState::GenerateScript { run })
            },
            WorkflowState::MarkWaiting { run, script } => next == (WorkflowState::AwaitReview {
                run,
                script,
            }),
            WorkflowState::SaveReview { run, script, review } => if review.approved {
                next == (WorkflowState::MarkStoryboard { run, script })
            } else {
                next matches WorkflowState::FinishRejected { run: r, reason } && r == run && reason@
                    == rejection(review)
            },
            WorkflowState::FinishRejected { run, .. } => succeeded(
                next,
                run,
                "script_rejected"@,
                None,
            ),
            WorkflowState::MarkStoryboard { run, script } => next == (
            WorkflowState::GenerateStoryboard { run, script }),
            WorkflowState::MarkAssets { run, storyboard } => next == (WorkflowState::LoadScenes {
                run,
                storyboard,
            }),
            WorkflowState::MarkTimeline { run, generated } => {
                next matches WorkflowState::SaveRenderSpec { run: r, spec } && r == run
                    && is_render_spec(spec, run.project, run.version, generated@)
            },
            WorkflowState::SaveRenderSpec { run, spec } => next == (WorkflowState::MarkRendering {
                run,
                spec,
            }),
            WorkflowState::MarkRendering { run, spec } => next == (WorkflowState::RenderVideo {
                run,
                spec,
            }),
            WorkflowState::FinishCompleted { run, render_url } => succeeded(
                next,
                run,
                "completed"@,
                Some(render_url),
            ),
            WorkflowState::RecordFailure { failure, .. } => next == ended(failure),
            _ => false,
        }
    }

    fn written(self) -> (r: WorkflowState)
        requires
            self.admits(WorkflowEvent::Written(Ok(()))),
        ensures
            self.after_write(r),
    {
        match self {
            WorkflowState::MarkNew { project } => WorkflowState::CreateVersion { project },
            WorkflowState::AttachVersion { run, .. } => enter(run),
            WorkflowState::MarkRestored { run } => WorkflowState::DecodeRenderSpec { run },
            WorkflowState::MarkScript { run } => if run.version.script_spec.is_some() {
                WorkflowState::DecodeScript { run }
            } else {
                WorkflowState::GenerateScript { run }
            },
            WorkflowState::MarkWaiting { run, script } => WorkflowState::AwaitReview { run, script },
            WorkflowState::SaveReview { run, script, review } => {
                if review.approved {
                    WorkflowState::MarkStoryboard { run, script }
                } else {
                    let reason = match review.feedback {
                        Some(feedback) => feedback,
                        None => "脚本审核未通过".to_owned(),
                    };
                    WorkflowState::FinishRejected { run, reason }
                }
            },
            WorkflowState::FinishRejected { run, .. } => WorkflowState::Done {
                result: Ok(
                    WorkflowResult {
                        project_id: run.project.id,
                        version: run.version.version,
                        outcome: "script_rejected",
                        render_url: None,
                    },
                ),
            },
            WorkflowState::MarkStoryboard { run, script } => WorkflowState::GenerateStoryboard {
                run,
                script,
            },
            WorkflowState::MarkAssets { run, storyboard } => WorkflowState::LoadScenes {
                run,
                storyboard,
            },
            WorkflowState::MarkTimeline { run, generated } => {
                let spec = render_spec(&run.project, &run.version, generated);
                WorkflowState::SaveRenderSpec { run, spec }
            },
            WorkflowState::SaveRenderSpec { run, spec } => WorkflowState::MarkRendering { run, spec },
            WorkflowState::MarkRendering { run, spec } => WorkflowState::RenderVideo { run, spec },
            WorkflowState::FinishCompleted { run, render_url } => WorkflowState::Done {
                result: Ok(
                    WorkflowResult {
                        project_id: run.project.id,
                        version: run.version.version,
                        outcome: "completed",
                        render_url: Some(render_url),
                    },
                ),
            },
            WorkflowState::RecordFailure { failure, .. } => WorkflowState::Done {
                result: Err(failure),
            },
            other => other,
        }
    }

    /// Takes note of what the step to be done came to.
    pub fn step(self, workflow_id: Id, input: &WorkflowInput, event: WorkflowEvent) -> (r:
        WorkflowState)
        requires
            self.admits(event),
        ensures
            self.leads_to(workflow_id, *input, event, r),
    {
        match event {
            WorkflowEvent::Written(Err(error)) => WorkflowState::Done { result: Err(error) },
            WorkflowEvent::Written(Ok(())) => self.written(),
            WorkflowEvent::Project(Err(error)) => WorkflowState::Done { result: Err(error) },
            WorkflowEvent::Project(Ok(project)) => {
                match project.active_workflow_id {
                    Some(active) if active == workflow_id => WorkflowState::LoadJob { project },
                    _ => refuse(409, "工作流不是项目当前活动工作流"),
                }
            },
            WorkflowEvent::Job(Err(error)) => WorkflowState::Done { result: Err(error) },
            WorkflowEvent::Job(Ok(job)) => match self {
                WorkflowState::LoadJob { project } => {
                    if job.project_id != project.id || job.workflow_id != workflow_id {
                        return refuse(409, "生成任务与项目当前 Workflow 不匹配");
                    }
                    match input.resume_version_id {
                        Some(version_id) => {
                            match job.project_version_id {
                                Some(bound) if bound == version_id => WorkflowState::LoadVersion {
                                    project,
                                    version_id,
                                },
                                _ => refuse(409, "继续版本与生成任务绑定版本不一致"),
                            }
                        },
                        None => WorkflowState::MarkNew { project },
                    }
                },
                other => other,
            },
            WorkflowEvent::Version(Err(error)) => WorkflowState::Done { result: Err(error) },
            WorkflowEvent::Version(Ok(version)) => match self {
                WorkflowState::LoadVersion { project, .. } => {
                    if version.project_id != project.id || version.version
                        != project.current_version {
                        return refuse(409, "只能继续项目当前版本");
                    }
                    enter(Run { project, version })
                },
                other => other,
            },
            WorkflowEvent::Created(_, Err(error)) => WorkflowState::Done { result: Err(error) },
            WorkflowEvent::Created(version_id, Ok(version)) => match self {
                WorkflowState::CreateVersion { project } => WorkflowState::AttachVersion {
                    run: Run { project, version },
                    version_id,
                },
                other => other,
            },
            WorkflowEvent::RenderSpecDecoded(Err(reason)) => unreadable(
                "render_spec",
                reason.as_str(),
            ),
            WorkflowEvent::RenderSpecDecoded(Ok(spec)) => match self {
                WorkflowState::DecodeRenderSpec { run } => WorkflowState::MarkRendering { run, spec },
                other => other,
            },
            WorkflowEvent::StoryboardDecoded(Err(reason)) => unreadable(
                "storyboard_spec",
                reason.as_str(),
            ),
            WorkflowEvent::StoryboardDecoded(Ok(storyboard)) => match self {
                WorkflowState::DecodeStoryboard { run } => WorkflowState::MarkAssets {
                    run,
                    storyboard,
                },
                other => other,
            },
            WorkflowEvent::ScriptDecoded(Err(reason)) => unreadable("script_spec", reason.as_str()),
            WorkflowEvent::ScriptDecoded(Ok(script)) => match self {
                WorkflowState::DecodeScript { run } => go_on_with_script(run, script),
                other => other,
            },
            WorkflowEvent::Script(generated) => match self {
                WorkflowState::GenerateScript { run } => match generated {
                    Ok(script) => go_on_with_script(run, script),
                    Err(cause) => fail(run, Stage::Script, cause),
                },
                other => other,
            },
            WorkflowEvent::Review(Err(error)) => WorkflowState::Done { result: Err(error) },
            WorkflowEvent::Review(Ok(review)) => match self {
                WorkflowState::AwaitReview { run, script } => WorkflowState::SaveReview {
                    run,
                    script,
                    review,
                },
                other => other,
            },
            WorkflowEvent::Storyboard(generated) => match self {
                WorkflowState::GenerateStoryboard { run, .. } => match generated {
                    Ok(storyboard) => WorkflowState::MarkAssets { run, storyboard },
                    Err(cause) => fail(run, Stage::Storyboard, cause),
                },
                other => other,
            },
            WorkflowEvent::Scenes(Err(error)) => WorkflowState::Done { result: Err(error) },
            WorkflowEvent::Scenes(Ok(scenes)) => match self {
                WorkflowState::LoadScenes { run, storyboard } => WorkflowState::GenerateAssets {
                    run,
                    storyboard,
                    scenes,
                },
                other => other,
            },
            WorkflowEvent::Assets(assets) => match self {
                WorkflowState::GenerateAssets { run, .. } => match assets {
                    Ok(generated) => WorkflowState::MarkTimeline { run, generated },
                    Err(cause) => fail(run, Stage::Assets, cause),
                },
                other => other,
            },
            WorkflowEvent::Rendered(rendered) => match self {
                WorkflowState::RenderVideo { run, .. } => match rendered {
                    Ok(render_url) => WorkflowState::FinishCompleted { run, render_url },
                    Err(cause) => fail(run, Stage::Render, cause),
                },
                other => other,
            },
        }
    }
}

} // verus!
