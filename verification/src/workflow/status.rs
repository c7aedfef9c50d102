//! What a workflow writes about its progress, and how steps are retried.
use crate::db::{
    at_rest, JobUpdate, JobVersion, ProjectGuard, ProjectUpdate, Repository, ReviewUpdate,
    VersionColumn, VersionCreation, VersionUpdate, WorkflowChange,
};
use crate::domain::{Project, WorkflowInput};
use crate::ids::Id;
use crate::text::{decimal, decimal_u64};
use crate::workflow::laws::run_of;
use crate::workflow::{needs_review, Run, Stage, Terminal, WorkflowState};
use vstd::prelude::*;
use vstd::string::*;

verus! {

/// A write of the progress of a project and of the job that generates it, as one transaction.
#[derive(Clone, Debug)]
pub struct StatusWrite {
    pub project_id: Id,
    pub job_id: Id,
    pub workflow_id: Id,
    pub project_status: &'static str,
    pub job_status: &'static str,
    pub stage: &'static str,
    pub error_code: Option<String>,
    pub error_message: Option<String>,
    /// Whether the job can be continued.
    pub resumable: bool,
    /// Whether the workflow gives up the project.
    pub terminal: bool,
}

/// Whether `write` says that the project and the job are at `status`.
pub open spec fn progress(
    write: StatusWrite,
    project: Project,
    workflow_id: Id,
    input: WorkflowInput,
    status: Seq<char>,
) -> bool {
    &&& write.project_id == project.id
    &&& write.job_id == input.job_id
    &&& write.workflow_id == workflow_id
    &&& write.project_status@ == status
    &&& write.job_status@ == status
    &&& write.stage@ == status
    &&& write.error_code is None
    &&& write.error_message is None
    &&& !write.resumable
    &&& !write.terminal
}

/// Whether `write` closes a job that did not fail.
pub open spec fn finish(
    write: StatusWrite,
    project: Project,
    workflow_id: Id,
    input: WorkflowInput,
    statuses: (Seq<char>, Seq<char>, Seq<char>),
    error_message: Option<String>,
) -> bool {
    &&& write.project_id == project.id
    &&& write.job_id == input.job_id
    &&& write.workflow_id == workflow_id
    &&& (write.project_status@, write.job_status@, write.stage@) == statuses
    &&& write.error_code is None
    &&& write.error_message == error_message
    &&& !write.resumable
    &&& write.terminal
}

/// Whether `write` closes a job of which a stage failed.
pub open spec fn failure_of(
    write: StatusWrite,
    project_id: Id,
    workflow_id: Id,
    input: WorkflowInput,
    stage: Seq<char>,
    failure: Terminal,
) -> bool {
    &&& write.project_id == project_id
    &&& write.job_id == input.job_id
    &&& write.workflow_id == workflow_id
    &&& write.project_status@ == "failed"@
    &&& write.job_status@ == "failed"@
    &&& write.stage@ == stage
    &&& write.error_code is Some
    &&& write.error_code->0@ == decimal(failure.code as int)
    &&& write.error_message == Some(failure.message)
    &&& write.resumable
    &&& write.terminal
}

fn set_status(project: &Project, workflow_id: Id, input: &WorkflowInput, status: &'static str) -> (r:
    StatusWrite)
    ensures
        progress(r, *project, workflow_id, *input, status@),
{
    StatusWrite {
        project_id: project.id,
        job_id: input.job_id,
        workflow_id,
        project_status: status,
        job_status: status,
        stage: status,
        error_code: None,
        error_message: None,
        resumable: false,
        terminal: false,
    }
}

fn finish_workflow(
    project: &Project,
    workflow_id: Id,
    input: &WorkflowInput,
    project_status: &'static str,
    job_status: &'static str,
    stage: &'static str,
    error_message: Option<String>,
) -> (r: StatusWrite)
    ensures
        finish(
            r,
            *project,
            workflow_id,
            *input,
            (project_status@, job_status@, stage@),
            error_message,
        ),
{
    StatusWrite {
        project_id: project.id,
        job_id: input.job_id,
        workflow_id,
        project_status,
        job_status,
        stage,
        error_code: None,
        error_message,
        resumable: false,
        terminal: true,
    }
}

fn fail_workflow(
    project_id: Id,
    workflow_id: Id,
    input: &WorkflowInput,
    stage: &'static str,
    failure: &Terminal,
) -> (r: StatusWrite)
    ensures
        failure_of(r, project_id, workflow_id, *input, stage@, *failure),
{
    StatusWrite {
        project_id,
        job_id: input.job_id,
        workflow_id,
        project_status: "failed",
        job_status: "failed",
        stage,
        error_code: Some(decimal_u64(failure.code as u64)),
        error_message: Some(failure.message.clone()),
        resumable: true,
        terminal: true,
    }
}

impl WorkflowState {
    /// Whether `write` is what is to be written in this state, if anything of the progress is.
    pub open spec fn writes(
        self,
        workflow_id: Id,
        input: WorkflowInput,
        write: Option<StatusWrite>,
    ) -> bool {
        match self {
            WorkflowState::MarkNew { project } => write is Some && progress(
                write->0,
                project,
                workflow_id,
                input,
                "generating_script"@,
            ),
            WorkflowState::MarkScript { run } => write is Some && progress(
                write->0,
                run.project,
                workflow_id,
                input,
                "generating_script"@,
            ),
            WorkflowState::MarkWaiting { run, .. } => write is Some && progress(
                write->0,
                run.project,
                workflow_id,
                input,
                "waiting_script_review"@,
            ),
            WorkflowState::MarkStoryboard { run, .. } => write is Some && progress(
                write->0,
                run.project,
                workflow_id,
                input,
                "generating_storyboard"@,
            ),
            WorkflowState::MarkAssets { run, .. } => write is Some && progress(
                write->0,
                run.project,
                workflow_id,
                input,
                "generating_assets"@,
            ),
            WorkflowState::MarkRestored { run } => write is Some && progress(
                write->0,
                run.project,
                workflow_id,
                input,
                "building_timeline"@,
            ),
            WorkflowState::MarkTimeline { run, .. } => write is Some && progress(
                write->0,
                run.project,
                workflow_id,
                input,
                "building_timeline"@,
            ),
            WorkflowState::MarkRendering { run, .. } => write is Some && progress(
                write->0,
                run.project,
                workflow_id,
                input,
                "rendering"@,
            ),
            WorkflowState::FinishRejected { run, reason } => write is Some && finish(
                write->0,
                run.project,
                workflow_id,
                input,
                ("draft"@, "rejected"@, "script_review"@),
                Some(reason),
            ),
            WorkflowState::FinishCompleted { run, .. } => write is Some && finish(
                write->0,
                run.project,
                workflow_id,
                input,
                ("completed"@, "completed"@, "completed"@),
                None,
            ),
            WorkflowState::RecordFailure { project_id, stage, failure } => write is Some
                && failure_of(
                write->0,
                project_id,
                workflow_id,
                input,
                stage.recorded(),
                failure,
            ),
            _ => write is None,
        }
    }

    /// What is to be written of the progress in this state.
    pub fn status_write(&self, workflow_id: Id, input: &WorkflowInput) -> (r: Option<StatusWrite>)
        ensures
            self.writes(workflow_id, *input, r),
    {
        match self {
            WorkflowState::MarkNew { project } => Some(
                set_status(project, workflow_id, input, "generating_script"),
            ),
            WorkflowState::MarkScript { run } => Some(
                set_status(&run.project, workflow_id, input, "generating_script"),
            ),
            WorkflowState::MarkWaiting { run, .. } => Some(
                set_status(&run.project, workflow_id, input, "waiting_script_review"),
            ),
            WorkflowState::MarkStoryboard { run, .. } => Some(
                set_status(&run.project, workflow_id, input, "generating_storyboard"),
            ),
            WorkflowState::MarkAssets { run, .. } => Some(
                set_status(&run.project, workflow_id, input, "generating_assets"),
            ),
            WorkflowState::MarkRestored { run } => Some(
                set_status(&run.project, workflow_id, input, "building_timeline"),
            ),
            WorkflowState::MarkTimeline { run, .. } => Some(
                set_status(&run.project, workflow_id, input, "building_timeline"),
            ),
            WorkflowState::MarkRendering { run, .. } => Some(
                set_status(&run.project, workflow_id, input, "rendering"),
            ),
            WorkflowState::FinishRejected { run, reason } => Some(
                finish_workflow(
                    &run.project,
                    workflow_id,
                    input,
                    "draft",
                    "rejected",
                    "script_review",
                    Some(reason.clone()),
                ),
            ),
            WorkflowState::FinishCompleted { run, .. } => Some(
                finish_workflow(
                    &run.project,
                    workflow_id,
                    input,
                    "completed",
                    "completed",
                    "completed",
                    None,
                ),
            ),
            WorkflowState::RecordFailure { project_id, stage, failure } => Some(
                fail_workflow(*project_id, workflow_id, input, stage.name(), failure),
            ),
            _ => None,
        }
    }
}

/// Whether `update` is what `write` makes of the row of the project.
pub open spec fn is_project_update(update: ProjectUpdate, write: StatusWrite) -> bool {
    &&& update.project_id == write.project_id
    &&& update.guard == ProjectGuard::ActiveWorkflow(write.workflow_id)
    &&& update.status@ == write.project_status@
    &&& update.error_message == write.error_message
    &&& update.workflow == if write.terminal {
        WorkflowChange::Clear
    } else {
        WorkflowChange::Keep
    }
}

impl StatusWrite {
    /// The write of the row of the project. Like every write by a workflow it is bound to the
    /// workflow being the active one.
    pub fn project_update(&self) -> (r: ProjectUpdate)
        ensures
            is_project_update(r, *self),
    {
        ProjectUpdate {
            project_id: self.project_id,
            guard: ProjectGuard::ActiveWorkflow(self.workflow_id),
            status: self.project_status.to_owned(),
            error_message: match &self.error_message {
                Some(message) => Some(message.clone()),
                None => None,
            },
            workflow: if self.terminal {
                WorkflowChange::Clear
            } else {
                WorkflowChange::Keep
            },
        }
    }
}

impl StatusWrite {
    /// The write of the row of the job.
    pub fn job_update(&self) -> (r: JobUpdate)
        ensures
            r.job_id == self.job_id,
            r.status@ == self.job_status@,
            r.stage@ == self.stage@,
            r.error_code == self.error_code,
            r.error_message == self.error_message,
            r.resumable == self.resumable,
    {
        JobUpdate {
            job_id: self.job_id,
            status: self.job_status,
            stage: self.stage,
            error_code: match &self.error_code {
                Some(code) => Some(code.clone()),
                None => None,
            },
            error_message: match &self.error_message {
                Some(message) => Some(message.clone()),
                None => None,
            },
            resumable: self.resumable,
        }
    }
}

impl WorkflowState {
    /// The write that creates the next version of the project, where one is to be created and
    /// its number can be written.
    pub fn version_write(&self, input: &WorkflowInput, version_id: Id) -> (r: Option<
        VersionCreation,
    >)
        ensures
            match *self {
                WorkflowState::CreateVersion { project } => {
                    &&& r is Some <==> project.current_version < i32::MAX
                    &&& r is Some ==> r->0.id == version_id && r->0.project_id == input.project_id
                        && r->0.version == project.current_version + 1
                },
                _ => r is None,
            },
    {
        match self {
            WorkflowState::CreateVersion { project } => {
                if project.current_version == i32::MAX {
                    return None;
                }
                Some(
                    Repository::create_project_version(
                        input.project_id,
                        version_id,
                        next_version(project),
                    ),
                )
            },
            _ => None,
        }
    }

    /// The write that binds the job to its version, where it is to be bound.
    pub fn attach_write(&self, workflow_id: Id, input: &WorkflowInput) -> (r: Option<JobVersion>)
        ensures
            r == match *self {
                WorkflowState::AttachVersion { version_id, .. } => Some(
                    JobVersion { job_id: input.job_id, workflow_id, version_id },
                ),
                _ => None,
            },
    {
        match self {
            WorkflowState::AttachVersion { version_id, .. } => Some(
                JobVersion { job_id: input.job_id, workflow_id, version_id: *version_id },
            ),
            _ => None,
        }
    }

    /// The write of how the script was reviewed, where it was.
    pub fn review_write(&self) -> (r: Option<ReviewUpdate>)
        ensures
            match *self {
                WorkflowState::SaveReview { run, review, .. } => {
                    &&& r is Some
                    &&& r->0.version_id == run.version.id
                    &&& r->0.status@ == reviewed(review.approved)
                    &&& r->0.feedback == review.feedback
                },
                _ => r is None,
            },
    {
        match self {
            WorkflowState::SaveReview { run, review, .. } => Some(
                ReviewUpdate {
                    version_id: run.version.id,
                    status: review_status(review.approved),
                    feedback: match &review.feedback {
                        Some(feedback) => Some(feedback.clone()),
                        None => None,
                    },
                },
            ),
            _ => None,
        }
    }

    /// The write of the render specification, given as a JSON text, where it is to be saved.
    pub fn render_spec_write(&self, spec: String) -> (r: Option<VersionUpdate>)
        ensures
            r == match *self {
                WorkflowState::SaveRenderSpec { run, .. } => Some(
                    VersionUpdate {
                        version_id: run.version.id,
                        column: VersionColumn::Render,
                        value: spec,
                    },
                ),
                _ => None,
            },
    {
        match self {
            WorkflowState::SaveRenderSpec { run, .. } => Some(
                Repository::save_render_spec(run.version.id, spec),
            ),
            _ => None,
        }
    }
}

/// The number of the version that follows the current one.
pub fn next_version(project: &Project) -> (r: i32)
    requires
        project.current_version < i32::MAX,
    ensures
        r == project.current_version + 1,
{
    project.current_version + 1
}

/// The status of the script of a version that was reviewed.
pub open spec fn reviewed(approved: bool) -> Seq<char> {
    if approved {
        "approved"@
    } else {
        "rejected"@
    }
}

/// The status of the script of a version that was reviewed.
pub fn review_status(approved: bool) -> (r: &'static str)
    ensures
        r@ == reviewed(approved),
{
    if approved {
        "approved"
    } else {
        "rejected"
    }
}

/// How often and how long a step is tried again.
#[derive(Clone, Copy, Debug, PartialEq, Eq, Structural)]
pub struct RetryPolicy {
    pub initial_delay_ms: u64,
    /// By what the delay grows with each attempt.
    pub factor: u16,
    pub max_delay_ms: u64,
    pub max_attempts: u32,
    pub max_duration_ms: u64,
}

/// The policy for steps on the database.
pub fn database_retry() -> (r: RetryPolicy)
    ensures
        r == (RetryPolicy {
            initial_delay_ms: 200,
            factor: 2,
            max_delay_ms: 5_000,
            max_attempts: 8,
            max_duration_ms: 60_000,
        }),
{
    RetryPolicy {
        initial_delay_ms: 200,
        factor: 2,
        max_delay_ms: 5_000,
        max_attempts: 8,
        max_duration_ms: 60_000,
    }
}

/// The policy for steps that ask a model.
pub fn external_retry() -> (r: RetryPolicy)
    ensures
        r == (RetryPolicy {
            initial_delay_ms: 1_000,
            factor: 2,
            max_delay_ms: 30_000,
            max_attempts: 5,
            max_duration_ms: 1_200_000,
        }),
{
    RetryPolicy {
        initial_delay_ms: 1_000,
        factor: 2,
        max_delay_ms: 30_000,
        max_attempts: 5,
        max_duration_ms: 1_200_000,
    }
}

/// The policy for the rendering.
pub fn render_retry() -> (r: RetryPolicy)
    ensures
        r == (RetryPolicy {
            initial_delay_ms: 2_000,
            factor: 2,
            max_delay_ms: 60_000,
            max_attempts: 3,
            max_duration_ms: 2_700_000,
        }),
{
    RetryPolicy {
        initial_delay_ms: 2_000,
        factor: 2,
        max_delay_ms: 60_000,
        max_attempts: 3,
        max_duration_ms: 2_700_000,
    }
}

/// Every write of the progress is bound to the workflow that makes it, and brings the project
/// to rest if and only if the workflow gives the project up: a project is never open to a new
/// start while a workflow works on it, nor closed to one when none does.
pub proof fn law_progress_is_bound_to_its_workflow(
    state: WorkflowState,
    workflow_id: Id,
    input: WorkflowInput,
    write: StatusWrite,
    update: ProjectUpdate,
)
    requires
        state.writes(workflow_id, input, Some(write)),
        is_project_update(update, write),
    ensures
        update.guard == ProjectGuard::ActiveWorkflow(workflow_id),
        at_rest(update.status@) <==> update.workflow == WorkflowChange::Clear,
        !(update.workflow is Activate),
{
    reveal_strlit("generating_script");
    reveal_strlit("waiting_script_review");
    reveal_strlit("generating_storyboard");
    reveal_strlit("generating_assets");
    reveal_strlit("building_timeline");
    reveal_strlit("rendering");
    reveal_strlit("draft");
    reveal_strlit("failed");
    reveal_strlit("completed");
    assert("draft"@[0] == 'd' && "failed"@[0] == 'f' && "completed"@[0] == 'c');
    assert("generating_script"@[0] == 'g' && "waiting_script_review"@[0] == 'w'
        && "generating_storyboard"@[0] == 'g' && "generating_assets"@[0] == 'g'
        && "building_timeline"@[0] == 'b' && "rendering"@[0] == 'r');
}

/// A script that was approved need not be reviewed again when its version is continued; one
/// that was rejected has to be, where the project asks for reviews.
pub proof fn law_approval_lasts(run: Run, approved: bool)
    requires
        run.version.script_review_status@ == reviewed(approved),
    ensures
        needs_review(run) <==> run.project.require_script_review && !approved,
{
    reveal_strlit("approved");
    reveal_strlit("rejected");
    assert("approved"@[0] != "rejected"@[0]);
}

/// A job that is closed, because its video is there, its script was rejected or a stage of it
/// failed, leaves the project open to a new start, and closed to further writes of its
/// workflow.
pub proof fn law_closed_job_frees_the_project(
    state: WorkflowState,
    workflow_id: Id,
    input: WorkflowInput,
    write: StatusWrite,
    update: ProjectUpdate,
    row: Project,
    now: i64,
    next: ProjectUpdate,
)
    requires
        state is FinishRejected || state is FinishCompleted || state is RecordFailure,
        state.writes(workflow_id, input, Some(write)),
        is_project_update(update, write),
        update.applies_to(row),
        next.project_id == row.id,
    ensures
        update.effect(row, now).active_workflow_id is None,
        next.guard == ProjectGuard::AtRest ==> next.applies_to(update.effect(row, now)),
        next.guard == ProjectGuard::ActiveWorkflow(workflow_id) ==> !next.applies_to(
            update.effect(row, now),
        ),
{
}

/// Each state that marks progress writes its own status, to the project and to the job and as the
/// stage, and neither an error nor an end.
pub proof fn law_status_of_each_state(
    state: WorkflowState,
    workflow_id: Id,
    input: WorkflowInput,
    r: Option<StatusWrite>,
)
    requires
        call_ensures(WorkflowState::status_write, (&state, workflow_id, &input), r),
        state is MarkNew || state is MarkScript || state is MarkWaiting || state is MarkStoryboard
            || state is MarkAssets || state is MarkRestored || state is MarkTimeline
            || state is MarkRendering,
    ensures
        r is Some,
        state is MarkNew ==> r->0.project_status@ == "generating_script"@ && r->0.project_id
            == state->MarkNew_project.id,
        state is MarkScript ==> r->0.project_status@ == "generating_script"@,
        state is MarkWaiting ==> r->0.project_status@ == "waiting_script_review"@,
        state is MarkStoryboard ==> r->0.project_status@ == "generating_storyboard"@,
        state is MarkAssets ==> r->0.project_status@ == "generating_assets"@,
        state is MarkRestored ==> r->0.project_status@ == "building_timeline"@,
        state is MarkTimeline ==> r->0.project_status@ == "building_timeline"@,
        state is MarkRendering ==> r->0.project_status@ == "rendering"@,
        run_of(state) matches Some(run) ==> r->0.project_id == run.project.id,
        r->0.job_status@ == r->0.project_status@ && r->0.stage@ == r->0.project_status@,
        r->0.job_id == input.job_id && r->0.workflow_id == workflow_id,
        r->0.error_code is None && r->0.error_message is None,
        !r->0.resumable && !r->0.terminal,
{
}

/// A job is closed as it ended: with its video, with the reason for which its script was rejected,
/// or with the code and the text of what failed and the stage that did, and then it can be
/// continued. Every close gives the project up; no other state writes anything of the progress.
pub proof fn law_status_of_each_end(
    state: WorkflowState,
    workflow_id: Id,
    input: WorkflowInput,
    code: String,
    stage: &'static str,
    r: Option<StatusWrite>,
)
    requires
        call_ensures(WorkflowState::status_write, (&state, workflow_id, &input), r),
        state is RecordFailure ==> call_ensures(
            decimal_u64,
            (state->RecordFailure_failure.code as u64,),
            code,
        ) && call_ensures(Stage::name, (&state->RecordFailure_stage,), stage),
        !(state is MarkNew || state is MarkScript || state is MarkWaiting || state is MarkStoryboard
            || state is MarkAssets || state is MarkRestored || state is MarkTimeline
            || state is MarkRendering),
    ensures
        r is Some <==> state is FinishRejected || state is FinishCompleted || state
            is RecordFailure,
        r is Some ==> r->0.job_id == input.job_id && r->0.workflow_id == workflow_id
            && r->0.terminal && (r->0.resumable <==> state is RecordFailure),
        state is FinishRejected ==> {
            &&& r->0.project_id == run_of(state)->0.project.id
            &&& r->0.project_status@ == "draft"@
            &&& r->0.job_status@ == "rejected"@
            &&& r->0.stage@ == "script_review"@
            &&& r->0.error_code is None
            &&& r->0.error_message == Some(state->FinishRejected_reason)
        },
        state is FinishCompleted ==> {
            &&& r->0.project_id == run_of(state)->0.project.id
            &&& r->0.project_status@ == "completed"@
            &&& r->0.job_status@ == "completed"@
            &&& r->0.stage@ == "completed"@
            &&& r->0.error_code is None && r->0.error_message is None
        },
        state is RecordFailure ==> {
            &&& r->0.project_id == state->RecordFailure_project_id
            &&& r->0.project_status@ == "failed"@
            &&& r->0.job_status@ == "failed"@
            &&& r->0.stage@ == stage@
            &&& r->0.error_code is Some && r->0.error_code->0@ == code@
            &&& r->0.error_message == Some(state->RecordFailure_failure.message)
        },
{
}

/// The rows of the project and of the job take each what is written for them: the project its own
/// status and the error, under the guard of the workflow that writes, and the job its own status,
/// stage and error. The project loses its workflow exactly where that gives it up.
pub proof fn law_rows_of_a_status(write: StatusWrite, project: ProjectUpdate, job: JobUpdate)
    requires
        call_ensures(StatusWrite::project_update, (&write,), project),
        call_ensures(StatusWrite::job_update, (&write,), job),
    ensures
        project.project_id == write.project_id,
        project.guard == ProjectGuard::ActiveWorkflow(write.workflow_id),
        project.status@ == write.project_status@,
        project.error_message == write.error_message,
        write.terminal ==> project.workflow == WorkflowChange::Clear,
        !write.terminal ==> project.workflow == WorkflowChange::Keep,
        job.job_id == write.job_id,
        job.status@ == write.job_status@,
        job.stage@ == write.stage@,
        job.error_code == write.error_code,
        job.error_message == write.error_message,
        job.resumable == write.resumable,
{
}

/// A version is created, bound, reviewed and given its render specification by the state that does
/// so and by no other; each write names its own version, job and workflow, and holds what it was
/// given.
pub proof fn law_writes_of_a_version(
    state: WorkflowState,
    workflow_id: Id,
    input: WorkflowInput,
    version_id: Id,
    text: String,
    created: Option<VersionCreation>,
    attached: Option<JobVersion>,
    review: Option<ReviewUpdate>,
    spec: Option<VersionUpdate>,
)
    requires
        call_ensures(WorkflowState::version_write, (&state, &input, version_id), created),
        call_ensures(WorkflowState::attach_write, (&state, workflow_id, &input), attached),
        call_ensures(WorkflowState::review_write, (&state,), review),
        call_ensures(WorkflowState::render_spec_write, (&state, text), spec),
    ensures
        created is Some <==> state is CreateVersion
            && state->CreateVersion_project.current_version < i32::MAX,
        created is Some ==> created->0.id == version_id && created->0.project_id
            == input.project_id && created->0.version
            == state->CreateVersion_project.current_version + 1,
        attached is Some <==> state is AttachVersion,
        attached is Some ==> attached->0.job_id == input.job_id && attached->0.workflow_id
            == workflow_id && attached->0.version_id == state->AttachVersion_version_id,
        review is Some <==> state is SaveReview,
        review is Some ==> {
            &&& review->0.version_id == run_of(state)->0.version.id
            &&& review->0.feedback == state->SaveReview_review.feedback
            &&& state->SaveReview_review.approved ==> review->0.status@ == "approved"@
            &&& !state->SaveReview_review.approved ==> review->0.status@ == "rejected"@
        },
        spec is Some <==> state is SaveRenderSpec,
        spec is Some ==> spec->0.version_id == run_of(state)->0.version.id && spec->0.column
            == VersionColumn::Render && spec->0.value == text,
{
}

/// The version after the current one has the next number, and a review is recorded as what it came
/// to.
pub proof fn law_next_version_and_review(
    project: Project,
    version: i32,
    approved: bool,
    status: &'static str,
)
    requires
        project.current_version < i32::MAX,
        call_ensures(next_version, (&project,), version),
        call_ensures(review_status, (approved,), status),
    ensures
        version - 1 == project.current_version,
        approved ==> status@ == "approved"@,
        !approved ==> status@ == "rejected"@,
{
}

/// Steps are tried again at twice the delay each time. A step on the database is tried sooner and
/// more often than one that asks a model, and that sooner and more often than a rendering, which
/// is given the longest; none waits longer than it is tried, and each is tried more than once.
pub proof fn law_patience_of_steps(database: RetryPolicy, model: RetryPolicy, render: RetryPolicy)
    requires
        call_ensures(database_retry, (), database),
        call_ensures(external_retry, (), model),
        call_ensures(render_retry, (), render),
    ensures
        database.factor == 2 && model.factor == 2 && render.factor == 2,
        database.initial_delay_ms == 200,
        model.initial_delay_ms == 1_000,
        render.initial_delay_ms == 2_000,
        database.max_delay_ms == 5_000,
        model.max_delay_ms == 30_000,
        render.max_delay_ms == 60_000,
        database.max_attempts == 8 && model.max_attempts == 5 && render.max_attempts == 3,
        database.max_duration_ms == 60 * 1_000,
        model.max_duration_ms == 20 * 60 * 1_000,
        render.max_duration_ms == 45 * 60 * 1_000,
{
}

} // verus!
