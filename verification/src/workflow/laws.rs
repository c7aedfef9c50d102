//! What holds of every course of a workflow.
use crate::db::{
    ProjectGuard, ProjectUpdate, SceneRecord, VersionColumn, VersionUpdate, WorkflowChange,
};
use crate::domain::{
    GenerationJob, Project, ProjectVersion, RenderSpec, ScriptReviewInput, ScriptSpec,
    StoryboardSpec, WorkflowInput,
};
use crate::ids::Id;
use crate::pipeline::timeline::{timeline_fits, GeneratedScene};
use crate::text::decimal_u64;
use crate::workflow::{
    ended, entry, needs_review, shown, succeeded, workflow_id_of, Run, Stage, Terminal,
    WorkflowEvent, WorkflowState,
};
use vstd::prelude::*;

verus! {

/// Whether `states` is a course of the workflow, from each state to the next by an event.
pub open spec fn course(
    workflow_id: Id,
    input: WorkflowInput,
    states: Seq<WorkflowState>,
    events: Seq<WorkflowEvent>,
) -> bool {
    &&& states.len() == events.len() + 1
    &&& forall|i: int|
        #![trigger events[i]]
        0 <= i < events.len() ==> states[i].admits(events[i]) && states[i].leads_to(
            workflow_id,
            input,
            events[i],
            states[i + 1],
        )
}

/// Whether what was to be written is written.
pub open spec fn written(event: WorkflowEvent) -> bool {
    event is Written && event->Written_0 is Ok
}

/// How far a state is on the way through the workflow.
pub open spec fn rank(state: WorkflowState) -> int {
    match state {
        WorkflowState::LoadProject => 0,
        WorkflowState::LoadJob { .. } => 1,
        WorkflowState::LoadVersion { .. } => 2,
        WorkflowState::MarkNew { .. } => 2,
        WorkflowState::CreateVersion { .. } => 3,
        WorkflowState::AttachVersion { .. } => 4,
        WorkflowState::MarkScript { .. } => 5,
        WorkflowState::DecodeScript { .. } => 6,
        WorkflowState::GenerateScript { .. } => 6,
        WorkflowState::MarkWaiting { .. } => 7,
        WorkflowState::AwaitReview { .. } => 8,
        WorkflowState::SaveReview { .. } => 9,
        WorkflowState::MarkStoryboard { .. } => 10,
        WorkflowState::GenerateStoryboard { .. } => 11,
        WorkflowState::DecodeStoryboard { .. } => 11,
        WorkflowState::MarkAssets { .. } => 12,
        WorkflowState::LoadScenes { .. } => 13,
        WorkflowState::GenerateAssets { .. } => 14,
        WorkflowState::MarkTimeline { .. } => 15,
        WorkflowState::SaveRenderSpec { .. } => 16,
        WorkflowState::MarkRestored { .. } => 15,
        WorkflowState::DecodeRenderSpec { .. } => 16,
        WorkflowState::MarkRendering { .. } => 17,
        WorkflowState::RenderVideo { .. } => 18,
        WorkflowState::FinishRejected { .. } => 19,
        WorkflowState::FinishCompleted { .. } => 19,
        WorkflowState::RecordFailure { .. } => 19,
        WorkflowState::Done { .. } => 20,
    }
}

/// Whatever its steps come to, a workflow never comes back to where it was, and ends after
/// twenty steps at the latest.
pub proof fn law_workflow_ends(
    workflow_id: Id,
    input: WorkflowInput,
    states: Seq<WorkflowState>,
    events: Seq<WorkflowEvent>,
)
    requires
        course(workflow_id, input, states, events),
    ensures
        events.len() <= 20,
        forall|i: int, j: int|
            #![trigger states[i], states[j]]
            0 <= i < j < states.len() ==> rank(states[i]) < rank(states[j]),
{
    assert forall|i: int, j: int|
        #![trigger states[i], states[j]]
        0 <= i < j < states.len() implies rank(states[i]) < rank(states[j]) by {
        lemma_rank_grows(workflow_id, input, states, events, i, j);
    }
    if events.len() > 0 {
        lemma_rank_grows(workflow_id, input, states, events, 0, states.len() - 1);
    }
}

proof fn lemma_rank_grows(
    workflow_id: Id,
    input: WorkflowInput,
    states: Seq<WorkflowState>,
    events: Seq<WorkflowEvent>,
    i: int,
    j: int,
)
    requires
        course(workflow_id, input, states, events),
        0 <= i < j < states.len(),
    ensures
        rank(states[i]) + (j - i) <= rank(states[j]),
    decreases j - i,
{
    let event = events[j - 1];
    assert(rank(states[j - 1]) < rank(states[j]));
    if i < j - 1 {
        lemma_rank_grows(workflow_id, input, states, events, i, j - 1);
    }
}

/// The project and the version of a state, once they are known and while they are needed.
pub open spec fn run_of(state: WorkflowState) -> Option<Run> {
    match state {
        WorkflowState::AttachVersion { run, .. } => Some(run),
        WorkflowState::MarkRestored { run } => Some(run),
        WorkflowState::DecodeRenderSpec { run } => Some(run),
        WorkflowState::DecodeStoryboard { run } => Some(run),
        WorkflowState::MarkScript { run } => Some(run),
        WorkflowState::DecodeScript { run } => Some(run),
        WorkflowState::GenerateScript { run } => Some(run),
        WorkflowState::MarkWaiting { run, .. } => Some(run),
        WorkflowState::AwaitReview { run, .. } => Some(run),
        WorkflowState::SaveReview { run, .. } => Some(run),
        WorkflowState::FinishRejected { run, .. } => Some(run),
        WorkflowState::MarkStoryboard { run, .. } => Some(run),
        WorkflowState::GenerateStoryboard { run, .. } => Some(run),
        WorkflowState::MarkAssets { run, .. } => Some(run),
        WorkflowState::LoadScenes { run, .. } => Some(run),
        WorkflowState::GenerateAssets { run, .. } => Some(run),
        WorkflowState::MarkTimeline { run, .. } => Some(run),
        WorkflowState::SaveRenderSpec { run, .. } => Some(run),
        WorkflowState::MarkRendering { run, .. } => Some(run),
        WorkflowState::RenderVideo { run, .. } => Some(run),
        WorkflowState::FinishCompleted { run, .. } => Some(run),
        _ => None,
    }
}

/// Whether the workflow is the active one of the project of a state, where it has one.
pub open spec fn bound_to(state: WorkflowState, workflow_id: Id) -> bool {
    match state {
        WorkflowState::LoadJob { project } => project.active_workflow_id == Some(workflow_id),
        WorkflowState::LoadVersion { project, .. } => project.active_workflow_id == Some(
            workflow_id,
        ),
        WorkflowState::MarkNew { project } => project.active_workflow_id == Some(workflow_id),
        WorkflowState::CreateVersion { project } => project.active_workflow_id == Some(workflow_id),
        _ => run_of(state) matches Some(run) ==> run.project.active_workflow_id == Some(
            workflow_id,
        ),
    }
}

/// A workflow does nothing on a project, beyond loading it, of which it is not the active one.
pub proof fn law_only_the_active_workflow_works(
    workflow_id: Id,
    input: WorkflowInput,
    states: Seq<WorkflowState>,
    events: Seq<WorkflowEvent>,
    i: int,
)
    requires
        course(workflow_id, input, states, events),
        states[0] == WorkflowState::LoadProject,
        0 <= i < states.len(),
    ensures
        bound_to(states[i], workflow_id),
    decreases i,
{
    if i > 0 {
        law_only_the_active_workflow_works(workflow_id, input, states, events, i - 1);
        let event = events[i - 1];
    }
}

/// The stages of the generation that a checkpoint of a version spares.
pub open spec fn spared(run: Run, state: WorkflowState) -> bool {
    ||| run.version.render_spec is Some && (state is GenerateScript || state is AwaitReview
        || state is GenerateStoryboard || state is GenerateAssets)
    ||| run.version.storyboard_spec is Some && (state is GenerateScript || state is AwaitReview
        || state is GenerateStoryboard)
    ||| run.version.script_spec is Some && state is GenerateScript
    ||| run.version.script_review_status@ == "approved"@ && state is AwaitReview
}

/// A workflow that continues a version repeats nothing that a checkpoint of it spares.
pub proof fn law_checkpoints_spare_stages(
    workflow_id: Id,
    input: WorkflowInput,
    run: Run,
    states: Seq<WorkflowState>,
    events: Seq<WorkflowEvent>,
    i: int,
)
    requires
        course(workflow_id, input, states, events),
        states[0] == entry(run),
        0 <= i < states.len(),
    ensures
        !spared(run, states[i]),
        run_of(states[i]) matches Some(r) ==> r == run,
{
    lemma_on_the_way(workflow_id, input, run, states, events, i);
}

/// The states that a run can be in, given its checkpoints.
spec fn on_the_way(run: Run, state: WorkflowState) -> bool {
    &&& run_of(state) matches Some(r) ==> r == run
    &&& rank(state) >= rank(entry(run))
    &&& state is GenerateScript ==> run.version.script_spec is None
    &&& state is MarkWaiting || state is AwaitReview || state is SaveReview ==> needs_review(run)
    &&& !(state is AttachVersion)
    &&& run.version.render_spec is Some ==> !(state is MarkTimeline || state is SaveRenderSpec)
    &&& run.version.storyboard_spec is Some ==> !(state is GenerateStoryboard)
}

proof fn lemma_on_the_way(
    workflow_id: Id,
    input: WorkflowInput,
    run: Run,
    states: Seq<WorkflowState>,
    events: Seq<WorkflowEvent>,
    i: int,
)
    requires
        course(workflow_id, input, states, events),
        states[0] == entry(run),
        0 <= i < states.len(),
    ensures
        on_the_way(run, states[i]),
    decreases i,
{
    if i > 0 {
        lemma_on_the_way(workflow_id, input, run, states, events, i - 1);
        let event = events[i - 1];
        assert(rank(states[i - 1]) < rank(states[i]));
    }
}

/// Whether `event` is the approval of a script.
pub open spec fn approval(event: WorkflowEvent) -> bool {
    event matches WorkflowEvent::Review(Ok(review)) && review.approved
}

/// Where the script of a version has to be reviewed, no storyboard is generated, nor anything
/// that follows, before the script was approved.
pub proof fn law_nothing_follows_an_unapproved_script(
    workflow_id: Id,
    input: WorkflowInput,
    run: Run,
    states: Seq<WorkflowState>,
    events: Seq<WorkflowEvent>,
    i: int,
)
    requires
        course(workflow_id, input, states, events),
        states[0] == entry(run),
        run.version.render_spec is None,
        run.version.storyboard_spec is None,
        needs_review(run),
        0 <= i < states.len(),
        states[i] is GenerateStoryboard || states[i] is GenerateAssets || states[i] is RenderVideo
            || states[i] is FinishCompleted,
    ensures
        exists|j: int| 0 <= j < i && #[trigger] approval(events[j]),
{
    lemma_reviewed(workflow_id, input, run, states, events, i);
}

spec fn before_review(state: WorkflowState) -> bool {
    match state {
        WorkflowState::MarkScript { .. } => true,
        WorkflowState::DecodeScript { .. } => true,
        WorkflowState::GenerateScript { .. } => true,
        WorkflowState::MarkWaiting { .. } => true,
        WorkflowState::AwaitReview { .. } => true,
        WorkflowState::SaveReview { review, .. } => !review.approved,
        WorkflowState::FinishRejected { .. } => true,
        WorkflowState::RecordFailure { .. } => true,
        WorkflowState::Done { .. } => true,
        _ => false,
    }
}

proof fn lemma_reviewed(
    workflow_id: Id,
    input: WorkflowInput,
    run: Run,
    states: Seq<WorkflowState>,
    events: Seq<WorkflowEvent>,
    i: int,
)
    requires
        course(workflow_id, input, states, events),
        states[0] == entry(run),
        run.version.render_spec is None,
        run.version.storyboard_spec is None,
        needs_review(run),
        0 <= i < states.len(),
    ensures
        before_review(states[i]) || exists|j: int| 0 <= j < i && #[trigger] approval(events[j]),
    decreases i,
{
    if i > 0 {
        lemma_reviewed(workflow_id, input, run, states, events, i - 1);
        lemma_on_the_way(workflow_id, input, run, states, events, i - 1);
        let event = events[i - 1];
        if before_review(states[i - 1]) && !before_review(states[i]) {
            assert(approval(events[i - 1]));
        }
    }
}

/// A script that is rejected ends the workflow without an error, without a video, and with the
/// reason on record; a new version can be started.
pub proof fn law_rejection_ends_without_video(
    workflow_id: Id,
    input: WorkflowInput,
    states: Seq<WorkflowState>,
    events: Seq<WorkflowEvent>,
)
    requires
        course(workflow_id, input, states, events),
        events.len() == 2,
        states[0] matches WorkflowState::SaveReview { review, .. } && !review.approved,
        written(events[0]),
        written(events[1]),
    ensures
        states[1] is FinishRejected,
        succeeded(states[2], run_of(states[0])->0, "script_rejected"@, None),
{
    let first = events[0];
    let second = events[1];
}

/// A stage that fails is recorded before the workflow ends, and the workflow ends with the code
/// of the failure. Where the record cannot be written, it ends with why.
pub proof fn law_failed_stage_is_recorded(
    workflow_id: Id,
    input: WorkflowInput,
    run: Run,
    cause: Terminal,
    states: Seq<WorkflowState>,
    events: Seq<WorkflowEvent>,
)
    requires
        course(workflow_id, input, states, events),
        events.len() == 2,
        run_of(states[0]) == Some(run),
        ({
            ||| events[0] == WorkflowEvent::Script(Err(cause))
            ||| events[0] == WorkflowEvent::Storyboard(Err(cause))
            ||| events[0] == WorkflowEvent::Assets(Err(cause))
            ||| events[0] == WorkflowEvent::Rendered(Err(cause))
        }),
    ensures
        states[1] matches WorkflowState::RecordFailure { project_id, failure, .. } && project_id
            == run.project.id && failure.code == cause.code && failure.message@ == shown(cause),
        written(events[1]) ==> states[2] == ended(states[1]->failure),
        forall|error: Terminal|
            events[1] == WorkflowEvent::Written(Err(error)) ==> states[2] == #[trigger] ended(error),
{
    let first = events[0];
    let second = events[1];
}

/// A workflow reports a completed video only behind the write that closes its job as completed,
/// and with the address that the rendering came to.
pub proof fn law_completion_names_the_video(
    workflow_id: Id,
    input: WorkflowInput,
    states: Seq<WorkflowState>,
    events: Seq<WorkflowEvent>,
)
    requires
        course(workflow_id, input, states, events),
        events.len() > 0,
        states.last() matches WorkflowState::Done { result } && result is Ok && result->Ok_0.outcome@
            == "completed"@,
    ensures
        written(events.last()),
        states[states.len() - 2] matches WorkflowState::FinishCompleted { render_url, .. }
            && states.last()->result->Ok_0.render_url == Some(render_url),
{
    reveal_strlit("completed");
    reveal_strlit("script_rejected");
    assert("completed"@.len() != "script_rejected"@.len());
    let last = events[events.len() - 1];
}

/// A render specification that was saved is what a workflow that continues the version starts
/// from; so is a storyboard, where no render specification was saved.
pub proof fn law_saved_checkpoint_is_the_start(
    project: Project,
    row: ProjectVersion,
    update: VersionUpdate,
    now: i64,
)
    requires
        update.version_id == row.id,
    ensures
        update.column == VersionColumn::Render ==> {
            let version = update.effect(row, now);
            &&& version.render_spec == Some(update.value)
            &&& entry(Run { project, version }) is MarkRestored
        },
        update.column == VersionColumn::Storyboard && row.render_spec is None ==> {
            let version = update.effect(row, now);
            &&& version.storyboard_spec == Some(update.value)
            &&& entry(Run { project, version }) is DecodeStoryboard
        },
{
}

/// A workflow for which a project was queued finds itself the active one when it starts, and
/// a workflow that was active before does not.
pub proof fn law_queued_workflow_is_let_in(
    row: Project,
    update: ProjectUpdate,
    workflow_id: Id,
    other: Id,
    input: WorkflowInput,
    now: i64,
    next: WorkflowState,
)
    requires
        update.guard == ProjectGuard::AtRest,
        update.workflow == WorkflowChange::Activate(workflow_id),
        update.applies_to(row),
    ensures
        ({
            let loaded = WorkflowEvent::Project(Ok(update.effect(row, now)));
            &&& WorkflowState::LoadProject.leads_to(workflow_id, input, loaded, next)
                ==> next is LoadJob
            &&& other != workflow_id && WorkflowState::LoadProject.leads_to(
                other,
                input,
                loaded,
                next,
            ) ==> next is Done && next->result is Err && next->result->Err_0.code == 409
        }),
{
}

/// Whether a call of `step` can take the workflow from `state` to `next`.
pub open spec fn steps_to(
    state: WorkflowState,
    workflow_id: Id,
    input: WorkflowInput,
    event: WorkflowEvent,
    next: WorkflowState,
) -> bool {
    call_ensures(WorkflowState::step, (state, workflow_id, &input, event), next)
}

/// A workflow goes on from its project to its job exactly where it is the active workflow of the
/// project; else it ends with a conflict.
pub proof fn law_project_that_is_loaded(
    workflow_id: Id,
    input: WorkflowInput,
    project: Project,
    next: WorkflowState,
)
    requires
        steps_to(
            WorkflowState::LoadProject,
            workflow_id,
            input,
            WorkflowEvent::Project(Ok(project)),
            next,
        ),
    ensures
        project.active_workflow_id == Some(workflow_id) ==> next == (WorkflowState::LoadJob {
            project,
        }),
        project.active_workflow_id != Some(workflow_id) ==> {
            &&& next is Done && next->result is Err
            &&& next->result->Err_0.code == 409
            &&& next->result->Err_0.message@ == "工作流不是项目当前活动工作流"@
        },
{
}

/// The job has to be the one of the project and of the workflow and, where a version is continued,
/// to be bound to it; a workflow that continues none marks that a new one begins.
pub proof fn law_job_that_is_loaded(
    workflow_id: Id,
    input: WorkflowInput,
    project: Project,
    job: GenerationJob,
    next: WorkflowState,
)
    requires
        steps_to(
            WorkflowState::LoadJob { project },
            workflow_id,
            input,
            WorkflowEvent::Job(Ok(job)),
            next,
        ),
    ensures
        ({
            let own = job.project_id == project.id && job.workflow_id == workflow_id;
            &&& own && input.resume_version_id is None ==> next == (WorkflowState::MarkNew {
                project,
            })
            &&& own && input.resume_version_id is Some && job.project_version_id
                == input.resume_version_id ==> next == (WorkflowState::LoadVersion {
                project,
                version_id: input.resume_version_id->0,
            })
            &&& !own || (input.resume_version_id is Some && job.project_version_id
                != input.resume_version_id) ==> next is Done && next->result is Err
                && next->result->Err_0.code == 409
            &&& !own ==> next->result->Err_0.message@ == "生成任务与项目当前 Workflow 不匹配"@
            &&& own && input.resume_version_id is Some && job.project_version_id
                != input.resume_version_id ==> next->result->Err_0.message@
                == "继续版本与生成任务绑定版本不一致"@
        }),
{
}

/// A version is continued exactly where it is the current one of the project.
pub proof fn law_version_that_is_loaded(
    workflow_id: Id,
    input: WorkflowInput,
    project: Project,
    version_id: Id,
    version: ProjectVersion,
    next: WorkflowState,
)
    requires
        steps_to(
            WorkflowState::LoadVersion { project, version_id },
            workflow_id,
            input,
            WorkflowEvent::Version(Ok(version)),
            next,
        ),
    ensures
        version.project_id == project.id && version.version == project.current_version ==> {
            &&& next is MarkRestored <==> version.render_spec is Some
            &&& next is DecodeStoryboard <==> version.render_spec is None
                && version.storyboard_spec is Some
            &&& next is MarkScript <==> version.render_spec is None && version.storyboard_spec
                is None
            &&& run_of(next) == Some(Run { project, version })
        },
        version.project_id != project.id || version.version != project.current_version ==> {
            &&& next is Done && next->result is Err
            &&& next->result->Err_0.code == 409
            &&& next->result->Err_0.message@ == "只能继续项目当前版本"@
        },
{
}

/// A new version is created behind the mark that it begins, and bound to the job under the
/// identifier that was drawn for it; then the workflow enters it where its checkpoints let it.
pub proof fn law_version_that_is_created(
    workflow_id: Id,
    input: WorkflowInput,
    project: Project,
    version_id: Id,
    version: ProjectVersion,
    creating: WorkflowState,
    attaching: WorkflowState,
    entered: WorkflowState,
)
    requires
        steps_to(
            WorkflowState::MarkNew { project },
            workflow_id,
            input,
            WorkflowEvent::Written(Ok(())),
            creating,
        ),
        steps_to(
            WorkflowState::CreateVersion { project },
            workflow_id,
            input,
            WorkflowEvent::Created(version_id, Ok(version)),
            attaching,
        ),
        steps_to(
            WorkflowState::AttachVersion { run: Run { project, version }, version_id },
            workflow_id,
            input,
            WorkflowEvent::Written(Ok(())),
            entered,
        ),
    ensures
        creating == (WorkflowState::CreateVersion { project }),
        attaching == (WorkflowState::AttachVersion { run: Run { project, version }, version_id }),
        entered is MarkRestored <==> version.render_spec is Some,
        entered is DecodeStoryboard <==> version.render_spec is None && version.storyboard_spec
            is Some,
        entered is MarkScript <==> version.render_spec is None && version.storyboard_spec is None,
        run_of(entered) == Some(Run { project, version }),
{
}

/// A script is read where one was kept, and else generated. It then waits for a review exactly
/// where the project asks for reviews and the script of the version is not approved.
pub proof fn law_script_of_a_run(
    workflow_id: Id,
    input: WorkflowInput,
    run: Run,
    script: ScriptSpec,
    begun: WorkflowState,
    read: WorkflowState,
    generated: WorkflowState,
)
    requires
        steps_to(
            WorkflowState::MarkScript { run },
            workflow_id,
            input,
            WorkflowEvent::Written(Ok(())),
            begun,
        ),
        steps_to(
            WorkflowState::DecodeScript { run },
            workflow_id,
            input,
            WorkflowEvent::ScriptDecoded(Ok(script)),
            read,
        ),
        steps_to(
            WorkflowState::GenerateScript { run },
            workflow_id,
            input,
            WorkflowEvent::Script(Ok(script)),
            generated,
        ),
    ensures
        run.version.script_spec is Some ==> begun == (WorkflowState::DecodeScript { run }),
        run.version.script_spec is None ==> begun == (WorkflowState::GenerateScript { run }),
        run.project.require_script_review && run.version.script_review_status@ != "approved"@ ==> {
            &&& read == (WorkflowState::MarkWaiting { run, script })
            &&& generated == (WorkflowState::MarkWaiting { run, script })
        },
        !run.project.require_script_review || run.version.script_review_status@ == "approved"@
            ==> {
            &&& read == (WorkflowState::MarkStoryboard { run, script })
            &&& generated == (WorkflowState::MarkStoryboard { run, script })
        },
{
}

/// A script that waits is reviewed once, the review is saved as it came, and goes on exactly where
/// it approves; else the workflow closes with the feedback, or a text of its own where there is
/// none, and reports the rejection.
pub proof fn law_review_of_a_run(
    workflow_id: Id,
    input: WorkflowInput,
    run: Run,
    script: ScriptSpec,
    review: ScriptReviewInput,
    waiting: WorkflowState,
    saving: WorkflowState,
    saved: WorkflowState,
    reason: String,
    closed: WorkflowState,
)
    requires
        steps_to(
            WorkflowState::MarkWaiting { run, script },
            workflow_id,
            input,
            WorkflowEvent::Written(Ok(())),
            waiting,
        ),
        steps_to(
            WorkflowState::AwaitReview { run, script },
            workflow_id,
            input,
            WorkflowEvent::Review(Ok(review)),
            saving,
        ),
        steps_to(
            WorkflowState::SaveReview { run, script, review },
            workflow_id,
            input,
            WorkflowEvent::Written(Ok(())),
            saved,
        ),
        steps_to(
            WorkflowState::FinishRejected { run, reason },
            workflow_id,
            input,
            WorkflowEvent::Written(Ok(())),
            closed,
        ),
    ensures
        waiting == (WorkflowState::AwaitReview { run, script }),
        saving == (WorkflowState::SaveReview { run, script, review }),
        review.approved ==> saved == (WorkflowState::MarkStoryboard { run, script }),
        !review.approved ==> {
            &&& saved is FinishRejected && run_of(saved) == Some(run)
            &&& review.feedback is Some ==> saved->FinishRejected_reason@ == review.feedback->0@
            &&& review.feedback is None ==> saved->FinishRejected_reason@ == "脚本审核未通过"@
        },
        closed is Done && closed->result is Ok,
        closed->result->Ok_0.project_id == run.project.id,
        closed->result->Ok_0.version == run.version.version,
        closed->result->Ok_0.outcome@ == "script_rejected"@,
        closed->result->Ok_0.render_url is None,
{
}

/// The storyboard is generated from the script of the run or read where it was kept, and the assets
/// are those of its scenes.
pub proof fn law_storyboard_and_assets_of_a_run(
    workflow_id: Id,
    input: WorkflowInput,
    run: Run,
    script: ScriptSpec,
    storyboard: StoryboardSpec,
    scenes: Vec<SceneRecord>,
    generated: Vec<GeneratedScene>,
    states: Seq<WorkflowState>,
)
    requires
        states.len() == 6,
        steps_to(
            WorkflowState::MarkStoryboard { run, script },
            workflow_id,
            input,
            WorkflowEvent::Written(Ok(())),
            states[0],
        ),
        steps_to(
            WorkflowState::GenerateStoryboard { run, script },
            workflow_id,
            input,
            WorkflowEvent::Storyboard(Ok(storyboard)),
            states[1],
        ),
        steps_to(
            WorkflowState::DecodeStoryboard { run },
            workflow_id,
            input,
            WorkflowEvent::StoryboardDecoded(Ok(storyboard)),
            states[2],
        ),
        steps_to(
            WorkflowState::MarkAssets { run, storyboard },
            workflow_id,
            input,
            WorkflowEvent::Written(Ok(())),
            states[3],
        ),
        steps_to(
            WorkflowState::LoadScenes { run, storyboard },
            workflow_id,
            input,
            WorkflowEvent::Scenes(Ok(scenes)),
            states[4],
        ),
        steps_to(
            WorkflowState::GenerateAssets { run, storyboard, scenes },
            workflow_id,
            input,
            WorkflowEvent::Assets(Ok(generated)),
            states[5],
        ),
    ensures
        states[0] == (WorkflowState::GenerateStoryboard { run, script }),
        states[1] == (WorkflowState::MarkAssets { run, storyboard }),
        states[2] == (WorkflowState::MarkAssets { run, storyboard }),
        states[3] == (WorkflowState::LoadScenes { run, storyboard }),
        states[4] == (WorkflowState::GenerateAssets { run, storyboard, scenes }),
        states[5] == (WorkflowState::MarkTimeline { run, generated }),
{
}

/// The render specification that is saved is of the project, the version and the scenes that were
/// generated, in their order and with all that they hold.
pub proof fn law_render_spec_of_a_run(
    workflow_id: Id,
    input: WorkflowInput,
    run: Run,
    generated: Vec<GeneratedScene>,
    next: WorkflowState,
)
    requires
        timeline_fits(generated@),
        steps_to(
            WorkflowState::MarkTimeline { run, generated },
            workflow_id,
            input,
            WorkflowEvent::Written(Ok(())),
            next,
        ),
    ensures
        next is SaveRenderSpec && run_of(next) == Some(run),
        ({
            let spec = next->SaveRenderSpec_spec;
            &&& spec.project_id == run.project.id
            &&& spec.version == run.version.version
            &&& spec.scenes@.len() == generated@.len()
            &&& forall|i: int|
                #![trigger spec.scenes@[i]]
                #![trigger generated@[i]]
                0 <= i < generated@.len() ==> {
                    &&& spec.scenes@[i].id == generated@[i].scene_id
                    &&& spec.scenes@[i].sequence == generated@[i].sequence
                    &&& spec.scenes@[i].image_url == generated@[i].image_url
                    &&& spec.scenes@[i].audio_url == generated@[i].audio_url
                    &&& spec.scenes@[i].on_screen_text == generated@[i].on_screen_text
                    &&& spec.scenes@[i].transition == generated@[i].transition
                    &&& spec.scenes@[i].captions == generated@[i].captions
                }
        }),
{
}

/// The video is rendered from the render specification, saved or read, and its address is what the
/// workflow reports as completed.
pub proof fn law_rendering_of_a_run(
    workflow_id: Id,
    input: WorkflowInput,
    run: Run,
    spec: RenderSpec,
    render_url: String,
    states: Seq<WorkflowState>,
)
    requires
        states.len() == 6,
        steps_to(
            WorkflowState::MarkRestored { run },
            workflow_id,
            input,
            WorkflowEvent::Written(Ok(())),
            states[0],
        ),
        steps_to(
            WorkflowState::DecodeRenderSpec { run },
            workflow_id,
            input,
            WorkflowEvent::RenderSpecDecoded(Ok(spec)),
            states[1],
        ),
        steps_to(
            WorkflowState::SaveRenderSpec { run, spec },
            workflow_id,
            input,
            WorkflowEvent::Written(Ok(())),
            states[2],
        ),
        steps_to(
            WorkflowState::MarkRendering { run, spec },
            workflow_id,
            input,
            WorkflowEvent::Written(Ok(())),
            states[3],
        ),
        steps_to(
            WorkflowState::RenderVideo { run, spec },
            workflow_id,
            input,
            WorkflowEvent::Rendered(Ok(render_url)),
            states[4],
        ),
        steps_to(
            WorkflowState::FinishCompleted { run, render_url },
            workflow_id,
            input,
            WorkflowEvent::Written(Ok(())),
            states[5],
        ),
    ensures
        states[0] == (WorkflowState::DecodeRenderSpec { run }),
        states[1] == (WorkflowState::MarkRendering { run, spec }),
        states[2] == (WorkflowState::MarkRendering { run, spec }),
        states[3] == (WorkflowState::RenderVideo { run, spec }),
        states[4] == (WorkflowState::FinishCompleted { run, render_url }),
        states[5] is Done && states[5]->result is Ok,
        states[5]->result->Ok_0.project_id == run.project.id,
        states[5]->result->Ok_0.version == run.version.version,
        states[5]->result->Ok_0.outcome@ == "completed"@,
        states[5]->result->Ok_0.render_url == Some(render_url),
{
}

/// A stage that fails is to be recorded under its own name and for its own project, with the code of
/// the failure and a text that shows the code and the message; then the workflow ends with it.
pub proof fn law_failure_of_a_stage(
    workflow_id: Id,
    input: WorkflowInput,
    state: WorkflowState,
    event: WorkflowEvent,
    run: Run,
    stage: Stage,
    cause: Terminal,
    code: String,
    next: WorkflowState,
    last: WorkflowState,
)
    requires
        run_of(state) == Some(run),
        ({
            ||| state is GenerateScript && stage is Script && event == WorkflowEvent::Script(
                Err(cause),
            )
            ||| state is GenerateStoryboard && stage is Storyboard && event
                == WorkflowEvent::Storyboard(Err(cause))
            ||| state is GenerateAssets && stage is Assets && event == WorkflowEvent::Assets(
                Err(cause),
            )
            ||| state is RenderVideo && stage is Render && event == WorkflowEvent::Rendered(
                Err(cause),
            )
        }),
        steps_to(state, workflow_id, input, event, next),
        steps_to(next, workflow_id, input, WorkflowEvent::Written(Ok(())), last),
        call_ensures(decimal_u64, (cause.code as u64,), code),
    ensures
        next is RecordFailure,
        next->RecordFailure_project_id == run.project.id,
        next->RecordFailure_stage == stage,
        next->RecordFailure_failure.code == cause.code,
        next->RecordFailure_failure.message@ == "Terminal error ["@ + code@ + "]: "@
            + cause.message@,
        last == (WorkflowState::Done { result: Err(next->RecordFailure_failure) }),
{
}

/// A step that fails outside of the stages ends the workflow with its own error.
pub proof fn law_failure_of_a_step(
    workflow_id: Id,
    input: WorkflowInput,
    state: WorkflowState,
    event: WorkflowEvent,
    version_id: Id,
    error: Terminal,
    next: WorkflowState,
)
    requires
        ({
            ||| state is LoadProject && event == WorkflowEvent::Project(Err(error))
            ||| state is LoadJob && event == WorkflowEvent::Job(Err(error))
            ||| state is LoadVersion && event == WorkflowEvent::Version(Err(error))
            ||| state is CreateVersion && event == WorkflowEvent::Created(version_id, Err(error))
            ||| state is AwaitReview && event == WorkflowEvent::Review(Err(error))
            ||| state is LoadScenes && event == WorkflowEvent::Scenes(Err(error))
            ||| state.admits(event) && event == WorkflowEvent::Written(Err(error))
        }),
        steps_to(state, workflow_id, input, event, next),
    ensures
        next == (WorkflowState::Done { result: Err(error) }),
{
}

/// A checkpoint that cannot be read ends the workflow with an internal error, which names the
/// checkpoint and says why.
pub proof fn law_checkpoint_that_cannot_be_read(
    workflow_id: Id,
    input: WorkflowInput,
    run: Run,
    reason: String,
    script: WorkflowState,
    storyboard: WorkflowState,
    render: WorkflowState,
)
    requires
        steps_to(
            WorkflowState::DecodeScript { run },
            workflow_id,
            input,
            WorkflowEvent::ScriptDecoded(Err(reason)),
            script,
        ),
        steps_to(
            WorkflowState::DecodeStoryboard { run },
            workflow_id,
            input,
            WorkflowEvent::StoryboardDecoded(Err(reason)),
            storyboard,
        ),
        steps_to(
            WorkflowState::DecodeRenderSpec { run },
            workflow_id,
            input,
            WorkflowEvent::RenderSpecDecoded(Err(reason)),
            render,
        ),
    ensures
        script is Done && script->result is Err && script->result->Err_0.code == 500,
        storyboard is Done && storyboard->result is Err && storyboard->result->Err_0.code == 500,
        render is Done && render->result is Err && render->result->Err_0.code == 500,
        script->result->Err_0.message@ == "script_spec"@ + " 检查点无法反序列化: "@ + reason@,
        storyboard->result->Err_0.message@ == "storyboard_spec"@ + " 检查点无法反序列化: "@
            + reason@,
        render->result->Err_0.message@ == "render_spec"@ + " 检查点无法反序列化: "@ + reason@,
{
}

/// The key of a workflow is its identifier; one that is none is an internal error.
pub proof fn law_key_of_a_workflow(
    key: &str,
    id: Result<Id, String>,
    r: Result<Id, Terminal>,
)
    requires
        call_ensures(Id::parse, (key,), id),
        call_ensures(workflow_id_of, (key,), r),
    ensures
        r is Ok <==> id is Ok,
        r is Ok ==> r->Ok_0 == id->Ok_0,
        r is Err ==> r->Err_0.code == 500 && r->Err_0.message@ == id->Err_0@,
{
}

/// Each stage is recorded under its own name.
pub proof fn law_names_of_stages(stage: Stage, r: &'static str)
    requires
        call_ensures(Stage::name, (&stage,), r),
    ensures
        stage is Script ==> r@ == "script"@,
        stage is Storyboard ==> r@ == "storyboard"@,
        stage is Assets ==> r@ == "assets"@,
        stage is Render ==> r@ == "render"@,
{
}

} // verus!
