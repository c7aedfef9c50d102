//! The course of a generation task, whatever it generates.
//!
//! A task is looked up under its key first. Where it has not succeeded before, it is started,
//! works step by step, and is closed: as completed with what it produced, or as failed.
use crate::db::{NewGenerationTask, Repository, TaskResult, TaskUpdate};
use crate::error::{error_text, AppError, AppResult};
use crate::ids::{is_random_id, Id};
use crate::providers::ProviderUsage;
use vstd::prelude::*;
use vstd::string::*;

verus! {

/// What a task is for, and under which key.
#[derive(Clone, Debug)]
pub struct TaskDescriptor {
    pub workflow_id: Id,
    pub project_id: Id,
    pub version_id: Option<Id>,
    pub scene_id: Option<Id>,
    pub stage: &'static str,
    pub key: String,
    pub provider: String,
    pub model: String,
}

/// What one step of the work came to.
pub enum Progress<W, T> {
    /// More work is to be done.
    Next(W),
    /// The work is done.
    Finished { value: T, usage: Option<ProviderUsage> },
    /// The work failed, and the task has to be closed.
    Failed(AppError),
}

/// Where a task is. The state says what is to be done next.
pub enum TaskState<W, T> {
    /// Look up what a succeeded task under the key produced.
    Lookup,
    /// Start the task.
    Start,
    /// Do a step of the work.
    Working { task_id: Id, work: W },
    /// Close the task as completed.
    Completing { task_id: Id, value: T, usage: Option<ProviderUsage> },
    /// Close the task as failed.
    Failing { task_id: Id, error: AppError },
    Done { result: AppResult<T> },
}

/// What doing it came to.
pub enum TaskEvent<W, T> {
    /// What was found under the key, or why nothing could be looked up.
    Found(AppResult<Option<T>>),
    /// The identifier of the task, and the first step of its work.
    Started(AppResult<Id>, W),
    Worked(Progress<W, T>),
    Closed(AppResult<()>),
}

impl<W, T> TaskState<W, T> {
    /// Whether `event` is an answer to what is to be done.
    pub open spec fn admits(self, event: TaskEvent<W, T>) -> bool {
        match self {
            TaskState::Lookup => event is Found,
            TaskState::Start => event is Started,
            TaskState::Working { .. } => event is Worked,
            TaskState::Completing { .. } => event is Closed,
            TaskState::Failing { .. } => event is Closed,
            TaskState::Done { .. } => false,
        }
    }

    /// Where the task is after `event`.
    pub open spec fn after(self, event: TaskEvent<W, T>) -> TaskState<W, T> {
        match (self, event) {
            (TaskState::Lookup, TaskEvent::Found(Ok(Some(value)))) => TaskState::Done {
                result: Ok(value),
            },
            (TaskState::Lookup, TaskEvent::Found(Ok(None))) => TaskState::Start,
            (TaskState::Lookup, TaskEvent::Found(Err(error))) => TaskState::Done {
                result: Err(error),
            },
            (TaskState::Start, TaskEvent::Started(Ok(task_id), work)) => TaskState::Working {
                task_id,
                work,
            },
            (TaskState::Start, TaskEvent::Started(Err(error), _)) => TaskState::Done {
                result: Err(error),
            },
            (TaskState::Working { task_id, .. }, TaskEvent::Worked(progress)) => match progress {
                Progress::Next(work) => TaskState::Working { task_id, work },
                Progress::Finished { value, usage } => TaskState::Completing {
                    task_id,
                    value,
                    usage,
                },
                Progress::Failed(error) => TaskState::Failing { task_id, error },
            },
            (TaskState::Completing { value, .. }, TaskEvent::Closed(closed)) => TaskState::Done {
                result: match closed {
                    Ok(_) => Ok(value),
                    Err(error) => Err(error),
                },
            },
            (TaskState::Failing { error, .. }, TaskEvent::Closed(closed)) => TaskState::Done {
                result: match closed {
                    Ok(_) => Err(error),
                    Err(second) => Err(second),
                },
            },
            _ => self,
        }
    }

    /// Takes note of what the step to be done came to.
    pub fn step(self, event: TaskEvent<W, T>) -> (r: TaskState<W, T>)
        requires
            self.admits(event),
        ensures
            r == self.after(event),
    {
        match event {
            TaskEvent::Found(found) => match found {
                Ok(Some(value)) => TaskState::Done { result: Ok(value) },
                Ok(None) => TaskState::Start,
                Err(error) => TaskState::Done { result: Err(error) },
            },
            TaskEvent::Started(started, work) => match started {
                Ok(task_id) => TaskState::Working { task_id, work },
                Err(error) => TaskState::Done { result: Err(error) },
            },
            TaskEvent::Worked(progress) => match self {
                TaskState::Working { task_id, .. } => TaskState::worked(task_id, progress),
                other => other,
            },
            TaskEvent::Closed(closed) => match self {
                TaskState::Completing { value, .. } => match closed {
                    Ok(()) => TaskState::Done { result: Ok(value) },
                    Err(error) => TaskState::Done { result: Err(error) },
                },
                TaskState::Failing { error, .. } => match closed {
                    Ok(()) => TaskState::Done { result: Err(error) },
                    Err(second) => TaskState::Done { result: Err(second) },
                },
                other => other,
            },
        }
    }

    /// Takes note of what a step of the work of a task came to, where the step used the work up.
    pub fn worked(task_id: Id, progress: Progress<W, T>) -> (r: TaskState<W, T>)
        ensures
            forall|work: W|
                r == #[trigger] (TaskState::<W, T>::Working { task_id, work }).after(
                    TaskEvent::Worked(progress),
                ),
            r == match progress {
                Progress::Next(work) => TaskState::<W, T>::Working { task_id, work },
                Progress::Finished { value, usage } => TaskState::<W, T>::Completing {
                    task_id,
                    value,
                    usage,
                },
                Progress::Failed(error) => TaskState::<W, T>::Failing { task_id, error },
            },
    {
        match progress {
            Progress::Next(work) => TaskState::Working { task_id, work },
            Progress::Finished { value, usage } => TaskState::Completing { task_id, value, usage },
            Progress::Failed(error) => TaskState::Failing { task_id, error },
        }
    }

    /// The write that closes the task as failed, with the text of its error, where it failed.
    pub fn failure_write(&self) -> (r: Option<TaskUpdate>)
        ensures
            match *self {
                TaskState::Failing { task_id, error } => {
                    &&& r is Some
                    &&& r->0.task_id == task_id
                    &&& r->0.status@ == "failed"@
                    &&& r->0.result is None
                    &&& r->0.error_message is Some
                    &&& r->0.error_message->0@ == error_text(error@)
                },
                _ => r is None,
            },
    {
        match self {
            TaskState::Failing { task_id, error } => Some(
                Repository::fail_task(*task_id, error.text()),
            ),
            _ => None,
        }
    }

    /// The write that closes the task as completed, where its work is done. What it produced
    /// and what it used are given as JSON texts.
    pub fn completion_write(&self, output: String, usage: Option<String>) -> (r: Option<TaskUpdate>)
        ensures
            match *self {
                TaskState::Completing { task_id, .. } => {
                    &&& r is Some
                    &&& r->0.task_id == task_id
                    &&& r->0.status@ == "succeeded"@
                    &&& r->0.result == Some(TaskResult { output, usage })
                    &&& r->0.error_message is None
                },
                _ => r is None,
            },
    {
        match self {
            TaskState::Completing { task_id, .. } => Some(
                Repository::complete_task(*task_id, output, usage),
            ),
            _ => None,
        }
    }

    /// Whether `events` answer what is to be done, one after the other.
    pub open spec fn admits_all(self, events: Seq<TaskEvent<W, T>>) -> bool
        decreases events.len(),
    {
        events.len() == 0 || (self.admits(events[0]) && self.after(events[0]).admits_all(
            events.drop_first(),
        ))
    }

    pub open spec fn after_all(self, events: Seq<TaskEvent<W, T>>) -> TaskState<W, T>
        decreases events.len(),
    {
        if events.len() == 0 {
            self
        } else {
            self.after(events[0]).after_all(events.drop_first())
        }
    }

    /// Whether the task is being closed.
    pub open spec fn closing(self) -> bool {
        self is Completing || self is Failing
    }

    /// How often the task `task_id` is asked to be closed in the course of `events`.
    pub open spec fn closing_writes(self, task_id: Id, events: Seq<TaskEvent<W, T>>) -> nat
        decreases events.len(),
    {
        if events.len() == 0 {
            0
        } else {
            let here: nat = if self.closing() && self.task() == Some(task_id) { 1 } else { 0 };
            here + self.after(events[0]).closing_writes(task_id, events.drop_first())
        }
    }

    /// The task that has been started and not left.
    pub open spec fn task(self) -> Option<Id> {
        match self {
            TaskState::Working { task_id, .. } => Some(task_id),
            TaskState::Completing { task_id, .. } => Some(task_id),
            TaskState::Failing { task_id, .. } => Some(task_id),
            _ => None,
        }
    }
}

/// A task that was started and whose run has ended was asked to be closed exactly once, as
/// completed or as failed, whatever went wrong on the way; the run ends with what came of that
/// write.
pub proof fn law_started_task_is_asked_to_close_once<W, T>(
    state: TaskState<W, T>,
    task_id: Id,
    events: Seq<TaskEvent<W, T>>,
)
    requires
        state.task() == Some(task_id),
        state.admits_all(events),
        state.after_all(events) is Done,
    ensures
        state.closing_writes(task_id, events) == 1,
        events.len() > 0,
        events.last() is Closed,
    decreases events.len(),
{
    reveal_with_fuel(TaskState::admits_all, 2);
    reveal_with_fuel(TaskState::after_all, 2);
    reveal_with_fuel(TaskState::closing_writes, 2);
    let rest = events.drop_first();
    let next = state.after(events[0]);
    if next is Done {
        assert(rest.len() == 0);
    } else {
        law_started_task_is_asked_to_close_once(next, task_id, rest);
        assert(rest.last() == events.last());
    }
}

/// What a succeeded task produced is handed out without starting or doing anything again.
pub proof fn law_cached_value_is_returned<W, T>(value: T, events: Seq<TaskEvent<W, T>>)
    requires
        events.len() > 0,
        events[0] == TaskEvent::<W, T>::Found(Ok(Some(value))),
        TaskState::<W, T>::Lookup.admits_all(events),
    ensures
        events.len() == 1,
        TaskState::<W, T>::Lookup.after_all(events) == (TaskState::<W, T>::Done {
            result: Ok(value),
        }),
{
    reveal_with_fuel(TaskState::admits_all, 2);
    reveal_with_fuel(TaskState::after_all, 2);
}

/// Whether `task` is the row with which a described task of the given identifier starts.
pub open spec fn starts(task: NewGenerationTask, id: Id, descriptor: TaskDescriptor) -> bool {
    &&& task.id == id
    &&& task.workflow_id == descriptor.workflow_id
    &&& task.project_id == descriptor.project_id
    &&& task.project_version_id == descriptor.version_id
    &&& task.scene_id == descriptor.scene_id
    &&& task.stage == descriptor.stage
    &&& task.status@ == "running"@
    &&& task.attempt == 1
    &&& task.idempotency_key == descriptor.key
    &&& task.provider == Some(descriptor.provider)
    &&& task.model == Some(descriptor.model)
}

/// The row with which a described task of the given identifier starts.
pub fn running_task(id: Id, descriptor: &TaskDescriptor) -> (r: NewGenerationTask)
    ensures
        starts(r, id, *descriptor),
{
    NewGenerationTask {
        id,
        workflow_id: descriptor.workflow_id,
        project_id: descriptor.project_id,
        project_version_id: descriptor.version_id,
        scene_id: descriptor.scene_id,
        stage: descriptor.stage,
        status: "running",
        attempt: 1,
        idempotency_key: descriptor.key.clone(),
        provider: Some(descriptor.provider.clone()),
        model: Some(descriptor.model.clone()),
    }
}

/// The row with which a described task starts, under a fresh identifier.
pub fn start_task(descriptor: &TaskDescriptor) -> (r: NewGenerationTask)
    ensures
        is_random_id(r.id),
        starts(r, r.id, *descriptor),
{
    running_task(Id::random(), descriptor)
}

/// The row of a task that starts is that of its description: the same project, version, scene,
/// stage, key, provider and model, as running and in its first attempt; under the identifier that
/// was given, or a fresh one.
pub proof fn law_row_of_a_task(
    id: Id,
    descriptor: TaskDescriptor,
    given: NewGenerationTask,
    fresh: NewGenerationTask,
)
    requires
        call_ensures(running_task, (id, &descriptor), given),
        call_ensures(start_task, (&descriptor,), fresh),
    ensures
        given.id == id,
        is_random_id(fresh.id),
        forall|row: NewGenerationTask|
            #![trigger row.idempotency_key]
            row == given || row == fresh ==> {
                &&& row.workflow_id == descriptor.workflow_id
                &&& row.project_id == descriptor.project_id
                &&& row.project_version_id == descriptor.version_id
                &&& row.scene_id == descriptor.scene_id
                &&& row.stage == descriptor.stage
                &&& row.idempotency_key == descriptor.key
                &&& row.provider == Some(descriptor.provider)
                &&& row.model == Some(descriptor.model)
                &&& row.status@ == "running"@
                &&& row.attempt == 1
            },
{
}

/// What was found under the key of a task is its result; a task that was not found is started, and
/// one that was starts its work under the identifier that the start came to. An error in either
/// ends it.
pub proof fn law_task_begins<W, T>(
    value: T,
    error: AppError,
    task_id: Id,
    work: W,
    found: TaskState<W, T>,
    missing: TaskState<W, T>,
    unread: TaskState<W, T>,
    started: TaskState<W, T>,
    unstarted: TaskState<W, T>,
)
    requires
        call_ensures(
            TaskState::<W, T>::step,
            (TaskState::Lookup, TaskEvent::Found(Ok(Some(value)))),
            found,
        ),
        call_ensures(
            TaskState::<W, T>::step,
            (TaskState::Lookup, TaskEvent::Found(Ok(None))),
            missing,
        ),
        call_ensures(
            TaskState::<W, T>::step,
            (TaskState::Lookup, TaskEvent::Found(Err(error))),
            unread,
        ),
        call_ensures(
            TaskState::<W, T>::step,
            (TaskState::Start, TaskEvent::Started(Ok(task_id), work)),
            started,
        ),
        call_ensures(
            TaskState::<W, T>::step,
            (TaskState::Start, TaskEvent::Started(Err(error), work)),
            unstarted,
        ),
    ensures
        found == (TaskState::<W, T>::Done { result: Ok(value) }),
        missing == TaskState::<W, T>::Start,
        unread == (TaskState::<W, T>::Done { result: Err(error) }),
        started == (TaskState::<W, T>::Working { task_id, work }),
        unstarted == (TaskState::<W, T>::Done { result: Err(error) }),
{
}

/// Work that goes on stays with its task; work that is done is closed with what it produced, and
/// then handed out; work that failed is closed with why, and then reported. Where closing fails,
/// that is reported instead.
pub proof fn law_task_ends_as_its_work<W, T>(
    task_id: Id,
    work: W,
    next: W,
    value: T,
    usage: Option<ProviderUsage>,
    error: AppError,
    second: AppError,
    going: TaskState<W, T>,
    done: TaskState<W, T>,
    failed: TaskState<W, T>,
    same: TaskState<W, T>,
    completed: TaskState<W, T>,
    uncompleted: TaskState<W, T>,
    reported: TaskState<W, T>,
    unreported: TaskState<W, T>,
)
    requires
        ({
            let working = TaskState::<W, T>::Working { task_id, work };
            let completing = TaskState::<W, T>::Completing { task_id, value, usage };
            let failing = TaskState::<W, T>::Failing { task_id, error };
            let finished = Progress::<W, T>::Finished { value, usage };
            &&& call_ensures(
                TaskState::<W, T>::step,
                (working, TaskEvent::Worked(Progress::Next(next))),
                going,
            )
            &&& call_ensures(TaskState::<W, T>::step, (working, TaskEvent::Worked(finished)), done)
            &&& call_ensures(
                TaskState::<W, T>::step,
                (working, TaskEvent::Worked(Progress::Failed(error))),
                failed,
            )
            &&& call_ensures(TaskState::<W, T>::worked, (task_id, finished), same)
            &&& call_ensures(
                TaskState::<W, T>::step,
                (completing, TaskEvent::Closed(Ok(()))),
                completed,
            )
            &&& call_ensures(
                TaskState::<W, T>::step,
                (completing, TaskEvent::Closed(Err(second))),
                uncompleted,
            )
            &&& call_ensures(
                TaskState::<W, T>::step,
                (failing, TaskEvent::Closed(Ok(()))),
                reported,
            )
            &&& call_ensures(
                TaskState::<W, T>::step,
                (failing, TaskEvent::Closed(Err(second))),
                unreported,
            )
        }),
    ensures
        going == (TaskState::<W, T>::Working { task_id, work: next }),
        done == (TaskState::<W, T>::Completing { task_id, value, usage }),
        failed == (TaskState::<W, T>::Failing { task_id, error }),
        same == done,
        completed == (TaskState::<W, T>::Done { result: Ok(value) }),
        uncompleted == (TaskState::<W, T>::Done { result: Err(second) }),
        reported == (TaskState::<W, T>::Done { result: Err(error) }),
        unreported == (TaskState::<W, T>::Done { result: Err(second) }),
{
}

/// A failing task is written as failed with the text of its own error, and a completing one as
/// succeeded with what it was given; no other state closes a task.
pub proof fn law_closing_writes<W, T>(
    state: TaskState<W, T>,
    output: String,
    usage: Option<String>,
    failure: Option<TaskUpdate>,
    completion: Option<TaskUpdate>,
)
    requires
        call_ensures(TaskState::<W, T>::failure_write, (&state,), failure),
        call_ensures(TaskState::<W, T>::completion_write, (&state, output, usage), completion),
    ensures
        failure is Some <==> state is Failing,
        completion is Some <==> state is Completing,
        state matches TaskState::Failing { task_id, error } ==> {
            &&& failure->0.task_id == task_id
            &&& failure->0.status@ == "failed"@
            &&& failure->0.error_message is Some
            &&& failure->0.error_message->0@ == error_text(error@)
            &&& failure->0.result is None
        },
        state matches TaskState::Completing { task_id, .. } ==> {
            &&& completion->0.task_id == task_id
            &&& completion->0.status@ == "succeeded"@
            &&& completion->0.result == Some(TaskResult { output, usage })
            &&& completion->0.error_message is None
        },
{
}

} // verus!
