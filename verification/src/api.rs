//! What the public API decides: which projects may be created and started, how a start is
//! submitted, and how errors are answered.
use crate::db::{
    stored_as, JobUpdate, ProjectGuard, ProjectUpdate, Repository, WorkflowChange,
};
use crate::domain::{
    request_problem, reports, CreateProjectRequest, NewProject, Project, WorkflowInput,
};
use crate::error::{error_text, AppError, AppResult, ErrorView};
use crate::ids::{hyphenated, is_random_id, Id};
use crate::providers::{ProviderCatalog, ProviderOption};
use crate::text::{lemma_says, says, str_eq};
use vstd::prelude::*;
use vstd::string::*;

verus! {

/// Whether a provider is available with a model among `options`.
pub open spec fn offers(options: Seq<ProviderOption>, provider: Seq<char>, model: Seq<char>) -> bool {
    exists|i: int|
        #![trigger options[i]]
        0 <= i < options.len() && options[i].available && options[i].id@ == provider
            && options[i].model@ == model
}

/// The error for a provider and a model that are not available.
pub open spec fn unavailable(
    capability: Seq<char>,
    provider: Seq<char>,
    model: Seq<char>,
) -> ErrorView {
    ErrorView::Conflict(capability + " Provider/模型当前不可用: "@ + provider + "/"@ + model)
}

pub fn ensure_catalog_choice(
    capability: &str,
    options: &[ProviderOption],
    provider: &str,
    model: &str,
) -> (r: AppResult<()>)
    ensures
        offers(options@, provider@, model@) ==> r is Ok,
        !offers(options@, provider@, model@) ==> r is Err && r->Err_0@ == unavailable(
            capability@,
            provider@,
            model@,
        ),
{
    let mut i: usize = 0;
    while i < options.len()
        invariant
            i <= options@.len(),
            forall|k: int|
                #![trigger options@[k]]
                0 <= k < i ==> !(options@[k].available && options@[k].id@ == provider@
                    && options@[k].model@ == model@),
        decreases options@.len() - i,
    {
        let option = &options[i];
        if option.available && str_eq(option.id.as_str(), provider) && str_eq(
            option.model.as_str(),
            model,
        ) {
            assert(options@[i as int].available);
            return Ok(());
        }
        i += 1;
    }
    let mut message = capability.to_owned();
    message.append(" Provider/模型当前不可用: ");
    message.append(provider);
    message.append("/");
    message.append(model);
    Err(AppError::Conflict(message))
}

/// The provider and the model that are chosen for each capability.
pub struct Choices<'a> {
    pub text: (&'a str, &'a str),
    pub image: (&'a str, &'a str),
    pub speech: (&'a str, &'a str),
    pub captions: (&'a str, &'a str),
}

pub struct ChoicesView {
    pub text: (Seq<char>, Seq<char>),
    pub image: (Seq<char>, Seq<char>),
    pub speech: (Seq<char>, Seq<char>),
    pub captions: (Seq<char>, Seq<char>),
}

impl<'a> View for Choices<'a> {
    type V = ChoicesView;

    open spec fn view(&self) -> ChoicesView {
        ChoicesView {
            text: (self.text.0@, self.text.1@),
            image: (self.image.0@, self.image.1@),
            speech: (self.speech.0@, self.speech.1@),
            captions: (self.captions.0@, self.captions.1@),
        }
    }
}

/// What a request chooses.
pub open spec fn requested(request: CreateProjectRequest) -> ChoicesView {
    ChoicesView {
        text: (request.text_provider@, request.text_model@),
        image: (request.image_provider@, request.image_model@),
        speech: (request.speech_provider@, request.speech_model@),
        captions: (request.transcription_provider@, request.transcription_model@),
    }
}

/// What a project was created with.
pub open spec fn chosen(project: Project) -> ChoicesView {
    ChoicesView {
        text: (project.text_provider@, project.text_model@),
        image: (project.image_provider@, project.image_model@),
        speech: (project.speech_provider@, project.speech_model@),
        captions: (project.transcription_provider@, project.transcription_model@),
    }
}

/// The first of the choices that the catalog does not offer.
pub open spec fn choices_problem(catalog: ProviderCatalog, choices: ChoicesView) -> Option<
    ErrorView,
> {
    if !offers(catalog.text@, choices.text.0, choices.text.1) {
        Some(unavailable("文案"@, choices.text.0, choices.text.1))
    } else if !offers(catalog.image@, choices.image.0, choices.image.1) {
        Some(unavailable("图片"@, choices.image.0, choices.image.1))
    } else if !offers(catalog.speech@, choices.speech.0, choices.speech.1) {
        Some(unavailable("口播"@, choices.speech.0, choices.speech.1))
    } else if !offers(catalog.alignment@, choices.captions.0, choices.captions.1) {
        Some(unavailable("字幕"@, choices.captions.0, choices.captions.1))
    } else {
        None
    }
}

fn ensure_choices(catalog: &ProviderCatalog, choices: &Choices<'_>) -> (r: AppResult<()>)
    ensures
        reports(r, choices_problem(*catalog, choices@)),
{
    match ensure_catalog_choice("文案", catalog.text.as_slice(), choices.text.0, choices.text.1) {
        Ok(()) => {},
        Err(error) => return Err(error),
    }
    match ensure_catalog_choice("图片", catalog.image.as_slice(), choices.image.0, choices.image.1) {
        Ok(()) => {},
        Err(error) => return Err(error),
    }
    match ensure_catalog_choice(
        "口播",
        catalog.speech.as_slice(),
        choices.speech.0,
        choices.speech.1,
    ) {
        Ok(()) => {},
        Err(error) => return Err(error),
    }
    ensure_catalog_choice(
        "字幕",
        catalog.alignment.as_slice(),
        choices.captions.0,
        choices.captions.1,
    )
}

/// Whether the catalog offers all that a request chooses.
pub fn ensure_requested_providers_available(
    catalog: &ProviderCatalog,
    request: &CreateProjectRequest,
) -> (r: AppResult<()>)
    ensures
        reports(r, choices_problem(*catalog, requested(*request))),
{
    ensure_choices(
        catalog,
        &Choices {
            text: (request.text_provider.as_str(), request.text_model.as_str()),
            image: (request.image_provider.as_str(), request.image_model.as_str()),
            speech: (request.speech_provider.as_str(), request.speech_model.as_str()),
            captions: (
                request.transcription_provider.as_str(),
                request.transcription_model.as_str(),
            ),
        },
    )
}

/// Whether the catalog offers all that a project was created with.
pub fn ensure_project_providers_available(catalog: &ProviderCatalog, project: &Project) -> (r:
    AppResult<()>)
    ensures
        reports(r, choices_problem(*catalog, chosen(*project))),
{
    ensure_choices(
        catalog,
        &Choices {
            text: (project.text_provider.as_str(), project.text_model.as_str()),
            image: (project.image_provider.as_str(), project.image_model.as_str()),
            speech: (project.speech_provider.as_str(), project.speech_model.as_str()),
            captions: (
                project.transcription_provider.as_str(),
                project.transcription_model.as_str(),
            ),
        },
    )
}

/// Where the creation of a project is. The state says what is to be done next.
pub enum CreateState {
    FetchCatalog,
    Insert { row: NewProject },
    /// Start the project that was created.
    Dispatch { project_id: Id },
    /// Load the project as it is now.
    Reload { project_id: Id },
    Done { result: AppResult<Project> },
}

/// What doing it came to.
pub enum CreateEvent {
    Catalog(AppResult<ProviderCatalog>),
    Inserted(AppResult<Id>),
    Dispatched(AppResult<Id>),
    Loaded(AppResult<Project>),
}

impl CreateState {
    /// Whether `event` is an answer to what is to be done.
    pub open spec fn admits(self, event: CreateEvent) -> bool {
        match self {
            CreateState::FetchCatalog => event is Catalog,
            CreateState::Insert { .. } => event is Inserted,
            CreateState::Dispatch { .. } => event is Dispatched,
            CreateState::Reload { .. } => event is Loaded,
            CreateState::Done { .. } => false,
        }
    }

    /// Whether the creation of what `request` asks for goes on with `next` after `event`.
    pub open spec fn leads_to(
        self,
        request: CreateProjectRequest,
        event: CreateEvent,
        next: CreateState,
    ) -> bool {
        match (self, event) {
            (CreateState::FetchCatalog, CreateEvent::Catalog(Ok(catalog))) => {
                match choices_problem(catalog, requested(request)) {
                    Some(problem) => next.fails_with(problem),
                    None => match request_problem(request) {
                        Some(problem) => next.fails_with(problem),
                        None => next matches CreateState::Insert { row } && is_random_id(row.id)
                            && stored_as(row, row.id, request),
                    },
                }
            },
            (CreateState::Insert { .. }, CreateEvent::Inserted(Ok(project_id))) => {
                if request.auto_start {
                    next == (CreateState::Dispatch { project_id })
                } else {
                    next == (CreateState::Reload { project_id })
                }
            },
            (CreateState::Dispatch { project_id }, CreateEvent::Dispatched(_)) => next == (
            CreateState::Reload { project_id }),
            (CreateState::Reload { .. }, CreateEvent::Loaded(result)) => next == (
            CreateState::Done { result }),
            (CreateState::FetchCatalog, CreateEvent::Catalog(Err(error))) => next == (
            CreateState::Done { result: Err(error) }),
            (CreateState::Insert { .. }, CreateEvent::Inserted(Err(error))) => next == (
            CreateState::Done { result: Err(error) }),
            _ => false,
        }
    }

    pub open spec fn fails_with(self, problem: ErrorView) -> bool {
        self matches CreateState::Done { result } && result is Err && result->Err_0@ == problem
    }

    /// The creation of what `request` asks for starts, where the request is valid.
    pub fn begin(request: &CreateProjectRequest) -> (r: CreateState)
        ensures
            match request_problem(*request) {
                Some(problem) => r.fails_with(problem),
                None => r == CreateState::FetchCatalog,
            },
    {
        match request.validate() {
            Ok(()) => CreateState::FetchCatalog,
            Err(error) => CreateState::Done { result: Err(error) },
        }
    }

    /// Takes note of what the step to be done came to. A project that was created is reported
    /// whether or not it could be started.
    pub fn step(self, request: &CreateProjectRequest, event: CreateEvent) -> (r: CreateState)
        requires
            self.admits(event),
        ensures
            self.leads_to(*request, event, r),
    {
        match event {
            CreateEvent::Catalog(Err(error)) => CreateState::Done { result: Err(error) },
            CreateEvent::Catalog(Ok(catalog)) => {
                match ensure_requested_providers_available(&catalog, request) {
                    Ok(()) => {},
                    Err(error) => return CreateState::Done { result: Err(error) },
                }
                match Repository::create_project(request) {
                    Ok(row) => CreateState::Insert { row },
                    Err(error) => CreateState::Done { result: Err(error) },
                }
            },
            CreateEvent::Inserted(Err(error)) => CreateState::Done { result: Err(error) },
            CreateEvent::Inserted(Ok(project_id)) => {
                if request.auto_start {
                    CreateState::Dispatch { project_id }
                } else {
                    CreateState::Reload { project_id }
                }
            },
            CreateEvent::Dispatched(_) => match self {
                CreateState::Dispatch { project_id } => CreateState::Reload { project_id },
                other => other,
            },
            CreateEvent::Loaded(result) => CreateState::Done { result },
        }
    }
}

/// A textual reply over HTTP.
pub struct TextReply {
    pub status: u16,
    /// The status as it is shown, with its reason.
    pub status_text: String,
    pub body: String,
}

/// An error of the workflow engine.
pub open spec fn restate_failure(message: Seq<char>) -> ErrorView {
    ErrorView::External { service: "restate"@, message }
}

/// Where the start of a project is. The state says what is to be done next.
pub enum DispatchState {
    LoadProject,
    FetchCatalog { project: Project },
    /// Make the workflow the active one of the project, with a job of its own.
    Queue { workflow_id: Id, job_id: Id },
    /// Submit the workflow to the engine.
    Submit { workflow_id: Id, job_id: Id },
    /// Bring the project to rest as failed, with `note` as the reason.
    Finalize { workflow_id: Id, job_id: Id, note: &'static str, error: AppError },
    Done { result: AppResult<Id> },
}

/// What doing it came to.
pub enum DispatchEvent {
    Project(AppResult<Project>),
    Catalog(AppResult<ProviderCatalog>),
    Queued(AppResult<()>),
    /// The reply of the engine, or why there is none.
    Submitted(Result<TextReply, String>),
    Finalized(AppResult<()>),
}

impl DispatchState {
    /// Whether `event` is an answer to what is to be done.
    pub open spec fn admits(self, event: DispatchEvent) -> bool {
        match self {
            DispatchState::LoadProject => event is Project,
            DispatchState::FetchCatalog { .. } => event is Catalog,
            DispatchState::Queue { .. } => event is Queued,
            DispatchState::Submit { .. } => event is Submitted,
            DispatchState::Finalize { .. } => event is Finalized,
            DispatchState::Done { .. } => false,
        }
    }

    /// Whether the start goes on with `next` after `event`.
    pub open spec fn leads_to(self, event: DispatchEvent, next: DispatchState) -> bool {
        match (self, event) {
            (DispatchState::LoadProject, DispatchEvent::Project(Ok(project))) => next == (
            DispatchState::FetchCatalog { project }),
            (DispatchState::FetchCatalog { project }, DispatchEvent::Catalog(Ok(catalog))) => {
                match choices_problem(catalog, chosen(project)) {
                    Some(problem) => next matches DispatchState::Done { result } && result is Err
                        && result->Err_0@ == problem,
                    None => next matches DispatchState::Queue { workflow_id, job_id }
                        && is_random_id(workflow_id) && is_random_id(job_id),
                }
            },
            (DispatchState::Queue { workflow_id, job_id }, DispatchEvent::Queued(Ok(_))) => next
                == (DispatchState::Submit { workflow_id, job_id }),
            (DispatchState::Submit { workflow_id, job_id }, DispatchEvent::Submitted(submitted)) => {
                match submitted {
                    Ok(reply) => if 200 <= reply.status < 300 {
                        next == (DispatchState::Done { result: Ok(workflow_id) })
                    } else {
                        next.gives_up(
                            workflow_id,
                            job_id,
                            "无法提交到 Restate"@,
                            "HTTP "@ + reply.status_text@ + ": "@ + reply.body@,
                        )
                    },
                    Err(reason) => next.gives_up(
                        workflow_id,
                        job_id,
                        "无法连接 Restate"@,
                        reason@,
                    ),
                }
            },
            (DispatchState::Finalize { error, .. }, DispatchEvent::Finalized(finalized)) => {
                match finalized {
                    Ok(_) => next == (DispatchState::Done { result: Err(error) }),
                    Err(second) => next == (DispatchState::Done { result: Err(second) }),
                }
            },
            (DispatchState::LoadProject, DispatchEvent::Project(Err(error))) => next == (
            DispatchState::Done { result: Err(error) }),
            (DispatchState::FetchCatalog { .. }, DispatchEvent::Catalog(Err(error))) => next == (
            DispatchState::Done { result: Err(error) }),
            (DispatchState::Queue { .. }, DispatchEvent::Queued(Err(error))) => next == (
            DispatchState::Done { result: Err(error) }),
            _ => false,
        }
    }

    /// Whether the project is to be brought to rest because the engine did not take the
    /// workflow.
    pub open spec fn gives_up(
        self,
        workflow_id: Id,
        job_id: Id,
        note: Seq<char>,
        message: Seq<char>,
    ) -> bool {
        self matches DispatchState::Finalize { workflow_id: w, job_id: j, note: n, error } && w
            == workflow_id && j == job_id && n@ == note && error@ == restate_failure(message)
    }

    /// Whether `update` is what is to be written of the project to give it up, if it is given
    /// up: it comes to rest as failed, with the note as the reason, and without a workflow.
    pub open spec fn writes_project(self, project_id: Id, update: Option<ProjectUpdate>) -> bool {
        match self {
            DispatchState::Finalize { workflow_id, note, .. } => {
                &&& update is Some
                &&& update->0.project_id == project_id
                &&& update->0.guard == ProjectGuard::ActiveWorkflow(workflow_id)
                &&& update->0.status@ == "failed"@
                &&& update->0.error_message is Some
                &&& update->0.error_message->0@ == note@
                &&& update->0.workflow == WorkflowChange::Clear
            },
            _ => update is None,
        }
    }

    /// What is to be written of the project to give it up.
    pub fn project_write(&self, project_id: Id) -> (r: Option<ProjectUpdate>)
        ensures
            self.writes_project(project_id, r),
    {
        match self {
            DispatchState::Finalize { workflow_id, note, .. } => {
                let reason = (*note).to_owned();
                match Repository::finalize_project(
                    project_id,
                    *workflow_id,
                    "failed",
                    Some(reason),
                ) {
                    Ok(update) => Some(update),
                    Err(_) => None,
                }
            },
            _ => None,
        }
    }

    /// What is to be written of the job whose project is given up: it failed before it left the
    /// queue, so there is nothing to continue.
    pub fn job_write(&self) -> (r: Option<JobUpdate>)
        ensures
            match *self {
                DispatchState::Finalize { job_id, note, .. } => {
                    &&& r is Some
                    &&& r->0.job_id == job_id
                    &&& r->0.status@ == "failed"@
                    &&& r->0.stage@ == "queued"@
                    &&& r->0.error_code is None
                    &&& r->0.error_message is Some
                    &&& r->0.error_message->0@ == note@
                    &&& !r->0.resumable
                },
                _ => r is None,
            },
    {
        match self {
            DispatchState::Finalize { job_id, note, .. } => Some(
                JobUpdate {
                    job_id: *job_id,
                    status: "failed",
                    stage: "queued",
                    error_code: None,
                    error_message: Some((*note).to_owned()),
                    resumable: false,
                },
            ),
            _ => None,
        }
    }

    /// Takes note of what the step to be done came to.
    pub fn step(self, event: DispatchEvent) -> (r: DispatchState)
        requires
            self.admits(event),
        ensures
            self.leads_to(event, r),
    {
        match event {
            DispatchEvent::Project(Err(error)) => DispatchState::Done { result: Err(error) },
            DispatchEvent::Project(Ok(project)) => DispatchState::FetchCatalog { project },
            DispatchEvent::Catalog(Err(error)) => DispatchState::Done { result: Err(error) },
            DispatchEvent::Catalog(Ok(catalog)) => match self {
                DispatchState::FetchCatalog { project } => {
                    match ensure_project_providers_available(&catalog, &project) {
                        Ok(()) => DispatchState::Queue {
                            workflow_id: Id::random(),
                            job_id: Id::random(),
                        },
                        Err(error) => DispatchState::Done { result: Err(error) },
                    }
                },
                other => other,
            },
            DispatchEvent::Queued(Err(error)) => DispatchState::Done { result: Err(error) },
            DispatchEvent::Queued(Ok(())) => match self {
                DispatchState::Queue { workflow_id, job_id } => DispatchState::Submit {
                    workflow_id,
                    job_id,
                },
                other => other,
            },
            DispatchEvent::Submitted(submitted) => match self {
                DispatchState::Submit { workflow_id, job_id } => match submitted {
                    Ok(reply) => {
                        if 200 <= reply.status && reply.status < 300 {
                            return DispatchState::Done { result: Ok(workflow_id) };
                        }
                        let mut message = "HTTP ".to_owned();
                        message.append(reply.status_text.as_str());
                        message.append(": ");
                        message.append(reply.body.as_str());
                        DispatchState::Finalize {
                            workflow_id,
                            job_id,
                            note: "无法提交到 Restate",
                            error: AppError::external("restate", message),
                        }
                    },
                    Err(reason) => DispatchState::Finalize {
                        workflow_id,
                        job_id,
                        note: "无法连接 Restate",
                        error: AppError::external("restate", reason),
                    },
                },
                other => other,
            },
            DispatchEvent::Finalized(finalized) => match self {
                DispatchState::Finalize { error, .. } => match finalized {
                    Ok(()) => DispatchState::Done { result: Err(error) },
                    Err(second) => DispatchState::Done { result: Err(second) },
                },
                other => other,
            },
        }
    }
}

/// The address at which a handler of a workflow is called.
pub open spec fn handler_url(base_url: Seq<char>, workflow_id: Id, handler: Seq<char>) -> Seq<char> {
    base_url + "/VideoGenerationWorkflow/"@ + hyphenated(workflow_id.value) + "/"@ + handler
        + "/send"@
}

fn call_url(base_url: &str, workflow_id: Id, handler: &str) -> (r: String)
    ensures
        r@ == handler_url(base_url@, workflow_id, handler@),
{
    let id = workflow_id.text();
    let mut url = base_url.to_owned();
    url.append("/VideoGenerationWorkflow/");
    url.append(id.as_str());
    url.append("/");
    url.append(handler);
    url.append("/send");
    url
}

/// The submission of a workflow: where to, and with what. The identifier of the workflow keeps
/// it from being run twice, so no other key goes along.
pub struct Submission {
    pub url: String,
    pub input: WorkflowInput,
}

/// The submission of a new workflow on a project.
pub fn submission(base_url: &str, project_id: Id, workflow_id: Id, job_id: Id) -> (r: Submission)
    ensures
        r.url@ == handler_url(base_url@, workflow_id, "run"@),
        r.input == (WorkflowInput { project_id, job_id, resume_version_id: None }),
{
    Submission {
        url: call_url(base_url, workflow_id, "run"),
        input: WorkflowInput { project_id, job_id, resume_version_id: None },
    }
}

/// The signal that a script was reviewed: where to, and under which key.
pub struct ReviewSignal {
    pub workflow_id: Id,
    pub url: String,
    pub idempotency_key: String,
}

/// The signal for the review of the script of a project that waits for it.
pub fn review_script(base_url: &str, project: &Project) -> (r: AppResult<ReviewSignal>)
    ensures
        project.status@ != "waiting_script_review"@ ==> r is Err && r->Err_0@
            == ErrorView::Conflict("项目状态为 "@ + project.status@),
        project.status@ == "waiting_script_review"@ && project.active_workflow_id is None ==> r is Err
            && r->Err_0@ == ErrorView::Conflict("项目没有活动工作流"@),
        project.status@ == "waiting_script_review"@ ==> (project.active_workflow_id matches Some(
            workflow_id,
        ) ==> {
            &&& r is Ok
            &&& r->Ok_0.workflow_id == workflow_id
            &&& r->Ok_0.url@ == handler_url(base_url@, workflow_id, "review"@)
            &&& r->Ok_0.idempotency_key@ == "review-"@ + hyphenated(workflow_id.value)
        }),
{
    if !str_eq(project.status.as_str(), "waiting_script_review") {
        let mut message = "项目状态为 ".to_owned();
        message.append(project.status.as_str());
        return Err(AppError::Conflict(message));
    }
    let workflow_id = match project.active_workflow_id {
        Some(workflow_id) => workflow_id,
        None => return Err(AppError::Conflict("项目没有活动工作流".to_owned())),
    };
    let id = workflow_id.text();
    let mut idempotency_key = "review-".to_owned();
    idempotency_key.append(id.as_str());
    Ok(
        ReviewSignal {
            workflow_id,
            url: call_url(base_url, workflow_id, "review"),
            idempotency_key,
        },
    )
}

/// What sending the signal came to.
pub fn review_submitted(submitted: Result<TextReply, String>) -> (r: AppResult<()>)
    ensures
        match submitted {
            Ok(reply) => {
                &&& 200 <= reply.status < 300 ==> r is Ok
                &&& !(200 <= reply.status < 300) ==> r is Err && r->Err_0@ == restate_failure(
                    "审核信号提交失败: HTTP "@ + reply.status_text@ + " "@ + reply.body@,
                )
            },
            Err(reason) => r is Err && r->Err_0@ == restate_failure(reason@),
        },
{
    match submitted {
        Ok(reply) => {
            if 200 <= reply.status && reply.status < 300 {
                return Ok(());
            }
            let mut message = "审核信号提交失败: HTTP ".to_owned();
            message.append(reply.status_text.as_str());
            message.append(" ");
            message.append(reply.body.as_str());
            Err(AppError::external("restate", message))
        },
        Err(reason) => Err(AppError::external("restate", reason)),
    }
}

/// How an error is answered.
pub struct ErrorResponse {
    pub status: u16,
    pub code: &'static str,
    pub message: String,
}

/// The status and the code with which an error is answered.
pub open spec fn answer(error: ErrorView) -> (u16, Seq<char>) {
    match error {
        ErrorView::Validation(_) => (400, "validation_error"@),
        ErrorView::NotFound(_) => (404, "not_found"@),
        ErrorView::Conflict(_) => (409, "conflict"@),
        ErrorView::Config(_) => (500, "configuration_error"@),
        ErrorView::External { .. } => (502, "upstream_error"@),
        _ => (500, "internal_error"@),
    }
}

/// The answer to a request that came to an error.
pub fn error_response(error: &AppError) -> (r: ErrorResponse)
    ensures
        (r.status, r.code@) == answer(error@),
        r.message@ == error_text(error@),
{
    let message = error.text();
    match error {
        AppError::Validation(_) => ErrorResponse { status: 400, code: "validation_error", message },
        AppError::NotFound(_) => ErrorResponse { status: 404, code: "not_found", message },
        AppError::Conflict(_) => ErrorResponse { status: 409, code: "conflict", message },
        AppError::Config(_) => ErrorResponse { status: 500, code: "configuration_error", message },
        AppError::External { .. } => ErrorResponse { status: 502, code: "upstream_error", message },
        _ => ErrorResponse { status: 500, code: "internal_error", message },
    }
}

/// Whether the built web pages are there: `found` says whether the index is a file, or why it
/// cannot be looked at.
pub fn validate_web_root(index_path: &str, found: Result<bool, String>) -> (r: AppResult<()>)
    ensures
        match found {
            Ok(true) => r is Ok,
            Ok(false) => r is Err && r->Err_0@ == ErrorView::Config(
                "Web 入口不是普通文件："@ + index_path@
                    + "；请重新执行 pnpm --filter @tktkgo/web build"@,
            ),
            Err(reason) => r is Err && r->Err_0@ == ErrorView::Config(
                "Web 构建产物不存在或不可读："@ + index_path@
                    + "；请先在项目根目录执行 pnpm --filter @tktkgo/web build："@ + reason@,
            ),
        },
{
    match found {
        Ok(true) => Ok(()),
        Ok(false) => {
            let mut message = "Web 入口不是普通文件：".to_owned();
            message.append(index_path);
            message.append("；请重新执行 pnpm --filter @tktkgo/web build");
            Err(AppError::Config(message))
        },
        Err(reason) => {
            let mut message = "Web 构建产物不存在或不可读：".to_owned();
            message.append(index_path);
            message.append("；请先在项目根目录执行 pnpm --filter @tktkgo/web build：");
            message.append(reason.as_str());
            Err(AppError::Config(message))
        },
    }
}

/// Once a workflow was made the active one of a project, the start either succeeds with it, or
/// brings the project to rest as failed, with a reason and without a workflow, before it
/// reports an error.
pub proof fn law_failed_submission_is_finalized(
    project_id: Id,
    workflow_id: Id,
    job_id: Id,
    submitted: DispatchEvent,
    next: DispatchState,
    update: Option<ProjectUpdate>,
    row: Project,
    now: i64,
    finalized: DispatchEvent,
    last: DispatchState,
)
    requires
        (DispatchState::Submit { workflow_id, job_id }).admits(submitted),
        (DispatchState::Submit { workflow_id, job_id }).leads_to(submitted, next),
        next.writes_project(project_id, update),
        row.id == project_id,
        row.active_workflow_id == Some(workflow_id),
        next.admits(finalized) ==> next.leads_to(finalized, last),
    ensures
        next == (DispatchState::Done { result: Ok(workflow_id) }) || next is Finalize,
        next is Done ==> update is None,
        next is Finalize ==> {
            let rested = update->0.effect(row, now);
            &&& next->Finalize_workflow_id == workflow_id
            &&& next->Finalize_job_id == job_id
            &&& update is Some
            &&& update->0.applies_to(row)
            &&& rested.status@ == "failed"@
            &&& rested.error_message is Some
            &&& rested.error_message->0@ == next->note@
            &&& rested.active_workflow_id is None
        },
        next is Finalize && next.admits(finalized) ==> last is Done && last->result is Err,
{
}

/// Nothing is queued of a project that chooses what the catalog does not offer.
pub proof fn law_unavailable_choice_is_not_queued(
    project: Project,
    catalog: ProviderCatalog,
    next: DispatchState,
)
    requires
        choices_problem(catalog, chosen(project)) is Some,
        (DispatchState::FetchCatalog { project }).leads_to(
            DispatchEvent::Catalog(Ok(catalog)),
            next,
        ),
    ensures
        next is Done && next->result is Err,
{
}

/// A project that was created is reported as it is stored, whether or not it could be started.
pub proof fn law_created_project_is_reported(
    request: CreateProjectRequest,
    project_id: Id,
    dispatched: AppResult<Id>,
    next: CreateState,
    loaded: AppResult<Project>,
    last: CreateState,
)
    requires
        (CreateState::Dispatch { project_id }).leads_to(
            request,
            CreateEvent::Dispatched(dispatched),
            next,
        ),
        next.leads_to(request, CreateEvent::Loaded(loaded), last),
    ensures
        next == (CreateState::Reload { project_id }),
        last == (CreateState::Done { result: loaded }),
{
}

/// What a request chooses passes exactly where the catalog lists, for each of text, image,
/// speech and captions, the chosen provider with the chosen model as available; else the first
/// choice that it does not offer is named.
pub proof fn law_requested_choices_are_offered(
    catalog: ProviderCatalog,
    request: CreateProjectRequest,
    r: AppResult<()>,
)
    requires
        call_ensures(ensure_requested_providers_available, (&catalog, &request), r),
    ensures
        ({
            let text = (exists|i: int|
                #![trigger catalog.text@[i]]
                0 <= i < catalog.text@.len() && catalog.text@[i].available && catalog.text@[i].id@
                    == request.text_provider@ && catalog.text@[i].model@ == request.text_model@);
            let image = (exists|i: int|
                #![trigger catalog.image@[i]]
                0 <= i < catalog.image@.len() && catalog.image@[i].available && catalog.image@[i].id@
                    == request.image_provider@ && catalog.image@[i].model@ == request.image_model@);
            let speech = (exists|i: int|
                #![trigger catalog.speech@[i]]
                0 <= i < catalog.speech@.len() && catalog.speech@[i].available && catalog.speech@[i].id@
                    == request.speech_provider@ && catalog.speech@[i].model@ == request.speech_model@);
            let captions = (exists|i: int|
                #![trigger catalog.alignment@[i]]
                0 <= i < catalog.alignment@.len() && catalog.alignment@[i].available && catalog.alignment@[i].id@
                    == request.transcription_provider@ && catalog.alignment@[i].model@ == request.transcription_model@);
            let refused = " Provider/模型当前不可用: "@;
            &&& r is Ok <==> text && image && speech && captions
            &&& !text ==> r->Err_0@ == ErrorView::Conflict(
                "文案"@ + refused + request.text_provider@ + "/"@ + request.text_model@,
            )
            &&& text && !image ==> r->Err_0@ == ErrorView::Conflict(
                "图片"@ + refused + request.image_provider@ + "/"@ + request.image_model@,
            )
            &&& text && image && !speech ==> r->Err_0@ == ErrorView::Conflict(
                "口播"@ + refused + request.speech_provider@ + "/"@ + request.speech_model@,
            )
            &&& text && image && speech && !captions ==> r->Err_0@ == ErrorView::Conflict(
                "字幕"@ + refused + request.transcription_provider@ + "/"@
                    + request.transcription_model@,
            )
        }),
{
}

/// What a project was created with passes exactly where the catalog lists, for each of text,
/// image, speech and captions, the chosen provider with the chosen model as available; else the
/// first choice that it does not offer is named.
pub proof fn law_project_choices_are_offered(
    catalog: ProviderCatalog,
    project: Project,
    r: AppResult<()>,
)
    requires
        call_ensures(ensure_project_providers_available, (&catalog, &project), r),
    ensures
        ({
            let text = (exists|i: int|
                #![trigger catalog.text@[i]]
                0 <= i < catalog.text@.len() && catalog.text@[i].available && catalog.text@[i].id@
                    == project.text_provider@ && catalog.text@[i].model@ == project.text_model@);
            let image = (exists|i: int|
                #![trigger catalog.image@[i]]
                0 <= i < catalog.image@.len() && catalog.image@[i].available && catalog.image@[i].id@
                    == project.image_provider@ && catalog.image@[i].model@ == project.image_model@);
            let speech = (exists|i: int|
                #![trigger catalog.speech@[i]]
                0 <= i < catalog.speech@.len() && catalog.speech@[i].available && catalog.speech@[i].id@
                    == project.speech_provider@ && catalog.speech@[i].model@ == project.speech_model@);
            let captions = (exists|i: int|
                #![trigger catalog.alignment@[i]]
                0 <= i < catalog.alignment@.len() && catalog.alignment@[i].available && catalog.alignment@[i].id@
                    == project.transcription_provider@ && catalog.alignment@[i].model@ == project.transcription_model@);
            let refused = " Provider/模型当前不可用: "@;
            &&& r is Ok <==> text && image && speech && captions
            &&& !text ==> r->Err_0@ == ErrorView::Conflict(
                "文案"@ + refused + project.text_provider@ + "/"@ + project.text_model@,
            )
            &&& text && !image ==> r->Err_0@ == ErrorView::Conflict(
                "图片"@ + refused + project.image_provider@ + "/"@ + project.image_model@,
            )
            &&& text && image && !speech ==> r->Err_0@ == ErrorView::Conflict(
                "口播"@ + refused + project.speech_provider@ + "/"@ + project.speech_model@,
            )
            &&& text && image && speech && !captions ==> r->Err_0@ == ErrorView::Conflict(
                "字幕"@ + refused + project.transcription_provider@ + "/"@
                    + project.transcription_model@,
            )
        }),
{
}

/// A choice passes exactly where one option is available and has both the provider and the model;
/// a provider that is there with another model, or is down, does not count.
pub proof fn law_choice_is_offered(
    capability: &str,
    options: &[ProviderOption],
    provider: &str,
    model: &str,
    r: AppResult<()>,
)
    requires
        call_ensures(ensure_catalog_choice, (capability, options, provider, model), r),
    ensures
        r is Ok <==> exists|i: int|
            #![trigger options@[i]]
            0 <= i < options@.len() && options@[i].available && options@[i].id@ == provider@
                && options@[i].model@ == model@,
        r is Err ==> r->Err_0@ == ErrorView::Conflict(
            capability@ + " Provider/模型当前不可用: "@ + provider@ + "/"@ + model@,
        ),
{
}

/// A project is created only from a valid request, and only where the catalog offers what it
/// chooses; its row then has the choices of the request, and it is started exactly where the
/// request asks for that.
pub proof fn law_creation_of_a_project(
    request: CreateProjectRequest,
    begun: CreateState,
    valid: AppResult<()>,
    catalog: ProviderCatalog,
    offered: AppResult<()>,
    checked: CreateState,
    row: NewProject,
    project_id: Id,
    inserted: CreateState,
)
    requires
        call_ensures(CreateState::begin, (&request,), begun),
        call_ensures(CreateProjectRequest::validate, (&request,), valid),
        call_ensures(ensure_requested_providers_available, (&catalog, &request), offered),
        call_ensures(
            CreateState::step,
            (CreateState::FetchCatalog, &request, CreateEvent::Catalog(Ok(catalog))),
            checked,
        ),
        call_ensures(
            CreateState::step,
            (CreateState::Insert { row }, &request, CreateEvent::Inserted(Ok(project_id))),
            inserted,
        ),
    ensures
        valid is Ok ==> begun == CreateState::FetchCatalog,
        valid is Err ==> begun is Done && begun->result is Err && begun->result->Err_0@
            == valid->Err_0@,
        checked is Insert <==> offered is Ok && valid is Ok,
        offered is Err ==> checked is Done && checked->result is Err && checked->result->Err_0@
            == offered->Err_0@,
        checked is Insert ==> {
            let stored = checked->row;
            &&& stored.text_provider == request.text_provider && stored.text_model
                == request.text_model
            &&& stored.image_provider == request.image_provider && stored.image_model
                == request.image_model
            &&& stored.speech_provider == request.speech_provider && stored.speech_model
                == request.speech_model
            &&& stored.transcription_provider == request.transcription_provider
                && stored.transcription_model == request.transcription_model
        },
        request.auto_start ==> inserted == (CreateState::Dispatch { project_id }),
        !request.auto_start ==> inserted == (CreateState::Reload { project_id }),
{
}

/// An error at any step of the creation of a project is what the creation comes to, but for one
/// in starting the project, which is then reported as it is stored.
pub proof fn law_creation_reports_errors(
    request: CreateProjectRequest,
    error: AppError,
    row: NewProject,
    project_id: Id,
    fetched: CreateState,
    inserted: CreateState,
    loaded: CreateState,
)
    requires
        call_ensures(
            CreateState::step,
            (CreateState::FetchCatalog, &request, CreateEvent::Catalog(Err(error))),
            fetched,
        ),
        call_ensures(
            CreateState::step,
            (CreateState::Insert { row }, &request, CreateEvent::Inserted(Err(error))),
            inserted,
        ),
        call_ensures(
            CreateState::step,
            (CreateState::Reload { project_id }, &request, CreateEvent::Loaded(Err(error))),
            loaded,
        ),
    ensures
        fetched == (CreateState::Done { result: Err(error) }),
        inserted == (CreateState::Done { result: Err(error) }),
        loaded == (CreateState::Done { result: Err(error) }),
{
}

/// A start goes from the project to the catalog, is queued under fresh identifiers only where the
/// catalog offers what the project was created with, and is submitted under just these.
pub proof fn law_course_of_a_start(
    project: Project,
    catalog: ProviderCatalog,
    offered: AppResult<()>,
    workflow_id: Id,
    job_id: Id,
    loaded: DispatchState,
    checked: DispatchState,
    queued: DispatchState,
)
    requires
        call_ensures(
            DispatchState::step,
            (DispatchState::LoadProject, DispatchEvent::Project(Ok(project))),
            loaded,
        ),
        call_ensures(ensure_project_providers_available, (&catalog, &project), offered),
        call_ensures(
            DispatchState::step,
            (DispatchState::FetchCatalog { project }, DispatchEvent::Catalog(Ok(catalog))),
            checked,
        ),
        call_ensures(
            DispatchState::step,
            (DispatchState::Queue { workflow_id, job_id }, DispatchEvent::Queued(Ok(()))),
            queued,
        ),
    ensures
        loaded == (DispatchState::FetchCatalog { project }),
        offered is Ok <==> checked is Queue,
        checked is Queue ==> is_random_id(checked->Queue_workflow_id) && is_random_id(
            checked->Queue_job_id,
        ),
        offered is Err ==> checked is Done && checked->result is Err && checked->result->Err_0@
            == offered->Err_0@,
        queued == (DispatchState::Submit { workflow_id, job_id }),
{
}

/// A start that fails before it is queued, or in being queued, ends with the error: nothing is
/// submitted.
pub proof fn law_failed_start_is_not_submitted(
    project: Project,
    workflow_id: Id,
    job_id: Id,
    error: AppError,
    unloaded: DispatchState,
    unlisted: DispatchState,
    unqueued: DispatchState,
)
    requires
        call_ensures(
            DispatchState::step,
            (DispatchState::LoadProject, DispatchEvent::Project(Err(error))),
            unloaded,
        ),
        call_ensures(
            DispatchState::step,
            (DispatchState::FetchCatalog { project }, DispatchEvent::Catalog(Err(error))),
            unlisted,
        ),
        call_ensures(
            DispatchState::step,
            (DispatchState::Queue { workflow_id, job_id }, DispatchEvent::Queued(Err(error))),
            unqueued,
        ),
    ensures
        unloaded == (DispatchState::Done { result: Err(error) }),
        unlisted == (DispatchState::Done { result: Err(error) }),
        unqueued == (DispatchState::Done { result: Err(error) }),
{
}

/// A submission succeeds with the workflow exactly where the engine replies with a status in the
/// two hundreds; else the project is given up, with a note that tells a refusal from an engine
/// that cannot be reached, and with an error that quotes the reply or the reason.
pub proof fn law_submission_and_its_reply(
    workflow_id: Id,
    job_id: Id,
    reply: TextReply,
    reason: String,
    replied: DispatchState,
    unreached: DispatchState,
)
    requires
        call_ensures(
            DispatchState::step,
            (
                DispatchState::Submit { workflow_id, job_id },
                DispatchEvent::Submitted(Ok(reply)),
            ),
            replied,
        ),
        call_ensures(
            DispatchState::step,
            (
                DispatchState::Submit { workflow_id, job_id },
                DispatchEvent::Submitted(Err(reason)),
            ),
            unreached,
        ),
    ensures
        reply.status as int / 100 == 2 ==> replied == (DispatchState::Done {
            result: Ok(workflow_id),
        }),
        reply.status as int / 100 != 2 ==> {
            &&& replied is Finalize
            &&& replied->Finalize_workflow_id == workflow_id
            &&& replied->Finalize_job_id == job_id
            &&& replied->note@ == "无法提交到 Restate"@
            &&& replied->error@ == (ErrorView::External {
                service: "restate"@,
                message: "HTTP "@ + reply.status_text@ + ": "@ + reply.body@,
            })
        },
        unreached is Finalize,
        unreached->Finalize_workflow_id == workflow_id,
        unreached->Finalize_job_id == job_id,
        unreached->note@ == "无法连接 Restate"@,
        unreached->error@ == (ErrorView::External { service: "restate"@, message: reason@ }),
{
}

/// A project that is given up comes to rest as failed, with the note and without a workflow, if
/// the workflow is still its own; its job is closed as failed too, and the caller is told the
/// error.
pub proof fn law_given_up_project(
    project_id: Id,
    workflow_id: Id,
    job_id: Id,
    note: &'static str,
    error: AppError,
    update: Option<ProjectUpdate>,
    job: Option<JobUpdate>,
    closed: DispatchState,
    second: AppError,
    unclosed: DispatchState,
)
    requires
        ({
            let state = DispatchState::Finalize { workflow_id, job_id, note, error };
            &&& call_ensures(DispatchState::project_write, (&state, project_id), update)
            &&& call_ensures(DispatchState::job_write, (&state,), job)
            &&& call_ensures(
                DispatchState::step,
                (state, DispatchEvent::Finalized(Ok(()))),
                closed,
            )
            &&& call_ensures(
                DispatchState::step,
                (state, DispatchEvent::Finalized(Err(second))),
                unclosed,
            )
        }),
    ensures
        update is Some,
        update->0.project_id == project_id,
        update->0.guard == ProjectGuard::ActiveWorkflow(workflow_id),
        update->0.status@ == "failed"@,
        update->0.error_message is Some && update->0.error_message->0@ == note@,
        update->0.workflow == WorkflowChange::Clear,
        job is Some,
        job->0.job_id == job_id && job->0.status@ == "failed"@,
        job->0.stage@ == "queued"@ && job->0.error_code is None && !job->0.resumable,
        job->0.error_message is Some && job->0.error_message->0@ == note@,
        closed == (DispatchState::Done { result: Err(error) }),
        unclosed == (DispatchState::Done { result: Err(second) }),
{
}

/// A workflow is submitted to the address of its own run, with the project and the job that it is
/// for, and as a new version.
pub proof fn law_submission_is_of_its_workflow(
    base_url: &str,
    project_id: Id,
    workflow_id: Id,
    job_id: Id,
    r: Submission,
)
    requires
        call_ensures(submission, (base_url, project_id, workflow_id, job_id), r),
    ensures
        r.input.project_id == project_id,
        r.input.job_id == job_id,
        r.input.resume_version_id is None,
        r.url@ == base_url@ + "/VideoGenerationWorkflow/"@ + hyphenated(workflow_id.value)
            + "/run/send"@,
{
    reveal_strlit("run");
    reveal_strlit("/");
    reveal_strlit("/send");
    reveal_strlit("/run/send");
    assert("/"@ + "run"@ + "/send"@ =~= "/run/send"@);
    assert(r.url@ =~= base_url@ + "/VideoGenerationWorkflow/"@ + hyphenated(workflow_id.value)
        + "/run/send"@);
}

/// A review is signalled to the active workflow of a project that waits for it, and to no other;
/// two signals to one workflow have one key, so that the second changes nothing.
pub proof fn law_review_goes_to_the_active_workflow(
    base_url: &str,
    project: Project,
    r: AppResult<ReviewSignal>,
)
    requires
        call_ensures(review_script, (base_url, &project), r),
    ensures
        r is Ok <==> project.status@ == "waiting_script_review"@ && project.active_workflow_id
            is Some,
        r is Ok ==> {
            let workflow_id = project.active_workflow_id->0;
            &&& r->Ok_0.workflow_id == workflow_id
            &&& r->Ok_0.url@ == base_url@ + "/VideoGenerationWorkflow/"@ + hyphenated(
                workflow_id.value,
            ) + "/review/send"@
            &&& r->Ok_0.idempotency_key@ == "review-"@ + hyphenated(workflow_id.value)
        },
        project.status@ != "waiting_script_review"@ ==> r->Err_0@ == ErrorView::Conflict(
            "项目状态为 "@ + project.status@,
        ),
        project.status@ == "waiting_script_review"@ && project.active_workflow_id is None
            ==> r->Err_0@ == ErrorView::Conflict("项目没有活动工作流"@),
{
    if r is Ok {
        let id = hyphenated(project.active_workflow_id->0.value);
        reveal_strlit("review");
        reveal_strlit("/");
        reveal_strlit("/send");
        reveal_strlit("/review/send");
        assert("/"@ + "review"@ + "/send"@ =~= "/review/send"@);
        assert(r->Ok_0.url@ =~= base_url@ + "/VideoGenerationWorkflow/"@ + id + "/review/send"@);
    }
}

/// A signal got through exactly where the engine replies with a status in the two hundreds; else
/// its reply, or why there is none, is told.
pub proof fn law_review_reply(submitted: Result<TextReply, String>, r: AppResult<()>)
    requires
        call_ensures(review_submitted, (submitted,), r),
    ensures
        r is Ok <==> submitted is Ok && submitted->Ok_0.status as int / 100 == 2,
        r is Err ==> r->Err_0@ is External && r->Err_0@->External_service == "restate"@,
        r is Err && submitted is Err ==> r->Err_0@->External_message == submitted->Err_0@,
        r is Err && submitted is Ok ==> r->Err_0@->External_message
            == "审核信号提交失败: HTTP "@ + submitted->Ok_0.status_text@ + " "@
            + submitted->Ok_0.body@,
{
}

/// Errors are answered by whose fault they are: those of the request with 400, 404 or 409, those
/// of a service behind with 502, and all others with 500; each with a code of its kind and the
/// text under which it is recorded.
pub proof fn law_errors_are_answered_by_kind(error: AppError, text: String, r: ErrorResponse)
    requires
        call_ensures(AppError::text, (&error,), text),
        call_ensures(error_response, (&error,), r),
    ensures
        r.message@ == text@,
        error is Validation <==> r.status == 400,
        error is Validation ==> r.code@ == "validation_error"@,
        error is NotFound <==> r.status == 404,
        error is NotFound ==> r.code@ == "not_found"@,
        error is Conflict <==> r.status == 409,
        error is Conflict ==> r.code@ == "conflict"@,
        error is External <==> r.status == 502,
        error is External ==> r.code@ == "upstream_error"@,
        error is Config || error is Database || error is Pool || error is Serialization || error
            is Io || error is Internal <==> r.status == 500,
        error is Config ==> r.code@ == "configuration_error"@,
        error is Database || error is Pool || error is Serialization || error is Io || error
            is Internal ==> r.code@ == "internal_error"@,
{
}

/// The web pages are there exactly where their index is a file.
pub proof fn law_web_root(index_path: &str, found: Result<bool, String>, r: AppResult<()>)
    requires
        call_ensures(validate_web_root, (index_path, found), r),
    ensures
        r is Ok <==> found == Ok::<bool, String>(true),
        r is Err ==> r->Err_0@ is Config && says(r->Err_0@->Config_0, index_path@),
        found is Err ==> found->Err_0@.is_suffix_of(r->Err_0@->Config_0),
{
    match found {
        Ok(false) => {
            lemma_says(
                r->Err_0@->Config_0,
                "Web 入口不是普通文件："@,
                index_path@,
                "；请重新执行 pnpm --filter @tktkgo/web build"@,
            );
        },
        Err(reason) => {
            let tail = "；请先在项目根目录执行 pnpm --filter @tktkgo/web build："@ + reason@;
            let text = r->Err_0@->Config_0;
            assert(text =~= "Web 构建产物不存在或不可读："@ + index_path@ + tail);
            lemma_says(text, "Web 构建产物不存在或不可读："@, index_path@, tail);
            assert(text.subrange(text.len() - reason@.len(), text.len() as int) =~= reason@);
        },
        _ => {},
    }
}

/// Nothing is written of a start that is not given up.
pub proof fn law_start_that_is_not_given_up(
    state: DispatchState,
    project_id: Id,
    update: Option<ProjectUpdate>,
    job: Option<JobUpdate>,
)
    requires
        !(state is Finalize),
        call_ensures(DispatchState::project_write, (&state, project_id), update),
        call_ensures(DispatchState::job_write, (&state,), job),
    ensures
        update is None && job is None,
{
}

} // verus!
