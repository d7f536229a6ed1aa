//! The rules of the control plane: what a request makes of a job, and what
//! a failure looks like to the client.
//!
//! The transport is the caller's part. On create and update the caller
//! validates through these functions, persists what they return, and then
//! asks the engine to reload the job.

use vstd::prelude::*;
use vstd::string::*;
use crate::clock::rfc3339_text;
use crate::job::{JobRaw, JobRawView};
use crate::schedule::{cron_is_valid, cron_rejection, validate_cron};
use crate::status::JobStatus;
use crate::text::{join, text_view};

verus! {

/// The body of a create or update request.
#[derive(Debug)]
pub struct JobRequest {
    pub name: String,
    pub cron: String,
    pub task_type: String,
    pub payload: String,
}

/// A job as the control plane shows it.
#[derive(Debug)]
pub struct JobResponse {
    pub id: String,
    pub name: String,
    pub cron: String,
    pub task_type: String,
    pub payload: String,
    pub last_run: Option<String>,
    pub status: String,
}

/// Why a request failed.
#[derive(Debug)]
pub enum JobApiError {
    DatabaseError(String),
    NotFound,
    InvalidCron(String),
    InvalidPayload(String),
}

/// The mathematical form of a request.
pub struct JobRequestView {
    pub name: Seq<char>,
    pub cron: Seq<char>,
    pub task_type: Seq<char>,
    pub payload: Seq<char>,
}

/// The mathematical form of a response.
pub struct JobResponseView {
    pub id: Seq<char>,
    pub name: Seq<char>,
    pub cron: Seq<char>,
    pub task_type: Seq<char>,
    pub payload: Seq<char>,
    pub last_run: Option<Seq<char>>,
    pub status: Seq<char>,
}

/// The mathematical form of a failure.
pub enum JobApiErrorView {
    DatabaseError(Seq<char>),
    NotFound,
    InvalidCron(Seq<char>),
    InvalidPayload(Seq<char>),
}

impl View for JobRequest {
    type V = JobRequestView;

    open spec fn view(&self) -> JobRequestView {
        JobRequestView {
            name: self.name@,
            cron: self.cron@,
            task_type: self.task_type@,
            payload: self.payload@,
        }
    }
}

impl View for JobResponse {
    type V = JobResponseView;

    open spec fn view(&self) -> JobResponseView {
        JobResponseView {
            id: self.id@,
            name: self.name@,
            cron: self.cron@,
            task_type: self.task_type@,
            payload: self.payload@,
            last_run: text_view(self.last_run),
            status: self.status@,
        }
    }
}

impl View for JobApiError {
    type V = JobApiErrorView;

    open spec fn view(&self) -> JobApiErrorView {
        match self {
            JobApiError::DatabaseError(m) => JobApiErrorView::DatabaseError(m@),
            JobApiError::NotFound => JobApiErrorView::NotFound,
            JobApiError::InvalidCron(m) => JobApiErrorView::InvalidCron(m@),
            JobApiError::InvalidPayload(m) => JobApiErrorView::InvalidPayload(m@),
        }
    }
}

impl JobApiErrorView {
    /// The HTTP status of the failure: 500 for the database, 404 for a
    /// missing job, 400 for a request that does not validate.
    pub open spec fn status_code(self) -> u16 {
        match self {
            JobApiErrorView::DatabaseError(_) => 500,
            JobApiErrorView::NotFound => 404,
            JobApiErrorView::InvalidCron(_) => 400,
            JobApiErrorView::InvalidPayload(_) => 400,
        }
    }

    /// The body of the HTTP response.
    pub open spec fn body(self) -> Seq<char> {
        match self {
            JobApiErrorView::DatabaseError(m) => "Database error: "@ + m,
            JobApiErrorView::NotFound => "Job not found"@,
            JobApiErrorView::InvalidCron(m) => "Invalid cron: "@ + m,
            JobApiErrorView::InvalidPayload(m) => "Invalid payload: "@ + m,
        }
    }

    /// The failure in words.
    pub open spec fn message(self) -> Seq<char> {
        match self {
            JobApiErrorView::DatabaseError(m) => "Database error: "@ + m,
            JobApiErrorView::NotFound => "Job not found"@,
            JobApiErrorView::InvalidCron(m) => "Invalid cron expression: "@ + m,
            JobApiErrorView::InvalidPayload(m) => "Invalid payload format: "@ + m,
        }
    }
}

impl JobApiError {
    /// The HTTP status of the failure.
    pub fn status_code(&self) -> (code: u16)
        ensures
            code == self@.status_code(),
    {
        match self {
            JobApiError::DatabaseError(_) => 500,
            JobApiError::NotFound => 404,
            JobApiError::InvalidCron(_) => 400,
            JobApiError::InvalidPayload(_) => 400,
        }
    }

    /// The body of the HTTP response.
    pub fn error_response(&self) -> (body: String)
        ensures
            body@ == self@.body(),
    {
        match self {
            JobApiError::DatabaseError(m) => join("Database error: ", m.as_str()),
            JobApiError::NotFound => String::from_str("Job not found"),
            JobApiError::InvalidCron(m) => join("Invalid cron: ", m.as_str()),
            JobApiError::InvalidPayload(m) => join("Invalid payload: ", m.as_str()),
        }
    }

    /// The failure in words.
    pub fn to_string(&self) -> (text: String)
        ensures
            text@ == self@.message(),
    {
        match self {
            JobApiError::DatabaseError(m) => join("Database error: ", m.as_str()),
            JobApiError::NotFound => String::from_str("Job not found"),
            JobApiError::InvalidCron(m) => join("Invalid cron expression: ", m.as_str()),
            JobApiError::InvalidPayload(m) => join("Invalid payload format: ", m.as_str()),
        }
    }
}

impl JobRawView {
    /// The job as the control plane shows it: the last run as RFC 3339
    /// text, the status as its name.
    pub open spec fn response(self) -> JobResponseView {
        JobResponseView {
            id: self.id,
            name: self.name,
            cron: self.cron,
            task_type: self.task_type,
            payload: self.payload,
            last_run: match self.last_run {
                Some(t) => rfc3339_text(t.secs, t.nanos),
                None => None,
            },
            status: self.status.name(),
        }
    }
}

impl JobRequestView {
    /// The job that a create request makes under `id`: scheduled, never
    /// run.
    pub open spec fn created(self, id: Seq<char>) -> JobRawView {
        JobRawView {
            id,
            name: self.name,
            cron: self.cron,
            task_type: self.task_type,
            payload: self.payload,
            last_run: None,
            status: JobStatus::Scheduled,
            message: None,
        }
    }

    /// The job that an update request makes of `existing`: the id and the
    /// last run stay, the rest is replaced, and the job is scheduled anew.
    pub open spec fn applied_to(self, existing: JobRawView) -> JobRawView {
        JobRawView {
            id: existing.id,
            name: self.name,
            cron: self.cron,
            task_type: self.task_type,
            payload: self.payload,
            last_run: existing.last_run,
            status: JobStatus::Scheduled,
            message: None,
        }
    }

    /// What validation makes of the request: nothing to object to, or an
    /// invalid cron expression with the evaluator's reason.
    pub open spec fn objection(self) -> Option<JobApiErrorView> {
        match cron_rejection(self.cron) {
            Some(reason) => Some(JobApiErrorView::InvalidCron(reason)),
            None => None,
        }
    }
}

impl JobResponse {
    /// The job as the control plane shows it.
    pub fn from(job: JobRaw) -> (response: JobResponse)
        ensures
            response@ == job@.response(),
    {
        let last_run = match &job.last_run {
            Some(t) => t.to_rfc3339(),
            None => None,
        };
        let status = job.status.to_string();
        JobResponse {
            id: job.id,
            name: job.name,
            cron: job.cron,
            task_type: job.task_type,
            payload: job.payload,
            last_run,
            status,
        }
    }
}

/// The view of the outcome of a request that yields a job.
pub open spec fn job_outcome_view(r: Result<JobRaw, JobApiError>) -> Result<
    JobRawView,
    JobApiErrorView,
> {
    match r {
        Ok(job) => Ok(job@),
        Err(e) => Err(e@),
    }
}

/// A digit or one of the letters `a` to `f`.
pub open spec fn is_lower_hex(c: char) -> bool {
    (48 <= c as u32 <= 57) || (97 <= c as u32 <= 102)
}

/// The text of a random UUID (version 4): 36 characters, lower-case
/// hexadecimal digits in groups of 8, 4, 4, 4 and 12 with a hyphen between
/// two groups; the third group begins with the version `4` and the fourth
/// with one of `8`, `9`, `a`, `b`.
pub open spec fn is_uuid_v4_text(id: Seq<char>) -> bool {
    &&& id.len() == 36
    &&& forall|i: int|
        0 <= i < 36 ==> if i == 8 || i == 13 || i == 18 || i == 23 {
            #[trigger] id[i] == '-'
        } else {
            is_lower_hex(id[i])
        }
    &&& id[14] == '4'
    &&& (id[19] == '8' || id[19] == '9' || id[19] == 'a' || id[19] == 'b')
}

/// `uuid::Uuid::new_v4`, written out by its `Display`: a fresh random id.
/// Which id comes is left open; every one has the hyphenated lower-case
/// form with the version and variant digits that `new_v4` sets.
#[verifier::external_body]
fn new_uuid_v4() -> (id: String)
    ensures
        is_uuid_v4_text(id@),
{
    uuid::Uuid::new_v4().to_string()
}

/// Validates a request: its cron expression must be one that the evaluator
/// accepts.
pub fn validate_request(request: &JobRequest) -> (r: Result<(), JobApiError>)
    ensures
        match r {
            Ok(_) => request@.objection() is None,
            Err(e) => request@.objection() == Some(e@),
        },
        r is Ok == cron_is_valid(request.cron@),
{
    match validate_cron(request.cron.as_str()) {
        Ok(_) => Ok(()),
        Err(reason) => Err(JobApiError::InvalidCron(reason)),
    }
}

/// The job that a valid create request makes under `id`; an invalid
/// request is refused and nothing is to be persisted.
pub fn job_from_request(id: String, request: &JobRequest) -> (r: Result<JobRaw, JobApiError>)
    ensures
        job_outcome_view(r) == match request@.objection() {
            Some(e) => Err::<JobRawView, JobApiErrorView>(e),
            None => Ok::<JobRawView, JobApiErrorView>(request@.created(id@)),
        },
{
    match validate_request(request) {
        Err(e) => Err(e),
        Ok(_) => Ok(
            JobRaw {
                id,
                name: request.name.clone(),
                cron: request.cron.clone(),
                task_type: request.task_type.clone(),
                payload: request.payload.clone(),
                last_run: None,
                status: JobStatus::Scheduled,
                message: None,
            },
        ),
    }
}

/// Handles a create request: a valid one yields the job to persist, under a
/// fresh random id in UUID form; an invalid one is refused.
pub fn create_job(request: &JobRequest) -> (r: Result<JobRaw, JobApiError>)
    ensures
        match r {
            Ok(job) => request@.objection() is None && job@ == request@.created(job@.id)
                && is_uuid_v4_text(job@.id),
            Err(e) => request@.objection() == Some(e@),
        },
{
    match validate_request(request) {
        Err(e) => Err(e),
        Ok(_) => job_from_request(new_uuid_v4(), request),
    }
}

/// Handles an update request for the job found under the id, if any: a
/// missing job is not found, an invalid request is refused, and a valid one
/// yields the job to persist.
pub fn update_job(existing: Option<&JobRaw>, request: &JobRequest) -> (r: Result<
    JobRaw,
    JobApiError,
>)
    ensures
        job_outcome_view(r) == match request@.objection() {
            Some(e) => Err::<JobRawView, JobApiErrorView>(e),
            None => match existing {
                Some(job) => Ok::<JobRawView, JobApiErrorView>(request@.applied_to(job@)),
                None => Err::<JobRawView, JobApiErrorView>(JobApiErrorView::NotFound),
            },
        },
{
    match validate_request(request) {
        Err(e) => Err(e),
        Ok(_) => match existing {
            None => Err(JobApiError::NotFound),
            Some(job) => Ok(
                JobRaw {
                    id: job.id.clone(),
                    name: request.name.clone(),
                    cron: request.cron.clone(),
                    task_type: request.task_type.clone(),
                    payload: request.payload.clone(),
                    last_run: job.last_run,
                    status: JobStatus::Scheduled,
                    message: None,
                },
            ),
        },
    }
}

/// Handles a read of one job: the job found, as a response, or not found.
pub fn get_job_by_id(found: Option<JobRaw>) -> (r: Result<JobResponse, JobApiError>)
    ensures
        match found {
            Some(job) => r is Ok && r->Ok_0@ == job@.response(),
            None => r is Err && r->Err_0@ == JobApiErrorView::NotFound,
        },
{
    match found {
        Some(job) => Ok(JobResponse::from(job)),
        None => Err(JobApiError::NotFound),
    }
}

/// Handles a read of all jobs: each job of the snapshot as a response, in
/// order.
pub fn list_jobs(jobs: Vec<JobRaw>) -> (responses: Vec<JobResponse>)
    ensures
        responses@.len() == jobs@.len(),
        forall|i: int| 0 <= i < jobs@.len() ==> (#[trigger] responses@[i])@ == jobs@[i]@.response(),
{
    let mut responses: Vec<JobResponse> = Vec::new();
    let mut i: usize = 0;
    while i < jobs.len()
        invariant
            i <= jobs@.len(),
            responses@.len() == i,
            forall|j: int| 0 <= j < i ==> (#[trigger] responses@[j])@ == jobs@[j]@.response(),
        decreases jobs@.len() - i,
    {
        responses.push(JobResponse::from(jobs[i].clone()));
        i = i + 1;
    }
    responses
}

} // verus!
