//! The shape of a job in the `jobs` table, and the way in and out of it.
//!
//! A row is `(id, name, cron, task_type, payload, last_run, status)`, the
//! last three nullable. Instants are stored as RFC 3339 text in UTC and
//! statuses as their lower-case names. Talking to the database is the
//! caller's part.

use vstd::prelude::*;
use vstd::string::*;
use crate::clock::{UtcInstant, instant_of_parts, rfc3339_instant, rfc3339_text};
use crate::job::{JobRaw, JobRawView};
use crate::status::JobStatus;
use crate::text::{skip_chars, starts_with, text_view};

verus! {

/// One row of the `jobs` table.
#[derive(Debug)]
pub struct JobRow {
    pub id: String,
    pub name: String,
    pub cron: String,
    pub task_type: String,
    pub payload: Option<String>,
    pub last_run: Option<String>,
    pub status: Option<String>,
}

/// The mathematical form of a row.
pub struct JobRowView {
    pub id: Seq<char>,
    pub name: Seq<char>,
    pub cron: Seq<char>,
    pub task_type: Seq<char>,
    pub payload: Option<Seq<char>>,
    pub last_run: Option<Seq<char>>,
    pub status: Option<Seq<char>>,
}

impl View for JobRow {
    type V = JobRowView;

    open spec fn view(&self) -> JobRowView {
        JobRowView {
            id: self.id@,
            name: self.name@,
            cron: self.cron@,
            task_type: self.task_type@,
            payload: text_view(self.payload),
            last_run: text_view(self.last_run),
            status: text_view(self.status),
        }
    }
}

/// Why a job could not be taken from or put into a row.
#[derive(Debug, Clone, Copy, PartialEq, Eq, Structural)]
pub enum StoreError {
    /// The `last_run` column holds a text that is no RFC 3339 instant.
    BadTimestamp,
    /// The instant cannot be written as RFC 3339 text that is read back as
    /// the same instant: it lies outside the calendar, or is no instant.
    InstantOutOfRange,
}

/// The status that a `status` column stands for: the status of that name,
/// `Start` for an empty column or any other text.
pub open spec fn status_of_column(text: Option<Seq<char>>) -> JobStatus {
    match text {
        Some(t) => match JobStatus::named(t) {
            Some(status) => status,
            None => JobStatus::Start,
        },
        None => JobStatus::Start,
    }
}

/// The instant that a `last_run` column stands for.
pub open spec fn last_run_of_column(text: Option<Seq<char>>) -> Result<
    Option<UtcInstant>,
    StoreError,
> {
    match text {
        None => Ok(None),
        Some(t) => match instant_of_parts(rfc3339_instant(t)) {
            Some(at) => Ok(Some(at)),
            None => Err(StoreError::BadTimestamp),
        },
    }
}

/// The text is read back as the instant `at`.
pub open spec fn reads_back_as(text: Seq<char>, at: UtcInstant) -> bool {
    instant_of_parts(rfc3339_instant(text)) == Some(at)
}

/// The text that goes into the `last_run` column for an instant: its RFC
/// 3339 form, as long as that is read back as the same instant.
pub open spec fn text_of_last_run(at: UtcInstant) -> Result<Seq<char>, StoreError> {
    match rfc3339_text(at.secs, at.nanos) {
        Some(text) => if reads_back_as(text, at) {
            Ok(text)
        } else {
            Err(StoreError::InstantOutOfRange)
        },
        None => Err(StoreError::InstantOutOfRange),
    }
}

/// What goes into the `last_run` column for a job's last run.
pub open spec fn column_of_last_run(at: Option<UtcInstant>) -> Result<
    Option<Seq<char>>,
    StoreError,
> {
    match at {
        None => Ok(None),
        Some(t) => match text_of_last_run(t) {
            Ok(text) => Ok(Some(text)),
            Err(e) => Err(e),
        },
    }
}

impl JobRowView {
    /// The job that the row holds.
    pub open spec fn job(self) -> Result<JobRawView, StoreError> {
        match last_run_of_column(self.last_run) {
            Err(e) => Err(e),
            Ok(last_run) => Ok(
                JobRawView {
                    id: self.id,
                    name: self.name,
                    cron: self.cron,
                    task_type: self.task_type,
                    payload: match self.payload {
                        Some(p) => p,
                        None => Seq::empty(),
                    },
                    last_run,
                    status: status_of_column(self.status),
                    message: None,
                },
            ),
        }
    }
}

impl JobRawView {
    /// The row that holds the job.
    pub open spec fn row(self) -> Result<JobRowView, StoreError> {
        match column_of_last_run(self.last_run) {
            Err(e) => Err(e),
            Ok(last_run) => Ok(
                JobRowView {
                    id: self.id,
                    name: self.name,
                    cron: self.cron,
                    task_type: self.task_type,
                    payload: Some(self.payload),
                    last_run,
                    status: Some(self.status.name()),
                },
            ),
        }
    }
}

/// The view of the outcome of reading a row.
pub open spec fn job_result_view(r: Result<JobRaw, StoreError>) -> Result<JobRawView, StoreError> {
    match r {
        Ok(job) => Ok(job@),
        Err(e) => Err(e),
    }
}

/// The view of the outcome of writing a row.
pub open spec fn row_result_view(r: Result<JobRow, StoreError>) -> Result<JobRowView, StoreError> {
    match r {
        Ok(row) => Ok(row@),
        Err(e) => Err(e),
    }
}

/// Reads the `status` column.
pub fn read_status_column(text: &Option<String>) -> (status: JobStatus)
    ensures
        status == status_of_column(text_view(*text)),
{
    match text {
        Some(t) => match JobStatus::from_str(t.as_str()) {
            Ok(status) => status,
            Err(_) => JobStatus::Start,
        },
        None => JobStatus::Start,
    }
}

/// Keeps a text written for an instant only if it is read back as that
/// instant.
pub fn checked_last_run_text(at: &UtcInstant, written: Option<String>, read_back: Option<
    UtcInstant,
>) -> (text: Result<String, StoreError>)
    ensures
        match text {
            Ok(t) => written == Some(t) && read_back == Some(*at),
            Err(e) => e == StoreError::InstantOutOfRange && !(written is Some && read_back
                == Some(*at)),
        },
{
    match written {
        Some(t) => match read_back {
            Some(back) => if back == *at {
                Ok(t)
            } else {
                Err(StoreError::InstantOutOfRange)
            },
            None => Err(StoreError::InstantOutOfRange),
        },
        None => Err(StoreError::InstantOutOfRange),
    }
}

/// The text for the `last_run` column: the instant in RFC 3339 form. The
/// text is read back before it is handed out, so that what is stored is
/// always loaded as the instant that was meant.
pub fn last_run_column(at: &UtcInstant) -> (text: Result<String, StoreError>)
    ensures
        match text {
            Ok(t) => text_of_last_run(*at) == Ok::<Seq<char>, StoreError>(t@),
            Err(e) => text_of_last_run(*at) == Err::<Seq<char>, StoreError>(e),
        },
        text is Ok ==> reads_back_as(text->Ok_0@, *at),
{
    let written = at.to_rfc3339();
    let read_back = match &written {
        Some(t) => UtcInstant::parse_rfc3339(t.as_str()),
        None => None,
    };
    checked_last_run_text(at, written, read_back)
}

impl JobRaw {
    /// The job that a row holds. An empty payload column is an empty
    /// payload; an empty or unknown status is `Start`; a `last_run` that is
    /// no instant is an error.
    pub fn from_row(row: &JobRow) -> (r: Result<JobRaw, StoreError>)
        ensures
            job_result_view(r) == row@.job(),
    {
        let last_run = match &row.last_run {
            None => None,
            Some(text) => match UtcInstant::parse_rfc3339(text.as_str()) {
                Some(at) => Some(at),
                None => {
                    return Err(StoreError::BadTimestamp);
                },
            },
        };
        let payload = match &row.payload {
            Some(p) => p.clone(),
            None => String::new(),
        };
        Ok(
            JobRaw {
                id: row.id.clone(),
                name: row.name.clone(),
                cron: row.cron.clone(),
                task_type: row.task_type.clone(),
                payload,
                last_run,
                status: read_status_column(&row.status),
                message: None,
            },
        )
    }

    /// The row that holds the job.
    pub fn to_row(&self) -> (r: Result<JobRow, StoreError>)
        ensures
            row_result_view(r) == self@.row(),
    {
        let last_run = match &self.last_run {
            None => None,
            Some(at) => match last_run_column(at) {
                Ok(text) => Some(text),
                Err(e) => {
                    return Err(e);
                },
            },
        };
        Ok(
            JobRow {
                id: self.id.clone(),
                name: self.name.clone(),
                cron: self.cron.clone(),
                task_type: self.task_type.clone(),
                payload: Some(self.payload.clone()),
                last_run,
                status: Some(self.status.to_string()),
            },
        )
    }
}

/// A write of a status by a scheduler loop: the status to set, and the
/// status that a row must not have for the write to touch it.
#[derive(Debug)]
pub struct StatusWrite {
    pub status: String,
    pub unless: String,
}

/// The status of a job after a loop has written `wanted`: a job that is
/// switched off stays so.
pub open spec fn status_after_write(current: JobStatus, wanted: JobStatus) -> JobStatus {
    if current == JobStatus::Disabled {
        JobStatus::Disabled
    } else {
        wanted
    }
}

/// What a `status` column holds after a write has been applied to it.
pub open spec fn column_after_write(
    column: Option<Seq<char>>,
    status: Seq<char>,
    unless: Seq<char>,
) -> Option<Seq<char>> {
    if column == Some(unless) {
        column
    } else {
        Some(status)
    }
}

/// The write by which a loop sets a status: it leaves rows that are
/// `disabled` alone.
pub fn status_write(wanted: JobStatus) -> (write: StatusWrite)
    ensures
        write.status@ == wanted.name(),
        write.unless@ == JobStatus::Disabled.name(),
{
    StatusWrite { status: wanted.to_string(), unless: JobStatus::Disabled.to_string() }
}

impl StatusWrite {
    /// Applies the write to the `status` column of one row.
    pub fn apply(&self, column: &Option<String>) -> (after: Option<String>)
        ensures
            text_view(after) == column_after_write(text_view(*column), self.status@, self.unless@),
    {
        match column {
            Some(current) => if crate::text::str_eq(current.as_str(), self.unless.as_str()) {
                Some(current.clone())
            } else {
                Some(self.status.clone())
            },
            None => Some(self.status.clone()),
        }
    }
}

/// A loop's write never switches a job on again: a column that reads as
/// `Disabled` still does after the write, and any other column reads as the
/// status that was written.
pub proof fn lemma_status_write_keeps_disabled(column: Option<Seq<char>>, wanted: JobStatus)
    ensures
        status_of_column(
            column_after_write(column, wanted.name(), JobStatus::Disabled.name()),
        ) == status_after_write(status_of_column(column), wanted),
{
    crate::status::lemma_status_name_round_trip(wanted);
    crate::status::lemma_status_name_round_trip(JobStatus::Disabled);
    if status_of_column(column) == JobStatus::Disabled {
        crate::status::lemma_status_named_is_name(column.unwrap(), JobStatus::Disabled);
    }
}

/// Reads a whole snapshot: every row, in order. The first row whose
/// `last_run` is no instant fails the load.
pub fn load_jobs(rows: &Vec<JobRow>) -> (r: Result<Vec<JobRaw>, StoreError>)
    ensures
        match r {
            Ok(jobs) => jobs@.len() == rows@.len() && forall|i: int|
                0 <= i < rows@.len() ==> (#[trigger] rows@[i])@.job() == Ok::<
                    JobRawView,
                    StoreError,
                >(jobs@[i]@),
            Err(e) => exists|i: int|
                0 <= i < rows@.len() && (#[trigger] rows@[i])@.job() == Err::<
                    JobRawView,
                    StoreError,
                >(e),
        },
{
    let mut jobs: Vec<JobRaw> = Vec::new();
    let mut i: usize = 0;
    while i < rows.len()
        invariant
            i <= rows@.len(),
            jobs@.len() == i,
            forall|j: int|
                0 <= j < i ==> (#[trigger] rows@[j])@.job() == Ok::<JobRawView, StoreError>(
                    jobs@[j]@,
                ),
        decreases rows@.len() - i,
    {
        match JobRaw::from_row(&rows[i]) {
            Ok(job) => {
                jobs.push(job);
            },
            Err(e) => {
                assert(rows@[i as int]@.job() == Err::<JobRawView, StoreError>(e));
                return Err(e);
            },
        }
        i = i + 1;
    }
    Ok(jobs)
}

/// A status round-trips through its column.
pub proof fn lemma_status_column_round_trip(status: JobStatus)
    ensures
        status_of_column(Some(status.name())) == status,
{
    crate::status::lemma_status_name_round_trip(status);
}

/// Persistence round trip: a job that can be written as a row is read back
/// from that row as the same job, its last run included, but for the
/// message, which the table does not keep.
pub proof fn lemma_row_round_trip(job: JobRawView)
    requires
        job.row() is Ok,
    ensures
        job.row()->Ok_0.job() == Ok::<JobRawView, StoreError>(
            JobRawView { message: None, ..job },
        ),
{
    crate::status::lemma_status_name_round_trip(job.status);
}

/// A job that has not run yet can always be written as a row.
pub proof fn lemma_new_job_has_a_row(job: JobRawView)
    requires
        job.last_run is None,
    ensures
        job.row() is Ok,
{
}

/// A job read back from its row lifts as the job that was written: to the
/// same runtime job, or with the same error.
pub proof fn lemma_stored_job_lifts_alike(job: JobRawView)
    requires
        job.row() is Ok,
    ensures
        job.row()->Ok_0.job() is Ok,
        job.row()->Ok_0.job()->Ok_0.lift() == match job.lift() {
            Ok(lifted) => Ok::<crate::job::JobView, crate::payload::LiftErrorView>(
                crate::job::JobView { message: None, ..lifted },
            ),
            Err(e) => Err::<crate::job::JobView, crate::payload::LiftErrorView>(e),
        },
{
    lemma_row_round_trip(job);
}

/// The jobs that the rows of a table hold, row by row.
pub open spec fn jobs_of_rows(rows: Seq<JobRowView>) -> Seq<Result<JobRawView, StoreError>> {
    rows.map_values(|row: JobRowView| row.job())
}

/// Insert, then load: a table to which the row of a job is added loads as
/// before, followed by that job.
pub proof fn lemma_inserted_job_loads(table: Seq<JobRowView>, job: JobRawView)
    requires
        job.row() is Ok,
    ensures
        jobs_of_rows(table.push(job.row()->Ok_0)) == jobs_of_rows(table).push(
            Ok::<JobRawView, StoreError>(JobRawView { message: None, ..job }),
        ),
{
    lemma_row_round_trip(job);
    assert(jobs_of_rows(table.push(job.row()->Ok_0)) =~= jobs_of_rows(table).push(
        Ok::<JobRawView, StoreError>(JobRawView { message: None, ..job }),
    ));
}

/// The path of a database URL after every leading `sqlite://`.
pub open spec fn without_scheme(url: Seq<char>) -> Seq<char>
    decreases url.len(),
{
    if url.len() >= 9 && url.subrange(0, 9) == "sqlite://"@ {
        without_scheme(url.skip(9))
    } else {
        url
    }
}

/// The file that a database URL names, where it names a local file: the URL
/// begins with `sqlite://`, and the path is what follows every such prefix.
pub open spec fn sqlite_file_of(url: Seq<char>) -> Option<Seq<char>> {
    if url.len() >= 9 && url.subrange(0, 9) == "sqlite://"@ {
        Some(without_scheme(url))
    } else {
        None
    }
}

/// The file that a database URL names, where it names a local file. The
/// caller sees to it that the file's directory exists before the database
/// is opened.
pub fn sqlite_file_path(db_url: &str) -> (path: Option<String>)
    ensures
        text_view(path) == sqlite_file_of(db_url@),
{
    proof {
        reveal_strlit("sqlite://");
    }
    if !starts_with(db_url, "sqlite://") {
        return None;
    }
    let mut rest: &str = db_url;
    while starts_with(rest, "sqlite://")
        invariant
            "sqlite://"@.len() == 9,
            without_scheme(db_url@) == without_scheme(rest@),
        decreases rest@.len(),
    {
        rest = skip_chars(rest, 9);
    }
    Some(String::from_str(rest))
}

} // verus!
