//! Jobs in their persistent and their runtime form, and the lift from one
//! to the other.

use vstd::prelude::*;
use vstd::string::*;
use crate::clock::UtcInstant;
use crate::json::{Json, JsonValue, json_parse, json_view, parse_json};
use crate::payload::{LiftError, LiftErrorView, PayloadView, TaskPayload, lift_envelope};
use crate::schedule::{next_fire, next_fire_spec};
use crate::status::JobStatus;
use crate::text::{clone_optional_text, str_eq, text_view};

verus! {

/// A job as it is persisted: the payload is a tag and a JSON text.
#[derive(Debug)]
pub struct JobRaw {
    pub id: String,
    pub name: String,
    pub cron: String,
    pub task_type: String,
    pub payload: String,
    pub last_run: Option<UtcInstant>,
    pub status: JobStatus,
    pub message: Option<String>,
}

/// A job as the engine runs it: the payload is typed.
#[derive(Debug)]
pub struct Job {
    pub id: String,
    pub name: String,
    pub cron: String,
    pub task_type: TaskPayload,
    pub payload: String,
    pub last_run: Option<UtcInstant>,
    pub status: JobStatus,
    pub message: Option<String>,
}

/// The mathematical form of a persisted job.
pub struct JobRawView {
    pub id: Seq<char>,
    pub name: Seq<char>,
    pub cron: Seq<char>,
    pub task_type: Seq<char>,
    pub payload: Seq<char>,
    pub last_run: Option<UtcInstant>,
    pub status: JobStatus,
    pub message: Option<Seq<char>>,
}

/// The mathematical form of a runtime job.
pub struct JobView {
    pub id: Seq<char>,
    pub name: Seq<char>,
    pub cron: Seq<char>,
    pub task_type: PayloadView,
    pub payload: Seq<char>,
    pub last_run: Option<UtcInstant>,
    pub status: JobStatus,
    pub message: Option<Seq<char>>,
}

impl View for JobRaw {
    type V = JobRawView;

    open spec fn view(&self) -> JobRawView {
        JobRawView {
            id: self.id@,
            name: self.name@,
            cron: self.cron@,
            task_type: self.task_type@,
            payload: self.payload@,
            last_run: self.last_run,
            status: self.status,
            message: text_view(self.message),
        }
    }
}

impl View for Job {
    type V = JobView;

    open spec fn view(&self) -> JobView {
        JobView {
            id: self.id@,
            name: self.name@,
            cron: self.cron@,
            task_type: self.task_type@,
            payload: self.payload@,
            last_run: self.last_run,
            status: self.status,
            message: text_view(self.message),
        }
    }
}

impl Clone for JobRaw {
    fn clone(&self) -> (copy: JobRaw)
        ensures
            copy@ == self@,
    {
        JobRaw {
            id: self.id.clone(),
            name: self.name.clone(),
            cron: self.cron.clone(),
            task_type: self.task_type.clone(),
            payload: self.payload.clone(),
            last_run: self.last_run,
            status: self.status,
            message: clone_optional_text(&self.message),
        }
    }
}

impl Clone for Job {
    fn clone(&self) -> (copy: Job)
        ensures
            copy@ == self@,
    {
        Job {
            id: self.id.clone(),
            name: self.name.clone(),
            cron: self.cron.clone(),
            task_type: self.task_type.clone(),
            payload: self.payload.clone(),
            last_run: self.last_run,
            status: self.status,
            message: clone_optional_text(&self.message),
        }
    }
}

/// The envelope text of a tag and a payload text:
/// `{ "task_type": "<tag>", "payload": <body> }`.
pub open spec fn envelope_text(task_type: Seq<char>, payload: Seq<char>) -> Seq<char> {
    "{ \"task_type\": \""@ + task_type + "\", \"payload\": "@ + payload + " }"@
}

/// Writes the envelope text of a tag and a payload text.
pub fn synthesize_envelope(task_type: &str, payload: &str) -> (text: String)
    ensures
        text@ == envelope_text(task_type@, payload@),
{
    let mut text = String::from_str("{ \"task_type\": \"");
    text.append(task_type);
    text.append("\", \"payload\": ");
    text.append(payload);
    text.append(" }");
    text
}

impl JobRawView {
    /// The runtime job that this row gives with the payload `task`.
    pub open spec fn with_payload(self, task: PayloadView) -> JobView {
        JobView {
            id: self.id,
            name: self.name,
            cron: self.cron,
            task_type: task,
            payload: Seq::empty(),
            last_run: self.last_run,
            status: self.status,
            message: self.message,
        }
    }

    /// The lift of this row, given what its envelope text parsed to. The
    /// payload read from the envelope must be of the kind that the row's tag
    /// names: a payload text that smuggles in another tag is malformed.
    pub open spec fn lift_with(self, envelope: Option<JsonValue>) -> Result<JobView, LiftErrorView> {
        match envelope {
            None => Err(LiftErrorView::MalformedPayload),
            Some(e) => match lift_envelope(e) {
                Ok(task) => if task.tag() == self.task_type {
                    Ok(self.with_payload(task))
                } else {
                    Err(LiftErrorView::MalformedPayload)
                },
                Err(err) => Err(err),
            },
        }
    }

    /// The lift of this row.
    pub open spec fn lift(self) -> Result<JobView, LiftErrorView> {
        self.lift_with(json_parse(envelope_text(self.task_type, self.payload)))
    }
}

/// The view of the outcome of lifting a row.
pub open spec fn job_lift_view(r: Result<Job, LiftError>) -> Result<JobView, LiftErrorView> {
    match r {
        Ok(job) => Ok(job@),
        Err(e) => Err(e@),
    }
}

impl JobRaw {
    /// Lifts the row, given what its envelope text parsed to: the typed
    /// payload is read from the envelope and the other fields are copied.
    /// The runtime job keeps no payload text.
    pub fn lift_with(&self, envelope: &Option<Json>) -> (r: Result<Job, LiftError>)
        ensures
            job_lift_view(r) == self@.lift_with(json_view(*envelope)),
    {
        match envelope {
            None => Err(LiftError::MalformedPayload),
            Some(e) => match TaskPayload::from_envelope(e) {
                Ok(task) => {
                    if !str_eq(task.task_type_name(), self.task_type.as_str()) {
                        return Err(LiftError::MalformedPayload);
                    }
                    Ok(
                        Job {
                            id: self.id.clone(),
                            name: self.name.clone(),
                            cron: self.cron.clone(),
                            task_type: task,
                            payload: String::new(),
                            last_run: self.last_run,
                            status: self.status,
                            message: clone_optional_text(&self.message),
                        },
                    )
                },
                Err(err) => Err(err),
            },
        }
    }

    /// Lifts the row into a runtime job: synthesizes the envelope from the
    /// tag and the payload text, parses it, and reads the typed payload.
    pub fn to_job(&self) -> (r: Result<Job, LiftError>)
        ensures
            job_lift_view(r) == self@.lift(),
    {
        let text = synthesize_envelope(self.task_type.as_str(), self.payload.as_str());
        let envelope = parse_json(text.as_str());
        self.lift_with(&envelope)
    }
}

impl Job {
    /// The next instant strictly after `now` at which the job fires; `None`
    /// where its cron expression is invalid or has no firing left.
    pub fn next_run(&self, now: &UtcInstant) -> (next: Option<UtcInstant>)
        ensures
            next == next_fire_spec(self.cron@, *now),
            next is Some ==> next.unwrap().is_valid() && next.unwrap().after(*now),
            !crate::schedule::cron_is_valid(self.cron@) ==> next is None,
    {
        next_fire(self.cron.as_str(), now)
    }
}

/// Unknown tag safety: a row whose envelope names a tag that no payload
/// kind has is refused with that tag, whatever its payload holds.
pub proof fn lemma_unknown_tag_is_refused(row: JobRawView, envelope: JsonValue)
    requires
        envelope.text_member("task_type"@) is Some,
        !crate::payload::is_known_tag(envelope.text_member("task_type"@).unwrap()),
    ensures
        row.lift_with(Some(envelope)) == Err::<JobView, LiftErrorView>(
            LiftErrorView::UnknownTaskType(envelope.text_member("task_type"@).unwrap()),
        ),
{
}

/// A lifted job keeps the identity, the schedule and the history of its
/// row, and carries a payload of the kind that the row's tag names.
pub proof fn lemma_lift_keeps_row(row: JobRawView, envelope: Option<JsonValue>)
    requires
        row.lift_with(envelope) is Ok,
    ensures
        ({
            let job = row.lift_with(envelope)->Ok_0;
            &&& job.id == row.id
            &&& job.name == row.name
            &&& job.cron == row.cron
            &&& job.last_run == row.last_run
            &&& job.status == row.status
            &&& job.message == row.message
            &&& envelope is Some
            &&& lift_envelope(envelope.unwrap()) == Ok::<PayloadView, LiftErrorView>(job.task_type)
            &&& job.task_type.tag() == row.task_type
            &&& crate::payload::is_known_tag(row.task_type)
        }),
{
}

/// Round-trip lift of a row: where the row's envelope holds its tag and a
/// body with that tag's members and nothing besides, the payload of the
/// lifted job is written back as the envelope that was read, under the
/// row's own tag.
pub proof fn lemma_lifted_row_writes_its_envelope(row: JobRawView, envelope: JsonValue)
    requires
        row.lift_with(Some(envelope)) is Ok,
        crate::payload::is_plain_envelope(envelope),
    ensures
        ({
            let job = row.lift_with(Some(envelope))->Ok_0;
            &&& crate::payload::same_envelope(job.task_type.envelope(), envelope)
            &&& job.task_type.envelope().text_member("task_type"@) == Some(row.task_type)
        }),
{
    crate::payload::lemma_envelope_is_written_back(envelope);
    let job = row.lift_with(Some(envelope))->Ok_0;
    assert(job.task_type.envelope().member("task_type"@) == envelope.member("task_type"@));
}

/// The position of the first row with this id.
pub open spec fn position_of(rows: Seq<JobRawView>, id: Seq<char>) -> Option<int>
    decreases rows.len(),
{
    if rows.len() == 0 {
        None
    } else {
        match position_of(rows.drop_last(), id) {
            Some(i) => Some(i),
            None => if rows.last().id == id {
                Some(rows.len() - 1)
            } else {
                None
            },
        }
    }
}

/// The views of the rows of a snapshot.
pub open spec fn rows_view(rows: Seq<JobRaw>) -> Seq<JobRawView> {
    rows.map_values(|r: JobRaw| r@)
}

/// Finds the row with this id in a snapshot of the store: the first one,
/// should there be several.
pub fn find_job<'a>(rows: &'a Vec<JobRaw>, id: &str) -> (found: Option<&'a JobRaw>)
    ensures
        match position_of(rows_view(rows@), id@) {
            Some(i) => 0 <= i < rows@.len() && found == Some(&rows@[i]) && rows@[i].id@ == id@,
            None => found is None,
        },
        found is None <==> forall|j: int| 0 <= j < rows@.len() ==> rows@[j].id@ != id@,
{
    let mut i: usize = 0;
    assert(rows_view(rows@).take(0) =~= Seq::<JobRawView>::empty());
    while i < rows.len()
        invariant
            i <= rows@.len(),
            position_of(rows_view(rows@).take(i as int), id@) is None,
            forall|j: int| 0 <= j < i ==> rows@[j].id@ != id@,
        decreases rows@.len() - i,
    {
        proof {
            let next = rows_view(rows@).take(i + 1);
            assert(next.drop_last() =~= rows_view(rows@).take(i as int));
            assert(next.last() == rows@[i as int]@);
        }
        if str_eq(rows[i].id.as_str(), id) {
            proof {
                lemma_position_stays(rows_view(rows@), id@, i + 1);
            }
            return Some(&rows[i]);
        }
        i = i + 1;
    }
    assert(rows_view(rows@).take(i as int) =~= rows_view(rows@));
    None
}

/// Once a prefix holds the id, the position found in it is the position in
/// the whole.
proof fn lemma_position_stays(rows: Seq<JobRawView>, id: Seq<char>, n: int)
    requires
        0 <= n <= rows.len(),
        position_of(rows.take(n), id) is Some,
    ensures
        position_of(rows, id) == position_of(rows.take(n), id),
    decreases rows.len() - n,
{
    if n < rows.len() {
        let next = rows.take(n + 1);
        assert(next.drop_last() =~= rows.take(n));
        lemma_position_stays(rows, id, n + 1);
    } else {
        assert(rows.take(n) =~= rows);
    }
}

} // verus!
