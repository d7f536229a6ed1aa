//! The engine: which jobs to run at boot, which job to run again after a
//! change, and the one loop that each job may have.
//!
//! The engine keeps, for every job id with a running loop, the handle by
//! which that loop can be cancelled. Launching a loop for an id hands back
//! the handle of the loop it supersedes, so that the caller cancels the old
//! loop before the new one runs: at most one loop per id.

use vstd::prelude::*;
use vstd::string::*;
use crate::config::ShardMode;
use crate::job::{Job, JobRaw, JobRawView, JobView, find_job, position_of, rows_view};
use crate::keyed::StringMap;
use crate::shard::{jobs_view, local_jobs, select_local_jobs};

verus! {

/// The engine of one process. `T` is the handle of a running loop.
pub struct JobEngine<T> {
    mode: ShardMode,
    loops: StringMap<T>,
}

/// The view of an optional runtime job.
pub open spec fn job_option_view(job: Option<Job>) -> Option<JobView> {
    match job {
        Some(j) => Some(j@),
        None => None,
    }
}

/// The job to launch when the job with this id has changed: the row of that
/// id in the snapshot, lifted. Nothing where the row is gone or cannot be
/// lifted.
pub open spec fn reloaded(rows: Seq<JobRawView>, job_id: Seq<char>) -> Option<JobView> {
    match position_of(rows, job_id) {
        Some(i) => match rows[i].lift() {
            Ok(job) => Some(job),
            Err(_) => None,
        },
        None => None,
    }
}

impl<T> JobEngine<T> {
    /// The engine is in order. Every engine that this module hands out is,
    /// and every method keeps it so.
    pub closed spec fn is_valid(self) -> bool {
        self.loops.is_valid()
    }

    /// The shard mode of the process.
    pub closed spec fn mode(self) -> ShardMode {
        self.mode
    }

    /// The running loops: the handle of each job id that has one.
    pub closed spec fn loops(self) -> Map<Seq<char>, T> {
        self.loops@
    }

    /// An engine without loops.
    pub fn new(mode: ShardMode) -> (engine: JobEngine<T>)
        ensures
            engine.is_valid(),
            engine.mode() == mode,
            engine.loops() == Map::<Seq<char>, T>::empty(),
    {
        JobEngine { mode, loops: StringMap::new() }
    }

    /// The jobs to launch at boot: those of the snapshot that this process
    /// owns, lifted. A row that cannot be lifted is left out.
    pub fn run(&self, all_jobs: &Vec<JobRaw>) -> (jobs: Vec<Job>)
        ensures
            jobs_view(jobs@) == local_jobs(self.mode(), rows_view(all_jobs@)),
    {
        select_local_jobs(self.mode, all_jobs)
    }

    /// The job to launch after the job with this id was inserted or
    /// updated: its row as the snapshot has it now, lifted.
    pub fn reload_job_by_id(&self, all_jobs: &Vec<JobRaw>, job_id: &str) -> (job: Option<Job>)
        ensures
            job_option_view(job) == reloaded(rows_view(all_jobs@), job_id@),
            job is Some ==> job->Some_0@.id == job_id@,
    {
        match find_job(all_jobs, job_id) {
            Some(row) => match row.to_job() {
                Ok(job) => Some(job),
                Err(_) => None,
            },
            None => None,
        }
    }

    /// Records the loop just launched for a job and hands back the handle of
    /// the loop it supersedes, which the caller cancels.
    pub fn schedule(&mut self, job_id: &str, handle: T) -> (superseded: Option<T>)
        requires
            old(self).is_valid(),
        ensures
            final(self).is_valid(),
            final(self).mode() == old(self).mode(),
            final(self).loops() == old(self).loops().insert(job_id@, handle),
            superseded == if old(self).loops().contains_key(job_id@) {
                Some(old(self).loops()[job_id@])
            } else {
                None
            },
    {
        self.loops.insert(job_id, handle)
    }

    /// Forgets the loop of a job and hands back its handle, which the caller
    /// cancels.
    pub fn cancel(&mut self, job_id: &str) -> (handle: Option<T>)
        requires
            old(self).is_valid(),
        ensures
            final(self).is_valid(),
            final(self).mode() == old(self).mode(),
            final(self).loops() == old(self).loops().remove(job_id@),
            handle == if old(self).loops().contains_key(job_id@) {
                Some(old(self).loops()[job_id@])
            } else {
                None
            },
    {
        self.loops.remove(job_id)
    }

    /// Whether a loop is recorded for the job.
    pub fn is_scheduled(&self, job_id: &str) -> (scheduled: bool)
        ensures
            scheduled == self.loops().contains_key(job_id@),
    {
        self.loops.contains_key(job_id)
    }

    /// The number of jobs with a loop.
    pub fn active_loops(&self) -> (n: usize)
        requires
            self.is_valid(),
        ensures
            self.loops().dom().finite(),
            n == self.loops().dom().len(),
    {
        self.loops.len()
    }
}

/// Hot reload: once a job's row is in the snapshot, reloading it yields the
/// job as that row has it, with the row's cron expression, as long as the
/// row can be lifted.
pub proof fn lemma_reload_takes_current_row(rows: Seq<JobRawView>, i: int)
    requires
        0 <= i < rows.len(),
        forall|j: int| 0 <= j < i ==> rows[j].id != rows[i].id,
        rows[i].lift() is Ok,
    ensures
        reloaded(rows, rows[i].id) == Some(rows[i].lift()->Ok_0),
        reloaded(rows, rows[i].id)->Some_0.cron == rows[i].cron,
        reloaded(rows, rows[i].id)->Some_0.id == rows[i].id,
{
    lemma_position_is_first(rows, rows[i].id, i);
}

/// The position found for an id is that of the first row with the id.
pub proof fn lemma_position_is_first(rows: Seq<JobRawView>, id: Seq<char>, i: int)
    requires
        0 <= i < rows.len(),
        rows[i].id == id,
        forall|j: int| 0 <= j < i ==> rows[j].id != id,
    ensures
        position_of(rows, id) == Some(i),
    decreases rows.len(),
{
    let head = rows.drop_last();
    if i == rows.len() - 1 {
        lemma_position_absent(head, id);
    } else {
        lemma_position_is_first(head, id, i);
    }
}

/// No position is found for an id that no row has.
pub proof fn lemma_position_absent(rows: Seq<JobRawView>, id: Seq<char>)
    requires
        forall|j: int| 0 <= j < rows.len() ==> rows[j].id != id,
    ensures
        position_of(rows, id) is None,
    decreases rows.len(),
{
    if rows.len() > 0 {
        lemma_position_absent(rows.drop_last(), id);
    }
}

} // verus!
