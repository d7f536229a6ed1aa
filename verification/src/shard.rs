//! Shard managers: which jobs this process owns.
//!
//! Ownership is derived from the job id by the shard function, never leased:
//! under a distributed shard set every id belongs to exactly one shard.

use vstd::prelude::*;
use vstd::string::*;
use std::sync::Arc;
use crate::config::{AppConfig, ShardMode};
use crate::hash::{shard_index, shard_of};
use crate::job::{Job, JobRaw, JobRawView, JobView, rows_view};

verus! {

/// Whether a process in `mode` owns the job with this id.
pub open spec fn owns(mode: ShardMode, job_id: Seq<char>) -> bool {
    match mode {
        ShardMode::Local => true,
        ShardMode::Distributed { shard_id, total_shards } => total_shards > 0 && shard_of(
            job_id,
            total_shards as int,
        ) == shard_id,
    }
}

/// The runtime jobs that a process in `mode` takes from a snapshot: the rows
/// it owns, lifted, in the order of the snapshot. A row that cannot be
/// lifted is left out.
pub open spec fn local_jobs(mode: ShardMode, rows: Seq<JobRawView>) -> Seq<JobView>
    decreases rows.len(),
{
    if rows.len() == 0 {
        Seq::empty()
    } else {
        let before = local_jobs(mode, rows.drop_last());
        let row = rows.last();
        if owns(mode, row.id) {
            match row.lift() {
                Ok(job) => before.push(job),
                Err(_) => before,
            }
        } else {
            before
        }
    }
}

/// The views of a list of runtime jobs.
pub open spec fn jobs_view(jobs: Seq<Job>) -> Seq<JobView> {
    jobs.map_values(|j: Job| j@)
}

/// Decides which jobs a process owns.
pub trait ShardManager {
    /// The manager can be asked: its shard set is not empty.
    spec fn is_valid(&self) -> bool;

    /// The number of shards over which ids are spread.
    spec fn shard_count(&self) -> int;

    /// The mode that decides ownership.
    spec fn mode(&self) -> ShardMode;

    /// The shard of a job id.
    fn assign_shard(&self, job_id: &str) -> (shard: usize)
        requires
            self.is_valid(),
        ensures
            shard as int == shard_of(job_id@, self.shard_count()),
            shard < self.shard_count(),
    ;

    /// The jobs of a snapshot that this process owns, lifted. Never fails:
    /// at worst the list is empty.
    fn get_local_jobs(&self, all_jobs: Vec<JobRaw>) -> (jobs: Vec<Job>)
        ensures
            jobs_view(jobs@) == local_jobs(self.mode(), rows_view(all_jobs@)),
    ;
}

/// Lifts the rows of a snapshot that a process in `mode` owns.
pub fn select_local_jobs(mode: ShardMode, all_jobs: &Vec<JobRaw>) -> (jobs: Vec<Job>)
    ensures
        jobs_view(jobs@) == local_jobs(mode, rows_view(all_jobs@)),
{
    let mut jobs: Vec<Job> = Vec::new();
    let mut i: usize = 0;
    proof {
        assert(rows_view(all_jobs@).take(0) =~= Seq::<JobRawView>::empty());
        assert(jobs_view(jobs@) =~= Seq::<JobView>::empty());
    }
    while i < all_jobs.len()
        invariant
            i <= all_jobs@.len(),
            jobs_view(jobs@) == local_jobs(mode, rows_view(all_jobs@).take(i as int)),
        decreases all_jobs@.len() - i,
    {
        let row = &all_jobs[i];
        proof {
            let next = rows_view(all_jobs@).take(i + 1);
            assert(next.drop_last() =~= rows_view(all_jobs@).take(i as int));
            assert(next.last() == row@);
        }
        let mine = match mode {
            ShardMode::Local => true,
            ShardMode::Distributed { shard_id, total_shards } => total_shards > 0 && shard_index(
                row.id.as_str(),
                total_shards,
            ) == shard_id,
        };
        if mine {
            match row.to_job() {
                Ok(job) => {
                    let ghost before = jobs@;
                    jobs.push(job);
                    assert(jobs_view(jobs@) =~= jobs_view(before).push(job@));
                },
                Err(_) => {},
            }
        }
        i = i + 1;
    }
    assert(rows_view(all_jobs@).take(i as int) =~= rows_view(all_jobs@));
    jobs
}

/// Owns every job. The shard count only shapes `assign_shard`.
pub struct LocalShardManager {
    pub shard_count: usize,
    pub config: Arc<AppConfig>,
}

impl LocalShardManager {
    /// A local manager; ids are spread over ten shards.
    pub fn new(config: Arc<AppConfig>) -> (manager: LocalShardManager)
        ensures
            manager.shard_count == 10,
            manager.is_valid(),
            manager.mode() == ShardMode::Local,
    {
        LocalShardManager { shard_count: 10, config }
    }
}

impl ShardManager for LocalShardManager {
    open spec fn is_valid(&self) -> bool {
        self.shard_count > 0
    }

    open spec fn shard_count(&self) -> int {
        self.shard_count as int
    }

    open spec fn mode(&self) -> ShardMode {
        ShardMode::Local
    }

    fn assign_shard(&self, job_id: &str) -> (shard: usize) {
        shard_index(job_id, self.shard_count)
    }

    fn get_local_jobs(&self, all_jobs: Vec<JobRaw>) -> (jobs: Vec<Job>) {
        select_local_jobs(ShardMode::Local, &all_jobs)
    }
}

/// Owns the jobs whose shard is `shard_id` among `total_shards`.
pub struct DistributedShardManager {
    pub shard_id: usize,
    pub total_shards: usize,
    pub config: Arc<AppConfig>,
}

impl DistributedShardManager {
    /// The manager of shard `shard_id` of `total_shards`.
    pub fn new(shard_id: usize, total_shards: usize, config: Arc<AppConfig>) -> (manager:
        DistributedShardManager)
        requires
            shard_id < total_shards,
        ensures
            manager.shard_id == shard_id,
            manager.total_shards == total_shards,
            manager.is_valid(),
    {
        DistributedShardManager { shard_id, total_shards, config }
    }
}

impl ShardManager for DistributedShardManager {
    open spec fn is_valid(&self) -> bool {
        self.shard_id < self.total_shards
    }

    open spec fn shard_count(&self) -> int {
        self.total_shards as int
    }

    open spec fn mode(&self) -> ShardMode {
        ShardMode::Distributed { shard_id: self.shard_id, total_shards: self.total_shards }
    }

    fn assign_shard(&self, job_id: &str) -> (shard: usize) {
        shard_index(job_id, self.total_shards)
    }

    fn get_local_jobs(&self, all_jobs: Vec<JobRaw>) -> (jobs: Vec<Job>) {
        select_local_jobs(
            ShardMode::Distributed { shard_id: self.shard_id, total_shards: self.total_shards },
            &all_jobs,
        )
    }
}

/// Shard partition: among the shards of a distributed set, exactly one owns
/// a given job, and it is the one the shard function names.
pub proof fn lemma_exactly_one_owner(job_id: Seq<char>, total_shards: usize)
    requires
        total_shards > 0,
    ensures
        0 <= shard_of(job_id, total_shards as int) < total_shards,
        forall|shard_id: usize|
            shard_id < total_shards ==> (#[trigger] owns(
                ShardMode::Distributed { shard_id, total_shards },
                job_id,
            ) <==> shard_id == shard_of(job_id, total_shards as int)),
{
}

/// Two different shards of one set never both own a job.
pub proof fn lemma_shards_disjoint(job_id: Seq<char>, total_shards: usize, a: usize, b: usize)
    requires
        owns(ShardMode::Distributed { shard_id: a, total_shards }, job_id),
        owns(ShardMode::Distributed { shard_id: b, total_shards }, job_id),
    ensures
        a == b,
{
}

/// The number of jobs that the shards `0 .. upto` of a set of `total_shards`
/// take from a snapshot, all together.
pub open spec fn taken_by_shards(rows: Seq<JobRawView>, total_shards: usize, upto: int) -> int
    decreases upto,
{
    if upto <= 0 {
        0
    } else {
        taken_by_shards(rows, total_shards, upto - 1) + local_jobs(
            ShardMode::Distributed { shard_id: (upto - 1) as usize, total_shards },
            rows,
        ).len()
    }
}

/// Adding a row to a snapshot adds one job to the shards `0 .. upto` taken
/// together if the row can be lifted and its owner is among them, and none
/// otherwise.
proof fn lemma_taken_grows_by_one(
    rows: Seq<JobRawView>,
    row: JobRawView,
    total_shards: usize,
    upto: int,
)
    requires
        total_shards > 0,
        0 <= upto <= total_shards,
    ensures
        taken_by_shards(rows.push(row), total_shards, upto) == taken_by_shards(
            rows,
            total_shards,
            upto,
        ) + (if row.lift() is Ok && shard_of(row.id, total_shards as int) < upto {
            1int
        } else {
            0int
        }),
    decreases upto,
{
    if upto > 0 {
        lemma_taken_grows_by_one(rows, row, total_shards, upto - 1);
        let shard = (upto - 1) as usize;
        let mode = ShardMode::Distributed { shard_id: shard, total_shards };
        assert(rows.push(row).drop_last() =~= rows);
        if owns(mode, row.id) && row.lift() is Ok {
            lemma_owned_row_is_taken(mode, rows, row);
        }
    }
}

/// Shard partition of a snapshot: the shards of a set, taken together, take
/// exactly the jobs that one local process would take. With the fact that
/// no two shards own the same job, every job that can be lifted runs on
/// exactly one shard.
pub proof fn lemma_shards_cover_the_snapshot(rows: Seq<JobRawView>, total_shards: usize)
    requires
        total_shards > 0,
    ensures
        taken_by_shards(rows, total_shards, total_shards as int) == local_jobs(
            ShardMode::Local,
            rows,
        ).len(),
    decreases rows.len(),
{
    if rows.len() == 0 {
        assert(rows =~= Seq::<JobRawView>::empty());
        lemma_nothing_taken_from_nothing(total_shards, total_shards as int);
    } else {
        let head = rows.drop_last();
        let row = rows.last();
        assert(head.push(row) =~= rows);
        lemma_shards_cover_the_snapshot(head, total_shards);
        lemma_taken_grows_by_one(head, row, total_shards, total_shards as int);
        crate::hash::lemma_shard_in_range(row.id, total_shards as int);
        if row.lift() is Ok {
            lemma_owned_row_is_taken(ShardMode::Local, head, row);
        } else {
            lemma_unliftable_row_is_skipped(ShardMode::Local, head, row);
        }
    }
}

proof fn lemma_nothing_taken_from_nothing(total_shards: usize, upto: int)
    requires
        0 <= upto,
    ensures
        taken_by_shards(Seq::empty(), total_shards, upto) == 0,
    decreases upto,
{
    if upto > 0 {
        lemma_nothing_taken_from_nothing(total_shards, upto - 1);
    }
}

/// A row that cannot be lifted, for an unknown tag or a malformed payload,
/// is skipped: the jobs taken from the snapshot are those taken without it.
pub proof fn lemma_unliftable_row_is_skipped(
    mode: ShardMode,
    rows: Seq<JobRawView>,
    row: JobRawView,
)
    requires
        row.lift() is Err,
    ensures
        local_jobs(mode, rows.push(row)) == local_jobs(mode, rows),
{
    assert(rows.push(row).drop_last() =~= rows);
}

/// A row of another shard is left out.
pub proof fn lemma_foreign_row_is_left(mode: ShardMode, rows: Seq<JobRawView>, row: JobRawView)
    requires
        !owns(mode, row.id),
    ensures
        local_jobs(mode, rows.push(row)) == local_jobs(mode, rows),
{
    assert(rows.push(row).drop_last() =~= rows);
}

/// A row that this process owns and that can be lifted is taken, after
/// those before it.
pub proof fn lemma_owned_row_is_taken(mode: ShardMode, rows: Seq<JobRawView>, row: JobRawView)
    requires
        owns(mode, row.id),
        row.lift() is Ok,
    ensures
        local_jobs(mode, rows.push(row)) == local_jobs(mode, rows).push(row.lift()->Ok_0),
{
    assert(rows.push(row).drop_last() =~= rows);
}

/// A local process owns every job.
pub proof fn lemma_local_owns_all(job_id: Seq<char>)
    ensures
        owns(ShardMode::Local, job_id),
{
}

} // verus!
