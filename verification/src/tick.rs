//! The scheduler loop of one job, as a state machine.
//!
//! The loop alternates waiting and deciding. The waiting (sleeping, running
//! the handler, writing to the store, reading the clock) is the driver's
//! part; every decision is taken here. The driver performs the action it is
//! handed and reports back with the matching event:
//!
//! | action          | event        |
//! |-----------------|--------------|
//! | `WriteStatus`   | `Written`    |
//! | `WriteLastRun`  | `Written`    |
//! | `CheckJob`      | `Row`        |
//! | `ReadClock`     | `Clock`      |
//! | `Sleep`         | `Woke`       |
//! | `FindHandler`   | `Handler`    |
//! | `RunHandler`    | `Finished`   |
//!
//! A store write that fails is reported as `Written` all the same: the loop
//! goes on and the next write brings the store back in step. A status write
//! leaves a job that is switched off as it is (see `store::status_write`):
//! only the control plane switches a job on again.
//!
//! One turn of the loop: find the next fire time, sleep until then, read the
//! job's row, look up the handler, run it, record the outcome. The row is
//! read right after waking, before anything is written: a job that was
//! deleted or switched off meanwhile ends the loop there.

use vstd::prelude::*;
use vstd::string::*;
use crate::clock::{Span, UtcInstant, sleep_nanos, sleep_span};
use crate::job::{Job, JobRaw};
use crate::schedule::{cron_is_valid, next_fire, next_fire_spec};
use crate::status::JobStatus;

verus! {

/// What the loop is waiting for.
#[derive(Debug, Clone, Copy, PartialEq, Eq, Structural)]
pub enum Phase {
    /// Not started.
    Idle,
    /// The first `Scheduled` is being written.
    Marking,
    /// The clock is being read to find the next fire time.
    Timing,
    /// Asleep until the fire time.
    Sleeping,
    /// Awake again; the job's row is being read before anything is written.
    Checking,
    /// `Scheduled` is being written for a new tick.
    Rearming,
    /// The handler is being looked up.
    Finding,
    /// `Failed` is being written for want of a handler.
    Missing,
    /// `Start` is being written.
    Latching,
    /// `Running` is being written.
    Entering,
    /// The handler is running.
    Running,
    /// The outcome of the tick is being written.
    Settling,
    /// The clock is being read to stamp the run.
    Stamping,
    /// The last-run instant is being written.
    Recording,
    /// The loop has ended.
    Done,
}

/// What the job's row in the store shows.
#[derive(Debug, Clone, Copy, PartialEq, Eq, Structural)]
pub enum RowState {
    /// The row is gone.
    Absent,
    /// The row is there and switched off.
    Disabled,
    /// The row is there, or could not be read.
    Active,
}

/// What a read of the job's row shows: a row that is gone is absent, a row
/// whose status is `Disabled` is switched off, any other row is active. A
/// read that failed counts as active: the loop goes on and reads again
/// before its next tick.
pub open spec fn row_state_of(read: Result<Option<&JobRaw>, ()>) -> RowState {
    match read {
        Ok(Some(row)) => if row.status == JobStatus::Disabled {
            RowState::Disabled
        } else {
            RowState::Active
        },
        Ok(None) => RowState::Absent,
        Err(_) => RowState::Active,
    }
}

impl RowState {
    /// What a read of the job's row shows. `Err` stands for a read that
    /// failed.
    pub fn of_read(read: Result<Option<&JobRaw>, ()>) -> (state: RowState)
        ensures
            state == row_state_of(read),
    {
        match read {
            Ok(Some(row)) => if row.status == JobStatus::Disabled {
                RowState::Disabled
            } else {
                RowState::Active
            },
            Ok(None) => RowState::Absent,
            Err(_) => RowState::Active,
        }
    }
}

/// Why a loop ended.
#[derive(Debug, Clone, Copy, PartialEq, Eq, Structural)]
pub enum ExitReason {
    /// The cron expression is invalid or has no firing left.
    NoNextRun,
    /// The job is switched off.
    Disabled,
    /// The job has been deleted.
    Removed,
    /// An event came that the loop was not waiting for, or a clock reading
    /// that is no instant.
    OutOfStep,
}

/// What the driver reports.
#[derive(Debug, Clone, Copy, PartialEq, Eq, Structural)]
pub enum Event {
    Written,
    Row(RowState),
    Clock(UtcInstant),
    Woke,
    /// Whether the registry holds a handler for the job's tag.
    Handler(bool),
    /// Whether the handler returned without an error.
    Finished(bool),
}

/// What the driver is to do next.
#[derive(Debug, Clone, Copy, PartialEq, Eq, Structural)]
pub enum Action {
    WriteStatus(JobStatus),
    WriteLastRun(UtcInstant),
    CheckJob,
    ReadClock,
    Sleep(Span),
    FindHandler,
    RunHandler,
    Exit(ExitReason),
}

/// The loop of one job.
#[derive(Debug)]
pub struct TickLoop {
    cron: String,
    phase: Phase,
    status: JobStatus,
    fire_at: Option<UtcInstant>,
    last_run: Option<UtcInstant>,
}

/// The mathematical form of a loop.
pub struct TickView {
    /// The cron expression that drives the loop.
    pub cron: Seq<char>,
    /// What the loop is waiting for.
    pub phase: Phase,
    /// The status last written, or last seen in the store.
    pub status: JobStatus,
    /// The latest fire time handed out.
    pub fire_at: Option<UtcInstant>,
    /// The latest last-run instant written, or the one the job came with.
    pub last_run: Option<UtcInstant>,
}

impl View for TickLoop {
    type V = TickView;

    closed spec fn view(&self) -> TickView {
        TickView {
            cron: self.cron@,
            phase: self.phase,
            status: self.status,
            fire_at: self.fire_at,
            last_run: self.last_run,
        }
    }
}

/// The later of an instant and an optional earlier mark.
pub open spec fn not_before_mark(now: UtcInstant, mark: Option<UtcInstant>) -> UtcInstant {
    match mark {
        Some(m) => UtcInstant::later_of(now, m),
        None => now,
    }
}

/// The later of an instant and an optional earlier mark.
pub fn clamp_to_mark(now: &UtcInstant, mark: &Option<UtcInstant>) -> (r: UtcInstant)
    ensures
        r == not_before_mark(*now, *mark),
        r.not_before(*now),
        mark is Some ==> r.not_before(mark.unwrap()),
        r == *now || *mark == Some(r),
{
    match mark {
        Some(m) => now.later(m),
        None => *now,
    }
}

impl TickView {
    /// The state is one that the loop can be in.
    pub open spec fn is_valid(self) -> bool {
        &&& self.fire_at is Some ==> self.fire_at.unwrap().is_valid()
        &&& self.last_run is Some ==> self.last_run.unwrap().is_valid()
        &&& match self.phase {
            Phase::Idle => true,
            Phase::Marking => self.status == JobStatus::Scheduled,
            Phase::Timing | Phase::Sleeping | Phase::Checking => self.status
                == JobStatus::Scheduled || self.status.is_terminal(),
            Phase::Rearming | Phase::Finding => self.status == JobStatus::Scheduled,
            Phase::Missing => self.status == JobStatus::Failed,
            Phase::Latching => self.status == JobStatus::Start,
            Phase::Entering | Phase::Running => self.status == JobStatus::Running,
            Phase::Settling | Phase::Stamping | Phase::Recording => self.status.is_terminal(),
            Phase::Done => true,
        }
    }

    /// The state with a new phase.
    pub open spec fn at(self, phase: Phase) -> TickView {
        TickView { phase, ..self }
    }

    /// The state after a status has been handed out for writing.
    pub open spec fn writing(self, status: JobStatus, phase: Phase) -> TickView {
        TickView { phase, status, ..self }
    }

    /// The state and the action with which the loop ends.
    pub open spec fn exit(self, reason: ExitReason) -> (TickView, Action) {
        (self.at(Phase::Done), Action::Exit(reason))
    }

    /// The first step: a job that is switched off is left alone; any other
    /// is marked `Scheduled`, whatever status it was found in.
    pub open spec fn start(self) -> (TickView, Action) {
        if self.phase != Phase::Idle {
            self.exit(ExitReason::OutOfStep)
        } else if self.status == JobStatus::Disabled {
            self.exit(ExitReason::Disabled)
        } else {
            (
                self.writing(JobStatus::Scheduled, Phase::Marking),
                Action::WriteStatus(JobStatus::Scheduled),
            )
        }
    }

    /// Plans the next tick at `now`: the fire time is the first one after
    /// `now`, and after the last fire time handed out. Without one the loop
    /// ends.
    pub open spec fn plan(self, now: UtcInstant) -> (TickView, Action) {
        if !now.is_valid() {
            self.exit(ExitReason::OutOfStep)
        } else {
            match next_fire_spec(self.cron, not_before_mark(now, self.fire_at)) {
                None => self.exit(ExitReason::NoNextRun),
                Some(t) => (
                    TickView { phase: Phase::Sleeping, fire_at: Some(t), ..self },
                    Action::Sleep(
                        Span {
                            secs: (sleep_nanos(t, now) / 1_000_000_000) as u64,
                            nanos: (sleep_nanos(t, now) % 1_000_000_000) as u32,
                        },
                    ),
                ),
            }
        }
    }

    /// Stamps the run at `now`, never earlier than the last stamp.
    pub open spec fn stamp(self, now: UtcInstant) -> (TickView, Action) {
        if !now.is_valid() {
            self.exit(ExitReason::OutOfStep)
        } else {
            let at = not_before_mark(now, self.last_run);
            (
                TickView { phase: Phase::Recording, last_run: Some(at), ..self },
                Action::WriteLastRun(at),
            )
        }
    }

    /// One step of the loop: the state after `event` and the next action.
    pub open spec fn step(self, event: Event) -> (TickView, Action) {
        match (self.phase, event) {
            (Phase::Marking, Event::Written) => (self.at(Phase::Timing), Action::ReadClock),
            (Phase::Timing, Event::Clock(now)) => self.plan(now),
            (Phase::Sleeping, Event::Woke) => (self.at(Phase::Checking), Action::CheckJob),
            (Phase::Checking, Event::Row(RowState::Absent)) => self.exit(ExitReason::Removed),
            (Phase::Checking, Event::Row(RowState::Disabled)) => (
                TickView { phase: Phase::Done, status: JobStatus::Disabled, ..self },
                Action::Exit(ExitReason::Disabled),
            ),
            (Phase::Checking, Event::Row(RowState::Active)) => if self.status
                == JobStatus::Scheduled {
                (self.at(Phase::Finding), Action::FindHandler)
            } else {
                (
                    self.writing(JobStatus::Scheduled, Phase::Rearming),
                    Action::WriteStatus(JobStatus::Scheduled),
                )
            },
            (Phase::Rearming, Event::Written) => (self.at(Phase::Finding), Action::FindHandler),
            (Phase::Finding, Event::Handler(found)) => if found {
                (
                    self.writing(JobStatus::Start, Phase::Latching),
                    Action::WriteStatus(JobStatus::Start),
                )
            } else {
                (
                    self.writing(JobStatus::Failed, Phase::Missing),
                    Action::WriteStatus(JobStatus::Failed),
                )
            },
            (Phase::Missing, Event::Written) => (self.at(Phase::Timing), Action::ReadClock),
            (Phase::Latching, Event::Written) => (
                self.writing(JobStatus::Running, Phase::Entering),
                Action::WriteStatus(JobStatus::Running),
            ),
            (Phase::Entering, Event::Written) => (self.at(Phase::Running), Action::RunHandler),
            (Phase::Running, Event::Finished(ok)) => {
                let outcome = if ok {
                    JobStatus::Success
                } else {
                    JobStatus::Failed
                };
                (self.writing(outcome, Phase::Settling), Action::WriteStatus(outcome))
            },
            (Phase::Settling, Event::Written) => (self.at(Phase::Stamping), Action::ReadClock),
            (Phase::Stamping, Event::Clock(now)) => self.stamp(now),
            (Phase::Recording, Event::Written) => (self.at(Phase::Timing), Action::ReadClock),
            _ => self.exit(ExitReason::OutOfStep),
        }
    }
}

impl TickLoop {
    /// The loop of a job, not yet started. It takes over the job's cron
    /// expression, its status and its last-run instant.
    pub fn new(job: &Job) -> (tick: TickLoop)
        ensures
            tick@ == (TickView {
                cron: job.cron@,
                phase: Phase::Idle,
                status: job.status,
                fire_at: None,
                last_run: match job.last_run {
                    Some(t) => if t.is_valid() {
                        Some(t)
                    } else {
                        None
                    },
                    None => None,
                },
            }),
            tick@.is_valid(),
    {
        let last_run = match job.last_run {
            Some(t) => if t.nanos < crate::clock::NANOS_PER_SEC {
                Some(t)
            } else {
                None
            },
            None => None,
        };
        TickLoop {
            cron: job.cron.clone(),
            phase: Phase::Idle,
            status: job.status,
            fire_at: None,
            last_run,
        }
    }

    /// Whether the loop has ended.
    pub fn is_done(&self) -> (done: bool)
        ensures
            done == (self@.phase == Phase::Done),
    {
        self.phase == Phase::Done
    }

    /// What the loop is waiting for.
    pub fn phase(&self) -> (phase: Phase)
        ensures
            phase == self@.phase,
    {
        self.phase
    }

    /// The status last written, or last seen in the store.
    pub fn status(&self) -> (status: JobStatus)
        ensures
            status == self@.status,
    {
        self.status
    }

    /// The latest fire time handed out.
    pub fn fire_at(&self) -> (fire_at: Option<UtcInstant>)
        ensures
            fire_at == self@.fire_at,
    {
        self.fire_at
    }

    /// The latest last-run instant written, or the one the job came with.
    pub fn last_run(&self) -> (last_run: Option<UtcInstant>)
        ensures
            last_run == self@.last_run,
    {
        self.last_run
    }

    /// The cron expression that drives the loop.
    pub fn cron(&self) -> (cron: &str)
        ensures
            cron@ == self@.cron,
    {
        self.cron.as_str()
    }

    fn exit(&mut self, reason: ExitReason) -> (action: Action)
        ensures
            (final(self)@, action) == old(self)@.exit(reason),
    {
        self.phase = Phase::Done;
        Action::Exit(reason)
    }

    fn write(&mut self, status: JobStatus, phase: Phase) -> (action: Action)
        ensures
            final(self)@ == old(self)@.writing(status, phase),
            action == Action::WriteStatus(status),
    {
        self.status = status;
        self.phase = phase;
        Action::WriteStatus(status)
    }

    /// Starts the loop.
    pub fn start(&mut self) -> (action: Action)
        requires
            old(self)@.is_valid(),
        ensures
            (final(self)@, action) == old(self)@.start(),
            final(self)@.is_valid(),
    {
        if self.phase != Phase::Idle {
            self.exit(ExitReason::OutOfStep)
        } else if self.status == JobStatus::Disabled {
            self.exit(ExitReason::Disabled)
        } else {
            self.write(JobStatus::Scheduled, Phase::Marking)
        }
    }

    fn plan(&mut self, now: &UtcInstant) -> (action: Action)
        requires
            old(self)@.is_valid(),
            old(self)@.phase == Phase::Timing,
        ensures
            (final(self)@, action) == old(self)@.plan(*now),
            final(self)@.is_valid(),
            !cron_is_valid(old(self)@.cron) ==> action is Exit,
    {
        if now.nanos >= crate::clock::NANOS_PER_SEC {
            return self.exit(ExitReason::OutOfStep);
        }
        let from = clamp_to_mark(now, &self.fire_at);
        match next_fire(self.cron.as_str(), &from) {
            None => self.exit(ExitReason::NoNextRun),
            Some(t) => {
                let span = sleep_span(&t, now);
                proof {
                    let n = sleep_nanos(t, *now);
                    assert(n == span.secs * 1_000_000_000 + span.nanos);
                    assert(span.nanos < 1_000_000_000);
                    assert(n / 1_000_000_000 == span.secs as int && n % 1_000_000_000
                        == span.nanos as int) by (nonlinear_arith)
                        requires
                            n == span.secs * 1_000_000_000 + span.nanos,
                            0 <= span.nanos < 1_000_000_000,
                    ;
                }
                self.fire_at = Some(t);
                self.phase = Phase::Sleeping;
                Action::Sleep(span)
            },
        }
    }

    fn stamp(&mut self, now: &UtcInstant) -> (action: Action)
        requires
            old(self)@.is_valid(),
            old(self)@.phase == Phase::Stamping,
        ensures
            (final(self)@, action) == old(self)@.stamp(*now),
            final(self)@.is_valid(),
    {
        if now.nanos >= crate::clock::NANOS_PER_SEC {
            return self.exit(ExitReason::OutOfStep);
        }
        let at = clamp_to_mark(now, &self.last_run);
        self.last_run = Some(at);
        self.phase = Phase::Recording;
        Action::WriteLastRun(at)
    }

    /// Takes the event that answers the last action and hands out the next
    /// action.
    ///
    /// Every status handed out for writing follows the last one along an
    /// edge of the state machine; a fire time lies strictly after the one
    /// before it; a last-run instant never lies before the one before it.
    /// A loop whose cron expression is invalid ends when it comes to plan
    /// its first tick.
    pub fn step(&mut self, event: Event) -> (action: Action)
        requires
            old(self)@.is_valid(),
        ensures
            (final(self)@, action) == old(self)@.step(event),
            final(self)@.is_valid(),
            action matches Action::WriteStatus(s) ==> old(self)@.status.allows(s)
                && final(self)@.status == s,
            old(self)@.phase == Phase::Timing && !cron_is_valid(old(self)@.cron) ==> action
                is Exit,
    {
        match (self.phase, event) {
            (Phase::Marking, Event::Written) => {
                self.phase = Phase::Timing;
                Action::ReadClock
            },
            (Phase::Timing, Event::Clock(now)) => self.plan(&now),
            (Phase::Sleeping, Event::Woke) => {
                self.phase = Phase::Checking;
                Action::CheckJob
            },
            (Phase::Checking, Event::Row(RowState::Absent)) => self.exit(ExitReason::Removed),
            (Phase::Checking, Event::Row(RowState::Disabled)) => {
                self.status = JobStatus::Disabled;
                self.phase = Phase::Done;
                Action::Exit(ExitReason::Disabled)
            },
            (Phase::Checking, Event::Row(RowState::Active)) => {
                if self.status == JobStatus::Scheduled {
                    self.phase = Phase::Finding;
                    Action::FindHandler
                } else {
                    self.write(JobStatus::Scheduled, Phase::Rearming)
                }
            },
            (Phase::Rearming, Event::Written) => {
                self.phase = Phase::Finding;
                Action::FindHandler
            },
            (Phase::Finding, Event::Handler(found)) => {
                if found {
                    self.write(JobStatus::Start, Phase::Latching)
                } else {
                    self.write(JobStatus::Failed, Phase::Missing)
                }
            },
            (Phase::Missing, Event::Written) => {
                self.phase = Phase::Timing;
                Action::ReadClock
            },
            (Phase::Latching, Event::Written) => self.write(JobStatus::Running, Phase::Entering),
            (Phase::Entering, Event::Written) => {
                self.phase = Phase::Running;
                Action::RunHandler
            },
            (Phase::Running, Event::Finished(ok)) => {
                let outcome = if ok {
                    JobStatus::Success
                } else {
                    JobStatus::Failed
                };
                self.write(outcome, Phase::Settling)
            },
            (Phase::Settling, Event::Written) => {
                self.phase = Phase::Stamping;
                Action::ReadClock
            },
            (Phase::Stamping, Event::Clock(now)) => self.stamp(&now),
            (Phase::Recording, Event::Written) => {
                self.phase = Phase::Timing;
                Action::ReadClock
            },
            _ => self.exit(ExitReason::OutOfStep),
        }
    }
}

} // verus!
