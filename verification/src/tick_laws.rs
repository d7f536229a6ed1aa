//! What holds of every run of a scheduler loop.

use vstd::prelude::*;
use crate::clock::UtcInstant;
use crate::status::JobStatus;
use crate::tick::{Action, Event, ExitReason, Phase, RowState, TickView};

verus! {

/// The state of a loop after a run of events.
pub open spec fn run(start: TickView, events: Seq<Event>) -> TickView
    decreases events.len(),
{
    if events.len() == 0 {
        start
    } else {
        run(start, events.drop_last()).step(events.last()).0
    }
}

/// The actions that a loop hands out over a run of events.
pub open spec fn actions(start: TickView, events: Seq<Event>) -> Seq<Action>
    decreases events.len(),
{
    if events.len() == 0 {
        Seq::empty()
    } else {
        actions(start, events.drop_last()).push(
            run(start, events.drop_last()).step(events.last()).1,
        )
    }
}

/// The statuses among a list of actions, in order.
pub open spec fn statuses(acts: Seq<Action>) -> Seq<JobStatus>
    decreases acts.len(),
{
    if acts.len() == 0 {
        Seq::empty()
    } else {
        match acts.last() {
            Action::WriteStatus(s) => statuses(acts.drop_last()).push(s),
            _ => statuses(acts.drop_last()),
        }
    }
}

/// The last-run instants among a list of actions, in order.
pub open spec fn stamps(acts: Seq<Action>) -> Seq<UtcInstant>
    decreases acts.len(),
{
    if acts.len() == 0 {
        Seq::empty()
    } else {
        match acts.last() {
            Action::WriteLastRun(t) => stamps(acts.drop_last()).push(t),
            _ => stamps(acts.drop_last()),
        }
    }
}

/// The fire times that a loop hands out over a run of events, in order: one
/// for each sleep.
pub open spec fn fire_times(start: TickView, events: Seq<Event>) -> Seq<UtcInstant>
    decreases events.len(),
{
    if events.len() == 0 {
        Seq::empty()
    } else {
        let before = run(start, events.drop_last());
        let (after, action) = before.step(events.last());
        if action is Sleep && after.fire_at is Some {
            fire_times(start, events.drop_last()).push(after.fire_at.unwrap())
        } else {
            fire_times(start, events.drop_last())
        }
    }
}

/// Each status follows the one before it along an edge of the state
/// machine, the first one following `from`.
pub open spec fn follows_edges(from: JobStatus, written: Seq<JobStatus>) -> bool {
    &&& written.len() > 0 ==> from.allows(written[0])
    &&& forall|i: int, j: int|
        0 <= i && j == i + 1 && j < written.len() ==> (#[trigger] written[i]).allows(
            #[trigger] written[j],
        )
}

/// Each instant lies strictly after the one before it.
pub open spec fn strictly_increasing(times: Seq<UtcInstant>) -> bool {
    forall|i: int, j: int| 0 <= i < j < times.len() ==> times[j].after(times[i])
}

/// No instant lies before the one before it.
pub open spec fn never_decreasing(times: Seq<UtcInstant>) -> bool {
    forall|i: int, j: int| 0 <= i < j < times.len() ==> times[j].not_before(times[i])
}

/// The last of a list of statuses, or `from` where the list is empty.
pub open spec fn last_status(from: JobStatus, written: Seq<JobStatus>) -> JobStatus {
    if written.len() == 0 {
        from
    } else {
        written.last()
    }
}

/// A loop stays in a state it can be in.
pub proof fn lemma_run_stays_valid(start: TickView, events: Seq<Event>)
    requires
        start.is_valid(),
    ensures
        run(start, events).is_valid(),
    decreases events.len(),
{
    if events.len() > 0 {
        lemma_run_stays_valid(start, events.drop_last());
    }
}

/// A loop that has ended stays ended and writes nothing more.
pub proof fn lemma_done_is_final(state: TickView, event: Event)
    requires
        state.phase == Phase::Done,
    ensures
        state.step(event).0 == state,
        state.step(event).1 is Exit,
{
}

/// One step: a status handed out for writing follows the loop's last
/// status along an edge and becomes the loop's status; any other step leaves
/// the status alone or ends the loop.
pub proof fn lemma_step_status(before: TickView, event: Event)
    requires
        before.is_valid(),
    ensures
        before.step(event).1 matches Action::WriteStatus(s) ==> before.status.allows(s)
            && before.step(event).0.status == s && before.step(event).0.phase != Phase::Done,
        !(before.step(event).1 is WriteStatus) ==> before.step(event).0.status == before.status
            || before.step(event).0.phase == Phase::Done,
        before.phase == Phase::Done ==> before.step(event).0.phase == Phase::Done,
{
}

/// Appending a status to a chain that it continues gives a chain.
proof fn lemma_chain_push(from: JobStatus, written: Seq<JobStatus>, next: JobStatus)
    requires
        follows_edges(from, written),
        last_status(from, written).allows(next),
    ensures
        follows_edges(from, written.push(next)),
{
    let longer = written.push(next);
    assert forall|i: int, j: int| 0 <= i && j == i + 1 && j < longer.len() implies (
    #[trigger] longer[i]).allows(#[trigger] longer[j]) by {
        if j < written.len() {
            assert(longer[i] == written[i] && longer[j] == written[j]);
        } else {
            assert(longer[i] == written.last());
        }
    }
}

/// Status transitions: over any run of a loop, the statuses handed out for
/// writing follow one another along the edges of the state machine.
pub proof fn lemma_statuses_follow_edges(start: TickView, events: Seq<Event>)
    requires
        start.is_valid(),
    ensures
        follows_edges(start.status, statuses(actions(start, events))),
        run(start, events).phase != Phase::Done ==> run(start, events).status == last_status(
            start.status,
            statuses(actions(start, events)),
        ),
    decreases events.len(),
{
    if events.len() > 0 {
        let head = events.drop_last();
        lemma_statuses_follow_edges(start, head);
        lemma_run_stays_valid(start, head);
        let before = run(start, head);
        lemma_step_status(before, events.last());
        let after = before.step(events.last()).0;
        let action = before.step(events.last()).1;
        let acts = actions(start, events);
        assert(acts.drop_last() =~= actions(start, head));
        assert(acts.last() == action);
        let old_written = statuses(actions(start, head));
        if action is WriteStatus {
            let s = action->WriteStatus_0;
            assert(statuses(acts) == old_written.push(s));
            lemma_chain_push(start.status, old_written, s);
        } else {
            assert(statuses(acts) == old_written);
        }
    }
}

/// Cron monotonicity: over any run of a loop, the fire times handed out are
/// strictly increasing, each lies after the one the loop started with, and
/// the loop remembers the last of them.
pub proof fn lemma_fire_times_increase(start: TickView, events: Seq<Event>)
    requires
        start.is_valid(),
    ensures
        strictly_increasing(fire_times(start, events)),
        forall|i: int|
            0 <= i < fire_times(start, events).len() && start.fire_at is Some ==> (
            #[trigger] fire_times(start, events)[i]).after(start.fire_at.unwrap()),
        fire_times(start, events).len() > 0 ==> run(start, events).fire_at == Some(
            fire_times(start, events).last(),
        ),
        fire_times(start, events).len() == 0 ==> run(start, events).fire_at == start.fire_at,
    decreases events.len(),
{
    if events.len() > 0 {
        let head = events.drop_last();
        lemma_fire_times_increase(start, head);
        lemma_run_stays_valid(start, head);
        let before = run(start, head);
        let (after, action) = before.step(events.last());
        let old_times = fire_times(start, head);
        let times = fire_times(start, events);
        if action is Sleep && after.fire_at is Some {
            let t = after.fire_at.unwrap();
            assert(times == old_times.push(t));
            if old_times.len() > 0 {
                assert(t.after(old_times.last()));
            }
            assert forall|i: int, j: int| 0 <= i < j < times.len() implies times[j].after(
                times[i],
            ) by {
                if j < old_times.len() {
                    assert(times[i] == old_times[i] && times[j] == old_times[j]);
                } else {
                    assert(times[j] == t);
                    assert(times[i] == old_times[i]);
                    if i < old_times.len() - 1 {
                        assert(old_times.last().after(old_times[i]));
                    }
                }
            }
            assert forall|i: int|
                0 <= i < times.len() && start.fire_at is Some implies (#[trigger] times[i]).after(
                start.fire_at.unwrap(),
            ) by {
                if i < old_times.len() {
                    assert(times[i] == old_times[i]);
                } else if old_times.len() > 0 {
                    assert(old_times.last().after(start.fire_at.unwrap()));
                }
            }
        } else {
            assert(times == old_times);
            assert(after.fire_at == before.fire_at);
        }
    }
}

/// Last-run monotonicity: over any run of a loop, the last-run instants
/// handed out for writing never decrease, none lies before the one the job
/// came with, and the loop remembers the last of them.
pub proof fn lemma_last_run_never_decreases(start: TickView, events: Seq<Event>)
    requires
        start.is_valid(),
    ensures
        never_decreasing(stamps(actions(start, events))),
        forall|i: int|
            0 <= i < stamps(actions(start, events)).len() && start.last_run is Some ==> (
            #[trigger] stamps(actions(start, events))[i]).not_before(start.last_run.unwrap()),
        stamps(actions(start, events)).len() > 0 ==> run(start, events).last_run == Some(
            stamps(actions(start, events)).last(),
        ),
        stamps(actions(start, events)).len() == 0 ==> run(start, events).last_run
            == start.last_run,
    decreases events.len(),
{
    if events.len() > 0 {
        let head = events.drop_last();
        lemma_last_run_never_decreases(start, head);
        lemma_run_stays_valid(start, head);
        let before = run(start, head);
        let (after, action) = before.step(events.last());
        let acts = actions(start, events);
        assert(acts.drop_last() =~= actions(start, head));
        assert(acts.last() == action);
        let old_stamps = stamps(actions(start, head));
        let new_stamps = stamps(acts);
        match action {
            Action::WriteLastRun(t) => {
                assert(new_stamps == old_stamps.push(t));
                assert(after.last_run == Some(t));
                assert forall|i: int, j: int| 0 <= i < j < new_stamps.len() implies new_stamps[j].not_before(
                new_stamps[i]) by {
                    if j < old_stamps.len() {
                        assert(new_stamps[i] == old_stamps[i] && new_stamps[j] == old_stamps[j]);
                    } else {
                        assert(new_stamps[j] == t);
                        assert(t.not_before(old_stamps.last()));
                        if i < old_stamps.len() - 1 {
                            assert(old_stamps.last().not_before(old_stamps[i]));
                        }
                    }
                }
                assert forall|i: int|
                    0 <= i < new_stamps.len() && start.last_run is Some implies (
                #[trigger] new_stamps[i]).not_before(start.last_run.unwrap()) by {
                    if i < old_stamps.len() {
                        assert(new_stamps[i] == old_stamps[i]);
                    }
                }
            },
            _ => {
                assert(new_stamps == old_stamps);
                assert(after.last_run == before.last_run);
            },
        }
    }
}

/// Waking up: a loop that wakes reads the job's row first. Where the job
/// is still there and switched on, the loop goes on to look for its handler
/// with the status `Scheduled`, which it writes unless it is already there;
/// where the job is gone or switched off, the loop ends and writes nothing.
pub proof fn lemma_wake_is_scheduled(asleep: TickView)
    requires
        asleep.is_valid(),
        asleep.phase == Phase::Sleeping,
    ensures
        ({
            let (checking, first) = asleep.step(Event::Woke);
            let (woken, second) = checking.step(Event::Row(RowState::Active));
            &&& first == Action::CheckJob
            &&& checking.step(Event::Row(RowState::Absent)).1 == Action::Exit(ExitReason::Removed)
            &&& checking.step(Event::Row(RowState::Disabled)).1 == Action::Exit(
                ExitReason::Disabled,
            )
            &&& if asleep.status == JobStatus::Scheduled {
                &&& second == Action::FindHandler
                &&& woken == asleep.at(Phase::Finding)
            } else {
                &&& second == Action::WriteStatus(JobStatus::Scheduled)
                &&& woken.step(Event::Written).1 == Action::FindHandler
                &&& woken.step(Event::Written).0 == asleep.writing(
                    JobStatus::Scheduled,
                    Phase::Finding,
                )
            }
        }),
{
}

/// Status cycle: a tick that finds its handler goes from `Scheduled` through
/// `Start` and `Running` to `Success` where the handler returns well and to
/// `Failed` where it does not; only then is the run stamped.
pub proof fn lemma_tick_cycle(finding: TickView, ok: bool)
    requires
        finding.is_valid(),
        finding.phase == Phase::Finding,
    ensures
        finding.status == JobStatus::Scheduled,
        ({
            let (latching, a1) = finding.step(Event::Handler(true));
            let (entering, a2) = latching.step(Event::Written);
            let (running, a3) = entering.step(Event::Written);
            let (settling, a4) = running.step(Event::Finished(ok));
            let (stamping, a5) = settling.step(Event::Written);
            &&& a1 == Action::WriteStatus(JobStatus::Start)
            &&& a2 == Action::WriteStatus(JobStatus::Running)
            &&& a3 == Action::RunHandler
            &&& a4 == Action::WriteStatus(
                if ok {
                    JobStatus::Success
                } else {
                    JobStatus::Failed
                },
            )
            &&& a5 == Action::ReadClock
            &&& stamping.phase == Phase::Stamping
            &&& forall|now: UtcInstant|
                now.is_valid() ==> (#[trigger] stamping.step(Event::Clock(now))).1
                    is WriteLastRun
        }),
{
}

/// A tick without a handler: the job is marked `Failed` once, no run is
/// stamped, and the loop goes on to its next tick.
pub proof fn lemma_tick_without_handler(finding: TickView)
    requires
        finding.is_valid(),
        finding.phase == Phase::Finding,
    ensures
        ({
            let (missing, a1) = finding.step(Event::Handler(false));
            let (timing, a2) = missing.step(Event::Written);
            &&& a1 == Action::WriteStatus(JobStatus::Failed)
            &&& a2 == Action::ReadClock
            &&& timing.phase == Phase::Timing
            &&& timing.last_run == finding.last_run
        }),
{
}

/// A handler failure never ends the loop: after a failed tick the loop
/// reads the clock and plans its next tick.
pub proof fn lemma_loop_survives_failure(running: TickView, now: UtcInstant)
    requires
        running.is_valid(),
        running.phase == Phase::Running,
        now.is_valid(),
    ensures
        ({
            let settling = running.step(Event::Finished(false)).0;
            let stamping = settling.step(Event::Written).0;
            let recording = stamping.step(Event::Clock(now)).0;
            let (timing, action) = recording.step(Event::Written);
            &&& action == Action::ReadClock
            &&& timing.phase == Phase::Timing
            &&& timing.status == JobStatus::Failed
        }),
{
}

} // verus!
