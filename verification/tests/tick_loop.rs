use job_scheduler::clock::{Span, UtcInstant};
use job_scheduler::job::Job;
use job_scheduler::payload::{PrintConfig, TaskPayload};
use job_scheduler::status::JobStatus;
use job_scheduler::tick::{Action, Event, ExitReason, Phase, RowState, TickLoop};

const NEW_YEAR_2024: i64 = 1_704_067_200;

fn at(secs: i64, nanos: u32) -> UtcInstant {
    UtcInstant { secs, nanos }
}

fn job(cron: &str, status: JobStatus, last_run: Option<UtcInstant>) -> Job {
    Job {
        id: "j1".to_string(),
        name: "t1".to_string(),
        cron: cron.to_string(),
        task_type: TaskPayload::Print(PrintConfig { message: "hi".to_string() }),
        payload: String::new(),
        last_run,
        status,
        message: None,
    }
}

/// Drives a started loop to its first sleep.
fn asleep(cron: &str, now: UtcInstant) -> TickLoop {
    let mut tick = TickLoop::new(&job(cron, JobStatus::Start, None));
    assert_eq!(tick.start(), Action::WriteStatus(JobStatus::Scheduled));
    assert_eq!(tick.step(Event::Written), Action::ReadClock);
    assert!(matches!(tick.step(Event::Clock(now)), Action::Sleep(_)));
    tick
}

/// Runs one tick that finds its handler, from the wake-up until the run has
/// been stamped and the clock is asked for again. The clock shows `now`
/// when the run is stamped.
fn run_tick(tick: &mut TickLoop, ok: bool, now: UtcInstant) -> Vec<Action> {
    let mut actions: Vec<Action> = Vec::new();
    let mut stamped: bool = false;
    let mut action = tick.step(Event::Woke);
    loop {
        actions.push(action);
        let event = match action {
            Action::CheckJob => Event::Row(RowState::Active),
            Action::WriteStatus(_) => Event::Written,
            Action::WriteLastRun(_) => {
                stamped = true;
                Event::Written
            }
            Action::FindHandler => Event::Handler(true),
            Action::RunHandler => Event::Finished(ok),
            Action::ReadClock if !stamped => Event::Clock(now),
            Action::ReadClock | Action::Sleep(_) | Action::Exit(_) => break,
        };
        action = tick.step(event);
    }
    actions
}

/// Plans the next tick of a loop that asks for the clock.
fn plan(tick: &mut TickLoop, now: UtcInstant) -> Action {
    tick.step(Event::Clock(now))
}

#[test]
fn a_new_loop_takes_over_the_job() {
    let tick = TickLoop::new(&job("*/1 * * * * *", JobStatus::Running, Some(at(5, 0))));
    assert_eq!(tick.phase(), Phase::Idle);
    assert_eq!(tick.status(), JobStatus::Running);
    assert_eq!(tick.last_run(), Some(at(5, 0)));
    assert_eq!(tick.fire_at(), None);
    assert_eq!(tick.cron(), "*/1 * * * * *");
    assert!(!tick.is_done());
}

#[test]
fn a_loop_is_marked_scheduled_whatever_status_the_job_was_left_in() {
    for status in [JobStatus::Start, JobStatus::Running, JobStatus::Success, JobStatus::Failed] {
        let mut tick = TickLoop::new(&job("*/1 * * * * *", status, None));
        assert_eq!(tick.start(), Action::WriteStatus(JobStatus::Scheduled));
        assert_eq!(tick.status(), JobStatus::Scheduled);
    }
}

#[test]
fn a_disabled_job_is_not_started() {
    let mut tick = TickLoop::new(&job("*/1 * * * * *", JobStatus::Disabled, None));
    assert_eq!(tick.start(), Action::Exit(ExitReason::Disabled));
    assert!(tick.is_done());
    assert_eq!(tick.status(), JobStatus::Disabled);
}

#[test]
fn the_first_sleep_lasts_until_the_next_fire_time() {
    let mut tick = TickLoop::new(&job("*/1 * * * * *", JobStatus::Scheduled, None));
    tick.start();
    tick.step(Event::Written);
    let action = tick.step(Event::Clock(at(NEW_YEAR_2024, 250_000_000)));
    assert_eq!(action, Action::Sleep(Span { secs: 0, nanos: 750_000_000 }));
    assert_eq!(tick.fire_at(), Some(at(NEW_YEAR_2024 + 1, 0)));
    assert_eq!(tick.phase(), Phase::Sleeping);
}

#[test]
fn a_successful_tick_goes_through_start_running_success() {
    let mut tick = asleep("*/1 * * * * *", at(NEW_YEAR_2024, 0));
    let actions = run_tick(&mut tick, true, at(NEW_YEAR_2024 + 1, 5));
    assert_eq!(
        actions,
        vec![
            Action::CheckJob,
            Action::FindHandler,
            Action::WriteStatus(JobStatus::Start),
            Action::WriteStatus(JobStatus::Running),
            Action::RunHandler,
            Action::WriteStatus(JobStatus::Success),
            Action::ReadClock,
            Action::WriteLastRun(at(NEW_YEAR_2024 + 1, 5)),
            Action::ReadClock,
        ]
    );
    assert_eq!(tick.status(), JobStatus::Success);
    assert_eq!(tick.last_run(), Some(at(NEW_YEAR_2024 + 1, 5)));
}

#[test]
fn a_failing_tick_ends_in_failed_and_the_loop_goes_on() {
    let mut tick = asleep("*/1 * * * * *", at(NEW_YEAR_2024, 0));
    let actions = run_tick(&mut tick, false, at(NEW_YEAR_2024 + 1, 5));
    assert_eq!(
        actions,
        vec![
            Action::CheckJob,
            Action::FindHandler,
            Action::WriteStatus(JobStatus::Start),
            Action::WriteStatus(JobStatus::Running),
            Action::RunHandler,
            Action::WriteStatus(JobStatus::Failed),
            Action::ReadClock,
            Action::WriteLastRun(at(NEW_YEAR_2024 + 1, 5)),
            Action::ReadClock,
        ]
    );
    assert!(!tick.is_done());
    assert!(matches!(plan(&mut tick, at(NEW_YEAR_2024 + 1, 6)), Action::Sleep(_)));
}

#[test]
fn two_failing_ticks_both_end_in_failed_with_last_run_advancing() {
    let mut tick = asleep("*/1 * * * * *", at(NEW_YEAR_2024, 0));
    let first = run_tick(&mut tick, false, at(NEW_YEAR_2024 + 1, 100));
    assert!(first.contains(&Action::WriteStatus(JobStatus::Failed)));
    let first_run = tick.last_run().unwrap();
    plan(&mut tick, at(NEW_YEAR_2024 + 1, 200));
    let second = run_tick(&mut tick, false, at(NEW_YEAR_2024 + 2, 100));
    assert_eq!(second[0], Action::CheckJob);
    assert_eq!(second[1], Action::WriteStatus(JobStatus::Scheduled));
    assert!(second.contains(&Action::WriteStatus(JobStatus::Failed)));
    assert!(!second.contains(&Action::WriteStatus(JobStatus::Success)));
    assert!(tick.last_run().unwrap().is_after(&first_run));
}

#[test]
fn the_second_tick_is_scheduled_again_before_it_starts() {
    let mut tick = asleep("*/1 * * * * *", at(NEW_YEAR_2024, 0));
    run_tick(&mut tick, true, at(NEW_YEAR_2024 + 1, 0));
    assert!(matches!(plan(&mut tick, at(NEW_YEAR_2024 + 1, 1)), Action::Sleep(_)));
    let actions = run_tick(&mut tick, true, at(NEW_YEAR_2024 + 2, 0));
    assert_eq!(
        &actions[..6],
        &[
            Action::CheckJob,
            Action::WriteStatus(JobStatus::Scheduled),
            Action::FindHandler,
            Action::WriteStatus(JobStatus::Start),
            Action::WriteStatus(JobStatus::Running),
            Action::RunHandler,
        ]
    );
}

#[test]
fn every_status_written_follows_an_edge_of_the_state_machine() {
    let mut tick = asleep("*/1 * * * * *", at(NEW_YEAR_2024, 0));
    let mut last: JobStatus = JobStatus::Scheduled;
    let mut now: i64 = NEW_YEAR_2024;
    let mut round: u32 = 0;
    while round < 12 {
        now += 1;
        let actions = if round % 4 == 3 {
            let mut acts: Vec<Action> = Vec::new();
            assert_eq!(tick.step(Event::Woke), Action::CheckJob);
            let mut action = tick.step(Event::Row(RowState::Active));
            if action == Action::WriteStatus(JobStatus::Scheduled) {
                acts.push(action);
                action = tick.step(Event::Written);
            }
            assert_eq!(action, Action::FindHandler);
            acts.push(tick.step(Event::Handler(false)));
            assert_eq!(tick.step(Event::Written), Action::ReadClock);
            acts
        } else {
            run_tick(&mut tick, round % 2 == 0, at(now, 0))
        };
        for action in actions {
            if let Action::WriteStatus(status) = action {
                assert!(last.can_transition_to(status), "{:?} -> {:?}", last, status);
                last = status;
            }
        }
        assert!(matches!(plan(&mut tick, at(now, 1)), Action::Sleep(_)));
        round += 1;
    }
}

#[test]
fn a_tick_without_a_handler_is_marked_failed_once_and_not_stamped() {
    let mut tick = asleep("*/1 * * * * *", at(NEW_YEAR_2024, 0));
    assert_eq!(tick.step(Event::Woke), Action::CheckJob);
    assert_eq!(tick.step(Event::Row(RowState::Active)), Action::FindHandler);
    assert_eq!(tick.step(Event::Handler(false)), Action::WriteStatus(JobStatus::Failed));
    assert_eq!(tick.step(Event::Written), Action::ReadClock);
    assert_eq!(tick.last_run(), None);
    assert_eq!(tick.status(), JobStatus::Failed);
    assert!(matches!(plan(&mut tick, at(NEW_YEAR_2024 + 1, 0)), Action::Sleep(_)));
}

#[test]
fn an_invalid_cron_expression_ends_the_loop_cleanly() {
    let mut tick = TickLoop::new(&job("not a cron", JobStatus::Scheduled, None));
    assert_eq!(tick.start(), Action::WriteStatus(JobStatus::Scheduled));
    assert_eq!(tick.step(Event::Written), Action::ReadClock);
    assert_eq!(tick.step(Event::Clock(at(NEW_YEAR_2024, 0))), Action::Exit(ExitReason::NoNextRun));
    assert!(tick.is_done());
}

#[test]
fn a_deleted_job_ends_the_loop_when_it_wakes() {
    let mut tick = asleep("*/1 * * * * *", at(NEW_YEAR_2024, 0));
    let actions = run_tick(&mut tick, true, at(NEW_YEAR_2024 + 1, 0));
    assert_eq!(actions.iter().filter(|a| **a == Action::RunHandler).count(), 1);
    assert!(matches!(plan(&mut tick, at(NEW_YEAR_2024 + 1, 1)), Action::Sleep(_)));
    assert_eq!(tick.step(Event::Woke), Action::CheckJob);
    assert_eq!(tick.step(Event::Row(RowState::Absent)), Action::Exit(ExitReason::Removed));
    assert!(tick.is_done());
    assert_eq!(tick.step(Event::Woke), Action::Exit(ExitReason::OutOfStep));
    assert!(tick.is_done());
}

#[test]
fn a_disabled_job_halts_the_loop_when_it_wakes() {
    let mut tick = asleep("*/1 * * * * *", at(NEW_YEAR_2024, 0));
    run_tick(&mut tick, true, at(NEW_YEAR_2024 + 1, 0));
    assert!(matches!(plan(&mut tick, at(NEW_YEAR_2024 + 1, 1)), Action::Sleep(_)));
    assert_eq!(tick.step(Event::Woke), Action::CheckJob);
    assert_eq!(tick.step(Event::Row(RowState::Disabled)), Action::Exit(ExitReason::Disabled));
    assert_eq!(tick.status(), JobStatus::Disabled);
    assert!(tick.is_done());
}

#[test]
fn an_event_out_of_turn_ends_the_loop() {
    let mut tick = asleep("*/1 * * * * *", at(NEW_YEAR_2024, 0));
    assert_eq!(tick.step(Event::Finished(true)), Action::Exit(ExitReason::OutOfStep));
    assert!(tick.is_done());
    let mut again = TickLoop::new(&job("*/1 * * * * *", JobStatus::Scheduled, None));
    again.start();
    assert_eq!(again.start(), Action::Exit(ExitReason::OutOfStep));
}

#[test]
fn a_clock_reading_that_is_no_instant_ends_the_loop() {
    let mut tick = TickLoop::new(&job("*/1 * * * * *", JobStatus::Scheduled, None));
    tick.start();
    tick.step(Event::Written);
    assert_eq!(
        tick.step(Event::Clock(at(NEW_YEAR_2024, 2_000_000_000))),
        Action::Exit(ExitReason::OutOfStep)
    );
}

#[test]
fn fire_times_increase_even_when_the_clock_steps_back() {
    let mut tick = asleep("*/1 * * * * *", at(NEW_YEAR_2024 + 100, 0));
    let first = tick.fire_at().unwrap();
    assert_eq!(first, at(NEW_YEAR_2024 + 101, 0));
    run_tick(&mut tick, true, at(NEW_YEAR_2024 + 50, 0));
    let action = plan(&mut tick, at(NEW_YEAR_2024 + 50, 0));
    let second = tick.fire_at().unwrap();
    assert_eq!(second, at(NEW_YEAR_2024 + 102, 0));
    assert!(second.is_after(&first));
    assert_eq!(action, Action::Sleep(Span { secs: 52, nanos: 0 }));
}

#[test]
fn the_next_tick_is_counted_from_the_end_of_a_long_run() {
    let mut tick = asleep("*/1 * * * * *", at(NEW_YEAR_2024, 0));
    run_tick(&mut tick, true, at(NEW_YEAR_2024 + 30, 400_000_000));
    let action = plan(&mut tick, at(NEW_YEAR_2024 + 30, 400_000_000));
    assert_eq!(tick.fire_at(), Some(at(NEW_YEAR_2024 + 31, 0)));
    assert_eq!(action, Action::Sleep(Span { secs: 0, nanos: 600_000_000 }));
}

#[test]
fn last_run_never_steps_back() {
    let mut tick = asleep("*/1 * * * * *", at(NEW_YEAR_2024, 0));
    run_tick(&mut tick, true, at(NEW_YEAR_2024 + 10, 0));
    assert_eq!(tick.last_run(), Some(at(NEW_YEAR_2024 + 10, 0)));
    plan(&mut tick, at(NEW_YEAR_2024 + 10, 0));
    let actions = run_tick(&mut tick, true, at(NEW_YEAR_2024 + 5, 0));
    assert!(actions.contains(&Action::WriteLastRun(at(NEW_YEAR_2024 + 10, 0))));
    assert_eq!(tick.last_run(), Some(at(NEW_YEAR_2024 + 10, 0)));
}

#[test]
fn last_run_starts_from_the_one_the_job_came_with() {
    let mut tick = TickLoop::new(&job(
        "*/1 * * * * *",
        JobStatus::Success,
        Some(at(NEW_YEAR_2024 + 1000, 0)),
    ));
    tick.start();
    tick.step(Event::Written);
    tick.step(Event::Clock(at(NEW_YEAR_2024, 0)));
    let actions = run_tick(&mut tick, true, at(NEW_YEAR_2024 + 1, 0));
    assert!(actions.contains(&Action::WriteLastRun(at(NEW_YEAR_2024 + 1000, 0))));
}

#[test]
fn a_loop_on_a_new_cron_fires_by_the_new_cron() {
    let slow = asleep("0 */5 * * * *", at(NEW_YEAR_2024 + 1, 0));
    assert_eq!(slow.fire_at(), Some(at(NEW_YEAR_2024 + 300, 0)));
    let fast = asleep("*/1 * * * * *", at(NEW_YEAR_2024 + 1, 0));
    assert_eq!(fast.fire_at(), Some(at(NEW_YEAR_2024 + 2, 0)));
}
