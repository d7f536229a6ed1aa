use job_scheduler::config::ShardMode;
use job_scheduler::engine::JobEngine;
use job_scheduler::job::{find_job, Job, JobRaw};
use job_scheduler::keyed::StringMap;
use job_scheduler::payload::{PrintConfig, ShellCommandConfig, TaskPayload};
use job_scheduler::registry::{AdfTask, PrintTask, TaskRegistry};
use job_scheduler::status::JobStatus;
use job_scheduler::tick::TickLoop;

fn raw(id: &str, cron: &str, task_type: &str) -> JobRaw {
    JobRaw {
        id: id.to_string(),
        name: format!("job {}", id),
        cron: cron.to_string(),
        task_type: task_type.to_string(),
        payload: "{\"message\":\"hi\"}".to_string(),
        last_run: None,
        status: JobStatus::Scheduled,
        message: None,
    }
}

fn print_job() -> Job {
    Job {
        id: "j".to_string(),
        name: "j".to_string(),
        cron: "*/1 * * * * *".to_string(),
        task_type: TaskPayload::Print(PrintConfig { message: "hi".to_string() }),
        payload: String::new(),
        last_run: None,
        status: JobStatus::Scheduled,
        message: None,
    }
}

#[test]
fn the_built_in_handlers_claim_their_tags() {
    assert_eq!(PrintTask.task_type(), "print");
    assert_eq!(AdfTask.task_type(), "adf_pipeline");
}

#[test]
fn a_new_registry_holds_the_built_in_print_handler() {
    let registry: TaskRegistry<&str> = TaskRegistry::new("printer");
    assert_eq!(registry.get("print"), Some(&"printer"));
    assert_eq!(registry.get(PrintTask.task_type()), Some(&"printer"));
    assert_eq!(registry.handler_for(&print_job()), Some(&"printer"));
    assert_eq!(registry.get("adf_pipeline"), None);
    assert_eq!(registry.get(""), None);
    assert_eq!(registry.print_all_handlers(), vec!["Task Type: print".to_string()]);
}

#[test]
fn a_registered_handler_is_found_under_its_tag() {
    let mut registry: TaskRegistry<&str> = TaskRegistry::new("printer");
    assert_eq!(registry.get("adf_pipeline"), None);
    registry.register(AdfTask.task_type(), "pipeline runner");
    assert_eq!(registry.get("print"), Some(&"printer"));
    assert_eq!(registry.get("adf_pipeline"), Some(&"pipeline runner"));
    assert_eq!(registry.get("bad"), None);
    assert_eq!(registry.get("Print"), None);
    assert_eq!(registry.handler_for(&print_job()), Some(&"printer"));
}

#[test]
fn registering_a_tag_again_replaces_its_handler() {
    let mut registry: TaskRegistry<u32> = TaskRegistry::new(1);
    registry.register("shell_command", 2);
    registry.register("print", 3);
    assert_eq!(registry.get("print"), Some(&3));
    assert_eq!(registry.get("shell_command"), Some(&2));
    registry.register("shell_command", 4);
    assert_eq!(registry.get("shell_command"), Some(&4));
    assert_eq!(registry.get("print"), Some(&3));
    assert_eq!(registry.print_all_handlers().len(), 2);
}

#[test]
fn a_job_without_a_registered_handler_finds_none() {
    let registry: TaskRegistry<u32> = TaskRegistry::new(1);
    let mut shell = print_job();
    shell.task_type = TaskPayload::ShellCommand(ShellCommandConfig { command: "ls".to_string() });
    assert_eq!(registry.handler_for(&shell), None);
    assert_eq!(registry.handler_for(&print_job()), Some(&1));
}

#[test]
fn the_log_lines_name_every_registered_tag() {
    let mut registry: TaskRegistry<u32> = TaskRegistry::new(1);
    registry.register("adf_pipeline", 2);
    let mut lines = registry.print_all_handlers();
    lines.sort();
    assert_eq!(lines, vec!["Task Type: adf_pipeline".to_string(), "Task Type: print".to_string()]);
}

#[test]
fn a_string_map_behaves_as_a_map() {
    let mut map: StringMap<i32> = StringMap::new();
    assert_eq!(map.len(), 0);
    assert_eq!(map.insert("a", 1), None);
    assert_eq!(map.insert("b", 2), None);
    assert_eq!(map.insert("a", 3), Some(1));
    assert_eq!(map.len(), 2);
    assert_eq!(map.get("a"), Some(&3));
    assert!(map.contains_key("b"));
    assert!(!map.contains_key("c"));
    let mut keys = map.keys();
    keys.sort();
    assert_eq!(keys, vec!["a".to_string(), "b".to_string()]);
    assert_eq!(map.remove("a"), Some(3));
    assert_eq!(map.remove("a"), None);
    assert_eq!(map.get("a"), None);
    assert_eq!(map.get("b"), Some(&2));
    assert_eq!(map.len(), 1);
}

#[test]
fn a_row_is_found_by_its_id() {
    let rows = vec![raw("a", "*/1 * * * * *", "print"), raw("b", "0 */5 * * * *", "print")];
    assert_eq!(find_job(&rows, "b").unwrap().cron, "0 */5 * * * *");
    assert_eq!(find_job(&rows, "a").unwrap().name, "job a");
    assert!(find_job(&rows, "c").is_none());
    assert!(find_job(&Vec::new(), "a").is_none());
}

#[test]
fn the_first_of_two_rows_with_one_id_is_found() {
    let rows = vec![raw("a", "first", "print"), raw("a", "second", "print")];
    assert_eq!(find_job(&rows, "a").unwrap().cron, "first");
}

#[test]
fn at_boot_a_local_engine_launches_every_job_that_lifts() {
    let engine: JobEngine<u64> = JobEngine::new(ShardMode::Local);
    let rows = vec![
        raw("a", "*/1 * * * * *", "print"),
        raw("b", "*/1 * * * * *", "unregistered_kind"),
        raw("c", "not a cron", "print"),
    ];
    let jobs = engine.run(&rows);
    assert_eq!(jobs.len(), 2);
    assert_eq!(jobs[0].id, "a");
    assert_eq!(jobs[1].id, "c");
    assert_eq!(engine.active_loops(), 0);
}

#[test]
fn at_boot_a_shard_launches_only_its_own_jobs() {
    let rows: Vec<JobRaw> =
        (0..40).map(|i: u32| raw(&format!("job-{:04}", i), "*/1 * * * * *", "print")).collect();
    let mut seen: usize = 0;
    let mut shard: usize = 0;
    while shard < 3 {
        let engine: JobEngine<u64> =
            JobEngine::new(ShardMode::Distributed { shard_id: shard, total_shards: 3 });
        seen += engine.run(&rows).len();
        shard += 1;
    }
    assert_eq!(seen, 40);
}

#[test]
fn reloading_yields_the_job_as_its_row_has_it_now() {
    let engine: JobEngine<u64> = JobEngine::new(ShardMode::Local);
    let mut rows = vec![raw("a", "0 */5 * * * *", "print")];
    let before = engine.reload_job_by_id(&rows, "a").unwrap();
    assert_eq!(before.cron, "0 */5 * * * *");
    rows[0].cron = "*/1 * * * * *".to_string();
    let after = engine.reload_job_by_id(&rows, "a").unwrap();
    assert_eq!(after.id, "a");
    assert_eq!(after.cron, "*/1 * * * * *");
    assert_eq!(TickLoop::new(&after).cron(), "*/1 * * * * *");
}

#[test]
fn reloading_a_missing_or_unliftable_job_yields_nothing() {
    let engine: JobEngine<u64> = JobEngine::new(ShardMode::Local);
    let rows = vec![raw("a", "*/1 * * * * *", "print"), raw("b", "*/1 * * * * *", "nope")];
    assert!(engine.reload_job_by_id(&rows, "zzz").is_none());
    assert!(engine.reload_job_by_id(&rows, "b").is_none());
}

#[test]
fn launching_a_second_loop_for_a_job_hands_back_the_first() {
    let mut engine: JobEngine<u64> = JobEngine::new(ShardMode::Local);
    assert_eq!(engine.schedule("a", 1), None);
    assert_eq!(engine.schedule("b", 2), None);
    assert!(engine.is_scheduled("a"));
    assert_eq!(engine.active_loops(), 2);
    assert_eq!(engine.schedule("a", 3), Some(1));
    assert_eq!(engine.active_loops(), 2);
    assert_eq!(engine.schedule("a", 4), Some(3));
}

#[test]
fn cancelling_a_job_hands_back_its_loop_once() {
    let mut engine: JobEngine<u64> = JobEngine::new(ShardMode::Local);
    engine.schedule("a", 1);
    assert_eq!(engine.cancel("a"), Some(1));
    assert!(!engine.is_scheduled("a"));
    assert_eq!(engine.cancel("a"), None);
    assert_eq!(engine.cancel("never"), None);
    assert_eq!(engine.active_loops(), 0);
}
