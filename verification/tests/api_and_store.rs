use job_scheduler::api::{
    create_job, get_job_by_id, job_from_request, list_jobs, update_job, validate_request,
    JobApiError, JobRequest, JobResponse,
};
use job_scheduler::clock::UtcInstant;
use job_scheduler::job::JobRaw;
use job_scheduler::status::JobStatus;
use job_scheduler::store::{
    checked_last_run_text, last_run_column, load_jobs, read_status_column, sqlite_file_path,
    status_write, JobRow, StoreError,
};

const NEW_YEAR_2024: i64 = 1_704_067_200;

fn request(cron: &str) -> JobRequest {
    JobRequest {
        name: "t1".to_string(),
        cron: cron.to_string(),
        task_type: "print".to_string(),
        payload: "{\"message\":\"hi\"}".to_string(),
    }
}

fn stored(id: &str, last_run: Option<UtcInstant>, status: JobStatus) -> JobRaw {
    JobRaw {
        id: id.to_string(),
        name: "old name".to_string(),
        cron: "0 */5 * * * *".to_string(),
        task_type: "shell_command".to_string(),
        payload: "{\"command\":\"ls\"}".to_string(),
        last_run,
        status,
        message: None,
    }
}

fn db_row(last_run: Option<&str>, status: Option<&str>, payload: Option<&str>) -> JobRow {
    JobRow {
        id: "a".to_string(),
        name: "n".to_string(),
        cron: "*/1 * * * * *".to_string(),
        task_type: "print".to_string(),
        payload: payload.map(|s| s.to_string()),
        last_run: last_run.map(|s| s.to_string()),
        status: status.map(|s| s.to_string()),
    }
}

#[test]
fn a_valid_create_request_makes_a_scheduled_job_that_never_ran() {
    let job = job_from_request(
        "11111111-1111-1111-1111-111111111111".to_string(),
        &request("*/1 * * * * *"),
    )
    .unwrap();
    assert_eq!(job.id, "11111111-1111-1111-1111-111111111111");
    assert_eq!(job.name, "t1");
    assert_eq!(job.cron, "*/1 * * * * *");
    assert_eq!(job.task_type, "print");
    assert_eq!(job.payload, "{\"message\":\"hi\"}");
    assert_eq!(job.last_run, None);
    assert_eq!(job.status, JobStatus::Scheduled);
    assert_eq!(job.message, None);
    let shown = JobResponse::from(job);
    assert_eq!(shown.status, "scheduled");
    assert_eq!(shown.last_run, None);
    assert_eq!(shown.cron, "*/1 * * * * *");
}

#[test]
fn a_create_request_with_an_invalid_cron_is_refused_with_400() {
    let refused = job_from_request("id".to_string(), &request("not a cron")).unwrap_err();
    assert!(matches!(refused, JobApiError::InvalidCron(_)));
    assert_eq!(refused.status_code(), 400);
    assert!(refused.error_response().starts_with("Invalid cron: "));
    assert!(matches!(create_job(&request("not a cron")), Err(JobApiError::InvalidCron(_))));
    assert!(validate_request(&request("not a cron")).is_err());
    assert!(validate_request(&request("0 */5 * * * *")).is_ok());
}

#[test]
fn created_jobs_get_fresh_ids_in_uuid_form() {
    let one = create_job(&request("*/1 * * * * *")).unwrap();
    let two = create_job(&request("*/1 * * * * *")).unwrap();
    assert_ne!(one.id, two.id);
    assert_eq!(one.id.len(), 36);
    assert_eq!(one.id.chars().filter(|c| *c == '-').count(), 4);
    assert_eq!(one.id.chars().nth(14), Some('4'));
    assert!(matches!(one.id.chars().nth(19), Some('8') | Some('9') | Some('a') | Some('b')));
    for (i, c) in one.id.chars().enumerate() {
        if i == 8 || i == 13 || i == 18 || i == 23 {
            assert_eq!(c, '-');
        } else {
            assert!(c.is_ascii_digit() || ('a'..='f').contains(&c), "{}", one.id);
        }
    }
    assert_eq!(one.status, JobStatus::Scheduled);
    assert_eq!(one.name, "t1");
}

#[test]
fn an_update_replaces_the_request_fields_and_keeps_id_and_last_run() {
    let before = stored("a", Some(UtcInstant { secs: NEW_YEAR_2024, nanos: 0 }), JobStatus::Failed);
    let after = update_job(Some(&before), &request("*/1 * * * * *")).unwrap();
    assert_eq!(after.id, "a");
    assert_eq!(after.name, "t1");
    assert_eq!(after.cron, "*/1 * * * * *");
    assert_eq!(after.task_type, "print");
    assert_eq!(after.payload, "{\"message\":\"hi\"}");
    assert_eq!(after.last_run, before.last_run);
    assert_eq!(after.status, JobStatus::Scheduled);
}

#[test]
fn an_update_of_a_missing_job_is_not_found() {
    let missing = update_job(None, &request("*/1 * * * * *")).unwrap_err();
    assert!(matches!(missing, JobApiError::NotFound));
    assert_eq!(missing.status_code(), 404);
}

#[test]
fn an_update_with_an_invalid_cron_is_refused_before_anything_else() {
    let before = stored("a", None, JobStatus::Success);
    assert!(matches!(
        update_job(Some(&before), &request("never")),
        Err(JobApiError::InvalidCron(_))
    ));
    assert!(matches!(update_job(None, &request("never")), Err(JobApiError::InvalidCron(_))));
}

#[test]
fn a_read_shows_the_job_or_is_not_found() {
    let job = stored("a", Some(UtcInstant { secs: NEW_YEAR_2024, nanos: 0 }), JobStatus::Success);
    let shown = get_job_by_id(Some(job)).unwrap();
    assert_eq!(shown.id, "a");
    assert_eq!(shown.status, "success");
    assert_eq!(shown.last_run, Some("2024-01-01T00:00:00+00:00".to_string()));
    assert!(matches!(get_job_by_id(None), Err(JobApiError::NotFound)));
}

#[test]
fn a_listing_shows_every_job_in_order() {
    let shown = list_jobs(vec![
        stored("a", None, JobStatus::Scheduled),
        stored("b", None, JobStatus::Running),
    ]);
    assert_eq!(shown.len(), 2);
    assert_eq!(shown[0].id, "a");
    assert_eq!(shown[1].id, "b");
    assert_eq!(shown[1].status, "running");
    assert!(list_jobs(Vec::new()).is_empty());
}

#[test]
fn failures_have_their_status_and_their_words() {
    let database = JobApiError::DatabaseError("locked".to_string());
    assert_eq!(database.status_code(), 500);
    assert_eq!(database.error_response(), "Database error: locked");
    assert_eq!(database.to_string(), "Database error: locked");
    assert_eq!(JobApiError::NotFound.status_code(), 404);
    assert_eq!(JobApiError::NotFound.error_response(), "Job not found");
    assert_eq!(JobApiError::NotFound.to_string(), "Job not found");
    let cron = JobApiError::InvalidCron("bad".to_string());
    assert_eq!(cron.status_code(), 400);
    assert_eq!(cron.error_response(), "Invalid cron: bad");
    assert_eq!(cron.to_string(), "Invalid cron expression: bad");
    let payload = JobApiError::InvalidPayload("bad".to_string());
    assert_eq!(payload.status_code(), 400);
    assert_eq!(payload.error_response(), "Invalid payload: bad");
    assert_eq!(payload.to_string(), "Invalid payload format: bad");
}

#[test]
fn a_job_goes_into_a_row_with_text_columns() {
    let job = stored("a", Some(UtcInstant { secs: NEW_YEAR_2024, nanos: 0 }), JobStatus::Success);
    let row = job.to_row().unwrap();
    assert_eq!(row.id, "a");
    assert_eq!(row.name, "old name");
    assert_eq!(row.cron, "0 */5 * * * *");
    assert_eq!(row.task_type, "shell_command");
    assert_eq!(row.payload, Some("{\"command\":\"ls\"}".to_string()));
    assert_eq!(row.last_run, Some("2024-01-01T00:00:00+00:00".to_string()));
    assert_eq!(row.status, Some("success".to_string()));
}

#[test]
fn a_job_comes_back_from_its_row_as_it_went_in() {
    let samples: Vec<JobRaw> = vec![
        stored("a", None, JobStatus::Scheduled),
        stored("b", Some(UtcInstant { secs: NEW_YEAR_2024, nanos: 123_456_789 }), JobStatus::Failed),
        stored("c", Some(UtcInstant { secs: 0, nanos: 0 }), JobStatus::Disabled),
    ];
    for job in samples {
        let back = JobRaw::from_row(&job.to_row().unwrap()).unwrap();
        assert_eq!(format!("{:?}", back), format!("{:?}", job));
    }
}

#[test]
fn an_inserted_job_loads_and_lifts_to_what_was_asked_for() {
    let created = job_from_request("id-1".to_string(), &request("*/1 * * * * *")).unwrap();
    let table = vec![created.to_row().unwrap()];
    let loaded = load_jobs(&table).unwrap();
    assert_eq!(loaded.len(), 1);
    let job = loaded[0].to_job().unwrap();
    assert_eq!(job.id, "id-1");
    assert_eq!(job.name, "t1");
    assert_eq!(job.cron, "*/1 * * * * *");
    assert_eq!(job.status, JobStatus::Scheduled);
    assert_eq!(job.last_run, None);
    assert_eq!(job.task_type.as_print().unwrap().message, "hi");
}

#[test]
fn empty_columns_take_their_defaults() {
    let job = JobRaw::from_row(&db_row(None, None, None)).unwrap();
    assert_eq!(job.payload, "");
    assert_eq!(job.last_run, None);
    assert_eq!(job.status, JobStatus::Start);
    assert_eq!(job.message, None);
}

#[test]
fn an_unknown_status_text_is_read_as_start() {
    assert_eq!(read_status_column(&Some("paused".to_string())), JobStatus::Start);
    assert_eq!(read_status_column(&Some("RUNNING".to_string())), JobStatus::Start);
    assert_eq!(read_status_column(&None), JobStatus::Start);
    assert_eq!(read_status_column(&Some("disabled".to_string())), JobStatus::Disabled);
    assert_eq!(read_status_column(&Some("running".to_string())), JobStatus::Running);
}

#[test]
fn a_last_run_that_is_no_instant_fails_the_row() {
    assert_eq!(
        JobRaw::from_row(&db_row(Some("last tuesday"), Some("success"), None)).unwrap_err(),
        StoreError::BadTimestamp
    );
    let table = vec![
        db_row(None, Some("success"), None),
        db_row(Some("nope"), Some("success"), None),
    ];
    assert_eq!(load_jobs(&table).unwrap_err(), StoreError::BadTimestamp);
}

#[test]
fn a_last_run_with_an_offset_is_read_in_utc() {
    let job = JobRaw::from_row(&db_row(Some("2024-01-01T01:00:00+01:00"), None, None)).unwrap();
    assert_eq!(job.last_run, Some(UtcInstant { secs: NEW_YEAR_2024, nanos: 0 }));
}

#[test]
fn an_instant_beyond_the_calendar_cannot_be_stored() {
    let job = stored("a", Some(UtcInstant { secs: i64::MAX, nanos: 0 }), JobStatus::Success);
    assert_eq!(job.to_row().unwrap_err(), StoreError::InstantOutOfRange);
    assert_eq!(
        last_run_column(&UtcInstant { secs: i64::MIN, nanos: 0 }),
        Err(StoreError::InstantOutOfRange)
    );
    assert_eq!(
        last_run_column(&UtcInstant { secs: NEW_YEAR_2024, nanos: 0 }),
        Ok("2024-01-01T00:00:00+00:00".to_string())
    );
}

#[test]
fn a_row_with_a_leap_second_last_run_loads() {
    let job = JobRaw::from_row(&db_row(Some("2016-12-31T23:59:60Z"), Some("success"), None)).unwrap();
    assert_eq!(job.last_run, Some(UtcInstant { secs: 1_483_228_800, nanos: 0 }));
    let back = job.to_row().unwrap();
    assert_eq!(back.last_run, Some("2017-01-01T00:00:00+00:00".to_string()));
}

#[test]
fn a_last_run_is_stored_only_if_it_reads_back_as_itself() {
    let at = UtcInstant { secs: NEW_YEAR_2024, nanos: 7 };
    let other = UtcInstant { secs: NEW_YEAR_2024, nanos: 8 };
    assert_eq!(checked_last_run_text(&at, Some("t".to_string()), Some(at)), Ok("t".to_string()));
    assert_eq!(
        checked_last_run_text(&at, Some("t".to_string()), Some(other)),
        Err(StoreError::InstantOutOfRange)
    );
    assert_eq!(
        checked_last_run_text(&at, Some("t".to_string()), None),
        Err(StoreError::InstantOutOfRange)
    );
    assert_eq!(checked_last_run_text(&at, None, Some(at)), Err(StoreError::InstantOutOfRange));
    let no_instant = UtcInstant { secs: 59, nanos: 1_500_000_000 };
    assert_eq!(last_run_column(&no_instant), Err(StoreError::InstantOutOfRange));
    let far = UtcInstant { secs: 400_000_000_000, nanos: 0 };
    match last_run_column(&far) {
        Ok(text) => assert_eq!(UtcInstant::parse_rfc3339(&text), Some(far)),
        Err(e) => assert_eq!(e, StoreError::InstantOutOfRange),
    }
}

#[test]
fn a_loop_writes_a_status_unless_the_job_is_disabled() {
    let write = status_write(JobStatus::Running);
    assert_eq!(write.status, "running");
    assert_eq!(write.unless, "disabled");
    assert_eq!(write.apply(&Some("scheduled".to_string())), Some("running".to_string()));
    assert_eq!(write.apply(&Some("paused".to_string())), Some("running".to_string()));
    assert_eq!(write.apply(&None), Some("running".to_string()));
    assert_eq!(write.apply(&Some("disabled".to_string())), Some("disabled".to_string()));
}

#[test]
fn a_sqlite_url_names_its_file() {
    assert_eq!(sqlite_file_path("sqlite://jobs.db"), Some("jobs.db".to_string()));
    assert_eq!(sqlite_file_path("sqlite://data/dir/jobs.db"), Some("data/dir/jobs.db".to_string()));
    assert_eq!(sqlite_file_path("sqlite://"), Some("".to_string()));
    assert_eq!(sqlite_file_path("sqlite://sqlite://x"), Some("x".to_string()));
    assert_eq!(sqlite_file_path("sqlite://ž/jobs.db"), Some("ž/jobs.db".to_string()));
}

#[test]
fn other_urls_name_no_local_file() {
    assert_eq!(sqlite_file_path("postgres://host/db"), None);
    assert_eq!(sqlite_file_path("sqlite:jobs.db"), None);
    assert_eq!(sqlite_file_path(""), None);
    assert_eq!(sqlite_file_path("SQLITE://jobs.db"), None);
}
