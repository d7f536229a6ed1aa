use job_scheduler::job::{synthesize_envelope, JobRaw};
use job_scheduler::json::{parse_json, Json};
use job_scheduler::payload::{
    AdfConfig, AwsStepFnConfig, LiftError, PrintConfig, ShellCommandConfig, TaskPayload,
};
use job_scheduler::status::JobStatus;

fn row(task_type: &str, payload: &str) -> JobRaw {
    JobRaw {
        id: "11111111-1111-1111-1111-111111111111".to_string(),
        name: "t1".to_string(),
        cron: "*/1 * * * * *".to_string(),
        task_type: task_type.to_string(),
        payload: payload.to_string(),
        last_run: None,
        status: JobStatus::Scheduled,
        message: Some("note".to_string()),
    }
}

fn text(s: &str) -> Json {
    Json::Text(s.to_string())
}

fn object(members: Vec<(&str, Json)>) -> Json {
    Json::Object(members.into_iter().map(|(k, v)| (k.to_string(), v)).collect())
}

fn shown(json: &Json) -> String {
    format!("{:?}", json)
}

#[test]
fn json_text_is_read_into_the_tree() {
    let parsed = parse_json("{\"a\": [1, -2.5, true, null, \"x\"], \"b\": {}}").unwrap();
    let expected = object(vec![
        (
            "a",
            Json::Array(vec![
                Json::Number("1".to_string()),
                Json::Number("-2.5".to_string()),
                Json::Bool(true),
                Json::Null,
                text("x"),
            ]),
        ),
        ("b", object(vec![])),
    ]);
    assert_eq!(shown(&parsed), shown(&expected));
}

#[test]
fn text_that_is_not_json_is_not_parsed() {
    assert!(parse_json("").is_none());
    assert!(parse_json("{").is_none());
    assert!(parse_json("{\"a\": }").is_none());
    assert!(parse_json("hello").is_none());
}

#[test]
fn members_are_found_by_key() {
    let value = object(vec![("kid", text("k1")), ("n", text("abc")), ("use", Json::Null)]);
    assert_eq!(value.text_member("kid"), Some(&"k1".to_string()));
    assert_eq!(value.text_member("n"), Some(&"abc".to_string()));
    assert_eq!(value.text_member("use"), None);
    assert_eq!(value.text_member("missing"), None);
    assert!(value.member("use").unwrap().is_null());
    assert!(value.member("missing").is_none());
    assert!(text("x").member("kid").is_none());
    assert!(value.is_object());
    assert!(!text("x").is_object());
}

#[test]
fn the_first_of_two_members_with_one_key_is_found() {
    let value = object(vec![("a", text("first")), ("a", text("second"))]);
    assert_eq!(value.text_member("a"), Some(&"first".to_string()));
}

#[test]
fn a_copy_of_a_tree_is_the_same_tree() {
    let value = object(vec![("a", Json::Array(vec![text("x"), object(vec![("b", Json::Bool(false))])]))]);
    assert_eq!(shown(&value.clone()), shown(&value));
}

#[test]
fn the_envelope_is_the_tag_and_the_payload_text() {
    assert_eq!(
        synthesize_envelope("print", "{\"message\":\"hi\"}"),
        "{ \"task_type\": \"print\", \"payload\": {\"message\":\"hi\"} }"
    );
}

#[test]
fn a_print_row_lifts_to_a_print_payload() {
    let job = row("print", "{\"message\":\"hi\"}").to_job().unwrap();
    assert_eq!(job.id, "11111111-1111-1111-1111-111111111111");
    assert_eq!(job.name, "t1");
    assert_eq!(job.cron, "*/1 * * * * *");
    assert_eq!(job.payload, "");
    assert_eq!(job.last_run, None);
    assert_eq!(job.status, JobStatus::Scheduled);
    assert_eq!(job.message, Some("note".to_string()));
    assert_eq!(job.task_type.task_type_name(), "print");
    assert_eq!(job.task_type.as_print().unwrap().message, "hi");
    assert!(job.task_type.as_adf().is_none());
    assert!(job.task_type.as_shell_command().is_none());
    assert!(job.task_type.as_stepfn().is_none());
}

#[test]
fn a_shell_row_lifts_to_a_shell_payload() {
    let job = row("shell_command", "{\"command\":\"ls -l\"}").to_job().unwrap();
    assert_eq!(job.task_type.task_type_name(), "shell_command");
    assert_eq!(job.task_type.to_string(), "shell_command");
    assert_eq!(job.task_type.as_shell_command().unwrap().command, "ls -l");
}

#[test]
fn a_pipeline_row_lifts_with_and_without_parameters() {
    let body = "{\"subscription_id\":\"s\",\"resource_group\":\"g\",\"factory_name\":\"f\",\"pipeline\":\"p\"}";
    let job = row("adf_pipeline", body).to_job().unwrap();
    let config = job.task_type.as_adf().unwrap();
    assert_eq!(config.subscription_id, "s");
    assert_eq!(config.resource_group, "g");
    assert_eq!(config.factory_name, "f");
    assert_eq!(config.pipeline, "p");
    assert!(config.parameters.is_none());

    let with = "{\"subscription_id\":\"s\",\"resource_group\":\"g\",\"factory_name\":\"f\",\"pipeline\":\"p\",\"parameters\":{\"day\":\"mon\"}}";
    let job = row("adf_pipeline", with).to_job().unwrap();
    let parameters = job.task_type.as_adf().unwrap().parameters.as_ref().unwrap();
    assert_eq!(shown(parameters), shown(&object(vec![("day", text("mon"))])));

    let null = "{\"subscription_id\":\"s\",\"resource_group\":\"g\",\"factory_name\":\"f\",\"pipeline\":\"p\",\"parameters\":null}";
    let job = row("adf_pipeline", null).to_job().unwrap();
    assert!(job.task_type.as_adf().unwrap().parameters.as_ref().unwrap().is_null());
    assert!(job.task_type.body().member("parameters").unwrap().is_null());
}

#[test]
fn a_step_function_row_needs_its_input() {
    let job = row("aws_stepfn", "{\"arn\":\"arn:x\",\"input\":[1,2]}").to_job().unwrap();
    let config = job.task_type.as_stepfn().unwrap();
    assert_eq!(config.arn, "arn:x");
    assert_eq!(
        shown(&config.input),
        shown(&Json::Array(vec![Json::Number("1".to_string()), Json::Number("2".to_string())]))
    );
    let null_input = row("aws_stepfn", "{\"arn\":\"arn:x\",\"input\":null}").to_job().unwrap();
    assert!(null_input.task_type.as_stepfn().unwrap().input.is_null());
    assert!(matches!(
        row("aws_stepfn", "{\"arn\":\"arn:x\"}").to_job(),
        Err(LiftError::MalformedPayload)
    ));
}

#[test]
fn an_unknown_tag_is_a_lift_error_that_names_the_tag() {
    match row("no_such_task", "{\"message\":\"hi\"}").to_job() {
        Err(LiftError::UnknownTaskType(tag)) => assert_eq!(tag, "no_such_task"),
        other => panic!("expected an unknown tag, got {:?}", other),
    }
    match row("", "{}").to_job() {
        Err(LiftError::UnknownTaskType(tag)) => assert_eq!(tag, ""),
        other => panic!("expected an unknown tag, got {:?}", other),
    }
}

#[test]
fn a_payload_that_is_not_json_is_malformed() {
    assert!(matches!(row("print", "").to_job(), Err(LiftError::MalformedPayload)));
    assert!(matches!(row("print", "{\"message\":").to_job(), Err(LiftError::MalformedPayload)));
    assert!(matches!(row("print", "hi").to_job(), Err(LiftError::MalformedPayload)));
}

#[test]
fn a_body_that_does_not_fit_its_tag_is_malformed() {
    assert!(matches!(row("print", "{}").to_job(), Err(LiftError::MalformedPayload)));
    assert!(matches!(row("print", "{\"message\":5}").to_job(), Err(LiftError::MalformedPayload)));
    assert!(matches!(row("print", "[\"hi\"]").to_job(), Err(LiftError::MalformedPayload)));
    assert!(matches!(row("print", "\"hi\"").to_job(), Err(LiftError::MalformedPayload)));
    assert!(matches!(
        row("shell_command", "{\"message\":\"hi\"}").to_job(),
        Err(LiftError::MalformedPayload)
    ));
    assert!(matches!(
        row("adf_pipeline", "{\"subscription_id\":\"s\"}").to_job(),
        Err(LiftError::MalformedPayload)
    ));
}

#[test]
fn members_that_the_tag_does_not_name_are_ignored() {
    let job = row("print", "{\"extra\":1,\"message\":\"hi\"}").to_job().unwrap();
    assert_eq!(job.task_type.as_print().unwrap().message, "hi");
}

#[test]
fn lifting_reads_an_envelope_given_as_a_tree() {
    let envelope = object(vec![
        ("task_type", text("print")),
        ("payload", object(vec![("message", text("hi"))])),
    ]);
    let payload = TaskPayload::from_envelope(&envelope).unwrap();
    assert_eq!(payload.as_print().unwrap().message, "hi");

    let no_payload = object(vec![("task_type", text("print"))]);
    assert!(matches!(TaskPayload::from_envelope(&no_payload), Err(LiftError::MalformedPayload)));
    let no_tag = object(vec![("payload", object(vec![("message", text("hi"))]))]);
    assert!(matches!(TaskPayload::from_envelope(&no_tag), Err(LiftError::MalformedPayload)));
    assert!(matches!(TaskPayload::from_envelope(&Json::Null), Err(LiftError::MalformedPayload)));
    let unknown = object(vec![("task_type", text("nope"))]);
    assert!(matches!(TaskPayload::from_envelope(&unknown), Err(LiftError::UnknownTaskType(_))));
}

#[test]
fn a_row_lifts_from_the_envelope_it_is_given() {
    let envelope = parse_json("{\"task_type\":\"print\",\"payload\":{\"message\":\"yo\"}}");
    let job = row("print", "ignored").lift_with(&envelope).unwrap();
    assert_eq!(job.task_type.as_print().unwrap().message, "yo");
    assert!(matches!(row("print", "{}").lift_with(&None), Err(LiftError::MalformedPayload)));
    assert!(matches!(
        row("shell_command", "ignored").lift_with(&envelope),
        Err(LiftError::MalformedPayload)
    ));
}

#[test]
fn a_payload_text_cannot_smuggle_in_another_tag() {
    let smuggling = row(
        "shell_command",
        "{\"command\":\"ls\"}, \"task_type\": \"print\", \"payload\": {\"message\":\"x\"}",
    );
    assert!(matches!(smuggling.to_job(), Err(LiftError::MalformedPayload)));
    let quoted = row("pri\"nt", "{\"message\":\"hi\"}");
    assert!(matches!(quoted.to_job(), Err(LiftError::MalformedPayload)));
}

#[test]
fn every_kind_of_payload_lifts_back_from_its_own_envelope() {
    let samples: Vec<TaskPayload> = vec![
        TaskPayload::Print(PrintConfig { message: "hi \"there\"".to_string() }),
        TaskPayload::ShellCommand(ShellCommandConfig { command: "echo 1".to_string() }),
        TaskPayload::AdfPipeline(AdfConfig {
            subscription_id: "s".to_string(),
            resource_group: "g".to_string(),
            factory_name: "f".to_string(),
            pipeline: "p".to_string(),
            parameters: None,
        }),
        TaskPayload::AdfPipeline(AdfConfig {
            subscription_id: "s".to_string(),
            resource_group: "g".to_string(),
            factory_name: "f".to_string(),
            pipeline: "p".to_string(),
            parameters: Some(object(vec![("k", Json::Number("7".to_string()))])),
        }),
        TaskPayload::AwsStepFunction(AwsStepFnConfig {
            arn: "arn:aws:states:x".to_string(),
            input: Json::Array(vec![Json::Bool(true), Json::Null]),
        }),
        TaskPayload::AdfPipeline(AdfConfig {
            subscription_id: "s".to_string(),
            resource_group: "g".to_string(),
            factory_name: "f".to_string(),
            pipeline: "p".to_string(),
            parameters: Some(Json::Null),
        }),
    ];
    for payload in samples {
        let envelope = payload.to_envelope();
        assert_eq!(envelope.text_member("task_type").unwrap(), payload.task_type_name());
        let back = TaskPayload::from_envelope(&envelope).unwrap();
        assert_eq!(format!("{:?}", back), format!("{:?}", payload));
        assert_eq!(shown(&back.to_envelope()), shown(&envelope));
        assert_eq!(format!("{:?}", payload.clone()), format!("{:?}", payload));
    }
}

#[test]
fn the_envelope_of_a_print_payload_has_the_wire_shape() {
    let payload = TaskPayload::Print(PrintConfig { message: "hi".to_string() });
    let wire = parse_json("{ \"task_type\": \"print\", \"payload\": {\"message\":\"hi\"} }").unwrap();
    let envelope = payload.to_envelope();
    assert_eq!(
        shown(&envelope),
        shown(&object(vec![
            ("task_type", text("print")),
            ("payload", object(vec![("message", text("hi"))])),
        ]))
    );
    assert_eq!(envelope.text_member("task_type"), wire.text_member("task_type"));
    assert_eq!(shown(envelope.member("payload").unwrap()), shown(wire.member("payload").unwrap()));
    assert_eq!(shown(&payload.body()), shown(&object(vec![("message", text("hi"))])));
}

#[test]
fn an_optional_member_that_is_not_given_is_not_written() {
    let without = TaskPayload::AdfPipeline(AdfConfig {
        subscription_id: "s".to_string(),
        resource_group: "g".to_string(),
        factory_name: "f".to_string(),
        pipeline: "p".to_string(),
        parameters: None,
    });
    assert_eq!(
        shown(&without.body()),
        shown(&object(vec![
            ("subscription_id", text("s")),
            ("resource_group", text("g")),
            ("factory_name", text("f")),
            ("pipeline", text("p")),
        ]))
    );
    assert!(without.body().member("parameters").is_none());
    let with = TaskPayload::AdfPipeline(AdfConfig {
        subscription_id: "s".to_string(),
        resource_group: "g".to_string(),
        factory_name: "f".to_string(),
        pipeline: "p".to_string(),
        parameters: Some(Json::Bool(true)),
    });
    assert_eq!(shown(with.body().member("parameters").unwrap()), shown(&Json::Bool(true)));
}

/// The members of an object, sorted by key.
fn sorted(json: &Json) -> Vec<(String, String)> {
    match json {
        Json::Object(members) => {
            let mut pairs: Vec<(String, String)> =
                members.iter().map(|(k, v)| (k.clone(), shown(v))).collect();
            pairs.sort();
            pairs
        }
        other => panic!("not an object: {:?}", other),
    }
}

#[test]
fn a_lifted_row_is_written_back_as_the_envelope_that_was_read() {
    let rows: Vec<(&str, &str)> = vec![
        ("print", "{ \"message\" : \"hi\" }"),
        ("shell_command", "{\"command\":\"ls -l\"}"),
        ("aws_stepfn", "{\"input\":{\"b\":[1,2],\"a\":null},\"arn\":\"arn:x\"}"),
        (
            "adf_pipeline",
            "{\"pipeline\":\"p\",\"subscription_id\":\"s\",\"resource_group\":\"g\",\"factory_name\":\"f\"}",
        ),
        (
            "adf_pipeline",
            "{\"pipeline\":\"p\",\"subscription_id\":\"s\",\"resource_group\":\"g\",\"factory_name\":\"f\",\"parameters\":{\"day\":\"mon\"}}",
        ),
        (
            "adf_pipeline",
            "{\"subscription_id\":\"s\",\"resource_group\":\"g\",\"factory_name\":\"f\",\"pipeline\":\"p\",\"parameters\":null}",
        ),
    ];
    for (task_type, payload) in rows {
        let raw = row(task_type, payload);
        let read = parse_json(&synthesize_envelope(task_type, payload)).unwrap();
        let written = raw.to_job().unwrap().task_type.to_envelope();
        assert_eq!(written.text_member("task_type"), Some(&task_type.to_string()));
        assert_eq!(written.text_member("task_type"), read.text_member("task_type"));
        assert_eq!(
            sorted(written.member("payload").unwrap()),
            sorted(read.member("payload").unwrap()),
            "{}",
            payload
        );
        assert_eq!(sorted(&written).len(), 2);
        assert_eq!(sorted(&read).len(), 2);
    }
}

#[test]
fn a_tag_and_a_body_lift_without_an_envelope() {
    let body = object(vec![("command", text("ls"))]);
    let payload = TaskPayload::from_tagged("shell_command", &body).unwrap();
    assert_eq!(payload.as_shell_command().unwrap().command, "ls");
    assert!(matches!(TaskPayload::from_tagged("print", &body), Err(LiftError::MalformedPayload)));
    assert!(matches!(
        TaskPayload::from_tagged("Print", &body),
        Err(LiftError::UnknownTaskType(_))
    ));
}
