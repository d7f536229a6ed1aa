//! The typed task payloads and their tagged JSON form.
//!
//! On the wire a payload is an envelope `{ "task_type": <tag>, "payload":
//! <body> }`. Lifting reads an envelope into a `TaskPayload`; an unknown tag
//! or a body that does not fit is an error of that one row, never a crash.

use vstd::prelude::*;
use vstd::string::*;
use crate::json::{Json, JsonValue, lemma_object_view};
use crate::text::str_eq;

verus! {

/// Runs a pipeline of a data factory.
#[derive(Debug)]
pub struct AdfConfig {
    pub subscription_id: String,
    pub resource_group: String,
    pub factory_name: String,
    pub pipeline: String,
    pub parameters: Option<Json>,
}

/// Starts a step function.
#[derive(Debug)]
pub struct AwsStepFnConfig {
    pub arn: String,
    pub input: Json,
}

/// Calls a logic app.
#[derive(Debug, Clone)]
pub struct LogicAppConfig {
    pub endpoint: String,
    pub auth_type: String,
}

/// Runs a shell command.
#[derive(Debug)]
pub struct ShellCommandConfig {
    pub command: String,
}

/// Prints a message.
#[derive(Debug)]
pub struct PrintConfig {
    pub message: String,
}

/// What a job does when it fires.
#[derive(Debug)]
pub enum TaskPayload {
    AdfPipeline(AdfConfig),
    AwsStepFunction(AwsStepFnConfig),
    ShellCommand(ShellCommandConfig),
    Print(PrintConfig),
}

/// The mathematical form of a task payload.
pub enum PayloadView {
    AdfPipeline {
        subscription_id: Seq<char>,
        resource_group: Seq<char>,
        factory_name: Seq<char>,
        pipeline: Seq<char>,
        parameters: Option<JsonValue>,
    },
    AwsStepFunction { arn: Seq<char>, input: JsonValue },
    ShellCommand { command: Seq<char> },
    Print { message: Seq<char> },
}

/// Why a row could not be lifted.
#[derive(Debug)]
pub enum LiftError {
    /// No payload kind has this tag.
    UnknownTaskType(String),
    /// The payload is not JSON, or not the body that its tag calls for.
    MalformedPayload,
}

/// The mathematical form of a lift error.
pub enum LiftErrorView {
    UnknownTaskType(Seq<char>),
    MalformedPayload,
}

impl View for LiftError {
    type V = LiftErrorView;

    open spec fn view(&self) -> LiftErrorView {
        match self {
            LiftError::UnknownTaskType(tag) => LiftErrorView::UnknownTaskType(tag@),
            LiftError::MalformedPayload => LiftErrorView::MalformedPayload,
        }
    }
}

impl View for TaskPayload {
    type V = PayloadView;

    open spec fn view(&self) -> PayloadView {
        match self {
            TaskPayload::AdfPipeline(c) => PayloadView::AdfPipeline {
                subscription_id: c.subscription_id@,
                resource_group: c.resource_group@,
                factory_name: c.factory_name@,
                pipeline: c.pipeline@,
                parameters: match c.parameters {
                    Some(p) => Some(p@),
                    None => None,
                },
            },
            TaskPayload::AwsStepFunction(c) => PayloadView::AwsStepFunction {
                arn: c.arn@,
                input: c.input@,
            },
            TaskPayload::ShellCommand(c) => PayloadView::ShellCommand { command: c.command@ },
            TaskPayload::Print(c) => PayloadView::Print { message: c.message@ },
        }
    }
}

/// The view of the outcome of a lift.
pub open spec fn lift_view(r: Result<TaskPayload, LiftError>) -> Result<PayloadView, LiftErrorView> {
    match r {
        Ok(p) => Ok(p@),
        Err(e) => Err(e@),
    }
}

/// The tag is one of the four payload kinds.
pub open spec fn is_known_tag(tag: Seq<char>) -> bool {
    tag == "adf_pipeline"@ || tag == "aws_stepfn"@ || tag == "shell_command"@ || tag == "print"@
}

/// An optional member: the value that is given, `null` included, or
/// nothing where the member is absent.
pub open spec fn optional_member(body: JsonValue, key: Seq<char>) -> Option<JsonValue> {
    body.member(key)
}

/// Reads the body that goes with a tag.
///
/// - `print`: `{ message: string }`
/// - `shell_command`: `{ command: string }`
/// - `adf_pipeline`: `{ subscription_id, resource_group, factory_name,
///   pipeline: string, parameters?: json }`
/// - `aws_stepfn`: `{ arn: string, input: json }`
///
/// Members that the tag does not name are ignored.
pub open spec fn lift_body(tag: Seq<char>, body: JsonValue) -> Result<PayloadView, LiftErrorView> {
    if tag == "adf_pipeline"@ {
        match (
            body.text_member("subscription_id"@),
            body.text_member("resource_group"@),
            body.text_member("factory_name"@),
            body.text_member("pipeline"@),
        ) {
            (Some(subscription_id), Some(resource_group), Some(factory_name), Some(pipeline)) => Ok(
                PayloadView::AdfPipeline {
                    subscription_id,
                    resource_group,
                    factory_name,
                    pipeline,
                    parameters: optional_member(body, "parameters"@),
                },
            ),
            _ => Err(LiftErrorView::MalformedPayload),
        }
    } else if tag == "aws_stepfn"@ {
        match (body.text_member("arn"@), body.member("input"@)) {
            (Some(arn), Some(input)) => Ok(PayloadView::AwsStepFunction { arn, input }),
            _ => Err(LiftErrorView::MalformedPayload),
        }
    } else if tag == "shell_command"@ {
        match body.text_member("command"@) {
            Some(command) => Ok(PayloadView::ShellCommand { command }),
            None => Err(LiftErrorView::MalformedPayload),
        }
    } else if tag == "print"@ {
        match body.text_member("message"@) {
            Some(message) => Ok(PayloadView::Print { message }),
            None => Err(LiftErrorView::MalformedPayload),
        }
    } else {
        Err(LiftErrorView::UnknownTaskType(tag))
    }
}

/// Reads an envelope `{ "task_type": <tag>, "payload": <body> }`.
pub open spec fn lift_envelope(envelope: JsonValue) -> Result<PayloadView, LiftErrorView> {
    match envelope.text_member("task_type"@) {
        None => Err(LiftErrorView::MalformedPayload),
        Some(tag) => if !is_known_tag(tag) {
            Err(LiftErrorView::UnknownTaskType(tag))
        } else {
            match envelope.member("payload"@) {
                None => Err(LiftErrorView::MalformedPayload),
                Some(body) => lift_body(tag, body),
            }
        },
    }
}

impl PayloadView {
    /// The tag that selects this kind of payload.
    pub open spec fn tag(self) -> Seq<char> {
        match self {
            PayloadView::AdfPipeline { .. } => "adf_pipeline"@,
            PayloadView::AwsStepFunction { .. } => "aws_stepfn"@,
            PayloadView::ShellCommand { .. } => "shell_command"@,
            PayloadView::Print { .. } => "print"@,
        }
    }

    /// The body of the payload as JSON. An optional member is written with
    /// the value it holds, `null` included, and left out where it holds
    /// nothing.
    pub open spec fn body(self) -> JsonValue {
        match self {
            PayloadView::AdfPipeline {
                subscription_id,
                resource_group,
                factory_name,
                pipeline,
                parameters,
            } => match parameters {
                Some(p) => JsonValue::Object(
                    seq![
                        "subscription_id"@,
                        "resource_group"@,
                        "factory_name"@,
                        "pipeline"@,
                        "parameters"@,
                    ],
                    seq![
                        JsonValue::Text(subscription_id),
                        JsonValue::Text(resource_group),
                        JsonValue::Text(factory_name),
                        JsonValue::Text(pipeline),
                        p,
                    ],
                ),
                None => JsonValue::Object(
                    seq!["subscription_id"@, "resource_group"@, "factory_name"@, "pipeline"@],
                    seq![
                        JsonValue::Text(subscription_id),
                        JsonValue::Text(resource_group),
                        JsonValue::Text(factory_name),
                        JsonValue::Text(pipeline),
                    ],
                ),
            },
            PayloadView::AwsStepFunction { arn, input } => JsonValue::Object(
                seq!["arn"@, "input"@],
                seq![JsonValue::Text(arn), input],
            ),
            PayloadView::ShellCommand { command } => JsonValue::Object(
                seq!["command"@],
                seq![JsonValue::Text(command)],
            ),
            PayloadView::Print { message } => JsonValue::Object(
                seq!["message"@],
                seq![JsonValue::Text(message)],
            ),
        }
    }

    /// The envelope of the payload: its tag and its body.
    pub open spec fn envelope(self) -> JsonValue {
        JsonValue::Object(
            seq!["task_type"@, "payload"@],
            seq![JsonValue::Text(self.tag()), self.body()],
        )
    }
}

/// A copy of an optional JSON value.
pub fn clone_optional_json(value: &Option<Json>) -> (copy: Option<Json>)
    ensures
        crate::json::json_view(copy) == crate::json::json_view(*value),
{
    match value {
        Some(j) => Some(j.clone()),
        None => None,
    }
}

impl Clone for AdfConfig {
    fn clone(&self) -> (copy: AdfConfig)
        ensures
            TaskPayload::AdfPipeline(copy)@ == TaskPayload::AdfPipeline(*self)@,
    {
        AdfConfig {
            subscription_id: self.subscription_id.clone(),
            resource_group: self.resource_group.clone(),
            factory_name: self.factory_name.clone(),
            pipeline: self.pipeline.clone(),
            parameters: clone_optional_json(&self.parameters),
        }
    }
}

impl Clone for AwsStepFnConfig {
    fn clone(&self) -> (copy: AwsStepFnConfig)
        ensures
            copy.arn@ == self.arn@,
            copy.input@ == self.input@,
    {
        AwsStepFnConfig { arn: self.arn.clone(), input: self.input.clone() }
    }
}

impl Clone for ShellCommandConfig {
    fn clone(&self) -> (copy: ShellCommandConfig)
        ensures
            copy.command@ == self.command@,
    {
        ShellCommandConfig { command: self.command.clone() }
    }
}

impl Clone for PrintConfig {
    fn clone(&self) -> (copy: PrintConfig)
        ensures
            copy.message@ == self.message@,
    {
        PrintConfig { message: self.message.clone() }
    }
}

impl Clone for TaskPayload {
    fn clone(&self) -> (copy: TaskPayload)
        ensures
            copy@ == self@,
    {
        match self {
            TaskPayload::AdfPipeline(c) => TaskPayload::AdfPipeline(c.clone()),
            TaskPayload::AwsStepFunction(c) => TaskPayload::AwsStepFunction(c.clone()),
            TaskPayload::ShellCommand(c) => TaskPayload::ShellCommand(c.clone()),
            TaskPayload::Print(c) => TaskPayload::Print(c.clone()),
        }
    }
}

impl TaskPayload {
    /// The tag that selects this kind of payload.
    pub fn task_type_name(&self) -> (tag: &'static str)
        ensures
            tag@ == self@.tag(),
    {
        match self {
            TaskPayload::AdfPipeline(_) => "adf_pipeline",
            TaskPayload::AwsStepFunction(_) => "aws_stepfn",
            TaskPayload::ShellCommand(_) => "shell_command",
            TaskPayload::Print(_) => "print",
        }
    }

    /// The tag, owned: the text form of a payload.
    pub fn to_string(&self) -> (tag: String)
        ensures
            tag@ == self@.tag(),
    {
        String::from_str(self.task_type_name())
    }

    /// The print configuration, if this is a print task.
    pub fn as_print(&self) -> (config: Option<&PrintConfig>)
        ensures
            match *self {
                TaskPayload::Print(c) => config == Some(&c),
                _ => config is None,
            },
    {
        match self {
            TaskPayload::Print(config) => Some(config),
            _ => None,
        }
    }

    /// The pipeline configuration, if this is a pipeline task.
    pub fn as_adf(&self) -> (config: Option<&AdfConfig>)
        ensures
            match *self {
                TaskPayload::AdfPipeline(c) => config == Some(&c),
                _ => config is None,
            },
    {
        match self {
            TaskPayload::AdfPipeline(config) => Some(config),
            _ => None,
        }
    }

    /// The shell configuration, if this is a shell task.
    pub fn as_shell_command(&self) -> (config: Option<&ShellCommandConfig>)
        ensures
            match *self {
                TaskPayload::ShellCommand(c) => config == Some(&c),
                _ => config is None,
            },
    {
        match self {
            TaskPayload::ShellCommand(config) => Some(config),
            _ => None,
        }
    }

    /// The step function configuration, if this is a step function task.
    pub fn as_stepfn(&self) -> (config: Option<&AwsStepFnConfig>)
        ensures
            match *self {
                TaskPayload::AwsStepFunction(c) => config == Some(&c),
                _ => config is None,
            },
    {
        match self {
            TaskPayload::AwsStepFunction(config) => Some(config),
            _ => None,
        }
    }

    /// Reads the body that goes with `tag`. An unknown tag is reported as
    /// such; a body that does not fit its tag is malformed.
    pub fn from_tagged(tag: &str, body: &Json) -> (r: Result<TaskPayload, LiftError>)
        ensures
            lift_view(r) == lift_body(tag@, body@),
    {
        if str_eq(tag, "adf_pipeline") {
            let subscription_id = body.text_member("subscription_id");
            let resource_group = body.text_member("resource_group");
            let factory_name = body.text_member("factory_name");
            let pipeline = body.text_member("pipeline");
            match (subscription_id, resource_group, factory_name, pipeline) {
                (Some(s), Some(g), Some(f), Some(p)) => {
                    let parameters = match body.member("parameters") {
                        Some(v) => Some(v.clone()),
                        None => None,
                    };
                    Ok(
                        TaskPayload::AdfPipeline(
                            AdfConfig {
                                subscription_id: s.clone(),
                                resource_group: g.clone(),
                                factory_name: f.clone(),
                                pipeline: p.clone(),
                                parameters,
                            },
                        ),
                    )
                },
                _ => Err(LiftError::MalformedPayload),
            }
        } else if str_eq(tag, "aws_stepfn") {
            match (body.text_member("arn"), body.member("input")) {
                (Some(arn), Some(input)) => Ok(
                    TaskPayload::AwsStepFunction(
                        AwsStepFnConfig { arn: arn.clone(), input: input.clone() },
                    ),
                ),
                _ => Err(LiftError::MalformedPayload),
            }
        } else if str_eq(tag, "shell_command") {
            match body.text_member("command") {
                Some(command) => Ok(
                    TaskPayload::ShellCommand(ShellCommandConfig { command: command.clone() }),
                ),
                None => Err(LiftError::MalformedPayload),
            }
        } else if str_eq(tag, "print") {
            match body.text_member("message") {
                Some(message) => Ok(TaskPayload::Print(PrintConfig { message: message.clone() })),
                None => Err(LiftError::MalformedPayload),
            }
        } else {
            Err(LiftError::UnknownTaskType(String::from_str(tag)))
        }
    }

    /// Reads an envelope `{ "task_type": <tag>, "payload": <body> }`.
    pub fn from_envelope(envelope: &Json) -> (r: Result<TaskPayload, LiftError>)
        ensures
            lift_view(r) == lift_envelope(envelope@),
    {
        proof {
            lemma_name_lengths();
        }
        match envelope.text_member("task_type") {
            None => Err(LiftError::MalformedPayload),
            Some(tag) => {
                let known = str_eq(tag.as_str(), "adf_pipeline") || str_eq(tag.as_str(), "aws_stepfn")
                    || str_eq(tag.as_str(), "shell_command") || str_eq(tag.as_str(), "print");
                if !known {
                    Err(LiftError::UnknownTaskType(tag.clone()))
                } else {
                    match envelope.member("payload") {
                        None => Err(LiftError::MalformedPayload),
                        Some(body) => {
                            proof {
                                lemma_lift_keeps_tag(tag@, body@);
                            }
                            TaskPayload::from_tagged(tag.as_str(), body)
                        },
                    }
                }
            },
        }
    }

    /// The body of the payload as JSON.
    pub fn body(&self) -> (body: Json)
        ensures
            body@ == self@.body(),
    {
        let members: Vec<(String, Json)> = match self {
            TaskPayload::AdfPipeline(c) => {
                let mut members: Vec<(String, Json)> = vec![
                    (String::from_str("subscription_id"), Json::Text(c.subscription_id.clone())),
                    (String::from_str("resource_group"), Json::Text(c.resource_group.clone())),
                    (String::from_str("factory_name"), Json::Text(c.factory_name.clone())),
                    (String::from_str("pipeline"), Json::Text(c.pipeline.clone())),
                ];
                match &c.parameters {
                    Some(p) => {
                        members.push((String::from_str("parameters"), p.clone()));
                    },
                    None => {},
                }
                members
            },
            TaskPayload::AwsStepFunction(c) => vec![
                (String::from_str("arn"), Json::Text(c.arn.clone())),
                (String::from_str("input"), c.input.clone()),
            ],
            TaskPayload::ShellCommand(c) => vec![
                (String::from_str("command"), Json::Text(c.command.clone())),
            ],
            TaskPayload::Print(c) => vec![
                (String::from_str("message"), Json::Text(c.message.clone())),
            ],
        };
        proof {
            lemma_object_view(members);
            let made = Json::Object(members)@;
            let want = self@.body();
            assert(made->Object_0 =~= want->Object_0);
            assert(made->Object_1 =~= want->Object_1);
        }
        Json::Object(members)
    }

    /// The envelope of the payload: its tag and its body.
    pub fn to_envelope(&self) -> (envelope: Json)
        ensures
            envelope@ == self@.envelope(),
    {
        let members: Vec<(String, Json)> = vec![
            (String::from_str("task_type"), Json::Text(String::from_str(self.task_type_name()))),
            (String::from_str("payload"), self.body()),
        ];
        proof {
            lemma_object_view(members);
            let made = Json::Object(members)@;
            let want = self@.envelope();
            assert(made->Object_0 =~= want->Object_0);
            assert(made->Object_1 =~= want->Object_1);
        }
        Json::Object(members)
    }
}

/// The lengths of the tags and member names, by which they are told apart.
proof fn lemma_name_lengths()
    ensures
        "adf_pipeline"@.len() == 12,
        "aws_stepfn"@.len() == 10,
        "shell_command"@.len() == 13,
        "print"@.len() == 5,
        "task_type"@.len() == 9,
        "payload"@.len() == 7,
        "subscription_id"@.len() == 15,
        "resource_group"@.len() == 14,
        "factory_name"@.len() == 12,
        "pipeline"@.len() == 8,
        "parameters"@.len() == 10,
        "arn"@.len() == 3,
        "input"@.len() == 5,
        "command"@.len() == 7,
        "message"@.len() == 7,
{
    reveal_strlit("adf_pipeline");
    reveal_strlit("aws_stepfn");
    reveal_strlit("shell_command");
    reveal_strlit("print");
    reveal_strlit("task_type");
    reveal_strlit("payload");
    reveal_strlit("subscription_id");
    reveal_strlit("resource_group");
    reveal_strlit("factory_name");
    reveal_strlit("pipeline");
    reveal_strlit("parameters");
    reveal_strlit("arn");
    reveal_strlit("input");
    reveal_strlit("command");
    reveal_strlit("message");
}

/// Every payload has one of the four known tags.
pub proof fn lemma_tag_is_known(p: PayloadView)
    ensures
        is_known_tag(p.tag()),
{
}

/// A lifted payload carries the tag it was lifted under.
pub proof fn lemma_lift_keeps_tag(tag: Seq<char>, body: JsonValue)
    ensures
        lift_body(tag, body) is Ok ==> lift_body(tag, body)->Ok_0.tag() == tag,
        lift_body(tag, body) is Ok ==> is_known_tag(tag),
        !is_known_tag(tag) ==> lift_body(tag, body) == Err::<PayloadView, LiftErrorView>(
            LiftErrorView::UnknownTaskType(tag),
        ),
{
    lemma_name_lengths();
}

/// Round trip: the body of a payload lifts back, under the payload's tag,
/// to the payload itself.
pub proof fn lemma_body_round_trip(p: PayloadView)
    ensures
        lift_body(p.tag(), p.body()) == Ok::<PayloadView, LiftErrorView>(p),
{
    lemma_name_lengths();
    reveal_with_fuel(JsonValue::lookup, 6);
    match p {
        PayloadView::AdfPipeline { parameters, .. } => {
            let body = p.body();
            assert(body.text_member("subscription_id"@) == Some(p->subscription_id));
            assert(body.text_member("resource_group"@) == Some(p->resource_group));
            assert(body.text_member("factory_name"@) == Some(p->factory_name));
            assert(body.text_member("pipeline"@) == Some(p->pipeline));
            assert(optional_member(body, "parameters"@) == parameters);
        },
        PayloadView::AwsStepFunction { arn, input } => {
            let body = p.body();
            assert(body.text_member("arn"@) == Some(arn));
            assert(body.member("input"@) == Some(input));
        },
        PayloadView::ShellCommand { command } => {
            assert(p.body().text_member("command"@) == Some(command));
        },
        PayloadView::Print { message } => {
            assert(p.body().text_member("message"@) == Some(message));
        },
    }
}

/// Round trip: the envelope of a payload lifts back to the payload itself.
pub proof fn lemma_envelope_round_trip(p: PayloadView)
    ensures
        lift_envelope(p.envelope()) == Ok::<PayloadView, LiftErrorView>(p),
{
    lemma_name_lengths();
    lemma_body_round_trip(p);
    reveal_with_fuel(JsonValue::lookup, 3);
    let e = p.envelope();
    assert(e.text_member("task_type"@) == Some(p.tag()));
    assert(e.member("payload"@) == Some(p.body()));
}

/// Two objects hold the same values under the same keys, whatever the order
/// of their members.
pub open spec fn same_members(a: JsonValue, b: JsonValue) -> bool {
    &&& a is Object
    &&& b is Object
    &&& forall|key: Seq<char>| #[trigger] a.member(key) == b.member(key)
}

/// Two envelopes hold the same tag and bodies with the same members,
/// whatever the order of their members.
pub open spec fn same_envelope(a: JsonValue, b: JsonValue) -> bool {
    &&& a is Object
    &&& b is Object
    &&& forall|key: Seq<char>| key != "payload"@ ==> #[trigger] a.member(key) == b.member(key)
    &&& a.member("payload"@) is Some
    &&& b.member("payload"@) is Some
    &&& same_members(a.member("payload"@).unwrap(), b.member("payload"@).unwrap())
}

/// The members that the body of a tag has.
pub open spec fn is_member_of(tag: Seq<char>, key: Seq<char>) -> bool {
    if tag == "adf_pipeline"@ {
        key == "subscription_id"@ || key == "resource_group"@ || key == "factory_name"@ || key
            == "pipeline"@ || key == "parameters"@
    } else if tag == "aws_stepfn"@ {
        key == "arn"@ || key == "input"@
    } else if tag == "shell_command"@ {
        key == "command"@
    } else if tag == "print"@ {
        key == "message"@
    } else {
        false
    }
}

/// The envelope holds a tag and a body with that tag's members and nothing
/// besides.
pub open spec fn is_plain_envelope(envelope: JsonValue) -> bool {
    &&& envelope is Object
    &&& envelope.text_member("task_type"@) is Some
    &&& envelope.member("payload"@) is Some
    &&& envelope.member("payload"@).unwrap() is Object
    &&& forall|key: Seq<char>|
        key != "task_type"@ && key != "payload"@ ==> (#[trigger] envelope.member(key)) is None
    &&& forall|key: Seq<char>|
        !is_member_of(envelope.text_member("task_type"@).unwrap(), key) ==> (
        #[trigger] envelope.member("payload"@).unwrap().member(key)) is None
}

/// What a payload's envelope holds under each key.
proof fn lemma_envelope_members(p: PayloadView, key: Seq<char>)
    ensures
        p.envelope().member(key) == if key == "task_type"@ {
            Some(JsonValue::Text(p.tag()))
        } else if key == "payload"@ {
            Some(p.body())
        } else {
            None
        },
{
    lemma_name_lengths();
    reveal_with_fuel(JsonValue::lookup, 3);
}

/// What a payload's body holds under each key.
proof fn lemma_body_members(p: PayloadView, key: Seq<char>)
    ensures
        p.body() is Object,
        !is_member_of(p.tag(), key) ==> p.body().member(key) is None,
        match p {
            PayloadView::AdfPipeline {
                subscription_id,
                resource_group,
                factory_name,
                pipeline,
                parameters,
            } => {
                &&& p.body().member("subscription_id"@) == Some(JsonValue::Text(subscription_id))
                &&& p.body().member("resource_group"@) == Some(JsonValue::Text(resource_group))
                &&& p.body().member("factory_name"@) == Some(JsonValue::Text(factory_name))
                &&& p.body().member("pipeline"@) == Some(JsonValue::Text(pipeline))
                &&& p.body().member("parameters"@) == parameters
            },
            PayloadView::AwsStepFunction { arn, input } => {
                &&& p.body().member("arn"@) == Some(JsonValue::Text(arn))
                &&& p.body().member("input"@) == Some(input)
            },
            PayloadView::ShellCommand { command } => p.body().member("command"@) == Some(
                JsonValue::Text(command),
            ),
            PayloadView::Print { message } => p.body().member("message"@) == Some(
                JsonValue::Text(message),
            ),
        },
{
    lemma_name_lengths();
    reveal_with_fuel(JsonValue::lookup, 7);
}

/// Round-trip lift: an envelope that holds a tag and a body with that tag's
/// members, and nothing besides, is written back as it was read. The
/// envelope of the lifted payload holds the same tag and the same members,
/// whatever order and white space the text had.
pub proof fn lemma_envelope_is_written_back(envelope: JsonValue)
    requires
        lift_envelope(envelope) is Ok,
        is_plain_envelope(envelope),
    ensures
        same_envelope(lift_envelope(envelope)->Ok_0.envelope(), envelope),
{
    lemma_name_lengths();
    let p = lift_envelope(envelope)->Ok_0;
    let tag = envelope.text_member("task_type"@).unwrap();
    let body = envelope.member("payload"@).unwrap();
    let written = p.envelope();
    lemma_lift_keeps_tag(tag, body);
    assert(p.tag() == tag);
    assert(envelope.member("task_type"@) == Some(JsonValue::Text(tag)));
    assert forall|key: Seq<char>| key != "payload"@ implies #[trigger] written.member(key)
        == envelope.member(key) by {
        lemma_envelope_members(p, key);
    }
    lemma_envelope_members(p, "payload"@);
    assert(written.member("payload"@) == Some(p.body()));
    assert forall|key: Seq<char>| #[trigger] p.body().member(key) == body.member(key) by {
        lemma_body_members(p, key);
        if is_member_of(tag, key) {
            match p {
                PayloadView::AdfPipeline { parameters, .. } => {
                    if key == "parameters"@ {
                        assert(optional_member(body, "parameters"@) == parameters);
                    } else {
                        assert(body.text_member(key) is Some);
                    }
                },
                PayloadView::AwsStepFunction { .. } => {
                    if key == "arn"@ {
                        assert(body.text_member(key) is Some);
                    }
                },
                PayloadView::ShellCommand { .. } => {
                    assert(body.text_member(key) is Some);
                },
                PayloadView::Print { .. } => {
                    assert(body.text_member(key) is Some);
                },
            }
        }
    }
    lemma_body_members(p, "message"@);
}

/// The envelope that is written for a payload is plain: it holds the tag,
/// a body with that tag's members, and nothing besides.
pub proof fn lemma_written_envelope_is_plain(p: PayloadView)
    ensures
        is_plain_envelope(p.envelope()),
{
    lemma_name_lengths();
    let written = p.envelope();
    lemma_envelope_members(p, "task_type"@);
    lemma_envelope_members(p, "payload"@);
    lemma_body_members(p, "parameters"@);
    assert forall|key: Seq<char>| key != "task_type"@ && key != "payload"@ implies (
    #[trigger] written.member(key)) is None by {
        lemma_envelope_members(p, key);
    }
    assert forall|key: Seq<char>|
        !is_member_of(written.text_member("task_type"@).unwrap(), key) implies (
    #[trigger] written.member("payload"@).unwrap().member(key)) is None by {
        lemma_body_members(p, key);
    }
}

/// Writing a lifted payload out and lifting it again changes nothing: what
/// was read from an envelope is what its own envelope holds.
pub proof fn lemma_lift_is_stable(envelope: JsonValue)
    requires
        lift_envelope(envelope) is Ok,
    ensures
        lift_envelope(lift_envelope(envelope)->Ok_0.envelope()) == lift_envelope(envelope),
{
    let tag = envelope.text_member("task_type"@)->Some_0;
    let body = envelope.member("payload"@)->Some_0;
    lemma_lift_keeps_tag(tag, body);
    lemma_envelope_round_trip(lift_envelope(envelope)->Ok_0);
}

} // verus!
