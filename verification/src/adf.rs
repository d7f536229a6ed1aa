//! Running a data factory pipeline to its end: the status of a run, what to
//! do after each poll, and the addresses to call.
//!
//! The handler triggers a run and then polls its status every few seconds
//! until the run has reached a terminal state. Calling the service is the
//! caller's part; what each answer means, and what comes next, is decided
//! here, by `AdfRun`. The caller performs the action it is handed and
//! reports back with the matching event:
//!
//! | action     | event       |
//! |------------|-------------|
//! | `Connect`  | `Connected` |
//! | `Trigger`  | `Triggered` |
//! | `Poll`     | `Reported`  |
//! | `Sleep`    | `Woke`      |
//!
//! `Return` ends the handler with the result it carries.

use vstd::prelude::*;
use vstd::string::*;
use crate::json::{Json, JsonValue, json_view};
use crate::payload::{AdfConfig, PayloadView, TaskPayload, clone_optional_json};
use crate::text::{str_eq, text_view};

verus! {

/// Seconds between two polls of a run.
pub const POLL_INTERVAL_SECS: u64 = 5;

/// The status of a pipeline run as the service names it.
#[derive(Debug)]
pub enum AdfPipelineStatus {
    Queued,
    InProgress,
    Succeeded,
    Failed,
    Cancelled,
    Canceling,
    TimedOut,
    Skipped,
    WaitingOnDependency,
    Unknown(String),
}

/// The mathematical form of a run status.
pub enum AdfStatusView {
    Queued,
    InProgress,
    Succeeded,
    Failed,
    Cancelled,
    Canceling,
    TimedOut,
    Skipped,
    WaitingOnDependency,
    Unknown(Seq<char>),
}

impl View for AdfPipelineStatus {
    type V = AdfStatusView;

    open spec fn view(&self) -> AdfStatusView {
        match self {
            AdfPipelineStatus::Queued => AdfStatusView::Queued,
            AdfPipelineStatus::InProgress => AdfStatusView::InProgress,
            AdfPipelineStatus::Succeeded => AdfStatusView::Succeeded,
            AdfPipelineStatus::Failed => AdfStatusView::Failed,
            AdfPipelineStatus::Cancelled => AdfStatusView::Cancelled,
            AdfPipelineStatus::Canceling => AdfStatusView::Canceling,
            AdfPipelineStatus::TimedOut => AdfStatusView::TimedOut,
            AdfPipelineStatus::Skipped => AdfStatusView::Skipped,
            AdfPipelineStatus::WaitingOnDependency => AdfStatusView::WaitingOnDependency,
            AdfPipelineStatus::Unknown(s) => AdfStatusView::Unknown(s@),
        }
    }
}

impl AdfStatusView {
    /// The status that a name of the service stands for; a name that is not
    /// known is kept as it is.
    pub open spec fn named(name: Seq<char>) -> AdfStatusView {
        if name == "Queued"@ {
            AdfStatusView::Queued
        } else if name == "InProgress"@ {
            AdfStatusView::InProgress
        } else if name == "Succeeded"@ {
            AdfStatusView::Succeeded
        } else if name == "Failed"@ {
            AdfStatusView::Failed
        } else if name == "Cancelled"@ {
            AdfStatusView::Cancelled
        } else if name == "Canceling"@ {
            AdfStatusView::Canceling
        } else if name == "TimedOut"@ {
            AdfStatusView::TimedOut
        } else if name == "Skipped"@ {
            AdfStatusView::Skipped
        } else if name == "WaitingOnDependency"@ {
            AdfStatusView::WaitingOnDependency
        } else {
            AdfStatusView::Unknown(name)
        }
    }

    /// The name of the status.
    pub open spec fn name(self) -> Seq<char> {
        match self {
            AdfStatusView::Queued => "Queued"@,
            AdfStatusView::InProgress => "InProgress"@,
            AdfStatusView::Succeeded => "Succeeded"@,
            AdfStatusView::Failed => "Failed"@,
            AdfStatusView::Cancelled => "Cancelled"@,
            AdfStatusView::Canceling => "Canceling"@,
            AdfStatusView::TimedOut => "TimedOut"@,
            AdfStatusView::Skipped => "Skipped"@,
            AdfStatusView::WaitingOnDependency => "WaitingOnDependency"@,
            AdfStatusView::Unknown(s) => s,
        }
    }

    /// The run has ended: it succeeded, failed, was cancelled or timed out.
    pub open spec fn is_terminal(self) -> bool {
        self is Succeeded || self is Failed || self is Cancelled || self is TimedOut
    }

    /// What is reported of a run that ended without success, where the
    /// service gave no message.
    pub open spec fn default_message(self) -> Seq<char> {
        match self {
            AdfStatusView::Cancelled => "Pipeline run cancelled"@,
            AdfStatusView::TimedOut => "Pipeline run timed out"@,
            _ => "Pipeline run failed"@,
        }
    }
}

impl AdfPipelineStatus {
    /// The status that a name of the service stands for.
    pub fn from(name: &str) -> (status: AdfPipelineStatus)
        ensures
            status@ == AdfStatusView::named(name@),
    {
        if str_eq(name, "Queued") {
            AdfPipelineStatus::Queued
        } else if str_eq(name, "InProgress") {
            AdfPipelineStatus::InProgress
        } else if str_eq(name, "Succeeded") {
            AdfPipelineStatus::Succeeded
        } else if str_eq(name, "Failed") {
            AdfPipelineStatus::Failed
        } else if str_eq(name, "Cancelled") {
            AdfPipelineStatus::Cancelled
        } else if str_eq(name, "Canceling") {
            AdfPipelineStatus::Canceling
        } else if str_eq(name, "TimedOut") {
            AdfPipelineStatus::TimedOut
        } else if str_eq(name, "Skipped") {
            AdfPipelineStatus::Skipped
        } else if str_eq(name, "WaitingOnDependency") {
            AdfPipelineStatus::WaitingOnDependency
        } else {
            AdfPipelineStatus::Unknown(String::from_str(name))
        }
    }

    /// The name of the status.
    pub fn to_string(&self) -> (name: String)
        ensures
            name@ == self@.name(),
    {
        match self {
            AdfPipelineStatus::Queued => String::from_str("Queued"),
            AdfPipelineStatus::InProgress => String::from_str("InProgress"),
            AdfPipelineStatus::Succeeded => String::from_str("Succeeded"),
            AdfPipelineStatus::Failed => String::from_str("Failed"),
            AdfPipelineStatus::Cancelled => String::from_str("Cancelled"),
            AdfPipelineStatus::Canceling => String::from_str("Canceling"),
            AdfPipelineStatus::TimedOut => String::from_str("TimedOut"),
            AdfPipelineStatus::Skipped => String::from_str("Skipped"),
            AdfPipelineStatus::WaitingOnDependency => String::from_str("WaitingOnDependency"),
            AdfPipelineStatus::Unknown(s) => s.clone(),
        }
    }

    /// Whether the run has ended.
    pub fn is_terminal(&self) -> (ended: bool)
        ensures
            ended == self@.is_terminal(),
    {
        match self {
            AdfPipelineStatus::Succeeded => true,
            AdfPipelineStatus::Failed => true,
            AdfPipelineStatus::Cancelled => true,
            AdfPipelineStatus::TimedOut => true,
            _ => false,
        }
    }
}

/// Who started a run.
#[derive(Debug)]
pub struct InvokedBy {
    pub id: Option<String>,
    pub name: Option<String>,
    pub invoked_by_type: Option<String>,
}

/// What the service reports of a run.
#[derive(Debug)]
pub struct AdfPipelineRunStatus {
    pub run_id: String,
    pub run_group_id: Option<String>,
    pub pipeline_name: String,
    pub parameters: Option<Vec<(String, String)>>,
    pub invoked_by: Option<InvokedBy>,
    pub run_start: Option<String>,
    pub run_end: Option<String>,
    pub duration_in_ms: Option<u64>,
    pub status: AdfPipelineStatus,
    pub message: Option<String>,
    pub last_updated: Option<String>,
    pub annotations: Option<Vec<String>>,
    pub run_dimensions: Option<Vec<(String, String)>>,
    pub is_latest: Option<bool>,
    pub tier: Option<String>,
    pub tags: Option<Vec<(String, String)>>,
}

/// What the handler does after a poll.
#[derive(Debug)]
pub enum PollStep {
    /// The run goes on: wait and poll again.
    Wait,
    /// The run succeeded: the handler returns well.
    Succeeded,
    /// The run ended without success: the handler fails with this message.
    Failed(String),
}

/// The mathematical form of a poll step.
pub enum PollStepView {
    Wait,
    Succeeded,
    Failed(Seq<char>),
}

impl View for PollStep {
    type V = PollStepView;

    open spec fn view(&self) -> PollStepView {
        match self {
            PollStep::Wait => PollStepView::Wait,
            PollStep::Succeeded => PollStepView::Succeeded,
            PollStep::Failed(m) => PollStepView::Failed(m@),
        }
    }
}

/// What follows from one report of a run: success ends the handler well; a
/// run that failed, was cancelled or timed out ends it with the service's
/// message, or a default one; any other status means waiting.
pub open spec fn poll_step(status: AdfStatusView, message: Option<Seq<char>>) -> PollStepView {
    if status is Succeeded {
        PollStepView::Succeeded
    } else if status.is_terminal() {
        PollStepView::Failed(
            match message {
                Some(m) => m,
                None => status.default_message(),
            },
        )
    } else {
        PollStepView::Wait
    }
}

impl AdfPipelineRunStatus {
    /// What the handler does after this report.
    pub fn next_step(&self) -> (step: PollStep)
        ensures
            step@ == poll_step(self.status@, text_view(self.message)),
    {
        match &self.status {
            AdfPipelineStatus::Succeeded => PollStep::Succeeded,
            AdfPipelineStatus::Failed => PollStep::Failed(
                match &self.message {
                    Some(m) => m.clone(),
                    None => String::from_str("Pipeline run failed"),
                },
            ),
            AdfPipelineStatus::Cancelled => PollStep::Failed(
                match &self.message {
                    Some(m) => m.clone(),
                    None => String::from_str("Pipeline run cancelled"),
                },
            ),
            AdfPipelineStatus::TimedOut => PollStep::Failed(
                match &self.message {
                    Some(m) => m.clone(),
                    None => String::from_str("Pipeline run timed out"),
                },
            ),
            _ => PollStep::Wait,
        }
    }
}

/// The configuration that the pipeline handler runs on: that of a pipeline
/// payload. Any other payload is refused.
pub fn pipeline_config(payload: &TaskPayload) -> (r: Result<&AdfConfig, String>)
    ensures
        match *payload {
            TaskPayload::AdfPipeline(c) => r == Ok::<&AdfConfig, String>(&c),
            _ => r is Err && r->Err_0@ == "Invalid payload for ADF task"@,
        },
{
    match payload.as_adf() {
        Some(config) => Ok(config),
        None => Err(String::from_str("Invalid payload for ADF task")),
    }
}

/// What the pipeline handler is waiting for.
#[derive(Debug, Clone, Copy, PartialEq, Eq, Structural)]
pub enum AdfPhase {
    /// Not started.
    Idle,
    /// The client of the service is being set up.
    Connecting,
    /// The run is being triggered.
    Triggering,
    /// A report on the run is being fetched.
    Polling,
    /// Waiting before the next poll.
    Waiting,
    /// The handler has returned.
    Done,
}

/// What the caller reports to the pipeline handler.
#[derive(Debug)]
pub enum AdfEvent {
    /// The client is set up, or could not be.
    Connected(Result<(), String>),
    /// The run was triggered and has this id, or could not be.
    Triggered(Result<String, String>),
    /// The service reported on the run, or could not be asked.
    Reported(Result<AdfPipelineRunStatus, String>),
    /// The wait is over.
    Woke,
}

/// What the caller is to do next for the pipeline handler.
#[derive(Debug)]
pub enum AdfAction {
    /// Set up the client of the service for this factory.
    Connect { subscription_id: String, resource_group: String, factory_name: String },
    /// Trigger one run of this pipeline with these parameters.
    Trigger { pipeline: String, parameters: Option<Json> },
    /// Fetch the report on the run with this id.
    Poll(String),
    /// Wait this many seconds.
    Sleep(u64),
    /// Return from the handler with this result.
    Return(Result<(), String>),
}

/// The mathematical form of an event.
pub enum AdfEventView {
    Connected(Result<(), Seq<char>>),
    Triggered(Result<Seq<char>, Seq<char>>),
    Reported(Result<(AdfStatusView, Option<Seq<char>>), Seq<char>>),
    Woke,
}

/// The mathematical form of an action.
pub enum AdfActionView {
    Connect { subscription_id: Seq<char>, resource_group: Seq<char>, factory_name: Seq<char> },
    Trigger { pipeline: Seq<char>, parameters: Option<JsonValue> },
    Poll(Seq<char>),
    Sleep(u64),
    Return(Result<(), Seq<char>>),
}

impl View for AdfEvent {
    type V = AdfEventView;

    open spec fn view(&self) -> AdfEventView {
        match self {
            AdfEvent::Connected(Ok(_)) => AdfEventView::Connected(Ok(())),
            AdfEvent::Connected(Err(e)) => AdfEventView::Connected(Err(e@)),
            AdfEvent::Triggered(Ok(id)) => AdfEventView::Triggered(Ok(id@)),
            AdfEvent::Triggered(Err(e)) => AdfEventView::Triggered(Err(e@)),
            AdfEvent::Reported(Ok(report)) => AdfEventView::Reported(
                Ok((report.status@, text_view(report.message))),
            ),
            AdfEvent::Reported(Err(e)) => AdfEventView::Reported(Err(e@)),
            AdfEvent::Woke => AdfEventView::Woke,
        }
    }
}

impl View for AdfAction {
    type V = AdfActionView;

    open spec fn view(&self) -> AdfActionView {
        match self {
            AdfAction::Connect { subscription_id, resource_group, factory_name } => {
                AdfActionView::Connect {
                    subscription_id: subscription_id@,
                    resource_group: resource_group@,
                    factory_name: factory_name@,
                }
            },
            AdfAction::Trigger { pipeline, parameters } => AdfActionView::Trigger {
                pipeline: pipeline@,
                parameters: json_view(*parameters),
            },
            AdfAction::Poll(id) => AdfActionView::Poll(id@),
            AdfAction::Sleep(secs) => AdfActionView::Sleep(*secs),
            AdfAction::Return(Ok(_)) => AdfActionView::Return(Ok(())),
            AdfAction::Return(Err(e)) => AdfActionView::Return(Err(e@)),
        }
    }
}

/// One call of the pipeline handler.
#[derive(Debug)]
pub struct AdfRun {
    phase: AdfPhase,
    pipeline: String,
    parameters: Option<Json>,
    run_id: String,
}

/// The mathematical form of a call of the pipeline handler.
pub struct AdfRunView {
    /// What the handler is waiting for.
    pub phase: AdfPhase,
    /// The pipeline to run, once the handler has started.
    pub pipeline: Seq<char>,
    /// The parameters of the run, once the handler has started.
    pub parameters: Option<JsonValue>,
    /// The id of the run, once it has been triggered.
    pub run_id: Seq<char>,
}

impl View for AdfRun {
    type V = AdfRunView;

    closed spec fn view(&self) -> AdfRunView {
        AdfRunView {
            phase: self.phase,
            pipeline: self.pipeline@,
            parameters: json_view(self.parameters),
            run_id: self.run_id@,
        }
    }
}

impl AdfRunView {
    /// The state and the action with which the handler returns.
    pub open spec fn finish(self, result: Result<(), Seq<char>>) -> (AdfRunView, AdfActionView) {
        (AdfRunView { phase: AdfPhase::Done, ..self }, AdfActionView::Return(result))
    }

    /// The first step: a pipeline payload sets the client up for its
    /// factory, and its pipeline and parameters are kept for the trigger;
    /// any other payload is refused.
    pub open spec fn start(self, payload: PayloadView) -> (AdfRunView, AdfActionView) {
        if self.phase != AdfPhase::Idle {
            self.finish(Err("Pipeline handler out of step"@))
        } else {
            match payload {
                PayloadView::AdfPipeline {
                    subscription_id,
                    resource_group,
                    factory_name,
                    pipeline,
                    parameters,
                } => (
                    AdfRunView { phase: AdfPhase::Connecting, pipeline, parameters, ..self },
                    AdfActionView::Connect { subscription_id, resource_group, factory_name },
                ),
                _ => self.finish(Err("Invalid payload for ADF task"@)),
            }
        }
    }

    /// One step of the handler: the run is triggered once, then polled
    /// until it has ended, with a wait after each poll that finds it going
    /// on. Any failure of the service ends the handler with its message.
    pub open spec fn step(self, event: AdfEventView) -> (AdfRunView, AdfActionView) {
        match (self.phase, event) {
            (AdfPhase::Connecting, AdfEventView::Connected(Ok(_))) => (
                AdfRunView { phase: AdfPhase::Triggering, ..self },
                AdfActionView::Trigger { pipeline: self.pipeline, parameters: self.parameters },
            ),
            (AdfPhase::Connecting, AdfEventView::Connected(Err(e))) => self.finish(Err(e)),
            (AdfPhase::Triggering, AdfEventView::Triggered(Ok(id))) => (
                AdfRunView { phase: AdfPhase::Polling, run_id: id, ..self },
                AdfActionView::Poll(id),
            ),
            (AdfPhase::Triggering, AdfEventView::Triggered(Err(e))) => self.finish(Err(e)),
            (AdfPhase::Polling, AdfEventView::Reported(Ok((status, message)))) => match poll_step(
                status,
                message,
            ) {
                PollStepView::Succeeded => self.finish(Ok(())),
                PollStepView::Failed(why) => self.finish(Err(why)),
                PollStepView::Wait => (
                    AdfRunView { phase: AdfPhase::Waiting, ..self },
                    AdfActionView::Sleep(POLL_INTERVAL_SECS),
                ),
            },
            (AdfPhase::Polling, AdfEventView::Reported(Err(e))) => self.finish(Err(e)),
            (AdfPhase::Waiting, AdfEventView::Woke) => (
                AdfRunView { phase: AdfPhase::Polling, ..self },
                AdfActionView::Poll(self.run_id),
            ),
            _ => self.finish(Err("Pipeline handler out of step"@)),
        }
    }
}

impl AdfRun {
    /// A call of the handler, not yet started.
    pub fn new() -> (run: AdfRun)
        ensures
            run@ == (AdfRunView {
                phase: AdfPhase::Idle,
                pipeline: Seq::empty(),
                parameters: None,
                run_id: Seq::empty(),
            }),
    {
        AdfRun {
            phase: AdfPhase::Idle,
            pipeline: String::new(),
            parameters: None,
            run_id: String::new(),
        }
    }

    /// What the handler is waiting for.
    pub fn phase(&self) -> (phase: AdfPhase)
        ensures
            phase == self@.phase,
    {
        self.phase
    }

    /// Whether the handler has returned.
    pub fn is_done(&self) -> (done: bool)
        ensures
            done == (self@.phase == AdfPhase::Done),
    {
        self.phase == AdfPhase::Done
    }

    fn finish(&mut self, result: Result<(), String>) -> (action: AdfAction)
        ensures
            (final(self)@, action@) == old(self)@.finish(
                match result {
                    Ok(_) => Ok(()),
                    Err(e) => Err(e@),
                },
            ),
    {
        self.phase = AdfPhase::Done;
        AdfAction::Return(result)
    }

    fn out_of_step(&mut self) -> (action: AdfAction)
        ensures
            (final(self)@, action@) == old(self)@.finish(Err("Pipeline handler out of step"@)),
    {
        self.finish(Err(String::from_str("Pipeline handler out of step")))
    }

    /// Starts the handler on a payload.
    pub fn start(&mut self, payload: &TaskPayload) -> (action: AdfAction)
        ensures
            (final(self)@, action@) == old(self)@.start(payload@),
    {
        if self.phase != AdfPhase::Idle {
            return self.out_of_step();
        }
        match payload {
            TaskPayload::AdfPipeline(config) => {
                self.pipeline = config.pipeline.clone();
                self.parameters = clone_optional_json(&config.parameters);
                self.phase = AdfPhase::Connecting;
                AdfAction::Connect {
                    subscription_id: config.subscription_id.clone(),
                    resource_group: config.resource_group.clone(),
                    factory_name: config.factory_name.clone(),
                }
            },
            _ => self.finish(Err(String::from_str("Invalid payload for ADF task"))),
        }
    }

    /// Takes the event that answers the last action and hands out the next
    /// action.
    pub fn step(&mut self, event: AdfEvent) -> (action: AdfAction)
        ensures
            (final(self)@, action@) == old(self)@.step(event@),
    {
        match (self.phase, event) {
            (AdfPhase::Connecting, AdfEvent::Connected(Ok(_))) => {
                self.phase = AdfPhase::Triggering;
                AdfAction::Trigger {
                    pipeline: self.pipeline.clone(),
                    parameters: clone_optional_json(&self.parameters),
                }
            },
            (AdfPhase::Connecting, AdfEvent::Connected(Err(e))) => self.finish(Err(e)),
            (AdfPhase::Triggering, AdfEvent::Triggered(Ok(id))) => {
                let poll = AdfAction::Poll(id.clone());
                self.run_id = id;
                self.phase = AdfPhase::Polling;
                poll
            },
            (AdfPhase::Triggering, AdfEvent::Triggered(Err(e))) => self.finish(Err(e)),
            (AdfPhase::Polling, AdfEvent::Reported(Ok(report))) => match report.next_step() {
                PollStep::Succeeded => self.finish(Ok(())),
                PollStep::Failed(why) => self.finish(Err(why)),
                PollStep::Wait => {
                    self.phase = AdfPhase::Waiting;
                    AdfAction::Sleep(POLL_INTERVAL_SECS)
                },
            },
            (AdfPhase::Polling, AdfEvent::Reported(Err(e))) => self.finish(Err(e)),
            (AdfPhase::Waiting, AdfEvent::Woke) => {
                self.phase = AdfPhase::Polling;
                AdfAction::Poll(self.run_id.clone())
            },
            _ => self.out_of_step(),
        }
    }
}

/// The run is triggered for the payload: started on a pipeline payload, the
/// handler sets the client up for the payload's factory and then triggers
/// the payload's pipeline with the payload's parameters.
pub proof fn lemma_trigger_is_for_the_payload(idle: AdfRunView, payload: PayloadView)
    requires
        idle.phase == AdfPhase::Idle,
        payload is AdfPipeline,
    ensures
        ({
            let (connecting, first) = idle.start(payload);
            let (triggering, second) = connecting.step(AdfEventView::Connected(Ok(())));
            &&& first == (AdfActionView::Connect {
                subscription_id: payload->subscription_id,
                resource_group: payload->resource_group,
                factory_name: payload->factory_name,
            })
            &&& second == (AdfActionView::Trigger {
                pipeline: payload->pipeline,
                parameters: payload->parameters,
            })
            &&& triggering.phase == AdfPhase::Triggering
            &&& forall|id: Seq<char>|
                (#[trigger] triggering.step(AdfEventView::Triggered(Ok(id)))).1
                    == AdfActionView::Poll(id)
        }),
{
}

/// A run is triggered at most once: only the step that follows the set-up
/// of the client hands out `Trigger`, and no step leads back there.
pub proof fn lemma_triggered_once(state: AdfRunView, event: AdfEventView)
    ensures
        state.step(event).1 is Trigger ==> state.phase == AdfPhase::Connecting,
        state.step(event).0.phase != AdfPhase::Connecting,
        state.step(event).0.phase != AdfPhase::Idle,
        state.phase == AdfPhase::Done ==> state.step(event).0.phase == AdfPhase::Done
            && state.step(event).1 is Return,
{
}

/// Polling goes on exactly as long as the run does: a report ends the
/// handler well where the run succeeded, ends it with an error where the run
/// ended otherwise, and leads to a wait of five seconds and another poll of
/// the same run where the run goes on.
pub proof fn lemma_poll_until_terminal(
    polling: AdfRunView,
    status: AdfStatusView,
    message: Option<Seq<char>>,
)
    requires
        polling.phase == AdfPhase::Polling,
    ensures
        ({
            let (next, action) = polling.step(AdfEventView::Reported(Ok((status, message))));
            if status is Succeeded {
                action == AdfActionView::Return(Ok(()))
            } else if status.is_terminal() {
                action == AdfActionView::Return(
                    Err(
                        match message {
                            Some(m) => m,
                            None => status.default_message(),
                        },
                    ),
                )
            } else {
                &&& action == AdfActionView::Sleep(5)
                &&& next.step(AdfEventView::Woke).1 == AdfActionView::Poll(polling.run_id)
                &&& next.step(AdfEventView::Woke).0 == polling
            }
        }),
{
}

/// The state of a polling handler after a run of reports, each followed by
/// the end of the wait it leads to.
pub open spec fn after_reports(
    polling: AdfRunView,
    reports: Seq<(AdfStatusView, Option<Seq<char>>)>,
) -> AdfRunView
    decreases reports.len(),
{
    if reports.len() == 0 {
        polling
    } else {
        after_reports(polling, reports.drop_last()).step(
            AdfEventView::Reported(Ok(reports.last())),
        ).0.step(AdfEventView::Woke).0
    }
}

/// However often the run is found going on, the handler comes back to
/// polling the same run: after `k` such reports it has waited `k` times and
/// asks for report `k + 1` of the run it triggered.
pub proof fn lemma_polls_the_same_run(
    polling: AdfRunView,
    reports: Seq<(AdfStatusView, Option<Seq<char>>)>,
)
    requires
        polling.phase == AdfPhase::Polling,
        forall|i: int| 0 <= i < reports.len() ==> !(#[trigger] reports[i]).0.is_terminal(),
    ensures
        after_reports(polling, reports) == polling,
    decreases reports.len(),
{
    if reports.len() > 0 {
        lemma_polls_the_same_run(polling, reports.drop_last());
        let last = reports.last();
        assert(!reports[reports.len() - 1].0.is_terminal());
        lemma_poll_until_terminal(polling, last.0, last.1);
    }
}

/// The address of a factory in the management service.
pub open spec fn factory_url(
    subscription_id: Seq<char>,
    resource_group: Seq<char>,
    factory_name: Seq<char>,
) -> Seq<char> {
    "https://management.azure.com/subscriptions/"@ + subscription_id + "/resourceGroups/"@
        + resource_group + "/providers/Microsoft.DataFactory/factories/"@ + factory_name
}

/// The address that starts a run of a pipeline.
pub open spec fn create_run_url_of(
    subscription_id: Seq<char>,
    resource_group: Seq<char>,
    factory_name: Seq<char>,
    pipeline: Seq<char>,
) -> Seq<char> {
    factory_url(subscription_id, resource_group, factory_name) + "/pipelines/"@ + pipeline
        + "/createRun?api-version=2018-06-01"@
}

/// The address that reports on a run.
pub open spec fn pipeline_run_url_of(
    subscription_id: Seq<char>,
    resource_group: Seq<char>,
    factory_name: Seq<char>,
    run_id: Seq<char>,
) -> Seq<char> {
    factory_url(subscription_id, resource_group, factory_name) + "/pipelineruns/"@ + run_id
        + "?api-version=2018-06-01"@
}

fn factory_address(subscription_id: &str, resource_group: &str, factory_name: &str) -> (url:
    String)
    ensures
        url@ == factory_url(subscription_id@, resource_group@, factory_name@),
{
    let mut url = String::from_str("https://management.azure.com/subscriptions/");
    url.append(subscription_id);
    url.append("/resourceGroups/");
    url.append(resource_group);
    url.append("/providers/Microsoft.DataFactory/factories/");
    url.append(factory_name);
    url
}

impl AdfConfig {
    /// The address that starts a run of the configured pipeline.
    pub fn create_run_url(&self) -> (url: String)
        ensures
            url@ == create_run_url_of(
                self.subscription_id@,
                self.resource_group@,
                self.factory_name@,
                self.pipeline@,
            ),
    {
        let mut url = factory_address(
            self.subscription_id.as_str(),
            self.resource_group.as_str(),
            self.factory_name.as_str(),
        );
        url.append("/pipelines/");
        url.append(self.pipeline.as_str());
        url.append("/createRun?api-version=2018-06-01");
        url
    }

    /// The address that reports on the run `run_id`.
    pub fn pipeline_run_url(&self, run_id: &str) -> (url: String)
        ensures
            url@ == pipeline_run_url_of(
                self.subscription_id@,
                self.resource_group@,
                self.factory_name@,
                run_id@,
            ),
    {
        let mut url = factory_address(
            self.subscription_id.as_str(),
            self.resource_group.as_str(),
            self.factory_name.as_str(),
        );
        url.append("/pipelineruns/");
        url.append(run_id);
        url.append("?api-version=2018-06-01");
        url
    }
}

/// The names of the statuses differ, so a known status is read back from its
/// name.
pub proof fn lemma_adf_status_round_trip(status: AdfStatusView)
    requires
        !(status is Unknown),
    ensures
        AdfStatusView::named(status.name()) == status,
{
    reveal_strlit("Queued");
    reveal_strlit("InProgress");
    reveal_strlit("Succeeded");
    reveal_strlit("Failed");
    reveal_strlit("Cancelled");
    reveal_strlit("Canceling");
    reveal_strlit("TimedOut");
    reveal_strlit("Skipped");
    reveal_strlit("WaitingOnDependency");
    assert("Queued"@.len() == 6 && "Queued"@[0] == 'Q');
    assert("InProgress"@.len() == 10);
    assert("Succeeded"@.len() == 9 && "Succeeded"@[0] == 'S' && "Succeeded"@[8] == 'd');
    assert("Failed"@.len() == 6 && "Failed"@[0] == 'F');
    assert("Cancelled"@.len() == 9 && "Cancelled"@[0] == 'C' && "Cancelled"@[8] == 'd');
    assert("Canceling"@.len() == 9 && "Canceling"@[0] == 'C' && "Canceling"@[8] == 'g');
    assert("TimedOut"@.len() == 8);
    assert("Skipped"@.len() == 7);
    assert("WaitingOnDependency"@.len() == 19);
}

/// Every name is read as the status that is written as that name.
pub proof fn lemma_adf_name_round_trip(name: Seq<char>)
    ensures
        AdfStatusView::named(name).name() == name,
{
}

/// A poll ends the handler exactly when the run has ended.
pub proof fn lemma_poll_waits_until_terminal(status: AdfStatusView, message: Option<Seq<char>>)
    ensures
        poll_step(status, message) is Wait <==> !status.is_terminal(),
        poll_step(status, message) is Succeeded <==> status is Succeeded,
{
}

} // verus!
