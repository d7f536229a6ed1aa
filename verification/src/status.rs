//! The lifecycle status of a job and the edges of its state machine.

use vstd::prelude::*;
use vstd::string::*;
use crate::text::str_eq;

verus! {

/// Where a job stands in its tick cycle.
#[derive(Debug, Clone, Copy, PartialEq, Eq, Structural)]
pub enum JobStatus {
    /// The tick fired and the handler is being looked up.
    Start,
    /// Waiting for the next fire time.
    Scheduled,
    /// The handler body has been entered.
    Running,
    /// The last tick ended well.
    Success,
    /// The last tick ended badly, or no handler was found.
    Failed,
    /// Switched off from outside; the loop halts.
    Disabled,
}

impl JobStatus {
    /// The lower-case name under which the status is persisted.
    pub open spec fn name(self) -> Seq<char> {
        match self {
            JobStatus::Start => "start"@,
            JobStatus::Scheduled => "scheduled"@,
            JobStatus::Running => "running"@,
            JobStatus::Success => "success"@,
            JobStatus::Failed => "failed"@,
            JobStatus::Disabled => "disabled"@,
        }
    }

    /// The status that a persisted name stands for, if any.
    pub open spec fn named(text: Seq<char>) -> Option<JobStatus> {
        if text == "start"@ {
            Some(JobStatus::Start)
        } else if text == "scheduled"@ {
            Some(JobStatus::Scheduled)
        } else if text == "running"@ {
            Some(JobStatus::Running)
        } else if text == "success"@ {
            Some(JobStatus::Success)
        } else if text == "failed"@ {
            Some(JobStatus::Failed)
        } else if text == "disabled"@ {
            Some(JobStatus::Disabled)
        } else {
            None
        }
    }

    /// A tick ends in one of these.
    pub open spec fn is_terminal(self) -> bool {
        self == JobStatus::Success || self == JobStatus::Failed
    }

    /// The edges of the state machine: `self` may be followed by `next`.
    ///
    /// `Scheduled -> Start -> Running -> Success | Failed -> Scheduled`,
    /// `Scheduled -> Failed` for a tick that finds no handler, and any state
    /// may be switched to `Disabled`.
    pub open spec fn allows(self, next: JobStatus) -> bool {
        next == JobStatus::Disabled || match self {
            JobStatus::Scheduled => next == JobStatus::Start || next == JobStatus::Failed,
            JobStatus::Start => next == JobStatus::Running,
            JobStatus::Running => next == JobStatus::Success || next == JobStatus::Failed,
            JobStatus::Success => next == JobStatus::Scheduled,
            JobStatus::Failed => next == JobStatus::Scheduled,
            JobStatus::Disabled => false,
        }
    }

    /// The persisted name.
    pub fn as_str(&self) -> (s: &'static str)
        ensures
            s@ == self.name(),
    {
        match self {
            JobStatus::Start => "start",
            JobStatus::Scheduled => "scheduled",
            JobStatus::Running => "running",
            JobStatus::Success => "success",
            JobStatus::Failed => "failed",
            JobStatus::Disabled => "disabled",
        }
    }

    /// The persisted name, owned.
    pub fn to_string(&self) -> (s: String)
        ensures
            s@ == self.name(),
    {
        String::from_str(self.as_str())
    }

    /// Reads a persisted name; any other text is an error.
    pub fn from_str(s: &str) -> (r: Result<JobStatus, ()>)
        ensures
            r == match JobStatus::named(s@) {
                Some(status) => Ok::<JobStatus, ()>(status),
                None => Err::<JobStatus, ()>(()),
            },
    {
        if str_eq(s, "start") {
            Ok(JobStatus::Start)
        } else if str_eq(s, "scheduled") {
            Ok(JobStatus::Scheduled)
        } else if str_eq(s, "running") {
            Ok(JobStatus::Running)
        } else if str_eq(s, "success") {
            Ok(JobStatus::Success)
        } else if str_eq(s, "failed") {
            Ok(JobStatus::Failed)
        } else if str_eq(s, "disabled") {
            Ok(JobStatus::Disabled)
        } else {
            Err(())
        }
    }

    /// Whether the state machine has an edge from `self` to `next`.
    pub fn can_transition_to(&self, next: JobStatus) -> (b: bool)
        ensures
            b == self.allows(next),
    {
        if next == JobStatus::Disabled {
            return true;
        }
        match self {
            JobStatus::Scheduled => next == JobStatus::Start || next == JobStatus::Failed,
            JobStatus::Start => next == JobStatus::Running,
            JobStatus::Running => next == JobStatus::Success || next == JobStatus::Failed,
            JobStatus::Success => next == JobStatus::Scheduled,
            JobStatus::Failed => next == JobStatus::Scheduled,
            JobStatus::Disabled => false,
        }
    }
}

/// A status survives being written as its name and read back.
pub proof fn lemma_status_name_round_trip(status: JobStatus)
    ensures
        JobStatus::named(status.name()) == Some(status),
{
    reveal_strlit("start");
    reveal_strlit("scheduled");
    reveal_strlit("running");
    reveal_strlit("success");
    reveal_strlit("failed");
    reveal_strlit("disabled");
    assert("start"@.len() == 5);
    assert("scheduled"@.len() == 9);
    assert("running"@.len() == 7 && "running"@[0] == 'r');
    assert("success"@.len() == 7 && "success"@[0] == 's');
    assert("failed"@.len() == 6);
    assert("disabled"@.len() == 8);
}

/// Only a status's own name is read back as that status.
pub proof fn lemma_status_named_is_name(text: Seq<char>, status: JobStatus)
    requires
        JobStatus::named(text) == Some(status),
    ensures
        status.name() == text,
{
}

} // verus!
