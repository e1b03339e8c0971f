use vstd::prelude::*;

verus! {

/// What waiting on a child process reported.
pub enum ExitReport {
    /// The child terminated; `code` is its exit code (`None` when a signal
    /// ended it) and `description` the status in words.
    Exited { code: Option<i32>, description: String },
    /// The wait itself failed, with the error in words.
    WaitFailed(String),
}

/// The result of one run of a command.
pub enum ProcessOutcome {
    /// The command exited with status 0.
    Success,
    /// The command exited with another status or was ended by a signal.
    Failed(String),
    /// Waiting on the command failed; treated as a failure.
    WaitError(String),
    /// The command could not be started.
    SpawnError(String),
}

impl ProcessOutcome {
    /// Only an exit with status 0 counts as success.
    pub open spec fn spec_is_success(&self) -> bool {
        self is Success
    }

    #[verifier::when_used_as_spec(spec_is_success)]
    pub fn is_success(&self) -> (r: bool)
        ensures
            r == self.spec_is_success(),
    {
        match self {
            ProcessOutcome::Success => true,
            _ => false,
        }
    }

    /// Whether the command was never started.
    pub open spec fn spec_is_spawn_error(&self) -> bool {
        self is SpawnError
    }

    #[verifier::when_used_as_spec(spec_is_spawn_error)]
    pub fn is_spawn_error(&self) -> (r: bool)
        ensures
            r == self.spec_is_spawn_error(),
    {
        match self {
            ProcessOutcome::SpawnError(_) => true,
            _ => false,
        }
    }
}

/// The outcome that a wait report stands for.
pub open spec fn outcome_of(report: ExitReport) -> ProcessOutcome {
    match report {
        ExitReport::Exited { code, description } => if code == Some(0i32) {
            ProcessOutcome::Success
        } else {
            ProcessOutcome::Failed(description)
        },
        ExitReport::WaitFailed(message) => ProcessOutcome::WaitError(message),
    }
}

/// Classifies what waiting on a child reported: exit code 0 is success, any
/// other exit (or an end by signal) a failure, and a failed wait an error.
pub fn classify_exit(report: ExitReport) -> (r: ProcessOutcome)
    ensures
        r == outcome_of(report),
{
    match report {
        ExitReport::Exited { code, description } => {
            match code {
                Some(0i32) => ProcessOutcome::Success,
                _ => ProcessOutcome::Failed(description),
            }
        },
        ExitReport::WaitFailed(message) => ProcessOutcome::WaitError(message),
    }
}

} // verus!
