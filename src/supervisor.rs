use vstd::prelude::*;

use crate::command::CommandSpec;
use crate::outcome::{classify_exit, outcome_of, ExitReport, ProcessOutcome};

verus! {

/// The lifecycle of the main command. The command itself is held until it is
/// handed out to be spawned, and is handed out once.
pub enum Supervisor {
    /// Not started yet.
    Idle(CommandSpec),
    /// Spawning was requested; its result is pending.
    Spawned,
    /// The child runs and its exit is awaited.
    Waiting,
    /// The child has exited, or could not be started; completion was sent.
    Terminated,
}

/// What the caller reports to the supervisor.
pub enum SupervisorEvent {
    /// Supervision is to begin.
    Launch,
    /// The main command was started.
    SpawnSucceeded,
    /// The main command could not be started.
    SpawnFailed(String),
    /// Waiting on the main command ended.
    ChildExited(ExitReport),
}

/// What the supervisor asks the caller to do.
pub enum SupervisorAction {
    /// Start this command as a child process.
    Spawn(CommandSpec),
    /// Wait for the child to terminate.
    AwaitExit,
    /// Send the completion signal, carrying the outcome of the main command.
    NotifyCompletion(ProcessOutcome),
    /// Nothing to do: the event does not apply in this state.
    Ignore,
}

/// One transition of the supervisor.
pub open spec fn supervisor_step(s: Supervisor, e: SupervisorEvent) -> (
    Supervisor,
    SupervisorAction,
) {
    match s {
        Supervisor::Idle(main) => match e {
            SupervisorEvent::Launch => (Supervisor::Spawned, SupervisorAction::Spawn(main)),
            _ => (s, SupervisorAction::Ignore),
        },
        Supervisor::Spawned => match e {
            SupervisorEvent::SpawnSucceeded => (Supervisor::Waiting, SupervisorAction::AwaitExit),
            SupervisorEvent::SpawnFailed(message) => (
                Supervisor::Terminated,
                SupervisorAction::NotifyCompletion(ProcessOutcome::SpawnError(message)),
            ),
            _ => (s, SupervisorAction::Ignore),
        },
        Supervisor::Waiting => match e {
            SupervisorEvent::ChildExited(report) => (
                Supervisor::Terminated,
                SupervisorAction::NotifyCompletion(outcome_of(report)),
            ),
            _ => (s, SupervisorAction::Ignore),
        },
        Supervisor::Terminated => (s, SupervisorAction::Ignore),
    }
}

impl Supervisor {
    /// A supervisor that will run `main`.
    pub fn new(main: CommandSpec) -> (r: Supervisor)
        ensures
            r == Supervisor::Idle(main),
    {
        Supervisor::Idle(main)
    }

    /// Whether the main command has terminated (or never started).
    pub fn is_terminated(&self) -> (r: bool)
        ensures
            r == (self is Terminated),
    {
        match self {
            Supervisor::Terminated => true,
            _ => false,
        }
    }

    /// Takes in one event and says what to do next.
    pub fn step(&mut self, event: SupervisorEvent) -> (action: SupervisorAction)
        ensures
            (*final(self), action) == supervisor_step(*old(self), event),
    {
        let mut current = Supervisor::Terminated;
        std::mem::swap(self, &mut current);
        let (next, action) = match current {
            Supervisor::Idle(main) => match event {
                SupervisorEvent::Launch => (Supervisor::Spawned, SupervisorAction::Spawn(main)),
                _ => (Supervisor::Idle(main), SupervisorAction::Ignore),
            },
            Supervisor::Spawned => match event {
                SupervisorEvent::SpawnSucceeded => (
                    Supervisor::Waiting,
                    SupervisorAction::AwaitExit,
                ),
                SupervisorEvent::SpawnFailed(message) => (
                    Supervisor::Terminated,
                    SupervisorAction::NotifyCompletion(ProcessOutcome::SpawnError(message)),
                ),
                _ => (Supervisor::Spawned, SupervisorAction::Ignore),
            },
            Supervisor::Waiting => match event {
                SupervisorEvent::ChildExited(report) => (
                    Supervisor::Terminated,
                    SupervisorAction::NotifyCompletion(classify_exit(report)),
                ),
                _ => (Supervisor::Waiting, SupervisorAction::Ignore),
            },
            Supervisor::Terminated => (Supervisor::Terminated, SupervisorAction::Ignore),
        };
        *self = next;
        action
    }
}

/// The actions a supervisor in state `s` asks for when fed `events` in order.
pub open spec fn supervisor_trace(s: Supervisor, events: Seq<SupervisorEvent>) -> Seq<
    SupervisorAction,
>
    decreases events.len(),
{
    if events.len() == 0 {
        Seq::empty()
    } else {
        let (next, action) = supervisor_step(s, events[0]);
        seq![action] + supervisor_trace(next, events.drop_first())
    }
}

/// How many of `actions` send the completion signal.
pub open spec fn notifications(actions: Seq<SupervisorAction>) -> nat
    decreases actions.len(),
{
    if actions.len() == 0 {
        0
    } else {
        (if actions[0] is NotifyCompletion {
            1nat
        } else {
            0nat
        }) + notifications(actions.drop_first())
    }
}

/// Whether the action at `i` of a run answers the event at `i` as a
/// completion notice must: the child's exit gives its outcome, a failed
/// spawn gives the spawn error, and nothing else sends the signal.
pub open spec fn notice_is_justified(
    events: Seq<SupervisorEvent>,
    actions: Seq<SupervisorAction>,
    i: int,
) -> bool {
    actions[i] matches SupervisorAction::NotifyCompletion(outcome) ==> {
        ||| events[i] matches SupervisorEvent::ChildExited(report) && outcome == outcome_of(
            report,
        )
        ||| events[i] matches SupervisorEvent::SpawnFailed(message) && outcome
            == ProcessOutcome::SpawnError(message)
    }
}

/// The completion signal is sent at most once in any run (never again once
/// terminated), and each time in answer to the child's exit, or to its
/// failure to start: never while the child is still running.
pub proof fn lemma_completion_sent_once_after_exit(s: Supervisor, events: Seq<SupervisorEvent>)
    ensures
        supervisor_trace(s, events).len() == events.len(),
        notifications(supervisor_trace(s, events)) <= 1,
        s is Terminated ==> notifications(supervisor_trace(s, events)) == 0,
        forall|i: int|
            0 <= i < events.len() ==> notice_is_justified(
                events,
                supervisor_trace(s, events),
                i,
            ),
    decreases events.len(),
{
    if events.len() > 0 {
        let (next, action) = supervisor_step(s, events[0]);
        let rest = events.drop_first();
        let trace = supervisor_trace(s, events);
        lemma_completion_sent_once_after_exit(next, rest);
        assert(trace[0] == action);
        assert(trace.drop_first() =~= supervisor_trace(next, rest));
        assert forall|i: int| 0 <= i < events.len() implies notice_is_justified(
            events,
            trace,
            i,
        ) by {
            if i > 0 {
                assert(notice_is_justified(rest, supervisor_trace(next, rest), i - 1));
                assert(trace[i] == supervisor_trace(next, rest)[i - 1]);
                assert(events[i] == rest[i - 1]);
            }
        }
    }
}

} // verus!
