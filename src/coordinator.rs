use vstd::prelude::*;

use crate::command::CommandSpec;
use crate::outcome::ProcessOutcome;

verus! {

/// The race between the main command's completion and a termination signal.
/// The callback is held while the race is open and handed out at most once.
pub enum Coordinator {
    /// Neither side has resolved; holds the callback, if one was given.
    Racing(Option<CommandSpec>),
    /// The signal came first and the callback is running.
    RunningCallback,
    /// The race is over and all work is done.
    Finished,
}

/// What the caller reports to the coordinator.
pub enum RaceEvent {
    /// A termination signal reached the supervisor.
    TerminationSignal,
    /// The main command is done: the completion signal arrived, its channel
    /// closed, or the supervision task ended.
    MainCompleted,
    /// The callback command ended.
    CallbackFinished(ProcessOutcome),
}

/// What the coordinator asks the caller to do.
pub enum RaceAction {
    /// Run this callback command and report when it ends.
    RunCallback(CommandSpec),
    /// The main command finished first: everything is done, exit.
    AllDone,
    /// The signal was handled (the callback, if any, has ended): exit.
    ShutDown,
    /// Nothing to do: the event comes after the race was decided.
    Ignore,
}

/// One transition of the coordinator.
pub open spec fn race_step(s: Coordinator, e: RaceEvent) -> (Coordinator, RaceAction) {
    match s {
        Coordinator::Racing(callback) => match e {
            RaceEvent::TerminationSignal => match callback {
                Some(c) => (Coordinator::RunningCallback, RaceAction::RunCallback(c)),
                None => (Coordinator::Finished, RaceAction::ShutDown),
            },
            RaceEvent::MainCompleted => (Coordinator::Finished, RaceAction::AllDone),
            RaceEvent::CallbackFinished(_) => (s, RaceAction::Ignore),
        },
        Coordinator::RunningCallback => match e {
            RaceEvent::CallbackFinished(_) => (Coordinator::Finished, RaceAction::ShutDown),
            _ => (s, RaceAction::Ignore),
        },
        Coordinator::Finished => (s, RaceAction::Ignore),
    }
}

impl Coordinator {
    /// A coordinator whose signal branch runs `callback` (nothing when `None`).
    pub fn new(callback: Option<CommandSpec>) -> (r: Coordinator)
        ensures
            r == Coordinator::Racing(callback),
    {
        Coordinator::Racing(callback)
    }

    /// Whether the race is over and nothing is left to run.
    pub fn is_finished(&self) -> (r: bool)
        ensures
            r == (self is Finished),
    {
        match self {
            Coordinator::Finished => true,
            _ => false,
        }
    }

    /// Takes in one event and says what to do next.
    pub fn step(&mut self, event: RaceEvent) -> (action: RaceAction)
        ensures
            (*final(self), action) == race_step(*old(self), event),
    {
        let mut current = Coordinator::Finished;
        std::mem::swap(self, &mut current);
        let (next, action) = match current {
            Coordinator::Racing(callback) => match event {
                RaceEvent::TerminationSignal => match callback {
                    Some(c) => (Coordinator::RunningCallback, RaceAction::RunCallback(c)),
                    None => (Coordinator::Finished, RaceAction::ShutDown),
                },
                RaceEvent::MainCompleted => (Coordinator::Finished, RaceAction::AllDone),
                RaceEvent::CallbackFinished(_) => (
                    Coordinator::Racing(callback),
                    RaceAction::Ignore,
                ),
            },
            Coordinator::RunningCallback => match event {
                RaceEvent::CallbackFinished(_) => (Coordinator::Finished, RaceAction::ShutDown),
                _ => (Coordinator::RunningCallback, RaceAction::Ignore),
            },
            Coordinator::Finished => (Coordinator::Finished, RaceAction::Ignore),
        };
        *self = next;
        action
    }
}

/// The actions a coordinator in state `s` asks for when fed `events` in order.
pub open spec fn race_trace(s: Coordinator, events: Seq<RaceEvent>) -> Seq<RaceAction>
    decreases events.len(),
{
    if events.len() == 0 {
        Seq::empty()
    } else {
        let (next, action) = race_step(s, events[0]);
        seq![action] + race_trace(next, events.drop_first())
    }
}

/// How many of `actions` start the callback.
pub open spec fn callback_runs(actions: Seq<RaceAction>) -> nat
    decreases actions.len(),
{
    if actions.len() == 0 {
        0
    } else {
        (if actions[0] is RunCallback {
            1nat
        } else {
            0nat
        }) + callback_runs(actions.drop_first())
    }
}

/// How many of `actions` report that the main command finished first.
pub open spec fn all_done_reports(actions: Seq<RaceAction>) -> nat
    decreases actions.len(),
{
    if actions.len() == 0 {
        0
    } else {
        (if actions[0] is AllDone {
            1nat
        } else {
            0nat
        }) + all_done_reports(actions.drop_first())
    }
}

proof fn lemma_race_trace_unfold(s: Coordinator, events: Seq<RaceEvent>)
    requires
        events.len() > 0,
    ensures
        race_trace(s, events)[0] == race_step(s, events[0]).1,
        race_trace(s, events).drop_first() == race_trace(
            race_step(s, events[0]).0,
            events.drop_first(),
        ),
{
    let trace = race_trace(s, events);
    assert(trace.drop_first() =~= race_trace(race_step(s, events[0]).0, events.drop_first()));
}

/// Once the race is decided, no event starts the callback or reports the
/// main command's completion again.
pub proof fn lemma_decided_race_stays_quiet(s: Coordinator, events: Seq<RaceEvent>)
    requires
        !(s is Racing),
    ensures
        callback_runs(race_trace(s, events)) == 0,
        all_done_reports(race_trace(s, events)) == 0,
    decreases events.len(),
{
    if events.len() > 0 {
        lemma_race_trace_unfold(s, events);
        lemma_decided_race_stays_quiet(race_step(s, events[0]).0, events.drop_first());
    }
}

/// Exactly one branch of the race is taken: over any run, the callback
/// starts and the main command's completion is acted on at most once in
/// all, so never both and neither twice.
pub proof fn lemma_race_resolves_once(s: Coordinator, events: Seq<RaceEvent>)
    ensures
        callback_runs(race_trace(s, events)) + all_done_reports(race_trace(s, events)) <= 1,
    decreases events.len(),
{
    if events.len() > 0 {
        lemma_race_trace_unfold(s, events);
        let next = race_step(s, events[0]).0;
        if next is Racing {
            lemma_race_resolves_once(next, events.drop_first());
        } else {
            lemma_decided_race_stays_quiet(next, events.drop_first());
        }
    }
}

/// When the main command completes before any termination signal arrives,
/// the callback never runs and completion is reported exactly once.
pub proof fn lemma_main_first_skips_callback(
    callback: Option<CommandSpec>,
    events: Seq<RaceEvent>,
    i: int,
)
    requires
        0 <= i < events.len(),
        events[i] is MainCompleted,
        forall|k: int| 0 <= k < i ==> !(events[k] is TerminationSignal),
    ensures
        callback_runs(race_trace(Coordinator::Racing(callback), events)) == 0,
        all_done_reports(race_trace(Coordinator::Racing(callback), events)) == 1,
    decreases i,
{
    let s = Coordinator::Racing(callback);
    lemma_race_trace_unfold(s, events);
    let next = race_step(s, events[0]).0;
    let rest = events.drop_first();
    if events[0] is MainCompleted {
        lemma_decided_race_stays_quiet(next, rest);
    } else {
        assert(next == s);
        assert forall|k: int| 0 <= k < i - 1 implies !(rest[k] is TerminationSignal) by {
            assert(rest[k] == events[k + 1]);
        }
        lemma_main_first_skips_callback(callback, rest, i - 1);
    }
}

/// When a termination signal arrives strictly before the main command
/// completes, the callback starts exactly once, in answer to that signal,
/// and never again, whatever follows (the main command's completion too).
pub proof fn lemma_signal_first_runs_callback_once(
    callback: CommandSpec,
    events: Seq<RaceEvent>,
    i: int,
)
    requires
        0 <= i < events.len(),
        events[i] is TerminationSignal,
        forall|k: int| 0 <= k < i ==> !(events[k] is MainCompleted),
    ensures
        callback_runs(race_trace(Coordinator::Racing(Some(callback)), events)) == 1,
        all_done_reports(race_trace(Coordinator::Racing(Some(callback)), events)) == 0,
    decreases i,
{
    let s = Coordinator::Racing(Some(callback));
    lemma_race_trace_unfold(s, events);
    let next = race_step(s, events[0]).0;
    let rest = events.drop_first();
    if events[0] is TerminationSignal {
        lemma_decided_race_stays_quiet(next, rest);
    } else {
        assert(next == s);
        assert forall|k: int| 0 <= k < i - 1 implies !(rest[k] is MainCompleted) by {
            assert(rest[k] == events[k + 1]);
        }
        lemma_signal_first_runs_callback_once(callback, rest, i - 1);
    }
}

/// Without a callback command the signal branch spawns nothing: no run ever
/// starts a callback.
pub proof fn lemma_no_callback_never_runs(events: Seq<RaceEvent>)
    ensures
        callback_runs(race_trace(Coordinator::Racing(None), events)) == 0,
    decreases events.len(),
{
    if events.len() > 0 {
        let s = Coordinator::Racing(None);
        lemma_race_trace_unfold(s, events);
        let next = race_step(s, events[0]).0;
        if next is Racing {
            lemma_no_callback_never_runs(events.drop_first());
        } else {
            lemma_decided_race_stays_quiet(next, events.drop_first());
        }
    }
}

} // verus!
