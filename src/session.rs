use vstd::prelude::*;

use crate::command::{lemma_next_delimiter_bounds, next_delimiter, split_command_line, words_of, CommandSet, UsageError};
use crate::coordinator::Coordinator;
use crate::supervisor::{supervisor_step, Supervisor, SupervisorAction, SupervisorEvent};

verus! {

/// Whether `supervisor` and `coordinator` are the start of a session for the
/// command line `words`: the supervisor holds the main command, not yet
/// started, and the open race holds the callback.
pub open spec fn starts_session(
    words: Seq<Seq<char>>,
    supervisor: Supervisor,
    coordinator: Coordinator,
) -> bool {
    &&& split_command_line(words) matches Ok((main_words, callback_words))
    &&& supervisor matches Supervisor::Idle(main) && main@ == main_words
    &&& coordinator matches Coordinator::Racing(callback) && words_of(callback) == callback_words
}

/// Splits the command line (without the supervisor's own name) and hands the
/// main command to a new supervisor and the callback to a new coordinator.
pub fn start_session(words: &Vec<String>) -> (r: Result<(Supervisor, Coordinator), UsageError>)
    ensures
        match r {
            Ok((supervisor, coordinator)) => starts_session(
                words.deep_view(),
                supervisor,
                coordinator,
            ),
            Err(e) => split_command_line(words.deep_view()) == Err::<
                (Seq<Seq<char>>, Seq<Seq<char>>),
                UsageError,
            >(e),
        },
{
    match CommandSet::parse(words) {
        Ok(set) => Ok((Supervisor::new(set.main), Coordinator::new(set.callback))),
        Err(e) => Err(e),
    }
}

/// For a command line with two non-empty segments, a session starts, and
/// the first thing its supervisor does on launch is to spawn the first
/// segment: the words before the first `--`.
pub proof fn lemma_supervision_begins_with_first_segment(
    words: Seq<Seq<char>>,
    supervisor: Supervisor,
    coordinator: Coordinator,
)
    requires
        0 < next_delimiter(words, 0) < words.len(),
        next_delimiter(words, next_delimiter(words, 0) + 1) > next_delimiter(words, 0) + 1,
        starts_session(words, supervisor, coordinator),
    ensures
        supervisor_step(supervisor, SupervisorEvent::Launch) matches (
            Supervisor::Spawned,
            SupervisorAction::Spawn(main),
        ) && main@ == words.subrange(0, next_delimiter(words, 0)),
        coordinator matches Coordinator::Racing(Some(callback)) && callback@ == words.subrange(
            next_delimiter(words, 0) + 1,
            next_delimiter(words, next_delimiter(words, 0) + 1),
        ),
{
    let first = next_delimiter(words, 0);
    lemma_next_delimiter_bounds(words, first + 1);
    let callback_words = words.subrange(first + 1, next_delimiter(words, first + 1));
    assert(callback_words.len() > 0);
}

} // verus!
