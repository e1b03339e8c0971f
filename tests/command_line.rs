use run_with_callback::command::{is_delimiter_word, CommandSet, CommandSpec, UsageError};
use run_with_callback::coordinator::Coordinator;
use run_with_callback::session::start_session;
use run_with_callback::supervisor::{Supervisor, SupervisorAction, SupervisorEvent};

fn words(list: &[&str]) -> Vec<String> {
    list.iter().map(|w| w.to_string()).collect()
}

fn assert_command(c: &CommandSpec, program: &str, args: &[&str]) {
    assert_eq!(c.program, program);
    assert_eq!(c.args, words(args));
}

#[test]
fn delimiter_is_exactly_two_dashes() {
    assert!(is_delimiter_word(&"--".to_string()));
    assert!(!is_delimiter_word(&"-".to_string()));
    assert!(!is_delimiter_word(&"---".to_string()));
    assert!(!is_delimiter_word(&"--du".to_string()));
    assert!(!is_delimiter_word(&"".to_string()));
}

#[test]
fn from_words_splits_program_and_arguments() {
    let c = CommandSpec::from_words(words(&["echo", "a", "b"])).unwrap();
    assert_command(&c, "echo", &["a", "b"]);
    assert!(CommandSpec::from_words(Vec::new()).is_none());
}

#[test]
fn parse_splits_main_and_callback() {
    let set = CommandSet::parse(&words(&["sleep", "5", "--", "echo", "done"])).unwrap();
    assert_command(&set.main, "sleep", &["5"]);
    assert_command(set.callback.as_ref().unwrap(), "echo", &["done"]);
}

#[test]
fn parse_passes_arguments_verbatim() {
    let set =
        CommandSet::parse(&words(&["nu", "-c", "ls --du | sort-by size", "--", "true"])).unwrap();
    assert_command(&set.main, "nu", &["-c", "ls --du | sort-by size"]);
    assert_command(set.callback.as_ref().unwrap(), "true", &[]);
}

#[test]
fn parse_without_delimiter_is_a_usage_error() {
    assert_eq!(
        CommandSet::parse(&words(&["sleep", "5"])).err(),
        Some(UsageError::MissingDelimiter)
    );
    assert_eq!(CommandSet::parse(&Vec::new()).err(), Some(UsageError::MissingDelimiter));
}

#[test]
fn parse_with_empty_main_is_a_usage_error() {
    assert_eq!(
        CommandSet::parse(&words(&["--", "echo", "cleanup"])).err(),
        Some(UsageError::EmptyMainCommand)
    );
    assert_eq!(CommandSet::parse(&words(&["--"])).err(), Some(UsageError::EmptyMainCommand));
}

#[test]
fn parse_with_empty_callback_has_none() {
    let set = CommandSet::parse(&words(&["sleep", "1", "--"])).unwrap();
    assert_command(&set.main, "sleep", &["1"]);
    assert!(set.callback.is_none());
}

#[test]
fn parse_ignores_words_after_a_second_delimiter() {
    let set = CommandSet::parse(&words(&["deno", "repl", "--", "sleep", "2", "--", "nu"])).unwrap();
    assert_command(&set.main, "deno", &["repl"]);
    assert_command(set.callback.as_ref().unwrap(), "sleep", &["2"]);
}

#[test]
fn session_launch_spawns_the_first_segment() {
    let (mut supervisor, coordinator) =
        start_session(&words(&["sleep", "30", "--", "echo", "cleanup"])).unwrap();
    match supervisor.step(SupervisorEvent::Launch) {
        SupervisorAction::Spawn(c) => assert_command(&c, "sleep", &["30"]),
        _ => panic!("launch must spawn the main command"),
    }
    assert!(matches!(supervisor, Supervisor::Spawned));
    match coordinator {
        Coordinator::Racing(Some(c)) => assert_command(&c, "echo", &["cleanup"]),
        _ => panic!("the race must hold the callback"),
    }
}

#[test]
fn session_refuses_a_single_segment() {
    assert_eq!(start_session(&words(&["sleep", "5"])).err(), Some(UsageError::MissingDelimiter));
}
