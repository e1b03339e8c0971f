use vstd::prelude::*;
use vstd::string::StringExecFns;

verus! {

/// A command to run: the executable followed by its arguments, passed on
/// verbatim.
pub struct CommandSpec {
    pub program: String,
    pub args: Vec<String>,
}

impl View for CommandSpec {
    type V = Seq<Seq<char>>;

    /// The words of the command, executable first.
    open spec fn view(&self) -> Seq<Seq<char>> {
        seq![self.program@] + self.args.deep_view()
    }
}

/// The word that separates the main command from the callback.
pub open spec fn is_delimiter(word: Seq<char>) -> bool {
    word == seq!['-', '-']
}

/// Whether `word` is the delimiter `--`.
pub fn is_delimiter_word(word: &String) -> (r: bool)
    ensures
        r == is_delimiter(word@),
{
    let delimiter = String::from_str("--");
    proof {
        reveal_strlit("--");
        assert(delimiter@ =~= seq!['-', '-']);
    }
    *word == delimiter
}

impl CommandSpec {
    /// The command made of `words`, executable first; `None` when there are
    /// no words, since there is then nothing to run.
    pub fn from_words(words: Vec<String>) -> (r: Option<CommandSpec>)
        ensures
            r is None <==> words.len() == 0,
            r matches Some(c) ==> c@ == words.deep_view(),
    {
        if words.len() == 0 {
            return None;
        }
        let mut args = words;
        let program = args.remove(0);
        proof {
            assert(seq![program@] + args.deep_view() =~= words.deep_view());
        }
        Some(CommandSpec { program, args })
    }
}

/// Why a command line could not be split into a main command and a callback.
#[derive(Debug, PartialEq, Eq, Structural, Clone, Copy)]
pub enum UsageError {
    /// No `--` separates a main command from a callback.
    MissingDelimiter,
    /// Nothing stands before the first `--`, so there is no command to run.
    EmptyMainCommand,
}

/// The main command and the callback, as given on the command line.
pub struct CommandSet {
    pub main: CommandSpec,
    /// `None` when nothing follows the delimiter.
    pub callback: Option<CommandSpec>,
}

/// The words of an optional command; none for a missing one.
pub open spec fn words_of(c: Option<CommandSpec>) -> Seq<Seq<char>> {
    match c {
        Some(spec) => spec@,
        None => Seq::empty(),
    }
}

impl View for CommandSet {
    type V = (Seq<Seq<char>>, Seq<Seq<char>>);

    open spec fn view(&self) -> (Seq<Seq<char>>, Seq<Seq<char>>) {
        (self.main@, words_of(self.callback))
    }
}

/// The position of the first delimiter at or after `from`, or the length of
/// `words` when none follows.
pub open spec fn next_delimiter(words: Seq<Seq<char>>, from: int) -> int
    decreases words.len() - from,
{
    if from < 0 || from >= words.len() {
        words.len() as int
    } else if is_delimiter(words[from]) {
        from
    } else {
        next_delimiter(words, from + 1)
    }
}

/// The next delimiter lies between `from` and the end.
pub proof fn lemma_next_delimiter_bounds(words: Seq<Seq<char>>, from: int)
    requires
        0 <= from <= words.len(),
    ensures
        from <= next_delimiter(words, from) <= words.len(),
    decreases words.len() - from,
{
    if from < words.len() && !is_delimiter(words[from]) {
        lemma_next_delimiter_bounds(words, from + 1);
    }
}

/// How a command line splits: the words before the first `--` are the main
/// command, those between it and the next `--` (or the end) the callback.
/// Words after a second `--` are not used.
pub open spec fn split_command_line(words: Seq<Seq<char>>) -> Result<
    (Seq<Seq<char>>, Seq<Seq<char>>),
    UsageError,
> {
    let first = next_delimiter(words, 0);
    if first == words.len() {
        Err(UsageError::MissingDelimiter)
    } else if first == 0 {
        Err(UsageError::EmptyMainCommand)
    } else {
        Ok((words.subrange(0, first), words.subrange(first + 1, next_delimiter(words, first + 1))))
    }
}

/// The words of `words` from `from` up to the next delimiter, and the
/// position of that delimiter (or the length).
fn take_segment(words: &Vec<String>, from: usize) -> (r: (Vec<String>, usize))
    requires
        from <= words.len(),
    ensures
        from <= r.1 <= words.len(),
        r.1 == next_delimiter(words.deep_view(), from as int),
        r.0@ == words@.subrange(from as int, r.1 as int),
{
    let ghost w = words.deep_view();
    let mut segment: Vec<String> = Vec::new();
    let mut i: usize = from;
    while i < words.len() && !is_delimiter_word(&words[i])
        invariant
            from <= i <= words.len(),
            w == words.deep_view(),
            next_delimiter(w, from as int) == next_delimiter(w, i as int),
            segment@ == words@.subrange(from as int, i as int),
        decreases words.len() - i,
    {
        segment.push(words[i].clone());
        i = i + 1;
        proof {
            assert(segment@ =~= words@.subrange(from as int, i as int));
        }
    }
    (segment, i)
}

impl CommandSet {
    /// Splits the command line (without the supervisor's own name) into the
    /// main command and the callback.
    pub fn parse(words: &Vec<String>) -> (r: Result<CommandSet, UsageError>)
        ensures
            match r {
                Ok(set) => split_command_line(words.deep_view()) == Ok::<
                    (Seq<Seq<char>>, Seq<Seq<char>>),
                    UsageError,
                >(set@),
                Err(e) => split_command_line(words.deep_view()) == Err::<
                    (Seq<Seq<char>>, Seq<Seq<char>>),
                    UsageError,
                >(e),
            },
    {
        let ghost w = words.deep_view();
        let (main_words, first) = take_segment(words, 0);
        if first == words.len() {
            return Err(UsageError::MissingDelimiter);
        }
        let (callback_words, _) = take_segment(words, first + 1);
        proof {
            assert(main_words.deep_view() =~= w.subrange(0, first as int));
            assert(callback_words.deep_view() =~= w.subrange(
                first + 1,
                next_delimiter(w, first + 1),
            ));
        }
        match CommandSpec::from_words(main_words) {
            None => Err(UsageError::EmptyMainCommand),
            Some(main) => {
                let ghost callback_view = callback_words.deep_view();
                let callback = CommandSpec::from_words(callback_words);
                proof {
                    if callback is None {
                        assert(callback_view =~= Seq::<Seq<char>>::empty());
                    }
                }
                Ok(CommandSet { main, callback })
            },
        }
    }
}

} // verus!
