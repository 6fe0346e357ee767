//! The command that starts a local bot, as its configuration gives it.
use vstd::prelude::*;

verus! {

/// Either one command line or the argument vector itself.
pub enum Command {
    String(String),
    Argv(Vec<String>),
}

/// The words of `line` split and unquoted as a POSIX shell would, or none
/// where the line is malformed.
pub uninterp spec fn shell_words(line: Seq<char>) -> Option<Seq<Seq<char>>>;

pub open spec fn words_view(words: Seq<String>) -> Seq<Seq<char>> {
    words.map_values(|w: String| w@)
}

/// Relies on `shlex::split`: the words of a command line, split and
/// unquoted as a POSIX shell would, or `None` where the line is malformed
/// (an unclosed quote, a trailing backslash). The result depends on the
/// line alone.
#[verifier::external_body]
fn split_command_line(line: &str) -> (r: Option<Vec<String>>)
    ensures
        match r {
            Some(words) => shell_words(line@) == Some(words_view(words@)),
            None => shell_words(line@) is None,
        },
{
    shlex::split(line)
}

/// The argument vector that `command` stands for, if it has one.
pub open spec fn argv_of(command: Command) -> Option<Seq<Seq<char>>> {
    match command {
        Command::Argv(words) => Some(words_view(words@)),
        Command::String(line) => shell_words(line@),
    }
}

impl Command {
    /// The argument vector: the one given, or the command line's words.
    pub fn to_argv(&self) -> (r: Vec<String>)
        requires
            argv_of(*self) is Some,
        ensures
            argv_of(*self) == Some(words_view(r@)),
    {
        match self {
            Command::Argv(words) => {
                let mut copy: Vec<String> = Vec::new();
                let mut i: usize = 0;
                while i < words.len()
                    invariant
                        i <= words@.len(),
                        copy@.len() == i,
                        forall|j: int| 0 <= j < i ==> copy@[j]@ == words@[j]@,
                    decreases words@.len() - i,
                {
                    let word = words[i].clone();
                    copy.push(word);
                    i += 1;
                }
                proof {
                    assert(words_view(copy@) =~= words_view(words@));
                }
                copy
            },
            Command::String(line) => split_command_line(line.as_str()).unwrap(),
        }
    }

    /// Whether the command has an argument vector: a command line has one
    /// unless it is malformed.
    pub fn has_argv(&self) -> (r: bool)
        ensures
            r == argv_of(*self) is Some,
    {
        match self {
            Command::Argv(_) => true,
            Command::String(line) => split_command_line(line.as_str()).is_some(),
        }
    }

    /// The argument vector, or `None` where the command line is malformed.
    pub fn try_to_argv(&self) -> (r: Option<Vec<String>>)
        ensures
            match r {
                Some(words) => argv_of(*self) == Some(words_view(words@)),
                None => argv_of(*self) is None,
            },
    {
        if self.has_argv() {
            Some(self.to_argv())
        } else {
            None
        }
    }
}

} // verus!
