use crate::mode::Mode;
use vstd::prelude::*;

verus! {

/// The error of `shellwords::split`, carried only until it is mapped to
/// `CommandError::MismatchedQuotes`.
#[verifier::external_type_specification]
#[verifier::external_body]
pub struct ExMismatchedQuotes(shellwords::MismatchedQuotes);

/// The words that Bourne-shell splitting makes of `s`, or `None` where `s`
/// holds a quoted string without its closing quote.
pub uninterp spec fn shell_words_of(s: Seq<char>) -> Option<Seq<Seq<char>>>;

pub open spec fn views_of(v: Seq<String>) -> Seq<Seq<char>> {
    v.map_values(|w: String| w@)
}

/// Relies on `shellwords::split`: it fails exactly on mismatched quotes and
/// otherwise returns the words of its input.
#[verifier::external_body]
fn split_words(s: &str) -> (r: Result<Vec<String>, shellwords::MismatchedQuotes>)
    ensures
        r is Ok <==> shell_words_of(s@) is Some,
        r matches Ok(w) ==> shell_words_of(s@) == Some(views_of(w@)),
{
    shellwords::split(s)
}

/// A program with its arguments, ready to be run.
#[derive(Clone, Debug, PartialEq, Eq)]
pub struct Invocation {
    pub program: String,
    pub args: Vec<String>,
}

/// Why a configured command line cannot be run. Each variant holds the
/// offending command line.
#[derive(Clone, Debug, PartialEq, Eq)]
pub enum CommandError {
    /// A quoted string lacks its closing quote.
    MismatchedQuotes(String),
    /// The command line holds no word, so it names no program.
    Empty(String),
}

/// The commands configured for each mode, and optionally the command that
/// reports the mode currently shown.
#[derive(Clone, Debug, PartialEq, Eq)]
pub struct ModeCommands {
    pub on_light: String,
    pub on_dark: String,
    pub query: Option<String>,
}

/// What a command line whose splitting gave `words` (`None` for mismatched
/// quotes) yields: the first word is the program, the rest its arguments.
pub open spec fn from_words_matches(
    line: Seq<char>,
    words: Option<Seq<Seq<char>>>,
    r: Result<Invocation, CommandError>,
) -> bool {
    match words {
        None => r matches Err(CommandError::MismatchedQuotes(c)) && c@ == line,
        Some(w) => if w.len() == 0 {
            r matches Err(CommandError::Empty(c)) && c@ == line
        } else {
            r matches Ok(inv) && inv.program@ == w[0] && views_of(inv.args@) == w.subrange(
                1,
                w.len() as int,
            )
        },
    }
}

impl Invocation {
    /// Builds the invocation for `line` from the words that splitting it
    /// gave, or `None` where its quotes did not match: the first word is the
    /// program and the others are its arguments. Errors name `line`.
    pub fn from_words(line: &String, words: Option<Vec<String>>) -> (r: Result<
        Invocation,
        CommandError,
    >)
        ensures
            from_words_matches(
                line@,
                match words {
                    Some(w) => Some(views_of(w@)),
                    None => None,
                },
                r,
            ),
    {
        match words {
            None => Err(CommandError::MismatchedQuotes(line.clone())),
            Some(words) => {
                let n = words.len();
                if n == 0 {
                    return Err(CommandError::Empty(line.clone()));
                }
                let program = words[0].clone();
                let mut args: Vec<String> = Vec::new();
                let mut i: usize = 1;
                while i < n
                    invariant
                        1 <= i <= n,
                        n == words.len(),
                        args@.len() == i - 1,
                        forall|j: int| 0 <= j < args@.len() ==> args@[j]@ == words@[j + 1]@,
                    decreases n - i,
                {
                    args.push(words[i].clone());
                    i = i + 1;
                }
                assert(views_of(args@) =~= views_of(words@).subrange(1, n as int));
                Ok(Invocation { program, args })
            },
        }
    }

    /// Splits a command line into program and arguments as the Bourne shell
    /// splits words, honouring quotes and backslashes.
    pub fn parse(cmd: &String) -> (r: Result<Invocation, CommandError>)
        ensures
            from_words_matches(cmd@, shell_words_of(cmd@), r),
    {
        let words = match split_words(cmd.as_str()) {
            Ok(w) => Some(w),
            Err(_) => None,
        };
        Invocation::from_words(cmd, words)
    }
}

impl ModeCommands {
    /// The command line configured for `mode`.
    pub fn line_for(&self, mode: Mode) -> (r: &String)
        ensures
            r == (if mode == Mode::Light {
                &self.on_light
            } else {
                &self.on_dark
            }),
    {
        match mode {
            Mode::Light => &self.on_light,
            Mode::Dark => &self.on_dark,
        }
    }

    /// The program and arguments that switch the host to `mode`.
    pub fn switch_invocation(&self, mode: Mode) -> (r: Result<Invocation, CommandError>)
        ensures
            ({
                let line = if mode == Mode::Light {
                    self.on_light@
                } else {
                    self.on_dark@
                };
                from_words_matches(line, shell_words_of(line), r)
            }),
    {
        Invocation::parse(self.line_for(mode))
    }
}

} // verus!
