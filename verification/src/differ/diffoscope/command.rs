//! The command that compares two packages.
use crate::differ::error::DiffoscopeError;
use crate::text::{decode_lossy, shown_text, signed_decimal, signed_decimal_of, texts};
use vstd::prelude::*;

verus! {

/// What `shlex::split` makes of a text: the words that a shell would see in it,
/// or nothing where a shell would wait for more.
pub uninterp spec fn shell_words(text: Seq<char>) -> Option<Seq<Seq<char>>>;

/// Words as text.
pub open spec fn words_view(words: Option<Vec<String>>) -> Option<Seq<Seq<char>>> {
    match words {
        Some(words) => Some(texts(words@)),
        None => None,
    }
}

/// Calls `shlex::split`. Of the result it is only claimed that it depends on the
/// text alone.
#[verifier::external_body]
fn split_words(text: &str) -> (r: Option<Vec<String>>)
    ensures
        words_view(r) == shell_words(text@),
{
    shlex::split(text)
}

/// The words of the command line: those of the command, and what to compare.
pub open spec fn command_words(
    command: Seq<Seq<char>>,
    old_binary: Seq<char>,
    new_binary: Seq<char>,
) -> Seq<Seq<char>> {
    command + seq!["--json=-"@, "--exclude-directory-metadata=yes"@, old_binary, new_binary]
}

/// The words of a command with what to compare behind them.
pub fn with_binaries(words: Vec<String>, old_binary: &str, new_binary: &str) -> (r: Vec<String>)
    ensures
        texts(r@) == command_words(texts(words@), old_binary@, new_binary@),
{
    let ghost command = texts(words@);
    let mut args = words;
    args.push("--json=-".to_owned());
    args.push("--exclude-directory-metadata=yes".to_owned());
    args.push(old_binary.to_owned());
    args.push(new_binary.to_owned());
    assert(texts(args@) =~= command_words(command, old_binary@, new_binary@));
    args
}

/// The command line that compares two packages; an error where the command is no
/// list of words.
pub fn diffoscope_args(
    diffoscope_command: Option<&str>,
    old_binary: &str,
    new_binary: &str,
) -> (r: Result<Vec<String>, DiffoscopeError>)
    ensures
        ({
            let command = match diffoscope_command {
                Some(command) => command@,
                None => "diffoscope"@,
            };
            match r {
                Ok(args) => shell_words(command) is Some && texts(args@) == command_words(
                    shell_words(command)->0,
                    old_binary@,
                    new_binary@,
                ),
                Err(e) => shell_words(command) is None && (e matches DiffoscopeError::Other(text)
                    && text@ == "Failed to parse command: "@ + command),
            }
        }),
{
    let command = match diffoscope_command {
        Some(command) => command,
        None => "diffoscope",
    };
    match split_words(command) {
        Some(words) => Ok(with_binaries(words, old_binary, new_binary)),
        None => Err(
            DiffoscopeError::Other("Failed to parse command: ".to_owned().concat(command)),
        ),
    }
}

/// What the end of the command means.
#[derive(Debug)]
pub enum DiffoscopeExit {
    /// There is no difference.
    Same,
    /// Its output is the difference.
    Different,
    /// It failed.
    Failed(DiffoscopeError),
}

/// What the end of the command means, given its exit code, which it has none
/// where a signal ended it, and what it said.
pub fn diffoscope_exit(code: Option<i32>, stderr: &Vec<u8>) -> (r: DiffoscopeExit)
    ensures
        match code {
            Some(code) => if code == 0 {
                r is Same
            } else if code == 1 {
                r is Different
            } else {
                r matches DiffoscopeExit::Failed(DiffoscopeError::Other(text)) && text@
                    == "diffoscope exited with code "@ + signed_decimal(code as int) + ": "@
                    + shown_text(stderr@)
            },
            None => r matches DiffoscopeExit::Failed(DiffoscopeError::Other(text)) && text@
                == "diffoscope killed by signal: "@ + shown_text(stderr@),
        },
{
    match code {
        Some(code) => if code == 0 {
            DiffoscopeExit::Same
        } else if code == 1 {
            DiffoscopeExit::Different
        } else {
            DiffoscopeExit::Failed(
                DiffoscopeError::Other(
                    "diffoscope exited with code ".to_owned().concat(
                        signed_decimal_of(code as i64).as_str(),
                    ).concat(": ").concat(
                        decode_lossy(stderr.as_slice()).as_str(),
                    ),
                ),
            )
        },
        None => DiffoscopeExit::Failed(
            DiffoscopeError::Other(
                "diffoscope killed by signal: ".to_owned().concat(
                    decode_lossy(stderr.as_slice()).as_str(),
                ),
            ),
        ),
    }
}

/// The command line is the command, word by word, and ends with the two packages, the
/// old one first.
pub proof fn lemma_packages_come_last(
    command: Seq<Seq<char>>,
    old_binary: Seq<char>,
    new_binary: Seq<char>,
)
    ensures
        command.is_prefix_of(command_words(command, old_binary, new_binary)),
        command_words(command, old_binary, new_binary).last() == new_binary,
        command_words(command, old_binary, new_binary).drop_last().last() == old_binary,
        command_words(command, old_binary, new_binary).contains("--json=-"@),
        command_words(command, old_binary, new_binary).len() == command.len() + 4,
{
    let words = command_words(command, old_binary, new_binary);
    assert(command =~= words.subrange(0, command.len() as int));
    assert(words[command.len() as int] == "--json=-"@);
}

} // verus!
