//! The command line: three arguments, the last of which names the command.

use vstd::prelude::*;
use vstd::string::StringExecFns;

verus! {

/// What the program is asked to do.
#[derive(Clone, Copy, Debug, PartialEq, Eq, Structural)]
pub enum Command {
    /// Report the version of the interface.
    Version,
    /// Report whether the program applies to the project.
    Applicable,
    /// Report the out-of-date dependencies.
    Run,
}

/// The arguments of one invocation.
#[derive(Clone, Debug)]
pub struct AnalyzerArgs {
    /// The project's directory.
    pub dir: String,
    /// The commit under analysis.
    pub commit: String,
    pub command: Command,
}

/// Why a command line was turned down.
#[derive(Clone, Copy, Debug, PartialEq, Eq, Structural)]
pub enum ArgsError {
    /// There are not exactly three arguments after the program's name.
    WrongCount,
    /// The third argument names no command.
    UnknownCommand,
}

/// The command that `keyword` names, if it names one.
pub open spec fn command_of(keyword: Seq<char>) -> Option<Command> {
    if keyword == "version"@ {
        Some(Command::Version)
    } else if keyword == "applicable"@ {
        Some(Command::Applicable)
    } else if keyword == "run"@ {
        Some(Command::Run)
    } else {
        None
    }
}

/// Each of the three keywords names its own command.
pub proof fn lemma_keywords_name_their_commands()
    ensures
        command_of("version"@) == Some(Command::Version),
        command_of("applicable"@) == Some(Command::Applicable),
        command_of("run"@) == Some(Command::Run),
{
    reveal_strlit("version");
    reveal_strlit("applicable");
    reveal_strlit("run");
    assert("version"@.len() == 7);
    assert("applicable"@.len() == 10);
    assert("run"@.len() == 3);
}

/// The command that `keyword` names: `version`, `applicable` or `run`, and
/// nothing else.
pub fn validate_command(keyword: &str) -> (command: Option<Command>)
    ensures
        command == command_of(keyword@),
{
    let keyword = String::from_str(keyword);
    if keyword == String::from_str("version") {
        Some(Command::Version)
    } else if keyword == String::from_str("applicable") {
        Some(Command::Applicable)
    } else if keyword == String::from_str("run") {
        Some(Command::Run)
    } else {
        None
    }
}

/// What a command line of these arguments asks for, the program's name being
/// the first of them.
pub open spec fn parsed_args(args: Seq<String>) -> Result<
    (Seq<char>, Seq<char>, Command),
    ArgsError,
> {
    if args.len() != 4 {
        Err(ArgsError::WrongCount)
    } else {
        match command_of(args[3]@) {
            Some(command) => Ok((args[1]@, args[2]@, command)),
            None => Err(ArgsError::UnknownCommand),
        }
    }
}

/// A command line with fewer or more than three arguments after the
/// program's name is turned down, whatever the arguments are.
pub proof fn lemma_wrong_count_is_turned_down(args: Seq<String>)
    requires
        args.len() != 4,
    ensures
        parsed_args(args) == Err::<(Seq<char>, Seq<char>, Command), ArgsError>(
            ArgsError::WrongCount,
        ),
{
}

/// Reads a command line: the program's name, a directory, a commit and a
/// command, no more and no less.
pub fn parse_args(args: &Vec<String>) -> (parsed: Result<AnalyzerArgs, ArgsError>)
    ensures
        match parsed {
            Ok(found) => parsed_args(args@) == Ok::<(Seq<char>, Seq<char>, Command), ArgsError>(
                (found.dir@, found.commit@, found.command),
            ),
            Err(error) => parsed_args(args@) == Err::<(Seq<char>, Seq<char>, Command), ArgsError>(
                error,
            ),
        },
{
    if args.len() != 4 {
        return Err(ArgsError::WrongCount);
    }
    match validate_command(args[3].as_str()) {
        Some(command) => Ok(
            AnalyzerArgs { dir: args[1].clone(), commit: args[2].clone(), command },
        ),
        None => Err(ArgsError::UnknownCommand),
    }
}

/// The version of the interface that the program speaks.
pub fn version() -> (answer: &'static str)
    ensures
        answer@ == "1"@,
{
    "1"
}

/// The answer to whether the program applies to a project: `true` where the
/// project has a lockfile, `false` where it has none.
pub fn applicable(lockfile_exists: bool) -> (answer: &'static str)
    ensures
        answer@ == if lockfile_exists {
            "true"@
        } else {
            "false"@
        },
{
    if lockfile_exists {
        "true"
    } else {
        "false"
    }
}

} // verus!
