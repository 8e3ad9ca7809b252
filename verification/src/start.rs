//! What the program does with the command it is given.

use crate::args;
use crate::args::Arg;
use crate::args::ArgMatches;
use crate::boot::ExitStatus;
use crate::cli::Subcommand;
use crate::settings;
use vstd::prelude::*;
use vstd::string::*;

verus! {

/// What the program does once it is up.
#[derive(Debug)]
pub enum StartAction {
    /// Carry out the command.
    Carry(Subcommand),
    /// Fail because there is no Launcher.
    FailNoLauncher,
    /// Print the text as it is and exit with the status.
    Exit { out: String, status: ExitStatus },
}

/// Whether `action` is what the program does with the command line `parsed`.
pub open spec fn start_fits(
    parsed: Result<Subcommand, String>,
    connected: bool,
    action: StartAction,
) -> bool {
    match (parsed, action) {
        (Ok(command), StartAction::Carry(carried)) => carried == command && (connected || command
            != Subcommand::Run),
        (Ok(command), StartAction::FailNoLauncher) => command == Subcommand::Run && !connected,
        (Err(message), StartAction::Exit { out, status }) => out@ == message@ + "\n"@ && status
            == ExitStatus::ErrNoRetry,
        _ => false,
    }
}

/// What the program does once it is up. `parsed` is the command on the command line, or the
/// message that says what is wrong with it; `connected` says whether there is a Launcher, which
/// a Supervisor needs to run.
pub fn start(parsed: Result<Subcommand, String>, connected: bool) -> (action: StartAction)
    ensures
        match parsed {
            Ok(command) => action == (if command == Subcommand::Run && !connected {
                StartAction::FailNoLauncher
            } else {
                StartAction::Carry(command)
            }),
            Err(message) => action matches StartAction::Exit { out, status } && out@ == message@
                + "\n"@ && status == ExitStatus::ErrNoRetry,
        },
        start_fits(parsed, connected, action),
{
    match parsed {
        Ok(command) => match command {
            Subcommand::Run => if connected {
                StartAction::Carry(command)
            } else {
                StartAction::FailNoLauncher
            },
            _ => StartAction::Carry(command),
        },
        Err(message) => StartAction::Exit {
            out: message.concat("\n"),
            status: ExitStatus::ErrNoRetry,
        },
    }
}

/// The shells that the program can become.
#[derive(Clone, Copy, Debug, PartialEq, Eq, Structural)]
pub enum Shell {
    Bash,
    Sh,
}

/// A shell to become, after output is set up.
#[derive(Clone, Copy, Debug, PartialEq, Eq, Structural)]
pub struct ShellStart {
    /// Whether verbose output is turned on.
    pub verbose: bool,
    /// Whether colored output is turned off.
    pub no_color: bool,
    pub shell: Shell,
}

/// The start of `shell` that a command line asks for.
pub open spec fn shell_for(given: args::Given, shell: Shell) -> ShellStart {
    ShellStart {
        verbose: given.contains_key(Arg::Verbose),
        no_color: given.contains_key(Arg::NoColor),
        shell,
    }
}

/// `bash`: becomes an interactive Bash-like shell.
pub fn sub_bash(m: &ArgMatches) -> (r: ShellStart)
    ensures
        r == (ShellStart {
            verbose: m@.contains_key(Arg::Verbose),
            no_color: m@.contains_key(Arg::NoColor),
            shell: Shell::Bash,
        }),
        r == shell_for(m@, Shell::Bash),
{
    ShellStart {
        verbose: settings::toggle_verbosity(m),
        no_color: settings::toggle_color(m),
        shell: Shell::Bash,
    }
}

/// `sh`: becomes an interactive Bourne-like shell.
pub fn sub_sh(m: &ArgMatches) -> (r: ShellStart)
    ensures
        r == (ShellStart {
            verbose: m@.contains_key(Arg::Verbose),
            no_color: m@.contains_key(Arg::NoColor),
            shell: Shell::Sh,
        }),
        r == shell_for(m@, Shell::Sh),
{
    ShellStart {
        verbose: settings::toggle_verbosity(m),
        no_color: settings::toggle_color(m),
        shell: Shell::Sh,
    }
}

/// How output is set up before a Supervisor is ended.
#[derive(Clone, Copy, Debug, PartialEq, Eq, Structural)]
pub struct TermStart {
    /// Whether verbose output is turned on.
    pub verbose: bool,
    /// Whether colored output is turned off.
    pub no_color: bool,
}

/// How `term` sets up output.
pub open spec fn term_for(given: args::Given) -> TermStart {
    TermStart {
        verbose: given.contains_key(Arg::Verbose),
        no_color: given.contains_key(Arg::NoColor),
    }
}

/// Begins `term`: how output is set up.
pub fn term_start(m: &ArgMatches) -> (r: TermStart)
    ensures
        r == (TermStart {
            verbose: m@.contains_key(Arg::Verbose),
            no_color: m@.contains_key(Arg::NoColor),
        }),
        r == term_for(m@),
{
    TermStart { verbose: settings::toggle_verbosity(m), no_color: settings::toggle_color(m) }
}

/// What came of ending a Supervisor.
#[derive(Debug)]
pub enum TermOutcome<E> {
    /// It ends.
    Terminated,
    /// Its process lock cannot be read: no Supervisor runs.
    ProcessLockIo,
    /// Ending it failed otherwise.
    Failed(E),
}

/// What is printed after `outcome`, or the error that `term` ends with.
pub open spec fn term_end<E>(outcome: TermOutcome<E>) -> Result<Seq<char>, E> {
    match outcome {
        TermOutcome::Terminated => Ok(Seq::empty()),
        TermOutcome::ProcessLockIo => Ok("Supervisor not started.\n"@),
        TermOutcome::Failed(e) => Err(e),
    }
}

/// `term`: what is printed once the Supervisor was told to end, or the error that the command
/// ends with. That none is running is no error.
pub fn sub_term<E>(outcome: TermOutcome<E>) -> (r: Result<&'static str, E>)
    ensures
        match outcome {
            TermOutcome::Terminated => r == Ok::<&'static str, E>(""),
            TermOutcome::ProcessLockIo => r == Ok::<&'static str, E>("Supervisor not started.\n"),
            TermOutcome::Failed(e) => r == Err::<&'static str, E>(e),
        },
        match r {
            Ok(line) => term_end(outcome) == Ok::<Seq<char>, E>(line@),
            Err(e) => term_end(outcome) == Err::<Seq<char>, E>(e),
        },
{
    proof {
        reveal_strlit("");
        assert(""@ =~= Seq::empty());
    }
    match outcome {
        TermOutcome::Terminated => Ok(""),
        TermOutcome::ProcessLockIo => Ok("Supervisor not started.\n"),
        TermOutcome::Failed(e) => Err(e),
    }
}

} // verus!
