//! What holds of the way commands are begun and ended.

use crate::args;
use crate::args::Arg;
use crate::boot::ExitStatus;
use crate::cli::Subcommand;
use crate::start;
use crate::start::Shell;
use crate::start::StartAction;
use crate::start::TermOutcome;
use vstd::prelude::*;

verus! {

/// Every command is carried out as it is, with a Launcher or without one, but for `run`, which
/// fails exactly where there is none. A command line that is refused is answered with its message
/// on a line of its own, and the status that rules out starting again.
pub proof fn law_start(
    parsed: Result<Subcommand, String>,
    connected: bool,
    action: StartAction,
)
    requires
        start::start_fits(parsed, connected, action),
    ensures
        parsed matches Ok(command) ==> (command != Subcommand::Run || connected) ==> action
            == StartAction::Carry(command),
        action is FailNoLauncher <==> parsed == Ok::<Subcommand, String>(Subcommand::Run)
            && !connected,
        parsed matches Err(message) ==> action is Exit && action->out@ == message@ + "\n"@
            && action->status == ExitStatus::ErrNoRetry,
        action is Exit <==> parsed is Err,
{
}

/// Both shells, and `term`, set up output as the command line asks for it: the one flag has no say
/// in what the other does, and nothing but the shell tells the shells apart.
pub proof fn law_output(given: args::Given)
    ensures
        start::shell_for(given, Shell::Bash).shell == Shell::Bash,
        start::shell_for(given, Shell::Sh).shell == Shell::Sh,
        start::shell_for(given, Shell::Bash).verbose <==> given.contains_key(Arg::Verbose),
        start::shell_for(given, Shell::Bash).no_color <==> given.contains_key(Arg::NoColor),
        start::shell_for(given, Shell::Sh).verbose <==> given.contains_key(Arg::Verbose),
        start::shell_for(given, Shell::Sh).no_color <==> given.contains_key(Arg::NoColor),
        start::term_for(given).verbose <==> given.contains_key(Arg::Verbose),
        start::term_for(given).no_color <==> given.contains_key(Arg::NoColor),
{
}

/// `term` fails exactly with the error that ending the Supervisor failed with; that none runs is
/// said and is no error, and otherwise nothing is said.
pub proof fn law_term<E>(outcome: TermOutcome<E>)
    ensures
        start::term_end(outcome) is Err <==> outcome is Failed,
        outcome matches TermOutcome::Failed(e) ==> start::term_end(outcome)->Err_0 == e,
        outcome is ProcessLockIo ==> start::term_end(outcome)->Ok_0 == "Supervisor not started.\n"@,
        outcome is Terminated ==> start::term_end(outcome)->Ok_0.len() == 0,
{
}

} // verus!
