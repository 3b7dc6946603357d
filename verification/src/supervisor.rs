//! How the supervisor answers an interrupt and how it reports the daemon's
//! end.

use vstd::prelude::*;
use vstd::string::*;

use crate::outside::signal_name;

verus! {

/// The exit code of a supervisor that is interrupted before the daemon
/// exists: what a process killed by the termination signal reports.
pub const INTERRUPTED_BEFORE_SPAWN: i32 = 143;

/// The offset added to a signal number to make an exit code.
pub const SIGNAL_EXIT_BASE: i32 = 128;

/// The exit code for a daemon that ended with neither a code nor a signal.
pub const UNKNOWN_EXIT: i32 = 1;

/// What to do about an interrupt.
#[derive(Clone, Copy, Debug, PartialEq, Eq, Structural)]
pub enum InterruptAction {
    /// Ask the daemon with this process id to terminate.
    Terminate { pid: u32 },
    /// Leave at once with this exit code.
    Exit { code: i32 },
}

/// Decides what an interrupt does, given the process handle as it reads at
/// that moment: with a daemon, the daemon is asked to terminate; without
/// one, the supervisor leaves and no process is signalled.
pub fn on_interrupt(child: Option<u32>) -> (action: InterruptAction)
    ensures
        action == match child {
            Some(pid) => InterruptAction::Terminate { pid },
            None => InterruptAction::Exit { code: INTERRUPTED_BEFORE_SPAWN },
        },
{
    match child {
        Some(pid) => InterruptAction::Terminate { pid },
        None => InterruptAction::Exit { code: INTERRUPTED_BEFORE_SPAWN },
    }
}

/// The supervisor's exit code for a daemon that ended with `code`, or was
/// ended by `signal`: the code as it is; else 128 plus the signal number;
/// else 1.
pub open spec fn exit_code_of(code: Option<i32>, signal: Option<i32>) -> int {
    match code {
        Some(code) => code as int,
        None => match signal {
            Some(signal) => SIGNAL_EXIT_BASE + signal,
            None => UNKNOWN_EXIT as int,
        },
    }
}

/// Whether the exit code fits the machine's exit status.
pub open spec fn exit_code_fits(code: Option<i32>, signal: Option<i32>) -> bool {
    i32::MIN <= exit_code_of(code, signal) <= i32::MAX
}

/// See [`exit_code_fits`].
pub fn exit_code_is_defined(code: Option<i32>, signal: Option<i32>) -> (fits: bool)
    ensures
        fits == exit_code_fits(code, signal),
{
    match code {
        Some(_) => true,
        None => match signal {
            Some(signal) => signal <= i32::MAX - SIGNAL_EXIT_BASE,
            None => true,
        },
    }
}

/// See [`exit_code_of`].
pub fn exit_code(code: Option<i32>, signal: Option<i32>) -> (status: i32)
    requires
        exit_code_fits(code, signal),
    ensures
        status == exit_code_of(code, signal),
{
    match code {
        Some(code) => code,
        None => match signal {
            Some(signal) => SIGNAL_EXIT_BASE + signal,
            None => UNKNOWN_EXIT,
        },
    }
}

/// The line that reports a daemon ended by a signal.
pub open spec fn notice_text(name: Option<Seq<char>>) -> Seq<char> {
    "PROCESS TERMINATED BY "@ + match name {
        Some(name) => name,
        None => "UNKNOWN SIGNAL"@,
    }
}

/// The text of a signal's name, if it has one.
pub open spec fn opt_name(name: Option<String>) -> Option<Seq<char>> {
    match name {
        Some(name) => Some(name@),
        None => None,
    }
}

/// See [`notice_text`].
pub fn termination_notice(name: Option<String>) -> (line: String)
    ensures
        line@ == notice_text(opt_name(name)),
{
    let mut line = String::from_str("PROCESS TERMINATED BY ");
    match name {
        Some(name) => {
            line.append(name.as_str());
        },
        None => {
            line.append("UNKNOWN SIGNAL");
        },
    }
    line
}

/// The end of the supervisor: its exit code, and the line to print first.
#[derive(Clone, Debug, PartialEq, Eq)]
pub struct ExitReport {
    pub code: i32,
    pub notice: Option<String>,
}

/// Reports the daemon's end. A daemon ended by a signal gets a notice that
/// names the signal as this platform knows it.
pub fn exit_report(code: Option<i32>, signal: Option<i32>) -> (report: ExitReport)
    requires
        exit_code_fits(code, signal),
    ensures
        report.code == exit_code_of(code, signal),
        report.notice is Some <==> code is None && signal is Some,
        report.notice matches Some(line) ==> exists|name: Option<Seq<char>>|
            line@ == #[trigger] notice_text(name),
{
    let notice = match (code, signal) {
        (None, Some(number)) => {
            let name = signal_name(number);
            let line = termination_notice(name);
            Some(line)
        },
        _ => None,
    };
    ExitReport { code: exit_code(code, signal), notice }
}

} // verus!
