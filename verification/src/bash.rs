//! Shell exit-code conventions: the codes a shell itself reports, and the
//! `128 + N` codes for termination by POSIX signal `N`.

use vstd::prelude::*;

use crate::code::Code;
use crate::io_kind::IoKind;

verus! {

/// Command line usage error.
///
/// Shells document this as misuse of shell builtins; it is more broadly
/// interpreted as a general usage error.
pub const USAGE: i32 = 2;

/// Command was found but is not executable by the shell.
pub const NOT_EXECUTABLE: i32 = 126;

/// Usually indicates that the command was not found by the shell, or that
/// the command is found but that a library it requires is not found.
pub const NOT_FOUND: i32 = 127;

/// Invalid argument to the shell's own exit.
pub const INVALID_EXIT: i32 = 128;

/// Exit status out of range: a shell's exit takes only integer arguments
/// in the range 0 - 255.
pub const STATUS_OUT_OF_RANGE: i32 = 255;

/// The base the shell adds a terminating signal's number to.
pub const SIGBASE: i32 = 128;

/// The `SIGHUP` signal is sent to a process when its controlling terminal
/// is closed.
pub const SIGHUP: i32 = SIGBASE + 1;

/// The `SIGINT` signal is sent to a process by its controlling terminal
/// when a user wishes to interrupt the process.
pub const SIGINT: i32 = SIGBASE + 2;

/// The `SIGQUIT` signal is sent to a process by its controlling terminal
/// when a user quits from the keyboard.
pub const SIGQUIT: i32 = SIGBASE + 3;

/// The `SIGILL` signal is sent to a process when an illegal instruction
/// is encountered.
pub const SIGILL: i32 = SIGBASE + 4;

/// The `SIGTRAP` signal is sent to a process when there is a
/// trace/breakpoint trap.
pub const SIGTRAP: i32 = SIGBASE + 5;

/// The `SIGABRT` signal is the process abort signal.
pub const SIGABRT: i32 = SIGBASE + 6;

/// The `SIGFPE` signal is sent to a process on an erroneous arithmetic
/// operation.
pub const SIGFPE: i32 = SIGBASE + 8;

/// The `SIGKILL` signal is sent to a process to cause it to terminate
/// immediately; it cannot be caught or ignored.
pub const SIGKILL: i32 = SIGBASE + 9;

/// The `SIGSEGV` signal is sent to a process on an invalid memory
/// reference.
pub const SIGSEGV: i32 = SIGBASE + 11;

/// The `SIGPIPE` signal is sent to a process when it attempts to write to
/// a pipe without a process connected to the other end.
pub const SIGPIPE: i32 = SIGBASE + 13;

/// The `SIGALRM` signal is sent to a process when a previously set alarm
/// elapses.
pub const SIGALRM: i32 = SIGBASE + 14;

/// The `SIGTERM` signal is sent to a process to request its termination;
/// unlike `SIGKILL` it can be caught or ignored.
pub const SIGTERM: i32 = SIGBASE + 15;

/// The shell reports termination by POSIX signal `N` as exit status
/// `128 + N`: each named signal code equals the base plus its signal's
/// number.
pub proof fn lemma_signal_codes()
    ensures
        SIGBASE == 128,
        SIGHUP == SIGBASE + 1,
        SIGINT == SIGBASE + 2,
        SIGQUIT == SIGBASE + 3,
        SIGILL == SIGBASE + 4,
        SIGTRAP == SIGBASE + 5,
        SIGABRT == SIGBASE + 6,
        SIGFPE == SIGBASE + 8,
        SIGKILL == SIGBASE + 9,
        SIGSEGV == SIGBASE + 11,
        SIGPIPE == SIGBASE + 13,
        SIGALRM == SIGBASE + 14,
        SIGTERM == SIGBASE + 15,
{
}

/// The signal-equivalence mapping: the three I/O failure categories that
/// behave like a delivered signal, and no others, map to that signal's
/// shell code.
pub open spec fn spec_io_to_signal(kind: IoKind) -> Option<Code> {
    match kind {
        IoKind::BrokenPipe => Some(Code(SIGPIPE)),
        IoKind::TimedOut => Some(Code(SIGALRM)),
        IoKind::Interrupted => Some(Code(SIGINT)),
        _ => None,
    }
}

/// Map an I/O failure category to the shell code of the signal it behaves
/// like, where there is one.
#[verifier::when_used_as_spec(spec_io_to_signal)]
pub fn io_to_signal(kind: IoKind) -> (r: Option<Code>)
    ensures
        r == spec_io_to_signal(kind),
{
    match kind {
        IoKind::BrokenPipe => Some(Code(SIGPIPE)),
        IoKind::TimedOut => Some(Code(SIGALRM)),
        IoKind::Interrupted => Some(Code(SIGINT)),
        _ => None,
    }
}

} // verus!
