//! The `Code` value type: a wrapping integer exit status with well-known
//! constants and portability predicates.

use vstd::prelude::*;

use crate::exit::Exit;
use crate::exit::ExitResult;

verus! {

/// How a child process completed, as far as the host reports it: a normal
/// exit with a numeric status, termination by a numbered signal, or neither.
///
/// Callers translate the host's own completion-status value into this type
/// before asking the library for the matching exit code.
#[derive(Clone, Copy, Debug, PartialEq, Eq, Structural)]
pub enum ProcessStatus {
    /// The process exited normally with the given status value.
    Exited(i32),
    /// The process was terminated by the signal with the given number.
    Signaled(i32),
    /// The host reports neither a status value nor a signal.
    Unknown,
}

/// A process exit code, wrapping a raw `i32` status value.
///
/// Equality and copying are by value; any integer can be held, but only
/// values in `0..=255` are portable across host operating systems.
#[derive(Clone, Copy, Debug, PartialEq, Eq, Structural)]
pub struct Code(pub i32);

/// Raw value of [`Code::SUCCESS`]: the process exited successfully.
pub const SUCCESS: i32 = 0;

/// Raw value of [`Code::FAILURE`]: generic failure.
pub const FAILURE: i32 = 1;

impl Code {
    /// The process exited successfully.
    pub fn success() -> (r: Self)
        ensures
            r == Code(SUCCESS),
    {
        Code(SUCCESS)
    }

    /// Generic failure.
    pub fn failure() -> (r: Self)
        ensures
            r == Code(FAILURE),
    {
        Code(FAILURE)
    }

    /// The raw value a `Code` was created from.
    pub open spec fn spec_as_raw(self) -> i32 {
        self.0
    }

    /// The code a raw value wraps into.
    pub open spec fn spec_new(code: i32) -> Code {
        Code(code)
    }

    /// Create a custom exit code from any raw value; nothing is validated.
    #[verifier::when_used_as_spec(spec_new)]
    pub fn new(code: i32) -> (r: Self)
        ensures
            r == Code(code),
    {
        Code(code)
    }

    /// Convert to the raw value, unchanged.
    #[verifier::when_used_as_spec(spec_as_raw)]
    pub fn as_raw(self) -> (raw: i32)
        ensures
            raw == self.0,
    {
        self.0
    }

    /// Whether this code reports success.
    pub open spec fn spec_is_ok(self) -> bool {
        self.0 == SUCCESS
    }

    /// Determines whether this code reports success (raw value `0`).
    #[verifier::when_used_as_spec(spec_is_ok)]
    pub fn is_ok(self) -> (r: bool)
        ensures
            r == (self.0 == SUCCESS),
    {
        self.0 == SUCCESS
    }

    /// Determines whether this code reports a failure of any kind.
    pub fn is_err(self) -> (r: bool)
        ensures
            r == !self.is_ok(),
    {
        !self.is_ok()
    }

    /// Whether the raw value lies in the range every host can report.
    pub open spec fn spec_is_portable(self) -> bool {
        0 <= self.0 <= 255
    }

    /// Test whether this exit code is portable across platforms.
    ///
    /// While some hosts have wider types for exit statuses, Unix systems
    /// tend to only support 8 bits, stripping off the higher order bits.
    #[verifier::when_used_as_spec(spec_is_portable)]
    pub fn is_portable(self) -> (r: bool)
        ensures
            r == (0 <= self.0 <= 255),
    {
        0 <= self.0 && self.0 <= 255
    }

    /// The portable codes pass through `coerce` unchanged; the rest are lost.
    pub open spec fn spec_coerce(self) -> Option<Code> {
        if self.spec_is_portable() {
            Some(self)
        } else {
            None
        }
    }

    /// Keep this code if it is portable, else report that it cannot be
    /// represented on every platform.
    #[verifier::when_used_as_spec(spec_coerce)]
    pub fn coerce(self) -> (r: Option<Code>)
        ensures
            r == self.spec_coerce(),
    {
        if self.is_portable() {
            Some(self)
        } else {
            None
        }
    }

    /// Convert a child process's completion status to a `Code`.
    ///
    /// A normal exit keeps its status value; termination by signal `N`
    /// becomes the shell convention `128 + N`; when the host reports
    /// neither, the default `FAILURE` stands in.
    pub fn from_status(status: ProcessStatus) -> (r: Self)
        requires
            status matches ProcessStatus::Signaled(n) ==> n <= i32::MAX - 128,
        ensures
            status matches ProcessStatus::Exited(n) ==> r == Code(n),
            status matches ProcessStatus::Signaled(n) ==> r.0 == 128 + n,
            status is Unknown ==> r == Code(FAILURE),
    {
        match status {
            ProcessStatus::Exited(n) => Code(n),
            ProcessStatus::Signaled(n) => Code(128 + n),
            ProcessStatus::Unknown => Code(FAILURE),
        }
    }

    /// Convert to a `Result`: success for `SUCCESS`, else an `Exit` error
    /// wrapping this code, with no message.
    pub fn ok(self) -> (r: ExitResult)
        ensures
            self.is_ok() ==> r is Ok,
            !self.is_ok() ==> (r matches Err(e) && e.code == self && e.msg is None),
    {
        if self.is_ok() {
            Ok(())
        } else {
            Err(Exit::new(self))
        }
    }

    /// Convert to the `Exit` error type, with no message.
    pub fn as_exit(self) -> (r: Exit)
        ensures
            r.code == self,
            r.msg is None,
    {
        Exit::new(self)
    }

    /// Convert to the `Exit` error type, carrying a user-visible message.
    pub fn with_message(self, msg: String) -> (r: Exit)
        ensures
            r.code == self,
            r.msg == Some(msg),
    {
        self.as_exit().with_message(msg)
    }

    /// Whether the raw value falls in one of the documented named ranges.
    pub open spec fn spec_is_reserved(self) -> bool {
        ||| 0 <= self.0 <= 2
        ||| 64 <= self.0 <= 78
        ||| 126 <= self.0 <= 143
    }

    /// Test whether this code collides with a documented named range: the
    /// generic codes `0..=2`, the sysexits range `64..=78`, the shell codes
    /// `126..=128`, or a signal code `128 + 1 ..= 128 + 15`.
    ///
    /// Callers picking custom codes can use this to avoid colliding with a
    /// code that already carries a meaning.
    #[verifier::when_used_as_spec(spec_is_reserved)]
    pub fn is_reserved(self) -> (r: bool)
        ensures
            r == self.spec_is_reserved(),
    {
        (0 <= self.0 && self.0 <= 2) || (64 <= self.0 && self.0 <= 78) || (126 <= self.0
            && self.0 <= 143)
    }

    /// Convert to a portable, raw value; `None` when out of range.
    pub fn as_portable(self) -> (r: Option<u8>)
        ensures
            self.is_portable() ==> r == Some(self.0 as u8),
            !self.is_portable() ==> r is None,
    {
        if self.is_portable() {
            Some(self.0 as u8)
        } else {
            None
        }
    }
}

/// Wrapping a raw value loses nothing: reading the raw value back gives the
/// integer the code was created from, for every integer.
pub proof fn lemma_new_as_raw_round_trip(n: i32)
    ensures
        Code::new(n).as_raw() == n,
{
}

/// Portability is exactly the range `0..=255`: a code is portable if and
/// only if its raw value lies in it.
pub proof fn lemma_is_portable_range(n: i32)
    ensures
        Code::new(n).is_portable() <==> 0 <= n <= 255,
{
}

/// `coerce` is idempotent, treating "no value" as absorbing: coercing the
/// result of a coercion changes nothing.
pub proof fn lemma_coerce_idempotent(code: Code)
    ensures
        (match code.coerce() {
            Some(c) => c.coerce(),
            None => None,
        }) == code.coerce(),
{
}

/// Of the named codes in the catalog, only the successful exit reports
/// success: `SUCCESS` (and its sysexits alias `OK`) satisfies `is_ok`, and
/// every other named constant does not.
pub proof fn lemma_only_success_is_ok()
    ensures
        Code(SUCCESS).is_ok(),
        Code(crate::sysexits::OK) == Code(SUCCESS),
        !Code(FAILURE).is_ok(),
        !Code(crate::bash::USAGE).is_ok(),
        !Code(crate::bash::NOT_EXECUTABLE).is_ok(),
        !Code(crate::bash::NOT_FOUND).is_ok(),
        !Code(crate::bash::INVALID_EXIT).is_ok(),
        !Code(crate::bash::STATUS_OUT_OF_RANGE).is_ok(),
        !Code(crate::bash::SIGHUP).is_ok(),
        !Code(crate::bash::SIGINT).is_ok(),
        !Code(crate::bash::SIGQUIT).is_ok(),
        !Code(crate::bash::SIGILL).is_ok(),
        !Code(crate::bash::SIGTRAP).is_ok(),
        !Code(crate::bash::SIGABRT).is_ok(),
        !Code(crate::bash::SIGFPE).is_ok(),
        !Code(crate::bash::SIGKILL).is_ok(),
        !Code(crate::bash::SIGSEGV).is_ok(),
        !Code(crate::bash::SIGPIPE).is_ok(),
        !Code(crate::bash::SIGALRM).is_ok(),
        !Code(crate::bash::SIGTERM).is_ok(),
        !Code(crate::sysexits::USAGE_ERR).is_ok(),
        !Code(crate::sysexits::DATA_ERR).is_ok(),
        !Code(crate::sysexits::NO_INPUT).is_ok(),
        !Code(crate::sysexits::NO_USER).is_ok(),
        !Code(crate::sysexits::NO_HOST).is_ok(),
        !Code(crate::sysexits::SERVICE_UNAVAILABLE).is_ok(),
        !Code(crate::sysexits::SOFTWARE_ERR).is_ok(),
        !Code(crate::sysexits::OS_ERR).is_ok(),
        !Code(crate::sysexits::OS_FILE_ERR).is_ok(),
        !Code(crate::sysexits::CANT_CREAT).is_ok(),
        !Code(crate::sysexits::IO_ERR).is_ok(),
        !Code(crate::sysexits::TEMP_FAIL).is_ok(),
        !Code(crate::sysexits::PROTOCOL_ERR).is_ok(),
        !Code(crate::sysexits::NO_PERM).is_ok(),
        !Code(crate::sysexits::CONFIG_ERR).is_ok(),
{
}

impl Default for Code {
    /// The default is `FAILURE`, chosen so that `coerce` plus a default never
    /// silently reports success when a code was out of range.
    fn default() -> (d: Self)
        ensures
            d == Code(FAILURE),
    {
        Code(FAILURE)
    }
}

impl From<i32> for Code {
    /// Converts an `i32` primitive integer to an exit code.
    fn from(n: i32) -> (r: Self) {
        Code(n)
    }
}

impl vstd::std_specs::convert::FromSpecImpl<i32> for Code {
    open spec fn obeys_from_spec() -> bool {
        true
    }

    open spec fn from_spec(n: i32) -> Code {
        Code(n)
    }
}

} // verus!
