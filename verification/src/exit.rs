//! The `Exit` error wrapper: one exit code paired with an optional message,
//! and the reporting entry point that consumes it.

use std::io::Write;

use vstd::prelude::*;

use crate::code::Code;
use crate::code::SUCCESS;

verus! {

/// The result type a `main`-style entry point hands to [`report`].
pub type ExitResult = Result<(), Exit>;

/// Error type for exiting programs: an exit code, and an optional message
/// for the error stream.
#[derive(Debug)]
pub struct Exit {
    /// The code the process should terminate with.
    pub code: Code,
    /// The message to print on the error stream, if any.
    pub msg: Option<String>,
}

impl Exit {
    /// Wrap a code with no message attached.
    pub fn new(code: Code) -> (r: Self)
        ensures
            r.code == code,
            r.msg is None,
    {
        Exit { code, msg: None }
    }

    /// Attach a user-visible message, replacing any previous one.
    pub fn with_message(self, msg: String) -> (r: Self)
        ensures
            r.code == self.code,
            r.msg == Some(msg),
    {
        Exit { code: self.code, msg: Some(msg) }
    }

    /// The text this error displays: its message if present, else nothing.
    ///
    /// The numeric code is not part of the displayed text; it is communicated
    /// solely through the process exit status.
    pub fn display_text(&self) -> (r: &str)
        ensures
            self.msg matches Some(m) ==> r@ == m@,
            self.msg is None ==> r@ =~= Seq::<char>::empty(),
    {
        match &self.msg {
            Some(m) => m.as_str(),
            None => {
                let empty: &str = "";
                proof {
                    reveal_strlit("");
                }
                empty
            },
        }
    }
}

/// Extension for converting errors to `Exit`.
pub trait WithCodeResultExt<T>: Sized {
    /// Convert an error into an `Exit` carrying a caller-chosen code and the
    /// error's display text.
    fn with_code(self, code: Code) -> (r: Result<T, Exit>);
}

impl<T> WithCodeResultExt<T> for Result<T, String> {
    fn with_code(self, code: Code) -> (r: Result<T, Exit>)
        ensures
            self matches Ok(t) ==> r matches Ok(rt) && rt == t,
            self matches Err(m) ==> r matches Err(e) && e.code == code && e.msg == Some(m),
    {
        match self {
            Ok(t) => Ok(t),
            Err(m) => Err(Exit::new(code).with_message(m)),
        }
    }
}

/// Relies on the `writeln` macro over `std::io::Stderr`: a best-effort write
/// of one line to the error stream; a failure to write is swallowed, and
/// nothing is promised of the call.
#[verifier::external_body]
fn write_err_line(msg: &String) {
    let _ = writeln!(std::io::stderr(), "{}", msg);
}

/// Report the result, delegating exiting to the caller: success returns
/// `SUCCESS`; a failure has its message, if any, written to the error stream
/// (best-effort) and its code returned unchanged.
pub fn report(result: ExitResult) -> (code: Code)
    ensures
        result is Ok ==> code == Code(SUCCESS),
        result matches Err(e) ==> code == e.code,
{
    match result {
        Ok(()) => Code::success(),
        Err(err) => {
            let Exit { code, msg } = err;
            match msg {
                Some(m) => {
                    // We might be failing because of a broken pipe: do our
                    // best and move on.
                    write_err_line(&m);
                },
                None => {},
            }
            code
        },
    }
}

} // verus!
