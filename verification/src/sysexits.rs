//! The BSD `sysexits` convention: named codes 64 - 78 that say *why* a
//! program failed, and the classification of I/O failures into them.

use vstd::prelude::*;

use crate::bash;
use crate::code::Code;
use crate::code::FAILURE;
use crate::exit::Exit;
use crate::io_kind::IoFailure;
use crate::io_kind::IoKind;

verus! {

/// The process exited successfully.
pub const OK: i32 = 0;

/// The command was used incorrectly, e.g. with the wrong number of
/// arguments, a bad flag, or bad syntax in a parameter.
pub const USAGE_ERR: i32 = 64;

/// The input data was incorrect in some way.  This should only be used for
/// the user's data and not system files.
pub const DATA_ERR: i32 = 65;

/// An input file (not a system file) did not exist or was not readable.
pub const NO_INPUT: i32 = 66;

/// The user specified did not exist.  This might be used for mail
/// addresses or remote logins.
pub const NO_USER: i32 = 67;

/// The host specified did not exist.  This is used in mail addresses or
/// network requests.
pub const NO_HOST: i32 = 68;

/// A service is unavailable.  This can occur if a support program or file
/// does not exist, or as a catch-all when something does not work and the
/// reason is unknown.
pub const SERVICE_UNAVAILABLE: i32 = 69;

/// An internal software error has been detected.  This should be limited
/// to non-operating-system-related errors if possible.
pub const SOFTWARE_ERR: i32 = 70;

/// An operating system error has been detected, such as a failure to fork
/// or to create a pipe.
pub const OS_ERR: i32 = 71;

/// Some system file does not exist, cannot be opened, or has some sort of
/// error.
pub const OS_FILE_ERR: i32 = 72;

/// A (user specified) output file cannot be created.
pub const CANT_CREAT: i32 = 73;

/// An error occurred while doing I/O on some file.
pub const IO_ERR: i32 = 74;

/// Temporary failure, indicating something that is not really an error,
/// where the request should be reattempted later.
pub const TEMP_FAIL: i32 = 75;

/// The remote system returned something that was not possible during a
/// protocol exchange.
pub const PROTOCOL_ERR: i32 = 76;

/// There was not sufficient permission to perform the operation.  This is
/// meant for high-level permissions, not file system problems.
pub const NO_PERM: i32 = 77;

/// Something was found in an unconfigured or misconfigured state.
pub const CONFIG_ERR: i32 = 78;

/// The named sysexits codes, in catalog order, from `USAGE_ERR` up to
/// `CONFIG_ERR`.
pub open spec fn table() -> Seq<int> {
    seq![
        USAGE_ERR as int,
        DATA_ERR as int,
        NO_INPUT as int,
        NO_USER as int,
        NO_HOST as int,
        SERVICE_UNAVAILABLE as int,
        SOFTWARE_ERR as int,
        OS_ERR as int,
        OS_FILE_ERR as int,
        CANT_CREAT as int,
        IO_ERR as int,
        TEMP_FAIL as int,
        PROTOCOL_ERR as int,
        NO_PERM as int,
        CONFIG_ERR as int,
    ]
}

/// The named sysexits codes fill the range `64..=78` exactly: the table's
/// entry at position `i` is `64 + i`, so the fifteen codes are contiguous,
/// in order, with no gaps and no duplicates.
pub proof fn lemma_sysexits_contiguous()
    ensures
        table().len() == 15,
        forall|i: int| 0 <= i < 15 ==> #[trigger] table()[i] == 64 + i,
{
    assert forall|i: int| 0 <= i < 15 implies #[trigger] table()[i] == 64 + i by {
        assert(table()[0] == 64);
        assert(table()[1] == 65);
        assert(table()[2] == 66);
        assert(table()[3] == 67);
        assert(table()[4] == 68);
        assert(table()[5] == 69);
        assert(table()[6] == 70);
        assert(table()[7] == 71);
        assert(table()[8] == 72);
        assert(table()[9] == 73);
        assert(table()[10] == 74);
        assert(table()[11] == 75);
        assert(table()[12] == 76);
        assert(table()[13] == 77);
        assert(table()[14] == 78);
    }
}

/// The sysexits-flavored part of the I/O classification: the categories
/// with a named sysexits (or generic-failure) counterpart, and no others,
/// map to it.
pub open spec fn spec_io_to_sysexists(kind: IoKind) -> Option<Code> {
    match kind {
        IoKind::NotFound => Some(Code(OS_FILE_ERR)),
        IoKind::PermissionDenied => Some(Code(NO_PERM)),
        IoKind::ConnectionRefused => Some(Code(PROTOCOL_ERR)),
        IoKind::ConnectionReset => Some(Code(PROTOCOL_ERR)),
        IoKind::ConnectionAborted => Some(Code(PROTOCOL_ERR)),
        IoKind::NotConnected => Some(Code(PROTOCOL_ERR)),
        IoKind::AddrInUse => Some(Code(SERVICE_UNAVAILABLE)),
        IoKind::AddrNotAvailable => Some(Code(SERVICE_UNAVAILABLE)),
        IoKind::AlreadyExists => Some(Code(CANT_CREAT)),
        IoKind::InvalidInput => Some(Code(DATA_ERR)),
        IoKind::InvalidData => Some(Code(DATA_ERR)),
        IoKind::UnexpectedEof => Some(Code(DATA_ERR)),
        IoKind::WriteZero => Some(Code(NO_INPUT)),
        IoKind::Other => Some(Code(FAILURE)),
        _ => None,
    }
}

/// Map an I/O failure category to its sysexits-flavored code, where there
/// is one.
#[verifier::when_used_as_spec(spec_io_to_sysexists)]
pub fn io_to_sysexists(kind: IoKind) -> (r: Option<Code>)
    ensures
        r == spec_io_to_sysexists(kind),
{
    match kind {
        IoKind::NotFound => Some(Code(OS_FILE_ERR)),
        IoKind::PermissionDenied => Some(Code(NO_PERM)),
        IoKind::ConnectionRefused => Some(Code(PROTOCOL_ERR)),
        IoKind::ConnectionReset => Some(Code(PROTOCOL_ERR)),
        IoKind::ConnectionAborted => Some(Code(PROTOCOL_ERR)),
        IoKind::NotConnected => Some(Code(PROTOCOL_ERR)),
        IoKind::AddrInUse => Some(Code(SERVICE_UNAVAILABLE)),
        IoKind::AddrNotAvailable => Some(Code(SERVICE_UNAVAILABLE)),
        IoKind::AlreadyExists => Some(Code(CANT_CREAT)),
        IoKind::InvalidInput => Some(Code(DATA_ERR)),
        IoKind::InvalidData => Some(Code(DATA_ERR)),
        IoKind::UnexpectedEof => Some(Code(DATA_ERR)),
        IoKind::WriteZero => Some(Code(NO_INPUT)),
        IoKind::Other => Some(Code(FAILURE)),
        _ => None,
    }
}

/// The full I/O classification: a total, deterministic mapping from every
/// failure category to exactly one code, with `IO_ERR` as the fallback for
/// the categories no table names.
pub open spec fn io_code(kind: IoKind) -> Code {
    match kind {
        IoKind::NotFound => Code(OS_FILE_ERR),
        IoKind::PermissionDenied => Code(NO_PERM),
        IoKind::ConnectionRefused => Code(PROTOCOL_ERR),
        IoKind::ConnectionReset => Code(PROTOCOL_ERR),
        IoKind::ConnectionAborted => Code(PROTOCOL_ERR),
        IoKind::NotConnected => Code(PROTOCOL_ERR),
        IoKind::AddrInUse => Code(SERVICE_UNAVAILABLE),
        IoKind::AddrNotAvailable => Code(SERVICE_UNAVAILABLE),
        IoKind::BrokenPipe => Code(bash::SIGPIPE),
        IoKind::AlreadyExists => Code(CANT_CREAT),
        IoKind::InvalidInput => Code(DATA_ERR),
        IoKind::InvalidData => Code(DATA_ERR),
        IoKind::UnexpectedEof => Code(DATA_ERR),
        IoKind::TimedOut => Code(bash::SIGALRM),
        IoKind::WriteZero => Code(NO_INPUT),
        IoKind::Interrupted => Code(bash::SIGINT),
        IoKind::Other => Code(FAILURE),
        IoKind::Unclassified => Code(IO_ERR),
    }
}

/// The full I/O classification agrees with its two tables: it is the
/// sysexits-flavored mapping, completed by the signal mapping, with
/// `IO_ERR` for whatever neither names.
pub proof fn lemma_io_code_is_total_lookup(kind: IoKind)
    ensures
        io_code(kind) == (match spec_io_to_sysexists(kind) {
            Some(c) => c,
            None => match bash::spec_io_to_signal(kind) {
                Some(c) => c,
                None => Code(IO_ERR),
            },
        }),
{
}

/// Extension for converting errors to `Exit`.
pub trait ToSysexitsResultExt<T>: Sized {
    /// Classify an I/O failure and wrap it as an `Exit` carrying its
    /// display text.
    fn to_sysexits(self) -> (r: Result<T, Exit>);
}

impl<T> ToSysexitsResultExt<T> for Result<T, IoFailure> {
    fn to_sysexits(self) -> (r: Result<T, Exit>)
        ensures
            self matches Ok(t) ==> r matches Ok(rt) && rt == t,
            self matches Err(f) ==> r matches Err(e) && e.code == io_code(f.kind) && e.msg
                == Some(f.message),
    {
        match self {
            Ok(t) => Ok(t),
            Err(f) => {
                let IoFailure { kind, message } = f;
                let code = match io_to_sysexists(kind) {
                    Some(c) => c,
                    None => match bash::io_to_signal(kind) {
                        Some(c) => c,
                        None => Code(IO_ERR),
                    },
                };
                Err(Exit::new(code).with_message(message))
            },
        }
    }
}

} // verus!
