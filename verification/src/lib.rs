//! Typed process exit codes: a newtype over a raw status value, a catalog of
//! well-known codes (generic, BSD sysexits, shell/signal conventions), pure
//! classification of I/O failures and child-process completion statuses, and a
//! small error wrapper that carries a code together with an optional message.

mod code;
mod exit;
mod io_kind;

pub mod bash;
pub mod sysexits;

pub use code::Code;
pub use code::ProcessStatus;
pub use code::FAILURE;
pub use code::SUCCESS;
pub use exit::Exit;
pub use exit::ExitResult;
pub use exit::WithCodeResultExt;
pub use exit::report;
pub use io_kind::IoFailure;
pub use io_kind::IoKind;
