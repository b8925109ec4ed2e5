//! Kernel error taxonomy.
//!
//! Resource exhaustion and caller-input violations are reported as values of
//! this enum; only detected internal inconsistencies (none of which can
//! arise in the verified code paths) would warrant a halt.

use vstd::prelude::*;

verus! {

/// The error kinds the kernel core reports to its callers.
#[derive(Clone, Copy, Debug, PartialEq, Eq, Structural)]
pub enum OsError {
    /// The named file or directory does not exist; reported by the
    /// filesystem collaborator when a process image cannot be opened.
    NoEntry,
    /// The physical allocator could not serve the request.
    NoMemory,
    /// The request does not fit in the reserved virtual address window.
    NoVmSpace,
    /// An argument lies outside the range the call supports.
    InvalidArgument,
    /// The virtual address is already mapped; remapping would leak the
    /// backing page, so it is refused instead.
    AlreadyMapped,
    /// An input/output failure reported by a device; reported by the
    /// filesystem collaborator when reading an image fails.
    IoError,
}

/// Result type carrying an `OsError` on failure.
pub type OsResult<T> = Result<T, OsError>;

} // verus!
