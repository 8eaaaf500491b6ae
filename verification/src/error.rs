//! The error bridge: typed local errors, and the translation of the
//! boundary's error records into them.
//!
//! Every boundary call fills an error record (status code plus message,
//! operation and path strings) even on success. The record's strings are
//! owned by this layer once the call returns, and must be released exactly
//! once. Here the record is a plain value, so releasing it exactly once is
//! the move: `check_error` and `error_from_cc` take the record by value and
//! never hand it back, on the success path as on every failure path.

use vstd::prelude::*;

verus! {

/// Status code of a successful boundary call.
pub const CC_OK: i32 = 0;

/// Status code: the handle was null, zero or already freed.
pub const CC_ERR_INVALID_HANDLE: i32 = 1;

/// Status code: a call argument was invalid.
pub const CC_ERR_INVALID_ARGUMENT: i32 = 2;

/// Status code: the instance has terminated.
pub const CC_ERR_NOT_RUNNING: i32 = 3;

/// Status code: the resource was already closed.
pub const CC_ERR_ALREADY_CLOSED: i32 = 4;

/// Status code: the operation exceeded its time limit.
pub const CC_ERR_TIMEOUT: i32 = 5;

/// Status code: no hypervisor support on this system.
pub const CC_ERR_HYPERVISOR_UNAVAILABLE: i32 = 6;

/// Status code: a filesystem I/O error in the guest.
pub const CC_ERR_IO: i32 = 7;

/// Status code: a network error.
pub const CC_ERR_NETWORK: i32 = 8;

/// Status code: the operation was cancelled through a cancel token.
pub const CC_ERR_CANCELLED: i32 = 9;

/// Status code: an unclassified error.
pub const CC_ERR_UNKNOWN: i32 = 99;

/// The boundary's error record, copied out as plain host-owned values.
///
/// A null message, operation or path pointer on the boundary side becomes
/// `None` here. The record is always populated by a boundary call, even on
/// success (`code == CC_OK` with no strings attached), and consuming it by
/// value is what releases it.
#[derive(Debug, Clone)]
pub struct ForeignError {
    /// Status code of the call that produced this record.
    pub code: i32,
    /// Human-readable message, if the boundary attached one.
    pub message: Option<String>,
    /// Name of the operation that failed, if attached.
    pub op: Option<String>,
    /// Path involved in the failure, if attached.
    pub path: Option<String>,
}

impl ForeignError {
    /// A benign success record, as the boundary produces on an untroubled
    /// call: status `CC_OK` and no strings attached.
    pub fn success() -> (r: ForeignError)
        ensures
            r.code == CC_OK,
            r.message is None,
            r.op is None,
            r.path is None,
    {
        ForeignError { code: CC_OK, message: None, op: None, path: None }
    }
}

/// Error type for every operation of this layer.
#[derive(Debug, Clone, PartialEq, Eq)]
pub enum Error {
    /// Handle is null, zero, or already freed.
    InvalidHandle,
    /// A call argument is invalid.
    InvalidArgument(String),
    /// The instance has terminated.
    NotRunning,
    /// The resource was already closed.
    AlreadyClosed,
    /// The operation exceeded its time limit.
    Timeout,
    /// No hypervisor support on this system.
    HypervisorUnavailable(String),
    /// Filesystem I/O error in the guest.
    Io {
        /// Error message.
        message: String,
        /// Operation that failed.
        op: Option<String>,
        /// Path involved.
        path: Option<String>,
    },
    /// Network error (DNS, TCP connect, and the like).
    Network(String),
    /// The operation was cancelled through a cancel token.
    Cancelled,
    /// Unclassified error; the raw message is preserved, never dropped.
    Unknown(String),
}

impl Error {
    /// Whether this is the hypervisor-unavailable error.
    pub fn is_hypervisor_unavailable(&self) -> (r: bool)
        ensures
            r == (self is HypervisorUnavailable),
    {
        matches!(self, Error::HypervisorUnavailable(_))
    }

    /// Whether this is the timeout error.
    pub fn is_timeout(&self) -> (r: bool)
        ensures
            r == (self is Timeout),
    {
        matches!(self, Error::Timeout)
    }

    /// Whether this is the cancelled error.
    pub fn is_cancelled(&self) -> (r: bool)
        ensures
            r == (self is Cancelled),
    {
        matches!(self, Error::Cancelled)
    }

    /// Whether this is an I/O error.
    pub fn is_io(&self) -> (r: bool)
        ensures
            r == (self is Io),
    {
        matches!(self, Error::Io { .. })
    }
}

/// The message text a translation carries: the record's message, or the
/// fixed fallback when the boundary attached none.
pub open spec fn spec_message_view(rec: ForeignError) -> Seq<char> {
    match rec.message {
        Some(m) => m@,
        None => "Unknown error"@,
    }
}

/// Exactly which local error a boundary record translates to: one variant
/// per status code, message and context strings preserved, and every
/// unmapped code preserved as `Unknown` with the raw message.
pub open spec fn is_translation(rec: ForeignError, e: Error) -> bool {
    if rec.code == CC_ERR_INVALID_HANDLE {
        e == Error::InvalidHandle
    } else if rec.code == CC_ERR_INVALID_ARGUMENT {
        e matches Error::InvalidArgument(m) && m@ == spec_message_view(rec)
    } else if rec.code == CC_ERR_NOT_RUNNING {
        e == Error::NotRunning
    } else if rec.code == CC_ERR_ALREADY_CLOSED {
        e == Error::AlreadyClosed
    } else if rec.code == CC_ERR_TIMEOUT {
        e == Error::Timeout
    } else if rec.code == CC_ERR_HYPERVISOR_UNAVAILABLE {
        e matches Error::HypervisorUnavailable(m) && m@ == spec_message_view(rec)
    } else if rec.code == CC_ERR_IO {
        e matches Error::Io { message, op, path } && message@ == spec_message_view(rec)
            && op == rec.op && path == rec.path
    } else if rec.code == CC_ERR_NETWORK {
        e matches Error::Network(m) && m@ == spec_message_view(rec)
    } else if rec.code == CC_ERR_CANCELLED {
        e == Error::Cancelled
    } else {
        e matches Error::Unknown(m) && m@ == spec_message_view(rec)
    }
}

/// Translate a boundary error record into the local error taxonomy.
///
/// Consuming the record by value is the release of its strings; no path
/// out of this function keeps a second copy to free. A record whose code
/// is not in the mapping (including, on misuse, `CC_OK`) becomes `Unknown`
/// with the raw message preserved.
pub fn error_from_cc(rec: ForeignError) -> (e: Error)
    ensures
        is_translation(rec, e),
{
    let code = rec.code;
    let message = match rec.message {
        Some(m) => m,
        None => "Unknown error".to_owned(),
    };

    if code == CC_ERR_INVALID_HANDLE {
        Error::InvalidHandle
    } else if code == CC_ERR_INVALID_ARGUMENT {
        Error::InvalidArgument(message)
    } else if code == CC_ERR_NOT_RUNNING {
        Error::NotRunning
    } else if code == CC_ERR_ALREADY_CLOSED {
        Error::AlreadyClosed
    } else if code == CC_ERR_TIMEOUT {
        Error::Timeout
    } else if code == CC_ERR_HYPERVISOR_UNAVAILABLE {
        Error::HypervisorUnavailable(message)
    } else if code == CC_ERR_IO {
        Error::Io { message, op: rec.op, path: rec.path }
    } else if code == CC_ERR_NETWORK {
        Error::Network(message)
    } else if code == CC_ERR_CANCELLED {
        Error::Cancelled
    } else {
        Error::Unknown(message)
    }
}

/// Check a boundary status code, releasing the error record on every path.
///
/// By the boundary convention `code` is the call's return code and `rec`
/// is the record the call filled; the two agree. On success the record is
/// consumed unread (the release is a benign no-op on a success record); on
/// failure it is translated.
pub fn check_error(code: i32, rec: ForeignError) -> (r: Result<(), Error>)
    ensures
        r is Ok <==> code == CC_OK,
        r matches Err(e) ==> is_translation(rec, e),
{
    if code == CC_OK {
        Ok(())
    } else {
        Err(error_from_cc(rec))
    }
}

} // verus!
