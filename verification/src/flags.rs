//! File open flags, numerically as the boundary defines them.

use vstd::prelude::*;

verus! {

/// Read only.
pub const O_RDONLY: i32 = 0x0000;

/// Write only.
pub const O_WRONLY: i32 = 0x0001;

/// Read and write.
pub const O_RDWR: i32 = 0x0002;

/// Append mode.
pub const O_APPEND: i32 = 0x0008;

/// Create if the file does not exist.
pub const O_CREATE: i32 = 0x0200;

/// Truncate to zero length.
pub const O_TRUNC: i32 = 0x0400;

/// Exclusive create (fail if the file exists).
pub const O_EXCL: i32 = 0x0800;

} // verus!
