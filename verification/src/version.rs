//! API version constants.

use vstd::prelude::*;

verus! {

/// API major version.
pub const MAJOR: i32 = 0;

/// API minor version.
pub const MINOR: i32 = 1;

/// API patch version.
pub const PATCH: i32 = 0;

/// Guest protocol version.
pub const GUEST_PROTOCOL: i32 = 1;

} // verus!
