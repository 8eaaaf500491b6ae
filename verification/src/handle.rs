//! Typed handles for the resources of the foreign runtime.
//!
//! The runtime identifies every resource by a plain number. One distinct
//! type per resource kind keeps a connection handle from being passed
//! where an instance handle is expected. The value `0` is reserved: it
//! means "invalid / no resource bound", and a wrapper holding it treats
//! every operation as a no-op. Handles carry no behavior of their own;
//! all ownership rules live in the wrapper types.

use vstd::prelude::*;

verus! {

/// Handle to a client of the image registry.
#[derive(Debug, Clone, Copy, PartialEq, Eq, Structural)]
pub struct CcOciClient {
    pub h: u64,
}

impl CcOciClient {
    /// Whether the handle is bound to a resource (any value but `0`).
    pub open spec fn spec_is_valid(&self) -> bool {
        self.h != 0
    }

    /// The reserved null handle.
    pub fn invalid() -> (r: Self)
        ensures
            r.h == 0,
    {
        CcOciClient { h: 0 }
    }

    /// Whether the handle is bound to a resource.
    #[verifier::when_used_as_spec(spec_is_valid)]
    pub fn is_valid(&self) -> (r: bool)
        ensures
            r == self.spec_is_valid(),
    {
        self.h != 0
    }
}

impl Default for CcOciClient {
    fn default() -> (r: Self)
        ensures
            r.h == 0,
    {
        CcOciClient { h: 0 }
    }
}

/// Handle to an instance source (a pulled or loaded image).
#[derive(Debug, Clone, Copy, PartialEq, Eq, Structural)]
pub struct CcInstanceSource {
    pub h: u64,
}

impl CcInstanceSource {
    /// Whether the handle is bound to a resource (any value but `0`).
    pub open spec fn spec_is_valid(&self) -> bool {
        self.h != 0
    }

    /// The reserved null handle.
    pub fn invalid() -> (r: Self)
        ensures
            r.h == 0,
    {
        CcInstanceSource { h: 0 }
    }

    /// Whether the handle is bound to a resource.
    #[verifier::when_used_as_spec(spec_is_valid)]
    pub fn is_valid(&self) -> (r: bool)
        ensures
            r == self.spec_is_valid(),
    {
        self.h != 0
    }
}

impl Default for CcInstanceSource {
    fn default() -> (r: Self)
        ensures
            r.h == 0,
    {
        CcInstanceSource { h: 0 }
    }
}

/// Handle to a running instance.
#[derive(Debug, Clone, Copy, PartialEq, Eq, Structural)]
pub struct CcInstance {
    pub h: u64,
}

impl CcInstance {
    /// Whether the handle is bound to a resource (any value but `0`).
    pub open spec fn spec_is_valid(&self) -> bool {
        self.h != 0
    }

    /// The reserved null handle.
    pub fn invalid() -> (r: Self)
        ensures
            r.h == 0,
    {
        CcInstance { h: 0 }
    }

    /// Whether the handle is bound to a resource.
    #[verifier::when_used_as_spec(spec_is_valid)]
    pub fn is_valid(&self) -> (r: bool)
        ensures
            r == self.spec_is_valid(),
    {
        self.h != 0
    }
}

impl Default for CcInstance {
    fn default() -> (r: Self)
        ensures
            r.h == 0,
    {
        CcInstance { h: 0 }
    }
}

/// Handle to an open guest file.
#[derive(Debug, Clone, Copy, PartialEq, Eq, Structural)]
pub struct CcFile {
    pub h: u64,
}

impl CcFile {
    /// Whether the handle is bound to a resource (any value but `0`).
    pub open spec fn spec_is_valid(&self) -> bool {
        self.h != 0
    }

    /// The reserved null handle.
    pub fn invalid() -> (r: Self)
        ensures
            r.h == 0,
    {
        CcFile { h: 0 }
    }

    /// Whether the handle is bound to a resource.
    #[verifier::when_used_as_spec(spec_is_valid)]
    pub fn is_valid(&self) -> (r: bool)
        ensures
            r == self.spec_is_valid(),
    {
        self.h != 0
    }
}

impl Default for CcFile {
    fn default() -> (r: Self)
        ensures
            r.h == 0,
    {
        CcFile { h: 0 }
    }
}

/// Handle to a guest process.
#[derive(Debug, Clone, Copy, PartialEq, Eq, Structural)]
pub struct CcCmd {
    pub h: u64,
}

impl CcCmd {
    /// Whether the handle is bound to a resource (any value but `0`).
    pub open spec fn spec_is_valid(&self) -> bool {
        self.h != 0
    }

    /// The reserved null handle.
    pub fn invalid() -> (r: Self)
        ensures
            r.h == 0,
    {
        CcCmd { h: 0 }
    }

    /// Whether the handle is bound to a resource.
    #[verifier::when_used_as_spec(spec_is_valid)]
    pub fn is_valid(&self) -> (r: bool)
        ensures
            r == self.spec_is_valid(),
    {
        self.h != 0
    }
}

impl Default for CcCmd {
    fn default() -> (r: Self)
        ensures
            r.h == 0,
    {
        CcCmd { h: 0 }
    }
}

/// Handle to a network listener inside an instance.
#[derive(Debug, Clone, Copy, PartialEq, Eq, Structural)]
pub struct CcListener {
    pub h: u64,
}

impl CcListener {
    /// Whether the handle is bound to a resource (any value but `0`).
    pub open spec fn spec_is_valid(&self) -> bool {
        self.h != 0
    }

    /// The reserved null handle.
    pub fn invalid() -> (r: Self)
        ensures
            r.h == 0,
    {
        CcListener { h: 0 }
    }

    /// Whether the handle is bound to a resource.
    #[verifier::when_used_as_spec(spec_is_valid)]
    pub fn is_valid(&self) -> (r: bool)
        ensures
            r == self.spec_is_valid(),
    {
        self.h != 0
    }
}

impl Default for CcListener {
    fn default() -> (r: Self)
        ensures
            r.h == 0,
    {
        CcListener { h: 0 }
    }
}

/// Handle to an accepted network connection.
#[derive(Debug, Clone, Copy, PartialEq, Eq, Structural)]
pub struct CcConn {
    pub h: u64,
}

impl CcConn {
    /// Whether the handle is bound to a resource (any value but `0`).
    pub open spec fn spec_is_valid(&self) -> bool {
        self.h != 0
    }

    /// The reserved null handle.
    pub fn invalid() -> (r: Self)
        ensures
            r.h == 0,
    {
        CcConn { h: 0 }
    }

    /// Whether the handle is bound to a resource.
    #[verifier::when_used_as_spec(spec_is_valid)]
    pub fn is_valid(&self) -> (r: bool)
        ensures
            r == self.spec_is_valid(),
    {
        self.h != 0
    }
}

impl Default for CcConn {
    fn default() -> (r: Self)
        ensures
            r.h == 0,
    {
        CcConn { h: 0 }
    }
}

/// Handle to a filesystem snapshot.
#[derive(Debug, Clone, Copy, PartialEq, Eq, Structural)]
pub struct CcSnapshot {
    pub h: u64,
}

impl CcSnapshot {
    /// Whether the handle is bound to a resource (any value but `0`).
    pub open spec fn spec_is_valid(&self) -> bool {
        self.h != 0
    }

    /// The reserved null handle.
    pub fn invalid() -> (r: Self)
        ensures
            r.h == 0,
    {
        CcSnapshot { h: 0 }
    }

    /// Whether the handle is bound to a resource.
    #[verifier::when_used_as_spec(spec_is_valid)]
    pub fn is_valid(&self) -> (r: bool)
        ensures
            r == self.spec_is_valid(),
    {
        self.h != 0
    }
}

impl Default for CcSnapshot {
    fn default() -> (r: Self)
        ensures
            r.h == 0,
    {
        CcSnapshot { h: 0 }
    }
}

/// Handle to a cancellation token.
#[derive(Debug, Clone, Copy, PartialEq, Eq, Structural)]
pub struct CcCancelToken {
    pub h: u64,
}

impl CcCancelToken {
    /// Whether the handle is bound to a resource (any value but `0`).
    pub open spec fn spec_is_valid(&self) -> bool {
        self.h != 0
    }

    /// The reserved null handle.
    pub fn invalid() -> (r: Self)
        ensures
            r.h == 0,
    {
        CcCancelToken { h: 0 }
    }

    /// Whether the handle is bound to a resource.
    #[verifier::when_used_as_spec(spec_is_valid)]
    pub fn is_valid(&self) -> (r: bool)
        ensures
            r == self.spec_is_valid(),
    {
        self.h != 0
    }
}

impl Default for CcCancelToken {
    fn default() -> (r: Self)
        ensures
            r.h == 0,
    {
        CcCancelToken { h: 0 }
    }
}

} // verus!
