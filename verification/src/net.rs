//! Network wrappers: the listener and the accepted connection.

use vstd::prelude::*;

use crate::boundary::{ConnReadCall, ConnWriteCall};
use crate::error::{error_from_cc, is_translation, Error, ForeignError, CC_OK};
use crate::handle::{CcConn, CcListener};

verus! {

/// A network listener inside an instance.
#[derive(Debug)]
pub struct Listener {
    /// The owned listener handle; invalid once closed.
    pub handle: CcListener,
}

impl Listener {
    /// Whether the wrapper still owns a live handle.
    pub open spec fn is_open(&self) -> bool {
        self.handle.spec_is_valid()
    }

    /// Adopt a listener handle.
    pub fn from_handle(handle: CcListener) -> (r: Self)
        ensures
            r.handle == handle,
    {
        Listener { handle }
    }

    /// Adopt the outcome of the boundary's listen call.
    pub fn from_reply(rec: ForeignError, handle: CcListener) -> (r: Result<Listener, Error>)
        ensures
            rec.code == CC_OK ==> (r matches Ok(l) && l.handle == handle),
            rec.code != CC_OK ==> (r matches Err(e) && is_translation(rec, e)),
    {
        if rec.code == CC_OK {
            Ok(Listener { handle })
        } else {
            Err(error_from_cc(rec))
        }
    }

    /// Name the handle for an address query, or `None` when the wrapper
    /// is closed and the address is the empty string without a boundary
    /// call.
    pub fn addr_query(&self) -> (r: Option<CcListener>)
        ensures
            self.is_open() ==> r == Some(self.handle),
            !self.is_open() ==> r is None,
    {
        if self.handle.is_valid() {
            Some(self.handle)
        } else {
            None
        }
    }

    /// Name the handle for an accept, failing at once on a closed
    /// wrapper. The accept blocks on the boundary side until a client
    /// connects; the reply goes through `Conn::from_reply`.
    pub fn accept(&self) -> (r: Result<CcListener, Error>)
        ensures
            !self.is_open() ==> (r matches Err(e) && e == Error::AlreadyClosed),
            self.is_open() ==> (r matches Ok(h) && h == self.handle),
    {
        if !self.handle.is_valid() {
            return Err(Error::AlreadyClosed);
        }
        Ok(self.handle)
    }

    /// Close the listener.
    ///
    /// The handle is invalidated before anything else; `None` means the
    /// wrapper was already closed and the close is a successful no-op,
    /// with no boundary call and no second release.
    pub fn close(&mut self) -> (r: Option<CcListener>)
        ensures
            final(self).handle.h == 0,
            old(self).is_open() ==> r == Some(old(self).handle),
            !old(self).is_open() ==> r is None,
    {
        let prev = self.handle;
        self.handle = CcListener { h: 0 };
        if prev.is_valid() {
            Some(prev)
        } else {
            None
        }
    }

    /// The release decision at end of use: the handle to free, if any.
    pub fn teardown(self) -> (r: Option<CcListener>)
        ensures
            self.is_open() ==> r == Some(self.handle),
            !self.is_open() ==> r is None,
    {
        if self.handle.is_valid() {
            Some(self.handle)
        } else {
            None
        }
    }
}

/// An accepted network connection.
#[derive(Debug)]
pub struct Conn {
    /// The owned connection handle; invalid once closed.
    pub handle: CcConn,
}

impl Conn {
    /// Whether the wrapper still owns a live handle.
    pub open spec fn is_open(&self) -> bool {
        self.handle.spec_is_valid()
    }

    /// Adopt a connection handle.
    pub fn from_handle(handle: CcConn) -> (r: Self)
        ensures
            r.handle == handle,
    {
        Conn { handle }
    }

    /// Adopt the outcome of the boundary's accept.
    pub fn from_reply(rec: ForeignError, handle: CcConn) -> (r: Result<Conn, Error>)
        ensures
            rec.code == CC_OK ==> (r matches Ok(c) && c.handle == handle),
            rec.code != CC_OK ==> (r matches Err(e) && is_translation(rec, e)),
    {
        if rec.code == CC_OK {
            Ok(Conn { handle })
        } else {
            Err(error_from_cc(rec))
        }
    }

    /// Name the handle for a local-address query, or `None` when the
    /// wrapper is closed and the address is the empty string without a
    /// boundary call.
    pub fn local_addr_query(&self) -> (r: Option<CcConn>)
        ensures
            self.is_open() ==> r == Some(self.handle),
            !self.is_open() ==> r is None,
    {
        if self.handle.is_valid() {
            Some(self.handle)
        } else {
            None
        }
    }

    /// Name the handle for a remote-address query, or `None` when the
    /// wrapper is closed and the address is the empty string without a
    /// boundary call.
    pub fn remote_addr_query(&self) -> (r: Option<CcConn>)
        ensures
            self.is_open() ==> r == Some(self.handle),
            !self.is_open() ==> r is None,
    {
        if self.handle.is_valid() {
            Some(self.handle)
        } else {
            None
        }
    }

    /// Describe the boundary call that reads up to `max_len` bytes. The
    /// reply goes through `finish_io`.
    pub fn read(&self, max_len: usize) -> (r: Result<ConnReadCall, Error>)
        ensures
            !self.is_open() ==> (r matches Err(e) && e == Error::AlreadyClosed),
            self.is_open() ==> (r matches Ok(c) && c.conn == self.handle && c.max_len == max_len),
    {
        if !self.handle.is_valid() {
            return Err(Error::AlreadyClosed);
        }
        Ok(ConnReadCall { conn: self.handle, max_len })
    }

    /// Describe the boundary call that writes the given bytes; the call
    /// carries its own copy of the content. The reply goes through
    /// `finish_io`.
    pub fn write(&self, data: &[u8]) -> (r: Result<ConnWriteCall, Error>)
        ensures
            !self.is_open() ==> (r matches Err(e) && e == Error::AlreadyClosed),
            self.is_open() ==> (r matches Ok(c) && c.conn == self.handle && c.data@ == data@),
    {
        if !self.handle.is_valid() {
            return Err(Error::AlreadyClosed);
        }
        Ok(ConnWriteCall { conn: self.handle, data: vstd::slice::slice_to_vec(data) })
    }

    /// Close the connection.
    ///
    /// The handle is invalidated before anything else; `None` means the
    /// wrapper was already closed and the close is a successful no-op,
    /// with no boundary call and no second release.
    pub fn close(&mut self) -> (r: Option<CcConn>)
        ensures
            final(self).handle.h == 0,
            old(self).is_open() ==> r == Some(old(self).handle),
            !old(self).is_open() ==> r is None,
    {
        let prev = self.handle;
        self.handle = CcConn { h: 0 };
        if prev.is_valid() {
            Some(prev)
        } else {
            None
        }
    }

    /// The release decision at end of use: the handle to free, if any.
    pub fn teardown(self) -> (r: Option<CcConn>)
        ensures
            self.is_open() ==> r == Some(self.handle),
            !self.is_open() ==> r is None,
    {
        if self.handle.is_valid() {
            Some(self.handle)
        } else {
            None
        }
    }
}

} // verus!
