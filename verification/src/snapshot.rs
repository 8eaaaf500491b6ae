//! The snapshot wrapper and its conversion back into a source.

use vstd::prelude::*;

use crate::client::InstanceSource;
use crate::error::{error_from_cc, is_translation, Error, ForeignError, CC_OK};
use crate::handle::{CcInstanceSource, CcSnapshot};

verus! {

/// A filesystem snapshot of an instance.
#[derive(Debug)]
pub struct Snapshot {
    /// The owned snapshot handle; invalid once closed.
    pub handle: CcSnapshot,
}

impl Snapshot {
    /// Whether the wrapper still owns a live handle.
    pub open spec fn is_open(&self) -> bool {
        self.handle.spec_is_valid()
    }

    /// Adopt a snapshot handle.
    ///
    /// The handle must not be owned by another wrapper; this wrapper is
    /// its sole release path from here on.
    pub fn from_handle(handle: CcSnapshot) -> (r: Self)
        ensures
            r.handle == handle,
    {
        Snapshot { handle }
    }

    /// Adopt the outcome of a boundary call that produced a snapshot
    /// (taking one from an instance, or building one from a recipe).
    pub fn from_reply(rec: ForeignError, handle: CcSnapshot) -> (r: Result<Snapshot, Error>)
        ensures
            rec.code == CC_OK ==> (r matches Ok(s) && s.handle == handle),
            rec.code != CC_OK ==> (r matches Err(e) && is_translation(rec, e)),
    {
        if rec.code == CC_OK {
            Ok(Snapshot { handle })
        } else {
            Err(error_from_cc(rec))
        }
    }

    /// Name the handle for a cache-key query, or `None` when the wrapper
    /// is closed and the key is the empty string without a boundary
    /// call.
    pub fn cache_key_query(&self) -> (r: Option<CcSnapshot>)
        ensures
            self.is_open() ==> r == Some(self.handle),
            !self.is_open() ==> r is None,
    {
        if self.handle.is_valid() {
            Some(self.handle)
        } else {
            None
        }
    }

    /// Name the handle for a parent query, or `None` when the wrapper is
    /// closed and there is no parent to ask for.
    pub fn parent_query(&self) -> (r: Option<CcSnapshot>)
        ensures
            self.is_open() ==> r == Some(self.handle),
            !self.is_open() ==> r is None,
    {
        if self.handle.is_valid() {
            Some(self.handle)
        } else {
            None
        }
    }

    /// Adopt the boundary's answer to a parent query: the invalid handle
    /// means there is no parent, any other is a new snapshot owning it.
    pub fn parent_from(handle: CcSnapshot) -> (r: Option<Snapshot>)
        ensures
            handle.spec_is_valid() ==> (r matches Some(s) && s.handle == handle),
            !handle.spec_is_valid() ==> r is None,
    {
        if handle.is_valid() {
            Some(Snapshot { handle })
        } else {
            None
        }
    }

    /// Begin converting the snapshot into a source.
    ///
    /// This is the second ownership transfer: the snapshot wrapper is
    /// consumed here, atomically with the handing out of its handle, so
    /// no release path of the snapshot remains. The boundary's
    /// conversion takes this handle and answers with a source handle,
    /// which `InstanceSource::from_handle` adopts.
    pub fn as_source(self) -> (r: CcSnapshot)
        ensures
            r == self.handle,
    {
        self.handle
    }

    /// Adopt the source handle the boundary answered a conversion with.
    pub fn finish_as_source(source_handle: CcInstanceSource) -> (r: InstanceSource)
        ensures
            r.handle == source_handle,
    {
        InstanceSource::from_handle(source_handle)
    }

    /// Close the snapshot.
    ///
    /// The handle is invalidated before anything else; `None` means the
    /// wrapper was already closed and the close is a successful no-op,
    /// with no boundary call and no second release.
    pub fn close(&mut self) -> (r: Option<CcSnapshot>)
        ensures
            final(self).handle.h == 0,
            old(self).is_open() ==> r == Some(old(self).handle),
            !old(self).is_open() ==> r is None,
    {
        let prev = self.handle;
        self.handle = CcSnapshot { h: 0 };
        if prev.is_valid() {
            Some(prev)
        } else {
            None
        }
    }

    /// The release decision at end of use: the handle to free, if any.
    pub fn teardown(self) -> (r: Option<CcSnapshot>)
        ensures
            self.is_open() ==> r == Some(self.handle),
            !self.is_open() ==> r is None,
    {
        if self.handle.is_valid() {
            Some(self.handle)
        } else {
            None
        }
    }
}

} // verus!
