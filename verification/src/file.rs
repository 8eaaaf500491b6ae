//! The open-file wrapper: handle-addressed byte-stream operations.

use vstd::prelude::*;

use crate::boundary::{FileReadCall, FileSeekCall, FileTruncateCall, FileWriteCall};
use crate::error::{error_from_cc, is_translation, Error, ForeignError, CC_OK};
use crate::handle::CcFile;
use crate::types::SeekWhence;

verus! {

/// Turn the boundary's reply to a byte transfer (file or connection,
/// read or write) into the transferred count.
pub fn finish_io(rec: ForeignError, n: usize) -> (r: Result<usize, Error>)
    ensures
        rec.code == CC_OK ==> (r matches Ok(m) && m == n),
        rec.code != CC_OK ==> (r matches Err(e) && is_translation(rec, e)),
{
    if rec.code == CC_OK {
        Ok(n)
    } else {
        Err(error_from_cc(rec))
    }
}

/// An open file in the guest.
///
/// The wrapper keeps the path it was opened under, as the fallback name
/// when the boundary has none to offer.
#[derive(Debug)]
pub struct File {
    /// The owned file handle; invalid once closed.
    pub handle: CcFile,
    /// The path this file was opened under.
    pub path: String,
}

impl File {
    /// Whether the wrapper still owns a live handle.
    pub open spec fn is_open(&self) -> bool {
        self.handle.spec_is_valid()
    }

    /// Adopt a file handle together with the path it was opened under.
    pub fn from_handle(handle: CcFile, path: String) -> (r: Self)
        ensures
            r.handle == handle,
            r.path == path,
    {
        File { handle, path }
    }

    /// Adopt the outcome of a boundary open, create or explicit open.
    pub fn from_reply(rec: ForeignError, handle: CcFile, path: String) -> (r: Result<File, Error>)
        ensures
            rec.code == CC_OK ==> (r matches Ok(f) && f.handle == handle && f.path == path),
            rec.code != CC_OK ==> (r matches Err(e) && is_translation(rec, e)),
    {
        if rec.code == CC_OK {
            Ok(File { handle, path })
        } else {
            Err(error_from_cc(rec))
        }
    }

    /// Name the handle for a file-name query, or `None` when the wrapper
    /// is closed and the name is the stored path without a boundary
    /// call.
    pub fn name_query(&self) -> (r: Option<CcFile>)
        ensures
            self.is_open() ==> r == Some(self.handle),
            !self.is_open() ==> r is None,
    {
        if self.handle.is_valid() {
            Some(self.handle)
        } else {
            None
        }
    }

    /// The file's name from the boundary's answer: the reported name, or
    /// the stored path when the boundary had none.
    pub fn name_from(&self, s: Option<String>) -> (r: String)
        ensures
            s matches Some(t) ==> r@ == t@,
            s is None ==> r@ == self.path@,
    {
        match s {
            Some(t) => t,
            None => self.path.clone(),
        }
    }

    /// Describe the boundary call that reads up to `max_len` bytes.
    pub fn read_bytes(&self, max_len: usize) -> (r: Result<FileReadCall, Error>)
        ensures
            !self.is_open() ==> (r matches Err(e) && e == Error::AlreadyClosed),
            self.is_open() ==> (r matches Ok(c) && c.file == self.handle && c.max_len == max_len),
    {
        if !self.handle.is_valid() {
            return Err(Error::AlreadyClosed);
        }
        Ok(FileReadCall { file: self.handle, max_len })
    }

    /// Describe the boundary call that writes the given bytes. The call
    /// carries its own copy of the content.
    pub fn write_bytes(&self, data: &[u8]) -> (r: Result<FileWriteCall, Error>)
        ensures
            !self.is_open() ==> (r matches Err(e) && e == Error::AlreadyClosed),
            self.is_open() ==> (r matches Ok(c) && c.file == self.handle && c.data@ == data@),
    {
        if !self.handle.is_valid() {
            return Err(Error::AlreadyClosed);
        }
        Ok(FileWriteCall { file: self.handle, data: vstd::slice::slice_to_vec(data) })
    }

    /// Describe the boundary call that repositions the file, with the
    /// origin already encoded as the boundary expects it.
    pub fn seek(&self, offset: i64, whence: SeekWhence) -> (r: Result<FileSeekCall, Error>)
        ensures
            !self.is_open() ==> (r matches Err(e) && e == Error::AlreadyClosed),
            self.is_open() ==> (r matches Ok(c) && c.file == self.handle && c.offset == offset && {
                &&& whence is Start ==> c.whence_code == 0
                &&& whence is Current ==> c.whence_code == 1
                &&& whence is End ==> c.whence_code == 2
            }),
    {
        if !self.handle.is_valid() {
            return Err(Error::AlreadyClosed);
        }
        Ok(FileSeekCall { file: self.handle, offset, whence_code: whence.code() })
    }

    /// Turn the boundary's reply to a seek into the new position.
    pub fn finish_seek(rec: ForeignError, new_offset: i64) -> (r: Result<i64, Error>)
        ensures
            rec.code == CC_OK ==> (r matches Ok(p) && p == new_offset),
            rec.code != CC_OK ==> (r matches Err(e) && is_translation(rec, e)),
    {
        if rec.code == CC_OK {
            Ok(new_offset)
        } else {
            Err(error_from_cc(rec))
        }
    }

    /// Name the handle for a sync, failing at once on a closed wrapper.
    pub fn sync(&self) -> (r: Result<CcFile, Error>)
        ensures
            !self.is_open() ==> (r matches Err(e) && e == Error::AlreadyClosed),
            self.is_open() ==> (r matches Ok(h) && h == self.handle),
    {
        if !self.handle.is_valid() {
            return Err(Error::AlreadyClosed);
        }
        Ok(self.handle)
    }

    /// Describe the boundary call that truncates the file.
    pub fn truncate(&self, size: i64) -> (r: Result<FileTruncateCall, Error>)
        ensures
            !self.is_open() ==> (r matches Err(e) && e == Error::AlreadyClosed),
            self.is_open() ==> (r matches Ok(c) && c.file == self.handle && c.size == size),
    {
        if !self.handle.is_valid() {
            return Err(Error::AlreadyClosed);
        }
        Ok(FileTruncateCall { file: self.handle, size })
    }

    /// Name the handle for a stat, failing at once on a closed wrapper.
    /// The reply goes through `Instance::finish_stat`.
    pub fn stat(&self) -> (r: Result<CcFile, Error>)
        ensures
            !self.is_open() ==> (r matches Err(e) && e == Error::AlreadyClosed),
            self.is_open() ==> (r matches Ok(h) && h == self.handle),
    {
        if !self.handle.is_valid() {
            return Err(Error::AlreadyClosed);
        }
        Ok(self.handle)
    }

    /// Close the file.
    ///
    /// The handle is invalidated before anything else; `None` means the
    /// wrapper was already closed and the close is a successful no-op,
    /// with no boundary call and no second release.
    pub fn close(&mut self) -> (r: Option<CcFile>)
        ensures
            final(self).handle.h == 0,
            final(self).path == old(self).path,
            old(self).is_open() ==> r == Some(old(self).handle),
            !old(self).is_open() ==> r is None,
    {
        let prev = self.handle;
        self.handle = CcFile { h: 0 };
        if prev.is_valid() {
            Some(prev)
        } else {
            None
        }
    }

    /// The release decision at end of use: the handle to free, if any.
    pub fn teardown(self) -> (r: Option<CcFile>)
        ensures
            self.is_open() ==> r == Some(self.handle),
            !self.is_open() ==> r is None,
    {
        if self.handle.is_valid() {
            Some(self.handle)
        } else {
            None
        }
    }
}

} // verus!
