//! The instance wrapper: lifecycle, filesystem session operations,
//! command construction, networking and snapshots.
//!
//! An instance owns exactly one instance handle. Every operation
//! validates liveness first: once the wrapper is closed, the operation
//! fails with `AlreadyClosed` and no call description is produced, so the
//! boundary is never reached through a dead wrapper.

use vstd::prelude::*;

use crate::boundary::{
    opt_bytes, opt_text, strings_of, views_match, ChownCall, ChtimesCall, CmdEntrypointCall,
    CmdNewCall, ConsoleSizeCall, ExecCall, InstanceNewCall, InstanceWaitCall, ListenCall,
    NetworkEnabledCall, OpenFileCall, PathCall, PathModeCall, RawDirEntry, RawFileInfo,
    SnapshotCall, TwoPathCall, WriteFileCall,
};
use crate::client::{CancelToken, InstanceSource};
use crate::error::{error_from_cc, is_translation, Error, ForeignError, CC_OK};
use crate::handle::{CcCancelToken, CcInstance, CcInstanceSource};
use crate::types::{DirEntry, FileInfo, InstanceOptions, SnapshotOptions};

verus! {

/// A running instance.
///
/// Liveness is the validity of the owned handle: `close` invalidates the
/// handle first of all, so even a close whose boundary call fails leaves
/// the wrapper unusable rather than half-open.
#[derive(Debug)]
pub struct Instance {
    /// The owned instance handle; invalid once closed.
    pub handle: CcInstance,
}

/// Whether a host file record carries exactly what the boundary reported,
/// with a missing name materialized as the empty string.
pub open spec fn info_converted(raw: RawFileInfo, info: FileInfo) -> bool {
    &&& info.name@ == opt_text(raw.name)
    &&& info.size == raw.size
    &&& info.mode == raw.mode
    &&& info.mod_time_unix == raw.mod_time_unix
    &&& info.is_dir == raw.is_dir
    &&& info.is_symlink == raw.is_symlink
}

/// Whether a host directory entry carries exactly what the boundary
/// reported, with a missing name materialized as the empty string.
pub open spec fn entry_converted(raw: RawDirEntry, entry: DirEntry) -> bool {
    &&& entry.name@ == opt_text(raw.name)
    &&& entry.is_dir == raw.is_dir
    &&& entry.mode == raw.mode
}

impl Instance {
    /// Whether the wrapper still owns a live handle.
    pub open spec fn is_open(&self) -> bool {
        self.handle.spec_is_valid()
    }

    /// Adopt an instance handle.
    ///
    /// The handle must not be owned by another wrapper; this wrapper is
    /// its sole release path from here on.
    pub fn from_handle(handle: CcInstance) -> (r: Self)
        ensures
            r.handle == handle,
    {
        Instance { handle }
    }

    /// Begin constructing an instance from a source.
    ///
    /// This is the first ownership transfer: the source wrapper is
    /// consumed here, atomically with the handing of its handle into the
    /// returned call, so no release path of the source remains while the
    /// boundary builds the instance. `finish_new` settles who owns what
    /// on each outcome. Absent options mean the defaults.
    pub fn new(source: InstanceSource, options: Option<InstanceOptions>) -> (r: InstanceNewCall)
        ensures
            r.source == source.handle,
            options matches Some(o) ==> r.options == o,
            options is None ==> (r.options.memory_mb == 256 && r.options.cpus == 1
                && r.options.timeout_ms == 0 && r.options.user is None
                && !r.options.enable_dmesg && r.options.mounts@.len() == 0),
    {
        let opts = match options {
            Some(o) => o,
            None => InstanceOptions::default(),
        };
        InstanceNewCall { source: source.handle, options: opts }
    }

    /// Settle the outcome of instance construction.
    ///
    /// On success the boundary has consumed the source handle: the new
    /// instance owns only its own handle and nothing is left to release.
    /// On failure the source handle is still the caller's to release,
    /// and is returned alongside the translated error so exactly one
    /// release happens on that path too.
    pub fn finish_new(call: InstanceNewCall, rec: ForeignError, handle: CcInstance) -> (r: (
        Result<Instance, Error>,
        Option<CcInstanceSource>,
    ))
        ensures
            rec.code == CC_OK ==> (r.0 matches Ok(inst) && inst.handle == handle && r.1 is None),
            rec.code != CC_OK ==> (r.0 matches Err(e) && is_translation(rec, e) && r.1 == Some(
                call.source,
            )),
    {
        if rec.code == CC_OK {
            (Ok(Instance { handle }), None)
        } else {
            (Err(error_from_cc(rec)), Some(call.source))
        }
    }

    /// Name the handle for an identifier query, or `None` when the
    /// wrapper is closed and the identifier is the empty string without
    /// a boundary call.
    pub fn id_query(&self) -> (r: Option<CcInstance>)
        ensures
            self.is_open() ==> r == Some(self.handle),
            !self.is_open() ==> r is None,
    {
        if self.handle.is_valid() {
            Some(self.handle)
        } else {
            None
        }
    }

    /// Name the handle for a running-state query, or `None` when the
    /// wrapper is closed and the instance counts as not running without
    /// a boundary call.
    pub fn is_running_query(&self) -> (r: Option<CcInstance>)
        ensures
            self.is_open() ==> r == Some(self.handle),
            !self.is_open() ==> r is None,
    {
        if self.handle.is_valid() {
            Some(self.handle)
        } else {
            None
        }
    }

    /// Describe the boundary call that waits for the instance to
    /// terminate. Like every other operation, waiting on a closed
    /// wrapper fails at once with `AlreadyClosed`, without a boundary
    /// call: there is no instance left whose end could be awaited.
    pub fn wait(&self, cancel_token: Option<&CancelToken>) -> (r: Result<InstanceWaitCall, Error>)
        ensures
            !self.is_open() ==> (r matches Err(e) && e == Error::AlreadyClosed),
            self.is_open() ==> (r matches Ok(c) && {
                &&& c.inst == self.handle
                &&& cancel_token matches Some(t) ==> c.cancel == t.handle
                &&& cancel_token is None ==> c.cancel.h == 0
            }),
    {
        if !self.handle.is_valid() {
            return Err(Error::AlreadyClosed);
        }
        let cancel = match cancel_token {
            Some(t) => t.handle,
            None => CcCancelToken { h: 0 },
        };
        Ok(InstanceWaitCall { inst: self.handle, cancel })
    }

    /// Describe the boundary call that sets the console size.
    pub fn set_console_size(&self, cols: i32, rows: i32) -> (r: Result<ConsoleSizeCall, Error>)
        ensures
            !self.is_open() ==> (r matches Err(e) && e == Error::AlreadyClosed),
            self.is_open() ==> (r matches Ok(c) && c.inst == self.handle && c.cols == cols
                && c.rows == rows),
    {
        if !self.handle.is_valid() {
            return Err(Error::AlreadyClosed);
        }
        Ok(ConsoleSizeCall { inst: self.handle, cols, rows })
    }

    /// Describe the boundary call that enables or disables guest network
    /// access.
    pub fn set_network_enabled(&self, enabled: bool) -> (r: Result<NetworkEnabledCall, Error>)
        ensures
            !self.is_open() ==> (r matches Err(e) && e == Error::AlreadyClosed),
            self.is_open() ==> (r matches Ok(c) && c.inst == self.handle && c.enabled == enabled),
    {
        if !self.handle.is_valid() {
            return Err(Error::AlreadyClosed);
        }
        Ok(NetworkEnabledCall { inst: self.handle, enabled })
    }

    /// Close the instance.
    ///
    /// The handle is invalidated before anything else, so the wrapper is
    /// unusable from here on whatever the boundary later reports. The
    /// returned handle is the one to pass to the boundary's close, whose
    /// record goes through `check_error`; `None` means the wrapper was
    /// already closed and the close is a successful no-op, with no
    /// boundary call and no second release.
    pub fn close(&mut self) -> (r: Option<CcInstance>)
        ensures
            final(self).handle.h == 0,
            old(self).is_open() ==> r == Some(old(self).handle),
            !old(self).is_open() ==> r is None,
    {
        let prev = self.handle;
        self.handle = CcInstance { h: 0 };
        if prev.is_valid() {
            Some(prev)
        } else {
            None
        }
    }

    /// The release decision at end of use: the handle to free, if the
    /// wrapper still owns one. Errors of this implicit release are
    /// discarded by the caller; teardown must not raise.
    pub fn teardown(self) -> (r: Option<CcInstance>)
        ensures
            self.is_open() ==> r == Some(self.handle),
            !self.is_open() ==> r is None,
    {
        if self.handle.is_valid() {
            Some(self.handle)
        } else {
            None
        }
    }

    // ------------------------------------------------------------------
    // Filesystem session operations, path-addressed
    // ------------------------------------------------------------------

    /// Describe the boundary call that opens a file for reading.
    pub fn open(&self, path: &str) -> (r: Result<PathCall, Error>)
        ensures
            !self.is_open() ==> (r matches Err(e) && e == Error::AlreadyClosed),
            self.is_open() ==> (r matches Ok(c) && c.inst == self.handle && c.path@ == path@),
    {
        if !self.handle.is_valid() {
            return Err(Error::AlreadyClosed);
        }
        Ok(PathCall { inst: self.handle, path: path.to_owned() })
    }

    /// Describe the boundary call that creates or truncates a file.
    pub fn create(&self, path: &str) -> (r: Result<PathCall, Error>)
        ensures
            !self.is_open() ==> (r matches Err(e) && e == Error::AlreadyClosed),
            self.is_open() ==> (r matches Ok(c) && c.inst == self.handle && c.path@ == path@),
    {
        if !self.handle.is_valid() {
            return Err(Error::AlreadyClosed);
        }
        Ok(PathCall { inst: self.handle, path: path.to_owned() })
    }

    /// Describe the boundary call that opens a file with explicit flags
    /// and permissions.
    pub fn open_file(&self, path: &str, flags: i32, mode: u32) -> (r: Result<OpenFileCall, Error>)
        ensures
            !self.is_open() ==> (r matches Err(e) && e == Error::AlreadyClosed),
            self.is_open() ==> (r matches Ok(c) && c.inst == self.handle && c.path@ == path@
                && c.flags == flags && c.perm == mode),
    {
        if !self.handle.is_valid() {
            return Err(Error::AlreadyClosed);
        }
        Ok(OpenFileCall { inst: self.handle, path: path.to_owned(), flags, perm: mode })
    }

    /// Describe the boundary call that reads a whole file.
    pub fn read_file(&self, path: &str) -> (r: Result<PathCall, Error>)
        ensures
            !self.is_open() ==> (r matches Err(e) && e == Error::AlreadyClosed),
            self.is_open() ==> (r matches Ok(c) && c.inst == self.handle && c.path@ == path@),
    {
        if !self.handle.is_valid() {
            return Err(Error::AlreadyClosed);
        }
        Ok(PathCall { inst: self.handle, path: path.to_owned() })
    }

    /// Turn the boundary's reply to a whole-file read into host-owned
    /// bytes: exactly what the boundary reported, a null buffer counting
    /// as empty. The caller never sees foreign-owned memory.
    pub fn finish_read_file(rec: ForeignError, data: Option<Vec<u8>>) -> (r: Result<
        Vec<u8>,
        Error,
    >)
        ensures
            rec.code == CC_OK ==> (r matches Ok(d) && d@ == opt_bytes(data)),
            rec.code != CC_OK ==> (r matches Err(e) && is_translation(rec, e)),
    {
        let code = rec.code;
        if code != CC_OK {
            return Err(error_from_cc(rec));
        }
        match data {
            Some(d) => Ok(d),
            None => Ok(Vec::new()),
        }
    }

    /// Describe the boundary call that writes a whole file. The call
    /// carries its own copy of the content.
    pub fn write_file(&self, path: &str, data: &[u8], mode: u32) -> (r: Result<
        WriteFileCall,
        Error,
    >)
        ensures
            !self.is_open() ==> (r matches Err(e) && e == Error::AlreadyClosed),
            self.is_open() ==> (r matches Ok(c) && c.inst == self.handle && c.path@ == path@
                && c.data@ == data@ && c.mode == mode),
    {
        if !self.handle.is_valid() {
            return Err(Error::AlreadyClosed);
        }
        Ok(
            WriteFileCall {
                inst: self.handle,
                path: path.to_owned(),
                data: vstd::slice::slice_to_vec(data),
                mode,
            },
        )
    }

    /// Describe the boundary call that stats a path, following symlinks.
    pub fn stat(&self, path: &str) -> (r: Result<PathCall, Error>)
        ensures
            !self.is_open() ==> (r matches Err(e) && e == Error::AlreadyClosed),
            self.is_open() ==> (r matches Ok(c) && c.inst == self.handle && c.path@ == path@),
    {
        if !self.handle.is_valid() {
            return Err(Error::AlreadyClosed);
        }
        Ok(PathCall { inst: self.handle, path: path.to_owned() })
    }

    /// Describe the boundary call that stats a path without following
    /// symlinks.
    pub fn lstat(&self, path: &str) -> (r: Result<PathCall, Error>)
        ensures
            !self.is_open() ==> (r matches Err(e) && e == Error::AlreadyClosed),
            self.is_open() ==> (r matches Ok(c) && c.inst == self.handle && c.path@ == path@),
    {
        if !self.handle.is_valid() {
            return Err(Error::AlreadyClosed);
        }
        Ok(PathCall { inst: self.handle, path: path.to_owned() })
    }

    /// Describe the boundary call that removes a file.
    pub fn remove(&self, path: &str) -> (r: Result<PathCall, Error>)
        ensures
            !self.is_open() ==> (r matches Err(e) && e == Error::AlreadyClosed),
            self.is_open() ==> (r matches Ok(c) && c.inst == self.handle && c.path@ == path@),
    {
        if !self.handle.is_valid() {
            return Err(Error::AlreadyClosed);
        }
        Ok(PathCall { inst: self.handle, path: path.to_owned() })
    }

    /// Describe the boundary call that removes a path recursively.
    pub fn remove_all(&self, path: &str) -> (r: Result<PathCall, Error>)
        ensures
            !self.is_open() ==> (r matches Err(e) && e == Error::AlreadyClosed),
            self.is_open() ==> (r matches Ok(c) && c.inst == self.handle && c.path@ == path@),
    {
        if !self.handle.is_valid() {
            return Err(Error::AlreadyClosed);
        }
        Ok(PathCall { inst: self.handle, path: path.to_owned() })
    }

    /// Describe the boundary call that creates a directory.
    pub fn mkdir(&self, path: &str, mode: u32) -> (r: Result<PathModeCall, Error>)
        ensures
            !self.is_open() ==> (r matches Err(e) && e == Error::AlreadyClosed),
            self.is_open() ==> (r matches Ok(c) && c.inst == self.handle && c.path@ == path@
                && c.mode == mode),
    {
        if !self.handle.is_valid() {
            return Err(Error::AlreadyClosed);
        }
        Ok(PathModeCall { inst: self.handle, path: path.to_owned(), mode })
    }

    /// Describe the boundary call that creates a directory and all its
    /// parents.
    pub fn mkdir_all(&self, path: &str, mode: u32) -> (r: Result<PathModeCall, Error>)
        ensures
            !self.is_open() ==> (r matches Err(e) && e == Error::AlreadyClosed),
            self.is_open() ==> (r matches Ok(c) && c.inst == self.handle && c.path@ == path@
                && c.mode == mode),
    {
        if !self.handle.is_valid() {
            return Err(Error::AlreadyClosed);
        }
        Ok(PathModeCall { inst: self.handle, path: path.to_owned(), mode })
    }

    /// Describe the boundary call that renames a file or directory.
    pub fn rename(&self, old_path: &str, new_path: &str) -> (r: Result<TwoPathCall, Error>)
        ensures
            !self.is_open() ==> (r matches Err(e) && e == Error::AlreadyClosed),
            self.is_open() ==> (r matches Ok(c) && c.inst == self.handle && c.path_a@ == old_path@
                && c.path_b@ == new_path@),
    {
        if !self.handle.is_valid() {
            return Err(Error::AlreadyClosed);
        }
        Ok(TwoPathCall { inst: self.handle, path_a: old_path.to_owned(), path_b: new_path.to_owned() })
    }

    /// Describe the boundary call that creates a symbolic link at
    /// `link_path` pointing to `target`.
    pub fn symlink(&self, target: &str, link_path: &str) -> (r: Result<TwoPathCall, Error>)
        ensures
            !self.is_open() ==> (r matches Err(e) && e == Error::AlreadyClosed),
            self.is_open() ==> (r matches Ok(c) && c.inst == self.handle && c.path_a@ == target@
                && c.path_b@ == link_path@),
    {
        if !self.handle.is_valid() {
            return Err(Error::AlreadyClosed);
        }
        Ok(TwoPathCall { inst: self.handle, path_a: target.to_owned(), path_b: link_path.to_owned() })
    }

    /// Describe the boundary call that reads a symbolic link.
    pub fn readlink(&self, path: &str) -> (r: Result<PathCall, Error>)
        ensures
            !self.is_open() ==> (r matches Err(e) && e == Error::AlreadyClosed),
            self.is_open() ==> (r matches Ok(c) && c.inst == self.handle && c.path@ == path@),
    {
        if !self.handle.is_valid() {
            return Err(Error::AlreadyClosed);
        }
        Ok(PathCall { inst: self.handle, path: path.to_owned() })
    }

    /// Turn the boundary's reply to a link read into the target path; a
    /// null string counts as empty.
    pub fn finish_readlink(rec: ForeignError, target: Option<String>) -> (r: Result<String, Error>)
        ensures
            rec.code == CC_OK ==> (r matches Ok(t) && t@ == opt_text(target)),
            rec.code != CC_OK ==> (r matches Err(e) && is_translation(rec, e)),
    {
        let code = rec.code;
        if code != CC_OK {
            return Err(error_from_cc(rec));
        }
        Ok(crate::boundary::string_or_empty(target))
    }

    /// Describe the boundary call that lists a directory.
    pub fn read_dir(&self, path: &str) -> (r: Result<PathCall, Error>)
        ensures
            !self.is_open() ==> (r matches Err(e) && e == Error::AlreadyClosed),
            self.is_open() ==> (r matches Ok(c) && c.inst == self.handle && c.path@ == path@),
    {
        if !self.handle.is_valid() {
            return Err(Error::AlreadyClosed);
        }
        Ok(PathCall { inst: self.handle, path: path.to_owned() })
    }

    /// Turn the boundary's reply to a directory listing into host-owned
    /// entries: one for one, in order, a missing name counting as empty.
    pub fn finish_read_dir(rec: ForeignError, entries: Vec<RawDirEntry>) -> (r: Result<
        Vec<DirEntry>,
        Error,
    >)
        ensures
            rec.code == CC_OK ==> (r matches Ok(v) && v@.len() == entries@.len() && forall|i: int|
                0 <= i < v@.len() ==> entry_converted(entries@[i], #[trigger] v@[i])),
            rec.code != CC_OK ==> (r matches Err(e) && is_translation(rec, e)),
    {
        let code = rec.code;
        if code != CC_OK {
            return Err(error_from_cc(rec));
        }
        let mut v: Vec<DirEntry> = Vec::new();
        let n = entries.len();
        let mut i: usize = 0;
        while i < n
            invariant
                n == entries@.len(),
                i <= n,
                v@.len() == i,
                forall|j: int| 0 <= j < i ==> entry_converted(entries@[j], #[trigger] v@[j]),
            decreases n - i,
        {
            let name = match &entries[i].name {
                Some(s) => s.clone(),
                None => String::new(),
            };
            v.push(DirEntry { name, is_dir: entries[i].is_dir, mode: entries[i].mode });
            i = i + 1;
        }
        Ok(v)
    }

    /// Turn the boundary's reply to a stat into a host file record.
    pub fn finish_stat(rec: ForeignError, info: RawFileInfo) -> (r: Result<FileInfo, Error>)
        ensures
            rec.code == CC_OK ==> (r matches Ok(i) && info_converted(info, i)),
            rec.code != CC_OK ==> (r matches Err(e) && is_translation(rec, e)),
    {
        let code = rec.code;
        if code != CC_OK {
            return Err(error_from_cc(rec));
        }
        let name = crate::boundary::string_or_empty(info.name);
        Ok(
            FileInfo {
                name,
                size: info.size,
                mode: info.mode,
                mod_time_unix: info.mod_time_unix,
                is_dir: info.is_dir,
                is_symlink: info.is_symlink,
            },
        )
    }

    /// Describe the boundary call that changes a path's permissions.
    pub fn chmod(&self, path: &str, mode: u32) -> (r: Result<PathModeCall, Error>)
        ensures
            !self.is_open() ==> (r matches Err(e) && e == Error::AlreadyClosed),
            self.is_open() ==> (r matches Ok(c) && c.inst == self.handle && c.path@ == path@
                && c.mode == mode),
    {
        if !self.handle.is_valid() {
            return Err(Error::AlreadyClosed);
        }
        Ok(PathModeCall { inst: self.handle, path: path.to_owned(), mode })
    }

    /// Describe the boundary call that changes a path's owner.
    pub fn chown(&self, path: &str, uid: i32, gid: i32) -> (r: Result<ChownCall, Error>)
        ensures
            !self.is_open() ==> (r matches Err(e) && e == Error::AlreadyClosed),
            self.is_open() ==> (r matches Ok(c) && c.inst == self.handle && c.path@ == path@
                && c.uid == uid && c.gid == gid),
    {
        if !self.handle.is_valid() {
            return Err(Error::AlreadyClosed);
        }
        Ok(ChownCall { inst: self.handle, path: path.to_owned(), uid, gid })
    }

    /// Describe the boundary call that changes a path's access and
    /// modification times.
    pub fn chtimes(&self, path: &str, atime_unix: i64, mtime_unix: i64) -> (r: Result<
        ChtimesCall,
        Error,
    >)
        ensures
            !self.is_open() ==> (r matches Err(e) && e == Error::AlreadyClosed),
            self.is_open() ==> (r matches Ok(c) && c.inst == self.handle && c.path@ == path@
                && c.atime_unix == atime_unix && c.mtime_unix == mtime_unix),
    {
        if !self.handle.is_valid() {
            return Err(Error::AlreadyClosed);
        }
        Ok(ChtimesCall { inst: self.handle, path: path.to_owned(), atime_unix, mtime_unix })
    }

    // ------------------------------------------------------------------
    // Command construction and process replacement
    // ------------------------------------------------------------------

    /// Describe the boundary call that creates a command in this
    /// instance; the command wrapper is built from the reply by
    /// `Cmd::from_reply`.
    pub fn command(&self, name: &str, args: &[&str]) -> (r: Result<CmdNewCall, Error>)
        ensures
            !self.is_open() ==> (r matches Err(e) && e == Error::AlreadyClosed),
            self.is_open() ==> (r matches Ok(c) && c.inst == self.handle && c.name@ == name@
                && views_match(c.args@, args@)),
    {
        if !self.handle.is_valid() {
            return Err(Error::AlreadyClosed);
        }
        Ok(CmdNewCall { inst: self.handle, name: name.to_owned(), args: strings_of(args) })
    }

    /// Describe the boundary call that creates a command from the
    /// image's entrypoint.
    pub fn entrypoint_command(&self, args: Option<&[&str]>) -> (r: Result<
        CmdEntrypointCall,
        Error,
    >)
        ensures
            !self.is_open() ==> (r matches Err(e) && e == Error::AlreadyClosed),
            self.is_open() ==> (r matches Ok(c) && c.inst == self.handle && {
                &&& args matches Some(a) ==> c.args matches Some(v) && views_match(v@, a@)
                &&& args is None ==> c.args is None
            }),
    {
        if !self.handle.is_valid() {
            return Err(Error::AlreadyClosed);
        }
        let owned_args = match args {
            Some(a) => Some(strings_of(a)),
            None => None,
        };
        Ok(CmdEntrypointCall { inst: self.handle, args: owned_args })
    }

    /// Describe the boundary call that replaces the instance's init
    /// process. This is terminal on the boundary side: after a
    /// successful replacement no further instance operation is valid.
    pub fn exec(&self, name: &str, args: &[&str]) -> (r: Result<ExecCall, Error>)
        ensures
            !self.is_open() ==> (r matches Err(e) && e == Error::AlreadyClosed),
            self.is_open() ==> (r matches Ok(c) && c.inst == self.handle && c.name@ == name@
                && views_match(c.args@, args@)),
    {
        if !self.handle.is_valid() {
            return Err(Error::AlreadyClosed);
        }
        Ok(ExecCall { inst: self.handle, name: name.to_owned(), args: strings_of(args) })
    }

    // ------------------------------------------------------------------
    // Networking and snapshots
    // ------------------------------------------------------------------

    /// Describe the boundary call that starts listening on the guest
    /// network; the listener wrapper is built from the reply by
    /// `Listener::from_reply`.
    pub fn listen(&self, network: &str, address: &str) -> (r: Result<ListenCall, Error>)
        ensures
            !self.is_open() ==> (r matches Err(e) && e == Error::AlreadyClosed),
            self.is_open() ==> (r matches Ok(c) && c.inst == self.handle && c.network@ == network@
                && c.address@ == address@),
    {
        if !self.handle.is_valid() {
            return Err(Error::AlreadyClosed);
        }
        Ok(ListenCall { inst: self.handle, network: network.to_owned(), address: address.to_owned() })
    }

    /// Describe the boundary call that takes a filesystem snapshot; the
    /// snapshot wrapper is built from the reply by `Snapshot::from_reply`.
    /// Absent options mean no excludes and no cache directory.
    pub fn snapshot(&self, options: Option<SnapshotOptions>) -> (r: Result<SnapshotCall, Error>)
        ensures
            !self.is_open() ==> (r matches Err(e) && e == Error::AlreadyClosed),
            self.is_open() ==> (r matches Ok(c) && c.inst == self.handle && {
                &&& options matches Some(o) ==> c.excludes == o.excludes && c.cache_dir
                    == o.cache_dir
                &&& options is None ==> c.excludes@.len() == 0 && c.cache_dir is None
            }),
    {
        if !self.handle.is_valid() {
            return Err(Error::AlreadyClosed);
        }
        let opts = match options {
            Some(o) => o,
            None => SnapshotOptions::default(),
        };
        Ok(SnapshotCall { inst: self.handle, excludes: opts.excludes, cache_dir: opts.cache_dir })
    }
}

} // verus!
