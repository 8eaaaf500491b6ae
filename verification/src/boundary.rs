//! Reified boundary calls and raw boundary replies.
//!
//! A wrapper operation that needs the foreign runtime does not perform the
//! call itself; it validates its own state and returns one of the call
//! descriptions below, a plain value naming the handle and carrying every
//! argument already marshalled to host values. The unverified glue
//! performs the call and hands the reply back to a `finish_*` function as
//! one of the raw reply records, in which a null boundary pointer has
//! become `None`.

use vstd::prelude::*;

use crate::handle::{
    CcCancelToken, CcCmd, CcConn, CcFile, CcInstance, CcInstanceSource, CcOciClient,
};
use crate::types::{DockerfileOptions, InstanceOptions, PullOptions};

verus! {

// ---------------------------------------------------------------------
// Call descriptions: client and source operations
// ---------------------------------------------------------------------

/// Request to pull an image from a registry.
#[derive(Debug, Clone, PartialEq, Eq)]
pub struct PullCall {
    /// Client that performs the pull.
    pub client: CcOciClient,
    /// Image reference (for example "alpine:latest").
    pub image_ref: String,
    /// Platform, authentication and policy options.
    pub options: PullOptions,
    /// Cancel token to observe; the invalid handle when none was given.
    pub cancel: CcCancelToken,
}

/// Request to load an image from a local archive or directory.
#[derive(Debug, Clone, PartialEq, Eq)]
pub struct LoadCall {
    /// Client that performs the load.
    pub client: CcOciClient,
    /// Path of the archive file or directory.
    pub path: String,
    /// Platform and policy options.
    pub options: PullOptions,
}

/// Request to export a source to a directory.
#[derive(Debug, Clone, PartialEq, Eq)]
pub struct ExportCall {
    /// Client that performs the export.
    pub client: CcOciClient,
    /// Source to export; ownership stays with its wrapper.
    pub source: CcInstanceSource,
    /// Output directory.
    pub dir_path: String,
}

/// Request to build an image source from recipe bytes.
#[derive(Debug, Clone, PartialEq, Eq)]
pub struct BuildCall {
    /// Client that performs the build.
    pub client: CcOciClient,
    /// Recipe content.
    pub dockerfile: Vec<u8>,
    /// Build options; the cache directory is required by the boundary.
    pub options: DockerfileOptions,
    /// Cancel token to observe; the invalid handle when none was given.
    pub cancel: CcCancelToken,
}

/// Request to create an instance from a source.
///
/// Holding this call is holding the source handle: the wrapper that owned
/// it was consumed when the call was produced, and `Instance::finish_new`
/// says who must release the handle on each outcome.
#[derive(Debug, Clone, PartialEq, Eq)]
pub struct InstanceNewCall {
    /// The source the instance is built from.
    pub source: CcInstanceSource,
    /// Instance configuration.
    pub options: InstanceOptions,
}

// ---------------------------------------------------------------------
// Call descriptions: instance operations
// ---------------------------------------------------------------------

/// Request that names an instance and one path.
#[derive(Debug, Clone, PartialEq, Eq)]
pub struct PathCall {
    /// Instance addressed.
    pub inst: CcInstance,
    /// Path inside the guest.
    pub path: String,
}

/// Request that names an instance, a path and a file mode.
#[derive(Debug, Clone, PartialEq, Eq)]
pub struct PathModeCall {
    /// Instance addressed.
    pub inst: CcInstance,
    /// Path inside the guest.
    pub path: String,
    /// File mode and permissions.
    pub mode: u32,
}

/// Request to write a whole file.
#[derive(Debug, Clone, PartialEq, Eq)]
pub struct WriteFileCall {
    /// Instance addressed.
    pub inst: CcInstance,
    /// Path inside the guest.
    pub path: String,
    /// Content to write.
    pub data: Vec<u8>,
    /// File mode and permissions.
    pub mode: u32,
}

/// Request that names an instance and two paths.
#[derive(Debug, Clone, PartialEq, Eq)]
pub struct TwoPathCall {
    /// Instance addressed.
    pub inst: CcInstance,
    /// First path (the existing name, or the link target).
    pub path_a: String,
    /// Second path (the new name, or the link path).
    pub path_b: String,
}

/// Request to open a file with explicit flags and permissions.
#[derive(Debug, Clone, PartialEq, Eq)]
pub struct OpenFileCall {
    /// Instance addressed.
    pub inst: CcInstance,
    /// Path inside the guest.
    pub path: String,
    /// Open flags (see the flag constants).
    pub flags: i32,
    /// Permissions for a created file.
    pub perm: u32,
}

/// Request to change a file's owner.
#[derive(Debug, Clone, PartialEq, Eq)]
pub struct ChownCall {
    /// Instance addressed.
    pub inst: CcInstance,
    /// Path inside the guest.
    pub path: String,
    /// New owning user id.
    pub uid: i32,
    /// New owning group id.
    pub gid: i32,
}

/// Request to change a file's access and modification times.
#[derive(Debug, Clone, PartialEq, Eq)]
pub struct ChtimesCall {
    /// Instance addressed.
    pub inst: CcInstance,
    /// Path inside the guest.
    pub path: String,
    /// New access time, Unix seconds.
    pub atime_unix: i64,
    /// New modification time, Unix seconds.
    pub mtime_unix: i64,
}

/// Request to replace the instance's init process.
#[derive(Debug, Clone, PartialEq, Eq)]
pub struct ExecCall {
    /// Instance addressed.
    pub inst: CcInstance,
    /// Program name.
    pub name: String,
    /// Program arguments.
    pub args: Vec<String>,
}

/// Request to start listening on the guest network.
#[derive(Debug, Clone, PartialEq, Eq)]
pub struct ListenCall {
    /// Instance addressed.
    pub inst: CcInstance,
    /// Network type (for example "tcp").
    pub network: String,
    /// Address to listen on (for example ":8080").
    pub address: String,
}

/// Request to take a filesystem snapshot.
#[derive(Debug, Clone, PartialEq, Eq)]
pub struct SnapshotCall {
    /// Instance addressed.
    pub inst: CcInstance,
    /// Glob patterns to exclude.
    pub excludes: Vec<String>,
    /// Cache directory for layers, if any.
    pub cache_dir: Option<String>,
}

/// Request to wait for an instance to terminate.
#[derive(Debug, Clone, PartialEq, Eq)]
pub struct InstanceWaitCall {
    /// Instance addressed.
    pub inst: CcInstance,
    /// Cancel token to observe; the invalid handle when none was given.
    pub cancel: CcCancelToken,
}

/// Request to set the console size.
#[derive(Debug, Clone, PartialEq, Eq)]
pub struct ConsoleSizeCall {
    /// Instance addressed.
    pub inst: CcInstance,
    /// Console columns.
    pub cols: i32,
    /// Console rows.
    pub rows: i32,
}

/// Request to enable or disable guest network access.
#[derive(Debug, Clone, PartialEq, Eq)]
pub struct NetworkEnabledCall {
    /// Instance addressed.
    pub inst: CcInstance,
    /// Whether network access is enabled.
    pub enabled: bool,
}

// ---------------------------------------------------------------------
// Call descriptions: command, file and connection operations
// ---------------------------------------------------------------------

/// Request to create a command from a name and arguments.
#[derive(Debug, Clone, PartialEq, Eq)]
pub struct CmdNewCall {
    /// Instance the command runs in.
    pub inst: CcInstance,
    /// Program name.
    pub name: String,
    /// Program arguments.
    pub args: Vec<String>,
}

/// Request to create a command from the image's entrypoint.
#[derive(Debug, Clone, PartialEq, Eq)]
pub struct CmdEntrypointCall {
    /// Instance the command runs in.
    pub inst: CcInstance,
    /// Arguments appended to the entrypoint, if any were given.
    pub args: Option<Vec<String>>,
}

/// Request to set a command's working directory.
#[derive(Debug, Clone, PartialEq, Eq)]
pub struct CmdDirCall {
    /// Command addressed.
    pub cmd: CcCmd,
    /// Working directory.
    pub dir: String,
}

/// Request to set one environment variable of a command.
#[derive(Debug, Clone, PartialEq, Eq)]
pub struct CmdEnvCall {
    /// Command addressed.
    pub cmd: CcCmd,
    /// Variable name.
    pub key: String,
    /// Variable value.
    pub value: String,
}

/// Request to read one environment variable of a command.
#[derive(Debug, Clone, PartialEq, Eq)]
pub struct CmdGetEnvCall {
    /// Command addressed.
    pub cmd: CcCmd,
    /// Variable name.
    pub key: String,
}

/// Request to read from an open file.
#[derive(Debug, Clone, PartialEq, Eq)]
pub struct FileReadCall {
    /// File addressed.
    pub file: CcFile,
    /// Capacity of the caller's buffer.
    pub max_len: usize,
}

/// Request to write to an open file.
#[derive(Debug, Clone, PartialEq, Eq)]
pub struct FileWriteCall {
    /// File addressed.
    pub file: CcFile,
    /// Bytes to write.
    pub data: Vec<u8>,
}

/// Request to reposition an open file.
#[derive(Debug, Clone, PartialEq, Eq)]
pub struct FileSeekCall {
    /// File addressed.
    pub file: CcFile,
    /// Offset relative to the origin.
    pub offset: i64,
    /// Numeric seek origin (see `SeekWhence::code`).
    pub whence_code: i32,
}

/// Request to truncate an open file.
#[derive(Debug, Clone, PartialEq, Eq)]
pub struct FileTruncateCall {
    /// File addressed.
    pub file: CcFile,
    /// New size in bytes.
    pub size: i64,
}

/// Request to read from a connection.
#[derive(Debug, Clone, PartialEq, Eq)]
pub struct ConnReadCall {
    /// Connection addressed.
    pub conn: CcConn,
    /// Capacity of the caller's buffer.
    pub max_len: usize,
}

/// Request to write to a connection.
#[derive(Debug, Clone, PartialEq, Eq)]
pub struct ConnWriteCall {
    /// Connection addressed.
    pub conn: CcConn,
    /// Bytes to write.
    pub data: Vec<u8>,
}

// ---------------------------------------------------------------------
// Raw replies
// ---------------------------------------------------------------------

/// File information as the boundary reports it; a null name became `None`.
#[derive(Debug, Clone, PartialEq, Eq)]
pub struct RawFileInfo {
    /// File name, if the boundary attached one.
    pub name: Option<String>,
    /// File size in bytes.
    pub size: i64,
    /// File mode and permissions.
    pub mode: u32,
    /// Modification time as a Unix timestamp in seconds.
    pub mod_time_unix: i64,
    /// Whether this is a directory.
    pub is_dir: bool,
    /// Whether this is a symbolic link.
    pub is_symlink: bool,
}

/// Directory entry as the boundary reports it; a null name became `None`.
#[derive(Debug, Clone, PartialEq, Eq)]
pub struct RawDirEntry {
    /// Entry name, if the boundary attached one.
    pub name: Option<String>,
    /// Whether this is a directory.
    pub is_dir: bool,
    /// Entry mode and permissions.
    pub mode: u32,
}

/// Image configuration as the boundary reports it. Null strings became
/// `None`, both for the single fields and inside the arrays.
#[derive(Debug, Clone, PartialEq, Eq)]
pub struct RawImageConfig {
    /// Architecture string.
    pub architecture: Option<String>,
    /// Environment entries.
    pub env: Vec<Option<String>>,
    /// Working directory.
    pub working_dir: Option<String>,
    /// Entrypoint entries.
    pub entrypoint: Vec<Option<String>>,
    /// Default command entries.
    pub cmd: Vec<Option<String>>,
    /// User string.
    pub user: Option<String>,
}

/// System capabilities as the boundary reports them.
#[derive(Debug, Clone, PartialEq, Eq)]
pub struct RawCapabilities {
    /// Whether a hypervisor is available.
    pub hypervisor_available: bool,
    /// Maximum memory in MB.
    pub max_memory_mb: u64,
    /// Maximum number of CPUs.
    pub max_cpus: i32,
    /// Architecture string, if the boundary attached one.
    pub architecture: Option<String>,
}

// ---------------------------------------------------------------------
// Shared reply conversions
// ---------------------------------------------------------------------

/// The text of an optional boundary string: its characters, or empty when
/// the boundary returned null.
pub open spec fn opt_text(s: Option<String>) -> Seq<char> {
    match s {
        Some(t) => t@,
        None => Seq::empty(),
    }
}

/// Materialize a best-effort boundary string: null becomes the empty
/// string.
pub fn string_or_empty(s: Option<String>) -> (r: String)
    ensures
        r@ == opt_text(s),
{
    match s {
        Some(t) => t,
        None => String::new(),
    }
}

/// The content of an optional byte buffer: its bytes, or empty when the
/// boundary returned null.
pub open spec fn opt_bytes(b: Option<Vec<u8>>) -> Seq<u8> {
    match b {
        Some(v) => v@,
        None => Seq::empty(),
    }
}

/// Whether the owned strings carry, in order, the same text as the
/// borrowed ones.
pub open spec fn views_match(owned: Seq<String>, borrowed: Seq<&str>) -> bool {
    &&& owned.len() == borrowed.len()
    &&& forall|i: int| 0 <= i < owned.len() ==> owned[i]@ == borrowed[i]@
}

/// Copy borrowed argument strings into owned ones, in order.
pub fn strings_of(args: &[&str]) -> (r: Vec<String>)
    ensures
        views_match(r@, args@),
{
    let mut r: Vec<String> = Vec::new();
    let n = args.len();
    let mut i: usize = 0;
    while i < n
        invariant
            n == args@.len(),
            i <= n,
            r@.len() == i,
            forall|j: int| 0 <= j < i ==> r@[j]@ == args@[j]@,
        decreases n - i,
    {
        r.push(args[i].to_owned());
        i = i + 1;
    }
    r
}

/// The views of the present strings of a sequence, in order; the absent
/// entries are skipped.
pub open spec fn some_views(s: Seq<Option<Seq<char>>>) -> Seq<Seq<char>>
    decreases s.len(),
{
    if s.len() == 0 {
        Seq::empty()
    } else {
        let rest = some_views(s.drop_last());
        match s.last() {
            Some(x) => rest.push(x),
            None => rest,
        }
    }
}

/// Keep the present strings of a boundary string array, in order,
/// dropping the null entries.
pub fn collect_present(xs: Vec<Option<String>>) -> (r: Vec<String>)
    ensures
        r.deep_view() == some_views(xs.deep_view()),
{
    let mut r: Vec<String> = Vec::new();
    let n = xs.len();
    let mut i: usize = 0;
    while i < n
        invariant
            n == xs.len(),
            i <= n,
            r.deep_view() =~= some_views(xs.deep_view().take(i as int)),
        decreases n - i,
    {
        proof {
            assert(xs.deep_view().take(i + 1).drop_last() =~= xs.deep_view().take(i as int));
            assert(xs.deep_view().take(i + 1).last() == xs.deep_view()[i as int]);
        }
        match &xs[i] {
            Some(s) => {
                r.push(s.clone());
            },
            None => {},
        }
        i = i + 1;
    }
    proof {
        assert(xs.deep_view().take(n as int) =~= xs.deep_view());
    }
    r
}

} // verus!
