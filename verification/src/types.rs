//! Plain data types shared across the layer: option records handed to
//! boundary calls and result records handed back to callers.
//!
//! Everything here is host-owned value data. Strings and byte buffers
//! returned by the boundary are copied out before they reach these types,
//! so no value of this module ever points into foreign-owned memory.

use vstd::prelude::*;

verus! {

/// Pull policy for image fetching.
#[derive(Debug, Clone, Copy, PartialEq, Eq, Structural)]
pub enum PullPolicy {
    /// Pull only if the image is not present locally.
    IfNotPresent,
    /// Always pull the latest image from the registry.
    Always,
    /// Never pull; fail if the image is not present locally.
    Never,
}

impl PullPolicy {
    /// The numeric encoding the boundary expects for this policy.
    pub fn code(&self) -> (r: i32)
        ensures
            *self is IfNotPresent ==> r == 0,
            *self is Always ==> r == 1,
            *self is Never ==> r == 2,
    {
        match self {
            PullPolicy::IfNotPresent => 0,
            PullPolicy::Always => 1,
            PullPolicy::Never => 2,
        }
    }
}

impl Default for PullPolicy {
    fn default() -> (r: Self)
        ensures
            r is IfNotPresent,
    {
        PullPolicy::IfNotPresent
    }
}

/// Seek origin for file operations.
#[derive(Debug, Clone, Copy, PartialEq, Eq, Structural)]
pub enum SeekWhence {
    /// Seek from the beginning of the file.
    Start,
    /// Seek from the current position.
    Current,
    /// Seek from the end of the file.
    End,
}

impl SeekWhence {
    /// The numeric encoding the boundary expects for this origin.
    pub fn code(&self) -> (r: i32)
        ensures
            *self is Start ==> r == 0,
            *self is Current ==> r == 1,
            *self is End ==> r == 2,
    {
        match self {
            SeekWhence::Start => 0,
            SeekWhence::Current => 1,
            SeekWhence::End => 2,
        }
    }
}

impl Default for SeekWhence {
    fn default() -> (r: Self)
        ensures
            r is Start,
    {
        SeekWhence::Start
    }
}

/// Options for pulling images.
#[derive(Debug, Clone, PartialEq, Eq)]
pub struct PullOptions {
    /// Target OS (for example "linux").
    pub platform_os: Option<String>,
    /// Target architecture (for example "amd64", "arm64").
    pub platform_arch: Option<String>,
    /// Registry username for authentication.
    pub username: Option<String>,
    /// Registry password for authentication.
    pub password: Option<String>,
    /// Pull policy.
    pub policy: PullPolicy,
}

impl Default for PullOptions {
    fn default() -> (r: Self)
        ensures
            r.platform_os is None,
            r.platform_arch is None,
            r.username is None,
            r.password is None,
            r.policy is IfNotPresent,
    {
        PullOptions {
            platform_os: None,
            platform_arch: None,
            username: None,
            password: None,
            policy: PullPolicy::IfNotPresent,
        }
    }
}

/// Mount configuration for a shared directory.
#[derive(Debug, Clone, PartialEq, Eq)]
pub struct MountConfig {
    /// Mount tag the guest uses to address the share.
    pub tag: String,
    /// Host directory backing the share (`None` for an empty writable
    /// filesystem).
    pub host_path: Option<String>,
    /// Whether the mount is writable (read-only when false).
    pub writable: bool,
}

/// Options for creating an instance.
///
/// The boundary takes the timeout as seconds; this layer carries it in
/// whole milliseconds (zero meaning no timeout) so the value stays exact.
#[derive(Debug, Clone, PartialEq, Eq)]
pub struct InstanceOptions {
    /// Memory in MB.
    pub memory_mb: u64,
    /// Number of virtual CPUs.
    pub cpus: i32,
    /// Instance timeout in milliseconds (0 for no timeout).
    pub timeout_ms: u64,
    /// User and group to run as (for example "1000:1000").
    pub user: Option<String>,
    /// Enable kernel diagnostic output.
    pub enable_dmesg: bool,
    /// Shared-directory mounts.
    pub mounts: Vec<MountConfig>,
}

impl Default for InstanceOptions {
    fn default() -> (r: Self)
        ensures
            r.memory_mb == 256,
            r.cpus == 1,
            r.timeout_ms == 0,
            r.user is None,
            !r.enable_dmesg,
            r.mounts@.len() == 0,
    {
        InstanceOptions {
            memory_mb: 256,
            cpus: 1,
            timeout_ms: 0,
            user: None,
            enable_dmesg: false,
            mounts: Vec::new(),
        }
    }
}

/// File information record.
#[derive(Debug, Clone, PartialEq, Eq)]
pub struct FileInfo {
    /// File name.
    pub name: String,
    /// File size in bytes.
    pub size: i64,
    /// File mode and permissions.
    pub mode: u32,
    /// Modification time as a Unix timestamp in seconds.
    pub mod_time_unix: i64,
    /// Whether this is a directory.
    pub is_dir: bool,
    /// Whether this is a symbolic link.
    pub is_symlink: bool,
}

/// Directory entry.
#[derive(Debug, Clone, PartialEq, Eq)]
pub struct DirEntry {
    /// Entry name.
    pub name: String,
    /// Whether this is a directory.
    pub is_dir: bool,
    /// Entry mode and permissions.
    pub mode: u32,
}

/// Image configuration.
#[derive(Debug, Clone, PartialEq, Eq)]
pub struct ImageConfig {
    /// Architecture (for example "amd64", "arm64").
    pub architecture: Option<String>,
    /// Environment variables as "KEY=VALUE" strings.
    pub env: Vec<String>,
    /// Working directory.
    pub working_dir: Option<String>,
    /// Entrypoint command.
    pub entrypoint: Vec<String>,
    /// Default command arguments.
    pub cmd: Vec<String>,
    /// User to run as.
    pub user: Option<String>,
}

impl Default for ImageConfig {
    fn default() -> (r: Self)
        ensures
            r.architecture is None,
            r.env@.len() == 0,
            r.working_dir is None,
            r.entrypoint@.len() == 0,
            r.cmd@.len() == 0,
            r.user is None,
    {
        ImageConfig {
            architecture: None,
            env: Vec::new(),
            working_dir: None,
            entrypoint: Vec::new(),
            cmd: Vec::new(),
            user: None,
        }
    }
}

/// System capabilities.
#[derive(Debug, Clone, PartialEq, Eq)]
pub struct Capabilities {
    /// Whether a hypervisor is available.
    pub hypervisor_available: bool,
    /// Maximum memory in MB (0 if unknown).
    pub max_memory_mb: u64,
    /// Maximum number of CPUs (0 if unknown).
    pub max_cpus: i32,
    /// Architecture (for example "x86_64", "arm64").
    pub architecture: String,
}

/// Options for filesystem snapshots.
#[derive(Debug, Clone, PartialEq, Eq)]
pub struct SnapshotOptions {
    /// Glob patterns to exclude.
    pub excludes: Vec<String>,
    /// Cache directory for layers.
    pub cache_dir: Option<String>,
}

impl Default for SnapshotOptions {
    fn default() -> (r: Self)
        ensures
            r.excludes@.len() == 0,
            r.cache_dir is None,
    {
        SnapshotOptions { excludes: Vec::new(), cache_dir: None }
    }
}

/// Options for building an image from a recipe.
///
/// Build arguments are an ordered list of key-value pairs standing for
/// a mapping: a well-formed value names each key once (see
/// `keys_distinct`). The boundary receives the pairs in this order.
#[derive(Debug, Clone, PartialEq, Eq)]
pub struct DockerfileOptions {
    /// Build context directory, if any.
    pub context_dir: Option<String>,
    /// Cache directory for layers (required by the boundary).
    pub cache_dir: String,
    /// Build arguments as key-value pairs, in order; keys distinct.
    pub build_args: Vec<(String, String)>,
}

impl DockerfileOptions {
    /// Well-formedness of the build arguments: no key is named twice,
    /// as a mapping of arguments would guarantee.
    pub open spec fn keys_distinct(&self) -> bool {
        forall|i: int, j: int|
            0 <= i < j < self.build_args@.len() ==> self.build_args@[i].0@
                != self.build_args@[j].0@
    }
}

impl Default for DockerfileOptions {
    fn default() -> (r: Self)
        ensures
            r.context_dir is None,
            r.cache_dir@.len() == 0,
            r.build_args@.len() == 0,
            r.keys_distinct(),
    {
        DockerfileOptions { context_dir: None, cache_dir: String::new(), build_args: Vec::new() }
    }
}

/// Output of a completed command.
#[derive(Debug, Clone, PartialEq, Eq)]
pub struct CommandOutput {
    /// Captured output bytes.
    pub stdout: Vec<u8>,
    /// Exit code.
    pub exit_code: i32,
}

} // verus!
