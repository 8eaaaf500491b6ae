//! Safety layer over a foreign virtualization runtime.
//!
//! The runtime manages the real resources (instance sources, instances,
//! guest files, guest processes, listeners, connections, snapshots,
//! cancellation tokens) and hands them out as opaque numeric handles.
//! Every call into it follows one convention: handles in, out-parameters
//! for the results, and an error record that the caller must release
//! exactly once, on success as on failure.
//!
//! This crate is the ownership, lifecycle and error-translation layer
//! above that boundary. It decides which boundary call may be made (a
//! wrapper whose handle was closed refuses every operation without
//! reaching the boundary), owns each handle through exactly one wrapper,
//! transfers ownership explicitly (source into instance, snapshot into
//! source), and turns the boundary's error records into a closed set of
//! typed errors.
//!
//! The boundary call itself cannot be made from verified code, so it is
//! reified as data: an operation on a wrapper validates its state and
//! returns a call description; once the unverified host glue has
//! performed the foreign call, a matching `finish_*` function consumes
//! the reply record (releasing it exactly once, by move) and produces
//! the typed result. The glue that performs the calls lives outside this
//! library and follows each operation's documentation.

pub mod boundary;
pub mod client;
pub mod cmd;
pub mod error;
pub mod file;
pub mod flags;
pub mod handle;
pub mod instance;
pub mod net;
pub mod runtime;
pub mod snapshot;
pub mod types;
pub mod version;

pub use client::{CancelToken, InstanceSource, OciClient};
pub use cmd::Cmd;
pub use error::{check_error, error_from_cc, Error, ForeignError};
pub use file::File;
pub use instance::Instance;
pub use net::{Conn, Listener};
pub use runtime::{
    api_version, api_version_compatible, finish_init, finish_query_capabilities,
    finish_supports_hypervisor, guest_protocol_version,
};
pub use snapshot::Snapshot;
pub use types::{
    Capabilities, CommandOutput, DirEntry, DockerfileOptions, FileInfo, ImageConfig,
    InstanceOptions, MountConfig, PullOptions, PullPolicy, SeekWhence, SnapshotOptions,
};
