//! Registry client, instance sources and cancellation tokens.

use vstd::prelude::*;
use vstd::slice::slice_to_vec;

use crate::boundary::{
    some_views, BuildCall, ExportCall, LoadCall, PullCall, RawImageConfig,
};
use crate::error::{error_from_cc, is_translation, Error, ForeignError, CC_OK};
use crate::handle::{CcCancelToken, CcInstanceSource, CcOciClient};
use crate::types::{DockerfileOptions, ImageConfig, PullOptions, PullPolicy};

verus! {

/// An opaque reference to a pulled or loaded image.
///
/// A source owns exactly one source handle. It is consumed whole when an
/// instance is built from it (see `Instance::new`), which is what keeps
/// its handle from being released twice: once moved, no release path of
/// the source remains.
#[derive(Debug)]
pub struct InstanceSource {
    /// The owned source handle.
    pub handle: CcInstanceSource,
}

impl InstanceSource {
    /// Adopt a source handle.
    ///
    /// The handle must not be owned by another wrapper; this wrapper is
    /// its sole release path from here on.
    pub fn from_handle(handle: CcInstanceSource) -> (r: Self)
        ensures
            r.handle == handle,
    {
        InstanceSource { handle }
    }

    /// Adopt the outcome of a boundary call that produced a source
    /// (pull, load from archive, load from directory).
    ///
    /// On success the returned wrapper owns `handle`; on failure the
    /// record is translated and no handle is retained.
    pub fn from_reply(rec: ForeignError, handle: CcInstanceSource) -> (r: Result<
        InstanceSource,
        Error,
    >)
        ensures
            rec.code == CC_OK ==> (r matches Ok(s) && s.handle == handle),
            rec.code != CC_OK ==> (r matches Err(e) && is_translation(rec, e)),
    {
        if rec.code == CC_OK {
            Ok(InstanceSource { handle })
        } else {
            Err(error_from_cc(rec))
        }
    }

    /// The owned handle, for naming this source in a boundary call.
    pub fn handle(&self) -> (r: CcInstanceSource)
        ensures
            r == self.handle,
    {
        self.handle
    }

    /// Turn the boundary's reply to a configuration query into an image
    /// configuration. A missing record becomes the empty configuration;
    /// null entries inside the string arrays are skipped.
    pub fn finish_get_config(rec: ForeignError, config: Option<RawImageConfig>) -> (r: Result<
        ImageConfig,
        Error,
    >)
        ensures
            rec.code != CC_OK ==> (r matches Err(e) && is_translation(rec, e)),
            rec.code == CC_OK && config is None ==> (r matches Ok(c) && c.architecture is None
                && c.env@.len() == 0 && c.working_dir is None && c.entrypoint@.len() == 0
                && c.cmd@.len() == 0 && c.user is None),
            rec.code == CC_OK ==> (config matches Some(raw) ==> r matches Ok(c) && {
                &&& c.architecture == raw.architecture
                &&& c.env.deep_view() == some_views(raw.env.deep_view())
                &&& c.working_dir == raw.working_dir
                &&& c.entrypoint.deep_view() == some_views(raw.entrypoint.deep_view())
                &&& c.cmd.deep_view() == some_views(raw.cmd.deep_view())
                &&& c.user == raw.user
            }),
    {
        let code = rec.code;
        if code != CC_OK {
            return Err(error_from_cc(rec));
        }
        match config {
            None => Ok(ImageConfig::default()),
            Some(raw) => Ok(
                ImageConfig {
                    architecture: raw.architecture,
                    env: crate::boundary::collect_present(raw.env),
                    working_dir: raw.working_dir,
                    entrypoint: crate::boundary::collect_present(raw.entrypoint),
                    cmd: crate::boundary::collect_present(raw.cmd),
                    user: raw.user,
                },
            ),
        }
    }

    /// The release decision at end of use: the handle to free, if this
    /// source still owns one. A source whose handle is invalid is a
    /// successful no-op.
    pub fn teardown(self) -> (r: Option<CcInstanceSource>)
        ensures
            self.handle.spec_is_valid() ==> r == Some(self.handle),
            !self.handle.spec_is_valid() ==> r is None,
    {
        if self.handle.is_valid() {
            Some(self.handle)
        } else {
            None
        }
    }
}

/// A cancellation token for long-running operations.
///
/// Cancelling is a one-way transition: a fresh token reports
/// not-cancelled, and once `cancel` has been called every later
/// `is_cancelled` reports cancelled. No method of this type resets the
/// flag. The wrapper mirrors the boundary's flag, which only this
/// wrapper's own `cancel` can raise.
#[derive(Debug)]
pub struct CancelToken {
    /// The owned token handle.
    pub handle: CcCancelToken,
    /// Whether `cancel` has been called on this token.
    pub cancelled: bool,
}

impl CancelToken {
    /// A fresh, unbound token: not cancelled, no boundary handle yet.
    ///
    /// A token that should be observed by the foreign runtime is built
    /// with `from_handle` instead; an unbound token still cancels
    /// operations of this layer that consult it.
    pub fn new() -> (r: Self)
        ensures
            r.handle.h == 0,
            !r.cancelled,
    {
        CancelToken { handle: CcCancelToken { h: 0 }, cancelled: false }
    }

    /// Adopt a fresh boundary token. The boundary creates tokens in the
    /// not-cancelled state.
    pub fn from_handle(handle: CcCancelToken) -> (r: Self)
        ensures
            r.handle == handle,
            !r.cancelled,
    {
        CancelToken { handle, cancelled: false }
    }

    /// The owned handle, for passing this token into a boundary call.
    pub fn handle(&self) -> (r: CcCancelToken)
        ensures
            r == self.handle,
    {
        self.handle
    }

    /// Cancel the token, permanently.
    ///
    /// Returns the handle on which the boundary's own cancel must be
    /// invoked, or `None` for an unbound token, which is cancelled
    /// locally without a boundary call.
    pub fn cancel(&mut self) -> (r: Option<CcCancelToken>)
        ensures
            final(self).cancelled,
            final(self).handle == old(self).handle,
            old(self).handle.spec_is_valid() ==> r == Some(old(self).handle),
            !old(self).handle.spec_is_valid() ==> r is None,
    {
        self.cancelled = true;
        if self.handle.is_valid() {
            Some(self.handle)
        } else {
            None
        }
    }

    /// Whether the token has been cancelled.
    pub fn is_cancelled(&self) -> (r: bool)
        ensures
            r == self.cancelled,
    {
        self.cancelled
    }

    /// The release decision at end of use: the handle to free, if any.
    pub fn teardown(self) -> (r: Option<CcCancelToken>)
        ensures
            self.handle.spec_is_valid() ==> r == Some(self.handle),
            !self.handle.spec_is_valid() ==> r is None,
    {
        if self.handle.is_valid() {
            Some(self.handle)
        } else {
            None
        }
    }
}

impl Default for CancelToken {
    fn default() -> (r: Self)
        ensures
            r.handle.h == 0,
            !r.cancelled,
    {
        CancelToken::new()
    }
}

/// Client for pulling and managing images.
#[derive(Debug)]
pub struct OciClient {
    /// The owned client handle.
    pub handle: CcOciClient,
}

impl OciClient {
    /// Adopt the outcome of the boundary's client construction (default
    /// or custom cache directory).
    pub fn from_reply(rec: ForeignError, handle: CcOciClient) -> (r: Result<OciClient, Error>)
        ensures
            rec.code == CC_OK ==> (r matches Ok(c) && c.handle == handle),
            rec.code != CC_OK ==> (r matches Err(e) && is_translation(rec, e)),
    {
        if rec.code == CC_OK {
            Ok(OciClient { handle })
        } else {
            Err(error_from_cc(rec))
        }
    }

    /// Describe the boundary call that pulls an image from a registry.
    ///
    /// Absent options mean the defaults; an absent token means no
    /// cancellation (the invalid token handle).
    pub fn pull(
        &self,
        image_ref: &str,
        options: Option<PullOptions>,
        cancel_token: Option<&CancelToken>,
    ) -> (r: PullCall)
        ensures
            r.client == self.handle,
            r.image_ref@ == image_ref@,
            options matches Some(o) ==> r.options == o,
            options is None ==> r.options.platform_os is None && r.options.platform_arch is None
                && r.options.username is None && r.options.password is None
                && r.options.policy is IfNotPresent,
            cancel_token matches Some(t) ==> r.cancel == t.handle,
            cancel_token is None ==> r.cancel.h == 0,
    {
        let opts = match options {
            Some(o) => o,
            None => PullOptions::default(),
        };
        let cancel = match cancel_token {
            Some(t) => t.handle,
            None => CcCancelToken { h: 0 },
        };
        PullCall { client: self.handle, image_ref: image_ref.to_owned(), options: opts, cancel }
    }

    /// Describe the boundary call that loads an image from a local
    /// archive. Loading passes no registry credentials: any username or
    /// password in the options is discarded.
    pub fn load_tar(&self, tar_path: &str, options: Option<PullOptions>) -> (r: LoadCall)
        ensures
            r.client == self.handle,
            r.path@ == tar_path@,
            options matches Some(o) ==> r.options.platform_os == o.platform_os
                && r.options.platform_arch == o.platform_arch && r.options.policy == o.policy,
            options is None ==> r.options.platform_os is None && r.options.platform_arch is None
                && r.options.policy is IfNotPresent,
            r.options.username is None,
            r.options.password is None,
    {
        let opts = match options {
            Some(o) => o,
            None => PullOptions::default(),
        };
        let scrubbed = PullOptions {
            platform_os: opts.platform_os,
            platform_arch: opts.platform_arch,
            username: None,
            password: None,
            policy: opts.policy,
        };
        LoadCall { client: self.handle, path: tar_path.to_owned(), options: scrubbed }
    }

    /// Describe the boundary call that loads an image from a prepared
    /// directory. Loading passes no registry credentials: any username or
    /// password in the options is discarded.
    pub fn load_dir(&self, dir_path: &str, options: Option<PullOptions>) -> (r: LoadCall)
        ensures
            r.client == self.handle,
            r.path@ == dir_path@,
            options matches Some(o) ==> r.options.platform_os == o.platform_os
                && r.options.platform_arch == o.platform_arch && r.options.policy == o.policy,
            options is None ==> r.options.platform_os is None && r.options.platform_arch is None
                && r.options.policy is IfNotPresent,
            r.options.username is None,
            r.options.password is None,
    {
        let opts = match options {
            Some(o) => o,
            None => PullOptions::default(),
        };
        let scrubbed = PullOptions {
            platform_os: opts.platform_os,
            platform_arch: opts.platform_arch,
            username: None,
            password: None,
            policy: opts.policy,
        };
        LoadCall { client: self.handle, path: dir_path.to_owned(), options: scrubbed }
    }

    /// Describe the boundary call that exports a source to a directory.
    /// The source is only named; its ownership stays where it is.
    pub fn export_dir(&self, source: &InstanceSource, dir_path: &str) -> (r: ExportCall)
        ensures
            r.client == self.handle,
            r.source == source.handle,
            r.dir_path@ == dir_path@,
    {
        ExportCall { client: self.handle, source: source.handle, dir_path: dir_path.to_owned() }
    }

    /// Describe the boundary call that builds an image source from
    /// recipe bytes.
    pub fn build_dockerfile(
        &self,
        dockerfile: &[u8],
        options: DockerfileOptions,
        cancel_token: Option<&CancelToken>,
    ) -> (r: BuildCall)
        ensures
            r.client == self.handle,
            r.dockerfile@ == dockerfile@,
            r.options == options,
            options.keys_distinct() ==> r.options.keys_distinct(),
            cancel_token matches Some(t) ==> r.cancel == t.handle,
            cancel_token is None ==> r.cancel.h == 0,
    {
        let cancel = match cancel_token {
            Some(t) => t.handle,
            None => CcCancelToken { h: 0 },
        };
        BuildCall { client: self.handle, dockerfile: slice_to_vec(dockerfile), options, cancel }
    }

    /// The release decision at end of use: the handle to free, if any.
    pub fn teardown(self) -> (r: Option<CcOciClient>)
        ensures
            self.handle.spec_is_valid() ==> r == Some(self.handle),
            !self.handle.spec_is_valid() ==> r is None,
    {
        if self.handle.is_valid() {
            Some(self.handle)
        } else {
            None
        }
    }
}

} // verus!
