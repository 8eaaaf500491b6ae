//! The command wrapper and its execution state machine.
//!
//! A command is configured, then started at most once, then waited on;
//! the convenience runs (run, output, combined output) do start and wait
//! in one boundary call. The wrapper tracks one bit of state, `started`,
//! and the release rule hangs on it: only a command that never started is
//! freed by the implicit end-of-use release. A command that started is
//! reclaimed by the boundary through wait, run, output or kill — freeing
//! a started command through the generic release path is undefined at
//! the boundary, so `teardown` refuses it by construction. The
//! convenience runs and `kill` consume the wrapper whole, which
//! disarms `teardown` even when the boundary call then fails.

use vstd::prelude::*;

use crate::boundary::{opt_bytes, CmdDirCall, CmdEnvCall, CmdGetEnvCall};
use crate::error::{error_from_cc, is_translation, Error, ForeignError, CC_OK};
use crate::handle::CcCmd;
use crate::types::CommandOutput;

verus! {

/// A command to run in an instance.
#[derive(Debug)]
pub struct Cmd {
    /// The owned command handle.
    pub handle: CcCmd,
    /// Whether the command has been started.
    pub started: bool,
}

impl Cmd {
    /// Adopt a command handle for a command that has not started.
    pub fn from_handle(handle: CcCmd) -> (r: Self)
        ensures
            r.handle == handle,
            !r.started,
    {
        Cmd { handle, started: false }
    }

    /// Adopt the outcome of the boundary's command construction (by name
    /// and arguments, or from the entrypoint). A fresh command has not
    /// started.
    pub fn from_reply(rec: ForeignError, handle: CcCmd) -> (r: Result<Cmd, Error>)
        ensures
            rec.code == CC_OK ==> (r matches Ok(c) && c.handle == handle && !c.started),
            rec.code != CC_OK ==> (r matches Err(e) && is_translation(rec, e)),
    {
        if rec.code == CC_OK {
            Ok(Cmd { handle, started: false })
        } else {
            Err(error_from_cc(rec))
        }
    }

    /// Describe the boundary call that sets the working directory.
    /// Configuration leaves the command configured; it may be repeated.
    pub fn dir(&self, dir: &str) -> (r: CmdDirCall)
        ensures
            r.cmd == self.handle,
            r.dir@ == dir@,
    {
        CmdDirCall { cmd: self.handle, dir: dir.to_owned() }
    }

    /// Describe the boundary call that sets one environment variable.
    pub fn env(&self, key: &str, value: &str) -> (r: CmdEnvCall)
        ensures
            r.cmd == self.handle,
            r.key@ == key@,
            r.value@ == value@,
    {
        CmdEnvCall { cmd: self.handle, key: key.to_owned(), value: value.to_owned() }
    }

    /// Describe the boundary call that reads one environment variable.
    pub fn get_env(&self, key: &str) -> (r: CmdGetEnvCall)
        ensures
            r.cmd == self.handle,
            r.key@ == key@,
    {
        CmdGetEnvCall { cmd: self.handle, key: key.to_owned() }
    }

    /// Turn the boundary's reply to an environment listing into owned
    /// "KEY=VALUE" strings, in order, skipping null entries.
    pub fn finish_environ(rec: ForeignError, env: Vec<Option<String>>) -> (r: Result<
        Vec<String>,
        Error,
    >)
        ensures
            rec.code == CC_OK ==> (r matches Ok(v) && v.deep_view()
                == crate::boundary::some_views(env.deep_view())),
            rec.code != CC_OK ==> (r matches Err(e) && is_translation(rec, e)),
    {
        let code = rec.code;
        if code != CC_OK {
            return Err(error_from_cc(rec));
        }
        Ok(crate::boundary::collect_present(env))
    }

    /// Begin starting the command (non-blocking on the boundary side).
    ///
    /// A command may be started at most once: on a command that already
    /// started this fails at once, with no boundary call. Otherwise the
    /// handle to start is returned, and `finish_start` records the
    /// outcome.
    pub fn start(&self) -> (r: Result<CcCmd, Error>)
        ensures
            self.started ==> (r matches Err(e) && e matches Error::InvalidArgument(m) && m@
                == "command already started"@),
            !self.started ==> (r matches Ok(h) && h == self.handle),
    {
        if self.started {
            return Err(Error::InvalidArgument("command already started".to_owned()));
        }
        Ok(self.handle)
    }

    /// Record the outcome of a start: only a start the boundary accepted
    /// moves the command to started; after a failed start the command is
    /// still configured (and still freed by `teardown` at end of use).
    pub fn finish_start(&mut self, rec: ForeignError) -> (r: Result<(), Error>)
        ensures
            final(self).handle == old(self).handle,
            rec.code == CC_OK ==> (r is Ok && final(self).started),
            rec.code != CC_OK ==> (r matches Err(e) && is_translation(rec, e)
                && final(self).started == old(self).started),
    {
        let code = rec.code;
        if code == CC_OK {
            self.started = true;
            Ok(())
        } else {
            Err(error_from_cc(rec))
        }
    }

    /// Begin waiting for the command to complete.
    ///
    /// Waiting is only valid on a started command: before `start` this
    /// fails at once, with no boundary call. The reply carries the exit
    /// code; `finish_wait` translates it.
    pub fn wait(&self) -> (r: Result<CcCmd, Error>)
        ensures
            !self.started ==> (r matches Err(e) && e matches Error::InvalidArgument(m) && m@
                == "command not started"@),
            self.started ==> (r matches Ok(h) && h == self.handle),
    {
        if !self.started {
            return Err(Error::InvalidArgument("command not started".to_owned()));
        }
        Ok(self.handle)
    }

    /// Turn the boundary's reply to a wait or a run into the exit code.
    pub fn finish_wait(rec: ForeignError, exit_code: i32) -> (r: Result<i32, Error>)
        ensures
            rec.code == CC_OK ==> (r matches Ok(c) && c == exit_code),
            rec.code != CC_OK ==> (r matches Err(e) && is_translation(rec, e)),
    {
        if rec.code == CC_OK {
            Ok(exit_code)
        } else {
            Err(error_from_cc(rec))
        }
    }

    /// Start the command and wait for it, in one boundary call.
    ///
    /// Consumes the wrapper: the command counts as started even if the
    /// boundary call then fails, so the generic release path can never
    /// touch a handle the boundary may already have reclaimed. The reply
    /// goes through `finish_wait`.
    pub fn run(self) -> (r: CcCmd)
        ensures
            r == self.handle,
    {
        self.handle
    }

    /// Run the command capturing its output, in one boundary call.
    ///
    /// Consumes the wrapper, exactly as `run` does. The reply goes
    /// through `finish_output`.
    pub fn output(self) -> (r: CcCmd)
        ensures
            r == self.handle,
    {
        self.handle
    }

    /// Run the command capturing output and errors together, in one
    /// boundary call.
    ///
    /// Consumes the wrapper, exactly as `run` does. The reply goes
    /// through `finish_output`.
    pub fn combined_output(self) -> (r: CcCmd)
        ensures
            r == self.handle,
    {
        self.handle
    }

    /// Turn the boundary's reply to a capturing run into the collected
    /// output: exactly the bytes the boundary reported (a null buffer
    /// counting as empty) and the exit code.
    pub fn finish_output(rec: ForeignError, data: Option<Vec<u8>>, exit_code: i32) -> (r: Result<
        CommandOutput,
        Error,
    >)
        ensures
            rec.code == CC_OK ==> (r matches Ok(out) && out.stdout@ == opt_bytes(data)
                && out.exit_code == exit_code),
            rec.code != CC_OK ==> (r matches Err(e) && is_translation(rec, e)),
    {
        let code = rec.code;
        if code != CC_OK {
            return Err(error_from_cc(rec));
        }
        let stdout = match data {
            Some(d) => d,
            None => Vec::new(),
        };
        Ok(CommandOutput { stdout, exit_code })
    }

    /// Kill the command, valid in any state and terminal.
    ///
    /// Consumes the wrapper, so no release path remains afterwards: the
    /// boundary's kill reclaims the handle whatever state it was in. The
    /// reply goes through `check_error`.
    pub fn kill(self) -> (r: CcCmd)
        ensures
            r == self.handle,
    {
        self.handle
    }

    /// The release decision at end of use: the handle to free, or `None`.
    ///
    /// Only a command that never reached started is freed here. A
    /// started command was, or must be, reclaimed through wait, run,
    /// output or kill; handing its handle to the generic free would be
    /// undefined at the boundary.
    pub fn teardown(self) -> (r: Option<CcCmd>)
        ensures
            self.handle.spec_is_valid() && !self.started ==> r == Some(self.handle),
            !(self.handle.spec_is_valid() && !self.started) ==> r is None,
    {
        if self.handle.is_valid() && !self.started {
            Some(self.handle)
        } else {
            None
        }
    }
}

} // verus!
