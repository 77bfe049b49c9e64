use vstd::prelude::*;

use crate::errors::HostError;

verus! {

/// An in-memory sink for a sandbox's standard output or error stream,
/// shared with the supervising scheduler for log collection. The host
/// state only tracks which sink a stream is redirected to; the sink's
/// storage lives with the scheduler.
#[derive(Clone, Copy, PartialEq, Eq, Structural, Debug)]
pub struct StdoutCapture {
    /// The scheduler-assigned identifier of the sink.
    pub sink: u64,
}

/// The WASI-facing capability context of one process, built from its
/// configuration snapshot. Argument, environment and file access are
/// performed by the external WASI layer; this context validates the
/// snapshot at construction and tracks where the sandbox's output
/// streams are redirected to.
#[derive(Clone, PartialEq, Eq, Debug)]
pub struct WasiState {
    /// Where the sandbox's standard output goes, once redirected.
    pub stdout: Option<StdoutCapture>,
    /// Where the sandbox's standard error goes, once redirected.
    pub stderr: Option<StdoutCapture>,
}

/// A preopened-directory entry the context can be built from: the empty
/// path is malformed, since no directory can be opened under it.
pub open spec fn preopen_ok(path: Seq<char>) -> bool {
    path.len() > 0
}

/// Whether every preopened-directory entry of a snapshot is well formed.
pub open spec fn preopens_ok(paths: Seq<String>) -> bool {
    forall|i: int| 0 <= i < paths.len() ==> preopen_ok(#[trigger] paths[i]@)
}

/// Build the WASI-facing context from the pieces of a configuration
/// snapshot. Construction succeeds, with both output streams still
/// unredirected, exactly when every preopened-directory entry is well
/// formed; a malformed entry is a [`HostError::ConfigurationError`],
/// fatal to process construction. Arguments and environment variables
/// are handed on to the external WASI layer unchecked.
pub fn build_wasi(
    _command_line_arguments: &Vec<String>,
    _environment_variables: &Vec<(String, String)>,
    preopened_dirs: &Vec<String>,
) -> (r: Result<WasiState, HostError>)
    ensures
        preopens_ok(preopened_dirs@) ==> r == Ok::<WasiState, HostError>(
            WasiState { stdout: None, stderr: None },
        ),
        !preopens_ok(preopened_dirs@) ==> r == Err::<WasiState, HostError>(
            HostError::ConfigurationError,
        ),
{
    let mut i: usize = 0;
    while i < preopened_dirs.len()
        invariant
            i <= preopened_dirs@.len(),
            forall|j: int| 0 <= j < i ==> preopen_ok(#[trigger] preopened_dirs@[j]@),
        decreases preopened_dirs@.len() - i,
    {
        if preopened_dirs[i].as_str().is_empty() {
            proof {
                assert(!preopen_ok(preopened_dirs@[i as int]@));
            }
            return Err(HostError::ConfigurationError);
        }
        i = i + 1;
    }
    Ok(WasiState { stdout: None, stderr: None })
}

impl WasiState {
    /// Redirect the sandbox's standard output stream to a sink.
    pub fn set_stdout(&mut self, stdout: StdoutCapture)
        ensures
            *final(self) == (WasiState { stdout: Some(stdout), ..*old(self) }),
    {
        self.stdout = Some(stdout);
    }

    /// Redirect the sandbox's standard error stream to a sink.
    pub fn set_stderr(&mut self, stderr: StdoutCapture)
        ensures
            *final(self) == (WasiState { stderr: Some(stderr), ..*old(self) }),
    {
        self.stderr = Some(stderr);
    }
}

} // verus!
