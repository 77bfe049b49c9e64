use vstd::prelude::*;

verus! {

/// Captured error values, stored in a resource table for host-side
/// inspection by the sandbox, are anyhow::Error values; the host never
/// looks inside them, it only hands out and resolves handles to them.
#[verifier::external_type_specification]
#[verifier::external_body]
pub struct ExAnyhowError(anyhow::Error);

/// Why a host-side operation on a process state failed.
///
/// Every fallible operation of this crate reports one of these values to
/// its caller; none of them is allowed to crash the surrounding runtime.
#[derive(Clone, Copy, PartialEq, Eq, Structural, Debug)]
pub enum HostError {
    /// The presented handle is absent from the table it was looked up in,
    /// either because it was never issued there or because it was removed.
    NotFound,
    /// Building a capability context from a configuration snapshot failed,
    /// for example because of a malformed preopened directory entry.
    ConfigurationError,
    /// A growth or creation request of the sandboxed instance was refused
    /// by the admission policy.
    ResourceDenied,
    /// The sending side of a mailbox channel is fully dropped; treated as
    /// an implicit termination signal by receive operations.
    ChannelClosed,
}

} // verus!
