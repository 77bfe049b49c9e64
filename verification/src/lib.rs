//! Per-process host context for a lightweight actor-style process runtime.
//!
//! Each scheduled process is backed by one [`state::DefaultProcessState`]:
//! it owns the process identity, a signal queue and a message mailbox,
//! a set of kind-scoped resource tables handing out opaque integer
//! handles, the growth-admission policy for the sandboxed instance, and
//! a shared name registry visible to every process of the same runtime.

pub mod channel;
pub mod config;
pub mod errors;
pub mod mailbox;
pub mod message;
pub mod networking;
pub mod process;
pub mod registry;
pub mod runtime;
pub mod signal;
pub mod state;
pub mod table;
pub mod wasi;
