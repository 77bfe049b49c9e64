use vstd::prelude::*;

verus! {

/// A shared, immutable reference into the external virtual-machine
/// engine that executes sandboxed bytecode. The engine is out of this
/// library's scope; the host state only carries the reference.
#[derive(Clone, Copy, PartialEq, Eq, Structural, Debug)]
pub struct RuntimeHandle {
    /// The engine-assigned identifier of the runtime instance.
    pub id: u64,
}

/// A shared, immutable reference to a module compiled by the external
/// virtual-machine engine, from which processes are spawned.
#[derive(Clone, Copy, PartialEq, Eq, Structural, Debug)]
pub struct ModuleHandle {
    /// The engine-assigned identifier of the compiled module.
    pub id: u64,
}

} // verus!
