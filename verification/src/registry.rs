use vstd::prelude::*;

use crate::process::ProcessHandle;

verus! {

/// The shared name directory mapping registered names to process
/// handles, visible to and mutable by every process of one runtime
/// instance under fine-grained internal locking.
#[verifier::external_type_specification]
#[verifier::external_body]
#[verifier::reject_recursive_types(K)]
#[verifier::reject_recursive_types(V)]
#[verifier::reject_recursive_types(S)]
pub struct ExDashMap<K, V, S>(dashmap::DashMap<K, V, S>);

/// The concrete registry type shared by every process of a runtime
/// instance.
pub type ProcessRegistry = dashmap::DashMap<
    String,
    ProcessHandle,
    std::collections::hash_map::RandomState,
>;

/// Relies on dashmap::DashMap::new for a fresh, initially empty
/// registry. The map is mutable through shared references from
/// arbitrary processes, so no contract pins its contents.
#[verifier::external_body]
pub(crate) fn registry_new() -> ProcessRegistry {
    dashmap::DashMap::new()
}

/// Relies on dashmap::DashMap::insert: it binds the name to the handle
/// and hands back the previously bound handle, if any. Peers mutate the
/// map concurrently, so nothing is promised of the result.
#[verifier::external_body]
pub(crate) fn registry_insert(
    registry: &std::sync::Arc<ProcessRegistry>,
    name: String,
    p: ProcessHandle,
) -> Option<ProcessHandle> {
    registry.insert(name, p)
}

/// Relies on dashmap::DashMap::get, handing out a copy of the bound
/// handle. Peers mutate the map concurrently, so nothing is promised of
/// the result.
#[verifier::external_body]
pub(crate) fn registry_get(
    registry: &std::sync::Arc<ProcessRegistry>,
    name: &String,
) -> Option<ProcessHandle> {
    registry.get(name).map(|entry| entry.value().clone())
}

/// Relies on dashmap::DashMap::remove: it unbinds the name and hands
/// back the handle it was bound to, if any. Peers mutate the map
/// concurrently, so nothing is promised of the result.
#[verifier::external_body]
pub(crate) fn registry_remove(
    registry: &std::sync::Arc<ProcessRegistry>,
    name: &String,
) -> Option<ProcessHandle> {
    registry.remove(name).map(|entry| entry.1)
}

} // verus!
