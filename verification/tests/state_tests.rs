use std::sync::Arc;

use lunatic_state::config::DefaultProcessConfig;
use lunatic_state::errors::HostError;
use lunatic_state::registry::ProcessRegistry;
use lunatic_state::runtime::{ModuleHandle, RuntimeHandle};
use lunatic_state::channel::SignalPoll;
use lunatic_state::networking::{DnsIterator, SocketAddress};
use lunatic_state::signal::Signal;
use lunatic_state::state::DefaultProcessState;
use lunatic_state::wasi::StdoutCapture;

fn fresh_registry() -> Arc<ProcessRegistry> {
    Arc::new(dashmap::DashMap::new())
}

fn spawned(config: DefaultProcessConfig, registry: Arc<ProcessRegistry>) -> DefaultProcessState {
    DefaultProcessState::new(
        RuntimeHandle { id: 1 },
        ModuleHandle { id: 1 },
        Arc::new(config),
        registry,
    )
    .expect("a well-formed snapshot constructs")
}

#[test]
fn independent_states_have_distinct_identities() {
    let a = DefaultProcessState::default();
    let b = DefaultProcessState::default();
    assert_ne!(a.id(), b.id());
}

#[test]
fn construction_starts_uninitialized() {
    let mut s = spawned(DefaultProcessConfig::default(), fresh_registry());
    assert!(!s.is_initialized());
    s.initialize();
    assert!(s.is_initialized());
    assert_eq!(s.runtime().id, 1);
    assert_eq!(s.module().id, 1);
}

#[test]
fn malformed_preopen_fails_construction() {
    let mut config = DefaultProcessConfig::default();
    config.preopened_dirs.push(String::new());
    let r = DefaultProcessState::new(
        RuntimeHandle { id: 1 },
        ModuleHandle { id: 1 },
        Arc::new(config),
        fresh_registry(),
    );
    assert!(matches!(r, Err(HostError::ConfigurationError)));
}

#[test]
fn registry_is_shared_between_states() {
    let registry = fresh_registry();
    let first = spawned(DefaultProcessConfig::default(), Arc::clone(&registry));
    let second = spawned(DefaultProcessConfig::default(), Arc::clone(&registry));

    first.register_name("worker1".to_string(), first.handle());
    let name = "worker1".to_string();
    let found = second.lookup_name(&name).expect("the peer sees the binding");
    assert_eq!(found.identity(), first.id());

    second.unregister_name(&name);
    assert!(first.lookup_name(&name).is_none());
}

#[test]
fn memory_growth_admitted_up_to_configured_maximum() {
    let mut config = DefaultProcessConfig::default();
    config.set_max_memory(65536);
    let mut s = spawned(config, fresh_registry());
    assert!(s.memory_growing(0, 65536, None));
    assert!(!s.memory_growing(0, 65537, None));
    assert!(s.admit_memory_growth(65536).is_ok());
    assert!(matches!(
        s.admit_memory_growth(65537),
        Err(HostError::ResourceDenied)
    ));
}

#[test]
fn table_growth_admitted_strictly_below_limit() {
    let mut s = spawned(DefaultProcessConfig::default(), fresh_registry());
    assert!(s.table_growing(0, 99999, None));
    assert!(!s.table_growing(0, 100000, None));
    assert!(s.admit_table_growth(99999).is_ok());
    assert!(matches!(
        s.admit_table_growth(100000),
        Err(HostError::ResourceDenied)
    ));
}

#[test]
fn one_instance_one_table_one_memory() {
    let s = spawned(DefaultProcessConfig::default(), fresh_registry());
    assert_eq!(s.instances(), 1);
    assert_eq!(s.tables(), 1);
    assert_eq!(s.memories(), 1);
}

#[test]
fn stdout_and_stderr_redirection_is_recorded() {
    let mut s = spawned(DefaultProcessConfig::default(), fresh_registry());
    assert!(s.get_stdout().is_none());
    assert!(s.get_stderr().is_none());
    s.set_stdout(StdoutCapture { sink: 3 });
    s.set_stderr(StdoutCapture { sink: 4 });
    assert_eq!(s.get_stdout(), Some(&StdoutCapture { sink: 3 }));
    assert_eq!(s.get_stderr(), Some(&StdoutCapture { sink: 4 }));
    assert_eq!(s.wasi().stdout, Some(StdoutCapture { sink: 3 }));
    assert_eq!(s.wasi().stderr, Some(StdoutCapture { sink: 4 }));
}

#[test]
fn resource_tables_are_kind_scoped() {
    let mut s = spawned(DefaultProcessConfig::default(), fresh_registry());
    let h = s.config_resources_mut().insert(DefaultProcessConfig::default());
    assert!(s.config_resources().contains(h));
    assert!(matches!(
        s.module_resources().get(h),
        Err(HostError::NotFound)
    ));
}

#[test]
fn delivered_signal_is_observed_by_poll() {
    let s = spawned(DefaultProcessConfig::default(), fresh_registry());
    let handle = s.handle();
    assert_eq!(handle.identity(), s.id());
    handle.deliver_signal(Signal::Kill).expect("receiver is alive");
    match s.poll_signal() {
        SignalPoll::Received(Signal::Kill) => {}
        other => panic!("expected the queued kill signal, got {:?}", other),
    }
    assert!(matches!(s.poll_signal(), SignalPoll::Empty));
}

#[test]
fn signals_from_one_sender_arrive_in_order() {
    let s = spawned(DefaultProcessConfig::default(), fresh_registry());
    let handle = s.handle();
    handle.deliver_signal(Signal::Link(5)).expect("receiver is alive");
    handle.deliver_signal(Signal::Kill).expect("receiver is alive");
    assert!(matches!(
        s.poll_signal(),
        SignalPoll::Received(Signal::Link(5))
    ));
    assert!(matches!(s.poll_signal(), SignalPoll::Received(Signal::Kill)));
}

#[test]
fn delivery_to_a_dead_process_reports_closure() {
    let s = spawned(DefaultProcessConfig::default(), fresh_registry());
    let handle = s.handle();
    drop(s);
    assert!(matches!(
        handle.deliver_signal(Signal::Kill),
        Err(HostError::ChannelClosed)
    ));
    assert!(matches!(
        handle.deliver_message(lunatic_state::message::Message {
            tag: None,
            data: Vec::new(),
            resources: Vec::new(),
        }),
        Err(HostError::ChannelClosed)
    ));
}

#[test]
fn dns_cursor_walks_and_restarts() {
    let a = SocketAddress { v6: false, ip: 0x7f000001, port: 80 };
    let b = SocketAddress { v6: true, ip: 1, port: 443 };
    let mut iter = DnsIterator::new(vec![a, b]);
    assert_eq!(iter.next(), Some(a));
    assert_eq!(iter.next(), Some(b));
    assert_eq!(iter.next(), None);
    iter.restart_at(1);
    assert_eq!(iter.next(), Some(b));
}

#[test]
fn attached_processes_are_rehomed_on_delivery() {
    let registry = fresh_registry();
    let receiver = spawned(DefaultProcessConfig::default(), Arc::clone(&registry));
    let peer_a = spawned(DefaultProcessConfig::default(), Arc::clone(&registry));
    let peer_b = spawned(DefaultProcessConfig::default(), Arc::clone(&registry));

    let mut receiver = receiver;
    let m = receiver.rehome_attached_processes(
        vec![peer_a.handle(), peer_b.handle()],
        Some(7),
        vec![1, 2],
    );
    assert_eq!(m.tag, Some(7));
    assert_eq!(m.data, vec![1, 2]);
    assert_eq!(m.resources.len(), 2);
    assert_ne!(m.resources[0], m.resources[1]);
    let first = receiver
        .process_resources()
        .get(m.resources[0])
        .expect("re-homed handle is live");
    assert_eq!(first.identity(), peer_a.id());
    let second = receiver
        .process_resources()
        .get(m.resources[1])
        .expect("re-homed handle is live");
    assert_eq!(second.identity(), peer_b.id());
}

#[test]
fn captured_errors_are_stored_and_resolved() {
    let mut s = spawned(DefaultProcessConfig::default(), fresh_registry());
    let h = s.error_resources_mut().insert(anyhow::Error::msg("boom"));
    assert!(s.error_resources().get(h).is_ok());
    assert!(s.error_resources_mut().remove(h).is_ok());
    assert!(matches!(
        s.error_resources().get(h),
        Err(HostError::NotFound)
    ));
}
