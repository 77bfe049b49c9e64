use vstd::prelude::*;

use std::sync::Arc;

use crate::channel::{poll_signal_queue, signal_channel, SignalPoll};
use crate::config::DefaultProcessConfig;
use crate::errors::HostError;
use crate::mailbox::MessageMailbox;
use crate::message::{Message, MessageScratchArea};
use crate::networking::{DnsIterator, TcpListenerResource, TcpStreamResource, UdpSocketResource};
use crate::process::ProcessHandle;
use crate::registry::{registry_get, registry_insert, registry_remove, ProcessRegistry};
use crate::runtime::{ModuleHandle, RuntimeHandle};
use crate::signal::Signal;
use crate::table::ResourceTable;
use crate::wasi::{build_wasi, preopens_ok, StdoutCapture, WasiState};

verus! {

/// The largest element count a sandbox table may grow to; growth to this
/// count or beyond is denied.
pub const TABLE_ELEMENT_LIMIT: u32 = 100000;

/// The resource tables of one process, one per resource kind, so that a
/// handle of one kind can never stand in for a handle of another.
#[derive(Debug)]
pub struct Resources {
    /// Configuration snapshots for dynamically-configured child spawns.
    pub configs: ResourceTable<DefaultProcessConfig>,
    /// Compiled modules for child spawns.
    pub modules: ResourceTable<ModuleHandle>,
    /// Handles to spawned processes.
    pub processes: ResourceTable<ProcessHandle>,
    /// DNS resolution cursors.
    pub dns_iterators: ResourceTable<DnsIterator>,
    /// Listening transport sockets.
    pub tcp_listeners: ResourceTable<TcpListenerResource>,
    /// Connected byte streams.
    pub tcp_streams: ResourceTable<TcpStreamResource>,
    /// Datagram sockets.
    pub udp_sockets: ResourceTable<UdpSocketResource>,
    /// Captured error values for host-side inspection.
    pub errors: ResourceTable<anyhow::Error>,
}

impl Resources {
    /// No table of any kind holds a live handle.
    pub open spec fn all_empty(self) -> bool {
        &&& self.configs@ == Map::<u64, DefaultProcessConfig>::empty()
        &&& self.modules@ == Map::<u64, ModuleHandle>::empty()
        &&& self.processes@ == Map::<u64, ProcessHandle>::empty()
        &&& self.dns_iterators@ == Map::<u64, DnsIterator>::empty()
        &&& self.tcp_listeners@ == Map::<u64, TcpListenerResource>::empty()
        &&& self.tcp_streams@ == Map::<u64, TcpStreamResource>::empty()
        &&& self.udp_sockets@ == Map::<u64, UdpSocketResource>::empty()
        &&& self.errors@ == Map::<u64, anyhow::Error>::empty()
    }
}

impl Default for Resources {
    /// Fresh tables: no handle of any kind is live yet.
    fn default() -> (r: Self)
        ensures
            r.all_empty(),
    {
        Resources {
            configs: ResourceTable::new(),
            modules: ResourceTable::new(),
            processes: ResourceTable::new(),
            dns_iterators: ResourceTable::new(),
            tcp_listeners: ResourceTable::new(),
            tcp_streams: ResourceTable::new(),
            udp_sockets: ResourceTable::new(),
            errors: ResourceTable::new(),
        }
    }
}

/// Relies on uuid::Uuid::new_v4 for a freshly drawn process identity;
/// the draw is random, so nothing is promised of the value.
#[verifier::external_body]
fn fresh_process_id() -> u128 {
    uuid::Uuid::new_v4().as_u128()
}

/// The per-process host context: identity, mailbox pair, resource
/// tables, growth-admission policy, WASI-facing capability context and
/// the shared name registry. It is exclusively owned by the process it
/// backs; only the registry and the signal senders are shared.
#[derive(Debug)]
pub struct DefaultProcessState {
    /// The process's globally-unique identity, assigned at construction.
    pub id: u128,
    /// The external runtime the process executes on, absent only in the
    /// placeholder built by [`Default::default`].
    pub runtime: Option<RuntimeHandle>,
    /// The compiled module the process was spawned from, absent only in
    /// the placeholder built by [`Default::default`].
    pub module: Option<ModuleHandle>,
    /// The shared, immutable configuration snapshot.
    pub config: Arc<DefaultProcessConfig>,
    /// The scratch slot bridging the two host-call steps of a receive.
    pub message: MessageScratchArea,
    /// The signal queue: the sender half is clonable and distributable,
    /// the receiver half is drained only by this process's run loop.
    pub signal_mailbox: (async_std::channel::Sender<Signal>, async_std::channel::Receiver<Signal>),
    /// The queue of application-plane messages.
    pub message_mailbox: MessageMailbox,
    /// The per-kind resource tables.
    pub resources: Resources,
    /// The WASI-facing capability context.
    pub wasi: WasiState,
    /// The sink the sandbox's standard output is redirected to, if any.
    pub wasi_stdout: Option<StdoutCapture>,
    /// The sink the sandbox's standard error is redirected to, if any.
    pub wasi_stderr: Option<StdoutCapture>,
    /// Set exactly once, when the sandbox instance finishes
    /// instantiation; never unset.
    pub initialized: bool,
    /// The name directory shared by every process of this runtime
    /// instance.
    pub registry: Arc<ProcessRegistry>,
}

impl DefaultProcessState {
    /// Construct the host state for a process about to be spawned. The
    /// identity is freshly drawn; every table and both mailbox queues
    /// start empty; the state is uninitialized until the sandbox
    /// instance finishes loading. Construction fails, with
    /// [`HostError::ConfigurationError`], exactly when the WASI-facing
    /// context cannot be built from the snapshot's preopened
    /// directories.
    pub fn new(
        runtime: RuntimeHandle,
        module: ModuleHandle,
        config: Arc<DefaultProcessConfig>,
        registry: Arc<ProcessRegistry>,
    ) -> (r: Result<Self, HostError>)
        ensures
            r is Ok <==> preopens_ok((*config).preopened_dirs@),
            r matches Ok(s) ==> {
                &&& s.runtime == Some(runtime)
                &&& s.module == Some(module)
                &&& s.config == config
                &&& s.message is Empty
                &&& s.message_mailbox@ == Seq::<Message>::empty()
                &&& s.resources.all_empty()
                &&& s.wasi == (WasiState { stdout: None, stderr: None })
                &&& s.wasi_stdout is None
                &&& s.wasi_stderr is None
                &&& !s.initialized
                &&& s.registry == registry
            },
            r matches Err(e) ==> e == HostError::ConfigurationError,
    {
        let wasi = match build_wasi(
            config.command_line_arguments(),
            config.environment_variables(),
            config.preopened_dirs(),
        ) {
            Ok(w) => w,
            Err(e) => {
                return Err(e);
            },
        };
        let id = fresh_process_id();
        let signal_mailbox = signal_channel();
        Ok(
            DefaultProcessState {
                id,
                runtime: Some(runtime),
                module: Some(module),
                config,
                message: MessageScratchArea::Empty,
                signal_mailbox,
                message_mailbox: MessageMailbox::new(),
                resources: Resources::default(),
                wasi,
                wasi_stdout: None,
                wasi_stderr: None,
                initialized: false,
                registry,
            },
        )
    }

    /// Mark the sandbox instance as fully instantiated; the scheduler
    /// observes this flag to know when to begin driving execution. There
    /// is no way back to the uninitialized state.
    pub fn initialize(&mut self)
        ensures
            *final(self) == (DefaultProcessState { initialized: true, ..*old(self) }),
    {
        self.initialized = true;
    }

    /// Whether the sandbox instance has finished instantiation.
    pub fn is_initialized(&self) -> (r: bool)
        ensures
            r == self.initialized,
    {
        self.initialized
    }

    /// The runtime the process executes on. The placeholder state has
    /// none attached: calling this there is a programming error, ruled
    /// out by contract rather than surfaced as a crash.
    pub fn runtime(&self) -> (r: &RuntimeHandle)
        requires
            self.runtime is Some,
        ensures
            self.runtime == Some(*r),
    {
        match self.runtime.as_ref() {
            Some(r) => r,
            None => unreached(),
        }
    }

    /// The module the process was spawned from. The placeholder state
    /// has none attached: calling this there is a programming error,
    /// ruled out by contract rather than surfaced as a crash.
    pub fn module(&self) -> (r: &ModuleHandle)
        requires
            self.module is Some,
        ensures
            self.module == Some(*r),
    {
        match self.module.as_ref() {
            Some(m) => m,
            None => unreached(),
        }
    }

    /// The shared configuration snapshot.
    pub fn config(&self) -> (r: &Arc<DefaultProcessConfig>)
        ensures
            *r == self.config,
    {
        &self.config
    }

    /// The process's identity.
    pub fn id(&self) -> (r: u128)
        ensures
            r == self.id,
    {
        self.id
    }

    /// Both halves of the signal queue; the sender may be cloned and
    /// handed to peers and to the scheduler.
    pub fn signal_mailbox(&self) -> (r: &(
        async_std::channel::Sender<Signal>,
        async_std::channel::Receiver<Signal>,
    ))
        ensures
            *r == self.signal_mailbox,
    {
        &self.signal_mailbox
    }

    /// The message mailbox, read-only.
    pub fn message_mailbox(&self) -> (r: &MessageMailbox)
        ensures
            *r == self.message_mailbox,
    {
        &self.message_mailbox
    }

    /// The message mailbox, for receives and deliveries.
    pub fn mailbox(&mut self) -> (r: &mut MessageMailbox)
        ensures
            *r == old(self).message_mailbox,
            *final(self) == (DefaultProcessState {
                message_mailbox: *final(r),
                ..*old(self)
            }),
    {
        &mut self.message_mailbox
    }

    /// The scratch slot bridging the two host-call steps of a receive.
    pub fn message_scratch_area(&mut self) -> (r: &mut MessageScratchArea)
        ensures
            *r == old(self).message,
            *final(self) == (DefaultProcessState { message: *final(r), ..*old(self) }),
    {
        &mut self.message
    }

    /// The shared name registry of this runtime instance.
    pub fn registry(&self) -> (r: &Arc<ProcessRegistry>)
        ensures
            *r == self.registry,
    {
        &self.registry
    }

    /// A handle to this process itself, carrying its identity and a
    /// fresh sender onto its signal queue.
    pub fn handle(&self) -> (r: ProcessHandle)
        ensures
            r.spec_id() == self.id,
    {
        ProcessHandle::Local { id: self.id, signals: self.signal_mailbox.0.clone() }
    }

    /// A non-blocking look at the signal queue. What it observes depends
    /// on the concurrent senders, so nothing is promised of the outcome;
    /// the decision taken on it is [`MessageMailbox::receive_step`],
    /// which is pinned down for every outcome.
    pub fn poll_signal(&self) -> SignalPoll {
        poll_signal_queue(&self.signal_mailbox.1)
    }

    /// Bind a name to a process handle in the shared registry, handing
    /// back the handle the name was bound to before, if any. The
    /// registry is concurrently mutable by every peer, so no contract
    /// pins its contents.
    pub fn register_name(&self, name: String, p: ProcessHandle) -> Option<ProcessHandle> {
        registry_insert(&self.registry, name, p)
    }

    /// Look a name up in the shared registry. The registry is
    /// concurrently mutable by every peer, so no contract pins its
    /// contents.
    pub fn lookup_name(&self, name: &String) -> Option<ProcessHandle> {
        registry_get(&self.registry, name)
    }

    /// Unbind a name in the shared registry, handing back the handle it
    /// was bound to, if any.
    pub fn unregister_name(&self, name: &String) -> Option<ProcessHandle> {
        registry_remove(&self.registry, name)
    }

    /// Admission of linear-memory growth: the desired byte size is
    /// admitted exactly when it stays within the snapshot's configured
    /// maximum. Pure policy; a denial surfaces to the sandbox as a
    /// failed growth operation, never as a crash.
    pub fn memory_growing(
        &mut self,
        _current: usize,
        desired: usize,
        _maximum: Option<usize>,
    ) -> (r: bool)
        ensures
            r == (desired <= (*old(self).config).max_memory),
            *final(self) == *old(self),
    {
        desired <= self.config.get_max_memory()
    }

    /// Admission of table growth: the desired element count is admitted
    /// exactly when it stays strictly below [`TABLE_ELEMENT_LIMIT`].
    pub fn table_growing(&mut self, _current: u32, desired: u32, _maximum: Option<u32>) -> (r:
        bool)
        ensures
            r == (desired < TABLE_ELEMENT_LIMIT),
            *final(self) == *old(self),
    {
        desired < TABLE_ELEMENT_LIMIT
    }

    /// At most one instance may exist per sandbox execution context.
    pub fn instances(&self) -> (r: usize)
        ensures
            r == 1,
    {
        1
    }

    /// At most one table may exist per sandbox execution context.
    pub fn tables(&self) -> (r: usize)
        ensures
            r == 1,
    {
        1
    }

    /// At most one linear memory may exist per sandbox execution
    /// context.
    pub fn memories(&self) -> (r: usize)
        ensures
            r == 1,
    {
        1
    }

    /// The admission decision for linear-memory growth as an error
    /// value: a denial is [`HostError::ResourceDenied`], recoverable by
    /// the sandbox.
    pub fn admit_memory_growth(&self, desired: usize) -> (r: Result<(), HostError>)
        ensures
            desired <= (*self.config).max_memory ==> r is Ok,
            desired > (*self.config).max_memory ==> r == Err::<(), HostError>(
                HostError::ResourceDenied,
            ),
    {
        if desired <= self.config.get_max_memory() {
            Ok(())
        } else {
            Err(HostError::ResourceDenied)
        }
    }

    /// The admission decision for table growth as an error value: a
    /// denial is [`HostError::ResourceDenied`], recoverable by the
    /// sandbox.
    pub fn admit_table_growth(&self, desired: u32) -> (r: Result<(), HostError>)
        ensures
            desired < TABLE_ELEMENT_LIMIT ==> r is Ok,
            desired >= TABLE_ELEMENT_LIMIT ==> r == Err::<(), HostError>(
                HostError::ResourceDenied,
            ),
    {
        if desired < TABLE_ELEMENT_LIMIT {
            Ok(())
        } else {
            Err(HostError::ResourceDenied)
        }
    }

    /// Re-home the resources attached to an inbound message: every
    /// attached process handle is inserted into this process's own
    /// process table, and the assembled message carries the fresh,
    /// pairwise-distinct handles under which the receiver's sandbox can
    /// resolve them. Handles that were live before stay live, unchanged.
    pub fn rehome_attached_processes(
        &mut self,
        attached: Vec<ProcessHandle>,
        tag: Option<i64>,
        data: Vec<u8>,
    ) -> (m: Message)
        ensures
            m.tag == tag,
            m.data == data,
            m.resources@.len() == attached@.len(),
            forall|i: int| 0 <= i < attached@.len() ==> {
                &&& final(self).resources.processes@.dom().contains(#[trigger] m.resources@[i])
                &&& final(self).resources.processes@[m.resources@[i]] == attached@[i]
            },
            forall|i: int, j: int| 0 <= i < j < attached@.len() ==> m.resources@[i]
                != m.resources@[j],
            forall|h: u64| old(self).resources.processes@.dom().contains(h) ==> {
                &&& #[trigger] final(self).resources.processes@.dom().contains(h)
                &&& final(self).resources.processes@[h] == old(self).resources.processes@[h]
            },
            *final(self) == (DefaultProcessState {
                resources: (Resources {
                    processes: final(self).resources.processes,
                    ..old(self).resources
                }),
                ..*old(self)
            }),
    {
        let ghost orig: Seq<ProcessHandle> = attached@;
        let mut remaining = attached;
        let mut handles: Vec<u64> = Vec::new();
        proof {
            assert(remaining@ =~= orig.skip(0));
        }
        while remaining.len() > 0
            invariant
                handles@.len() + remaining@.len() == orig.len(),
                remaining@ == orig.skip(handles@.len() as int),
                forall|i: int| 0 <= i < handles@.len() ==> {
                    &&& self.resources.processes@.dom().contains(#[trigger] handles@[i])
                    &&& self.resources.processes@[handles@[i]] == orig[i]
                },
                forall|i: int, j: int| 0 <= i < j < handles@.len() ==> handles@[i]
                    != handles@[j],
                forall|h: u64| old(self).resources.processes@.dom().contains(h) ==> {
                    &&& #[trigger] self.resources.processes@.dom().contains(h)
                    &&& self.resources.processes@[h] == old(self).resources.processes@[h]
                },
                *self == (DefaultProcessState {
                    resources: (Resources {
                        processes: self.resources.processes,
                        ..old(self).resources
                    }),
                    ..*old(self)
                }),
            decreases remaining@.len(),
        {
            let ghost k: int = handles@.len() as int;
            let p = remaining.remove(0);
            proof {
                assert(p == orig[k]);
                assert(remaining@ =~= orig.skip(k + 1));
            }
            let h = self.resources.processes.insert(p);
            handles.push(h);
        }
        Message { tag, data, resources: handles }
    }

    /// The configuration-snapshot table, read-only.
    pub fn config_resources(&self) -> (r: &ResourceTable<DefaultProcessConfig>)
        ensures
            *r == self.resources.configs,
    {
        &self.resources.configs
    }

    /// The configuration-snapshot table.
    pub fn config_resources_mut(&mut self) -> (r: &mut ResourceTable<DefaultProcessConfig>)
        ensures
            *r == old(self).resources.configs,
            *final(self) == (DefaultProcessState {
                resources: (Resources { configs: *final(r), ..old(self).resources }),
                ..*old(self)
            }),
    {
        &mut self.resources.configs
    }

    /// The compiled-module table, read-only.
    pub fn module_resources(&self) -> (r: &ResourceTable<ModuleHandle>)
        ensures
            *r == self.resources.modules,
    {
        &self.resources.modules
    }

    /// The compiled-module table.
    pub fn module_resources_mut(&mut self) -> (r: &mut ResourceTable<ModuleHandle>)
        ensures
            *r == old(self).resources.modules,
            *final(self) == (DefaultProcessState {
                resources: (Resources { modules: *final(r), ..old(self).resources }),
                ..*old(self)
            }),
    {
        &mut self.resources.modules
    }

    /// The process-handle table, read-only.
    pub fn process_resources(&self) -> (r: &ResourceTable<ProcessHandle>)
        ensures
            *r == self.resources.processes,
    {
        &self.resources.processes
    }

    /// The process-handle table.
    pub fn process_resources_mut(&mut self) -> (r: &mut ResourceTable<ProcessHandle>)
        ensures
            *r == old(self).resources.processes,
            *final(self) == (DefaultProcessState {
                resources: (Resources { processes: *final(r), ..old(self).resources }),
                ..*old(self)
            }),
    {
        &mut self.resources.processes
    }

    /// The DNS-cursor table, read-only.
    pub fn dns_resources(&self) -> (r: &ResourceTable<DnsIterator>)
        ensures
            *r == self.resources.dns_iterators,
    {
        &self.resources.dns_iterators
    }

    /// The DNS-cursor table.
    pub fn dns_resources_mut(&mut self) -> (r: &mut ResourceTable<DnsIterator>)
        ensures
            *r == old(self).resources.dns_iterators,
            *final(self) == (DefaultProcessState {
                resources: (Resources { dns_iterators: *final(r), ..old(self).resources }),
                ..*old(self)
            }),
    {
        &mut self.resources.dns_iterators
    }

    /// The listening-socket table, read-only.
    pub fn tcp_listener_resources(&self) -> (r: &ResourceTable<TcpListenerResource>)
        ensures
            *r == self.resources.tcp_listeners,
    {
        &self.resources.tcp_listeners
    }

    /// The listening-socket table.
    pub fn tcp_listener_resources_mut(&mut self) -> (r: &mut ResourceTable<TcpListenerResource>)
        ensures
            *r == old(self).resources.tcp_listeners,
            *final(self) == (DefaultProcessState {
                resources: (Resources { tcp_listeners: *final(r), ..old(self).resources }),
                ..*old(self)
            }),
    {
        &mut self.resources.tcp_listeners
    }

    /// The byte-stream table, read-only.
    pub fn tcp_stream_resources(&self) -> (r: &ResourceTable<TcpStreamResource>)
        ensures
            *r == self.resources.tcp_streams,
    {
        &self.resources.tcp_streams
    }

    /// The byte-stream table.
    pub fn tcp_stream_resources_mut(&mut self) -> (r: &mut ResourceTable<TcpStreamResource>)
        ensures
            *r == old(self).resources.tcp_streams,
            *final(self) == (DefaultProcessState {
                resources: (Resources { tcp_streams: *final(r), ..old(self).resources }),
                ..*old(self)
            }),
    {
        &mut self.resources.tcp_streams
    }

    /// The datagram-socket table, read-only.
    pub fn udp_resources(&self) -> (r: &ResourceTable<UdpSocketResource>)
        ensures
            *r == self.resources.udp_sockets,
    {
        &self.resources.udp_sockets
    }

    /// The datagram-socket table.
    pub fn udp_resources_mut(&mut self) -> (r: &mut ResourceTable<UdpSocketResource>)
        ensures
            *r == old(self).resources.udp_sockets,
            *final(self) == (DefaultProcessState {
                resources: (Resources { udp_sockets: *final(r), ..old(self).resources }),
                ..*old(self)
            }),
    {
        &mut self.resources.udp_sockets
    }

    /// The captured-error table, read-only.
    pub fn error_resources(&self) -> (r: &ResourceTable<anyhow::Error>)
        ensures
            *r == self.resources.errors,
    {
        &self.resources.errors
    }

    /// The captured-error table.
    pub fn error_resources_mut(&mut self) -> (r: &mut ResourceTable<anyhow::Error>)
        ensures
            *r == old(self).resources.errors,
            *final(self) == (DefaultProcessState {
                resources: (Resources { errors: *final(r), ..old(self).resources }),
                ..*old(self)
            }),
    {
        &mut self.resources.errors
    }

    /// The WASI-facing capability context, read-only.
    pub fn wasi(&self) -> (r: &WasiState)
        ensures
            *r == self.wasi,
    {
        &self.wasi
    }

    /// The WASI-facing capability context.
    pub fn wasi_mut(&mut self) -> (r: &mut WasiState)
        ensures
            *r == old(self).wasi,
            *final(self) == (DefaultProcessState { wasi: *final(r), ..*old(self) }),
    {
        &mut self.wasi
    }

    /// Redirect the sandbox's standard output to a sink, both in the
    /// WASI-facing context and in the host state's own record of it.
    pub fn set_stdout(&mut self, stdout: StdoutCapture)
        ensures
            *final(self) == (DefaultProcessState {
                wasi_stdout: Some(stdout),
                wasi: (WasiState { stdout: Some(stdout), ..old(self).wasi }),
                ..*old(self)
            }),
    {
        self.wasi_stdout = Some(stdout);
        self.wasi.set_stdout(stdout);
    }

    /// Redirect the sandbox's standard error to a sink, both in the
    /// WASI-facing context and in the host state's own record of it.
    pub fn set_stderr(&mut self, stderr: StdoutCapture)
        ensures
            *final(self) == (DefaultProcessState {
                wasi_stderr: Some(stderr),
                wasi: (WasiState { stderr: Some(stderr), ..old(self).wasi }),
                ..*old(self)
            }),
    {
        self.wasi_stderr = Some(stderr);
        self.wasi.set_stderr(stderr);
    }

    /// The sink the sandbox's standard output goes to, if redirected.
    pub fn get_stdout(&self) -> (r: Option<&StdoutCapture>)
        ensures
            r is Some <==> self.wasi_stdout is Some,
            r matches Some(c) ==> Some(*c) == self.wasi_stdout,
    {
        self.wasi_stdout.as_ref()
    }

    /// The sink the sandbox's standard error goes to, if redirected.
    pub fn get_stderr(&self) -> (r: Option<&StdoutCapture>)
        ensures
            r is Some <==> self.wasi_stderr is Some,
            r matches Some(c) ==> Some(*c) == self.wasi_stderr,
    {
        self.wasi_stderr.as_ref()
    }
}

impl Default for DefaultProcessState {
    /// A placeholder state with no runtime or module attached, for
    /// contexts that need only the resource-table and mailbox machinery
    /// without executing code. It carries a fresh identity, a default
    /// snapshot and a registry of its own.
    fn default() -> (s: Self)
        ensures
            s.runtime is None,
            s.module is None,
            s.message is Empty,
            s.message_mailbox@ == Seq::<Message>::empty(),
            s.resources.all_empty(),
            s.wasi == (WasiState { stdout: None, stderr: None }),
            s.wasi_stdout is None,
            s.wasi_stderr is None,
            !s.initialized,
            (*s.config).command_line_arguments@ == Seq::<String>::empty(),
            (*s.config).environment_variables@ == Seq::<(String, String)>::empty(),
            (*s.config).preopened_dirs@ == Seq::<String>::empty(),
            (*s.config).allowed_namespaces@ == Seq::<String>::empty(),
            (*s.config).max_memory == usize::MAX,
    {
        let config = DefaultProcessConfig::default();
        let wasi = match build_wasi(
            config.command_line_arguments(),
            config.environment_variables(),
            config.preopened_dirs(),
        ) {
            Ok(w) => w,
            Err(_) => unreached(),
        };
        let signal_mailbox = signal_channel();
        DefaultProcessState {
            id: fresh_process_id(),
            runtime: None,
            module: None,
            config: Arc::new(config),
            message: MessageScratchArea::Empty,
            signal_mailbox,
            message_mailbox: MessageMailbox::new(),
            resources: Resources::default(),
            wasi,
            wasi_stdout: None,
            wasi_stderr: None,
            initialized: false,
            registry: Arc::new(crate::registry::registry_new()),
        }
    }
}

} // verus!
