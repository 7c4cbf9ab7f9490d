use std::sync::Arc;
use std::sync::Mutex;
use vmm_core::synic::ports::removal_outcome;
use vmm_core::synic::ports::Release;
use vmm_core::synic::ports::SynicPorts;
use vmm_core::synic::table::deliver_event;
use vmm_core::synic::table::deliver_message;
use vmm_core::synic::table::message_outcome;
use vmm_core::synic::table::Port;
use vmm_core::synic::table::PortTable;
use vmm_core::synic::table::PortType;
use vmm_core::synic::table::SharedEventPort;
use vmm_core::synic::table::SharedMessagePort;
use vmm_core::synic::Error;
use vmm_core::synic::EventPort;
use vmm_core::synic::FullPortPolicy;
use vmm_core::synic::GuestEventPort;
use vmm_core::synic::GuestSignal;
use vmm_core::synic::HostBinding;
use vmm_core::synic::HostResource;
use vmm_core::synic::HvError;
use vmm_core::synic::MessagePort;
use vmm_core::synic::MonitorId;
use vmm_core::synic::OsEvent;
use vmm_core::synic::Synic;
use vmm_core::synic::SynicMonitorAccess;
use vmm_core::synic::Vtl;

/// A message port that records what it receives.
struct Inbox {
    seen: Mutex<Vec<(Vec<u8>, bool)>>,
    accept: bool,
}

impl Inbox {
    fn new(accept: bool) -> Arc<Inbox> {
        Arc::new(Inbox {
            seen: Mutex::new(Vec::new()),
            accept,
        })
    }

    fn seen(&self) -> Vec<(Vec<u8>, bool)> {
        self.seen.lock().unwrap().clone()
    }
}

struct InboxPort(Arc<Inbox>);

impl MessagePort for InboxPort {
    fn handle_message(&self, msg: &[u8], trusted: bool) -> bool {
        self.0.seen.lock().unwrap().push((msg.to_vec(), trusted));
        self.0.accept
    }
}

fn message_port(inbox: &Arc<Inbox>) -> SharedMessagePort {
    Arc::new(Box::new(InboxPort(inbox.clone())))
}

/// An event port that records the flags it is signalled with.
struct Flags {
    seen: Mutex<Vec<u16>>,
    event: Option<OsEvent>,
}

impl Flags {
    fn new(event: Option<OsEvent>) -> Arc<Flags> {
        Arc::new(Flags {
            seen: Mutex::new(Vec::new()),
            event,
        })
    }

    fn seen(&self) -> Vec<u16> {
        self.seen.lock().unwrap().clone()
    }
}

struct FlagsPort(Arc<Flags>);

impl EventPort for FlagsPort {
    fn handle_event(&self, flag: u16) {
        self.0.seen.lock().unwrap().push(flag);
    }

    fn os_event(&self) -> Option<OsEvent> {
        self.0.event
    }
}

fn event_port(flags: &Arc<Flags>) -> SharedEventPort {
    Arc::new(Box::new(FlagsPort(flags.clone())))
}

struct Bound;

impl HostResource for Bound {}

struct Signal;

impl GuestSignal for Signal {}

#[derive(Default)]
struct PartitionLog {
    bound: Vec<(u32, Vtl, OsEvent)>,
    posted: Vec<(Vtl, u32, u8, u32, Vec<u8>)>,
    monitors: Vec<(MonitorId, u32)>,
    monitor_page: Option<Option<u64>>,
}

/// A partition that records what the registry asks of it.
struct Partition {
    log: Arc<Mutex<PartitionLog>>,
    host_ports: Result<bool, Error>,
    monitor: bool,
    os_events: bool,
}

impl Partition {
    fn plain() -> Partition {
        Partition {
            log: Arc::new(Mutex::new(PartitionLog::default())),
            host_ports: Ok(false),
            monitor: false,
            os_events: false,
        }
    }
}

impl SynicMonitorAccess for Partition {
    fn register_monitor(&self, monitor_id: MonitorId, connection_id: u32) -> HostBinding {
        self.log
            .lock()
            .unwrap()
            .monitors
            .push((monitor_id, connection_id));
        HostBinding {
            resource: Box::new(Bound),
        }
    }

    fn set_monitor_page(&self, gpa: Option<u64>) -> Result<(), String> {
        self.log.lock().unwrap().monitor_page = Some(gpa);
        match gpa {
            Some(gpa) if gpa % 4096 != 0 => Err(format!("unaligned monitor page {:#x}", gpa)),
            _ => Ok(()),
        }
    }
}

impl Synic for Partition {
    fn post_message(&self, vtl: Vtl, vp: u32, sint: u8, typ: u32, payload: &[u8]) {
        self.log
            .lock()
            .unwrap()
            .posted
            .push((vtl, vp, sint, typ, payload.to_vec()));
    }

    fn new_guest_event_port(&self) -> GuestEventPort {
        GuestEventPort {
            signal: Box::new(Signal),
        }
    }

    fn prefer_os_events(&self) -> bool {
        self.os_events
    }

    fn monitor_support(&self) -> Option<&dyn SynicMonitorAccess> {
        if self.monitor {
            Some(self)
        } else {
            None
        }
    }

    fn new_host_event_port(
        &self,
        connection_id: u32,
        minimum_vtl: Vtl,
        event: OsEvent,
    ) -> Result<Option<HostBinding>, Error> {
        self.log
            .lock()
            .unwrap()
            .bound
            .push((connection_id, minimum_vtl, event));
        match self.host_ports {
            Ok(true) => Ok(Some(HostBinding {
                resource: Box::new(Bound),
            })),
            Ok(false) => Ok(None),
            Err(e) => Err(e),
        }
    }
}

fn registry_of(partition: Partition) -> SynicPorts {
    SynicPorts::new(Arc::new(Box::new(partition)))
}

fn registry() -> SynicPorts {
    registry_of(Partition::plain())
}

#[test]
fn vtl_order() {
    assert_eq!(Vtl::Vtl0.rank(), 0);
    assert_eq!(Vtl::Vtl1.rank(), 1);
    assert_eq!(Vtl::Vtl2.rank(), 2);
    assert!(Vtl::Vtl0.at_least(Vtl::Vtl0));
    assert!(!Vtl::Vtl0.at_least(Vtl::Vtl1));
    assert!(!Vtl::Vtl1.at_least(Vtl::Vtl2));
    assert!(Vtl::Vtl2.at_least(Vtl::Vtl1));
    assert!(Vtl::Vtl2.at_least(Vtl::Vtl2));
    let all = [Vtl::Vtl0, Vtl::Vtl1, Vtl::Vtl2];
    for a in all {
        for b in all {
            assert_eq!(a.at_least(b), a >= b);
            assert_eq!(a < b, a.rank() < b.rank());
        }
    }
}

#[test]
fn second_registration_is_refused_and_first_stays() {
    let ports = registry();
    let first = Inbox::new(true);
    let second = Inbox::new(true);
    let handle = ports
        .add_message_port(42, Vtl::Vtl0, message_port(&first))
        .ok()
        .unwrap();
    assert_eq!(handle.connection_id(), 42);
    assert!(!handle.has_host_binding());

    let again = ports.add_message_port(42, Vtl::Vtl0, message_port(&second));
    assert_eq!(again.err(), Some(Error::ConnectionIdInUse(42)));
    let as_event = ports.add_event_port(42, Vtl::Vtl0, event_port(&Flags::new(None)));
    assert_eq!(as_event.err(), Some(Error::ConnectionIdInUse(42)));

    assert_eq!(ports.on_post_message(Vtl::Vtl0, 42, true, &[1, 2, 3]), Ok(()));
    assert_eq!(first.seen(), vec![(vec![1, 2, 3], true)]);
    assert!(second.seen().is_empty());
    assert_eq!(handle.release(), Release::Removed);
}

#[test]
fn vtl_gate_on_message_port() {
    let ports = registry();
    let inbox = Inbox::new(true);
    let _handle = ports
        .add_message_port(9, Vtl::Vtl1, message_port(&inbox))
        .ok()
        .unwrap();
    assert_eq!(
        ports.on_post_message(Vtl::Vtl0, 9, false, &[7]),
        Err(HvError::OperationDenied)
    );
    assert!(inbox.seen().is_empty());
    assert_eq!(ports.on_post_message(Vtl::Vtl1, 9, false, &[8]), Ok(()));
    assert_eq!(ports.on_post_message(Vtl::Vtl2, 9, false, &[9]), Ok(()));
    assert_eq!(inbox.seen(), vec![(vec![8], false), (vec![9], false)]);
}

#[test]
fn vtl_gate_on_event_port() {
    let ports = registry();
    let flags = Flags::new(None);
    let _handle = ports
        .add_event_port(9, Vtl::Vtl1, event_port(&flags))
        .ok()
        .unwrap();
    assert_eq!(
        ports.on_signal_event(Vtl::Vtl0, 9, 1),
        Err(HvError::OperationDenied)
    );
    assert!(flags.seen().is_empty());
    assert_eq!(ports.on_signal_event(Vtl::Vtl1, 9, 2), Ok(()));
    assert_eq!(ports.on_signal_event(Vtl::Vtl2, 9, 3), Ok(()));
    assert_eq!(flags.seen(), vec![2, 3]);
}

#[test]
fn port_types_are_isolated() {
    let ports = registry();
    let inbox = Inbox::new(true);
    let flags = Flags::new(None);
    let _message = ports
        .add_message_port(1, Vtl::Vtl0, message_port(&inbox))
        .ok()
        .unwrap();
    let _event = ports
        .add_event_port(2, Vtl::Vtl0, event_port(&flags))
        .ok()
        .unwrap();
    assert_eq!(
        ports.on_signal_event(Vtl::Vtl2, 1, 0),
        Err(HvError::InvalidConnectionId)
    );
    assert_eq!(
        ports.on_post_message(Vtl::Vtl2, 2, false, &[0]),
        Err(HvError::InvalidConnectionId)
    );
    assert!(inbox.seen().is_empty());
    assert!(flags.seen().is_empty());
}

#[test]
fn dispatch_to_unregistered_id_is_invalid() {
    let ports = registry();
    assert_eq!(
        ports.on_post_message(Vtl::Vtl2, 0, false, &[]),
        Err(HvError::InvalidConnectionId)
    );
    assert_eq!(
        ports.on_signal_event(Vtl::Vtl2, u32::MAX, 0),
        Err(HvError::InvalidConnectionId)
    );
}

#[test]
fn released_id_is_invalid_and_free_again() {
    let ports = registry();
    let inbox = Inbox::new(true);
    let handle = ports
        .add_message_port(5, Vtl::Vtl0, message_port(&inbox))
        .ok()
        .unwrap();
    let _other = ports
        .add_message_port(6, Vtl::Vtl0, message_port(&inbox))
        .ok()
        .unwrap();
    assert_eq!(handle.release(), Release::Removed);
    assert_eq!(
        ports.on_post_message(Vtl::Vtl0, 5, false, &[1]),
        Err(HvError::InvalidConnectionId)
    );
    assert_eq!(ports.on_post_message(Vtl::Vtl0, 6, false, &[2]), Ok(()));

    let flags = Flags::new(None);
    let again = ports.add_event_port(5, Vtl::Vtl0, event_port(&flags));
    assert!(again.is_ok());
    assert_eq!(ports.on_signal_event(Vtl::Vtl0, 5, 11), Ok(()));
    assert_eq!(flags.seen(), vec![11]);
}

#[test]
fn release_after_the_registry_is_gone() {
    let ports = registry();
    let handle = ports
        .add_message_port(5, Vtl::Vtl0, message_port(&Inbox::new(true)))
        .ok()
        .unwrap();
    drop(ports);
    assert_eq!(handle.release(), Release::RegistryGone);
}

#[test]
fn removal_outcomes() {
    assert_eq!(removal_outcome(true), Release::Removed);
    assert_eq!(removal_outcome(false), Release::NotRegistered);
}

/// A message port that releases a registration when it is dropped.
struct ReleasesOnDrop {
    handle: Mutex<Option<vmm_core::synic::ports::PortHandle>>,
    outcome: Arc<Mutex<Option<Release>>>,
}

impl MessagePort for ReleasesOnDrop {
    fn handle_message(&self, _msg: &[u8], _trusted: bool) -> bool {
        true
    }
}

impl Drop for ReleasesOnDrop {
    fn drop(&mut self) {
        if let Some(handle) = self.handle.lock().unwrap().take() {
            *self.outcome.lock().unwrap() = Some(handle.release());
        }
    }
}

#[test]
fn port_is_dropped_outside_the_lock() {
    let ports = registry();
    let other = ports
        .add_message_port(1, Vtl::Vtl0, message_port(&Inbox::new(true)))
        .ok()
        .unwrap();
    let outcome = Arc::new(Mutex::new(None));
    let port: SharedMessagePort = Arc::new(Box::new(ReleasesOnDrop {
        handle: Mutex::new(Some(other)),
        outcome: outcome.clone(),
    }));
    let handle = ports.add_message_port(2, Vtl::Vtl0, port).ok().unwrap();
    // Removing port 2 drops its handler, which releases port 1.
    assert_eq!(handle.release(), Release::Removed);
    assert_eq!(*outcome.lock().unwrap(), Some(Release::Removed));
    assert_eq!(
        ports.on_post_message(Vtl::Vtl0, 1, false, &[]),
        Err(HvError::InvalidConnectionId)
    );

    // A refused port is dropped outside the lock as well.
    let _taken = ports
        .add_message_port(3, Vtl::Vtl0, message_port(&Inbox::new(true)))
        .ok()
        .unwrap();
    let other = ports
        .add_message_port(4, Vtl::Vtl0, message_port(&Inbox::new(true)))
        .ok()
        .unwrap();
    let outcome = Arc::new(Mutex::new(None));
    let port: SharedMessagePort = Arc::new(Box::new(ReleasesOnDrop {
        handle: Mutex::new(Some(other)),
        outcome: outcome.clone(),
    }));
    let refused = ports.add_message_port(3, Vtl::Vtl0, port);
    assert_eq!(refused.err(), Some(Error::ConnectionIdInUse(3)));
    assert_eq!(*outcome.lock().unwrap(), Some(Release::Removed));
}

/// A message port that registers an event port while it handles a message.
struct Reentrant {
    ports: Arc<SynicPorts>,
    flags: Arc<Flags>,
    registered: Mutex<Option<Result<u32, Error>>>,
}

struct ReentrantPort(Arc<Reentrant>);

impl MessagePort for ReentrantPort {
    fn handle_message(&self, msg: &[u8], _trusted: bool) -> bool {
        let id = u32::from(msg[0]);
        let r = self
            .0
            .ports
            .add_event_port(id, Vtl::Vtl0, event_port(&self.0.flags));
        *self.0.registered.lock().unwrap() = Some(r.map(|handle| handle.connection_id()));
        true
    }
}

#[test]
fn handler_may_register_a_port() {
    let ports = Arc::new(registry());
    let inner = Arc::new(Reentrant {
        ports: ports.clone(),
        flags: Flags::new(None),
        registered: Mutex::new(None),
    });
    let _handle = ports
        .add_message_port(
            1,
            Vtl::Vtl0,
            Arc::new(Box::new(ReentrantPort(inner.clone()))),
        )
        .ok()
        .unwrap();
    assert_eq!(ports.on_post_message(Vtl::Vtl0, 1, false, &[2]), Ok(()));
    assert_eq!(*inner.registered.lock().unwrap(), Some(Ok(2)));
    assert_eq!(ports.on_signal_event(Vtl::Vtl0, 2, 4), Ok(()));
    assert_eq!(inner.flags.seen(), vec![4]);

    // The handler's own ID is in use while it runs.
    assert_eq!(ports.on_post_message(Vtl::Vtl0, 1, false, &[1]), Ok(()));
    assert_eq!(
        *inner.registered.lock().unwrap(),
        Some(Err(Error::ConnectionIdInUse(1)))
    );
}

#[test]
fn post_to_registered_and_unregistered_message_port() {
    let ports = registry();
    let inbox = Inbox::new(true);
    let _handle = ports
        .add_message_port(42, Vtl::Vtl0, message_port(&inbox))
        .ok()
        .unwrap();
    assert_eq!(ports.on_post_message(Vtl::Vtl0, 42, false, &[0xAA]), Ok(()));
    assert_eq!(inbox.seen(), vec![(vec![0xAA], false)]);
    assert_eq!(
        ports.on_post_message(Vtl::Vtl0, 43, false, &[0xAA]),
        Err(HvError::InvalidConnectionId)
    );
    assert_eq!(inbox.seen().len(), 1);
}

#[test]
fn signal_gated_at_vtl2() {
    let ports = registry();
    let flags = Flags::new(None);
    let _handle = ports
        .add_event_port(7, Vtl::Vtl2, event_port(&flags))
        .ok()
        .unwrap();
    assert_eq!(
        ports.on_signal_event(Vtl::Vtl0, 7, 3),
        Err(HvError::OperationDenied)
    );
    assert!(flags.seen().is_empty());
    assert_eq!(ports.on_signal_event(Vtl::Vtl2, 7, 3), Ok(()));
    assert_eq!(flags.seen(), vec![3]);
}

#[test]
fn full_message_port_reports_insufficient_buffers() {
    let ports = registry();
    let inbox = Inbox::new(false);
    let _handle = ports
        .add_message_port(3, Vtl::Vtl0, message_port(&inbox))
        .ok()
        .unwrap();
    assert_eq!(
        ports.on_post_message(Vtl::Vtl0, 3, true, &[5, 6]),
        Err(HvError::InsufficientBuffers)
    );
    assert_eq!(inbox.seen(), vec![(vec![5, 6], true)]);
    assert_eq!(
        message_outcome(true, FullPortPolicy::InsufficientBuffers),
        Ok(())
    );
    assert_eq!(
        message_outcome(false, FullPortPolicy::InsufficientBuffers),
        Err(HvError::InsufficientBuffers)
    );
    assert_eq!(message_outcome(true, FullPortPolicy::Timeout), Ok(()));
    assert_eq!(
        message_outcome(false, FullPortPolicy::Timeout),
        Err(HvError::Timeout)
    );
    assert_eq!(
        FullPortPolicy::InsufficientBuffers.status(),
        HvError::InsufficientBuffers
    );
    assert_eq!(FullPortPolicy::Timeout.status(), HvError::Timeout);
}

#[test]
fn full_message_port_reports_the_status_of_the_policy() {
    let ports = SynicPorts::with_full_port_policy(
        Arc::new(Box::new(Partition::plain())),
        FullPortPolicy::Timeout,
    );
    let full = Inbox::new(false);
    let open = Inbox::new(true);
    let _full = ports
        .add_message_port(3, Vtl::Vtl0, message_port(&full))
        .ok()
        .unwrap();
    let _open = ports
        .add_message_port(4, Vtl::Vtl0, message_port(&open))
        .ok()
        .unwrap();
    assert_eq!(
        ports.on_post_message(Vtl::Vtl0, 3, false, &[1]),
        Err(HvError::Timeout)
    );
    assert_eq!(ports.on_post_message(Vtl::Vtl0, 4, false, &[1]), Ok(()));
    assert_eq!(
        ports.on_post_message(Vtl::Vtl0, 5, false, &[1]),
        Err(HvError::InvalidConnectionId)
    );
}

#[test]
fn event_port_with_native_event_is_bound_in_the_host() {
    let mut partition = Partition::plain();
    partition.host_ports = Ok(true);
    let log = partition.log.clone();
    let ports = registry_of(partition);
    let flags = Flags::new(Some(OsEvent { handle: 77 }));
    let handle = ports
        .add_event_port(8, Vtl::Vtl1, event_port(&flags))
        .ok()
        .unwrap();
    assert!(handle.has_host_binding());
    assert_eq!(handle.connection_id(), 8);
    assert_eq!(
        log.lock().unwrap().bound,
        vec![(8, Vtl::Vtl1, OsEvent { handle: 77 })]
    );
    assert_eq!(ports.on_signal_event(Vtl::Vtl1, 8, 1), Ok(()));
    assert_eq!(handle.release(), Release::Removed);
    assert_eq!(
        ports.on_signal_event(Vtl::Vtl1, 8, 1),
        Err(HvError::InvalidConnectionId)
    );
}

#[test]
fn event_port_without_native_event_asks_nothing_of_the_host() {
    let mut partition = Partition::plain();
    partition.host_ports = Ok(true);
    let log = partition.log.clone();
    let ports = registry_of(partition);
    let handle = ports
        .add_event_port(8, Vtl::Vtl0, event_port(&Flags::new(None)))
        .ok()
        .unwrap();
    assert!(!handle.has_host_binding());
    assert!(log.lock().unwrap().bound.is_empty());
}

#[test]
fn platform_without_host_ports_registers_without_binding() {
    let ports = registry();
    let handle = ports
        .add_event_port(
            8,
            Vtl::Vtl0,
            event_port(&Flags::new(Some(OsEvent { handle: 1 }))),
        )
        .ok()
        .unwrap();
    assert!(!handle.has_host_binding());
    assert_eq!(ports.on_signal_event(Vtl::Vtl0, 8, 2), Ok(()));
}

#[test]
fn failed_host_binding_registers_nothing() {
    let mut partition = Partition::plain();
    partition.host_ports = Err(Error::Hypervisor(5));
    let ports = registry_of(partition);
    let flags = Flags::new(Some(OsEvent { handle: 77 }));
    let r = ports.add_event_port(8, Vtl::Vtl0, event_port(&flags));
    assert_eq!(r.err(), Some(Error::Hypervisor(5)));
    assert_eq!(
        ports.on_signal_event(Vtl::Vtl0, 8, 1),
        Err(HvError::InvalidConnectionId)
    );
    // The ID is still free.
    let r = ports.add_event_port(8, Vtl::Vtl0, event_port(&Flags::new(None)));
    assert!(r.is_ok());
}

#[test]
fn partition_capabilities_are_forwarded() {
    let mut partition = Partition::plain();
    partition.os_events = true;
    partition.monitor = true;
    let log = partition.log.clone();
    let ports = registry_of(partition);

    assert!(ports.prefer_os_events());
    ports.post_message(Vtl::Vtl0, 3, 2, 1, &[9, 9]);
    assert_eq!(
        log.lock().unwrap().posted,
        vec![(Vtl::Vtl0, 3, 2, 1, vec![9, 9])]
    );
    let _guest_port = ports.new_guest_event_port();

    assert!(ports.monitor_support().is_some());
    assert!(ports.register_monitor(MonitorId(4), 12).is_some());
    assert_eq!(log.lock().unwrap().monitors, vec![(MonitorId(4), 12)]);
    assert_eq!(ports.set_monitor_page(Some(0x2000)), Some(Ok(())));
    assert_eq!(log.lock().unwrap().monitor_page, Some(Some(0x2000)));
    assert!(matches!(ports.set_monitor_page(Some(0x2001)), Some(Err(_))));
    assert_eq!(ports.set_monitor_page(None), Some(Ok(())));
}

#[test]
fn partition_without_monitor_support() {
    let ports = registry();
    assert!(!ports.prefer_os_events());
    assert!(ports.monitor_support().is_none());
    assert!(ports.register_monitor(MonitorId(4), 12).is_none());
    assert_eq!(ports.set_monitor_page(Some(0x2000)), None);
}

#[test]
fn table_registers_ports_of_both_kinds() {
    let mut table = PortTable::new();
    let inbox = Inbox::new(true);
    let flags = Flags::new(None);
    assert!(table
        .add_message_port(1, Vtl::Vtl1, message_port(&inbox))
        .is_ok());
    assert!(table
        .add_event_port(2, Vtl::Vtl2, event_port(&flags))
        .is_ok());
    assert!(matches!(
        table.lookup(1),
        Some(Port {
            port_type: PortType::Message(_),
            minimum_vtl: Vtl::Vtl1
        })
    ));
    assert!(matches!(
        table.lookup(2),
        Some(Port {
            port_type: PortType::Event(_),
            minimum_vtl: Vtl::Vtl2
        })
    ));
    // The port is registered at the VTL given, not below it.
    assert_eq!(
        table.message_target(Vtl::Vtl0, 1).err(),
        Some(HvError::OperationDenied)
    );
    assert!(table.message_target(Vtl::Vtl1, 1).is_ok());
    assert_eq!(
        table.event_target(Vtl::Vtl1, 2).err(),
        Some(HvError::OperationDenied)
    );
    assert!(table.event_target(Vtl::Vtl2, 2).is_ok());

    let refused = table
        .add_event_port(1, Vtl::Vtl0, event_port(&flags))
        .err()
        .unwrap();
    assert_eq!(refused.error, Error::ConnectionIdInUse(1));
    assert!(matches!(refused.port.port_type, PortType::Event(_)));
    let refused = table
        .add_message_port(2, Vtl::Vtl0, message_port(&inbox))
        .err()
        .unwrap();
    assert_eq!(refused.error, Error::ConnectionIdInUse(2));
    assert!(matches!(refused.port.port_type, PortType::Message(_)));
    // What was registered first stays.
    assert!(table.message_target(Vtl::Vtl1, 1).is_ok());
    assert!(table.event_target(Vtl::Vtl2, 2).is_ok());
}

#[test]
fn table_registers_routes_and_removes() {
    let mut table = PortTable::new();
    let inbox = Inbox::new(true);
    let flags = Flags::new(None);
    assert!(!table.contains(1));
    assert!(table.lookup(1).is_none());

    let message = Port {
        port_type: PortType::Message(message_port(&inbox)),
        minimum_vtl: Vtl::Vtl1,
    };
    assert!(table.add_port(1, message).is_ok());
    let event = Port {
        port_type: PortType::Event(event_port(&flags)),
        minimum_vtl: Vtl::Vtl0,
    };
    assert!(table.add_port(2, event.duplicate()).is_ok());
    let refused = table.add_port(1, event).err().unwrap();
    assert_eq!(refused.error, Error::ConnectionIdInUse(1));
    assert!(matches!(
        refused.port,
        Port {
            port_type: PortType::Event(_),
            minimum_vtl: Vtl::Vtl0
        }
    ));
    assert!(table.contains(1));
    assert!(table.contains(2));
    assert_eq!(table.lookup(1).unwrap().port_type.kind_name(), "Port::Message");
    assert_eq!(table.lookup(2).unwrap().port_type.kind_name(), "Port::Event");
    assert!(matches!(
        table.lookup(1),
        Some(Port {
            port_type: PortType::Message(_),
            minimum_vtl: Vtl::Vtl1
        })
    ));

    assert_eq!(
        table.message_target(Vtl::Vtl0, 1).err(),
        Some(HvError::OperationDenied)
    );
    assert_eq!(
        table.message_target(Vtl::Vtl1, 2).err(),
        Some(HvError::InvalidConnectionId)
    );
    assert_eq!(
        table.event_target(Vtl::Vtl1, 1).err(),
        Some(HvError::InvalidConnectionId)
    );
    assert_eq!(
        table.event_target(Vtl::Vtl0, 3).err(),
        Some(HvError::InvalidConnectionId)
    );

    let route = table.message_target(Vtl::Vtl2, 1);
    assert!(route.is_ok());
    assert_eq!(
        deliver_message(route, &[4], false, FullPortPolicy::InsufficientBuffers),
        Ok(())
    );
    assert_eq!(inbox.seen(), vec![(vec![4], false)]);
    assert_eq!(
        deliver_message(
            Err(HvError::OperationDenied),
            &[4],
            false,
            FullPortPolicy::Timeout
        ),
        Err(HvError::OperationDenied)
    );
    assert_eq!(inbox.seen().len(), 1);

    assert_eq!(deliver_event(table.event_target(Vtl::Vtl0, 2), 6), Ok(()));
    assert_eq!(flags.seen(), vec![6]);
    assert_eq!(
        deliver_event(Err(HvError::InvalidConnectionId), 6),
        Err(HvError::InvalidConnectionId)
    );
    assert_eq!(flags.seen().len(), 1);

    assert!(matches!(
        table.remove_port(1),
        Some(Port {
            port_type: PortType::Message(_),
            minimum_vtl: Vtl::Vtl1
        })
    ));
    assert!(table.remove_port(1).is_none());
    assert!(!table.contains(1));
    assert!(table.contains(2));
    assert_eq!(
        table.message_target(Vtl::Vtl2, 1).err(),
        Some(HvError::InvalidConnectionId)
    );
}
