//! The registry as a partition shares it: a [`PortTable`] behind a lock.
//!
//! Registration and dispatch take the lock only to read or change the
//! table. A handler is invoked, and a port is dropped, after the lock is
//! released, so a handler may itself register or release ports.
//!
//! What the table holds when the lock is taken is for the lock to say, and
//! what a handler or the partition answers is for them to say. A contract
//! here states the result over those answers: for some table, and for an
//! answer that the call in question gave.

use super::guest_event_port_of;
use super::hint_of;
use super::host_event_port_of;
use super::is_guest_port;
use super::is_hint;
use super::is_host_port;
use super::is_monitor;
use super::is_monitor_binding;
use super::is_monitor_page_outcome;
use super::is_native_event;
use super::monitor_binding_of;
use super::monitor_of;
use super::monitor_page_outcome_of;
use super::is_posted;
use super::os_event_of;
use super::post_message_on;
use super::table::deliver_event;
use super::table::deliver_message;
use super::table::event_route;
use super::table::is_post_outcome;
use super::table::is_signal_outcome;
use super::table::message_route;
use super::table::Port;
use super::table::PortTable;
use super::table::Refused;
use super::table::SharedEventPort;
use super::table::SharedMessagePort;
use super::Error;
use super::EventPort;
use super::FullPortPolicy;
use super::GuestEventPort;
use super::HostBinding;
use super::HvError;
use super::HvResult;
use super::MonitorId;
use super::OsEvent;
use super::Synic;
use super::SynicMonitorAccess;
use super::Vtl;
use parking_lot::Mutex;
use parking_lot::MutexGuard;
use std::sync::Arc;
use std::sync::Weak;
use vstd::prelude::*;

verus! {

/// `lock_api::Mutex`, of which `parking_lot::Mutex` is an instance. The type
/// is opaque: what a lock holds is known only to the one that holds it.
#[verifier::external_type_specification]
#[verifier::external_body]
#[verifier::reject_recursive_types(R)]
#[verifier::reject_recursive_types(T)]
pub struct ExMutex<R, T: ?Sized>(parking_lot::lock_api::Mutex<R, T>);

/// `parking_lot::RawMutex`, the lock inside a `parking_lot::Mutex`. Opaque.
#[verifier::external_type_specification]
#[verifier::external_body]
pub struct ExRawMutex(parking_lot::RawMutex);

/// Exclusive access to a locked table, given up when the value is dropped.
///
/// Holds a `parking_lot::MutexGuard`, which Verus cannot take as it is
/// declared: the guard's own type is bounded by a trait of `lock_api`.
/// Nothing is assumed about the table found under the lock.
#[verifier::external_body]
pub struct TableGuard<'a> {
    guard: MutexGuard<'a, PortTable>,
}

/// A reference to a shared table that does not keep it alive.
///
/// Holds a `std::sync::Weak`, which Verus cannot take as it is declared:
/// the type has an allocator parameter. Nothing is assumed about whether
/// the table still exists.
#[verifier::external_body]
pub struct WeakTable {
    table: Weak<Mutex<PortTable>>,
}

/// `parking_lot::Mutex::new`: a lock around `table`.
#[verifier::external_body]
fn new_table_lock(table: PortTable) -> (lock: Mutex<PortTable>)
{
    Mutex::new(table)
}

/// `parking_lot::Mutex::lock`: blocks until the lock is held. The table found
/// there is whatever the last holder left.
///
/// The lock is not reentrant. This module takes it only in sections that
/// call nothing but the table, so no section is entered from within one.
#[verifier::external_body]
fn lock_table<'a>(lock: &'a Mutex<PortTable>) -> (guard: TableGuard<'a>)
{
    TableGuard { guard: lock.lock() }
}

/// `DerefMut::deref_mut` of the guard: the table under the lock.
#[verifier::external_body]
fn locked_table<'a, 'b>(guard: &'b mut TableGuard<'a>) -> (table: &'b mut PortTable)
{
    &mut *guard.guard
}

/// `Arc::downgrade`: a weak reference to the shared table.
#[verifier::external_body]
fn downgrade_table(table: &Arc<Mutex<PortTable>>) -> (weak: WeakTable)
{
    WeakTable { table: Arc::downgrade(table) }
}

/// `Weak::upgrade`: the shared table, unless its owner has dropped it.
#[verifier::external_body]
fn upgrade_table(weak: &WeakTable) -> (table: Option<Arc<Mutex<PortTable>>>)
{
    weak.table.upgrade()
}

/// The connection ports of one partition.
pub struct SynicPorts {
    partition: Arc<Box<dyn Synic>>,
    ports: Arc<Mutex<PortTable>>,
    full_port_policy: FullPortPolicy,
}

/// How the release of a registration ended.
#[derive(Clone, Copy, Debug, PartialEq, Eq)]
pub enum Release {
    /// The port was removed from the registry.
    Removed,
    /// The registry no longer exists; nothing was done.
    RegistryGone,
    /// The registry holds no port under the handle's connection ID.
    NotRegistered,
}

/// The right to remove one registered port.
///
/// Returned by a successful registration. It carries the host binding of an
/// event port, if one was made, so that binding and registration end
/// together. The handle does not keep the registry alive. A handle that is
/// dropped without [`PortHandle::release`] leaves its port registered.
pub struct PortHandle {
    ports: WeakTable,
    connection_id: u32,
    inner_handle: Option<HostBinding>,
}

impl PortHandle {
    /// The connection ID whose registration this handle owns.
    pub closed spec fn spec_connection_id(&self) -> u32 {
        self.connection_id
    }

    /// Whether the handle carries a host binding.
    pub closed spec fn spec_has_host_binding(&self) -> bool {
        self.inner_handle is Some
    }

    /// The connection ID whose registration this handle owns.
    #[verifier::when_used_as_spec(spec_connection_id)]
    pub fn connection_id(&self) -> (id: u32)
        ensures
            id == self.spec_connection_id(),
    {
        self.connection_id
    }

    /// Whether the handle carries a host binding.
    #[verifier::when_used_as_spec(spec_has_host_binding)]
    pub fn has_host_binding(&self) -> (r: bool)
        ensures
            r == self.spec_has_host_binding(),
    {
        self.inner_handle.is_some()
    }

    /// Ends the registration: removes the port from the registry, if the
    /// registry still exists, and drops the host binding.
    ///
    /// The outcome is the one that [`release_status`] gives for the
    /// handle's connection ID, for the registry as it is found: gone, or
    /// alive with the table that stands under the lock.
    ///
    /// `NotRegistered` means that the registry was alive but held no port
    /// under this ID. Since a handle is the only way to remove its port,
    /// that outcome shows a fault in the caller.
    pub fn release(self) -> (r: Release)
        ensures
            exists|alive: bool, ports: Map<u32, Port>|
                r == #[trigger] release_status(alive, ports, self.connection_id()),
    {
        match upgrade_table(&self.ports) {
            None => {
                assert(Release::RegistryGone == release_status(
                    false,
                    Map::<u32, Port>::empty(),
                    self.connection_id(),
                ));
                Release::RegistryGone
            },
            Some(ports) => {
                let ghost found: Map<u32, Port>;
                let removed = {
                    let mut guard = lock_table(&ports);
                    let table = locked_table(&mut guard);
                    proof {
                        found = table@;
                    }
                    table.remove_port(self.connection_id)
                };
                // The port is dropped here, after the lock is released.
                let r = removal_outcome(removed.is_some());
                assert(r == release_status(true, found, self.connection_id()));
                r
            },
        }
    }
}

/// How a release ends: a registry that is gone is left alone; a registry
/// that is alive loses the port under `connection_id`, if `ports`, the
/// table found, holds one.
pub open spec fn release_status(alive: bool, ports: Map<u32, Port>, connection_id: u32) -> Release {
    if !alive {
        Release::RegistryGone
    } else if ports.contains_key(connection_id) {
        Release::Removed
    } else {
        Release::NotRegistered
    }
}

/// The outcome of a release that found the registry alive.
pub fn removal_outcome(was_registered: bool) -> (r: Release)
    ensures
        r == if was_registered {
            Release::Removed
        } else {
            Release::NotRegistered
        },
{
    if was_registered {
        Release::Removed
    } else {
        Release::NotRegistered
    }
}

/// Whether `r` is an outcome of offering a port for registration under
/// `connection_id`, with a host binding or without: a handle for the ID
/// that carries the binding, or the error that the ID is in use.
pub open spec fn is_registration(
    r: Result<PortHandle, Error>,
    connection_id: u32,
    bound: bool,
) -> bool {
    match r {
        Ok(handle) => handle.connection_id() == connection_id && handle.has_host_binding() == bound,
        Err(e) => e == Error::ConnectionIdInUse(connection_id),
    }
}

/// Whether `r` is an outcome of registering an event port after the
/// partition answered `host` to the request for a host binding: the
/// partition's error, or a registration with the binding that it made.
pub open spec fn is_bound_registration(
    r: Result<PortHandle, Error>,
    connection_id: u32,
    host: Result<Option<HostBinding>, Error>,
) -> bool {
    match host {
        Ok(binding) => is_registration(r, connection_id, binding is Some),
        Err(failure) => r matches Err(e) && e == failure,
    }
}

/// Whether `r` is an outcome of registering an event port whose native
/// event is `event`. Without a native event the partition is not asked and
/// the handle carries no binding; with one, the partition is asked to bind
/// it for the same ID and VTL before anything is registered.
pub open spec fn is_event_registration(
    r: Result<PortHandle, Error>,
    partition: Arc<Box<dyn Synic>>,
    connection_id: u32,
    minimum_vtl: Vtl,
    event: Option<OsEvent>,
) -> bool {
    match event {
        None => is_registration(r, connection_id, false),
        Some(native) => exists|host: Result<Option<HostBinding>, Error>|
            #[trigger] is_host_port::<dyn Synic>(
                &**partition,
                connection_id,
                minimum_vtl,
                native,
                host,
            ) && is_bound_registration(r, connection_id, host),
    }
}

impl SynicPorts {
    /// What the guest is told when a message port has no room.
    pub closed spec fn full_port_policy(&self) -> FullPortPolicy {
        self.full_port_policy
    }

    /// The partition that the registry serves.
    pub closed spec fn partition(&self) -> Arc<Box<dyn Synic>> {
        self.partition
    }

    /// An empty registry for the partition behind `partition`. A message
    /// port without room is reported as `InsufficientBuffers`.
    pub fn new(partition: Arc<Box<dyn Synic>>) -> (r: Self)
        ensures
            r.partition() == partition,
            r.full_port_policy() == FullPortPolicy::InsufficientBuffers,
    {
        SynicPorts::with_full_port_policy(partition, FullPortPolicy::InsufficientBuffers)
    }

    /// An empty registry that reports a message port without room as
    /// `policy` says.
    pub fn with_full_port_policy(partition: Arc<Box<dyn Synic>>, policy: FullPortPolicy) -> (r:
        Self)
        ensures
            r.partition() == partition,
            r.full_port_policy() == policy,
    {
        SynicPorts {
            partition,
            ports: Arc::new(new_table_lock(PortTable::new())),
            full_port_policy: policy,
        }
    }

    /// The handle for a port that the table took under `connection_id`, or
    /// the error with which the table refused it.
    fn handle_for(
        &self,
        added: Result<(), Refused>,
        connection_id: u32,
        inner_handle: Option<HostBinding>,
    ) -> (r: Result<PortHandle, Error>)
        ensures
            match added {
                Ok(()) => r matches Ok(handle) && handle.connection_id() == connection_id
                    && handle.has_host_binding() == (inner_handle is Some),
                Err(refused) => r matches Err(e) && e == refused.error,
            },
    {
        match added {
            Ok(()) => Ok(
                PortHandle { ports: downgrade_table(&self.ports), connection_id, inner_handle },
            ),
            // The refused port is dropped here, after the lock is released.
            Err(refused) => Err(refused.error),
        }
    }

    /// Offers a message port to the table under the lock.
    fn register_message_port(
        &self,
        connection_id: u32,
        minimum_vtl: Vtl,
        port: SharedMessagePort,
    ) -> (r: Result<PortHandle, Error>)
        ensures
            is_registration(r, connection_id, false),
    {
        let added = {
            let mut guard = lock_table(&self.ports);
            let table = locked_table(&mut guard);
            table.add_message_port(connection_id, minimum_vtl, port)
        };
        self.handle_for(added, connection_id, None)
    }

    /// Offers an event port to the table under the lock.
    fn register_event_port(
        &self,
        connection_id: u32,
        minimum_vtl: Vtl,
        port: SharedEventPort,
        inner_handle: Option<HostBinding>,
    ) -> (r: Result<PortHandle, Error>)
        ensures
            is_registration(r, connection_id, inner_handle is Some),
    {
        let added = {
            let mut guard = lock_table(&self.ports);
            let table = locked_table(&mut guard);
            table.add_event_port(connection_id, minimum_vtl, port)
        };
        self.handle_for(added, connection_id, inner_handle)
    }

    /// The message handler that a post from `vtl` to `connection_id` is
    /// routed to by the table as it stands when the lock is taken.
    fn message_target(&self, vtl: Vtl, connection_id: u32) -> (r: HvResult<SharedMessagePort>)
        ensures
            exists|ports: Map<u32, Port>| r == #[trigger] message_route(ports, vtl, connection_id),
    {
        let mut guard = lock_table(&self.ports);
        let table = locked_table(&mut guard);
        let r = table.message_target(vtl, connection_id);
        assert(r == message_route(table@, vtl, connection_id));
        r
    }

    /// The event handler that a signal from `vtl` on `connection_id` is
    /// routed to by the table as it stands when the lock is taken.
    fn event_target(&self, vtl: Vtl, connection_id: u32) -> (r: HvResult<SharedEventPort>)
        ensures
            exists|ports: Map<u32, Port>| r == #[trigger] event_route(ports, vtl, connection_id),
    {
        let mut guard = lock_table(&self.ports);
        let table = locked_table(&mut guard);
        let r = table.event_target(vtl, connection_id);
        assert(r == event_route(table@, vtl, connection_id));
        r
    }

    /// Routes a guest's message to the port registered under
    /// `connection_id` and reports the hypercall status.
    ///
    /// The table is read under the lock; the handler runs after the lock is
    /// released. The status is the one that the table found under the lock
    /// gives for `vtl` and `connection_id`: see
    /// [`super::table::message_route`]. Where that routes to a handler, the
    /// handler is handed `message` and `secure`, and its answer decides
    /// between success and the status of the registry's policy.
    pub fn on_post_message(&self, vtl: Vtl, connection_id: u32, secure: bool, message: &[u8]) -> (r:
        HvResult<()>)
        ensures
            exists|ports: Map<u32, Port>, accepted: bool| #[trigger]
                is_post_outcome(
                    message_route(ports, vtl, connection_id),
                    message,
                    secure,
                    self.full_port_policy(),
                    accepted,
                    r,
                ),
            r matches Err(e) ==> e == HvError::InvalidConnectionId || e == HvError::OperationDenied
                || e == self.full_port_policy().status(),
    {
        let route = self.message_target(vtl, connection_id);
        let r = deliver_message(route, message, secure, self.full_port_policy);
        proof {
            let ports = choose|ports: Map<u32, Port>|
                route == #[trigger] message_route(ports, vtl, connection_id);
            let accepted = choose|accepted: bool| #[trigger]
                is_post_outcome(route, message, secure, self.full_port_policy(), accepted, r);
            assert(is_post_outcome(
                message_route(ports, vtl, connection_id),
                message,
                secure,
                self.full_port_policy(),
                accepted,
                r,
            ));
        }
        r
    }

    /// Routes a guest's signal to the port registered under
    /// `connection_id` and reports the hypercall status.
    ///
    /// The table is read under the lock; the handler runs after the lock is
    /// released. The status is the one that the table found under the lock
    /// gives for `vtl` and `connection_id`: see
    /// [`super::table::event_route`]. Where that routes to a handler, the
    /// handler is handed `flag_number`.
    pub fn on_signal_event(&self, vtl: Vtl, connection_id: u32, flag_number: u16) -> (r: HvResult<
        (),
    >)
        ensures
            exists|ports: Map<u32, Port>| #[trigger]
                is_signal_outcome(event_route(ports, vtl, connection_id), flag_number, r),
            r matches Err(e) ==> e == HvError::InvalidConnectionId || e == HvError::OperationDenied,
    {
        let route = self.event_target(vtl, connection_id);
        let r = deliver_event(route, flag_number);
        proof {
            let ports = choose|ports: Map<u32, Port>|
                route == #[trigger] event_route(ports, vtl, connection_id);
            assert(is_signal_outcome(event_route(ports, vtl, connection_id), flag_number, r));
        }
        r
    }

    /// Registers a message port under `connection_id`.
    ///
    /// The port is offered to the table under the lock, by
    /// [`PortTable::add_message_port`] with the ID, VTL and port as given:
    /// it fails, and changes nothing, when the ID is in use.
    pub fn add_message_port(
        &self,
        connection_id: u32,
        minimum_vtl: Vtl,
        port: SharedMessagePort,
    ) -> (r: Result<PortHandle, Error>)
        ensures
            r matches Err(e) ==> e == Error::ConnectionIdInUse(connection_id),
            r matches Ok(handle) ==> handle.connection_id() == connection_id
                && !handle.has_host_binding(),
    {
        self.register_message_port(connection_id, minimum_vtl, port)
    }

    /// Registers an event port under `connection_id`.
    ///
    /// When the port has a native event, the partition is first asked to
    /// bind it in the host. If that fails, the registration fails with the
    /// partition's error and the table is not touched. Otherwise the port
    /// is offered to the table under the lock, by
    /// [`PortTable::add_event_port`] with the ID, VTL and port as given. If
    /// the ID turns out to be in use, the binding is dropped again.
    pub fn add_event_port(&self, connection_id: u32, minimum_vtl: Vtl, port: SharedEventPort) -> (r:
        Result<PortHandle, Error>)
        ensures
            r matches Ok(handle) ==> handle.connection_id() == connection_id,
            exists|event: Option<OsEvent>| #[trigger]
                is_native_event::<dyn EventPort>(&**port, event) && is_event_registration(
                    r,
                    self.partition(),
                    connection_id,
                    minimum_vtl,
                    event,
                ),
    {
        let event = os_event_of::<dyn EventPort>(&**port);
        match event {
            Some(native) => {
                let host = host_event_port_of::<dyn Synic>(
                    &**self.partition,
                    connection_id,
                    minimum_vtl,
                    native,
                );
                let ghost answer = host;
                let r = match host {
                    Ok(binding) => self.register_event_port(
                        connection_id,
                        minimum_vtl,
                        port,
                        binding,
                    ),
                    Err(e) => Err(e),
                };
                assert(is_bound_registration(r, connection_id, answer));
                r
            },
            None => self.register_event_port(connection_id, minimum_vtl, port, None),
        }
    }

    /// Asks the partition to deliver a message to a virtual processor, with
    /// the arguments as they are given. No port is involved.
    pub fn post_message(&self, vtl: Vtl, vp: u32, sint: u8, typ: u32, payload: &[u8])
        ensures
            is_posted::<dyn Synic>(&**self.partition(), vtl, vp, sint, typ, payload),
    {
        post_message_on::<dyn Synic>(&**self.partition, vtl, vp, sint, typ, payload)
    }

    /// Asks the partition for a port that signals the guest, and hands on
    /// the port that the partition made.
    pub fn new_guest_event_port(&self) -> (port: GuestEventPort)
        ensures
            is_guest_port::<dyn Synic>(&**self.partition(), port),
    {
        guest_event_port_of::<dyn Synic>(&**self.partition)
    }

    /// The partition's hint on whether to hand native events to event
    /// ports, handed on unchanged.
    pub fn prefer_os_events(&self) -> (hint: bool)
        ensures
            is_hint::<dyn Synic>(&**self.partition(), hint),
    {
        hint_of::<dyn Synic>(&**self.partition)
    }

    /// This registry as the way to the monitor page, exactly when the
    /// partition gives monitor page support.
    pub fn monitor_support(&self) -> (r: Option<&SynicPorts>)
        ensures
            exists|monitor: Option<&dyn SynicMonitorAccess>| #[trigger]
                is_monitor::<dyn Synic>(&**self.partition(), monitor) && (r is Some) == (
                monitor is Some),
            r matches Some(ports) ==> ports == self,
    {
        let monitor = monitor_of::<dyn Synic>(&**self.partition);
        assert(is_monitor::<dyn Synic>(&**self.partition(), monitor));
        match monitor {
            Some(_) => Some(self),
            None => None,
        }
    }

    /// Binds `monitor_id` to `connection_id` through the partition's
    /// monitor page support and hands on the binding that it made. Returns
    /// `None` exactly when the partition gives no monitor page support.
    pub fn register_monitor(&self, monitor_id: MonitorId, connection_id: u32) -> (r: Option<
        HostBinding,
    >)
        ensures
            exists|monitor: Option<&dyn SynicMonitorAccess>| #[trigger]
                is_monitor::<dyn Synic>(&**self.partition(), monitor) && match monitor {
                    Some(support) => r matches Some(binding) && is_monitor_binding::<
                        dyn SynicMonitorAccess,
                    >(support, monitor_id, connection_id, binding),
                    None => r is None,
                },
    {
        let monitor = monitor_of::<dyn Synic>(&**self.partition);
        assert(is_monitor::<dyn Synic>(&**self.partition(), monitor));
        match monitor {
            Some(support) => Some(
                monitor_binding_of::<dyn SynicMonitorAccess>(support, monitor_id, connection_id),
            ),
            None => None,
        }
    }

    /// Moves the monitor page through the partition's monitor page support
    /// and hands on its answer. Returns `None` exactly when the partition
    /// gives no monitor page support.
    pub fn set_monitor_page(&self, gpa: Option<u64>) -> (r: Option<Result<(), String>>)
        ensures
            exists|monitor: Option<&dyn SynicMonitorAccess>| #[trigger]
                is_monitor::<dyn Synic>(&**self.partition(), monitor) && match monitor {
                    Some(support) => r matches Some(outcome) && is_monitor_page_outcome::<
                        dyn SynicMonitorAccess,
                    >(support, gpa, outcome),
                    None => r is None,
                },
    {
        let monitor = monitor_of::<dyn Synic>(&**self.partition);
        assert(is_monitor::<dyn Synic>(&**self.partition(), monitor));
        match monitor {
            Some(support) => Some(monitor_page_outcome_of::<dyn SynicMonitorAccess>(support, gpa)),
            None => None,
        }
    }
}

} // verus!
