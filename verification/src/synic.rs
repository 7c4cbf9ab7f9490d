//! Synthetic interrupt controller (SynIC) connection ports.
//!
//! A partition owns one registry of connection ports. Devices register a
//! message port or an event port under a 32-bit connection ID together with
//! the lowest virtual trust level (VTL) that may target it; the hypercall
//! path then routes guest `post message` and `signal event` requests to the
//! registered handler.

use vstd::prelude::*;

pub mod laws;
pub mod ports;
pub mod table;

verus! {

/// A virtual trust level. Higher levels are more privileged.
#[derive(Clone, Copy, Debug, PartialEq, Eq, PartialOrd, Ord, Hash)]
pub enum Vtl {
    Vtl0,
    Vtl1,
    Vtl2,
}

impl Vtl {
    /// The position of this level in the trust order: 0, 1 or 2.
    pub open spec fn level(self) -> nat {
        match self {
            Vtl::Vtl0 => 0,
            Vtl::Vtl1 => 1,
            Vtl::Vtl2 => 2,
        }
    }

    /// The position of this level in the trust order.
    pub fn rank(self) -> (r: u8)
        ensures
            r == self.level(),
    {
        match self {
            Vtl::Vtl0 => 0,
            Vtl::Vtl1 => 1,
            Vtl::Vtl2 => 2,
        }
    }

    /// Whether a caller at this level may use a port gated at `minimum`.
    pub fn at_least(self, minimum: Vtl) -> (r: bool)
        ensures
            r == (self.level() >= minimum.level()),
    {
        self.rank() >= minimum.rank()
    }
}

/// The hypercall status reported to the guest when a dispatch fails.
#[derive(Clone, Copy, Debug, PartialEq, Eq, Hash)]
pub enum HvError {
    /// No port of the requested kind is registered under the connection ID.
    InvalidConnectionId,
    /// The caller's VTL is below the port's minimum VTL.
    OperationDenied,
    /// The message port had no room for the message; the guest may retry.
    InsufficientBuffers,
    /// The operation timed out; the guest retries.
    Timeout,
}

/// What the guest is told when a message port has no room for a message.
#[derive(Clone, Copy, Debug, PartialEq, Eq, Hash)]
pub enum FullPortPolicy {
    /// `InsufficientBuffers`, the status that names the condition.
    InsufficientBuffers,
    /// `Timeout`, for guests that retry only on a timeout.
    Timeout,
}

impl FullPortPolicy {
    /// The status that the policy reports.
    pub open spec fn spec_status(self) -> HvError {
        match self {
            FullPortPolicy::InsufficientBuffers => HvError::InsufficientBuffers,
            FullPortPolicy::Timeout => HvError::Timeout,
        }
    }

    /// The status that the policy reports.
    #[verifier::when_used_as_spec(spec_status)]
    pub fn status(self) -> (r: HvError)
        ensures
            r == self.spec_status(),
    {
        match self {
            FullPortPolicy::InsufficientBuffers => HvError::InsufficientBuffers,
            FullPortPolicy::Timeout => HvError::Timeout,
        }
    }
}

/// The result of a dispatched hypercall.
pub type HvResult<T> = Result<T, HvError>;

/// Why a registration failed.
#[derive(Clone, Copy, Debug, PartialEq, Eq, Hash)]
pub enum Error {
    /// The connection ID already names a registered port.
    ConnectionIdInUse(u32),
    /// The partition could not create the host event port; the payload is
    /// the hypervisor's status code.
    Hypervisor(u16),
}

/// A native event object that the host can signal directly.
#[derive(Clone, Copy, Debug, PartialEq, Eq, Hash)]
pub struct OsEvent {
    /// The operating system's handle for the event.
    pub handle: u64,
}

/// Identifies a monitored notification slot.
#[derive(Clone, Copy, Debug, PartialEq, Eq, Hash)]
pub struct MonitorId(pub u8);

/// Receives the messages posted to a message port.
pub trait MessagePort: Send + Sync {
    /// Handles one message. Returns `false` when the port has no buffer
    /// space left, in which case the guest is told to retry.
    fn handle_message(&self, msg: &[u8], trusted: bool) -> bool;
}

/// Receives the signals sent to an event port.
pub trait EventPort: Send + Sync {
    /// Handles a signal on `flag`.
    fn handle_event(&self, flag: u16);

    /// The native event to bind in the host, if this port has one.
    fn os_event(&self) -> Option<OsEvent>;
}

/// A host-side resource that is released when the value is dropped.
pub trait HostResource: Send + Sync {
}

/// A binding made in the host, undone when the value is dropped.
pub struct HostBinding {
    pub resource: Box<dyn HostResource>,
}

/// Signals the guest from the host side.
pub trait GuestSignal: Send {
}

/// A port through which the host signals the guest.
pub struct GuestEventPort {
    pub signal: Box<dyn GuestSignal>,
}

/// Monitor page support offered by a partition.
pub trait SynicMonitorAccess: Send + Sync {
    /// Binds `monitor_id` to `connection_id` until the returned value is
    /// dropped.
    fn register_monitor(&self, monitor_id: MonitorId, connection_id: u32) -> HostBinding;

    /// Moves the monitor page to `gpa`, or disables it. On failure returns
    /// the reason.
    fn set_monitor_page(&self, gpa: Option<u64>) -> Result<(), String>;
}

/// What the registry needs from the partition that owns it.
pub trait Synic: Send + Sync {
    /// Delivers a message to the given virtual processor and SINT.
    fn post_message(&self, vtl: Vtl, vp: u32, sint: u8, typ: u32, payload: &[u8]);

    /// Creates a port for signalling the guest.
    fn new_guest_event_port(&self) -> GuestEventPort;

    /// Whether callers should hand native events to event ports.
    fn prefer_os_events(&self) -> bool;

    /// The partition's monitor page support, if it has any.
    fn monitor_support(&self) -> Option<&dyn SynicMonitorAccess>;

    /// Binds `event` in the host so that a guest signal on `connection_id`
    /// sets it without an exit. Returns `None` when the platform has no
    /// such binding.
    fn new_host_event_port(
        &self,
        connection_id: u32,
        minimum_vtl: Vtl,
        event: OsEvent,
    ) -> Result<Option<HostBinding>, Error>;
}

/// Whether `accepted` is an answer of `port` to the message `msg`: a
/// value that a call of its `handle_message` with these arguments returns.
pub open spec fn is_answer<M: MessagePort + ?Sized>(
    port: &M,
    msg: &[u8],
    trusted: bool,
    accepted: bool,
) -> bool {
    call_ensures(M::handle_message, (port, msg, trusted), accepted)
}

/// Whether a signal on `flag` was handed to `port`: a call of its
/// `handle_event` with this flag returned.
pub open spec fn is_signalled<E: EventPort + ?Sized>(port: &E, flag: u16) -> bool {
    call_ensures(E::handle_event, (port, flag), ())
}

/// Whether `event` is what `port` gives as its native event.
pub open spec fn is_native_event<E: EventPort + ?Sized>(port: &E, event: Option<OsEvent>) -> bool {
    call_ensures(E::os_event, (port,), event)
}

/// Whether `partition` was asked to deliver the message: a call of its
/// `post_message` with these arguments returned.
pub open spec fn is_posted<P: Synic + ?Sized>(
    partition: &P,
    vtl: Vtl,
    vp: u32,
    sint: u8,
    typ: u32,
    payload: &[u8],
) -> bool {
    call_ensures(P::post_message, (partition, vtl, vp, sint, typ, payload), ())
}

/// Whether `port` is a port that `partition` made for signalling the
/// guest.
pub open spec fn is_guest_port<P: Synic + ?Sized>(partition: &P, port: GuestEventPort) -> bool {
    call_ensures(P::new_guest_event_port, (partition,), port)
}

/// Whether `hint` is the hint of `partition` on native events.
pub open spec fn is_hint<P: Synic + ?Sized>(partition: &P, hint: bool) -> bool {
    call_ensures(P::prefer_os_events, (partition,), hint)
}

/// Whether `monitor` is what `partition` gives as its monitor page
/// support.
pub open spec fn is_monitor<P: Synic + ?Sized>(
    partition: &P,
    monitor: Option<&dyn SynicMonitorAccess>,
) -> bool {
    call_ensures(P::monitor_support, (partition,), monitor)
}

/// Whether `outcome` is what `partition` answered when asked to bind
/// `event` in the host for `connection_id` and `minimum_vtl`.
pub open spec fn is_host_port<P: Synic + ?Sized>(
    partition: &P,
    connection_id: u32,
    minimum_vtl: Vtl,
    event: OsEvent,
    outcome: Result<Option<HostBinding>, Error>,
) -> bool {
    call_ensures(P::new_host_event_port, (partition, connection_id, minimum_vtl, event), outcome)
}

/// Whether `binding` is what `monitor` returned when asked to bind
/// `monitor_id` to `connection_id`.
pub open spec fn is_monitor_binding<A: SynicMonitorAccess + ?Sized>(
    monitor: &A,
    monitor_id: MonitorId,
    connection_id: u32,
    binding: HostBinding,
) -> bool {
    call_ensures(A::register_monitor, (monitor, monitor_id, connection_id), binding)
}

/// Whether `outcome` is what `monitor` answered when asked to move the
/// monitor page to `gpa`.
pub open spec fn is_monitor_page_outcome<A: SynicMonitorAccess + ?Sized>(
    monitor: &A,
    gpa: Option<u64>,
    outcome: Result<(), String>,
) -> bool {
    call_ensures(A::set_monitor_page, (monitor, gpa), outcome)
}

/// Hands `msg` to `port`.
pub(crate) fn handle_message_on<M: MessagePort + ?Sized>(
    port: &M,
    msg: &[u8],
    trusted: bool,
) -> (accepted: bool)
    ensures
        is_answer(port, msg, trusted, accepted),
{
    port.handle_message(msg, trusted)
}

/// Signals `flag` on `port`.
pub(crate) fn handle_event_on<E: EventPort + ?Sized>(port: &E, flag: u16)
    ensures
        is_signalled(port, flag),
{
    port.handle_event(flag)
}

/// Asks `port` for its native event.
pub(crate) fn os_event_of<E: EventPort + ?Sized>(port: &E) -> (event: Option<OsEvent>)
    ensures
        is_native_event(port, event),
{
    port.os_event()
}

/// Asks `partition` to deliver a message.
pub(crate) fn post_message_on<P: Synic + ?Sized>(
    partition: &P,
    vtl: Vtl,
    vp: u32,
    sint: u8,
    typ: u32,
    payload: &[u8],
)
    ensures
        is_posted(partition, vtl, vp, sint, typ, payload),
{
    partition.post_message(vtl, vp, sint, typ, payload)
}

/// Asks `partition` for a port that signals the guest.
pub(crate) fn guest_event_port_of<P: Synic + ?Sized>(partition: &P) -> (port: GuestEventPort)
    ensures
        is_guest_port(partition, port),
{
    partition.new_guest_event_port()
}

/// Asks `partition` for its hint on native events.
pub(crate) fn hint_of<P: Synic + ?Sized>(partition: &P) -> (hint: bool)
    ensures
        is_hint(partition, hint),
{
    partition.prefer_os_events()
}

/// Asks `partition` for its monitor page support.
pub(crate) fn monitor_of<P: Synic + ?Sized>(partition: &P) -> (monitor: Option<
    &dyn SynicMonitorAccess,
>)
    ensures
        is_monitor(partition, monitor),
{
    partition.monitor_support()
}

/// Asks `partition` to bind `event` in the host.
pub(crate) fn host_event_port_of<P: Synic + ?Sized>(
    partition: &P,
    connection_id: u32,
    minimum_vtl: Vtl,
    event: OsEvent,
) -> (outcome: Result<Option<HostBinding>, Error>)
    ensures
        is_host_port(partition, connection_id, minimum_vtl, event, outcome),
{
    partition.new_host_event_port(connection_id, minimum_vtl, event)
}

/// Asks `monitor` to bind `monitor_id` to `connection_id`.
pub(crate) fn monitor_binding_of<A: SynicMonitorAccess + ?Sized>(
    monitor: &A,
    monitor_id: MonitorId,
    connection_id: u32,
) -> (binding: HostBinding)
    ensures
        is_monitor_binding(monitor, monitor_id, connection_id, binding),
{
    monitor.register_monitor(monitor_id, connection_id)
}

/// Asks `monitor` to move the monitor page.
pub(crate) fn monitor_page_outcome_of<A: SynicMonitorAccess + ?Sized>(
    monitor: &A,
    gpa: Option<u64>,
) -> (outcome: Result<(), String>)
    ensures
        is_monitor_page_outcome(monitor, gpa, outcome),
{
    monitor.set_monitor_page(gpa)
}

} // verus!
