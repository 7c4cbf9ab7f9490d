//! The registry's state: which port each connection ID names.
//!
//! [`PortTable`] is the map that the shared registry guards with its lock.
//! Its operations are stated over the table's view, a `Map<u32, Port>`, and
//! the routing rules are spec functions over that map.

use super::handle_event_on;
use super::handle_message_on;
use super::is_answer;
use super::is_signalled;
use super::Error;
use super::EventPort;
use super::FullPortPolicy;
use super::HvError;
use super::HvResult;
use super::MessagePort;
use super::Vtl;
use std::collections::hash_map::Entry;
use std::collections::HashMap;
use std::sync::Arc;
use vstd::prelude::*;
use vstd::std_specs::hash::*;

verus! {

broadcast use vstd::std_specs::hash::group_hash_axioms;

/// A shared reference to a message handler.
pub type SharedMessagePort = Arc<Box<dyn MessagePort>>;

/// A shared reference to an event handler.
pub type SharedEventPort = Arc<Box<dyn EventPort>>;

/// The handler behind a registered port.
pub enum PortType {
    Message(SharedMessagePort),
    Event(SharedEventPort),
}

/// A registered port: its handler and the lowest VTL that may target it.
pub struct Port {
    pub port_type: PortType,
    pub minimum_vtl: Vtl,
}

/// A registration that was refused: why, and the port that was offered.
pub struct Refused {
    pub error: Error,
    pub port: Port,
}

/// What a registration attempt returns on a table holding `ports`.
pub open spec fn register_result(ports: Map<u32, Port>, connection_id: u32) -> Result<(), Error> {
    if ports.contains_key(connection_id) {
        Err(Error::ConnectionIdInUse(connection_id))
    } else {
        Ok(())
    }
}

/// The table after an attempt to register `port` under `connection_id`:
/// unchanged when the ID is taken, extended by the new entry otherwise.
pub open spec fn register(ports: Map<u32, Port>, connection_id: u32, port: Port) -> Map<u32, Port> {
    if ports.contains_key(connection_id) {
        ports
    } else {
        ports.insert(connection_id, port)
    }
}

/// The table after the registration of `connection_id` is released.
pub open spec fn unregister(ports: Map<u32, Port>, connection_id: u32) -> Map<u32, Port> {
    ports.remove(connection_id)
}

/// Where a message posted from `vtl` to `connection_id` goes.
///
/// An ID that names no port, or names an event port, is an invalid
/// connection. A caller below the port's minimum VTL is denied.
pub open spec fn message_route(ports: Map<u32, Port>, vtl: Vtl, connection_id: u32) -> HvResult<
    SharedMessagePort,
> {
    if ports.contains_key(connection_id) {
        match ports[connection_id].port_type {
            PortType::Message(handler) => {
                if vtl.level() < ports[connection_id].minimum_vtl.level() {
                    Err(HvError::OperationDenied)
                } else {
                    Ok(handler)
                }
            },
            PortType::Event(_) => Err(HvError::InvalidConnectionId),
        }
    } else {
        Err(HvError::InvalidConnectionId)
    }
}

/// Where an event signalled from `vtl` on `connection_id` goes.
///
/// An ID that names no port, or names a message port, is an invalid
/// connection. A caller below the port's minimum VTL is denied.
pub open spec fn event_route(ports: Map<u32, Port>, vtl: Vtl, connection_id: u32) -> HvResult<
    SharedEventPort,
> {
    if ports.contains_key(connection_id) {
        match ports[connection_id].port_type {
            PortType::Event(handler) => {
                if vtl.level() < ports[connection_id].minimum_vtl.level() {
                    Err(HvError::OperationDenied)
                } else {
                    Ok(handler)
                }
            },
            PortType::Message(_) => Err(HvError::InvalidConnectionId),
        }
    } else {
        Err(HvError::InvalidConnectionId)
    }
}

/// The status of a post whose handler answered `accepted`. A handler that
/// does not accept has no room; what the guest is then told is a matter of
/// policy.
pub open spec fn message_status(accepted: bool, policy: FullPortPolicy) -> HvResult<()> {
    if accepted {
        Ok(())
    } else {
        Err(policy.status())
    }
}

/// The status of a post that was routed to `route`, where the handler, if
/// one was reached, answered `accepted`.
pub open spec fn post_status(
    route: HvResult<SharedMessagePort>,
    accepted: bool,
    policy: FullPortPolicy,
) -> HvResult<()> {
    match route {
        Ok(_) => message_status(accepted, policy),
        Err(e) => Err(e),
    }
}

/// The status of a signal that was routed to `route`.
pub open spec fn signal_status(route: HvResult<SharedEventPort>) -> HvResult<()> {
    match route {
        Ok(_) => Ok(()),
        Err(e) => Err(e),
    }
}

impl PortType {
    /// The name of the kind of port, for diagnostics.
    pub fn kind_name(&self) -> (r: &'static str)
        ensures
            r@ == if self is Message {
                "Port::Message"@
            } else {
                "Port::Event"@
            },
    {
        match self {
            PortType::Message(_) => "Port::Message",
            PortType::Event(_) => "Port::Event",
        }
    }

    /// Another reference to the same handler.
    pub fn duplicate(&self) -> (r: PortType)
        ensures
            r == *self,
    {
        match self {
            PortType::Message(handler) => PortType::Message(Arc::clone(handler)),
            PortType::Event(handler) => PortType::Event(Arc::clone(handler)),
        }
    }
}

impl Port {
    /// Another reference to the same port.
    pub fn duplicate(&self) -> (r: Port)
        ensures
            r == *self,
    {
        Port { port_type: self.port_type.duplicate(), minimum_vtl: self.minimum_vtl }
    }
}

/// The ports of one partition, by connection ID.
pub struct PortTable {
    ports: HashMap<u32, Port>,
}

impl View for PortTable {
    type V = Map<u32, Port>;

    closed spec fn view(&self) -> Map<u32, Port> {
        self.ports@
    }
}

impl PortTable {
    /// An empty table.
    pub fn new() -> (table: PortTable)
        ensures
            table@ == Map::<u32, Port>::empty(),
    {
        PortTable { ports: HashMap::new() }
    }

    /// Whether `connection_id` names a registered port.
    pub fn contains(&self, connection_id: u32) -> (r: bool)
        ensures
            r == self@.contains_key(connection_id),
    {
        self.ports.contains_key(&connection_id)
    }

    /// A reference to the port registered under `connection_id`, if any.
    pub fn lookup(&self, connection_id: u32) -> (r: Option<Port>)
        ensures
            r == self@.get(connection_id),
    {
        match self.ports.get(&connection_id) {
            Some(port) => Some(port.duplicate()),
            None => None,
        }
    }

    /// Registers `port` under `connection_id`, unless the ID is taken. A
    /// port that is refused is handed back with the error.
    pub fn add_port(&mut self, connection_id: u32, port: Port) -> (r: Result<(), Refused>)
        ensures
            r is Ok <==> register_result(old(self)@, connection_id) is Ok,
            r matches Err(refused) ==> refused.port == port && Err::<(), Error>(refused.error)
                == register_result(old(self)@, connection_id),
            final(self)@ == register(old(self)@, connection_id, port),
    {
        match self.ports.entry(connection_id) {
            Entry::Occupied(_) => Err(
                Refused { error: Error::ConnectionIdInUse(connection_id), port },
            ),
            Entry::Vacant(e) => {
                e.insert(port);
                Ok(())
            },
        }
    }

    /// Registers the message port `port`, gated at `minimum_vtl`, under
    /// `connection_id`, unless the ID is taken.
    pub fn add_message_port(
        &mut self,
        connection_id: u32,
        minimum_vtl: Vtl,
        port: SharedMessagePort,
    ) -> (r: Result<(), Refused>)
        ensures
            final(self)@ == register(
                old(self)@,
                connection_id,
                (Port { port_type: PortType::Message(port), minimum_vtl }),
            ),
            r is Ok <==> !old(self)@.contains_key(connection_id),
            r matches Err(refused) ==> refused.error == Error::ConnectionIdInUse(connection_id)
                && refused.port == (Port { port_type: PortType::Message(port), minimum_vtl }),
    {
        self.add_port(connection_id, Port { port_type: PortType::Message(port), minimum_vtl })
    }

    /// Registers the event port `port`, gated at `minimum_vtl`, under
    /// `connection_id`, unless the ID is taken.
    pub fn add_event_port(
        &mut self,
        connection_id: u32,
        minimum_vtl: Vtl,
        port: SharedEventPort,
    ) -> (r: Result<(), Refused>)
        ensures
            final(self)@ == register(
                old(self)@,
                connection_id,
                (Port { port_type: PortType::Event(port), minimum_vtl }),
            ),
            r is Ok <==> !old(self)@.contains_key(connection_id),
            r matches Err(refused) ==> refused.error == Error::ConnectionIdInUse(connection_id)
                && refused.port == (Port { port_type: PortType::Event(port), minimum_vtl }),
    {
        self.add_port(connection_id, Port { port_type: PortType::Event(port), minimum_vtl })
    }

    /// Removes the port registered under `connection_id` and hands it out,
    /// if there is one.
    pub fn remove_port(&mut self, connection_id: u32) -> (r: Option<Port>)
        ensures
            r == old(self)@.get(connection_id),
            final(self)@ == unregister(old(self)@, connection_id),
    {
        self.ports.remove(&connection_id)
    }

    /// The handler for a message posted from `vtl` to `connection_id`.
    pub fn message_target(&self, vtl: Vtl, connection_id: u32) -> (r: HvResult<SharedMessagePort>)
        ensures
            r == message_route(self@, vtl, connection_id),
    {
        match self.ports.get(&connection_id) {
            Some(port) => match &port.port_type {
                PortType::Message(handler) => {
                    if vtl.at_least(port.minimum_vtl) {
                        Ok(Arc::clone(handler))
                    } else {
                        Err(HvError::OperationDenied)
                    }
                },
                PortType::Event(_) => Err(HvError::InvalidConnectionId),
            },
            None => Err(HvError::InvalidConnectionId),
        }
    }

    /// The handler for an event signalled from `vtl` on `connection_id`.
    pub fn event_target(&self, vtl: Vtl, connection_id: u32) -> (r: HvResult<SharedEventPort>)
        ensures
            r == event_route(self@, vtl, connection_id),
    {
        match self.ports.get(&connection_id) {
            Some(port) => match &port.port_type {
                PortType::Event(handler) => {
                    if vtl.at_least(port.minimum_vtl) {
                        Ok(Arc::clone(handler))
                    } else {
                        Err(HvError::OperationDenied)
                    }
                },
                PortType::Message(_) => Err(HvError::InvalidConnectionId),
            },
            None => Err(HvError::InvalidConnectionId),
        }
    }
}

/// Turns the message handler's answer into the hypercall status.
pub fn message_outcome(accepted: bool, policy: FullPortPolicy) -> (r: HvResult<()>)
    ensures
        r == message_status(accepted, policy),
{
    if accepted {
        Ok(())
    } else {
        Err(policy.status())
    }
}

/// Whether `r` is the outcome of a post that was routed to `route`, where
/// the handler, if one was reached, was handed `message` and `secure` and
/// answered `accepted`.
pub open spec fn is_post_outcome(
    route: HvResult<SharedMessagePort>,
    message: &[u8],
    secure: bool,
    policy: FullPortPolicy,
    accepted: bool,
    r: HvResult<()>,
) -> bool {
    &&& r == post_status(route, accepted, policy)
    &&& route matches Ok(handler) ==> is_answer::<dyn MessagePort>(
        &**handler,
        message,
        secure,
        accepted,
    )
}

/// Whether `r` is the outcome of a signal that was routed to `route`, where
/// the handler, if one was reached, was handed `flag_number`.
pub open spec fn is_signal_outcome(
    route: HvResult<SharedEventPort>,
    flag_number: u16,
    r: HvResult<()>,
) -> bool {
    &&& r == signal_status(route)
    &&& route matches Ok(handler) ==> is_signalled::<dyn EventPort>(&**handler, flag_number)
}

/// Hands `message` to the handler that the post was routed to, if it was
/// routed to one, and reports the status.
///
/// The handler is invoked exactly when `route` is `Ok`, with `message` and
/// `secure`; its answer decides between success and the status of
/// `policy`.
pub fn deliver_message(
    route: HvResult<SharedMessagePort>,
    message: &[u8],
    secure: bool,
    policy: FullPortPolicy,
) -> (r: HvResult<()>)
    ensures
        exists|accepted: bool| #[trigger]
            is_post_outcome(route, message, secure, policy, accepted, r),
        route is Err ==> r == post_status(route, false, policy),
{
    match route {
        Ok(handler) => {
            let accepted = handle_message_on::<dyn MessagePort>(&**handler, message, secure);
            let r = message_outcome(accepted, policy);
            assert(is_post_outcome(route, message, secure, policy, accepted, r));
            r
        },
        Err(e) => {
            assert(is_post_outcome(route, message, secure, policy, false, Err::<(), HvError>(e)));
            Err(e)
        },
    }
}

/// Signals `flag_number` on the handler that the event was routed to, if it
/// was routed to one, and reports the status.
pub fn deliver_event(route: HvResult<SharedEventPort>, flag_number: u16) -> (r: HvResult<()>)
    ensures
        is_signal_outcome(route, flag_number, r),
{
    match route {
        Ok(handler) => {
            handle_event_on::<dyn EventPort>(&**handler, flag_number);
            Ok(())
        },
        Err(e) => Err(e),
    }
}

} // verus!
