//! What holds of every port table, stated over the table's model.
//!
//! Each lemma speaks of the spec functions in which the table's operations
//! are specified, so it holds of any sequence of those operations that no
//! other change to the table interrupts.

use super::table::event_route;
use super::table::message_route;
use super::table::post_status;
use super::table::register;
use super::table::register_result;
use super::table::signal_status;
use super::table::unregister;
use super::table::Port;
use super::table::PortType;
use super::table::SharedEventPort;
use super::table::SharedMessagePort;
use super::Error;
use super::FullPortPolicy;
use super::HvError;
use super::Vtl;
use vstd::prelude::*;

verus! {

/// Uniqueness: once `connection_id` has been offered for registration, a
/// further registration under it is refused as in use and changes nothing.
/// If the first registration succeeded, its port is the one that stays
/// registered, and dispatch reaches it as before.
pub proof fn lemma_second_registration_refused(
    ports: Map<u32, Port>,
    connection_id: u32,
    first: Port,
    second: Port,
    vtl: Vtl,
)
    ensures
        ({
            let once = register(ports, connection_id, first);
            let twice = register(once, connection_id, second);
            &&& register_result(once, connection_id) == Err::<(), Error>(
                Error::ConnectionIdInUse(connection_id),
            )
            &&& twice == once
            &&& register_result(ports, connection_id) is Ok ==> twice[connection_id] == first
            &&& message_route(twice, vtl, connection_id) == message_route(once, vtl, connection_id)
            &&& event_route(twice, vtl, connection_id) == event_route(once, vtl, connection_id)
        }),
{
}

/// A successful registration makes the port reachable under its ID and
/// leaves every other ID as it was.
pub proof fn lemma_registration_adds_one_port(
    ports: Map<u32, Port>,
    connection_id: u32,
    port: Port,
    other: u32,
)
    requires
        register_result(ports, connection_id) is Ok,
    ensures
        register(ports, connection_id, port).contains_key(connection_id),
        register(ports, connection_id, port)[connection_id] == port,
        other != connection_id ==> register(ports, connection_id, port).contains_key(other)
            == ports.contains_key(other),
        other != connection_id && ports.contains_key(other) ==> register(
            ports,
            connection_id,
            port,
        )[other] == ports[other],
{
}

/// A refused registration has no effect on the table.
pub proof fn lemma_refused_registration_changes_nothing(
    ports: Map<u32, Port>,
    connection_id: u32,
    port: Port,
)
    requires
        register_result(ports, connection_id) is Err,
    ensures
        register(ports, connection_id, port) == ports,
{
}

/// VTL gate for message ports: a post is denied exactly when the caller's
/// VTL is below the port's minimum; otherwise it reaches the registered
/// handler, succeeds if the handler accepts, and reports the status of the
/// policy if the handler has no room.
pub proof fn lemma_message_vtl_gate(
    ports: Map<u32, Port>,
    connection_id: u32,
    handler: SharedMessagePort,
    minimum_vtl: Vtl,
    vtl: Vtl,
    policy: FullPortPolicy,
)
    requires
        ports.contains_key(connection_id),
        ports[connection_id] == (Port { port_type: PortType::Message(handler), minimum_vtl }),
    ensures
        vtl.level() < minimum_vtl.level() ==> message_route(ports, vtl, connection_id) == Err::<
            SharedMessagePort,
            HvError,
        >(HvError::OperationDenied),
        vtl.level() >= minimum_vtl.level() ==> message_route(ports, vtl, connection_id) == Ok::<
            SharedMessagePort,
            HvError,
        >(handler),
        vtl.level() >= minimum_vtl.level() ==> post_status(
            message_route(ports, vtl, connection_id),
            true,
            policy,
        ) == Ok::<(), HvError>(()),
        vtl.level() >= minimum_vtl.level() ==> post_status(
            message_route(ports, vtl, connection_id),
            false,
            policy,
        ) == Err::<(), HvError>(policy.status()),
{
}

/// VTL gate for event ports: a signal is denied exactly when the caller's
/// VTL is below the port's minimum; otherwise it reaches the registered
/// handler and succeeds.
pub proof fn lemma_event_vtl_gate(
    ports: Map<u32, Port>,
    connection_id: u32,
    handler: SharedEventPort,
    minimum_vtl: Vtl,
    vtl: Vtl,
)
    requires
        ports.contains_key(connection_id),
        ports[connection_id] == (Port { port_type: PortType::Event(handler), minimum_vtl }),
    ensures
        vtl.level() < minimum_vtl.level() ==> event_route(ports, vtl, connection_id) == Err::<
            SharedEventPort,
            HvError,
        >(HvError::OperationDenied),
        vtl.level() >= minimum_vtl.level() ==> event_route(ports, vtl, connection_id) == Ok::<
            SharedEventPort,
            HvError,
        >(handler),
        vtl.level() >= minimum_vtl.level() ==> signal_status(
            event_route(ports, vtl, connection_id),
        ) == Ok::<(), HvError>(()),
{
}

/// A port gated at VTL1 refuses VTL0 and admits VTL1 and VTL2.
pub proof fn lemma_vtl1_gate(
    ports: Map<u32, Port>,
    connection_id: u32,
    vtl: Vtl,
    policy: FullPortPolicy,
)
    requires
        ports.contains_key(connection_id),
        ports[connection_id].minimum_vtl == Vtl::Vtl1,
    ensures
        ports[connection_id].port_type is Message ==> (message_route(ports, vtl, connection_id)
            == Err::<SharedMessagePort, HvError>(HvError::OperationDenied) <==> vtl == Vtl::Vtl0),
        ports[connection_id].port_type is Message && vtl != Vtl::Vtl0 ==> post_status(
            message_route(ports, vtl, connection_id),
            true,
            policy,
        ) == Ok::<(), HvError>(()),
        ports[connection_id].port_type is Event ==> (event_route(ports, vtl, connection_id)
            == Err::<SharedEventPort, HvError>(HvError::OperationDenied) <==> vtl == Vtl::Vtl0),
        ports[connection_id].port_type is Event && vtl != Vtl::Vtl0 ==> signal_status(
            event_route(ports, vtl, connection_id),
        ) == Ok::<(), HvError>(()),
{
}

/// Type isolation: a signal on an ID that names a message port, and a post
/// to an ID that names an event port, are invalid connections whatever the
/// caller's VTL and whatever a handler would answer.
pub proof fn lemma_type_isolation(
    ports: Map<u32, Port>,
    connection_id: u32,
    vtl: Vtl,
    accepted: bool,
    policy: FullPortPolicy,
)
    requires
        ports.contains_key(connection_id),
    ensures
        ports[connection_id].port_type is Message ==> signal_status(
            event_route(ports, vtl, connection_id),
        ) == Err::<(), HvError>(HvError::InvalidConnectionId),
        ports[connection_id].port_type is Event ==> post_status(
            message_route(ports, vtl, connection_id),
            accepted,
            policy,
        ) == Err::<(), HvError>(HvError::InvalidConnectionId),
{
}

/// Lookup miss: dispatch to an ID that names no port is an invalid
/// connection.
pub proof fn lemma_lookup_miss(
    ports: Map<u32, Port>,
    connection_id: u32,
    vtl: Vtl,
    accepted: bool,
    policy: FullPortPolicy,
)
    requires
        !ports.contains_key(connection_id),
    ensures
        post_status(message_route(ports, vtl, connection_id), accepted, policy) == Err::<
            (),
            HvError,
        >(HvError::InvalidConnectionId),
        signal_status(event_route(ports, vtl, connection_id)) == Err::<(), HvError>(
            HvError::InvalidConnectionId,
        ),
{
}

/// Unregister correctness: once the registration of `connection_id` is
/// released, dispatch to it is an invalid connection, every other ID is
/// untouched, and the ID can be registered again.
pub proof fn lemma_released_id_is_free(
    ports: Map<u32, Port>,
    connection_id: u32,
    vtl: Vtl,
    accepted: bool,
    policy: FullPortPolicy,
    port: Port,
    other: u32,
)
    ensures
        ({
            let released = unregister(ports, connection_id);
            &&& post_status(message_route(released, vtl, connection_id), accepted, policy)
                == Err::<(), HvError>(HvError::InvalidConnectionId)
            &&& signal_status(event_route(released, vtl, connection_id)) == Err::<(), HvError>(
                HvError::InvalidConnectionId,
            )
            &&& register_result(released, connection_id) == Ok::<(), Error>(())
            &&& register(released, connection_id, port)[connection_id] == port
            &&& other != connection_id ==> message_route(released, vtl, other) == message_route(
                ports,
                vtl,
                other,
            ) && event_route(released, vtl, other) == event_route(ports, vtl, other)
        }),
{
}

/// The table alone decides whether a dispatch is an invalid connection or
/// is denied; a handler's answer matters only where the table routes to it.
pub proof fn lemma_status_decided_by_route(
    ports: Map<u32, Port>,
    connection_id: u32,
    vtl: Vtl,
    accepted: bool,
    policy: FullPortPolicy,
)
    ensures
        message_route(ports, vtl, connection_id) matches Err(e) ==> post_status(
            message_route(ports, vtl, connection_id),
            accepted,
            policy,
        ) == Err::<(), HvError>(e) && (e == HvError::InvalidConnectionId || e
            == HvError::OperationDenied),
        event_route(ports, vtl, connection_id) matches Err(e) ==> e == HvError::InvalidConnectionId
            || e == HvError::OperationDenied,
{
}

} // verus!
