//! Correlation of client events into builder objects.
use vstd::prelude::*;

use crate::events::{ClientType, Height, IBCEvent};
use crate::identifier::ClientId;

verus! {

/// Why no builder object, or no counterparty data, is available.
#[derive(Clone, Copy, Debug, PartialEq, Eq, Structural)]
pub enum CorrelationError {
    /// The event is not a client creation or update.
    UnsupportedEvent,
    /// The counterparty side of the client is not known from the event.
    CounterpartyUnknown,
}

/// The client fields of an event, for the event kinds that carry them:
/// emission height, client identifier, client type and client height.
pub open spec fn client_event_fields(ev: &IBCEvent) -> Option<(Height, ClientId, ClientType, Height)> {
    match ev {
        IBCEvent::CreateClient(cl) => Some((cl.height, cl.client_id, cl.client_type, cl.client_height)),
        IBCEvent::UpdateClient(cl) => Some((cl.height, cl.client_id, cl.client_type, cl.client_height)),
        _ => None,
    }
}

/// What a relayer needs to know about a client after one of its events: the
/// client's identity and the counterparty height its state now attests to.
#[derive(Debug, PartialEq, Eq, Hash)]
pub struct ClientBuilderObject {
    height: Height,
    client_id: ClientId,
    client_type: ClientType,
    client_height: Height,
}

impl Clone for ClientBuilderObject {
    fn clone(&self) -> (r: ClientBuilderObject)
        ensures
            r == *self,
    {
        ClientBuilderObject {
            height: self.height,
            client_id: self.client_id.clone(),
            client_type: self.client_type,
            client_height: self.client_height,
        }
    }
}

impl ClientBuilderObject {
    /// The four fields: emission height, client identifier, client type and
    /// client height.
    pub closed spec fn fields(&self) -> (Height, ClientId, ClientType, Height) {
        (self.height, self.client_id, self.client_type, self.client_height)
    }

    /// Builds the object from a client creation or update event; every other
    /// event kind is rejected.
    pub fn new(ev: &IBCEvent) -> (r: Result<ClientBuilderObject, CorrelationError>)
        ensures
            match client_event_fields(ev) {
                Some(f) => r matches Ok(o) && o.fields() == f,
                None => r == Err::<ClientBuilderObject, CorrelationError>(
                    CorrelationError::UnsupportedEvent,
                ),
            },
    {
        match ev {
            IBCEvent::CreateClient(cl) => Ok(
                ClientBuilderObject {
                    height: cl.height,
                    client_id: cl.client_id.clone(),
                    client_type: cl.client_type,
                    client_height: cl.client_height,
                },
            ),
            IBCEvent::UpdateClient(cl) => Ok(
                ClientBuilderObject {
                    height: cl.height,
                    client_id: cl.client_id.clone(),
                    client_type: cl.client_type,
                    client_height: cl.client_height,
                },
            ),
            _ => Err(CorrelationError::UnsupportedEvent),
        }
    }

    /// The builder object for the counterparty side of the event. The event
    /// does not say which client that is, so there is none.
    pub fn flipped(&self) -> (r: Option<ClientBuilderObject>)
        ensures
            r is None,
    {
        None
    }

    /// The identifier of the client.
    pub fn client_id(&self) -> (r: ClientId)
        ensures
            r == self.fields().1,
    {
        self.client_id.clone()
    }

    /// The counterparty height whose state the client attests to.
    pub fn client_height(&self) -> (r: Height)
        ensures
            r == self.fields().3,
    {
        self.client_height
    }

    /// The height at which the event was emitted.
    pub fn height(&self) -> (r: Height)
        ensures
            r == self.fields().0,
    {
        self.height
    }

    /// The verification algorithm of the client.
    pub fn client_type(&self) -> (r: ClientType)
        ensures
            r == self.fields().2,
    {
        self.client_type
    }

    /// The identifier of the client on the counterparty chain. The event does
    /// not carry it, so this always fails.
    pub fn counterparty_client_id(&self) -> (r: Result<ClientId, CorrelationError>)
        ensures
            r == Err::<ClientId, CorrelationError>(CorrelationError::CounterpartyUnknown),
    {
        Err(CorrelationError::CounterpartyUnknown)
    }
}

} // verus!
