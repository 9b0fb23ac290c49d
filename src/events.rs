//! Events emitted by a chain's state transitions, as the relayer observes them.
use vstd::prelude::*;

use crate::identifier::{ChannelId, ClientId, ConnectionId, PortId};

verus! {

/// A block height of a chain.
pub type Height = u64;

/// The light-client verification algorithm that governs a client.
#[derive(Clone, Copy, Debug, PartialEq, Eq, Hash, PartialOrd, Ord, Structural)]
pub enum ClientType {
    Tendermint,
}

/// A new block was committed.
#[derive(Debug)]
pub struct NewBlock {
    pub height: Height,
}

/// A light client was created.
#[derive(Debug)]
pub struct CreateClient {
    /// Height at which the event was emitted.
    pub height: Height,
    pub client_id: ClientId,
    pub client_type: ClientType,
    /// Height of the counterparty state the client attests to.
    pub client_height: Height,
}

/// A light client was updated to a newer counterparty state.
#[derive(Debug)]
pub struct UpdateClient {
    /// Height at which the event was emitted.
    pub height: Height,
    pub client_id: ClientId,
    pub client_type: ClientType,
    /// Height of the counterparty state the client now attests to.
    pub client_height: Height,
}

/// Misbehaviour of a counterparty was submitted to a light client.
#[derive(Debug)]
pub struct ClientMisbehavior {
    pub height: Height,
    pub client_id: ClientId,
    pub client_type: ClientType,
}

/// The opening handshake of a connection was started.
#[derive(Debug)]
pub struct OpenInitConnection {
    pub height: Height,
    pub connection_id: ConnectionId,
    pub client_id: ClientId,
    pub counterparty_client_id: ClientId,
}

/// The opening handshake of a channel was started.
#[derive(Debug)]
pub struct OpenInitChannel {
    pub height: Height,
    pub port_id: PortId,
    pub channel_id: ChannelId,
    pub connection_id: ConnectionId,
}

/// An event observed on a chain.
#[derive(Debug)]
pub enum IBCEvent {
    NewBlock(NewBlock),
    CreateClient(CreateClient),
    UpdateClient(UpdateClient),
    ClientMisbehavior(ClientMisbehavior),
    OpenInitConnection(OpenInitConnection),
    OpenInitChannel(OpenInitChannel),
    ChainError(String),
}

} // verus!
