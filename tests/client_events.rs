use ibc_client_core::client_builder::{ClientBuilderObject, CorrelationError};
use ibc_client_core::events::{
    ClientMisbehavior, ClientType, CreateClient, IBCEvent, NewBlock, OpenInitConnection,
    UpdateClient,
};
use ibc_client_core::identifier::{ClientId, ConnectionId};

fn client(s: &str) -> ClientId {
    ClientId::parse(s).unwrap()
}

#[test]
fn create_client_event_builds_object() {
    let ev = IBCEvent::CreateClient(CreateClient {
        height: 10,
        client_id: client("ibconeclient"),
        client_type: ClientType::Tendermint,
        client_height: 7,
    });
    let obj = ClientBuilderObject::new(&ev).unwrap();
    assert_eq!(obj.client_id(), client("ibconeclient"));
    assert_eq!(obj.client_height(), 7);
    assert_eq!(obj.height(), 10);
    assert_eq!(obj.client_type(), ClientType::Tendermint);
}

#[test]
fn update_client_event_builds_object() {
    let ev = IBCEvent::UpdateClient(UpdateClient {
        height: 25,
        client_id: client("ibctwoclient"),
        client_type: ClientType::Tendermint,
        client_height: 19,
    });
    let obj = ClientBuilderObject::new(&ev).unwrap();
    assert_eq!(obj.client_id().as_str(), "ibctwoclient");
    assert_eq!(obj.client_height(), 19);
    assert_eq!(obj.height(), 25);
    assert_eq!(obj.clone(), obj);
}

#[test]
fn other_events_are_not_correlated() {
    let events = vec![
        IBCEvent::NewBlock(NewBlock { height: 3 }),
        IBCEvent::ClientMisbehavior(ClientMisbehavior {
            height: 4,
            client_id: client("ibconeclient"),
            client_type: ClientType::Tendermint,
        }),
        IBCEvent::OpenInitConnection(OpenInitConnection {
            height: 5,
            connection_id: ConnectionId::parse("connection0").unwrap(),
            client_id: client("ibconeclient"),
            counterparty_client_id: client("ibctwoclient"),
        }),
        IBCEvent::ChainError("boom".to_string()),
    ];
    for ev in &events {
        assert_eq!(
            ClientBuilderObject::new(ev).unwrap_err(),
            CorrelationError::UnsupportedEvent
        );
    }
}

#[test]
fn counterparty_side_is_unknown() {
    let ev = IBCEvent::CreateClient(CreateClient {
        height: 1,
        client_id: client("ibconeclient"),
        client_type: ClientType::Tendermint,
        client_height: 1,
    });
    let obj = ClientBuilderObject::new(&ev).unwrap();
    assert!(obj.flipped().is_none());
    assert_eq!(
        obj.counterparty_client_id().unwrap_err(),
        CorrelationError::CounterpartyUnknown
    );
}
