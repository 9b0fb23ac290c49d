use ibc_client_core::identifier::ClientId;
use ibc_client_core::query::{
    AbciQueryResponse, QueryClientConsensusState, QueryClientFullState, QueryError, QueryHeight,
};

fn client() -> ClientId {
    ClientId::parse("ibconeclient").unwrap()
}

fn response(value: &[u8], proof: Option<&[u8]>, height: u64) -> AbciQueryResponse {
    AbciQueryResponse {
        code: 0,
        log: String::new(),
        value: value.to_vec(),
        proof: proof.map(|p| p.to_vec()),
        height,
    }
}

#[test]
fn zero_height_means_latest() {
    assert_eq!(QueryHeight::from_u64(0), QueryHeight::Latest);
    assert_eq!(QueryHeight::from_u64(9), QueryHeight::Exact(9));
    assert_eq!(QueryHeight::Latest.as_u64(), 0);
    assert_eq!(QueryHeight::Exact(9).as_u64(), 9);
}

#[test]
fn full_state_query_key() {
    let q = QueryClientFullState::new(0, client(), true);
    assert_eq!(q.height, QueryHeight::Latest);
    assert!(q.prove);
    assert_eq!(q.path(), "store/ibc/key");
    assert_eq!(q.data(), "clients/ibconeclient/clientState");
}

#[test]
fn consensus_state_query_key() {
    let q = QueryClientConsensusState::new(12, client(), 22, false);
    assert_eq!(q.height, QueryHeight::Exact(12));
    assert_eq!(q.consensus_height, 22);
    assert_eq!(q.path(), "store/ibc/key");
    assert_eq!(q.data(), "clients/ibconeclient/consensusState/22");
    let q = QueryClientConsensusState::new(0, client(), 0, false);
    assert_eq!(q.data(), "clients/ibconeclient/consensusState/0");
    let q = QueryClientConsensusState::new(0, client(), u64::MAX, false);
    assert_eq!(
        q.data(),
        "clients/ibconeclient/consensusState/18446744073709551615"
    );
}

#[test]
fn full_state_with_proof() {
    let q = QueryClientFullState::new(0, client(), true);
    let r = q.answer(response(b"state", Some(b"proof"), 40)).unwrap();
    assert_eq!(r.client_id, client());
    assert_eq!(r.client_state, b"state".to_vec());
    assert_eq!(r.proof, Some(b"proof".to_vec()));
    assert_eq!(r.height, 40);
}

#[test]
fn full_state_without_proof_drops_it() {
    let q = QueryClientFullState::new(40, client(), false);
    let r = q.answer(response(b"state", Some(b"proof"), 40)).unwrap();
    assert_eq!(r.proof, None);
    let r = q.answer(response(b"state", None, 40)).unwrap();
    assert_eq!(r.client_state, b"state".to_vec());
}

#[test]
fn missing_proof_is_an_error() {
    let q = QueryClientFullState::new(0, client(), true);
    assert!(matches!(
        q.answer(response(b"state", None, 40)),
        Err(QueryError::MissingProof)
    ));
}

#[test]
fn rejected_query_is_an_error() {
    let q = QueryClientFullState::new(0, client(), true);
    let mut raw = response(b"", None, 40);
    raw.code = 7;
    raw.log = "pruned".to_string();
    match q.answer(raw) {
        Err(QueryError::Rejected { code, log }) => {
            assert_eq!(code, 7);
            assert_eq!(log, "pruned");
        }
        other => panic!("unexpected {:?}", other),
    }
}

#[test]
fn empty_value_is_not_found() {
    let q = QueryClientFullState::new(0, client(), false);
    assert!(matches!(
        q.answer(response(b"", None, 40)),
        Err(QueryError::NotFound)
    ));
}

#[test]
fn other_height_is_an_error() {
    let q = QueryClientFullState::new(39, client(), false);
    match q.answer(response(b"state", None, 40)) {
        Err(QueryError::HeightMismatch { requested, returned }) => {
            assert_eq!(requested, 39);
            assert_eq!(returned, 40);
        }
        other => panic!("unexpected {:?}", other),
    }
}

#[test]
fn full_state_query_is_idempotent() {
    let q = QueryClientFullState::new(0, client(), true);
    let a = q.answer(response(b"state", Some(b"proof"), 40)).unwrap();
    let b = q.answer(response(b"state", Some(b"proof"), 40)).unwrap();
    assert_eq!(a.client_state, b.client_state);
    assert_eq!(a.proof, b.proof);
    assert_eq!(a.height, b.height);
    assert_eq!(a.client_id, b.client_id);
}

#[test]
fn consensus_state_answer() {
    let q = QueryClientConsensusState::new(0, client(), 22, true);
    let r = q.answer(response(b"cs", Some(b"pf"), 50)).unwrap();
    assert_eq!(r.consensus_height, 22);
    assert_eq!(r.consensus_state, b"cs".to_vec());
    assert_eq!(r.proof, Some(b"pf".to_vec()));
    assert_eq!(r.height, 50);
    assert!(matches!(
        q.answer(response(b"", Some(b"pf"), 50)),
        Err(QueryError::NotFound)
    ));
}
