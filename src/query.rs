//! Client state and consensus state queries: the store keys they read, and the
//! checks that turn a chain's raw answer into a result.
use vstd::prelude::*;
use vstd::string::StringExecFns;

use crate::events::Height;
use crate::identifier::ClientId;

verus! {

/// The height a query is evaluated at: the latest one the chain has, or an
/// exact one.
#[derive(Clone, Copy, Debug, PartialEq, Eq, Structural)]
pub enum QueryHeight {
    Latest,
    Exact(Height),
}

impl QueryHeight {
    /// Reads a height given as a number, where 0 stands for the latest height.
    pub fn from_u64(h: u64) -> (r: QueryHeight)
        ensures
            r == (if h == 0 {
                QueryHeight::Latest
            } else {
                QueryHeight::Exact(h)
            }),
    {
        if h == 0 {
            QueryHeight::Latest
        } else {
            QueryHeight::Exact(h)
        }
    }

    /// The height as a number, 0 standing for the latest height.
    pub fn as_u64(self) -> (r: u64)
        ensures
            r == match self {
                QueryHeight::Latest => 0,
                QueryHeight::Exact(h) => h,
            },
    {
        match self {
            QueryHeight::Latest => 0,
            QueryHeight::Exact(h) => h,
        }
    }
}

/// The character of a decimal digit.
pub open spec fn digit_char(d: nat) -> char {
    seq!['0', '1', '2', '3', '4', '5', '6', '7', '8', '9'][d as int]
}

/// The decimal digits of `n`, without leading zeros.
pub open spec fn decimal(n: nat) -> Seq<char>
    decreases n,
{
    if n < 10 {
        seq![digit_char(n)]
    } else {
        decimal(n / 10).push(digit_char(n % 10))
    }
}

/// Relies on `u64::to_string` (through `Display`): the decimal digits of `n`.
#[verifier::external_body]
fn decimal_text(n: u64) -> (r: String)
    ensures
        r@ == decimal(n as nat),
{
    n.to_string()
}

/// The store path under which the chain keeps the state of a client.
pub open spec fn client_state_path(client_id: Seq<char>) -> Seq<char> {
    "clients/"@ + client_id + "/clientState"@
}

/// The store path under which the chain keeps the consensus state that a
/// client recorded for a counterparty height.
pub open spec fn consensus_state_path(client_id: Seq<char>, consensus_height: nat) -> Seq<char> {
    "clients/"@ + client_id + "/consensusState/"@ + decimal(consensus_height)
}

/// The chain's store path that both queries read.
pub open spec fn store_path() -> Seq<char> {
    "store/ibc/key"@
}

/// What a chain answered to a store query: the result code and log, the
/// stored value, the proof (if any) and the height the answer holds at.
#[derive(Debug)]
pub struct AbciQueryResponse {
    pub code: u32,
    pub log: String,
    pub value: Vec<u8>,
    pub proof: Option<Vec<u8>>,
    pub height: Height,
}

/// Why a query failed.
#[derive(Debug)]
pub enum QueryError {
    /// The chain refused the query (unknown identifier, pruned height).
    Rejected { code: u32, log: String },
    /// Nothing is stored under the key.
    NotFound,
    /// The answer holds at another height than the one asked for.
    HeightMismatch { requested: Height, returned: Height },
    /// A proof was asked for and the answer has none.
    MissingProof,
}

/// Why a chain's answer cannot be used, checked in this order: the chain's
/// result code, an empty value, the height, a missing proof; `None` when it
/// can be used.
pub open spec fn answer_failure(
    height: QueryHeight,
    prove: bool,
    response: AbciQueryResponse,
) -> Option<QueryError> {
    if response.code != 0 {
        Some(QueryError::Rejected { code: response.code, log: response.log })
    } else if response.value.len() == 0 {
        Some(QueryError::NotFound)
    } else if height matches QueryHeight::Exact(h) && response.height != h {
        Some(QueryError::HeightMismatch { requested: height->Exact_0, returned: response.height })
    } else if prove && response.proof is None {
        Some(QueryError::MissingProof)
    } else {
        None
    }
}

/// The proof that a usable answer hands on: the chain's proof when one was
/// asked for, none otherwise.
pub open spec fn kept_proof(prove: bool, response: AbciQueryResponse) -> Option<Vec<u8>> {
    if prove {
        response.proof
    } else {
        None
    }
}

fn check_answer(height: QueryHeight, prove: bool, response: AbciQueryResponse) -> (r: Result<
    (Vec<u8>, Option<Vec<u8>>, Height),
    QueryError,
>)
    ensures
        match answer_failure(height, prove, response) {
            Some(e) => r == Err::<(Vec<u8>, Option<Vec<u8>>, Height), QueryError>(e),
            None => r == Ok::<(Vec<u8>, Option<Vec<u8>>, Height), QueryError>(
                (response.value, kept_proof(prove, response), response.height),
            ),
        },
{
    if response.code != 0 {
        return Err(QueryError::Rejected { code: response.code, log: response.log });
    }
    if response.value.len() == 0 {
        return Err(QueryError::NotFound);
    }
    if let QueryHeight::Exact(h) = height {
        if response.height != h {
            return Err(QueryError::HeightMismatch { requested: h, returned: response.height });
        }
    }
    if prove && response.proof.is_none() {
        return Err(QueryError::MissingProof);
    }
    let proof = if prove {
        response.proof
    } else {
        None
    };
    Ok((response.value, proof, response.height))
}

/// A query for the full state of a client.
#[derive(Debug)]
pub struct QueryClientFullState {
    pub height: QueryHeight,
    pub client_id: ClientId,
    pub prove: bool,
}

/// The state of a client, with its proof when one was asked for.
#[derive(Debug)]
pub struct ClientFullStateResponse {
    pub client_id: ClientId,
    pub client_state: Vec<u8>,
    pub proof: Option<Vec<u8>>,
    pub height: Height,
}

/// `r` is what answering `query` with the chain's `response` gives.
pub open spec fn full_state_answer(
    query: QueryClientFullState,
    response: AbciQueryResponse,
    r: Result<ClientFullStateResponse, QueryError>,
) -> bool {
    match answer_failure(query.height, query.prove, response) {
        Some(e) => r == Err::<ClientFullStateResponse, QueryError>(e),
        None => r == Ok::<ClientFullStateResponse, QueryError>(
            ClientFullStateResponse {
                client_id: query.client_id,
                client_state: response.value,
                proof: kept_proof(query.prove, response),
                height: response.height,
            },
        ),
    }
}

impl QueryClientFullState {
    /// A query at `chain_height` (0: the latest height) for the state of
    /// `client_id`, with a proof when `prove` holds.
    pub fn new(chain_height: u64, client_id: ClientId, prove: bool) -> (r: QueryClientFullState)
        ensures
            r.height == (if chain_height == 0 {
                QueryHeight::Latest
            } else {
                QueryHeight::Exact(chain_height)
            }),
            r.client_id == client_id,
            r.prove == prove,
    {
        QueryClientFullState { height: QueryHeight::from_u64(chain_height), client_id, prove }
    }

    /// The store path the query reads.
    pub fn path(&self) -> (r: String)
        ensures
            r@ == store_path(),
    {
        String::from_str("store/ibc/key")
    }

    /// The key of the client's state in the store.
    pub fn data(&self) -> (r: String)
        ensures
            r@ == client_state_path(self.client_id@),
    {
        let mut key = String::from_str("clients/");
        key.append(self.client_id.as_str());
        key.append("/clientState");
        key
    }

    /// Turns the chain's answer into the client's state, or the reason it
    /// cannot be used.
    pub fn answer(&self, response: AbciQueryResponse) -> (r: Result<
        ClientFullStateResponse,
        QueryError,
    >)
        ensures
            full_state_answer(*self, response, r),
    {
        match check_answer(self.height, self.prove, response) {
            Ok((client_state, proof, height)) => Ok(
                ClientFullStateResponse {
                    client_id: self.client_id.clone(),
                    client_state,
                    proof,
                    height,
                },
            ),
            Err(e) => Err(e),
        }
    }
}

/// Idempotence: the same full-state query, answered by an unchanged chain (the
/// same raw answer), gives the same result, state and proof included.
pub proof fn lemma_full_state_query_idempotent(
    query: QueryClientFullState,
    response: AbciQueryResponse,
    r1: Result<ClientFullStateResponse, QueryError>,
    r2: Result<ClientFullStateResponse, QueryError>,
)
    requires
        full_state_answer(query, response, r1),
        full_state_answer(query, response, r2),
    ensures
        r1 == r2,
{
}

/// A query for the consensus state that a client recorded for a counterparty
/// height.
#[derive(Debug)]
pub struct QueryClientConsensusState {
    pub height: QueryHeight,
    pub client_id: ClientId,
    pub consensus_height: Height,
    pub prove: bool,
}

/// A client's consensus state for a counterparty height, with its proof when
/// one was asked for.
#[derive(Debug)]
pub struct ConsensusStateResponse {
    pub client_id: ClientId,
    pub consensus_height: Height,
    pub consensus_state: Vec<u8>,
    pub proof: Option<Vec<u8>>,
    pub height: Height,
}

/// `r` is what answering `query` with the chain's `response` gives.
pub open spec fn consensus_state_answer(
    query: QueryClientConsensusState,
    response: AbciQueryResponse,
    r: Result<ConsensusStateResponse, QueryError>,
) -> bool {
    match answer_failure(query.height, query.prove, response) {
        Some(e) => r == Err::<ConsensusStateResponse, QueryError>(e),
        None => r == Ok::<ConsensusStateResponse, QueryError>(
            ConsensusStateResponse {
                client_id: query.client_id,
                consensus_height: query.consensus_height,
                consensus_state: response.value,
                proof: kept_proof(query.prove, response),
                height: response.height,
            },
        ),
    }
}

impl QueryClientConsensusState {
    /// A query at `chain_height` (0: the latest height) for the consensus
    /// state that `client_id` recorded for `consensus_height`, with a proof
    /// when `prove` holds.
    pub fn new(chain_height: u64, client_id: ClientId, consensus_height: Height, prove: bool) -> (r:
        QueryClientConsensusState)
        ensures
            r.height == (if chain_height == 0 {
                QueryHeight::Latest
            } else {
                QueryHeight::Exact(chain_height)
            }),
            r.client_id == client_id,
            r.consensus_height == consensus_height,
            r.prove == prove,
    {
        QueryClientConsensusState {
            height: QueryHeight::from_u64(chain_height),
            client_id,
            consensus_height,
            prove,
        }
    }

    /// The store path the query reads.
    pub fn path(&self) -> (r: String)
        ensures
            r@ == store_path(),
    {
        String::from_str("store/ibc/key")
    }

    /// The key of the consensus state in the store.
    pub fn data(&self) -> (r: String)
        ensures
            r@ == consensus_state_path(self.client_id@, self.consensus_height as nat),
    {
        let mut key = String::from_str("clients/");
        key.append(self.client_id.as_str());
        key.append("/consensusState/");
        let digits = decimal_text(self.consensus_height);
        key.append(digits.as_str());
        key
    }

    /// Turns the chain's answer into the consensus state, or the reason it
    /// cannot be used.
    pub fn answer(&self, response: AbciQueryResponse) -> (r: Result<
        ConsensusStateResponse,
        QueryError,
    >)
        ensures
            consensus_state_answer(*self, response, r),
    {
        match check_answer(self.height, self.prove, response) {
            Ok((consensus_state, proof, height)) => Ok(
                ConsensusStateResponse {
                    client_id: self.client_id.clone(),
                    consensus_height: self.consensus_height,
                    consensus_state,
                    proof,
                    height,
                },
            ),
            Err(e) => Err(e),
        }
    }
}

} // verus!
