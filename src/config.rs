//! Chain identifiers and the chains a relayer is configured for.
use vstd::prelude::*;

verus! {

/// Characters allowed in a chain identifier: ASCII letters and digits and `-_.`.
pub open spec fn is_chain_id_char(c: char) -> bool {
    ('a' <= c && c <= 'z') || ('A' <= c && c <= 'Z') || ('0' <= c && c <= '9') || c == '-'
        || c == '_' || c == '.'
}

/// A chain identifier has 1 to 50 characters, each an allowed one.
pub open spec fn is_valid_chain_id(s: Seq<char>) -> bool {
    0 < s.len() <= 50 && forall|i: int| 0 <= i < s.len() ==> #[trigger] is_chain_id_char(s[i])
}

/// Relies on `tendermint::chain::Id::from_str`: it accepts 1 to 50 bytes, each
/// an ASCII letter, digit, `-`, `_` or `.`, and keeps the text as it is.
#[verifier::external_body]
fn parse_tendermint_chain_id(s: &str) -> (r: Option<String>)
    ensures
        r is Some <==> is_valid_chain_id(s@),
        r matches Some(t) ==> t@ == s@,
{
    s.parse::<tendermint::chain::Id>().ok().map(String::from)
}

/// The identifier of a chain.
#[derive(Debug, Eq, Hash)]
pub struct ChainId {
    id: String,
}

impl View for ChainId {
    type V = Seq<char>;

    closed spec fn view(&self) -> Seq<char> {
        self.id@
    }
}

impl ChainId {
    #[verifier::type_invariant]
    spec fn valid(&self) -> bool {
        is_valid_chain_id(self.id@)
    }

    /// Parses `s` as a chain identifier; `None` when it is not one.
    pub fn parse(s: &str) -> (r: Option<ChainId>)
        ensures
            r is Some <==> is_valid_chain_id(s@),
            r matches Some(id) ==> id@ == s@,
    {
        match parse_tendermint_chain_id(s) {
            Some(t) => Some(ChainId { id: t }),
            None => None,
        }
    }

    /// This identifier as a borrowed `&str`.
    pub fn as_str(&self) -> (r: &str)
        ensures
            r@ == self@,
            is_valid_chain_id(r@),
    {
        proof {
            use_type_invariant(self);
        }
        self.id.as_str()
    }
}

impl Clone for ChainId {
    fn clone(&self) -> (r: ChainId)
        ensures
            r == *self,
    {
        proof {
            use_type_invariant(self);
        }
        ChainId { id: self.id.clone() }
    }
}

impl PartialEq for ChainId {
    fn eq(&self, other: &ChainId) -> (r: bool) {
        self.id == other.id
    }
}

impl vstd::std_specs::cmp::PartialEqSpecImpl for ChainId {
    open spec fn obeys_eq_spec() -> bool {
        true
    }

    open spec fn eq_spec(&self, other: &ChainId) -> bool {
        self@ == other@
    }
}

/// How to reach one chain and act on it.
#[derive(Debug)]
pub struct ChainConfig {
    pub id: ChainId,
    pub rpc_addr: String,
    pub account_prefix: String,
    pub key_name: String,
    pub gas: u64,
}

impl Clone for ChainConfig {
    fn clone(&self) -> (r: ChainConfig)
        ensures
            r == *self,
    {
        ChainConfig {
            id: self.id.clone(),
            rpc_addr: self.rpc_addr.clone(),
            account_prefix: self.account_prefix.clone(),
            key_name: self.key_name.clone(),
            gas: self.gas,
        }
    }
}

/// The chains a relayer knows of.
#[derive(Debug)]
pub struct Config {
    pub chains: Vec<ChainConfig>,
}

/// Some chain of `chains` has the identifier `id`.
pub open spec fn is_configured(chains: Seq<ChainConfig>, id: Seq<char>) -> bool {
    exists|i: int| 0 <= i < chains.len() && (#[trigger] chains[i]).id@ == id
}

/// `c` is the first chain of `chains` with the identifier `id`.
pub open spec fn is_first_chain(chains: Seq<ChainConfig>, id: Seq<char>, c: ChainConfig) -> bool {
    exists|i: int|
        0 <= i < chains.len() && #[trigger] chains[i] == c && c.id@ == id && forall|j: int|
            0 <= j < i ==> (#[trigger] chains[j]).id@ != id
}

impl Config {
    /// The first chain with identifier `id`, if any.
    pub fn find_chain(&self, id: &ChainId) -> (r: Option<&ChainConfig>)
        ensures
            r is Some <==> is_configured(self.chains@, id@),
            r matches Some(c) ==> is_first_chain(self.chains@, id@, *c),
    {
        let mut i: usize = 0;
        while i < self.chains.len()
            invariant
                i <= self.chains@.len(),
                forall|j: int| 0 <= j < i ==> (#[trigger] self.chains@[j]).id@ != id@,
            decreases self.chains@.len() - i,
        {
            if self.chains[i].id == *id {
                assert(is_first_chain(self.chains@, id@, self.chains@[i as int]));
                return Some(&self.chains[i]);
            }
            i = i + 1;
        }
        None
    }
}

} // verus!
