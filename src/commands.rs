//! The checks behind the `query client state` and `query client consensus`
//! commands: which chain to ask, which client, at which height, with or
//! without a proof. Nothing here talks to a chain.
use vstd::prelude::*;

use crate::config::{is_configured, is_first_chain, ChainConfig, ChainId, Config};
use crate::identifier::{
    is_valid_identifier, parse_outcome, ClientId, Namespace, ValidationError, ValidationKind,
};

verus! {

/// Why the options of a query command are refused.
#[derive(Debug)]
pub enum OptionsError {
    /// No chain was named.
    MissingChain,
    /// The named chain is not in the configuration.
    ChainNotConfigured,
    /// No client was named.
    MissingClientId,
    /// The client identifier does not parse.
    InvalidClientId(ValidationError),
    /// No consensus height was given.
    MissingConsensusHeight,
}

impl OptionsError {
    /// A message for the user.
    pub fn message(&self) -> (r: &'static str)
        ensures
            match self {
                OptionsError::MissingChain => r@ == "missing chain parameter"@,
                OptionsError::ChainNotConfigured => r@ == "missing chain in configuration"@,
                OptionsError::MissingClientId => r@ == "missing client identifier"@,
                OptionsError::InvalidClientId(_) => r@ == "invalid client identifier"@,
                OptionsError::MissingConsensusHeight => r@ == "missing client consensus height"@,
            },
    {
        match self {
            OptionsError::MissingChain => "missing chain parameter",
            OptionsError::ChainNotConfigured => "missing chain in configuration",
            OptionsError::MissingClientId => "missing client identifier",
            OptionsError::InvalidClientId(_) => "invalid client identifier",
            OptionsError::MissingConsensusHeight => "missing client consensus height",
        }
    }
}

/// The chain and client options are acceptable: a configured chain and a
/// valid client identifier are named.
pub open spec fn common_options_pass(
    chain_id: Option<ChainId>,
    client_id: Option<String>,
    chains: Seq<ChainConfig>,
) -> bool {
    &&& chain_id matches Some(c) && is_configured(chains, c@)
    &&& client_id matches Some(s) && is_valid_identifier(s@, Namespace::Client)
}

/// `e` is the error the chain and client options give, checked in this
/// order: chain named, chain configured, client named, client valid.
pub open spec fn common_options_error(
    chain_id: Option<ChainId>,
    client_id: Option<String>,
    chains: Seq<ChainConfig>,
    e: OptionsError,
) -> bool {
    match e {
        OptionsError::MissingChain => chain_id is None,
        OptionsError::ChainNotConfigured => chain_id matches Some(c) && !is_configured(chains, c@),
        OptionsError::MissingClientId => chain_id matches Some(c) && is_configured(chains, c@)
            && client_id is None,
        OptionsError::InvalidClientId(v) => {
            &&& chain_id matches Some(c) && is_configured(chains, c@)
            &&& client_id matches Some(s) && parse_outcome(s@, Namespace::Client) == Err::<
                Seq<char>,
                ValidationKind,
            >(v.kind) && v.namespace == Namespace::Client && v.input@ == s@
        },
        OptionsError::MissingConsensusHeight => false,
    }
}

/// `(c, id)` is what acceptable chain and client options select: the first
/// configured chain of that name, and the client identifier as given.
pub open spec fn common_options_selected(
    chain_id: Option<ChainId>,
    client_id: Option<String>,
    chains: Seq<ChainConfig>,
    c: ChainConfig,
    id: ClientId,
) -> bool {
    &&& chain_id matches Some(n) && is_first_chain(chains, n@, c)
    &&& client_id matches Some(s) && id@ == s@
}

/// Checks the options that both query commands share: a configured chain and
/// a valid client identifier.
pub fn validate_common_options(
    chain_id: &Option<ChainId>,
    client_id: &Option<String>,
    config: &Config,
) -> (r: Result<(ChainConfig, ClientId), OptionsError>)
    ensures
        r is Ok <==> common_options_pass(*chain_id, *client_id, config.chains@),
        match r {
            Ok((c, id)) => common_options_selected(*chain_id, *client_id, config.chains@, c, id),
            Err(e) => common_options_error(*chain_id, *client_id, config.chains@, e),
        },
{
    let chain_id = match chain_id {
        Some(c) => c,
        None => return Err(OptionsError::MissingChain),
    };
    let chain_config = match config.find_chain(chain_id) {
        Some(c) => c,
        None => return Err(OptionsError::ChainNotConfigured),
    };
    let client_id = match client_id {
        Some(s) => s,
        None => return Err(OptionsError::MissingClientId),
    };
    match ClientId::parse(client_id.as_str()) {
        Ok(id) => Ok((chain_config.clone(), id)),
        Err(e) => Err(OptionsError::InvalidClientId(e)),
    }
}

/// The options of `query client state`, as the user gave them.
#[derive(Clone, Debug)]
pub struct QueryClientStateCmd {
    pub chain_id: Option<ChainId>,
    pub client_id: Option<String>,
    pub height: Option<u64>,
    pub proof: Option<bool>,
}

/// Checked options of `query client state`.
#[derive(Debug)]
pub struct QueryClientStateOptions {
    pub client_id: ClientId,
    /// The height to query at; 0 for the latest.
    pub height: u64,
    pub proof: bool,
}

/// The height to query at: the one given, else 0 (the latest).
pub open spec fn height_or_latest(height: Option<u64>) -> u64 {
    match height {
        Some(h) => h,
        None => 0,
    }
}

/// Whether to ask for a proof: as given, else yes.
pub open spec fn proof_or_default(given: Option<bool>) -> bool {
    match given {
        Some(p) => p,
        None => true,
    }
}

impl QueryClientStateCmd {
    /// Checks the options and fills in the defaults: height 0 (the latest)
    /// and a proof.
    pub fn validate_options(&self, config: &Config) -> (r: Result<
        (ChainConfig, QueryClientStateOptions),
        OptionsError,
    >)
        ensures
            r is Ok <==> common_options_pass(self.chain_id, self.client_id, config.chains@),
            match r {
                Ok((c, opts)) => common_options_selected(
                    self.chain_id,
                    self.client_id,
                    config.chains@,
                    c,
                    opts.client_id,
                ) && opts.height == height_or_latest(self.height) && opts.proof == proof_or_default(
                    self.proof,
                ),
                Err(e) => common_options_error(self.chain_id, self.client_id, config.chains@, e),
            },
    {
        let (chain_config, client_id) = validate_common_options(
            &self.chain_id,
            &self.client_id,
            config,
        )?;
        let opts = QueryClientStateOptions {
            client_id,
            height: match self.height {
                Some(h) => h,
                None => 0,
            },
            proof: match self.proof {
                Some(p) => p,
                None => true,
            },
        };
        Ok((chain_config, opts))
    }
}

/// The options of `query client consensus`, as the user gave them.
#[derive(Clone, Debug)]
pub struct QueryClientConsensusCmd {
    pub chain_id: Option<ChainId>,
    pub client_id: Option<String>,
    pub consensus_height: Option<u64>,
    pub height: Option<u64>,
    pub proof: Option<bool>,
}

/// Checked options of `query client consensus`.
#[derive(Debug)]
pub struct QueryClientConsensusOptions {
    pub client_id: ClientId,
    pub consensus_height: u64,
    /// The height to query at; 0 for the latest.
    pub height: u64,
    pub proof: bool,
}

impl QueryClientConsensusCmd {
    /// Checks the options and fills in the defaults: height 0 (the latest)
    /// and a proof. The consensus height is required: without it the options
    /// are refused, so no query is made.
    pub fn validate_options(&self, config: &Config) -> (r: Result<
        (ChainConfig, QueryClientConsensusOptions),
        OptionsError,
    >)
        ensures
            r is Ok <==> common_options_pass(self.chain_id, self.client_id, config.chains@)
                && self.consensus_height is Some,
            match r {
                Ok((c, opts)) => common_options_selected(
                    self.chain_id,
                    self.client_id,
                    config.chains@,
                    c,
                    opts.client_id,
                ) && Some(opts.consensus_height) == self.consensus_height && opts.height
                    == height_or_latest(self.height) && opts.proof == proof_or_default(self.proof),
                Err(e) => common_options_error(self.chain_id, self.client_id, config.chains@, e)
                    || (e is MissingConsensusHeight && common_options_pass(
                    self.chain_id,
                    self.client_id,
                    config.chains@,
                ) && self.consensus_height is None),
            },
    {
        let (chain_config, client_id) = validate_common_options(
            &self.chain_id,
            &self.client_id,
            config,
        )?;
        match self.consensus_height {
            Some(consensus_height) => {
                let opts = QueryClientConsensusOptions {
                    client_id,
                    consensus_height,
                    height: match self.height {
                        Some(h) => h,
                        None => 0,
                    },
                    proof: match self.proof {
                        Some(p) => p,
                        None => true,
                    },
                };
                Ok((chain_config, opts))
            },
            None => Err(OptionsError::MissingConsensusHeight),
        }
    }
}

} // verus!
