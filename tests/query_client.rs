use ibc_client_core::commands::{OptionsError, QueryClientConsensusCmd, QueryClientStateCmd};
use ibc_client_core::config::{ChainConfig, ChainId, Config};
use ibc_client_core::identifier::{Namespace, ValidationKind};

fn chain(id: &str) -> ChainConfig {
    ChainConfig {
        id: ChainId::parse(id).unwrap(),
        rpc_addr: "localhost:26657".to_string(),
        account_prefix: "cosmos".to_string(),
        key_name: "testkey".to_string(),
        gas: 200000,
    }
}

fn two_chains() -> Config {
    Config {
        chains: vec![chain("ibc0"), chain("ibc1")],
    }
}

fn default_params() -> QueryClientStateCmd {
    QueryClientStateCmd {
        chain_id: Some(ChainId::parse("ibc0").unwrap()),
        client_id: Some("ibconeclient".to_string()),
        height: None,
        proof: None,
    }
}

#[test]
fn parse_query_state_parameters() {
    struct Test {
        name: String,
        params: QueryClientStateCmd,
        want_pass: bool,
    }

    let tests: Vec<Test> = vec![
        Test {
            name: "Good parameters".to_string(),
            params: default_params(),
            want_pass: true,
        },
        Test {
            name: "No chain specified".to_string(),
            params: QueryClientStateCmd {
                chain_id: None,
                ..default_params()
            },
            want_pass: false,
        },
        Test {
            name: "Chain not configured".to_string(),
            params: QueryClientStateCmd {
                chain_id: Some(ChainId::parse("notibc0oribc1").unwrap()),
                ..default_params()
            },
            want_pass: false,
        },
        Test {
            name: "No client id specified".to_string(),
            params: QueryClientStateCmd {
                client_id: None,
                ..default_params()
            },
            want_pass: false,
        },
        Test {
            name: "Bad client id, non-alpha".to_string(),
            params: QueryClientStateCmd {
                client_id: Some("p34".to_string()),
                ..default_params()
            },
            want_pass: false,
        },
    ];

    let config = two_chains();

    for test in tests {
        let res = test.params.validate_options(&config);

        match res {
            Ok(_res) => {
                assert!(
                    test.want_pass,
                    "validate_options should have failed for test {}",
                    test.name
                );
            }
            Err(err) => {
                assert!(
                    !test.want_pass,
                    "validate_options failed for test {}, \nerr {}",
                    test.name,
                    err.message()
                );
            }
        }
    }
}

#[test]
fn good_parameters_take_defaults() {
    let (chain, opts) = default_params().validate_options(&two_chains()).unwrap();
    assert_eq!(chain.id.as_str(), "ibc0");
    assert_eq!(opts.client_id.as_str(), "ibconeclient");
    assert_eq!(opts.height, 0);
    assert!(opts.proof);
}

#[test]
fn given_height_and_proof_are_kept() {
    let params = QueryClientStateCmd {
        height: Some(22),
        proof: Some(false),
        ..default_params()
    };
    let (_, opts) = params.validate_options(&two_chains()).unwrap();
    assert_eq!(opts.height, 22);
    assert!(!opts.proof);
}

#[test]
fn missing_chain_is_a_configuration_error() {
    let params = QueryClientStateCmd {
        chain_id: None,
        ..default_params()
    };
    let err = params.validate_options(&two_chains()).unwrap_err();
    assert!(matches!(err, OptionsError::MissingChain));
    assert!(err.message().contains("missing chain parameter"));
}

#[test]
fn unknown_chain_is_missing_in_configuration() {
    let params = QueryClientStateCmd {
        chain_id: Some(ChainId::parse("notibc0oribc1").unwrap()),
        ..default_params()
    };
    let err = params.validate_options(&two_chains()).unwrap_err();
    assert!(matches!(err, OptionsError::ChainNotConfigured));
    assert_eq!(err.message(), "missing chain in configuration");
}

#[test]
fn missing_client_is_refused() {
    let params = QueryClientStateCmd {
        client_id: None,
        ..default_params()
    };
    let err = params.validate_options(&two_chains()).unwrap_err();
    assert!(matches!(err, OptionsError::MissingClientId));
    assert_eq!(err.message(), "missing client identifier");
}

#[test]
fn bad_client_id_is_a_validation_error() {
    let params = QueryClientStateCmd {
        client_id: Some("p34".to_string()),
        ..default_params()
    };
    match params.validate_options(&two_chains()).unwrap_err() {
        OptionsError::InvalidClientId(e) => {
            assert_eq!(e.namespace, Namespace::Client);
            assert_eq!(e.input, "p34");
            assert_eq!(
                e.kind,
                ValidationKind::InvalidLength { length: 3, min: 9, max: 20 }
            );
        }
        other => panic!("unexpected error {:?}", other),
    }
}

#[test]
fn bad_client_id_fails_on_any_chain() {
    let params = QueryClientStateCmd {
        chain_id: Some(ChainId::parse("ibc1").unwrap()),
        client_id: Some("p34".to_string()),
        ..default_params()
    };
    let err = params.validate_options(&two_chains()).unwrap_err();
    assert!(matches!(err, OptionsError::InvalidClientId(_)));
}

#[test]
fn second_chain_is_selected() {
    let params = QueryClientStateCmd {
        chain_id: Some(ChainId::parse("ibc1").unwrap()),
        ..default_params()
    };
    let (chain, _) = params.validate_options(&two_chains()).unwrap();
    assert_eq!(chain.id.as_str(), "ibc1");
}

fn consensus_params(consensus_height: Option<u64>) -> QueryClientConsensusCmd {
    QueryClientConsensusCmd {
        chain_id: Some(ChainId::parse("ibc0").unwrap()),
        client_id: Some("ibconeclient".to_string()),
        consensus_height,
        height: None,
        proof: None,
    }
}

#[test]
fn consensus_height_is_required() {
    let err = consensus_params(None)
        .validate_options(&two_chains())
        .unwrap_err();
    assert!(matches!(err, OptionsError::MissingConsensusHeight));
    assert_eq!(err.message(), "missing client consensus height");
}

#[test]
fn consensus_options_take_defaults() {
    let (_, opts) = consensus_params(Some(22))
        .validate_options(&two_chains())
        .unwrap();
    assert_eq!(opts.consensus_height, 22);
    assert_eq!(opts.height, 0);
    assert!(opts.proof);
    assert_eq!(opts.client_id.as_str(), "ibconeclient");
}

#[test]
fn consensus_options_check_the_chain_first() {
    let params = QueryClientConsensusCmd {
        chain_id: None,
        ..consensus_params(None)
    };
    let err = params.validate_options(&two_chains()).unwrap_err();
    assert!(matches!(err, OptionsError::MissingChain));
}

#[test]
fn chain_id_grammar() {
    assert_eq!(ChainId::parse("ibc-0_test.1").unwrap().as_str(), "ibc-0_test.1");
    assert!(ChainId::parse("").is_none());
    assert!(ChainId::parse("ibc 0").is_none());
    assert!(ChainId::parse("ibc/0").is_none());
    assert!(ChainId::parse(&"a".repeat(50)).is_some());
    assert!(ChainId::parse(&"a".repeat(51)).is_none());
}
