//! The aggregator: from its configuration to the action that it takes.
use phoenix_blend_pool::aggregator::{
    build, build_from_config, submit_to, AggregatorAction, AggregatorError, SubmitAction,
};

/// Sample testnet contract C-address (32 bytes of well-formed strkey).
const TEST_HANDLER: &str = "CDVQVKOY2YSXS2IC7KN6MNASSHPAO7UN2UR2ON4OI2SKMFJNVAMDX6DP";

#[test]
fn build_from_config_emits_single_submit_action() {
    let actions = build_from_config("stellar:testnet".to_string(), TEST_HANDLER).unwrap();
    assert_eq!(actions.len(), 1);
    match &actions[0] {
        AggregatorAction::Submit(SubmitAction::Stellar(s)) => {
            assert_eq!(s.chain, "stellar:testnet");
            assert_eq!(s.address.raw_bytes.len(), 32);
        }
        other => panic!("unexpected action variant: {:?}", other),
    }
}

#[test]
fn build_from_config_rejects_invalid_strkey() {
    let err = build_from_config("stellar:pubnet".to_string(), "not-a-contract").unwrap_err();
    let msg = err.message();
    assert!(
        msg.contains("invalid stellar contract id"),
        "expected diagnostic about strkey; got: {msg}",
    );
}

#[test]
fn build_from_config_passes_chain_through_verbatim() {
    let actions = build_from_config("stellar:pubnet".to_string(), TEST_HANDLER).unwrap();
    let AggregatorAction::Submit(SubmitAction::Stellar(s)) = &actions[0] else {
        panic!();
    };
    assert_eq!(s.chain, "stellar:pubnet");
}

#[test]
fn address_bytes_match_strkey_decoding() {
    let actions = build_from_config("stellar:testnet".to_string(), TEST_HANDLER).unwrap();
    let AggregatorAction::Submit(SubmitAction::Stellar(s)) = &actions[0] else {
        panic!();
    };
    let expected = stellar_strkey::Contract::from_string(TEST_HANDLER).unwrap().0.to_vec();
    assert_eq!(s.address.raw_bytes, expected);
}

#[test]
fn missing_configuration_is_named() {
    let chain = || Some("stellar:testnet".to_string());
    let handler = || Some(TEST_HANDLER.to_string());
    let err = build(None, handler()).unwrap_err();
    assert_eq!(err, AggregatorError::MissingChain);
    assert_eq!(err.message(), "missing config: chain");
    let err = build(chain(), None).unwrap_err();
    assert_eq!(err, AggregatorError::MissingServiceHandler);
    assert_eq!(err.message(), "missing config: service_handler");
    assert_eq!(build(None, None).unwrap_err(), AggregatorError::MissingChain);
    assert_eq!(
        build(chain(), handler()),
        build_from_config("stellar:testnet".to_string(), TEST_HANDLER)
    );
}

#[test]
fn invalid_contract_id_is_quoted_with_its_cause() {
    let err = build_from_config("stellar:pubnet".to_string(), "not-a-contract").unwrap_err();
    assert_eq!(
        err.message(),
        "invalid stellar contract id: not-a-contract: the strkey is invalid"
    );
    // An account is no contract.
    let account = "GAAAAAAAAAAAAAAAAAAAAAAAAAAAAAAAAAAAAAAAAAAAAAAAAAAAAWHF";
    assert!(build_from_config("stellar:pubnet".to_string(), account).is_err());
}

#[test]
fn bytes_of_the_contract_are_exact() {
    let text = "CAAAAAAAAAAAAAAAAAAAAAAAAAAAAAAAAAAAAAAAAAAAAAAAAAAAD2KM";
    let actions = build_from_config("c".to_string(), text).unwrap();
    let mut expected = vec![0; 32];
    expected[31] = 1;
    assert_eq!(actions, submit_to("c".to_string(), expected));
}
