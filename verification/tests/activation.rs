use geyser_filter::{
    activate, dispatch, AccountPayload, ActivationError, Config, Disposition, HandleOutcome,
    Identifier, IdentifierSet, Payload, RedisManager, TransactionNotification,
    TransactionPayload,
};

const UNREACHABLE_BUS: &str = "redis://127.0.0.1:1/";

fn key(fill: u8) -> String {
    Identifier::from_bytes(vec![fill; 32]).unwrap().encode()
}

#[test]
fn activation_succeeds_on_a_clean_configuration() {
    let config = Config {
        redis_url: UNREACHABLE_BUS.to_string(),
        target_program_ids: vec![key(1), key(2)],
    };
    let context = activate(&config).expect("activation must succeed");
    assert_eq!(context.targets.len(), 2);
}

#[test]
fn activation_aborts_on_an_undecodable_identifier() {
    let config = Config {
        redis_url: UNREACHABLE_BUS.to_string(),
        target_program_ids: vec![key(1), "not a key".to_string(), key(2)],
    };
    match activate(&config) {
        Err(ActivationError::Config(e)) => {
            assert_eq!(e.index, 1);
            assert_eq!(e.input, "not a key");
        }
        other => panic!("expected a configuration error, got {:?}", other.is_ok()),
    }
}

#[test]
fn activation_aborts_on_a_rejected_connection_string() {
    let config = Config {
        redis_url: "this is no url".to_string(),
        target_program_ids: vec![key(1)],
    };
    match activate(&config) {
        Err(ActivationError::Connection(e)) => assert!(!e.detail.is_empty()),
        other => panic!("expected a connection error, got {:?}", other.is_ok()),
    }
}

#[test]
fn build_rejects_the_first_bad_identifier_only_after_good_ones() {
    let raw = vec![key(1), key(2), "1111".to_string(), "also bad".to_string()];
    let err = IdentifierSet::build(&raw).unwrap_err();
    assert_eq!(err.index, 2);
    assert_eq!(err.input, "1111");
}

#[test]
fn build_of_valid_identifiers_holds_them_all() {
    let raw = vec![key(1), key(2), key(3)];
    let set = IdentifierSet::build(&raw).unwrap();
    assert_eq!(set.len(), 3);
    for fill in [1u8, 2, 3] {
        assert!(set.contains(&Identifier::from_bytes(vec![fill; 32]).unwrap()));
    }
    assert!(!set.contains(&Identifier::from_bytes(vec![4u8; 32]).unwrap()));
}

#[test]
fn manager_rejects_a_malformed_connection_string() {
    assert!(RedisManager::new("no scheme at all").is_err());
}

#[test]
fn manager_accepts_a_wellformed_connection_string_lazily() {
    // Opening only parses the string; no traffic is sent.
    assert!(RedisManager::new(UNREACHABLE_BUS).is_ok());
}

#[test]
fn publish_to_an_unreachable_bus_fails_per_call() {
    let manager = RedisManager::new(UNREACHABLE_BUS).unwrap();
    let err = manager.publish("program_transactions", "hello").unwrap_err();
    assert!(!err.detail.is_empty());
}

#[test]
fn transaction_payloads_are_forwarded_in_either_version() {
    let config = Config {
        redis_url: UNREACHABLE_BUS.to_string(),
        target_program_ids: vec![key(1)],
    };
    let context = activate(&config).unwrap();
    let matching = || TransactionNotification {
        slot: 3,
        signature: vec![0u8; 64],
        identifiers: vec![Identifier::from_bytes(vec![1u8; 32]).unwrap()],
    };
    for payload in [
        Payload::Transaction(TransactionPayload::V1(matching())),
        Payload::Transaction(TransactionPayload::V2(matching())),
    ] {
        match dispatch(payload, &context) {
            Disposition::Forwarded(outcome) => {
                assert!(!matches!(outcome, HandleOutcome::NoMatch));
            }
            other => panic!("expected forwarding, got {:?}", fmt(&other)),
        }
    }
}

#[test]
fn deprecated_account_versions_are_a_fault_and_the_rest_is_logged() {
    let config = Config {
        redis_url: UNREACHABLE_BUS.to_string(),
        target_program_ids: vec![],
    };
    let context = activate(&config).unwrap();
    assert!(matches!(
        dispatch(Payload::Account(AccountPayload::V1), &context),
        Disposition::Fault
    ));
    assert!(matches!(
        dispatch(Payload::Account(AccountPayload::V2), &context),
        Disposition::Fault
    ));
    assert!(matches!(
        dispatch(Payload::Account(AccountPayload::V3), &context),
        Disposition::Logged
    ));
    assert!(matches!(
        dispatch(Payload::SlotStatus, &context),
        Disposition::Logged
    ));
    assert!(matches!(
        dispatch(Payload::BlockMetadata, &context),
        Disposition::Logged
    ));
    assert!(matches!(dispatch(Payload::Entry, &context), Disposition::Logged));
}

fn fmt(d: &Disposition) -> &'static str {
    match d {
        Disposition::Forwarded(_) => "Forwarded",
        Disposition::Logged => "Logged",
        Disposition::Fault => "Fault",
    }
}
