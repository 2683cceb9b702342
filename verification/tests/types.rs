use wallet_operations::types::{
    Attribute, ContractError, IbcTimeout, Response, StdError, Timestamp, NANOS_PER_SECOND,
};

#[test]
fn std_error_messages() {
    assert_eq!(StdError::generic_err("boom"), StdError::GenericErr { msg: "boom".to_string() });
    assert_eq!(StdError::not_found("Operations"), StdError::NotFound { kind: "Operations".to_string() });
    assert_eq!(StdError::generic_err("boom").message(), "Generic error: boom");
    assert_eq!(StdError::not_found("Operations not found").message(), "Operations not found not found");
    assert_eq!(StdError::Overflow {}.message(), "Overflow");
}

#[test]
fn contract_error_messages() {
    assert_eq!(ContractError::Unauthorized {}.message(), "Unauthorized");
    assert_eq!(ContractError::Std(StdError::generic_err("x")).message(), "Generic error: x");
}

#[test]
fn responses_log_their_action() {
    assert_eq!(Response::new(), Response { attributes: vec![] });
    assert_eq!(Response::default(), Response { attributes: vec![] });
    assert_eq!(
        Response::action("update_config"),
        Response {
            attributes: vec![Attribute { key: "action".to_string(), value: "update_config".to_string() }]
        }
    );
}

#[test]
fn timestamp_counts_nanoseconds() {
    assert_eq!(NANOS_PER_SECOND, 1_000_000_000);
    let t = Timestamp::from_nanos(1_700_000_000_123_456_789);
    assert_eq!(t.nanos(), 1_700_000_000_123_456_789);
    assert_eq!(t, Timestamp { nanos: cosmwasm_std::Timestamp::from_nanos(1_700_000_000_123_456_789).nanos() });
}

#[test]
fn ibc_timeout_holds_its_timestamp() {
    let t = Timestamp::from_nanos(5);
    assert_eq!(IbcTimeout::with_timestamp(t), IbcTimeout { timestamp: t });
}
