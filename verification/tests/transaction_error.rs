use pvf_host::text::decimal_string;
use pvf_host::transaction_error::{
    describe_pool_error, Error, ErrorBroadcast, ErrorWatch, InvalidReason, PoolError, RpcError,
    TransactionEvent, INVALID_PARAM_ERROR, REACHED_LIMITS,
};

fn reason(e: Error) -> String {
    match TransactionEvent::from_error(e) {
        TransactionEvent::Invalid(reason) => reason.error,
    }
}

#[test]
fn decimal_text_of_numbers() {
    assert_eq!(decimal_string(0), "0");
    assert_eq!(decimal_string(7), "7");
    assert_eq!(decimal_string(10), "10");
    assert_eq!(decimal_string(1234567890), "1234567890");
    assert_eq!(decimal_string(u64::MAX), "18446744073709551615");
    for n in [0u64, 9, 10, 99, 100, 101, 65535, 1 << 32, u64::MAX - 1] {
        assert_eq!(decimal_string(n), n.to_string());
    }
}

#[test]
fn verification_error_becomes_invalid() {
    assert_eq!(
        reason(Error::Verification("bad signature".to_string())),
        "Verification error: bad signature"
    );
    assert_eq!(reason(Error::Verification(String::new())), "Verification error: ");
}

#[test]
fn invalid_transaction_errors() {
    assert_eq!(
        reason(Error::Pool(PoolError::InvalidTransaction(InvalidReason::Custom(0)))),
        "Invalid transaction with custom error: 0"
    );
    assert_eq!(
        reason(Error::Pool(PoolError::InvalidTransaction(InvalidReason::Custom(255)))),
        "Invalid transaction with custom error: 255"
    );
    assert_eq!(
        reason(Error::Pool(PoolError::InvalidTransaction(InvalidReason::Other(
            "Transaction is outdated".to_string()
        )))),
        "Invalid transaction: Transaction is outdated"
    );
    assert_eq!(
        reason(Error::Pool(PoolError::UnknownTransaction(
            "Could not lookup information required to validate the transaction".to_string()
        ))),
        "Unknown transaction validity: Could not lookup information required to validate the transaction"
    );
}

#[test]
fn pool_errors_have_their_fixed_texts() {
    let cases = [
        (PoolError::TemporarilyBanned, "Transaction is temporarily banned"),
        (PoolError::AlreadyImported, "Transaction is already imported"),
        (PoolError::CycleDetected, "The transaction contains a cyclic dependency"),
        (
            PoolError::ImmediatelyDropped,
            "The transaction could not enter the pool because of the limit",
        ),
        (
            PoolError::Unactionable,
            "Transaction cannot be propagated and the local node does not author blocks",
        ),
        (
            PoolError::NoTagsProvided,
            "Transaction does not provide any tags, so the pool cannot identify it",
        ),
        (PoolError::InvalidBlockId, "The provided block ID is not valid"),
        (PoolError::RejectedFutureTransaction, "The pool is not accepting future transactions"),
    ];
    for (error, text) in cases {
        assert_eq!(describe_pool_error(&error), text);
        assert_eq!(reason(Error::Pool(error)), text);
    }
}

#[test]
fn too_low_priority_names_both_priorities() {
    assert_eq!(
        reason(Error::Pool(PoolError::TooLowPriority { old: 10, new: 3 })),
        "The priority of the transaction is too low (pool 10 > current 3)"
    );
    assert_eq!(
        reason(Error::Pool(PoolError::TooLowPriority { old: u64::MAX, new: 0 })),
        "The priority of the transaction is too low (pool 18446744073709551615 > current 0)"
    );
}

#[test]
fn from_gives_the_same_event() {
    let event: TransactionEvent = Error::Pool(PoolError::CycleDetected).into();
    match event {
        TransactionEvent::Invalid(reason) => {
            assert_eq!(reason.error, "The transaction contains a cyclic dependency")
        },
    }
}

#[test]
fn broadcast_and_watch_errors() {
    assert_eq!(INVALID_PARAM_ERROR, -32602);
    assert_eq!(REACHED_LIMITS, -32800);
    assert_eq!(ErrorBroadcast::InvalidOperationID.message(), "Invalid operation id");
    let e = ErrorBroadcast::InvalidOperationID.to_rpc_error();
    assert_eq!((e.code, e.message.as_str()), (-32602, "Invalid operation id"));
    assert_eq!(
        ErrorWatch::ReachedLimits.message(),
        "Maximum number of transactionWatch has been reached"
    );
    let e = ErrorWatch::ReachedLimits.to_rpc_error();
    assert_eq!(
        (e.code, e.message.as_str()),
        (-32800, "Maximum number of transactionWatch has been reached")
    );
    let e: RpcError = ErrorBroadcast::InvalidOperationID.into();
    assert_eq!(e.code, -32602);
    let e: RpcError = ErrorWatch::ReachedLimits.into();
    assert_eq!(e.code, -32800);
}
