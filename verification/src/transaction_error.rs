//! Transaction RPC errors.
//!
//! Errors are interpreted as transaction events for subscriptions.

use crate::text::{decimal, push_decimal};
use vstd::prelude::*;
use vstd::string::StringExecFns;

verus! {

/// Why the runtime found a transaction invalid.
#[derive(Debug)]
pub enum InvalidReason {
    /// A reason of the runtime's own, known by its number.
    Custom(u8),
    /// Any other reason, in words.
    Other(String),
}

/// What the transaction pool can say against a transaction.
#[derive(Debug)]
pub enum PoolError {
    /// The runtime cannot tell whether the transaction is valid; the
    /// reason, in words.
    UnknownTransaction(String),
    /// The transaction is invalid.
    InvalidTransaction(InvalidReason),
    /// The transaction is banned for a while.
    TemporarilyBanned,
    /// The transaction is in the pool already.
    AlreadyImported,
    /// A transaction in the pool has a higher priority.
    TooLowPriority {
        /// Priority of the transaction in the pool.
        old: u64,
        /// Priority of the transaction that was submitted.
        new: u64,
    },
    /// The transaction depends on itself.
    CycleDetected,
    /// The pool is full and dropped the transaction at once.
    ImmediatelyDropped,
    /// The transaction cannot be propagated and the node authors no blocks.
    Unactionable,
    /// The transaction provides no tags.
    NoTagsProvided,
    /// The block that was named does not exist.
    InvalidBlockId,
    /// The pool takes no future transactions.
    RejectedFutureTransaction,
}

/// Transaction RPC errors.
#[derive(Debug)]
pub enum Error {
    /// Transaction pool error.
    Pool(PoolError),
    /// Verification error, in words.
    Verification(String),
}

/// The reason why a transaction is invalid.
#[derive(Debug)]
pub struct TransactionError {
    /// Reason of the error.
    pub error: String,
}

/// The event that an error becomes for a subscription.
#[derive(Debug)]
pub enum TransactionEvent {
    /// The transaction is invalid and was dropped.
    Invalid(TransactionError),
}

/// What is reported for an error of the transaction pool.
pub open spec fn pool_error_text(e: PoolError) -> Seq<char> {
    match e {
        PoolError::InvalidTransaction(InvalidReason::Custom(n)) => {
            "Invalid transaction with custom error: "@ + decimal(n as nat)
        },
        PoolError::InvalidTransaction(InvalidReason::Other(msg)) => {
            "Invalid transaction: "@ + msg@
        },
        PoolError::UnknownTransaction(msg) => "Unknown transaction validity: "@ + msg@,
        PoolError::TemporarilyBanned => "Transaction is temporarily banned"@,
        PoolError::AlreadyImported => "Transaction is already imported"@,
        PoolError::TooLowPriority { old, new } => {
            "The priority of the transaction is too low (pool "@ + decimal(old as nat)
                + " > current "@ + decimal(new as nat) + ")"@
        },
        PoolError::CycleDetected => "The transaction contains a cyclic dependency"@,
        PoolError::ImmediatelyDropped => {
            "The transaction could not enter the pool because of the limit"@
        },
        PoolError::Unactionable => {
            "Transaction cannot be propagated and the local node does not author blocks"@
        },
        PoolError::NoTagsProvided => {
            "Transaction does not provide any tags, so the pool cannot identify it"@
        },
        PoolError::InvalidBlockId => "The provided block ID is not valid"@,
        PoolError::RejectedFutureTransaction => "The pool is not accepting future transactions"@,
    }
}

/// What is reported for an error.
pub open spec fn error_text(e: Error) -> Seq<char> {
    match e {
        Error::Verification(msg) => "Verification error: "@ + msg@,
        Error::Pool(e) => pool_error_text(e),
    }
}

/// The text that is reported for an error of the transaction pool.
pub fn describe_pool_error(e: &PoolError) -> (text: String)
    ensures
        text@ == pool_error_text(*e),
{
    match e {
        PoolError::InvalidTransaction(InvalidReason::Custom(n)) => {
            let mut text: String = String::from_str("Invalid transaction with custom error: ");
            push_decimal(&mut text, *n as u64);
            text
        },
        PoolError::InvalidTransaction(InvalidReason::Other(msg)) => {
            String::from_str("Invalid transaction: ").concat(msg.as_str())
        },
        PoolError::UnknownTransaction(msg) => {
            String::from_str("Unknown transaction validity: ").concat(msg.as_str())
        },
        PoolError::TemporarilyBanned => String::from_str("Transaction is temporarily banned"),
        PoolError::AlreadyImported => String::from_str("Transaction is already imported"),
        PoolError::TooLowPriority { old, new } => {
            let mut text: String = String::from_str(
                "The priority of the transaction is too low (pool ",
            );
            push_decimal(&mut text, *old);
            text.append(" > current ");
            push_decimal(&mut text, *new);
            text.append(")");
            text
        },
        PoolError::CycleDetected => String::from_str(
            "The transaction contains a cyclic dependency",
        ),
        PoolError::ImmediatelyDropped => String::from_str(
            "The transaction could not enter the pool because of the limit",
        ),
        PoolError::Unactionable => String::from_str(
            "Transaction cannot be propagated and the local node does not author blocks",
        ),
        PoolError::NoTagsProvided => String::from_str(
            "Transaction does not provide any tags, so the pool cannot identify it",
        ),
        PoolError::InvalidBlockId => String::from_str("The provided block ID is not valid"),
        PoolError::RejectedFutureTransaction => String::from_str(
            "The pool is not accepting future transactions",
        ),
    }
}

impl TransactionEvent {
    /// The event for an error: the transaction is invalid, for the reason
    /// that the error gives.
    pub fn from_error(e: Error) -> (event: TransactionEvent)
        ensures
            event matches TransactionEvent::Invalid(reason) && reason.error@ == error_text(e),
    {
        let error: String = match &e {
            Error::Verification(msg) => String::from_str("Verification error: ").concat(
                msg.as_str(),
            ),
            Error::Pool(e) => describe_pool_error(e),
        };
        TransactionEvent::Invalid(TransactionError { error })
    }
}

impl From<Error> for TransactionEvent {
    /// The same as [`TransactionEvent::from_error`], whose contract says
    /// what the event holds.
    fn from(e: Error) -> (event: TransactionEvent) {
        TransactionEvent::from_error(e)
    }
}

impl vstd::std_specs::convert::FromSpecImpl<Error> for TransactionEvent {
    open spec fn obeys_from_spec() -> bool {
        false
    }

    open spec fn from_spec(e: Error) -> TransactionEvent {
        arbitrary()
    }
}

/// General purpose errors, as defined in
/// <https://www.jsonrpc.org/specification#error_object>: invalid parameter.
pub const INVALID_PARAM_ERROR: i32 = -32602;

/// Errors for the `transactionWatch` RPC module, as defined in
/// <https://github.com/paritytech/json-rpc-interface-spec>: the maximum
/// number of subscriptions has been reached.
pub const REACHED_LIMITS: i32 = -32800;

/// An error as a JSON-RPC response carries it, without data.
#[derive(Debug)]
pub struct RpcError {
    /// The error's code.
    pub code: i32,
    /// The error in words.
    pub message: String,
}

/// TransactionBroadcast error.
#[derive(Debug, Clone, Copy, PartialEq, Eq, Structural)]
pub enum ErrorBroadcast {
    /// The provided operation ID is invalid.
    InvalidOperationID,
}

/// TransactionWatch error.
#[derive(Debug, Clone, Copy, PartialEq, Eq, Structural)]
pub enum ErrorWatch {
    /// Maximum number of transactionWatch has been reached.
    ReachedLimits,
}

impl ErrorBroadcast {
    /// The error in words.
    pub fn message(&self) -> (text: String)
        ensures
            text@ == "Invalid operation id"@,
    {
        String::from_str("Invalid operation id")
    }

    /// The error as a JSON-RPC response carries it.
    pub fn to_rpc_error(&self) -> (e: RpcError)
        ensures
            e.code == INVALID_PARAM_ERROR,
            e.message@ == "Invalid operation id"@,
    {
        RpcError { code: INVALID_PARAM_ERROR, message: self.message() }
    }
}

impl From<ErrorBroadcast> for RpcError {
    /// The same as [`ErrorBroadcast::to_rpc_error`], whose contract says
    /// what the error holds.
    fn from(e: ErrorBroadcast) -> (out: RpcError) {
        e.to_rpc_error()
    }
}

impl vstd::std_specs::convert::FromSpecImpl<ErrorBroadcast> for RpcError {
    open spec fn obeys_from_spec() -> bool {
        false
    }

    open spec fn from_spec(e: ErrorBroadcast) -> RpcError {
        arbitrary()
    }
}

impl From<ErrorWatch> for RpcError {
    /// The same as [`ErrorWatch::to_rpc_error`], whose contract says what
    /// the error holds.
    fn from(e: ErrorWatch) -> (out: RpcError) {
        e.to_rpc_error()
    }
}

impl vstd::std_specs::convert::FromSpecImpl<ErrorWatch> for RpcError {
    open spec fn obeys_from_spec() -> bool {
        false
    }

    open spec fn from_spec(e: ErrorWatch) -> RpcError {
        arbitrary()
    }
}

impl ErrorWatch {
    /// The error in words.
    pub fn message(&self) -> (text: String)
        ensures
            text@ == "Maximum number of transactionWatch has been reached"@,
    {
        String::from_str("Maximum number of transactionWatch has been reached")
    }

    /// The error as a JSON-RPC response carries it.
    pub fn to_rpc_error(&self) -> (e: RpcError)
        ensures
            e.code == REACHED_LIMITS,
            e.message@ == "Maximum number of transactionWatch has been reached"@,
    {
        RpcError { code: REACHED_LIMITS, message: self.message() }
    }
}

} // verus!
