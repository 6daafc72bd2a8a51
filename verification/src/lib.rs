//! Verified building blocks of a node that runs untrusted validation code
//! in disposable worker processes.
//!
//! The first group of modules is the execution host: the framed protocol
//! between host and worker ([`framing`]), the security status that a worker
//! reports and the handshake that carries it ([`security`], [`handshake`]),
//! the worker's side of the protocol ([`worker`]), the logical version that
//! tags compiled artifacts ([`version`], [`artifacts`]), and the host's
//! bookkeeping for its two worker pools ([`job`], [`pool`], [`pool_proofs`],
//! [`host`]).
//!
//! The second group holds what the node's RPC layer and runtime decide
//! without doing I/O: the RPC server's settings ([`rpc_server`]), the
//! events that transaction errors become ([`transaction_error`]), and the
//! weights of runtime calls ([`weight`], [`nis_weights`],
//! [`message_queue_weights`]).

pub mod artifacts;
pub mod framing;
pub mod handshake;
pub mod host;
pub mod job;
pub mod message_queue_weights;
pub mod nis_weights;
pub mod pool;
pub mod pool_proofs;
pub mod rpc_server;
pub mod security;
pub mod text;
pub mod transaction_error;
pub mod version;
pub mod weight;
pub mod worker;
