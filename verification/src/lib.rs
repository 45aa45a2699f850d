//! Rebalance automation for a blended XLM-USDC pool: the handler that moves
//! USDC between the pool and the Blend lending pool, the circuit that turns
//! pool events into ticks, and the aggregator that submits them.
//!
//! The handler is a state machine. An entrypoint answers with a [`Step`]: the
//! host calls to perform, in order, and what the handler is waiting for. The
//! host performs them, hands the reply of the last one to
//! [`AutomationHandler::resume`], and repeats until the step says that the
//! transaction is complete or has failed.
//!
//! [`Step`]: execution::Step
//! [`AutomationHandler::resume`]: contract::AutomationHandler::resume
pub mod aggregator;
pub mod circuit;
pub mod contract;
pub mod envelope;
pub mod error;
pub mod events;
pub mod execution;
pub mod executor;
pub mod externals;
pub mod laws;
pub mod policy;
pub mod primitives;
pub mod storage;
pub mod xdr;

pub use contract::AutomationHandler;
pub use envelope::Ed25519SignatureData;
pub use error::HandlerError;
pub use execution::RebalanceAction;
