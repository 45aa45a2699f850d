//! What the handler asks of the ledger host and of the contracts around it.
use crate::error::VerifyError;
use crate::events::Event;
use crate::primitives::{Address, Bytes32, Bytes64, EventId};
use vstd::prelude::*;

verus! {

/// Request type of a Blend supply: the tokens leave the handler.
pub const BLEND_REQUEST_SUPPLY: u32 = 0;

/// Request type of a Blend withdraw: the tokens come to the handler.
pub const BLEND_REQUEST_WITHDRAW: u32 = 1;

/// The blended pool's account of its two tokens. A token's total is its liquid
/// balance plus what the delegate has taken out.
#[derive(Clone, Copy, Debug, PartialEq, Eq, Structural)]
pub struct DelegateState {
    pub delegate: Option<Address>,
    pub liquid_a: i128,
    pub liquid_b: i128,
    pub delegated_a: i128,
    pub delegated_b: i128,
    pub total_a: i128,
    pub total_b: i128,
}

/// Configuration of a Blend lending pool.
#[derive(Clone, Copy, Debug, PartialEq, Eq, Structural)]
pub struct BlendPoolConfig {
    pub bstop_rate: u32,
    pub max_positions: u32,
    pub min_collateral: i128,
    pub oracle: Address,
    /// 0-3: active or on ice; 4-6: frozen or in setup.
    pub status: u32,
}

#[derive(Clone, Copy, Debug, PartialEq, Eq, Structural)]
pub struct BlendRequest {
    pub request_type: u32,
    pub address: Address,
    pub amount: i128,
}

/// The ledger at the time of the transaction.
#[derive(Clone, Copy, Debug, PartialEq, Eq, Structural)]
pub struct Ledger {
    pub sequence: u32,
    pub timestamp: u64,
}

/// What the verification contract made of an envelope.
#[derive(Clone, Copy, Debug, PartialEq, Eq, Structural)]
pub enum VerifyOutcome {
    Verified,
    /// It returned, but not with a value that its interface knows.
    Unreadable,
    Refused(VerifyError),
    /// The invocation itself failed.
    InvocationFailed,
}

/// One call that the handler asks its host to make. A call that cannot be made
/// ends the transaction, except for `TrySubmit` and `Verify`, whose failure is
/// part of the reply.
#[derive(Debug, PartialEq, Eq)]
pub enum HostCall {
    /// `get_config` of the Blend pool. Reply: `Config`.
    GetConfig { blend_pool: Address },
    /// `query_delegate_state` of the blended pool. Reply: `Delegate`.
    QueryDelegateState { blended_pool: Address },
    /// Balance of `holder` in `token`. Reply: `Amount`.
    Balance { token: Address, holder: Address },
    /// `claim` of the emissions of one reserve token, paid to `to`. Reply: `Amount`.
    Claim { blend_pool: Address, from: Address, reserve_token_id: u32, to: Address },
    /// `withdraw_to_delegate` of the blended pool. Reply: `Performed`.
    WithdrawToDelegate { blended_pool: Address, token: Address, amount: i128 },
    /// `deposit_from_delegate` of the blended pool. Reply: `Performed`.
    DepositFromDelegate { blended_pool: Address, token: Address, amount: i128 },
    /// `donate` of the blended pool. Reply: `Performed`.
    Donate { blended_pool: Address, token: Address, amount: i128 },
    /// Pre-authorize the `transfer(from, to, amount)` of `token` that the next
    /// call makes in the handler's name. Reply: `Performed`.
    AuthorizeTransfer { token: Address, from: Address, to: Address, amount: i128 },
    /// `submit` of one request, with `account` as from, spender and to. Reply: `Performed`.
    Submit { blend_pool: Address, account: Address, request: BlendRequest },
    /// The recoverable form of `Submit`. Reply: `Submitted`.
    TrySubmit { blend_pool: Address, account: Address, request: BlendRequest },
    /// The recoverable form of the verification contract's `verify`. Reply: `Verification`.
    Verify {
        contract: Address,
        envelope_bytes: Vec<u8>,
        signatures: Vec<Bytes64>,
        signers: Vec<Bytes32>,
        reference_block: u32,
    },
    /// Write an event to the event stream. Reply: `Performed`.
    Publish(Event),
    /// Renew the life of the instance storage. Reply: `Performed`.
    ExtendInstanceTtl,
    /// Renew the life of the entry that marks an event as seen. Reply: `Performed`.
    ExtendEventTtl { event_id: EventId },
    /// Replace the code of the contract. Reply: `Performed`.
    UpdateContractWasm { wasm_hash: Bytes32 },
}

/// What came back from a [`HostCall`].
#[derive(Clone, Copy, Debug, PartialEq, Eq, Structural)]
pub enum Reply {
    Config(BlendPoolConfig),
    Delegate(DelegateState),
    Amount(i128),
    /// Whether a `TrySubmit` went through.
    Submitted(bool),
    Verification(VerifyOutcome),
    /// The call went through and has no result.
    Performed,
    /// The call, or one before it in the same step, could not be made.
    Trapped,
}

} // verus!
