//! The handler's transactions as a state machine.
//!
//! A transaction is a chain of [`Step`]s. Between two steps the host performs
//! the calls of the first one and the handler remembers, in a [`Pending`], what
//! it is waiting for. The functions below say, for every stage and every reply,
//! what the next step is and what the handler keeps.
use crate::envelope;
use crate::envelope::Ed25519SignatureData;
use crate::error::{Failure, HandlerError, LocalError, Rejection};
use crate::events::{
    BadDebtDetected, ConfigUpdated, EmergencyUnwound, Event, HarvestCompleted, HarvestPartial,
    PauseToggled, RebalanceExecuted, Symbol,
};
use crate::externals::{
    BlendRequest, DelegateState, HostCall, Ledger, Reply, VerifyOutcome, BLEND_REQUEST_SUPPLY,
    BLEND_REQUEST_WITHDRAW,
};
use crate::policy;
use crate::policy::{Verdict, BLEND_HEALTHY_STATUS_MAX, MAX_REFERENCE_BLOCK_AGE};
use crate::primitives::{Address, EventId};
use crate::storage::{Instance, StorageView};
use vstd::prelude::*;

verus! {

/// What an envelope asks for.
///
/// No amount and no direction cross the wire: the circuit only triggers a tick.
/// All sizing happens against the pool's own state.
#[derive(Clone, Copy, Debug, PartialEq, Eq, Structural)]
pub enum RebalanceAction {
    /// Bring the liquid share of the pool's USDC back to the target.
    Rebalance,
    /// Route the emissions to the treasury and donate the interest to the pool.
    HarvestYield,
}

/// The entries that a money-moving transaction writes when it completes.
#[derive(Clone, Copy, Debug, PartialEq, Eq, Structural)]
pub struct Writes {
    pub principal_supplied: Option<i128>,
    pub last_rebalance_ts: Option<u64>,
    pub last_harvest_ts: Option<u64>,
}

/// Where a transaction stands: which reply it is waiting for, and what it has
/// learned so far.
#[derive(Clone, Copy, Debug, PartialEq, Eq, Structural)]
pub enum Stage {
    /// The verification contract is looking at the envelope. `action` is what
    /// the payload asks for, if it can be read.
    Verification { now: u64, action: Option<RebalanceAction> },
    /// The Blend pool is telling its status.
    RebalanceHealth { now: u64 },
    /// The blended pool is telling its balances.
    RebalanceSnapshot { now: u64 },
    /// `amount` is being supplied to Blend.
    RebalanceSupplied { now: u64, amount: i128, liquid_after: i128, delegated_after: i128 },
    /// The emissions are being claimed.
    HarvestClaim { now: u64 },
    HarvestHealth { now: u64, blnd_routed: i128 },
    /// The handler's USDC balance before the withdraw is being read.
    HarvestBefore { now: u64, blnd_routed: i128 },
    /// The whole position is being withdrawn.
    HarvestWithdraw { now: u64, blnd_routed: i128, before: i128 },
    /// The handler's USDC balance after the withdraw is being read.
    HarvestAfter { now: u64, blnd_routed: i128, before: i128 },
    UnwindBefore,
    UnwindAfter { before: i128 },
    ManualHealth { amount: i128 },
    /// `amount` is being supplied to Blend on the admin's word.
    ManualSupplied { amount: i128 },
    /// The blended pool is telling its balances after a manual supply.
    ManualToSnapshot { amount: i128, principal_after: i128 },
    /// The blended pool is telling its balances after a manual withdraw.
    ManualFromSnapshot { amount: i128, principal_after: i128 },
    /// Everything has moved; the handler's USDC balance is being read.
    Residue { writes: Writes },
}

/// A transaction that waits for the host. `event_id` is there when an envelope
/// started it.
#[derive(Clone, Copy, Debug, PartialEq, Eq, Structural)]
pub struct Pending {
    pub event_id: Option<EventId>,
    pub stage: Stage,
}

/// What the host has to do next.
#[derive(Debug, PartialEq, Eq)]
pub enum Step {
    /// Perform `calls` in order and resume with the reply of the last one.
    Perform { calls: Vec<HostCall>, then: Pending },
    /// Perform `calls` in order; the transaction has succeeded.
    Complete { calls: Vec<HostCall> },
    /// Roll everything back; the transaction has failed.
    Fail(Failure),
}

/// What a [`Step`] says.
#[verifier::ext_equal]
pub enum StepView {
    Perform { calls: Seq<HostCall>, then: Pending },
    Complete { calls: Seq<HostCall> },
    Fail(Failure),
}

impl View for Step {
    type V = StepView;

    open spec fn view(&self) -> StepView {
        match *self {
            Step::Perform { calls, then } => StepView::Perform { calls: calls@, then },
            Step::Complete { calls } => StepView::Complete { calls: calls@ },
            Step::Fail(failure) => StepView::Fail(failure),
        }
    }
}

/// The handler: its own address and what it keeps in storage.
#[verifier::ext_equal]
pub struct HandlerView {
    pub address: Address,
    pub storage: StorageView,
}

impl HandlerView {
    pub open spec fn instance(self) -> Instance {
        self.storage.instance
    }

    /// The constructor has run: every entry that is read without a default is
    /// there.
    pub open spec fn constructed(self) -> bool {
        &&& self.instance().initialized()
        &&& self.storage.version is Some
    }

    /// The same handler with other instance entries.
    pub open spec fn with_instance(self, instance: Instance) -> HandlerView {
        HandlerView { storage: StorageView { instance, ..self.storage }, ..self }
    }

    pub open spec fn principal(self) -> i128 {
        self.instance().principal_supplied_or_default()
    }

    /// The USDC balance of the handler itself.
    pub open spec fn own_balance(self) -> HostCall {
        HostCall::Balance { token: self.instance().usdc->0, holder: self.address }
    }

    pub open spec fn health_query(self) -> HostCall {
        HostCall::GetConfig { blend_pool: self.instance().blend_pool->0 }
    }

    pub open spec fn snapshot_query(self) -> HostCall {
        HostCall::QueryDelegateState { blended_pool: self.instance().blended_pool->0 }
    }

    /// Leave to let `recipient` pull `amount` USDC from the handler.
    pub open spec fn transfer_leave(self, recipient: Address, amount: int) -> HostCall {
        HostCall::AuthorizeTransfer {
            token: self.instance().usdc->0,
            from: self.address,
            to: recipient,
            amount: amount as i128,
        }
    }

    pub open spec fn usdc_request(self, request_type: u32, amount: int) -> BlendRequest {
        BlendRequest {
            request_type,
            address: self.instance().usdc->0,
            amount: amount as i128,
        }
    }

    /// One request to the Blend pool.
    pub open spec fn submit_call(self, request_type: u32, amount: int) -> HostCall {
        HostCall::Submit {
            blend_pool: self.instance().blend_pool->0,
            account: self.address,
            request: self.usdc_request(request_type, amount),
        }
    }

    /// USDC from the handler into the Blend position.
    pub open spec fn supply_calls(self, amount: int) -> Seq<HostCall> {
        seq![
            self.transfer_leave(self.instance().blend_pool->0, amount),
            self.submit_call(BLEND_REQUEST_SUPPLY, amount),
        ]
    }

    /// USDC from the Blend position to the handler.
    pub open spec fn withdraw_call(self, amount: int) -> HostCall {
        self.submit_call(BLEND_REQUEST_WITHDRAW, amount)
    }

    /// The same for the whole position, with a failure that can be recovered
    /// from.
    pub open spec fn try_withdraw_all_call(self) -> HostCall {
        HostCall::TrySubmit {
            blend_pool: self.instance().blend_pool->0,
            account: self.address,
            request: self.usdc_request(BLEND_REQUEST_WITHDRAW, i128::MAX as int),
        }
    }

    /// USDC from the blended pool to the handler.
    pub open spec fn take_call(self, amount: int) -> HostCall {
        HostCall::WithdrawToDelegate {
            blended_pool: self.instance().blended_pool->0,
            token: self.instance().usdc->0,
            amount: amount as i128,
        }
    }

    /// USDC from the handler back into the blended pool's liquid balance.
    pub open spec fn deposit_calls(self, amount: int) -> Seq<HostCall> {
        seq![
            self.transfer_leave(self.instance().blended_pool->0, amount),
            HostCall::DepositFromDelegate {
                blended_pool: self.instance().blended_pool->0,
                token: self.instance().usdc->0,
                amount: amount as i128,
            },
        ]
    }

    /// USDC from the handler to the pool's liquidity providers.
    pub open spec fn donate_calls(self, amount: int) -> Seq<HostCall> {
        seq![
            self.transfer_leave(self.instance().blended_pool->0, amount),
            HostCall::Donate {
                blended_pool: self.instance().blended_pool->0,
                token: self.instance().usdc->0,
                amount: amount as i128,
            },
        ]
    }

    /// The pool's liquid USDC in a snapshot. USDC is token A if it sorts before
    /// XLM.
    pub open spec fn liquid_of(self, state: DelegateState) -> i128 {
        if self.instance().usdc->0.sorts_before(self.instance().xlm->0) {
            state.liquid_a
        } else {
            state.liquid_b
        }
    }

    pub open spec fn delegated_of(self, state: DelegateState) -> i128 {
        if self.instance().usdc->0.sorts_before(self.instance().xlm->0) {
            state.delegated_a
        } else {
            state.delegated_b
        }
    }

    /// The pool's liquid and delegated USDC in a snapshot.
    pub open spec fn total_of(self, state: DelegateState) -> i128 {
        if self.instance().usdc->0.sorts_before(self.instance().xlm->0) {
            state.total_a
        } else {
            state.total_b
        }
    }
}

pub open spec fn no_writes() -> Writes {
    Writes { principal_supplied: None, last_rebalance_ts: None, last_harvest_ts: None }
}

impl Writes {
    /// Nothing is written.
    pub fn none() -> (r: Writes)
        ensures
            r == no_writes(),
    {
        Writes { principal_supplied: None, last_rebalance_ts: None, last_harvest_ts: None }
    }
}

/// `instance` after `writes`.
pub open spec fn written(instance: Instance, writes: Writes) -> Instance {
    Instance {
        principal_supplied: if writes.principal_supplied is Some {
            writes.principal_supplied
        } else {
            instance.principal_supplied
        },
        last_rebalance_ts: if writes.last_rebalance_ts is Some {
            writes.last_rebalance_ts
        } else {
            instance.last_rebalance_ts
        },
        last_harvest_ts: if writes.last_harvest_ts is Some {
            writes.last_harvest_ts
        } else {
            instance.last_harvest_ts
        },
        ..instance
    }
}

/// What the last step of an envelope's transaction adds.
pub open spec fn closing_calls(event_id: Option<EventId>) -> Seq<HostCall> {
    match event_id {
        Some(id) => seq![
            HostCall::ExtendEventTtl { event_id: id },
            HostCall::ExtendInstanceTtl,
            HostCall::Publish(Event::Verified { event_id: id }),
        ],
        None => seq![],
    }
}

/// The transaction succeeds: the writes take effect, and the envelope, if there
/// is one, counts as seen.
pub open spec fn completed(
    h: HandlerView,
    event_id: Option<EventId>,
    writes: Writes,
    calls: Seq<HostCall>,
) -> (HandlerView, StepView) {
    (
        HandlerView {
            storage: StorageView {
                instance: written(h.instance(), writes),
                seen: match event_id {
                    Some(id) => h.storage.seen.insert(id),
                    None => h.storage.seen,
                },
                ..h.storage
            },
            ..h
        },
        StepView::Complete { calls: calls + closing_calls(event_id) },
    )
}

/// The transaction asks for `calls` and waits; the handler keeps nothing yet.
pub open spec fn waiting(
    event_id: Option<EventId>,
    calls: Seq<HostCall>,
    stage: Stage,
) -> StepView {
    StepView::Perform { calls, then: Pending { event_id, stage } }
}

pub open spec fn refused(e: HandlerError) -> StepView {
    StepView::Fail(Failure::Handler(e))
}

pub open spec fn rejected(r: Rejection) -> StepView {
    StepView::Fail(Failure::Rejected(r))
}

/// Everything has moved: perform `calls` and read the handler's own balance.
pub open spec fn settling(
    h: HandlerView,
    event_id: Option<EventId>,
    calls: Seq<HostCall>,
    writes: Writes,
) -> StepView {
    waiting(event_id, calls.push(h.own_balance()), Stage::Residue { writes })
}

/// A rebalance begins with the status of the Blend pool.
pub open spec fn rebalance_started(
    h: HandlerView,
    event_id: Option<EventId>,
    now: u64,
) -> StepView {
    waiting(event_id, seq![h.health_query()], Stage::RebalanceHealth { now })
}

/// A harvest begins with the emissions, which go straight to the treasury.
pub open spec fn harvest_started(h: HandlerView, event_id: Option<EventId>, now: u64) -> StepView {
    waiting(
        event_id,
        seq![
            HostCall::Claim {
                blend_pool: h.instance().blend_pool->0,
                from: h.address,
                reserve_token_id: h.instance().usdc_reserve_token_id->0,
                to: h.instance().blnd_treasury->0,
            },
        ],
        Stage::HarvestClaim { now },
    )
}

/// What follows the verification contract's answer.
pub open spec fn after_verification(
    h: HandlerView,
    event_id: Option<EventId>,
    now: u64,
    action: Option<RebalanceAction>,
    outcome: VerifyOutcome,
) -> StepView {
    match outcome {
        VerifyOutcome::Unreadable => refused(HandlerError::UnknownVerificationError),
        VerifyOutcome::Refused(e) => refused(e.as_handler_error()),
        VerifyOutcome::InvocationFailed => refused(HandlerError::OtherInvocationError),
        VerifyOutcome::Verified => match action {
            None => refused(HandlerError::InvalidEnvelope),
            Some(RebalanceAction::Rebalance) => rebalance_started(h, event_id, now),
            Some(RebalanceAction::HarvestYield) => harvest_started(h, event_id, now),
        },
    }
}

pub open spec fn rebalance_event(
    direction: Symbol,
    amount: int,
    liquid_after: int,
    delegated_after: int,
    principal_after: int,
) -> HostCall {
    HostCall::Publish(
        Event::RebalanceExecuted(
            RebalanceExecuted {
                direction,
                amount: amount as i128,
                liquid_after: liquid_after as i128,
                delegated_after: delegated_after as i128,
                principal_after: principal_after as i128,
            },
        ),
    )
}

/// What a rebalance does once it knows the pool's balances.
pub open spec fn after_snapshot(
    h: HandlerView,
    event_id: Option<EventId>,
    now: u64,
    state: DelegateState,
) -> (HandlerView, StepView) {
    let liquid = h.liquid_of(state) as int;
    let delegated = h.total_of(state) - liquid;
    match policy::verdict_of(h.instance(), now as int, liquid, h.total_of(state) as int) {
        Err(e) => (h, refused(e)),
        Ok(Verdict::Skip) => completed(h, event_id, no_writes(), seq![]),
        Ok(Verdict::Hold) => (h, settling(h, event_id, seq![], no_writes())),
        Ok(Verdict::ToBlend(amount)) => (
            h,
            waiting(
                event_id,
                seq![h.take_call(amount as int)] + h.supply_calls(amount as int),
                Stage::RebalanceSupplied {
                    now,
                    amount,
                    liquid_after: (liquid - amount) as i128,
                    delegated_after: (delegated + amount) as i128,
                },
            ),
        ),
        Ok(Verdict::FromBlend(amount)) => (
            h,
            settling(
                h,
                event_id,
                seq![h.withdraw_call(amount as int)] + h.deposit_calls(amount as int) + seq![
                    rebalance_event(
                        Symbol::FromBlend,
                        amount as int,
                        liquid + amount,
                        delegated - amount,
                        h.principal() - amount,
                    ),
                ],
                Writes {
                    principal_supplied: Some((h.principal() - amount) as i128),
                    last_rebalance_ts: Some(now),
                    last_harvest_ts: None,
                },
            ),
        ),
    }
}

/// What a rebalance does once Blend has taken the supply.
pub open spec fn after_rebalance_supply(
    h: HandlerView,
    event_id: Option<EventId>,
    now: u64,
    amount: i128,
    liquid_after: i128,
    delegated_after: i128,
) -> StepView {
    if policy::is_i128(h.principal() + amount) {
        settling(
            h,
            event_id,
            seq![
                rebalance_event(
                    Symbol::ToBlend,
                    amount as int,
                    liquid_after as int,
                    delegated_after as int,
                    h.principal() + amount,
                ),
            ],
            Writes {
                principal_supplied: Some((h.principal() + amount) as i128),
                last_rebalance_ts: Some(now),
                last_harvest_ts: None,
            },
        )
    } else {
        refused(HandlerError::OtherInvocationError)
    }
}

/// The end of every harvest: `calls` moved what there was to move.
pub open spec fn harvest_ending(
    h: HandlerView,
    event_id: Option<EventId>,
    calls: Seq<HostCall>,
    now: u64,
    blnd_routed: i128,
    interest_donated: int,
    principal_after: int,
    new_principal: Option<i128>,
) -> StepView {
    settling(
        h,
        event_id,
        calls.push(
            HostCall::Publish(
                Event::HarvestCompleted(
                    HarvestCompleted {
                        interest_donated: interest_donated as i128,
                        blnd_routed,
                        principal_after: principal_after as i128,
                    },
                ),
            ),
        ),
        Writes {
            principal_supplied: new_principal,
            last_rebalance_ts: None,
            last_harvest_ts: Some(now),
        },
    )
}

/// A harvest touches the position only if there is one and Blend is healthy.
pub open spec fn after_harvest_health(
    h: HandlerView,
    event_id: Option<EventId>,
    now: u64,
    blnd_routed: i128,
    status: u32,
) -> StepView {
    if h.principal() > 0 && status <= BLEND_HEALTHY_STATUS_MAX {
        waiting(event_id, seq![h.own_balance()], Stage::HarvestBefore { now, blnd_routed })
    } else {
        harvest_ending(h, event_id, seq![], now, blnd_routed, 0, h.principal() as int, None)
    }
}

/// A withdraw that Blend refuses does not undo the emissions claim.
pub open spec fn after_harvest_withdraw(
    h: HandlerView,
    event_id: Option<EventId>,
    now: u64,
    blnd_routed: i128,
    before: i128,
    accepted: bool,
) -> StepView {
    if accepted {
        waiting(event_id, seq![h.own_balance()], Stage::HarvestAfter { now, blnd_routed, before })
    } else {
        harvest_ending(
            h,
            event_id,
            seq![HostCall::Publish(Event::HarvestPartial(HarvestPartial { blnd_routed }))],
            now,
            blnd_routed,
            0,
            h.principal() as int,
            None,
        )
    }
}

/// What of a redeemed position goes back into Blend.
pub open spec fn resupplied(principal: int, redeemed: int) -> int {
    policy::min_int(principal, redeemed)
}

/// What of a redeemed position is interest.
pub open spec fn interest_of(principal: int, redeemed: int) -> int {
    policy::clamped_difference(redeemed, resupplied(principal, redeemed))
}

/// The warning that Blend redeemed less than the principal.
pub open spec fn bad_debt_event(principal: int, redeemed: int) -> HostCall {
    HostCall::Publish(
        Event::BadDebtDetected(
            BadDebtDetected {
                previous_principal: principal as i128,
                redeemable: redeemed as i128,
                shortfall: (principal - redeemed) as i128,
            },
        ),
    )
}

/// What a harvest does with the position that it redeemed: the principal goes
/// back, the interest is donated, and a shortfall is reported.
pub open spec fn harvest_moves(h: HandlerView, redeemed: int) -> Seq<HostCall> {
    let principal = h.principal() as int;
    let supply = resupplied(principal, redeemed);
    let interest = interest_of(principal, redeemed);
    (if supply > 0 {
        h.supply_calls(supply)
    } else {
        seq![]
    }) + (if redeemed < principal {
        seq![bad_debt_event(principal, redeemed)]
    } else {
        seq![]
    }) + (if interest > 0 {
        h.donate_calls(interest)
    } else {
        seq![]
    })
}

pub open spec fn after_harvest_redeem(
    h: HandlerView,
    event_id: Option<EventId>,
    now: u64,
    blnd_routed: i128,
    before: i128,
    after: i128,
) -> StepView {
    let redeemed = policy::clamped_difference(after as int, before as int);
    let principal = h.principal() as int;
    let supply = resupplied(principal, redeemed);
    let interest = interest_of(principal, redeemed);
    if redeemed < principal && !policy::is_i128(principal - redeemed) {
        rejected(Rejection::ShortfallOverflow)
    } else {
        harvest_ending(
            h,
            event_id,
            harvest_moves(h, redeemed),
            now,
            blnd_routed,
            if interest > 0 {
                interest
            } else {
                0
            },
            supply,
            Some(supply as i128),
        )
    }
}

/// What an unwind does with the position that it redeemed: up to the principal
/// goes back to the pool's liquid balance, the rest is donated.
pub open spec fn unwind_moves(h: HandlerView, redeemed: int) -> Seq<HostCall> {
    let principal = h.principal() as int;
    let deposit = policy::min_int(redeemed, principal);
    let excess = policy::clamped_difference(redeemed, principal);
    (if redeemed > 0 && deposit > 0 {
        h.deposit_calls(deposit)
    } else {
        seq![]
    }) + (if redeemed > 0 && excess > 0 {
        h.donate_calls(excess)
    } else {
        seq![]
    })
}

/// The end of every unwind.
pub open spec fn unwind_ending(
    h: HandlerView,
    event_id: Option<EventId>,
    calls: Seq<HostCall>,
    redeemed: int,
) -> StepView {
    settling(
        h,
        event_id,
        calls.push(
            HostCall::Publish(
                Event::EmergencyUnwound(
                    EmergencyUnwound {
                        redeemed: redeemed as i128,
                        principal_before: h.principal(),
                    },
                ),
            ),
        ),
        Writes { principal_supplied: Some(0), last_rebalance_ts: None, last_harvest_ts: None },
    )
}

/// An unwind begins with the handler's own balance, unless there is no position.
pub open spec fn unwind_started(h: HandlerView) -> StepView {
    if h.principal() > 0 {
        waiting(None, seq![h.own_balance()], Stage::UnwindBefore)
    } else {
        unwind_ending(h, None, seq![], 0)
    }
}

/// A manual supply begins with the status of the Blend pool.
pub open spec fn manual_to_blend_started(h: HandlerView, amount: i128) -> StepView {
    if amount <= 0 {
        rejected(Rejection::AmountNotPositive)
    } else if h.instance().paused_or_default() {
        StepView::Fail(Failure::Local(LocalError::Paused))
    } else {
        waiting(None, seq![h.health_query()], Stage::ManualHealth { amount })
    }
}

pub open spec fn after_manual_health(
    h: HandlerView,
    event_id: Option<EventId>,
    amount: i128,
    status: u32,
) -> StepView {
    if status > BLEND_HEALTHY_STATUS_MAX {
        rejected(Rejection::BlendUnhealthy)
    } else {
        waiting(
            event_id,
            seq![h.take_call(amount as int)] + h.supply_calls(amount as int),
            Stage::ManualSupplied { amount },
        )
    }
}

pub open spec fn after_manual_supply(
    h: HandlerView,
    event_id: Option<EventId>,
    amount: i128,
) -> StepView {
    if policy::is_i128(h.principal() + amount) {
        waiting(
            event_id,
            seq![h.snapshot_query()],
            Stage::ManualToSnapshot { amount, principal_after: (h.principal() + amount) as i128 },
        )
    } else {
        rejected(Rejection::PrincipalOverflow)
    }
}

/// A manual withdraw moves at most the tracked principal.
pub open spec fn manual_from_blend_started(h: HandlerView, amount: i128) -> StepView {
    if amount <= 0 {
        rejected(Rejection::AmountNotPositive)
    } else if h.instance().paused_or_default() {
        StepView::Fail(Failure::Local(LocalError::Paused))
    } else if amount > h.principal() {
        rejected(Rejection::AmountExceedsPrincipal)
    } else {
        waiting(
            None,
            seq![h.withdraw_call(amount as int)] + h.deposit_calls(amount as int) + seq![
                h.snapshot_query(),
            ],
            Stage::ManualFromSnapshot {
                amount,
                principal_after: (h.principal() - amount) as i128,
            },
        )
    }
}

/// The end of every manual move.
pub open spec fn manual_ending(
    h: HandlerView,
    event_id: Option<EventId>,
    direction: Symbol,
    amount: i128,
    principal_after: i128,
    state: DelegateState,
) -> StepView {
    settling(
        h,
        event_id,
        seq![
            rebalance_event(
                direction,
                amount as int,
                h.liquid_of(state) as int,
                h.delegated_of(state) as int,
                principal_after as int,
            ),
        ],
        Writes {
            principal_supplied: Some(principal_after),
            last_rebalance_ts: None,
            last_harvest_ts: None,
        },
    )
}

/// The transaction succeeds only if the handler holds no USDC.
pub open spec fn after_residue(
    h: HandlerView,
    event_id: Option<EventId>,
    writes: Writes,
    balance: i128,
) -> (HandlerView, StepView) {
    if balance == 0 {
        completed(h, event_id, writes, seq![HostCall::ExtendInstanceTtl])
    } else {
        (h, StepView::Fail(Failure::Local(LocalError::UsdcLeak)))
    }
}

/// What a call that ends at once returns.
pub open spec fn calls_of(r: Result<Vec<HostCall>, Failure>) -> Result<Seq<HostCall>, Failure> {
    match r {
        Ok(calls) => Ok(calls@),
        Err(f) => Err(f),
    }
}

/// An entrypoint of the admin: without the admin's word nothing happens, a
/// refusal changes nothing either, and otherwise the handler becomes `changed`
/// and asks for `calls`.
pub open spec fn admin_outcome(
    h: HandlerView,
    auths: Seq<Address>,
    refusal: Option<Failure>,
    changed: HandlerView,
    calls: Seq<HostCall>,
) -> (HandlerView, Result<Seq<HostCall>, Failure>) {
    if !auths.contains(h.instance().admin->0) {
        (h, Err(Failure::Unauthorized))
    } else {
        match refusal {
            Some(f) => (h, Err(f)),
            None => (changed, Ok(calls)),
        }
    }
}

/// `f` if `condition` holds.
pub open spec fn refusal_if(condition: bool, f: Failure) -> Option<Failure> {
    if condition {
        Some(f)
    } else {
        None
    }
}

/// The admin proposes a successor and stays in office.
pub open spec fn admin_proposed(h: HandlerView, auths: Seq<Address>, new_admin: Address) -> (
    HandlerView,
    Result<Seq<HostCall>, Failure>,
) {
    admin_outcome(
        h,
        auths,
        None,
        h.with_instance(Instance { pending_admin: Some(new_admin), ..h.instance() }),
        seq![
            HostCall::Publish(
                Event::AdminProposed { old_admin: h.instance().admin->0, new_admin },
            ),
        ],
    )
}

/// The proposed successor, and no one else, takes office.
pub open spec fn admin_accepted(h: HandlerView, auths: Seq<Address>) -> (
    HandlerView,
    Result<Seq<HostCall>, Failure>,
) {
    match h.instance().pending_admin {
        None => (h, Err(Failure::Rejected(Rejection::NoPendingAdmin))),
        Some(new_admin) => if !auths.contains(new_admin) {
            (h, Err(Failure::Unauthorized))
        } else {
            (
                h.with_instance(
                    Instance { admin: Some(new_admin), pending_admin: None, ..h.instance() },
                ),
                Ok(seq![HostCall::Publish(Event::AdminAccepted { new_admin })]),
            )
        },
    }
}

/// What a change of a numeric knob tells the world.
pub open spec fn config_notice(field: Symbol, value: int) -> Seq<HostCall> {
    seq![
        HostCall::Publish(Event::ConfigUpdated(ConfigUpdated { field, value: value as i128 })),
        HostCall::ExtendInstanceTtl,
    ]
}

/// What a pause or its end tells the world.
pub open spec fn pause_notice(paused: bool) -> Seq<HostCall> {
    seq![
        HostCall::Publish(Event::PauseToggled(PauseToggled { paused })),
        HostCall::ExtendInstanceTtl,
    ]
}

/// A step that the admin alone may start.
pub open spec fn admin_started(h: HandlerView, auths: Seq<Address>, step: StepView) -> StepView {
    if !auths.contains(h.instance().admin->0) {
        StepView::Fail(Failure::Unauthorized)
    } else {
        step
    }
}

/// A reference block is acceptable if it is not in the future and not older
/// than the limit.
pub open spec fn reference_block_ok(sequence: u32, reference_block: u32) -> bool {
    reference_block <= sequence <= reference_block + MAX_REFERENCE_BLOCK_AGE
}

/// What happens to an envelope that comes in: the handler must not be paused,
/// the bytes must be an envelope that was not seen before, and the signatures
/// must refer to a recent ledger. The verification contract then judges the
/// very bytes that came in.
pub open spec fn verify_started(
    h: HandlerView,
    ledger: Ledger,
    envelope_bytes: Vec<u8>,
    sig_data: Ed25519SignatureData,
) -> StepView {
    if h.instance().paused_or_default() {
        StepView::Fail(Failure::Local(LocalError::Paused))
    } else {
        match envelope::envelope_of(envelope_bytes@) {
            None => refused(HandlerError::InvalidEnvelope),
            Some(envelope) => if h.storage.seen.contains(envelope.event_id) {
                refused(HandlerError::EventAlreadySeen)
            } else if !reference_block_ok(ledger.sequence, sig_data.reference_block) {
                refused(HandlerError::InvalidReferenceBlock)
            } else {
                waiting(
                    Some(envelope.event_id),
                    seq![
                        HostCall::Verify {
                            contract: h.instance().verification_contract->0,
                            envelope_bytes,
                            signatures: sig_data.signatures,
                            signers: sig_data.signers,
                            reference_block: sig_data.reference_block,
                        },
                    ],
                    Stage::Verification {
                        now: ledger.timestamp,
                        action: envelope::action_of(envelope.payload),
                    },
                )
            },
        }
    }
}

/// What the handler keeps, and what it does next, when `reply` comes back to a
/// transaction that stands at `pending`. A reply that does not belong to the
/// stage fails the transaction.
pub open spec fn resumed(h: HandlerView, pending: Pending, reply: Reply) -> (
    HandlerView,
    StepView,
) {
    let id = pending.event_id;
    match (pending.stage, reply) {
        (Stage::Verification { now, action }, Reply::Verification(outcome)) => (
            h,
            after_verification(h, id, now, action, outcome),
        ),
        (Stage::RebalanceHealth { now }, Reply::Config(config)) => if config.status
            > BLEND_HEALTHY_STATUS_MAX {
            completed(h, id, no_writes(), seq![])
        } else {
            (h, waiting(id, seq![h.snapshot_query()], Stage::RebalanceSnapshot { now }))
        },
        (Stage::RebalanceSnapshot { now }, Reply::Delegate(state)) => after_snapshot(
            h,
            id,
            now,
            state,
        ),
        (
            Stage::RebalanceSupplied { now, amount, liquid_after, delegated_after },
            Reply::Performed,
        ) => (h, after_rebalance_supply(h, id, now, amount, liquid_after, delegated_after)),
        (Stage::HarvestClaim { now }, Reply::Amount(blnd_routed)) => (
            h,
            waiting(id, seq![h.health_query()], Stage::HarvestHealth { now, blnd_routed }),
        ),
        (Stage::HarvestHealth { now, blnd_routed }, Reply::Config(config)) => (
            h,
            after_harvest_health(h, id, now, blnd_routed, config.status),
        ),
        (Stage::HarvestBefore { now, blnd_routed }, Reply::Amount(before)) => (
            h,
            waiting(
                id,
                seq![h.try_withdraw_all_call()],
                Stage::HarvestWithdraw { now, blnd_routed, before },
            ),
        ),
        (Stage::HarvestWithdraw { now, blnd_routed, before }, Reply::Submitted(accepted)) => (
            h,
            after_harvest_withdraw(h, id, now, blnd_routed, before, accepted),
        ),
        (Stage::HarvestAfter { now, blnd_routed, before }, Reply::Amount(after)) => (
            h,
            after_harvest_redeem(h, id, now, blnd_routed, before, after),
        ),
        (Stage::UnwindBefore, Reply::Amount(before)) => (
            h,
            waiting(
                id,
                seq![h.withdraw_call(i128::MAX as int), h.own_balance()],
                Stage::UnwindAfter { before },
            ),
        ),
        (Stage::UnwindAfter { before }, Reply::Amount(after)) => {
            let redeemed = policy::clamped_difference(after as int, before as int);
            (h, unwind_ending(h, id, unwind_moves(h, redeemed), redeemed))
        },
        (Stage::ManualHealth { amount }, Reply::Config(config)) => (
            h,
            after_manual_health(h, id, amount, config.status),
        ),
        (Stage::ManualSupplied { amount }, Reply::Performed) => (
            h,
            after_manual_supply(h, id, amount),
        ),
        (Stage::ManualToSnapshot { amount, principal_after }, Reply::Delegate(state)) => (
            h,
            manual_ending(h, id, Symbol::ToBlend, amount, principal_after, state),
        ),
        (Stage::ManualFromSnapshot { amount, principal_after }, Reply::Delegate(state)) => (
            h,
            manual_ending(h, id, Symbol::FromBlend, amount, principal_after, state),
        ),
        (Stage::Residue { writes }, Reply::Amount(balance)) => after_residue(
            h,
            id,
            writes,
            balance,
        ),
        _ => (h, StepView::Fail(Failure::HostTrap)),
    }
}

/// A step is seen as what it says, and a call that ends at once as its calls or
/// its failure.
pub proof fn law_step_view(
    calls: Vec<HostCall>,
    then: Pending,
    failure: Failure,
    r: Result<Vec<HostCall>, Failure>,
)
    ensures
        (Step::Perform { calls, then })@ == (StepView::Perform { calls: calls@, then }),
        (Step::Complete { calls })@ == (StepView::Complete { calls: calls@ }),
        Step::Fail(failure)@ == StepView::Fail(failure),
        r matches Ok(calls) ==> calls_of(r) == Ok::<Seq<HostCall>, Failure>(calls@),
        r matches Err(f) ==> calls_of(r) == Err::<Seq<HostCall>, Failure>(f),
{
}

} // verus!
