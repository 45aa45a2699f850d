//! The steps of the handler's transactions, and `resume`, which takes them.
use crate::contract::AutomationHandler;
use crate::error::{Failure, HandlerError, LocalError, Rejection};
use crate::events::{
    BadDebtDetected, EmergencyUnwound, Event, HarvestCompleted, HarvestPartial, RebalanceExecuted,
    Symbol, DIRECTION_FROM_BLEND, DIRECTION_TO_BLEND,
};
use crate::execution;
use crate::execution::{Pending, RebalanceAction, Stage, Step, Writes};
use crate::externals::{
    BlendRequest, DelegateState, HostCall, Ledger, Reply, VerifyOutcome, BLEND_REQUEST_SUPPLY,
    BLEND_REQUEST_WITHDRAW,
};
use crate::policy;
use crate::policy::{Verdict, BLEND_HEALTHY_STATUS_MAX};
use crate::primitives::{Address, EventId};
use crate::storage;
use vstd::prelude::*;

verus! {

/// A step that waits at `stage`.
pub(crate) fn wait(calls: Vec<HostCall>, event_id: Option<EventId>, stage: Stage) -> (r: Step)
    ensures
        r@ == execution::waiting(event_id, calls@, stage),
{
    Step::Perform { calls, then: Pending { event_id, stage } }
}

pub(crate) fn refuse(e: HandlerError) -> (r: Step)
    ensures
        r@ == execution::refused(e),
{
    Step::Fail(Failure::Handler(e))
}

pub(crate) fn reject(why: Rejection) -> (r: Step)
    ensures
        r@ == execution::rejected(why),
{
    Step::Fail(Failure::Rejected(why))
}

impl AutomationHandler {
    /// Pre-authorize the transfer of `amount` USDC that `recipient` pulls from
    /// the handler in the next call. The handler's own authorization covers
    /// only the calls that it makes itself, not one nested inside them.
    fn authorize_handler_transfer(
        &self,
        calls: &mut Vec<HostCall>,
        recipient: Address,
        amount: i128,
    )
        requires
            self@.instance().initialized(),
        ensures
            final(calls)@ == old(calls)@.push(self@.transfer_leave(recipient, amount as int)),
    {
        calls.push(
            HostCall::AuthorizeTransfer {
                token: storage::get_usdc(&self.storage),
                from: self.address,
                to: recipient,
                amount,
            },
        );
    }

    /// One request of `amount` USDC to the Blend pool. A supply pulls the
    /// tokens from the handler, so it is pre-authorized; no other request is.
    pub(crate) fn blend_submit(&self, calls: &mut Vec<HostCall>, request_type: u32, amount: i128)
        requires
            self@.instance().initialized(),
        ensures
            final(calls)@ == old(calls)@ + (if request_type == BLEND_REQUEST_SUPPLY {
                self@.supply_calls(amount as int)
            } else {
                seq![self@.submit_call(request_type, amount as int)]
            }),
    {
        let blend_pool = storage::get_blend_pool(&self.storage);
        if request_type == BLEND_REQUEST_SUPPLY {
            self.authorize_handler_transfer(calls, blend_pool, amount);
        }
        calls.push(
            HostCall::Submit {
                blend_pool,
                account: self.address,
                request: BlendRequest {
                    request_type,
                    address: storage::get_usdc(&self.storage),
                    amount,
                },
            },
        );
    }

    /// Return `amount` USDC to the blended pool's liquid balance.
    pub(crate) fn deposit_from_delegate(&self, calls: &mut Vec<HostCall>, amount: i128)
        requires
            self@.instance().initialized(),
        ensures
            final(calls)@ == old(calls)@ + self@.deposit_calls(amount as int),
    {
        let blended_pool = storage::get_blended_pool(&self.storage);
        self.authorize_handler_transfer(calls, blended_pool, amount);
        calls.push(
            HostCall::DepositFromDelegate {
                blended_pool,
                token: storage::get_usdc(&self.storage),
                amount,
            },
        );
    }

    /// Give `amount` USDC to the blended pool's liquidity providers.
    fn donate_to_pool(&self, calls: &mut Vec<HostCall>, amount: i128)
        requires
            self@.instance().initialized(),
        ensures
            final(calls)@ == old(calls)@ + self@.donate_calls(amount as int),
    {
        let blended_pool = storage::get_blended_pool(&self.storage);
        self.authorize_handler_transfer(calls, blended_pool, amount);
        calls.push(
            HostCall::Donate {
                blended_pool,
                token: storage::get_usdc(&self.storage),
                amount,
            },
        );
    }

    /// Take `amount` USDC out of the blended pool's liquid balance.
    fn withdraw_to_delegate(&self, calls: &mut Vec<HostCall>, amount: i128)
        requires
            self@.instance().initialized(),
        ensures
            final(calls)@ == old(calls)@.push(self@.take_call(amount as int)),
    {
        calls.push(
            HostCall::WithdrawToDelegate {
                blended_pool: storage::get_blended_pool(&self.storage),
                token: storage::get_usdc(&self.storage),
                amount,
            },
        );
    }

    /// Read the handler's own USDC balance.
    pub(crate) fn query_own_balance(&self, calls: &mut Vec<HostCall>)
        requires
            self@.instance().initialized(),
        ensures
            final(calls)@ == old(calls)@.push(self@.own_balance()),
    {
        calls.push(
            HostCall::Balance { token: storage::get_usdc(&self.storage), holder: self.address },
        );
    }

    /// Read the status of the Blend pool.
    pub(crate) fn query_health(&self, calls: &mut Vec<HostCall>)
        requires
            self@.instance().initialized(),
        ensures
            final(calls)@ == old(calls)@.push(self@.health_query()),
    {
        calls.push(HostCall::GetConfig { blend_pool: storage::get_blend_pool(&self.storage) });
    }

    /// Read the blended pool's balances.
    pub(crate) fn query_snapshot(&self, calls: &mut Vec<HostCall>)
        requires
            self@.instance().initialized(),
        ensures
            final(calls)@ == old(calls)@.push(self@.snapshot_query()),
    {
        calls.push(
            HostCall::QueryDelegateState {
                blended_pool: storage::get_blended_pool(&self.storage),
            },
        );
    }

    /// The end of every money-moving transaction: the handler must not hold any
    /// USDC. The balance is read after `calls`, and anything but zero rolls the
    /// transaction back.
    fn assert_no_usdc_residue(
        &self,
        calls: Vec<HostCall>,
        event_id: Option<EventId>,
        writes: Writes,
    ) -> (r: Step)
        requires
            self@.instance().initialized(),
        ensures
            r@ == execution::settling(self@, event_id, calls@, writes),
    {
        let mut calls = calls;
        self.query_own_balance(&mut calls);
        wait(calls, event_id, Stage::Residue { writes })
    }

    /// The transaction has succeeded: keep what it wrote, and remember the
    /// envelope that started it.
    fn complete(
        &mut self,
        event_id: Option<EventId>,
        writes: Writes,
        calls: Vec<HostCall>,
    ) -> (r: Step)
        ensures
            (final(self)@, r@) == execution::completed(
                old(self)@,
                event_id,
                writes,
                calls@,
            ),
    {
        let mut calls = calls;
        if let Some(value) = writes.principal_supplied {
            storage::set_principal_supplied(&mut self.storage, value);
        }
        if let Some(value) = writes.last_rebalance_ts {
            storage::set_last_rebalance_ts(&mut self.storage, value);
        }
        if let Some(value) = writes.last_harvest_ts {
            storage::set_last_harvest_ts(&mut self.storage, value);
        }
        if let Some(id) = event_id {
            storage::mark_event_seen(&mut self.storage, id);
            calls.push(HostCall::ExtendEventTtl { event_id: id });
            calls.push(HostCall::ExtendInstanceTtl);
            calls.push(HostCall::Publish(Event::Verified { event_id: id }));
        }
        Step::Complete { calls }
    }

    /// The pool's liquid USDC, delegated USDC and total USDC in a snapshot.
    fn usdc_side(&self, state: DelegateState) -> (r: (i128, i128, i128))
        requires
            self@.instance().initialized(),
        ensures
            r.0 == self@.liquid_of(state),
            r.1 == self@.delegated_of(state),
            r.2 == self@.total_of(state),
    {
        let usdc = storage::get_usdc(&self.storage);
        let xlm = storage::get_xlm(&self.storage);
        if usdc.precedes(&xlm) {
            (state.liquid_a, state.delegated_a, state.total_a)
        } else {
            (state.liquid_b, state.delegated_b, state.total_b)
        }
    }

    /// Begin a rebalance. If Blend is frozen or in setup, supply and withdraw
    /// would revert, so its status is read first.
    pub(crate) fn start_rebalance(&self, event_id: Option<EventId>, now: u64) -> (r: Step)
        requires
            self@.instance().initialized(),
        ensures
            r@ == execution::rebalance_started(self@, event_id, now),
    {
        let mut calls: Vec<HostCall> = Vec::new();
        self.query_health(&mut calls);
        wait(calls, event_id, Stage::RebalanceHealth { now })
    }

    /// An unhealthy Blend makes the rebalance a silent no-op that does not
    /// consume the cooldown.
    fn rebalance_on_health(&mut self, event_id: Option<EventId>, now: u64, status: u32) -> (r: Step)
        requires
            old(self)@.instance().initialized(),
        ensures
            (final(self)@, r@) == (if status > BLEND_HEALTHY_STATUS_MAX {
                execution::completed(
                    old(self)@,
                    event_id,
                    execution::no_writes(),
                    seq![],
                )
            } else {
                (
                    old(self)@,
                    execution::waiting(
                        event_id,
                        seq![old(self)@.snapshot_query()],
                        Stage::RebalanceSnapshot { now },
                    ),
                )
            }),
    {
        let mut calls: Vec<HostCall> = Vec::new();
        if status > BLEND_HEALTHY_STATUS_MAX {
            return self.complete(
                event_id,
                Writes::none(),
                calls,
            );
        }
        self.query_snapshot(&mut calls);
        wait(calls, event_id, Stage::RebalanceSnapshot { now })
    }

    /// The pool's balances are known: decide, and move what has to move.
    fn rebalance_on_snapshot(
        &mut self,
        event_id: Option<EventId>,
        now: u64,
        state: DelegateState,
    ) -> (r: Step)
        requires
            old(self)@.instance().initialized(),
        ensures
            (final(self)@, r@) == execution::after_snapshot(
                old(self)@,
                event_id,
                now,
                state,
            ),
    {
        let (liquid, _, total) = self.usdc_side(state);
        let mut calls: Vec<HostCall> = Vec::new();
        let verdict = match policy::decide(&self.storage, now, liquid, total) {
            Ok(verdict) => verdict,
            Err(e) => return refuse(e),
        };
        match verdict {
            Verdict::Skip => self.complete(event_id, Writes::none(), calls),
            Verdict::Hold => self.assert_no_usdc_residue(calls, event_id, Writes::none()),
            Verdict::ToBlend(amount) => {
                proof {
                    policy::lemma_to_blend_is_bounded(
                        self@.instance(),
                        now as int,
                        liquid,
                        total,
                        amount,
                    );
                }
                self.withdraw_to_delegate(&mut calls, amount);
                self.blend_submit(&mut calls, BLEND_REQUEST_SUPPLY, amount);
                wait(
                    calls,
                    event_id,
                    Stage::RebalanceSupplied {
                        now,
                        amount,
                        liquid_after: liquid - amount,
                        delegated_after: (total - liquid) + amount,
                    },
                )
            },
            Verdict::FromBlend(amount) => {
                proof {
                    policy::lemma_from_blend_is_bounded(
                        self@.instance(),
                        now as int,
                        liquid,
                        total,
                        amount,
                    );
                }
                let principal: i128 = storage::get_principal_supplied(&self.storage);
                let principal_after: i128 = principal - amount;
                self.blend_submit(&mut calls, BLEND_REQUEST_WITHDRAW, amount);
                self.deposit_from_delegate(&mut calls, amount);
                calls.push(
                    HostCall::Publish(
                        Event::RebalanceExecuted(
                            RebalanceExecuted::new(
                                DIRECTION_FROM_BLEND,
                                amount,
                                liquid + amount,
                                (total - liquid) - amount,
                                principal_after,
                            ),
                        ),
                    ),
                );
                self.assert_no_usdc_residue(
                    calls,
                    event_id,
                    Writes {
                        principal_supplied: Some(principal_after),
                        last_rebalance_ts: Some(now),
                        last_harvest_ts: None,
                    },
                )
            },
        }
    }

    /// Blend has taken the supply: the principal grows by it.
    fn rebalance_on_supply(
        &self,
        event_id: Option<EventId>,
        now: u64,
        amount: i128,
        liquid_after: i128,
        delegated_after: i128,
    ) -> (r: Step)
        requires
            self@.instance().initialized(),
        ensures
            r@ == execution::after_rebalance_supply(
                self@,
                event_id,
                now,
                amount,
                liquid_after,
                delegated_after,
            ),
    {
        let prev: i128 = storage::get_principal_supplied(&self.storage);
        let principal_after: i128 = match prev.checked_add(amount) {
            Some(value) => value,
            None => return refuse(HandlerError::OtherInvocationError),
        };
        let mut calls: Vec<HostCall> = Vec::new();
        calls.push(
            HostCall::Publish(
                Event::RebalanceExecuted(
                    RebalanceExecuted::new(
                        DIRECTION_TO_BLEND,
                        amount,
                        liquid_after,
                        delegated_after,
                        principal_after,
                    ),
                ),
            ),
        );
        self.assert_no_usdc_residue(
            calls,
            event_id,
            Writes {
                principal_supplied: Some(principal_after),
                last_rebalance_ts: Some(now),
                last_harvest_ts: None,
            },
        )
    }

    /// Begin a harvest. The emissions go straight to the treasury: the handler
    /// never holds them.
    pub(crate) fn start_harvest(&self, event_id: Option<EventId>, now: u64) -> (r: Step)
        requires
            self@.instance().initialized(),
        ensures
            r@ == execution::harvest_started(self@, event_id, now),
    {
        let mut calls: Vec<HostCall> = Vec::new();
        calls.push(
            HostCall::Claim {
                blend_pool: storage::get_blend_pool(&self.storage),
                from: self.address,
                reserve_token_id: storage::get_usdc_reserve_token_id(&self.storage),
                to: storage::get_blnd_treasury(&self.storage),
            },
        );
        wait(calls, event_id, Stage::HarvestClaim { now })
    }

    /// Report a harvest and end it.
    fn end_harvest(
        &self,
        event_id: Option<EventId>,
        calls: Vec<HostCall>,
        now: u64,
        report: HarvestCompleted,
        new_principal: Option<i128>,
    ) -> (r: Step)
        requires
            self@.instance().initialized(),
        ensures
            r@ == execution::harvest_ending(
                self@,
                event_id,
                calls@,
                now,
                report.blnd_routed,
                report.interest_donated as int,
                report.principal_after as int,
                new_principal,
            ),
    {
        let mut calls = calls;
        calls.push(HostCall::Publish(Event::HarvestCompleted(report)));
        self.assert_no_usdc_residue(
            calls,
            event_id,
            Writes {
                principal_supplied: new_principal,
                last_rebalance_ts: None,
                last_harvest_ts: Some(now),
            },
        )
    }

    /// The emissions are with the treasury, whatever the state of Blend; the
    /// position is touched only if Blend is healthy.
    fn harvest_on_health(
        &self,
        event_id: Option<EventId>,
        now: u64,
        blnd_routed: i128,
        status: u32,
    ) -> (r: Step)
        requires
            self@.instance().initialized(),
        ensures
            r@ == execution::after_harvest_health(self@, event_id, now, blnd_routed, status),
    {
        let principal: i128 = storage::get_principal_supplied(&self.storage);
        let mut calls: Vec<HostCall> = Vec::new();
        if principal > 0 && status <= BLEND_HEALTHY_STATUS_MAX {
            self.query_own_balance(&mut calls);
            wait(calls, event_id, Stage::HarvestBefore { now, blnd_routed })
        } else {
            self.end_harvest(
                event_id,
                calls,
                now,
                HarvestCompleted::new(0, blnd_routed, principal),
                None,
            )
        }
    }

    /// Withdraw the whole position. `i128::MAX` is Blend's word for everything
    /// that can be redeemed. The recoverable form of the call keeps a revert
    /// from undoing the emissions claim.
    fn harvest_withdraw(
        &self,
        event_id: Option<EventId>,
        now: u64,
        blnd_routed: i128,
        before: i128,
    ) -> (r: Step)
        requires
            self@.instance().initialized(),
        ensures
            r@ == execution::waiting(
                event_id,
                seq![self@.try_withdraw_all_call()],
                Stage::HarvestWithdraw { now, blnd_routed, before },
            ),
    {
        let mut calls: Vec<HostCall> = Vec::new();
        calls.push(
            HostCall::TrySubmit {
                blend_pool: storage::get_blend_pool(&self.storage),
                account: self.address,
                request: BlendRequest {
                    request_type: BLEND_REQUEST_WITHDRAW,
                    address: storage::get_usdc(&self.storage),
                    amount: i128::MAX,
                },
            },
        );
        wait(calls, event_id, Stage::HarvestWithdraw { now, blnd_routed, before })
    }

    fn harvest_on_withdraw(
        &self,
        event_id: Option<EventId>,
        now: u64,
        blnd_routed: i128,
        before: i128,
        accepted: bool,
    ) -> (r: Step)
        requires
            self@.instance().initialized(),
        ensures
            r@ == execution::after_harvest_withdraw(
                self@,
                event_id,
                now,
                blnd_routed,
                before,
                accepted,
            ),
    {
        let mut calls: Vec<HostCall> = Vec::new();
        if accepted {
            self.query_own_balance(&mut calls);
            wait(calls, event_id, Stage::HarvestAfter { now, blnd_routed, before })
        } else {
            let principal: i128 = storage::get_principal_supplied(&self.storage);
            calls.push(HostCall::Publish(Event::HarvestPartial(HarvestPartial::new(blnd_routed))));
            self.end_harvest(
                event_id,
                calls,
                now,
                HarvestCompleted::new(0, blnd_routed, principal),
                None,
            )
        }
    }

    /// The position is redeemed: supply the principal again, or all there is
    /// after a write-down, and donate the rest.
    fn harvest_on_redeem(
        &self,
        event_id: Option<EventId>,
        now: u64,
        blnd_routed: i128,
        before: i128,
        after: i128,
    ) -> (r: Step)
        requires
            self@.instance().initialized(),
        ensures
            r@ == execution::after_harvest_redeem(
                self@,
                event_id,
                now,
                blnd_routed,
                before,
                after,
            ),
    {
        let principal: i128 = storage::get_principal_supplied(&self.storage);
        let redeemed: i128 = policy::saturating_sub(after, before);
        let supply_amount: i128 = policy::min_amount(principal, redeemed);
        let mut calls: Vec<HostCall> = Vec::new();
        if supply_amount > 0 {
            self.blend_submit(&mut calls, BLEND_REQUEST_SUPPLY, supply_amount);
        }
        if redeemed < principal {
            let shortfall: i128 = match principal.checked_sub(redeemed) {
                Some(value) => value,
                None => return reject(Rejection::ShortfallOverflow),
            };
            calls.push(
                HostCall::Publish(
                    Event::BadDebtDetected(BadDebtDetected::new(principal, redeemed, shortfall)),
                ),
            );
        }
        let interest: i128 = policy::saturating_sub(redeemed, supply_amount);
        let mut interest_donated: i128 = 0;
        if interest > 0 {
            self.donate_to_pool(&mut calls, interest);
            interest_donated = interest;
        }
        assert(calls@ == execution::harvest_moves(self@, redeemed as int));
        self.end_harvest(
            event_id,
            calls,
            now,
            HarvestCompleted::new(interest_donated, blnd_routed, supply_amount),
            Some(supply_amount),
        )
    }

    /// Withdraw the whole position for an unwind.
    fn unwind_withdraw(&self, event_id: Option<EventId>, before: i128) -> (r: Step)
        requires
            self@.instance().initialized(),
        ensures
            r@ == execution::waiting(
                event_id,
                seq![self@.withdraw_call(i128::MAX as int), self@.own_balance()],
                Stage::UnwindAfter { before },
            ),
    {
        let mut calls: Vec<HostCall> = Vec::new();
        self.blend_submit(&mut calls, BLEND_REQUEST_WITHDRAW, i128::MAX);
        self.query_own_balance(&mut calls);
        wait(calls, event_id, Stage::UnwindAfter { before })
    }

    /// Report an unwind and end it: no principal is left.
    pub(crate) fn end_unwind(
        &self,
        event_id: Option<EventId>,
        calls: Vec<HostCall>,
        redeemed: i128,
    ) -> (r: Step)
        requires
            self@.instance().initialized(),
        ensures
            r@ == execution::unwind_ending(self@, event_id, calls@, redeemed as int),
    {
        let mut calls = calls;
        let principal_before: i128 = storage::get_principal_supplied(&self.storage);
        calls.push(
            HostCall::Publish(
                Event::EmergencyUnwound(EmergencyUnwound::new(redeemed, principal_before)),
            ),
        );
        self.assert_no_usdc_residue(
            calls,
            event_id,
            Writes { principal_supplied: Some(0), last_rebalance_ts: None, last_harvest_ts: None },
        )
    }

    /// The position is redeemed: deposit up to the principal, which is what the
    /// pool counts as delegated out, and donate the rest.
    fn unwind_on_redeem(&self, event_id: Option<EventId>, before: i128, after: i128) -> (r: Step)
        requires
            self@.instance().initialized(),
        ensures
            r@ == ({
                let redeemed = policy::clamped_difference(after as int, before as int);
                execution::unwind_ending(
                    self@,
                    event_id,
                    execution::unwind_moves(self@, redeemed),
                    redeemed,
                )
            }),
    {
        let principal: i128 = storage::get_principal_supplied(&self.storage);
        let redeemed: i128 = policy::saturating_sub(after, before);
        let mut calls: Vec<HostCall> = Vec::new();
        if redeemed > 0 {
            let deposit_amount: i128 = policy::min_amount(redeemed, principal);
            if deposit_amount > 0 {
                self.deposit_from_delegate(&mut calls, deposit_amount);
            }
            let donate_amount: i128 = policy::saturating_sub(redeemed, principal);
            if donate_amount > 0 {
                self.donate_to_pool(&mut calls, donate_amount);
            }
        }
        assert(calls@ == execution::unwind_moves(self@, redeemed as int));
        self.end_unwind(event_id, calls, redeemed)
    }

    /// A supply into an unhealthy Blend would revert anyway.
    fn manual_on_health(&self, event_id: Option<EventId>, amount: i128, status: u32) -> (r: Step)
        requires
            self@.instance().initialized(),
        ensures
            r@ == execution::after_manual_health(self@, event_id, amount, status),
    {
        if status > BLEND_HEALTHY_STATUS_MAX {
            return reject(Rejection::BlendUnhealthy);
        }
        let mut calls: Vec<HostCall> = Vec::new();
        self.withdraw_to_delegate(&mut calls, amount);
        self.blend_submit(&mut calls, BLEND_REQUEST_SUPPLY, amount);
        wait(calls, event_id, Stage::ManualSupplied { amount })
    }

    fn manual_on_supply(&self, event_id: Option<EventId>, amount: i128) -> (r: Step)
        requires
            self@.instance().initialized(),
        ensures
            r@ == execution::after_manual_supply(self@, event_id, amount),
    {
        let prev: i128 = storage::get_principal_supplied(&self.storage);
        let principal_after: i128 = match prev.checked_add(amount) {
            Some(value) => value,
            None => return reject(Rejection::PrincipalOverflow),
        };
        let mut calls: Vec<HostCall> = Vec::new();
        self.query_snapshot(&mut calls);
        wait(calls, event_id, Stage::ManualToSnapshot { amount, principal_after })
    }

    /// Report a manual move with the pool's balances after it, and end it.
    fn manual_on_snapshot(
        &self,
        event_id: Option<EventId>,
        direction: Symbol,
        amount: i128,
        principal_after: i128,
        state: DelegateState,
    ) -> (r: Step)
        requires
            self@.instance().initialized(),
        ensures
            r@ == execution::manual_ending(
                self@,
                event_id,
                direction,
                amount,
                principal_after,
                state,
            ),
    {
        let (liquid_after, delegated_after, _) = self.usdc_side(state);
        let mut calls: Vec<HostCall> = Vec::new();
        calls.push(
            HostCall::Publish(
                Event::RebalanceExecuted(
                    RebalanceExecuted::new(
                        direction,
                        amount,
                        liquid_after,
                        delegated_after,
                        principal_after,
                    ),
                ),
            ),
        );
        self.assert_no_usdc_residue(
            calls,
            event_id,
            Writes {
                principal_supplied: Some(principal_after),
                last_rebalance_ts: None,
                last_harvest_ts: None,
            },
        )
    }

    fn on_verification(
        &self,
        event_id: Option<EventId>,
        now: u64,
        action: Option<RebalanceAction>,
        outcome: VerifyOutcome,
    ) -> (r: Step)
        requires
            self@.instance().initialized(),
        ensures
            r@ == execution::after_verification(self@, event_id, now, action, outcome),
    {
        match outcome {
            VerifyOutcome::Verified => match action {
                Some(RebalanceAction::Rebalance) => self.start_rebalance(event_id, now),
                Some(RebalanceAction::HarvestYield) => self.start_harvest(event_id, now),
                None => refuse(HandlerError::InvalidEnvelope),
            },
            VerifyOutcome::Unreadable => refuse(HandlerError::UnknownVerificationError),
            VerifyOutcome::Refused(e) => refuse(e.to_handler_error()),
            VerifyOutcome::InvocationFailed => refuse(HandlerError::OtherInvocationError),
        }
    }

    /// A residue means that a move forgot to push tokens out.
    fn on_residue(&mut self, event_id: Option<EventId>, writes: Writes, balance: i128) -> (r: Step)
        ensures
            (final(self)@, r@) == execution::after_residue(old(self)@, event_id, writes, balance),
    {
        if balance != 0 {
            return Step::Fail(Failure::Local(LocalError::UsdcLeak));
        }
        let mut calls: Vec<HostCall> = Vec::new();
        calls.push(HostCall::ExtendInstanceTtl);
        self.complete(event_id, writes, calls)
    }

    /// Bring the liquid share of the pool's USDC back to the target: read the
    /// pool's own account and, if the drift exceeds the band, move USDC between
    /// the pool and Blend. What sits in Blend counts as part of the pool.
    pub fn execute_rebalance(&self, ledger: Ledger) -> (r: Step)
        requires
            self@.instance().initialized(),
        ensures
            r@ == execution::rebalance_started(self@, None, ledger.timestamp),
    {
        self.start_rebalance(None, ledger.timestamp)
    }

    /// Route the emissions to the treasury, peel the interest off the position
    /// and donate it to the pool.
    pub fn execute_harvest_yield(&self, ledger: Ledger) -> (r: Step)
        requires
            self@.instance().initialized(),
        ensures
            r@ == execution::harvest_started(self@, None, ledger.timestamp),
    {
        self.start_harvest(None, ledger.timestamp)
    }

    /// Go on with a transaction: `reply` is what came back from the last call
    /// of the step that left it at `pending`.
    ///
    /// The handler's storage changes only when the answer is
    /// [`Step::Complete`].
    pub fn resume(&mut self, pending: Pending, reply: Reply) -> (step: Step)
        requires
            old(self)@.instance().initialized(),
        ensures
            (final(self)@, step@) == execution::resumed(old(self)@, pending, reply),
            old(self)@.constructed() ==> final(self)@.constructed(),
            old(self)@.instance().config_in_range() ==> final(self)@.instance().config_in_range(),
    {
        let id = pending.event_id;
        match (pending.stage, reply) {
            (Stage::Verification { now, action }, Reply::Verification(outcome)) =>
                self.on_verification(id, now, action, outcome),
            (Stage::RebalanceHealth { now }, Reply::Config(config)) =>
                self.rebalance_on_health(id, now, config.status),
            (Stage::RebalanceSnapshot { now }, Reply::Delegate(state)) =>
                self.rebalance_on_snapshot(id, now, state),
            (
                Stage::RebalanceSupplied { now, amount, liquid_after, delegated_after },
                Reply::Performed,
            ) => self.rebalance_on_supply(id, now, amount, liquid_after, delegated_after),
            (Stage::HarvestClaim { now }, Reply::Amount(blnd_routed)) => {
                let mut calls: Vec<HostCall> = Vec::new();
                self.query_health(&mut calls);
                wait(calls, id, Stage::HarvestHealth { now, blnd_routed })
            },
            (Stage::HarvestHealth { now, blnd_routed }, Reply::Config(config)) =>
                self.harvest_on_health(id, now, blnd_routed, config.status),
            (Stage::HarvestBefore { now, blnd_routed }, Reply::Amount(before)) =>
                self.harvest_withdraw(id, now, blnd_routed, before),
            (Stage::HarvestWithdraw { now, blnd_routed, before }, Reply::Submitted(accepted)) =>
                self.harvest_on_withdraw(id, now, blnd_routed, before, accepted),
            (Stage::HarvestAfter { now, blnd_routed, before }, Reply::Amount(after)) =>
                self.harvest_on_redeem(id, now, blnd_routed, before, after),
            (Stage::UnwindBefore, Reply::Amount(before)) => self.unwind_withdraw(id, before),
            (Stage::UnwindAfter { before }, Reply::Amount(after)) =>
                self.unwind_on_redeem(id, before, after),
            (Stage::ManualHealth { amount }, Reply::Config(config)) =>
                self.manual_on_health(id, amount, config.status),
            (Stage::ManualSupplied { amount }, Reply::Performed) =>
                self.manual_on_supply(id, amount),
            (Stage::ManualToSnapshot { amount, principal_after }, Reply::Delegate(state)) =>
                self.manual_on_snapshot(id, DIRECTION_TO_BLEND, amount, principal_after, state),
            (Stage::ManualFromSnapshot { amount, principal_after }, Reply::Delegate(state)) =>
                self.manual_on_snapshot(id, DIRECTION_FROM_BLEND, amount, principal_after, state),
            (Stage::Residue { writes }, Reply::Amount(balance)) =>
                self.on_residue(id, writes, balance),
            _ => Step::Fail(Failure::HostTrap),
        }
    }
}

} // verus!
