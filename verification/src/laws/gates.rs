//! What a transaction does not look at.
use crate::execution;
use crate::execution::{HandlerView, Pending, Stage, StepView};
use crate::externals::Reply;
use crate::laws;
use crate::primitives::EventId;
use vstd::prelude::*;

verus! {

/// The two handlers are at the same address, deal with the same tokens, pools and
/// treasury, and have the same principal.
pub open spec fn same_business(a: HandlerView, b: HandlerView) -> bool {
    &&& a.address == b.address
    &&& a.storage.instance.blended_pool == b.storage.instance.blended_pool
    &&& a.storage.instance.blend_pool == b.storage.instance.blend_pool
    &&& a.storage.instance.usdc == b.storage.instance.usdc
    &&& a.storage.instance.xlm == b.storage.instance.xlm
    &&& a.storage.instance.blnd_treasury == b.storage.instance.blnd_treasury
    &&& a.storage.instance.usdc_reserve_token_id == b.storage.instance.usdc_reserve_token_id
    &&& a.storage.instance.principal_supplied == b.storage.instance.principal_supplied
}

/// The two handlers have the same target, band, floors, cap and cooldown, and made
/// their last move at the same time.
pub open spec fn same_gates(a: HandlerView, b: HandlerView) -> bool {
    &&& a.storage.instance.target_ratio_bps == b.storage.instance.target_ratio_bps
    &&& a.storage.instance.rebalance_band_bps == b.storage.instance.rebalance_band_bps
    &&& a.storage.instance.min_total_usdc == b.storage.instance.min_total_usdc
    &&& a.storage.instance.rebalance_cooldown_secs == b.storage.instance.rebalance_cooldown_secs
    &&& a.storage.instance.last_rebalance_ts == b.storage.instance.last_rebalance_ts
    &&& a.storage.instance.max_rebalance_amount == b.storage.instance.max_rebalance_amount
    &&& a.storage.instance.min_rebalance_amount == b.storage.instance.min_rebalance_amount
}

/// A transaction at `stage` may yet decide by the gates.
pub open spec fn is_gated(stage: Stage) -> bool {
    match stage {
        Stage::Verification { .. } => true,
        Stage::RebalanceHealth { .. } => true,
        Stage::RebalanceSnapshot { .. } => true,
        _ => false,
    }
}

proof fn lemma_next_is_alike(a: HandlerView, b: HandlerView, pending: Pending, reply: Reply)
    requires
        same_business(a, b),
        is_gated(pending.stage) ==> same_gates(a, b),
    ensures
        laws::next(a, pending, reply).1 == laws::next(b, pending, reply).1,
        laws::next(a, pending, reply).1 matches StepView::Perform { calls, then }
            ==> is_gated(then.stage) ==> is_gated(pending.stage),
        same_business(laws::next(a, pending, reply).0, laws::next(b, pending, reply).0),
{
    reveal(laws::next);
    assert(a.principal() == b.principal());
    assert(a.own_balance() == b.own_balance());
    assert(forall|recipient, amount: int|
        a.transfer_leave(recipient, amount) == b.transfer_leave(recipient, amount));
    if let Stage::RebalanceSnapshot { now } = pending.stage {
        if let Reply::Delegate(state) = reply {
            laws::sizing::law_decision_rests_on_eight_entries(
                a.storage.instance,
                b.storage.instance,
                now as int,
                a.liquid_of(state) as int,
                a.total_of(state) as int,
            );
        }
    }
    if let Stage::HarvestAfter { now, blnd_routed, before } = pending.stage {
        if let Reply::Amount(after) = reply {
            let redeemed = crate::policy::clamped_difference(after as int, before as int);
            assert(execution::harvest_moves(a, redeemed) == execution::harvest_moves(b, redeemed));
        }
    }
    if let Stage::UnwindAfter { before } = pending.stage {
        if let Reply::Amount(after) = reply {
            let redeemed = crate::policy::clamped_difference(after as int, before as int);
            assert(execution::unwind_moves(a, redeemed) == execution::unwind_moves(b, redeemed));
        }
    }
}

/// Whatever the host answers, two handlers that deal with the same contracts, have
/// the same principal and stand at the same point of a transaction ask for the
/// same calls and come to the same end. Only a transaction that may yet decide by
/// the gates needs them to have the same gates. Nothing rests on who the admin is,
/// on the version, on the events that were seen or on when the last harvest was.
pub proof fn law_transactions_run_alike(
    a: HandlerView,
    b: HandlerView,
    step: StepView,
    replies: Seq<Reply>,
)
    requires
        same_business(a, b),
        step matches StepView::Perform { calls, then } ==> is_gated(then.stage) ==> same_gates(
            a,
            b,
        ),
    ensures
        laws::run(a, step, replies).calls == laws::run(b, step, replies).calls,
        laws::run(a, step, replies).outcome == laws::run(b, step, replies).outcome,
        same_business(laws::run(a, step, replies).handler, laws::run(b, step, replies).handler),
    decreases replies.len(),
{
    if let StepView::Perform { calls, then } = step {
        if replies.len() > 0 {
            let (next_a, following) = laws::next(a, then, replies[0]);
            let (next_b, _) = laws::next(b, then, replies[0]);
            lemma_next_is_alike(a, b, then, replies[0]);
            laws::lemma_resumed_frame(a, then, replies[0]);
            laws::lemma_resumed_frame(b, then, replies[0]);
            law_transactions_run_alike(next_a, next_b, following, replies.drop_first());
        }
    }
}

/// A harvest, an unwind and a manual move are the same whatever the gates are:
/// from their first call to their end, whatever the host answers. For a manual
/// move the two handlers have to be paused alike.
pub proof fn law_gates_stop_only_rebalances(
    a: HandlerView,
    b: HandlerView,
    event_id: Option<EventId>,
    now: u64,
    amount: i128,
    replies: Seq<Reply>,
)
    requires
        same_business(a, b),
    ensures
        ({
            let first = laws::run(a, execution::harvest_started(a, event_id, now), replies);
            let second = laws::run(b, execution::harvest_started(b, event_id, now), replies);
            first.calls == second.calls && first.outcome == second.outcome
        }),
        ({
            let first = laws::run(a, execution::unwind_started(a), replies);
            let second = laws::run(b, execution::unwind_started(b), replies);
            first.calls == second.calls && first.outcome == second.outcome
        }),
        a.storage.instance.paused == b.storage.instance.paused ==> ({
            let first = laws::run(a, execution::manual_to_blend_started(a, amount), replies);
            let second = laws::run(b, execution::manual_to_blend_started(b, amount), replies);
            first.calls == second.calls && first.outcome == second.outcome
        }),
        a.storage.instance.paused == b.storage.instance.paused ==> ({
            let first = laws::run(a, execution::manual_from_blend_started(a, amount), replies);
            let second = laws::run(b, execution::manual_from_blend_started(b, amount), replies);
            first.calls == second.calls && first.outcome == second.outcome
        }),
{
    assert(execution::harvest_started(a, event_id, now) == execution::harvest_started(
        b,
        event_id,
        now,
    ));
    law_transactions_run_alike(a, b, execution::harvest_started(a, event_id, now), replies);
    assert(execution::unwind_started(a) == execution::unwind_started(b));
    law_transactions_run_alike(a, b, execution::unwind_started(a), replies);
    if a.storage.instance.paused == b.storage.instance.paused {
        assert(execution::manual_to_blend_started(a, amount) == execution::manual_to_blend_started(
            b,
            amount,
        ));
        law_transactions_run_alike(a, b, execution::manual_to_blend_started(a, amount), replies);
        assert(execution::manual_from_blend_started(a, amount)
            == execution::manual_from_blend_started(b, amount));
        law_transactions_run_alike(a, b, execution::manual_from_blend_started(a, amount), replies);
    }
}

/// A rebalance is the same whenever the gates and the business are: in particular
/// it does not matter when the last harvest was.
pub proof fn law_only_gates_stop_rebalances(
    a: HandlerView,
    b: HandlerView,
    event_id: Option<EventId>,
    now: u64,
    replies: Seq<Reply>,
)
    requires
        same_business(a, b),
        same_gates(a, b),
    ensures
        ({
            let first = laws::run(a, execution::rebalance_started(a, event_id, now), replies);
            let second = laws::run(b, execution::rebalance_started(b, event_id, now), replies);
            first.calls == second.calls && first.outcome == second.outcome
        }),
{
    assert(execution::rebalance_started(a, event_id, now) == execution::rebalance_started(
        b,
        event_id,
        now,
    ));
    law_transactions_run_alike(a, b, execution::rebalance_started(a, event_id, now), replies);
}

} // verus!
