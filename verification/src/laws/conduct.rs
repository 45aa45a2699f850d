//! Whom the handler deals with, and what it lets them take.
use crate::envelope::Ed25519SignatureData;
use crate::events::{Event, HarvestPartial, Symbol};
use crate::execution;
use crate::execution::{HandlerView, Pending, Stage, StepView, Writes};
use crate::externals::{
    DelegateState, HostCall, Ledger, Reply, BLEND_REQUEST_SUPPLY, BLEND_REQUEST_WITHDRAW,
};
use crate::laws;
use crate::policy;
use crate::policy::Verdict;
use crate::primitives::{Address, EventId};
use vstd::prelude::*;

verus! {

/// `call` stays inside what the handler is for: it reads and moves its own
/// USDC, between its own two pools, and sends emissions to its own treasury.
pub open spec fn in_bounds(h: HandlerView, call: HostCall) -> bool {
    let i = h.instance();
    match call {
        HostCall::GetConfig { blend_pool } => blend_pool == i.blend_pool->0,
        HostCall::QueryDelegateState { blended_pool } => blended_pool == i.blended_pool->0,
        HostCall::Balance { token, holder } => token == i.usdc->0 && holder == h.address,
        HostCall::Claim { blend_pool, from, reserve_token_id, to } => {
            &&& blend_pool == i.blend_pool->0
            &&& from == h.address
            &&& reserve_token_id == i.usdc_reserve_token_id->0
            &&& to == i.blnd_treasury->0
        },
        HostCall::WithdrawToDelegate { blended_pool, token, amount } => {
            blended_pool == i.blended_pool->0 && token == i.usdc->0
        },
        HostCall::DepositFromDelegate { blended_pool, token, amount } => {
            blended_pool == i.blended_pool->0 && token == i.usdc->0
        },
        HostCall::Donate { blended_pool, token, amount } => {
            blended_pool == i.blended_pool->0 && token == i.usdc->0
        },
        HostCall::AuthorizeTransfer { token, from, to, amount } => {
            &&& token == i.usdc->0
            &&& from == h.address
            &&& to == i.blend_pool->0 || to == i.blended_pool->0
        },
        HostCall::Submit { blend_pool, account, request } => {
            &&& blend_pool == i.blend_pool->0
            &&& account == h.address
            &&& request.address == i.usdc->0
            &&& request.request_type == BLEND_REQUEST_SUPPLY || request.request_type
                == BLEND_REQUEST_WITHDRAW
        },
        HostCall::TrySubmit { blend_pool, account, request } => {
            &&& blend_pool == i.blend_pool->0
            &&& account == h.address
            &&& request.address == i.usdc->0
            &&& request.request_type == BLEND_REQUEST_WITHDRAW
        },
        HostCall::Verify { contract, .. } => contract == i.verification_contract->0,
        HostCall::Publish(_) => true,
        HostCall::ExtendInstanceTtl => true,
        HostCall::ExtendEventTtl { .. } => true,
        HostCall::UpdateContractWasm { .. } => false,
    }
}

pub open spec fn calls_in(step: StepView) -> Seq<HostCall> {
    match step {
        StepView::Perform { calls, .. } => calls,
        StepView::Complete { calls } => calls,
        StepView::Fail(_) => seq![],
    }
}

pub open spec fn all_in_bounds(h: HandlerView, calls: Seq<HostCall>) -> bool {
    forall|j: int| 0 <= j < calls.len() ==> in_bounds(h, #[trigger] calls[j])
}

proof fn lemma_in_bounds_depends_on_configuration(a: HandlerView, b: HandlerView, call: HostCall)
    requires
        laws::same_configuration(a, b),
    ensures
        in_bounds(a, call) == in_bounds(b, call),
{
}

/// Whom a call lets pull USDC from the handler, and how much.
pub open spec fn pull_of(call: HostCall) -> Option<(Address, i128)> {
    match call {
        HostCall::Submit { blend_pool, account, request } => if request.request_type
            == BLEND_REQUEST_SUPPLY {
            Some((blend_pool, request.amount))
        } else {
            None
        },
        HostCall::DepositFromDelegate { blended_pool, token, amount } => Some(
            (blended_pool, amount),
        ),
        HostCall::Donate { blended_pool, token, amount } => Some((blended_pool, amount)),
        _ => None,
    }
}

/// Every pull comes right after the leave for exactly this pull, and every
/// leave is used at once.
pub open spec fn leaves_match_pulls(h: HandlerView, calls: Seq<HostCall>) -> bool {
    &&& forall|j: int|
        0 <= j < calls.len() ==> (pull_of(#[trigger] calls[j]) matches Some((to, amount)) ==> j > 0
            && calls[j - 1] == h.transfer_leave(to, amount as int))
    &&& forall|j: int|
        0 <= j < calls.len() ==> (#[trigger] calls[j] matches HostCall::AuthorizeTransfer {
            to,
            amount,
            ..
        } ==> j + 1 < calls.len() && pull_of(calls[j + 1]) == Some((to, amount)))
}

/// In bounds, and with leaves that match the pulls.
#[verifier::opaque]
spec fn orderly(h: HandlerView, calls: Seq<HostCall>) -> bool {
    all_in_bounds(h, calls) && leaves_match_pulls(h, calls)
}

proof fn lemma_orderly_concat(h: HandlerView, a: Seq<HostCall>, b: Seq<HostCall>)
    requires
        orderly(h, a),
        orderly(h, b),
    ensures
        orderly(h, a + b),
{
    reveal(orderly);
    let s = a + b;
    assert forall|j: int| 0 <= j < s.len() implies (pull_of(#[trigger] s[j]) matches Some(
        (to, amount),
    ) ==> j > 0 && s[j - 1] == h.transfer_leave(to, amount as int)) by {
        if j >= a.len() {
            assert(s[j] == b[j - a.len()]);
        }
    }
    assert forall|j: int| 0 <= j < s.len() implies (
    #[trigger] s[j] matches HostCall::AuthorizeTransfer { to, amount, .. } ==> j + 1 < s.len()
        && pull_of(s[j + 1]) == Some((to, amount))) by {
        if j >= a.len() {
            assert(s[j] == b[j - a.len()]);
        }
    }
}

proof fn lemma_orderly_single(h: HandlerView, call: HostCall)
    requires
        in_bounds(h, call),
        pull_of(call) is None,
        call !is AuthorizeTransfer,
    ensures
        orderly(h, seq![call]),
{
    reveal(orderly);
}

proof fn lemma_orderly_empty(h: HandlerView)
    ensures
        orderly(h, seq![]),
{
    reveal(orderly);
}

proof fn lemma_orderly_push(h: HandlerView, calls: Seq<HostCall>, call: HostCall)
    requires
        orderly(h, calls),
        in_bounds(h, call),
        pull_of(call) is None,
        call !is AuthorizeTransfer,
    ensures
        orderly(h, calls.push(call)),
{
    lemma_orderly_single(h, call);
    lemma_orderly_concat(h, calls, seq![call]);
    assert(calls.push(call) =~= calls + seq![call]);
}

proof fn lemma_movers_are_orderly(h: HandlerView, amount: int)
    ensures
        orderly(h, h.supply_calls(amount)),
        orderly(h, h.deposit_calls(amount)),
        orderly(h, h.donate_calls(amount)),
        orderly(h, seq![h.take_call(amount)] + h.supply_calls(amount)),
        orderly(h, seq![h.withdraw_call(amount)] + h.deposit_calls(amount)),
{
    assert(orderly(h, h.supply_calls(amount))) by {
        reveal(orderly);
    }
    assert(orderly(h, h.deposit_calls(amount))) by {
        reveal(orderly);
    }
    assert(orderly(h, h.donate_calls(amount))) by {
        reveal(orderly);
    }
    lemma_orderly_single(h, h.take_call(amount));
    lemma_orderly_single(h, h.withdraw_call(amount));
    lemma_orderly_concat(h, seq![h.take_call(amount)], h.supply_calls(amount));
    lemma_orderly_concat(h, seq![h.withdraw_call(amount)], h.deposit_calls(amount));
}

proof fn lemma_settling_is_orderly(
    h: HandlerView,
    event_id: Option<EventId>,
    calls: Seq<HostCall>,
    writes: Writes,
)
    requires
        orderly(h, calls),
    ensures
        orderly(h, calls_in(execution::settling(h, event_id, calls, writes))),
{
    lemma_orderly_push(h, calls, h.own_balance());
}

proof fn lemma_completed_is_orderly(
    h: HandlerView,
    event_id: Option<EventId>,
    calls: Seq<HostCall>,
    writes: Writes,
)
    requires
        orderly(h, calls),
    ensures
        orderly(h, calls_in(execution::completed(h, event_id, writes, calls).1)),
{
    assert(orderly(h, execution::closing_calls(event_id))) by {
        reveal(orderly);
    }
    lemma_orderly_concat(h, calls, execution::closing_calls(event_id));
}

proof fn lemma_after_snapshot_is_orderly(
    h: HandlerView,
    event_id: Option<EventId>,
    now: u64,
    state: DelegateState,
)
    ensures
        orderly(h, calls_in(execution::after_snapshot(h, event_id, now, state).1)),
{
    let liquid = h.liquid_of(state) as int;
    let delegated = h.total_of(state) - liquid;
    lemma_orderly_empty(h);
    match policy::verdict_of(h.instance(), now as int, liquid, h.total_of(state) as int) {
        Err(e) => {},
        Ok(Verdict::Skip) => {
            lemma_completed_is_orderly(h, event_id, seq![], execution::no_writes());
        },
        Ok(Verdict::Hold) => {
            lemma_settling_is_orderly(h, event_id, seq![], execution::no_writes());
        },
        Ok(Verdict::ToBlend(amount)) => {
            lemma_movers_are_orderly(h, amount as int);
        },
        Ok(Verdict::FromBlend(amount)) => {
            lemma_movers_are_orderly(h, amount as int);
            let event = execution::rebalance_event(
                Symbol::FromBlend,
                amount as int,
                liquid + amount,
                delegated - amount,
                h.principal() - amount,
            );
            lemma_orderly_single(h, event);
            let moves = seq![h.withdraw_call(amount as int)] + h.deposit_calls(amount as int);
            lemma_orderly_concat(h, moves, seq![event]);
            lemma_settling_is_orderly(
                h,
                event_id,
                moves + seq![event],
                Writes {
                    principal_supplied: Some((h.principal() - amount) as i128),
                    last_rebalance_ts: Some(now),
                    last_harvest_ts: None,
                },
            );
        },
    }
}

proof fn lemma_harvest_moves_are_orderly(h: HandlerView, redeemed: int)
    ensures
        orderly(h, execution::harvest_moves(h, redeemed)),
{
    let principal = h.principal() as int;
    let supply = execution::resupplied(principal, redeemed);
    let interest = execution::interest_of(principal, redeemed);
    lemma_movers_are_orderly(h, supply);
    lemma_movers_are_orderly(h, interest);
    lemma_orderly_single(h, execution::bad_debt_event(principal, redeemed));
    lemma_orderly_empty(h);
    let first = if supply > 0 {
        h.supply_calls(supply)
    } else {
        seq![]
    };
    let second = if redeemed < principal {
        seq![execution::bad_debt_event(principal, redeemed)]
    } else {
        seq![]
    };
    let third = if interest > 0 {
        h.donate_calls(interest)
    } else {
        seq![]
    };
    lemma_orderly_concat(h, first, second);
    lemma_orderly_concat(h, first + second, third);
}

proof fn lemma_unwind_moves_are_orderly(h: HandlerView, redeemed: int)
    ensures
        orderly(h, execution::unwind_moves(h, redeemed)),
{
    let principal = h.principal() as int;
    let deposit = policy::min_int(redeemed, principal);
    let excess = policy::clamped_difference(redeemed, principal);
    lemma_movers_are_orderly(h, deposit);
    lemma_movers_are_orderly(h, excess);
    lemma_orderly_empty(h);
    let first = if redeemed > 0 && deposit > 0 {
        h.deposit_calls(deposit)
    } else {
        seq![]
    };
    let second = if redeemed > 0 && excess > 0 {
        h.donate_calls(excess)
    } else {
        seq![]
    };
    lemma_orderly_concat(h, first, second);
}

/// A step whose calls are `calls`, a report and the balance is orderly.
proof fn lemma_reports_are_orderly(h: HandlerView, calls: Seq<HostCall>)
    requires
        orderly(h, calls),
    ensures
        forall|event: Event| #[trigger]
            orderly(h, calls.push(HostCall::Publish(event)).push(h.own_balance())),
{
    assert forall|event: Event| #[trigger]
        orderly(h, calls.push(HostCall::Publish(event)).push(h.own_balance())) by {
        lemma_orderly_push(h, calls, HostCall::Publish(event));
        lemma_orderly_push(h, calls.push(HostCall::Publish(event)), h.own_balance());
    }
}

proof fn lemma_resumed_is_orderly(h: HandlerView, pending: Pending, reply: Reply)
    ensures
        orderly(h, calls_in(execution::resumed(h, pending, reply).1)),
{
    let id = pending.event_id;
    lemma_orderly_empty(h);
    lemma_reports_are_orderly(h, seq![]);
    lemma_orderly_single(h, h.health_query());
    lemma_orderly_single(h, h.snapshot_query());
    lemma_orderly_single(h, h.own_balance());
    match (pending.stage, reply) {
        (Stage::Verification { now, action }, Reply::Verification(outcome)) => {
            lemma_starts_are_orderly(h, id, now, 0);
        },
        (Stage::RebalanceHealth { now }, Reply::Config(config)) => {
            lemma_completed_is_orderly(h, id, seq![], execution::no_writes());
        },
        (Stage::RebalanceSnapshot { now }, Reply::Delegate(state)) => {
            lemma_after_snapshot_is_orderly(h, id, now, state);
        },
        (Stage::RebalanceSupplied { now, amount, liquid_after, delegated_after }, _) => {
            let event = execution::rebalance_event(
                Symbol::ToBlend,
                amount as int,
                liquid_after as int,
                delegated_after as int,
                h.principal() + amount,
            );
            assert(seq![event] =~= Seq::<HostCall>::empty().push(event));
        },
        (Stage::HarvestHealth { now, blnd_routed }, Reply::Config(config)) => {},
        (Stage::HarvestBefore { now, blnd_routed }, Reply::Amount(before)) => {
            lemma_orderly_single(h, h.try_withdraw_all_call());
        },
        (Stage::HarvestWithdraw { now, blnd_routed, before }, Reply::Submitted(accepted)) => {
            let partial = HostCall::Publish(Event::HarvestPartial(HarvestPartial { blnd_routed }));
            lemma_orderly_single(h, partial);
            lemma_reports_are_orderly(h, seq![partial]);
        },
        (Stage::HarvestAfter { now, blnd_routed, before }, Reply::Amount(after)) => {
            let redeemed = policy::clamped_difference(after as int, before as int);
            lemma_harvest_moves_are_orderly(h, redeemed);
            lemma_reports_are_orderly(h, execution::harvest_moves(h, redeemed));
        },
        (Stage::UnwindBefore, Reply::Amount(before)) => {
            let withdraw = h.withdraw_call(i128::MAX as int);
            lemma_orderly_single(h, withdraw);
            lemma_orderly_push(h, seq![withdraw], h.own_balance());
            assert(seq![withdraw].push(h.own_balance()) =~= seq![withdraw, h.own_balance()]);
        },
        (Stage::UnwindAfter { before }, Reply::Amount(after)) => {
            let redeemed = policy::clamped_difference(after as int, before as int);
            lemma_unwind_moves_are_orderly(h, redeemed);
            lemma_reports_are_orderly(h, execution::unwind_moves(h, redeemed));
        },
        (Stage::ManualHealth { amount }, Reply::Config(config)) => {
            lemma_movers_are_orderly(h, amount as int);
        },
        (Stage::ManualToSnapshot { amount, principal_after }, Reply::Delegate(state)) => {
            let event = execution::rebalance_event(
                Symbol::ToBlend,
                amount as int,
                h.liquid_of(state) as int,
                h.delegated_of(state) as int,
                principal_after as int,
            );
            assert(seq![event] =~= Seq::<HostCall>::empty().push(event));
        },
        (Stage::ManualFromSnapshot { amount, principal_after }, Reply::Delegate(state)) => {
            let event = execution::rebalance_event(
                Symbol::FromBlend,
                amount as int,
                h.liquid_of(state) as int,
                h.delegated_of(state) as int,
                principal_after as int,
            );
            assert(seq![event] =~= Seq::<HostCall>::empty().push(event));
        },
        (Stage::Residue { writes }, Reply::Amount(balance)) => {
            lemma_orderly_single(h, HostCall::ExtendInstanceTtl);
            lemma_completed_is_orderly(h, id, seq![HostCall::ExtendInstanceTtl], writes);
        },
        _ => {},
    }
}

proof fn lemma_starts_are_orderly(
    h: HandlerView,
    event_id: Option<EventId>,
    now: u64,
    amount: i128,
)
    ensures
        orderly(h, calls_in(execution::rebalance_started(h, event_id, now))),
        orderly(h, calls_in(execution::harvest_started(h, event_id, now))),
        orderly(h, calls_in(execution::unwind_started(h))),
        orderly(h, calls_in(execution::manual_to_blend_started(h, amount))),
        orderly(h, calls_in(execution::manual_from_blend_started(h, amount))),
{
    lemma_orderly_empty(h);
    lemma_reports_are_orderly(h, seq![]);
    lemma_orderly_single(h, h.health_query());
    lemma_orderly_single(h, h.own_balance());
    lemma_orderly_single(h, h.snapshot_query());
    lemma_orderly_single(h, calls_in(execution::harvest_started(h, event_id, now))[0]);
    lemma_movers_are_orderly(h, amount as int);
    let moves = seq![h.withdraw_call(amount as int)] + h.deposit_calls(amount as int);
    lemma_orderly_concat(h, moves, seq![h.snapshot_query()]);
}

/// Whatever the host answers, a transaction only touches the handler's own
/// USDC, its own two pools, its own treasury and its own verifier. No XLM
/// moves, and no code is replaced.
pub proof fn law_transactions_stay_in_bounds(h: HandlerView, step: StepView, replies: Seq<Reply>)
    requires
        all_in_bounds(h, calls_in(step)),
    ensures
        all_in_bounds(h, laws::run(h, step, replies).calls),
    decreases replies.len(),
{
    if let StepView::Perform { calls, then } = step {
        if replies.len() > 0 {
            let (next, following) = laws::next(h, then, replies[0]);
            assert(laws::next(h, then, replies[0]) == execution::resumed(h, then, replies[0])) by {
                reveal(laws::next);
            }
            lemma_resumed_is_orderly(h, then, replies[0]);
            reveal(orderly);
            laws::lemma_resumed_frame(h, then, replies[0]);
            let rest = laws::run(next, following, replies.drop_first());
            assert forall|j: int| 0 <= j < calls_in(following).len() implies in_bounds(
                next,
                #[trigger] calls_in(following)[j],
            ) by {
                lemma_in_bounds_depends_on_configuration(next, h, calls_in(following)[j]);
            }
            law_transactions_stay_in_bounds(next, following, replies.drop_first());
            assert forall|j: int| 0 <= j < rest.calls.len() implies in_bounds(
                h,
                #[trigger] rest.calls[j],
            ) by {
                lemma_in_bounds_depends_on_configuration(next, h, rest.calls[j]);
            }
        }
    }
}

/// Every transaction begins in bounds.
pub proof fn law_transactions_start_in_bounds(
    h: HandlerView,
    event_id: Option<EventId>,
    now: u64,
    amount: i128,
    ledger: Ledger,
    envelope_bytes: Vec<u8>,
    sig_data: Ed25519SignatureData,
)
    ensures
        all_in_bounds(h, calls_in(execution::rebalance_started(h, event_id, now))),
        all_in_bounds(h, calls_in(execution::harvest_started(h, event_id, now))),
        all_in_bounds(h, calls_in(execution::unwind_started(h))),
        all_in_bounds(h, calls_in(execution::manual_to_blend_started(h, amount))),
        all_in_bounds(h, calls_in(execution::manual_from_blend_started(h, amount))),
        all_in_bounds(
            h,
            calls_in(execution::verify_started(h, ledger, envelope_bytes, sig_data)),
        ),
{
    lemma_starts_are_orderly(h, event_id, now, amount);
    reveal(orderly);
}

/// In every step of every transaction, what a pool pulls from the handler was
/// authorized by the call before, for this pool and this amount, and nothing
/// more is ever authorized.
pub proof fn law_pulls_are_authorized(
    h: HandlerView,
    pending: Pending,
    reply: Reply,
    event_id: Option<EventId>,
    now: u64,
    amount: i128,
    ledger: Ledger,
    envelope_bytes: Vec<u8>,
    sig_data: Ed25519SignatureData,
)
    ensures
        leaves_match_pulls(h, calls_in(execution::resumed(h, pending, reply).1)),
        leaves_match_pulls(h, calls_in(execution::rebalance_started(h, event_id, now))),
        leaves_match_pulls(h, calls_in(execution::harvest_started(h, event_id, now))),
        leaves_match_pulls(h, calls_in(execution::unwind_started(h))),
        leaves_match_pulls(h, calls_in(execution::manual_to_blend_started(h, amount))),
        leaves_match_pulls(h, calls_in(execution::manual_from_blend_started(h, amount))),
        leaves_match_pulls(
            h,
            calls_in(execution::verify_started(h, ledger, envelope_bytes, sig_data)),
        ),
{
    lemma_resumed_is_orderly(h, pending, reply);
    lemma_starts_are_orderly(h, event_id, now, amount);
    reveal(orderly);
}

} // verus!
