//! How the tracked principal follows the moves.
use crate::events::Symbol;
use crate::execution;
use crate::execution::{HandlerView, Pending, RebalanceAction, Stage, StepView, Writes};
use crate::externals::{DelegateState, HostCall, Reply};
use crate::laws;
use crate::laws::flows;
use crate::laws::flows::Way;
use crate::policy;
use crate::policy::Verdict;
use crate::primitives::EventId;
use vstd::prelude::*;

verus! {

/// A transaction in which the handler names every amount: a rebalance or a manual
/// move. In a harvest and in an unwind Blend decides how much it redeems.
pub open spec fn names_its_amounts(stage: Stage) -> bool {
    match stage {
        Stage::Verification { action, .. } => action != Some(RebalanceAction::HarvestYield),
        Stage::RebalanceHealth { .. } => true,
        Stage::RebalanceSnapshot { .. } => true,
        Stage::RebalanceSupplied { .. } => true,
        Stage::ManualHealth { .. } => true,
        Stage::ManualSupplied { .. } => true,
        Stage::ManualToSnapshot { .. } => true,
        Stage::ManualFromSnapshot { .. } => true,
        Stage::Residue { .. } => true,
        _ => false,
    }
}

/// What the moves so far owe to the principal at `stage`.
pub open spec fn owed(h: HandlerView, stage: Stage) -> int {
    match stage {
        Stage::RebalanceSupplied { amount, .. } => amount as int,
        Stage::ManualSupplied { amount } => amount as int,
        Stage::ManualToSnapshot { principal_after, .. } => principal_after - h.principal(),
        Stage::ManualFromSnapshot { principal_after, .. } => principal_after - h.principal(),
        Stage::Residue { writes } => match writes.principal_supplied {
            Some(principal) => principal - h.principal(),
            None => 0,
        },
        _ => 0,
    }
}

/// What `calls` put into Blend, less what they take out of it.
pub open spec fn net_supplied(calls: Seq<HostCall>) -> int {
    flows::total_on(Way::ToBlend, calls) - flows::total_on(Way::FromBlend, calls)
}

/// What comes to the handler on `calls` leaves it again on them.
pub open spec fn passes_on(calls: Seq<HostCall>) -> bool {
    flows::total_on(Way::FromPool, calls) + flows::total_on(Way::FromBlend, calls)
        == flows::total_on(Way::Deposit, calls) + flows::total_on(Way::Donation, calls)
        + flows::total_on(Way::ToBlend, calls)
}

/// `calls` move `amount` on the way there, and nothing else.
proof fn lemma_one_move(h: HandlerView, calls: Seq<HostCall>, amount: i128, to_blend: bool)
    requires
        calls == (if to_blend {
            seq![h.take_call(amount as int)] + h.supply_calls(amount as int)
        } else {
            seq![h.withdraw_call(amount as int)] + h.deposit_calls(amount as int)
        }),
        !to_blend ==> amount < i128::MAX,
    ensures
        net_supplied(calls) == (if to_blend {
            amount as int
        } else {
            -(amount as int)
        }),
        passes_on(calls),
{
    let a = amount as int;
    flows::lemma_mover_flows(h, a);
    reveal(flows::flows);
    if to_blend {
        flows::lemma_flows_concat(
            seq![h.take_call(a)],
            h.supply_calls(a),
            (a, 0, 0, 0, 0),
            (0, 0, 0, a, 0),
        );
    } else {
        flows::lemma_flows_concat(
            seq![h.withdraw_call(a)],
            h.deposit_calls(a),
            (0, 0, 0, 0, a),
            (0, a, 0, 0, 0),
        );
    }
}

/// Calls that move nothing change no sum.
proof fn lemma_quiet(calls: Seq<HostCall>)
    requires
        flows::all_move_nothing(calls),
    ensures
        net_supplied(calls) == 0,
        passes_on(calls),
{
    flows::lemma_quiet_flows(calls);
    reveal(flows::flows);
}

proof fn lemma_concat(a: Seq<HostCall>, b: Seq<HostCall>)
    ensures
        net_supplied(a + b) == net_supplied(a) + net_supplied(b),
        passes_on(a) && passes_on(b) ==> passes_on(a + b),
{
    flows::lemma_total_of_concat(Way::FromPool, a, b);
    flows::lemma_total_of_concat(Way::Deposit, a, b);
    flows::lemma_total_of_concat(Way::Donation, a, b);
    flows::lemma_total_of_concat(Way::ToBlend, a, b);
    flows::lemma_total_of_concat(Way::FromBlend, a, b);
}

proof fn lemma_snapshot_accounts(
    h: HandlerView,
    event_id: Option<EventId>,
    now: u64,
    state: DelegateState,
)
    ensures
        ({
            let (next, step) = execution::after_snapshot(h, event_id, now, state);
            match step {
                StepView::Perform { calls, then } => {
                    &&& names_its_amounts(then.stage)
                    &&& next == h
                    &&& net_supplied(calls) == owed(h, then.stage)
                    &&& passes_on(calls)
                },
                StepView::Complete { calls } => {
                    &&& net_supplied(calls) == 0
                    &&& passes_on(calls)
                    &&& next.principal() == h.principal()
                },
                StepView::Fail(_) => true,
            }
        }),
{
    let (liquid, total) = (h.liquid_of(state), h.total_of(state));
    let delegated = total - liquid;
    let (next, step) = execution::after_snapshot(h, event_id, now, state);
    match policy::verdict_of(h.instance(), now as int, liquid as int, total as int) {
        Ok(Verdict::ToBlend(amount)) => {
            policy::lemma_to_blend_is_bounded(h.instance(), now as int, liquid, total, amount);
            lemma_one_move(h, step->Perform_calls, amount, true);
        },
        Ok(Verdict::FromBlend(amount)) => {
            policy::lemma_from_blend_is_bounded(h.instance(), now as int, liquid, total, amount);
            let moves = seq![h.withdraw_call(amount as int)] + h.deposit_calls(amount as int);
            let event = execution::rebalance_event(
                Symbol::FromBlend,
                amount as int,
                liquid + amount,
                delegated - amount,
                h.principal() - amount,
            );
            let last = seq![event, h.own_balance()];
            assert(step->Perform_calls =~= moves + last);
            lemma_one_move(h, moves, amount, false);
            lemma_quiet(last);
            lemma_concat(moves, last);
        },
        Ok(Verdict::Skip) => {
            lemma_quiet(step->Complete_calls);
        },
        Ok(Verdict::Hold) => {
            lemma_quiet(step->Perform_calls);
        },
        Err(_) => {},
    }
}

/// One step: what its calls put into Blend is what it adds to what is owed, and
/// what comes to the handler leaves it in the same step.
proof fn lemma_next_accounts(h: HandlerView, pending: Pending, reply: Reply)
    requires
        names_its_amounts(pending.stage),
    ensures
        ({
            let (next, step) = laws::next(h, pending, reply);
            match step {
                StepView::Perform { calls, then } => {
                    &&& names_its_amounts(then.stage)
                    &&& next == h
                    &&& net_supplied(calls) == owed(h, then.stage) - owed(h, pending.stage)
                    &&& passes_on(calls)
                },
                StepView::Complete { calls } => {
                    &&& net_supplied(calls) == 0
                    &&& passes_on(calls)
                    &&& next.principal() - h.principal() == owed(h, pending.stage)
                },
                StepView::Fail(_) => true,
            }
        }),
{
    let (next, step) = laws::next(h, pending, reply);
    assert((next, step) == execution::resumed(h, pending, reply)) by {
        reveal(laws::next);
    }
    match (pending.stage, reply) {
        (Stage::RebalanceSnapshot { now }, Reply::Delegate(state)) => {
            lemma_snapshot_accounts(h, pending.event_id, now, state);
        },
        (Stage::ManualHealth { amount }, Reply::Config(config)) => {
            if step is Perform {
                lemma_one_move(h, step->Perform_calls, amount, true);
            }
        },
        _ => {
            match step {
                StepView::Perform { calls, then } => {
                    lemma_quiet(calls);
                },
                StepView::Complete { calls } => {
                    lemma_quiet(calls);
                },
                StepView::Fail(_) => {},
            }
        },
    }
}

/// Whatever the host answers, a rebalance or a manual move that succeeds changes
/// the principal by exactly what it put into Blend, less what it took out.
pub proof fn law_principal_follows_the_moves(h: HandlerView, step: StepView, replies: Seq<Reply>)
    requires
        step matches StepView::Perform { calls, then } ==> {
            &&& names_its_amounts(then.stage)
            &&& net_supplied(calls) == owed(h, then.stage)
        },
        step !is Complete,
    ensures
        ({
            let e = laws::run(h, step, replies);
            e.succeeded() ==> e.handler.principal() - h.principal() == net_supplied(e.calls)
        }),
{
    if let StepView::Perform { calls, then } = step {
        lemma_run_accounts(h, step, replies);
    }
}

proof fn lemma_run_accounts(h: HandlerView, step: StepView, replies: Seq<Reply>)
    requires
        step is Perform,
        names_its_amounts(step->then.stage),
    ensures
        ({
            let e = laws::run(h, step, replies);
            e.succeeded() ==> e.handler.principal() - h.principal() == net_supplied(e.calls)
                - net_supplied(step->Perform_calls) + owed(h, step->then.stage)
        }),
    decreases replies.len(),
{
    if replies.len() > 0 {
        let rest = replies.drop_first();
        laws::lemma_run_step(h, step, replies[0], rest);
        assert(replies =~= seq![replies[0]] + rest);
        lemma_next_accounts(h, step->then, replies[0]);
        let (next, following) = laws::next(h, step->then, replies[0]);
        let tail = laws::run(next, following, rest);
        lemma_concat(step->Perform_calls, tail.calls);
        if following is Perform {
            lemma_run_accounts(next, following, rest);
        }
    }
}

/// A rebalance and both manual moves begin with the books in order. A withdraw of
/// the largest number there is would be taken as a request for everything.
pub proof fn law_moves_begin_in_order(
    h: HandlerView,
    event_id: Option<EventId>,
    now: u64,
    amount: i128,
)
    requires
        amount < i128::MAX,
    ensures
        ({
            let start = execution::rebalance_started(h, event_id, now);
            names_its_amounts(start->then.stage) && net_supplied(start->Perform_calls) == owed(
                h,
                start->then.stage,
            )
        }),
        execution::manual_to_blend_started(h, amount) matches StepView::Perform { calls, then }
            ==> names_its_amounts(then.stage) && net_supplied(calls) == owed(h, then.stage),
        execution::manual_from_blend_started(h, amount) matches StepView::Perform { calls, then }
            ==> names_its_amounts(then.stage) && net_supplied(calls) == owed(h, then.stage),
{
    lemma_quiet(seq![h.health_query()]);
    if execution::manual_from_blend_started(h, amount) is Perform {
        let moves = seq![h.withdraw_call(amount as int)] + h.deposit_calls(amount as int);
        lemma_one_move(h, moves, amount, false);
        lemma_quiet(seq![h.snapshot_query()]);
        lemma_concat(moves, seq![h.snapshot_query()]);
    }
}

/// In every step of a rebalance or a manual move, what comes to the handler from
/// the pool or from Blend leaves it again in the same step.
pub proof fn law_nothing_stays_with_the_handler(h: HandlerView, pending: Pending, reply: Reply)
    requires
        names_its_amounts(pending.stage),
    ensures
        passes_on(laws::conduct::calls_in(execution::resumed(h, pending, reply).1)),
{
    lemma_next_accounts(h, pending, reply);
    lemma_quiet(seq![]);
    reveal(laws::next);
}

} // verus!
