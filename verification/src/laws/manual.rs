//! What the admin's own moves do with the money.
use crate::events::Symbol;
use crate::execution;
use crate::execution::{HandlerView, Stage};
use crate::externals::{BlendPoolConfig, DelegateState, HostCall, Reply};
use crate::laws;
use crate::laws::flows;
use crate::policy;
use crate::policy::BLEND_HEALTHY_STATUS_MAX;
use crate::storage::Instance;
use vstd::prelude::*;

verus! {

proof fn lemma_unwind_moves_flows(h: HandlerView, redeemed: int)
    requires
        h.principal() > 0,
        0 <= redeemed <= i128::MAX,
    ensures
        flows::flows(
            execution::unwind_moves(h, redeemed),
            0,
            policy::min_int(redeemed, h.principal() as int),
            redeemed - policy::min_int(redeemed, h.principal() as int),
            0,
            0,
        ),
{
    let principal = h.principal() as int;
    let deposit = policy::min_int(redeemed, principal);
    let excess = policy::clamped_difference(redeemed, principal);
    let donation = redeemed - deposit;
    flows::lemma_mover_flows(h, deposit);
    flows::lemma_mover_flows(h, excess);
    flows::lemma_quiet_flows(seq![]);
    let first = if redeemed > 0 && deposit > 0 {
        h.deposit_calls(deposit)
    } else {
        seq![]
    };
    let second = if redeemed > 0 && excess > 0 {
        h.donate_calls(excess)
    } else {
        seq![]
    };
    flows::lemma_flows_concat(first, second, (0, deposit, 0, 0, 0), (0, 0, donation, 0, 0));
}

/// An unwind brings the whole position home: of what Blend redeemed, up to the
/// principal is deposited and the rest is donated, and no principal is left.
pub proof fn law_unwind_brings_everything_home(h: HandlerView, before: i128, after: i128)
    requires
        h.principal() > 0,
        0 <= after - before <= i128::MAX,
    ensures
        ({
            let e = laws::run(
                h,
                execution::unwind_started(h),
                seq![Reply::Amount(before)] + (seq![Reply::Amount(after)] + seq![
                    Reply::Amount(0),
                ]),
            );
            let redeemed = after - before;
            let deposit = policy::min_int(redeemed, h.principal() as int);
            &&& e.succeeded()
            &&& e.handler.principal() == 0
            &&& flows::flows(e.calls, 0, deposit, redeemed - deposit, 0, 0)
        }),
{
    let redeemed = after - before;
    let deposit = policy::min_int(redeemed, h.principal() as int);
    let donation = redeemed - deposit;
    let start = execution::unwind_started(h);
    let balances = seq![Reply::Amount(after)] + seq![Reply::Amount(0)];
    laws::lemma_run_step(h, start, Reply::Amount(before), balances);
    let withdraw = execution::waiting(
        None,
        seq![h.withdraw_call(i128::MAX as int), h.own_balance()],
        Stage::UnwindAfter { before },
    );
    assert(laws::next(h, start->then, Reply::Amount(before)) == (h, withdraw)) by {
        reveal(laws::next);
    }
    laws::lemma_run_step(h, withdraw, Reply::Amount(after), seq![Reply::Amount(0)]);
    let moves = execution::unwind_moves(h, redeemed);
    let ending = execution::unwind_ending(h, None, moves, redeemed);
    assert(laws::next(h, withdraw->then, Reply::Amount(after)) == (h, ending)) by {
        reveal(laws::next);
    }
    flows::lemma_residue_is_gone(h, None, ending->then.stage->writes);
    laws::lemma_run_step(h, ending, Reply::Amount(0), seq![]);
    assert(seq![Reply::Amount(0)] =~= seq![Reply::Amount(0)] + seq![]);
    let e = laws::run(h, start, seq![Reply::Amount(before)] + balances);
    let report = ending->Perform_calls[moves.len() as int];
    let read = seq![h.own_balance()];
    let all = seq![h.withdraw_call(i128::MAX as int)];
    let last = seq![report, h.own_balance(), HostCall::ExtendInstanceTtl];
    assert(e.calls =~= read + (all + (read + (moves + last))));
    lemma_unwind_moves_flows(h, redeemed);
    flows::lemma_mover_flows(h, i128::MAX as int);
    flows::lemma_quiet_flows(read);
    flows::lemma_quiet_flows(last);
    let zero = (0int, 0int, 0int, 0int, 0int);
    let sum = (0int, deposit, donation, 0int, 0int);
    flows::lemma_flows_concat(moves, last, sum, zero);
    flows::lemma_flows_concat(read, moves + last, zero, sum);
    flows::lemma_flows_concat(all, read + (moves + last), zero, sum);
    flows::lemma_flows_concat(read, all + (read + (moves + last)), zero, sum);
}

/// Without a position an unwind moves nothing, and still succeeds.
pub proof fn law_unwind_without_a_position(h: HandlerView)
    requires
        h.principal() <= 0,
    ensures
        ({
            let e = laws::run(h, execution::unwind_started(h), seq![Reply::Amount(0)]);
            &&& e.succeeded()
            &&& e.handler.principal() == 0
            &&& flows::all_move_nothing(e.calls)
        }),
{
    let start = execution::unwind_started(h);
    flows::lemma_residue_is_gone(h, None, start->then.stage->writes);
    laws::lemma_run_step(h, start, Reply::Amount(0), seq![]);
    assert(seq![Reply::Amount(0)] =~= seq![Reply::Amount(0)] + seq![]);
}

/// `h` with other gates: another pause, cooldown, band, target, floors and cap.
pub open spec fn with_gates(h: HandlerView, gates: Instance) -> HandlerView {
    h.with_instance(
        Instance {
            target_ratio_bps: gates.target_ratio_bps,
            rebalance_band_bps: gates.rebalance_band_bps,
            min_total_usdc: gates.min_total_usdc,
            rebalance_cooldown_secs: gates.rebalance_cooldown_secs,
            last_rebalance_ts: gates.last_rebalance_ts,
            max_rebalance_amount: gates.max_rebalance_amount,
            min_rebalance_amount: gates.min_rebalance_amount,
            paused: gates.paused,
            ..h.instance()
        },
    )
}

/// No gate stops an unwind or changes how it begins, and of all the gates only the
/// pause stops a manual move. That no gate changes how they go on is said by
/// [`crate::laws::gates::law_gates_stop_only_rebalances`].
pub proof fn law_manual_moves_pass_the_gates(h: HandlerView, gates: Instance, amount: i128)
    ensures
        execution::unwind_started(with_gates(h, gates)) == execution::unwind_started(h),
        !gates.paused_or_default() && !h.instance().paused_or_default() ==> {
            &&& execution::manual_to_blend_started(with_gates(h, gates), amount)
                == execution::manual_to_blend_started(h, amount)
            &&& execution::manual_from_blend_started(with_gates(h, gates), amount)
                == execution::manual_from_blend_started(h, amount)
        },
{
}

/// A manual move to Blend sends exactly `amount` from the pool to Blend and adds
/// it to the principal.
pub proof fn law_manual_to_blend(
    h: HandlerView,
    amount: i128,
    config: BlendPoolConfig,
    state: DelegateState,
)
    requires
        amount > 0,
        !h.instance().paused_or_default(),
        config.status <= BLEND_HEALTHY_STATUS_MAX,
        h.principal() + amount <= i128::MAX,
    ensures
        ({
            let e = laws::run(
                h,
                execution::manual_to_blend_started(h, amount),
                seq![Reply::Config(config)] + (seq![Reply::Performed] + (seq![
                    Reply::Delegate(state),
                ] + seq![Reply::Amount(0)])),
            );
            &&& e.succeeded()
            &&& e.handler.principal() == h.principal() + amount
            &&& e.handler.instance().last_rebalance_ts == h.instance().last_rebalance_ts
            &&& flows::flows(e.calls, amount as int, 0, 0, amount as int, 0)
        }),
{
    let a = amount as int;
    let start = execution::manual_to_blend_started(h, amount);
    let last_two = seq![Reply::Delegate(state)] + seq![Reply::Amount(0)];
    laws::lemma_run_step(h, start, Reply::Config(config), seq![Reply::Performed] + last_two);
    let moving = execution::after_manual_health(h, None, amount, config.status);
    assert(laws::next(h, start->then, Reply::Config(config)) == (h, moving)) by {
        reveal(laws::next);
    }
    laws::lemma_run_step(h, moving, Reply::Performed, last_two);
    let reading = execution::after_manual_supply(h, None, amount);
    assert(laws::next(h, moving->then, Reply::Performed) == (h, reading)) by {
        reveal(laws::next);
    }
    laws::lemma_run_step(h, reading, Reply::Delegate(state), seq![Reply::Amount(0)]);
    let principal_after = (h.principal() + amount) as i128;
    let ending = execution::manual_ending(
        h,
        None,
        Symbol::ToBlend,
        amount,
        principal_after,
        state,
    );
    assert(laws::next(h, reading->then, Reply::Delegate(state)) == (h, ending)) by {
        reveal(laws::next);
    }
    flows::lemma_residue_is_gone(h, None, ending->then.stage->writes);
    laws::lemma_run_step(h, ending, Reply::Amount(0), seq![]);
    assert(seq![Reply::Amount(0)] =~= seq![Reply::Amount(0)] + seq![]);
    let e = laws::run(
        h,
        start,
        seq![Reply::Config(config)] + (seq![Reply::Performed] + last_two),
    );
    let first = seq![h.health_query()];
    let take = seq![h.take_call(a)];
    let supply = h.supply_calls(a);
    let last = seq![h.snapshot_query()] + (ending->Perform_calls + seq![
        HostCall::ExtendInstanceTtl,
    ]);
    assert(e.calls =~= first + ((take + supply) + last));
    flows::lemma_mover_flows(h, a);
    flows::lemma_quiet_flows(first);
    flows::lemma_quiet_flows(last);
    let zero = (0int, 0int, 0int, 0int, 0int);
    let sum = (a, 0int, 0int, a, 0int);
    flows::lemma_flows_concat(take, supply, (a, 0, 0, 0, 0), (0, 0, 0, a, 0));
    flows::lemma_flows_concat(take + supply, last, sum, zero);
    flows::lemma_flows_concat(first, (take + supply) + last, zero, sum);
}

/// A manual move from Blend sends exactly `amount` from Blend to the pool and
/// takes it off the principal, which stays non-negative. (Of the largest number
/// there is, which asks Blend for everything, no amount is claimed.)
pub proof fn law_manual_from_blend(h: HandlerView, amount: i128, state: DelegateState)
    requires
        0 < amount <= h.principal(),
        !h.instance().paused_or_default(),
    ensures
        ({
            let e = laws::run(
                h,
                execution::manual_from_blend_started(h, amount),
                seq![Reply::Delegate(state)] + seq![Reply::Amount(0)],
            );
            &&& e.succeeded()
            &&& e.handler.principal() == h.principal() - amount
            &&& e.handler.principal() >= 0
            &&& e.handler.instance().last_rebalance_ts == h.instance().last_rebalance_ts
            &&& amount < i128::MAX ==> flows::flows(
                e.calls,
                0,
                amount as int,
                0,
                0,
                amount as int,
            )
        }),
{
    let a = amount as int;
    let start = execution::manual_from_blend_started(h, amount);
    laws::lemma_run_step(h, start, Reply::Delegate(state), seq![Reply::Amount(0)]);
    let principal_after = (h.principal() - amount) as i128;
    let ending = execution::manual_ending(
        h,
        None,
        Symbol::FromBlend,
        amount,
        principal_after,
        state,
    );
    assert(laws::next(h, start->then, Reply::Delegate(state)) == (h, ending)) by {
        reveal(laws::next);
    }
    flows::lemma_residue_is_gone(h, None, ending->then.stage->writes);
    laws::lemma_run_step(h, ending, Reply::Amount(0), seq![]);
    assert(seq![Reply::Amount(0)] =~= seq![Reply::Amount(0)] + seq![]);
    let e = laws::run(h, start, seq![Reply::Delegate(state)] + seq![Reply::Amount(0)]);
    if amount < i128::MAX {
        let withdraw = seq![h.withdraw_call(a)];
        let deposit = h.deposit_calls(a);
        let last = seq![h.snapshot_query()] + (ending->Perform_calls + seq![
            HostCall::ExtendInstanceTtl,
        ]);
        assert(e.calls =~= (withdraw + deposit) + last);
        flows::lemma_mover_flows(h, a);
        flows::lemma_quiet_flows(last);
        let zero = (0int, 0int, 0int, 0int, 0int);
        flows::lemma_flows_concat(withdraw, deposit, (0, 0, 0, 0, a), (0, a, 0, 0, 0));
        flows::lemma_flows_concat(withdraw + deposit, last, (0, a, 0, 0, a), zero);
    }
}

/// A manual move from Blend undoes a manual move of the same amount to Blend: the
/// principal is what it was. A handler never writes a negative principal.
pub proof fn law_manual_round_trip(
    h: HandlerView,
    amount: i128,
    config: BlendPoolConfig,
    supplied_state: DelegateState,
    withdrawn_state: DelegateState,
)
    requires
        amount > 0,
        h.principal() >= 0,
        h.principal() + amount <= i128::MAX,
        !h.instance().paused_or_default(),
        config.status <= BLEND_HEALTHY_STATUS_MAX,
    ensures
        ({
            let there = laws::run(
                h,
                execution::manual_to_blend_started(h, amount),
                seq![Reply::Config(config)] + (seq![Reply::Performed] + (seq![
                    Reply::Delegate(supplied_state),
                ] + seq![Reply::Amount(0)])),
            );
            let back = laws::run(
                there.handler,
                execution::manual_from_blend_started(there.handler, amount),
                seq![Reply::Delegate(withdrawn_state)] + seq![Reply::Amount(0)],
            );
            &&& there.succeeded()
            &&& back.succeeded()
            &&& back.handler.principal() == h.principal()
        }),
{
    let start = execution::manual_to_blend_started(h, amount);
    let replies = seq![Reply::Config(config)] + (seq![Reply::Performed] + (seq![
        Reply::Delegate(supplied_state),
    ] + seq![Reply::Amount(0)]));
    let there = laws::run(h, start, replies);
    law_manual_to_blend(h, amount, config, supplied_state);
    laws::law_configuration_survives(h, start, replies);
    law_manual_from_blend(there.handler, amount, withdrawn_state);
}

} // verus!
