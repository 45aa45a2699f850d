//! What a harvest does with the money.
use crate::execution;
use crate::execution::{HandlerView, Stage};
use crate::externals::{BlendPoolConfig, HostCall, Reply};
use crate::laws;
use crate::laws::flows;
use crate::policy;
use crate::policy::BLEND_HEALTHY_STATUS_MAX;
use crate::primitives::EventId;
use vstd::prelude::*;

verus! {

/// The beginning of every harvest: the emissions go to the treasury, and the
/// health of Blend is read.
proof fn lemma_harvest_begins(
    h: HandlerView,
    event_id: Option<EventId>,
    now: u64,
    blnd_routed: i128,
    config: BlendPoolConfig,
    rest: Seq<Reply>,
)
    ensures
        ({
            let following = execution::after_harvest_health(
                h,
                event_id,
                now,
                blnd_routed,
                config.status,
            );
            let e = laws::run(
                h,
                execution::harvest_started(h, event_id, now),
                seq![Reply::Amount(blnd_routed), Reply::Config(config)] + rest,
            );
            let tail = laws::run(h, following, rest);
            let claim = laws::conduct::calls_in(execution::harvest_started(h, event_id, now))[0];
            &&& e == (laws::Execution { calls: e.calls, ..tail })
            &&& e.calls == seq![claim, h.health_query()] + tail.calls
        }),
{
    let start = execution::harvest_started(h, event_id, now);
    let health = execution::waiting(
        event_id,
        seq![h.health_query()],
        Stage::HarvestHealth { now, blnd_routed },
    );
    let claimed = Reply::Amount(blnd_routed);
    let all = seq![claimed, Reply::Config(config)] + rest;
    laws::lemma_run_step(h, start, claimed, seq![Reply::Config(config)] + rest);
    assert(all =~= seq![claimed] + (seq![Reply::Config(config)] + rest));
    assert(laws::next(h, start->then, claimed) == (h, health)) by {
        reveal(laws::next);
    }
    laws::lemma_run_step(h, health, Reply::Config(config), rest);
    assert(laws::next(h, health->then, Reply::Config(config)) == (
        h,
        execution::after_harvest_health(h, event_id, now, blnd_routed, config.status),
    )) by {
        reveal(laws::next);
    }
}

/// `call` claims the emissions for the treasury.
pub open spec fn claims_for_treasury(h: HandlerView, call: HostCall) -> bool {
    call == (HostCall::Claim {
        blend_pool: h.instance().blend_pool->0,
        from: h.address,
        reserve_token_id: h.instance().usdc_reserve_token_id->0,
        to: h.instance().blnd_treasury->0,
    })
}

/// A harvest without a position, or with an unhealthy Blend, still routes the
/// emissions to the treasury and succeeds; no USDC moves and the principal
/// stays.
pub proof fn law_harvest_without_a_position(
    h: HandlerView,
    event_id: Option<EventId>,
    now: u64,
    blnd_routed: i128,
    config: BlendPoolConfig,
)
    requires
        h.principal() <= 0 || config.status > BLEND_HEALTHY_STATUS_MAX,
    ensures
        ({
            let e = laws::run(
                h,
                execution::harvest_started(h, event_id, now),
                seq![Reply::Amount(blnd_routed), Reply::Config(config)] + seq![Reply::Amount(0)],
            );
            &&& e.succeeded()
            &&& claims_for_treasury(h, e.calls[0])
            &&& flows::all_move_nothing(e.calls)
            &&& e.handler.principal() == h.principal()
            &&& e.handler.instance().last_harvest_ts == Some(now)
        }),
{
    lemma_harvest_begins(h, event_id, now, blnd_routed, config, seq![Reply::Amount(0)]);
    let ending = execution::after_harvest_health(h, event_id, now, blnd_routed, config.status);
    flows::lemma_residue_is_gone(h, event_id, ending->then.stage->writes);
    laws::lemma_run_step(h, ending, Reply::Amount(0), seq![]);
    assert(seq![Reply::Amount(0)] =~= seq![Reply::Amount(0)] + seq![]);
}

/// A harvest whose withdraw Blend refuses succeeds all the same: the emissions
/// are with the treasury, no USDC was moved and the principal stays.
pub proof fn law_refused_withdraw_keeps_the_emissions(
    h: HandlerView,
    event_id: Option<EventId>,
    now: u64,
    blnd_routed: i128,
    config: BlendPoolConfig,
    before: i128,
)
    requires
        h.principal() > 0,
        config.status <= BLEND_HEALTHY_STATUS_MAX,
    ensures
        ({
            let e = laws::run(
                h,
                execution::harvest_started(h, event_id, now),
                seq![Reply::Amount(blnd_routed), Reply::Config(config)] + (seq![
                    Reply::Amount(before),
                ] + (seq![Reply::Submitted(false)] + seq![Reply::Amount(0)])),
            );
            &&& e.succeeded()
            &&& claims_for_treasury(h, e.calls[0])
            &&& flows::flows(e.calls, 0, 0, 0, 0, 0)
            &&& e.handler.principal() == h.principal()
            &&& e.handler.instance().last_harvest_ts == Some(now)
        }),
{
    let after_withdraw = seq![Reply::Submitted(false)] + seq![Reply::Amount(0)];
    lemma_harvest_begins(
        h,
        event_id,
        now,
        blnd_routed,
        config,
        seq![Reply::Amount(before)] + after_withdraw,
    );
    lemma_harvest_withdraws(h, event_id, now, blnd_routed, config, before, after_withdraw);
    let withdraw = execution::waiting(
        event_id,
        seq![h.try_withdraw_all_call()],
        Stage::HarvestWithdraw { now, blnd_routed, before },
    );
    laws::lemma_run_step(h, withdraw, Reply::Submitted(false), seq![Reply::Amount(0)]);
    let ending = execution::after_harvest_withdraw(h, event_id, now, blnd_routed, before, false);
    assert(laws::next(h, withdraw->then, Reply::Submitted(false)) == (h, ending)) by {
        reveal(laws::next);
    }
    flows::lemma_residue_is_gone(h, event_id, ending->then.stage->writes);
    laws::lemma_run_step(h, ending, Reply::Amount(0), seq![]);
    assert(seq![Reply::Amount(0)] =~= seq![Reply::Amount(0)] + seq![]);
    let e = laws::run(
        h,
        execution::harvest_started(h, event_id, now),
        seq![Reply::Amount(blnd_routed), Reply::Config(config)] + (seq![Reply::Amount(before)]
            + after_withdraw),
    );
    flows::lemma_quiet_flows(e.calls);
}

/// A harvest of a healthy position reads the handler's balance and withdraws.
proof fn lemma_harvest_withdraws(
    h: HandlerView,
    event_id: Option<EventId>,
    now: u64,
    blnd_routed: i128,
    config: BlendPoolConfig,
    before: i128,
    rest: Seq<Reply>,
)
    requires
        h.principal() > 0,
        config.status <= BLEND_HEALTHY_STATUS_MAX,
    ensures
        ({
            let reading = execution::after_harvest_health(
                h,
                event_id,
                now,
                blnd_routed,
                config.status,
            );
            let withdraw = execution::waiting(
                event_id,
                seq![h.try_withdraw_all_call()],
                Stage::HarvestWithdraw { now, blnd_routed, before },
            );
            let e = laws::run(h, reading, seq![Reply::Amount(before)] + rest);
            let tail = laws::run(h, withdraw, rest);
            &&& e == (laws::Execution { calls: e.calls, ..tail })
            &&& e.calls == seq![h.own_balance()] + tail.calls
        }),
{
    let reading = execution::after_harvest_health(h, event_id, now, blnd_routed, config.status);
    laws::lemma_run_step(h, reading, Reply::Amount(before), rest);
    assert(laws::next(h, reading->then, Reply::Amount(before)) == (
        h,
        execution::waiting(
            event_id,
            seq![h.try_withdraw_all_call()],
            Stage::HarvestWithdraw { now, blnd_routed, before },
        ),
    )) by {
        reveal(laws::next);
    }
}

proof fn lemma_harvest_moves_flows(h: HandlerView, redeemed: int)
    requires
        h.principal() > 0,
        0 <= redeemed <= i128::MAX,
    ensures
        flows::flows(
            execution::harvest_moves(h, redeemed),
            0,
            0,
            execution::interest_of(h.principal() as int, redeemed),
            execution::resupplied(h.principal() as int, redeemed),
            0,
        ),
{
    let principal = h.principal() as int;
    let supply = execution::resupplied(principal, redeemed);
    let interest = execution::interest_of(principal, redeemed);
    flows::lemma_mover_flows(h, supply);
    flows::lemma_mover_flows(h, interest);
    flows::lemma_quiet_flows(seq![]);
    flows::lemma_quiet_flows(seq![execution::bad_debt_event(principal, redeemed)]);
    let first = if supply > 0 {
        h.supply_calls(supply)
    } else {
        seq![]
    };
    let second = if redeemed < principal {
        seq![execution::bad_debt_event(principal, redeemed)]
    } else {
        seq![]
    };
    let third = if interest > 0 {
        h.donate_calls(interest)
    } else {
        seq![]
    };
    flows::lemma_flows_concat(first, second, (0, 0, 0, supply, 0), (0, 0, 0, 0, 0));
    flows::lemma_flows_concat(first + second, third, (0, 0, 0, supply, 0), (0, 0, interest, 0, 0));
}

/// An element that is not in the first part is in the whole if and only if it is
/// in the second.
proof fn lemma_contains_in_concat(a: Seq<HostCall>, b: Seq<HostCall>, call: HostCall)
    requires
        forall|j: int| 0 <= j < a.len() ==> #[trigger] a[j] != call,
    ensures
        (a + b).contains(call) <==> b.contains(call),
{
    if b.contains(call) {
        let j = choose|j: int| 0 <= j < b.len() && b[j] == call;
        assert((a + b)[a.len() + j] == call);
    }
    if (a + b).contains(call) {
        let j = choose|j: int| 0 <= j < (a + b).len() && (a + b)[j] == call;
        assert(b[j - a.len()] == call);
    }
}

/// The moves of a harvest hold the warning if and only if there is a shortfall.
proof fn lemma_harvest_warns(h: HandlerView, redeemed: int, last: Seq<HostCall>)
    requires
        h.principal() > 0,
        0 <= redeemed <= i128::MAX,
        forall|j: int|
            0 <= j < last.len() ==> #[trigger] last[j] != execution::bad_debt_event(
                h.principal() as int,
                redeemed,
            ),
    ensures
        redeemed < h.principal() <==> (execution::harvest_moves(h, redeemed) + last).contains(
            execution::bad_debt_event(h.principal() as int, redeemed),
        ),
{
    let principal = h.principal() as int;
    let warning = execution::bad_debt_event(principal, redeemed);
    let all = execution::harvest_moves(h, redeemed) + last;
    if redeemed < principal {
        let at = if execution::resupplied(principal, redeemed) > 0 {
            2int
        } else {
            0int
        };
        assert(all[at] == warning);
    } else {
        assert forall|j: int| 0 <= j < all.len() implies all[j] != warning by {
            if j >= execution::harvest_moves(h, redeemed).len() {
                assert(all[j] == last[j - execution::harvest_moves(h, redeemed).len()]);
            }
        }
    }
}

/// From the withdraw on: the position comes back and is split.
proof fn lemma_harvest_redeems(
    h: HandlerView,
    event_id: Option<EventId>,
    now: u64,
    blnd_routed: i128,
    before: i128,
    after: i128,
)
    requires
        h.principal() > 0,
        0 <= after - before <= i128::MAX,
    ensures
        ({
            let withdraw = execution::waiting(
                event_id,
                seq![h.try_withdraw_all_call()],
                Stage::HarvestWithdraw { now, blnd_routed, before },
            );
            let e = laws::run(
                h,
                withdraw,
                seq![Reply::Submitted(true)] + (seq![Reply::Amount(after)] + seq![
                    Reply::Amount(0),
                ]),
            );
            let redeemed = after - before;
            let supplied = policy::min_int(h.principal() as int, redeemed);
            &&& e.succeeded()
            &&& e.handler.principal() == supplied
            &&& e.handler.instance().last_harvest_ts == Some(now)
            &&& flows::flows(e.calls, 0, 0, redeemed - supplied, supplied, 0)
            &&& redeemed < h.principal() <==> e.calls.contains(
                execution::bad_debt_event(h.principal() as int, redeemed),
            )
        }),
{
    let redeemed = after - before;
    let principal = h.principal() as int;
    let supplied = policy::min_int(principal, redeemed);
    let interest = redeemed - supplied;
    assert(interest == execution::interest_of(principal, redeemed));
    let withdraw = execution::waiting(
        event_id,
        seq![h.try_withdraw_all_call()],
        Stage::HarvestWithdraw { now, blnd_routed, before },
    );
    let balances = seq![Reply::Amount(after)] + seq![Reply::Amount(0)];
    laws::lemma_run_step(h, withdraw, Reply::Submitted(true), balances);
    let reading = execution::after_harvest_withdraw(h, event_id, now, blnd_routed, before, true);
    assert(laws::next(h, withdraw->then, Reply::Submitted(true)) == (h, reading)) by {
        reveal(laws::next);
    }
    laws::lemma_run_step(h, reading, Reply::Amount(after), seq![Reply::Amount(0)]);
    let ending = execution::after_harvest_redeem(h, event_id, now, blnd_routed, before, after);
    assert(laws::next(h, reading->then, Reply::Amount(after)) == (h, ending)) by {
        reveal(laws::next);
    }
    flows::lemma_residue_is_gone(h, event_id, ending->then.stage->writes);
    laws::lemma_run_step(h, ending, Reply::Amount(0), seq![]);
    assert(seq![Reply::Amount(0)] =~= seq![Reply::Amount(0)] + seq![]);
    let e = laws::run(h, withdraw, seq![Reply::Submitted(true)] + balances);
    let first = seq![h.try_withdraw_all_call()] + seq![h.own_balance()];
    let moves = execution::harvest_moves(h, redeemed);
    let report = ending->Perform_calls[moves.len() as int];
    let last = seq![report, h.own_balance()] + (seq![HostCall::ExtendInstanceTtl]
        + execution::closing_calls(event_id));
    assert(e.calls =~= first + (moves + last));
    lemma_harvest_moves_flows(h, redeemed);
    flows::lemma_quiet_flows(first);
    flows::lemma_quiet_flows(last);
    flows::lemma_flows_concat(moves, last, (0, 0, interest, supplied, 0), (0, 0, 0, 0, 0));
    flows::lemma_flows_concat(first, moves + last, (0, 0, 0, 0, 0), (0, 0, interest, supplied, 0));
    let warning = execution::bad_debt_event(principal, redeemed);
    lemma_harvest_warns(h, redeemed, last);
    lemma_contains_in_concat(first, moves + last, warning);
}

/// A harvest of a healthy position splits what Blend redeemed without a rest:
/// the principal, or all there is, goes back into Blend, and what is above it
/// is donated. The principal never grows, and shrinks exactly to what is left
/// after a write-down.
pub proof fn law_harvest_splits_the_position(
    h: HandlerView,
    event_id: Option<EventId>,
    now: u64,
    blnd_routed: i128,
    config: BlendPoolConfig,
    before: i128,
    after: i128,
)
    requires
        h.principal() > 0,
        config.status <= BLEND_HEALTHY_STATUS_MAX,
        0 <= after - before <= i128::MAX,
    ensures
        ({
            let e = laws::run(
                h,
                execution::harvest_started(h, event_id, now),
                seq![Reply::Amount(blnd_routed), Reply::Config(config)] + (seq![
                    Reply::Amount(before),
                ] + (seq![Reply::Submitted(true)] + (seq![Reply::Amount(after)] + seq![
                    Reply::Amount(0),
                ]))),
            );
            let redeemed = after - before;
            let supplied = policy::min_int(h.principal() as int, redeemed);
            &&& e.succeeded()
            &&& claims_for_treasury(h, e.calls[0])
            &&& e.handler.principal() == supplied
            &&& e.handler.instance().last_harvest_ts == Some(now)
            &&& flows::flows(e.calls, 0, 0, redeemed - supplied, supplied, 0)
            &&& redeemed < h.principal() <==> e.calls.contains(
                execution::bad_debt_event(h.principal() as int, redeemed),
            )
        }),
{
    let redeemed = after - before;
    let principal = h.principal() as int;
    let supplied = policy::min_int(principal, redeemed);
    let interest = redeemed - supplied;
    assert(interest == execution::interest_of(principal, redeemed));
    let start = execution::harvest_started(h, event_id, now);
    let balances = seq![Reply::Amount(after)] + seq![Reply::Amount(0)];
    let after_withdraw = seq![Reply::Submitted(true)] + balances;
    lemma_harvest_begins(
        h,
        event_id,
        now,
        blnd_routed,
        config,
        seq![Reply::Amount(before)] + after_withdraw,
    );
    lemma_harvest_withdraws(h, event_id, now, blnd_routed, config, before, after_withdraw);
    lemma_harvest_redeems(h, event_id, now, blnd_routed, before, after);
    let withdraw = execution::waiting(
        event_id,
        seq![h.try_withdraw_all_call()],
        Stage::HarvestWithdraw { now, blnd_routed, before },
    );
    let tail = laws::run(h, withdraw, after_withdraw);
    let claim = laws::conduct::calls_in(start)[0];
    let reads = seq![claim, h.health_query()] + seq![h.own_balance()];
    let script = seq![Reply::Amount(blnd_routed), Reply::Config(config)] + (seq![
        Reply::Amount(before),
    ] + after_withdraw);
    let e = laws::run(h, start, script);
    assert(e.calls =~= reads + tail.calls);
    flows::lemma_quiet_flows(reads);
    flows::lemma_flows_concat(reads, tail.calls, (0, 0, 0, 0, 0), (0, 0, interest, supplied, 0));
    let warning = execution::bad_debt_event(principal, redeemed);
    lemma_contains_in_concat(reads, tail.calls, warning);
}

/// A harvest never claims the debt side of a reserve.
pub proof fn law_claims_are_on_the_supply_side(h: HandlerView, event_id: Option<EventId>, now: u64)
    requires
        h.constructed(),
        h.instance().config_in_range(),
    ensures
        laws::conduct::calls_in(execution::harvest_started(h, event_id, now))[0]
            matches HostCall::Claim { reserve_token_id, .. } && reserve_token_id % 2 == 1,
{
}

} // verus!
