//! What a rebalance does with the money.
use crate::error::HandlerError;
use crate::execution;
use crate::execution::{HandlerView, Stage};
use crate::externals::{BlendPoolConfig, DelegateState, Reply};
use crate::laws;
use crate::laws::flows;
use crate::policy;
use crate::policy::{Verdict, BLEND_HEALTHY_STATUS_MAX};
use crate::primitives::EventId;
use vstd::prelude::*;

verus! {

/// A frozen Blend makes every rebalance a no-op that does not consume the
/// cooldown, and a successful one at that.
pub proof fn law_unhealthy_blend_is_left_alone(
    h: HandlerView,
    event_id: Option<EventId>,
    now: u64,
    config: BlendPoolConfig,
    replies: Seq<Reply>,
)
    requires
        config.status > BLEND_HEALTHY_STATUS_MAX,
        replies.len() > 0,
        replies[0] == Reply::Config(config),
    ensures
        laws::run(h, execution::rebalance_started(h, event_id, now), replies).succeeded(),
        flows::was_no_op(h, laws::run(h, execution::rebalance_started(h, event_id, now), replies)),
{
    let start = execution::rebalance_started(h, event_id, now);
    laws::lemma_run_step(h, start, replies[0], replies.drop_first());
    assert(replies =~= seq![replies[0]] + replies.drop_first());
    assert(laws::next(h, start->then, replies[0]) == execution::completed(
        h,
        event_id,
        execution::no_writes(),
        seq![],
    )) by {
        reveal(laws::next);
    }
    assert(execution::written(h.instance(), execution::no_writes()) == h.instance());
}

/// The verdict on a pool in state `state`.
pub open spec fn verdict_on(h: HandlerView, now: u64, state: DelegateState) -> Result<
    Verdict,
    HandlerError,
> {
    policy::verdict_of(
        h.instance(),
        now as int,
        h.liquid_of(state) as int,
        h.total_of(state) as int,
    )
}

/// A rebalance begins with two reads, and goes on from what they say.
proof fn lemma_rebalance_begins(
    h: HandlerView,
    event_id: Option<EventId>,
    now: u64,
    config: BlendPoolConfig,
    state: DelegateState,
    rest: Seq<Reply>,
)
    requires
        config.status <= BLEND_HEALTHY_STATUS_MAX,
    ensures
        ({
            let (next, following) = execution::after_snapshot(h, event_id, now, state);
            let e = laws::run(
                h,
                execution::rebalance_started(h, event_id, now),
                seq![Reply::Config(config), Reply::Delegate(state)] + rest,
            );
            let tail = laws::run(next, following, rest);
            &&& e == (laws::Execution { calls: e.calls, ..tail })
            &&& e.calls == seq![h.health_query(), h.snapshot_query()] + tail.calls
            &&& forall|x: (int, int, int, int, int)| #[trigger]
                flows::flows(tail.calls, x.0, x.1, x.2, x.3, x.4) ==> flows::flows(
                    e.calls,
                    x.0,
                    x.1,
                    x.2,
                    x.3,
                    x.4,
                )
        }),
{
    let start = execution::rebalance_started(h, event_id, now);
    let snapshot = execution::waiting(
        event_id,
        seq![h.snapshot_query()],
        Stage::RebalanceSnapshot { now },
    );
    let all = seq![Reply::Config(config), Reply::Delegate(state)] + rest;
    laws::lemma_run_step(h, start, Reply::Config(config), seq![Reply::Delegate(state)] + rest);
    assert(all =~= seq![Reply::Config(config)] + (seq![Reply::Delegate(state)] + rest));
    assert(laws::next(h, start->then, Reply::Config(config)) == (h, snapshot)) by {
        reveal(laws::next);
    }
    assert(laws::next(h, snapshot->then, Reply::Delegate(state)) == execution::after_snapshot(
        h,
        event_id,
        now,
        state,
    )) by {
        reveal(laws::next);
    }
    laws::lemma_run_step(h, snapshot, Reply::Delegate(state), rest);
    let (next, following) = execution::after_snapshot(h, event_id, now, state);
    let e = laws::run(h, start, all);
    let tail = laws::run(next, following, rest);
    let reads = seq![h.health_query(), h.snapshot_query()];
    assert(e.calls =~= reads + tail.calls);
    flows::lemma_quiet_flows(reads);
    assert forall|x: (int, int, int, int, int)| #[trigger]
        flows::flows(tail.calls, x.0, x.1, x.2, x.3, x.4) implies flows::flows(
        e.calls,
        x.0,
        x.1,
        x.2,
        x.3,
        x.4,
    ) by {
        flows::lemma_flows_concat(reads, tail.calls, (0, 0, 0, 0, 0), x);
    }
}

/// While a rebalance must not or need not move anything, it moves nothing,
/// whatever the host answers next. In particular below the floor on the total,
/// during the cooldown, below the dust floor and inside the band.
pub proof fn law_rebalance_without_a_move_is_a_no_op(
    h: HandlerView,
    event_id: Option<EventId>,
    now: u64,
    config: BlendPoolConfig,
    state: DelegateState,
    rest: Seq<Reply>,
)
    requires
        config.status <= BLEND_HEALTHY_STATUS_MAX,
        verdict_on(h, now, state) == Ok::<Verdict, HandlerError>(Verdict::Skip) || verdict_on(
            h,
            now,
            state,
        ) == Ok::<Verdict, HandlerError>(Verdict::Hold),
    ensures
        flows::was_no_op(
            h,
            laws::run(
                h,
                execution::rebalance_started(h, event_id, now),
                seq![Reply::Config(config), Reply::Delegate(state)] + rest,
            ),
        ),
{
    lemma_rebalance_begins(h, event_id, now, config, state, rest);
    assert(execution::written(h.instance(), execution::no_writes()) == h.instance());
    let (next, following) = execution::after_snapshot(h, event_id, now, state);
    if following is Perform && rest.len() > 0 {
        laws::lemma_run_step(h, following, rest[0], rest.drop_first());
        assert(rest =~= seq![rest[0]] + rest.drop_first());
        reveal(laws::next);
    }
}

/// A move to Blend, once the host has done its part: exactly the decided amount
/// goes from the pool to Blend, the principal grows by it, and the cooldown
/// starts.
pub proof fn law_rebalance_to_blend(
    h: HandlerView,
    event_id: Option<EventId>,
    now: u64,
    config: BlendPoolConfig,
    state: DelegateState,
    amount: i128,
)
    requires
        config.status <= BLEND_HEALTHY_STATUS_MAX,
        verdict_on(h, now, state) == Ok::<Verdict, HandlerError>(Verdict::ToBlend(amount)),
        h.principal() + amount <= i128::MAX,
    ensures
        ({
            let e = laws::run(
                h,
                execution::rebalance_started(h, event_id, now),
                seq![Reply::Config(config), Reply::Delegate(state)] + seq![
                    Reply::Performed,
                    Reply::Amount(0),
                ],
            );
            &&& e.succeeded()
            &&& e.handler.principal() == h.principal() + amount
            &&& e.handler.instance().last_rebalance_ts == Some(now)
            &&& flows::flows(e.calls, amount as int, 0, 0, amount as int, 0)
        }),
{
    let a = amount as int;
    let rest = seq![Reply::Performed, Reply::Amount(0)];
    lemma_rebalance_begins(h, event_id, now, config, state, rest);
    policy::lemma_to_blend_is_bounded(
        h.instance(),
        now as int,
        h.liquid_of(state),
        h.total_of(state),
        amount,
    );
    let moving = execution::after_snapshot(h, event_id, now, state).1;
    let moves = seq![h.take_call(a)] + h.supply_calls(a);
    assert(moving->Perform_calls == moves);
    laws::lemma_run_step(h, moving, Reply::Performed, seq![Reply::Amount(0)]);
    assert(rest =~= seq![Reply::Performed] + seq![Reply::Amount(0)]);
    assert(laws::next(h, moving->then, Reply::Performed) == (
        h,
        execution::after_rebalance_supply(
            h,
            event_id,
            now,
            amount,
            (h.liquid_of(state) - a) as i128,
            (h.total_of(state) - h.liquid_of(state) + a) as i128,
        ),
    )) by {
        reveal(laws::next);
    }
    let settling = laws::next(h, moving->then, Reply::Performed).1;
    flows::lemma_residue_is_gone(h, event_id, settling->then.stage->writes);
    laws::lemma_run_step(h, settling, Reply::Amount(0), seq![]);
    assert(seq![Reply::Amount(0)] =~= seq![Reply::Amount(0)] + seq![]);
    let (end, ending) = laws::next(h, settling->then, Reply::Amount(0));
    flows::lemma_mover_flows(h, a);
    flows::lemma_flows_concat(
        seq![h.take_call(a)],
        h.supply_calls(a),
        (a, 0, 0, 0, 0),
        (0, 0, 0, a, 0),
    );
    let after = settling->Perform_calls + ending->Complete_calls;
    flows::lemma_quiet_flows(after);
    flows::lemma_flows_concat(moves, after, (a, 0, 0, a, 0), (0, 0, 0, 0, 0));
}

/// A move from Blend, once the host has done its part: exactly the decided
/// amount goes from Blend to the pool, the principal shrinks by it, and the
/// cooldown starts.
pub proof fn law_rebalance_from_blend(
    h: HandlerView,
    event_id: Option<EventId>,
    now: u64,
    config: BlendPoolConfig,
    state: DelegateState,
    amount: i128,
)
    requires
        config.status <= BLEND_HEALTHY_STATUS_MAX,
        verdict_on(h, now, state) == Ok::<Verdict, HandlerError>(Verdict::FromBlend(amount)),
    ensures
        ({
            let e = laws::run(
                h,
                execution::rebalance_started(h, event_id, now),
                seq![Reply::Config(config), Reply::Delegate(state)] + seq![Reply::Amount(0)],
            );
            &&& e.succeeded()
            &&& e.handler.principal() == h.principal() - amount
            &&& e.handler.principal() >= 0
            &&& e.handler.instance().last_rebalance_ts == Some(now)
            &&& flows::flows(e.calls, 0, amount as int, 0, 0, amount as int)
        }),
{
    let a = amount as int;
    let rest = seq![Reply::Amount(0)];
    lemma_rebalance_begins(h, event_id, now, config, state, rest);
    policy::lemma_from_blend_is_bounded(
        h.instance(),
        now as int,
        h.liquid_of(state),
        h.total_of(state),
        amount,
    );
    let settling = execution::after_snapshot(h, event_id, now, state).1;
    flows::lemma_residue_is_gone(h, event_id, settling->then.stage->writes);
    laws::lemma_run_step(h, settling, Reply::Amount(0), seq![]);
    assert(rest =~= rest + seq![]);
    let (end, ending) = laws::next(h, settling->then, Reply::Amount(0));
    let moves = seq![h.withdraw_call(a)] + h.deposit_calls(a);
    let all = settling->Perform_calls + ending->Complete_calls;
    let after = all.subrange(3, all.len() as int);
    assert(all =~= moves + after);
    flows::lemma_mover_flows(h, a);
    flows::lemma_flows_concat(
        seq![h.withdraw_call(a)],
        h.deposit_calls(a),
        (0, 0, 0, 0, a),
        (0, a, 0, 0, 0),
    );
    flows::lemma_quiet_flows(after);
    flows::lemma_flows_concat(moves, after, (0, a, 0, 0, a), (0, 0, 0, 0, 0));
}

/// During the cooldown no rebalance moves anything, whatever the host answers.
pub proof fn law_cooldown_holds(
    h: HandlerView,
    event_id: Option<EventId>,
    now: u64,
    replies: Seq<Reply>,
)
    requires
        policy::cooling_down(h.instance(), now as int),
    ensures
        flows::was_no_op(h, laws::run(h, execution::rebalance_started(h, event_id, now), replies)),
{
    let start = execution::rebalance_started(h, event_id, now);
    assert(execution::written(h.instance(), execution::no_writes()) == h.instance());
    if replies.len() > 0 {
        let rest = replies.drop_first();
        laws::lemma_run_step(h, start, replies[0], rest);
        assert(replies =~= seq![replies[0]] + rest);
        let (next, following) = laws::next(h, start->then, replies[0]);
        assert(following is Perform ==> (next, following) == (
            h,
            execution::waiting(
                event_id,
                seq![h.snapshot_query()],
                Stage::RebalanceSnapshot { now },
            ),
        )) by {
            reveal(laws::next);
        }
        assert(following !is Perform ==> flows::was_no_op(
            h,
            laws::run(next, following, rest),
        )) by {
            reveal(laws::next);
        }
        if following is Perform && rest.len() > 0 {
            laws::lemma_run_step(h, following, rest[0], rest.drop_first());
            assert(rest =~= seq![rest[0]] + rest.drop_first());
            let (last, ending) = laws::next(h, following->then, rest[0]);
            assert(ending !is Perform && flows::was_no_op(
                h,
                laws::run(last, ending, rest.drop_first()),
            )) by {
                reveal(laws::next);
            }
        }
    }
}

/// Two rebalances that move money lie at least one cooldown apart: after a
/// successful one at `now`, one that comes earlier than that moves nothing,
/// whatever the host answers.
pub proof fn law_moves_are_a_cooldown_apart(
    h: HandlerView,
    now: u64,
    later: u64,
    first_id: Option<EventId>,
    second_id: Option<EventId>,
    config: BlendPoolConfig,
    state: DelegateState,
    amount: i128,
    replies: Seq<Reply>,
)
    requires
        config.status <= BLEND_HEALTHY_STATUS_MAX,
        verdict_on(h, now, state) == Ok::<Verdict, HandlerError>(Verdict::ToBlend(amount))
            || verdict_on(h, now, state) == Ok::<Verdict, HandlerError>(
            Verdict::FromBlend(amount),
        ),
        verdict_on(h, now, state) == Ok::<Verdict, HandlerError>(Verdict::ToBlend(amount))
            ==> h.principal() + amount <= i128::MAX,
        later < now + h.instance().rebalance_cooldown_secs->0,
        later < u64::MAX,
    ensures
        ({
            let moved = laws::run(
                h,
                execution::rebalance_started(h, first_id, now),
                seq![Reply::Config(config), Reply::Delegate(state)] + (if verdict_on(
                    h,
                    now,
                    state,
                ) == Ok::<Verdict, HandlerError>(Verdict::ToBlend(amount)) {
                    seq![Reply::Performed, Reply::Amount(0)]
                } else {
                    seq![Reply::Amount(0)]
                }),
            );
            &&& moved.succeeded()
            &&& flows::was_no_op(
                moved.handler,
                laws::run(
                    moved.handler,
                    execution::rebalance_started(moved.handler, second_id, later),
                    replies,
                ),
            )
        }),
{
    if verdict_on(h, now, state) == Ok::<Verdict, HandlerError>(Verdict::ToBlend(amount)) {
        let script = seq![Reply::Config(config), Reply::Delegate(state)] + seq![
            Reply::Performed,
            Reply::Amount(0),
        ];
        let moved = laws::run(h, execution::rebalance_started(h, first_id, now), script);
        law_rebalance_to_blend(h, first_id, now, config, state, amount);
        laws::law_configuration_survives(
            h,
            execution::rebalance_started(h, first_id, now),
            script,
        );
        law_cooldown_holds(moved.handler, second_id, later, replies);
    } else {
        let script = seq![Reply::Config(config), Reply::Delegate(state)] + seq![Reply::Amount(0)];
        let moved = laws::run(h, execution::rebalance_started(h, first_id, now), script);
        law_rebalance_from_blend(h, first_id, now, config, state, amount);
        laws::law_configuration_survives(
            h,
            execution::rebalance_started(h, first_id, now),
            script,
        );
        law_cooldown_holds(moved.handler, second_id, later, replies);
    }
}

} // verus!
