//! Transactions from end to end: what each asks of the host, call by call, and
//! what it leaves behind. Everything is said in the entries of the storage, the
//! fields of the calls and plain numbers.
use crate::error::{Failure, HandlerError, LocalError, Rejection};
use crate::events::{
    BadDebtDetected, EmergencyUnwound, Event, HarvestCompleted, HarvestPartial, RebalanceExecuted,
    Symbol,
};
use crate::execution;
use crate::execution::{HandlerView, StepView, Writes};
use crate::externals::{BlendPoolConfig, BlendRequest, DelegateState, HostCall, Reply};
use crate::laws;
use crate::laws::Execution;
use crate::policy;
use crate::policy::Verdict;
use crate::primitives::EventId;
use crate::storage::{Instance, StorageView};
use vstd::prelude::*;

verus! {

/// One reply, and then the rest.
proof fn lemma_runs_on(h: HandlerView, step: StepView, reply: Reply, rest: Seq<Reply>)
    requires
        step is Perform,
    ensures
        ({
            let (after, following) = execution::resumed(h, step->then, reply);
            laws::run(h, step, seq![reply] + rest) == (Execution {
                calls: step->Perform_calls + laws::run(after, following, rest).calls,
                ..laws::run(after, following, rest)
            })
        }),
{
    laws::lemma_run_step(h, step, reply, rest);
    reveal(laws::next);
}

/// The end of every transaction that moves money.
proof fn lemma_settles(
    h: HandlerView,
    event_id: Option<EventId>,
    calls: Seq<HostCall>,
    writes: Writes,
    balance: i128,
)
    ensures
        ({
            let read = HostCall::Balance { token: h.storage.instance.usdc->0, holder: h.address };
            laws::run(
                h,
                execution::settling(h, event_id, calls, writes),
                seq![Reply::Amount(balance)],
            ) == (if balance == 0 {
                Execution {
                    handler: HandlerView {
                        address: h.address,
                        storage: StorageView {
                            instance: execution::written(h.storage.instance, writes),
                            version: h.storage.version,
                            seen: match event_id {
                                Some(id) => h.storage.seen.insert(id),
                                None => h.storage.seen,
                            },
                        },
                    },
                    calls: calls + seq![read, HostCall::ExtendInstanceTtl] + match event_id {
                        Some(id) => seq![
                            HostCall::ExtendEventTtl { event_id: id },
                            HostCall::ExtendInstanceTtl,
                            HostCall::Publish(Event::Verified { event_id: id }),
                        ],
                        None => seq![],
                    },
                    outcome: Some(Ok(())),
                }
            } else {
                Execution {
                    handler: h,
                    calls: calls + seq![read],
                    outcome: Some(Err(Failure::Local(LocalError::UsdcLeak))),
                }
            })
        }),
{
    let step = execution::settling(h, event_id, calls, writes);
    lemma_runs_on(h, step, Reply::Amount(balance), seq![]);
    assert(seq![Reply::Amount(balance)] =~= seq![Reply::Amount(balance)] + seq![]);
    let e = laws::run(h, step, seq![Reply::Amount(balance)]);
    let read = HostCall::Balance { token: h.storage.instance.usdc->0, holder: h.address };
    if balance == 0 {
        assert(e.calls =~= calls + seq![read, HostCall::ExtendInstanceTtl] + match event_id {
            Some(id) => seq![
                HostCall::ExtendEventTtl { event_id: id },
                HostCall::ExtendInstanceTtl,
                HostCall::Publish(Event::Verified { event_id: id }),
            ],
            None => seq![],
        });
    } else {
        assert(e.calls =~= calls + seq![read]);
    }
}

/// A rebalance asks Blend for its status. Above 3 it ends there, a success that
/// keeps nothing but that the envelope was seen; otherwise it asks the pool for
/// its balances.
pub proof fn law_rebalance_asks_for_the_status(
    h: HandlerView,
    event_id: Option<EventId>,
    now: u64,
    config: BlendPoolConfig,
)
    ensures
        ({
            let i = h.storage.instance;
            let e = laws::run(
                h,
                execution::rebalance_started(h, event_id, now),
                seq![Reply::Config(config)],
            );
            let status = HostCall::GetConfig { blend_pool: i.blend_pool->0 };
            let balances = HostCall::QueryDelegateState { blended_pool: i.blended_pool->0 };
            e == (if config.status > 3 {
                Execution {
                    handler: HandlerView {
                        address: h.address,
                        storage: StorageView {
                            instance: i,
                            version: h.storage.version,
                            seen: match event_id {
                                Some(id) => h.storage.seen.insert(id),
                                None => h.storage.seen,
                            },
                        },
                    },
                    calls: seq![status] + match event_id {
                        Some(id) => seq![
                            HostCall::ExtendEventTtl { event_id: id },
                            HostCall::ExtendInstanceTtl,
                            HostCall::Publish(Event::Verified { event_id: id }),
                        ],
                        None => seq![],
                    },
                    outcome: Some(Ok(())),
                }
            } else {
                Execution { handler: h, calls: seq![status, balances], outcome: None }
            })
        }),
{
    let i = h.storage.instance;
    let start = execution::rebalance_started(h, event_id, now);
    lemma_runs_on(h, start, Reply::Config(config), seq![]);
    assert(seq![Reply::Config(config)] =~= seq![Reply::Config(config)] + seq![]);
    let e = laws::run(h, start, seq![Reply::Config(config)]);
    let status = HostCall::GetConfig { blend_pool: i.blend_pool->0 };
    let balances = HostCall::QueryDelegateState { blended_pool: i.blended_pool->0 };
    assert(execution::written(i, execution::no_writes()) == i);
    if config.status > 3 {
        assert(e.calls =~= seq![status] + match event_id {
            Some(id) => seq![
                HostCall::ExtendEventTtl { event_id: id },
                HostCall::ExtendInstanceTtl,
                HostCall::Publish(Event::Verified { event_id: id }),
            ],
            None => seq![],
        });
    } else {
        assert(e.calls =~= seq![status, balances]);
    }
}

/// The first two replies of a rebalance.
proof fn lemma_rebalance_reads(
    h: HandlerView,
    event_id: Option<EventId>,
    now: u64,
    config: BlendPoolConfig,
    state: DelegateState,
    rest: Seq<Reply>,
)
    requires
        config.status <= 3,
    ensures
        ({
            let i = h.storage.instance;
            let (after, following) = execution::after_snapshot(h, event_id, now, state);
            let tail = laws::run(after, following, rest);
            laws::run(
                h,
                execution::rebalance_started(h, event_id, now),
                seq![Reply::Config(config), Reply::Delegate(state)] + rest,
            ) == (Execution {
                calls: seq![
                    HostCall::GetConfig { blend_pool: i.blend_pool->0 },
                    HostCall::QueryDelegateState { blended_pool: i.blended_pool->0 },
                ] + tail.calls,
                ..tail
            })
        }),
{
    let start = execution::rebalance_started(h, event_id, now);
    let second = seq![Reply::Delegate(state)] + rest;
    lemma_runs_on(h, start, Reply::Config(config), second);
    let reading = execution::resumed(h, start->then, Reply::Config(config)).1;
    lemma_runs_on(h, reading, Reply::Delegate(state), rest);
    let all = seq![Reply::Config(config), Reply::Delegate(state)] + rest;
    assert(all =~= seq![Reply::Config(config)] + second);
    let (after, following) = execution::after_snapshot(h, event_id, now, state);
    let tail = laws::run(after, following, rest);
    assert(laws::run(h, start, all).calls =~= seq![
        HostCall::GetConfig { blend_pool: h.storage.instance.blend_pool->0 },
        HostCall::QueryDelegateState { blended_pool: h.storage.instance.blended_pool->0 },
    ] + tail.calls);
}

/// A rebalance that has to stop, that may not move anything, or that need not:
/// after the two reads it fails, ends, or reads the handler's own balance and
/// ends. No entry of the instance changes.
pub proof fn law_rebalance_without_a_move_call_by_call(
    h: HandlerView,
    event_id: Option<EventId>,
    now: u64,
    config: BlendPoolConfig,
    state: DelegateState,
    balance: i128,
)
    requires
        config.status <= 3,
    ensures
        ({
            let i = h.storage.instance;
            let verdict = policy::verdict_of(
                i,
                now as int,
                h.liquid_of(state) as int,
                h.total_of(state) as int,
            );
            let e = laws::run(
                h,
                execution::rebalance_started(h, event_id, now),
                seq![Reply::Config(config), Reply::Delegate(state)] + seq![Reply::Amount(balance)],
            );
            let reads = seq![
                HostCall::GetConfig { blend_pool: i.blend_pool->0 },
                HostCall::QueryDelegateState { blended_pool: i.blended_pool->0 },
            ];
            let read = HostCall::Balance { token: i.usdc->0, holder: h.address };
            let closing = match event_id {
                Some(id) => seq![
                    HostCall::ExtendEventTtl { event_id: id },
                    HostCall::ExtendInstanceTtl,
                    HostCall::Publish(Event::Verified { event_id: id }),
                ],
                None => seq![],
            };
            let seen = HandlerView {
                address: h.address,
                storage: StorageView {
                    instance: i,
                    version: h.storage.version,
                    seen: match event_id {
                        Some(id) => h.storage.seen.insert(id),
                        None => h.storage.seen,
                    },
                },
            };
            match verdict {
                Err(error) => e == (Execution {
                    handler: h,
                    calls: reads,
                    outcome: Some(Err(Failure::Handler(error))),
                }),
                Ok(Verdict::Skip) => e == (Execution {
                    handler: seen,
                    calls: reads + closing,
                    outcome: Some(Ok(())),
                }),
                Ok(Verdict::Hold) => e == (if balance == 0 {
                    Execution {
                        handler: seen,
                        calls: reads + seq![read, HostCall::ExtendInstanceTtl] + closing,
                        outcome: Some(Ok(())),
                    }
                } else {
                    Execution {
                        handler: h,
                        calls: reads + seq![read],
                        outcome: Some(Err(Failure::Local(LocalError::UsdcLeak))),
                    }
                }),
                _ => true,
            }
        }),
{
    let i = h.storage.instance;
    let last = seq![Reply::Amount(balance)];
    lemma_rebalance_reads(h, event_id, now, config, state, last);
    lemma_settles(h, event_id, seq![], execution::no_writes(), balance);
    assert(execution::written(i, execution::no_writes()) == i);
    let e = laws::run(
        h,
        execution::rebalance_started(h, event_id, now),
        seq![Reply::Config(config), Reply::Delegate(state)] + last,
    );
    let reads = seq![
        HostCall::GetConfig { blend_pool: i.blend_pool->0 },
        HostCall::QueryDelegateState { blended_pool: i.blended_pool->0 },
    ];
    let read = HostCall::Balance { token: i.usdc->0, holder: h.address };
    let closing = execution::closing_calls(event_id);
    match policy::verdict_of(
        i,
        now as int,
        h.liquid_of(state) as int,
        h.total_of(state) as int,
    ) {
        Err(error) => {
            assert(e.calls =~= reads);
        },
        Ok(Verdict::Skip) => {
            assert(e.calls =~= reads + closing);
        },
        Ok(Verdict::Hold) => {
            if balance == 0 {
                assert(e.calls =~= reads + seq![read, HostCall::ExtendInstanceTtl] + closing);
            } else {
                assert(e.calls =~= reads + seq![read]);
            }
        },
        _ => {},
    }
}

/// A rebalance that gives `amount` to Blend: the pool hands the amount to the
/// handler, Blend gets leave to pull exactly this and is asked to take it, and
/// once it has, the principal is larger by the amount and the clock of the
/// cooldown starts. What is reported are the pool's balances after the move.
#[verifier::rlimit(40)]
pub proof fn law_rebalance_to_blend_call_by_call(
    h: HandlerView,
    event_id: Option<EventId>,
    now: u64,
    config: BlendPoolConfig,
    state: DelegateState,
    amount: i128,
    balance: i128,
)
    requires
        config.status <= 3,
        policy::verdict_of(
            h.storage.instance,
            now as int,
            h.liquid_of(state) as int,
            h.total_of(state) as int,
        ) == Ok::<Verdict, HandlerError>(Verdict::ToBlend(amount)),
    ensures
        ({
            let i = h.storage.instance;
            let principal = match i.principal_supplied {
                Some(principal) => principal as int,
                None => 0,
            };
            let liquid = h.liquid_of(state) as int;
            let total = h.total_of(state) as int;
            let e = laws::run(
                h,
                execution::rebalance_started(h, event_id, now),
                seq![Reply::Config(config), Reply::Delegate(state)] + seq![
                    Reply::Performed,
                    Reply::Amount(balance),
                ],
            );
            let moves = seq![
                HostCall::GetConfig { blend_pool: i.blend_pool->0 },
                HostCall::QueryDelegateState { blended_pool: i.blended_pool->0 },
                HostCall::WithdrawToDelegate {
                    blended_pool: i.blended_pool->0,
                    token: i.usdc->0,
                    amount,
                },
                HostCall::AuthorizeTransfer {
                    token: i.usdc->0,
                    from: h.address,
                    to: i.blend_pool->0,
                    amount,
                },
                HostCall::Submit {
                    blend_pool: i.blend_pool->0,
                    account: h.address,
                    request: BlendRequest { request_type: 0, address: i.usdc->0, amount },
                },
            ];
            let report = seq![
                HostCall::Publish(
                    Event::RebalanceExecuted(
                        RebalanceExecuted {
                            direction: Symbol::ToBlend,
                            amount,
                            liquid_after: (liquid - amount) as i128,
                            delegated_after: (total - liquid + amount) as i128,
                            principal_after: (principal + amount) as i128,
                        },
                    ),
                ),
                HostCall::Balance { token: i.usdc->0, holder: h.address },
            ];
            &&& i128::MIN <= liquid - amount <= i128::MAX
            &&& i128::MIN <= total - liquid + amount <= i128::MAX
            &&& e == (if principal + amount > i128::MAX {
                Execution {
                    handler: h,
                    calls: moves,
                    outcome: Some(Err(Failure::Handler(HandlerError::OtherInvocationError))),
                }
            } else if balance != 0 {
                Execution {
                    handler: h,
                    calls: moves + report,
                    outcome: Some(Err(Failure::Local(LocalError::UsdcLeak))),
                }
            } else {
                Execution {
                    handler: HandlerView {
                        address: h.address,
                        storage: StorageView {
                            instance: Instance {
                                principal_supplied: Some((principal + amount) as i128),
                                last_rebalance_ts: Some(now),
                                ..i
                            },
                            version: h.storage.version,
                            seen: match event_id {
                                Some(id) => h.storage.seen.insert(id),
                                None => h.storage.seen,
                            },
                        },
                    },
                    calls: moves + report + seq![HostCall::ExtendInstanceTtl] + match event_id {
                        Some(id) => seq![
                            HostCall::ExtendEventTtl { event_id: id },
                            HostCall::ExtendInstanceTtl,
                            HostCall::Publish(Event::Verified { event_id: id }),
                        ],
                        None => seq![],
                    },
                    outcome: Some(Ok(())),
                }
            })
        }),
{
    let i = h.storage.instance;
    let last = seq![Reply::Amount(balance)];
    let rest = seq![Reply::Performed, Reply::Amount(balance)];
    lemma_rebalance_reads(h, event_id, now, config, state, rest);
    policy::lemma_to_blend_is_bounded(
        i,
        now as int,
        h.liquid_of(state),
        h.total_of(state),
        amount,
    );
    let moving = execution::after_snapshot(h, event_id, now, state).1;
    lemma_runs_on(h, moving, Reply::Performed, last);
    assert(rest =~= seq![Reply::Performed] + last);
    let ending = execution::resumed(h, moving->then, Reply::Performed).1;
    let e = laws::run(
        h,
        execution::rebalance_started(h, event_id, now),
        seq![Reply::Config(config), Reply::Delegate(state)] + rest,
    );
    if let StepView::Perform { calls, then } = ending {
        lemma_settles(h, event_id, calls.drop_last(), then.stage->writes, balance);
        assert(calls =~= calls.drop_last().push(h.own_balance()));
        assert(ending == execution::settling(
            h,
            event_id,
            calls.drop_last(),
            then.stage->writes,
        ));
    }
    let moves = seq![
        HostCall::GetConfig { blend_pool: i.blend_pool->0 },
        HostCall::QueryDelegateState { blended_pool: i.blended_pool->0 },
    ] + moving->Perform_calls;
    if ending is Perform {
        let report = ending->Perform_calls;
        if balance == 0 {
            assert(e.calls =~= moves + report + seq![HostCall::ExtendInstanceTtl]
                + execution::closing_calls(event_id));
        } else {
            assert(e.calls =~= moves + report);
        }
    } else {
        assert(e.calls =~= moves);
    }
    assert(moves =~= seq![
        HostCall::GetConfig { blend_pool: i.blend_pool->0 },
        HostCall::QueryDelegateState { blended_pool: i.blended_pool->0 },
        moving->Perform_calls[0],
        moving->Perform_calls[1],
        moving->Perform_calls[2],
    ]);
    if ending is Perform {
        assert(ending->Perform_calls =~= seq![
            ending->Perform_calls[0],
            ending->Perform_calls[1],
        ]);
    }
}

/// A rebalance that takes `amount` from Blend: Blend is asked to pay the amount to
/// the handler, the pool gets leave to pull exactly this and is asked to take it,
/// the principal is smaller by the amount and the clock of the cooldown starts.
pub proof fn law_rebalance_from_blend_call_by_call(
    h: HandlerView,
    event_id: Option<EventId>,
    now: u64,
    config: BlendPoolConfig,
    state: DelegateState,
    amount: i128,
    balance: i128,
)
    requires
        config.status <= 3,
        policy::verdict_of(
            h.storage.instance,
            now as int,
            h.liquid_of(state) as int,
            h.total_of(state) as int,
        ) == Ok::<Verdict, HandlerError>(Verdict::FromBlend(amount)),
    ensures
        ({
            let i = h.storage.instance;
            let principal = match i.principal_supplied {
                Some(principal) => principal as int,
                None => 0,
            };
            let liquid = h.liquid_of(state) as int;
            let total = h.total_of(state) as int;
            let e = laws::run(
                h,
                execution::rebalance_started(h, event_id, now),
                seq![Reply::Config(config), Reply::Delegate(state)] + seq![Reply::Amount(balance)],
            );
            let moves = seq![
                HostCall::GetConfig { blend_pool: i.blend_pool->0 },
                HostCall::QueryDelegateState { blended_pool: i.blended_pool->0 },
                HostCall::Submit {
                    blend_pool: i.blend_pool->0,
                    account: h.address,
                    request: BlendRequest { request_type: 1, address: i.usdc->0, amount },
                },
                HostCall::AuthorizeTransfer {
                    token: i.usdc->0,
                    from: h.address,
                    to: i.blended_pool->0,
                    amount,
                },
                HostCall::DepositFromDelegate {
                    blended_pool: i.blended_pool->0,
                    token: i.usdc->0,
                    amount,
                },
                HostCall::Publish(
                    Event::RebalanceExecuted(
                        RebalanceExecuted {
                            direction: Symbol::FromBlend,
                            amount,
                            liquid_after: (liquid + amount) as i128,
                            delegated_after: (total - liquid - amount) as i128,
                            principal_after: (principal - amount) as i128,
                        },
                    ),
                ),
                HostCall::Balance { token: i.usdc->0, holder: h.address },
            ];
            &&& i128::MIN <= liquid + amount <= i128::MAX
            &&& i128::MIN <= total - liquid - amount <= i128::MAX
            &&& 0 <= principal - amount
            &&& e == (if balance != 0 {
                Execution {
                    handler: h,
                    calls: moves,
                    outcome: Some(Err(Failure::Local(LocalError::UsdcLeak))),
                }
            } else {
                Execution {
                    handler: HandlerView {
                        address: h.address,
                        storage: StorageView {
                            instance: Instance {
                                principal_supplied: Some((principal - amount) as i128),
                                last_rebalance_ts: Some(now),
                                ..i
                            },
                            version: h.storage.version,
                            seen: match event_id {
                                Some(id) => h.storage.seen.insert(id),
                                None => h.storage.seen,
                            },
                        },
                    },
                    calls: moves + seq![HostCall::ExtendInstanceTtl] + match event_id {
                        Some(id) => seq![
                            HostCall::ExtendEventTtl { event_id: id },
                            HostCall::ExtendInstanceTtl,
                            HostCall::Publish(Event::Verified { event_id: id }),
                        ],
                        None => seq![],
                    },
                    outcome: Some(Ok(())),
                }
            })
        }),
{
    let i = h.storage.instance;
    let last = seq![Reply::Amount(balance)];
    lemma_rebalance_reads(h, event_id, now, config, state, last);
    policy::lemma_from_blend_is_bounded(
        i,
        now as int,
        h.liquid_of(state),
        h.total_of(state),
        amount,
    );
    let ending = execution::after_snapshot(h, event_id, now, state).1;
    let all = ending->Perform_calls;
    lemma_settles(h, event_id, all.drop_last(), ending->then.stage->writes, balance);
    assert(all =~= all.drop_last().push(h.own_balance()));
    assert(ending == execution::settling(
        h,
        event_id,
        all.drop_last(),
        ending->then.stage->writes,
    ));
    let e = laws::run(
        h,
        execution::rebalance_started(h, event_id, now),
        seq![Reply::Config(config), Reply::Delegate(state)] + last,
    );
    let moves = seq![
        HostCall::GetConfig { blend_pool: i.blend_pool->0 },
        HostCall::QueryDelegateState { blended_pool: i.blended_pool->0 },
        all[0],
        all[1],
        all[2],
        all[3],
        all[4],
    ];
    if balance == 0 {
        assert(e.calls =~= moves + seq![HostCall::ExtendInstanceTtl] + execution::closing_calls(
            event_id,
        ));
    } else {
        assert(e.calls =~= moves);
    }
}

/// The first two replies of a harvest.
proof fn lemma_harvest_reads(
    h: HandlerView,
    event_id: Option<EventId>,
    now: u64,
    blnd: i128,
    config: BlendPoolConfig,
    rest: Seq<Reply>,
)
    ensures
        ({
            let i = h.storage.instance;
            let tail = laws::run(
                h,
                execution::after_harvest_health(h, event_id, now, blnd, config.status),
                rest,
            );
            laws::run(
                h,
                execution::harvest_started(h, event_id, now),
                seq![Reply::Amount(blnd), Reply::Config(config)] + rest,
            ) == (Execution {
                calls: seq![
                    HostCall::Claim {
                        blend_pool: i.blend_pool->0,
                        from: h.address,
                        reserve_token_id: i.usdc_reserve_token_id->0,
                        to: i.blnd_treasury->0,
                    },
                    HostCall::GetConfig { blend_pool: i.blend_pool->0 },
                ] + tail.calls,
                ..tail
            })
        }),
{
    let i = h.storage.instance;
    let start = execution::harvest_started(h, event_id, now);
    let second = seq![Reply::Config(config)] + rest;
    lemma_runs_on(h, start, Reply::Amount(blnd), second);
    let reading = execution::resumed(h, start->then, Reply::Amount(blnd)).1;
    lemma_runs_on(h, reading, Reply::Config(config), rest);
    let all = seq![Reply::Amount(blnd), Reply::Config(config)] + rest;
    assert(all =~= seq![Reply::Amount(blnd)] + second);
    let tail = laws::run(
        h,
        execution::after_harvest_health(h, event_id, now, blnd, config.status),
        rest,
    );
    assert(laws::run(h, start, all).calls =~= seq![
        HostCall::Claim {
            blend_pool: i.blend_pool->0,
            from: h.address,
            reserve_token_id: i.usdc_reserve_token_id->0,
            to: i.blnd_treasury->0,
        },
        HostCall::GetConfig { blend_pool: i.blend_pool->0 },
    ] + tail.calls);
}

/// A harvest without a position, or of a Blend whose status is above 3: the
/// emissions are claimed for the treasury, no USDC moves, and the harvest is
/// reported and dated.
pub proof fn law_harvest_of_emissions_call_by_call(
    h: HandlerView,
    event_id: Option<EventId>,
    now: u64,
    blnd: i128,
    config: BlendPoolConfig,
    balance: i128,
)
    requires
        h.storage.instance.principal_supplied matches Some(principal) ==> principal <= 0
            || config.status > 3,
    ensures
        ({
            let i = h.storage.instance;
            let principal = match i.principal_supplied {
                Some(principal) => principal as int,
                None => 0,
            };
            let e = laws::run(
                h,
                execution::harvest_started(h, event_id, now),
                seq![Reply::Amount(blnd), Reply::Config(config)] + seq![Reply::Amount(balance)],
            );
            let asked = seq![
                HostCall::Claim {
                    blend_pool: i.blend_pool->0,
                    from: h.address,
                    reserve_token_id: i.usdc_reserve_token_id->0,
                    to: i.blnd_treasury->0,
                },
                HostCall::GetConfig { blend_pool: i.blend_pool->0 },
                HostCall::Publish(
                    Event::HarvestCompleted(
                        HarvestCompleted {
                            interest_donated: 0,
                            blnd_routed: blnd,
                            principal_after: principal as i128,
                        },
                    ),
                ),
                HostCall::Balance { token: i.usdc->0, holder: h.address },
            ];
            e == (if balance != 0 {
                Execution {
                    handler: h,
                    calls: asked,
                    outcome: Some(Err(Failure::Local(LocalError::UsdcLeak))),
                }
            } else {
                Execution {
                    handler: HandlerView {
                        address: h.address,
                        storage: StorageView {
                            instance: Instance { last_harvest_ts: Some(now), ..i },
                            version: h.storage.version,
                            seen: match event_id {
                                Some(id) => h.storage.seen.insert(id),
                                None => h.storage.seen,
                            },
                        },
                    },
                    calls: asked + seq![HostCall::ExtendInstanceTtl] + match event_id {
                        Some(id) => seq![
                            HostCall::ExtendEventTtl { event_id: id },
                            HostCall::ExtendInstanceTtl,
                            HostCall::Publish(Event::Verified { event_id: id }),
                        ],
                        None => seq![],
                    },
                    outcome: Some(Ok(())),
                }
            })
        }),
{
    let last = seq![Reply::Amount(balance)];
    lemma_harvest_reads(h, event_id, now, blnd, config, last);
    let ending = execution::after_harvest_health(h, event_id, now, blnd, config.status);
    let all = ending->Perform_calls;
    lemma_settles(h, event_id, all.drop_last(), ending->then.stage->writes, balance);
    assert(all =~= all.drop_last().push(h.own_balance()));
    assert(ending == execution::settling(
        h,
        event_id,
        all.drop_last(),
        ending->then.stage->writes,
    ));
    let start = execution::harvest_started(h, event_id, now);
    let e = laws::run(h, start, seq![Reply::Amount(blnd), Reply::Config(config)] + last);
    let asked = seq![start->Perform_calls[0], h.health_query(), all[0], all[1]];
    if balance == 0 {
        assert(e.calls =~= asked + seq![HostCall::ExtendInstanceTtl] + execution::closing_calls(
            event_id,
        ));
    } else {
        assert(e.calls =~= asked);
    }
}

/// A harvest of a position in a healthy Blend, up to the withdraw: it asks for
/// everything that can be redeemed, whatever the handler's storage holds.
proof fn lemma_harvest_asks_for_everything(
    h: HandlerView,
    event_id: Option<EventId>,
    now: u64,
    blnd: i128,
    config: BlendPoolConfig,
    before: i128,
    accepted: bool,
    rest: Seq<Reply>,
)
    requires
        h.storage.instance.principal_supplied matches Some(principal) && principal > 0,
        config.status <= 3,
    ensures
        ({
            let i = h.storage.instance;
            let tail = laws::run(
                h,
                execution::after_harvest_withdraw(h, event_id, now, blnd, before, accepted),
                rest,
            );
            laws::run(
                h,
                execution::harvest_started(h, event_id, now),
                seq![Reply::Amount(blnd), Reply::Config(config)] + (seq![Reply::Amount(before)] + (
                seq![Reply::Submitted(accepted)] + rest)),
            ) == (Execution {
                calls: seq![
                    HostCall::Claim {
                        blend_pool: i.blend_pool->0,
                        from: h.address,
                        reserve_token_id: i.usdc_reserve_token_id->0,
                        to: i.blnd_treasury->0,
                    },
                    HostCall::GetConfig { blend_pool: i.blend_pool->0 },
                    HostCall::Balance { token: i.usdc->0, holder: h.address },
                    HostCall::TrySubmit {
                        blend_pool: i.blend_pool->0,
                        account: h.address,
                        request: BlendRequest {
                            request_type: 1,
                            address: i.usdc->0,
                            amount: i128::MAX,
                        },
                    },
                ] + tail.calls,
                ..tail
            })
        }),
{
    let i = h.storage.instance;
    let withdrawn = seq![Reply::Submitted(accepted)] + rest;
    let read = seq![Reply::Amount(before)] + withdrawn;
    lemma_harvest_reads(h, event_id, now, blnd, config, read);
    let reading = execution::after_harvest_health(h, event_id, now, blnd, config.status);
    lemma_runs_on(h, reading, Reply::Amount(before), withdrawn);
    let withdrawing = execution::resumed(h, reading->then, Reply::Amount(before)).1;
    lemma_runs_on(h, withdrawing, Reply::Submitted(accepted), rest);
    let tail = laws::run(
        h,
        execution::after_harvest_withdraw(h, event_id, now, blnd, before, accepted),
        rest,
    );
    let e = laws::run(
        h,
        execution::harvest_started(h, event_id, now),
        seq![Reply::Amount(blnd), Reply::Config(config)] + read,
    );
    assert(e.calls =~= seq![
        HostCall::Claim {
            blend_pool: i.blend_pool->0,
            from: h.address,
            reserve_token_id: i.usdc_reserve_token_id->0,
            to: i.blnd_treasury->0,
        },
        HostCall::GetConfig { blend_pool: i.blend_pool->0 },
        HostCall::Balance { token: i.usdc->0, holder: h.address },
        HostCall::TrySubmit {
            blend_pool: i.blend_pool->0,
            account: h.address,
            request: BlendRequest { request_type: 1, address: i.usdc->0, amount: i128::MAX },
        },
    ] + tail.calls);
}

/// A harvest of a position in a healthy Blend asks Blend for the largest number
/// there is, which is Blend's word for all that can be redeemed, in every state
/// of the handler.
pub proof fn law_harvest_asks_for_everything(
    h: HandlerView,
    event_id: Option<EventId>,
    now: u64,
    blnd: i128,
    config: BlendPoolConfig,
    before: i128,
    accepted: bool,
    rest: Seq<Reply>,
)
    requires
        h.storage.instance.principal_supplied matches Some(principal) && principal > 0,
        config.status <= 3,
    ensures
        ({
            let e = laws::run(
                h,
                execution::harvest_started(h, event_id, now),
                seq![Reply::Amount(blnd), Reply::Config(config)] + (seq![Reply::Amount(before)] + (
                seq![Reply::Submitted(accepted)] + rest)),
            );
            &&& e.calls[3] matches HostCall::TrySubmit { blend_pool, account, request }
            &&& blend_pool == h.storage.instance.blend_pool->0
            &&& account == h.address
            &&& request.request_type == 1
            &&& request.address == h.storage.instance.usdc->0
            &&& request.amount == i128::MAX
        }),
{
    lemma_harvest_asks_for_everything(h, event_id, now, blnd, config, before, accepted, rest);
}

/// A harvest whose withdraw Blend refuses: the emissions stay claimed, the
/// partial harvest is reported, and nothing but its date changes.
pub proof fn law_refused_harvest_call_by_call(
    h: HandlerView,
    event_id: Option<EventId>,
    now: u64,
    blnd: i128,
    config: BlendPoolConfig,
    before: i128,
    balance: i128,
)
    requires
        h.storage.instance.principal_supplied matches Some(principal) && principal > 0,
        config.status <= 3,
    ensures
        ({
            let i = h.storage.instance;
            let e = laws::run(
                h,
                execution::harvest_started(h, event_id, now),
                seq![Reply::Amount(blnd), Reply::Config(config)] + (seq![Reply::Amount(before)] + (
                seq![Reply::Submitted(false)] + seq![Reply::Amount(balance)])),
            );
            let asked = seq![
                HostCall::Claim {
                    blend_pool: i.blend_pool->0,
                    from: h.address,
                    reserve_token_id: i.usdc_reserve_token_id->0,
                    to: i.blnd_treasury->0,
                },
                HostCall::GetConfig { blend_pool: i.blend_pool->0 },
                HostCall::Balance { token: i.usdc->0, holder: h.address },
                HostCall::TrySubmit {
                    blend_pool: i.blend_pool->0,
                    account: h.address,
                    request: BlendRequest {
                        request_type: 1,
                        address: i.usdc->0,
                        amount: i128::MAX,
                    },
                },
                HostCall::Publish(Event::HarvestPartial(HarvestPartial { blnd_routed: blnd })),
                HostCall::Publish(
                    Event::HarvestCompleted(
                        HarvestCompleted {
                            interest_donated: 0,
                            blnd_routed: blnd,
                            principal_after: i.principal_supplied->0,
                        },
                    ),
                ),
                HostCall::Balance { token: i.usdc->0, holder: h.address },
            ];
            e == (if balance != 0 {
                Execution {
                    handler: h,
                    calls: asked,
                    outcome: Some(Err(Failure::Local(LocalError::UsdcLeak))),
                }
            } else {
                Execution {
                    handler: HandlerView {
                        address: h.address,
                        storage: StorageView {
                            instance: Instance { last_harvest_ts: Some(now), ..i },
                            version: h.storage.version,
                            seen: match event_id {
                                Some(id) => h.storage.seen.insert(id),
                                None => h.storage.seen,
                            },
                        },
                    },
                    calls: asked + seq![HostCall::ExtendInstanceTtl] + match event_id {
                        Some(id) => seq![
                            HostCall::ExtendEventTtl { event_id: id },
                            HostCall::ExtendInstanceTtl,
                            HostCall::Publish(Event::Verified { event_id: id }),
                        ],
                        None => seq![],
                    },
                    outcome: Some(Ok(())),
                }
            })
        }),
{
    let last = seq![Reply::Amount(balance)];
    lemma_harvest_asks_for_everything(h, event_id, now, blnd, config, before, false, last);
    let ending = execution::after_harvest_withdraw(h, event_id, now, blnd, before, false);
    let all = ending->Perform_calls;
    lemma_settles(h, event_id, all.drop_last(), ending->then.stage->writes, balance);
    assert(all =~= all.drop_last().push(h.own_balance()));
    assert(ending == execution::settling(
        h,
        event_id,
        all.drop_last(),
        ending->then.stage->writes,
    ));
    let e = laws::run(
        h,
        execution::harvest_started(h, event_id, now),
        seq![Reply::Amount(blnd), Reply::Config(config)] + (seq![Reply::Amount(before)] + (seq![
            Reply::Submitted(false),
        ] + last)),
    );
    let asked = seq![
        e.calls[0],
        e.calls[1],
        e.calls[2],
        e.calls[3],
        all[0],
        all[1],
        all[2],
    ];
    if balance == 0 {
        assert(e.calls =~= asked + seq![HostCall::ExtendInstanceTtl] + execution::closing_calls(
            event_id,
        ));
    } else {
        assert(e.calls =~= asked);
    }
}

/// What a harvest does with what came back.
proof fn lemma_harvest_moves(h: HandlerView, redeemed: int)
    requires
        h.storage.instance.principal_supplied matches Some(principal) && principal > 0,
        0 <= redeemed <= i128::MAX,
    ensures
        ({
            let principal = h.storage.instance.principal_supplied->0;
            let kept = policy::min_int(principal as int, redeemed);
            execution::harvest_moves(h, redeemed) == (if redeemed > 0 {
                h.supply_calls(kept)
            } else {
                seq![]
            }) + (if redeemed < principal {
                seq![execution::bad_debt_event(principal as int, redeemed)]
            } else {
                seq![]
            }) + (if redeemed > principal {
                h.donate_calls(redeemed - kept)
            } else {
                seq![]
            })
        }),
{
}

/// A harvest whose withdraw Blend accepts. What came back is the difference of the
/// handler's two balances. The principal, or all that came back if that is less,
/// is supplied again and is the new principal; what came back beyond the principal
/// is donated to the pool; a loss is reported. The report tells the donation, the
/// emissions and the new principal.
#[verifier::rlimit(60)]
pub proof fn law_harvest_call_by_call(
    h: HandlerView,
    event_id: Option<EventId>,
    now: u64,
    blnd: i128,
    config: BlendPoolConfig,
    before: i128,
    after: i128,
    balance: i128,
)
    requires
        h.storage.instance.principal_supplied matches Some(principal) && principal > 0,
        config.status <= 3,
        before <= after,
    ensures
        ({
            let i = h.storage.instance;
            let principal = i.principal_supplied->0;
            let redeemed = if after - before > i128::MAX {
                i128::MAX as int
            } else {
                after - before
            };
            let kept = (if redeemed < principal {
                redeemed
            } else {
                principal as int
            }) as i128;
            let gain = (redeemed - kept) as i128;
            let e = laws::run(
                h,
                execution::harvest_started(h, event_id, now),
                seq![Reply::Amount(blnd), Reply::Config(config)] + (seq![Reply::Amount(before)] + (
                seq![Reply::Submitted(true)] + (seq![Reply::Amount(after)] + seq![
                    Reply::Amount(balance),
                ]))),
            );
            let asked = seq![
                HostCall::Claim {
                    blend_pool: i.blend_pool->0,
                    from: h.address,
                    reserve_token_id: i.usdc_reserve_token_id->0,
                    to: i.blnd_treasury->0,
                },
                HostCall::GetConfig { blend_pool: i.blend_pool->0 },
                HostCall::Balance { token: i.usdc->0, holder: h.address },
                HostCall::TrySubmit {
                    blend_pool: i.blend_pool->0,
                    account: h.address,
                    request: BlendRequest {
                        request_type: 1,
                        address: i.usdc->0,
                        amount: i128::MAX,
                    },
                },
                HostCall::Balance { token: i.usdc->0, holder: h.address },
            ] + (if redeemed > 0 {
                seq![
                    HostCall::AuthorizeTransfer {
                        token: i.usdc->0,
                        from: h.address,
                        to: i.blend_pool->0,
                        amount: kept,
                    },
                    HostCall::Submit {
                        blend_pool: i.blend_pool->0,
                        account: h.address,
                        request: BlendRequest {
                            request_type: 0,
                            address: i.usdc->0,
                            amount: kept,
                        },
                    },
                ]
            } else {
                seq![]
            }) + (if redeemed < principal {
                seq![
                    HostCall::Publish(
                        Event::BadDebtDetected(
                            BadDebtDetected {
                                previous_principal: principal,
                                redeemable: redeemed as i128,
                                shortfall: (principal - redeemed) as i128,
                            },
                        ),
                    ),
                ]
            } else {
                seq![]
            }) + (if redeemed > principal {
                seq![
                    HostCall::AuthorizeTransfer {
                        token: i.usdc->0,
                        from: h.address,
                        to: i.blended_pool->0,
                        amount: gain,
                    },
                    HostCall::Donate {
                        blended_pool: i.blended_pool->0,
                        token: i.usdc->0,
                        amount: gain,
                    },
                ]
            } else {
                seq![]
            }) + seq![
                HostCall::Publish(
                    Event::HarvestCompleted(
                        HarvestCompleted {
                            interest_donated: gain,
                            blnd_routed: blnd,
                            principal_after: kept,
                        },
                    ),
                ),
                HostCall::Balance { token: i.usdc->0, holder: h.address },
            ];
            e == (if balance != 0 {
                Execution {
                    handler: h,
                    calls: asked,
                    outcome: Some(Err(Failure::Local(LocalError::UsdcLeak))),
                }
            } else {
                Execution {
                    handler: HandlerView {
                        address: h.address,
                        storage: StorageView {
                            instance: Instance {
                                principal_supplied: Some(kept),
                                last_harvest_ts: Some(now),
                                ..i
                            },
                            version: h.storage.version,
                            seen: match event_id {
                                Some(id) => h.storage.seen.insert(id),
                                None => h.storage.seen,
                            },
                        },
                    },
                    calls: asked + seq![HostCall::ExtendInstanceTtl] + match event_id {
                        Some(id) => seq![
                            HostCall::ExtendEventTtl { event_id: id },
                            HostCall::ExtendInstanceTtl,
                            HostCall::Publish(Event::Verified { event_id: id }),
                        ],
                        None => seq![],
                    },
                    outcome: Some(Ok(())),
                }
            })
        }),
{
    let i = h.storage.instance;
    let principal = i.principal_supplied->0;
    let redeemed = policy::clamped_difference(after as int, before as int);
    let last = seq![Reply::Amount(balance)];
    let read = seq![Reply::Amount(after)] + last;
    lemma_harvest_asks_for_everything(h, event_id, now, blnd, config, before, true, read);
    let reading = execution::after_harvest_withdraw(h, event_id, now, blnd, before, true);
    lemma_runs_on(h, reading, Reply::Amount(after), last);
    let ending = execution::after_harvest_redeem(h, event_id, now, blnd, before, after);
    let moves = execution::harvest_moves(h, redeemed);
    let all = ending->Perform_calls;
    let report = all[moves.len() as int];
    assert(all =~= moves.push(report).push(h.own_balance()));
    lemma_settles(h, event_id, moves.push(report), ending->then.stage->writes, balance);
    assert(ending == execution::settling(
        h,
        event_id,
        moves.push(report),
        ending->then.stage->writes,
    ));
    let e = laws::run(
        h,
        execution::harvest_started(h, event_id, now),
        seq![Reply::Amount(blnd), Reply::Config(config)] + (seq![Reply::Amount(before)] + (seq![
            Reply::Submitted(true),
        ] + read)),
    );
    let first = seq![e.calls[0], e.calls[1], e.calls[2], e.calls[3], h.own_balance()];
    let asked = first + moves + seq![report, h.own_balance()];
    if balance == 0 {
        assert(e.calls =~= asked + seq![HostCall::ExtendInstanceTtl] + execution::closing_calls(
            event_id,
        ));
    } else {
        assert(e.calls =~= asked);
    }
    let kept = policy::min_int(principal as int, redeemed);
    let supply = if redeemed > 0 {
        h.supply_calls(kept)
    } else {
        seq![]
    };
    let warning = if redeemed < principal {
        seq![execution::bad_debt_event(principal as int, redeemed)]
    } else {
        seq![]
    };
    let gift = if redeemed > principal {
        h.donate_calls(redeemed - kept)
    } else {
        seq![]
    };
    lemma_harvest_moves(h, redeemed);
    assert(asked =~= first + supply + warning + gift + seq![report, h.own_balance()]);
}

/// A harvest after whose withdraw the handler holds less than before: nothing is
/// supplied or donated, the loss is reported, and the difference is the new
/// principal; a loss that no number can hold is refused.
#[verifier::rlimit(40)]
pub proof fn law_losing_harvest_call_by_call(
    h: HandlerView,
    event_id: Option<EventId>,
    now: u64,
    blnd: i128,
    config: BlendPoolConfig,
    before: i128,
    after: i128,
    balance: i128,
)
    requires
        h.storage.instance.principal_supplied matches Some(principal) && principal > 0,
        config.status <= 3,
        after < before,
    ensures
        ({
            let i = h.storage.instance;
            let principal = i.principal_supplied->0;
            let redeemed = after - before;
            let e = laws::run(
                h,
                execution::harvest_started(h, event_id, now),
                seq![Reply::Amount(blnd), Reply::Config(config)] + (seq![Reply::Amount(before)] + (
                seq![Reply::Submitted(true)] + (seq![Reply::Amount(after)] + seq![
                    Reply::Amount(balance),
                ]))),
            );
            let withdrawn = seq![
                HostCall::Claim {
                    blend_pool: i.blend_pool->0,
                    from: h.address,
                    reserve_token_id: i.usdc_reserve_token_id->0,
                    to: i.blnd_treasury->0,
                },
                HostCall::GetConfig { blend_pool: i.blend_pool->0 },
                HostCall::Balance { token: i.usdc->0, holder: h.address },
                HostCall::TrySubmit {
                    blend_pool: i.blend_pool->0,
                    account: h.address,
                    request: BlendRequest {
                        request_type: 1,
                        address: i.usdc->0,
                        amount: i128::MAX,
                    },
                },
                HostCall::Balance { token: i.usdc->0, holder: h.address },
            ];
            let asked = withdrawn + seq![
                HostCall::Publish(
                    Event::BadDebtDetected(
                        BadDebtDetected {
                            previous_principal: principal,
                            redeemable: redeemed as i128,
                            shortfall: (principal - redeemed) as i128,
                        },
                    ),
                ),
                HostCall::Publish(
                    Event::HarvestCompleted(
                        HarvestCompleted {
                            interest_donated: 0,
                            blnd_routed: blnd,
                            principal_after: redeemed as i128,
                        },
                    ),
                ),
                HostCall::Balance { token: i.usdc->0, holder: h.address },
            ];
            e == (if principal - redeemed > i128::MAX {
                Execution {
                    handler: h,
                    calls: withdrawn,
                    outcome: Some(Err(Failure::Rejected(Rejection::ShortfallOverflow))),
                }
            } else if balance != 0 {
                Execution {
                    handler: h,
                    calls: asked,
                    outcome: Some(Err(Failure::Local(LocalError::UsdcLeak))),
                }
            } else {
                Execution {
                    handler: HandlerView {
                        address: h.address,
                        storage: StorageView {
                            instance: Instance {
                                principal_supplied: Some(redeemed as i128),
                                last_harvest_ts: Some(now),
                                ..i
                            },
                            version: h.storage.version,
                            seen: match event_id {
                                Some(id) => h.storage.seen.insert(id),
                                None => h.storage.seen,
                            },
                        },
                    },
                    calls: asked + seq![HostCall::ExtendInstanceTtl] + match event_id {
                        Some(id) => seq![
                            HostCall::ExtendEventTtl { event_id: id },
                            HostCall::ExtendInstanceTtl,
                            HostCall::Publish(Event::Verified { event_id: id }),
                        ],
                        None => seq![],
                    },
                    outcome: Some(Ok(())),
                }
            })
        }),
{
    let i = h.storage.instance;
    let principal = i.principal_supplied->0;
    let redeemed = policy::clamped_difference(after as int, before as int);
    let last = seq![Reply::Amount(balance)];
    let read = seq![Reply::Amount(after)] + last;
    lemma_harvest_asks_for_everything(h, event_id, now, blnd, config, before, true, read);
    let reading = execution::after_harvest_withdraw(h, event_id, now, blnd, before, true);
    lemma_runs_on(h, reading, Reply::Amount(after), last);
    let ending = execution::after_harvest_redeem(h, event_id, now, blnd, before, after);
    let e = laws::run(
        h,
        execution::harvest_started(h, event_id, now),
        seq![Reply::Amount(blnd), Reply::Config(config)] + (seq![Reply::Amount(before)] + (seq![
            Reply::Submitted(true),
        ] + read)),
    );
    let first = seq![e.calls[0], e.calls[1], e.calls[2], e.calls[3], h.own_balance()];
    if principal - redeemed > i128::MAX {
        assert(e.calls =~= first);
    } else {
        let all = ending->Perform_calls;
        assert(all =~= seq![all[0], all[1]].push(h.own_balance()));
        lemma_settles(h, event_id, seq![all[0], all[1]], ending->then.stage->writes, balance);
        assert(ending == execution::settling(
            h,
            event_id,
            seq![all[0], all[1]],
            ending->then.stage->writes,
        ));
        let asked = first + seq![all[0], all[1], h.own_balance()];
        if balance == 0 {
            assert(e.calls =~= asked + seq![HostCall::ExtendInstanceTtl]
                + execution::closing_calls(event_id));
        } else {
            assert(e.calls =~= asked);
        }
    }
}

/// An unwind of a position. Blend is asked for the largest number there is, which
/// is its word for all that can be redeemed, in every state of the handler. What
/// came back is the difference of the handler's two balances: up to the principal
/// is deposited in the pool, the rest is donated to it, and the principal is 0.
#[verifier::rlimit(40)]
pub proof fn law_unwind_call_by_call(h: HandlerView, before: i128, after: i128, balance: i128)
    requires
        h.storage.instance.principal_supplied matches Some(principal) && principal > 0,
    ensures
        ({
            let i = h.storage.instance;
            let principal = i.principal_supplied->0;
            let redeemed = (if after - before > i128::MAX {
                i128::MAX as int
            } else if after - before < i128::MIN {
                i128::MIN as int
            } else {
                after - before
            }) as i128;
            let deposit = if redeemed < principal {
                redeemed
            } else {
                principal
            };
            let gift = (redeemed - principal) as i128;
            let e = laws::run(
                h,
                execution::unwind_started(h),
                seq![Reply::Amount(before)] + (seq![Reply::Amount(after)] + seq![
                    Reply::Amount(balance),
                ]),
            );
            let asked = seq![
                HostCall::Balance { token: i.usdc->0, holder: h.address },
                HostCall::Submit {
                    blend_pool: i.blend_pool->0,
                    account: h.address,
                    request: BlendRequest {
                        request_type: 1,
                        address: i.usdc->0,
                        amount: i128::MAX,
                    },
                },
                HostCall::Balance { token: i.usdc->0, holder: h.address },
            ] + (if redeemed > 0 {
                seq![
                    HostCall::AuthorizeTransfer {
                        token: i.usdc->0,
                        from: h.address,
                        to: i.blended_pool->0,
                        amount: deposit,
                    },
                    HostCall::DepositFromDelegate {
                        blended_pool: i.blended_pool->0,
                        token: i.usdc->0,
                        amount: deposit,
                    },
                ]
            } else {
                seq![]
            }) + (if redeemed > principal {
                seq![
                    HostCall::AuthorizeTransfer {
                        token: i.usdc->0,
                        from: h.address,
                        to: i.blended_pool->0,
                        amount: gift,
                    },
                    HostCall::Donate {
                        blended_pool: i.blended_pool->0,
                        token: i.usdc->0,
                        amount: gift,
                    },
                ]
            } else {
                seq![]
            }) + seq![
                HostCall::Publish(
                    Event::EmergencyUnwound(
                        EmergencyUnwound { redeemed, principal_before: principal },
                    ),
                ),
                HostCall::Balance { token: i.usdc->0, holder: h.address },
            ];
            e == (if balance != 0 {
                Execution {
                    handler: h,
                    calls: asked,
                    outcome: Some(Err(Failure::Local(LocalError::UsdcLeak))),
                }
            } else {
                Execution {
                    handler: HandlerView {
                        address: h.address,
                        storage: StorageView {
                            instance: Instance { principal_supplied: Some(0), ..i },
                            version: h.storage.version,
                            seen: h.storage.seen,
                        },
                    },
                    calls: asked + seq![HostCall::ExtendInstanceTtl],
                    outcome: Some(Ok(())),
                }
            })
        }),
{
    let i = h.storage.instance;
    let principal = i.principal_supplied->0;
    let redeemed = policy::clamped_difference(after as int, before as int);
    let last = seq![Reply::Amount(balance)];
    let read = seq![Reply::Amount(after)] + last;
    let start = execution::unwind_started(h);
    lemma_runs_on(h, start, Reply::Amount(before), read);
    let withdrawing = execution::resumed(h, start->then, Reply::Amount(before)).1;
    lemma_runs_on(h, withdrawing, Reply::Amount(after), last);
    let moves = execution::unwind_moves(h, redeemed);
    let ending = execution::unwind_ending(h, None, moves, redeemed);
    let all = ending->Perform_calls;
    let report = all[moves.len() as int];
    assert(all =~= moves.push(report).push(h.own_balance()));
    lemma_settles(h, None, moves.push(report), ending->then.stage->writes, balance);
    assert(ending == execution::settling(
        h,
        None,
        moves.push(report),
        ending->then.stage->writes,
    ));
    let e = laws::run(h, start, seq![Reply::Amount(before)] + read);
    let first = seq![h.own_balance(), withdrawing->Perform_calls[0], h.own_balance()];
    let asked = first + moves + seq![report, h.own_balance()];
    if balance == 0 {
        assert(e.calls =~= asked + seq![HostCall::ExtendInstanceTtl]);
    } else {
        assert(e.calls =~= asked);
    }
    let back = if redeemed > 0 {
        h.deposit_calls(policy::min_int(redeemed, principal as int))
    } else {
        seq![]
    };
    let gift = if redeemed > principal {
        h.donate_calls(redeemed - principal)
    } else {
        seq![]
    };
    assert(moves =~= back + gift);
    assert(asked =~= first + back + gift + seq![report, h.own_balance()]);
}

/// An unwind without a position only reports itself and sets the principal to 0.
pub proof fn law_empty_unwind_call_by_call(h: HandlerView, balance: i128)
    requires
        h.storage.instance.principal_supplied matches Some(principal) ==> principal <= 0,
    ensures
        ({
            let i = h.storage.instance;
            let principal = match i.principal_supplied {
                Some(principal) => principal as int,
                None => 0,
            };
            let e = laws::run(h, execution::unwind_started(h), seq![Reply::Amount(balance)]);
            let asked = seq![
                HostCall::Publish(
                    Event::EmergencyUnwound(
                        EmergencyUnwound { redeemed: 0, principal_before: principal as i128 },
                    ),
                ),
                HostCall::Balance { token: i.usdc->0, holder: h.address },
            ];
            e == (if balance != 0 {
                Execution {
                    handler: h,
                    calls: asked,
                    outcome: Some(Err(Failure::Local(LocalError::UsdcLeak))),
                }
            } else {
                Execution {
                    handler: HandlerView {
                        address: h.address,
                        storage: StorageView {
                            instance: Instance { principal_supplied: Some(0), ..i },
                            version: h.storage.version,
                            seen: h.storage.seen,
                        },
                    },
                    calls: asked + seq![HostCall::ExtendInstanceTtl],
                    outcome: Some(Ok(())),
                }
            })
        }),
{
    let start = execution::unwind_started(h);
    let all = start->Perform_calls;
    assert(all =~= seq![all[0]].push(h.own_balance()));
    lemma_settles(h, None, seq![all[0]], start->then.stage->writes, balance);
    assert(start == execution::settling(h, None, seq![all[0]], start->then.stage->writes));
    let e = laws::run(h, start, seq![Reply::Amount(balance)]);
    let asked = seq![all[0], h.own_balance()];
    if balance == 0 {
        assert(e.calls =~= asked + seq![HostCall::ExtendInstanceTtl]);
    } else {
        assert(e.calls =~= asked);
    }
}

/// A manual move to Blend. An amount that is not positive, and a pause, stop it
/// before it asks for anything; a status of Blend above 3 before it moves
/// anything. Otherwise exactly `amount` goes from the pool through the handler to
/// Blend and onto the principal. What is reported are the balances that the pool
/// tells afterwards. The cooldown is not touched.
#[verifier::rlimit(40)]
pub proof fn law_manual_to_blend_call_by_call(
    h: HandlerView,
    amount: i128,
    config: BlendPoolConfig,
    state: DelegateState,
    balance: i128,
)
    ensures
        ({
            let i = h.storage.instance;
            let principal = match i.principal_supplied {
                Some(principal) => principal as int,
                None => 0,
            };
            let e = laws::run(
                h,
                execution::manual_to_blend_started(h, amount),
                seq![Reply::Config(config)] + (seq![Reply::Performed] + (seq![
                    Reply::Delegate(state),
                ] + seq![Reply::Amount(balance)])),
            );
            let status = seq![HostCall::GetConfig { blend_pool: i.blend_pool->0 }];
            let moves = status + seq![
                HostCall::WithdrawToDelegate {
                    blended_pool: i.blended_pool->0,
                    token: i.usdc->0,
                    amount,
                },
                HostCall::AuthorizeTransfer {
                    token: i.usdc->0,
                    from: h.address,
                    to: i.blend_pool->0,
                    amount,
                },
                HostCall::Submit {
                    blend_pool: i.blend_pool->0,
                    account: h.address,
                    request: BlendRequest { request_type: 0, address: i.usdc->0, amount },
                },
            ];
            let asked = moves + seq![
                HostCall::QueryDelegateState { blended_pool: i.blended_pool->0 },
                HostCall::Publish(
                    Event::RebalanceExecuted(
                        RebalanceExecuted {
                            direction: Symbol::ToBlend,
                            amount,
                            liquid_after: h.liquid_of(state),
                            delegated_after: h.delegated_of(state),
                            principal_after: (principal + amount) as i128,
                        },
                    ),
                ),
                HostCall::Balance { token: i.usdc->0, holder: h.address },
            ];
            e == (if amount <= 0 {
                Execution {
                    handler: h,
                    calls: seq![],
                    outcome: Some(Err(Failure::Rejected(Rejection::AmountNotPositive))),
                }
            } else if i.paused == Some(true) {
                Execution {
                    handler: h,
                    calls: seq![],
                    outcome: Some(Err(Failure::Local(LocalError::Paused))),
                }
            } else if config.status > 3 {
                Execution {
                    handler: h,
                    calls: status,
                    outcome: Some(Err(Failure::Rejected(Rejection::BlendUnhealthy))),
                }
            } else if principal + amount > i128::MAX {
                Execution {
                    handler: h,
                    calls: moves,
                    outcome: Some(Err(Failure::Rejected(Rejection::PrincipalOverflow))),
                }
            } else if balance != 0 {
                Execution {
                    handler: h,
                    calls: asked,
                    outcome: Some(Err(Failure::Local(LocalError::UsdcLeak))),
                }
            } else {
                Execution {
                    handler: HandlerView {
                        address: h.address,
                        storage: StorageView {
                            instance: Instance {
                                principal_supplied: Some((principal + amount) as i128),
                                ..i
                            },
                            version: h.storage.version,
                            seen: h.storage.seen,
                        },
                    },
                    calls: asked + seq![HostCall::ExtendInstanceTtl],
                    outcome: Some(Ok(())),
                }
            })
        }),
{
    let i = h.storage.instance;
    let start = execution::manual_to_blend_started(h, amount);
    let last = seq![Reply::Amount(balance)];
    let told = seq![Reply::Delegate(state)] + last;
    let done = seq![Reply::Performed] + told;
    let e = laws::run(h, start, seq![Reply::Config(config)] + done);
    if start is Perform {
        lemma_runs_on(h, start, Reply::Config(config), done);
        let moving = execution::after_manual_health(h, None, amount, config.status);
        if moving is Perform {
            lemma_runs_on(h, moving, Reply::Performed, told);
            let reading = execution::after_manual_supply(h, None, amount);
            let moves = seq![
                h.health_query(),
                moving->Perform_calls[0],
                moving->Perform_calls[1],
                moving->Perform_calls[2],
            ];
            if reading is Perform {
                lemma_runs_on(h, reading, Reply::Delegate(state), last);
                let ending = execution::resumed(h, reading->then, Reply::Delegate(state)).1;
                let all = ending->Perform_calls;
                assert(all =~= seq![all[0]].push(h.own_balance()));
                lemma_settles(h, None, seq![all[0]], ending->then.stage->writes, balance);
                assert(ending == execution::settling(
                    h,
                    None,
                    seq![all[0]],
                    ending->then.stage->writes,
                ));
                let asked = moves + seq![h.snapshot_query(), all[0], h.own_balance()];
                if balance == 0 {
                    assert(e.calls =~= asked + seq![HostCall::ExtendInstanceTtl]);
                } else {
                    assert(e.calls =~= asked);
                }
            } else {
                assert(e.calls =~= moves);
            }
            assert(moves =~= seq![h.health_query()] + seq![
                moving->Perform_calls[0],
                moving->Perform_calls[1],
                moving->Perform_calls[2],
            ]);
        } else {
            assert(e.calls =~= seq![h.health_query()]);
        }
    } else {
        assert(e.calls =~= seq![]);
    }
}

/// A manual move from Blend. An amount that is not positive, a pause, and an
/// amount beyond the principal stop it before it asks for anything. Otherwise
/// exactly `amount` goes from Blend through the handler to the pool and off the
/// principal. What is reported are the balances that the pool tells afterwards.
/// The cooldown is not touched.
pub proof fn law_manual_from_blend_call_by_call(
    h: HandlerView,
    amount: i128,
    state: DelegateState,
    balance: i128,
)
    ensures
        ({
            let i = h.storage.instance;
            let principal = match i.principal_supplied {
                Some(principal) => principal as int,
                None => 0,
            };
            let e = laws::run(
                h,
                execution::manual_from_blend_started(h, amount),
                seq![Reply::Delegate(state)] + seq![Reply::Amount(balance)],
            );
            let asked = seq![
                HostCall::Submit {
                    blend_pool: i.blend_pool->0,
                    account: h.address,
                    request: BlendRequest { request_type: 1, address: i.usdc->0, amount },
                },
                HostCall::AuthorizeTransfer {
                    token: i.usdc->0,
                    from: h.address,
                    to: i.blended_pool->0,
                    amount,
                },
                HostCall::DepositFromDelegate {
                    blended_pool: i.blended_pool->0,
                    token: i.usdc->0,
                    amount,
                },
                HostCall::QueryDelegateState { blended_pool: i.blended_pool->0 },
                HostCall::Publish(
                    Event::RebalanceExecuted(
                        RebalanceExecuted {
                            direction: Symbol::FromBlend,
                            amount,
                            liquid_after: h.liquid_of(state),
                            delegated_after: h.delegated_of(state),
                            principal_after: (principal - amount) as i128,
                        },
                    ),
                ),
                HostCall::Balance { token: i.usdc->0, holder: h.address },
            ];
            e == (if amount <= 0 {
                Execution {
                    handler: h,
                    calls: seq![],
                    outcome: Some(Err(Failure::Rejected(Rejection::AmountNotPositive))),
                }
            } else if i.paused == Some(true) {
                Execution {
                    handler: h,
                    calls: seq![],
                    outcome: Some(Err(Failure::Local(LocalError::Paused))),
                }
            } else if amount > principal {
                Execution {
                    handler: h,
                    calls: seq![],
                    outcome: Some(Err(Failure::Rejected(Rejection::AmountExceedsPrincipal))),
                }
            } else if balance != 0 {
                Execution {
                    handler: h,
                    calls: asked,
                    outcome: Some(Err(Failure::Local(LocalError::UsdcLeak))),
                }
            } else {
                Execution {
                    handler: HandlerView {
                        address: h.address,
                        storage: StorageView {
                            instance: Instance {
                                principal_supplied: Some((principal - amount) as i128),
                                ..i
                            },
                            version: h.storage.version,
                            seen: h.storage.seen,
                        },
                    },
                    calls: asked + seq![HostCall::ExtendInstanceTtl],
                    outcome: Some(Ok(())),
                }
            })
        }),
{
    let start = execution::manual_from_blend_started(h, amount);
    let last = seq![Reply::Amount(balance)];
    let e = laws::run(h, start, seq![Reply::Delegate(state)] + last);
    if start is Perform {
        let first = start->Perform_calls;
        lemma_runs_on(h, start, Reply::Delegate(state), last);
        let ending = execution::resumed(h, start->then, Reply::Delegate(state)).1;
        let all = ending->Perform_calls;
        assert(all =~= seq![all[0]].push(h.own_balance()));
        lemma_settles(h, None, seq![all[0]], ending->then.stage->writes, balance);
        assert(ending == execution::settling(
            h,
            None,
            seq![all[0]],
            ending->then.stage->writes,
        ));
        let asked = seq![first[0], first[1], first[2], first[3], all[0], h.own_balance()];
        if balance == 0 {
            assert(e.calls =~= asked + seq![HostCall::ExtendInstanceTtl]);
        } else {
            assert(e.calls =~= asked);
        }
    } else {
        assert(e.calls =~= seq![]);
    }
}

} // verus!
