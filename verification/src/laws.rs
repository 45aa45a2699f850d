//! What holds of whole transactions, whatever the host answers.
pub mod access;
pub mod accounting;
pub mod conduct;
pub mod entry;
pub mod flows;
pub mod gates;
pub mod harvest;
pub mod manual;
pub mod rebalance;
pub mod sizing;
pub mod transcripts;

use crate::envelope::Ed25519SignatureData;
use crate::error::Failure;
use crate::execution;
use crate::execution::{HandlerView, Pending, Stage, StepView};
use crate::externals::{HostCall, Ledger, Reply};
use crate::policy;
use crate::policy::Verdict;
use crate::primitives::EventId;
use crate::storage::Instance;
use vstd::prelude::*;

verus! {

/// A transaction, as far as the host has answered it: the handler afterwards,
/// the calls that were asked for, and how it ended, if it did.
#[verifier::ext_equal]
pub struct Execution {
    pub handler: HandlerView,
    pub calls: Seq<HostCall>,
    pub outcome: Option<Result<(), Failure>>,
}

/// What [`execution::resumed`] says, taken as a whole.
#[verifier::opaque]
pub open spec fn next(h: HandlerView, pending: Pending, reply: Reply) -> (HandlerView, StepView) {
    execution::resumed(h, pending, reply)
}

/// What becomes of handler `h` and step `step` when the host answers with
/// `replies`, one after the other.
pub open spec fn run(h: HandlerView, step: StepView, replies: Seq<Reply>) -> Execution
    decreases replies.len(),
{
    match step {
        StepView::Fail(f) => Execution { handler: h, calls: seq![], outcome: Some(Err(f)) },
        StepView::Complete { calls } => Execution { handler: h, calls, outcome: Some(Ok(())) },
        StepView::Perform { calls, then } => if replies.len() == 0 {
            Execution { handler: h, calls, outcome: None }
        } else {
            let (after, following) = next(h, then, replies[0]);
            let rest = run(after, following, replies.drop_first());
            Execution { calls: calls + rest.calls, ..rest }
        },
    }
}

impl Execution {
    pub open spec fn succeeded(self) -> bool {
        self.outcome == Some(Ok::<(), Failure>(()))
    }
}

/// One reply, and then the rest.
pub proof fn lemma_run_step(h: HandlerView, step: StepView, reply: Reply, rest: Seq<Reply>)
    requires
        step is Perform,
    ensures
        ({
            let (after, following) = next(h, step->then, reply);
            run(h, step, seq![reply] + rest) == (Execution {
                calls: step->Perform_calls + run(after, following, rest).calls,
                ..run(after, following, rest)
            })
        }),
{
    assert((seq![reply] + rest).drop_first() =~= rest);
}

/// The two handlers differ at most in what a transaction may write: the
/// principal, the two timestamps and the events that were seen.
pub open spec fn same_configuration(a: HandlerView, b: HandlerView) -> bool {
    &&& a.address == b.address
    &&& a.storage.version == b.storage.version
    &&& a.instance() == (Instance {
        principal_supplied: a.instance().principal_supplied,
        last_rebalance_ts: a.instance().last_rebalance_ts,
        last_harvest_ts: a.instance().last_harvest_ts,
        ..b.instance()
    })
}

/// One step changes nothing unless it completes, and then only what a
/// transaction may write.
pub proof fn lemma_resumed_frame(h: HandlerView, pending: Pending, reply: Reply)
    ensures
        next(h, pending, reply).1 !is Complete ==> next(
            h,
            pending,
            reply,
        ).0 == h,
        same_configuration(next(h, pending, reply).0, h),
        h.storage.seen.subset_of(next(h, pending, reply).0.storage.seen),
{
    reveal(next);
}

/// A transaction that has not succeeded has changed nothing.
pub proof fn law_failure_changes_nothing(h: HandlerView, step: StepView, replies: Seq<Reply>)
    requires
        step !is Complete,
    ensures
        !run(h, step, replies).succeeded() ==> run(h, step, replies).handler == h,
    decreases replies.len(),
{
    reveal_with_fuel(run, 2);
    if let StepView::Perform { calls, then } = step {
        if replies.len() > 0 {
            let (after, following) = next(h, then, replies[0]);
            lemma_resumed_frame(h, then, replies[0]);
            if following !is Complete {
                law_failure_changes_nothing(after, following, replies.drop_first());
            }
        }
    }
}

/// No transaction touches the handler's address, its version, its admin or any
/// of its knobs, and no event that was seen is forgotten.
pub proof fn law_configuration_survives(h: HandlerView, step: StepView, replies: Seq<Reply>)
    ensures
        same_configuration(run(h, step, replies).handler, h),
        h.constructed() ==> run(h, step, replies).handler.constructed(),
        h.instance().config_in_range() ==> run(
            h,
            step,
            replies,
        ).handler.instance().config_in_range(),
        h.storage.seen.subset_of(run(h, step, replies).handler.storage.seen),
    decreases replies.len(),
{
    if let StepView::Perform { calls, then } = step {
        if replies.len() > 0 {
            let (after, following) = next(h, then, replies[0]);
            lemma_resumed_frame(h, then, replies[0]);
            law_configuration_survives(after, following, replies.drop_first());
        }
    }
}

/// How many replies a transaction needs at most from `stage` on.
pub open spec fn replies_needed(stage: Stage) -> nat {
    match stage {
        Stage::Residue { .. } => 1,
        Stage::RebalanceSupplied { .. } => 2,
        Stage::RebalanceSnapshot { .. } => 3,
        Stage::RebalanceHealth { .. } => 4,
        Stage::HarvestAfter { .. } => 2,
        Stage::HarvestWithdraw { .. } => 3,
        Stage::HarvestBefore { .. } => 4,
        Stage::HarvestHealth { .. } => 5,
        Stage::HarvestClaim { .. } => 6,
        Stage::UnwindAfter { .. } => 2,
        Stage::UnwindBefore => 3,
        Stage::ManualToSnapshot { .. } => 2,
        Stage::ManualFromSnapshot { .. } => 2,
        Stage::ManualSupplied { .. } => 3,
        Stage::ManualHealth { .. } => 4,
        Stage::Verification { .. } => 7,
    }
}

/// Every transaction ends, after at most seven replies.
pub proof fn law_transactions_end(h: HandlerView, step: StepView, replies: Seq<Reply>)
    requires
        replies.len() >= 7 || (step matches StepView::Perform { calls, then } ==> replies.len()
            >= replies_needed(then.stage)),
    ensures
        run(h, step, replies).outcome is Some,
    decreases replies.len(),
{
    if let StepView::Perform { calls, then } = step {
        reveal(next);
        let (after, following) = next(h, then, replies[0]);
        law_transactions_end(after, following, replies.drop_first());
    }
}

/// A transaction succeeds only in one of two ways: the handler's own USDC
/// balance was read last and was zero, or a rebalance found nothing to do, in
/// which case nothing is written.
pub proof fn law_success_is_clean(h: HandlerView, pending: Pending, reply: Reply)
    requires
        execution::resumed(h, pending, reply).1 is Complete,
    ensures
        ({
            ||| pending.stage is Residue && reply == Reply::Amount(0)
            ||| {
                &&& pending.stage is RebalanceHealth || pending.stage is RebalanceSnapshot
                &&& execution::resumed(h, pending, reply).0.instance() == h.instance()
            }
        }),
{
    assert(execution::written(h.instance(), execution::no_writes()) == h.instance());
}

/// `step` is not about to check the residue, or it reads the handler's own
/// balance last.
pub open spec fn checks_own_balance(h: HandlerView, step: StepView) -> bool {
    step matches StepView::Perform { calls, then } ==> then.stage is Residue ==> calls.len() > 0
        && calls.last() == h.own_balance()
}

/// The balance that decides over success is the handler's own USDC balance,
/// read after every move.
pub proof fn law_residue_is_own_balance(
    h: HandlerView,
    pending: Pending,
    reply: Reply,
    event_id: Option<EventId>,
    now: u64,
    amount: i128,
    ledger: Ledger,
    envelope_bytes: Vec<u8>,
    sig_data: Ed25519SignatureData,
)
    ensures
        checks_own_balance(h, execution::resumed(h, pending, reply).1),
        checks_own_balance(h, execution::rebalance_started(h, event_id, now)),
        checks_own_balance(h, execution::harvest_started(h, event_id, now)),
        checks_own_balance(h, execution::unwind_started(h)),
        checks_own_balance(h, execution::manual_to_blend_started(h, amount)),
        checks_own_balance(h, execution::manual_from_blend_started(h, amount)),
        checks_own_balance(
            h,
            execution::verify_started(h, ledger, envelope_bytes, sig_data),
        ),
{
}

/// Every success that moved money, and every success of an envelope, renews the
/// life of the handler's storage.
pub proof fn law_success_renews_the_storage(h: HandlerView, pending: Pending, reply: Reply)
    requires
        execution::resumed(h, pending, reply).1 is Complete,
        pending.stage is Residue || pending.event_id is Some,
    ensures
        execution::resumed(h, pending, reply).1->Complete_calls.contains(
            HostCall::ExtendInstanceTtl,
        ),
{
    let calls = execution::resumed(h, pending, reply).1->Complete_calls;
    if pending.stage is Residue {
        assert(calls[0] == HostCall::ExtendInstanceTtl);
    } else {
        assert(calls[1] == HostCall::ExtendInstanceTtl);
    }
}

/// What a transaction has learned so far fits the handler's accounting.
pub open spec fn sound_stage(stage: Stage) -> bool {
    match stage {
        Stage::RebalanceSupplied { amount, .. } => amount > 0,
        Stage::ManualHealth { amount } => amount > 0,
        Stage::ManualSupplied { amount } => amount > 0,
        Stage::ManualToSnapshot { principal_after, .. } => principal_after >= 0,
        Stage::ManualFromSnapshot { principal_after, .. } => principal_after >= 0,
        Stage::Residue { writes } => writes.principal_supplied matches Some(p) ==> p >= 0,
        _ => true,
    }
}

pub open spec fn sound_step(step: StepView) -> bool {
    step matches StepView::Perform { calls, then } ==> sound_stage(then.stage)
}

/// A withdraw does not make the handler's balance smaller.
pub open spec fn sane_reply(stage: Stage, reply: Reply) -> bool {
    (stage, reply) matches (Stage::HarvestAfter { before, .. }, Reply::Amount(after)) ==> after
        >= before
}

/// All the replies that a transaction gets are sane.
pub open spec fn sane_replies(h: HandlerView, step: StepView, replies: Seq<Reply>) -> bool
    decreases replies.len(),
{
    match step {
        StepView::Perform { calls, then } => replies.len() > 0 ==> {
            let (after, following) = next(h, then, replies[0]);
            &&& sane_reply(then.stage, replies[0])
            &&& sane_replies(after, following, replies.drop_first())
        },
        _ => true,
    }
}

proof fn lemma_next_is_sound(h: HandlerView, pending: Pending, reply: Reply)
    requires
        h.principal() >= 0,
        sound_stage(pending.stage),
        sane_reply(pending.stage, reply),
    ensures
        sound_step(next(h, pending, reply).1),
        next(h, pending, reply).0.principal() >= 0,
{
    reveal(next);
    if let Stage::RebalanceSnapshot { now } = pending.stage {
        if let Reply::Delegate(state) = reply {
            let (liquid, total) = (h.liquid_of(state), h.total_of(state));
            match policy::verdict_of(h.instance(), now as int, liquid as int, total as int) {
                Ok(Verdict::ToBlend(amount)) => {
                    policy::lemma_to_blend_is_bounded(
                        h.instance(),
                        now as int,
                        liquid,
                        total,
                        amount,
                    );
                },
                Ok(Verdict::FromBlend(amount)) => {
                    policy::lemma_from_blend_is_bounded(
                        h.instance(),
                        now as int,
                        liquid,
                        total,
                        amount,
                    );
                },
                _ => {},
            }
        }
    }
}

/// The principal never becomes negative, whatever the host answers, as long as
/// a withdraw does not make the handler's balance smaller.
pub proof fn law_principal_stays_non_negative(h: HandlerView, step: StepView, replies: Seq<Reply>)
    requires
        h.principal() >= 0,
        sound_step(step),
        sane_replies(h, step, replies),
    ensures
        run(h, step, replies).handler.principal() >= 0,
    decreases replies.len(),
{
    if let StepView::Perform { calls, then } = step {
        if replies.len() > 0 {
            let (after, following) = next(h, then, replies[0]);
            lemma_next_is_sound(h, then, replies[0]);
            law_principal_stays_non_negative(after, following, replies.drop_first());
        }
    }
}

/// Every transaction begins soundly.
pub proof fn law_transactions_start_soundly(
    h: HandlerView,
    event_id: Option<EventId>,
    now: u64,
    amount: i128,
    ledger: Ledger,
    envelope_bytes: Vec<u8>,
    sig_data: Ed25519SignatureData,
)
    ensures
        sound_step(execution::rebalance_started(h, event_id, now)),
        sound_step(execution::harvest_started(h, event_id, now)),
        sound_step(execution::unwind_started(h)),
        sound_step(execution::manual_to_blend_started(h, amount)),
        sound_step(execution::manual_from_blend_started(h, amount)),
        sound_step(execution::verify_started(h, ledger, envelope_bytes, sig_data)),
{
}

} // verus!
