//! Who can make the handler do something, and how often.
use crate::circuit::payload::Direction;
use crate::envelope;
use crate::envelope::{Ed25519SignatureData, XlmEnvelopeView};
use crate::error::{Failure, HandlerError, LocalError};
use crate::events::{Event, Symbol};
use crate::execution;
use crate::execution::{HandlerView, Pending, Stage, StepView};
use crate::externals::{DelegateState, HostCall, Ledger, Reply, VerifyOutcome};
use crate::laws;
use crate::laws::conduct;
use crate::policy;
use crate::policy::Verdict;
use crate::primitives::{Address, EventId};
use crate::xdr;
use vstd::prelude::*;

verus! {

/// `step` belongs to the transaction of envelope `id`.
pub open spec fn belongs_to(step: StepView, id: Option<EventId>) -> bool {
    step matches StepView::Perform { calls, then } ==> then.event_id == id
}

proof fn lemma_steps_stay_with_their_envelope(
    h: HandlerView,
    pending: Pending,
    reply: Reply,
)
    ensures
        belongs_to(laws::next(h, pending, reply).1, pending.event_id),
        laws::next(h, pending, reply).1 is Complete ==> laws::next(h, pending, reply).0.storage.seen
            == (match pending.event_id {
            Some(id) => h.storage.seen.insert(id),
            None => h.storage.seen,
        }),
{
    reveal(laws::next);
}

/// The transaction of an envelope marks exactly this envelope as seen if it
/// succeeds, and nothing otherwise.
pub proof fn law_success_marks_the_envelope(
    h: HandlerView,
    step: StepView,
    id: EventId,
    replies: Seq<Reply>,
)
    requires
        belongs_to(step, Some(id)),
        step !is Complete,
    ensures
        laws::run(h, step, replies).handler.storage.seen == (if laws::run(
            h,
            step,
            replies,
        ).succeeded() {
            h.storage.seen.insert(id)
        } else {
            h.storage.seen
        }),
    decreases replies.len(),
{
    if let StepView::Perform { calls, then } = step {
        if replies.len() > 0 {
            let (next, following) = laws::next(h, then, replies[0]);
            lemma_steps_stay_with_their_envelope(h, then, replies[0]);
            laws::lemma_resumed_frame(h, then, replies[0]);
            laws::lemma_run_step(h, step, replies[0], replies.drop_first());
            assert(replies =~= seq![replies[0]] + replies.drop_first());
            if following !is Complete {
                law_success_marks_the_envelope(next, following, id, replies.drop_first());
            }
        }
    }
}

/// The envelopes that `calls` report as verified, in order.
pub open spec fn reported(calls: Seq<HostCall>) -> Seq<EventId>
    decreases calls.len(),
{
    if calls.len() == 0 {
        seq![]
    } else {
        match calls.last() {
            HostCall::Publish(Event::Verified { event_id }) => reported(calls.drop_last()).push(
                event_id,
            ),
            _ => reported(calls.drop_last()),
        }
    }
}

/// The envelope `id`, if there is one.
pub open spec fn the_one(id: Option<EventId>) -> Seq<EventId> {
    match id {
        Some(id) => seq![id],
        None => seq![],
    }
}

/// No envelope is reported.
#[verifier::opaque]
spec fn silent(calls: Seq<HostCall>) -> bool {
    forall|j: int|
        0 <= j < calls.len() ==> !(#[trigger] calls[j] matches HostCall::Publish(
            Event::Verified { .. },
        ))
}

proof fn lemma_silent_calls_report_nothing(calls: Seq<HostCall>)
    requires
        silent(calls),
    ensures
        reported(calls) == Seq::<EventId>::empty(),
    decreases calls.len(),
{
    reveal(silent);
    if calls.len() > 0 {
        lemma_silent_calls_report_nothing(calls.drop_last());
    }
}

proof fn lemma_reported_concat(a: Seq<HostCall>, b: Seq<HostCall>)
    ensures
        reported(a + b) == reported(a) + reported(b),
    decreases b.len(),
{
    if b.len() == 0 {
        assert(a + b =~= a);
        assert(reported(a) + reported(b) =~= reported(a));
    } else {
        assert((a + b).drop_last() =~= a + b.drop_last());
        lemma_reported_concat(a, b.drop_last());
        assert(reported(a + b) =~= reported(a) + reported(b));
    }
}

proof fn lemma_closing_reports_the_envelope(calls: Seq<HostCall>, id: Option<EventId>)
    requires
        silent(calls),
    ensures
        reported(calls + execution::closing_calls(id)) == the_one(id),
{
    lemma_silent_calls_report_nothing(calls);
    lemma_reported_concat(calls, execution::closing_calls(id));
    reveal_with_fuel(reported, 4);
    assert(reported(execution::closing_calls(id)) =~= the_one(id));
    assert(reported(calls + execution::closing_calls(id)) =~= the_one(id));
}

proof fn lemma_silent_concat(a: Seq<HostCall>, b: Seq<HostCall>)
    requires
        silent(a),
        silent(b),
    ensures
        silent(a + b),
{
    reveal(silent);
}

proof fn lemma_silent_end(calls: Seq<HostCall>, h: HandlerView)
    requires
        silent(calls),
    ensures
        forall|event: Event|
            !(event is Verified) ==> #[trigger] silent(
                calls.push(HostCall::Publish(event)).push(h.own_balance()),
            ),
        silent(calls.push(h.own_balance())),
{
    reveal(silent);
}

proof fn lemma_movers_are_silent(h: HandlerView, amount: int)
    ensures
        silent(seq![]),
        silent(h.supply_calls(amount)),
        silent(h.deposit_calls(amount)),
        silent(h.donate_calls(amount)),
        silent(seq![h.take_call(amount)] + h.supply_calls(amount)),
        silent(seq![h.withdraw_call(amount)] + h.deposit_calls(amount)),
{
    reveal(silent);
}

proof fn lemma_redeemed_moves_are_silent(h: HandlerView, redeemed: int)
    ensures
        silent(execution::harvest_moves(h, redeemed)),
        silent(execution::unwind_moves(h, redeemed)),
{
    let principal = h.principal() as int;
    let supply = execution::resupplied(principal, redeemed);
    let interest = execution::interest_of(principal, redeemed);
    let warning = seq![execution::bad_debt_event(principal, redeemed)];
    assert(silent(warning)) by {
        reveal(silent);
    }
    lemma_movers_are_silent(h, supply);
    lemma_movers_are_silent(h, interest);
    let first = if supply > 0 {
        h.supply_calls(supply)
    } else {
        seq![]
    };
    let second = if redeemed < principal {
        warning
    } else {
        seq![]
    };
    let third = if interest > 0 {
        h.donate_calls(interest)
    } else {
        seq![]
    };
    lemma_silent_concat(first, second);
    lemma_silent_concat(first + second, third);
    let deposit = policy::min_int(redeemed, principal);
    let excess = policy::clamped_difference(redeemed, principal);
    lemma_movers_are_silent(h, deposit);
    lemma_movers_are_silent(h, excess);
    let back = if redeemed > 0 && deposit > 0 {
        h.deposit_calls(deposit)
    } else {
        seq![]
    };
    let given = if redeemed > 0 && excess > 0 {
        h.donate_calls(excess)
    } else {
        seq![]
    };
    lemma_silent_concat(back, given);
}

/// Nothing is reported before the end, and at the end the envelope is.
spec fn reports_at_the_end(step: StepView, id: Option<EventId>) -> bool {
    match step {
        StepView::Perform { calls, then } => silent(calls),
        StepView::Complete { calls } => reported(calls) == the_one(id),
        StepView::Fail(_) => true,
    }
}

proof fn lemma_starts_are_silent(h: HandlerView, id: Option<EventId>, now: u64, amount: i128)
    ensures
        silent(conduct::calls_in(execution::rebalance_started(h, id, now))),
        silent(conduct::calls_in(execution::harvest_started(h, id, now))),
        silent(conduct::calls_in(execution::unwind_started(h))),
        silent(conduct::calls_in(execution::manual_to_blend_started(h, amount))),
        silent(conduct::calls_in(execution::manual_from_blend_started(h, amount))),
{
    reveal(silent);
}

proof fn lemma_snapshot_reports_at_the_end(
    h: HandlerView,
    id: Option<EventId>,
    now: u64,
    state: DelegateState,
)
    ensures
        reports_at_the_end(execution::after_snapshot(h, id, now, state).1, id),
{
    let liquid = h.liquid_of(state) as int;
    match policy::verdict_of(h.instance(), now as int, liquid, h.total_of(state) as int) {
        Ok(Verdict::Skip) => {
            lemma_movers_are_silent(h, 0);
            lemma_closing_reports_the_envelope(seq![], id);
        },
        Ok(Verdict::Hold) => {
            lemma_movers_are_silent(h, 0);
            lemma_silent_end(seq![], h);
        },
        Ok(Verdict::ToBlend(amount)) => {
            lemma_movers_are_silent(h, amount as int);
        },
        Ok(Verdict::FromBlend(amount)) => {
            lemma_movers_are_silent(h, amount as int);
            let moves = seq![h.withdraw_call(amount as int)] + h.deposit_calls(amount as int);
            let event = execution::rebalance_event(
                Symbol::FromBlend,
                amount as int,
                liquid + amount,
                h.total_of(state) - liquid - amount,
                h.principal() - amount,
            );
            lemma_silent_end(moves, h);
            assert(moves + seq![event] =~= moves.push(event));
        },
        Err(_) => {},
    }
}

proof fn lemma_only_the_end_reports(h: HandlerView, pending: Pending, reply: Reply)
    ensures
        reports_at_the_end(execution::resumed(h, pending, reply).1, pending.event_id),
{
    let id = pending.event_id;
    lemma_movers_are_silent(h, 0);
    match (pending.stage, reply) {
        (Stage::Verification { now, action }, Reply::Verification(outcome)) => {
            lemma_starts_are_silent(h, id, now, 0);
        },
        (Stage::RebalanceHealth { now }, Reply::Config(config)) => {
            lemma_closing_reports_the_envelope(seq![], id);
            reveal(silent);
        },
        (Stage::RebalanceSnapshot { now }, Reply::Delegate(state)) => {
            lemma_snapshot_reports_at_the_end(h, id, now, state);
        },
        (Stage::HarvestAfter { now, blnd_routed, before }, Reply::Amount(after)) => {
            let redeemed = policy::clamped_difference(after as int, before as int);
            lemma_redeemed_moves_are_silent(h, redeemed);
            lemma_silent_end(execution::harvest_moves(h, redeemed), h);
        },
        (Stage::UnwindAfter { before }, Reply::Amount(after)) => {
            let redeemed = policy::clamped_difference(after as int, before as int);
            lemma_redeemed_moves_are_silent(h, redeemed);
            lemma_silent_end(execution::unwind_moves(h, redeemed), h);
        },
        (Stage::ManualHealth { amount }, Reply::Config(config)) => {
            lemma_movers_are_silent(h, amount as int);
        },
        (Stage::Residue { writes }, Reply::Amount(balance)) => {
            assert(silent(seq![HostCall::ExtendInstanceTtl])) by {
                reveal(silent);
            }
            lemma_closing_reports_the_envelope(seq![HostCall::ExtendInstanceTtl], id);
        },
        _ => {
            reveal(silent);
        },
    }
}

/// `step` belongs to the transaction of envelope `id`, which has neither ended nor
/// reported anything.
pub open spec fn reports_later(step: StepView, id: Option<EventId>) -> bool {
    &&& belongs_to(step, id)
    &&& step !is Complete
    &&& reported(conduct::calls_in(step)) == Seq::<EventId>::empty()
}

/// A transaction reports the envelope that started it once, if it succeeds. One
/// that fails, has not ended yet, or was not started by an envelope reports none.
pub proof fn law_success_reports_the_envelope(
    h: HandlerView,
    step: StepView,
    id: Option<EventId>,
    replies: Seq<Reply>,
)
    requires
        reports_later(step, id),
    ensures
        reported(laws::run(h, step, replies).calls) == (if laws::run(
            h,
            step,
            replies,
        ).succeeded() {
            the_one(id)
        } else {
            seq![]
        }),
    decreases replies.len(),
{
    if let StepView::Perform { calls, then } = step {
        if replies.len() > 0 {
            let (next, following) = laws::next(h, then, replies[0]);
            lemma_steps_stay_with_their_envelope(h, then, replies[0]);
            assert(laws::next(h, then, replies[0]) == execution::resumed(h, then, replies[0])) by {
                reveal(laws::next);
            }
            lemma_only_the_end_reports(h, then, replies[0]);
            let rest = laws::run(next, following, replies.drop_first());
            lemma_reported_concat(calls, rest.calls);
            match following {
                StepView::Perform { calls, .. } => {
                    lemma_silent_calls_report_nothing(calls);
                    law_success_reports_the_envelope(next, following, id, replies.drop_first());
                },
                StepView::Fail(_) => {
                    assert(rest.calls =~= seq![]);
                },
                StepView::Complete { .. } => {},
            }
            assert(reported(laws::run(h, step, replies).calls) =~= reported(rest.calls));
        }
    }
}

/// Every transaction begins without a report, and an envelope's transaction
/// belongs to the envelope.
pub proof fn law_transactions_start_silently(
    h: HandlerView,
    event_id: Option<EventId>,
    now: u64,
    amount: i128,
    ledger: Ledger,
    envelope_bytes: Vec<u8>,
    sig_data: Ed25519SignatureData,
)
    ensures
        reports_later(execution::rebalance_started(h, event_id, now), event_id),
        reports_later(execution::harvest_started(h, event_id, now), event_id),
        reports_later(execution::unwind_started(h), None),
        reports_later(execution::manual_to_blend_started(h, amount), None),
        reports_later(execution::manual_from_blend_started(h, amount), None),
        reports_later(
            execution::verify_started(h, ledger, envelope_bytes, sig_data),
            match envelope::envelope_of(envelope_bytes@) {
                Some(envelope) => Some(envelope.event_id),
                None => None,
            },
        ),
{
    lemma_starts_are_silent(h, event_id, now, amount);
    let verifying = execution::verify_started(h, ledger, envelope_bytes, sig_data);
    assert(silent(conduct::calls_in(verifying))) by {
        reveal(silent);
    }
    lemma_silent_calls_report_nothing(
        conduct::calls_in(execution::rebalance_started(h, event_id, now)),
    );
    lemma_silent_calls_report_nothing(
        conduct::calls_in(execution::harvest_started(h, event_id, now)),
    );
    lemma_silent_calls_report_nothing(conduct::calls_in(execution::unwind_started(h)));
    lemma_silent_calls_report_nothing(
        conduct::calls_in(execution::manual_to_blend_started(h, amount)),
    );
    lemma_silent_calls_report_nothing(
        conduct::calls_in(execution::manual_from_blend_started(h, amount)),
    );
    lemma_silent_calls_report_nothing(conduct::calls_in(verifying));
}

/// An envelope is carried out at most once: after its transaction succeeded, and
/// in every later state, the same event id is refused, whatever envelope and
/// signatures it comes with.
pub proof fn law_no_envelope_twice(
    h: HandlerView,
    ledger: Ledger,
    envelope_bytes: Vec<u8>,
    sig_data: Ed25519SignatureData,
    replies: Seq<Reply>,
    later: HandlerView,
    later_ledger: Ledger,
    later_bytes: Vec<u8>,
    later_sig_data: Ed25519SignatureData,
)
    requires
        laws::run(
            h,
            execution::verify_started(h, ledger, envelope_bytes, sig_data),
            replies,
        ).succeeded(),
        laws::run(
            h,
            execution::verify_started(h, ledger, envelope_bytes, sig_data),
            replies,
        ).handler.storage.seen.subset_of(later.storage.seen),
        envelope::envelope_of(later_bytes@) is Some,
        envelope::envelope_of(later_bytes@)->0.event_id == envelope::envelope_of(
            envelope_bytes@,
        )->0.event_id,
    ensures
        execution::verify_started(later, later_ledger, later_bytes, later_sig_data)
            == StepView::Fail(
            if later.instance().paused_or_default() {
                Failure::Local(LocalError::Paused)
            } else {
                Failure::Handler(HandlerError::EventAlreadySeen)
            },
        ),
{
    let step = execution::verify_started(h, ledger, envelope_bytes, sig_data);
    let id = envelope::envelope_of(envelope_bytes@)->0.event_id;
    assert(step !is Complete);
    if step is Fail {
        assert(laws::run(h, step, replies).outcome is Some);
    }
    law_success_marks_the_envelope(h, step, id, replies);
    assert(laws::run(h, step, replies).handler.storage.seen.contains(id));
}

/// A paused handler refuses every envelope and forgets about it: once the pause
/// is over the envelope is treated as if it had never come.
pub proof fn law_paused_envelopes_can_return(
    h: HandlerView,
    ledger: Ledger,
    envelope_bytes: Vec<u8>,
    sig_data: Ed25519SignatureData,
    replies: Seq<Reply>,
)
    requires
        h.instance().paused_or_default(),
    ensures
        laws::run(h, execution::verify_started(h, ledger, envelope_bytes, sig_data), replies) == (
        laws::Execution {
            handler: h,
            calls: seq![],
            outcome: Some(Err(Failure::Local(LocalError::Paused))),
        }),
{
}

/// Nothing but the question to the verification contract happens before its
/// answer, and the question is about the very bytes and signatures that came
/// in. Without its approval nothing else ever happens.
pub proof fn law_nothing_without_approval(
    h: HandlerView,
    ledger: Ledger,
    envelope_bytes: Vec<u8>,
    sig_data: Ed25519SignatureData,
    replies: Seq<Reply>,
)
    requires
        replies.len() > 0 ==> replies[0] != Reply::Verification(VerifyOutcome::Verified),
    ensures
        ({
            let e = laws::run(
                h,
                execution::verify_started(h, ledger, envelope_bytes, sig_data),
                replies,
            );
            &&& !e.succeeded()
            &&& e.handler == h
            &&& e.calls == Seq::<HostCall>::empty() || e.calls == seq![
                HostCall::Verify {
                    contract: h.instance().verification_contract->0,
                    envelope_bytes,
                    signatures: sig_data.signatures,
                    signers: sig_data.signers,
                    reference_block: sig_data.reference_block,
                },
            ]
        }),
{
    let step = execution::verify_started(h, ledger, envelope_bytes, sig_data);
    if step is Perform && replies.len() > 0 {
        laws::lemma_run_step(h, step, replies[0], replies.drop_first());
        assert(replies =~= seq![replies[0]] + replies.drop_first());
        let (next, following) = laws::next(h, step->then, replies[0]);
        assert(next == h && following is Fail) by {
            reveal(laws::next);
        }
        assert(laws::run(next, following, replies.drop_first()).calls =~= seq![]);
        assert(laws::run(h, step, replies).calls =~= step->Perform_calls);
    }
}

/// An envelope is refused if its signatures refer to a ledger that lies in the
/// future or too far in the past.
pub proof fn law_reference_block_must_be_recent(
    h: HandlerView,
    ledger: Ledger,
    envelope_bytes: Vec<u8>,
    sig_data: Ed25519SignatureData,
)
    requires
        sig_data.reference_block > ledger.sequence || ledger.sequence - sig_data.reference_block
            > 200,
    ensures
        execution::verify_started(h, ledger, envelope_bytes, sig_data) is Fail,
{
}

/// Without the admin's word an admin entrypoint changes nothing and asks for
/// nothing.
pub proof fn law_only_the_admin_configures(
    h: HandlerView,
    auths: Seq<Address>,
    refusal: Option<Failure>,
    changed: HandlerView,
    calls: Seq<HostCall>,
    step: StepView,
    new_admin: Address,
)
    requires
        !auths.contains(h.instance().admin->0),
    ensures
        execution::admin_outcome(h, auths, refusal, changed, calls) == (
            h,
            Err::<Seq<HostCall>, Failure>(Failure::Unauthorized),
        ),
        execution::admin_started(h, auths, step) == StepView::Fail(Failure::Unauthorized),
        execution::admin_proposed(h, auths, new_admin) == (
            h,
            Err::<Seq<HostCall>, Failure>(Failure::Unauthorized),
        ),
{
}

/// The office changes hands in two steps: the old admin proposes and stays, the
/// proposed one accepts and is admin, and no proposal is left.
pub proof fn law_admin_transfer(
    h: HandlerView,
    proposing: Seq<Address>,
    accepting: Seq<Address>,
    new_admin: Address,
)
    requires
        proposing.contains(h.instance().admin->0),
        accepting.contains(new_admin),
    ensures
        ({
            let (proposed, first) = execution::admin_proposed(h, proposing, new_admin);
            let (accepted, second) = execution::admin_accepted(proposed, accepting);
            &&& first is Ok
            &&& proposed.instance().admin == h.instance().admin
            &&& proposed.instance().pending_admin == Some(new_admin)
            &&& second is Ok
            &&& accepted.instance().admin == Some(new_admin)
            &&& accepted.instance().pending_admin is None
        }),
{
}

/// No one but the proposed admin can take office.
pub proof fn law_only_the_proposed_admin_accepts(h: HandlerView, auths: Seq<Address>)
    requires
        match h.instance().pending_admin {
            None => true,
            Some(new_admin) => !auths.contains(new_admin),
        },
    ensures
        execution::admin_accepted(h, auths).0 == h,
        execution::admin_accepted(h, auths).1 is Err,
{
}

/// A tick that the quorum signed and the verification contract approved is
/// carried out: a fresh envelope around it makes the handler ask for approval,
/// and with the approval the action that the circuit meant begins.
pub proof fn law_approved_ticks_are_carried_out(
    h: HandlerView,
    ledger: Ledger,
    e: XlmEnvelopeView,
    envelope_bytes: Vec<u8>,
    sig_data: Ed25519SignatureData,
    direction: Direction,
)
    requires
        envelope_bytes@ == envelope::envelope_xdr(e),
        e.payload == xdr::unit_variant_xdr(direction.action().name()),
        !h.instance().paused_or_default(),
        !h.storage.seen.contains(e.event_id),
        execution::reference_block_ok(ledger.sequence, sig_data.reference_block),
    ensures
        ({
            let step = execution::verify_started(h, ledger, envelope_bytes, sig_data);
            &&& step is Perform
            &&& execution::resumed(
                h,
                step->then,
                Reply::Verification(VerifyOutcome::Verified),
            ) == (
                h,
                match direction {
                    Direction::Rebalance => execution::rebalance_started(
                        h,
                        Some(e.event_id),
                        ledger.timestamp,
                    ),
                    Direction::HarvestYield => execution::harvest_started(
                        h,
                        Some(e.event_id),
                        ledger.timestamp,
                    ),
                },
            )
        }),
{
    envelope::lemma_action_round_trip(direction.action());
    xdr::lemma_unit_variant_len(direction.action().name());
    reveal_strlit("Rebalance");
    reveal_strlit("HarvestYield");
    envelope::lemma_envelope_round_trip(e);
}

} // verus!
