//! How transactions begin and what turns them away, in the entries of the storage
//! and plain numbers.
use crate::envelope;
use crate::envelope::Ed25519SignatureData;
use crate::error::{Failure, HandlerError, LocalError, Rejection, VerifyError};
use crate::events::{ConfigUpdated, Event, PauseToggled, Symbol};
use crate::execution;
use crate::execution::{HandlerView, Pending, RebalanceAction, Stage, StepView};
use crate::externals::{HostCall, Ledger, Reply, VerifyOutcome};
use crate::laws;
use crate::laws::Execution;
use crate::primitives::{Address, EventId};
use crate::storage::{Instance, StorageView};
use vstd::prelude::*;

verus! {

/// A fresh envelope at a handler that is not paused is handed to the verification
/// contract, with the signatures that came with it, whenever its reference block
/// is not in the future and at most 200 ledgers old. Nothing else is asked for,
/// and the transaction is that of the envelope's event.
pub proof fn law_fresh_envelopes_are_verified(
    h: HandlerView,
    ledger: Ledger,
    envelope_bytes: Vec<u8>,
    sig_data: Ed25519SignatureData,
)
    requires
        h.storage.instance.paused != Some(true),
        envelope::envelope_of(envelope_bytes@) is Some,
        !h.storage.seen.contains(envelope::envelope_of(envelope_bytes@)->0.event_id),
        sig_data.reference_block <= ledger.sequence,
        ledger.sequence - sig_data.reference_block <= 200,
    ensures
        execution::verify_started(h, ledger, envelope_bytes, sig_data) == (StepView::Perform {
            calls: seq![
                HostCall::Verify {
                    contract: h.storage.instance.verification_contract->0,
                    envelope_bytes,
                    signatures: sig_data.signatures,
                    signers: sig_data.signers,
                    reference_block: sig_data.reference_block,
                },
            ],
            then: Pending {
                event_id: Some(envelope::envelope_of(envelope_bytes@)->0.event_id),
                stage: Stage::Verification {
                    now: ledger.timestamp,
                    action: envelope::action_of(envelope::envelope_of(envelope_bytes@)->0.payload),
                },
            },
        }),
{
}

/// What turns an envelope away before anyone looks at its signatures, and which
/// of several reasons is given: the pause, bytes that are no envelope, an event
/// that was seen, and a reference block in the future or more than 200 ledgers
/// old.
pub proof fn law_refused_envelopes(
    h: HandlerView,
    ledger: Ledger,
    envelope_bytes: Vec<u8>,
    sig_data: Ed25519SignatureData,
)
    ensures
        ({
            let step = execution::verify_started(h, ledger, envelope_bytes, sig_data);
            let paused = h.storage.instance.paused == Some(true);
            let envelope = envelope::envelope_of(envelope_bytes@);
            let old = sig_data.reference_block > ledger.sequence || ledger.sequence
                - sig_data.reference_block > 200;
            &&& paused ==> step == StepView::Fail(Failure::Local(LocalError::Paused))
            &&& !paused && envelope is None ==> step == StepView::Fail(
                Failure::Handler(HandlerError::InvalidEnvelope),
            )
            &&& !paused && envelope is Some ==> {
                let seen = h.storage.seen.contains(envelope->0.event_id);
                &&& seen ==> step == StepView::Fail(
                    Failure::Handler(HandlerError::EventAlreadySeen),
                )
                &&& !seen && old ==> step == StepView::Fail(
                    Failure::Handler(HandlerError::InvalidReferenceBlock),
                )
            }
        }),
{
}

/// Whether an envelope is handed on rests on the pause, on the events that were
/// seen, on the two ledgers and on the bytes, and on no other entry of the
/// storage.
pub proof fn law_envelopes_are_judged_alike(
    a: HandlerView,
    b: HandlerView,
    ledger: Ledger,
    envelope_bytes: Vec<u8>,
    sig_data: Ed25519SignatureData,
)
    requires
        a.storage.instance.paused == b.storage.instance.paused,
        a.storage.instance.verification_contract == b.storage.instance.verification_contract,
        a.storage.seen == b.storage.seen,
    ensures
        execution::verify_started(a, ledger, envelope_bytes, sig_data)
            == execution::verify_started(b, ledger, envelope_bytes, sig_data),
{
}

/// What follows the verification contract's answer. Approved, a readable action
/// begins at the time of the ledger and for the envelope's event, and an
/// unreadable one is refused. Otherwise the transaction fails with the reason that
/// the contract gave, and keeps nothing.
pub proof fn law_verification_decides(
    h: HandlerView,
    event_id: Option<EventId>,
    now: u64,
    action: Option<RebalanceAction>,
    outcome: VerifyOutcome,
)
    ensures
        ({
            let pending = Pending { event_id, stage: Stage::Verification { now, action } };
            let (after, step) = execution::resumed(h, pending, Reply::Verification(outcome));
            &&& after == h
            &&& match outcome {
                VerifyOutcome::Verified => match action {
                    Some(RebalanceAction::Rebalance) => step == (StepView::Perform {
                        calls: seq![
                            HostCall::GetConfig { blend_pool: h.storage.instance.blend_pool->0 },
                        ],
                        then: Pending { event_id, stage: Stage::RebalanceHealth { now } },
                    }),
                    Some(RebalanceAction::HarvestYield) => step == (StepView::Perform {
                        calls: seq![
                            HostCall::Claim {
                                blend_pool: h.storage.instance.blend_pool->0,
                                from: h.address,
                                reserve_token_id: h.storage.instance.usdc_reserve_token_id->0,
                                to: h.storage.instance.blnd_treasury->0,
                            },
                        ],
                        then: Pending { event_id, stage: Stage::HarvestClaim { now } },
                    }),
                    None => step == StepView::Fail(Failure::Handler(HandlerError::InvalidEnvelope)),
                },
                VerifyOutcome::Unreadable => step == StepView::Fail(
                    Failure::Handler(HandlerError::UnknownVerificationError),
                ),
                VerifyOutcome::InvocationFailed => step == StepView::Fail(
                    Failure::Handler(HandlerError::OtherInvocationError),
                ),
                VerifyOutcome::Refused(e) => step == StepView::Fail(
                    Failure::Handler(
                        match e {
                            VerifyError::InvalidSignature => HandlerError::InvalidSignature,
                            VerifyError::SignerNotRegistered => HandlerError::SignerNotRegistered,
                            VerifyError::InsufficientWeight => HandlerError::InsufficientWeight,
                            VerifyError::EmptySignatures => HandlerError::EmptySignatures,
                            VerifyError::LengthMismatch => HandlerError::LengthMismatch,
                            VerifyError::SignersNotOrdered => HandlerError::SignersNotOrdered,
                            VerifyError::ZeroRequiredWeight => HandlerError::ZeroRequiredWeight,
                        },
                    ),
                ),
            }
        }),
{
}

/// From the approval on, the transaction of an envelope goes the way of the action
/// in it: the run is that of the action, after the question to the verification
/// contract.
pub proof fn law_approved_envelopes_run_their_action(
    h: HandlerView,
    ledger: Ledger,
    envelope_bytes: Vec<u8>,
    sig_data: Ed25519SignatureData,
    rest: Seq<Reply>,
)
    requires
        h.storage.instance.paused != Some(true),
        envelope::envelope_of(envelope_bytes@) is Some,
        !h.storage.seen.contains(envelope::envelope_of(envelope_bytes@)->0.event_id),
        sig_data.reference_block <= ledger.sequence,
        ledger.sequence - sig_data.reference_block <= 200,
    ensures
        ({
            let e = envelope::envelope_of(envelope_bytes@)->0;
            let question = HostCall::Verify {
                contract: h.storage.instance.verification_contract->0,
                envelope_bytes,
                signatures: sig_data.signatures,
                signers: sig_data.signers,
                reference_block: sig_data.reference_block,
            };
            let whole = laws::run(
                h,
                execution::verify_started(h, ledger, envelope_bytes, sig_data),
                seq![Reply::Verification(VerifyOutcome::Verified)] + rest,
            );
            let rebalance = laws::run(
                h,
                execution::rebalance_started(h, Some(e.event_id), ledger.timestamp),
                rest,
            );
            let harvest = laws::run(
                h,
                execution::harvest_started(h, Some(e.event_id), ledger.timestamp),
                rest,
            );
            &&& envelope::action_of(e.payload) == Some(RebalanceAction::Rebalance) ==> whole == (
            Execution { calls: seq![question] + rebalance.calls, ..rebalance })
            &&& envelope::action_of(e.payload) == Some(RebalanceAction::HarvestYield) ==> whole == (
            Execution { calls: seq![question] + harvest.calls, ..harvest })
            &&& envelope::action_of(e.payload) is None ==> whole == (Execution {
                handler: h,
                calls: seq![question],
                outcome: Some(Err(Failure::Handler(HandlerError::InvalidEnvelope))),
            })
        }),
{
    let approved = Reply::Verification(VerifyOutcome::Verified);
    let start = execution::verify_started(h, ledger, envelope_bytes, sig_data);
    laws::lemma_run_step(h, start, approved, rest);
    reveal(laws::next);
    let whole = laws::run(h, start, seq![approved] + rest);
    let e = envelope::envelope_of(envelope_bytes@)->0;
    if envelope::action_of(e.payload) is None {
        assert(whole.calls =~= start->Perform_calls);
    }
}

/// A transaction that gets a reply of another kind than the one it waits for, or
/// learns that a call could not be made, fails and keeps nothing.
pub proof fn law_other_replies_fail(h: HandlerView, pending: Pending, reply: Reply)
    requires
        match pending.stage {
            Stage::Verification { .. } => reply !is Verification,
            Stage::RebalanceHealth { .. } => reply !is Config,
            Stage::RebalanceSnapshot { .. } => reply !is Delegate,
            Stage::RebalanceSupplied { .. } => reply !is Performed,
            Stage::HarvestClaim { .. } => reply !is Amount,
            Stage::HarvestHealth { .. } => reply !is Config,
            Stage::HarvestBefore { .. } => reply !is Amount,
            Stage::HarvestWithdraw { .. } => reply !is Submitted,
            Stage::HarvestAfter { .. } => reply !is Amount,
            Stage::UnwindBefore => reply !is Amount,
            Stage::UnwindAfter { .. } => reply !is Amount,
            Stage::ManualHealth { .. } => reply !is Config,
            Stage::ManualSupplied { .. } => reply !is Performed,
            Stage::ManualToSnapshot { .. } => reply !is Delegate,
            Stage::ManualFromSnapshot { .. } => reply !is Delegate,
            Stage::Residue { .. } => reply !is Amount,
        },
    ensures
        execution::resumed(h, pending, reply) == (h, StepView::Fail(Failure::HostTrap)),
{
}

/// An entrypoint of the admin. Without the admin's word it fails and changes
/// nothing. With it, an argument that has to be refused is refused and changes
/// nothing, and any other takes effect: the handler is changed as asked for, and
/// the calls are those that belong to the change.
pub proof fn law_the_admin_is_obeyed(
    h: HandlerView,
    auths: Seq<Address>,
    refusal: Option<Failure>,
    changed: HandlerView,
    calls: Seq<HostCall>,
    step: StepView,
)
    ensures
        ({
            let authorized = exists|j: int|
                0 <= j < auths.len() && h.storage.instance.admin->0 == #[trigger] auths[j];
            let outcome = execution::admin_outcome(h, auths, refusal, changed, calls);
            let started = execution::admin_started(h, auths, step);
            &&& !authorized ==> outcome.0 == h && outcome.1 == Err::<Seq<HostCall>, Failure>(
                Failure::Unauthorized,
            )
            &&& !authorized ==> started == StepView::Fail(Failure::Unauthorized)
            &&& authorized ==> started == step
            &&& authorized && refusal is None ==> outcome.0 == changed && outcome.1 == Ok::<
                Seq<HostCall>,
                Failure,
            >(calls)
            &&& authorized && refusal is Some ==> outcome.0 == h && outcome.1 == Err::<
                Seq<HostCall>,
                Failure,
            >(refusal->0)
        }),
{
    let admin = h.storage.instance.admin->0;
    if exists|j: int| 0 <= j < auths.len() && admin == #[trigger] auths[j] {
        let j = choose|j: int| 0 <= j < auths.len() && admin == #[trigger] auths[j];
        assert(auths.contains(auths[j]));
    }
}

/// The parts that the contracts of the admin's entrypoints are made of: an
/// argument is refused exactly on its condition, other instance entries are the
/// only thing that changes with them, and a change of a knob or of the pause is
/// published and renews the life of the storage.
pub proof fn law_changes_and_their_notices(
    h: HandlerView,
    instance: Instance,
    condition: bool,
    f: Failure,
    field: Symbol,
    value: i128,
    paused: bool,
)
    ensures
        condition ==> execution::refusal_if(condition, f) == Some(f),
        !condition ==> execution::refusal_if(condition, f) is None,
        h.with_instance(instance) == (HandlerView {
            address: h.address,
            storage: StorageView { instance, version: h.storage.version, seen: h.storage.seen },
        }),
        execution::config_notice(field, value as int) == seq![
            HostCall::Publish(Event::ConfigUpdated(ConfigUpdated { field, value })),
            HostCall::ExtendInstanceTtl,
        ],
        execution::pause_notice(paused) == seq![
            HostCall::Publish(Event::PauseToggled(PauseToggled { paused })),
            HostCall::ExtendInstanceTtl,
        ],
        h.instance() == h.storage.instance,
{
}

/// A proposal by the admin only notes who is proposed, and says so. It is accepted
/// only if there is one and the proposed one says so; then they are the admin, the
/// proposal is gone, and nothing else is different.
pub proof fn law_office_in_two_steps(h: HandlerView, auths: Seq<Address>, new_admin: Address)
    ensures
        ({
            let i = h.storage.instance;
            let proposed = execution::admin_proposed(h, auths, new_admin);
            let accepted = execution::admin_accepted(h, auths);
            &&& auths.contains(i.admin->0) ==> proposed == (
                HandlerView {
                    address: h.address,
                    storage: StorageView {
                        instance: Instance { pending_admin: Some(new_admin), ..i },
                        version: h.storage.version,
                        seen: h.storage.seen,
                    },
                },
                Ok::<Seq<HostCall>, Failure>(
                    seq![
                        HostCall::Publish(
                            Event::AdminProposed { old_admin: i.admin->0, new_admin },
                        ),
                    ],
                ),
            )
            &&& !auths.contains(i.admin->0) ==> proposed == (
                h,
                Err::<Seq<HostCall>, Failure>(Failure::Unauthorized),
            )
            &&& i.pending_admin is None ==> accepted == (
                h,
                Err::<Seq<HostCall>, Failure>(Failure::Rejected(Rejection::NoPendingAdmin)),
            )
            &&& i.pending_admin is Some && !auths.contains(i.pending_admin->0) ==> accepted == (
                h,
                Err::<Seq<HostCall>, Failure>(Failure::Unauthorized),
            )
            &&& i.pending_admin is Some && auths.contains(i.pending_admin->0) ==> accepted == (
                HandlerView {
                    address: h.address,
                    storage: StorageView {
                        instance: Instance { admin: i.pending_admin, pending_admin: None, ..i },
                        version: h.storage.version,
                        seen: h.storage.seen,
                    },
                },
                Ok::<Seq<HostCall>, Failure>(
                    seq![
                        HostCall::Publish(
                            Event::AdminAccepted { new_admin: i.pending_admin->0 },
                        ),
                    ],
                ),
            )
        }),
{
}

} // verus!
