//! The ways that USDC takes through the handler.
use crate::execution;
use crate::execution::{HandlerView, Pending, Stage, Writes};
use crate::externals::{HostCall, Reply, BLEND_REQUEST_SUPPLY, BLEND_REQUEST_WITHDRAW};
use crate::laws;
use crate::policy;
use crate::primitives::EventId;
use vstd::prelude::*;

verus! {

/// The ways that USDC takes through the handler.
pub enum Way {
    /// Out of the blended pool's liquid balance.
    FromPool,
    /// Back into the blended pool's liquid balance.
    Deposit,
    /// To the blended pool's liquidity providers.
    Donation,
    /// Into the Blend position.
    ToBlend,
    /// Out of the Blend position, by an amount that the handler names.
    FromBlend,
}

/// How much USDC `call` sends on `way`.
pub open spec fn amount_on(way: Way, call: HostCall) -> int {
    match (way, call) {
        (Way::FromPool, HostCall::WithdrawToDelegate { amount, .. }) => amount as int,
        (Way::Deposit, HostCall::DepositFromDelegate { amount, .. }) => amount as int,
        (Way::Donation, HostCall::Donate { amount, .. }) => amount as int,
        (Way::ToBlend, HostCall::Submit { request, .. }) => if request.request_type
            == BLEND_REQUEST_SUPPLY {
            request.amount as int
        } else {
            0
        },
        (Way::FromBlend, HostCall::Submit { request, .. }) => if request.request_type
            == BLEND_REQUEST_WITHDRAW && request.amount != i128::MAX {
            request.amount as int
        } else {
            0
        },
        _ => 0,
    }
}

/// How much USDC `calls` send on `way`, all in all.
pub open spec fn total_on(way: Way, calls: Seq<HostCall>) -> int
    decreases calls.len(),
{
    if calls.len() == 0 {
        0
    } else {
        total_on(way, calls.drop_last()) + amount_on(way, calls.last())
    }
}

/// Totals add up.
pub proof fn lemma_total_of_concat(way: Way, a: Seq<HostCall>, b: Seq<HostCall>)
    ensures
        total_on(way, a + b) == total_on(way, a) + total_on(way, b),
    decreases b.len(),
{
    if b.len() == 0 {
        assert(a + b =~= a);
    } else {
        lemma_total_of_concat(way, a, b.drop_last());
        assert((a + b).drop_last() =~= a + b.drop_last());
    }
}

/// What `calls` move: nothing on any way but the given amounts.
#[verifier::opaque]
pub open spec fn flows(
    calls: Seq<HostCall>,
    from_pool: int,
    deposit: int,
    donation: int,
    to_blend: int,
    from_blend: int,
) -> bool {
    &&& total_on(Way::FromPool, calls) == from_pool
    &&& total_on(Way::Deposit, calls) == deposit
    &&& total_on(Way::Donation, calls) == donation
    &&& total_on(Way::ToBlend, calls) == to_blend
    &&& total_on(Way::FromBlend, calls) == from_blend
}

/// The last reply of a transaction that ends well.
pub proof fn lemma_residue_is_gone(h: HandlerView, event_id: Option<EventId>, writes: Writes)
    ensures
        laws::next(h, Pending { event_id, stage: Stage::Residue { writes } }, Reply::Amount(0))
            == execution::completed(h, event_id, writes, seq![HostCall::ExtendInstanceTtl]),
{
    reveal(laws::next);
}

/// Flows add up.
pub proof fn lemma_flows_concat(
    a: Seq<HostCall>,
    b: Seq<HostCall>,
    x: (int, int, int, int, int),
    y: (int, int, int, int, int),
)
    requires
        flows(a, x.0, x.1, x.2, x.3, x.4),
        flows(b, y.0, y.1, y.2, y.3, y.4),
    ensures
        flows(a + b, x.0 + y.0, x.1 + y.1, x.2 + y.2, x.3 + y.3, x.4 + y.4),
{
    reveal(flows);
    lemma_total_of_concat(Way::FromPool, a, b);
    lemma_total_of_concat(Way::Deposit, a, b);
    lemma_total_of_concat(Way::Donation, a, b);
    lemma_total_of_concat(Way::ToBlend, a, b);
    lemma_total_of_concat(Way::FromBlend, a, b);
}

proof fn lemma_total_of_quiet(way: Way, calls: Seq<HostCall>)
    requires
        forall|j: int|
            0 <= j < calls.len() ==> (moves_nothing(#[trigger] calls[j]) || calls[j] is TrySubmit),
    ensures
        total_on(way, calls) == 0,
    decreases calls.len(),
{
    if calls.len() > 0 {
        lemma_total_of_quiet(way, calls.drop_last());
    }
}

/// Calls that move nothing, or whose amount Blend decides, have no flows.
pub proof fn lemma_quiet_flows(calls: Seq<HostCall>)
    requires
        forall|j: int|
            0 <= j < calls.len() ==> (moves_nothing(#[trigger] calls[j]) || calls[j] is TrySubmit),
    ensures
        flows(calls, 0, 0, 0, 0, 0),
{
    reveal(flows);
    lemma_total_of_quiet(Way::FromPool, calls);
    lemma_total_of_quiet(Way::Deposit, calls);
    lemma_total_of_quiet(Way::Donation, calls);
    lemma_total_of_quiet(Way::ToBlend, calls);
    lemma_total_of_quiet(Way::FromBlend, calls);
}

/// What the handler's moves send on which way.
pub proof fn lemma_mover_flows(h: HandlerView, amount: int)
    requires
        policy::is_i128(amount),
    ensures
        flows(seq![h.take_call(amount)], amount, 0, 0, 0, 0),
        flows(h.deposit_calls(amount), 0, amount, 0, 0, 0),
        flows(h.donate_calls(amount), 0, 0, amount, 0, 0),
        flows(h.supply_calls(amount), 0, 0, 0, amount, 0),
        amount != i128::MAX ==> flows(seq![h.withdraw_call(amount)], 0, 0, 0, 0, amount),
        amount == i128::MAX ==> flows(seq![h.withdraw_call(amount)], 0, 0, 0, 0, 0),
{
    reveal(flows);
    reveal_with_fuel(total_on, 3);
    assert(seq![h.take_call(amount)].drop_last() =~= seq![]);
    assert(seq![h.withdraw_call(amount)].drop_last() =~= seq![]);
    assert(h.deposit_calls(amount).drop_last().drop_last() =~= seq![]);
    assert(h.donate_calls(amount).drop_last().drop_last() =~= seq![]);
    assert(h.supply_calls(amount).drop_last().drop_last() =~= seq![]);
}

/// `call` leaves the handler's USDC alone.
pub open spec fn moves_nothing(call: HostCall) -> bool {
    &&& call !is WithdrawToDelegate
    &&& call !is DepositFromDelegate
    &&& call !is Donate
    &&& call !is Submit
    &&& call !is TrySubmit
}

pub open spec fn all_move_nothing(calls: Seq<HostCall>) -> bool {
    forall|j: int| 0 <= j < calls.len() ==> moves_nothing(#[trigger] calls[j])
}

/// Nothing is published, except that an envelope was handled.
pub open spec fn is_silent(calls: Seq<HostCall>) -> bool {
    forall|j: int|
        0 <= j < calls.len() ==> ((#[trigger] calls[j]) matches HostCall::Publish(event)
            ==> event is Verified)
}

/// What is kept of a transaction that had nothing to do: the instance entries
/// are the same, no USDC moved, and no event tells of anything.
pub open spec fn was_no_op(h: HandlerView, e: laws::Execution) -> bool {
    &&& e.handler.instance() == h.instance()
    &&& all_move_nothing(e.calls)
    &&& is_silent(e.calls)
}

} // verus!
