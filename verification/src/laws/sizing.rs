//! How a rebalance sizes its moves.
use crate::error::HandlerError;
use crate::execution::HandlerView;
use crate::externals::DelegateState;
use crate::policy;
use crate::policy::Verdict;
use crate::primitives;
use crate::storage::Instance;
use vstd::prelude::*;

verus! {

/// USDC moves only out of the band around the target, only in a pool that is
/// large enough, and only after the cooldown.
pub proof fn law_moves_need_drift(i: Instance, now: int, liquid: i128, total: i128, amount: i128)
    ensures
        ({
            let verdict = policy::verdict_of(i, now, liquid as int, total as int);
            let to_blend = verdict == Ok::<Verdict, HandlerError>(Verdict::ToBlend(amount));
            let from_blend = verdict == Ok::<Verdict, HandlerError>(Verdict::FromBlend(amount));
            let target = policy::target_liquid(i, total as int);
            let band = policy::band_width(i, total as int);
            &&& to_blend ==> liquid > target + band
            &&& from_blend ==> liquid < target - band
            &&& to_blend || from_blend ==> {
                &&& total >= i.min_total_usdc->0
                &&& !policy::cooling_down(i, now)
            }
        }),
{
}

/// A move brings the liquid USDC closer to the target and never past it, and a
/// move from Blend never takes more than the principal.
pub proof fn law_moves_never_overshoot(
    i: Instance,
    now: int,
    liquid: i128,
    total: i128,
    amount: i128,
)
    ensures
        ({
            let verdict = policy::verdict_of(i, now, liquid as int, total as int);
            let target = policy::target_liquid(i, total as int);
            &&& verdict == Ok::<Verdict, HandlerError>(Verdict::ToBlend(amount)) ==> target
                <= liquid - amount < liquid
            &&& verdict == Ok::<Verdict, HandlerError>(Verdict::FromBlend(amount)) ==> {
                &&& liquid < liquid + amount <= target
                &&& amount <= i.principal_supplied_or_default()
            }
        }),
{
    let verdict = policy::verdict_of(i, now, liquid as int, total as int);
    if verdict == Ok::<Verdict, HandlerError>(Verdict::ToBlend(amount)) {
        policy::lemma_to_blend_is_bounded(i, now, liquid, total, amount);
    }
    if verdict == Ok::<Verdict, HandlerError>(Verdict::FromBlend(amount)) {
        policy::lemma_from_blend_is_bounded(i, now, liquid, total, amount);
    }
}

/// A move never exceeds the cap, if there is one, and never happens where the
/// natural amount, the whole excess or shortage, is below the dust floor.
pub proof fn law_moves_respect_the_limits(
    i: Instance,
    now: int,
    liquid: i128,
    total: i128,
    amount: i128,
)
    ensures
        ({
            let verdict = policy::verdict_of(i, now, liquid as int, total as int);
            let to_blend = verdict == Ok::<Verdict, HandlerError>(Verdict::ToBlend(amount));
            let from_blend = verdict == Ok::<Verdict, HandlerError>(Verdict::FromBlend(amount));
            let cap = i.max_rebalance_amount_or_default();
            let floor = i.min_rebalance_amount_or_default();
            &&& (to_blend || from_blend) && cap > 0 ==> amount <= cap
            &&& to_blend ==> policy::excess(i, liquid as int, total as int) >= floor
            &&& from_blend ==> policy::target_liquid(i, total as int) - liquid >= floor
        }),
{
    let verdict = policy::verdict_of(i, now, liquid as int, total as int);
    if verdict == Ok::<Verdict, HandlerError>(Verdict::ToBlend(amount)) {
        policy::lemma_to_blend_is_bounded(i, now, liquid, total, amount);
    }
    if verdict == Ok::<Verdict, HandlerError>(Verdict::FromBlend(amount)) {
        policy::lemma_from_blend_is_bounded(i, now, liquid, total, amount);
    }
}

/// A move that no cap shortens, and that the principal covers, restores the
/// target exactly.
pub proof fn law_unlimited_moves_restore_the_target(
    i: Instance,
    now: int,
    liquid: i128,
    total: i128,
    amount: i128,
)
    ensures
        ({
            let verdict = policy::verdict_of(i, now, liquid as int, total as int);
            let target = policy::target_liquid(i, total as int);
            let cap = i.max_rebalance_amount_or_default();
            &&& verdict == Ok::<Verdict, HandlerError>(Verdict::ToBlend(amount)) && (cap <= 0
                || liquid - target <= cap) ==> liquid - amount == target
            &&& verdict == Ok::<Verdict, HandlerError>(Verdict::FromBlend(amount)) && (cap <= 0
                || target - liquid <= cap) && i.principal_supplied_or_default() >= target - liquid
                ==> liquid + amount == target
        }),
{
    law_moves_never_overshoot(i, now, liquid, total, amount);
}

/// A pool on target is left alone, at any time and with any principal: a move
/// that restored the target is not followed by another one.
pub proof fn law_target_is_stable(i: Instance, now: int, total: int, amount: i128)
    ensures
        ({
            let verdict = policy::verdict_of(i, now, policy::target_liquid(i, total), total);
            &&& verdict != Ok::<Verdict, HandlerError>(Verdict::ToBlend(amount))
            &&& verdict != Ok::<Verdict, HandlerError>(Verdict::FromBlend(amount))
        }),
{
    if total > 0 {
        policy::lemma_share_not_negative(total, i.rebalance_band_bps->0 as int);
    }
}

/// For every pool below a ten-thousandth of the number range the sizes can be
/// computed, and the target lies within the pool.
pub proof fn law_ordinary_pools_are_computable(i: Instance, total: i128)
    requires
        i.config_in_range(),
        i.initialized(),
        total > 0,
        total * 10_000 <= i128::MAX,
    ensures
        policy::sizes_computable(i, total as int),
        0 <= policy::target_liquid(i, total as int) <= total,
        0 <= policy::band_width(i, total as int) <= total,
{
    let t = i.target_ratio_bps->0 as int;
    let b = i.rebalance_band_bps->0 as int;
    assert(0 <= total * t <= total * 10_000) by (nonlinear_arith)
        requires
            0 <= t <= 10_000,
            total > 0,
    ;
    assert(0 <= total * b <= total * 10_000) by (nonlinear_arith)
        requires
            0 <= b <= 10_000,
            total > 0,
    ;
}

/// A drift beyond the band is acted on: outside the cooldown, a pool that is
/// large enough gives its excess to Blend, or gets its shortage from Blend as far
/// as the principal reaches, unless the whole excess or shortage is below the
/// dust floor.
pub proof fn law_drift_is_acted_on(i: Instance, now: int, liquid: i128, total: i128)
    requires
        liquid >= 0,
        total > 0,
        total >= i.min_total_usdc->0,
        !policy::cooling_down(i, now),
        policy::sizes_computable(i, total as int),
    ensures
        ({
            let verdict = policy::verdict_of(i, now, liquid as int, total as int);
            let target = policy::target_liquid(i, total as int);
            let band = policy::band_width(i, total as int);
            let floor = i.min_rebalance_amount_or_default();
            let excess = policy::excess(i, liquid as int, total as int);
            let shortage = policy::covered_shortage(i, liquid as int, total as int);
            &&& liquid > target + band && excess >= floor ==> verdict == Ok::<
                Verdict,
                HandlerError,
            >(Verdict::ToBlend(policy::capped(i, excess) as i128))
            &&& liquid < target - band && target - liquid >= floor && shortage > 0 ==> verdict
                == Ok::<Verdict, HandlerError>(
                Verdict::FromBlend(policy::capped(i, shortage) as i128),
            )
        }),
{
    policy::lemma_share_not_negative(total as int, i.target_ratio_bps->0 as int);
}

/// What a rebalance decides, in plain numbers. `target` and `band` are the shares
/// of the total, rounded down, `last` is the time of the last move and the other
/// three are the limits and the principal; an entry that was never set is 0.
///
/// A pool below the floor on the total is left alone; one whose balances make no
/// sense is an error. Before `last` plus the cooldown, a sum that stops at the
/// largest number there is, nothing moves. Then a pool above the band gives what
/// it has beyond the target and a pool below the band gets what it lacks, as far
/// as the principal goes, either of them at most the cap; unless what it has too
/// much or too little of, before the principal and the cap bound it, is below the
/// dust floor.
pub proof fn law_decision_in_numbers(
    i: Instance,
    now: u64,
    liquid: i128,
    total: i128,
    target: int,
    band: int,
    last: u64,
    cap: i128,
    floor: i128,
    principal: i128,
)
    requires
        target * 10_000 <= total * i.target_ratio_bps->0 < target * 10_000 + 10_000,
        band * 10_000 <= total * i.rebalance_band_bps->0 < band * 10_000 + 10_000,
        i.last_rebalance_ts == Some(last) || i.last_rebalance_ts is None && last == 0,
        i.max_rebalance_amount == Some(cap) || i.max_rebalance_amount is None && cap == 0,
        i.min_rebalance_amount == Some(floor) || i.min_rebalance_amount is None && floor == 0,
        i.principal_supplied == Some(principal) || i.principal_supplied is None && principal == 0,
    ensures
        ({
            let verdict = policy::verdict_of(i, now as int, liquid as int, total as int);
            let large = total >= i.min_total_usdc->0;
            let sensible = liquid >= 0 && total > 0;
            let cooled = now >= last + i.rebalance_cooldown_secs->0 || now == u64::MAX;
            let computable = total * i.target_ratio_bps->0 <= i128::MAX && total
                * i.rebalance_band_bps->0 <= i128::MAX && target + band <= i128::MAX;
            let decides = large && sensible && cooled && computable;
            let skips = verdict == Ok::<Verdict, HandlerError>(Verdict::Skip);
            let holds = verdict == Ok::<Verdict, HandlerError>(Verdict::Hold);
            &&& !large ==> skips
            &&& large && !sensible ==> verdict == Err::<Verdict, HandlerError>(
                HandlerError::InvalidEnvelope,
            )
            &&& large && sensible && !cooled ==> skips
            &&& large && sensible && cooled && !computable ==> verdict == Err::<
                Verdict,
                HandlerError,
            >(HandlerError::OtherInvocationError)
            &&& decides && target - band <= liquid <= target + band ==> holds
            &&& decides && liquid > target + band && liquid - target < floor ==> skips
            &&& decides && liquid > target + band && liquid - target >= floor ==> {
                &&& verdict matches Ok(Verdict::ToBlend(amount))
                &&& cap <= 0 || liquid - target <= cap ==> amount == liquid - target
                &&& 0 < cap < liquid - target ==> amount == cap
            }
            &&& decides && liquid < target - band && target - liquid < floor ==> skips
            &&& decides && liquid < target - band && target - liquid >= floor && principal <= 0
                ==> holds
            &&& decides && liquid < target - band && target - liquid >= floor && principal > 0
                ==> {
                &&& verdict matches Ok(Verdict::FromBlend(amount))
                &&& amount <= target - liquid && amount <= principal && (cap > 0 ==> amount <= cap)
                &&& amount == target - liquid || amount == principal || cap > 0 && amount == cap
            }
        }),
{
    let wanted = total * i.target_ratio_bps->0;
    let width = total * i.rebalance_band_bps->0;
    assert(target == wanted / 10_000);
    assert(band == width / 10_000);
    if total > 0 {
        assert(0 <= wanted && 0 <= width) by (nonlinear_arith)
            requires
                wanted == total * i.target_ratio_bps->0,
                width == total * i.rebalance_band_bps->0,
                total > 0,
        ;
    }
}

/// A decision rests on eight entries of the storage and on nothing else: neither
/// on when the last harvest was, nor on a pause, nor on any address.
pub proof fn law_decision_rests_on_eight_entries(
    a: Instance,
    b: Instance,
    now: int,
    liquid: int,
    total: int,
)
    requires
        a.target_ratio_bps == b.target_ratio_bps,
        a.rebalance_band_bps == b.rebalance_band_bps,
        a.min_total_usdc == b.min_total_usdc,
        a.rebalance_cooldown_secs == b.rebalance_cooldown_secs,
        a.last_rebalance_ts == b.last_rebalance_ts,
        a.principal_supplied == b.principal_supplied,
        a.max_rebalance_amount == b.max_rebalance_amount,
        a.min_rebalance_amount == b.min_rebalance_amount,
    ensures
        policy::verdict_of(a, now, liquid, total) == policy::verdict_of(b, now, liquid, total),
{
}

/// Time only ever opens the way: once a pool gets a decision other than to skip,
/// it gets the same one at every later time, as long as nothing is written.
pub proof fn law_time_only_opens_the_way(
    i: Instance,
    now: u64,
    later: u64,
    liquid: int,
    total: int,
)
    requires
        now <= later,
        policy::verdict_of(i, now as int, liquid, total) != Ok::<Verdict, HandlerError>(
            Verdict::Skip,
        ),
    ensures
        policy::verdict_of(i, later as int, liquid, total) == policy::verdict_of(
            i,
            now as int,
            liquid,
            total,
        ),
{
}

/// More liquid USDC never makes a rebalance take more from Blend or give less to
/// it, the total being the same.
pub proof fn law_moves_follow_the_liquid_balance(
    i: Instance,
    now: u64,
    less: i128,
    more: i128,
    total: i128,
    given_less: i128,
    given_more: i128,
)
    requires
        less <= more,
    ensures
        ({
            let first = policy::verdict_of(i, now as int, less as int, total as int);
            let second = policy::verdict_of(i, now as int, more as int, total as int);
            &&& first == Ok::<Verdict, HandlerError>(Verdict::ToBlend(given_less)) ==> {
                &&& second matches Ok(Verdict::ToBlend(given))
                &&& given_less <= given <= given_less + (more - less)
            }
            &&& second == Ok::<Verdict, HandlerError>(Verdict::FromBlend(given_more)) && less >= 0
                ==> {
                &&& first matches Ok(Verdict::FromBlend(taken))
                &&& given_more <= taken <= given_more + (more - less)
            }
        }),
{
    if total > 0 {
        policy::lemma_share_not_negative(total as int, i.target_ratio_bps->0 as int);
        policy::lemma_share_not_negative(total as int, i.rebalance_band_bps->0 as int);
    }
}

/// Of the two tokens that a pool reports, the handler looks at its USDC: at token
/// A if the address of USDC comes before that of XLM, and at token B otherwise.
/// Accounts come before contracts; within a kind the larger half of the id decides
/// first.
pub proof fn law_usdc_side(h: HandlerView, state: DelegateState)
    ensures
        ({
            let usdc = h.storage.instance.usdc->0;
            let xlm = h.storage.instance.xlm->0;
            let first = usdc.kind is Account && xlm.kind is Contract || usdc.kind == xlm.kind && (
            usdc.id.hi < xlm.id.hi || usdc.id.hi == xlm.id.hi && usdc.id.lo < xlm.id.lo);
            &&& first ==> h.liquid_of(state) == state.liquid_a
            &&& first ==> h.delegated_of(state) == state.delegated_a
            &&& first ==> h.total_of(state) == state.total_a
            &&& !first ==> h.liquid_of(state) == state.liquid_b
            &&& !first ==> h.delegated_of(state) == state.delegated_b
            &&& !first ==> h.total_of(state) == state.total_b
        }),
{
    let usdc = h.storage.instance.usdc->0;
    let xlm = h.storage.instance.xlm->0;
    primitives::law_addresses_are_ordered(usdc, xlm);
}

/// Rounding toward zero: the quotient times the divisor comes as near to the
/// dividend as it can without passing it on the side away from zero.
pub proof fn law_quotients_are_rounded_toward_zero(x: int, d: int)
    requires
        d != 0,
    ensures
        ({
            let q = policy::truncated_quotient(x, d);
            &&& x >= 0 && d > 0 ==> q * d <= x < q * d + d
            &&& x >= 0 && d < 0 ==> q * d <= x < q * d - d
            &&& x < 0 && d > 0 ==> q * d - d < x <= q * d
            &&& x < 0 && d < 0 ==> q * d + d < x <= q * d
        }),
{
    let (m, n) = (policy::abs_int(x), policy::abs_int(d));
    let magnitude = m / n;
    assert(magnitude * n <= m < magnitude * n + n) by (nonlinear_arith)
        requires
            n > 0,
            magnitude == m / n,
    ;
    let q = policy::truncated_quotient(x, d);
    assert(magnitude * n == n * magnitude && (-magnitude) * n == -(magnitude * n) && magnitude * (
    -n) == -(magnitude * n) && (-magnitude) * (-n) == magnitude * n) by (nonlinear_arith);
}

/// Differences stop at the ends of the number range, the smaller of two numbers
/// is one of them, and a number fits if it lies between the ends.
pub proof fn law_bounded_arithmetic(a: i128, b: i128, x: int)
    ensures
        ({
            let d = policy::clamped_difference(a as int, b as int);
            &&& i128::MIN <= d <= i128::MAX
            &&& i128::MIN <= a - b <= i128::MAX ==> d == a - b
            &&& a - b > i128::MAX ==> d == i128::MAX
            &&& a - b < i128::MIN ==> d == i128::MIN
        }),
        ({
            let m = policy::min_int(a as int, b as int);
            m <= a && m <= b && (m == a || m == b)
        }),
        policy::is_i128(x) <==> i128::MIN <= x <= i128::MAX,
{
}

} // verus!
