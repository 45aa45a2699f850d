//! When and how much USDC moves.
use crate::error::HandlerError;
use crate::storage;
use crate::storage::{Instance, Storage};
use vstd::prelude::*;

verus! {

/// Basis-point denominator: `bps / BPS_DEN` is a ratio.
pub const BPS_DEN: i128 = 10_000;

/// Highest Blend pool `status` at which supply and withdraw are still expected
/// to succeed. Statuses 0-3 (Active / Admin-Active / Admin-OnIce / OnIce) allow
/// them; 4-6 (Admin-Frozen / Frozen / Setup) mean "do not touch".
pub const BLEND_HEALTHY_STATUS_MAX: u32 = 3;

/// How many ledgers the reference block of an envelope may lie back. An older
/// one would let a signer set that has been retired since pass once more.
pub const MAX_REFERENCE_BLOCK_AGE: u32 = 200;

/// What a rebalance does with the pool's USDC.
#[derive(Clone, Copy, Debug, PartialEq, Eq, Structural)]
pub enum Verdict {
    /// Nothing moves, and the transaction ends here.
    Skip,
    /// Nothing moves; the residue check still runs.
    Hold,
    /// Supply this much of the pool's liquid USDC to Blend.
    ToBlend(i128),
    /// Pull this much out of Blend into the pool.
    FromBlend(i128),
}

pub open spec fn is_i128(x: int) -> bool {
    i128::MIN <= x <= i128::MAX
}

pub open spec fn abs_int(x: int) -> int {
    if x < 0 {
        -x
    } else {
        x
    }
}

pub open spec fn min_int(a: int, b: int) -> int {
    if a <= b {
        a
    } else {
        b
    }
}

/// `x / d` rounded toward zero.
pub open spec fn truncated_quotient(x: int, d: int) -> int {
    let magnitude = abs_int(x) / abs_int(d);
    if (x < 0) == (d < 0) {
        magnitude
    } else {
        -magnitude
    }
}

/// `bps` basis points of `total`, rounded down.
pub open spec fn share(total: int, bps: int) -> int {
    total * bps / 10_000
}

/// A difference that stops at the ends of `i128`.
pub open spec fn clamped_difference(a: int, b: int) -> int {
    if a - b > i128::MAX {
        i128::MAX as int
    } else if a - b < i128::MIN {
        i128::MIN as int
    } else {
        a - b
    }
}

/// Liquid USDC that the pool should hold.
pub open spec fn target_liquid(i: Instance, total: int) -> int {
    share(total, i.target_ratio_bps->0 as int)
}

/// Width of the band around the target, on either side.
pub open spec fn band_width(i: Instance, total: int) -> int {
    share(total, i.rebalance_band_bps->0 as int)
}

/// The last move is too recent for another one at `now`.
pub open spec fn cooling_down(i: Instance, now: int) -> bool {
    now < min_int(
        i.last_rebalance_ts_or_default() + i.rebalance_cooldown_secs->0,
        u64::MAX as int,
    )
}

/// The numbers that the decision needs can be computed in `i128`.
pub open spec fn sizes_computable(i: Instance, total: int) -> bool {
    &&& is_i128(total * i.target_ratio_bps->0)
    &&& is_i128(total * i.rebalance_band_bps->0)
    &&& is_i128(target_liquid(i, total) + band_width(i, total))
}

/// `amount` under the cap on one move; a cap of 0 is no cap.
pub open spec fn capped(i: Instance, amount: int) -> int {
    let cap = i.max_rebalance_amount_or_default();
    if cap > 0 && amount > cap {
        cap as int
    } else {
        amount
    }
}

/// What the pool has too much of.
pub open spec fn excess(i: Instance, liquid: int, total: int) -> int {
    liquid - target_liquid(i, total)
}

/// What the pool lacks, as far as the tracked principal can cover it. The dust
/// floor does not look at this amount but at the whole shortage.
pub open spec fn covered_shortage(i: Instance, liquid: int, total: int) -> int {
    min_int(target_liquid(i, total) - liquid, i.principal_supplied_or_default() as int)
}

/// What a rebalance at time `now` does with a pool that holds `liquid` out of
/// `total` USDC, Blend being healthy.
pub open spec fn verdict_of(i: Instance, now: int, liquid: int, total: int) -> Result<
    Verdict,
    HandlerError,
> {
    let target = target_liquid(i, total);
    let band = band_width(i, total);
    let floor = i.min_rebalance_amount_or_default();
    if total < i.min_total_usdc->0 {
        Ok(Verdict::Skip)
    } else if liquid < 0 || total <= 0 {
        Err(HandlerError::InvalidEnvelope)
    } else if cooling_down(i, now) {
        Ok(Verdict::Skip)
    } else if !sizes_computable(i, total) {
        Err(HandlerError::OtherInvocationError)
    } else if liquid > target + band {
        if excess(i, liquid, total) < floor {
            Ok(Verdict::Skip)
        } else {
            Ok(Verdict::ToBlend(capped(i, excess(i, liquid, total)) as i128))
        }
    } else if liquid < target - band {
        if target - liquid < floor {
            Ok(Verdict::Skip)
        } else if capped(i, covered_shortage(i, liquid, total)) > 0 {
            Ok(Verdict::FromBlend(capped(i, covered_shortage(i, liquid, total)) as i128))
        } else {
            Ok(Verdict::Hold)
        }
    } else {
        Ok(Verdict::Hold)
    }
}

/// A share of a non-negative total is not negative.
pub proof fn lemma_share_not_negative(total: int, bps: int)
    requires
        total >= 0,
        bps >= 0,
    ensures
        share(total, bps) >= 0,
{
    assert(total * bps >= 0) by (nonlinear_arith)
        requires
            total >= 0,
            bps >= 0,
    ;
}

/// A move to Blend takes a positive part of what the pool has too much of.
pub proof fn lemma_to_blend_is_bounded(
    i: Instance,
    now: int,
    liquid: i128,
    total: i128,
    amount: i128,
)
    requires
        verdict_of(i, now, liquid as int, total as int) == Ok::<Verdict, HandlerError>(
            Verdict::ToBlend(amount),
        ),
    ensures
        total > 0,
        target_liquid(i, total as int) >= 0,
        band_width(i, total as int) >= 0,
        amount == capped(i, excess(i, liquid as int, total as int)),
        0 < amount <= excess(i, liquid as int, total as int),
{
    lemma_share_not_negative(total as int, i.target_ratio_bps->0 as int);
    lemma_share_not_negative(total as int, i.rebalance_band_bps->0 as int);
}

/// A move from Blend brings a positive part of what the pool lacks, and no more
/// than the principal.
pub proof fn lemma_from_blend_is_bounded(
    i: Instance,
    now: int,
    liquid: i128,
    total: i128,
    amount: i128,
)
    requires
        verdict_of(i, now, liquid as int, total as int) == Ok::<Verdict, HandlerError>(
            Verdict::FromBlend(amount),
        ),
    ensures
        total > 0,
        liquid >= 0,
        target_liquid(i, total as int) + band_width(i, total as int) <= i128::MAX,
        band_width(i, total as int) >= 0,
        amount == capped(i, covered_shortage(i, liquid as int, total as int)),
        0 < amount <= target_liquid(i, total as int) - liquid,
        amount <= i.principal_supplied_or_default(),
{
    lemma_share_not_negative(total as int, i.target_ratio_bps->0 as int);
    lemma_share_not_negative(total as int, i.rebalance_band_bps->0 as int);
}

/// Checked `a * b / c`, rounded toward zero.
pub fn mul_div(a: i128, b: i128, c: i128) -> (r: Result<i128, HandlerError>)
    ensures
        r == (if is_i128(a * b) && c != 0 && is_i128(truncated_quotient(a * b, c as int)) {
            Ok(truncated_quotient(a * b, c as int) as i128)
        } else {
            Err(HandlerError::OtherInvocationError)
        }),
{
    match a.checked_mul(b) {
        Some(product) => match product.checked_div(c) {
            Some(quotient) => Ok(quotient),
            None => Err(HandlerError::OtherInvocationError),
        },
        None => Err(HandlerError::OtherInvocationError),
    }
}

/// `a - b`, stopping at the ends of the range.
pub fn saturating_sub(a: i128, b: i128) -> (r: i128)
    ensures
        r == clamped_difference(a as int, b as int),
{
    match a.checked_sub(b) {
        Some(difference) => difference,
        None => if b > 0 {
            i128::MIN
        } else {
            i128::MAX
        },
    }
}

/// The smaller of two amounts.
pub fn min_amount(a: i128, b: i128) -> (r: i128)
    ensures
        r == min_int(a as int, b as int),
{
    if a <= b {
        a
    } else {
        b
    }
}

/// `amount` under the cap on one move.
fn apply_cap(store: &Storage, amount: i128) -> (r: i128)
    ensures
        r == capped(store@.instance, amount as int),
{
    let max_cap: i128 = storage::get_max_rebalance_amount(store);
    if max_cap > 0 && amount > max_cap {
        max_cap
    } else {
        amount
    }
}

/// Decide what a rebalance at time `now` does with a pool that holds
/// `liquid_usdc` out of `total_usdc`.
///
/// Below `min_total_usdc`, inside the cooldown and under the dust floor nothing
/// happens, and the cooldown is not consumed. Otherwise a pool above the band
/// gives its excess over the target to Blend, and a pool below the band gets
/// its shortage from Blend, at most the tracked principal; either is clamped
/// to the cap on one move. The dust floor looks at the natural amount, that is
/// the excess or the shortage itself, before the principal and the cap bound it.
pub fn decide(store: &Storage, now: u64, liquid_usdc: i128, total_usdc: i128) -> (r: Result<
    Verdict,
    HandlerError,
>)
    requires
        store@.instance.initialized(),
    ensures
        r == verdict_of(store@.instance, now as int, liquid_usdc as int, total_usdc as int),
{
    if total_usdc < storage::get_min_total_usdc(store) {
        return Ok(Verdict::Skip);
    }
    if liquid_usdc < 0 || total_usdc <= 0 {
        return Err(HandlerError::InvalidEnvelope);
    }
    let last_ts: u64 = storage::get_last_rebalance_ts(store);
    let cooldown: u64 = storage::get_rebalance_cooldown_secs(store);
    if now < last_ts.saturating_add(cooldown) {
        return Ok(Verdict::Skip);
    }
    let target_bps: i128 = storage::get_target_ratio_bps(store) as i128;
    let band_bps: i128 = storage::get_rebalance_band_bps(store) as i128;
    let target: i128 = match mul_div(total_usdc, target_bps, BPS_DEN) {
        Ok(value) => value,
        Err(e) => return Err(e),
    };
    let band: i128 = match mul_div(total_usdc, band_bps, BPS_DEN) {
        Ok(value) => value,
        Err(e) => return Err(e),
    };
    let upper: i128 = match target.checked_add(band) {
        Some(value) => value,
        None => return Err(HandlerError::OtherInvocationError),
    };
    let lower: i128 = saturating_sub(target, band);
    let min_floor: i128 = storage::get_min_rebalance_amount(store);
    if liquid_usdc > upper {
        let natural: i128 = match liquid_usdc.checked_sub(target) {
            Some(value) => value,
            None => return Err(HandlerError::OtherInvocationError),
        };
        if natural < min_floor {
            return Ok(Verdict::Skip);
        }
        Ok(Verdict::ToBlend(apply_cap(store, natural)))
    } else if liquid_usdc < lower {
        let natural: i128 = match target.checked_sub(liquid_usdc) {
            Some(value) => value,
            None => return Err(HandlerError::OtherInvocationError),
        };
        if natural < min_floor {
            return Ok(Verdict::Skip);
        }
        let bounded: i128 = min_amount(natural, storage::get_principal_supplied(store));
        let amount: i128 = apply_cap(store, bounded);
        if amount > 0 {
            Ok(Verdict::FromBlend(amount))
        } else {
            Ok(Verdict::Hold)
        }
    } else {
        Ok(Verdict::Hold)
    }
}

} // verus!
