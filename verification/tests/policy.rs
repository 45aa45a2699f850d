//! The arithmetic behind a rebalance.
use phoenix_blend_pool::error::HandlerError;
use phoenix_blend_pool::policy::{decide, min_amount, mul_div, saturating_sub, Verdict};
use phoenix_blend_pool::primitives::EventId;
use phoenix_blend_pool::storage;
use phoenix_blend_pool::storage::Storage;

fn store(target: u32, band: u32, min_total: i128, cooldown: u64) -> Storage {
    let mut s = Storage::empty();
    storage::set_target_ratio_bps(&mut s, target);
    storage::set_rebalance_band_bps(&mut s, band);
    storage::set_min_total_usdc(&mut s, min_total);
    storage::set_rebalance_cooldown_secs(&mut s, cooldown);
    s
}

#[test]
fn mul_div_rounds_toward_zero() {
    assert_eq!(mul_div(7, 3, 2), Ok(10));
    assert_eq!(mul_div(-7, 3, 2), Ok(-10));
    assert_eq!(mul_div(7, 3, -2), Ok(-10));
    assert_eq!(mul_div(1_999, 5_000, 10_000), Ok(999));
}

#[test]
fn mul_div_is_checked() {
    let err = Err(HandlerError::OtherInvocationError);
    assert_eq!(mul_div(i128::MAX, 2, 4), err);
    assert_eq!(mul_div(1, 1, 0), err);
    assert_eq!(mul_div(i128::MIN, 1, -1), err);
    assert_eq!(mul_div(i128::MAX, 1, 1), Ok(i128::MAX));
}

#[test]
fn differences_saturate() {
    assert_eq!(saturating_sub(5, 7), -2);
    assert_eq!(saturating_sub(i128::MIN, 1), i128::MIN);
    assert_eq!(saturating_sub(i128::MAX, -1), i128::MAX);
    assert_eq!(min_amount(3, -4), -4);
    assert_eq!(min_amount(3, 4), 3);
}

#[test]
fn moves_restore_the_target() {
    let s = store(5_000, 500, 0, 0);
    assert_eq!(decide(&s, 0, 700, 1_000), Ok(Verdict::ToBlend(200)));
    assert_eq!(decide(&s, 0, 500, 1_000), Ok(Verdict::Hold));
    // Both ends belong to the band.
    assert_eq!(decide(&s, 0, 550, 1_000), Ok(Verdict::Hold));
    assert_eq!(decide(&s, 0, 450, 1_000), Ok(Verdict::Hold));
    assert_eq!(decide(&s, 0, 551, 1_000), Ok(Verdict::ToBlend(51)));
}

#[test]
fn moves_from_blend_need_principal() {
    let mut s = store(5_000, 500, 0, 0);
    assert_eq!(decide(&s, 0, 300, 1_000), Ok(Verdict::Hold));
    storage::set_principal_supplied(&mut s, 150);
    assert_eq!(decide(&s, 0, 300, 1_000), Ok(Verdict::FromBlend(150)));
    storage::set_principal_supplied(&mut s, 700);
    assert_eq!(decide(&s, 0, 300, 1_000), Ok(Verdict::FromBlend(200)));
    storage::set_max_rebalance_amount(&mut s, 40);
    assert_eq!(decide(&s, 0, 300, 1_000), Ok(Verdict::FromBlend(40)));
    storage::set_min_rebalance_amount(&mut s, 201);
    assert_eq!(decide(&s, 0, 300, 1_000), Ok(Verdict::Skip));
}

#[test]
fn dust_floor_looks_at_the_natural_amount() {
    let mut s = store(5_000, 500, 100, 60);
    storage::set_min_rebalance_amount(&mut s, 150);
    // The pool lacks 200, which is above the floor; the principal is below it.
    storage::set_principal_supplied(&mut s, 100);
    assert_eq!(decide(&s, 1_000_000, 300, 1_000), Ok(Verdict::FromBlend(100)));
    // So is the cap.
    storage::set_max_rebalance_amount(&mut s, 40);
    assert_eq!(decide(&s, 1_000_000, 300, 1_000), Ok(Verdict::FromBlend(40)));
    assert_eq!(decide(&s, 1_000_000, 700, 1_000), Ok(Verdict::ToBlend(40)));
    // Without any principal there is nothing to move.
    storage::set_principal_supplied(&mut s, 0);
    assert_eq!(decide(&s, 1_000_000, 300, 1_000), Ok(Verdict::Hold));
    storage::set_principal_supplied(&mut s, 100);
    storage::set_min_rebalance_amount(&mut s, 200);
    assert_eq!(decide(&s, 1_000_000, 300, 1_000), Ok(Verdict::FromBlend(40)));
    storage::set_min_rebalance_amount(&mut s, 201);
    assert_eq!(decide(&s, 1_000_000, 300, 1_000), Ok(Verdict::Skip));
}

#[test]
fn gates_come_in_order() {
    let mut s = store(5_000, 500, 100, 60);
    storage::set_last_rebalance_ts(&mut s, 1_000);
    // Too small a pool is skipped before its balances are judged.
    assert_eq!(decide(&s, 5_000, -1, 99), Ok(Verdict::Skip));
    assert_eq!(decide(&s, 1_000, -1, 100), Err(HandlerError::InvalidEnvelope));
    assert_eq!(decide(&s, 1_059, 100, 100), Ok(Verdict::Skip));
    assert_eq!(decide(&s, 1_060, 100, 100), Ok(Verdict::ToBlend(50)));
}

#[test]
fn cooldown_saturates_at_the_end_of_time() {
    let mut s = store(5_000, 500, 0, u64::MAX);
    storage::set_last_rebalance_ts(&mut s, 1);
    assert_eq!(decide(&s, u64::MAX - 1, 100, 100), Ok(Verdict::Skip));
    assert_eq!(decide(&s, u64::MAX, 100, 100), Ok(Verdict::ToBlend(50)));
}

#[test]
fn pools_out_of_range_are_errors() {
    let s = store(5_000, 500, 0, 0);
    let err = Err(HandlerError::OtherInvocationError);
    assert_eq!(decide(&s, 0, 0, i128::MAX), err);
    assert_eq!(decide(&s, 0, 0, 0), Err(HandlerError::InvalidEnvelope));
}

#[test]
fn entries_have_defaults_until_they_are_set() {
    let mut s = Storage::empty();
    assert_eq!(storage::get_principal_supplied(&s), 0);
    assert_eq!(storage::get_last_rebalance_ts(&s), 0);
    assert_eq!(storage::get_last_harvest_ts(&s), 0);
    assert_eq!(storage::get_max_rebalance_amount(&s), 0);
    assert_eq!(storage::get_min_rebalance_amount(&s), 0);
    assert!(!storage::get_paused(&s));
    storage::set_last_harvest_ts(&mut s, 7);
    assert_eq!(storage::get_last_harvest_ts(&s), 7);
    storage::set_version(&mut s, "1.2.3".to_string());
    assert_eq!(storage::get_version(&s), "1.2.3");
}

#[test]
fn events_are_remembered() {
    let mut s = Storage::empty();
    let id = EventId { hi: 1, lo: 2 };
    assert!(!storage::is_event_seen(&s, id));
    storage::mark_event_seen(&mut s, id);
    assert!(storage::is_event_seen(&s, id));
    assert!(!storage::is_event_seen(&s, EventId { hi: 2, lo: 1 }));
}
