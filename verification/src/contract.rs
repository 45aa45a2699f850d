//! The handler and its entrypoints.
//!
//! An entrypoint that moves money answers with a [`Step`]; the others end at
//! once, with the calls that the host still has to perform. `auths` holds the
//! addresses that authorized the invocation.
use crate::envelope::{Ed25519SignatureData, XlmEnvelope};
use crate::error::{Failure, HandlerError, LocalError, Rejection};
use crate::events::{AddressConfigUpdated, ConfigUpdated, Event, PauseToggled, Symbol};
use crate::execution;
use crate::execution::{HandlerView, RebalanceAction, Stage, Step};
use crate::executor::{refuse, reject, wait};
use crate::externals::{HostCall, Ledger, BLEND_REQUEST_WITHDRAW};
use crate::policy::MAX_REFERENCE_BLOCK_AGE;
use crate::primitives;
use crate::primitives::{Address, Bytes32, EventId};
use crate::storage;
use crate::storage::{Instance, Storage, StorageView};
use vstd::prelude::*;

verus! {

/// Version of this handler.
pub const VERSION: &'static str = "0.1.0";

/// The automation handler of one blended pool.
#[derive(Debug)]
pub struct AutomationHandler {
    /// The handler's own address.
    pub address: Address,
    pub storage: Storage,
}

impl View for AutomationHandler {
    type V = HandlerView;

    open spec fn view(&self) -> HandlerView {
        HandlerView { address: self.address, storage: self.storage@ }
    }
}

/// The handler's whole configuration and state in one read.
#[derive(Debug, PartialEq, Eq)]
pub struct HandlerState {
    pub admin: Address,
    pub pending_admin: Option<Address>,
    pub verification_contract: Address,
    pub blended_pool: Address,
    pub blend_pool: Address,
    pub usdc: Address,
    pub xlm: Address,
    pub blnd_treasury: Address,
    pub usdc_reserve_token_id: u32,
    pub target_ratio_bps: u32,
    pub rebalance_band_bps: u32,
    pub min_total_usdc: i128,
    pub max_rebalance_amount: i128,
    pub min_rebalance_amount: i128,
    pub rebalance_cooldown_secs: u64,
    pub principal_supplied: i128,
    pub last_rebalance_ts: u64,
    pub last_harvest_ts: u64,
    pub paused: bool,
    pub version: String,
}

/// Publish `event` and renew the life of the instance storage.
fn announce(event: Event) -> (r: Vec<HostCall>)
    ensures
        r@ == seq![HostCall::Publish(event), HostCall::ExtendInstanceTtl],
{
    let mut calls: Vec<HostCall> = Vec::new();
    calls.push(HostCall::Publish(event));
    calls.push(HostCall::ExtendInstanceTtl);
    calls
}

/// Why a handler cannot be constructed with these knobs, if it cannot.
pub open spec fn constructor_refusal(
    usdc_reserve_token_id: u32,
    target_ratio_bps: u32,
    rebalance_band_bps: u32,
    min_total_usdc: i128,
) -> Option<Failure> {
    if !(0 < target_ratio_bps < 10_000) {
        Some(Failure::Rejected(Rejection::TargetRatioOutOfRange))
    } else if rebalance_band_bps >= 10_000 {
        Some(Failure::Rejected(Rejection::RebalanceBandOutOfRange))
    } else if min_total_usdc < 0 {
        Some(Failure::Rejected(Rejection::NegativeMinTotalUsdc))
    } else if usdc_reserve_token_id % 2 == 0 {
        Some(Failure::Local(LocalError::InvalidReserveTokenId))
    } else {
        None
    }
}

impl AutomationHandler {
    /// A new handler at `address`, and the calls that its construction asks
    /// for. The limits on one move start at 0, which is no limit.
    pub fn __constructor(
        address: Address,
        admin: Address,
        verification_contract: Address,
        blended_pool: Address,
        blend_pool: Address,
        usdc: Address,
        xlm: Address,
        blnd_treasury: Address,
        usdc_reserve_token_id: u32,
        target_ratio_bps: u32,
        rebalance_band_bps: u32,
        min_total_usdc: i128,
        rebalance_cooldown_secs: u64,
    ) -> (r: Result<(AutomationHandler, Vec<HostCall>), Failure>)
        ensures
            match (
                r,
                constructor_refusal(
                    usdc_reserve_token_id,
                    target_ratio_bps,
                    rebalance_band_bps,
                    min_total_usdc,
                ),
            ) {
                (Err(f), Some(refusal)) => f == refusal,
                (Ok((handler, calls)), None) => {
                    &&& handler@.constructed()
                    &&& handler@.instance().config_in_range()
                    &&& calls@ == seq![HostCall::ExtendInstanceTtl]
                    &&& handler@ == (HandlerView {
                        address,
                        storage: StorageView {
                            instance: Instance {
                                admin: Some(admin),
                                pending_admin: None,
                                verification_contract: Some(verification_contract),
                                blended_pool: Some(blended_pool),
                                blend_pool: Some(blend_pool),
                                usdc: Some(usdc),
                                xlm: Some(xlm),
                                blnd_treasury: Some(blnd_treasury),
                                usdc_reserve_token_id: Some(usdc_reserve_token_id),
                                target_ratio_bps: Some(target_ratio_bps),
                                rebalance_band_bps: Some(rebalance_band_bps),
                                min_total_usdc: Some(min_total_usdc),
                                rebalance_cooldown_secs: Some(rebalance_cooldown_secs),
                                last_rebalance_ts: Some(0),
                                last_harvest_ts: None,
                                principal_supplied: Some(0),
                                max_rebalance_amount: None,
                                min_rebalance_amount: None,
                                paused: None,
                            },
                            version: Some(VERSION@),
                            seen: Set::<EventId>::empty(),
                        },
                    })
                },
                _ => false,
            },
    {
        if !(target_ratio_bps > 0 && target_ratio_bps < 10_000) {
            return Err(Failure::Rejected(Rejection::TargetRatioOutOfRange));
        }
        if rebalance_band_bps >= 10_000 {
            return Err(Failure::Rejected(Rejection::RebalanceBandOutOfRange));
        }
        if min_total_usdc < 0 {
            return Err(Failure::Rejected(Rejection::NegativeMinTotalUsdc));
        }
        if usdc_reserve_token_id % 2 == 0 {
            return Err(Failure::Local(LocalError::InvalidReserveTokenId));
        }
        let mut store = Storage::empty();
        storage::set_admin(&mut store, admin);
        storage::set_verification_contract(&mut store, verification_contract);
        storage::set_blended_pool(&mut store, blended_pool);
        storage::set_blend_pool(&mut store, blend_pool);
        storage::set_usdc(&mut store, usdc);
        storage::set_xlm(&mut store, xlm);
        storage::set_blnd_treasury(&mut store, blnd_treasury);
        storage::set_usdc_reserve_token_id(&mut store, usdc_reserve_token_id);
        storage::set_target_ratio_bps(&mut store, target_ratio_bps);
        storage::set_rebalance_band_bps(&mut store, rebalance_band_bps);
        storage::set_min_total_usdc(&mut store, min_total_usdc);
        storage::set_rebalance_cooldown_secs(&mut store, rebalance_cooldown_secs);
        storage::set_last_rebalance_ts(&mut store, 0);
        storage::set_principal_supplied(&mut store, 0);
        storage::set_version(&mut store, VERSION.to_string());
        let mut calls: Vec<HostCall> = Vec::new();
        calls.push(HostCall::ExtendInstanceTtl);
        Ok((AutomationHandler { address, storage: store }, calls))
    }

    /// Quorum-signed entrypoint: have the envelope verified and do what it asks
    /// for. While the handler is paused the envelope is not looked at, so it can
    /// be submitted again later.
    pub fn verify_xlm(
        &self,
        ledger: Ledger,
        envelope_bytes: Vec<u8>,
        sig_data: Ed25519SignatureData,
    ) -> (r: Step)
        requires
            self@.constructed(),
        ensures
            r@ == execution::verify_started(self@, ledger, envelope_bytes, sig_data),
    {
        if storage::get_paused(&self.storage) {
            return Step::Fail(Failure::Local(LocalError::Paused));
        }
        let envelope = match XlmEnvelope::from_xdr(envelope_bytes.as_slice()) {
            Some(envelope) => envelope,
            None => return refuse(HandlerError::InvalidEnvelope),
        };
        let event_id = envelope.event_id;
        if storage::is_event_seen(&self.storage, event_id) {
            return refuse(HandlerError::EventAlreadySeen);
        }
        let reference_block: u32 = sig_data.reference_block;
        if reference_block > ledger.sequence || ledger.sequence - reference_block
            > MAX_REFERENCE_BLOCK_AGE {
            return refuse(HandlerError::InvalidReferenceBlock);
        }
        let action = RebalanceAction::from_xdr(envelope.payload.as_slice());
        let mut calls: Vec<HostCall> = Vec::new();
        calls.push(
            HostCall::Verify {
                contract: storage::get_verification_contract(&self.storage),
                envelope_bytes,
                signatures: sig_data.signatures,
                signers: sig_data.signers,
                reference_block,
            },
        );
        wait(calls, Some(event_id), Stage::Verification { now: ledger.timestamp, action })
    }

    /// Whether the admin authorized the invocation.
    fn admin_authorized(&self, auths: &[Address]) -> (r: bool)
        requires
            self@.constructed(),
        ensures
            r == auths@.contains(self@.instance().admin->0),
    {
        primitives::has_authorized(auths, storage::get_admin(&self.storage))
    }

    /// Admin-only: drain the whole Blend position back into the pool's liquid
    /// balance, past the cooldown, the band, the limits and a pause. The way out
    /// when Blend is frozen, when the operators are offline, or on the way to
    /// another handler.
    pub fn emergency_unwind(&self, auths: &[Address]) -> (r: Step)
        requires
            self@.constructed(),
        ensures
            r@ == execution::admin_started(self@, auths@, execution::unwind_started(self@)),
    {
        if !self.admin_authorized(auths) {
            return Step::Fail(Failure::Unauthorized);
        }
        let mut calls: Vec<HostCall> = Vec::new();
        if storage::get_principal_supplied(&self.storage) > 0 {
            self.query_own_balance(&mut calls);
            wait(calls, None, Stage::UnwindBefore)
        } else {
            self.end_unwind(None, calls, 0)
        }
    }

    /// Admin-only: push `amount` USDC from the pool to Blend, to seed the
    /// position or to top it up while the operators are offline. Past the
    /// cooldown, the band and the limits, but not past a pause or an unhealthy
    /// Blend.
    pub fn manual_to_blend(&self, auths: &[Address], amount: i128) -> (r: Step)
        requires
            self@.constructed(),
        ensures
            r@ == execution::admin_started(
                self@,
                auths@,
                execution::manual_to_blend_started(self@, amount),
            ),
    {
        if !self.admin_authorized(auths) {
            return Step::Fail(Failure::Unauthorized);
        }
        if amount <= 0 {
            return reject(Rejection::AmountNotPositive);
        }
        if storage::get_paused(&self.storage) {
            return Step::Fail(Failure::Local(LocalError::Paused));
        }
        let mut calls: Vec<HostCall> = Vec::new();
        self.query_health(&mut calls);
        wait(calls, None, Stage::ManualHealth { amount })
    }

    /// Admin-only: pull `amount` USDC from Blend back into the pool. For a full
    /// drain there is `emergency_unwind`.
    pub fn manual_from_blend(&self, auths: &[Address], amount: i128) -> (r: Step)
        requires
            self@.constructed(),
        ensures
            r@ == execution::admin_started(
                self@,
                auths@,
                execution::manual_from_blend_started(self@, amount),
            ),
    {
        if !self.admin_authorized(auths) {
            return Step::Fail(Failure::Unauthorized);
        }
        if amount <= 0 {
            return reject(Rejection::AmountNotPositive);
        }
        if storage::get_paused(&self.storage) {
            return Step::Fail(Failure::Local(LocalError::Paused));
        }
        let principal_before: i128 = storage::get_principal_supplied(&self.storage);
        if amount > principal_before {
            return reject(Rejection::AmountExceedsPrincipal);
        }
        let mut calls: Vec<HostCall> = Vec::new();
        self.blend_submit(&mut calls, BLEND_REQUEST_WITHDRAW, amount);
        self.deposit_from_delegate(&mut calls, amount);
        self.query_snapshot(&mut calls);
        wait(
            calls,
            None,
            Stage::ManualFromSnapshot { amount, principal_after: principal_before - amount },
        )
    }

    /// Admin-only: clamp the USDC amount that one rebalance moves. `0` means
    /// unlimited.
    pub fn set_max_rebalance_amount(&mut self, auths: &[Address], amount: i128) -> (r: Result<
        Vec<HostCall>,
        Failure,
    >)
        requires
            old(self)@.constructed(),
        ensures
            final(self)@.constructed(),
            old(self)@.instance().config_in_range() 
                ==> final(self)@.instance().config_in_range(),
            (final(self)@, execution::calls_of(r)) == execution::admin_outcome(
                old(self)@,
                auths@,
                execution::refusal_if(
                    amount < 0,
                    Failure::Rejected(Rejection::NegativeMaxRebalanceAmount),
                ),
                old(self)@.with_instance(
                    Instance { max_rebalance_amount: Some(amount), ..old(self)@.instance() },
                ),
                execution::config_notice(Symbol::MaxRebalance, amount as int),
            ),
    {
        if !self.admin_authorized(auths) {
            return Err(Failure::Unauthorized);
        }
        if amount < 0 {
            return Err(Failure::Rejected(Rejection::NegativeMaxRebalanceAmount));
        }
        storage::set_max_rebalance_amount(&mut self.storage, amount);
        Ok(announce(Event::ConfigUpdated(ConfigUpdated::new(Symbol::MaxRebalance, amount))))
    }

    /// Admin-only: dust floor below which a rebalance is a silent no-op that does
    /// not consume the cooldown. `0` means no floor.
    pub fn set_min_rebalance_amount(&mut self, auths: &[Address], amount: i128) -> (r: Result<
        Vec<HostCall>,
        Failure,
    >)
        requires
            old(self)@.constructed(),
        ensures
            final(self)@.constructed(),
            old(self)@.instance().config_in_range() 
                ==> final(self)@.instance().config_in_range(),
            (final(self)@, execution::calls_of(r)) == execution::admin_outcome(
                old(self)@,
                auths@,
                execution::refusal_if(
                    amount < 0,
                    Failure::Rejected(Rejection::NegativeMinRebalanceAmount),
                ),
                old(self)@.with_instance(
                    Instance { min_rebalance_amount: Some(amount), ..old(self)@.instance() },
                ),
                execution::config_notice(Symbol::MinRebalance, amount as int),
            ),
    {
        if !self.admin_authorized(auths) {
            return Err(Failure::Unauthorized);
        }
        if amount < 0 {
            return Err(Failure::Rejected(Rejection::NegativeMinRebalanceAmount));
        }
        storage::set_min_rebalance_amount(&mut self.storage, amount);
        Ok(announce(Event::ConfigUpdated(ConfigUpdated::new(Symbol::MinRebalance, amount))))
    }

    /// Admin-only: the liquid share of the total USDC to aim for, strictly within
    /// (0, 10000) bps.
    pub fn set_target_ratio_bps(&mut self, auths: &[Address], bps: u32) -> (r: Result<
        Vec<HostCall>,
        Failure,
    >)
        requires
            old(self)@.constructed(),
        ensures
            final(self)@.constructed(),
            old(self)@.instance().config_in_range() 
                ==> final(self)@.instance().config_in_range(),
            (final(self)@, execution::calls_of(r)) == execution::admin_outcome(
                old(self)@,
                auths@,
                execution::refusal_if(
                    !(bps > 0 && bps < 10_000),
                    Failure::Rejected(Rejection::TargetRatioOutOfRange),
                ),
                old(self)@.with_instance(
                    Instance { target_ratio_bps: Some(bps), ..old(self)@.instance() },
                ),
                execution::config_notice(Symbol::Target, bps as int),
            ),
    {
        if !self.admin_authorized(auths) {
            return Err(Failure::Unauthorized);
        }
        if !(bps > 0 && bps < 10_000) {
            return Err(Failure::Rejected(Rejection::TargetRatioOutOfRange));
        }
        storage::set_target_ratio_bps(&mut self.storage, bps);
        Ok(announce(Event::ConfigUpdated(ConfigUpdated::new(Symbol::Target, bps as i128))))
    }

    /// Admin-only: the band around the target in which nothing moves, below 10000
    /// bps.
    pub fn set_rebalance_band_bps(&mut self, auths: &[Address], bps: u32) -> (r: Result<
        Vec<HostCall>,
        Failure,
    >)
        requires
            old(self)@.constructed(),
        ensures
            final(self)@.constructed(),
            old(self)@.instance().config_in_range() 
                ==> final(self)@.instance().config_in_range(),
            (final(self)@, execution::calls_of(r)) == execution::admin_outcome(
                old(self)@,
                auths@,
                execution::refusal_if(
                    bps >= 10_000,
                    Failure::Rejected(Rejection::RebalanceBandOutOfRange),
                ),
                old(self)@.with_instance(
                    Instance { rebalance_band_bps: Some(bps), ..old(self)@.instance() },
                ),
                execution::config_notice(Symbol::Band, bps as int),
            ),
    {
        if !self.admin_authorized(auths) {
            return Err(Failure::Unauthorized);
        }
        if bps >= 10_000 {
            return Err(Failure::Rejected(Rejection::RebalanceBandOutOfRange));
        }
        storage::set_rebalance_band_bps(&mut self.storage, bps);
        Ok(announce(Event::ConfigUpdated(ConfigUpdated::new(Symbol::Band, bps as i128))))
    }

    /// Admin-only: floor on the pool's total USDC below which a rebalance is a
    /// no-op that does not consume the cooldown.
    pub fn set_min_total_usdc(&mut self, auths: &[Address], amount: i128) -> (r: Result<
        Vec<HostCall>,
        Failure,
    >)
        requires
            old(self)@.constructed(),
        ensures
            final(self)@.constructed(),
            old(self)@.instance().config_in_range() 
                ==> final(self)@.instance().config_in_range(),
            (final(self)@, execution::calls_of(r)) == execution::admin_outcome(
                old(self)@,
                auths@,
                execution::refusal_if(
                    amount < 0,
                    Failure::Rejected(Rejection::NegativeMinTotalUsdc),
                ),
                old(self)@.with_instance(
                    Instance { min_total_usdc: Some(amount), ..old(self)@.instance() },
                ),
                execution::config_notice(Symbol::MinTotal, amount as int),
            ),
    {
        if !self.admin_authorized(auths) {
            return Err(Failure::Unauthorized);
        }
        if amount < 0 {
            return Err(Failure::Rejected(Rejection::NegativeMinTotalUsdc));
        }
        storage::set_min_total_usdc(&mut self.storage, amount);
        Ok(announce(Event::ConfigUpdated(ConfigUpdated::new(Symbol::MinTotal, amount))))
    }

    /// Admin-only: minimum seconds between two rebalance moves. `0` disables the
    /// cooldown.
    pub fn set_rebalance_cooldown_secs(&mut self, auths: &[Address], secs: u64) -> (r: Result<
        Vec<HostCall>,
        Failure,
    >)
        requires
            old(self)@.constructed(),
        ensures
            final(self)@.constructed(),
            old(self)@.instance().config_in_range() 
                ==> final(self)@.instance().config_in_range(),
            (final(self)@, execution::calls_of(r)) == execution::admin_outcome(
                old(self)@,
                auths@,
                None,
                old(self)@.with_instance(
                    Instance { rebalance_cooldown_secs: Some(secs), ..old(self)@.instance() },
                ),
                execution::config_notice(Symbol::Cooldown, secs as int),
            ),
    {
        if !self.admin_authorized(auths) {
            return Err(Failure::Unauthorized);
        }
        storage::set_rebalance_cooldown_secs(&mut self.storage, secs);
        Ok(announce(Event::ConfigUpdated(ConfigUpdated::new(Symbol::Cooldown, secs as i128))))
    }

    /// Admin-only: the reserve token whose emissions a harvest claims, that is
    /// `reserve_index * 2 + 1` for the USDC reserve: an even id is its debt side.
    pub fn set_usdc_reserve_token_id(&mut self, auths: &[Address], id: u32) -> (r: Result<
        Vec<HostCall>,
        Failure,
    >)
        requires
            old(self)@.constructed(),
        ensures
            final(self)@.constructed(),
            old(self)@.instance().config_in_range() 
                ==> final(self)@.instance().config_in_range(),
            (final(self)@, execution::calls_of(r)) == execution::admin_outcome(
                old(self)@,
                auths@,
                execution::refusal_if(
                    id % 2 == 0,
                    Failure::Local(LocalError::InvalidReserveTokenId),
                ),
                old(self)@.with_instance(
                    Instance { usdc_reserve_token_id: Some(id), ..old(self)@.instance() },
                ),
                execution::config_notice(Symbol::UsdcId, id as int),
            ),
    {
        if !self.admin_authorized(auths) {
            return Err(Failure::Unauthorized);
        }
        if id % 2 == 0 {
            return Err(Failure::Local(LocalError::InvalidReserveTokenId));
        }
        storage::set_usdc_reserve_token_id(&mut self.storage, id);
        Ok(announce(Event::ConfigUpdated(ConfigUpdated::new(Symbol::UsdcId, id as i128))))
    }

    /// Admin-only: who receives the emissions of every harvest.
    pub fn set_blnd_treasury(&mut self, auths: &[Address], treasury: Address) -> (r: Result<
        Vec<HostCall>,
        Failure,
    >)
        requires
            old(self)@.constructed(),
        ensures
            final(self)@.constructed(),
            old(self)@.instance().config_in_range() 
                ==> final(self)@.instance().config_in_range(),
            (final(self)@, execution::calls_of(r)) == execution::admin_outcome(
                old(self)@,
                auths@,
                None,
                old(self)@.with_instance(
                    Instance { blnd_treasury: Some(treasury), ..old(self)@.instance() },
                ),
                seq![
                    HostCall::Publish(
                        Event::AddressConfigUpdated(
                            AddressConfigUpdated { field: Symbol::Treasury, value: treasury },
                        ),
                    ),
                    HostCall::ExtendInstanceTtl,
                ],
            ),
    {
        if !self.admin_authorized(auths) {
            return Err(Failure::Unauthorized);
        }
        storage::set_blnd_treasury(&mut self.storage, treasury);
        Ok(
            announce(
                Event::AddressConfigUpdated(AddressConfigUpdated::new(Symbol::Treasury, treasury)),
            ),
        )
    }

    /// Admin-only: pause the handler. While it is paused, `verify_xlm` and the
    /// manual moves fail; an envelope that comes in is not marked as seen.
    pub fn pause(&mut self, auths: &[Address]) -> (r: Result<Vec<HostCall>, Failure>)
        requires
            old(self)@.constructed(),
        ensures
            final(self)@.constructed(),
            old(self)@.instance().config_in_range() 
                ==> final(self)@.instance().config_in_range(),
            (final(self)@, execution::calls_of(r)) == execution::admin_outcome(
                old(self)@,
                auths@,
                None,
                old(self)@.with_instance(
                    Instance { paused: Some(true), ..old(self)@.instance() },
                ),
                execution::pause_notice(true),
            ),
    {
        if !self.admin_authorized(auths) {
            return Err(Failure::Unauthorized);
        }
        storage::set_paused(&mut self.storage, true);
        Ok(announce(Event::PauseToggled(PauseToggled::new(true))))
    }

    /// Admin-only: lift a pause.
    pub fn unpause(&mut self, auths: &[Address]) -> (r: Result<Vec<HostCall>, Failure>)
        requires
            old(self)@.constructed(),
        ensures
            final(self)@.constructed(),
            old(self)@.instance().config_in_range() 
                ==> final(self)@.instance().config_in_range(),
            (final(self)@, execution::calls_of(r)) == execution::admin_outcome(
                old(self)@,
                auths@,
                None,
                old(self)@.with_instance(
                    Instance { paused: Some(false), ..old(self)@.instance() },
                ),
                execution::pause_notice(false),
            ),
    {
        if !self.admin_authorized(auths) {
            return Err(Failure::Unauthorized);
        }
        storage::set_paused(&mut self.storage, false);
        Ok(announce(Event::PauseToggled(PauseToggled::new(false))))
    }

    /// Admin-only: replace the code of the handler.
    pub fn upgrade(&mut self, auths: &[Address], new_wasm_hash: Bytes32, new_version: String) -> (r:
        Result<Vec<HostCall>, Failure>)
        requires
            old(self)@.constructed(),
        ensures
            final(self)@.constructed(),
            old(self)@.instance().config_in_range() 
                ==> final(self)@.instance().config_in_range(),
            (final(self)@, execution::calls_of(r)) == execution::admin_outcome(
                old(self)@,
                auths@,
                None,
                (HandlerView {
                    storage: StorageView { version: Some(new_version@), ..old(self)@.storage },
                    ..old(self)@
                }),
                seq![
                    HostCall::ExtendInstanceTtl,
                    HostCall::UpdateContractWasm { wasm_hash: new_wasm_hash },
                    HostCall::Publish(Event::ContractUpgraded { version: new_version }),
                ],
            ),
    {
        if !self.admin_authorized(auths) {
            return Err(Failure::Unauthorized);
        }
        storage::set_version(&mut self.storage, new_version.clone());
        let mut calls: Vec<HostCall> = Vec::new();
        calls.push(HostCall::ExtendInstanceTtl);
        calls.push(HostCall::UpdateContractWasm { wasm_hash: new_wasm_hash });
        calls.push(HostCall::Publish(Event::ContractUpgraded { version: new_version }));
        assert(calls@ =~= seq![
            HostCall::ExtendInstanceTtl,
            HostCall::UpdateContractWasm { wasm_hash: new_wasm_hash },
            HostCall::Publish(Event::ContractUpgraded { version: new_version }),
        ]);
        Ok(calls)
    }

    /// Admin-only: propose a new admin. The old one stays in office until the
    /// new one accepts.
    pub fn propose_admin(&mut self, auths: &[Address], new_admin: Address) -> (r: Result<
        Vec<HostCall>,
        Failure,
    >)
        requires
            old(self)@.constructed(),
        ensures
            final(self)@.constructed(),
            old(self)@.instance().config_in_range() 
                ==> final(self)@.instance().config_in_range(),
            (final(self)@, execution::calls_of(r)) == execution::admin_proposed(
                old(self)@,
                auths@,
                new_admin,
            ),
    {
        let old_admin = storage::get_admin(&self.storage);
        if !primitives::has_authorized(auths, old_admin) {
            return Err(Failure::Unauthorized);
        }
        storage::set_pending_admin(&mut self.storage, Some(new_admin));
        let mut calls: Vec<HostCall> = Vec::new();
        calls.push(HostCall::Publish(Event::AdminProposed { old_admin, new_admin }));
        Ok(calls)
    }

    /// The proposed admin takes office. Only they can do it.
    pub fn accept_admin(&mut self, auths: &[Address]) -> (r: Result<Vec<HostCall>, Failure>)
        requires
            old(self)@.constructed(),
        ensures
            final(self)@.constructed(),
            old(self)@.instance().config_in_range() 
                ==> final(self)@.instance().config_in_range(),
            (final(self)@, execution::calls_of(r)) == execution::admin_accepted(old(self)@, auths@),
    {
        let new_admin = match storage::get_pending_admin(&self.storage) {
            Some(new_admin) => new_admin,
            None => return Err(Failure::Rejected(Rejection::NoPendingAdmin)),
        };
        if !primitives::has_authorized(auths, new_admin) {
            return Err(Failure::Unauthorized);
        }
        storage::set_pending_admin(&mut self.storage, None);
        storage::set_admin(&mut self.storage, new_admin);
        let mut calls: Vec<HostCall> = Vec::new();
        calls.push(HostCall::Publish(Event::AdminAccepted { new_admin }));
        Ok(calls)
    }

    pub fn verification_contract(&self) -> (r: Address)
        requires
            self@.constructed(),
        ensures
            Some(r) == self@.instance().verification_contract,
    {
        storage::get_verification_contract(&self.storage)
    }

    pub fn blended_pool(&self) -> (r: Address)
        requires
            self@.constructed(),
        ensures
            Some(r) == self@.instance().blended_pool,
    {
        storage::get_blended_pool(&self.storage)
    }

    pub fn blend_pool(&self) -> (r: Address)
        requires
            self@.constructed(),
        ensures
            Some(r) == self@.instance().blend_pool,
    {
        storage::get_blend_pool(&self.storage)
    }

    pub fn target_ratio_bps(&self) -> (r: u32)
        requires
            self@.constructed(),
        ensures
            Some(r) == self@.instance().target_ratio_bps,
    {
        storage::get_target_ratio_bps(&self.storage)
    }

    pub fn rebalance_band_bps(&self) -> (r: u32)
        requires
            self@.constructed(),
        ensures
            Some(r) == self@.instance().rebalance_band_bps,
    {
        storage::get_rebalance_band_bps(&self.storage)
    }

    pub fn min_total_usdc(&self) -> (r: i128)
        requires
            self@.constructed(),
        ensures
            Some(r) == self@.instance().min_total_usdc,
    {
        storage::get_min_total_usdc(&self.storage)
    }

    pub fn max_rebalance_amount(&self) -> (r: i128)
        ensures
            r == self@.instance().max_rebalance_amount_or_default(),
    {
        storage::get_max_rebalance_amount(&self.storage)
    }

    pub fn min_rebalance_amount(&self) -> (r: i128)
        ensures
            r == self@.instance().min_rebalance_amount_or_default(),
    {
        storage::get_min_rebalance_amount(&self.storage)
    }

    pub fn principal_supplied(&self) -> (r: i128)
        ensures
            r == self@.instance().principal_supplied_or_default(),
    {
        storage::get_principal_supplied(&self.storage)
    }

    pub fn blnd_treasury(&self) -> (r: Address)
        requires
            self@.constructed(),
        ensures
            Some(r) == self@.instance().blnd_treasury,
    {
        storage::get_blnd_treasury(&self.storage)
    }

    pub fn rebalance_cooldown_secs(&self) -> (r: u64)
        requires
            self@.constructed(),
        ensures
            Some(r) == self@.instance().rebalance_cooldown_secs,
    {
        storage::get_rebalance_cooldown_secs(&self.storage)
    }

    pub fn last_rebalance_ts(&self) -> (r: u64)
        ensures
            r == self@.instance().last_rebalance_ts_or_default(),
    {
        storage::get_last_rebalance_ts(&self.storage)
    }

    pub fn last_harvest_ts(&self) -> (r: u64)
        ensures
            r == self@.instance().last_harvest_ts_or_default(),
    {
        storage::get_last_harvest_ts(&self.storage)
    }

    pub fn usdc_reserve_token_id(&self) -> (r: u32)
        requires
            self@.constructed(),
        ensures
            Some(r) == self@.instance().usdc_reserve_token_id,
    {
        storage::get_usdc_reserve_token_id(&self.storage)
    }

    /// Is the handler currently paused?
    pub fn paused(&self) -> (r: bool)
        ensures
            r == self@.instance().paused_or_default(),
    {
        storage::get_paused(&self.storage)
    }

    pub fn admin(&self) -> (r: Address)
        requires
            self@.constructed(),
        ensures
            Some(r) == self@.instance().admin,
    {
        storage::get_admin(&self.storage)
    }

    pub fn pending_admin(&self) -> (r: Option<Address>)
        ensures
            r == self@.instance().pending_admin,
    {
        storage::get_pending_admin(&self.storage)
    }

    pub fn version(&self) -> (r: String)
        requires
            self@.constructed(),
        ensures
            Some(r@) == self@.storage.version,
    {
        storage::get_version(&self.storage)
    }

    /// The payload of a past envelope: the handler keeps none.
    pub fn payload(&self, _event_id: EventId) -> (r: Option<Vec<u8>>)
        ensures
            r is None,
    {
        None
    }

    /// Everything in one read, for dashboards.
    pub fn query_state(&self) -> (r: HandlerState)
        requires
            self@.constructed(),
        ensures
            Some(r.admin) == self@.instance().admin,
            r.pending_admin == self@.instance().pending_admin,
            Some(r.verification_contract) == self@.instance().verification_contract,
            Some(r.blended_pool) == self@.instance().blended_pool,
            Some(r.blend_pool) == self@.instance().blend_pool,
            Some(r.usdc) == self@.instance().usdc,
            Some(r.xlm) == self@.instance().xlm,
            Some(r.blnd_treasury) == self@.instance().blnd_treasury,
            Some(r.usdc_reserve_token_id) == self@.instance().usdc_reserve_token_id,
            Some(r.target_ratio_bps) == self@.instance().target_ratio_bps,
            Some(r.rebalance_band_bps) == self@.instance().rebalance_band_bps,
            Some(r.min_total_usdc) == self@.instance().min_total_usdc,
            r.max_rebalance_amount == self@.instance().max_rebalance_amount_or_default(),
            r.min_rebalance_amount == self@.instance().min_rebalance_amount_or_default(),
            Some(r.rebalance_cooldown_secs) == self@.instance().rebalance_cooldown_secs,
            r.principal_supplied == self@.instance().principal_supplied_or_default(),
            r.last_rebalance_ts == self@.instance().last_rebalance_ts_or_default(),
            r.last_harvest_ts == self@.instance().last_harvest_ts_or_default(),
            r.paused == self@.instance().paused_or_default(),
            Some(r.version@) == self@.storage.version,
    {
        HandlerState {
            admin: storage::get_admin(&self.storage),
            pending_admin: storage::get_pending_admin(&self.storage),
            verification_contract: storage::get_verification_contract(&self.storage),
            blended_pool: storage::get_blended_pool(&self.storage),
            blend_pool: storage::get_blend_pool(&self.storage),
            usdc: storage::get_usdc(&self.storage),
            xlm: storage::get_xlm(&self.storage),
            blnd_treasury: storage::get_blnd_treasury(&self.storage),
            usdc_reserve_token_id: storage::get_usdc_reserve_token_id(&self.storage),
            target_ratio_bps: storage::get_target_ratio_bps(&self.storage),
            rebalance_band_bps: storage::get_rebalance_band_bps(&self.storage),
            min_total_usdc: storage::get_min_total_usdc(&self.storage),
            max_rebalance_amount: storage::get_max_rebalance_amount(&self.storage),
            min_rebalance_amount: storage::get_min_rebalance_amount(&self.storage),
            rebalance_cooldown_secs: storage::get_rebalance_cooldown_secs(&self.storage),
            principal_supplied: storage::get_principal_supplied(&self.storage),
            last_rebalance_ts: storage::get_last_rebalance_ts(&self.storage),
            last_harvest_ts: storage::get_last_harvest_ts(&self.storage),
            paused: storage::get_paused(&self.storage),
            version: storage::get_version(&self.storage),
        }
    }
}

/// A handler can be constructed with every target strictly between 0 and 10000
/// bps, every band below 10000 bps, every floor on the total that is not negative
/// and every odd reserve token; anything else is refused with the first reason
/// that holds, in this order.
pub proof fn law_what_can_be_constructed(
    usdc_reserve_token_id: u32,
    target_ratio_bps: u32,
    rebalance_band_bps: u32,
    min_total_usdc: i128,
)
    ensures
        ({
            let refusal = constructor_refusal(
                usdc_reserve_token_id,
                target_ratio_bps,
                rebalance_band_bps,
                min_total_usdc,
            );
            let target_ok = 1 <= target_ratio_bps <= 9_999;
            let band_ok = rebalance_band_bps <= 9_999;
            let total_ok = min_total_usdc >= 0;
            let reserve_ok = usdc_reserve_token_id % 2 == 1;
            &&& refusal is None <==> target_ok && band_ok && total_ok && reserve_ok
            &&& !target_ok ==> refusal == Some(
                Failure::Rejected(Rejection::TargetRatioOutOfRange),
            )
            &&& target_ok && !band_ok ==> refusal == Some(
                Failure::Rejected(Rejection::RebalanceBandOutOfRange),
            )
            &&& target_ok && band_ok && !total_ok ==> refusal == Some(
                Failure::Rejected(Rejection::NegativeMinTotalUsdc),
            )
            &&& target_ok && band_ok && total_ok && !reserve_ok ==> refusal == Some(
                Failure::Local(LocalError::InvalidReserveTokenId),
            )
        }),
{
}

/// A handler is seen as its address and what its storage holds, and it was
/// constructed exactly if its entries and its version are there.
pub proof fn law_handler_view(handler: AutomationHandler)
    ensures
        handler@.address == handler.address,
        handler@.storage == handler.storage@,
        handler@.constructed() <==> handler@.storage.instance.initialized()
            && handler@.storage.version is Some,
        VERSION@ == "0.1.0"@,
{
}

} // verus!
