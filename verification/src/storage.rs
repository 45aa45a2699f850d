//! The handler's own entries in ledger storage.
//!
//! Instance entries are absent until they are set. The getters of the entries
//! that the constructor writes ask for their presence; the others have a
//! default.
use crate::primitives::{Address, EventId};
use vstd::prelude::*;

verus! {

/// The fixed-size instance entries.
#[derive(Clone, Copy, Debug, PartialEq, Eq, Structural)]
pub struct Instance {
    pub admin: Option<Address>,
    pub pending_admin: Option<Address>,
    pub verification_contract: Option<Address>,
    pub blended_pool: Option<Address>,
    pub blend_pool: Option<Address>,
    pub usdc: Option<Address>,
    pub xlm: Option<Address>,
    pub blnd_treasury: Option<Address>,
    pub usdc_reserve_token_id: Option<u32>,
    pub target_ratio_bps: Option<u32>,
    pub rebalance_band_bps: Option<u32>,
    pub min_total_usdc: Option<i128>,
    pub rebalance_cooldown_secs: Option<u64>,
    pub last_rebalance_ts: Option<u64>,
    pub last_harvest_ts: Option<u64>,
    pub principal_supplied: Option<i128>,
    pub max_rebalance_amount: Option<i128>,
    pub min_rebalance_amount: Option<i128>,
    pub paused: Option<bool>,
}

/// Everything that the handler keeps: instance entries, the version string and
/// the ids of the events that were handled.
#[derive(Debug)]
pub struct Storage {
    pub instance: Instance,
    pub version: Option<String>,
    pub seen: Vec<EventId>,
}

/// What [`Storage`] holds.
#[verifier::ext_equal]
pub struct StorageView {
    pub instance: Instance,
    pub version: Option<Seq<char>>,
    pub seen: Set<EventId>,
}

impl View for Storage {
    type V = StorageView;

    open spec fn view(&self) -> StorageView {
        StorageView {
            instance: self.instance,
            version: match self.version {
                Some(v) => Some(v@),
                None => None,
            },
            seen: self.seen@.to_set(),
        }
    }
}

impl Instance {
    /// The entries that the constructor writes and that every entrypoint reads
    /// are present.
    pub open spec fn initialized(self) -> bool {
        &&& self.admin is Some
        &&& self.verification_contract is Some
        &&& self.blended_pool is Some
        &&& self.blend_pool is Some
        &&& self.usdc is Some
        &&& self.xlm is Some
        &&& self.blnd_treasury is Some
        &&& self.usdc_reserve_token_id is Some
        &&& self.target_ratio_bps is Some
        &&& self.rebalance_band_bps is Some
        &&& self.min_total_usdc is Some
        &&& self.rebalance_cooldown_secs is Some
    }

    /// Every knob is in the range that its setter admits.
    pub open spec fn config_in_range(self) -> bool {
        &&& self.usdc_reserve_token_id matches Some(id) ==> id % 2 == 1
        &&& self.target_ratio_bps matches Some(bps) ==> 0 < bps < 10_000
        &&& self.rebalance_band_bps matches Some(bps) ==> bps < 10_000
        &&& self.min_total_usdc matches Some(amount) ==> amount >= 0
        &&& self.max_rebalance_amount matches Some(amount) ==> amount >= 0
        &&& self.min_rebalance_amount matches Some(amount) ==> amount >= 0
    }

    pub open spec fn last_rebalance_ts_or_default(self) -> u64 {
        match self.last_rebalance_ts {
            Some(value) => value,
            None => 0,
        }
    }

    pub open spec fn last_harvest_ts_or_default(self) -> u64 {
        match self.last_harvest_ts {
            Some(value) => value,
            None => 0,
        }
    }

    pub open spec fn principal_supplied_or_default(self) -> i128 {
        match self.principal_supplied {
            Some(value) => value,
            None => 0,
        }
    }

    pub open spec fn max_rebalance_amount_or_default(self) -> i128 {
        match self.max_rebalance_amount {
            Some(value) => value,
            None => 0,
        }
    }

    pub open spec fn min_rebalance_amount_or_default(self) -> i128 {
        match self.min_rebalance_amount {
            Some(value) => value,
            None => 0,
        }
    }

    pub open spec fn paused_or_default(self) -> bool {
        match self.paused {
            Some(value) => value,
            None => false,
        }
    }

    /// No entry is set.
    pub fn empty() -> (r: Instance)
        ensures
            r.admin is None,
            r.pending_admin is None,
            r.verification_contract is None,
            r.blended_pool is None,
            r.blend_pool is None,
            r.usdc is None,
            r.xlm is None,
            r.blnd_treasury is None,
            r.usdc_reserve_token_id is None,
            r.target_ratio_bps is None,
            r.rebalance_band_bps is None,
            r.min_total_usdc is None,
            r.rebalance_cooldown_secs is None,
            r.last_rebalance_ts is None,
            r.last_harvest_ts is None,
            r.principal_supplied is None,
            r.max_rebalance_amount is None,
            r.min_rebalance_amount is None,
            r.paused is None,
    {
        Instance {
            admin: None,
            pending_admin: None,
            verification_contract: None,
            blended_pool: None,
            blend_pool: None,
            usdc: None,
            xlm: None,
            blnd_treasury: None,
            usdc_reserve_token_id: None,
            target_ratio_bps: None,
            rebalance_band_bps: None,
            min_total_usdc: None,
            rebalance_cooldown_secs: None,
            last_rebalance_ts: None,
            last_harvest_ts: None,
            principal_supplied: None,
            max_rebalance_amount: None,
            min_rebalance_amount: None,
            paused: None,
        }
    }
}

impl Storage {
    /// Storage of a contract that was not constructed yet.
    pub fn empty() -> (r: Storage)
        ensures
            r@.instance.admin is None,
            r@.instance.pending_admin is None,
            r@.instance.verification_contract is None,
            r@.instance.blended_pool is None,
            r@.instance.blend_pool is None,
            r@.instance.usdc is None,
            r@.instance.xlm is None,
            r@.instance.blnd_treasury is None,
            r@.instance.usdc_reserve_token_id is None,
            r@.instance.target_ratio_bps is None,
            r@.instance.rebalance_band_bps is None,
            r@.instance.min_total_usdc is None,
            r@.instance.rebalance_cooldown_secs is None,
            r@.instance.last_rebalance_ts is None,
            r@.instance.last_harvest_ts is None,
            r@.instance.principal_supplied is None,
            r@.instance.max_rebalance_amount is None,
            r@.instance.min_rebalance_amount is None,
            r@.instance.paused is None,
            r@.version is None,
            r@.seen == Set::<EventId>::empty(),
    {
        let r = Storage { instance: Instance::empty(), version: None, seen: Vec::new() };
        assert(r.seen@.to_set() =~= Set::<EventId>::empty());
        r
    }
}

pub fn set_admin(store: &mut Storage, value: Address)
    ensures
        final(store)@ == (StorageView {
            instance: Instance { admin: Some(value), ..old(store)@.instance },
            ..old(store)@
        }),
{
    store.instance.admin = Some(value);
}

pub fn get_admin(store: &Storage) -> (r: Address)
    requires
        store@.instance.admin is Some,
    ensures
        Some(r) == store@.instance.admin,
{
    store.instance.admin.unwrap()
}

pub fn set_verification_contract(store: &mut Storage, value: Address)
    ensures
        final(store)@ == (StorageView {
            instance: Instance { verification_contract: Some(value), ..old(store)@.instance },
            ..old(store)@
        }),
{
    store.instance.verification_contract = Some(value);
}

pub fn get_verification_contract(store: &Storage) -> (r: Address)
    requires
        store@.instance.verification_contract is Some,
    ensures
        Some(r) == store@.instance.verification_contract,
{
    store.instance.verification_contract.unwrap()
}

pub fn set_blended_pool(store: &mut Storage, value: Address)
    ensures
        final(store)@ == (StorageView {
            instance: Instance { blended_pool: Some(value), ..old(store)@.instance },
            ..old(store)@
        }),
{
    store.instance.blended_pool = Some(value);
}

pub fn get_blended_pool(store: &Storage) -> (r: Address)
    requires
        store@.instance.blended_pool is Some,
    ensures
        Some(r) == store@.instance.blended_pool,
{
    store.instance.blended_pool.unwrap()
}

pub fn set_blend_pool(store: &mut Storage, value: Address)
    ensures
        final(store)@ == (StorageView {
            instance: Instance { blend_pool: Some(value), ..old(store)@.instance },
            ..old(store)@
        }),
{
    store.instance.blend_pool = Some(value);
}

pub fn get_blend_pool(store: &Storage) -> (r: Address)
    requires
        store@.instance.blend_pool is Some,
    ensures
        Some(r) == store@.instance.blend_pool,
{
    store.instance.blend_pool.unwrap()
}

pub fn set_usdc(store: &mut Storage, value: Address)
    ensures
        final(store)@ == (StorageView {
            instance: Instance { usdc: Some(value), ..old(store)@.instance },
            ..old(store)@
        }),
{
    store.instance.usdc = Some(value);
}

pub fn get_usdc(store: &Storage) -> (r: Address)
    requires
        store@.instance.usdc is Some,
    ensures
        Some(r) == store@.instance.usdc,
{
    store.instance.usdc.unwrap()
}

pub fn set_xlm(store: &mut Storage, value: Address)
    ensures
        final(store)@ == (StorageView {
            instance: Instance { xlm: Some(value), ..old(store)@.instance },
            ..old(store)@
        }),
{
    store.instance.xlm = Some(value);
}

pub fn get_xlm(store: &Storage) -> (r: Address)
    requires
        store@.instance.xlm is Some,
    ensures
        Some(r) == store@.instance.xlm,
{
    store.instance.xlm.unwrap()
}

pub fn set_blnd_treasury(store: &mut Storage, value: Address)
    ensures
        final(store)@ == (StorageView {
            instance: Instance { blnd_treasury: Some(value), ..old(store)@.instance },
            ..old(store)@
        }),
{
    store.instance.blnd_treasury = Some(value);
}

pub fn get_blnd_treasury(store: &Storage) -> (r: Address)
    requires
        store@.instance.blnd_treasury is Some,
    ensures
        Some(r) == store@.instance.blnd_treasury,
{
    store.instance.blnd_treasury.unwrap()
}

pub fn set_usdc_reserve_token_id(store: &mut Storage, value: u32)
    ensures
        final(store)@ == (StorageView {
            instance: Instance { usdc_reserve_token_id: Some(value), ..old(store)@.instance },
            ..old(store)@
        }),
{
    store.instance.usdc_reserve_token_id = Some(value);
}

pub fn get_usdc_reserve_token_id(store: &Storage) -> (r: u32)
    requires
        store@.instance.usdc_reserve_token_id is Some,
    ensures
        Some(r) == store@.instance.usdc_reserve_token_id,
{
    store.instance.usdc_reserve_token_id.unwrap()
}

/// Share of the total USDC (bps) that the pool should hold as liquid.
pub fn set_target_ratio_bps(store: &mut Storage, value: u32)
    ensures
        final(store)@ == (StorageView {
            instance: Instance { target_ratio_bps: Some(value), ..old(store)@.instance },
            ..old(store)@
        }),
{
    store.instance.target_ratio_bps = Some(value);
}

pub fn get_target_ratio_bps(store: &Storage) -> (r: u32)
    requires
        store@.instance.target_ratio_bps is Some,
    ensures
        Some(r) == store@.instance.target_ratio_bps,
{
    store.instance.target_ratio_bps.unwrap()
}

/// Drift band (bps) around the target within which nothing moves.
pub fn set_rebalance_band_bps(store: &mut Storage, value: u32)
    ensures
        final(store)@ == (StorageView {
            instance: Instance { rebalance_band_bps: Some(value), ..old(store)@.instance },
            ..old(store)@
        }),
{
    store.instance.rebalance_band_bps = Some(value);
}

pub fn get_rebalance_band_bps(store: &Storage) -> (r: u32)
    requires
        store@.instance.rebalance_band_bps is Some,
    ensures
        Some(r) == store@.instance.rebalance_band_bps,
{
    store.instance.rebalance_band_bps.unwrap()
}

/// Floor on the pool's *total* USDC (liquid + delegated) below which Rebalance
/// is a no-op. Avoids burning gas and Blend min-supply churn on dust pools.
pub fn set_min_total_usdc(store: &mut Storage, value: i128)
    ensures
        final(store)@ == (StorageView {
            instance: Instance { min_total_usdc: Some(value), ..old(store)@.instance },
            ..old(store)@
        }),
{
    store.instance.min_total_usdc = Some(value);
}

pub fn get_min_total_usdc(store: &Storage) -> (r: i128)
    requires
        store@.instance.min_total_usdc is Some,
    ensures
        Some(r) == store@.instance.min_total_usdc,
{
    store.instance.min_total_usdc.unwrap()
}

/// Minimum seconds between two successive rebalance moves. The cooldown gates
/// only moves: a no-op check leaves `last_rebalance_ts` alone.
pub fn set_rebalance_cooldown_secs(store: &mut Storage, value: u64)
    ensures
        final(store)@ == (StorageView {
            instance: Instance { rebalance_cooldown_secs: Some(value), ..old(store)@.instance },
            ..old(store)@
        }),
{
    store.instance.rebalance_cooldown_secs = Some(value);
}

pub fn get_rebalance_cooldown_secs(store: &Storage) -> (r: u64)
    requires
        store@.instance.rebalance_cooldown_secs is Some,
    ensures
        Some(r) == store@.instance.rebalance_cooldown_secs,
{
    store.instance.rebalance_cooldown_secs.unwrap()
}

pub fn set_last_rebalance_ts(store: &mut Storage, value: u64)
    ensures
        final(store)@ == (StorageView {
            instance: Instance { last_rebalance_ts: Some(value), ..old(store)@.instance },
            ..old(store)@
        }),
{
    store.instance.last_rebalance_ts = Some(value);
}

pub fn get_last_rebalance_ts(store: &Storage) -> (r: u64)
    ensures
        r == store@.instance.last_rebalance_ts_or_default(),
{
    store.instance.last_rebalance_ts.unwrap_or(0)
}

pub fn set_last_harvest_ts(store: &mut Storage, value: u64)
    ensures
        final(store)@ == (StorageView {
            instance: Instance { last_harvest_ts: Some(value), ..old(store)@.instance },
            ..old(store)@
        }),
{
    store.instance.last_harvest_ts = Some(value);
}

pub fn get_last_harvest_ts(store: &Storage) -> (r: u64)
    ensures
        r == store@.instance.last_harvest_ts_or_default(),
{
    store.instance.last_harvest_ts.unwrap_or(0)
}

/// Running sum of net USDC supplied to Blend: up on a move to Blend, down on a
/// move from Blend. A harvest takes what Blend redeems above it as interest.
pub fn set_principal_supplied(store: &mut Storage, value: i128)
    ensures
        final(store)@ == (StorageView {
            instance: Instance { principal_supplied: Some(value), ..old(store)@.instance },
            ..old(store)@
        }),
{
    store.instance.principal_supplied = Some(value);
}

pub fn get_principal_supplied(store: &Storage) -> (r: i128)
    ensures
        r == store@.instance.principal_supplied_or_default(),
{
    store.instance.principal_supplied.unwrap_or(0)
}

/// Cap on one rebalance move; 0 means unlimited.
pub fn set_max_rebalance_amount(store: &mut Storage, value: i128)
    ensures
        final(store)@ == (StorageView {
            instance: Instance { max_rebalance_amount: Some(value), ..old(store)@.instance },
            ..old(store)@
        }),
{
    store.instance.max_rebalance_amount = Some(value);
}

pub fn get_max_rebalance_amount(store: &Storage) -> (r: i128)
    ensures
        r == store@.instance.max_rebalance_amount_or_default(),
{
    store.instance.max_rebalance_amount.unwrap_or(0)
}

/// Dust floor of a rebalance move; 0 means no floor.
pub fn set_min_rebalance_amount(store: &mut Storage, value: i128)
    ensures
        final(store)@ == (StorageView {
            instance: Instance { min_rebalance_amount: Some(value), ..old(store)@.instance },
            ..old(store)@
        }),
{
    store.instance.min_rebalance_amount = Some(value);
}

pub fn get_min_rebalance_amount(store: &Storage) -> (r: i128)
    ensures
        r == store@.instance.min_rebalance_amount_or_default(),
{
    store.instance.min_rebalance_amount.unwrap_or(0)
}

pub fn set_paused(store: &mut Storage, value: bool)
    ensures
        final(store)@ == (StorageView {
            instance: Instance { paused: Some(value), ..old(store)@.instance },
            ..old(store)@
        }),
{
    store.instance.paused = Some(value);
}

pub fn get_paused(store: &Storage) -> (r: bool)
    ensures
        r == store@.instance.paused_or_default(),
{
    store.instance.paused.unwrap_or(false)
}

/// Set or clear the address that was proposed as the next admin.
pub fn set_pending_admin(store: &mut Storage, value: Option<Address>)
    ensures
        final(store)@ == (StorageView {
            instance: Instance { pending_admin: value, ..old(store)@.instance },
            ..old(store)@
        }),
{
    store.instance.pending_admin = value;
}

pub fn get_pending_admin(store: &Storage) -> (r: Option<Address>)
    ensures
        r == store@.instance.pending_admin,
{
    store.instance.pending_admin
}

pub fn set_version(store: &mut Storage, v: String)
    ensures
        final(store)@ == (StorageView { version: Some(v@), ..old(store)@ }),
{
    store.version = Some(v);
}

pub fn get_version(store: &Storage) -> (r: String)
    requires
        store@.version is Some,
    ensures
        Some(r@) == store@.version,
{
    match &store.version {
        Some(v) => v.clone(),
        None => String::new(),
    }
}

/// Whether `event_id` was handled before.
pub fn is_event_seen(store: &Storage, event_id: EventId) -> (r: bool)
    ensures
        r == store@.seen.contains(event_id),
{
    let mut i: usize = 0;
    while i < store.seen.len()
        invariant
            i <= store.seen.len(),
            forall|j: int| 0 <= j < i ==> store.seen@[j] != event_id,
        decreases store.seen.len() - i,
    {
        if store.seen[i] == event_id {
            assert(store.seen@.contains(event_id));
            return true;
        }
        i = i + 1;
    }
    assert(!store.seen@.contains(event_id));
    false
}

/// Remember that `event_id` was handled.
pub fn mark_event_seen(store: &mut Storage, event_id: EventId)
    ensures
        final(store)@ == (StorageView {
            seen: old(store)@.seen.insert(event_id),
            ..old(store)@
        }),
{
    proof {
        store.seen@.lemma_push_to_set_commute(event_id);
    }
    store.seen.push(event_id);
}

/// An entry that was never set reads as 0, or as false; one that was set reads as
/// what was set, and as nothing else.
pub proof fn law_defaults(i: Instance)
    ensures
        i.last_rebalance_ts is None ==> i.last_rebalance_ts_or_default() == 0,
        i.last_rebalance_ts matches Some(t) ==> i.last_rebalance_ts_or_default() == t,
        i.last_harvest_ts is None ==> i.last_harvest_ts_or_default() == 0,
        i.last_harvest_ts matches Some(t) ==> i.last_harvest_ts_or_default() == t,
        i.principal_supplied is None ==> i.principal_supplied_or_default() == 0,
        i.principal_supplied matches Some(p) ==> i.principal_supplied_or_default() == p,
        i.max_rebalance_amount is None ==> i.max_rebalance_amount_or_default() == 0,
        i.max_rebalance_amount matches Some(a) ==> i.max_rebalance_amount_or_default() == a,
        i.min_rebalance_amount is None ==> i.min_rebalance_amount_or_default() == 0,
        i.min_rebalance_amount matches Some(a) ==> i.min_rebalance_amount_or_default() == a,
        i.paused_or_default() <==> i.paused == Some(true),
{
}

/// A handler is initialized as soon as the twelve entries of the constructor are
/// there, whatever they are, and its knobs are in range exactly if the reserve
/// token is odd, the target lies strictly between none and all, the band is
/// narrower than all, and no limit is negative.
pub proof fn law_what_storage_needs(i: Instance)
    ensures
        i.initialized() <==> i.admin is Some && i.verification_contract is Some && i.blended_pool
            is Some && i.blend_pool is Some && i.usdc is Some && i.xlm is Some && i.blnd_treasury
            is Some && i.usdc_reserve_token_id is Some && i.target_ratio_bps is Some
            && i.rebalance_band_bps is Some && i.min_total_usdc is Some
            && i.rebalance_cooldown_secs is Some,
        i.config_in_range() <==> (i.usdc_reserve_token_id is None || i.usdc_reserve_token_id->0 % 2
            == 1) && (i.target_ratio_bps is None || 0 < i.target_ratio_bps->0 < 10_000) && (
        i.rebalance_band_bps is None || i.rebalance_band_bps->0 < 10_000) && (i.min_total_usdc
            is None || i.min_total_usdc->0 >= 0) && (i.max_rebalance_amount is None
            || i.max_rebalance_amount->0 >= 0) && (i.min_rebalance_amount is None
            || i.min_rebalance_amount->0 >= 0),
{
}

/// Storage is seen as what it holds: its entries, the text of the version, and
/// every event id that was marked, and no other.
pub proof fn law_storage_view(store: Storage, id: EventId)
    ensures
        store@.instance == store.instance,
        store.version is None ==> store@.version is None,
        store.version matches Some(v) ==> store@.version == Some(v@),
        store@.seen.contains(id) <==> exists|j: int|
            0 <= j < store.seen@.len() && #[trigger] store.seen@[j] == id,
{
    if store@.seen.contains(id) {
        assert(store.seen@.contains(id));
    }
    if exists|j: int| 0 <= j < store.seen@.len() && #[trigger] store.seen@[j] == id {
        let j = choose|j: int| 0 <= j < store.seen@.len() && #[trigger] store.seen@[j] == id;
        assert(store.seen@.contains(store.seen@[j]));
    }
}

} // verus!
