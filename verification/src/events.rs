//! Contract events that the handler emits.
//!
//! `Verified` follows every accepted envelope; the others carry what a
//! monitoring dashboard or an LP-facing display needs.
use crate::primitives::{Address, EventId};
use vstd::prelude::*;

verus! {

/// The short symbols that the handler writes into its events.
#[derive(Clone, Copy, Debug, PartialEq, Eq, Structural)]
pub enum Symbol {
    ToBlend,
    FromBlend,
    MaxRebalance,
    MinRebalance,
    Target,
    Band,
    MinTotal,
    Cooldown,
    Treasury,
    UsdcId,
}

/// `direction` value used by `RebalanceExecuted` when the handler supplies USDC
/// to Blend (pool over-liquid: park the excess).
pub const DIRECTION_TO_BLEND: Symbol = Symbol::ToBlend;

/// `direction` value used by `RebalanceExecuted` when the handler pulls USDC
/// back from Blend into the pool (pool under-liquid: top up).
pub const DIRECTION_FROM_BLEND: Symbol = Symbol::FromBlend;

impl Symbol {
    pub open spec fn text(self) -> Seq<char> {
        match self {
            Symbol::ToBlend => "to_blend"@,
            Symbol::FromBlend => "frm_blnd"@,
            Symbol::MaxRebalance => "max_reb"@,
            Symbol::MinRebalance => "min_reb"@,
            Symbol::Target => "target"@,
            Symbol::Band => "band"@,
            Symbol::MinTotal => "min_tot"@,
            Symbol::Cooldown => "cooldown"@,
            Symbol::Treasury => "treasury"@,
            Symbol::UsdcId => "usdc_id"@,
        }
    }

    /// The symbol as it stands on the ledger.
    pub fn as_str(self) -> (r: &'static str)
        ensures
            r@ == self.text(),
    {
        match self {
            Symbol::ToBlend => "to_blend",
            Symbol::FromBlend => "frm_blnd",
            Symbol::MaxRebalance => "max_reb",
            Symbol::MinRebalance => "min_reb",
            Symbol::Target => "target",
            Symbol::Band => "band",
            Symbol::MinTotal => "min_tot",
            Symbol::Cooldown => "cooldown",
            Symbol::Treasury => "treasury",
            Symbol::UsdcId => "usdc_id",
        }
    }
}

/// Emitted when USDC moved between the pool and Blend.
#[derive(Clone, Copy, Debug, PartialEq, Eq, Structural)]
pub struct RebalanceExecuted {
    pub direction: Symbol,
    pub amount: i128,
    pub liquid_after: i128,
    pub delegated_after: i128,
    pub principal_after: i128,
}

impl RebalanceExecuted {
    pub fn new(
        direction: Symbol,
        amount: i128,
        liquid_after: i128,
        delegated_after: i128,
        principal_after: i128,
    ) -> (r: Self)
        ensures
            r == (RebalanceExecuted {
                direction,
                amount,
                liquid_after,
                delegated_after,
                principal_after,
            }),
    {
        Self { direction, amount, liquid_after, delegated_after, principal_after }
    }
}

/// Emitted at the end of every harvest.
#[derive(Clone, Copy, Debug, PartialEq, Eq, Structural)]
pub struct HarvestCompleted {
    pub interest_donated: i128,
    pub blnd_routed: i128,
    pub principal_after: i128,
}

impl HarvestCompleted {
    pub fn new(interest_donated: i128, blnd_routed: i128, principal_after: i128) -> (r: Self)
        ensures
            r == (HarvestCompleted { interest_donated, blnd_routed, principal_after }),
    {
        Self { interest_donated, blnd_routed, principal_after }
    }
}

/// Emitted when a harvest routed the emissions but Blend refused the withdraw.
#[derive(Clone, Copy, Debug, PartialEq, Eq, Structural)]
pub struct HarvestPartial {
    pub blnd_routed: i128,
}

impl HarvestPartial {
    pub fn new(blnd_routed: i128) -> (r: Self)
        ensures
            r == (HarvestPartial { blnd_routed }),
    {
        Self { blnd_routed }
    }
}

/// Emitted when Blend redeemed less than the recorded principal.
#[derive(Clone, Copy, Debug, PartialEq, Eq, Structural)]
pub struct BadDebtDetected {
    pub previous_principal: i128,
    pub redeemable: i128,
    pub shortfall: i128,
}

impl BadDebtDetected {
    pub fn new(previous_principal: i128, redeemable: i128, shortfall: i128) -> (r: Self)
        ensures
            r == (BadDebtDetected { previous_principal, redeemable, shortfall }),
    {
        Self { previous_principal, redeemable, shortfall }
    }
}

/// Emitted after any admin-mediated configuration change. `field` says which
/// knob changed; `value` carries the new value.
#[derive(Clone, Copy, Debug, PartialEq, Eq, Structural)]
pub struct ConfigUpdated {
    pub field: Symbol,
    pub value: i128,
}

impl ConfigUpdated {
    pub fn new(field: Symbol, value: i128) -> (r: Self)
        ensures
            r == (ConfigUpdated { field, value }),
    {
        Self { field, value }
    }
}

/// Emitted whenever the admin toggles the pause state.
#[derive(Clone, Copy, Debug, PartialEq, Eq, Structural)]
pub struct PauseToggled {
    pub paused: bool,
}

impl PauseToggled {
    pub fn new(paused: bool) -> (r: Self)
        ensures
            r == (PauseToggled { paused }),
    {
        Self { paused }
    }
}

/// Emitted at the end of every `emergency_unwind` call. `redeemed` is the
/// total USDC pulled out of Blend; `principal_before` is the value
/// `principal_supplied` had at call entry.
#[derive(Clone, Copy, Debug, PartialEq, Eq, Structural)]
pub struct EmergencyUnwound {
    pub redeemed: i128,
    pub principal_before: i128,
}

impl EmergencyUnwound {
    pub fn new(redeemed: i128, principal_before: i128) -> (r: Self)
        ensures
            r == (EmergencyUnwound { redeemed, principal_before }),
    {
        Self { redeemed, principal_before }
    }
}

/// Emitted when the admin changes an address-typed config field.
#[derive(Clone, Copy, Debug, PartialEq, Eq, Structural)]
pub struct AddressConfigUpdated {
    pub field: Symbol,
    pub value: Address,
}

impl AddressConfigUpdated {
    pub fn new(field: Symbol, value: Address) -> (r: Self)
        ensures
            r == (AddressConfigUpdated { field, value }),
    {
        Self { field, value }
    }
}

/// Every event that the handler can publish.
#[derive(Debug, PartialEq, Eq)]
pub enum Event {
    RebalanceExecuted(RebalanceExecuted),
    HarvestCompleted(HarvestCompleted),
    HarvestPartial(HarvestPartial),
    BadDebtDetected(BadDebtDetected),
    ConfigUpdated(ConfigUpdated),
    AddressConfigUpdated(AddressConfigUpdated),
    PauseToggled(PauseToggled),
    EmergencyUnwound(EmergencyUnwound),
    Verified { event_id: EventId },
    AdminProposed { old_admin: Address, new_admin: Address },
    AdminAccepted { new_admin: Address },
    ContractUpgraded { version: String },
}

/// The symbols as they stand on the ledger.
pub proof fn law_symbols()
    ensures
        Symbol::ToBlend.text() == "to_blend"@,
        Symbol::FromBlend.text() == "frm_blnd"@,
        Symbol::MaxRebalance.text() == "max_reb"@,
        Symbol::MinRebalance.text() == "min_reb"@,
        Symbol::Target.text() == "target"@,
        Symbol::Band.text() == "band"@,
        Symbol::MinTotal.text() == "min_tot"@,
        Symbol::Cooldown.text() == "cooldown"@,
        Symbol::Treasury.text() == "treasury"@,
        Symbol::UsdcId.text() == "usdc_id"@,
        DIRECTION_TO_BLEND is ToBlend,
        DIRECTION_FROM_BLEND is FromBlend,
{
}

} // verus!
