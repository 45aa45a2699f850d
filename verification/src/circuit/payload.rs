//! The payload of a tick.
use crate::envelope;
use crate::execution::RebalanceAction;
use crate::xdr;
use crate::xdr::{KIND_SYMBOL, KIND_VEC};
use stellar_xdr::curr::{Limits, ScSymbol, ScVal, ScVec, StringM, VecM, WriteXdr};
use vstd::prelude::*;
use vstd::string::*;

verus! {

/// Errors of `stellar_xdr`.
#[verifier::external_type_specification]
#[verifier::external_body]
pub struct ExXdrError(stellar_xdr::curr::Error);

/// Which action of the handler a tick triggers. Neither carries data: the
/// handler decides direction and amount against the pool's own state.
#[derive(Clone, Copy, Debug, PartialEq, Eq, Structural)]
pub enum Direction {
    Rebalance,
    HarvestYield,
}

/// Why a payload could not be written.
#[derive(Clone, Copy, Debug, PartialEq, Eq, Structural)]
pub enum EncodeError {
    /// The tag is longer than a symbol can be.
    SymbolTooLong,
}

impl Direction {
    /// The action that the handler reads out of the payload.
    pub open spec fn action(self) -> RebalanceAction {
        match self {
            Direction::Rebalance => RebalanceAction::Rebalance,
            Direction::HarvestYield => RebalanceAction::HarvestYield,
        }
    }

    /// The variant's name on the wire.
    pub fn tag(self) -> (r: &'static str)
        ensures
            r@ == self.action().name(),
    {
        match self {
            Direction::Rebalance => "Rebalance",
            Direction::HarvestYield => "HarvestYield",
        }
    }
}

/// Encode, with `ScVal::to_xdr` of `stellar_xdr`, the ledger value that stands
/// for an enum variant without fields: a vector of one symbol.
///
/// Believed of that crate: a symbol takes a text of up to 32 bytes and no
/// longer one, and without limits the value is written as the kind of a vector,
/// the mark that it is present, its length, and the symbol's kind, length,
/// bytes and padding.
#[verifier::external_body]
fn unit_variant_to_xdr(tag: &str) -> (r: Result<Vec<u8>, stellar_xdr::curr::Error>)
    ensures
        r is Ok <==> tag.spec_bytes().len() <= 32,
        r matches Ok(bytes) ==> bytes@ == xdr::be32(KIND_VEC as nat) + xdr::be32(1) + xdr::be32(1)
            + xdr::opaque_xdr(KIND_SYMBOL, tag.spec_bytes()),
{
    let name: StringM<32> = tag.as_bytes().try_into()?;
    let elements: VecM<ScVal> = vec![ScVal::Symbol(ScSymbol(name))].try_into()?;
    ScVal::Vec(Some(ScVec(elements))).to_xdr(Limits::none())
}

/// The bytes from which the handler reads the action back.
pub fn encode(direction: Direction) -> (r: Result<Vec<u8>, EncodeError>)
    ensures
        r matches Ok(bytes) && bytes@ == xdr::unit_variant_xdr(direction.action().name())
            && envelope::action_of(bytes@) == Some(direction.action()),
{
    let tag = direction.tag();
    proof {
        reveal_strlit("Rebalance");
        reveal_strlit("HarvestYield");
        assert(tag.is_ascii());
        is_ascii_spec_bytes(tag);
        assert(tag.spec_bytes() =~= xdr::ascii(tag@));
        envelope::lemma_action_round_trip(direction.action());
    }
    match unit_variant_to_xdr(tag) {
        Ok(bytes) => Ok(bytes),
        Err(_) => Err(EncodeError::SymbolTooLong),
    }
}

/// Each direction stands for the action of its name, under which it is written.
pub proof fn law_directions()
    ensures
        Direction::Rebalance.action() is Rebalance,
        Direction::HarvestYield.action() is HarvestYield,
        RebalanceAction::Rebalance.name() == "Rebalance"@,
        RebalanceAction::HarvestYield.name() == "HarvestYield"@,
{
}

} // verus!
