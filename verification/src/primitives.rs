//! Fixed-size byte strings and ledger addresses.
use vstd::prelude::*;

verus! {

/// A 20-byte event id, read as a big-endian number.
#[derive(Clone, Copy, Debug, PartialEq, Eq, Structural)]
pub struct EventId {
    pub hi: u32,
    pub lo: u128,
}

/// A 12-byte ordering tag, read as a big-endian number.
#[derive(Clone, Copy, Debug, PartialEq, Eq, Structural)]
pub struct OrderingTag {
    pub hi: u32,
    pub lo: u64,
}

/// 32 bytes, read as a big-endian number: a public key, a wasm hash, the body
/// of an address.
#[derive(Clone, Copy, Debug, PartialEq, Eq, Structural)]
pub struct Bytes32 {
    pub hi: u128,
    pub lo: u128,
}

/// 64 bytes: an ed25519 signature.
#[derive(Clone, Copy, Debug, PartialEq, Eq, Structural)]
pub struct Bytes64 {
    pub hi: Bytes32,
    pub lo: Bytes32,
}

#[derive(Clone, Copy, Debug, PartialEq, Eq, Structural)]
pub enum AddressKind {
    Account,
    Contract,
}

/// A ledger address: an account or a contract.
#[derive(Clone, Copy, Debug, PartialEq, Eq, Structural)]
pub struct Address {
    pub kind: AddressKind,
    pub id: Bytes32,
}

impl Bytes32 {
    /// The 32 bytes as one number.
    pub open spec fn value(self) -> int {
        self.hi * 0x1_0000_0000_0000_0000_0000_0000_0000_0000int + self.lo
    }
}

impl Address {
    /// The ledger's order on addresses: accounts come before contracts, and
    /// within a kind the bytes decide, most significant first.
    pub open spec fn sorts_before(self, other: Address) -> bool {
        if self.kind == other.kind {
            self.id.value() < other.id.value()
        } else {
            self.kind == AddressKind::Account
        }
    }

    /// Whether this address sorts before `other`. The blended pool calls its
    /// smaller token A and the other one B.
    pub fn precedes(&self, other: &Address) -> (r: bool)
        ensures
            r == self.sorts_before(*other),
    {
        match (self.kind, other.kind) {
            (AddressKind::Account, AddressKind::Contract) => true,
            (AddressKind::Contract, AddressKind::Account) => false,
            _ => self.id.hi < other.id.hi || (self.id.hi == other.id.hi && self.id.lo
                < other.id.lo),
        }
    }
}

/// Accounts come before contracts; of two addresses of a kind the one with the
/// smaller upper half comes first, or with the same upper half the one with the
/// smaller lower half. No address comes before itself, and of two different ones
/// exactly one comes before the other.
pub proof fn law_addresses_are_ordered(a: Address, b: Address)
    ensures
        a.sorts_before(b) <==> a.kind is Account && b.kind is Contract || a.kind == b.kind && (
        a.id.hi < b.id.hi || a.id.hi == b.id.hi && a.id.lo < b.id.lo),
        a == b ==> !a.sorts_before(b),
        a != b ==> (a.sorts_before(b) <==> !b.sorts_before(a)),
{
}

/// Whether `addr` is one of `auths`, the addresses that authorized the
/// invocation.
pub fn has_authorized(auths: &[Address], addr: Address) -> (r: bool)
    ensures
        r == auths@.contains(addr),
{
    let mut i: usize = 0;
    while i < auths.len()
        invariant
            i <= auths.len(),
            forall|j: int| 0 <= j < i ==> auths@[j] != addr,
        decreases auths.len() - i,
    {
        if auths[i] == addr {
            return true;
        }
        i = i + 1;
    }
    false
}

} // verus!
