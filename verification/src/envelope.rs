//! What the quorum signs: envelopes, and the actions inside them.
use crate::execution::RebalanceAction;
use crate::primitives::{Bytes32, Bytes64, EventId, OrderingTag};
use crate::xdr;
use crate::xdr::{KIND_BYTES, KIND_MAP};
use vstd::prelude::*;

verus! {

/// The signatures that come with an envelope, one per signer.
#[derive(Debug, PartialEq, Eq)]
pub struct Ed25519SignatureData {
    pub signers: Vec<Bytes32>,
    pub signatures: Vec<Bytes64>,
    /// The ledger at which the signer set is looked up.
    pub reference_block: u32,
}

/// A signed message: which event it is about, and what to do.
#[derive(Debug, PartialEq, Eq)]
pub struct XlmEnvelope {
    pub event_id: EventId,
    pub ordering: OrderingTag,
    pub payload: Vec<u8>,
}

/// What an [`XlmEnvelope`] says.
#[verifier::ext_equal]
pub struct XlmEnvelopeView {
    pub event_id: EventId,
    pub ordering: OrderingTag,
    pub payload: Seq<u8>,
}

impl View for XlmEnvelope {
    type V = XlmEnvelopeView;

    open spec fn view(&self) -> XlmEnvelopeView {
        XlmEnvelopeView {
            event_id: self.event_id,
            ordering: self.ordering,
            payload: self.payload@,
        }
    }
}

impl EventId {
    /// The 20 bytes of the id.
    pub open spec fn bytes(self) -> Seq<u8> {
        xdr::be_bytes(self.hi as nat, 4) + xdr::be_bytes(self.lo as nat, 16)
    }
}

impl OrderingTag {
    /// The 12 bytes of the tag.
    pub open spec fn bytes(self) -> Seq<u8> {
        xdr::be_bytes(self.hi as nat, 4) + xdr::be_bytes(self.lo as nat, 8)
    }
}

/// An envelope on the wire: a map, present, with its three fields in the order
/// of their names.
pub open spec fn envelope_xdr(e: XlmEnvelopeView) -> Seq<u8> {
    xdr::be32(KIND_MAP as nat) + xdr::be32(1) + xdr::be32(3) + xdr::symbol_xdr("event_id"@)
        + xdr::bytes_xdr(e.event_id.bytes()) + xdr::symbol_xdr("ordering"@) + xdr::bytes_xdr(
        e.ordering.bytes(),
    ) + xdr::symbol_xdr("payload"@) + xdr::bytes_xdr(e.payload)
}

/// `bytes` is the envelope `e`. The length of a payload has to fit in the four
/// bytes that announce it.
pub open spec fn is_envelope(bytes: Seq<u8>, e: XlmEnvelopeView) -> bool {
    bytes == envelope_xdr(e) && e.payload.len() <= u32::MAX
}

/// The envelope that `bytes` is, if it is one.
pub open spec fn envelope_of(bytes: Seq<u8>) -> Option<XlmEnvelopeView> {
    if exists|e: XlmEnvelopeView| is_envelope(bytes, e) {
        Some(choose|e: XlmEnvelopeView| is_envelope(bytes, e))
    } else {
        None
    }
}

/// The fields of an envelope stand at fixed places.
proof fn lemma_envelope_layout(e: XlmEnvelopeView)
    ensures
        envelope_xdr(e).len() == 116 + e.payload.len() + xdr::padding(e.payload.len()).len(),
        envelope_xdr(e).subrange(36, 56) == e.event_id.bytes(),
        envelope_xdr(e).subrange(80, 92) == e.ordering.bytes(),
        envelope_xdr(e).subrange(112, 116) == xdr::be32(e.payload.len()),
        envelope_xdr(e).subrange(116, 116int + e.payload.len()) == e.payload,
{
    reveal_strlit("event_id");
    reveal_strlit("ordering");
    reveal_strlit("payload");
    xdr::lemma_be_bytes_len(KIND_MAP as nat, 4);
    xdr::lemma_be_bytes_len(1, 4);
    xdr::lemma_be_bytes_len(3, 4);
    xdr::lemma_be_bytes_len(xdr::KIND_SYMBOL as nat, 4);
    xdr::lemma_be_bytes_len(KIND_BYTES as nat, 4);
    xdr::lemma_be_bytes_len(7, 4);
    xdr::lemma_be_bytes_len(8, 4);
    xdr::lemma_be_bytes_len(12, 4);
    xdr::lemma_be_bytes_len(20, 4);
    xdr::lemma_be_bytes_len(e.payload.len(), 4);
    xdr::lemma_be_bytes_len(e.event_id.hi as nat, 4);
    xdr::lemma_be_bytes_len(e.event_id.lo as nat, 16);
    xdr::lemma_be_bytes_len(e.ordering.hi as nat, 4);
    xdr::lemma_be_bytes_len(e.ordering.lo as nat, 8);
    let b = envelope_xdr(e);
    assert(b.subrange(36, 56) =~= e.event_id.bytes());
    assert(b.subrange(80, 92) =~= e.ordering.bytes());
    assert(b.subrange(112, 116) =~= xdr::be32(e.payload.len()));
    assert(b.subrange(116, 116int + e.payload.len()) =~= e.payload);
}

/// What the fixed places of an envelope hold determines its fields.
proof fn lemma_envelope_fields(bytes: Seq<u8>, e: XlmEnvelopeView)
    requires
        is_envelope(bytes, e),
    ensures
        116 <= bytes.len(),
        116 + e.payload.len() <= bytes.len(),
        e.event_id.hi == xdr::be_value(bytes.subrange(36, 40)),
        e.event_id.lo == xdr::be_value(bytes.subrange(40, 56)),
        e.ordering.hi == xdr::be_value(bytes.subrange(80, 84)),
        e.ordering.lo == xdr::be_value(bytes.subrange(84, 92)),
        e.payload.len() == xdr::be_value(bytes.subrange(112, 116)),
        e.payload == bytes.subrange(116, 116int + e.payload.len()),
{
    lemma_envelope_layout(e);
    xdr::lemma_pow256_values();
    xdr::lemma_be_bytes_len(e.event_id.hi as nat, 4);
    xdr::lemma_be_bytes_len(e.event_id.lo as nat, 16);
    xdr::lemma_be_bytes_len(e.ordering.hi as nat, 4);
    xdr::lemma_be_bytes_len(e.ordering.lo as nat, 8);
    assert(bytes.subrange(36, 40) =~= bytes.subrange(36, 56).subrange(0, 4));
    assert(bytes.subrange(36, 40) =~= xdr::be_bytes(e.event_id.hi as nat, 4));
    assert(bytes.subrange(40, 56) =~= bytes.subrange(36, 56).subrange(4, 20));
    assert(bytes.subrange(40, 56) =~= xdr::be_bytes(e.event_id.lo as nat, 16));
    assert(bytes.subrange(80, 84) =~= bytes.subrange(80, 92).subrange(0, 4));
    assert(bytes.subrange(80, 84) =~= xdr::be_bytes(e.ordering.hi as nat, 4));
    assert(bytes.subrange(84, 92) =~= bytes.subrange(80, 92).subrange(4, 12));
    assert(bytes.subrange(84, 92) =~= xdr::be_bytes(e.ordering.lo as nat, 8));
    xdr::lemma_be_value_of_bytes(e.event_id.hi as nat, 4);
    xdr::lemma_be_value_of_bytes(e.event_id.lo as nat, 16);
    xdr::lemma_be_value_of_bytes(e.ordering.hi as nat, 4);
    xdr::lemma_be_value_of_bytes(e.ordering.lo as nat, 8);
    xdr::lemma_be_value_of_bytes(e.payload.len(), 4);
}

/// Reading undoes writing: the bytes of an envelope are read as this envelope,
/// and as no other.
pub proof fn lemma_envelope_round_trip(e: XlmEnvelopeView)
    requires
        e.payload.len() <= u32::MAX,
    ensures
        envelope_of(envelope_xdr(e)) == Some(e),
{
    let bytes = envelope_xdr(e);
    assert(is_envelope(bytes, e));
    let other = choose|o: XlmEnvelopeView| is_envelope(bytes, o);
    lemma_envelope_fields(bytes, e);
    lemma_envelope_fields(bytes, other);
    assert(other =~= e);
}

impl XlmEnvelope {
    /// The envelope on the wire.
    pub fn encode(&self) -> (r: Vec<u8>)
        requires
            self@.payload.len() <= u32::MAX,
        ensures
            r@ == envelope_xdr(self@),
            envelope_of(r@) == Some(self@),
    {
        proof {
            reveal_strlit("event_id");
            reveal_strlit("ordering");
            reveal_strlit("payload");
            lemma_envelope_round_trip(self@);
        }
        let mut event_id: Vec<u8> = Vec::new();
        xdr::push_be(&mut event_id, self.event_id.hi as u128, 4);
        xdr::push_be(&mut event_id, self.event_id.lo, 16);
        let mut ordering: Vec<u8> = Vec::new();
        xdr::push_be(&mut ordering, self.ordering.hi as u128, 4);
        xdr::push_be(&mut ordering, self.ordering.lo as u128, 8);
        let mut out: Vec<u8> = Vec::new();
        xdr::push_be(&mut out, KIND_MAP as u128, 4);
        xdr::push_be(&mut out, 1, 4);
        xdr::push_be(&mut out, 3, 4);
        xdr::push_symbol(&mut out, "event_id");
        xdr::push_opaque(&mut out, KIND_BYTES, event_id.as_slice());
        xdr::push_symbol(&mut out, "ordering");
        xdr::push_opaque(&mut out, KIND_BYTES, ordering.as_slice());
        xdr::push_symbol(&mut out, "payload");
        xdr::push_opaque(&mut out, KIND_BYTES, self.payload.as_slice());
        assert(event_id@ =~= self.event_id.bytes());
        assert(ordering@ =~= self.ordering.bytes());
        assert(out@ =~= envelope_xdr(self@));
        out
    }

    /// Read an envelope. The fields are taken from their places, and the result
    /// stands only if writing it gives the same bytes again.
    pub fn from_xdr(bytes: &[u8]) -> (r: Option<XlmEnvelope>)
        ensures
            match r {
                Some(e) => envelope_of(bytes@) == Some(e@),
                None => envelope_of(bytes@) is None,
            },
    {
        proof {
            if let Some(e) = envelope_of(bytes@) {
                lemma_envelope_fields(bytes@, e);
            }
        }
        if bytes.len() < 116 {
            return None;
        }
        proof {
            xdr::lemma_pow256_values();
            xdr::lemma_be_value_bound(bytes@.subrange(36, 40));
            xdr::lemma_be_value_bound(bytes@.subrange(40, 56));
            xdr::lemma_be_value_bound(bytes@.subrange(80, 84));
            xdr::lemma_be_value_bound(bytes@.subrange(84, 92));
            xdr::lemma_be_value_bound(bytes@.subrange(112, 116));
        }
        let len: u32 = xdr::read_be(bytes, 112, 4) as u32;
        if bytes.len() - 116 < len as usize {
            return None;
        }
        let mut payload: Vec<u8> = Vec::new();
        let mut i: usize = 0;
        while i < len as usize
            invariant
                i <= len,
                116 + len <= bytes.len(),
                payload@ == bytes@.subrange(116, 116 + i),
            decreases len - i,
        {
            payload.push(bytes[116 + i]);
            i = i + 1;
            assert(payload@ =~= bytes@.subrange(116, 116 + i));
        }
        let e = XlmEnvelope {
            event_id: EventId {
                hi: xdr::read_be(bytes, 36, 4) as u32,
                lo: xdr::read_be(bytes, 40, 16),
            },
            ordering: OrderingTag {
                hi: xdr::read_be(bytes, 80, 4) as u32,
                lo: xdr::read_be(bytes, 84, 8) as u64,
            },
            payload,
        };
        proof {
            if let Some(o) = envelope_of(bytes@) {
                assert(o =~= e@);
            }
        }
        let again = e.encode();
        if xdr::same_bytes(again.as_slice(), bytes) {
            Some(e)
        } else {
            None
        }
    }
}

impl RebalanceAction {
    /// The name of the variant.
    pub open spec fn name(self) -> Seq<char> {
        match self {
            RebalanceAction::Rebalance => "Rebalance"@,
            RebalanceAction::HarvestYield => "HarvestYield"@,
        }
    }

    /// Read an action.
    pub fn from_xdr(payload: &[u8]) -> (r: Option<RebalanceAction>)
        ensures
            r == action_of(payload@),
    {
        proof {
            reveal_strlit("Rebalance");
            reveal_strlit("HarvestYield");
        }
        let mut rebalance: Vec<u8> = Vec::new();
        xdr::push_unit_variant(&mut rebalance, "Rebalance");
        assert(rebalance@ =~= xdr::unit_variant_xdr("Rebalance"@));
        let mut harvest: Vec<u8> = Vec::new();
        xdr::push_unit_variant(&mut harvest, "HarvestYield");
        assert(harvest@ =~= xdr::unit_variant_xdr("HarvestYield"@));
        if xdr::same_bytes(payload, rebalance.as_slice()) {
            Some(RebalanceAction::Rebalance)
        } else if xdr::same_bytes(payload, harvest.as_slice()) {
            Some(RebalanceAction::HarvestYield)
        } else {
            None
        }
    }
}

/// The action that `payload` is, if it is one.
pub open spec fn action_of(payload: Seq<u8>) -> Option<RebalanceAction> {
    if payload == xdr::unit_variant_xdr(RebalanceAction::Rebalance.name()) {
        Some(RebalanceAction::Rebalance)
    } else if payload == xdr::unit_variant_xdr(RebalanceAction::HarvestYield.name()) {
        Some(RebalanceAction::HarvestYield)
    } else {
        None
    }
}

/// The bytes of an action are read as this action.
pub proof fn lemma_action_round_trip(action: RebalanceAction)
    ensures
        action_of(xdr::unit_variant_xdr(action.name())) == Some(action),
{
    reveal_strlit("Rebalance");
    reveal_strlit("HarvestYield");
    xdr::lemma_be_bytes_len(xdr::KIND_VEC as nat, 4);
    xdr::lemma_be_bytes_len(1, 4);
    xdr::lemma_be_bytes_len(xdr::KIND_SYMBOL as nat, 4);
    xdr::lemma_be_bytes_len(9, 4);
    xdr::lemma_be_bytes_len(12, 4);
    let rebalance = xdr::unit_variant_xdr("Rebalance"@);
    let harvest = xdr::unit_variant_xdr("HarvestYield"@);
    assert(xdr::be32(9)[3] == 9);
    assert(xdr::be32(12)[3] == 12);
    assert(rebalance[19] == xdr::be32(9)[3]);
    assert(harvest[19] == xdr::be32(12)[3]);
}

/// An envelope on the wire, byte by byte: a map of three entries, each a symbol
/// and a byte string. The 20 bytes of the event id are four of its upper part and
/// sixteen of its lower part, the 12 bytes of the ordering four and eight.
#[verifier::rlimit(40)]
pub proof fn law_envelope_bytes(e: XlmEnvelopeView)
    ensures
        envelope_xdr(e) == seq![
            0u8, 0, 0, 17, 0, 0, 0, 1, 0, 0, 0, 3, 0, 0, 0, 15, 0, 0, 0, 8, 101, 118, 101,
            110, 116, 95, 105, 100, 0, 0, 0, 13, 0, 0, 0, 20,
        ] + xdr::be_bytes(e.event_id.hi as nat, 4) + xdr::be_bytes(e.event_id.lo as nat, 16) + seq![
            0u8, 0, 0, 15, 0, 0, 0, 8, 111, 114, 100, 101, 114, 105, 110, 103, 0, 0, 0, 13,
            0, 0, 0, 12,
        ] + xdr::be_bytes(e.ordering.hi as nat, 4) + xdr::be_bytes(e.ordering.lo as nat, 8) + seq![
            0u8, 0, 0, 15, 0, 0, 0, 7, 112, 97, 121, 108, 111, 97, 100, 0, 0, 0, 0, 13,
        ] + xdr::be_bytes(e.payload.len(), 4) + e.payload + Seq::new(
            ((4 - e.payload.len() % 4) % 4) as nat,
            |j: int| 0u8,
        ),
{
    reveal_strlit("event_id");
    reveal_strlit("ordering");
    reveal_strlit("payload");
    xdr::law_small_numbers(17);
    xdr::law_small_numbers(1);
    xdr::law_small_numbers(3);
    xdr::law_small_numbers(15);
    xdr::law_small_numbers(13);
    xdr::law_small_numbers(8);
    xdr::law_small_numbers(7);
    xdr::law_small_numbers(20);
    xdr::law_small_numbers(12);
    xdr::lemma_be_bytes_len(e.event_id.hi as nat, 4);
    xdr::lemma_be_bytes_len(e.event_id.lo as nat, 16);
    xdr::lemma_be_bytes_len(e.ordering.hi as nat, 4);
    xdr::lemma_be_bytes_len(e.ordering.lo as nat, 8);
    xdr::lemma_be_bytes_len(e.payload.len(), 4);
    assert(envelope_xdr(e) =~= seq![
        0u8, 0, 0, 17, 0, 0, 0, 1, 0, 0, 0, 3, 0, 0, 0, 15, 0, 0, 0, 8, 101, 118, 101,
        110, 116, 95, 105, 100, 0, 0, 0, 13, 0, 0, 0, 20,
    ] + xdr::be_bytes(e.event_id.hi as nat, 4) + xdr::be_bytes(e.event_id.lo as nat, 16) + seq![
        0u8, 0, 0, 15, 0, 0, 0, 8, 111, 114, 100, 101, 114, 105, 110, 103, 0, 0, 0, 13,
        0, 0, 0, 12,
    ] + xdr::be_bytes(e.ordering.hi as nat, 4) + xdr::be_bytes(e.ordering.lo as nat, 8) + seq![
        0u8, 0, 0, 15, 0, 0, 0, 7, 112, 97, 121, 108, 111, 97, 100, 0, 0, 0, 0, 13,
    ] + xdr::be_bytes(e.payload.len(), 4) + e.payload + Seq::new(
        ((4 - e.payload.len() % 4) % 4) as nat,
        |j: int| 0u8,
    ));
}

/// Bytes are read as an envelope exactly if they are what writing it gives, and
/// every envelope can be written whose payload has a length of four digits. So no
/// bytes are two envelopes, and nothing may stand before or behind one.
pub proof fn law_envelopes_are_read_as_written(bytes: Seq<u8>, e: XlmEnvelopeView)
    ensures
        envelope_of(bytes) == Some(e) <==> bytes == envelope_xdr(e) && e.payload.len()
            < 0x1_0000_0000,
        envelope_of(bytes) is None ==> bytes != envelope_xdr(e) || e.payload.len()
            >= 0x1_0000_0000,
{
    if bytes == envelope_xdr(e) && e.payload.len() < 0x1_0000_0000 {
        lemma_envelope_round_trip(e);
    }
    if envelope_of(bytes) == Some(e) {
        assert(is_envelope(bytes, e));
    }
}

/// There are two actions, each of which is read from exactly one payload.
pub proof fn law_action_bytes(payload: Seq<u8>)
    ensures
        action_of(payload) == Some(RebalanceAction::Rebalance) <==> payload == seq![
            0u8, 0, 0, 16, 0, 0, 0, 1, 0, 0, 0, 1, 0, 0, 0, 15, 0, 0, 0, 9, 82, 101, 98,
            97, 108, 97, 110, 99, 101, 0, 0, 0,
        ],
        action_of(payload) == Some(RebalanceAction::HarvestYield) <==> payload == seq![
            0u8, 0, 0, 16, 0, 0, 0, 1, 0, 0, 0, 1, 0, 0, 0, 15, 0, 0, 0, 12, 72, 97, 114,
            118, 101, 115, 116, 89, 105, 101, 108, 100,
        ],
{
    reveal_strlit("Rebalance");
    reveal_strlit("HarvestYield");
    xdr::law_small_numbers(16);
    xdr::law_small_numbers(1);
    xdr::law_small_numbers(15);
    xdr::law_small_numbers(9);
    xdr::law_small_numbers(12);
    let rebalance = seq![
        0u8, 0, 0, 16, 0, 0, 0, 1, 0, 0, 0, 1, 0, 0, 0, 15, 0, 0, 0, 9, 82, 101, 98,
        97, 108, 97, 110, 99, 101, 0, 0, 0,
    ];
    let harvest = seq![
        0u8, 0, 0, 16, 0, 0, 0, 1, 0, 0, 0, 1, 0, 0, 0, 15, 0, 0, 0, 12, 72, 97, 114,
        118, 101, 115, 116, 89, 105, 101, 108, 100,
    ];
    assert(xdr::unit_variant_xdr("Rebalance"@) =~= rebalance);
    assert(xdr::unit_variant_xdr("HarvestYield"@) =~= harvest);
    assert(rebalance[19] != harvest[19]);
}

} // verus!
