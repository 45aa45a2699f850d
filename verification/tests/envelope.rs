//! Envelopes and addresses against the crates that the ledger uses.
use phoenix_blend_pool::envelope::XlmEnvelope;
use phoenix_blend_pool::primitives::{
    Address as PlainAddress, AddressKind, Bytes32, EventId, OrderingTag,
};
use soroban_sdk::{Address, Bytes, BytesN, Env};
use warpdrive_shared::interfaces::handler::XlmEnvelope as SharedEnvelope;

fn shared(event_id: [u8; 20], ordering: [u8; 12], payload: &[u8]) -> Vec<u8> {
    let env = Env::default();
    let envelope = SharedEnvelope {
        event_id: BytesN::from_array(&env, &event_id),
        ordering: BytesN::from_array(&env, &ordering),
        payload: Bytes::from_slice(&env, payload),
    };
    let bytes = soroban_sdk::xdr::ToXdr::to_xdr(envelope, &env);
    let mut out = Vec::new();
    for b in bytes.iter() {
        out.push(b);
    }
    out
}

fn sample(len: usize) -> (XlmEnvelope, Vec<u8>) {
    let mut id = [0u8; 20];
    for (i, b) in id.iter_mut().enumerate() {
        *b = 200 + i as u8;
    }
    let mut ordering = [0u8; 12];
    for (i, b) in ordering.iter_mut().enumerate() {
        *b = 3 * i as u8 + 1;
    }
    let payload: Vec<u8> = (0..len).map(|i| (i * 7) as u8).collect();
    let envelope = XlmEnvelope {
        event_id: EventId {
            hi: 0xc8c9_cacb,
            lo: 0xcccd_cecf_d0d1_d2d3_d4d5_d6d7_d8d9_dadb,
        },
        ordering: OrderingTag { hi: 0x0104_070a, lo: 0x0d10_1316_191c_1f22 },
        payload: payload.clone(),
    };
    let bytes = shared(id, ordering, &payload);
    (envelope, bytes)
}

#[test]
fn envelopes_are_written_like_the_shared_crate_does() {
    for len in [0usize, 1, 2, 3, 4, 32, 300] {
        let (envelope, bytes) = sample(len);
        assert_eq!(envelope.encode(), bytes);
    }
}

#[test]
fn envelopes_of_the_shared_crate_are_read() {
    for len in [0usize, 1, 2, 3, 4, 32, 300] {
        let (envelope, bytes) = sample(len);
        assert_eq!(XlmEnvelope::from_xdr(&bytes), Some(envelope));
    }
}

#[test]
fn anything_else_is_no_envelope() {
    let (_, bytes) = sample(5);
    assert_eq!(XlmEnvelope::from_xdr(&[]), None);
    assert_eq!(XlmEnvelope::from_xdr(&bytes[..bytes.len() - 1]), None);
    let mut longer = bytes.clone();
    longer.push(0);
    assert_eq!(XlmEnvelope::from_xdr(&longer), None);
    // Every byte outside the three values is fixed.
    for i in 0..bytes.len() {
        let mut other = bytes.clone();
        other[i] ^= 1;
        let in_value = (36..56).contains(&i) || (80..92).contains(&i) || (116..121).contains(&i);
        assert_eq!(XlmEnvelope::from_xdr(&other).is_some(), in_value, "byte {i}");
    }
}

fn ledger_address(env: &Env, address: &PlainAddress) -> Address {
    let mut id = [0u8; 32];
    id[..16].copy_from_slice(&address.id.hi.to_be_bytes());
    id[16..].copy_from_slice(&address.id.lo.to_be_bytes());
    let text = match address.kind {
        AddressKind::Account => {
            format!("{}", stellar_strkey::ed25519::PublicKey(id))
        }
        AddressKind::Contract => format!("{}", stellar_strkey::Contract(id)),
    };
    Address::from_str(env, &text)
}

#[test]
fn addresses_sort_like_on_the_ledger() {
    let env = Env::default();
    let mut plain = Vec::new();
    for kind in [AddressKind::Account, AddressKind::Contract] {
        for (hi, lo) in [(0, 1), (0, u128::MAX), (1, 0), (u128::MAX, 7), (1 << 127, 0)] {
            plain.push(PlainAddress { kind, id: Bytes32 { hi, lo } });
        }
    }
    for a in &plain {
        for b in &plain {
            let on_ledger = ledger_address(&env, a) < ledger_address(&env, b);
            assert_eq!(a.precedes(b), on_ledger, "{a:?} {b:?}");
        }
    }
}
