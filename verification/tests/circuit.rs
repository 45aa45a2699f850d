//! The circuit: payloads, topics, fields, triggers and marks.
use anyhow::Context;
use phoenix_blend_pool::circuit::payload::{self, Direction};
use phoenix_blend_pool::circuit::phoenix::{
    apply, decode_field, field_update, is_relevant_event, is_relevant_topic, try_finalize,
    EventError, FieldUpdate, LedgerValue, ReadError, SwapState, USDC_SAC_CONTRACT_ID,
};
use phoenix_blend_pool::circuit::state::{
    mark_if_unseen, TombstoneAction, TombstoneEvent, BUCKET, MARK,
};
use phoenix_blend_pool::circuit::{
    handle_pool_event, harvest_yield_response, respond_to_event, run_inner, CircuitError,
    StellarEvent, TriggerData, WasmResponse,
};
use phoenix_blend_pool::execution::RebalanceAction;
use std::error::Error;
use std::str::FromStr;
use stellar_xdr::curr::{
    Int128Parts, Limits, ReadXdr, ScAddress, ScString, ScSymbol, ScVal, StringM, WriteXdr,
};

/// Decode the encoded enum payload back into its tag Symbol. Both production
/// variants are unit, so we only ever expect a single-element ScVec.
fn decode_envelope_tag(bytes: &[u8]) -> String {
    let decoded = ScVal::from_xdr(bytes, Limits::none()).unwrap();
    let elements = match decoded {
        ScVal::Vec(Some(v)) => v.0.to_vec(),
        other => panic!("expected ScVec, got {other:?}"),
    };
    assert_eq!(
        elements.len(),
        1,
        "unit-variant payload must be exactly [tag]"
    );
    match &elements[0] {
        ScVal::Symbol(ScSymbol(s)) => s.to_string(),
        other => panic!("expected tag Symbol, got {other:?}"),
    }
}

#[test]
fn payload_encodes_rebalance_unit_variant() {
    let bytes = payload::encode(Direction::Rebalance).unwrap();
    assert_eq!(decode_envelope_tag(&bytes), "Rebalance");
}

#[test]
fn payload_encodes_harvest_yield_unit_variant() {
    let bytes = payload::encode(Direction::HarvestYield).unwrap();
    assert_eq!(decode_envelope_tag(&bytes), "HarvestYield");
}

#[test]
fn finalize_emits_when_usdc_sold_into_pool() {
    let mut s = SwapState::default();
    apply(&mut s, FieldUpdate::SellToken(USDC_SAC_CONTRACT_ID.into()));
    apply(&mut s, FieldUpdate::BuyToken("CXLM_PLACEHOLDER".into()));
    apply(&mut s, FieldUpdate::OfferAmount(1_000_0000000));
    assert!(!try_finalize(&s), "not finalized until both amounts arrive");
    apply(&mut s, FieldUpdate::ReturnAmount(2_500_0000000));
    assert!(try_finalize(&s));
}

#[test]
fn finalize_emits_when_usdc_bought_out_of_pool() {
    let mut s = SwapState::default();
    apply(&mut s, FieldUpdate::SellToken("CXLM_PLACEHOLDER".into()));
    apply(&mut s, FieldUpdate::BuyToken(USDC_SAC_CONTRACT_ID.into()));
    apply(&mut s, FieldUpdate::OfferAmount(2_500_0000000));
    apply(&mut s, FieldUpdate::ReturnAmount(1_000_0000000));
    assert!(try_finalize(&s));
}

#[test]
fn finalize_skips_non_usdc_swap() {
    // Defensive: if the trigger ever gets pointed at a non-USDC pool,
    // we shouldn't emit a Rebalance for it.
    let mut s = SwapState::default();
    apply(&mut s, FieldUpdate::SellToken("CFOO".into()));
    apply(&mut s, FieldUpdate::BuyToken("CBAR".into()));
    apply(&mut s, FieldUpdate::OfferAmount(100));
    apply(&mut s, FieldUpdate::ReturnAmount(99));
    assert!(!try_finalize(&s));
}

#[test]
fn finalize_skips_until_all_fields_present() {
    let mut s = SwapState::default();
    apply(&mut s, FieldUpdate::SellToken(USDC_SAC_CONTRACT_ID.into()));
    assert!(!try_finalize(&s));
    apply(&mut s, FieldUpdate::BuyToken("CXLM".into()));
    assert!(!try_finalize(&s));
    apply(&mut s, FieldUpdate::OfferAmount(1));
    assert!(!try_finalize(&s));
    apply(&mut s, FieldUpdate::ReturnAmount(1));
    assert!(try_finalize(&s));
}

#[test]
fn finalize_does_not_depend_on_amount_magnitude() {
    // Dust swaps still tick — handler decides whether the drift is large
    // enough to actually act, and applies the min_total_usdc floor too.
    let mut s = SwapState::default();
    apply(&mut s, FieldUpdate::SellToken(USDC_SAC_CONTRACT_ID.into()));
    apply(&mut s, FieldUpdate::BuyToken("CXLM".into()));
    apply(&mut s, FieldUpdate::OfferAmount(1));
    apply(&mut s, FieldUpdate::ReturnAmount(1));
    assert!(try_finalize(&s));
}

#[test]
fn decode_real_phoenix_event_shape_forward() {
    let xlm = "CAS3J7GYLGXMF6TDJBBYYSE3HQ6BBSMLNUQ34T6TZMYMW2EVH34XOWMA";
    let usdc = USDC_SAC_CONTRACT_ID;

    let events = [
        (string_topic("swap"), string_topic("sell_token"), addr_value(usdc)),
        (string_topic("swap"), string_topic("offer_amount"), i128_value(1_000_0000000)),
        (string_topic("swap"), string_topic("buy_token"), addr_value(xlm)),
        (string_topic("swap"), string_topic("return_amount"), i128_value(2_500_0000000)),
    ];

    let mut state = SwapState::default();
    for (t0, t1, v) in &events {
        let update = decode_field(&[t0.clone(), t1.clone()], v).unwrap();
        apply(&mut state, update);
    }

    assert!(try_finalize(&state));
}

#[test]
fn decode_real_phoenix_event_shape_reverse() {
    let xlm = "CAS3J7GYLGXMF6TDJBBYYSE3HQ6BBSMLNUQ34T6TZMYMW2EVH34XOWMA";
    let usdc = USDC_SAC_CONTRACT_ID;

    let events = [
        (string_topic("swap"), string_topic("sell_token"), addr_value(xlm)),
        (string_topic("swap"), string_topic("offer_amount"), i128_value(2_500_0000000)),
        (string_topic("swap"), string_topic("buy_token"), addr_value(usdc)),
        (string_topic("swap"), string_topic("return_amount"), i128_value(1_000_0000000)),
    ];

    let mut state = SwapState::default();
    for (t0, t1, v) in &events {
        let update = decode_field(&[t0.clone(), t1.clone()], v).unwrap();
        apply(&mut state, update);
    }

    assert!(try_finalize(&state));
}

fn string_topic(s: &str) -> String {
    let inner: StringM = s.try_into().unwrap();
    ScVal::String(ScString(inner))
        .to_xdr_base64(Limits::none())
        .unwrap()
}

fn addr_value(strkey: &str) -> String {
    let addr = ScAddress::from_str(strkey).unwrap();
    ScVal::Address(addr).to_xdr_base64(Limits::none()).unwrap()
}

fn i128_value(n: i128) -> String {
    let hi = (n >> 64) as i64;
    let lo = n as u64;
    ScVal::I128(Int128Parts { hi, lo })
        .to_xdr_base64(Limits::none())
        .unwrap()
}

/// Why a text is unreadable.
fn read_error(text: &str) -> ReadError {
    let e = ScVal::from_xdr_base64(text, Limits::none()).unwrap_err();
    ReadError { text: e.to_string(), source: e.source().map(|s| s.to_string()) }
}

fn symbol_topic(s: &str) -> String {
    let inner: StringM<32> = s.as_bytes().try_into().unwrap();
    ScVal::Symbol(ScSymbol(inner)).to_xdr_base64(Limits::none()).unwrap()
}

#[test]
fn payload_bytes_are_exact() {
    let mut expected = vec![0, 0, 0, 16, 0, 0, 0, 1, 0, 0, 0, 1, 0, 0, 0, 15, 0, 0, 0, 9];
    for b in "Rebalance".as_bytes() {
        expected.push(*b);
    }
    expected.push(0);
    expected.push(0);
    expected.push(0);
    assert_eq!(payload::encode(Direction::Rebalance), Ok(expected));
    assert_eq!(payload::encode(Direction::HarvestYield).unwrap().len(), 32);
    assert_eq!(Direction::Rebalance.tag(), "Rebalance");
    assert_eq!(Direction::HarvestYield.tag(), "HarvestYield");
}

#[test]
fn payloads_are_read_back_by_the_handler() {
    let rebalance = payload::encode(Direction::Rebalance).unwrap();
    assert_eq!(RebalanceAction::from_xdr(&rebalance), Some(RebalanceAction::Rebalance));
    let harvest = payload::encode(Direction::HarvestYield).unwrap();
    assert_eq!(RebalanceAction::from_xdr(&harvest), Some(RebalanceAction::HarvestYield));
    assert_eq!(RebalanceAction::from_xdr(&rebalance[1..]), None);
}

#[test]
fn three_families_are_relevant() {
    for family in ["swap", "provide_liquidity", "withdraw_liquidity"] {
        assert_eq!(is_relevant_event(&[string_topic(family)]), Ok(true));
        assert_eq!(is_relevant_event(&[symbol_topic(family)]), Ok(true));
    }
    for other in ["transfer", "Swap", "swap ", "", "withdraw_to_delegate"] {
        assert_eq!(is_relevant_event(&[string_topic(other)]), Ok(false));
    }
}

#[test]
fn other_topics_are_not_relevant() {
    assert_eq!(is_relevant_event(&[]), Ok(false));
    assert_eq!(is_relevant_event(&[i128_value(5)]), Ok(false));
    assert_eq!(is_relevant_event(&[addr_value(USDC_SAC_CONTRACT_ID)]), Ok(false));
    // Only the first topic counts.
    assert_eq!(is_relevant_event(&[string_topic("mint"), string_topic("swap")]), Ok(false));
    let cause = read_error("no xdr!");
    assert_eq!(is_relevant_event(&["no xdr!".to_string()]), Err(EventError::Topic0 { cause }));
}

#[test]
fn topics_are_judged_by_their_text() {
    assert!(is_relevant_topic(&LedgerValue::Symbol("swap".to_string())));
    assert!(is_relevant_topic(&LedgerValue::Text("provide_liquidity".to_string())));
    assert!(!is_relevant_topic(&LedgerValue::Address("swap".to_string())));
    assert!(!is_relevant_topic(&LedgerValue::I128 { hi: 0, lo: 1 }));
    assert!(!is_relevant_topic(&LedgerValue::Other));
}

#[test]
fn fields_are_decoded_exactly() {
    let topics = |field: &str| vec![string_topic("swap"), string_topic(field)];
    let xlm = "CAS3J7GYLGXMF6TDJBBYYSE3HQ6BBSMLNUQ34T6TZMYMW2EVH34XOWMA";
    assert_eq!(
        decode_field(&topics("sell_token"), &addr_value(xlm)),
        Ok(FieldUpdate::SellToken(xlm.to_string()))
    );
    assert_eq!(
        decode_field(&topics("buy_token"), &addr_value(xlm)),
        Ok(FieldUpdate::BuyToken(xlm.to_string()))
    );
    assert_eq!(
        decode_field(&topics("offer_amount"), &i128_value(-3)),
        Ok(FieldUpdate::OfferAmount(-3))
    );
    assert_eq!(
        decode_field(&topics("return_amount"), &i128_value(i128::MAX)),
        Ok(FieldUpdate::ReturnAmount(i128::MAX))
    );
    assert_eq!(
        decode_field(&topics("return_amount"), &i128_value(i128::MIN)),
        Ok(FieldUpdate::ReturnAmount(i128::MIN))
    );
    assert_eq!(
        decode_field(&topics("spread_amount"), &i128_value(1)),
        Ok(FieldUpdate::Ignored)
    );
    let elsewhere = vec![string_topic("withdraw_liquidity"), string_topic("sell_token")];
    assert_eq!(decode_field(&elsewhere, &i128_value(1)), Ok(FieldUpdate::Ignored));
}

#[test]
fn unreadable_fields_are_errors() {
    let good = vec![string_topic("swap"), string_topic("sell_token")];
    let bad = "%%%%%%%%".to_string();
    let cause = || read_error("%%%%%%%%");
    assert_eq!(decode_field(&[], &i128_value(1)), Err(EventError::Topic0Missing));
    assert_eq!(
        decode_field(&[bad.clone()], &i128_value(1)),
        Err(EventError::Topic0 { cause: cause() })
    );
    assert_eq!(decode_field(&good[..1], &i128_value(1)), Err(EventError::Topic1Missing));
    assert_eq!(
        decode_field(&[string_topic("swap"), bad.clone()], &i128_value(1)),
        Err(EventError::Topic1 { cause: cause() })
    );
    assert_eq!(decode_field(&good, &bad), Err(EventError::Value { cause: cause() }));
    assert_eq!(decode_field(&good, &i128_value(1)), Err(EventError::FieldType));
    let amount = vec![string_topic("swap"), symbol_topic("offer_amount")];
    assert_eq!(
        decode_field(&amount, &addr_value(USDC_SAC_CONTRACT_ID)),
        Err(EventError::FieldType)
    );
}

/// A vector in a vector, `levels` times, around an empty one.
fn nested(levels: usize) -> String {
    let mut bytes = Vec::new();
    for _ in 0..levels {
        bytes.extend_from_slice(&[0, 0, 0, 16, 0, 0, 0, 1, 0, 0, 0, 1]);
    }
    bytes.extend_from_slice(&[0, 0, 0, 16, 0, 0, 0, 1, 0, 0, 0, 0]);
    base64(&bytes)
}

fn base64(bytes: &[u8]) -> String {
    let digits = "ABCDEFGHIJKLMNOPQRSTUVWXYZabcdefghijklmnopqrstuvwxyz0123456789+/".as_bytes();
    let mut out = String::new();
    for three in bytes.chunks(3) {
        let n = (three[0] as usize) << 16 | (three[1] as usize) << 8 | three[2] as usize;
        for shift in [18, 12, 6, 0] {
            out.push(digits[(n >> shift) & 63] as char);
        }
    }
    out
}

/// An error with nothing under it.
fn plain(text: &str) -> ReadError {
    ReadError { text: text.to_string(), source: None }
}

#[test]
fn nesting_has_an_end() {
    // Readable values that are no text.
    for levels in [3, 600, 1900] {
        assert_eq!(is_relevant_event(&[nested(levels)]), Ok(false));
    }
    for levels in [2100, 200_000] {
        assert_eq!(
            is_relevant_event(&[nested(levels)]),
            Err(EventError::Topic0 { cause: plain("depth limit exceeded") })
        );
    }
}

#[test]
fn announced_bytes_have_to_be_there() {
    // A string of a million bytes, four of which follow.
    let text = base64(&[0, 0, 0, 14, 0, 15, 255, 252, 0, 0, 0, 0]);
    let cause = ReadError {
        text: "failed to fill whole buffer".to_string(),
        source: Some("failed to fill whole buffer".to_string()),
    };
    assert_eq!(is_relevant_event(&[text]), Err(EventError::Topic0 { cause }));
    // No machine of 32 bits holds a string of four billion bytes.
    let text = base64(&[0, 0, 0, 14, 255, 255, 255, 252, 0, 0, 0, 0]);
    assert_eq!(
        is_relevant_event(&[text]),
        Err(EventError::Topic0 { cause: plain("length limit exceeded") })
    );
}

#[test]
fn short_texts_are_read_to_their_end() {
    for text in ["", "A", "AAA", "%%%", "AAAADg=="] {
        assert_eq!(
            is_relevant_event(&[text.to_string()]),
            Err(EventError::Topic0 { cause: read_error(text) })
        );
    }
}

#[test]
fn fields_are_made_from_values() {
    let swap = LedgerValue::Text("swap".to_string());
    let offer = LedgerValue::Symbol("offer_amount".to_string());
    assert_eq!(
        field_update(&swap, &offer, LedgerValue::I128 { hi: -1, lo: 0 }),
        Ok(FieldUpdate::OfferAmount(-18_446_744_073_709_551_616))
    );
    assert_eq!(
        field_update(&swap, &offer, LedgerValue::Other),
        Err(EventError::FieldType)
    );
    assert_eq!(
        field_update(&offer, &offer, LedgerValue::Other),
        Ok(FieldUpdate::Ignored)
    );
}

#[test]
fn fields_may_come_in_any_order() {
    let mut s = SwapState::default();
    apply(&mut s, FieldUpdate::ReturnAmount(1));
    apply(&mut s, FieldUpdate::Ignored);
    apply(&mut s, FieldUpdate::BuyToken("CXLM".into()));
    apply(&mut s, FieldUpdate::OfferAmount(1));
    assert!(!try_finalize(&s));
    apply(&mut s, FieldUpdate::SellToken(USDC_SAC_CONTRACT_ID.into()));
    assert!(try_finalize(&s));
    // A later report of the same field replaces the earlier one.
    apply(&mut s, FieldUpdate::SellToken("CFOO".into()));
    assert!(!try_finalize(&s));
}

fn tick(direction: Direction) -> WasmResponse {
    WasmResponse {
        payload: payload::encode(direction).unwrap(),
        ordering: None,
        event_id_salt: None,
    }
}

#[test]
fn pool_events_trigger_one_rebalance_tick() {
    let event = StellarEvent { topic_segments: vec![symbol_topic("swap")] };
    let expected = vec![tick(Direction::Rebalance)];
    assert_eq!(handle_pool_event(event), Ok(expected));
    let event = StellarEvent { topic_segments: vec![symbol_topic("approve")] };
    assert_eq!(run_inner(TriggerData::StellarContractEvent(event)), Ok(vec![]));
    let event = StellarEvent { topic_segments: vec!["????????".to_string()] };
    assert_eq!(
        run_inner(TriggerData::StellarContractEvent(event)),
        Err(CircuitError::Decode(EventError::Topic0 { cause: read_error("????????") }))
    );
    assert_eq!(respond_to_event(Ok(true)), Ok(vec![tick(Direction::Rebalance)]));
    assert_eq!(respond_to_event(Ok(false)), Ok(vec![]));
}

#[test]
fn timers_trigger_one_harvest_tick() {
    assert_eq!(run_inner(TriggerData::Cron), Ok(vec![tick(Direction::HarvestYield)]));
    assert_eq!(harvest_yield_response(), Ok(tick(Direction::HarvestYield)));
}

#[test]
fn other_triggers_are_errors() {
    let r = run_inner(TriggerData::Other);
    assert_eq!(r, Err(CircuitError::UnexpectedTrigger));
    assert_eq!(r.unwrap_err().message(), "unexpected trigger type");
    let missing = CircuitError::Decode(EventError::Topic1Missing);
    assert_eq!(missing.message(), "missing topic[1]");
}

/// What the log shows of an event with this first topic.
fn logged(topic: &str) -> String {
    let event = StellarEvent { topic_segments: vec![topic.to_string()] };
    handle_pool_event(event).unwrap_err().message()
}

#[test]
fn messages_show_every_cause() {
    assert_eq!(
        logged("????????"),
        "decode topic[0]\n\nCaused by:\n    0: Invalid symbol 63, offset 0.\n    1: Invalid symbol \
         63, offset 0."
    );
    assert_eq!(logged("AAAAYA=="), "decode topic[0]\n\nCaused by:\n    xdr value invalid");
    let encode = CircuitError::Encode(payload::EncodeError::SymbolTooLong);
    assert_eq!(
        encode.message(),
        "symbol too long\n\nCaused by:\n    xdr value max length exceeded"
    );
}

#[test]
fn messages_read_as_anyhow_prints_them() {
    // Without the backtrace, which depends on the environment.
    let printed = |e: anyhow::Error| {
        let text = format!("{e:?}");
        text.split("\n\nStack backtrace:").next().unwrap().to_string()
    };
    for topic in ["????????", "", "AAAA", "AAAAYA==", "AAAADg==", "AAAADwAAACEAAAAA"] {
        let e = ScVal::from_xdr_base64(topic, Limits::none()).context("decode topic[0]");
        assert_eq!(logged(topic), printed(e.unwrap_err()));
    }
    let one = |text: &str| CircuitError::Decode(EventError::Value { cause: plain(text) });
    for text in ["", "a", "a\nb", "\n", "a\n\nb\n"] {
        let e = anyhow::Error::msg(text.to_string()).context("decode value");
        assert_eq!(one(text).message(), printed(e));
        let cause = ReadError { text: text.to_string(), source: Some("c\nd".to_string()) };
        let two = CircuitError::Decode(EventError::Topic1 { cause });
        let e = anyhow::Error::msg("c\nd").context(text).context("decode topic[1]");
        assert_eq!(two.message(), printed(e));
    }
    let symbol: Result<StringM<32>, stellar_xdr::curr::Error> =
        "a symbol of more than thirty-two bytes".as_bytes().try_into();
    let e = anyhow::Error::new(symbol.unwrap_err()).context("symbol too long");
    let encode = CircuitError::Encode(payload::EncodeError::SymbolTooLong);
    assert_eq!(encode.message(), printed(e));
}

/// A store with one key, and an invocation at work on it.
fn operate(marked: &mut bool, action: &TombstoneAction) -> TombstoneEvent {
    match action {
        TombstoneAction::OpenBucket(name) => {
            assert_eq!(name, BUCKET);
            TombstoneEvent::Opened
        }
        TombstoneAction::NewCas => TombstoneEvent::CasReady,
        TombstoneAction::ReadCurrent => TombstoneEvent::Current(*marked),
        TombstoneAction::SwapMark(mark) => {
            assert_eq!(mark, &vec![MARK]);
            if *marked {
                TombstoneEvent::SwapLost
            } else {
                *marked = true;
                TombstoneEvent::Swapped
            }
        }
        other => panic!("no operation: {other:?}"),
    }
}

#[test]
fn first_invocation_marks_and_later_ones_see_it() {
    let mut marked = false;
    for first in [true, false, false] {
        let mut action = mark_if_unseen(TombstoneEvent::Started);
        while !matches!(action, TombstoneAction::Finish(_)) {
            let event = operate(&mut marked, &action);
            action = mark_if_unseen(event);
        }
        assert_eq!(action, TombstoneAction::Finish(first));
    }
}

#[test]
fn racing_invocations_agree_on_one_winner() {
    // Every way to interleave two invocations step by step.
    for schedule in 0u32..4096 {
        let mut marked = false;
        let mut actions = vec![
            mark_if_unseen(TombstoneEvent::Started),
            mark_if_unseen(TombstoneEvent::Started),
        ];
        for bit in 0..12 {
            let i = ((schedule >> bit) & 1) as usize;
            if !matches!(actions[i], TombstoneAction::Finish(_)) {
                let event = operate(&mut marked, &actions[i]);
                actions[i] = mark_if_unseen(event);
            }
        }
        let winners = actions.iter().filter(|a| **a == TombstoneAction::Finish(true)).count();
        assert!(winners <= 1);
        assert_eq!(winners == 1, marked);
    }
}

#[test]
fn store_failures_are_reported() {
    let e = || "io".to_string();
    assert_eq!(
        mark_if_unseen(TombstoneEvent::OpenFailed(e())),
        TombstoneAction::GiveUp("open kv bucket: io".to_string())
    );
    assert_eq!(
        mark_if_unseen(TombstoneEvent::CasOpenFailed(e())),
        TombstoneAction::GiveUp("cas open: io".to_string())
    );
    assert_eq!(
        mark_if_unseen(TombstoneEvent::CurrentFailed(e())),
        TombstoneAction::GiveUp("cas current: io".to_string())
    );
    assert_eq!(
        mark_if_unseen(TombstoneEvent::SwapFailed(e())),
        TombstoneAction::GiveUp("cas swap store error: io".to_string())
    );
    assert_eq!(BUCKET, "blend-rebalance-circuit-tombstones");
    assert_eq!(vec![MARK], "1".as_bytes().to_vec());
}
