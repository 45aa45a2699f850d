//! The off-chain circuit: it turns pool events and timer ticks into payloads for
//! the handler.
pub mod payload;
pub mod phoenix;
pub mod state;

use crate::circuit::payload::{Direction, EncodeError};
use crate::circuit::phoenix::{EventError, EventErrorView, ReadError, ReadErrorView};
use crate::xdr;
use vstd::prelude::*;
use vstd::string::*;

verus! {

/// What the circuit reads of a contract event.
#[derive(Debug, PartialEq, Eq)]
pub struct StellarEvent {
    /// The topics, as base64 of their XDR.
    pub topic_segments: Vec<String>,
}

/// What woke the circuit.
#[derive(Debug, PartialEq, Eq)]
pub enum TriggerData {
    StellarContractEvent(StellarEvent),
    Cron,
    /// Any other trigger.
    Other,
}

/// What the circuit hands to the quorum. The framework orders the responses and
/// gives each its event id.
#[derive(Debug, PartialEq, Eq)]
pub struct WasmResponse {
    pub payload: Vec<u8>,
    pub ordering: Option<u64>,
    pub event_id_salt: Option<Vec<u8>>,
}

/// Why the circuit failed.
#[derive(Debug, PartialEq, Eq)]
pub enum CircuitError {
    UnexpectedTrigger,
    Decode(EventError),
    Encode(EncodeError),
}

/// `text` with `margin` before every line but the first.
pub open spec fn indented(text: Seq<char>, margin: Seq<char>) -> Seq<char>
    decreases text.len(),
{
    if text.len() == 0 {
        seq![]
    } else {
        let before = indented(text.drop_last(), margin).push(text.last());
        if text.last() == '\n' {
            before + margin
        } else {
            before
        }
    }
}

/// A context and what caused it: one error, or an error and the one under it,
/// which are then numbered.
pub open spec fn caused(context: Seq<char>, cause: ReadErrorView) -> Seq<char> {
    match cause.source {
        None => context + "\n\nCaused by:\n    "@ + indented(cause.text, "    "@),
        Some(source) => context + "\n\nCaused by:\n    0: "@ + indented(cause.text, "       "@)
            + "\n    1: "@ + indented(source, "       "@),
    }
}

fn append_indented(message: &mut String, text: &String, margin: &str)
    ensures
        final(message)@ == old(message)@ + indented(text@, margin@),
{
    let text = text.as_str();
    let len: usize = text.unicode_len();
    let mut i: usize = 0;
    while i < len
        invariant
            i <= len == text@.len(),
            message@ == old(message)@ + indented(text@.take(i as int), margin@),
        decreases len - i,
    {
        let c = text.get_char(i);
        message.append(text.substring_char(i, i + 1));
        if c == '\n' {
            message.append(margin);
        }
        i = i + 1;
        proof {
            let read = text@.take(i as int);
            assert(read.drop_last() =~= text@.take(i - 1));
            assert(message@ =~= old(message)@ + indented(read, margin@));
        }
    }
    assert(text@.take(len as int) =~= text@);
}

fn with_cause(context: &str, cause: &ReadError) -> (r: String)
    ensures
        r@ == caused(context@, cause@),
{
    let mut message = context.to_string();
    match &cause.source {
        None => {
            message.append("\n\nCaused by:\n    ");
            append_indented(&mut message, &cause.text, "    ");
        },
        Some(source) => {
            message.append("\n\nCaused by:\n    0: ");
            append_indented(&mut message, &cause.text, "       ");
            message.append("\n    1: ");
            append_indented(&mut message, source, "       ");
        },
    }
    message
}

impl CircuitError {
    pub open spec fn message_spec(self) -> Seq<char> {
        match self {
            CircuitError::UnexpectedTrigger => "unexpected trigger type"@,
            CircuitError::Decode(e) => match e@ {
                EventErrorView::Topic0 { cause } => caused("decode topic[0]"@, cause),
                EventErrorView::Topic1 { cause } => caused("decode topic[1]"@, cause),
                EventErrorView::Value { cause } => caused("decode value"@, cause),
                EventErrorView::Topic0Missing => "missing topic[0]"@,
                EventErrorView::Topic1Missing => "missing topic[1]"@,
                EventErrorView::FieldType => "unexpected field type"@,
            },
            CircuitError::Encode(EncodeError::SymbolTooLong) =>
                "symbol too long\n\nCaused by:\n    xdr value max length exceeded"@,
        }
    }

    /// What the host log shows: what was being done, and what broke, down to the
    /// first cause.
    pub fn message(&self) -> (r: String)
        ensures
            r@ == self.message_spec(),
    {
        match self {
            CircuitError::UnexpectedTrigger => "unexpected trigger type".to_string(),
            CircuitError::Decode(e) => match e {
                EventError::Topic0 { cause } => with_cause("decode topic[0]", cause),
                EventError::Topic1 { cause } => with_cause("decode topic[1]", cause),
                EventError::Value { cause } => with_cause("decode value", cause),
                EventError::Topic0Missing => "missing topic[0]".to_string(),
                EventError::Topic1Missing => "missing topic[1]".to_string(),
                EventError::FieldType => "unexpected field type".to_string(),
            },
            CircuitError::Encode(EncodeError::SymbolTooLong) =>
                "symbol too long\n\nCaused by:\n    xdr value max length exceeded".to_string(),
        }
    }
}

/// `response` is a tick for `direction`, and nothing else.
pub open spec fn is_tick(response: WasmResponse, direction: Direction) -> bool {
    &&& response.payload@ == xdr::unit_variant_xdr(direction.action().name())
    &&& response.ordering is None
    &&& response.event_id_salt is None
}

fn tick(direction: Direction) -> (r: Result<WasmResponse, CircuitError>)
    ensures
        r matches Ok(response) && is_tick(response, direction),
{
    match payload::encode(direction) {
        Ok(bytes) => Ok(WasmResponse { payload: bytes, ordering: None, event_id_salt: None }),
        Err(e) => Err(CircuitError::Encode(e)),
    }
}

/// What the circuit answers to a pool event of the given relevance: one rebalance
/// tick, or nothing, or the error.
pub open spec fn answers_event(
    relevance: Result<bool, EventErrorView>,
    r: Result<Vec<WasmResponse>, CircuitError>,
) -> bool {
    match relevance {
        Err(e) => r matches Err(CircuitError::Decode(err)) && err@ == e,
        Ok(false) => r matches Ok(responses) && responses@.len() == 0,
        Ok(true) => r matches Ok(responses) && responses@.len() == 1 && is_tick(
            responses@[0],
            Direction::Rebalance,
        ),
    }
}

/// The answer to a pool event whose relevance is known.
pub fn respond_to_event(relevance: Result<bool, EventError>) -> (r: Result<
    Vec<WasmResponse>,
    CircuitError,
>)
    ensures
        answers_event(phoenix::relevance_view(relevance), r),
{
    let mut responses: Vec<WasmResponse> = Vec::new();
    match relevance {
        Ok(true) => match tick(Direction::Rebalance) {
            Ok(response) => {
                responses.push(response);
                Ok(responses)
            },
            Err(e) => Err(e),
        },
        Ok(false) => Ok(responses),
        Err(e) => Err(CircuitError::Decode(e)),
    }
}

/// A pool event that moves the liquid USDC ratio triggers one rebalance tick.
/// Every such event belongs to an action of its own, so nothing has to be
/// deduplicated here; the handler deduplicates by event id.
pub fn handle_pool_event(event: StellarEvent) -> (r: Result<Vec<WasmResponse>, CircuitError>)
    ensures
        answers_event(phoenix::relevance(event.topic_segments@), r),
{
    respond_to_event(phoenix::is_relevant_event(event.topic_segments.as_slice()))
}

/// The tick that a timer fires: harvest now.
pub fn harvest_yield_response() -> (r: Result<WasmResponse, CircuitError>)
    ensures
        r matches Ok(response) && is_tick(response, Direction::HarvestYield),
{
    tick(Direction::HarvestYield)
}

/// Answer whatever woke the circuit.
pub fn run_inner(data: TriggerData) -> (r: Result<Vec<WasmResponse>, CircuitError>)
    ensures
        match data {
            TriggerData::StellarContractEvent(event) => answers_event(
                phoenix::relevance(event.topic_segments@),
                r,
            ),
            TriggerData::Cron => r matches Ok(responses) && responses@.len() == 1 && is_tick(
                responses@[0],
                Direction::HarvestYield,
            ),
            TriggerData::Other => r matches Err(e) && e is UnexpectedTrigger,
        },
{
    match data {
        TriggerData::StellarContractEvent(event) => handle_pool_event(event),
        TriggerData::Cron => match harvest_yield_response() {
            Ok(response) => {
                let mut responses: Vec<WasmResponse> = Vec::new();
                responses.push(response);
                Ok(responses)
            },
            Err(e) => Err(e),
        },
        TriggerData::Other => Err(CircuitError::UnexpectedTrigger),
    }
}

/// Every tick that the circuit can send is read by the handler as the action
/// that it was sent for.
pub proof fn law_ticks_reach_the_handler(response: WasmResponse, direction: Direction)
    requires
        is_tick(response, direction),
    ensures
        crate::envelope::action_of(response.payload@) == Some(direction.action()),
{
    crate::envelope::lemma_action_round_trip(direction.action());
}

/// A relevant event is answered with one response, an irrelevant one with none,
/// and one that cannot be read with the error. The response carries the payload
/// of a rebalance, and leaves ordering and salt to the framework.
pub proof fn law_one_tick_per_relevant_event(
    relevant: Result<bool, EventErrorView>,
    r: Result<Vec<WasmResponse>, CircuitError>,
)
    requires
        answers_event(relevant, r),
    ensures
        match relevant {
            Ok(true) => {
                &&& r matches Ok(responses)
                &&& responses@.len() == 1
                &&& crate::envelope::action_of(responses@[0].payload@) == Some(
                    crate::execution::RebalanceAction::Rebalance,
                )
                &&& responses@[0].ordering is None
                &&& responses@[0].event_id_salt is None
            },
            Ok(false) => r matches Ok(responses) && responses@.len() == 0,
            Err(e) => r matches Err(CircuitError::Decode(error)) && error@ == e,
        },
{
    crate::envelope::lemma_action_round_trip(crate::execution::RebalanceAction::Rebalance);
}

/// A tick is the payload of its action and leaves ordering and salt to the
/// framework; the tick of a timer is a harvest.
pub proof fn law_ticks(response: WasmResponse)
    ensures
        is_tick(response, Direction::Rebalance) <==> {
            &&& crate::envelope::action_of(response.payload@) == Some(
                crate::execution::RebalanceAction::Rebalance,
            )
            &&& response.ordering is None
            &&& response.event_id_salt is None
        },
        is_tick(response, Direction::HarvestYield) <==> {
            &&& crate::envelope::action_of(response.payload@) == Some(
                crate::execution::RebalanceAction::HarvestYield,
            )
            &&& response.ordering is None
            &&& response.event_id_salt is None
        },
{
    crate::envelope::lemma_action_round_trip(crate::execution::RebalanceAction::Rebalance);
    crate::envelope::lemma_action_round_trip(crate::execution::RebalanceAction::HarvestYield);
}

/// Indenting keeps every character, puts the margin behind every end of a line,
/// and adds nothing else.
pub proof fn law_indenting(a: Seq<char>, b: Seq<char>, c: char, margin: Seq<char>)
    ensures
        indented(Seq::<char>::empty(), margin) == Seq::<char>::empty(),
        c != '\n' ==> indented(seq![c], margin) == seq![c],
        indented(seq!['\n'], margin) == seq!['\n'] + margin,
        indented(a + b, margin) == indented(a, margin) + indented(b, margin),
    decreases b.len(),
{
    reveal_with_fuel(indented, 2);
    assert(indented(Seq::<char>::empty(), margin) =~= Seq::<char>::empty());
    assert(seq![c].drop_last() =~= Seq::<char>::empty());
    assert(seq!['\n'].drop_last() =~= Seq::<char>::empty());
    assert(c != '\n' ==> indented(seq![c], margin) =~= seq![c]);
    assert(indented(seq!['\n'], margin) =~= seq!['\n'] + margin);
    if b.len() == 0 {
        assert(a + b =~= a);
        assert(indented(a, margin) + indented(b, margin) =~= indented(a, margin));
    } else {
        law_indenting(a, b.drop_last(), c, margin);
        assert((a + b).drop_last() =~= a + b.drop_last());
        assert(indented(a + b, margin) =~= indented(a, margin) + indented(b, margin));
    }
}

/// What the log shows of each error: what was being done, and under it every
/// error that led to it, numbered from 0 if there are two.
pub proof fn law_messages_show_every_cause(cause: phoenix::ReadError, e: CircuitError)
    ensures
        ({
            let under = match cause.source {
                None => "\n\nCaused by:\n    "@ + indented(cause.text@, "    "@),
                Some(source) => "\n\nCaused by:\n    0: "@ + indented(cause.text@, "       "@)
                    + "\n    1: "@ + indented(source@, "       "@),
            };
            &&& CircuitError::Decode(EventError::Topic0 { cause }).message_spec()
                == "decode topic[0]"@ + under
            &&& CircuitError::Decode(EventError::Topic1 { cause }).message_spec()
                == "decode topic[1]"@ + under
            &&& CircuitError::Decode(EventError::Value { cause }).message_spec()
                == "decode value"@ + under
        }),
        CircuitError::UnexpectedTrigger.message_spec() == "unexpected trigger type"@,
        CircuitError::Decode(EventError::Topic0Missing).message_spec() == "missing topic[0]"@,
        CircuitError::Decode(EventError::Topic1Missing).message_spec() == "missing topic[1]"@,
        CircuitError::Decode(EventError::FieldType).message_spec() == "unexpected field type"@,
        CircuitError::Encode(EncodeError::SymbolTooLong).message_spec()
            == "symbol too long\n\nCaused by:\n    xdr value max length exceeded"@,
{
    let under = match cause.source {
        None => "\n\nCaused by:\n    "@ + indented(cause.text@, "    "@),
        Some(source) => "\n\nCaused by:\n    0: "@ + indented(cause.text@, "       "@)
            + "\n    1: "@ + indented(source@, "       "@),
    };
    assert(caused("decode topic[0]"@, cause@) =~= "decode topic[0]"@ + under);
    assert(caused("decode topic[1]"@, cause@) =~= "decode topic[1]"@ + under);
    assert(caused("decode value"@, cause@) =~= "decode value"@ + under);
}

} // verus!
