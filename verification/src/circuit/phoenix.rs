//! What the circuit reads out of the blended pool's events.
//!
//! The circuit is woken on every event of the pool. Three families of events
//! move the pool's liquid USDC ratio:
//!
//! - `swap`: a trader exchanges XLM and USDC; both sides change;
//! - `provide_liquidity`: a deposit raises liquid and total USDC, and the ratio
//!   drifts toward all liquid;
//! - `withdraw_liquidity`: a redemption is paid from the physical balance by a
//!   share of the logical reserves, which can drain the liquid USDC while some
//!   is parked in Blend.
//!
//! Everything else (the handler's own moves, admin events, token transfers) is
//! ignored. A pool that reports one field per event has its swap pieced
//! together in a [`SwapState`].
use std::error::Error;
use stellar_xdr::curr::{Limits, ReadXdr, ScString, ScSymbol, ScVal};
use vstd::prelude::*;
use vstd::string::*;

verus! {

pub const TOPIC_SWAP: &'static str = "swap";

pub const TOPIC_PROVIDE_LIQUIDITY: &'static str = "provide_liquidity";

pub const TOPIC_WITHDRAW_LIQUIDITY: &'static str = "withdraw_liquidity";

pub const FIELD_SELL_TOKEN: &'static str = "sell_token";

pub const FIELD_BUY_TOKEN: &'static str = "buy_token";

pub const FIELD_OFFER_AMOUNT: &'static str = "offer_amount";

pub const FIELD_RETURN_AMOUNT: &'static str = "return_amount";

/// The contract of USDC on the public network.
pub const USDC_SAC_CONTRACT_ID: &'static str =
    "CCW67TSZV3SSS2HXMBQ5JFGCKJNXKZM7UQUWUZPUTHXSTZLEO7SJMI75";

/// A ledger value, as far as the circuit tells them apart.
#[derive(Debug, PartialEq, Eq)]
pub enum LedgerValue {
    Symbol(String),
    Text(String),
    /// An address in its textual form.
    Address(String),
    /// A 128-bit number in two halves.
    I128 { hi: i64, lo: u64 },
    Other,
}

/// What a [`LedgerValue`] says.
#[verifier::ext_equal]
pub enum LedgerValueView {
    Symbol(Seq<char>),
    Text(Seq<char>),
    Address(Seq<char>),
    I128(int),
    Other,
}

impl View for LedgerValue {
    type V = LedgerValueView;

    open spec fn view(&self) -> LedgerValueView {
        match *self {
            LedgerValue::Symbol(s) => LedgerValueView::Symbol(s@),
            LedgerValue::Text(s) => LedgerValueView::Text(s@),
            LedgerValue::Address(s) => LedgerValueView::Address(s@),
            LedgerValue::I128 { hi, lo } => LedgerValueView::I128(
                hi * 0x1_0000_0000_0000_0000 + lo,
            ),
            LedgerValue::Other => LedgerValueView::Other,
        }
    }
}

impl LedgerValueView {
    /// The text of a symbol or a string.
    pub open spec fn text(self) -> Option<Seq<char>> {
        match self {
            LedgerValueView::Symbol(s) => Some(s),
            LedgerValueView::Text(s) => Some(s),
            _ => None,
        }
    }
}

/// Why a text is no ledger value: how the error reads, and how the error under it
/// reads, if there is one.
#[derive(Debug, PartialEq, Eq)]
pub struct ReadError {
    pub text: String,
    pub source: Option<String>,
}

/// What a [`ReadError`] says.
#[verifier::ext_equal]
pub struct ReadErrorView {
    pub text: Seq<char>,
    pub source: Option<Seq<char>>,
}

impl View for ReadError {
    type V = ReadErrorView;

    open spec fn view(&self) -> ReadErrorView {
        ReadErrorView { text: self.text@, source: text_of(self.source) }
    }
}

/// The view of a value that was read, or of the error.
pub open spec fn read_view(r: Result<LedgerValue, ReadError>) -> Result<
    LedgerValueView,
    ReadErrorView,
> {
    match r {
        Ok(value) => Ok(value@),
        Err(e) => Err(e@),
    }
}

/// How deep the reading of a ledger value may go: as deep as the stack bears. A
/// vector in a vector counts four, so some two thousand of them can be read, and
/// no text of up to 25,000 characters goes deeper. On a 64-bit machine this depth
/// takes more than the megabyte of stack that a WebAssembly component has by
/// default, and less than the two that a thread has.
pub const VALUE_DEPTH: u32 = 8000;

/// How many bytes a ledger value may announce: as many as a 32-bit machine can
/// hold in one piece.
pub const VALUE_LEN: usize = 0x7fff_ffff;

/// What `ScVal::from_xdr_base64` of `stellar_xdr` reads from a text with these two
/// limits; where it fails, how its error reads.
pub uninterp spec fn ledger_value_of(b64: Seq<char>, depth: u32, len: usize) -> Result<
    LedgerValueView,
    ReadErrorView,
>;

/// Read a ledger value with `ScVal::from_xdr_base64` of `stellar_xdr`. Symbols,
/// strings and addresses are given in that crate's textual form, an error as it
/// and its `source` print; under that source there is nothing more. That crate
/// calls itself once per level, and it makes room for a string before it reads the
/// string: the limits keep it from running out of stack, or out of the addresses
/// that a 32-bit machine has.
///
/// Believed of that crate: what it reads, whether it can read it, and what its
/// error and the error's source print as, depends on the text and the limits
/// alone. What the value is for a given text is not stated.
#[verifier::external_body]
fn decode_value(b64: &str, depth: u32, len: usize) -> (r: Result<LedgerValue, ReadError>)
    requires
        depth <= VALUE_DEPTH,
        len <= VALUE_LEN,
    ensures
        read_view(r) == ledger_value_of(b64@, depth, len),
{
    match ScVal::from_xdr_base64(b64, Limits { depth, len }) {
        Ok(ScVal::Symbol(ScSymbol(s))) => Ok(LedgerValue::Symbol(s.to_string())),
        Ok(ScVal::String(ScString(s))) => Ok(LedgerValue::Text(s.to_string())),
        Ok(ScVal::Address(address)) => Ok(LedgerValue::Address(address.to_string())),
        Ok(ScVal::I128(parts)) => Ok(LedgerValue::I128 { hi: parts.hi, lo: parts.lo }),
        Ok(_) => Ok(LedgerValue::Other),
        Err(e) => Err(
            ReadError { text: e.to_string(), source: e.source().map(ToString::to_string) },
        ),
    }
}

/// The ledger value that a text stands for.
pub open spec fn read_of(b64: Seq<char>) -> Result<LedgerValueView, ReadErrorView> {
    ledger_value_of(b64, VALUE_DEPTH, VALUE_LEN)
}

fn read_value(b64: &str) -> (r: Result<LedgerValue, ReadError>)
    ensures
        read_view(r) == read_of(b64@),
{
    decode_value(b64, VALUE_DEPTH, VALUE_LEN)
}

/// Why an event could not be read.
#[derive(Debug, PartialEq, Eq)]
pub enum EventError {
    /// The first topic is no ledger value.
    Topic0 { cause: ReadError },
    /// The second topic is no ledger value.
    Topic1 { cause: ReadError },
    /// The value is no ledger value.
    Value { cause: ReadError },
    Topic0Missing,
    Topic1Missing,
    /// The value is not of the type that the field has.
    FieldType,
}

/// What an [`EventError`] says.
#[verifier::ext_equal]
pub enum EventErrorView {
    Topic0 { cause: ReadErrorView },
    Topic1 { cause: ReadErrorView },
    Value { cause: ReadErrorView },
    Topic0Missing,
    Topic1Missing,
    FieldType,
}

impl View for EventError {
    type V = EventErrorView;

    open spec fn view(&self) -> EventErrorView {
        match *self {
            EventError::Topic0 { cause } => EventErrorView::Topic0 { cause: cause@ },
            EventError::Topic1 { cause } => EventErrorView::Topic1 { cause: cause@ },
            EventError::Value { cause } => EventErrorView::Value { cause: cause@ },
            EventError::Topic0Missing => EventErrorView::Topic0Missing,
            EventError::Topic1Missing => EventErrorView::Topic1Missing,
            EventError::FieldType => EventErrorView::FieldType,
        }
    }
}

fn text_is(s: &String, text: &str) -> (r: bool)
    ensures
        r == (s@ == text@),
{
    *s == text.to_string()
}

/// A topic that names one of the families that move the liquid USDC ratio.
pub open spec fn is_relevant(topic: LedgerValueView) -> bool {
    match topic.text() {
        Some(text) => text == TOPIC_SWAP@ || text == TOPIC_PROVIDE_LIQUIDITY@ || text
            == TOPIC_WITHDRAW_LIQUIDITY@,
        None => false,
    }
}

/// Whether a topic names one of the families that move the liquid USDC ratio.
/// The pool writes it as a string or a symbol; anything else is not the pool's.
pub fn is_relevant_topic(topic: &LedgerValue) -> (r: bool)
    ensures
        r == is_relevant(topic@),
{
    let text = match topic {
        LedgerValue::Symbol(s) => s,
        LedgerValue::Text(s) => s,
        _ => return false,
    };
    text_is(text, TOPIC_SWAP) || text_is(text, TOPIC_PROVIDE_LIQUIDITY) || text_is(
        text,
        TOPIC_WITHDRAW_LIQUIDITY,
    )
}

/// What the circuit makes of an event's topics.
pub open spec fn relevance(topic_segments: Seq<String>) -> Result<bool, EventErrorView> {
    if topic_segments.len() == 0 {
        Ok(false)
    } else {
        match read_of(topic_segments[0]@) {
            Err(cause) => Err(EventErrorView::Topic0 { cause }),
            Ok(topic) => Ok(is_relevant(topic)),
        }
    }
}

/// The view of a relevance, or of the error.
pub open spec fn relevance_view(r: Result<bool, EventError>) -> Result<bool, EventErrorView> {
    match r {
        Ok(relevant) => Ok(relevant),
        Err(e) => Err(e@),
    }
}

/// Whether the first topic names one of the families that move the liquid USDC
/// ratio. An event without topics does not; one whose first topic cannot be
/// read is an error.
pub fn is_relevant_event(topic_segments: &[String]) -> (r: Result<bool, EventError>)
    ensures
        relevance_view(r) == relevance(topic_segments@),
{
    if topic_segments.len() == 0 {
        return Ok(false);
    }
    match read_value(topic_segments[0].as_str()) {
        Ok(topic) => Ok(is_relevant_topic(&topic)),
        Err(cause) => Err(EventError::Topic0 { cause }),
    }
}

/// One field of a swap, as one event reports it.
#[derive(Debug, PartialEq, Eq)]
pub enum FieldUpdate {
    SellToken(String),
    BuyToken(String),
    OfferAmount(i128),
    ReturnAmount(i128),
    /// The event is no field of a swap that the circuit needs.
    Ignored,
}

/// What a [`FieldUpdate`] says.
#[verifier::ext_equal]
pub enum FieldUpdateView {
    SellToken(Seq<char>),
    BuyToken(Seq<char>),
    OfferAmount(int),
    ReturnAmount(int),
    Ignored,
}

impl View for FieldUpdate {
    type V = FieldUpdateView;

    open spec fn view(&self) -> FieldUpdateView {
        match *self {
            FieldUpdate::SellToken(token) => FieldUpdateView::SellToken(token@),
            FieldUpdate::BuyToken(token) => FieldUpdateView::BuyToken(token@),
            FieldUpdate::OfferAmount(amount) => FieldUpdateView::OfferAmount(amount as int),
            FieldUpdate::ReturnAmount(amount) => FieldUpdateView::ReturnAmount(amount as int),
            FieldUpdate::Ignored => FieldUpdateView::Ignored,
        }
    }
}

/// The fields of a swap that have been reported so far.
#[derive(Debug, PartialEq, Eq)]
pub struct SwapState {
    pub sell_token: Option<String>,
    pub buy_token: Option<String>,
    pub offer_amount: Option<i128>,
    pub return_amount: Option<i128>,
}

/// What a [`SwapState`] says.
#[verifier::ext_equal]
pub struct SwapStateView {
    pub sell_token: Option<Seq<char>>,
    pub buy_token: Option<Seq<char>>,
    pub offer_amount: Option<int>,
    pub return_amount: Option<int>,
}

pub open spec fn text_of(s: Option<String>) -> Option<Seq<char>> {
    match s {
        Some(s) => Some(s@),
        None => None,
    }
}

pub open spec fn number_of(n: Option<i128>) -> Option<int> {
    match n {
        Some(n) => Some(n as int),
        None => None,
    }
}

impl View for SwapState {
    type V = SwapStateView;

    open spec fn view(&self) -> SwapStateView {
        SwapStateView {
            sell_token: text_of(self.sell_token),
            buy_token: text_of(self.buy_token),
            offer_amount: number_of(self.offer_amount),
            return_amount: number_of(self.return_amount),
        }
    }
}

impl Default for SwapState {
    fn default() -> (r: Self)
        ensures
            r@ == (SwapStateView {
                sell_token: None,
                buy_token: None,
                offer_amount: None,
                return_amount: None,
            }),
    {
        SwapState { sell_token: None, buy_token: None, offer_amount: None, return_amount: None }
    }
}

/// `state` with one more field.
pub open spec fn applied(state: SwapStateView, update: FieldUpdateView) -> SwapStateView {
    match update {
        FieldUpdateView::SellToken(token) => SwapStateView { sell_token: Some(token), ..state },
        FieldUpdateView::BuyToken(token) => SwapStateView { buy_token: Some(token), ..state },
        FieldUpdateView::OfferAmount(amount) => SwapStateView {
            offer_amount: Some(amount),
            ..state
        },
        FieldUpdateView::ReturnAmount(amount) => SwapStateView {
            return_amount: Some(amount),
            ..state
        },
        FieldUpdateView::Ignored => state,
    }
}

/// Take one more field into account.
pub fn apply(state: &mut SwapState, update: FieldUpdate)
    ensures
        final(state)@ == applied(old(state)@, update@),
{
    match update {
        FieldUpdate::SellToken(token) => {
            state.sell_token = Some(token);
        },
        FieldUpdate::BuyToken(token) => {
            state.buy_token = Some(token);
        },
        FieldUpdate::OfferAmount(amount) => {
            state.offer_amount = Some(amount);
        },
        FieldUpdate::ReturnAmount(amount) => {
            state.return_amount = Some(amount);
        },
        FieldUpdate::Ignored => {},
    }
}

/// All four fields have come, and one of the two tokens is USDC.
pub open spec fn is_usdc_swap(state: SwapStateView) -> bool {
    &&& state.offer_amount is Some
    &&& state.return_amount is Some
    &&& state.sell_token is Some
    &&& state.buy_token is Some
    &&& state.sell_token == Some(USDC_SAC_CONTRACT_ID@) || state.buy_token == Some(
        USDC_SAC_CONTRACT_ID@,
    )
}

/// Whether a swap is complete and concerns USDC. The amounts do not matter: the
/// handler decides whether the drift is worth a move.
pub fn try_finalize(state: &SwapState) -> (r: bool)
    ensures
        r == is_usdc_swap(state@),
{
    if state.offer_amount.is_none() || state.return_amount.is_none() {
        return false;
    }
    match (&state.sell_token, &state.buy_token) {
        (Some(sell), Some(buy)) => text_is(sell, USDC_SAC_CONTRACT_ID) || text_is(
            buy,
            USDC_SAC_CONTRACT_ID,
        ),
        _ => false,
    }
}

/// What a field event says, once its two topics and its value are read. Only the
/// fields of a swap count; each has to carry a value of its own type.
pub open spec fn field_of(
    family: LedgerValueView,
    field: LedgerValueView,
    value: LedgerValueView,
) -> Result<FieldUpdateView, EventErrorView> {
    if family.text() != Some(TOPIC_SWAP@) {
        Ok(FieldUpdateView::Ignored)
    } else if field.text() == Some(FIELD_SELL_TOKEN@) {
        match value {
            LedgerValueView::Address(token) => Ok(FieldUpdateView::SellToken(token)),
            _ => Err(EventErrorView::FieldType),
        }
    } else if field.text() == Some(FIELD_BUY_TOKEN@) {
        match value {
            LedgerValueView::Address(token) => Ok(FieldUpdateView::BuyToken(token)),
            _ => Err(EventErrorView::FieldType),
        }
    } else if field.text() == Some(FIELD_OFFER_AMOUNT@) {
        match value {
            LedgerValueView::I128(amount) => Ok(FieldUpdateView::OfferAmount(amount)),
            _ => Err(EventErrorView::FieldType),
        }
    } else if field.text() == Some(FIELD_RETURN_AMOUNT@) {
        match value {
            LedgerValueView::I128(amount) => Ok(FieldUpdateView::ReturnAmount(amount)),
            _ => Err(EventErrorView::FieldType),
        }
    } else {
        Ok(FieldUpdateView::Ignored)
    }
}

/// The view of a field that was read, or the error.
pub open spec fn field_view(r: Result<FieldUpdate, EventError>) -> Result<
    FieldUpdateView,
    EventErrorView,
> {
    match r {
        Ok(update) => Ok(update@),
        Err(e) => Err(e@),
    }
}

fn topic_is(topic: &LedgerValue, text: &str) -> (r: bool)
    ensures
        r == (topic@.text() == Some(text@)),
{
    match topic {
        LedgerValue::Symbol(s) => text_is(s, text),
        LedgerValue::Text(s) => text_is(s, text),
        _ => false,
    }
}

fn address_value(value: LedgerValue) -> (r: Result<String, EventError>)
    ensures
        match r {
            Ok(token) => value@ == LedgerValueView::Address(token@),
            Err(e) => e@ == EventErrorView::FieldType && value@ !is Address,
        },
{
    match value {
        LedgerValue::Address(token) => Ok(token),
        _ => Err(EventError::FieldType),
    }
}

fn amount_value(value: LedgerValue) -> (r: Result<i128, EventError>)
    ensures
        match r {
            Ok(amount) => value@ == LedgerValueView::I128(amount as int),
            Err(e) => e@ == EventErrorView::FieldType && value@ !is I128,
        },
{
    match value {
        LedgerValue::I128 { hi, lo } => Ok(hi as i128 * 0x1_0000_0000_0000_0000i128 + lo as i128),
        _ => Err(EventError::FieldType),
    }
}

/// Make a field out of an event whose topics and value are read.
pub fn field_update(family: &LedgerValue, field: &LedgerValue, value: LedgerValue) -> (r: Result<
    FieldUpdate,
    EventError,
>)
    ensures
        field_view(r) == field_of(family@, field@, value@),
{
    if !topic_is(family, TOPIC_SWAP) {
        return Ok(FieldUpdate::Ignored);
    }
    if topic_is(field, FIELD_SELL_TOKEN) {
        match address_value(value) {
            Ok(token) => Ok(FieldUpdate::SellToken(token)),
            Err(e) => Err(e),
        }
    } else if topic_is(field, FIELD_BUY_TOKEN) {
        match address_value(value) {
            Ok(token) => Ok(FieldUpdate::BuyToken(token)),
            Err(e) => Err(e),
        }
    } else if topic_is(field, FIELD_OFFER_AMOUNT) {
        match amount_value(value) {
            Ok(amount) => Ok(FieldUpdate::OfferAmount(amount)),
            Err(e) => Err(e),
        }
    } else if topic_is(field, FIELD_RETURN_AMOUNT) {
        match amount_value(value) {
            Ok(amount) => Ok(FieldUpdate::ReturnAmount(amount)),
            Err(e) => Err(e),
        }
    } else {
        Ok(FieldUpdate::Ignored)
    }
}

/// What a field event says.
pub open spec fn decoded_field(topic_segments: Seq<String>, value: Seq<char>) -> Result<
    FieldUpdateView,
    EventErrorView,
> {
    if topic_segments.len() == 0 {
        Err(EventErrorView::Topic0Missing)
    } else {
        match read_of(topic_segments[0]@) {
            Err(cause) => Err(EventErrorView::Topic0 { cause }),
            Ok(family) => if topic_segments.len() == 1 {
                Err(EventErrorView::Topic1Missing)
            } else {
                match read_of(topic_segments[1]@) {
                    Err(cause) => Err(EventErrorView::Topic1 { cause }),
                    Ok(field) => match read_of(value) {
                        Err(cause) => Err(EventErrorView::Value { cause }),
                        Ok(value) => field_of(family, field, value),
                    },
                }
            },
        }
    }
}

/// Read a field event: the family and the field are its topics.
pub fn decode_field(topic_segments: &[String], value: &str) -> (r: Result<
    FieldUpdate,
    EventError,
>)
    ensures
        field_view(r) == decoded_field(topic_segments@, value@),
{
    if topic_segments.len() == 0 {
        return Err(EventError::Topic0Missing);
    }
    let family = match read_value(topic_segments[0].as_str()) {
        Ok(family) => family,
        Err(cause) => return Err(EventError::Topic0 { cause }),
    };
    if topic_segments.len() == 1 {
        return Err(EventError::Topic1Missing);
    }
    let field = match read_value(topic_segments[1].as_str()) {
        Ok(field) => field,
        Err(cause) => return Err(EventError::Topic1 { cause }),
    };
    match read_value(value) {
        Ok(value) => field_update(&family, &field, value),
        Err(cause) => Err(EventError::Value { cause }),
    }
}

/// Two updates are about the same field.
pub open spec fn same_field(a: FieldUpdateView, b: FieldUpdateView) -> bool {
    ||| a is SellToken && b is SellToken
    ||| a is BuyToken && b is BuyToken
    ||| a is OfferAmount && b is OfferAmount
    ||| a is ReturnAmount && b is ReturnAmount
}

/// The order in which the fields of a swap arrive does not matter.
pub proof fn law_field_order_does_not_matter(
    state: SwapStateView,
    a: FieldUpdateView,
    b: FieldUpdateView,
)
    requires
        !same_field(a, b),
    ensures
        applied(applied(state, a), b) == applied(applied(state, b), a),
{
}

/// Whether a swap is complete does not depend on its amounts.
pub proof fn law_amounts_do_not_matter(state: SwapStateView, offer: int, returned: int)
    requires
        is_usdc_swap(state),
    ensures
        is_usdc_swap(
            applied(
                applied(state, FieldUpdateView::OfferAmount(offer)),
                FieldUpdateView::ReturnAmount(returned),
            ),
        ),
{
}

/// Whether an event is relevant rests on its first topic alone: whatever topics
/// follow, and however many, the answer is the same.
pub proof fn law_first_topic_decides(a: Seq<String>, b: Seq<String>)
    requires
        a.len() > 0,
        b.len() > 0,
        a[0]@ == b[0]@,
    ensures
        relevance(a) == relevance(b),
{
}

/// What the first topic says decides: a symbol or a string that reads `swap`,
/// `provide_liquidity` or `withdraw_liquidity` makes the event relevant, whatever
/// follows; any other readable topic, or none, does not; and one that cannot be
/// read is an error that tells why.
pub proof fn law_three_families_are_relevant(topics: Seq<String>)
    ensures
        topics.len() == 0 ==> relevance(topics) == Ok::<bool, EventErrorView>(false),
        topics.len() > 0 ==> match ledger_value_of(topics[0]@, 8000, 0x7fff_ffff) {
            Ok(LedgerValueView::Symbol(s)) => relevance(topics) == Ok::<bool, EventErrorView>(
                s == "swap"@ || s == "provide_liquidity"@ || s == "withdraw_liquidity"@,
            ),
            Ok(LedgerValueView::Text(s)) => relevance(topics) == Ok::<bool, EventErrorView>(
                s == "swap"@ || s == "provide_liquidity"@ || s == "withdraw_liquidity"@,
            ),
            Ok(_) => relevance(topics) == Ok::<bool, EventErrorView>(false),
            Err(cause) => relevance(topics) == Err::<bool, EventErrorView>(
                EventErrorView::Topic0 { cause },
            ),
        },
{
}

/// A topic is judged by its text alone: a symbol and a string that read the same
/// are judged the same, and what has no text is not relevant.
pub proof fn law_topics_are_judged_by_their_text(topic: LedgerValueView, s: Seq<char>)
    ensures
        is_relevant(LedgerValueView::Symbol(s)) == is_relevant(LedgerValueView::Text(s)),
        is_relevant(LedgerValueView::Text(s)) <==> s == "swap"@ || s == "provide_liquidity"@ || s
            == "withdraw_liquidity"@,
        topic !is Symbol && topic !is Text ==> !is_relevant(topic),
{
}

/// A field event names its family first and its field second, each as a symbol or
/// a string. In the family `swap` the two tokens are addresses and the two amounts
/// are numbers, and a value of another type is an error; every other family and
/// field is ignored, whatever its value.
pub proof fn law_fields_of_a_swap(
    family: LedgerValueView,
    field: LedgerValueView,
    value: LedgerValueView,
)
    ensures
        ({
            let r = field_of(family, field, value);
            let is_swap = family == LedgerValueView::Symbol("swap"@) || family
                == LedgerValueView::Text("swap"@);
            let sells = field == LedgerValueView::Symbol("sell_token"@) || field
                == LedgerValueView::Text("sell_token"@);
            let buys = field == LedgerValueView::Symbol("buy_token"@) || field
                == LedgerValueView::Text("buy_token"@);
            let offers = field == LedgerValueView::Symbol("offer_amount"@) || field
                == LedgerValueView::Text("offer_amount"@);
            let returns_ = field == LedgerValueView::Symbol("return_amount"@) || field
                == LedgerValueView::Text("return_amount"@);
            &&& !is_swap || !sells && !buys && !offers && !returns_ ==> r == Ok::<
                FieldUpdateView,
                EventErrorView,
            >(FieldUpdateView::Ignored)
            &&& is_swap && (sells || buys) && value !is Address ==> r == Err::<
                FieldUpdateView,
                EventErrorView,
            >(EventErrorView::FieldType)
            &&& is_swap && (offers || returns_) && value !is I128 ==> r == Err::<
                FieldUpdateView,
                EventErrorView,
            >(EventErrorView::FieldType)
            &&& is_swap && sells ==> (value matches LedgerValueView::Address(token) ==> r == Ok::<
                FieldUpdateView,
                EventErrorView,
            >(FieldUpdateView::SellToken(token)))
            &&& is_swap && buys ==> (value matches LedgerValueView::Address(token) ==> r == Ok::<
                FieldUpdateView,
                EventErrorView,
            >(FieldUpdateView::BuyToken(token)))
            &&& is_swap && offers ==> (value matches LedgerValueView::I128(amount) ==> r == Ok::<
                FieldUpdateView,
                EventErrorView,
            >(FieldUpdateView::OfferAmount(amount)))
            &&& is_swap && returns_ ==> (value matches LedgerValueView::I128(amount) ==> r == Ok::<
                FieldUpdateView,
                EventErrorView,
            >(FieldUpdateView::ReturnAmount(amount)))
        }),
{
    reveal_strlit("sell_token");
    reveal_strlit("buy_token");
    reveal_strlit("offer_amount");
    reveal_strlit("return_amount");
    assert("sell_token"@.len() == 10 && "buy_token"@.len() == 9 && "offer_amount"@.len() == 12
        && "return_amount"@.len() == 13);
}

/// Reading a field event looks at the first topic, the second topic and the value,
/// in this order, and fails at the first that is missing or cannot be read. Topics
/// behind the second do not matter.
pub proof fn law_fields_are_read_in_order(topics: Seq<String>, value: Seq<char>)
    ensures
        topics.len() == 0 ==> decoded_field(topics, value) == Err::<
            FieldUpdateView,
            EventErrorView,
        >(EventErrorView::Topic0Missing),
        topics.len() > 0 ==> match ledger_value_of(topics[0]@, 8000, 0x7fff_ffff) {
            Err(cause) => decoded_field(topics, value) == Err::<FieldUpdateView, EventErrorView>(
                EventErrorView::Topic0 { cause },
            ),
            Ok(family) => {
                &&& topics.len() == 1 ==> decoded_field(topics, value) == Err::<
                    FieldUpdateView,
                    EventErrorView,
                >(EventErrorView::Topic1Missing)
                &&& topics.len() > 1 ==> match (
                    ledger_value_of(topics[1]@, 8000, 0x7fff_ffff),
                    ledger_value_of(value, 8000, 0x7fff_ffff),
                ) {
                    (Err(cause), _) => decoded_field(topics, value) == Err::<
                        FieldUpdateView,
                        EventErrorView,
                    >(EventErrorView::Topic1 { cause }),
                    (Ok(_), Err(cause)) => decoded_field(topics, value) == Err::<
                        FieldUpdateView,
                        EventErrorView,
                    >(EventErrorView::Value { cause }),
                    (Ok(field), Ok(v)) => decoded_field(topics, value) == field_of(
                        family,
                        field,
                        v,
                    ),
                }
            },
        },
{
}

/// A field that was reported is kept as it is, the latest report counts, and the
/// three other fields stay. What is ignored changes nothing.
pub proof fn law_reports_are_kept(state: SwapStateView, token: Seq<char>, amount: int)
    ensures
        ({
            let s = applied(state, FieldUpdateView::SellToken(token));
            s.sell_token == Some(token) && s.buy_token == state.buy_token && s.offer_amount
                == state.offer_amount && s.return_amount == state.return_amount
        }),
        ({
            let s = applied(state, FieldUpdateView::BuyToken(token));
            s.buy_token == Some(token) && s.sell_token == state.sell_token && s.offer_amount
                == state.offer_amount && s.return_amount == state.return_amount
        }),
        ({
            let s = applied(state, FieldUpdateView::OfferAmount(amount));
            s.offer_amount == Some(amount) && s.sell_token == state.sell_token && s.buy_token
                == state.buy_token && s.return_amount == state.return_amount
        }),
        ({
            let s = applied(state, FieldUpdateView::ReturnAmount(amount));
            s.return_amount == Some(amount) && s.sell_token == state.sell_token && s.buy_token
                == state.buy_token && s.offer_amount == state.offer_amount
        }),
        applied(state, FieldUpdateView::Ignored) == state,
{
}

/// A swap concerns USDC exactly if all its four fields are there and USDC is what
/// was sold or what was bought.
pub proof fn law_usdc_swaps(sell: Seq<char>, buy: Seq<char>, state: SwapStateView)
    ensures
        is_usdc_swap(state) ==> state.sell_token is Some && state.buy_token is Some
            && state.offer_amount is Some && state.return_amount is Some,
        state.offer_amount is Some && state.return_amount is Some && state.sell_token == Some(sell)
            && state.buy_token == Some(buy) ==> (is_usdc_swap(state) <==> sell
            == "CCW67TSZV3SSS2HXMBQ5JFGCKJNXKZM7UQUWUZPUTHXSTZLEO7SJMI75"@ || buy
            == "CCW67TSZV3SSS2HXMBQ5JFGCKJNXKZM7UQUWUZPUTHXSTZLEO7SJMI75"@),
{
}

/// Values, updates, states and errors are seen as what they hold. The two halves
/// of a number make up the number.
pub proof fn law_circuit_views(
    s: String,
    hi: i64,
    lo: u64,
    amount: i128,
    state: SwapState,
    cause: ReadError,
)
    ensures
        LedgerValue::Symbol(s)@ == LedgerValueView::Symbol(s@),
        LedgerValue::Text(s)@ == LedgerValueView::Text(s@),
        LedgerValue::Address(s)@ == LedgerValueView::Address(s@),
        (LedgerValue::I128 { hi, lo })@ == LedgerValueView::I128(
            hi * 18_446_744_073_709_551_616 + lo,
        ),
        LedgerValue::Other@ == LedgerValueView::Other,
        FieldUpdate::SellToken(s)@ == FieldUpdateView::SellToken(s@),
        FieldUpdate::BuyToken(s)@ == FieldUpdateView::BuyToken(s@),
        FieldUpdate::OfferAmount(amount)@ == FieldUpdateView::OfferAmount(amount as int),
        FieldUpdate::ReturnAmount(amount)@ == FieldUpdateView::ReturnAmount(amount as int),
        FieldUpdate::Ignored@ == FieldUpdateView::Ignored,
        state.sell_token is None ==> state@.sell_token is None,
        state.sell_token matches Some(t) ==> state@.sell_token == Some(t@),
        state.buy_token is None ==> state@.buy_token is None,
        state.buy_token matches Some(t) ==> state@.buy_token == Some(t@),
        state.offer_amount is None ==> state@.offer_amount is None,
        state.offer_amount matches Some(n) ==> state@.offer_amount == Some(n as int),
        state.return_amount is None ==> state@.return_amount is None,
        state.return_amount matches Some(n) ==> state@.return_amount == Some(n as int),
        cause@.text == cause.text@,
        cause.source is None ==> cause@.source is None,
        cause.source matches Some(source) ==> cause@.source == Some(source@),
        (EventError::Topic0 { cause })@ == (EventErrorView::Topic0 { cause: cause@ }),
        (EventError::Topic1 { cause })@ == (EventErrorView::Topic1 { cause: cause@ }),
        (EventError::Value { cause })@ == (EventErrorView::Value { cause: cause@ }),
        EventError::Topic0Missing@ == EventErrorView::Topic0Missing,
        EventError::Topic1Missing@ == EventErrorView::Topic1Missing,
        EventError::FieldType@ == EventErrorView::FieldType,
{
}

/// What is read, or why it could not be, is seen as it is.
pub proof fn law_results_are_seen_as_they_are(
    relevant: Result<bool, EventError>,
    field: Result<FieldUpdate, EventError>,
    value: Result<LedgerValue, ReadError>,
)
    ensures
        relevant matches Ok(b) ==> relevance_view(relevant) == Ok::<bool, EventErrorView>(b),
        relevant matches Err(e) ==> relevance_view(relevant) == Err::<bool, EventErrorView>(e@),
        field matches Ok(u) ==> field_view(field) == Ok::<FieldUpdateView, EventErrorView>(u@),
        field matches Err(e) ==> field_view(field) == Err::<FieldUpdateView, EventErrorView>(e@),
        value matches Ok(v) ==> read_view(value) == Ok::<LedgerValueView, ReadErrorView>(v@),
        value matches Err(e) ==> read_view(value) == Err::<LedgerValueView, ReadErrorView>(e@),
{
}

} // verus!
