//! The off-chain aggregator: it submits every quorum to the handler contract
//! that its configuration names.
use vstd::prelude::*;
use vstd::string::*;

verus! {

/// Errors of `stellar_strkey`.
#[verifier::external_type_specification]
#[verifier::external_body]
pub struct ExStrkeyError(stellar_strkey::DecodeError);

/// A contract on a Stellar chain.
#[derive(Debug, PartialEq, Eq)]
pub struct StellarAddress {
    pub raw_bytes: Vec<u8>,
}

/// Where a quorum is submitted.
#[derive(Debug, PartialEq, Eq)]
pub struct StellarSubmitAction {
    pub chain: String,
    pub address: StellarAddress,
}

#[derive(Debug, PartialEq, Eq)]
pub enum SubmitAction {
    Stellar(StellarSubmitAction),
}

#[derive(Debug, PartialEq, Eq)]
pub enum AggregatorAction {
    Submit(SubmitAction),
}

/// Why the aggregator cannot submit.
#[derive(Debug, PartialEq, Eq)]
pub enum AggregatorError {
    MissingChain,
    MissingServiceHandler,
    InvalidContractId { handler: String },
}

impl AggregatorError {
    pub open spec fn message_spec(self) -> Seq<char> {
        match self {
            AggregatorError::MissingChain => "missing config: chain"@,
            AggregatorError::MissingServiceHandler => "missing config: service_handler"@,
            AggregatorError::InvalidContractId { handler } => "invalid stellar contract id: "@
                + handler@ + ": the strkey is invalid"@,
        }
    }

    /// What the host log shows, the cause at the end.
    pub fn message(&self) -> (r: String)
        ensures
            r@ == self.message_spec(),
    {
        match self {
            AggregatorError::MissingChain => "missing config: chain".to_string(),
            AggregatorError::MissingServiceHandler => "missing config: service_handler".to_string(),
            AggregatorError::InvalidContractId { handler } => {
                let mut message = "invalid stellar contract id: ".to_string();
                message.append(handler.as_str());
                message.append(": the strkey is invalid");
                message
            },
        }
    }
}

/// The 32 bytes that `Contract::from_string` of `stellar_strkey` reads from a
/// contract's textual form; `None` where it fails.
pub uninterp spec fn contract_id_of(text: Seq<char>) -> Option<Seq<u8>>;

/// Read a contract's textual form with `Contract::from_string` of
/// `stellar_strkey`.
///
/// Believed of that crate: what it reads, and whether it can read it, depends on
/// the text alone, and a contract id has 32 bytes. Which bytes stand for which
/// text is not stated.
#[verifier::external_body]
fn contract_from_string(text: &str) -> (r: Result<Vec<u8>, stellar_strkey::DecodeError>)
    ensures
        match r {
            Ok(bytes) => contract_id_of(text@) == Some(bytes@) && bytes@.len() == 32,
            Err(_) => contract_id_of(text@) is None,
        },
{
    Ok(stellar_strkey::Contract::from_string(text)?.0.to_vec())
}

/// `actions` is the one action that submits to contract `id` on `chain`.
pub open spec fn submits_to(
    actions: Seq<AggregatorAction>,
    chain: Seq<char>,
    id: Seq<u8>,
) -> bool {
    actions.len() == 1 && match actions[0] {
        AggregatorAction::Submit(SubmitAction::Stellar(s)) => s.chain@ == chain
            && s.address.raw_bytes@ == id,
    }
}

/// The one action that submits to the contract with the given id.
pub fn submit_to(chain: String, raw_bytes: Vec<u8>) -> (r: Vec<AggregatorAction>)
    ensures
        submits_to(r@, chain@, raw_bytes@),
{
    let mut actions: Vec<AggregatorAction> = Vec::new();
    actions.push(
        AggregatorAction::Submit(
            SubmitAction::Stellar(
                StellarSubmitAction { chain, address: StellarAddress { raw_bytes } },
            ),
        ),
    );
    actions
}

/// What a configuration with both values leads to.
pub open spec fn built(
    chain: Seq<char>,
    handler: Seq<char>,
    r: Result<Vec<AggregatorAction>, AggregatorError>,
) -> bool {
    match (contract_id_of(handler), r) {
        (Some(id), Ok(actions)) => id.len() == 32 && submits_to(actions@, chain, id),
        (None, Err(AggregatorError::InvalidContractId { handler: named })) => named@ == handler,
        _ => false,
    }
}

/// Submit to the handler on the chain, both as configured. The chain is passed
/// on as it is.
pub fn build_from_config(chain: String, handler: &str) -> (r: Result<
    Vec<AggregatorAction>,
    AggregatorError,
>)
    ensures
        built(chain@, handler@, r),
{
    match contract_from_string(handler) {
        Ok(raw_bytes) => Ok(submit_to(chain, raw_bytes)),
        Err(_) => Err(AggregatorError::InvalidContractId { handler: handler.to_string() }),
    }
}

/// Submit to the handler on the chain, as far as they are configured. The chain
/// is asked for first.
pub fn build(chain: Option<String>, handler: Option<String>) -> (r: Result<
    Vec<AggregatorAction>,
    AggregatorError,
>)
    ensures
        match (chain, handler) {
            (None, _) => r matches Err(e) && e is MissingChain,
            (Some(_), None) => r matches Err(e) && e is MissingServiceHandler,
            (Some(chain), Some(handler)) => built(chain@, handler@, r),
        },
{
    let chain = match chain {
        Some(chain) => chain,
        None => return Err(AggregatorError::MissingChain),
    };
    let handler = match handler {
        Some(handler) => handler,
        None => return Err(AggregatorError::MissingServiceHandler),
    };
    build_from_config(chain, handler.as_str())
}

/// A handler that can be read gives one action: to submit, on the chain as it is
/// configured, to the contract that the handler's text stands for, all 32 bytes
/// of it. A handler that cannot be read gives an error that quotes it.
pub proof fn law_quorums_go_to_the_configured_contract(
    chain: Seq<char>,
    handler: Seq<char>,
    r: Result<Vec<AggregatorAction>, AggregatorError>,
)
    requires
        built(chain, handler, r),
    ensures
        contract_id_of(handler) matches Some(id) ==> {
            &&& r matches Ok(actions)
            &&& actions@.len() == 1
            &&& actions@[0] matches AggregatorAction::Submit(SubmitAction::Stellar(submit))
            &&& submit.chain@ == chain
            &&& submit.address.raw_bytes@ == id
            &&& submit.address.raw_bytes@.len() == 32
        },
        contract_id_of(handler) is None ==> {
            &&& r matches Err(e)
            &&& e matches AggregatorError::InvalidContractId { handler: named }
            &&& named@ == handler
            &&& e.message_spec() == "invalid stellar contract id: "@ + handler
                + ": the strkey is invalid"@
        },
{
}

/// An action that submits to a contract on a chain is one that says so, what is
/// missing from a configuration is named, and what cannot be read is quoted.
pub proof fn law_submissions_and_gaps(
    actions: Seq<AggregatorAction>,
    chain: Seq<char>,
    id: Seq<u8>,
    handler: String,
)
    ensures
        submits_to(actions, chain, id) <==> {
            &&& actions.len() == 1
            &&& actions[0] matches AggregatorAction::Submit(SubmitAction::Stellar(submit))
                && submit.chain@ == chain && submit.address.raw_bytes@ == id
        },
        AggregatorError::MissingChain.message_spec() == "missing config: chain"@,
        AggregatorError::MissingServiceHandler.message_spec()
            == "missing config: service_handler"@,
        (AggregatorError::InvalidContractId { handler }).message_spec()
            == "invalid stellar contract id: "@ + handler@ + ": the strkey is invalid"@,
{
}

} // verus!
