//! Everything that can end a transaction.
//!
//! Codes 300-399 belong to the verification contract and 500-599 to the
//! handler interface that every WarpDrive handler shares; 600 and above are
//! this project's own.
use vstd::prelude::*;

verus! {

/// What the verification contract rejects an envelope with.
#[derive(Clone, Copy, Debug, PartialEq, Eq, Structural)]
pub enum VerifyError {
    InvalidSignature,
    SignerNotRegistered,
    InsufficientWeight,
    EmptySignatures,
    LengthMismatch,
    SignersNotOrdered,
    ZeroRequiredWeight,
}

/// What an envelope is refused with.
#[derive(Clone, Copy, Debug, PartialEq, Eq, Structural)]
pub enum HandlerError {
    EventAlreadySeen,
    InvalidReferenceBlock,
    InvalidEnvelope,
    /// The verification contract answered with something that is no
    /// [`VerifyError`].
    UnknownVerificationError,
    OtherInvocationError,
    InvalidSignature,
    SignerNotRegistered,
    InsufficientWeight,
    EmptySignatures,
    LengthMismatch,
    SignersNotOrdered,
    ZeroRequiredWeight,
}

/// Project-local failures that map to no shared handler error.
#[derive(Clone, Copy, Debug, PartialEq, Eq, Structural)]
pub enum LocalError {
    /// `verify_xlm` or a manual move was invoked while the handler is paused.
    /// Operators should not retry until the dashboard shows `paused = false`.
    Paused,
    /// The handler held USDC at the end of a money-moving entrypoint.
    UsdcLeak,
    /// The reserve token id is even: that is the debt side of a reserve.
    InvalidReserveTokenId,
}

/// An argument or a state that an entrypoint refuses.
#[derive(Clone, Copy, Debug, PartialEq, Eq, Structural)]
pub enum Rejection {
    TargetRatioOutOfRange,
    RebalanceBandOutOfRange,
    NegativeMinTotalUsdc,
    NegativeMaxRebalanceAmount,
    NegativeMinRebalanceAmount,
    AmountNotPositive,
    BlendUnhealthy,
    AmountExceedsPrincipal,
    PrincipalOverflow,
    ShortfallOverflow,
    NoPendingAdmin,
}

/// Why a transaction failed. The host rolls back everything it did.
#[derive(Clone, Copy, Debug, PartialEq, Eq, Structural)]
pub enum Failure {
    Handler(HandlerError),
    Local(LocalError),
    Rejected(Rejection),
    /// The address that has to authorize the call did not.
    Unauthorized,
    /// A host call did not come back with the reply that belongs to it.
    HostTrap,
}

impl VerifyError {
    pub open spec fn as_handler_error(self) -> HandlerError {
        match self {
            VerifyError::InvalidSignature => HandlerError::InvalidSignature,
            VerifyError::SignerNotRegistered => HandlerError::SignerNotRegistered,
            VerifyError::InsufficientWeight => HandlerError::InsufficientWeight,
            VerifyError::EmptySignatures => HandlerError::EmptySignatures,
            VerifyError::LengthMismatch => HandlerError::LengthMismatch,
            VerifyError::SignersNotOrdered => HandlerError::SignersNotOrdered,
            VerifyError::ZeroRequiredWeight => HandlerError::ZeroRequiredWeight,
        }
    }

    /// The handler error that carries this verification error on.
    pub fn to_handler_error(self) -> (r: HandlerError)
        ensures
            r == self.as_handler_error(),
    {
        match self {
            VerifyError::InvalidSignature => HandlerError::InvalidSignature,
            VerifyError::SignerNotRegistered => HandlerError::SignerNotRegistered,
            VerifyError::InsufficientWeight => HandlerError::InsufficientWeight,
            VerifyError::EmptySignatures => HandlerError::EmptySignatures,
            VerifyError::LengthMismatch => HandlerError::LengthMismatch,
            VerifyError::SignersNotOrdered => HandlerError::SignersNotOrdered,
            VerifyError::ZeroRequiredWeight => HandlerError::ZeroRequiredWeight,
        }
    }
}

impl HandlerError {
    pub open spec fn code_spec(self) -> u32 {
        match self {
            HandlerError::EventAlreadySeen => 501,
            HandlerError::InvalidReferenceBlock => 502,
            HandlerError::InvalidEnvelope => 503,
            HandlerError::UnknownVerificationError => 504,
            HandlerError::OtherInvocationError => 505,
            HandlerError::InvalidSignature => 301,
            HandlerError::SignerNotRegistered => 302,
            HandlerError::InsufficientWeight => 303,
            HandlerError::EmptySignatures => 304,
            HandlerError::LengthMismatch => 305,
            HandlerError::SignersNotOrdered => 306,
            HandlerError::ZeroRequiredWeight => 307,
        }
    }

    /// The code under which the error shows up on the ledger.
    pub fn code(self) -> (r: u32)
        ensures
            r == self.code_spec(),
    {
        match self {
            HandlerError::EventAlreadySeen => 501,
            HandlerError::InvalidReferenceBlock => 502,
            HandlerError::InvalidEnvelope => 503,
            HandlerError::UnknownVerificationError => 504,
            HandlerError::OtherInvocationError => 505,
            HandlerError::InvalidSignature => 301,
            HandlerError::SignerNotRegistered => 302,
            HandlerError::InsufficientWeight => 303,
            HandlerError::EmptySignatures => 304,
            HandlerError::LengthMismatch => 305,
            HandlerError::SignersNotOrdered => 306,
            HandlerError::ZeroRequiredWeight => 307,
        }
    }
}

impl LocalError {
    pub open spec fn code_spec(self) -> u32 {
        match self {
            LocalError::Paused => 600,
            LocalError::UsdcLeak => 601,
            LocalError::InvalidReserveTokenId => 602,
        }
    }

    /// The code under which the error shows up on the ledger.
    pub fn code(self) -> (r: u32)
        ensures
            r == self.code_spec(),
    {
        match self {
            LocalError::Paused => 600,
            LocalError::UsdcLeak => 601,
            LocalError::InvalidReserveTokenId => 602,
        }
    }
}

impl Rejection {
    pub open spec fn message_spec(self) -> Seq<char> {
        match self {
            Rejection::TargetRatioOutOfRange => "target_ratio_bps must be in (0, 10000)"@,
            Rejection::RebalanceBandOutOfRange => "rebalance_band_bps must be < 10000"@,
            Rejection::NegativeMinTotalUsdc => "min_total_usdc must be non-negative"@,
            Rejection::NegativeMaxRebalanceAmount => "max_rebalance_amount must be non-negative"@,
            Rejection::NegativeMinRebalanceAmount => "min_rebalance_amount must be non-negative"@,
            Rejection::AmountNotPositive => "amount must be positive"@,
            Rejection::BlendUnhealthy => "Blend pool is not healthy (status > 3); cannot Supply"@,
            Rejection::AmountExceedsPrincipal =>
                "amount exceeds principal_supplied; use emergency_unwind for full drain"@,
            Rejection::PrincipalOverflow => "principal overflow"@,
            Rejection::ShortfallOverflow => "attempt to subtract with overflow"@,
            Rejection::NoPendingAdmin => "no pending admin"@,
        }
    }

    /// The message of the diagnostic.
    pub fn message(self) -> (r: &'static str)
        ensures
            r@ == self.message_spec(),
    {
        match self {
            Rejection::TargetRatioOutOfRange => "target_ratio_bps must be in (0, 10000)",
            Rejection::RebalanceBandOutOfRange => "rebalance_band_bps must be < 10000",
            Rejection::NegativeMinTotalUsdc => "min_total_usdc must be non-negative",
            Rejection::NegativeMaxRebalanceAmount => "max_rebalance_amount must be non-negative",
            Rejection::NegativeMinRebalanceAmount => "min_rebalance_amount must be non-negative",
            Rejection::AmountNotPositive => "amount must be positive",
            Rejection::BlendUnhealthy => "Blend pool is not healthy (status > 3); cannot Supply",
            Rejection::AmountExceedsPrincipal =>
                "amount exceeds principal_supplied; use emergency_unwind for full drain",
            Rejection::PrincipalOverflow => "principal overflow",
            Rejection::ShortfallOverflow => "attempt to subtract with overflow",
            Rejection::NoPendingAdmin => "no pending admin",
        }
    }
}

/// The codes: those of the verification contract are passed on as they are, those
/// of the handler interface follow 500, and the project's own start at 600.
pub proof fn law_codes()
    ensures
        VerifyError::InvalidSignature.as_handler_error().code_spec() == 301,
        VerifyError::SignerNotRegistered.as_handler_error().code_spec() == 302,
        VerifyError::InsufficientWeight.as_handler_error().code_spec() == 303,
        VerifyError::EmptySignatures.as_handler_error().code_spec() == 304,
        VerifyError::LengthMismatch.as_handler_error().code_spec() == 305,
        VerifyError::SignersNotOrdered.as_handler_error().code_spec() == 306,
        VerifyError::ZeroRequiredWeight.as_handler_error().code_spec() == 307,
        HandlerError::EventAlreadySeen.code_spec() == 501,
        HandlerError::InvalidReferenceBlock.code_spec() == 502,
        HandlerError::InvalidEnvelope.code_spec() == 503,
        HandlerError::UnknownVerificationError.code_spec() == 504,
        HandlerError::OtherInvocationError.code_spec() == 505,
        LocalError::Paused.code_spec() == 600,
        LocalError::UsdcLeak.code_spec() == 601,
        LocalError::InvalidReserveTokenId.code_spec() == 602,
{
}

/// No two errors of the handler share a code, and none has a code of the
/// project's own.
pub proof fn law_codes_tell_errors_apart(
    a: HandlerError,
    b: HandlerError,
    c: LocalError,
    d: LocalError,
)
    ensures
        a.code_spec() == b.code_spec() ==> a == b,
        c.code_spec() == d.code_spec() ==> c == d,
        a.code_spec() < 600 <= c.code_spec(),
{
}

/// The diagnostics say which bound was broken.
pub proof fn law_diagnostics()
    ensures
        Rejection::TargetRatioOutOfRange.message_spec()
            == "target_ratio_bps must be in (0, 10000)"@,
        Rejection::RebalanceBandOutOfRange.message_spec() == "rebalance_band_bps must be < 10000"@,
        Rejection::NegativeMinTotalUsdc.message_spec() == "min_total_usdc must be non-negative"@,
        Rejection::NegativeMaxRebalanceAmount.message_spec()
            == "max_rebalance_amount must be non-negative"@,
        Rejection::NegativeMinRebalanceAmount.message_spec()
            == "min_rebalance_amount must be non-negative"@,
        Rejection::AmountNotPositive.message_spec() == "amount must be positive"@,
        Rejection::BlendUnhealthy.message_spec()
            == "Blend pool is not healthy (status > 3); cannot Supply"@,
        Rejection::AmountExceedsPrincipal.message_spec()
            == "amount exceeds principal_supplied; use emergency_unwind for full drain"@,
        Rejection::PrincipalOverflow.message_spec() == "principal overflow"@,
        Rejection::ShortfallOverflow.message_spec() == "attempt to subtract with overflow"@,
        Rejection::NoPendingAdmin.message_spec() == "no pending admin"@,
{
}

} // verus!
