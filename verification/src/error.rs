use vstd::prelude::*;

use crate::abc::CommonsPhase;

verus! {

/// Why an attached payment was refused.
#[derive(Clone, Debug, PartialEq, Eq)]
pub enum PaymentError {
    /// No coins were attached to the call.
    NoFunds,
    /// More than one coin denomination was attached.
    MultipleDenoms,
    /// A single coin was attached, but not of the expected denomination.
    MissingDenom { denom: String },
}

/// Why an owner-gated action was refused.
#[derive(Clone, Debug, PartialEq, Eq)]
pub enum OwnershipError {
    /// The contract has no owner (ownership was renounced).
    NoOwner,
    /// The caller is not the current owner.
    NotOwner,
    /// The caller is not the pending owner of a transfer in progress.
    NotPendingOwner,
    /// The pending ownership transfer has expired.
    TransferExpired,
    /// There is no pending ownership transfer to accept.
    TransferNotFound,
}

/// Every failure the engine can report. Each operation aborts with one of
/// these and leaves the state unchanged.
#[derive(Clone, Debug, PartialEq, Eq)]
pub enum ContractError {
    /// The attached payment was missing, mixed, or of the wrong denomination.
    Payment(PaymentError),
    /// The caller may not perform an owner-gated action.
    Ownership(OwnershipError),
    /// An addition or multiplication exceeded the numeric range.
    Overflow,
    /// A subtraction went below zero.
    Underflow,
    /// A divisor was zero.
    DivideByZero,
    /// The action is only legal in another phase.
    InvalidPhase { expected: CommonsPhase, actual: CommonsPhase },
    /// A hatcher's cumulative contribution left the permitted range.
    ContributionLimit { min: u128, max: u128 },
    /// The buyer is not allowlisted for the hatch sale.
    SenderNotAllowlisted { sender: String },
    /// Minting would push the supply over the configured maximum.
    CannotExceedMaxSupply { max: u128 },
    /// Buying is closed for good.
    CommonsClosed,
    /// The global pause flag is set and the caller is not the owner.
    Paused,
    /// A configured exit fee ratio was above one.
    InvalidExitFee,
    /// The hatch phase configuration failed validation.
    HatchPhaseConfigError { reason: String },
    /// The open phase configuration failed validation.
    OpenPhaseConfigError { reason: String },
    /// The supply token description failed validation.
    SupplyTokenError { reason: String },
    /// The token-issuance collaborator has not reported its address yet.
    Uninitialized,
    /// An acknowledgement arrived under an id the engine never issued.
    UnknownReplyId { id: u64 },
}

} // verus!
