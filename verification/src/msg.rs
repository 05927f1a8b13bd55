use vstd::prelude::*;

use crate::abc::{
    CommonsPhase, CommonsPhaseConfig, CurveType, DenomUnit, MinMax, StdDecimal, SupplyToken,
};
use crate::allowlist::HatcherAllowlistEntry;
use crate::error::PaymentError;
use crate::state::LedgerEntry;

verus! {

/// One attached coin: a denomination and an amount of it.
#[derive(Clone, Debug, PartialEq, Eq)]
pub struct Coin {
    pub denom: String,
    pub amount: u128,
}

/// Who called and what coins they attached.
#[derive(Clone, Debug, PartialEq, Eq)]
pub struct MessageInfo {
    pub sender: String,
    pub funds: Vec<Coin>,
}

/// The block the call runs in, for expiry checks.
#[derive(Clone, Copy, Debug, PartialEq, Eq, Structural)]
pub struct BlockInfo {
    /// The chain height.
    pub height: u64,
    /// The block time, in nanoseconds.
    pub time: u64,
}

/// What the attached payment must be for the call to proceed: exactly one
/// coin, of a positive amount, of the expected denomination. Anything else
/// is the corresponding payment error, a wrong denomination naming the
/// expected one.
pub open spec fn must_pay_of(info: MessageInfo, denom: String) -> Result<u128, PaymentError> {
    if info.funds@.len() == 0 {
        Err(PaymentError::NoFunds)
    } else if info.funds@.len() > 1 {
        Err(PaymentError::MultipleDenoms)
    } else if info.funds@[0].amount == 0 {
        Err(PaymentError::NoFunds)
    } else if info.funds@[0].denom@ != denom@ {
        Err(PaymentError::MissingDenom { denom })
    } else {
        Ok(info.funds@[0].amount)
    }
}

/// Take the attached payment: exactly one coin of a positive amount whose
/// denomination is `denom`, anything else failing with the matching
/// payment error.
pub fn must_pay(info: &MessageInfo, denom: &String) -> (r: Result<u128, PaymentError>)
    ensures
        r == must_pay_of(*info, *denom),
{
    if info.funds.len() == 0 {
        Err(PaymentError::NoFunds)
    } else if info.funds.len() > 1 {
        Err(PaymentError::MultipleDenoms)
    } else if info.funds[0].amount == 0 {
        Err(PaymentError::NoFunds)
    } else if !(info.funds[0].denom == *denom) {
        Err(PaymentError::MissingDenom { denom: denom.clone() })
    } else {
        Ok(info.funds[0].amount)
    }
}

/// An instruction the engine hands back to the host to carry out: a call
/// on the token-issuance collaborator or a coin transfer.
#[derive(Clone, Debug, PartialEq, Eq)]
pub enum AbcMsg {
    /// Have the issuer mint `amount` supply tokens to `to`.
    Mint { to: String, amount: u128 },
    /// Have the issuer burn `amount` supply tokens held by `from`.
    Burn { from: String, amount: u128 },
    /// Send `amount` of `denom` to `to`.
    Send { to: String, denom: String, amount: u128 },
    /// Allow `address` to mint through the issuer.
    SetMinterAllowance { address: String, allowance: u128 },
    /// Allow `address` to burn through the issuer.
    SetBurnerAllowance { address: String, allowance: u128 },
    /// Set the created denom's metadata on the issuer.
    SetDenomMetadata {
        base: String,
        description: String,
        display: String,
        name: String,
        symbol: String,
        denom_units: Vec<DenomUnit>,
    },
}

/// Which pool a donation goes to.
#[derive(Clone, Copy, Debug, PartialEq, Eq, Structural)]
pub enum DonationPool {
    /// The funding pool, or its forwarding address.
    Funding {},
    /// The curve's reserve.
    Reserve {},
}

/// An update to the configuration of the phase the commons is in.
#[derive(Clone, Copy, Debug, PartialEq, Eq, Structural)]
pub enum UpdatePhaseConfigMsg {
    /// Update the hatch configuration; each field left `None` keeps its
    /// value.
    Hatch {
        contribution_limits: Option<MinMax>,
        initial_raise: Option<MinMax>,
        entry_fee: Option<StdDecimal>,
        exit_fee: Option<StdDecimal>,
    },
    /// Update the open configuration; each field left `None` keeps its
    /// value.
    Open { entry_fee: Option<StdDecimal>, exit_fee: Option<StdDecimal> },
}

/// An ownership expiry: until when a pending transfer can be accepted.
#[derive(Clone, Copy, Debug, PartialEq, Eq, Structural)]
pub enum Expiration {
    /// Expires once the chain reaches this height.
    AtHeight(u64),
    /// Expires once the block time reaches this, in nanoseconds.
    AtTime(u64),
    /// Never expires.
    Never {},
}

impl Expiration {
    /// Whether the expiry has passed in `block`.
    pub open spec fn spec_is_expired(&self, block: BlockInfo) -> bool {
        match *self {
            Expiration::AtHeight(h) => block.height >= h,
            Expiration::AtTime(t) => block.time >= t,
            Expiration::Never {} => false,
        }
    }

    /// Whether the expiry has passed in `block`.
    pub fn is_expired(&self, block: &BlockInfo) -> (r: bool)
        ensures
            r == self.spec_is_expired(*block),
    {
        match self {
            Expiration::AtHeight(h) => block.height >= *h,
            Expiration::AtTime(t) => block.time >= *t,
            Expiration::Never {} => false,
        }
    }
}

/// An ownership action a caller can request.
#[derive(Clone, Debug, PartialEq, Eq)]
pub enum Action {
    /// Offer ownership to `new_owner`, to accept before `expiry`.
    TransferOwnership { new_owner: String, expiry: Option<Expiration> },
    /// Accept an offered transfer.
    AcceptOwnership,
    /// Give ownership up for good.
    RenounceOwnership,
}

/// One request to the engine: what a caller asks it to do.
#[derive(Clone, Debug, PartialEq, Eq)]
pub enum ExecuteMsg {
    /// Buy from the curve with the attached reserve tokens.
    Buy {},
    /// Sell the attached supply tokens back to the curve.
    Sell {},
    /// Close the commons for good.
    Close {},
    /// Donate the attached reserve tokens.
    Donate { pool: DonationPool },
    /// Withdraw from the funding pool; the default is the whole pool.
    Withdraw { amount: Option<u128> },
    /// Set or clear the funding-pool forwarding address.
    UpdateFundingPoolForwarding { address: Option<String> },
    /// Set or clear the maximum supply.
    UpdateMaxSupply { max_supply: Option<u128> },
    /// Swap the declared curve shape.
    UpdateCurve { curve_type: CurveType },
    /// Add entries to and drop addresses from the hatcher allowlist.
    UpdateHatchAllowlist {
        to_add: Vec<HatcherAllowlistEntry>,
        to_remove: Vec<String>,
    },
    /// Flip the pause flag.
    TogglePause {},
    /// Update the configuration of the current phase.
    UpdatePhaseConfig(UpdatePhaseConfigMsg),
    /// Transfer, accept or renounce ownership.
    UpdateOwnership(Action),
}

/// Everything the engine needs to set itself up.
#[derive(Clone, Debug, PartialEq, Eq)]
pub struct InstantiateMsg {
    /// The code id the host instantiates the token-issuance collaborator
    /// from.
    pub token_issuer_code_id: u64,
    /// Where to forward funding-pool accruals, if anywhere.
    pub funding_pool_forwarding: Option<String>,
    /// The supply token to create.
    pub supply: SupplyToken,
    /// The reserve token the curve is denominated in.
    pub reserve: crate::abc::ReserveToken,
    /// The declared curve shape.
    pub curve_type: CurveType,
    /// The configuration of the three phases.
    pub phase_config: CommonsPhaseConfig,
    /// Hatchers allowed from the start, if the hatch is gated.
    pub hatcher_allowlist: Option<Vec<HatcherAllowlistEntry>>,
}

/// The current state of the curve, as a query reports it.
#[derive(Clone, Debug, PartialEq, Eq)]
pub struct CurveInfoResponse {
    /// Reserve tokens backing the supply.
    pub reserve: u128,
    /// Supply tokens issued.
    pub supply: u128,
    /// Reserve tokens accrued to the funding pool.
    pub funding: u128,
    /// The spot price at the current supply.
    pub spot_price: StdDecimal,
    /// The reserve denomination.
    pub reserve_denom: String,
}

/// The supply denom, as a query reports it.
#[derive(Clone, Debug, PartialEq, Eq)]
pub struct DenomResponse {
    pub denom: String,
}

/// A page of the donation ledger.
#[derive(Clone, Debug, PartialEq, Eq)]
pub struct DonationsResponse {
    pub donations: Vec<LedgerEntry>,
}

/// A page of the hatcher ledger.
#[derive(Clone, Debug, PartialEq, Eq)]
pub struct HatchersResponse {
    pub hatchers: Vec<LedgerEntry>,
}

/// The allowlist, or nothing when it is empty.
#[derive(Clone, Debug, PartialEq, Eq)]
pub struct HatcherAllowlistResponse {
    pub allowlist: Option<Vec<HatcherAllowlistEntry>>,
}

/// The phase and the configuration of all phases.
#[derive(Clone, Debug, PartialEq, Eq)]
pub struct CommonsPhaseConfigResponse {
    pub phase_config: CommonsPhaseConfig,
    pub phase: CommonsPhase,
}

} // verus!
