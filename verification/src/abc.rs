use vstd::prelude::*;

use crate::error::ContractError;

verus! {

/// One atomic unit of an 18-place fixed-point ratio: a fee ratio of one
/// (100%) is `10^18` atomics.
pub const FEE_ONE: u128 = 1_000_000_000_000_000_000;

/// A fee ratio in 18-place fixed-point atomics. `atomics == FEE_ONE` is a
/// ratio of one; a validated fee never exceeds it.
#[derive(Clone, Copy, Debug, PartialEq, Eq, Structural)]
pub struct StdDecimal {
    pub atomics: u128,
}

impl StdDecimal {
    /// The ratio `n / 100`.
    pub fn percent(n: u64) -> (r: StdDecimal)
        ensures
            r.atomics == n * 10_000_000_000_000_000,
    {
        StdDecimal { atomics: (n as u128) * 10_000_000_000_000_000 }
    }

    /// The ratio `n / 1000`.
    pub fn permille(n: u64) -> (r: StdDecimal)
        ensures
            r.atomics == n * 1_000_000_000_000_000,
    {
        StdDecimal { atomics: (n as u128) * 1_000_000_000_000_000 }
    }

    /// The ratio zero.
    pub fn zero() -> (r: StdDecimal)
        ensures
            r.atomics == 0,
    {
        StdDecimal { atomics: 0 }
    }

    /// The ratio one.
    pub fn one() -> (r: StdDecimal)
        ensures
            r.atomics == FEE_ONE,
    {
        StdDecimal { atomics: FEE_ONE }
    }
}

/// The supply token to be created for the curve.
#[derive(Clone, Debug, PartialEq, Eq)]
pub struct SupplyToken {
    /// The subdenom to create for the supply token.
    pub subdenom: String,
    /// Optional metadata for the created denom.
    pub metadata: Option<NewDenomMetadata>,
    /// Number of decimal places of the supply token.
    pub decimals: u8,
    /// Optional maximum supply.
    pub max_supply: Option<u128>,
}

/// Metadata the issuer sets for the created denom.
#[derive(Clone, Debug, PartialEq, Eq)]
pub struct NewDenomMetadata {
    pub name: String,
    pub description: String,
    pub symbol: String,
    pub display: String,
    pub additional_denom_units: Option<Vec<DenomUnit>>,
}

/// One display unit of a denom.
#[derive(Clone, Debug, PartialEq, Eq)]
pub struct DenomUnit {
    pub denom: String,
    pub exponent: u32,
    pub aliases: Vec<String>,
}

/// The reserve token the curve is denominated in.
#[derive(Clone, Debug, PartialEq, Eq)]
pub struct ReserveToken {
    /// Reserve token denom.
    pub denom: String,
    /// Number of decimal places of the reserve token.
    pub decimals: u8,
}

/// A minimum and a maximum amount.
#[derive(Clone, Copy, Debug, PartialEq, Eq, Structural)]
pub struct MinMax {
    pub min: u128,
    pub max: u128,
}

/// Configuration of the Hatch phase.
#[derive(Clone, Copy, Debug, PartialEq, Eq, Structural)]
pub struct HatchConfig {
    /// The minimum and maximum cumulative contribution per hatcher, in the
    /// reserve token.
    pub contribution_limits: MinMax,
    /// The initial raise range, in the reserve token: reaching `max` ends the
    /// hatch.
    pub initial_raise: MinMax,
    /// The share of each purchase allocated to the funding pool.
    pub entry_fee: StdDecimal,
    /// The share of each sale charged into the funding pool.
    pub exit_fee: StdDecimal,
}

impl HatchConfig {
    /// A hatch configuration is valid when the initial raise range is not
    /// inverted and both fee ratios are at most one.
    pub open spec fn spec_valid(&self) -> bool {
        &&& self.initial_raise.min < self.initial_raise.max
        &&& self.entry_fee.atomics <= FEE_ONE
        &&& self.exit_fee.atomics <= FEE_ONE
    }

    /// Validate the hatch config.
    pub fn validate(&self) -> (r: Result<(), ContractError>)
        ensures
            r is Ok <==> self.spec_valid(),
            r matches Err(e) ==> e matches ContractError::HatchPhaseConfigError { .. },
    {
        if !(self.initial_raise.min < self.initial_raise.max) {
            return Err(ContractError::HatchPhaseConfigError {
                reason: "Initial raise minimum value must be less than maximum value.".to_string(),
            });
        }
        if !(self.entry_fee.atomics <= FEE_ONE) {
            return Err(ContractError::HatchPhaseConfigError {
                reason: "Initial allocation percentage must be between 0 and 100.".to_string(),
            });
        }
        if !(self.exit_fee.atomics <= FEE_ONE) {
            return Err(ContractError::HatchPhaseConfigError {
                reason: "Exit taxation percentage must be between 0 and 100.".to_string(),
            });
        }
        Ok(())
    }
}

/// Configuration of the Open phase.
#[derive(Clone, Copy, Debug, PartialEq, Eq, Structural)]
pub struct OpenConfig {
    /// The share of each purchase allocated to the funding pool.
    pub entry_fee: StdDecimal,
    /// The share of each sale charged into the funding pool.
    pub exit_fee: StdDecimal,
}

impl OpenConfig {
    /// An open configuration is valid when both fee ratios are at most one.
    pub open spec fn spec_valid(&self) -> bool {
        &&& self.entry_fee.atomics <= FEE_ONE
        &&& self.exit_fee.atomics <= FEE_ONE
    }

    /// Validate the open config.
    pub fn validate(&self) -> (r: Result<(), ContractError>)
        ensures
            r is Ok <==> self.spec_valid(),
            r matches Err(e) ==> e matches ContractError::OpenPhaseConfigError { .. },
    {
        if !(self.entry_fee.atomics <= FEE_ONE) {
            return Err(ContractError::OpenPhaseConfigError {
                reason: "Reserve percentage must be between 0 and 100.".to_string(),
            });
        }
        if !(self.exit_fee.atomics <= FEE_ONE) {
            return Err(ContractError::OpenPhaseConfigError {
                reason: "Exit taxation percentage must be between 0 and 100.".to_string(),
            });
        }
        Ok(())
    }
}

/// Configuration of the Closed phase. It carries nothing.
#[derive(Clone, Copy, Debug, PartialEq, Eq, Structural)]
pub struct ClosedConfig {}

impl ClosedConfig {
    /// Validate the closed config: there is nothing to check.
    pub fn validate(&self) -> (r: Result<(), ContractError>)
        ensures
            r is Ok,
    {
        Ok(())
    }
}

/// The configuration of all three phases together.
#[derive(Clone, Copy, Debug, PartialEq, Eq, Structural)]
pub struct CommonsPhaseConfig {
    /// The Hatch phase, where allowlisted hatchers contribute the initial
    /// raise.
    pub hatch: HatchConfig,
    /// The Open phase, where anyone trades against the curve.
    pub open: OpenConfig,
    /// The Closed phase, where the commons no longer takes contributions.
    pub closed: ClosedConfig,
}

impl CommonsPhaseConfig {
    /// A phase configuration is valid when each phase's part is.
    pub open spec fn spec_valid(&self) -> bool {
        &&& self.hatch.spec_valid()
        &&& self.open.spec_valid()
    }

    /// Validate the whole phase configuration.
    pub fn validate(&self) -> (r: Result<(), ContractError>)
        ensures
            r is Ok <==> self.spec_valid(),
            r matches Err(e) ==> (e matches ContractError::HatchPhaseConfigError { .. } || e
                matches ContractError::OpenPhaseConfigError { .. }),
    {
        self.hatch.validate()?;
        self.open.validate()?;
        self.closed.validate()?;
        Ok(())
    }
}

/// The declared shape of the bonding curve: which spot-price function
/// prices the supply. The slope or value is a fixed-point number
/// `n * 10^-scale`.
#[derive(Clone, Copy, Debug, PartialEq, Eq, Structural)]
pub enum CurveType {
    /// The spot price is always `value * 10^-scale`.
    Constant { value: u128, scale: u32 },
    /// The spot price is `slope * 10^-scale * supply`.
    Linear { slope: u128, scale: u32 },
    /// The spot price is `slope * 10^-scale * sqrt(supply)`.
    SquareRoot { slope: u128, scale: u32 },
}

/// The lifecycle phase of the commons. Phases only ever move forward:
/// Hatch to Open to Closed, or straight to Closed by owner action.
#[derive(Clone, Copy, Debug, PartialEq, Eq, Structural)]
pub enum CommonsPhase {
    Hatch,
    Open,
    Closed,
}

impl CommonsPhase {
    /// Fail unless the phase is Hatch.
    pub fn expect_hatch(&self) -> (r: Result<(), ContractError>)
        ensures
            r is Ok <==> *self is Hatch,
            r matches Err(e) ==> e == (ContractError::InvalidPhase {
                expected: CommonsPhase::Hatch,
                actual: *self,
            }),
    {
        match self {
            CommonsPhase::Hatch => Ok(()),
            _ => Err(ContractError::InvalidPhase {
                expected: CommonsPhase::Hatch,
                actual: *self,
            }),
        }
    }

    /// Fail unless the phase is Open.
    pub fn expect_open(&self) -> (r: Result<(), ContractError>)
        ensures
            r is Ok <==> *self is Open,
            r matches Err(e) ==> e == (ContractError::InvalidPhase {
                expected: CommonsPhase::Open,
                actual: *self,
            }),
    {
        match self {
            CommonsPhase::Open => Ok(()),
            _ => Err(ContractError::InvalidPhase {
                expected: CommonsPhase::Open,
                actual: *self,
            }),
        }
    }

    /// Fail unless the phase is Closed.
    pub fn expect_closed(&self) -> (r: Result<(), ContractError>)
        ensures
            r is Ok <==> *self is Closed,
            r matches Err(e) ==> e == (ContractError::InvalidPhase {
                expected: CommonsPhase::Closed,
                actual: *self,
            }),
    {
        match self {
            CommonsPhase::Closed => Ok(()),
            _ => Err(ContractError::InvalidPhase {
                expected: CommonsPhase::Closed,
                actual: *self,
            }),
        }
    }
}

} // verus!
