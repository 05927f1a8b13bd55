use vstd::prelude::*;

use crate::abc::{CurveType, StdDecimal};
use crate::decimal::{
    cube_root, cube_root_of, dec_div, dec_div_of, dec_mul, dec_mul_of, decimal, decimal_to_std,
    decimal_to_std_of, pow10, pow10_u128, square_root, square_root_of, Decimal, MANTISSA_LIMIT,
    MAX_SCALE, STD_ATOMICS_MAX,
};
use crate::error::ContractError;

verus! {

/// The fixed-point scales of the two denominations: how many decimal places
/// one raw unit of the supply and of the reserve token stands below one
/// whole token.
#[derive(Clone, Copy, Debug, PartialEq, Eq, Structural)]
pub struct DecimalPlaces {
    /// Number of decimal places of the supply token.
    pub supply: u32,
    /// Number of decimal places of the reserve token.
    pub reserve: u32,
}

/// What normalizing a raw token amount into the calculus domain yields:
/// the amount divided by `10^places`, or failure when the amount or the
/// scale is outside the representable range.
pub open spec fn from_amount_of(amount: u128, places: u32) -> Result<Decimal, ()> {
    if amount >= MANTISSA_LIMIT || places > MAX_SCALE {
        Err(())
    } else {
        match dec_div_of(
            Decimal { mantissa: amount, scale: 0 },
            Decimal { mantissa: pow10(places as nat) as u128, scale: 0 },
        ) {
            None => Err(()),
            Some(q) => Ok(q),
        }
    }
}

/// What denormalizing a decimal back to a raw token amount yields: the
/// value times `10^places`, floored to an integer, or failure when the
/// scale is out of range or the multiplication overflows.
pub open spec fn to_amount_of(x: Decimal, places: u32) -> Result<u128, ()> {
    if places > MAX_SCALE {
        Err(())
    } else {
        match dec_mul_of(x, Decimal { mantissa: pow10(places as nat) as u128, scale: 0 }) {
            None => Err(()),
            Some(p) => Ok(p.floor_val() as u128),
        }
    }
}

impl DecimalPlaces {
    /// Record the decimal places of the supply and the reserve token.
    pub fn new(supply: u8, reserve: u8) -> (r: DecimalPlaces)
        ensures
            r == (DecimalPlaces { supply: supply as u32, reserve: reserve as u32 }),
    {
        DecimalPlaces { supply: supply as u32, reserve: reserve as u32 }
    }

    /// Denormalize a reserve-side decimal to a raw reserve amount,
    /// flooring.
    pub fn to_reserve(&self, reserve: &Decimal) -> (r: Result<u128, ContractError>)
        requires
            reserve.wf(),
        ensures
            match to_amount_of(*reserve, self.reserve) {
                Ok(v) => r == Ok::<u128, ContractError>(v),
                Err(()) => r is Err,
            },
            r matches Err(e) ==> (e is Overflow || e is DivideByZero),
            self.reserve <= MAX_SCALE && reserve.mantissa * pow10(self.reserve as nat)
                < MANTISSA_LIMIT ==> r == Ok::<u128, ContractError>(
                (((reserve.mantissa * pow10(self.reserve as nat)) as nat) / pow10(
                    reserve.scale as nat,
                )) as u128,
            ),
    {
        if self.reserve > MAX_SCALE {
            return Err(ContractError::Overflow);
        }
        let factor = Decimal { mantissa: pow10_u128(self.reserve), scale: 0 };
        proof {
            crate::decimal::lemma_pow10_bounds(reserve.scale as nat);
        }
        match dec_mul(reserve, &factor) {
            Some(p) => {
                proof {
                    if reserve.mantissa * pow10(self.reserve as nat) < MANTISSA_LIMIT {
                        if reserve.mantissa == 0 {
                            assert(p == (Decimal { mantissa: 0u128, scale: 0u32 }));
                            assert(p.floor_val() == 0) by {
                                assert(pow10(0) == 1);
                            }
                        } else {
                            assert(p.mantissa == reserve.mantissa * pow10(self.reserve as nat));
                            assert(p.scale == reserve.scale);
                        }
                    }
                }
                match crate::decimal::floor_u128(&p) {
                    Some(v) => {
                        proof {
                            if self.reserve <= MAX_SCALE && reserve.mantissa * pow10(
                                self.reserve as nat,
                            ) < MANTISSA_LIMIT {
                                if reserve.mantissa == 0 {
                                    assert(v == 0);
                                    assert(reserve.mantissa * pow10(self.reserve as nat) == 0) by (nonlinear_arith)
                                        requires
                                            reserve.mantissa == 0,
                                    ;
                                    assert((((reserve.mantissa * pow10(self.reserve as nat)) as nat)
                                        / pow10(reserve.scale as nat)) == 0);
                                } else {
                                    assert(p.mantissa as nat == (reserve.mantissa * pow10(
                                        self.reserve as nat,
                                    )) as nat);
                                    assert(pow10(p.scale as nat) == pow10(reserve.scale as nat));
                                    assert(p.floor_val() == ((reserve.mantissa * pow10(
                                        self.reserve as nat,
                                    )) as nat) / pow10(reserve.scale as nat));
                                }
                                assert(v == (((reserve.mantissa * pow10(self.reserve as nat)) as nat)
                                    / pow10(reserve.scale as nat)) as u128);
                            }
                        }
                        Ok(v)
                    },
                    None => Err(ContractError::Overflow),
                }
            },
            None => Err(ContractError::Overflow),
        }
    }

    /// Denormalize a supply-side decimal to a raw supply amount, flooring.
    pub fn to_supply(&self, supply: &Decimal) -> (r: Result<u128, ContractError>)
        requires
            supply.wf(),
        ensures
            match to_amount_of(*supply, self.supply) {
                Ok(v) => r == Ok::<u128, ContractError>(v),
                Err(()) => r is Err,
            },
            r matches Err(e) ==> (e is Overflow || e is DivideByZero),
            self.supply <= MAX_SCALE && supply.mantissa * pow10(self.supply as nat)
                < MANTISSA_LIMIT ==> r == Ok::<u128, ContractError>(
                (((supply.mantissa * pow10(self.supply as nat)) as nat) / pow10(
                    supply.scale as nat,
                )) as u128,
            ),
    {
        if self.supply > MAX_SCALE {
            return Err(ContractError::Overflow);
        }
        let factor = Decimal { mantissa: pow10_u128(self.supply), scale: 0 };
        proof {
            crate::decimal::lemma_pow10_bounds(supply.scale as nat);
        }
        match dec_mul(supply, &factor) {
            Some(p) => {
                proof {
                    if supply.mantissa * pow10(self.supply as nat) < MANTISSA_LIMIT {
                        if supply.mantissa == 0 {
                            assert(p == (Decimal { mantissa: 0u128, scale: 0u32 }));
                            assert(p.floor_val() == 0) by {
                                assert(pow10(0) == 1);
                            }
                        } else {
                            assert(p.mantissa == supply.mantissa * pow10(self.supply as nat));
                            assert(p.scale == supply.scale);
                        }
                    }
                }
                match crate::decimal::floor_u128(&p) {
                    Some(v) => {
                        proof {
                            if self.supply <= MAX_SCALE && supply.mantissa * pow10(
                                self.supply as nat,
                            ) < MANTISSA_LIMIT {
                                if supply.mantissa == 0 {
                                    assert(v == 0);
                                    assert(supply.mantissa * pow10(self.supply as nat) == 0) by (nonlinear_arith)
                                        requires
                                            supply.mantissa == 0,
                                    ;
                                    assert((((supply.mantissa * pow10(self.supply as nat)) as nat)
                                        / pow10(supply.scale as nat)) == 0);
                                } else {
                                    assert(p.mantissa as nat == (supply.mantissa * pow10(
                                        self.supply as nat,
                                    )) as nat);
                                    assert(pow10(p.scale as nat) == pow10(supply.scale as nat));
                                    assert(p.floor_val() == ((supply.mantissa * pow10(
                                        self.supply as nat,
                                    )) as nat) / pow10(supply.scale as nat));
                                }
                                assert(v == (((supply.mantissa * pow10(self.supply as nat)) as nat)
                                    / pow10(supply.scale as nat)) as u128);
                            }
                        }
                        Ok(v)
                    },
                    None => Err(ContractError::Overflow),
                }
            },
            None => Err(ContractError::Overflow),
        }
    }

    /// Normalize a raw supply amount into the calculus domain.
    pub fn from_supply(&self, supply: u128) -> (r: Result<Decimal, ContractError>)
        ensures
            match from_amount_of(supply, self.supply) {
                Ok(d) => r == Ok::<Decimal, ContractError>(d) && d.wf(),
                Err(()) => r is Err,
            },
            r matches Err(e) ==> (e is Overflow || e is DivideByZero),
            supply < MANTISSA_LIMIT && self.supply <= MAX_SCALE && supply % (pow10(
                self.supply as nat,
            ) as u128) == 0 ==> r == Ok::<Decimal, ContractError>(
                Decimal { mantissa: supply / (pow10(self.supply as nat) as u128), scale: 0 },
            ),
    {
        if supply >= MANTISSA_LIMIT || self.supply > MAX_SCALE {
            return Err(ContractError::Overflow);
        }
        let x = Decimal { mantissa: supply, scale: 0 };
        let factor = Decimal { mantissa: pow10_u128(self.supply), scale: 0 };
        match dec_div(&x, &factor) {
            Some(q) => Ok(q),
            None => Err(ContractError::DivideByZero),
        }
    }

    /// Normalize a raw reserve amount into the calculus domain.
    pub fn from_reserve(&self, reserve: u128) -> (r: Result<Decimal, ContractError>)
        ensures
            match from_amount_of(reserve, self.reserve) {
                Ok(d) => r == Ok::<Decimal, ContractError>(d) && d.wf(),
                Err(()) => r is Err,
            },
            r matches Err(e) ==> (e is Overflow || e is DivideByZero),
            reserve < MANTISSA_LIMIT && self.reserve <= MAX_SCALE && reserve % (pow10(
                self.reserve as nat,
            ) as u128) == 0 ==> r == Ok::<Decimal, ContractError>(
                Decimal { mantissa: reserve / (pow10(self.reserve as nat) as u128), scale: 0 },
            ),
    {
        if reserve >= MANTISSA_LIMIT || self.reserve > MAX_SCALE {
            return Err(ContractError::Overflow);
        }
        let x = Decimal { mantissa: reserve, scale: 0 };
        let factor = Decimal { mantissa: pow10_u128(self.reserve), scale: 0 };
        match dec_div(&x, &factor) {
            Some(q) => Ok(q),
            None => Err(ContractError::DivideByZero),
        }
    }
}

} // verus!
verus! {


/// Whether `supply` raw units are a whole number of tokens at `places`
/// decimal places, inside the representable range: in this regime the
/// normalization into the calculus domain is exact.
pub open spec fn whole_tokens(amount: u128, places: u32) -> bool {
    &&& amount < MANTISSA_LIMIT
    &&& places <= MAX_SCALE
    &&& amount % (pow10(places as nat) as u128) == 0
}

/// The whole tokens in `amount` raw units at `places` decimal places.
pub open spec fn tokens_of(amount: u128, places: u32) -> nat {
    amount as nat / pow10(places as nat)
}

/// When every step of the constant curve's reserve computation is exact:
/// the supply is a whole number of tokens and no intermediate product
/// leaves the 96-bit mantissa.
pub open spec fn constant_reserve_fits(value: Decimal, normalize: DecimalPlaces, supply: u128) -> bool {
    &&& whole_tokens(supply, normalize.supply)
    &&& normalize.reserve <= MAX_SCALE
    &&& tokens_of(supply, normalize.supply) * value.mantissa < MANTISSA_LIMIT
    &&& tokens_of(supply, normalize.supply) * value.mantissa * pow10(normalize.reserve as nat)
        < MANTISSA_LIMIT
}

/// The constant curve's reserve in the exact regime:
/// `floor(tokens * value * 10^reserve_places)` in raw reserve units.
pub open spec fn constant_reserve_exact(value: Decimal, normalize: DecimalPlaces, supply: u128) -> nat {
    ((tokens_of(supply, normalize.supply) * value.mantissa * pow10(
        normalize.reserve as nat,
    )) as nat) / pow10(value.scale as nat)
}

/// When every step of the linear curve's reserve computation is exact.
pub open spec fn linear_reserve_fits(slope: Decimal, normalize: DecimalPlaces, supply: u128) -> bool {
    let q = tokens_of(supply, normalize.supply);
    &&& whole_tokens(supply, normalize.supply)
    &&& normalize.reserve <= MAX_SCALE
    &&& q * q < MANTISSA_LIMIT
    &&& q * q * slope.mantissa < MANTISSA_LIMIT
    &&& slope.scale + 1 <= MAX_SCALE
    &&& q * q * slope.mantissa * 5 < MANTISSA_LIMIT
    &&& q * q * slope.mantissa * 5 * pow10(normalize.reserve as nat) < MANTISSA_LIMIT
}

/// The linear curve's reserve in the exact regime:
/// `floor(slope * tokens^2 / 2 * 10^reserve_places)` in raw reserve
/// units.
pub open spec fn linear_reserve_exact(slope: Decimal, normalize: DecimalPlaces, supply: u128) -> nat {
    let q = tokens_of(supply, normalize.supply);
    ((q * q * slope.mantissa * 5 * pow10(normalize.reserve as nat)) as nat) / pow10(
        slope.scale as nat + 1,
    )
}

/// When the linear curve's spot-price multiplication is exact.
pub open spec fn linear_spot_fits(slope: Decimal, normalize: DecimalPlaces, supply: u128) -> bool {
    &&& whole_tokens(supply, normalize.supply)
    &&& tokens_of(supply, normalize.supply) * slope.mantissa < MANTISSA_LIMIT
}

/// A constant curve: the spot price is `value` at every supply.
#[derive(Clone, Copy, Debug, PartialEq, Eq, Structural)]
pub struct Constant {
    /// The constant spot price, in reserve per whole supply token.
    pub value: Decimal,
    /// The scales used to normalize between the two denominations.
    pub normalize: DecimalPlaces,
}

/// What the constant curve holds in reserve at a given supply:
/// `value * supply`, floored into raw reserve units.
pub open spec fn constant_reserve_of(value: Decimal, normalize: DecimalPlaces, supply: u128) -> Result<u128, ()> {
    match from_amount_of(supply, normalize.supply) {
        Err(()) => Err(()),
        Ok(n) => match dec_mul_of(n, value) {
            None => Err(()),
            Some(p) => to_amount_of(p, normalize.reserve),
        },
    }
}

/// What the constant curve issues for a given reserve:
/// `reserve / value`, floored into raw supply units.
pub open spec fn constant_supply_of(value: Decimal, normalize: DecimalPlaces, reserve: u128) -> Result<u128, ()> {
    match from_amount_of(reserve, normalize.reserve) {
        Err(()) => Err(()),
        Ok(n) => match dec_div_of(n, value) {
            None => Err(()),
            Some(q) => to_amount_of(q, normalize.supply),
        },
    }
}

impl Constant {
    /// A constant curve is well formed when its value is.
    pub open spec fn wf(&self) -> bool {
        self.value.wf()
    }

    /// Make a constant curve.
    pub fn new(value: Decimal, normalize: DecimalPlaces) -> (r: Constant)
        ensures
            r == (Constant { value, normalize }),
    {
        Constant { value, normalize }
    }

    /// The spot price: always the constant value, at any supply.
    pub fn spot_price(&self, _supply: u128) -> (r: Result<StdDecimal, ContractError>)
        requires
            self.wf(),
        ensures
            match decimal_to_std_of(self.value) {
                Ok(a) => r == Ok::<StdDecimal, ContractError>(StdDecimal { atomics: a }),
                Err(()) => r is Err,
            },
            r matches Err(e) ==> (e is Overflow || e is DivideByZero),
    {
        decimal_to_std(&self.value)
    }

    /// The reserve the curve requires to have issued `supply` tokens:
    /// `value * supply`.
    pub fn reserve(&self, supply: u128) -> (r: Result<u128, ContractError>)
        requires
            self.wf(),
        ensures
            match constant_reserve_of(self.value, self.normalize, supply) {
                Ok(v) => r == Ok::<u128, ContractError>(v),
                Err(()) => r is Err,
            },
            r matches Err(e) ==> (e is Overflow || e is DivideByZero),
            constant_reserve_fits(self.value, self.normalize, supply) ==> r == Ok::<
                u128,
                ContractError,
            >(constant_reserve_exact(self.value, self.normalize, supply) as u128),
    {
        let n = self.normalize.from_supply(supply)?;
        proof {
            if constant_reserve_fits(self.value, self.normalize, supply) {
                crate::decimal::lemma_pow10_bounds(self.normalize.supply as nat);
                assert(n.mantissa == tokens_of(supply, self.normalize.supply));
                assert(n.scale == 0);
            }
        }
        match dec_mul(&n, &self.value) {
            Some(p) => {
                proof {
                    if constant_reserve_fits(self.value, self.normalize, supply) {
                        let q = tokens_of(supply, self.normalize.supply);
                        if q == 0 || self.value.mantissa == 0 {
                            assert(p == (Decimal { mantissa: 0u128, scale: 0u32 }));
                            assert(q * self.value.mantissa == 0) by (nonlinear_arith)
                                requires
                                    q == 0 || self.value.mantissa == 0,
                            ;
                            assert(q * self.value.mantissa * pow10(self.normalize.reserve as nat)
                                == 0) by (nonlinear_arith)
                                requires
                                    q * self.value.mantissa == 0,
                            ;
                            crate::decimal::lemma_pow10_bounds(self.value.scale as nat);
                            assert(constant_reserve_exact(self.value, self.normalize, supply) == 0);
                            assert(p.mantissa * pow10(self.normalize.reserve as nat) == 0)
                                by (nonlinear_arith)
                                requires
                                    p.mantissa == 0,
                            ;
                        } else {
                            assert(p.mantissa == q * self.value.mantissa);
                            assert(p.scale == self.value.scale);
                            assert(p.mantissa * pow10(self.normalize.reserve as nat) == q
                                * self.value.mantissa * pow10(self.normalize.reserve as nat));
                        }
                    }
                }
                let out = self.normalize.to_reserve(&p);
                proof {
                    if constant_reserve_fits(self.value, self.normalize, supply) {
                        let q = tokens_of(supply, self.normalize.supply);
                        if q == 0 || self.value.mantissa == 0 {
                            assert(pow10(0) == 1);
                            assert(out == Ok::<u128, ContractError>(0u128));
                        } else {
                            assert(((p.mantissa * pow10(self.normalize.reserve as nat)) as nat) == (
                            q * self.value.mantissa * pow10(self.normalize.reserve as nat)) as nat);
                            assert(pow10(p.scale as nat) == pow10(self.value.scale as nat));
                            assert(q * self.value.mantissa * pow10(self.normalize.reserve as nat)
                                >= 0) by (nonlinear_arith);
                            assert(((p.mantissa * pow10(self.normalize.reserve as nat)) as nat)
                                / pow10(p.scale as nat) == constant_reserve_exact(
                                self.value,
                                self.normalize,
                                supply,
                            ));
                        }
                        assert(out == Ok::<u128, ContractError>(
                            constant_reserve_exact(self.value, self.normalize, supply) as u128,
                        ));
                    }
                }
                out
            },
            None => Err(ContractError::Overflow),
        }
    }

    /// The supply the curve issues for `reserve` tokens:
    /// `reserve / value`.
    pub fn supply(&self, reserve: u128) -> (r: Result<u128, ContractError>)
        requires
            self.wf(),
        ensures
            match constant_supply_of(self.value, self.normalize, reserve) {
                Ok(v) => r == Ok::<u128, ContractError>(v),
                Err(()) => r is Err,
            },
            r matches Err(e) ==> (e is Overflow || e is DivideByZero),
    {
        let n = self.normalize.from_reserve(reserve)?;
        match dec_div(&n, &self.value) {
            Some(q) => self.normalize.to_supply(&q),
            None => Err(ContractError::DivideByZero),
        }
    }
}

/// A linear curve: the spot price grows linearly with the supply.
#[derive(Clone, Copy, Debug, PartialEq, Eq, Structural)]
pub struct Linear {
    /// The slope of the price line.
    pub slope: Decimal,
    /// The scales used to normalize between the two denominations.
    pub normalize: DecimalPlaces,
}

/// What the linear curve quotes as spot price at a given supply:
/// `slope * supply`, as an 18-place ratio.
pub open spec fn linear_spot_price_of(slope: Decimal, normalize: DecimalPlaces, supply: u128) -> Result<u128, ()> {
    match from_amount_of(supply, normalize.supply) {
        Err(()) => Err(()),
        Ok(n) => match dec_mul_of(n, slope) {
            None => Err(()),
            Some(p) => decimal_to_std_of(p),
        },
    }
}

/// What the linear curve holds in reserve at a given supply:
/// `slope * supply^2 / 2`, floored into raw reserve units.
pub open spec fn linear_reserve_of(slope: Decimal, normalize: DecimalPlaces, supply: u128) -> Result<u128, ()> {
    match from_amount_of(supply, normalize.supply) {
        Err(()) => Err(()),
        Ok(n) => match dec_mul_of(n, n) {
            None => Err(()),
            Some(sq) => match dec_mul_of(sq, slope) {
                None => Err(()),
                Some(p1) => match dec_mul_of(p1, Decimal { mantissa: 5, scale: 1 }) {
                    None => Err(()),
                    Some(p2) => to_amount_of(p2, normalize.reserve),
                },
            },
        },
    }
}

/// What the linear curve issues for a given reserve:
/// `sqrt(2 * reserve / slope)`, floored into raw supply units.
pub open spec fn linear_supply_of(slope: Decimal, normalize: DecimalPlaces, reserve: u128) -> Result<u128, ()> {
    if reserve + reserve > u128::MAX {
        Err(())
    } else {
        match from_amount_of((reserve + reserve) as u128, normalize.reserve) {
            Err(()) => Err(()),
            Ok(n) => match dec_div_of(n, slope) {
                None => Err(()),
                Some(sq) => match square_root_of(sq) {
                    Err(()) => Err(()),
                    Ok(root) => to_amount_of(root, normalize.supply),
                },
            },
        }
    }
}

impl Linear {
    /// A linear curve is well formed when its slope is.
    pub open spec fn wf(&self) -> bool {
        self.slope.wf()
    }

    /// Make a linear curve.
    pub fn new(slope: Decimal, normalize: DecimalPlaces) -> (r: Linear)
        ensures
            r == (Linear { slope, normalize }),
    {
        Linear { slope, normalize }
    }

    /// The spot price at `supply`: `slope * supply`.
    pub fn spot_price(&self, supply: u128) -> (r: Result<StdDecimal, ContractError>)
        requires
            self.wf(),
        ensures
            match linear_spot_price_of(self.slope, self.normalize, supply) {
                Ok(a) => r == Ok::<StdDecimal, ContractError>(StdDecimal { atomics: a }),
                Err(()) => r is Err,
            },
            r matches Err(e) ==> (e is Overflow || e is DivideByZero),
            linear_spot_fits(self.slope, self.normalize, supply) ==> match decimal_to_std_of(
                Decimal {
                    mantissa: (tokens_of(supply, self.normalize.supply)
                        * self.slope.mantissa) as u128,
                    scale: self.slope.scale,
                },
            ) {
                Ok(a) => r == Ok::<StdDecimal, ContractError>(StdDecimal { atomics: a }),
                Err(()) => r == Err::<StdDecimal, ContractError>(ContractError::Overflow),
            },
    {
        let n = self.normalize.from_supply(supply)?;
        proof {
            if linear_spot_fits(self.slope, self.normalize, supply) {
                crate::decimal::lemma_pow10_bounds(self.normalize.supply as nat);
                assert(n.mantissa == tokens_of(supply, self.normalize.supply));
                assert(n.scale == 0);
            }
        }
        match dec_mul(&n, &self.slope) {
            Some(p) => {
                proof {
                    if linear_spot_fits(self.slope, self.normalize, supply) {
                        let q = tokens_of(supply, self.normalize.supply);
                        if q == 0 || self.slope.mantissa == 0 {
                            assert(q * self.slope.mantissa == 0) by (nonlinear_arith)
                                requires
                                    q == 0 || self.slope.mantissa == 0,
                            ;
                            assert(p == (Decimal { mantissa: 0u128, scale: 0u32 }));
                            lemma_decimal_to_std_of_zero(self.slope.scale);
                            assert(decimal_to_std_of(p) == Ok::<u128, ()>(0u128)) by {
                                assert(0u128 * pow10(18nat) == 0) by (nonlinear_arith);
                            }
                        } else {
                            assert(p.mantissa == q * self.slope.mantissa);
                            assert(p.scale == self.slope.scale);
                        }
                    }
                }
                decimal_to_std(&p)
            },
            None => Err(ContractError::Overflow),
        }
    }

    /// The reserve the curve requires to have issued `supply` tokens:
    /// `slope * supply^2 / 2`.
    pub fn reserve(&self, supply: u128) -> (r: Result<u128, ContractError>)
        requires
            self.wf(),
        ensures
            match linear_reserve_of(self.slope, self.normalize, supply) {
                Ok(v) => r == Ok::<u128, ContractError>(v),
                Err(()) => r is Err,
            },
            r matches Err(e) ==> (e is Overflow || e is DivideByZero),
            linear_reserve_fits(self.slope, self.normalize, supply) ==> r == Ok::<
                u128,
                ContractError,
            >(linear_reserve_exact(self.slope, self.normalize, supply) as u128),
    {
        let ghost fits = linear_reserve_fits(self.slope, self.normalize, supply);
        let ghost q = tokens_of(supply, self.normalize.supply);
        let n = self.normalize.from_supply(supply)?;
        proof {
            if fits {
                crate::decimal::lemma_pow10_bounds(self.normalize.supply as nat);
                assert(n.mantissa == q);
                assert(n.scale == 0);
            }
        }
        let sq = match dec_mul(&n, &n) {
            Some(x) => x,
            None => {
                return Err(ContractError::Overflow);
            },
        };
        let p1 = match dec_mul(&sq, &self.slope) {
            Some(x) => x,
            None => {
                return Err(ContractError::Overflow);
            },
        };
        proof {
            if fits {
                if n.mantissa == 0 {
                    assert(sq == (Decimal { mantissa: 0u128, scale: 0u32 }));
                    assert(q * q == 0) by (nonlinear_arith)
                        requires
                            q == 0,
                    ;
                } else {
                    assert(sq.mantissa == q * q);
                    assert(sq.scale == 0);
                }
                if sq.mantissa == 0 || self.slope.mantissa == 0 {
                    assert(p1 == (Decimal { mantissa: 0u128, scale: 0u32 }));
                    assert(q * q * self.slope.mantissa == 0) by (nonlinear_arith)
                        requires
                            q * q == 0 || self.slope.mantissa == 0,
                    ;
                } else {
                    assert(p1.mantissa == q * q * self.slope.mantissa);
                    assert(p1.scale == self.slope.scale);
                }
            }
        }
        let half = Decimal { mantissa: 5, scale: 1 };
        let p2 = match dec_mul(&p1, &half) {
            Some(x) => x,
            None => {
                return Err(ContractError::Overflow);
            },
        };
        let ghost m5 = q * q * self.slope.mantissa * 5;
        proof {
            if fits {
                if p1.mantissa == 0 {
                    assert(p2 == (Decimal { mantissa: 0u128, scale: 0u32 }));
                    assert(q * q * self.slope.mantissa * 5 == 0) by (nonlinear_arith)
                        requires
                            q * q * self.slope.mantissa == 0,
                    ;
                    assert(m5 == 0);
                    assert(q * q * self.slope.mantissa * 5 * pow10(self.normalize.reserve as nat)
                        == 0) by (nonlinear_arith)
                        requires
                            q * q * self.slope.mantissa * 5 == 0,
                    ;
                    assert(m5 * pow10(self.normalize.reserve as nat) == 0);
                    assert(p2.mantissa * pow10(self.normalize.reserve as nat) == 0)
                        by (nonlinear_arith)
                        requires
                            p2.mantissa == 0,
                    ;
                    crate::decimal::lemma_pow10_bounds((self.slope.scale + 1) as nat);
                    assert(linear_reserve_exact(self.slope, self.normalize, supply) == 0);
                } else {
                    assert(p2.mantissa == m5);
                    assert(p2.scale == self.slope.scale + 1);
                    assert(p2.mantissa * pow10(self.normalize.reserve as nat) == m5 * pow10(
                        self.normalize.reserve as nat,
                    ));
                }
            }
        }
        let out = self.normalize.to_reserve(&p2);
        proof {
            if fits {
                if p2.mantissa == 0 {
                    assert(pow10(0) == 1);
                    assert(out == Ok::<u128, ContractError>(0u128));
                } else {
                    assert(((p2.mantissa * pow10(self.normalize.reserve as nat)) as nat) == (m5
                        * pow10(self.normalize.reserve as nat)) as nat);
                    assert(pow10(p2.scale as nat) == pow10(self.slope.scale as nat + 1));
                    assert(q * q * self.slope.mantissa * 5 * pow10(self.normalize.reserve as nat)
                        >= 0) by (nonlinear_arith);
                    assert(m5 * pow10(self.normalize.reserve as nat) >= 0);
                }
            }
        }
        out
    }

    /// The supply the curve issues for `reserve` tokens:
    /// `sqrt(2 * reserve / slope)`.
    pub fn supply(&self, reserve: u128) -> (r: Result<u128, ContractError>)
        requires
            self.wf(),
        ensures
            match linear_supply_of(self.slope, self.normalize, reserve) {
                Ok(v) => r == Ok::<u128, ContractError>(v),
                Err(()) => r is Err,
            },
            r matches Err(e) ==> (e is Overflow || e is DivideByZero),
    {
        let doubled = match reserve.checked_add(reserve) {
            Some(x) => x,
            None => {
                return Err(ContractError::Overflow);
            },
        };
        let n = self.normalize.from_reserve(doubled)?;
        let sq = match dec_div(&n, &self.slope) {
            Some(x) => x,
            None => {
                return Err(ContractError::DivideByZero);
            },
        };
        let root = square_root(&sq)?;
        self.normalize.to_supply(&root)
    }
}

/// A square-root curve: the spot price grows with the square root of the
/// supply.
#[derive(Clone, Copy, Debug, PartialEq, Eq, Structural)]
pub struct SquareRoot {
    /// The multiplier of the square-root price function.
    pub slope: Decimal,
    /// The scales used to normalize between the two denominations.
    pub normalize: DecimalPlaces,
}

/// What the square-root curve quotes as spot price at a given supply:
/// `slope * sqrt(supply)`, as an 18-place ratio.
pub open spec fn sqrt_spot_price_of(slope: Decimal, normalize: DecimalPlaces, supply: u128) -> Result<u128, ()> {
    match from_amount_of(supply, normalize.supply) {
        Err(()) => Err(()),
        Ok(n) => match square_root_of(n) {
            Err(()) => Err(()),
            Ok(root) => match dec_mul_of(root, slope) {
                None => Err(()),
                Some(p) => decimal_to_std_of(p),
            },
        },
    }
}

/// What the square-root curve holds in reserve at a given supply:
/// `slope * supply * sqrt(supply) / 1.5`, floored into raw reserve units.
pub open spec fn sqrt_reserve_of(slope: Decimal, normalize: DecimalPlaces, supply: u128) -> Result<u128, ()> {
    match from_amount_of(supply, normalize.supply) {
        Err(()) => Err(()),
        Ok(n) => match square_root_of(n) {
            Err(()) => Err(()),
            Ok(root) => match dec_mul_of(n, root) {
                None => Err(()),
                Some(p1) => match dec_mul_of(p1, slope) {
                    None => Err(()),
                    Some(p2) => match dec_div_of(p2, Decimal { mantissa: 15, scale: 1 }) {
                        None => Err(()),
                        Some(q) => to_amount_of(q, normalize.reserve),
                    },
                },
            },
        },
    }
}

/// What the square-root curve issues for a given reserve:
/// `(1.5 * reserve / slope)^(2/3)`, floored into raw supply units.
pub open spec fn sqrt_supply_of(slope: Decimal, normalize: DecimalPlaces, reserve: u128) -> Result<u128, ()> {
    match from_amount_of(reserve, normalize.reserve) {
        Err(()) => Err(()),
        Ok(n) => match dec_mul_of(n, Decimal { mantissa: 15, scale: 1 }) {
            None => Err(()),
            Some(p) => match dec_div_of(p, slope) {
                None => Err(()),
                Some(base) => match dec_mul_of(base, base) {
                    None => Err(()),
                    Some(sq) => match cube_root_of(sq) {
                        Err(()) => Err(()),
                        Ok(c) => to_amount_of(c, normalize.supply),
                    },
                },
            },
        },
    }
}

impl SquareRoot {
    /// A square-root curve is well formed when its slope is.
    pub open spec fn wf(&self) -> bool {
        self.slope.wf()
    }

    /// Make a square-root curve.
    pub fn new(slope: Decimal, normalize: DecimalPlaces) -> (r: SquareRoot)
        ensures
            r == (SquareRoot { slope, normalize }),
    {
        SquareRoot { slope, normalize }
    }

    /// The spot price at `supply`: `slope * sqrt(supply)`.
    pub fn spot_price(&self, supply: u128) -> (r: Result<StdDecimal, ContractError>)
        requires
            self.wf(),
        ensures
            match sqrt_spot_price_of(self.slope, self.normalize, supply) {
                Ok(a) => r == Ok::<StdDecimal, ContractError>(StdDecimal { atomics: a }),
                Err(()) => r is Err,
            },
            r matches Err(e) ==> (e is Overflow || e is DivideByZero),
    {
        let n = self.normalize.from_supply(supply)?;
        let root = square_root(&n)?;
        match dec_mul(&root, &self.slope) {
            Some(p) => decimal_to_std(&p),
            None => Err(ContractError::Overflow),
        }
    }

    /// The reserve the curve requires to have issued `supply` tokens:
    /// `slope * supply * sqrt(supply) / 1.5`.
    pub fn reserve(&self, supply: u128) -> (r: Result<u128, ContractError>)
        requires
            self.wf(),
        ensures
            match sqrt_reserve_of(self.slope, self.normalize, supply) {
                Ok(v) => r == Ok::<u128, ContractError>(v),
                Err(()) => r is Err,
            },
            r matches Err(e) ==> (e is Overflow || e is DivideByZero),
    {
        let n = self.normalize.from_supply(supply)?;
        let root = square_root(&n)?;
        let p1 = match dec_mul(&n, &root) {
            Some(x) => x,
            None => {
                return Err(ContractError::Overflow);
            },
        };
        let p2 = match dec_mul(&p1, &self.slope) {
            Some(x) => x,
            None => {
                return Err(ContractError::Overflow);
            },
        };
        let sesqui = Decimal { mantissa: 15, scale: 1 };
        let q = match dec_div(&p2, &sesqui) {
            Some(x) => x,
            None => {
                return Err(ContractError::DivideByZero);
            },
        };
        self.normalize.to_reserve(&q)
    }

    /// The supply the curve issues for `reserve` tokens:
    /// `(1.5 * reserve / slope)^(2/3)`.
    pub fn supply(&self, reserve: u128) -> (r: Result<u128, ContractError>)
        requires
            self.wf(),
        ensures
            match sqrt_supply_of(self.slope, self.normalize, reserve) {
                Ok(v) => r == Ok::<u128, ContractError>(v),
                Err(()) => r is Err,
            },
            r matches Err(e) ==> (e is Overflow || e is DivideByZero),
    {
        let n = self.normalize.from_reserve(reserve)?;
        let sesqui = Decimal { mantissa: 15, scale: 1 };
        let p = match dec_mul(&n, &sesqui) {
            Some(x) => x,
            None => {
                return Err(ContractError::Overflow);
            },
        };
        let base = match dec_div(&p, &self.slope) {
            Some(x) => x,
            None => {
                return Err(ContractError::DivideByZero);
            },
        };
        let sq = match dec_mul(&base, &base) {
            Some(x) => x,
            None => {
                return Err(ContractError::Overflow);
            },
        };
        let c = cube_root(&sq)?;
        self.normalize.to_supply(&c)
    }
}

/// A bonding curve of one of the three shapes, ready to price trades.
#[derive(Clone, Copy, Debug, PartialEq, Eq, Structural)]
pub enum Curve {
    Constant(Constant),
    Linear(Linear),
    SquareRoot(SquareRoot),
}

/// What a curve quotes as spot price at a given supply.
pub open spec fn curve_spot_price_of(c: Curve, supply: u128) -> Result<u128, ()> {
    match c {
        Curve::Constant(k) => decimal_to_std_of(k.value),
        Curve::Linear(l) => linear_spot_price_of(l.slope, l.normalize, supply),
        Curve::SquareRoot(s) => sqrt_spot_price_of(s.slope, s.normalize, supply),
    }
}

/// What a curve holds in reserve at a given supply.
pub open spec fn curve_reserve_of(c: Curve, supply: u128) -> Result<u128, ()> {
    match c {
        Curve::Constant(k) => constant_reserve_of(k.value, k.normalize, supply),
        Curve::Linear(l) => linear_reserve_of(l.slope, l.normalize, supply),
        Curve::SquareRoot(s) => sqrt_reserve_of(s.slope, s.normalize, supply),
    }
}

/// What a curve issues for a given reserve.
pub open spec fn curve_supply_of(c: Curve, reserve: u128) -> Result<u128, ()> {
    match c {
        Curve::Constant(k) => constant_supply_of(k.value, k.normalize, reserve),
        Curve::Linear(l) => linear_supply_of(l.slope, l.normalize, reserve),
        Curve::SquareRoot(s) => sqrt_supply_of(s.slope, s.normalize, reserve),
    }
}

impl Curve {
    /// A curve is well formed when its value or slope is.
    pub open spec fn wf(&self) -> bool {
        match *self {
            Curve::Constant(k) => k.wf(),
            Curve::Linear(l) => l.wf(),
            Curve::SquareRoot(s) => s.wf(),
        }
    }

    /// The spot price at `supply`.
    pub fn spot_price(&self, supply: u128) -> (r: Result<StdDecimal, ContractError>)
        requires
            self.wf(),
        ensures
            match curve_spot_price_of(*self, supply) {
                Ok(a) => r == Ok::<StdDecimal, ContractError>(StdDecimal { atomics: a }),
                Err(()) => r is Err,
            },
            r matches Err(e) ==> (e is Overflow || e is DivideByZero),
    {
        match self {
            Curve::Constant(k) => k.spot_price(supply),
            Curve::Linear(l) => l.spot_price(supply),
            Curve::SquareRoot(s) => s.spot_price(supply),
        }
    }

    /// The reserve the curve requires to have issued `supply` tokens.
    pub fn reserve(&self, supply: u128) -> (r: Result<u128, ContractError>)
        requires
            self.wf(),
        ensures
            match curve_reserve_of(*self, supply) {
                Ok(v) => r == Ok::<u128, ContractError>(v),
                Err(()) => r is Err,
            },
            r matches Err(e) ==> (e is Overflow || e is DivideByZero),
    {
        match self {
            Curve::Constant(k) => k.reserve(supply),
            Curve::Linear(l) => l.reserve(supply),
            Curve::SquareRoot(s) => s.reserve(supply),
        }
    }

    /// The supply the curve issues for `reserve` tokens.
    pub fn supply(&self, reserve: u128) -> (r: Result<u128, ContractError>)
        requires
            self.wf(),
        ensures
            match curve_supply_of(*self, reserve) {
                Ok(v) => r == Ok::<u128, ContractError>(v),
                Err(()) => r is Err,
            },
            r matches Err(e) ==> (e is Overflow || e is DivideByZero),
    {
        match self {
            Curve::Constant(k) => k.supply(reserve),
            Curve::Linear(l) => l.supply(reserve),
            Curve::SquareRoot(s) => s.supply(reserve),
        }
    }
}

/// What building a curve from its declared type yields: the declared
/// number `n * 10^-scale` as the curve's value or slope, with the given
/// normalization, failing when the number is not representable.
pub open spec fn curve_of_type(t: CurveType, normalize: DecimalPlaces) -> Result<Curve, ()> {
    match t {
        CurveType::Constant { value, scale } => if value < MANTISSA_LIMIT && scale <= MAX_SCALE {
            Ok(Curve::Constant(Constant { value: Decimal { mantissa: value, scale }, normalize }))
        } else {
            Err(())
        },
        CurveType::Linear { slope, scale } => if slope < MANTISSA_LIMIT && scale <= MAX_SCALE {
            Ok(Curve::Linear(Linear { slope: Decimal { mantissa: slope, scale }, normalize }))
        } else {
            Err(())
        },
        CurveType::SquareRoot { slope, scale } => if slope < MANTISSA_LIMIT && scale <= MAX_SCALE {
            Ok(Curve::SquareRoot(SquareRoot { slope: Decimal { mantissa: slope, scale }, normalize }))
        } else {
            Err(())
        },
    }
}

impl CurveType {
    /// Build the pricing curve this type declares, over the given
    /// normalization.
    pub fn to_curve_fn(&self, normalize: DecimalPlaces) -> (r: Result<Curve, ContractError>)
        ensures
            match curve_of_type(*self, normalize) {
                Ok(c) => r == Ok::<Curve, ContractError>(c) && c.wf(),
                Err(()) => r is Err,
            },
            r matches Err(e) ==> (e is Overflow || e is DivideByZero),
    {
        match self {
            CurveType::Constant { value, scale } => {
                let v = decimal(*value, *scale)?;
                Ok(Curve::Constant(Constant::new(v, normalize)))
            },
            CurveType::Linear { slope, scale } => {
                let s = decimal(*slope, *scale)?;
                Ok(Curve::Linear(Linear::new(s, normalize)))
            },
            CurveType::SquareRoot { slope, scale } => {
                let s = decimal(*slope, *scale)?;
                Ok(Curve::SquareRoot(SquareRoot::new(s, normalize)))
            },
        }
    }
}

} // verus!
verus! {

/// The constant curve's spot price does not depend on the supply: it
/// quotes the same price at every supply.
pub proof fn lemma_constant_spot_price_supply_independent(k: Constant, s1: u128, s2: u128)
    ensures
        curve_spot_price_of(Curve::Constant(k), s1) == curve_spot_price_of(Curve::Constant(k), s2),
{
}

/// The constant curve's reserve never falls as the supply grows, over the
/// exact regime (whole-token supplies whose intermediate products stay
/// representable).
pub proof fn lemma_constant_reserve_monotonic(
    value: Decimal,
    normalize: DecimalPlaces,
    s1: u128,
    s2: u128,
)
    requires
        s1 <= s2,
        constant_reserve_fits(value, normalize, s1),
        constant_reserve_fits(value, normalize, s2),
    ensures
        constant_reserve_exact(value, normalize, s1) <= constant_reserve_exact(
            value,
            normalize,
            s2,
        ),
{
    let p = pow10(normalize.supply as nat);
    let rp = pow10(normalize.reserve as nat);
    let vs = pow10(value.scale as nat);
    crate::decimal::lemma_pow10_bounds(normalize.supply as nat);
    crate::decimal::lemma_pow10_mono(0, value.scale as nat);
    let q1 = tokens_of(s1, normalize.supply);
    let q2 = tokens_of(s2, normalize.supply);
    vstd::arithmetic::div_mod::lemma_div_is_ordered(s1 as int, s2 as int, p as int);
    assert(q1 <= q2);
    assert(q1 * value.mantissa * rp <= q2 * value.mantissa * rp) by (nonlinear_arith)
        requires
            q1 <= q2,
            value.mantissa >= 0,
            rp >= 0,
    ;
    assert(q1 * value.mantissa * rp >= 0) by (nonlinear_arith);
    vstd::arithmetic::div_mod::lemma_div_is_ordered(
        (q1 * value.mantissa * rp) as int,
        (q2 * value.mantissa * rp) as int,
        vs as int,
    );
}

/// The linear curve's reserve never falls as the supply grows, over the
/// exact regime (whole-token supplies whose intermediate products stay
/// representable).
pub proof fn lemma_linear_reserve_monotonic(
    slope: Decimal,
    normalize: DecimalPlaces,
    s1: u128,
    s2: u128,
)
    requires
        s1 <= s2,
        linear_reserve_fits(slope, normalize, s1),
        linear_reserve_fits(slope, normalize, s2),
    ensures
        linear_reserve_exact(slope, normalize, s1) <= linear_reserve_exact(slope, normalize, s2),
{
    let p = pow10(normalize.supply as nat);
    let rp = pow10(normalize.reserve as nat);
    let vs = pow10(slope.scale as nat + 1);
    crate::decimal::lemma_pow10_bounds(normalize.supply as nat);
    crate::decimal::lemma_pow10_mono(0, slope.scale as nat + 1);
    let q1 = tokens_of(s1, normalize.supply);
    let q2 = tokens_of(s2, normalize.supply);
    vstd::arithmetic::div_mod::lemma_div_is_ordered(s1 as int, s2 as int, p as int);
    assert(q1 <= q2);
    assert(q1 * q1 * slope.mantissa * 5 * rp <= q2 * q2 * slope.mantissa * 5 * rp)
        by (nonlinear_arith)
        requires
            0 <= q1 <= q2,
            slope.mantissa >= 0,
            rp >= 0,
    ;
    assert(q1 * q1 * slope.mantissa * 5 * rp >= 0) by (nonlinear_arith);
    vstd::arithmetic::div_mod::lemma_div_is_ordered(
        (q1 * q1 * slope.mantissa * 5 * rp) as int,
        (q2 * q2 * slope.mantissa * 5 * rp) as int,
        vs as int,
    );
}

} // verus!
verus! {

/// Converting a zero decimal to the 18-place ratio yields zero, whatever
/// its scale.
proof fn lemma_decimal_to_std_of_zero(scale: u32)
    requires
        scale <= MAX_SCALE,
    ensures
        decimal_to_std_of(Decimal { mantissa: 0, scale }) == Ok::<u128, ()>(0u128),
{
    if scale <= 18 {
        assert(0u128 * pow10((18 - scale) as nat) == 0) by (nonlinear_arith);
    } else {
        crate::decimal::lemma_pow10_bounds((scale - 18) as nat);
    }
}

/// The linear curve's spot price never falls as the supply grows, over
/// the exact regime (whole-token supplies whose slope product stays
/// representable): wherever both prices convert, the price at the larger
/// supply is at least the price at the smaller, and a representable
/// larger price makes the smaller representable too.
pub proof fn lemma_linear_spot_price_monotonic(
    slope: Decimal,
    normalize: DecimalPlaces,
    s1: u128,
    s2: u128,
)
    requires
        slope.wf(),
        s1 <= s2,
        linear_spot_fits(slope, normalize, s1),
        linear_spot_fits(slope, normalize, s2),
    ensures
        ({
            let d1 = decimal_to_std_of(
                Decimal {
                    mantissa: (tokens_of(s1, normalize.supply) * slope.mantissa) as u128,
                    scale: slope.scale,
                },
            );
            let d2 = decimal_to_std_of(
                Decimal {
                    mantissa: (tokens_of(s2, normalize.supply) * slope.mantissa) as u128,
                    scale: slope.scale,
                },
            );
            &&& (match (d1, d2) {
                (Ok(a1), Ok(a2)) => a1 <= a2,
                _ => true,
            })
            &&& (d2 is Ok ==> d1 is Ok)
        }),
{
    let p = pow10(normalize.supply as nat);
    crate::decimal::lemma_pow10_bounds(normalize.supply as nat);
    let q1 = tokens_of(s1, normalize.supply);
    let q2 = tokens_of(s2, normalize.supply);
    vstd::arithmetic::div_mod::lemma_div_is_ordered(s1 as int, s2 as int, p as int);
    assert(q1 <= q2);
    let m1 = q1 * slope.mantissa;
    let m2 = q2 * slope.mantissa;
    assert(m1 <= m2) by (nonlinear_arith)
        requires
            q1 <= q2,
            slope.mantissa >= 0,
            m1 == q1 * slope.mantissa,
            m2 == q2 * slope.mantissa,
    ;
    assert(m1 >= 0) by (nonlinear_arith)
        requires
            m1 == q1 * slope.mantissa,
            q1 >= 0,
            slope.mantissa >= 0,
    ;
    assert((m1 as u128) == m1);
    assert((m2 as u128) == m2);
    let x1 = Decimal { mantissa: (q1 * slope.mantissa) as u128, scale: slope.scale };
    let x2 = Decimal { mantissa: (q2 * slope.mantissa) as u128, scale: slope.scale };
    if slope.scale <= 18 {
        let f = pow10((18 - slope.scale) as nat);
        crate::decimal::lemma_pow10_mono(0, (18 - slope.scale) as nat);
        assert(m1 * f <= m2 * f) by (nonlinear_arith)
            requires
                0 <= m1 <= m2,
                f >= 0,
        ;
        assert(m1 * f >= 0) by (nonlinear_arith)
            requires
                m1 >= 0,
                f >= 0,
        ;
        assert(x1.mantissa * pow10((18 - x1.scale) as nat) == m1 * f);
        assert(x2.mantissa * pow10((18 - x2.scale) as nat) == m2 * f);
        if m2 * f <= STD_ATOMICS_MAX as int {
            assert(decimal_to_std_of(x2) == Ok::<u128, ()>((m2 * f) as u128));
            assert(decimal_to_std_of(x1) == Ok::<u128, ()>((m1 * f) as u128));
            assert(((m1 * f) as u128) <= ((m2 * f) as u128));
        } else {
            assert(decimal_to_std_of(x2) is Err);
        }
    } else {
        let f = pow10((slope.scale - 18) as nat);
        crate::decimal::lemma_pow10_bounds((slope.scale - 18) as nat);
        assert((f as u128) == f);
        vstd::arithmetic::div_mod::lemma_div_is_ordered(m1 as int, m2 as int, f as int);
        assert(decimal_to_std_of(x1) == Ok::<u128, ()>(x1.mantissa / (f as u128)));
        assert(decimal_to_std_of(x2) == Ok::<u128, ()>(x2.mantissa / (f as u128)));
        assert(x1.mantissa / (f as u128) <= x2.mantissa / (f as u128));
    }
}

} // verus!
