use vstd::prelude::*;

use crate::abc::StdDecimal;
use crate::error::ContractError;

verus! {

/// The largest mantissa a `Decimal` can carry: `2^96`.
pub const MANTISSA_LIMIT: u128 = 0x1_0000_0000_0000_0000_0000_0000;

/// The largest scale a `Decimal` can carry.
pub const MAX_SCALE: u32 = 28;

/// A non-negative fixed-point decimal: the value `mantissa * 10^-scale`,
/// with a 96-bit mantissa and at most 28 decimal places. This is the
/// calculus domain of the curve math; amounts of reserve and supply tokens
/// are normalized into it and results are floored back out of it.
#[derive(Clone, Copy, Debug, PartialEq, Eq, Structural)]
pub struct Decimal {
    /// The digits of the value.
    pub mantissa: u128,
    /// How many of the digits lie behind the decimal point.
    pub scale: u32,
}

/// `10^e`.
pub open spec fn pow10(e: nat) -> nat
    decreases e,
{
    if e == 0 {
        1nat
    } else {
        10nat * pow10((e - 1) as nat)
    }
}

impl Decimal {
    /// A decimal is well formed when its mantissa and scale are within the
    /// representable range.
    pub open spec fn wf(&self) -> bool {
        &&& self.mantissa < MANTISSA_LIMIT
        &&& self.scale <= MAX_SCALE
    }

    /// The value, scaled up by `10^scale` so it can be stated over integers:
    /// `self.units(s) == self * 10^s` whenever `s >= self.scale`.
    pub open spec fn units(&self, s: nat) -> nat
        recommends
            self.scale <= s,
    {
        (self.mantissa * pow10((s - self.scale) as nat)) as nat
    }

    /// The integer part of the value: the value rounded toward zero.
    pub open spec fn floor_val(&self) -> nat {
        self.mantissa as nat / pow10(self.scale as nat)
    }

    /// The value zero.
    pub fn zero() -> (r: Decimal)
        ensures
            r == (Decimal { mantissa: 0, scale: 0 }),
    {
        Decimal { mantissa: 0, scale: 0 }
    }

    /// Whether the value is zero. A decimal is zero exactly when its
    /// mantissa is.
    pub fn is_zero(&self) -> (r: bool)
        ensures
            r <==> self.mantissa == 0,
    {
        self.mantissa == 0
    }
}

/// Whether two decimals denote the same value, compared without rationals by
/// cross-scaling both mantissas.
pub open spec fn val_eq(a: Decimal, b: Decimal) -> bool {
    a.units(a.scale as nat + b.scale as nat) == b.units(a.scale as nat + b.scale as nat)
}

/// Whether `a` denotes a value strictly below `b`.
pub open spec fn val_lt(a: Decimal, b: Decimal) -> bool {
    a.units(a.scale as nat + b.scale as nat) < b.units(a.scale as nat + b.scale as nat)
}

/// Whether `a` denotes a value at most `b`.
pub open spec fn val_le(a: Decimal, b: Decimal) -> bool {
    a.units(a.scale as nat + b.scale as nat) <= b.units(a.scale as nat + b.scale as nat)
}

/// `10^e` as a `u128`, defined for `e <= 28` so the result is far below the
/// mantissa limit.
pub fn pow10_u128(e: u32) -> (r: u128)
    requires
        e <= MAX_SCALE,
    ensures
        r == pow10(e as nat),
        r < MANTISSA_LIMIT,
        r >= 1,
{
    let mut r: u128 = 1;
    let mut i: u32 = 0;
    proof {
        lemma_pow10_bounds(e as nat);
    }
    while i < e
        invariant
            i <= e,
            e <= MAX_SCALE,
            r == pow10(i as nat),
            r <= pow10(e as nat),
            pow10(e as nat) < MANTISSA_LIMIT,
            pow10(i as nat) >= 1,
        decreases e - i,
    {
        proof {
            lemma_pow10_mono(i as nat + 1, e as nat);
        }
        assert(pow10(i as nat + 1) == 10 * pow10(i as nat));
        r = r * 10;
        i = i + 1;
    }
    r
}

/// `10^e` grows with `e`.
pub proof fn lemma_pow10_mono(a: nat, b: nat)
    requires
        a <= b,
    ensures
        pow10(a) <= pow10(b),
        pow10(a) >= 1,
    decreases b,
{
    if b > 0 {
        if a < b {
            lemma_pow10_mono(a, (b - 1) as nat);
        } else {
            lemma_pow10_mono((a - 1) as nat, (b - 1) as nat);
        }
    }
}

/// `10^28` stays below the mantissa limit `2^96`.
pub proof fn lemma_pow10_bounds(e: nat)
    requires
        e <= MAX_SCALE,
    ensures
        pow10(e) < MANTISSA_LIMIT,
        pow10(e) >= 1,
    decreases e,
{
    lemma_pow10_mono(e, MAX_SCALE as nat);
    assert(pow10(28) == 0x204fce5e3e25026110000000) by {
        reveal_with_fuel(pow10, 29);
    }
}

/// Make the decimal `num * 10^-scale`. Fails when the number does not fit
/// in the 96-bit mantissa or the scale is beyond 28 places.
pub fn decimal(num: u128, scale: u32) -> (r: Result<Decimal, ContractError>)
    ensures
        num < MANTISSA_LIMIT && scale <= MAX_SCALE ==> r == Ok::<Decimal, ContractError>(
            Decimal { mantissa: num, scale },
        ),
        !(num < MANTISSA_LIMIT && scale <= MAX_SCALE) ==> r == Err::<Decimal, ContractError>(
            ContractError::Overflow,
        ),
        r matches Ok(d) ==> d.wf(),
{
    if num < MANTISSA_LIMIT && scale <= MAX_SCALE {
        Ok(Decimal { mantissa: num, scale })
    } else {
        Err(ContractError::Overflow)
    }
}

} // verus!
verus! {

/// What `rust_decimal`'s checked addition returns: the rounded sum, or
/// nothing on overflow.
pub uninterp spec fn dec_add_of(a: Decimal, b: Decimal) -> Option<Decimal>;

/// What `rust_decimal`'s checked subtraction returns: the rounded
/// difference, or nothing on overflow.
pub uninterp spec fn dec_sub_of(a: Decimal, b: Decimal) -> Option<Decimal>;

/// What `rust_decimal`'s checked multiplication returns: the rounded
/// product, or nothing on overflow.
pub uninterp spec fn dec_mul_of(a: Decimal, b: Decimal) -> Option<Decimal>;

/// What `rust_decimal`'s checked division returns: the rounded quotient,
/// or nothing on a zero divisor or overflow.
pub uninterp spec fn dec_div_of(a: Decimal, b: Decimal) -> Option<Decimal>;

/// Relies on rust_decimal's Decimal::checked_add: the sum, exact whenever
/// it is representable, rounded to the nearest representable value
/// otherwise, and None only on overflow. Operands of one scale whose
/// mantissa sum fits are added mantissa to mantissa.
#[verifier::external_body]
pub(crate) fn dec_add(a: &Decimal, b: &Decimal) -> (r: Option<Decimal>)
    requires
        a.wf(),
        b.wf(),
    ensures
        r == dec_add_of(*a, *b),
        r matches Some(c) ==> c.wf(),
        a.scale == b.scale && a.mantissa + b.mantissa < MANTISSA_LIMIT ==> r == Some(
            Decimal { mantissa: (a.mantissa + b.mantissa) as u128, scale: a.scale },
        ),
{
    let x = rust_decimal::Decimal::from_i128_with_scale(a.mantissa as i128, a.scale);
    let y = rust_decimal::Decimal::from_i128_with_scale(b.mantissa as i128, b.scale);
    x.checked_add(y).map(|d| Decimal { mantissa: d.mantissa() as u128, scale: d.scale() })
}

/// Relies on rust_decimal's Decimal::checked_sub: the difference, exact
/// whenever it is representable, rounded otherwise. The minuend must not
/// be below the subtrahend, so the difference is never negative.
#[verifier::external_body]
pub(crate) fn dec_sub(a: &Decimal, b: &Decimal) -> (r: Option<Decimal>)
    requires
        a.wf(),
        b.wf(),
        val_le(*b, *a),
    ensures
        r == dec_sub_of(*a, *b),
        r matches Some(c) ==> c.wf(),
{
    let x = rust_decimal::Decimal::from_i128_with_scale(a.mantissa as i128, a.scale);
    let y = rust_decimal::Decimal::from_i128_with_scale(b.mantissa as i128, b.scale);
    x.checked_sub(y).map(|d| Decimal { mantissa: d.mantissa() as u128, scale: d.scale() })
}

/// Relies on rust_decimal's Decimal::checked_mul: the product, exact
/// whenever mantissas and scales fit, rounded to the representable range
/// otherwise, and None only on overflow. A zero factor gives plain zero;
/// factors whose mantissa product and scale sum fit are multiplied
/// mantissa to mantissa.
#[verifier::external_body]
pub(crate) fn dec_mul(a: &Decimal, b: &Decimal) -> (r: Option<Decimal>)
    requires
        a.wf(),
        b.wf(),
    ensures
        r == dec_mul_of(*a, *b),
        r matches Some(c) ==> c.wf(),
        a.mantissa == 0 || b.mantissa == 0 ==> r == Some(Decimal { mantissa: 0, scale: 0 }),
        a.mantissa > 0 && b.mantissa > 0 && a.mantissa * b.mantissa < MANTISSA_LIMIT && a.scale
            + b.scale <= MAX_SCALE ==> r == Some(
            Decimal {
                mantissa: (a.mantissa * b.mantissa) as u128,
                scale: (a.scale + b.scale) as u32,
            },
        ),
{
    let x = rust_decimal::Decimal::from_i128_with_scale(a.mantissa as i128, a.scale);
    let y = rust_decimal::Decimal::from_i128_with_scale(b.mantissa as i128, b.scale);
    x.checked_mul(y).map(|d| Decimal { mantissa: d.mantissa() as u128, scale: d.scale() })
}

/// Relies on rust_decimal's Decimal::checked_div: the quotient, exact
/// whenever it is representable, rounded to 28 places otherwise, and None
/// exactly on a zero divisor or overflow. When the divisor's mantissa
/// divides the dividend's evenly and the scales do not go negative, the
/// mantissas are divided directly.
#[verifier::external_body]
pub(crate) fn dec_div(a: &Decimal, b: &Decimal) -> (r: Option<Decimal>)
    requires
        a.wf(),
        b.wf(),
    ensures
        r == dec_div_of(*a, *b),
        r matches Some(c) ==> c.wf(),
        b.mantissa == 0 ==> r is None,
        b.mantissa != 0 && a.mantissa == 0 ==> r == Some(Decimal { mantissa: 0, scale: 0 }),
        b.mantissa != 0 && a.mantissa > 0 && a.mantissa % b.mantissa == 0 && a.scale >= b.scale
            ==> r == Some(
            Decimal { mantissa: a.mantissa / b.mantissa, scale: (a.scale - b.scale) as u32 },
        ),
{
    let x = rust_decimal::Decimal::from_i128_with_scale(a.mantissa as i128, a.scale);
    let y = rust_decimal::Decimal::from_i128_with_scale(b.mantissa as i128, b.scale);
    x.checked_div(y).map(|d| Decimal { mantissa: d.mantissa() as u128, scale: d.scale() })
}

/// Relies on rust_decimal's PartialOrd for Decimal: the comparison is
/// exact, ordering the two values as rationals.
#[verifier::external_body]
pub(crate) fn dec_lt(a: &Decimal, b: &Decimal) -> (r: bool)
    requires
        a.wf(),
        b.wf(),
    ensures
        r == val_lt(*a, *b),
{
    let x = rust_decimal::Decimal::from_i128_with_scale(a.mantissa as i128, a.scale);
    let y = rust_decimal::Decimal::from_i128_with_scale(b.mantissa as i128, b.scale);
    x < y
}

/// Relies on rust_decimal's Decimal::floor and to_u128: the integer part
/// of a non-negative decimal, rounded toward zero.
#[verifier::external_body]
pub(crate) fn floor_u128(a: &Decimal) -> (r: Option<u128>)
    requires
        a.wf(),
    ensures
        r == Some(a.floor_val() as u128),
{
    let x = rust_decimal::Decimal::from_i128_with_scale(a.mantissa as i128, a.scale);
    rust_decimal::prelude::ToPrimitive::to_u128(&x.floor())
}

} // verus!
verus! {

/// The constant two.
pub open spec fn two_dec() -> Decimal {
    Decimal { mantissa: 2, scale: 0 }
}

/// The constant three.
pub open spec fn three_dec() -> Decimal {
    Decimal { mantissa: 3, scale: 0 }
}

/// The convergence threshold of the root iterations: the smallest positive
/// representable decimal, `10^-28`.
pub open spec fn epsilon_dec() -> Decimal {
    Decimal { mantissa: 1, scale: 28 }
}

/// The absolute difference of two decimals, as the subtraction rounds it.
pub open spec fn abs_diff_of(a: Decimal, b: Decimal) -> Option<Decimal> {
    if val_lt(a, b) {
        dec_sub_of(b, a)
    } else {
        dec_sub_of(a, b)
    }
}

/// One Newton step of the square-root iteration: `(guess + value/guess)/2`,
/// each operation rounding as the decimal arithmetic does.
pub open spec fn sqrt_step_of(value: Decimal, guess: Decimal) -> Option<Decimal> {
    match dec_div_of(value, guess) {
        Some(q) => match dec_add_of(guess, q) {
            Some(s) => dec_div_of(s, two_dec()),
            None => None::<Decimal>,
        },
        None => None::<Decimal>,
    }
}

/// The square-root iteration: refine `guess` until two successive guesses
/// agree within epsilon or the fuel runs out, and then keep the latest
/// guess.
pub open spec fn sqrt_iter_of(value: Decimal, guess: Decimal, last: Decimal, fuel: nat) -> Result<
    Decimal,
    (),
>
    decreases fuel,
{
    if fuel == 0 {
        Ok(guess)
    } else {
        match abs_diff_of(guess, last) {
            None => Err(()),
            Some(d) => if val_le(d, epsilon_dec()) {
                Ok(guess)
            } else {
                match sqrt_step_of(value, guess) {
                    None => Err(()),
                    Some(g2) => sqrt_iter_of(value, g2, guess, (fuel - 1) as nat),
                }
            },
        }
    }
}

/// What the square root returns: zero for zero, else the Newton iteration
/// started at `value/2` with a hundred steps of fuel.
pub open spec fn square_root_of(value: Decimal) -> Result<Decimal, ()> {
    if value.mantissa == 0 {
        Ok(Decimal { mantissa: 0, scale: 0 })
    } else {
        match dec_div_of(value, two_dec()) {
            None => Err(()),
            Some(g0) => sqrt_iter_of(value, g0, Decimal { mantissa: 0, scale: 0 }, 100),
        }
    }
}

/// The square root of a decimal, approximated by Newton's method: start at
/// `value/2` and refine until successive guesses agree within `10^-28` or a
/// hundred iterations have run, then keep the best approximation found.
/// Fails only if the decimal arithmetic itself overflows.
pub fn square_root(value: &Decimal) -> (r: Result<Decimal, ContractError>)
    requires
        value.wf(),
    ensures
        r matches Ok(c) ==> c.wf() && square_root_of(*value) == Ok::<Decimal, ()>(c),
        r is Err ==> square_root_of(*value) is Err,
        r matches Err(e) ==> e is Overflow,
{
    if value.is_zero() {
        return Ok(Decimal::zero());
    }
    let two = Decimal { mantissa: 2, scale: 0 };
    let eps = Decimal { mantissa: 1, scale: 28 };
    let mut last = Decimal { mantissa: 0, scale: 0 };
    let mut guess = match dec_div(value, &two) {
        Some(g) => g,
        None => {
            return Err(ContractError::Overflow);
        },
    };
    let mut iterations: u32 = 0;
    while iterations < 100
        invariant
            value.wf(),
            guess.wf(),
            last.wf(),
            iterations <= 100,
            two == two_dec(),
            eps == epsilon_dec(),
            square_root_of(*value) == sqrt_iter_of(*value, guess, last, (100 - iterations) as nat),
        decreases 100 - iterations,
    {
        let diff_opt = if dec_lt(&guess, &last) {
            dec_sub(&last, &guess)
        } else {
            dec_sub(&guess, &last)
        };
        let diff = match diff_opt {
            Some(d) => d,
            None => {
                return Err(ContractError::Overflow);
            },
        };
        if !dec_lt(&eps, &diff) {
            return Ok(guess);
        }
        let q = match dec_div(value, &guess) {
            Some(q) => q,
            None => {
                return Err(ContractError::Overflow);
            },
        };
        let sum = match dec_add(&guess, &q) {
            Some(s) => s,
            None => {
                return Err(ContractError::Overflow);
            },
        };
        let g2 = match dec_div(&sum, &two) {
            Some(g) => g,
            None => {
                return Err(ContractError::Overflow);
            },
        };
        last = guess;
        guess = g2;
        iterations = iterations + 1;
    }
    Ok(guess)
}

/// One Newton step of the cube-root iteration:
/// `(2*guess + value/guess^2)/3`, each operation rounding as the decimal
/// arithmetic does.
pub open spec fn cbrt_step_of(value: Decimal, guess: Decimal) -> Option<Decimal> {
    match dec_mul_of(two_dec(), guess) {
        Some(tg) => match dec_mul_of(guess, guess) {
            Some(gg) => match dec_div_of(value, gg) {
                Some(q) => match dec_add_of(tg, q) {
                    Some(s) => dec_div_of(s, three_dec()),
                    None => None::<Decimal>,
                },
                None => None::<Decimal>,
            },
            None => None::<Decimal>,
        },
        None => None::<Decimal>,
    }
}

/// The cube-root iteration, with the same convergence rule as the square
/// root.
pub open spec fn cbrt_iter_of(value: Decimal, guess: Decimal, last: Decimal, fuel: nat) -> Result<
    Decimal,
    (),
>
    decreases fuel,
{
    if fuel == 0 {
        Ok(guess)
    } else {
        match abs_diff_of(guess, last) {
            None => Err(()),
            Some(d) => if val_le(d, epsilon_dec()) {
                Ok(guess)
            } else {
                match cbrt_step_of(value, guess) {
                    None => Err(()),
                    Some(g2) => cbrt_iter_of(value, g2, guess, (fuel - 1) as nat),
                }
            },
        }
    }
}

/// What the cube root returns: zero for zero, else the Newton iteration
/// started at `value/3` with a hundred steps of fuel.
pub open spec fn cube_root_of(value: Decimal) -> Result<Decimal, ()> {
    if value.mantissa == 0 {
        Ok(Decimal { mantissa: 0, scale: 0 })
    } else {
        match dec_div_of(value, three_dec()) {
            None => Err(()),
            Some(g0) => cbrt_iter_of(value, g0, Decimal { mantissa: 0, scale: 0 }, 100),
        }
    }
}

/// The cube root of a decimal, approximated by Newton's method with the
/// same iteration budget and convergence rule as the square root.
pub fn cube_root(value: &Decimal) -> (r: Result<Decimal, ContractError>)
    requires
        value.wf(),
    ensures
        r matches Ok(c) ==> c.wf() && cube_root_of(*value) == Ok::<Decimal, ()>(c),
        r is Err ==> cube_root_of(*value) is Err,
        r matches Err(e) ==> e is Overflow,
{
    if value.is_zero() {
        return Ok(Decimal::zero());
    }
    let two = Decimal { mantissa: 2, scale: 0 };
    let three = Decimal { mantissa: 3, scale: 0 };
    let eps = Decimal { mantissa: 1, scale: 28 };
    let mut last = Decimal { mantissa: 0, scale: 0 };
    let mut guess = match dec_div(value, &three) {
        Some(g) => g,
        None => {
            return Err(ContractError::Overflow);
        },
    };
    let mut iterations: u32 = 0;
    while iterations < 100
        invariant
            value.wf(),
            guess.wf(),
            last.wf(),
            iterations <= 100,
            two == two_dec(),
            three == three_dec(),
            eps == epsilon_dec(),
            cube_root_of(*value) == cbrt_iter_of(*value, guess, last, (100 - iterations) as nat),
        decreases 100 - iterations,
    {
        let diff_opt = if dec_lt(&guess, &last) {
            dec_sub(&last, &guess)
        } else {
            dec_sub(&guess, &last)
        };
        let diff = match diff_opt {
            Some(d) => d,
            None => {
                return Err(ContractError::Overflow);
            },
        };
        if !dec_lt(&eps, &diff) {
            return Ok(guess);
        }
        let tg = match dec_mul(&two, &guess) {
            Some(x) => x,
            None => {
                return Err(ContractError::Overflow);
            },
        };
        let gg = match dec_mul(&guess, &guess) {
            Some(x) => x,
            None => {
                return Err(ContractError::Overflow);
            },
        };
        let q = match dec_div(value, &gg) {
            Some(x) => x,
            None => {
                return Err(ContractError::Overflow);
            },
        };
        let sum = match dec_add(&tg, &q) {
            Some(x) => x,
            None => {
                return Err(ContractError::Overflow);
            },
        };
        let g2 = match dec_div(&sum, &three) {
            Some(x) => x,
            None => {
                return Err(ContractError::Overflow);
            },
        };
        last = guess;
        guess = g2;
        iterations = iterations + 1;
    }
    Ok(guess)
}

} // verus!
verus! {

/// The largest value the 18-place conversion accepts for its atomics,
/// mirroring a signed 128-bit bound.
pub const STD_ATOMICS_MAX: u128 = 0x7fff_ffff_ffff_ffff_ffff_ffff_ffff_ffff;

/// What converting a decimal to an 18-place fixed-point ratio yields: the
/// mantissa shifted to scale 18, flooring when the decimal is finer than
/// 18 places, and failing when the shifted mantissa leaves the signed
/// 128-bit range.
pub open spec fn decimal_to_std_of(x: Decimal) -> Result<u128, ()> {
    if x.scale <= 18 {
        if x.mantissa * pow10((18 - x.scale) as nat) <= STD_ATOMICS_MAX {
            Ok((x.mantissa * pow10((18 - x.scale) as nat)) as u128)
        } else {
            Err(())
        }
    } else {
        Ok(x.mantissa / (pow10((x.scale - 18) as nat) as u128))
    }
}

/// Convert a decimal to an 18-place fixed-point ratio, flooring away any
/// digits beyond the eighteenth place.
pub fn decimal_to_std(x: &Decimal) -> (r: Result<StdDecimal, ContractError>)
    requires
        x.wf(),
    ensures
        match decimal_to_std_of(*x) {
            Ok(a) => r == Ok::<StdDecimal, ContractError>(StdDecimal { atomics: a }),
            Err(()) => r == Err::<StdDecimal, ContractError>(ContractError::Overflow),
        },
{
    if x.scale <= 18 {
        let p = pow10_u128(18 - x.scale);
        match x.mantissa.checked_mul(p) {
            Some(a) => {
                if a <= STD_ATOMICS_MAX {
                    Ok(StdDecimal { atomics: a })
                } else {
                    Err(ContractError::Overflow)
                }
            },
            None => Err(ContractError::Overflow),
        }
    } else {
        let p = pow10_u128(x.scale - 18);
        proof {
            lemma_pow10_mono(0, (x.scale - 18) as nat);
        }
        Ok(StdDecimal { atomics: x.mantissa / p })
    }
}

} // verus!
