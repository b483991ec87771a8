//! The fixed-point ledger: a non-negative decimal with nine fractional
//! digits, held as a `u128` magnitude, with overflow-checked addition,
//! subtraction, multiplication, division and exponentiation. Division always
//! truncates toward zero. Nine fractional digits keep every intermediate
//! product of money-scale quantities within the 128-bit magnitude.

use vstd::prelude::*;

use crate::errors::MarketError;

verus! {

/// Magnitude of one whole unit: a decimal holds `raw / SCALE` units.
pub const SCALE: u128 = 1_000_000_000;

/// A non-negative fixed-point decimal quantity.
#[derive(Clone, Copy, Debug, PartialEq, Eq, Structural)]
pub struct Decimal {
    /// The scaled magnitude: the represented value times `SCALE`.
    pub raw: u128,
}

/// The magnitude of the truncating fixed-point product of two magnitudes.
pub open spec fn scaled_mul(a: int, b: int) -> int {
    a * b / (SCALE as int)
}

/// The magnitude of the truncating fixed-point quotient of two magnitudes.
pub open spec fn scaled_div(a: int, b: int) -> int {
    a * (SCALE as int) / b
}

/// The magnitude of a base magnitude raised to the `n`-th power under the
/// ledger's rules: one multiplication per step, each truncated to the scale.
pub open spec fn pow_scaled(b: int, n: nat) -> int
    decreases n,
{
    if n == 0 {
        SCALE as int
    } else {
        pow_scaled(b, (n - 1) as nat) * b / (SCALE as int)
    }
}

impl Decimal {
    /// The zero quantity.
    pub fn zero() -> (r: Decimal)
        ensures
            r.raw == 0,
    {
        Decimal { raw: 0 }
    }

    /// The quantity of exactly one unit.
    pub fn one() -> (r: Decimal)
        ensures
            r.raw == SCALE,
    {
        Decimal { raw: SCALE }
    }

    /// The quantity of exactly `n` whole units.
    pub fn from_units(n: u64) -> (r: Decimal)
        ensures
            r.raw == n * SCALE,
    {
        Decimal { raw: (n as u128) * SCALE }
    }

    /// Whether the quantity is zero.
    pub fn is_zero(&self) -> (r: bool)
        ensures
            r <==> self.raw == 0,
    {
        self.raw == 0
    }

    /// Overflow-checked addition.
    pub fn checked_add(self, rhs: Decimal) -> (r: Result<Decimal, MarketError>)
        ensures
            self.raw + rhs.raw <= u128::MAX ==> (r matches Ok(d) && d.raw == self.raw
                + rhs.raw),
            self.raw + rhs.raw > u128::MAX ==> r == Err::<Decimal, MarketError>(
                MarketError::Overflow,
            ),
    {
        match self.raw.checked_add(rhs.raw) {
            Some(v) => Ok(Decimal { raw: v }),
            None => Err(MarketError::Overflow),
        }
    }

    /// Checked subtraction; fails with `Underflow` exactly when the result
    /// would be negative.
    pub fn checked_sub(self, rhs: Decimal) -> (r: Result<Decimal, MarketError>)
        ensures
            rhs.raw <= self.raw ==> (r matches Ok(d) && d.raw == self.raw - rhs.raw),
            rhs.raw > self.raw ==> r == Err::<Decimal, MarketError>(MarketError::Underflow),
    {
        match self.raw.checked_sub(rhs.raw) {
            Some(v) => Ok(Decimal { raw: v }),
            None => Err(MarketError::Underflow),
        }
    }

    /// Overflow-checked multiplication, truncating toward zero: the result
    /// magnitude is `self.raw * rhs.raw / SCALE`, and the operation fails
    /// exactly when the intermediate product exceeds the 128-bit magnitude.
    pub fn checked_mul(self, rhs: Decimal) -> (r: Result<Decimal, MarketError>)
        ensures
            self.raw * rhs.raw <= u128::MAX ==> (r matches Ok(d) && d.raw == scaled_mul(
                self.raw as int,
                rhs.raw as int,
            )),
            self.raw * rhs.raw > u128::MAX ==> r == Err::<Decimal, MarketError>(
                MarketError::Overflow,
            ),
    {
        match self.raw.checked_mul(rhs.raw) {
            Some(p) => Ok(Decimal { raw: p / SCALE }),
            None => Err(MarketError::Overflow),
        }
    }

    /// Checked division, truncating toward zero: the result magnitude is
    /// `self.raw * SCALE / rhs.raw`. Fails with `DivideByZero` exactly when
    /// the divisor is zero, and with `Overflow` exactly when the widened
    /// dividend exceeds the 128-bit magnitude.
    pub fn checked_div(self, rhs: Decimal) -> (r: Result<Decimal, MarketError>)
        ensures
            rhs.raw == 0 ==> r == Err::<Decimal, MarketError>(MarketError::DivideByZero),
            rhs.raw != 0 && self.raw * SCALE <= u128::MAX ==> (r matches Ok(d) && d.raw
                == scaled_div(self.raw as int, rhs.raw as int)),
            rhs.raw != 0 && self.raw * SCALE > u128::MAX ==> r == Err::<Decimal, MarketError>(
                MarketError::Overflow,
            ),
    {
        if rhs.raw == 0 {
            Err(MarketError::DivideByZero)
        } else {
            match self.raw.checked_mul(SCALE) {
                Some(p) => Ok(Decimal { raw: p / rhs.raw }),
                None => Err(MarketError::Overflow),
            }
        }
    }

    /// Checked exponentiation by repeated multiplication, one
    /// truncating multiplication per elapsed step. Fails with `Overflow`
    /// exactly when some intermediate product exceeds the 128-bit magnitude.
    pub fn checked_pow(self, n: u64) -> (r: Result<Decimal, MarketError>)
        ensures
            (forall|k: nat|
                k < n ==> pow_scaled(self.raw as int, k) * self.raw <= u128::MAX) ==> (
            r matches Ok(d) && d.raw == pow_scaled(self.raw as int, n as nat)),
            (exists|k: nat|
                k < n && pow_scaled(self.raw as int, k) * self.raw > u128::MAX) ==> r == Err::<
                Decimal,
                MarketError,
            >(MarketError::Overflow),
    {
        let mut acc: u128 = SCALE;
        let mut i: u64 = 0;
        while i < n
            invariant
                i <= n,
                acc == pow_scaled(self.raw as int, i as nat),
                forall|j: nat| j < i ==> pow_scaled(self.raw as int, j) * self.raw <= u128::MAX,
            decreases n - i,
        {
            match acc.checked_mul(self.raw) {
                Some(p) => {
                    acc = p / SCALE;
                    i = i + 1;
                },
                None => {
                    proof {
                        assert(pow_scaled(self.raw as int, i as nat) * self.raw > u128::MAX);
                    }
                    return Err(MarketError::Overflow);
                },
            }
        }
        Ok(Decimal { raw: acc })
    }
}

} // verus!
