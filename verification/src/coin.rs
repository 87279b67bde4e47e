//! Fixed-point coin amounts and the integer decision core of the
//! stabilization-fee and loan-interest calculations.
//!
//! The final fee and rate values are exponentials of a configured
//! coefficient and are evaluated in floating point by the embedding
//! process; this module proves everything up to that point: validation,
//! the scaled ratio and price arithmetic, and the branch taken.

use vstd::prelude::*;

verus! {

/// One coin unit in scaled (satoshi-like) representation.
pub const COIN: i64 = 100000000;

/// Amount in scaled coin units (can be negative).
#[derive(Clone, Copy, PartialEq, Eq, Structural, Debug, PartialOrd, Ord, Hash)]
pub struct Amount(pub i64);

impl Amount {
    /// `self * price` at coin scale: the product of the two raw values
    /// divided by one coin unit.
    pub fn checked_price_multiply(self, price: Self) -> (r: Self)
        requires
            0 <= self.0,
            0 <= price.0,
            self.0 * price.0 / (COIN as int) <= i64::MAX,
        ensures
            r.0 == self.0 * price.0 / (COIN as int),
    {
        let wide = (self.0 as u128) * (price.0 as u128) / (COIN as u128);
        Amount(wide as i64)
    }

    /// `self / price` at coin scale: the raw value scaled up by one coin
    /// unit and divided by the price.  `None` exactly when the price is
    /// zero.
    pub fn checked_price_divide(self, price: Self) -> (r: Option<Self>)
        requires
            0 <= self.0,
            0 <= price.0,
            price.0 > 0 ==> self.0 * (COIN as int) / (price.0 as int) <= i64::MAX,
        ensures
            price.0 == 0 <==> r is None,
            price.0 > 0 ==> r == Some(Amount((self.0 * (COIN as int) / (price.0 as int)) as i64)),
    {
        if price.0 == 0 {
            return None;
        }

        let wide = (self.0 as u128) * (COIN as u128) / (price.0 as u128);
        Some(Amount(wide as i64))
    }

    /// Sum of two amounts.
    pub fn add(self, other: Self) -> (r: Self)
        requires
            i64::MIN <= self.0 + other.0 <= i64::MAX,
        ensures
            r.0 == self.0 + other.0,
    {
        Amount(self.0 + other.0)
    }

    /// Difference of two amounts.
    pub fn sub(self, other: Self) -> (r: Self)
        requires
            i64::MIN <= self.0 - other.0 <= i64::MAX,
        ensures
            r.0 == self.0 - other.0,
    {
        Amount(self.0 - other.0)
    }

    /// Product of two raw amount values.
    pub fn mul(self, other: Self) -> (r: Self)
        requires
            i64::MIN <= self.0 * other.0 <= i64::MAX,
        ensures
            r.0 == self.0 * other.0,
    {
        Amount(self.0 * other.0)
    }

    /// Quotient of two raw amount values.
    pub fn div(self, other: Self) -> (r: Self)
        requires
            0 <= self.0,
            0 < other.0,
        ensures
            r.0 == self.0 / other.0,
    {
        Amount(self.0 / other.0)
    }
}

/// Price of DUSD under which loans are discounted.
pub const DUSD_PRICE_FLOOR: i64 = 99000000;

/// Price of DUSD at and above which the rate is capped.
pub const DUSD_PRICE_CEIL: i64 = 105000000;

/// Price of DUSD from which a premium is charged.
pub const DUSD_PRICE_IDEAL: i64 = 101000000;

/// Half of one coin unit: the algorithmic-ratio threshold for a fee.
pub const RATIO_HALF: i64 = 50000000;

/// Rate applied whenever the DUSD price reaches the ceiling, scaled to
/// the coin unit.
pub const CAPPED_INTEREST_RATE: i64 = -5000000;

/// The coefficients from which the embedding process evaluates fee and
/// rate exponentials.  Held explicitly rather than in ambient state, so
/// that independent instances can coexist.
#[derive(Clone, Copy, PartialEq, Eq, Structural, Debug)]
pub struct FeeCoefficients {
    pub dex_fee: i64,
    pub discount: i64,
    pub premium: i64,
}

impl FeeCoefficients {
    /// The default coefficients: `1.8` for the dex fee, `500` for the
    /// discount and `3.4` for the premium, all at coin scale.
    pub fn new() -> (r: Self)
        ensures
            r.dex_fee == 180000000,
            r.discount == 50000000000,
            r.premium == 340000000,
    {
        FeeCoefficients { dex_fee: 180000000, discount: 50000000000, premium: 340000000 }
    }

    /// Sets the coefficient for the dex stabilization fee.
    pub fn set_fee_coefficient(&mut self, coefficient: i64)
        ensures
            *final(self) == (FeeCoefficients { dex_fee: coefficient, ..*old(self) }),
    {
        self.dex_fee = coefficient;
    }

    /// Sets the coefficients for the discount and premium of DUSD.
    pub fn set_interest_rate_coefficients(&mut self, discount: i64, premium: i64)
        ensures
            *final(self) == (FeeCoefficients { discount: discount, premium: premium, ..*old(self) }),
    {
        self.discount = discount;
        self.premium = premium;
    }
}

/// Validation failures of the fee and rate calculations, with the
/// message each carries to the caller.
#[derive(Clone, Copy, PartialEq, Eq, Structural, Debug)]
pub enum CalcError {
    DivideSupply,
    NonPositiveReserve,
    OutOfBounds,
}

impl CalcError {
    /// The diagnostic text reported for this failure.
    pub fn message(&self) -> (r: &'static str)
        ensures
            *self is DivideSupply ==> r@ == "Cannot divide given DUSD supply"@,
            *self is NonPositiveReserve ==> r@ == "Reserve token amount must be positive"@,
            *self is OutOfBounds ==> r@ == "Token amount is out of bounds"@,
    {
        match self {
            CalcError::DivideSupply => "Cannot divide given DUSD supply",
            CalcError::NonPositiveReserve => "Reserve token amount must be positive",
            CalcError::OutOfBounds => "Token amount is out of bounds",
        }
    }
}

/// Outcome of the dex stabilization-fee decision: either no fee is due,
/// or the fee is the configured coefficient raised to the carried
/// exponent (at coin scale), less one.
#[derive(Clone, Copy, PartialEq, Eq, Structural, Debug)]
pub enum DexFee {
    Zero,
    Stabilization(Amount),
}

/// Share of non-algorithmic DUSD in the outstanding supply, at coin
/// scale.
pub open spec fn backed_ratio(algo_dusd: int, dusd_supply: int) -> int {
    COIN - algo_dusd * (COIN as int) / dusd_supply
}

/// The stabilization-fee decision `calc_dex_fee` arrives at.
pub open spec fn calc_dex_fee_spec(algo_dusd: int, dusd_supply: int) -> Result<DexFee, CalcError> {
    if dusd_supply == 0 {
        Err(CalcError::DivideSupply)
    } else if backed_ratio(algo_dusd, dusd_supply) > RATIO_HALF {
        Ok(DexFee::Stabilization(Amount((backed_ratio(algo_dusd, dusd_supply) - RATIO_HALF) as i64)))
    } else {
        Ok(DexFee::Zero)
    }
}

/// Decides the dynamic dex stabilization fee for DUSD: forms the ratio of
/// algorithmic DUSD to the outstanding supply and yields the exponent the
/// fee coefficient is raised to, or a zero fee once the supply is at
/// least half backed.
pub fn calc_dex_fee(algo_dusd: i64, dusd_supply: i64) -> (r: Result<DexFee, CalcError>)
    requires
        0 <= algo_dusd,
        0 <= dusd_supply,
        dusd_supply > 0 ==> algo_dusd * (COIN as int) / (dusd_supply as int) <= i64::MAX,
    ensures
        r == calc_dex_fee_spec(algo_dusd as int, dusd_supply as int),
{
    let divided = match Amount(algo_dusd).checked_price_divide(Amount(dusd_supply)) {
        Some(a) => a,
        None => {
            return Err(CalcError::DivideSupply);
        },
    };
    let ratio = Amount(COIN).sub(divided);
    if ratio.0 > RATIO_HALF {
        Ok(DexFee::Stabilization(ratio.sub(Amount(RATIO_HALF))))
    } else {
        Ok(DexFee::Zero)
    }
}

/// Outcome of the loan interest-rate decision.  `Discount` and `Premium`
/// carry the (coin-scale) exponent of the respective coefficient;
/// `Capped` stands for the fixed rate `CAPPED_INTEREST_RATE`.
#[derive(Clone, Copy, PartialEq, Eq, Structural, Debug)]
pub enum InterestRate {
    Discount(Amount),
    Zero,
    Premium(Amount),
    Capped,
}

/// The oracle-weighted DUSD price formed from the pool reserves, at coin
/// scale.
pub open spec fn loan_price(reserve_dfi: int, reserve_dusd: int, dfi_oracle_price: int) -> int {
    (reserve_dfi * (COIN as int) / reserve_dusd) * dfi_oracle_price / (COIN as int)
}

/// The interest-rate decision `calc_loan_interest_rate` arrives at.
pub open spec fn calc_loan_interest_rate_spec(
    reserve_dfi: int,
    reserve_dusd: int,
    dfi_oracle_price: int,
) -> Result<InterestRate, CalcError> {
    if reserve_dfi <= 0 || reserve_dusd <= 0 {
        Err(CalcError::NonPositiveReserve)
    } else {
        let price = loan_price(reserve_dfi, reserve_dusd, dfi_oracle_price);
        if price < DUSD_PRICE_FLOOR {
            Ok(InterestRate::Discount(Amount((DUSD_PRICE_FLOOR - price) as i64)))
        } else if price < DUSD_PRICE_IDEAL {
            Ok(InterestRate::Zero)
        } else if price < DUSD_PRICE_CEIL {
            Ok(InterestRate::Premium(Amount((price - DUSD_PRICE_IDEAL) as i64)))
        } else {
            Ok(InterestRate::Capped)
        }
    }
}

/// Decides the dynamic interest rate on DUSD loans from the current
/// discount or premium of DUSD against the DFI price oracle.
pub fn calc_loan_interest_rate(reserve_dfi: i64, reserve_dusd: i64, dfi_oracle_price: i64) -> (r:
    Result<InterestRate, CalcError>)
    requires
        0 <= dfi_oracle_price,
        reserve_dfi > 0 && reserve_dusd > 0 ==> reserve_dfi * (COIN as int) / (reserve_dusd as int) <= i64::MAX,
        reserve_dfi > 0 && reserve_dusd > 0 ==> loan_price(
            reserve_dfi as int,
            reserve_dusd as int,
            dfi_oracle_price as int,
        ) <= i64::MAX,
    ensures
        r == calc_loan_interest_rate_spec(
            reserve_dfi as int,
            reserve_dusd as int,
            dfi_oracle_price as int,
        ),
{
    if reserve_dfi <= 0 || reserve_dusd <= 0 {
        return Err(CalcError::NonPositiveReserve);
    }

    let divided = match Amount(reserve_dfi).checked_price_divide(Amount(reserve_dusd)) {
        Some(a) => a,
        None => {
            return Err(CalcError::OutOfBounds);
        },
    };
    let price = divided.checked_price_multiply(Amount(dfi_oracle_price));

    if price.0 < DUSD_PRICE_FLOOR {
        Ok(InterestRate::Discount(Amount(DUSD_PRICE_FLOOR).sub(price)))
    } else if price.0 < DUSD_PRICE_IDEAL {
        Ok(InterestRate::Zero)
    } else if price.0 < DUSD_PRICE_CEIL {
        Ok(InterestRate::Premium(price.sub(Amount(DUSD_PRICE_IDEAL))))
    } else {
        Ok(InterestRate::Capped)
    }
}

} // verus!
