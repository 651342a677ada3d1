//! The call option, the validation of pricing inputs against the model's
//! domain, and the guards around the floating-point evaluation.
use vstd::prelude::*;

use crate::binary64::{
    finite, is_finite, is_positive, magnitude_of, positive, sign_of, ONE, POSITIVE_ZERO,
    SIGN_BIT, TEN,
};
use crate::moment::{days_between, whole_days, Moment};

verus! {

/// Why a pricing request lies outside the Black-Scholes domain.
#[derive(Clone, Copy, Debug, PartialEq, Eq, Structural)]
pub enum DomainError {
    /// The strike is zero or negative.
    InvalidStrike,
    /// The spot price is zero or negative.
    InvalidSpotPrice,
    /// The volatility is zero or negative.
    InvalidVolatility,
    /// The maturity is not at least one whole day after the current moment.
    NonPositiveMaturity,
    /// An input is an infinity or a NaN.
    NonFiniteInput,
    /// The evaluation produced an infinity or a NaN (an overflowing discount
    /// factor, for instance).
    NonFiniteResult,
}

/// A European call option: its strike (binary64 encoding) and its maturity.
#[derive(Clone, Copy, Debug, PartialEq, Eq, Structural)]
pub struct CallOption {
    pub strike: u64,
    pub maturity: Moment,
}

impl CallOption {
    pub open spec fn wf(self) -> bool {
        is_positive(self.strike) && self.maturity.wf()
    }

    /// The option with the given strike and maturity. A non-finite strike is
    /// refused first, then one that is not greater than zero.
    pub fn new(strike: u64, maturity: Moment) -> (r: Result<CallOption, DomainError>)
        requires
            maturity.wf(),
        ensures
            r == Err::<CallOption, DomainError>(DomainError::NonFiniteInput) <==> !is_finite(strike),
            r == Err::<CallOption, DomainError>(DomainError::InvalidStrike) <==> is_finite(strike)
                && !is_positive(strike),
            r is Ok <==> is_positive(strike),
            r matches Ok(c) ==> c.strike == strike && c.maturity == maturity && c.wf(),
    {
        if !finite(strike) {
            Err(DomainError::NonFiniteInput)
        } else if !positive(strike) {
            Err(DomainError::InvalidStrike)
        } else {
            Ok(CallOption { strike, maturity })
        }
    }

    /// Whole days from `current` to the maturity (actual/365 counting: the
    /// year fraction is this count divided by 365). Negative when the
    /// maturity has passed.
    pub fn days_to_maturity(&self, current: &Moment) -> (r: i64)
        requires
            self.wf(),
            current.wf(),
        ensures
            r == whole_days(self.maturity, *current),
    {
        days_between(&self.maturity, current)
    }

    /// Checks the market inputs of a pricing request for this option and
    /// returns the whole days to maturity. The first failing check wins:
    /// non-finite inputs, then the spot price, the volatility and the time to
    /// maturity. The rate may be any finite value.
    pub fn check_inputs(&self, spot: u64, rate: u64, volatility: u64, current: &Moment) -> (r:
        Result<i64, DomainError>)
        requires
            self.wf(),
            current.wf(),
        ensures
            r == (match input_error(*self, spot, rate, volatility, *current) {
                Some(e) => Err::<i64, DomainError>(e),
                None => Ok::<i64, DomainError>(whole_days(self.maturity, *current) as i64),
            }),
            r matches Ok(days) ==> days > 0 && days == whole_days(self.maturity, *current),
    {
        if !finite(spot) || !finite(rate) || !finite(volatility) {
            return Err(DomainError::NonFiniteInput);
        }
        if !positive(spot) {
            return Err(DomainError::InvalidSpotPrice);
        }
        if !positive(volatility) {
            return Err(DomainError::InvalidVolatility);
        }
        let days = self.days_to_maturity(current);
        if days <= 0 {
            return Err(DomainError::NonPositiveMaturity);
        }
        Ok(days)
    }
}

/// The error that a pricing request for `option` with the given market
/// inputs meets first, if any.
pub open spec fn input_error(
    option: CallOption,
    spot: u64,
    rate: u64,
    volatility: u64,
    current: Moment,
) -> Option<DomainError> {
    if !is_finite(spot) || !is_finite(rate) || !is_finite(volatility) {
        Some(DomainError::NonFiniteInput)
    } else if !is_positive(spot) {
        Some(DomainError::InvalidSpotPrice)
    } else if !is_positive(volatility) {
        Some(DomainError::InvalidVolatility)
    } else if whole_days(option.maturity, current) <= 0 {
        Some(DomainError::NonPositiveMaturity)
    } else {
        None
    }
}

/// A zero strike (of either sign) is refused as an invalid strike; with
/// finite inputs and a positive spot, a zero volatility is refused as an
/// invalid volatility; and with otherwise valid inputs, a maturity that is not
/// at least a whole day ahead is refused as a non-positive maturity. None of
/// them yields a price.
pub proof fn lemma_domain_errors(
    option: CallOption,
    spot: u64,
    rate: u64,
    volatility: u64,
    current: Moment,
)
    requires
        option.wf(),
        current.wf(),
    ensures
        !is_positive(POSITIVE_ZERO) && is_finite(POSITIVE_ZERO),
        !is_positive(SIGN_BIT) && is_finite(SIGN_BIT),
        is_positive(spot) && is_finite(rate) && (volatility == POSITIVE_ZERO || volatility
            == SIGN_BIT) ==> input_error(option, spot, rate, volatility, current) == Some(
            DomainError::InvalidVolatility,
        ),
        is_positive(spot) && is_finite(rate) && is_positive(volatility) && whole_days(
            option.maturity,
            current,
        ) <= 0 ==> input_error(option, spot, rate, volatility, current) == Some(
            DomainError::NonPositiveMaturity,
        ),
{
}

/// Decides the standard normal CDF at `x` where the answer is fixed: below
/// -10 it is `0.0`, above 10 it is `1.0` (both within 1e-23 of the true
/// value). `Ok(None)` leaves the evaluation to the caller; a non-finite `x`
/// is refused.
pub fn cdf_saturation(x: u64) -> (r: Result<Option<u64>, DomainError>)
    ensures
        r == Err::<Option<u64>, DomainError>(DomainError::NonFiniteInput) <==> !is_finite(x),
        r == Ok::<Option<u64>, DomainError>(Some(ONE)) <==> is_finite(x) && sign_of(x) == 0
            && magnitude_of(x) > TEN,
        r == Ok::<Option<u64>, DomainError>(Some(POSITIVE_ZERO)) <==> is_finite(x) && sign_of(x)
            == 1 && magnitude_of(x) > TEN,
        r == Ok::<Option<u64>, DomainError>(None) <==> is_finite(x) && magnitude_of(x) <= TEN,
{
    if !finite(x) {
        Err(DomainError::NonFiniteInput)
    } else if x % SIGN_BIT <= TEN {
        Ok(None)
    } else if x / SIGN_BIT == 0 {
        Ok(Some(ONE))
    } else {
        Ok(Some(POSITIVE_ZERO))
    }
}

/// The price to report for an evaluated price `p`: a non-finite evaluation
/// is refused, and a negative one (rounding below zero) is clamped to `+0.0`.
/// The reported price is never negative.
pub fn settle_price(p: u64) -> (r: Result<u64, DomainError>)
    ensures
        r == Err::<u64, DomainError>(DomainError::NonFiniteResult) <==> !is_finite(p),
        is_finite(p) && sign_of(p) == 0 ==> r == Ok::<u64, DomainError>(p),
        is_finite(p) && sign_of(p) == 1 ==> r == Ok::<u64, DomainError>(POSITIVE_ZERO),
        r matches Ok(q) ==> is_finite(q) && sign_of(q) == 0,
{
    if !finite(p) {
        Err(DomainError::NonFiniteResult)
    } else if p / SIGN_BIT == 1 {
        Ok(POSITIVE_ZERO)
    } else {
        Ok(p)
    }
}

} // verus!
