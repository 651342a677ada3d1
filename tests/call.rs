use black_scholes::binary64::{finite, positive, ONE, POSITIVE_ZERO, TEN};
use black_scholes::call::{cdf_saturation, settle_price, CallOption, DomainError};
use black_scholes::moment::{Moment, SECS_PER_DAY};

fn bits(x: f64) -> u64 {
    x.to_bits()
}

fn option_due_in(days: i64) -> (CallOption, Moment) {
    let current = Moment::new(1_600_000_000, 0).unwrap();
    let maturity = Moment::new(1_600_000_000 + days * SECS_PER_DAY, 0).unwrap();
    (CallOption::new(bits(100.0), maturity).unwrap(), current)
}

#[test]
fn constants_match_their_values() {
    assert_eq!(ONE, 1.0f64.to_bits());
    assert_eq!(TEN, 10.0f64.to_bits());
    assert_eq!(POSITIVE_ZERO, 0.0f64.to_bits());
}

#[test]
fn classification_of_values() {
    assert!(finite(bits(3.5)));
    assert!(finite(bits(-0.0)));
    assert!(finite(bits(f64::MAX)));
    assert!(!finite(bits(f64::INFINITY)));
    assert!(!finite(bits(f64::NEG_INFINITY)));
    assert!(!finite(bits(f64::NAN)));
    assert!(positive(bits(1e-300)));
    assert!(positive(bits(f64::MIN_POSITIVE / 2.0)));
    assert!(!positive(bits(0.0)));
    assert!(!positive(bits(-0.0)));
    assert!(!positive(bits(-2.0)));
    assert!(!positive(bits(f64::INFINITY)));
}

#[test]
fn new_keeps_strike_and_maturity() {
    let m = Moment::new(1_640_995_200, 0).unwrap();
    let c = CallOption::new(bits(100.0), m).unwrap();
    assert_eq!(c.strike, bits(100.0));
    assert_eq!(c.maturity, m);
}

#[test]
fn zero_strike_is_invalid() {
    let m = Moment::new(1_640_995_200, 0).unwrap();
    assert_eq!(CallOption::new(bits(0.0), m), Err(DomainError::InvalidStrike));
    assert_eq!(CallOption::new(bits(-0.0), m), Err(DomainError::InvalidStrike));
    assert_eq!(CallOption::new(bits(-5.0), m), Err(DomainError::InvalidStrike));
}

#[test]
fn non_finite_strike_is_refused() {
    let m = Moment::new(1_640_995_200, 0).unwrap();
    assert_eq!(CallOption::new(bits(f64::NAN), m), Err(DomainError::NonFiniteInput));
    assert_eq!(CallOption::new(bits(f64::INFINITY), m), Err(DomainError::NonFiniteInput));
}

#[test]
fn valid_inputs_give_days() {
    let (c, now) = option_due_in(365);
    assert_eq!(c.days_to_maturity(&now), 365);
    assert_eq!(c.check_inputs(bits(100.0), bits(0.05), bits(0.2), &now), Ok(365));
    assert_eq!(c.check_inputs(bits(100.0), bits(-0.01), bits(0.2), &now), Ok(365));
}

#[test]
fn zero_volatility_is_invalid() {
    let (c, now) = option_due_in(365);
    assert_eq!(
        c.check_inputs(bits(100.0), bits(0.05), bits(0.0), &now),
        Err(DomainError::InvalidVolatility)
    );
    assert_eq!(
        c.check_inputs(bits(100.0), bits(0.05), bits(-0.2), &now),
        Err(DomainError::InvalidVolatility)
    );
}

#[test]
fn non_positive_spot_is_invalid() {
    let (c, now) = option_due_in(365);
    assert_eq!(
        c.check_inputs(bits(0.0), bits(0.05), bits(0.2), &now),
        Err(DomainError::InvalidSpotPrice)
    );
    assert_eq!(
        c.check_inputs(bits(-1.0), bits(0.05), bits(0.0), &now),
        Err(DomainError::InvalidSpotPrice)
    );
}

#[test]
fn maturity_not_ahead_is_refused() {
    for days in [0i64, -1, -365] {
        let (c, now) = option_due_in(days);
        assert_eq!(
            c.check_inputs(bits(100.0), bits(0.05), bits(0.2), &now),
            Err(DomainError::NonPositiveMaturity)
        );
    }
    let current = Moment::new(1_600_000_000, 0).unwrap();
    let maturity = Moment::new(1_600_000_000 + SECS_PER_DAY - 1, 0).unwrap();
    let c = CallOption::new(bits(100.0), maturity).unwrap();
    assert_eq!(
        c.check_inputs(bits(100.0), bits(0.05), bits(0.2), &current),
        Err(DomainError::NonPositiveMaturity)
    );
}

#[test]
fn non_finite_market_input_comes_first() {
    let (c, now) = option_due_in(-3);
    assert_eq!(
        c.check_inputs(bits(f64::NAN), bits(0.05), bits(0.0), &now),
        Err(DomainError::NonFiniteInput)
    );
    assert_eq!(
        c.check_inputs(bits(-1.0), bits(f64::INFINITY), bits(0.2), &now),
        Err(DomainError::NonFiniteInput)
    );
    assert_eq!(
        c.check_inputs(bits(1.0), bits(0.05), bits(f64::NEG_INFINITY), &now),
        Err(DomainError::NonFiniteInput)
    );
}

#[test]
fn cdf_saturates_outside_ten() {
    assert_eq!(cdf_saturation(bits(10.5)), Ok(Some(bits(1.0))));
    assert_eq!(cdf_saturation(bits(1e300)), Ok(Some(bits(1.0))));
    assert_eq!(cdf_saturation(bits(-10.5)), Ok(Some(bits(0.0))));
    assert_eq!(cdf_saturation(bits(-1e300)), Ok(Some(bits(0.0))));
}

#[test]
fn cdf_left_to_caller_inside_ten() {
    assert_eq!(cdf_saturation(bits(10.0)), Ok(None));
    assert_eq!(cdf_saturation(bits(-10.0)), Ok(None));
    assert_eq!(cdf_saturation(bits(0.0)), Ok(None));
    assert_eq!(cdf_saturation(bits(-0.3)), Ok(None));
    assert_eq!(cdf_saturation(bits(9.999)), Ok(None));
}

#[test]
fn cdf_refuses_non_finite() {
    assert_eq!(cdf_saturation(bits(f64::NAN)), Err(DomainError::NonFiniteInput));
    assert_eq!(cdf_saturation(bits(f64::INFINITY)), Err(DomainError::NonFiniteInput));
}

#[test]
fn settle_keeps_non_negative_prices() {
    assert_eq!(settle_price(bits(10.4506)), Ok(bits(10.4506)));
    assert_eq!(settle_price(bits(0.0)), Ok(bits(0.0)));
}

#[test]
fn settle_clamps_negative_rounding() {
    assert_eq!(settle_price(bits(-1e-12)), Ok(bits(0.0)));
    assert_eq!(settle_price(bits(-0.0)), Ok(bits(0.0)));
    let p = f64::from_bits(settle_price(bits(-3.0)).unwrap());
    assert!(p >= 0.0);
}

#[test]
fn settle_refuses_non_finite_price() {
    assert_eq!(settle_price(bits(f64::NAN)), Err(DomainError::NonFiniteResult));
    assert_eq!(settle_price(bits(f64::NEG_INFINITY)), Err(DomainError::NonFiniteResult));
}
