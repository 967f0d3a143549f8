//! Conversion of amounts between calendar periods.
use crate::decimal::{
    mul_exact, precise_product, precise_quotient,
    abs, close_quotient, decimal_div, decimal_mul, decimal_product, decimal_quotient, in_range,
    is_amount, lemma_div_in_range, lemma_div_whole, lemma_pow10_28, lemma_pow10_values,
    lemma_value_sign, pow10, Dec, AMOUNT_LIMIT, MANTISSA_BOUND,
};
use crate::models::income::TimeframeIncome;
use vstd::prelude::*;

verus! {

/// Calendar periods.
#[derive(Debug, Clone, Copy, PartialEq, Eq, Structural)]
pub enum Timeframe {
    Annual,
    Monthly,
    BiWeekly,
    SemiMonthly,
    Weekly,
    Daily,
    Hourly,
}

impl Timeframe {
    /// Number of periods in a year.
    pub open spec fn divisor_spec(self) -> int {
        match self {
            Timeframe::Annual => 1,
            Timeframe::Monthly => 12,
            Timeframe::BiWeekly => 26,
            Timeframe::SemiMonthly => 24,
            Timeframe::Weekly => 52,
            Timeframe::Daily => 260,
            Timeframe::Hourly => 2080,
        }
    }

    /// Number of periods in a year, to divide an annual amount by.
    pub fn divisor(&self) -> (r: Dec)
        ensures
            r.wf(),
            r.scale == 0,
            r.mantissa == self.divisor_spec(),
    {
        match self {
            Timeframe::Annual => Dec::from_int(1),
            Timeframe::Monthly => Dec::from_int(12),
            Timeframe::BiWeekly => Dec::from_int(26),
            Timeframe::SemiMonthly => Dec::from_int(24),
            Timeframe::Weekly => Dec::from_int(52),
            Timeframe::Daily => Dec::from_int(260),
            Timeframe::Hourly => Dec::from_int(2080),
        }
    }

    pub fn display_name(&self) -> (r: &'static str) {
        match self {
            Timeframe::Annual => "Annual",
            Timeframe::Monthly => "Monthly",
            Timeframe::BiWeekly => "Bi-Weekly",
            Timeframe::SemiMonthly => "Semi-Monthly",
            Timeframe::Weekly => "Weekly",
            Timeframe::Daily => "Daily",
            Timeframe::Hourly => "Hourly",
        }
    }
}

/// `r` is within one unit of its last digit of `a * n`.
pub open spec fn close_product(r: Dec, a: Dec, n: int) -> bool {
    abs(r.value() - a.value() * n) <= pow10((28 - r.scale) as nat)
}

/// Period conversions.
pub struct TimeframeCalculator;

impl TimeframeCalculator {
    /// An annual amount over all standard periods.
    pub fn from_annual(annual: Dec) -> (r: TimeframeIncome)
        requires
            annual.wf(),
            in_range(annual.value()),
        ensures
            crate::models::income::timeframes_spec(r, annual),
    {
        TimeframeIncome::from_annual(annual)
    }

    /// An annual amount over all periods, with a custom working week.
    pub fn from_annual_custom(annual: Dec, hours_per_week: Dec, days_per_week: Dec) -> (r:
        TimeframeIncome)
        requires
            is_amount(annual),
            is_amount(hours_per_week),
            is_amount(days_per_week),
            hours_per_week.value() > 0,
            days_per_week.value() > 0,
        ensures
            r.annual == annual,
            r.monthly@ == decimal_quotient(annual@, (12int, 0nat)),
            r.bi_weekly@ == decimal_quotient(annual@, (26int, 0nat)),
            r.weekly@ == decimal_quotient(annual@, (52int, 0nat)),
            r.daily@ == decimal_quotient(
                annual@,
                decimal_product((52int, 0nat), days_per_week@),
            ),
            r.hourly@ == decimal_quotient(
                annual@,
                decimal_product((52int, 0nat), hours_per_week@),
            ),
    {
        TimeframeIncome::from_annual_custom(annual, hours_per_week, days_per_week)
    }

    /// An amount per period scaled to a year: `amount * periods`.
    pub fn to_annual(amount: Dec, from: Timeframe) -> (r: Dec)
        requires
            amount.wf(),
            in_range(amount.value() * from.divisor_spec()),
        ensures
            r.wf(),
            r@ == decimal_product(amount@, (from.divisor_spec(), 0nat)),
            close_product(r, amount, from.divisor_spec()),
            precise_product(r, amount.value(), from.divisor_spec() * pow10(28)),
            from == Timeframe::Annual ==> r.value() == amount.value(),
    {
        let d = from.divisor();
        let ghost n = from.divisor_spec();
        proof {
            lemma_pow10_28();
            let p = pow10(28);
            assert(d.value() == n * p);
            assert(abs(amount.value() * (n * p)) <= (MANTISSA_BOUND - 2) * p * p)
                by (nonlinear_arith)
                requires
                    abs(amount.value() * n) <= (MANTISSA_BOUND - 2) * p,
                    p >= 1,
            ;
        }
        let r = decimal_mul(amount, d);
        proof {
            let p = pow10(28);
            let e = pow10((28 - r.scale) as nat);
            if from == Timeframe::Annual {
                assert(mul_exact(amount, d));
                assert(r.value() * p == amount.value() * p);
                assert(r.value() == amount.value()) by (nonlinear_arith)
                    requires
                        r.value() * p == amount.value() * p,
                        p >= 1,
                ;
            }
            assert(abs(r.value() * p - amount.value() * (n * p)) <= p * e);
            assert(abs(r.value() - amount.value() * n) * p <= e * p) by (nonlinear_arith)
                requires
                    abs(r.value() * p - amount.value() * (n * p)) <= p * e,
                    p >= 1,
            ;
            assert(abs(r.value() - amount.value() * n) <= e) by (nonlinear_arith)
                requires
                    abs(r.value() - amount.value() * n) * p <= e * p,
                    p >= 1,
            ;
        }
        r
    }

    /// An amount per period of one kind expressed per period of another, through
    /// the annual amount.
    pub fn convert(amount: Dec, from: Timeframe, to: Timeframe) -> (r: Dec)
        requires
            is_amount(amount),
        ensures
            r@ == decimal_quotient(
                decimal_product(amount@, (from.divisor_spec(), 0nat)),
                (to.divisor_spec(), 0nat),
            ),
            from == Timeframe::Annual ==> precise_quotient(
                r,
                amount.value(),
                to.divisor_spec() * pow10(28),
            ),
    {
        proof {
            lemma_pow10_values();
            let n = from.divisor_spec();
            let p = pow10(28);
            assert(abs(amount.value() * n) <= (MANTISSA_BOUND - 2) * p) by (nonlinear_arith)
                requires
                    abs(amount.value()) <= AMOUNT_LIMIT * p,
                    1 <= n <= 2080,
                    p == 10000000000000000000000000000,
            ;
        }
        let annual = Self::to_annual(amount, from);
        let d = to.divisor();
        proof {
            let n = from.divisor_spec();
            let p = pow10(28);
            crate::decimal::lemma_pow10_mono((28 - annual.scale) as nat, 28);
            assert(abs(annual.value()) <= (MANTISSA_BOUND - 2) * p) by (nonlinear_arith)
                requires
                    abs(annual.value() - amount.value() * n) <= pow10((28 - annual.scale) as nat),
                    pow10((28 - annual.scale) as nat) <= p,
                    abs(amount.value()) <= AMOUNT_LIMIT * p,
                    1 <= n <= 2080,
                    p == 10000000000000000000000000000,
            ;
            lemma_div_whole(annual, d);
        }
        decimal_div(annual, d)
    }

    /// Hours of work at an hourly rate needed to earn a target; zero for a rate
    /// that is not positive.
    pub fn hours_to_earn(hourly_rate: Dec, target_amount: Dec) -> (r: Dec)
        requires
            is_amount(hourly_rate),
            is_amount(target_amount),
        ensures
            hourly_rate.value() <= 0 ==> r.value() == 0,
            hourly_rate.value() > 0 ==> r@ == decimal_quotient(target_amount@, hourly_rate@),
    {
        earn_time(hourly_rate, target_amount)
    }

    /// Days of work at a daily rate needed to earn a target; zero for a rate that
    /// is not positive.
    pub fn days_to_earn(daily_rate: Dec, target_amount: Dec) -> (r: Dec)
        requires
            is_amount(daily_rate),
            is_amount(target_amount),
        ensures
            daily_rate.value() <= 0 ==> r.value() == 0,
            daily_rate.value() > 0 ==> r@ == decimal_quotient(target_amount@, daily_rate@),
    {
        earn_time(daily_rate, target_amount)
    }
}

/// `target / rate`, or zero for a rate that is not positive.
fn earn_time(rate: Dec, target: Dec) -> (r: Dec)
    requires
        is_amount(rate),
        is_amount(target),
    ensures
        rate.value() <= 0 ==> r.value() == 0,
        rate.value() > 0 ==> r@ == decimal_quotient(target@, rate@),
{
    proof {
        lemma_value_sign(rate);
    }
    if !rate.is_positive() {
        return Dec::zero();
    }
    proof {
        lemma_pow10_values();
        crate::decimal::lemma_bounded_weaken(target, 6, AMOUNT_LIMIT as int, 28, AMOUNT_LIMIT as int);
        lemma_div_in_range(target, AMOUNT_LIMIT as int, rate);
    }
    decimal_div(target, rate)
}

/// Round trip within a cent: an amount within the calculators' range, spread
/// over a period and scaled back to a year, as rust_decimal rounds the two
/// steps, is within 0.01 of the amount.
pub proof fn lemma_round_trip_within_cent(annual: Dec, tf: Timeframe, per_period: Dec, back: Dec)
    requires
        is_amount(annual),
        precise_quotient(per_period, annual.value(), tf.divisor_spec() * pow10(28)),
        precise_product(back, per_period.value(), tf.divisor_spec() * pow10(28)),
    ensures
        abs(back.value() - annual.value()) * 100 <= pow10(28),
{
    lemma_pow10_values();
    let n = tf.divisor_spec();
    let p = pow10(28);
    let pp = pow10(27);
    let a = annual.value();
    let x = per_period.value();
    let b = back.value();
    assert(1 <= n <= 2080);
    assert(abs(a) <= 10000000000000 * p);
    assert(2 * abs(x * (n * p) - a * p) * pp <= (n * p) * (pp + abs(x)));
    assert(2 * abs(x * n - a) * pp <= n * (pp + abs(x))) by (nonlinear_arith)
        requires
            2 * abs(x * (n * p) - a * p) * pp <= (n * p) * (pp + abs(x)),
            p > 0,
            n > 0,
    ;
    assert(2 * abs(b * p - x * (n * p)) * pp <= p * (pp + abs(b)));
    assert(2 * abs(b - x * n) * pp <= pp + abs(b)) by (nonlinear_arith)
        requires
            2 * abs(b * p - x * (n * p)) * pp <= p * (pp + abs(b)),
            p > 0,
    ;
    let e1 = abs(x * n - a);
    let e2 = abs(b - x * n);
    assert(abs(x) * n * (2 * pp - 1) <= n * pp + 2 * abs(a) * pp) by (nonlinear_arith)
        requires
            2 * e1 * pp <= n * (pp + abs(x)),
            e1 == abs(x * n - a),
            n >= 1,
            pp > 0,
    ;
    assert(abs(x) <= 300000000000000000000000000000000000000000) by (nonlinear_arith)
        requires
            abs(x) * n * (2 * pp - 1) <= n * pp + 2 * abs(a) * pp,
            1 <= n <= 2080,
            pp == 1000000000000000000000000000,
            abs(a) <= 100000000000000000000000000000000000000000,
    ;
    assert(e1 <= 1000000000000000000) by (nonlinear_arith)
        requires
            2 * e1 * pp <= n * (pp + abs(x)),
            1 <= n <= 2080,
            pp == 1000000000000000000000000000,
            abs(x) <= 300000000000000000000000000000000000000000,
            e1 >= 0,
    ;
    assert(abs(b) <= 2 * abs(x) * n + 1) by (nonlinear_arith)
        requires
            2 * e2 * pp <= pp + abs(b),
            e2 == abs(b - x * n),
            pp == 1000000000000000000000000000,
            n >= 1,
    ;
    assert(e2 <= 1000000000000000000) by (nonlinear_arith)
        requires
            2 * e2 * pp <= pp + abs(b),
            abs(b) <= 2 * abs(x) * n + 1,
            1 <= n <= 2080,
            abs(x) <= 300000000000000000000000000000000000000000,
            pp == 1000000000000000000000000000,
            e2 >= 0,
    ;
}

/// Round trip: an annual amount spread over a period, then scaled back to a year,
/// differs from the amount by at most the rounding of the two steps (one unit of
/// the last digit of the per-period amount, times the number of periods, plus one
/// unit of the last digit of the result).
pub proof fn lemma_round_trip(annual: Dec, tf: Timeframe, per_period: Dec, back: Dec)
    requires
        close_quotient(per_period, annual, tf.divisor_spec()),
        close_product(back, per_period, tf.divisor_spec()),
    ensures
        abs(back.value() - annual.value()) <= tf.divisor_spec() * pow10(
            (28 - per_period.scale) as nat,
        ) + pow10((28 - back.scale) as nat),
{
}

} // verus!
