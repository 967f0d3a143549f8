//! Income models: pay frequency, income input, per-period amounts.
use crate::decimal::{
    precise_quotient,
    abs, bounded, close_quotient, decimal_add, decimal_div, decimal_mul, decimal_product,
    decimal_quotient, in_range, is_amount, lemma_add_sub_exact, lemma_bounded_weaken,
    lemma_div_whole, lemma_mul_exact, lemma_pow10_values, lemma_value_sign, pow10, Dec,
    AMOUNT_LIMIT, MANTISSA_BOUND,
};
use vstd::prelude::*;

verus! {

/// Pay frequency options.
#[derive(Debug, Clone, Copy, PartialEq, Eq, Structural)]
pub enum PayFrequency {
    Weekly,
    BiWeekly,
    SemiMonthly,
    Monthly,
}

impl Default for PayFrequency {
    fn default() -> (r: PayFrequency)
        ensures
            r == PayFrequency::BiWeekly,
    {
        PayFrequency::BiWeekly
    }
}

impl PayFrequency {
    pub open spec fn periods_spec(self) -> u32 {
        match self {
            PayFrequency::Weekly => 52,
            PayFrequency::BiWeekly => 26,
            PayFrequency::SemiMonthly => 24,
            PayFrequency::Monthly => 12,
        }
    }

    /// Number of pay periods per year.
    pub fn periods_per_year(&self) -> (r: u32)
        ensures
            r == self.periods_spec(),
    {
        match self {
            PayFrequency::Weekly => 52,
            PayFrequency::BiWeekly => 26,
            PayFrequency::SemiMonthly => 24,
            PayFrequency::Monthly => 12,
        }
    }

    pub fn as_str(&self) -> (r: &'static str) {
        match self {
            PayFrequency::Weekly => "weekly",
            PayFrequency::BiWeekly => "bi_weekly",
            PayFrequency::SemiMonthly => "semi_monthly",
            PayFrequency::Monthly => "monthly",
        }
    }
}

/// Income input for calculations.
#[derive(Debug, Clone, Copy)]
pub struct IncomeInput {
    pub gross_annual_salary: Dec,
    pub bonuses: Dec,
    pub other_income: Dec,
    pub pay_frequency: PayFrequency,
}

impl IncomeInput {
    pub fn new(gross_annual_salary: Dec) -> (r: IncomeInput)
        ensures
            r.gross_annual_salary == gross_annual_salary,
            r.bonuses.value() == 0,
            r.other_income.value() == 0,
            r.pay_frequency == PayFrequency::BiWeekly,
    {
        IncomeInput {
            gross_annual_salary,
            bonuses: Dec::zero(),
            other_income: Dec::zero(),
            pay_frequency: PayFrequency::BiWeekly,
        }
    }

    /// Salary plus bonuses plus other income.
    pub fn total_gross(&self) -> (r: Dec)
        requires
            is_amount(self.gross_annual_salary),
            is_amount(self.bonuses),
            is_amount(self.other_income),
        ensures
            r.value() == self.gross_annual_salary.value() + self.bonuses.value()
                + self.other_income.value(),
    {
        let ghost l = AMOUNT_LIMIT as int;
        proof {
            lemma_pow10_values();
            lemma_add_sub_exact(self.gross_annual_salary, self.bonuses, 6, l, l);
        }
        let partial = decimal_add(self.gross_annual_salary, self.bonuses);
        proof {
            lemma_add_sub_exact(partial, self.other_income, 6, 2 * l, l);
        }
        decimal_add(partial, self.other_income)
    }
}

impl Default for IncomeInput {
    fn default() -> (r: IncomeInput)
        ensures
            r.gross_annual_salary.value() == 0,
            r.bonuses.value() == 0,
            r.other_income.value() == 0,
            r.pay_frequency == PayFrequency::BiWeekly,
    {
        IncomeInput::new(Dec::zero())
    }
}

/// `a / n` for a whole number `n` of at least 2, as rust_decimal computes it.
pub(crate) fn divide_by_whole(a: Dec, n: i64) -> (r: Dec)
    requires
        a.wf(),
        in_range(a.value()),
        n >= 1,
    ensures
        r.wf(),
        r@ == decimal_quotient(a@, (n as int, 0nat)),
        close_quotient(r, a, n as int),
        n <= 2080 ==> exact_quotient(r, a, n as int),
        precise_quotient(r, a.value(), n * pow10(28)),
{
    let d = Dec::from_int(n);
    proof {
        lemma_div_whole(a, d);
    }
    let r = decimal_div(a, d);
    proof {
        if n <= 2080 && (a.mantissa as int) % (n as int) == 0 {
            crate::decimal::lemma_pow10_28();
            let p = pow10(28);
            assert(r.value() * (n * p) == a.value() * p);
            assert(r.value() * n == a.value()) by (nonlinear_arith)
                requires
                    r.value() * (n * p) == a.value() * p,
                    p > 0,
            ;
        }
    }
    assert(close_quotient(r, a, n as int)) by {
        assert(abs(r.value() * d.value() - a.value() * pow10(28)) <= abs(d.value()) * pow10(
            (28 - r.scale) as nat,
        ));
    }
    r
}

/// `q` is exactly `a / n` when `n` divides the mantissa of `a`.
pub open spec fn exact_quotient(q: Dec, a: Dec, n: int) -> bool {
    (a.mantissa as int) % n == 0 ==> q.value() * n == a.value()
}

/// An annual amount spread over calendar periods.
#[derive(Debug, Clone, Copy, PartialEq)]
pub struct TimeframeIncome {
    pub annual: Dec,
    pub monthly: Dec,
    pub bi_weekly: Dec,
    pub weekly: Dec,
    pub daily: Dec,
    pub hourly: Dec,
}

/// The standard breakdown: 12 months, 26 fortnights, 52 weeks, 260 working days
/// and 2080 working hours a year.
pub open spec fn timeframes_spec(r: TimeframeIncome, annual: Dec) -> bool {
    &&& r.annual == annual
    &&& r.monthly.wf() && r.bi_weekly.wf() && r.weekly.wf() && r.daily.wf() && r.hourly.wf()
    &&& r.monthly@ == decimal_quotient(annual@, (12int, 0nat))
    &&& r.bi_weekly@ == decimal_quotient(annual@, (26int, 0nat))
    &&& r.weekly@ == decimal_quotient(annual@, (52int, 0nat))
    &&& r.daily@ == decimal_quotient(annual@, (260int, 0nat))
    &&& r.hourly@ == decimal_quotient(annual@, (2080int, 0nat))
    &&& close_quotient(r.monthly, annual, 12)
    &&& close_quotient(r.bi_weekly, annual, 26)
    &&& close_quotient(r.weekly, annual, 52)
    &&& close_quotient(r.daily, annual, 260)
    &&& close_quotient(r.hourly, annual, 2080)
    &&& exact_quotient(r.monthly, annual, 12)
    &&& exact_quotient(r.bi_weekly, annual, 26)
    &&& exact_quotient(r.weekly, annual, 52)
    &&& exact_quotient(r.daily, annual, 260)
    &&& exact_quotient(r.hourly, annual, 2080)
}

impl TimeframeIncome {
    /// Breakdown with the standard 40-hour, 5-day week.
    pub fn from_annual(annual: Dec) -> (r: TimeframeIncome)
        requires
            annual.wf(),
            in_range(annual.value()),
        ensures
            timeframes_spec(r, annual),
    {
        TimeframeIncome {
            annual,
            monthly: divide_by_whole(annual, 12),
            bi_weekly: divide_by_whole(annual, 26),
            weekly: divide_by_whole(annual, 52),
            daily: divide_by_whole(annual, 260),
            hourly: divide_by_whole(annual, 2080),
        }
    }

    /// Breakdown with a custom working week: the daily and hourly amounts divide
    /// by 52 weeks times the days, and the hours, per week.
    pub fn from_annual_custom(annual: Dec, hours_per_week: Dec, days_per_week: Dec) -> (r:
        TimeframeIncome)
        requires
            is_amount(annual),
            is_amount(hours_per_week),
            is_amount(days_per_week),
            hours_per_week.value() > 0,
            days_per_week.value() > 0,
        ensures
            r.annual == annual,
            r.monthly@ == decimal_quotient(annual@, (12int, 0nat)),
            r.bi_weekly@ == decimal_quotient(annual@, (26int, 0nat)),
            r.weekly@ == decimal_quotient(annual@, (52int, 0nat)),
            r.daily@ == decimal_quotient(
                annual@,
                decimal_product((52int, 0nat), days_per_week@),
            ),
            r.hourly@ == decimal_quotient(
                annual@,
                decimal_product((52int, 0nat), hours_per_week@),
            ),
    {
        let ghost l = AMOUNT_LIMIT as int;
        proof {
            lemma_pow10_values();
            lemma_bounded_weaken(annual, 6, l, 28, l);
        }
        let weeks = Dec::from_int(52);
        proof {
            lemma_mul_exact(weeks, days_per_week, 0, 52, 6, l);
            lemma_mul_exact(weeks, hours_per_week, 0, 52, 6, l);
        }
        let week_days = decimal_mul(weeks, days_per_week);
        let week_hours = decimal_mul(weeks, hours_per_week);
        proof {
            lemma_value_sign(days_per_week);
            lemma_value_sign(hours_per_week);
            assert(week_days.value() * pow10(28) == 52 * pow10(28) * days_per_week.value());
            assert(week_days.value() > 0) by (nonlinear_arith)
                requires
                    week_days.value() * pow10(28) == 52 * pow10(28) * days_per_week.value(),
                    days_per_week.value() > 0,
                    pow10(28) > 0,
            ;
            assert(week_hours.value() > 0) by (nonlinear_arith)
                requires
                    week_hours.value() * pow10(28) == 52 * pow10(28) * hours_per_week.value(),
                    hours_per_week.value() > 0,
                    pow10(28) > 0,
            ;
            lemma_value_sign(week_days);
            lemma_value_sign(week_hours);
            crate::decimal::lemma_div_in_range(annual, l, week_days);
            crate::decimal::lemma_div_in_range(annual, l, week_hours);
            assert(in_range(annual.value()));
        }
        TimeframeIncome {
            annual,
            monthly: divide_by_whole(annual, 12),
            bi_weekly: divide_by_whole(annual, 26),
            weekly: divide_by_whole(annual, 52),
            daily: decimal_div(annual, week_days),
            hourly: decimal_div(annual, week_hours),
        }
    }
}

impl Default for TimeframeIncome {
    fn default() -> (r: TimeframeIncome)
        ensures
            timeframes_spec(r, Dec { mantissa: 0, scale: 0 }),
    {
        TimeframeIncome::from_annual(Dec::zero())
    }
}

/// Gross and net income with the net spread over periods.
#[derive(Debug, Clone, Copy)]
pub struct CalculatedIncome {
    pub gross: Dec,
    pub net: Dec,
    pub timeframes: TimeframeIncome,
    pub take_home_percentage: Dec,
}

/// Bound, in whole units, on a net income the engine produces.
pub open spec fn net_limit() -> int {
    256 * AMOUNT_LIMIT
}

/// Net income as a percentage of gross: `net / gross * 100`, zero unless gross
/// is positive.
pub open spec fn take_home_spec(r: Dec, gross: Dec, net: Dec) -> bool {
    if gross.value() > 0 {
        r@ == decimal_product(decimal_quotient(net@, gross@), (100int, 0nat))
    } else {
        r.value() == 0
    }
}

/// `net / gross * 100`, as rust_decimal computes it; zero unless gross is positive.
pub(crate) fn take_home_percentage(gross: Dec, net: Dec) -> (r: Dec)
    requires
        is_amount(gross),
        bounded(net, 12, net_limit()),
    ensures
        take_home_spec(r, gross, net),
        r.wf(),
{
    proof {
        lemma_value_sign(gross);
    }
    if !gross.is_positive() {
        return Dec::zero();
    }
    proof {
        lemma_pow10_values();
        lemma_bounded_weaken(net, 12, net_limit(), 28, net_limit());
        crate::decimal::lemma_div_in_range(net, net_limit(), gross);
    }
    let ratio = decimal_div(net, gross);
    proof {
        crate::decimal::lemma_quotient_bound(net, net_limit(), gross, ratio);
        let q = ratio.value();
        let p = pow10(28);
        assert(abs(q * (100 * p)) <= (MANTISSA_BOUND - 2) * p * p) by (nonlinear_arith)
            requires
                abs(q) <= (net_limit() * 1000000 + 1) * p,
                net_limit() == 2560000000000000,
                p == 10000000000000000000000000000,
                MANTISSA_BOUND == 79228162514264337593543950336int,
        ;
    }
    decimal_mul(ratio, Dec::from_int(100))
}

impl CalculatedIncome {
    pub fn new(gross: Dec, net: Dec) -> (r: CalculatedIncome)
        requires
            is_amount(gross),
            bounded(net, 12, net_limit()),
        ensures
            r.gross == gross,
            r.net == net,
            timeframes_spec(r.timeframes, net),
            take_home_spec(r.take_home_percentage, gross, net),
    {
        proof {
            lemma_pow10_values();
            lemma_bounded_weaken(net, 12, net_limit(), 28, MANTISSA_BOUND - 2);
        }
        CalculatedIncome {
            gross,
            net,
            timeframes: TimeframeIncome::from_annual(net),
            take_home_percentage: take_home_percentage(gross, net),
        }
    }
}

} // verus!
