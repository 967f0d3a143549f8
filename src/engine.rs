//! The calculation engine: deduction ordering, the three calculators, net income
//! and effective rates, and the comparison of two scenarios.
use crate::calculators::brackets::tax_on;
use crate::calculators::federal::{federal_result_spec, FederalTaxCalculator};
use crate::calculators::fica::{
    base_tax_wide, fica_result_spec, supplemental_tax_wide, surtax_wide, FicaCalculator,
};
use crate::calculators::state::{
    income_tax_wide, local_tax_wide, sdi_wide, state_result_spec, state_tax_limit,
    StateTaxCalculator,
};
use crate::data::TaxDataProvider;
use crate::decimal::{
    close_quotient, precise_quotient, abs, bounded, ulp, decimal_add, decimal_div, decimal_mul, decimal_product, decimal_quotient,
    decimal_sub, in_range, is_amount, lemma_add_sub_exact, lemma_bounded_weaken,
    lemma_div_in_range, lemma_pow10_values, lemma_value_sign, pow10, Dec, AMOUNT_LIMIT,
    MANTISSA_BOUND,
};
use crate::models::income::{
    divide_by_whole, net_limit, take_home_spec, timeframes_spec,
    CalculatedIncome, };
use crate::models::state::USState;
use crate::models::tax::{EffectiveRates, FilingStatus, TaxBreakdown};
use vstd::prelude::*;

verus! {

/// Largest magnitude, in whole units, of an input amount: one trillion.
pub const INPUT_LIMIT: i128 = 1000000000000;

/// Input of a complete calculation.
#[derive(Debug, Clone, Copy)]
pub struct TaxCalculationInput {
    pub gross_income: Dec,
    pub filing_status: FilingStatus,
    pub state: USState,
    pub pre_tax_deductions: Dec,
    pub post_tax_deductions: Dec,
    pub traditional_401k: Dec,
    pub roth_401k: Dec,
}

impl TaxCalculationInput {
    /// Every amount has at most six places and a magnitude of at most one trillion.
    pub open spec fn in_range(self) -> bool {
        &&& bounded(self.gross_income, 6, INPUT_LIMIT as int)
        &&& bounded(self.pre_tax_deductions, 6, INPUT_LIMIT as int)
        &&& bounded(self.post_tax_deductions, 6, INPUT_LIMIT as int)
        &&& bounded(self.traditional_401k, 6, INPUT_LIMIT as int)
        &&& bounded(self.roth_401k, 6, INPUT_LIMIT as int)
    }

    /// No income and no deductions of any kind.
    pub open spec fn is_zero_income(self) -> bool {
        &&& self.gross_income.value() == 0
        &&& self.pre_tax_deductions.value() == 0
        &&& self.post_tax_deductions.value() == 0
        &&& self.traditional_401k.value() == 0
        &&& self.roth_401k.value() == 0
    }

    /// Deductions taken before tax: pre-tax deductions plus traditional contributions.
    pub open spec fn total_pre_tax(self) -> int {
        self.pre_tax_deductions.value() + self.traditional_401k.value()
    }

    /// Deductions taken after tax: post-tax deductions plus Roth contributions.
    pub open spec fn total_post_tax(self) -> int {
        self.post_tax_deductions.value() + self.roth_401k.value()
    }

    /// Income subject to jurisdiction tax.
    pub open spec fn state_taxable(self) -> int {
        self.gross_income.value() - self.total_pre_tax()
    }

    /// Income subject to federal tax, given the standard deduction.
    pub open spec fn federal_taxable(self, std_deduction: int) -> int {
        let t = self.gross_income.value() - self.total_pre_tax() - std_deduction;
        if t <= 0 {
            0
        } else {
            t
        }
    }
}

impl Default for TaxCalculationInput {
    fn default() -> (r: TaxCalculationInput)
        ensures
            r.gross_income.value() == 0,
            r.filing_status == FilingStatus::Single,
            r.state == USState::California,
            r.pre_tax_deductions.value() == 0,
            r.post_tax_deductions.value() == 0,
            r.traditional_401k.value() == 0,
            r.roth_401k.value() == 0,
            r.in_range(),
    {
        proof {
            lemma_pow10_values();
        }
        TaxCalculationInput {
            gross_income: Dec::zero(),
            filing_status: FilingStatus::Single,
            state: USState::California,
            pre_tax_deductions: Dec::zero(),
            post_tax_deductions: Dec::zero(),
            traditional_401k: Dec::zero(),
            roth_401k: Dec::zero(),
        }
    }
}

/// Total federal, jurisdiction and payroll tax for an input (wide).
pub open spec fn total_taxes_wide<P: TaxDataProvider>(p: &P, year: u32, i: TaxCalculationInput) -> int {
    let fs = i.filing_status;
    let std = p.standard_deduction_spec(fs, year).value();
    let federal = tax_on(p.federal_brackets_spec(fs, year), i.federal_taxable(std));
    let c = p.state_config_spec(i.state, year);
    let x = i.state_taxable();
    let state = if i.state.has_no_income_tax_spec() {
        0
    } else {
        income_tax_wide(c, i.state, fs, x) + sdi_wide(c, i.state, x) + local_tax_wide(c, i.state, x)
    };
    let fc = p.fica_config_spec(year);
    let g = i.gross_income.value();
    let fica = base_tax_wide(fc, g) + supplemental_tax_wide(fc, g) + surtax_wide(fc, fs, g);
    federal + state + fica
}

/// Net income for an input (wide): gross less taxes and all deductions.
pub open spec fn net_income_wide<P: TaxDataProvider>(p: &P, year: u32, i: TaxCalculationInput) -> int {
    (i.gross_income.value() - i.total_pre_tax() - i.total_post_tax()) * pow10(28)
        - total_taxes_wide(p, year, i)
}

/// Complete calculation result.
#[derive(Debug, Clone)]
pub struct TaxCalculationResult {
    pub income: CalculatedIncome,
    pub tax_breakdown: TaxBreakdown,
    pub effective_rates: EffectiveRates,
}

/// What a complete calculation returns for an input.
pub open spec fn calculation_spec<P: TaxDataProvider>(
    p: &P,
    year: u32,
    i: TaxCalculationInput,
    r: TaxCalculationResult,
) -> bool {
    let fs = i.filing_status;
    let gross = i.gross_income;
    let std = p.standard_deduction_spec(fs, year).value();
    let fed = r.tax_breakdown.federal;
    let st = r.tax_breakdown.state;
    let fica = r.tax_breakdown.fica;
    let rates = r.effective_rates;
    &&& r.income.gross == gross
    &&& r.income.net.wf()
    &&& r.tax_breakdown.total_taxes.wf()
    &&& exists|t: Dec|
        t.value() == i.federal_taxable(std) && federal_result_spec(
            fed,
            p.federal_brackets_spec(fs, year),
            t,
        )
    &&& st.taxable_income.value() == i.state_taxable()
    &&& state_result_spec(st, p.state_config_spec(i.state, year), i.state, fs, st.taxable_income)
    &&& fica_result_spec(fica, p.fica_config_spec(year), fs, gross.value())
    &&& r.tax_breakdown.total_taxes.value() == fed.tax.value() + st.total_tax.value()
        + fica.total.value()
    &&& r.tax_breakdown.total_taxes.value() * pow10(28) == total_taxes_wide(p, year, i)
    &&& r.income.net.value() * pow10(28) == net_income_wide(p, year, i)
    &&& timeframes_spec(r.income.timeframes, r.income.net)
    &&& take_home_spec(r.income.take_home_percentage, gross, r.income.net)
    &&& r.tax_breakdown.effective_rate == rates.total
    &&& if gross.value() > 0 {
        &&& rates.federal@ == decimal_quotient(fed.tax@, gross@)
        &&& rates.state@ == decimal_quotient(st.total_tax@, gross@)
        &&& rates.fica@ == decimal_quotient(fica.total@, gross@)
        &&& rates.total@ == decimal_quotient(r.tax_breakdown.total_taxes@, gross@)
        &&& close_rate(rates.federal, fed.tax, gross)
        &&& close_rate(rates.state, st.total_tax, gross)
        &&& close_rate(rates.fica, fica.total, gross)
        &&& close_rate(rates.total, r.tax_breakdown.total_taxes, gross)
        &&& precise_quotient(rates.federal, fed.tax.value(), gross.value())
        &&& precise_quotient(rates.state, st.total_tax.value(), gross.value())
        &&& precise_quotient(rates.fica, fica.total.value(), gross.value())
        &&& precise_quotient(rates.total, r.tax_breakdown.total_taxes.value(), gross.value())
        &&& abs(fed.tax.value()) <= gross.value() ==> fine_rate(rates.federal, fed.tax, gross)
        &&& abs(st.total_tax.value()) <= gross.value() ==> fine_rate(
            rates.state,
            st.total_tax,
            gross,
        )
        &&& abs(fica.total.value()) <= gross.value() ==> fine_rate(rates.fica, fica.total, gross)
        &&& abs(r.tax_breakdown.total_taxes.value()) <= gross.value() ==> fine_rate(
            rates.total,
            r.tax_breakdown.total_taxes,
            gross,
        )
    } else {
        &&& rates.federal.value() == 0
        &&& rates.state.value() == 0
        &&& rates.fica.value() == 0
        &&& rates.total.value() == 0
    }
}

/// `rate` is within half a unit of 10^-28 of `tax / income`.
pub open spec fn fine_rate(rate: Dec, tax: Dec, income: Dec) -> bool {
    2 * abs(rate.value() * income.value() - tax.value() * pow10(28)) <= abs(income.value())
}

/// `rate` is within one unit of its last digit of `tax / income`.
pub open spec fn close_rate(rate: Dec, tax: Dec, income: Dec) -> bool {
    abs(rate.value() * income.value() - tax.value() * pow10(28)) <= abs(income.value()) * pow10(
        (28 - rate.scale) as nat,
    )
}

/// Rates that each lie within one unit of their last digit of their quotient
/// add up, when the taxes add up, to within the sum of those units.
proof fn lemma_rates_add_up(rates: EffectiveRates, f: Dec, s: Dec, p: Dec, t: Dec, gross: Dec)
    requires
        gross.value() > 0,
        t.value() == f.value() + s.value() + p.value(),
        close_rate(rates.federal, f, gross),
        close_rate(rates.state, s, gross),
        close_rate(rates.fica, p, gross),
        close_rate(rates.total, t, gross),
    ensures
        abs(rates.total.value() - (rates.federal.value() + rates.state.value()
            + rates.fica.value())) <= ulp(rates.total) + ulp(rates.federal) + ulp(rates.state)
            + ulp(rates.fica),
{
    let g = gross.value();
    let q = pow10(28);
    let et = ulp(rates.total);
    let ef = ulp(rates.federal);
    let es = ulp(rates.state);
    let ep = ulp(rates.fica);
    let d = rates.total.value() - (rates.federal.value() + rates.state.value()
        + rates.fica.value());
    assert(d * g == (rates.total.value() * g - t.value() * q) - (rates.federal.value() * g
        - f.value() * q) - (rates.state.value() * g - s.value() * q) - (rates.fica.value() * g
        - p.value() * q)) by (nonlinear_arith)
        requires
            t.value() == f.value() + s.value() + p.value(),
            d == rates.total.value() - (rates.federal.value() + rates.state.value()
                + rates.fica.value()),
    ;
    assert(abs(d) * g <= (et + ef + es + ep) * g) by (nonlinear_arith)
        requires
            abs(d * g) <= g * et + g * ef + g * es + g * ep,
            g > 0,
    ;
    assert(abs(d) <= et + ef + es + ep) by (nonlinear_arith)
        requires
            abs(d) * g <= (et + ef + es + ep) * g,
            g > 0,
    ;
}

/// An effective rate computed by rust_decimal is within 2 * 10^-6 of the true
/// ratio of a tax within the engine's bound to a positive amount gross.
proof fn lemma_rate_error(r: Dec, tax: Dec, gross: Dec)
    requires
        gross.value() > 0,
        is_amount(gross),
        bounded(tax, 28, 256 * AMOUNT_LIMIT),
        r.wf(),
        close_rate(r, tax, gross),
        precise_quotient(r, tax.value(), gross.value()),
    ensures
        abs(r.value() * gross.value() - tax.value() * pow10(28)) <= gross.value()
            * 20000000000000000000000,
{
    lemma_pow10_values();
    lemma_value_sign(gross);
    crate::decimal::lemma_quotient_bound(tax, 256 * AMOUNT_LIMIT, gross, r);
    let g = gross.value();
    let e = abs(r.value() * g - tax.value() * pow10(28));
    let rv = abs(r.value());
    assert(2 * e * pow10(27) <= g * (pow10(27) + rv));
    assert(rv <= (256 * AMOUNT_LIMIT * 1000000 + 1) * pow10(28));
    assert(e <= g * 20000000000000000000000) by (nonlinear_arith)
        requires
            2 * e * 1000000000000000000000000000 <= g * (1000000000000000000000000000 + rv),
            rv <= (256 * 10000000000000 * 1000000 + 1) * 10000000000000000000000000000,
            g > 0,
            e >= 0,
    ;
}

/// Rates each within 2 * 10^-6 (relative to gross) of their quotient add up,
/// when the taxes add up, to within 0.001.
proof fn lemma_rates_within_thousandth(rates: EffectiveRates, f: Dec, s: Dec, p: Dec, t: Dec, gross: Dec)
    requires
        gross.value() > 0,
        t.value() == f.value() + s.value() + p.value(),
        abs(rates.federal.value() * gross.value() - f.value() * pow10(28)) <= gross.value()
            * 20000000000000000000000,
        abs(rates.state.value() * gross.value() - s.value() * pow10(28)) <= gross.value()
            * 20000000000000000000000,
        abs(rates.fica.value() * gross.value() - p.value() * pow10(28)) <= gross.value()
            * 20000000000000000000000,
        abs(rates.total.value() * gross.value() - t.value() * pow10(28)) <= gross.value()
            * 20000000000000000000000,
    ensures
        abs(rates.total.value() - (rates.federal.value() + rates.state.value()
            + rates.fica.value())) * 1000 <= pow10(28),
{
    lemma_pow10_values();
    let g = gross.value();
    let q = pow10(28);
    let d = rates.total.value() - (rates.federal.value() + rates.state.value()
        + rates.fica.value());
    assert(d * g == (rates.total.value() * g - t.value() * q) - (rates.federal.value() * g
        - f.value() * q) - (rates.state.value() * g - s.value() * q) - (rates.fica.value() * g
        - p.value() * q)) by (nonlinear_arith)
        requires
            t.value() == f.value() + s.value() + p.value(),
            d == rates.total.value() - (rates.federal.value() + rates.state.value()
                + rates.fica.value()),
    ;
    assert(abs(d) * g <= 80000000000000000000000 * g) by (nonlinear_arith)
        requires
            abs(d * g) <= 4 * (g * 20000000000000000000000),
            g > 0,
    ;
    assert(abs(d) <= 80000000000000000000000) by (nonlinear_arith)
        requires
            abs(d) * g <= 80000000000000000000000 * g,
            g > 0,
    ;
}

/// Rates each within half a unit of 10^-28 of their quotient add up, when the
/// taxes add up, to within two units of 10^-28.
proof fn lemma_fine_rates_add_up(rates: EffectiveRates, f: Dec, s: Dec, p: Dec, t: Dec, gross: Dec)
    requires
        gross.value() > 0,
        t.value() == f.value() + s.value() + p.value(),
        fine_rate(rates.federal, f, gross),
        fine_rate(rates.state, s, gross),
        fine_rate(rates.fica, p, gross),
        fine_rate(rates.total, t, gross),
    ensures
        abs(rates.total.value() - (rates.federal.value() + rates.state.value()
            + rates.fica.value())) <= 2,
{
    let g = gross.value();
    let q = pow10(28);
    let d = rates.total.value() - (rates.federal.value() + rates.state.value()
        + rates.fica.value());
    assert(d * g == (rates.total.value() * g - t.value() * q) - (rates.federal.value() * g
        - f.value() * q) - (rates.state.value() * g - s.value() * q) - (rates.fica.value() * g
        - p.value() * q)) by (nonlinear_arith)
        requires
            t.value() == f.value() + s.value() + p.value(),
            d == rates.total.value() - (rates.federal.value() + rates.state.value()
                + rates.fica.value()),
    ;
    assert(2 * abs(d) * g <= 4 * g) by (nonlinear_arith)
        requires
            2 * abs(d * g) <= 4 * g,
            g > 0,
    ;
    assert(abs(d) <= 2) by (nonlinear_arith)
        requires
            2 * abs(d) * g <= 4 * g,
            g > 0,
    ;
}

/// Comparison of a base scenario with another.
#[derive(Debug, Clone)]
pub struct ScenarioComparison {
    pub base: TaxCalculationResult,
    pub scenario: TaxCalculationResult,
    pub net_difference: Dec,
    pub monthly_difference: Dec,
}

impl ScenarioComparison {
    /// Whether the scenario nets more than the base.
    pub fn is_positive(&self) -> (r: bool)
        requires
            self.net_difference.wf(),
        ensures
            r == (self.net_difference.value() > 0),
    {
        self.net_difference.is_positive()
    }

    /// The net difference as a percentage of the base net income; zero unless
    /// the base net income is positive.
    pub fn net_difference_percent(&self) -> (r: Dec)
        requires
            self.net_difference.wf(),
            self.base.income.net.wf(),
            self.base.income.net.value() > 0 ==> abs(self.net_difference.value()) * 100 <= (
            MANTISSA_BOUND - 102) * self.base.income.net.value(),
        ensures
            self.base.income.net.value() <= 0 ==> r.value() == 0,
            self.base.income.net.value() > 0 ==> r@ == decimal_product(
                decimal_quotient(self.net_difference@, self.base.income.net@),
                (100int, 0nat),
            ),
    {
        let net = self.base.income.net;
        let diff = self.net_difference;
        proof {
            lemma_value_sign(net);
        }
        if !net.is_positive() {
            return Dec::zero();
        }
        proof {
            lemma_pow10_values();
            let p = pow10(28);
            assert(abs(diff.value()) * p <= (MANTISSA_BOUND - 2) * p * abs(net.value()))
                by (nonlinear_arith)
                requires
                    abs(diff.value()) * 100 <= (MANTISSA_BOUND - 102) * net.value(),
                    net.value() > 0,
                    p > 0,
            ;
        }
        let ratio = decimal_div(diff, net);
        proof {
            let p = pow10(28);
            let q = ratio.value();
            let n = net.value();
            let e = pow10((28 - ratio.scale) as nat);
            crate::decimal::lemma_pow10_mono((28 - ratio.scale) as nat, 28);
            assert(abs(q) * n <= abs(diff.value()) * p + n * p) by (nonlinear_arith)
                requires
                    abs(q * n - diff.value() * p) <= n * e,
                    e <= p,
                    n > 0,
            ;
            assert(abs(q) * 100 * n <= (MANTISSA_BOUND - 2) * p * n) by (nonlinear_arith)
                requires
                    abs(q) * n <= abs(diff.value()) * p + n * p,
                    abs(diff.value()) * 100 <= (MANTISSA_BOUND - 102) * n,
                    n > 0,
                    p > 0,
            ;
            assert(abs(q) * 100 <= (MANTISSA_BOUND - 2) * p) by (nonlinear_arith)
                requires
                    abs(q) * 100 * n <= (MANTISSA_BOUND - 2) * p * n,
                    n > 0,
            ;
            assert(abs(q * (100 * p)) <= (MANTISSA_BOUND - 2) * p * p) by (nonlinear_arith)
                requires
                    abs(q) * 100 <= (MANTISSA_BOUND - 2) * p,
                    p > 0,
            ;
        }
        decimal_mul(ratio, Dec::from_int(100))
    }
}

/// `tax / gross` for an effective rate.
fn rate_of(tax: Dec, gross: Dec) -> (r: Dec)
    requires
        bounded(tax, 12, 256 * AMOUNT_LIMIT),
        is_amount(gross),
        gross.value() > 0,
    ensures
        r@ == decimal_quotient(tax@, gross@),
        close_rate(r, tax, gross),
        abs(tax.value()) <= gross.value() ==> fine_rate(r, tax, gross),
        precise_quotient(r, tax.value(), gross.value()),
        r.wf(),
{
    proof {
        lemma_pow10_values();
        lemma_value_sign(gross);
        lemma_div_in_range(tax, 256 * AMOUNT_LIMIT, gross);
    }
    decimal_div(tax, gross)
}

/// What a comparison returns for a base and a scenario input.
pub open spec fn comparison_spec<P: TaxDataProvider>(
    p: &P,
    year: u32,
    base: TaxCalculationInput,
    scenario: TaxCalculationInput,
    r: ScenarioComparison,
) -> bool {
    &&& calculation_spec(p, year, base, r.base)
    &&& calculation_spec(p, year, scenario, r.scenario)
    &&& r.net_difference.value() == r.scenario.income.net.value() - r.base.income.net.value()
    &&& r.net_difference.value() * pow10(28) == net_income_wide(p, year, scenario)
        - net_income_wide(p, year, base)
    &&& r.monthly_difference@ == decimal_quotient(r.net_difference@, (12int, 0nat))
    &&& close_quotient(r.monthly_difference, r.net_difference, 12)
    &&& precise_quotient(r.monthly_difference, r.net_difference.value(), 12 * pow10(28))
    &&& r.net_difference.wf()
    &&& r.monthly_difference.wf()
}

/// Swapping base and scenario negates the net difference.
pub proof fn lemma_comparison_antisymmetric<P: TaxDataProvider>(
    p: &P,
    year: u32,
    a: TaxCalculationInput,
    b: TaxCalculationInput,
    ab: ScenarioComparison,
    ba: ScenarioComparison,
)
    requires
        comparison_spec(p, year, a, b, ab),
        comparison_spec(p, year, b, a, ba),
    ensures
        ab.net_difference.value() == -ba.net_difference.value(),
{
    let q = pow10(28);
    crate::decimal::lemma_pow10_positive(28);
    assert(ab.net_difference.value() * q == -(ba.net_difference.value() * q));
    assert(ab.net_difference.value() == -ba.net_difference.value()) by (nonlinear_arith)
        requires
            ab.net_difference.value() * q == -(ba.net_difference.value() * q),
            q > 0,
    ;
}

/// The calculation engine.
pub struct TaxCalculationEngine<'a, P: TaxDataProvider> {
    pub federal_calc: FederalTaxCalculator<'a, P>,
    pub state_calc: StateTaxCalculator<'a, P>,
    pub fica_calc: FicaCalculator<'a, P>,
    pub year: u32,
}

impl<'a, P: TaxDataProvider> TaxCalculationEngine<'a, P> {
    /// The three calculators read the same provider.
    pub open spec fn wf(&self) -> bool {
        &&& self.state_calc.data_provider == self.federal_calc.data_provider
        &&& self.fica_calc.data_provider == self.federal_calc.data_provider
    }

    pub open spec fn provider(&self) -> &'a P {
        self.federal_calc.data_provider
    }

    pub fn new(data_provider: &'a P, year: u32) -> (r: Self)
        ensures
            r.wf(),
            r.provider() == data_provider,
            r.year == year,
    {
        TaxCalculationEngine {
            federal_calc: FederalTaxCalculator::new(data_provider),
            state_calc: StateTaxCalculator::new(data_provider),
            fica_calc: FicaCalculator::new(data_provider),
            year,
        }
    }

    /// Complete calculation for one input.
    #[verifier::rlimit(80)]
    pub fn calculate(&self, input: &TaxCalculationInput) -> (r: TaxCalculationResult)
        requires
            self.wf(),
            input.in_range(),
        ensures
            calculation_spec(self.provider(), self.year, *input, r),
            bounded(r.income.net, 12, net_limit()),
            input.gross_income.value() > 0 ==> abs(r.effective_rates.total.value() - (
            r.effective_rates.federal.value() + r.effective_rates.state.value()
                + r.effective_rates.fica.value())) <= ulp(r.effective_rates.total) + ulp(
                r.effective_rates.federal,
            ) + ulp(r.effective_rates.state) + ulp(r.effective_rates.fica),
            ({
                let t = r.tax_breakdown;
                let g = input.gross_income.value();
                &&& g > 0
                &&& abs(t.federal.tax.value()) <= g
                &&& abs(t.state.total_tax.value()) <= g
                &&& abs(t.fica.total.value()) <= g
                &&& abs(t.total_taxes.value()) <= g
            }) ==> abs(r.effective_rates.total.value() - (r.effective_rates.federal.value()
                + r.effective_rates.state.value() + r.effective_rates.fica.value())) <= 2,
            input.gross_income.value() > 0 ==> abs(r.effective_rates.total.value() - (
            r.effective_rates.federal.value() + r.effective_rates.state.value()
                + r.effective_rates.fica.value())) * 1000 <= pow10(28),
            input.is_zero_income() ==> {
                &&& r.income.net.value() == 0
                &&& r.tax_breakdown.total_taxes.value() == 0
            },
    {
        let ghost l = AMOUNT_LIMIT as int;
        let ghost il = INPUT_LIMIT as int;
        let gross = input.gross_income;
        proof {
            lemma_pow10_values();
            lemma_bounded_weaken(gross, 6, il, 6, l);
            lemma_add_sub_exact(input.pre_tax_deductions, input.traditional_401k, 6, il, il);
        }
        // Deductions taken before tax.
        let total_pre_tax = decimal_add(input.pre_tax_deductions, input.traditional_401k);
        let std_deduction = self.federal_calc.standard_deduction(input.filing_status, self.year);
        proof {
            lemma_add_sub_exact(gross, total_pre_tax, 6, il, 2 * il);
        }
        let state_taxable = decimal_sub(gross, total_pre_tax);
        proof {
            lemma_add_sub_exact(state_taxable, std_deduction, 6, 3 * il, l);
        }
        let reduced = decimal_sub(state_taxable, std_deduction);
        let federal_taxable = reduced.max(Dec::zero());
        let federal = self.federal_calc.calculate(
            federal_taxable,
            input.filing_status,
            self.year,
        );
        proof {
            lemma_bounded_weaken(state_taxable, 6, 3 * il, 6, l);
        }
        let state = self.state_calc.calculate(
            state_taxable,
            input.state,
            input.filing_status,
            self.year,
        );
        let fica = self.fica_calc.calculate_with_status(gross, input.filing_status, self.year);
        proof {
            lemma_add_sub_exact(federal.tax, state.total_tax, 12, 4 * l, state_tax_limit());
        }
        let partial_taxes = decimal_add(federal.tax, state.total_tax);
        proof {
            lemma_add_sub_exact(partial_taxes, fica.total, 12, 204 * l, 4 * l);
        }
        let total_taxes = decimal_add(partial_taxes, fica.total);
        proof {
            lemma_add_sub_exact(input.post_tax_deductions, input.roth_401k, 6, il, il);
        }
        // Deductions taken after tax.
        let total_post_tax = decimal_add(input.post_tax_deductions, input.roth_401k);
        proof {
            lemma_bounded_weaken(gross, 6, il, 12, il);
            lemma_add_sub_exact(gross, total_taxes, 12, il, 208 * l);
        }
        let after_taxes = decimal_sub(gross, total_taxes);
        proof {
            lemma_bounded_weaken(total_pre_tax, 6, 2 * il, 12, 2 * il);
            lemma_add_sub_exact(after_taxes, total_pre_tax, 12, il + 208 * l, 2 * il);
        }
        let after_pre_tax = decimal_sub(after_taxes, total_pre_tax);
        proof {
            lemma_bounded_weaken(total_post_tax, 6, 2 * il, 12, 2 * il);
            lemma_add_sub_exact(after_pre_tax, total_post_tax, 12, 3 * il + 208 * l, 2 * il);
        }
        let net_income = decimal_sub(after_pre_tax, total_post_tax);
        proof {
            lemma_bounded_weaken(net_income, 12, 5 * il + 208 * l, 12, net_limit());
        }
        let income = CalculatedIncome::new(gross, net_income);
        proof {
            lemma_value_sign(gross);
            lemma_bounded_weaken(federal.tax, 12, 4 * l, 12, 256 * l);
            lemma_bounded_weaken(state.total_tax, 12, state_tax_limit(), 12, 256 * l);
            lemma_bounded_weaken(fica.total, 12, 4 * l, 12, 256 * l);
            lemma_bounded_weaken(total_taxes, 12, 208 * l, 12, 256 * l);
        }
        let effective_rates = if gross.is_positive() {
            EffectiveRates {
                federal: rate_of(federal.tax, gross),
                state: rate_of(state.total_tax, gross),
                fica: rate_of(fica.total, gross),
                total: rate_of(total_taxes, gross),
            }
        } else {
            EffectiveRates {
                federal: Dec::zero(),
                state: Dec::zero(),
                fica: Dec::zero(),
                total: Dec::zero(),
            }
        };
        let effective_rate = effective_rates.total;
        proof {
            let p = pow10(28);
            assert(federal_result_spec(
                federal,
                self.provider().federal_brackets_spec(input.filing_status, self.year),
                federal_taxable,
            ));
            assert(total_taxes.value() * p == federal.tax.value() * p + state.total_tax.value() * p
                + fica.total.value() * p) by (nonlinear_arith)
                requires
                    total_taxes.value() == federal.tax.value() + state.total_tax.value()
                        + fica.total.value(),
            ;
            if gross.value() > 0 && abs(federal.tax.value()) <= gross.value() && abs(
                state.total_tax.value(),
            ) <= gross.value() && abs(fica.total.value()) <= gross.value() && abs(
                total_taxes.value(),
            ) <= gross.value() {
                lemma_fine_rates_add_up(
                    effective_rates,
                    federal.tax,
                    state.total_tax,
                    fica.total,
                    total_taxes,
                    gross,
                );
            }
            if gross.value() > 0 {
                lemma_rate_error(effective_rates.federal, federal.tax, gross);
                lemma_rate_error(effective_rates.state, state.total_tax, gross);
                lemma_rate_error(effective_rates.fica, fica.total, gross);
                lemma_rate_error(effective_rates.total, total_taxes, gross);
                lemma_rates_within_thousandth(
                    effective_rates,
                    federal.tax,
                    state.total_tax,
                    fica.total,
                    total_taxes,
                    gross,
                );
                lemma_rates_add_up(
                    effective_rates,
                    federal.tax,
                    state.total_tax,
                    fica.total,
                    total_taxes,
                    gross,
                );
            }
            if input.is_zero_income() {
                assert(reduced.value() <= 0);
                assert(federal_taxable.value() == 0);
                assert(state_taxable.value() == 0);
            }
            assert(net_income.value() * p == (gross.value() - input.total_pre_tax()
                - input.total_post_tax()) * p - total_taxes.value() * p) by (nonlinear_arith)
                requires
                    net_income.value() == gross.value() - total_taxes.value()
                        - input.total_pre_tax() - input.total_post_tax(),
            ;
        }
        TaxCalculationResult {
            income,
            tax_breakdown: TaxBreakdown {
                federal,
                state,
                fica,
                total_taxes,
                effective_rate,
            },
            effective_rates,
        }
    }

    /// Both scenarios calculated independently, with the difference in net
    /// income (scenario less base) per year and per month.
    pub fn compare_scenarios(&self, base: &TaxCalculationInput, scenario: &TaxCalculationInput) -> (r:
        ScenarioComparison)
        requires
            self.wf(),
            base.in_range(),
            scenario.in_range(),
        ensures
            comparison_spec(self.provider(), self.year, *base, *scenario, r),
    {
        let base_result = self.calculate(base);
        let scenario_result = self.calculate(scenario);
        proof {
            lemma_pow10_values();
            lemma_add_sub_exact(
                scenario_result.income.net,
                base_result.income.net,
                12,
                net_limit(),
                net_limit(),
            );
        }
        let net_diff = decimal_sub(scenario_result.income.net, base_result.income.net);
        proof {
            let p = pow10(28);
            assert(net_diff.value() * p == scenario_result.income.net.value() * p
                - base_result.income.net.value() * p) by (nonlinear_arith)
                requires
                    net_diff.value() == scenario_result.income.net.value()
                        - base_result.income.net.value(),
            ;
            lemma_bounded_weaken(net_diff, 12, 2 * net_limit(), 28, MANTISSA_BOUND - 2);
        }
        let monthly_diff = divide_by_whole(net_diff, 12);
        ScenarioComparison {
            base: base_result,
            scenario: scenario_result,
            net_difference: net_diff,
            monthly_difference: monthly_diff,
        }
    }
}

} // verus!
