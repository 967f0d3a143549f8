//! Tax-related models: filing status, brackets and calculation results.
use crate::decimal::{decimal_mul, decimal_product, in_range, is_amount, is_rate, pow10, Dec};
use vstd::prelude::*;

verus! {

/// Filing status of a tax return.
#[derive(Debug, Clone, Copy, PartialEq, Eq, Structural, Hash)]
pub enum FilingStatus {
    Single,
    MarriedFilingJointly,
    MarriedFilingSeparately,
    HeadOfHousehold,
    QualifyingWidower,
}

impl Default for FilingStatus {
    fn default() -> (r: FilingStatus)
        ensures
            r == FilingStatus::Single,
    {
        FilingStatus::Single
    }
}

impl FilingStatus {
    /// Identifier of the status.
    pub open spec fn as_str_spec(self) -> Seq<char> {
        match self {
            FilingStatus::Single => "single"@,
            FilingStatus::MarriedFilingJointly => "married_filing_jointly"@,
            FilingStatus::MarriedFilingSeparately => "married_filing_separately"@,
            FilingStatus::HeadOfHousehold => "head_of_household"@,
            FilingStatus::QualifyingWidower => "qualifying_widower"@,
        }
    }

    pub fn as_str(&self) -> (r: &'static str)
        ensures
            r@ == self.as_str_spec(),
    {
        match self {
            FilingStatus::Single => "single",
            FilingStatus::MarriedFilingJointly => "married_filing_jointly",
            FilingStatus::MarriedFilingSeparately => "married_filing_separately",
            FilingStatus::HeadOfHousehold => "head_of_household",
            FilingStatus::QualifyingWidower => "qualifying_widower",
        }
    }

    pub fn display_name(&self) -> (r: &'static str) {
        match self {
            FilingStatus::Single => "Single",
            FilingStatus::MarriedFilingJointly => "Married Filing Jointly",
            FilingStatus::MarriedFilingSeparately => "Married Filing Separately",
            FilingStatus::HeadOfHousehold => "Head of Household",
            FilingStatus::QualifyingWidower => "Qualifying Widow(er)",
        }
    }

    pub fn short_name(&self) -> (r: &'static str) {
        match self {
            FilingStatus::Single => "Single",
            FilingStatus::MarriedFilingJointly => "MFJ",
            FilingStatus::MarriedFilingSeparately => "MFS",
            FilingStatus::HeadOfHousehold => "HoH",
            FilingStatus::QualifyingWidower => "QW",
        }
    }
}

/// A marginal-rate tier: income above `floor` (up to `ceiling`, if any) is taxed
/// at `rate`; `base_tax` is the tax owed on all income up to `floor`.
#[derive(Debug, Clone, Copy, PartialEq)]
pub struct TaxBracket {
    pub floor: Dec,
    pub ceiling: Option<Dec>,
    pub rate: Dec,
    pub base_tax: Dec,
}

impl TaxBracket {
    /// Amounts and rate lie in the ranges the calculators accept.
    pub open spec fn in_range(self) -> bool {
        &&& is_amount(self.floor)
        &&& is_amount(self.base_tax)
        &&& is_rate(self.rate)
        &&& (self.ceiling matches Some(c) ==> is_amount(c))
    }

    /// Tax on `x` by this bracket's formula, in units of 10^-56.
    pub open spec fn formula_wide(self, x: int) -> int {
        self.base_tax.value() * pow10(28) + (x - self.floor.value()) * self.rate.value()
    }

    pub fn new(floor: Dec, ceiling: Option<Dec>, rate: Dec, base_tax: Dec) -> (r: TaxBracket)
        ensures
            r == (TaxBracket { floor, ceiling, rate, base_tax }),
    {
        TaxBracket { floor, ceiling, rate, base_tax }
    }

    /// Tax by the base-tax formula: `base_tax + (income - floor) * rate`, or zero
    /// when the income does not exceed the floor.
    pub fn calculate(&self, taxable_income: Dec) -> (r: Dec)
        requires
            self.in_range(),
            is_amount(taxable_income),
        ensures
            r.wf(),
            taxable_income.value() <= self.floor.value() ==> r.value() == 0,
            taxable_income.value() > self.floor.value() ==> r.value() * pow10(28)
                == self.formula_wide(taxable_income.value()),
    {
        if taxable_income.le(&self.floor) {
            return Dec::zero();
        }
        crate::calculators::brackets::base_tax_formula(self, taxable_income)
    }

    /// Whether the income falls within this bracket: at least the floor and below
    /// the ceiling, if there is one.
    pub fn contains(&self, income: Dec) -> (r: bool)
        requires
            self.floor.wf(),
            income.wf(),
            self.ceiling matches Some(c) ==> c.wf(),
        ensures
            r == (income.value() >= self.floor.value() && match self.ceiling {
                Some(c) => income.value() < c.value(),
                None => true,
            }),
    {
        if !self.floor.le(&income) {
            return false;
        }
        match self.ceiling {
            Some(c) => income.lt(&c),
            None => true,
        }
    }
}

/// Amount taxed and paid within one bracket.
#[derive(Debug, Clone, Copy, PartialEq)]
pub struct BracketAmount {
    pub floor: Dec,
    pub ceiling: Option<Dec>,
    pub rate: Dec,
    pub taxable_in_bracket: Dec,
    pub tax_paid: Dec,
}

/// Federal income tax result.
#[derive(Debug, Clone)]
pub struct FederalTaxResult {
    pub taxable_income: Dec,
    pub tax: Dec,
    pub marginal_rate: Dec,
    pub effective_rate: Dec,
    pub bracket_breakdown: Vec<BracketAmount>,
}

impl Default for FederalTaxResult {
    fn default() -> (r: FederalTaxResult)
        ensures
            r.taxable_income.value() == 0,
            r.tax.value() == 0,
            r.marginal_rate.value() == 0,
            r.effective_rate.value() == 0,
            r.bracket_breakdown@.len() == 0,
    {
        FederalTaxResult {
            taxable_income: Dec::zero(),
            tax: Dec::zero(),
            marginal_rate: Dec::zero(),
            effective_rate: Dec::zero(),
            bracket_breakdown: Vec::new(),
        }
    }
}

/// Payroll tax result: capped base tax, uncapped supplemental tax, surtax.
#[derive(Debug, Clone, Copy)]
pub struct FicaResult {
    pub social_security: Dec,
    pub social_security_wage_base: Dec,
    pub medicare: Dec,
    pub additional_medicare: Dec,
    pub total: Dec,
}

impl Default for FicaResult {
    fn default() -> (r: FicaResult)
        ensures
            r.social_security.value() == 0,
            r.social_security_wage_base.value() == 0,
            r.medicare.value() == 0,
            r.additional_medicare.value() == 0,
            r.total.value() == 0,
    {
        FicaResult {
            social_security: Dec::zero(),
            social_security_wage_base: Dec::zero(),
            medicare: Dec::zero(),
            additional_medicare: Dec::zero(),
            total: Dec::zero(),
        }
    }
}

/// State (jurisdiction) tax result.
#[derive(Debug, Clone)]
pub struct StateTaxResult {
    pub state_code: String,
    pub taxable_income: Dec,
    pub income_tax: Dec,
    pub local_tax: Dec,
    pub sdi: Dec,
    pub total_tax: Dec,
    pub effective_rate: Dec,
    pub bracket_breakdown: Option<Vec<BracketAmount>>,
}

impl Default for StateTaxResult {
    fn default() -> (r: StateTaxResult)
        ensures
            r.state_code@.len() == 0,
            r.taxable_income.value() == 0,
            r.income_tax.value() == 0,
            r.local_tax.value() == 0,
            r.sdi.value() == 0,
            r.total_tax.value() == 0,
            r.effective_rate.value() == 0,
            r.bracket_breakdown is None,
    {
        StateTaxResult {
            state_code: String::new(),
            taxable_income: Dec::zero(),
            income_tax: Dec::zero(),
            local_tax: Dec::zero(),
            sdi: Dec::zero(),
            total_tax: Dec::zero(),
            effective_rate: Dec::zero(),
            bracket_breakdown: None,
        }
    }
}

/// Complete tax breakdown.
#[derive(Debug, Clone)]
pub struct TaxBreakdown {
    pub federal: FederalTaxResult,
    pub state: StateTaxResult,
    pub fica: FicaResult,
    pub total_taxes: Dec,
    pub effective_rate: Dec,
}

impl Default for TaxBreakdown {
    fn default() -> (r: TaxBreakdown)
        ensures
            r.federal.tax.value() == 0,
            r.state.total_tax.value() == 0,
            r.fica.total.value() == 0,
            r.total_taxes.value() == 0,
            r.effective_rate.value() == 0,
    {
        TaxBreakdown {
            federal: FederalTaxResult::default(),
            state: StateTaxResult::default(),
            fica: FicaResult::default(),
            total_taxes: Dec::zero(),
            effective_rate: Dec::zero(),
        }
    }
}

/// Effective rates: each tax divided by gross income.
#[derive(Debug, Clone, Copy)]
pub struct EffectiveRates {
    pub federal: Dec,
    pub state: Dec,
    pub fica: Dec,
    pub total: Dec,
}

/// `rate * 100`, as rust_decimal computes it.
fn percent_of(rate: Dec) -> (r: Dec)
    requires
        rate.wf(),
        in_range(rate.value() * 100),
    ensures
        r.wf(),
        r@ == decimal_product(rate@, (100int, 0nat)),
{
    proof {
        crate::decimal::lemma_pow10_28();
        assert(crate::decimal::abs(rate.value() * (100 * pow10(28))) == crate::decimal::abs(
            rate.value() * 100,
        ) * pow10(28)) by (nonlinear_arith)
            requires
                pow10(28) > 0,
        ;
        assert(crate::decimal::abs(rate.value() * 100) * pow10(28) <= (
        crate::decimal::MANTISSA_BOUND - 2) * pow10(28) * pow10(28)) by (nonlinear_arith)
            requires
                crate::decimal::abs(rate.value() * 100) <= (crate::decimal::MANTISSA_BOUND - 2)
                    * pow10(28),
                pow10(28) > 0,
        ;
    }
    decimal_mul(rate, Dec::from_int(100))
}

impl EffectiveRates {
    pub fn federal_percent(&self) -> (r: Dec)
        requires
            self.federal.wf(),
            in_range(self.federal.value() * 100),
        ensures
            r.wf(),
            r@ == decimal_product(self.federal@, (100int, 0nat)),
    {
        percent_of(self.federal)
    }

    pub fn state_percent(&self) -> (r: Dec)
        requires
            self.state.wf(),
            in_range(self.state.value() * 100),
        ensures
            r.wf(),
            r@ == decimal_product(self.state@, (100int, 0nat)),
    {
        percent_of(self.state)
    }

    pub fn fica_percent(&self) -> (r: Dec)
        requires
            self.fica.wf(),
            in_range(self.fica.value() * 100),
        ensures
            r.wf(),
            r@ == decimal_product(self.fica@, (100int, 0nat)),
    {
        percent_of(self.fica)
    }

    pub fn total_percent(&self) -> (r: Dec)
        requires
            self.total.wf(),
            in_range(self.total.value() * 100),
        ensures
            r.wf(),
            r@ == decimal_product(self.total@, (100int, 0nat)),
    {
        percent_of(self.total)
    }
}

impl Default for EffectiveRates {
    fn default() -> (r: EffectiveRates)
        ensures
            r.federal.value() == 0,
            r.state.value() == 0,
            r.fica.value() == 0,
            r.total.value() == 0,
    {
        EffectiveRates {
            federal: Dec::zero(),
            state: Dec::zero(),
            fica: Dec::zero(),
            total: Dec::zero(),
        }
    }
}

} // verus!
