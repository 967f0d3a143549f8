//! Federal income tax.
use crate::calculators::brackets::{
    bracket_amount, breakdown_paid, tax_on, brackets_in_range, brackets_well_formed,
    lemma_closed_form_equals_bracket_sum, calculate_with_base_tax, closed_form,
    breakdown_of, bracket_index, lemma_marginal_is_containing, marginal_upto, sum_form,
};
use crate::data::TaxDataProvider;
use crate::decimal::{
    bounded, decimal_div, decimal_quotient, is_amount, lemma_div_in_range, lemma_pow10_values,
    lemma_value_sign, pow10, Dec, AMOUNT_LIMIT,
};
use crate::models::tax::{BracketAmount, FederalTaxResult, FilingStatus};
use vstd::prelude::*;

verus! {

/// Marginal rate reported when no bracket lies below the income: 10%.
pub open spec fn default_marginal_rate() -> Dec {
    Dec { mantissa: 10, scale: 2 }
}

fn default_marginal() -> (r: Dec)
    ensures
        r == default_marginal_rate(),
{
    Dec::new(10, 2)
}

/// What the federal calculator returns for a bracket table and a taxable income.
pub open spec fn federal_result_spec(
    r: FederalTaxResult,
    bs: Seq<crate::models::tax::TaxBracket>,
    taxable_income: Dec,
) -> bool {
    let x = taxable_income.value();
    if x <= 0 || bs.len() == 0 {
        &&& r.taxable_income.value() == 0
        &&& r.tax.value() == 0
        &&& r.effective_rate.value() == 0
        &&& r.bracket_breakdown@.len() == 0
        &&& r.marginal_rate == if bs.len() > 0 {
            bs[0].rate
        } else {
            default_marginal_rate()
        }
    } else {
        &&& r.taxable_income == taxable_income
        &&& r.tax.value() * pow10(28) == closed_form(bs, x)
        &&& r.marginal_rate == marginal_upto(bs, x, bs.len() as int, default_marginal_rate())
        &&& x >= bs[0].floor.value() ==> r.marginal_rate == bs[bracket_index(
            bs,
            x,
            bs.len() as int,
        )].rate
        &&& r.effective_rate@ == decimal_quotient(r.tax@, taxable_income@)
        &&& breakdown_paid(r.bracket_breakdown@) * pow10(28) == sum_form(bs, x, bs.len() as int)
        &&& breakdown_of(r.bracket_breakdown@, bs, x, bs.len() as int)
    }
}

/// Federal income-tax calculator.
pub struct FederalTaxCalculator<'a, P: TaxDataProvider> {
    pub data_provider: &'a P,
}

impl<'a, P: TaxDataProvider> FederalTaxCalculator<'a, P> {
    pub fn new(data_provider: &'a P) -> (r: Self)
        ensures
            r.data_provider == data_provider,
    {
        FederalTaxCalculator { data_provider }
    }

    /// Federal income tax on a taxable income: the closed-form total, the
    /// per-bracket breakdown, the marginal and the effective rate.
    pub fn calculate(&self, taxable_income: Dec, filing_status: FilingStatus, year: u32) -> (r:
        FederalTaxResult)
        requires
            bounded(taxable_income, 6, 2 * AMOUNT_LIMIT),
        ensures
            federal_result_spec(
                r,
                self.data_provider.federal_brackets_spec(filing_status, year),
                taxable_income,
            ),
            bounded(r.tax, 12, 4 * AMOUNT_LIMIT),
            r.tax.wf(),
            r.marginal_rate.wf(),
            brackets_well_formed(self.data_provider.federal_brackets_spec(filing_status, year))
                ==> r.tax.value() == breakdown_paid(r.bracket_breakdown@),
    {
        let brackets = self.data_provider.federal_brackets(filing_status, year);
        let ghost bs = brackets@;
        proof {
            lemma_value_sign(taxable_income);
            lemma_pow10_values();
        }
        if !taxable_income.is_positive() || brackets.len() == 0 {
            let marginal_rate = if brackets.len() > 0 {
                brackets[0].rate
            } else {
                default_marginal()
            };
            return FederalTaxResult {
                taxable_income: Dec::zero(),
                tax: Dec::zero(),
                marginal_rate,
                effective_rate: Dec::zero(),
                bracket_breakdown: Vec::new(),
            };
        }
        let ghost x = taxable_income.value();
        let mut breakdown: Vec<BracketAmount> = Vec::new();
        let mut marginal_rate = default_marginal();
        let mut i: usize = 0;
        while i < brackets.len()
            invariant
                i <= bs.len(),
                bs == brackets@,
                brackets_in_range(bs),
                bounded(taxable_income, 6, 2 * AMOUNT_LIMIT),
                x == taxable_income.value(),
                marginal_rate == marginal_upto(bs, x, i as int, default_marginal_rate()),
                marginal_rate.wf(),
                breakdown_paid(breakdown@) * pow10(28) == sum_form(bs, x, i as int),
                breakdown_of(breakdown@, bs, x, i as int),
            decreases bs.len() - i,
        {
            let b = brackets[i];
            assert(b.in_range());
            if b.floor.le(&taxable_income) {
                marginal_rate = b.rate;
            }
            match bracket_amount(&b, taxable_income) {
                Some(a) => {
                    let ghost before = breakdown@;
                    breakdown.push(a);
                    proof {
                        assert(breakdown@.drop_last() =~= before);
                        assert(breakdown@.last() == a);
                        assert(breakdown_paid(breakdown@) == breakdown_paid(before)
                            + a.tax_paid.value());
                        assert(breakdown_paid(breakdown@) * pow10(28) == breakdown_paid(before)
                            * pow10(28) + a.tax_paid.value() * pow10(28)) by (nonlinear_arith)
                            requires
                                breakdown_paid(breakdown@) == breakdown_paid(before)
                                    + a.tax_paid.value(),
                        ;
                    }
                },
                None => {},
            }
            i = i + 1;
        }
        let tax = calculate_with_base_tax(taxable_income, &brackets);
        proof {
            lemma_div_in_range(tax, 4 * AMOUNT_LIMIT, taxable_income);
        }
        let effective_rate = decimal_div(tax, taxable_income);
        proof {
            if x >= bs[0].floor.value() {
                lemma_marginal_is_containing(bs, x, bs.len() as int, default_marginal_rate());
            }
            if brackets_well_formed(bs) {
                lemma_closed_form_equals_bracket_sum(bs, x);
                let p = pow10(28);
                assert(tax.value() == breakdown_paid(breakdown@)) by (nonlinear_arith)
                    requires
                        tax.value() * p == breakdown_paid(breakdown@) * p,
                        p > 0,
                ;
            }
        }
        FederalTaxResult {
            taxable_income,
            tax,
            marginal_rate,
            effective_rate,
            bracket_breakdown: breakdown,
        }
    }

    /// Federal standard deduction for a filing status.
    pub fn standard_deduction(&self, filing_status: FilingStatus, year: u32) -> (r: Dec)
        ensures
            r == self.data_provider.standard_deduction_spec(filing_status, year),
            is_amount(r),
            r.value() >= 0,
    {
        self.data_provider.standard_deduction(filing_status, year)
    }
}

} // verus!

verus! {

/// For a well-formed table with non-negative rates, the federal calculator's
/// tax is non-decreasing in the taxable income.
pub proof fn lemma_federal_tax_monotone(
    bs: Seq<crate::models::tax::TaxBracket>,
    x1: Dec,
    r1: FederalTaxResult,
    x2: Dec,
    r2: FederalTaxResult,
)
    requires
        brackets_well_formed(bs),
        forall|i: int| 0 <= i < bs.len() ==> (#[trigger] bs[i]).rate.value() >= 0,
        federal_result_spec(r1, bs, x1),
        federal_result_spec(r2, bs, x2),
        x1.value() <= x2.value(),
    ensures
        r1.tax.value() <= r2.tax.value(),
{
    crate::calculators::brackets::lemma_tax_monotone(bs, x1.value(), x2.value());
    let p = pow10(28);
    crate::decimal::lemma_pow10_positive(28);
    assert(r1.tax.value() * p == tax_on(bs, x1.value()));
    assert(r2.tax.value() * p == tax_on(bs, x2.value()));
    assert(r1.tax.value() <= r2.tax.value()) by (nonlinear_arith)
        requires
            r1.tax.value() * p <= r2.tax.value() * p,
            p > 0,
    ;
}

} // verus!
