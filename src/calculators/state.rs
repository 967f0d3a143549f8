//! State (jurisdiction) income tax, disability insurance and local-tax estimate.
use crate::calculators::brackets::{
    bracket_amount, breakdown_paid, brackets_well_formed, closed_form,
    lemma_closed_form_equals_bracket_sum, brackets_in_range, breakdown_of, sum_form,
};
use crate::data::{StateConfig, StateTaxType, TaxDataProvider};
use crate::decimal::{
    bounded, decimal_add, decimal_div, decimal_mul, decimal_quotient, decimal_sub, is_amount,
    lemma_add_sub_exact, lemma_bounded_weaken, lemma_div_in_range, lemma_mul_exact,
    lemma_pow10_values, lemma_product_bound, lemma_value_sign, pow10, Dec, AMOUNT_LIMIT,
};
use crate::models::state::USState;
use crate::models::tax::{BracketAmount, FilingStatus, StateTaxResult, TaxBracket};
use vstd::prelude::*;

verus! {

/// Bound, in whole units, on a jurisdiction's total tax.
pub open spec fn state_tax_limit() -> int {
    200 * AMOUNT_LIMIT
}

/// Income after the jurisdiction's standard deduction, never negative.
pub open spec fn adjusted_income(c: StateConfig, fs: FilingStatus, x: int) -> int {
    let a = x - c.deduction_for(fs);
    if a <= 0 {
        0
    } else {
        a
    }
}

/// Progressive tax on the adjusted income (wide, units of 10^-56).
pub open spec fn progressive_tax_wide(c: StateConfig, fs: FilingStatus, x: int) -> int {
    let bs = c.brackets_for(fs);
    let a = adjusted_income(c, fs, x);
    if a > 0 {
        sum_form(bs, a, bs.len() as int)
    } else {
        0
    }
}

/// Income tax (wide) by the configuration's tax type: none, flat rate, or
/// progressive brackets after the standard deduction.
pub open spec fn income_tax_wide(c: StateConfig, state: USState, fs: FilingStatus, x: int) -> int {
    if c.tax_type == StateTaxType::NoTax {
        0
    } else if c.tax_type == StateTaxType::FlatRate {
        x * match c.flat_rate {
            Some(r) => r.value(),
            None => 0,
        }
    } else {
        progressive_tax_wide(c, fs, x)
    }
}

/// Disability-insurance tax (wide).
pub open spec fn sdi_wide(c: StateConfig, state: USState, x: int) -> int {
    if !state.has_sdi_spec() {
        0
    } else {
        let base = match c.sdi_wage_base {
            Some(w) => w.value(),
            None => x,
        };
        let taxable = if base < x {
            base
        } else {
            x
        };
        taxable * match c.sdi_rate {
            Some(r) => r.value(),
            None => 0,
        }
    }
}

/// Local-tax estimate (wide): income times the average local rate.
pub open spec fn local_tax_wide(c: StateConfig, state: USState, x: int) -> int {
    if !state.has_local_tax_spec() {
        0
    } else {
        match c.local_tax_info {
            Some(info) => match info.average_rate {
                Some(r) => x * r.value(),
                None => 0,
            },
            None => 0,
        }
    }
}

/// Whether the breakdown accompanies a progressive computation.
pub open spec fn has_breakdown(c: StateConfig, state: USState, fs: FilingStatus, x: int) -> bool {
    c.tax_type == StateTaxType::Progressive && adjusted_income(c, fs, x) > 0 && c.brackets_for(fs).len() > 0
}

/// What the state calculator returns for a configuration and taxable income.
pub open spec fn state_result_spec(
    r: StateTaxResult,
    c: StateConfig,
    state: USState,
    fs: FilingStatus,
    taxable_income: Dec,
) -> bool {
    let x = taxable_income.value();
    &&& r.state_code@ == state.code_spec()
    &&& r.taxable_income == taxable_income
    &&& if state.has_no_income_tax_spec() {
        &&& r.income_tax.value() == 0
        &&& r.local_tax.value() == 0
        &&& r.sdi.value() == 0
        &&& r.total_tax.value() == 0
        &&& r.effective_rate.value() == 0
        &&& r.bracket_breakdown is None
    } else {
        &&& r.income_tax.value() * pow10(28) == income_tax_wide(c, state, fs, x)
        &&& r.sdi.value() * pow10(28) == sdi_wide(c, state, x)
        &&& r.local_tax.value() * pow10(28) == local_tax_wide(c, state, x)
        &&& r.total_tax.value() == r.income_tax.value() + r.sdi.value() + r.local_tax.value()
        &&& if x > 0 {
            r.effective_rate@ == decimal_quotient(r.total_tax@, taxable_income@)
        } else {
            r.effective_rate.value() == 0
        }
        &&& (r.bracket_breakdown is Some) == has_breakdown(c, state, fs, x)
        &&& r.bracket_breakdown matches Some(bd) ==> {
            &&& breakdown_paid(bd@) * pow10(28) == income_tax_wide(c, state, fs, x)
            &&& breakdown_of(
                bd@,
                c.brackets_for(fs),
                adjusted_income(c, fs, x),
                c.brackets_for(fs).len() as int,
            )
        }
    }
}

/// A value whose wide form is zero is zero.
proof fn zero_from_wide(d: Dec)
    requires
        d.value() * pow10(28) == 0,
    ensures
        d.value() == 0,
{
    crate::decimal::lemma_pow10_positive(28);
    assert(d.value() == 0) by (nonlinear_arith)
        requires
            d.value() * pow10(28) == 0,
            pow10(28) > 0,
    ;
}

/// State income-tax calculator.
pub struct StateTaxCalculator<'a, P: TaxDataProvider> {
    pub data_provider: &'a P,
}

impl<'a, P: TaxDataProvider> StateTaxCalculator<'a, P> {
    pub fn new(data_provider: &'a P) -> (r: Self)
        ensures
            r.data_provider == data_provider,
    {
        StateTaxCalculator { data_provider }
    }

    /// Jurisdiction tax on a taxable income: income tax by the jurisdiction's
    /// kind, disability insurance, local-tax estimate, their total and the
    /// effective rate.
    pub fn calculate(
        &self,
        taxable_income: Dec,
        state: USState,
        filing_status: FilingStatus,
        year: u32,
    ) -> (r: StateTaxResult)
        requires
            is_amount(taxable_income),
        ensures
            state_result_spec(
                r,
                self.data_provider.state_config_spec(state, year),
                state,
                filing_status,
                taxable_income,
            ),
            bounded(r.total_tax, 12, state_tax_limit()),
            taxable_income.value() == 0 ==> r.total_tax.value() == 0,
    {
        let ghost l = AMOUNT_LIMIT as int;
        proof {
            lemma_pow10_values();
        }
        if state.has_no_income_tax() {
            return StateTaxResult {
                state_code: state.code().to_owned(),
                taxable_income,
                income_tax: Dec::zero(),
                local_tax: Dec::zero(),
                sdi: Dec::zero(),
                total_tax: Dec::zero(),
                effective_rate: Dec::zero(),
                bracket_breakdown: None,
            };
        }
        let config = self.data_provider.state_config(state, year);
        let income_tax;
        let breakdown;
        if config.tax_type == StateTaxType::NoTax {
            proof {
                lemma_bounded_weaken(Dec { mantissa: 0, scale: 0 }, 12, 0, 12, 192 * l);
            }
            income_tax = Dec::zero();
            breakdown = None;
        } else if config.tax_type == StateTaxType::FlatRate {
            let rate = match config.flat_rate {
                Some(r) => r,
                None => Dec::zero(),
            };
            proof {
                lemma_mul_exact(taxable_income, rate, 6, l, 6, 1);
            }
            let tax = decimal_mul(taxable_income, rate);
            proof {
                if taxable_income.value() == 0 {
                    zero_from_wide(tax);
                }
                lemma_product_bound(taxable_income, rate, tax, l, 1);
                lemma_bounded_weaken(tax, 12, l, 12, 192 * l);
            }
            income_tax = tax;
            breakdown = None;
        } else {
            let empty: Vec<TaxBracket> = Vec::new();
            let brackets = match config.find_brackets(filing_status) {
                Some(v) => v,
                None => &empty,
            };
            let std_deduction = match config.find_deduction(filing_status) {
                Some(d) => d,
                None => Dec::zero(),
            };
            proof {
                lemma_add_sub_exact(taxable_income, std_deduction, 6, l, l);
            }
            let reduced = decimal_sub(taxable_income, std_deduction);
            let adjusted = reduced.max(Dec::zero());
            let (tax, bd) = self.calculate_progressive(adjusted, brackets);
            proof {
                if taxable_income.value() == 0 {
                    assert(adjusted.value() == 0);
                    zero_from_wide(tax);
                }
            }
            income_tax = tax;
            breakdown = bd;
        }
        let sdi = self.calculate_sdi(taxable_income, state, config);
        let local_tax = self.estimate_local_tax(taxable_income, state, config);
        proof {
            lemma_add_sub_exact(income_tax, sdi, 12, 192 * l, l);
        }
        let partial = decimal_add(income_tax, sdi);
        proof {
            lemma_add_sub_exact(partial, local_tax, 12, 193 * l, l);
            lemma_value_sign(taxable_income);
        }
        let total_tax = decimal_add(partial, local_tax);
        let effective_rate = if taxable_income.is_positive() {
            proof {
                lemma_bounded_weaken(total_tax, 12, 194 * l, 28, 194 * l);
                lemma_div_in_range(total_tax, 194 * l, taxable_income);
            }
            decimal_div(total_tax, taxable_income)
        } else {
            Dec::zero()
        };
        proof {
            lemma_bounded_weaken(total_tax, 12, 194 * l, 12, state_tax_limit());
        }
        StateTaxResult {
            state_code: state.code().to_owned(),
            taxable_income,
            income_tax,
            local_tax,
            sdi,
            total_tax,
            effective_rate,
            bracket_breakdown: breakdown,
        }
    }

    /// Progressive tax: the sum of the per-bracket taxes, with the breakdown;
    /// zero and no breakdown for a non-positive income or an empty table.
    fn calculate_progressive(&self, taxable_income: Dec, brackets: &Vec<TaxBracket>) -> (r: (
        Dec,
        Option<Vec<BracketAmount>>,
    ))
        requires
            bounded(taxable_income, 6, 2 * AMOUNT_LIMIT),
            brackets_in_range(brackets@),
        ensures
            r.0.value() * pow10(28) == if taxable_income.value() > 0 {
                sum_form(brackets@, taxable_income.value(), brackets@.len() as int)
            } else {
                0
            },
            bounded(r.0, 12, 192 * AMOUNT_LIMIT),
            (r.1 is Some) == (taxable_income.value() > 0 && brackets@.len() > 0),
            brackets_well_formed(brackets@) && taxable_income.value() > 0 ==> r.0.value() * pow10(
                28,
            ) == closed_form(brackets@, taxable_income.value()),
            r.1 matches Some(bd) ==> {
                &&& breakdown_paid(bd@) * pow10(28) == sum_form(
                    brackets@,
                    taxable_income.value(),
                    brackets@.len() as int,
                )
                &&& breakdown_of(
                    bd@,
                    brackets@,
                    taxable_income.value(),
                    brackets@.len() as int,
                )
            },
    {
        let ghost l = AMOUNT_LIMIT as int;
        let ghost bs = brackets@;
        let ghost x = taxable_income.value();
        proof {
            lemma_pow10_values();
            lemma_value_sign(taxable_income);
        }
        if !taxable_income.is_positive() || brackets.len() == 0 {
            proof {
                if x > 0 {
                    assert(sum_form(bs, x, 0) == 0);
                }
            }
            return (Dec::zero(), None);
        }
        let mut total_tax = Dec::zero();
        let mut breakdown: Vec<BracketAmount> = Vec::new();
        let mut i: usize = 0;
        while i < brackets.len()
            invariant
                i <= bs.len(),
                bs == brackets@,
                brackets_in_range(bs),
                bounded(taxable_income, 6, 2 * AMOUNT_LIMIT),
                x == taxable_income.value(),
                l == AMOUNT_LIMIT,
                pow10(12) == 1000000000000,
                total_tax.value() * pow10(28) == sum_form(bs, x, i as int),
                bounded(total_tax, 12, 3 * l * i),
                breakdown_paid(breakdown@) == total_tax.value(),
                breakdown_of(breakdown@, bs, x, i as int),
            decreases bs.len() - i,
        {
            let b = brackets[i];
            assert(b.in_range());
            match bracket_amount(&b, taxable_income) {
                Some(a) => {
                    proof {
                        assert((3 * l * i + 3 * l) * pow10(12) <= crate::decimal::MANTISSA_BOUND
                            - 2) by (nonlinear_arith)
                            requires
                                i < 64,
                                l == 10000000000000,
                                pow10(12) == 1000000000000,
                        ;
                        lemma_add_sub_exact(total_tax, a.tax_paid, 12, 3 * l * i, 3 * l);
                    }
                    let ghost before = breakdown@;
                    let ghost old_total = total_tax;
                    total_tax = decimal_add(total_tax, a.tax_paid);
                    breakdown.push(a);
                    proof {
                        assert(breakdown@.drop_last() =~= before);
                        assert(breakdown@.last() == a);
                        assert(total_tax.value() * pow10(28) == old_total.value() * pow10(28)
                            + a.tax_paid.value() * pow10(28)) by (nonlinear_arith)
                            requires
                                total_tax.value() == old_total.value() + a.tax_paid.value(),
                        ;
                        assert(3 * l * i + 3 * l == 3 * l * (i + 1)) by (nonlinear_arith);
                        assert(3 * l * i * pow10(28) + 3 * l * pow10(28) == 3 * l * (i + 1)
                            * pow10(28)) by (nonlinear_arith);
                    }
                },
                None => {
                    proof {
                        assert(3 * l * i <= 3 * l * (i + 1)) by (nonlinear_arith)
                            requires
                                l > 0,
                        ;
                        lemma_bounded_weaken(total_tax, 12, 3 * l * i, 12, 3 * l * (i + 1));
                    }
                },
            }
            i = i + 1;
        }
        proof {
            assert(3 * l * i <= 192 * l) by (nonlinear_arith)
                requires
                    i <= 64,
                    l > 0,
            ;
            lemma_bounded_weaken(total_tax, 12, 3 * l * i, 12, 192 * l);
        }
        proof {
            if brackets_well_formed(bs) {
                lemma_closed_form_equals_bracket_sum(bs, x);
            }
        }
        (total_tax, Some(breakdown))
    }

    /// Disability-insurance tax: income up to the wage base (all of it when there
    /// is none) times the rate; zero where the jurisdiction has none.
    fn calculate_sdi(&self, income: Dec, state: USState, config: &StateConfig) -> (r: Dec)
        requires
            is_amount(income),
            config.in_range(),
        ensures
            r.value() * pow10(28) == sdi_wide(*config, state, income.value()),
            bounded(r, 12, AMOUNT_LIMIT as int),
            income.value() == 0 ==> r.value() == 0,
    {
        let ghost l = AMOUNT_LIMIT as int;
        proof {
            lemma_pow10_values();
        }
        if !state.has_sdi() {
            return Dec::zero();
        }
        let rate = match config.sdi_rate {
            Some(r) => r,
            None => Dec::zero(),
        };
        let wage_base = match config.sdi_wage_base {
            Some(w) => w,
            None => income,
        };
        let taxable = income.min(wage_base);
        proof {
            lemma_mul_exact(taxable, rate, 6, l, 6, 1);
        }
        let r = decimal_mul(taxable, rate);
        proof {
            lemma_product_bound(taxable, rate, r, l, 1);
            if income.value() == 0 {
                assert(taxable.value() == 0);
                zero_from_wide(r);
            }
        }
        r
    }

    /// Local-tax estimate: income times the average local rate, where the
    /// jurisdiction has local taxes and an average rate is known.
    fn estimate_local_tax(&self, income: Dec, state: USState, config: &StateConfig) -> (r: Dec)
        requires
            is_amount(income),
            config.in_range(),
        ensures
            r.value() * pow10(28) == local_tax_wide(*config, state, income.value()),
            bounded(r, 12, AMOUNT_LIMIT as int),
            income.value() == 0 ==> r.value() == 0,
    {
        let ghost l = AMOUNT_LIMIT as int;
        proof {
            lemma_pow10_values();
        }
        if !state.has_local_tax() {
            return Dec::zero();
        }
        let rate = match config.local_tax_info {
            Some(info) => match info.average_rate {
                Some(r) => r,
                None => {
                    return Dec::zero();
                },
            },
            None => {
                return Dec::zero();
            },
        };
        proof {
            lemma_mul_exact(income, rate, 6, l, 6, 1);
        }
        let r = decimal_mul(income, rate);
        proof {
            lemma_product_bound(income, rate, r, l, 1);
            if income.value() == 0 {
                zero_from_wide(r);
            }
        }
        r
    }
}

} // verus!
