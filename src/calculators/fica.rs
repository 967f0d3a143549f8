//! Payroll tax: capped base tax, uncapped supplemental tax and a surtax above a
//! filing-status threshold.
use crate::data::{FicaConfig, TaxDataProvider};
use crate::decimal::{
    bounded, decimal_add, decimal_mul, decimal_sub, is_amount, lemma_add_sub_exact,
    lemma_mul_exact, lemma_pow10_values, lemma_product_bound, pow10, Dec, AMOUNT_LIMIT,
};
use crate::models::tax::{FicaResult, FilingStatus};
use vstd::prelude::*;

verus! {

/// Income above which the surtax applies, in whole dollars.
pub open spec fn surtax_threshold(fs: FilingStatus) -> int {
    match fs {
        FilingStatus::Single | FilingStatus::HeadOfHousehold | FilingStatus::QualifyingWidower => 200000,
        FilingStatus::MarriedFilingJointly => 250000,
        FilingStatus::MarriedFilingSeparately => 125000,
    }
}

fn threshold_for(fs: FilingStatus) -> (r: Dec)
    ensures
        r.wf(),
        r.scale == 0,
        r.mantissa == surtax_threshold(fs),
{
    match fs {
        FilingStatus::Single | FilingStatus::HeadOfHousehold | FilingStatus::QualifyingWidower => {
            Dec::from_int(200000)
        },
        FilingStatus::MarriedFilingJointly => Dec::from_int(250000),
        FilingStatus::MarriedFilingSeparately => Dec::from_int(125000),
    }
}

/// Payroll-tax amounts (wide, units of 10^-56) for a configuration, a filing
/// status and a gross income.
pub open spec fn base_tax_wide(c: FicaConfig, gross: int) -> int {
    let taxable = if c.wage_base.value() < gross {
        c.wage_base.value()
    } else {
        gross
    };
    taxable * c.social_security_rate.value()
}

pub open spec fn supplemental_tax_wide(c: FicaConfig, gross: int) -> int {
    gross * c.medicare_rate.value()
}

pub open spec fn surtax_wide(c: FicaConfig, fs: FilingStatus, gross: int) -> int {
    let t = surtax_threshold(fs) * pow10(28);
    if gross > t {
        (gross - t) * c.additional_medicare_rate.value()
    } else {
        0
    }
}

/// The payroll-tax result for a configuration, filing status and gross income.
pub open spec fn fica_result_spec(r: FicaResult, c: FicaConfig, fs: FilingStatus, gross: int) -> bool {
    &&& r.social_security.value() * pow10(28) == base_tax_wide(c, gross)
    &&& r.social_security_wage_base == c.wage_base
    &&& r.medicare.value() * pow10(28) == supplemental_tax_wide(c, gross)
    &&& r.additional_medicare.value() * pow10(28) == surtax_wide(c, fs, gross)
    &&& r.total.value() == r.social_security.value() + r.medicare.value()
        + r.additional_medicare.value()
}

/// Payroll-tax calculator.
pub struct FicaCalculator<'a, P: TaxDataProvider> {
    pub data_provider: &'a P,
}

impl<'a, P: TaxDataProvider> FicaCalculator<'a, P> {
    pub fn new(data_provider: &'a P) -> (r: Self)
        ensures
            r.data_provider == data_provider,
    {
        FicaCalculator { data_provider }
    }

    /// Payroll taxes with the Single surtax threshold.
    pub fn calculate(&self, gross_income: Dec, year: u32) -> (r: FicaResult)
        requires
            is_amount(gross_income),
        ensures
            fica_result_spec(
                r,
                self.data_provider.fica_config_spec(year),
                FilingStatus::Single,
                gross_income.value(),
            ),
            bounded(r.total, 12, 4 * AMOUNT_LIMIT),
    {
        self.calculate_with_status(gross_income, FilingStatus::Single, year)
    }

    /// Payroll taxes with the surtax threshold of a filing status.
    pub fn calculate_with_status(&self, gross_income: Dec, filing_status: FilingStatus, year: u32) -> (r:
        FicaResult)
        requires
            is_amount(gross_income),
        ensures
            fica_result_spec(
                r,
                self.data_provider.fica_config_spec(year),
                filing_status,
                gross_income.value(),
            ),
            bounded(r.total, 12, 4 * AMOUNT_LIMIT),
            gross_income.value() == 0 ==> r.total.value() == 0,
    {
        let config = self.data_provider.fica_config(year);
        let ghost l = AMOUNT_LIMIT as int;
        proof {
            lemma_pow10_values();
        }
        let ss_taxable = gross_income.min(config.wage_base);
        proof {
            lemma_mul_exact(ss_taxable, config.social_security_rate, 6, l, 6, 1);
        }
        let social_security = decimal_mul(ss_taxable, config.social_security_rate);
        proof {
            lemma_product_bound(ss_taxable, config.social_security_rate, social_security, l, 1);
            lemma_mul_exact(gross_income, config.medicare_rate, 6, l, 6, 1);
        }
        let medicare = decimal_mul(gross_income, config.medicare_rate);
        proof {
            lemma_product_bound(gross_income, config.medicare_rate, medicare, l, 1);
        }
        let threshold = threshold_for(filing_status);
        assert(threshold.value() == surtax_threshold(filing_status) * pow10(28));
        let additional_medicare = if gross_income.gt(&threshold) {
            proof {
                lemma_add_sub_exact(gross_income, threshold, 6, l, l);
            }
            let excess = decimal_sub(gross_income, threshold);
            proof {
                lemma_mul_exact(excess, config.additional_medicare_rate, 6, 2 * l, 6, 1);
            }
            let surtax = decimal_mul(excess, config.additional_medicare_rate);
            proof {
                lemma_product_bound(excess, config.additional_medicare_rate, surtax, 2 * l, 1);
            }
            surtax
        } else {
            Dec::zero()
        };
        proof {
            lemma_add_sub_exact(social_security, medicare, 12, l, l);
        }
        let partial = decimal_add(social_security, medicare);
        proof {
            lemma_add_sub_exact(partial, additional_medicare, 12, 2 * l, 2 * l);
        }
        let total = decimal_add(partial, additional_medicare);
        proof {
            if gross_income.value() == 0 {
                let p = pow10(28);
                assert(ss_taxable.value() == 0);
                assert(social_security.value() * p == 0);
                assert(medicare.value() * p == 0);
                assert(social_security.value() == 0) by (nonlinear_arith)
                    requires
                        social_security.value() * p == 0,
                        p > 0,
                ;
                assert(medicare.value() == 0) by (nonlinear_arith)
                    requires
                        medicare.value() * p == 0,
                        p > 0,
                ;
            }
        }
        FicaResult {
            social_security,
            social_security_wage_base: config.wage_base,
            medicare,
            additional_medicare,
            total,
        }
    }
}

} // verus!
