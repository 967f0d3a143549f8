//! Deduction models.
use crate::decimal::{
    bounded, decimal_add, decimal_mul, is_amount, is_rate, lemma_add_sub_exact,
    lemma_bounded_weaken, lemma_mul_exact, lemma_pow10_values, lemma_product_bound, pow10, Dec,
    AMOUNT_LIMIT,
};
use vstd::prelude::*;

verus! {

/// Kinds of payroll deductions.
#[derive(Debug, Clone, Copy, PartialEq, Eq, Structural)]
pub enum DeductionType {
    HealthInsurance,
    DentalInsurance,
    VisionInsurance,
    Hsa,
    Fsa,
    Commuter,
    LifeInsurance,
    DisabilityInsurance,
    UnionDues,
    Traditional401k,
    Roth401k,
    Other,
}

impl DeductionType {
    pub fn display_name(&self) -> (r: &'static str) {
        match self {
            DeductionType::HealthInsurance => "Health Insurance",
            DeductionType::DentalInsurance => "Dental Insurance",
            DeductionType::VisionInsurance => "Vision Insurance",
            DeductionType::Hsa => "HSA Contribution",
            DeductionType::Fsa => "FSA Contribution",
            DeductionType::Commuter => "Commuter Benefits",
            DeductionType::LifeInsurance => "Life Insurance",
            DeductionType::DisabilityInsurance => "Disability Insurance",
            DeductionType::UnionDues => "Union Dues",
            DeductionType::Traditional401k => "Traditional 401(k)",
            DeductionType::Roth401k => "Roth 401(k)",
            DeductionType::Other => "Other",
        }
    }

    pub open spec fn is_pre_tax_spec(self) -> bool {
        matches!(
            self,
            DeductionType::HealthInsurance | DeductionType::DentalInsurance
                | DeductionType::VisionInsurance | DeductionType::Hsa | DeductionType::Fsa
                | DeductionType::Commuter | DeductionType::Traditional401k
        )
    }

    /// Whether this deduction is taken before tax by default.
    pub fn is_pre_tax(&self) -> (r: bool)
        ensures
            r == self.is_pre_tax_spec(),
    {
        matches!(
            self,
            DeductionType::HealthInsurance | DeductionType::DentalInsurance
                | DeductionType::VisionInsurance | DeductionType::Hsa | DeductionType::Fsa
                | DeductionType::Commuter | DeductionType::Traditional401k
        )
    }
}

/// How often a deduction is taken.
#[derive(Debug, Clone, Copy, PartialEq, Eq, Structural)]
pub enum DeductionFrequency {
    PerPaycheck,
    Monthly,
    Annual,
}

/// One deduction.
#[derive(Debug, Clone)]
pub struct Deduction {
    pub deduction_type: DeductionType,
    pub name: String,
    pub amount: Dec,
    pub frequency: DeductionFrequency,
    pub periods_per_year: u32,
    pub is_pre_tax: bool,
}

impl Deduction {
    pub fn new(
        deduction_type: DeductionType,
        amount: Dec,
        frequency: DeductionFrequency,
        periods_per_year: u32,
    ) -> (r: Deduction)
        ensures
            r.deduction_type == deduction_type,
            r.amount == amount,
            r.frequency == frequency,
            r.periods_per_year == periods_per_year,
            r.is_pre_tax == deduction_type.is_pre_tax_spec(),
    {
        Deduction {
            deduction_type,
            name: deduction_type.display_name().to_owned(),
            amount,
            frequency,
            periods_per_year,
            is_pre_tax: deduction_type.is_pre_tax(),
        }
    }

    /// Occurrences per year of the deduction's frequency.
    pub open spec fn times_per_year(&self) -> int {
        match self.frequency {
            DeductionFrequency::PerPaycheck => self.periods_per_year as int,
            DeductionFrequency::Monthly => 12,
            DeductionFrequency::Annual => 1,
        }
    }

    /// The deduction over a year.
    pub fn annual_amount(&self) -> (r: Dec)
        requires
            is_amount(self.amount),
        ensures
            r.value() == self.amount.value() * self.times_per_year(),
    {
        let ghost l = AMOUNT_LIMIT as int;
        proof {
            lemma_pow10_values();
        }
        let times = match self.frequency {
            DeductionFrequency::PerPaycheck => Dec::from_int(self.periods_per_year as i64),
            DeductionFrequency::Monthly => Dec::from_int(12),
            DeductionFrequency::Annual => {
                return self.amount;
            },
        };
        proof {
            assert(times.value() == self.times_per_year() * pow10(28));
            assert(bounded(times, 0, 4294967296));
            lemma_mul_exact(self.amount, times, 6, l, 0, 4294967296);
        }
        let r = decimal_mul(self.amount, times);
        proof {
            assert(r.value() * pow10(28) == (self.amount.value() * self.times_per_year()) * pow10(
                28,
            )) by (nonlinear_arith)
                requires
                    r.value() * pow10(28) == self.amount.value() * (self.times_per_year() * pow10(
                        28,
                    )),
            ;
            assert(r.value() == self.amount.value() * self.times_per_year()) by (nonlinear_arith)
                requires
                    r.value() * pow10(28) == (self.amount.value() * self.times_per_year()) * pow10(
                        28,
                    ),
                    pow10(28) > 0,
            ;
        }
        r
    }
}

/// Retirement contributions.
#[derive(Debug, Clone, Copy)]
pub struct RetirementContributions {
    pub traditional_401k: Dec,
    pub roth_401k: Dec,
    pub employer_match: Dec,
    pub match_percentage: Dec,
    pub vesting_percentage: Dec,
}

impl RetirementContributions {
    /// No contributions, fully vested.
    pub fn new() -> (r: RetirementContributions)
        ensures
            r.traditional_401k.value() == 0,
            r.roth_401k.value() == 0,
            r.employer_match.value() == 0,
            r.match_percentage.value() == 0,
            r.vesting_percentage.value() == pow10(28),
    {
        RetirementContributions {
            traditional_401k: Dec::zero(),
            roth_401k: Dec::zero(),
            employer_match: Dec::zero(),
            match_percentage: Dec::zero(),
            vesting_percentage: Dec::one(),
        }
    }

    /// Amounts in accepted ranges, vesting between 0 and 1.
    pub open spec fn in_range(&self) -> bool {
        &&& is_amount(self.traditional_401k)
        &&& is_amount(self.roth_401k)
        &&& is_amount(self.employer_match)
        &&& is_rate(self.vesting_percentage)
    }

    /// Traditional plus Roth contributions.
    pub fn total_employee_contributions(&self) -> (r: Dec)
        requires
            self.in_range(),
        ensures
            r.value() == self.traditional_401k.value() + self.roth_401k.value(),
            bounded(r, 6, 2 * AMOUNT_LIMIT),
    {
        proof {
            lemma_pow10_values();
            lemma_add_sub_exact(
                self.traditional_401k,
                self.roth_401k,
                6,
                AMOUNT_LIMIT as int,
                AMOUNT_LIMIT as int,
            );
        }
        decimal_add(self.traditional_401k, self.roth_401k)
    }

    /// Employee contributions plus the vested employer match.
    pub fn total_with_match(&self) -> (r: Dec)
        requires
            self.in_range(),
        ensures
            r.value() * pow10(28) == (self.traditional_401k.value() + self.roth_401k.value())
                * pow10(28) + self.employer_match.value() * self.vesting_percentage.value(),
    {
        let employee = self.total_employee_contributions();
        let vested = self.vested_employer_match();
        proof {
            lemma_pow10_values();
            lemma_bounded_weaken(employee, 6, 2 * AMOUNT_LIMIT, 12, 2 * AMOUNT_LIMIT);
            lemma_add_sub_exact(employee, vested, 12, 2 * AMOUNT_LIMIT, AMOUNT_LIMIT as int);
        }
        let r = decimal_add(employee, vested);
        proof {
            assert(r.value() * pow10(28) == employee.value() * pow10(28) + vested.value() * pow10(
                28,
            )) by (nonlinear_arith)
                requires
                    r.value() == employee.value() + vested.value(),
            ;
        }
        r
    }

    /// The employer match times the vested share.
    pub fn vested_employer_match(&self) -> (r: Dec)
        requires
            self.in_range(),
        ensures
            r.value() * pow10(28) == self.employer_match.value() * self.vesting_percentage.value(),
            bounded(r, 12, AMOUNT_LIMIT as int),
    {
        proof {
            lemma_pow10_values();
            lemma_mul_exact(self.employer_match, self.vesting_percentage, 6, AMOUNT_LIMIT as int, 6, 1);
        }
        let r = decimal_mul(self.employer_match, self.vesting_percentage);
        proof {
            lemma_product_bound(
                self.employer_match,
                self.vesting_percentage,
                r,
                AMOUNT_LIMIT as int,
                1,
            );
        }
        r
    }
}

impl Default for RetirementContributions {
    fn default() -> (r: RetirementContributions)
        ensures
            r.traditional_401k.value() == 0,
            r.roth_401k.value() == 0,
            r.employer_match.value() == 0,
            r.match_percentage.value() == 0,
            r.vesting_percentage.value() == 0,
    {
        RetirementContributions {
            traditional_401k: Dec::zero(),
            roth_401k: Dec::zero(),
            employer_match: Dec::zero(),
            match_percentage: Dec::zero(),
            vesting_percentage: Dec::zero(),
        }
    }
}

/// Totals of deductions.
#[derive(Debug, Clone, Copy)]
pub struct DeductionsSummary {
    pub pre_tax_total: Dec,
    pub post_tax_total: Dec,
    pub retirement: RetirementContributions,
}

impl DeductionsSummary {
    /// Pre-tax plus post-tax totals plus employee retirement contributions.
    pub fn total(&self) -> (r: Dec)
        requires
            is_amount(self.pre_tax_total),
            is_amount(self.post_tax_total),
            self.retirement.in_range(),
        ensures
            r.value() == self.pre_tax_total.value() + self.post_tax_total.value()
                + self.retirement.traditional_401k.value() + self.retirement.roth_401k.value(),
    {
        let l = AMOUNT_LIMIT;
        proof {
            lemma_pow10_values();
            lemma_add_sub_exact(self.pre_tax_total, self.post_tax_total, 6, l as int, l as int);
        }
        let partial = decimal_add(self.pre_tax_total, self.post_tax_total);
        let retirement = self.retirement.total_employee_contributions();
        proof {
            lemma_add_sub_exact(partial, retirement, 6, 2 * l, 2 * l);
        }
        decimal_add(partial, retirement)
    }
}

} // verus!
