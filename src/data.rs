//! Tax data: the provider interface and the configuration records it hands out.
pub mod embedded;

use crate::calculators::brackets::brackets_in_range;
use crate::decimal::{is_amount, is_rate, Dec};
use crate::models::state::USState;
use crate::models::tax::{FilingStatus, TaxBracket};
use vstd::prelude::*;

verus! {

/// A source of year-keyed tax tables. Calculators only read from it.
pub trait TaxDataProvider {
    spec fn federal_brackets_spec(&self, filing_status: FilingStatus, year: u32) -> Seq<
        TaxBracket,
    >;

    spec fn standard_deduction_spec(&self, filing_status: FilingStatus, year: u32) -> Dec;

    spec fn fica_config_spec(&self, year: u32) -> FicaConfig;

    spec fn state_config_spec(&self, state: USState, year: u32) -> StateConfig;

    /// Federal brackets for a filing status (empty when there are none).
    fn federal_brackets(&self, filing_status: FilingStatus, year: u32) -> (r: Vec<TaxBracket>)
        ensures
            r@ == self.federal_brackets_spec(filing_status, year),
            brackets_in_range(r@),
    ;

    /// Federal standard deduction for a filing status.
    fn standard_deduction(&self, filing_status: FilingStatus, year: u32) -> (r: Dec)
        ensures
            r == self.standard_deduction_spec(filing_status, year),
            is_amount(r),
            r.value() >= 0,
    ;

    /// Payroll-tax configuration.
    fn fica_config(&self, year: u32) -> (r: FicaConfig)
        ensures
            r == self.fica_config_spec(year),
            r.in_range(),
    ;

    /// Configuration of a jurisdiction.
    fn state_config(&self, state: USState, year: u32) -> (r: &StateConfig)
        ensures
            *r == self.state_config_spec(state, year),
            r.in_range(),
    ;
}

/// Payroll-tax configuration for a year.
#[derive(Debug, Clone, Copy)]
pub struct FicaConfig {
    pub social_security_rate: Dec,
    pub wage_base: Dec,
    pub medicare_rate: Dec,
    pub additional_medicare_rate: Dec,
}

impl FicaConfig {
    pub open spec fn in_range(self) -> bool {
        &&& is_rate(self.social_security_rate)
        &&& is_amount(self.wage_base)
        &&& self.wage_base.value() >= 0
        &&& is_rate(self.medicare_rate)
        &&& is_rate(self.additional_medicare_rate)
    }
}

/// How a jurisdiction taxes income.
#[derive(Debug, Clone, Copy, PartialEq, Eq, Structural)]
pub enum StateTaxType {
    NoTax,
    FlatRate,
    Progressive,
}

impl Default for StateTaxType {
    fn default() -> (r: StateTaxType)
        ensures
            r == StateTaxType::NoTax,
    {
        StateTaxType::NoTax
    }
}

/// Local income-tax information.
#[derive(Debug, Clone, Copy)]
pub struct LocalTaxInfo {
    pub has_local_tax: bool,
    pub average_rate: Option<Dec>,
}

/// The brackets of one filing status.
#[derive(Debug, Clone)]
pub struct FilingBrackets {
    pub filing_status: FilingStatus,
    pub brackets: Vec<TaxBracket>,
}

/// The standard deduction of one filing status.
#[derive(Debug, Clone, Copy)]
pub struct FilingDeduction {
    pub filing_status: FilingStatus,
    pub amount: Dec,
}

/// Configuration of a jurisdiction. Bracket and deduction tables are keyed by
/// filing status; the first entry for a status is the one that counts.
#[derive(Debug, Clone)]
pub struct StateConfig {
    pub state_code: String,
    pub tax_type: StateTaxType,
    pub flat_rate: Option<Dec>,
    pub brackets: Vec<FilingBrackets>,
    pub standard_deduction: Option<Vec<FilingDeduction>>,
    pub sdi_rate: Option<Dec>,
    pub sdi_wage_base: Option<Dec>,
    pub local_tax_info: Option<LocalTaxInfo>,
}

/// No two bracket entries share a filing status.
pub open spec fn distinct_filings(entries: Seq<FilingBrackets>) -> bool {
    forall|i: int, j: int|
        0 <= i < j < entries.len() ==> (#[trigger] entries[i]).filing_status != (#[trigger] entries[j]).filing_status
}

/// No two deduction entries share a filing status.
pub open spec fn distinct_deductions(entries: Seq<FilingDeduction>) -> bool {
    forall|i: int, j: int|
        0 <= i < j < entries.len() ==> (#[trigger] entries[i]).filing_status != (#[trigger] entries[j]).filing_status
}

/// Brackets of the first entry for `fs` at or after position `i`; empty if none.
pub open spec fn brackets_from(entries: Seq<FilingBrackets>, fs: FilingStatus, i: int) -> Seq<
    TaxBracket,
>
    decreases entries.len() - i,
{
    if i < 0 || i >= entries.len() {
        Seq::empty()
    } else if entries[i].filing_status == fs {
        entries[i].brackets@
    } else {
        brackets_from(entries, fs, i + 1)
    }
}

/// Amount of the first entry for `fs` at or after position `i`; zero if none.
pub open spec fn deduction_from(entries: Seq<FilingDeduction>, fs: FilingStatus, i: int) -> int
    decreases entries.len() - i,
{
    if i < 0 || i >= entries.len() {
        0
    } else if entries[i].filing_status == fs {
        entries[i].amount.value()
    } else {
        deduction_from(entries, fs, i + 1)
    }
}

impl StateConfig {
    /// Rates and amounts lie in the ranges the calculators accept, and each
    /// filing status has at most one entry per table.
    pub open spec fn in_range(&self) -> bool {
        &&& distinct_filings(self.brackets@)
        &&& (self.standard_deduction matches Some(d) ==> distinct_deductions(d@))
        &&& (self.flat_rate matches Some(r) ==> is_rate(r))
        &&& forall|i: int|
            0 <= i < self.brackets@.len() ==> brackets_in_range(
                (#[trigger] self.brackets@[i]).brackets@,
            )
        &&& (self.standard_deduction matches Some(d) ==> forall|i: int|
            0 <= i < d@.len() ==> is_amount((#[trigger] d@[i]).amount) && d@[i].amount.value()
                >= 0)
        &&& (self.sdi_rate matches Some(r) ==> is_rate(r))
        &&& (self.sdi_wage_base matches Some(w) ==> is_amount(w) && w.value() >= 0)
        &&& (self.local_tax_info matches Some(l) ==> (l.average_rate matches Some(r) ==> is_rate(
            r,
        )))
    }

    /// Brackets for a filing status; empty when the table has none.
    pub open spec fn brackets_for(&self, fs: FilingStatus) -> Seq<TaxBracket> {
        brackets_from(self.brackets@, fs, 0)
    }

    /// Standard deduction for a filing status; zero when there is none.
    pub open spec fn deduction_for(&self, fs: FilingStatus) -> int {
        match self.standard_deduction {
            Some(d) => deduction_from(d@, fs, 0),
            None => 0,
        }
    }

    /// The entry of the bracket table for a filing status, if any.
    pub fn find_brackets(&self, fs: FilingStatus) -> (r: Option<&Vec<TaxBracket>>)
        ensures
            r matches Some(v) ==> v@ == self.brackets_for(fs),
            r is None ==> self.brackets_for(fs) == Seq::<TaxBracket>::empty(),
            r matches Some(v) ==> exists|i: int|
                0 <= i < self.brackets@.len() && v == (#[trigger] self.brackets@[i]).brackets,
    {
        let mut i: usize = 0;
        while i < self.brackets.len()
            invariant
                i <= self.brackets@.len(),
                self.brackets_for(fs) == brackets_from(self.brackets@, fs, i as int),
            decreases self.brackets@.len() - i,
        {
            if self.brackets[i].filing_status == fs {
                return Some(&self.brackets[i].brackets);
            }
            i = i + 1;
        }
        None
    }

    /// The standard deduction for a filing status, if the table has one.
    pub fn find_deduction(&self, fs: FilingStatus) -> (r: Option<Dec>)
        ensures
            r matches Some(d) ==> d.value() == self.deduction_for(fs),
            r is None ==> self.deduction_for(fs) == 0,
            r matches Some(d) ==> (self.in_range() ==> is_amount(d) && d.value() >= 0),
    {
        match &self.standard_deduction {
            None => None,
            Some(entries) => {
                let mut i: usize = 0;
                while i < entries.len()
                    invariant
                        i <= entries@.len(),
                        self.standard_deduction == Some(*entries),
                        self.deduction_for(fs) == deduction_from(entries@, fs, i as int),
                    decreases entries@.len() - i,
                {
                    if entries[i].filing_status == fs {
                        return Some(entries[i].amount);
                    }
                    i = i + 1;
                }
                None
            },
        }
    }
}

} // verus!
