//! Embedded tax data for 2024.
use crate::calculators::brackets::{brackets_in_range, brackets_well_formed, MAX_BRACKETS};
use crate::data::{
    brackets_from, deduction_from, distinct_deductions, distinct_filings, FicaConfig, FilingBrackets, FilingDeduction, LocalTaxInfo, StateConfig,
    StateTaxType, TaxDataProvider,
};
use crate::decimal::{is_amount, is_rate, pow10, Dec, AMOUNT_LIMIT};
use crate::models::state::{USState, STATE_COUNT};
use crate::models::tax::{FilingStatus, TaxBracket};
use vstd::prelude::*;

verus! {

/// 10^s for the scales used in the tables.
spec fn ten_to(s: nat) -> int {
    if s == 0 {
        1
    } else if s == 1 {
        10
    } else if s == 2 {
        100
    } else if s == 3 {
        1000
    } else if s == 4 {
        10000
    } else if s == 5 {
        100000
    } else {
        1000000
    }
}

proof fn lemma_ten_to(s: nat)
    requires
        s <= 6,
    ensures
        pow10(s) == ten_to(s),
{
    reveal_with_fuel(pow10, 7);
}

/// A non-negative amount `m / 10^s`.
fn amount(m: i64, s: u32) -> (r: Dec)
    requires
        0 <= m <= AMOUNT_LIMIT,
        s <= 6,
    ensures
        is_amount(r),
        r.value() >= 0,
        r.mantissa == m,
        r.scale == s,
{
    let r = Dec::new(m, s);
    proof {
        crate::decimal::lemma_pow10_mono((28 - s) as nat, 28);
        crate::decimal::lemma_pow10_positive((28 - s) as nat);
        let p = pow10((28 - s) as nat);
        assert(r.value() == m * p);
        assert(m * p <= AMOUNT_LIMIT * pow10(28)) by (nonlinear_arith)
            requires
                0 <= m <= AMOUNT_LIMIT,
                0 < p <= pow10(28),
        ;
        assert(m * p >= 0) by (nonlinear_arith)
            requires
                0 <= m,
                0 < p,
        ;
    }
    r
}

/// A rate `m / 10^s` between 0 and 1.
fn rate(m: i64, s: u32) -> (r: Dec)
    requires
        0 <= m <= ten_to(s as nat),
        s <= 6,
    ensures
        is_rate(r),
        r.mantissa == m,
        r.scale == s,
{
    let r = Dec::new(m, s);
    proof {
        lemma_ten_to(s as nat);
        crate::decimal::lemma_pow10_add(s as nat, (28 - s) as nat);
        crate::decimal::lemma_pow10_positive((28 - s) as nat);
        let p = pow10((28 - s) as nat);
        assert(r.value() == m * p);
        assert(m * p <= pow10(s as nat) * p) by (nonlinear_arith)
            requires
                0 <= m <= pow10(s as nat),
                0 < p,
        ;
        assert(m * p >= 0) by (nonlinear_arith)
            requires
                0 <= m,
                0 < p,
        ;
        assert((s + (28 - s)) as nat == 28nat);
    }
    r
}

/// Appends a bracket to a table in range.
fn push_bracket(v: &mut Vec<TaxBracket>, b: TaxBracket)
    requires
        brackets_in_range(old(v)@),
        old(v)@.len() < MAX_BRACKETS,
        b.in_range(),
    ensures
        final(v)@ == old(v)@.push(b),
        brackets_in_range(final(v)@),
{
    v.push(b);
}

/// Appends the brackets of a filing status to a table keyed by status.
fn push_filing(entries: &mut Vec<FilingBrackets>, filing_status: FilingStatus, brackets: Vec<TaxBracket>)
    requires
        distinct_filings(old(entries)@),
        forall|i: int| 0 <= i < old(entries)@.len() ==> (#[trigger] old(entries)@[i]).filing_status
            != filing_status,
        forall|i: int|
            0 <= i < old(entries)@.len() ==> brackets_in_range((#[trigger] old(entries)@[i]).brackets@),
        brackets_in_range(brackets@),
    ensures
        final(entries)@.len() == old(entries)@.len() + 1,
        final(entries)@.drop_last() == old(entries)@,
        final(entries)@.last().filing_status == filing_status,
        final(entries)@.last().brackets@ == brackets@,
        distinct_filings(final(entries)@),
        forall|i: int|
            0 <= i < final(entries)@.len() ==> brackets_in_range((#[trigger] final(entries)@[i]).brackets@),
{
    let ghost before = entries@;
    entries.push(FilingBrackets { filing_status, brackets });
    assert(entries@.drop_last() =~= before);
}

/// Appends the standard deduction of a filing status.
fn push_deduction(entries: &mut Vec<FilingDeduction>, filing_status: FilingStatus, amount: Dec)
    requires
        distinct_deductions(old(entries)@),
        forall|i: int| 0 <= i < old(entries)@.len() ==> (#[trigger] old(entries)@[i]).filing_status
            != filing_status,
        forall|i: int|
            0 <= i < old(entries)@.len() ==> is_amount((#[trigger] old(entries)@[i]).amount)
                && old(entries)@[i].amount.value() >= 0,
        is_amount(amount),
        amount.value() >= 0,
    ensures
        final(entries)@.len() == old(entries)@.len() + 1,
        final(entries)@.last() == (FilingDeduction { filing_status, amount }),
        final(entries)@.drop_last() == old(entries)@,
        distinct_deductions(final(entries)@),
        forall|i: int|
            0 <= i < final(entries)@.len() ==> is_amount((#[trigger] final(entries)@[i]).amount)
                && final(entries)@[i].amount.value() >= 0,
{
    let ghost before = entries@;
    entries.push(FilingDeduction { filing_status, amount });
    assert(entries@.drop_last() =~= before);
}

/// Federal brackets, single filers.
pub open spec fn federal_single_table() -> Seq<TaxBracket> {
    seq![
        TaxBracket { floor: Dec { mantissa: 0, scale: 0 }, ceiling: Some(Dec { mantissa: 11600, scale: 0 }), rate: Dec { mantissa: 10, scale: 2 }, base_tax: Dec { mantissa: 0, scale: 0 } },
        TaxBracket { floor: Dec { mantissa: 11600, scale: 0 }, ceiling: Some(Dec { mantissa: 47150, scale: 0 }), rate: Dec { mantissa: 12, scale: 2 }, base_tax: Dec { mantissa: 1160, scale: 0 } },
        TaxBracket { floor: Dec { mantissa: 47150, scale: 0 }, ceiling: Some(Dec { mantissa: 100525, scale: 0 }), rate: Dec { mantissa: 22, scale: 2 }, base_tax: Dec { mantissa: 5426, scale: 0 } },
        TaxBracket { floor: Dec { mantissa: 100525, scale: 0 }, ceiling: Some(Dec { mantissa: 191950, scale: 0 }), rate: Dec { mantissa: 24, scale: 2 }, base_tax: Dec { mantissa: 1716850, scale: 2 } },
        TaxBracket { floor: Dec { mantissa: 191950, scale: 0 }, ceiling: Some(Dec { mantissa: 243725, scale: 0 }), rate: Dec { mantissa: 32, scale: 2 }, base_tax: Dec { mantissa: 3911050, scale: 2 } },
        TaxBracket { floor: Dec { mantissa: 243725, scale: 0 }, ceiling: Some(Dec { mantissa: 609350, scale: 0 }), rate: Dec { mantissa: 35, scale: 2 }, base_tax: Dec { mantissa: 5567850, scale: 2 } },
        TaxBracket { floor: Dec { mantissa: 609350, scale: 0 }, ceiling: None, rate: Dec { mantissa: 37, scale: 2 }, base_tax: Dec { mantissa: 18364725, scale: 2 } },
    ]
}

fn federal_single() -> (r: Vec<TaxBracket>)
    ensures
        brackets_in_range(r@),
        r@ == federal_single_table(),
{
    let mut v: Vec<TaxBracket> = Vec::new();
    push_bracket(&mut v, TaxBracket::new(amount(0, 0), Some(amount(11600, 0)), rate(10, 2), amount(0, 0)));
    push_bracket(&mut v, TaxBracket::new(amount(11600, 0), Some(amount(47150, 0)), rate(12, 2), amount(1160, 0)));
    push_bracket(&mut v, TaxBracket::new(amount(47150, 0), Some(amount(100525, 0)), rate(22, 2), amount(5426, 0)));
    push_bracket(&mut v, TaxBracket::new(amount(100525, 0), Some(amount(191950, 0)), rate(24, 2), amount(1716850, 2)));
    push_bracket(&mut v, TaxBracket::new(amount(191950, 0), Some(amount(243725, 0)), rate(32, 2), amount(3911050, 2)));
    push_bracket(&mut v, TaxBracket::new(amount(243725, 0), Some(amount(609350, 0)), rate(35, 2), amount(5567850, 2)));
    push_bracket(&mut v, TaxBracket::new(amount(609350, 0), None, rate(37, 2), amount(18364725, 2)));
    assert(v@ =~= federal_single_table());
    v
}

/// Federal brackets, married filing jointly (also qualifying widow(er)).
pub open spec fn federal_joint_table() -> Seq<TaxBracket> {
    seq![
        TaxBracket { floor: Dec { mantissa: 0, scale: 0 }, ceiling: Some(Dec { mantissa: 23200, scale: 0 }), rate: Dec { mantissa: 10, scale: 2 }, base_tax: Dec { mantissa: 0, scale: 0 } },
        TaxBracket { floor: Dec { mantissa: 23200, scale: 0 }, ceiling: Some(Dec { mantissa: 94300, scale: 0 }), rate: Dec { mantissa: 12, scale: 2 }, base_tax: Dec { mantissa: 2320, scale: 0 } },
        TaxBracket { floor: Dec { mantissa: 94300, scale: 0 }, ceiling: Some(Dec { mantissa: 201050, scale: 0 }), rate: Dec { mantissa: 22, scale: 2 }, base_tax: Dec { mantissa: 10852, scale: 0 } },
        TaxBracket { floor: Dec { mantissa: 201050, scale: 0 }, ceiling: Some(Dec { mantissa: 383900, scale: 0 }), rate: Dec { mantissa: 24, scale: 2 }, base_tax: Dec { mantissa: 34337, scale: 0 } },
        TaxBracket { floor: Dec { mantissa: 383900, scale: 0 }, ceiling: Some(Dec { mantissa: 487450, scale: 0 }), rate: Dec { mantissa: 32, scale: 2 }, base_tax: Dec { mantissa: 78221, scale: 0 } },
        TaxBracket { floor: Dec { mantissa: 487450, scale: 0 }, ceiling: Some(Dec { mantissa: 731200, scale: 0 }), rate: Dec { mantissa: 35, scale: 2 }, base_tax: Dec { mantissa: 111357, scale: 0 } },
        TaxBracket { floor: Dec { mantissa: 731200, scale: 0 }, ceiling: None, rate: Dec { mantissa: 37, scale: 2 }, base_tax: Dec { mantissa: 19666950, scale: 2 } },
    ]
}

fn federal_joint() -> (r: Vec<TaxBracket>)
    ensures
        brackets_in_range(r@),
        r@ == federal_joint_table(),
{
    let mut v: Vec<TaxBracket> = Vec::new();
    push_bracket(&mut v, TaxBracket::new(amount(0, 0), Some(amount(23200, 0)), rate(10, 2), amount(0, 0)));
    push_bracket(&mut v, TaxBracket::new(amount(23200, 0), Some(amount(94300, 0)), rate(12, 2), amount(2320, 0)));
    push_bracket(&mut v, TaxBracket::new(amount(94300, 0), Some(amount(201050, 0)), rate(22, 2), amount(10852, 0)));
    push_bracket(&mut v, TaxBracket::new(amount(201050, 0), Some(amount(383900, 0)), rate(24, 2), amount(34337, 0)));
    push_bracket(&mut v, TaxBracket::new(amount(383900, 0), Some(amount(487450, 0)), rate(32, 2), amount(78221, 0)));
    push_bracket(&mut v, TaxBracket::new(amount(487450, 0), Some(amount(731200, 0)), rate(35, 2), amount(111357, 0)));
    push_bracket(&mut v, TaxBracket::new(amount(731200, 0), None, rate(37, 2), amount(19666950, 2)));
    assert(v@ =~= federal_joint_table());
    v
}

/// Federal brackets, married filing separately.
pub open spec fn federal_separate_table() -> Seq<TaxBracket> {
    seq![
        TaxBracket { floor: Dec { mantissa: 0, scale: 0 }, ceiling: Some(Dec { mantissa: 11600, scale: 0 }), rate: Dec { mantissa: 10, scale: 2 }, base_tax: Dec { mantissa: 0, scale: 0 } },
        TaxBracket { floor: Dec { mantissa: 11600, scale: 0 }, ceiling: Some(Dec { mantissa: 47150, scale: 0 }), rate: Dec { mantissa: 12, scale: 2 }, base_tax: Dec { mantissa: 1160, scale: 0 } },
        TaxBracket { floor: Dec { mantissa: 47150, scale: 0 }, ceiling: Some(Dec { mantissa: 100525, scale: 0 }), rate: Dec { mantissa: 22, scale: 2 }, base_tax: Dec { mantissa: 5426, scale: 0 } },
        TaxBracket { floor: Dec { mantissa: 100525, scale: 0 }, ceiling: Some(Dec { mantissa: 191950, scale: 0 }), rate: Dec { mantissa: 24, scale: 2 }, base_tax: Dec { mantissa: 1716850, scale: 2 } },
        TaxBracket { floor: Dec { mantissa: 191950, scale: 0 }, ceiling: Some(Dec { mantissa: 243725, scale: 0 }), rate: Dec { mantissa: 32, scale: 2 }, base_tax: Dec { mantissa: 3911050, scale: 2 } },
        TaxBracket { floor: Dec { mantissa: 243725, scale: 0 }, ceiling: Some(Dec { mantissa: 365600, scale: 0 }), rate: Dec { mantissa: 35, scale: 2 }, base_tax: Dec { mantissa: 5567850, scale: 2 } },
        TaxBracket { floor: Dec { mantissa: 365600, scale: 0 }, ceiling: None, rate: Dec { mantissa: 37, scale: 2 }, base_tax: Dec { mantissa: 9833475, scale: 2 } },
    ]
}

fn federal_separate() -> (r: Vec<TaxBracket>)
    ensures
        brackets_in_range(r@),
        r@ == federal_separate_table(),
{
    let mut v: Vec<TaxBracket> = Vec::new();
    push_bracket(&mut v, TaxBracket::new(amount(0, 0), Some(amount(11600, 0)), rate(10, 2), amount(0, 0)));
    push_bracket(&mut v, TaxBracket::new(amount(11600, 0), Some(amount(47150, 0)), rate(12, 2), amount(1160, 0)));
    push_bracket(&mut v, TaxBracket::new(amount(47150, 0), Some(amount(100525, 0)), rate(22, 2), amount(5426, 0)));
    push_bracket(&mut v, TaxBracket::new(amount(100525, 0), Some(amount(191950, 0)), rate(24, 2), amount(1716850, 2)));
    push_bracket(&mut v, TaxBracket::new(amount(191950, 0), Some(amount(243725, 0)), rate(32, 2), amount(3911050, 2)));
    push_bracket(&mut v, TaxBracket::new(amount(243725, 0), Some(amount(365600, 0)), rate(35, 2), amount(5567850, 2)));
    push_bracket(&mut v, TaxBracket::new(amount(365600, 0), None, rate(37, 2), amount(9833475, 2)));
    assert(v@ =~= federal_separate_table());
    v
}

/// Federal brackets, head of household.
pub open spec fn federal_head_table() -> Seq<TaxBracket> {
    seq![
        TaxBracket { floor: Dec { mantissa: 0, scale: 0 }, ceiling: Some(Dec { mantissa: 16550, scale: 0 }), rate: Dec { mantissa: 10, scale: 2 }, base_tax: Dec { mantissa: 0, scale: 0 } },
        TaxBracket { floor: Dec { mantissa: 16550, scale: 0 }, ceiling: Some(Dec { mantissa: 63100, scale: 0 }), rate: Dec { mantissa: 12, scale: 2 }, base_tax: Dec { mantissa: 1655, scale: 0 } },
        TaxBracket { floor: Dec { mantissa: 63100, scale: 0 }, ceiling: Some(Dec { mantissa: 100500, scale: 0 }), rate: Dec { mantissa: 22, scale: 2 }, base_tax: Dec { mantissa: 7241, scale: 0 } },
        TaxBracket { floor: Dec { mantissa: 100500, scale: 0 }, ceiling: Some(Dec { mantissa: 191950, scale: 0 }), rate: Dec { mantissa: 24, scale: 2 }, base_tax: Dec { mantissa: 15469, scale: 0 } },
        TaxBracket { floor: Dec { mantissa: 191950, scale: 0 }, ceiling: Some(Dec { mantissa: 243700, scale: 0 }), rate: Dec { mantissa: 32, scale: 2 }, base_tax: Dec { mantissa: 37417, scale: 0 } },
        TaxBracket { floor: Dec { mantissa: 243700, scale: 0 }, ceiling: Some(Dec { mantissa: 609350, scale: 0 }), rate: Dec { mantissa: 35, scale: 2 }, base_tax: Dec { mantissa: 53977, scale: 0 } },
        TaxBracket { floor: Dec { mantissa: 609350, scale: 0 }, ceiling: None, rate: Dec { mantissa: 37, scale: 2 }, base_tax: Dec { mantissa: 18195450, scale: 2 } },
    ]
}

fn federal_head() -> (r: Vec<TaxBracket>)
    ensures
        brackets_in_range(r@),
        r@ == federal_head_table(),
{
    let mut v: Vec<TaxBracket> = Vec::new();
    push_bracket(&mut v, TaxBracket::new(amount(0, 0), Some(amount(16550, 0)), rate(10, 2), amount(0, 0)));
    push_bracket(&mut v, TaxBracket::new(amount(16550, 0), Some(amount(63100, 0)), rate(12, 2), amount(1655, 0)));
    push_bracket(&mut v, TaxBracket::new(amount(63100, 0), Some(amount(100500, 0)), rate(22, 2), amount(7241, 0)));
    push_bracket(&mut v, TaxBracket::new(amount(100500, 0), Some(amount(191950, 0)), rate(24, 2), amount(15469, 0)));
    push_bracket(&mut v, TaxBracket::new(amount(191950, 0), Some(amount(243700, 0)), rate(32, 2), amount(37417, 0)));
    push_bracket(&mut v, TaxBracket::new(amount(243700, 0), Some(amount(609350, 0)), rate(35, 2), amount(53977, 0)));
    push_bracket(&mut v, TaxBracket::new(amount(609350, 0), None, rate(37, 2), amount(18195450, 2)));
    assert(v@ =~= federal_head_table());
    v
}

/// California brackets, single.
pub open spec fn california_single_table() -> Seq<TaxBracket> {
    seq![
        TaxBracket { floor: Dec { mantissa: 0, scale: 0 }, ceiling: Some(Dec { mantissa: 10412, scale: 0 }), rate: Dec { mantissa: 1, scale: 2 }, base_tax: Dec { mantissa: 0, scale: 0 } },
        TaxBracket { floor: Dec { mantissa: 10412, scale: 0 }, ceiling: Some(Dec { mantissa: 24684, scale: 0 }), rate: Dec { mantissa: 2, scale: 2 }, base_tax: Dec { mantissa: 10412, scale: 2 } },
        TaxBracket { floor: Dec { mantissa: 24684, scale: 0 }, ceiling: Some(Dec { mantissa: 38959, scale: 0 }), rate: Dec { mantissa: 4, scale: 2 }, base_tax: Dec { mantissa: 38956, scale: 2 } },
        TaxBracket { floor: Dec { mantissa: 38959, scale: 0 }, ceiling: Some(Dec { mantissa: 54081, scale: 0 }), rate: Dec { mantissa: 6, scale: 2 }, base_tax: Dec { mantissa: 96056, scale: 2 } },
        TaxBracket { floor: Dec { mantissa: 54081, scale: 0 }, ceiling: Some(Dec { mantissa: 68350, scale: 0 }), rate: Dec { mantissa: 8, scale: 2 }, base_tax: Dec { mantissa: 186788, scale: 2 } },
        TaxBracket { floor: Dec { mantissa: 68350, scale: 0 }, ceiling: Some(Dec { mantissa: 349137, scale: 0 }), rate: Dec { mantissa: 93, scale: 3 }, base_tax: Dec { mantissa: 300940, scale: 2 } },
        TaxBracket { floor: Dec { mantissa: 349137, scale: 0 }, ceiling: Some(Dec { mantissa: 418961, scale: 0 }), rate: Dec { mantissa: 103, scale: 3 }, base_tax: Dec { mantissa: 2912259, scale: 2 } },
        TaxBracket { floor: Dec { mantissa: 418961, scale: 0 }, ceiling: Some(Dec { mantissa: 698271, scale: 0 }), rate: Dec { mantissa: 113, scale: 3 }, base_tax: Dec { mantissa: 3631446, scale: 2 } },
        TaxBracket { floor: Dec { mantissa: 698271, scale: 0 }, ceiling: Some(Dec { mantissa: 1000000, scale: 0 }), rate: Dec { mantissa: 123, scale: 3 }, base_tax: Dec { mantissa: 6787649, scale: 2 } },
        TaxBracket { floor: Dec { mantissa: 1000000, scale: 0 }, ceiling: None, rate: Dec { mantissa: 133, scale: 3 }, base_tax: Dec { mantissa: 10498912, scale: 2 } },
    ]
}

fn california_single() -> (r: Vec<TaxBracket>)
    ensures
        brackets_in_range(r@),
        r@ == california_single_table(),
{
    let mut v: Vec<TaxBracket> = Vec::new();
    push_bracket(&mut v, TaxBracket::new(amount(0, 0), Some(amount(10412, 0)), rate(1, 2), amount(0, 0)));
    push_bracket(&mut v, TaxBracket::new(amount(10412, 0), Some(amount(24684, 0)), rate(2, 2), amount(10412, 2)));
    push_bracket(&mut v, TaxBracket::new(amount(24684, 0), Some(amount(38959, 0)), rate(4, 2), amount(38956, 2)));
    push_bracket(&mut v, TaxBracket::new(amount(38959, 0), Some(amount(54081, 0)), rate(6, 2), amount(96056, 2)));
    push_bracket(&mut v, TaxBracket::new(amount(54081, 0), Some(amount(68350, 0)), rate(8, 2), amount(186788, 2)));
    push_bracket(&mut v, TaxBracket::new(amount(68350, 0), Some(amount(349137, 0)), rate(93, 3), amount(300940, 2)));
    push_bracket(&mut v, TaxBracket::new(amount(349137, 0), Some(amount(418961, 0)), rate(103, 3), amount(2912259, 2)));
    push_bracket(&mut v, TaxBracket::new(amount(418961, 0), Some(amount(698271, 0)), rate(113, 3), amount(3631446, 2)));
    push_bracket(&mut v, TaxBracket::new(amount(698271, 0), Some(amount(1000000, 0)), rate(123, 3), amount(6787649, 2)));
    push_bracket(&mut v, TaxBracket::new(amount(1000000, 0), None, rate(133, 3), amount(10498912, 2)));
    assert(v@ =~= california_single_table());
    v
}

/// California brackets, married filing jointly.
pub open spec fn california_joint_table() -> Seq<TaxBracket> {
    seq![
        TaxBracket { floor: Dec { mantissa: 0, scale: 0 }, ceiling: Some(Dec { mantissa: 20824, scale: 0 }), rate: Dec { mantissa: 1, scale: 2 }, base_tax: Dec { mantissa: 0, scale: 0 } },
        TaxBracket { floor: Dec { mantissa: 20824, scale: 0 }, ceiling: Some(Dec { mantissa: 49368, scale: 0 }), rate: Dec { mantissa: 2, scale: 2 }, base_tax: Dec { mantissa: 20824, scale: 2 } },
        TaxBracket { floor: Dec { mantissa: 49368, scale: 0 }, ceiling: Some(Dec { mantissa: 77918, scale: 0 }), rate: Dec { mantissa: 4, scale: 2 }, base_tax: Dec { mantissa: 77912, scale: 2 } },
        TaxBracket { floor: Dec { mantissa: 77918, scale: 0 }, ceiling: Some(Dec { mantissa: 108162, scale: 0 }), rate: Dec { mantissa: 6, scale: 2 }, base_tax: Dec { mantissa: 192112, scale: 2 } },
        TaxBracket { floor: Dec { mantissa: 108162, scale: 0 }, ceiling: Some(Dec { mantissa: 136700, scale: 0 }), rate: Dec { mantissa: 8, scale: 2 }, base_tax: Dec { mantissa: 373576, scale: 2 } },
        TaxBracket { floor: Dec { mantissa: 136700, scale: 0 }, ceiling: Some(Dec { mantissa: 698274, scale: 0 }), rate: Dec { mantissa: 93, scale: 3 }, base_tax: Dec { mantissa: 601880, scale: 2 } },
        TaxBracket { floor: Dec { mantissa: 698274, scale: 0 }, ceiling: Some(Dec { mantissa: 837922, scale: 0 }), rate: Dec { mantissa: 103, scale: 3 }, base_tax: Dec { mantissa: 5824518, scale: 2 } },
        TaxBracket { floor: Dec { mantissa: 837922, scale: 0 }, ceiling: Some(Dec { mantissa: 1396542, scale: 0 }), rate: Dec { mantissa: 113, scale: 3 }, base_tax: Dec { mantissa: 7262892, scale: 2 } },
        TaxBracket { floor: Dec { mantissa: 1396542, scale: 0 }, ceiling: Some(Dec { mantissa: 2000000, scale: 0 }), rate: Dec { mantissa: 123, scale: 3 }, base_tax: Dec { mantissa: 13575298, scale: 2 } },
        TaxBracket { floor: Dec { mantissa: 2000000, scale: 0 }, ceiling: None, rate: Dec { mantissa: 133, scale: 3 }, base_tax: Dec { mantissa: 20997824, scale: 2 } },
    ]
}

fn california_joint() -> (r: Vec<TaxBracket>)
    ensures
        brackets_in_range(r@),
        r@ == california_joint_table(),
{
    let mut v: Vec<TaxBracket> = Vec::new();
    push_bracket(&mut v, TaxBracket::new(amount(0, 0), Some(amount(20824, 0)), rate(1, 2), amount(0, 0)));
    push_bracket(&mut v, TaxBracket::new(amount(20824, 0), Some(amount(49368, 0)), rate(2, 2), amount(20824, 2)));
    push_bracket(&mut v, TaxBracket::new(amount(49368, 0), Some(amount(77918, 0)), rate(4, 2), amount(77912, 2)));
    push_bracket(&mut v, TaxBracket::new(amount(77918, 0), Some(amount(108162, 0)), rate(6, 2), amount(192112, 2)));
    push_bracket(&mut v, TaxBracket::new(amount(108162, 0), Some(amount(136700, 0)), rate(8, 2), amount(373576, 2)));
    push_bracket(&mut v, TaxBracket::new(amount(136700, 0), Some(amount(698274, 0)), rate(93, 3), amount(601880, 2)));
    push_bracket(&mut v, TaxBracket::new(amount(698274, 0), Some(amount(837922, 0)), rate(103, 3), amount(5824518, 2)));
    push_bracket(&mut v, TaxBracket::new(amount(837922, 0), Some(amount(1396542, 0)), rate(113, 3), amount(7262892, 2)));
    push_bracket(&mut v, TaxBracket::new(amount(1396542, 0), Some(amount(2000000, 0)), rate(123, 3), amount(13575298, 2)));
    push_bracket(&mut v, TaxBracket::new(amount(2000000, 0), None, rate(133, 3), amount(20997824, 2)));
    assert(v@ =~= california_joint_table());
    v
}

/// New York brackets, single.
pub open spec fn new_york_single_table() -> Seq<TaxBracket> {
    seq![
        TaxBracket { floor: Dec { mantissa: 0, scale: 0 }, ceiling: Some(Dec { mantissa: 8500, scale: 0 }), rate: Dec { mantissa: 4, scale: 2 }, base_tax: Dec { mantissa: 0, scale: 0 } },
        TaxBracket { floor: Dec { mantissa: 8500, scale: 0 }, ceiling: Some(Dec { mantissa: 11700, scale: 0 }), rate: Dec { mantissa: 45, scale: 3 }, base_tax: Dec { mantissa: 340, scale: 0 } },
        TaxBracket { floor: Dec { mantissa: 11700, scale: 0 }, ceiling: Some(Dec { mantissa: 13900, scale: 0 }), rate: Dec { mantissa: 525, scale: 4 }, base_tax: Dec { mantissa: 484, scale: 0 } },
        TaxBracket { floor: Dec { mantissa: 13900, scale: 0 }, ceiling: Some(Dec { mantissa: 80650, scale: 0 }), rate: Dec { mantissa: 55, scale: 3 }, base_tax: Dec { mantissa: 59950, scale: 2 } },
        TaxBracket { floor: Dec { mantissa: 80650, scale: 0 }, ceiling: Some(Dec { mantissa: 215400, scale: 0 }), rate: Dec { mantissa: 6, scale: 2 }, base_tax: Dec { mantissa: 427075, scale: 2 } },
        TaxBracket { floor: Dec { mantissa: 215400, scale: 0 }, ceiling: Some(Dec { mantissa: 1077550, scale: 0 }), rate: Dec { mantissa: 685, scale: 4 }, base_tax: Dec { mantissa: 1235575, scale: 2 } },
        TaxBracket { floor: Dec { mantissa: 1077550, scale: 0 }, ceiling: Some(Dec { mantissa: 5000000, scale: 0 }), rate: Dec { mantissa: 965, scale: 4 }, base_tax: Dec { mantissa: 7141303, scale: 2 } },
        TaxBracket { floor: Dec { mantissa: 5000000, scale: 0 }, ceiling: Some(Dec { mantissa: 25000000, scale: 0 }), rate: Dec { mantissa: 103, scale: 3 }, base_tax: Dec { mantissa: 44992928, scale: 2 } },
        TaxBracket { floor: Dec { mantissa: 25000000, scale: 0 }, ceiling: None, rate: Dec { mantissa: 109, scale: 3 }, base_tax: Dec { mantissa: 250992928, scale: 2 } },
    ]
}

fn new_york_single() -> (r: Vec<TaxBracket>)
    ensures
        brackets_in_range(r@),
        r@ == new_york_single_table(),
{
    let mut v: Vec<TaxBracket> = Vec::new();
    push_bracket(&mut v, TaxBracket::new(amount(0, 0), Some(amount(8500, 0)), rate(4, 2), amount(0, 0)));
    push_bracket(&mut v, TaxBracket::new(amount(8500, 0), Some(amount(11700, 0)), rate(45, 3), amount(340, 0)));
    push_bracket(&mut v, TaxBracket::new(amount(11700, 0), Some(amount(13900, 0)), rate(525, 4), amount(484, 0)));
    push_bracket(&mut v, TaxBracket::new(amount(13900, 0), Some(amount(80650, 0)), rate(55, 3), amount(59950, 2)));
    push_bracket(&mut v, TaxBracket::new(amount(80650, 0), Some(amount(215400, 0)), rate(6, 2), amount(427075, 2)));
    push_bracket(&mut v, TaxBracket::new(amount(215400, 0), Some(amount(1077550, 0)), rate(685, 4), amount(1235575, 2)));
    push_bracket(&mut v, TaxBracket::new(amount(1077550, 0), Some(amount(5000000, 0)), rate(965, 4), amount(7141303, 2)));
    push_bracket(&mut v, TaxBracket::new(amount(5000000, 0), Some(amount(25000000, 0)), rate(103, 3), amount(44992928, 2)));
    push_bracket(&mut v, TaxBracket::new(amount(25000000, 0), None, rate(109, 3), amount(250992928, 2)));
    assert(v@ =~= new_york_single_table());
    v
}

/// Arizona brackets, single.
pub open spec fn arizona_single_table() -> Seq<TaxBracket> {
    seq![
        TaxBracket { floor: Dec { mantissa: 0, scale: 0 }, ceiling: Some(Dec { mantissa: 28653, scale: 0 }), rate: Dec { mantissa: 255, scale: 4 }, base_tax: Dec { mantissa: 0, scale: 0 } },
        TaxBracket { floor: Dec { mantissa: 28653, scale: 0 }, ceiling: None, rate: Dec { mantissa: 298, scale: 4 }, base_tax: Dec { mantissa: 73065, scale: 2 } },
    ]
}

fn arizona_single() -> (r: Vec<TaxBracket>)
    ensures
        brackets_in_range(r@),
        r@ == arizona_single_table(),
{
    let mut v: Vec<TaxBracket> = Vec::new();
    push_bracket(&mut v, TaxBracket::new(amount(0, 0), Some(amount(28653, 0)), rate(255, 4), amount(0, 0)));
    push_bracket(&mut v, TaxBracket::new(amount(28653, 0), None, rate(298, 4), amount(73065, 2)));
    assert(v@ =~= arizona_single_table());
    v
}

/// Georgia brackets, single.
pub open spec fn georgia_single_table() -> Seq<TaxBracket> {
    seq![
        TaxBracket { floor: Dec { mantissa: 0, scale: 0 }, ceiling: Some(Dec { mantissa: 750, scale: 0 }), rate: Dec { mantissa: 1, scale: 2 }, base_tax: Dec { mantissa: 0, scale: 0 } },
        TaxBracket { floor: Dec { mantissa: 750, scale: 0 }, ceiling: Some(Dec { mantissa: 2250, scale: 0 }), rate: Dec { mantissa: 2, scale: 2 }, base_tax: Dec { mantissa: 750, scale: 2 } },
        TaxBracket { floor: Dec { mantissa: 2250, scale: 0 }, ceiling: Some(Dec { mantissa: 3750, scale: 0 }), rate: Dec { mantissa: 3, scale: 2 }, base_tax: Dec { mantissa: 3750, scale: 2 } },
        TaxBracket { floor: Dec { mantissa: 3750, scale: 0 }, ceiling: Some(Dec { mantissa: 5250, scale: 0 }), rate: Dec { mantissa: 4, scale: 2 }, base_tax: Dec { mantissa: 8250, scale: 2 } },
        TaxBracket { floor: Dec { mantissa: 5250, scale: 0 }, ceiling: Some(Dec { mantissa: 7000, scale: 0 }), rate: Dec { mantissa: 5, scale: 2 }, base_tax: Dec { mantissa: 14250, scale: 2 } },
        TaxBracket { floor: Dec { mantissa: 7000, scale: 0 }, ceiling: None, rate: Dec { mantissa: 549, scale: 4 }, base_tax: Dec { mantissa: 230, scale: 0 } },
    ]
}

fn georgia_single() -> (r: Vec<TaxBracket>)
    ensures
        brackets_in_range(r@),
        r@ == georgia_single_table(),
{
    let mut v: Vec<TaxBracket> = Vec::new();
    push_bracket(&mut v, TaxBracket::new(amount(0, 0), Some(amount(750, 0)), rate(1, 2), amount(0, 0)));
    push_bracket(&mut v, TaxBracket::new(amount(750, 0), Some(amount(2250, 0)), rate(2, 2), amount(750, 2)));
    push_bracket(&mut v, TaxBracket::new(amount(2250, 0), Some(amount(3750, 0)), rate(3, 2), amount(3750, 2)));
    push_bracket(&mut v, TaxBracket::new(amount(3750, 0), Some(amount(5250, 0)), rate(4, 2), amount(8250, 2)));
    push_bracket(&mut v, TaxBracket::new(amount(5250, 0), Some(amount(7000, 0)), rate(5, 2), amount(14250, 2)));
    push_bracket(&mut v, TaxBracket::new(amount(7000, 0), None, rate(549, 4), amount(230, 0)));
    assert(v@ =~= georgia_single_table());
    v
}

/// Minnesota brackets, single.
pub open spec fn minnesota_single_table() -> Seq<TaxBracket> {
    seq![
        TaxBracket { floor: Dec { mantissa: 0, scale: 0 }, ceiling: Some(Dec { mantissa: 30070, scale: 0 }), rate: Dec { mantissa: 535, scale: 4 }, base_tax: Dec { mantissa: 0, scale: 0 } },
        TaxBracket { floor: Dec { mantissa: 30070, scale: 0 }, ceiling: Some(Dec { mantissa: 98760, scale: 0 }), rate: Dec { mantissa: 68, scale: 3 }, base_tax: Dec { mantissa: 160875, scale: 2 } },
        TaxBracket { floor: Dec { mantissa: 98760, scale: 0 }, ceiling: Some(Dec { mantissa: 183340, scale: 0 }), rate: Dec { mantissa: 785, scale: 4 }, base_tax: Dec { mantissa: 627967, scale: 2 } },
        TaxBracket { floor: Dec { mantissa: 183340, scale: 0 }, ceiling: None, rate: Dec { mantissa: 985, scale: 4 }, base_tax: Dec { mantissa: 1291920, scale: 2 } },
    ]
}

fn minnesota_single() -> (r: Vec<TaxBracket>)
    ensures
        brackets_in_range(r@),
        r@ == minnesota_single_table(),
{
    let mut v: Vec<TaxBracket> = Vec::new();
    push_bracket(&mut v, TaxBracket::new(amount(0, 0), Some(amount(30070, 0)), rate(535, 4), amount(0, 0)));
    push_bracket(&mut v, TaxBracket::new(amount(30070, 0), Some(amount(98760, 0)), rate(68, 3), amount(160875, 2)));
    push_bracket(&mut v, TaxBracket::new(amount(98760, 0), Some(amount(183340, 0)), rate(785, 4), amount(627967, 2)));
    push_bracket(&mut v, TaxBracket::new(amount(183340, 0), None, rate(985, 4), amount(1291920, 2)));
    assert(v@ =~= minnesota_single_table());
    v
}

/// New Jersey brackets, single.
pub open spec fn new_jersey_single_table() -> Seq<TaxBracket> {
    seq![
        TaxBracket { floor: Dec { mantissa: 0, scale: 0 }, ceiling: Some(Dec { mantissa: 20000, scale: 0 }), rate: Dec { mantissa: 14, scale: 3 }, base_tax: Dec { mantissa: 0, scale: 0 } },
        TaxBracket { floor: Dec { mantissa: 20000, scale: 0 }, ceiling: Some(Dec { mantissa: 35000, scale: 0 }), rate: Dec { mantissa: 175, scale: 4 }, base_tax: Dec { mantissa: 280, scale: 0 } },
        TaxBracket { floor: Dec { mantissa: 35000, scale: 0 }, ceiling: Some(Dec { mantissa: 40000, scale: 0 }), rate: Dec { mantissa: 35, scale: 3 }, base_tax: Dec { mantissa: 54250, scale: 2 } },
        TaxBracket { floor: Dec { mantissa: 40000, scale: 0 }, ceiling: Some(Dec { mantissa: 75000, scale: 0 }), rate: Dec { mantissa: 5525, scale: 5 }, base_tax: Dec { mantissa: 71750, scale: 2 } },
        TaxBracket { floor: Dec { mantissa: 75000, scale: 0 }, ceiling: Some(Dec { mantissa: 500000, scale: 0 }), rate: Dec { mantissa: 637, scale: 4 }, base_tax: Dec { mantissa: 265125, scale: 2 } },
        TaxBracket { floor: Dec { mantissa: 500000, scale: 0 }, ceiling: Some(Dec { mantissa: 1000000, scale: 0 }), rate: Dec { mantissa: 897, scale: 4 }, base_tax: Dec { mantissa: 2972400, scale: 2 } },
        TaxBracket { floor: Dec { mantissa: 1000000, scale: 0 }, ceiling: None, rate: Dec { mantissa: 1075, scale: 4 }, base_tax: Dec { mantissa: 7457400, scale: 2 } },
    ]
}

fn new_jersey_single() -> (r: Vec<TaxBracket>)
    ensures
        brackets_in_range(r@),
        r@ == new_jersey_single_table(),
{
    let mut v: Vec<TaxBracket> = Vec::new();
    push_bracket(&mut v, TaxBracket::new(amount(0, 0), Some(amount(20000, 0)), rate(14, 3), amount(0, 0)));
    push_bracket(&mut v, TaxBracket::new(amount(20000, 0), Some(amount(35000, 0)), rate(175, 4), amount(280, 0)));
    push_bracket(&mut v, TaxBracket::new(amount(35000, 0), Some(amount(40000, 0)), rate(35, 3), amount(54250, 2)));
    push_bracket(&mut v, TaxBracket::new(amount(40000, 0), Some(amount(75000, 0)), rate(5525, 5), amount(71750, 2)));
    push_bracket(&mut v, TaxBracket::new(amount(75000, 0), Some(amount(500000, 0)), rate(637, 4), amount(265125, 2)));
    push_bracket(&mut v, TaxBracket::new(amount(500000, 0), Some(amount(1000000, 0)), rate(897, 4), amount(2972400, 2)));
    push_bracket(&mut v, TaxBracket::new(amount(1000000, 0), None, rate(1075, 4), amount(7457400, 2)));
    assert(v@ =~= new_jersey_single_table());
    v
}

/// Oregon brackets, single.
pub open spec fn oregon_single_table() -> Seq<TaxBracket> {
    seq![
        TaxBracket { floor: Dec { mantissa: 0, scale: 0 }, ceiling: Some(Dec { mantissa: 4050, scale: 0 }), rate: Dec { mantissa: 475, scale: 4 }, base_tax: Dec { mantissa: 0, scale: 0 } },
        TaxBracket { floor: Dec { mantissa: 4050, scale: 0 }, ceiling: Some(Dec { mantissa: 10200, scale: 0 }), rate: Dec { mantissa: 675, scale: 4 }, base_tax: Dec { mantissa: 19238, scale: 2 } },
        TaxBracket { floor: Dec { mantissa: 10200, scale: 0 }, ceiling: Some(Dec { mantissa: 125000, scale: 0 }), rate: Dec { mantissa: 875, scale: 4 }, base_tax: Dec { mantissa: 60750, scale: 2 } },
        TaxBracket { floor: Dec { mantissa: 125000, scale: 0 }, ceiling: None, rate: Dec { mantissa: 99, scale: 3 }, base_tax: Dec { mantissa: 1065250, scale: 2 } },
    ]
}

fn oregon_single() -> (r: Vec<TaxBracket>)
    ensures
        brackets_in_range(r@),
        r@ == oregon_single_table(),
{
    let mut v: Vec<TaxBracket> = Vec::new();
    push_bracket(&mut v, TaxBracket::new(amount(0, 0), Some(amount(4050, 0)), rate(475, 4), amount(0, 0)));
    push_bracket(&mut v, TaxBracket::new(amount(4050, 0), Some(amount(10200, 0)), rate(675, 4), amount(19238, 2)));
    push_bracket(&mut v, TaxBracket::new(amount(10200, 0), Some(amount(125000, 0)), rate(875, 4), amount(60750, 2)));
    push_bracket(&mut v, TaxBracket::new(amount(125000, 0), None, rate(99, 3), amount(1065250, 2)));
    assert(v@ =~= oregon_single_table());
    v
}

/// Virginia brackets, single.
pub open spec fn virginia_single_table() -> Seq<TaxBracket> {
    seq![
        TaxBracket { floor: Dec { mantissa: 0, scale: 0 }, ceiling: Some(Dec { mantissa: 3000, scale: 0 }), rate: Dec { mantissa: 2, scale: 2 }, base_tax: Dec { mantissa: 0, scale: 0 } },
        TaxBracket { floor: Dec { mantissa: 3000, scale: 0 }, ceiling: Some(Dec { mantissa: 5000, scale: 0 }), rate: Dec { mantissa: 3, scale: 2 }, base_tax: Dec { mantissa: 60, scale: 0 } },
        TaxBracket { floor: Dec { mantissa: 5000, scale: 0 }, ceiling: Some(Dec { mantissa: 17000, scale: 0 }), rate: Dec { mantissa: 5, scale: 2 }, base_tax: Dec { mantissa: 120, scale: 0 } },
        TaxBracket { floor: Dec { mantissa: 17000, scale: 0 }, ceiling: None, rate: Dec { mantissa: 575, scale: 4 }, base_tax: Dec { mantissa: 720, scale: 0 } },
    ]
}

fn virginia_single() -> (r: Vec<TaxBracket>)
    ensures
        brackets_in_range(r@),
        r@ == virginia_single_table(),
{
    let mut v: Vec<TaxBracket> = Vec::new();
    push_bracket(&mut v, TaxBracket::new(amount(0, 0), Some(amount(3000, 0)), rate(2, 2), amount(0, 0)));
    push_bracket(&mut v, TaxBracket::new(amount(3000, 0), Some(amount(5000, 0)), rate(3, 2), amount(60, 0)));
    push_bracket(&mut v, TaxBracket::new(amount(5000, 0), Some(amount(17000, 0)), rate(5, 2), amount(120, 0)));
    push_bracket(&mut v, TaxBracket::new(amount(17000, 0), None, rate(575, 4), amount(720, 0)));
    assert(v@ =~= virginia_single_table());
    v
}

/// The 2024 federal brackets of a filing status.
pub open spec fn federal_table(fs: FilingStatus) -> Seq<TaxBracket> {
    match fs {
        FilingStatus::Single => federal_single_table(),
        FilingStatus::MarriedFilingJointly | FilingStatus::QualifyingWidower => federal_joint_table(),
        FilingStatus::MarriedFilingSeparately => federal_separate_table(),
        FilingStatus::HeadOfHousehold => federal_head_table(),
    }
}

/// The 2024 federal standard deduction of a filing status.
pub open spec fn standard_deduction_table(fs: FilingStatus) -> Dec {
    match fs {
        FilingStatus::Single | FilingStatus::MarriedFilingSeparately => Dec { mantissa: 14600, scale: 0 },
        FilingStatus::MarriedFilingJointly | FilingStatus::QualifyingWidower => Dec {
            mantissa: 29200,
            scale: 0,
        },
        FilingStatus::HeadOfHousehold => Dec { mantissa: 21900, scale: 0 },
    }
}

/// The 2024 payroll-tax configuration.
pub open spec fn fica_table() -> FicaConfig {
    FicaConfig {
        social_security_rate: Dec { mantissa: 62, scale: 3 },
        wage_base: Dec { mantissa: 168600, scale: 0 },
        medicare_rate: Dec { mantissa: 145, scale: 4 },
        additional_medicare_rate: Dec { mantissa: 9, scale: 3 },
    }
}

/// Tax type of a jurisdiction, as its flags say.
pub open spec fn tax_type_table(s: USState) -> StateTaxType {
    if s.has_no_income_tax_spec() {
        StateTaxType::NoTax
    } else if s.has_flat_tax_spec() {
        StateTaxType::FlatRate
    } else {
        StateTaxType::Progressive
    }
}

/// Flat rate of a flat-tax jurisdiction.
pub open spec fn flat_rate_table(s: USState) -> Option<Dec> {
    match s {
        USState::Colorado => Some(Dec { mantissa: 44, scale: 3 }),
        USState::Illinois => Some(Dec { mantissa: 495, scale: 4 }),
        USState::Indiana => Some(Dec { mantissa: 305, scale: 4 }),
        USState::Kentucky => Some(Dec { mantissa: 4, scale: 2 }),
        USState::Massachusetts => Some(Dec { mantissa: 5, scale: 2 }),
        USState::Michigan => Some(Dec { mantissa: 425, scale: 4 }),
        USState::NorthCarolina => Some(Dec { mantissa: 525, scale: 4 }),
        USState::Pennsylvania => Some(Dec { mantissa: 307, scale: 4 }),
        USState::Utah => Some(Dec { mantissa: 465, scale: 4 }),
        _ => None,
    }
}

/// Simplified brackets of the remaining jurisdictions: 5% on all income.
pub open spec fn default_single_table() -> Seq<TaxBracket> {
    seq![
        TaxBracket {
            floor: Dec { mantissa: 0, scale: 0 },
            ceiling: None,
            rate: Dec { mantissa: 5, scale: 2 },
            base_tax: Dec { mantissa: 0, scale: 0 },
        },
    ]
}

/// Brackets of a jurisdiction for a filing status; empty where it has none.
pub open spec fn state_brackets_table(s: USState, fs: FilingStatus) -> Seq<TaxBracket> {
    if s.has_no_income_tax_spec() || s.has_flat_tax_spec() {
        Seq::empty()
    } else if s == USState::California && fs == FilingStatus::MarriedFilingJointly {
        california_joint_table()
    } else if fs != FilingStatus::Single {
        Seq::empty()
    } else {
        match s {
            USState::California => california_single_table(),
            USState::NewYork => new_york_single_table(),
            USState::Arizona => arizona_single_table(),
            USState::Georgia => georgia_single_table(),
            USState::Minnesota => minnesota_single_table(),
            USState::NewJersey => new_jersey_single_table(),
            USState::Oregon => oregon_single_table(),
            USState::Virginia => virginia_single_table(),
            _ => default_single_table(),
        }
    }
}

/// Standard deductions (single, joint) in whole dollars of the jurisdictions
/// that have them.
pub open spec fn state_deductions_table(s: USState) -> Option<(int, int)> {
    match s {
        USState::California => Some((5363, 10726)),
        USState::NewYork => Some((8000, 16050)),
        USState::Georgia => Some((12000, 24000)),
        USState::Minnesota => Some((14575, 29150)),
        USState::Oregon => Some((2605, 5210)),
        USState::Virginia => Some((8500, 17000)),
        _ => None,
    }
}

/// Standard deduction of a jurisdiction for a filing status (units of 10^-28).
pub open spec fn state_deduction_table(s: USState, fs: FilingStatus) -> int {
    match state_deductions_table(s) {
        Some(d) => if fs == FilingStatus::Single {
            d.0 * pow10(28)
        } else if fs == FilingStatus::MarriedFilingJointly {
            d.1 * pow10(28)
        } else {
            0
        },
        None => 0,
    }
}

/// Disability-insurance rate of a jurisdiction.
pub open spec fn sdi_rate_table(s: USState) -> Option<Dec> {
    match s {
        USState::California => Some(Dec { mantissa: 11, scale: 3 }),
        USState::NewJersey => Some(Dec { mantissa: 14, scale: 4 }),
        _ => None,
    }
}

/// Disability-insurance wage base of a jurisdiction.
pub open spec fn sdi_wage_base_table(s: USState) -> Option<Dec> {
    match s {
        USState::California => Some(Dec { mantissa: 153164, scale: 0 }),
        _ => None,
    }
}

/// Average local rate of a jurisdiction.
pub open spec fn local_rate_table(s: USState) -> Option<Dec> {
    match s {
        USState::NewYork => Some(Dec { mantissa: 35, scale: 3 }),
        _ => None,
    }
}

/// Average local rate of a configuration, if it has one.
pub open spec fn local_rate_of(c: StateConfig) -> Option<Dec> {
    match c.local_tax_info {
        Some(info) => info.average_rate,
        None => None,
    }
}

/// A configuration holds the 2024 rules of a jurisdiction.
pub open spec fn state_config_matches(c: StateConfig, s: USState) -> bool {
    &&& c.state_code@ == s.code_spec()
    &&& c.tax_type == tax_type_table(s)
    &&& c.flat_rate == flat_rate_table(s)
    &&& forall|fs: FilingStatus| #[trigger] c.brackets_for(fs) == state_brackets_table(s, fs)
    &&& forall|fs: FilingStatus| #[trigger] c.deduction_for(fs) == state_deduction_table(s, fs)
    &&& c.sdi_rate == sdi_rate_table(s)
    &&& c.sdi_wage_base == sdi_wage_base_table(s)
    &&& local_rate_of(c) == local_rate_table(s)
}

/// Federal brackets by filing status.
fn build_federal_brackets_2024() -> (r: Vec<FilingBrackets>)
    ensures
        forall|i: int| 0 <= i < r@.len() ==> brackets_in_range((#[trigger] r@[i]).brackets@),
        forall|fs: FilingStatus| #[trigger] brackets_from(r@, fs, 0) == federal_table(fs),
{
    let mut r: Vec<FilingBrackets> = Vec::new();
    push_filing(&mut r, FilingStatus::Single, federal_single());
    push_filing(&mut r, FilingStatus::MarriedFilingJointly, federal_joint());
    push_filing(&mut r, FilingStatus::MarriedFilingSeparately, federal_separate());
    push_filing(&mut r, FilingStatus::HeadOfHousehold, federal_head());
    push_filing(&mut r, FilingStatus::QualifyingWidower, federal_joint());
    proof {
        reveal_with_fuel(brackets_from, 6);
        assert forall|fs: FilingStatus| #[trigger] brackets_from(r@, fs, 0) == federal_table(fs) by {
            assert(r@[0].filing_status == FilingStatus::Single);
            assert(r@[1].filing_status == FilingStatus::MarriedFilingJointly);
            assert(r@[2].filing_status == FilingStatus::MarriedFilingSeparately);
            assert(r@[3].filing_status == FilingStatus::HeadOfHousehold);
            assert(r@[4].filing_status == FilingStatus::QualifyingWidower);
        }
    }
    r
}

/// Federal standard deductions by filing status.
fn build_standard_deductions_2024() -> (r: Vec<FilingDeduction>)
    ensures
        forall|i: int|
            0 <= i < r@.len() ==> is_amount((#[trigger] r@[i]).amount) && r@[i].amount.value() >= 0,
        forall|fs: FilingStatus| #[trigger] deduction_or(r@, fs, 0, fallback_deduction())
            == standard_deduction_table(fs),
{
    let mut r: Vec<FilingDeduction> = Vec::new();
    push_deduction(&mut r, FilingStatus::Single, amount(14600, 0));
    push_deduction(&mut r, FilingStatus::MarriedFilingJointly, amount(29200, 0));
    push_deduction(&mut r, FilingStatus::MarriedFilingSeparately, amount(14600, 0));
    push_deduction(&mut r, FilingStatus::HeadOfHousehold, amount(21900, 0));
    push_deduction(&mut r, FilingStatus::QualifyingWidower, amount(29200, 0));
    proof {
        reveal_with_fuel(deduction_or, 6);
        assert forall|fs: FilingStatus| #[trigger] deduction_or(r@, fs, 0, fallback_deduction())
            == standard_deduction_table(fs) by {
            assert(r@[0].filing_status == FilingStatus::Single);
            assert(r@[1].filing_status == FilingStatus::MarriedFilingJointly);
            assert(r@[2].filing_status == FilingStatus::MarriedFilingSeparately);
            assert(r@[3].filing_status == FilingStatus::HeadOfHousehold);
            assert(r@[4].filing_status == FilingStatus::QualifyingWidower);
        }
    }
    r
}

fn build_fica_config_2024() -> (r: FicaConfig)
    ensures
        r.in_range(),
        r == fica_table(),
{
    FicaConfig {
        social_security_rate: rate(62, 3),
        wage_base: amount(168600, 0),
        medicare_rate: rate(145, 4),
        additional_medicare_rate: rate(9, 3),
    }
}

/// A configuration with no brackets, deductions, disability or local tax.
fn bare_config(state: USState, tax_type: StateTaxType) -> (r: StateConfig)
    ensures
        r.in_range(),
        r.state_code@ == state.code_spec(),
        r.tax_type == tax_type,
        r.flat_rate is None,
        r.brackets@.len() == 0,
        r.standard_deduction is None,
        r.sdi_rate is None,
        r.sdi_wage_base is None,
        r.local_tax_info is None,
{
    StateConfig {
        state_code: state.code().to_owned(),
        tax_type,
        flat_rate: None,
        brackets: Vec::new(),
        standard_deduction: None,
        sdi_rate: None,
        sdi_wage_base: None,
        local_tax_info: None,
    }
}

fn flat_tax_config(state: USState, flat_rate: Dec) -> (r: StateConfig)
    requires
        is_rate(flat_rate),
        state.has_flat_tax_spec(),
        flat_rate_table(state) == Some(flat_rate),
    ensures
        r.in_range(),
        state_config_matches(r, state),
{
    let mut c = bare_config(state, StateTaxType::FlatRate);
    c.flat_rate = Some(flat_rate);
    proof {
        reveal_with_fuel(brackets_from, 2);
    }
    c
}

/// A progressive configuration from bracket and deduction tables.
fn progressive_config(
    state: USState,
    brackets: Vec<FilingBrackets>,
    standard_deduction: Option<Vec<FilingDeduction>>,
) -> (r: StateConfig)
    requires
        forall|i: int|
            0 <= i < brackets@.len() ==> brackets_in_range((#[trigger] brackets@[i]).brackets@),
        standard_deduction matches Some(d) ==> forall|i: int|
            0 <= i < d@.len() ==> is_amount((#[trigger] d@[i]).amount) && d@[i].amount.value()
                >= 0,
        distinct_filings(brackets@),
        standard_deduction matches Some(d) ==> distinct_deductions(d@),
    ensures
        r.in_range(),
        r.state_code@ == state.code_spec(),
        r.tax_type == StateTaxType::Progressive,
        r.flat_rate is None,
        r.brackets == brackets,
        r.standard_deduction == standard_deduction,
        r.sdi_rate is None,
        r.sdi_wage_base is None,
        r.local_tax_info is None,
{
    let mut c = bare_config(state, StateTaxType::Progressive);
    c.brackets = brackets;
    c.standard_deduction = standard_deduction;
    c
}

/// Standard deductions for single and joint filers, in whole dollars.
fn deductions(single: i64, joint: i64) -> (r: Vec<FilingDeduction>)
    requires
        0 <= single <= AMOUNT_LIMIT,
        0 <= joint <= AMOUNT_LIMIT,
    ensures
        forall|i: int|
            0 <= i < r@.len() ==> is_amount((#[trigger] r@[i]).amount) && r@[i].amount.value() >= 0,
        distinct_deductions(r@),
        forall|fs: FilingStatus| #[trigger] deduction_from(r@, fs, 0) == if fs == FilingStatus::Single {
            single * pow10(28)
        } else if fs == FilingStatus::MarriedFilingJointly {
            joint * pow10(28)
        } else {
            0
        },
{
    let mut r: Vec<FilingDeduction> = Vec::new();
    push_deduction(&mut r, FilingStatus::Single, amount(single, 0));
    push_deduction(&mut r, FilingStatus::MarriedFilingJointly, amount(joint, 0));
    proof {
        reveal_with_fuel(deduction_from, 3);
        assert(r@[0].filing_status == FilingStatus::Single);
        assert(r@[1].filing_status == FilingStatus::MarriedFilingJointly);
        assert(pow10((28 - 0) as nat) == pow10(28));
    }
    r
}

/// A table with single-filer brackets only.
fn single_table(v: Vec<TaxBracket>) -> (r: Vec<FilingBrackets>)
    requires
        brackets_in_range(v@),
    ensures
        forall|i: int| 0 <= i < r@.len() ==> brackets_in_range((#[trigger] r@[i]).brackets@),
        distinct_filings(r@),
        forall|fs: FilingStatus| #[trigger] brackets_from(r@, fs, 0) == if fs == FilingStatus::Single {
            v@
        } else {
            Seq::<TaxBracket>::empty()
        },
{
    let ghost vv = v@;
    let mut r: Vec<FilingBrackets> = Vec::new();
    push_filing(&mut r, FilingStatus::Single, v);
    proof {
        reveal_with_fuel(brackets_from, 2);
        assert(r@[0].filing_status == FilingStatus::Single && r@[0].brackets@ == vv);
    }
    r
}

/// A progressive jurisdiction with single-filer brackets and optional deductions.
fn single_progressive(state: USState, v: Vec<TaxBracket>, ded: Option<(i64, i64)>) -> (r: StateConfig)
    requires
        brackets_in_range(v@),
        !state.has_no_income_tax_spec(),
        !state.has_flat_tax_spec(),
        state != USState::California,
        forall|fs: FilingStatus| #[trigger] state_brackets_table(state, fs) == if fs
            == FilingStatus::Single {
            v@
        } else {
            Seq::<TaxBracket>::empty()
        },
        ded matches Some(d) ==> 0 <= d.0 <= AMOUNT_LIMIT && 0 <= d.1 <= AMOUNT_LIMIT,
        state_deductions_table(state) == match ded {
            Some(d) => Some((d.0 as int, d.1 as int)),
            None => None::<(int, int)>,
        },
    ensures
        r.in_range(),
        r.state_code@ == state.code_spec(),
        r.tax_type == StateTaxType::Progressive,
        r.flat_rate is None,
        forall|fs: FilingStatus| #[trigger] r.brackets_for(fs) == state_brackets_table(state, fs),
        forall|fs: FilingStatus| #[trigger] r.deduction_for(fs) == state_deduction_table(state, fs),
        r.sdi_rate is None,
        r.sdi_wage_base is None,
        r.local_tax_info is None,
{
    let entries = single_table(v);
    let d = match ded {
        Some((a, b)) => Some(deductions(a, b)),
        None => None,
    };
    progressive_config(state, entries, d)
}

fn california_config() -> (r: StateConfig)
    ensures
        r.in_range(),
        state_config_matches(r, USState::California),
{
    let mut brackets: Vec<FilingBrackets> = Vec::new();
    push_filing(&mut brackets, FilingStatus::Single, california_single());
    push_filing(&mut brackets, FilingStatus::MarriedFilingJointly, california_joint());
    proof {
        reveal_with_fuel(brackets_from, 3);
        assert(brackets@[0].filing_status == FilingStatus::Single);
        assert(brackets@[1].filing_status == FilingStatus::MarriedFilingJointly);
        assert forall|fs: FilingStatus| #[trigger] brackets_from(brackets@, fs, 0)
            == state_brackets_table(USState::California, fs) by {}
    }
    let mut c = progressive_config(USState::California, brackets, Some(deductions(5363, 10726)));
    c.sdi_rate = Some(rate(11, 3));
    c.sdi_wage_base = Some(amount(153164, 0));
    c
}

fn new_york_config() -> (r: StateConfig)
    ensures
        r.in_range(),
        state_config_matches(r, USState::NewYork),
{
    let mut c = single_progressive(USState::NewYork, new_york_single(), Some((8000, 16050)));
    let ghost before = c;
    c.local_tax_info = Some(LocalTaxInfo { has_local_tax: true, average_rate: Some(rate(35, 3)) });
    proof {
        assert forall|fs: FilingStatus| #[trigger] c.brackets_for(fs) == state_brackets_table(
            USState::NewYork,
            fs,
        ) by {
            assert(c.brackets_for(fs) == before.brackets_for(fs));
        }
        assert forall|fs: FilingStatus| #[trigger] c.deduction_for(fs) == state_deduction_table(
            USState::NewYork,
            fs,
        ) by {
            assert(c.deduction_for(fs) == before.deduction_for(fs));
        }
    }
    c
}

fn new_jersey_config() -> (r: StateConfig)
    ensures
        r.in_range(),
        state_config_matches(r, USState::NewJersey),
{
    let mut c = single_progressive(USState::NewJersey, new_jersey_single(), None);
    let ghost before = c;
    c.sdi_rate = Some(rate(14, 4));
    proof {
        assert forall|fs: FilingStatus| #[trigger] c.brackets_for(fs) == state_brackets_table(
            USState::NewJersey,
            fs,
        ) by {
            assert(c.brackets_for(fs) == before.brackets_for(fs));
        }
        assert forall|fs: FilingStatus| #[trigger] c.deduction_for(fs) == state_deduction_table(
            USState::NewJersey,
            fs,
        ) by {
            assert(c.deduction_for(fs) == before.deduction_for(fs));
        }
    }
    c
}

/// The 2024 configuration of one jurisdiction.
fn state_config_2024(state: USState) -> (r: StateConfig)
    ensures
        r.in_range(),
        state_config_matches(r, state),
{
    match state {
        USState::Alaska | USState::Florida | USState::Nevada | USState::NewHampshire
        | USState::SouthDakota | USState::Tennessee | USState::Texas | USState::Washington
        | USState::Wyoming => {
            let c = bare_config(state, StateTaxType::NoTax);
            proof {
                reveal_with_fuel(brackets_from, 2);
            }
            c
        },
        USState::Colorado => flat_tax_config(state, rate(44, 3)),
        USState::Illinois => flat_tax_config(state, rate(495, 4)),
        USState::Indiana => flat_tax_config(state, rate(305, 4)),
        USState::Kentucky => flat_tax_config(state, rate(4, 2)),
        USState::Massachusetts => flat_tax_config(state, rate(5, 2)),
        USState::Michigan => flat_tax_config(state, rate(425, 4)),
        USState::NorthCarolina => flat_tax_config(state, rate(525, 4)),
        USState::Pennsylvania => flat_tax_config(state, rate(307, 4)),
        USState::Utah => flat_tax_config(state, rate(465, 4)),
        USState::California => california_config(),
        USState::NewYork => new_york_config(),
        USState::NewJersey => new_jersey_config(),
        USState::Arizona => single_progressive(state, arizona_single(), None),
        USState::Georgia => single_progressive(state, georgia_single(), Some((12000, 24000))),
        USState::Minnesota => single_progressive(state, minnesota_single(), Some((14575, 29150))),
        USState::Oregon => single_progressive(state, oregon_single(), Some((2605, 5210))),
        USState::Virginia => single_progressive(state, virginia_single(), Some((8500, 17000))),
        _ => {
            let mut v: Vec<TaxBracket> = Vec::new();
            push_bracket(&mut v, TaxBracket::new(amount(0, 0), None, rate(5, 2), amount(0, 0)));
            assert(v@ =~= default_single_table());
            single_progressive(state, v, None)
        },
    }
}

/// Configurations of all jurisdictions, in alphabetical order.
fn build_state_configs_2024() -> (r: Vec<StateConfig>)
    ensures
        r@.len() == STATE_COUNT,
        forall|i: int| 0 <= i < r@.len() ==> (#[trigger] r@[i]).in_range(),
        forall|s: USState| state_config_matches(#[trigger] r@[s.index_spec()], s),
{
    let mut r: Vec<StateConfig> = Vec::new();
    let mut i: usize = 0;
    while i < STATE_COUNT
        invariant
            i <= STATE_COUNT,
            r@.len() == i,
            forall|j: int| 0 <= j < r@.len() ==> (#[trigger] r@[j]).in_range(),
            forall|s: USState| s.index_spec() < i ==> state_config_matches(
                #[trigger] r@[s.index_spec()],
                s,
            ),
        decreases STATE_COUNT - i,
    {
        let st = USState::from_index(i);
        r.push(state_config_2024(st));
        proof {
            assert forall|s: USState| s.index_spec() < i + 1 implies state_config_matches(
                #[trigger] r@[s.index_spec()],
                s,
            ) by {
                if s.index_spec() == i {
                    assert(s == st);
                }
            }
        }
        i = i + 1;
    }
    proof {
        assert forall|s: USState| state_config_matches(#[trigger] r@[s.index_spec()], s) by {
            assert(s.index_spec() < STATE_COUNT);
        }
    }
    r
}

/// Standard deduction of the first entry for `fs` at or after position `i`;
/// `default` when there is none.
pub open spec fn deduction_or(
    entries: Seq<FilingDeduction>,
    fs: FilingStatus,
    i: int,
    default: Dec,
) -> Dec
    decreases entries.len() - i,
{
    if i < 0 || i >= entries.len() {
        default
    } else if entries[i].filing_status == fs {
        entries[i].amount
    } else {
        deduction_or(entries, fs, i + 1, default)
    }
}

/// Standard deduction used for a filing status missing from the table.
pub open spec fn fallback_deduction() -> Dec {
    Dec { mantissa: 14600, scale: 0 }
}

proof fn lemma_table_scales()
    ensures
        pow10(28) == 10000000000000000000000000000,
        pow10(26) == 100000000000000000000000000,
        pow10((28 - 0) as nat) == pow10(28),
        pow10((28 - 2) as nat) == pow10(26),
{
    reveal_with_fuel(pow10, 29);
}

proof fn lemma_federal_single_well_formed()
    ensures
        brackets_well_formed(federal_single_table()),
{
    lemma_table_scales();
    let bs = federal_single_table();
    assert forall|i: int| 0 <= i < bs.len() - 1 implies {
        &&& (#[trigger] bs[i]).ceiling matches Some(c) && c.value() == bs[i + 1].floor.value()
        &&& bs[i].floor.value() < bs[i + 1].floor.value()
        &&& bs[i + 1].base_tax.value() * pow10(28) == bs[i].base_tax.value() * pow10(28) + (
        bs[i + 1].floor.value() - bs[i].floor.value()) * bs[i].rate.value()
    } by {
        if i == 0 {
            let b1 = bs[1].base_tax.value();
            let b0 = bs[0].base_tax.value();
            let f1 = bs[1].floor.value();
            let f0 = bs[0].floor.value();
            let r0 = bs[0].rate.value();
            assert(b1 == 11600000000000000000000000000000 && b0 == 0 && f1 == 116000000000000000000000000000000 && f0 == 0 && r0 == 1000000000000000000000000000);
            assert(b1 * pow10(28) == b0 * pow10(28) + (f1 - f0) * r0) by (nonlinear_arith)
                requires
                    b1 == 11600000000000000000000000000000,
                    b0 == 0,
                    f1 == 116000000000000000000000000000000,
                    f0 == 0,
                    r0 == 1000000000000000000000000000,
                    pow10(28) == 10000000000000000000000000000,
            ;
        } else if i == 1 {
            let b1 = bs[2].base_tax.value();
            let b0 = bs[1].base_tax.value();
            let f1 = bs[2].floor.value();
            let f0 = bs[1].floor.value();
            let r0 = bs[1].rate.value();
            assert(b1 == 54260000000000000000000000000000 && b0 == 11600000000000000000000000000000 && f1 == 471500000000000000000000000000000 && f0 == 116000000000000000000000000000000 && r0 == 1200000000000000000000000000);
            assert(b1 * pow10(28) == b0 * pow10(28) + (f1 - f0) * r0) by (nonlinear_arith)
                requires
                    b1 == 54260000000000000000000000000000,
                    b0 == 11600000000000000000000000000000,
                    f1 == 471500000000000000000000000000000,
                    f0 == 116000000000000000000000000000000,
                    r0 == 1200000000000000000000000000,
                    pow10(28) == 10000000000000000000000000000,
            ;
        } else if i == 2 {
            let b1 = bs[3].base_tax.value();
            let b0 = bs[2].base_tax.value();
            let f1 = bs[3].floor.value();
            let f0 = bs[2].floor.value();
            let r0 = bs[2].rate.value();
            assert(b1 == 171685000000000000000000000000000 && b0 == 54260000000000000000000000000000 && f1 == 1005250000000000000000000000000000 && f0 == 471500000000000000000000000000000 && r0 == 2200000000000000000000000000);
            assert(b1 * pow10(28) == b0 * pow10(28) + (f1 - f0) * r0) by (nonlinear_arith)
                requires
                    b1 == 171685000000000000000000000000000,
                    b0 == 54260000000000000000000000000000,
                    f1 == 1005250000000000000000000000000000,
                    f0 == 471500000000000000000000000000000,
                    r0 == 2200000000000000000000000000,
                    pow10(28) == 10000000000000000000000000000,
            ;
        } else if i == 3 {
            let b1 = bs[4].base_tax.value();
            let b0 = bs[3].base_tax.value();
            let f1 = bs[4].floor.value();
            let f0 = bs[3].floor.value();
            let r0 = bs[3].rate.value();
            assert(b1 == 391105000000000000000000000000000 && b0 == 171685000000000000000000000000000 && f1 == 1919500000000000000000000000000000 && f0 == 1005250000000000000000000000000000 && r0 == 2400000000000000000000000000);
            assert(b1 * pow10(28) == b0 * pow10(28) + (f1 - f0) * r0) by (nonlinear_arith)
                requires
                    b1 == 391105000000000000000000000000000,
                    b0 == 171685000000000000000000000000000,
                    f1 == 1919500000000000000000000000000000,
                    f0 == 1005250000000000000000000000000000,
                    r0 == 2400000000000000000000000000,
                    pow10(28) == 10000000000000000000000000000,
            ;
        } else if i == 4 {
            let b1 = bs[5].base_tax.value();
            let b0 = bs[4].base_tax.value();
            let f1 = bs[5].floor.value();
            let f0 = bs[4].floor.value();
            let r0 = bs[4].rate.value();
            assert(b1 == 556785000000000000000000000000000 && b0 == 391105000000000000000000000000000 && f1 == 2437250000000000000000000000000000 && f0 == 1919500000000000000000000000000000 && r0 == 3200000000000000000000000000);
            assert(b1 * pow10(28) == b0 * pow10(28) + (f1 - f0) * r0) by (nonlinear_arith)
                requires
                    b1 == 556785000000000000000000000000000,
                    b0 == 391105000000000000000000000000000,
                    f1 == 2437250000000000000000000000000000,
                    f0 == 1919500000000000000000000000000000,
                    r0 == 3200000000000000000000000000,
                    pow10(28) == 10000000000000000000000000000,
            ;
        } else if i == 5 {
            let b1 = bs[6].base_tax.value();
            let b0 = bs[5].base_tax.value();
            let f1 = bs[6].floor.value();
            let f0 = bs[5].floor.value();
            let r0 = bs[5].rate.value();
            assert(b1 == 1836472500000000000000000000000000 && b0 == 556785000000000000000000000000000 && f1 == 6093500000000000000000000000000000 && f0 == 2437250000000000000000000000000000 && r0 == 3500000000000000000000000000);
            assert(b1 * pow10(28) == b0 * pow10(28) + (f1 - f0) * r0) by (nonlinear_arith)
                requires
                    b1 == 1836472500000000000000000000000000,
                    b0 == 556785000000000000000000000000000,
                    f1 == 6093500000000000000000000000000000,
                    f0 == 2437250000000000000000000000000000,
                    r0 == 3500000000000000000000000000,
                    pow10(28) == 10000000000000000000000000000,
            ;
        }
    }
}

proof fn lemma_federal_joint_well_formed()
    ensures
        brackets_well_formed(federal_joint_table()),
{
    lemma_table_scales();
    let bs = federal_joint_table();
    assert forall|i: int| 0 <= i < bs.len() - 1 implies {
        &&& (#[trigger] bs[i]).ceiling matches Some(c) && c.value() == bs[i + 1].floor.value()
        &&& bs[i].floor.value() < bs[i + 1].floor.value()
        &&& bs[i + 1].base_tax.value() * pow10(28) == bs[i].base_tax.value() * pow10(28) + (
        bs[i + 1].floor.value() - bs[i].floor.value()) * bs[i].rate.value()
    } by {
        if i == 0 {
            let b1 = bs[1].base_tax.value();
            let b0 = bs[0].base_tax.value();
            let f1 = bs[1].floor.value();
            let f0 = bs[0].floor.value();
            let r0 = bs[0].rate.value();
            assert(b1 == 23200000000000000000000000000000 && b0 == 0 && f1 == 232000000000000000000000000000000 && f0 == 0 && r0 == 1000000000000000000000000000);
            assert(b1 * pow10(28) == b0 * pow10(28) + (f1 - f0) * r0) by (nonlinear_arith)
                requires
                    b1 == 23200000000000000000000000000000,
                    b0 == 0,
                    f1 == 232000000000000000000000000000000,
                    f0 == 0,
                    r0 == 1000000000000000000000000000,
                    pow10(28) == 10000000000000000000000000000,
            ;
        } else if i == 1 {
            let b1 = bs[2].base_tax.value();
            let b0 = bs[1].base_tax.value();
            let f1 = bs[2].floor.value();
            let f0 = bs[1].floor.value();
            let r0 = bs[1].rate.value();
            assert(b1 == 108520000000000000000000000000000 && b0 == 23200000000000000000000000000000 && f1 == 943000000000000000000000000000000 && f0 == 232000000000000000000000000000000 && r0 == 1200000000000000000000000000);
            assert(b1 * pow10(28) == b0 * pow10(28) + (f1 - f0) * r0) by (nonlinear_arith)
                requires
                    b1 == 108520000000000000000000000000000,
                    b0 == 23200000000000000000000000000000,
                    f1 == 943000000000000000000000000000000,
                    f0 == 232000000000000000000000000000000,
                    r0 == 1200000000000000000000000000,
                    pow10(28) == 10000000000000000000000000000,
            ;
        } else if i == 2 {
            let b1 = bs[3].base_tax.value();
            let b0 = bs[2].base_tax.value();
            let f1 = bs[3].floor.value();
            let f0 = bs[2].floor.value();
            let r0 = bs[2].rate.value();
            assert(b1 == 343370000000000000000000000000000 && b0 == 108520000000000000000000000000000 && f1 == 2010500000000000000000000000000000 && f0 == 943000000000000000000000000000000 && r0 == 2200000000000000000000000000);
            assert(b1 * pow10(28) == b0 * pow10(28) + (f1 - f0) * r0) by (nonlinear_arith)
                requires
                    b1 == 343370000000000000000000000000000,
                    b0 == 108520000000000000000000000000000,
                    f1 == 2010500000000000000000000000000000,
                    f0 == 943000000000000000000000000000000,
                    r0 == 2200000000000000000000000000,
                    pow10(28) == 10000000000000000000000000000,
            ;
        } else if i == 3 {
            let b1 = bs[4].base_tax.value();
            let b0 = bs[3].base_tax.value();
            let f1 = bs[4].floor.value();
            let f0 = bs[3].floor.value();
            let r0 = bs[3].rate.value();
            assert(b1 == 782210000000000000000000000000000 && b0 == 343370000000000000000000000000000 && f1 == 3839000000000000000000000000000000 && f0 == 2010500000000000000000000000000000 && r0 == 2400000000000000000000000000);
            assert(b1 * pow10(28) == b0 * pow10(28) + (f1 - f0) * r0) by (nonlinear_arith)
                requires
                    b1 == 782210000000000000000000000000000,
                    b0 == 343370000000000000000000000000000,
                    f1 == 3839000000000000000000000000000000,
                    f0 == 2010500000000000000000000000000000,
                    r0 == 2400000000000000000000000000,
                    pow10(28) == 10000000000000000000000000000,
            ;
        } else if i == 4 {
            let b1 = bs[5].base_tax.value();
            let b0 = bs[4].base_tax.value();
            let f1 = bs[5].floor.value();
            let f0 = bs[4].floor.value();
            let r0 = bs[4].rate.value();
            assert(b1 == 1113570000000000000000000000000000 && b0 == 782210000000000000000000000000000 && f1 == 4874500000000000000000000000000000 && f0 == 3839000000000000000000000000000000 && r0 == 3200000000000000000000000000);
            assert(b1 * pow10(28) == b0 * pow10(28) + (f1 - f0) * r0) by (nonlinear_arith)
                requires
                    b1 == 1113570000000000000000000000000000,
                    b0 == 782210000000000000000000000000000,
                    f1 == 4874500000000000000000000000000000,
                    f0 == 3839000000000000000000000000000000,
                    r0 == 3200000000000000000000000000,
                    pow10(28) == 10000000000000000000000000000,
            ;
        } else if i == 5 {
            let b1 = bs[6].base_tax.value();
            let b0 = bs[5].base_tax.value();
            let f1 = bs[6].floor.value();
            let f0 = bs[5].floor.value();
            let r0 = bs[5].rate.value();
            assert(b1 == 1966695000000000000000000000000000 && b0 == 1113570000000000000000000000000000 && f1 == 7312000000000000000000000000000000 && f0 == 4874500000000000000000000000000000 && r0 == 3500000000000000000000000000);
            assert(b1 * pow10(28) == b0 * pow10(28) + (f1 - f0) * r0) by (nonlinear_arith)
                requires
                    b1 == 1966695000000000000000000000000000,
                    b0 == 1113570000000000000000000000000000,
                    f1 == 7312000000000000000000000000000000,
                    f0 == 4874500000000000000000000000000000,
                    r0 == 3500000000000000000000000000,
                    pow10(28) == 10000000000000000000000000000,
            ;
        }
    }
}

proof fn lemma_federal_separate_well_formed()
    ensures
        brackets_well_formed(federal_separate_table()),
{
    lemma_table_scales();
    let bs = federal_separate_table();
    assert forall|i: int| 0 <= i < bs.len() - 1 implies {
        &&& (#[trigger] bs[i]).ceiling matches Some(c) && c.value() == bs[i + 1].floor.value()
        &&& bs[i].floor.value() < bs[i + 1].floor.value()
        &&& bs[i + 1].base_tax.value() * pow10(28) == bs[i].base_tax.value() * pow10(28) + (
        bs[i + 1].floor.value() - bs[i].floor.value()) * bs[i].rate.value()
    } by {
        if i == 0 {
            let b1 = bs[1].base_tax.value();
            let b0 = bs[0].base_tax.value();
            let f1 = bs[1].floor.value();
            let f0 = bs[0].floor.value();
            let r0 = bs[0].rate.value();
            assert(b1 == 11600000000000000000000000000000 && b0 == 0 && f1 == 116000000000000000000000000000000 && f0 == 0 && r0 == 1000000000000000000000000000);
            assert(b1 * pow10(28) == b0 * pow10(28) + (f1 - f0) * r0) by (nonlinear_arith)
                requires
                    b1 == 11600000000000000000000000000000,
                    b0 == 0,
                    f1 == 116000000000000000000000000000000,
                    f0 == 0,
                    r0 == 1000000000000000000000000000,
                    pow10(28) == 10000000000000000000000000000,
            ;
        } else if i == 1 {
            let b1 = bs[2].base_tax.value();
            let b0 = bs[1].base_tax.value();
            let f1 = bs[2].floor.value();
            let f0 = bs[1].floor.value();
            let r0 = bs[1].rate.value();
            assert(b1 == 54260000000000000000000000000000 && b0 == 11600000000000000000000000000000 && f1 == 471500000000000000000000000000000 && f0 == 116000000000000000000000000000000 && r0 == 1200000000000000000000000000);
            assert(b1 * pow10(28) == b0 * pow10(28) + (f1 - f0) * r0) by (nonlinear_arith)
                requires
                    b1 == 54260000000000000000000000000000,
                    b0 == 11600000000000000000000000000000,
                    f1 == 471500000000000000000000000000000,
                    f0 == 116000000000000000000000000000000,
                    r0 == 1200000000000000000000000000,
                    pow10(28) == 10000000000000000000000000000,
            ;
        } else if i == 2 {
            let b1 = bs[3].base_tax.value();
            let b0 = bs[2].base_tax.value();
            let f1 = bs[3].floor.value();
            let f0 = bs[2].floor.value();
            let r0 = bs[2].rate.value();
            assert(b1 == 171685000000000000000000000000000 && b0 == 54260000000000000000000000000000 && f1 == 1005250000000000000000000000000000 && f0 == 471500000000000000000000000000000 && r0 == 2200000000000000000000000000);
            assert(b1 * pow10(28) == b0 * pow10(28) + (f1 - f0) * r0) by (nonlinear_arith)
                requires
                    b1 == 171685000000000000000000000000000,
                    b0 == 54260000000000000000000000000000,
                    f1 == 1005250000000000000000000000000000,
                    f0 == 471500000000000000000000000000000,
                    r0 == 2200000000000000000000000000,
                    pow10(28) == 10000000000000000000000000000,
            ;
        } else if i == 3 {
            let b1 = bs[4].base_tax.value();
            let b0 = bs[3].base_tax.value();
            let f1 = bs[4].floor.value();
            let f0 = bs[3].floor.value();
            let r0 = bs[3].rate.value();
            assert(b1 == 391105000000000000000000000000000 && b0 == 171685000000000000000000000000000 && f1 == 1919500000000000000000000000000000 && f0 == 1005250000000000000000000000000000 && r0 == 2400000000000000000000000000);
            assert(b1 * pow10(28) == b0 * pow10(28) + (f1 - f0) * r0) by (nonlinear_arith)
                requires
                    b1 == 391105000000000000000000000000000,
                    b0 == 171685000000000000000000000000000,
                    f1 == 1919500000000000000000000000000000,
                    f0 == 1005250000000000000000000000000000,
                    r0 == 2400000000000000000000000000,
                    pow10(28) == 10000000000000000000000000000,
            ;
        } else if i == 4 {
            let b1 = bs[5].base_tax.value();
            let b0 = bs[4].base_tax.value();
            let f1 = bs[5].floor.value();
            let f0 = bs[4].floor.value();
            let r0 = bs[4].rate.value();
            assert(b1 == 556785000000000000000000000000000 && b0 == 391105000000000000000000000000000 && f1 == 2437250000000000000000000000000000 && f0 == 1919500000000000000000000000000000 && r0 == 3200000000000000000000000000);
            assert(b1 * pow10(28) == b0 * pow10(28) + (f1 - f0) * r0) by (nonlinear_arith)
                requires
                    b1 == 556785000000000000000000000000000,
                    b0 == 391105000000000000000000000000000,
                    f1 == 2437250000000000000000000000000000,
                    f0 == 1919500000000000000000000000000000,
                    r0 == 3200000000000000000000000000,
                    pow10(28) == 10000000000000000000000000000,
            ;
        } else if i == 5 {
            let b1 = bs[6].base_tax.value();
            let b0 = bs[5].base_tax.value();
            let f1 = bs[6].floor.value();
            let f0 = bs[5].floor.value();
            let r0 = bs[5].rate.value();
            assert(b1 == 983347500000000000000000000000000 && b0 == 556785000000000000000000000000000 && f1 == 3656000000000000000000000000000000 && f0 == 2437250000000000000000000000000000 && r0 == 3500000000000000000000000000);
            assert(b1 * pow10(28) == b0 * pow10(28) + (f1 - f0) * r0) by (nonlinear_arith)
                requires
                    b1 == 983347500000000000000000000000000,
                    b0 == 556785000000000000000000000000000,
                    f1 == 3656000000000000000000000000000000,
                    f0 == 2437250000000000000000000000000000,
                    r0 == 3500000000000000000000000000,
                    pow10(28) == 10000000000000000000000000000,
            ;
        }
    }
}

proof fn lemma_federal_head_well_formed()
    ensures
        brackets_well_formed(federal_head_table()),
{
    lemma_table_scales();
    let bs = federal_head_table();
    assert forall|i: int| 0 <= i < bs.len() - 1 implies {
        &&& (#[trigger] bs[i]).ceiling matches Some(c) && c.value() == bs[i + 1].floor.value()
        &&& bs[i].floor.value() < bs[i + 1].floor.value()
        &&& bs[i + 1].base_tax.value() * pow10(28) == bs[i].base_tax.value() * pow10(28) + (
        bs[i + 1].floor.value() - bs[i].floor.value()) * bs[i].rate.value()
    } by {
        if i == 0 {
            let b1 = bs[1].base_tax.value();
            let b0 = bs[0].base_tax.value();
            let f1 = bs[1].floor.value();
            let f0 = bs[0].floor.value();
            let r0 = bs[0].rate.value();
            assert(b1 == 16550000000000000000000000000000 && b0 == 0 && f1 == 165500000000000000000000000000000 && f0 == 0 && r0 == 1000000000000000000000000000);
            assert(b1 * pow10(28) == b0 * pow10(28) + (f1 - f0) * r0) by (nonlinear_arith)
                requires
                    b1 == 16550000000000000000000000000000,
                    b0 == 0,
                    f1 == 165500000000000000000000000000000,
                    f0 == 0,
                    r0 == 1000000000000000000000000000,
                    pow10(28) == 10000000000000000000000000000,
            ;
        } else if i == 1 {
            let b1 = bs[2].base_tax.value();
            let b0 = bs[1].base_tax.value();
            let f1 = bs[2].floor.value();
            let f0 = bs[1].floor.value();
            let r0 = bs[1].rate.value();
            assert(b1 == 72410000000000000000000000000000 && b0 == 16550000000000000000000000000000 && f1 == 631000000000000000000000000000000 && f0 == 165500000000000000000000000000000 && r0 == 1200000000000000000000000000);
            assert(b1 * pow10(28) == b0 * pow10(28) + (f1 - f0) * r0) by (nonlinear_arith)
                requires
                    b1 == 72410000000000000000000000000000,
                    b0 == 16550000000000000000000000000000,
                    f1 == 631000000000000000000000000000000,
                    f0 == 165500000000000000000000000000000,
                    r0 == 1200000000000000000000000000,
                    pow10(28) == 10000000000000000000000000000,
            ;
        } else if i == 2 {
            let b1 = bs[3].base_tax.value();
            let b0 = bs[2].base_tax.value();
            let f1 = bs[3].floor.value();
            let f0 = bs[2].floor.value();
            let r0 = bs[2].rate.value();
            assert(b1 == 154690000000000000000000000000000 && b0 == 72410000000000000000000000000000 && f1 == 1005000000000000000000000000000000 && f0 == 631000000000000000000000000000000 && r0 == 2200000000000000000000000000);
            assert(b1 * pow10(28) == b0 * pow10(28) + (f1 - f0) * r0) by (nonlinear_arith)
                requires
                    b1 == 154690000000000000000000000000000,
                    b0 == 72410000000000000000000000000000,
                    f1 == 1005000000000000000000000000000000,
                    f0 == 631000000000000000000000000000000,
                    r0 == 2200000000000000000000000000,
                    pow10(28) == 10000000000000000000000000000,
            ;
        } else if i == 3 {
            let b1 = bs[4].base_tax.value();
            let b0 = bs[3].base_tax.value();
            let f1 = bs[4].floor.value();
            let f0 = bs[3].floor.value();
            let r0 = bs[3].rate.value();
            assert(b1 == 374170000000000000000000000000000 && b0 == 154690000000000000000000000000000 && f1 == 1919500000000000000000000000000000 && f0 == 1005000000000000000000000000000000 && r0 == 2400000000000000000000000000);
            assert(b1 * pow10(28) == b0 * pow10(28) + (f1 - f0) * r0) by (nonlinear_arith)
                requires
                    b1 == 374170000000000000000000000000000,
                    b0 == 154690000000000000000000000000000,
                    f1 == 1919500000000000000000000000000000,
                    f0 == 1005000000000000000000000000000000,
                    r0 == 2400000000000000000000000000,
                    pow10(28) == 10000000000000000000000000000,
            ;
        } else if i == 4 {
            let b1 = bs[5].base_tax.value();
            let b0 = bs[4].base_tax.value();
            let f1 = bs[5].floor.value();
            let f0 = bs[4].floor.value();
            let r0 = bs[4].rate.value();
            assert(b1 == 539770000000000000000000000000000 && b0 == 374170000000000000000000000000000 && f1 == 2437000000000000000000000000000000 && f0 == 1919500000000000000000000000000000 && r0 == 3200000000000000000000000000);
            assert(b1 * pow10(28) == b0 * pow10(28) + (f1 - f0) * r0) by (nonlinear_arith)
                requires
                    b1 == 539770000000000000000000000000000,
                    b0 == 374170000000000000000000000000000,
                    f1 == 2437000000000000000000000000000000,
                    f0 == 1919500000000000000000000000000000,
                    r0 == 3200000000000000000000000000,
                    pow10(28) == 10000000000000000000000000000,
            ;
        } else if i == 5 {
            let b1 = bs[6].base_tax.value();
            let b0 = bs[5].base_tax.value();
            let f1 = bs[6].floor.value();
            let f0 = bs[5].floor.value();
            let r0 = bs[5].rate.value();
            assert(b1 == 1819545000000000000000000000000000 && b0 == 539770000000000000000000000000000 && f1 == 6093500000000000000000000000000000 && f0 == 2437000000000000000000000000000000 && r0 == 3500000000000000000000000000);
            assert(b1 * pow10(28) == b0 * pow10(28) + (f1 - f0) * r0) by (nonlinear_arith)
                requires
                    b1 == 1819545000000000000000000000000000,
                    b0 == 539770000000000000000000000000000,
                    f1 == 6093500000000000000000000000000000,
                    f0 == 2437000000000000000000000000000000,
                    r0 == 3500000000000000000000000000,
                    pow10(28) == 10000000000000000000000000000,
            ;
        }
    }
}

/// The 2024 federal tables are well formed: contiguous brackets from zero with
/// cumulative base taxes, so closed form and per-bracket sum agree on them.
pub proof fn lemma_federal_tables_well_formed(fs: FilingStatus)
    ensures
        brackets_well_formed(federal_table(fs)),
{
    lemma_federal_single_well_formed();
    lemma_federal_joint_well_formed();
    lemma_federal_separate_well_formed();
    lemma_federal_head_well_formed();
}

/// The embedded 2024 tax tables.
pub struct EmbeddedTaxData {
    federal_brackets: Vec<FilingBrackets>,
    standard_deductions: Vec<FilingDeduction>,
    fica_config: FicaConfig,
    state_configs: Vec<StateConfig>,
}

impl EmbeddedTaxData {
    #[verifier::type_invariant]
    spec fn tables_in_range(&self) -> bool {
        &&& forall|i: int|
            0 <= i < self.federal_brackets@.len() ==> brackets_in_range(
                (#[trigger] self.federal_brackets@[i]).brackets@,
            )
        &&& forall|i: int|
            0 <= i < self.standard_deductions@.len() ==> is_amount(
                (#[trigger] self.standard_deductions@[i]).amount,
            ) && self.standard_deductions@[i].amount.value() >= 0
        &&& self.fica_config.in_range()
        &&& self.state_configs@.len() == STATE_COUNT
        &&& forall|i: int|
            0 <= i < self.state_configs@.len() ==> (#[trigger] self.state_configs@[i]).in_range()
    }

    /// The provider answers with the 2024 tables, for every year asked.
    pub open spec fn has_2024_tables(&self) -> bool {
        &&& forall|fs: FilingStatus, y: u32| #[trigger] self.federal_brackets_spec(fs, y)
            == federal_table(fs)
        &&& forall|fs: FilingStatus, y: u32| #[trigger] self.standard_deduction_spec(fs, y)
            == standard_deduction_table(fs)
        &&& forall|y: u32| #[trigger] self.fica_config_spec(y) == fica_table()
        &&& forall|s: USState, y: u32| state_config_matches(#[trigger] self.state_config_spec(s, y), s)
    }

    pub fn new() -> (r: EmbeddedTaxData)
        ensures
            r.has_2024_tables(),
    {
        EmbeddedTaxData {
            federal_brackets: build_federal_brackets_2024(),
            standard_deductions: build_standard_deductions_2024(),
            fica_config: build_fica_config_2024(),
            state_configs: build_state_configs_2024(),
        }
    }
}

impl Default for EmbeddedTaxData {
    fn default() -> (r: EmbeddedTaxData)
        ensures
            r.has_2024_tables(),
    {
        EmbeddedTaxData::new()
    }
}

/// The embedded tables. Build them once at the application boundary and pass
/// them to the calculators.
pub fn get_embedded_data() -> (r: EmbeddedTaxData)
    ensures
        r.has_2024_tables(),
{
    EmbeddedTaxData::new()
}

impl TaxDataProvider for EmbeddedTaxData {
    closed spec fn federal_brackets_spec(&self, filing_status: FilingStatus, year: u32) -> Seq<
        TaxBracket,
    > {
        brackets_from(self.federal_brackets@, filing_status, 0)
    }

    closed spec fn standard_deduction_spec(&self, filing_status: FilingStatus, year: u32) -> Dec {
        deduction_or(self.standard_deductions@, filing_status, 0, fallback_deduction())
    }

    closed spec fn fica_config_spec(&self, year: u32) -> FicaConfig {
        self.fica_config
    }

    closed spec fn state_config_spec(&self, state: USState, year: u32) -> StateConfig {
        self.state_configs@[state.index_spec()]
    }

    fn federal_brackets(&self, filing_status: FilingStatus, _year: u32) -> (r: Vec<TaxBracket>) {
        proof {
            use_type_invariant(self);
        }
        let mut i: usize = 0;
        while i < self.federal_brackets.len()
            invariant
                i <= self.federal_brackets@.len(),
                brackets_from(self.federal_brackets@, filing_status, 0) == brackets_from(
                    self.federal_brackets@,
                    filing_status,
                    i as int,
                ),
            decreases self.federal_brackets@.len() - i,
        {
            if self.federal_brackets[i].filing_status == filing_status {
                let r = self.federal_brackets[i].brackets.clone();
                proof {
                    use_type_invariant(self);
                }
                assert(r@ =~= self.federal_brackets@[i as int].brackets@);
                return r;
            }
            i = i + 1;
        }
        Vec::new()
    }

    fn standard_deduction(&self, filing_status: FilingStatus, _year: u32) -> (r: Dec) {
        proof {
            use_type_invariant(self);
            crate::decimal::lemma_pow10_values();
        }
        let mut i: usize = 0;
        while i < self.standard_deductions.len()
            invariant
                i <= self.standard_deductions@.len(),
                deduction_or(self.standard_deductions@, filing_status, 0, fallback_deduction())
                    == deduction_or(
                    self.standard_deductions@,
                    filing_status,
                    i as int,
                    fallback_deduction(),
                ),
            decreases self.standard_deductions@.len() - i,
        {
            if self.standard_deductions[i].filing_status == filing_status {
                proof {
                    use_type_invariant(self);
                }
                return self.standard_deductions[i].amount;
            }
            i = i + 1;
        }
        amount(14600, 0)
    }

    fn fica_config(&self, _year: u32) -> (r: FicaConfig) {
        proof {
            use_type_invariant(self);
        }
        self.fica_config
    }

    fn state_config(&self, state: USState, _year: u32) -> (r: &StateConfig) {
        proof {
            use_type_invariant(self);
        }
        &self.state_configs[state.index()]
    }
}

} // verus!
