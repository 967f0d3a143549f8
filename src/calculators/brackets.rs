//! The progressive-bracket evaluator shared by the federal and state calculators.
//!
//! Tax amounts in these specifications are products of a value and a rate, both in
//! units of 10^-28, and so are counted in units of 10^-56 ("wide" values).
use crate::decimal::{
    bounded, decimal_add, decimal_mul, decimal_sub, lemma_add_sub_exact,
    lemma_bounded_weaken, lemma_mul_exact, lemma_pow10_values, lemma_product_bound, pow10, Dec,
    AMOUNT_LIMIT,
};
use crate::models::tax::{BracketAmount, TaxBracket};
use vstd::prelude::*;

verus! {

/// Largest number of brackets in one table.
pub const MAX_BRACKETS: usize = 64;

/// A bracket table of accepted size whose brackets all lie in range.
pub open spec fn brackets_in_range(bs: Seq<TaxBracket>) -> bool {
    &&& bs.len() <= MAX_BRACKETS
    &&& forall|i: int| 0 <= i < bs.len() ==> (#[trigger] bs[i]).in_range()
}

/// Index of the last of the first `n` brackets whose floor does not exceed `x`;
/// 0 when there is none.
pub open spec fn bracket_index(bs: Seq<TaxBracket>, x: int, n: int) -> int
    decreases n,
{
    if n <= 0 {
        0
    } else if x >= bs[n - 1].floor.value() {
        n - 1
    } else {
        bracket_index(bs, x, n - 1)
    }
}

/// Closed-form tax on `x`: the formula of the bracket that contains it.
pub open spec fn closed_form(bs: Seq<TaxBracket>, x: int) -> int {
    bs[bracket_index(bs, x, bs.len() as int)].formula_wide(x)
}

/// The part of `x` that lies within bracket `b` (possibly not positive).
pub open spec fn in_bracket(b: TaxBracket, x: int) -> int {
    let top = match b.ceiling {
        Some(c) => if c.value() < x {
            c.value()
        } else {
            x
        },
        None => x,
    };
    top - b.floor.value()
}

/// Whether bracket `b` takes part in the breakdown of `x`.
pub open spec fn contributes(b: TaxBracket, x: int) -> bool {
    x > b.floor.value() && in_bracket(b, x) > 0
}

/// Tax paid within bracket `b` on income `x` (wide).
pub open spec fn bracket_tax(b: TaxBracket, x: int) -> int {
    if contributes(b, x) {
        in_bracket(b, x) * b.rate.value()
    } else {
        0
    }
}

/// Sum of the per-bracket taxes over the first `n` brackets (wide).
pub open spec fn sum_form(bs: Seq<TaxBracket>, x: int, n: int) -> int
    decreases n,
{
    if n <= 0 {
        0
    } else {
        sum_form(bs, x, n - 1) + bracket_tax(bs[n - 1], x)
    }
}

/// Total tax paid over a breakdown.
pub open spec fn breakdown_paid(bd: Seq<BracketAmount>) -> int
    decreases bd.len(),
{
    if bd.len() == 0 {
        0
    } else {
        breakdown_paid(bd.drop_last()) + bd.last().tax_paid.value()
    }
}

/// Entry `a` is bracket `b`'s part of the breakdown of `x`: floor, ceiling and
/// rate copied, the income within the bracket and the tax paid on it.
pub open spec fn entry_of(a: BracketAmount, b: TaxBracket, x: int) -> bool {
    &&& a.floor == b.floor
    &&& a.ceiling == b.ceiling
    &&& a.rate == b.rate
    &&& a.taxable_in_bracket.value() == in_bracket(b, x)
    &&& a.tax_paid.value() * pow10(28) == bracket_tax(b, x)
}

/// `bd` lists, in bracket order, the entries of exactly those of the first `n`
/// brackets that take part in the breakdown of `x`.
pub open spec fn breakdown_of(bd: Seq<BracketAmount>, bs: Seq<TaxBracket>, x: int, n: int) -> bool
    decreases n,
{
    if n <= 0 {
        bd.len() == 0
    } else if contributes(bs[n - 1], x) {
        &&& bd.len() > 0
        &&& entry_of(bd.last(), bs[n - 1], x)
        &&& breakdown_of(bd.drop_last(), bs, x, n - 1)
    } else {
        breakdown_of(bd, bs, x, n - 1)
    }
}

/// Marginal rate: the rate of the last of the first `n` brackets whose floor
/// does not exceed `x` (the containing bracket), or `default` when there is none.
pub open spec fn marginal_upto(bs: Seq<TaxBracket>, x: int, n: int, default: Dec) -> Dec
    decreases n,
{
    if n <= 0 {
        default
    } else if x >= bs[n - 1].floor.value() {
        bs[n - 1].rate
    } else {
        marginal_upto(bs, x, n - 1, default)
    }
}

/// `base_tax + (income - floor) * rate`, computed exactly.
pub(crate) fn base_tax_formula(b: &TaxBracket, x: Dec) -> (r: Dec)
    requires
        b.in_range(),
        bounded(x, 6, 2 * AMOUNT_LIMIT),
    ensures
        r.value() * pow10(28) == b.formula_wide(x.value()),
        bounded(r, 12, 4 * AMOUNT_LIMIT),
{
    let ghost l = AMOUNT_LIMIT as int;
    proof {
        lemma_pow10_values();
        lemma_add_sub_exact(x, b.floor, 6, 2 * l, l);
    }
    let diff = decimal_sub(x, b.floor);
    proof {
        lemma_mul_exact(diff, b.rate, 6, 3 * l, 6, 1);
    }
    let prod = decimal_mul(diff, b.rate);
    proof {
        lemma_product_bound(diff, b.rate, prod, 3 * l, 1);
        lemma_bounded_weaken(b.base_tax, 6, l, 12, l);
        lemma_add_sub_exact(b.base_tax, prod, 12, l, 3 * l);
    }
    let r = decimal_add(b.base_tax, prod);
    proof {
        assert(r.value() * pow10(28) == b.base_tax.value() * pow10(28) + prod.value() * pow10(28))
            by (nonlinear_arith)
            requires
                r.value() == b.base_tax.value() + prod.value(),
        ;
    }
    r
}

/// Closed-form tax: the base-tax formula of the last bracket whose floor does not
/// exceed the income (the first bracket when there is none).
pub fn calculate_with_base_tax(taxable_income: Dec, brackets: &Vec<TaxBracket>) -> (r: Dec)
    requires
        brackets_in_range(brackets@),
        brackets@.len() > 0,
        bounded(taxable_income, 6, 2 * AMOUNT_LIMIT),
    ensures
        r.value() * pow10(28) == closed_form(brackets@, taxable_income.value()),
        bounded(r, 12, 4 * AMOUNT_LIMIT),
{
    let n = brackets.len();
    let mut k: usize = n;
    while k > 0 && !brackets[k - 1].floor.le(&taxable_income)
        invariant
            k <= n,
            n == brackets@.len(),
            brackets_in_range(brackets@),
            bounded(taxable_income, 6, 2 * AMOUNT_LIMIT),
            bracket_index(brackets@, taxable_income.value(), n as int) == bracket_index(
                brackets@,
                taxable_income.value(),
                k as int,
            ),
        decreases k,
    {
        k = k - 1;
    }
    let idx: usize = if k == 0 {
        0
    } else {
        k - 1
    };
    assert(bracket_index(brackets@, taxable_income.value(), k as int) == idx);
    base_tax_formula(&brackets[idx], taxable_income)
}

/// The breakdown entry of one bracket, when the bracket takes part.
pub(crate) fn bracket_amount(b: &TaxBracket, x: Dec) -> (r: Option<BracketAmount>)
    requires
        b.in_range(),
        bounded(x, 6, 2 * AMOUNT_LIMIT),
    ensures
        r is Some <==> contributes(*b, x.value()),
        r matches Some(a) ==> {
            &&& entry_of(a, *b, x.value())
            &&& bounded(a.tax_paid, 12, 3 * AMOUNT_LIMIT)
            &&& a.tax_paid.value() >= 0
        },
{
    if !x.gt(&b.floor) {
        return None;
    }
    let ghost l = AMOUNT_LIMIT as int;
    let top = match b.ceiling {
        Some(c) => {
            proof {
                lemma_bounded_weaken(c, 6, l, 6, 2 * l);
            }
            x.min(c)
        },
        None => x,
    };
    proof {
        lemma_pow10_values();
        lemma_add_sub_exact(top, b.floor, 6, 2 * l, l);
    }
    let income_in_bracket = decimal_sub(top, b.floor);
    if !income_in_bracket.is_positive() {
        return None;
    }
    proof {
        lemma_mul_exact(income_in_bracket, b.rate, 6, 3 * l, 6, 1);
    }
    let tax_in_bracket = decimal_mul(income_in_bracket, b.rate);
    proof {
        lemma_product_bound(income_in_bracket, b.rate, tax_in_bracket, 3 * l, 1);
        assert(income_in_bracket.value() * b.rate.value() >= 0) by (nonlinear_arith)
            requires
                income_in_bracket.value() > 0,
                b.rate.value() >= 0,
        ;
        assert(tax_in_bracket.value() >= 0) by (nonlinear_arith)
            requires
                tax_in_bracket.value() * pow10(28) >= 0,
                pow10(28) > 0,
        ;
    }
    Some(
        BracketAmount {
            floor: b.floor,
            ceiling: b.ceiling,
            rate: b.rate,
            taxable_in_bracket: income_in_bracket,
            tax_paid: tax_in_bracket,
        },
    )
}

} // verus!

verus! {

/// A bracket table as the data model describes it: the first bracket starts at
/// zero with no base tax, each ceiling is the next floor, floors increase, the
/// top bracket is unbounded, and each base tax is the previous one plus the tax
/// on the whole previous bracket.
pub open spec fn brackets_well_formed(bs: Seq<TaxBracket>) -> bool {
    &&& bs.len() > 0
    &&& bs[0].floor.value() == 0
    &&& bs[0].base_tax.value() == 0
    &&& bs[bs.len() - 1].ceiling is None
    &&& forall|i: int|
        0 <= i < bs.len() - 1 ==> {
            &&& (#[trigger] bs[i]).ceiling matches Some(c) && c.value() == bs[i + 1].floor.value()
            &&& bs[i].floor.value() < bs[i + 1].floor.value()
            &&& bs[i + 1].base_tax.value() * pow10(28) == bs[i].base_tax.value() * pow10(28)
                + (bs[i + 1].floor.value() - bs[i].floor.value()) * bs[i].rate.value()
        }
}

proof fn lemma_floors_increase(bs: Seq<TaxBracket>, i: int, j: int)
    requires
        brackets_well_formed(bs),
        0 <= i < j < bs.len(),
    ensures
        bs[i].floor.value() < bs[j].floor.value(),
    decreases j - i,
{
    let _ = bs[j - 1];
    if i < j - 1 {
        lemma_floors_increase(bs, i, j - 1);
    }
}

proof fn lemma_index_bounds(bs: Seq<TaxBracket>, x: int, m: int)
    requires
        1 <= m <= bs.len(),
        x >= bs[0].floor.value(),
    ensures
        0 <= bracket_index(bs, x, m) < m,
        bs[bracket_index(bs, x, m)].floor.value() <= x,
        forall|i: int| bracket_index(bs, x, m) < i < m ==> bs[i].floor.value() > x,
    decreases m,
{
    if x < bs[m - 1].floor.value() && m > 1 {
        lemma_index_bounds(bs, x, m - 1);
    }
}

/// Every bracket below the containing one is taxed in full.
proof fn lemma_prefix_sum(bs: Seq<TaxBracket>, x: int, j: int, k: int)
    requires
        brackets_well_formed(bs),
        0 <= j <= k < bs.len(),
        bs[k].floor.value() <= x,
    ensures
        sum_form(bs, x, j) == bs[j].base_tax.value() * pow10(28),
    decreases j,
{
    if j > 0 {
        lemma_prefix_sum(bs, x, j - 1, k);
        let b = bs[j - 1];
        assert(b.ceiling matches Some(c) && c.value() == bs[j].floor.value());
        if j < k {
            lemma_floors_increase(bs, j, k);
        }
        let w = bs[j].floor.value() - b.floor.value();
        assert(in_bracket(b, x) == w);
        assert(bracket_tax(b, x) == w * b.rate.value());
    }
}

/// Brackets above the income contribute nothing.
proof fn lemma_suffix_sum(bs: Seq<TaxBracket>, x: int, k: int, m: int)
    requires
        0 <= k < m <= bs.len(),
        forall|i: int| k < i < bs.len() ==> bs[i].floor.value() > x,
    ensures
        sum_form(bs, x, m) == sum_form(bs, x, k + 1),
    decreases m,
{
    if m > k + 1 {
        lemma_suffix_sum(bs, x, k, m - 1);
        assert(bracket_tax(bs[m - 1], x) == 0);
    }
}

/// For a well-formed table and a positive income, the closed form (base tax of
/// the containing bracket plus the marginal part) equals the sum of the taxes
/// paid within each bracket.
pub proof fn lemma_closed_form_equals_bracket_sum(bs: Seq<TaxBracket>, x: int)
    requires
        brackets_well_formed(bs),
        x > 0,
    ensures
        closed_form(bs, x) == sum_form(bs, x, bs.len() as int),
{
    let n = bs.len() as int;
    lemma_index_bounds(bs, x, n);
    let k = bracket_index(bs, x, n);
    lemma_prefix_sum(bs, x, k, k);
    lemma_suffix_sum(bs, x, k, n);
    let b = bs[k];
    if k < n - 1 {
        assert(b.ceiling matches Some(c) && c.value() == bs[k + 1].floor.value());
    }
    assert(sum_form(bs, x, k + 1) == sum_form(bs, x, k) + bracket_tax(b, x));
    if x > b.floor.value() {
        assert(in_bracket(b, x) == x - b.floor.value());
        assert(bracket_tax(b, x) == (x - b.floor.value()) * b.rate.value());
    } else {
        assert(x == b.floor.value());
        assert((x - b.floor.value()) * b.rate.value() == 0);
        assert(bracket_tax(b, x) == 0);
    }
    assert(closed_form(bs, x) == b.base_tax.value() * pow10(28) + (x - b.floor.value())
        * b.rate.value());
}

proof fn lemma_bracket_tax_monotone(b: TaxBracket, x: int, y: int)
    requires
        x <= y,
        b.rate.value() >= 0,
    ensures
        0 <= bracket_tax(b, x) <= bracket_tax(b, y),
{
    let r = b.rate.value();
    if contributes(b, x) {
        assert(in_bracket(b, x) <= in_bracket(b, y));
        assert(in_bracket(b, x) * r <= in_bracket(b, y) * r) by (nonlinear_arith)
            requires
                in_bracket(b, x) <= in_bracket(b, y),
                r >= 0,
        ;
        assert(in_bracket(b, x) * r >= 0) by (nonlinear_arith)
            requires
                in_bracket(b, x) > 0,
                r >= 0,
        ;
    } else if contributes(b, y) {
        assert(in_bracket(b, y) * r >= 0) by (nonlinear_arith)
            requires
                in_bracket(b, y) > 0,
                r >= 0,
        ;
    }
}

proof fn lemma_sum_monotone(bs: Seq<TaxBracket>, x: int, y: int, m: int)
    requires
        x <= y,
        0 <= m <= bs.len(),
        forall|i: int| 0 <= i < bs.len() ==> (#[trigger] bs[i]).rate.value() >= 0,
    ensures
        0 <= sum_form(bs, x, m) <= sum_form(bs, y, m),
    decreases m,
{
    if m > 0 {
        lemma_sum_monotone(bs, x, y, m - 1);
        lemma_bracket_tax_monotone(bs[m - 1], x, y);
    }
}

/// With an income at or above the first floor, the marginal rate is the rate of
/// the containing bracket, the one the closed form uses.
pub proof fn lemma_marginal_is_containing(bs: Seq<TaxBracket>, x: int, m: int, default: Dec)
    requires
        1 <= m <= bs.len(),
        x >= bs[0].floor.value(),
    ensures
        marginal_upto(bs, x, m, default) == bs[bracket_index(bs, x, m)].rate,
    decreases m,
{
    if x < bs[m - 1].floor.value() && m > 1 {
        lemma_marginal_is_containing(bs, x, m - 1, default);
    }
}

/// Tax on income `x` by a table: zero for a non-positive income or an empty
/// table, the closed form otherwise.
pub open spec fn tax_on(bs: Seq<TaxBracket>, x: int) -> int {
    if x <= 0 || bs.len() == 0 {
        0
    } else {
        closed_form(bs, x)
    }
}

/// For a well-formed table with non-negative rates, tax is non-decreasing in
/// income.
pub proof fn lemma_tax_monotone(bs: Seq<TaxBracket>, x: int, y: int)
    requires
        brackets_well_formed(bs),
        forall|i: int| 0 <= i < bs.len() ==> (#[trigger] bs[i]).rate.value() >= 0,
        x <= y,
    ensures
        tax_on(bs, x) <= tax_on(bs, y),
{
    let n = bs.len() as int;
    if y > 0 {
        lemma_closed_form_equals_bracket_sum(bs, y);
        lemma_sum_monotone(bs, x, y, n);
        if x > 0 {
            lemma_closed_form_equals_bracket_sum(bs, x);
        }
    }
}

} // verus!
