//! Household expense splitting.
use crate::decimal::{
    max_nat, near_product, sub_exact, abs, bounded, decimal_add, decimal_difference, decimal_div, decimal_mul, decimal_product,
    decimal_quotient, decimal_sub, decimal_sum, in_range, is_amount, lemma_add_sub_exact,
    lemma_div_in_range, lemma_pow10_values, lemma_quotient_bound, lemma_value_sign, pow10, Dec,
    AMOUNT_LIMIT, MANTISSA_BOUND,
};
use vstd::prelude::*;

verus! {

/// How shared expenses are split.
#[derive(Debug, Clone, Copy, PartialEq)]
pub enum SplitMethod {
    /// In proportion to net income.
    Proportional,
    /// Half each.
    Equal,
    /// A given share for the primary earner.
    Custom(Dec),
}

impl Default for SplitMethod {
    fn default() -> (r: SplitMethod)
        ensures
            r == SplitMethod::Proportional,
    {
        SplitMethod::Proportional
    }
}

/// A partner's profile.
#[derive(Debug, Clone)]
pub struct PartnerProfile {
    pub name: String,
    pub gross_income: Dec,
    pub net_income: Dec,
}

impl PartnerProfile {
    pub fn new(name: String, gross_income: Dec, net_income: Dec) -> (r: PartnerProfile)
        ensures
            r.name == name,
            r.gross_income == gross_income,
            r.net_income == net_income,
    {
        PartnerProfile { name, gross_income, net_income }
    }
}

/// Household configuration.
#[derive(Debug, Clone)]
pub struct Household {
    pub partner: PartnerProfile,
    pub split_method: SplitMethod,
    pub shared_expenses_monthly: Dec,
}

impl Household {
    pub fn new(partner: PartnerProfile, split_method: SplitMethod) -> (r: Household)
        ensures
            r.partner == partner,
            r.split_method == split_method,
            r.shared_expenses_monthly.value() == 0,
    {
        Household { partner, split_method, shared_expenses_monthly: Dec::zero() }
    }
}

/// Result of splitting a shared expense.
#[derive(Debug, Clone, Copy)]
pub struct HouseholdSplit {
    pub primary_ratio: Dec,
    pub partner_ratio: Dec,
    pub primary_monthly_amount: Dec,
    pub partner_monthly_amount: Dec,
}

/// `ratio * 100`, kept within range.
fn ratio_percent(ratio: Dec) -> (r: Dec)
    requires
        ratio.wf(),
        in_range(ratio.value() * 100),
    ensures
        r@ == decimal_product(ratio@, (100int, 0nat)),
{
    proof {
        lemma_pow10_values();
        let p = pow10(28);
        assert(abs(ratio.value() * (100 * p)) <= (MANTISSA_BOUND - 2) * p * p) by (nonlinear_arith)
            requires
                abs(ratio.value() * 100) <= (MANTISSA_BOUND - 2) * p,
                p > 0,
        ;
    }
    decimal_mul(ratio, Dec::from_int(100))
}

impl HouseholdSplit {
    /// All four values lie within the representation limits.
    pub open spec fn wf(self) -> bool {
        &&& self.primary_ratio.wf()
        &&& self.partner_ratio.wf()
        &&& self.primary_monthly_amount.wf()
        &&& self.partner_monthly_amount.wf()
    }

    pub fn primary_percent(&self) -> (r: Dec)
        requires
            self.primary_ratio.wf(),
            in_range(self.primary_ratio.value() * 100),
        ensures
            r@ == decimal_product(self.primary_ratio@, (100int, 0nat)),
    {
        ratio_percent(self.primary_ratio)
    }

    pub fn partner_percent(&self) -> (r: Dec)
        requires
            self.partner_ratio.wf(),
            in_range(self.partner_ratio.value() * 100),
        ensures
            r@ == decimal_product(self.partner_ratio@, (100int, 0nat)),
    {
        ratio_percent(self.partner_ratio)
    }
}

/// Each share is the expense times its ratio, rounded to the nearest unit of the
/// share's last digit.
pub open spec fn amounts_near(r: HouseholdSplit, shared_expense: Dec) -> bool {
    &&& near_product(r.primary_monthly_amount, shared_expense, r.primary_ratio)
    &&& near_product(r.partner_monthly_amount, shared_expense, r.partner_ratio)
}

/// The two ratios add up to 1 whenever `1 - primary` is exact in rust_decimal
/// (both operands and the difference fit 96 bits at the larger scale).
pub open spec fn ratios_add_up(r: HouseholdSplit) -> bool {
    sub_exact(Dec { mantissa: 1, scale: 0 }, r.primary_ratio) ==> r.primary_ratio.value()
        + r.partner_ratio.value() == pow10(28)
}

/// One half, as 0.5.
pub open spec fn half() -> Dec {
    Dec { mantissa: 5, scale: 1 }
}

/// Largest shared expense, in whole units, that the split accepts: one billion.
pub const EXPENSE_LIMIT: i128 = 1000000000;

/// What the split returns for the two net incomes, the expense and the method.
pub open spec fn split_spec(
    r: HouseholdSplit,
    primary_net: Dec,
    partner_net: Dec,
    shared_expense: Dec,
    method: SplitMethod,
) -> bool {
    let total = decimal_sum(primary_net@, partner_net@);
    let one = (1int, 0nat);
    &&& match method {
        SplitMethod::Proportional => if primary_net.value() + partner_net.value() > 0 {
            &&& r.primary_ratio@ == decimal_quotient(primary_net@, total)
            &&& r.partner_ratio@ == decimal_difference(one, r.primary_ratio@)
        } else {
            r.primary_ratio == half() && r.partner_ratio == half()
        },
        SplitMethod::Equal => r.primary_ratio == half() && r.partner_ratio == half(),
        SplitMethod::Custom(pct) => {
            &&& r.primary_ratio == pct
            &&& r.partner_ratio@ == decimal_difference(one, pct@)
        },
    }
    &&& r.primary_monthly_amount@ == decimal_product(shared_expense@, r.primary_ratio@)
    &&& r.partner_monthly_amount@ == decimal_product(shared_expense@, r.partner_ratio@)
}

/// `1 - q` is exact for a ratio `q` between 0 and 1.
proof fn lemma_one_minus_unit_ratio(q: Dec)
    requires
        q.wf(),
        0 <= q.value() <= pow10(28),
    ensures
        sub_exact(Dec { mantissa: 1, scale: 0 }, q),
{
    let one = Dec { mantissa: 1, scale: 0 };
    let s = q.scale as nat;
    lemma_pow10_values();
    crate::decimal::lemma_pow10_mono(s, 28);
    crate::decimal::lemma_pow10_add(s, (28 - s) as nat);
    crate::decimal::lemma_pow10_positive((28 - s) as nat);
    crate::decimal::lemma_aligned_own(q);
    assert((s + (28 - s)) as nat == 28nat);
    assert(max_nat(0, s) == s);
    assert(one.aligned(s) == pow10(s)) by {
        assert((s - 0) as nat == s);
    }
    let m = q.mantissa as int;
    let e = pow10((28 - s) as nat);
    assert(0 <= m <= pow10(s)) by (nonlinear_arith)
        requires
            0 <= m * e <= pow10(s) * e,
            e > 0,
    ;
}

/// `1 - q` is exact for an amount `q`.
proof fn lemma_one_minus_amount(q: Dec)
    requires
        is_amount(q),
    ensures
        sub_exact(Dec { mantissa: 1, scale: 0 }, q),
{
    let one = Dec { mantissa: 1, scale: 0 };
    lemma_pow10_values();
    assert(one.value() == pow10(28));
    crate::decimal::lemma_pow10_mono(q.scale as nat, 6);
    lemma_add_sub_exact(one, q, 6, 1, AMOUNT_LIMIT as int);
}

/// Bound on the ratios the split computes.
spec fn ratio_bound(d: Dec) -> bool {
    &&& d.wf()
    &&& abs(d.value()) <= (AMOUNT_LIMIT * 1000000 + 4) * pow10(28)
}

/// The two shares of an expense for given ratios.
fn apply_split(primary_ratio: Dec, partner_ratio: Dec, shared_expense: Dec) -> (r: HouseholdSplit)
    requires
        ratio_bound(primary_ratio),
        ratio_bound(partner_ratio),
        bounded(shared_expense, 6, EXPENSE_LIMIT as int),
    ensures
        r.primary_ratio == primary_ratio,
        r.partner_ratio == partner_ratio,
        r.primary_monthly_amount@ == decimal_product(shared_expense@, primary_ratio@),
        r.partner_monthly_amount@ == decimal_product(shared_expense@, partner_ratio@),
        r.wf(),
        amounts_near(r, shared_expense),
{
    proof {
        mul_fits(shared_expense, primary_ratio);
        mul_fits(shared_expense, partner_ratio);
    }
    let primary_monthly_amount = decimal_mul(shared_expense, primary_ratio);
    let partner_monthly_amount = decimal_mul(shared_expense, partner_ratio);
    HouseholdSplit { primary_ratio, partner_ratio, primary_monthly_amount, partner_monthly_amount }
}

/// Split by a ratio for the primary earner; the partner takes `1 - ratio`.
fn split_with(primary_ratio: Dec, shared_expense: Dec) -> (r: HouseholdSplit)
    requires
        primary_ratio.wf(),
        abs(primary_ratio.value()) <= (AMOUNT_LIMIT * 1000000 + 2) * pow10(28),
        bounded(shared_expense, 6, EXPENSE_LIMIT as int),
    ensures
        r.primary_ratio == primary_ratio,
        r.partner_ratio@ == decimal_difference((1int, 0nat), primary_ratio@),
        r.primary_monthly_amount@ == decimal_product(shared_expense@, primary_ratio@),
        r.partner_monthly_amount@ == decimal_product(shared_expense@, r.partner_ratio@),
        r.wf(),
        amounts_near(r, shared_expense),
        ratios_add_up(r),
{
    proof {
        lemma_pow10_values();
    }
    let one = Dec::one();
    assert(abs(one.value() - primary_ratio.value()) <= (AMOUNT_LIMIT * 1000000 + 3) * pow10(28));
    assert(ratio_bound(primary_ratio));
    let partner_ratio = decimal_sub(one, primary_ratio);
    proof {
        crate::decimal::lemma_pow10_mono((28 - partner_ratio.scale) as nat, 28);
        assert(ratio_bound(partner_ratio));
    }
    apply_split(primary_ratio, partner_ratio, shared_expense)
}

proof fn mul_fits(e: Dec, q: Dec)
    requires
        bounded(e, 6, EXPENSE_LIMIT as int),
        ratio_bound(q),
    ensures
        abs(e.value() * q.value()) <= (MANTISSA_BOUND - 2) * pow10(28) * pow10(28),
{
    lemma_pow10_values();
    let p = pow10(28);
    assert(abs(e.value() * q.value()) <= (EXPENSE_LIMIT * p) * ((AMOUNT_LIMIT * 1000000 + 4)
        * p)) by (nonlinear_arith)
        requires
            abs(e.value()) <= EXPENSE_LIMIT * p,
            abs(q.value()) <= (AMOUNT_LIMIT * 1000000 + 4) * p,
    ;
    assert((EXPENSE_LIMIT * p) * ((AMOUNT_LIMIT * 1000000 + 4) * p) <= (MANTISSA_BOUND - 2) * p
        * p) by (nonlinear_arith)
        requires
            p == 10000000000000000000000000000,
    ;
}

/// Splits a shared expense between the primary earner and the partner.
pub fn calculate_split(primary_net: Dec, partner_net: Dec, shared_expense: Dec, method: SplitMethod) -> (r:
    HouseholdSplit)
    requires
        is_amount(primary_net),
        is_amount(partner_net),
        bounded(shared_expense, 6, EXPENSE_LIMIT as int),
        method matches SplitMethod::Custom(pct) ==> is_amount(pct),
    ensures
        split_spec(r, primary_net, partner_net, shared_expense, method),
        r.wf(),
        amounts_near(r, shared_expense),
        ratios_add_up(r),
        (method is Custom || method is Equal || (primary_net.value() >= 0
            && partner_net.value() >= 0)) ==> r.primary_ratio.value() + r.partner_ratio.value()
            == pow10(28),
        ({
            let p = primary_net.value();
            let t = primary_net.value() + partner_net.value();
            method == SplitMethod::Proportional && p >= 0 && partner_net.value() >= 0 && t > 0
                ==> 2 * abs(r.primary_ratio.value() * t - p * pow10(28)) <= t
        }),
{
    let ghost l = AMOUNT_LIMIT as int;
    proof {
        lemma_pow10_values();
        lemma_add_sub_exact(primary_net, partner_net, 6, l, l);
    }
    let total_net = decimal_add(primary_net, partner_net);
    let half = Dec::new(5, 1);
    proof {
        assert(half.value() == 5 * pow10(27));
        assert(ratio_bound(half));
        assert(abs(half.value()) <= (AMOUNT_LIMIT * 1000000 + 2) * pow10(28));
    }
    match method {
        SplitMethod::Proportional => {
            proof {
                lemma_value_sign(total_net);
            }
            if total_net.is_positive() {
                proof {
                    crate::decimal::lemma_bounded_weaken(primary_net, 6, l, 28, l);
                    lemma_div_in_range(primary_net, l, total_net);
                }
                let primary = decimal_div(primary_net, total_net);
                proof {
                    lemma_quotient_bound(primary_net, l, total_net, primary);
                    if primary_net.value() >= 0 && partner_net.value() >= 0 {
                        let q = primary.value();
                        let t = total_net.value();
                        let pv = primary_net.value();
                        let p28 = pow10(28);
                        assert(0 <= q <= p28) by (nonlinear_arith)
                            requires
                                2 * abs(q * t - pv * p28) <= t,
                                0 <= pv <= t,
                                t > 0,
                                p28 > 0,
                        ;
                        lemma_one_minus_unit_ratio(primary);
                    }
                }
                split_with(primary, shared_expense)
            } else {
                let sp = apply_split(half, half, shared_expense);
                assert(half.value() + half.value() == pow10(28));
                sp
            }
        },
        SplitMethod::Equal => {
            let sp = apply_split(half, half, shared_expense);
            assert(half.value() + half.value() == pow10(28));
            sp
        },
        SplitMethod::Custom(primary_pct) => {
            proof {
                lemma_one_minus_amount(primary_pct);
                assert(abs(primary_pct.value()) <= (AMOUNT_LIMIT * 1000000 + 2) * pow10(28)) by (nonlinear_arith)
                    requires
                        abs(primary_pct.value()) <= l * pow10(28),
                        primary_pct.wf(),
                        pow10(28) > 0,
                        l == AMOUNT_LIMIT,
                ;
            }
            split_with(primary_pct, shared_expense)
        },
    }
}

} // verus!
