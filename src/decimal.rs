//! Fixed-point decimal values.
//!
//! A `Dec` is the pair (mantissa, scale) standing for `mantissa / 10^scale`, the
//! representation of `rust_decimal::Decimal`. Arithmetic is carried out by
//! rust_decimal itself; the contracts below state what its source guarantees.
use rust_decimal::Decimal;
use vstd::prelude::*;

verus! {

/// Largest scale (number of decimal places) a value may carry.
pub const MAX_SCALE: u32 = 28;

/// Mantissas are strictly below this bound in magnitude (2^96).
pub const MANTISSA_BOUND: i128 = 79228162514264337593543950336;

pub open spec fn pow10(n: nat) -> int
    decreases n,
{
    if n == 0 {
        1
    } else {
        10 * pow10((n - 1) as nat)
    }
}

pub open spec fn abs(x: int) -> int {
    if x < 0 {
        -x
    } else {
        x
    }
}

pub open spec fn max_nat(a: nat, b: nat) -> nat {
    if a < b {
        b
    } else {
        a
    }
}

/// The value of a (mantissa, scale) pair, counted in units of 10^-28.
pub open spec fn value_of(p: (int, nat)) -> int {
    p.0 * pow10((28 - p.1) as nat)
}

/// A fixed-point decimal number: `mantissa / 10^scale`.
#[derive(Clone, Copy, Debug)]
pub struct Dec {
    pub mantissa: i128,
    pub scale: u32,
}

impl View for Dec {
    type V = (int, nat);

    open spec fn view(&self) -> (int, nat) {
        (self.mantissa as int, self.scale as nat)
    }
}

impl Dec {
    /// The representation limits of a decimal: scale at most 28, mantissa below 2^96.
    pub open spec fn wf(self) -> bool {
        &&& self.scale <= 28
        &&& -MANTISSA_BOUND < self.mantissa < MANTISSA_BOUND
    }

    /// The exact value, in units of 10^-28.
    pub open spec fn value(self) -> int {
        value_of(self@)
    }

    /// The mantissa rescaled to `s` decimal places (`s` at least the own scale).
    pub open spec fn aligned(self, s: nat) -> int {
        self.mantissa * pow10((s - self.scale) as nat)
    }

    /// The value zero.
    pub fn zero() -> (r: Dec)
        ensures
            r.wf(),
            r.value() == 0,
            r.mantissa == 0,
            r.scale == 0,
            in_range(r.value()),
    {
        proof {
            lemma_pow10_positive(28);
        }
        Dec { mantissa: 0, scale: 0 }
    }

    /// The value one.
    pub fn one() -> (r: Dec)
        ensures
            r.wf(),
            r.value() == pow10(28),
            r.mantissa == 1,
            r.scale == 0,
    {
        Dec { mantissa: 1, scale: 0 }
    }

    /// `num / 10^scale`.
    pub fn new(num: i64, scale: u32) -> (r: Dec)
        requires
            scale <= 28,
        ensures
            r.wf(),
            r.mantissa == num,
            r.scale == scale,
    {
        Dec { mantissa: num as i128, scale }
    }

    /// A whole number.
    pub fn from_int(n: i64) -> (r: Dec)
        ensures
            r.wf(),
            r.mantissa == n,
            r.scale == 0,
            r.value() == n * pow10(28),
    {
        Dec { mantissa: n as i128, scale: 0 }
    }

    /// Whether the representation limits hold.
    pub fn check_wf(&self) -> (r: bool)
        ensures
            r == self.wf(),
    {
        self.scale <= MAX_SCALE && -MANTISSA_BOUND < self.mantissa && self.mantissa < MANTISSA_BOUND
    }

    /// Whether the value has at most `max_scale` places and a magnitude of at
    /// most `limit` whole units.
    pub fn is_within(&self, max_scale: u32, limit: i128) -> (r: bool)
        requires
            max_scale <= 6,
            0 <= limit <= 1000000000000000,
        ensures
            r == bounded(*self, max_scale as nat, limit as int),
    {
        if !self.check_wf() || self.scale > max_scale {
            return false;
        }
        let mut factor: i128 = 1;
        let mut i: u32 = 0;
        while i < self.scale
            invariant
                i <= self.scale <= 6,
                factor == pow10(i as nat),
            decreases self.scale - i,
        {
            proof {
                lemma_pow10_mono(i as nat, 6);
                lemma_pow10_values();
                assert(factor <= 1000000);
                assert(pow10((i + 1) as nat) == 10 * pow10(i as nat));
            }
            factor = factor * 10;
            i = i + 1;
        }
        proof {
            lemma_pow10_mono(self.scale as nat, 6);
            lemma_pow10_values();
            lemma_pow10_positive((28 - self.scale) as nat);
            lemma_pow10_add(self.scale as nat, (28 - self.scale) as nat);
            assert((self.scale + (28 - self.scale)) as nat == 28nat);
            let q = pow10((28 - self.scale) as nat);
            let m = self.mantissa as int;
            assert((abs(m) <= limit * factor) == (abs(m * q) <= limit * (factor * q)))
                by (nonlinear_arith)
                requires
                    q > 0,
            ;
        }
        proof {
            lemma_pow10_mono(self.scale as nat, 6);
            lemma_pow10_positive(self.scale as nat);
            lemma_pow10_values();
        }
        assert(0 < factor <= 1000000);
        assert(limit * factor <= 1000000000000000 * 1000000) by (nonlinear_arith)
            requires
                0 <= limit <= 1000000000000000,
                0 < factor <= 1000000,
        ;
        assert(limit * factor >= 0) by (nonlinear_arith)
            requires
                0 <= limit,
                0 < factor,
        ;
        let bound = limit * factor;
        -bound <= self.mantissa && self.mantissa <= bound
    }

    /// Whether the value is well formed and within the range of operations.
    pub fn is_in_range(&self) -> (r: bool)
        ensures
            r == (self.wf() && in_range(self.value())),
    {
        if !self.check_wf() {
            return false;
        }
        proof {
            lemma_pow10_values();
            let q = pow10((28 - self.scale) as nat);
            let m = self.mantissa as int;
            if self.scale > 0 {
                lemma_pow10_mono((28 - self.scale) as nat, 27);
                lemma_pow10_positive((28 - self.scale) as nat);
                assert(pow10(28) == 10 * pow10(27));
                assert(abs(m * q) <= (MANTISSA_BOUND - 2) * pow10(28)) by (nonlinear_arith)
                    requires
                        0 < q <= pow10(27),
                        abs(m) < MANTISSA_BOUND,
                        pow10(28) == 10 * pow10(27),
                ;
            } else {
                assert(q == pow10(28));
                assert((abs(m * q) <= (MANTISSA_BOUND - 2) * pow10(28)) == (abs(m)
                    <= MANTISSA_BOUND - 2)) by (nonlinear_arith)
                    requires
                        q == pow10(28),
                        q > 0,
                ;
            }
        }
        self.scale > 0 || (-(MANTISSA_BOUND - 2) <= self.mantissa && self.mantissa <= MANTISSA_BOUND
            - 2)
    }

    pub fn is_zero(&self) -> (r: bool)
        ensures
            r == (self.mantissa == 0),
    {
        self.mantissa == 0
    }

    /// Three-way comparison by value: -1, 0 or 1.
    pub fn compare(&self, other: &Dec) -> (r: i8)
        requires
            self.wf(),
            other.wf(),
        ensures
            r == 0 <==> self.value() == other.value(),
            r < 0 <==> self.value() < other.value(),
            r > 0 <==> self.value() > other.value(),
    {
        decimal_cmp(*self, *other)
    }

    pub fn lt(&self, other: &Dec) -> (r: bool)
        requires
            self.wf(),
            other.wf(),
        ensures
            r == (self.value() < other.value()),
    {
        decimal_cmp(*self, *other) < 0
    }

    pub fn le(&self, other: &Dec) -> (r: bool)
        requires
            self.wf(),
            other.wf(),
        ensures
            r == (self.value() <= other.value()),
    {
        decimal_cmp(*self, *other) <= 0
    }

    pub fn gt(&self, other: &Dec) -> (r: bool)
        requires
            self.wf(),
            other.wf(),
        ensures
            r == (self.value() > other.value()),
    {
        decimal_cmp(*self, *other) > 0
    }

    pub fn is_positive(&self) -> (r: bool)
        requires
            self.wf(),
        ensures
            r == (self.value() > 0),
    {
        proof {
            lemma_value_sign(*self);
        }
        self.mantissa > 0
    }

    /// The smaller of two values; the first when they are equal.
    pub fn min(self, other: Dec) -> (r: Dec)
        requires
            self.wf(),
            other.wf(),
        ensures
            r == (if other.value() < self.value() { other } else { self }),
    {
        if decimal_cmp(other, self) < 0 {
            other
        } else {
            self
        }
    }

    /// The larger of two values; the second when they are equal.
    pub fn max(self, other: Dec) -> (r: Dec)
        requires
            self.wf(),
            other.wf(),
        ensures
            r == (if self.value() <= other.value() { other } else { self }),
    {
        if decimal_cmp(self, other) <= 0 {
            other
        } else {
            self
        }
    }
}

impl PartialEq for Dec {
    fn eq(&self, other: &Dec) -> (r: bool) {
        if self.check_wf() && other.check_wf() {
            decimal_cmp(*self, *other) == 0
        } else {
            self.mantissa == other.mantissa && self.scale == other.scale
        }
    }
}

impl vstd::std_specs::cmp::PartialEqSpecImpl for Dec {
    open spec fn obeys_eq_spec() -> bool {
        true
    }

    open spec fn eq_spec(&self, other: &Dec) -> bool {
        if self.wf() && other.wf() {
            self.value() == other.value()
        } else {
            self@ == other@
        }
    }
}

/// rust_decimal's addition gives the exact sum when both operands, brought to the
/// larger scale, and their sum fit in 96 bits.
pub open spec fn add_exact(a: Dec, b: Dec) -> bool {
    let s = max_nat(a.scale as nat, b.scale as nat);
    &&& abs(a.aligned(s)) < MANTISSA_BOUND
    &&& abs(b.aligned(s)) < MANTISSA_BOUND
    &&& abs(a.aligned(s) + b.aligned(s)) < MANTISSA_BOUND
}

/// The same condition for a difference.
pub open spec fn sub_exact(a: Dec, b: Dec) -> bool {
    let s = max_nat(a.scale as nat, b.scale as nat);
    &&& abs(a.aligned(s)) < MANTISSA_BOUND
    &&& abs(b.aligned(s)) < MANTISSA_BOUND
    &&& abs(a.aligned(s) - b.aligned(s)) < MANTISSA_BOUND
}

/// rust_decimal's product is exact when the scales add up to at most 28 and the
/// product of the mantissas fits in 96 bits.
pub open spec fn mul_exact(a: Dec, b: Dec) -> bool {
    &&& a.scale + b.scale <= 28
    &&& abs(a.mantissa * b.mantissa) < MANTISSA_BOUND
}

/// A value whose magnitude stays 2 below the largest representable whole number:
/// rust_decimal's operations panic only beyond that range.
pub open spec fn in_range(v: int) -> bool {
    abs(v) <= (MANTISSA_BOUND - 2) * pow10(28)
}

/// `r` is the quotient of values `a / b` (units of 10^-28) rounded to the nearest
/// unit of a last digit that is 10^-28 unless the mantissa fills 96 bits (at
/// least 10^27 units of that digit): the error is at most half of
/// `10^-28 + |r| / 10^27`.
pub open spec fn precise_quotient(r: Dec, a: int, b: int) -> bool {
    2 * abs(r.value() * b - a * pow10(28)) * pow10(27) <= abs(b) * (pow10(27) + abs(r.value()))
}

/// The same precision for a product of values `a * b`.
pub open spec fn precise_product(r: Dec, a: int, b: int) -> bool {
    2 * abs(r.value() * pow10(28) - a * b) * pow10(27) <= pow10(28) * (pow10(27) + abs(
        r.value(),
    ))
}

/// `r` is `a * b` rounded to the nearest unit of its last digit.
pub open spec fn near_product(r: Dec, a: Dec, b: Dec) -> bool {
    2 * abs(r.value() * pow10(28) - a.value() * b.value()) <= pow10(28) * ulp(r)
}

/// What rust_decimal's `+` returns, as (mantissa, scale).
pub uninterp spec fn decimal_sum(a: (int, nat), b: (int, nat)) -> (int, nat);

/// What rust_decimal's `-` returns, as (mantissa, scale).
pub uninterp spec fn decimal_difference(a: (int, nat), b: (int, nat)) -> (int, nat);

/// What rust_decimal's `*` returns, as (mantissa, scale).
pub uninterp spec fn decimal_product(a: (int, nat), b: (int, nat)) -> (int, nat);

/// What rust_decimal's `/` returns, as (mantissa, scale).
pub uninterp spec fn decimal_quotient(a: (int, nat), b: (int, nat)) -> (int, nat);

/// What rust_decimal's `Display` writes for a (mantissa, scale) pair.
pub uninterp spec fn decimal_text(d: (int, nat)) -> Seq<char>;

/// What rust_decimal's `FromStr` reads from a text, as (mantissa, scale).
pub uninterp spec fn parsed_decimal(s: Seq<char>) -> Option<(int, nat)>;

/// Relies on rust_decimal's `Display` (through `to_string`): the text depends on
/// the mantissa and scale alone.
#[verifier::external_body]
pub(crate) fn decimal_to_string(d: Dec) -> (r: String)
    requires
        d.wf(),
    ensures
        r@ == decimal_text(d@),
{
    Decimal::from_i128_with_scale(d.mantissa, d.scale).to_string()
}

/// Relies on rust_decimal's `FromStr`: a parsed value lies within the
/// representation limits; the result depends on the text alone.
#[verifier::external_body]
pub(crate) fn parse_decimal_text(s: &str) -> (r: Option<Dec>)
    ensures
        match r {
            Some(d) => d.wf() && parsed_decimal(s@) == Some(d@),
            None => parsed_decimal(s@) is None,
        },
{
    match s.parse::<Decimal>() {
        Ok(x) => Some(Dec { mantissa: x.mantissa(), scale: x.scale() }),
        Err(_) => None,
    }
}

/// Relies on `Decimal::from_i128_with_scale`, `Decimal::cmp`: comparison by value.
#[verifier::external_body]
fn decimal_cmp(a: Dec, b: Dec) -> (r: i8)
    requires
        a.wf(),
        b.wf(),
    ensures
        r == 0 <==> a.value() == b.value(),
        r < 0 <==> a.value() < b.value(),
        r > 0 <==> a.value() > b.value(),
{
    let x = Decimal::from_i128_with_scale(a.mantissa, a.scale);
    let y = Decimal::from_i128_with_scale(b.mantissa, b.scale);
    match x.cmp(&y) {
        core::cmp::Ordering::Less => -1,
        core::cmp::Ordering::Equal => 0,
        core::cmp::Ordering::Greater => 1,
    }
}

/// Relies on rust_decimal's `Add`: exact when the aligned operands and the sum fit
/// in 96 bits (the result then keeps at most the larger scale), otherwise rounded
/// to within one unit of the result's last digit; it panics only when the sum
/// leaves the representable range.
#[verifier::external_body]
pub(crate) fn decimal_add(a: Dec, b: Dec) -> (r: Dec)
    requires
        a.wf(),
        b.wf(),
        in_range(a.value() + b.value()),
    ensures
        r.wf(),
        r@ == decimal_sum(a@, b@),
        add_exact(a, b) ==> r.value() == a.value() + b.value() && r.scale <= max_nat(
            a.scale as nat,
            b.scale as nat,
        ),
        abs(r.value() - (a.value() + b.value())) <= pow10((28 - r.scale) as nat),
{
    let x = Decimal::from_i128_with_scale(a.mantissa, a.scale)
        + Decimal::from_i128_with_scale(b.mantissa, b.scale);
    Dec { mantissa: x.mantissa(), scale: x.scale() }
}

/// Relies on rust_decimal's `Sub`, which shares its code with `Add`.
#[verifier::external_body]
pub(crate) fn decimal_sub(a: Dec, b: Dec) -> (r: Dec)
    requires
        a.wf(),
        b.wf(),
        in_range(a.value() - b.value()),
    ensures
        r.wf(),
        r@ == decimal_difference(a@, b@),
        sub_exact(a, b) ==> r.value() == a.value() - b.value() && r.scale <= max_nat(
            a.scale as nat,
            b.scale as nat,
        ),
        abs(r.value() - (a.value() - b.value())) <= pow10((28 - r.scale) as nat),
{
    let x = Decimal::from_i128_with_scale(a.mantissa, a.scale)
        - Decimal::from_i128_with_scale(b.mantissa, b.scale);
    Dec { mantissa: x.mantissa(), scale: x.scale() }
}

/// Relies on rust_decimal's `Mul`: exact when the scales add up to at most 28 and
/// the mantissa product fits in 96 bits (scale then at most the sum of scales);
/// otherwise reduced to 28 places, or until the mantissa fits 96 bits, and
/// rounded to the nearest; it panics only when the product leaves the range.
#[verifier::external_body]
pub(crate) fn decimal_mul(a: Dec, b: Dec) -> (r: Dec)
    requires
        a.wf(),
        b.wf(),
        abs(a.value() * b.value()) <= (MANTISSA_BOUND - 2) * pow10(28) * pow10(28),
    ensures
        r.wf(),
        r@ == decimal_product(a@, b@),
        mul_exact(a, b) ==> r.value() * pow10(28) == a.value() * b.value() && r.scale <= a.scale
            + b.scale,
        abs(r.value() * pow10(28) - a.value() * b.value()) <= pow10(28) * pow10(
            (28 - r.scale) as nat,
        ),
        near_product(r, a, b),
        precise_product(r, a.value(), b.value()),
{
    let x = Decimal::from_i128_with_scale(a.mantissa, a.scale)
        * Decimal::from_i128_with_scale(b.mantissa, b.scale);
    Dec { mantissa: x.mantissa(), scale: x.scale() }
}

/// Relies on rust_decimal's `Div`: the quotient is within one unit of its last
/// digit of the true quotient. A divisor of at most 32 bits that divides the
/// dividend's mantissa, at a scale not above the dividend's, gives the exact
/// quotient. Otherwise the quotient is carried to 28 places, or until the
/// mantissa fills 96 bits, and rounded to the nearest; a quotient of magnitude
/// at most 1 is thus within half a unit of 10^-28. It panics on a zero divisor
/// or when the quotient leaves the representable range.
#[verifier::external_body]
pub(crate) fn decimal_div(a: Dec, b: Dec) -> (r: Dec)
    requires
        a.wf(),
        b.wf(),
        b.mantissa != 0,
        abs(a.value()) * pow10(28) <= (MANTISSA_BOUND - 2) * pow10(28) * abs(b.value()),
    ensures
        r.wf(),
        r@ == decimal_quotient(a@, b@),
        abs(r.value() * b.value() - a.value() * pow10(28)) <= abs(b.value()) * pow10(
            (28 - r.scale) as nat,
        ),
        a.scale >= b.scale && abs(b.mantissa as int) < 4294967296 && (a.mantissa as int) % (b.mantissa as int) == 0
            ==> r.value() * b.value() == a.value() * pow10(28),
        abs(a.value()) <= abs(b.value()) ==> 2 * abs(r.value() * b.value() - a.value() * pow10(28))
            <= abs(b.value()),
        precise_quotient(r, a.value(), b.value()),
{
    let x = Decimal::from_i128_with_scale(a.mantissa, a.scale)
        / Decimal::from_i128_with_scale(b.mantissa, b.scale);
    Dec { mantissa: x.mantissa(), scale: x.scale() }
}

// ---------------------------------------------------------------------------
// Arithmetic facts
// ---------------------------------------------------------------------------

pub proof fn lemma_pow10_positive(n: nat)
    ensures
        pow10(n) >= 1,
    decreases n,
{
    if n > 0 {
        lemma_pow10_positive((n - 1) as nat);
    }
}

pub proof fn lemma_pow10_add(a: nat, b: nat)
    ensures
        pow10(a + b) == pow10(a) * pow10(b),
    decreases a,
{
    if a > 0 {
        lemma_pow10_add((a - 1) as nat, b);
        assert(pow10(a + b) == 10 * pow10((a - 1 + b) as nat));
        assert(10 * (pow10((a - 1) as nat) * pow10(b)) == (10 * pow10((a - 1) as nat)) * pow10(b))
            by (nonlinear_arith);
    }
}

pub proof fn lemma_pow10_mono(a: nat, b: nat)
    requires
        a <= b,
    ensures
        pow10(a) <= pow10(b),
{
    lemma_pow10_add(a, (b - a) as nat);
    lemma_pow10_positive(a);
    lemma_pow10_positive((b - a) as nat);
    assert(pow10(a) * 1 <= pow10(a) * pow10((b - a) as nat)) by (nonlinear_arith)
        requires
            pow10((b - a) as nat) >= 1,
            pow10(a) >= 1,
    ;
}

pub proof fn lemma_pow10_28()
    ensures
        pow10(28) == 10000000000000000000000000000,
{
    reveal_with_fuel(pow10, 29);
}

pub proof fn lemma_pow10_values()
    ensures
        pow10(0) == 1,
        pow10(2) == 100,
        pow10(6) == 1000000,
        pow10(12) == 1000000000000,
        pow10(27) == 1000000000000000000000000000,
        pow10(28) == 10000000000000000000000000000,
{
    reveal_with_fuel(pow10, 29);
}

/// A bounded value stays bounded under a larger scale limit and a larger bound.
pub proof fn lemma_bounded_weaken(d: Dec, s: nat, l: int, s2: nat, l2: int)
    requires
        bounded(d, s, l),
        s <= s2,
        l <= l2,
    ensures
        bounded(d, s2, l2),
{
    lemma_pow10_positive(28);
    assert(l * pow10(28) <= l2 * pow10(28)) by (nonlinear_arith)
        requires
            l <= l2,
            pow10(28) >= 1,
    ;
}

pub proof fn lemma_value_sign(d: Dec)
    requires
        d.wf(),
    ensures
        (d.value() > 0) == (d.mantissa > 0),
        (d.value() == 0) == (d.mantissa == 0),
        (d.value() < 0) == (d.mantissa < 0),
{
    let p = pow10((28 - d.scale) as nat);
    lemma_pow10_positive((28 - d.scale) as nat);
    assert(d.value() == d.mantissa * p);
    assert((d.mantissa * p > 0) == (d.mantissa > 0)) by (nonlinear_arith)
        requires
            p >= 1,
    ;
    assert((d.mantissa * p < 0) == (d.mantissa < 0)) by (nonlinear_arith)
        requires
            p >= 1,
    ;
}

pub proof fn lemma_aligned_own(d: Dec)
    ensures
        d.aligned(d.scale as nat) == d.mantissa,
{
    assert((d.scale - d.scale) as nat == 0nat);
    assert(pow10(0) == 1);
}

/// The value equals the aligned mantissa at any larger scale, scaled back.
pub proof fn lemma_aligned_value(d: Dec, s: nat)
    requires
        d.wf(),
        d.scale <= s <= 28,
    ensures
        d.value() == d.aligned(s) * pow10((28 - s) as nat),
{
    lemma_pow10_add((s - d.scale) as nat, (28 - s) as nat);
    assert(((s - d.scale) as nat + (28 - s) as nat) as nat == (28 - d.scale) as nat);
    assert(d.mantissa * (pow10((s - d.scale) as nat) * pow10((28 - s) as nat)) == (d.mantissa
        * pow10((s - d.scale) as nat)) * pow10((28 - s) as nat)) by (nonlinear_arith);
}

/// A value of at most `limit` in magnitude has, at any scale `s` at least its
/// own, an aligned mantissa of at most `limit * 10^s`.
pub proof fn lemma_aligned_bound(d: Dec, s: nat, limit: int)
    requires
        d.wf(),
        d.scale <= s <= 28,
        abs(d.value()) <= limit * pow10(28),
    ensures
        abs(d.aligned(s)) <= limit * pow10(s),
{
    lemma_aligned_value(d, s);
    lemma_pow10_add(s, (28 - s) as nat);
    assert((s + (28 - s) as nat) as nat == 28nat);
    let p = pow10((28 - s) as nat);
    let q = pow10(s);
    lemma_pow10_positive((28 - s) as nat);
    let x = d.aligned(s);
    assert(abs(x) * p <= (limit * q) * p) by (nonlinear_arith)
        requires
            abs(x * p) <= limit * (q * p),
            p >= 1,
    ;
    assert(abs(x) <= limit * q) by (nonlinear_arith)
        requires
            abs(x) * p <= (limit * q) * p,
            p >= 1,
    ;
}

/// One unit of the last digit of a value, in units of 10^-28.
pub open spec fn ulp(d: Dec) -> int {
    pow10((28 - d.scale) as nat)
}

/// A value bounded in magnitude by `limit` with at most `max_scale` places.
pub open spec fn bounded(d: Dec, max_scale: nat, limit: int) -> bool {
    &&& d.wf()
    &&& d.scale <= max_scale
    &&& abs(d.value()) <= limit * pow10(28)
}

/// Sums and differences of bounded values are exact when the bounds leave room.
pub proof fn lemma_add_sub_exact(a: Dec, b: Dec, s: nat, la: int, lb: int)
    requires
        bounded(a, s, la),
        bounded(b, s, lb),
        s <= 28,
        la >= 0,
        lb >= 0,
        (la + lb) * pow10(s) <= MANTISSA_BOUND - 2,
    ensures
        add_exact(a, b),
        sub_exact(a, b),
        in_range(a.value() + b.value()),
        in_range(a.value() - b.value()),
{
    let t = max_nat(a.scale as nat, b.scale as nat);
    lemma_aligned_bound(a, t, la);
    lemma_aligned_bound(b, t, lb);
    lemma_pow10_mono(t, s);
    lemma_pow10_mono(s, 28);
    lemma_pow10_positive(s);
    lemma_pow10_28();
    let pt = pow10(t);
    let ps = pow10(s);
    let p28 = pow10(28);
    assert(la * pt + lb * pt <= (la + lb) * ps) by (nonlinear_arith)
        requires
            la >= 0,
            lb >= 0,
            pt <= ps,
    ;
    assert((la + lb) * p28 <= (MANTISSA_BOUND - 2) * p28) by (nonlinear_arith)
        requires
            (la + lb) * ps <= MANTISSA_BOUND - 2,
            ps >= 1,
            p28 >= 1,
            la + lb >= 0,
    ;
    assert(la * p28 + lb * p28 == (la + lb) * p28) by (nonlinear_arith);
}

/// Largest magnitude, in whole units, of an amount the calculators accept.
pub const AMOUNT_LIMIT: i128 = 10000000000000;

/// A monetary amount the calculators accept: at most six decimal places and a
/// magnitude of at most ten trillion.
pub open spec fn is_amount(d: Dec) -> bool {
    bounded(d, 6, AMOUNT_LIMIT as int)
}

/// A rate between 0 and 1 with at most six decimal places.
pub open spec fn is_rate(d: Dec) -> bool {
    &&& d.wf()
    &&& d.scale <= 6
    &&& 0 <= d.value() <= pow10(28)
}

/// A quotient of a bounded value by a nonzero amount with at most six places
/// stays within range.
pub proof fn lemma_div_in_range(a: Dec, la: int, b: Dec)
    requires
        bounded(a, 28, la),
        la >= 0,
        la * 1000000 <= MANTISSA_BOUND - 2,
        b.wf(),
        b.scale <= 6,
        b.mantissa != 0,
    ensures
        abs(a.value()) * pow10(28) <= (MANTISSA_BOUND - 2) * pow10(28) * abs(b.value()),
{
    lemma_pow10_values();
    lemma_pow10_add(22, 6);
    lemma_pow10_mono(22, (28 - b.scale) as nat);
    let p = pow10((28 - b.scale) as nat);
    let p22 = pow10(22);
    let p28 = pow10(28);
    assert(p22 * 1000000 == p28);
    assert(abs(b.value()) >= p22) by (nonlinear_arith)
        requires
            b.value() == b.mantissa * p,
            b.mantissa != 0,
            p >= p22,
            p22 >= 1,
    ;
    assert(abs(a.value()) * p28 <= (la * p28) * p28) by (nonlinear_arith)
        requires
            abs(a.value()) <= la * p28,
            p28 >= 1,
    ;
    assert((la * p28) * p28 == (la * 1000000) * p28 * p22) by (nonlinear_arith)
        requires
            p22 * 1000000 == p28,
    ;
    assert((la * 1000000) * p28 * p22 <= (MANTISSA_BOUND - 2) * p28 * abs(b.value()))
        by (nonlinear_arith)
        requires
            la * 1000000 <= MANTISSA_BOUND - 2,
            la >= 0,
            abs(b.value()) >= p22,
            p28 >= 1,
            p22 >= 1,
    ;
}

/// `q` is within one unit of its last digit of `a / n`, for a whole number `n`.
pub open spec fn close_quotient(q: Dec, a: Dec, n: int) -> bool {
    abs(q.value() * n - a.value()) <= n * pow10((28 - q.scale) as nat)
}

/// Dividing a value within range by a whole number at least 1 stays in range,
/// and the quotient bound of the division reads as `close_quotient`.
pub proof fn lemma_div_whole(a: Dec, n: Dec)
    requires
        a.wf(),
        in_range(a.value()),
        n.wf(),
        n.scale == 0,
        n.mantissa >= 1,
    ensures
        abs(a.value()) * pow10(28) <= (MANTISSA_BOUND - 2) * pow10(28) * abs(n.value()),
        forall|q: Dec|
            abs(#[trigger] (q.value() * n.value()) - a.value() * pow10(28)) <= abs(n.value())
                * pow10((28 - q.scale) as nat) ==> close_quotient(q, a, n.mantissa as int),
{
    lemma_pow10_28();
    let p = pow10(28);
    let m = n.mantissa as int;
    assert(pow10((28 - n.scale) as nat) == p);
    assert(n.value() == m * p);
    assert(abs(a.value()) * p <= (MANTISSA_BOUND - 2) * p * abs(n.value())) by (nonlinear_arith)
        requires
            abs(a.value()) <= (MANTISSA_BOUND - 2) * p,
            abs(n.value()) == m * p,
            m >= 1,
            p >= 1,
    ;
    assert forall|q: Dec|
        abs(#[trigger] (q.value() * n.value()) - a.value() * pow10(28)) <= abs(n.value())
            * pow10((28 - q.scale) as nat) implies close_quotient(q, a, m) by {
        let e = pow10((28 - q.scale) as nat);
        assert(abs(q.value() * m - a.value()) * p <= (m * e) * p) by (nonlinear_arith)
            requires
                abs(q.value() * (m * p) - a.value() * p) <= (m * p) * e,
                m >= 1,
                p >= 1,
        ;
        assert(abs(q.value() * m - a.value()) <= m * e) by (nonlinear_arith)
            requires
                abs(q.value() * m - a.value()) * p <= (m * e) * p,
                p >= 1,
        ;
    }
}

/// The quotient of a bounded value by a nonzero amount with at most six places,
/// as the division's contract bounds it, is at most `la * 10^6 + 1` in magnitude.
pub proof fn lemma_quotient_bound(a: Dec, la: int, b: Dec, q: Dec)
    requires
        bounded(a, 28, la),
        la >= 0,
        b.wf(),
        b.scale <= 6,
        b.mantissa != 0,
        q.wf(),
        abs(q.value() * b.value() - a.value() * pow10(28)) <= abs(b.value()) * pow10(
            (28 - q.scale) as nat,
        ),
    ensures
        abs(q.value()) <= (la * 1000000 + 1) * pow10(28),
{
    lemma_pow10_values();
    lemma_pow10_add(22, 6);
    lemma_pow10_mono(22, (28 - b.scale) as nat);
    lemma_pow10_mono((28 - q.scale) as nat, 28);
    let p = pow10((28 - b.scale) as nat);
    let p22 = pow10(22);
    let p28 = pow10(28);
    let e = pow10((28 - q.scale) as nat);
    lemma_pow10_positive((28 - q.scale) as nat);
    assert(abs(b.value()) >= p22) by (nonlinear_arith)
        requires
            b.value() == b.mantissa * p,
            b.mantissa != 0,
            p >= p22,
            p22 >= 1,
    ;
    let bv = abs(b.value());
    assert(abs(q.value()) * bv <= la * p28 * p28 + bv * p28) by (nonlinear_arith)
        requires
            abs(q.value() * b.value() - a.value() * p28) <= bv * e,
            bv == abs(b.value()),
            abs(a.value()) <= la * p28,
            e <= p28,
            bv >= 0,
            p28 >= 1,
    ;
    assert(la * p28 * p28 == (la * 1000000) * p28 * p22) by (nonlinear_arith)
        requires
            p22 * 1000000 == p28,
    ;
    assert(abs(q.value()) * bv <= (la * 1000000 + 1) * p28 * bv) by (nonlinear_arith)
        requires
            abs(q.value()) * bv <= (la * 1000000) * p28 * p22 + bv * p28,
            bv >= p22,
            la >= 0,
            p28 >= 1,
            p22 >= 1,
    ;
    assert(abs(q.value()) <= (la * 1000000 + 1) * p28) by (nonlinear_arith)
        requires
            abs(q.value()) * bv <= (la * 1000000 + 1) * p28 * bv,
            bv >= 1,
    ;
}

/// Products of bounded values are exact when the bounds leave room.
pub proof fn lemma_mul_exact(a: Dec, b: Dec, sa: nat, la: int, sb: nat, lb: int)
    requires
        bounded(a, sa, la),
        bounded(b, sb, lb),
        sa + sb <= 28,
        la >= 0,
        lb >= 0,
        la * lb * pow10(sa + sb) <= MANTISSA_BOUND - 2,
    ensures
        mul_exact(a, b),
        abs(a.value() * b.value()) <= (MANTISSA_BOUND - 2) * pow10(28) * pow10(28),
        abs(a.value() * b.value()) <= (la * lb) * (pow10(28) * pow10(28)),
{
    lemma_aligned_bound(a, a.scale as nat, la);
    lemma_aligned_bound(b, b.scale as nat, lb);
    lemma_aligned_own(a);
    lemma_aligned_own(b);
    lemma_pow10_mono(a.scale as nat, sa);
    lemma_pow10_mono(b.scale as nat, sb);
    lemma_pow10_positive(a.scale as nat);
    lemma_pow10_positive(b.scale as nat);
    lemma_pow10_add(sa, sb);
    let pa = pow10(a.scale as nat);
    let pb = pow10(b.scale as nat);
    let qa = pow10(sa);
    let qb = pow10(sb);
    assert(abs(a.mantissa * b.mantissa) <= (la * qa) * (lb * qb)) by (nonlinear_arith)
        requires
            abs(a.mantissa as int) <= la * pa,
            abs(b.mantissa as int) <= lb * pb,
            pa <= qa,
            pb <= qb,
            la >= 0,
            lb >= 0,
            pa >= 1,
            pb >= 1,
    ;
    assert((la * qa) * (lb * qb) == la * lb * pow10(sa + sb)) by (nonlinear_arith)
        requires
            pow10(sa + sb) == qa * qb,
    ;
    let p28 = pow10(28);
    lemma_pow10_28();
    lemma_pow10_positive(sa + sb);
    assert(la * lb <= MANTISSA_BOUND - 2) by (nonlinear_arith)
        requires
            la * lb * pow10(sa + sb) <= MANTISSA_BOUND - 2,
            pow10(sa + sb) >= 1,
            la >= 0,
            lb >= 0,
    ;
    assert(abs(a.value() * b.value()) <= (la * lb) * (p28 * p28)) by (nonlinear_arith)
        requires
            abs(a.value()) <= la * p28,
            abs(b.value()) <= lb * p28,
            la >= 0,
            lb >= 0,
            p28 >= 1,
    ;
    assert((la * lb) * (p28 * p28) <= (MANTISSA_BOUND - 2) * p28 * p28) by (nonlinear_arith)
        requires
            la * lb <= MANTISSA_BOUND - 2,
            p28 >= 1,
    ;
}

/// An exact product of bounded values is bounded by the product of the bounds.
pub proof fn lemma_product_bound(a: Dec, b: Dec, r: Dec, la: int, lb: int)
    requires
        r.value() * pow10(28) == a.value() * b.value(),
        abs(a.value() * b.value()) <= (la * lb) * (pow10(28) * pow10(28)),
    ensures
        abs(r.value()) <= (la * lb) * pow10(28),
{
    let p = pow10(28);
    lemma_pow10_28();
    assert(abs(r.value()) * p <= ((la * lb) * p) * p) by (nonlinear_arith)
        requires
            abs(r.value() * p) <= (la * lb) * (p * p),
            p >= 1,
    ;
    assert(abs(r.value()) <= (la * lb) * p) by (nonlinear_arith)
        requires
            abs(r.value()) * p <= ((la * lb) * p) * p,
            p >= 1,
    ;
}

} // verus!
