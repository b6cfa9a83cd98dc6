//! Fixed-point decimal values: an integer mantissa and a power-of-ten scale.
use vstd::prelude::*;

verus! {

/// Largest scale a decimal may carry (28 fractional digits).
pub const MAX_SCALE: u32 = 28;

/// Largest magnitude of a decimal mantissa: 2^96 - 1.
pub const MAX_MANTISSA: i128 = 0xFFFF_FFFF_FFFF_FFFF_FFFF_FFFF;

/// Largest scale accepted for a price.
pub const MAX_PRICE_SCALE: u32 = 12;

/// Largest magnitude of a price mantissa (fifteen significant digits).
pub const MAX_PRICE_MANTISSA: i128 = 1_000_000_000_000_000;

/// Ten to the power `n`.
pub open spec fn pow10(n: nat) -> int
    decreases n,
{
    if n == 0 {
        1
    } else {
        10 * pow10((n - 1) as nat)
    }
}

/// The decimal `mantissa / 10^scale`. Two decimals are `==` when they denote
/// the same number, whatever their scales (`0.20 == 0.2`).
#[derive(Clone, Copy, Debug, Eq)]
pub struct Fixed {
    pub mantissa: i128,
    pub scale: u32,
}

impl Fixed {
    /// Representable as a decimal: scale at most 28, mantissa within 96 bits.
    pub open spec fn wf(self) -> bool {
        &&& self.scale <= MAX_SCALE
        &&& -MAX_MANTISSA <= self.mantissa <= MAX_MANTISSA
    }

    /// Within the range accepted for prices.
    pub open spec fn is_price(self) -> bool {
        &&& self.scale <= MAX_PRICE_SCALE
        &&& -MAX_PRICE_MANTISSA <= self.mantissa <= MAX_PRICE_MANTISSA
    }

    /// The mantissa of the same value written at scale `s` (for `s >= scale`).
    pub open spec fn at_scale(self, s: nat) -> int {
        self.mantissa * pow10((s - self.scale) as nat)
    }

    /// Two decimals denote the same number.
    pub open spec fn same_value(self, other: Fixed) -> bool {
        self.mantissa * pow10(other.scale as nat) == other.mantissa * pow10(self.scale as nat)
    }

    pub fn new(mantissa: i128, scale: u32) -> (r: Fixed)
        ensures
            r.mantissa == mantissa,
            r.scale == scale,
    {
        Fixed { mantissa, scale }
    }

    pub fn is_zero(&self) -> (r: bool)
        ensures
            r == (self.mantissa == 0),
    {
        self.mantissa == 0
    }

    /// Checks the price range.
    pub fn check_price(&self) -> (r: bool)
        ensures
            r == self.is_price(),
    {
        self.scale <= MAX_PRICE_SCALE && -MAX_PRICE_MANTISSA <= self.mantissa
            && self.mantissa <= MAX_PRICE_MANTISSA
    }

    /// The mantissa of this price written at scale `s`.
    pub fn rescaled(&self, s: u32) -> (r: i128)
        requires
            self.is_price(),
            self.scale <= s <= MAX_PRICE_SCALE,
        ensures
            r == self.at_scale(s as nat),
            -MAX_PRICE_MANTISSA * pow10(MAX_PRICE_SCALE as nat) <= r
                <= MAX_PRICE_MANTISSA * pow10(MAX_PRICE_SCALE as nat),
    {
        let p = pow10_exec(s - self.scale);
        proof {
            lemma_pow10_mono((s - self.scale) as nat, MAX_PRICE_SCALE as nat);
            let m = self.mantissa as int;
            let q = pow10(MAX_PRICE_SCALE as nat);
            reveal_with_fuel(pow10, 13);
            assert(q == 1_000_000_000_000);
            assert(-MAX_PRICE_MANTISSA * q <= m * p <= MAX_PRICE_MANTISSA * q) by (nonlinear_arith)
                requires
                    -MAX_PRICE_MANTISSA <= m <= MAX_PRICE_MANTISSA,
                    0 < p <= q,
            ;
        }
        self.mantissa * p
    }
}

/// Powers of ten grow with the exponent and stay positive.
pub proof fn lemma_pow10_mono(a: nat, b: nat)
    requires
        a <= b,
    ensures
        0 < pow10(a) <= pow10(b),
    decreases b,
{
    if a < b {
        lemma_pow10_mono(a, (b - 1) as nat);
    } else if b > 0 {
        lemma_pow10_mono(0, (b - 1) as nat);
    }
}

/// Ten to the power `n`, for exponents up to the price scale.
pub fn pow10_exec(n: u32) -> (r: i128)
    requires
        n <= MAX_PRICE_SCALE,
    ensures
        r == pow10(n as nat),
{
    proof {
        reveal_with_fuel(pow10, 13);
    }
    let mut p: i128 = 1;
    let mut i: u32 = 0;
    while i < n
        invariant
            i <= n <= MAX_PRICE_SCALE,
            p == pow10(i as nat),
            p <= 1_000_000_000_000,
        decreases n - i,
    {
        proof {
            lemma_pow10_mono((i + 1) as nat, MAX_PRICE_SCALE as nat);
            reveal_with_fuel(pow10, 13);
            assert(pow10(MAX_PRICE_SCALE as nat) == 1_000_000_000_000);
        }
        p = p * 10;
        i = i + 1;
    }
    p
}

/// Magnitude of an integer.
pub open spec fn abs(m: int) -> int {
    if m >= 0 {
        m
    } else {
        -m
    }
}

/// Ten to the power `i + j` is the product of the two powers.
pub proof fn lemma_pow10_add(i: nat, j: nat)
    ensures
        pow10(i + j) == pow10(i) * pow10(j),
    decreases j,
{
    if j > 0 {
        lemma_pow10_add(i, (j - 1) as nat);
        assert(pow10(i + j) == 10 * pow10((i + j - 1) as nat));
        assert(pow10(i) * pow10(j) == pow10(i) * (10 * pow10((j - 1) as nat)));
        assert(pow10(i) * (10 * pow10((j - 1) as nat)) == 10 * (pow10(i) * pow10((j - 1) as nat)))
            by (nonlinear_arith);
    }
}

/// The magnitude of `m` as an unsigned integer.
fn magnitude(m: i128) -> (r: u128)
    ensures
        r == abs(m as int),
{
    if m >= 0 {
        m as u128
    } else {
        (-(m + 1)) as u128 + 1
    }
}

/// Whether `x * 10^d == y`, found by dividing `y` by ten `d` times.
fn scaled_equals(x: u128, d: u32, y: u128) -> (r: bool)
    ensures
        r == (x * pow10(d as nat) == y),
{
    let mut m: u128 = y;
    let mut k: u32 = 0;
    while k < d
        invariant
            k <= d,
            y == m * pow10(k as nat),
        decreases d - k,
    {
        proof {
            lemma_pow10_mono(0, k as nat);
            lemma_pow10_add(k as nat, (d - k) as nat);
            lemma_pow10_mono(0, (d - k) as nat);
        }
        if m == 0 {
            proof {
                let p = pow10(d as nat);
                lemma_pow10_mono(0, d as nat);
                assert(x * p == 0 ==> x == 0) by (nonlinear_arith)
                    requires
                        p > 0,
                ;
            }
            return x == 0;
        }
        if m % 10 != 0 {
            proof {
                let pk = pow10(k as nat);
                let pr = pow10((d - k - 1) as nat);
                lemma_pow10_mono(0, (d - k - 1) as nat);
                assert(pow10((d - k) as nat) == 10 * pr);
                assert(x * pow10(d as nat) == (10 * (x * pr)) * pk) by (nonlinear_arith)
                    requires
                        pow10(d as nat) == pk * (10 * pr),
                ;
                if x * pow10(d as nat) == y {
                    assert((10 * (x * pr)) * pk == m * pk);
                    assert(10 * (x * pr) == m) by (nonlinear_arith)
                        requires
                            (10 * (x * pr)) * pk == m * pk,
                            pk > 0,
                    ;
                    assert(m % 10 == 0) by (nonlinear_arith)
                        requires
                            10 * (x * pr) == m,
                            x >= 0,
                            pr > 0,
                    ;
                }
            }
            return false;
        }
        proof {
            let pk = pow10(k as nat);
            assert(pow10((k + 1) as nat) == pk * 10) by {
                lemma_pow10_add(k as nat, 1);
                reveal_with_fuel(pow10, 2);
            }
            assert(m == (m / 10) * 10);
            assert(y == (m / 10) * (pk * 10)) by (nonlinear_arith)
                requires
                    y == m * pk,
                    m == (m / 10) * 10,
            ;
        }
        m = m / 10;
        k = k + 1;
    }
    proof {
        let p = pow10(d as nat);
        lemma_pow10_mono(0, d as nat);
        assert(x * p == m * p <==> x == m) by (nonlinear_arith)
            requires
                p > 0,
        ;
    }
    m == x
}

/// `a * 10^d == b` exactly when the signs agree and `|a| * 10^d == |b|`.
proof fn lemma_signed_scaled(a: int, b: int, p: int)
    requires
        p > 0,
    ensures
        (a * p == b) == ((a < 0) == (b < 0) && abs(a) * p == abs(b)),
{
    if a < 0 {
        assert(a * p < 0) by (nonlinear_arith)
            requires
                a < 0,
                p > 0,
        ;
        assert(abs(a) * p == -(a * p)) by (nonlinear_arith)
            requires
                abs(a) == -a,
        ;
    } else {
        assert(a * p >= 0) by (nonlinear_arith)
            requires
                a >= 0,
                p > 0,
        ;
    }
}

/// Whether `a` (of the smaller scale) and `b` denote the same number.
fn same_value_ordered(a: &Fixed, b: &Fixed) -> (r: bool)
    requires
        a.scale <= b.scale,
    ensures
        r == a.same_value(*b),
{
    let d = b.scale - a.scale;
    let x = magnitude(a.mantissa);
    let y = magnitude(b.mantissa);
    let scaled = scaled_equals(x, d, y);
    proof {
        let p = pow10(d as nat);
        let q = pow10(a.scale as nat);
        lemma_pow10_add(a.scale as nat, d as nat);
        lemma_pow10_mono(0, d as nat);
        lemma_pow10_mono(0, a.scale as nat);
        lemma_signed_scaled(a.mantissa as int, b.mantissa as int, p);
        let am = a.mantissa as int;
        let bm = b.mantissa as int;
        assert(am * (q * p) == bm * q <==> am * p == bm) by (nonlinear_arith)
            requires
                q > 0,
        ;
    }
    (a.mantissa < 0) == (b.mantissa < 0) && scaled
}

impl PartialEq for Fixed {
    fn eq(&self, other: &Fixed) -> (r: bool) {
        if self.scale <= other.scale {
            same_value_ordered(self, other)
        } else {
            same_value_ordered(other, self)
        }
    }
}

impl vstd::std_specs::cmp::PartialEqSpecImpl for Fixed {
    open spec fn obeys_eq_spec() -> bool {
        true
    }

    open spec fn eq_spec(&self, other: &Fixed) -> bool {
        self.same_value(*other)
    }
}

} // verus!

verus! {

/// What rust_decimal's checked division returns for two decimals.
pub uninterp spec fn decimal_quotient(dividend: Fixed, divisor: Fixed) -> Option<Fixed>;

/// Relies on rust_decimal's `Decimal::checked_div`, with `from_i128_with_scale`,
/// `mantissa` and `scale` to convert: `None` for a zero divisor (and on
/// overflow), exactly zero for a zero dividend, and a quotient that is itself a
/// decimal within 96 bits and scale 28.
#[verifier::external_body]
pub(crate) fn checked_quotient(dividend: Fixed, divisor: Fixed) -> (r: Option<Fixed>)
    requires
        dividend.wf(),
        divisor.wf(),
    ensures
        r == decimal_quotient(dividend, divisor),
        divisor.mantissa == 0 ==> r is None,
        dividend.mantissa == 0 && divisor.mantissa != 0 ==> r == Some((Fixed { mantissa: 0, scale: 0 })),
        r matches Some(q) ==> q.wf(),
{
    let a = rust_decimal::Decimal::from_i128_with_scale(dividend.mantissa, dividend.scale);
    let b = rust_decimal::Decimal::from_i128_with_scale(divisor.mantissa, divisor.scale);
    match a.checked_div(b) {
        Some(q) => Some(Fixed { mantissa: q.mantissa(), scale: q.scale() }),
        None => None,
    }
}

} // verus!
