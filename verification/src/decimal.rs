//! Fixed-point decimal numbers as a mantissa and a scale.
//!
//! A `Decimal` stands for `mantissa / 10^scale`. Parsing is left to the
//! `rust_decimal` crate; everything else is decided on the two integers.

use vstd::prelude::*;

verus! {

/// The largest mantissa, in absolute value, that 96 bits hold.
pub const MAX_MANTISSA: i128 = 0xFFFF_FFFF_FFFF_FFFF_FFFF_FFFF;

/// The largest scale.
pub const MAX_SCALE: u32 = 28;

/// A decimal number: `mantissa / 10^scale`.
///
/// `==` compares the representation, so `1.0` and `1.00` differ; the numeric
/// order is given by [`Decimal::le`] and [`Decimal::same_value`].
#[derive(Clone, Copy, Debug, PartialEq, Eq, Structural)]
pub struct Decimal {
    pub mantissa: i128,
    pub scale: u32,
}

/// Ten to the power `e`.
pub open spec fn pow10(e: nat) -> nat
    decreases e,
{
    if e == 0 {
        1
    } else {
        10 * pow10((e - 1) as nat)
    }
}

/// What `rust_decimal` reads from a text: the number, or nothing where the
/// text is no decimal numeral.
pub uninterp spec fn decimal_from_text(text: Seq<char>) -> Option<Decimal>;

/// Trusted: `rust_decimal::Decimal::from_str`, with the parsed number taken
/// apart by `mantissa()` and `scale()`. The result is a function of the text
/// alone and is only named.
#[verifier::external_body]
pub(crate) fn parse_decimal(text: &str) -> (r: Option<Decimal>)
    ensures
        r == decimal_from_text(text@),
{
    match text.parse::<rust_decimal::Decimal>() {
        Ok(d) => Some(Decimal { mantissa: d.mantissa(), scale: d.scale() }),
        Err(_) => None,
    }
}

impl Decimal {
    /// The number fits the 96 bits and 28 places of the stored form.
    pub open spec fn wf(self) -> bool {
        &&& -MAX_MANTISSA <= self.mantissa <= MAX_MANTISSA
        &&& self.scale <= MAX_SCALE
    }

    /// `self <= other` as numbers.
    pub open spec fn le(self, other: Decimal) -> bool {
        self.mantissa * pow10(other.scale as nat) <= other.mantissa * pow10(self.scale as nat)
    }

    /// `self == other` as numbers.
    pub open spec fn same_value(self, other: Decimal) -> bool {
        self.mantissa * pow10(other.scale as nat) == other.mantissa * pow10(self.scale as nat)
    }

    /// The whole number `n`.
    pub fn from_int(n: i64) -> (d: Decimal)
        ensures
            d == (Decimal { mantissa: n as i128, scale: 0 }),
            d.wf(),
    {
        Decimal { mantissa: n as i128, scale: 0 }
    }

    /// The order of two decimals as numbers: -1, 0 or 1.
    pub fn order_with(&self, other: &Decimal) -> (r: i8)
        ensures
            r == order(*self, *other),
            (r <= 0) == self.le(*other),
            (r == 0) == self.same_value(*other),
    {
        let ghost pa = pow10(self.scale as nat) as int;
        let ghost pb = pow10(other.scale as nat) as int;
        let ghost ma = self.mantissa as int;
        let ghost mb = other.mantissa as int;
        proof {
            lemma_pow10_positive(self.scale as nat);
            lemma_pow10_positive(other.scale as nat);
        }
        if self.scale <= other.scale {
            let k: u32 = other.scale - self.scale;
            let ghost pk = pow10(k as nat) as int;
            proof {
                lemma_pow10_add(k as nat, self.scale as nat);
                assert(pb == pk * pa);
                assert(ma * (pk * pa) - mb * pa == (ma * pk - mb) * pa) by (nonlinear_arith);
                assert(sign((ma * pk - mb) * pa) == sign(ma * pk - mb)) by (nonlinear_arith)
                    requires
                        pa > 0,
                ;
            }
            signed_scaled_sign(self.mantissa, k, other.mantissa)
        } else {
            let k: u32 = self.scale - other.scale;
            let ghost pk = pow10(k as nat) as int;
            proof {
                lemma_pow10_add(k as nat, other.scale as nat);
                assert(pa == pk * pb);
                assert(ma * pb - mb * (pk * pb) == -((mb * pk - ma) * pb)) by (nonlinear_arith);
                assert(sign((mb * pk - ma) * pb) == sign(mb * pk - ma)) by (nonlinear_arith)
                    requires
                        pb > 0,
                ;
            }
            let s = signed_scaled_sign(other.mantissa, k, self.mantissa);
            -s
        }
    }

    /// Whether `self <= other` as numbers.
    pub fn at_most(&self, other: &Decimal) -> (r: bool)
        ensures
            r == self.le(*other),
    {
        self.order_with(other) <= 0
    }

    /// Whether `self == other` as numbers.
    pub fn equals(&self, other: &Decimal) -> (r: bool)
        ensures
            r == self.same_value(*other),
    {
        self.order_with(other) == 0
    }

    /// Whether the number fits the stored form.
    pub fn fits(&self) -> (r: bool)
        ensures
            r == self.wf(),
    {
        -MAX_MANTISSA <= self.mantissa && self.mantissa <= MAX_MANTISSA && self.scale <= MAX_SCALE
    }

    /// Whether the number is below zero.
    pub fn is_negative(&self) -> (r: bool)
        ensures
            r == (self.mantissa < 0),
    {
        self.mantissa < 0
    }

    /// Whether the number is zero.
    pub fn is_zero(&self) -> (r: bool)
        ensures
            r == (self.mantissa == 0),
    {
        self.mantissa == 0
    }

    /// Whether the number is above zero.
    pub fn is_positive(&self) -> (r: bool)
        ensures
            r == (self.mantissa > 0),
    {
        self.mantissa > 0
    }
}

/// The sign of a number: -1, 0 or 1.
pub open spec fn sign(x: int) -> int {
    if x < 0 {
        -1
    } else if x == 0 {
        0
    } else {
        1
    }
}

/// Powers of ten multiply as their exponents add.
pub proof fn lemma_pow10_add(a: nat, b: nat)
    ensures
        pow10(a + b) == pow10(a) * pow10(b),
    decreases a,
{
    if a == 0 {
        assert(pow10(0) == 1);
        assert(pow10(a + b) == 1 * pow10(b));
    } else {
        lemma_pow10_add((a - 1) as nat, b);
        let x = pow10((a - 1) as nat) as int;
        let y = pow10(b) as int;
        assert(pow10(a + b) == 10 * pow10((a - 1 + b) as nat));
        assert(10 * (x * y) == (10 * x) * y) by (nonlinear_arith);
    }
}

/// A positive number times a power of ten does not shrink as the exponent
/// grows.
pub proof fn lemma_scaled_grows(x: int, i: nat, k: nat)
    requires
        x > 0,
        i <= k,
    ensures
        x * pow10(i) <= x * pow10(k),
        x <= x * pow10(i),
{
    lemma_pow10_add(i, (k - i) as nat);
    lemma_pow10_positive(i);
    lemma_pow10_positive((k - i) as nat);
    let p = pow10(i) as int;
    let q = pow10((k - i) as nat) as int;
    assert(x * p <= x * (p * q)) by (nonlinear_arith)
        requires
            x > 0,
            p > 0,
            q >= 1,
    ;
    assert(x <= x * p) by (nonlinear_arith)
        requires
            x > 0,
            p >= 1,
    ;
}

/// The size of a mantissa.
fn magnitude(m: i128) -> (r: u128)
    ensures
        m >= 0 ==> r == m,
        m < 0 ==> r == -m,
{
    if m >= 0 {
        m as u128
    } else {
        (-(m + 1)) as u128 + 1
    }
}

/// The sign of `x * 10^k - y`, for numbers that are not negative.
fn scaled_sign(x: u128, k: u32, y: u128) -> (r: i8)
    ensures
        r == sign(x * pow10(k as nat) - y),
{
    if x == 0 {
        assert(0 * pow10(k as nat) == 0);
        return if y == 0 {
            0
        } else {
            -1
        };
    }
    if x > y {
        proof {
            lemma_scaled_grows(x as int, k as nat, k as nat);
        }
        return 1;
    }
    let mut cur: u128 = x;
    let mut i: u32 = 0;
    assert(x * pow10(0) == x) by {
        assert(pow10(0) == 1);
    }
    while i < k
        invariant
            i <= k,
            x > 0,
            cur == x * pow10(i as nat),
            cur <= y,
        decreases k - i,
    {
        proof {
            let p = pow10(i as nat) as int;
            assert(pow10((i + 1) as nat) == 10 * pow10(i as nat));
            assert(x * (10 * p) == (x * p) * 10) by (nonlinear_arith);
            lemma_scaled_grows(x as int, (i + 1) as nat, k as nat);
        }
        match cur.checked_mul(10) {
            None => {
                return 1;
            },
            Some(n) => {
                if n > y {
                    return 1;
                }
                cur = n;
                i += 1;
            },
        }
    }
    if cur == y {
        0
    } else {
        -1
    }
}

/// The sign of `x * 10^k - y`.
fn signed_scaled_sign(x: i128, k: u32, y: i128) -> (r: i8)
    ensures
        r == sign(x * pow10(k as nat) - y),
        -1 <= r <= 1,
{
    proof {
        lemma_pow10_positive(k as nat);
    }
    let ghost p = pow10(k as nat) as int;
    if x >= 0 && y >= 0 {
        scaled_sign(magnitude(x), k, magnitude(y))
    } else if x >= 0 {
        assert(x * p >= 0) by (nonlinear_arith)
            requires
                x >= 0,
                p > 0,
        ;
        1
    } else if y >= 0 {
        assert(x * p < 0) by (nonlinear_arith)
            requires
                x < 0,
                p > 0,
        ;
        -1
    } else {
        let s = scaled_sign(magnitude(x), k, magnitude(y));
        assert((-x) * p - (-y) == -(x * p - y)) by (nonlinear_arith);
        -s
    }
}

/// The order of two decimals as numbers: -1 where the first is smaller, 0
/// where they are equal, 1 where the first is larger.
pub open spec fn order(a: Decimal, b: Decimal) -> int {
    sign(a.mantissa * pow10(b.scale as nat) - b.mantissa * pow10(a.scale as nat))
}

/// Every power of ten is positive.
pub proof fn lemma_pow10_positive(e: nat)
    ensures
        pow10(e) > 0,
    decreases e,
{
    if e > 0 {
        lemma_pow10_positive((e - 1) as nat);
    }
}

/// The sign of a decimal is the sign of its mantissa: it is below zero, zero
/// or above zero exactly when it compares so with the number zero, whatever
/// the scale of either.
pub proof fn law_sign_is_order_against_zero(d: Decimal, zero_scale: u32)
    ensures
        d.mantissa < 0 <==> !(Decimal { mantissa: 0, scale: zero_scale }).le(d),
        d.mantissa == 0 <==> d.same_value(Decimal { mantissa: 0, scale: zero_scale }),
        d.mantissa <= 0 <==> d.le(Decimal { mantissa: 0, scale: zero_scale }),
{
    lemma_pow10_positive(zero_scale as nat);
    lemma_pow10_positive(d.scale as nat);
    let p = pow10(zero_scale as nat) as int;
    let m = d.mantissa as int;
    assert(0 * pow10(d.scale as nat) == 0);
    assert(m < 0 ==> m * p < 0) by (nonlinear_arith)
        requires
            p > 0,
    ;
    assert(m > 0 ==> m * p > 0) by (nonlinear_arith)
        requires
            p > 0,
    ;
    assert(m == 0 ==> m * p == 0) by (nonlinear_arith);
}

} // verus!
