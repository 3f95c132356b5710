//! Fixed-point lengths.

use vstd::prelude::*;
use vstd::string::*;
use crate::decimal::{
    all_digits, decimal, digit_value, digits_value, fraction_digits, fraction_value,
    lemma_decimal_reads_back, lemma_fraction_reads_back, push_decimal, push_fraction_digits,
};

verus! {

/// The number of micro-units in one unit.
pub const MICROS_PER_UNIT: i64 = 1_000_000;

/// A length or factor with six decimal places, held as a count of
/// millionths. Arithmetic rounds to the nearest millionth and saturates at
/// the ends of the `i64` range.
#[derive(Clone, Copy, Debug, PartialEq, Eq, Structural)]
pub struct Scalar {
    pub micros: i64,
}

/// `v` brought into the range of `i64`.
pub open spec fn saturate(v: int) -> int {
    if v < i64::MIN {
        i64::MIN as int
    } else if v > i64::MAX {
        i64::MAX as int
    } else {
        v
    }
}

/// The quotient of `n` by `d`, rounded to the nearest integer, halves away
/// from zero. `d` is positive.
pub open spec fn div_nearest(n: int, d: int) -> int {
    if n >= 0 {
        (2 * n + d) / (2 * d)
    } else {
        -((2 * (-n) + d) / (2 * d))
    }
}

/// The millionths of the product of two counts of millionths.
pub open spec fn times_micros(a: int, b: int) -> int {
    saturate(div_nearest(a * b, 1_000_000))
}

/// The millionths of `num / den`. A zero denominator saturates by the sign
/// of the numerator.
pub open spec fn ratio_micros(num: int, den: int) -> int {
    if den > 0 {
        saturate(div_nearest(num * 1_000_000, den))
    } else if den < 0 {
        saturate(div_nearest(-num * 1_000_000, -den))
    } else if num > 0 {
        i64::MAX as int
    } else if num < 0 {
        i64::MIN as int
    } else {
        0
    }
}

/// The text of a count of millionths: an optional minus sign, the integral
/// digits, and, unless the fraction is zero, a point and the fraction digits
/// without trailing zeros.
pub open spec fn scalar_text(micros: int) -> Seq<char> {
    let magnitude = if micros < 0 {
        -micros
    } else {
        micros
    };
    let sign = if micros < 0 {
        seq!['-']
    } else {
        Seq::<char>::empty()
    };
    let fraction = magnitude % 1_000_000;
    let point = if fraction == 0 {
        Seq::<char>::empty()
    } else {
        seq!['.']
    };
    sign + decimal((magnitude / 1_000_000) as nat) + point + fraction_digits(
        fraction as nat,
        100_000,
    )
}

/// The rounded quotient is no further than half a unit from the exact
/// quotient, and it is the exact quotient where the division leaves no rest.
pub proof fn lemma_div_nearest_is_nearest(n: int, d: int)
    requires
        d > 0,
    ensures
        -d <= 2 * (div_nearest(n, d) * d - n) <= d,
        n % d == 0 ==> div_nearest(n, d) * d == n,
{
    let m = if n >= 0 {
        n
    } else {
        -n
    };
    let q = (2 * m + d) / (2 * d);
    let r = (2 * m + d) % (2 * d);
    assert(2 * m + d == q * (2 * d) + r && 0 <= r < 2 * d) by (nonlinear_arith)
        requires
            d > 0,
            q == (2 * m + d) / (2 * d),
            r == (2 * m + d) % (2 * d),
    ;
    assert(q * (2 * d) == 2 * (q * d)) by (nonlinear_arith);
    assert(2 * (q * d - m) == d - r);
    if n >= 0 {
        assert(div_nearest(n, d) == q);
    } else {
        assert(div_nearest(n, d) == -q);
        assert((-q) * d == -(q * d)) by (nonlinear_arith);
    }
    if n % d == 0 {
        let k = n / d;
        let rounded = div_nearest(n, d);
        vstd::arithmetic::div_mod::lemma_fundamental_div_mod(n, d);
        assert(n == d * k);
        assert(rounded == k) by (nonlinear_arith)
            requires
                -d <= 2 * (rounded * d - n) <= d,
                n == d * k,
                d > 0,
        ;
        assert(rounded * d == n) by (nonlinear_arith)
            requires
                rounded == k,
                n == d * k,
        ;
    }
}

/// The product does not depend on the order of its factors, and a number
/// times one is the number.
pub proof fn lemma_times_micros(a: int, b: int)
    ensures
        times_micros(a, b) == times_micros(b, a),
        i64::MIN <= a <= i64::MAX ==> times_micros(a, 1_000_000) == a,
{
    assert(a * b == b * a) by (nonlinear_arith);
    lemma_div_nearest_is_nearest(a * 1_000_000, 1_000_000);
    assert((a * 1_000_000) % 1_000_000 == 0) by (nonlinear_arith);
}

/// Where the first point of `text` stands, and the length of `text` where
/// it has none.
pub open spec fn point_position(text: Seq<char>) -> int
    decreases text.len(),
{
    if text.len() == 0 || text[0] == '.' {
        0
    } else {
        1 + point_position(text.skip(1))
    }
}

/// The count of millionths that a text shows: the digits before the point
/// count the units, the digits behind it the fraction, and a leading minus
/// sign negates.
pub open spec fn text_micros(text: Seq<char>) -> int {
    let negative = text.len() > 0 && text[0] == '-';
    let body = if negative {
        text.skip(1)
    } else {
        text
    };
    let at = point_position(body);
    let whole = digits_value(body.take(at));
    let fraction: nat = if at < body.len() {
        fraction_value(body.skip(at + 1), 100_000)
    } else {
        0
    };
    let magnitude = (whole * 1_000_000 + fraction) as int;
    if negative {
        -magnitude
    } else {
        magnitude
    }
}

proof fn lemma_point_behind_digits(digits: Seq<char>, rest: Seq<char>)
    requires
        all_digits(digits),
    ensures
        point_position(digits + rest) == digits.len() + point_position(rest),
    decreases digits.len(),
{
    if digits.len() == 0 {
        assert(digits + rest =~= rest);
    } else {
        let all = digits + rest;
        assert(all[0] == digits[0]);
        assert(digit_value(digits[0]) < 10);
        assert(all.skip(1) =~= digits.skip(1) + rest);
        assert forall|i: int| 0 <= i < digits.skip(1).len() implies digit_value(
            #[trigger] digits.skip(1)[i],
        ) < 10 by {
            assert(digits.skip(1)[i] == digits[i + 1]);
        }
        lemma_point_behind_digits(digits.skip(1), rest);
    }
}

/// The text of a number reads back as the number, so no two numbers have the
/// same text.
pub proof fn lemma_scalar_text_reads_back(micros: int)
    ensures
        text_micros(scalar_text(micros)) == micros,
{
    let magnitude = if micros < 0 {
        -micros
    } else {
        micros
    };
    let whole = (magnitude / 1_000_000) as nat;
    let fraction = (magnitude % 1_000_000) as nat;
    let units = decimal(whole);
    let point = if fraction == 0 {
        Seq::<char>::empty()
    } else {
        seq!['.']
    };
    let digits = fraction_digits(fraction, 100_000);
    let text = scalar_text(micros);
    lemma_decimal_reads_back(whole);
    lemma_fraction_reads_back(fraction, 100_000);
    assert(digit_value(units[0]) < 10);
    let body = units + point + digits;
    if micros < 0 {
        assert(text =~= seq!['-'] + body);
        assert(text[0] == '-');
        assert(text.skip(1) =~= body);
    } else {
        assert(text =~= body);
        assert(text[0] == units[0]);
    }
    assert(body =~= units + (point + digits));
    lemma_point_behind_digits(units, point + digits);
    let at = point_position(body);
    if fraction == 0 {
        assert(point + digits =~= Seq::<char>::empty());
        assert(at == body.len());
        assert(body.take(at) =~= units);
    } else {
        assert((point + digits)[0] == '.');
        assert(at == units.len());
        assert(body.take(at) =~= units);
        assert(body.skip(at + 1) =~= digits);
    }
}

/// Two numbers with the same text are the same number.
pub proof fn lemma_scalar_text_is_injective(a: int, b: int)
    requires
        scalar_text(a) == scalar_text(b),
    ensures
        a == b,
{
    lemma_scalar_text_reads_back(a);
    lemma_scalar_text_reads_back(b);
}

/// The magnitude of `v`.
fn magnitude(v: i64) -> (r: u64)
    ensures
        r == if v < 0 {
            -v
        } else {
            v as int
        },
{
    if v >= 0 {
        v as u64
    } else if v == i64::MIN {
        0x8000_0000_0000_0000u64
    } else {
        (-v) as u64
    }
}

/// `magnitude`, negated where `negative` holds, brought into `i64`.
fn signed_saturating(magnitude: u128, negative: bool) -> (r: i64)
    ensures
        r == saturate(
            if negative {
                -(magnitude as int)
            } else {
                magnitude as int
            },
        ),
{
    if negative {
        if magnitude >= 0x8000_0000_0000_0000u128 {
            i64::MIN
        } else {
            -(magnitude as i64)
        }
    } else {
        if magnitude > 0x7fff_ffff_ffff_ffffu128 {
            i64::MAX
        } else {
            magnitude as i64
        }
    }
}

impl Scalar {
    /// The number zero.
    pub fn zero() -> (r: Scalar)
        ensures
            r.micros == 0,
    {
        Scalar { micros: 0 }
    }

    /// The whole number `v`.
    pub fn from_int(v: i32) -> (r: Scalar)
        ensures
            r.micros == v * 1_000_000,
    {
        Scalar { micros: (v as i64) * MICROS_PER_UNIT }
    }

    /// The sum, saturating.
    pub fn plus(self, other: Scalar) -> (r: Scalar)
        ensures
            r.micros == saturate(self.micros + other.micros),
    {
        let sum: i128 = self.micros as i128 + other.micros as i128;
        if sum > i64::MAX as i128 {
            Scalar { micros: i64::MAX }
        } else if sum < i64::MIN as i128 {
            Scalar { micros: i64::MIN }
        } else {
            Scalar { micros: sum as i64 }
        }
    }

    /// The product, rounded to the nearest millionth and saturating.
    pub fn times(self, other: Scalar) -> (r: Scalar)
        ensures
            r.micros == times_micros(self.micros as int, other.micros as int),
    {
        let a: u128 = magnitude(self.micros) as u128;
        let b: u128 = magnitude(other.micros) as u128;
        assert(a * b <= 0x8000_0000_0000_0000 * 0x8000_0000_0000_0000) by (nonlinear_arith)
            requires
                a <= 0x8000_0000_0000_0000,
                b <= 0x8000_0000_0000_0000,
        ;
        let product: u128 = a * b;
        let quotient: u128 = (2 * product + 1_000_000) / 2_000_000;
        let negative = (self.micros < 0) != (other.micros < 0);
        proof {
            let x = self.micros as int;
            let y = other.micros as int;
            assert((x < 0) != (y < 0) ==> x * y <= 0) by (nonlinear_arith);
            assert((x < 0) == (y < 0) ==> x * y >= 0) by (nonlinear_arith);
            assert(x * y == product || x * y == -(product as int)) by (nonlinear_arith)
                requires
                    product == a * b,
                    a == if x < 0 {
                        -x
                    } else {
                        x
                    },
                    b == if y < 0 {
                        -y
                    } else {
                        y
                    },
            ;
        }
        Scalar { micros: signed_saturating(quotient, negative && quotient != 0) }
    }

    /// The quotient of two whole numbers, rounded to the nearest millionth
    /// and saturating.
    pub fn ratio(num: i64, den: i64) -> (r: Scalar)
        ensures
            r.micros == ratio_micros(num as int, den as int),
    {
        if den == 0 {
            if num > 0 {
                Scalar { micros: i64::MAX }
            } else if num < 0 {
                Scalar { micros: i64::MIN }
            } else {
                Scalar { micros: 0 }
            }
        } else {
            let n: u128 = magnitude(num) as u128 * 1_000_000;
            let d: u128 = magnitude(den) as u128;
            let quotient: u128 = (2 * n + d) / (2 * d);
            let negative = (num < 0) != (den < 0);
            proof {
                let x = num as int;
                let y = den as int;
                let q = quotient as int;
                assert(q == (2 * (n as int) + (d as int)) / (2 * (d as int)));
                if x == 0 {
                    assert((d as int) / (2 * (d as int)) == 0) by (nonlinear_arith)
                        requires
                            d > 0,
                    ;
                }
                if y > 0 {
                    assert(d == y);
                    if x >= 0 {
                        assert(n == x * 1_000_000);
                        assert(div_nearest(x * 1_000_000, y) == q);
                    } else {
                        assert(n == -(x * 1_000_000));
                        assert(div_nearest(x * 1_000_000, y) == -q);
                    }
                } else {
                    assert(d == -y);
                    if x > 0 {
                        assert(n == x * 1_000_000);
                        assert(div_nearest(-x * 1_000_000, -y) == -q);
                    } else {
                        assert(n == -x * 1_000_000);
                        assert(div_nearest(-x * 1_000_000, -y) == q);
                    }
                }
            }
            Scalar { micros: signed_saturating(quotient, negative && quotient != 0) }
        }
    }

    /// Appends the text of the number to `out`.
    pub fn write_to(&self, out: &mut String)
        ensures
            final(out)@ == old(out)@ + scalar_text(self.micros as int),
    {
        let m: u64 = magnitude(self.micros);
        if self.micros < 0 {
            out.append("-");
        }
        push_decimal(out, m / 1_000_000);
        let fraction: u32 = (m % 1_000_000) as u32;
        if fraction != 0 {
            out.append(".");
        }
        push_fraction_digits(out, fraction, 100_000);
        proof {
            reveal_strlit("-");
            reveal_strlit(".");
            assert("-"@ =~= seq!['-']);
            assert("."@ =~= seq!['.']);
            assert(out@ =~= old(out)@ + scalar_text(self.micros as int));
        }
    }

    /// The text of the number.
    pub fn to_text(&self) -> (r: String)
        ensures
            r@ == scalar_text(self.micros as int),
    {
        let mut out = String::new();
        self.write_to(&mut out);
        assert(out@ =~= scalar_text(self.micros as int));
        out
    }
}

} // verus!
