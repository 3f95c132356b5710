//! Decimal text of natural numbers.

use vstd::prelude::*;
use vstd::string::*;

verus! {

/// The character that shows the decimal digit `d`.
pub open spec fn digit_char(d: int) -> char {
    if d == 0 {
        '0'
    } else if d == 1 {
        '1'
    } else if d == 2 {
        '2'
    } else if d == 3 {
        '3'
    } else if d == 4 {
        '4'
    } else if d == 5 {
        '5'
    } else if d == 6 {
        '6'
    } else if d == 7 {
        '7'
    } else if d == 8 {
        '8'
    } else {
        '9'
    }
}

/// The decimal digits of `n`, most significant first, without leading zeros.
pub open spec fn decimal(n: nat) -> Seq<char>
    decreases n,
{
    if n < 10 {
        seq![digit_char(n as int)]
    } else {
        decimal(n / 10).push(digit_char((n % 10) as int))
    }
}

/// The digits of `rest` from the digit of weight `place` downwards, up to the
/// last digit that is not zero. `place` is a power of ten and `rest` is below
/// ten times `place`.
pub open spec fn fraction_digits(rest: nat, place: nat) -> Seq<char>
    decreases place,
{
    if rest == 0 || place == 0 {
        Seq::<char>::empty()
    } else {
        seq![digit_char((rest / place) as int)] + fraction_digits(rest % place, place / 10)
    }
}

/// Whether `place` is one of the six decimal weights below one million.
pub open spec fn is_place(place: nat) -> bool {
    place == 1 || place == 10 || place == 100 || place == 1_000 || place == 10_000 || place
        == 100_000
}

/// The digit that a character shows, and ten for a character that shows none.
pub open spec fn digit_value(c: char) -> nat {
    if c == '0' {
        0
    } else if c == '1' {
        1
    } else if c == '2' {
        2
    } else if c == '3' {
        3
    } else if c == '4' {
        4
    } else if c == '5' {
        5
    } else if c == '6' {
        6
    } else if c == '7' {
        7
    } else if c == '8' {
        8
    } else if c == '9' {
        9
    } else {
        10
    }
}

/// The number that a sequence of digits shows, most significant first.
pub open spec fn digits_value(digits: Seq<char>) -> nat
    decreases digits.len(),
{
    if digits.len() == 0 {
        0
    } else {
        digits_value(digits.drop_last()) * 10 + digit_value(digits.last())
    }
}

/// The number that a sequence of digits shows where the first digit has the
/// weight `place`, the next a tenth of it, and so on.
pub open spec fn fraction_value(digits: Seq<char>, place: nat) -> nat
    decreases digits.len(),
{
    if digits.len() == 0 {
        0
    } else {
        digit_value(digits[0]) * place + fraction_value(digits.skip(1), place / 10)
    }
}

/// Whether every character of `digits` shows a digit.
pub open spec fn all_digits(digits: Seq<char>) -> bool {
    forall|i: int| 0 <= i < digits.len() ==> digit_value(#[trigger] digits[i]) < 10
}

/// The decimal text of a number reads back as the number. It has at least
/// one digit, holds digits only, and starts with a zero only for zero.
pub proof fn lemma_decimal_reads_back(n: nat)
    ensures
        digits_value(decimal(n)) == n,
        decimal(n).len() >= 1,
        all_digits(decimal(n)),
        n > 0 ==> decimal(n)[0] != '0',
    decreases n,
{
    if n < 10 {
        assert(decimal(n).drop_last() =~= Seq::<char>::empty());
        assert(digits_value(decimal(n).drop_last()) == 0);
    } else {
        lemma_decimal_reads_back(n / 10);
        let init = decimal(n / 10);
        let last = digit_char((n % 10) as int);
        assert(init.push(last).drop_last() =~= init);
        assert(decimal(n)[0] == init[0]);
        assert forall|i: int| 0 <= i < decimal(n).len() implies digit_value(
            #[trigger] decimal(n)[i],
        ) < 10 by {
            if i < init.len() {
                assert(decimal(n)[i] == init[i]);
            }
        }
    }
}

/// The fraction digits of a number read back as the number. There are at
/// most as many as there are places, they are digits only, and the last is
/// no zero.
pub proof fn lemma_fraction_reads_back(rest: nat, place: nat)
    requires
        is_place(place),
        rest < 10 * place,
    ensures
        fraction_value(fraction_digits(rest, place), place) == rest,
        all_digits(fraction_digits(rest, place)),
        fraction_digits(rest, place).len() > 0 ==> fraction_digits(rest, place).last() != '0',
        rest > 0 ==> fraction_digits(rest, place).len() > 0,
        place == 100_000 ==> fraction_digits(rest, place).len() <= 6,
        place == 10_000 ==> fraction_digits(rest, place).len() <= 5,
        place == 1_000 ==> fraction_digits(rest, place).len() <= 4,
        place == 100 ==> fraction_digits(rest, place).len() <= 3,
        place == 10 ==> fraction_digits(rest, place).len() <= 2,
        place == 1 ==> fraction_digits(rest, place).len() <= 1,
    decreases place,
{
    if rest != 0 {
        let first = digit_char((rest / place) as int);
        let tail = fraction_digits(rest % place, place / 10);
        let all = fraction_digits(rest, place);
        assert(all =~= seq![first] + tail);
        assert(all.skip(1) =~= tail);
        assert(rest / place < 10);
        assert(digit_value(first) == rest / place);
        if place >= 10 {
            lemma_fraction_reads_back(rest % place, place / 10);
        } else {
            assert(rest % place == 0);
            assert(tail =~= Seq::<char>::empty());
        }
        assert(rest == (rest / place) * place + rest % place) by (nonlinear_arith)
            requires
                place > 0,
        ;
        assert(all[0] == first);
        assert(fraction_value(tail, place / 10) == rest % place);
        assert(fraction_value(all, place) == digit_value(all[0]) * place + fraction_value(
            all.skip(1),
            place / 10,
        ));
        assert forall|i: int| 0 <= i < all.len() implies digit_value(#[trigger] all[i]) < 10 by {
            if i > 0 {
                assert(all[i] == tail[i - 1]);
            }
        }
        if tail.len() > 0 {
            assert(all.last() == tail.last());
        } else {
            assert(rest % place == 0);
            assert(rest / place != 0);
        }
    }
}

/// The one-character text of a decimal digit.
pub(crate) fn digit_str(d: u8) -> (r: &'static str)
    requires
        d < 10,
    ensures
        r@ == seq![digit_char(d as int)],
{
    proof {
        reveal_strlit("0");
        reveal_strlit("1");
        reveal_strlit("2");
        reveal_strlit("3");
        reveal_strlit("4");
        reveal_strlit("5");
        reveal_strlit("6");
        reveal_strlit("7");
        reveal_strlit("8");
        reveal_strlit("9");
    }
    let r = if d == 0 {
        "0"
    } else if d == 1 {
        "1"
    } else if d == 2 {
        "2"
    } else if d == 3 {
        "3"
    } else if d == 4 {
        "4"
    } else if d == 5 {
        "5"
    } else if d == 6 {
        "6"
    } else if d == 7 {
        "7"
    } else if d == 8 {
        "8"
    } else {
        "9"
    };
    assert(r@ =~= seq![digit_char(d as int)]);
    r
}

/// Appends the decimal digits of `n` to `out`.
pub fn push_decimal(out: &mut String, n: u64)
    ensures
        final(out)@ == old(out)@ + decimal(n as nat),
    decreases n,
{
    if n >= 10 {
        push_decimal(out, n / 10);
    }
    out.append(digit_str((n % 10) as u8));
    assert(out@ =~= old(out)@ + decimal(n as nat));
}

/// Appends the digits of `rest` from weight `place` downwards, without
/// trailing zeros.
pub(crate) fn push_fraction_digits(out: &mut String, rest: u32, place: u32)
    requires
        is_place(place as nat),
        rest < 10 * place,
    ensures
        final(out)@ == old(out)@ + fraction_digits(rest as nat, place as nat),
    decreases place,
{
    if rest != 0 {
        out.append(digit_str((rest / place) as u8));
        if place >= 10 {
            push_fraction_digits(out, rest % place, place / 10);
        } else {
            assert(rest % place == 0);
            assert(fraction_digits((rest % place) as nat, (place / 10) as nat)
                =~= Seq::<char>::empty());
        }
        assert(out@ =~= old(out)@ + fraction_digits(rest as nat, place as nat));
    } else {
        assert(out@ =~= old(out)@ + fraction_digits(rest as nat, place as nat));
    }
}

} // verus!
