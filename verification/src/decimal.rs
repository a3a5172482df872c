//! Decimal notation of integers, as text.

use vstd::prelude::*;

verus! {

/// The character of the decimal digit `d`.
pub open spec fn digit_char(d: nat) -> char
    recommends
        d < 10,
{
    ('0' as nat + d) as char
}

/// The decimal digits of `n`, most significant first, without leading zeros (and a single
/// `0` for zero).
pub open spec fn decimal_digits(n: nat) -> Seq<char>
    decreases n,
{
    if n < 10 {
        seq![digit_char(n)]
    } else {
        decimal_digits(n / 10).push(digit_char(n % 10))
    }
}

/// The decimal notation of `v`: its digits, after a minus sign where it is negative.
pub open spec fn decimal(v: int) -> Seq<char> {
    if v < 0 {
        seq!['-'] + decimal_digits((-v) as nat)
    } else {
        decimal_digits(v as nat)
    }
}

/// The value of a decimal digit character: its distance from `0`.
pub open spec fn digit_value(c: char) -> int {
    c as int - '0' as int
}

/// Whether `c` is one of the characters `0` to `9`.
pub open spec fn is_digit(c: char) -> bool {
    '0' as int <= c as int <= '9' as int
}

/// The number that a sequence of decimal digits denotes, most significant first.
pub open spec fn digits_value(digits: Seq<char>) -> int
    decreases digits.len(),
{
    if digits.len() == 0 {
        0
    } else {
        digits_value(digits.drop_last()) * 10 + digit_value(digits.last())
    }
}

/// The decimal digits of `n` read back as `n`: each is a character from `0` to `9`,
/// weighted by its power of ten they sum to `n`, and there is no leading zero but for zero
/// itself.
pub proof fn law_decimal_digits_read_back(n: nat)
    ensures
        decimal_digits(n).len() >= 1,
        forall|i: int| 0 <= i < decimal_digits(n).len() ==> is_digit(#[trigger] decimal_digits(n)[i]),
        digits_value(decimal_digits(n)) == n,
        n > 0 ==> decimal_digits(n)[0] != '0',
    decreases n,
{
    if n < 10 {
        let d: Seq<char> = decimal_digits(n);
        assert(d =~= seq![digit_char(n)]);
        assert(d.drop_last() =~= Seq::<char>::empty());
        assert(digit_char(n) as int == '0' as int + n);
        assert(digits_value(d.drop_last()) == 0);
        assert(d.last() == digit_char(n));
        assert(digits_value(d) == digits_value(d.drop_last()) * 10 + digit_value(d.last()));
    } else {
        law_decimal_digits_read_back(n / 10);
        let prefix: Seq<char> = decimal_digits(n / 10);
        let d: Seq<char> = decimal_digits(n);
        assert(d == prefix.push(digit_char(n % 10)));
        assert(d.drop_last() =~= prefix);
        assert(digit_char(n % 10) as int == '0' as int + n % 10);
        assert forall|i: int| 0 <= i < d.len() implies is_digit(#[trigger] d[i]) by {
            if i < prefix.len() {
                assert(d[i] == prefix[i]);
            }
        }
        assert(d[0] == prefix[0]);
        assert(n == (n / 10) * 10 + n % 10);
        assert(d.last() == digit_char(n % 10));
        assert(digits_value(d) == digits_value(d.drop_last()) * 10 + digit_value(d.last()));
    }
}

/// The decimal notation of `v` reads back as `v`: a minus sign exactly where `v` is
/// negative, followed by the digits of its magnitude.
pub proof fn law_decimal_reads_back(v: int)
    ensures
        decimal(v).len() >= 1,
        (decimal(v)[0] == '-') <==> v < 0,
        v < 0 ==> digits_value(decimal(v).drop_first()) == -v,
        v >= 0 ==> digits_value(decimal(v)) == v,
        forall|i: int|
            (if v < 0 { 1int } else { 0int }) <= i < decimal(v).len() ==> is_digit(
                #[trigger] decimal(v)[i],
            ),
{
    if v < 0 {
        law_decimal_digits_read_back((-v) as nat);
        let digits: Seq<char> = decimal_digits((-v) as nat);
        assert(decimal(v).drop_first() =~= digits);
        assert forall|i: int| 1 <= i < decimal(v).len() implies is_digit(#[trigger] decimal(v)[i]) by {
            assert(decimal(v)[i] == digits[i - 1]);
        }
    } else {
        law_decimal_digits_read_back(v as nat);
        assert(is_digit(decimal(v)[0]));
    }
}

/// The text of the decimal digit `d`.
fn digit_str(d: u32) -> (s: &'static str)
    requires
        d < 10,
    ensures
        s@ == seq![digit_char(d as nat)],
{
    proof {
        reveal_strlit("0");
        reveal_strlit("1");
        reveal_strlit("2");
        reveal_strlit("3");
        reveal_strlit("4");
        reveal_strlit("5");
        reveal_strlit("6");
        reveal_strlit("7");
        reveal_strlit("8");
        reveal_strlit("9");
    }
    let s: &'static str = if d == 0 {
        "0"
    } else if d == 1 {
        "1"
    } else if d == 2 {
        "2"
    } else if d == 3 {
        "3"
    } else if d == 4 {
        "4"
    } else if d == 5 {
        "5"
    } else if d == 6 {
        "6"
    } else if d == 7 {
        "7"
    } else if d == 8 {
        "8"
    } else {
        "9"
    };
    assert(s@ =~= seq![digit_char(d as nat)]);
    s
}

/// Appends the decimal digits of `n` to `text`.
fn append_digits(text: &mut String, n: u32)
    ensures
        final(text)@ == old(text)@ + decimal_digits(n as nat),
    decreases n,
{
    if n >= 10 {
        append_digits(text, n / 10);
    }
    let last: &'static str = digit_str(n % 10);
    text.append(last);
    proof {
        if n >= 10 {
            assert(decimal_digits(n as nat) == decimal_digits((n / 10) as nat).push(
                digit_char((n % 10) as nat),
            ));
        }
        assert(text@ =~= old(text)@ + decimal_digits(n as nat));
    }
}

/// Appends the decimal notation of `v` to `text`.
pub fn append_decimal(text: &mut String, v: i32)
    ensures
        final(text)@ == old(text)@ + decimal(v as int),
{
    if v < 0 {
        proof {
            reveal_strlit("-");
        }
        text.append("-");
        let magnitude: u32 = (0i64 - v as i64) as u32;
        append_digits(text, magnitude);
        assert(text@ =~= old(text)@ + decimal(v as int));
    } else {
        append_digits(text, v as u32);
    }
}

} // verus!
