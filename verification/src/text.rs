//! Numbers as text: decimal and hexadecimal digits.

use vstd::prelude::*;

verus! {

/// The texts of a list of strings, in the same order.
pub open spec fn texts(strings: Seq<String>) -> Seq<Seq<char>> {
    strings.map_values(|s: String| s@)
}

/// The character that stands for the decimal digit `d`.
pub open spec fn digit_char(d: nat) -> char
    recommends
        d < 10,
{
    if d == 0 {
        '0'
    } else if d == 1 {
        '1'
    } else if d == 2 {
        '2'
    } else if d == 3 {
        '3'
    } else if d == 4 {
        '4'
    } else if d == 5 {
        '5'
    } else if d == 6 {
        '6'
    } else if d == 7 {
        '7'
    } else if d == 8 {
        '8'
    } else {
        '9'
    }
}

/// Whether `c` is one of the ten decimal digits.
pub open spec fn is_digit(c: char) -> bool {
    c == '0' || c == '1' || c == '2' || c == '3' || c == '4' || c == '5' || c == '6' || c == '7'
        || c == '8' || c == '9'
}

/// The number that the decimal digit `c` stands for.
pub open spec fn digit_value(c: char) -> nat
    recommends
        is_digit(c),
{
    if c == '0' {
        0
    } else if c == '1' {
        1
    } else if c == '2' {
        2
    } else if c == '3' {
        3
    } else if c == '4' {
        4
    } else if c == '5' {
        5
    } else if c == '6' {
        6
    } else if c == '7' {
        7
    } else if c == '8' {
        8
    } else {
        9
    }
}

/// `n` written in base ten, without sign, padding or leading zeros.
pub open spec fn decimal(n: nat) -> Seq<char>
    decreases n,
{
    if n < 10 {
        seq![digit_char(n)]
    } else {
        decimal(n / 10).push(digit_char(n % 10))
    }
}

/// The number that a run of decimal digits denotes, the empty run denoting
/// zero.
pub open spec fn decimal_value(s: Seq<char>) -> nat
    decreases s.len(),
{
    if s.len() == 0 {
        0
    } else {
        decimal_value(s.drop_last()) * 10 + digit_value(s.last())
    }
}

/// Each digit character denotes the digit it was made from.
pub proof fn lemma_digit_value(d: nat)
    requires
        d < 10,
    ensures
        is_digit(digit_char(d)),
        digit_value(digit_char(d)) == d,
{
}

/// The decimal text of a number is never empty and holds digits only.
pub proof fn lemma_decimal_is_digits(n: nat)
    ensures
        decimal(n).len() >= 1,
        forall|i: int| 0 <= i < decimal(n).len() ==> is_digit(#[trigger] decimal(n)[i]),
    decreases n,
{
    if n < 10 {
        lemma_digit_value(n);
    } else {
        lemma_decimal_is_digits(n / 10);
        lemma_digit_value(n % 10);
    }
}

/// Reading the decimal text of a number gives the number back.
pub proof fn lemma_decimal_denotes(n: nat)
    ensures
        decimal_value(decimal(n)) == n,
    decreases n,
{
    if n < 10 {
        lemma_digit_value(n);
        let s = decimal(n);
        assert(s.drop_last() =~= Seq::<char>::empty());
        assert(decimal_value(s.drop_last()) == 0);
    } else {
        lemma_decimal_denotes(n / 10);
        lemma_digit_value(n % 10);
        let s = decimal(n);
        assert(s.drop_last() =~= decimal(n / 10));
    }
}

/// A number of ten or more starts with a digit other than zero.
pub proof fn lemma_decimal_has_no_leading_zero(n: nat)
    requires
        n >= 10,
    ensures
        decimal(n).len() >= 2,
        decimal(n)[0] != '0',
    decreases n,
{
    lemma_decimal_is_digits(n / 10);
    if n / 10 >= 10 {
        lemma_decimal_has_no_leading_zero(n / 10);
    }
}

/// The one-character text of a decimal digit.
fn digit_str(d: u64) -> (r: &'static str)
    requires
        d < 10,
    ensures
        r@ == seq![digit_char(d as nat)],
{
    proof {
        reveal_strlit("0");
        reveal_strlit("1");
        reveal_strlit("2");
        reveal_strlit("3");
        reveal_strlit("4");
        reveal_strlit("5");
        reveal_strlit("6");
        reveal_strlit("7");
        reveal_strlit("8");
        reveal_strlit("9");
    }
    let r = if d == 0 {
        "0"
    } else if d == 1 {
        "1"
    } else if d == 2 {
        "2"
    } else if d == 3 {
        "3"
    } else if d == 4 {
        "4"
    } else if d == 5 {
        "5"
    } else if d == 6 {
        "6"
    } else if d == 7 {
        "7"
    } else if d == 8 {
        "8"
    } else {
        "9"
    };
    assert(r@ =~= seq![digit_char(d as nat)]);
    r
}

/// Appends the decimal text of `n` to `out`.
pub fn push_decimal(out: &mut String, n: u64)
    ensures
        final(out)@ == old(out)@ + decimal(n as nat),
    decreases n,
{
    if n < 10 {
        out.append(digit_str(n));
    } else {
        push_decimal(out, n / 10);
        out.append(digit_str(n % 10));
        assert(out@ =~= old(out)@ + decimal(n as nat));
    }
}

/// `n` written in base ten.
pub fn decimal_string(n: u64) -> (r: String)
    ensures
        r@ == decimal(n as nat),
{
    let mut out = String::new();
    push_decimal(&mut out, n);
    assert(out@ =~= decimal(n as nat));
    out
}

/// A number of tenths written with one decimal place: the whole part in
/// base ten, a point, and the one digit of tenths.
pub open spec fn one_decimal(tenths: nat) -> Seq<char> {
    decimal(tenths / 10) + seq!['.', digit_char(tenths % 10)]
}

/// Appends `tenths` tenths to `out`, written with one decimal place.
pub fn push_one_decimal(out: &mut String, tenths: u64)
    ensures
        final(out)@ == old(out)@ + one_decimal(tenths as nat),
{
    proof {
        reveal_strlit(".");
    }
    push_decimal(out, tenths / 10);
    out.append(".");
    out.append(digit_str(tenths % 10));
    assert(out@ =~= old(out)@ + one_decimal(tenths as nat));
}

/// Text with one decimal place is a run of one or more digits, a point, and
/// exactly one more digit, whatever the size of the number.
pub proof fn lemma_one_decimal_shape(tenths: nat)
    ensures
        one_decimal(tenths).len() >= 3,
        forall|i: int|
            0 <= i < one_decimal(tenths).len() - 2 ==> is_digit(#[trigger] one_decimal(tenths)[i]),
        one_decimal(tenths)[one_decimal(tenths).len() - 2] == '.',
        is_digit(one_decimal(tenths).last()),
        one_decimal(tenths).last() == digit_char(tenths % 10),
        one_decimal(tenths).subrange(0, one_decimal(tenths).len() - 2) == decimal(tenths / 10),
{
    lemma_decimal_is_digits(tenths / 10);
    lemma_digit_value(tenths % 10);
    let whole = decimal(tenths / 10);
    let text = one_decimal(tenths);
    assert(text.len() == whole.len() + 2);
    assert forall|i: int| 0 <= i < text.len() - 2 implies is_digit(#[trigger] text[i]) by {
        assert(text[i] == whole[i]);
    }
    assert(text.subrange(0, text.len() - 2) =~= whole);
}

/// The character that stands for the hexadecimal digit `d`, in lower case.
pub open spec fn hex_digit_char(d: nat) -> char
    recommends
        d < 16,
{
    if d < 10 {
        digit_char(d)
    } else if d == 10 {
        'a'
    } else if d == 11 {
        'b'
    } else if d == 12 {
        'c'
    } else if d == 13 {
        'd'
    } else if d == 14 {
        'e'
    } else {
        'f'
    }
}

/// A byte as two hexadecimal digits in lower case, the high one first.
pub open spec fn hex_byte(byte: u8) -> Seq<char> {
    seq![hex_digit_char((byte / 16) as nat), hex_digit_char((byte % 16) as nat)]
}

} // verus!
