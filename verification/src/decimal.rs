//! Decimal rendering of integers, as the client writes them into its texts.

use vstd::prelude::*;

verus! {

/// The character of a decimal digit.
pub open spec fn digit_char(d: nat) -> char {
    (d + 48) as char
}

/// The decimal digits of `n`, most significant first, without leading zeros.
pub open spec fn decimal(n: nat) -> Seq<char>
    decreases n,
{
    if n < 10 {
        seq![digit_char(n)]
    } else {
        decimal(n / 10).push(digit_char(n % 10))
    }
}

/// The decimal text of a signed number: a minus sign before a negative one.
pub open spec fn signed_decimal(n: int) -> Seq<char> {
    if n < 0 {
        seq!['-'] + decimal((-n) as nat)
    } else {
        decimal(n as nat)
    }
}

/// The number that a text of decimal digits stands for.
pub open spec fn digits_value(s: Seq<char>) -> int
    decreases s.len(),
{
    if s.len() == 0 {
        0
    } else {
        digits_value(s.drop_last()) * 10 + (s.last() as int - 48)
    }
}

/// Every character of `s` is one of `0` to `9`.
pub open spec fn all_digits(s: Seq<char>) -> bool {
    forall|i: int| 0 <= i < s.len() ==> '0' <= #[trigger] s[i] <= '9'
}

/// Reading back the decimal text of `n` gives `n`: the text holds digits only,
/// starts with a digit other than zero unless `n` is zero, and stands for `n`.
pub proof fn decimal_reads_back(n: nat)
    ensures
        all_digits(decimal(n)),
        decimal(n).len() >= 1,
        n > 0 ==> decimal(n)[0] != '0',
        digits_value(decimal(n)) == n,
    decreases n,
{
    let d = n % 10;
    assert(digit_char(d) as int == d + 48);
    if n < 10 {
        assert(decimal(n).drop_last() =~= Seq::<char>::empty());
        assert(digits_value(Seq::<char>::empty()) == 0);
    } else {
        decimal_reads_back(n / 10);
        let s = decimal(n);
        assert(s.drop_last() =~= decimal(n / 10));
        assert(s[0] == decimal(n / 10)[0]);
        assert(s.last() == digit_char(d));
        assert(n == (n / 10) * 10 + n % 10) by (nonlinear_arith);
    }
}

/// `s` is the usual decimal text of `n`: digits only, at least one, no
/// leading zero unless `n` is zero itself, standing for `n`.
pub open spec fn is_decimal_of(s: Seq<char>, n: nat) -> bool {
    &&& all_digits(s)
    &&& s.len() >= 1
    &&& (s.len() > 1 ==> s[0] != '0')
    &&& digits_value(s) == n
}

/// `s` is the usual decimal text of the signed number `n`: a minus sign and
/// the text of `-n` when `n` is negative, the text of `n` otherwise.
pub open spec fn is_signed_decimal_of(s: Seq<char>, n: int) -> bool {
    if n < 0 {
        s.len() >= 1 && s[0] == '-' && is_decimal_of(s.drop_first(), (-n) as nat)
    } else {
        is_decimal_of(s, n as nat)
    }
}

/// The decimal text of a number is its usual decimal text.
pub proof fn decimal_is_usual_text(n: nat)
    ensures
        is_decimal_of(decimal(n), n),
{
    decimal_reads_back(n);
    if n == 0 {
        assert(decimal(n).len() == 1);
    }
}

/// The signed decimal text of a number is its usual decimal text.
pub proof fn signed_decimal_is_usual_text(n: int)
    ensures
        is_signed_decimal_of(signed_decimal(n), n),
{
    if n < 0 {
        decimal_is_usual_text((-n) as nat);
        assert((seq!['-'] + decimal((-n) as nat)).drop_first() =~= decimal((-n) as nat));
    } else {
        decimal_is_usual_text(n as nat);
    }
}

/// `String::push`: appends the character at the end of the string.
#[verifier::external_body]
pub(crate) fn string_push(s: &mut String, c: char)
    ensures
        final(s)@ == old(s)@.push(c),
{
    s.push(c)
}

/// Writes the decimal digits of `n` at the end of `s`.
pub fn push_decimal(s: &mut String, n: u64)
    ensures
        final(s)@ == old(s)@ + decimal(n as nat),
    decreases n,
{
    if n >= 10 {
        push_decimal(s, n / 10);
    }
    let d: u8 = (n % 10) as u8;
    let c: char = (d + 48) as char;
    string_push(s, c);
    assert(decimal(n as nat) == if n < 10 { seq![digit_char(n as nat)] } else {
        decimal((n / 10) as nat).push(digit_char((n % 10) as nat))
    });
}

/// Writes the decimal text of `n` at the end of `s`, a minus sign first when
/// it is negative.
pub fn push_signed_decimal(s: &mut String, n: i64)
    ensures
        final(s)@ == old(s)@ + signed_decimal(n as int),
{
    if n < 0 {
        string_push(s, '-');
        let m: i128 = -(n as i128);
        push_decimal(s, m as u64);
    } else {
        push_decimal(s, n as u64);
    }
}

} // verus!
