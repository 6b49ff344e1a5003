//! Decimal and fixed-point text, built without formatting machinery.

use vstd::prelude::*;

verus! {

/// The character for a decimal digit.
pub open spec fn digit_char(d: int) -> char {
    if d == 0 { '0' }
    else if d == 1 { '1' }
    else if d == 2 { '2' }
    else if d == 3 { '3' }
    else if d == 4 { '4' }
    else if d == 5 { '5' }
    else if d == 6 { '6' }
    else if d == 7 { '7' }
    else if d == 8 { '8' }
    else { '9' }
}

/// The decimal digits of a natural number, most significant first, no leading zeros.
pub open spec fn dec_digits(n: nat) -> Seq<char>
    decreases n,
{
    if n < 10 {
        seq![digit_char(n as int)]
    } else {
        dec_digits(n / 10).push(digit_char((n % 10) as int))
    }
}

/// The number a character stands for as a decimal digit, counted from '0'.
pub open spec fn digit_value(c: char) -> int {
    (c as int) - ('0' as int)
}

/// Whether every character of a text is one of '0' to '9'.
pub open spec fn all_digits(s: Seq<char>) -> bool {
    forall|i: int| 0 <= i < s.len() ==> '0' <= #[trigger] s[i] && s[i] <= '9'
}

/// The number a text of decimal digits reads as, most significant first.
pub open spec fn decimal_value(s: Seq<char>) -> int
    decreases s.len(),
{
    if s.len() == 0 {
        0
    } else {
        decimal_value(s.drop_last()) * 10 + digit_value(s.last())
    }
}

/// A digit's character reads back as the digit.
pub proof fn lemma_digit_char_value(d: int)
    requires
        0 <= d < 10,
    ensures
        digit_value(digit_char(d)) == d,
        '0' <= digit_char(d) && digit_char(d) <= '9',
        (digit_char(d) == '0') == (d == 0),
{
}

/// The digits written for `n` are a non-empty run of decimal digits, without
/// a leading zero unless `n` is zero, that reads back as `n`.
pub proof fn lemma_dec_digits_read_back(n: nat)
    ensures
        dec_digits(n).len() >= 1,
        all_digits(dec_digits(n)),
        decimal_value(dec_digits(n)) == n,
        dec_digits(n)[0] == '0' ==> n == 0,
    decreases n,
{
    if n < 10 {
        lemma_digit_char_value(n as int);
        let s = seq![digit_char(n as int)];
        assert(dec_digits(n) == s);
        assert(s.drop_last() =~= Seq::<char>::empty());
        assert(decimal_value(Seq::<char>::empty()) == 0);
        assert(decimal_value(s) == decimal_value(s.drop_last()) * 10 + digit_value(s.last()));
    } else {
        lemma_dec_digits_read_back(n / 10);
        lemma_digit_char_value((n % 10) as int);
        let d = dec_digits(n / 10);
        let x = digit_char((n % 10) as int);
        let s = d.push(x);
        assert(n == (n / 10) * 10 + n % 10);
        assert(dec_digits(n) == s);
        assert(s.drop_last() =~= d);
        assert(s.last() == x);
        assert(decimal_value(s) == decimal_value(s.drop_last()) * 10 + digit_value(s.last()));
        assert(decimal_value(s) == (n / 10) * 10 + (n % 10));
        assert(s[0] == d[0]);
        assert forall|i: int| 0 <= i < s.len() implies '0' <= #[trigger] s[i] && s[i] <= '9' by {
            if i < d.len() {
                assert(s[i] == d[i]);
            }
        }
    }
}

/// Appending a digit to a run of digits multiplies its value by ten and adds
/// the digit.
pub proof fn lemma_decimal_value_push(s: Seq<char>, c: char)
    ensures
        decimal_value(s.push(c)) == decimal_value(s) * 10 + digit_value(c),
{
    assert(s.push(c).drop_last() =~= s);
    assert(s.push(c).last() == c);
}

/// The decimal text of an integer, with a leading '-' when it is negative.
pub open spec fn signed_decimal(i: int) -> Seq<char> {
    if i < 0 {
        seq!['-'] + dec_digits((-i) as nat)
    } else {
        dec_digits(i as nat)
    }
}

fn digit_str(d: u64) -> (s: &'static str)
    requires
        d < 10,
    ensures
        s@ == seq![digit_char(d as int)],
{
    let s = if d == 0 { "0" }
    else if d == 1 { "1" }
    else if d == 2 { "2" }
    else if d == 3 { "3" }
    else if d == 4 { "4" }
    else if d == 5 { "5" }
    else if d == 6 { "6" }
    else if d == 7 { "7" }
    else if d == 8 { "8" }
    else { "9" };
    proof {
        reveal_strlit("0");
        reveal_strlit("1");
        reveal_strlit("2");
        reveal_strlit("3");
        reveal_strlit("4");
        reveal_strlit("5");
        reveal_strlit("6");
        reveal_strlit("7");
        reveal_strlit("8");
        reveal_strlit("9");
    }
    s
}

/// Appends the decimal digits of `n`.
pub fn push_decimal(out: &mut String, n: u64)
    ensures
        final(out)@ == old(out)@ + dec_digits(n as nat),
    decreases n,
{
    if n >= 10 {
        push_decimal(out, n / 10);
    }
    let d = digit_str(n % 10);
    out.append(d);
    proof {
        if n >= 10 {
            assert(dec_digits(n as nat) == dec_digits((n / 10) as nat).push(digit_char((n % 10) as int)));
        }
    }
}

/// Appends the decimal text of a signed integer.
pub fn push_signed_decimal(out: &mut String, i: i64)
    ensures
        final(out)@ == old(out)@ + signed_decimal(i as int),
{
    if i < 0 {
        out.append("-");
        let magnitude: u64 = (0i128 - i as i128) as u64;
        push_decimal(out, magnitude);
        proof {
            reveal_strlit("-");
        }
        assert(final(out)@ =~= old(out)@ + signed_decimal(i as int));
    } else {
        push_decimal(out, i as u64);
    }
}

/// The shortest text of a fraction of thousandths `f` (`0 <= f < 1000`):
/// empty for zero, else a '.' and up to three digits without trailing zeros.
pub open spec fn fraction_text(f: int) -> Seq<char> {
    if f == 0 {
        Seq::empty()
    } else if f % 100 == 0 {
        seq!['.', digit_char(f / 100)]
    } else if f % 10 == 0 {
        seq!['.', digit_char(f / 100), digit_char((f / 10) % 10)]
    } else {
        seq!['.', digit_char(f / 100), digit_char((f / 10) % 10), digit_char(f % 10)]
    }
}

/// The shortest decimal text of the number `m / 1000`: sign, integer part,
/// and at most three fractional digits with no trailing zeros.
pub open spec fn thousandths_text(m: int) -> Seq<char> {
    let a = if m < 0 { -m } else { m };
    (if m < 0 { seq!['-'] } else { Seq::empty() }) + dec_digits((a / 1000) as nat) + fraction_text(a % 1000)
}

/// Appends the shortest decimal text of `m / 1000`.
pub fn push_thousandths(out: &mut String, m: i64)
    ensures
        final(out)@ == old(out)@ + thousandths_text(m as int),
{
    let ghost start = out@;
    let a: u64 = if m < 0 { (0i128 - m as i128) as u64 } else { m as u64 };
    if m < 0 {
        out.append("-");
        proof {
            reveal_strlit("-");
        }
    }
    let ghost signed = out@;
    push_decimal(out, a / 1000);
    let ghost whole = out@;
    let f = a % 1000;
    if f != 0 {
        out.append(".");
        proof {
            reveal_strlit(".");
        }
        out.append(digit_str(f / 100));
        if f % 100 != 0 {
            out.append(digit_str((f / 10) % 10));
            if f % 10 != 0 {
                out.append(digit_str(f % 10));
            }
        }
    }
    assert(out@ =~= whole + fraction_text(f as int));
    assert(signed =~= start + (if m < 0 { seq!['-'] } else { Seq::<char>::empty() }));
    assert(out@ =~= start + thousandths_text(m as int));
}

} // verus!
