//! Decimal numerals: the spec-level decimal representation of a natural
//! number, a verified printer for it, and the lemmas that pin it down.

use vstd::prelude::*;
use vstd::string::StringExecFns;

verus! {

/// The character for one decimal digit.
pub open spec fn digit_char(d: nat) -> char {
    if d == 0 {
        '0'
    } else if d == 1 {
        '1'
    } else if d == 2 {
        '2'
    } else if d == 3 {
        '3'
    } else if d == 4 {
        '4'
    } else if d == 5 {
        '5'
    } else if d == 6 {
        '6'
    } else if d == 7 {
        '7'
    } else if d == 8 {
        '8'
    } else {
        '9'
    }
}

/// The decimal numeral of `n`, most significant digit first, with no
/// leading zeros (the numeral of zero is the single digit `'0'`).
pub open spec fn decimal_of(n: nat) -> Seq<char>
    decreases n,
{
    if n < 10 {
        seq![digit_char(n)]
    } else {
        decimal_of(n / 10).push(digit_char(n % 10))
    }
}

/// Whether a character is a decimal digit.
pub open spec fn is_decimal_digit(c: char) -> bool {
    0x30 <= c as u32 && c as u32 <= 0x39
}

/// The numeric value of one decimal digit character.
pub open spec fn digit_value(c: char) -> nat {
    (c as u32 - 0x30) as nat
}

/// The natural number that a sequence of decimal digit characters denotes.
pub open spec fn decimal_value(s: Seq<char>) -> nat
    decreases s.len(),
{
    if s.len() == 0 {
        0
    } else {
        decimal_value(s.drop_last()) * 10 + digit_value(s.last())
    }
}

proof fn lemma_digit_char_value(d: nat)
    requires
        d < 10,
    ensures
        is_decimal_digit(digit_char(d)),
        digit_value(digit_char(d)) == d,
{
}

/// The decimal numeral of `n` is never empty, consists of decimal digits
/// only, denotes exactly `n`, and carries no leading zero unless `n` is
/// itself zero.
pub proof fn lemma_decimal_exact(n: nat)
    ensures
        decimal_of(n).len() >= 1,
        forall|i: int|
            0 <= i < decimal_of(n).len() ==> is_decimal_digit(#[trigger] decimal_of(n)[i]),
        decimal_value(decimal_of(n)) == n,
        n >= 1 ==> decimal_of(n)[0] != '0',
    decreases n,
{
    if n < 10 {
        lemma_digit_char_value(n);
        assert(decimal_of(n).drop_last() =~= Seq::<char>::empty());
        assert(decimal_value(Seq::<char>::empty()) == 0);
        assert(decimal_value(decimal_of(n)) == decimal_value(decimal_of(n).drop_last()) * 10
            + digit_value(decimal_of(n).last()));
    } else {
        lemma_decimal_exact(n / 10);
        lemma_digit_char_value(n % 10);
        assert(decimal_of(n).drop_last() =~= decimal_of(n / 10));
        assert(decimal_of(n).last() == digit_char(n % 10));
        assert(decimal_value(decimal_of(n)) == decimal_value(decimal_of(n / 10)) * 10
            + digit_value(digit_char(n % 10)));
        vstd::arithmetic::div_mod::lemma_fundamental_div_mod(n as int, 10);
    }
}

/// The character for one decimal digit, as a one-character string.
fn digit_str(d: usize) -> (r: &'static str)
    requires
        d < 10,
    ensures
        r@ =~= seq![digit_char(d as nat)],
{
    proof {
        reveal_strlit("0");
        reveal_strlit("1");
        reveal_strlit("2");
        reveal_strlit("3");
        reveal_strlit("4");
        reveal_strlit("5");
        reveal_strlit("6");
        reveal_strlit("7");
        reveal_strlit("8");
        reveal_strlit("9");
    }
    if d == 0 {
        "0"
    } else if d == 1 {
        "1"
    } else if d == 2 {
        "2"
    } else if d == 3 {
        "3"
    } else if d == 4 {
        "4"
    } else if d == 5 {
        "5"
    } else if d == 6 {
        "6"
    } else if d == 7 {
        "7"
    } else if d == 8 {
        "8"
    } else {
        "9"
    }
}

/// Appends the decimal numeral of `n` to `out`.
pub fn push_decimal(out: &mut String, n: usize)
    ensures
        final (out)@ == old(out)@ + decimal_of(n as nat),
    decreases n,
{
    if n >= 10 {
        push_decimal(out, n / 10);
        out.append(digit_str(n % 10));
        assert(out@ =~= old(out)@ + decimal_of(n as nat));
    } else {
        out.append(digit_str(n));
        assert(out@ =~= old(out)@ + decimal_of(n as nat));
    }
}

} // verus!
