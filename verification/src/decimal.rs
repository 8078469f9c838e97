//! Natural numbers in decimal notation.

use vstd::prelude::*;

verus! {

/// The character that stands for the digit `d`, for `d` below ten.
pub open spec fn digit(d: nat) -> char {
    seq!['0', '1', '2', '3', '4', '5', '6', '7', '8', '9'][d as int]
}

/// Whether `c` is one of the ten digits.
pub open spec fn is_digit(c: char) -> bool {
    exists|d: nat| d < 10 && c == #[trigger] digit(d)
}

/// The number that the digit `c` stands for.
pub open spec fn digit_value(c: char) -> nat {
    choose|d: nat| d < 10 && c == #[trigger] digit(d)
}

/// `n` in decimal notation: its digits from the most significant to the
/// least, with no sign, separator or padding.
pub open spec fn decimal(n: nat) -> Seq<char>
    decreases n,
{
    if n < 10 {
        seq![digit(n)]
    } else {
        decimal(n / 10).push(digit(n % 10))
    }
}

/// The number that a sequence of digits denotes in decimal notation.
pub open spec fn decimal_value(digits: Seq<char>) -> nat
    decreases digits.len(),
{
    if digits.len() == 0 {
        0
    } else {
        decimal_value(digits.drop_last()) * 10 + digit_value(digits.last())
    }
}

/// A digit stands for the number it was made from.
pub proof fn lemma_digit_value(d: nat)
    requires
        d < 10,
    ensures
        is_digit(digit(d)),
        digit_value(digit(d)) == d,
{
    let c = digit(d);
    let e = digit_value(c);
    assert(e < 10 && c == digit(e));
    assert(forall|a: nat, b: nat| a < 10 && b < 10 && digit(a) == digit(b) ==> a == b);
}

/// The decimal notation of `n` is made of digits only, has no leading zero
/// unless it is the single digit zero, and denotes `n`.
pub proof fn lemma_decimal_denotes(n: nat)
    ensures
        decimal(n).len() >= 1,
        decimal(n).len() == 1 <==> n < 10,
        forall|i: int| 0 <= i < decimal(n).len() ==> is_digit(#[trigger] decimal(n)[i]),
        decimal(n).len() > 1 ==> decimal(n)[0] != '0',
        n == 0 ==> decimal(n) == seq!['0'],
        decimal_value(decimal(n)) == n,
    decreases n,
{
    lemma_digit_value(n % 10);
    if n < 10 {
        let s = decimal(n);
        assert(s.drop_last().len() == 0);
        assert(decimal_value(s) == decimal_value(s.drop_last()) * 10 + digit_value(s.last()));
    } else {
        let head = decimal(n / 10);
        let s = decimal(n);
        lemma_decimal_denotes(n / 10);
        assert(s.drop_last() == head);
        assert(s.last() == digit(n % 10));
        assert(decimal_value(s) == decimal_value(head) * 10 + digit_value(s.last()));
        if head.len() == 1 {
            lemma_digit_value(n / 10);
            assert(head[0] == digit(n / 10));
        }
        assert(s[0] == head[0]);
    }
}

/// The one-character string of the digit `d`.
fn digit_str(d: u8) -> (s: &'static str)
    requires
        d < 10,
    ensures
        s@ == seq![digit(d as nat)],
{
    proof {
        reveal_strlit("0");
        reveal_strlit("1");
        reveal_strlit("2");
        reveal_strlit("3");
        reveal_strlit("4");
        reveal_strlit("5");
        reveal_strlit("6");
        reveal_strlit("7");
        reveal_strlit("8");
        reveal_strlit("9");
    }
    let s = if d == 0 {
        "0"
    } else if d == 1 {
        "1"
    } else if d == 2 {
        "2"
    } else if d == 3 {
        "3"
    } else if d == 4 {
        "4"
    } else if d == 5 {
        "5"
    } else if d == 6 {
        "6"
    } else if d == 7 {
        "7"
    } else if d == 8 {
        "8"
    } else {
        "9"
    };
    assert(s@ =~= seq![digit(d as nat)]);
    s
}

/// Appends `n` in decimal notation to `out`.
pub fn push_decimal(out: &mut String, n: u128)
    ensures
        final(out)@ == old(out)@ + decimal(n as nat),
    decreases n,
{
    if n >= 10 {
        push_decimal(out, n / 10);
    }
    out.append(digit_str((n % 10) as u8));
}

/// `n` in decimal notation.
pub fn to_decimal(n: u128) -> (s: String)
    ensures
        s@ == decimal(n as nat),
{
    let mut s = String::new();
    push_decimal(&mut s, n);
    s
}

} // verus!
