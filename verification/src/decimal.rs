//! Exit codes written out in decimal.
use vstd::prelude::*;

verus! {

/// The character of the decimal digit `d`.
pub open spec fn digit(d: int) -> char
    recommends
        0 <= d <= 9,
{
    "0123456789"@[d]
}

/// The decimal digits of `n`, most significant first, without leading zeros.
pub open spec fn digits(n: nat) -> Seq<char>
    decreases n,
{
    if n < 10 {
        seq![digit(n as int)]
    } else {
        digits(n / 10).push(digit((n % 10) as int))
    }
}

/// `n` in decimal, with a minus sign in front of a negative number.
pub open spec fn decimal(n: int) -> Seq<char> {
    if n < 0 {
        seq!['-'] + digits((-n) as nat)
    } else {
        digits(n as nat)
    }
}

/// The number that a digit character stands for.
pub open spec fn digit_value(c: char) -> int {
    c as u32 - '0' as u32
}

/// The number that a sequence of digit characters writes.
pub open spec fn digits_value(s: Seq<char>) -> nat
    decreases s.len(),
{
    if s.len() == 0 {
        0
    } else {
        (10 * digits_value(s.drop_last()) + digit_value(s.last())) as nat
    }
}

/// The number that a decimal text writes: the reading of [`decimal`].
pub open spec fn decimal_value(s: Seq<char>) -> int {
    if s.len() > 0 && s[0] == '-' {
        -(digits_value(s.drop_first()) as int)
    } else {
        digits_value(s) as int
    }
}

/// The digits of a number write that number, begin with no minus sign and are
/// at least one.
pub proof fn lemma_digits_value(n: nat)
    ensures
        digits_value(digits(n)) == n,
        digits(n).len() >= 1,
        digits(n)[0] != '-',
    decreases n,
{
    reveal_strlit("0123456789");
    if n < 10 {
        let s = digits(n);
        assert(digits_value(s.drop_last()) == 0);
    } else {
        lemma_digits_value(n / 10);
        let s = digits(n);
        assert(s.drop_last() =~= digits(n / 10));
    }
}

/// A number is read back from its decimal text: two numbers with the same
/// text are the same number.
pub proof fn lemma_decimal_value(n: int)
    ensures
        decimal_value(decimal(n)) == n,
{
    if n < 0 {
        let m = (-n) as nat;
        lemma_digits_value(m);
        let s = decimal(n);
        assert(s.drop_first() =~= digits(m));
    } else {
        lemma_digits_value(n as nat);
    }
}

/// The text of one decimal digit.
fn digit_text(d: u32) -> (text: &'static str)
    requires
        d <= 9,
    ensures
        text@ == seq![digit(d as int)],
{
    proof {
        reveal_strlit("0123456789");
    }
    "0123456789".substring_ascii(d as usize, d as usize + 1)
}

/// Appends the decimal digits of `n` to `out`.
fn push_digits(out: &mut String, n: u32)
    ensures
        final(out)@ == old(out)@ + digits(n as nat),
    decreases n,
{
    if n >= 10 {
        push_digits(out, n / 10);
        out.append(digit_text(n % 10));
    } else {
        out.append(digit_text(n));
    }
}

/// Writes an exit code in decimal.
pub fn decimal_text(n: i32) -> (text: String)
    ensures
        text@ == decimal(n as int),
{
    let mut text = String::new();
    if n < 0 {
        proof {
            reveal_strlit("-");
        }
        text.append("-");
        let magnitude: u32 = (-(n as i64)) as u32;
        push_digits(&mut text, magnitude);
    } else {
        let magnitude: u32 = n as u32;
        push_digits(&mut text, magnitude);
    }
    text
}

} // verus!
