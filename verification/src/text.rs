//! Rendering of numbers as text: upper-case hexadecimal and decimal digits.

use vstd::prelude::*;
use vstd::string::StringExecFns;

verus! {

/// The digit characters, in the order of their values.
pub open spec fn digit(d: int) -> char {
    "0123456789ABCDEF"@[d]
}

/// The digits of `n` in base `base`, most significant first, without leading
/// zeros; a single `0` for zero.
pub open spec fn digits(n: nat, base: nat) -> Seq<char>
    recommends
        2 <= base <= 16,
    decreases n,
{
    if n < base || base < 2 {
        seq![digit(n as int)]
    } else {
        proof {
            lemma_quotient_is_smaller(n as int, base as int);
        }
        digits(n / base, base).push(digit((n % base) as int))
    }
}

/// Division by a base of at least 2 makes a number smaller, and the
/// remainder is a digit of that base.
pub proof fn lemma_quotient_is_smaller(n: int, base: int)
    requires
        2 <= base <= n,
    ensures
        0 < n / base < n,
        0 <= n % base < base,
{
    assert(0 < n / base < n && 0 <= n % base < base) by (nonlinear_arith)
        requires
            2 <= base <= n,
    ;
}

/// `n` in upper-case hexadecimal without leading zeros.
pub open spec fn upper_hex(n: nat) -> Seq<char> {
    digits(n, 16)
}

/// `n` in decimal.
pub open spec fn decimal(n: nat) -> Seq<char> {
    digits(n, 10)
}

/// `n` as four upper-case hexadecimal digits.
pub open spec fn hex_word(n: u16) -> Seq<char> {
    seq![
        digit(n as int / 0x1000),
        digit((n as int / 0x100) % 0x10),
        digit((n as int / 0x10) % 0x10),
        digit(n as int % 0x10),
    ]
}

/// The text of one digit.
pub fn digit_text(d: u8) -> (text: &'static str)
    requires
        d < 16,
    ensures
        text@ == seq![digit(d as int)],
{
    let all = "0123456789ABCDEF";
    proof {
        reveal_strlit("0123456789ABCDEF");
    }
    all.substring_ascii(d as usize, d as usize + 1)
}

/// Appends the digits of `n` in base `base`.
pub fn push_digits(out: &mut String, n: usize, base: usize)
    requires
        2 <= base <= 16,
    ensures
        final(out)@ == old(out)@ + digits(n as nat, base as nat),
    decreases n,
{
    if n >= base {
        proof {
            lemma_quotient_is_smaller(n as int, base as int);
        }
        push_digits(out, n / base, base);
    } else {
        assert(n % base == n) by (nonlinear_arith)
            requires
                0 <= n < base,
        ;
    }
    let last = digit_text((n % base) as u8);
    out.append(last);
    proof {
        let first = digits((n / base) as nat, base as nat);
        assert((old(out)@ + first) + last@ =~= old(out)@ + first.push(digit((n % base) as int)));
        assert(n < base ==> old(out)@ + last@ =~= old(out)@ + seq![digit(n as int)]);
    }
}

/// Appends `n` in upper-case hexadecimal, without leading zeros.
pub fn push_upper_hex(out: &mut String, n: u16)
    ensures
        final(out)@ == old(out)@ + upper_hex(n as nat),
{
    push_digits(out, n as usize, 16);
}

/// Appends `n` in upper-case hexadecimal behind the prefix `0x`.
pub fn push_prefixed_hex(out: &mut String, n: u16)
    ensures
        final(out)@ == old(out)@ + "0x"@ + upper_hex(n as nat),
{
    out.append("0x");
    push_digits(out, n as usize, 16);
}

/// Appends `n` as four upper-case hexadecimal digits.
pub fn push_hex_word(out: &mut String, n: u16)
    ensures
        final(out)@ == old(out)@ + hex_word(n),
{
    out.append(digit_text((n / 0x1000) as u8));
    out.append(digit_text(((n / 0x100) % 0x10) as u8));
    out.append(digit_text(((n / 0x10) % 0x10) as u8));
    out.append(digit_text((n % 0x10) as u8));
}

/// Appends `n` in decimal.
pub fn push_decimal(out: &mut String, n: usize)
    ensures
        final(out)@ == old(out)@ + decimal(n as nat),
{
    push_digits(out, n, 10);
}

} // verus!
