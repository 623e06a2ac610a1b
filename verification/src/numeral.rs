//! Numbers as text: positional notation without leading zeros, in lower
//! case, for any radix from two to sixteen.

use vstd::prelude::*;

verus! {

/// Appends `c` to `text` by `String::push`. Trusted: the string afterwards is
/// the string before, followed by `c`.
#[verifier::external_body]
pub(crate) fn push_char(text: &mut String, c: char)
    ensures
        final(text)@ == old(text)@.push(c),
{
    text.push(c);
}

/// The character that writes the digit `d`: `0` to `9`, then `a` to `f`.
pub open spec fn digit_char(d: int) -> char
    recommends
        0 <= d < 16,
{
    if d < 10 {
        ('0' as int + d) as char
    } else {
        ('a' as int + d - 10) as char
    }
}

/// The digit that `c` writes. The inverse of [`digit_char`] on its range.
pub open spec fn digit_value(c: char) -> int {
    if '0' <= c <= '9' {
        c as int - '0' as int
    } else {
        c as int - 'a' as int + 10
    }
}

/// `n` written in the given radix, most significant digit first.
pub open spec fn numeral(n: nat, radix: nat) -> Seq<char>
    recommends
        2 <= radix <= 16,
    decreases n,
    when radix >= 2
    via numeral_decreases
{
    if n < radix {
        seq![digit_char(n as int)]
    } else {
        numeral(n / radix, radix).push(digit_char((n % radix) as int))
    }
}

#[via_fn]
proof fn numeral_decreases(n: nat, radix: nat) {
    if n >= radix {
        assert(n / radix < n) by (nonlinear_arith)
            requires
                radix >= 2,
                n >= radix,
        ;
    }
}

/// The number that `text` writes in the given radix.
pub open spec fn numeral_value(text: Seq<char>, radix: nat) -> nat
    decreases text.len(),
{
    if text.len() == 0 {
        0
    } else {
        (numeral_value(text.drop_last(), radix) * radix + digit_value(text.last())) as nat
    }
}

/// A numeral is never empty, and starts with `0` only when it writes zero.
pub proof fn law_numeral_has_no_leading_zero(n: nat, radix: nat)
    requires
        2 <= radix <= 16,
    ensures
        numeral(n, radix).len() >= 1,
        numeral(n, radix)[0] == '0' ==> n == 0,
    decreases n,
{
    if n >= radix {
        assert(0 < n / radix < n) by (nonlinear_arith)
            requires
                radix >= 2,
                n >= radix,
        ;
        law_numeral_has_no_leading_zero(n / radix, radix);
    }
}

/// Reading a numeral back gives the number it was written from.
pub proof fn law_numeral_reads_back(n: nat, radix: nat)
    requires
        2 <= radix <= 16,
    ensures
        numeral_value(numeral(n, radix), radix) == n,
    decreases n,
{
    let text = numeral(n, radix);
    if n < radix {
        let high = numeral_value(text.drop_last(), radix);
        assert(high * radix == 0) by (nonlinear_arith)
            requires
                high == 0,
        ;
    } else {
        let high = numeral(n / radix, radix);
        assert(n / radix < n) by (nonlinear_arith)
            requires
                radix >= 2,
                n >= radix,
        ;
        law_numeral_reads_back(n / radix, radix);
        assert(text.drop_last() =~= high);
        assert((n / radix) * radix + n % radix == n) by (nonlinear_arith)
            requires
                radix >= 2,
        ;
    }
}

fn digit(d: u16) -> (c: char)
    requires
        d < 16,
    ensures
        c == digit_char(d as int),
{
    let d = d as u8;
    if d < 10 {
        (48u8 + d) as char
    } else {
        (87u8 + d) as char
    }
}

/// Appends `value`, written in `radix`, to `text`.
pub fn push_numeral(text: &mut String, value: u16, radix: u16)
    requires
        2 <= radix <= 16,
    ensures
        final(text)@ == old(text)@ + numeral(value as nat, radix as nat),
    decreases value,
{
    if value >= radix {
        assert(value / radix < value) by (nonlinear_arith)
            requires
                radix >= 2,
                value >= radix,
        ;
        push_numeral(text, value / radix, radix);
    }
    push_char(text, digit(value % radix));
    proof {
        let last = digit_char((value % radix) as int);
        if value >= radix {
            let high = numeral((value / radix) as nat, radix as nat);
            assert((old(text)@ + high).push(last) =~= old(text)@ + high.push(last));
        } else {
            vstd::arithmetic::div_mod::lemma_small_mod(value as nat, radix as nat);
            assert(old(text)@.push(last) =~= old(text)@ + seq![last]);
        }
    }
}

} // verus!
