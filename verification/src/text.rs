//! Digit strings, thousands grouping and plain text building blocks.

use vstd::prelude::*;
use separator::Separatable;

verus! {

/// The single decimal digit `d` as a one-character string.
pub open spec fn digit_lit(d: int) -> Seq<char> {
    if d == 0 {
        "0"@
    } else if d == 1 {
        "1"@
    } else if d == 2 {
        "2"@
    } else if d == 3 {
        "3"@
    } else if d == 4 {
        "4"@
    } else if d == 5 {
        "5"@
    } else if d == 6 {
        "6"@
    } else if d == 7 {
        "7"@
    } else if d == 8 {
        "8"@
    } else {
        "9"@
    }
}

/// The decimal digits of `n`, most significant first, without leading zeros
/// (zero reads `"0"`).
pub open spec fn dec_digits(n: nat) -> Seq<char>
    decreases n,
{
    if n < 10 {
        digit_lit(n as int)
    } else {
        dec_digits(n / 10) + digit_lit((n % 10) as int)
    }
}

/// `ds` with a comma inserted before each group of three trailing
/// characters.
pub open spec fn grouped(ds: Seq<char>) -> Seq<char>
    decreases ds.len(),
{
    if ds.len() <= 3 {
        ds
    } else {
        grouped(ds.take(ds.len() - 3)) + ","@ + ds.skip(ds.len() - 3)
    }
}

/// The number `n` in decimal with thousands separators, negatives with a
/// leading minus.
pub open spec fn sep_str(n: int) -> Seq<char> {
    if n < 0 {
        "-"@ + grouped(dec_digits((-n) as nat))
    } else {
        grouped(dec_digits(n as nat))
    }
}

/// The number `n` in plain decimal, negatives with a leading minus, and a
/// plus sign forced onto non-negative numbers when `with_plus` is set.
pub open spec fn signed_str(n: int, with_plus: bool) -> Seq<char> {
    if n < 0 {
        "-"@ + dec_digits((-n) as nat)
    } else if with_plus {
        "+"@ + dec_digits(n as nat)
    } else {
        dec_digits(n as nat)
    }
}

/// `n` space characters.
pub open spec fn spaces(n: nat) -> Seq<char>
    decreases n,
{
    if n == 0 {
        Seq::<char>::empty()
    } else {
        spaces((n - 1) as nat) + " "@
    }
}

/// There are `n` characters in `spaces(n)`.
pub proof fn lemma_spaces_len(n: nat)
    ensures
        spaces(n).len() == n,
    decreases n,
{
    reveal_strlit(" ");
    if n > 0 {
        lemma_spaces_len((n - 1) as nat);
    }
}

/// Relies on separator's `Separatable` impl for `i64`: the decimal digits of
/// the number in groups of three separated by commas, after a leading minus
/// for a negative number.
#[verifier::external_body]
pub(crate) fn separated_i64(n: i64) -> (r: String)
    ensures
        r@ == sep_str(n as int),
{
    n.separated_string()
}

/// The single decimal digit `d` as a string.
fn digit_str(d: u128) -> (r: &'static str)
    requires
        d < 10,
    ensures
        r@ == digit_lit(d as int),
{
    if d == 0 {
        "0"
    } else if d == 1 {
        "1"
    } else if d == 2 {
        "2"
    } else if d == 3 {
        "3"
    } else if d == 4 {
        "4"
    } else if d == 5 {
        "5"
    } else if d == 6 {
        "6"
    } else if d == 7 {
        "7"
    } else if d == 8 {
        "8"
    } else {
        "9"
    }
}

/// Appends the decimal digits of `n` to `out`.
pub fn push_digits(out: &mut String, n: u128)
    ensures
        final(out)@ == old(out)@ + dec_digits(n as nat),
    decreases n,
{
    if n < 10 {
        out.append(digit_str(n));
    } else {
        push_digits(out, n / 10);
        out.append(digit_str(n % 10));
        proof {
            assert(out@ =~= old(out)@ + dec_digits(n as nat));
        }
    }
}

/// Appends `n` in decimal to `out`, with the sign convention of
/// [`signed_str`].
pub fn push_signed(out: &mut String, n: i64, with_plus: bool)
    ensures
        final(out)@ == old(out)@ + signed_str(n as int, with_plus),
{
    if n < 0 {
        out.append("-");
        let mag: u128 = (-(n as i128)) as u128;
        push_digits(out, mag);
        proof {
            assert(out@ =~= old(out)@ + signed_str(n as int, with_plus));
        }
    } else {
        if with_plus {
            out.append("+");
        }
        push_digits(out, n as u128);
        proof {
            assert(out@ =~= old(out)@ + signed_str(n as int, with_plus));
        }
    }
}

/// Appends `n` space characters to `out`.
pub fn push_spaces(out: &mut String, n: u128)
    ensures
        final(out)@ == old(out)@ + spaces(n as nat),
{
    let mut i: u128 = 0;
    proof {
        assert(out@ =~= old(out)@ + spaces(0));
    }
    while i < n
        invariant
            i <= n,
            out@ == old(out)@ + spaces(i as nat),
        decreases n - i,
    {
        out.append(" ");
        i = i + 1;
        proof {
            assert(out@ =~= old(out)@ + spaces(i as nat));
        }
    }
}

} // verus!
