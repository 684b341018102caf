//! Decimal rendering of machine integers, for stringified payload fields.

use vstd::prelude::*;
use vstd::string::StrSliceExecFns;
use vstd::string::StringExecFns;

verus! {

/// The decimal digits of a positive number, most significant first;
/// nothing for zero and below.
pub open spec fn spec_nat_digits(n: int) -> Seq<char>
    decreases n,
{
    if n <= 0 {
        Seq::empty()
    } else {
        spec_nat_digits(n / 10).push("0123456789"@[n % 10])
    }
}

/// The usual decimal rendering of an integer: a minus sign for negative
/// numbers, and the single digit `0` for zero.
pub open spec fn spec_i64_string(n: int) -> Seq<char> {
    if n == 0 {
        "0"@
    } else if n > 0 {
        spec_nat_digits(n)
    } else {
        "-"@ + spec_nat_digits(-n)
    }
}

/// Appends the decimal digits of `mag` to `out`.
fn push_digits(mag: u64, out: &mut String)
    ensures
        final(out)@ == old(out)@ + spec_nat_digits(mag as int),
    decreases mag,
{
    if mag == 0 {
        proof {
            assert(final(out)@ =~= old(out)@ + spec_nat_digits(0));
        }
        return ;
    }
    push_digits(mag / 10, out);
    let digits = "0123456789";
    proof {
        reveal_strlit("0123456789");
    }
    let d = (mag % 10) as usize;
    let digit = digits.substring_ascii(d, d + 1);
    out.append(digit);
    proof {
        assert(digit@ =~= seq!["0123456789"@[mag as int % 10]]);
        assert(final(out)@ =~= old(out)@ + spec_nat_digits(mag as int));
    }
}

/// Renders an integer in decimal.
pub fn i64_to_string(n: i64) -> (s: String)
    ensures
        s@ == spec_i64_string(n as int),
{
    if n == 0 {
        return "0".to_owned();
    }
    let mut out = String::new();
    if n > 0 {
        push_digits(n as u64, &mut out);
        proof {
            assert(out@ =~= spec_i64_string(n as int));
        }
    } else {
        out.append("-");
        let mag: u64 = ((-(n + 1)) as u64) + 1;
        push_digits(mag, &mut out);
        proof {
            assert(mag as int == -(n as int));
            assert(out@ =~= spec_i64_string(n as int));
        }
    }
    out
}

} // verus!
