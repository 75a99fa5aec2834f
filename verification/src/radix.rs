//! Whole numbers written out in a base from 2 to 16.

use vstd::prelude::*;

verus! {

/// The character for the digit `d`, which is below 16.
pub open spec fn digit(d: nat, upper: bool) -> char {
    if d < 10 {
        (d + 0x30) as u8 as char
    } else if upper {
        (d + 0x37) as u8 as char
    } else {
        (d + 0x57) as u8 as char
    }
}

/// The digits of `n` in `base`, most significant first, with no leading
/// zero: zero itself is the one digit `0`.
pub open spec fn radix_text(n: nat, base: nat, upper: bool) -> Seq<char>
    decreases n,
{
    if base < 2 || n < base {
        seq![digit(n, upper)]
    } else {
        proof {
            assert(n / base < n) by (nonlinear_arith)
                requires
                    2 <= base <= n,
            ;
        }
        radix_text(n / base, base, upper).push(digit(n % base, upper))
    }
}


/// `String::push`: the character is appended to what the string held.
#[verifier::external_body]
pub(crate) fn push_char(sink: &mut String, c: char)
    ensures
        final(sink)@ == old(sink)@.push(c),
{
    sink.push(c);
}

fn digit_char(d: u8, upper: bool) -> (c: char)
    requires
        d < 16,
    ensures
        c == digit(d as nat, upper),
{
    if d < 10 {
        (d + 0x30) as char
    } else if upper {
        (d + 0x37) as char
    } else {
        (d + 0x57) as char
    }
}

/// Appends the digits of `n` in `base` to `sink`.
pub fn write_radix(n: u64, base: u64, upper: bool, sink: &mut String)
    requires
        2 <= base <= 16,
    ensures
        final(sink)@ == old(sink)@ + radix_text(n as nat, base as nat, upper),
    decreases n,
{
    if n >= base {
        assert(n / base < n) by (nonlinear_arith)
            requires
                2 <= base <= n,
        ;
        write_radix(n / base, base, upper, sink);
    }
    let d: u8 = (n % base) as u8;
    push_char(sink, digit_char(d, upper));
    proof {
        let text = radix_text(n as nat, base as nat, upper);
        let last = digit((n % base) as nat, upper);
        if n >= base {
            let head = radix_text((n / base) as nat, base as nat, upper);
            assert(text == head.push(last));
            assert((old(sink)@ + head).push(last) =~= old(sink)@ + text);
        } else {
            assert(n % base == n) by (nonlinear_arith)
                requires
                    0 <= n < base,
            ;
            assert(text == seq![last]);
            assert(old(sink)@.push(last) =~= old(sink)@ + text);
        }
    }
}

} // verus!
