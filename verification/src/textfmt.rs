//! Decimal formatting for value labels.
//!
//! The example UIs print slider and gauge values next to the widget. The
//! digits are produced here as ASCII bytes, pinned to the mathematical
//! decimal representation of the value.

use vstd::prelude::*;

verus! {

/// The ASCII decimal digits of a number, most significant first, with no
/// leading zero except for the number zero itself.
pub open spec fn spec_decimal_digits(n: nat) -> Seq<u8>
    decreases n,
{
    if n < 10 {
        seq![(0x30 + n) as u8]
    } else {
        spec_decimal_digits(n / 10).push((0x30 + n % 10) as u8)
    }
}

/// Append the decimal digits of a number.
fn push_decimal_digits(n: u32, out: &mut Vec<u8>)
    ensures
        final(out)@ == old(out)@ + spec_decimal_digits(n as nat),
    decreases n,
{
    if n < 10 {
        out.push(0x30 + n as u8);
        proof {
            assert(out@ =~= old(out)@ + spec_decimal_digits(n as nat));
        }
    } else {
        proof {
            assert(n / 10 < n) by (nonlinear_arith)
                requires
                    n >= 10,
            ;
        }
        push_decimal_digits(n / 10, out);
        out.push(0x30 + (n % 10) as u8);
        proof {
            assert(out@ =~= old(out)@ + spec_decimal_digits(n as nat));
        }
    }
}

/// The magnitude of a signed value as a mathematical integer.
pub open spec fn spec_magnitude(val: i32) -> nat {
    if val < 0 {
        (-(val as int)) as nat
    } else {
        val as nat
    }
}

/// A value as ASCII decimal text: a leading minus sign for negative
/// values, then the digits of the magnitude.
pub fn format_int(val: i32) -> (r: Vec<u8>)
    ensures
        val >= 0 ==> r@ == spec_decimal_digits(spec_magnitude(val)),
        val < 0 ==> r@ == seq![0x2Du8] + spec_decimal_digits(spec_magnitude(val)),
{
    let mut out: Vec<u8> = Vec::new();
    if val < 0 {
        out.push(0x2D);
        let magnitude = (-(val as i64)) as u32;
        push_decimal_digits(magnitude, &mut out);
        proof {
            assert(out@ =~= seq![0x2Du8] + spec_decimal_digits(spec_magnitude(val)));
        }
    } else {
        push_decimal_digits(val as u32, &mut out);
        proof {
            assert(out@ =~= spec_decimal_digits(spec_magnitude(val)));
        }
    }
    out
}

/// A value as ASCII decimal text with a percent sign. Negative values
/// print as zero per cent.
pub fn format_int_percent(val: i32) -> (r: Vec<u8>)
    ensures
        r@ == spec_decimal_digits(if val < 0 {
            0nat
        } else {
            val as nat
        }).push(0x25u8),
{
    let clamped: u32 = if val < 0 {
        0
    } else {
        val as u32
    };
    let mut out: Vec<u8> = Vec::new();
    push_decimal_digits(clamped, &mut out);
    out.push(0x25);
    proof {
        assert(out@ =~= spec_decimal_digits(if val < 0 {
            0nat
        } else {
            val as nat
        }).push(0x25u8));
    }
    out
}

} // verus!
