use vstd::prelude::*;

verus! {

/// The decimal digits of `n`, most significant first, as ASCII bytes.
pub open spec fn dec_digits(n: nat) -> Seq<u8>
    decreases n,
{
    if n < 10 {
        seq![(48 + n) as u8]
    } else {
        dec_digits(n / 10).push((48 + n % 10) as u8)
    }
}

/// The decimal rendering of a signed number: a minus sign before the
/// digits of the magnitude when `n` is negative.
pub open spec fn dec_digits_signed(n: int) -> Seq<u8> {
    if n < 0 {
        seq![45u8] + dec_digits((-n) as nat)
    } else {
        dec_digits(n as nat)
    }
}

/// Append the decimal rendering of `n` to `out`.
pub fn push_dec_u32(out: &mut Vec<u8>, n: u32)
    ensures
        final(out)@ == old(out)@ + dec_digits(n as nat),
    decreases n,
{
    if n < 10 {
        out.push(48 + n as u8);
        proof {
            assert(out@ =~= old(out)@ + dec_digits(n as nat));
        }
    } else {
        push_dec_u32(out, n / 10);
        out.push(48 + (n % 10) as u8);
        proof {
            assert(out@ =~= old(out)@ + dec_digits(n as nat));
        }
    }
}

/// Append the decimal rendering of `n` to `out`, minus sign included for
/// a negative `n`.
pub fn push_dec_i32(out: &mut Vec<u8>, n: i32)
    ensures
        final(out)@ == old(out)@ + dec_digits_signed(n as int),
{
    if n < 0 {
        out.push(45);
        let m: u32 = (-(n as i64)) as u32;
        proof {
            assert(m as nat == (-(n as int)) as nat);
        }
        push_dec_u32(out, m);
        proof {
            assert(out@ =~= old(out)@ + dec_digits_signed(n as int));
        }
    } else {
        push_dec_u32(out, n as u32);
    }
}

} // verus!
