use vstd::prelude::*;

use crate::chunks::frames;
use crate::chunks::newline;
use crate::decimal::dec_digits_signed;
use crate::decimal::push_dec_i32;
use crate::printk::Printk;

verus! {

/// A pair of addends handed in by the host application; its sum is
/// reported through the console writer.
pub struct Sum {
    pub x: i32,
    pub y: i32,
}

/// "The sum of " as bytes.
pub open spec fn sum_intro() -> Seq<u8> {
    seq![84u8, 104u8, 101u8, 32u8, 115u8, 117u8, 109u8, 32u8, 111u8, 102u8, 32u8]
}

/// " and " as bytes.
pub open spec fn sum_and() -> Seq<u8> {
    seq![32u8, 97u8, 110u8, 100u8, 32u8]
}

/// " is " as bytes.
pub open spec fn sum_is() -> Seq<u8> {
    seq![32u8, 105u8, 115u8, 32u8]
}

/// "The sum of {x} and {y} is {x + y}!" as bytes.
pub open spec fn sum_message_bytes(x: int, y: int) -> Seq<u8> {
    sum_intro() + dec_digits_signed(x) + sum_and() + dec_digits_signed(y) + sum_is()
        + dec_digits_signed(x + y) + seq![33u8]
}

/// Append "The sum of " to `out`.
fn push_sum_intro(out: &mut Vec<u8>)
    ensures
        final(out)@ == old(out)@ + sum_intro(),
{
    out.push(84);
    out.push(104);
    out.push(101);
    out.push(32);
    out.push(115);
    out.push(117);
    out.push(109);
    out.push(32);
    out.push(111);
    out.push(102);
    out.push(32);
    proof {
        assert(out@ =~= old(out)@ + sum_intro());
    }
}

/// The report the host prints for a pair of addends. The sum must fit in
/// the machine integer, as it does for every pair the host hands over.
pub fn sum_message(s: &Sum) -> (r: Vec<u8>)
    requires
        i32::MIN <= s.x + s.y <= i32::MAX,
    ensures
        r@ == sum_message_bytes(s.x as int, s.y as int),
{
    let mut out: Vec<u8> = Vec::new();
    push_sum_intro(&mut out);
    push_dec_i32(&mut out, s.x);
    out.push(32);
    out.push(97);
    out.push(110);
    out.push(100);
    out.push(32);
    push_dec_i32(&mut out, s.y);
    out.push(32);
    out.push(105);
    out.push(115);
    out.push(32);
    push_dec_i32(&mut out, s.x + s.y);
    out.push(33);
    proof {
        assert(out@ =~= sum_message_bytes(s.x as int, s.y as int));
    }
    out
}

/// Transmit the report for `s` as one line through the console writer.
pub fn print_sum(out: &mut Printk, s: &Sum)
    requires
        i32::MIN <= s.x + s.y <= i32::MAX,
    ensures
        final(out)@ == old(out)@ + frames(sum_message_bytes(s.x as int, s.y as int)) + frames(
            newline(),
        ),
{
    let msg = sum_message(s);
    out.write_line(msg.as_slice());
}

} // verus!
