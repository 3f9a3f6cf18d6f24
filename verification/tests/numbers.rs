use printk_bridge::decimal::{push_dec_i32, push_dec_u32};
use printk_bridge::printk::Printk;
use printk_bridge::sum::{print_sum, sum_message, Sum};

fn dec_u32(n: u32) -> String {
    let mut out = Vec::new();
    push_dec_u32(&mut out, n);
    String::from_utf8(out).unwrap()
}

fn dec_i32(n: i32) -> String {
    let mut out = Vec::new();
    push_dec_i32(&mut out, n);
    String::from_utf8(out).unwrap()
}

#[test]
fn unsigned_decimal_rendering() {
    assert_eq!(dec_u32(0), "0");
    assert_eq!(dec_u32(7), "7");
    assert_eq!(dec_u32(10), "10");
    assert_eq!(dec_u32(63), "63");
    assert_eq!(dec_u32(100), "100");
    assert_eq!(dec_u32(4294967295), "4294967295");
}

#[test]
fn signed_decimal_rendering() {
    assert_eq!(dec_i32(0), "0");
    assert_eq!(dec_i32(42), "42");
    assert_eq!(dec_i32(-1), "-1");
    assert_eq!(dec_i32(-2147483648), "-2147483648");
    assert_eq!(dec_i32(2147483647), "2147483647");
}

#[test]
fn sum_message_formats_the_report() {
    let s = Sum { x: 2, y: 3 };
    let msg = String::from_utf8(sum_message(&s)).unwrap();
    assert_eq!(msg, "The sum of 2 and 3 is 5!");
}

#[test]
fn sum_message_with_negative_addend() {
    let s = Sum { x: -7, y: 3 };
    let msg = String::from_utf8(sum_message(&s)).unwrap();
    assert_eq!(msg, "The sum of -7 and 3 is -4!");
}

#[test]
fn print_sum_transmits_one_line() {
    let s = Sum { x: 40, y: 2 };
    let mut w = Printk::new();
    print_sum(&mut w, &s);
    assert_eq!(w.chunk_count(), 2);
    assert_eq!(w.chunk(0).as_slice(), b"The sum of 40 and 2 is 42!\0");
    assert_eq!(w.chunk(1).as_slice(), b"\n\0");
}
