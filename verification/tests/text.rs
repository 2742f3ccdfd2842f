use hyprdisplay::text::{
    append_decimal, append_fixed_point, append_fraction, append_signed_decimal, digit_text,
    same_text, ten_to,
};

fn decimal(n: u64) -> String {
    let mut out = String::new();
    append_decimal(&mut out, n);
    out
}

fn signed(i: i64) -> String {
    let mut out = String::new();
    append_signed_decimal(&mut out, i);
    out
}

fn fixed(value: u32, places: u32) -> String {
    let mut out = String::new();
    append_fixed_point(&mut out, value, places);
    out
}

fn fraction(part: u32, places: u32) -> String {
    let mut out = String::new();
    append_fraction(&mut out, part, places);
    out
}

#[test]
fn same_text_compares_characters() {
    assert!(same_text("", ""));
    assert!(same_text("DP-1", "DP-1"));
    assert!(!same_text("DP-1", "DP-2"));
    assert!(!same_text("DP-1", "DP-10"));
    assert!(!same_text("dp-1", "DP-1"));
}

#[test]
fn digit_text_gives_each_digit() {
    let digits: Vec<&str> = (0u8..10).map(digit_text).collect();
    assert_eq!(digits, ["0", "1", "2", "3", "4", "5", "6", "7", "8", "9"]);
}

#[test]
fn ten_to_gives_the_powers_of_ten() {
    assert_eq!(ten_to(0), 1);
    assert_eq!(ten_to(1), 10);
    assert_eq!(ten_to(2), 100);
    assert_eq!(ten_to(3), 1_000);
    assert_eq!(ten_to(9), 1_000_000_000);
}

#[test]
fn decimal_writes_whole_numbers() {
    assert_eq!(decimal(0), "0");
    assert_eq!(decimal(7), "7");
    assert_eq!(decimal(10), "10");
    assert_eq!(decimal(1080), "1080");
    assert_eq!(decimal(907_060), "907060");
    assert_eq!(decimal(u64::MAX), "18446744073709551615");
}

#[test]
fn decimal_appends_to_what_is_there() {
    let mut out = String::from("width ");
    append_decimal(&mut out, 1920);
    append_decimal(&mut out, 0);
    assert_eq!(out, "width 19200");
}

#[test]
fn signed_decimal_writes_the_sign_of_a_negative_number() {
    assert_eq!(signed(0), "0");
    assert_eq!(signed(-1), "-1");
    assert_eq!(signed(42), "42");
    assert_eq!(signed(-1920), "-1920");
    assert_eq!(signed(i64::MAX), "9223372036854775807");
    assert_eq!(signed(i64::MIN), "-9223372036854775808");
}

#[test]
fn fraction_drops_trailing_zeros_and_keeps_leading_ones() {
    assert_eq!(fraction(0, 2), "");
    assert_eq!(fraction(50, 2), "5");
    assert_eq!(fraction(5, 2), "05");
    assert_eq!(fraction(25, 2), "25");
    assert_eq!(fraction(951, 3), "951");
    assert_eq!(fraction(900, 3), "9");
    assert_eq!(fraction(7, 3), "007");
    assert_eq!(fraction(70, 3), "07");
    assert_eq!(fraction(0, 0), "");
    assert_eq!(fraction(1, 9), "000000001");
}

#[test]
fn fixed_point_is_the_shortest_decimal() {
    assert_eq!(fixed(100, 2), "1");
    assert_eq!(fixed(125, 2), "1.25");
    assert_eq!(fixed(150, 2), "1.5");
    assert_eq!(fixed(105, 2), "1.05");
    assert_eq!(fixed(0, 2), "0");
    assert_eq!(fixed(1, 2), "0.01");
    assert_eq!(fixed(60_000, 3), "60");
    assert_eq!(fixed(59_951, 3), "59.951");
    assert_eq!(fixed(143_990, 3), "143.99");
    assert_eq!(fixed(75_000, 3), "75");
    assert_eq!(fixed(12, 0), "12");
    assert_eq!(fixed(u32::MAX, 9), "4.294967295");
}
