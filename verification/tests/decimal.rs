use zk_notes::text::{append_decimal, decimal_string};

#[test]
fn decimal_zero() {
    assert_eq!(decimal_string(0), "0");
}

#[test]
fn decimal_single_digit() {
    assert_eq!(decimal_string(7), "7");
}

#[test]
fn decimal_multi_digit() {
    assert_eq!(decimal_string(9046), "9046");
}

#[test]
fn decimal_u64_max() {
    assert_eq!(decimal_string(u64::MAX), "18446744073709551615");
}

#[test]
fn decimal_appends_after_existing_text() {
    let mut s = String::from("pid_");
    append_decimal(&mut s, 140);
    assert_eq!(s, "pid_140");
}
