use fitbit_hr::text::decimal_text;

#[test]
fn digits_are_written_one_by_one() {
    let all = ["0", "1", "2", "3", "4", "5", "6", "7", "8", "9"];
    for value in 0..10u64 {
        assert_eq!(decimal_text(value), all[value as usize]);
    }
}

#[test]
fn numerals_have_no_leading_zeros() {
    assert_eq!(decimal_text(0), "0");
    assert_eq!(decimal_text(7), "7");
    assert_eq!(decimal_text(10), "10");
    assert_eq!(decimal_text(63), "63");
    assert_eq!(decimal_text(65), "65");
    assert_eq!(decimal_text(100), "100");
    assert_eq!(decimal_text(1_234_567_890), "1234567890");
    assert_eq!(decimal_text(u64::MAX), "18446744073709551615");
}
