use kritik::decimal::decimal_text;

#[test]
fn decimal_of_small_codes() {
    assert_eq!(decimal_text(0), "0");
    assert_eq!(decimal_text(1), "1");
    assert_eq!(decimal_text(2), "2");
    assert_eq!(decimal_text(9), "9");
    assert_eq!(decimal_text(10), "10");
    assert_eq!(decimal_text(127), "127");
    assert_eq!(decimal_text(255), "255");
}

#[test]
fn decimal_of_negative_codes() {
    assert_eq!(decimal_text(-1), "-1");
    assert_eq!(decimal_text(-10), "-10");
    assert_eq!(decimal_text(-1073741819), "-1073741819");
}

#[test]
fn decimal_of_the_bounds() {
    assert_eq!(decimal_text(i32::MAX), "2147483647");
    assert_eq!(decimal_text(i32::MIN), "-2147483648");
}

#[test]
fn decimal_reads_back() {
    let codes = [0, 1, 7, 42, 100, 1001, 65535, -1, -128, i32::MAX, i32::MIN];
    for code in codes {
        assert_eq!(decimal_text(code).parse::<i32>().unwrap(), code);
        assert_eq!(decimal_text(code), format!("{}", code));
    }
}
