use vmexeccapi::decimal::append_decimal;

#[test]
fn decimal_notation() {
    for n in [0, 1, 9, 10, 99, 100, 1234567890, 4294967295] {
        let mut text = String::from("n=");
        append_decimal(&mut text, n);
        assert_eq!(text, format!("n={}", n));
    }
}
