use counter_contract::text::{i32_string, u128_string};

#[test]
fn unsigned_rendering() {
    assert_eq!(u128_string(0), "0");
    assert_eq!(u128_string(7), "7");
    assert_eq!(u128_string(10), "10");
    assert_eq!(u128_string(12345), "12345");
    assert_eq!(u128_string(u128::MAX), "340282366920938463463374607431768211455");
}

#[test]
fn signed_rendering() {
    assert_eq!(i32_string(0), "0");
    assert_eq!(i32_string(42), "42");
    assert_eq!(i32_string(-1), "-1");
    assert_eq!(i32_string(i32::MAX), "2147483647");
    assert_eq!(i32_string(i32::MIN), "-2147483648");
}
