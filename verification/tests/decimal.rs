use greet_mcp::decimal::{integer_to_string, natural_to_string};

#[test]
fn naturals_in_decimal() {
    assert_eq!(natural_to_string(0), "0");
    assert_eq!(natural_to_string(7), "7");
    assert_eq!(natural_to_string(10), "10");
    assert_eq!(natural_to_string(1234567890), "1234567890");
    assert_eq!(natural_to_string(u32::MAX), "4294967295");
}

#[test]
fn integers_in_decimal() {
    assert_eq!(integer_to_string(0), "0");
    assert_eq!(integer_to_string(-1), "-1");
    assert_eq!(integer_to_string(42), "42");
    assert_eq!(integer_to_string(i32::MAX), "2147483647");
    assert_eq!(integer_to_string(i32::MIN), "-2147483648");
}

#[test]
fn decimal_agrees_with_the_standard_library() {
    let mut n: i32 = i32::MIN;
    loop {
        assert_eq!(integer_to_string(n), n.to_string());
        if n > i32::MAX - 9_999_991 {
            break;
        }
        n += 9_999_991;
    }
}
