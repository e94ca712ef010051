use statusforge::text::{i64_to_string, str_byte_len, trim_str, truncate_string, u64_to_string};

#[test]
fn integers_print_like_to_string() {
    for n in [0u64, 7, 10, 99, 100, 12345, u64::MAX] {
        assert_eq!(u64_to_string(n), n.to_string());
    }
    for i in [0i64, -1, 42, -9876, i64::MAX, i64::MIN] {
        assert_eq!(i64_to_string(i), i.to_string());
    }
}

#[test]
fn trim_and_bytes() {
    assert_eq!(trim_str("\u{3000} a b \t"), "a b");
    assert_eq!(str_byte_len("é"), 2);
    assert_eq!(truncate_string(&"héllo".to_string(), 3), "hé");
    assert_eq!(truncate_string(&"hi".to_string(), 10), "hi");
}
