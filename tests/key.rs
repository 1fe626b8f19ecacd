use raidprotect::key::{correlation_key, parse_correlation_key};

#[test]
fn key_is_namespace_and_decimal_id() {
    assert_eq!(correlation_key(0), b"sanction:0".to_vec());
    assert_eq!(correlation_key(1234567890), b"sanction:1234567890".to_vec());
    assert_eq!(correlation_key(u64::MAX), b"sanction:18446744073709551615".to_vec());
}

#[test]
fn key_reads_back_to_its_id() {
    for id in [0u64, 7, 10, 99, 100, 4242, 1 << 40, u64::MAX - 1, u64::MAX] {
        assert_eq!(parse_correlation_key(&correlation_key(id)), Some(id));
    }
}

#[test]
fn bytes_that_are_no_key_are_refused() {
    assert_eq!(parse_correlation_key(b""), None);
    assert_eq!(parse_correlation_key(b"sanction:"), None);
    assert_eq!(parse_correlation_key(b"sanction"), None);
    assert_eq!(parse_correlation_key(b"sanctiom:12"), None);
    assert_eq!(parse_correlation_key(b"sanction:12a"), None);
    assert_eq!(parse_correlation_key(b"sanction:-1"), None);
    assert_eq!(parse_correlation_key(b"sanction:18446744073709551616"), None);
    assert_eq!(parse_correlation_key(b"sanction:007"), Some(7));
}
