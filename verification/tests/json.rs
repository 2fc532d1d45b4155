use search_engine::json::index_receipt_body;
use search_engine::json::u64_to_dec;

#[test]
fn decimal_rendering_is_exact() {
    assert_eq!(u64_to_dec(0), "0");
    assert_eq!(u64_to_dec(7), "7");
    assert_eq!(u64_to_dec(10), "10");
    assert_eq!(u64_to_dec(90210), "90210");
    assert_eq!(u64_to_dec(1_000_000_007), "1000000007");
    assert_eq!(u64_to_dec(u64::MAX), "18446744073709551615");
}

#[test]
fn receipt_body_is_byte_exact() {
    assert_eq!(index_receipt_body(0), "{\"indexed\":0,\"status\":\"success\"}");
    assert_eq!(
        index_receipt_body(12005),
        "{\"indexed\":12005,\"status\":\"success\"}"
    );
}
