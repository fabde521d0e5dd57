use doh_gateway::text::{bytes_eq, decimal, text_eq};

#[test]
fn bytes_are_compared_by_content() {
    assert!(bytes_eq(b"", b""));
    assert!(bytes_eq(b"abc", b"abc"));
    assert!(!bytes_eq(b"abc", b"abd"));
    assert!(!bytes_eq(b"abc", b"ab"));
    assert!(!bytes_eq(b"", b"a"));
}

#[test]
fn texts_are_compared_by_content() {
    assert!(text_eq("", ""));
    assert!(text_eq("dns", "dns"));
    assert!(!text_eq("dns", "DNS"));
    assert!(!text_eq("dns", "dnss"));
    assert!(text_eq("caf\u{e9}", "caf\u{e9}"));
    assert!(!text_eq("caf\u{e9}", "cafe"));
}

#[test]
fn numbers_are_written_in_decimal() {
    assert_eq!(decimal(0), "0");
    assert_eq!(decimal(7), "7");
    assert_eq!(decimal(10), "10");
    assert_eq!(decimal(53), "53");
    assert_eq!(decimal(1000), "1000");
    assert_eq!(decimal(9876543210), "9876543210");
    assert_eq!(decimal(usize::MAX), usize::MAX.to_string());
}
