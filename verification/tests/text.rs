use libfabric_rs::text::{decimal_text, push_decimal, push_signed_decimal};
use libfabric_rs::FabricError;

#[test]
fn numerals_have_no_leading_zeros() {
    for n in [0u64, 7, 10, 99, 100, 9229, 65535, u64::MAX] {
        assert_eq!(decimal_text(n), n.to_string());
    }
}

#[test]
fn numerals_read_back() {
    for n in [0u64, 1, 10, 1234567890, u64::MAX] {
        assert_eq!(decimal_text(n).parse::<u64>(), Ok(n));
    }
}

#[test]
fn numerals_are_appended() {
    let mut text = "a".to_string();
    push_decimal(&mut text, 12);
    push_signed_decimal(&mut text, -34);
    push_signed_decimal(&mut text, 5);
    assert_eq!(text, "a12-345");
}

#[test]
fn smallest_number_has_a_numeral() {
    let mut text = String::new();
    push_signed_decimal(&mut text, i64::MIN);
    assert_eq!(text, "-9223372036854775808");
}

#[test]
fn reports_show_the_code() {
    assert_eq!(FabricError::Fabric(i32::MIN).message(), "fi_fabric failed: -2147483648");
    assert_eq!(FabricError::Enable(0).message(), "fi_enable failed: 0");
    assert_eq!(FabricError::Send(-11).message(), "fi_send failed: -11");
    assert_eq!(FabricError::ChannelClosed.message(), "channel closed");
}

#[test]
fn numerals_hold_digits_only() {
    for port in [0u64, 80, 9228, 65535] {
        let text = decimal_text(port);
        assert!(!text.is_empty());
        assert!(text.bytes().all(|b| b.is_ascii_digit()));
    }
}
