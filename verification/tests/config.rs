use radiation_counter_service::config::{parse_addr, split_addr};

#[test]
fn address_behind_0x_is_hexadecimal() {
    assert_eq!(split_addr("0x31"), (16, "31"));
    assert_eq!(parse_addr("0x31"), Some(0x31));
    assert_eq!(parse_addr("0xff"), Some(255));
    assert_eq!(parse_addr("0xFFFF"), Some(65535));
    assert_eq!(parse_addr("0x0"), Some(0));
}

#[test]
fn address_without_prefix_is_decimal() {
    assert_eq!(split_addr("49"), (10, "49"));
    assert_eq!(parse_addr("49"), Some(49));
    assert_eq!(parse_addr("0"), Some(0));
    assert_eq!(parse_addr("65535"), Some(65535));
    assert_eq!(parse_addr("+5"), Some(5));
}

#[test]
fn only_lower_case_0x_is_a_prefix() {
    assert_eq!(split_addr("0X31"), (10, "0X31"));
    assert_eq!(parse_addr("0X31"), None);
    assert_eq!(split_addr("x31"), (10, "x31"));
    assert_eq!(split_addr("0"), (10, "0"));
    assert_eq!(split_addr(""), (10, ""));
}

#[test]
fn bare_prefix_has_no_digits() {
    assert_eq!(split_addr("0x"), (16, ""));
    assert_eq!(parse_addr("0x"), None);
}

#[test]
fn address_that_is_no_number_is_refused() {
    assert_eq!(parse_addr(""), None);
    assert_eq!(parse_addr("zz"), None);
    assert_eq!(parse_addr("0xg1"), None);
    assert_eq!(parse_addr("3f"), None);
    assert_eq!(parse_addr(" 49"), None);
    assert_eq!(parse_addr("4_9"), None);
    assert_eq!(parse_addr("-1"), None);
}

#[test]
fn address_that_does_not_fit_is_refused() {
    assert_eq!(parse_addr("65536"), None);
    assert_eq!(parse_addr("0x10000"), None);
}

#[test]
fn digits_behind_the_prefix_are_split_by_character() {
    assert_eq!(split_addr("0x\u{e9}1"), (16, "\u{e9}1"));
    assert_eq!(parse_addr("0x\u{e9}1"), None);
}
