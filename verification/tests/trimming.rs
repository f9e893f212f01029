use hostmon::trim::trim;

#[test]
fn trim_strips_trailing_space() {
    assert_eq!(trim("myhost "), "myhost".to_string());
}

#[test]
fn trim_strips_leading_and_trailing_mix() {
    assert_eq!(trim(" \t\r\nmyhost\n\r\t "), "myhost".to_string());
}

#[test]
fn trim_empty_string() {
    assert_eq!(trim(""), String::new());
}

#[test]
fn trim_all_whitespace() {
    assert_eq!(trim(" \t \n \r "), String::new());
}

#[test]
fn trim_keeps_inner_whitespace() {
    assert_eq!(trim("  a b\tc  "), "a b\tc".to_string());
}

#[test]
fn trim_without_whitespace_is_identity() {
    assert_eq!(trim("avahi-daemon.service"), "avahi-daemon.service".to_string());
}
