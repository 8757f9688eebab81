use gandi_ddns::resolver::{public_ip_from_body, PUBLIC_IP_URL};

#[test]
fn echo_service_address() {
    assert_eq!(PUBLIC_IP_URL, "https://www.icanhazip.com/");
}

#[test]
fn trailing_newline_is_removed() {
    assert_eq!(public_ip_from_body("203.0.113.9\n"), "203.0.113.9");
}

#[test]
fn clean_body_is_returned_as_it_is() {
    assert_eq!(public_ip_from_body("203.0.113.9"), "203.0.113.9");
}

#[test]
fn newlines_at_both_ends_are_removed() {
    assert_eq!(public_ip_from_body("\n\n198.51.100.2\n\n\n"), "198.51.100.2");
}

#[test]
fn inner_newlines_stay() {
    assert_eq!(public_ip_from_body("\na\nb\n"), "a\nb");
}

#[test]
fn only_line_feeds_are_removed() {
    assert_eq!(public_ip_from_body(" 10.0.0.5 \r\n"), " 10.0.0.5 \r");
    assert_eq!(public_ip_from_body("\t10.0.0.5"), "\t10.0.0.5");
}

#[test]
fn body_of_newlines_gives_the_empty_text() {
    assert_eq!(public_ip_from_body("\n\n\n"), "");
    assert_eq!(public_ip_from_body("\n"), "");
}

#[test]
fn empty_body_gives_the_empty_text() {
    assert_eq!(public_ip_from_body(""), "");
}

#[test]
fn no_syntax_is_checked() {
    assert_eq!(public_ip_from_body("not an address\n"), "not an address");
}

#[test]
fn characters_of_several_bytes_are_kept() {
    assert_eq!(public_ip_from_body("\n\u{e9}t\u{e9}\u{1f600}\n"), "\u{e9}t\u{e9}\u{1f600}");
}

#[test]
fn trimming_twice_is_trimming_once() {
    let once = public_ip_from_body("\n\n2001:db8::1\n");
    let twice = public_ip_from_body(&once);
    assert_eq!(once, twice);
    assert_eq!(twice, "2001:db8::1");
}
