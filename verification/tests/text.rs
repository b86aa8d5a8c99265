use system_proxy::config::ProxyConfig;
use system_proxy::services::{line_names_service, service_names, services_in};
use system_proxy::text::{blank, char_is_whitespace, decimal_string, first_char, split_lines};

fn std_lines(text: &str) -> Vec<String> {
    text.lines().map(|line| line.to_string()).collect()
}

#[test]
fn decimal_of_zero_is_one_digit() {
    assert_eq!(decimal_string(0), "0");
}

#[test]
fn decimal_has_no_leading_zero() {
    assert_eq!(decimal_string(7), "7");
    assert_eq!(decimal_string(10), "10");
    assert_eq!(decimal_string(8080), "8080");
    assert_eq!(decimal_string(65535), "65535");
}

#[test]
fn decimal_agrees_with_the_standard_library() {
    let mut n: u32 = 0;
    while n <= 65535 {
        assert_eq!(decimal_string(n as u16), (n as u16).to_string());
        n += 1;
    }
}

#[test]
fn endpoint_is_host_colon_port() {
    let config = ProxyConfig::new("10.0.0.1".to_string(), 8080);
    assert_eq!(config.endpoint(), "10.0.0.1:8080");
}

#[test]
fn endpoint_of_unchecked_values_is_still_formed() {
    let config = ProxyConfig::new(String::new(), 0);
    assert_eq!(config.endpoint(), ":0");
}

#[test]
fn endpoint_keeps_a_host_that_is_not_ascii() {
    let config = ProxyConfig::new("b\u{fc}cher.example".to_string(), 1);
    assert_eq!(config.endpoint(), "b\u{fc}cher.example:1");
}

#[test]
fn lines_end_at_line_feeds() {
    assert_eq!(split_lines("Wi-Fi\nEthernet"), vec!["Wi-Fi", "Ethernet"]);
    assert_eq!(split_lines("Wi-Fi\nEthernet\n"), vec!["Wi-Fi", "Ethernet"]);
}

#[test]
fn empty_text_has_no_line() {
    assert_eq!(split_lines(""), Vec::<String>::new());
}

#[test]
fn empty_lines_are_lines() {
    assert_eq!(split_lines("\n"), vec![""]);
    assert_eq!(split_lines("a\n\nb"), vec!["a", "", "b"]);
}

#[test]
fn carriage_return_before_line_feed_is_dropped() {
    assert_eq!(split_lines("a\r\nb\r\n"), vec!["a", "b"]);
    assert_eq!(split_lines("a\r\r\nb"), vec!["a\r", "b"]);
}

#[test]
fn carriage_return_elsewhere_is_kept() {
    assert_eq!(split_lines("a\rb\nc\r"), vec!["a\rb", "c\r"]);
    assert_eq!(split_lines("\r"), vec!["\r"]);
}

#[test]
fn lines_agree_with_the_standard_library() {
    let samples = [
        "",
        "\n",
        "\r",
        "\r\n",
        "\n\r",
        "a",
        "a\n",
        "a\r\n",
        "a\r",
        "a\n\n",
        "\na",
        "a\r\r\n\rb\r",
        "An asterisk (*) denotes that a network service is disabled.\nWi-Fi\n*Thunderbolt\n",
        "\u{e9}t\u{e9}\r\n\u{3000}\n\u{1f600}",
    ];
    for sample in samples {
        assert_eq!(split_lines(sample), std_lines(sample));
    }
}

#[test]
fn white_space_is_what_the_standard_library_trims() {
    let mut code: u32 = 0;
    while code <= 0x10FFFF {
        if let Some(c) = char::from_u32(code) {
            assert_eq!(char_is_whitespace(c), c.is_whitespace());
        }
        code += 1;
    }
}

#[test]
fn blank_lines_hold_white_space_only() {
    assert!(blank(""));
    assert!(blank(" \t\r"));
    assert!(blank("\u{3000}\u{a0}"));
    assert!(!blank(" a "));
    assert!(!blank("\u{200b}"));
}

#[test]
fn first_char_of_empty_text_is_none() {
    assert_eq!(first_char(""), None);
    assert_eq!(first_char("*x"), Some('*'));
    assert_eq!(first_char("\u{e9}x"), Some('\u{e9}'));
}

#[test]
fn disabled_lines_begin_with_the_marker() {
    assert!(!line_names_service("* Bluetooth PAN"));
    assert!(!line_names_service("*"));
    assert!(line_names_service("Wi-Fi"));
    assert!(line_names_service(" * indented"));
    assert!(line_names_service("USB 10/100/1000 LAN (*)"));
}

#[test]
fn blank_lines_name_no_service() {
    assert!(!line_names_service(""));
    assert!(!line_names_service("   "));
    assert!(!line_names_service("\t"));
}

#[test]
fn services_keep_the_order_of_the_listing() {
    let listing = "Wi-Fi\n* Bluetooth PAN\n\nEthernet\n   \nThunderbolt Bridge\n";
    assert_eq!(services_in(listing), vec!["Wi-Fi", "Ethernet", "Thunderbolt Bridge"]);
}

#[test]
fn services_are_not_trimmed() {
    assert_eq!(services_in("  Wi-Fi  \n"), vec!["  Wi-Fi  "]);
}

#[test]
fn services_may_repeat() {
    assert_eq!(services_in("Wi-Fi\nWi-Fi\n"), vec!["Wi-Fi", "Wi-Fi"]);
}

#[test]
fn listing_without_services_gives_none() {
    assert_eq!(services_in(""), Vec::<String>::new());
    assert_eq!(services_in("\n\n* off\n"), Vec::<String>::new());
}

#[test]
fn service_names_decode_the_bytes() {
    assert_eq!(service_names(b"Wi-Fi\n* Bluetooth PAN\nEthernet\n"), vec!["Wi-Fi", "Ethernet"]);
    assert_eq!(service_names("R\u{e9}seau\n".as_bytes()), vec!["R\u{e9}seau"]);
}

#[test]
fn service_names_replace_what_is_not_utf8() {
    assert_eq!(service_names(b"Wi\xffFi\nEthernet"), vec!["Wi\u{fffd}Fi", "Ethernet"]);
}
