use system_proxy::public_ip::{ip_or_empty, public_ip_from_body, IP_ECHO_URL, IP_MEMBER};

#[test]
fn reply_with_address_gives_address() {
    let ip = public_ip_from_body(b"{\"ip\":\"203.0.113.7\"}");
    assert_eq!(ip, Ok("203.0.113.7".to_string()));
}

#[test]
fn reply_with_v6_address_gives_address() {
    let ip = public_ip_from_body(b"{ \"ip\" : \"2001:db8::1\" }\n");
    assert_eq!(ip, Ok("2001:db8::1".to_string()));
}

#[test]
fn reply_without_address_gives_empty_text() {
    let ip = public_ip_from_body(b"{\"other\":\"203.0.113.7\"}");
    assert_eq!(ip, Ok(String::new()));
    assert_eq!(public_ip_from_body(b"{}"), Ok(String::new()));
}

#[test]
fn address_that_is_no_string_gives_empty_text() {
    assert_eq!(public_ip_from_body(b"{\"ip\":17}"), Ok(String::new()));
    assert_eq!(public_ip_from_body(b"{\"ip\":null}"), Ok(String::new()));
    assert_eq!(public_ip_from_body(b"{\"ip\":[\"203.0.113.7\"]}"), Ok(String::new()));
}

#[test]
fn reply_that_is_no_object_gives_empty_text() {
    assert_eq!(public_ip_from_body(b"[\"ip\"]"), Ok(String::new()));
    assert_eq!(public_ip_from_body(b"\"ip\""), Ok(String::new()));
    assert_eq!(public_ip_from_body(b"null"), Ok(String::new()));
}

#[test]
fn other_members_are_passed_over() {
    let ip = public_ip_from_body(b"{\"a\":{\"ip\":\"198.51.100.1\"},\"ip\":\"203.0.113.7\",\"z\":1}");
    assert_eq!(ip, Ok("203.0.113.7".to_string()));
}

#[test]
fn escapes_in_the_address_are_read() {
    let ip = public_ip_from_body(b"{\"ip\":\"203\\u002e0.113.7\"}");
    assert_eq!(ip, Ok("203.0.113.7".to_string()));
}

#[test]
fn body_that_is_not_json_is_an_error() {
    let failed = public_ip_from_body(b"<html>busy</html>");
    assert_eq!(failed, Err("expected value at line 1 column 1".to_string()));
}

#[test]
fn empty_body_is_an_error() {
    let failed = public_ip_from_body(b"");
    assert_eq!(failed, Err("EOF while parsing a value at line 1 column 0".to_string()));
}

#[test]
fn text_after_the_reply_is_an_error() {
    let failed = public_ip_from_body(b"{\"ip\":\"203.0.113.7\"} x");
    assert_eq!(failed, Err("trailing characters at line 1 column 22".to_string()));
}

#[test]
fn error_is_the_message_of_the_parser() {
    let body = b"{\"ip\":";
    let expected = serde_json::from_slice::<serde_json::Value>(body).unwrap_err().to_string();
    assert_eq!(public_ip_from_body(body), Err(expected));
}

#[test]
fn missing_member_is_the_empty_text() {
    assert_eq!(ip_or_empty(None), "");
    assert_eq!(ip_or_empty(Some("203.0.113.7".to_string())), "203.0.113.7");
}

#[test]
fn service_and_member_are_those_of_the_echo() {
    assert_eq!(IP_ECHO_URL, "https://api.ipify.org?format=json");
    assert_eq!(IP_MEMBER, "ip");
}
