//! The caller's public address, read from the reply of an IP-echo service:
//! a JSON object whose member `ip` holds the address as a string.

use vstd::prelude::*;

verus! {

/// The IP-echo service that is asked, with the query that makes it answer
/// in JSON.
pub const IP_ECHO_URL: &'static str = "https://api.ipify.org?format=json";

/// The member of the reply that holds the address.
pub const IP_MEMBER: &'static str = "ip";

#[verifier::external_type_specification]
#[verifier::external_body]
pub struct ExJsonValue(serde_json::Value);

/// What a JSON value holds, as far as it is read here: where it is an
/// object, its members whose value is a string, each under its key; else
/// nothing.
pub uninterp spec fn text_members(value: serde_json::Value) -> Map<Seq<char>, Seq<char>>;

/// What `serde_json::from_slice` makes of `body`: the text members of the
/// value it reads, or the message of the error it returns.
pub uninterp spec fn json_reply(body: Seq<u8>) -> Result<Map<Seq<char>, Seq<char>>, Seq<char>>;

/// `serde_json::from_slice`, reading a `serde_json::Value`: the whole of
/// `body` is one JSON value, or the call fails with an error, which is
/// handed on as its message. The same bytes give the same outcome.
#[verifier::external_body]
fn parse_reply(body: &[u8]) -> (parsed: Result<serde_json::Value, String>)
    ensures
        json_reply(body@) == match parsed {
            Ok(value) => Ok(text_members(value)),
            Err(message) => Err(message@),
        },
{
    match serde_json::from_slice::<serde_json::Value>(body) {
        Ok(value) => Ok(value),
        Err(error) => Err(error.to_string()),
    }
}

/// `serde_json::Value::get` with a string index: the member of an object
/// under `key`, handed on as its text where it is a `Value::String`. There
/// is none where the value is no object, has no such member, or the member
/// is no string.
#[verifier::external_body]
fn text_member(value: &serde_json::Value, key: &str) -> (text: Option<String>)
    ensures
        match text {
            Some(found) => text_members(*value).contains_key(key@) && text_members(*value)[key@]
                == found@,
            None => !text_members(*value).contains_key(key@),
        },
{
    match value.get(key) {
        Some(serde_json::Value::String(found)) => Some(found.clone()),
        _ => None,
    }
}

/// The address among the text members of a reply: what stands under `ip`,
/// and the empty text where nothing does.
pub open spec fn ip_among(members: Map<Seq<char>, Seq<char>>) -> Seq<char> {
    if members.contains_key(IP_MEMBER@) {
        members[IP_MEMBER@]
    } else {
        Seq::empty()
    }
}

/// The address that a reply gives: that of its text members, or the
/// message with which reading it failed.
pub open spec fn ip_of_reply(reply: Result<Map<Seq<char>, Seq<char>>, Seq<char>>) -> Result<
    Seq<char>,
    Seq<char>,
> {
    match reply {
        Ok(members) => Ok(ip_among(members)),
        Err(message) => Err(message),
    }
}

/// A result of texts, seen as sequences of characters.
pub open spec fn text_result_view(result: Result<String, String>) -> Result<Seq<char>, Seq<char>> {
    match result {
        Ok(text) => Ok(text@),
        Err(message) => Err(message@),
    }
}

/// The address from the member `ip`, or the empty text where the reply has
/// no such member or holds something other than a string there.
pub fn ip_or_empty(member: Option<String>) -> (ip: String)
    ensures
        ip@ == match member {
            Some(text) => text@,
            None => Seq::<char>::empty(),
        },
{
    match member {
        Some(text) => text,
        None => String::new(),
    }
}

/// The public address in the body of a reply. A body that is not JSON is an
/// error; a reply without an address is not: it gives the empty text.
pub fn public_ip_from_body(body: &[u8]) -> (ip: Result<String, String>)
    ensures
        text_result_view(ip) == ip_of_reply(json_reply(body@)),
{
    match parse_reply(body) {
        Ok(value) => Ok(ip_or_empty(text_member(&value, IP_MEMBER))),
        Err(message) => Err(message),
    }
}

} // verus!
