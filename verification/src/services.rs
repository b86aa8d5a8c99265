//! The network services of macOS, read from what the network utility lists.

use crate::text::{blank, first_char, is_blank, lines, split_lines};
use vstd::prelude::*;
use vstd::utf8::{decode_utf8, valid_utf8};

verus! {

/// The character that stands at the head of the line of a disabled service.
pub const DISABLED_MARKER: char = '*';

/// A line is marked disabled when it begins with the marker.
pub open spec fn is_disabled(line: Seq<char>) -> bool {
    line.len() > 0 && line[0] == DISABLED_MARKER
}

/// A line names a service to configure unless it is blank or marked disabled.
pub open spec fn names_service(line: Seq<char>) -> bool {
    !is_blank(line) && !is_disabled(line)
}

/// The services to configure, in the order of the listing.
pub open spec fn applicable_services(listing: Seq<char>) -> Seq<Seq<char>> {
    lines(listing).filter(|line: Seq<char>| names_service(line))
}

/// The text that `String::from_utf8_lossy` makes of `bytes`.
pub uninterp spec fn utf8_lossy(bytes: Seq<u8>) -> Seq<char>;

/// `String::from_utf8_lossy`: the text that the bytes encode, with U+FFFD in
/// place of what is not UTF-8. Of well-formed UTF-8 it is the decoded text.
#[verifier::external_body]
fn decode_lossy(bytes: &[u8]) -> (text: String)
    ensures
        text@ == utf8_lossy(bytes@),
        valid_utf8(bytes@) ==> text@ == decode_utf8(bytes@),
{
    String::from_utf8_lossy(bytes).into_owned()
}

/// Whether `line` names a service to configure.
pub fn line_names_service(line: &str) -> (b: bool)
    ensures
        b == names_service(line@),
{
    if blank(line) {
        return false;
    }
    match first_char(line) {
        Some(c) => c != DISABLED_MARKER,
        None => true,
    }
}

/// The services to configure that `listing` names.
pub fn services_in(listing: &str) -> (services: Vec<String>)
    ensures
        services.deep_view() == applicable_services(listing@),
{
    let all = split_lines(listing);
    let ghost keep = |line: Seq<char>| names_service(line);
    let mut services: Vec<String> = Vec::new();
    let mut i: usize = 0;
    assert(all.deep_view().take(0) =~= Seq::<Seq<char>>::empty());
    assert(services.deep_view() =~= Seq::<Seq<char>>::empty());
    while i < all.len()
        invariant
            i <= all.len(),
            keep == (|line: Seq<char>| names_service(line)),
            services.deep_view() == all.deep_view().take(i as int).filter(keep),
        decreases all.len() - i,
    {
        let ghost seen = all.deep_view().take(i as int);
        let ghost before = services.deep_view();
        proof {
            assert(all.deep_view().take(i + 1) =~= seen.push(all[i as int]@));
            seen.lemma_filter_push(all[i as int]@, keep);
        }
        if line_names_service(all[i].as_str()) {
            services.push(all[i].clone());
            assert(services.deep_view() =~= before.push(all[i as int]@));
        }
        i = i + 1;
    }
    assert(all.deep_view().take(i as int) =~= all.deep_view());
    services
}

/// The services to configure, from the bytes that the listing command wrote.
pub fn service_names(listing: &[u8]) -> (services: Vec<String>)
    ensures
        services.deep_view() == applicable_services(utf8_lossy(listing@)),
{
    let text = decode_lossy(listing);
    services_in(text.as_str())
}

} // verus!
