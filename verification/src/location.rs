//! Resolved locations and the location-search request and response.
//!
//! A place name is resolved through an upstream free-text search whose
//! best match carries a name and coordinates. The search URL is built
//! here; the transport that sends it stays outside the library.

use vstd::prelude::*;
use vstd::string::StringExecFns;
use vstd::utf8::encode_utf8;
use crate::coords::Position;

verus! {

/// A resolved location: the upstream's name for it and its coordinates.
/// Immutable once resolved.
#[derive(Clone, Debug, PartialEq, Eq)]
pub struct Location {
    pub name: String,
    pub position: Position,
}

impl Location {
    pub open spec fn wf(&self) -> bool {
        self.position.wf()
    }
}

/// The decoded body of a location-search response: the candidate
/// matches, best first, or `None` when the response carried no list.
#[derive(Clone, Debug, PartialEq, Eq)]
pub struct LocationSearchResponse {
    pub locations: Option<Vec<Location>>,
}

/// The best match of a search response, or `None` when the upstream
/// returned no results — which the caller treats as a resolution
/// failure.
pub fn select_search_result(response: LocationSearchResponse) -> (r: Option<Location>)
    ensures
        match response.locations {
            Some(candidates) => {
                if candidates@.len() > 0 {
                    r == Some(candidates@[0])
                } else {
                    r is None
                }
            },
            None => r is None,
        },
{
    match response.locations {
        Some(mut candidates) => {
            if candidates.len() > 0 {
                Some(candidates.remove(0))
            } else {
                None
            }
        },
        None => None,
    }
}

/// The bytes a URL may carry untouched: the ASCII codes of the
/// alphanumerics and of `-`, `.`, `_`, `~`.
pub open spec fn is_url_unreserved(b: u8) -> bool {
    (48 <= b <= 57) || (65 <= b <= 90) || (97 <= b <= 122) || b == 45 || b == 46 || b == 95
        || b == 126
}

/// The uppercase hexadecimal digit for a value below 16.
pub open spec fn hex_char(d: u8) -> char {
    if d == 0 { '0' }
    else if d == 1 { '1' }
    else if d == 2 { '2' }
    else if d == 3 { '3' }
    else if d == 4 { '4' }
    else if d == 5 { '5' }
    else if d == 6 { '6' }
    else if d == 7 { '7' }
    else if d == 8 { '8' }
    else if d == 9 { '9' }
    else if d == 10 { 'A' }
    else if d == 11 { 'B' }
    else if d == 12 { 'C' }
    else if d == 13 { 'D' }
    else if d == 14 { 'E' }
    else { 'F' }
}

/// How one byte appears in a percent-encoded string: an unreserved
/// byte stands as itself, every other byte as `%` and two uppercase
/// hexadecimal digits.
pub open spec fn percent_encoded_byte(b: u8) -> Seq<char> {
    if is_url_unreserved(b) {
        seq![b as char]
    } else {
        seq!['%', hex_char(b / 16), hex_char(b % 16)]
    }
}

/// The percent-encoding of a byte string.
pub open spec fn url_encoded(bytes: Seq<u8>) -> Seq<char>
    decreases bytes.len(),
{
    if bytes.len() == 0 {
        Seq::empty()
    } else {
        percent_encoded_byte(bytes.first()) + url_encoded(bytes.drop_first())
    }
}

/// Relies on `urlencoding::encode`: percent-encodes every byte of the
/// argument's UTF-8 form except ASCII alphanumerics and `-`, `_`, `.`,
/// `~`, with uppercase hexadecimal digits.
#[verifier::external_body]
fn url_encode(s: &str) -> (r: String)
    ensures
        r@ == url_encoded(encode_utf8(s@)),
{
    urlencoding::encode(s).into_owned()
}

/// The free-text location-search URL for a place name, with the name
/// percent-encoded into the query.
pub fn build_search_url(name: &str) -> (r: String)
    ensures
        r@ == "https://www.yr.no/api/v0/locations/search?q="@ + url_encoded(encode_utf8(name@)),
{
    let mut url = "https://www.yr.no/api/v0/locations/search?q=".to_owned();
    let encoded = url_encode(name);
    url.append(encoded.as_str());
    url
}

} // verus!
