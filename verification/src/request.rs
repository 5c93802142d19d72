//! The requests that the client sends: where each one goes, and with
//! which parameters.
//!
//! Build and user identifiers come from outside and are put into the path
//! of the URL. They are percent-encoded first, so that no character of
//! an identifier can end the path segment or start a query.

use vstd::prelude::*;
use vstd::string::StringSliceAdditionalSpecFns;
use crate::query::encoded;
use crate::query::pairs_view;
use crate::query::query_of;
use crate::query::Civilization;
use crate::query::Query;
use crate::query::SortBy;

verus! {

/// The root of every endpoint.
pub const BASE_URI: &'static str = "https://aoe4guides.com/api";

/// Whether a byte may stand in a path segment as it is: an ASCII letter,
/// a digit, or one of `-`, `.`, `_`, `~`.
pub open spec fn is_unreserved(byte: u8) -> bool {
    ||| 0x41 <= byte <= 0x5a
    ||| 0x61 <= byte <= 0x7a
    ||| 0x30 <= byte <= 0x39
    ||| byte == 0x2d
    ||| byte == 0x2e
    ||| byte == 0x5f
    ||| byte == 0x7e
}

/// The hexadecimal digit for a number below 16, in upper case.
pub open spec fn hex_digit(nibble: u8) -> char {
    if nibble < 10 {
        (0x30 + nibble) as u8 as char
    } else {
        (0x37 + nibble) as u8 as char
    }
}

/// One byte as it stands in a path segment: itself where it is
/// unreserved, else `%` and its two hexadecimal digits.
pub open spec fn escaped_byte(byte: u8) -> Seq<char> {
    if is_unreserved(byte) {
        seq![byte as char]
    } else {
        seq!['%', hex_digit(byte / 16), hex_digit(byte % 16)]
    }
}

/// A run of bytes as it stands in a path segment.
pub open spec fn escaped(bytes: Seq<u8>) -> Seq<char>
    decreases bytes.len(),
{
    if bytes.len() == 0 {
        Seq::empty()
    } else {
        escaped(bytes.drop_last()) + escaped_byte(bytes.last())
    }
}

/// A text as one path segment: its UTF-8 bytes, escaped.
pub open spec fn path_segment(text: Seq<char>) -> Seq<char> {
    escaped(vstd::utf8::encode_utf8(text))
}

/// Calls `String::push`, which appends one character to the string.
#[verifier::external_body]
fn push_char(text: &mut String, c: char)
    ensures
        final(text)@ == old(text)@.push(c),
{
    text.push(c)
}

fn is_unreserved_byte(byte: u8) -> (r: bool)
    ensures
        r == is_unreserved(byte),
{
    (0x41 <= byte && byte <= 0x5a) || (0x61 <= byte && byte <= 0x7a) || (0x30 <= byte && byte
        <= 0x39) || byte == 0x2d || byte == 0x2e || byte == 0x5f || byte == 0x7e
}

fn hex_digit_of(nibble: u8) -> (c: char)
    requires
        nibble < 16,
    ensures
        c == hex_digit(nibble),
{
    if nibble < 10 {
        (0x30 + nibble) as char
    } else {
        (0x37 + nibble) as char
    }
}

/// Percent-encodes a text for use as one segment of a path.
pub fn encode_path_segment(text: &str) -> (segment: String)
    ensures
        segment@ == path_segment(text@),
{
    let bytes = text.as_bytes();
    let mut segment = String::new();
    let mut i: usize = 0;
    assert(bytes@.take(0) =~= Seq::empty());
    while i < bytes.len()
        invariant
            i <= bytes@.len(),
            bytes@ == vstd::utf8::encode_utf8(text@),
            segment@ == escaped(bytes@.take(i as int)),
        decreases bytes@.len() - i,
    {
        let byte = bytes[i];
        let ghost before = segment@;
        if is_unreserved_byte(byte) {
            push_char(&mut segment, byte as char);
        } else {
            push_char(&mut segment, '%');
            push_char(&mut segment, hex_digit_of(byte / 16));
            push_char(&mut segment, hex_digit_of(byte % 16));
        }
        proof {
            let upto = bytes@.take(i + 1);
            assert(upto.last() == byte);
            assert(upto.drop_last() =~= bytes@.take(i as int));
            assert(segment@ =~= before + escaped_byte(byte));
        }
        i = i + 1;
    }
    assert(bytes@.take(i as int) =~= bytes@);
    segment
}

/// One GET request: the URL without its query, and the parameters of the
/// query as name and value.
#[derive(Debug, PartialEq, Eq)]
pub struct Request {
    pub url: String,
    pub params: Vec<(String, String)>,
}

/// The model of a request.
pub struct RequestView {
    pub url: Seq<char>,
    pub params: Seq<(Seq<char>, Seq<char>)>,
}

impl View for Request {
    type V = RequestView;

    open spec fn view(&self) -> RequestView {
        RequestView { url: self.url@, params: pairs_view(self.params@) }
    }
}

/// The request of a health check.
pub open spec fn status_request_of() -> RequestView {
    RequestView { url: BASE_URI@ + "/status"@, params: Seq::empty() }
}

/// The request of a list of build orders under the given filters.
pub open spec fn builds_request_of(
    civ: Civilization,
    order_by: Option<SortBy>,
    overlay: bool,
) -> RequestView {
    RequestView {
        url: BASE_URI@ + "/builds"@,
        params: encoded(query_of(civ, order_by, overlay)),
    }
}

/// The request of the build order with the given identifier. It filters
/// and orders nothing; only the overlay flag is passed on.
pub open spec fn build_request_of(build_id: Seq<char>, overlay: bool) -> RequestView {
    RequestView {
        url: BASE_URI@ + "/builds/"@ + path_segment(build_id),
        params: encoded(query_of(Civilization::Any, None, overlay)),
    }
}

/// The request of a user's favourite build orders under the given
/// filters.
pub open spec fn favorites_request_of(
    user_id: Seq<char>,
    civ: Civilization,
    order_by: Option<SortBy>,
    overlay: bool,
) -> RequestView {
    RequestView {
        url: BASE_URI@ + "/favorites/"@ + path_segment(user_id),
        params: encoded(query_of(civ, order_by, overlay)),
    }
}

/// The request of a health check.
pub fn status_request() -> (r: Request)
    ensures
        r@ == status_request_of(),
{
    let url = String::from_str(BASE_URI).concat("/status");
    let params: Vec<(String, String)> = Vec::new();
    assert(pairs_view(params@) =~= Seq::empty());
    Request { url, params }
}

/// The request of a list of build orders under the given filters.
pub fn builds_request(civ: Civilization, order_by: Option<SortBy>, overlay: bool) -> (r: Request)
    ensures
        r@ == builds_request_of(civ, order_by, overlay),
{
    let url = String::from_str(BASE_URI).concat("/builds");
    let params = Query::from_parts(civ, order_by, overlay).pairs();
    Request { url, params }
}

/// The request of the build order with the given identifier.
pub fn build_request(build_id: &str, overlay: bool) -> (r: Request)
    ensures
        r@ == build_request_of(build_id@, overlay),
{
    let segment = encode_path_segment(build_id);
    let url = String::from_str(BASE_URI).concat("/builds/").concat(segment.as_str());
    let params = Query::from_parts(Civilization::Any, None, overlay).pairs();
    Request { url, params }
}

/// The request of a user's favourite build orders under the given
/// filters.
pub fn favorites_request(
    user_id: &str,
    civ: Civilization,
    order_by: Option<SortBy>,
    overlay: bool,
) -> (r: Request)
    ensures
        r@ == favorites_request_of(user_id@, civ, order_by, overlay),
{
    let segment = encode_path_segment(user_id);
    let url = String::from_str(BASE_URI).concat("/favorites/").concat(segment.as_str());
    let params = Query::from_parts(civ, order_by, overlay).pairs();
    Request { url, params }
}

/// Whether a character may occur in an encoded path segment: an
/// unreserved character or `%`.
pub open spec fn is_segment_char(c: char) -> bool {
    ||| 'A' <= c <= 'Z'
    ||| 'a' <= c <= 'z'
    ||| '0' <= c <= '9'
    ||| c == '-'
    ||| c == '.'
    ||| c == '_'
    ||| c == '~'
    ||| c == '%'
}

/// Escaped bytes hold only unreserved characters and `%`, and at least
/// one character for each byte.
pub proof fn lemma_escaped_is_safe(bytes: Seq<u8>)
    ensures
        forall|i: int| 0 <= i < escaped(bytes).len() ==> is_segment_char(#[trigger] escaped(bytes)[i]),
        bytes.len() <= escaped(bytes).len() <= 3 * bytes.len(),
    decreases bytes.len(),
{
    if bytes.len() > 0 {
        lemma_escaped_is_safe(bytes.drop_last());
        let byte = bytes.last();
        let tail = escaped_byte(byte);
        assert(forall|i: int| 0 <= i < tail.len() ==> is_segment_char(#[trigger] tail[i])) by {
            let high = byte / 16;
            let low = byte % 16;
            assert(high < 16 && low < 16);
        }
    }
}

/// Whatever an identifier holds, its path segment holds none of the
/// characters that end a segment or start a query or a fragment, and
/// no character beyond ASCII.
pub proof fn lemma_path_segment_is_safe(text: Seq<char>)
    ensures
        forall|i: int|
            0 <= i < path_segment(text).len() ==> is_segment_char(
                #[trigger] path_segment(text)[i],
            ),
        !path_segment(text).contains('/'),
        !path_segment(text).contains('?'),
        !path_segment(text).contains('#'),
        !path_segment(text).contains('&'),
{
    lemma_escaped_is_safe(vstd::utf8::encode_utf8(text));
}

/// Whether a character is unreserved: an ASCII letter, a digit, or one
/// of `-`, `.`, `_`, `~`.
pub open spec fn is_unreserved_char(c: char) -> bool {
    is_segment_char(c) && c != '%'
}

/// Unreserved bytes escape to themselves.
pub proof fn lemma_unreserved_bytes_are_kept(bytes: Seq<u8>)
    requires
        forall|i: int| 0 <= i < bytes.len() ==> is_unreserved(#[trigger] bytes[i]),
    ensures
        escaped(bytes).len() == bytes.len(),
        forall|i: int| 0 <= i < bytes.len() ==> #[trigger] escaped(bytes)[i] == bytes[i] as char,
    decreases bytes.len(),
{
    if bytes.len() > 0 {
        lemma_unreserved_bytes_are_kept(bytes.drop_last());
        assert(is_unreserved(bytes.last()));
    }
}

/// An identifier made of unreserved characters alone is its own path
/// segment.
pub proof fn lemma_plain_identifier_is_kept(text: Seq<char>)
    requires
        forall|i: int| 0 <= i < text.len() ==> is_unreserved_char(#[trigger] text[i]),
    ensures
        path_segment(text) == text,
{
    let bytes = vstd::utf8::encode_utf8(text);
    assert(vstd::utf8::is_ascii_chars(text));
    vstd::utf8::is_ascii_chars_encode_utf8(text);
    assert forall|i: int| 0 <= i < bytes.len() implies is_unreserved(#[trigger] bytes[i]) by {
        assert(is_unreserved_char(text[i]));
        assert(bytes[i] == text[i] as u8);
    }
    lemma_unreserved_bytes_are_kept(bytes);
    assert forall|i: int| 0 <= i < text.len() implies escaped(bytes)[i] == text[i] by {
        assert(is_unreserved_char(text[i]));
        assert(bytes[i] == text[i] as u8);
    }
    assert(path_segment(text) =~= text);
}

} // verus!
