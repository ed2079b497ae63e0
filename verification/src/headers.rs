//! Reading the headers of a response: the location of a resource that a
//! call has created, and the token that goes with a payment request.

use crate::decode::text_view;
use vstd::prelude::*;
use vstd::string::*;

verus! {

#[verifier::external_type_specification]
#[verifier::external_body]
#[verifier::reject_recursive_types(T)]
pub struct ExHeaderMap<T>(hyper::HeaderMap<T>);

#[verifier::external_type_specification]
#[verifier::external_body]
pub struct ExHeaderValue(hyper::header::HeaderValue);

/// What a header map holds: for each header name, in lower case, the bytes
/// of the values under that name, in the order in which they were added.
pub uninterp spec fn header_values(headers: hyper::HeaderMap<hyper::header::HeaderValue>) -> Map<
    Seq<char>,
    Seq<Seq<u8>>,
>;

/// The bytes that a header value holds.
pub uninterp spec fn header_value_bytes(value: hyper::header::HeaderValue) -> Seq<u8>;

/// A header name in the plainest form: one to sixty-four lower-case letters.
pub open spec fn is_plain_name(name: Seq<char>) -> bool {
    &&& 1 <= name.len() <= 64
    &&& forall|i: int| 0 <= i < name.len() ==> 'a' <= #[trigger] name[i] <= 'z'
}

/// The first of the values under `name`, where there is one.
pub open spec fn first_value(values: Map<Seq<char>, Seq<Seq<u8>>>, name: Seq<char>) -> Option<
    Seq<u8>,
> {
    if values.contains_key(name) && values[name].len() > 0 {
        Some(values[name][0])
    } else {
        None
    }
}

/// Whether a byte is a visible ASCII character, a space or a tab.
pub open spec fn is_visible(byte: u8) -> bool {
    32 <= byte < 127 || byte == 9
}

/// The text that the bytes of a header value spell, where each of them is a
/// visible ASCII character, a space or a tab.
pub open spec fn visible_text(bytes: Seq<u8>) -> Option<Seq<char>> {
    if forall|i: int| 0 <= i < bytes.len() ==> is_visible(#[trigger] bytes[i]) {
        Some(Seq::new(bytes.len(), |i: int| bytes[i] as char))
    } else {
        None
    }
}

/// The first value under `name` as a text; `None` where the map has no such
/// header, and where that value is no text.
pub open spec fn header_text(values: Map<Seq<char>, Seq<Seq<u8>>>, name: Seq<char>) -> Option<
    Seq<char>,
> {
    match first_value(values, name) {
        Some(bytes) => visible_text(bytes),
        None => None,
    }
}

/// `HeaderMap::get` with a name given as text: the first value under that
/// name, or `None` where the map holds none. The name is in the plainest
/// form, which `http` looks up as it stands.
#[verifier::external_body]
fn first_header(headers: &hyper::HeaderMap<hyper::header::HeaderValue>, name: &str) -> (r: Option<
    hyper::header::HeaderValue,
>)
    requires
        is_plain_name(name@),
    ensures
        match r {
            Some(value) => first_value(header_values(*headers), name@) == Some(
                header_value_bytes(value),
            ),
            None => first_value(header_values(*headers), name@) is None,
        },
{
    headers.get(name).cloned()
}

/// `HeaderValue::to_str`: the value as a text where all of its bytes are
/// visible ASCII characters, spaces or tabs, and `None` otherwise.
#[verifier::external_body]
fn value_text(value: &hyper::header::HeaderValue) -> (r: Option<String>)
    ensures
        match r {
            Some(text) => visible_text(header_value_bytes(*value)) == Some(text@),
            None => visible_text(header_value_bytes(*value)) is None,
        },
{
    value.to_str().ok().map(|text| text.to_string())
}

/// Gets a header and turns it into a `String`: the first value under
/// `name`, where the map has that header and the value is a text.
pub(crate) fn get_header_as_string(
    headers: &hyper::HeaderMap<hyper::header::HeaderValue>,
    name: &str,
) -> (r: Option<String>)
    requires
        is_plain_name(name@),
    ensures
        text_view(r) == header_text(header_values(*headers), name@),
{
    match first_header(headers, name) {
        Some(value) => value_text(&value),
        None => None,
    }
}

/// The name of the header that holds the location of a created resource.
pub open spec fn location_name() -> Seq<char> {
    seq!['l', 'o', 'c', 'a', 't', 'i', 'o', 'n']
}

/// The name of the header that holds the token of a payment request.
pub open spec fn token_name() -> Seq<char> {
    seq![
        'p',
        'a',
        'y',
        'm',
        'e',
        'n',
        't',
        'r',
        'e',
        'q',
        'u',
        'e',
        's',
        't',
        't',
        'o',
        'k',
        'e',
        'n',
    ]
}

/// The location of a created resource and the token of a payment request,
/// as far as the headers of a response hold them.
pub fn locate(headers: &hyper::HeaderMap<hyper::header::HeaderValue>) -> (r: (
    Option<String>,
    Option<String>,
))
    ensures
        text_view(r.0) == header_text(header_values(*headers), location_name()),
        text_view(r.1) == header_text(header_values(*headers), token_name()),
{
    proof {
        reveal_strlit("location");
        reveal_strlit("paymentrequesttoken");
        assert("location"@ == location_name());
        assert("paymentrequesttoken"@ == token_name());
    }
    let location = get_header_as_string(headers, "location");
    let request_token = get_header_as_string(headers, "paymentrequesttoken");
    (location, request_token)
}

/// Where the last segment of `text` begins: behind its last `/`, or at the
/// start where it has none.
pub open spec fn segment_start(text: Seq<char>) -> int
    decreases text.len(),
{
    if text.len() == 0 {
        0
    } else if text.last() == '/' {
        text.len() as int
    } else {
        segment_start(text.drop_last())
    }
}

/// What follows the last `/` of `text`; all of `text` where it has none.
pub open spec fn last_segment(text: Seq<char>) -> Seq<char> {
    text.subrange(segment_start(text), text.len() as int)
}

/// The identifier of a resource: the last segment of its location.
pub fn resource_id(location: &str) -> (r: String)
    ensures
        r@ == last_segment(location@),
{
    let length = location.unicode_len();
    let mut start: usize = 0;
    let mut position: usize = 0;
    for c in chars: location.chars()
        invariant
            chars.seq() == location@,
            position == chars.index(),
            position <= length,
            length == location@.len(),
            start == segment_start(location@.take(position as int)),
    {
        assert(location@.take(position + 1).drop_last() == location@.take(position as int));
        assert(location@.take(position + 1).last() == c);
        position += 1;
        if c == '/' {
            start = position;
        }
    }
    assert(location@.take(position as int) == location@);
    proof {
        lemma_segment_start_bounds(location@);
    }
    String::from_str(location.substring_char(start, length))
}

/// The last segment begins inside the text.
pub proof fn lemma_segment_start_bounds(text: Seq<char>)
    ensures
        0 <= segment_start(text) <= text.len(),
    decreases text.len(),
{
    if text.len() > 0 && text.last() != '/' {
        lemma_segment_start_bounds(text.drop_last());
    }
}

/// Behind a `/` and a tail that holds none, the last segment begins where
/// the tail begins.
proof fn lemma_segment_start_after_slash(head: Seq<char>, tail: Seq<char>)
    requires
        forall|i: int| 0 <= i < tail.len() ==> tail[i] != '/',
    ensures
        segment_start(head + seq!['/'] + tail) == head.len() + 1,
    decreases tail.len(),
{
    let text = head + seq!['/'] + tail;
    if tail.len() == 0 {
        assert(text.last() == '/');
    } else {
        assert(text.last() == tail.last());
        assert(text.drop_last() == head + seq!['/'] + tail.drop_last());
        lemma_segment_start_after_slash(head, tail.drop_last());
    }
}

/// The identifier of a location is what follows its last `/`: where a
/// location ends in a `/` and a tail that holds none, the tail is the
/// identifier.
pub proof fn lemma_last_segment_after_slash(head: Seq<char>, tail: Seq<char>)
    requires
        forall|i: int| 0 <= i < tail.len() ==> tail[i] != '/',
    ensures
        last_segment(head + seq!['/'] + tail) == tail,
{
    lemma_segment_start_after_slash(head, tail);
    assert(last_segment(head + seq!['/'] + tail) =~= tail);
}

/// In a text that holds no `/`, the last segment begins at the start.
proof fn lemma_segment_start_of_plain(text: Seq<char>)
    requires
        forall|i: int| 0 <= i < text.len() ==> text[i] != '/',
    ensures
        segment_start(text) == 0,
    decreases text.len(),
{
    if text.len() > 0 {
        lemma_segment_start_of_plain(text.drop_last());
    }
}

/// A location that holds no `/` is its own identifier.
pub proof fn lemma_last_segment_of_plain(text: Seq<char>)
    requires
        forall|i: int| 0 <= i < text.len() ==> text[i] != '/',
    ensures
        last_segment(text) == text,
{
    lemma_segment_start_of_plain(text);
    assert(last_segment(text) =~= text);
}

/// An identifier holds no `/`.
pub proof fn lemma_last_segment_has_no_slash(text: Seq<char>)
    ensures
        forall|i: int| 0 <= i < last_segment(text).len() ==> last_segment(text)[i] != '/',
    decreases text.len(),
{
    lemma_segment_start_bounds(text);
    if text.len() > 0 && text.last() != '/' {
        lemma_last_segment_has_no_slash(text.drop_last());
        lemma_segment_start_bounds(text.drop_last());
        let start = segment_start(text);
        assert forall|i: int| 0 <= i < last_segment(text).len() implies last_segment(text)[i]
            != '/' by {
            if i < last_segment(text).len() - 1 {
                assert(last_segment(text)[i] == last_segment(text.drop_last())[i]);
            }
        }
    }
}

} // verus!
