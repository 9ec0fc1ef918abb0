//! What the exchange needs from `hyper`: the headers of a response, and whether a
//! request can be built from a URI and a header value.

use hyper::header::{HeaderValue, ToStrError};
use hyper::HeaderMap;
use vstd::prelude::*;
use vstd::utf8::{encode_utf8, is_ascii_chars, is_ascii_chars_encode_utf8};

verus! {

/// `hyper::HeaderMap`: the headers of a request or a response.
#[verifier::external_type_specification]
#[verifier::external_body]
#[verifier::reject_recursive_types(T)]
pub struct ExHeaderMap<T>(HeaderMap<T>);

/// `hyper::header::HeaderValue`: the bytes of one header.
#[verifier::external_type_specification]
#[verifier::external_body]
pub struct ExHeaderValue(HeaderValue);

/// `hyper::header::ToStrError`: a header value is no text.
#[verifier::external_type_specification]
#[verifier::external_body]
pub struct ExToStrError(ToStrError);

/// The first value that `headers` holds under `name`, where it holds one.
pub uninterp spec fn header_of(headers: HeaderMap<HeaderValue>, name: Seq<char>) -> Option<
    HeaderValue,
>;

/// The bytes that a header value holds.
pub uninterp spec fn header_bytes(value: HeaderValue) -> Seq<u8>;

/// A byte of a header value that is text: a tab, or anything from the space up to `~`.
pub open spec fn visible_ascii(byte: u8) -> bool {
    byte >= 32 && byte < 127 || byte == 9
}

/// The text of a header value: its bytes as characters, where every one of them is
/// visible ASCII.
pub open spec fn header_text(value: HeaderValue) -> Option<Seq<char>> {
    let bytes = header_bytes(value);
    if forall|i: int| 0 <= i < bytes.len() ==> visible_ascii(#[trigger] bytes[i]) {
        Some(Seq::new(bytes.len(), |i: int| bytes[i] as char))
    } else {
        None
    }
}

/// Whether `hyper::Uri` accepts `uri`.
pub uninterp spec fn uri_accepted(uri: Seq<char>) -> bool;

/// A byte that may stand in a header value: a tab, or anything from the space on but DEL.
pub open spec fn header_value_byte(byte: u8) -> bool {
    byte >= 32 && byte != 127 || byte == 9
}

/// Whether a text can be a header value: every byte of its UTF-8 form may stand in one.
pub open spec fn header_value_accepted(value: Seq<char>) -> bool {
    forall|i: int|
        0 <= i < encode_utf8(value).len() ==> header_value_byte(#[trigger] encode_utf8(value)[i])
}

/// `HeaderMap::get` with a text as the name: the first value under that name.
#[verifier::external_body]
pub(crate) fn first_header<'a>(headers: &'a HeaderMap<HeaderValue>, name: &str) -> (r: Option<
    &'a HeaderValue,
>)
    ensures
        r is Some <==> header_of(*headers, name@) is Some,
        r matches Some(value) ==> header_of(*headers, name@) == Some(*value),
{
    headers.get(name)
}

/// `HeaderValue::to_str`: the bytes of the value as text where every one of them is
/// visible ASCII, and an error where one is not.
pub assume_specification[ HeaderValue::to_str ](value: &HeaderValue) -> (r: Result<
    &str,
    ToStrError,
>)
    ensures
        r is Ok <==> (forall|i: int|
            0 <= i < header_bytes(*value).len() ==> visible_ascii(
                #[trigger] header_bytes(*value)[i],
            )),
        r matches Ok(text) ==> text@ == Seq::new(
            header_bytes(*value).len(),
            |i: int| header_bytes(*value)[i] as char,
        ),
;

/// Whether `hyper::Uri` parses `uri`, as the request builder's `uri` has it do.
#[verifier::external_body]
pub(crate) fn uri_is_accepted(uri: &str) -> (r: bool)
    ensures
        r == uri_accepted(uri@),
{
    uri.parse::<hyper::Uri>().is_ok()
}

/// Whether `HeaderValue::from_str` takes `value`, as the request builder's `header` has
/// it do: it refuses a text with a control byte other than a tab.
#[verifier::external_body]
pub(crate) fn header_value_is_accepted(value: &str) -> (r: bool)
    ensures
        r == header_value_accepted(value@),
{
    HeaderValue::from_str(value).is_ok()
}

/// What `HeaderValue::to_str` hands out, and any part of it from its start,
/// `HeaderValue::from_str` takes back.
pub proof fn lemma_header_text_is_accepted(value: HeaderValue, len: int)
    requires
        header_text(value) is Some,
        0 <= len <= header_text(value)->0.len(),
    ensures
        header_value_accepted(header_text(value)->0.take(len)),
{
    let bytes = header_bytes(value);
    let part = header_text(value)->0.take(len);
    assert forall|i: int| 0 <= i < part.len() implies part[i] == bytes[i] as char
        && visible_ascii(bytes[i]) by {
        assert(part[i] == header_text(value)->0[i]);
    }
    assert(is_ascii_chars(part));
    is_ascii_chars_encode_utf8(part);
    assert forall|i: int| 0 <= i < encode_utf8(part).len() implies header_value_byte(
        #[trigger] encode_utf8(part)[i],
    ) by {
        assert(encode_utf8(part)[i] == part[i] as u8);
        assert(part[i] == bytes[i] as char);
    }
}

} // verus!
