//! HTTP header values, built by the `http` crate that reqwest re-exports.
use vstd::prelude::*;

use reqwest::header::{HeaderValue, InvalidHeaderValue};
use vstd::utf8::encode_utf8;

verus! {

#[verifier::external_type_specification]
#[verifier::external_body]
pub struct ExHeaderValue(reqwest::header::HeaderValue);

#[verifier::external_type_specification]
#[verifier::external_body]
pub struct ExInvalidHeaderValue(reqwest::header::InvalidHeaderValue);

/// A byte that may stand in a header value: a tab, or any byte from 32 up but 127.
pub open spec fn header_byte_allowed(b: u8) -> bool {
    (b >= 32 && b != 127) || b == 9
}

/// A text that may stand as a header value: each byte of its UTF-8 form is allowed.
pub open spec fn header_text_allowed(text: Seq<char>) -> bool {
    let bytes = encode_utf8(text);
    forall|i: int| 0 <= i < bytes.len() ==> header_byte_allowed(#[trigger] bytes[i])
}

/// An ASCII text of visible characters, spaces and tabs may stand as a header value.
pub proof fn lemma_ascii_header_text_allowed(text: Seq<char>)
    requires
        forall|i: int|
            0 <= i < text.len() ==> (' ' <= #[trigger] text[i] <= '~' || text[i] == '\t'),
    ensures
        header_text_allowed(text),
{
    assert(vstd::utf8::is_ascii_chars(text));
    vstd::utf8::is_ascii_chars_encode_utf8(text);
    let bytes = encode_utf8(text);
    assert forall|i: int| 0 <= i < bytes.len() implies header_byte_allowed(#[trigger] bytes[i]) by {
        assert(text[i] as u8 == bytes[i]);
    }
}

/// The content type of a JSON body may stand as a header value.
pub proof fn lemma_json_content_type_allowed()
    ensures
        header_text_allowed("application/json"@),
{
    reveal_strlit("application/json");
    lemma_ascii_header_text_allowed("application/json"@);
}

/// Calls `HeaderValue::from_str`. Its source checks every byte of the text and
/// fails exactly when one is below 32 and not a tab, or is 127; the contract states
/// when it succeeds. That the value holds the bytes of `text` is not stated: the
/// value is opaque here.
#[verifier::external_body]
pub(crate) fn header_value_from_str(text: &str) -> (r: Result<HeaderValue, InvalidHeaderValue>)
    ensures
        r is Ok <==> header_text_allowed(text@),
{
    HeaderValue::from_str(text)
}

} // verus!
