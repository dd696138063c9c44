//! Values of HTTP headers.
use vstd::prelude::*;

verus! {

/// Whether a byte of a header value is one that text is made of: printable ASCII, a space or a tab.
pub open spec fn is_visible(byte: u8) -> bool {
    32 <= byte < 127 || byte == 9
}

/// The text of a header value, where it has one.
pub open spec fn text_of(value: Seq<u8>) -> Option<Seq<char>> {
    if forall|i: int| 0 <= i < value.len() ==> is_visible(#[trigger] value[i]) {
        Some(value.map_values(|byte: u8| byte as char))
    } else {
        None
    }
}

/// The text of a header value, by `HeaderValue::to_str` on the value that `HeaderValue::from_bytes`
/// makes: there is one if and only if every byte is visible, and it holds the bytes as characters.
#[verifier::external_body]
pub(crate) fn header_text(value: &[u8]) -> (res: Option<String>)
    ensures
        match res {
            Some(text) => text_of(value@) == Some(text@),
            None => text_of(value@) is None,
        },
{
    match axum::http::HeaderValue::from_bytes(value) {
        Ok(header) => match header.to_str() {
            Ok(text) => Some(text.to_owned()),
            Err(_) => None,
        },
        Err(_) => None,
    }
}

/// Whether a text can be a header value: it holds no control character but the tab.
pub open spec fn is_value(text: Seq<char>) -> bool {
    forall|i: int|
        0 <= i < text.len() ==> {
            let c = #[trigger] text[i];
            c == '\t' || (c as u32 >= 32 && c as u32 != 127)
        }
}

/// Whether a text can be a header value, by `HeaderValue::from_str`: it takes every text without a
/// control character in the ASCII range, and of those the tab too.
#[verifier::external_body]
pub(crate) fn is_header_value(text: &str) -> (res: bool)
    ensures
        res == is_value(text@),
{
    axum::http::HeaderValue::from_str(text).is_ok()
}

} // verus!
