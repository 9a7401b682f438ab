use crate::error::ClientError;
use reqwest::header::{HeaderValue, InvalidHeaderValue};
use vstd::prelude::*;

verus! {

#[verifier::external_type_specification]
#[verifier::external_body]
pub struct ExHeaderValue(HeaderValue);

#[verifier::external_type_specification]
#[verifier::external_body]
pub struct ExInvalidHeaderValue(InvalidHeaderValue);

/// A character that an HTTP header value may hold: a tab, or anything from the
/// space up but the delete character. Characters beyond ASCII are encoded as
/// bytes of `0x80` and above, which are all accepted.
pub open spec fn header_char(c: char) -> bool {
    c == '\t' || (' ' <= c && c != '\u{7f}')
}

pub open spec fn header_text(s: Seq<char>) -> bool {
    forall|i: int| 0 <= i < s.len() ==> header_char(#[trigger] s[i])
}

/// The header value that `HeaderValue::from_str` makes of an accepted text.
pub uninterp spec fn header_value_of(s: Seq<char>) -> HeaderValue;

/// The text of the `Authorization` header that carries `token`.
pub open spec fn bearer_text(token: Seq<char>) -> Seq<char> {
    seq!['B', 'e', 'a', 'r', 'e', 'r', ' '] + token
}

/// Relies on `HeaderValue::from_str` of the http crate (re-exported by reqwest):
/// it accepts the text exactly when every byte is a tab or lies in 32..=255 but 127,
/// and then holds a copy of its bytes, so the value depends on the text alone.
#[verifier::external_body]
fn parse_header_value(s: &str) -> (r: Result<HeaderValue, InvalidHeaderValue>)
    ensures
        r is Ok <==> header_text(s@),
        r matches Ok(v) ==> v == header_value_of(s@),
{
    HeaderValue::from_str(s)
}

/// `Bearer <token>`, the value of the `Authorization` header.
pub fn bearer_value(token: &str) -> (r: String)
    ensures
        r@ == bearer_text(token@),
{
    let prefix = String::from_str("Bearer ");
    proof {
        reveal_strlit("Bearer ");
        assert(prefix@ =~= seq!['B', 'e', 'a', 'r', 'e', 'r', ' ']);
    }
    prefix.concat(token)
}

/// The `Authorization` header for `token`, or `InvalidHeader` when the token
/// holds a character that a header cannot carry.
pub fn authorization_header(token: &str) -> (r: Result<HeaderValue, ClientError>)
    ensures
        r is Ok <==> header_text(token@),
        r matches Ok(v) ==> v == header_value_of(bearer_text(token@)),
        r is Err ==> r matches Err(ClientError::InvalidHeader),
{
    let text = bearer_value(token);
    proof {
        let b = bearer_text(token@);
        if header_text(token@) {
            assert forall|i: int| 0 <= i < b.len() implies header_char(#[trigger] b[i]) by {
                if i >= 7 {
                    assert(b[i] == token@[i - 7]);
                }
            }
        }
        if header_text(b) {
            assert forall|i: int| 0 <= i < token@.len() implies header_char(#[trigger] token@[i]) by {
                assert(b[i + 7] == token@[i]);
            }
        }
    }
    match parse_header_value(text.as_str()) {
        Ok(v) => Ok(v),
        Err(_) => Err(ClientError::InvalidHeader),
    }
}

} // verus!
