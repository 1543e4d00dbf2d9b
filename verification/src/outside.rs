//! What the library takes from outside: the calls into the `base64` and
//! `reqwest` crates and into std that the verifier cannot read. Their
//! contracts are believed, not proved; everything else in the library is
//! proved from them.

use base64::Engine;
use vstd::prelude::*;
use vstd::utf8::{decode_utf8, valid_utf8};

verus! {

/// The decoding error of the `base64` crate, carried through and never read.
#[verifier::external_type_specification]
#[verifier::external_body]
pub struct ExDecodeError(base64::DecodeError);

/// The error of `String::from_utf8`, carried through and never read.
#[verifier::external_type_specification]
#[verifier::external_body]
pub struct ExFromUtf8Error(std::string::FromUtf8Error);

/// What the `base64` crate's `URL_SAFE` engine makes of `text`: the bytes
/// that it decodes to, or `None` where the engine rejects it.
pub uninterp spec fn url_safe_decoding(text: Seq<char>) -> Option<Seq<u8>>;

/// `Engine::decode` of the `base64` crate, on its `URL_SAFE` engine (the
/// URL-safe alphabet, with canonical padding required). Believed, not
/// proved: what comes back depends on `text` alone, and `url_safe_decoding`
/// is the name of it.
#[verifier::external_body]
pub(crate) fn url_safe_decode(text: &str) -> (bytes: Result<Vec<u8>, base64::DecodeError>)
    ensures
        url_safe_decoding(text@) == match bytes {
            Ok(b) => Some(b@),
            Err(_) => None,
        },
{
    base64::engine::general_purpose::URL_SAFE.decode(text)
}

/// `String::from_utf8` of std. Believed, not proved: it succeeds on the
/// byte sequences that are valid UTF-8 and on no others, and the string
/// then holds the characters that the bytes encode.
pub assume_specification[ String::from_utf8 ](bytes: Vec<u8>) -> (text: Result<
    String,
    std::string::FromUtf8Error,
>)
    ensures
        text is Ok <==> valid_utf8(bytes@),
        text is Ok ==> text->Ok_0@ == decode_utf8(bytes@),
;

/// What the `url` crate's parser makes of `text`: whether it accepts it as
/// an absolute URL.
pub uninterp spec fn url_accepted(text: Seq<char>) -> bool;

/// `Url::parse`, which the `reqwest` crate takes from the `url` crate.
/// Believed, not proved: whether it accepts `text` depends on `text` alone,
/// and `url_accepted` is the name of that.
#[verifier::external_body]
pub(crate) fn parses_as_url(text: &str) -> (accepted: bool)
    ensures
        accepted == url_accepted(text@),
{
    reqwest::Url::parse(text).is_ok()
}

} // verus!
