//! The payload decoder: from the argument of a start command to the
//! parameters that it carries.

use crate::outside::{url_safe_decode, url_safe_decoding};
use crate::text::{chars_of, find, first_occurrence, first_occurrence_at};
use vstd::prelude::*;
use vstd::utf8::{decode_utf8, valid_utf8};

verus! {

/// The key of a parameter that a payload can carry.
#[derive(Clone, Copy, Debug, PartialEq, Eq, Structural)]
pub enum Key {
    /// The source that referred the user; written `r=` in a payload.
    Referral,
    /// The item or context that the user asked for; written `q=` in a payload.
    Query,
}

/// One parameter taken from a payload.
#[derive(Clone, Debug, PartialEq, Eq)]
pub struct Param {
    pub key: Key,
    pub value: String,
}

/// The mathematical value of a [`Param`].
pub struct ParamView {
    pub key: Key,
    pub value: Seq<char>,
}

impl View for Param {
    type V = ParamView;

    open spec fn view(&self) -> ParamView {
        ParamView { key: self.key, value: self.value@ }
    }
}

impl DeepView for Param {
    type V = ParamView;

    open spec fn deep_view(&self) -> ParamView {
        self@
    }
}

/// The marker `r=`, which precedes the referral value.
pub open spec fn referral_marker() -> Seq<char> {
    seq!['r', '=']
}

/// The marker `q=`, which precedes the query value.
pub open spec fn query_marker() -> Seq<char> {
    seq!['q', '=']
}

/// Where the referral value ends, for a referral marker at `at`: before the
/// first query marker if that one stands after `at`, else with the payload.
pub open spec fn referral_end(payload: Seq<char>, at: int) -> int {
    match first_occurrence(payload, query_marker()) {
        Some(query_at) => if query_at > at {
            query_at
        } else {
            payload.len() as int
        },
        None => payload.len() as int,
    }
}

/// The referral value of `payload`: what follows the first referral marker,
/// up to `referral_end`.
pub open spec fn referral_of(payload: Seq<char>) -> Option<Seq<char>> {
    match first_occurrence(payload, referral_marker()) {
        Some(at) => Some(payload.subrange(at + 2, referral_end(payload, at))),
        None => None,
    }
}

/// The query value of `payload`: all that follows the first query marker.
pub open spec fn query_of(payload: Seq<char>) -> Option<Seq<char>> {
    match first_occurrence(payload, query_marker()) {
        Some(at) => Some(payload.subrange(at + 2, payload.len() as int)),
        None => None,
    }
}

/// One parameter under `key` for a value that is there, none for one that
/// is not.
pub open spec fn carried(key: Key, value: Option<Seq<char>>) -> Seq<ParamView> {
    match value {
        Some(v) => seq![ParamView { key, value: v }],
        None => Seq::empty(),
    }
}

/// The parameters of `payload`: the referral, if there is one, and then the
/// query, if there is one.
pub open spec fn extracted(payload: Seq<char>) -> Seq<ParamView> {
    carried(Key::Referral, referral_of(payload)) + carried(Key::Query, query_of(payload))
}

/// The keys of `params` stand in order and none stands twice: a referral
/// comes before a query, and there is at most one of each.
pub open spec fn in_order(params: Seq<ParamView>) -> bool {
    forall|i: int, j: int|
        0 <= i < j < params.len() ==> (#[trigger] params[i]).key == Key::Referral && (
        #[trigger] params[j]).key == Key::Query
}

/// A marker's two characters cannot overlap another marker's: a query marker
/// behind the start of a referral marker starts behind its end.
pub proof fn markers_apart(payload: Seq<char>, referral_at: int, query_at: int)
    requires
        first_occurrence(payload, referral_marker()) == Some(referral_at),
        first_occurrence(payload, query_marker()) == Some(query_at),
        query_at > referral_at,
    ensures
        referral_at + 2 <= query_at,
        query_at + 2 <= payload.len(),
{
    first_occurrence_at(payload, referral_marker(), referral_at);
    first_occurrence_at(payload, query_marker(), query_at);
    assert(payload.subrange(referral_at, referral_at + 2)[1] == '=');
    assert(payload.subrange(query_at, query_at + 2)[0] == 'q');
}

/// The parameters that the text `payload` carries.
pub fn extract(payload: &str) -> (params: Vec<Param>)
    ensures
        params.deep_view() == extracted(payload@),
        params@.len() <= 2,
        in_order(params.deep_view()),
{
    let chars = chars_of(payload);
    let length = chars.len();
    let referral_at = find(chars.as_slice(), vec!['r', '='].as_slice());
    let query_at = find(chars.as_slice(), vec!['q', '='].as_slice());
    let mut params: Vec<Param> = Vec::new();
    if let Some(at) = referral_at {
        let end = match query_at {
            Some(q) => if q > at {
                q
            } else {
                length
            },
            None => length,
        };
        proof {
            first_occurrence_at(payload@, referral_marker(), at as int);
            if query_at is Some && query_at->Some_0 > at {
                markers_apart(payload@, at as int, query_at->Some_0 as int);
            }
        }
        let value = payload.substring_char(at + 2, end).to_owned();
        params.push(Param { key: Key::Referral, value });
    }
    if let Some(at) = query_at {
        proof {
            first_occurrence_at(payload@, query_marker(), at as int);
        }
        let value = payload.substring_char(at + 2, length).to_owned();
        params.push(Param { key: Key::Query, value });
    }
    assert(params.deep_view() =~= extracted(payload@));
    params
}

/// The payload that `argument` carries: the text that its base64url decoding
/// spells in UTF-8. The empty argument carries the empty payload; an
/// argument that is no base64url, or whose bytes are no UTF-8, carries none.
pub open spec fn payload_of(argument: Seq<char>) -> Option<Seq<char>> {
    if argument.len() == 0 {
        Some(Seq::empty())
    } else {
        match url_safe_decoding(argument) {
            Some(bytes) => if valid_utf8(bytes) {
                Some(decode_utf8(bytes))
            } else {
                None
            },
            None => None,
        }
    }
}

/// The parameters that `argument` carries: those of its payload, and none
/// where it carries no payload.
pub open spec fn decoded(argument: Seq<char>) -> Seq<ParamView> {
    match payload_of(argument) {
        Some(payload) => extracted(payload),
        None => Seq::empty(),
    }
}

/// The text that the bytes of a decoded argument spell, if they are UTF-8.
pub fn payload_text(bytes: Vec<u8>) -> (text: Option<String>)
    ensures
        match text {
            Some(t) => valid_utf8(bytes@) && t@ == decode_utf8(bytes@),
            None => !valid_utf8(bytes@),
        },
{
    match String::from_utf8(bytes) {
        Ok(t) => Some(t),
        Err(_) => None,
    }
}

/// The payload that `argument` carries.
pub fn payload(argument: &str) -> (text: Option<String>)
    ensures
        match text {
            Some(t) => payload_of(argument@) == Some(t@),
            None => payload_of(argument@) is None,
        },
{
    if argument.is_empty() {
        return Some(String::new());
    }
    match url_safe_decode(argument) {
        Ok(bytes) => payload_text(bytes),
        Err(_) => None,
    }
}

/// The parameters that `argument` carries. An argument without a payload is
/// no failure: it carries no parameters.
pub fn decode(argument: &str) -> (params: Vec<Param>)
    ensures
        params.deep_view() == decoded(argument@),
        argument@.len() == 0 || payload_of(argument@) is None ==> params@.len() == 0,
        params@.len() <= 2,
        in_order(params.deep_view()),
{
    match payload(argument) {
        Some(text) => extract(text.as_str()),
        None => {
            let params: Vec<Param> = Vec::new();
            assert(params.deep_view() =~= Seq::<ParamView>::empty());
            params
        },
    }
}

} // verus!
