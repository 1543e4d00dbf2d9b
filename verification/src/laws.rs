//! What holds of the decoder and the composer on all inputs.

use crate::link::{composed_url, entries, premium_entry, rendered};
use crate::outside::url_safe_decoding;
use crate::payload::{
    decoded, extracted, in_order, markers_apart, payload_of, query_marker, query_of,
    referral_marker, referral_of, Key, ParamView,
};
use crate::start::argument_text;
use crate::text::{
    first_occurrence, first_occurrence_is, is_first_occurrence, is_whitespace, joined, occurs_at,
};
use vstd::prelude::*;
use vstd::utf8::valid_utf8;

verus! {

/// A text in which `pattern` occurs nowhere has no first occurrence of it.
pub proof fn no_occurrence(text: Seq<char>, pattern: Seq<char>)
    requires
        forall|at: int| !occurs_at(text, pattern, at),
    ensures
        first_occurrence(text, pattern) is None,
{
}

/// A payload that holds a referral marker and no query marker: the argument
/// that carries it decodes to the referral alone, and its value is all that
/// follows the first referral marker.
pub proof fn referral_alone(
    argument: Seq<char>,
    before: Seq<char>,
    value: Seq<char>,
)
    requires
        payload_of(argument) == Some(before + referral_marker() + value),
        forall|at: int|
            0 <= at < before.len() ==> !occurs_at(
                before + referral_marker() + value,
                referral_marker(),
                at,
            ),
        forall|at: int| !occurs_at(before + referral_marker() + value, query_marker(), at),
    ensures
        decoded(argument) == seq![ParamView { key: Key::Referral, value }],
{
    let payload = before + referral_marker() + value;
    let at = before.len() as int;
    assert(payload.subrange(at, at + 2) =~= referral_marker());
    first_occurrence_is(payload, referral_marker(), at);
    no_occurrence(payload, query_marker());
    assert(payload.subrange(at + 2, payload.len() as int) =~= value);
    assert(decoded(argument) =~= seq![ParamView { key: Key::Referral, value }]);
}

/// A payload that holds a query marker and no referral marker: the argument
/// that carries it decodes to the query alone, and its value is all that
/// follows the first query marker.
pub proof fn query_alone(argument: Seq<char>, before: Seq<char>, value: Seq<char>)
    requires
        payload_of(argument) == Some(before + query_marker() + value),
        forall|at: int|
            0 <= at < before.len() ==> !occurs_at(
                before + query_marker() + value,
                query_marker(),
                at,
            ),
        forall|at: int| !occurs_at(before + query_marker() + value, referral_marker(), at),
    ensures
        decoded(argument) == seq![ParamView { key: Key::Query, value }],
{
    let payload = before + query_marker() + value;
    let at = before.len() as int;
    assert(payload.subrange(at, at + 2) =~= query_marker());
    first_occurrence_is(payload, query_marker(), at);
    no_occurrence(payload, referral_marker());
    assert(payload.subrange(at + 2, payload.len() as int) =~= value);
    assert(decoded(argument) =~= seq![ParamView { key: Key::Query, value }]);
}

/// A payload whose first referral marker stands before its first query
/// marker: the referral value is what stands between the two, whatever it
/// is, and the query value is all that follows the query marker.
pub proof fn referral_then_query(
    argument: Seq<char>,
    payload: Seq<char>,
    referral_at: int,
    query_at: int,
)
    requires
        payload_of(argument) == Some(payload),
        is_first_occurrence(payload, referral_marker(), referral_at),
        is_first_occurrence(payload, query_marker(), query_at),
        referral_at < query_at,
    ensures
        referral_at + 2 <= query_at,
        decoded(argument) == seq![
            ParamView { key: Key::Referral, value: payload.subrange(referral_at + 2, query_at) },
            ParamView { key: Key::Query, value: payload.skip(query_at + 2) },
        ],
{
    first_occurrence_is(payload, referral_marker(), referral_at);
    first_occurrence_is(payload, query_marker(), query_at);
    markers_apart(payload, referral_at, query_at);
    assert(payload.subrange(query_at + 2, payload.len() as int) =~= payload.skip(query_at + 2));
    assert(decoded(argument) =~= seq![
        ParamView { key: Key::Referral, value: payload.subrange(referral_at + 2, query_at) },
        ParamView { key: Key::Query, value: payload.skip(query_at + 2) },
    ]);
}

/// A payload whose first query marker stands before its first referral
/// marker: each value runs to the end of the payload, so that the query
/// value holds the referral marker and the referral value with it.
pub proof fn query_then_referral(
    argument: Seq<char>,
    payload: Seq<char>,
    referral_at: int,
    query_at: int,
)
    requires
        payload_of(argument) == Some(payload),
        is_first_occurrence(payload, referral_marker(), referral_at),
        is_first_occurrence(payload, query_marker(), query_at),
        query_at < referral_at,
    ensures
        decoded(argument) == seq![
            ParamView { key: Key::Referral, value: payload.skip(referral_at + 2) },
            ParamView { key: Key::Query, value: payload.skip(query_at + 2) },
        ],
{
    first_occurrence_is(payload, referral_marker(), referral_at);
    first_occurrence_is(payload, query_marker(), query_at);
    assert(payload.subrange(query_at + 2, payload.len() as int) =~= payload.skip(query_at + 2));
    assert(payload.subrange(referral_at + 2, payload.len() as int) =~= payload.skip(
        referral_at + 2,
    ));
    assert(decoded(argument) =~= seq![
        ParamView { key: Key::Referral, value: payload.skip(referral_at + 2) },
        ParamView { key: Key::Query, value: payload.skip(query_at + 2) },
    ]);
}

/// The empty argument decodes to no parameters, and so does an argument
/// that is no base64url or whose bytes are no UTF-8.
pub proof fn nothing_without_payload(argument: Seq<char>)
    requires
        argument.len() == 0 || url_safe_decoding(argument) is None || !valid_utf8(
            url_safe_decoding(argument)->Some_0,
        ),
    ensures
        decoded(argument) == Seq::<ParamView>::empty(),
{
    if argument.len() == 0 {
        let nothing = Seq::<char>::empty();
        no_occurrence(nothing, referral_marker());
        no_occurrence(nothing, query_marker());
        assert(extracted(nothing) =~= Seq::<ParamView>::empty());
    }
}

/// Whatever the argument, its parameters stand in order: at most one
/// referral, at most one query, and the referral first.
pub proof fn decoded_in_order(argument: Seq<char>)
    ensures
        decoded(argument).len() <= 2,
        in_order(decoded(argument)),
{
    match payload_of(argument) {
        Some(payload) => extracted_in_order(payload),
        None => {},
    }
}

/// Whatever the payload, its parameters stand in order.
pub proof fn extracted_in_order(payload: Seq<char>)
    ensures
        extracted(payload).len() <= 2,
        extracted(payload).len() == (if referral_of(payload) is Some {
            1int
        } else {
            0int
        }) + (if query_of(payload) is Some {
            1int
        } else {
            0int
        }),
        in_order(extracted(payload)),
{
}

/// Decoding is a function of the argument: two results for one argument
/// are the same.
pub proof fn decoding_repeats(argument: Seq<char>, first: Seq<ParamView>, second: Seq<ParamView>)
    requires
        first == decoded(argument),
        second == decoded(argument),
    ensures
        first == second,
{
}

/// Without parameters and without premium status the link is the base.
pub proof fn bare_link(base: Seq<char>)
    ensures
        composed_url(Seq::empty(), false, base) == base,
{
    assert(entries(Seq::empty(), false) =~= Seq::<Seq<char>>::empty());
}

/// Without parameters and with premium status the link is the base with the
/// premium entry as its query string.
pub proof fn premium_link(base: Seq<char>)
    ensures
        composed_url(Seq::empty(), true, base) == base + "?"@ + premium_entry(),
{
    assert(entries(Seq::empty(), true) =~= seq![premium_entry()]);
}

/// With one parameter and premium status the link is the base, `?`, the
/// parameter, `&` and the premium entry.
pub proof fn one_param_premium_link(param: ParamView, base: Seq<char>)
    ensures
        composed_url(seq![param], true, base) == base + "?"@ + (rendered(param) + "&"@
            + premium_entry()),
{
    let list = entries(seq![param], true);
    assert(list =~= seq![rendered(param), premium_entry()]);
    assert(list.drop_last() =~= seq![rendered(param)]);
    assert(joined(list.drop_last(), "&"@) == rendered(param));
    assert(joined(list, "&"@) == rendered(param) + "&"@ + premium_entry());
}

/// With a referral, a query and premium status the link holds all three in
/// this order: the base, `?`, the referral, `&`, the query, `&` and the
/// premium entry.
pub proof fn full_link(referral: Seq<char>, query: Seq<char>, base: Seq<char>)
    ensures
        composed_url(
            seq![
                ParamView { key: Key::Referral, value: referral },
                ParamView { key: Key::Query, value: query },
            ],
            true,
            base,
        ) == base + "?"@ + ("ref"@ + "="@ + referral + "&"@ + ("q"@ + "="@ + query) + "&"@
            + premium_entry()),
{
    let first = ParamView { key: Key::Referral, value: referral };
    let second = ParamView { key: Key::Query, value: query };
    let list = entries(seq![first, second], true);
    assert(list =~= seq![rendered(first), rendered(second), premium_entry()]);
    assert(list.drop_last() =~= seq![rendered(first), rendered(second)]);
    assert(list.drop_last().drop_last() =~= seq![rendered(first)]);
    assert(joined(list.drop_last().drop_last(), "&"@) == rendered(first));
    assert(joined(list.drop_last(), "&"@) == rendered(first) + "&"@ + rendered(second));
}

/// What follows the first whitespace of a command is its argument.
pub proof fn argument_follows(command: Seq<char>, white: char, argument: Seq<char>)
    requires
        forall|i: int| 0 <= i < command.len() ==> !is_whitespace(#[trigger] command[i]),
        is_whitespace(white),
    ensures
        argument_text(command + seq![white] + argument) == argument,
        argument_text(command) == Seq::<char>::empty(),
    decreases command.len(),
{
    let text = command + seq![white] + argument;
    if command.len() == 0 {
        assert(text.drop_first() =~= argument);
    } else {
        argument_follows(command.drop_first(), white, argument);
        assert(text.drop_first() =~= command.drop_first() + seq![white] + argument);
    }
}

} // verus!
