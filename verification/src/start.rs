//! The handler of the start command: from an incoming event to the answer
//! that is sent back for it.

use crate::link::{compose, composed_url, display_text};
use crate::outside::{parses_as_url, url_accepted};
use crate::payload::{decode, decoded, Param, ParamView};
use crate::text::{chars_of, is_whitespace, whitespace};
use vstd::prelude::*;

verus! {

/// The base of the links where no other is configured.
pub const BASE_URL: &'static str = "https://example.com";

/// The label of the button under an answer.
pub const BUTTON_LABEL: &'static str = "Visit Web Page";

/// An incoming start command.
#[derive(Clone, Debug, PartialEq, Eq)]
pub struct StartEvent {
    /// The text of the message, if it has one: the command, and behind the
    /// first whitespace its argument.
    pub text: Option<String>,
    /// Whether the sender has premium status; `None` where the message names
    /// no sender.
    pub premium: Option<bool>,
}

/// The answer to a start command.
#[derive(Clone, Debug, PartialEq, Eq)]
pub struct Reply {
    /// The text of the message.
    pub text: String,
    /// The label of the one button under the message.
    pub button_label: String,
    /// The link that the button opens.
    pub button_url: String,
}

/// The mathematical value of a [`StartEvent`].
pub struct StartEventView {
    pub text: Option<Seq<char>>,
    pub premium: Option<bool>,
}

/// The mathematical value of a [`Reply`].
pub struct ReplyView {
    pub text: Seq<char>,
    pub button_label: Seq<char>,
    pub button_url: Seq<char>,
}

impl View for StartEvent {
    type V = StartEventView;

    open spec fn view(&self) -> StartEventView {
        StartEventView {
            text: match self.text {
                Some(t) => Some(t@),
                None => None,
            },
            premium: self.premium,
        }
    }
}

impl View for Reply {
    type V = ReplyView;

    open spec fn view(&self) -> ReplyView {
        ReplyView {
            text: self.text@,
            button_label: self.button_label@,
            button_url: self.button_url@,
        }
    }
}

/// The argument of a command: all that follows its first whitespace
/// character, and nothing where it has none.
pub open spec fn argument_text(text: Seq<char>) -> Seq<char>
    decreases text.len(),
{
    if text.len() == 0 {
        Seq::empty()
    } else if is_whitespace(text[0]) {
        text.drop_first()
    } else {
        argument_text(text.drop_first())
    }
}

/// The parameters of an event: those that the argument of its text carries,
/// and none for an event without text.
pub open spec fn event_params(event: StartEventView) -> Seq<ParamView> {
    match event.text {
        Some(text) => decoded(argument_text(text)),
        None => Seq::empty(),
    }
}

/// The premium status of an event's sender; an event without sender counts
/// as not premium.
pub open spec fn event_premium(event: StartEventView) -> bool {
    match event.premium {
        Some(premium) => premium,
        None => false,
    }
}

/// The link that answers `event` on `base`.
pub open spec fn event_url(event: StartEventView, base: Seq<char>) -> Seq<char> {
    composed_url(event_params(event), event_premium(event), base)
}

/// The answer that holds the link `url`.
pub open spec fn reply_with(url: Seq<char>) -> ReplyView {
    ReplyView { text: display_text(url), button_label: BUTTON_LABEL@, button_url: url }
}

/// Skipping characters that are no whitespace leaves the argument as it is.
proof fn argument_behind(text: Seq<char>, skipped: int)
    requires
        0 <= skipped <= text.len(),
        forall|i: int| 0 <= i < skipped ==> !is_whitespace(#[trigger] text[i]),
    ensures
        argument_text(text) == argument_text(text.skip(skipped)),
    decreases skipped,
{
    if skipped > 0 {
        argument_behind(text.drop_first(), skipped - 1);
        assert(text.drop_first().skip(skipped - 1) =~= text.skip(skipped));
    } else {
        assert(text.skip(0) =~= text);
    }
}

/// The argument of the command `text`.
pub fn argument_of(text: &str) -> (argument: &str)
    ensures
        argument@ == argument_text(text@),
{
    let chars = chars_of(text);
    let length = chars.len();
    let mut at: usize = 0;
    while at < length
        invariant
            chars@ == text@,
            length == chars@.len(),
            at <= length,
            forall|i: int| 0 <= i < at ==> !is_whitespace(#[trigger] text@[i]),
        decreases length - at,
    {
        if whitespace(chars[at]) {
            proof {
                argument_behind(text@, at as int);
                assert(text@.skip(at as int).drop_first() =~= text@.subrange(
                    at + 1,
                    length as int,
                ));
            }
            return text.substring_char(at + 1, length);
        }
        at += 1;
    }
    proof {
        argument_behind(text@, length as int);
    }
    text.substring_char(length, length)
}

/// The parameters that `event` carries.
pub fn params_of(event: &StartEvent) -> (params: Vec<Param>)
    ensures
        params.deep_view() == event_params(event@),
{
    match &event.text {
        Some(text) => decode(argument_of(text.as_str())),
        None => {
            let params: Vec<Param> = Vec::new();
            assert(params.deep_view() =~= Seq::<ParamView>::empty());
            params
        },
    }
}

/// Whether the sender of `event` has premium status.
pub fn premium_of(event: &StartEvent) -> (premium: bool)
    ensures
        premium == event_premium(event@),
{
    match event.premium {
        Some(premium) => premium,
        None => false,
    }
}

/// The answer for a link and its text, given whether the link was accepted
/// as a URL: an answer that holds them if it was, none if it was not.
pub fn answer(url: String, text: String, accepted: bool) -> (reply: Option<Reply>)
    ensures
        reply is Some <==> accepted,
        accepted ==> reply->Some_0@ == (ReplyView {
            text: text@,
            button_label: BUTTON_LABEL@,
            button_url: url@,
        }),
{
    if accepted {
        Some(Reply { text, button_label: String::from_str(BUTTON_LABEL), button_url: url })
    } else {
        None
    }
}

/// The answer to `event`, with links on `base`: the text and the button for
/// the link that the event's parameters and the sender's status give. There
/// is no answer where that link is not accepted as a URL.
pub fn start(event: &StartEvent, base: &str) -> (reply: Option<Reply>)
    ensures
        reply is Some <==> url_accepted(event_url(event@, base@)),
        reply is Some ==> reply->Some_0@ == reply_with(event_url(event@, base@)),
{
    let params = params_of(event);
    let (url, text) = compose(&params, premium_of(event), base);
    let accepted = parses_as_url(url.as_str());
    answer(url, text, accepted)
}

} // verus!
