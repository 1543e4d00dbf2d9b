//! The link composer: from the parameters of a payload and the sender's
//! premium status to the link that is sent back, and the text around it.

use crate::payload::{Key, Param, ParamView};
use crate::text::{join, joined};
use vstd::prelude::*;

verus! {

/// The name under which a key stands in a link.
pub open spec fn key_name(key: Key) -> Seq<char> {
    match key {
        Key::Referral => "ref"@,
        Key::Query => "q"@,
    }
}

/// A parameter as it stands in a link: the key's name, `=`, and the value as
/// it is, nothing in it escaped.
pub open spec fn rendered(param: ParamView) -> Seq<char> {
    key_name(param.key) + "="@ + param.value
}

/// The entry that marks a premium sender.
pub open spec fn premium_entry() -> Seq<char> {
    "pr=true"@
}

/// The entries of a link's query string: the parameters in their order,
/// and behind them the premium entry for a premium sender.
pub open spec fn entries(params: Seq<ParamView>, premium: bool) -> Seq<Seq<char>> {
    let shown = params.map_values(|param: ParamView| rendered(param));
    if premium {
        shown.push(premium_entry())
    } else {
        shown
    }
}

/// The link: `base` alone where there is no entry, else `base`, `?` and the
/// entries with `&` between them.
pub open spec fn composed_url(params: Seq<ParamView>, premium: bool, base: Seq<char>) -> Seq<char> {
    if entries(params, premium).len() == 0 {
        base
    } else {
        base + "?"@ + joined(entries(params, premium), "&"@)
    }
}

/// The text of the answer, which holds `url` twice: once plain and once as
/// the target of an anchor.
pub open spec fn display_text(url: Seq<char>) -> Seq<char> {
    "Hello! This is a test bot. You can visit the web page by clicking the button below.\n\n"@
        + url + "\n<a href='"@ + url + "'>URL</a>"@
}

impl Key {
    /// The name under which the key stands in a link.
    pub fn name(&self) -> (name: &'static str)
        ensures
            name@ == key_name(*self),
    {
        match self {
            Key::Referral => "ref",
            Key::Query => "q",
        }
    }
}

impl Param {
    /// The parameter as it stands in a link.
    pub fn render(&self) -> (shown: String)
        ensures
            shown@ == rendered(self@),
    {
        let mut shown = String::from_str(self.key.name());
        shown.append("=");
        shown.append(self.value.as_str());
        shown
    }
}

/// The entries of the query string for `params` and `premium`.
pub fn query_entries(params: &Vec<Param>, premium: bool) -> (list: Vec<String>)
    ensures
        list.deep_view() == entries(params.deep_view(), premium),
{
    let mut list: Vec<String> = Vec::new();
    let count = params.len();
    let mut done: usize = 0;
    while done < count
        invariant
            count == params@.len(),
            done <= count,
            list@.len() == done,
            forall|i: int| 0 <= i < done ==> list@[i]@ == rendered(#[trigger] params@[i]@),
        decreases count - done,
    {
        list.push(params[done].render());
        done += 1;
    }
    if premium {
        list.push(String::from_str("pr=true"));
    }
    assert(list.deep_view() =~= entries(params.deep_view(), premium));
    list
}

/// The text of the answer around `url`.
pub fn text_around(url: &str) -> (text: String)
    ensures
        text@ == display_text(url@),
{
    let mut text = String::from_str(
        "Hello! This is a test bot. You can visit the web page by clicking the button below.\n\n",
    );
    text.append(url);
    text.append("\n<a href='");
    text.append(url);
    text.append("'>URL</a>");
    text
}

/// The link for `params` and `premium` on `base`, and the text of the
/// answer that holds it.
pub fn compose(params: &Vec<Param>, premium: bool, base: &str) -> (link: (String, String))
    ensures
        link.0@ == composed_url(params.deep_view(), premium, base@),
        link.1@ == display_text(link.0@),
{
    let list = query_entries(params, premium);
    let mut url = String::from_str(base);
    if list.len() > 0 {
        url.append("?");
        url.append(join(&list, "&").as_str());
    }
    let text = text_around(url.as_str());
    (url, text)
}

} // verus!
