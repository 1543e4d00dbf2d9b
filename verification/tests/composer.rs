use start_link::link::{compose, query_entries, text_around};
use start_link::payload::{Key, Param};

fn referral(value: &str) -> Param {
    Param { key: Key::Referral, value: value.to_string() }
}

fn query(value: &str) -> Param {
    Param { key: Key::Query, value: value.to_string() }
}

#[test]
fn compose_nothing_leaves_the_base() {
    let (url, _) = compose(&Vec::new(), false, "https://example.com");
    assert_eq!(url, "https://example.com");
    let (url, _) = compose(&Vec::new(), false, "");
    assert_eq!(url, "");
}

#[test]
fn compose_referral_for_premium_sender() {
    let (url, _) = compose(&vec![referral("abc")], true, "https://example.com");
    assert_eq!(url, "https://example.com?ref=abc&pr=true");
}

#[test]
fn compose_premium_alone() {
    let (url, _) = compose(&Vec::new(), true, "https://example.com");
    assert_eq!(url, "https://example.com?pr=true");
}

#[test]
fn compose_all_three_in_order() {
    let (url, _) = compose(&vec![referral("abc"), query("def")], true, "https://example.org/x");
    assert_eq!(url, "https://example.org/x?ref=abc&q=def&pr=true");
}

#[test]
fn compose_keeps_the_given_order_of_parameters() {
    let (url, _) = compose(&vec![query("def"), referral("abc")], false, "https://example.com");
    assert_eq!(url, "https://example.com?q=def&ref=abc");
}

#[test]
fn compose_escapes_nothing() {
    let (url, _) = compose(&vec![referral("a b&c"), query("\u{e9}?#")], false, "https://example.com");
    assert_eq!(url, "https://example.com?ref=a b&c&q=\u{e9}?#");
}

#[test]
fn compose_empty_values() {
    let (url, _) = compose(&vec![referral(""), query("")], false, "https://example.com");
    assert_eq!(url, "https://example.com?ref=&q=");
}

#[test]
fn compose_text_holds_the_link_twice() {
    let (url, text) = compose(&vec![query("def")], false, "https://example.com");
    assert_eq!(
        text,
        "Hello! This is a test bot. You can visit the web page by clicking the button below.\n\nhttps://example.com?q=def\n<a href='https://example.com?q=def'>URL</a>"
    );
    assert_eq!(text.matches(url.as_str()).count(), 2);
    assert_eq!(text, text_around(&url));
}

#[test]
fn text_around_a_link() {
    assert_eq!(
        text_around("x"),
        "Hello! This is a test bot. You can visit the web page by clicking the button below.\n\nx\n<a href='x'>URL</a>"
    );
}

#[test]
fn key_names() {
    assert_eq!(Key::Referral.name(), "ref");
    assert_eq!(Key::Query.name(), "q");
}

#[test]
fn render_parameter() {
    assert_eq!(referral("abc").render(), "ref=abc");
    assert_eq!(query("").render(), "q=");
    assert_eq!(query("a=b").render(), "q=a=b");
}

#[test]
fn query_entries_in_order() {
    assert_eq!(query_entries(&Vec::new(), false), Vec::<String>::new());
    assert_eq!(query_entries(&Vec::new(), true), vec!["pr=true"]);
    assert_eq!(
        query_entries(&vec![referral("a"), query("b")], true),
        vec!["ref=a", "q=b", "pr=true"]
    );
    assert_eq!(query_entries(&vec![referral("a"), query("b")], false), vec!["ref=a", "q=b"]);
}
