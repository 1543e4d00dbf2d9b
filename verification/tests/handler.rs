use base64::Engine;
use start_link::start::{
    answer, argument_of, params_of, premium_of, start, Reply, StartEvent, BASE_URL, BUTTON_LABEL,
};
use start_link::payload::{Key, Param};

fn event(text: &str, premium: Option<bool>) -> StartEvent {
    StartEvent { text: Some(text.to_string()), premium }
}

#[test]
fn start_with_referral_and_query() {
    let payload = base64::engine::general_purpose::URL_SAFE.encode("r=alice&q=promo");
    assert_eq!(payload, "cj1hbGljZSZxPXByb21v");
    let reply = start(&event(&format!("/start {}", payload), Some(false)), "https://example.com")
        .unwrap();
    assert_eq!(reply.button_url, "https://example.com?ref=alice&&q=promo");
    assert_eq!(reply.button_label, "Visit Web Page");
    assert_eq!(
        reply.text,
        "Hello! This is a test bot. You can visit the web page by clicking the button below.\n\nhttps://example.com?ref=alice&&q=promo\n<a href='https://example.com?ref=alice&&q=promo'>URL</a>"
    );
}

#[test]
fn start_without_argument_from_premium_sender() {
    let reply = start(&event("/start", Some(true)), "https://example.com").unwrap();
    assert_eq!(reply.button_url, "https://example.com?pr=true");
    assert_eq!(
        reply,
        Reply {
            text: "Hello! This is a test bot. You can visit the web page by clicking the button below.\n\nhttps://example.com?pr=true\n<a href='https://example.com?pr=true'>URL</a>".to_string(),
            button_label: "Visit Web Page".to_string(),
            button_url: "https://example.com?pr=true".to_string(),
        }
    );
}

#[test]
fn start_without_argument_and_without_premium() {
    let reply = start(&event("/start", Some(false)), BASE_URL).unwrap();
    assert_eq!(reply.button_url, "https://example.com");
}

#[test]
fn start_without_sender_counts_as_not_premium() {
    let reply = start(&event("/start", None), BASE_URL).unwrap();
    assert_eq!(reply.button_url, "https://example.com");
}

#[test]
fn start_without_text() {
    let silent = StartEvent { text: None, premium: Some(true) };
    assert_eq!(start(&silent, BASE_URL).unwrap().button_url, "https://example.com?pr=true");
    let silent = StartEvent { text: None, premium: None };
    assert_eq!(start(&silent, BASE_URL).unwrap().button_url, "https://example.com");
}

#[test]
fn start_with_bad_argument_answers_with_the_bare_link() {
    let reply = start(&event("/start not-base64!", Some(false)), BASE_URL).unwrap();
    assert_eq!(reply.button_url, "https://example.com");
    let reply = start(&event("/start not-base64!", Some(true)), BASE_URL).unwrap();
    assert_eq!(reply.button_url, "https://example.com?pr=true");
}

#[test]
fn start_gives_no_answer_where_the_link_is_no_url() {
    assert_eq!(start(&event("/start", Some(true)), "no base"), None);
    assert_eq!(start(&event("/start cj1hbGljZQ==", None), ""), None);
    assert_eq!(start(&event("/start", None), "https://"), None);
}

#[test]
fn start_twice_gives_the_same() {
    let incoming = event("/start cT1kZWYmcj1hYmM=", Some(true));
    assert_eq!(start(&incoming, BASE_URL), start(&incoming, BASE_URL));
    assert_eq!(
        start(&incoming, BASE_URL).unwrap().button_url,
        "https://example.com?ref=abc&q=def&r=abc&pr=true"
    );
}

#[test]
fn constants() {
    assert_eq!(BASE_URL, "https://example.com");
    assert_eq!(BUTTON_LABEL, "Visit Web Page");
}

#[test]
fn argument_follows_the_first_space() {
    assert_eq!(argument_of("/start abc"), "abc");
    assert_eq!(argument_of("/start abc def"), "abc def");
    assert_eq!(argument_of("/start  abc"), " abc");
    assert_eq!(argument_of(" abc"), "abc");
}

#[test]
fn argument_is_empty_without_whitespace() {
    assert_eq!(argument_of("/start"), "");
    assert_eq!(argument_of(""), "");
    assert_eq!(argument_of("/start "), "");
}

#[test]
fn argument_follows_other_whitespace_too() {
    assert_eq!(argument_of("/start\tabc"), "abc");
    assert_eq!(argument_of("/start\nabc def"), "abc def");
    assert_eq!(argument_of("/start\u{a0}abc"), "abc");
    assert_eq!(argument_of("/start\u{3000}abc"), "abc");
    assert_eq!(argument_of("\u{e9}\u{2003}\u{2603} x"), "\u{2603} x");
}

#[test]
fn argument_does_not_split_at_what_is_no_whitespace() {
    assert_eq!(argument_of("/start\u{200b}abc"), "");
    assert_eq!(argument_of("/start_abc"), "");
    assert_eq!(argument_of("/start\u{0}abc"), "");
}

#[test]
fn params_of_event() {
    assert_eq!(
        params_of(&event("/start cj1hbGljZSZxPXByb21v", None)),
        vec![
            Param { key: Key::Referral, value: "alice&".to_string() },
            Param { key: Key::Query, value: "promo".to_string() },
        ]
    );
    assert_eq!(params_of(&event("/start", None)), Vec::<Param>::new());
    assert_eq!(params_of(&StartEvent { text: None, premium: None }), Vec::<Param>::new());
}

#[test]
fn premium_of_event() {
    assert!(premium_of(&event("/start", Some(true))));
    assert!(!premium_of(&event("/start", Some(false))));
    assert!(!premium_of(&event("/start", None)));
}

#[test]
fn answer_only_for_an_accepted_link() {
    assert_eq!(answer("u".to_string(), "t".to_string(), false), None);
    assert_eq!(
        answer("u".to_string(), "t".to_string(), true),
        Some(Reply {
            text: "t".to_string(),
            button_label: "Visit Web Page".to_string(),
            button_url: "u".to_string(),
        })
    );
}
