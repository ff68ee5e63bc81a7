use ghostfeed::constants::MESSAGE_FETCH_LIMIT;
use ghostfeed::engine::{webhook_token_matches, Convo, ConvoParticipant, Engine};
use ghostfeed::error::Error;
use ghostfeed::json::JsonValue;

fn text(s: &str) -> JsonValue {
    JsonValue::String(s.to_string())
}

fn object(members: Vec<(&str, JsonValue)>) -> JsonValue {
    JsonValue::Object(members.into_iter().map(|(k, v)| (k.to_string(), v)).collect())
}

fn participant(id: &str, username: &str) -> JsonValue {
    object(vec![("id", text(id)), ("username", text(username))])
}

fn convo_json(id: &str, participants: Vec<JsonValue>) -> JsonValue {
    object(vec![
        ("id", text(id)),
        ("participants", object(vec![("data", JsonValue::Array(participants))])),
    ])
}

fn engine() -> Engine {
    let me = object(vec![("id", text("1789")), ("username", text("me"))]);
    Engine::new("TOKEN", "HOOK", &me).unwrap()
}

fn deserialize(msg: &str) -> Error {
    Error::DeserializeError(msg.to_string())
}

#[test]
fn convo_reads_id_and_participants_in_order() {
    let v = convo_json("c1", vec![participant("1", "ann"), participant("2", "bob")]);
    let c = Convo::try_from(&v).unwrap();
    assert_eq!(
        c,
        Convo {
            id: "c1".to_string(),
            participants: vec![
                ConvoParticipant { id: "1".to_string(), username: "ann".to_string() },
                ConvoParticipant { id: "2".to_string(), username: "bob".to_string() },
            ],
        }
    );
}

#[test]
fn convo_with_no_participants() {
    let c = Convo::try_from(&convo_json("c2", vec![])).unwrap();
    assert_eq!(c.id, "c2");
    assert!(c.participants.is_empty());
}

#[test]
fn convo_missing_id() {
    let v = object(vec![("participants", object(vec![("data", JsonValue::Array(vec![]))]))]);
    assert_eq!(Convo::try_from(&v), Err(deserialize("Invalid or missing convo[id]")));
    let w = object(vec![("id", JsonValue::Number("5".to_string()))]);
    assert_eq!(Convo::try_from(&w), Err(deserialize("Invalid or missing convo[id]")));
}

#[test]
fn convo_missing_participant_data() {
    let v = object(vec![("id", text("c"))]);
    assert_eq!(
        Convo::try_from(&v),
        Err(deserialize("Invalid or missing convo[participants][data]"))
    );
    let w = object(vec![("id", text("c")), ("participants", object(vec![("data", text("x"))]))]);
    assert_eq!(
        Convo::try_from(&w),
        Err(deserialize("Invalid or missing convo[participants][data]"))
    );
}

#[test]
fn convo_bad_participant_reports_first_failure() {
    let v = convo_json(
        "c",
        vec![participant("1", "ann"), object(vec![("username", text("bob"))]), object(vec![])],
    );
    assert_eq!(Convo::try_from(&v), Err(deserialize("Invalid or missing participants[id]")));
    let w = convo_json("c", vec![object(vec![("id", text("9"))])]);
    assert_eq!(
        Convo::try_from(&w),
        Err(deserialize("Invalid or missing participants[username]"))
    );
}

#[test]
fn engine_new_reads_user_id() {
    let e = engine();
    assert_eq!(e.user_id, "1789");
    assert_eq!(e.access_token, "TOKEN");
    assert_eq!(e.webhook_token, "HOOK");
    assert_eq!(e.base_url, "https://graph.instagram.com/v23.0");
}

#[test]
fn engine_new_without_id_fails() {
    let me = object(vec![("username", text("me"))]);
    assert_eq!(
        Engine::new("T", "H", &me).unwrap_err(),
        deserialize("Invalid or missing user[id]")
    );
}

#[test]
fn urls() {
    let e = engine();
    assert_eq!(Engine::base_url(), "https://graph.instagram.com/v23.0");
    assert_eq!(Engine::me_url("TOK"), "https://graph.instagram.com/v23.0/me?access_token=TOK");
    assert_eq!(
        e.convo_list_url(),
        "https://graph.instagram.com/v23.0/me/conversations?platform=instagram&access_token=TOKEN&fields=participants"
    );
    assert_eq!(
        e.convo_ids_url(),
        "https://graph.instagram.com/v23.0/me/conversations?platform=instagram&access_token=TOKEN"
    );
    assert_eq!(e.send_url(), "https://graph.instagram.com/v23.0/1789/messages");
}

#[test]
fn message_list_url_with_and_without_limit() {
    let e = engine();
    assert_eq!(
        e.message_list_url("c9", Some(5)),
        "https://graph.instagram.com/v23.0/c9/messages?limit=5&fields=from,to,message&access_token=TOKEN"
    );
    assert_eq!(
        e.message_list_url("c9", None),
        format!(
            "https://graph.instagram.com/v23.0/c9/messages?limit={}&fields=from,to,message&access_token=TOKEN",
            MESSAGE_FETCH_LIMIT
        )
    );
}

#[test]
fn convo_list_reads_every_convo() {
    let e = engine();
    let resp = object(vec![(
        "data",
        JsonValue::Array(vec![
            convo_json("a", vec![participant("1", "x")]),
            convo_json("b", vec![]),
        ]),
    )]);
    let list = e.get_convo_list(&resp).unwrap();
    assert_eq!(list.len(), 2);
    assert_eq!(list[0].id, "a");
    assert_eq!(list[0].participants[0].username, "x");
    assert_eq!(list[1].id, "b");
}

#[test]
fn convo_list_errors() {
    let e = engine();
    assert_eq!(
        e.get_convo_list(&object(vec![])).unwrap_err(),
        deserialize("Invalid or missing convo_list[data]")
    );
    let resp = object(vec![("data", JsonValue::Array(vec![convo_json("a", vec![]), object(vec![])]))]);
    assert_eq!(e.get_convo_list(&resp).unwrap_err(), deserialize("Invalid or missing convo[id]"));
}

#[test]
fn convo_ids_skip_convos_without_id() {
    let e = engine();
    let resp = object(vec![(
        "data",
        JsonValue::Array(vec![
            object(vec![("id", text("a"))]),
            object(vec![("x", text("b"))]),
            object(vec![("id", text("c"))]),
        ]),
    )]);
    assert_eq!(e.get_convo_ids(&resp).unwrap(), vec!["a".to_string(), "c".to_string()]);
    assert_eq!(
        e.get_convo_ids(&text("no")).unwrap_err(),
        deserialize("Invalid or missing convo_list[data]")
    );
}

fn page(n: usize, next: Option<&str>) -> JsonValue {
    let data = (0..n).map(|i| object(vec![("id", text(&format!("m{}", i)))])).collect();
    let mut members = vec![("data", JsonValue::Array(data))];
    if let Some(url) = next {
        members.push(("paging", object(vec![("next", text(url))])));
    }
    object(members)
}

#[test]
fn short_page_is_last() {
    let mut out = vec![JsonValue::Null];
    let r = Engine::get_message_list(&mut out, page(3, Some("http://next")));
    assert_eq!(r, Ok(None));
    assert_eq!(out.len(), 4);
    assert_eq!(out[1], object(vec![("id", text("m0"))]));
}

#[test]
fn full_page_gives_next_address() {
    let mut out = Vec::new();
    let r = Engine::get_message_list(&mut out, page(MESSAGE_FETCH_LIMIT, Some("http://next")));
    assert_eq!(r, Ok(Some("http://next".to_string())));
    assert_eq!(out.len(), MESSAGE_FETCH_LIMIT);
}

#[test]
fn full_page_without_next_fails() {
    let mut out = Vec::new();
    let r = Engine::get_message_list(&mut out, page(MESSAGE_FETCH_LIMIT, None));
    assert_eq!(r, Err(deserialize("Invalid or missing messages[paging][next]")));
}

#[test]
fn page_without_data_fails_and_keeps_output() {
    let mut out = vec![text("kept")];
    let r = Engine::get_message_list(&mut out, object(vec![("paging", object(vec![]))]));
    assert_eq!(r, Err(deserialize("Invalid or missing messages[data]")));
    assert_eq!(out, vec![text("kept")]);
}

#[test]
fn pages_concatenate() {
    let mut out = Vec::new();
    let first = Engine::get_message_list(&mut out, page(MESSAGE_FETCH_LIMIT, Some("u2"))).unwrap();
    assert_eq!(first, Some("u2".to_string()));
    let second = Engine::get_message_list(&mut out, page(2, None)).unwrap();
    assert_eq!(second, None);
    assert_eq!(out.len(), MESSAGE_FETCH_LIMIT + 2);
}

#[test]
fn webhook_token_check() {
    let e = engine();
    assert!(e.is_webhook_token_valid("HOOK"));
    assert!(!e.is_webhook_token_valid("HOOK "));
    assert!(!e.is_webhook_token_valid(""));
}

#[test]
fn send_message_builds_request() {
    let e = engine();
    let m = e.send_message("42", "hello").unwrap();
    assert_eq!(m.url, "https://graph.instagram.com/v23.0/1789/messages");
    assert_eq!(m.authorization, "Bearer TOKEN");
    assert_eq!(m.content_type, "application/json");
    assert_eq!(
        m.body,
        object(vec![
            ("recipient", object(vec![("id", text("42"))])),
            ("message", object(vec![("text", text("hello"))])),
        ])
    );
    let recipient = m.body.get("recipient").unwrap();
    assert_eq!(recipient.field_str("id"), Some(&"42".to_string()));
    let message = m.body.get("message").unwrap();
    assert_eq!(message.field_str("text"), Some(&"hello".to_string()));
}

#[test]
fn send_message_with_bad_token_fails() {
    let me = object(vec![("id", text("1"))]);
    let e = Engine::new("bad\ntoken", "H", &me).unwrap();
    assert_eq!(e.send_message("42", "hi").unwrap_err(), Error::InvalidHeaderValue);
    let del = Engine::new("bad\u{7f}", "H", &me).unwrap();
    assert!(del.send_message("42", "hi").is_err());
    let tab = Engine::new("tab\there", "H", &me).unwrap();
    assert!(tab.send_message("42", "hi").is_ok());
}

#[test]
fn message_body_is_exactly_recipient_and_text() {
    assert_eq!(
        Engine::message_body("7", ""),
        object(vec![
            ("recipient", object(vec![("id", text("7"))])),
            ("message", object(vec![("text", text(""))])),
        ])
    );
}

#[test]
fn token_matching() {
    assert!(webhook_token_matches("abc", "abc"));
    assert!(!webhook_token_matches("abc", "abd"));
    assert!(!webhook_token_matches("", "abc"));
}
