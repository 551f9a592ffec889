use badcqbot::event::{Business, DecodeError, Event, Group, MessageEvent};
use badcqbot::reply::{reply, reply_for, reply_url, Route};
use badcqbot::session::{
    gateway_url, Action, DuplicateHandshake, Note, Phase, Session, SessionManager, Settings,
};
use badcqbot::text::{decimal_string, digit_char, push_decimal, push_two_digits};

fn settings() -> Settings {
    Settings {
        host: "localhost:8080".to_string(),
        verify_key: "VK".to_string(),
        account: 10001,
        allow_group: 555,
    }
}

fn connect_action() -> Action {
    Action::Connect("ws://localhost:8080/all?verifyKey=VK&qq=10001".to_string())
}

fn direct(sender: u64) -> MessageEvent {
    MessageEvent { sender, group: None, segments: vec![] }
}

fn in_group(sender: u64, group: u64) -> MessageEvent {
    MessageEvent { sender, group: Some(Group { id: group, name: None }), segments: vec![] }
}

#[test]
fn token_is_set_exactly_once() {
    let mut session = Session::new();
    assert!(!session.is_set());
    assert_eq!(session.token(), None);
    assert_eq!(session.set("first".to_string()), Ok(()));
    assert_eq!(session.token(), Some(&"first".to_string()));
    assert_eq!(session.set("second".to_string()), Err(DuplicateHandshake));
    assert_eq!(session.token(), Some(&"first".to_string()));
    assert!(session.is_set());
}

#[test]
fn gateway_address_is_exact() {
    assert_eq!(gateway_url("h:1", "k", 0), "ws://h:1/all?verifyKey=k&qq=0");
    assert_eq!(
        gateway_url("localhost:8080", "VK", u64::MAX),
        "ws://localhost:8080/all?verifyKey=VK&qq=18446744073709551615"
    );
}

#[test]
fn manager_starts_disconnected_and_connects() {
    let mut m = SessionManager::new(settings());
    assert_eq!(m.current_phase(), Phase::Disconnected);
    assert_eq!(m.current_token(), None);
    assert_eq!(m.current_settings(), &settings());
    assert_eq!(m.connect(), connect_action());
    assert_eq!(m.current_phase(), Phase::Connecting);
    assert_eq!(m.connected(), Action::Continue(Note::Connected));
    assert_eq!(m.current_phase(), Phase::Connected);
}

#[test]
fn failed_connect_is_followed_by_another_attempt() {
    let mut m = SessionManager::new(settings());
    assert_eq!(m.connect(), connect_action());
    for _ in 0..5 {
        assert_eq!(m.failed(), connect_action());
        assert_eq!(m.current_phase(), Phase::Connecting);
    }
    assert_eq!(m.connected(), Action::Continue(Note::Connected));
}

#[test]
fn lost_connection_drops_the_token_and_reconnects() {
    let mut m = SessionManager::new(settings());
    m.connect();
    m.connected();
    assert_eq!(
        m.frame("{\"data\":{\"session\":\"one\"}}"),
        Action::Continue(Note::Authenticated)
    );
    assert_eq!(m.current_phase(), Phase::Authenticated);
    assert_eq!(m.current_token(), Some(&"one".to_string()));
    assert_eq!(m.failed(), connect_action());
    assert_eq!(m.current_token(), None);
    m.connected();
    assert_eq!(
        m.frame("{\"data\":{\"session\":\"two\"}}"),
        Action::Continue(Note::Authenticated)
    );
    assert_eq!(m.session().token(), Some(&"two".to_string()));
}

#[test]
fn second_handshake_leaves_the_token() {
    let mut m = SessionManager::new(settings());
    m.connect();
    m.connected();
    assert_eq!(
        m.dispatch(Ok(Event::Handshake("one".to_string()))),
        Action::Continue(Note::Authenticated)
    );
    assert_eq!(
        m.dispatch(Ok(Event::Handshake("two".to_string()))),
        Action::Continue(Note::DuplicateHandshake)
    );
    assert_eq!(m.current_token(), Some(&"one".to_string()));
    assert_eq!(m.current_phase(), Phase::Authenticated);
}

#[test]
fn messages_are_handed_on_and_the_rest_is_ignored() {
    let mut m = SessionManager::new(settings());
    m.connect();
    m.connected();
    assert_eq!(
        m.dispatch(Ok(Event::Business(Business::FriendMessage(direct(3))))),
        Action::Collect(direct(3))
    );
    assert_eq!(
        m.dispatch(Ok(Event::Business(Business::GroupMessage(in_group(3, 4))))),
        Action::Collect(in_group(3, 4))
    );
    assert_eq!(
        m.dispatch(Ok(Event::Business(Business::FriendRecall))),
        Action::Continue(Note::Ignored)
    );
    assert_eq!(
        m.dispatch(Ok(Event::Business(Business::GroupRecall))),
        Action::Continue(Note::Ignored)
    );
    assert_eq!(
        m.dispatch(Ok(Event::Business(Business::FriendInputStatusChanged))),
        Action::Continue(Note::Ignored)
    );
    assert_eq!(
        m.dispatch(Ok(Event::Business(Business::Other))),
        Action::Continue(Note::Ignored)
    );
    assert_eq!(m.current_phase(), Phase::Connected);
}

#[test]
fn undecodable_frame_is_dropped_and_the_loop_goes_on() {
    let mut m = SessionManager::new(settings());
    m.connect();
    m.connected();
    assert_eq!(m.frame("garbage"), Action::Continue(Note::Undecodable(DecodeError::Syntax)));
    assert_eq!(m.frame("{}"), Action::Continue(Note::Undecodable(DecodeError::Shape)));
    assert_eq!(m.current_phase(), Phase::Connected);
    assert_eq!(
        m.frame("{\"data\":{\"type\":\"FriendMessage\",\"sender\":{\"id\":8}}}"),
        Action::Collect(direct(8))
    );
}

#[test]
fn frames_count_only_while_the_socket_is_open() {
    let mut m = SessionManager::new(settings());
    assert_eq!(
        m.frame("{\"data\":{\"session\":\"one\"}}"),
        Action::Continue(Note::OutOfTurn)
    );
    assert_eq!(m.connected(), Action::Continue(Note::OutOfTurn));
    assert_eq!(m.current_phase(), Phase::Disconnected);
    m.connect();
    assert_eq!(
        m.dispatch(Ok(Event::Handshake("one".to_string()))),
        Action::Continue(Note::OutOfTurn)
    );
    assert_eq!(m.current_token(), None);
    m.connected();
    assert_eq!(m.connected(), Action::Continue(Note::OutOfTurn));
    assert_eq!(m.current_phase(), Phase::Connected);
}

#[test]
fn direct_message_is_answered_to_the_sender() {
    let r = reply("localhost:8080", "KEY", &direct(42), 3);
    assert_eq!(r.route, Route::Friend);
    assert_eq!(r.target, 42);
    assert_eq!(r.url, "http://localhost:8080/sendFriendMessage");
    assert_eq!(
        r.body,
        "{\"sessionKey\":\"KEY\",\"target\":42,\"messageChain\":[{\"type\":\"Plain\",\"text\":\"3\"}]}"
    );
}

#[test]
fn group_message_is_answered_to_the_group() {
    let r = reply("localhost:8080", "KEY", &in_group(42, 777), 0);
    assert_eq!(r.route, Route::Group);
    assert_eq!(r.target, 777);
    assert_eq!(r.url, "http://localhost:8080/sendGroupMessage");
    assert_eq!(
        r.body,
        "{\"sessionKey\":\"KEY\",\"target\":777,\"messageChain\":[{\"type\":\"Plain\",\"text\":\"0\"}]}"
    );
}

#[test]
fn reply_body_is_what_the_json_crate_writes() {
    let token = "a\"b\\c\n\u{1}é";
    let r = reply("h", token, &direct(18446744073709551615), 120);
    let mut segment = json::JsonValue::new_object();
    segment.insert("type", "Plain").unwrap();
    segment.insert("text", "120").unwrap();
    let mut chain = json::JsonValue::new_array();
    chain.push(segment).unwrap();
    let mut body = json::JsonValue::new_object();
    body.insert("sessionKey", token).unwrap();
    body.insert("target", 18446744073709551615u64).unwrap();
    body.insert("messageChain", chain).unwrap();
    assert_eq!(r.body, body.dump());
    let back = json::parse(&r.body).unwrap();
    assert_eq!(back["sessionKey"].as_str(), Some(token));
    assert_eq!(back["target"].as_u64(), Some(18446744073709551615));
}

#[test]
fn reply_needs_a_token() {
    let mut session = Session::new();
    assert_eq!(reply_for("h", &session, &direct(1), 2), None);
    session.set("T".to_string()).unwrap();
    assert_eq!(reply_for("h", &session, &direct(1), 2), Some(reply("h", "T", &direct(1), 2)));
}

#[test]
fn reply_addresses() {
    assert_eq!(reply_url("h", Route::Friend), "http://h/sendFriendMessage");
    assert_eq!(reply_url("h", Route::Group), "http://h/sendGroupMessage");
}

#[test]
fn decimal_numerals() {
    assert_eq!(decimal_string(0), "0");
    assert_eq!(decimal_string(9), "9");
    assert_eq!(decimal_string(10), "10");
    assert_eq!(decimal_string(1234567890), "1234567890");
    assert_eq!(decimal_string(u64::MAX), "18446744073709551615");
    let mut s = "n=".to_string();
    push_decimal(&mut s, 305);
    push_two_digits(&mut s, 7);
    push_two_digits(&mut s, 99);
    assert_eq!(s, "n=3050799");
    assert_eq!(digit_char(0), '0');
    assert_eq!(digit_char(9), '9');
}

#[test]
fn reply_body_escapes_every_control_character() {
    let mut token = String::new();
    for code in 0u32..0x30 {
        token.push(char::from_u32(code).unwrap());
    }
    token.push_str("\\\u{7f}\u{80}\u{ff}Z[]^\u{4e2d}\u{1f600}");
    let r = reply("h", &token, &direct(1), 0);
    let expected = format!(
        "{{\"sessionKey\":{},\"target\":1,\"messageChain\":[{{\"type\":\"Plain\",\"text\":\"0\"}}]}}",
        json::stringify(token.as_str())
    );
    assert_eq!(r.body, expected);
    assert!(r.body.contains("\\u0000\\u0001"));
    assert!(r.body.contains("\\b\\t\\n\\u000b\\f\\r\\u000e"));
    assert!(r.body.contains("\\u001f !\\\"#"));
    assert!(r.body.contains("\\\\\u{7f}\u{80}"));
    let back = json::parse(&r.body).unwrap();
    assert_eq!(back["sessionKey"].as_str(), Some(token.as_str()));
}
