use chat_session::envelope::{DecodeError, Envelope, MessageData, MsgTypes};
use chat_session::session::{avatar_url, outbound_message, Chat, Frame, Msg};

fn names(v: &[&str]) -> Vec<String> {
    v.iter().map(|s| s.to_string()).collect()
}

fn users_frame(v: &[&str]) -> Frame {
    Frame { envelope: Ok(Envelope::users(names(v))), payload: Err(DecodeError::MalformedPayload) }
}

fn message_frame(from: &str, body: &str) -> Frame {
    Frame {
        envelope: Ok(Envelope::message(format!("{{\"from\":\"{}\",\"message\":\"{}\"}}", from, body))),
        payload: Ok(MessageData { from: from.to_string(), message: body.to_string() }),
    }
}

fn roster_names(chat: &Chat) -> Vec<String> {
    chat.users().iter().map(|u| u.name.clone()).collect()
}

fn history(chat: &Chat) -> Vec<(String, String)> {
    chat.messages().iter().map(|m| (m.from.clone(), m.message.clone())).collect()
}

#[test]
fn create_sends_registration() {
    let (chat, env) = Chat::create("alice".to_string());
    assert_eq!(env.message_type, "register");
    assert_eq!(env.data, Some("alice".to_string()));
    assert!(env.data_array.is_none());
    assert_eq!(chat.username(), "alice");
    assert!(chat.users().is_empty());
    assert!(chat.messages().is_empty());
    assert!(!chat.dark_mode());
    assert_eq!(chat.input(), "");
}

#[test]
fn roster_is_replaced_by_each_users_envelope() {
    let (mut chat, _) = Chat::create("alice".to_string());
    assert!(chat.handle_frame(users_frame(&["alice", "bob", "carol"])));
    assert_eq!(roster_names(&chat), names(&["alice", "bob", "carol"]));
    assert!(chat.handle_frame(users_frame(&["dave"])));
    assert_eq!(roster_names(&chat), names(&["dave"]));
    assert!(chat.handle_frame(users_frame(&[])));
    assert!(chat.users().is_empty());
}

#[test]
fn roster_keeps_duplicates_and_derives_avatars() {
    let (mut chat, _) = Chat::create("alice".to_string());
    chat.handle_frame(users_frame(&["bob", "bob"]));
    assert_eq!(roster_names(&chat), names(&["bob", "bob"]));
    for u in chat.users() {
        assert_eq!(u.avatar, "https://avatars.dicebear.com/api/adventurer-neutral/bob.svg");
    }
}

#[test]
fn users_envelope_without_list_empties_roster() {
    let (mut chat, _) = Chat::create("alice".to_string());
    chat.handle_frame(users_frame(&["bob"]));
    let env = Envelope { message_type: "users".to_string(), data_array: None, data: None };
    assert!(chat.handle_frame(Frame { envelope: Ok(env), payload: Err(DecodeError::MalformedPayload) }));
    assert!(chat.users().is_empty());
}

#[test]
fn history_keeps_arrival_order() {
    let (mut chat, _) = Chat::create("alice".to_string());
    assert!(chat.handle_frame(message_frame("bob", "t=3 third")));
    assert!(chat.handle_frame(message_frame("carol", "t=1 first")));
    assert!(chat.handle_frame(message_frame("bob", "t=2 second")));
    assert_eq!(
        history(&chat),
        vec![
            ("bob".to_string(), "t=3 third".to_string()),
            ("carol".to_string(), "t=1 first".to_string()),
            ("bob".to_string(), "t=2 second".to_string()),
        ]
    );
}

#[test]
fn malformed_payload_is_dropped_and_session_goes_on() {
    let (mut chat, _) = Chat::create("alice".to_string());
    chat.handle_frame(message_frame("bob", "hi"));
    let bad = Frame {
        envelope: Ok(Envelope::message("{\"from\":\"bob\"}".to_string())),
        payload: Err(DecodeError::MalformedPayload),
    };
    assert!(!chat.handle_frame(bad));
    assert_eq!(history(&chat), vec![("bob".to_string(), "hi".to_string())]);
    assert!(chat.handle_frame(message_frame("carol", "still here")));
    assert_eq!(history(&chat).len(), 2);
}

#[test]
fn message_envelope_without_data_is_dropped() {
    let (mut chat, _) = Chat::create("alice".to_string());
    let env = Envelope { message_type: "message".to_string(), data_array: None, data: None };
    let frame = Frame {
        envelope: Ok(env),
        payload: Ok(MessageData { from: "bob".to_string(), message: "x".to_string() }),
    };
    assert!(!chat.handle_frame(frame));
    assert!(chat.messages().is_empty());
}

#[test]
fn unknown_kind_changes_nothing() {
    let (mut chat, _) = Chat::create("alice".to_string());
    chat.handle_frame(users_frame(&["bob"]));
    chat.handle_frame(message_frame("bob", "hi"));
    let env = Envelope {
        message_type: "typing".to_string(),
        data_array: Some(names(&["eve"])),
        data: Some("x".to_string()),
    };
    let frame = Frame {
        envelope: Ok(env),
        payload: Ok(MessageData { from: "eve".to_string(), message: "x".to_string() }),
    };
    assert!(!chat.handle_frame(frame));
    assert_eq!(roster_names(&chat), names(&["bob"]));
    assert_eq!(history(&chat).len(), 1);
}

#[test]
fn register_and_malformed_frames_change_nothing() {
    let (mut chat, _) = Chat::create("alice".to_string());
    let reg = Frame {
        envelope: Ok(Envelope::register("bob".to_string())),
        payload: Err(DecodeError::MalformedPayload),
    };
    assert!(!chat.handle_frame(reg));
    let broken = Frame {
        envelope: Err(DecodeError::MalformedEnvelope),
        payload: Err(DecodeError::MalformedPayload),
    };
    assert!(!chat.handle_frame(broken));
    assert!(chat.users().is_empty());
    assert!(chat.messages().is_empty());
}

#[test]
fn toggle_theme_flips_and_double_toggle_restores() {
    let (mut chat, _) = Chat::create("alice".to_string());
    let (changed, out) = chat.update(Msg::ToggleTheme);
    assert!(changed);
    assert!(out.is_none());
    assert!(chat.dark_mode());
    chat.update(Msg::ToggleTheme);
    assert!(!chat.dark_mode());
}

#[test]
fn submit_empty_input_sends_nothing() {
    let (mut chat, _) = Chat::create("alice".to_string());
    let (changed, out) = chat.update(Msg::SubmitMessage);
    assert!(!changed);
    assert!(out.is_none());
}

#[test]
fn submit_hello_sends_one_message_and_clears_input() {
    let (mut chat, _) = Chat::create("alice".to_string());
    chat.set_input("hello".to_string());
    assert_eq!(chat.input(), "hello");
    let (changed, out) = chat.update(Msg::SubmitMessage);
    assert!(!changed);
    let env = out.expect("an envelope for non-empty input");
    assert_eq!(env.kind().map(|k| k.tag()), Some("message"));
    assert_eq!(env.data, Some("hello".to_string()));
    assert_eq!(chat.input(), "");
    let wire = env.to_wire();
    let v: serde_json::Value = serde_json::from_str(&wire).expect("valid JSON");
    assert_eq!(v["messageType"], "message");
    assert_eq!(v["data"], "hello");
    assert!(v["dataArray"].is_null());
    assert!(chat.submit_message().is_none());
}

#[test]
fn handle_msg_through_update() {
    let (mut chat, _) = Chat::create("alice".to_string());
    let (changed, out) = chat.update(Msg::HandleMsg(users_frame(&["alice"])));
    assert!(changed);
    assert!(out.is_none());
    assert_eq!(roster_names(&chat), names(&["alice"]));
}

#[test]
fn own_messages_and_avatars_for_senders() {
    let (mut chat, _) = Chat::create("alice".to_string());
    chat.handle_frame(users_frame(&["alice", "bob"]));
    let mine = MessageData { from: "alice".to_string(), message: "m".to_string() };
    let theirs = MessageData { from: "bob".to_string(), message: "m".to_string() };
    assert!(chat.is_me(&mine));
    assert!(!chat.is_me(&theirs));
    assert_eq!(chat.avatar_for("bob"), "https://avatars.dicebear.com/api/adventurer-neutral/bob.svg");
    assert_eq!(chat.avatar_for("zed"), "");
}

#[test]
fn avatar_url_format() {
    assert_eq!(avatar_url("x y"), "https://avatars.dicebear.com/api/adventurer-neutral/x y.svg");
}

#[test]
fn kinds_and_tags() {
    assert!(matches!(MsgTypes::from_tag("users"), Some(MsgTypes::Users)));
    assert!(matches!(MsgTypes::from_tag("register"), Some(MsgTypes::Register)));
    assert!(matches!(MsgTypes::from_tag("message"), Some(MsgTypes::Message)));
    assert!(MsgTypes::from_tag("Users").is_none());
    assert!(MsgTypes::from_tag("").is_none());
    assert_eq!(MsgTypes::Users.tag(), "users");
}

#[test]
fn submit_trims_the_input() {
    let (mut chat, _) = Chat::create("alice".to_string());
    chat.set_input("  hello \n".to_string());
    let env = chat.submit_message().expect("an envelope");
    assert_eq!(env.data, Some("hello".to_string()));
    assert_eq!(chat.input(), "");
}

#[test]
fn submit_white_space_only_sends_nothing_and_clears() {
    let (mut chat, _) = Chat::create("alice".to_string());
    chat.set_input(" \t ".to_string());
    assert!(chat.submit_message().is_none());
    assert_eq!(chat.input(), "");
}

#[test]
fn history_entries_flag_images() {
    let (mut chat, _) = Chat::create("alice".to_string());
    chat.handle_frame(message_frame("bob", "https://x/y.gif"));
    chat.handle_frame(message_frame("bob", "hello.gif.txt"));
    assert!(chat.message_is_image(0));
    assert!(!chat.message_is_image(1));
}

#[test]
fn outbound_message_for_given_text() {
    assert!(outbound_message(String::new()).is_none());
    let env = outbound_message("hi there".to_string()).expect("an envelope");
    assert_eq!(env.message_type, "message");
    assert_eq!(env.data, Some("hi there".to_string()));
    assert!(env.data_array.is_none());
}
