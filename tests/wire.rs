use mobot::chat::{
    BanChatMemberRequest, Chat, ChatAction, ChatPermissions, GetChatAdministratorsRequest,
    GetChatRequest, RestrictChatMemberRequest, SendChatActionRequest, SetChatPermissionRequest,
    UnbanChatMemberRequest,
};
use mobot::chat_id::ChatId;
use mobot::dispatch::{complete, read_administrators, read_flag, ApiError, BotRequest};
use mobot::json::{JsonValue, WireError};
use mobot::message::{
    DeleteMessageRequest, EditMessageBase, EditMessageCaptionRequest,
    EditMessageReplyMarkupRequest, EditMessageTextRequest, Message, ParseMode, ReplyMarkup,
    ReplyParameters, SendMessageRequest,
};
use mobot::user::User;

fn from_serde(v: &serde_json::Value) -> JsonValue {
    match v {
        serde_json::Value::Null => JsonValue::Null,
        serde_json::Value::Bool(b) => JsonValue::Bool(*b),
        serde_json::Value::Number(n) => match n.as_i64() {
            Some(i) => JsonValue::Int(i),
            None => JsonValue::Number(n.to_string()),
        },
        serde_json::Value::String(s) => JsonValue::Str(s.clone()),
        serde_json::Value::Array(items) => JsonValue::Array(items.iter().map(from_serde).collect()),
        serde_json::Value::Object(m) => {
            JsonValue::Object(m.iter().map(|(k, v)| (k.clone(), from_serde(v))).collect())
        }
    }
}

fn to_serde(v: &JsonValue) -> serde_json::Value {
    match v {
        JsonValue::Null => serde_json::Value::Null,
        JsonValue::Bool(b) => serde_json::Value::Bool(*b),
        JsonValue::Int(n) => serde_json::Value::from(*n),
        JsonValue::Number(s) => serde_json::from_str(s).unwrap(),
        JsonValue::Str(s) => serde_json::Value::String(s.clone()),
        JsonValue::Array(items) => serde_json::Value::Array(items.iter().map(to_serde).collect()),
        JsonValue::Object(es) => {
            let mut m = serde_json::Map::new();
            for (k, v) in es {
                m.insert(k.clone(), to_serde(v));
            }
            serde_json::Value::Object(m)
        }
    }
}

fn parse(text: &str) -> JsonValue {
    from_serde(&serde_json::from_str(text).unwrap())
}

fn text_of(v: &JsonValue) -> String {
    serde_json::to_string(&to_serde(v)).unwrap()
}

fn keys(v: &JsonValue) -> Vec<String> {
    match v {
        JsonValue::Object(es) => es.iter().map(|(k, _)| k.clone()).collect(),
        _ => panic!("not an object"),
    }
}

fn entry(k: &str, v: JsonValue) -> (String, JsonValue) {
    (k.to_string(), v)
}

fn all_permissions() -> ChatPermissions {
    ChatPermissions {
        can_send_messages: Some(true),
        can_send_audios: Some(false),
        can_send_documents: Some(true),
        can_send_photos: Some(false),
        can_send_videos: Some(true),
        can_send_video_notes: Some(false),
        can_send_voice_notes: Some(true),
        can_send_polls: Some(false),
        can_send_other_messages: Some(true),
        can_add_web_page_previews: Some(false),
        can_change_info: Some(true),
        can_invite_users: Some(false),
        can_pin_messages: Some(true),
        can_manage_topics: Some(false),
    }
}

fn no_permissions() -> ChatPermissions {
    ChatPermissions {
        can_send_messages: None,
        can_send_audios: None,
        can_send_documents: None,
        can_send_photos: None,
        can_send_videos: None,
        can_send_video_notes: None,
        can_send_voice_notes: None,
        can_send_polls: None,
        can_send_other_messages: None,
        can_add_web_page_previews: None,
        can_change_info: None,
        can_invite_users: None,
        can_pin_messages: None,
        can_manage_topics: None,
    }
}

#[test]
fn send_message_new_is_written_with_required_fields_only() {
    let req = SendMessageRequest::new(123456789, "Hello!");
    let body = req.to_json();
    assert_eq!(
        body,
        JsonValue::Object(vec![
            entry("chat_id", JsonValue::Int(123456789)),
            entry("text", JsonValue::Str("Hello!".to_string())),
        ])
    );
    assert_eq!(text_of(&body), r#"{"chat_id":123456789,"text":"Hello!"}"#);
    assert_eq!(req.method_name(), "sendMessage");
}

#[test]
fn send_message_dispatch_to_echo_transport() {
    let req = SendMessageRequest::new(123456789, "Hello!");
    let echo = |_method: String, _body: JsonValue| -> Result<JsonValue, String> {
        Ok(parse(r#"{"message_id":1,"date":1700000000,"chat":{"id":123456789,"type":"private"}}"#))
    };
    let outcome = echo(req.method_name(), req.body());
    let message: Message = complete(&req, outcome).unwrap();
    assert_eq!(message.message_id, 1);
    assert_eq!(message.date, 1700000000);
    assert_eq!(message.text, None);
    assert_eq!(message.chat.id, 123456789);
    assert_eq!(message.chat.chat_type, "private");
    assert!(message.from.is_none());
}

#[test]
fn transport_failure_is_passed_on_with_method() {
    let req = DeleteMessageRequest::new(5, 6);
    let r = complete(&req, Err("timed out".to_string()));
    assert_eq!(
        r,
        Err(ApiError::Transport { method: "deleteMessage".to_string(), message: "timed out".to_string() })
    );
}

#[test]
fn malformed_answer_is_a_decode_error() {
    let req = GetChatRequest::new(ChatId::Text("@group".to_string()));
    let r = complete(&req, Ok(parse(r#"{"type":"group"}"#)));
    match r {
        Err(ApiError::Decode { method, error }) => {
            assert_eq!(method, "getChat");
            assert_eq!(
                error,
                WireError::MissingField { owner: "ChatFullInfo".to_string(), field: "id".to_string() }
            );
        }
        other => panic!("unexpected {:?}", other),
    }
}

#[test]
fn chat_id_union_round_trips_both_representations() {
    let n = ChatId::Integer(123456789);
    assert_eq!(n.to_json(), JsonValue::Int(123456789));
    let t = ChatId::Text("@channelusername".to_string());
    assert_eq!(t.to_json(), JsonValue::Str("@channelusername".to_string()));
    match ChatId::from_json(&n.to_json()).unwrap() {
        ChatId::Integer(v) => assert_eq!(v, 123456789),
        other => panic!("unexpected {:?}", other),
    }
    match ChatId::from_json(&t.to_json()).unwrap() {
        ChatId::Text(s) => assert_eq!(s, "@channelusername"),
        other => panic!("unexpected {:?}", other),
    }
    assert!(ChatId::from_json(&JsonValue::Bool(true)).is_err());
    let big = ChatId::Integer(4503599627370495);
    assert_eq!(text_of(&big.to_json()), "4503599627370495");
}

#[test]
fn chat_action_uses_declared_tokens() {
    assert_eq!(ChatAction::UploadVideoNote.to_json(), JsonValue::Str("upload_video_note".to_string()));
    assert_eq!(ChatAction::Typing.to_wire(), "typing");
    assert_eq!(ChatAction::FindLocation.to_wire(), "find_location");
    assert_eq!(ChatAction::from_wire(&"record_video_note".to_string()), Some(ChatAction::RecordVideoNote));
    assert_eq!(ChatAction::from_wire(&"UploadVideoNote".to_string()), None);
}

#[test]
fn parse_mode_uses_declared_tokens() {
    assert_eq!(ParseMode::MarkdownV2.to_wire(), "MarkdownV2");
    assert_eq!(ParseMode::HTML.to_wire(), "HTML");
    assert_eq!(ParseMode::Text.to_wire(), "");
    assert_eq!(ParseMode::from_wire(&"Markdown".to_string()), Some(ParseMode::Markdown));
    assert_eq!(ParseMode::from_wire(&"html".to_string()), None);
}

#[test]
fn unknown_action_token_is_an_error() {
    let j = parse(r#"{"chat_id":1,"action":"dancing"}"#);
    let r = SendChatActionRequest::from_json(&j);
    assert_eq!(
        r,
        Err(WireError::InvalidValue { field: "action".to_string(), raw: JsonValue::Str("dancing".to_string()) })
    );
}

#[test]
fn ban_without_until_date_omits_the_key() {
    let req = BanChatMemberRequest::new(ChatId::Integer(-1001), 42, None, None);
    let body = req.to_json();
    assert_eq!(keys(&body), vec!["chat_id", "user_id"]);
    assert!(!text_of(&body).contains("null"));
    assert_eq!(text_of(&body), r#"{"chat_id":-1001,"user_id":42}"#);
    let req = BanChatMemberRequest::new(ChatId::Integer(-1001), 42, Some(1700000000), Some(true));
    assert_eq!(keys(&req.to_json()), vec!["chat_id", "user_id", "until_date", "revoke_messages"]);
}

#[test]
fn edit_requests_are_flat() {
    let req = EditMessageTextRequest::new("Goodbye".to_string()).with_chat_id(7).with_message_id(9);
    let body = req.to_json();
    assert_eq!(
        body,
        JsonValue::Object(vec![
            entry("chat_id", JsonValue::Int(7)),
            entry("message_id", JsonValue::Int(9)),
            entry("text", JsonValue::Str("Goodbye".to_string())),
        ])
    );
    assert!(!keys(&body).contains(&"base".to_string()));
    let caption = EditMessageCaptionRequest::new("A cat".to_string()).with_chat_id(7);
    assert_eq!(keys(&caption.to_json()), vec!["chat_id", "caption"]);
    let markup = EditMessageReplyMarkupRequest::new(r#"{"remove_keyboard":true}"#.to_string())
        .with_chat_id(7)
        .with_message_id(9);
    assert_eq!(
        markup.to_json(),
        JsonValue::Object(vec![
            entry("chat_id", JsonValue::Int(7)),
            entry("message_id", JsonValue::Int(9)),
            entry("reply_markup", JsonValue::Str(r#"{"remove_keyboard":true}"#.to_string())),
        ])
    );
}

#[test]
fn edit_base_builders_set_fields() {
    let base = EditMessageBase::new().with_chat_id(1).with_message_id(2).with_parse_mode(ParseMode::HTML);
    assert_eq!(base.chat_id, Some(1));
    assert_eq!(base.message_id, Some(2));
    assert_eq!(base.parse_mode, Some(ParseMode::HTML));
    assert_eq!(base.inline_message_id, None);
    let base = base.with_reply_markup("{}".to_string());
    assert_eq!(base.reply_markup, Some("{}".to_string()));
}

fn round_trip<T: std::fmt::Debug>(value: &T, to: impl Fn(&T) -> JsonValue, from: impl Fn(&JsonValue) -> Result<T, WireError>) {
    let back = from(&to(value)).unwrap();
    assert_eq!(format!("{:?}", back), format!("{:?}", value));
    let reparsed = from(&parse(&text_of(&to(value)))).unwrap();
    assert_eq!(format!("{:?}", reparsed), format!("{:?}", value));
}

#[test]
fn chat_requests_round_trip() {
    let a = SendChatActionRequest::new(-100, ChatAction::UploadDocument);
    round_trip(&a, |r| r.to_json(), SendChatActionRequest::from_json);
    let a = SendChatActionRequest { message_thread_id: Some(3), ..a };
    round_trip(&a, |r| r.to_json(), SendChatActionRequest::from_json);
    let s = SetChatPermissionRequest::new(ChatId::Text("@group".to_string()), no_permissions(), None);
    round_trip(&s, |r| r.to_json(), SetChatPermissionRequest::from_json);
    let s = SetChatPermissionRequest::new(ChatId::Text("@group".to_string()), all_permissions(), Some(true));
    round_trip(&s, |r| r.to_json(), SetChatPermissionRequest::from_json);
    let r = RestrictChatMemberRequest::new(ChatId::Text("@group".to_string()), 5, no_permissions(), None, None);
    round_trip(&r, |r| r.to_json(), RestrictChatMemberRequest::from_json);
    let r = RestrictChatMemberRequest::new(ChatId::Text("@group".to_string()), 5, all_permissions(), Some(false), Some(1700000000));
    round_trip(&r, |r| r.to_json(), RestrictChatMemberRequest::from_json);
    let g = GetChatAdministratorsRequest::new(ChatId::Text("@group".to_string()));
    round_trip(&g, |r| r.to_json(), GetChatAdministratorsRequest::from_json);
    let g = GetChatRequest::new(ChatId::Integer(12));
    round_trip(&g, |r| r.to_json(), GetChatRequest::from_json);
    let b = BanChatMemberRequest::new(ChatId::Text("@group".to_string()), 5, None, None);
    round_trip(&b, |r| r.to_json(), BanChatMemberRequest::from_json);
    let b = BanChatMemberRequest::new(ChatId::Text("@group".to_string()), 5, Some(9), Some(false));
    round_trip(&b, |r| r.to_json(), BanChatMemberRequest::from_json);
    let u = UnbanChatMemberRequest::new(ChatId::Text("@group".to_string()), 5, None);
    round_trip(&u, |r| r.to_json(), UnbanChatMemberRequest::from_json);
    let u = UnbanChatMemberRequest::new(ChatId::Text("@group".to_string()), 5, Some(true));
    round_trip(&u, |r| r.to_json(), UnbanChatMemberRequest::from_json);
}

#[test]
fn message_requests_round_trip() {
    let m = SendMessageRequest::new(1, "hi");
    round_trip(&m, |r| r.to_json(), SendMessageRequest::from_json);
    let m = SendMessageRequest::new(1, "hi")
        .with_message_thread_id(4)
        .with_parse_mode(ParseMode::MarkdownV2)
        .with_reply_markup(ReplyMarkup::reply_keyboard_remove());
    let m = SendMessageRequest {
        reply_parameters: Some(ReplyParameters {
            message_id: 8,
            chat_id: Some(ChatId::Text("@channel".to_string())),
            allow_sending_without_reply: Some(true),
            quote: Some("q".to_string()),
            quote_parse_mode: Some("HTML".to_string()),
            quote_entities: Some(parse(r#"[{"type":"bold","offset":0,"length":1}]"#)),
            quote_position: Some(0),
        }),
        ..m
    };
    round_trip(&m, |r| r.to_json(), SendMessageRequest::from_json);
    let e = EditMessageTextRequest::new("t".to_string());
    round_trip(&e, |r| r.to_json(), EditMessageTextRequest::from_json);
    let mut e = EditMessageTextRequest::new("t".to_string()).with_chat_id(1).with_message_id(2);
    e.base.inline_message_id = Some("inline".to_string());
    e.base.parse_mode = Some(ParseMode::Text);
    e.base.reply_markup = Some("{}".to_string());
    round_trip(&e, |r| r.to_json(), EditMessageTextRequest::from_json);
    let c = EditMessageCaptionRequest::new(String::new()).with_chat_id(3);
    round_trip(&c, |r| r.to_json(), EditMessageCaptionRequest::from_json);
    let k = EditMessageReplyMarkupRequest::new("{}".to_string()).with_message_id(3);
    round_trip(&k, |r| r.to_json(), EditMessageReplyMarkupRequest::from_json);
    let d = DeleteMessageRequest::new(-5, 77);
    round_trip(&d, |r| r.to_json(), DeleteMessageRequest::from_json);
}

#[test]
fn chat_with_absent_optionals_reads_as_none() {
    let c = Chat::from_json(&parse(r#"{"id":-1001,"type":"supergroup","extra":[1,2]}"#)).unwrap();
    assert_eq!(c.id, -1001);
    assert_eq!(c.chat_type, "supergroup");
    assert_eq!(c.title, None);
    assert_eq!(c.is_forum, None);
    let c = Chat::from_json(&parse(r#"{"id":1,"type":"private","title":null,"is_forum":true}"#)).unwrap();
    assert_eq!(c.title, None);
    assert_eq!(c.is_forum, Some(true));
}

#[test]
fn chat_without_id_names_the_field() {
    let r = Chat::from_json(&parse(r#"{"type":"private"}"#));
    assert_eq!(r, Err(WireError::MissingField { owner: "Chat".to_string(), field: "id".to_string() }));
}

#[test]
fn wrong_json_type_names_key_and_value() {
    let r = Chat::from_json(&parse(r#"{"id":"seven","type":"private"}"#));
    assert_eq!(r, Err(WireError::InvalidValue { field: "id".to_string(), raw: JsonValue::Str("seven".to_string()) }));
    let r = Chat::from_json(&parse(r#"{"id":1.5,"type":"private"}"#));
    assert_eq!(r, Err(WireError::InvalidValue { field: "id".to_string(), raw: JsonValue::Number("1.5".to_string()) }));
    let r = Chat::from_json(&JsonValue::Int(3));
    assert_eq!(r, Err(WireError::NotAnObject { owner: "Chat".to_string(), raw: JsonValue::Int(3) }));
}

#[test]
fn flag_results_are_read() {
    assert_eq!(read_flag(&JsonValue::Bool(true)), Ok(true));
    assert_eq!(
        read_flag(&JsonValue::Null),
        Err(WireError::InvalidValue { field: "result".to_string(), raw: JsonValue::Null })
    );
}

#[test]
fn administrators_are_read_in_order() {
    let j = parse(
        r#"[{"status":"administrator","user":{"id":1,"is_bot":false,"first_name":"Ann"},"can_manage_chat":true},
            {"status":"administrator","user":{"id":2,"is_bot":true,"first_name":"Bot","username":"b"},"custom_title":"boss"}]"#,
    );
    let admins = read_administrators(&j).unwrap();
    assert_eq!(admins.len(), 2);
    assert_eq!(admins[0].user.first_name, "Ann");
    assert_eq!(admins[0].can_manage_chat, Some(true));
    assert_eq!(admins[1].user.username, Some("b".to_string()));
    assert_eq!(admins[1].custom_title, Some("boss".to_string()));
    let bad = parse(r#"[{"status":"administrator"}]"#);
    assert_eq!(
        read_administrators(&bad).unwrap_err(),
        WireError::MissingField { owner: "ChatMemberAdministrator".to_string(), field: "user".to_string() }
    );
}

#[test]
fn full_chat_info_is_read() {
    let j = parse(r#"{"id":5,"type":"channel","active_usernames":["a","b"],"accent_color":3,"description":"d"}"#);
    let info = mobot::chat::ChatFullInfo::from_json(&j).unwrap();
    assert_eq!(info.type_, "channel");
    assert_eq!(info.active_usernames, Some(vec!["a".to_string(), "b".to_string()]));
    assert_eq!(info.accent_color, Some(3));
    assert_eq!(info.max_reaction_count, None);
    let bad = parse(r#"{"id":5,"type":"channel","active_usernames":["a",1]}"#);
    assert!(mobot::chat::ChatFullInfo::from_json(&bad).is_err());
}

#[test]
fn message_with_nested_values_is_read() {
    let j = parse(
        r#"{"message_id":3,"date":10,"chat":{"id":1,"type":"private"},"from":{"id":9,"is_bot":false,"first_name":"Al"},
            "text":"yo","reply_to_message":{"message_id":2},"forum_topic_created":{"name":"n","icon_color":7},
            "reply_markup":{"inline_keyboard":[]}}"#,
    );
    let m = Message::from_json(&j).unwrap();
    assert_eq!(m.text, Some("yo".to_string()));
    assert_eq!(m.from.unwrap().first_name, "Al");
    assert_eq!(m.reply_to_message, Some(parse(r#"{"message_id":2}"#)));
    assert_eq!(m.forum_topic_created.unwrap().icon_color, 7);
    assert_eq!(m.reply_markup.unwrap().entries.len(), 1);
}

#[test]
fn fake_and_new_messages() {
    let m = Message::new("alice", "hello");
    assert_eq!(m.text, Some("hello".to_string()));
    assert_eq!(m.chat.chat_type, "private");
    assert_eq!(m.chat.username, Some("alice".to_string()));
    assert_eq!(m.from.as_ref().unwrap().first_name, "alice");
    assert!(m.date > 1_600_000_000);
    let f = Message::fake("bob");
    assert_eq!(f.text, None);
    let u = User::from_name("carol");
    assert_eq!(u.username, Some("carol".to_string()));
    assert!(!u.is_bot);
}

#[test]
fn remove_reply_keyboard_request() {
    let r = SendMessageRequest::remove_reply_keyboard(4, "bye");
    assert_eq!(text_of(&r.to_json()), r#"{"chat_id":4,"reply_markup":{"remove_keyboard":true},"text":"bye"}"#);
    assert_eq!(keys(&r.to_json()), vec!["chat_id", "text", "reply_markup"]);
}

#[test]
fn identical_requests_give_independent_results() {
    let a = SendMessageRequest::new(1, "same");
    let b = SendMessageRequest::new(1, "same");
    assert_eq!(a.to_json(), b.to_json());
    let answer = parse(r#"{"message_id":1,"date":2,"chat":{"id":1,"type":"private"}}"#);
    let mut first = complete(&a, Ok(answer.clone())).unwrap();
    let second = complete(&b, Ok(answer)).unwrap();
    first.text = Some("changed".to_string());
    first.chat.id = 99;
    assert_eq!(second.text, None);
    assert_eq!(second.chat.id, 1);
}

#[test]
fn json_duplicate_is_deep() {
    let j = parse(r#"{"a":[1,{"b":null}],"c":"d"}"#);
    let mut copy = j.duplicate();
    assert_eq!(copy, j);
    if let JsonValue::Object(es) = &mut copy {
        es[0].1 = JsonValue::Null;
    }
    assert_ne!(copy, j);
}

#[test]
fn nested_errors_name_the_field_path() {
    let r = Message::from_json(&parse(r#"{"message_id":1,"date":2,"chat":{"type":"private"}}"#));
    assert_eq!(
        r,
        Err(WireError::MissingField { owner: "Chat".to_string(), field: "chat.id".to_string() })
    );
    let r = Message::from_json(&parse(r#"{"message_id":1,"date":2,"chat":5}"#));
    assert_eq!(r, Err(WireError::InvalidValue { field: "chat".to_string(), raw: JsonValue::Int(5) }));
    let r = Message::from_json(&parse(
        r#"{"message_id":1,"date":2,"chat":{"id":1,"type":"private"},"from":{"id":"x","is_bot":false,"first_name":"A"}}"#,
    ));
    assert_eq!(
        r,
        Err(WireError::InvalidValue { field: "from.id".to_string(), raw: JsonValue::Str("x".to_string()) })
    );
    let r = Message::from_json(&parse(r#"{"message_id":1,"date":2}"#));
    assert_eq!(
        r,
        Err(WireError::MissingField { owner: "Message".to_string(), field: "chat".to_string() })
    );
}
