use vstd::prelude::*;

use crate::chat::{Chat, ChatView};
use crate::chat_id::{opt_chat_id, ChatId, ChatIdView};
use crate::json::{
    bool_field, bool_value, duplicate_entries, duplicate_opt, entries_view, find_key, int_field,
    int_value, keys_distinct, lemma_present_lookup, lookup, nest_error, nested_fault, opt_bool,
    opt_int, opt_json, opt_str, opt_string, optional, optional_any, present, read_bool, read_int,
    read_opt_any, read_opt_bool, read_opt_int, read_opt_str, read_str, req_bool, req_int, req_str,
    rview, str_field, str_value, Json, JsonValue, ObjectWriter, WireError, WireFault,
};
use crate::user::{User, UserView};

verus! {

/// How the service parses entities in a text.
#[derive(Debug, Clone, Copy, PartialEq, Eq, Structural)]
pub enum ParseMode {
    MarkdownV2,
    Markdown,
    HTML,
    /// Plain text: no entities are parsed.
    Text,
}

impl View for ParseMode {
    type V = ParseMode;

    open spec fn view(&self) -> ParseMode {
        *self
    }
}

impl ParseMode {
    /// The token that stands for the mode on the wire.
    pub open spec fn token(self) -> Seq<char> {
        match self {
            ParseMode::MarkdownV2 => "MarkdownV2"@,
            ParseMode::Markdown => "Markdown"@,
            ParseMode::HTML => "HTML"@,
            ParseMode::Text => ""@,
        }
    }

    /// The mode whose token is `t`, if any.
    pub open spec fn from_token(t: Seq<char>) -> Option<ParseMode> {
        if t == "MarkdownV2"@ {
            Some(ParseMode::MarkdownV2)
        } else if t == "Markdown"@ {
            Some(ParseMode::Markdown)
        } else if t == "HTML"@ {
            Some(ParseMode::HTML)
        } else if t == ""@ {
            Some(ParseMode::Text)
        } else {
            None
        }
    }

    pub open spec fn json(self) -> Json {
        Json::Str(self.token())
    }

    /// The mode that a JSON value names: a string holding one of the tokens.
    pub open spec fn parse(j: Json) -> Option<ParseMode> {
        match j {
            Json::Str(t) => ParseMode::from_token(t),
            _ => None,
        }
    }

    pub open spec fn opt_field(es: Seq<(Seq<char>, Json)>, key: Seq<char>) -> Result<
        Option<ParseMode>,
        WireFault,
    > {
        optional(es, key, |j: Json| ParseMode::parse(j))
    }

    pub fn to_wire(&self) -> (r: String)
        ensures
            r@ == self.token(),
    {
        match self {
            ParseMode::MarkdownV2 => "MarkdownV2".to_owned(),
            ParseMode::Markdown => "Markdown".to_owned(),
            ParseMode::HTML => "HTML".to_owned(),
            ParseMode::Text => "".to_owned(),
        }
    }

    pub fn from_wire(t: &String) -> (r: Option<ParseMode>)
        ensures
            r == ParseMode::from_token(t@),
    {
        if *t == "MarkdownV2".to_owned() {
            Some(ParseMode::MarkdownV2)
        } else if *t == "Markdown".to_owned() {
            Some(ParseMode::Markdown)
        } else if *t == "HTML".to_owned() {
            Some(ParseMode::HTML)
        } else if *t == "".to_owned() {
            Some(ParseMode::Text)
        } else {
            None
        }
    }

    pub fn to_json(&self) -> (r: JsonValue)
        ensures
            r@ == self.json(),
    {
        JsonValue::Str(self.to_wire())
    }

    /// Reads the optional mode stored under `key`.
    pub fn read_opt_field(entries: &Vec<(String, JsonValue)>, key: &str) -> (r: Result<
        Option<ParseMode>,
        WireError,
    >)
        ensures
            rview(r) == ParseMode::opt_field(entries_view(entries@), key@),
    {
        match find_key(entries, key) {
            None => Ok(None),
            Some(i) => {
                let v = &entries[i].1;
                let parsed = match v {
                    JsonValue::Null => return Ok(None),
                    JsonValue::Str(t) => ParseMode::from_wire(t),
                    _ => None,
                };
                match parsed {
                    Some(m) => Ok(Some(m)),
                    None => Err(WireError::InvalidValue { field: key.to_owned(), raw: v.duplicate() }),
                }
            },
        }
    }

    /// Each mode is read back from its own token.
    pub proof fn lemma_token_round_trip(self)
        ensures
            ParseMode::from_token(self.token()) == Some(self),
            ParseMode::parse(self.json()) == Some(self),
    {
        reveal_strlit("MarkdownV2");
        reveal_strlit("Markdown");
        reveal_strlit("HTML");
        reveal_strlit("");
        assert("MarkdownV2"@.len() == 10);
        assert("Markdown"@.len() == 8);
        assert("HTML"@.len() == 4);
        assert(""@.len() == 0);
    }
}

/// A keyboard or other markup attached to a message, held as the JSON object
/// that describes it.
#[derive(Debug, Clone, PartialEq)]
pub struct ReplyMarkup {
    pub entries: Vec<(String, JsonValue)>,
}

/// The model of [`ReplyMarkup`].
pub struct ReplyMarkupView {
    pub entries: Seq<(Seq<char>, Json)>,
}

impl View for ReplyMarkup {
    type V = ReplyMarkupView;

    open spec fn view(&self) -> ReplyMarkupView {
        ReplyMarkupView { entries: entries_view(self.entries@) }
    }
}

impl ReplyMarkupView {
    pub open spec fn json(self) -> Json {
        Json::Object(self.entries)
    }

    pub open spec fn decode(j: Json) -> Result<ReplyMarkupView, WireFault> {
        match j {
            Json::Object(es) => Ok(ReplyMarkupView { entries: es }),
            _ => Err(WireFault::NotAnObject { owner: "ReplyMarkup"@, raw: j }),
        }
    }

    pub open spec fn opt_field(es: Seq<(Seq<char>, Json)>, key: Seq<char>) -> Result<
        Option<ReplyMarkupView>,
        WireFault,
    > {
        match lookup(es, key) {
            None => Ok(None),
            Some(Json::Null) => Ok(None),
            Some(v) => match ReplyMarkupView::decode(v) {
                Ok(x) => Ok(Some(x)),
                Err(e) => Err(nested_fault(key, e)),
            },
        }
    }

    pub proof fn lemma_round_trip(self)
        ensures
            ReplyMarkupView::decode(self.json()) == Ok::<ReplyMarkupView, WireFault>(self),
    {
    }
}

impl ReplyMarkup {
    /// Markup that asks clients to take the custom keyboard away.
    pub fn reply_keyboard_remove() -> (r: ReplyMarkup)
        ensures
            r@.entries == seq![("remove_keyboard"@, Json::Bool(true))],
    {
        let mut entries: Vec<(String, JsonValue)> = Vec::new();
        entries.push(("remove_keyboard".to_owned(), JsonValue::Bool(true)));
        let r = ReplyMarkup { entries };
        assert(r@.entries =~= seq![("remove_keyboard"@, Json::Bool(true))]);
        r
    }

    pub fn to_json(&self) -> (r: JsonValue)
        ensures
            r@ == self@.json(),
    {
        JsonValue::Object(duplicate_entries(&self.entries))
    }

    pub fn from_json(j: &JsonValue) -> (r: Result<ReplyMarkup, WireError>)
        ensures
            rview(r) == ReplyMarkupView::decode(j@),
    {
        match j {
            JsonValue::Object(es) => Ok(ReplyMarkup { entries: duplicate_entries(es) }),
            _ => Err(WireError::NotAnObject { owner: "ReplyMarkup".to_owned(), raw: j.duplicate() }),
        }
    }

    /// Reads the optional markup stored under `key`.
    pub fn read_opt_field(es: &Vec<(String, JsonValue)>, key: &str) -> (r: Result<
        Option<ReplyMarkup>,
        WireError,
    >)
        ensures
            match r {
                Ok(v) => ReplyMarkupView::opt_field(entries_view(es@), key@) == Ok::<
                    Option<ReplyMarkupView>,
                    WireFault,
                >(match v {
                    Some(x) => Some(x@),
                    None => None,
                }),
                Err(e) => ReplyMarkupView::opt_field(entries_view(es@), key@) == Err::<
                    Option<ReplyMarkupView>,
                    WireFault,
                >(e@),
            },
    {
        match find_key(es, key) {
            None => Ok(None),
            Some(i) => match &es[i].1 {
                JsonValue::Null => Ok(None),
                other => match ReplyMarkup::from_json(other) {
                    Ok(v) => Ok(Some(v)),
                    Err(e) => Err(nest_error(key, e)),
                },
            },
        }
    }
}

/// A service message about a new forum topic.
#[derive(Debug, Clone, PartialEq)]
pub struct ForumTopicCreated {
    /// Name of the topic.
    pub name: String,
    /// Color of the topic icon, as RGB.
    pub icon_color: i64,
    /// Emoji shown as the topic icon.
    pub icon_custom_emoji_id: Option<String>,
}

/// The model of [`ForumTopicCreated`].
pub struct ForumTopicCreatedView {
    pub name: Seq<char>,
    pub icon_color: i64,
    pub icon_custom_emoji_id: Option<Seq<char>>,
}

impl View for ForumTopicCreated {
    type V = ForumTopicCreatedView;

    open spec fn view(&self) -> ForumTopicCreatedView {
        ForumTopicCreatedView {
            name: self.name@,
            icon_color: self.icon_color,
            icon_custom_emoji_id: opt_str(self.icon_custom_emoji_id),
        }
    }
}

impl ForumTopicCreatedView {
    pub open spec fn decode_entries(es: Seq<(Seq<char>, Json)>) -> Result<ForumTopicCreatedView, WireFault> {
        let v_name = req_str(es, "name"@, "ForumTopicCreated"@);
        let v_icon_color = req_int(es, "icon_color"@, "ForumTopicCreated"@);
        let v_icon_custom_emoji_id = opt_string(es, "icon_custom_emoji_id"@);
        if v_name is Err {
            Err(v_name->Err_0)
        } else if v_icon_color is Err {
            Err(v_icon_color->Err_0)
        } else if v_icon_custom_emoji_id is Err {
            Err(v_icon_custom_emoji_id->Err_0)
        } else {
            Ok(
                ForumTopicCreatedView {
                    name: v_name->Ok_0,
                    icon_color: v_icon_color->Ok_0,
                    icon_custom_emoji_id: v_icon_custom_emoji_id->Ok_0,
                },
            )
        }
    }

    pub open spec fn decode(j: Json) -> Result<ForumTopicCreatedView, WireFault> {
        match j {
            Json::Object(es) => ForumTopicCreatedView::decode_entries(es),
            _ => Err(WireFault::NotAnObject { owner: "ForumTopicCreated"@, raw: j }),
        }
    }

    pub open spec fn opt_field(es: Seq<(Seq<char>, Json)>, key: Seq<char>) -> Result<Option<ForumTopicCreatedView>, WireFault> {
        match lookup(es, key) {
            None => Ok(None),
            Some(Json::Null) => Ok(None),
            Some(v) => match ForumTopicCreatedView::decode(v) {
                Ok(x) => Ok(Some(x)),
                Err(e) => Err(nested_fault(key, e)),
            },
        }
    }

}

impl ForumTopicCreated {
    /// Reads a value from the entries of a JSON object.
    pub fn read_entries(es: &Vec<(String, JsonValue)>) -> (r: Result<ForumTopicCreated, WireError>)
        ensures
            rview(r) == ForumTopicCreatedView::decode_entries(entries_view(es@)),
    {
        let v_name = match read_str(es, "name", "ForumTopicCreated") {
            Ok(v) => v,
            Err(e) => return Err(e),
        };
        let v_icon_color = match read_int(es, "icon_color", "ForumTopicCreated") {
            Ok(v) => v,
            Err(e) => return Err(e),
        };
        let v_icon_custom_emoji_id = match read_opt_str(es, "icon_custom_emoji_id") {
            Ok(v) => v,
            Err(e) => return Err(e),
        };
        Ok(ForumTopicCreated { name: v_name, icon_color: v_icon_color, icon_custom_emoji_id: v_icon_custom_emoji_id })
    }

    /// Reads a value from a JSON document, which must be an object.
    pub fn from_json(j: &JsonValue) -> (r: Result<ForumTopicCreated, WireError>)
        ensures
            rview(r) == ForumTopicCreatedView::decode(j@),
    {
        match j {
            JsonValue::Object(es) => ForumTopicCreated::read_entries(es),
            _ => Err(WireError::NotAnObject { owner: "ForumTopicCreated".to_owned(), raw: j.duplicate() }),
        }
    }

    /// Reads the optional field `key`.
    pub fn read_opt_field(es: &Vec<(String, JsonValue)>, key: &str) -> (r: Result<Option<ForumTopicCreated>, WireError>)
        ensures
            match r {
                Ok(v) => ForumTopicCreatedView::opt_field(entries_view(es@), key@) == Ok::<Option<ForumTopicCreatedView>, WireFault>(match v {
                    Some(x) => Some(x@),
                    None => None,
                }),
                Err(e) => ForumTopicCreatedView::opt_field(entries_view(es@), key@) == Err::<Option<ForumTopicCreatedView>, WireFault>(e@),
            },
    {
        match find_key(es, key) {
            None => Ok(None),
            Some(i) => match &es[i].1 {
                JsonValue::Null => Ok(None),
                other => match ForumTopicCreated::from_json(other) {
                    Ok(v) => Ok(Some(v)),
                    Err(e) => Err(nest_error(key, e)),
                },
            },
        }
    }

}

/// A message sent in a chat.
#[derive(Debug, Clone, PartialEq)]
pub struct Message {
    /// Unique identifier of the message inside its chat.
    pub message_id: i64,
    /// Thread of the message, in supergroups.
    pub message_thread_id: Option<i64>,
    /// Sender; absent for messages sent to channels.
    pub from: Option<User>,
    /// Unix time when the message was sent.
    pub date: i64,
    /// Text of the message.
    pub text: Option<String>,
    /// Sizes of an attached photo, as sent.
    pub photo: Option<JsonValue>,
    /// An attached file, as sent.
    pub document: Option<JsonValue>,
    /// The chat that the message belongs to.
    pub chat: Chat,
    /// Sender of a forwarded message.
    pub forward_from: Option<User>,
    /// Channel that a forwarded message comes from.
    pub forward_from_chat: Option<Chat>,
    /// Identifier of a forwarded message in its channel.
    pub forward_from_message_id: Option<i64>,
    /// Signature of the author of a forwarded post.
    pub forward_signature: Option<String>,
    /// Name of a sender that hides its account.
    pub forward_sender_name: Option<String>,
    /// Unix time when a forwarded message was first sent.
    pub forward_date: Option<i64>,
    /// The message that this one replies to, as sent.
    pub reply_to_message: Option<JsonValue>,
    /// An attached sticker, as sent.
    pub sticker: Option<JsonValue>,
    /// Service message: a forum topic was created.
    pub forum_topic_created: Option<ForumTopicCreated>,
    /// Inline keyboard attached to the message.
    pub reply_markup: Option<ReplyMarkup>,
}

/// The model of [`Message`].
pub struct MessageView {
    pub message_id: i64,
    pub message_thread_id: Option<i64>,
    pub from: Option<UserView>,
    pub date: i64,
    pub text: Option<Seq<char>>,
    pub photo: Option<Json>,
    pub document: Option<Json>,
    pub chat: ChatView,
    pub forward_from: Option<UserView>,
    pub forward_from_chat: Option<ChatView>,
    pub forward_from_message_id: Option<i64>,
    pub forward_signature: Option<Seq<char>>,
    pub forward_sender_name: Option<Seq<char>>,
    pub forward_date: Option<i64>,
    pub reply_to_message: Option<Json>,
    pub sticker: Option<Json>,
    pub forum_topic_created: Option<ForumTopicCreatedView>,
    pub reply_markup: Option<ReplyMarkupView>,
}

impl View for Message {
    type V = MessageView;

    open spec fn view(&self) -> MessageView {
        MessageView {
            message_id: self.message_id,
            message_thread_id: self.message_thread_id,
            from: match self.from {
                Some(v) => Some(v@),
                None => None,
            },
            date: self.date,
            text: opt_str(self.text),
            photo: opt_json(self.photo),
            document: opt_json(self.document),
            chat: self.chat@,
            forward_from: match self.forward_from {
                Some(v) => Some(v@),
                None => None,
            },
            forward_from_chat: match self.forward_from_chat {
                Some(v) => Some(v@),
                None => None,
            },
            forward_from_message_id: self.forward_from_message_id,
            forward_signature: opt_str(self.forward_signature),
            forward_sender_name: opt_str(self.forward_sender_name),
            forward_date: self.forward_date,
            reply_to_message: opt_json(self.reply_to_message),
            sticker: opt_json(self.sticker),
            forum_topic_created: match self.forum_topic_created {
                Some(v) => Some(v@),
                None => None,
            },
            reply_markup: match self.reply_markup {
                Some(v) => Some(v@),
                None => None,
            },
        }
    }
}

impl MessageView {
    pub open spec fn decode_entries(es: Seq<(Seq<char>, Json)>) -> Result<MessageView, WireFault> {
        let v_message_id = req_int(es, "message_id"@, "Message"@);
        let v_message_thread_id = opt_int(es, "message_thread_id"@);
        let v_from = UserView::opt_field(es, "from"@);
        let v_date = req_int(es, "date"@, "Message"@);
        let v_text = opt_string(es, "text"@);
        let v_photo = optional_any(es, "photo"@);
        let v_document = optional_any(es, "document"@);
        let v_chat = ChatView::req_field(es, "chat"@, "Message"@);
        let v_forward_from = UserView::opt_field(es, "forward_from"@);
        let v_forward_from_chat = ChatView::opt_field(es, "forward_from_chat"@);
        let v_forward_from_message_id = opt_int(es, "forward_from_message_id"@);
        let v_forward_signature = opt_string(es, "forward_signature"@);
        let v_forward_sender_name = opt_string(es, "forward_sender_name"@);
        let v_forward_date = opt_int(es, "forward_date"@);
        let v_reply_to_message = optional_any(es, "reply_to_message"@);
        let v_sticker = optional_any(es, "sticker"@);
        let v_forum_topic_created = ForumTopicCreatedView::opt_field(es, "forum_topic_created"@);
        let v_reply_markup = ReplyMarkupView::opt_field(es, "reply_markup"@);
        if v_message_id is Err {
            Err(v_message_id->Err_0)
        } else if v_message_thread_id is Err {
            Err(v_message_thread_id->Err_0)
        } else if v_from is Err {
            Err(v_from->Err_0)
        } else if v_date is Err {
            Err(v_date->Err_0)
        } else if v_text is Err {
            Err(v_text->Err_0)
        } else if v_chat is Err {
            Err(v_chat->Err_0)
        } else if v_forward_from is Err {
            Err(v_forward_from->Err_0)
        } else if v_forward_from_chat is Err {
            Err(v_forward_from_chat->Err_0)
        } else if v_forward_from_message_id is Err {
            Err(v_forward_from_message_id->Err_0)
        } else if v_forward_signature is Err {
            Err(v_forward_signature->Err_0)
        } else if v_forward_sender_name is Err {
            Err(v_forward_sender_name->Err_0)
        } else if v_forward_date is Err {
            Err(v_forward_date->Err_0)
        } else if v_forum_topic_created is Err {
            Err(v_forum_topic_created->Err_0)
        } else if v_reply_markup is Err {
            Err(v_reply_markup->Err_0)
        } else {
            Ok(
                MessageView {
                    message_id: v_message_id->Ok_0,
                    message_thread_id: v_message_thread_id->Ok_0,
                    from: v_from->Ok_0,
                    date: v_date->Ok_0,
                    text: v_text->Ok_0,
                    photo: v_photo,
                    document: v_document,
                    chat: v_chat->Ok_0,
                    forward_from: v_forward_from->Ok_0,
                    forward_from_chat: v_forward_from_chat->Ok_0,
                    forward_from_message_id: v_forward_from_message_id->Ok_0,
                    forward_signature: v_forward_signature->Ok_0,
                    forward_sender_name: v_forward_sender_name->Ok_0,
                    forward_date: v_forward_date->Ok_0,
                    reply_to_message: v_reply_to_message,
                    sticker: v_sticker,
                    forum_topic_created: v_forum_topic_created->Ok_0,
                    reply_markup: v_reply_markup->Ok_0,
                },
            )
        }
    }

    pub open spec fn decode(j: Json) -> Result<MessageView, WireFault> {
        match j {
            Json::Object(es) => MessageView::decode_entries(es),
            _ => Err(WireFault::NotAnObject { owner: "Message"@, raw: j }),
        }
    }

}

impl Message {
    /// Reads a value from the entries of a JSON object.
    pub fn read_entries(es: &Vec<(String, JsonValue)>) -> (r: Result<Message, WireError>)
        ensures
            rview(r) == MessageView::decode_entries(entries_view(es@)),
    {
        let v_message_id = match read_int(es, "message_id", "Message") {
            Ok(v) => v,
            Err(e) => return Err(e),
        };
        let v_message_thread_id = match read_opt_int(es, "message_thread_id") {
            Ok(v) => v,
            Err(e) => return Err(e),
        };
        let v_from = match User::read_opt_field(es, "from") {
            Ok(v) => v,
            Err(e) => return Err(e),
        };
        let v_date = match read_int(es, "date", "Message") {
            Ok(v) => v,
            Err(e) => return Err(e),
        };
        let v_text = match read_opt_str(es, "text") {
            Ok(v) => v,
            Err(e) => return Err(e),
        };
        let v_photo = read_opt_any(es, "photo");
        let v_document = read_opt_any(es, "document");
        let v_chat = match Chat::read_field(es, "chat", "Message") {
            Ok(v) => v,
            Err(e) => return Err(e),
        };
        let v_forward_from = match User::read_opt_field(es, "forward_from") {
            Ok(v) => v,
            Err(e) => return Err(e),
        };
        let v_forward_from_chat = match Chat::read_opt_field(es, "forward_from_chat") {
            Ok(v) => v,
            Err(e) => return Err(e),
        };
        let v_forward_from_message_id = match read_opt_int(es, "forward_from_message_id") {
            Ok(v) => v,
            Err(e) => return Err(e),
        };
        let v_forward_signature = match read_opt_str(es, "forward_signature") {
            Ok(v) => v,
            Err(e) => return Err(e),
        };
        let v_forward_sender_name = match read_opt_str(es, "forward_sender_name") {
            Ok(v) => v,
            Err(e) => return Err(e),
        };
        let v_forward_date = match read_opt_int(es, "forward_date") {
            Ok(v) => v,
            Err(e) => return Err(e),
        };
        let v_reply_to_message = read_opt_any(es, "reply_to_message");
        let v_sticker = read_opt_any(es, "sticker");
        let v_forum_topic_created = match ForumTopicCreated::read_opt_field(es, "forum_topic_created") {
            Ok(v) => v,
            Err(e) => return Err(e),
        };
        let v_reply_markup = match ReplyMarkup::read_opt_field(es, "reply_markup") {
            Ok(v) => v,
            Err(e) => return Err(e),
        };
        Ok(Message { message_id: v_message_id, message_thread_id: v_message_thread_id, from: v_from, date: v_date, text: v_text, photo: v_photo, document: v_document, chat: v_chat, forward_from: v_forward_from, forward_from_chat: v_forward_from_chat, forward_from_message_id: v_forward_from_message_id, forward_signature: v_forward_signature, forward_sender_name: v_forward_sender_name, forward_date: v_forward_date, reply_to_message: v_reply_to_message, sticker: v_sticker, forum_topic_created: v_forum_topic_created, reply_markup: v_reply_markup })
    }

    /// Reads a value from a JSON document, which must be an object.
    pub fn from_json(j: &JsonValue) -> (r: Result<Message, WireError>)
        ensures
            rview(r) == MessageView::decode(j@),
    {
        match j {
            JsonValue::Object(es) => Message::read_entries(es),
            _ => Err(WireError::NotAnObject { owner: "Message".to_owned(), raw: j.duplicate() }),
        }
    }

}

/// Describes the message that a new message replies to.
#[derive(Debug, Clone, PartialEq)]
pub struct ReplyParameters {
    /// Identifier of the original message.
    pub message_id: i64,
    /// The chat of the original message, by identifier or by username.
    pub chat_id: Option<ChatId>,
    /// Send the message even if the original is gone.
    pub allow_sending_without_reply: Option<bool>,
    /// Quoted part of the original message.
    pub quote: Option<String>,
    /// How to parse the quote.
    pub quote_parse_mode: Option<String>,
    /// Special entities of the quote.
    pub quote_entities: Option<JsonValue>,
    /// Position of the quote in the original message.
    pub quote_position: Option<i64>,
}

/// The model of [`ReplyParameters`].
pub struct ReplyParametersView {
    pub message_id: i64,
    pub chat_id: Option<ChatIdView>,
    pub allow_sending_without_reply: Option<bool>,
    pub quote: Option<Seq<char>>,
    pub quote_parse_mode: Option<Seq<char>>,
    pub quote_entities: Option<Json>,
    pub quote_position: Option<i64>,
}

impl View for ReplyParameters {
    type V = ReplyParametersView;

    open spec fn view(&self) -> ReplyParametersView {
        ReplyParametersView {
            message_id: self.message_id,
            chat_id: opt_chat_id(self.chat_id),
            allow_sending_without_reply: self.allow_sending_without_reply,
            quote: opt_str(self.quote),
            quote_parse_mode: opt_str(self.quote_parse_mode),
            quote_entities: opt_json(self.quote_entities),
            quote_position: self.quote_position,
        }
    }
}

impl ReplyParametersView {
    /// The fields in declared order, each with what is written for it.
    pub open spec fn fields(self) -> Seq<(Seq<char>, Option<Json>)> {
        seq![
            ("message_id"@, Some(Json::Int(self.message_id))),
            ("chat_id"@, match self.chat_id {
                    Some(v) => Some(v.json()),
                    None => None,
                }),
            ("allow_sending_without_reply"@, bool_field(self.allow_sending_without_reply)),
            ("quote"@, str_field(self.quote)),
            ("quote_parse_mode"@, str_field(self.quote_parse_mode)),
            ("quote_entities"@, self.quote_entities),
            ("quote_position"@, int_field(self.quote_position)),
        ]
    }

    pub open spec fn json(self) -> Json {
        Json::Object(present(self.fields()))
    }

    /// No optional JSON field holds an explicit `null`, which reads back as absent.
    pub open spec fn valid(self) -> bool {
        self.quote_entities != Some(Json::Null)
    }

    pub open spec fn decode_entries(es: Seq<(Seq<char>, Json)>) -> Result<ReplyParametersView, WireFault> {
        let v_message_id = req_int(es, "message_id"@, "ReplyParameters"@);
        let v_chat_id = ChatIdView::opt_field(es, "chat_id"@);
        let v_allow_sending_without_reply = opt_bool(es, "allow_sending_without_reply"@);
        let v_quote = opt_string(es, "quote"@);
        let v_quote_parse_mode = opt_string(es, "quote_parse_mode"@);
        let v_quote_entities = optional_any(es, "quote_entities"@);
        let v_quote_position = opt_int(es, "quote_position"@);
        if v_message_id is Err {
            Err(v_message_id->Err_0)
        } else if v_chat_id is Err {
            Err(v_chat_id->Err_0)
        } else if v_allow_sending_without_reply is Err {
            Err(v_allow_sending_without_reply->Err_0)
        } else if v_quote is Err {
            Err(v_quote->Err_0)
        } else if v_quote_parse_mode is Err {
            Err(v_quote_parse_mode->Err_0)
        } else if v_quote_position is Err {
            Err(v_quote_position->Err_0)
        } else {
            Ok(
                ReplyParametersView {
                    message_id: v_message_id->Ok_0,
                    chat_id: v_chat_id->Ok_0,
                    allow_sending_without_reply: v_allow_sending_without_reply->Ok_0,
                    quote: v_quote->Ok_0,
                    quote_parse_mode: v_quote_parse_mode->Ok_0,
                    quote_entities: v_quote_entities,
                    quote_position: v_quote_position->Ok_0,
                },
            )
        }
    }

    pub open spec fn decode(j: Json) -> Result<ReplyParametersView, WireFault> {
        match j {
            Json::Object(es) => ReplyParametersView::decode_entries(es),
            _ => Err(WireFault::NotAnObject { owner: "ReplyParameters"@, raw: j }),
        }
    }

    pub open spec fn opt_field(es: Seq<(Seq<char>, Json)>, key: Seq<char>) -> Result<Option<ReplyParametersView>, WireFault> {
        match lookup(es, key) {
            None => Ok(None),
            Some(Json::Null) => Ok(None),
            Some(v) => match ReplyParametersView::decode(v) {
                Ok(x) => Ok(Some(x)),
                Err(e) => Err(nested_fault(key, e)),
            },
        }
    }

    /// No two fields of this type share a wire key.
    pub proof fn lemma_keys_distinct(self)
        ensures
            keys_distinct(self.fields()),
    {
        reveal_strlit("message_id");
        reveal_strlit("chat_id");
        reveal_strlit("allow_sending_without_reply");
        reveal_strlit("quote");
        reveal_strlit("quote_parse_mode");
        reveal_strlit("quote_entities");
        reveal_strlit("quote_position");
        assert("message_id"@.len() == 10);
        assert("chat_id"@.len() == 7);
        assert("allow_sending_without_reply"@.len() == 27);
        assert("quote"@.len() == 5);
        assert("quote_parse_mode"@.len() == 16);
        assert("quote_entities"@.len() == 14);
        assert("quote_position"@.len() == 14);
        assert("quote_entities"@[6] == 'e');
        assert("quote_position"@[6] == 'p');
        assert("message_id"@ != "chat_id"@);
        assert("message_id"@ != "allow_sending_without_reply"@);
        assert("message_id"@ != "quote"@);
        assert("message_id"@ != "quote_parse_mode"@);
        assert("message_id"@ != "quote_entities"@);
        assert("message_id"@ != "quote_position"@);
        assert("chat_id"@ != "allow_sending_without_reply"@);
        assert("chat_id"@ != "quote"@);
        assert("chat_id"@ != "quote_parse_mode"@);
        assert("chat_id"@ != "quote_entities"@);
        assert("chat_id"@ != "quote_position"@);
        assert("allow_sending_without_reply"@ != "quote"@);
        assert("allow_sending_without_reply"@ != "quote_parse_mode"@);
        assert("allow_sending_without_reply"@ != "quote_entities"@);
        assert("allow_sending_without_reply"@ != "quote_position"@);
        assert("quote"@ != "quote_parse_mode"@);
        assert("quote"@ != "quote_entities"@);
        assert("quote"@ != "quote_position"@);
        assert("quote_parse_mode"@ != "quote_entities"@);
        assert("quote_parse_mode"@ != "quote_position"@);
        assert("quote_entities"@ != "quote_position"@);
        let fs = self.fields();
        assert(fs.len() == 7);
        assert(fs[0].0 == "message_id"@);
        assert(fs[1].0 == "chat_id"@);
        assert(fs[2].0 == "allow_sending_without_reply"@);
        assert(fs[3].0 == "quote"@);
        assert(fs[4].0 == "quote_parse_mode"@);
        assert(fs[5].0 == "quote_entities"@);
        assert(fs[6].0 == "quote_position"@);
    }

    /// Decoding what was encoded gives the value back.
    pub proof fn lemma_round_trip(self)
        requires
            self.valid(),
        ensures
            ReplyParametersView::decode(self.json()) == Ok::<ReplyParametersView, WireFault>(self),
    {
        let fs = self.fields();
        self.lemma_keys_distinct();
        lemma_present_lookup(fs, 0);
        lemma_present_lookup(fs, 1);
        lemma_present_lookup(fs, 2);
        lemma_present_lookup(fs, 3);
        lemma_present_lookup(fs, 4);
        lemma_present_lookup(fs, 5);
        lemma_present_lookup(fs, 6);
        match self.chat_id {
            Some(v) => v.lemma_round_trip(),
            None => {},
        }
        let es = present(fs);
        assert(req_int(es, "message_id"@, "ReplyParameters"@) == Ok::<i64, WireFault>(self.message_id));
        assert(ChatIdView::opt_field(es, "chat_id"@) == Ok::<Option<ChatIdView>, WireFault>(self.chat_id));
        assert(opt_bool(es, "allow_sending_without_reply"@) == Ok::<Option<bool>, WireFault>(self.allow_sending_without_reply));
        assert(opt_string(es, "quote"@) == Ok::<Option<Seq<char>>, WireFault>(self.quote));
        assert(opt_string(es, "quote_parse_mode"@) == Ok::<Option<Seq<char>>, WireFault>(self.quote_parse_mode));
        assert(optional_any(es, "quote_entities"@) == self.quote_entities);
        assert(opt_int(es, "quote_position"@) == Ok::<Option<i64>, WireFault>(self.quote_position));
    }

}

impl ReplyParameters {
    /// Writes the fields of this value into `w`, in declared order.
    pub fn write_fields(&self, w: &mut ObjectWriter)
        requires
            old(w).wf(),
        ensures
            final(w).wf(),
            final(w).fields@ == old(w).fields@ + self@.fields(),
    {
        let ghost start = w.fields@;
        w.put("message_id", JsonValue::Int(self.message_id));
        let v = match &self.chat_id {
            Some(v) => Some(v.to_json()),
            None => None,
        };
        w.field("chat_id", v);
        w.field("allow_sending_without_reply", bool_value(self.allow_sending_without_reply));
        w.field("quote", str_value(&self.quote));
        w.field("quote_parse_mode", str_value(&self.quote_parse_mode));
        w.field("quote_entities", duplicate_opt(&self.quote_entities));
        w.field("quote_position", int_value(self.quote_position));
        assert(w.fields@ =~= start + self@.fields());
    }

    /// The JSON object that this value is sent as.
    pub fn to_json(&self) -> (r: JsonValue)
        ensures
            r@ == self@.json(),
    {
        let mut w = ObjectWriter::new();
        self.write_fields(&mut w);
        assert(w.fields@ =~= self@.fields());
        w.finish()
    }

    /// Reads a value from the entries of a JSON object.
    pub fn read_entries(es: &Vec<(String, JsonValue)>) -> (r: Result<ReplyParameters, WireError>)
        ensures
            rview(r) == ReplyParametersView::decode_entries(entries_view(es@)),
    {
        let v_message_id = match read_int(es, "message_id", "ReplyParameters") {
            Ok(v) => v,
            Err(e) => return Err(e),
        };
        let v_chat_id = match ChatId::read_opt_field(es, "chat_id") {
            Ok(v) => v,
            Err(e) => return Err(e),
        };
        let v_allow_sending_without_reply = match read_opt_bool(es, "allow_sending_without_reply") {
            Ok(v) => v,
            Err(e) => return Err(e),
        };
        let v_quote = match read_opt_str(es, "quote") {
            Ok(v) => v,
            Err(e) => return Err(e),
        };
        let v_quote_parse_mode = match read_opt_str(es, "quote_parse_mode") {
            Ok(v) => v,
            Err(e) => return Err(e),
        };
        let v_quote_entities = read_opt_any(es, "quote_entities");
        let v_quote_position = match read_opt_int(es, "quote_position") {
            Ok(v) => v,
            Err(e) => return Err(e),
        };
        Ok(ReplyParameters { message_id: v_message_id, chat_id: v_chat_id, allow_sending_without_reply: v_allow_sending_without_reply, quote: v_quote, quote_parse_mode: v_quote_parse_mode, quote_entities: v_quote_entities, quote_position: v_quote_position })
    }

    /// Reads a value from a JSON document, which must be an object.
    pub fn from_json(j: &JsonValue) -> (r: Result<ReplyParameters, WireError>)
        ensures
            rview(r) == ReplyParametersView::decode(j@),
    {
        match j {
            JsonValue::Object(es) => ReplyParameters::read_entries(es),
            _ => Err(WireError::NotAnObject { owner: "ReplyParameters".to_owned(), raw: j.duplicate() }),
        }
    }

    /// Reads the optional field `key`.
    pub fn read_opt_field(es: &Vec<(String, JsonValue)>, key: &str) -> (r: Result<Option<ReplyParameters>, WireError>)
        ensures
            match r {
                Ok(v) => ReplyParametersView::opt_field(entries_view(es@), key@) == Ok::<Option<ReplyParametersView>, WireFault>(match v {
                    Some(x) => Some(x@),
                    None => None,
                }),
                Err(e) => ReplyParametersView::opt_field(entries_view(es@), key@) == Err::<Option<ReplyParametersView>, WireFault>(e@),
            },
    {
        match find_key(es, key) {
            None => Ok(None),
            Some(i) => match &es[i].1 {
                JsonValue::Null => Ok(None),
                other => match ReplyParameters::from_json(other) {
                    Ok(v) => Ok(Some(v)),
                    Err(e) => Err(nest_error(key, e)),
                },
            },
        }
    }

}

/// Sends a text message.
#[derive(Debug, Clone, PartialEq)]
pub struct SendMessageRequest {
    /// Unique identifier of the target chat.
    pub chat_id: i64,
    /// Target message thread, in forum supergroups.
    pub message_thread_id: Option<i64>,
    /// Text of the message.
    pub text: String,
    /// What the message replies to.
    pub reply_parameters: Option<ReplyParameters>,
    /// How to parse the text.
    pub parse_mode: Option<ParseMode>,
    /// Keyboard markup for the message.
    pub reply_markup: Option<ReplyMarkup>,
}

/// The model of [`SendMessageRequest`].
pub struct SendMessageRequestView {
    pub chat_id: i64,
    pub message_thread_id: Option<i64>,
    pub text: Seq<char>,
    pub reply_parameters: Option<ReplyParametersView>,
    pub parse_mode: Option<ParseMode>,
    pub reply_markup: Option<ReplyMarkupView>,
}

impl View for SendMessageRequest {
    type V = SendMessageRequestView;

    open spec fn view(&self) -> SendMessageRequestView {
        SendMessageRequestView {
            chat_id: self.chat_id,
            message_thread_id: self.message_thread_id,
            text: self.text@,
            reply_parameters: match self.reply_parameters {
                Some(v) => Some(v@),
                None => None,
            },
            parse_mode: self.parse_mode,
            reply_markup: match self.reply_markup {
                Some(v) => Some(v@),
                None => None,
            },
        }
    }
}

impl SendMessageRequestView {
    /// The fields in declared order, each with what is written for it.
    pub open spec fn fields(self) -> Seq<(Seq<char>, Option<Json>)> {
        seq![
            ("chat_id"@, Some(Json::Int(self.chat_id))),
            ("message_thread_id"@, int_field(self.message_thread_id)),
            ("text"@, Some(Json::Str(self.text))),
            ("reply_parameters"@, match self.reply_parameters {
                    Some(v) => Some(v.json()),
                    None => None,
                }),
            ("parse_mode"@, match self.parse_mode {
                    Some(v) => Some(v.json()),
                    None => None,
                }),
            ("reply_markup"@, match self.reply_markup {
                    Some(v) => Some(v.json()),
                    None => None,
                }),
        ]
    }

    pub open spec fn json(self) -> Json {
        Json::Object(present(self.fields()))
    }

    /// No optional JSON field holds an explicit `null`, which reads back as absent.
    pub open spec fn valid(self) -> bool {
        (match self.reply_parameters {
            Some(v) => v.valid(),
            None => true,
        })
    }

    pub open spec fn decode_entries(es: Seq<(Seq<char>, Json)>) -> Result<SendMessageRequestView, WireFault> {
        let v_chat_id = req_int(es, "chat_id"@, "SendMessageRequest"@);
        let v_message_thread_id = opt_int(es, "message_thread_id"@);
        let v_text = req_str(es, "text"@, "SendMessageRequest"@);
        let v_reply_parameters = ReplyParametersView::opt_field(es, "reply_parameters"@);
        let v_parse_mode = ParseMode::opt_field(es, "parse_mode"@);
        let v_reply_markup = ReplyMarkupView::opt_field(es, "reply_markup"@);
        if v_chat_id is Err {
            Err(v_chat_id->Err_0)
        } else if v_message_thread_id is Err {
            Err(v_message_thread_id->Err_0)
        } else if v_text is Err {
            Err(v_text->Err_0)
        } else if v_reply_parameters is Err {
            Err(v_reply_parameters->Err_0)
        } else if v_parse_mode is Err {
            Err(v_parse_mode->Err_0)
        } else if v_reply_markup is Err {
            Err(v_reply_markup->Err_0)
        } else {
            Ok(
                SendMessageRequestView {
                    chat_id: v_chat_id->Ok_0,
                    message_thread_id: v_message_thread_id->Ok_0,
                    text: v_text->Ok_0,
                    reply_parameters: v_reply_parameters->Ok_0,
                    parse_mode: v_parse_mode->Ok_0,
                    reply_markup: v_reply_markup->Ok_0,
                },
            )
        }
    }

    pub open spec fn decode(j: Json) -> Result<SendMessageRequestView, WireFault> {
        match j {
            Json::Object(es) => SendMessageRequestView::decode_entries(es),
            _ => Err(WireFault::NotAnObject { owner: "SendMessageRequest"@, raw: j }),
        }
    }

    /// No two fields of this type share a wire key.
    pub proof fn lemma_keys_distinct(self)
        ensures
            keys_distinct(self.fields()),
    {
        reveal_strlit("chat_id");
        reveal_strlit("message_thread_id");
        reveal_strlit("text");
        reveal_strlit("reply_parameters");
        reveal_strlit("parse_mode");
        reveal_strlit("reply_markup");
        assert("chat_id"@.len() == 7);
        assert("message_thread_id"@.len() == 17);
        assert("text"@.len() == 4);
        assert("reply_parameters"@.len() == 16);
        assert("parse_mode"@.len() == 10);
        assert("reply_markup"@.len() == 12);
        assert("chat_id"@ != "message_thread_id"@);
        assert("chat_id"@ != "text"@);
        assert("chat_id"@ != "reply_parameters"@);
        assert("chat_id"@ != "parse_mode"@);
        assert("chat_id"@ != "reply_markup"@);
        assert("message_thread_id"@ != "text"@);
        assert("message_thread_id"@ != "reply_parameters"@);
        assert("message_thread_id"@ != "parse_mode"@);
        assert("message_thread_id"@ != "reply_markup"@);
        assert("text"@ != "reply_parameters"@);
        assert("text"@ != "parse_mode"@);
        assert("text"@ != "reply_markup"@);
        assert("reply_parameters"@ != "parse_mode"@);
        assert("reply_parameters"@ != "reply_markup"@);
        assert("parse_mode"@ != "reply_markup"@);
        let fs = self.fields();
        assert(fs.len() == 6);
        assert(fs[0].0 == "chat_id"@);
        assert(fs[1].0 == "message_thread_id"@);
        assert(fs[2].0 == "text"@);
        assert(fs[3].0 == "reply_parameters"@);
        assert(fs[4].0 == "parse_mode"@);
        assert(fs[5].0 == "reply_markup"@);
    }

    /// Decoding what was encoded gives the value back.
    pub proof fn lemma_round_trip(self)
        requires
            self.valid(),
        ensures
            SendMessageRequestView::decode(self.json()) == Ok::<SendMessageRequestView, WireFault>(self),
    {
        let fs = self.fields();
        self.lemma_keys_distinct();
        lemma_present_lookup(fs, 0);
        lemma_present_lookup(fs, 1);
        lemma_present_lookup(fs, 2);
        lemma_present_lookup(fs, 3);
        lemma_present_lookup(fs, 4);
        lemma_present_lookup(fs, 5);
        match self.reply_parameters {
            Some(v) => v.lemma_round_trip(),
            None => {},
        }
        match self.parse_mode {
            Some(v) => v.lemma_token_round_trip(),
            None => {},
        }
        match self.reply_markup {
            Some(v) => v.lemma_round_trip(),
            None => {},
        }
        let es = present(fs);
        assert(req_int(es, "chat_id"@, "SendMessageRequest"@) == Ok::<i64, WireFault>(self.chat_id));
        assert(opt_int(es, "message_thread_id"@) == Ok::<Option<i64>, WireFault>(self.message_thread_id));
        assert(req_str(es, "text"@, "SendMessageRequest"@) == Ok::<Seq<char>, WireFault>(self.text));
        assert(ReplyParametersView::opt_field(es, "reply_parameters"@) == Ok::<Option<ReplyParametersView>, WireFault>(self.reply_parameters));
        assert(ParseMode::opt_field(es, "parse_mode"@) == Ok::<Option<ParseMode>, WireFault>(self.parse_mode));
        assert(ReplyMarkupView::opt_field(es, "reply_markup"@) == Ok::<Option<ReplyMarkupView>, WireFault>(self.reply_markup));
    }

}

impl SendMessageRequest {
    /// Writes the fields of this value into `w`, in declared order.
    pub fn write_fields(&self, w: &mut ObjectWriter)
        requires
            old(w).wf(),
        ensures
            final(w).wf(),
            final(w).fields@ == old(w).fields@ + self@.fields(),
    {
        let ghost start = w.fields@;
        w.put("chat_id", JsonValue::Int(self.chat_id));
        w.field("message_thread_id", int_value(self.message_thread_id));
        w.put("text", JsonValue::Str(self.text.clone()));
        let v = match &self.reply_parameters {
            Some(v) => Some(v.to_json()),
            None => None,
        };
        w.field("reply_parameters", v);
        let v = match &self.parse_mode {
            Some(v) => Some(v.to_json()),
            None => None,
        };
        w.field("parse_mode", v);
        let v = match &self.reply_markup {
            Some(v) => Some(v.to_json()),
            None => None,
        };
        w.field("reply_markup", v);
        assert(w.fields@ =~= start + self@.fields());
    }

    /// The JSON object that this value is sent as.
    pub fn to_json(&self) -> (r: JsonValue)
        ensures
            r@ == self@.json(),
    {
        let mut w = ObjectWriter::new();
        self.write_fields(&mut w);
        assert(w.fields@ =~= self@.fields());
        w.finish()
    }

    /// Reads a value from the entries of a JSON object.
    pub fn read_entries(es: &Vec<(String, JsonValue)>) -> (r: Result<SendMessageRequest, WireError>)
        ensures
            rview(r) == SendMessageRequestView::decode_entries(entries_view(es@)),
    {
        let v_chat_id = match read_int(es, "chat_id", "SendMessageRequest") {
            Ok(v) => v,
            Err(e) => return Err(e),
        };
        let v_message_thread_id = match read_opt_int(es, "message_thread_id") {
            Ok(v) => v,
            Err(e) => return Err(e),
        };
        let v_text = match read_str(es, "text", "SendMessageRequest") {
            Ok(v) => v,
            Err(e) => return Err(e),
        };
        let v_reply_parameters = match ReplyParameters::read_opt_field(es, "reply_parameters") {
            Ok(v) => v,
            Err(e) => return Err(e),
        };
        let v_parse_mode = match ParseMode::read_opt_field(es, "parse_mode") {
            Ok(v) => v,
            Err(e) => return Err(e),
        };
        let v_reply_markup = match ReplyMarkup::read_opt_field(es, "reply_markup") {
            Ok(v) => v,
            Err(e) => return Err(e),
        };
        Ok(SendMessageRequest { chat_id: v_chat_id, message_thread_id: v_message_thread_id, text: v_text, reply_parameters: v_reply_parameters, parse_mode: v_parse_mode, reply_markup: v_reply_markup })
    }

    /// Reads a value from a JSON document, which must be an object.
    pub fn from_json(j: &JsonValue) -> (r: Result<SendMessageRequest, WireError>)
        ensures
            rview(r) == SendMessageRequestView::decode(j@),
    {
        match j {
            JsonValue::Object(es) => SendMessageRequest::read_entries(es),
            _ => Err(WireError::NotAnObject { owner: "SendMessageRequest".to_owned(), raw: j.duplicate() }),
        }
    }

}

/// The fields that every edit request has.
#[derive(Debug, Clone, PartialEq)]
pub struct EditMessageBase {
    /// Target chat; needed unless `inline_message_id` is given.
    pub chat_id: Option<i64>,
    /// Message to edit; needed unless `inline_message_id` is given.
    pub message_id: Option<i64>,
    /// Identifier of an inline message.
    pub inline_message_id: Option<String>,
    /// How to parse entities in the new content.
    pub parse_mode: Option<ParseMode>,
    /// Reply markup, as JSON text.
    pub reply_markup: Option<String>,
}

/// The model of [`EditMessageBase`].
pub struct EditMessageBaseView {
    pub chat_id: Option<i64>,
    pub message_id: Option<i64>,
    pub inline_message_id: Option<Seq<char>>,
    pub parse_mode: Option<ParseMode>,
    pub reply_markup: Option<Seq<char>>,
}

impl View for EditMessageBase {
    type V = EditMessageBaseView;

    open spec fn view(&self) -> EditMessageBaseView {
        EditMessageBaseView {
            chat_id: self.chat_id,
            message_id: self.message_id,
            inline_message_id: opt_str(self.inline_message_id),
            parse_mode: self.parse_mode,
            reply_markup: opt_str(self.reply_markup),
        }
    }
}

impl EditMessageBaseView {
    /// The fields in declared order, each with what is written for it.
    pub open spec fn fields(self) -> Seq<(Seq<char>, Option<Json>)> {
        seq![
            ("chat_id"@, int_field(self.chat_id)),
            ("message_id"@, int_field(self.message_id)),
            ("inline_message_id"@, str_field(self.inline_message_id)),
            ("parse_mode"@, match self.parse_mode {
                    Some(v) => Some(v.json()),
                    None => None,
                }),
            ("reply_markup"@, str_field(self.reply_markup)),
        ]
    }

    pub open spec fn json(self) -> Json {
        Json::Object(present(self.fields()))
    }

    pub open spec fn decode_entries(es: Seq<(Seq<char>, Json)>) -> Result<EditMessageBaseView, WireFault> {
        let v_chat_id = opt_int(es, "chat_id"@);
        let v_message_id = opt_int(es, "message_id"@);
        let v_inline_message_id = opt_string(es, "inline_message_id"@);
        let v_parse_mode = ParseMode::opt_field(es, "parse_mode"@);
        let v_reply_markup = opt_string(es, "reply_markup"@);
        if v_chat_id is Err {
            Err(v_chat_id->Err_0)
        } else if v_message_id is Err {
            Err(v_message_id->Err_0)
        } else if v_inline_message_id is Err {
            Err(v_inline_message_id->Err_0)
        } else if v_parse_mode is Err {
            Err(v_parse_mode->Err_0)
        } else if v_reply_markup is Err {
            Err(v_reply_markup->Err_0)
        } else {
            Ok(
                EditMessageBaseView {
                    chat_id: v_chat_id->Ok_0,
                    message_id: v_message_id->Ok_0,
                    inline_message_id: v_inline_message_id->Ok_0,
                    parse_mode: v_parse_mode->Ok_0,
                    reply_markup: v_reply_markup->Ok_0,
                },
            )
        }
    }

    pub open spec fn decode(j: Json) -> Result<EditMessageBaseView, WireFault> {
        match j {
            Json::Object(es) => EditMessageBaseView::decode_entries(es),
            _ => Err(WireFault::NotAnObject { owner: "EditMessageBase"@, raw: j }),
        }
    }

    /// No two fields of this type share a wire key.
    pub proof fn lemma_keys_distinct(self)
        ensures
            keys_distinct(self.fields()),
    {
        reveal_strlit("chat_id");
        reveal_strlit("message_id");
        reveal_strlit("inline_message_id");
        reveal_strlit("parse_mode");
        reveal_strlit("reply_markup");
        assert("chat_id"@.len() == 7);
        assert("message_id"@.len() == 10);
        assert("inline_message_id"@.len() == 17);
        assert("parse_mode"@.len() == 10);
        assert("reply_markup"@.len() == 12);
        assert("message_id"@[0] == 'm');
        assert("parse_mode"@[0] == 'p');
        assert("chat_id"@ != "message_id"@);
        assert("chat_id"@ != "inline_message_id"@);
        assert("chat_id"@ != "parse_mode"@);
        assert("chat_id"@ != "reply_markup"@);
        assert("message_id"@ != "inline_message_id"@);
        assert("message_id"@ != "parse_mode"@);
        assert("message_id"@ != "reply_markup"@);
        assert("inline_message_id"@ != "parse_mode"@);
        assert("inline_message_id"@ != "reply_markup"@);
        assert("parse_mode"@ != "reply_markup"@);
        let fs = self.fields();
        assert(fs.len() == 5);
        assert(fs[0].0 == "chat_id"@);
        assert(fs[1].0 == "message_id"@);
        assert(fs[2].0 == "inline_message_id"@);
        assert(fs[3].0 == "parse_mode"@);
        assert(fs[4].0 == "reply_markup"@);
    }

    /// Decoding what was encoded gives the value back.
    pub proof fn lemma_round_trip(self)
        ensures
            EditMessageBaseView::decode(self.json()) == Ok::<EditMessageBaseView, WireFault>(self),
    {
        let fs = self.fields();
        self.lemma_keys_distinct();
        lemma_present_lookup(fs, 0);
        lemma_present_lookup(fs, 1);
        lemma_present_lookup(fs, 2);
        lemma_present_lookup(fs, 3);
        lemma_present_lookup(fs, 4);
        match self.parse_mode {
            Some(v) => v.lemma_token_round_trip(),
            None => {},
        }
        let es = present(fs);
        assert(opt_int(es, "chat_id"@) == Ok::<Option<i64>, WireFault>(self.chat_id));
        assert(opt_int(es, "message_id"@) == Ok::<Option<i64>, WireFault>(self.message_id));
        assert(opt_string(es, "inline_message_id"@) == Ok::<Option<Seq<char>>, WireFault>(self.inline_message_id));
        assert(ParseMode::opt_field(es, "parse_mode"@) == Ok::<Option<ParseMode>, WireFault>(self.parse_mode));
        assert(opt_string(es, "reply_markup"@) == Ok::<Option<Seq<char>>, WireFault>(self.reply_markup));
    }

}

impl EditMessageBase {
    /// Writes the fields of this value into `w`, in declared order.
    pub fn write_fields(&self, w: &mut ObjectWriter)
        requires
            old(w).wf(),
        ensures
            final(w).wf(),
            final(w).fields@ == old(w).fields@ + self@.fields(),
    {
        let ghost start = w.fields@;
        w.field("chat_id", int_value(self.chat_id));
        w.field("message_id", int_value(self.message_id));
        w.field("inline_message_id", str_value(&self.inline_message_id));
        let v = match &self.parse_mode {
            Some(v) => Some(v.to_json()),
            None => None,
        };
        w.field("parse_mode", v);
        w.field("reply_markup", str_value(&self.reply_markup));
        assert(w.fields@ =~= start + self@.fields());
    }

    /// The JSON object that this value is sent as.
    pub fn to_json(&self) -> (r: JsonValue)
        ensures
            r@ == self@.json(),
    {
        let mut w = ObjectWriter::new();
        self.write_fields(&mut w);
        assert(w.fields@ =~= self@.fields());
        w.finish()
    }

    /// Reads a value from the entries of a JSON object.
    pub fn read_entries(es: &Vec<(String, JsonValue)>) -> (r: Result<EditMessageBase, WireError>)
        ensures
            rview(r) == EditMessageBaseView::decode_entries(entries_view(es@)),
    {
        let v_chat_id = match read_opt_int(es, "chat_id") {
            Ok(v) => v,
            Err(e) => return Err(e),
        };
        let v_message_id = match read_opt_int(es, "message_id") {
            Ok(v) => v,
            Err(e) => return Err(e),
        };
        let v_inline_message_id = match read_opt_str(es, "inline_message_id") {
            Ok(v) => v,
            Err(e) => return Err(e),
        };
        let v_parse_mode = match ParseMode::read_opt_field(es, "parse_mode") {
            Ok(v) => v,
            Err(e) => return Err(e),
        };
        let v_reply_markup = match read_opt_str(es, "reply_markup") {
            Ok(v) => v,
            Err(e) => return Err(e),
        };
        Ok(EditMessageBase { chat_id: v_chat_id, message_id: v_message_id, inline_message_id: v_inline_message_id, parse_mode: v_parse_mode, reply_markup: v_reply_markup })
    }

    /// Reads a value from a JSON document, which must be an object.
    pub fn from_json(j: &JsonValue) -> (r: Result<EditMessageBase, WireError>)
        ensures
            rview(r) == EditMessageBaseView::decode(j@),
    {
        match j {
            JsonValue::Object(es) => EditMessageBase::read_entries(es),
            _ => Err(WireError::NotAnObject { owner: "EditMessageBase".to_owned(), raw: j.duplicate() }),
        }
    }

}

/// Replaces the text of a message.
#[derive(Debug, Clone, PartialEq)]
pub struct EditMessageTextRequest {
    /// The fields shared by all edit requests, written at the top level.
    pub base: EditMessageBase,
    /// The new text, 1 to 4096 characters after entities parsing.
    pub text: String,
}

/// The model of [`EditMessageTextRequest`].
pub struct EditMessageTextRequestView {
    pub base: EditMessageBaseView,
    pub text: Seq<char>,
}

impl View for EditMessageTextRequest {
    type V = EditMessageTextRequestView;

    open spec fn view(&self) -> EditMessageTextRequestView {
        EditMessageTextRequestView {
            base: self.base@,
            text: self.text@,
        }
    }
}

impl EditMessageTextRequestView {
    /// The fields in declared order, each with what is written for it.
    pub open spec fn fields(self) -> Seq<(Seq<char>, Option<Json>)> {
        self.base.fields() + seq![
            ("text"@, Some(Json::Str(self.text))),
        ]
    }

    pub open spec fn json(self) -> Json {
        Json::Object(present(self.fields()))
    }

    pub open spec fn decode_entries(es: Seq<(Seq<char>, Json)>) -> Result<EditMessageTextRequestView, WireFault> {
        let v_base = EditMessageBaseView::decode_entries(es);
        let v_text = req_str(es, "text"@, "EditMessageTextRequest"@);
        if v_base is Err {
            Err(v_base->Err_0)
        } else if v_text is Err {
            Err(v_text->Err_0)
        } else {
            Ok(
                EditMessageTextRequestView {
                    base: v_base->Ok_0,
                    text: v_text->Ok_0,
                },
            )
        }
    }

    pub open spec fn decode(j: Json) -> Result<EditMessageTextRequestView, WireFault> {
        match j {
            Json::Object(es) => EditMessageTextRequestView::decode_entries(es),
            _ => Err(WireFault::NotAnObject { owner: "EditMessageTextRequest"@, raw: j }),
        }
    }

    /// No two fields of this type share a wire key.
    pub proof fn lemma_keys_distinct(self)
        ensures
            keys_distinct(self.fields()),
    {
        reveal_strlit("chat_id");
        reveal_strlit("message_id");
        reveal_strlit("inline_message_id");
        reveal_strlit("parse_mode");
        reveal_strlit("reply_markup");
        reveal_strlit("text");
        assert("chat_id"@.len() == 7);
        assert("message_id"@.len() == 10);
        assert("inline_message_id"@.len() == 17);
        assert("parse_mode"@.len() == 10);
        assert("reply_markup"@.len() == 12);
        assert("text"@.len() == 4);
        assert("message_id"@[0] == 'm');
        assert("parse_mode"@[0] == 'p');
        assert("chat_id"@ != "message_id"@);
        assert("chat_id"@ != "inline_message_id"@);
        assert("chat_id"@ != "parse_mode"@);
        assert("chat_id"@ != "reply_markup"@);
        assert("chat_id"@ != "text"@);
        assert("message_id"@ != "inline_message_id"@);
        assert("message_id"@ != "parse_mode"@);
        assert("message_id"@ != "reply_markup"@);
        assert("message_id"@ != "text"@);
        assert("inline_message_id"@ != "parse_mode"@);
        assert("inline_message_id"@ != "reply_markup"@);
        assert("inline_message_id"@ != "text"@);
        assert("parse_mode"@ != "reply_markup"@);
        assert("parse_mode"@ != "text"@);
        assert("reply_markup"@ != "text"@);
        let fs = self.fields();
        assert(fs.len() == 6);
        assert(fs[0].0 == "chat_id"@);
        assert(fs[1].0 == "message_id"@);
        assert(fs[2].0 == "inline_message_id"@);
        assert(fs[3].0 == "parse_mode"@);
        assert(fs[4].0 == "reply_markup"@);
        assert(fs[5].0 == "text"@);
    }

    /// Decoding what was encoded gives the value back.
    pub proof fn lemma_round_trip(self)
        ensures
            EditMessageTextRequestView::decode(self.json()) == Ok::<EditMessageTextRequestView, WireFault>(self),
    {
        let fs = self.fields();
        self.lemma_keys_distinct();
        lemma_present_lookup(fs, 0);
        lemma_present_lookup(fs, 1);
        lemma_present_lookup(fs, 2);
        lemma_present_lookup(fs, 3);
        lemma_present_lookup(fs, 4);
        lemma_present_lookup(fs, 5);
        match self.base.parse_mode {
            Some(v) => v.lemma_token_round_trip(),
            None => {},
        }
        let es = present(fs);
        assert(opt_int(es, "chat_id"@) == Ok::<Option<i64>, WireFault>(self.base.chat_id));
        assert(opt_int(es, "message_id"@) == Ok::<Option<i64>, WireFault>(self.base.message_id));
        assert(opt_string(es, "inline_message_id"@) == Ok::<Option<Seq<char>>, WireFault>(self.base.inline_message_id));
        assert(ParseMode::opt_field(es, "parse_mode"@) == Ok::<Option<ParseMode>, WireFault>(self.base.parse_mode));
        assert(opt_string(es, "reply_markup"@) == Ok::<Option<Seq<char>>, WireFault>(self.base.reply_markup));
        assert(req_str(es, "text"@, "EditMessageTextRequest"@) == Ok::<Seq<char>, WireFault>(self.text));
    }

}

impl EditMessageTextRequest {
    /// Writes the fields of this value into `w`, in declared order.
    pub fn write_fields(&self, w: &mut ObjectWriter)
        requires
            old(w).wf(),
        ensures
            final(w).wf(),
            final(w).fields@ == old(w).fields@ + self@.fields(),
    {
        let ghost start = w.fields@;
        self.base.write_fields(w);
        w.put("text", JsonValue::Str(self.text.clone()));
        assert(w.fields@ =~= start + self@.fields());
    }

    /// The JSON object that this value is sent as.
    pub fn to_json(&self) -> (r: JsonValue)
        ensures
            r@ == self@.json(),
    {
        let mut w = ObjectWriter::new();
        self.write_fields(&mut w);
        assert(w.fields@ =~= self@.fields());
        w.finish()
    }

    /// Reads a value from the entries of a JSON object.
    pub fn read_entries(es: &Vec<(String, JsonValue)>) -> (r: Result<EditMessageTextRequest, WireError>)
        ensures
            rview(r) == EditMessageTextRequestView::decode_entries(entries_view(es@)),
    {
        let v_base = match EditMessageBase::read_entries(es) {
            Ok(v) => v,
            Err(e) => return Err(e),
        };
        let v_text = match read_str(es, "text", "EditMessageTextRequest") {
            Ok(v) => v,
            Err(e) => return Err(e),
        };
        Ok(EditMessageTextRequest { base: v_base, text: v_text })
    }

    /// Reads a value from a JSON document, which must be an object.
    pub fn from_json(j: &JsonValue) -> (r: Result<EditMessageTextRequest, WireError>)
        ensures
            rview(r) == EditMessageTextRequestView::decode(j@),
    {
        match j {
            JsonValue::Object(es) => EditMessageTextRequest::read_entries(es),
            _ => Err(WireError::NotAnObject { owner: "EditMessageTextRequest".to_owned(), raw: j.duplicate() }),
        }
    }

}

/// Replaces the caption of a message.
#[derive(Debug, Clone, PartialEq)]
pub struct EditMessageCaptionRequest {
    /// The fields shared by all edit requests, written at the top level.
    pub base: EditMessageBase,
    /// The new caption, 0 to 1024 characters after entities parsing.
    pub caption: String,
}

/// The model of [`EditMessageCaptionRequest`].
pub struct EditMessageCaptionRequestView {
    pub base: EditMessageBaseView,
    pub caption: Seq<char>,
}

impl View for EditMessageCaptionRequest {
    type V = EditMessageCaptionRequestView;

    open spec fn view(&self) -> EditMessageCaptionRequestView {
        EditMessageCaptionRequestView {
            base: self.base@,
            caption: self.caption@,
        }
    }
}

impl EditMessageCaptionRequestView {
    /// The fields in declared order, each with what is written for it.
    pub open spec fn fields(self) -> Seq<(Seq<char>, Option<Json>)> {
        self.base.fields() + seq![
            ("caption"@, Some(Json::Str(self.caption))),
        ]
    }

    pub open spec fn json(self) -> Json {
        Json::Object(present(self.fields()))
    }

    pub open spec fn decode_entries(es: Seq<(Seq<char>, Json)>) -> Result<EditMessageCaptionRequestView, WireFault> {
        let v_base = EditMessageBaseView::decode_entries(es);
        let v_caption = req_str(es, "caption"@, "EditMessageCaptionRequest"@);
        if v_base is Err {
            Err(v_base->Err_0)
        } else if v_caption is Err {
            Err(v_caption->Err_0)
        } else {
            Ok(
                EditMessageCaptionRequestView {
                    base: v_base->Ok_0,
                    caption: v_caption->Ok_0,
                },
            )
        }
    }

    pub open spec fn decode(j: Json) -> Result<EditMessageCaptionRequestView, WireFault> {
        match j {
            Json::Object(es) => EditMessageCaptionRequestView::decode_entries(es),
            _ => Err(WireFault::NotAnObject { owner: "EditMessageCaptionRequest"@, raw: j }),
        }
    }

    /// No two fields of this type share a wire key.
    pub proof fn lemma_keys_distinct(self)
        ensures
            keys_distinct(self.fields()),
    {
        reveal_strlit("chat_id");
        reveal_strlit("message_id");
        reveal_strlit("inline_message_id");
        reveal_strlit("parse_mode");
        reveal_strlit("reply_markup");
        reveal_strlit("caption");
        assert("chat_id"@.len() == 7);
        assert("message_id"@.len() == 10);
        assert("inline_message_id"@.len() == 17);
        assert("parse_mode"@.len() == 10);
        assert("reply_markup"@.len() == 12);
        assert("caption"@.len() == 7);
        assert("chat_id"@[1] == 'h');
        assert("caption"@[1] == 'a');
        assert("message_id"@[0] == 'm');
        assert("parse_mode"@[0] == 'p');
        assert("chat_id"@ != "message_id"@);
        assert("chat_id"@ != "inline_message_id"@);
        assert("chat_id"@ != "parse_mode"@);
        assert("chat_id"@ != "reply_markup"@);
        assert("chat_id"@ != "caption"@);
        assert("message_id"@ != "inline_message_id"@);
        assert("message_id"@ != "parse_mode"@);
        assert("message_id"@ != "reply_markup"@);
        assert("message_id"@ != "caption"@);
        assert("inline_message_id"@ != "parse_mode"@);
        assert("inline_message_id"@ != "reply_markup"@);
        assert("inline_message_id"@ != "caption"@);
        assert("parse_mode"@ != "reply_markup"@);
        assert("parse_mode"@ != "caption"@);
        assert("reply_markup"@ != "caption"@);
        let fs = self.fields();
        assert(fs.len() == 6);
        assert(fs[0].0 == "chat_id"@);
        assert(fs[1].0 == "message_id"@);
        assert(fs[2].0 == "inline_message_id"@);
        assert(fs[3].0 == "parse_mode"@);
        assert(fs[4].0 == "reply_markup"@);
        assert(fs[5].0 == "caption"@);
    }

    /// Decoding what was encoded gives the value back.
    pub proof fn lemma_round_trip(self)
        ensures
            EditMessageCaptionRequestView::decode(self.json()) == Ok::<EditMessageCaptionRequestView, WireFault>(self),
    {
        let fs = self.fields();
        self.lemma_keys_distinct();
        lemma_present_lookup(fs, 0);
        lemma_present_lookup(fs, 1);
        lemma_present_lookup(fs, 2);
        lemma_present_lookup(fs, 3);
        lemma_present_lookup(fs, 4);
        lemma_present_lookup(fs, 5);
        match self.base.parse_mode {
            Some(v) => v.lemma_token_round_trip(),
            None => {},
        }
        let es = present(fs);
        assert(opt_int(es, "chat_id"@) == Ok::<Option<i64>, WireFault>(self.base.chat_id));
        assert(opt_int(es, "message_id"@) == Ok::<Option<i64>, WireFault>(self.base.message_id));
        assert(opt_string(es, "inline_message_id"@) == Ok::<Option<Seq<char>>, WireFault>(self.base.inline_message_id));
        assert(ParseMode::opt_field(es, "parse_mode"@) == Ok::<Option<ParseMode>, WireFault>(self.base.parse_mode));
        assert(opt_string(es, "reply_markup"@) == Ok::<Option<Seq<char>>, WireFault>(self.base.reply_markup));
        assert(req_str(es, "caption"@, "EditMessageCaptionRequest"@) == Ok::<Seq<char>, WireFault>(self.caption));
    }

}

impl EditMessageCaptionRequest {
    /// Writes the fields of this value into `w`, in declared order.
    pub fn write_fields(&self, w: &mut ObjectWriter)
        requires
            old(w).wf(),
        ensures
            final(w).wf(),
            final(w).fields@ == old(w).fields@ + self@.fields(),
    {
        let ghost start = w.fields@;
        self.base.write_fields(w);
        w.put("caption", JsonValue::Str(self.caption.clone()));
        assert(w.fields@ =~= start + self@.fields());
    }

    /// The JSON object that this value is sent as.
    pub fn to_json(&self) -> (r: JsonValue)
        ensures
            r@ == self@.json(),
    {
        let mut w = ObjectWriter::new();
        self.write_fields(&mut w);
        assert(w.fields@ =~= self@.fields());
        w.finish()
    }

    /// Reads a value from the entries of a JSON object.
    pub fn read_entries(es: &Vec<(String, JsonValue)>) -> (r: Result<EditMessageCaptionRequest, WireError>)
        ensures
            rview(r) == EditMessageCaptionRequestView::decode_entries(entries_view(es@)),
    {
        let v_base = match EditMessageBase::read_entries(es) {
            Ok(v) => v,
            Err(e) => return Err(e),
        };
        let v_caption = match read_str(es, "caption", "EditMessageCaptionRequest") {
            Ok(v) => v,
            Err(e) => return Err(e),
        };
        Ok(EditMessageCaptionRequest { base: v_base, caption: v_caption })
    }

    /// Reads a value from a JSON document, which must be an object.
    pub fn from_json(j: &JsonValue) -> (r: Result<EditMessageCaptionRequest, WireError>)
        ensures
            rview(r) == EditMessageCaptionRequestView::decode(j@),
    {
        match j {
            JsonValue::Object(es) => EditMessageCaptionRequest::read_entries(es),
            _ => Err(WireError::NotAnObject { owner: "EditMessageCaptionRequest".to_owned(), raw: j.duplicate() }),
        }
    }

}

/// Replaces the reply markup of a message.
#[derive(Debug, Clone, PartialEq)]
pub struct EditMessageReplyMarkupRequest {
    /// The fields shared by all edit requests, written at the top level.
    pub base: EditMessageBase,
}

/// The model of [`EditMessageReplyMarkupRequest`].
pub struct EditMessageReplyMarkupRequestView {
    pub base: EditMessageBaseView,
}

impl View for EditMessageReplyMarkupRequest {
    type V = EditMessageReplyMarkupRequestView;

    open spec fn view(&self) -> EditMessageReplyMarkupRequestView {
        EditMessageReplyMarkupRequestView {
            base: self.base@,
        }
    }
}

impl EditMessageReplyMarkupRequestView {
    /// The fields in declared order, each with what is written for it.
    pub open spec fn fields(self) -> Seq<(Seq<char>, Option<Json>)> {
        self.base.fields() + seq![
            ,
        ]
    }

    pub open spec fn json(self) -> Json {
        Json::Object(present(self.fields()))
    }

    pub open spec fn decode_entries(es: Seq<(Seq<char>, Json)>) -> Result<EditMessageReplyMarkupRequestView, WireFault> {
        let v_base = EditMessageBaseView::decode_entries(es);
        if v_base is Err {
            Err(v_base->Err_0)
        } else {
            Ok(
                EditMessageReplyMarkupRequestView {
                    base: v_base->Ok_0,
                },
            )
        }
    }

    pub open spec fn decode(j: Json) -> Result<EditMessageReplyMarkupRequestView, WireFault> {
        match j {
            Json::Object(es) => EditMessageReplyMarkupRequestView::decode_entries(es),
            _ => Err(WireFault::NotAnObject { owner: "EditMessageReplyMarkupRequest"@, raw: j }),
        }
    }

    /// No two fields of this type share a wire key.
    pub proof fn lemma_keys_distinct(self)
        ensures
            keys_distinct(self.fields()),
    {
        reveal_strlit("chat_id");
        reveal_strlit("message_id");
        reveal_strlit("inline_message_id");
        reveal_strlit("parse_mode");
        reveal_strlit("reply_markup");
        assert("chat_id"@.len() == 7);
        assert("message_id"@.len() == 10);
        assert("inline_message_id"@.len() == 17);
        assert("parse_mode"@.len() == 10);
        assert("reply_markup"@.len() == 12);
        assert("message_id"@[0] == 'm');
        assert("parse_mode"@[0] == 'p');
        assert("chat_id"@ != "message_id"@);
        assert("chat_id"@ != "inline_message_id"@);
        assert("chat_id"@ != "parse_mode"@);
        assert("chat_id"@ != "reply_markup"@);
        assert("message_id"@ != "inline_message_id"@);
        assert("message_id"@ != "parse_mode"@);
        assert("message_id"@ != "reply_markup"@);
        assert("inline_message_id"@ != "parse_mode"@);
        assert("inline_message_id"@ != "reply_markup"@);
        assert("parse_mode"@ != "reply_markup"@);
        let fs = self.fields();
        assert(fs.len() == 5);
        assert(fs[0].0 == "chat_id"@);
        assert(fs[1].0 == "message_id"@);
        assert(fs[2].0 == "inline_message_id"@);
        assert(fs[3].0 == "parse_mode"@);
        assert(fs[4].0 == "reply_markup"@);
    }

    /// Decoding what was encoded gives the value back.
    pub proof fn lemma_round_trip(self)
        ensures
            EditMessageReplyMarkupRequestView::decode(self.json()) == Ok::<EditMessageReplyMarkupRequestView, WireFault>(self),
    {
        let fs = self.fields();
        self.lemma_keys_distinct();
        lemma_present_lookup(fs, 0);
        lemma_present_lookup(fs, 1);
        lemma_present_lookup(fs, 2);
        lemma_present_lookup(fs, 3);
        lemma_present_lookup(fs, 4);
        match self.base.parse_mode {
            Some(v) => v.lemma_token_round_trip(),
            None => {},
        }
        let es = present(fs);
        assert(opt_int(es, "chat_id"@) == Ok::<Option<i64>, WireFault>(self.base.chat_id));
        assert(opt_int(es, "message_id"@) == Ok::<Option<i64>, WireFault>(self.base.message_id));
        assert(opt_string(es, "inline_message_id"@) == Ok::<Option<Seq<char>>, WireFault>(self.base.inline_message_id));
        assert(ParseMode::opt_field(es, "parse_mode"@) == Ok::<Option<ParseMode>, WireFault>(self.base.parse_mode));
        assert(opt_string(es, "reply_markup"@) == Ok::<Option<Seq<char>>, WireFault>(self.base.reply_markup));
    }

}

impl EditMessageReplyMarkupRequest {
    /// Writes the fields of this value into `w`, in declared order.
    pub fn write_fields(&self, w: &mut ObjectWriter)
        requires
            old(w).wf(),
        ensures
            final(w).wf(),
            final(w).fields@ == old(w).fields@ + self@.fields(),
    {
        let ghost start = w.fields@;
        self.base.write_fields(w);
        assert(w.fields@ =~= start + self@.fields());
    }

    /// The JSON object that this value is sent as.
    pub fn to_json(&self) -> (r: JsonValue)
        ensures
            r@ == self@.json(),
    {
        let mut w = ObjectWriter::new();
        self.write_fields(&mut w);
        assert(w.fields@ =~= self@.fields());
        w.finish()
    }

    /// Reads a value from the entries of a JSON object.
    pub fn read_entries(es: &Vec<(String, JsonValue)>) -> (r: Result<EditMessageReplyMarkupRequest, WireError>)
        ensures
            rview(r) == EditMessageReplyMarkupRequestView::decode_entries(entries_view(es@)),
    {
        let v_base = match EditMessageBase::read_entries(es) {
            Ok(v) => v,
            Err(e) => return Err(e),
        };
        Ok(EditMessageReplyMarkupRequest { base: v_base })
    }

    /// Reads a value from a JSON document, which must be an object.
    pub fn from_json(j: &JsonValue) -> (r: Result<EditMessageReplyMarkupRequest, WireError>)
        ensures
            rview(r) == EditMessageReplyMarkupRequestView::decode(j@),
    {
        match j {
            JsonValue::Object(es) => EditMessageReplyMarkupRequest::read_entries(es),
            _ => Err(WireError::NotAnObject { owner: "EditMessageReplyMarkupRequest".to_owned(), raw: j.duplicate() }),
        }
    }

}

/// Deletes a message.
#[derive(Debug, Clone, Copy, PartialEq, Eq, Structural)]
pub struct DeleteMessageRequest {
    /// Unique identifier of the target chat.
    pub chat_id: i64,
    /// Identifier of the message to delete.
    pub message_id: i64,
}

impl View for DeleteMessageRequest {
    type V = DeleteMessageRequest;

    open spec fn view(&self) -> DeleteMessageRequest {
        *self
    }
}

impl DeleteMessageRequest {
    /// The fields in declared order, each with what is written for it.
    pub open spec fn fields(self) -> Seq<(Seq<char>, Option<Json>)> {
        seq![
            ("chat_id"@, Some(Json::Int(self.chat_id))),
            ("message_id"@, Some(Json::Int(self.message_id))),
        ]
    }

    pub open spec fn json(self) -> Json {
        Json::Object(present(self.fields()))
    }

    pub open spec fn decode_entries(es: Seq<(Seq<char>, Json)>) -> Result<DeleteMessageRequest, WireFault> {
        let v_chat_id = req_int(es, "chat_id"@, "DeleteMessageRequest"@);
        let v_message_id = req_int(es, "message_id"@, "DeleteMessageRequest"@);
        if v_chat_id is Err {
            Err(v_chat_id->Err_0)
        } else if v_message_id is Err {
            Err(v_message_id->Err_0)
        } else {
            Ok(
                DeleteMessageRequest {
                    chat_id: v_chat_id->Ok_0,
                    message_id: v_message_id->Ok_0,
                },
            )
        }
    }

    pub open spec fn decode(j: Json) -> Result<DeleteMessageRequest, WireFault> {
        match j {
            Json::Object(es) => DeleteMessageRequest::decode_entries(es),
            _ => Err(WireFault::NotAnObject { owner: "DeleteMessageRequest"@, raw: j }),
        }
    }

    /// No two fields of this type share a wire key.
    pub proof fn lemma_keys_distinct(self)
        ensures
            keys_distinct(self.fields()),
    {
        reveal_strlit("chat_id");
        reveal_strlit("message_id");
        assert("chat_id"@.len() == 7);
        assert("message_id"@.len() == 10);
        assert("chat_id"@ != "message_id"@);
        let fs = self.fields();
        assert(fs.len() == 2);
        assert(fs[0].0 == "chat_id"@);
        assert(fs[1].0 == "message_id"@);
    }

    /// Decoding what was encoded gives the value back.
    pub proof fn lemma_round_trip(self)
        ensures
            DeleteMessageRequest::decode(self.json()) == Ok::<DeleteMessageRequest, WireFault>(self),
    {
        let fs = self.fields();
        self.lemma_keys_distinct();
        lemma_present_lookup(fs, 0);
        lemma_present_lookup(fs, 1);
        let es = present(fs);
        assert(req_int(es, "chat_id"@, "DeleteMessageRequest"@) == Ok::<i64, WireFault>(self.chat_id));
        assert(req_int(es, "message_id"@, "DeleteMessageRequest"@) == Ok::<i64, WireFault>(self.message_id));
    }

}

impl DeleteMessageRequest {
    /// Writes the fields of this value into `w`, in declared order.
    pub fn write_fields(&self, w: &mut ObjectWriter)
        requires
            old(w).wf(),
        ensures
            final(w).wf(),
            final(w).fields@ == old(w).fields@ + self@.fields(),
    {
        let ghost start = w.fields@;
        w.put("chat_id", JsonValue::Int(self.chat_id));
        w.put("message_id", JsonValue::Int(self.message_id));
        assert(w.fields@ =~= start + self@.fields());
    }

    /// The JSON object that this value is sent as.
    pub fn to_json(&self) -> (r: JsonValue)
        ensures
            r@ == self@.json(),
    {
        let mut w = ObjectWriter::new();
        self.write_fields(&mut w);
        assert(w.fields@ =~= self@.fields());
        w.finish()
    }

    /// Reads a value from the entries of a JSON object.
    pub fn read_entries(es: &Vec<(String, JsonValue)>) -> (r: Result<DeleteMessageRequest, WireError>)
        ensures
            rview(r) == DeleteMessageRequest::decode_entries(entries_view(es@)),
    {
        let v_chat_id = match read_int(es, "chat_id", "DeleteMessageRequest") {
            Ok(v) => v,
            Err(e) => return Err(e),
        };
        let v_message_id = match read_int(es, "message_id", "DeleteMessageRequest") {
            Ok(v) => v,
            Err(e) => return Err(e),
        };
        Ok(DeleteMessageRequest { chat_id: v_chat_id, message_id: v_message_id })
    }

    /// Reads a value from a JSON document, which must be an object.
    pub fn from_json(j: &JsonValue) -> (r: Result<DeleteMessageRequest, WireError>)
        ensures
            rview(r) == DeleteMessageRequest::decode(j@),
    {
        match j {
            JsonValue::Object(es) => DeleteMessageRequest::read_entries(es),
            _ => Err(WireError::NotAnObject { owner: "DeleteMessageRequest".to_owned(), raw: j.duplicate() }),
        }
    }

}

/// Relies on `rand::random::<i64>`: a value drawn from the thread's generator,
/// of which nothing is promised.
#[verifier::external_body]
fn random_message_id() -> (r: i64) {
    rand::random::<i64>()
}

/// Relies on `chrono::Utc::now` and `DateTime::timestamp`: the clock's current
/// Unix time in seconds, of which nothing is promised.
#[verifier::external_body]
fn unix_time_now() -> (r: i64) {
    chrono::Utc::now().timestamp()
}

impl MessageView {
    /// A message from `from`, in the private chat with `from`, with nothing else
    /// set.
    pub open spec fn from_sender(from: Seq<char>, message_id: i64, date: i64) -> MessageView {
        MessageView {
            message_id,
            message_thread_id: None,
            from: Some(
                UserView {
                    id: 0,
                    is_bot: false,
                    first_name: from,
                    last_name: None,
                    username: Some(from),
                    language_code: None,
                },
            ),
            date,
            text: None,
            photo: None,
            document: None,
            chat: ChatView {
                id: 0,
                chat_type: "private"@,
                title: None,
                username: Some(from),
                first_name: Some(from),
                last_name: None,
                all_members_are_administrators: None,
                is_forum: None,
            },
            forward_from: None,
            forward_from_chat: None,
            forward_from_message_id: None,
            forward_signature: None,
            forward_sender_name: None,
            forward_date: None,
            reply_to_message: None,
            sticker: None,
            forum_topic_created: None,
            reply_markup: None,
        }
    }
}

impl Message {
    /// A message from `from` with the given identifier and date.
    pub fn from_sender(from: &str, message_id: i64, date: i64) -> (r: Message)
        ensures
            r@ == MessageView::from_sender(from@, message_id, date),
    {
        Message {
            message_id,
            message_thread_id: None,
            from: Some(User::from_name(from)),
            date,
            text: None,
            photo: None,
            document: None,
            chat: Chat::from_name(from),
            forward_from: None,
            forward_from_chat: None,
            forward_from_message_id: None,
            forward_signature: None,
            forward_sender_name: None,
            forward_date: None,
            reply_to_message: None,
            sticker: None,
            forum_topic_created: None,
            reply_markup: None,
        }
    }

    /// A message from `from`, with a random identifier and the current time.
    pub fn fake(from: &str) -> (r: Message)
        ensures
            r@ == MessageView::from_sender(from@, r.message_id, r.date),
    {
        let message_id = random_message_id();
        let date = unix_time_now();
        Message::from_sender(from, message_id, date)
    }

    /// A text message from `from`, with a random identifier and the current time.
    pub fn new(from: &str, text: &str) -> (r: Message)
        ensures
            r@ == (MessageView { text: Some(text@), ..MessageView::from_sender(from@, r.message_id, r.date) }),
    {
        let mut message = Message::fake(from);
        message.text = Some(text.to_owned());
        message
    }
}

impl SendMessageRequest {
    /// A plain text message to `chat_id`, with every optional field absent.
    pub fn new(chat_id: i64, text: &str) -> (r: SendMessageRequest)
        ensures
            r@ == (SendMessageRequestView {
                chat_id,
                message_thread_id: None,
                text: text@,
                reply_parameters: None,
                parse_mode: None,
                reply_markup: None,
            }),
    {
        SendMessageRequest {
            chat_id,
            message_thread_id: None,
            text: text.to_owned(),
            reply_parameters: None,
            parse_mode: None,
            reply_markup: None,
        }
    }

    pub fn with_message_thread_id(self, message_thread_id: i64) -> (r: SendMessageRequest)
        ensures
            r@ == (SendMessageRequestView { message_thread_id: Some(message_thread_id), ..self@ }),
    {
        let mut r = self;
        r.message_thread_id = Some(message_thread_id);
        r
    }

    pub fn with_reply_markup(self, reply_markup: ReplyMarkup) -> (r: SendMessageRequest)
        ensures
            r@ == (SendMessageRequestView { reply_markup: Some(reply_markup@), ..self@ }),
    {
        let mut r = self;
        r.reply_markup = Some(reply_markup);
        r
    }

    pub fn with_parse_mode(self, parse_mode: ParseMode) -> (r: SendMessageRequest)
        ensures
            r@ == (SendMessageRequestView { parse_mode: Some(parse_mode), ..self@ }),
    {
        let mut r = self;
        r.parse_mode = Some(parse_mode);
        r
    }

    /// A message to `chat_id` that also takes the custom keyboard away.
    pub fn remove_reply_keyboard(chat_id: i64, text: &str) -> (r: SendMessageRequest)
        ensures
            r@ == (SendMessageRequestView {
                chat_id,
                message_thread_id: None,
                text: text@,
                reply_parameters: None,
                parse_mode: None,
                reply_markup: Some(
                    ReplyMarkupView { entries: seq![("remove_keyboard"@, Json::Bool(true))] },
                ),
            }),
    {
        SendMessageRequest::new(chat_id, text).with_reply_markup(ReplyMarkup::reply_keyboard_remove())
    }
}

impl EditMessageBaseView {
    /// A base with every field absent.
    pub open spec fn empty() -> EditMessageBaseView {
        EditMessageBaseView {
            chat_id: None,
            message_id: None,
            inline_message_id: None,
            parse_mode: None,
            reply_markup: None,
        }
    }
}

impl EditMessageBase {
    /// A base with every field absent.
    pub fn new() -> (r: EditMessageBase)
        ensures
            r@ == EditMessageBaseView::empty(),
    {
        EditMessageBase {
            chat_id: None,
            message_id: None,
            inline_message_id: None,
            parse_mode: None,
            reply_markup: None,
        }
    }

    pub fn with_chat_id(self, chat_id: i64) -> (r: EditMessageBase)
        ensures
            r@ == (EditMessageBaseView { chat_id: Some(chat_id), ..self@ }),
    {
        let mut r = self;
        r.chat_id = Some(chat_id);
        r
    }

    pub fn with_message_id(self, message_id: i64) -> (r: EditMessageBase)
        ensures
            r@ == (EditMessageBaseView { message_id: Some(message_id), ..self@ }),
    {
        let mut r = self;
        r.message_id = Some(message_id);
        r
    }

    pub fn with_parse_mode(self, parse_mode: ParseMode) -> (r: EditMessageBase)
        ensures
            r@ == (EditMessageBaseView { parse_mode: Some(parse_mode), ..self@ }),
    {
        let mut r = self;
        r.parse_mode = Some(parse_mode);
        r
    }

    /// Sets the reply markup, given as its JSON text.
    pub fn with_reply_markup(self, reply_markup: String) -> (r: EditMessageBase)
        ensures
            r@ == (EditMessageBaseView { reply_markup: Some(reply_markup@), ..self@ }),
    {
        let mut r = self;
        r.reply_markup = Some(reply_markup);
        r
    }
}

impl EditMessageTextRequest {
    pub fn new(text: String) -> (r: EditMessageTextRequest)
        ensures
            r@ == (EditMessageTextRequestView { base: EditMessageBaseView::empty(), text: text@ }),
    {
        EditMessageTextRequest { base: EditMessageBase::new(), text }
    }

    pub fn with_chat_id(self, chat_id: i64) -> (r: EditMessageTextRequest)
        ensures
            r@ == (EditMessageTextRequestView {
                base: EditMessageBaseView { chat_id: Some(chat_id), ..self@.base },
                ..self@
            }),
    {
        let mut r = self;
        r.base.chat_id = Some(chat_id);
        r
    }

    pub fn with_message_id(self, message_id: i64) -> (r: EditMessageTextRequest)
        ensures
            r@ == (EditMessageTextRequestView {
                base: EditMessageBaseView { message_id: Some(message_id), ..self@.base },
                ..self@
            }),
    {
        let mut r = self;
        r.base.message_id = Some(message_id);
        r
    }
}

impl EditMessageCaptionRequest {
    pub fn new(caption: String) -> (r: EditMessageCaptionRequest)
        ensures
            r@ == (EditMessageCaptionRequestView { base: EditMessageBaseView::empty(), caption: caption@ }),
    {
        EditMessageCaptionRequest { base: EditMessageBase::new(), caption }
    }

    pub fn with_chat_id(self, chat_id: i64) -> (r: EditMessageCaptionRequest)
        ensures
            r@ == (EditMessageCaptionRequestView {
                base: EditMessageBaseView { chat_id: Some(chat_id), ..self@.base },
                ..self@
            }),
    {
        let mut r = self;
        r.base.chat_id = Some(chat_id);
        r
    }
}

impl EditMessageReplyMarkupRequest {
    /// An edit that replaces the reply markup, given as its JSON text.
    pub fn new(reply_markup: String) -> (r: EditMessageReplyMarkupRequest)
        ensures
            r@ == (EditMessageReplyMarkupRequestView {
                base: EditMessageBaseView {
                    reply_markup: Some(reply_markup@),
                    ..EditMessageBaseView::empty()
                },
            }),
    {
        EditMessageReplyMarkupRequest { base: EditMessageBase::new().with_reply_markup(reply_markup) }
    }

    pub fn with_chat_id(self, chat_id: i64) -> (r: EditMessageReplyMarkupRequest)
        ensures
            r@ == (EditMessageReplyMarkupRequestView {
                base: EditMessageBaseView { chat_id: Some(chat_id), ..self@.base },
            }),
    {
        let mut r = self;
        r.base.chat_id = Some(chat_id);
        r
    }

    pub fn with_message_id(self, message_id: i64) -> (r: EditMessageReplyMarkupRequest)
        ensures
            r@ == (EditMessageReplyMarkupRequestView {
                base: EditMessageBaseView { message_id: Some(message_id), ..self@.base },
            }),
    {
        let mut r = self;
        r.base.message_id = Some(message_id);
        r
    }
}

impl DeleteMessageRequest {
    pub fn new(chat_id: i64, message_id: i64) -> (r: DeleteMessageRequest)
        ensures
            r == (DeleteMessageRequest { chat_id, message_id }),
    {
        DeleteMessageRequest { chat_id, message_id }
    }
}

} // verus!
