use vstd::prelude::*;

use crate::json::{
    bool_field, bool_value, entries_view, find_key, int_field, int_value, keys_distinct,
    lemma_present_lookup, lookup, nest_error, nested_fault, opt_bool, opt_int, opt_str,
    opt_str_list, opt_string, opt_strings, present, read_bool, read_int, read_opt_bool,
    read_opt_int, read_opt_str, read_opt_str_list, read_str, req_bool, req_int, req_str, required,
    rview, str_field, str_value, Json, JsonValue, ObjectWriter, WireError, WireFault,
};
use crate::chat_id::{ChatId, ChatIdView};
use crate::user::{User, UserView};

verus! {

/// What a bot tells a chat that it is doing.
#[derive(Debug, Clone, Copy, PartialEq, Eq, Structural)]
pub enum ChatAction {
    Typing,
    UploadPhoto,
    RecordVideo,
    UploadVideo,
    RecordAudio,
    UploadAudio,
    UploadDocument,
    FindLocation,
    RecordVideoNote,
    UploadVideoNote,
}

impl View for ChatAction {
    type V = ChatAction;

    open spec fn view(&self) -> ChatAction {
        *self
    }
}

impl ChatAction {
    /// The token that stands for the action on the wire.
    pub open spec fn token(self) -> Seq<char> {
        match self {
            ChatAction::Typing => "typing"@,
            ChatAction::UploadPhoto => "upload_photo"@,
            ChatAction::RecordVideo => "record_video"@,
            ChatAction::UploadVideo => "upload_video"@,
            ChatAction::RecordAudio => "record_audio"@,
            ChatAction::UploadAudio => "upload_audio"@,
            ChatAction::UploadDocument => "upload_document"@,
            ChatAction::FindLocation => "find_location"@,
            ChatAction::RecordVideoNote => "record_video_note"@,
            ChatAction::UploadVideoNote => "upload_video_note"@,
        }
    }

    /// The action whose token is `t`, if any.
    pub open spec fn from_token(t: Seq<char>) -> Option<ChatAction> {
        if t == "typing"@ {
            Some(ChatAction::Typing)
        } else if t == "upload_photo"@ {
            Some(ChatAction::UploadPhoto)
        } else if t == "record_video"@ {
            Some(ChatAction::RecordVideo)
        } else if t == "upload_video"@ {
            Some(ChatAction::UploadVideo)
        } else if t == "record_audio"@ {
            Some(ChatAction::RecordAudio)
        } else if t == "upload_audio"@ {
            Some(ChatAction::UploadAudio)
        } else if t == "upload_document"@ {
            Some(ChatAction::UploadDocument)
        } else if t == "find_location"@ {
            Some(ChatAction::FindLocation)
        } else if t == "record_video_note"@ {
            Some(ChatAction::RecordVideoNote)
        } else if t == "upload_video_note"@ {
            Some(ChatAction::UploadVideoNote)
        } else {
            None
        }
    }

    pub open spec fn json(self) -> Json {
        Json::Str(self.token())
    }

    /// The action that a JSON value names: a string holding one of the tokens.
    pub open spec fn parse(j: Json) -> Option<ChatAction> {
        match j {
            Json::Str(t) => ChatAction::from_token(t),
            _ => None,
        }
    }

    pub open spec fn req_field(es: Seq<(Seq<char>, Json)>, key: Seq<char>, owner: Seq<char>) -> Result<
        ChatAction,
        WireFault,
    > {
        required(es, key, owner, |j: Json| ChatAction::parse(j))
    }

    pub fn to_wire(&self) -> (r: String)
        ensures
            r@ == self.token(),
    {
        match self {
            ChatAction::Typing => "typing".to_owned(),
            ChatAction::UploadPhoto => "upload_photo".to_owned(),
            ChatAction::RecordVideo => "record_video".to_owned(),
            ChatAction::UploadVideo => "upload_video".to_owned(),
            ChatAction::RecordAudio => "record_audio".to_owned(),
            ChatAction::UploadAudio => "upload_audio".to_owned(),
            ChatAction::UploadDocument => "upload_document".to_owned(),
            ChatAction::FindLocation => "find_location".to_owned(),
            ChatAction::RecordVideoNote => "record_video_note".to_owned(),
            ChatAction::UploadVideoNote => "upload_video_note".to_owned(),
        }
    }

    pub fn from_wire(t: &String) -> (r: Option<ChatAction>)
        ensures
            r == ChatAction::from_token(t@),
    {
        if *t == "typing".to_owned() {
            Some(ChatAction::Typing)
        } else if *t == "upload_photo".to_owned() {
            Some(ChatAction::UploadPhoto)
        } else if *t == "record_video".to_owned() {
            Some(ChatAction::RecordVideo)
        } else if *t == "upload_video".to_owned() {
            Some(ChatAction::UploadVideo)
        } else if *t == "record_audio".to_owned() {
            Some(ChatAction::RecordAudio)
        } else if *t == "upload_audio".to_owned() {
            Some(ChatAction::UploadAudio)
        } else if *t == "upload_document".to_owned() {
            Some(ChatAction::UploadDocument)
        } else if *t == "find_location".to_owned() {
            Some(ChatAction::FindLocation)
        } else if *t == "record_video_note".to_owned() {
            Some(ChatAction::RecordVideoNote)
        } else if *t == "upload_video_note".to_owned() {
            Some(ChatAction::UploadVideoNote)
        } else {
            None
        }
    }

    pub fn to_json(&self) -> (r: JsonValue)
        ensures
            r@ == self.json(),
    {
        JsonValue::Str(self.to_wire())
    }

    /// Reads the required action stored under `key`.
    pub fn read_field(entries: &Vec<(String, JsonValue)>, key: &str, owner: &str) -> (r: Result<
        ChatAction,
        WireError,
    >)
        ensures
            rview(r) == ChatAction::req_field(entries_view(entries@), key@, owner@),
    {
        match find_key(entries, key) {
            None => Err(
                WireError::MissingField { owner: owner.to_owned(), field: key.to_owned() },
            ),
            Some(i) => {
                let v = &entries[i].1;
                let parsed = match v {
                    JsonValue::Str(t) => ChatAction::from_wire(t),
                    _ => None,
                };
                match parsed {
                    Some(a) => Ok(a),
                    None => Err(WireError::InvalidValue { field: key.to_owned(), raw: v.duplicate() }),
                }
            },
        }
    }

    /// Each action is read back from its own token.
    pub proof fn lemma_token_round_trip(self)
        ensures
            ChatAction::from_token(self.token()) == Some(self),
            ChatAction::parse(self.json()) == Some(self),
    {
        reveal_strlit("typing");
        reveal_strlit("upload_photo");
        reveal_strlit("record_video");
        reveal_strlit("upload_video");
        reveal_strlit("record_audio");
        reveal_strlit("upload_audio");
        reveal_strlit("upload_document");
        reveal_strlit("find_location");
        reveal_strlit("record_video_note");
        reveal_strlit("upload_video_note");
        assert("typing"@.len() == 6);
        assert("upload_photo"@.len() == 12);
        assert("record_video"@.len() == 12);
        assert("upload_video"@.len() == 12);
        assert("record_audio"@.len() == 12);
        assert("upload_audio"@.len() == 12);
        assert("upload_document"@.len() == 15);
        assert("find_location"@.len() == 13);
        assert("record_video_note"@.len() == 17);
        assert("upload_video_note"@.len() == 17);
        assert("upload_photo"@[0] == 'u');
        assert("record_video"@[0] == 'r');
        assert("upload_photo"@[7] == 'p');
        assert("upload_video"@[7] == 'v');
        assert("record_audio"@[0] == 'r');
        assert("upload_audio"@[7] == 'a');
        assert("upload_video"@[0] == 'u');
        assert("record_video"@[7] == 'v');
        assert("record_audio"@[7] == 'a');
        assert("upload_audio"@[0] == 'u');
        assert("record_video_note"@[0] == 'r');
        assert("upload_video_note"@[0] == 'u');
    }
}

/// A chat, as it appears inside messages.
#[derive(Debug, Clone, PartialEq)]
pub struct Chat {
    /// Unique identifier of the chat; it fits in 52 bits.
    pub id: i64,
    /// Kind of chat: "private", "group", "supergroup" or "channel". On the wire its key is `type`.
    pub chat_type: String,
    /// Title, for supergroups, channels and group chats.
    pub title: Option<String>,
    /// Username, where one is available.
    pub username: Option<String>,
    /// First name of the other party in a private chat.
    pub first_name: Option<String>,
    /// Last name of the other party in a private chat.
    pub last_name: Option<String>,
    /// True if a group has 'All Members Are Admins' enabled.
    pub all_members_are_administrators: Option<bool>,
    /// True if the supergroup is a forum.
    pub is_forum: Option<bool>,
}

/// The model of [`Chat`].
pub struct ChatView {
    pub id: i64,
    pub chat_type: Seq<char>,
    pub title: Option<Seq<char>>,
    pub username: Option<Seq<char>>,
    pub first_name: Option<Seq<char>>,
    pub last_name: Option<Seq<char>>,
    pub all_members_are_administrators: Option<bool>,
    pub is_forum: Option<bool>,
}

impl View for Chat {
    type V = ChatView;

    open spec fn view(&self) -> ChatView {
        ChatView {
            id: self.id,
            chat_type: self.chat_type@,
            title: opt_str(self.title),
            username: opt_str(self.username),
            first_name: opt_str(self.first_name),
            last_name: opt_str(self.last_name),
            all_members_are_administrators: self.all_members_are_administrators,
            is_forum: self.is_forum,
        }
    }
}

impl ChatView {
    pub open spec fn decode_entries(es: Seq<(Seq<char>, Json)>) -> Result<ChatView, WireFault> {
        let v_id = req_int(es, "id"@, "Chat"@);
        let v_chat_type = req_str(es, "type"@, "Chat"@);
        let v_title = opt_string(es, "title"@);
        let v_username = opt_string(es, "username"@);
        let v_first_name = opt_string(es, "first_name"@);
        let v_last_name = opt_string(es, "last_name"@);
        let v_all_members_are_administrators = opt_bool(es, "all_members_are_administrators"@);
        let v_is_forum = opt_bool(es, "is_forum"@);
        if v_id is Err {
            Err(v_id->Err_0)
        } else if v_chat_type is Err {
            Err(v_chat_type->Err_0)
        } else if v_title is Err {
            Err(v_title->Err_0)
        } else if v_username is Err {
            Err(v_username->Err_0)
        } else if v_first_name is Err {
            Err(v_first_name->Err_0)
        } else if v_last_name is Err {
            Err(v_last_name->Err_0)
        } else if v_all_members_are_administrators is Err {
            Err(v_all_members_are_administrators->Err_0)
        } else if v_is_forum is Err {
            Err(v_is_forum->Err_0)
        } else {
            Ok(
                ChatView {
                    id: v_id->Ok_0,
                    chat_type: v_chat_type->Ok_0,
                    title: v_title->Ok_0,
                    username: v_username->Ok_0,
                    first_name: v_first_name->Ok_0,
                    last_name: v_last_name->Ok_0,
                    all_members_are_administrators: v_all_members_are_administrators->Ok_0,
                    is_forum: v_is_forum->Ok_0,
                },
            )
        }
    }

    pub open spec fn decode(j: Json) -> Result<ChatView, WireFault> {
        match j {
            Json::Object(es) => ChatView::decode_entries(es),
            _ => Err(WireFault::NotAnObject { owner: "Chat"@, raw: j }),
        }
    }

    pub open spec fn req_field(es: Seq<(Seq<char>, Json)>, key: Seq<char>, owner: Seq<char>) -> Result<ChatView, WireFault> {
        match lookup(es, key) {
            None => Err(WireFault::MissingField { owner, field: key }),
            Some(v) => match ChatView::decode(v) {
                Ok(x) => Ok(x),
                Err(e) => Err(nested_fault(key, e)),
            },
        }
    }

    pub open spec fn opt_field(es: Seq<(Seq<char>, Json)>, key: Seq<char>) -> Result<Option<ChatView>, WireFault> {
        match lookup(es, key) {
            None => Ok(None),
            Some(Json::Null) => Ok(None),
            Some(v) => match ChatView::decode(v) {
                Ok(x) => Ok(Some(x)),
                Err(e) => Err(nested_fault(key, e)),
            },
        }
    }

}

impl Chat {
    /// Reads a value from the entries of a JSON object.
    pub fn read_entries(es: &Vec<(String, JsonValue)>) -> (r: Result<Chat, WireError>)
        ensures
            rview(r) == ChatView::decode_entries(entries_view(es@)),
    {
        let v_id = match read_int(es, "id", "Chat") {
            Ok(v) => v,
            Err(e) => return Err(e),
        };
        let v_chat_type = match read_str(es, "type", "Chat") {
            Ok(v) => v,
            Err(e) => return Err(e),
        };
        let v_title = match read_opt_str(es, "title") {
            Ok(v) => v,
            Err(e) => return Err(e),
        };
        let v_username = match read_opt_str(es, "username") {
            Ok(v) => v,
            Err(e) => return Err(e),
        };
        let v_first_name = match read_opt_str(es, "first_name") {
            Ok(v) => v,
            Err(e) => return Err(e),
        };
        let v_last_name = match read_opt_str(es, "last_name") {
            Ok(v) => v,
            Err(e) => return Err(e),
        };
        let v_all_members_are_administrators = match read_opt_bool(es, "all_members_are_administrators") {
            Ok(v) => v,
            Err(e) => return Err(e),
        };
        let v_is_forum = match read_opt_bool(es, "is_forum") {
            Ok(v) => v,
            Err(e) => return Err(e),
        };
        Ok(Chat { id: v_id, chat_type: v_chat_type, title: v_title, username: v_username, first_name: v_first_name, last_name: v_last_name, all_members_are_administrators: v_all_members_are_administrators, is_forum: v_is_forum })
    }

    /// Reads a value from a JSON document, which must be an object.
    pub fn from_json(j: &JsonValue) -> (r: Result<Chat, WireError>)
        ensures
            rview(r) == ChatView::decode(j@),
    {
        match j {
            JsonValue::Object(es) => Chat::read_entries(es),
            _ => Err(WireError::NotAnObject { owner: "Chat".to_owned(), raw: j.duplicate() }),
        }
    }

    /// Reads the required field `key`.
    pub fn read_field(es: &Vec<(String, JsonValue)>, key: &str, owner: &str) -> (r: Result<Chat, WireError>)
        ensures
            rview(r) == ChatView::req_field(entries_view(es@), key@, owner@),
    {
        match find_key(es, key) {
            None => Err(WireError::MissingField { owner: owner.to_owned(), field: key.to_owned() }),
            Some(i) => match Chat::from_json(&es[i].1) {
                Ok(v) => Ok(v),
                Err(e) => Err(nest_error(key, e)),
            },
        }
    }

    /// Reads the optional field `key`.
    pub fn read_opt_field(es: &Vec<(String, JsonValue)>, key: &str) -> (r: Result<Option<Chat>, WireError>)
        ensures
            match r {
                Ok(v) => ChatView::opt_field(entries_view(es@), key@) == Ok::<Option<ChatView>, WireFault>(match v {
                    Some(x) => Some(x@),
                    None => None,
                }),
                Err(e) => ChatView::opt_field(entries_view(es@), key@) == Err::<Option<ChatView>, WireFault>(e@),
            },
    {
        match find_key(es, key) {
            None => Ok(None),
            Some(i) => match &es[i].1 {
                JsonValue::Null => Ok(None),
                other => match Chat::from_json(other) {
                    Ok(v) => Ok(Some(v)),
                    Err(e) => Err(nest_error(key, e)),
                },
            },
        }
    }

}

/// Tells a chat that the bot is doing something.
#[derive(Debug, Clone, Copy, PartialEq, Eq, Structural)]
pub struct SendChatActionRequest {
    /// Unique identifier of the target chat.
    pub chat_id: i64,
    /// Unique identifier of the target message thread.
    pub message_thread_id: Option<i64>,
    /// The action to broadcast.
    pub action: ChatAction,
}

impl View for SendChatActionRequest {
    type V = SendChatActionRequest;

    open spec fn view(&self) -> SendChatActionRequest {
        *self
    }
}

impl SendChatActionRequest {
    /// The fields in declared order, each with what is written for it.
    pub open spec fn fields(self) -> Seq<(Seq<char>, Option<Json>)> {
        seq![
            ("chat_id"@, Some(Json::Int(self.chat_id))),
            ("message_thread_id"@, int_field(self.message_thread_id)),
            ("action"@, Some(self.action.json())),
        ]
    }

    pub open spec fn json(self) -> Json {
        Json::Object(present(self.fields()))
    }

    pub open spec fn decode_entries(es: Seq<(Seq<char>, Json)>) -> Result<SendChatActionRequest, WireFault> {
        let v_chat_id = req_int(es, "chat_id"@, "SendChatActionRequest"@);
        let v_message_thread_id = opt_int(es, "message_thread_id"@);
        let v_action = ChatAction::req_field(es, "action"@, "SendChatActionRequest"@);
        if v_chat_id is Err {
            Err(v_chat_id->Err_0)
        } else if v_message_thread_id is Err {
            Err(v_message_thread_id->Err_0)
        } else if v_action is Err {
            Err(v_action->Err_0)
        } else {
            Ok(
                SendChatActionRequest {
                    chat_id: v_chat_id->Ok_0,
                    message_thread_id: v_message_thread_id->Ok_0,
                    action: v_action->Ok_0,
                },
            )
        }
    }

    pub open spec fn decode(j: Json) -> Result<SendChatActionRequest, WireFault> {
        match j {
            Json::Object(es) => SendChatActionRequest::decode_entries(es),
            _ => Err(WireFault::NotAnObject { owner: "SendChatActionRequest"@, raw: j }),
        }
    }

    /// No two fields of this type share a wire key.
    pub proof fn lemma_keys_distinct(self)
        ensures
            keys_distinct(self.fields()),
    {
        reveal_strlit("chat_id");
        reveal_strlit("message_thread_id");
        reveal_strlit("action");
        assert("chat_id"@.len() == 7);
        assert("message_thread_id"@.len() == 17);
        assert("action"@.len() == 6);
        assert("chat_id"@ != "message_thread_id"@);
        assert("chat_id"@ != "action"@);
        assert("message_thread_id"@ != "action"@);
        let fs = self.fields();
        assert(fs.len() == 3);
        assert(fs[0].0 == "chat_id"@);
        assert(fs[1].0 == "message_thread_id"@);
        assert(fs[2].0 == "action"@);
    }

    /// Decoding what was encoded gives the value back.
    pub proof fn lemma_round_trip(self)
        ensures
            SendChatActionRequest::decode(self.json()) == Ok::<SendChatActionRequest, WireFault>(self),
    {
        let fs = self.fields();
        self.lemma_keys_distinct();
        lemma_present_lookup(fs, 0);
        lemma_present_lookup(fs, 1);
        lemma_present_lookup(fs, 2);
        self.action.lemma_token_round_trip();
        let es = present(fs);
        assert(req_int(es, "chat_id"@, "SendChatActionRequest"@) == Ok::<i64, WireFault>(self.chat_id));
        assert(opt_int(es, "message_thread_id"@) == Ok::<Option<i64>, WireFault>(self.message_thread_id));
        assert(ChatAction::req_field(es, "action"@, "SendChatActionRequest"@) == Ok::<ChatAction, WireFault>(self.action));
    }

}

impl SendChatActionRequest {
    /// Writes the fields of this value into `w`, in declared order.
    pub fn write_fields(&self, w: &mut ObjectWriter)
        requires
            old(w).wf(),
        ensures
            final(w).wf(),
            final(w).fields@ == old(w).fields@ + self@.fields(),
    {
        let ghost start = w.fields@;
        w.put("chat_id", JsonValue::Int(self.chat_id));
        w.field("message_thread_id", int_value(self.message_thread_id));
        w.put("action", self.action.to_json());
        assert(w.fields@ =~= start + self@.fields());
    }

    /// The JSON object that this value is sent as.
    pub fn to_json(&self) -> (r: JsonValue)
        ensures
            r@ == self@.json(),
    {
        let mut w = ObjectWriter::new();
        self.write_fields(&mut w);
        assert(w.fields@ =~= self@.fields());
        w.finish()
    }

    /// Reads a value from the entries of a JSON object.
    pub fn read_entries(es: &Vec<(String, JsonValue)>) -> (r: Result<SendChatActionRequest, WireError>)
        ensures
            rview(r) == SendChatActionRequest::decode_entries(entries_view(es@)),
    {
        let v_chat_id = match read_int(es, "chat_id", "SendChatActionRequest") {
            Ok(v) => v,
            Err(e) => return Err(e),
        };
        let v_message_thread_id = match read_opt_int(es, "message_thread_id") {
            Ok(v) => v,
            Err(e) => return Err(e),
        };
        let v_action = match ChatAction::read_field(es, "action", "SendChatActionRequest") {
            Ok(v) => v,
            Err(e) => return Err(e),
        };
        Ok(SendChatActionRequest { chat_id: v_chat_id, message_thread_id: v_message_thread_id, action: v_action })
    }

    /// Reads a value from a JSON document, which must be an object.
    pub fn from_json(j: &JsonValue) -> (r: Result<SendChatActionRequest, WireError>)
        ensures
            rview(r) == SendChatActionRequest::decode(j@),
    {
        match j {
            JsonValue::Object(es) => SendChatActionRequest::read_entries(es),
            _ => Err(WireError::NotAnObject { owner: "SendChatActionRequest".to_owned(), raw: j.duplicate() }),
        }
    }

}

/// What members of a chat may do; an absent entry is left as it is.
#[derive(Debug, Clone, Copy, PartialEq, Eq, Structural)]
pub struct ChatPermissions {
    pub can_send_messages: Option<bool>,
    pub can_send_audios: Option<bool>,
    pub can_send_documents: Option<bool>,
    pub can_send_photos: Option<bool>,
    pub can_send_videos: Option<bool>,
    pub can_send_video_notes: Option<bool>,
    pub can_send_voice_notes: Option<bool>,
    pub can_send_polls: Option<bool>,
    pub can_send_other_messages: Option<bool>,
    pub can_add_web_page_previews: Option<bool>,
    pub can_change_info: Option<bool>,
    pub can_invite_users: Option<bool>,
    pub can_pin_messages: Option<bool>,
    pub can_manage_topics: Option<bool>,
}

impl View for ChatPermissions {
    type V = ChatPermissions;

    open spec fn view(&self) -> ChatPermissions {
        *self
    }
}

impl ChatPermissions {
    /// The fields in declared order, each with what is written for it.
    pub open spec fn fields(self) -> Seq<(Seq<char>, Option<Json>)> {
        seq![
            ("can_send_messages"@, bool_field(self.can_send_messages)),
            ("can_send_audios"@, bool_field(self.can_send_audios)),
            ("can_send_documents"@, bool_field(self.can_send_documents)),
            ("can_send_photos"@, bool_field(self.can_send_photos)),
            ("can_send_videos"@, bool_field(self.can_send_videos)),
            ("can_send_video_notes"@, bool_field(self.can_send_video_notes)),
            ("can_send_voice_notes"@, bool_field(self.can_send_voice_notes)),
            ("can_send_polls"@, bool_field(self.can_send_polls)),
            ("can_send_other_messages"@, bool_field(self.can_send_other_messages)),
            ("can_add_web_page_previews"@, bool_field(self.can_add_web_page_previews)),
            ("can_change_info"@, bool_field(self.can_change_info)),
            ("can_invite_users"@, bool_field(self.can_invite_users)),
            ("can_pin_messages"@, bool_field(self.can_pin_messages)),
            ("can_manage_topics"@, bool_field(self.can_manage_topics)),
        ]
    }

    pub open spec fn json(self) -> Json {
        Json::Object(present(self.fields()))
    }

    pub open spec fn decode_entries(es: Seq<(Seq<char>, Json)>) -> Result<ChatPermissions, WireFault> {
        let v_can_send_messages = opt_bool(es, "can_send_messages"@);
        let v_can_send_audios = opt_bool(es, "can_send_audios"@);
        let v_can_send_documents = opt_bool(es, "can_send_documents"@);
        let v_can_send_photos = opt_bool(es, "can_send_photos"@);
        let v_can_send_videos = opt_bool(es, "can_send_videos"@);
        let v_can_send_video_notes = opt_bool(es, "can_send_video_notes"@);
        let v_can_send_voice_notes = opt_bool(es, "can_send_voice_notes"@);
        let v_can_send_polls = opt_bool(es, "can_send_polls"@);
        let v_can_send_other_messages = opt_bool(es, "can_send_other_messages"@);
        let v_can_add_web_page_previews = opt_bool(es, "can_add_web_page_previews"@);
        let v_can_change_info = opt_bool(es, "can_change_info"@);
        let v_can_invite_users = opt_bool(es, "can_invite_users"@);
        let v_can_pin_messages = opt_bool(es, "can_pin_messages"@);
        let v_can_manage_topics = opt_bool(es, "can_manage_topics"@);
        if v_can_send_messages is Err {
            Err(v_can_send_messages->Err_0)
        } else if v_can_send_audios is Err {
            Err(v_can_send_audios->Err_0)
        } else if v_can_send_documents is Err {
            Err(v_can_send_documents->Err_0)
        } else if v_can_send_photos is Err {
            Err(v_can_send_photos->Err_0)
        } else if v_can_send_videos is Err {
            Err(v_can_send_videos->Err_0)
        } else if v_can_send_video_notes is Err {
            Err(v_can_send_video_notes->Err_0)
        } else if v_can_send_voice_notes is Err {
            Err(v_can_send_voice_notes->Err_0)
        } else if v_can_send_polls is Err {
            Err(v_can_send_polls->Err_0)
        } else if v_can_send_other_messages is Err {
            Err(v_can_send_other_messages->Err_0)
        } else if v_can_add_web_page_previews is Err {
            Err(v_can_add_web_page_previews->Err_0)
        } else if v_can_change_info is Err {
            Err(v_can_change_info->Err_0)
        } else if v_can_invite_users is Err {
            Err(v_can_invite_users->Err_0)
        } else if v_can_pin_messages is Err {
            Err(v_can_pin_messages->Err_0)
        } else if v_can_manage_topics is Err {
            Err(v_can_manage_topics->Err_0)
        } else {
            Ok(
                ChatPermissions {
                    can_send_messages: v_can_send_messages->Ok_0,
                    can_send_audios: v_can_send_audios->Ok_0,
                    can_send_documents: v_can_send_documents->Ok_0,
                    can_send_photos: v_can_send_photos->Ok_0,
                    can_send_videos: v_can_send_videos->Ok_0,
                    can_send_video_notes: v_can_send_video_notes->Ok_0,
                    can_send_voice_notes: v_can_send_voice_notes->Ok_0,
                    can_send_polls: v_can_send_polls->Ok_0,
                    can_send_other_messages: v_can_send_other_messages->Ok_0,
                    can_add_web_page_previews: v_can_add_web_page_previews->Ok_0,
                    can_change_info: v_can_change_info->Ok_0,
                    can_invite_users: v_can_invite_users->Ok_0,
                    can_pin_messages: v_can_pin_messages->Ok_0,
                    can_manage_topics: v_can_manage_topics->Ok_0,
                },
            )
        }
    }

    pub open spec fn decode(j: Json) -> Result<ChatPermissions, WireFault> {
        match j {
            Json::Object(es) => ChatPermissions::decode_entries(es),
            _ => Err(WireFault::NotAnObject { owner: "ChatPermissions"@, raw: j }),
        }
    }

    pub open spec fn req_field(es: Seq<(Seq<char>, Json)>, key: Seq<char>, owner: Seq<char>) -> Result<ChatPermissions, WireFault> {
        match lookup(es, key) {
            None => Err(WireFault::MissingField { owner, field: key }),
            Some(v) => match ChatPermissions::decode(v) {
                Ok(x) => Ok(x),
                Err(e) => Err(nested_fault(key, e)),
            },
        }
    }

    /// No two fields of this type share a wire key.
    pub proof fn lemma_keys_distinct(self)
        ensures
            keys_distinct(self.fields()),
    {
        reveal_strlit("can_send_messages");
        reveal_strlit("can_send_audios");
        reveal_strlit("can_send_documents");
        reveal_strlit("can_send_photos");
        reveal_strlit("can_send_videos");
        reveal_strlit("can_send_video_notes");
        reveal_strlit("can_send_voice_notes");
        reveal_strlit("can_send_polls");
        reveal_strlit("can_send_other_messages");
        reveal_strlit("can_add_web_page_previews");
        reveal_strlit("can_change_info");
        reveal_strlit("can_invite_users");
        reveal_strlit("can_pin_messages");
        reveal_strlit("can_manage_topics");
        assert("can_send_messages"@.len() == 17);
        assert("can_send_audios"@.len() == 15);
        assert("can_send_documents"@.len() == 18);
        assert("can_send_photos"@.len() == 15);
        assert("can_send_videos"@.len() == 15);
        assert("can_send_video_notes"@.len() == 20);
        assert("can_send_voice_notes"@.len() == 20);
        assert("can_send_polls"@.len() == 14);
        assert("can_send_other_messages"@.len() == 23);
        assert("can_add_web_page_previews"@.len() == 25);
        assert("can_change_info"@.len() == 15);
        assert("can_invite_users"@.len() == 16);
        assert("can_pin_messages"@.len() == 16);
        assert("can_manage_topics"@.len() == 17);
        assert("can_send_messages"@[4] == 's');
        assert("can_manage_topics"@[4] == 'm');
        assert("can_send_audios"@[9] == 'a');
        assert("can_send_photos"@[9] == 'p');
        assert("can_send_videos"@[9] == 'v');
        assert("can_send_audios"@[4] == 's');
        assert("can_change_info"@[4] == 'c');
        assert("can_send_photos"@[4] == 's');
        assert("can_send_videos"@[4] == 's');
        assert("can_send_video_notes"@[10] == 'i');
        assert("can_send_voice_notes"@[10] == 'o');
        assert("can_invite_users"@[4] == 'i');
        assert("can_pin_messages"@[4] == 'p');
        assert("can_send_messages"@ != "can_send_audios"@);
        assert("can_send_messages"@ != "can_send_documents"@);
        assert("can_send_messages"@ != "can_send_photos"@);
        assert("can_send_messages"@ != "can_send_videos"@);
        assert("can_send_messages"@ != "can_send_video_notes"@);
        assert("can_send_messages"@ != "can_send_voice_notes"@);
        assert("can_send_messages"@ != "can_send_polls"@);
        assert("can_send_messages"@ != "can_send_other_messages"@);
        assert("can_send_messages"@ != "can_add_web_page_previews"@);
        assert("can_send_messages"@ != "can_change_info"@);
        assert("can_send_messages"@ != "can_invite_users"@);
        assert("can_send_messages"@ != "can_pin_messages"@);
        assert("can_send_messages"@ != "can_manage_topics"@);
        assert("can_send_audios"@ != "can_send_documents"@);
        assert("can_send_audios"@ != "can_send_photos"@);
        assert("can_send_audios"@ != "can_send_videos"@);
        assert("can_send_audios"@ != "can_send_video_notes"@);
        assert("can_send_audios"@ != "can_send_voice_notes"@);
        assert("can_send_audios"@ != "can_send_polls"@);
        assert("can_send_audios"@ != "can_send_other_messages"@);
        assert("can_send_audios"@ != "can_add_web_page_previews"@);
        assert("can_send_audios"@ != "can_change_info"@);
        assert("can_send_audios"@ != "can_invite_users"@);
        assert("can_send_audios"@ != "can_pin_messages"@);
        assert("can_send_audios"@ != "can_manage_topics"@);
        assert("can_send_documents"@ != "can_send_photos"@);
        assert("can_send_documents"@ != "can_send_videos"@);
        assert("can_send_documents"@ != "can_send_video_notes"@);
        assert("can_send_documents"@ != "can_send_voice_notes"@);
        assert("can_send_documents"@ != "can_send_polls"@);
        assert("can_send_documents"@ != "can_send_other_messages"@);
        assert("can_send_documents"@ != "can_add_web_page_previews"@);
        assert("can_send_documents"@ != "can_change_info"@);
        assert("can_send_documents"@ != "can_invite_users"@);
        assert("can_send_documents"@ != "can_pin_messages"@);
        assert("can_send_documents"@ != "can_manage_topics"@);
        assert("can_send_photos"@ != "can_send_videos"@);
        assert("can_send_photos"@ != "can_send_video_notes"@);
        assert("can_send_photos"@ != "can_send_voice_notes"@);
        assert("can_send_photos"@ != "can_send_polls"@);
        assert("can_send_photos"@ != "can_send_other_messages"@);
        assert("can_send_photos"@ != "can_add_web_page_previews"@);
        assert("can_send_photos"@ != "can_change_info"@);
        assert("can_send_photos"@ != "can_invite_users"@);
        assert("can_send_photos"@ != "can_pin_messages"@);
        assert("can_send_photos"@ != "can_manage_topics"@);
        assert("can_send_videos"@ != "can_send_video_notes"@);
        assert("can_send_videos"@ != "can_send_voice_notes"@);
        assert("can_send_videos"@ != "can_send_polls"@);
        assert("can_send_videos"@ != "can_send_other_messages"@);
        assert("can_send_videos"@ != "can_add_web_page_previews"@);
        assert("can_send_videos"@ != "can_change_info"@);
        assert("can_send_videos"@ != "can_invite_users"@);
        assert("can_send_videos"@ != "can_pin_messages"@);
        assert("can_send_videos"@ != "can_manage_topics"@);
        assert("can_send_video_notes"@ != "can_send_voice_notes"@);
        assert("can_send_video_notes"@ != "can_send_polls"@);
        assert("can_send_video_notes"@ != "can_send_other_messages"@);
        assert("can_send_video_notes"@ != "can_add_web_page_previews"@);
        assert("can_send_video_notes"@ != "can_change_info"@);
        assert("can_send_video_notes"@ != "can_invite_users"@);
        assert("can_send_video_notes"@ != "can_pin_messages"@);
        assert("can_send_video_notes"@ != "can_manage_topics"@);
        assert("can_send_voice_notes"@ != "can_send_polls"@);
        assert("can_send_voice_notes"@ != "can_send_other_messages"@);
        assert("can_send_voice_notes"@ != "can_add_web_page_previews"@);
        assert("can_send_voice_notes"@ != "can_change_info"@);
        assert("can_send_voice_notes"@ != "can_invite_users"@);
        assert("can_send_voice_notes"@ != "can_pin_messages"@);
        assert("can_send_voice_notes"@ != "can_manage_topics"@);
        assert("can_send_polls"@ != "can_send_other_messages"@);
        assert("can_send_polls"@ != "can_add_web_page_previews"@);
        assert("can_send_polls"@ != "can_change_info"@);
        assert("can_send_polls"@ != "can_invite_users"@);
        assert("can_send_polls"@ != "can_pin_messages"@);
        assert("can_send_polls"@ != "can_manage_topics"@);
        assert("can_send_other_messages"@ != "can_add_web_page_previews"@);
        assert("can_send_other_messages"@ != "can_change_info"@);
        assert("can_send_other_messages"@ != "can_invite_users"@);
        assert("can_send_other_messages"@ != "can_pin_messages"@);
        assert("can_send_other_messages"@ != "can_manage_topics"@);
        assert("can_add_web_page_previews"@ != "can_change_info"@);
        assert("can_add_web_page_previews"@ != "can_invite_users"@);
        assert("can_add_web_page_previews"@ != "can_pin_messages"@);
        assert("can_add_web_page_previews"@ != "can_manage_topics"@);
        assert("can_change_info"@ != "can_invite_users"@);
        assert("can_change_info"@ != "can_pin_messages"@);
        assert("can_change_info"@ != "can_manage_topics"@);
        assert("can_invite_users"@ != "can_pin_messages"@);
        assert("can_invite_users"@ != "can_manage_topics"@);
        assert("can_pin_messages"@ != "can_manage_topics"@);
        let fs = self.fields();
        assert(fs.len() == 14);
        assert(fs[0].0 == "can_send_messages"@);
        assert(fs[1].0 == "can_send_audios"@);
        assert(fs[2].0 == "can_send_documents"@);
        assert(fs[3].0 == "can_send_photos"@);
        assert(fs[4].0 == "can_send_videos"@);
        assert(fs[5].0 == "can_send_video_notes"@);
        assert(fs[6].0 == "can_send_voice_notes"@);
        assert(fs[7].0 == "can_send_polls"@);
        assert(fs[8].0 == "can_send_other_messages"@);
        assert(fs[9].0 == "can_add_web_page_previews"@);
        assert(fs[10].0 == "can_change_info"@);
        assert(fs[11].0 == "can_invite_users"@);
        assert(fs[12].0 == "can_pin_messages"@);
        assert(fs[13].0 == "can_manage_topics"@);
    }

    /// Decoding what was encoded gives the value back.
    pub proof fn lemma_round_trip(self)
        ensures
            ChatPermissions::decode(self.json()) == Ok::<ChatPermissions, WireFault>(self),
    {
        let fs = self.fields();
        self.lemma_keys_distinct();
        lemma_present_lookup(fs, 0);
        lemma_present_lookup(fs, 1);
        lemma_present_lookup(fs, 2);
        lemma_present_lookup(fs, 3);
        lemma_present_lookup(fs, 4);
        lemma_present_lookup(fs, 5);
        lemma_present_lookup(fs, 6);
        lemma_present_lookup(fs, 7);
        lemma_present_lookup(fs, 8);
        lemma_present_lookup(fs, 9);
        lemma_present_lookup(fs, 10);
        lemma_present_lookup(fs, 11);
        lemma_present_lookup(fs, 12);
        lemma_present_lookup(fs, 13);
        let es = present(fs);
        assert(opt_bool(es, "can_send_messages"@) == Ok::<Option<bool>, WireFault>(self.can_send_messages));
        assert(opt_bool(es, "can_send_audios"@) == Ok::<Option<bool>, WireFault>(self.can_send_audios));
        assert(opt_bool(es, "can_send_documents"@) == Ok::<Option<bool>, WireFault>(self.can_send_documents));
        assert(opt_bool(es, "can_send_photos"@) == Ok::<Option<bool>, WireFault>(self.can_send_photos));
        assert(opt_bool(es, "can_send_videos"@) == Ok::<Option<bool>, WireFault>(self.can_send_videos));
        assert(opt_bool(es, "can_send_video_notes"@) == Ok::<Option<bool>, WireFault>(self.can_send_video_notes));
        assert(opt_bool(es, "can_send_voice_notes"@) == Ok::<Option<bool>, WireFault>(self.can_send_voice_notes));
        assert(opt_bool(es, "can_send_polls"@) == Ok::<Option<bool>, WireFault>(self.can_send_polls));
        assert(opt_bool(es, "can_send_other_messages"@) == Ok::<Option<bool>, WireFault>(self.can_send_other_messages));
        assert(opt_bool(es, "can_add_web_page_previews"@) == Ok::<Option<bool>, WireFault>(self.can_add_web_page_previews));
        assert(opt_bool(es, "can_change_info"@) == Ok::<Option<bool>, WireFault>(self.can_change_info));
        assert(opt_bool(es, "can_invite_users"@) == Ok::<Option<bool>, WireFault>(self.can_invite_users));
        assert(opt_bool(es, "can_pin_messages"@) == Ok::<Option<bool>, WireFault>(self.can_pin_messages));
        assert(opt_bool(es, "can_manage_topics"@) == Ok::<Option<bool>, WireFault>(self.can_manage_topics));
    }

}

impl ChatPermissions {
    /// Writes the fields of this value into `w`, in declared order.
    pub fn write_fields(&self, w: &mut ObjectWriter)
        requires
            old(w).wf(),
        ensures
            final(w).wf(),
            final(w).fields@ == old(w).fields@ + self@.fields(),
    {
        let ghost start = w.fields@;
        w.field("can_send_messages", bool_value(self.can_send_messages));
        w.field("can_send_audios", bool_value(self.can_send_audios));
        w.field("can_send_documents", bool_value(self.can_send_documents));
        w.field("can_send_photos", bool_value(self.can_send_photos));
        w.field("can_send_videos", bool_value(self.can_send_videos));
        w.field("can_send_video_notes", bool_value(self.can_send_video_notes));
        w.field("can_send_voice_notes", bool_value(self.can_send_voice_notes));
        w.field("can_send_polls", bool_value(self.can_send_polls));
        w.field("can_send_other_messages", bool_value(self.can_send_other_messages));
        w.field("can_add_web_page_previews", bool_value(self.can_add_web_page_previews));
        w.field("can_change_info", bool_value(self.can_change_info));
        w.field("can_invite_users", bool_value(self.can_invite_users));
        w.field("can_pin_messages", bool_value(self.can_pin_messages));
        w.field("can_manage_topics", bool_value(self.can_manage_topics));
        assert(w.fields@ =~= start + self@.fields());
    }

    /// The JSON object that this value is sent as.
    pub fn to_json(&self) -> (r: JsonValue)
        ensures
            r@ == self@.json(),
    {
        let mut w = ObjectWriter::new();
        self.write_fields(&mut w);
        assert(w.fields@ =~= self@.fields());
        w.finish()
    }

    /// Reads a value from the entries of a JSON object.
    pub fn read_entries(es: &Vec<(String, JsonValue)>) -> (r: Result<ChatPermissions, WireError>)
        ensures
            rview(r) == ChatPermissions::decode_entries(entries_view(es@)),
    {
        let v_can_send_messages = match read_opt_bool(es, "can_send_messages") {
            Ok(v) => v,
            Err(e) => return Err(e),
        };
        let v_can_send_audios = match read_opt_bool(es, "can_send_audios") {
            Ok(v) => v,
            Err(e) => return Err(e),
        };
        let v_can_send_documents = match read_opt_bool(es, "can_send_documents") {
            Ok(v) => v,
            Err(e) => return Err(e),
        };
        let v_can_send_photos = match read_opt_bool(es, "can_send_photos") {
            Ok(v) => v,
            Err(e) => return Err(e),
        };
        let v_can_send_videos = match read_opt_bool(es, "can_send_videos") {
            Ok(v) => v,
            Err(e) => return Err(e),
        };
        let v_can_send_video_notes = match read_opt_bool(es, "can_send_video_notes") {
            Ok(v) => v,
            Err(e) => return Err(e),
        };
        let v_can_send_voice_notes = match read_opt_bool(es, "can_send_voice_notes") {
            Ok(v) => v,
            Err(e) => return Err(e),
        };
        let v_can_send_polls = match read_opt_bool(es, "can_send_polls") {
            Ok(v) => v,
            Err(e) => return Err(e),
        };
        let v_can_send_other_messages = match read_opt_bool(es, "can_send_other_messages") {
            Ok(v) => v,
            Err(e) => return Err(e),
        };
        let v_can_add_web_page_previews = match read_opt_bool(es, "can_add_web_page_previews") {
            Ok(v) => v,
            Err(e) => return Err(e),
        };
        let v_can_change_info = match read_opt_bool(es, "can_change_info") {
            Ok(v) => v,
            Err(e) => return Err(e),
        };
        let v_can_invite_users = match read_opt_bool(es, "can_invite_users") {
            Ok(v) => v,
            Err(e) => return Err(e),
        };
        let v_can_pin_messages = match read_opt_bool(es, "can_pin_messages") {
            Ok(v) => v,
            Err(e) => return Err(e),
        };
        let v_can_manage_topics = match read_opt_bool(es, "can_manage_topics") {
            Ok(v) => v,
            Err(e) => return Err(e),
        };
        Ok(ChatPermissions { can_send_messages: v_can_send_messages, can_send_audios: v_can_send_audios, can_send_documents: v_can_send_documents, can_send_photos: v_can_send_photos, can_send_videos: v_can_send_videos, can_send_video_notes: v_can_send_video_notes, can_send_voice_notes: v_can_send_voice_notes, can_send_polls: v_can_send_polls, can_send_other_messages: v_can_send_other_messages, can_add_web_page_previews: v_can_add_web_page_previews, can_change_info: v_can_change_info, can_invite_users: v_can_invite_users, can_pin_messages: v_can_pin_messages, can_manage_topics: v_can_manage_topics })
    }

    /// Reads a value from a JSON document, which must be an object.
    pub fn from_json(j: &JsonValue) -> (r: Result<ChatPermissions, WireError>)
        ensures
            rview(r) == ChatPermissions::decode(j@),
    {
        match j {
            JsonValue::Object(es) => ChatPermissions::read_entries(es),
            _ => Err(WireError::NotAnObject { owner: "ChatPermissions".to_owned(), raw: j.duplicate() }),
        }
    }

    /// Reads the required field `key`.
    pub fn read_field(es: &Vec<(String, JsonValue)>, key: &str, owner: &str) -> (r: Result<ChatPermissions, WireError>)
        ensures
            rview(r) == ChatPermissions::req_field(entries_view(es@), key@, owner@),
    {
        match find_key(es, key) {
            None => Err(WireError::MissingField { owner: owner.to_owned(), field: key.to_owned() }),
            Some(i) => match ChatPermissions::from_json(&es[i].1) {
                Ok(v) => Ok(v),
                Err(e) => Err(nest_error(key, e)),
            },
        }
    }

}

/// Sets the default permissions of all members of a chat.
#[derive(Debug, Clone, PartialEq)]
pub struct SetChatPermissionRequest {
    /// Unique identifier of the target chat or username of the target supergroup.
    pub chat_id: ChatId,
    /// The new default permissions.
    pub permissions: ChatPermissions,
    /// Whether the permissions are set independently.
    pub use_independent_chat_permissions: Option<bool>,
}

/// The model of [`SetChatPermissionRequest`].
pub struct SetChatPermissionRequestView {
    pub chat_id: ChatIdView,
    pub permissions: ChatPermissions,
    pub use_independent_chat_permissions: Option<bool>,
}

impl View for SetChatPermissionRequest {
    type V = SetChatPermissionRequestView;

    open spec fn view(&self) -> SetChatPermissionRequestView {
        SetChatPermissionRequestView {
            chat_id: self.chat_id@,
            permissions: self.permissions@,
            use_independent_chat_permissions: self.use_independent_chat_permissions,
        }
    }
}

impl SetChatPermissionRequestView {
    /// The fields in declared order, each with what is written for it.
    pub open spec fn fields(self) -> Seq<(Seq<char>, Option<Json>)> {
        seq![
            ("chat_id"@, Some(self.chat_id.json())),
            ("permissions"@, Some(self.permissions.json())),
            ("use_independent_chat_permissions"@, bool_field(self.use_independent_chat_permissions)),
        ]
    }

    pub open spec fn json(self) -> Json {
        Json::Object(present(self.fields()))
    }

    pub open spec fn decode_entries(es: Seq<(Seq<char>, Json)>) -> Result<SetChatPermissionRequestView, WireFault> {
        let v_chat_id = ChatIdView::req_field(es, "chat_id"@, "SetChatPermissionRequest"@);
        let v_permissions = ChatPermissions::req_field(es, "permissions"@, "SetChatPermissionRequest"@);
        let v_use_independent_chat_permissions = opt_bool(es, "use_independent_chat_permissions"@);
        if v_chat_id is Err {
            Err(v_chat_id->Err_0)
        } else if v_permissions is Err {
            Err(v_permissions->Err_0)
        } else if v_use_independent_chat_permissions is Err {
            Err(v_use_independent_chat_permissions->Err_0)
        } else {
            Ok(
                SetChatPermissionRequestView {
                    chat_id: v_chat_id->Ok_0,
                    permissions: v_permissions->Ok_0,
                    use_independent_chat_permissions: v_use_independent_chat_permissions->Ok_0,
                },
            )
        }
    }

    pub open spec fn decode(j: Json) -> Result<SetChatPermissionRequestView, WireFault> {
        match j {
            Json::Object(es) => SetChatPermissionRequestView::decode_entries(es),
            _ => Err(WireFault::NotAnObject { owner: "SetChatPermissionRequest"@, raw: j }),
        }
    }

    /// No two fields of this type share a wire key.
    pub proof fn lemma_keys_distinct(self)
        ensures
            keys_distinct(self.fields()),
    {
        reveal_strlit("chat_id");
        reveal_strlit("permissions");
        reveal_strlit("use_independent_chat_permissions");
        assert("chat_id"@.len() == 7);
        assert("permissions"@.len() == 11);
        assert("use_independent_chat_permissions"@.len() == 32);
        assert("chat_id"@ != "permissions"@);
        assert("chat_id"@ != "use_independent_chat_permissions"@);
        assert("permissions"@ != "use_independent_chat_permissions"@);
        let fs = self.fields();
        assert(fs.len() == 3);
        assert(fs[0].0 == "chat_id"@);
        assert(fs[1].0 == "permissions"@);
        assert(fs[2].0 == "use_independent_chat_permissions"@);
    }

    /// Decoding what was encoded gives the value back.
    pub proof fn lemma_round_trip(self)
        ensures
            SetChatPermissionRequestView::decode(self.json()) == Ok::<SetChatPermissionRequestView, WireFault>(self),
    {
        let fs = self.fields();
        self.lemma_keys_distinct();
        lemma_present_lookup(fs, 0);
        lemma_present_lookup(fs, 1);
        lemma_present_lookup(fs, 2);
        self.chat_id.lemma_round_trip();
        self.permissions.lemma_round_trip();
        let es = present(fs);
        assert(ChatIdView::req_field(es, "chat_id"@, "SetChatPermissionRequest"@) == Ok::<ChatIdView, WireFault>(self.chat_id));
        assert(ChatPermissions::req_field(es, "permissions"@, "SetChatPermissionRequest"@) == Ok::<ChatPermissions, WireFault>(self.permissions));
        assert(opt_bool(es, "use_independent_chat_permissions"@) == Ok::<Option<bool>, WireFault>(self.use_independent_chat_permissions));
    }

}

impl SetChatPermissionRequest {
    /// Writes the fields of this value into `w`, in declared order.
    pub fn write_fields(&self, w: &mut ObjectWriter)
        requires
            old(w).wf(),
        ensures
            final(w).wf(),
            final(w).fields@ == old(w).fields@ + self@.fields(),
    {
        let ghost start = w.fields@;
        w.put("chat_id", self.chat_id.to_json());
        w.put("permissions", self.permissions.to_json());
        w.field("use_independent_chat_permissions", bool_value(self.use_independent_chat_permissions));
        assert(w.fields@ =~= start + self@.fields());
    }

    /// The JSON object that this value is sent as.
    pub fn to_json(&self) -> (r: JsonValue)
        ensures
            r@ == self@.json(),
    {
        let mut w = ObjectWriter::new();
        self.write_fields(&mut w);
        assert(w.fields@ =~= self@.fields());
        w.finish()
    }

    /// Reads a value from the entries of a JSON object.
    pub fn read_entries(es: &Vec<(String, JsonValue)>) -> (r: Result<SetChatPermissionRequest, WireError>)
        ensures
            rview(r) == SetChatPermissionRequestView::decode_entries(entries_view(es@)),
    {
        let v_chat_id = match ChatId::read_field(es, "chat_id", "SetChatPermissionRequest") {
            Ok(v) => v,
            Err(e) => return Err(e),
        };
        let v_permissions = match ChatPermissions::read_field(es, "permissions", "SetChatPermissionRequest") {
            Ok(v) => v,
            Err(e) => return Err(e),
        };
        let v_use_independent_chat_permissions = match read_opt_bool(es, "use_independent_chat_permissions") {
            Ok(v) => v,
            Err(e) => return Err(e),
        };
        Ok(SetChatPermissionRequest { chat_id: v_chat_id, permissions: v_permissions, use_independent_chat_permissions: v_use_independent_chat_permissions })
    }

    /// Reads a value from a JSON document, which must be an object.
    pub fn from_json(j: &JsonValue) -> (r: Result<SetChatPermissionRequest, WireError>)
        ensures
            rview(r) == SetChatPermissionRequestView::decode(j@),
    {
        match j {
            JsonValue::Object(es) => SetChatPermissionRequest::read_entries(es),
            _ => Err(WireError::NotAnObject { owner: "SetChatPermissionRequest".to_owned(), raw: j.duplicate() }),
        }
    }

}

/// Restricts a user in a supergroup.
#[derive(Debug, Clone, PartialEq)]
pub struct RestrictChatMemberRequest {
    /// Unique identifier of the target chat or username of the target supergroup.
    pub chat_id: ChatId,
    /// Unique identifier of the target user.
    pub user_id: i64,
    /// The new permissions of the user.
    pub permissions: ChatPermissions,
    /// Whether the permissions are set independently.
    pub use_independent_chat_permissions: Option<bool>,
    /// Unix time when the restrictions are lifted.
    pub until_date: Option<i64>,
}

/// The model of [`RestrictChatMemberRequest`].
pub struct RestrictChatMemberRequestView {
    pub chat_id: ChatIdView,
    pub user_id: i64,
    pub permissions: ChatPermissions,
    pub use_independent_chat_permissions: Option<bool>,
    pub until_date: Option<i64>,
}

impl View for RestrictChatMemberRequest {
    type V = RestrictChatMemberRequestView;

    open spec fn view(&self) -> RestrictChatMemberRequestView {
        RestrictChatMemberRequestView {
            chat_id: self.chat_id@,
            user_id: self.user_id,
            permissions: self.permissions@,
            use_independent_chat_permissions: self.use_independent_chat_permissions,
            until_date: self.until_date,
        }
    }
}

impl RestrictChatMemberRequestView {
    /// The fields in declared order, each with what is written for it.
    pub open spec fn fields(self) -> Seq<(Seq<char>, Option<Json>)> {
        seq![
            ("chat_id"@, Some(self.chat_id.json())),
            ("user_id"@, Some(Json::Int(self.user_id))),
            ("permissions"@, Some(self.permissions.json())),
            ("use_independent_chat_permissions"@, bool_field(self.use_independent_chat_permissions)),
            ("until_date"@, int_field(self.until_date)),
        ]
    }

    pub open spec fn json(self) -> Json {
        Json::Object(present(self.fields()))
    }

    pub open spec fn decode_entries(es: Seq<(Seq<char>, Json)>) -> Result<RestrictChatMemberRequestView, WireFault> {
        let v_chat_id = ChatIdView::req_field(es, "chat_id"@, "RestrictChatMemberRequest"@);
        let v_user_id = req_int(es, "user_id"@, "RestrictChatMemberRequest"@);
        let v_permissions = ChatPermissions::req_field(es, "permissions"@, "RestrictChatMemberRequest"@);
        let v_use_independent_chat_permissions = opt_bool(es, "use_independent_chat_permissions"@);
        let v_until_date = opt_int(es, "until_date"@);
        if v_chat_id is Err {
            Err(v_chat_id->Err_0)
        } else if v_user_id is Err {
            Err(v_user_id->Err_0)
        } else if v_permissions is Err {
            Err(v_permissions->Err_0)
        } else if v_use_independent_chat_permissions is Err {
            Err(v_use_independent_chat_permissions->Err_0)
        } else if v_until_date is Err {
            Err(v_until_date->Err_0)
        } else {
            Ok(
                RestrictChatMemberRequestView {
                    chat_id: v_chat_id->Ok_0,
                    user_id: v_user_id->Ok_0,
                    permissions: v_permissions->Ok_0,
                    use_independent_chat_permissions: v_use_independent_chat_permissions->Ok_0,
                    until_date: v_until_date->Ok_0,
                },
            )
        }
    }

    pub open spec fn decode(j: Json) -> Result<RestrictChatMemberRequestView, WireFault> {
        match j {
            Json::Object(es) => RestrictChatMemberRequestView::decode_entries(es),
            _ => Err(WireFault::NotAnObject { owner: "RestrictChatMemberRequest"@, raw: j }),
        }
    }

    /// No two fields of this type share a wire key.
    pub proof fn lemma_keys_distinct(self)
        ensures
            keys_distinct(self.fields()),
    {
        reveal_strlit("chat_id");
        reveal_strlit("user_id");
        reveal_strlit("permissions");
        reveal_strlit("use_independent_chat_permissions");
        reveal_strlit("until_date");
        assert("chat_id"@.len() == 7);
        assert("user_id"@.len() == 7);
        assert("permissions"@.len() == 11);
        assert("use_independent_chat_permissions"@.len() == 32);
        assert("until_date"@.len() == 10);
        assert("chat_id"@[0] == 'c');
        assert("user_id"@[0] == 'u');
        assert("chat_id"@ != "user_id"@);
        assert("chat_id"@ != "permissions"@);
        assert("chat_id"@ != "use_independent_chat_permissions"@);
        assert("chat_id"@ != "until_date"@);
        assert("user_id"@ != "permissions"@);
        assert("user_id"@ != "use_independent_chat_permissions"@);
        assert("user_id"@ != "until_date"@);
        assert("permissions"@ != "use_independent_chat_permissions"@);
        assert("permissions"@ != "until_date"@);
        assert("use_independent_chat_permissions"@ != "until_date"@);
        let fs = self.fields();
        assert(fs.len() == 5);
        assert(fs[0].0 == "chat_id"@);
        assert(fs[1].0 == "user_id"@);
        assert(fs[2].0 == "permissions"@);
        assert(fs[3].0 == "use_independent_chat_permissions"@);
        assert(fs[4].0 == "until_date"@);
    }

    /// Decoding what was encoded gives the value back.
    pub proof fn lemma_round_trip(self)
        ensures
            RestrictChatMemberRequestView::decode(self.json()) == Ok::<RestrictChatMemberRequestView, WireFault>(self),
    {
        let fs = self.fields();
        self.lemma_keys_distinct();
        lemma_present_lookup(fs, 0);
        lemma_present_lookup(fs, 1);
        lemma_present_lookup(fs, 2);
        lemma_present_lookup(fs, 3);
        lemma_present_lookup(fs, 4);
        self.chat_id.lemma_round_trip();
        self.permissions.lemma_round_trip();
        let es = present(fs);
        assert(ChatIdView::req_field(es, "chat_id"@, "RestrictChatMemberRequest"@) == Ok::<ChatIdView, WireFault>(self.chat_id));
        assert(req_int(es, "user_id"@, "RestrictChatMemberRequest"@) == Ok::<i64, WireFault>(self.user_id));
        assert(ChatPermissions::req_field(es, "permissions"@, "RestrictChatMemberRequest"@) == Ok::<ChatPermissions, WireFault>(self.permissions));
        assert(opt_bool(es, "use_independent_chat_permissions"@) == Ok::<Option<bool>, WireFault>(self.use_independent_chat_permissions));
        assert(opt_int(es, "until_date"@) == Ok::<Option<i64>, WireFault>(self.until_date));
    }

}

impl RestrictChatMemberRequest {
    /// Writes the fields of this value into `w`, in declared order.
    pub fn write_fields(&self, w: &mut ObjectWriter)
        requires
            old(w).wf(),
        ensures
            final(w).wf(),
            final(w).fields@ == old(w).fields@ + self@.fields(),
    {
        let ghost start = w.fields@;
        w.put("chat_id", self.chat_id.to_json());
        w.put("user_id", JsonValue::Int(self.user_id));
        w.put("permissions", self.permissions.to_json());
        w.field("use_independent_chat_permissions", bool_value(self.use_independent_chat_permissions));
        w.field("until_date", int_value(self.until_date));
        assert(w.fields@ =~= start + self@.fields());
    }

    /// The JSON object that this value is sent as.
    pub fn to_json(&self) -> (r: JsonValue)
        ensures
            r@ == self@.json(),
    {
        let mut w = ObjectWriter::new();
        self.write_fields(&mut w);
        assert(w.fields@ =~= self@.fields());
        w.finish()
    }

    /// Reads a value from the entries of a JSON object.
    pub fn read_entries(es: &Vec<(String, JsonValue)>) -> (r: Result<RestrictChatMemberRequest, WireError>)
        ensures
            rview(r) == RestrictChatMemberRequestView::decode_entries(entries_view(es@)),
    {
        let v_chat_id = match ChatId::read_field(es, "chat_id", "RestrictChatMemberRequest") {
            Ok(v) => v,
            Err(e) => return Err(e),
        };
        let v_user_id = match read_int(es, "user_id", "RestrictChatMemberRequest") {
            Ok(v) => v,
            Err(e) => return Err(e),
        };
        let v_permissions = match ChatPermissions::read_field(es, "permissions", "RestrictChatMemberRequest") {
            Ok(v) => v,
            Err(e) => return Err(e),
        };
        let v_use_independent_chat_permissions = match read_opt_bool(es, "use_independent_chat_permissions") {
            Ok(v) => v,
            Err(e) => return Err(e),
        };
        let v_until_date = match read_opt_int(es, "until_date") {
            Ok(v) => v,
            Err(e) => return Err(e),
        };
        Ok(RestrictChatMemberRequest { chat_id: v_chat_id, user_id: v_user_id, permissions: v_permissions, use_independent_chat_permissions: v_use_independent_chat_permissions, until_date: v_until_date })
    }

    /// Reads a value from a JSON document, which must be an object.
    pub fn from_json(j: &JsonValue) -> (r: Result<RestrictChatMemberRequest, WireError>)
        ensures
            rview(r) == RestrictChatMemberRequestView::decode(j@),
    {
        match j {
            JsonValue::Object(es) => RestrictChatMemberRequest::read_entries(es),
            _ => Err(WireError::NotAnObject { owner: "RestrictChatMemberRequest".to_owned(), raw: j.duplicate() }),
        }
    }

}

/// Asks for the administrators of a chat.
#[derive(Debug, Clone, PartialEq)]
pub struct GetChatAdministratorsRequest {
    /// Unique identifier of the target chat or username of the target channel.
    pub chat_id: ChatId,
}

/// The model of [`GetChatAdministratorsRequest`].
pub struct GetChatAdministratorsRequestView {
    pub chat_id: ChatIdView,
}

impl View for GetChatAdministratorsRequest {
    type V = GetChatAdministratorsRequestView;

    open spec fn view(&self) -> GetChatAdministratorsRequestView {
        GetChatAdministratorsRequestView {
            chat_id: self.chat_id@,
        }
    }
}

impl GetChatAdministratorsRequestView {
    /// The fields in declared order, each with what is written for it.
    pub open spec fn fields(self) -> Seq<(Seq<char>, Option<Json>)> {
        seq![
            ("chat_id"@, Some(self.chat_id.json())),
        ]
    }

    pub open spec fn json(self) -> Json {
        Json::Object(present(self.fields()))
    }

    pub open spec fn decode_entries(es: Seq<(Seq<char>, Json)>) -> Result<GetChatAdministratorsRequestView, WireFault> {
        let v_chat_id = ChatIdView::req_field(es, "chat_id"@, "GetChatAdministratorsRequest"@);
        if v_chat_id is Err {
            Err(v_chat_id->Err_0)
        } else {
            Ok(
                GetChatAdministratorsRequestView {
                    chat_id: v_chat_id->Ok_0,
                },
            )
        }
    }

    pub open spec fn decode(j: Json) -> Result<GetChatAdministratorsRequestView, WireFault> {
        match j {
            Json::Object(es) => GetChatAdministratorsRequestView::decode_entries(es),
            _ => Err(WireFault::NotAnObject { owner: "GetChatAdministratorsRequest"@, raw: j }),
        }
    }

    /// No two fields of this type share a wire key.
    pub proof fn lemma_keys_distinct(self)
        ensures
            keys_distinct(self.fields()),
    {
        reveal_strlit("chat_id");
        assert("chat_id"@.len() == 7);
        let fs = self.fields();
        assert(fs.len() == 1);
        assert(fs[0].0 == "chat_id"@);
    }

    /// Decoding what was encoded gives the value back.
    pub proof fn lemma_round_trip(self)
        ensures
            GetChatAdministratorsRequestView::decode(self.json()) == Ok::<GetChatAdministratorsRequestView, WireFault>(self),
    {
        let fs = self.fields();
        self.lemma_keys_distinct();
        lemma_present_lookup(fs, 0);
        self.chat_id.lemma_round_trip();
        let es = present(fs);
        assert(ChatIdView::req_field(es, "chat_id"@, "GetChatAdministratorsRequest"@) == Ok::<ChatIdView, WireFault>(self.chat_id));
    }

}

impl GetChatAdministratorsRequest {
    /// Writes the fields of this value into `w`, in declared order.
    pub fn write_fields(&self, w: &mut ObjectWriter)
        requires
            old(w).wf(),
        ensures
            final(w).wf(),
            final(w).fields@ == old(w).fields@ + self@.fields(),
    {
        let ghost start = w.fields@;
        w.put("chat_id", self.chat_id.to_json());
        assert(w.fields@ =~= start + self@.fields());
    }

    /// The JSON object that this value is sent as.
    pub fn to_json(&self) -> (r: JsonValue)
        ensures
            r@ == self@.json(),
    {
        let mut w = ObjectWriter::new();
        self.write_fields(&mut w);
        assert(w.fields@ =~= self@.fields());
        w.finish()
    }

    /// Reads a value from the entries of a JSON object.
    pub fn read_entries(es: &Vec<(String, JsonValue)>) -> (r: Result<GetChatAdministratorsRequest, WireError>)
        ensures
            rview(r) == GetChatAdministratorsRequestView::decode_entries(entries_view(es@)),
    {
        let v_chat_id = match ChatId::read_field(es, "chat_id", "GetChatAdministratorsRequest") {
            Ok(v) => v,
            Err(e) => return Err(e),
        };
        Ok(GetChatAdministratorsRequest { chat_id: v_chat_id })
    }

    /// Reads a value from a JSON document, which must be an object.
    pub fn from_json(j: &JsonValue) -> (r: Result<GetChatAdministratorsRequest, WireError>)
        ensures
            rview(r) == GetChatAdministratorsRequestView::decode(j@),
    {
        match j {
            JsonValue::Object(es) => GetChatAdministratorsRequest::read_entries(es),
            _ => Err(WireError::NotAnObject { owner: "GetChatAdministratorsRequest".to_owned(), raw: j.duplicate() }),
        }
    }

}

/// An administrator of a chat and the rights that it holds.
#[derive(Debug, Clone, PartialEq)]
pub struct ChatMemberAdministrator {
    /// The member's status in the chat, always "administrator".
    pub status: String,
    /// The administrator.
    pub user: User,
    pub can_be_edited: Option<bool>,
    pub is_anonymous: Option<bool>,
    pub can_manage_chat: Option<bool>,
    pub can_delete_messages: Option<bool>,
    pub can_manage_video_chats: Option<bool>,
    pub can_restrict_members: Option<bool>,
    pub can_promote_members: Option<bool>,
    pub can_change_info: Option<bool>,
    pub can_invite_users: Option<bool>,
    pub can_post_stories: Option<bool>,
    pub can_edit_stories: Option<bool>,
    pub can_delete_stories: Option<bool>,
    pub can_post_messages: Option<bool>,
    pub can_edit_messages: Option<bool>,
    pub can_pin_messages: Option<bool>,
    pub can_manage_topics: Option<bool>,
    /// Custom title of the administrator.
    pub custom_title: Option<String>,
}

/// The model of [`ChatMemberAdministrator`].
pub struct ChatMemberAdministratorView {
    pub status: Seq<char>,
    pub user: UserView,
    pub can_be_edited: Option<bool>,
    pub is_anonymous: Option<bool>,
    pub can_manage_chat: Option<bool>,
    pub can_delete_messages: Option<bool>,
    pub can_manage_video_chats: Option<bool>,
    pub can_restrict_members: Option<bool>,
    pub can_promote_members: Option<bool>,
    pub can_change_info: Option<bool>,
    pub can_invite_users: Option<bool>,
    pub can_post_stories: Option<bool>,
    pub can_edit_stories: Option<bool>,
    pub can_delete_stories: Option<bool>,
    pub can_post_messages: Option<bool>,
    pub can_edit_messages: Option<bool>,
    pub can_pin_messages: Option<bool>,
    pub can_manage_topics: Option<bool>,
    pub custom_title: Option<Seq<char>>,
}

impl View for ChatMemberAdministrator {
    type V = ChatMemberAdministratorView;

    open spec fn view(&self) -> ChatMemberAdministratorView {
        ChatMemberAdministratorView {
            status: self.status@,
            user: self.user@,
            can_be_edited: self.can_be_edited,
            is_anonymous: self.is_anonymous,
            can_manage_chat: self.can_manage_chat,
            can_delete_messages: self.can_delete_messages,
            can_manage_video_chats: self.can_manage_video_chats,
            can_restrict_members: self.can_restrict_members,
            can_promote_members: self.can_promote_members,
            can_change_info: self.can_change_info,
            can_invite_users: self.can_invite_users,
            can_post_stories: self.can_post_stories,
            can_edit_stories: self.can_edit_stories,
            can_delete_stories: self.can_delete_stories,
            can_post_messages: self.can_post_messages,
            can_edit_messages: self.can_edit_messages,
            can_pin_messages: self.can_pin_messages,
            can_manage_topics: self.can_manage_topics,
            custom_title: opt_str(self.custom_title),
        }
    }
}

impl ChatMemberAdministratorView {
    pub open spec fn decode_entries(es: Seq<(Seq<char>, Json)>) -> Result<ChatMemberAdministratorView, WireFault> {
        let v_status = req_str(es, "status"@, "ChatMemberAdministrator"@);
        let v_user = UserView::req_field(es, "user"@, "ChatMemberAdministrator"@);
        let v_can_be_edited = opt_bool(es, "can_be_edited"@);
        let v_is_anonymous = opt_bool(es, "is_anonymous"@);
        let v_can_manage_chat = opt_bool(es, "can_manage_chat"@);
        let v_can_delete_messages = opt_bool(es, "can_delete_messages"@);
        let v_can_manage_video_chats = opt_bool(es, "can_manage_video_chats"@);
        let v_can_restrict_members = opt_bool(es, "can_restrict_members"@);
        let v_can_promote_members = opt_bool(es, "can_promote_members"@);
        let v_can_change_info = opt_bool(es, "can_change_info"@);
        let v_can_invite_users = opt_bool(es, "can_invite_users"@);
        let v_can_post_stories = opt_bool(es, "can_post_stories"@);
        let v_can_edit_stories = opt_bool(es, "can_edit_stories"@);
        let v_can_delete_stories = opt_bool(es, "can_delete_stories"@);
        let v_can_post_messages = opt_bool(es, "can_post_messages"@);
        let v_can_edit_messages = opt_bool(es, "can_edit_messages"@);
        let v_can_pin_messages = opt_bool(es, "can_pin_messages"@);
        let v_can_manage_topics = opt_bool(es, "can_manage_topics"@);
        let v_custom_title = opt_string(es, "custom_title"@);
        if v_status is Err {
            Err(v_status->Err_0)
        } else if v_user is Err {
            Err(v_user->Err_0)
        } else if v_can_be_edited is Err {
            Err(v_can_be_edited->Err_0)
        } else if v_is_anonymous is Err {
            Err(v_is_anonymous->Err_0)
        } else if v_can_manage_chat is Err {
            Err(v_can_manage_chat->Err_0)
        } else if v_can_delete_messages is Err {
            Err(v_can_delete_messages->Err_0)
        } else if v_can_manage_video_chats is Err {
            Err(v_can_manage_video_chats->Err_0)
        } else if v_can_restrict_members is Err {
            Err(v_can_restrict_members->Err_0)
        } else if v_can_promote_members is Err {
            Err(v_can_promote_members->Err_0)
        } else if v_can_change_info is Err {
            Err(v_can_change_info->Err_0)
        } else if v_can_invite_users is Err {
            Err(v_can_invite_users->Err_0)
        } else if v_can_post_stories is Err {
            Err(v_can_post_stories->Err_0)
        } else if v_can_edit_stories is Err {
            Err(v_can_edit_stories->Err_0)
        } else if v_can_delete_stories is Err {
            Err(v_can_delete_stories->Err_0)
        } else if v_can_post_messages is Err {
            Err(v_can_post_messages->Err_0)
        } else if v_can_edit_messages is Err {
            Err(v_can_edit_messages->Err_0)
        } else if v_can_pin_messages is Err {
            Err(v_can_pin_messages->Err_0)
        } else if v_can_manage_topics is Err {
            Err(v_can_manage_topics->Err_0)
        } else if v_custom_title is Err {
            Err(v_custom_title->Err_0)
        } else {
            Ok(
                ChatMemberAdministratorView {
                    status: v_status->Ok_0,
                    user: v_user->Ok_0,
                    can_be_edited: v_can_be_edited->Ok_0,
                    is_anonymous: v_is_anonymous->Ok_0,
                    can_manage_chat: v_can_manage_chat->Ok_0,
                    can_delete_messages: v_can_delete_messages->Ok_0,
                    can_manage_video_chats: v_can_manage_video_chats->Ok_0,
                    can_restrict_members: v_can_restrict_members->Ok_0,
                    can_promote_members: v_can_promote_members->Ok_0,
                    can_change_info: v_can_change_info->Ok_0,
                    can_invite_users: v_can_invite_users->Ok_0,
                    can_post_stories: v_can_post_stories->Ok_0,
                    can_edit_stories: v_can_edit_stories->Ok_0,
                    can_delete_stories: v_can_delete_stories->Ok_0,
                    can_post_messages: v_can_post_messages->Ok_0,
                    can_edit_messages: v_can_edit_messages->Ok_0,
                    can_pin_messages: v_can_pin_messages->Ok_0,
                    can_manage_topics: v_can_manage_topics->Ok_0,
                    custom_title: v_custom_title->Ok_0,
                },
            )
        }
    }

    pub open spec fn decode(j: Json) -> Result<ChatMemberAdministratorView, WireFault> {
        match j {
            Json::Object(es) => ChatMemberAdministratorView::decode_entries(es),
            _ => Err(WireFault::NotAnObject { owner: "ChatMemberAdministrator"@, raw: j }),
        }
    }

}

impl ChatMemberAdministrator {
    /// Reads a value from the entries of a JSON object.
    pub fn read_entries(es: &Vec<(String, JsonValue)>) -> (r: Result<ChatMemberAdministrator, WireError>)
        ensures
            rview(r) == ChatMemberAdministratorView::decode_entries(entries_view(es@)),
    {
        let v_status = match read_str(es, "status", "ChatMemberAdministrator") {
            Ok(v) => v,
            Err(e) => return Err(e),
        };
        let v_user = match User::read_field(es, "user", "ChatMemberAdministrator") {
            Ok(v) => v,
            Err(e) => return Err(e),
        };
        let v_can_be_edited = match read_opt_bool(es, "can_be_edited") {
            Ok(v) => v,
            Err(e) => return Err(e),
        };
        let v_is_anonymous = match read_opt_bool(es, "is_anonymous") {
            Ok(v) => v,
            Err(e) => return Err(e),
        };
        let v_can_manage_chat = match read_opt_bool(es, "can_manage_chat") {
            Ok(v) => v,
            Err(e) => return Err(e),
        };
        let v_can_delete_messages = match read_opt_bool(es, "can_delete_messages") {
            Ok(v) => v,
            Err(e) => return Err(e),
        };
        let v_can_manage_video_chats = match read_opt_bool(es, "can_manage_video_chats") {
            Ok(v) => v,
            Err(e) => return Err(e),
        };
        let v_can_restrict_members = match read_opt_bool(es, "can_restrict_members") {
            Ok(v) => v,
            Err(e) => return Err(e),
        };
        let v_can_promote_members = match read_opt_bool(es, "can_promote_members") {
            Ok(v) => v,
            Err(e) => return Err(e),
        };
        let v_can_change_info = match read_opt_bool(es, "can_change_info") {
            Ok(v) => v,
            Err(e) => return Err(e),
        };
        let v_can_invite_users = match read_opt_bool(es, "can_invite_users") {
            Ok(v) => v,
            Err(e) => return Err(e),
        };
        let v_can_post_stories = match read_opt_bool(es, "can_post_stories") {
            Ok(v) => v,
            Err(e) => return Err(e),
        };
        let v_can_edit_stories = match read_opt_bool(es, "can_edit_stories") {
            Ok(v) => v,
            Err(e) => return Err(e),
        };
        let v_can_delete_stories = match read_opt_bool(es, "can_delete_stories") {
            Ok(v) => v,
            Err(e) => return Err(e),
        };
        let v_can_post_messages = match read_opt_bool(es, "can_post_messages") {
            Ok(v) => v,
            Err(e) => return Err(e),
        };
        let v_can_edit_messages = match read_opt_bool(es, "can_edit_messages") {
            Ok(v) => v,
            Err(e) => return Err(e),
        };
        let v_can_pin_messages = match read_opt_bool(es, "can_pin_messages") {
            Ok(v) => v,
            Err(e) => return Err(e),
        };
        let v_can_manage_topics = match read_opt_bool(es, "can_manage_topics") {
            Ok(v) => v,
            Err(e) => return Err(e),
        };
        let v_custom_title = match read_opt_str(es, "custom_title") {
            Ok(v) => v,
            Err(e) => return Err(e),
        };
        Ok(ChatMemberAdministrator { status: v_status, user: v_user, can_be_edited: v_can_be_edited, is_anonymous: v_is_anonymous, can_manage_chat: v_can_manage_chat, can_delete_messages: v_can_delete_messages, can_manage_video_chats: v_can_manage_video_chats, can_restrict_members: v_can_restrict_members, can_promote_members: v_can_promote_members, can_change_info: v_can_change_info, can_invite_users: v_can_invite_users, can_post_stories: v_can_post_stories, can_edit_stories: v_can_edit_stories, can_delete_stories: v_can_delete_stories, can_post_messages: v_can_post_messages, can_edit_messages: v_can_edit_messages, can_pin_messages: v_can_pin_messages, can_manage_topics: v_can_manage_topics, custom_title: v_custom_title })
    }

    /// Reads a value from a JSON document, which must be an object.
    pub fn from_json(j: &JsonValue) -> (r: Result<ChatMemberAdministrator, WireError>)
        ensures
            rview(r) == ChatMemberAdministratorView::decode(j@),
    {
        match j {
            JsonValue::Object(es) => ChatMemberAdministrator::read_entries(es),
            _ => Err(WireError::NotAnObject { owner: "ChatMemberAdministrator".to_owned(), raw: j.duplicate() }),
        }
    }

}

/// Asks for up-to-date information about a chat.
#[derive(Debug, Clone, PartialEq)]
pub struct GetChatRequest {
    /// Unique identifier of the target chat or username of the target channel.
    pub chat_id: ChatId,
}

/// The model of [`GetChatRequest`].
pub struct GetChatRequestView {
    pub chat_id: ChatIdView,
}

impl View for GetChatRequest {
    type V = GetChatRequestView;

    open spec fn view(&self) -> GetChatRequestView {
        GetChatRequestView {
            chat_id: self.chat_id@,
        }
    }
}

impl GetChatRequestView {
    /// The fields in declared order, each with what is written for it.
    pub open spec fn fields(self) -> Seq<(Seq<char>, Option<Json>)> {
        seq![
            ("chat_id"@, Some(self.chat_id.json())),
        ]
    }

    pub open spec fn json(self) -> Json {
        Json::Object(present(self.fields()))
    }

    pub open spec fn decode_entries(es: Seq<(Seq<char>, Json)>) -> Result<GetChatRequestView, WireFault> {
        let v_chat_id = ChatIdView::req_field(es, "chat_id"@, "GetChatRequest"@);
        if v_chat_id is Err {
            Err(v_chat_id->Err_0)
        } else {
            Ok(
                GetChatRequestView {
                    chat_id: v_chat_id->Ok_0,
                },
            )
        }
    }

    pub open spec fn decode(j: Json) -> Result<GetChatRequestView, WireFault> {
        match j {
            Json::Object(es) => GetChatRequestView::decode_entries(es),
            _ => Err(WireFault::NotAnObject { owner: "GetChatRequest"@, raw: j }),
        }
    }

    /// No two fields of this type share a wire key.
    pub proof fn lemma_keys_distinct(self)
        ensures
            keys_distinct(self.fields()),
    {
        reveal_strlit("chat_id");
        assert("chat_id"@.len() == 7);
        let fs = self.fields();
        assert(fs.len() == 1);
        assert(fs[0].0 == "chat_id"@);
    }

    /// Decoding what was encoded gives the value back.
    pub proof fn lemma_round_trip(self)
        ensures
            GetChatRequestView::decode(self.json()) == Ok::<GetChatRequestView, WireFault>(self),
    {
        let fs = self.fields();
        self.lemma_keys_distinct();
        lemma_present_lookup(fs, 0);
        self.chat_id.lemma_round_trip();
        let es = present(fs);
        assert(ChatIdView::req_field(es, "chat_id"@, "GetChatRequest"@) == Ok::<ChatIdView, WireFault>(self.chat_id));
    }

}

impl GetChatRequest {
    /// Writes the fields of this value into `w`, in declared order.
    pub fn write_fields(&self, w: &mut ObjectWriter)
        requires
            old(w).wf(),
        ensures
            final(w).wf(),
            final(w).fields@ == old(w).fields@ + self@.fields(),
    {
        let ghost start = w.fields@;
        w.put("chat_id", self.chat_id.to_json());
        assert(w.fields@ =~= start + self@.fields());
    }

    /// The JSON object that this value is sent as.
    pub fn to_json(&self) -> (r: JsonValue)
        ensures
            r@ == self@.json(),
    {
        let mut w = ObjectWriter::new();
        self.write_fields(&mut w);
        assert(w.fields@ =~= self@.fields());
        w.finish()
    }

    /// Reads a value from the entries of a JSON object.
    pub fn read_entries(es: &Vec<(String, JsonValue)>) -> (r: Result<GetChatRequest, WireError>)
        ensures
            rview(r) == GetChatRequestView::decode_entries(entries_view(es@)),
    {
        let v_chat_id = match ChatId::read_field(es, "chat_id", "GetChatRequest") {
            Ok(v) => v,
            Err(e) => return Err(e),
        };
        Ok(GetChatRequest { chat_id: v_chat_id })
    }

    /// Reads a value from a JSON document, which must be an object.
    pub fn from_json(j: &JsonValue) -> (r: Result<GetChatRequest, WireError>)
        ensures
            rview(r) == GetChatRequestView::decode(j@),
    {
        match j {
            JsonValue::Object(es) => GetChatRequest::read_entries(es),
            _ => Err(WireError::NotAnObject { owner: "GetChatRequest".to_owned(), raw: j.duplicate() }),
        }
    }

}

/// Full information about a chat.
#[derive(Debug, Clone, PartialEq)]
pub struct ChatFullInfo {
    /// Unique identifier of the chat; it fits in 52 bits.
    pub id: i64,
    /// Kind of chat. On the wire its key is `type`.
    pub type_: String,
    pub title: Option<String>,
    pub username: Option<String>,
    pub first_name: Option<String>,
    pub last_name: Option<String>,
    pub is_forum: Option<bool>,
    /// Identifier of the accent color of the chat.
    pub accent_color: Option<i64>,
    /// The largest number of reactions that can be set on a message.
    pub max_reaction_count: Option<i64>,
    /// All active usernames of the chat.
    pub active_usernames: Option<Vec<String>>,
    /// Description, for groups, supergroups and channels.
    pub description: Option<String>,
}

/// The model of [`ChatFullInfo`].
pub struct ChatFullInfoView {
    pub id: i64,
    pub type_: Seq<char>,
    pub title: Option<Seq<char>>,
    pub username: Option<Seq<char>>,
    pub first_name: Option<Seq<char>>,
    pub last_name: Option<Seq<char>>,
    pub is_forum: Option<bool>,
    pub accent_color: Option<i64>,
    pub max_reaction_count: Option<i64>,
    pub active_usernames: Option<Seq<Seq<char>>>,
    pub description: Option<Seq<char>>,
}

impl View for ChatFullInfo {
    type V = ChatFullInfoView;

    open spec fn view(&self) -> ChatFullInfoView {
        ChatFullInfoView {
            id: self.id,
            type_: self.type_@,
            title: opt_str(self.title),
            username: opt_str(self.username),
            first_name: opt_str(self.first_name),
            last_name: opt_str(self.last_name),
            is_forum: self.is_forum,
            accent_color: self.accent_color,
            max_reaction_count: self.max_reaction_count,
            active_usernames: opt_str_list(self.active_usernames),
            description: opt_str(self.description),
        }
    }
}

impl ChatFullInfoView {
    pub open spec fn decode_entries(es: Seq<(Seq<char>, Json)>) -> Result<ChatFullInfoView, WireFault> {
        let v_id = req_int(es, "id"@, "ChatFullInfo"@);
        let v_type_ = req_str(es, "type"@, "ChatFullInfo"@);
        let v_title = opt_string(es, "title"@);
        let v_username = opt_string(es, "username"@);
        let v_first_name = opt_string(es, "first_name"@);
        let v_last_name = opt_string(es, "last_name"@);
        let v_is_forum = opt_bool(es, "is_forum"@);
        let v_accent_color = opt_int(es, "accent_color"@);
        let v_max_reaction_count = opt_int(es, "max_reaction_count"@);
        let v_active_usernames = opt_strings(es, "active_usernames"@);
        let v_description = opt_string(es, "description"@);
        if v_id is Err {
            Err(v_id->Err_0)
        } else if v_type_ is Err {
            Err(v_type_->Err_0)
        } else if v_title is Err {
            Err(v_title->Err_0)
        } else if v_username is Err {
            Err(v_username->Err_0)
        } else if v_first_name is Err {
            Err(v_first_name->Err_0)
        } else if v_last_name is Err {
            Err(v_last_name->Err_0)
        } else if v_is_forum is Err {
            Err(v_is_forum->Err_0)
        } else if v_accent_color is Err {
            Err(v_accent_color->Err_0)
        } else if v_max_reaction_count is Err {
            Err(v_max_reaction_count->Err_0)
        } else if v_active_usernames is Err {
            Err(v_active_usernames->Err_0)
        } else if v_description is Err {
            Err(v_description->Err_0)
        } else {
            Ok(
                ChatFullInfoView {
                    id: v_id->Ok_0,
                    type_: v_type_->Ok_0,
                    title: v_title->Ok_0,
                    username: v_username->Ok_0,
                    first_name: v_first_name->Ok_0,
                    last_name: v_last_name->Ok_0,
                    is_forum: v_is_forum->Ok_0,
                    accent_color: v_accent_color->Ok_0,
                    max_reaction_count: v_max_reaction_count->Ok_0,
                    active_usernames: v_active_usernames->Ok_0,
                    description: v_description->Ok_0,
                },
            )
        }
    }

    pub open spec fn decode(j: Json) -> Result<ChatFullInfoView, WireFault> {
        match j {
            Json::Object(es) => ChatFullInfoView::decode_entries(es),
            _ => Err(WireFault::NotAnObject { owner: "ChatFullInfo"@, raw: j }),
        }
    }

}

impl ChatFullInfo {
    /// Reads a value from the entries of a JSON object.
    pub fn read_entries(es: &Vec<(String, JsonValue)>) -> (r: Result<ChatFullInfo, WireError>)
        ensures
            rview(r) == ChatFullInfoView::decode_entries(entries_view(es@)),
    {
        let v_id = match read_int(es, "id", "ChatFullInfo") {
            Ok(v) => v,
            Err(e) => return Err(e),
        };
        let v_type_ = match read_str(es, "type", "ChatFullInfo") {
            Ok(v) => v,
            Err(e) => return Err(e),
        };
        let v_title = match read_opt_str(es, "title") {
            Ok(v) => v,
            Err(e) => return Err(e),
        };
        let v_username = match read_opt_str(es, "username") {
            Ok(v) => v,
            Err(e) => return Err(e),
        };
        let v_first_name = match read_opt_str(es, "first_name") {
            Ok(v) => v,
            Err(e) => return Err(e),
        };
        let v_last_name = match read_opt_str(es, "last_name") {
            Ok(v) => v,
            Err(e) => return Err(e),
        };
        let v_is_forum = match read_opt_bool(es, "is_forum") {
            Ok(v) => v,
            Err(e) => return Err(e),
        };
        let v_accent_color = match read_opt_int(es, "accent_color") {
            Ok(v) => v,
            Err(e) => return Err(e),
        };
        let v_max_reaction_count = match read_opt_int(es, "max_reaction_count") {
            Ok(v) => v,
            Err(e) => return Err(e),
        };
        let v_active_usernames = match read_opt_str_list(es, "active_usernames") {
            Ok(v) => v,
            Err(e) => return Err(e),
        };
        let v_description = match read_opt_str(es, "description") {
            Ok(v) => v,
            Err(e) => return Err(e),
        };
        Ok(ChatFullInfo { id: v_id, type_: v_type_, title: v_title, username: v_username, first_name: v_first_name, last_name: v_last_name, is_forum: v_is_forum, accent_color: v_accent_color, max_reaction_count: v_max_reaction_count, active_usernames: v_active_usernames, description: v_description })
    }

    /// Reads a value from a JSON document, which must be an object.
    pub fn from_json(j: &JsonValue) -> (r: Result<ChatFullInfo, WireError>)
        ensures
            rview(r) == ChatFullInfoView::decode(j@),
    {
        match j {
            JsonValue::Object(es) => ChatFullInfo::read_entries(es),
            _ => Err(WireError::NotAnObject { owner: "ChatFullInfo".to_owned(), raw: j.duplicate() }),
        }
    }

}

/// Bans a user from a group, a supergroup or a channel.
#[derive(Debug, Clone, PartialEq)]
pub struct BanChatMemberRequest {
    /// Unique identifier of the target group or username of the target channel.
    pub chat_id: ChatId,
    /// Unique identifier of the target user.
    pub user_id: i64,
    /// Unix time when the user is unbanned.
    pub until_date: Option<i64>,
    /// Whether to delete all messages of the user from the chat.
    pub revoke_messages: Option<bool>,
}

/// The model of [`BanChatMemberRequest`].
pub struct BanChatMemberRequestView {
    pub chat_id: ChatIdView,
    pub user_id: i64,
    pub until_date: Option<i64>,
    pub revoke_messages: Option<bool>,
}

impl View for BanChatMemberRequest {
    type V = BanChatMemberRequestView;

    open spec fn view(&self) -> BanChatMemberRequestView {
        BanChatMemberRequestView {
            chat_id: self.chat_id@,
            user_id: self.user_id,
            until_date: self.until_date,
            revoke_messages: self.revoke_messages,
        }
    }
}

impl BanChatMemberRequestView {
    /// The fields in declared order, each with what is written for it.
    pub open spec fn fields(self) -> Seq<(Seq<char>, Option<Json>)> {
        seq![
            ("chat_id"@, Some(self.chat_id.json())),
            ("user_id"@, Some(Json::Int(self.user_id))),
            ("until_date"@, int_field(self.until_date)),
            ("revoke_messages"@, bool_field(self.revoke_messages)),
        ]
    }

    pub open spec fn json(self) -> Json {
        Json::Object(present(self.fields()))
    }

    pub open spec fn decode_entries(es: Seq<(Seq<char>, Json)>) -> Result<BanChatMemberRequestView, WireFault> {
        let v_chat_id = ChatIdView::req_field(es, "chat_id"@, "BanChatMemberRequest"@);
        let v_user_id = req_int(es, "user_id"@, "BanChatMemberRequest"@);
        let v_until_date = opt_int(es, "until_date"@);
        let v_revoke_messages = opt_bool(es, "revoke_messages"@);
        if v_chat_id is Err {
            Err(v_chat_id->Err_0)
        } else if v_user_id is Err {
            Err(v_user_id->Err_0)
        } else if v_until_date is Err {
            Err(v_until_date->Err_0)
        } else if v_revoke_messages is Err {
            Err(v_revoke_messages->Err_0)
        } else {
            Ok(
                BanChatMemberRequestView {
                    chat_id: v_chat_id->Ok_0,
                    user_id: v_user_id->Ok_0,
                    until_date: v_until_date->Ok_0,
                    revoke_messages: v_revoke_messages->Ok_0,
                },
            )
        }
    }

    pub open spec fn decode(j: Json) -> Result<BanChatMemberRequestView, WireFault> {
        match j {
            Json::Object(es) => BanChatMemberRequestView::decode_entries(es),
            _ => Err(WireFault::NotAnObject { owner: "BanChatMemberRequest"@, raw: j }),
        }
    }

    /// No two fields of this type share a wire key.
    pub proof fn lemma_keys_distinct(self)
        ensures
            keys_distinct(self.fields()),
    {
        reveal_strlit("chat_id");
        reveal_strlit("user_id");
        reveal_strlit("until_date");
        reveal_strlit("revoke_messages");
        assert("chat_id"@.len() == 7);
        assert("user_id"@.len() == 7);
        assert("until_date"@.len() == 10);
        assert("revoke_messages"@.len() == 15);
        assert("chat_id"@[0] == 'c');
        assert("user_id"@[0] == 'u');
        assert("chat_id"@ != "user_id"@);
        assert("chat_id"@ != "until_date"@);
        assert("chat_id"@ != "revoke_messages"@);
        assert("user_id"@ != "until_date"@);
        assert("user_id"@ != "revoke_messages"@);
        assert("until_date"@ != "revoke_messages"@);
        let fs = self.fields();
        assert(fs.len() == 4);
        assert(fs[0].0 == "chat_id"@);
        assert(fs[1].0 == "user_id"@);
        assert(fs[2].0 == "until_date"@);
        assert(fs[3].0 == "revoke_messages"@);
    }

    /// Decoding what was encoded gives the value back.
    pub proof fn lemma_round_trip(self)
        ensures
            BanChatMemberRequestView::decode(self.json()) == Ok::<BanChatMemberRequestView, WireFault>(self),
    {
        let fs = self.fields();
        self.lemma_keys_distinct();
        lemma_present_lookup(fs, 0);
        lemma_present_lookup(fs, 1);
        lemma_present_lookup(fs, 2);
        lemma_present_lookup(fs, 3);
        self.chat_id.lemma_round_trip();
        let es = present(fs);
        assert(ChatIdView::req_field(es, "chat_id"@, "BanChatMemberRequest"@) == Ok::<ChatIdView, WireFault>(self.chat_id));
        assert(req_int(es, "user_id"@, "BanChatMemberRequest"@) == Ok::<i64, WireFault>(self.user_id));
        assert(opt_int(es, "until_date"@) == Ok::<Option<i64>, WireFault>(self.until_date));
        assert(opt_bool(es, "revoke_messages"@) == Ok::<Option<bool>, WireFault>(self.revoke_messages));
    }

}

impl BanChatMemberRequest {
    /// Writes the fields of this value into `w`, in declared order.
    pub fn write_fields(&self, w: &mut ObjectWriter)
        requires
            old(w).wf(),
        ensures
            final(w).wf(),
            final(w).fields@ == old(w).fields@ + self@.fields(),
    {
        let ghost start = w.fields@;
        w.put("chat_id", self.chat_id.to_json());
        w.put("user_id", JsonValue::Int(self.user_id));
        w.field("until_date", int_value(self.until_date));
        w.field("revoke_messages", bool_value(self.revoke_messages));
        assert(w.fields@ =~= start + self@.fields());
    }

    /// The JSON object that this value is sent as.
    pub fn to_json(&self) -> (r: JsonValue)
        ensures
            r@ == self@.json(),
    {
        let mut w = ObjectWriter::new();
        self.write_fields(&mut w);
        assert(w.fields@ =~= self@.fields());
        w.finish()
    }

    /// Reads a value from the entries of a JSON object.
    pub fn read_entries(es: &Vec<(String, JsonValue)>) -> (r: Result<BanChatMemberRequest, WireError>)
        ensures
            rview(r) == BanChatMemberRequestView::decode_entries(entries_view(es@)),
    {
        let v_chat_id = match ChatId::read_field(es, "chat_id", "BanChatMemberRequest") {
            Ok(v) => v,
            Err(e) => return Err(e),
        };
        let v_user_id = match read_int(es, "user_id", "BanChatMemberRequest") {
            Ok(v) => v,
            Err(e) => return Err(e),
        };
        let v_until_date = match read_opt_int(es, "until_date") {
            Ok(v) => v,
            Err(e) => return Err(e),
        };
        let v_revoke_messages = match read_opt_bool(es, "revoke_messages") {
            Ok(v) => v,
            Err(e) => return Err(e),
        };
        Ok(BanChatMemberRequest { chat_id: v_chat_id, user_id: v_user_id, until_date: v_until_date, revoke_messages: v_revoke_messages })
    }

    /// Reads a value from a JSON document, which must be an object.
    pub fn from_json(j: &JsonValue) -> (r: Result<BanChatMemberRequest, WireError>)
        ensures
            rview(r) == BanChatMemberRequestView::decode(j@),
    {
        match j {
            JsonValue::Object(es) => BanChatMemberRequest::read_entries(es),
            _ => Err(WireError::NotAnObject { owner: "BanChatMemberRequest".to_owned(), raw: j.duplicate() }),
        }
    }

}

/// Lifts the ban of a user.
#[derive(Debug, Clone, PartialEq)]
pub struct UnbanChatMemberRequest {
    /// Unique identifier of the target chat or username of the target supergroup.
    pub chat_id: ChatId,
    /// Unique identifier of the target user.
    pub user_id: i64,
    /// Do nothing if the user is not banned.
    pub only_if_banned: Option<bool>,
}

/// The model of [`UnbanChatMemberRequest`].
pub struct UnbanChatMemberRequestView {
    pub chat_id: ChatIdView,
    pub user_id: i64,
    pub only_if_banned: Option<bool>,
}

impl View for UnbanChatMemberRequest {
    type V = UnbanChatMemberRequestView;

    open spec fn view(&self) -> UnbanChatMemberRequestView {
        UnbanChatMemberRequestView {
            chat_id: self.chat_id@,
            user_id: self.user_id,
            only_if_banned: self.only_if_banned,
        }
    }
}

impl UnbanChatMemberRequestView {
    /// The fields in declared order, each with what is written for it.
    pub open spec fn fields(self) -> Seq<(Seq<char>, Option<Json>)> {
        seq![
            ("chat_id"@, Some(self.chat_id.json())),
            ("user_id"@, Some(Json::Int(self.user_id))),
            ("only_if_banned"@, bool_field(self.only_if_banned)),
        ]
    }

    pub open spec fn json(self) -> Json {
        Json::Object(present(self.fields()))
    }

    pub open spec fn decode_entries(es: Seq<(Seq<char>, Json)>) -> Result<UnbanChatMemberRequestView, WireFault> {
        let v_chat_id = ChatIdView::req_field(es, "chat_id"@, "UnbanChatMemberRequest"@);
        let v_user_id = req_int(es, "user_id"@, "UnbanChatMemberRequest"@);
        let v_only_if_banned = opt_bool(es, "only_if_banned"@);
        if v_chat_id is Err {
            Err(v_chat_id->Err_0)
        } else if v_user_id is Err {
            Err(v_user_id->Err_0)
        } else if v_only_if_banned is Err {
            Err(v_only_if_banned->Err_0)
        } else {
            Ok(
                UnbanChatMemberRequestView {
                    chat_id: v_chat_id->Ok_0,
                    user_id: v_user_id->Ok_0,
                    only_if_banned: v_only_if_banned->Ok_0,
                },
            )
        }
    }

    pub open spec fn decode(j: Json) -> Result<UnbanChatMemberRequestView, WireFault> {
        match j {
            Json::Object(es) => UnbanChatMemberRequestView::decode_entries(es),
            _ => Err(WireFault::NotAnObject { owner: "UnbanChatMemberRequest"@, raw: j }),
        }
    }

    /// No two fields of this type share a wire key.
    pub proof fn lemma_keys_distinct(self)
        ensures
            keys_distinct(self.fields()),
    {
        reveal_strlit("chat_id");
        reveal_strlit("user_id");
        reveal_strlit("only_if_banned");
        assert("chat_id"@.len() == 7);
        assert("user_id"@.len() == 7);
        assert("only_if_banned"@.len() == 14);
        assert("chat_id"@[0] == 'c');
        assert("user_id"@[0] == 'u');
        assert("chat_id"@ != "user_id"@);
        assert("chat_id"@ != "only_if_banned"@);
        assert("user_id"@ != "only_if_banned"@);
        let fs = self.fields();
        assert(fs.len() == 3);
        assert(fs[0].0 == "chat_id"@);
        assert(fs[1].0 == "user_id"@);
        assert(fs[2].0 == "only_if_banned"@);
    }

    /// Decoding what was encoded gives the value back.
    pub proof fn lemma_round_trip(self)
        ensures
            UnbanChatMemberRequestView::decode(self.json()) == Ok::<UnbanChatMemberRequestView, WireFault>(self),
    {
        let fs = self.fields();
        self.lemma_keys_distinct();
        lemma_present_lookup(fs, 0);
        lemma_present_lookup(fs, 1);
        lemma_present_lookup(fs, 2);
        self.chat_id.lemma_round_trip();
        let es = present(fs);
        assert(ChatIdView::req_field(es, "chat_id"@, "UnbanChatMemberRequest"@) == Ok::<ChatIdView, WireFault>(self.chat_id));
        assert(req_int(es, "user_id"@, "UnbanChatMemberRequest"@) == Ok::<i64, WireFault>(self.user_id));
        assert(opt_bool(es, "only_if_banned"@) == Ok::<Option<bool>, WireFault>(self.only_if_banned));
    }

}

impl UnbanChatMemberRequest {
    /// Writes the fields of this value into `w`, in declared order.
    pub fn write_fields(&self, w: &mut ObjectWriter)
        requires
            old(w).wf(),
        ensures
            final(w).wf(),
            final(w).fields@ == old(w).fields@ + self@.fields(),
    {
        let ghost start = w.fields@;
        w.put("chat_id", self.chat_id.to_json());
        w.put("user_id", JsonValue::Int(self.user_id));
        w.field("only_if_banned", bool_value(self.only_if_banned));
        assert(w.fields@ =~= start + self@.fields());
    }

    /// The JSON object that this value is sent as.
    pub fn to_json(&self) -> (r: JsonValue)
        ensures
            r@ == self@.json(),
    {
        let mut w = ObjectWriter::new();
        self.write_fields(&mut w);
        assert(w.fields@ =~= self@.fields());
        w.finish()
    }

    /// Reads a value from the entries of a JSON object.
    pub fn read_entries(es: &Vec<(String, JsonValue)>) -> (r: Result<UnbanChatMemberRequest, WireError>)
        ensures
            rview(r) == UnbanChatMemberRequestView::decode_entries(entries_view(es@)),
    {
        let v_chat_id = match ChatId::read_field(es, "chat_id", "UnbanChatMemberRequest") {
            Ok(v) => v,
            Err(e) => return Err(e),
        };
        let v_user_id = match read_int(es, "user_id", "UnbanChatMemberRequest") {
            Ok(v) => v,
            Err(e) => return Err(e),
        };
        let v_only_if_banned = match read_opt_bool(es, "only_if_banned") {
            Ok(v) => v,
            Err(e) => return Err(e),
        };
        Ok(UnbanChatMemberRequest { chat_id: v_chat_id, user_id: v_user_id, only_if_banned: v_only_if_banned })
    }

    /// Reads a value from a JSON document, which must be an object.
    pub fn from_json(j: &JsonValue) -> (r: Result<UnbanChatMemberRequest, WireError>)
        ensures
            rview(r) == UnbanChatMemberRequestView::decode(j@),
    {
        match j {
            JsonValue::Object(es) => UnbanChatMemberRequest::read_entries(es),
            _ => Err(WireError::NotAnObject { owner: "UnbanChatMemberRequest".to_owned(), raw: j.duplicate() }),
        }
    }

}

impl Chat {
    /// A private chat with the party called `name`, as used for local testing.
    pub fn from_name(name: &str) -> (r: Chat)
        ensures
            r@ == (ChatView {
                id: 0,
                chat_type: "private"@,
                title: None,
                username: Some(name@),
                first_name: Some(name@),
                last_name: None,
                all_members_are_administrators: None,
                is_forum: None,
            }),
    {
        Chat {
            id: 0,
            chat_type: "private".to_owned(),
            title: None,
            username: Some(name.to_owned()),
            first_name: Some(name.to_owned()),
            last_name: None,
            all_members_are_administrators: None,
            is_forum: None,
        }
    }
}

impl SendChatActionRequest {
    pub fn new(chat_id: i64, action: ChatAction) -> (r: SendChatActionRequest)
        ensures
            r == (SendChatActionRequest { chat_id, message_thread_id: None, action }),
    {
        SendChatActionRequest { chat_id, action, message_thread_id: None }
    }
}

impl SetChatPermissionRequest {
    pub fn new(
        chat_id: ChatId,
        permissions: ChatPermissions,
        use_independent_chat_permissions: Option<bool>,
    ) -> (r: SetChatPermissionRequest)
        ensures
            r@ == (SetChatPermissionRequestView {
                chat_id: chat_id@,
                permissions,
                use_independent_chat_permissions,
            }),
    {
        SetChatPermissionRequest { chat_id, permissions, use_independent_chat_permissions }
    }
}

impl RestrictChatMemberRequest {
    pub fn new(
        chat_id: ChatId,
        user_id: i64,
        permissions: ChatPermissions,
        use_independent_chat_permissions: Option<bool>,
        until_date: Option<i64>,
    ) -> (r: RestrictChatMemberRequest)
        ensures
            r@ == (RestrictChatMemberRequestView {
                chat_id: chat_id@,
                user_id,
                permissions,
                use_independent_chat_permissions,
                until_date,
            }),
    {
        RestrictChatMemberRequest {
            chat_id,
            user_id,
            permissions,
            use_independent_chat_permissions,
            until_date,
        }
    }
}

impl GetChatAdministratorsRequest {
    pub fn new(chat_id: ChatId) -> (r: GetChatAdministratorsRequest)
        ensures
            r@ == (GetChatAdministratorsRequestView { chat_id: chat_id@ }),
    {
        GetChatAdministratorsRequest { chat_id }
    }
}

impl GetChatRequest {
    pub fn new(chat_id: ChatId) -> (r: GetChatRequest)
        ensures
            r@ == (GetChatRequestView { chat_id: chat_id@ }),
    {
        GetChatRequest { chat_id }
    }
}

impl BanChatMemberRequest {
    pub fn new(chat_id: ChatId, user_id: i64, until_date: Option<i64>, revoke_messages: Option<bool>) -> (r:
        BanChatMemberRequest)
        ensures
            r@ == (BanChatMemberRequestView { chat_id: chat_id@, user_id, until_date, revoke_messages }),
    {
        BanChatMemberRequest { chat_id, user_id, until_date, revoke_messages }
    }
}

impl UnbanChatMemberRequest {
    pub fn new(chat_id: ChatId, user_id: i64, only_if_banned: Option<bool>) -> (r:
        UnbanChatMemberRequest)
        ensures
            r@ == (UnbanChatMemberRequestView { chat_id: chat_id@, user_id, only_if_banned }),
    {
        UnbanChatMemberRequest { chat_id, user_id, only_if_banned }
    }
}

} // verus!
