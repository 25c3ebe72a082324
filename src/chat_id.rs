use vstd::prelude::*;

use crate::json::{
    entries_view, find_key, optional, required, rview, Json, JsonValue, WireError, WireFault,
};

verus! {

/// Identifies a chat by its number or by its username (`@channelusername`).
#[derive(Debug, Clone, PartialEq)]
pub enum ChatId {
    Integer(i64),
    Text(String),
}

/// The model of [`ChatId`].
pub enum ChatIdView {
    Integer(i64),
    Text(Seq<char>),
}

impl View for ChatId {
    type V = ChatIdView;

    open spec fn view(&self) -> ChatIdView {
        match self {
            ChatId::Integer(n) => ChatIdView::Integer(*n),
            ChatId::Text(s) => ChatIdView::Text(s@),
        }
    }
}

pub open spec fn opt_chat_id(v: Option<ChatId>) -> Option<ChatIdView> {
    match v {
        Some(c) => Some(c@),
        None => None,
    }
}

impl ChatIdView {
    /// A number is written as a JSON number, a username as a JSON string.
    pub open spec fn json(self) -> Json {
        match self {
            ChatIdView::Integer(n) => Json::Int(n),
            ChatIdView::Text(s) => Json::Str(s),
        }
    }

    /// A JSON number or string, tagged by which of the two it is.
    pub open spec fn parse(j: Json) -> Option<ChatIdView> {
        match j {
            Json::Int(n) => Some(ChatIdView::Integer(n)),
            Json::Str(s) => Some(ChatIdView::Text(s)),
            _ => None,
        }
    }

    pub open spec fn decode(j: Json) -> Result<ChatIdView, WireFault> {
        match ChatIdView::parse(j) {
            Some(c) => Ok(c),
            None => Err(WireFault::InvalidValue { field: "chat_id"@, raw: j }),
        }
    }

    pub open spec fn req_field(es: Seq<(Seq<char>, Json)>, key: Seq<char>, owner: Seq<char>) -> Result<
        ChatIdView,
        WireFault,
    > {
        required(es, key, owner, |j: Json| ChatIdView::parse(j))
    }

    pub open spec fn opt_field(es: Seq<(Seq<char>, Json)>, key: Seq<char>) -> Result<
        Option<ChatIdView>,
        WireFault,
    > {
        optional(es, key, |j: Json| ChatIdView::parse(j))
    }

    /// Either representation is read back as the variant it was written from.
    pub proof fn lemma_round_trip(self)
        ensures
            ChatIdView::parse(self.json()) == Some(self),
            ChatIdView::decode(self.json()) == Ok::<ChatIdView, WireFault>(self),
    {
    }
}

impl ChatId {
    pub fn to_json(&self) -> (r: JsonValue)
        ensures
            r@ == self@.json(),
    {
        match self {
            ChatId::Integer(n) => JsonValue::Int(*n),
            ChatId::Text(s) => JsonValue::Str(s.clone()),
        }
    }

    pub fn from_json(j: &JsonValue) -> (r: Result<ChatId, WireError>)
        ensures
            rview(r) == ChatIdView::decode(j@),
    {
        match j {
            JsonValue::Int(n) => Ok(ChatId::Integer(*n)),
            JsonValue::Str(s) => Ok(ChatId::Text(s.clone())),
            _ => Err(WireError::InvalidValue { field: "chat_id".to_owned(), raw: j.duplicate() }),
        }
    }

    /// Reads the required identifier stored under `key`.
    pub fn read_field(entries: &Vec<(String, JsonValue)>, key: &str, owner: &str) -> (r: Result<
        ChatId,
        WireError,
    >)
        ensures
            rview(r) == ChatIdView::req_field(entries_view(entries@), key@, owner@),
    {
        match find_key(entries, key) {
            None => Err(
                WireError::MissingField { owner: owner.to_owned(), field: key.to_owned() },
            ),
            Some(i) => match &entries[i].1 {
                JsonValue::Int(n) => Ok(ChatId::Integer(*n)),
                JsonValue::Str(s) => Ok(ChatId::Text(s.clone())),
                other => Err(WireError::InvalidValue { field: key.to_owned(), raw: other.duplicate() }),
            },
        }
    }

    /// Reads the optional identifier stored under `key`.
    pub fn read_opt_field(entries: &Vec<(String, JsonValue)>, key: &str) -> (r: Result<
        Option<ChatId>,
        WireError,
    >)
        ensures
            match r {
                Ok(v) => ChatIdView::opt_field(entries_view(entries@), key@) == Ok::<
                    Option<ChatIdView>,
                    WireFault,
                >(opt_chat_id(v)),
                Err(e) => ChatIdView::opt_field(entries_view(entries@), key@) == Err::<
                    Option<ChatIdView>,
                    WireFault,
                >(e@),
            },
    {
        match find_key(entries, key) {
            None => Ok(None),
            Some(i) => match &entries[i].1 {
                JsonValue::Null => Ok(None),
                JsonValue::Int(n) => Ok(Some(ChatId::Integer(*n))),
                JsonValue::Str(s) => Ok(Some(ChatId::Text(s.clone()))),
                other => Err(WireError::InvalidValue { field: key.to_owned(), raw: other.duplicate() }),
            },
        }
    }
}


} // verus!
