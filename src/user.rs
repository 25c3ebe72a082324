use vstd::prelude::*;

use crate::json::{
    entries_view, find_key, lookup, nest_error, nested_fault, opt_str, opt_string, read_bool,
    read_int, read_opt_str, read_str, req_bool, req_int, req_str, rview, Json, JsonValue, WireError,
    WireFault,
};

verus! {

/// A user or bot.
#[derive(Debug, Clone, PartialEq)]
pub struct User {
    /// Unique identifier of the user.
    pub id: i64,
    /// True if the user is a bot.
    pub is_bot: bool,
    /// The user's first name.
    pub first_name: String,
    /// The user's last name.
    pub last_name: Option<String>,
    /// The user's username.
    pub username: Option<String>,
    /// IETF language tag of the user's language.
    pub language_code: Option<String>,
}

/// The model of [`User`].
pub struct UserView {
    pub id: i64,
    pub is_bot: bool,
    pub first_name: Seq<char>,
    pub last_name: Option<Seq<char>>,
    pub username: Option<Seq<char>>,
    pub language_code: Option<Seq<char>>,
}

impl View for User {
    type V = UserView;

    open spec fn view(&self) -> UserView {
        UserView {
            id: self.id,
            is_bot: self.is_bot,
            first_name: self.first_name@,
            last_name: opt_str(self.last_name),
            username: opt_str(self.username),
            language_code: opt_str(self.language_code),
        }
    }
}

impl UserView {
    pub open spec fn decode_entries(es: Seq<(Seq<char>, Json)>) -> Result<UserView, WireFault> {
        let v_id = req_int(es, "id"@, "User"@);
        let v_is_bot = req_bool(es, "is_bot"@, "User"@);
        let v_first_name = req_str(es, "first_name"@, "User"@);
        let v_last_name = opt_string(es, "last_name"@);
        let v_username = opt_string(es, "username"@);
        let v_language_code = opt_string(es, "language_code"@);
        if v_id is Err {
            Err(v_id->Err_0)
        } else if v_is_bot is Err {
            Err(v_is_bot->Err_0)
        } else if v_first_name is Err {
            Err(v_first_name->Err_0)
        } else if v_last_name is Err {
            Err(v_last_name->Err_0)
        } else if v_username is Err {
            Err(v_username->Err_0)
        } else if v_language_code is Err {
            Err(v_language_code->Err_0)
        } else {
            Ok(
                UserView {
                    id: v_id->Ok_0,
                    is_bot: v_is_bot->Ok_0,
                    first_name: v_first_name->Ok_0,
                    last_name: v_last_name->Ok_0,
                    username: v_username->Ok_0,
                    language_code: v_language_code->Ok_0,
                },
            )
        }
    }

    pub open spec fn decode(j: Json) -> Result<UserView, WireFault> {
        match j {
            Json::Object(es) => UserView::decode_entries(es),
            _ => Err(WireFault::NotAnObject { owner: "User"@, raw: j }),
        }
    }

    pub open spec fn req_field(es: Seq<(Seq<char>, Json)>, key: Seq<char>, owner: Seq<char>) -> Result<UserView, WireFault> {
        match lookup(es, key) {
            None => Err(WireFault::MissingField { owner, field: key }),
            Some(v) => match UserView::decode(v) {
                Ok(x) => Ok(x),
                Err(e) => Err(nested_fault(key, e)),
            },
        }
    }

    pub open spec fn opt_field(es: Seq<(Seq<char>, Json)>, key: Seq<char>) -> Result<Option<UserView>, WireFault> {
        match lookup(es, key) {
            None => Ok(None),
            Some(Json::Null) => Ok(None),
            Some(v) => match UserView::decode(v) {
                Ok(x) => Ok(Some(x)),
                Err(e) => Err(nested_fault(key, e)),
            },
        }
    }

}

impl User {
    /// Reads a value from the entries of a JSON object.
    pub fn read_entries(es: &Vec<(String, JsonValue)>) -> (r: Result<User, WireError>)
        ensures
            rview(r) == UserView::decode_entries(entries_view(es@)),
    {
        let v_id = match read_int(es, "id", "User") {
            Ok(v) => v,
            Err(e) => return Err(e),
        };
        let v_is_bot = match read_bool(es, "is_bot", "User") {
            Ok(v) => v,
            Err(e) => return Err(e),
        };
        let v_first_name = match read_str(es, "first_name", "User") {
            Ok(v) => v,
            Err(e) => return Err(e),
        };
        let v_last_name = match read_opt_str(es, "last_name") {
            Ok(v) => v,
            Err(e) => return Err(e),
        };
        let v_username = match read_opt_str(es, "username") {
            Ok(v) => v,
            Err(e) => return Err(e),
        };
        let v_language_code = match read_opt_str(es, "language_code") {
            Ok(v) => v,
            Err(e) => return Err(e),
        };
        Ok(User { id: v_id, is_bot: v_is_bot, first_name: v_first_name, last_name: v_last_name, username: v_username, language_code: v_language_code })
    }

    /// Reads a value from a JSON document, which must be an object.
    pub fn from_json(j: &JsonValue) -> (r: Result<User, WireError>)
        ensures
            rview(r) == UserView::decode(j@),
    {
        match j {
            JsonValue::Object(es) => User::read_entries(es),
            _ => Err(WireError::NotAnObject { owner: "User".to_owned(), raw: j.duplicate() }),
        }
    }

    /// Reads the required field `key`.
    pub fn read_field(es: &Vec<(String, JsonValue)>, key: &str, owner: &str) -> (r: Result<User, WireError>)
        ensures
            rview(r) == UserView::req_field(entries_view(es@), key@, owner@),
    {
        match find_key(es, key) {
            None => Err(WireError::MissingField { owner: owner.to_owned(), field: key.to_owned() }),
            Some(i) => match User::from_json(&es[i].1) {
                Ok(v) => Ok(v),
                Err(e) => Err(nest_error(key, e)),
            },
        }
    }

    /// Reads the optional field `key`.
    pub fn read_opt_field(es: &Vec<(String, JsonValue)>, key: &str) -> (r: Result<Option<User>, WireError>)
        ensures
            match r {
                Ok(v) => UserView::opt_field(entries_view(es@), key@) == Ok::<Option<UserView>, WireFault>(match v {
                    Some(x) => Some(x@),
                    None => None,
                }),
                Err(e) => UserView::opt_field(entries_view(es@), key@) == Err::<Option<UserView>, WireFault>(e@),
            },
    {
        match find_key(es, key) {
            None => Ok(None),
            Some(i) => match &es[i].1 {
                JsonValue::Null => Ok(None),
                other => match User::from_json(other) {
                    Ok(v) => Ok(Some(v)),
                    Err(e) => Err(nest_error(key, e)),
                },
            },
        }
    }

}

impl User {
    /// A user that is not a bot, known by `name` alone, as used for local testing.
    pub fn from_name(name: &str) -> (r: User)
        ensures
            r@ == (UserView {
                id: 0,
                is_bot: false,
                first_name: name@,
                last_name: None,
                username: Some(name@),
                language_code: None,
            }),
    {
        User {
            id: 0,
            is_bot: false,
            first_name: name.to_owned(),
            last_name: None,
            username: Some(name.to_owned()),
            language_code: None,
        }
    }
}

} // verus!
