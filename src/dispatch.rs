use vstd::prelude::*;

use crate::chat::{
    BanChatMemberRequest, ChatFullInfo, ChatFullInfoView, ChatMemberAdministrator,
    ChatMemberAdministratorView, GetChatAdministratorsRequest, GetChatRequest,
    RestrictChatMemberRequest, SendChatActionRequest, SetChatPermissionRequest,
    UnbanChatMemberRequest,
};
use crate::json::{items_view, rview, Json, JsonValue, WireError, WireFault};
use crate::message::{
    DeleteMessageRequest, EditMessageCaptionRequest, EditMessageReplyMarkupRequest,
    EditMessageTextRequest, Message, MessageView, SendMessageRequest,
};

verus! {

/// Binds a request type to its wire method and to the type of its result.
pub trait BotRequest: Sized {
    type Response;

    /// The name of the remote method.
    spec fn spec_method() -> Seq<char>;

    /// The JSON object that the request is sent as.
    spec fn spec_body(&self) -> Json;

    /// `r` is what reading the result document `j` gives.
    spec fn parses_to(j: Json, r: Result<Self::Response, WireError>) -> bool;

    fn method_name(&self) -> (r: String)
        ensures
            r@ == Self::spec_method(),
    ;

    fn body(&self) -> (r: JsonValue)
        ensures
            r@ == self.spec_body(),
    ;

    fn parse_response(j: &JsonValue) -> (r: Result<Self::Response, WireError>)
        ensures
            Self::parses_to(j@, r),
    ;
}

/// The result of a method that answers with a flag.
pub open spec fn decode_flag(j: Json) -> Result<bool, WireFault> {
    match j {
        Json::Bool(b) => Ok(b),
        _ => Err(WireFault::InvalidValue { field: "result"@, raw: j }),
    }
}

pub fn read_flag(j: &JsonValue) -> (r: Result<bool, WireError>)
    ensures
        rview(r) == decode_flag(j@),
{
    match j {
        JsonValue::Bool(b) => Ok(*b),
        _ => Err(WireError::InvalidValue { field: "result".to_owned(), raw: j.duplicate() }),
    }
}

/// Reads each administrator of a list in turn; the first that fails decides
/// the error.
pub open spec fn decode_administrator_items(items: Seq<Json>) -> Result<
    Seq<ChatMemberAdministratorView>,
    WireFault,
>
    decreases items.len(),
{
    if items.len() == 0 {
        Ok(Seq::empty())
    } else {
        match decode_administrator_items(items.drop_last()) {
            Err(e) => Err(e),
            Ok(done) => match ChatMemberAdministratorView::decode(items.last()) {
                Ok(a) => Ok(done.push(a)),
                Err(e) => Err(e),
            },
        }
    }
}

/// The result of a method that answers with a list of administrators.
pub open spec fn decode_administrators(j: Json) -> Result<Seq<ChatMemberAdministratorView>, WireFault> {
    match j {
        Json::Array(items) => decode_administrator_items(items),
        _ => Err(WireFault::InvalidValue { field: "result"@, raw: j }),
    }
}

pub fn read_administrators(j: &JsonValue) -> (r: Result<Vec<ChatMemberAdministrator>, WireError>)
    ensures
        match r {
            Ok(v) => decode_administrators(j@) == Ok::<Seq<ChatMemberAdministratorView>, WireFault>(
                v@.map_values(|a: ChatMemberAdministrator| a@),
            ),
            Err(e) => decode_administrators(j@) == Err::<Seq<ChatMemberAdministratorView>, WireFault>(
                e@,
            ),
        },
{
    match j {
        JsonValue::Array(items) => {
            let ghost iv = items_view(items@);
            let mut out: Vec<ChatMemberAdministrator> = Vec::new();
            let mut k: usize = 0;
            assert(iv.take(0) =~= Seq::<Json>::empty());
            assert(out@.map_values(|a: ChatMemberAdministrator| a@) =~= Seq::<
                ChatMemberAdministratorView,
            >::empty());
            while k < items.len()
                invariant
                    j@ == Json::Array(iv),
                    k <= items@.len(),
                    iv == items_view(items@),
                    iv.len() == items@.len(),
                    decode_administrator_items(iv.take(k as int)) == Ok::<
                        Seq<ChatMemberAdministratorView>,
                        WireFault,
                    >(out@.map_values(|a: ChatMemberAdministrator| a@)),
                decreases items@.len() - k,
            {
                let ghost before = out@;
                assert(iv.take(k + 1).drop_last() =~= iv.take(k as int));
                assert(iv.take(k + 1).last() == items@[k as int]@);
                match ChatMemberAdministrator::from_json(&items[k]) {
                    Ok(a) => {
                        out.push(a);
                        assert(out@.map_values(|a: ChatMemberAdministrator| a@) =~= before.map_values(
                            |a: ChatMemberAdministrator| a@,
                        ).push(a@));
                    },
                    Err(e) => {
                        proof {
                            lemma_administrator_error_stays(iv, k as int + 1);
                        }
                        return Err(e);
                    },
                }
                k += 1;
            }
            assert(iv.take(k as int) =~= iv);
            Ok(out)
        },
        _ => Err(WireError::InvalidValue { field: "result".to_owned(), raw: j.duplicate() }),
    }
}

/// Once a prefix of the list fails, the whole list fails with the same error.
pub proof fn lemma_administrator_error_stays(items: Seq<Json>, n: int)
    requires
        0 <= n <= items.len(),
        decode_administrator_items(items.take(n)) is Err,
    ensures
        decode_administrator_items(items) == decode_administrator_items(items.take(n)),
    decreases items.len() - n,
{
    if n < items.len() {
        assert(items.take(n + 1).drop_last() =~= items.take(n));
        lemma_administrator_error_stays(items, n + 1);
    } else {
        assert(items.take(n) =~= items);
    }
}

/// Why a call did not produce a result.
#[derive(Debug, Clone, PartialEq)]
pub enum ApiError {
    /// The transport failed; its message is passed on as it came.
    Transport { method: String, message: String },
    /// The answer does not have the shape of the method's result.
    Decode { method: String, error: WireError },
}

/// Turns what the transport answered to `req` into the outcome of the call: a
/// transport failure is passed on with the method's name, an answer is read as
/// the method's result.
pub fn complete<R: BotRequest>(req: &R, outcome: Result<JsonValue, String>) -> (r: Result<
    R::Response,
    ApiError,
>)
    ensures
        match outcome {
            Err(m) => r matches Err(ApiError::Transport { method, message }) && method@
                == R::spec_method() && message@ == m@,
            Ok(j) => match r {
                Ok(v) => R::parses_to(j@, Ok(v)),
                Err(ApiError::Decode { method, error }) => method@ == R::spec_method()
                    && R::parses_to(j@, Err(error)),
                Err(ApiError::Transport { .. }) => false,
            },
        },
{
    match outcome {
        Err(message) => Err(ApiError::Transport { method: req.method_name(), message }),
        Ok(j) => match R::parse_response(&j) {
            Ok(v) => Ok(v),
            Err(error) => Err(ApiError::Decode { method: req.method_name(), error }),
        },
    }
}

impl BotRequest for SendChatActionRequest {
    type Response = bool;

    open spec fn spec_method() -> Seq<char> {
        "sendChatAction"@
    }

    open spec fn spec_body(&self) -> Json {
        self@.json()
    }

    open spec fn parses_to(j: Json, r: Result<bool, WireError>) -> bool {
        rview(r) == decode_flag(j)
    }

    fn method_name(&self) -> (r: String) {
        "sendChatAction".to_owned()
    }

    fn body(&self) -> (r: JsonValue) {
        self.to_json()
    }

    fn parse_response(j: &JsonValue) -> (r: Result<bool, WireError>) {
        read_flag(j)
    }
}

impl BotRequest for SetChatPermissionRequest {
    type Response = bool;

    open spec fn spec_method() -> Seq<char> {
        "setChatPermissions"@
    }

    open spec fn spec_body(&self) -> Json {
        self@.json()
    }

    open spec fn parses_to(j: Json, r: Result<bool, WireError>) -> bool {
        rview(r) == decode_flag(j)
    }

    fn method_name(&self) -> (r: String) {
        "setChatPermissions".to_owned()
    }

    fn body(&self) -> (r: JsonValue) {
        self.to_json()
    }

    fn parse_response(j: &JsonValue) -> (r: Result<bool, WireError>) {
        read_flag(j)
    }
}

impl BotRequest for RestrictChatMemberRequest {
    type Response = bool;

    open spec fn spec_method() -> Seq<char> {
        "restrictChatMember"@
    }

    open spec fn spec_body(&self) -> Json {
        self@.json()
    }

    open spec fn parses_to(j: Json, r: Result<bool, WireError>) -> bool {
        rview(r) == decode_flag(j)
    }

    fn method_name(&self) -> (r: String) {
        "restrictChatMember".to_owned()
    }

    fn body(&self) -> (r: JsonValue) {
        self.to_json()
    }

    fn parse_response(j: &JsonValue) -> (r: Result<bool, WireError>) {
        read_flag(j)
    }
}

impl BotRequest for GetChatAdministratorsRequest {
    type Response = Vec<ChatMemberAdministrator>;

    open spec fn spec_method() -> Seq<char> {
        "getChatAdministrators"@
    }

    open spec fn spec_body(&self) -> Json {
        self@.json()
    }

    open spec fn parses_to(j: Json, r: Result<Vec<ChatMemberAdministrator>, WireError>) -> bool {
        match r {
            Ok(v) => decode_administrators(j) == Ok::<Seq<ChatMemberAdministratorView>, WireFault>(
                v@.map_values(|a: ChatMemberAdministrator| a@),
            ),
            Err(e) => decode_administrators(j) == Err::<Seq<ChatMemberAdministratorView>, WireFault>(
                e@,
            ),
        }
    }

    fn method_name(&self) -> (r: String) {
        "getChatAdministrators".to_owned()
    }

    fn body(&self) -> (r: JsonValue) {
        self.to_json()
    }

    fn parse_response(j: &JsonValue) -> (r: Result<Vec<ChatMemberAdministrator>, WireError>) {
        read_administrators(j)
    }
}

impl BotRequest for GetChatRequest {
    type Response = ChatFullInfo;

    open spec fn spec_method() -> Seq<char> {
        "getChat"@
    }

    open spec fn spec_body(&self) -> Json {
        self@.json()
    }

    open spec fn parses_to(j: Json, r: Result<ChatFullInfo, WireError>) -> bool {
        rview(r) == ChatFullInfoView::decode(j)
    }

    fn method_name(&self) -> (r: String) {
        "getChat".to_owned()
    }

    fn body(&self) -> (r: JsonValue) {
        self.to_json()
    }

    fn parse_response(j: &JsonValue) -> (r: Result<ChatFullInfo, WireError>) {
        ChatFullInfo::from_json(j)
    }
}

impl BotRequest for BanChatMemberRequest {
    type Response = bool;

    open spec fn spec_method() -> Seq<char> {
        "banChatMember"@
    }

    open spec fn spec_body(&self) -> Json {
        self@.json()
    }

    open spec fn parses_to(j: Json, r: Result<bool, WireError>) -> bool {
        rview(r) == decode_flag(j)
    }

    fn method_name(&self) -> (r: String) {
        "banChatMember".to_owned()
    }

    fn body(&self) -> (r: JsonValue) {
        self.to_json()
    }

    fn parse_response(j: &JsonValue) -> (r: Result<bool, WireError>) {
        read_flag(j)
    }
}

impl BotRequest for UnbanChatMemberRequest {
    type Response = bool;

    open spec fn spec_method() -> Seq<char> {
        "unbanChatMember"@
    }

    open spec fn spec_body(&self) -> Json {
        self@.json()
    }

    open spec fn parses_to(j: Json, r: Result<bool, WireError>) -> bool {
        rview(r) == decode_flag(j)
    }

    fn method_name(&self) -> (r: String) {
        "unbanChatMember".to_owned()
    }

    fn body(&self) -> (r: JsonValue) {
        self.to_json()
    }

    fn parse_response(j: &JsonValue) -> (r: Result<bool, WireError>) {
        read_flag(j)
    }
}

impl BotRequest for SendMessageRequest {
    type Response = Message;

    open spec fn spec_method() -> Seq<char> {
        "sendMessage"@
    }

    open spec fn spec_body(&self) -> Json {
        self@.json()
    }

    open spec fn parses_to(j: Json, r: Result<Message, WireError>) -> bool {
        rview(r) == MessageView::decode(j)
    }

    fn method_name(&self) -> (r: String) {
        "sendMessage".to_owned()
    }

    fn body(&self) -> (r: JsonValue) {
        self.to_json()
    }

    fn parse_response(j: &JsonValue) -> (r: Result<Message, WireError>) {
        Message::from_json(j)
    }
}

impl BotRequest for EditMessageTextRequest {
    type Response = Message;

    open spec fn spec_method() -> Seq<char> {
        "editMessageText"@
    }

    open spec fn spec_body(&self) -> Json {
        self@.json()
    }

    open spec fn parses_to(j: Json, r: Result<Message, WireError>) -> bool {
        rview(r) == MessageView::decode(j)
    }

    fn method_name(&self) -> (r: String) {
        "editMessageText".to_owned()
    }

    fn body(&self) -> (r: JsonValue) {
        self.to_json()
    }

    fn parse_response(j: &JsonValue) -> (r: Result<Message, WireError>) {
        Message::from_json(j)
    }
}

impl BotRequest for EditMessageCaptionRequest {
    type Response = Message;

    open spec fn spec_method() -> Seq<char> {
        "editMessageCaption"@
    }

    open spec fn spec_body(&self) -> Json {
        self@.json()
    }

    open spec fn parses_to(j: Json, r: Result<Message, WireError>) -> bool {
        rview(r) == MessageView::decode(j)
    }

    fn method_name(&self) -> (r: String) {
        "editMessageCaption".to_owned()
    }

    fn body(&self) -> (r: JsonValue) {
        self.to_json()
    }

    fn parse_response(j: &JsonValue) -> (r: Result<Message, WireError>) {
        Message::from_json(j)
    }
}

impl BotRequest for EditMessageReplyMarkupRequest {
    type Response = Message;

    open spec fn spec_method() -> Seq<char> {
        "editMessageReplyMarkup"@
    }

    open spec fn spec_body(&self) -> Json {
        self@.json()
    }

    open spec fn parses_to(j: Json, r: Result<Message, WireError>) -> bool {
        rview(r) == MessageView::decode(j)
    }

    fn method_name(&self) -> (r: String) {
        "editMessageReplyMarkup".to_owned()
    }

    fn body(&self) -> (r: JsonValue) {
        self.to_json()
    }

    fn parse_response(j: &JsonValue) -> (r: Result<Message, WireError>) {
        Message::from_json(j)
    }
}

impl BotRequest for DeleteMessageRequest {
    type Response = bool;

    open spec fn spec_method() -> Seq<char> {
        "deleteMessage"@
    }

    open spec fn spec_body(&self) -> Json {
        self@.json()
    }

    open spec fn parses_to(j: Json, r: Result<bool, WireError>) -> bool {
        rview(r) == decode_flag(j)
    }

    fn method_name(&self) -> (r: String) {
        "deleteMessage".to_owned()
    }

    fn body(&self) -> (r: JsonValue) {
        self.to_json()
    }

    fn parse_response(j: &JsonValue) -> (r: Result<bool, WireError>) {
        read_flag(j)
    }
}

} // verus!
