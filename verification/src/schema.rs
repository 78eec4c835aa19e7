//! The JSON documents that spell the messages: an object whose member `type`
//! names the kind of message and whose other members are the message's fields.

use crate::json::{member, Json, JsonView, Member};
use crate::message::{
    reads, text_of, texts_of, AuthMessageType, ErrorType, Request, RequestView, Response, ResponseView,
};
use vstd::prelude::*;
use vstd::string::*;

verus! {

/// The members of an object, as mathematical values.
pub open spec fn members_view(members: Seq<Member>) -> Seq<(Seq<char>, JsonView)> {
    Seq::new(members.len(), |i: int| (members[i].name@, members[i].value@))
}

/// The items of an array, as mathematical values.
pub open spec fn items_view(items: Seq<Json>) -> Seq<JsonView> {
    Seq::new(items.len(), |i: int| items[i]@)
}

/// An object is its members.
pub proof fn lemma_object_view(members: Vec<Member>)
    ensures
        Json::Object(members)@ == JsonView::Object(members_view(members@)),
{
    let doc = Json::Object(members);
    assert(doc@->Object_0 =~= members_view(members@));
}

/// An array is its items.
pub proof fn lemma_array_view(items: Vec<Json>)
    ensures
        Json::Array(items)@ == JsonView::Array(items_view(items@)),
{
    let doc = Json::Array(items);
    assert(doc@->Array_0 =~= items_view(items@));
}

/// The text of a JSON string, and the empty text for any other document.
pub open spec fn string_of(doc: JsonView) -> Seq<char> {
    match doc {
        JsonView::Str(text) => text,
        _ => Seq::empty(),
    }
}

/// The texts of `items`, where every item is a string.
pub open spec fn strings_of(items: Seq<JsonView>) -> Option<Seq<Seq<char>>> {
    if forall|i: int| 0 <= i < items.len() ==> (#[trigger] items[i]) is Str {
        Some(Seq::new(items.len(), |i: int| string_of(items[i])))
    } else {
        None
    }
}

/// The array of JSON strings that spells a list of texts.
pub open spec fn strings_doc(texts: Seq<Seq<char>>) -> JsonView {
    JsonView::Array(Seq::new(texts.len(), |i: int| JsonView::Str(texts[i])))
}

/// The JSON string or `null` that spells an optional text.
pub open spec fn optional_doc(text: Option<Seq<char>>) -> JsonView {
    match text {
        Some(text) => JsonView::Str(text),
        None => JsonView::Null,
    }
}

/// The document that spells a request.
pub open spec fn request_doc(request: RequestView) -> JsonView {
    match request {
        RequestView::CreateSession { username } => JsonView::Object(
            seq![("type"@, JsonView::Str("create_session"@)), ("username"@, JsonView::Str(username))],
        ),
        RequestView::PostAuthMessageResponse { response } => JsonView::Object(
            seq![
                ("type"@, JsonView::Str("post_auth_message_response"@)),
                ("response"@, optional_doc(response)),
            ],
        ),
        RequestView::StartSession { cmd } => JsonView::Object(
            seq![("type"@, JsonView::Str("start_session"@)), ("cmd"@, strings_doc(cmd))],
        ),
        RequestView::CancelSession => JsonView::Object(
            seq![("type"@, JsonView::Str("cancel_session"@))],
        ),
    }
}

/// The request that a document spells, if it spells one. The document must be
/// an object whose member `type` is one of the four names. `username` must be a
/// string and `cmd` an array of strings; `response` may be a string, `null` or
/// missing. Members that the kind of request does not have are ignored.
pub open spec fn request_of(doc: JsonView) -> Option<RequestView> {
    match doc {
        JsonView::Object(members) => match member(members, "type"@) {
            Some(JsonView::Str(tag)) => {
                if tag == "create_session"@ {
                    match member(members, "username"@) {
                        Some(JsonView::Str(username)) => Some(
                            RequestView::CreateSession { username },
                        ),
                        _ => None,
                    }
                } else if tag == "post_auth_message_response"@ {
                    match member(members, "response"@) {
                        Some(JsonView::Str(answer)) => Some(
                            RequestView::PostAuthMessageResponse { response: Some(answer) },
                        ),
                        Some(JsonView::Null) | None => Some(
                            RequestView::PostAuthMessageResponse { response: None },
                        ),
                        _ => None,
                    }
                } else if tag == "start_session"@ {
                    match member(members, "cmd"@) {
                        Some(JsonView::Array(items)) => match strings_of(items) {
                            Some(cmd) => Some(RequestView::StartSession { cmd }),
                            None => None,
                        },
                        _ => None,
                    }
                } else if tag == "cancel_session"@ {
                    Some(RequestView::CancelSession)
                } else {
                    None
                }
            },
            _ => None,
        },
        _ => None,
    }
}

/// The word that spells a kind of prompt.
pub open spec fn auth_type_word(kind: AuthMessageType) -> Seq<char> {
    match kind {
        AuthMessageType::Visible => "visible"@,
        AuthMessageType::Secret => "secret"@,
    }
}

/// The kind of prompt that a word spells.
pub open spec fn auth_type_of(word: Seq<char>) -> Option<AuthMessageType> {
    if word == "visible"@ {
        Some(AuthMessageType::Visible)
    } else if word == "secret"@ {
        Some(AuthMessageType::Secret)
    } else {
        None
    }
}

/// The word that spells a kind of failure.
pub open spec fn error_type_word(kind: ErrorType) -> Seq<char> {
    match kind {
        ErrorType::AuthError => "auth_error"@,
        ErrorType::Error => "error"@,
    }
}

/// The kind of failure that a word spells.
pub open spec fn error_type_of(word: Seq<char>) -> Option<ErrorType> {
    if word == "auth_error"@ {
        Some(ErrorType::AuthError)
    } else if word == "error"@ {
        Some(ErrorType::Error)
    } else {
        None
    }
}

/// The document that spells a response.
pub open spec fn response_doc(response: ResponseView) -> JsonView {
    match response {
        ResponseView::Success => JsonView::Object(seq![("type"@, JsonView::Str("success"@))]),
        ResponseView::AuthMessage { auth_message_type, auth_message } => JsonView::Object(
            seq![
                ("type"@, JsonView::Str("auth_message"@)),
                ("auth_message_type"@, JsonView::Str(auth_type_word(auth_message_type))),
                ("auth_message"@, JsonView::Str(auth_message)),
            ],
        ),
        ResponseView::Error { error_type, description } => JsonView::Object(
            seq![
                ("type"@, JsonView::Str("error"@)),
                ("error_type"@, JsonView::Str(error_type_word(error_type))),
                ("description"@, JsonView::Str(description)),
            ],
        ),
    }
}

/// The prompt that the members of an `auth_message` spell.
pub open spec fn auth_message_of(members: Seq<(Seq<char>, JsonView)>) -> Option<ResponseView> {
    match (member(members, "auth_message_type"@), member(members, "auth_message"@)) {
        (Some(JsonView::Str(kind)), Some(JsonView::Str(text))) => match auth_type_of(kind) {
            Some(kind) => Some(
                ResponseView::AuthMessage { auth_message_type: kind, auth_message: text },
            ),
            None => None,
        },
        _ => None,
    }
}

/// The failure that the members of an `error` spell.
pub open spec fn error_of(members: Seq<(Seq<char>, JsonView)>) -> Option<ResponseView> {
    match (member(members, "error_type"@), member(members, "description"@)) {
        (Some(JsonView::Str(kind)), Some(JsonView::Str(text))) => match error_type_of(kind) {
            Some(kind) => Some(ResponseView::Error { error_type: kind, description: text }),
            None => None,
        },
        _ => None,
    }
}

/// The response that a document spells, if it spells one. The document must be
/// an object whose member `type` is one of the three names, and each field of
/// that kind of response must be there as a string; a kind must be one of its
/// two words. Members that the kind of response does not have are ignored.
pub open spec fn response_of(doc: JsonView) -> Option<ResponseView> {
    match doc {
        JsonView::Object(members) => match member(members, "type"@) {
            Some(JsonView::Str(tag)) => {
                if tag == "success"@ {
                    Some(ResponseView::Success)
                } else if tag == "auth_message"@ {
                    auth_message_of(members)
                } else if tag == "error"@ {
                    error_of(members)
                } else {
                    None
                }
            },
            _ => None,
        },
        _ => None,
    }
}

/// An optional response, as a mathematical value.
pub open spec fn response_option(response: Option<Response>) -> Option<ResponseView> {
    match response {
        Some(response) => Some(response@),
        None => None,
    }
}

/// An optional request, as a mathematical value.
pub open spec fn request_option(request: Option<Request>) -> Option<RequestView> {
    match request {
        Some(request) => Some(request@),
        None => None,
    }
}

/// An optional document, as a mathematical value.
pub open spec fn doc_option(doc: Option<&Json>) -> Option<JsonView> {
    match doc {
        Some(doc) => Some(doc@),
        None => None,
    }
}

/// Finds the value of the first member of `members` that is called `key`.
pub fn find<'a>(members: &'a Vec<Member>, key: &str) -> (found: Option<&'a Json>)
    ensures
        doc_option(found) == member(members_view(members@), key@),
{
    let ghost all = members_view(members@);
    let mut i: usize = 0;
    assert(all.skip(0) =~= all);
    while i < members.len()
        invariant
            i <= members.len(),
            all == members_view(members@),
            member(all, key@) == member(all.skip(i as int), key@),
        decreases members.len() - i,
    {
        assert(all.skip(i as int)[0] == all[i as int]);
        if reads(&members[i].name, key) {
            return Some(&members[i].value);
        }
        assert(all.skip(i as int).skip(1) =~= all.skip(i + 1));
        i = i + 1;
    }
    None
}

/// An optional list of strings, as a mathematical value.
pub open spec fn texts_option(list: Option<Vec<String>>) -> Option<Seq<Seq<char>>> {
    match list {
        Some(list) => Some(texts_of(list@)),
        None => None,
    }
}

/// Copies the texts out of `items`, if every item is a string.
pub fn strings(items: &Vec<Json>) -> (list: Option<Vec<String>>)
    ensures
        texts_option(list) == strings_of(items_view(items@)),
{
    let ghost all = items_view(items@);
    let mut list: Vec<String> = Vec::new();
    let mut i: usize = 0;
    while i < items.len()
        invariant
            i <= items.len(),
            all == items_view(items@),
            list@.len() == i,
            forall|k: int| 0 <= k < i ==> (#[trigger] all[k]) is Str,
            forall|k: int| 0 <= k < i ==> (#[trigger] list@[k])@ == string_of(all[k]),
        decreases items.len() - i,
    {
        match &items[i] {
            Json::Str(text) => {
                list.push(text.clone());
            },
            _ => {
                assert(!(all[i as int] is Str));
                return None;
            },
        }
        i = i + 1;
    }
    assert(texts_of(list@) =~= Seq::new(all.len(), |i: int| string_of(all[i])));
    Some(list)
}

/// The array of JSON strings that spells `list`.
pub fn strings_json(list: &Vec<String>) -> (doc: Json)
    ensures
        doc@ == strings_doc(texts_of(list@)),
{
    let mut items: Vec<Json> = Vec::new();
    let mut i: usize = 0;
    while i < list.len()
        invariant
            i <= list.len(),
            items@.len() == i,
            forall|k: int| 0 <= k < i ==> (#[trigger] items@[k])@ == JsonView::Str(list@[k]@),
        decreases list.len() - i,
    {
        items.push(Json::Str(list[i].clone()));
        i = i + 1;
    }
    proof {
        lemma_array_view(items);
        assert(items_view(items@) =~= strings_doc(texts_of(list@))->Array_0);
    }
    Json::Array(items)
}

/// The JSON string that spells `text`.
fn word(text: &str) -> (doc: Json)
    ensures
        doc@ == JsonView::Str(text@),
{
    Json::Str(String::from_str(text))
}

/// The JSON string or `null` that spells an optional string.
fn optional_json(text: &Option<String>) -> (doc: Json)
    ensures
        doc@ == optional_doc(text_of(*text)),
{
    match text {
        Some(text) => Json::Str(text.clone()),
        None => Json::Null,
    }
}

/// The object with one member.
fn object1(name0: &str, value0: Json) -> (doc: Json)
    ensures
        doc@ == JsonView::Object(seq![(name0@, value0@)]),
{
    let mut members: Vec<Member> = Vec::new();
    members.push(Member { name: String::from_str(name0), value: value0 });
    proof {
        lemma_object_view(members);
        assert(members_view(members@) =~= seq![(name0@, value0@)]);
    }
    Json::Object(members)
}

/// The object with two members, in this order.
fn object2(name0: &str, value0: Json, name1: &str, value1: Json) -> (doc: Json)
    ensures
        doc@ == JsonView::Object(seq![(name0@, value0@), (name1@, value1@)]),
{
    let mut members: Vec<Member> = Vec::new();
    members.push(Member { name: String::from_str(name0), value: value0 });
    members.push(Member { name: String::from_str(name1), value: value1 });
    proof {
        lemma_object_view(members);
        assert(members_view(members@) =~= seq![(name0@, value0@), (name1@, value1@)]);
    }
    Json::Object(members)
}

/// The object with three members, in this order.
fn object3(
    name0: &str,
    value0: Json,
    name1: &str,
    value1: Json,
    name2: &str,
    value2: Json,
) -> (doc: Json)
    ensures
        doc@ == JsonView::Object(seq![(name0@, value0@), (name1@, value1@), (name2@, value2@)]),
{
    let mut members: Vec<Member> = Vec::new();
    members.push(Member { name: String::from_str(name0), value: value0 });
    members.push(Member { name: String::from_str(name1), value: value1 });
    members.push(Member { name: String::from_str(name2), value: value2 });
    proof {
        lemma_object_view(members);
        assert(members_view(members@) =~= seq![
            (name0@, value0@),
            (name1@, value1@),
            (name2@, value2@),
        ]);
    }
    Json::Object(members)
}

impl Request {
    /// Spells the request as a JSON document.
    pub fn to_json(&self) -> (doc: Json)
        ensures
            doc@ == request_doc(self@),
    {
        match self {
            Request::CreateSession { username } => object2(
                "type",
                word("create_session"),
                "username",
                Json::Str(username.clone()),
            ),
            Request::PostAuthMessageResponse { response } => object2(
                "type",
                word("post_auth_message_response"),
                "response",
                optional_json(response),
            ),
            Request::StartSession { cmd } => object2(
                "type",
                word("start_session"),
                "cmd",
                strings_json(cmd),
            ),
            Request::CancelSession => object1("type", word("cancel_session")),
        }
    }

    /// Reads the request that `doc` spells, if it spells one.
    pub fn from_json(doc: &Json) -> (request: Option<Request>)
        ensures
            request_option(request) == request_of(doc@),
    {
        let members = match doc {
            Json::Object(members) => members,
            _ => {
                return None;
            },
        };
        proof {
            lemma_object_view(*members);
        }
        let tag = match find(members, "type") {
            Some(Json::Str(tag)) => tag,
            _ => {
                return None;
            },
        };
        if reads(tag, "create_session") {
            match find(members, "username") {
                Some(Json::Str(username)) => Some(
                    Request::CreateSession { username: username.clone() },
                ),
                _ => None,
            }
        } else if reads(tag, "post_auth_message_response") {
            match find(members, "response") {
                Some(Json::Str(answer)) => Some(
                    Request::PostAuthMessageResponse { response: Some(answer.clone()) },
                ),
                Some(Json::Null) | None => Some(Request::PostAuthMessageResponse { response: None }),
                _ => None,
            }
        } else if reads(tag, "start_session") {
            match find(members, "cmd") {
                Some(Json::Array(items)) => {
                    proof {
                        lemma_array_view(*items);
                    }
                    match strings(items) {
                        Some(cmd) => Some(Request::StartSession { cmd }),
                        None => None,
                    }
                },
                _ => None,
            }
        } else if reads(tag, "cancel_session") {
            Some(Request::CancelSession)
        } else {
            None
        }
    }
}

/// The JSON string that spells a kind of prompt.
fn auth_type_json(kind: AuthMessageType) -> (doc: Json)
    ensures
        doc@ == JsonView::Str(auth_type_word(kind)),
{
    match kind {
        AuthMessageType::Visible => word("visible"),
        AuthMessageType::Secret => word("secret"),
    }
}

/// Reads the kind of prompt that `text` spells.
fn auth_type_from(text: &String) -> (kind: Option<AuthMessageType>)
    ensures
        kind == auth_type_of(text@),
{
    if reads(text, "visible") {
        Some(AuthMessageType::Visible)
    } else if reads(text, "secret") {
        Some(AuthMessageType::Secret)
    } else {
        None
    }
}

/// The JSON string that spells a kind of failure.
fn error_type_json(kind: ErrorType) -> (doc: Json)
    ensures
        doc@ == JsonView::Str(error_type_word(kind)),
{
    match kind {
        ErrorType::AuthError => word("auth_error"),
        ErrorType::Error => word("error"),
    }
}

/// Reads the kind of failure that `text` spells.
fn error_type_from(text: &String) -> (kind: Option<ErrorType>)
    ensures
        kind == error_type_of(text@),
{
    if reads(text, "auth_error") {
        Some(ErrorType::AuthError)
    } else if reads(text, "error") {
        Some(ErrorType::Error)
    } else {
        None
    }
}

impl Response {
    /// Spells the response as a JSON document.
    pub fn to_json(&self) -> (doc: Json)
        ensures
            doc@ == response_doc(self@),
    {
        match self {
            Response::Success => object1("type", word("success")),
            Response::AuthMessage { auth_message_type, auth_message } => object3(
                "type",
                word("auth_message"),
                "auth_message_type",
                auth_type_json(*auth_message_type),
                "auth_message",
                Json::Str(auth_message.clone()),
            ),
            Response::Error { error_type, description } => object3(
                "type",
                word("error"),
                "error_type",
                error_type_json(*error_type),
                "description",
                Json::Str(description.clone()),
            ),
        }
    }

    /// Reads the response that `doc` spells, if it spells one.
    pub fn from_json(doc: &Json) -> (response: Option<Response>)
        ensures
            response_option(response) == response_of(doc@),
    {
        let members = match doc {
            Json::Object(members) => members,
            _ => {
                return None;
            },
        };
        proof {
            lemma_object_view(*members);
        }
        let tag = match find(members, "type") {
            Some(Json::Str(tag)) => tag,
            _ => {
                return None;
            },
        };
        if reads(tag, "success") {
            Some(Response::Success)
        } else if reads(tag, "auth_message") {
            let kind = match find(members, "auth_message_type") {
                Some(Json::Str(kind)) => kind,
                _ => {
                    return None;
                },
            };
            let text = match find(members, "auth_message") {
                Some(Json::Str(text)) => text,
                _ => {
                    return None;
                },
            };
            match auth_type_from(kind) {
                Some(kind) => Some(
                    Response::AuthMessage { auth_message_type: kind, auth_message: text.clone() },
                ),
                None => None,
            }
        } else if reads(tag, "error") {
            let kind = match find(members, "error_type") {
                Some(Json::Str(kind)) => kind,
                _ => {
                    return None;
                },
            };
            let text = match find(members, "description") {
                Some(Json::Str(text)) => text,
                _ => {
                    return None;
                },
            };
            match error_type_from(kind) {
                Some(kind) => Some(Response::Error { error_type: kind, description: text.clone() }),
                None => None,
            }
        } else {
            None
        }
    }
}

/// The member at `at` is the one that `member` finds for its name, where no
/// earlier member has that name.
pub proof fn lemma_member_at(members: Seq<(Seq<char>, JsonView)>, key: Seq<char>, at: int)
    requires
        0 <= at < members.len(),
        members[at].0 == key,
        forall|k: int| 0 <= k < at ==> (#[trigger] members[k]).0 != key,
    ensures
        member(members, key) == Some(members[at].1),
    decreases at,
{
    if at > 0 {
        let rest = members.skip(1);
        assert(members[0].0 != key);
        assert(rest[at - 1] == members[at]);
        assert forall|k: int| 0 <= k < at - 1 implies (#[trigger] rest[k]).0 != key by {
            assert(rest[k] == members[k + 1]);
        }
        lemma_member_at(rest, key, at - 1);
    }
}

/// A request is the request that its document spells.
pub proof fn lemma_request_roundtrip(request: RequestView)
    ensures
        request_of(request_doc(request)) == Some(request),
{
    reveal_strlit("type");
    reveal_strlit("username");
    reveal_strlit("response");
    reveal_strlit("cmd");
    reveal_strlit("create_session");
    reveal_strlit("post_auth_message_response");
    reveal_strlit("start_session");
    reveal_strlit("cancel_session");
    assert("create_session"@[1] != "cancel_session"@[1]);
    assert("create_session"@.len() == 14 && "post_auth_message_response"@.len() == 26
        && "start_session"@.len() == 13 && "cancel_session"@.len() == 14);
    assert("type"@.len() == 4 && "username"@.len() == 8 && "response"@.len() == 8 && "cmd"@.len()
        == 3);
    let doc = request_doc(request);
    let members = doc->Object_0;
    lemma_member_at(members, "type"@, 0);
    match request {
        RequestView::CreateSession { username } => {
            lemma_member_at(members, "username"@, 1);
        },
        RequestView::PostAuthMessageResponse { response } => {
            lemma_member_at(members, "response"@, 1);
        },
        RequestView::StartSession { cmd } => {
            lemma_member_at(members, "cmd"@, 1);
            let items = strings_doc(cmd)->Array_0;
            assert(strings_of(items)->Some_0 =~= cmd);
        },
        RequestView::CancelSession => {},
    }
}

/// A response is the response that its document spells.
pub proof fn lemma_response_roundtrip(response: ResponseView)
    ensures
        response_of(response_doc(response)) == Some(response),
{
    reveal_strlit("type");
    reveal_strlit("auth_message_type");
    reveal_strlit("auth_message");
    reveal_strlit("error_type");
    reveal_strlit("description");
    reveal_strlit("success");
    reveal_strlit("error");
    reveal_strlit("visible");
    reveal_strlit("secret");
    reveal_strlit("auth_error");
    assert("success"@.len() == 7 && "error"@.len() == 5 && "visible"@.len() == 7 && "secret"@.len()
        == 6 && "auth_error"@.len() == 10);
    assert("type"@.len() == 4 && "auth_message_type"@.len() == 17 && "auth_message"@.len() == 12
        && "error_type"@.len() == 10 && "description"@.len() == 11);
    let doc = response_doc(response);
    let members = doc->Object_0;
    lemma_member_at(members, "type"@, 0);
    match response {
        ResponseView::Success => {},
        ResponseView::AuthMessage { auth_message_type, auth_message } => {
            lemma_member_at(members, "auth_message_type"@, 1);
            lemma_member_at(members, "auth_message"@, 2);
        },
        ResponseView::Error { error_type, description } => {
            lemma_member_at(members, "error_type"@, 1);
            lemma_member_at(members, "description"@, 2);
        },
    }
}

} // verus!
