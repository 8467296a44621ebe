//! The JSON form of the messages.
//!
//! A message on the wire is the JSON object `{"request_id": n, "payload": p}`.
//! A payload without fields is the string of its name, `"Ping"`; one with
//! fields is an object with one member, named after the payload, that holds
//! the fields: `{"CloseWindow": {"window_id": 3}}`.

use vstd::prelude::*;
use crate::ipc::{
    Envelope, IpcError, IpcMessage, IpcRequest, IpcResponse, RequestView, ResponseView,
};
use crate::ipc::optional_model;
use crate::json::{
    canonical, find_member, members_model, parse, parsed, printed, to_bytes, Json, JsonValue,
    Numeral,
};
use crate::text::same_text;

verus! {

/// The JSON number of a handle or an identifier.
pub open spec fn unsigned_json(n: u64) -> Json {
    Json::Number(Numeral::Unsigned(n))
}

/// The JSON form of a payload with fields: an object with one member, named
/// after the payload, that holds the fields.
pub open spec fn tagged_json(name: Seq<char>, fields: Seq<(Seq<char>, Json)>) -> Json {
    Json::Object(seq![(name, Json::Object(fields))])
}

/// The JSON form of a request.
pub open spec fn request_json(request: RequestView) -> Json {
    match request {
        RequestView::CreateBrowserWindow { window_id, options, is_child } => tagged_json(
            "CreateBrowserWindow"@,
            seq![
                ("window_id"@, unsigned_json(window_id as u64)),
                ("options"@, options),
                ("is_child"@, Json::Bool(is_child)),
            ],
        ),
        RequestView::CloseWindow { window_id } => tagged_json(
            "CloseWindow"@,
            seq![("window_id"@, unsigned_json(window_id as u64))],
        ),
        RequestView::CreateWebview { window_id, options } => tagged_json(
            "CreateWebview"@,
            seq![("window_id"@, unsigned_json(window_id as u64)), ("options"@, options)],
        ),
        RequestView::EvaluateScript { window_id, script } => tagged_json(
            "EvaluateScript"@,
            seq![("window_id"@, unsigned_json(window_id as u64)), ("script"@, Json::Text(script))],
        ),
        RequestView::LoadUrl { window_id, url } => tagged_json(
            "LoadUrl"@,
            seq![("window_id"@, unsigned_json(window_id as u64)), ("url"@, Json::Text(url))],
        ),
        RequestView::LoadHtml { window_id, html } => tagged_json(
            "LoadHtml"@,
            seq![("window_id"@, unsigned_json(window_id as u64)), ("html"@, Json::Text(html))],
        ),
        RequestView::SetWindowVisible { window_id, visible } => tagged_json(
            "SetWindowVisible"@,
            seq![("window_id"@, unsigned_json(window_id as u64)), ("visible"@, Json::Bool(visible))],
        ),
        RequestView::SetWindowTitle { window_id, title } => tagged_json(
            "SetWindowTitle"@,
            seq![("window_id"@, unsigned_json(window_id as u64)), ("title"@, Json::Text(title))],
        ),
        RequestView::Exit => Json::Text("Exit"@),
        RequestView::Ping => Json::Text("Ping"@),
    }
}

/// The handle in the member `window_id` of `body`, where that member is a
/// non-negative integer that fits a handle.
pub open spec fn handle_member(body: Json) -> Option<u32> {
    match body.unsigned_member("window_id"@) {
        Some(n) => if n <= u32::MAX {
            Some(n as u32)
        } else {
            None
        },
        None => None,
    }
}

/// The request that a payload named `name` with the fields `body` stands
/// for. Members that the payload does not have are ignored; a member that is
/// missing or of another type makes the payload unreadable.
pub open spec fn fielded_request(name: Seq<char>, body: Json) -> Option<RequestView> {
    if name == "CreateBrowserWindow"@ {
        match (handle_member(body), body.lookup("options"@), body.bool_member("is_child"@)) {
            (Some(window_id), Some(options), Some(is_child)) => Some(
                RequestView::CreateBrowserWindow { window_id, options, is_child },
            ),
            _ => None,
        }
    } else if name == "CloseWindow"@ {
        match handle_member(body) {
            Some(window_id) => Some(RequestView::CloseWindow { window_id }),
            None => None,
        }
    } else if name == "CreateWebview"@ {
        match (handle_member(body), body.lookup("options"@)) {
            (Some(window_id), Some(options)) => Some(
                RequestView::CreateWebview { window_id, options },
            ),
            _ => None,
        }
    } else if name == "EvaluateScript"@ {
        match (handle_member(body), body.text_member("script"@)) {
            (Some(window_id), Some(script)) => Some(
                RequestView::EvaluateScript { window_id, script },
            ),
            _ => None,
        }
    } else if name == "LoadUrl"@ {
        match (handle_member(body), body.text_member("url"@)) {
            (Some(window_id), Some(url)) => Some(RequestView::LoadUrl { window_id, url }),
            _ => None,
        }
    } else if name == "LoadHtml"@ {
        match (handle_member(body), body.text_member("html"@)) {
            (Some(window_id), Some(html)) => Some(RequestView::LoadHtml { window_id, html }),
            _ => None,
        }
    } else if name == "SetWindowVisible"@ {
        match (handle_member(body), body.bool_member("visible"@)) {
            (Some(window_id), Some(visible)) => Some(
                RequestView::SetWindowVisible { window_id, visible },
            ),
            _ => None,
        }
    } else if name == "SetWindowTitle"@ {
        match (handle_member(body), body.text_member("title"@)) {
            (Some(window_id), Some(title)) => Some(
                RequestView::SetWindowTitle { window_id, title },
            ),
            _ => None,
        }
    } else {
        None
    }
}

/// The request that a JSON document stands for, if it stands for one.
pub open spec fn json_request(document: Json) -> Option<RequestView> {
    match document {
        Json::Text(name) => if name == "Exit"@ {
            Some(RequestView::Exit)
        } else if name == "Ping"@ {
            Some(RequestView::Ping)
        } else {
            None
        },
        Json::Object(members) => if members.len() == 1 {
            fielded_request(members[0].0, members[0].1)
        } else {
            None
        },
        _ => None,
    }
}

/// The JSON form of an optional document: `null` for none.
pub open spec fn optional_json(data: Option<Json>) -> Json {
    match data {
        Some(document) => document,
        None => Json::Null,
    }
}

/// The JSON form of an optional handle: `null` for none.
pub open spec fn optional_handle_json(window_id: Option<u32>) -> Json {
    match window_id {
        Some(id) => unsigned_json(id as u64),
        None => Json::Null,
    }
}

/// The JSON form of a response.
pub open spec fn response_json(response: ResponseView) -> Json {
    match response {
        ResponseView::Success { request_id, data } => tagged_json(
            "Success"@,
            seq![("request_id"@, unsigned_json(request_id)), ("data"@, optional_json(data))],
        ),
        ResponseView::Error { request_id, message } => tagged_json(
            "Error"@,
            seq![("request_id"@, unsigned_json(request_id)), ("message"@, Json::Text(message))],
        ),
        ResponseView::ApplicationEvent { event_type, window_id } => tagged_json(
            "ApplicationEvent"@,
            seq![
                ("event_type"@, Json::Text(event_type)),
                ("window_id"@, optional_handle_json(window_id)),
            ],
        ),
        ResponseView::Pong => Json::Text("Pong"@),
    }
}

/// The optional document in the member `data` of `body`: none where the
/// member is missing or `null`.
pub open spec fn data_member(body: Json) -> Option<Json> {
    match body.lookup("data"@) {
        Some(Json::Null) => None,
        Some(document) => Some(document),
        None => None,
    }
}

/// The optional handle in the member `window_id` of `body`. The outer
/// option is `None` where the member is neither missing, `null`, nor a
/// non-negative integer that fits a handle.
pub open spec fn optional_handle_member(body: Json) -> Option<Option<u32>> {
    match body.lookup("window_id"@) {
        None => Some(None),
        Some(Json::Null) => Some(None),
        Some(Json::Number(Numeral::Unsigned(n))) => if n <= u32::MAX {
            Some(Some(n as u32))
        } else {
            None
        },
        Some(_) => None,
    }
}

/// The response that a payload named `name` with the fields `body` stands
/// for.
pub open spec fn fielded_response(name: Seq<char>, body: Json) -> Option<ResponseView> {
    if name == "Success"@ {
        match body.unsigned_member("request_id"@) {
            Some(request_id) => Some(
                ResponseView::Success { request_id, data: data_member(body) },
            ),
            None => None,
        }
    } else if name == "Error"@ {
        match (body.unsigned_member("request_id"@), body.text_member("message"@)) {
            (Some(request_id), Some(message)) => Some(
                ResponseView::Error { request_id, message },
            ),
            _ => None,
        }
    } else if name == "ApplicationEvent"@ {
        match (body.text_member("event_type"@), optional_handle_member(body)) {
            (Some(event_type), Some(window_id)) => Some(
                ResponseView::ApplicationEvent { event_type, window_id },
            ),
            _ => None,
        }
    } else {
        None
    }
}

/// The response that a JSON document stands for, if it stands for one.
pub open spec fn json_response(document: Json) -> Option<ResponseView> {
    match document {
        Json::Text(name) => if name == "Pong"@ {
            Some(ResponseView::Pong)
        } else {
            None
        },
        Json::Object(members) => if members.len() == 1 {
            fielded_response(members[0].0, members[0].1)
        } else {
            None
        },
        _ => None,
    }
}

/// The JSON form of a message: the identifier and the payload's JSON form.
pub open spec fn envelope_json(request_id: u64, payload: Json) -> Json {
    Json::Object(seq![("request_id"@, unsigned_json(request_id)), ("payload"@, payload)])
}

/// The request message that a JSON document stands for.
pub open spec fn json_request_message(document: Json) -> Option<Envelope<RequestView>> {
    match (document.unsigned_member("request_id"@), document.lookup("payload"@)) {
        (Some(request_id), Some(payload)) => match json_request(payload) {
            Some(request) => Some(Envelope { request_id, payload: request }),
            None => None,
        },
        _ => None,
    }
}

/// The response message that a JSON document stands for.
pub open spec fn json_response_message(document: Json) -> Option<Envelope<ResponseView>> {
    match (document.unsigned_member("request_id"@), document.lookup("payload"@)) {
        (Some(request_id), Some(payload)) => match json_response(payload) {
            Some(response) => Some(Envelope { request_id, payload: response }),
            None => None,
        },
        _ => None,
    }
}

/// What the host makes of a document from the worker: a response that
/// stands alone is an event and gets the identifier 0; otherwise the
/// document has to be a response message.
pub open spec fn json_reply(document: Json) -> Option<Envelope<ResponseView>> {
    match json_response(document) {
        Some(response) => Some(Envelope { request_id: 0, payload: response }),
        None => json_response_message(document),
    }
}

/// Tells the names of the payloads and of their fields apart.
pub proof fn lemma_names_differ()
    ensures
        "CreateBrowserWindow"@.len() == 19,
        "CloseWindow"@.len() == 11,
        "CreateWebview"@.len() == 13,
        "EvaluateScript"@.len() == 14,
        "LoadUrl"@.len() == 7,
        "LoadHtml"@.len() == 8,
        "SetWindowVisible"@.len() == 16,
        "SetWindowTitle"@.len() == 14,
        "EvaluateScript"@[0] == 'E',
        "SetWindowTitle"@[0] == 'S',
        "Exit"@.len() == 4,
        "Ping"@.len() == 4,
        "Pong"@.len() == 4,
        "Exit"@[0] == 'E',
        "Ping"@[1] == 'i',
        "Pong"@[1] == 'o',
        "Ping"@[0] == 'P',
        "Success"@.len() == 7,
        "Error"@.len() == 5,
        "ApplicationEvent"@.len() == 16,
        "window_id"@.len() == 9,
        "options"@.len() == 7,
        "is_child"@.len() == 8,
        "script"@.len() == 6,
        "url"@.len() == 3,
        "html"@.len() == 4,
        "visible"@.len() == 7,
        "title"@.len() == 5,
        "request_id"@.len() == 10,
        "data"@.len() == 4,
        "message"@.len() == 7,
        "event_type"@.len() == 10,
        "payload"@.len() == 7,
        "options"@[0] == 'o',
        "visible"@[0] == 'v',
        "message"@[0] == 'm',
        "payload"@[0] == 'p',
        "request_id"@[0] == 'r',
        "event_type"@[0] == 'e',
{
    reveal_strlit("CreateBrowserWindow");
    reveal_strlit("CloseWindow");
    reveal_strlit("CreateWebview");
    reveal_strlit("EvaluateScript");
    reveal_strlit("LoadUrl");
    reveal_strlit("LoadHtml");
    reveal_strlit("SetWindowVisible");
    reveal_strlit("SetWindowTitle");
    reveal_strlit("Exit");
    reveal_strlit("Ping");
    reveal_strlit("Pong");
    reveal_strlit("Success");
    reveal_strlit("Error");
    reveal_strlit("ApplicationEvent");
    reveal_strlit("window_id");
    reveal_strlit("options");
    reveal_strlit("is_child");
    reveal_strlit("script");
    reveal_strlit("url");
    reveal_strlit("html");
    reveal_strlit("visible");
    reveal_strlit("title");
    reveal_strlit("request_id");
    reveal_strlit("data");
    reveal_strlit("message");
    reveal_strlit("event_type");
    reveal_strlit("payload");
}

/// The member that counts in a list of one, two or three members with
/// different keys.
pub proof fn lemma_find_in_short_list(members: Seq<(Seq<char>, Json)>, key: Seq<char>)
    requires
        1 <= members.len() <= 3,
    ensures
        members.len() == 1 ==> find_member(members, key) == if members[0].0 == key {
            Some(members[0].1)
        } else {
            None
        },
        members.len() == 2 ==> find_member(members, key) == if members[1].0 == key {
            Some(members[1].1)
        } else if members[0].0 == key {
            Some(members[0].1)
        } else {
            None
        },
        members.len() == 3 ==> find_member(members, key) == if members[2].0 == key {
            Some(members[2].1)
        } else if members[1].0 == key {
            Some(members[1].1)
        } else if members[0].0 == key {
            Some(members[0].1)
        } else {
            None
        },
{
    reveal_with_fuel(find_member, 5);
    if members.len() == 2 {
        assert(members.drop_last().len() == 1);
        assert(members.drop_last()[0] == members[0]);
    }
    if members.len() == 3 {
        assert(members.drop_last().len() == 2);
        assert(members.drop_last()[1] == members[1]);
        assert(members.drop_last().drop_last().len() == 1);
        assert(members.drop_last().drop_last()[0] == members[0]);
    }
}

/// Reading the JSON form of a request gives the request back.
pub proof fn lemma_request_round_trip(request: RequestView)
    ensures
        json_request(request_json(request)) == Some(request),
{
    lemma_names_differ();
    let document = request_json(request);
    match request {
        RequestView::Exit => {},
        RequestView::Ping => {},
        _ => {
            let members = document->Object_0;
            assert(members.len() == 1);
            let body = members[0].1;
            let fields = body->Object_0;
            lemma_find_in_short_list(fields, "window_id"@);
            lemma_find_in_short_list(fields, "options"@);
            lemma_find_in_short_list(fields, "is_child"@);
            lemma_find_in_short_list(fields, "script"@);
            lemma_find_in_short_list(fields, "url"@);
            lemma_find_in_short_list(fields, "html"@);
            lemma_find_in_short_list(fields, "visible"@);
            lemma_find_in_short_list(fields, "title"@);
        },
    }
}

/// Whether a response survives the wire unchanged. The one response that
/// does not is a `Success` whose data is the document `null`: on the wire
/// `null` stands for no data.
pub open spec fn response_is_faithful(response: ResponseView) -> bool {
    !(response matches ResponseView::Success { data: Some(Json::Null), .. })
}

/// Reading the JSON form of a response gives the response back.
pub proof fn lemma_response_round_trip(response: ResponseView)
    requires
        response_is_faithful(response),
    ensures
        json_response(response_json(response)) == Some(response),
{
    lemma_names_differ();
    let document = response_json(response);
    match response {
        ResponseView::Pong => {},
        _ => {
            let members = document->Object_0;
            assert(members.len() == 1);
            let body = members[0].1;
            let fields = body->Object_0;
            lemma_find_in_short_list(fields, "request_id"@);
            lemma_find_in_short_list(fields, "data"@);
            lemma_find_in_short_list(fields, "message"@);
            lemma_find_in_short_list(fields, "event_type"@);
            lemma_find_in_short_list(fields, "window_id"@);
        },
    }
}

/// Reading the JSON form of a request message gives the identifier and the
/// request back.
pub proof fn lemma_request_message_round_trip(request_id: u64, request: RequestView)
    ensures
        json_request_message(envelope_json(request_id, request_json(request))) == Some(
            Envelope { request_id, payload: request },
        ),
{
    lemma_names_differ();
    lemma_request_round_trip(request);
    let fields = envelope_json(request_id, request_json(request))->Object_0;
    lemma_find_in_short_list(fields, "request_id"@);
    lemma_find_in_short_list(fields, "payload"@);
}

/// Reading the JSON form of a response message gives the identifier and the
/// response back, both as a message and as the host reads a reply.
pub proof fn lemma_response_message_round_trip(request_id: u64, response: ResponseView)
    requires
        response_is_faithful(response),
    ensures
        json_response_message(envelope_json(request_id, response_json(response))) == Some(
            Envelope { request_id, payload: response },
        ),
        json_reply(envelope_json(request_id, response_json(response))) == Some(
            Envelope { request_id, payload: response },
        ),
{
    lemma_names_differ();
    lemma_response_round_trip(response);
    let fields = envelope_json(request_id, response_json(response))->Object_0;
    lemma_find_in_short_list(fields, "request_id"@);
    lemma_find_in_short_list(fields, "payload"@);
}

/// A response that stands alone is read as an event: it gets the
/// identifier 0.
pub proof fn lemma_bare_response_is_event(response: ResponseView)
    requires
        response_is_faithful(response),
    ensures
        json_reply(response_json(response)) == Some(Envelope { request_id: 0, payload: response }),
{
    lemma_response_round_trip(response);
}

fn field(name: &str, value: JsonValue) -> (r: (String, JsonValue))
    ensures
        r.0@ == name@,
        r.1.model() == value.model(),
{
    (name.to_owned(), value)
}

fn tagged(name: &str, fields: Vec<(String, JsonValue)>) -> (r: JsonValue)
    ensures
        r.model() == tagged_json(name@, members_model(fields@)),
{
    JsonValue::single(name, JsonValue::object(fields))
}

fn handle_field(window_id: u32) -> (r: (String, JsonValue))
    ensures
        r.0@ == "window_id"@,
        r.1.model() == unsigned_json(window_id as u64),
{
    field("window_id", JsonValue::unsigned(window_id as u64))
}

/// The JSON form of a request.
pub fn encode_request(request: &IpcRequest) -> (document: JsonValue)
    ensures
        document.model() == request_json(request@),
{
    let mut fields: Vec<(String, JsonValue)> = Vec::new();
    match request {
        IpcRequest::CreateBrowserWindow { window_id, options, is_child } => {
            fields.push(handle_field(*window_id));
            fields.push(field("options", options.duplicate()));
            fields.push(field("is_child", JsonValue::Bool(*is_child)));
            assert(members_model(fields@) =~= seq![
                ("window_id"@, unsigned_json(*window_id as u64)),
                ("options"@, options.model()),
                ("is_child"@, Json::Bool(*is_child)),
            ]);
            tagged("CreateBrowserWindow", fields)
        },
        IpcRequest::CloseWindow { window_id } => {
            fields.push(handle_field(*window_id));
            assert(members_model(fields@) =~= seq![
                ("window_id"@, unsigned_json(*window_id as u64)),
            ]);
            tagged("CloseWindow", fields)
        },
        IpcRequest::CreateWebview { window_id, options } => {
            fields.push(handle_field(*window_id));
            fields.push(field("options", options.duplicate()));
            assert(members_model(fields@) =~= seq![
                ("window_id"@, unsigned_json(*window_id as u64)),
                ("options"@, options.model()),
            ]);
            tagged("CreateWebview", fields)
        },
        IpcRequest::EvaluateScript { window_id, script } => {
            fields.push(handle_field(*window_id));
            fields.push(field("script", JsonValue::text(script.as_str())));
            assert(members_model(fields@) =~= seq![
                ("window_id"@, unsigned_json(*window_id as u64)),
                ("script"@, Json::Text(script@)),
            ]);
            tagged("EvaluateScript", fields)
        },
        IpcRequest::LoadUrl { window_id, url } => {
            fields.push(handle_field(*window_id));
            fields.push(field("url", JsonValue::text(url.as_str())));
            assert(members_model(fields@) =~= seq![
                ("window_id"@, unsigned_json(*window_id as u64)),
                ("url"@, Json::Text(url@)),
            ]);
            tagged("LoadUrl", fields)
        },
        IpcRequest::LoadHtml { window_id, html } => {
            fields.push(handle_field(*window_id));
            fields.push(field("html", JsonValue::text(html.as_str())));
            assert(members_model(fields@) =~= seq![
                ("window_id"@, unsigned_json(*window_id as u64)),
                ("html"@, Json::Text(html@)),
            ]);
            tagged("LoadHtml", fields)
        },
        IpcRequest::SetWindowVisible { window_id, visible } => {
            fields.push(handle_field(*window_id));
            fields.push(field("visible", JsonValue::Bool(*visible)));
            assert(members_model(fields@) =~= seq![
                ("window_id"@, unsigned_json(*window_id as u64)),
                ("visible"@, Json::Bool(*visible)),
            ]);
            tagged("SetWindowVisible", fields)
        },
        IpcRequest::SetWindowTitle { window_id, title } => {
            fields.push(handle_field(*window_id));
            fields.push(field("title", JsonValue::text(title.as_str())));
            assert(members_model(fields@) =~= seq![
                ("window_id"@, unsigned_json(*window_id as u64)),
                ("title"@, Json::Text(title@)),
            ]);
            tagged("SetWindowTitle", fields)
        },
        IpcRequest::Exit => JsonValue::text("Exit"),
        IpcRequest::Ping => JsonValue::text("Ping"),
    }
}

/// The JSON form of a response.
pub fn encode_response(response: &IpcResponse) -> (document: JsonValue)
    ensures
        document.model() == response_json(response@),
{
    let mut fields: Vec<(String, JsonValue)> = Vec::new();
    match response {
        IpcResponse::Success { request_id, data } => {
            let data_json = match data {
                Some(document) => document.duplicate(),
                None => JsonValue::Null,
            };
            fields.push(field("request_id", JsonValue::unsigned(*request_id)));
            fields.push(field("data", data_json));
            assert(members_model(fields@) =~= seq![
                ("request_id"@, unsigned_json(*request_id)),
                ("data"@, optional_json(optional_model(*data))),
            ]);
            tagged("Success", fields)
        },
        IpcResponse::Error { request_id, message } => {
            fields.push(field("request_id", JsonValue::unsigned(*request_id)));
            fields.push(field("message", JsonValue::text(message.as_str())));
            assert(members_model(fields@) =~= seq![
                ("request_id"@, unsigned_json(*request_id)),
                ("message"@, Json::Text(message@)),
            ]);
            tagged("Error", fields)
        },
        IpcResponse::ApplicationEvent { event_type, window_id } => {
            let handle_json = match window_id {
                Some(id) => JsonValue::unsigned(*id as u64),
                None => JsonValue::Null,
            };
            fields.push(field("event_type", JsonValue::text(event_type.as_str())));
            fields.push(field("window_id", handle_json));
            assert(members_model(fields@) =~= seq![
                ("event_type"@, Json::Text(event_type@)),
                ("window_id"@, optional_handle_json(*window_id)),
            ]);
            tagged("ApplicationEvent", fields)
        },
        IpcResponse::Pong => JsonValue::text("Pong"),
    }
}

fn envelope(request_id: u64, payload: JsonValue) -> (document: JsonValue)
    ensures
        document.model() == envelope_json(request_id, payload.model()),
{
    let mut fields: Vec<(String, JsonValue)> = Vec::new();
    fields.push(field("request_id", JsonValue::unsigned(request_id)));
    fields.push(field("payload", payload));
    assert(members_model(fields@) =~= seq![
        ("request_id"@, unsigned_json(request_id)),
        ("payload"@, payload.model()),
    ]);
    JsonValue::object(fields)
}

/// The JSON form of a request message.
pub fn encode_request_message(message: &IpcMessage<IpcRequest>) -> (document: JsonValue)
    ensures
        document.model() == envelope_json(message.request_id, request_json(message.payload@)),
{
    envelope(message.request_id, encode_request(&message.payload))
}

/// The JSON form of a response message.
pub fn encode_response_message(message: &IpcMessage<IpcResponse>) -> (document: JsonValue)
    ensures
        document.model() == envelope_json(message.request_id, response_json(message.payload@)),
{
    envelope(message.request_id, encode_response(&message.payload))
}

fn handle_of(body: &JsonValue) -> (r: Option<u32>)
    ensures
        r == handle_member(body.model()),
{
    match body.get("window_id") {
        Some(value) => match value.as_unsigned() {
            Some(n) => if n <= u32::MAX as u64 {
                Some(n as u32)
            } else {
                None
            },
            None => None,
        },
        None => None,
    }
}

fn bool_of(body: &JsonValue, key: &str) -> (r: Option<bool>)
    ensures
        r == body.model().bool_member(key@),
{
    match body.get(key) {
        Some(value) => value.as_bool(),
        None => None,
    }
}

fn unsigned_of(body: &JsonValue, key: &str) -> (r: Option<u64>)
    ensures
        r == body.model().unsigned_member(key@),
{
    match body.get(key) {
        Some(value) => value.as_unsigned(),
        None => None,
    }
}

fn text_of(body: &JsonValue, key: &str) -> (r: Option<String>)
    ensures
        match r {
            Some(s) => body.model().text_member(key@) == Some(s@),
            None => body.model().text_member(key@).is_none(),
        },
{
    match body.get(key) {
        Some(value) => match value.as_text() {
            Some(s) => Some(s.clone()),
            None => None,
        },
        None => None,
    }
}

fn document_of(body: &JsonValue, key: &str) -> (r: Option<JsonValue>)
    ensures
        match r {
            Some(v) => body.model().lookup(key@) == Some(v.model()),
            None => body.model().lookup(key@).is_none(),
        },
{
    match body.get(key) {
        Some(value) => Some(value.duplicate()),
        None => None,
    }
}

fn decode_fielded_request(name: &str, body: &JsonValue) -> (r: Option<IpcRequest>)
    ensures
        match r {
            Some(request) => fielded_request(name@, body.model()) == Some(request@),
            None => fielded_request(name@, body.model()).is_none(),
        },
{
    let window_id = match handle_of(body) {
        Some(id) => id,
        None => {
            return None;
        },
    };
    if same_text(name, "CreateBrowserWindow") {
        match (document_of(body, "options"), bool_of(body, "is_child")) {
            (Some(options), Some(is_child)) => Some(
                IpcRequest::CreateBrowserWindow { window_id, options, is_child },
            ),
            _ => None,
        }
    } else if same_text(name, "CloseWindow") {
        Some(IpcRequest::CloseWindow { window_id })
    } else if same_text(name, "CreateWebview") {
        match document_of(body, "options") {
            Some(options) => Some(IpcRequest::CreateWebview { window_id, options }),
            None => None,
        }
    } else if same_text(name, "EvaluateScript") {
        match text_of(body, "script") {
            Some(script) => Some(IpcRequest::EvaluateScript { window_id, script }),
            None => None,
        }
    } else if same_text(name, "LoadUrl") {
        match text_of(body, "url") {
            Some(url) => Some(IpcRequest::LoadUrl { window_id, url }),
            None => None,
        }
    } else if same_text(name, "LoadHtml") {
        match text_of(body, "html") {
            Some(html) => Some(IpcRequest::LoadHtml { window_id, html }),
            None => None,
        }
    } else if same_text(name, "SetWindowVisible") {
        match bool_of(body, "visible") {
            Some(visible) => Some(IpcRequest::SetWindowVisible { window_id, visible }),
            None => None,
        }
    } else if same_text(name, "SetWindowTitle") {
        match text_of(body, "title") {
            Some(title) => Some(IpcRequest::SetWindowTitle { window_id, title }),
            None => None,
        }
    } else {
        None
    }
}

/// Reads a request from its JSON form.
pub fn decode_request(document: &JsonValue) -> (r: Option<IpcRequest>)
    ensures
        match r {
            Some(request) => json_request(document.model()) == Some(request@),
            None => json_request(document.model()).is_none(),
        },
{
    match document {
        JsonValue::Text(name) => {
            if same_text(name.as_str(), "Exit") {
                Some(IpcRequest::Exit)
            } else if same_text(name.as_str(), "Ping") {
                Some(IpcRequest::Ping)
            } else {
                None
            }
        },
        JsonValue::Object(members) => {
            proof {
                document.model_unfold();
            }
            if members.len() == 1 {
                decode_fielded_request(members[0].0.as_str(), &members[0].1)
            } else {
                None
            }
        },
        _ => None,
    }
}

fn decode_fielded_response(name: &str, body: &JsonValue) -> (r: Option<IpcResponse>)
    ensures
        match r {
            Some(response) => fielded_response(name@, body.model()) == Some(response@),
            None => fielded_response(name@, body.model()).is_none(),
        },
{
    if same_text(name, "Success") {
        match unsigned_of(body, "request_id") {
            Some(request_id) => {
                let data = match body.get("data") {
                    Some(document) => if document.is_null() {
                        None
                    } else {
                        Some(document.duplicate())
                    },
                    None => None,
                };
                Some(IpcResponse::Success { request_id, data })
            },
            None => None,
        }
    } else if same_text(name, "Error") {
        match (unsigned_of(body, "request_id"), text_of(body, "message")) {
            (Some(request_id), Some(message)) => Some(IpcResponse::Error { request_id, message }),
            _ => None,
        }
    } else if same_text(name, "ApplicationEvent") {
        let event_type = match text_of(body, "event_type") {
            Some(s) => s,
            None => {
                return None;
            },
        };
        match body.get("window_id") {
            None => Some(IpcResponse::ApplicationEvent { event_type, window_id: None }),
            Some(value) => {
                if value.is_null() {
                    Some(IpcResponse::ApplicationEvent { event_type, window_id: None })
                } else {
                    match value.as_unsigned() {
                        Some(n) => if n <= u32::MAX as u64 {
                            Some(
                                IpcResponse::ApplicationEvent {
                                    event_type,
                                    window_id: Some(n as u32),
                                },
                            )
                        } else {
                            None
                        },
                        None => None,
                    }
                }
            },
        }
    } else {
        None
    }
}

/// Reads a response from its JSON form.
pub fn decode_response(document: &JsonValue) -> (r: Option<IpcResponse>)
    ensures
        match r {
            Some(response) => json_response(document.model()) == Some(response@),
            None => json_response(document.model()).is_none(),
        },
{
    match document {
        JsonValue::Text(name) => {
            if same_text(name.as_str(), "Pong") {
                Some(IpcResponse::Pong)
            } else {
                None
            }
        },
        JsonValue::Object(members) => {
            proof {
                document.model_unfold();
            }
            if members.len() == 1 {
                decode_fielded_response(members[0].0.as_str(), &members[0].1)
            } else {
                None
            }
        },
        _ => None,
    }
}

/// Reads a request message from its JSON form.
pub fn decode_request_message(document: &JsonValue) -> (r: Option<IpcMessage<IpcRequest>>)
    ensures
        match r {
            Some(message) => json_request_message(document.model()) == Some(message@),
            None => json_request_message(document.model()).is_none(),
        },
{
    match (unsigned_of(document, "request_id"), document.get("payload")) {
        (Some(request_id), Some(payload)) => match decode_request(payload) {
            Some(request) => Some(IpcMessage { request_id, payload: request }),
            None => None,
        },
        _ => None,
    }
}

/// Reads a response message from its JSON form.
pub fn decode_response_message(document: &JsonValue) -> (r: Option<IpcMessage<IpcResponse>>)
    ensures
        match r {
            Some(message) => json_response_message(document.model()) == Some(message@),
            None => json_response_message(document.model()).is_none(),
        },
{
    match (unsigned_of(document, "request_id"), document.get("payload")) {
        (Some(request_id), Some(payload)) => match decode_response(payload) {
            Some(response) => Some(IpcMessage { request_id, payload: response }),
            None => None,
        },
        _ => None,
    }
}

/// Reads what the worker sent as the host does: a response that stands
/// alone is an event with the identifier 0, anything else has to be a
/// response message.
pub fn decode_reply(document: &JsonValue) -> (r: Option<IpcMessage<IpcResponse>>)
    ensures
        match r {
            Some(message) => json_reply(document.model()) == Some(message@),
            None => json_reply(document.model()).is_none(),
        },
{
    match decode_response(document) {
        Some(response) => Some(IpcMessage { request_id: 0, payload: response }),
        None => decode_response_message(document),
    }
}

/// The bytes of a request message on the wire: the JSON text of its JSON
/// form, where `serde_json` writes one.
pub open spec fn request_text(request_id: u64, request: RequestView) -> Option<Seq<u8>> {
    printed(canonical(envelope_json(request_id, request_json(request))))
}

/// The bytes of a response message on the wire: the JSON text of its JSON
/// form, where `serde_json` writes one.
pub open spec fn response_text(request_id: u64, response: ResponseView) -> Option<Seq<u8>> {
    printed(canonical(envelope_json(request_id, response_json(response))))
}

/// The bytes of a request message on the wire. Fails with `InvalidData`
/// exactly where the text could not be written.
pub fn serialize_request(message: &IpcMessage<IpcRequest>) -> (r: Result<Vec<u8>, IpcError>)
    ensures
        match r {
            Ok(bytes) => request_text(message.request_id, message.payload@) == Some(bytes@),
            Err(e) => e == IpcError::InvalidData && request_text(
                message.request_id,
                message.payload@,
            ).is_none(),
        },
{
    match to_bytes(&encode_request_message(message)) {
        Some(bytes) => Ok(bytes),
        None => Err(IpcError::InvalidData),
    }
}

/// The bytes of a response message on the wire. Fails with `InvalidData`
/// exactly where the text could not be written.
pub fn serialize_response(request_id: u64, response: IpcResponse) -> (r: Result<
    Vec<u8>,
    IpcError,
>)
    ensures
        match r {
            Ok(bytes) => response_text(request_id, response@) == Some(bytes@),
            Err(e) => e == IpcError::InvalidData && response_text(request_id, response@).is_none(),
        },
{
    let message = IpcMessage { request_id, payload: response };
    match to_bytes(&encode_response_message(&message)) {
        Some(bytes) => Ok(bytes),
        None => Err(IpcError::InvalidData),
    }
}

/// The request message that a text on the wire stands for: the one that its
/// JSON document stands for.
pub open spec fn text_request_message(data: Seq<u8>) -> Option<Envelope<RequestView>> {
    match parsed(data) {
        Some(document) => json_request_message(document),
        None => None,
    }
}

/// The reply that a text on the wire stands for: the one that its JSON
/// document stands for.
pub open spec fn text_reply(data: Seq<u8>) -> Option<Envelope<ResponseView>> {
    match parsed(data) {
        Some(document) => json_reply(document),
        None => None,
    }
}

/// Reads a request message from the wire. Fails with `InvalidData` where
/// the bytes are not JSON text or the document is not a request message.
pub fn deserialize_request(data: &[u8]) -> (r: Result<IpcMessage<IpcRequest>, IpcError>)
    ensures
        match r {
            Ok(message) => text_request_message(data@) == Some(message@),
            Err(e) => e == IpcError::InvalidData && text_request_message(data@).is_none(),
        },
{
    match parse(data) {
        Some(document) => match decode_request_message(&document) {
            Some(message) => Ok(message),
            None => Err(IpcError::InvalidData),
        },
        None => Err(IpcError::InvalidData),
    }
}

/// Reads a reply from the wire, as the identifier and the response. A
/// response that stands alone is an event and gets the identifier 0. Fails
/// with `InvalidData` where the bytes are not JSON text or the document is
/// neither a response nor a response message.
pub fn deserialize_response(data: &[u8]) -> (r: Result<(u64, IpcResponse), IpcError>)
    ensures
        match r {
            Ok(reply) => text_reply(data@) == Some(
                Envelope { request_id: reply.0, payload: reply.1@ },
            ),
            Err(e) => e == IpcError::InvalidData && text_reply(data@).is_none(),
        },
{
    match parse(data) {
        Some(document) => match decode_reply(&document) {
            Some(message) => Ok((message.request_id, message.payload)),
            None => Err(IpcError::InvalidData),
        },
        None => Err(IpcError::InvalidData),
    }
}

} // verus!
