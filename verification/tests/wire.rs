use webviewjs::ipc::{IpcError, IpcMessage, IpcRequest, IpcResponse};
use webviewjs::json::{JsonNumber, JsonValue};
use webviewjs::wire::{
    decode_reply, decode_request, decode_request_message, decode_response,
    decode_response_message, deserialize_request, deserialize_response, encode_request,
    encode_request_message, encode_response, encode_response_message, serialize_request,
    serialize_response,
};

fn object(members: Vec<(&str, JsonValue)>) -> JsonValue {
    JsonValue::Object(members.into_iter().map(|(k, v)| (k.to_string(), v)).collect())
}

fn number(n: u64) -> JsonValue {
    JsonValue::Number(JsonNumber::Unsigned(n))
}

fn text(s: &str) -> JsonValue {
    JsonValue::Text(s.to_string())
}

fn sample_options() -> JsonValue {
    object(vec![
        ("tags", JsonValue::Array(vec![JsonValue::Bool(true), JsonValue::Null, number(2)])),
        ("title", text("T")),
        ("width", JsonValue::Number(JsonNumber::Real("640.5".to_string()))),
        ("x", JsonValue::Number(JsonNumber::Signed(-3))),
    ])
}

fn all_requests() -> Vec<IpcRequest> {
    vec![
        IpcRequest::CreateBrowserWindow { window_id: 7, options: sample_options(), is_child: false },
        IpcRequest::CreateBrowserWindow { window_id: 0, options: JsonValue::Null, is_child: true },
        IpcRequest::CloseWindow { window_id: u32::MAX },
        IpcRequest::CreateWebview { window_id: 3, options: sample_options() },
        IpcRequest::EvaluateScript { window_id: 3, script: "alert(\"\u{e9}\\n\")".to_string() },
        IpcRequest::LoadUrl { window_id: 3, url: "https://example.com/?a=1&b=2".to_string() },
        IpcRequest::LoadHtml { window_id: 3, html: "<p>line\nbreak</p>".to_string() },
        IpcRequest::SetWindowVisible { window_id: 9, visible: false },
        IpcRequest::SetWindowTitle { window_id: 9, title: String::new() },
        IpcRequest::Exit,
        IpcRequest::Ping,
    ]
}

fn all_responses() -> Vec<IpcResponse> {
    vec![
        IpcResponse::Success { request_id: 0, data: None },
        IpcResponse::Success { request_id: 5, data: Some(sample_options()) },
        IpcResponse::Success { request_id: u64::MAX, data: Some(JsonValue::Bool(false)) },
        IpcResponse::Error { request_id: 12, message: "Window 99 not found".to_string() },
        IpcResponse::ApplicationEvent {
            event_type: "WindowCloseRequested".to_string(),
            window_id: Some(4),
        },
        IpcResponse::ApplicationEvent { event_type: "Other".to_string(), window_id: None },
        IpcResponse::Pong,
    ]
}

#[test]
fn test_serialization() {
    let request = IpcRequest::Ping;
    let message = IpcMessage { request_id: 1, payload: request };
    let serialized = serialize_request(&message).unwrap();
    let deserialized = deserialize_request(&serialized).unwrap();
    assert_eq!(deserialized.request_id, 1);
    matches!(deserialized.payload, IpcRequest::Ping);
}

#[test]
fn request_json_has_the_documented_shape() {
    assert_eq!(encode_request(&IpcRequest::Ping), text("Ping"));
    assert_eq!(encode_request(&IpcRequest::Exit), text("Exit"));
    assert_eq!(
        encode_request(&IpcRequest::CloseWindow { window_id: 3 }),
        object(vec![("CloseWindow", object(vec![("window_id", number(3))]))])
    );
    assert_eq!(
        encode_request(&IpcRequest::CreateBrowserWindow {
            window_id: 7,
            options: object(vec![("title", text("T"))]),
            is_child: false,
        }),
        object(vec![(
            "CreateBrowserWindow",
            object(vec![
                ("window_id", number(7)),
                ("options", object(vec![("title", text("T"))])),
                ("is_child", JsonValue::Bool(false)),
            ])
        )])
    );
    assert_eq!(
        encode_request(&IpcRequest::SetWindowTitle { window_id: 7, title: "U".to_string() }),
        object(vec![(
            "SetWindowTitle",
            object(vec![("window_id", number(7)), ("title", text("U"))])
        )])
    );
}

#[test]
fn response_json_has_the_documented_shape() {
    assert_eq!(encode_response(&IpcResponse::Pong), text("Pong"));
    assert_eq!(
        encode_response(&IpcResponse::Success { request_id: 0, data: None }),
        object(vec![(
            "Success",
            object(vec![("request_id", number(0)), ("data", JsonValue::Null)])
        )])
    );
    assert_eq!(
        encode_response(&IpcResponse::Error { request_id: 2, message: "m".to_string() }),
        object(vec![("Error", object(vec![("request_id", number(2)), ("message", text("m"))]))])
    );
    assert_eq!(
        encode_response(&IpcResponse::ApplicationEvent {
            event_type: "WindowCloseRequested".to_string(),
            window_id: Some(4),
        }),
        object(vec![(
            "ApplicationEvent",
            object(vec![("event_type", text("WindowCloseRequested")), ("window_id", number(4))])
        )])
    );
}

#[test]
fn every_request_survives_its_json_form() {
    for request in all_requests() {
        assert_eq!(decode_request(&encode_request(&request)), Some(request));
    }
}

#[test]
fn every_response_survives_its_json_form() {
    for response in all_responses() {
        assert_eq!(decode_response(&encode_response(&response)), Some(response));
    }
}

#[test]
fn null_data_comes_back_as_no_data() {
    let response = IpcResponse::Success { request_id: 1, data: Some(JsonValue::Null) };
    assert_eq!(
        decode_response(&encode_response(&response)),
        Some(IpcResponse::Success { request_id: 1, data: None })
    );
}

#[test]
fn every_message_survives_its_json_form() {
    for (i, request) in all_requests().into_iter().enumerate() {
        let message = IpcMessage { request_id: i as u64 + 1, payload: request };
        assert_eq!(decode_request_message(&encode_request_message(&message)), Some(message));
    }
    for (i, response) in all_responses().into_iter().enumerate() {
        let id = i as u64 + 1;
        let message = IpcMessage { request_id: id, payload: response.clone() };
        let document = encode_response_message(&message);
        assert_eq!(
            decode_response_message(&document),
            Some(IpcMessage { request_id: id, payload: response })
        );
        assert_eq!(decode_reply(&document), Some(message));
    }
}

#[test]
fn every_request_survives_the_wire() {
    for (i, request) in all_requests().into_iter().enumerate() {
        let message = IpcMessage { request_id: 1000 + i as u64, payload: request };
        let bytes = serialize_request(&message).unwrap();
        assert_eq!(deserialize_request(&bytes), Ok(message));
    }
}

#[test]
fn every_response_survives_the_wire() {
    for (i, response) in all_responses().into_iter().enumerate() {
        let id = 2000 + i as u64;
        let bytes = serialize_response(id, response.clone()).unwrap();
        assert_eq!(deserialize_response(&bytes), Ok((id, response)));
    }
}

#[test]
fn wire_text_is_json_that_serde_reads() {
    let bytes = serialize_request(&IpcMessage {
        request_id: 1,
        payload: IpcRequest::SetWindowVisible { window_id: 7, visible: true },
    })
    .unwrap();
    let value: serde_json::Value = serde_json::from_slice(&bytes).unwrap();
    assert_eq!(value["request_id"].as_u64(), Some(1));
    assert_eq!(value["payload"]["SetWindowVisible"]["window_id"].as_u64(), Some(7));
    assert_eq!(value["payload"]["SetWindowVisible"]["visible"].as_bool(), Some(true));
    assert!(!bytes.contains(&b'\n'));
}

#[test]
fn numbers_keep_their_form_on_the_wire() {
    let options = object(vec![
        ("a", number(u64::MAX)),
        ("b", JsonValue::Number(JsonNumber::Signed(i64::MIN))),
        ("c", JsonValue::Number(JsonNumber::Real("0.25".to_string()))),
        ("d", JsonValue::Number(JsonNumber::Real("1e+300".to_string()))),
    ]);
    let message = IpcMessage {
        request_id: 1,
        payload: IpcRequest::CreateWebview { window_id: 1, options },
    };
    let bytes = serialize_request(&message).unwrap();
    let text = String::from_utf8(bytes.clone()).unwrap();
    assert!(text.contains("18446744073709551615"));
    assert!(text.contains("-9223372036854775808"));
    assert!(text.contains("0.25"));
    assert!(text.contains("1e+300"), "{}", text);
    assert_eq!(deserialize_request(&bytes), Ok(message));
}

#[test]
fn a_numeral_is_read_back_as_serde_json_writes_it() {
    let options = object(vec![("w", JsonValue::Number(JsonNumber::Real("1e300".to_string())))]);
    let message = IpcMessage {
        request_id: 1,
        payload: IpcRequest::CreateWebview { window_id: 1, options },
    };
    let bytes = serialize_request(&message).unwrap();
    let back = deserialize_request(&bytes).unwrap();
    assert_eq!(
        back.payload,
        IpcRequest::CreateWebview {
            window_id: 1,
            options: object(vec![("w", JsonValue::Number(JsonNumber::Real("1e+300".to_string())))]),
        }
    );
}

#[test]
fn the_members_of_an_option_payload_are_found_again_after_the_wire() {
    let options = object(vec![("zeta", number(1)), ("alpha", number(2)), ("zeta", number(3))]);
    let message = IpcMessage {
        request_id: 1,
        payload: IpcRequest::CreateWebview { window_id: 1, options },
    };
    let bytes = serialize_request(&message).unwrap();
    match deserialize_request(&bytes).unwrap().payload {
        IpcRequest::CreateWebview { window_id, options } => {
            assert_eq!(window_id, 1);
            assert_eq!(options.get("zeta"), Some(&number(3)));
            assert_eq!(options.get("alpha"), Some(&number(2)));
            assert_eq!(options.get("beta"), None);
        }
        other => panic!("{:?}", other),
    }
}

#[test]
fn a_numeral_that_is_no_number_is_written_as_null() {
    let options = object(vec![("w", JsonValue::Number(JsonNumber::Real("wide".to_string())))]);
    let message = IpcMessage {
        request_id: 1,
        payload: IpcRequest::CreateWebview { window_id: 1, options },
    };
    let bytes = serialize_request(&message).unwrap();
    let back = deserialize_request(&bytes).unwrap();
    assert_eq!(
        back.payload,
        IpcRequest::CreateWebview { window_id: 1, options: object(vec![("w", JsonValue::Null)]) }
    );
}

#[test]
fn deserialize_request_reads_plain_text() {
    let bytes = b"{\"request_id\": 5, \"payload\": {\"LoadUrl\": {\"url\": \"u\", \"window_id\": 2, \"extra\": [1, 2.5, -3]}}}";
    assert_eq!(
        deserialize_request(bytes),
        Ok(IpcMessage {
            request_id: 5,
            payload: IpcRequest::LoadUrl { window_id: 2, url: "u".to_string() },
        })
    );
}

#[test]
fn deserialize_request_rejects_what_is_no_request() {
    let cases: Vec<&[u8]> = vec![
        b"",
        b"{",
        b"not json",
        b"null",
        b"\"Ping\"",
        b"{\"request_id\": 1}",
        b"{\"payload\": \"Ping\"}",
        b"{\"request_id\": -1, \"payload\": \"Ping\"}",
        b"{\"request_id\": 1.5, \"payload\": \"Ping\"}",
        b"{\"request_id\": \"1\", \"payload\": \"Ping\"}",
        b"{\"request_id\": 1, \"payload\": \"Pong\"}",
        b"{\"request_id\": 1, \"payload\": \"ping\"}",
        b"{\"request_id\": 1, \"payload\": {\"CloseWindow\": {}}}",
        b"{\"request_id\": 1, \"payload\": {\"CloseWindow\": {\"window_id\": 4294967296}}}",
        b"{\"request_id\": 1, \"payload\": {\"CloseWindow\": {\"window_id\": \"3\"}}}",
        b"{\"request_id\": 1, \"payload\": {\"CloseWindow\": 3}}",
        b"{\"request_id\": 1, \"payload\": {\"Unknown\": {\"window_id\": 3}}}",
        b"{\"request_id\": 1, \"payload\": {\"CloseWindow\": {\"window_id\": 3}, \"Ping\": null}}",
        b"{\"request_id\": 1, \"payload\": {\"SetWindowVisible\": {\"window_id\": 3, \"visible\": 1}}}",
        b"{\"request_id\": 1, \"payload\": {\"SetWindowTitle\": {\"window_id\": 3}}}",
        b"{\"request_id\": 1, \"payload\": {\"CreateWebview\": {\"window_id\": 3}}}",
        b"{\"request_id\": 1, \"payload\": {\"CreateBrowserWindow\": {\"window_id\": 3, \"options\": {}}}}",
        b"{\"request_id\": 1, \"payload\": \"Ping\"} trailing",
    ];
    for bytes in cases {
        assert_eq!(
            deserialize_request(bytes),
            Err(IpcError::InvalidData),
            "{}",
            String::from_utf8_lossy(bytes)
        );
    }
}

#[test]
fn the_last_of_two_members_with_one_key_counts() {
    let document = object(vec![
        ("request_id", number(1)),
        ("payload", text("Exit")),
        ("request_id", number(2)),
    ]);
    assert_eq!(
        decode_request_message(&document),
        Some(IpcMessage { request_id: 2, payload: IpcRequest::Exit })
    );
}

#[test]
fn deserialize_response_reads_events_and_replies() {
    assert_eq!(deserialize_response(b"\"Pong\""), Ok((0, IpcResponse::Pong)));
    assert_eq!(
        deserialize_response(b"{\"request_id\": 9, \"payload\": \"Pong\"}"),
        Ok((9, IpcResponse::Pong))
    );
    assert_eq!(
        deserialize_response(
            b"{\"ApplicationEvent\": {\"event_type\": \"WindowCloseRequested\", \"window_id\": 3}}"
        ),
        Ok((
            0,
            IpcResponse::ApplicationEvent {
                event_type: "WindowCloseRequested".to_string(),
                window_id: Some(3),
            }
        ))
    );
    assert_eq!(
        deserialize_response(b"{\"ApplicationEvent\": {\"event_type\": \"E\"}}"),
        Ok((0, IpcResponse::ApplicationEvent { event_type: "E".to_string(), window_id: None }))
    );
    assert_eq!(
        deserialize_response(b"{\"request_id\": 4, \"payload\": {\"Success\": {\"request_id\": 0}}}"),
        Ok((4, IpcResponse::Success { request_id: 0, data: None }))
    );
    assert_eq!(
        deserialize_response(
            b"{\"request_id\": 4, \"payload\": {\"Success\": {\"request_id\": 0, \"data\": {\"closed\": true}}}}"
        ),
        Ok((
            4,
            IpcResponse::Success {
                request_id: 0,
                data: Some(object(vec![("closed", JsonValue::Bool(true))])),
            }
        ))
    );
}

#[test]
fn deserialize_response_rejects_what_is_no_reply() {
    let cases: Vec<&[u8]> = vec![
        b"",
        b"[]",
        b"\"Ping\"",
        b"{\"request_id\": 1, \"payload\": \"Ping\"}",
        b"{\"Success\": {}}",
        b"{\"Error\": {\"request_id\": 1}}",
        b"{\"ApplicationEvent\": {\"event_type\": \"E\", \"window_id\": \"3\"}}",
        b"{\"ApplicationEvent\": {\"event_type\": \"E\", \"window_id\": 4294967296}}",
        b"{\"ApplicationEvent\": {\"window_id\": 3}}",
    ];
    for bytes in cases {
        assert_eq!(
            deserialize_response(bytes),
            Err(IpcError::InvalidData),
            "{}",
            String::from_utf8_lossy(bytes)
        );
    }
}
