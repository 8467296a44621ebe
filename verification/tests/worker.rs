use webviewjs::attributes::{window_attributes, WebviewAttributes, WindowAttributes};
use webviewjs::dispatch::{
    complete_toolkit_call, process_ipc_request, respond, IpcRequestResult, ToolkitCall,
};
use webviewjs::ipc::{IpcMessage, IpcRequest, IpcResponse};
use webviewjs::json::{JsonNumber, JsonValue};
use webviewjs::registry::WindowManager;
use webviewjs::worker::{RequestStep, Worker};
use webviewjs::wry::enums::Theme;

fn object(members: Vec<(&str, JsonValue)>) -> JsonValue {
    JsonValue::Object(members.into_iter().map(|(k, v)| (k.to_string(), v)).collect())
}

fn number(n: u64) -> JsonValue {
    JsonValue::Number(JsonNumber::Unsigned(n))
}

fn text(s: &str) -> JsonValue {
    JsonValue::Text(s.to_string())
}

fn success(members: Vec<(&str, JsonValue)>) -> IpcResponse {
    IpcResponse::Success { request_id: 0, data: Some(object(members)) }
}

fn message(request_id: u64, payload: IpcRequest) -> IpcMessage<IpcRequest> {
    IpcMessage { request_id, payload }
}

fn reply(request_id: u64, payload: IpcResponse) -> RequestStep {
    RequestStep::Reply(IpcMessage { request_id, payload })
}

fn create_window(worker: &mut Worker, request_id: u64, window_id: u32, native_id: u64) {
    let step = worker.begin_request(message(
        request_id,
        IpcRequest::CreateBrowserWindow {
            window_id,
            options: object(vec![("title", text("T"))]),
            is_child: false,
        },
    ));
    match step {
        RequestStep::Call { request_id: id, call } => {
            assert_eq!(id, request_id);
            let answer = worker.finish_request(id, call, Ok(native_id));
            assert_eq!(
                answer,
                IpcMessage {
                    request_id,
                    payload: success(vec![
                        ("window_id", number(window_id as u64)),
                        ("success", JsonValue::Bool(true)),
                    ]),
                }
            );
        }
        other => panic!("{:?}", other),
    }
}

fn create_webview(worker: &mut Worker, request_id: u64, window_id: u32) {
    let step = worker.begin_request(message(
        request_id,
        IpcRequest::CreateWebview { window_id, options: JsonValue::Null },
    ));
    match step {
        RequestStep::Call { request_id: id, call } => {
            let answer = worker.finish_request(id, call, Ok(0));
            assert_eq!(
                answer,
                IpcMessage {
                    request_id,
                    payload: success(vec![
                        ("window_id", number(window_id as u64)),
                        ("webview_created", JsonValue::Bool(true)),
                    ]),
                }
            );
        }
        other => panic!("{:?}", other),
    }
}

#[test]
fn registry_adds_finds_and_removes() {
    let mut manager = WindowManager::new();
    assert_eq!(manager.window_count(), 0);
    assert!(!manager.has_window(7));
    assert_eq!(manager.get_window(7), None);
    assert_eq!(manager.get_window_id(700), None);
    manager.add_window(7, 700);
    manager.add_window(8, 800);
    manager.add_webview(7);
    assert_eq!(manager.window_count(), 2);
    assert!(manager.has_window(7));
    assert!(manager.has_webview(7));
    assert!(!manager.has_webview(8));
    assert_eq!(manager.get_window(7), Some(700));
    assert_eq!(manager.get_window_id(800), Some(8));
    manager.remove_window(7);
    assert_eq!(manager.window_count(), 1);
    assert!(!manager.has_window(7));
    assert!(!manager.has_webview(7));
    assert_eq!(manager.get_window_id(700), None);
    assert_eq!(manager.get_window(8), Some(800));
    assert_eq!(manager.get_window_id(800), Some(8));
    manager.remove_window(7);
    manager.remove_window(99);
    assert_eq!(manager.window_count(), 1);
}

#[test]
fn registry_replaces_a_window_under_the_same_handle() {
    let mut manager = WindowManager::new();
    manager.add_window(7, 700);
    manager.add_window(7, 701);
    assert_eq!(manager.window_count(), 1);
    assert_eq!(manager.get_window(7), Some(701));
    assert_eq!(manager.get_window_id(701), Some(7));
    assert_eq!(manager.get_window_id(700), None);
    manager.remove_window(7);
    assert_eq!(manager.get_window_id(701), None);
    assert_eq!(manager.get_window_id(700), None);
}

#[test]
fn a_native_window_leads_to_the_handle_that_took_it_last() {
    let mut manager = WindowManager::new();
    manager.add_window(7, 700);
    manager.add_window(8, 700);
    assert_eq!(manager.get_window_id(700), Some(8));
    assert_eq!(manager.get_window(7), Some(700));
    manager.remove_window(7);
    assert_eq!(manager.get_window_id(700), Some(8));
    manager.remove_window(8);
    assert_eq!(manager.get_window_id(700), None);
}

#[test]
fn removal_keeps_a_webview_without_window() {
    let mut manager = WindowManager::new();
    manager.add_webview(5);
    manager.remove_window(5);
    assert!(manager.has_webview(5));
}

#[test]
fn ping_is_answered_with_pong_whatever_the_registry_holds() {
    let mut manager = WindowManager::new();
    assert_eq!(
        process_ipc_request(IpcRequest::Ping, &mut manager),
        IpcRequestResult::Success(IpcResponse::Pong)
    );
    manager.add_window(1, 10);
    manager.add_webview(1);
    assert_eq!(
        process_ipc_request(IpcRequest::Ping, &mut manager),
        IpcRequestResult::Success(IpcResponse::Pong)
    );
    assert_eq!(manager.window_count(), 1);
    let mut worker = Worker::new();
    assert_eq!(worker.begin_request(message(77, IpcRequest::Ping)), reply(77, IpcResponse::Pong));
    create_window(&mut worker, 1, 7, 700);
    assert_eq!(worker.begin_request(message(78, IpcRequest::Ping)), reply(78, IpcResponse::Pong));
}

#[test]
fn scenario_create_window_then_set_title() {
    let mut worker = Worker::new();
    create_window(&mut worker, 1, 7, 700);
    assert!(worker.has_window(7));

    let step = worker.begin_request(message(
        2,
        IpcRequest::SetWindowTitle { window_id: 7, title: "U".to_string() },
    ));
    let answer = match step {
        RequestStep::Call { request_id, call } => {
            assert_eq!(call, ToolkitCall::SetTitle { window_id: 7, title: "U".to_string() });
            worker.finish_request(request_id, call, Ok(0))
        }
        other => panic!("{:?}", other),
    };
    assert_eq!(
        answer,
        IpcMessage { request_id: 2, payload: success(vec![("title", text("U"))]) }
    );

    let step = worker.begin_request(message(
        3,
        IpcRequest::SetWindowTitle { window_id: 99, title: "U".to_string() },
    ));
    match step {
        RequestStep::Reply(IpcMessage {
            request_id: 3,
            payload: IpcResponse::Error { request_id: 3, message },
        }) => {
            assert!(message.contains("99"));
            assert_eq!(message, "Window 99 not found");
        }
        other => panic!("{:?}", other),
    }
}

#[test]
fn close_of_another_window_spares_the_entry() {
    let mut worker = Worker::new();
    create_window(&mut worker, 1, 7, 700);
    create_webview(&mut worker, 2, 7);
    create_window(&mut worker, 3, 8, 800);
    let step = worker.begin_request(message(
        4,
        IpcRequest::SetWindowVisible { window_id: 7, visible: false },
    ));
    match step {
        RequestStep::Call { request_id, call } => {
            assert_eq!(call, ToolkitCall::SetVisible { window_id: 7, visible: false });
            assert_eq!(
                worker.finish_request(request_id, call, Ok(0)),
                IpcMessage {
                    request_id: 4,
                    payload: success(vec![("visible", JsonValue::Bool(false))]),
                }
            );
        }
        other => panic!("{:?}", other),
    }
    assert_eq!(
        worker.native_close(800),
        Some(IpcMessage {
            request_id: 0,
            payload: IpcResponse::ApplicationEvent {
                event_type: "WindowCloseRequested".to_string(),
                window_id: Some(8),
            },
        })
    );
    assert!(!worker.has_window(8));
    assert!(worker.has_window(7));
    assert!(worker.has_webview(7));
    assert_eq!(worker.native_close(800), None);
    assert_eq!(worker.native_close(12345), None);
    assert!(worker.has_window(7));
    let step = worker.begin_request(message(
        5,
        IpcRequest::SetWindowTitle { window_id: 7, title: "still".to_string() },
    ));
    assert!(matches!(step, RequestStep::Call { request_id: 5, .. }));
    assert_eq!(
        worker.native_close(700),
        Some(IpcMessage {
            request_id: 0,
            payload: IpcResponse::ApplicationEvent {
                event_type: "WindowCloseRequested".to_string(),
                window_id: Some(7),
            },
        })
    );
    assert!(!worker.has_window(7));
    assert!(!worker.has_webview(7));
}

#[test]
fn an_unknown_handle_is_refused_by_name() {
    let mut worker = Worker::new();
    create_window(&mut worker, 1, 7, 700);
    let window_requests = vec![
        IpcRequest::CloseWindow { window_id: 4294967295 },
        IpcRequest::CreateWebview { window_id: 4294967295, options: JsonValue::Null },
        IpcRequest::SetWindowVisible { window_id: 4294967295, visible: true },
        IpcRequest::SetWindowTitle { window_id: 4294967295, title: "t".to_string() },
    ];
    for request in window_requests {
        assert_eq!(
            worker.begin_request(message(9, request)),
            reply(
                9,
                IpcResponse::Error {
                    request_id: 9,
                    message: "Window 4294967295 not found".to_string(),
                }
            )
        );
    }
    let webview_requests = vec![
        IpcRequest::EvaluateScript { window_id: 7, script: "1".to_string() },
        IpcRequest::LoadUrl { window_id: 7, url: "u".to_string() },
        IpcRequest::LoadHtml { window_id: 0, html: "h".to_string() },
    ];
    for request in webview_requests {
        let id = match &request {
            IpcRequest::LoadHtml { .. } => "0",
            _ => "7",
        };
        assert_eq!(
            worker.begin_request(message(10, request)),
            reply(
                10,
                IpcResponse::Error {
                    request_id: 10,
                    message: format!("Webview {} not found", id),
                }
            )
        );
    }
    assert!(worker.has_window(7));
    assert!(!worker.should_exit());
}

#[test]
fn close_window_answers_success_and_retires_the_handle() {
    let mut worker = Worker::new();
    create_window(&mut worker, 1, 7, 700);
    create_webview(&mut worker, 2, 7);
    assert_eq!(
        worker.begin_request(message(3, IpcRequest::CloseWindow { window_id: 7 })),
        reply(3, success(vec![("closed", JsonValue::Bool(true))]))
    );
    assert!(!worker.has_window(7));
    assert!(!worker.has_webview(7));
    assert_eq!(worker.native_close(700), None);
    assert_eq!(
        worker.begin_request(message(4, IpcRequest::CloseWindow { window_id: 7 })),
        reply(4, IpcResponse::Error { request_id: 4, message: "Window 7 not found".to_string() })
    );
    assert!(!worker.has_window(7));
}

#[test]
fn closing_an_unknown_handle_is_refused_and_changes_nothing() {
    let mut manager = WindowManager::new();
    manager.add_window(7, 700);
    manager.add_webview(7);
    manager.add_webview(99);
    assert_eq!(
        process_ipc_request(IpcRequest::CloseWindow { window_id: 99 }, &mut manager),
        IpcRequestResult::Error("Window 99 not found".to_string())
    );
    assert_eq!(manager.window_count(), 1);
    assert!(manager.has_window(7));
    assert!(manager.has_webview(7));
    assert!(manager.has_webview(99));
    assert_eq!(manager.get_window_id(700), Some(7));
    assert_eq!(
        process_ipc_request(IpcRequest::CloseWindow { window_id: 7 }, &mut manager),
        IpcRequestResult::Success(success(vec![("closed", JsonValue::Bool(true))]))
    );
    assert_eq!(manager.window_count(), 0);
    let mut empty = WindowManager::new();
    assert_eq!(
        process_ipc_request(IpcRequest::CloseWindow { window_id: 0 }, &mut empty),
        IpcRequestResult::Error("Window 0 not found".to_string())
    );
}

#[test]
fn exit_raises_the_flag_and_answers_success() {
    let mut worker = Worker::new();
    assert!(!worker.should_exit());
    assert_eq!(worker.begin_request(message(1, IpcRequest::Ping)), reply(1, IpcResponse::Pong));
    assert!(!worker.should_exit());
    assert_eq!(
        worker.begin_request(message(2, IpcRequest::Exit)),
        reply(2, success(vec![("exiting", JsonValue::Bool(true))]))
    );
    assert!(worker.should_exit());
    assert_eq!(worker.begin_request(message(3, IpcRequest::Ping)), reply(3, IpcResponse::Pong));
    assert!(worker.should_exit());
}

#[test]
fn webview_calls_are_answered_with_their_data() {
    let mut worker = Worker::new();
    create_window(&mut worker, 1, 7, 700);
    create_webview(&mut worker, 2, 7);
    let cases = vec![
        (
            IpcRequest::EvaluateScript { window_id: 7, script: "a\u{e9}".to_string() },
            success(vec![("evaluated", JsonValue::Bool(true)), ("script_length", number(3))]),
        ),
        (
            IpcRequest::LoadUrl { window_id: 7, url: "https://e.x".to_string() },
            success(vec![("loaded", JsonValue::Bool(true)), ("url", text("https://e.x"))]),
        ),
        (
            IpcRequest::LoadHtml { window_id: 7, html: "<b></b>".to_string() },
            success(vec![("loaded", JsonValue::Bool(true)), ("html_length", number(7))]),
        ),
    ];
    for (request, expected) in cases {
        match worker.begin_request(message(5, request)) {
            RequestStep::Call { request_id, call } => {
                assert_eq!(
                    worker.finish_request(request_id, call, Ok(0)),
                    IpcMessage { request_id: 5, payload: expected }
                );
            }
            other => panic!("{:?}", other),
        }
    }
}

#[test]
fn a_failing_toolkit_becomes_an_error_response() {
    let mut manager = WindowManager::new();
    manager.add_window(7, 700);
    manager.add_webview(7);
    let attributes = window_attributes(&JsonValue::Null);
    let cases: Vec<(ToolkitCall, &str)> = vec![
        (ToolkitCall::BuildWindow { window_id: 9, attributes }, "Failed to create window: boom"),
        (
            ToolkitCall::BuildWebview {
                window_id: 7,
                attributes: webviewjs::attributes::webview_attributes(&JsonValue::Null),
            },
            "Failed to create webview: boom",
        ),
        (
            ToolkitCall::EvaluateScript { window_id: 7, script: "s".to_string() },
            "Failed to evaluate script: boom",
        ),
        (ToolkitCall::LoadUrl { window_id: 7, url: "u".to_string() }, "Failed to load URL: boom"),
        (
            ToolkitCall::LoadHtml { window_id: 7, html: "h".to_string() },
            "Failed to load HTML: boom",
        ),
        (ToolkitCall::SetVisible { window_id: 7, visible: true }, "Failed to set visibility: boom"),
        (
            ToolkitCall::SetTitle { window_id: 7, title: "t".to_string() },
            "Failed to set title: boom",
        ),
    ];
    for (call, expected) in cases {
        let answer = complete_toolkit_call(call, Err("boom".to_string()), &mut manager);
        assert_eq!(answer, Err(expected.to_string()));
        assert_eq!(
            respond(answer, 31),
            IpcResponse::Error { request_id: 31, message: expected.to_string() }
        );
    }
    assert!(!manager.has_window(9));
    assert_eq!(manager.window_count(), 1);
}

#[test]
fn respond_passes_a_response_through() {
    assert_eq!(respond(Ok(IpcResponse::Pong), 4), IpcResponse::Pong);
}

#[test]
fn create_window_reads_the_options() {
    let mut manager = WindowManager::new();
    let options = object(vec![
        ("title", text("T")),
        ("width", number(1024)),
        ("height", JsonValue::Number(JsonNumber::Real("768.5".to_string()))),
        ("resizable", JsonValue::Bool(false)),
        ("visible", text("yes")),
        ("fullscreen", text("Borderless")),
    ]);
    let result = process_ipc_request(
        IpcRequest::CreateBrowserWindow { window_id: 7, options, is_child: true },
        &mut manager,
    );
    let expected = WindowAttributes {
        resizable: false,
        title: "T".to_string(),
        width: JsonNumber::Unsigned(1024),
        height: JsonNumber::Real("768.5".to_string()),
        x: JsonNumber::Unsigned(0),
        y: JsonNumber::Unsigned(0),
        visible: true,
        decorations: true,
        transparent: false,
        always_on_top: false,
        always_on_bottom: false,
        maximized: false,
        maximizable: true,
        minimizable: true,
        focused: true,
        borderless_fullscreen: true,
    };
    assert_eq!(
        result,
        IpcRequestResult::Toolkit(ToolkitCall::BuildWindow { window_id: 7, attributes: expected })
    );
    assert!(!manager.has_window(7));
}

#[test]
fn create_webview_reads_the_options() {
    let mut manager = WindowManager::new();
    manager.add_window(7, 700);
    let options = object(vec![
        ("url", text("https://e.x")),
        ("theme", text("Dark")),
        ("incognito", JsonValue::Bool(true)),
        ("user_agent", JsonValue::Null),
        ("x", JsonValue::Number(JsonNumber::Signed(-5))),
    ]);
    let result =
        process_ipc_request(IpcRequest::CreateWebview { window_id: 7, options }, &mut manager);
    let expected = WebviewAttributes {
        enable_devtools: true,
        incognito: true,
        transparent: false,
        autoplay: true,
        clipboard: true,
        back_forward_navigation_gestures: true,
        hotkeys_zoom: true,
        user_agent: "WebviewJS".to_string(),
        preload: None,
        url: Some("https://e.x".to_string()),
        html: None,
        width: JsonNumber::Unsigned(800),
        height: JsonNumber::Unsigned(600),
        x: JsonNumber::Signed(-5),
        y: JsonNumber::Unsigned(0),
        theme: Some(Theme::Dark),
    };
    assert_eq!(
        result,
        IpcRequestResult::Toolkit(ToolkitCall::BuildWebview { window_id: 7, attributes: expected })
    );
    assert!(!manager.has_webview(7));
}

#[test]
fn themes_are_read_by_name() {
    let theme = |name: JsonValue| {
        webviewjs::attributes::webview_attributes(&object(vec![("theme", name)])).theme
    };
    assert_eq!(theme(text("Light")), Some(Theme::Light));
    assert_eq!(theme(text("Dark")), Some(Theme::Dark));
    assert_eq!(theme(text("System")), Some(Theme::Auto));
    assert_eq!(theme(text("light")), Some(Theme::Auto));
    assert_eq!(theme(JsonValue::Null), None);
    assert_eq!(theme(number(1)), None);
    assert_eq!(webviewjs::attributes::webview_attributes(&JsonValue::Null).theme, None);
}
