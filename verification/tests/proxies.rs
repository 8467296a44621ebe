use webviewjs::attributes::{webview_attributes, window_attributes};
use webviewjs::browser_window::{
    BrowserWindow, BrowserWindowOptions, FullscreenType, JsProgressBar, JsProgressBarState,
    MonitorQuery, WebviewCreation, WindowBuild, WindowCommand, WindowFlag, WindowIcon,
};
use webviewjs::ipc::{IpcError, IpcRequest, IpcResponse};
use webviewjs::json::{JsonNumber, JsonValue};
use webviewjs::proxy::{
    build_failed, call_failed, error_with_context, ipc_error_message, map_outcome, map_reply,
    send_failure_message, Ask, Mode, Plan,
};
use webviewjs::webview::{
    theme_to_wry, webview_failure_message, JsTheme, JsWebview, WebviewBuild, WebviewCommand,
    WebviewOptions,
};
use webviewjs::wry::enums::Theme;

fn object(members: Vec<(&str, JsonValue)>) -> JsonValue {
    JsonValue::Object(members.into_iter().map(|(k, v)| (k.to_string(), v)).collect())
}

fn number(n: u64) -> JsonValue {
    JsonValue::Number(JsonNumber::Unsigned(n))
}

fn text(s: &str) -> JsonValue {
    JsonValue::Text(s.to_string())
}

fn empty_window_options() -> BrowserWindowOptions {
    BrowserWindowOptions {
        resizable: None,
        title: None,
        width: None,
        height: None,
        x: None,
        y: None,
        content_protection: None,
        always_on_top: None,
        always_on_bottom: None,
        visible: None,
        decorations: None,
        visible_on_all_workspaces: None,
        maximized: None,
        maximizable: None,
        minimizable: None,
        focused: None,
        transparent: None,
        fullscreen: None,
    }
}

fn empty_webview_options() -> WebviewOptions {
    WebviewOptions {
        url: None,
        html: None,
        width: None,
        height: None,
        x: None,
        y: None,
        enable_devtools: None,
        incognito: None,
        user_agent: None,
        child: None,
        preload: None,
        transparent: None,
        theme: None,
        hotkeys_zoom: None,
        clipboard: None,
        autoplay: None,
        back_forward_navigation_gestures: None,
    }
}

#[test]
fn default_window_options_are_those_of_a_plain_window() {
    let options = BrowserWindowOptions::default();
    assert_eq!(options.resizable, Some(true));
    assert_eq!(options.title, Some("WebviewJS".to_string()));
    assert_eq!(options.width, Some(JsonNumber::Unsigned(800)));
    assert_eq!(options.height, Some(JsonNumber::Unsigned(600)));
    assert_eq!(options.x, Some(JsonNumber::Unsigned(0)));
    assert_eq!(options.y, Some(JsonNumber::Unsigned(0)));
    assert_eq!(options.content_protection, Some(false));
    assert_eq!(options.always_on_top, Some(false));
    assert_eq!(options.always_on_bottom, Some(false));
    assert_eq!(options.visible, Some(true));
    assert_eq!(options.decorations, Some(true));
    assert_eq!(options.visible_on_all_workspaces, Some(false));
    assert_eq!(options.maximized, Some(false));
    assert_eq!(options.maximizable, Some(true));
    assert_eq!(options.minimizable, Some(true));
    assert_eq!(options.focused, Some(true));
    assert_eq!(options.transparent, Some(false));
    assert_eq!(options.fullscreen, None);
}

#[test]
fn default_webview_options_are_those_of_a_plain_webview() {
    let options = WebviewOptions::default();
    let expected = WebviewOptions {
        enable_devtools: Some(true),
        incognito: Some(false),
        user_agent: Some("WebviewJS".to_string()),
        child: Some(false),
        transparent: Some(false),
        hotkeys_zoom: Some(true),
        clipboard: Some(true),
        autoplay: Some(true),
        back_forward_navigation_gestures: Some(true),
        ..empty_webview_options()
    };
    assert_eq!(options, expected);
}

#[test]
fn window_options_are_written_member_by_member() {
    let options = BrowserWindowOptions {
        title: Some("T".to_string()),
        width: Some(JsonNumber::Real("1.5".to_string())),
        transparent: Some(true),
        fullscreen: Some(FullscreenType::Exclusive),
        ..empty_window_options()
    };
    let expected = object(vec![
        ("resizable", JsonValue::Null),
        ("title", text("T")),
        ("width", JsonValue::Number(JsonNumber::Real("1.5".to_string()))),
        ("height", JsonValue::Null),
        ("x", JsonValue::Null),
        ("y", JsonValue::Null),
        ("content_protection", JsonValue::Null),
        ("always_on_top", JsonValue::Null),
        ("always_on_bottom", JsonValue::Null),
        ("visible", JsonValue::Null),
        ("decorations", JsonValue::Null),
        ("visible_on_all_workspaces", JsonValue::Null),
        ("maximized", JsonValue::Null),
        ("maximizable", JsonValue::Null),
        ("minimizable", JsonValue::Null),
        ("focused", JsonValue::Null),
        ("transparent", JsonValue::Bool(true)),
        ("fullscreen", text("Exclusive")),
    ]);
    assert_eq!(options.to_json(), expected);
}

#[test]
fn webview_options_are_written_member_by_member() {
    let options = WebviewOptions {
        url: Some("https://e.x".to_string()),
        height: Some(JsonNumber::Unsigned(300)),
        child: Some(true),
        theme: Some(JsTheme::System),
        ..empty_webview_options()
    };
    let expected = object(vec![
        ("url", text("https://e.x")),
        ("html", JsonValue::Null),
        ("width", JsonValue::Null),
        ("height", number(300)),
        ("x", JsonValue::Null),
        ("y", JsonValue::Null),
        ("enable_devtools", JsonValue::Null),
        ("incognito", JsonValue::Null),
        ("user_agent", JsonValue::Null),
        ("child", JsonValue::Bool(true)),
        ("preload", JsonValue::Null),
        ("transparent", JsonValue::Null),
        ("theme", text("System")),
        ("hotkeys_zoom", JsonValue::Null),
        ("clipboard", JsonValue::Null),
        ("autoplay", JsonValue::Null),
        ("back_forward_navigation_gestures", JsonValue::Null),
    ]);
    assert_eq!(options.to_json(), expected);
}

#[test]
fn the_worker_reads_what_the_host_wrote_for_a_window() {
    let options = BrowserWindowOptions {
        resizable: Some(false),
        title: Some("Login".to_string()),
        width: Some(JsonNumber::Unsigned(320)),
        height: Some(JsonNumber::Real("240.5".to_string())),
        x: Some(JsonNumber::Signed(-10)),
        always_on_top: Some(true),
        maximizable: Some(false),
        focused: Some(false),
        fullscreen: Some(FullscreenType::Borderless),
        ..empty_window_options()
    };
    let read = window_attributes(&options.to_json());
    assert!(!read.resizable);
    assert_eq!(read.title, "Login");
    assert_eq!(read.width, JsonNumber::Unsigned(320));
    assert_eq!(read.height, JsonNumber::Real("240.5".to_string()));
    assert_eq!(read.x, JsonNumber::Signed(-10));
    assert_eq!(read.y, JsonNumber::Unsigned(0));
    assert!(read.visible);
    assert!(read.decorations);
    assert!(!read.transparent);
    assert!(read.always_on_top);
    assert!(!read.always_on_bottom);
    assert!(!read.maximized);
    assert!(!read.maximizable);
    assert!(read.minimizable);
    assert!(!read.focused);
    assert!(read.borderless_fullscreen);
    let exclusive = BrowserWindowOptions {
        fullscreen: Some(FullscreenType::Exclusive),
        ..empty_window_options()
    };
    assert!(!window_attributes(&exclusive.to_json()).borderless_fullscreen);
    assert_eq!(
        window_attributes(&BrowserWindowOptions::default().to_json()),
        window_attributes(&JsonValue::Null)
    );
}

#[test]
fn the_worker_reads_what_the_host_wrote_for_a_webview() {
    let options = WebviewOptions {
        html: Some("<p>".to_string()),
        preload: Some("init()".to_string()),
        enable_devtools: Some(false),
        incognito: Some(true),
        user_agent: Some("UA".to_string()),
        theme: Some(JsTheme::Light),
        autoplay: Some(false),
        width: Some(JsonNumber::Unsigned(10)),
        ..empty_webview_options()
    };
    let read = webview_attributes(&options.to_json());
    assert!(!read.enable_devtools);
    assert!(read.incognito);
    assert!(!read.transparent);
    assert!(!read.autoplay);
    assert!(read.clipboard);
    assert!(read.back_forward_navigation_gestures);
    assert!(read.hotkeys_zoom);
    assert_eq!(read.user_agent, "UA");
    assert_eq!(read.preload, Some("init()".to_string()));
    assert_eq!(read.url, None);
    assert_eq!(read.html, Some("<p>".to_string()));
    assert_eq!(read.width, JsonNumber::Unsigned(10));
    assert_eq!(read.height, JsonNumber::Unsigned(600));
    assert_eq!(read.theme, Some(Theme::Light));
    let system = WebviewOptions { theme: Some(JsTheme::System), ..empty_webview_options() };
    assert_eq!(webview_attributes(&system.to_json()).theme, Some(Theme::Auto));
    let dark = WebviewOptions { theme: Some(JsTheme::Dark), ..empty_webview_options() };
    assert_eq!(webview_attributes(&dark.to_json()).theme, Some(Theme::Dark));
}

#[test]
fn a_direct_window_is_built_from_its_options() {
    let options = BrowserWindowOptions {
        width: Some(JsonNumber::Unsigned(320)),
        height: Some(JsonNumber::Unsigned(240)),
        title: Some("T".to_string()),
        fullscreen: Some(FullscreenType::Exclusive),
        content_protection: Some(true),
        ..empty_window_options()
    };
    let (window, build) = BrowserWindow::new(Some(options), true, 5);
    assert!(!window.is_ipc_mode());
    assert!(window.is_child());
    assert_eq!(window.id(), 5);
    assert_eq!(
        build,
        WindowBuild {
            resizable: None,
            inner_size: Some((JsonNumber::Unsigned(320), JsonNumber::Unsigned(240))),
            position: None,
            visible: None,
            decorations: None,
            always_on_top: None,
            always_on_bottom: None,
            visible_on_all_workspaces: None,
            maximized: None,
            maximizable: None,
            minimizable: None,
            focused: None,
            transparent: None,
            borderless_fullscreen: Some(false),
            title: Some("T".to_string()),
        }
    );
    let (_, default_build) = BrowserWindow::new(None, false, 6);
    assert_eq!(
        default_build,
        WindowBuild {
            resizable: Some(true),
            inner_size: Some((JsonNumber::Unsigned(800), JsonNumber::Unsigned(600))),
            position: Some((JsonNumber::Unsigned(0), JsonNumber::Unsigned(0))),
            visible: Some(true),
            decorations: Some(true),
            always_on_top: Some(false),
            always_on_bottom: Some(false),
            visible_on_all_workspaces: Some(false),
            maximized: Some(false),
            maximizable: Some(true),
            minimizable: Some(true),
            focused: Some(true),
            transparent: Some(false),
            borderless_fullscreen: None,
            title: Some("WebviewJS".to_string()),
        }
    );
    let borderless = BrowserWindowOptions {
        fullscreen: Some(FullscreenType::Borderless),
        ..empty_window_options()
    };
    assert_eq!(BrowserWindow::new(Some(borderless), false, 7).1.borderless_fullscreen, Some(true));
}

#[test]
fn a_direct_webview_is_built_from_its_options() {
    let options = WebviewOptions {
        url: Some("u".to_string()),
        x: Some(JsonNumber::Unsigned(5)),
        child: Some(true),
        theme: Some(JsTheme::System),
        ..empty_webview_options()
    };
    let (webview, build) = JsWebview::create(options);
    assert!(!webview.is_ipc_mode());
    assert_eq!(webview.window_id(), 0);
    assert_eq!(
        build,
        WebviewBuild {
            devtools: None,
            x: JsonNumber::Unsigned(5),
            y: JsonNumber::Unsigned(0),
            width: JsonNumber::Unsigned(800),
            height: JsonNumber::Unsigned(600),
            incognito: None,
            preload: None,
            transparent: None,
            autoplay: None,
            clipboard: None,
            back_forward_navigation_gestures: None,
            hotkeys_zoom: None,
            theme: Some(Theme::Auto),
            user_agent: None,
            html: None,
            url: Some("u".to_string()),
            as_child: true,
        }
    );
    let (_, plain) = JsWebview::create(WebviewOptions::default());
    assert!(!plain.as_child);
    assert_eq!(plain.devtools, Some(true));
    assert_eq!(plain.user_agent, Some("WebviewJS".to_string()));
    assert_eq!(plain.theme, None);
}

#[test]
fn a_remote_window_sends_title_and_visibility_and_skips_the_rest() {
    let window = BrowserWindow::new_ipc_proxy(7);
    assert!(window.is_ipc_mode());
    assert!(!window.is_child());
    assert_eq!(window.id(), 7);
    assert_eq!(
        window.set_title("U".to_string()),
        Plan::Send(IpcRequest::SetWindowTitle { window_id: 7, title: "U".to_string() })
    );
    let hidden = Plan::Send(IpcRequest::SetWindowVisible { window_id: 7, visible: false });
    let shown = Plan::Send(IpcRequest::SetWindowVisible { window_id: 7, visible: true });
    assert_eq!(window.set_visible(false), hidden);
    assert_eq!(window.set_visible(true), shown);
    assert_eq!(window.hide_window(), hidden);
    assert_eq!(window.close(), hidden);
    assert_eq!(window.destroy(), hidden);
    assert_eq!(window.show(), shown);
    let skipped = vec![
        window.set_closable(true),
        window.set_maximizable(true),
        window.set_minimizable(false),
        window.set_resizable(true),
        window.set_theme(JsTheme::Dark),
        window.set_window_icon(WindowIcon::Rgba(vec![0, 0, 0, 0]), 1, 1),
        window.set_window_icon(WindowIcon::Path("icon.png".to_string()), 16, 16),
        window.remove_window_icon(),
        window.set_progress_bar(JsProgressBar {
            state: Some(JsProgressBarState::Normal),
            progress: Some(50),
        }),
        window.set_maximized(true),
        window.set_minimized(true),
        window.focus(),
        window.set_content_protection(true),
        window.set_always_on_top(true),
        window.set_always_on_bottom(true),
        window.set_decorations(false),
        window.set_fullscreen(Some(FullscreenType::Borderless)),
        window.set_fullscreen(None),
    ];
    for plan in skipped {
        assert_eq!(plan, Plan::Skip);
    }
}

#[test]
fn a_remote_window_answers_questions_with_fixed_values() {
    let window = BrowserWindow::new_ipc_proxy(7);
    assert_eq!(window.is_focused(), Ask::Answer(true));
    assert_eq!(window.is_visible(), Ask::Answer(true));
    assert_eq!(window.is_decorated(), Ask::Answer(true));
    assert_eq!(window.is_closable(), Ask::Answer(true));
    assert_eq!(window.is_maximizable(), Ask::Answer(true));
    assert_eq!(window.is_minimizable(), Ask::Answer(true));
    assert_eq!(window.is_resizable(), Ask::Answer(true));
    assert_eq!(window.is_maximized(), Ask::Answer(false));
    assert_eq!(window.is_minimized(), Ask::Answer(false));
    assert_eq!(window.ask(WindowFlag::Maximized), Ask::Answer(false));
    assert_eq!(window.get_title(), Ask::Answer("WebviewJS".to_string()));
    assert_eq!(window.get_theme(), Ask::Answer(JsTheme::System));
    assert_eq!(window.get_fullscreen(), Ask::Answer(None));
    assert_eq!(window.get_available_monitors(), Ask::Answer(()));
    assert_eq!(window.get_current_monitor(), Ask::Answer(()));
    assert_eq!(window.get_primary_monitor(), Ask::Answer(()));
    assert_eq!(
        window.get_monitor_from_point(JsonNumber::Unsigned(1), JsonNumber::Unsigned(2)),
        Ask::Answer(())
    );
}

#[test]
fn a_direct_window_calls_the_toolkit() {
    let (window, _) = BrowserWindow::new(None, false, 3);
    assert_eq!(
        window.set_title("U".to_string()),
        Plan::Toolkit(WindowCommand::SetTitle("U".to_string()))
    );
    assert_eq!(window.hide_window(), Plan::Toolkit(WindowCommand::SetVisible(false)));
    assert_eq!(window.show(), Plan::Toolkit(WindowCommand::SetVisible(true)));
    assert_eq!(window.focus(), Plan::Toolkit(WindowCommand::Focus));
    assert_eq!(
        window.set_fullscreen(Some(FullscreenType::Exclusive)),
        Plan::Toolkit(WindowCommand::SetFullscreen(Some(FullscreenType::Exclusive)))
    );
    assert_eq!(window.is_maximized(), Ask::Toolkit(WindowFlag::Maximized));
    assert_eq!(window.is_focused(), Ask::Toolkit(WindowFlag::Focused));
    assert_eq!(window.get_title(), Ask::Toolkit(()));
    assert_eq!(window.get_theme(), Ask::Toolkit(()));
    assert_eq!(window.get_fullscreen(), Ask::Toolkit(()));
    assert_eq!(window.get_primary_monitor(), Ask::Toolkit(MonitorQuery::Primary));
    assert_eq!(window.get_current_monitor(), Ask::Toolkit(MonitorQuery::Current));
    assert_eq!(window.get_available_monitors(), Ask::Toolkit(MonitorQuery::Available));
}

#[test]
fn a_window_creates_its_webview_in_its_own_mode() {
    let remote = BrowserWindow::new_ipc_proxy(7);
    match remote.create_webview(None) {
        WebviewCreation::Request { webview, request } => {
            assert!(webview.is_ipc_mode());
            assert_eq!(webview.window_id(), 7);
            assert_eq!(
                request,
                IpcRequest::CreateWebview {
                    window_id: 7,
                    options: WebviewOptions::default().to_json(),
                }
            );
        }
        other => panic!("{:?}", other),
    }
    let (direct, _) = BrowserWindow::new(None, false, 9);
    let options = WebviewOptions { url: Some("u".to_string()), ..empty_webview_options() };
    match direct.create_webview(Some(options)) {
        WebviewCreation::Build { webview, build } => {
            assert!(!webview.is_ipc_mode());
            assert_eq!(build.url, Some("u".to_string()));
            assert_eq!(build.devtools, None);
        }
        other => panic!("{:?}", other),
    }
}

#[test]
fn a_remote_webview_waits_for_loads_and_scripts() {
    let webview = JsWebview::new_ipc_proxy(7);
    assert!(webview.is_ipc_mode());
    assert_eq!(
        webview.load_url("u".to_string()),
        Plan::Call(IpcRequest::LoadUrl { window_id: 7, url: "u".to_string() })
    );
    assert_eq!(
        webview.load_html("h".to_string()),
        Plan::Call(IpcRequest::LoadHtml { window_id: 7, html: "h".to_string() })
    );
    assert_eq!(
        webview.evaluate_script("s".to_string()),
        Plan::Call(IpcRequest::EvaluateScript { window_id: 7, script: "s".to_string() })
    );
    assert_eq!(
        webview.evaluate_script_with_callback("s".to_string()),
        Plan::Refuse("evaluate_script_with_callback not supported in IPC mode".to_string())
    );
    assert_eq!(webview.print(), Plan::Skip);
    assert_eq!(webview.zoom(JsonNumber::Real("1.5".to_string())), Plan::Skip);
    assert_eq!(webview.set_webview_visibility(false), Plan::Skip);
    assert_eq!(webview.reload(), Plan::Skip);
    assert_eq!(webview.open_devtools(), Plan::Skip);
    assert_eq!(webview.close_devtools(), Plan::Skip);
    assert_eq!(webview.is_devtools_open(), Ask::Answer(false));
}

#[test]
fn a_direct_webview_calls_the_engine() {
    let (webview, _) = JsWebview::create(WebviewOptions::default());
    assert_eq!(
        webview.load_url("u".to_string()),
        Plan::Toolkit(WebviewCommand::LoadUrl("u".to_string()))
    );
    assert_eq!(
        webview.evaluate_script_with_callback("s".to_string()),
        Plan::Toolkit(WebviewCommand::EvaluateScriptWithCallback("s".to_string()))
    );
    assert_eq!(webview.print(), Plan::Toolkit(WebviewCommand::Print));
    assert_eq!(webview.reload(), Plan::Toolkit(WebviewCommand::Reload));
    assert_eq!(
        webview.zoom(JsonNumber::Unsigned(2)),
        Plan::Toolkit(WebviewCommand::Zoom(JsonNumber::Unsigned(2)))
    );
    assert_eq!(webview.is_devtools_open(), Ask::Toolkit(()));
}

#[test]
fn an_error_response_becomes_a_failure() {
    assert_eq!(
        map_reply(IpcResponse::Error { request_id: 3, message: "Window 99 not found".to_string() }),
        Err("Window 99 not found".to_string())
    );
    assert_eq!(map_reply(IpcResponse::Success { request_id: 0, data: None }), Ok(None));
    assert_eq!(
        map_reply(IpcResponse::Success { request_id: 0, data: Some(number(1)) }),
        Ok(Some(number(1)))
    );
    assert_eq!(map_reply(IpcResponse::Pong), Ok(None));
    assert_eq!(
        map_reply(IpcResponse::ApplicationEvent { event_type: "E".to_string(), window_id: None }),
        Ok(None)
    );
    assert_eq!(
        map_outcome(Ok(IpcResponse::Error { request_id: 3, message: "m".to_string() })),
        Err("m".to_string())
    );
    assert_eq!(map_outcome(Ok(IpcResponse::Pong)), Ok(None));
}

#[test]
fn a_failure_of_the_connection_is_told_in_words() {
    assert_eq!(
        map_outcome(Err(IpcError::TimedOut)),
        Err("Failed to send IPC request: Timeout waiting for response".to_string())
    );
    assert_eq!(
        map_outcome(Err(IpcError::ConnectionReset)),
        Err("Failed to send IPC request: IPC channel disconnected".to_string())
    );
    assert_eq!(
        send_failure_message(IpcError::InvalidData),
        "Failed to send IPC request: Invalid message format"
    );
    assert_eq!(ipc_error_message(IpcError::TimedOut), "Timeout waiting for response");
    assert_ne!(ipc_error_message(IpcError::TimedOut), ipc_error_message(IpcError::ConnectionReset));
}

#[test]
fn modes_are_two() {
    assert_ne!(Mode::Direct, Mode::Remote);
}

#[test]
fn a_failure_names_the_operation() {
    assert_eq!(error_with_context("print", "no printer"), "Failed to print: no printer");
    assert_eq!(error_with_context("", ""), "Failed to : ");
}

#[test]
fn host_themes_have_engine_themes() {
    assert_eq!(theme_to_wry(JsTheme::Light), Theme::Light);
    assert_eq!(theme_to_wry(JsTheme::Dark), Theme::Dark);
    assert_eq!(theme_to_wry(JsTheme::System), Theme::Auto);
}

#[test]
fn a_request_has_failed_or_not() {
    assert_eq!(call_failed(Ok(IpcResponse::Pong)), None);
    assert_eq!(call_failed(Ok(IpcResponse::Success { request_id: 0, data: None })), None);
    assert_eq!(
        call_failed(Ok(IpcResponse::Error { request_id: 2, message: "Webview 3 not found".to_string() })),
        Some("Webview 3 not found".to_string())
    );
    assert_eq!(
        call_failed(Err(IpcError::TimedOut)),
        Some("Failed to send IPC request: Timeout waiting for response".to_string())
    );
}

#[test]
fn a_build_has_failed_or_not() {
    assert_eq!(build_failed("create window", Ok(())), None);
    assert_eq!(
        build_failed("create window", Err("no display".to_string())),
        Some("Failed to create window: no display".to_string())
    );
}

#[test]
fn a_webview_is_handed_out_where_its_creation_went_well() {
    let remote = JsWebview::new_ipc_proxy(7);
    assert_eq!(
        remote.replied(Ok(IpcResponse::Success { request_id: 0, data: None })),
        Ok(JsWebview::new_ipc_proxy(7))
    );
    assert_eq!(
        JsWebview::new_ipc_proxy(7)
            .replied(Ok(IpcResponse::Error { request_id: 4, message: "Window 7 not found".to_string() })),
        Err("Window 7 not found".to_string())
    );
    assert_eq!(
        JsWebview::new_ipc_proxy(7).replied(Err(IpcError::ConnectionReset)),
        Err("Failed to send IPC request: IPC channel disconnected".to_string())
    );
    let (direct, _) = JsWebview::create(WebviewOptions::default());
    let (same, _) = JsWebview::create(WebviewOptions::default());
    assert_eq!(direct.built(Ok(())), Ok(same));
    let (failing, _) = JsWebview::create(WebviewOptions::default());
    assert_eq!(
        failing.built(Err("no engine".to_string())),
        Err("Failed to create webview: no engine".to_string())
    );
}

#[test]
fn engine_failures_are_told_by_operation() {
    let cases = vec![
        (WebviewCommand::Print, "Failed to print: e"),
        (WebviewCommand::Zoom(JsonNumber::Unsigned(2)), "Failed to zoom: e"),
        (WebviewCommand::SetVisibility(true), "Failed to set webview visibility: e"),
        (WebviewCommand::LoadUrl("u".to_string()), "Failed to load URL: e"),
        (WebviewCommand::LoadHtml("h".to_string()), "Failed to load HTML: e"),
        (WebviewCommand::Reload, "Failed to reload: e"),
        (WebviewCommand::EvaluateScript("s".to_string()), "e"),
        (WebviewCommand::EvaluateScriptWithCallback("s".to_string()), "e"),
        (WebviewCommand::OpenDevtools, "e"),
        (WebviewCommand::CloseDevtools, "e"),
    ];
    for (command, expected) in cases {
        assert_eq!(webview_failure_message(&command, "e"), expected);
    }
}
