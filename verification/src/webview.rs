//! The host's webview object and the options it is created with.

use vstd::prelude::*;
use vstd::string::StringExecFns;
use crate::attributes::{optional_text, webview_attributes_of, WebviewAttributesView};
use crate::ipc::{IpcError, IpcRequest, IpcResponse, RequestView};
use crate::json::{lemma_member_at, members_model, Json, JsonNumber, JsonValue, Numeral};
use crate::proxy::{
    build_failed, build_failure, call_failed, call_failure, error_with_context, failure_text,
    outcome_view, Ask, Mode, Plan, PlanView,
};
use crate::wry::enums::Theme;

verus! {

/// The theme of a window or a webview.
#[derive(Clone, Copy, Debug, PartialEq, Eq)]
pub enum JsTheme {
    /// The light theme.
    Light,
    /// The dark theme.
    Dark,
    /// The system theme.
    System,
}

/// The options with which a webview is created.
#[derive(Debug, PartialEq)]
pub struct WebviewOptions {
    /// The URL to load.
    pub url: Option<String>,
    /// The HTML content to load.
    pub html: Option<String>,
    /// The width of the webview.
    pub width: Option<JsonNumber>,
    /// The height of the webview.
    pub height: Option<JsonNumber>,
    /// The x position of the webview.
    pub x: Option<JsonNumber>,
    /// The y position of the webview.
    pub y: Option<JsonNumber>,
    /// Whether to enable devtools. Default is `true`.
    pub enable_devtools: Option<bool>,
    /// Whether the webview is incognito. Default is `false`.
    pub incognito: Option<bool>,
    /// The default user agent.
    pub user_agent: Option<String>,
    /// Whether the webview should be built as a child.
    pub child: Option<bool>,
    /// The preload script to inject.
    pub preload: Option<String>,
    /// Whether the webview is transparent. Default is `false`.
    pub transparent: Option<bool>,
    /// The default theme.
    pub theme: Option<JsTheme>,
    /// Whether the webview is zoomable via hotkeys or gestures.
    pub hotkeys_zoom: Option<bool>,
    /// Whether clipboard access is enabled.
    pub clipboard: Option<bool>,
    /// Whether autoplay policy is enabled.
    pub autoplay: Option<bool>,
    /// Whether horizontal swipe gestures trigger backward and forward page
    /// navigation.
    pub back_forward_navigation_gestures: Option<bool>,
}

/// The mathematical content of [`WebviewOptions`].
pub struct WebviewOptionsView {
    pub url: Option<Seq<char>>,
    pub html: Option<Seq<char>>,
    pub width: Option<Numeral>,
    pub height: Option<Numeral>,
    pub x: Option<Numeral>,
    pub y: Option<Numeral>,
    pub enable_devtools: Option<bool>,
    pub incognito: Option<bool>,
    pub user_agent: Option<Seq<char>>,
    pub child: Option<bool>,
    pub preload: Option<Seq<char>>,
    pub transparent: Option<bool>,
    pub theme: Option<JsTheme>,
    pub hotkeys_zoom: Option<bool>,
    pub clipboard: Option<bool>,
    pub autoplay: Option<bool>,
    pub back_forward_navigation_gestures: Option<bool>,
}

/// The content of an optional number.
pub open spec fn optional_number(number: Option<JsonNumber>) -> Option<Numeral> {
    match number {
        Some(n) => Some(n@),
        None => None,
    }
}

impl View for WebviewOptions {
    type V = WebviewOptionsView;

    open spec fn view(&self) -> WebviewOptionsView {
        WebviewOptionsView {
            url: optional_text(self.url),
            html: optional_text(self.html),
            width: optional_number(self.width),
            height: optional_number(self.height),
            x: optional_number(self.x),
            y: optional_number(self.y),
            enable_devtools: self.enable_devtools,
            incognito: self.incognito,
            user_agent: optional_text(self.user_agent),
            child: self.child,
            preload: optional_text(self.preload),
            transparent: self.transparent,
            theme: self.theme,
            hotkeys_zoom: self.hotkeys_zoom,
            clipboard: self.clipboard,
            autoplay: self.autoplay,
            back_forward_navigation_gestures: self.back_forward_navigation_gestures,
        }
    }
}

/// The JSON form of an optional boolean: `null` for none.
pub open spec fn bool_json(value: Option<bool>) -> Json {
    match value {
        Some(b) => Json::Bool(b),
        None => Json::Null,
    }
}

/// The JSON form of an optional string: `null` for none.
pub open spec fn text_json(value: Option<Seq<char>>) -> Json {
    match value {
        Some(s) => Json::Text(s),
        None => Json::Null,
    }
}

/// The JSON form of an optional number: `null` for none.
pub open spec fn number_json(value: Option<Numeral>) -> Json {
    match value {
        Some(n) => Json::Number(n),
        None => Json::Null,
    }
}

/// The name of a theme.
pub open spec fn theme_name(theme: JsTheme) -> Seq<char> {
    match theme {
        JsTheme::Light => "Light"@,
        JsTheme::Dark => "Dark"@,
        JsTheme::System => "System"@,
    }
}

/// The JSON form of an optional theme: its name, `null` for none.
pub open spec fn theme_json(value: Option<JsTheme>) -> Json {
    match value {
        Some(theme) => Json::Text(theme_name(theme)),
        None => Json::Null,
    }
}

/// The members of the JSON form of webview options: one per option, in the
/// order of the options, `null` for an option that is not set.
pub open spec fn webview_options_members(options: WebviewOptionsView) -> Seq<(Seq<char>, Json)> {
    seq![
        ("url"@, text_json(options.url)),
        ("html"@, text_json(options.html)),
        ("width"@, number_json(options.width)),
        ("height"@, number_json(options.height)),
        ("x"@, number_json(options.x)),
        ("y"@, number_json(options.y)),
        ("enable_devtools"@, bool_json(options.enable_devtools)),
        ("incognito"@, bool_json(options.incognito)),
        ("user_agent"@, text_json(options.user_agent)),
        ("child"@, bool_json(options.child)),
        ("preload"@, text_json(options.preload)),
        ("transparent"@, bool_json(options.transparent)),
        ("theme"@, theme_json(options.theme)),
        ("hotkeys_zoom"@, bool_json(options.hotkeys_zoom)),
        ("clipboard"@, bool_json(options.clipboard)),
        ("autoplay"@, bool_json(options.autoplay)),
        (
            "back_forward_navigation_gestures"@,
            bool_json(options.back_forward_navigation_gestures),
        ),
    ]
}

/// The JSON form of webview options.
pub open spec fn webview_options_json(options: WebviewOptionsView) -> Json {
    Json::Object(webview_options_members(options))
}

/// The member `key` for an optional boolean.
pub fn bool_field(key: &str, value: Option<bool>) -> (r: (String, JsonValue))
    ensures
        r.0@ == key@,
        r.1.model() == bool_json(value),
{
    let document = match value {
        Some(b) => JsonValue::Bool(b),
        None => JsonValue::Null,
    };
    (key.to_owned(), document)
}

/// The member `key` for an optional string.
pub fn text_field(key: &str, value: &Option<String>) -> (r: (String, JsonValue))
    ensures
        r.0@ == key@,
        r.1.model() == text_json(optional_text(*value)),
{
    let document = match value {
        Some(s) => JsonValue::Text(s.clone()),
        None => JsonValue::Null,
    };
    (key.to_owned(), document)
}

/// The member `key` for an optional number.
pub fn number_field(key: &str, value: &Option<JsonNumber>) -> (r: (String, JsonValue))
    ensures
        r.0@ == key@,
        r.1.model() == number_json(optional_number(*value)),
{
    let document = match value {
        Some(n) => JsonValue::Number(n.clone()),
        None => JsonValue::Null,
    };
    (key.to_owned(), document)
}

fn theme_field(key: &str, value: Option<JsTheme>) -> (r: (String, JsonValue))
    ensures
        r.0@ == key@,
        r.1.model() == theme_json(value),
{
    let document = match value {
        Some(JsTheme::Light) => JsonValue::text("Light"),
        Some(JsTheme::Dark) => JsonValue::text("Dark"),
        Some(JsTheme::System) => JsonValue::text("System"),
        None => JsonValue::Null,
    };
    (key.to_owned(), document)
}

impl WebviewOptions {
    /// The JSON form of these options, as it travels in `CreateWebview`.
    pub fn to_json(&self) -> (document: JsonValue)
        ensures
            document.model() == webview_options_json(self@),
    {
        let mut members: Vec<(String, JsonValue)> = Vec::new();
        members.push(text_field("url", &self.url));
        members.push(text_field("html", &self.html));
        members.push(number_field("width", &self.width));
        members.push(number_field("height", &self.height));
        members.push(number_field("x", &self.x));
        members.push(number_field("y", &self.y));
        members.push(bool_field("enable_devtools", self.enable_devtools));
        members.push(bool_field("incognito", self.incognito));
        members.push(text_field("user_agent", &self.user_agent));
        members.push(bool_field("child", self.child));
        members.push(text_field("preload", &self.preload));
        members.push(bool_field("transparent", self.transparent));
        members.push(theme_field("theme", self.theme));
        members.push(bool_field("hotkeys_zoom", self.hotkeys_zoom));
        members.push(bool_field("clipboard", self.clipboard));
        members.push(bool_field("autoplay", self.autoplay));
        members.push(
            bool_field("back_forward_navigation_gestures", self.back_forward_navigation_gestures),
        );
        assert(members_model(members@) =~= webview_options_members(self@));
        JsonValue::object(members)
    }
}

/// The options of a webview that was given none.
pub open spec fn default_webview_options() -> WebviewOptionsView {
    WebviewOptionsView {
        url: None,
        html: None,
        width: None,
        height: None,
        x: None,
        y: None,
        enable_devtools: Some(true),
        incognito: Some(false),
        user_agent: Some("WebviewJS"@),
        child: Some(false),
        preload: None,
        transparent: Some(false),
        theme: None,
        hotkeys_zoom: Some(true),
        clipboard: Some(true),
        autoplay: Some(true),
        back_forward_navigation_gestures: Some(true),
    }
}

impl Default for WebviewOptions {
    /// The options of a webview that was given none: devtools, zoom hotkeys,
    /// clipboard, autoplay and navigation gestures are on, the user agent is
    /// `WebviewJS`, everything else is off or not set.
    fn default() -> (options: Self)
        ensures
            options@ == default_webview_options(),
    {
        WebviewOptions {
            url: None,
            html: None,
            width: None,
            height: None,
            x: None,
            y: None,
            enable_devtools: Some(true),
            incognito: Some(false),
            user_agent: Some(String::from_str("WebviewJS")),
            child: Some(false),
            preload: None,
            transparent: Some(false),
            theme: None,
            hotkeys_zoom: Some(true),
            clipboard: Some(true),
            autoplay: Some(true),
            back_forward_navigation_gestures: Some(true),
        }
    }
}

/// The value of an optional boolean, or `default`.
pub open spec fn flag_or(value: Option<bool>, default: bool) -> bool {
    match value {
        Some(b) => b,
        None => default,
    }
}

/// The value of an optional string, or `default`.
pub open spec fn string_or(value: Option<Seq<char>>, default: Seq<char>) -> Seq<char> {
    match value {
        Some(s) => s,
        None => default,
    }
}

/// The value of an optional number, or the integer `default`.
pub open spec fn numeral_or(value: Option<Numeral>, default: u64) -> Numeral {
    match value {
        Some(n) => n,
        None => Numeral::Unsigned(default),
    }
}

/// The theme of the engine that stands for a theme of the host.
pub open spec fn engine_theme(theme: Option<JsTheme>) -> Option<Theme> {
    match theme {
        Some(JsTheme::Light) => Some(Theme::Light),
        Some(JsTheme::Dark) => Some(Theme::Dark),
        Some(JsTheme::System) => Some(Theme::Auto),
        None => None,
    }
}

/// The attributes that webview options ask for: each option, or its default
/// where the option is not set.
pub open spec fn requested_webview_attributes(options: WebviewOptionsView) -> WebviewAttributesView {
    WebviewAttributesView {
        enable_devtools: flag_or(options.enable_devtools, true),
        incognito: flag_or(options.incognito, false),
        transparent: flag_or(options.transparent, false),
        autoplay: flag_or(options.autoplay, true),
        clipboard: flag_or(options.clipboard, true),
        back_forward_navigation_gestures: flag_or(options.back_forward_navigation_gestures, true),
        hotkeys_zoom: flag_or(options.hotkeys_zoom, true),
        user_agent: string_or(options.user_agent, "WebviewJS"@),
        preload: options.preload,
        url: options.url,
        html: options.html,
        width: numeral_or(options.width, 800),
        height: numeral_or(options.height, 600),
        x: numeral_or(options.x, 0),
        y: numeral_or(options.y, 0),
        theme: engine_theme(options.theme),
    }
}

/// Tells the names of the webview options apart.
pub proof fn lemma_webview_option_names()
    ensures
        "url"@.len() == 3,
        "html"@.len() == 4,
        "width"@.len() == 5 && "width"@[0] == 'w',
        "height"@.len() == 6,
        "x"@.len() == 1 && "x"@[0] == 'x',
        "y"@.len() == 1 && "y"@[0] == 'y',
        "enable_devtools"@.len() == 15,
        "incognito"@.len() == 9 && "incognito"@[0] == 'i',
        "user_agent"@.len() == 10,
        "child"@.len() == 5 && "child"@[0] == 'c',
        "preload"@.len() == 7,
        "transparent"@.len() == 11,
        "theme"@.len() == 5 && "theme"@[0] == 't',
        "hotkeys_zoom"@.len() == 12,
        "clipboard"@.len() == 9 && "clipboard"@[0] == 'c',
        "autoplay"@.len() == 8,
        "back_forward_navigation_gestures"@.len() == 32,
        "Light"@.len() == 5,
        "Dark"@.len() == 4,
        "System"@.len() == 6,
{
    reveal_strlit("url");
    reveal_strlit("html");
    reveal_strlit("width");
    reveal_strlit("height");
    reveal_strlit("x");
    reveal_strlit("y");
    reveal_strlit("enable_devtools");
    reveal_strlit("incognito");
    reveal_strlit("user_agent");
    reveal_strlit("child");
    reveal_strlit("preload");
    reveal_strlit("transparent");
    reveal_strlit("theme");
    reveal_strlit("hotkeys_zoom");
    reveal_strlit("clipboard");
    reveal_strlit("autoplay");
    reveal_strlit("back_forward_navigation_gestures");
    reveal_strlit("Light");
    reveal_strlit("Dark");
    reveal_strlit("System");
}

/// The worker reads what the host wrote: the attributes that the worker
/// takes from the JSON form of webview options are the attributes that the
/// options ask for.
pub proof fn lemma_webview_options_are_understood(options: WebviewOptionsView)
    ensures
        webview_attributes_of(webview_options_json(options)) == requested_webview_attributes(
            options,
        ),
{
    lemma_webview_option_names();
    let members = webview_options_members(options);
    lemma_member_at(members, "url"@, 0);
    lemma_member_at(members, "html"@, 1);
    lemma_member_at(members, "width"@, 2);
    lemma_member_at(members, "height"@, 3);
    lemma_member_at(members, "x"@, 4);
    lemma_member_at(members, "y"@, 5);
    lemma_member_at(members, "enable_devtools"@, 6);
    lemma_member_at(members, "incognito"@, 7);
    lemma_member_at(members, "user_agent"@, 8);
    lemma_member_at(members, "preload"@, 10);
    lemma_member_at(members, "transparent"@, 11);
    lemma_member_at(members, "theme"@, 12);
    lemma_member_at(members, "hotkeys_zoom"@, 13);
    lemma_member_at(members, "clipboard"@, 14);
    lemma_member_at(members, "autoplay"@, 15);
    lemma_member_at(members, "back_forward_navigation_gestures"@, 16);
}

/// What is handed to the engine to build a webview in this process: the
/// options as they are, with the bounds filled in and the theme in the
/// engine's terms. An option that is not set leaves the engine's own
/// default in place.
#[derive(Debug, PartialEq)]
pub struct WebviewBuild {
    pub devtools: Option<bool>,
    pub x: JsonNumber,
    pub y: JsonNumber,
    pub width: JsonNumber,
    pub height: JsonNumber,
    pub incognito: Option<bool>,
    pub preload: Option<String>,
    pub transparent: Option<bool>,
    pub autoplay: Option<bool>,
    pub clipboard: Option<bool>,
    pub back_forward_navigation_gestures: Option<bool>,
    pub hotkeys_zoom: Option<bool>,
    pub theme: Option<Theme>,
    pub user_agent: Option<String>,
    pub html: Option<String>,
    pub url: Option<String>,
    /// Whether the webview is built as a child of the window.
    pub as_child: bool,
}

/// The mathematical content of a [`WebviewBuild`].
pub struct WebviewBuildView {
    pub devtools: Option<bool>,
    pub x: Numeral,
    pub y: Numeral,
    pub width: Numeral,
    pub height: Numeral,
    pub incognito: Option<bool>,
    pub preload: Option<Seq<char>>,
    pub transparent: Option<bool>,
    pub autoplay: Option<bool>,
    pub clipboard: Option<bool>,
    pub back_forward_navigation_gestures: Option<bool>,
    pub hotkeys_zoom: Option<bool>,
    pub theme: Option<Theme>,
    pub user_agent: Option<Seq<char>>,
    pub html: Option<Seq<char>>,
    pub url: Option<Seq<char>>,
    pub as_child: bool,
}

impl View for WebviewBuild {
    type V = WebviewBuildView;

    open spec fn view(&self) -> WebviewBuildView {
        WebviewBuildView {
            devtools: self.devtools,
            x: self.x@,
            y: self.y@,
            width: self.width@,
            height: self.height@,
            incognito: self.incognito,
            preload: optional_text(self.preload),
            transparent: self.transparent,
            autoplay: self.autoplay,
            clipboard: self.clipboard,
            back_forward_navigation_gestures: self.back_forward_navigation_gestures,
            hotkeys_zoom: self.hotkeys_zoom,
            theme: self.theme,
            user_agent: optional_text(self.user_agent),
            html: optional_text(self.html),
            url: optional_text(self.url),
            as_child: self.as_child,
        }
    }
}

/// What webview options hand to the engine.
pub open spec fn webview_build_of(options: WebviewOptionsView) -> WebviewBuildView {
    WebviewBuildView {
        devtools: options.enable_devtools,
        x: numeral_or(options.x, 0),
        y: numeral_or(options.y, 0),
        width: numeral_or(options.width, 800),
        height: numeral_or(options.height, 600),
        incognito: options.incognito,
        preload: options.preload,
        transparent: options.transparent,
        autoplay: options.autoplay,
        clipboard: options.clipboard,
        back_forward_navigation_gestures: options.back_forward_navigation_gestures,
        hotkeys_zoom: options.hotkeys_zoom,
        theme: engine_theme(options.theme),
        user_agent: options.user_agent,
        html: options.html,
        url: options.url,
        as_child: flag_or(options.child, false),
    }
}

/// The theme of the engine that stands for a theme of the host: the
/// system theme leaves the choice to the engine.
pub fn theme_to_wry(theme: JsTheme) -> (engine: Theme)
    ensures
        Some(engine) == engine_theme(Some(theme)),
{
    match theme {
        JsTheme::Light => Theme::Light,
        JsTheme::Dark => Theme::Dark,
        JsTheme::System => Theme::Auto,
    }
}

fn number_or_default(value: Option<JsonNumber>, default: u64) -> (r: JsonNumber)
    ensures
        r@ == numeral_or(optional_number(value), default),
{
    match value {
        Some(n) => n,
        None => JsonNumber::Unsigned(default),
    }
}

/// An operation on a webview.
#[derive(Debug, PartialEq)]
pub enum WebviewCommand {
    /// Launch a print modal for the webview's contents.
    Print,
    /// Set the zoom level.
    Zoom(JsonNumber),
    /// Hide or show the webview.
    SetVisibility(bool),
    /// Open the devtools.
    OpenDevtools,
    /// Close the devtools.
    CloseDevtools,
    /// Load a URL.
    LoadUrl(String),
    /// Load an HTML text.
    LoadHtml(String),
    /// Run a script.
    EvaluateScript(String),
    /// Run a script and hand its result to a callback.
    EvaluateScriptWithCallback(String),
    /// Reload the page.
    Reload,
}

/// The mathematical content of a [`WebviewCommand`].
pub enum WebviewCommandView {
    Print,
    Zoom(Numeral),
    SetVisibility(bool),
    OpenDevtools,
    CloseDevtools,
    LoadUrl(Seq<char>),
    LoadHtml(Seq<char>),
    EvaluateScript(Seq<char>),
    EvaluateScriptWithCallback(Seq<char>),
    Reload,
}

impl View for WebviewCommand {
    type V = WebviewCommandView;

    open spec fn view(&self) -> WebviewCommandView {
        match self {
            WebviewCommand::Print => WebviewCommandView::Print,
            WebviewCommand::Zoom(factor) => WebviewCommandView::Zoom(factor@),
            WebviewCommand::SetVisibility(visible) => WebviewCommandView::SetVisibility(*visible),
            WebviewCommand::OpenDevtools => WebviewCommandView::OpenDevtools,
            WebviewCommand::CloseDevtools => WebviewCommandView::CloseDevtools,
            WebviewCommand::LoadUrl(url) => WebviewCommandView::LoadUrl(url@),
            WebviewCommand::LoadHtml(html) => WebviewCommandView::LoadHtml(html@),
            WebviewCommand::EvaluateScript(js) => WebviewCommandView::EvaluateScript(js@),
            WebviewCommand::EvaluateScriptWithCallback(js) => {
                WebviewCommandView::EvaluateScriptWithCallback(js@)
            },
            WebviewCommand::Reload => WebviewCommandView::Reload,
        }
    }
}

/// The words with which an operation on the engine in this process fails,
/// from the engine's own words: `Failed to <operation>:` in front of them
/// for printing, zooming, showing and hiding, loading and reloading, and
/// the engine's words alone for a script and for the devtools.
pub open spec fn webview_failure(command: WebviewCommandView, reason: Seq<char>) -> Seq<char> {
    match command {
        WebviewCommandView::Print => failure_text("print"@, reason),
        WebviewCommandView::Zoom(_) => failure_text("zoom"@, reason),
        WebviewCommandView::SetVisibility(_) => failure_text("set webview visibility"@, reason),
        WebviewCommandView::LoadUrl(_) => failure_text("load URL"@, reason),
        WebviewCommandView::LoadHtml(_) => failure_text("load HTML"@, reason),
        WebviewCommandView::Reload => failure_text("reload"@, reason),
        _ => reason,
    }
}

/// The words with which an operation on the engine in this process fails.
pub fn webview_failure_message(command: &WebviewCommand, reason: &str) -> (text: String)
    ensures
        text@ == webview_failure(command@, reason@),
{
    match command {
        WebviewCommand::Print => error_with_context("print", reason),
        WebviewCommand::Zoom(_) => error_with_context("zoom", reason),
        WebviewCommand::SetVisibility(_) => error_with_context("set webview visibility", reason),
        WebviewCommand::LoadUrl(_) => error_with_context("load URL", reason),
        WebviewCommand::LoadHtml(_) => error_with_context("load HTML", reason),
        WebviewCommand::Reload => error_with_context("reload", reason),
        _ => reason.to_owned(),
    }
}

/// What a webview of the window `window_id` does with an operation. In
/// direct mode every operation is a call on the engine. In remote mode
/// loading and running a script are requests whose reply is waited for, a
/// script with a callback is refused, and every other operation counts as
/// done without a message.
pub open spec fn webview_plan(mode: Mode, window_id: u32, command: WebviewCommandView) -> PlanView<
    WebviewCommandView,
> {
    match mode {
        Mode::Direct => PlanView::Toolkit(command),
        Mode::Remote => match command {
            WebviewCommandView::LoadUrl(url) => PlanView::Call(
                RequestView::LoadUrl { window_id, url },
            ),
            WebviewCommandView::LoadHtml(html) => PlanView::Call(
                RequestView::LoadHtml { window_id, html },
            ),
            WebviewCommandView::EvaluateScript(script) => PlanView::Call(
                RequestView::EvaluateScript { window_id, script },
            ),
            WebviewCommandView::EvaluateScriptWithCallback(_) => PlanView::Refuse(
                "evaluate_script_with_callback not supported in IPC mode"@,
            ),
            _ => PlanView::Skip,
        },
    }
}

/// The webview object of the host.
#[derive(Debug, PartialEq, Eq)]
pub struct JsWebview {
    window_id: u32,
    mode: Mode,
}

impl JsWebview {
    /// The handle of the window that the webview belongs to; 0 in direct
    /// mode.
    pub closed spec fn spec_window_id(&self) -> u32 {
        self.window_id
    }

    /// Where the engine of this webview lives.
    pub closed spec fn spec_mode(&self) -> Mode {
        self.mode
    }

    /// A webview in this process, and what is handed to the engine to
    /// build it.
    pub fn create(options: WebviewOptions) -> (r: (JsWebview, WebviewBuild))
        ensures
            r.0.spec_mode() == Mode::Direct,
            r.0.spec_window_id() == 0,
            r.1@ == webview_build_of(options@),
    {
        let theme = match options.theme {
            Some(theme) => Some(theme_to_wry(theme)),
            None => None,
        };
        let as_child = match options.child {
            Some(child) => child,
            None => false,
        };
        let build = WebviewBuild {
            devtools: options.enable_devtools,
            x: number_or_default(options.x, 0),
            y: number_or_default(options.y, 0),
            width: number_or_default(options.width, 800),
            height: number_or_default(options.height, 600),
            incognito: options.incognito,
            preload: options.preload,
            transparent: options.transparent,
            autoplay: options.autoplay,
            clipboard: options.clipboard,
            back_forward_navigation_gestures: options.back_forward_navigation_gestures,
            hotkeys_zoom: options.hotkeys_zoom,
            theme,
            user_agent: options.user_agent,
            html: options.html,
            url: options.url,
            as_child,
        };
        (JsWebview { window_id: 0, mode: Mode::Direct }, build)
    }

    /// A webview that stands for the webview of the window `window_id` in
    /// the worker.
    pub fn new_ipc_proxy(window_id: u32) -> (webview: JsWebview)
        ensures
            webview.spec_mode() == Mode::Remote,
            webview.spec_window_id() == window_id,
    {
        JsWebview { window_id, mode: Mode::Remote }
    }

    /// Takes the outcome of the request that creates this webview in the
    /// worker: the webview is handed out where the worker answered without
    /// an error; otherwise the creation fails, with the worker's words for
    /// an error response and with the words for the failure of the
    /// connection otherwise.
    pub fn replied(self, outcome: Result<IpcResponse, IpcError>) -> (r: Result<JsWebview, String>)
        ensures
            match call_failure(outcome_view(outcome)) {
                None => r == Ok::<JsWebview, String>(self),
                Some(reason) => r matches Err(text) && text@ == reason,
            },
    {
        match call_failed(outcome) {
            None => Ok(self),
            Some(reason) => Err(reason),
        }
    }

    /// Takes the outcome of building this webview in this process: the
    /// webview is handed out where it was built; otherwise the creation
    /// fails with `Failed to create webview:` and the engine's words.
    pub fn built(self, outcome: Result<(), String>) -> (r: Result<JsWebview, String>)
        ensures
            match build_failure("create webview"@, outcome) {
                None => r == Ok::<JsWebview, String>(self),
                Some(reason) => r matches Err(text) && text@ == reason,
            },
    {
        match build_failed("create webview", outcome) {
            None => Ok(self),
            Some(reason) => Err(reason),
        }
    }

    /// Whether this webview stands for one in the worker.
    pub fn is_ipc_mode(&self) -> (remote: bool)
        ensures
            remote == (self.spec_mode() == Mode::Remote),
    {
        match self.mode {
            Mode::Remote => true,
            Mode::Direct => false,
        }
    }

    /// The handle of the window that the webview belongs to.
    pub fn window_id(&self) -> (id: u32)
        ensures
            id == self.spec_window_id(),
    {
        self.window_id
    }

    /// What this webview does with an operation.
    pub fn plan(&self, command: WebviewCommand) -> (plan: Plan<WebviewCommand>)
        ensures
            plan@ == webview_plan(self.spec_mode(), self.spec_window_id(), command@),
    {
        match self.mode {
            Mode::Direct => Plan::Toolkit(command),
            Mode::Remote => match command {
                WebviewCommand::LoadUrl(url) => Plan::Call(
                    IpcRequest::LoadUrl { window_id: self.window_id, url },
                ),
                WebviewCommand::LoadHtml(html) => Plan::Call(
                    IpcRequest::LoadHtml { window_id: self.window_id, html },
                ),
                WebviewCommand::EvaluateScript(script) => Plan::Call(
                    IpcRequest::EvaluateScript { window_id: self.window_id, script },
                ),
                WebviewCommand::EvaluateScriptWithCallback(_) => Plan::Refuse(
                    String::from_str("evaluate_script_with_callback not supported in IPC mode"),
                ),
                _ => Plan::Skip,
            },
        }
    }

    /// Launches a print modal for the webview's contents.
    pub fn print(&self) -> (plan: Plan<WebviewCommand>)
        ensures
            plan@ == webview_plan(
                self.spec_mode(),
                self.spec_window_id(),
                WebviewCommandView::Print,
            ),
    {
        self.plan(WebviewCommand::Print)
    }

    /// Sets the zoom level.
    pub fn zoom(&self, scale_factor: JsonNumber) -> (plan: Plan<WebviewCommand>)
        ensures
            plan@ == webview_plan(
                self.spec_mode(),
                self.spec_window_id(),
                WebviewCommandView::Zoom(scale_factor@),
            ),
    {
        self.plan(WebviewCommand::Zoom(scale_factor))
    }

    /// Hides or shows the webview.
    pub fn set_webview_visibility(&self, visible: bool) -> (plan: Plan<WebviewCommand>)
        ensures
            plan@ == webview_plan(
                self.spec_mode(),
                self.spec_window_id(),
                WebviewCommandView::SetVisibility(visible),
            ),
    {
        self.plan(WebviewCommand::SetVisibility(visible))
    }

    /// Whether the devtools are open. A remote webview answers `false`
    /// without asking the worker.
    pub fn is_devtools_open(&self) -> (ask: Ask<(), bool>)
        ensures
            ask == match self.spec_mode() {
                Mode::Direct => Ask::<(), bool>::Toolkit(()),
                Mode::Remote => Ask::<(), bool>::Answer(false),
            },
    {
        match self.mode {
            Mode::Direct => Ask::Toolkit(()),
            Mode::Remote => Ask::Answer(false),
        }
    }

    /// Opens the devtools.
    pub fn open_devtools(&self) -> (plan: Plan<WebviewCommand>)
        ensures
            plan@ == webview_plan(
                self.spec_mode(),
                self.spec_window_id(),
                WebviewCommandView::OpenDevtools,
            ),
    {
        self.plan(WebviewCommand::OpenDevtools)
    }

    /// Closes the devtools.
    pub fn close_devtools(&self) -> (plan: Plan<WebviewCommand>)
        ensures
            plan@ == webview_plan(
                self.spec_mode(),
                self.spec_window_id(),
                WebviewCommandView::CloseDevtools,
            ),
    {
        self.plan(WebviewCommand::CloseDevtools)
    }

    /// Loads the given URL.
    pub fn load_url(&self, url: String) -> (plan: Plan<WebviewCommand>)
        ensures
            plan@ == webview_plan(
                self.spec_mode(),
                self.spec_window_id(),
                WebviewCommandView::LoadUrl(url@),
            ),
    {
        self.plan(WebviewCommand::LoadUrl(url))
    }

    /// Loads the given HTML content.
    pub fn load_html(&self, html: String) -> (plan: Plan<WebviewCommand>)
        ensures
            plan@ == webview_plan(
                self.spec_mode(),
                self.spec_window_id(),
                WebviewCommandView::LoadHtml(html@),
            ),
    {
        self.plan(WebviewCommand::LoadHtml(html))
    }

    /// Evaluates the given JavaScript code.
    pub fn evaluate_script(&self, js: String) -> (plan: Plan<WebviewCommand>)
        ensures
            plan@ == webview_plan(
                self.spec_mode(),
                self.spec_window_id(),
                WebviewCommandView::EvaluateScript(js@),
            ),
    {
        self.plan(WebviewCommand::EvaluateScript(js))
    }

    /// Evaluates the given JavaScript code and hands the result to a
    /// callback, which stays with the caller.
    pub fn evaluate_script_with_callback(&self, js: String) -> (plan: Plan<WebviewCommand>)
        ensures
            plan@ == webview_plan(
                self.spec_mode(),
                self.spec_window_id(),
                WebviewCommandView::EvaluateScriptWithCallback(js@),
            ),
    {
        self.plan(WebviewCommand::EvaluateScriptWithCallback(js))
    }

    /// Reloads the webview.
    pub fn reload(&self) -> (plan: Plan<WebviewCommand>)
        ensures
            plan@ == webview_plan(
                self.spec_mode(),
                self.spec_window_id(),
                WebviewCommandView::Reload,
            ),
    {
        self.plan(WebviewCommand::Reload)
    }
}

} // verus!
