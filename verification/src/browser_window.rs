//! The host's window object and the options it is created with.

use vstd::prelude::*;
use vstd::string::StringExecFns;
use crate::attributes::{optional_text, window_attributes_of, WindowAttributesView};
use crate::ipc::{IpcRequest, RequestView};
use crate::json::{lemma_member_at, members_model, Json, JsonNumber, JsonValue, Numeral};
use crate::proxy::{Ask, Mode, Plan, PlanView};
use crate::webview::{
    bool_field, bool_json, flag_or, number_field, number_json, numeral_or, optional_number,
    string_or, text_field, text_json, webview_build_of, webview_options_json,
    default_webview_options, JsTheme, JsWebview,
    WebviewBuild, WebviewOptions,
};

verus! {

/// How a window fills its screen.
#[derive(Clone, Copy, Debug, PartialEq, Eq)]
pub enum FullscreenType {
    /// Exclusive fullscreen.
    Exclusive,
    /// Borderless fullscreen.
    Borderless,
}

/// The state of a window's progress bar.
#[derive(Clone, Copy, Debug, PartialEq, Eq)]
pub enum JsProgressBarState {
    /// No progress is shown.
    Off,
    Normal,
    /// Treated as normal on Linux and macOS.
    Indeterminate,
    /// Treated as normal on Linux.
    Paused,
    /// Treated as normal on Linux.
    Error,
}

/// A window's progress bar.
#[derive(Clone, Copy, Debug, PartialEq, Eq)]
pub struct JsProgressBar {
    /// The progress state.
    pub state: Option<JsProgressBarState>,
    /// The progress value.
    pub progress: Option<u32>,
}

/// The options with which a window is created.
#[derive(Debug, PartialEq)]
pub struct BrowserWindowOptions {
    /// Whether the window is resizable. Default is `true`.
    pub resizable: Option<bool>,
    /// The window title.
    pub title: Option<String>,
    /// The width of the window.
    pub width: Option<JsonNumber>,
    /// The height of the window.
    pub height: Option<JsonNumber>,
    /// The x position of the window.
    pub x: Option<JsonNumber>,
    /// The y position of the window.
    pub y: Option<JsonNumber>,
    /// Whether the window is created with content protection.
    pub content_protection: Option<bool>,
    /// Whether the window is always on top.
    pub always_on_top: Option<bool>,
    /// Whether the window is always on bottom.
    pub always_on_bottom: Option<bool>,
    /// Whether the window is visible.
    pub visible: Option<bool>,
    /// Whether the window decorations are enabled.
    pub decorations: Option<bool>,
    /// Whether the window is visible on all workspaces.
    pub visible_on_all_workspaces: Option<bool>,
    /// Whether the window is maximized.
    pub maximized: Option<bool>,
    /// Whether the window is maximizable.
    pub maximizable: Option<bool>,
    /// Whether the window is minimizable.
    pub minimizable: Option<bool>,
    /// Whether the window is focused.
    pub focused: Option<bool>,
    /// Whether the window is transparent.
    pub transparent: Option<bool>,
    /// The fullscreen state of the window.
    pub fullscreen: Option<FullscreenType>,
}

/// The mathematical content of [`BrowserWindowOptions`].
pub struct BrowserWindowOptionsView {
    pub resizable: Option<bool>,
    pub title: Option<Seq<char>>,
    pub width: Option<Numeral>,
    pub height: Option<Numeral>,
    pub x: Option<Numeral>,
    pub y: Option<Numeral>,
    pub content_protection: Option<bool>,
    pub always_on_top: Option<bool>,
    pub always_on_bottom: Option<bool>,
    pub visible: Option<bool>,
    pub decorations: Option<bool>,
    pub visible_on_all_workspaces: Option<bool>,
    pub maximized: Option<bool>,
    pub maximizable: Option<bool>,
    pub minimizable: Option<bool>,
    pub focused: Option<bool>,
    pub transparent: Option<bool>,
    pub fullscreen: Option<FullscreenType>,
}

impl View for BrowserWindowOptions {
    type V = BrowserWindowOptionsView;

    open spec fn view(&self) -> BrowserWindowOptionsView {
        BrowserWindowOptionsView {
            resizable: self.resizable,
            title: optional_text(self.title),
            width: optional_number(self.width),
            height: optional_number(self.height),
            x: optional_number(self.x),
            y: optional_number(self.y),
            content_protection: self.content_protection,
            always_on_top: self.always_on_top,
            always_on_bottom: self.always_on_bottom,
            visible: self.visible,
            decorations: self.decorations,
            visible_on_all_workspaces: self.visible_on_all_workspaces,
            maximized: self.maximized,
            maximizable: self.maximizable,
            minimizable: self.minimizable,
            focused: self.focused,
            transparent: self.transparent,
            fullscreen: self.fullscreen,
        }
    }
}

/// The JSON form of an optional fullscreen state: its name, `null` for
/// none.
pub open spec fn fullscreen_json(value: Option<FullscreenType>) -> Json {
    match value {
        Some(FullscreenType::Exclusive) => Json::Text("Exclusive"@),
        Some(FullscreenType::Borderless) => Json::Text("Borderless"@),
        None => Json::Null,
    }
}

/// The members of the JSON form of window options: one per option, in the
/// order of the options, `null` for an option that is not set.
pub open spec fn window_options_members(options: BrowserWindowOptionsView) -> Seq<
    (Seq<char>, Json),
> {
    seq![
        ("resizable"@, bool_json(options.resizable)),
        ("title"@, text_json(options.title)),
        ("width"@, number_json(options.width)),
        ("height"@, number_json(options.height)),
        ("x"@, number_json(options.x)),
        ("y"@, number_json(options.y)),
        ("content_protection"@, bool_json(options.content_protection)),
        ("always_on_top"@, bool_json(options.always_on_top)),
        ("always_on_bottom"@, bool_json(options.always_on_bottom)),
        ("visible"@, bool_json(options.visible)),
        ("decorations"@, bool_json(options.decorations)),
        ("visible_on_all_workspaces"@, bool_json(options.visible_on_all_workspaces)),
        ("maximized"@, bool_json(options.maximized)),
        ("maximizable"@, bool_json(options.maximizable)),
        ("minimizable"@, bool_json(options.minimizable)),
        ("focused"@, bool_json(options.focused)),
        ("transparent"@, bool_json(options.transparent)),
        ("fullscreen"@, fullscreen_json(options.fullscreen)),
    ]
}

/// The JSON form of window options.
pub open spec fn window_options_json(options: BrowserWindowOptionsView) -> Json {
    Json::Object(window_options_members(options))
}

fn fullscreen_field(key: &str, value: Option<FullscreenType>) -> (r: (String, JsonValue))
    ensures
        r.0@ == key@,
        r.1.model() == fullscreen_json(value),
{
    let document = match value {
        Some(FullscreenType::Exclusive) => JsonValue::text("Exclusive"),
        Some(FullscreenType::Borderless) => JsonValue::text("Borderless"),
        None => JsonValue::Null,
    };
    (key.to_owned(), document)
}

impl BrowserWindowOptions {
    /// The JSON form of these options, as it travels in
    /// `CreateBrowserWindow`.
    pub fn to_json(&self) -> (document: JsonValue)
        ensures
            document.model() == window_options_json(self@),
    {
        let mut members: Vec<(String, JsonValue)> = Vec::new();
        members.push(bool_field("resizable", self.resizable));
        members.push(text_field("title", &self.title));
        members.push(number_field("width", &self.width));
        members.push(number_field("height", &self.height));
        members.push(number_field("x", &self.x));
        members.push(number_field("y", &self.y));
        members.push(bool_field("content_protection", self.content_protection));
        members.push(bool_field("always_on_top", self.always_on_top));
        members.push(bool_field("always_on_bottom", self.always_on_bottom));
        members.push(bool_field("visible", self.visible));
        members.push(bool_field("decorations", self.decorations));
        members.push(bool_field("visible_on_all_workspaces", self.visible_on_all_workspaces));
        members.push(bool_field("maximized", self.maximized));
        members.push(bool_field("maximizable", self.maximizable));
        members.push(bool_field("minimizable", self.minimizable));
        members.push(bool_field("focused", self.focused));
        members.push(bool_field("transparent", self.transparent));
        members.push(fullscreen_field("fullscreen", self.fullscreen));
        assert(members_model(members@) =~= window_options_members(self@));
        JsonValue::object(members)
    }
}

/// The options of a window that was given none.
pub open spec fn default_window_options() -> BrowserWindowOptionsView {
    BrowserWindowOptionsView {
        resizable: Some(true),
        title: Some("WebviewJS"@),
        width: Some(Numeral::Unsigned(800)),
        height: Some(Numeral::Unsigned(600)),
        x: Some(Numeral::Unsigned(0)),
        y: Some(Numeral::Unsigned(0)),
        content_protection: Some(false),
        always_on_top: Some(false),
        always_on_bottom: Some(false),
        visible: Some(true),
        decorations: Some(true),
        visible_on_all_workspaces: Some(false),
        maximized: Some(false),
        maximizable: Some(true),
        minimizable: Some(true),
        focused: Some(true),
        transparent: Some(false),
        fullscreen: None,
    }
}

impl Default for BrowserWindowOptions {
    /// The options of a window that was given none: a visible, decorated,
    /// resizable window of 800 by 600 at the origin, titled `WebviewJS`.
    fn default() -> (options: Self)
        ensures
            options@ == default_window_options(),
    {
        BrowserWindowOptions {
            resizable: Some(true),
            title: Some(String::from_str("WebviewJS")),
            width: Some(JsonNumber::Unsigned(800)),
            height: Some(JsonNumber::Unsigned(600)),
            x: Some(JsonNumber::Unsigned(0)),
            y: Some(JsonNumber::Unsigned(0)),
            content_protection: Some(false),
            always_on_top: Some(false),
            always_on_bottom: Some(false),
            visible: Some(true),
            decorations: Some(true),
            visible_on_all_workspaces: Some(false),
            maximized: Some(false),
            maximizable: Some(true),
            minimizable: Some(true),
            focused: Some(true),
            transparent: Some(false),
            fullscreen: None,
        }
    }
}

/// The attributes that window options ask for: each option, or its default
/// where the option is not set.
pub open spec fn requested_window_attributes(options: BrowserWindowOptionsView) -> WindowAttributesView {
    WindowAttributesView {
        resizable: flag_or(options.resizable, true),
        title: string_or(options.title, "WebviewJS"@),
        width: numeral_or(options.width, 800),
        height: numeral_or(options.height, 600),
        x: numeral_or(options.x, 0),
        y: numeral_or(options.y, 0),
        visible: flag_or(options.visible, true),
        decorations: flag_or(options.decorations, true),
        transparent: flag_or(options.transparent, false),
        always_on_top: flag_or(options.always_on_top, false),
        always_on_bottom: flag_or(options.always_on_bottom, false),
        maximized: flag_or(options.maximized, false),
        maximizable: flag_or(options.maximizable, true),
        minimizable: flag_or(options.minimizable, true),
        focused: flag_or(options.focused, true),
        borderless_fullscreen: options.fullscreen == Some(FullscreenType::Borderless),
    }
}

/// Tells the names of the window options apart.
pub proof fn lemma_window_option_names()
    ensures
        "resizable"@.len() == 9 && "resizable"@[0] == 'r',
        "title"@.len() == 5 && "title"@[0] == 't',
        "width"@.len() == 5 && "width"@[0] == 'w',
        "height"@.len() == 6,
        "x"@.len() == 1 && "x"@[0] == 'x',
        "y"@.len() == 1 && "y"@[0] == 'y',
        "content_protection"@.len() == 18,
        "always_on_top"@.len() == 13,
        "always_on_bottom"@.len() == 16,
        "visible"@.len() == 7 && "visible"@[0] == 'v',
        "decorations"@.len() == 11 && "decorations"@[0] == 'd',
        "visible_on_all_workspaces"@.len() == 25,
        "maximized"@.len() == 9 && "maximized"@[0] == 'm',
        "maximizable"@.len() == 11 && "maximizable"@[0] == 'm' && "maximizable"@[1] == 'a',
        "minimizable"@.len() == 11 && "minimizable"@[0] == 'm' && "minimizable"@[1] == 'i',
        "focused"@.len() == 7 && "focused"@[0] == 'f',
        "transparent"@.len() == 11 && "transparent"@[0] == 't',
        "fullscreen"@.len() == 10,
        "Exclusive"@.len() == 9,
        "Borderless"@.len() == 10,
{
    reveal_strlit("resizable");
    reveal_strlit("title");
    reveal_strlit("width");
    reveal_strlit("height");
    reveal_strlit("x");
    reveal_strlit("y");
    reveal_strlit("content_protection");
    reveal_strlit("always_on_top");
    reveal_strlit("always_on_bottom");
    reveal_strlit("visible");
    reveal_strlit("decorations");
    reveal_strlit("visible_on_all_workspaces");
    reveal_strlit("maximized");
    reveal_strlit("maximizable");
    reveal_strlit("minimizable");
    reveal_strlit("focused");
    reveal_strlit("transparent");
    reveal_strlit("fullscreen");
    reveal_strlit("Exclusive");
    reveal_strlit("Borderless");
}

/// The worker reads what the host wrote: the attributes that the worker
/// takes from the JSON form of window options are the attributes that the
/// options ask for.
pub proof fn lemma_window_options_are_understood(options: BrowserWindowOptionsView)
    ensures
        window_attributes_of(window_options_json(options)) == requested_window_attributes(options),
{
    lemma_window_option_names();
    let members = window_options_members(options);
    lemma_member_at(members, "resizable"@, 0);
    lemma_member_at(members, "title"@, 1);
    lemma_member_at(members, "width"@, 2);
    lemma_member_at(members, "height"@, 3);
    lemma_member_at(members, "x"@, 4);
    lemma_member_at(members, "y"@, 5);
    lemma_member_at(members, "always_on_top"@, 7);
    lemma_member_at(members, "always_on_bottom"@, 8);
    lemma_member_at(members, "visible"@, 9);
    lemma_member_at(members, "decorations"@, 10);
    lemma_member_at(members, "maximized"@, 12);
    lemma_member_at(members, "maximizable"@, 13);
    lemma_member_at(members, "minimizable"@, 14);
    lemma_member_at(members, "focused"@, 15);
    lemma_member_at(members, "transparent"@, 16);
    lemma_member_at(members, "fullscreen"@, 17);
}

/// What is handed to the toolkit to build a window in this process. An
/// option that is not set leaves the toolkit's own default in place.
#[derive(Debug, PartialEq)]
pub struct WindowBuild {
    pub resizable: Option<bool>,
    /// Width and height.
    pub inner_size: Option<(JsonNumber, JsonNumber)>,
    /// The x and y position.
    pub position: Option<(JsonNumber, JsonNumber)>,
    pub visible: Option<bool>,
    pub decorations: Option<bool>,
    pub always_on_top: Option<bool>,
    pub always_on_bottom: Option<bool>,
    pub visible_on_all_workspaces: Option<bool>,
    pub maximized: Option<bool>,
    pub maximizable: Option<bool>,
    pub minimizable: Option<bool>,
    pub focused: Option<bool>,
    pub transparent: Option<bool>,
    /// Whether the window fills its screen without a border; not set where
    /// the options say nothing of fullscreen.
    pub borderless_fullscreen: Option<bool>,
    pub title: Option<String>,
}

/// The mathematical content of a [`WindowBuild`].
pub struct WindowBuildView {
    pub resizable: Option<bool>,
    pub inner_size: Option<(Numeral, Numeral)>,
    pub position: Option<(Numeral, Numeral)>,
    pub visible: Option<bool>,
    pub decorations: Option<bool>,
    pub always_on_top: Option<bool>,
    pub always_on_bottom: Option<bool>,
    pub visible_on_all_workspaces: Option<bool>,
    pub maximized: Option<bool>,
    pub maximizable: Option<bool>,
    pub minimizable: Option<bool>,
    pub focused: Option<bool>,
    pub transparent: Option<bool>,
    pub borderless_fullscreen: Option<bool>,
    pub title: Option<Seq<char>>,
}

/// The content of an optional pair of numbers.
pub open spec fn optional_pair(pair: Option<(JsonNumber, JsonNumber)>) -> Option<
    (Numeral, Numeral),
> {
    match pair {
        Some(p) => Some((p.0@, p.1@)),
        None => None,
    }
}

impl View for WindowBuild {
    type V = WindowBuildView;

    open spec fn view(&self) -> WindowBuildView {
        WindowBuildView {
            resizable: self.resizable,
            inner_size: optional_pair(self.inner_size),
            position: optional_pair(self.position),
            visible: self.visible,
            decorations: self.decorations,
            always_on_top: self.always_on_top,
            always_on_bottom: self.always_on_bottom,
            visible_on_all_workspaces: self.visible_on_all_workspaces,
            maximized: self.maximized,
            maximizable: self.maximizable,
            minimizable: self.minimizable,
            focused: self.focused,
            transparent: self.transparent,
            borderless_fullscreen: self.borderless_fullscreen,
            title: optional_text(self.title),
        }
    }
}

/// Whether window options can be handed to the toolkit: a width comes with
/// a height and an x position with a y position.
pub open spec fn window_options_complete(options: BrowserWindowOptionsView) -> bool {
    &&& options.width.is_some() ==> options.height.is_some()
    &&& options.x.is_some() ==> options.y.is_some()
}

/// What window options hand to the toolkit.
pub open spec fn window_build_of(options: BrowserWindowOptionsView) -> WindowBuildView {
    WindowBuildView {
        resizable: options.resizable,
        inner_size: match options.width {
            Some(width) => Some((width, options.height.unwrap())),
            None => None,
        },
        position: match options.x {
            Some(x) => Some((x, options.y.unwrap())),
            None => None,
        },
        visible: options.visible,
        decorations: options.decorations,
        always_on_top: options.always_on_top,
        always_on_bottom: options.always_on_bottom,
        visible_on_all_workspaces: options.visible_on_all_workspaces,
        maximized: options.maximized,
        maximizable: options.maximizable,
        minimizable: options.minimizable,
        focused: options.focused,
        transparent: options.transparent,
        borderless_fullscreen: match options.fullscreen {
            Some(FullscreenType::Borderless) => Some(true),
            Some(FullscreenType::Exclusive) => Some(false),
            None => None,
        },
        title: options.title,
    }
}

/// The picture of a window's icon.
#[derive(Debug, PartialEq, Eq)]
pub enum WindowIcon {
    /// RGBA pixels.
    Rgba(Vec<u8>),
    /// The path of an image file.
    Path(String),
}

/// An operation on a window.
#[derive(Debug, PartialEq)]
pub enum WindowCommand {
    SetTitle(String),
    SetVisible(bool),
    SetClosable(bool),
    SetMaximizable(bool),
    SetMinimizable(bool),
    SetResizable(bool),
    SetTheme(JsTheme),
    SetWindowIcon { icon: WindowIcon, width: u32, height: u32 },
    RemoveWindowIcon,
    SetProgressBar(JsProgressBar),
    SetMaximized(bool),
    SetMinimized(bool),
    Focus,
    SetContentProtection(bool),
    SetAlwaysOnTop(bool),
    SetAlwaysOnBottom(bool),
    SetDecorations(bool),
    SetFullscreen(Option<FullscreenType>),
}

/// The mathematical content of a [`WindowIcon`].
pub enum WindowIconView {
    Rgba(Seq<u8>),
    Path(Seq<char>),
}

/// The mathematical content of a [`WindowCommand`].
pub enum WindowCommandView {
    SetTitle(Seq<char>),
    SetVisible(bool),
    SetClosable(bool),
    SetMaximizable(bool),
    SetMinimizable(bool),
    SetResizable(bool),
    SetTheme(JsTheme),
    SetWindowIcon { icon: WindowIconView, width: u32, height: u32 },
    RemoveWindowIcon,
    SetProgressBar(JsProgressBar),
    SetMaximized(bool),
    SetMinimized(bool),
    Focus,
    SetContentProtection(bool),
    SetAlwaysOnTop(bool),
    SetAlwaysOnBottom(bool),
    SetDecorations(bool),
    SetFullscreen(Option<FullscreenType>),
}

impl View for WindowIcon {
    type V = WindowIconView;

    open spec fn view(&self) -> WindowIconView {
        match self {
            WindowIcon::Rgba(pixels) => WindowIconView::Rgba(pixels@),
            WindowIcon::Path(path) => WindowIconView::Path(path@),
        }
    }
}

impl View for WindowCommand {
    type V = WindowCommandView;

    open spec fn view(&self) -> WindowCommandView {
        match self {
            WindowCommand::SetTitle(title) => WindowCommandView::SetTitle(title@),
            WindowCommand::SetVisible(b) => WindowCommandView::SetVisible(*b),
            WindowCommand::SetClosable(b) => WindowCommandView::SetClosable(*b),
            WindowCommand::SetMaximizable(b) => WindowCommandView::SetMaximizable(*b),
            WindowCommand::SetMinimizable(b) => WindowCommandView::SetMinimizable(*b),
            WindowCommand::SetResizable(b) => WindowCommandView::SetResizable(*b),
            WindowCommand::SetTheme(theme) => WindowCommandView::SetTheme(*theme),
            WindowCommand::SetWindowIcon { icon, width, height } => {
                WindowCommandView::SetWindowIcon { icon: icon@, width: *width, height: *height }
            },
            WindowCommand::RemoveWindowIcon => WindowCommandView::RemoveWindowIcon,
            WindowCommand::SetProgressBar(bar) => WindowCommandView::SetProgressBar(*bar),
            WindowCommand::SetMaximized(b) => WindowCommandView::SetMaximized(*b),
            WindowCommand::SetMinimized(b) => WindowCommandView::SetMinimized(*b),
            WindowCommand::Focus => WindowCommandView::Focus,
            WindowCommand::SetContentProtection(b) => WindowCommandView::SetContentProtection(*b),
            WindowCommand::SetAlwaysOnTop(b) => WindowCommandView::SetAlwaysOnTop(*b),
            WindowCommand::SetAlwaysOnBottom(b) => WindowCommandView::SetAlwaysOnBottom(*b),
            WindowCommand::SetDecorations(b) => WindowCommandView::SetDecorations(*b),
            WindowCommand::SetFullscreen(kind) => WindowCommandView::SetFullscreen(*kind),
        }
    }
}

/// A question about the state of a window that is answered yes or no.
#[derive(Clone, Copy, Debug, PartialEq, Eq)]
pub enum WindowFlag {
    Focused,
    Visible,
    Decorated,
    Closable,
    Maximizable,
    Minimizable,
    Maximized,
    Minimized,
    Resizable,
}

/// What the window `window_id` does with an operation. In direct mode
/// every operation is a call on the toolkit. In remote mode the title and
/// the visibility are requests that are sent without waiting for a reply,
/// and every other operation counts as done without a message.
pub open spec fn window_plan(mode: Mode, window_id: u32, command: WindowCommandView) -> PlanView<
    WindowCommandView,
> {
    match mode {
        Mode::Direct => PlanView::Toolkit(command),
        Mode::Remote => match command {
            WindowCommandView::SetTitle(title) => PlanView::Send(
                RequestView::SetWindowTitle { window_id, title },
            ),
            WindowCommandView::SetVisible(visible) => PlanView::Send(
                RequestView::SetWindowVisible { window_id, visible },
            ),
            _ => PlanView::Skip,
        },
    }
}

/// The answer that a remote window gives to a yes-or-no question without
/// asking the worker: it counts as focused, visible, decorated, closable,
/// maximizable, minimizable and resizable, and as neither maximized nor
/// minimized.
pub open spec fn remote_flag(flag: WindowFlag) -> bool {
    match flag {
        WindowFlag::Maximized => false,
        WindowFlag::Minimized => false,
        _ => true,
    }
}

/// What a window does with a yes-or-no question.
pub open spec fn flag_ask(mode: Mode, flag: WindowFlag) -> Ask<WindowFlag, bool> {
    match mode {
        Mode::Direct => Ask::Toolkit(flag),
        Mode::Remote => Ask::Answer(remote_flag(flag)),
    }
}

/// How a window gets its webview.
#[derive(Debug, PartialEq)]
pub enum WebviewCreation {
    /// Build it in this process, from this.
    Build { webview: JsWebview, build: WebviewBuild },
    /// Send this request and wait for the reply; the webview object stands
    /// for the one in the worker.
    Request { webview: JsWebview, request: IpcRequest },
}

/// The window object of the host.
#[derive(Debug, PartialEq, Eq)]
pub struct BrowserWindow {
    is_child_window: bool,
    id: u32,
    mode: Mode,
}

impl BrowserWindow {
    /// The handle of the window.
    pub closed spec fn spec_id(&self) -> u32 {
        self.id
    }

    /// Where the toolkit of this window lives.
    pub closed spec fn spec_mode(&self) -> Mode {
        self.mode
    }

    /// Whether the window is a child window.
    pub closed spec fn spec_is_child(&self) -> bool {
        self.is_child_window
    }

    /// A window in this process, and what is handed to the toolkit to build
    /// it. Without options the window gets the default options.
    pub fn new(options: Option<BrowserWindowOptions>, child: bool, window_id: u32) -> (r: (
        BrowserWindow,
        WindowBuild,
    ))
        requires
            options matches Some(given) ==> window_options_complete(given@),
        ensures
            r.0.spec_mode() == Mode::Direct,
            r.0.spec_id() == window_id,
            r.0.spec_is_child() == child,
            r.1@ == window_build_of(
                match options {
                    Some(given) => given@,
                    None => default_window_options(),
                },
            ),
    {
        let options = match options {
            Some(given) => given,
            None => BrowserWindowOptions::default(),
        };
        let inner_size = match options.width {
            Some(width) => match options.height {
                Some(height) => Some((width, height)),
                None => None,
            },
            None => None,
        };
        let position = match options.x {
            Some(x) => match options.y {
                Some(y) => Some((x, y)),
                None => None,
            },
            None => None,
        };
        let borderless_fullscreen = match options.fullscreen {
            Some(FullscreenType::Borderless) => Some(true),
            Some(FullscreenType::Exclusive) => Some(false),
            None => None,
        };
        let build = WindowBuild {
            resizable: options.resizable,
            inner_size,
            position,
            visible: options.visible,
            decorations: options.decorations,
            always_on_top: options.always_on_top,
            always_on_bottom: options.always_on_bottom,
            visible_on_all_workspaces: options.visible_on_all_workspaces,
            maximized: options.maximized,
            maximizable: options.maximizable,
            minimizable: options.minimizable,
            focused: options.focused,
            transparent: options.transparent,
            borderless_fullscreen,
            title: options.title,
        };
        (BrowserWindow { is_child_window: child, id: window_id, mode: Mode::Direct }, build)
    }

    /// A window that stands for the window `window_id` in the worker.
    pub fn new_ipc_proxy(window_id: u32) -> (window: BrowserWindow)
        ensures
            window.spec_mode() == Mode::Remote,
            window.spec_id() == window_id,
            !window.spec_is_child(),
    {
        BrowserWindow { is_child_window: false, id: window_id, mode: Mode::Remote }
    }

    /// Whether this window stands for one in the worker.
    pub fn is_ipc_mode(&self) -> (remote: bool)
        ensures
            remote == (self.spec_mode() == Mode::Remote),
    {
        match self.mode {
            Mode::Remote => true,
            Mode::Direct => false,
        }
    }

    /// Whether the window is a child window.
    pub fn is_child(&self) -> (child: bool)
        ensures
            child == self.spec_is_child(),
    {
        self.is_child_window
    }

    /// The handle of the window.
    pub fn id(&self) -> (id: u32)
        ensures
            id == self.spec_id(),
    {
        self.id
    }

    /// Creates a webview on this window. Without options the webview gets
    /// the default options.
    pub fn create_webview(&self, options: Option<WebviewOptions>) -> (creation: WebviewCreation)
        ensures
            match creation {
                WebviewCreation::Build { webview, build } => {
                    &&& self.spec_mode() == Mode::Direct
                    &&& webview.spec_mode() == Mode::Direct
                    &&& webview.spec_window_id() == 0
                    &&& build@ == webview_build_of(
                        match options {
                            Some(given) => given@,
                            None => default_webview_options(),
                        },
                    )
                },
                WebviewCreation::Request { webview, request } => {
                    &&& self.spec_mode() == Mode::Remote
                    &&& webview.spec_mode() == Mode::Remote
                    &&& webview.spec_window_id() == self.spec_id()
                    &&& request@ == (RequestView::CreateWebview {
                        window_id: self.spec_id(),
                        options: webview_options_json(
                            match options {
                                Some(given) => given@,
                                None => default_webview_options(),
                            },
                        ),
                    })
                },
            },
    {
        let options = match options {
            Some(given) => given,
            None => WebviewOptions::default(),
        };
        match self.mode {
            Mode::Direct => {
                let (webview, build) = JsWebview::create(options);
                WebviewCreation::Build { webview, build }
            },
            Mode::Remote => WebviewCreation::Request {
                webview: JsWebview::new_ipc_proxy(self.id),
                request: IpcRequest::CreateWebview {
                    window_id: self.id,
                    options: options.to_json(),
                },
            },
        }
    }

    /// What this window does with an operation.
    pub fn plan(&self, command: WindowCommand) -> (plan: Plan<WindowCommand>)
        ensures
            plan@ == window_plan(self.spec_mode(), self.spec_id(), command@),
    {
        match self.mode {
            Mode::Direct => Plan::Toolkit(command),
            Mode::Remote => match command {
                WindowCommand::SetTitle(title) => Plan::Send(
                    IpcRequest::SetWindowTitle { window_id: self.id, title },
                ),
                WindowCommand::SetVisible(visible) => Plan::Send(
                    IpcRequest::SetWindowVisible { window_id: self.id, visible },
                ),
                _ => Plan::Skip,
            },
        }
    }

    /// What this window does with a yes-or-no question.
    pub fn ask(&self, flag: WindowFlag) -> (ask: Ask<WindowFlag, bool>)
        ensures
            ask == flag_ask(self.spec_mode(), flag),
    {
        match self.mode {
            Mode::Direct => Ask::Toolkit(flag),
            Mode::Remote => match flag {
                WindowFlag::Maximized => Ask::Answer(false),
                WindowFlag::Minimized => Ask::Answer(false),
                _ => Ask::Answer(true),
            },
        }
    }
}

/// A question about the monitors of a window.
#[derive(Debug, PartialEq)]
pub enum MonitorQuery {
    /// All monitors.
    Available,
    /// The monitor that the window is on.
    Current,
    /// The primary monitor.
    Primary,
    /// The monitor at a point.
    FromPoint { x: JsonNumber, y: JsonNumber },
}

/// The mathematical content of a [`MonitorQuery`].
pub enum MonitorQueryView {
    Available,
    Current,
    Primary,
    FromPoint { x: Numeral, y: Numeral },
}

impl View for MonitorQuery {
    type V = MonitorQueryView;

    open spec fn view(&self) -> MonitorQueryView {
        match self {
            MonitorQuery::Available => MonitorQueryView::Available,
            MonitorQuery::Current => MonitorQueryView::Current,
            MonitorQuery::Primary => MonitorQueryView::Primary,
            MonitorQuery::FromPoint { x, y } => MonitorQueryView::FromPoint { x: x@, y: y@ },
        }
    }
}

impl BrowserWindow {
    /// What this window does with a question about monitors. A remote
    /// window knows of no monitor: the answer is the empty one.
    pub fn monitors(&self, query: MonitorQuery) -> (ask: Ask<MonitorQuery, ()>)
        ensures
            match ask {
                Ask::Toolkit(q) => self.spec_mode() == Mode::Direct && q@ == query@,
                Ask::Answer(_) => self.spec_mode() == Mode::Remote,
            },
    {
        match self.mode {
            Mode::Direct => Ask::Toolkit(query),
            Mode::Remote => Ask::Answer(()),
        }
    }

    /// The monitors that are available.
    pub fn get_available_monitors(&self) -> (ask: Ask<MonitorQuery, ()>)
        ensures
            match ask {
                Ask::Toolkit(q) => self.spec_mode() == Mode::Direct && q@
                    == MonitorQueryView::Available,
                Ask::Answer(_) => self.spec_mode() == Mode::Remote,
            },
    {
        self.monitors(MonitorQuery::Available)
    }

    /// The monitor that the window is on.
    pub fn get_current_monitor(&self) -> (ask: Ask<MonitorQuery, ()>)
        ensures
            match ask {
                Ask::Toolkit(q) => self.spec_mode() == Mode::Direct && q@
                    == MonitorQueryView::Current,
                Ask::Answer(_) => self.spec_mode() == Mode::Remote,
            },
    {
        self.monitors(MonitorQuery::Current)
    }

    /// The primary monitor.
    pub fn get_primary_monitor(&self) -> (ask: Ask<MonitorQuery, ()>)
        ensures
            match ask {
                Ask::Toolkit(q) => self.spec_mode() == Mode::Direct && q@
                    == MonitorQueryView::Primary,
                Ask::Answer(_) => self.spec_mode() == Mode::Remote,
            },
    {
        self.monitors(MonitorQuery::Primary)
    }

    /// The monitor at the given point.
    pub fn get_monitor_from_point(&self, x: JsonNumber, y: JsonNumber) -> (ask: Ask<
        MonitorQuery,
        (),
    >)
        ensures
            match ask {
                Ask::Toolkit(q) => self.spec_mode() == Mode::Direct && q@
                    == (MonitorQueryView::FromPoint { x: x@, y: y@ }),
                Ask::Answer(_) => self.spec_mode() == Mode::Remote,
            },
    {
        self.monitors(MonitorQuery::FromPoint { x, y })
    }

    /// The title of the window. A remote window answers `WebviewJS`
    /// without asking the worker.
    pub fn get_title(&self) -> (ask: Ask<(), String>)
        ensures
            match ask {
                Ask::Toolkit(_) => self.spec_mode() == Mode::Direct,
                Ask::Answer(title) => self.spec_mode() == Mode::Remote && title@ == "WebviewJS"@,
            },
    {
        match self.mode {
            Mode::Direct => Ask::Toolkit(()),
            Mode::Remote => Ask::Answer(String::from_str("WebviewJS")),
        }
    }

    /// The theme of the window. A remote window answers with the system
    /// theme without asking the worker.
    pub fn get_theme(&self) -> (ask: Ask<(), JsTheme>)
        ensures
            ask == match self.spec_mode() {
                Mode::Direct => Ask::<(), JsTheme>::Toolkit(()),
                Mode::Remote => Ask::<(), JsTheme>::Answer(JsTheme::System),
            },
    {
        match self.mode {
            Mode::Direct => Ask::Toolkit(()),
            Mode::Remote => Ask::Answer(JsTheme::System),
        }
    }

    /// The fullscreen state of the window. A remote window answers that it
    /// is not fullscreen without asking the worker.
    pub fn get_fullscreen(&self) -> (ask: Ask<(), Option<FullscreenType>>)
        ensures
            ask == match self.spec_mode() {
                Mode::Direct => Ask::<(), Option<FullscreenType>>::Toolkit(()),
                Mode::Remote => Ask::<(), Option<FullscreenType>>::Answer(None),
            },
    {
        match self.mode {
            Mode::Direct => Ask::Toolkit(()),
            Mode::Remote => Ask::Answer(None),
        }
    }

    /// Whether the window is focused.
    pub fn is_focused(&self) -> (ask: Ask<WindowFlag, bool>)
        ensures
            ask == flag_ask(self.spec_mode(), WindowFlag::Focused),
    {
        self.ask(WindowFlag::Focused)
    }

    /// Whether the window is visible.
    pub fn is_visible(&self) -> (ask: Ask<WindowFlag, bool>)
        ensures
            ask == flag_ask(self.spec_mode(), WindowFlag::Visible),
    {
        self.ask(WindowFlag::Visible)
    }

    /// Whether the window is decorated.
    pub fn is_decorated(&self) -> (ask: Ask<WindowFlag, bool>)
        ensures
            ask == flag_ask(self.spec_mode(), WindowFlag::Decorated),
    {
        self.ask(WindowFlag::Decorated)
    }

    /// Whether the window is closable.
    pub fn is_closable(&self) -> (ask: Ask<WindowFlag, bool>)
        ensures
            ask == flag_ask(self.spec_mode(), WindowFlag::Closable),
    {
        self.ask(WindowFlag::Closable)
    }

    /// Whether the window is maximizable.
    pub fn is_maximizable(&self) -> (ask: Ask<WindowFlag, bool>)
        ensures
            ask == flag_ask(self.spec_mode(), WindowFlag::Maximizable),
    {
        self.ask(WindowFlag::Maximizable)
    }

    /// Whether the window is minimizable.
    pub fn is_minimizable(&self) -> (ask: Ask<WindowFlag, bool>)
        ensures
            ask == flag_ask(self.spec_mode(), WindowFlag::Minimizable),
    {
        self.ask(WindowFlag::Minimizable)
    }

    /// Whether the window is maximized.
    pub fn is_maximized(&self) -> (ask: Ask<WindowFlag, bool>)
        ensures
            ask == flag_ask(self.spec_mode(), WindowFlag::Maximized),
    {
        self.ask(WindowFlag::Maximized)
    }

    /// Whether the window is minimized.
    pub fn is_minimized(&self) -> (ask: Ask<WindowFlag, bool>)
        ensures
            ask == flag_ask(self.spec_mode(), WindowFlag::Minimized),
    {
        self.ask(WindowFlag::Minimized)
    }

    /// Whether the window is resizable.
    pub fn is_resizable(&self) -> (ask: Ask<WindowFlag, bool>)
        ensures
            ask == flag_ask(self.spec_mode(), WindowFlag::Resizable),
    {
        self.ask(WindowFlag::Resizable)
    }

    /// Destroys the window by hiding it for good.
    pub fn destroy(&self) -> (plan: Plan<WindowCommand>)
        ensures
            plan@ == window_plan(self.spec_mode(), self.spec_id(), WindowCommandView::SetVisible(false)),
    {
        self.plan(WindowCommand::SetVisible(false))
    }

    /// Closes the window by hiding it.
    pub fn close(&self) -> (plan: Plan<WindowCommand>)
        ensures
            plan@ == window_plan(self.spec_mode(), self.spec_id(), WindowCommandView::SetVisible(false)),
    {
        self.plan(WindowCommand::SetVisible(false))
    }

    /// Hides the window without destroying it.
    pub fn hide_window(&self) -> (plan: Plan<WindowCommand>)
        ensures
            plan@ == window_plan(self.spec_mode(), self.spec_id(), WindowCommandView::SetVisible(false)),
    {
        self.plan(WindowCommand::SetVisible(false))
    }

    /// Shows the window if it was hidden.
    pub fn show(&self) -> (plan: Plan<WindowCommand>)
        ensures
            plan@ == window_plan(self.spec_mode(), self.spec_id(), WindowCommandView::SetVisible(true)),
    {
        self.plan(WindowCommand::SetVisible(true))
    }

    /// Shows or hides the window.
    pub fn set_visible(&self, visible: bool) -> (plan: Plan<WindowCommand>)
        ensures
            plan@ == window_plan(self.spec_mode(), self.spec_id(), WindowCommandView::SetVisible(visible)),
    {
        self.plan(WindowCommand::SetVisible(visible))
    }

    /// Sets the window title.
    pub fn set_title(&self, title: String) -> (plan: Plan<WindowCommand>)
        ensures
            plan@ == window_plan(self.spec_mode(), self.spec_id(), WindowCommandView::SetTitle(title@)),
    {
        self.plan(WindowCommand::SetTitle(title))
    }

    /// Sets whether the window is closable.
    pub fn set_closable(&self, closable: bool) -> (plan: Plan<WindowCommand>)
        ensures
            plan@ == window_plan(self.spec_mode(), self.spec_id(), WindowCommandView::SetClosable(closable)),
    {
        self.plan(WindowCommand::SetClosable(closable))
    }

    /// Sets whether the window is maximizable.
    pub fn set_maximizable(&self, maximizable: bool) -> (plan: Plan<WindowCommand>)
        ensures
            plan@ == window_plan(self.spec_mode(), self.spec_id(), WindowCommandView::SetMaximizable(maximizable)),
    {
        self.plan(WindowCommand::SetMaximizable(maximizable))
    }

    /// Sets whether the window is minimizable.
    pub fn set_minimizable(&self, minimizable: bool) -> (plan: Plan<WindowCommand>)
        ensures
            plan@ == window_plan(self.spec_mode(), self.spec_id(), WindowCommandView::SetMinimizable(minimizable)),
    {
        self.plan(WindowCommand::SetMinimizable(minimizable))
    }

    /// Sets whether the window is resizable.
    pub fn set_resizable(&self, resizable: bool) -> (plan: Plan<WindowCommand>)
        ensures
            plan@ == window_plan(self.spec_mode(), self.spec_id(), WindowCommandView::SetResizable(resizable)),
    {
        self.plan(WindowCommand::SetResizable(resizable))
    }

    /// Sets the window theme.
    pub fn set_theme(&self, theme: JsTheme) -> (plan: Plan<WindowCommand>)
        ensures
            plan@ == window_plan(self.spec_mode(), self.spec_id(), WindowCommandView::SetTheme(theme)),
    {
        self.plan(WindowCommand::SetTheme(theme))
    }

    /// Sets the window icon.
    pub fn set_window_icon(&self, icon: WindowIcon, width: u32, height: u32) -> (plan: Plan<WindowCommand>)
        ensures
            plan@ == window_plan(self.spec_mode(), self.spec_id(), WindowCommandView::SetWindowIcon { icon: icon@, width, height }),
    {
        self.plan(WindowCommand::SetWindowIcon { icon, width, height })
    }

    /// Removes the window icon.
    pub fn remove_window_icon(&self) -> (plan: Plan<WindowCommand>)
        ensures
            plan@ == window_plan(self.spec_mode(), self.spec_id(), WindowCommandView::RemoveWindowIcon),
    {
        self.plan(WindowCommand::RemoveWindowIcon)
    }

    /// Sets the progress bar of the window.
    pub fn set_progress_bar(&self, state: JsProgressBar) -> (plan: Plan<WindowCommand>)
        ensures
            plan@ == window_plan(self.spec_mode(), self.spec_id(), WindowCommandView::SetProgressBar(state)),
    {
        self.plan(WindowCommand::SetProgressBar(state))
    }

    /// Maximizes the window or restores it.
    pub fn set_maximized(&self, value: bool) -> (plan: Plan<WindowCommand>)
        ensures
            plan@ == window_plan(self.spec_mode(), self.spec_id(), WindowCommandView::SetMaximized(value)),
    {
        self.plan(WindowCommand::SetMaximized(value))
    }

    /// Minimizes the window or restores it.
    pub fn set_minimized(&self, value: bool) -> (plan: Plan<WindowCommand>)
        ensures
            plan@ == window_plan(self.spec_mode(), self.spec_id(), WindowCommandView::SetMinimized(value)),
    {
        self.plan(WindowCommand::SetMinimized(value))
    }

    /// Brings the window to the front and focuses it.
    pub fn focus(&self) -> (plan: Plan<WindowCommand>)
        ensures
            plan@ == window_plan(self.spec_mode(), self.spec_id(), WindowCommandView::Focus),
    {
        self.plan(WindowCommand::Focus)
    }

    /// Keeps other applications from capturing the window contents.
    pub fn set_content_protection(&self, enabled: bool) -> (plan: Plan<WindowCommand>)
        ensures
            plan@ == window_plan(self.spec_mode(), self.spec_id(), WindowCommandView::SetContentProtection(enabled)),
    {
        self.plan(WindowCommand::SetContentProtection(enabled))
    }

    /// Keeps the window above the others.
    pub fn set_always_on_top(&self, enabled: bool) -> (plan: Plan<WindowCommand>)
        ensures
            plan@ == window_plan(self.spec_mode(), self.spec_id(), WindowCommandView::SetAlwaysOnTop(enabled)),
    {
        self.plan(WindowCommand::SetAlwaysOnTop(enabled))
    }

    /// Keeps the window below the others.
    pub fn set_always_on_bottom(&self, enabled: bool) -> (plan: Plan<WindowCommand>)
        ensures
            plan@ == window_plan(self.spec_mode(), self.spec_id(), WindowCommandView::SetAlwaysOnBottom(enabled)),
    {
        self.plan(WindowCommand::SetAlwaysOnBottom(enabled))
    }

    /// Turns the window decorations on or off.
    pub fn set_decorations(&self, enabled: bool) -> (plan: Plan<WindowCommand>)
        ensures
            plan@ == window_plan(self.spec_mode(), self.spec_id(), WindowCommandView::SetDecorations(enabled)),
    {
        self.plan(WindowCommand::SetDecorations(enabled))
    }

    /// Sets the window to fullscreen or back.
    pub fn set_fullscreen(&self, fullscreen_type: Option<FullscreenType>) -> (plan: Plan<WindowCommand>)
        ensures
            plan@ == window_plan(self.spec_mode(), self.spec_id(), WindowCommandView::SetFullscreen(fullscreen_type)),
    {
        self.plan(WindowCommand::SetFullscreen(fullscreen_type))
    }
}

} // verus!
