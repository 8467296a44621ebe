//! What the worker reads from the option payloads of `CreateBrowserWindow`
//! and `CreateWebview`: the attributes it hands to the toolkit.
//!
//! An option payload is a JSON object. A member that is missing, or whose
//! value is of another type than the attribute, leaves the attribute at its
//! default.

use vstd::prelude::*;
use crate::json::{Json, JsonNumber, JsonValue, Numeral};
use crate::text::same_text;
use crate::wry::enums::Theme;

verus! {

/// The attributes of a window to build.
#[derive(Debug, PartialEq)]
pub struct WindowAttributes {
    pub resizable: bool,
    pub title: String,
    pub width: JsonNumber,
    pub height: JsonNumber,
    pub x: JsonNumber,
    pub y: JsonNumber,
    pub visible: bool,
    pub decorations: bool,
    pub transparent: bool,
    pub always_on_top: bool,
    pub always_on_bottom: bool,
    pub maximized: bool,
    pub maximizable: bool,
    pub minimizable: bool,
    pub focused: bool,
    /// Whether the window covers its screen without a border.
    pub borderless_fullscreen: bool,
}

/// The mathematical content of [`WindowAttributes`].
pub struct WindowAttributesView {
    pub resizable: bool,
    pub title: Seq<char>,
    pub width: Numeral,
    pub height: Numeral,
    pub x: Numeral,
    pub y: Numeral,
    pub visible: bool,
    pub decorations: bool,
    pub transparent: bool,
    pub always_on_top: bool,
    pub always_on_bottom: bool,
    pub maximized: bool,
    pub maximizable: bool,
    pub minimizable: bool,
    pub focused: bool,
    pub borderless_fullscreen: bool,
}

impl View for WindowAttributes {
    type V = WindowAttributesView;

    open spec fn view(&self) -> WindowAttributesView {
        WindowAttributesView {
            resizable: self.resizable,
            title: self.title@,
            width: self.width@,
            height: self.height@,
            x: self.x@,
            y: self.y@,
            visible: self.visible,
            decorations: self.decorations,
            transparent: self.transparent,
            always_on_top: self.always_on_top,
            always_on_bottom: self.always_on_bottom,
            maximized: self.maximized,
            maximizable: self.maximizable,
            minimizable: self.minimizable,
            focused: self.focused,
            borderless_fullscreen: self.borderless_fullscreen,
        }
    }
}

/// The attributes of a webview to build.
#[derive(Debug, PartialEq)]
pub struct WebviewAttributes {
    pub enable_devtools: bool,
    pub incognito: bool,
    pub transparent: bool,
    pub autoplay: bool,
    pub clipboard: bool,
    pub back_forward_navigation_gestures: bool,
    pub hotkeys_zoom: bool,
    pub user_agent: String,
    pub preload: Option<String>,
    pub url: Option<String>,
    pub html: Option<String>,
    pub width: JsonNumber,
    pub height: JsonNumber,
    pub x: JsonNumber,
    pub y: JsonNumber,
    pub theme: Option<Theme>,
}

/// The mathematical content of [`WebviewAttributes`].
pub struct WebviewAttributesView {
    pub enable_devtools: bool,
    pub incognito: bool,
    pub transparent: bool,
    pub autoplay: bool,
    pub clipboard: bool,
    pub back_forward_navigation_gestures: bool,
    pub hotkeys_zoom: bool,
    pub user_agent: Seq<char>,
    pub preload: Option<Seq<char>>,
    pub url: Option<Seq<char>>,
    pub html: Option<Seq<char>>,
    pub width: Numeral,
    pub height: Numeral,
    pub x: Numeral,
    pub y: Numeral,
    pub theme: Option<Theme>,
}

/// The content of an optional string.
pub open spec fn optional_text(text: Option<String>) -> Option<Seq<char>> {
    match text {
        Some(s) => Some(s@),
        None => None,
    }
}

impl View for WebviewAttributes {
    type V = WebviewAttributesView;

    open spec fn view(&self) -> WebviewAttributesView {
        WebviewAttributesView {
            enable_devtools: self.enable_devtools,
            incognito: self.incognito,
            transparent: self.transparent,
            autoplay: self.autoplay,
            clipboard: self.clipboard,
            back_forward_navigation_gestures: self.back_forward_navigation_gestures,
            hotkeys_zoom: self.hotkeys_zoom,
            user_agent: self.user_agent@,
            preload: optional_text(self.preload),
            url: optional_text(self.url),
            html: optional_text(self.html),
            width: self.width@,
            height: self.height@,
            x: self.x@,
            y: self.y@,
            theme: self.theme,
        }
    }
}

/// The boolean option `key`, or `default`.
pub open spec fn bool_or(options: Json, key: Seq<char>, default: bool) -> bool {
    match options.bool_member(key) {
        Some(b) => b,
        None => default,
    }
}

/// The string option `key`, or `default`.
pub open spec fn text_or(options: Json, key: Seq<char>, default: Seq<char>) -> Seq<char> {
    match options.text_member(key) {
        Some(s) => s,
        None => default,
    }
}

/// The number option `key`, or the integer `default`.
pub open spec fn number_or(options: Json, key: Seq<char>, default: u64) -> Numeral {
    match options.number_member(key) {
        Some(n) => n,
        None => Numeral::Unsigned(default),
    }
}

/// The theme that a theme option names: `Light`, `Dark`, and the
/// automatic theme for any other string; none where the option is missing
/// or no string.
pub open spec fn theme_option(options: Json) -> Option<Theme> {
    match options.text_member("theme"@) {
        Some(name) => if name == "Light"@ {
            Some(Theme::Light)
        } else if name == "Dark"@ {
            Some(Theme::Dark)
        } else {
            Some(Theme::Auto)
        },
        None => None,
    }
}

/// The window attributes that an option payload asks for.
pub open spec fn window_attributes_of(options: Json) -> WindowAttributesView {
    WindowAttributesView {
        resizable: bool_or(options, "resizable"@, true),
        title: text_or(options, "title"@, "WebviewJS"@),
        width: number_or(options, "width"@, 800),
        height: number_or(options, "height"@, 600),
        x: number_or(options, "x"@, 0),
        y: number_or(options, "y"@, 0),
        visible: bool_or(options, "visible"@, true),
        decorations: bool_or(options, "decorations"@, true),
        transparent: bool_or(options, "transparent"@, false),
        always_on_top: bool_or(options, "always_on_top"@, false),
        always_on_bottom: bool_or(options, "always_on_bottom"@, false),
        maximized: bool_or(options, "maximized"@, false),
        maximizable: bool_or(options, "maximizable"@, true),
        minimizable: bool_or(options, "minimizable"@, true),
        focused: bool_or(options, "focused"@, true),
        borderless_fullscreen: options.text_member("fullscreen"@) == Some("Borderless"@),
    }
}

/// The webview attributes that an option payload asks for.
pub open spec fn webview_attributes_of(options: Json) -> WebviewAttributesView {
    WebviewAttributesView {
        enable_devtools: bool_or(options, "enable_devtools"@, true),
        incognito: bool_or(options, "incognito"@, false),
        transparent: bool_or(options, "transparent"@, false),
        autoplay: bool_or(options, "autoplay"@, true),
        clipboard: bool_or(options, "clipboard"@, true),
        back_forward_navigation_gestures: bool_or(
            options,
            "back_forward_navigation_gestures"@,
            true,
        ),
        hotkeys_zoom: bool_or(options, "hotkeys_zoom"@, true),
        user_agent: text_or(options, "user_agent"@, "WebviewJS"@),
        preload: options.text_member("preload"@),
        url: options.text_member("url"@),
        html: options.text_member("html"@),
        width: number_or(options, "width"@, 800),
        height: number_or(options, "height"@, 600),
        x: number_or(options, "x"@, 0),
        y: number_or(options, "y"@, 0),
        theme: theme_option(options),
    }
}

fn read_bool(options: &JsonValue, key: &str, default: bool) -> (r: bool)
    ensures
        r == bool_or(options.model(), key@, default),
{
    match options.get(key) {
        Some(value) => match value.as_bool() {
            Some(b) => b,
            None => default,
        },
        None => default,
    }
}

fn read_optional_text(options: &JsonValue, key: &str) -> (r: Option<String>)
    ensures
        optional_text(r) == options.model().text_member(key@),
{
    match options.get(key) {
        Some(value) => match value.as_text() {
            Some(s) => Some(s.clone()),
            None => None,
        },
        None => None,
    }
}

fn read_text(options: &JsonValue, key: &str, default: &str) -> (r: String)
    ensures
        r@ == text_or(options.model(), key@, default@),
{
    match read_optional_text(options, key) {
        Some(s) => s,
        None => default.to_owned(),
    }
}

fn read_number(options: &JsonValue, key: &str, default: u64) -> (r: JsonNumber)
    ensures
        r@ == number_or(options.model(), key@, default),
{
    match options.get(key) {
        Some(value) => match value.as_number() {
            Some(n) => n.clone(),
            None => JsonNumber::Unsigned(default),
        },
        None => JsonNumber::Unsigned(default),
    }
}

fn read_theme(options: &JsonValue) -> (r: Option<Theme>)
    ensures
        r == theme_option(options.model()),
{
    match read_optional_text(options, "theme") {
        Some(name) => {
            if same_text(name.as_str(), "Light") {
                Some(Theme::Light)
            } else if same_text(name.as_str(), "Dark") {
                Some(Theme::Dark)
            } else {
                Some(Theme::Auto)
            }
        },
        None => None,
    }
}

/// Reads the attributes of a window from an option payload.
pub fn window_attributes(options: &JsonValue) -> (attributes: WindowAttributes)
    ensures
        attributes@ == window_attributes_of(options.model()),
{
    let borderless_fullscreen = match read_optional_text(options, "fullscreen") {
        Some(name) => same_text(name.as_str(), "Borderless"),
        None => false,
    };
    WindowAttributes {
        resizable: read_bool(options, "resizable", true),
        title: read_text(options, "title", "WebviewJS"),
        width: read_number(options, "width", 800),
        height: read_number(options, "height", 600),
        x: read_number(options, "x", 0),
        y: read_number(options, "y", 0),
        visible: read_bool(options, "visible", true),
        decorations: read_bool(options, "decorations", true),
        transparent: read_bool(options, "transparent", false),
        always_on_top: read_bool(options, "always_on_top", false),
        always_on_bottom: read_bool(options, "always_on_bottom", false),
        maximized: read_bool(options, "maximized", false),
        maximizable: read_bool(options, "maximizable", true),
        minimizable: read_bool(options, "minimizable", true),
        focused: read_bool(options, "focused", true),
        borderless_fullscreen,
    }
}

/// Reads the attributes of a webview from an option payload.
pub fn webview_attributes(options: &JsonValue) -> (attributes: WebviewAttributes)
    ensures
        attributes@ == webview_attributes_of(options.model()),
{
    WebviewAttributes {
        enable_devtools: read_bool(options, "enable_devtools", true),
        incognito: read_bool(options, "incognito", false),
        transparent: read_bool(options, "transparent", false),
        autoplay: read_bool(options, "autoplay", true),
        clipboard: read_bool(options, "clipboard", true),
        back_forward_navigation_gestures: read_bool(
            options,
            "back_forward_navigation_gestures",
            true,
        ),
        hotkeys_zoom: read_bool(options, "hotkeys_zoom", true),
        user_agent: read_text(options, "user_agent", "WebviewJS"),
        preload: read_optional_text(options, "preload"),
        url: read_optional_text(options, "url"),
        html: read_optional_text(options, "html"),
        width: read_number(options, "width", 800),
        height: read_number(options, "height", 600),
        x: read_number(options, "x", 0),
        y: read_number(options, "y", 0),
        theme: read_theme(options),
    }
}

} // verus!
