//! Messages between the host and the worker.

use vstd::prelude::*;
use crate::json::{Json, JsonValue};

verus! {

/// What the host asks of the worker.
#[derive(Debug, PartialEq)]
pub enum IpcRequest {
    /// Create a window under the handle `window_id`.
    CreateBrowserWindow { window_id: u32, options: JsonValue, is_child: bool },
    /// Close a window and retire its handle.
    CloseWindow { window_id: u32 },
    /// Attach a webview to a window.
    CreateWebview { window_id: u32, options: JsonValue },
    /// Run a script in the webview of a window.
    EvaluateScript { window_id: u32, script: String },
    /// Load a URL in the webview of a window.
    LoadUrl { window_id: u32, url: String },
    /// Load an HTML text in the webview of a window.
    LoadHtml { window_id: u32, html: String },
    /// Show or hide a window.
    SetWindowVisible { window_id: u32, visible: bool },
    /// Set the title of a window.
    SetWindowTitle { window_id: u32, title: String },
    /// Ask the worker to leave its event loop.
    Exit,
    /// Probe the connection.
    Ping,
}

/// What the worker tells the host.
#[derive(Debug, PartialEq)]
pub enum IpcResponse {
    /// The request was carried out.
    Success { request_id: u64, data: Option<JsonValue> },
    /// The request failed.
    Error { request_id: u64, message: String },
    /// Something happened in the worker that no request asked for.
    ApplicationEvent { event_type: String, window_id: Option<u32> },
    /// The answer to `Ping`.
    Pong,
}

/// A payload with the identifier of the request it belongs to. Events carry
/// the identifier 0.
#[derive(Debug, PartialEq)]
pub struct IpcMessage<T> {
    pub request_id: u64,
    pub payload: T,
}

/// The mathematical content of an [`IpcRequest`].
pub enum RequestView {
    CreateBrowserWindow { window_id: u32, options: Json, is_child: bool },
    CloseWindow { window_id: u32 },
    CreateWebview { window_id: u32, options: Json },
    EvaluateScript { window_id: u32, script: Seq<char> },
    LoadUrl { window_id: u32, url: Seq<char> },
    LoadHtml { window_id: u32, html: Seq<char> },
    SetWindowVisible { window_id: u32, visible: bool },
    SetWindowTitle { window_id: u32, title: Seq<char> },
    Exit,
    Ping,
}

/// The mathematical content of an [`IpcResponse`].
pub enum ResponseView {
    Success { request_id: u64, data: Option<Json> },
    Error { request_id: u64, message: Seq<char> },
    ApplicationEvent { event_type: Seq<char>, window_id: Option<u32> },
    Pong,
}

/// The mathematical content of an [`IpcMessage`].
pub struct Envelope<P> {
    pub request_id: u64,
    pub payload: P,
}

impl View for IpcRequest {
    type V = RequestView;

    open spec fn view(&self) -> RequestView {
        match self {
            IpcRequest::CreateBrowserWindow { window_id, options, is_child } => {
                RequestView::CreateBrowserWindow {
                    window_id: *window_id,
                    options: options.model(),
                    is_child: *is_child,
                }
            },
            IpcRequest::CloseWindow { window_id } => RequestView::CloseWindow {
                window_id: *window_id,
            },
            IpcRequest::CreateWebview { window_id, options } => RequestView::CreateWebview {
                window_id: *window_id,
                options: options.model(),
            },
            IpcRequest::EvaluateScript { window_id, script } => RequestView::EvaluateScript {
                window_id: *window_id,
                script: script@,
            },
            IpcRequest::LoadUrl { window_id, url } => RequestView::LoadUrl {
                window_id: *window_id,
                url: url@,
            },
            IpcRequest::LoadHtml { window_id, html } => RequestView::LoadHtml {
                window_id: *window_id,
                html: html@,
            },
            IpcRequest::SetWindowVisible { window_id, visible } => RequestView::SetWindowVisible {
                window_id: *window_id,
                visible: *visible,
            },
            IpcRequest::SetWindowTitle { window_id, title } => RequestView::SetWindowTitle {
                window_id: *window_id,
                title: title@,
            },
            IpcRequest::Exit => RequestView::Exit,
            IpcRequest::Ping => RequestView::Ping,
        }
    }
}

/// The content of an optional document.
pub open spec fn optional_model(data: Option<JsonValue>) -> Option<Json> {
    match data {
        Some(v) => Some(v.model()),
        None => None,
    }
}

impl View for IpcResponse {
    type V = ResponseView;

    open spec fn view(&self) -> ResponseView {
        match self {
            IpcResponse::Success { request_id, data } => ResponseView::Success {
                request_id: *request_id,
                data: optional_model(*data),
            },
            IpcResponse::Error { request_id, message } => ResponseView::Error {
                request_id: *request_id,
                message: message@,
            },
            IpcResponse::ApplicationEvent { event_type, window_id } => {
                ResponseView::ApplicationEvent { event_type: event_type@, window_id: *window_id }
            },
            IpcResponse::Pong => ResponseView::Pong,
        }
    }
}

impl<T: View> View for IpcMessage<T> {
    type V = Envelope<T::V>;

    open spec fn view(&self) -> Envelope<T::V> {
        Envelope { request_id: self.request_id, payload: self.payload@ }
    }
}

impl IpcRequest {
    /// A copy of this request.
    pub fn duplicate(&self) -> (r: IpcRequest)
        ensures
            r@ == self@,
    {
        match self {
            IpcRequest::CreateBrowserWindow { window_id, options, is_child } => {
                IpcRequest::CreateBrowserWindow {
                    window_id: *window_id,
                    options: options.duplicate(),
                    is_child: *is_child,
                }
            },
            IpcRequest::CloseWindow { window_id } => IpcRequest::CloseWindow {
                window_id: *window_id,
            },
            IpcRequest::CreateWebview { window_id, options } => IpcRequest::CreateWebview {
                window_id: *window_id,
                options: options.duplicate(),
            },
            IpcRequest::EvaluateScript { window_id, script } => IpcRequest::EvaluateScript {
                window_id: *window_id,
                script: script.clone(),
            },
            IpcRequest::LoadUrl { window_id, url } => IpcRequest::LoadUrl {
                window_id: *window_id,
                url: url.clone(),
            },
            IpcRequest::LoadHtml { window_id, html } => IpcRequest::LoadHtml {
                window_id: *window_id,
                html: html.clone(),
            },
            IpcRequest::SetWindowVisible { window_id, visible } => IpcRequest::SetWindowVisible {
                window_id: *window_id,
                visible: *visible,
            },
            IpcRequest::SetWindowTitle { window_id, title } => IpcRequest::SetWindowTitle {
                window_id: *window_id,
                title: title.clone(),
            },
            IpcRequest::Exit => IpcRequest::Exit,
            IpcRequest::Ping => IpcRequest::Ping,
        }
    }
}

impl Clone for IpcRequest {
    fn clone(&self) -> (r: Self)
        ensures
            r@ == self@,
    {
        self.duplicate()
    }
}

impl IpcResponse {
    /// A copy of this response.
    pub fn duplicate(&self) -> (r: IpcResponse)
        ensures
            r@ == self@,
    {
        match self {
            IpcResponse::Success { request_id, data } => {
                let data = match data {
                    Some(v) => Some(v.duplicate()),
                    None => None,
                };
                IpcResponse::Success { request_id: *request_id, data }
            },
            IpcResponse::Error { request_id, message } => IpcResponse::Error {
                request_id: *request_id,
                message: message.clone(),
            },
            IpcResponse::ApplicationEvent { event_type, window_id } => {
                IpcResponse::ApplicationEvent {
                    event_type: event_type.clone(),
                    window_id: *window_id,
                }
            },
            IpcResponse::Pong => IpcResponse::Pong,
        }
    }
}

impl Clone for IpcResponse {
    fn clone(&self) -> (r: Self)
        ensures
            r@ == self@,
    {
        self.duplicate()
    }
}

/// What the worker's server learns from a connection.
#[derive(Debug, PartialEq)]
pub enum IpcEvent {
    /// A request arrived.
    Request { request_id: u64, request: IpcRequest },
    /// The connection is gone.
    ClientDisconnected,
}

/// The mathematical content of an [`IpcEvent`].
pub enum IpcEventView {
    Request { request_id: u64, request: RequestView },
    ClientDisconnected,
}

impl View for IpcEvent {
    type V = IpcEventView;

    open spec fn view(&self) -> IpcEventView {
        match self {
            IpcEvent::Request { request_id, request } => IpcEventView::Request {
                request_id: *request_id,
                request: request@,
            },
            IpcEvent::ClientDisconnected => IpcEventView::ClientDisconnected,
        }
    }
}

/// Why a message could not be exchanged.
#[derive(Clone, Copy, Debug, PartialEq, Eq)]
pub enum IpcError {
    /// A text is not the JSON form of a message, or a message could not be
    /// written as JSON.
    InvalidData,
    /// No reply came within the time allowed.
    TimedOut,
    /// The connection to the worker is gone: no request can succeed any more.
    ConnectionReset,
}

/// Source of request identifiers: consecutive numbers from 1, wrapping
/// after `u64::MAX`.
pub struct RequestIdCounter {
    next: u64,
}

impl RequestIdCounter {
    /// The identifier that the next request gets.
    pub closed spec fn upcoming(&self) -> u64 {
        self.next
    }

    /// A counter whose first identifier is 1.
    pub fn new() -> (counter: Self)
        ensures
            counter.upcoming() == 1,
    {
        RequestIdCounter { next: 1 }
    }
}

/// The identifier that follows `id`.
pub open spec fn following_id(id: u64) -> u64 {
    if id == u64::MAX {
        0
    } else {
        (id + 1) as u64
    }
}

/// Draws a new request identifier.
pub fn generate_request_id(counter: &mut RequestIdCounter) -> (id: u64)
    ensures
        id == old(counter).upcoming(),
        final(counter).upcoming() == following_id(id),
{
    let id = counter.next;
    counter.next = id.wrapping_add(1);
    id
}

} // verus!
