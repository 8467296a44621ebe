//! How the worker answers a request.
//!
//! Only the event loop may touch the toolkit. So a request is answered in
//! two steps: [`process_ipc_request`] consults the registry and either has
//! the answer at once or names the one call that the event loop has to make;
//! [`complete_toolkit_call`] takes what the toolkit said, updates the
//! registry and gives the answer.

use vstd::prelude::*;
use vstd::string::StringExecFns;
use crate::attributes::{
    webview_attributes, webview_attributes_of, window_attributes, window_attributes_of,
    WebviewAttributes, WebviewAttributesView, WindowAttributes, WindowAttributesView,
};
use crate::ipc::{IpcRequest, IpcResponse, RequestView, ResponseView};
use crate::json::{Json, JsonValue, Numeral, members_model};
use crate::registry::{
    natives_after_removal, webviews_after_removal, windows_after_removal, WindowManager,
};
use crate::text::{decimal, push_decimal};

verus! {

/// A call that the event loop has to make on the toolkit.
#[allow(inconsistent_fields)]
#[derive(Debug, PartialEq)]
pub enum ToolkitCall {
    /// Build a window with these attributes, to be known as `window_id`.
    BuildWindow { window_id: u32, attributes: WindowAttributes },
    /// Build a webview with these attributes on the window `window_id`.
    BuildWebview { window_id: u32, attributes: WebviewAttributes },
    /// Run a script in the webview of `window_id`.
    EvaluateScript { window_id: u32, script: String },
    /// Load a URL in the webview of `window_id`.
    LoadUrl { window_id: u32, url: String },
    /// Load an HTML text in the webview of `window_id`.
    LoadHtml { window_id: u32, html: String },
    /// Show or hide the window `window_id`.
    SetVisible { window_id: u32, visible: bool },
    /// Set the title of the window `window_id`.
    SetTitle { window_id: u32, title: String },
}

/// The mathematical content of a [`ToolkitCall`].
#[allow(inconsistent_fields)]
pub enum ToolkitCallView {
    BuildWindow { window_id: u32, attributes: WindowAttributesView },
    BuildWebview { window_id: u32, attributes: WebviewAttributesView },
    EvaluateScript { window_id: u32, script: Seq<char> },
    LoadUrl { window_id: u32, url: Seq<char> },
    LoadHtml { window_id: u32, html: Seq<char> },
    SetVisible { window_id: u32, visible: bool },
    SetTitle { window_id: u32, title: Seq<char> },
}

impl View for ToolkitCall {
    type V = ToolkitCallView;

    open spec fn view(&self) -> ToolkitCallView {
        match self {
            ToolkitCall::BuildWindow { window_id, attributes } => ToolkitCallView::BuildWindow {
                window_id: *window_id,
                attributes: attributes@,
            },
            ToolkitCall::BuildWebview { window_id, attributes } => ToolkitCallView::BuildWebview {
                window_id: *window_id,
                attributes: attributes@,
            },
            ToolkitCall::EvaluateScript { window_id, script } => ToolkitCallView::EvaluateScript {
                window_id: *window_id,
                script: script@,
            },
            ToolkitCall::LoadUrl { window_id, url } => ToolkitCallView::LoadUrl {
                window_id: *window_id,
                url: url@,
            },
            ToolkitCall::LoadHtml { window_id, html } => ToolkitCallView::LoadHtml {
                window_id: *window_id,
                html: html@,
            },
            ToolkitCall::SetVisible { window_id, visible } => ToolkitCallView::SetVisible {
                window_id: *window_id,
                visible: *visible,
            },
            ToolkitCall::SetTitle { window_id, title } => ToolkitCallView::SetTitle {
                window_id: *window_id,
                title: title@,
            },
        }
    }
}

/// What the worker makes of a request.
#[derive(Debug, PartialEq)]
pub enum IpcRequestResult {
    /// The request is answered with this response.
    Success(IpcResponse),
    /// The answer depends on this call on the toolkit.
    Toolkit(ToolkitCall),
    /// The request failed, for this reason.
    Error(String),
}

/// The mathematical content of an [`IpcRequestResult`].
pub enum RequestResultView {
    Success(ResponseView),
    Toolkit(ToolkitCallView),
    Error(Seq<char>),
}

impl View for IpcRequestResult {
    type V = RequestResultView;

    open spec fn view(&self) -> RequestResultView {
        match self {
            IpcRequestResult::Success(response) => RequestResultView::Success(response@),
            IpcRequestResult::Toolkit(call) => RequestResultView::Toolkit(call@),
            IpcRequestResult::Error(message) => RequestResultView::Error(message@),
        }
    }
}

/// The reason given where no window is registered under `window_id`.
pub open spec fn window_not_found(window_id: u32) -> Seq<char> {
    "Window "@ + decimal(window_id as nat) + " not found"@
}

/// The reason given where no webview is registered for `window_id`.
pub open spec fn webview_not_found(window_id: u32) -> Seq<char> {
    "Webview "@ + decimal(window_id as nat) + " not found"@
}

/// A successful response with the given data object. The identifier inside
/// a response is 0: the message around it carries the request's identifier.
pub open spec fn success_with(data: Seq<(Seq<char>, Json)>) -> ResponseView {
    ResponseView::Success { request_id: 0, data: Some(Json::Object(data)) }
}

/// What the worker makes of `request` when its registry holds `windows`
/// and `webviews`.
pub open spec fn request_outcome(
    request: RequestView,
    windows: Map<u32, u64>,
    webviews: Set<u32>,
) -> RequestResultView {
    match request {
        RequestView::CreateBrowserWindow { window_id, options, is_child } => {
            RequestResultView::Toolkit(
                ToolkitCallView::BuildWindow {
                    window_id,
                    attributes: window_attributes_of(options),
                },
            )
        },
        RequestView::CloseWindow { window_id } => if windows.contains_key(window_id) {
            RequestResultView::Success(success_with(seq![("closed"@, Json::Bool(true))]))
        } else {
            RequestResultView::Error(window_not_found(window_id))
        },
        RequestView::CreateWebview { window_id, options } => if windows.contains_key(window_id) {
            RequestResultView::Toolkit(
                ToolkitCallView::BuildWebview {
                    window_id,
                    attributes: webview_attributes_of(options),
                },
            )
        } else {
            RequestResultView::Error(window_not_found(window_id))
        },
        RequestView::EvaluateScript { window_id, script } => if webviews.contains(window_id) {
            RequestResultView::Toolkit(ToolkitCallView::EvaluateScript { window_id, script })
        } else {
            RequestResultView::Error(webview_not_found(window_id))
        },
        RequestView::LoadUrl { window_id, url } => if webviews.contains(window_id) {
            RequestResultView::Toolkit(ToolkitCallView::LoadUrl { window_id, url })
        } else {
            RequestResultView::Error(webview_not_found(window_id))
        },
        RequestView::LoadHtml { window_id, html } => if webviews.contains(window_id) {
            RequestResultView::Toolkit(ToolkitCallView::LoadHtml { window_id, html })
        } else {
            RequestResultView::Error(webview_not_found(window_id))
        },
        RequestView::SetWindowVisible { window_id, visible } => if windows.contains_key(
            window_id,
        ) {
            RequestResultView::Toolkit(ToolkitCallView::SetVisible { window_id, visible })
        } else {
            RequestResultView::Error(window_not_found(window_id))
        },
        RequestView::SetWindowTitle { window_id, title } => if windows.contains_key(window_id) {
            RequestResultView::Toolkit(ToolkitCallView::SetTitle { window_id, title })
        } else {
            RequestResultView::Error(window_not_found(window_id))
        },
        RequestView::Exit => RequestResultView::Success(
            success_with(seq![("exiting"@, Json::Bool(true))]),
        ),
        RequestView::Ping => RequestResultView::Success(ResponseView::Pong),
    }
}

/// The handle that `request` retires when the registry holds `windows`:
/// that of `CloseWindow`, where a window is registered under it.
pub open spec fn retired_handle(request: RequestView, windows: Map<u32, u64>) -> Option<u32> {
    match request {
        RequestView::CloseWindow { window_id } => if windows.contains_key(window_id) {
            Some(window_id)
        } else {
            None
        },
        _ => None,
    }
}

fn not_found(kind: &str, window_id: u32) -> (message: String)
    ensures
        message@ == kind@ + decimal(window_id as nat) + " not found"@,
{
    let mut message = String::from_str(kind);
    push_decimal(&mut message, window_id as u64);
    message.append(" not found");
    message
}

fn flag_data(key: &str, value: JsonValue) -> (response: IpcResponse)
    ensures
        response@ == success_with(seq![(key@, value.model())]),
{
    IpcResponse::Success { request_id: 0, data: Some(JsonValue::single(key, value)) }
}

fn pair_data(first: &str, a: JsonValue, second: &str, b: JsonValue) -> (response: IpcResponse)
    ensures
        response@ == success_with(seq![(first@, a.model()), (second@, b.model())]),
{
    let mut members: Vec<(String, JsonValue)> = Vec::new();
    members.push((first.to_owned(), a));
    members.push((second.to_owned(), b));
    assert(members_model(members@) =~= seq![(first@, a.model()), (second@, b.model())]);
    IpcResponse::Success { request_id: 0, data: Some(JsonValue::object(members)) }
}

/// Works out what a request asks for. `CloseWindow` retires its handle on
/// the spot, where a window is registered under it, and is refused
/// otherwise; no other request changes the registry at this step.
pub fn process_ipc_request(request: IpcRequest, window_manager: &mut WindowManager) -> (result:
    IpcRequestResult)
    requires
        old(window_manager).well_formed(),
    ensures
        final(window_manager).well_formed(),
        result@ == request_outcome(
            request@,
            old(window_manager).windows(),
            old(window_manager).webviews(),
        ),
        match retired_handle(request@, old(window_manager).windows()) {
            Some(window_id) => {
                &&& final(window_manager).windows() == windows_after_removal(
                    old(window_manager).windows(),
                    window_id,
                )
                &&& final(window_manager).natives() == natives_after_removal(
                    old(window_manager).windows(),
                    old(window_manager).natives(),
                    window_id,
                )
                &&& final(window_manager).webviews() == webviews_after_removal(
                    old(window_manager).windows(),
                    old(window_manager).webviews(),
                    window_id,
                )
            },
            None => {
                &&& final(window_manager).windows() == old(window_manager).windows()
                &&& final(window_manager).natives() == old(window_manager).natives()
                &&& final(window_manager).webviews() == old(window_manager).webviews()
            },
        },
{
    match request {
        IpcRequest::CreateBrowserWindow { window_id, options, is_child } => {
            IpcRequestResult::Toolkit(
                ToolkitCall::BuildWindow { window_id, attributes: window_attributes(&options) },
            )
        },
        IpcRequest::CloseWindow { window_id } => {
            if window_manager.has_window(window_id) {
                window_manager.remove_window(window_id);
                IpcRequestResult::Success(flag_data("closed", JsonValue::Bool(true)))
            } else {
                IpcRequestResult::Error(not_found("Window ", window_id))
            }
        },
        IpcRequest::CreateWebview { window_id, options } => {
            if window_manager.has_window(window_id) {
                IpcRequestResult::Toolkit(
                    ToolkitCall::BuildWebview {
                        window_id,
                        attributes: webview_attributes(&options),
                    },
                )
            } else {
                IpcRequestResult::Error(not_found("Window ", window_id))
            }
        },
        IpcRequest::EvaluateScript { window_id, script } => {
            if window_manager.has_webview(window_id) {
                IpcRequestResult::Toolkit(ToolkitCall::EvaluateScript { window_id, script })
            } else {
                IpcRequestResult::Error(not_found("Webview ", window_id))
            }
        },
        IpcRequest::LoadUrl { window_id, url } => {
            if window_manager.has_webview(window_id) {
                IpcRequestResult::Toolkit(ToolkitCall::LoadUrl { window_id, url })
            } else {
                IpcRequestResult::Error(not_found("Webview ", window_id))
            }
        },
        IpcRequest::LoadHtml { window_id, html } => {
            if window_manager.has_webview(window_id) {
                IpcRequestResult::Toolkit(ToolkitCall::LoadHtml { window_id, html })
            } else {
                IpcRequestResult::Error(not_found("Webview ", window_id))
            }
        },
        IpcRequest::SetWindowVisible { window_id, visible } => {
            if window_manager.has_window(window_id) {
                IpcRequestResult::Toolkit(ToolkitCall::SetVisible { window_id, visible })
            } else {
                IpcRequestResult::Error(not_found("Window ", window_id))
            }
        },
        IpcRequest::SetWindowTitle { window_id, title } => {
            if window_manager.has_window(window_id) {
                IpcRequestResult::Toolkit(ToolkitCall::SetTitle { window_id, title })
            } else {
                IpcRequestResult::Error(not_found("Window ", window_id))
            }
        },
        IpcRequest::Exit => IpcRequestResult::Success(flag_data("exiting", JsonValue::Bool(true))),
        IpcRequest::Ping => IpcRequestResult::Success(IpcResponse::Pong),
    }
}

/// The number of bytes that a text takes in UTF-8, as the machine counts
/// the length of a string.
pub open spec fn byte_len(text: Seq<char>) -> u64 {
    (vstd::utf8::encode_utf8(text).len() as usize) as u64
}

/// What is in front of the toolkit's own words where a call failed.
pub open spec fn failure_prefix(call: ToolkitCallView) -> Seq<char> {
    match call {
        ToolkitCallView::BuildWindow { .. } => "Failed to create window: "@,
        ToolkitCallView::BuildWebview { .. } => "Failed to create webview: "@,
        ToolkitCallView::EvaluateScript { .. } => "Failed to evaluate script: "@,
        ToolkitCallView::LoadUrl { .. } => "Failed to load URL: "@,
        ToolkitCallView::LoadHtml { .. } => "Failed to load HTML: "@,
        ToolkitCallView::SetVisible { .. } => "Failed to set visibility: "@,
        ToolkitCallView::SetTitle { .. } => "Failed to set title: "@,
    }
}

/// The response to a request whose call on the toolkit went well.
pub open spec fn call_success(call: ToolkitCallView) -> ResponseView {
    match call {
        ToolkitCallView::BuildWindow { window_id, .. } => success_with(
            seq![
                ("window_id"@, Json::Number(Numeral::Unsigned(window_id as u64))),
                ("success"@, Json::Bool(true)),
            ],
        ),
        ToolkitCallView::BuildWebview { window_id, .. } => success_with(
            seq![
                ("window_id"@, Json::Number(Numeral::Unsigned(window_id as u64))),
                ("webview_created"@, Json::Bool(true)),
            ],
        ),
        ToolkitCallView::EvaluateScript { script, .. } => success_with(
            seq![
                ("evaluated"@, Json::Bool(true)),
                ("script_length"@, Json::Number(Numeral::Unsigned(byte_len(script)))),
            ],
        ),
        ToolkitCallView::LoadUrl { url, .. } => success_with(
            seq![("loaded"@, Json::Bool(true)), ("url"@, Json::Text(url))],
        ),
        ToolkitCallView::LoadHtml { html, .. } => success_with(
            seq![
                ("loaded"@, Json::Bool(true)),
                ("html_length"@, Json::Number(Numeral::Unsigned(byte_len(html)))),
            ],
        ),
        ToolkitCallView::SetVisible { visible, .. } => success_with(
            seq![("visible"@, Json::Bool(visible))],
        ),
        ToolkitCallView::SetTitle { title, .. } => success_with(
            seq![("title"@, Json::Text(title))],
        ),
    }
}

/// The content of what the toolkit said: the native identity of the window
/// it built, or its own words on why the call failed.
pub open spec fn outcome_view(outcome: Result<u64, String>) -> Result<u64, Seq<char>> {
    match outcome {
        Ok(native_id) => Ok(native_id),
        Err(reason) => Err(reason@),
    }
}

/// The content of an answer: a response, or the reason of a failure.
pub open spec fn answer_view(answer: Result<IpcResponse, String>) -> Result<
    ResponseView,
    Seq<char>,
> {
    match answer {
        Ok(response) => Ok(response@),
        Err(reason) => Err(reason@),
    }
}

/// The answer to a request once the toolkit has said how its call went.
pub open spec fn call_outcome(call: ToolkitCallView, outcome: Result<u64, Seq<char>>) -> Result<
    ResponseView,
    Seq<char>,
> {
    match outcome {
        Ok(_) => Ok(call_success(call)),
        Err(reason) => Err(failure_prefix(call) + reason),
    }
}

fn failure(prefix: &str, reason: &String) -> (message: String)
    ensures
        message@ == prefix@ + reason@,
{
    let mut message = String::from_str(prefix);
    message.append(reason.as_str());
    message
}

fn length_json(text: &String) -> (r: JsonValue)
    ensures
        r.model() == Json::Number(Numeral::Unsigned(byte_len(text@))),
{
    JsonValue::unsigned(text.as_str().len() as u64)
}

/// Finishes a request whose answer depended on the toolkit. `outcome` is
/// what the toolkit said: `Ok` where the call went well, with the native
/// identity of the window for `BuildWindow` (the number is not looked at
/// for other calls), `Err` with the toolkit's words where it failed.
///
/// A window that was built is registered under its handle, a webview that
/// was built is registered for its handle; nothing else changes the
/// registry.
pub fn complete_toolkit_call(
    call: ToolkitCall,
    outcome: Result<u64, String>,
    window_manager: &mut WindowManager,
) -> (answer: Result<IpcResponse, String>)
    requires
        old(window_manager).well_formed(),
    ensures
        final(window_manager).well_formed(),
        answer_view(answer) == call_outcome(call@, outcome_view(outcome)),
        match (call@, outcome) {
            (ToolkitCallView::BuildWindow { window_id, .. }, Ok(native_id)) => {
                &&& final(window_manager).windows() == old(window_manager).windows().insert(
                    window_id,
                    native_id,
                )
                &&& final(window_manager).natives() == natives_after_removal(
                    old(window_manager).windows(),
                    old(window_manager).natives(),
                    window_id,
                ).insert(native_id, window_id)
                &&& final(window_manager).webviews() == old(window_manager).webviews()
            },
            (ToolkitCallView::BuildWebview { window_id, .. }, Ok(_)) => {
                &&& final(window_manager).windows() == old(window_manager).windows()
                &&& final(window_manager).natives() == old(window_manager).natives()
                &&& final(window_manager).webviews() == old(window_manager).webviews().insert(
                    window_id,
                )
            },
            _ => {
                &&& final(window_manager).windows() == old(window_manager).windows()
                &&& final(window_manager).natives() == old(window_manager).natives()
                &&& final(window_manager).webviews() == old(window_manager).webviews()
            },
        },
{
    match call {
        ToolkitCall::BuildWindow { window_id, attributes } => match outcome {
            Ok(native_id) => {
                window_manager.add_window(window_id, native_id);
                Ok(
                    pair_data(
                        "window_id",
                        JsonValue::unsigned(window_id as u64),
                        "success",
                        JsonValue::Bool(true),
                    ),
                )
            },
            Err(reason) => Err(failure("Failed to create window: ", &reason)),
        },
        ToolkitCall::BuildWebview { window_id, attributes } => match outcome {
            Ok(_) => {
                window_manager.add_webview(window_id);
                Ok(
                    pair_data(
                        "window_id",
                        JsonValue::unsigned(window_id as u64),
                        "webview_created",
                        JsonValue::Bool(true),
                    ),
                )
            },
            Err(reason) => Err(failure("Failed to create webview: ", &reason)),
        },
        ToolkitCall::EvaluateScript { window_id, script } => match outcome {
            Ok(_) => Ok(
                pair_data(
                    "evaluated",
                    JsonValue::Bool(true),
                    "script_length",
                    length_json(&script),
                ),
            ),
            Err(reason) => Err(failure("Failed to evaluate script: ", &reason)),
        },
        ToolkitCall::LoadUrl { window_id, url } => match outcome {
            Ok(_) => Ok(pair_data("loaded", JsonValue::Bool(true), "url", JsonValue::Text(url))),
            Err(reason) => Err(failure("Failed to load URL: ", &reason)),
        },
        ToolkitCall::LoadHtml { window_id, html } => match outcome {
            Ok(_) => Ok(
                pair_data("loaded", JsonValue::Bool(true), "html_length", length_json(&html)),
            ),
            Err(reason) => Err(failure("Failed to load HTML: ", &reason)),
        },
        ToolkitCall::SetVisible { window_id, visible } => match outcome {
            Ok(_) => Ok(flag_data("visible", JsonValue::Bool(visible))),
            Err(reason) => Err(failure("Failed to set visibility: ", &reason)),
        },
        ToolkitCall::SetTitle { window_id, title } => match outcome {
            Ok(_) => Ok(flag_data("title", JsonValue::Text(title))),
            Err(reason) => Err(failure("Failed to set title: ", &reason)),
        },
    }
}

/// The response that goes out for an answer: the response itself, or an
/// error response with the reason and the identifier of the request.
pub open spec fn answer_response(answer: Result<ResponseView, Seq<char>>, request_id: u64) -> ResponseView {
    match answer {
        Ok(response) => response,
        Err(reason) => ResponseView::Error { request_id, message: reason },
    }
}

/// Turns an answer into the response that goes out. A failure never stops
/// the worker: it becomes an error response.
pub fn respond(answer: Result<IpcResponse, String>, request_id: u64) -> (response: IpcResponse)
    ensures
        response@ == answer_response(answer_view(answer), request_id),
{
    match answer {
        Ok(response) => response,
        Err(reason) => IpcResponse::Error { request_id, message: reason },
    }
}

/// The window that a request needs to find in the registry.
pub open spec fn needed_window(request: RequestView) -> Option<u32> {
    match request {
        RequestView::CloseWindow { window_id } => Some(window_id),
        RequestView::CreateWebview { window_id, .. } => Some(window_id),
        RequestView::SetWindowVisible { window_id, .. } => Some(window_id),
        RequestView::SetWindowTitle { window_id, .. } => Some(window_id),
        _ => None,
    }
}

/// The webview that a request needs to find in the registry.
pub open spec fn needed_webview(request: RequestView) -> Option<u32> {
    match request {
        RequestView::EvaluateScript { window_id, .. } => Some(window_id),
        RequestView::LoadUrl { window_id, .. } => Some(window_id),
        RequestView::LoadHtml { window_id, .. } => Some(window_id),
        _ => None,
    }
}

/// Whether `message` holds the decimal numeral of `window_id`.
pub open spec fn names_handle(message: Seq<char>, window_id: u32) -> bool {
    exists|at: int|
        0 <= at && at + decimal(window_id as nat).len() <= message.len() && #[trigger] message.subrange(
            at,
            at + decimal(window_id as nat).len(),
        ) == decimal(window_id as nat)
}

/// `Ping` is answered with `Pong`, whatever the registry holds.
pub proof fn lemma_ping_yields_pong(windows: Map<u32, u64>, webviews: Set<u32>)
    ensures
        request_outcome(RequestView::Ping, windows, webviews) == RequestResultView::Success(
            ResponseView::Pong,
        ),
{
}

/// A request that needs a window or a webview under a handle that the
/// registry does not hold is refused, and the reason names the handle. The
/// response that goes out for it is an error response with that reason,
/// and the request retires no handle: the registry stays as it is.
pub proof fn lemma_unknown_handle_is_refused(
    request: RequestView,
    windows: Map<u32, u64>,
    webviews: Set<u32>,
    request_id: u64,
)
    requires
        match (needed_window(request), needed_webview(request)) {
            (Some(window_id), _) => !windows.contains_key(window_id),
            (_, Some(window_id)) => !webviews.contains(window_id),
            _ => false,
        },
    ensures
        retired_handle(request, windows).is_none(),
        request_outcome(request, windows, webviews) matches RequestResultView::Error(reason) && {
            &&& needed_window(request) matches Some(window_id) ==> reason == window_not_found(
                window_id,
            ) && names_handle(reason, window_id)
            &&& needed_webview(request) matches Some(window_id) ==> reason == webview_not_found(
                window_id,
            ) && names_handle(reason, window_id)
            &&& answer_response(Err(reason), request_id) == (ResponseView::Error {
                request_id,
                message: reason,
            })
        },
{
    reveal_strlit("Window ");
    reveal_strlit("Webview ");
    match needed_window(request) {
        Some(window_id) => {
            let reason = window_not_found(window_id);
            let numeral = decimal(window_id as nat);
            assert(reason.subrange(7, 7 + numeral.len() as int) =~= numeral);
        },
        None => {},
    }
    match needed_webview(request) {
        Some(window_id) => {
            let reason = webview_not_found(window_id);
            let numeral = decimal(window_id as nat);
            assert(reason.subrange(8, 8 + numeral.len() as int) =~= numeral);
        },
        None => {},
    }
}

} // verus!
