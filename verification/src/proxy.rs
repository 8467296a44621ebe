//! What a window or webview object of the host does with an operation.
//!
//! The same operations exist in two topologies. In direct mode the toolkit
//! lives in the host's own process and the operation is a call on it. In
//! remote mode the toolkit lives in the worker: the operation becomes a
//! request, sent with or without waiting for the reply, or it has no remote
//! form and is settled on the spot. A [`Plan`] says which.

use vstd::prelude::*;
use vstd::string::StringExecFns;
use crate::ipc::{IpcError, IpcRequest, IpcResponse, RequestView, ResponseView};
use crate::json::{Json, JsonValue};

verus! {

/// Where the toolkit lives.
#[derive(Clone, Copy, Debug, PartialEq, Eq)]
pub enum Mode {
    /// In the host's own process.
    Direct,
    /// In the worker process.
    Remote,
}

/// What to do with an operation `C`.
#[derive(Debug, PartialEq)]
pub enum Plan<C> {
    /// Call the toolkit in this process.
    Toolkit(C),
    /// Send the request and do not wait: the caller never learns how it
    /// went, not even whether it was sent.
    Send(IpcRequest),
    /// Send the request and wait for the reply.
    Call(IpcRequest),
    /// Nothing to do: the operation has no remote form and counts as done.
    Skip,
    /// Fail with these words: the operation cannot be done remotely.
    Refuse(String),
}

/// The mathematical content of a [`Plan`].
pub enum PlanView<C> {
    Toolkit(C),
    Send(RequestView),
    Call(RequestView),
    Skip,
    Refuse(Seq<char>),
}

impl<C: View> View for Plan<C> {
    type V = PlanView<C::V>;

    open spec fn view(&self) -> PlanView<C::V> {
        match self {
            Plan::Toolkit(operation) => PlanView::Toolkit(operation@),
            Plan::Send(request) => PlanView::Send(request@),
            Plan::Call(request) => PlanView::Call(request@),
            Plan::Skip => PlanView::Skip,
            Plan::Refuse(reason) => PlanView::Refuse(reason@),
        }
    }
}

/// What to do with a question `Q` whose answer is an `A`.
#[derive(Debug, PartialEq)]
pub enum Ask<Q, A> {
    /// Ask the toolkit in this process.
    Toolkit(Q),
    /// Take this answer. In remote mode a question is not worth a round
    /// trip to the worker: the host answers with a fixed value that may
    /// differ from the window's true state.
    Answer(A),
}

/// The words for an error of the connection.
pub open spec fn ipc_error_text(error: IpcError) -> Seq<char> {
    match error {
        IpcError::InvalidData => "Invalid message format"@,
        IpcError::TimedOut => "Timeout waiting for response"@,
        IpcError::ConnectionReset => "IPC channel disconnected"@,
    }
}

/// The words with which a request that could not be exchanged fails.
pub open spec fn send_failure(error: IpcError) -> Seq<char> {
    "Failed to send IPC request: "@ + ipc_error_text(error)
}

/// What the caller of a request gets from its reply: the data of a
/// success, or the worker's words where the worker reports an error. `Pong`
/// and events carry no data.
pub open spec fn reply_result(response: ResponseView) -> Result<Option<Json>, Seq<char>> {
    match response {
        ResponseView::Success { data, .. } => Ok(data),
        ResponseView::Error { message, .. } => Err(message),
        ResponseView::ApplicationEvent { .. } => Ok(None),
        ResponseView::Pong => Ok(None),
    }
}

/// The content of what a caller gets.
pub open spec fn result_view(result: Result<Option<JsonValue>, String>) -> Result<
    Option<Json>,
    Seq<char>,
> {
    match result {
        Ok(Some(data)) => Ok(Some(data.model())),
        Ok(None) => Ok(None),
        Err(reason) => Err(reason@),
    }
}

/// The words for an error of the connection.
pub fn ipc_error_message(error: IpcError) -> (text: String)
    ensures
        text@ == ipc_error_text(error),
{
    match error {
        IpcError::InvalidData => String::from_str("Invalid message format"),
        IpcError::TimedOut => String::from_str("Timeout waiting for response"),
        IpcError::ConnectionReset => String::from_str("IPC channel disconnected"),
    }
}

/// The words with which a request that could not be exchanged fails.
pub fn send_failure_message(error: IpcError) -> (text: String)
    ensures
        text@ == send_failure(error),
{
    let mut text = String::from_str("Failed to send IPC request: ");
    text.append(ipc_error_message(error).as_str());
    text
}

/// Turns the reply to a request into what its caller gets: an error
/// response becomes a failure with the worker's words.
pub fn map_reply(response: IpcResponse) -> (result: Result<Option<JsonValue>, String>)
    ensures
        result_view(result) == reply_result(response@),
{
    match response {
        IpcResponse::Success { request_id, data } => Ok(data),
        IpcResponse::Error { request_id, message } => Err(message),
        IpcResponse::ApplicationEvent { event_type, window_id } => Ok(None),
        IpcResponse::Pong => Ok(None),
    }
}

/// Turns the outcome of a blocking request into what its caller gets: a
/// failure of the connection and an error response both become a failure.
pub fn map_outcome(outcome: Result<IpcResponse, IpcError>) -> (result: Result<
    Option<JsonValue>,
    String,
>)
    ensures
        result_view(result) == match outcome {
            Ok(response) => reply_result(response@),
            Err(error) => Err(send_failure(error)),
        },
{
    match outcome {
        Ok(response) => map_reply(response),
        Err(error) => Err(send_failure_message(error)),
    }
}

/// The words for an operation that failed: what failed and why.
pub open spec fn failure_text(operation: Seq<char>, details: Seq<char>) -> Seq<char> {
    "Failed to "@ + operation + ": "@ + details
}

/// The words for an operation that failed: `Failed to <operation>:
/// <details>`.
pub fn error_with_context(operation: &str, details: &str) -> (text: String)
    ensures
        text@ == failure_text(operation@, details@),
{
    let mut text = String::from_str("Failed to ");
    text.append(operation);
    text.append(": ");
    text.append(details);
    text
}

/// The content of the outcome of a request that was waited for.
pub open spec fn outcome_view(outcome: Result<IpcResponse, IpcError>) -> Result<
    ResponseView,
    IpcError,
> {
    match outcome {
        Ok(response) => Ok(response@),
        Err(error) => Err(error),
    }
}

/// The words with which a request that was waited for has failed, if it
/// has: the worker's words for an error response, the words for the
/// failure of the connection otherwise.
pub open spec fn call_failure(outcome: Result<ResponseView, IpcError>) -> Option<Seq<char>> {
    match outcome {
        Ok(response) => match reply_result(response) {
            Ok(_) => None,
            Err(reason) => Some(reason),
        },
        Err(error) => Some(send_failure(error)),
    }
}

/// The words with which a call on the toolkit in this process has failed,
/// if it has.
pub open spec fn build_failure(operation: Seq<char>, outcome: Result<(), String>) -> Option<
    Seq<char>,
> {
    match outcome {
        Ok(_) => None,
        Err(reason) => Some(failure_text(operation, reason@)),
    }
}

/// The content of an optional text.
pub open spec fn words(text: Option<String>) -> Option<Seq<char>> {
    match text {
        Some(s) => Some(s@),
        None => None,
    }
}

/// Tells whether a request that was waited for has failed, and with which
/// words.
pub fn call_failed(outcome: Result<IpcResponse, IpcError>) -> (failure: Option<String>)
    ensures
        words(failure) == call_failure(outcome_view(outcome)),
{
    match map_outcome(outcome) {
        Ok(_) => None,
        Err(reason) => Some(reason),
    }
}

/// Tells whether a call on the toolkit in this process has failed, and
/// with which words: `Failed to <operation>: <the toolkit's words>`.
pub fn build_failed(operation: &str, outcome: Result<(), String>) -> (failure: Option<String>)
    ensures
        words(failure) == build_failure(operation@, outcome),
{
    match outcome {
        Ok(_) => None,
        Err(reason) => Some(error_with_context(operation, reason.as_str())),
    }
}

} // verus!
