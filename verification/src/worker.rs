//! The worker's side of the conversation: one state, driven by what its
//! event loop observes.
//!
//! The event loop hands over each request that arrived, each answer of the
//! toolkit and each native close event, in the order in which it saw them,
//! and does what comes back: it makes the call on the toolkit, writes the
//! response to the connection that asked, or writes the event to every
//! connection.

use vstd::prelude::*;
use crate::dispatch::{
    answer_response, call_outcome, complete_toolkit_call, outcome_view, process_ipc_request,
    request_outcome, respond, retired_handle, IpcRequestResult, RequestResultView, ToolkitCall,
    ToolkitCallView,
};
use crate::ipc::{Envelope, IpcMessage, IpcRequest, IpcResponse, RequestView, ResponseView};
use crate::registry::{
    natives_after_removal, ways_back_hold, webviews_after_removal, windows_after_removal,
    WindowManager,
};

verus! {

/// What the event loop has to do with a request.
#[derive(Debug, PartialEq)]
pub enum RequestStep {
    /// Write this message to the connection that the request came from.
    Reply(IpcMessage<IpcResponse>),
    /// Make this call on the toolkit and hand the result to
    /// [`Worker::finish_request`], with this request identifier.
    Call { request_id: u64, call: ToolkitCall },
}

/// The mathematical content of a [`RequestStep`].
pub enum RequestStepView {
    Reply(Envelope<ResponseView>),
    Call { request_id: u64, call: ToolkitCallView },
}

impl View for RequestStep {
    type V = RequestStepView;

    open spec fn view(&self) -> RequestStepView {
        match self {
            RequestStep::Reply(message) => RequestStepView::Reply(message@),
            RequestStep::Call { request_id, call } => RequestStepView::Call {
                request_id: *request_id,
                call: call@,
            },
        }
    }
}

/// The state of the worker: its registry and its exit flag.
pub struct Worker {
    windows: WindowManager,
    exit: bool,
}

/// The step that follows from what the registry made of a request.
pub open spec fn step_of(request_id: u64, outcome: RequestResultView) -> RequestStepView {
    match outcome {
        RequestResultView::Success(response) => RequestStepView::Reply(
            Envelope { request_id, payload: response },
        ),
        RequestResultView::Toolkit(call) => RequestStepView::Call { request_id, call },
        RequestResultView::Error(reason) => RequestStepView::Reply(
            Envelope { request_id, payload: ResponseView::Error { request_id, message: reason } },
        ),
    }
}

/// The event that tells the host that the window `window_id` was closed.
pub open spec fn close_event(window_id: u32) -> Envelope<ResponseView> {
    Envelope {
        request_id: 0,
        payload: ResponseView::ApplicationEvent {
            event_type: "WindowCloseRequested"@,
            window_id: Some(window_id),
        },
    }
}

impl Worker {
    /// Every way back from a native identity is true: it leads to a handle
    /// whose window has that identity. [`Worker::new`] establishes this and
    /// every method keeps it.
    pub open spec fn well_formed(&self) -> bool {
        ways_back_hold(self.windows(), self.natives())
    }

    /// The registered windows: handle to native identity.
    pub closed spec fn windows(&self) -> Map<u32, u64> {
        self.windows.windows()
    }

    /// The native identities that can be mapped back to a handle.
    pub closed spec fn natives(&self) -> Map<u64, u32> {
        self.windows.natives()
    }

    /// The handles that have a webview.
    pub closed spec fn webviews(&self) -> Set<u32> {
        self.windows.webviews()
    }

    /// Whether a request asked the worker to exit.
    pub closed spec fn exit_requested(&self) -> bool {
        self.exit
    }

    /// A worker with an empty registry that was not asked to exit.
    pub fn new() -> (worker: Self)
        ensures
            worker.well_formed(),
            worker.windows() == Map::<u32, u64>::empty(),
            worker.natives() == Map::<u64, u32>::empty(),
            worker.webviews() == Set::<u32>::empty(),
            !worker.exit_requested(),
    {
        Worker { windows: WindowManager::new(), exit: false }
    }

    /// Whether the event loop has to end: an `Exit` request was answered
    /// in an earlier turn.
    pub fn should_exit(&self) -> (exit: bool)
        ensures
            exit == self.exit_requested(),
    {
        self.exit
    }

    /// Whether a window is registered under `window_id`.
    pub fn has_window(&self, window_id: u32) -> (known: bool)
        ensures
            known == self.windows().contains_key(window_id),
    {
        self.windows.has_window(window_id)
    }

    /// Whether a webview is registered for `window_id`.
    pub fn has_webview(&self, window_id: u32) -> (known: bool)
        ensures
            known == self.webviews().contains(window_id),
    {
        self.windows.has_webview(window_id)
    }

    /// Takes a request. `CloseWindow` retires its handle where a window is
    /// registered under it and is refused otherwise, `Exit` raises the
    /// exit flag; the loop ends when it next asks [`Worker::should_exit`].
    pub fn begin_request(&mut self, message: IpcMessage<IpcRequest>) -> (step: RequestStep)
        requires
            old(self).well_formed(),
        ensures
            final(self).well_formed(),
            step@ == step_of(
                message.request_id,
                request_outcome(message.payload@, old(self).windows(), old(self).webviews()),
            ),
            final(self).exit_requested() == (old(self).exit_requested()
                || message.payload@ == RequestView::Exit),
            match retired_handle(message.payload@, old(self).windows()) {
                Some(window_id) => {
                    &&& final(self).windows() == windows_after_removal(
                        old(self).windows(),
                        window_id,
                    )
                    &&& final(self).natives() == natives_after_removal(
                        old(self).windows(),
                        old(self).natives(),
                        window_id,
                    )
                    &&& final(self).webviews() == webviews_after_removal(
                        old(self).windows(),
                        old(self).webviews(),
                        window_id,
                    )
                },
                None => {
                    &&& final(self).windows() == old(self).windows()
                    &&& final(self).natives() == old(self).natives()
                    &&& final(self).webviews() == old(self).webviews()
                },
            },
    {
        let request_id = message.request_id;
        let request = message.payload;
        match &request {
            IpcRequest::Exit => {
                self.exit = true;
            },
            _ => {},
        }
        match process_ipc_request(request, &mut self.windows) {
            IpcRequestResult::Success(response) => RequestStep::Reply(
                IpcMessage { request_id, payload: response },
            ),
            IpcRequestResult::Toolkit(call) => RequestStep::Call { request_id, call },
            IpcRequestResult::Error(reason) => RequestStep::Reply(
                IpcMessage { request_id, payload: respond(Err(reason), request_id) },
            ),
        }
    }

    /// Takes what the toolkit said about the call of a request and gives the
    /// message to write to the connection that asked. `outcome` is `Ok` where
    /// the call went well, with the native identity of the window for
    /// `BuildWindow`, and `Err` with the toolkit's words where it failed.
    pub fn finish_request(
        &mut self,
        request_id: u64,
        call: ToolkitCall,
        outcome: Result<u64, String>,
    ) -> (reply: IpcMessage<IpcResponse>)
        requires
            old(self).well_formed(),
        ensures
            final(self).well_formed(),
            reply@ == (Envelope {
                request_id,
                payload: answer_response(call_outcome(call@, outcome_view(outcome)), request_id),
            }),
            final(self).exit_requested() == old(self).exit_requested(),
            match (call@, outcome) {
                (ToolkitCallView::BuildWindow { window_id, .. }, Ok(native_id)) => {
                    &&& final(self).windows() == old(self).windows().insert(window_id, native_id)
                    &&& final(self).natives() == natives_after_removal(
                        old(self).windows(),
                        old(self).natives(),
                        window_id,
                    ).insert(native_id, window_id)
                    &&& final(self).webviews() == old(self).webviews()
                },
                (ToolkitCallView::BuildWebview { window_id, .. }, Ok(_)) => {
                    &&& final(self).windows() == old(self).windows()
                    &&& final(self).natives() == old(self).natives()
                    &&& final(self).webviews() == old(self).webviews().insert(window_id)
                },
                _ => {
                    &&& final(self).windows() == old(self).windows()
                    &&& final(self).natives() == old(self).natives()
                    &&& final(self).webviews() == old(self).webviews()
                },
            },
    {
        let answer = complete_toolkit_call(call, outcome, &mut self.windows);
        IpcMessage { request_id, payload: respond(answer, request_id) }
    }

    /// Takes a native close event. Where the native window is registered,
    /// its handle is retired and the event for every connection comes back;
    /// otherwise nothing changes.
    pub fn native_close(&mut self, native_id: u64) -> (event: Option<IpcMessage<IpcResponse>>)
        requires
            old(self).well_formed(),
        ensures
            final(self).well_formed(),
            final(self).exit_requested() == old(self).exit_requested(),
            match event {
                Some(message) => {
                    &&& old(self).natives().contains_key(native_id)
                    &&& message@ == close_event(old(self).natives()[native_id])
                    &&& final(self).windows() == windows_after_removal(
                        old(self).windows(),
                        old(self).natives()[native_id],
                    )
                    &&& final(self).natives() == natives_after_removal(
                        old(self).windows(),
                        old(self).natives(),
                        old(self).natives()[native_id],
                    )
                    &&& final(self).webviews() == webviews_after_removal(
                        old(self).windows(),
                        old(self).webviews(),
                        old(self).natives()[native_id],
                    )
                },
                None => {
                    &&& !old(self).natives().contains_key(native_id)
                    &&& final(self).windows() == old(self).windows()
                    &&& final(self).natives() == old(self).natives()
                    &&& final(self).webviews() == old(self).webviews()
                },
            },
    {
        match self.windows.get_window_id(native_id) {
            Some(window_id) => {
                self.windows.remove_window(window_id);
                Some(
                    IpcMessage {
                        request_id: 0,
                        payload: IpcResponse::ApplicationEvent {
                            event_type: "WindowCloseRequested".to_owned(),
                            window_id: Some(window_id),
                        },
                    },
                )
            },
            None => None,
        }
    }
}

/// Closing one window leaves another alone. Take any registry, register a
/// window under `handle` with native identity `native_id`, then retire any
/// other handle, by a request or by a native close: `handle` still leads to
/// `native_id`, `native_id` still leads back to `handle`, and `handle` has a
/// webview exactly if it had one. (A `SetWindowVisible` in between changes
/// nothing in the registry: see [`Worker::begin_request`] and
/// [`Worker::finish_request`].)
pub proof fn lemma_close_spares_other_windows(
    windows: Map<u32, u64>,
    natives: Map<u64, u32>,
    webviews: Set<u32>,
    handle: u32,
    native_id: u64,
    other: u32,
)
    requires
        other != handle,
    ensures
        ({
            let registered = windows.insert(handle, native_id);
            let mapped = natives_after_removal(windows, natives, handle).insert(native_id, handle);
            &&& windows_after_removal(registered, other).contains_key(handle)
            &&& windows_after_removal(registered, other)[handle] == native_id
            &&& natives_after_removal(registered, mapped, other).contains_key(native_id)
            &&& natives_after_removal(registered, mapped, other)[native_id] == handle
            &&& webviews_after_removal(registered, webviews, other).contains(handle)
                == webviews.contains(handle)
        }),
{
}

} // verus!
